//! The scenario: the store, the ants, the budget and the monitor as one
//! state, with the steps of the simulation as operations on it.

use vstd::prelude::*;
use vstd::multiset::Multiset;
use crate::contador::Contador;
use crate::formiga::{
    apos_acao, encontrar_grao_mais_proximo_vizinhanca, essencia_da_carga, modelo_da_carga, Estado,
    Formiga,
};
use crate::grao::{modelos, Essencia, Grao, GraoModelo};
use crate::mapa::{
    essencias, esta_em, ids_distintos, ids_unicos, lema_essencias_push, lema_essencias_remove,
    lema_ids_do_todo, lema_primeiro_limites, perto_de, primeiro, tem_id, Mapa,
};
use crate::outros::Ponto;
use crate::monitor::{Monitor, Progresso};

verus! {

/// Everything that one run of the simulation owns.
///
/// `grupos` lists the group labels of the initial grains, each once, in the
/// order in which they first occur; a renderer gives each a colour.
#[derive(Debug)]
pub struct Cenario {
    pub dimensoes: (i32, i32),
    pub formigas: Vec<Formiga>,
    pub mapa: Mapa,
    pub contador: Contador,
    pub monitor: Monitor,
    pub grupos: Vec<i32>,
}

/// What the ants of `fs` carry, as a multiset.
pub open spec fn cargas(fs: Seq<Formiga>) -> Multiset<Essencia>
    decreases fs.len(),
{
    if fs.len() == 0 {
        Multiset::empty()
    } else {
        cargas(fs.drop_last()).add(essencia_da_carga(fs.last().carga()))
    }
}

/// The values of `s`, each once, in the order of first occurrence.
pub open spec fn primeiras_ocorrencias(s: Seq<i32>) -> Seq<i32>
    decreases s.len(),
{
    if s.len() == 0 {
        Seq::empty()
    } else {
        let antes = primeiras_ocorrencias(s.drop_last());
        if antes.contains(s.last()) {
            antes
        } else {
            antes.push(s.last())
        }
    }
}

/// The group labels of a sequence of grains, in order.
pub open spec fn rotulos(s: Seq<GraoModelo>) -> Seq<i32> {
    s.map_values(|m: GraoModelo| m.grupo)
}

/// Exclusivity, one ant and the store: whatever the load of ant `i`, its
/// position and the draw, the pick-up and drop-off step moves a grain between
/// the store and that ant or moves nothing. The free grains and the loads of
/// all ants hold after the step exactly what they held before it, each grain
/// once.
pub proof fn lei_da_exclusividade(
    fs: Seq<Formiga>,
    i: int,
    depois: Formiga,
    livres: Seq<GraoModelo>,
    aceita: bool,
)
    requires
        0 <= i < fs.len(),
        depois.carga() == apos_acao(fs[i].carga(), fs[i].posicao, livres, aceita).0,
    ensures
        essencias(apos_acao(fs[i].carga(), fs[i].posicao, livres, aceita).1).add(
            cargas(fs.update(i, depois)),
        ) == essencias(livres).add(cargas(fs)),
{
    broadcast use vstd::multiset::group_multiset_axioms;

    let p = fs[i].posicao;
    let antes = essencia_da_carga(fs[i].carga());
    let agora = essencia_da_carga(depois.carga());
    let resto = apos_acao(fs[i].carga(), p, livres, aceita).1;
    lema_acao_conserva(fs[i].carga(), p, livres, aceita);
    lema_cargas_troca(fs, i, depois);
    let a = essencias(resto).add(cargas(fs.update(i, depois)));
    let b = essencias(livres).add(cargas(fs));
    assert forall|e: Essencia| a.count(e) == b.count(e) by {
        assert(essencias(resto).add(agora).count(e) == essencias(livres).add(antes).count(e));
        assert(cargas(fs.update(i, depois)).add(antes).count(e) == cargas(fs).add(agora).count(e));
    }
    assert(a =~= b);
}

/// The step between one ant and the store keeps the grains of the two
/// together.
pub proof fn lema_acao_conserva(
    carga: Option<GraoModelo>,
    p: Ponto,
    livres: Seq<GraoModelo>,
    aceita: bool,
)
    ensures
        essencias(apos_acao(carga, p, livres, aceita).1).add(
            essencia_da_carga(apos_acao(carga, p, livres, aceita).0),
        ) == essencias(livres).add(essencia_da_carga(carga)),
{
    broadcast use vstd::multiset::group_multiset_axioms;

    let k = primeiro(livres, esta_em(p));
    lema_primeiro_limites(livres, esta_em(p));
    match carga {
        Some(g) => {
            if aceita && k == livres.len() {
                lema_essencias_push(livres, g.posto_em(p));
                assert(essencias(livres.push(g.posto_em(p))).add(Multiset::empty())
                    =~= essencias(livres).add(Multiset::singleton(g.essencia())));
            }
        },
        None => {
            if aceita && k < livres.len() {
                let alvo = tem_id(livres[k].id);
                lema_primeiro_limites(livres, alvo);
                assert(alvo(livres[k]));
                let j = primeiro(livres, alvo);
                lema_essencias_remove(livres, j);
                assert(essencias(livres.remove(j)).add(Multiset::singleton(livres[j].essencia()))
                    =~= essencias(livres).add(Multiset::empty()));
            }
        },
    }
}

/// Replacing ant `i` replaces its load in the multiset of loads.
pub proof fn lema_cargas_troca(fs: Seq<Formiga>, i: int, depois: Formiga)
    requires
        0 <= i < fs.len(),
    ensures
        cargas(fs.update(i, depois)).add(essencia_da_carga(fs[i].carga())) == cargas(fs).add(
            essencia_da_carga(depois.carga()),
        ),
    decreases fs.len(),
{
    broadcast use vstd::multiset::group_multiset_axioms;

    let gs = fs.update(i, depois);
    if i == fs.len() - 1 {
        assert(gs.drop_last() =~= fs.drop_last());
        assert(cargas(gs).add(essencia_da_carga(fs[i].carga())) =~= cargas(fs).add(
            essencia_da_carga(depois.carga()),
        ));
    } else {
        lema_cargas_troca(fs.drop_last(), i, depois);
        assert(gs.drop_last() =~= fs.drop_last().update(i, depois));
        assert(gs.last() == fs.last());
        assert(cargas(gs).add(essencia_da_carga(fs[i].carga())) =~= cargas(gs.drop_last()).add(
            essencia_da_carga(fs[i].carga()),
        ).add(essencia_da_carga(fs.last().carga())));
        assert(cargas(fs).add(essencia_da_carga(depois.carga())) =~= cargas(fs.drop_last()).add(
            essencia_da_carga(depois.carga()),
        ).add(essencia_da_carga(fs.last().carga())));
    }
}

/// An ant that keeps its load keeps the multiset of loads.
pub proof fn lema_cargas_mantidas(fs: Seq<Formiga>, i: int, depois: Formiga)
    requires
        0 <= i < fs.len(),
        depois.carga() == fs[i].carga(),
    ensures
        cargas(fs.update(i, depois)) == cargas(fs),
{
    broadcast use vstd::multiset::group_multiset_axioms;

    lema_cargas_troca(fs, i, depois);
    let a = cargas(fs.update(i, depois));
    let b = cargas(fs);
    let c = essencia_da_carga(depois.carga());
    assert forall|e: Essencia| a.count(e) == b.count(e) by {
        assert(a.add(c).count(e) == b.add(c).count(e));
    }
    assert(a =~= b);
}

/// Identifiers stay unique. The grains of a scenario, free and carried, are
/// the same after every operation; so where no identifier occurs twice among
/// them at the start, none does later, and then the store in particular
/// never holds two grains under one identifier: a pick-up takes the grain
/// that was chosen, and nobody else can take it again.
pub proof fn lei_dos_ids_unicos(c: Cenario)
    requires
        ids_unicos(c.graos_totais()),
    ensures
        ids_distintos(c.mapa@),
{
    lema_ids_do_todo(c.mapa@, cargas(c.formigas@));
}

impl Cenario {
    /// Every grain of the scenario, free or carried, as what it is: the
    /// multiset that no operation changes.
    pub open spec fn graos_totais(&self) -> Multiset<Essencia> {
        essencias(self.mapa@).add(cargas(self.formigas@))
    }

    /// A scenario on a field of the given size, with the ants as they are
    /// handed in and `graos` as the free grains. The budget is empty until
    /// `start` sets it.
    pub fn new(dimensoes: (i32, i32), formigas: Vec<Formiga>, graos: Vec<Grao>) -> (c: Cenario)
        ensures
            c.dimensoes == dimensoes,
            c.formigas == formigas,
            c.mapa.tamanho == dimensoes,
            c.mapa@ == modelos(graos@),
            c.contador@ == 0,
            c.monitor.total == 0,
            forall|k: int| 0 <= k < 4 ==> !c.monitor.gerou_percentuais[k],
            c.grupos@ == primeiras_ocorrencias(rotulos(modelos(graos@))),
            c.graos_totais() == essencias(modelos(graos@)).add(cargas(formigas@)),
    {
        let grupos = grupos_distintos(&graos);
        Cenario {
            dimensoes,
            formigas,
            mapa: Mapa { tamanho: dimensoes, graos },
            contador: Contador::new(0),
            monitor: Monitor::new(0),
            grupos,
        }
    }

    /// Sets the budget of the run to `numero_interacoes` steps and resets the
    /// milestones. Ants and grains stay as they are.
    pub fn start(&mut self, numero_interacoes: i64)
        ensures
            final(self).contador@ == numero_interacoes,
            final(self).monitor.total == numero_interacoes,
            forall|k: int| 0 <= k < 4 ==> !final(self).monitor.gerou_percentuais[k],
            final(self).dimensoes == old(self).dimensoes,
            final(self).formigas == old(self).formigas,
            final(self).mapa == old(self).mapa,
            final(self).grupos == old(self).grupos,
            final(self).graos_totais() == old(self).graos_totais(),
    {
        self.contador = Contador::new(numero_interacoes);
        self.monitor = Monitor::new(numero_interacoes);
    }

    /// The start of one step of ant `i`: see [`Formiga::passo`]. No other ant
    /// and no grain is touched.
    pub fn passo(&mut self, i: usize) -> (andou: bool)
        requires
            i < old(self).formigas.len(),
        ensures
            old(self).formigas[i as int].deu_passo(
                old(self).contador@,
                old(self).dimensoes,
                final(self).formigas[i as int],
                final(self).contador@,
                andou,
            ),
            final(self).formigas@ == old(self).formigas@.update(
                i as int,
                final(self).formigas[i as int],
            ),
            final(self).dimensoes == old(self).dimensoes,
            final(self).mapa == old(self).mapa,
            final(self).monitor == old(self).monitor,
            final(self).grupos == old(self).grupos,
            final(self).graos_totais() == old(self).graos_totais(),
    {
        let tamanho = self.dimensoes;
        let andou = self.formigas[i].passo(&mut self.contador, tamanho);
        proof {
            let depois = self.formigas@[i as int];
            assert(self.formigas@ =~= old(self).formigas@.update(i as int, depois));
            lema_cargas_mantidas(old(self).formigas@, i as int, depois);
        }
        andou
    }

    /// What ant `i` sees within `raio`: see
    /// [`encontrar_grao_mais_proximo_vizinhanca`].
    pub fn observar(&self, i: usize, raio: i32) -> (visto: (Option<Grao>, Vec<Grao>))
        requires
            i < self.formigas.len(),
        ensures
            modelos(visto.1@) == self.mapa@.filter(
                perto_de(self.formigas[i as int].posicao, raio as int),
            ),
            modelo_da_carga(visto.0) == match self.formigas[i as int].segurando_objeto {
                Some(g) => Some(g@),
                None => if raio >= 0 && primeiro(
                    self.mapa@,
                    esta_em(self.formigas[i as int].posicao),
                ) < self.mapa@.len() {
                    Some(self.mapa@[primeiro(self.mapa@, esta_em(self.formigas[i as int].posicao))])
                } else {
                    None
                },
            },
    {
        encontrar_grao_mais_proximo_vizinhanca(
            &self.formigas[i].posicao,
            &self.mapa,
            &self.formigas[i].segurando_objeto,
            raio,
        )
    }

    /// The end of one step of ant `i`: see [`Formiga::acao_segurar_objeto`].
    /// No other ant is touched, and the grains of the scenario stay what
    /// they were.
    pub fn acao(&mut self, i: usize, aceita: bool)
        requires
            i < old(self).formigas.len(),
        ensures
            old(self).formigas[i as int].agiu(
                old(self).mapa@,
                aceita,
                final(self).formigas[i as int],
                final(self).mapa@,
            ),
            final(self).formigas@ == old(self).formigas@.update(
                i as int,
                final(self).formigas[i as int],
            ),
            final(self).mapa.tamanho == old(self).mapa.tamanho,
            final(self).dimensoes == old(self).dimensoes,
            final(self).contador == old(self).contador,
            final(self).monitor == old(self).monitor,
            final(self).grupos == old(self).grupos,
            final(self).graos_totais() == old(self).graos_totais(),
    {
        self.formigas[i].acao_segurar_objeto(&mut self.mapa, aceita);
        proof {
            broadcast use vstd::multiset::group_multiset_axioms;

            let fs = old(self).formigas@;
            let depois = self.formigas@[i as int];
            assert(self.formigas@ =~= fs.update(i as int, depois));
            lema_cargas_troca(fs, i as int, depois);
            let a = self.graos_totais();
            let b = old(self).graos_totais();
            let c = essencia_da_carga(fs[i as int].carga());
            let d = essencia_da_carga(depois.carga());
            assert forall|e: Essencia| a.count(e) == b.count(e) by {
                assert(essencias(self.mapa@).add(d).count(e) == essencias(old(self).mapa@).add(
                    c,
                ).count(e));
                assert(cargas(self.formigas@).add(c).count(e) == cargas(fs).add(d).count(e));
            }
            assert(a =~= b);
        }
    }

    /// Whether every ant has stopped. The run is complete when the budget is
    /// used up and this holds: no ant will touch the store again.
    pub fn todas_paradas(&self) -> (paradas: bool)
        ensures
            paradas == forall|j: int|
                0 <= j < self.formigas@.len() ==> (#[trigger] self.formigas@[j]).estado
                    == Estado::Parada,
    {
        let n = self.formigas.len();
        let mut i: usize = 0;
        while i < n
            invariant
                n == self.formigas.len(),
                0 <= i <= n,
                forall|j: int|
                    0 <= j < i ==> (#[trigger] self.formigas@[j]).estado == Estado::Parada,
            decreases n - i,
        {
            if self.formigas[i].estado != Estado::Parada {
                return false;
            }
            i = i + 1;
        }
        true
    }

    /// One poll of the monitor against the budget as it stands: see
    /// [`Monitor::avaliar`].
    pub fn monitorar(&mut self) -> (p: Progresso)
        ensures
            old(self).monitor.avaliou(old(self).contador@, final(self).monitor, p),
            final(self).dimensoes == old(self).dimensoes,
            final(self).formigas == old(self).formigas,
            final(self).mapa == old(self).mapa,
            final(self).contador == old(self).contador,
            final(self).grupos == old(self).grupos,
            final(self).graos_totais() == old(self).graos_totais(),
    {
        let restante = self.contador.restante();
        self.monitor.avaliar(restante)
    }
}

/// The group labels of `graos`, each once, in the order of first occurrence.
pub fn grupos_distintos(graos: &Vec<Grao>) -> (grupos: Vec<i32>)
    ensures
        grupos@ == primeiras_ocorrencias(rotulos(modelos(graos@))),
{
    let mut grupos: Vec<i32> = Vec::new();
    let n = graos.len();
    let mut i: usize = 0;
    let ghost todos = rotulos(modelos(graos@));
    assert(todos.take(0) =~= Seq::<i32>::empty());
    while i < n
        invariant
            n == graos.len(),
            0 <= i <= n,
            todos == rotulos(modelos(graos@)),
            grupos@ == primeiras_ocorrencias(todos.take(i as int)),
        decreases n - i,
    {
        let rotulo = graos[i].grupo;
        let m = grupos.len();
        let mut j: usize = 0;
        let mut visto = false;
        while j < m
            invariant
                m == grupos.len(),
                0 <= j <= m,
                visto == exists|t: int| 0 <= t < j && grupos@[t] == rotulo,
            decreases m - j,
        {
            if grupos[j] == rotulo {
                visto = true;
            }
            j = j + 1;
        }
        proof {
            assert(todos.take(i as int + 1).drop_last() =~= todos.take(i as int));
            assert(todos.take(i as int + 1).last() == rotulo);
            assert(visto == grupos@.contains(rotulo));
        }
        if !visto {
            grupos.push(rotulo);
        }
        i = i + 1;
    }
    assert(todos.take(n as int) =~= todos);
    grupos
}

} // verus!
