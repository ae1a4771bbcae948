//! The ant: its state, its movement and its pick-up and drop-off step.

use vstd::prelude::*;
use vstd::multiset::Multiset;
use crate::contador::Contador;
use crate::grao::{modelos, Essencia, Grao, GraoModelo};
use crate::mapa::{essencias, esta_em, lema_primeiro_limites, perto_de, primeiro, tem_id, Mapa};
use crate::outros::{no_campo, Ponto};
use crate::sorteio::{novo_id, sortear_intervalo, MARCA_V4, MASCARA_V4};

verus! {

/// Horizontal component of direction `d`. Directions are numbered 1 to 8:
/// up, right, down, left, then the four diagonals (up-right, up-left,
/// down-right, down-left). Any other number stands still.
pub open spec fn passo_x(d: int) -> int {
    if d == 2 || d == 5 || d == 7 {
        1
    } else if d == 4 || d == 6 || d == 8 {
        -1
    } else {
        0
    }
}

/// Vertical component of direction `d`.
pub open spec fn passo_y(d: int) -> int {
    if d == 1 || d == 5 || d == 6 {
        1
    } else if d == 3 || d == 7 || d == 8 {
        -1
    } else {
        0
    }
}

/// Toroidal wrap of one coordinate on `0..=limite`: leaving below zero
/// re-enters at `limite`, leaving above `limite` re-enters at zero.
pub open spec fn dar_a_volta(c: int, limite: int) -> int {
    if c < 0 {
        limite
    } else if c > limite {
        0
    } else {
        c
    }
}

/// The point reached from `p` by one step in direction `d` on a field whose
/// coordinates run over `0..=tamanho.0` and `0..=tamanho.1`.
pub open spec fn deslocado(p: Ponto, d: int, tamanho: (i32, i32)) -> Ponto {
    Ponto {
        x: dar_a_volta(p.x + passo_x(d), tamanho.0 as int) as i32,
        y: dar_a_volta(p.y + passo_y(d), tamanho.1 as int) as i32,
    }
}

fn envolver(c: i64, limite: i32) -> (r: i32)
    requires
        i32::MIN - 1 <= c <= i32::MAX + 1,
    ensures
        r == dar_a_volta(c as int, limite as int),
{
    if c < 0 {
        limite
    } else if c > limite as i64 {
        0
    } else {
        c as i32
    }
}

/// One step from `posicao` in direction `direcao`, wrapping at the border of
/// the field. The boundary policy is toroidal, for every direction and both
/// axes; on a field with non-negative sides the result is always on it.
pub fn deslocar(posicao: &Ponto, direcao: i32, tamanho_mapa: (i32, i32)) -> (r: Ponto)
    ensures
        r == deslocado(*posicao, direcao as int, tamanho_mapa),
        tamanho_mapa.0 >= 0 && tamanho_mapa.1 >= 0 ==> no_campo(r, tamanho_mapa),
{
    let dx: i64 = if direcao == 2 || direcao == 5 || direcao == 7 {
        1
    } else if direcao == 4 || direcao == 6 || direcao == 8 {
        -1
    } else {
        0
    };
    let dy: i64 = if direcao == 1 || direcao == 5 || direcao == 6 {
        1
    } else if direcao == 3 || direcao == 7 || direcao == 8 {
        -1
    } else {
        0
    };
    Ponto {
        x: envolver(posicao.x as i64 + dx, tamanho_mapa.0),
        y: envolver(posicao.y as i64 + dy, tamanho_mapa.1),
    }
}

/// The position after one step in a direction drawn uniformly among the
/// eight neighbours.
pub fn nova_posicao(posicao: &Ponto, tamanho_mapa: (i32, i32)) -> (r: Ponto)
    ensures
        exists|d: int| 1 <= d <= 8 && r == #[trigger] deslocado(*posicao, d, tamanho_mapa),
        tamanho_mapa.0 >= 0 && tamanho_mapa.1 >= 0 ==> no_campo(r, tamanho_mapa),
{
    let num_aleatorio: i32 = sortear_intervalo(1, 8);
    deslocar(posicao, num_aleatorio, tamanho_mapa)
}

/// The two states of an ant. An ant starts out running; it stops when it is
/// told to or when the budget is used up, and never runs again.
#[derive(Clone, Copy, Debug, PartialEq, Eq, Structural)]
pub enum Estado {
    Executando,
    Parada,
}

/// One agent: where it is, what it carries, and whether it still runs.
#[derive(Debug)]
pub struct Formiga {
    pub id: u128,
    pub posicao: Ponto,
    pub segurando_objeto: Option<Grao>,
    pub matar_thread: bool,
    pub estado: Estado,
}

/// The value of what an ant may carry.
pub open spec fn modelo_da_carga(carga: Option<Grao>) -> Option<GraoModelo> {
    match carga {
        Some(g) => Some(g@),
        None => None,
    }
}

/// What a carried grain adds to the grains of the world: itself, once, or
/// nothing.
pub open spec fn essencia_da_carga(carga: Option<GraoModelo>) -> Multiset<Essencia> {
    match carga {
        Some(g) => Multiset::singleton(g.essencia()),
        None => Multiset::empty(),
    }
}

/// Load and store after the pick-up and drop-off step of a running ant at
/// `p`, given the load and the store before it and whether the draw accepted
/// the action.
///
/// A carrying ant drops when the draw accepts and no free grain lies at `p`:
/// the grain goes to the end of the store, at `p`. An empty-handed ant picks
/// up when the draw accepts and a free grain lies at `p`: the first such
/// grain is asked for by its identifier, and the first grain of the store
/// under that identifier leaves the store and becomes the load. In every
/// other case nothing changes.
pub open spec fn apos_acao(
    carga: Option<GraoModelo>,
    p: Ponto,
    livres: Seq<GraoModelo>,
    aceita: bool,
) -> (Option<GraoModelo>, Seq<GraoModelo>) {
    let k = primeiro(livres, esta_em(p));
    match carga {
        Some(g) => if aceita && k == livres.len() {
            (None, livres.push(g.posto_em(p)))
        } else {
            (carga, livres)
        },
        None => if aceita && k < livres.len() {
            let j = primeiro(livres, tem_id(livres[k].id));
            (Some(livres[j]), livres.remove(j))
        } else {
            (carga, livres)
        },
    }
}

/// What an ant at `posicao` sees: the grain that an action would be about,
/// and the grains that its similarity is measured against.
///
/// The second is the same for every ant: the free grains within `raio`, in
/// store order. A load is not among them, so a carrying ant over an empty
/// neighbourhood measures its load against nothing. The first is the load
/// for a carrying ant; for an empty-handed ant it is the first free grain
/// exactly at `posicao`, if there is one and `raio` is not negative.
pub fn encontrar_grao_mais_proximo_vizinhanca(
    posicao: &Ponto,
    mapa: &Mapa,
    na_mao: &Option<Grao>,
    raio: i32,
) -> (visto: (Option<Grao>, Vec<Grao>))
    ensures
        modelos(visto.1@) == mapa@.filter(perto_de(*posicao, raio as int)),
        modelo_da_carga(visto.0) == match *na_mao {
            Some(g) => Some(g@),
            None => if raio >= 0 && primeiro(mapa@, esta_em(*posicao)) < mapa@.len() {
                Some(mapa@[primeiro(mapa@, esta_em(*posicao))])
            } else {
                None
            },
        },
{
    let graos_na_vizinhanca = mapa.vizinhos(posicao, raio);
    let grao_no_local = match na_mao {
        Some(grao) => Some(grao.clone()),
        None => if raio >= 0 {
            mapa.grao_em(posicao)
        } else {
            None
        },
    };
    (grao_no_local, graos_na_vizinhanca)
}

impl Formiga {
    /// The value of the load.
    pub open spec fn carga(&self) -> Option<GraoModelo> {
        modelo_da_carga(self.segurando_objeto)
    }

    /// The ant is as `new` made it, at some point of the field: running,
    /// empty-handed, not told to stop, under a version 4 identifier.
    pub open spec fn recem_criada(&self, tamanho: (i32, i32)) -> bool {
        &&& no_campo(self.posicao, tamanho)
        &&& self.segurando_objeto is None
        &&& !self.matar_thread
        &&& self.estado == Estado::Executando
        &&& self.id & MASCARA_V4 == MARCA_V4
    }

    /// Whether a step that starts now, against a budget of `b`, is taken.
    pub open spec fn pode_andar(&self, b: int) -> bool {
        self.estado == Estado::Executando && !self.matar_thread && b > 0
    }

    /// `depois` and `restante` are what the start of one step makes of this
    /// ant and of a budget of `orcamento`, and `andou` is its result.
    ///
    /// The step is taken exactly when the ant may walk. Then the budget goes
    /// down by one, the ant still runs, and it stands one step away in one of
    /// the eight directions, wrapped at the border. Otherwise the budget and
    /// the position stay and the ant is stopped. Identifier, load and stop
    /// flag never change.
    pub open spec fn deu_passo(
        &self,
        orcamento: int,
        tamanho: (i32, i32),
        depois: Formiga,
        restante: int,
        andou: bool,
    ) -> bool {
        &&& andou == self.pode_andar(orcamento)
        &&& depois.id == self.id
        &&& depois.segurando_objeto == self.segurando_objeto
        &&& depois.matar_thread == self.matar_thread
        &&& andou ==> {
            &&& restante == orcamento - 1
            &&& depois.estado == Estado::Executando
            &&& exists|d: int|
                1 <= d <= 8 && depois.posicao == #[trigger] deslocado(self.posicao, d, tamanho)
            &&& tamanho.0 >= 0 && tamanho.1 >= 0 ==> no_campo(depois.posicao, tamanho)
        }
        &&& !andou ==> {
            &&& restante == orcamento
            &&& depois.estado == Estado::Parada
            &&& depois.posicao == self.posicao
        }
    }

    /// `depois` and `resto` are what the end of one step makes of this ant
    /// and of the free grains `livres`, when the draw says `aceita`.
    ///
    /// A stopped ant changes nothing. For a running ant, load and store are
    /// those of [`apos_acao`]. Identifier, position, stop flag and state never
    /// change.
    pub open spec fn agiu(
        &self,
        livres: Seq<GraoModelo>,
        aceita: bool,
        depois: Formiga,
        resto: Seq<GraoModelo>,
    ) -> bool {
        &&& depois.id == self.id
        &&& depois.posicao == self.posicao
        &&& depois.matar_thread == self.matar_thread
        &&& depois.estado == self.estado
        &&& self.estado == Estado::Parada ==> depois.carga() == self.carga() && resto == livres
        &&& self.estado == Estado::Executando ==> (depois.carga(), resto) == apos_acao(
            self.carga(),
            self.posicao,
            livres,
            aceita,
        )
    }

    /// A running, empty-handed ant at `ponto_surgimento`, under a fresh random
    /// identifier (version 4).
    pub fn new(ponto_surgimento: Ponto) -> (f: Formiga)
        ensures
            f.posicao == ponto_surgimento,
            f.segurando_objeto is None,
            !f.matar_thread,
            f.estado == Estado::Executando,
            f.id & MASCARA_V4 == MARCA_V4,
    {
        Formiga {
            id: novo_id(),
            posicao: ponto_surgimento,
            segurando_objeto: None,
            matar_thread: false,
            estado: Estado::Executando,
        }
    }

    /// Tells the ant to stop. The request is cooperative: it changes nothing
    /// but the flag, and the ant stops at the start of its next step.
    pub fn stop(&mut self)
        ensures
            final(self).matar_thread,
            final(self).estado == old(self).estado,
            final(self).id == old(self).id,
            final(self).posicao == old(self).posicao,
            final(self).segurando_objeto == old(self).segurando_objeto,
    {
        self.matar_thread = true;
    }

    /// The start of one step: the stop flag, the budget, the move.
    ///
    /// A stopped ant stays stopped and touches nothing. A running ant that
    /// has been told to stop stops, without asking the budget. Any other ant
    /// asks the budget for one unit: refused, it stops; granted, it moves one
    /// step in a direction drawn uniformly among the eight neighbours,
    /// wrapping at the border. The result says whether the step was taken.
    pub fn passo(&mut self, contador: &mut Contador, tamanho_mapa: (i32, i32)) -> (andou: bool)
        ensures
            old(self).deu_passo(
                old(contador)@,
                tamanho_mapa,
                *final(self),
                final(contador)@,
                andou,
            ),
    {
        if self.estado == Estado::Parada {
            return false;
        }
        if self.matar_thread || !contador.consumir() {
            self.estado = Estado::Parada;
            return false;
        }
        self.posicao = nova_posicao(&self.posicao, tamanho_mapa);
        true
    }

    /// The end of one step: drop the load or pick a grain up, if the draw
    /// accepted it and the place allows it. `aceita` says that the uniform
    /// draw fell at or under the probability of the action that applies (a
    /// drop for a carrying ant, a pick-up otherwise).
    ///
    /// A stopped ant does not touch the store. Whatever happens, every grain
    /// stays in exactly one place: the store and the load together hold after
    /// the call what they held before it.
    pub fn acao_segurar_objeto(&mut self, mapa: &mut Mapa, aceita: bool)
        ensures
            old(self).agiu(old(mapa)@, aceita, *final(self), final(mapa)@),
            final(mapa).tamanho == old(mapa).tamanho,
            essencias(final(mapa)@).add(essencia_da_carga(final(self).carga())) == essencias(
                old(mapa)@,
            ).add(essencia_da_carga(old(self).carga())),
    {
        if self.estado == Estado::Parada {
            return ;
        }
        let ghost livres = mapa@;
        let ghost k = primeiro(livres, esta_em(self.posicao));
        proof {
            broadcast use vstd::multiset::group_multiset_axioms;

            lema_primeiro_limites(livres, esta_em(self.posicao));
        }
        match self.segurando_objeto.take() {
            Some(grao_carregado) => {
                if aceita && !mapa.ha_grao_na_posicao(&self.posicao) {
                    let largado = Grao {
                        id: grao_carregado.id,
                        posicao: self.posicao,
                        dados: grao_carregado.dados,
                        grupo: grao_carregado.grupo,
                    };
                    assert(largado@ == grao_carregado@.posto_em(self.posicao));
                    mapa.adicionar_grao(&largado);
                    assert(essencias(mapa@).add(Multiset::empty()) =~= essencias(livres).add(
                        Multiset::singleton(grao_carregado@.essencia()),
                    ));
                } else {
                    self.segurando_objeto = Some(grao_carregado);
                }
            },
            None => {
                if aceita {
                    match mapa.grao_em(&self.posicao) {
                        Some(grao) => {
                            proof {
                                lema_primeiro_limites(livres, tem_id(grao.id));
                                assert(tem_id(grao.id)(livres[k]));
                            }
                            let tirado = mapa.remover_grao(grao.id);
                            assert(tirado is Some);
                            assert(essencias(mapa@).add(
                                Multiset::singleton(tirado->0@.essencia()),
                            ) =~= essencias(livres).add(Multiset::empty()));
                            self.segurando_objeto = tirado;
                        },
                        None => {},
                    }
                }
            },
        }
    }
}

/// `numero` ants, each at a position drawn uniformly on the field. A `numero`
/// that is not positive gives no ant, whatever the field; to place an ant the
/// field must have sides that are not negative.
pub fn gerar_formigas(numero: i32, tamanho_mapa: (i32, i32)) -> (formigas: Vec<Formiga>)
    requires
        numero > 0 ==> tamanho_mapa.0 >= 0 && tamanho_mapa.1 >= 0,
    ensures
        formigas.len() == if numero > 0 { numero as int } else { 0 },
        forall|i: int| 0 <= i < formigas.len() ==> (#[trigger] formigas[i]).recem_criada(tamanho_mapa),
{
    let mut formigas: Vec<Formiga> = Vec::new();
    let mut k: i32 = 0;
    while k < numero
        invariant
            numero > 0 ==> tamanho_mapa.0 >= 0 && tamanho_mapa.1 >= 0,
            0 <= k,
            numero > 0 ==> k <= numero,
            numero <= 0 ==> k == 0,
            formigas.len() == k,
            forall|i: int|
                0 <= i < formigas.len() ==> (#[trigger] formigas[i]).recem_criada(tamanho_mapa),
        decreases numero - k,
    {
        let x: i32 = sortear_intervalo(0, tamanho_mapa.0);
        let y: i32 = sortear_intervalo(0, tamanho_mapa.1);
        formigas.push(Formiga::new(Ponto { x, y }));
        k = k + 1;
    }
    formigas
}

} // verus!
