//! The grain store: the free grains of a field, in the order in which they
//! were put down.

use vstd::prelude::*;
use vstd::multiset::Multiset;
use crate::grao::{modelos, Essencia, Grao, GraoModelo};
use crate::outros::{na_vizinhanca, vizinho, Ponto};

verus! {

/// The collection of free grains. A grain is in the store from the moment it
/// is put down until an ant picks it up.
#[derive(Debug)]
pub struct Mapa {
    pub tamanho: (i32, i32),
    pub graos: Vec<Grao>,
}

/// Index of the first element of `s` that satisfies `alvo`, or `s.len()` if
/// none does.
pub open spec fn primeiro(s: Seq<GraoModelo>, alvo: spec_fn(GraoModelo) -> bool) -> int
    decreases s.len(),
{
    if s.len() == 0 {
        0
    } else if alvo(s[0]) {
        0
    } else {
        1 + primeiro(s.drop_first(), alvo)
    }
}

/// The grains that lie exactly at `p`.
pub open spec fn esta_em(p: Ponto) -> spec_fn(GraoModelo) -> bool {
    |m: GraoModelo| m.posicao == p
}

/// The grains whose identifier is `id`.
pub open spec fn tem_id(id: u128) -> spec_fn(GraoModelo) -> bool {
    |m: GraoModelo| m.id == id
}

/// The grains within `raio` of `p` in both coordinates.
pub open spec fn perto_de(p: Ponto, raio: int) -> spec_fn(GraoModelo) -> bool {
    |m: GraoModelo| vizinho(p, m.posicao, raio)
}

/// The multiset of what the grains of `s` are, wherever they lie.
pub open spec fn essencias(s: Seq<GraoModelo>) -> Multiset<Essencia> {
    s.map_values(|m: GraoModelo| m.essencia()).to_multiset()
}

/// `primeiro(s, alvo)` is the one index below which nothing satisfies `alvo`
/// and at which, if it is an index of `s`, `alvo` holds.
pub proof fn lema_primeiro(s: Seq<GraoModelo>, alvo: spec_fn(GraoModelo) -> bool, k: int)
    requires
        0 <= k <= s.len(),
        forall|j: int| 0 <= j < k ==> !alvo(#[trigger] s[j]),
        k < s.len() ==> alvo(s[k]),
    ensures
        primeiro(s, alvo) == k,
    decreases s.len(),
{
    if s.len() > 0 && k > 0 {
        let resto = s.drop_first();
        assert forall|j: int| 0 <= j < k - 1 implies !alvo(#[trigger] resto[j]) by {
            assert(resto[j] == s[j + 1]);
        }
        lema_primeiro(resto, alvo, k - 1);
    }
}

/// What `primeiro` finds: an index in `0..=s.len()`, with no match before it
/// and a match at it unless it is `s.len()`.
pub proof fn lema_primeiro_limites(s: Seq<GraoModelo>, alvo: spec_fn(GraoModelo) -> bool)
    ensures
        0 <= primeiro(s, alvo) <= s.len(),
        forall|j: int| 0 <= j < primeiro(s, alvo) ==> !alvo(#[trigger] s[j]),
        primeiro(s, alvo) < s.len() ==> alvo(s[primeiro(s, alvo)]),
    decreases s.len(),
{
    if s.len() > 0 && !alvo(s[0]) {
        let resto = s.drop_first();
        lema_primeiro_limites(resto, alvo);
        assert forall|j: int| 0 <= j < primeiro(s, alvo) implies !alvo(#[trigger] s[j]) by {
            if j > 0 {
                assert(s[j] == resto[j - 1]);
            }
        }
    }
}

/// No two grains of `s` share an identifier.
pub open spec fn ids_distintos(s: Seq<GraoModelo>) -> bool {
    forall|i: int, j: int| 0 <= i < j < s.len() ==> (#[trigger] s[i]).id != (#[trigger] s[j]).id
}

/// A grain is picked up at most once. In a store whose identifiers are
/// distinct, once the grain under `id` has been taken out, no grain under
/// `id` is left: a second ant that asks for it finds nothing. The grains
/// that stay keep distinct identifiers.
pub proof fn lei_da_remocao_unica(s: Seq<GraoModelo>, id: u128)
    requires
        ids_distintos(s),
        primeiro(s, tem_id(id)) < s.len(),
    ensures
        primeiro(s.remove(primeiro(s, tem_id(id))), tem_id(id)) == s.len() - 1,
        ids_distintos(s.remove(primeiro(s, tem_id(id)))),
{
    let k = primeiro(s, tem_id(id));
    lema_primeiro_limites(s, tem_id(id));
    let t = s.remove(k);
    assert forall|j: int| 0 <= j < t.len() implies !tem_id(id)(#[trigger] t[j]) by {
        if j < k {
            assert(t[j] == s[j]);
        } else {
            assert(t[j] == s[j + 1]);
            assert(s[k].id != s[j + 1].id);
        }
    }
    lema_primeiro(t, tem_id(id), t.len() as int);
    assert forall|i: int, j: int| 0 <= i < j < t.len() implies (#[trigger] t[i]).id != (
    #[trigger] t[j]).id by {
        let a = if i < k { i } else { i + 1 };
        let b = if j < k { j } else { j + 1 };
        assert(t[i] == s[a]);
        assert(t[j] == s[b]);
    }
}

/// With distinct identifiers, asking for the first grain at `p` by its
/// identifier finds that very grain.
pub proof fn lei_do_alvo_unico(s: Seq<GraoModelo>, p: Ponto)
    requires
        ids_distintos(s),
        primeiro(s, esta_em(p)) < s.len(),
    ensures
        primeiro(s, tem_id(s[primeiro(s, esta_em(p))].id)) == primeiro(s, esta_em(p)),
{
    let k = primeiro(s, esta_em(p));
    lema_primeiro_limites(s, esta_em(p));
    assert forall|j: int| 0 <= j < k implies !tem_id(s[k].id)(#[trigger] s[j]) by {
        assert(s[j].id != s[k].id);
    }
    lema_primeiro(s, tem_id(s[k].id), k);
}

/// No identifier occurs twice in the multiset: two grains under one
/// identifier are one grain, and it is there once.
pub open spec fn ids_unicos(ms: Multiset<Essencia>) -> bool {
    forall|a: Essencia, b: Essencia|
        ms.count(a) > 0 && ms.count(b) > 0 && a.id == b.id ==> a == b && ms.count(a) == 1
}

/// Where the free grains are part of a collection without repeated
/// identifiers, the store has none either.
pub proof fn lema_ids_do_todo(s: Seq<GraoModelo>, resto: Multiset<Essencia>)
    requires
        ids_unicos(essencias(s).add(resto)),
    ensures
        ids_distintos(s),
{
    broadcast use vstd::multiset::group_multiset_axioms;

    let f = |m: GraoModelo| m.essencia();
    let t = s.map_values(f);
    let todo = essencias(s).add(resto);
    assert forall|i: int, j: int| 0 <= i < j < s.len() implies (#[trigger] s[i]).id != (
    #[trigger] s[j]).id by {
        if s[i].id == s[j].id {
            t.to_multiset_ensures();
            assert(t[i] == s[i].essencia());
            assert(t[j] == s[j].essencia());
            assert(t.contains(t[i]));
            assert(t.contains(t[j]));
            assert(todo.count(t[i]) > 0);
            assert(todo.count(t[j]) > 0);
            assert(t[i] == t[j]);
            let u = t.remove(j);
            vstd::seq_lib::to_multiset_remove(t, j);
            u.to_multiset_ensures();
            assert(u[i] == t[i]);
            assert(u.contains(t[i]));
            assert(u.to_multiset().count(t[i]) > 0);
            assert(t.to_multiset().count(t[i]) >= 2);
            assert(todo.count(t[i]) >= 2);
        }
    }
}

/// Putting a grain down adds what it is to the multiset, once.
pub proof fn lema_essencias_push(s: Seq<GraoModelo>, m: GraoModelo)
    ensures
        essencias(s.push(m)) == essencias(s).insert(m.essencia()),
{
    let f = |m: GraoModelo| m.essencia();
    assert(s.push(m).map_values(f) =~= s.map_values(f).push(f(m)));
    vstd::seq_lib::to_multiset_build(s.map_values(f), f(m));
}

/// Taking the grain at index `k` away removes what it is from the multiset,
/// once.
pub proof fn lema_essencias_remove(s: Seq<GraoModelo>, k: int)
    requires
        0 <= k < s.len(),
    ensures
        essencias(s.remove(k)).insert(s[k].essencia()) == essencias(s),
        essencias(s.remove(k)) == essencias(s).remove(s[k].essencia()),
{
    broadcast use vstd::multiset::group_multiset_axioms;

    let f = |m: GraoModelo| m.essencia();
    let t = s.map_values(f);
    assert(s.remove(k).map_values(f) =~= t.remove(k));
    vstd::seq_lib::to_multiset_remove(t, k);
    t.to_multiset_ensures();
    assert(t.to_multiset().count(t[k]) > 0);
    assert(t.to_multiset().remove(t[k]).insert(t[k]) =~= t.to_multiset());
}

impl View for Mapa {
    type V = Seq<GraoModelo>;

    open spec fn view(&self) -> Seq<GraoModelo> {
        modelos(self.graos@)
    }
}

impl Mapa {
    /// An empty store for a field of the given size.
    pub fn new(tamanho: (i32, i32)) -> (m: Mapa)
        ensures
            m.tamanho == tamanho,
            m@ == Seq::<GraoModelo>::empty(),
    {
        let m = Mapa { tamanho, graos: Vec::new() };
        assert(m@ =~= Seq::<GraoModelo>::empty());
        m
    }

    /// A copy of every free grain within `raio` of `posicao`, in store order.
    pub fn vizinhos(&self, posicao: &Ponto, raio: i32) -> (perto: Vec<Grao>)
        ensures
            modelos(perto@) == self@.filter(perto_de(*posicao, raio as int)),
    {
        let mut perto: Vec<Grao> = Vec::new();
        let n = self.graos.len();
        let mut i: usize = 0;
        assert(self@.take(0) =~= Seq::<GraoModelo>::empty());
        assert(modelos(perto@) =~= Seq::<GraoModelo>::empty());
        proof {
            reveal(Seq::filter);
        }
        while i < n
            invariant
                n == self.graos.len(),
                0 <= i <= n,
                modelos(perto@) == self@.take(i as int).filter(perto_de(*posicao, raio as int)),
            decreases n - i,
        {
            let ghost antes = modelos(perto@);
            if na_vizinhanca(posicao, &self.graos[i].posicao, raio) {
                perto.push(self.graos[i].clone());
                assert(modelos(perto@) =~= antes.push(self@[i as int]));
            }
            proof {
                assert(self@.take(i as int + 1) =~= self@.take(i as int).push(self@[i as int]));
                self@.take(i as int).lemma_filter_push(
                    self@[i as int],
                    perto_de(*posicao, raio as int),
                );
            }
            i = i + 1;
        }
        assert(self@.take(n as int) =~= self@);
        perto
    }

    /// A copy of the first free grain that lies exactly at `posicao`, if there
    /// is one.
    pub fn grao_em(&self, posicao: &Ponto) -> (achado: Option<Grao>)
        ensures
            match achado {
                Some(g) => {
                    &&& primeiro(self@, esta_em(*posicao)) < self@.len()
                    &&& g@ == self@[primeiro(self@, esta_em(*posicao))]
                },
                None => primeiro(self@, esta_em(*posicao)) == self@.len(),
            },
    {
        let n = self.graos.len();
        let mut i: usize = 0;
        while i < n
            invariant
                n == self.graos.len(),
                0 <= i <= n,
                forall|j: int| 0 <= j < i ==> (#[trigger] self@[j]).posicao != *posicao,
            decreases n - i,
        {
            if self.graos[i].posicao == *posicao {
                proof {
                    lema_primeiro(self@, esta_em(*posicao), i as int);
                }
                return Some(self.graos[i].clone());
            }
            i = i + 1;
        }
        proof {
            lema_primeiro(self@, esta_em(*posicao), n as int);
        }
        None
    }

    /// Whether some free grain lies exactly at `posicao`.
    pub fn ha_grao_na_posicao(&self, posicao: &Ponto) -> (ha: bool)
        ensures
            ha == (primeiro(self@, esta_em(*posicao)) < self@.len()),
            ha == exists|j: int| 0 <= j < self@.len() && (#[trigger] self@[j]).posicao == *posicao,
    {
        let n = self.graos.len();
        let mut i: usize = 0;
        while i < n
            invariant
                n == self.graos.len(),
                0 <= i <= n,
                forall|j: int| 0 <= j < i ==> (#[trigger] self@[j]).posicao != *posicao,
            decreases n - i,
        {
            if self.graos[i].posicao == *posicao {
                proof {
                    lema_primeiro(self@, esta_em(*posicao), i as int);
                    assert(self@[i as int].posicao == *posicao);
                }
                return true;
            }
            i = i + 1;
        }
        proof {
            lema_primeiro(self@, esta_em(*posicao), n as int);
        }
        false
    }

    /// Takes the first grain with identifier `id` out of the store and hands
    /// it over. When no grain has that identifier (another ant took it
    /// first), the store is left as it was and nothing is returned.
    pub fn remover_grao(&mut self, id: u128) -> (tirado: Option<Grao>)
        ensures
            final(self).tamanho == old(self).tamanho,
            match tirado {
                Some(g) => {
                    &&& primeiro(old(self)@, tem_id(id)) < old(self)@.len()
                    &&& g@ == old(self)@[primeiro(old(self)@, tem_id(id))]
                    &&& final(self)@ == old(self)@.remove(primeiro(old(self)@, tem_id(id)))
                    &&& essencias(final(self)@).insert(g@.essencia()) == essencias(old(self)@)
                },
                None => {
                    &&& primeiro(old(self)@, tem_id(id)) == old(self)@.len()
                    &&& final(self)@ == old(self)@
                },
            },
    {
        let n = self.graos.len();
        let mut i: usize = 0;
        while i < n
            invariant
                *self == *old(self),
                n == self.graos.len(),
                0 <= i <= n,
                forall|j: int| 0 <= j < i ==> (#[trigger] self@[j]).id != id,
            decreases n - i,
        {
            if self.graos[i].id == id {
                proof {
                    lema_primeiro(self@, tem_id(id), i as int);
                    lema_essencias_remove(self@, i as int);
                }
                let g = self.graos.remove(i);
                assert(self@ =~= old(self)@.remove(i as int));
                return Some(g);
            }
            i = i + 1;
        }
        proof {
            lema_primeiro(self@, tem_id(id), n as int);
        }
        None
    }

    /// Puts a copy of `g` into the store, after every grain already there.
    pub fn adicionar_grao(&mut self, g: &Grao)
        ensures
            final(self).tamanho == old(self).tamanho,
            final(self)@ == old(self)@.push(g@),
            essencias(final(self)@) == essencias(old(self)@).insert(g@.essencia()),
    {
        proof {
            lema_essencias_push(self@, g@);
        }
        self.graos.push(g.clone());
        assert(self@ =~= old(self)@.push(g@));
    }
}

} // verus!
