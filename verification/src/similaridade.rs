//! The one condition that the similarity measure puts on its arguments:
//! feature vectors of one length. The measure itself works on real numbers
//! and is computed by the caller; the check stands here.

use vstd::prelude::*;
use crate::grao::Grao;

verus! {

/// Two feature vectors that were to be compared differ in length.
#[derive(Clone, Copy, Debug, PartialEq, Eq, Structural)]
pub struct DimensaoIncompativel {
    pub esperada: usize,
    pub encontrada: usize,
}

/// The common length of two feature vectors, or the two lengths when they
/// differ. Nothing is truncated: vectors of different lengths are never
/// compared.
pub fn verificar_dimensao(a: &Vec<u64>, b: &Vec<u64>) -> (r: Result<usize, DimensaoIncompativel>)
    ensures
        a.len() == b.len() ==> r == Ok::<usize, DimensaoIncompativel>(a.len()),
        a.len() != b.len() ==> r == Err::<usize, DimensaoIncompativel>(
            DimensaoIncompativel { esperada: a.len(), encontrada: b.len() },
        ),
{
    if a.len() == b.len() {
        Ok(a.len())
    } else {
        Err(DimensaoIncompativel { esperada: a.len(), encontrada: b.len() })
    }
}

/// Index of the first grain of `s` whose feature vector has not `n` words, or
/// `s.len()` if every one has.
pub open spec fn primeiro_diferente(s: Seq<Grao>, n: nat) -> int
    decreases s.len(),
{
    if s.len() == 0 {
        0
    } else if s[0].dados@.len() != n {
        0
    } else {
        1 + primeiro_diferente(s.drop_first(), n)
    }
}

proof fn lema_primeiro_diferente(s: Seq<Grao>, n: nat, k: int)
    requires
        0 <= k <= s.len(),
        forall|j: int| 0 <= j < k ==> (#[trigger] s[j]).dados@.len() == n,
        k < s.len() ==> s[k].dados@.len() != n,
    ensures
        primeiro_diferente(s, n) == k,
    decreases s.len(),
{
    if s.len() > 0 && k > 0 {
        let resto = s.drop_first();
        assert forall|j: int| 0 <= j < k - 1 implies (#[trigger] resto[j]).dados@.len() == n by {
            assert(resto[j] == s[j + 1]);
        }
        lema_primeiro_diferente(resto, n, k - 1);
    }
}

/// Whether the similarity of `grao` to `graos_perto` is defined: the length
/// that all the feature vectors share, or, for the first neighbour whose
/// vector differs in length from that of `grao`, the two lengths.
pub fn dimensao_comum(grao: &Grao, graos_perto: &Vec<Grao>) -> (r: Result<
    usize,
    DimensaoIncompativel,
>)
    ensures
        primeiro_diferente(graos_perto@, grao.dados@.len()) == graos_perto@.len() ==> r == Ok::<
            usize,
            DimensaoIncompativel,
        >(grao.dados.len()),
        primeiro_diferente(graos_perto@, grao.dados@.len()) < graos_perto@.len() ==> r == Err::<
            usize,
            DimensaoIncompativel,
        >(
            DimensaoIncompativel {
                esperada: grao.dados.len(),
                encontrada: graos_perto@[primeiro_diferente(
                    graos_perto@,
                    grao.dados@.len(),
                )].dados.len(),
            },
        ),
        0 <= primeiro_diferente(graos_perto@, grao.dados@.len()) <= graos_perto@.len(),
        r is Ok <==> forall|j: int|
            0 <= j < graos_perto@.len() ==> (#[trigger] graos_perto@[j]).dados@.len()
                == grao.dados@.len(),
{
    let n = graos_perto.len();
    let mut i: usize = 0;
    while i < n
        invariant
            n == graos_perto.len(),
            0 <= i <= n,
            forall|j: int|
                0 <= j < i ==> (#[trigger] graos_perto@[j]).dados@.len() == grao.dados@.len(),
        decreases n - i,
    {
        match verificar_dimensao(&grao.dados, &graos_perto[i].dados) {
            Ok(_) => {},
            Err(e) => {
                proof {
                    lema_primeiro_diferente(graos_perto@, grao.dados@.len(), i as int);
                    assert(graos_perto@[i as int].dados@.len() != grao.dados@.len());
                }
                return Err(e);
            },
        }
        i = i + 1;
    }
    proof {
        lema_primeiro_diferente(graos_perto@, grao.dados@.len(), n as int);
    }
    Ok(grao.dados.len())
}

} // verus!
