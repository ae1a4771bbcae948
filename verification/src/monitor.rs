//! The progress monitor: from the budget that is left, which snapshots are
//! due and whether the run is over.

use vstd::prelude::*;

verus! {

/// The number of milestones: three quarters, one half, one quarter and
/// nothing of the budget left.
pub const NUM_MARCOS: usize = 4;

/// The milestones of one run and which of them have been reported.
#[derive(Debug)]
pub struct Monitor {
    pub total: i64,
    pub gerou_percentuais: [bool; 4],
}

/// What the monitor reports at one poll: the milestones that are due for a
/// snapshot now, in rising order of their index, and whether the run is over
/// (which calls for the final snapshot).
#[derive(Debug)]
pub struct Progresso {
    pub marcos: Vec<usize>,
    pub fim: bool,
}

/// Four times the share of `total` that stands for milestone `k`: three
/// quarters for 0, one half for 1, one quarter for 2, nothing from 3 on.
pub open spec fn quatro_vezes_fracao(k: int, total: int) -> int {
    if k == 0 {
        3 * total
    } else if k == 1 {
        2 * total
    } else if k == 2 {
        total
    } else {
        0
    }
}

/// Milestone `k` is reached: what is left of the budget is no more than the
/// share of `total` that stands for it.
pub open spec fn atingido(k: int, restante: int, total: int) -> bool {
    4 * restante <= quatro_vezes_fracao(k, total)
}

/// The milestones below `ate` that are due: reached and not yet reported.
pub open spec fn marcos_devidos(gerou: Seq<bool>, restante: int, total: int, ate: nat) -> Seq<usize>
    decreases ate,
{
    if ate == 0 {
        Seq::empty()
    } else {
        let antes = marcos_devidos(gerou, restante, total, (ate - 1) as nat);
        if !gerou[ate - 1] && atingido(ate - 1, restante, total) {
            antes.push((ate - 1) as usize)
        } else {
            antes
        }
    }
}

impl Monitor {
    /// A monitor for a run of `total` steps, with no milestone reported.
    pub fn new(total: i64) -> (m: Monitor)
        ensures
            m.total == total,
            forall|k: int| 0 <= k < 4 ==> !m.gerou_percentuais[k],
    {
        Monitor { total, gerou_percentuais: [false, false, false, false] }
    }

    /// `depois` and `p` are what one poll makes of this monitor and reports,
    /// with `restante` steps of the budget left.
    ///
    /// With nothing left the run is over: no milestone is reported and no
    /// flag changes. Otherwise the milestones that are due are reported, in
    /// rising order, and every milestone that is reached is flagged.
    pub open spec fn avaliou(&self, restante: int, depois: Monitor, p: Progresso) -> bool {
        &&& depois.total == self.total
        &&& p.fim == (restante <= 0)
        &&& restante <= 0 ==> {
            &&& p.marcos@ == Seq::<usize>::empty()
            &&& depois.gerou_percentuais == self.gerou_percentuais
        }
        &&& restante > 0 ==> {
            &&& p.marcos@ == marcos_devidos(self.gerou_percentuais@, restante, self.total as int, 4)
            &&& forall|k: int|
                0 <= k < 4 ==> depois.gerou_percentuais[k] == (self.gerou_percentuais[k]
                    || atingido(k, restante, self.total as int))
        }
    }

    /// One poll, with `restante` steps of the budget left.
    ///
    /// With nothing left the run is over: no milestone is reported and no
    /// flag changes. Otherwise every milestone that is reached and was not
    /// reported before is reported now and flagged, so that each is reported
    /// at most once in a run.
    pub fn avaliar(&mut self, restante: i64) -> (p: Progresso)
        ensures
            old(self).avaliou(restante as int, *final(self), p),
    {
        let mut marcos: Vec<usize> = Vec::new();
        if restante <= 0 {
            return Progresso { marcos, fim: true };
        }
        let mut k: usize = 0;
        while k < NUM_MARCOS
            invariant
                0 <= k <= 4,
                restante > 0,
                self.total == old(self).total,
                marcos@ == marcos_devidos(
                    old(self).gerou_percentuais@,
                    restante as int,
                    self.total as int,
                    k as nat,
                ),
                forall|j: int|
                    0 <= j < k ==> self.gerou_percentuais[j] == (old(self).gerou_percentuais[j]
                        || atingido(j, restante as int, self.total as int)),
                forall|j: int|
                    k <= j < 4 ==> self.gerou_percentuais[j] == old(self).gerou_percentuais[j],
            decreases 4 - k,
        {
            let total: i128 = self.total as i128;
            let limite: i128 = if k == 0 {
                3 * total
            } else if k == 1 {
                2 * total
            } else if k == 2 {
                total
            } else {
                0
            };
            if !self.gerou_percentuais[k] && 4 * (restante as i128) <= limite {
                self.gerou_percentuais[k] = true;
                marcos.push(k);
            }
            k = k + 1;
        }
        Progresso { marcos, fim: false }
    }
}

/// Each milestone is reported at most once. A milestone that a poll reports
/// is one of the four, was reached and was not flagged before; the poll flags
/// every milestone that is reached, and a flagged milestone is never due. So
/// once reported, a milestone is not reported again.
pub proof fn lei_marco_uma_vez(gerou: Seq<bool>, restante: int, total: int, k: usize)
    ensures
        marcos_devidos(gerou, restante, total, 4).contains(k) ==> {
            &&& k < 4
            &&& !gerou[k as int]
            &&& atingido(k as int, restante, total)
        },
        k < 4 && gerou[k as int] ==> !marcos_devidos(gerou, restante, total, 4).contains(k),
{
    if marcos_devidos(gerou, restante, total, 4).contains(k) {
        lema_marco_devido(gerou, restante, total, 4, k);
    }
}

proof fn lema_marco_devido(gerou: Seq<bool>, restante: int, total: int, ate: nat, k: usize)
    requires
        ate <= 4,
        marcos_devidos(gerou, restante, total, ate).contains(k),
    ensures
        k < ate,
        !gerou[k as int],
        atingido(k as int, restante, total),
    decreases ate,
{
    if ate > 0 {
        let antes = marcos_devidos(gerou, restante, total, (ate - 1) as nat);
        if antes.contains(k) {
            lema_marco_devido(gerou, restante, total, (ate - 1) as nat, k);
        } else {
            let agora = marcos_devidos(gerou, restante, total, ate);
            let i = choose|i: int| 0 <= i < agora.len() && agora[i] == k;
            if i < antes.len() {
                assert(antes[i] == k);
            }
        }
    }
}

} // verus!
