//! The record a planning run produces.
use vstd::prelude::*;
use crate::fixed::dist_sq;
use crate::distance::{euclid_sp, euclidean};

verus! {

/// Outcome of one planning run: whether the goal was reached, the
/// elapsed wall-clock milliseconds, the root-to-goal position path
/// (empty on failure), and the size of the search tree at termination.
pub struct PlannerSolution {
    pub success: bool,
    pub time_ms: u64,
    pub path: Vec<(i64, i64)>,
    pub tree_size: usize,
}

/// Total Euclidean length of the first `k` points of a polyline.
pub open spec fn path_len_sp(p: Seq<(i64, i64)>, k: int) -> int
    decreases k,
{
    if k <= 1 {
        0
    } else {
        path_len_sp(p, k - 1) + euclid_sp(p[k - 1].0 - p[k - 2].0, p[k - 1].1 - p[k - 2].1)
    }
}

impl PlannerSolution {
    /// The empty, unsuccessful record.
    pub fn new() -> (r: Self)
        ensures
            !r.success,
            r.time_ms == 0,
            r.path@.len() == 0,
            r.tree_size == 0,
    {
        Self { success: false, time_ms: 0, path: Vec::new(), tree_size: 0 }
    }

    /// Sum of consecutive-point Euclidean distances along the path.
    pub fn path_length(&self) -> (r: i64)
        requires
            self.path@.len() <= 1_000_000,
            forall|i: int| 0 <= i < self.path@.len()
                ==> -1_000_000_000 <= (#[trigger] self.path@[i]).0 <= 1_000_000_000
                    && -1_000_000_000 <= self.path@[i].1 <= 1_000_000_000,
        ensures
            r == path_len_sp(self.path@, self.path@.len() as int),
            r >= 0,
    {
        let mut acc: i64 = 0;
        let mut i: usize = 1;
        if self.path.len() < 2 {
            return 0;
        }
        while i < self.path.len()
            invariant
                1 <= i <= self.path@.len() <= 1_000_000,
                forall|j: int| 0 <= j < self.path@.len()
                    ==> -1_000_000_000 <= (#[trigger] self.path@[j]).0 <= 1_000_000_000
                        && -1_000_000_000 <= self.path@[j].1 <= 1_000_000_000,
                acc == path_len_sp(self.path@, i as int),
                0 <= acc <= (i - 1) * 2_828_427_125,
            decreases self.path@.len() - i,
        {
            let a: (i64, i64) = self.path[i - 1];
            let b: (i64, i64) = self.path[i];
            let d: i64 = euclidean(b.0 - a.0, b.1 - a.1);
            proof {
                assert((i as int) * 2_828_427_125 == (i - 1) * 2_828_427_125 + 2_828_427_125)
                    by (nonlinear_arith);
                assert((i as int) * 2_828_427_125 <= 1_000_000 * 2_828_427_125)
                    by (nonlinear_arith)
                    requires i <= 1_000_000,
            ;
            }
            acc = acc + d;
            i = i + 1;
        }
        acc
    }
}

} // verus!
