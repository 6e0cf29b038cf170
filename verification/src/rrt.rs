//! The kinodynamic RRT planner: goal-biased sampling, linear-scan
//! nearest neighbor, steering, repeated propagation gated by validity,
//! and parent-pointer path reconstruction, within a wall-clock budget.
use vstd::prelude::*;
use crate::fixed::SCALE;
use crate::states::State;
use crate::controls::{Control, control_in_bounds};
use crate::dynamics::control_model;
use crate::environment::{Environment, lemma_valid_in_bounds};
use crate::planners::PlannerSolution;
use crate::sampling::sample_uniform;
use crate::clock::{clock_now, elapsed_millis};

verus! {

/// The shape of the search tree: a single root holding the
/// environment's initial state, and every later node carrying a parent
/// index strictly smaller than its own, a state of the environment's
/// model that passed the validity rule.
pub open spec fn tree_wf(nodes: Seq<(State, Option<usize>)>, e: Environment) -> bool {
    &&& nodes.len() >= 1
    &&& nodes[0].1 is None
    &&& nodes[0].0 == e.initial_sp()
    &&& forall|i: int| 1 <= i < nodes.len()
        ==> ((#[trigger] nodes[i]).1 matches Some(p) && p < i)
    &&& forall|i: int| 0 <= i < nodes.len()
        ==> (#[trigger] nodes[i]).0.model() == e.model() && nodes[i].0.in_bounds()
    &&& forall|i: int| 1 <= i < nodes.len() ==> e.valid_sp((#[trigger] nodes[i]).0)
}

/// The positions along the parent chain from node `i` back to the
/// root, goal end first.
pub open spec fn chain_sp(nodes: Seq<(State, Option<usize>)>, i: int) -> Seq<(i64, i64)>
    decreases i,
{
    if 0 <= i < nodes.len() {
        match nodes[i].1 {
            Option::Some(p) => if p < i {
                seq![nodes[i].0.pos64()] + chain_sp(nodes, p as int)
            } else {
                seq![nodes[i].0.pos64()]
            },
            Option::None => seq![nodes[i].0.pos64()],
        }
    } else {
        Seq::empty()
    }
}

/// In a well-formed tree, the parent chain from any node is finite (at
/// most the node's index plus one long), starts at that node, ends at
/// the root, and every point on it is the position of some tree node.
pub proof fn lemma_parent_chain(nodes: Seq<(State, Option<usize>)>, e: Environment, i: int)
    requires
        tree_wf(nodes, e),
        0 <= i < nodes.len(),
    ensures
        1 <= chain_sp(nodes, i).len() <= i + 1,
        chain_sp(nodes, i)[0] == nodes[i].0.pos64(),
        chain_sp(nodes, i)[chain_sp(nodes, i).len() - 1] == nodes[0].0.pos64(),
        forall|j: int| 0 <= j < chain_sp(nodes, i).len()
            ==> exists|k: int| 0 <= k <= i && nodes[k].0.pos64() == #[trigger] chain_sp(nodes, i)[j],
    decreases i,
{
    let c = chain_sp(nodes, i);
    if i == 0 {
        assert(c =~= seq![nodes[0].0.pos64()]);
        assert forall|j: int| 0 <= j < c.len()
            implies exists|k: int| 0 <= k <= i && nodes[k].0.pos64() == #[trigger] c[j] by {
            assert(nodes[0].0.pos64() == c[j]);
        }
    } else {
        let p = nodes[i].1->Some_0;
        assert(p < i);
        lemma_parent_chain(nodes, e, p as int);
        let cp = chain_sp(nodes, p as int);
        assert(c =~= seq![nodes[i].0.pos64()] + cp);
        assert(c[c.len() - 1] == cp[cp.len() - 1]);
        assert forall|j: int| 0 <= j < c.len()
            implies exists|k: int| 0 <= k <= i && nodes[k].0.pos64() == #[trigger] c[j] by {
            if j == 0 {
                assert(nodes[i].0.pos64() == c[j]);
            } else {
                assert(c[j] == cp[j - 1]);
                let k0 = choose|k: int| 0 <= k <= p && nodes[k].0.pos64() == cp[j - 1];
                assert(nodes[k0].0.pos64() == c[j]);
            }
        }
    }
}

/// The RRT planner: an append-only parent-pointer tree rooted at the
/// environment's initial state, with its hyperparameters.
pub struct RRT {
    pub nodes: Vec<(State, Option<usize>)>,
    pub step_size: i64,
    pub max_dist: i64,
    pub bias: i64,
    pub environment: Environment,
}

impl RRT {
    pub open spec fn wf(self) -> bool {
        &&& self.environment.wf()
        &&& tree_wf(self.nodes@, self.environment)
        &&& 1 <= self.step_size <= 10_000_000
        &&& 0 <= self.max_dist <= 1_000_000_000_000
        &&& 0 <= self.bias <= SCALE
    }

    /// A fresh planner: the tree holds exactly the initial state.
    pub fn new(environment: Environment, step_size: i64, max_dist: i64, bias: i64) -> (r: Self)
        requires
            environment.wf(),
            1 <= step_size <= 10_000_000,
            0 <= max_dist <= 1_000_000_000_000,
            0 <= bias <= SCALE,
        ensures
            r.wf(),
            r.nodes@.len() == 1,
            r.nodes@[0].0 == environment.initial_sp(),
            r.environment == environment,
            r.step_size == step_size,
            r.max_dist == max_dist,
            r.bias == bias,
    {
        let mut nodes: Vec<(State, Option<usize>)> = Vec::new();
        nodes.push((environment.initial_state(), None));
        Self { nodes, step_size, max_dist, bias, environment }
    }

    /// The index of the tree node nearest to `target` under the model's
    /// distance heuristic; ties go to the earliest-inserted node.
    pub fn nearest(&self, target: &State) -> (r: usize)
        requires
            self.wf(),
            target.in_bounds(),
            target.model() == self.environment.model(),
        ensures
            r < self.nodes@.len(),
            forall|i: int| 0 <= i < self.nodes@.len()
                ==> self.nodes@[r as int].0.dh_sp(*target) <= (#[trigger] self.nodes@[i]).0.dh_sp(
                    *target),
            forall|i: int| 0 <= i < r
                ==> (#[trigger] self.nodes@[i]).0.dh_sp(*target) > self.nodes@[
                    r as int].0.dh_sp(*target),
    {
        let mut best_i: usize = 0;
        let mut best_d: i64 = State::distance_heuristic(&self.nodes[0].0, target);
        let mut k: usize = 1;
        while k < self.nodes.len()
            invariant
                self.wf(),
                target.in_bounds(),
                target.model() == self.environment.model(),
                1 <= k <= self.nodes@.len(),
                best_i < k,
                best_d == self.nodes@[best_i as int].0.dh_sp(*target),
                forall|i: int| 0 <= i < k
                    ==> best_d <= (#[trigger] self.nodes@[i]).0.dh_sp(*target),
                forall|i: int| 0 <= i < best_i
                    ==> (#[trigger] self.nodes@[i]).0.dh_sp(*target) > best_d,
            decreases self.nodes@.len() - k,
        {
            let d: i64 = State::distance_heuristic(&self.nodes[k].0, target);
            if d < best_d {
                best_i = k;
                best_d = d;
            }
            k = k + 1;
        }
        best_i
    }

    /// The root-to-tip position path of the most recently added node,
    /// rebuilt by walking parent pointers.
    pub fn path(&self) -> (r: Vec<(i64, i64)>)
        requires
            self.wf(),
        ensures
            ({
                let c = chain_sp(self.nodes@, self.nodes@.len() - 1);
                r@.len() == c.len() && forall|j: int| 0 <= j < c.len()
                    ==> r@[j] == c[c.len() - 1 - j]
            }),
    {
        let ghost full = chain_sp(self.nodes@, self.nodes@.len() - 1);
        let mut rev: Vec<(i64, i64)> = Vec::new();
        let mut cur: usize = self.nodes.len() - 1;
        loop
            invariant_except_break
                rev@ + chain_sp(self.nodes@, cur as int) == full,
            invariant
                self.wf(),
                cur < self.nodes@.len(),
                full == chain_sp(self.nodes@, self.nodes@.len() - 1),
            ensures
                rev@ == full,
            decreases cur,
        {
            let node: (State, Option<usize>) = self.nodes[cur];
            rev.push(node.0.position());
            match node.1 {
                Some(parent) => {
                    assert(parent < cur);
                    assert(rev@ + chain_sp(self.nodes@, parent as int) =~= full);
                    cur = parent;
                },
                None => {
                    assert(cur == 0);
                    assert(rev@ =~= full);
                    break;
                },
            }
        }
        let m: usize = rev.len();
        let mut out: Vec<(i64, i64)> = Vec::new();
        let mut j: usize = 0;
        while j < m
            invariant
                m == rev@.len(),
                rev@ == full,
                out@.len() == j <= m,
                forall|q: int| 0 <= q < j ==> out@[q] == full[m - 1 - q],
            decreases m - j,
        {
            out.push(rev[m - 1 - j]);
            j = j + 1;
        }
        out
    }

    /// The positions of every tree node, in insertion order.
    pub fn tree_positions(&self) -> (r: Vec<(i64, i64)>)
        requires
            self.wf(),
        ensures
            r@.len() == self.nodes@.len(),
            forall|i: int| 0 <= i < self.nodes@.len()
                ==> r@[i] == (#[trigger] self.nodes@[i]).0.pos64(),
    {
        let mut out: Vec<(i64, i64)> = Vec::new();
        let mut i: usize = 0;
        while i < self.nodes.len()
            invariant
                self.wf(),
                out@.len() == i <= self.nodes@.len(),
                forall|q: int| 0 <= q < i ==> out@[q] == (#[trigger] self.nodes@[q]).0.pos64(),
            decreases self.nodes@.len() - i,
        {
            out.push(self.nodes[i].0.position());
            i = i + 1;
        }
        out
    }

    /// The next steering target: the exact goal state with probability
    /// `bias` (out of `SCALE`), a uniform in-bounds sample otherwise. A
    /// bias of a full `SCALE` always yields the exact goal.
    pub fn sample_target(&self) -> (r: State)
        requires
            self.wf(),
        ensures
            r.model() == self.environment.model(),
            r.in_bounds(),
            self.bias >= SCALE ==> r == self.environment.goal_state_sp(),
    {
        let draw: i64 = sample_uniform(0, SCALE - 1);
        if draw < self.bias {
            self.environment.sample_goal()
        } else {
            self.environment.sample_state()
        }
    }

    /// Grow the tree by goal-biased sampling, nearest-neighbor lookup,
    /// steering, and repeated validity-gated propagation along one
    /// control, until a newly added state reaches the goal or the
    /// wall-clock budget is spent. The tree only grows, earlier nodes
    /// never change, every added node passed the validity rule, and a
    /// zero budget returns at once with the tree untouched.
    #[verifier::loop_isolation(false)]
    pub fn solve(&mut self, budget_ms: u64) -> (sol: PlannerSolution)
        requires
            old(self).wf(),
        ensures
            final(self).wf(),
            final(self).environment == old(self).environment,
            final(self).step_size == old(self).step_size,
            final(self).max_dist == old(self).max_dist,
            final(self).bias == old(self).bias,
            final(self).nodes@.len() >= old(self).nodes@.len(),
            forall|i: int| 0 <= i < old(self).nodes@.len()
                ==> final(self).nodes@[i] == old(self).nodes@[i],
            sol.tree_size == final(self).nodes@.len(),
            !sol.success ==> sol.path@.len() == 0,
            budget_ms == 0 ==> !sol.success && final(self).nodes@ == old(self).nodes@,
            sol.success ==> ({
                let nn = final(self).nodes@;
                let c = chain_sp(nn, nn.len() - 1);
                &&& final(self).environment.goal_at_sp(nn[nn.len() - 1].0.pos_sp().0,
                    nn[nn.len() - 1].0.pos_sp().1)
                &&& sol.path@.len() == c.len() >= 1
                &&& forall|j: int| 0 <= j < c.len() ==> sol.path@[j] == c[c.len() - 1 - j]
                &&& sol.path@[0] == nn[0].0.pos64()
                &&& sol.path@[sol.path@.len() - 1] == nn[nn.len() - 1].0.pos64()
            }),
    {
        let start: std::time::Instant = clock_now();
        let mut fuel: u64 = 0xffff_ffff_ffff_ffff;
        loop
            invariant
                self.wf(),
                self.environment == old(self).environment,
                self.step_size == old(self).step_size,
                self.max_dist == old(self).max_dist,
                self.bias == old(self).bias,
                self.nodes@.len() >= old(self).nodes@.len(),
                forall|i: int| 0 <= i < old(self).nodes@.len()
                    ==> self.nodes@[i] == old(self).nodes@[i],
                budget_ms == 0 ==> self.nodes@ == old(self).nodes@,
            decreases fuel,
        {
            if fuel == 0 {
                break;
            }
            fuel = fuel - 1;
            let el: u64 = elapsed_millis(&start);
            if el >= budget_ms {
                break;
            }
            let s_rand: State = self.sample_target();
            let i_near: usize = self.nearest(&s_rand);
            let mut s_near: State = self.nodes[i_near].0;
            let mut i_parent: usize = i_near;
            let u: Control = s_near.steer(&s_rand);
            let mut s_new: State = s_near.propagate(&u, self.step_size);
            let mut total: i64 = self.step_size;
            loop
                invariant
                    self.wf(),
                    self.environment == old(self).environment,
                    self.step_size == old(self).step_size,
                    self.max_dist == old(self).max_dist,
                    self.bias == old(self).bias,
                    self.nodes@.len() >= old(self).nodes@.len(),
                    forall|i: int| 0 <= i < old(self).nodes@.len()
                        ==> self.nodes@[i] == old(self).nodes@[i],
                    i_parent < self.nodes@.len(),
                    s_near.in_bounds(),
                    s_near.model() == self.environment.model(),
                    control_in_bounds(u),
                    control_model(u) == self.environment.model(),
                    s_new.model() == self.environment.model(),
                    -100_000_000 <= s_new.pos_sp().0 <= 100_000_000,
                    -100_000_000 <= s_new.pos_sp().1 <= 100_000_000,
                    self.step_size <= total <= self.max_dist + self.step_size,
                decreases self.max_dist + self.step_size - total,
            {
                let valid: bool = self.environment.is_valid(&s_new);
                if !valid {
                    break;
                }
                if total >= self.max_dist {
                    break;
                }
                proof {
                    lemma_valid_in_bounds(self.environment, s_new);
                }
                self.nodes.push((s_new, Some(i_parent)));
                if self.environment.is_goal(&s_new) {
                    let p: Vec<(i64, i64)> = self.path();
                    proof {
                        lemma_parent_chain(self.nodes@, self.environment,
                            self.nodes@.len() - 1);
                    }
                    let el2: u64 = elapsed_millis(&start);
                    let n: usize = self.nodes.len();
                    return PlannerSolution { success: true, time_ms: el2, path: p, tree_size: n };
                }
                s_near = s_new;
                i_parent = self.nodes.len() - 1;
                s_new = s_near.propagate(&u, self.step_size);
                total = total + self.step_size;
            }
        }
        let el3: u64 = elapsed_millis(&start);
        let n2: usize = self.nodes.len();
        PlannerSolution { success: false, time_ms: el3, path: Vec::new(), tree_size: n2 }
    }
}

} // verus!
