//! The population search: ranking, elitism, mutation and best-ever tracking.
use vstd::prelude::*;
use crate::encoding::{is_nan, le, less, lt, ordinal, ZERO};
use crate::plan::{mutated_angle, mutated_speed, FiringPlan};
use crate::units::{Fitness, MetresPerSecond, Radians};

verus! {

/// How many of the best-ranked plans are carried into the next generation
/// unchanged.
pub const ELITES: usize = 2;

/// A plan of the current generation together with its fitness.
#[derive(Clone, Copy, Debug, PartialEq, Eq, Structural)]
pub struct Individual {
    pub plan: FiringPlan,
    pub fitness: Fitness,
}

/// Every fitness of the population is a number.
pub open spec fn fitness_known(pop: Seq<Individual>) -> bool {
    forall|i: int| 0 <= i < pop.len() ==> !is_nan(#[trigger] pop[i].fitness.0)
}

/// Member `a` ranks before member `b`: its fitness is greater, or equal and it
/// came first.
pub open spec fn ranks_before(pop: Seq<Individual>, a: int, b: int) -> bool {
    ordinal(pop[a].fitness.0) > ordinal(pop[b].fitness.0) || (ordinal(pop[a].fitness.0) == ordinal(
        pop[b].fitness.0,
    ) && a < b)
}

/// `order` lists every member of `pop` once, best first; equal fitnesses
/// keep their order.
pub open spec fn is_ranking(pop: Seq<Individual>, order: Seq<usize>) -> bool {
    &&& order.len() == pop.len()
    &&& forall|i: int| 0 <= i < order.len() ==> #[trigger] order[i] < pop.len()
    &&& forall|a: usize| a < pop.len() ==> #[trigger] order.contains(a)
    &&& forall|i: int, j: int|
        0 <= i < j < order.len() ==> ranks_before(pop, #[trigger] order[i] as int, #[trigger] order[j] as int)
}

/// The positions of the members of `pop`, best first; equal fitnesses keep
/// their order.
pub fn rank_order(pop: &Vec<Individual>) -> (r: Vec<usize>)
    requires
        fitness_known(pop@),
    ensures
        is_ranking(pop@, r@),
{
    let mut order: Vec<usize> = Vec::new();
    let mut k: usize = 0;
    while k < pop.len()
        invariant
            fitness_known(pop@),
            k <= pop.len(),
            order@.len() == k,
            forall|i: int| 0 <= i < order@.len() ==> #[trigger] order@[i] < k,
            forall|a: usize| a < k ==> #[trigger] order@.contains(a),
            forall|i: int, j: int|
                0 <= i < j < order@.len() ==> ranks_before(pop@, #[trigger] order@[i] as int, #[trigger] order@[j] as int),
        decreases pop.len() - k,
    {
        let f = pop[k].fitness.0;
        let mut p: usize = 0;
        while p < order.len() && !less(pop[order[p]].fitness.0, f)
            invariant
                fitness_known(pop@),
                k < pop.len(),
                f == pop@[k as int].fitness.0,
                order@.len() == k,
                p <= order@.len(),
                forall|i: int| 0 <= i < order@.len() ==> #[trigger] order@[i] < k,
                forall|i: int| 0 <= i < p ==> !lt(pop@[#[trigger] order@[i] as int].fitness.0, f),
            decreases order@.len() - p,
        {
            p = p + 1;
        }
        let ghost old_order = order@;
        proof {
            assert(p < old_order.len() ==> lt(pop@[old_order[p as int] as int].fitness.0, f));
        }
        order.insert(p, k);
        proof {
            let o = order@;
            assert(o[p as int] == k);
            assert forall|a: usize| a < k + 1 implies #[trigger] o.contains(a) by {
                if a < k {
                    assert(old_order.contains(a));
                    let w = choose|w: int| 0 <= w < old_order.len() && old_order[w] == a;
                    if w < p {
                        assert(o[w] == a);
                    } else {
                        assert(o[w + 1] == a);
                    }
                } else {
                    assert(o[p as int] == a);
                }
            }
            assert forall|i: int, j: int| 0 <= i < j < o.len() implies ranks_before(
                pop@,
                #[trigger] o[i] as int,
                #[trigger] o[j] as int,
            ) by {
                assert(!is_nan(pop@[o[i] as int].fitness.0));
                assert(!is_nan(pop@[o[j] as int].fitness.0));
                if j < p {
                    assert(ranks_before(pop@, old_order[i] as int, old_order[j] as int));
                } else if i < p && j == p {
                    assert(!lt(pop@[old_order[i] as int].fitness.0, f));
                } else if i == p {
                    if j > p + 1 {
                        assert(ranks_before(pop@, old_order[p as int] as int, old_order[j - 1] as int));
                    }
                } else if i < p {
                    assert(ranks_before(pop@, old_order[i] as int, old_order[j - 1] as int));
                } else {
                    assert(ranks_before(pop@, old_order[i - 1] as int, old_order[j - 1] as int));
                }
            }
        }
        k = k + 1;
    }
    order
}

/// Two rankings that agree before position `k` agree at `k`.
proof fn lemma_rankings_agree_at(pop: Seq<Individual>, first: Seq<usize>, second: Seq<usize>, k: int)
    requires
        is_ranking(pop, first),
        is_ranking(pop, second),
        0 <= k < first.len(),
        forall|m: int| 0 <= m < k ==> first[m] == second[m],
    ensures
        first[k] == second[k],
{
    let a = first[k];
    let b = second[k];
    if a != b {
        assert(second[k] < pop.len());
        assert(first.contains(b));
        let j = choose|j: int| 0 <= j < first.len() && first[j] == b;
        if j < k {
            assert(second[j] == b);
            assert(ranks_before(pop, second[j] as int, second[k] as int));
        }
        assert(ranks_before(pop, first[k] as int, first[j] as int));
        assert(first[k] < pop.len());
        assert(second.contains(a));
        let m = choose|m: int| 0 <= m < second.len() && second[m] == a;
        if m < k {
            assert(first[m] == a);
            assert(ranks_before(pop, first[m] as int, first[k] as int));
        }
        assert(ranks_before(pop, second[k] as int, second[m] as int));
    }
}

/// Two rankings that agree before position `k` agree up to position `k`.
proof fn lemma_rankings_agree_to(pop: Seq<Individual>, first: Seq<usize>, second: Seq<usize>, k: int)
    requires
        is_ranking(pop, first),
        is_ranking(pop, second),
        0 <= k <= first.len(),
    ensures
        forall|m: int| 0 <= m < k ==> first[m] == second[m],
    decreases k,
{
    if k > 0 {
        lemma_rankings_agree_to(pop, first, second, k - 1);
        lemma_rankings_agree_at(pop, first, second, k - 1);
    }
}

/// There is only one ranking of a population.
pub proof fn lemma_ranking_unique(pop: Seq<Individual>, first: Seq<usize>, second: Seq<usize>)
    requires
        is_ranking(pop, first),
        is_ranking(pop, second),
    ensures
        first == second,
{
    lemma_rankings_agree_to(pop, first, second, first.len() as int);
    assert(first =~= second);
}

/// The population in rank order, best first; equal fitnesses keep their
/// order.
pub fn rank(pop: &Vec<Individual>) -> (r: Vec<Individual>)
    requires
        fitness_known(pop@),
    ensures
        exists|order: Seq<usize>|
            #[trigger] is_ranking(pop@, order) && r@.len() == order.len() && forall|i: int|
                0 <= i < order.len() ==> r@[i] == pop@[#[trigger] order[i] as int],
{
    let order = rank_order(pop);
    let mut ranked: Vec<Individual> = Vec::new();
    let mut i: usize = 0;
    while i < order.len()
        invariant
            is_ranking(pop@, order@),
            i <= order@.len(),
            ranked@.len() == i,
            forall|j: int| 0 <= j < i ==> ranked@[j] == pop@[#[trigger] order@[j] as int],
        decreases order@.len() - i,
    {
        ranked.push(pop[order[i]]);
        i = i + 1;
    }
    proof {
        assert(is_ranking(pop@, order@));
    }
    ranked
}

/// How many plans of a population of `n` are mutated.
pub open spec fn mutated_slots(n: int) -> int {
    if n > ELITES {
        n - ELITES
    } else {
        0
    }
}

/// The plan that fills slot `i` of the next generation: the ranked plan
/// itself in an elite slot, else the mutation of that slot's draft.
pub open spec fn next_plan(
    ranked: Seq<Individual>,
    drafts: Seq<(MetresPerSecond, Radians)>,
    i: int,
) -> FiringPlan {
    if i < ELITES {
        ranked[i].plan
    } else {
        FiringPlan {
            velocity: mutated_speed(drafts[i - ELITES].0),
            angle: mutated_angle(drafts[i - ELITES].1),
        }
    }
}

/// The next generation from the ranked current one: the elites carried over,
/// then one mutated plan for each later slot, from the draft that was drawn
/// for that slot (the ranked plan's speed and elevation, each plus a draw less
/// one half).
pub fn next_population(ranked: &Vec<Individual>, drafts: &Vec<(MetresPerSecond, Radians)>) -> (r:
    Vec<FiringPlan>)
    requires
        drafts@.len() == mutated_slots(ranked@.len() as int),
    ensures
        r@.len() == ranked@.len(),
        forall|i: int| 0 <= i < r@.len() ==> #[trigger] r@[i] == next_plan(ranked@, drafts@, i),
        (forall|i: int| 0 <= i < ranked@.len() ==> (#[trigger] ranked@[i]).plan.wf()) ==> forall|
            i: int,
        | 0 <= i < r@.len() ==> (#[trigger] r@[i]).wf(),
{
    let mut next: Vec<FiringPlan> = Vec::new();
    let mut i: usize = 0;
    while i < ranked.len()
        invariant
            drafts@.len() == mutated_slots(ranked@.len() as int),
            i <= ranked@.len(),
            next@.len() == i,
            forall|j: int| 0 <= j < i ==> #[trigger] next@[j] == next_plan(ranked@, drafts@, j),
        decreases ranked@.len() - i,
    {
        let plan = if i < ELITES {
            ranked[i].plan
        } else {
            let (speed, angle) = drafts[i - ELITES];
            FiringPlan::mutated(speed, angle)
        };
        next.push(plan);
        i = i + 1;
    }
    proof {
        assert forall|i: int| 0 <= i < next@.len() && (forall|k: int| 0 <= k < ranked@.len() ==> (#[trigger] ranked@[k]).plan.wf()) implies (#[trigger] next@[i]).wf() by {
            if i >= ELITES {
                crate::plan::lemma_mutation_clamped(drafts@[i - ELITES].0, drafts@[i - ELITES].1);
            }
        }
    }
    next
}

/// The best fitness to date after a generation whose best member scored
/// `top`: `top` if it is strictly better, else unchanged.
pub open spec fn next_best(best: Fitness, top: Fitness) -> Fitness {
    if lt(best.0, top.0) {
        top
    } else {
        best
    }
}

/// The best fitness to date after generations whose best members scored
/// `tops`, in order, starting from zero.
pub open spec fn best_after(tops: Seq<Fitness>) -> Fitness
    decreases tops.len(),
{
    if tops.len() == 0 {
        Fitness(ZERO)
    } else {
        next_best(best_after(tops.drop_last()), tops.last())
    }
}

/// The best fitness to date is always a number.
pub proof fn lemma_best_is_number(tops: Seq<Fitness>)
    ensures
        !is_nan(best_after(tops).0),
    decreases tops.len(),
{
    if tops.len() > 0 {
        lemma_best_is_number(tops.drop_last());
    }
}

/// The best fitness to date never falls from one generation to the next.
pub proof fn lemma_best_never_falls(tops: Seq<Fitness>, g: int)
    requires
        0 < g <= tops.len(),
    ensures
        le(best_after(tops.take(g - 1)).0, best_after(tops.take(g)).0),
{
    assert(tops.take(g).drop_last() =~= tops.take(g - 1));
    lemma_best_is_number(tops.take(g - 1));
}

/// Progress of a search: the generation about to be ranked and the best
/// fitness seen so far.
#[derive(Clone, Copy, Debug, PartialEq, Eq, Structural)]
pub struct Progress {
    pub generation: usize,
    pub best: Fitness,
}

impl Progress {
    /// A search before its first generation: the best to date is zero.
    pub fn new() -> (r: Progress)
        ensures
            r.generation == 0,
            r.best == Fitness(ZERO),
    {
        Progress { generation: 0, best: Fitness(ZERO) }
    }

    /// Takes the ranked members of the current generation. When the first of
    /// them beats the best to date, it becomes the best, and the generation
    /// and its fitness are returned; otherwise nothing is. Either way the
    /// search moves on to the next generation.
    pub fn observe(&mut self, ranked: &Vec<Individual>) -> (r: Option<(usize, Fitness)>)
        requires
            old(self).generation < usize::MAX,
        ensures
            final(self).generation == old(self).generation + 1,
            ranked@.len() == 0 ==> r is None && final(self).best == old(self).best,
            ranked@.len() > 0 ==> final(self).best == next_best(old(self).best, ranked@[0].fitness),
            ranked@.len() > 0 && lt(old(self).best.0, ranked@[0].fitness.0) ==> r == Some(
                (old(self).generation, ranked@[0].fitness),
            ),
            ranked@.len() > 0 && !lt(old(self).best.0, ranked@[0].fitness.0) ==> r is None,
    {
        let generation = self.generation;
        self.generation = generation + 1;
        if ranked.len() > 0 && ranked[0].fitness.better_than(&self.best) {
            self.best = ranked[0].fitness;
            Some((generation, ranked[0].fitness))
        } else {
            None
        }
    }
}

} // verus!
