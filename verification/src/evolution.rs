use vstd::prelude::*;
use crate::random::random_in;

verus! {

/// How many of the best agents pass unchanged into the next generation.
pub const ELITE_COUNT: usize = 15;

/// How many of the best agents may parent the rest of the next generation.
pub const PARENT_POOL: usize = 30;

/// The size of the next generation: the population size, but never fewer
/// than the elite.
pub open spec fn next_generation_len(population_size: usize) -> int {
    if population_size < ELITE_COUNT {
        ELITE_COUNT as int
    } else {
        population_size as int
    }
}

/// Whether `agent` is one of the best `PARENT_POOL` agents of `ranked`.
pub open spec fn in_parent_pool(ranked: Seq<usize>, agent: usize) -> bool {
    exists|k: int| 0 <= k < PARENT_POOL && ranked[k] == agent
}

/// The parents of the next generation for the draws `draws`: the best
/// `ELITE_COUNT` agents of `ranked`, then, for each draw `k`, the agent ranked
/// `k`-th.
pub open spec fn plan_of(ranked: Seq<usize>, draws: Seq<usize>) -> Seq<usize> {
    ranked.take(ELITE_COUNT as int) + draws.map_values(|k: usize| ranked[k as int])
}

/// The parents of the next generation, given the agents' indices `ranked`
/// from best to worst and the drawn ranks `draws` of the parents of the
/// mutated members: the elite first, then one parent per draw.
pub fn plan_from_draws(ranked: &Vec<usize>, draws: &Vec<usize>) -> (plan: Vec<usize>)
    requires
        ranked@.len() >= ELITE_COUNT,
        forall|i: int| 0 <= i < draws@.len() ==> draws@[i] < ranked@.len(),
    ensures
        plan@ == plan_of(ranked@, draws@),
{
    let mut plan: Vec<usize> = Vec::new();
    for i in 0..ELITE_COUNT
        invariant
            ranked@.len() >= ELITE_COUNT,
            plan@ == ranked@.take(i as int),
    {
        plan.push(ranked[i]);
        assert(ranked@.take(i + 1) == ranked@.take(i as int).push(ranked@[i as int]));
    }
    let n = draws.len();
    for i in 0..n
        invariant
            n == draws@.len(),
            ranked@.len() >= ELITE_COUNT,
            forall|j: int| 0 <= j < draws@.len() ==> draws@[j] < ranked@.len(),
            plan@ == ranked@.take(ELITE_COUNT as int) + draws@.take(i as int).map_values(
                |k: usize| ranked@[k as int],
            ),
    {
        plan.push(ranked[draws[i]]);
        assert(draws@.take(i + 1) == draws@.take(i as int).push(draws@[i as int]));
        assert(draws@.take(i + 1).map_values(|k: usize| ranked@[k as int]) == draws@.take(
            i as int,
        ).map_values(|k: usize| ranked@[k as int]).push(ranked@[draws@[i as int] as int]));
    }
    assert(draws@.take(n as int) == draws@);
    plan
}

/// Chooses the parent of each member of the next generation, given the
/// agents' indices `ranked` from best to worst. The first `ELITE_COUNT`
/// members are the best agents themselves, kept unchanged; each further member,
/// up to `population_size`, is a mutated copy of an agent drawn at random from
/// the best `PARENT_POOL`. Returns the parents' indices, member by member.
pub fn breeding_plan(ranked: &Vec<usize>, population_size: usize) -> (plan: Vec<usize>)
    requires
        ranked@.len() >= ELITE_COUNT,
        population_size > ELITE_COUNT ==> ranked@.len() >= PARENT_POOL,
    ensures
        plan@.len() == next_generation_len(population_size),
        forall|i: int| 0 <= i < ELITE_COUNT ==> plan@[i] == ranked@[i],
        forall|i: int|
            ELITE_COUNT <= i < plan@.len() ==> #[trigger] in_parent_pool(ranked@, plan@[i]),
{
    let extra = if population_size > ELITE_COUNT { population_size - ELITE_COUNT } else { 0 };
    let mut draws: Vec<usize> = Vec::new();
    for i in 0..extra
        invariant
            draws@.len() == i,
            forall|j: int| 0 <= j < draws@.len() ==> draws@[j] < PARENT_POOL,
    {
        let k = random_in(0, PARENT_POOL as i32) as usize;
        draws.push(k);
    }
    let plan = plan_from_draws(ranked, &draws);
    assert forall|i: int| ELITE_COUNT <= i < plan@.len() implies #[trigger] in_parent_pool(
        ranked@,
        plan@[i],
    ) by {
        let k = draws@[i - ELITE_COUNT];
        assert(plan@[i] == ranked@[k as int]);
    }
    plan
}

} // verus!
