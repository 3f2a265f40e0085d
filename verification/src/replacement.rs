//! Which conquered notable replaces a radius notable.
use vstd::prelude::*;

use crate::fixtures::NotableReplacementCase;
use crate::kalguur_pool::{
    KALGUUR_NOTABLE_IDS, KALGUUR_NOTABLE_MAX, KALGUUR_NOTABLE_MIN, KALGUUR_NOTABLE_SPAWN_WEIGHT,
};
use crate::tinymt::{advance, next_state, seeded_state, temper_of, TinyMt32};

verus! {

/// Weighted pick over the first `n` notables of the pool, each of weight 500:
/// for notable `k`, one output word modulo the running weight `500 * k`; the
/// notable is picked when that roll is below its weight. The last notable
/// picked wins, and notable 1 when none is. Returns the state after the `n`
/// rolls and the pick.
pub open spec fn weighted_pick(s: Seq<u32>, n: nat) -> (Seq<u32>, u32)
    decreases n,
{
    if n == 0 {
        (s, KALGUUR_NOTABLE_MIN)
    } else {
        let prev = weighted_pick(s, (n - 1) as nat);
        let s1 = next_state(prev.0);
        let roll = temper_of(s1) % ((n * KALGUUR_NOTABLE_SPAWN_WEIGHT) as u32);
        (s1, if roll < KALGUUR_NOTABLE_SPAWN_WEIGHT { n as u32 } else { prev.1 })
    }
}

/// The conquered notable that replaces the notable of hash `passive_skills_hash`
/// under `jewel_seed`: seed, draw one range roll, then pick over all 37 notables.
pub open spec fn replacement_notable(passive_skills_hash: u32, jewel_seed: u32) -> u32 {
    weighted_pick(next_state(seeded_state(seq![passive_skills_hash, jewel_seed])), 37).1
}

/// Whether `jewel_seed` reproduces every observation in `cases`.
pub open spec fn seed_matches(jewel_seed: u32, cases: Seq<NotableReplacementCase>) -> bool {
    forall|k: int|
        0 <= k < cases.len() ==> replacement_notable(#[trigger] cases[k].old_hash, jewel_seed)
            == cases[k].new_kalguur_notable
}

/// The pick lies in the pool, and the state has taken one step per notable.
pub proof fn lemma_weighted_pick_in_pool(s: Seq<u32>, n: nat)
    requires
        n <= 37,
    ensures
        KALGUUR_NOTABLE_MIN <= weighted_pick(s, n).1 <= KALGUUR_NOTABLE_MAX,
        weighted_pick(s, n).1 <= if n == 0 { 1 } else { n },
        weighted_pick(s, n).0 == advance(s, n),
    decreases n,
{
    if n > 0 {
        lemma_weighted_pick_in_pool(s, (n - 1) as nat);
    }
}

/// Whether output word `word`, used as the roll for notable `k` of the pool,
/// falls below that notable's weight once taken modulo the running weight `500 * k`.
pub open spec fn word_hits(word: u32, k: nat) -> bool {
    word % ((k * KALGUUR_NOTABLE_SPAWN_WEIGHT) as u32) < KALGUUR_NOTABLE_SPAWN_WEIGHT
}

/// Whether the roll for notable `k` of the pool, made from the state `k` steps
/// after `s`, falls below that notable's weight.
pub open spec fn pool_roll_hits(s: Seq<u32>, k: nat) -> bool {
    word_hits(temper_of(advance(s, k)), k)
}

/// The weighted pick over the first `n` notables is the last notable whose roll
/// hits, or notable 1 when none does.
pub proof fn lemma_weighted_pick_is_last_hit(s: Seq<u32>, n: nat)
    requires
        n <= 37,
    ensures
        ({
            let r = weighted_pick(s, n).1;
            ||| r == KALGUUR_NOTABLE_MIN && forall|k: nat| 1 <= k <= n ==> !#[trigger] pool_roll_hits(s, k)
            ||| 1 <= r <= n && pool_roll_hits(s, r as nat) && forall|k: nat|
                r < k <= n ==> !#[trigger] pool_roll_hits(s, k)
        }),
    decreases n,
{
    if n > 0 {
        lemma_weighted_pick_is_last_hit(s, (n - 1) as nat);
        lemma_weighted_pick_in_pool(s, (n - 1) as nat);
    }
}

/// Every replacement is a notable of the pool.
pub proof fn lemma_replacement_in_pool(passive_skills_hash: u32, jewel_seed: u32)
    ensures
        KALGUUR_NOTABLE_MIN <= replacement_notable(passive_skills_hash, jewel_seed)
            <= KALGUUR_NOTABLE_MAX,
{
    lemma_weighted_pick_in_pool(next_state(seeded_state(seq![passive_skills_hash, jewel_seed])), 37);
}

/// Seed `rng` with `[passive_skills_hash, jewel_seed]`.
pub fn reset_rng(rng: &mut TinyMt32, passive_skills_hash: u32, jewel_seed: u32)
    ensures
        final(rng)@ == seeded_state(seq![passive_skills_hash, jewel_seed]),
{
    rng.initialize_two_seeds(passive_skills_hash, jewel_seed);
}

/// Roll which conquered notable replaces a radius notable.
pub fn roll_kalguur_notable(rng: &mut TinyMt32) -> (r: u32)
    ensures
        (final(rng)@, r) == weighted_pick(old(rng)@, 37),
        final(rng)@ == advance(old(rng)@, 37),
        KALGUUR_NOTABLE_MIN <= r <= KALGUUR_NOTABLE_MAX,
{
    let mut rolled = KALGUUR_NOTABLE_MIN;
    let mut cumulative = 0u32;
    let mut i: usize = 0;
    while i < 37
        invariant
            i <= 37,
            cumulative == i * KALGUUR_NOTABLE_SPAWN_WEIGHT,
            (rng@, rolled) == weighted_pick(old(rng)@, i as nat),
        decreases 37 - i,
    {
        let id = KALGUUR_NOTABLE_IDS[i];
        assert(id == i + 1);
        let weight = KALGUUR_NOTABLE_SPAWN_WEIGHT;
        cumulative = cumulative.saturating_add(weight);
        if rng.generate_single(cumulative) < weight {
            rolled = id;
        }
        i = i + 1;
    }
    proof {
        lemma_weighted_pick_in_pool(old(rng)@, 37);
    }
    rolled
}

/// Full notable replacement for Heroic Tragedy: seed, one range roll in `0..=100`,
/// then the weighted pick.
pub fn roll_notable_replacement(passive_skills_hash: u32, jewel_seed: u32) -> (r: u32)
    ensures
        r == replacement_notable(passive_skills_hash, jewel_seed),
        KALGUUR_NOTABLE_MIN <= r <= KALGUUR_NOTABLE_MAX,
{
    let mut rng = TinyMt32::new();
    reset_rng(&mut rng, passive_skills_hash, jewel_seed);
    rng.generate_range(0, 100);
    roll_kalguur_notable(&mut rng)
}

/// True when `jewel_seed` reproduces every `cases` observation.
pub fn jewel_seed_matches_cases(jewel_seed: u32, cases: &[NotableReplacementCase]) -> (r: bool)
    ensures
        r == seed_matches(jewel_seed, cases@),
{
    let mut k: usize = 0;
    while k < cases.len()
        invariant
            k <= cases.len(),
            forall|j: int|
                0 <= j < k ==> replacement_notable(#[trigger] cases@[j].old_hash, jewel_seed)
                    == cases@[j].new_kalguur_notable,
        decreases cases.len() - k,
    {
        let case = cases[k];
        if roll_notable_replacement(case.old_hash, jewel_seed) != case.new_kalguur_notable {
            return false;
        }
        k = k + 1;
    }
    true
}

/// Stepping once and then `k` more times is stepping `k + 1` times.
pub proof fn lemma_advance_after_step(s: Seq<u32>, k: nat)
    ensures
        advance(next_state(s), k) == advance(s, k + 1),
    decreases k,
{
    if k > 0 {
        lemma_advance_after_step(s, (k - 1) as nat);
        assert(advance(s, k + 1) == next_state(advance(s, k)));
    } else {
        assert(advance(s, 1) == next_state(advance(s, 0)));
    }
}

/// The replacement for `(passive_skills_hash, jewel_seed)`, for every jewel seed:
/// after seeding with `[passive_skills_hash, jewel_seed]` one output word is
/// spent on the range roll, and output word `k + 1` decides notable `k`, which
/// hits when that word modulo `500 * k` is below 500. The replacement is the
/// last notable that hits, or notable 1 when none does.
pub proof fn lemma_replacement_is_last_hit_after_range_roll(passive_skills_hash: u32, jewel_seed: u32)
    ensures
        ({
            let seeded = seeded_state(seq![passive_skills_hash, jewel_seed]);
            let r = replacement_notable(passive_skills_hash, jewel_seed);
            ||| r == KALGUUR_NOTABLE_MIN && forall|k: nat|
                1 <= k <= 37 ==> !#[trigger] word_hits(temper_of(advance(seeded, k + 1)), k)
            ||| 1 <= r <= 37 && word_hits(temper_of(advance(seeded, (r + 1) as nat)), r as nat) && forall|
                k: nat,
            | r < k <= 37 ==> !#[trigger] word_hits(temper_of(advance(seeded, k + 1)), k)
        }),
{
    let seeded = seeded_state(seq![passive_skills_hash, jewel_seed]);
    let s = next_state(seeded);
    lemma_weighted_pick_is_last_hit(s, 37);
    assert forall|k: nat|
        #![trigger pool_roll_hits(s, k)]
        #![trigger word_hits(temper_of(advance(seeded, k + 1)), k)]
        pool_roll_hits(s, k) == word_hits(temper_of(advance(seeded, k + 1)), k) by {
        lemma_advance_after_step(seeded, k);
    }
}

/// A seed reproduces no observations vacuously.
pub proof fn lemma_seed_matches_empty(jewel_seed: u32)
    ensures
        seed_matches(jewel_seed, Seq::empty()),
{
}

/// A seed reproduces a single observation exactly when the replacement rolled
/// for its original notable is its conquered notable.
pub proof fn lemma_seed_matches_single(jewel_seed: u32, case: NotableReplacementCase)
    ensures
        seed_matches(jewel_seed, seq![case]) == (replacement_notable(case.old_hash, jewel_seed)
            == case.new_kalguur_notable),
{
    assert(seq![case][0] == case);
}

/// A seed reproduces two lists of observations put together exactly when it
/// reproduces each of them.
pub proof fn lemma_seed_matches_concat(
    jewel_seed: u32,
    first: Seq<NotableReplacementCase>,
    second: Seq<NotableReplacementCase>,
)
    ensures
        seed_matches(jewel_seed, first + second) == (seed_matches(jewel_seed, first)
            && seed_matches(jewel_seed, second)),
{
    let all = first + second;
    if seed_matches(jewel_seed, first) && seed_matches(jewel_seed, second) {
        assert forall|k: int| 0 <= k < all.len() implies replacement_notable(
            #[trigger] all[k].old_hash,
            jewel_seed,
        ) == all[k].new_kalguur_notable by {
            if k < first.len() {
                assert(all[k] == first[k]);
            } else {
                assert(all[k] == second[k - first.len()]);
            }
        }
    }
    if seed_matches(jewel_seed, all) {
        assert forall|k: int| 0 <= k < first.len() implies replacement_notable(
            #[trigger] first[k].old_hash,
            jewel_seed,
        ) == first[k].new_kalguur_notable by {
            assert(all[k] == first[k]);
        }
        assert forall|k: int| 0 <= k < second.len() implies replacement_notable(
            #[trigger] second[k].old_hash,
            jewel_seed,
        ) == second[k].new_kalguur_notable by {
            assert(all[k + first.len()] == second[k]);
        }
    }
}

} // verus!
