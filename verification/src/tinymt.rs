//! The TinyMT32 generator: state transition, tempering and the derived rolls.
use vstd::prelude::*;

use crate::seeding::{
    alpha_round_index_only, alpha_round_with_seed, alpha_step, alpha_steps, bravo_round,
    bravo_steps, closing_rounds, initial_mix, initial_words, lemma_alpha_step_injective_in_seed,
    lemma_seed_steps_wf, seed_steps, PartialInit, INITIAL_STATE,
};

verus! {

/// Shifts of the recurrence.
pub const TINYMT32_SH0: u32 = 1;

pub const TINYMT32_SH1: u32 = 10;

/// Mask applied to the first state word in the recurrence.
pub const TINYMT32_MASK: u32 = 0x7FFF_FFFF;

/// Words mixed into the second and third state words when the low bit is set.
pub const MAT1: u32 = 0x8F70_11EE;

pub const MAT2: u32 = 0xFC78_FF1F;

/// Word mixed into the output by tempering when the low bit is set.
pub const TMAT: u32 = 0x3793_FDFF;

/// The value `mat` where the low bit of `b` is set, else zero.
pub open spec fn masked_by_low_bit(b: u32, mat: u32) -> u32 {
    if b & 1 == 0 { 0 } else { mat }
}

/// One step of the TinyMT32 recurrence on a four-word state.
pub open spec fn next_state(s: Seq<u32>) -> Seq<u32> {
    let a0 = s[3];
    let b0 = (s[0] & TINYMT32_MASK) ^ s[1] ^ s[2];
    let a = a0 ^ (a0 << TINYMT32_SH0);
    let b = b0 ^ (b0 >> TINYMT32_SH0) ^ a;
    seq![
        s[1],
        s[2] ^ masked_by_low_bit(b, MAT1),
        (a ^ (b << TINYMT32_SH1)) ^ masked_by_low_bit(b, MAT2),
        b,
    ]
}

proof fn lemma_mask_select(b: u32, mat: u32)
    ensures
        (0u32.wrapping_sub(b & 1) & mat) == masked_by_low_bit(b, mat),
{
    assert(b & 1 == 0 || b & 1 == 1) by (bit_vector);
    if b & 1 == 0 {
        assert(0u32.wrapping_sub(b & 1) == 0);
        assert(0u32 & mat == 0) by (bit_vector);
    } else {
        assert(0u32.wrapping_sub(b & 1) == 0xFFFF_FFFF);
        assert(0xFFFF_FFFFu32 & mat == mat) by (bit_vector);
    }
}

/// Tempering of a state into one output word.
pub open spec fn temper_of(s: Seq<u32>) -> u32 {
    let b = s[0].wrapping_add(s[2] >> 8u32);
    let a = s[3] ^ b;
    a ^ masked_by_low_bit(b, TMAT)
}

/// The state after `n` steps of the recurrence.
pub open spec fn advance(s: Seq<u32>, n: nat) -> Seq<u32>
    decreases n,
{
    if n == 0 {
        s
    } else {
        next_state(advance(s, (n - 1) as nat))
    }
}

/// The generator state after seeding with `seeds` and the eight warm-up steps.
pub open spec fn seeded_state(seeds: Seq<u32>) -> Seq<u32> {
    advance(closing_rounds(seed_steps(initial_mix(), seeds)), 8)
}

/// Offsetting a word by 2^31 puts words in the order of their two's-complement reading.
pub open spec fn sign_offset(x: u32) -> u32 {
    x.wrapping_add(0x8000_0000)
}

/// The value `generate_range(min_value, max_value)` yields for output word `word`.
pub open spec fn range_value(word: u32, min_value: u32, max_value: u32) -> u32 {
    let a = sign_offset(min_value);
    let b = sign_offset(max_value);
    ((word % ((b - a + 1) as u32)) as u32).wrapping_add(a).wrapping_add(0x8000_0000)
}

/// A TinyMT32 generator, viewed as its four state words.
#[derive(Clone, Copy, Debug, PartialEq, Eq)]
pub struct TinyMt32 {
    state: [u32; 4],
}

impl Default for TinyMt32 {
    fn default() -> (r: Self)
        ensures
            r@ == initial_words(),
    {
        let r = Self { state: INITIAL_STATE };
        assert(r@ =~= initial_words());
        r
    }
}

impl TinyMt32 {
    /// The four state words.
    pub closed spec fn view(&self) -> Seq<u32> {
        self.state@
    }

    /// A generator in the initial state, not yet seeded.
    pub fn new() -> (r: Self)
        ensures
            r@ == initial_words(),
    {
        Self::default()
    }

    fn warm_up(&mut self)
        ensures
            final(self)@ == advance(old(self)@, 8),
    {
        let mut k: u32 = 0;
        while k < 8
            invariant
                k <= 8,
                self@ == advance(old(self)@, k as nat),
            decreases 8 - k,
        {
            self.generate_next_state();
            k = k + 1;
        }
    }

    /// Seed with an arbitrary list of seeds: one alpha round per seed, the closing
    /// rounds, then eight warm-up steps.
    pub fn initialize(&mut self, seeds: &[u32])
        ensures
            final(self)@ == seeded_state(seeds@),
    {
        self.state = INITIAL_STATE;
        let mut index: u32 = 1;
        assert(self.state@ =~= initial_words());
        let mut k: usize = 0;
        while k < seeds.len()
            invariant
                k <= seeds.len(),
                index < 4,
                (self.state@, index) == seed_steps(initial_mix(), seeds@.take(k as int)),
            decreases seeds.len() - k,
        {
            let seed = seeds[k];
            alpha_round_with_seed(&mut self.state, &mut index, seed);
            proof {
                assert(seeds@.take(k + 1).drop_last() =~= seeds@.take(k as int));
            }
            k = k + 1;
        }
        assert(seeds@.take(seeds.len() as int) =~= seeds@);
        let ghost after_seeds = (self.state@, index);
        let mut k: u32 = 0;
        while k < 5
            invariant
                k <= 5,
                index < 4,
                (self.state@, index) == alpha_steps(after_seeds, k as nat),
            decreases 5 - k,
        {
            alpha_round_index_only(&mut self.state, &mut index);
            k = k + 1;
        }
        let mut k: u32 = 0;
        while k < 4
            invariant
                k <= 4,
                index < 4,
                (self.state@, index) == bravo_steps(alpha_steps(after_seeds, 5), k as nat),
            decreases 4 - k,
        {
            bravo_round(&mut self.state, &mut index);
            k = k + 1;
        }
        self.warm_up();
    }

    /// Seed with exactly the two seeds `[passive_skills_hash, jewel_seed]`.
    pub fn initialize_two_seeds(&mut self, passive_skills_hash: u32, jewel_seed: u32)
        ensures
            final(self)@ == seeded_state(seq![passive_skills_hash, jewel_seed]),
    {
        let mut s = PartialInit::new();
        s.feed_seed(passive_skills_hash);
        s.finish(jewel_seed, &mut self.state);
        self.warm_up();
        proof {
            lemma_partial_rng_is_two_seed_init(passive_skills_hash, jewel_seed);
        }
    }

    /// One step of the recurrence.
    pub fn generate_next_state(&mut self)
        ensures
            final(self)@ == next_state(old(self)@),
    {
        let a = self.state[3];
        let b = (self.state[0] & TINYMT32_MASK) ^ self.state[1] ^ self.state[2];

        let a = a ^ (a << TINYMT32_SH0);
        let b = b ^ (b >> TINYMT32_SH0) ^ a;

        let old1 = self.state[1];
        self.state[0] = old1;
        self.state[1] = self.state[2];
        self.state[2] = a ^ (b << TINYMT32_SH1);
        self.state[3] = b;

        let mask = b & 1;
        self.state[1] ^= 0u32.wrapping_sub(mask) & MAT1;
        self.state[2] ^= 0u32.wrapping_sub(mask) & MAT2;
        proof {
            lemma_mask_select(b, MAT1);
            lemma_mask_select(b, MAT2);
        }
        assert(self.state@ =~= next_state(old(self)@));
    }

    /// The output word of the current state.
    pub fn temper(&self) -> (r: u32)
        ensures
            r == temper_of(self@),
    {
        let b = self.state[0].wrapping_add(self.state[2] >> 8);
        let a = self.state[3] ^ b;
        proof {
            lemma_mask_select(b, TMAT);
        }
        a ^ 0u32.wrapping_sub(b & 1) & TMAT
    }

    /// Step the state, then temper it.
    pub fn generate_uint(&mut self) -> (r: u32)
        ensures
            final(self)@ == next_state(old(self)@),
            r == temper_of(final(self)@),
    {
        self.generate_next_state();
        self.temper()
    }

    /// The next output word reduced modulo `exclusive_maximum`.
    pub fn generate_single(&mut self, exclusive_maximum: u32) -> (r: u32)
        requires
            exclusive_maximum > 0,
        ensures
            final(self)@ == next_state(old(self)@),
            r == temper_of(final(self)@) % exclusive_maximum,
            r < exclusive_maximum,
    {
        self.generate_uint() % exclusive_maximum
    }

    /// A value between `min_value` and `max_value` inclusive, both read as
    /// two's-complement words.
    pub fn generate_range(&mut self, min_value: u32, max_value: u32) -> (r: u32)
        requires
            sign_offset(min_value) <= sign_offset(max_value),
            sign_offset(max_value) - sign_offset(min_value) < u32::MAX,
        ensures
            final(self)@ == next_state(old(self)@),
            r == range_value(temper_of(final(self)@), min_value, max_value),
            sign_offset(min_value) <= sign_offset(r) <= sign_offset(max_value),
            min_value <= max_value < 0x8000_0000 ==> min_value <= r <= max_value,
            sign_offset(r) == sign_offset(min_value) + (temper_of(final(self)@) as int) % (
            sign_offset(max_value) - sign_offset(min_value) + 1),
    {
        let a = min_value.wrapping_add(0x8000_0000);
        let b = max_value.wrapping_add(0x8000_0000);
        let roll = self.generate_single(b - a + 1);
        roll.wrapping_add(a).wrapping_add(0x8000_0000)
    }
}

impl PartialInit {
    /// The seeded and warmed-up generator for last seed `jewel_seed`.
    pub fn rng_for_jewel_seed(&self, jewel_seed: u32) -> (r: TinyMt32)
        ensures
            r@ == advance(closing_rounds(alpha_step(self@, jewel_seed)), 8),
    {
        let mut state = INITIAL_STATE;
        self.finish(jewel_seed, &mut state);
        let mut rng = TinyMt32 { state };
        rng.warm_up();
        rng
    }

    /// Whether the first output word of the generator for last seed `jewel_seed`
    /// is `expected_first_roll`.
    pub fn first_roll_matches(&self, jewel_seed: u32, expected_first_roll: u32) -> (r: bool)
        ensures
            r == (temper_of(
                next_state(advance(closing_rounds(alpha_step(self@, jewel_seed)), 8)),
            ) == expected_first_roll),
    {
        let mut rng = self.rng_for_jewel_seed(jewel_seed);
        rng.generate_uint() == expected_first_roll
    }
}

/// The bounds `generate_range` accepts: in the two's-complement order the lower
/// bound is at most the upper one, and the range is not all 2^32 words.
pub open spec fn range_bounds_ok(min_value: u32, max_value: u32) -> bool {
    &&& sign_offset(min_value) <= sign_offset(max_value)
    &&& sign_offset(max_value) - sign_offset(min_value) < u32::MAX
}

/// In the two's-complement order, the range value of `word` is the lower bound
/// plus `word` modulo the number of values in the inclusive range.
pub proof fn lemma_range_value_is_offset_modulo(word: u32, min_value: u32, max_value: u32)
    requires
        range_bounds_ok(min_value, max_value),
    ensures
        sign_offset(range_value(word, min_value, max_value)) == sign_offset(min_value) + (word as int)
            % (sign_offset(max_value) - sign_offset(min_value) + 1),
{
}

/// Every value of the inclusive range, both bounds included, is the range value
/// of some word: of the word that is its distance from the lower bound.
pub proof fn lemma_range_value_reaches_every_value(min_value: u32, max_value: u32, v: u32)
    requires
        range_bounds_ok(min_value, max_value),
        sign_offset(min_value) <= sign_offset(v) <= sign_offset(max_value),
    ensures
        range_value((sign_offset(v) - sign_offset(min_value)) as u32, min_value, max_value) == v,
{
    let w = (sign_offset(v) - sign_offset(min_value)) as u32;
    let n = sign_offset(max_value) - sign_offset(min_value) + 1;
    lemma_range_value_is_offset_modulo(w, min_value, max_value);
    vstd::arithmetic::div_mod::lemma_small_mod(w as nat, n as nat);
    assert(sign_offset(range_value(w, min_value, max_value)) == sign_offset(v));
}

/// Seeding one more seed is one more alpha round on the seeding so far.
pub proof fn lemma_seed_steps_push(seeds: Seq<u32>, seed: u32)
    ensures
        seed_steps(initial_mix(), seeds.push(seed)) == alpha_step(
            seed_steps(initial_mix(), seeds),
            seed,
        ),
{
    assert(seeds.push(seed).drop_last() =~= seeds);
}

/// Whatever the seeds before it, and at every round index, the last seed of a
/// seed list is fed in whole: seed lists that differ only in their last seed
/// leave different seeding states.
pub proof fn lemma_seed_steps_injective_in_last_seed(seeds: Seq<u32>, x: u32, y: u32)
    requires
        seed_steps(initial_mix(), seeds.push(x)) == seed_steps(initial_mix(), seeds.push(y)),
    ensures
        x == y,
{
    lemma_seed_steps_push(seeds, x);
    lemma_seed_steps_push(seeds, y);
    lemma_seed_steps_wf(seeds);
    lemma_alpha_step_injective_in_seed(seed_steps(initial_mix(), seeds), x, y);
}

/// Feeding the leading seeds to a `PartialInit` one by one and then building the
/// generator for the last seed gives the state that `initialize` gives for all
/// the seeds together.
pub proof fn lemma_partial_init_agrees_with_initialize(leading: Seq<u32>, last: u32)
    ensures
        advance(closing_rounds(alpha_step(seed_steps(initial_mix(), leading), last)), 8)
            == seeded_state(leading.push(last)),
{
    lemma_seed_steps_push(leading, last);
}

/// The generator that `PartialInit::rng_for_jewel_seed` builds after one leading
/// seed `passive_skills_hash` is the generator that
/// `initialize_two_seeds(passive_skills_hash, jewel_seed)` seeds.
pub proof fn lemma_partial_rng_is_two_seed_init(passive_skills_hash: u32, jewel_seed: u32)
    ensures
        advance(
            closing_rounds(alpha_step(alpha_step(initial_mix(), passive_skills_hash), jewel_seed)),
            8,
        ) == seeded_state(seq![passive_skills_hash, jewel_seed]),
{
    lemma_seed_steps_push(Seq::empty(), passive_skills_hash);
    assert(Seq::<u32>::empty().push(passive_skills_hash) =~= seq![passive_skills_hash]);
    lemma_partial_init_agrees_with_initialize(seq![passive_skills_hash], jewel_seed);
    assert(seq![passive_skills_hash].push(jewel_seed) =~= seq![passive_skills_hash, jewel_seed]);
}

} // verus!
