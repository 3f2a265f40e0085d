//! Seeding of the generator: the alpha and bravo mixing rounds, and the
//! reusable state after the first seeds.
use vstd::prelude::*;

verus! {

/// Multipliers of the two mixing functions.
pub const TINYMT32_ALPHA: u32 = 0x0019_660D;
pub const TINYMT32_BRAVO: u32 = 0x5D58_8B65;

/// The state that seeding starts from.
pub const INITIAL_STATE: [u32; 4] = [0x4033_6050, 0xCFA3_723C, 0x3CAC_5F6F, 0x3793_FDFF];

/// The starting state as a sequence of four words.
pub open spec fn initial_words() -> Seq<u32> {
    seq![0x4033_6050u32, 0xCFA3_723Cu32, 0x3CAC_5F6Fu32, 0x3793_FDFFu32]
}

/// Seeding starts from the initial words at round index 1.
pub open spec fn initial_mix() -> (Seq<u32>, u32) {
    (initial_words(), 1u32)
}

/// Mixing function of the alpha rounds.
pub open spec fn mix_alpha(value: u32) -> u32 {
    (value ^ (value >> 27u32)).wrapping_mul(TINYMT32_ALPHA)
}

/// Mixing function of the bravo rounds.
pub open spec fn mix_bravo(value: u32) -> u32 {
    (value ^ (value >> 27u32)).wrapping_mul(TINYMT32_BRAVO)
}

/// One alpha round on state `s` at round index `index`, with `seed` added in.
pub open spec fn alpha_mix_round(s: Seq<u32>, index: u32, seed: u32) -> Seq<u32> {
    let i = (index % 4) as int;
    let i1 = ((index + 1) % 4) as int;
    let i2 = ((index + 2) % 4) as int;
    let im1 = ((index + 3) % 4) as int;
    let r = mix_alpha(s[i] ^ s[i1] ^ s[im1]);
    let s1 = s.update(i1, s[i1].wrapping_add(r));
    let r2 = r.wrapping_add(seed).wrapping_add(index);
    let s2 = s1.update(i2, s1[i2].wrapping_add(r2));
    s2.update(i, r2)
}

/// One bravo round on state `s` at round index `index`.
pub open spec fn bravo_mix_round(s: Seq<u32>, index: u32) -> Seq<u32> {
    let i = (index % 4) as int;
    let i1 = ((index + 1) % 4) as int;
    let i2 = ((index + 2) % 4) as int;
    let im1 = ((index + 3) % 4) as int;
    let r = mix_bravo(s[i].wrapping_add(s[i1]).wrapping_add(s[im1]));
    let s1 = s.update(i1, s[i1] ^ r);
    let r2 = r.wrapping_sub(index);
    let s2 = s1.update(i2, s1[i2] ^ r2);
    s2.update(i, r2)
}

/// The round index after `index`.
pub open spec fn next_index(index: u32) -> u32 {
    ((index + 1) % 4) as u32
}

/// An alpha round on a (state, index) pair.
pub open spec fn alpha_step(m: (Seq<u32>, u32), seed: u32) -> (Seq<u32>, u32) {
    (alpha_mix_round(m.0, m.1, seed), next_index(m.1))
}

/// A bravo round on a (state, index) pair.
pub open spec fn bravo_step(m: (Seq<u32>, u32)) -> (Seq<u32>, u32) {
    (bravo_mix_round(m.0, m.1), next_index(m.1))
}

/// One alpha round per seed, in order.
pub open spec fn seed_steps(m: (Seq<u32>, u32), seeds: Seq<u32>) -> (Seq<u32>, u32)
    decreases seeds.len(),
{
    if seeds.len() == 0 {
        m
    } else {
        alpha_step(seed_steps(m, seeds.drop_last()), seeds.last())
    }
}

/// `n` alpha rounds with a zero seed.
pub open spec fn alpha_steps(m: (Seq<u32>, u32), n: nat) -> (Seq<u32>, u32)
    decreases n,
{
    if n == 0 {
        m
    } else {
        alpha_step(alpha_steps(m, (n - 1) as nat), 0)
    }
}

/// `n` bravo rounds.
pub open spec fn bravo_steps(m: (Seq<u32>, u32), n: nat) -> (Seq<u32>, u32)
    decreases n,
{
    if n == 0 {
        m
    } else {
        bravo_step(bravo_steps(m, (n - 1) as nat))
    }
}

/// The closing rounds after the seeds: five zero-seed alpha rounds, then four bravo rounds.
pub open spec fn closing_rounds(m: (Seq<u32>, u32)) -> Seq<u32> {
    bravo_steps(alpha_steps(m, 5), 4).0
}

fn manipulate_alpha(value: u32) -> (r: u32)
    ensures
        r == mix_alpha(value),
{
    (value ^ (value >> 27)).wrapping_mul(TINYMT32_ALPHA)
}

fn manipulate_bravo(value: u32) -> (r: u32)
    ensures
        r == mix_bravo(value),
{
    (value ^ (value >> 27)).wrapping_mul(TINYMT32_BRAVO)
}

pub(crate) fn alpha_round_with_seed(state: &mut [u32; 4], index: &mut u32, seed: u32)
    requires
        *old(index) < 4,
    ensures
        (final(state)@, *final(index)) == alpha_step((old(state)@, *old(index)), seed),
        *final(index) < 4,
{
    let i = *index % 4;
    let i1 = (*index + 1) % 4;
    let im1 = (*index + 3) % 4;

    let mut round_state = manipulate_alpha(state[i as usize] ^ state[i1 as usize] ^ state[im1 as usize]);
    state[i1 as usize] = state[i1 as usize].wrapping_add(round_state);
    round_state = round_state.wrapping_add(seed).wrapping_add(*index);
    state[(((*index + 1) + 1) % 4) as usize] = state[(((*index + 1) + 1) % 4) as usize].wrapping_add(
        round_state,
    );
    state[i as usize] = round_state;
    *index = (*index + 1) % 4;
    assert(state@ =~= alpha_mix_round(old(state)@, *old(index), seed));
}

pub(crate) fn alpha_round_index_only(state: &mut [u32; 4], index: &mut u32)
    requires
        *old(index) < 4,
    ensures
        (final(state)@, *final(index)) == alpha_step((old(state)@, *old(index)), 0),
        *final(index) < 4,
{
    alpha_round_with_seed(state, index, 0);
}

pub(crate) fn bravo_round(state: &mut [u32; 4], index: &mut u32)
    requires
        *old(index) < 4,
    ensures
        (final(state)@, *final(index)) == bravo_step((old(state)@, *old(index))),
        *final(index) < 4,
{
    let i = *index % 4;
    let i1 = (*index + 1) % 4;
    let im1 = (*index + 3) % 4;

    let mut round_state = manipulate_bravo(
        state[i as usize].wrapping_add(state[i1 as usize]).wrapping_add(state[im1 as usize]),
    );
    state[i1 as usize] ^= round_state;
    round_state = round_state.wrapping_sub(*index);
    state[(((*index + 1) + 1) % 4) as usize] ^= round_state;
    state[i as usize] = round_state;
    *index = (*index + 1) % 4;
    assert(state@ =~= bravo_mix_round(old(state)@, *old(index)));
}

} // verus!

verus! {

/// Seeding state after the leading seeds, kept so that many last seeds can be
/// tried against the same prefix.
#[derive(Clone, Copy)]
pub struct PartialInit {
    state: [u32; 4],
    index: u32,
}

impl PartialInit {
    #[verifier::type_invariant]
    spec fn index_in_range(self) -> bool {
        self.index < 4
    }

    /// The state words and the round index reached so far.
    pub closed spec fn view(&self) -> (Seq<u32>, u32) {
        (self.state@, self.index)
    }

    /// Seeding before any seed.
    pub fn new() -> (p: Self)
        ensures
            p@ == initial_mix(),
    {
        let p = Self { state: INITIAL_STATE, index: 1 };
        assert(p@.0 =~= initial_words());
        p
    }

    /// Mix in one more leading seed.
    pub fn feed_seed(&mut self, seed: u32)
        ensures
            final(self)@ == alpha_step(old(self)@, seed),
    {
        proof {
            use_type_invariant(&*self);
        }
        let mut state = self.state;
        let mut index = self.index;
        alpha_round_with_seed(&mut state, &mut index, seed);
        *self = Self { state, index };
    }

    /// Mix in the last seed and run the closing rounds, writing the result to `out`
    /// (the eight warm-up steps of the generator are not run here).
    pub fn finish(&self, seed: u32, out: &mut [u32; 4])
        ensures
            final(out)@ == closing_rounds(alpha_step(self@, seed)),
    {
        proof {
            use_type_invariant(self);
        }
        let mut state = self.state;
        let mut index = self.index;
        alpha_round_with_seed(&mut state, &mut index, seed);
        let mut k: u32 = 0;
        while k < 5
            invariant
                k <= 5,
                index < 4,
                (state@, index) == alpha_steps(alpha_step(self@, seed), k as nat),
            decreases 5 - k,
        {
            alpha_round_index_only(&mut state, &mut index);
            k = k + 1;
        }
        let mut k: u32 = 0;
        while k < 4
            invariant
                k <= 4,
                index < 4,
                (state@, index) == bravo_steps(alpha_steps(alpha_step(self@, seed), 5), k as nat),
            decreases 4 - k,
        {
            bravo_round(&mut state, &mut index);
            k = k + 1;
        }
        *out = state;
    }
}

} // verus!

verus! {

/// Seeding rounds keep four state words and a round index below 4.
pub open spec fn mix_wf(m: (Seq<u32>, u32)) -> bool {
    m.0.len() == 4 && m.1 < 4
}

/// The seed of an alpha round enters by plain (wrapping) addition: against the
/// same round with seed 0, the words at the round index and two past it are
/// shifted by the whole 32-bit seed, and the other two words are unchanged.
pub proof fn lemma_alpha_round_adds_seed(s: Seq<u32>, index: u32, seed: u32)
    requires
        s.len() == 4,
        index < 4,
    ensures
        ({
            let with_seed = alpha_mix_round(s, index, seed);
            let without = alpha_mix_round(s, index, 0);
            &&& with_seed.len() == 4
            &&& with_seed[index as int] == without[index as int].wrapping_add(seed)
            &&& with_seed[((index + 2) % 4) as int] == without[((index + 2) % 4) as int].wrapping_add(seed)
            &&& with_seed[((index + 1) % 4) as int] == without[((index + 1) % 4) as int]
            &&& with_seed[((index + 3) % 4) as int] == without[((index + 3) % 4) as int]
        }),
{
}

/// Different seeds give different results of an alpha round.
pub proof fn lemma_alpha_round_injective_in_seed(s: Seq<u32>, index: u32, seed1: u32, seed2: u32)
    requires
        s.len() == 4,
        index < 4,
        alpha_mix_round(s, index, seed1) == alpha_mix_round(s, index, seed2),
    ensures
        seed1 == seed2,
{
    lemma_alpha_round_adds_seed(s, index, seed1);
    lemma_alpha_round_adds_seed(s, index, seed2);
    assert(alpha_mix_round(s, index, seed1)[index as int] == alpha_mix_round(s, index, seed2)[index as int]);
}

/// An alpha step keeps a well-formed seeding state well formed.
pub proof fn lemma_alpha_step_wf(m: (Seq<u32>, u32), seed: u32)
    requires
        mix_wf(m),
    ensures
        mix_wf(alpha_step(m, seed)),
{
}

/// Seeding from the initial state stays well formed.
pub proof fn lemma_seed_steps_wf(seeds: Seq<u32>)
    ensures
        mix_wf(seed_steps(initial_mix(), seeds)),
    decreases seeds.len(),
{
    if seeds.len() > 0 {
        lemma_seed_steps_wf(seeds.drop_last());
    }
}

/// Feeding different seeds to the same seeding state gives different states.
pub proof fn lemma_alpha_step_injective_in_seed(m: (Seq<u32>, u32), seed1: u32, seed2: u32)
    requires
        mix_wf(m),
        alpha_step(m, seed1) == alpha_step(m, seed2),
    ensures
        seed1 == seed2,
{
    lemma_alpha_round_injective_in_seed(m.0, m.1, seed1, seed2);
}

} // verus!
