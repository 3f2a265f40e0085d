//! Observed Heroic Tragedy replacements for one jewel seed.
//! Original notables are given by their `PassiveSkillsHash`; conquered notables
//! by their `kalguur_notable` code suffix.
use vstd::prelude::*;

verus! {

/// Jewel seed shared by every case in this fixture.
pub const JEWEL_SEED_17962: u32 = 17962;

/// Third generator seed for `JEWEL_SEED_17962`, once it has been found; none is known.
pub const JEWEL_SEED_17962_HIDDEN_SALT: Option<u32> = None;

/// One notable replacement observation used to constrain a seed search.
#[derive(Clone, Copy, Debug, PartialEq, Eq)]
pub struct NotableReplacementCase {
    pub old_name: &'static str,
    /// `PassiveSkillsHash` of the original notable (the generator's first seed).
    pub old_hash: u32,
    pub new_name: &'static str,
    /// `kalguur_notableN` code suffix of the conquered notable.
    pub new_kalguur_notable: u32,
}

/// The fixture's observations, in order.
pub open spec fn seed_17962_observations() -> Seq<NotableReplacementCase> {
    seq![
        NotableReplacementCase {
            old_name: "Sanguine Tolerance",
            old_hash: 4810,
            new_name: "Survival Plan",
            new_kalguur_notable: 20,
        },
        NotableReplacementCase {
            old_name: "Bone Chains",
            old_hash: 26563,
            new_name: "Steel Bastion",
            new_kalguur_notable: 25,
        },
        NotableReplacementCase {
            old_name: "Energising Archon",
            old_hash: 43633,
            new_name: "Oaken Form",
            new_kalguur_notable: 36,
        },
        NotableReplacementCase {
            old_name: "Invigorating Archon",
            old_hash: 41394,
            new_name: "Fiery Leadership",
            new_kalguur_notable: 9,
        },
        NotableReplacementCase {
            old_name: "Convalescence",
            old_hash: 36623,
            new_name: "Fiery Leadership",
            new_kalguur_notable: 9,
        },
        NotableReplacementCase {
            old_name: "Turn the Clock Back",
            old_hash: 35564,
            new_name: "Born of Middengard",
            new_kalguur_notable: 4,
        },
        NotableReplacementCase {
            old_name: "Turn the Clock Forward",
            old_hash: 2335,
            new_name: "Natural Energies",
            new_kalguur_notable: 35,
        },
        NotableReplacementCase {
            old_name: "Mental Alacrity",
            old_hash: 16466,
            new_name: "Fight as One",
            new_kalguur_notable: 28,
        },
        NotableReplacementCase {
            old_name: "Tempered Mind",
            old_hash: 8831,
            new_name: "Wrest Control",
            new_kalguur_notable: 14,
        },
    ]
}

/// Heroic Tragedy seed 17962: nine radius notables from in-game observation.
pub fn seed_17962_cases() -> (cases: Vec<NotableReplacementCase>)
    ensures
        cases@ == seed_17962_observations(),
{
    let cases = vec![
        NotableReplacementCase {
            old_name: "Sanguine Tolerance",
            old_hash: 4810,
            new_name: "Survival Plan",
            new_kalguur_notable: 20,
        },
        NotableReplacementCase {
            old_name: "Bone Chains",
            old_hash: 26563,
            new_name: "Steel Bastion",
            new_kalguur_notable: 25,
        },
        NotableReplacementCase {
            old_name: "Energising Archon",
            old_hash: 43633,
            new_name: "Oaken Form",
            new_kalguur_notable: 36,
        },
        NotableReplacementCase {
            old_name: "Invigorating Archon",
            old_hash: 41394,
            new_name: "Fiery Leadership",
            new_kalguur_notable: 9,
        },
        NotableReplacementCase {
            old_name: "Convalescence",
            old_hash: 36623,
            new_name: "Fiery Leadership",
            new_kalguur_notable: 9,
        },
        NotableReplacementCase {
            old_name: "Turn the Clock Back",
            old_hash: 35564,
            new_name: "Born of Middengard",
            new_kalguur_notable: 4,
        },
        NotableReplacementCase {
            old_name: "Turn the Clock Forward",
            old_hash: 2335,
            new_name: "Natural Energies",
            new_kalguur_notable: 35,
        },
        NotableReplacementCase {
            old_name: "Mental Alacrity",
            old_hash: 16466,
            new_name: "Fight as One",
            new_kalguur_notable: 28,
        },
        NotableReplacementCase {
            old_name: "Tempered Mind",
            old_hash: 8831,
            new_name: "Wrest Control",
            new_kalguur_notable: 14,
        },
    ];
    cases
}

} // verus!
