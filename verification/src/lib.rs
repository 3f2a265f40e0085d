//! TinyMT32 pseudo-random generator as seeded for timeless jewels, and the
//! conquered-notable roll built on it.
//!
//! Seeding uses exactly two seeds, `[passive_skills_hash, jewel_seed]`. The
//! jewel type is fixed to Heroic Tragedy, and only conquered notables are modeled.

pub mod fixtures;
pub mod kalguur_pool;
pub mod replacement;
pub mod seeding;
pub mod tinymt;

pub use fixtures::{
    seed_17962_cases, NotableReplacementCase, JEWEL_SEED_17962, JEWEL_SEED_17962_HIDDEN_SALT,
};
pub use kalguur_pool::{
    name_for, KALGUUR_NOTABLE_IDS, KALGUUR_NOTABLE_MAX, KALGUUR_NOTABLE_MIN,
    KALGUUR_NOTABLE_NAMES, KALGUUR_NOTABLE_SPAWN_WEIGHT,
};
pub use replacement::{
    jewel_seed_matches_cases, reset_rng, roll_kalguur_notable, roll_notable_replacement,
};
pub use seeding::PartialInit;
pub use tinymt::TinyMt32;

use vstd::prelude::*;

verus! {

/// Timeless jewel types, by their number in the game data.
#[derive(Clone, Copy, Debug, PartialEq, Eq)]
pub enum JewelType {
    HeroicTragedy,
}

impl JewelType {
    /// The jewel type's number in the game data.
    pub fn id(self) -> (r: u32)
        ensures
            r == 6,
    {
        match self {
            JewelType::HeroicTragedy => 6,
        }
    }
}

/// The only jewel type used by this crate.
pub const JEWEL_TYPE: JewelType = JewelType::HeroicTragedy;

/// Jewel seed range shown in game for Heroic Tragedy.
pub const JEWEL_SEED_MIN: u32 = 100;

pub const JEWEL_SEED_MAX: u32 = 8000;

/// Alternate tree version row for `JEWEL_TYPE` (its number in the game data).
pub const ALTERNATE_TREE_VERSION_INDEX: u32 = 6;

/// Number of candidate jewel seeds, all of `0..=u32::MAX`.
pub const JEWEL_SEED_SEARCH_SPACE: u64 = 4_294_967_296;

/// The seed a search stored, where `u32::MAX` stands for "none found".
pub fn stored_seed(v: u32) -> (r: Option<u32>)
    ensures
        r == (if v == u32::MAX { None } else { Some(v) }),
{
    if v == u32::MAX {
        None
    } else {
        Some(v)
    }
}

} // verus!
