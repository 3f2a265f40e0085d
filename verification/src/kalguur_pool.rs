//! Heroic Tragedy conquered notable pool (Kalguur), in ascending
//! `kalguur_notable` order.
use vstd::prelude::*;

verus! {

/// Spawn weight of every conquered notable in this pool.
pub const KALGUUR_NOTABLE_SPAWN_WEIGHT: u32 = 500;

/// `kalguur_notableN` ids in ascending order (N = 1..=37).
pub const KALGUUR_NOTABLE_IDS: [u32; 37] = [
    1, 2, 3, 4, 5, 6, 7, 8, 9, 10, 11, 12, 13, 14, 15, 16, 17, 18, 19, 20, 21, 22, 23, 24,
    25, 26, 27, 28, 29, 30, 31, 32, 33, 34, 35, 36, 37,
];

/// First and last `kalguur_notable` index in the pool.
pub const KALGUUR_NOTABLE_MIN: u32 = 1;

pub const KALGUUR_NOTABLE_MAX: u32 = 37;

/// Names of the conquered notables, `KALGUUR_NOTABLE_NAMES[N - 1]` for id N.
pub const KALGUUR_NOTABLE_NAMES: [&'static str; 37] = [
    "Scorched Earth",
    "War Tactics",
    "Kalguuran Forged",
    "Born of Middengard",
    "Force of Will",
    "Runic Flows",
    "Siege Mentality",
    "Rune Knight",
    "Fiery Leadership",
    "Druidic Alliance",
    "Steel and Sorcery",
    "Triskelion's Light",
    "Stormtossed Voyager",
    "Wrest Control",
    "Firedancer",
    "Mercenary's Lot",
    "Vorana's Fury",
    "Sensible Precautions",
    "Aim for the Jugular",
    "Survival Plan",
    "War of Attrition",
    "Guerilla Warfare",
    "One for the Road",
    "Targeted Strike",
    "Steel Bastion",
    "Forceful Energies",
    "Winter Forest",
    "Fight as One",
    "Summer Meadows",
    "Druidic Training",
    "Corrupted Vision",
    "Runic Tattoos",
    "Furs and Leather",
    "Sudden Hail",
    "Natural Energies",
    "Oaken Form",
    "Spider's Lesson",
];

/// The name of conquered notable `id`, or `None` outside the pool.
pub fn name_for(id: u32) -> (r: Option<&'static str>)
    ensures
        r == (if KALGUUR_NOTABLE_MIN <= id <= KALGUUR_NOTABLE_MAX {
            Some(KALGUUR_NOTABLE_NAMES@[id - 1])
        } else {
            None
        }),
{
    if id < KALGUUR_NOTABLE_MIN || id > KALGUUR_NOTABLE_MAX {
        return None;
    }
    Some(KALGUUR_NOTABLE_NAMES[(id - 1) as usize])
}

/// Position in the pool of the name `s`, read off its length and leading characters.
spec fn name_position(s: Seq<char>) -> int {
    if s.len() == 14 && s[0] == 'S' && s[1] == 'c' {
        0
    } else if s.len() == 11 && s[0] == 'W' {
        1
    } else if s.len() == 16 && s[0] == 'K' {
        2
    } else if s.len() == 18 && s[0] == 'B' {
        3
    } else if s.len() == 13 && s[0] == 'F' {
        4
    } else if s.len() == 11 && s[0] == 'R' && s[1] == 'u' && s[2] == 'n' && s[3] == 'i' {
        5
    } else if s.len() == 15 && s[0] == 'S' && s[1] == 'i' {
        6
    } else if s.len() == 11 && s[0] == 'R' && s[1] == 'u' && s[2] == 'n' && s[3] == 'e' {
        7
    } else if s.len() == 16 && s[0] == 'F' && s[1] == 'i' {
        8
    } else if s.len() == 16 && s[0] == 'D' && s[1] == 'r' && s[2] == 'u' && s[3] == 'i' && s[4] == 'd' && s[5] == 'i' && s[6] == 'c' && s[7] == ' ' && s[8] == 'A' {
        9
    } else if s.len() == 17 && s[0] == 'S' {
        10
    } else if s.len() == 18 && s[0] == 'T' {
        11
    } else if s.len() == 19 && s[0] == 'S' {
        12
    } else if s.len() == 13 && s[0] == 'W' && s[1] == 'r' {
        13
    } else if s.len() == 10 && s[0] == 'F' {
        14
    } else if s.len() == 15 && s[0] == 'M' {
        15
    } else if s.len() == 13 && s[0] == 'V' {
        16
    } else if s.len() == 20 {
        17
    } else if s.len() == 19 && s[0] == 'A' {
        18
    } else if s.len() == 13 && s[0] == 'S' && s[1] == 'u' {
        19
    } else if s.len() == 16 && s[0] == 'W' {
        20
    } else if s.len() == 16 && s[0] == 'G' {
        21
    } else if s.len() == 16 && s[0] == 'O' {
        22
    } else if s.len() == 15 && s[0] == 'T' {
        23
    } else if s.len() == 13 && s[0] == 'S' && s[1] == 't' {
        24
    } else if s.len() == 17 && s[0] == 'F' {
        25
    } else if s.len() == 13 && s[0] == 'W' && s[1] == 'i' {
        26
    } else if s.len() == 12 {
        27
    } else if s.len() == 14 && s[0] == 'S' && s[1] == 'u' {
        28
    } else if s.len() == 16 && s[0] == 'D' && s[1] == 'r' && s[2] == 'u' && s[3] == 'i' && s[4] == 'd' && s[5] == 'i' && s[6] == 'c' && s[7] == ' ' && s[8] == 'T' {
        29
    } else if s.len() == 16 && s[0] == 'C' {
        30
    } else if s.len() == 13 && s[0] == 'R' {
        31
    } else if s.len() == 16 && s[0] == 'F' && s[1] == 'u' {
        32
    } else if s.len() == 11 && s[0] == 'S' {
        33
    } else if s.len() == 16 && s[0] == 'N' {
        34
    } else if s.len() == 10 && s[0] == 'O' {
        35
    } else if s.len() == 15 && s[0] == 'S' && s[1] == 'p' {
        36
    } else {
        -1
    }
}

/// Each name of the pool sits at the position that `name_position` reads off it.
proof fn lemma_name_positions()
    ensures
        forall|k: int| 0 <= k < 37 ==> name_position(#[trigger] KALGUUR_NOTABLE_NAMES@[k]@) == k,
{
    assert forall|k: int| 0 <= k < 37 implies name_position(
        #[trigger] KALGUUR_NOTABLE_NAMES@[k]@,
    ) == k by {
        if k == 0 {
            reveal_strlit("Scorched Earth");
        } else if k == 1 {
            reveal_strlit("War Tactics");
        } else if k == 2 {
            reveal_strlit("Kalguuran Forged");
        } else if k == 3 {
            reveal_strlit("Born of Middengard");
        } else if k == 4 {
            reveal_strlit("Force of Will");
        } else if k == 5 {
            reveal_strlit("Runic Flows");
        } else if k == 6 {
            reveal_strlit("Siege Mentality");
        } else if k == 7 {
            reveal_strlit("Rune Knight");
        } else if k == 8 {
            reveal_strlit("Fiery Leadership");
        } else if k == 9 {
            reveal_strlit("Druidic Alliance");
        } else if k == 10 {
            reveal_strlit("Steel and Sorcery");
        } else if k == 11 {
            reveal_strlit("Triskelion's Light");
        } else if k == 12 {
            reveal_strlit("Stormtossed Voyager");
        } else if k == 13 {
            reveal_strlit("Wrest Control");
        } else if k == 14 {
            reveal_strlit("Firedancer");
        } else if k == 15 {
            reveal_strlit("Mercenary's Lot");
        } else if k == 16 {
            reveal_strlit("Vorana's Fury");
        } else if k == 17 {
            reveal_strlit("Sensible Precautions");
        } else if k == 18 {
            reveal_strlit("Aim for the Jugular");
        } else if k == 19 {
            reveal_strlit("Survival Plan");
        } else if k == 20 {
            reveal_strlit("War of Attrition");
        } else if k == 21 {
            reveal_strlit("Guerilla Warfare");
        } else if k == 22 {
            reveal_strlit("One for the Road");
        } else if k == 23 {
            reveal_strlit("Targeted Strike");
        } else if k == 24 {
            reveal_strlit("Steel Bastion");
        } else if k == 25 {
            reveal_strlit("Forceful Energies");
        } else if k == 26 {
            reveal_strlit("Winter Forest");
        } else if k == 27 {
            reveal_strlit("Fight as One");
        } else if k == 28 {
            reveal_strlit("Summer Meadows");
        } else if k == 29 {
            reveal_strlit("Druidic Training");
        } else if k == 30 {
            reveal_strlit("Corrupted Vision");
        } else if k == 31 {
            reveal_strlit("Runic Tattoos");
        } else if k == 32 {
            reveal_strlit("Furs and Leather");
        } else if k == 33 {
            reveal_strlit("Sudden Hail");
        } else if k == 34 {
            reveal_strlit("Natural Energies");
        } else if k == 35 {
            reveal_strlit("Oaken Form");
        } else if k == 36 {
            reveal_strlit("Spider's Lesson");
        }
    }
}

/// Distinct ids of the pool have distinct names, so `name_for` names distinct
/// notables for distinct ids.
pub proof fn lemma_notable_names_distinct(a: u32, b: u32)
    requires
        KALGUUR_NOTABLE_MIN <= a <= KALGUUR_NOTABLE_MAX,
        KALGUUR_NOTABLE_MIN <= b <= KALGUUR_NOTABLE_MAX,
        a != b,
    ensures
        KALGUUR_NOTABLE_NAMES@[a - 1] != KALGUUR_NOTABLE_NAMES@[b - 1],
{
    lemma_name_positions();
    assert(name_position(KALGUUR_NOTABLE_NAMES@[a - 1]@) == a - 1);
    assert(name_position(KALGUUR_NOTABLE_NAMES@[b - 1]@) == b - 1);
}

} // verus!
