use timeless_jewel::{
    name_for, roll_kalguur_notable, stored_seed, PartialInit, TinyMt32, KALGUUR_NOTABLE_NAMES,
};

#[test]
fn stored_seed_sentinel() {
    assert_eq!(stored_seed(u32::MAX), None);
    assert_eq!(stored_seed(0), Some(0));
    assert_eq!(stored_seed(17962), Some(17962));
    assert_eq!(stored_seed(u32::MAX - 1), Some(u32::MAX - 1));
}

#[test]
fn first_roll_matching() {
    let mut partial = PartialInit::new();
    partial.feed_seed(26563);
    assert!(partial.first_roll_matches(17962, 4163930186));
    assert!(!partial.first_roll_matches(17962, 4163930187));
    assert!(!partial.first_roll_matches(17963, 4163930186));
}

#[test]
fn pool_names_are_distinct() {
    for a in 1..=37u32 {
        for b in 1..=37u32 {
            if a != b {
                assert_ne!(name_for(a), name_for(b));
            }
        }
    }
    assert_eq!(KALGUUR_NOTABLE_NAMES.len(), 37);
}

#[test]
fn pick_is_last_hit() {
    for (h, j) in [(4810u32, 17962u32), (26563, 17962), (1, 2), (99, 6790)] {
        let mut rng = TinyMt32::new();
        rng.initialize_two_seeds(h, j);
        rng.generate_range(0, 100);
        let mut replay = rng;
        let mut last_hit = 1u32;
        for k in 1..=37u32 {
            if replay.generate_uint() % (k * 500) < 500 {
                last_hit = k;
            }
        }
        assert_eq!(roll_kalguur_notable(&mut rng), last_hit);
        assert_eq!(rng, replay);
    }
}
