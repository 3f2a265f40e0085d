use timeless_jewel::{
    jewel_seed_matches_cases, name_for, reset_rng, roll_kalguur_notable,
    roll_notable_replacement, seed_17962_cases, JewelType, NotableReplacementCase, PartialInit,
    TinyMt32, ALTERNATE_TREE_VERSION_INDEX, JEWEL_SEED_17962, JEWEL_SEED_SEARCH_SPACE,
    JEWEL_TYPE, KALGUUR_NOTABLE_IDS, KALGUUR_NOTABLE_MAX, KALGUUR_NOTABLE_MIN,
};

fn seeded(passive_skills_hash: u32, jewel_seed: u32) -> TinyMt32 {
    let mut rng = TinyMt32::new();
    rng.initialize_two_seeds(passive_skills_hash, jewel_seed);
    rng
}

#[test]
fn unseeded_generator_outputs() {
    let mut rng = TinyMt32::new();
    assert_eq!(rng, TinyMt32::default());
    assert_eq!(rng.generate_uint(), 1428520269);
    assert_eq!(rng.generate_uint(), 1661331425);
}

#[test]
fn temper_of_initial_state() {
    let rng = TinyMt32::new();
    assert_eq!(rng.temper(), 0x4070_0CAF);
}

#[test]
fn next_state_changes_temper() {
    let mut rng = TinyMt32::new();
    rng.generate_next_state();
    assert_eq!(rng.temper(), 1428520269);
}

#[test]
fn initialize_with_various_seed_lists() {
    let mut rng = TinyMt32::new();
    rng.initialize(&[]);
    assert_eq!(rng.generate_uint(), 572474492);
    rng.initialize(&[7]);
    assert_eq!(rng.generate_uint(), 955239651);
    rng.initialize(&[1, 2, 3]);
    assert_eq!(rng.generate_uint(), 1140128408);
}

#[test]
fn initialize_ignores_previous_state() {
    let mut a = TinyMt32::new();
    a.generate_uint();
    a.generate_uint();
    a.initialize(&[26563, 17962]);
    let mut b = TinyMt32::new();
    b.initialize(&[26563, 17962]);
    assert_eq!(a, b);
}

#[test]
fn two_seed_init_equals_general_init() {
    for (h, j) in [(26563u32, 17962u32), (0, 0), (u32::MAX, 1), (4810, 6790)] {
        let mut general = TinyMt32::new();
        general.initialize(&[h, j]);
        assert_eq!(seeded(h, j), general);
    }
}

#[test]
fn partial_init_rng_equals_two_seed_init() {
    for (h, j) in [(26563u32, 17962u32), (0, 0), (u32::MAX, u32::MAX), (4810, 6790)] {
        let mut partial = PartialInit::new();
        partial.feed_seed(h);
        assert_eq!(partial.rng_for_jewel_seed(j), seeded(h, j));
        let mut rng = TinyMt32::new();
        reset_rng(&mut rng, h, j);
        assert_eq!(rng, seeded(h, j));
    }
}

#[test]
fn partial_init_finish_leaves_warm_up_out() {
    let mut partial = PartialInit::new();
    partial.feed_seed(26563);
    let mut out = [0u32; 4];
    partial.finish(17962, &mut out);
    let mut rng = partial.rng_for_jewel_seed(17962);
    // A second finish from the same prefix gives the same words.
    let mut again = [1u32; 4];
    partial.finish(17962, &mut again);
    assert_eq!(out, again);
    assert_eq!(rng.generate_uint(), 4163930186);
}

#[test]
fn partial_init_with_more_leading_seeds() {
    let mut partial = PartialInit::new();
    partial.feed_seed(1);
    partial.feed_seed(2);
    let mut general = TinyMt32::new();
    general.initialize(&[1, 2, 3]);
    assert_eq!(partial.rng_for_jewel_seed(3), general);
}

#[test]
fn seeded_outputs() {
    let mut rng = seeded(26563, 17962);
    assert_eq!(rng.generate_uint(), 4163930186);
    assert_eq!(rng.generate_single(100), 78);
    assert_eq!(rng.generate_range(0, 100), 27);
}

#[test]
fn generate_single_is_uint_modulo() {
    let mut a = seeded(26563, 17962);
    let mut b = seeded(26563, 17962);
    assert_eq!(a.generate_single(1), 0);
    assert_eq!(b.generate_uint() % 1, 0);
    assert_eq!(a, b);
    let mut c = seeded(26563, 17962);
    assert_eq!(c.generate_single(u32::MAX), 4163930186);
}

#[test]
fn generate_range_values() {
    let mut rng = seeded(5, 6);
    let got: Vec<u32> = (0..5).map(|_| rng.generate_range(0, 100)).collect();
    assert_eq!(got, vec![42, 7, 34, 48, 2]);
}

#[test]
fn generate_range_signed_bounds() {
    let mut rng = seeded(5, 6);
    let got: Vec<u32> = (0..5).map(|_| rng.generate_range((-10i32) as u32, 10)).collect();
    assert_eq!(got, vec![5, 4294967294, 4294967294, 4294967288, 4294967290]);
    for v in got {
        let s = v as i32;
        assert!((-10..=10).contains(&s));
    }
}

#[test]
fn generate_range_single_value() {
    let mut rng = seeded(5, 6);
    assert_eq!(rng.generate_range(1000, 1000), 1000);
}

#[test]
fn roll_kalguur_notable_value_and_steps() {
    let mut rng = seeded(4810, 17962);
    rng.generate_range(0, 100);
    assert_eq!(roll_kalguur_notable(&mut rng), 2);
    assert_eq!(rng.generate_uint(), 591180032);
}

#[test]
fn notable_replacement_values() {
    let hashes = [4810u32, 26563, 43633, 41394, 36623, 35564, 2335, 16466, 8831];
    let expected = [2u32, 33, 8, 30, 24, 21, 14, 37, 30];
    for (h, e) in hashes.iter().zip(expected.iter()) {
        assert_eq!(roll_notable_replacement(*h, JEWEL_SEED_17962), *e);
    }
}

#[test]
fn notable_replacement_stays_in_pool() {
    for h in 0..200u32 {
        for j in [0u32, 100, 8000, u32::MAX] {
            let r = roll_notable_replacement(h, j);
            assert!((KALGUUR_NOTABLE_MIN..=KALGUUR_NOTABLE_MAX).contains(&r));
            assert!(name_for(r).is_some());
        }
    }
}

#[test]
fn seed_matching() {
    assert!(jewel_seed_matches_cases(17962, &[]));
    let fixture = seed_17962_cases();
    assert!(!jewel_seed_matches_cases(JEWEL_SEED_17962, &fixture));
    let observed = [
        NotableReplacementCase {
            old_name: "Sanguine Tolerance",
            old_hash: 4810,
            new_name: "War Tactics",
            new_kalguur_notable: 2,
        },
        NotableReplacementCase {
            old_name: "Bone Chains",
            old_hash: 26563,
            new_name: "Runic Tattoos",
            new_kalguur_notable: 33,
        },
    ];
    assert!(jewel_seed_matches_cases(17962, &observed));
    assert!(!jewel_seed_matches_cases(17963, &observed));
    let mut wrong = observed;
    wrong[1].new_kalguur_notable = 34;
    assert!(!jewel_seed_matches_cases(17962, &wrong));
}

#[test]
fn names_of_the_pool() {
    assert_eq!(name_for(0), None);
    assert_eq!(name_for(1), Some("Scorched Earth"));
    assert_eq!(name_for(9), Some("Fiery Leadership"));
    assert_eq!(name_for(37), Some("Spider's Lesson"));
    assert_eq!(name_for(38), None);
    assert_eq!(name_for(u32::MAX), None);
    assert_eq!(KALGUUR_NOTABLE_IDS[0], KALGUUR_NOTABLE_MIN);
    assert_eq!(KALGUUR_NOTABLE_IDS[36], KALGUUR_NOTABLE_MAX);
}

#[test]
fn jewel_type_numbers() {
    assert_eq!(JEWEL_TYPE, JewelType::HeroicTragedy);
    assert_eq!(JEWEL_TYPE.id(), 6);
    assert_eq!(ALTERNATE_TREE_VERSION_INDEX, JEWEL_TYPE.id());
    assert_eq!(JEWEL_SEED_SEARCH_SPACE, u32::MAX as u64 + 1);
}
