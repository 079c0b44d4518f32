use pinktrombone::tract::{initial_shape_class, initial_target_words, rate_region, RateRegion, SegmentClass, Tract};

// Canonical tract layout used throughout: 44 oral cells, 28 nasal cells,
// epiglottis boundary 6, blade 12, velum branch 17, tip 32, lips 39.
const N: usize = 44;
const NOSE_LENGTH: usize = 28;
const NOSE_START: usize = 17;
const TIP_START: usize = 32;
const BLADE_START: usize = 12;
const EPIGLOTTIS_START: usize = 6;
const LIP_START: usize = 39;

fn canonical_tract() -> Tract {
    let words = initial_target_words(N, EPIGLOTTIS_START, BLADE_START, 600, 1100, 1500);
    Tract::new(
        N,
        NOSE_LENGTH,
        NOSE_START,
        TIP_START,
        BLADE_START,
        EPIGLOTTIS_START,
        LIP_START,
        words,
        (0.01f64).to_bits(),
    )
}

#[test]
fn canonical_shape_classes() {
    // (1 + 6) * 44 / 44 - 0.5 = 6.5, so the tracheal section is cells 0..6;
    // 12 * 44 / 44 = 12, so the epiglottal section is cells 6..12.
    for i in 0..6 {
        assert_eq!(
            initial_shape_class(i, N, EPIGLOTTIS_START, BLADE_START),
            SegmentClass::Trachea
        );
    }
    for i in 6..12 {
        assert_eq!(
            initial_shape_class(i, N, EPIGLOTTIS_START, BLADE_START),
            SegmentClass::Epiglottis
        );
    }
    for i in 12..N {
        assert_eq!(
            initial_shape_class(i, N, EPIGLOTTIS_START, BLADE_START),
            SegmentClass::Oral
        );
    }
}

#[test]
fn shape_classes_scale_with_segment_count() {
    // Halving the tract to 22 cells halves the boundaries: the tracheal
    // section ends at (7 * 22 / 44 - 0.5) = 3, the epiglottal one at
    // 12 * 22 / 44 = 6.
    assert_eq!(initial_shape_class(2, 22, 6, 12), SegmentClass::Trachea);
    assert_eq!(initial_shape_class(3, 22, 6, 12), SegmentClass::Epiglottis);
    assert_eq!(initial_shape_class(5, 22, 6, 12), SegmentClass::Epiglottis);
    assert_eq!(initial_shape_class(6, 22, 6, 12), SegmentClass::Oral);
}

#[test]
fn initial_words_follow_classes() {
    let words = initial_target_words(N, EPIGLOTTIS_START, BLADE_START, 600, 1100, 1500);
    assert_eq!(words.len(), N);
    assert_eq!(words[0], 600);
    assert_eq!(words[5], 600);
    assert_eq!(words[6], 1100);
    assert_eq!(words[11], 1100);
    assert_eq!(words[12], 1500);
    assert_eq!(words[43], 1500);
}

#[test]
fn initial_words_carry_sample_bits() {
    // The host stores IEEE sample words; they read back as the diameters the
    // resting profile assigns.
    let words = initial_target_words(
        N,
        EPIGLOTTIS_START,
        BLADE_START,
        (0.6f64).to_bits(),
        (1.1f64).to_bits(),
        (1.5f64).to_bits(),
    );
    assert_eq!(f64::from_bits(words[0]), 0.6);
    assert_eq!(f64::from_bits(words[8]), 1.1);
    assert_eq!(f64::from_bits(words[20]), 1.5);
}

#[test]
fn new_tract_rests_at_its_targets() {
    let t = canonical_tract();
    assert_eq!(t.target_diameter.len(), N);
    assert_eq!(t.rest_diameter.len(), N);
    for i in 0..N {
        assert_eq!(t.target_diameter[i], t.rest_diameter[i]);
    }
    assert_eq!(t.tpool.size(), 0);
    assert!(t.last_obstruction.is_none());
}

#[test]
fn set_lips_writes_only_the_lip_section() {
    let mut t = canonical_tract();
    let before = t.target_diameter.clone();
    t.set_lips(0);
    for i in 0..LIP_START {
        assert_eq!(t.target_diameter[i], before[i]);
    }
    for i in LIP_START..N {
        assert_eq!(t.target_diameter[i], 0);
    }
}

#[test]
fn set_epiglottis_writes_only_its_section() {
    let mut t = canonical_tract();
    let before = t.target_diameter.clone();
    t.set_epiglottis(777);
    for i in 0..N {
        if (EPIGLOTTIS_START..BLADE_START).contains(&i) {
            assert_eq!(t.target_diameter[i], 777);
        } else {
            assert_eq!(t.target_diameter[i], before[i]);
        }
    }
}

#[test]
fn set_trachea_writes_only_its_section() {
    let mut t = canonical_tract();
    let before = t.target_diameter.clone();
    t.set_trachea(888);
    for i in 0..N {
        if i < EPIGLOTTIS_START {
            assert_eq!(t.target_diameter[i], 888);
        } else {
            assert_eq!(t.target_diameter[i], before[i]);
        }
    }
}

#[test]
fn reopened_closure_releases_one_transient() {
    let mut t = canonical_tract();
    // A closure at cell 40 is seen while the velum is closed...
    t.record_obstruction(Some(40), true);
    assert_eq!(t.tpool.size(), 0);
    // ...and the next reshape finds it reopened: one burst at cell 40.
    t.record_obstruction(None, true);
    assert_eq!(t.tpool.size(), 1);
    let valid = t.tpool.get_valid_transients();
    assert_eq!(valid[0].position, 40);
    assert!((LIP_START..N).contains(&valid[0].position));
    // Staying open releases nothing further.
    t.record_obstruction(None, true);
    assert_eq!(t.tpool.size(), 1);
}

#[test]
fn open_velum_suppresses_the_release() {
    let mut t = canonical_tract();
    t.record_obstruction(Some(40), false);
    t.record_obstruction(None, false);
    assert_eq!(t.tpool.size(), 0);
}

#[test]
fn release_waits_for_reopening() {
    let mut t = canonical_tract();
    t.record_obstruction(Some(40), true);
    // The closure persists: no release while a cell stays obstructed.
    t.record_obstruction(Some(40), true);
    assert_eq!(t.tpool.size(), 0);
}

#[test]
fn rate_regions_follow_the_boundaries() {
    assert_eq!(rate_region(0, NOSE_START, TIP_START), RateRegion::Slow);
    assert_eq!(rate_region(NOSE_START - 1, NOSE_START, TIP_START), RateRegion::Slow);
    assert_eq!(rate_region(NOSE_START, NOSE_START, TIP_START), RateRegion::Ramp);
    assert_eq!(rate_region(TIP_START - 1, NOSE_START, TIP_START), RateRegion::Ramp);
    assert_eq!(rate_region(TIP_START, NOSE_START, TIP_START), RateRegion::Full);
    assert_eq!(rate_region(N - 1, NOSE_START, TIP_START), RateRegion::Full);
}
