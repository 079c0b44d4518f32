use pinktrombone::tract::initial_target_words;
use pinktrombone::voc::{nothing, tongue_attenuation, Mode, Voc};

const N: usize = 44;
const NOSE_LENGTH: usize = 28;
const NOSE_START: usize = 17;
const TIP_START: usize = 32;
const BLADE_START: usize = 12;
const EPIGLOTTIS_START: usize = 6;
const LIP_START: usize = 39;
const CHUNK: usize = 1024;

fn canonical_voc(chunk: usize) -> Voc {
    let words = initial_target_words(N, EPIGLOTTIS_START, BLADE_START, 600, 1100, 1500);
    Voc::new(
        chunk,
        N,
        NOSE_LENGTH,
        NOSE_START,
        TIP_START,
        BLADE_START,
        EPIGLOTTIS_START,
        LIP_START,
        (160.0f64).to_bits(),
        (0.6f64).to_bits(),
        words,
        (0.01f64).to_bits(),
    )
}

#[test]
fn cursor_wraps_at_chunk() {
    let mut voc = canonical_voc(4);
    // The first pull of each block renders; the cursor walks the block and
    // wraps back to zero.
    let expected = [
        (true, 0),
        (false, 1),
        (false, 2),
        (false, 3),
        (true, 0),
        (false, 1),
    ];
    for &(render, slot) in &expected {
        let (r, s) = voc.advance_counter();
        assert_eq!(r, render);
        assert_eq!(s, slot);
        assert!(voc.counter < voc.chunk);
    }
}

#[test]
fn scalar_setters_hold_their_words() {
    let mut voc = canonical_voc(CHUNK);
    assert_eq!(voc.frequency(), (160.0f64).to_bits());
    assert_eq!(voc.tenseness(), (0.6f64).to_bits());
    assert_eq!(voc.velum(), (0.01f64).to_bits());
    voc.set_frequency((400.0f64).to_bits());
    voc.set_tenseness((0.9f64).to_bits());
    voc.set_velum((1.5f64).to_bits());
    assert_eq!(f64::from_bits(voc.frequency()), 400.0);
    assert_eq!(f64::from_bits(voc.tenseness()), 0.9);
    assert_eq!(f64::from_bits(voc.velum()), 1.5);
}

#[test]
fn sizes_report_the_layout() {
    let voc = canonical_voc(CHUNK);
    assert_eq!(voc.tract_size(), N);
    assert_eq!(voc.nose_size(), NOSE_LENGTH);
    assert_eq!(voc.tract_diameters().len(), N);
}

#[test]
fn tongue_shape_writes_exactly_the_blade_to_lip_region() {
    let mut voc = canonical_voc(CHUNK);
    let before = voc.tract_diameters().clone();
    let curve: Vec<u64> = (0..(LIP_START - BLADE_START) as u64)
        .map(|k| 2000 + k)
        .collect();
    voc.tongue_shape(&curve);
    let after = voc.tract_diameters();
    for i in 0..N {
        if (BLADE_START..LIP_START).contains(&i) {
            assert_eq!(after[i], 2000 + (i - BLADE_START) as u64);
        } else {
            assert_eq!(after[i], before[i]);
        }
    }
}

#[test]
fn set_tract_diameters_clamps_to_the_tract() {
    let mut voc = canonical_voc(CHUNK);
    let before = voc.tract_diameters().clone();
    // Writing ten words at cells 40..50 only lands on the four real cells.
    let values: Vec<u64> = (0..10).map(|k| 3000 + k).collect();
    voc.set_tract_diameters(40, 50, &values);
    let after = voc.tract_diameters();
    for i in 0..40 {
        assert_eq!(after[i], before[i]);
    }
    for i in 40..N {
        assert_eq!(after[i], 3000 + (i - 40) as u64);
    }
}

#[test]
fn set_tract_diameters_stops_with_the_values() {
    let mut voc = canonical_voc(CHUNK);
    let before = voc.tract_diameters().clone();
    // A seven-cell throat write, as the demo driver issues it.
    let values = vec![555u64; 7];
    voc.set_tract_diameters(0, 7, &values);
    let after = voc.tract_diameters();
    for i in 0..7 {
        assert_eq!(after[i], 555);
    }
    for i in 7..N {
        assert_eq!(after[i], before[i]);
    }
}

#[test]
fn set_tract_parameters_covers_the_tract_once() {
    let mut voc = canonical_voc(CHUNK);
    let curve: Vec<u64> = (0..(LIP_START - BLADE_START) as u64)
        .map(|k| 4000 + k)
        .collect();
    voc.set_tract_parameters(10, 20, 30, &curve, 40);
    assert_eq!(voc.velum(), 30);
    let after = voc.tract_diameters();
    for i in 0..N {
        let expected = if i < EPIGLOTTIS_START {
            10
        } else if i < BLADE_START {
            20
        } else if i < LIP_START {
            4000 + (i - BLADE_START) as u64
        } else {
            40
        };
        assert_eq!(after[i], expected);
    }
}

#[test]
fn tongue_attenuation_marks_the_region_edges() {
    // Outermost written cells damp by the stronger factor...
    assert_eq!(tongue_attenuation(LIP_START - 1, BLADE_START, LIP_START), (true, false));
    // ...the cells one step in by the weaker one...
    assert_eq!(tongue_attenuation(BLADE_START, BLADE_START, LIP_START), (false, true));
    assert_eq!(tongue_attenuation(LIP_START - 2, BLADE_START, LIP_START), (false, true));
    // ...and interior cells keep the full bump.
    assert_eq!(tongue_attenuation(20, BLADE_START, LIP_START), (false, false));
    // The cell two below the blade is flagged even though the written region
    // never reaches it.
    assert_eq!(tongue_attenuation(BLADE_START - 2, BLADE_START, LIP_START), (true, false));
}

#[test]
fn nothing_changes_nothing() {
    let mut voc = canonical_voc(CHUNK);
    let before_targets = voc.tract_diameters().clone();
    let before_freq = voc.frequency();
    let before_velum = voc.velum();
    nothing(&mut voc, 0);
    nothing(&mut voc, 17);
    assert_eq!(voc.tract_diameters().clone(), before_targets);
    assert_eq!(voc.frequency(), before_freq);
    assert_eq!(voc.velum(), before_velum);
    assert_eq!(voc.counter, 0);
}

#[test]
fn modes_are_distinct() {
    assert!(matches!(Mode::Idle, Mode::Idle));
    assert_ne!(Mode::Idle, Mode::Tongue);
}
