use liquidizers::agc::{flag_from_raw, AgcSquelchType};

const MODES: [AgcSquelchType; 8] = [
    AgcSquelchType::AgcSquelchUnknown,
    AgcSquelchType::AgcSquelchEnabled,
    AgcSquelchType::AgcSquelchRise,
    AgcSquelchType::AgcSquelchSignalHi,
    AgcSquelchType::AgcSquelchFall,
    AgcSquelchType::AgcSquelchSignalLo,
    AgcSquelchType::AgcSquelchTimeout,
    AgcSquelchType::AgcSquelchDisabled,
];

#[test]
fn squelch_codes_are_the_native_ones() {
    assert_eq!(AgcSquelchType::AgcSquelchUnknown.to_raw(), 0);
    assert_eq!(AgcSquelchType::AgcSquelchEnabled.to_raw(), 1);
    assert_eq!(AgcSquelchType::AgcSquelchRise.to_raw(), 2);
    assert_eq!(AgcSquelchType::AgcSquelchSignalHi.to_raw(), 3);
    assert_eq!(AgcSquelchType::AgcSquelchFall.to_raw(), 4);
    assert_eq!(AgcSquelchType::AgcSquelchSignalLo.to_raw(), 5);
    assert_eq!(AgcSquelchType::AgcSquelchTimeout.to_raw(), 6);
    assert_eq!(AgcSquelchType::AgcSquelchDisabled.to_raw(), 7);
}

#[test]
fn squelch_from_raw_names_each_code() {
    assert_eq!(AgcSquelchType::from_raw(0), AgcSquelchType::AgcSquelchUnknown);
    assert_eq!(AgcSquelchType::from_raw(2), AgcSquelchType::AgcSquelchRise);
    assert_eq!(AgcSquelchType::from_raw(4), AgcSquelchType::AgcSquelchFall);
    assert_eq!(AgcSquelchType::from_raw(7), AgcSquelchType::AgcSquelchDisabled);
}

#[test]
fn squelch_round_trips_both_ways() {
    for mode in MODES {
        let raw = mode.to_raw();
        assert!(AgcSquelchType::recognizes(raw as i32));
        assert_eq!(AgcSquelchType::from_raw(raw as i32), mode);
    }
    for raw in 0..8 {
        assert_eq!(AgcSquelchType::from_raw(raw).to_raw(), raw as u32);
    }
}

#[test]
fn squelch_codes_are_distinct() {
    for (i, a) in MODES.iter().enumerate() {
        for (j, b) in MODES.iter().enumerate() {
            assert_eq!(a.to_raw() == b.to_raw(), i == j);
        }
    }
}

#[test]
fn squelch_recognizes_only_the_table() {
    assert!(!AgcSquelchType::recognizes(-1));
    assert!(AgcSquelchType::recognizes(0));
    assert!(AgcSquelchType::recognizes(7));
    assert!(!AgcSquelchType::recognizes(8));
    assert!(!AgcSquelchType::recognizes(i32::MAX));
    assert!(!AgcSquelchType::recognizes(i32::MIN));
}

#[test]
fn squelch_default_is_unknown() {
    assert_eq!(AgcSquelchType::default(), AgcSquelchType::AgcSquelchUnknown);
}

#[test]
fn squelch_is_displayed_by_its_name() {
    assert_eq!(AgcSquelchType::AgcSquelchUnknown.to_string(), "AgcSquelchUnknown");
    assert_eq!(AgcSquelchType::AgcSquelchEnabled.to_string(), "AgcSquelchEnabled");
    assert_eq!(AgcSquelchType::AgcSquelchRise.to_string(), "AgcSquelchRise");
    assert_eq!(AgcSquelchType::AgcSquelchSignalHi.to_string(), "AgcSquelchSignalHi");
    assert_eq!(AgcSquelchType::AgcSquelchFall.to_string(), "AgcSquelchFall");
    assert_eq!(AgcSquelchType::AgcSquelchSignalLo.to_string(), "AgcSquelchSignalLo");
    assert_eq!(AgcSquelchType::AgcSquelchTimeout.to_string(), "AgcSquelchTimeout");
    assert_eq!(AgcSquelchType::AgcSquelchDisabled.to_string(), "AgcSquelchDisabled");
}

#[test]
fn squelch_name_matches_debug_output() {
    for mode in MODES {
        assert_eq!(mode.name(), format!("{:?}", mode));
        assert_eq!(mode.to_string(), mode.name());
    }
}

#[test]
fn squelch_clone_is_equal() {
    let mode = AgcSquelchType::AgcSquelchTimeout;
    assert_eq!(mode.clone(), mode);
    assert_ne!(mode, AgcSquelchType::AgcSquelchFall);
}

#[test]
fn flag_zero_and_one_are_answers() {
    assert_eq!(flag_from_raw(0), Some(false));
    assert_eq!(flag_from_raw(1), Some(true));
}

#[test]
fn flag_other_numbers_are_no_answer() {
    assert_eq!(flag_from_raw(2), None);
    assert_eq!(flag_from_raw(-1), None);
    assert_eq!(flag_from_raw(i32::MAX), None);
    assert_eq!(flag_from_raw(i32::MIN), None);
}
