use liquidizers::modem::ModulationScheme;

#[test]
fn scheme_codes_of_the_group_starts() {
    assert_eq!(ModulationScheme::Unknown.to_raw(), 0);
    assert_eq!(ModulationScheme::Psk2.to_raw(), 1);
    assert_eq!(ModulationScheme::Psk256.to_raw(), 8);
    assert_eq!(ModulationScheme::Dpsk2.to_raw(), 9);
    assert_eq!(ModulationScheme::Dpsk256.to_raw(), 16);
    assert_eq!(ModulationScheme::Ask2.to_raw(), 17);
    assert_eq!(ModulationScheme::Ask256.to_raw(), 24);
    assert_eq!(ModulationScheme::Qam4.to_raw(), 25);
    assert_eq!(ModulationScheme::Qam256.to_raw(), 31);
    assert_eq!(ModulationScheme::Apsk4.to_raw(), 32);
    assert_eq!(ModulationScheme::Apsk256.to_raw(), 38);
    assert_eq!(ModulationScheme::Bpsk.to_raw(), 39);
    assert_eq!(ModulationScheme::Qpsk.to_raw(), 40);
    assert_eq!(ModulationScheme::Ook.to_raw(), 41);
    assert_eq!(ModulationScheme::Sqam32.to_raw(), 42);
    assert_eq!(ModulationScheme::Sqam128.to_raw(), 43);
    assert_eq!(ModulationScheme::V29.to_raw(), 44);
    assert_eq!(ModulationScheme::Arb16opt.to_raw(), 45);
    assert_eq!(ModulationScheme::Arb128opt.to_raw(), 48);
    assert_eq!(ModulationScheme::Arb64vt.to_raw(), 50);
    assert_eq!(ModulationScheme::Pi4Dqpsk.to_raw(), 51);
    assert_eq!(ModulationScheme::Arb.to_raw(), 52);
}

#[test]
fn scheme_from_raw_names_each_code() {
    assert_eq!(ModulationScheme::from_raw(0), ModulationScheme::Unknown);
    assert_eq!(ModulationScheme::from_raw(4), ModulationScheme::Psk16);
    assert_eq!(ModulationScheme::from_raw(12), ModulationScheme::Dpsk16);
    assert_eq!(ModulationScheme::from_raw(20), ModulationScheme::Ask16);
    assert_eq!(ModulationScheme::from_raw(27), ModulationScheme::Qam16);
    assert_eq!(ModulationScheme::from_raw(34), ModulationScheme::Apsk16);
    assert_eq!(ModulationScheme::from_raw(40), ModulationScheme::Qpsk);
    assert_eq!(ModulationScheme::from_raw(48), ModulationScheme::Arb128opt);
    assert_eq!(ModulationScheme::from_raw(50), ModulationScheme::Arb64vt);
    assert_eq!(ModulationScheme::from_raw(51), ModulationScheme::Pi4Dqpsk);
    assert_eq!(ModulationScheme::from_raw(52), ModulationScheme::Arb);
}

#[test]
fn scheme_code_round_trips_through_its_scheme() {
    let mut seen = 0;
    for raw in 0..=52 {
        if ModulationScheme::recognizes(raw) {
            assert_eq!(ModulationScheme::from_raw(raw).to_raw(), raw as u32);
            seen += 1;
        }
    }
    assert_eq!(seen, 52);
}

#[test]
fn scheme_round_trips_through_its_code() {
    for raw in 0..=52 {
        if ModulationScheme::recognizes(raw) {
            let scheme = ModulationScheme::from_raw(raw);
            let back = ModulationScheme::from_raw(scheme.to_raw() as i32);
            assert_eq!(back, scheme);
        }
    }
}

#[test]
fn scheme_codes_are_distinct() {
    let mut schemes = Vec::new();
    for raw in 0..=52 {
        if ModulationScheme::recognizes(raw) {
            schemes.push(ModulationScheme::from_raw(raw));
        }
    }
    for (i, a) in schemes.iter().enumerate() {
        for (j, b) in schemes.iter().enumerate() {
            assert_eq!(a == b, i == j);
            assert_eq!(a.to_raw() == b.to_raw(), i == j);
        }
    }
}

#[test]
fn scheme_recognizes_only_the_table() {
    assert!(!ModulationScheme::recognizes(-1));
    assert!(ModulationScheme::recognizes(0));
    assert!(ModulationScheme::recognizes(48));
    assert!(!ModulationScheme::recognizes(49));
    assert!(ModulationScheme::recognizes(50));
    assert!(ModulationScheme::recognizes(52));
    assert!(!ModulationScheme::recognizes(53));
    assert!(!ModulationScheme::recognizes(i32::MAX));
    assert!(!ModulationScheme::recognizes(i32::MIN));
}

#[test]
fn scheme_converts_into_its_code() {
    assert_eq!(u32::from(ModulationScheme::Qpsk), 40);
    assert_eq!(u32::from(ModulationScheme::Unknown), 0);
    assert_eq!(u32::from(ModulationScheme::Arb), 52);
    let raw: u32 = ModulationScheme::Qam64.into();
    assert_eq!(raw, 29);
}

#[test]
fn scheme_is_copied_and_compared_by_variant() {
    let scheme = ModulationScheme::V29;
    let copy = scheme;
    assert_eq!(scheme, copy);
    assert_ne!(scheme, ModulationScheme::Ook);
    assert_eq!(format!("{:?}", scheme), "V29");
}
