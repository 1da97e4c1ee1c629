use mm::cycle::{StudyCycle, StudyCycleDO};
use mm::names::{
    check_groups, exposes, format_name, interpret, lookup_cycle, semester_regex,
    study_cycle_mapping, NamingError, SemesterNames, StudyCycleMappingDO,
};

fn tokens(b: Option<&str>, m: Option<&str>, d: Option<&str>) -> StudyCycleMappingDO {
    StudyCycleMappingDO {
        bachelor: b.map(str::to_string),
        master: m.map(str::to_string),
        doctorate: d.map(str::to_string),
    }
}

#[test]
fn default_policy_reads_canonical_names() {
    let policy = SemesterNames::new(None, None).unwrap();
    assert!(policy.is_name("b01"));
    assert!(!policy.is_name("x01"));
    assert_eq!(policy.deserialize("m07"), Ok((7, StudyCycle::Master)));
    assert_eq!(policy.deserialize("zz"), Err(NamingError::NoMatch));
    assert_eq!(format_name(StudyCycle::Doctorate, 3), "d03");
    assert_eq!(format_name(StudyCycle::Bachelor, 12), "b12");
}

#[test]
fn reading_back_a_written_name_gives_number_and_cycle() {
    let policy = SemesterNames::new(None, None).unwrap();
    for cycle in [StudyCycle::Bachelor, StudyCycle::Master, StudyCycle::Doctorate] {
        for number in [0u16, 1, 9, 10, 42, 99] {
            let name = format_name(cycle, number);
            assert!(policy.is_name(&name));
            assert_eq!(policy.deserialize(&name), Ok((number, cycle)));
        }
    }
}

#[test]
fn the_default_pattern_takes_a_letter_and_two_digits_and_nothing_else() {
    let policy = SemesterNames::new(None, None).unwrap();
    assert_eq!(format_name(StudyCycle::Bachelor, 100), "b100");
    assert!(!policy.is_name("b100"));
    assert_eq!(policy.deserialize("b100"), Err(NamingError::NoMatch));
    assert_eq!(policy.deserialize("b012"), Err(NamingError::NoMatch));
    assert_eq!(policy.deserialize("b01\n"), Err(NamingError::NoMatch));
}

#[test]
fn a_name_is_a_name_exactly_where_the_pattern_matches() {
    let policy = SemesterNames::new(None, None).unwrap();
    for name in ["b01", "m12", "d99", "b00"] {
        assert!(policy.is_name(name));
        assert!(policy.deserialize(name).is_ok());
    }
    for name in ["", "b", "b1", "B01", "x01", "01b", " b01", "b011", "b01 "] {
        assert!(!policy.is_name(name));
        assert_eq!(policy.deserialize(name), Err(NamingError::NoMatch));
    }
}

#[test]
fn a_custom_pattern_with_custom_tokens() {
    let policy = SemesterNames::new(
        Some(r"^(?P<study_cycle>[A-Z]+)-(?P<semester_number>\d+)$".to_string()),
        Some(tokens(Some("BA"), Some("MA"), None)),
    )
    .unwrap();
    assert!(policy.is_name("BA-3"));
    assert_eq!(policy.deserialize("BA-3"), Ok((3, StudyCycle::Bachelor)));
    assert_eq!(policy.deserialize("MA-12"), Ok((12, StudyCycle::Master)));
    assert_eq!(policy.deserialize("XX-1"), Err(NamingError::UnmappedCycle));
    assert_eq!(policy.deserialize("BA-70000"), Err(NamingError::NotNumeric));
    assert_eq!(policy.deserialize("ba-1"), Err(NamingError::NoMatch));
}

#[test]
fn a_missing_token_is_filled_from_the_defaults() {
    let policy = SemesterNames::new(
        Some(r"^(?P<study_cycle>[a-z]+)(?P<semester_number>\d+)$".to_string()),
        Some(tokens(Some("bsc"), None, None)),
    )
    .unwrap();
    assert_eq!(policy.deserialize("bsc4"), Ok((4, StudyCycle::Bachelor)));
    assert_eq!(policy.deserialize("m4"), Ok((4, StudyCycle::Master)));
    assert_eq!(policy.deserialize("d4"), Ok((4, StudyCycle::Doctorate)));
    assert_eq!(policy.deserialize("b4"), Err(NamingError::UnmappedCycle));
}

#[test]
fn without_a_pattern_the_given_tokens_are_not_taken() {
    let policy = SemesterNames::new(None, Some(tokens(Some("m"), Some("b"), None))).unwrap();
    assert_eq!(policy.deserialize("b01"), Ok((1, StudyCycle::Bachelor)));
}

#[test]
fn a_pattern_must_compile_and_expose_both_groups() {
    let broken = SemesterNames::new(Some("(".to_string()), None);
    assert!(matches!(broken, Err(NamingError::InvalidPattern)));
    let no_number = SemesterNames::new(Some(r"^(?P<study_cycle>[bmd])\d{2}$".to_string()), None);
    assert!(matches!(no_number, Err(NamingError::MissingCapture)));
    let no_cycle = SemesterNames::new(Some(r"^[bmd](?P<semester_number>\d{2})$".to_string()), None);
    assert!(matches!(no_cycle, Err(NamingError::MissingCapture)));
}

#[test]
fn a_group_that_takes_no_part_in_the_match_is_reported() {
    let policy = SemesterNames::new(
        Some(r"^(?P<study_cycle>[bmd])(?:(?P<semester_number>\d+)|x)$".to_string()),
        None,
    )
    .unwrap();
    assert_eq!(policy.deserialize("b7"), Ok((7, StudyCycle::Bachelor)));
    assert_eq!(policy.deserialize("bx"), Err(NamingError::EmptyCapture));
}

#[test]
fn the_first_matching_token_decides() {
    let policy = SemesterNames::new(
        Some(r"^(?P<study_cycle>[a-z])(?P<semester_number>\d+)$".to_string()),
        Some(tokens(Some("a"), Some("a"), Some("a"))),
    )
    .unwrap();
    assert_eq!(policy.deserialize("a1"), Ok((1, StudyCycle::Bachelor)));
}

#[test]
fn validating_a_pattern_gives_the_pattern_back() {
    let groups = vec!["study_cycle", "semester_number"];
    let pattern = r"(?P<semester_number>\d)(?P<study_cycle>.)";
    assert_eq!(semester_regex(pattern, &groups), Ok(pattern.to_string()));
    assert_eq!(semester_regex(pattern, &vec!["other"]), Err(NamingError::MissingCapture));
    assert_eq!(semester_regex("[", &groups), Err(NamingError::InvalidPattern));
    assert_eq!(semester_regex("anything", &vec![]), Ok("anything".to_string()));
}

#[test]
fn judging_group_names() {
    let names = Some(vec![None, Some("a".to_string()), None, Some("b".to_string())]);
    assert_eq!(check_groups(&names, &vec!["a", "b"]), Ok(()));
    assert_eq!(check_groups(&names, &vec!["a", "c"]), Err(NamingError::MissingCapture));
    assert_eq!(check_groups(&None, &vec![]), Err(NamingError::InvalidPattern));
    assert!(exposes(names.as_ref().unwrap(), "b"));
    assert!(!exposes(names.as_ref().unwrap(), ""));
}

#[test]
fn building_the_table_of_tokens() {
    let defaults = tokens(Some("b"), Some("m"), Some("d"));
    let table = study_cycle_mapping(Some(tokens(None, Some("ms"), None)), defaults).unwrap();
    assert_eq!(
        table,
        vec![
            ("b".to_string(), StudyCycle::Bachelor),
            ("ms".to_string(), StudyCycle::Master),
            ("d".to_string(), StudyCycle::Doctorate),
        ]
    );
    let holes = tokens(Some("b"), None, Some("d"));
    assert_eq!(
        study_cycle_mapping(Some(tokens(None, None, None)), holes),
        Err(NamingError::IncompleteMapping)
    );
    let holes = tokens(Some("b"), None, Some("d"));
    assert_eq!(study_cycle_mapping(None, holes), Err(NamingError::IncompleteMapping));
}

#[test]
fn reading_the_captures() {
    let table = vec![
        ("b".to_string(), StudyCycle::Bachelor),
        ("m".to_string(), StudyCycle::Master),
    ];
    let some = |s: &str| Some(s.to_string());
    assert_eq!(interpret(&some("07"), &some("m"), &table), Ok((7, StudyCycle::Master)));
    assert_eq!(interpret(&None, &some("m"), &table), Err(NamingError::EmptyCapture));
    assert_eq!(interpret(&some("7"), &None, &table), Err(NamingError::EmptyCapture));
    assert_eq!(interpret(&some("seven"), &some("m"), &table), Err(NamingError::NotNumeric));
    assert_eq!(interpret(&some("65536"), &some("m"), &table), Err(NamingError::NotNumeric));
    assert_eq!(interpret(&some("65535"), &some("b"), &table), Ok((65535, StudyCycle::Bachelor)));
    assert_eq!(interpret(&some("1"), &some("d"), &table), Err(NamingError::UnmappedCycle));
    assert_eq!(interpret(&some("x"), &some("d"), &table), Err(NamingError::NotNumeric));
    assert_eq!(lookup_cycle(&table, "b"), Some(StudyCycle::Bachelor));
    assert_eq!(lookup_cycle(&table, ""), None);
}

#[test]
fn cycles_and_their_letters() {
    assert_eq!(StudyCycle::Bachelor.abbreviation(), "b");
    assert_eq!(StudyCycle::Master.abbreviation(), "m");
    assert_eq!(StudyCycle::Doctorate.abbreviation(), "d");
    assert_eq!(StudyCycle::from_do(StudyCycleDO::Bachelor), StudyCycle::Bachelor);
    assert_eq!(StudyCycle::from_do(StudyCycleDO::Master), StudyCycle::Master);
    assert_eq!(StudyCycle::from_do(StudyCycleDO::Doctorate), StudyCycle::Doctorate);
    assert_eq!(StudyCycle::Doctorate.label(), "Doctorate");
    assert_eq!(StudyCycleDO::Master.label(), "Master");
}
