use cookbook::duration::Duration;
use cookbook::editor::total_time;

#[test]
fn durations_print_as_iso_8601() {
    assert_eq!(Duration::from_mins(90).unwrap().to_text(), "PT1H30M");
    assert_eq!(Duration::from_secs(45).to_text(), "PT45S");
    assert_eq!(Duration::zero().to_text(), "PT0S");
    assert_eq!(Duration::from_parts(1, 500_000_000).unwrap().to_text(), "PT1.5S");
    assert_eq!(Duration::from_secs(-3600).to_text(), "-PT1H");
}

#[test]
fn durations_are_read_from_spans() {
    assert_eq!(Duration::parse("PT1H30M"), Duration::from_mins(90));
    assert_eq!(Duration::parse("P1D"), Some(Duration::from_secs(86_400)));
    assert_eq!(Duration::parse("P1W"), Some(Duration::from_secs(604_800)));
    assert_eq!(Duration::parse("PT0.25S"), Duration::from_parts(0, 250_000_000));
    assert_eq!(Duration::parse("-PT2M"), Duration::from_mins(-2));
    assert_eq!(Duration::parse("P1M"), None);
    assert_eq!(Duration::parse("P1Y"), None);
    assert_eq!(Duration::parse("ninety minutes"), None);
    assert_eq!(Duration::parse(""), None);
}

#[test]
fn printed_durations_are_read_back() {
    for secs in [0i64, 1, 59, 60, 3599, 3600, 86_399, 86_400, 1_000_000, -75] {
        let d = Duration::from_secs(secs);
        assert_eq!(Duration::parse(&d.to_text()), Some(d));
    }
}

#[test]
fn parts_must_be_balanced() {
    assert!(Duration::from_parts(1, -1).is_none());
    assert!(Duration::from_parts(-1, 1).is_none());
    assert!(Duration::from_parts(0, 1_000_000_000).is_none());
    assert!(Duration::from_parts(0, -1_000_000_000).is_none());
    let d = Duration::from_parts(-3, -999_999_999).unwrap();
    assert_eq!(d.secs(), -3);
    assert_eq!(d.subsec_nanos(), -999_999_999);
    assert_eq!(Duration::from_parts(0, -5).unwrap().subsec_nanos(), -5);
}

#[test]
fn minutes_round_toward_zero() {
    assert_eq!(Duration::from_secs(119).as_mins(), 1);
    assert_eq!(Duration::from_secs(-119).as_mins(), -1);
    assert_eq!(Duration::from_secs(120).as_mins(), 2);
    assert_eq!(Duration::from_mins(7).unwrap().as_mins(), 7);
    assert_eq!(Duration::from_mins(i64::MAX), None);
    assert_eq!(Duration::from_mins(i64::MIN / 60 - 1), None);
    assert_eq!(Duration::from_mins(i64::MAX / 60).unwrap().secs(), i64::MAX / 60 * 60);
}

#[test]
fn durations_add_with_carry() {
    let a = Duration::from_parts(1, 600_000_000).unwrap();
    let b = Duration::from_parts(2, 700_000_000).unwrap();
    assert_eq!(a.checked_add(&b), Duration::from_parts(4, 300_000_000));
    let c = Duration::from_parts(-1, -600_000_000).unwrap();
    assert_eq!(a.checked_add(&c), Some(Duration::zero()));
    assert_eq!(b.checked_add(&c), Duration::from_parts(1, 100_000_000));
    assert_eq!(Duration::from_secs(i64::MAX).checked_add(&Duration::from_secs(1)), None);
    assert_eq!(Duration::from_secs(i64::MIN).checked_add(&Duration::from_secs(-1)), None);
    assert_eq!(
        Duration::from_secs(i64::MAX).checked_add(&Duration::from_parts(0, 999_999_999).unwrap()),
        Duration::from_parts(i64::MAX, 999_999_999)
    );
}

#[test]
fn the_total_time_is_prep_and_cook_time() {
    let prep = Duration::from_mins(15);
    let cook = Duration::from_mins(30);
    assert_eq!(total_time(prep, cook), Duration::from_mins(45));
    assert_eq!(total_time(None, cook), cook);
    assert_eq!(total_time(prep, None), prep);
    assert_eq!(total_time(None, None), Some(Duration::zero()));
    assert_eq!(total_time(Some(Duration::from_secs(i64::MAX)), Some(Duration::from_secs(1))), None);
}
