use heliocron::decimal::i64_to_string;
use heliocron::errors::{ConfigErrorKind, HeliocronError, RuntimeErrorKind};
use heliocron::wait::{
    begin_wait, conclude_wait, resolve_target, schedule_wait, verify, SleepOutcome,
};

fn io_sleep_error(msg: &str) -> tokio_walltime::Error {
    tokio_walltime::Error::Io(std::io::Error::new(std::io::ErrorKind::Other, msg.to_string()))
}

#[test]
fn past_target_is_refused_before_any_sleep() {
    let r = schedule_wait(99, 100);
    assert!(matches!(r, Err(RuntimeErrorKind::PastEvent)));
    let b = begin_wait(Some(99), 100);
    assert!(matches!(
        b,
        Err(HeliocronError::Runtime(RuntimeErrorKind::PastEvent))
    ));
}

#[test]
fn scheduled_duration_is_exact() {
    assert!(matches!(schedule_wait(110, 100), Ok(10)));
    assert!(matches!(schedule_wait(100, 100), Ok(0)));
    assert!(matches!(schedule_wait(-5, -30), Ok(25)));
    assert!(matches!(schedule_wait(i64::MAX, i64::MIN), Ok(u64::MAX)));
}

#[test]
fn verify_accepts_drift_within_tolerance() {
    assert!(verify(100, 100, 1).is_ok());
    assert!(verify(100, 101, 1).is_ok());
    assert!(verify(100, 99, 1).is_ok());
    assert!(verify(100, 103, 3).is_ok());
}

#[test]
fn verify_reports_exact_signed_drift() {
    assert!(matches!(
        verify(100, 102, 1),
        Err(RuntimeErrorKind::EventMissed(2))
    ));
    assert!(matches!(
        verify(100, 97, 1),
        Err(RuntimeErrorKind::EventMissed(-3))
    ));
    assert!(matches!(
        verify(0, i64::MAX, 0),
        Err(RuntimeErrorKind::EventMissed(i64::MAX))
    ));
}

#[test]
fn rendering_distinguishes_drift_sign() {
    let late = HeliocronError::Runtime(RuntimeErrorKind::EventMissed(5)).render();
    let early = HeliocronError::Runtime(RuntimeErrorKind::EventMissed(-5)).render();
    assert_ne!(late, early);
    assert_eq!(late, "Runtime error: Event missed by 5s");
    assert_eq!(early, "Runtime error: Event missed by -5s");
    assert!(late.contains("5"));
    assert!(early.contains("-5"));
}

#[test]
fn rendering_is_deterministic() {
    let a = HeliocronError::Runtime(RuntimeErrorKind::EventMissed(42)).render();
    let b = HeliocronError::Runtime(RuntimeErrorKind::EventMissed(42)).render();
    assert_eq!(a, b);
}

#[test]
fn sleep_error_short_circuits_the_wait() {
    let outcome = SleepOutcome::from_backend_failure(&io_sleep_error("boom"));
    let r = conclude_wait(100, outcome, 1);
    match r {
        Err(HeliocronError::Runtime(RuntimeErrorKind::SleepError(cause))) => {
            assert_eq!(cause, "boom");
        }
        _ => panic!("a backend failure must surface as SleepError"),
    }
    let msg = conclude_wait(100, SleepOutcome::Failed("boom".to_string()), 1)
        .unwrap_err()
        .render();
    assert_eq!(msg, "Runtime error: boom");
}

#[test]
fn scenario_wake_on_target_succeeds() {
    let now = 1000;
    let target = now + 10;
    let duration = begin_wait(Some(target), now).unwrap();
    assert_eq!(duration, 10);
    assert!(conclude_wait(target, SleepOutcome::Woke(now + 10), 1).is_ok());
}

#[test]
fn scenario_wake_three_seconds_late_is_missed() {
    let now = 1000;
    let target = now + 10;
    let duration = begin_wait(Some(target), now).unwrap();
    assert_eq!(duration, 10);
    let r = conclude_wait(target, SleepOutcome::Woke(now + 13), 1);
    assert!(matches!(
        r,
        Err(HeliocronError::Runtime(RuntimeErrorKind::EventMissed(3)))
    ));
}

#[test]
fn scenario_target_one_second_ago_is_past() {
    let now = 1000;
    let b = begin_wait(Some(now - 1), now);
    assert!(matches!(
        b,
        Err(HeliocronError::Runtime(RuntimeErrorKind::PastEvent))
    ));
}

#[test]
fn scenario_non_occurring_event_stops_the_run() {
    assert!(matches!(
        resolve_target(None),
        Err(RuntimeErrorKind::NonOccurringEvent)
    ));
    assert!(matches!(
        begin_wait(None, 1000),
        Err(HeliocronError::Runtime(RuntimeErrorKind::NonOccurringEvent))
    ));
}

#[test]
fn altitude_failure_names_the_accepted_range() {
    let msg = ConfigErrorKind::ParseAltitude.as_str();
    assert!(msg.contains("<= 90.0 and >= -90.0"));
    let rendered = HeliocronError::Config(ConfigErrorKind::ParseAltitude).render();
    assert_eq!(
        rendered,
        "Config error: Error parsing altitude. Must be a number which is <= 90.0 and >= -90.0."
    );
}

#[test]
fn config_descriptions_are_fixed() {
    assert_eq!(
        ConfigErrorKind::InvalidTomlFile.as_str(),
        "Error parsing TOML file. Ensure that it is of the correct format."
    );
    assert_eq!(
        ConfigErrorKind::ParseDate.as_str(),
        "Error parsing date. Ensure the date and timezone formats are correct."
    );
    assert_eq!(
        ConfigErrorKind::ParseOffset.as_str(),
        "Error parsing offset. Expected a string in the format HH:MM:SS or HH:MM."
    );
    assert_eq!(ConfigErrorKind::InvalidEvent.as_str(), "Error parsing event.");
    assert_eq!(
        ConfigErrorKind::InvalidCoordinates("latitude out of range").as_str(),
        "latitude out of range"
    );
}

#[test]
fn coordinate_failure_renders_its_reason() {
    let e = HeliocronError::Config(ConfigErrorKind::InvalidCoordinates("latitude out of range"));
    assert_eq!(
        e.render(),
        "Config error: Invalid coordinates - latitude out of range"
    );
}

#[test]
fn runtime_descriptions_are_fixed() {
    assert_eq!(
        HeliocronError::Runtime(RuntimeErrorKind::NonOccurringEvent).render(),
        "Runtime error: The chosen event does not occur on this day."
    );
    assert_eq!(
        HeliocronError::Runtime(RuntimeErrorKind::PastEvent).render(),
        "Runtime error: The chosen event occurred in the past; cannot wait a negative amount of time."
    );
}

#[test]
fn tier_prefix_distinguishes_the_variant_tiers() {
    // A sleep-error cause may spell another variant's message, so whole
    // messages can collide — but the tier prefix always tells the tier.
    let cause = "The chosen event does not occur on this day.".to_string();
    let sleep = HeliocronError::Runtime(RuntimeErrorKind::SleepError(cause)).render();
    let non_occurring = HeliocronError::Runtime(RuntimeErrorKind::NonOccurringEvent).render();
    assert_eq!(sleep, non_occurring);
    assert!(sleep.starts_with("Runtime error: "));
    let config = HeliocronError::Config(ConfigErrorKind::InvalidEvent).render();
    assert!(config.starts_with("Config error: "));
    assert!(!config.starts_with("Runtime error: "));
    assert!(!non_occurring.starts_with("Config error: "));
}

#[test]
fn decimal_rendering_is_exact() {
    assert_eq!(i64_to_string(0), "0");
    assert_eq!(i64_to_string(7), "7");
    assert_eq!(i64_to_string(42), "42");
    assert_eq!(i64_to_string(-5), "-5");
    assert_eq!(i64_to_string(i64::MAX), "9223372036854775807");
    assert_eq!(i64_to_string(i64::MIN), "-9223372036854775808");
}

#[test]
fn chrono_parse_failure_becomes_a_config_error() {
    let err = chrono::NaiveDate::parse_from_str("not a date", "%Y-%m-%d").unwrap_err();
    let e = HeliocronError::from(err);
    assert!(matches!(
        e,
        HeliocronError::Config(ConfigErrorKind::ParseDate)
    ));
    assert_eq!(
        e.render(),
        "Config error: Error parsing date. Ensure the date and timezone formats are correct."
    );
}

#[test]
fn walltime_failure_becomes_a_runtime_error() {
    let e = HeliocronError::from(io_sleep_error("clock went backwards"));
    match &e {
        HeliocronError::Runtime(RuntimeErrorKind::SleepError(cause)) => {
            assert_eq!(cause, "clock went backwards");
        }
        _ => panic!("a backend failure must become Runtime(SleepError)"),
    }
    assert_eq!(e.render(), "Runtime error: clock went backwards");
}
