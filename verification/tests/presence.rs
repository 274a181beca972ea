use disco::activity::{ActivityData, Button, Image, Timestamp};
use disco::command::{log_level_for, startup_plan, validate_path, StartupStep, Verbosity};
use disco::presence::{
    connect_failure_plan, resolve_application_id, ConnectPlan, DiscoActivity, Effect, Payload,
    StartupError,
};

fn empty_payload() -> Payload {
    Payload {
        state: None,
        details: None,
        timestamp: None,
        buttons: Vec::new(),
        large_image: None,
        small_image: None,
    }
}

#[test]
fn new_state_is_empty_and_inactive() {
    let a = DiscoActivity::new();
    assert!(!a.active);
    assert_eq!(a.state, None);
    assert_eq!(a.details, None);
    assert_eq!(a.timestamp, None);
    assert_eq!(a.button1, None);
    assert_eq!(a.button2, None);
    assert_eq!(a.large_image, None);
    assert_eq!(a.small_image, None);
}

#[test]
fn process_shows_nothing_while_inactive() {
    let a = DiscoActivity::new();
    assert_eq!(a.process(), None);
}

#[test]
fn last_write_wins_per_field() {
    let mut a = DiscoActivity::new();
    a.apply_update(ActivityData::Active(true));
    a.apply_update(ActivityData::State("A".to_string()));
    let e = a.apply_update(ActivityData::State("B".to_string()));
    match e {
        Effect::Publish(p) => assert_eq!(p.state, Some("B".to_string())),
        other => panic!("expected a publish, got {:?}", other),
    }
    let e2 = a.apply_update(ActivityData::Details("d".to_string()));
    match e2 {
        Effect::Publish(p) => assert_eq!(p.state, Some("B".to_string())),
        other => panic!("expected a publish, got {:?}", other),
    }
}

#[test]
fn deactivation_clears_once_and_suppresses_publishing() {
    let mut a = DiscoActivity::new();
    a.apply_update(ActivityData::Active(true));
    let off = a.apply_update(ActivityData::Active(false));
    assert_eq!(off, Effect::Clear);
    let quiet = a.apply_update(ActivityData::State("hidden".to_string()));
    assert_eq!(quiet, Effect::Silent);
    let quiet2 = a.apply_update(ActivityData::Timestamp(Timestamp {
        start: Some(1),
        end: None,
    }));
    assert_eq!(quiet2, Effect::Silent);
}

#[test]
fn reactivation_republishes_stored_fields() {
    let mut a = DiscoActivity::new();
    a.apply_update(ActivityData::Active(true));
    a.apply_update(ActivityData::State("kept".to_string()));
    a.apply_update(ActivityData::FirstButton(Button {
        text: "b".to_string(),
        url: "https://example.org".to_string(),
    }));
    a.apply_update(ActivityData::Active(false));
    let e = a.apply_update(ActivityData::Active(true));
    match e {
        Effect::Publish(p) => {
            assert_eq!(p.state, Some("kept".to_string()));
            assert_eq!(p.buttons.len(), 1);
            assert_eq!(p.buttons[0].text, "b");
        },
        other => panic!("expected a publish, got {:?}", other),
    }
}

#[test]
fn static_scenario_publishes_exactly_once() {
    // State, Timestamp and Active set statically; Active resolves
    // last, so the one publish happens on its arrival.
    let mut a = DiscoActivity::new();
    let e1 = a.apply_update(ActivityData::State("Coding".to_string()));
    let e2 = a.apply_update(ActivityData::Timestamp(Timestamp {
        start: Some(1700000000),
        end: None,
    }));
    let e3 = a.apply_update(ActivityData::Active(true));
    assert_eq!(e1, Effect::Silent);
    assert_eq!(e2, Effect::Silent);
    let expected = Payload {
        state: Some("Coding".to_string()),
        timestamp: Some(Timestamp { start: Some(1700000000), end: None }),
        ..empty_payload()
    };
    assert_eq!(e3, Effect::Publish(expected));
}

#[test]
fn polled_active_alone_publishes_bare_presence() {
    // An Active field polled from the script, nothing else set: each
    // true sample publishes a payload with every other field absent.
    let mut a = DiscoActivity::new();
    let e = a.apply_update(ActivityData::Active(true));
    assert_eq!(e, Effect::Publish(empty_payload()));
    let e2 = a.apply_update(ActivityData::Active(true));
    assert_eq!(e2, Effect::Publish(empty_payload()));
}

#[test]
fn publish_payload_carries_images() {
    let mut a = DiscoActivity::new();
    a.apply_update(ActivityData::LargeImage(Image {
        asset: "big".to_string(),
        text: Some("cap".to_string()),
    }));
    a.apply_update(ActivityData::SmallImage(Image { asset: "small".to_string(), text: None }));
    let e = a.apply_update(ActivityData::Active(true));
    let expected = Payload {
        large_image: Some(Image { asset: "big".to_string(), text: Some("cap".to_string()) }),
        small_image: Some(Image { asset: "small".to_string(), text: None }),
        ..empty_payload()
    };
    assert_eq!(e, Effect::Publish(expected));
}

#[test]
fn buttons_keep_first_then_second_order() {
    let mut a = DiscoActivity::new();
    a.apply_update(ActivityData::SecondButton(Button {
        text: "two".to_string(),
        url: "https://two.example.org".to_string(),
    }));
    a.apply_update(ActivityData::FirstButton(Button {
        text: "one".to_string(),
        url: "https://one.example.org".to_string(),
    }));
    let e = a.apply_update(ActivityData::Active(true));
    match e {
        Effect::Publish(p) => {
            assert_eq!(p.buttons.len(), 2);
            assert_eq!(p.buttons[0].text, "one");
            assert_eq!(p.buttons[1].text, "two");
        },
        other => panic!("expected a publish, got {:?}", other),
    }
}

#[test]
fn override_id_wins_and_formats_in_decimal() {
    let r = resolve_application_id(Some(123456789), Some("ignored".to_string()));
    assert_eq!(r, Ok("123456789".to_string()));
}

#[test]
fn script_id_is_taken_without_override() {
    let r = resolve_application_id(None, Some("987654321".to_string()));
    assert_eq!(r, Ok("987654321".to_string()));
}

#[test]
fn missing_application_id_is_fatal() {
    let r = resolve_application_id(None, None);
    assert_eq!(r, Err(StartupError::MissingApplicationId));
}

#[test]
fn quiet_levels_map_to_verbosity() {
    assert_eq!(log_level_for(0), Verbosity::Debug);
    assert_eq!(log_level_for(1), Verbosity::Warn);
    assert_eq!(log_level_for(2), Verbosity::Off);
    assert_eq!(log_level_for(200), Verbosity::Off);
}

#[test]
fn startup_follows_flags_and_path_probe() {
    assert_eq!(
        startup_plan(true, false),
        StartupStep::PrintPath { warn_missing: true }
    );
    assert_eq!(
        startup_plan(true, true),
        StartupStep::PrintPath { warn_missing: false }
    );
    assert_eq!(startup_plan(false, false), StartupStep::MissingConfig);
    assert_eq!(startup_plan(false, true), StartupStep::ReadConfig);
}

#[test]
fn connect_failure_gives_up_without_delay() {
    assert_eq!(connect_failure_plan(0), ConnectPlan::GiveUp);
    assert_eq!(connect_failure_plan(30), ConnectPlan::RetryAfter(30));
}

#[test]
fn validate_path_rejects_missing_and_non_file_paths() {
    let missing = std::path::PathBuf::from("/this/path/should/not/exist/disco.lua");
    assert!(!validate_path(&missing));
    let root = std::path::PathBuf::from("/");
    assert!(!validate_path(&root));
}
