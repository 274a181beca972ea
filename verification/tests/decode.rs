use disco::activity::{
    ActivityData, ActivityDataTag, Button, DecodeTarget, FieldError, Image, Timestamp,
};
use disco::lua::{
    classify_step, global_name, schedule, watch_order, worker_step, Classified, Strategy,
    WorkerKind, CLASSIFY_DEPTH_LIMIT,
};
use disco::script::{ScriptTable, ScriptValue, ValueKind};
use disco::text::u64_to_string;

fn empty_table() -> ScriptTable {
    ScriptTable { first: None, text: None, url: None, start: None, end: None }
}

fn boxed(v: ScriptValue) -> Option<Box<ScriptValue>> {
    Some(Box::new(v))
}

#[test]
fn image_from_text_is_bare_asset() {
    let v = ScriptValue::Text("icon".to_string());
    let r = Image::from_lua(&v);
    assert_eq!(r, Ok(Image { asset: "icon".to_string(), text: None }));
}

#[test]
fn image_from_table_reads_asset_and_caption() {
    let t = ScriptTable {
        first: boxed(ScriptValue::Text("icon".to_string())),
        text: boxed(ScriptValue::Text("caption".to_string())),
        ..empty_table()
    };
    let r = Image::from_lua(&ScriptValue::Table(t));
    assert_eq!(
        r,
        Ok(Image { asset: "icon".to_string(), text: Some("caption".to_string()) })
    );
}

#[test]
fn image_from_table_without_asset_fails() {
    let r = Image::from_lua(&ScriptValue::Table(empty_table()));
    assert_eq!(
        r,
        Err(FieldError::Conversion { from: ValueKind::Nil, to: DecodeTarget::Image })
    );
}

#[test]
fn image_from_integer_fails() {
    let r = Image::from_lua(&ScriptValue::Integer(3));
    assert_eq!(
        r,
        Err(FieldError::Conversion { from: ValueKind::Integer, to: DecodeTarget::Image })
    );
}

#[test]
fn button_from_text_uses_it_as_label_and_url() {
    let r = Button::from_lua(&ScriptValue::Text("https://example.org".to_string()));
    assert_eq!(
        r,
        Ok(Button { text: "https://example.org".to_string(), url: "https://example.org".to_string() })
    );
}

#[test]
fn button_from_table_reads_label_and_url() {
    let t = ScriptTable {
        first: boxed(ScriptValue::Text("Repo".to_string())),
        url: boxed(ScriptValue::Text("https://example.org".to_string())),
        ..empty_table()
    };
    let r = Button::from_lua(&ScriptValue::Table(t));
    assert_eq!(
        r,
        Ok(Button { text: "Repo".to_string(), url: "https://example.org".to_string() })
    );
}

#[test]
fn button_from_table_without_url_fails() {
    let t = ScriptTable { first: boxed(ScriptValue::Text("Repo".to_string())), ..empty_table() };
    let r = Button::from_lua(&ScriptValue::Table(t));
    assert_eq!(
        r,
        Err(FieldError::Conversion { from: ValueKind::Nil, to: DecodeTarget::Button })
    );
}

#[test]
fn timestamp_from_integer_is_a_start_time() {
    let r = Timestamp::from_lua(&ScriptValue::Integer(1700000000));
    assert_eq!(r, Ok(Timestamp { start: Some(1700000000), end: None }));
}

#[test]
fn timestamp_from_table_reads_both_bounds() {
    let t = ScriptTable {
        start: boxed(ScriptValue::Integer(5)),
        end: boxed(ScriptValue::Integer(9)),
        ..empty_table()
    };
    let r = Timestamp::from_lua(&ScriptValue::Table(t));
    assert_eq!(r, Ok(Timestamp { start: Some(5), end: Some(9) }));
}

#[test]
fn timestamp_from_table_with_text_bound_fails() {
    let t = ScriptTable { start: boxed(ScriptValue::Text("now".to_string())), ..empty_table() };
    let r = Timestamp::from_lua(&ScriptValue::Table(t));
    assert_eq!(
        r,
        Err(FieldError::Conversion { from: ValueKind::Text, to: DecodeTarget::Timestamp })
    );
}

#[test]
fn active_decodes_by_truthiness() {
    let tag = ActivityDataTag::Active;
    assert_eq!(tag.decode(&ScriptValue::Nil), Ok(ActivityData::Active(false)));
    assert_eq!(
        tag.decode(&ScriptValue::Boolean(false)),
        Ok(ActivityData::Active(false))
    );
    assert_eq!(tag.decode(&ScriptValue::Boolean(true)), Ok(ActivityData::Active(true)));
    assert_eq!(tag.decode(&ScriptValue::Integer(5)), Ok(ActivityData::Active(true)));
}

#[test]
fn state_decodes_text_only() {
    let tag = ActivityDataTag::State;
    assert_eq!(
        tag.decode(&ScriptValue::Text("Coding".to_string())),
        Ok(ActivityData::State("Coding".to_string()))
    );
    assert_eq!(
        tag.decode(&ScriptValue::Integer(7)),
        Err(FieldError::Conversion { from: ValueKind::Integer, to: DecodeTarget::Text })
    );
}

#[test]
fn classify_table_with_rate_polls() {
    let t = ScriptTable { first: boxed(ScriptValue::Integer(5)), ..empty_table() };
    let r = classify_step(&ActivityDataTag::Active, &ScriptValue::Table(t), 0);
    assert_eq!(r, Ok(Classified::Resolved(Strategy::Poll(5))));
}

#[test]
fn classify_table_with_negative_rate_falls_back_to_static() {
    let t = ScriptTable { first: boxed(ScriptValue::Integer(-1)), ..empty_table() };
    let r = classify_step(&ActivityDataTag::Active, &ScriptValue::Table(t), 0);
    assert_eq!(
        r,
        Ok(Classified::Resolved(Strategy::Static(ActivityData::Active(true))))
    );
}

#[test]
fn classify_coroutine_listens() {
    let r = classify_step(&ActivityDataTag::State, &ScriptValue::Coroutine, 0);
    assert_eq!(r, Ok(Classified::Resolved(Strategy::Listen)));
}

#[test]
fn classify_function_asks_for_invocation() {
    let r = classify_step(&ActivityDataTag::State, &ScriptValue::Function, 0);
    assert_eq!(r, Ok(Classified::Invoke));
}

#[test]
fn classify_function_past_depth_bound_fails() {
    let r = classify_step(&ActivityDataTag::State, &ScriptValue::Function, CLASSIFY_DEPTH_LIMIT);
    assert_eq!(r, Err(FieldError::RecursionLimit));
}

#[test]
fn classify_text_is_static() {
    let r = classify_step(&ActivityDataTag::State, &ScriptValue::Text("Coding".to_string()), 0);
    assert_eq!(
        r,
        Ok(Classified::Resolved(Strategy::Static(ActivityData::State("Coding".to_string()))))
    );
}

#[test]
fn classify_absent_global_fails_for_text_field() {
    let r = classify_step(&ActivityDataTag::Details, &ScriptValue::Nil, 0);
    assert_eq!(
        r,
        Err(FieldError::Conversion { from: ValueKind::Nil, to: DecodeTarget::Text })
    );
}

#[test]
fn worker_step_emits_decoded_update() {
    let v = ScriptValue::Boolean(true);
    let r = worker_step(&ActivityDataTag::Active, Some(&v));
    assert_eq!(r, Some(ActivityData::Active(true)));
}

#[test]
fn worker_step_stops_on_terminal_outcome() {
    assert_eq!(worker_step(&ActivityDataTag::Active, None), None);
}

#[test]
fn worker_step_stops_on_undecodable_value() {
    let v = ScriptValue::Integer(3);
    assert_eq!(worker_step(&ActivityDataTag::State, Some(&v)), None);
}

#[test]
fn image_from_table_without_caption() {
    let t = ScriptTable { first: boxed(ScriptValue::Text("icon".to_string())), ..empty_table() };
    let r = Image::from_lua(&ScriptValue::Table(t));
    assert_eq!(r, Ok(Image { asset: "icon".to_string(), text: None }));
}

#[test]
fn timestamp_from_empty_table_has_no_bounds() {
    let r = Timestamp::from_lua(&ScriptValue::Table(empty_table()));
    assert_eq!(r, Ok(Timestamp { start: None, end: None }));
}

#[test]
fn classify_table_with_function_slot_decodes_statically() {
    // A table whose first slot is not a number declares no poll rate;
    // it decodes statically, which fails for a button.
    let t = ScriptTable { first: boxed(ScriptValue::Function), ..empty_table() };
    let r = classify_step(&ActivityDataTag::FirstButton, &ScriptValue::Table(t), 0);
    assert_eq!(
        r,
        Err(FieldError::Conversion { from: ValueKind::Function, to: DecodeTarget::Button })
    );
}

#[test]
fn watch_order_covers_all_eight_fields_with_active_last() {
    let order = watch_order();
    assert_eq!(
        order,
        vec![
            ActivityDataTag::State,
            ActivityDataTag::Details,
            ActivityDataTag::Timestamp,
            ActivityDataTag::FirstButton,
            ActivityDataTag::SecondButton,
            ActivityDataTag::LargeImage,
            ActivityDataTag::SmallImage,
            ActivityDataTag::Active,
        ]
    );
}

#[test]
fn global_names_match_the_script_interface() {
    assert_eq!(global_name(&ActivityDataTag::Active), "Active");
    assert_eq!(global_name(&ActivityDataTag::State), "State");
    assert_eq!(global_name(&ActivityDataTag::FirstButton), "Button1");
    assert_eq!(global_name(&ActivityDataTag::SecondButton), "Button2");
    assert_eq!(global_name(&ActivityDataTag::LargeImage), "LargeImage");
    assert_eq!(global_name(&ActivityDataTag::SmallImage), "SmallImage");
}

#[test]
fn schedule_emits_static_fields_once_and_spawns_the_rest() {
    let resolved = vec![
        (
            ActivityDataTag::State,
            Strategy::Static(ActivityData::State("Coding".to_string())),
        ),
        (ActivityDataTag::Details, Strategy::Poll(7)),
        (ActivityDataTag::Active, Strategy::Listen),
        (
            ActivityDataTag::Timestamp,
            Strategy::Static(ActivityData::Timestamp(Timestamp { start: Some(3), end: None })),
        ),
    ];
    let (updates, workers) = schedule(resolved);
    assert_eq!(
        updates,
        vec![
            ActivityData::State("Coding".to_string()),
            ActivityData::Timestamp(Timestamp { start: Some(3), end: None }),
        ]
    );
    assert_eq!(
        workers,
        vec![
            (ActivityDataTag::Details, WorkerKind::Poll(7)),
            (ActivityDataTag::Active, WorkerKind::Listen),
        ]
    );
}

#[test]
fn schedule_of_nothing_starts_nothing() {
    let (updates, workers) = schedule(Vec::new());
    assert!(updates.is_empty());
    assert!(workers.is_empty());
}

#[test]
fn u64_formats_in_decimal() {
    assert_eq!(u64_to_string(0), "0");
    assert_eq!(u64_to_string(42), "42");
    assert_eq!(u64_to_string(10000000000000000), "10000000000000000");
    assert_eq!(u64_to_string(u64::MAX), "18446744073709551615");
}
