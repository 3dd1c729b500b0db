use local_workflow_agent::api::request_options::{body_key, merge_openai_compatible_options, try_merge_openai_compatible_options};

fn obj(pairs: Vec<(&str, serde_json::Value)>) -> serde_json::Value {
    let mut m = serde_json::Map::new();
    for (k, v) in pairs {
        m.insert(k.to_string(), v);
    }
    serde_json::Value::Object(m)
}

#[test]
fn merge_openai_compatible_maps_reasoning_fields() {
    let mut body = obj(vec![]);
    merge_openai_compatible_options(
        &mut body,
        &obj(vec![
            ("reasoningEffort", serde_json::Value::String("high".into())),
            ("textVerbosity", serde_json::Value::String("low".into())),
            ("store", serde_json::Value::Bool(false)),
        ]),
    );
    assert_eq!(body["reasoning_effort"], serde_json::Value::String("high".into()));
    assert_eq!(body["verbosity"], serde_json::Value::String("low".into()));
    assert_eq!(body["store"], serde_json::Value::Bool(false));
}

#[test]
fn option_keys_and_non_object_options() {
    assert_eq!(body_key("reasoningEffort"), "reasoning_effort");
    assert_eq!(body_key("textVerbosity"), "verbosity");
    assert_eq!(body_key("seed"), "seed");
    let mut body = obj(vec![("model", serde_json::Value::String("m".into()))]);
    merge_openai_compatible_options(&mut body, &serde_json::Value::Null);
    assert_eq!(body, obj(vec![("model", serde_json::Value::String("m".into()))]));
}

#[test]
fn merge_into_null_body_makes_an_object() {
    let mut body = serde_json::Value::Null;
    merge_openai_compatible_options(
        &mut body,
        &obj(vec![("seed", serde_json::Value::from(7u64)), ("textVerbosity", serde_json::Value::String("high".into()))]),
    );
    assert_eq!(
        body,
        obj(vec![("seed", serde_json::Value::from(7u64)), ("verbosity", serde_json::Value::String("high".into()))])
    );
    let mut untouched = serde_json::Value::Null;
    merge_openai_compatible_options(&mut untouched, &obj(vec![]));
    assert_eq!(untouched, serde_json::Value::Null);
}

#[test]
fn merge_overwrites_existing_body_members() {
    let mut body = obj(vec![
        ("model", serde_json::Value::String("m".into())),
        ("verbosity", serde_json::Value::String("medium".into())),
    ]);
    merge_openai_compatible_options(&mut body, &obj(vec![("textVerbosity", serde_json::Value::String("low".into()))]));
    assert_eq!(body["verbosity"], serde_json::Value::String("low".into()));
    assert_eq!(body["model"], serde_json::Value::String("m".into()));
}

#[test]
fn checked_merge_refuses_bodies_that_cannot_take_members() {
    let opts = obj(vec![("seed", serde_json::Value::from(1u64))]);
    let mut body = serde_json::Value::Bool(true);
    assert!(!try_merge_openai_compatible_options(&mut body, &opts));
    assert_eq!(body, serde_json::Value::Bool(true));
    assert!(try_merge_openai_compatible_options(&mut body, &obj(vec![])));
    assert_eq!(body, serde_json::Value::Bool(true));
    let mut body = obj(vec![]);
    assert!(try_merge_openai_compatible_options(&mut body, &opts));
    assert_eq!(body["seed"], serde_json::Value::from(1u64));
}
