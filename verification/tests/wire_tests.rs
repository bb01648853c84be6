use nlui::wire::WireField;
use nlui::wire::WireValue;
use nlui::LLMConfig;
use nlui::Target;
use nlui::ToolConfig;

fn sample_target() -> Target {
    Target {
        name: "github".to_string(),
        base_url: "https://api.github.com".to_string(),
        spec_url: Some("https://api.github.com/openapi.json".to_string()),
        auth_type: Some("bearer".to_string()),
        token: Some("tok-abc".to_string()),
        description: None,
    }
}

fn wire_to_json(fields: &[WireField]) -> String {
    let mut map = serde_json::Map::new();
    for f in fields {
        let v = match &f.value {
            WireValue::Null => serde_json::Value::Null,
            WireValue::Str(s) => serde_json::Value::String(s.clone()),
            WireValue::Num(n) => serde_json::Value::from(*n as u64),
            WireValue::StrList(l) => serde_json::Value::from(l.clone()),
        };
        map.insert(f.name.clone(), v);
    }
    serde_json::Value::Object(map).to_string()
}

fn json_to_wire(text: &str) -> Vec<WireField> {
    let v: serde_json::Value = serde_json::from_str(text).expect("echoed text must parse");
    let obj = v.as_object().expect("echoed text must be an object");
    let mut fields = Vec::new();
    for (name, value) in obj {
        let w = match value {
            serde_json::Value::Null => WireValue::Null,
            serde_json::Value::String(s) => WireValue::Str(s.clone()),
            serde_json::Value::Number(n) => WireValue::Num(n.as_u64().unwrap() as usize),
            serde_json::Value::Array(items) => WireValue::StrList(
                items
                    .iter()
                    .map(|i| i.as_str().unwrap().to_string())
                    .collect(),
            ),
            other => panic!("unexpected value in echo: {:?}", other),
        };
        fields.push(WireField {
            name: name.clone(),
            value: w,
        });
    }
    fields
}

#[test]
fn target_round_trips_structurally() {
    let t = sample_target();
    let wire = t.to_wire();
    let back = Target::from_wire(&wire).expect("a serialized target must read back");
    assert_eq!(back, t);
}

#[test]
fn target_round_trips_through_server_echo() {
    let t = sample_target();
    let sent = wire_to_json(&t.to_wire());
    let echoed = json_to_wire(&sent);
    let back = Target::from_wire(&echoed).expect("the echoed shape must read back");
    assert_eq!(back, t);
}

#[test]
fn target_omits_absent_optional_fields() {
    let t = Target {
        name: "bare".to_string(),
        base_url: "http://x".to_string(),
        spec_url: None,
        auth_type: None,
        token: None,
        description: None,
    };
    let text = wire_to_json(&t.to_wire());
    assert_eq!(text, "{\"baseUrl\":\"http://x\",\"name\":\"bare\"}");
    let back = Target::from_wire(&json_to_wire(&text)).unwrap();
    assert_eq!(back, t);
}

#[test]
fn target_missing_required_field_fails() {
    let fields = vec![WireField {
        name: "name".to_string(),
        value: WireValue::Str("x".to_string()),
    }];
    assert!(Target::from_wire(&fields).is_none());
}

#[test]
fn target_field_of_wrong_type_fails() {
    let mut fields = sample_target().to_wire();
    for f in fields.iter_mut() {
        if f.name == "token" {
            f.value = WireValue::Num(7);
        }
    }
    assert!(Target::from_wire(&fields).is_none());
}

#[test]
fn target_ignores_unknown_fields() {
    let mut fields = sample_target().to_wire();
    fields.push(WireField {
        name: "extra".to_string(),
        value: WireValue::Str("ignored".to_string()),
    });
    let back = Target::from_wire(&fields).unwrap();
    assert_eq!(back, sample_target());
}

#[test]
fn toolconfig_wire_shape_and_echo() {
    let c = ToolConfig {
        enabled_sources: Some(vec!["github".to_string(), "jira".to_string()]),
        disabled_tools: None,
    };
    let text = wire_to_json(&c.to_wire());
    assert_eq!(text, "{\"enabled_sources\":[\"github\",\"jira\"]}");
}

#[test]
fn llmconfig_wire_shape_and_echo() {
    let c = LLMConfig {
        api_base: "http://localhost:11434".to_string(),
        api_key: "tok-abc".to_string(),
        model: "llama3".to_string(),
    };
    let text = wire_to_json(&c.to_wire());
    let v: serde_json::Value = serde_json::from_str(&text).unwrap();
    assert_eq!(v.get("api_base").unwrap().as_str().unwrap(), "http://localhost:11434");
    assert_eq!(v.get("model").unwrap().as_str().unwrap(), "llama3");
}

#[test]
fn identical_bodies_decode_identically() {
    let fields = sample_target().to_wire();
    let first = Target::from_wire(&fields);
    let second = Target::from_wire(&fields);
    assert_eq!(first, second);
}
