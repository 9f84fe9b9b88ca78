use jellysetup::template::TemplateVars;

#[test]
fn test_simple_replacement() {
    let mut vars = TemplateVars::new();
    vars.set("PI_IP", "192.168.1.100");
    vars.set("API_KEY", "test-key-123");

    let template = "http://{{PI_IP}}:8096/api?key={{API_KEY}}";
    assert_eq!(
        vars.replace(template),
        "http://192.168.1.100:8096/api?key=test-key-123"
    );
}

#[test]
fn test_unknown_var() {
    let vars = TemplateVars::new();
    let template = "{{UNKNOWN}}";
    assert_eq!(vars.replace(template), "");
}

#[test]
fn later_value_replaces_earlier() {
    let mut vars = TemplateVars::new();
    vars.set("HOST", "a");
    vars.set("HOST", "b");
    assert_eq!(vars.replace("x{{HOST}}y"), "xby");
    assert_eq!(vars.get("HOST"), Some("b"));
    assert_eq!(vars.get("OTHER"), None);
}

#[test]
fn lowercase_braces_are_not_placeholders() {
    let mut vars = TemplateVars::new();
    vars.set("host", "a");
    assert_eq!(vars.replace("{{host}} {{}}"), "{{host}} {{}}");
}

use jellysetup::json::JsonValue;

fn s(t: &str) -> String {
    t.to_string()
}

#[test]
fn test_json_replacement() {
    let mut vars = TemplateVars::new();
    vars.set("PI_IP", "192.168.1.100");

    let json = JsonValue::Object(vec![
        (s("hostname"), JsonValue::Str(s("{{PI_IP}}"))),
        (s("port"), JsonValue::Number(s("8096"))),
        (s("nested"), JsonValue::Object(vec![(s("url"), JsonValue::Str(s("http://{{PI_IP}}")))])),
    ]);

    let result = vars.replace_in_json(&json);
    assert_eq!(result.get("hostname").and_then(|v| v.as_str()), Some("192.168.1.100"));
    assert_eq!(
        result.get("nested").and_then(|n| n.get("url")).and_then(|v| v.as_str()),
        Some("http://192.168.1.100")
    );
}

#[test]
fn json_replacement_keeps_shape() {
    let mut vars = TemplateVars::new();
    vars.set("K", "v");
    let json = JsonValue::Array(vec![
        JsonValue::Null,
        JsonValue::Bool(true),
        JsonValue::Number(s("1.5")),
        JsonValue::Str(s("{{K}}{{MISSING}}")),
        JsonValue::Object(vec![(s("{{K}}"), JsonValue::Str(s("x")))]),
    ]);
    match vars.replace_in_json(&json) {
        JsonValue::Array(items) => {
            assert_eq!(items.len(), 5);
            assert!(matches!(items[0], JsonValue::Null));
            assert!(matches!(items[1], JsonValue::Bool(true)));
            assert!(matches!(&items[2], JsonValue::Number(n) if n == "1.5"));
            assert_eq!(items[3].as_str(), Some("v"));
            assert_eq!(items[4].get("{{K}}").and_then(|v| v.as_str()), Some("x"));
        }
        _ => panic!("shape changed"),
    }
}
