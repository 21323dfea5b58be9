use lingo::codegen::{frame_payload, CodeGenerator, LFCProperties, PropValue, Property};
use lingo::descriptor::App;

#[test]
fn no_compile_is_forced() {
    let props = vec![
        Property { key: "no-compile".to_string(), value: PropValue::Flag(false) },
        Property { key: "fast".to_string(), value: PropValue::Flag(true) },
    ];
    let p = LFCProperties::new("a.lf".to_string(), "out".to_string(), props);
    assert_eq!(p.properties.len(), 2);
    assert_eq!(p.properties[0].key, "fast");
    assert_eq!(p.properties[1].key, "no-compile");
    assert!(matches!(p.properties[1].value, PropValue::Flag(true)));
}

#[test]
fn payload_json() {
    let props = vec![Property { key: "logging".to_string(), value: PropValue::Text("debug".to_string()) }];
    let p = LFCProperties::new("src/Main.lf".to_string(), "/o".to_string(), props);
    assert_eq!(
        p.to_json(),
        "{\"src\":\"src/Main.lf\",\"out\":\"/o\",\"properties\":{\"logging\":\"debug\",\"no-compile\":true}}"
    );
}

#[test]
fn payload_escapes_strings() {
    let p = LFCProperties::new("a\"b.lf".to_string(), "o".to_string(), vec![]);
    let j = p.to_json();
    assert_eq!(j, "{\"src\":\"a\\\"b.lf\",\"out\":\"o\",\"properties\":{\"no-compile\":true}}");
    let v: serde_json::Value = serde_json::from_str(&j).unwrap();
    assert_eq!(v["src"], "a\"b.lf");
}

#[test]
fn frame_from_parts() {
    let m = vec![("\"k\"".to_string(), "false".to_string()), ("\"j\"".to_string(), "1".to_string())];
    assert_eq!(
        frame_payload("\"s\"", "\"o\"", &m),
        "{\"src\":\"s\",\"out\":\"o\",\"properties\":{\"k\":false,\"j\":1}}"
    );
    assert_eq!(frame_payload("\"s\"", "\"o\"", &vec![]), "{\"src\":\"s\",\"out\":\"o\",\"properties\":{}}");
}

#[test]
fn generator_command_line() {
    let app = App::new("foo".to_string(), "/r".to_string(), "/r/out".to_string(), "/r/src/Foo.lf".to_string());
    let g = CodeGenerator::for_app(&app, "/bin/lfc".to_string());
    let inv = g.generate_code(&app);
    assert_eq!(inv.program, "/bin/lfc");
    assert_eq!(inv.cwd, "/r");
    assert_eq!(
        inv.args,
        vec!["--json={\"src\":\"/r/src/Foo.lf\",\"out\":\"/r/out\",\"properties\":{\"no-compile\":true}}"]
    );
}

#[test]
fn payload_escapes_control_characters() {
    let p = LFCProperties::new("a\nb\u{1}\\.lf".to_string(), "o".to_string(), vec![]);
    let j = p.to_json();
    assert_eq!(j, "{\"src\":\"a\\nb\\u0001\\\\.lf\",\"out\":\"o\",\"properties\":{\"no-compile\":true}}");
    let v: serde_json::Value = serde_json::from_str(&j).unwrap();
    assert_eq!(v["src"], "a\nb\u{1}\\.lf");
}

#[test]
fn payload_numbers_and_null() {
    let props = vec![
        Property { key: "workers".to_string(), value: PropValue::Int(-42) },
        Property { key: "timeout".to_string(), value: PropValue::Null },
        Property { key: "big".to_string(), value: PropValue::Int(i64::MIN) },
    ];
    let p = LFCProperties::new("s".to_string(), "o".to_string(), props);
    assert_eq!(
        p.to_json(),
        "{\"src\":\"s\",\"out\":\"o\",\"properties\":{\"workers\":-42,\"timeout\":null,\"big\":-9223372036854775808,\"no-compile\":true}}"
    );
}
