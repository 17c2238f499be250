use rayls_execution::genesis::artifact_bytecode;
use rayls_execution::json_path::{fetch_value_from_json, JsonValue};

fn s(x: &str) -> String {
    x.to_string()
}

fn artifact() -> JsonValue {
    JsonValue::Object(vec![
        (s("abi"), JsonValue::Array(vec![])),
        (
            s("bytecode"),
            JsonValue::Object(vec![(s("object"), JsonValue::Str(s("0x6080")))]),
        ),
        (
            s("deployedBytecode"),
            JsonValue::Object(vec![
                (s("object"), JsonValue::Str(s("0x6001"))),
                (s("linkReferences"), JsonValue::Object(vec![])),
            ]),
        ),
        (s("version"), JsonValue::Number(s("3"))),
    ])
}

#[test]
fn fetches_nested_entry() {
    match fetch_value_from_json(artifact(), Some("deployedBytecode.object")) {
        Ok(JsonValue::Str(x)) => assert_eq!(x, "0x6001"),
        other => panic!("unexpected {other:?}"),
    }
    match fetch_value_from_json(artifact(), Some("bytecode.object")) {
        Ok(JsonValue::Str(x)) => assert_eq!(x, "0x6080"),
        other => panic!("unexpected {other:?}"),
    }
    match fetch_value_from_json(artifact(), Some("version")) {
        Ok(JsonValue::Number(x)) => assert_eq!(x, "3"),
        other => panic!("unexpected {other:?}"),
    }
}

#[test]
fn no_path_gives_whole_document() {
    match fetch_value_from_json(artifact(), None) {
        Ok(JsonValue::Object(members)) => assert_eq!(members.len(), 4),
        other => panic!("unexpected {other:?}"),
    }
}

#[test]
fn missing_key_names_the_key() {
    assert_eq!(
        fetch_value_from_json(artifact(), Some("bytecode.missing")).unwrap_err(),
        "key 'missing' not found"
    );
    assert_eq!(
        fetch_value_from_json(artifact(), Some("nothing.object")).unwrap_err(),
        "key 'nothing' not found"
    );
    // A string has no members.
    assert_eq!(
        fetch_value_from_json(artifact(), Some("bytecode.object.x")).unwrap_err(),
        "key 'x' not found"
    );
    // Empty pieces are keys too.
    assert_eq!(
        fetch_value_from_json(artifact(), Some("bytecode.")).unwrap_err(),
        "key '' not found"
    );
    assert_eq!(fetch_value_from_json(artifact(), Some("")).unwrap_err(), "key '' not found");
}

#[test]
fn nested_paths_compose() {
    let inner = fetch_value_from_json(artifact(), Some("deployedBytecode")).unwrap();
    let stepwise = fetch_value_from_json(inner, Some("object"));
    let at_once = fetch_value_from_json(artifact(), Some("deployedBytecode.object"));
    match (stepwise, at_once) {
        (Ok(JsonValue::Str(a)), Ok(JsonValue::Str(b))) => assert_eq!(a, b),
        other => panic!("unexpected {other:?}"),
    }
    let missing_first = fetch_value_from_json(artifact(), Some("nothing"));
    let missing_whole = fetch_value_from_json(artifact(), Some("nothing.object"));
    assert_eq!(missing_first.unwrap_err(), missing_whole.unwrap_err());
}

#[test]
fn artifact_bytecode_decodes_the_entry() {
    assert_eq!(artifact_bytecode(artifact(), "deployedBytecode.object", "rls"), Ok(vec![0x60, 0x01]));
    assert_eq!(artifact_bytecode(artifact(), "bytecode.object", "rls"), Ok(vec![0x60, 0x80]));
    assert_eq!(
        artifact_bytecode(artifact(), "deployedBytecode.linkReferences", "rls"),
        Err("invalid rls json".to_string())
    );
    assert_eq!(
        artifact_bytecode(artifact(), "deployedBytecode.missing", "proxy"),
        Err("key 'missing' not found".to_string())
    );
    let bad = JsonValue::Object(vec![(s("code"), JsonValue::Str(s("0x6g")))]);
    assert!(artifact_bytecode(bad, "code", "x").unwrap_err().contains("invalid character"));
}
