use command_governor::domain::fence::SafeToken;
use command_governor::domain::id::Id;
use command_governor::store::error::{CorruptReason, StoreError};
use command_governor::store::safe_metadata::{
    parse_string, write_json_string, SafeMetadata, SafeValue,
};

fn safe(text: &str) -> bool {
    !text.is_empty()
        && text.len() <= 128
        && text.chars().all(|c| c.is_ascii_alphanumeric() || "-_.:".contains(c))
}

fn token(text: &str) -> SafeToken {
    SafeToken::new(text, &safe).expect("test token is safe")
}

fn reason(error: &StoreError) -> CorruptReason {
    match error {
        StoreError::Corrupt(value) => value.reason,
        other => panic!("not a corrupt value: {other:?}"),
    }
}

#[test]
fn a_typed_document_round_trips() {
    let document = SafeMetadata::new()
        .token("run_ref", &token("run-7"))
        .id("artifact_id", Id { value: 9 })
        .integer("incarnation", 3)
        .label("failure_class", "structured_error");
    let json = document.to_json();

    let fields =
        SafeMetadata::parse(&json, &["run_ref", "artifact_id", "incarnation", "failure_class"])
            .expect("the writer's own output parses");
    assert_eq!(fields.token("run_ref", &safe).unwrap(), token("run-7"));
    assert_eq!(fields.u64("incarnation").unwrap(), 3);
    assert_eq!(fields.label("failure_class").unwrap(), "structured_error");
    assert_eq!(fields.id("artifact_id").expect("the identity round-trips"), Id { value: 9 });
}

#[test]
fn fields_outside_the_allowlist_are_discarded() {
    let json = r#"{"run_ref":"run-1","smuggled":"anything"}"#;
    let fields = SafeMetadata::parse(json, &["run_ref"]).unwrap();
    assert_eq!(fields.len(), 1);
    assert!(fields.token("smuggled", &safe).is_err());
}

#[test]
fn an_empty_document_is_valid() {
    let fields = SafeMetadata::parse("{}", &[]).unwrap();
    assert_eq!(fields.len(), 0);
    assert_eq!(SafeMetadata::new().to_json(), "{}");
}

#[test]
fn a_provider_shaped_document_is_refused() {
    for document in [
        r#"{"tool_input":{"command":"rm -rf /"}}"#,
        r#"{"messages":["hello"]}"#,
        r#"{"cost":0.42}"#,
        r#"{"cwd":null}"#,
        r#"{"a":1} trailing"#,
        r#"{"a":1,"a":2}"#,
        "[1,2,3]",
        "not json at all",
    ] {
        assert!(
            SafeMetadata::parse(document, &["tool_input", "messages", "cost", "cwd", "a"]).is_err(),
            "{document} must be refused"
        );
    }
}

#[test]
fn a_missing_or_mistyped_field_fails_closed() {
    let json = SafeMetadata::new().integer("incarnation", 1).to_json();
    let fields = SafeMetadata::parse(&json, &["incarnation", "run_ref"]).unwrap();
    assert!(fields.token("run_ref", &safe).is_err(), "missing field");
    assert!(fields.token("incarnation", &safe).is_err(), "wrong shape");
}

#[test]
fn quotes_and_control_characters_cannot_break_out_of_a_value() {
    let mut document = SafeMetadata::new();
    document.fields.push(("run_ref", SafeValue::Token("a\"b\\c\u{1}d".to_owned())));
    let json = document.to_json();
    let fields = SafeMetadata::parse(&json, &["run_ref"]).unwrap();
    assert_eq!(fields.label("run_ref").unwrap(), "a\"b\\c\u{1}d");
}

#[test]
fn each_fault_of_a_field_has_its_reason() {
    let fields = SafeMetadata::parse(r#"{"n":-1,"t":"no token!","b":true,"big":4294967296}"#, &[
        "n", "t", "b", "big",
    ])
    .unwrap();
    assert_eq!(reason(&fields.u64("n").unwrap_err()), CorruptReason::IntegerOutOfRange);
    assert_eq!(reason(&fields.token("t", &safe).unwrap_err()), CorruptReason::UnsafeToken);
    assert_eq!(reason(&fields.u64("b").unwrap_err()), CorruptReason::MalformedMetadata);
    assert_eq!(reason(&fields.u64("gone").unwrap_err()), CorruptReason::MissingMetadataField);
    assert_eq!(reason(&fields.u32("big").unwrap_err()), CorruptReason::IntegerOutOfRange);
    assert_eq!(reason(&fields.id("t").unwrap_err()), CorruptReason::MalformedIdentity);
    assert_eq!(
        reason(&SafeMetadata::parse("{", &[]).unwrap_err()),
        CorruptReason::MalformedMetadata
    );
}

#[test]
fn a_document_is_rendered_exactly() {
    let document = SafeMetadata::new().integer("n", -12).label("l", "x\ty").token("t", &token("a-b"));
    assert_eq!(document.to_json(), r#"{"n":-12,"l":"x\u0009y","t":"a-b"}"#);
}

#[test]
fn white_space_and_the_bounds_of_integers_are_read() {
    let text = " { \"a\" : 9223372036854775807 ,\n\t\"b\":-9223372036854775808 } ";
    let fields = SafeMetadata::parse(text, &["a", "b"]).unwrap();
    assert_eq!(fields.u64("a").unwrap(), 9_223_372_036_854_775_807);
    assert_eq!(fields.len(), 2);
    assert!(SafeMetadata::parse("{\"a\":9223372036854775808}", &["a"]).is_err());
    assert!(SafeMetadata::parse("{\"a\":1e3}", &["a"]).is_err());
    assert!(SafeMetadata::parse("{\"a\":\"\\n\"}", &["a"]).is_err());
    assert!(SafeMetadata::parse("{\"a\":\"\\ud800\"}", &["a"]).is_err());
    assert!(SafeMetadata::parse("{\"a\":\"\\u+041\"}", &["a"]).is_err());
    assert_eq!(SafeMetadata::parse("{\"a\":\"\\u0041\"}", &["a"]).unwrap().label("a"), Ok("A"));
}

#[test]
fn every_awkward_character_reads_back() {
    let text = "a\"b\\c\u{1}\u{1f}\u{7f}\u{e9}\u{1f600}/";
    let json = SafeMetadata::new().label("l", text).to_json();
    assert!(json.chars().all(|c| c >= ' '));
    assert_eq!(SafeMetadata::parse(&json, &["l"]).unwrap().label("l"), Ok(text));
}

#[test]
fn a_written_string_reads_back_wherever_it_stands() {
    for text in ["", "plain", "a \"quote\"", "back\\slash", "line\nfeed\u{1}", "é\u{1f600}"] {
        let mut out = "{".to_owned();
        write_json_string(&mut out, text);
        let end = out.chars().count();
        out.push_str(":1}");
        assert!(out.chars().all(|c| c >= ' '));
        let chars: Vec<char> = out.chars().collect();
        assert_eq!(parse_string(&chars, 1), Some((text.to_owned(), end)));
        assert_eq!(parse_string(&chars, 0), None);
        assert_eq!(parse_string(&chars, chars.len() + 1), None);
    }
    let mut written = String::new();
    write_json_string(&mut written, "a\"\\\u{1}");
    assert_eq!(written, "\"a\\\"\\\\\\u0001\"");
    assert_eq!(parse_string(&"\"open".chars().collect(), 0), None);
}
