use web_pty::json::{JsonNumber, JsonValue};
use web_pty::session::{
    forwarded_environment, is_forwarded_variable, output_text, resize_request, route_message, ActionError, Incoming,
    Reply, TerminalSize,
};

fn uint(n: u64) -> JsonValue {
    JsonValue::Number(JsonNumber::PosInt(n))
}

fn object(members: Vec<(&str, JsonValue)>) -> JsonValue {
    JsonValue::Object(members.into_iter().map(|(k, v)| (k.to_string(), v)).collect())
}

fn resize(cols: JsonValue, rows: JsonValue) -> JsonValue {
    object(vec![("resize", object(vec![("cols", cols), ("rows", rows)]))])
}

#[test]
fn text_that_parses_is_an_action() {
    match route_message(Incoming::Text("{\"resize\":{\"cols\":80,\"rows\":24}}".to_string())) {
        Reply::Action(value) => assert_eq!(resize_request(&value), Ok(TerminalSize { rows: 24, cols: 80 })),
        _ => panic!("expected an action"),
    }
}

#[test]
fn parsed_action_keeps_numbers_apart() {
    match route_message(Incoming::Text("{\"resize\":{\"cols\":-1,\"rows\":1.5}}".to_string())) {
        Reply::Action(value) => assert_eq!(resize_request(&value), Err(ActionError::ColsNotUnsigned)),
        _ => panic!("expected an action"),
    }
    match route_message(Incoming::Text("{\"resize\":{\"cols\":3,\"rows\":1.5}}".to_string())) {
        Reply::Action(value) => assert_eq!(resize_request(&value), Err(ActionError::RowsNotUnsigned)),
        _ => panic!("expected an action"),
    }
}

#[test]
fn any_json_text_is_an_action() {
    for text in ["42", "null", "[1,2]", "\"ls\"", " {} "] {
        match route_message(Incoming::Text(text.to_string())) {
            Reply::Action(_) => {}
            _ => panic!("expected an action for {text}"),
        }
    }
    match route_message(Incoming::Text("[true]".to_string())) {
        Reply::Action(JsonValue::Array(items)) => assert!(matches!(items[..], [JsonValue::Bool(true)])),
        _ => panic!("expected an array action"),
    }
}

#[test]
fn text_that_does_not_parse_is_a_command() {
    for text in ["ls\r", "", "{", "echo {}", "resize"] {
        match route_message(Incoming::Text(text.to_string())) {
            Reply::Command(command) => assert_eq!(command, text),
            _ => panic!("expected a command for {text:?}"),
        }
    }
}

#[test]
fn ping_is_answered_with_its_payload() {
    match route_message(Incoming::Ping(vec![1, 2, 3])) {
        Reply::Pong(p) => assert_eq!(p, vec![1, 2, 3]),
        _ => panic!("expected a pong"),
    }
}

#[test]
fn binary_is_echoed() {
    match route_message(Incoming::Binary(vec![9, 8])) {
        Reply::Binary(b) => assert_eq!(b, vec![9, 8]),
        _ => panic!("expected a binary echo"),
    }
}

#[test]
fn other_messages_are_ignored() {
    for msg in [Incoming::Continuation, Incoming::Pong, Incoming::Close, Incoming::Nop, Incoming::ProtocolError] {
        assert!(matches!(route_message(msg), Reply::Nothing));
    }
}

#[test]
fn resize_request_reads_rows_and_cols() {
    assert_eq!(resize_request(&resize(uint(80), uint(24))), Ok(TerminalSize { rows: 24, cols: 80 }));
    let reordered = object(vec![("resize", object(vec![("rows", uint(50)), ("cols", uint(132))]))]);
    assert_eq!(resize_request(&reordered), Ok(TerminalSize { rows: 50, cols: 132 }));
    assert_eq!(resize_request(&resize(uint(65535), uint(0))), Ok(TerminalSize { rows: 0, cols: 65535 }));
}

#[test]
fn resize_request_errors() {
    assert_eq!(resize_request(&uint(3)), Err(ActionError::NotAnObject));
    assert_eq!(resize_request(&JsonValue::Array(vec![])), Err(ActionError::NotAnObject));
    assert_eq!(resize_request(&object(vec![("other", uint(1))])), Err(ActionError::MissingResize));
    assert_eq!(resize_request(&object(vec![("resize", uint(1))])), Err(ActionError::MissingCols));
    let no_rows = object(vec![("resize", object(vec![("cols", uint(80))]))]);
    assert_eq!(resize_request(&no_rows), Err(ActionError::MissingRows));
    let neg = JsonValue::Number(JsonNumber::NegInt(-1));
    assert_eq!(resize_request(&resize(neg, uint(1))), Err(ActionError::ColsNotUnsigned));
    let float = JsonValue::Number(JsonNumber::Float);
    assert_eq!(resize_request(&resize(uint(1), float)), Err(ActionError::RowsNotUnsigned));
    let text = JsonValue::String("80".to_string());
    assert_eq!(resize_request(&resize(text, uint(1))), Err(ActionError::ColsNotUnsigned));
    assert_eq!(resize_request(&resize(uint(1), uint(65536))), Err(ActionError::RowsOutOfRange));
    assert_eq!(resize_request(&resize(uint(65536), uint(1))), Err(ActionError::ColsOutOfRange));
    assert_eq!(resize_request(&resize(uint(70000), uint(70000))), Err(ActionError::RowsOutOfRange));
}

#[test]
fn resize_errors_check_cols_before_rows() {
    let missing_both = object(vec![("resize", object(vec![]))]);
    assert_eq!(resize_request(&missing_both), Err(ActionError::MissingCols));
    let bad_cols_no_rows = object(vec![("resize", object(vec![("cols", JsonValue::Null)]))]);
    assert_eq!(resize_request(&bad_cols_no_rows), Err(ActionError::ColsNotUnsigned));
}

#[test]
fn action_error_messages() {
    assert_eq!(ActionError::MissingResize.message(), "get resize error");
    assert_eq!(ActionError::MissingCols.message(), "get cols fail");
    assert_eq!(ActionError::ColsNotUnsigned.message(), "cols type err");
    assert_eq!(ActionError::MissingRows.message(), "get rows fail ");
    assert_eq!(ActionError::RowsNotUnsigned.message(), "rows type err");
    assert_eq!(ActionError::NotAnObject.message(), "called `Option::unwrap()` on a `None` value");
    let out_of_range = "called `Result::unwrap()` on an `Err` value: TryFromIntError(())";
    assert_eq!(ActionError::RowsOutOfRange.message(), out_of_range);
    assert_eq!(ActionError::ColsOutOfRange.message(), out_of_range);
}

#[test]
fn initial_size_is_100_by_200() {
    assert_eq!(TerminalSize::initial(), TerminalSize { rows: 100, cols: 200 });
}

#[test]
fn forwarded_variable_names() {
    for name in ["TERM", "TZ", "LANG", "PATH"] {
        assert!(is_forwarded_variable(&name.to_string()));
    }
    for name in ["HOME", "term", "PATH2", "", "LANGUAGE", "SHELL"] {
        assert!(!is_forwarded_variable(&name.to_string()));
    }
}

#[test]
fn forwarded_environment_keeps_only_inherited_variables_in_order() {
    let vars: Vec<(String, String)> = vec![
        ("HOME".to_string(), "/root".to_string()),
        ("PATH".to_string(), "/bin".to_string()),
        ("SECRET".to_string(), "x".to_string()),
        ("TERM".to_string(), "xterm".to_string()),
        ("LANG".to_string(), "C".to_string()),
        ("TZ".to_string(), "UTC".to_string()),
    ];
    let kept = forwarded_environment(&vars);
    assert_eq!(
        kept,
        vec![
            ("PATH".to_string(), "/bin".to_string()),
            ("TERM".to_string(), "xterm".to_string()),
            ("LANG".to_string(), "C".to_string()),
            ("TZ".to_string(), "UTC".to_string()),
        ]
    );
    assert_eq!(forwarded_environment(&kept), kept);
    assert_eq!(forwarded_environment(&vec![]), vec![]);
}

#[test]
fn output_text_decodes_utf8() {
    assert_eq!(output_text(b"hello\r\n".to_vec()), Some("hello\r\n".to_string()));
    assert_eq!(output_text("h\u{e9}".as_bytes().to_vec()), Some("h\u{e9}".to_string()));
    assert_eq!(output_text(vec![0xff, 0xfe]), None);
    assert_eq!(output_text(vec![0xc3]), None);
}
