use jupyter_commands::{Command, DetailLevel, EncodeError, HistoryAccessType, WireMessage};
use serde_json::Value;

fn encode(c: Command) -> WireMessage<u32> {
    let h: Result<Vec<u8>, ()> = Ok(b"HDR".to_vec());
    c.into_wire(h, 7u32).expect("encoding succeeds")
}

fn content(c: Command) -> Value {
    let w = encode(c);
    serde_json::from_slice(&w.content).expect("content is JSON")
}

fn all_commands() -> Vec<Command> {
    vec![
        Command::KernelInfo,
        Command::Execute {
            code: "1+1".to_string(),
            silent: false,
            store_history: true,
            user_expressions: Vec::new(),
            allow_stdin: false,
            stop_on_error: true,
        },
        Command::Inspect { code: "x".to_string(), cursor_pos: 1, detail_level: DetailLevel::Zero },
        Command::Complete { code: "pri".to_string(), cursor_pos: 3 },
        Command::History {
            output: true,
            raw: false,
            hist_access_type: HistoryAccessType::Tail { n: 5 },
            unique: false,
        },
        Command::IsComplete { code: "for".to_string() },
        Command::Shutdown { restart: true },
    ]
}

#[test]
fn message_type_for_every_variant() {
    let expected = [
        "kernel_info_request",
        "execute_request",
        "inspect_request",
        "complete_request",
        "history_request",
        "is_complete_request",
        "shutdown_request",
    ];
    let cmds = all_commands();
    assert_eq!(cmds.len(), expected.len());
    for (c, e) in cmds.iter().zip(expected.iter()) {
        assert_eq!(c.message_type(), *e);
    }
}

#[test]
fn parent_header_and_metadata_are_empty_objects() {
    for c in all_commands() {
        let w = encode(c);
        assert_eq!(w.parent_header, b"{}".to_vec());
        assert_eq!(w.metadata, b"{}".to_vec());
        assert_eq!(w.header, b"HDR".to_vec());
        assert_eq!(w.auth, 7u32);
    }
}

#[test]
fn header_failure_is_reported() {
    let h: Result<Vec<u8>, &str> = Err("no clock");
    let r = Command::Shutdown { restart: false }.into_wire(h, ());
    assert!(matches!(r, Err(EncodeError::HeaderEncoding)));
    let h: Result<Vec<u8>, &str> = Err("no clock");
    let r = Command::IsComplete { code: "x".to_string() }.into_wire(h, ());
    assert!(matches!(r, Err(EncodeError::HeaderEncoding)));
}

#[test]
fn execute_round_trip() {
    let v = content(Command::Execute {
        code: "print(\"hi\")\n".to_string(),
        silent: true,
        store_history: false,
        user_expressions: vec![
            ("a".to_string(), "1+1".to_string()),
            ("b\"q".to_string(), "x\\y".to_string()),
        ],
        allow_stdin: true,
        stop_on_error: false,
    });
    let o = v.as_object().unwrap();
    assert_eq!(o.len(), 6);
    assert_eq!(o["code"], Value::String("print(\"hi\")\n".to_string()));
    assert_eq!(o["silent"], Value::Bool(true));
    assert_eq!(o["store_history"], Value::Bool(false));
    assert_eq!(o["allow_stdin"], Value::Bool(true));
    assert_eq!(o["stop_on_error"], Value::Bool(false));
    let ue = o["user_expressions"].as_object().unwrap();
    assert_eq!(ue.len(), 2);
    assert_eq!(ue["a"], Value::String("1+1".to_string()));
    assert_eq!(ue["b\"q"], Value::String("x\\y".to_string()));
}

#[test]
fn execute_content_text_is_untagged_in_field_order() {
    let w = encode(Command::Execute {
        code: "a".to_string(),
        silent: false,
        store_history: true,
        user_expressions: Vec::new(),
        allow_stdin: false,
        stop_on_error: true,
    });
    assert_eq!(
        String::from_utf8(w.content).unwrap(),
        "{\"code\":\"a\",\"silent\":false,\"store_history\":true,\"user_expressions\":{},\"allow_stdin\":false,\"stop_on_error\":true}"
    );
}

#[test]
fn inspect_round_trip() {
    let v = content(Command::Inspect {
        code: "df.he".to_string(),
        cursor_pos: u64::MAX,
        detail_level: DetailLevel::One,
    });
    let o = v.as_object().unwrap();
    assert_eq!(o.len(), 3);
    assert_eq!(o["code"], Value::String("df.he".to_string()));
    assert_eq!(o["cursor_pos"].as_u64(), Some(u64::MAX));
    assert_eq!(o["detail_level"].as_i64(), Some(1));
}

#[test]
fn complete_round_trip() {
    let v = content(Command::Complete { code: "impo".to_string(), cursor_pos: 4 });
    let o = v.as_object().unwrap();
    assert_eq!(o.len(), 2);
    assert_eq!(o["code"], Value::String("impo".to_string()));
    assert_eq!(o["cursor_pos"].as_u64(), Some(4));
}

#[test]
fn is_complete_round_trip() {
    let v = content(Command::IsComplete { code: "tab\there é".to_string() });
    let o = v.as_object().unwrap();
    assert_eq!(o.len(), 1);
    assert_eq!(o["code"], Value::String("tab\there é".to_string()));
}

#[test]
fn shutdown_round_trip() {
    let w = encode(Command::Shutdown { restart: true });
    assert_eq!(w.content, b"{\"restart\":true}".to_vec());
    let v = content(Command::Shutdown { restart: false });
    assert_eq!(v["restart"], Value::Bool(false));
}

#[test]
fn history_tail_selectors() {
    let v = content(Command::History {
        output: true,
        raw: false,
        hist_access_type: HistoryAccessType::Tail { n: 5 },
        unique: true,
    });
    let o = v.as_object().unwrap();
    assert_eq!(o.len(), 9);
    assert_eq!(o["n"].as_u64(), Some(5));
    assert!(o["session"].is_null());
    assert!(o["start"].is_null());
    assert!(o["stop"].is_null());
    assert!(o["pattern"].is_null());
    assert_eq!(o["hist_access_type"], Value::String("tail".to_string()));
    assert_eq!(o["output"], Value::Bool(true));
    assert_eq!(o["raw"], Value::Bool(false));
    assert_eq!(o["unique"], Value::Bool(true));
}

#[test]
fn history_range_selectors() {
    let v = content(Command::History {
        output: false,
        raw: true,
        hist_access_type: HistoryAccessType::Range { session: 3, start: 0, stop: 10 },
        unique: false,
    });
    let o = v.as_object().unwrap();
    assert_eq!(o.len(), 9);
    assert_eq!(o["session"].as_i64(), Some(3));
    assert_eq!(o["start"].as_u64(), Some(0));
    assert_eq!(o["stop"].as_u64(), Some(10));
    assert!(o["n"].is_null());
    assert!(o["pattern"].is_null());
    assert_eq!(o["hist_access_type"], Value::String("tail".to_string()));
}

#[test]
fn history_range_negative_session() {
    let v = content(Command::History {
        output: false,
        raw: false,
        hist_access_type: HistoryAccessType::Range { session: i64::MIN, start: 1, stop: 2 },
        unique: false,
    });
    assert_eq!(v["session"].as_i64(), Some(i64::MIN));
    let v = content(Command::History {
        output: false,
        raw: false,
        hist_access_type: HistoryAccessType::Range { session: -1, start: 1, stop: 2 },
        unique: false,
    });
    assert_eq!(v["session"].as_i64(), Some(-1));
}

#[test]
fn history_search_selectors() {
    let v = content(Command::History {
        output: true,
        raw: true,
        hist_access_type: HistoryAccessType::Search { pattern: "foo".to_string() },
        unique: true,
    });
    let o = v.as_object().unwrap();
    assert_eq!(o.len(), 9);
    assert_eq!(o["pattern"], Value::String("foo".to_string()));
    assert!(o["session"].is_null());
    assert!(o["start"].is_null());
    assert!(o["stop"].is_null());
    assert!(o["n"].is_null());
    assert_eq!(o["hist_access_type"], Value::String("tail".to_string()));
}

#[test]
fn history_content_text_keys_ascending() {
    let w = encode(Command::History {
        output: true,
        raw: false,
        hist_access_type: HistoryAccessType::Tail { n: 5 },
        unique: false,
    });
    assert_eq!(
        String::from_utf8(w.content).unwrap(),
        "{\"hist_access_type\":\"tail\",\"n\":5,\"output\":true,\"pattern\":null,\"raw\":false,\"session\":null,\"start\":null,\"stop\":null,\"unique\":false}"
    );
}

#[test]
fn kernel_info_content_is_empty_object() {
    let w = encode(Command::KernelInfo);
    assert_eq!(w.content, b"{}".to_vec());
    let v = content(Command::KernelInfo);
    assert!(v.as_object().unwrap().is_empty());
}

#[test]
fn detail_level_is_an_integer() {
    assert_eq!(DetailLevel::Zero.serialize(), 0);
    assert_eq!(DetailLevel::One.serialize(), 1);
    let v = content(Command::Inspect { code: String::new(), cursor_pos: 0, detail_level: DetailLevel::Zero });
    assert!(v["detail_level"].is_i64());
    assert_eq!(v["detail_level"].as_i64(), Some(0));
    assert_eq!(v["code"], Value::String(String::new()));
}

#[test]
fn quoting_escapes_special_characters() {
    let w = encode(Command::IsComplete { code: "a\"b\\c\n".to_string() });
    assert_eq!(String::from_utf8(w.content).unwrap(), "{\"code\":\"a\\\"b\\\\c\\n\"}");
}

#[test]
fn repeated_encoding_gives_equal_frames() {
    let a = encode(Command::Complete { code: "x.".to_string(), cursor_pos: 2 });
    let b = encode(Command::Complete { code: "x.".to_string(), cursor_pos: 2 });
    assert_eq!(a.content, b.content);
    assert_eq!(a.header, b.header);
}

#[test]
fn control_characters_use_unicode_escapes() {
    let w = encode(Command::IsComplete { code: "\u{1}\u{1f}\u{8}\u{c}\r\t/".to_string() });
    assert_eq!(
        String::from_utf8(w.content).unwrap(),
        "{\"code\":\"\\u0001\\u001f\\b\\f\\r\\t/\"}"
    );
}

#[test]
fn repeated_expression_name_is_not_well_formed() {
    let dup = Command::Execute {
        code: String::new(),
        silent: false,
        store_history: false,
        user_expressions: vec![
            ("a".to_string(), "1".to_string()),
            ("b".to_string(), "2".to_string()),
            ("a".to_string(), "3".to_string()),
        ],
        allow_stdin: false,
        stop_on_error: false,
    };
    assert!(!dup.is_well_formed());
    let ok = Command::Execute {
        code: String::new(),
        silent: false,
        store_history: false,
        user_expressions: vec![("a".to_string(), "1".to_string()), ("b".to_string(), "1".to_string())],
        allow_stdin: false,
        stop_on_error: false,
    };
    assert!(ok.is_well_formed());
    assert!(Command::KernelInfo.is_well_formed());
}

