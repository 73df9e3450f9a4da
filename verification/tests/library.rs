use ttsearch::importing::csv::{parse_message_record, read_csv_messages, CsvError};
use ttsearch::importing::zip::{file_name_of, read_zipfile};
use ttsearch::importing::{is_zip_file, read_files, FileEntry, ImportingError};
use ttsearch::indexes::messages::{
    create_message_document, create_messages_schema, open_or_create_plan, DeserializeError,
    DocValue, Document, FieldKind, IndexAction,
};
use ttsearch::models::message::Message;
use ttsearch::numbers::{parse_u64, u64_to_string};
use ttsearch::printer::{
    format_message_json, format_message_oneline, format_message_pretty, json_escape_str,
    OutputMode,
};

fn sample_message() -> Message {
    Message::new(1, 2, "alice", "Alice Example", "hello\nworld", 0)
}

fn row(fields: &[&str]) -> Vec<String> {
    fields.iter().map(|f| (*f).to_owned()).collect()
}

#[test]
fn round_trip_document() {
    let m = Message::new(7, 8, "alice", "Alice Example", "hello\nworld", 1704164645);
    let doc = create_message_document(&m);
    let back = Message::deserialize(&doc).expect("round trip must decode");
    assert_eq!(back.topic_id(), 7);
    assert_eq!(back.id(), 8);
    assert_eq!(back.account_name(), "alice");
    assert_eq!(back.account_fullname(), "Alice Example");
    assert_eq!(back.message(), "hello\nworld");
    assert_eq!(back.created_at(), 1704164645);
}

#[test]
fn deserialize_missing_field_fails() {
    let m = sample_message();
    let mut doc = create_message_document(&m);
    doc.entries.pop();
    match Message::deserialize(&doc) {
        Err(DeserializeError::MissingField) => {},
        other => panic!("expected MissingField, got {:?}", other.map(|m| m.id())),
    }
}

#[test]
fn deserialize_unknown_field_fails() {
    let m = sample_message();
    let mut doc = create_message_document(&m);
    doc.entries.push((9, DocValue::U64(1)));
    match Message::deserialize(&doc) {
        Err(DeserializeError::UnknownField(9)) => {},
        other => panic!("expected UnknownField(9), got {:?}", other.map(|m| m.id())),
    }
}

#[test]
fn deserialize_wrong_value_type_fails() {
    let m = sample_message();
    let mut doc = create_message_document(&m);
    doc.entries[0] = (0, DocValue::Str("not a number".to_owned()));
    match Message::deserialize(&doc) {
        Err(DeserializeError::UnknownField(0)) => {},
        other => panic!("expected UnknownField(0), got {:?}", other.map(|m| m.id())),
    }
}

#[test]
fn parse_row_well_formed() {
    let r = row(&["1", "10", "alice", "Alice Example", "hello", "1970-01-02T00:00:00+09:00"]);
    let m = parse_message_record(&r).expect("well-formed row must parse");
    assert_eq!(m.topic_id(), 1);
    assert_eq!(m.id(), 10);
    assert_eq!(m.account_name(), "alice");
    assert_eq!(m.account_fullname(), "Alice Example");
    assert_eq!(m.message(), "hello");
    assert_eq!(m.created_at(), 54000);
}

#[test]
fn parse_row_five_fields_fails() {
    let r = row(&["1", "10", "alice", "Alice", "hello"]);
    match parse_message_record(&r) {
        Err(CsvError::InvalidFormat(s)) => {
            assert_eq!(s, "message record should have 6 fields but 5");
        },
        _ => panic!("expected a field-count error"),
    }
}

#[test]
fn parse_row_seven_fields_fails() {
    let r = row(&["1", "10", "alice", "Alice", "hello", "1970-01-01T00:00:00Z", "extra"]);
    match parse_message_record(&r) {
        Err(CsvError::InvalidFormat(s)) => {
            assert_eq!(s, "message record should have 6 fields but 7");
        },
        _ => panic!("expected a field-count error"),
    }
}

#[test]
fn parse_row_bad_topic_id_fails() {
    let r = row(&["x1", "10", "alice", "Alice", "hello", "1970-01-01T00:00:00Z"]);
    match parse_message_record(&r) {
        Err(CsvError::InvalidFormat(s)) => {
            assert_eq!(s, "topic_id should be number");
        },
        _ => panic!("expected a topic_id format error"),
    }
}

#[test]
fn parse_row_bad_id_fails() {
    let r = row(&["1", "-10", "alice", "Alice", "hello", "1970-01-01T00:00:00Z"]);
    match parse_message_record(&r) {
        Err(CsvError::InvalidFormat(s)) => {
            assert_eq!(s, "id should be number");
        },
        _ => panic!("expected an id format error"),
    }
}

#[test]
fn parse_row_timestamp_without_offset_fails() {
    let r = row(&["1", "10", "alice", "Alice", "hello", "2024-01-02T03:04:05"]);
    match parse_message_record(&r) {
        Err(CsvError::InvalidFormat(s)) => {
            assert_eq!(s, "created_at is not valid date");
        },
        _ => panic!("expected a created_at format error"),
    }
}

#[test]
fn header_only_csv_yields_nothing() {
    let data = b"topic_id,id,account_name,account_fullname,message,created_at\n".to_vec();
    let msgs = read_csv_messages(&data).expect("a header-only stream is not an error");
    assert_eq!(msgs.len(), 0);
}

#[test]
fn csv_rows_parse_in_order() {
    let data = b"topic_id,id,account_name,account_fullname,message,created_at\n\
1,10,alice,Alice Example,hello,2024-01-02T03:04:05+00:00\n\
3,30,\"bob,b\",\"Bob \"\"The B\"\" X\",\"line1\nline2\",1970-01-01T00:00:10+00:00\n"
        .to_vec();
    let msgs = read_csv_messages(&data).expect("well-formed stream must parse");
    assert_eq!(msgs.len(), 2);
    assert_eq!(msgs[0].topic_id(), 1);
    assert_eq!(msgs[0].created_at(), 1704164645);
    assert_eq!(msgs[1].topic_id(), 3);
    assert_eq!(msgs[1].account_name(), "bob,b");
    assert_eq!(msgs[1].account_fullname(), "Bob \"The B\" X");
    assert_eq!(msgs[1].message(), "line1\nline2");
    assert_eq!(msgs[1].created_at(), 10);
}

#[test]
fn csv_first_bad_row_aborts() {
    let data = b"h1,h2,h3,h4,h5,h6\n1,10,alice,Alice,hello,1970-01-01T00:00:00Z\n1,oops,a,b,c,1970-01-01T00:00:00Z\n"
        .to_vec();
    match read_csv_messages(&data) {
        Err(CsvError::InvalidFormat(s)) => {
            assert_eq!(s, "id should be number");
        },
        _ => panic!("expected the second data row to abort the read"),
    }
}

#[test]
fn nonexistent_path_fails() {
    let files: Vec<FileEntry> = Vec::new();
    match read_files("/no/such/path", false, &files) {
        Err(ImportingError::FileNotFound(p)) => {
            assert_eq!(p, "/no/such/path");
        },
        _ => panic!("expected FileNotFound"),
    }
}

#[test]
fn other_files_are_ignored() {
    let files = vec![
        FileEntry { name: "notes.txt".to_owned(), data: b"whatever".to_vec() },
        FileEntry { name: "messages.csv.bak".to_owned(), data: b"junk".to_vec() },
    ];
    let msgs = read_files("p", true, &files).expect("unknown files are not an error");
    assert_eq!(msgs.len(), 0);
}

#[test]
fn zip_extension_matching() {
    assert!(is_zip_file("archive.zip"));
    assert!(is_zip_file("ARCHIVE.ZIP"));
    assert!(is_zip_file("a.ZiP"));
    assert!(!is_zip_file("archive.zip.bak"));
    assert!(!is_zip_file(".zip"));
    assert!(!is_zip_file("zip"));
    assert!(!is_zip_file("archive.gz"));
}

#[test]
fn file_name_of_paths() {
    assert_eq!(file_name_of("sub/dir/messages.csv"), "messages.csv");
    assert_eq!(file_name_of("messages.csv"), "messages.csv");
    assert_eq!(file_name_of("dir/"), "");
}

#[test]
fn zip_of_garbage_fails() {
    let data = b"this is not a zip archive".to_vec();
    assert!(read_zipfile(&data).is_err());
}

#[test]
fn parse_u64_accepts_what_std_accepts() {
    assert_eq!(parse_u64("0"), Some(0));
    assert_eq!(parse_u64("42"), Some(42));
    assert_eq!(parse_u64("+5"), Some(5));
    assert_eq!(parse_u64("007"), Some(7));
    assert_eq!(parse_u64("18446744073709551615"), Some(u64::MAX));
    assert_eq!(parse_u64("18446744073709551616"), None);
    assert_eq!(parse_u64(""), None);
    assert_eq!(parse_u64("+"), None);
    assert_eq!(parse_u64("-1"), None);
    assert_eq!(parse_u64("1 "), None);
    assert_eq!(parse_u64("1a"), None);
}

#[test]
fn u64_to_string_renders_decimal() {
    assert_eq!(u64_to_string(0), "0");
    assert_eq!(u64_to_string(9), "9");
    assert_eq!(u64_to_string(10), "10");
    assert_eq!(u64_to_string(1704164645), "1704164645");
    assert_eq!(u64_to_string(u64::MAX), "18446744073709551615");
}

#[test]
fn oneline_is_a_single_line() {
    let m = sample_message();
    let line = format_message_oneline(&m);
    assert_eq!(line, "[Alice Example (alice)] 1970-01-01 00:00:00 /topics/1/posts/2 hello world");
    assert_eq!(line.chars().filter(|c| *c == '\n').count(), 0);
}

#[test]
fn pretty_renders_block() {
    let m = sample_message();
    let text = format_message_pretty(&m);
    let expected = "--------------------------------------------------------------------------------\n\
1970-01-01 00:00:00 /topics/1/posts/2\n\
[Alice Example (alice)]\n\
hello\nworld";
    assert_eq!(text, expected);
}

#[test]
fn json_renders_object() {
    let m = Message::new(1, 2, "alice", "Alice Example", "he said \"hi\"\nback\\slash", 0);
    let text = format_message_json(&m);
    let expected = "{\"topic_id\":1,\"id\":2,\"account_name\":\"alice\",\
\"account_fullname\":\"Alice Example\",\
\"message\":\"he said \\\"hi\\\"\\nback\\\\slash\",\
\"created_at\":\"1970-01-01T00:00:00Z\"}";
    assert_eq!(text, expected);
    let v: serde_json::Value = serde_json::from_str(&text).expect("output must be valid JSON");
    assert_eq!(v["topic_id"].as_u64(), Some(1));
    assert_eq!(v["id"].as_u64(), Some(2));
    assert_eq!(v["account_name"].as_str(), Some("alice"));
    assert_eq!(v["message"].as_str(), Some("he said \"hi\"\nback\\slash"));
    assert_eq!(v["created_at"].as_str(), Some("1970-01-01T00:00:00Z"));
}

#[test]
fn json_escapes_control_characters() {
    assert_eq!(json_escape_str("a\u{1}b\u{1f}"), "a\\u0001b\\u001f");
    assert_eq!(json_escape_str("\u{8}\u{c}\t\r"), "\\b\\f\\t\\r");
}

#[test]
fn output_mode_maps_to_printer() {
    let m = sample_message();
    let p = OutputMode::Oneline.to_printer();
    assert_eq!(p.format_message(&m), format_message_oneline(&m));
    let p = OutputMode::Pretty.to_printer();
    assert_eq!(p.format_message(&m), format_message_pretty(&m));
    let p = OutputMode::JSON.to_printer();
    assert_eq!(p.format_message(&m), format_message_json(&m));
}

#[test]
fn schema_lists_six_fields_in_order() {
    let schema = create_messages_schema();
    let names: Vec<&str> = schema.iter().map(|f| f.name.as_str()).collect();
    assert_eq!(
        names,
        vec!["topic_id", "id", "account_name", "account_fullname", "message", "created_at"]
    );
    assert_eq!(schema[0].kind, FieldKind::U64);
    assert_eq!(schema[2].kind, FieldKind::Text);
    assert_eq!(schema[4].tokenizer.as_deref(), Some("lang_ja"));
    assert!(schema[4].with_freqs_and_positions);
    assert_eq!(schema[5].kind, FieldKind::Date);
    assert!(schema[5].fast);
    assert!(!schema[0].fast);
}

#[test]
fn open_or_create_plan_decides() {
    match open_or_create_plan(None, false) {
        Err(e) => assert_eq!(e, "failed to open"),
        _ => panic!("expected an internal error without a data path"),
    }
    let (dir, action) = open_or_create_plan(Some("/home/u/.local/state/ttsearch/"), false)
        .expect("a resolved data path must yield a plan");
    assert_eq!(dir, "/home/u/.local/state/ttsearch/messages");
    assert_eq!(action, IndexAction::CreateNew);
    let (_, action) = open_or_create_plan(Some("/x/"), true).unwrap();
    assert_eq!(action, IndexAction::OpenExisting);
}

#[test]
fn search_decodes_hits_in_order() {
    let a = Message::new(1, 1, "a", "A", "newest", 300);
    let b = Message::new(1, 2, "b", "B", "older", 200);
    let hits = vec![create_message_document(&a), create_message_document(&b)];
    let msgs = ttsearch::indexes::messages::search(&hits, &OutputMode::Oneline.to_printer())
        .expect("decodable hits must search");
    assert_eq!(msgs.len(), 2);
    assert_eq!(msgs[0].created_at(), 300);
    assert_eq!(msgs[1].created_at(), 200);
}

#[test]
fn search_fails_on_undecodable_hit() {
    let a = Message::new(1, 1, "a", "A", "fine", 300);
    let bad = Document { entries: vec![(0, DocValue::U64(1))] };
    let hits = vec![create_message_document(&a), bad];
    match ttsearch::indexes::messages::search(&hits, &OutputMode::JSON.to_printer()) {
        Err(DeserializeError::MissingField) => {},
        _ => panic!("expected the second hit to abort the search"),
    }
}
