use notes_service::config::effective_config;
use notes_service::handlers::{create_note, get_notes, root};
use notes_service::json::{json_string, note_json, notes_json};
use notes_service::notes::CursorItem;

#[test]
fn root_is_always_ok() {
    let (status, body) = root();
    assert_eq!(status, 200);
    assert_eq!(body, "Notes service is running");
    assert!(!body.is_empty());
}

#[test]
fn create_note_echoes_text() {
    let r = create_note(String::from("buy milk"), Ok(()));
    let (status, note) = r.expect("a successful insert must give a success reply");
    assert_eq!(status, 201);
    assert_eq!(note.text, "buy milk");
}

#[test]
fn create_note_reports_insert_fault() {
    let r = create_note(String::from("buy milk"), Err(String::from("connection reset")));
    let (status, body) = r.expect_err("a failed insert must give an error reply");
    assert_eq!(status, 500);
    assert_eq!(body, "DB insert error: connection reset");
    assert!(!body.is_empty());
}

#[test]
fn list_empty_collection() {
    let r = get_notes(Ok(Vec::new()));
    let (status, notes) = r.expect("an empty read must succeed");
    assert_eq!(status, 200);
    assert_eq!(notes.len(), 0);
    assert_eq!(notes_json(&notes), "[]");
}

#[test]
fn list_keeps_storage_order() {
    let items = vec![
        CursorItem::Doc(Some(String::from("first"))),
        CursorItem::Doc(Some(String::from("second"))),
        CursorItem::Doc(Some(String::from("third"))),
    ];
    let (status, notes) = get_notes(Ok(items)).expect("a clean read must succeed");
    assert_eq!(status, 200);
    let texts: Vec<&str> = notes.iter().map(|n| n.text.as_str()).collect();
    assert_eq!(texts, vec!["first", "second", "third"]);
}

#[test]
fn list_skips_documents_without_text() {
    let items = vec![
        CursorItem::Doc(Some(String::from("kept"))),
        CursorItem::Doc(None),
        CursorItem::Doc(Some(String::from("also kept"))),
    ];
    let (status, notes) = get_notes(Ok(items)).expect("a clean read must succeed");
    assert_eq!(status, 200);
    let texts: Vec<&str> = notes.iter().map(|n| n.text.as_str()).collect();
    assert_eq!(texts, vec!["kept", "also kept"]);
}

#[test]
fn list_reports_find_fault() {
    let r = get_notes(Err(String::from("no reachable servers")));
    let (status, body) = r.expect_err("a failed query must give an error reply");
    assert_eq!(status, 500);
    assert_eq!(body, "DB find error: no reachable servers");
    assert!(!body.is_empty());
}

#[test]
fn list_reports_cursor_fault_all_or_nothing() {
    let items = vec![
        CursorItem::Doc(Some(String::from("gathered then discarded"))),
        CursorItem::Fault(String::from("stream closed")),
        CursorItem::Doc(Some(String::from("never reached"))),
    ];
    let r = get_notes(Ok(items));
    let (status, body) = r.expect_err("a cursor fault must give an error reply");
    assert_eq!(status, 500);
    assert_eq!(body, "Cursor error: stream closed");
}

#[test]
fn list_is_idempotent_without_writes() {
    let make_items = || {
        vec![
            CursorItem::Doc(Some(String::from("a"))),
            CursorItem::Doc(None),
            CursorItem::Doc(Some(String::from("b"))),
        ]
    };
    let (s1, n1) = get_notes(Ok(make_items())).expect("first read must succeed");
    let (s2, n2) = get_notes(Ok(make_items())).expect("second read must succeed");
    assert_eq!(s1, s2);
    let t1: Vec<&str> = n1.iter().map(|n| n.text.as_str()).collect();
    let t2: Vec<&str> = n2.iter().map(|n| n.text.as_str()).collect();
    assert_eq!(t1, t2);
    assert_eq!(notes_json(&n1), notes_json(&n2));
}

#[test]
fn scenario_create_then_list() {
    let r = create_note(String::from("buy milk"), Ok(()));
    let (status, note) = r.expect("the insert succeeded, so the reply must too");
    assert_eq!(status, 201);
    assert_eq!(note_json(&note.text), "{\"text\":\"buy milk\"}");

    let items = vec![CursorItem::Doc(Some(note.text))];
    let (status, notes) = get_notes(Ok(items)).expect("a clean read must succeed");
    assert_eq!(status, 200);
    assert_eq!(notes_json(&notes), "[{\"text\":\"buy milk\"}]");
}

#[test]
fn round_trip_many_distinct_texts() {
    let texts = ["one", "two", "three", "four", "five"];
    let items: Vec<CursorItem> = texts
        .iter()
        .map(|t| CursorItem::Doc(Some(String::from(*t))))
        .collect();
    let (status, notes) = get_notes(Ok(items)).expect("a clean read must succeed");
    assert_eq!(status, 200);
    assert_eq!(notes.len(), texts.len());
    for (note, expected) in notes.iter().zip(texts.iter()) {
        assert_eq!(note.text, *expected);
    }
}

#[test]
fn json_string_escapes_specials() {
    assert_eq!(json_string("plain"), "\"plain\"");
    assert_eq!(json_string("say \"hi\""), "\"say \\\"hi\\\"\"");
    assert_eq!(json_string("back\\slash"), "\"back\\\\slash\"");
    assert_eq!(json_string("line\nbreak"), "\"line\\nbreak\"");
    assert_eq!(json_string("tab\there"), "\"tab\\there\"");
    assert_eq!(json_string("cr\rhere"), "\"cr\\rhere\"");
    assert_eq!(json_string("bs\u{8}ff\u{c}"), "\"bs\\bff\\f\"");
    assert_eq!(json_string("low\u{1}\u{1f}"), "\"low\\u0001\\u001f\"");
    assert_eq!(json_string("unicode \u{e9}\u{1f680}"), "\"unicode \u{e9}\u{1f680}\"");
}

#[test]
fn note_json_exact_bodies() {
    assert_eq!(note_json(""), "{\"text\":\"\"}");
    assert_eq!(note_json("ab"), "{\"text\":\"ab\"}");
    let notes = get_notes(Ok(vec![
        CursorItem::Doc(Some(String::from("a"))),
        CursorItem::Doc(Some(String::from("b"))),
    ]))
    .expect("a clean read must succeed")
    .1;
    assert_eq!(notes_json(&notes), "[{\"text\":\"a\"},{\"text\":\"b\"}]");
}

#[test]
fn config_defaults_when_unset() {
    let c = effective_config(None, None, None, None);
    assert_eq!(c.mongo_uri, "mongodb://localhost:27017");
    assert_eq!(c.db_name, "keploydb");
    assert_eq!(c.collection_name, "notes");
    assert_eq!(c.port, "8000");
}

#[test]
fn config_uses_given_values() {
    let c = effective_config(
        Some(String::from("mongodb://db.example:27018")),
        Some(String::from("prod")),
        Some(String::from("memos")),
        Some(String::from("9000")),
    );
    assert_eq!(c.mongo_uri, "mongodb://db.example:27018");
    assert_eq!(c.db_name, "prod");
    assert_eq!(c.collection_name, "memos");
    assert_eq!(c.port, "9000");
}
