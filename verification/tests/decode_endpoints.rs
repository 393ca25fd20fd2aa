use hn_api::decode::{decode_id_list, decode_item, decode_max_item, decode_updates, decode_user};
use hn_api::types::Item;
use hn_api::HnClientError;

/// A `null` payload is an absence, never an error, and repeated decodes of
/// it agree.
#[test]
fn null_item_is_absent_every_time() {
    assert_eq!(decode_item("null").unwrap(), None);
    assert_eq!(decode_item("null").unwrap(), None);
    assert_eq!(decode_item("  null\n").unwrap(), None);
    assert_eq!(decode_user("null").unwrap(), None);
    assert_eq!(decode_user("null").unwrap(), None);
}

#[test]
fn user_payload_decodes() {
    let json = r#"
    {
      "about" : "This is a test",
      "created" : 1173923446,
      "id" : "jl",
      "karma" : 2937,
      "submitted" : [ 8265435, 8168423, 8090946 ]
    }"#;
    let user = decode_user(json).unwrap().unwrap();
    assert_eq!(user.id, "jl");
    assert_eq!(user.created, 1173923446);
    assert_eq!(user.karma, 2937);
    assert_eq!(user.about.as_deref(), Some("This is a test"));
    assert_eq!(user.submitted.as_deref(), Some(&[8265435, 8168423, 8090946][..]));
}

#[test]
fn user_payload_without_optional_fields() {
    let json = r#"{ "id" : "pg", "created" : 1160418092, "karma" : 155111 }"#;
    let user = decode_user(json).unwrap().unwrap();
    assert_eq!(user.id, "pg");
    assert_eq!(user.about, None);
    assert_eq!(user.submitted, None);
}

#[test]
fn max_item_payload_decodes() {
    assert_eq!(decode_max_item("9130260").unwrap(), 9130260);
    assert_eq!(decode_max_item(" 9130260\n").unwrap(), 9130260);
    assert_eq!(decode_max_item("4294967295").unwrap(), u32::MAX);
}

#[test]
fn max_item_rejects_out_of_range() {
    assert!(matches!(
        decode_max_item("-5"),
        Err(HnClientError::BackendError(m)) if m == "invalid id payload"
    ));
    assert!(matches!(decode_max_item("4294967296"), Err(_)));
    // Twenty digits: past the grammar's eighteen-digit bound.
    assert!(matches!(decode_max_item("99999999999999999999"), Err(_)));
}

#[test]
fn id_list_payload_decodes() {
    assert_eq!(
        decode_id_list("[9129911, 9129199, 9127761]").unwrap(),
        vec![9129911, 9129199, 9127761]
    );
    assert_eq!(decode_id_list("[]").unwrap(), Vec::<u32>::new());
    assert_eq!(decode_id_list(" [ 7 ] ").unwrap(), vec![7]);
}

#[test]
fn id_list_rejects_bad_elements() {
    assert!(matches!(
        decode_id_list(r#"[1, "two"]"#),
        Err(HnClientError::BackendError(m)) if m == "invalid id list payload"
    ));
    assert!(matches!(decode_id_list("[1, -2]"), Err(_)));
    assert!(matches!(decode_id_list("[1, 2"), Err(_)));
}

#[test]
fn updates_payload_decodes() {
    let json = r#"
    {
      "items" : [ 8423305, 8420805, 8423379 ],
      "profiles" : [ "thefox", "mdda", "plinkplonk" ]
    }"#;
    let updates = decode_updates(json).unwrap();
    assert_eq!(updates.items, vec![8423305, 8420805, 8423379]);
    assert_eq!(updates.profiles, vec!["thefox", "mdda", "plinkplonk"]);
}

#[test]
fn updates_rejects_missing_fields() {
    assert!(matches!(
        decode_updates(r#"{ "items" : [1] }"#),
        Err(HnClientError::BackendError(m)) if m == "invalid updates payload"
    ));
}

/// String escapes decode to the characters they select.
#[test]
fn string_escapes_decode() {
    let json = "{ \"id\": 1, \"score\": 2, \"time\": 3, \"title\": \"a\\\"b\\\\c\\nd\\te\\r\\/\\b\\f\", \"type\": \"job\" }";
    let item = decode_item(json).unwrap().unwrap();
    match item {
        Item::Job(job) => {
            assert_eq!(job.title, "a\"b\\c\nd\te\r/\u{0008}\u{000C}");
        },
        other => panic!("expected a job, got {:?}", other),
    }
}

/// Fields the schema does not know are ignored, as long as they fit the
/// grammar.
#[test]
fn unknown_fields_are_ignored() {
    let json = r#"{ "id": 1, "score": 2, "time": 3, "title": "t", "type": "job",
                    "deleted": true, "dead": false, "extra": null, "more": [1, "x"] }"#;
    let item = decode_item(json).unwrap().unwrap();
    assert!(matches!(item, Item::Job(_)));
}

#[test]
fn malformed_item_payloads_are_backend_errors() {
    for bad in [
        "",
        "{",
        "{}",
        r#"{ "type": "story" }"#,
        r#"{ "id": 1, "type": "spaceship" }"#,
        r#"{ "id": 1, "score": 2, "time": 3, "title": "t", "type": "job" } trailing"#,
        r#"{ "id": 1.5, "score": 2, "time": 3, "title": "t", "type": "job" }"#,
        r#"{ "id": "1", "score": 2, "time": 3, "title": "t", "type": "job" }"#,
        "nullish",
    ] {
        match decode_item(bad) {
            Err(HnClientError::BackendError(m)) => assert_eq!(m, "invalid item payload"),
            other => panic!("expected a backend error for {:?}, got {:?}", bad, other),
        }
    }
}

/// The error type's variants, as callers see them.
#[test]
fn error_variants() {
    let e = HnClientError::ItemNotFoundError(42);
    assert!(matches!(e, HnClientError::ItemNotFoundError(42)));
    let e = HnClientError::UserNotFoundError("nobody".to_string());
    assert!(matches!(e, HnClientError::UserNotFoundError(ref n) if n == "nobody"));
    let e = HnClientError::BackendError("boom".to_string());
    assert!(matches!(e, HnClientError::BackendError(ref m) if m == "boom"));
}

/// Duplicate keys: the first occurrence wins.
#[test]
fn first_key_occurrence_wins() {
    let json = r#"{ "id": 1, "id": 9, "score": 2, "time": 3, "title": "t", "type": "job" }"#;
    let item = decode_item(json).unwrap().unwrap();
    match item {
        Item::Job(job) => assert_eq!(job.id, 1),
        other => panic!("expected a job, got {:?}", other),
    }
}

/// A negative karma score decodes.
#[test]
fn negative_karma_decodes() {
    let json = r#"{ "id" : "grump", "created" : 1, "karma" : -17 }"#;
    let user = decode_user(json).unwrap().unwrap();
    assert_eq!(user.karma, -17);
}

/// Integers of up to eighteen digits are in the grammar; longer ones are
/// not.
#[test]
fn integer_digit_bounds() {
    let json = r#"{ "id" : "big", "created" : 1, "karma" : 999999999999999999 }"#;
    let user = decode_user(json).unwrap().unwrap();
    assert_eq!(user.karma, 999_999_999_999_999_999);
    let json = r#"{ "id" : "big", "created" : 1, "karma" : -999999999999999999 }"#;
    assert_eq!(decode_user(json).unwrap().unwrap().karma, -999_999_999_999_999_999);
    let json = r#"{ "id" : "huge", "created" : 1, "karma" : 1999999999999999999 }"#;
    assert!(matches!(decode_user(json), Err(HnClientError::BackendError(_))));
}
