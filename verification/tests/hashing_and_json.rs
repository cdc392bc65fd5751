use zkputer::hashing::{hash_str, sha256_hex};
use zkputer::json::{hash_json, JsonField, JsonObject, JsonValue};
use zkputer::models::{EvidenceBundle, EvidenceItem};
use zkputer::order::{drop_repeats, sort_texts, str_le};
use zkputer::text::{contains_text, join, str_eq, without};

fn strings(items: &[&str]) -> Vec<String> {
    items.iter().map(|s| s.to_string()).collect()
}

fn item(hash: &str) -> EvidenceItem {
    EvidenceItem {
        source_id: "src".to_string(),
        source_kind: "kind".to_string(),
        artifact_ref: "ref".to_string(),
        artifact_hash: hash.to_string(),
        observed_at: "2024-01-01T00:00:00.000Z".to_string(),
        tags: vec![],
    }
}

fn bundle(hashes: &[&str]) -> EvidenceBundle {
    EvidenceBundle {
        items: hashes.iter().map(|h| item(h)).collect(),
        observed_tags: vec![],
        conflicts: vec![],
        finality_observed_at: None,
    }
}

#[test]
fn hash_str_of_abc_is_the_known_digest() {
    assert_eq!(
        hash_str("abc"),
        "0xba7816bf8f01cfea414140de5dae2223b00361a396177a9cb410ff61f20015ad"
    );
}

#[test]
fn hash_str_of_the_empty_text_is_the_known_digest() {
    assert_eq!(
        hash_str(""),
        "0xe3b0c44298fc1c149afbf4c8996fb92427ae41e4649b934ca495991b7852b855"
    );
}

#[test]
fn hash_str_is_prefixed_lowercase_hex_of_66_characters() {
    let hash = hash_str("Order order-1");
    assert_eq!(hash.len(), 66);
    assert!(hash.starts_with("0x"));
    assert!(hash[2..].chars().all(|c| c.is_ascii_digit() || ('a'..='f').contains(&c)));
}

#[test]
fn hash_str_hashes_utf8_bytes() {
    // SHA-256 of the two bytes c3 a9.
    assert_eq!(
        hash_str("\u{e9}"),
        "0x4a99557e4033c3539de2eb65472017cad5f9557f7a0625a09f1c3f6e2ba69c4c"
    );
}

#[test]
fn encode_writes_members_in_order_without_whitespace() {
    let object = JsonObject::new()
        .with(JsonField::text("a", "x"))
        .with(JsonField::optional("b", &None))
        .with(JsonField { name: "c".to_string(), value: JsonValue::Bool(true) })
        .with(JsonField { name: "d".to_string(), value: JsonValue::TextList(strings(&["p", "q"])) })
        .with(JsonField::optional("e", &Some("y".to_string())))
        .with(JsonField { name: "f".to_string(), value: JsonValue::Bool(false) })
        .with(JsonField { name: "g".to_string(), value: JsonValue::TextList(vec![]) });
    assert_eq!(
        object.encode(),
        "{\"a\":\"x\",\"b\":null,\"c\":true,\"d\":[\"p\",\"q\"],\"e\":\"y\",\"f\":false,\"g\":[]}"
    );
}

#[test]
fn encode_of_the_empty_object_is_two_braces() {
    assert_eq!(JsonObject::new().encode(), "{}");
}

#[test]
fn encode_escapes_strings_as_json_does() {
    let object = JsonObject::new().with(JsonField::text("k\"ey", "line\nbreak\\ \u{1}\t\u{e9}"));
    assert_eq!(object.encode(), "{\"k\\\"ey\":\"line\\nbreak\\\\ \\u0001\\t\u{e9}\"}");
}

#[test]
fn encode_agrees_with_serde_json_on_sorted_keys() {
    let mut map = serde_json::Map::new();
    map.insert("claim_hash".to_string(), serde_json::Value::String("0xab\"c".to_string()));
    map.insert("venue".to_string(), serde_json::Value::String("base".to_string()));
    map.insert("execution_ref".to_string(), serde_json::Value::Null);
    map.insert("empty".to_string(), serde_json::Value::Bool(true));
    map.insert(
        "leaves".to_string(),
        serde_json::Value::Array(vec![
            serde_json::Value::String("0x01".to_string()),
            serde_json::Value::String("0x02".to_string()),
        ]),
    );
    let expected = serde_json::to_string(&serde_json::Value::Object(map)).expect("encodes");
    let object = JsonObject::new()
        .with(JsonField::text("claim_hash", "0xab\"c"))
        .with(JsonField { name: "empty".to_string(), value: JsonValue::Bool(true) })
        .with(JsonField::optional("execution_ref", &None))
        .with(JsonField {
            name: "leaves".to_string(),
            value: JsonValue::TextList(strings(&["0x01", "0x02"])),
        })
        .with(JsonField::text("venue", "base"));
    assert_eq!(object.encode(), expected);
}

#[test]
fn hash_json_is_the_hash_of_the_canonical_text() {
    let object = JsonObject::new().with(JsonField::text("backend", "SP1")).with(JsonField::text(
        "verifier_key",
        "001",
    ));
    assert_eq!(hash_json(&object), hash_str("{\"backend\":\"SP1\",\"verifier_key\":\"001\"}"));
    assert_ne!(hash_json(&object), hash_json(&JsonObject::new()));
}

#[test]
fn get_returns_the_first_member_of_that_name() {
    let object = JsonObject::new()
        .with(JsonField::text("a", "first"))
        .with(JsonField::text("b", "other"))
        .with(JsonField::text("a", "second"));
    assert!(matches!(object.get("a"), Some(JsonValue::Text(s)) if s == "first"));
    assert!(matches!(object.get("b"), Some(JsonValue::Text(s)) if s == "other"));
    assert!(object.get("c").is_none());
    assert!(JsonObject::new().get("a").is_none());
}

#[test]
fn clone_of_an_object_encodes_alike() {
    let object = JsonObject::new()
        .with(JsonField::text("a", "x"))
        .with(JsonField { name: "d".to_string(), value: JsonValue::TextList(strings(&["p"])) });
    assert_eq!(object.clone().encode(), object.encode());
}

#[test]
fn evidence_root_is_the_hash_of_the_sorted_leaves() {
    let root = bundle(&["0x02", "0x01", "0x10"]).evidence_root();
    assert_eq!(root, hash_str("{\"leaves\":[\"0x01\",\"0x02\",\"0x10\"]}"));
}

#[test]
fn evidence_root_of_no_items_is_the_hash_of_empty_leaves() {
    assert_eq!(bundle(&[]).evidence_root(), hash_str("{\"leaves\":[]}"));
}

#[test]
fn evidence_root_ignores_the_order_of_items() {
    let a = bundle(&["0xbb", "0xaa", "0xcc", "0xaa"]).evidence_root();
    let b = bundle(&["0xaa", "0xcc", "0xaa", "0xbb"]).evidence_root();
    let c = bundle(&["0xcc", "0xbb", "0xaa", "0xaa"]).evidence_root();
    assert_eq!(a, b);
    assert_eq!(b, c);
}

#[test]
fn evidence_root_counts_repeated_hashes() {
    assert_ne!(bundle(&["0xaa", "0xaa"]).evidence_root(), bundle(&["0xaa"]).evidence_root());
}

#[test]
fn sort_texts_sorts_as_strings_compare() {
    let list = strings(&["b", "", "ab", "a", "B", "\u{e9}", "z", "ab"]);
    let mut expected = list.clone();
    expected.sort();
    assert_eq!(sort_texts(&list), expected);
    assert_eq!(sort_texts(&vec![]), Vec::<String>::new());
}

#[test]
fn str_le_is_the_order_of_strings() {
    let samples = ["", "a", "ab", "b", "B", "\u{e9}", "z", "0x10", "0x02"];
    for a in samples {
        for b in samples {
            assert_eq!(str_le(a, b), a <= b, "{a:?} <= {b:?}");
        }
    }
}

#[test]
fn join_puts_the_separator_between_neighbours() {
    assert_eq!(join(&strings(&["a", "b", "c"]), ", "), "a, b, c");
    assert_eq!(join(&strings(&["a"]), ", "), "a");
    assert_eq!(join(&vec![], ", "), "");
    assert_eq!(join(&strings(&["", ""]), "-"), "-");
}

#[test]
fn without_keeps_what_is_not_dropped_in_order() {
    let kept = without(&strings(&["a", "b", "c", "b"]), &strings(&["b", "x"]));
    assert_eq!(kept, strings(&["a", "c"]));
    assert_eq!(without(&strings(&["a"]), &vec![]), strings(&["a"]));
}

#[test]
fn contains_text_and_str_eq_compare_whole_strings() {
    assert!(contains_text(&strings(&["a", "bc"]), "bc"));
    assert!(!contains_text(&strings(&["a", "bc"]), "b"));
    assert!(!contains_text(&vec![], ""));
    assert!(str_eq("abc", "abc"));
    assert!(!str_eq("abc", "abd"));
    assert!(!str_eq("abc", "ab"));
}

#[test]
fn sha256_hex_is_the_digest_without_prefix() {
    assert_eq!(
        sha256_hex("abc"),
        "ba7816bf8f01cfea414140de5dae2223b00361a396177a9cb410ff61f20015ad"
    );
    assert_eq!(format!("0x{}", sha256_hex("xyz")), hash_str("xyz"));
}

#[test]
fn encode_writes_numbers_in_decimal() {
    for n in [0u64, 7, 10, 99, 100, 1024, 18446744073709551615] {
        let object = JsonObject::new()
            .with(JsonField { name: "n".to_string(), value: JsonValue::Number(n) });
        assert_eq!(object.encode(), format!("{{\"n\":{}}}", n));
        assert_eq!(
            object.encode(),
            serde_json::to_string(&serde_json::Value::Object(
                [("n".to_string(), serde_json::Value::from(n))].into_iter().collect()
            ))
            .expect("encodes")
        );
    }
}

#[test]
fn drop_repeats_keeps_one_of_each_run() {
    assert_eq!(drop_repeats(&strings(&["a", "a", "b", "c", "c", "c"])), strings(&["a", "b", "c"]));
    assert_eq!(drop_repeats(&strings(&["a", "b", "a"])), strings(&["a", "b", "a"]));
    assert_eq!(drop_repeats(&strings(&["a"])), strings(&["a"]));
    assert_eq!(drop_repeats(&vec![]), Vec::<String>::new());
}
