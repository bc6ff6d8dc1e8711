use filestore::dao::{Entity, EntityDao};
use filestore::payload::reconstruct_payload;

#[test]
fn entity_new_keeps_uid_and_payload() {
    let e = Entity::new(String::from("user-1"), String::from("hello world"));
    assert_eq!(e.get_uid(), "user-1");
    assert_eq!(e.get_payload(), "hello world");
}

#[test]
fn hash_code_depends_on_uid_alone() {
    let a = Entity::new(String::from("user-1"), String::from("first payload"));
    let b = Entity::new(String::from("user-1"), String::from("an entirely different payload"));
    assert_eq!(a.get_hash_code(), b.get_hash_code());
}

#[test]
fn hash_code_matches_calculate_hash() {
    let e = Entity::new(String::from("some-uid"), String::new());
    assert_eq!(e.get_hash_code(), Entity::calculate_hash("some-uid"));
}

#[test]
fn entity_path_is_plain_concatenation() {
    let dao = EntityDao::new(String::from("/tmp/store/"));
    assert_eq!(dao.entity_path("user-1"), "/tmp/store/user-1");
}

#[test]
fn entity_path_adds_no_separator() {
    let dao = EntityDao::new(String::from("/tmp/store"));
    assert_eq!(dao.entity_path("user-1"), "/tmp/storeuser-1");
}

#[test]
fn save_request_targets_payload_at_path() {
    let dao = EntityDao::new(String::from("/tmp/store/"));
    let e = Entity::new(String::from("user-1"), String::from("hello world"));
    let (path, bytes) = dao.save_request(e);
    assert_eq!(path, "/tmp/store/user-1");
    assert_eq!(bytes, "hello world");
}

#[test]
fn round_trip_without_newlines_is_exact() {
    let saved = Entity::new(String::from("user-1"), String::from("hello world"));
    let (_, stored) = EntityDao::new(String::from("/tmp/store/")).save_request(saved);
    let got = EntityDao::entity_from_read("user-1", Some(stored)).unwrap();
    assert_eq!(got.get_uid(), "user-1");
    assert_eq!(got.get_payload(), "hello world");
}

#[test]
fn round_trip_with_newlines_is_lossy() {
    let got = EntityDao::entity_from_read("u", Some(String::from("line one\nline two\n"))).unwrap();
    assert_eq!(got.get_payload(), "line oneline two");
}

#[test]
fn round_trip_hash_matches_fresh_entity() {
    let got = EntityDao::entity_from_read("user-1", Some(String::from("hello world"))).unwrap();
    let fresh = Entity::new(String::from("user-1"), String::from("other"));
    assert_eq!(got.get_hash_code(), fresh.get_hash_code());
}

#[test]
fn get_of_missing_file_is_absence() {
    assert!(EntityDao::entity_from_read("nonexistent-uid", None).is_none());
}

#[test]
fn reconstruct_drops_lf() {
    assert_eq!(reconstruct_payload("a\nb"), "ab");
}

#[test]
fn reconstruct_drops_crlf() {
    assert_eq!(reconstruct_payload("a\r\nb"), "ab");
}

#[test]
fn reconstruct_keeps_lone_cr() {
    assert_eq!(reconstruct_payload("a\rb"), "a\rb");
}

#[test]
fn reconstruct_keeps_trailing_cr() {
    assert_eq!(reconstruct_payload("a\r"), "a\r");
}

#[test]
fn reconstruct_empty_text() {
    assert_eq!(reconstruct_payload(""), "");
}

#[test]
fn reconstruct_only_newlines() {
    assert_eq!(reconstruct_payload("\n\r\n\n"), "");
}

#[test]
fn reconstruct_keeps_non_ascii_text() {
    assert_eq!(reconstruct_payload("héllo\nwörld"), "héllowörld");
}

#[test]
fn empty_uid_and_empty_payload_accepted() {
    let e = Entity::new(String::new(), String::new());
    assert_eq!(e.get_uid(), "");
    assert_eq!(e.get_payload(), "");
    let dao = EntityDao::new(String::from("/tmp/store/"));
    assert_eq!(dao.entity_path(""), "/tmp/store/");
}
