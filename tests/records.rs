use index_actor::ident::{index_dir_name, meta_key};
use index_actor::meta::{IndexError, IndexMeta};
use index_actor::store::{create_decision, create_decision_at, update_decision, update_decision_at};

const FIRST: u128 = 1;

#[test]
fn new_record_has_equal_timestamps() {
    let m = IndexMeta::new(FIRST, Some("id".to_string()), 1_000);
    assert_eq!(m.uuid(), 1);
    assert_eq!(m.created_at(), 1_000);
    assert_eq!(m.updated_at(), 1_000);
    assert_eq!(m.primary_key(), Some("id"));
}

#[test]
fn touched_moves_only_updated_at() {
    let m = IndexMeta::new(FIRST, None, 5);
    let t = m.touched(9);
    assert_eq!(t.uuid(), 1);
    assert_eq!(t.created_at(), 5);
    assert_eq!(t.updated_at(), 9);
    assert_eq!(t.primary_key(), None);
}

#[test]
fn meta_key_is_sixteen_big_endian_bytes() {
    let mut expected = vec![0u8; 16];
    expected[15] = 1;
    assert_eq!(meta_key(FIRST), expected);
    let k = meta_key(0x0102030405060708090a0b0c0d0e0f10);
    assert_eq!(k, (1u8..=16).collect::<Vec<u8>>());
}

#[test]
fn dir_name_uses_hyphenated_lower_hex() {
    assert_eq!(index_dir_name(FIRST), "index-00000000-0000-0000-0000-000000000001");
    assert_eq!(
        index_dir_name(0x936DA01F9ABD4D9D80C702AF85C822A8),
        "index-936da01f-9abd-4d9d-80c7-02af85c822a8"
    );
}

#[test]
fn create_scenario_returns_stored_record() {
    let m = create_decision_at(false, FIRST, Some("id".to_string()), 42).unwrap();
    assert_eq!(m.uuid(), FIRST);
    assert_eq!(m.primary_key(), Some("id"));
    assert_eq!(m.created_at(), 42);
    assert_eq!(m.created_at(), m.updated_at());
}

#[test]
fn create_at_current_time() {
    let m = create_decision(false, FIRST, Some("id".to_string())).unwrap();
    assert_eq!(m.uuid(), FIRST);
    assert_eq!(m.primary_key(), Some("id"));
    assert_eq!(m.created_at(), m.updated_at());
    assert!(m.created_at() > 0);
}

#[test]
fn second_create_fails_already_exists() {
    let first = create_decision_at(false, FIRST, Some("a".to_string()), 1).unwrap();
    let second = create_decision_at(true, FIRST, Some("b".to_string()), 2);
    assert!(matches!(second, Err(IndexError::IndexAlreadyExists)));
    assert_eq!(first.primary_key(), Some("a"));
    assert!(matches!(create_decision(true, FIRST, None), Err(IndexError::IndexAlreadyExists)));
}

#[test]
fn update_without_record_is_internal_error() {
    assert!(matches!(update_decision_at(None, 3), Err(IndexError::Error(_))));
    assert!(matches!(update_decision(None), Err(IndexError::Error(_))));
}

#[test]
fn five_updates_strictly_increase() {
    let mut m = create_decision_at(false, FIRST, None, 100).unwrap();
    let mut last = m.updated_at();
    for now in [101, 102, 105, 110, 111] {
        m = update_decision_at(Some(m), now).unwrap();
        assert!(m.updated_at() > last);
        assert_eq!(m.created_at(), 100);
        last = m.updated_at();
    }
    assert_eq!(last, 111);
}

#[test]
fn update_at_current_time_keeps_creation() {
    let m = IndexMeta::new(FIRST, Some("id".to_string()), 7);
    let u = update_decision(Some(m)).unwrap();
    assert_eq!(u.created_at(), 7);
    assert!(u.updated_at() > 7);
    assert_eq!(u.primary_key(), Some("id"));
}
