use credstore::store::{RecordStore, StoreError};

#[test]
fn test_create_table() {
    // Creating a fresh, empty store must not fail.
    let _store = RecordStore::new();
    assert!(true, "Table creation should not fail.");
}

#[test]
fn test_add_and_retrieve_password() {
    let mut store = RecordStore::new();

    let title = "test_entry";
    let encrypted_password = "test_encrypted_password";

    let result = store.add_password(title, encrypted_password);
    assert!(result.is_ok(), "Failed to add password: {:?}", result.err());

    let retrieved_password = store.get_password(title);
    assert_eq!(
        retrieved_password,
        Some(encrypted_password.to_string()),
        "Retrieved password does not match the expected value."
    );
}

#[test]
fn test_retrieve_nonexistent_password() {
    let store = RecordStore::new();

    let title = "nonexistent_title";
    let result = store.get_password(title);

    assert_eq!(
        result, None,
        "Expected None for nonexistent password, but got {:?}",
        result
    );
}

#[test]
fn test_duplicate_password() {
    let mut store = RecordStore::new();

    let title = "duplicate_entry";
    let encrypted_password = "test_password";

    let result1 = store.add_password(title, encrypted_password);
    assert!(
        result1.is_ok(),
        "Failed to add first password: {:?}",
        result1.err()
    );

    let result2 = store.add_password(title, encrypted_password);
    assert!(
        result2.is_err(),
        "Adding a duplicate password should fail, but succeeded."
    );
}

#[test]
fn test_clean_database() {
    let mut store = RecordStore::new();

    let title = "clean_test_entry";
    let encrypted_password = "test_password";
    let result = store.add_password(title, encrypted_password);
    assert!(
        result.is_ok(),
        "Failed to add password before cleaning: {:?}",
        result.err()
    );

    store.reset_all();

    let retrieved_password = store.get_password(title);
    assert_eq!(
        retrieved_password,
        None,
        "Expected database to be empty after cleaning, but found data."
    );
}

#[test]
fn conflicting_add_keeps_first_payload() {
    let mut store = RecordStore::new();

    assert_eq!(store.add_password("x", "c1"), Ok(()));
    assert_eq!(store.add_password("x", "c2"), Err(StoreError::Conflict));

    assert_eq!(store.get_password("x"), Some("c1".to_string()));
}

#[test]
fn update_and_delete_of_missing_title_report_not_found() {
    let mut store = RecordStore::new();
    store.add_password("present", "c0").unwrap();

    assert_eq!(store.update_password("missing", "c"), Err(StoreError::NotFound));
    assert_eq!(store.delete_password("missing"), Err(StoreError::NotFound));
    assert_eq!(store.get_password("missing"), None);

    // The failures touched nothing.
    assert_eq!(store.get_password("present"), Some("c0".to_string()));
}

#[test]
fn update_replaces_payload_in_place() {
    let mut store = RecordStore::new();
    store.add_password("a", "first").unwrap();
    store.add_password("b", "other").unwrap();

    assert_eq!(store.update_password("a", "second"), Ok(()));
    assert_eq!(store.get_password("a"), Some("second".to_string()));
    assert_eq!(store.get_password("b"), Some("other".to_string()));
}

#[test]
fn delete_removes_only_the_named_record() {
    let mut store = RecordStore::new();
    store.add_password("a", "ca").unwrap();
    store.add_password("b", "cb").unwrap();

    assert_eq!(store.delete_password("a"), Ok(()));
    assert_eq!(store.get_password("a"), None);
    assert_eq!(store.get_password("b"), Some("cb".to_string()));

    // A fresh add under the deleted title succeeds again.
    assert_eq!(store.add_password("a", "ca2"), Ok(()));
    assert_eq!(store.get_password("a"), Some("ca2".to_string()));
}

#[test]
fn reset_all_empties_the_store_and_accepts_new_adds() {
    let mut store = RecordStore::new();
    store.add_password("a", "c").unwrap();

    store.reset_all();
    assert_eq!(store.get_password("a"), None);

    // Idempotent, and ready for new records.
    store.reset_all();
    assert_eq!(store.add_password("a", "c2"), Ok(()));
    assert_eq!(store.get_password("a"), Some("c2".to_string()));
}

#[test]
fn titles_match_exactly_and_case_sensitively() {
    let mut store = RecordStore::new();
    store.add_password("Bank", "c1").unwrap();

    assert_eq!(store.get_password("bank"), None);
    assert_eq!(store.get_password("Bank "), None);
    assert_eq!(store.add_password("bank", "c2"), Ok(()));
    assert_eq!(store.get_password("Bank"), Some("c1".to_string()));
    assert_eq!(store.get_password("bank"), Some("c2".to_string()));
}
