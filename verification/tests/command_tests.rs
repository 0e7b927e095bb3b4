use credstore::cipher::{generate_key, DecryptError};
use credstore::commands::{cmd_add, cmd_delete, cmd_get, cmd_modify, CommandError};
use credstore::store::RecordStore;

#[test]
fn end_to_end_add_get_modify_get_stale() {
    let key = generate_key();
    let mut store = RecordStore::new();

    let nonce = cmd_add(&mut store, &key, "bank", "s3cr3t").expect("add should succeed");

    let got = cmd_get(&store, &key, "bank", &nonce).expect("get should succeed");
    assert_eq!(got, "s3cr3t");

    let new_nonce =
        cmd_modify(&mut store, &key, "bank", "s3cr3t2", &nonce).expect("modify should succeed");

    let got2 = cmd_get(&store, &key, "bank", &new_nonce).expect("get with the new nonce");
    assert_eq!(got2, "s3cr3t2");

    // The stale nonce no longer authenticates the replaced payload.
    assert_eq!(
        cmd_get(&store, &key, "bank", &nonce),
        Err(CommandError::Decrypt(DecryptError::AuthenticationFailure))
    );
}

#[test]
fn empty_title_and_empty_password_are_rejected() {
    let key = generate_key();
    let mut store = RecordStore::new();

    assert_eq!(
        cmd_add(&mut store, &key, "", "p"),
        Err(CommandError::EmptyTitle)
    );
    assert_eq!(
        cmd_add(&mut store, &key, "t", ""),
        Err(CommandError::EmptyPassword)
    );
    assert_eq!(cmd_get(&store, &key, "t", "nonce"), Err(CommandError::NotFound));
}

#[test]
fn duplicate_add_conflicts_and_keeps_the_first_record() {
    let key = generate_key();
    let mut store = RecordStore::new();

    let nonce =
        cmd_add(&mut store, &key, "test_duplicate_cli", "test_password_123").expect("first add");

    assert_eq!(
        cmd_add(&mut store, &key, "test_duplicate_cli", "other_password"),
        Err(CommandError::Conflict)
    );

    // The first record is untouched and still decrypts with its nonce.
    let got = cmd_get(&store, &key, "test_duplicate_cli", &nonce).expect("get after conflict");
    assert_eq!(got, "test_password_123");
}

#[test]
fn get_of_missing_title_is_not_found() {
    let key = generate_key();
    let store = RecordStore::new();

    assert_eq!(
        cmd_get(&store, &key, "test_get", "AAAA"),
        Err(CommandError::NotFound)
    );
}

#[test]
fn modify_of_missing_title_is_not_found() {
    let key = generate_key();
    let mut store = RecordStore::new();

    assert_eq!(
        cmd_modify(&mut store, &key, "modify_test", "new_password", "AAAA"),
        Err(CommandError::NotFound)
    );
}

#[test]
fn modify_with_wrong_nonce_leaves_the_record_alone() {
    let key = generate_key();
    let mut store = RecordStore::new();

    let nonce = cmd_add(&mut store, &key, "modify_test", "old_password").expect("add");

    let wrong_nonce = base64::encode([1u8; 24]);
    let result = cmd_modify(&mut store, &key, "modify_test", "new_password", &wrong_nonce);
    assert_eq!(
        result,
        Err(CommandError::Decrypt(DecryptError::AuthenticationFailure))
    );

    // The old nonce still decrypts the unchanged payload.
    let got = cmd_get(&store, &key, "modify_test", &nonce).expect("get after failed modify");
    assert_eq!(got, "old_password");
}

#[test]
fn delete_requires_the_current_nonce() {
    let key = generate_key();
    let mut store = RecordStore::new();

    let nonce = cmd_add(&mut store, &key, "delete_test", "delete_password").expect("add");

    let wrong_nonce = base64::encode([1u8; 24]);
    assert_eq!(
        cmd_delete(&mut store, &key, "delete_test", &wrong_nonce),
        Err(CommandError::Decrypt(DecryptError::AuthenticationFailure))
    );
    assert!(cmd_get(&store, &key, "delete_test", &nonce).is_ok());

    assert_eq!(cmd_delete(&mut store, &key, "delete_test", &nonce), Ok(()));
    assert_eq!(
        cmd_get(&store, &key, "delete_test", &nonce),
        Err(CommandError::NotFound)
    );
    assert_eq!(
        cmd_delete(&mut store, &key, "delete_test", &nonce),
        Err(CommandError::NotFound)
    );
}

#[test]
fn reset_all_forgets_every_record() {
    let key = generate_key();
    let mut store = RecordStore::new();

    let nonce = cmd_add(&mut store, &key, "a", "p").expect("add");
    store.reset_all();

    assert_eq!(
        cmd_get(&store, &key, "a", &nonce),
        Err(CommandError::NotFound)
    );
}
