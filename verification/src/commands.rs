//! The decisions behind each command of the credential manager: validate
//! the inputs, encrypt or verify, and drive the record store. Argument
//! parsing and printing stay with the caller, which hands in plain values.

use crate::cipher::{decrypt_model, decrypt_password, encrypt_password, encrypts_to, DecryptError, Key};
use crate::store::RecordStore;
use vstd::prelude::*;

verus! {

/// Why a command failed.
#[derive(Clone, Copy, Debug, PartialEq, Eq)]
pub enum CommandError {
    /// The title is empty; nothing was stored.
    EmptyTitle,
    /// The password is empty; nothing was stored.
    EmptyPassword,
    /// A record with the given title already exists.
    Conflict,
    /// No record with the given title exists.
    NotFound,
    /// The stored or supplied texts failed to decode, authenticate or
    /// decrypt; the record, if the command would change it, is untouched.
    Decrypt(DecryptError),
}

/// The add command: reject an empty title or password, encrypt the password
/// under a fresh nonce, and insert the ciphertext text under the title.
/// Returns the nonce text, which the caller must retain to decrypt later.
pub fn cmd_add(store: &mut RecordStore, key: &Key, title: &str, password: &str) -> (r: Result<
    String,
    CommandError,
>)
    requires
        old(store).wf(),
        key.wf(),
    ensures
        final(store).wf(),
        (r is Ok) == (title@.len() > 0 && password@.len() > 0 && !old(store).contains_title(title@)),
        title@.len() == 0 ==> r == Err::<String, CommandError>(CommandError::EmptyTitle) && *final(store) == *old(store),
        title@.len() > 0 && password@.len() == 0 ==> r == Err::<String, CommandError>(
            CommandError::EmptyPassword,
        ) && *final(store) == *old(store),
        title@.len() > 0 && password@.len() > 0 && old(store).contains_title(title@) ==> r == Err::<
            String,
            CommandError,
        >(CommandError::Conflict) && *final(store) == *old(store),
        r is Ok ==> {
            &&& final(store).contains_title(title@)
            &&& encrypts_to(final(store).payload_of(title@), r->Ok_0@, key@, password@)
            &&& forall|t: Seq<char>|
                t != title@ ==> final(store).contains_title(t) == old(store).contains_title(t)
            &&& forall|t: Seq<char>|
                t != title@ && old(store).contains_title(t) ==> final(store).payload_of(t) == old(
                    store,
                ).payload_of(t) && final(store).id_of(t) == old(store).id_of(t)
        },
{
    if title.is_empty() {
        return Err(CommandError::EmptyTitle);
    }
    if password.is_empty() {
        return Err(CommandError::EmptyPassword);
    }
    let (ciphertext_text, nonce_text) = encrypt_password(password, key);
    match store.add_password(title, ciphertext_text.as_str()) {
        Ok(()) => Ok(nonce_text),
        Err(_) => Err(CommandError::Conflict),
    }
}

/// The get command: look the title up and decrypt the stored ciphertext
/// text with the supplied nonce text. The store is not changed; a missing
/// title is `NotFound`, and a failing decryption carries its exact cause.
pub fn cmd_get(store: &RecordStore, key: &Key, title: &str, nonce_text: &str) -> (r: Result<
    String,
    CommandError,
>)
    requires
        store.wf(),
        key.wf(),
    ensures
        !store.contains_title(title@) ==> r == Err::<String, CommandError>(CommandError::NotFound),
        store.contains_title(title@) ==> {
            let model = decrypt_model(store.payload_of(title@), nonce_text@, key@);
            &&& (r is Ok) == (model is Ok)
            &&& r is Ok ==> r->Ok_0@ == model->Ok_0
            &&& model is Err ==> r == Err::<String, CommandError>(
                CommandError::Decrypt(model->Err_0),
            )
        },
{
    let encrypted = match store.get_password(title) {
        Some(e) => e,
        None => {
            return Err(CommandError::NotFound);
        },
    };
    match decrypt_password(encrypted.as_str(), nonce_text, key) {
        Ok(plaintext) => Ok(plaintext),
        Err(e) => Err(CommandError::Decrypt(e)),
    }
}

/// The modify command: prove possession of the current nonce by decrypting
/// the stored ciphertext, then encrypt the new password under a fresh nonce
/// and replace the payload in place, keeping the record's identifier.
/// Returns the new nonce text; the old nonce is useless afterwards.
pub fn cmd_modify(
    store: &mut RecordStore,
    key: &Key,
    title: &str,
    new_password: &str,
    nonce_text: &str,
) -> (r: Result<String, CommandError>)
    requires
        old(store).wf(),
        key.wf(),
    ensures
        final(store).wf(),
        !old(store).contains_title(title@) ==> r == Err::<String, CommandError>(
            CommandError::NotFound,
        ) && *final(store) == *old(store),
        old(store).contains_title(title@) ==> {
            let model = decrypt_model(old(store).payload_of(title@), nonce_text@, key@);
            &&& (r is Ok) == (model is Ok)
            &&& model is Err ==> r == Err::<String, CommandError>(
                CommandError::Decrypt(model->Err_0),
            ) && *final(store) == *old(store)
            &&& model is Ok ==> {
                &&& final(store).contains_title(title@)
                &&& encrypts_to(final(store).payload_of(title@), r->Ok_0@, key@, new_password@)
                &&& final(store).id_of(title@) == old(store).id_of(title@)
                &&& forall|t: Seq<char>|
                    t != title@ ==> final(store).contains_title(t) == old(store).contains_title(t)
                &&& forall|t: Seq<char>|
                    t != title@ && old(store).contains_title(t) ==> final(store).payload_of(t)
                        == old(store).payload_of(t) && final(store).id_of(t) == old(store).id_of(t)
            }
        },
{
    let encrypted = match store.get_password(title) {
        Some(e) => e,
        None => {
            return Err(CommandError::NotFound);
        },
    };
    match decrypt_password(encrypted.as_str(), nonce_text, key) {
        Ok(_) => {},
        Err(e) => {
            return Err(CommandError::Decrypt(e));
        },
    }
    let (new_ciphertext_text, new_nonce_text) = encrypt_password(new_password, key);
    match store.update_password(title, new_ciphertext_text.as_str()) {
        Ok(()) => Ok(new_nonce_text),
        Err(_) => Err(CommandError::NotFound),
    }
}

/// The delete command: prove possession of the current nonce by decrypting
/// the stored ciphertext, then remove the record.
pub fn cmd_delete(store: &mut RecordStore, key: &Key, title: &str, nonce_text: &str) -> (r: Result<
    (),
    CommandError,
>)
    requires
        old(store).wf(),
        key.wf(),
    ensures
        final(store).wf(),
        !old(store).contains_title(title@) ==> r == Err::<(), CommandError>(CommandError::NotFound)
            && *final(store) == *old(store),
        old(store).contains_title(title@) ==> {
            let model = decrypt_model(old(store).payload_of(title@), nonce_text@, key@);
            &&& (r is Ok) == (model is Ok)
            &&& model is Err ==> r == Err::<(), CommandError>(CommandError::Decrypt(model->Err_0))
                && *final(store) == *old(store)
            &&& model is Ok ==> {
                &&& !final(store).contains_title(title@)
                &&& forall|t: Seq<char>|
                    t != title@ ==> final(store).contains_title(t) == old(store).contains_title(t)
                &&& forall|t: Seq<char>|
                    t != title@ && old(store).contains_title(t) ==> final(store).payload_of(t)
                        == old(store).payload_of(t) && final(store).id_of(t) == old(store).id_of(t)
            }
        },
{
    let encrypted = match store.get_password(title) {
        Some(e) => e,
        None => {
            return Err(CommandError::NotFound);
        },
    };
    match decrypt_password(encrypted.as_str(), nonce_text, key) {
        Ok(_) => {},
        Err(e) => {
            return Err(CommandError::Decrypt(e));
        },
    }
    match store.delete_password(title) {
        Ok(()) => Ok(()),
        Err(_) => Err(CommandError::NotFound),
    }
}

} // verus!
