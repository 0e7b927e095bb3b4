//! The authenticated-encryption primitive, through sodiumoxide's secretbox
//! (XSalsa20-Poly1305).

use vstd::prelude::*;

verus! {

/// Byte length of a secretbox key.
pub const KEY_LEN: usize = 32;

/// Byte length of a secretbox nonce.
pub const NONCE_LEN: usize = 24;

/// The ciphertext that secretbox produces for a message under a nonce and a
/// key: a function of those three alone.
pub uninterp spec fn sealed_of(message: Seq<u8>, nonce: Seq<u8>, key: Seq<u8>) -> Seq<u8>;

/// What secretbox authenticated decryption returns for a ciphertext under a
/// nonce and a key: the message, or nothing when verification fails.
pub uninterp spec fn opened_of(ciphertext: Seq<u8>, nonce: Seq<u8>, key: Seq<u8>) -> Option<Seq<u8>>;

/// Relies on sodiumoxide::crypto::secretbox::seal: the ciphertext is a
/// function of message, nonce and key alone, and secretbox::open verifies
/// and decrypts it back to the message under the same nonce and key.
#[verifier::external_body]
pub(crate) fn seal_bytes(message: &[u8], nonce: &[u8], key: &[u8]) -> (r: Vec<u8>)
    requires
        nonce@.len() == NONCE_LEN,
        key@.len() == KEY_LEN,
    ensures
        r@ == sealed_of(message@, nonce@, key@),
        opened_of(r@, nonce@, key@) == Some(message@),
{
    let n = sodiumoxide::crypto::secretbox::Nonce::from_slice(nonce).unwrap();
    let k = sodiumoxide::crypto::secretbox::Key::from_slice(key).unwrap();
    sodiumoxide::crypto::secretbox::seal(message, &n, &k)
}

/// Relies on sodiumoxide::crypto::secretbox::open: the result is a function
/// of ciphertext, nonce and key alone; it succeeds only when the Poly1305
/// tag verifies, and then sealing the returned message under the same nonce
/// and key reproduces the ciphertext byte for byte.
#[verifier::external_body]
pub(crate) fn open_bytes(ciphertext: &[u8], nonce: &[u8], key: &[u8]) -> (r: Result<Vec<u8>, ()>)
    requires
        nonce@.len() == NONCE_LEN,
        key@.len() == KEY_LEN,
    ensures
        (r is Ok) == (opened_of(ciphertext@, nonce@, key@) is Some),
        r is Ok ==> opened_of(ciphertext@, nonce@, key@) == Some(r->Ok_0@),
        r is Ok ==> ciphertext@ == sealed_of(r->Ok_0@, nonce@, key@),
{
    let n = sodiumoxide::crypto::secretbox::Nonce::from_slice(nonce).unwrap();
    let k = sodiumoxide::crypto::secretbox::Key::from_slice(key).unwrap();
    sodiumoxide::crypto::secretbox::open(ciphertext, &n, &k)
}

/// Relies on sodiumoxide::crypto::secretbox::gen_nonce: a random nonce of
/// the primitive's required length; nothing is promised of its value.
#[verifier::external_body]
pub(crate) fn gen_nonce_bytes() -> (r: Vec<u8>)
    ensures
        r@.len() == NONCE_LEN,
{
    sodiumoxide::crypto::secretbox::gen_nonce().0.to_vec()
}

/// Relies on sodiumoxide::crypto::secretbox::gen_key: a random key of the
/// primitive's required length; nothing is promised of its value.
#[verifier::external_body]
pub(crate) fn gen_key_bytes() -> (r: Vec<u8>)
    ensures
        r@.len() == KEY_LEN,
{
    sodiumoxide::crypto::secretbox::gen_key().0.to_vec()
}

} // verus!
