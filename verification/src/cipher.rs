//! The cipher: stateless authenticated encryption and decryption of
//! passwords, with a fresh random nonce per encryption and base64 text
//! encoding of both ciphertext and nonce.

use crate::encoding::{b64_decode, b64_decoded, b64_encode, bytes_to_string};
use crate::sodium::{
    gen_key_bytes, gen_nonce_bytes, open_bytes, opened_of, seal_bytes, sealed_of, KEY_LEN,
    NONCE_LEN,
};
use vstd::prelude::*;
use vstd::utf8::{decode_utf8, encode_utf8, valid_utf8};

verus! {

/// A symmetric encryption key of the primitive's required length.
pub struct Key {
    bytes: Vec<u8>,
}

impl View for Key {
    type V = Seq<u8>;

    closed spec fn view(&self) -> Seq<u8> {
        self.bytes@
    }
}

impl Key {
    /// A valid key has exactly the required byte length.
    pub open spec fn wf(&self) -> bool {
        self@.len() == KEY_LEN
    }

    /// A key from caller-supplied secret bytes: one derived from a
    /// passphrase, or one read back from a protected key file.
    pub fn from_bytes(bytes: Vec<u8>) -> (k: Key)
        requires
            bytes@.len() == KEY_LEN,
        ensures
            k.wf(),
            k@ == bytes@,
    {
        Key { bytes }
    }
}

/// A fresh random key for the session. Callers must retain the key bytes
/// themselves if ciphertexts are to outlive the session.
pub fn generate_key() -> (k: Key)
    ensures
        k.wf(),
{
    Key { bytes: gen_key_bytes() }
}

/// Why a decryption failed.
#[derive(Clone, Copy, Debug, PartialEq, Eq)]
pub enum DecryptError {
    /// The ciphertext text or the nonce text is not valid base64.
    DecodeError,
    /// The nonce decodes to bytes of the wrong length.
    MalformedNonce,
    /// Authenticated decryption failed: wrong key, wrong nonce, or a
    /// tampered ciphertext.
    AuthenticationFailure,
    /// The decrypted bytes do not form valid text.
    InvalidUtf8,
}

/// The relation `encrypt_password` establishes between its result and its inputs:
/// the two returned texts encode, in base64, a nonce of the required length
/// and the authenticated ciphertext of the plaintext's bytes under that
/// nonce and the key, and the primitive decrypts that ciphertext back to
/// exactly those bytes.
pub open spec fn encrypts_to(
    ciphertext_text: Seq<char>,
    nonce_text: Seq<char>,
    key: Seq<u8>,
    plaintext: Seq<char>,
) -> bool {
    exists|n: Seq<u8>|
        #![trigger sealed_of(encode_utf8(plaintext), n, key)]
        {
            &&& n.len() == NONCE_LEN
            &&& b64_decoded(nonce_text) == Some(n)
            &&& b64_decoded(ciphertext_text) == Some(sealed_of(encode_utf8(plaintext), n, key))
            &&& opened_of(sealed_of(encode_utf8(plaintext), n, key), n, key) == Some(
                encode_utf8(plaintext),
            )
        }
}

/// What `decrypt_password` returns, step by step: decode both texts from base64,
/// check the nonce length, verify and decrypt, and decode the recovered
/// bytes as text; the first step to fail names the error.
pub open spec fn decrypt_model(
    ciphertext_text: Seq<char>,
    nonce_text: Seq<char>,
    key: Seq<u8>,
) -> Result<Seq<char>, DecryptError> {
    if b64_decoded(ciphertext_text) is None || b64_decoded(nonce_text) is None {
        Err(DecryptError::DecodeError)
    } else {
        let c = b64_decoded(ciphertext_text)->0;
        let n = b64_decoded(nonce_text)->0;
        if n.len() != NONCE_LEN {
            Err(DecryptError::MalformedNonce)
        } else if opened_of(c, n, key) is None {
            Err(DecryptError::AuthenticationFailure)
        } else if !valid_utf8(opened_of(c, n, key)->0) {
            Err(DecryptError::InvalidUtf8)
        } else {
            Ok(decode_utf8(opened_of(c, n, key)->0))
        }
    }
}

/// Encrypt a plaintext under a key with a fresh random nonce. Returns the
/// base64 text of the ciphertext and of the nonce; both are needed to
/// decrypt. Never fails.
pub fn encrypt_password(plaintext: &str, key: &Key) -> (r: (String, String))
    requires
        key.wf(),
    ensures
        encrypts_to(r.0@, r.1@, key@, plaintext@),
{
    let nonce = gen_nonce_bytes();
    let message = plaintext.as_bytes();
    let ciphertext = seal_bytes(message, nonce.as_slice(), key.bytes.as_slice());
    let ciphertext_text = b64_encode(ciphertext.as_slice());
    let nonce_text = b64_encode(nonce.as_slice());
    proof {
        assert(message@ == encode_utf8(plaintext@));
        assert(ciphertext@ == sealed_of(encode_utf8(plaintext@), nonce@, key@));
        assert(encrypts_to(ciphertext_text@, nonce_text@, key@, plaintext@));
    }
    (ciphertext_text, nonce_text)
}

/// Decrypt a ciphertext/nonce text pair under a key. Succeeds exactly when
/// both texts decode, the nonce has the required length, the ciphertext
/// authenticates under the nonce and key, and the recovered bytes form
/// valid text; and then the ciphertext is, byte for byte, the encryption of
/// the returned plaintext under that nonce and key, so a tampered
/// ciphertext can never decrypt silently to a different plaintext.
pub fn decrypt_password(ciphertext_text: &str, nonce_text: &str, key: &Key) -> (r: Result<
    String,
    DecryptError,
>)
    requires
        key.wf(),
    ensures
        (r is Ok) == (decrypt_model(ciphertext_text@, nonce_text@, key@) is Ok),
        r is Ok ==> r->Ok_0@ == decrypt_model(ciphertext_text@, nonce_text@, key@)->Ok_0,
        r is Err ==> r->Err_0 == decrypt_model(ciphertext_text@, nonce_text@, key@)->Err_0,
        r is Ok ==> encrypts_to(ciphertext_text@, nonce_text@, key@, r->Ok_0@),
{
    let ciphertext = match b64_decode(ciphertext_text) {
        Ok(c) => c,
        Err(_) => {
            return Err(DecryptError::DecodeError);
        },
    };
    let nonce = match b64_decode(nonce_text) {
        Ok(n) => n,
        Err(_) => {
            return Err(DecryptError::DecodeError);
        },
    };
    if nonce.len() != NONCE_LEN {
        return Err(DecryptError::MalformedNonce);
    }
    let message = match open_bytes(ciphertext.as_slice(), nonce.as_slice(), key.bytes.as_slice()) {
        Ok(m) => m,
        Err(_) => {
            return Err(DecryptError::AuthenticationFailure);
        },
    };
    let ghost message_bytes = message@;
    match bytes_to_string(message) {
        Ok(plaintext) => {
            proof {
                vstd::utf8::decode_utf8_encode_utf8(message_bytes);
                assert(encode_utf8(plaintext@) == message_bytes);
                assert(ciphertext@ == sealed_of(encode_utf8(plaintext@), nonce@, key@));
                assert(encrypts_to(ciphertext_text@, nonce_text@, key@, plaintext@));
            }
            Ok(plaintext)
        },
        Err(_) => Err(DecryptError::InvalidUtf8),
    }
}

/// Round trip: every ciphertext/nonce text pair that `encrypt_password` can
/// return for a plaintext under a key decrypts back to exactly that plaintext
/// under the same key.
pub proof fn lemma_round_trip(
    ciphertext_text: Seq<char>,
    nonce_text: Seq<char>,
    key: Seq<u8>,
    plaintext: Seq<char>,
)
    requires
        encrypts_to(ciphertext_text, nonce_text, key, plaintext),
    ensures
        decrypt_model(ciphertext_text, nonce_text, key) == Ok::<Seq<char>, DecryptError>(
            plaintext,
        ),
{
    let n = choose|n: Seq<u8>|
        #![trigger sealed_of(encode_utf8(plaintext), n, key)]
        {
            &&& n.len() == NONCE_LEN
            &&& b64_decoded(nonce_text) == Some(n)
            &&& b64_decoded(ciphertext_text) == Some(sealed_of(encode_utf8(plaintext), n, key))
            &&& opened_of(sealed_of(encode_utf8(plaintext), n, key), n, key) == Some(
                encode_utf8(plaintext),
            )
        };
    vstd::utf8::encode_utf8_valid_utf8(plaintext);
    vstd::utf8::encode_utf8_decode_utf8(plaintext);
    assert(decrypt_model(ciphertext_text, nonce_text, key) == Ok::<Seq<char>, DecryptError>(
        plaintext,
    ));
}

} // verus!
