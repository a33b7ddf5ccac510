//! Encryption at rest of TOTP secrets with ChaCha20-Poly1305. A stored blob is
//! the 12-byte nonce followed by the ciphertext (tag appended).
use vstd::prelude::*;
use vstd::utf8::{decode_utf8, encode_utf8, valid_utf8, encode_utf8_valid_utf8, encode_utf8_decode_utf8};
use crate::error::{internal, AppError};
use chacha20poly1305::aead::{Aead, AeadCore, KeyInit, OsRng};
use chacha20poly1305::{ChaCha20Poly1305, Key, Nonce};

verus! {

/// The nonce length of ChaCha20-Poly1305.
pub const NONCE_LEN: usize = 12;

/// The ChaCha20-Poly1305 ciphertext, tag appended, of `plaintext` under `key`
/// and `nonce` (no associated data). It depends on its arguments alone.
pub uninterp spec fn aead_seal(key: Seq<u8>, nonce: Seq<u8>, plaintext: Seq<u8>) -> Seq<u8>;

/// What ChaCha20-Poly1305 decryption of `ciphertext` under `key` and `nonce`
/// gives: the plaintext when the tag verifies, `None` otherwise.
pub uninterp spec fn aead_open(key: Seq<u8>, nonce: Seq<u8>, ciphertext: Seq<u8>) -> Option<Seq<u8>>;

/// `ChaCha20Poly1305::generate_nonce(&mut OsRng)`: 12 random bytes; nothing is
/// claimed of their value.
#[verifier::external_body]
fn random_nonce() -> (res: [u8; 12]) {
    let n = ChaCha20Poly1305::generate_nonce(&mut OsRng);
    let mut a = [0u8; 12];
    a.copy_from_slice(n.as_slice());
    a
}

/// `Aead::encrypt` of ChaCha20-Poly1305 with `key` and `nonce`, its error
/// turned into `None`. The source refuses a plaintext of `u32::MAX` or more
/// 64-byte blocks and nothing else; the ciphertext is the plaintext's length
/// plus the 16-byte tag, and decrypting it with the same key and nonce gives
/// the plaintext back (the same keystream is applied, the same tag recomputed).
#[verifier::external_body]
fn chacha_encrypt(key: &[u8; 32], nonce: &[u8; 12], plaintext: &[u8]) -> (res: Option<Vec<u8>>)
    ensures
        (res is Some) == (plaintext@.len() / 64 < 0xffff_ffff),
        res matches Some(ct) ==> {
            &&& ct@ == aead_seal(key@, nonce@, plaintext@)
            &&& ct@.len() == plaintext@.len() + 16
            &&& aead_open(key@, nonce@, ct@) == Some(plaintext@)
        },
{
    ChaCha20Poly1305::new(Key::from_slice(key)).encrypt(Nonce::from_slice(nonce), plaintext).ok()
}

/// `Aead::decrypt` of ChaCha20-Poly1305 with `key` and `nonce`, its error
/// turned into `None`. A ciphertext shorter than the tag never opens.
#[verifier::external_body]
fn chacha_decrypt(key: &[u8; 32], nonce: &[u8; 12], ciphertext: &[u8]) -> (res: Option<Vec<u8>>)
    ensures
        res matches Some(pt) ==> aead_open(key@, nonce@, ciphertext@) == Some(pt@),
        res is None ==> aead_open(key@, nonce@, ciphertext@) is None,
        ciphertext@.len() < 16 ==> res is None,
{
    ChaCha20Poly1305::new(Key::from_slice(key)).decrypt(Nonce::from_slice(nonce), ciphertext).ok()
}

/// `String::from_utf8`, its error turned into `None`: the bytes decoded when
/// they are valid UTF-8.
#[verifier::external_body]
fn string_from_utf8(bytes: Vec<u8>) -> (res: Option<String>)
    ensures
        (res is Some) == valid_utf8(bytes@),
        res matches Some(s) ==> s@ == decode_utf8(bytes@),
{
    String::from_utf8(bytes).ok()
}

/// Whether `blob` is a stored encryption of the text `plaintext` under `key`.
pub open spec fn is_encryption_of(key: Seq<u8>, blob: Seq<u8>, plaintext: Seq<char>) -> bool {
    &&& blob.len() >= NONCE_LEN
    &&& blob.skip(NONCE_LEN as int) == aead_seal(key, blob.take(NONCE_LEN as int), encode_utf8(plaintext))
    &&& aead_open(key, blob.take(NONCE_LEN as int), blob.skip(NONCE_LEN as int)) == Some(
        encode_utf8(plaintext),
    )
}

/// What decrypting a stored `blob` under `key` gives: the text when the blob
/// holds a nonce, its ciphertext opens, and the plaintext is valid UTF-8.
pub open spec fn decrypt_spec(key: Seq<u8>, blob: Seq<u8>) -> Option<Seq<char>> {
    if blob.len() < NONCE_LEN {
        None
    } else {
        match aead_open(key, blob.take(NONCE_LEN as int), blob.skip(NONCE_LEN as int)) {
            Some(pt) => if valid_utf8(pt) {
                Some(decode_utf8(pt))
            } else {
                None
            },
            None => None,
        }
    }
}

/// AEAD wrapper for encrypting TOTP secrets at rest.
#[derive(Clone)]
pub struct MfaCipher {
    key: [u8; 32],
}

impl MfaCipher {
    /// The key bytes.
    pub closed spec fn key(&self) -> Seq<u8> {
        self.key@
    }

    /// A cipher keyed with `key`.
    pub fn new(key: [u8; 32]) -> (res: MfaCipher)
        ensures
            res.key() == key@,
    {
        MfaCipher { key }
    }

    /// Encrypts `plaintext` under a fresh random nonce: the blob is the nonce
    /// followed by the ciphertext. Refused only for a plaintext of 256 GiB or more.
    pub fn encrypt(&self, plaintext: &str) -> (res: Result<Vec<u8>, AppError>)
        ensures
            (res is Ok) == (encode_utf8(plaintext@).len() / 64 < 0xffff_ffff),
            res matches Ok(blob) ==> is_encryption_of(self.key(), blob@, plaintext@),
            res matches Ok(blob) ==> blob@.len() == NONCE_LEN + encode_utf8(plaintext@).len() + 16,
            res matches Err(e) ==> e is Internal,
    {
        let nonce = random_nonce();
        let bytes = plaintext.as_bytes();
        match chacha_encrypt(&self.key, &nonce, bytes) {
            Some(ct) => {
                let mut out: Vec<u8> = Vec::new();
                out.extend_from_slice(nonce.as_slice());
                out.extend_from_slice(ct.as_slice());
                assert(out@.take(NONCE_LEN as int) =~= nonce@);
                assert(out@.skip(NONCE_LEN as int) =~= ct@);
                Ok(out)
            },
            None => Err(internal("mfa encrypt failed")),
        }
    }

    /// Decrypts a stored blob back into the text it encrypts.
    pub fn decrypt(&self, blob: &[u8]) -> (res: Result<String, AppError>)
        ensures
            match decrypt_spec(self.key(), blob@) {
                Some(s) => res matches Ok(r) && r@ == s,
                None => res matches Err(e) && e is Internal,
            },
    {
        if blob.len() < NONCE_LEN {
            return Err(internal("mfa ciphertext too short"));
        }
        let (nonce_bytes, ct) = blob.split_at(NONCE_LEN);
        let mut nonce = [0u8; 12];
        let mut i: usize = 0;
        while i < NONCE_LEN
            invariant
                0 <= i <= NONCE_LEN,
                nonce_bytes@.len() == NONCE_LEN,
                forall|j: int| 0 <= j < i ==> nonce@[j] == nonce_bytes@[j],
            decreases NONCE_LEN - i,
        {
            nonce[i] = nonce_bytes[i];
            i = i + 1;
        }
        assert(nonce@ =~= blob@.take(NONCE_LEN as int));
        assert(ct@ =~= blob@.skip(NONCE_LEN as int));
        match chacha_decrypt(&self.key, &nonce, ct) {
            Some(pt) => match string_from_utf8(pt) {
                Some(s) => Ok(s),
                None => Err(internal("mfa plaintext is not utf-8")),
            },
            None => Err(internal("mfa decrypt failed")),
        }
    }
}

/// Decrypting what was encrypted gives the text back.
pub proof fn law_mfa_cipher_roundtrip(key: Seq<u8>, blob: Seq<u8>, plaintext: Seq<char>)
    requires
        is_encryption_of(key, blob, plaintext),
    ensures
        decrypt_spec(key, blob) == Some(plaintext),
{
    encode_utf8_valid_utf8(plaintext);
    encode_utf8_decode_utf8(plaintext);
}

} // verus!
