//! Tokens at rest: sealed with AES-256-GCM under a locally kept key, each
//! with a fresh nonce stored in front of the ciphertext.
use vstd::prelude::*;
use vstd::utf8::{decode_utf8, encode_utf8, valid_utf8};
use aes_gcm::aead::{Aead, KeyInit};

verus! {

/// The length of a nonce, stored in front of each ciphertext.
pub const NONCE_SIZE: usize = 12;

/// The length of a key.
pub const KEY_SIZE: usize = 32;

/// The length of the authentication tag that follows each ciphertext.
pub const TAG_SIZE: usize = 16;

/// The longest plaintext the cipher seals, in bytes.
pub const MAX_PLAINTEXT: u64 = 68719476736;

/// The failures of sealing and opening tokens.
#[derive(Debug)]
pub enum CryptoError {
    EncryptionFailed,
    DecryptionFailed,
    InvalidFormat,
    KeychainError(String),
}

/// What AES-256-GCM produces for a key, a nonce and a plaintext: the
/// ciphertext followed by its tag.
pub uninterp spec fn aes_gcm_seal(key: Seq<u8>, nonce: Seq<u8>, plaintext: Seq<u8>) -> Seq<u8>;

/// What AES-256-GCM opens a sealed text to under a key and a nonce, if it
/// authenticates.
pub uninterp spec fn aes_gcm_open(key: Seq<u8>, nonce: Seq<u8>, sealed: Seq<u8>) -> Option<Seq<u8>>;

/// The bytes of an optional byte vector.
pub open spec fn opt_bytes(o: Option<Vec<u8>>) -> Option<Seq<u8>> {
    match o {
        Some(v) => Some(v@),
        None => None,
    }
}

/// Relies on aes_gcm's Aes256Gcm (KeyInit::new_from_slice, which accepts a
/// 32-byte key, and Aead::encrypt): a plaintext of at most 2^36 bytes is
/// sealed to a ciphertext of its length followed by a 16-byte tag, longer
/// ones are refused; the result depends on the inputs alone.
#[verifier::external_body]
fn seal(key: &[u8], nonce: &[u8], plaintext: &[u8]) -> (r: Option<Vec<u8>>)
    requires
        key@.len() == KEY_SIZE,
        nonce@.len() == NONCE_SIZE,
    ensures
        plaintext@.len() <= MAX_PLAINTEXT ==> opt_bytes(r) == Some(aes_gcm_seal(key@, nonce@, plaintext@)),
        match r {
            Some(c) => c@.len() == plaintext@.len() + TAG_SIZE,
            None => true,
        },
        plaintext@.len() > MAX_PLAINTEXT ==> r is None,
{
    let cipher = aes_gcm::Aes256Gcm::new_from_slice(key).ok()?;
    cipher.encrypt(aes_gcm::Nonce::from_slice(nonce), plaintext).ok()
}

/// Relies on aes_gcm's Aes256Gcm (KeyInit::new_from_slice and
/// Aead::decrypt): the result depends on the inputs alone, and what
/// Aead::encrypt sealed under the same key and nonce opens to its plaintext.
#[verifier::external_body]
fn open(key: &[u8], nonce: &[u8], sealed: &[u8]) -> (r: Option<Vec<u8>>)
    requires
        key@.len() == KEY_SIZE,
        nonce@.len() == NONCE_SIZE,
    ensures
        opt_bytes(r) == aes_gcm_open(key@, nonce@, sealed@),
        forall|p: Seq<u8>|
            p.len() <= MAX_PLAINTEXT && sealed@ == aes_gcm_seal(key@, nonce@, p) ==> opt_bytes(r)
                == Some(p),
{
    let cipher = aes_gcm::Aes256Gcm::new_from_slice(key).ok()?;
    cipher.decrypt(aes_gcm::Nonce::from_slice(nonce), sealed).ok()
}

/// Relies on rand::rng and RngCore::fill_bytes: twelve bytes from the
/// thread's generator, of which nothing else is promised.
#[verifier::external_body]
fn random_nonce() -> (r: Vec<u8>)
    ensures
        r@.len() == NONCE_SIZE,
{
    let mut nonce = [0u8; NONCE_SIZE];
    rand::RngCore::fill_bytes(&mut rand::rng(), &mut nonce);
    nonce.to_vec()
}

/// Relies on String::from_utf8: the text of valid UTF-8 bytes, and an error
/// for anything else.
#[verifier::external_body]
fn utf8_text(bytes: Vec<u8>) -> (r: Option<String>)
    ensures
        valid_utf8(bytes@) ==> crate::json::opt_view(r) == Some(decode_utf8(bytes@)),
        !valid_utf8(bytes@) ==> r is None,
{
    String::from_utf8(bytes).ok()
}

/// A hexadecimal digit, in either case.
pub open spec fn is_hex_digit(c: char) -> bool {
    ('0' <= c && c <= '9') || ('a' <= c && c <= 'f') || ('A' <= c && c <= 'F')
}

/// The value of a hexadecimal digit.
pub open spec fn hex_value(c: char) -> int {
    if '0' <= c && c <= '9' {
        c as int - '0' as int
    } else if 'a' <= c && c <= 'f' {
        c as int - 'a' as int + 10
    } else {
        c as int - 'A' as int + 10
    }
}

/// An even number of hexadecimal digits.
pub open spec fn is_hex_text(s: Seq<char>) -> bool {
    s.len() % 2 == 0 && forall|i: int| 0 <= i < s.len() ==> is_hex_digit(#[trigger] s[i])
}

/// The bytes that pairs of hexadecimal digits stand for, high digit first.
pub open spec fn hex_bytes(s: Seq<char>) -> Seq<u8> {
    Seq::new((s.len() / 2) as nat, |i: int| (16 * hex_value(s[2 * i]) + hex_value(s[2 * i + 1])) as u8)
}

/// Relies on hex::decode: an even number of hexadecimal digits decodes to
/// one byte per pair, and anything else is an error.
#[verifier::external_body]
fn hex_decode(s: &str) -> (r: Option<Vec<u8>>)
    ensures
        r is Some <==> is_hex_text(s@),
        r matches Some(b) ==> b@ == hex_bytes(s@),
{
    hex::decode(s).ok()
}

/// Reads a stored key: InvalidFormat unless the text is the hexadecimal
/// form of exactly 32 bytes.
pub fn key_from_hex(text: &str) -> (r: Result<Vec<u8>, CryptoError>)
    ensures
        match r {
            Ok(k) => is_hex_text(text@) && hex_bytes(text@).len() == KEY_SIZE && k@ == hex_bytes(text@),
            Err(e) => (!is_hex_text(text@) || hex_bytes(text@).len() != KEY_SIZE) && e is InvalidFormat,
        },
{
    match hex_decode(text) {
        Some(k) => if k.len() == KEY_SIZE {
            Ok(k)
        } else {
            Err(CryptoError::InvalidFormat)
        },
        None => Err(CryptoError::InvalidFormat),
    }
}

/// Seals and opens tokens under one key.
pub struct TokenCrypto {
    key: Vec<u8>,
}

/// `encrypted` is a nonce followed by the sealing of `text` under `key`
/// with that nonce: the ciphertext and its tag.
pub open spec fn sealed_form(key: Seq<u8>, encrypted: Seq<u8>, text: Seq<char>) -> bool {
    encrypted.len() == NONCE_SIZE + encode_utf8(text).len() + TAG_SIZE && encrypted.skip(NONCE_SIZE as int) == aes_gcm_seal(
        key,
        encrypted.take(NONCE_SIZE as int),
        encode_utf8(text),
    )
}

/// What opening `encrypted` under `key` gives: InvalidFormat when it is
/// shorter than a nonce, DecryptionFailed when it does not authenticate or
/// is not UTF-8 text, else the text.
pub open spec fn opened(key: Seq<u8>, encrypted: Seq<u8>) -> Result<Seq<char>, CryptoError> {
    if encrypted.len() < NONCE_SIZE {
        Err(CryptoError::InvalidFormat)
    } else {
        match aes_gcm_open(key, encrypted.take(NONCE_SIZE as int), encrypted.skip(NONCE_SIZE as int)) {
            None => Err(CryptoError::DecryptionFailed),
            Some(p) => if valid_utf8(p) {
                Ok(decode_utf8(p))
            } else {
                Err(CryptoError::DecryptionFailed)
            },
        }
    }
}

impl TokenCrypto {
    /// The key tokens are sealed under.
    pub closed spec fn key(&self) -> Seq<u8> {
        self.key@
    }

    /// The key has the cipher's length.
    pub closed spec fn wf(&self) -> bool {
        self.key@.len() == KEY_SIZE
    }

    /// A sealer for `key`: EncryptionFailed unless it is 32 bytes long.
    pub fn new(key: &[u8]) -> (r: Result<TokenCrypto, CryptoError>)
        ensures
            match r {
                Ok(c) => c.wf() && c.key() == key@,
                Err(e) => key@.len() != KEY_SIZE && e is EncryptionFailed,
            },
    {
        if key.len() != KEY_SIZE {
            return Err(CryptoError::EncryptionFailed);
        }
        let mut k: Vec<u8> = Vec::new();
        let mut i: usize = 0;
        while i < key.len()
            invariant
                0 <= i <= key@.len(),
                k@ == key@.take(i as int),
            decreases key@.len() - i,
        {
            k.push(key[i]);
            assert(key@.take(i + 1) =~= key@.take(i as int).push(key@[i as int]));
            i += 1;
        }
        assert(key@.take(key@.len() as int) =~= key@);
        Ok(TokenCrypto { key: k })
    }

    /// Seals a token under a fresh random nonce: the nonce followed by the
    /// ciphertext and tag. EncryptionFailed only for texts over the cipher's
    /// limit of 2^36 bytes.
    pub fn encrypt(&self, plaintext: &str) -> (r: Result<Vec<u8>, CryptoError>)
        requires
            self.wf(),
        ensures
            match r {
                Ok(b) => sealed_form(self.key(), b@, plaintext@),
                Err(e) => encode_utf8(plaintext@).len() > MAX_PLAINTEXT && e is EncryptionFailed,
            },
    {
        let nonce = random_nonce();
        let bytes = plaintext.as_bytes();
        let sealed = match seal(self.key.as_slice(), nonce.as_slice(), bytes) {
            Some(c) => c,
            None => {
                return Err(CryptoError::EncryptionFailed);
            },
        };
        let mut result = nonce;
        let ghost n = result@;
        let mut tail = sealed;
        let ghost c = tail@;
        result.append(&mut tail);
        assert(result@.take(NONCE_SIZE as int) =~= n);
        assert(result@.skip(NONCE_SIZE as int) =~= c);
        Ok(result)
    }

    /// Opens a sealed token (see [`opened`]). What [`TokenCrypto::encrypt`]
    /// produced under the same key opens to the text it sealed.
    pub fn decrypt(&self, encrypted: &[u8]) -> (r: Result<String, CryptoError>)
        requires
            self.wf(),
        ensures
            match r {
                Ok(s) => opened(self.key(), encrypted@) == Ok::<Seq<char>, CryptoError>(s@),
                Err(e) => opened(self.key(), encrypted@) == Err::<Seq<char>, CryptoError>(e),
            },
            forall|text: Seq<char>|
                sealed_form(self.key(), encrypted@, text) && encode_utf8(text).len()
                    <= MAX_PLAINTEXT ==> (r matches Ok(s) && s@ == text),
    {
        if encrypted.len() < NONCE_SIZE {
            return Err(CryptoError::InvalidFormat);
        }
        let (nonce, sealed) = encrypted.split_at(NONCE_SIZE);
        assert(nonce@ =~= encrypted@.take(NONCE_SIZE as int));
        assert(sealed@ =~= encrypted@.skip(NONCE_SIZE as int));
        let plain = match open(self.key.as_slice(), nonce, sealed) {
            Some(p) => p,
            None => {
                return Err(CryptoError::DecryptionFailed);
            },
        };
        proof {
            assert forall|text: Seq<char>|
                sealed_form(self.key(), encrypted@, text) && encode_utf8(text).len()
                    <= MAX_PLAINTEXT implies plain@ == encode_utf8(text) && valid_utf8(plain@)
                && decode_utf8(plain@) == text by {
                vstd::utf8::encode_utf8_valid_utf8(text);
                vstd::utf8::encode_utf8_decode_utf8(text);
            }
        }
        match utf8_text(plain) {
            Some(s) => Ok(s),
            None => Err(CryptoError::DecryptionFailed),
        }
    }
}

} // verus!
