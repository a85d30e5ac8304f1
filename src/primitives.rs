//! Thin, trusted bindings to the cryptographic crates used by the vault.
//!
//! Each function here performs one operation of an outside crate (or of std,
//! where vstd gives it no specification); the contracts state what that
//! operation documents, in terms of the names and definitions below.
use vstd::prelude::*;
use vstd::string::StringSliceAdditionalSpecFns;
use argon2::PasswordHasher;
use argon2::PasswordVerifier;
use base64::Engine;
use chacha20poly1305::aead::Aead;
use chacha20poly1305::KeyInit;
use rand::Rng;
use rand::RngCore;
use sha2::Digest;

verus! {

/// Largest password or salt length (in bytes) that Argon2 accepts.
pub const KDF_MAX_INPUT_LEN: u64 = 0xFFFF_FFFF;

/// Smallest salt length (in bytes) that Argon2 accepts.
pub const KDF_MIN_SALT_LEN: u64 = 8;

/// Largest salt length (in bytes) that fits a PHC salt string (64 base64 characters).
pub const PHC_MAX_SALT_LEN: u64 = 48;

/// Plaintexts of this many bytes or more are refused by ChaCha20-Poly1305
/// (the block counter would wrap).
pub const AEAD_MAX_PLAINTEXT_LEN: u64 = 274_877_906_880;

/// Size of a ChaCha20-Poly1305 key, in bytes.
pub const KEY_LEN: usize = 32;

/// Size of a ChaCha20-Poly1305 nonce, in bytes.
pub const NONCE_LEN: usize = 12;

#[verifier::external_type_specification]
#[verifier::external_body]
pub struct ExArgon2Error(argon2::Error);

#[verifier::external_type_specification]
#[verifier::external_body]
pub struct ExPasswordHashError(argon2::password_hash::Error);

#[verifier::external_type_specification]
#[verifier::external_body]
pub struct ExAeadError(chacha20poly1305::aead::Error);

/// The 32-byte key that Argon2id (default parameters) derives from a password and a salt.
pub uninterp spec fn argon2_key(password: Seq<char>, salt: Seq<u8>) -> Seq<u8>;

/// The PHC string (`$argon2id$v=19$...`) that Argon2id (default parameters)
/// produces for a password and the salt bytes it embeds.
pub uninterp spec fn phc_string(password: Seq<char>, salt: Seq<u8>) -> Seq<char>;

/// What verifying a password against a PHC string yields: `None` when the
/// string cannot be parsed, otherwise whether the password matches.
pub uninterp spec fn phc_check(password: Seq<char>, hash: Seq<char>) -> Option<bool>;

/// ChaCha20-Poly1305 ciphertext (with its 16-byte tag) of a plaintext under a key and nonce.
pub uninterp spec fn aead_seal(key: Seq<u8>, nonce: Seq<u8>, plaintext: Seq<u8>) -> Seq<u8>;

/// ChaCha20-Poly1305 decryption: `None` when the tag does not verify.
pub uninterp spec fn aead_open(key: Seq<u8>, nonce: Seq<u8>, ciphertext: Seq<u8>) -> Option<Seq<u8>>;

/// The character of the standard base64 alphabet for a 6-bit value.
pub open spec fn base64_digit(v: nat) -> char {
    if v < 26 {
        ((65 + v) as u8) as char
    } else if v < 52 {
        ((97 + (v - 26)) as u8) as char
    } else if v < 62 {
        ((48 + (v - 52)) as u8) as char
    } else if v == 62 {
        '+'
    } else {
        '/'
    }
}

/// Standard base64 with padding: each group of three bytes becomes four
/// characters; a final group of one or two bytes is padded with `=`.
pub open spec fn base64_of(b: Seq<u8>) -> Seq<char>
    decreases b.len(),
{
    if b.len() == 0 {
        Seq::empty()
    } else if b.len() == 1 {
        seq![base64_digit(b[0] as nat / 4), base64_digit((b[0] as nat % 4) * 16), '=', '=']
    } else if b.len() == 2 {
        seq![
            base64_digit(b[0] as nat / 4),
            base64_digit((b[0] as nat % 4) * 16 + b[1] as nat / 16),
            base64_digit((b[1] as nat % 16) * 4),
            '=',
        ]
    } else {
        seq![
            base64_digit(b[0] as nat / 4),
            base64_digit((b[0] as nat % 4) * 16 + b[1] as nat / 16),
            base64_digit((b[1] as nat % 16) * 4 + b[2] as nat / 64),
            base64_digit(b[2] as nat % 64),
        ] + base64_of(b.skip(3))
    }
}

/// Lowercase hexadecimal SHA-256 digest of a byte string.
pub uninterp spec fn sha256_hex(data: Seq<u8>) -> Seq<char>;

/// Inputs that Argon2 accepts.
pub open spec fn kdf_accepts(password_len: nat, salt: Seq<u8>) -> bool {
    &&& password_len <= KDF_MAX_INPUT_LEN
    &&& KDF_MIN_SALT_LEN <= salt.len() <= KDF_MAX_INPUT_LEN
}

/// Salts that both Argon2 and the PHC salt encoding accept.
pub open spec fn phc_salt_ok(salt: Seq<u8>) -> bool {
    KDF_MIN_SALT_LEN <= salt.len() <= PHC_MAX_SALT_LEN
}

/// Relies on `argon2::Argon2::hash_password_into` (default parameters, 32-byte
/// output): the key depends on password and salt alone, and the call fails only
/// on a salt under 8 bytes or on a password or salt over 2^32 - 1 bytes.
#[verifier::external_body]
pub(crate) fn argon2_derive(password: &str, salt: &[u8]) -> (r: Result<Vec<u8>, argon2::Error>)
    ensures
        r is Ok <==> kdf_accepts(password.spec_bytes().len(), salt@),
        r matches Ok(k) ==> k@ == argon2_key(password@, salt@) && k@.len() == KEY_LEN,
{
    let mut key = [0u8; 32];
    match argon2::Argon2::default().hash_password_into(password.as_bytes(), salt, &mut key) {
        Ok(()) => Ok(key.to_vec()),
        Err(e) => Err(e),
    }
}

/// Relies on `argon2::PasswordHasher::hash_password` (Argon2id, default
/// parameters) with the salt given as `password_hash::SaltString::encode_b64`
/// (a salt of 8 to 48 bytes: shorter ones make `as_salt` panic or Argon2 refuse,
/// longer ones overflow the 64-character salt string). The PHC string depends
/// on password and salt alone; the call fails only on a password over 2^32 - 1
/// bytes; and `PasswordHash::new` parses every string it produces, so checking
/// any password against it yields a verdict.
#[verifier::external_body]
pub(crate) fn phc_hash(password: &str, salt: &[u8]) -> (r: Result<String, argon2::password_hash::Error>)
    requires
        phc_salt_ok(salt@),
    ensures
        r is Ok <==> password.spec_bytes().len() <= KDF_MAX_INPUT_LEN,
        r matches Ok(h) ==> h@ == phc_string(password@, salt@),
        r matches Ok(h) ==> forall|q: Seq<char>| (#[trigger] phc_check(q, h@)) is Some,
{
    let salt_string = argon2::password_hash::SaltString::encode_b64(salt)?;
    let hash = argon2::Argon2::default().hash_password(password.as_bytes(), &salt_string)?;
    Ok(hash.to_string())
}

/// Relies on `argon2::password_hash::PasswordHash::new` (parsing fails on a
/// malformed string) and `argon2::PasswordVerifier::verify_password`, which
/// recomputes the hash with the parameters and salt that the string embeds, so
/// a string made by `phc_hash` for the same password always verifies.
#[verifier::external_body]
pub(crate) fn phc_verify(password: &str, hash: &str) -> (r: Result<bool, argon2::password_hash::Error>)
    ensures
        r is Ok <==> phc_check(password@, hash@) is Some,
        r matches Ok(b) ==> phc_check(password@, hash@) == Some(b),
        r is Err ==> forall|s: Seq<u8>| !(phc_salt_ok(s) && password.spec_bytes().len() <= KDF_MAX_INPUT_LEN && hash@ == #[trigger] phc_string(password@, s)),
        r matches Ok(b) && !b ==> forall|s: Seq<u8>| !(phc_salt_ok(s) && password.spec_bytes().len() <= KDF_MAX_INPUT_LEN && hash@ == #[trigger] phc_string(password@, s)),
{
    let parsed = argon2::password_hash::PasswordHash::new(hash)?;
    Ok(argon2::Argon2::default().verify_password(password.as_bytes(), &parsed).is_ok())
}

/// Relies on `chacha20poly1305::ChaCha20Poly1305::encrypt` (`aead::Aead`):
/// deterministic in key, nonce and plaintext; fails only when the plaintext
/// reaches 2^32 - 1 blocks of 64 bytes.
#[verifier::external_body]
pub(crate) fn chacha_seal(key: &[u8], nonce: &[u8], plaintext: &[u8]) -> (r: Result<Vec<u8>, chacha20poly1305::aead::Error>)
    requires
        key@.len() == KEY_LEN,
        nonce@.len() == NONCE_LEN,
    ensures
        r is Ok <==> plaintext@.len() < AEAD_MAX_PLAINTEXT_LEN,
        r matches Ok(c) ==> c@ == aead_seal(key@, nonce@, plaintext@),
{
    let cipher = chacha20poly1305::ChaCha20Poly1305::new(chacha20poly1305::Key::from_slice(key));
    cipher.encrypt(chacha20poly1305::Nonce::from_slice(nonce), plaintext)
}

/// Relies on `chacha20poly1305::ChaCha20Poly1305::decrypt` (`aead::Aead`):
/// it returns the plaintext only when the tag verifies, and a ciphertext that
/// `encrypt` produced under the same key and nonce always opens to its plaintext.
#[verifier::external_body]
pub(crate) fn chacha_open(key: &[u8], nonce: &[u8], ciphertext: &[u8]) -> (r: Result<Vec<u8>, chacha20poly1305::aead::Error>)
    requires
        key@.len() == KEY_LEN,
        nonce@.len() == NONCE_LEN,
    ensures
        r is Ok <==> aead_open(key@, nonce@, ciphertext@) is Some,
        r matches Ok(p) ==> aead_open(key@, nonce@, ciphertext@) == Some(p@),
        r is Err ==> forall|p: Seq<u8>| !(p.len() < AEAD_MAX_PLAINTEXT_LEN && ciphertext@ == #[trigger] aead_seal(key@, nonce@, p)),
        r matches Ok(q) ==> forall|p: Seq<u8>| p.len() < AEAD_MAX_PLAINTEXT_LEN && ciphertext@ == #[trigger] aead_seal(key@, nonce@, p) ==> q@ == p,
{
    let cipher = chacha20poly1305::ChaCha20Poly1305::new(chacha20poly1305::Key::from_slice(key));
    cipher.decrypt(chacha20poly1305::Nonce::from_slice(nonce), ciphertext)
}

/// Relies on `rand::RngCore::fill_bytes` on the thread-local CSPRNG: it
/// overwrites the buffer in place and keeps its length.
#[verifier::external_body]
pub(crate) fn fill_random(buf: &mut Vec<u8>)
    ensures
        final(buf)@.len() == old(buf)@.len(),
{
    rand::thread_rng().fill_bytes(buf.as_mut_slice())
}

/// Relies on `rand::Rng::gen_range` on the thread-local CSPRNG: a value in `0..bound`.
#[verifier::external_body]
pub(crate) fn random_below(bound: usize) -> (r: usize)
    requires
        bound > 0,
    ensures
        r < bound,
{
    rand::thread_rng().gen_range(0..bound)
}

/// Relies on `base64::engine::general_purpose::STANDARD.encode`: standard
/// alphabet, padded, four characters for every started group of three bytes.
#[verifier::external_body]
pub(crate) fn encode_base64(bytes: &[u8]) -> (r: String)
    ensures
        r@ == base64_of(bytes@),
        r@.len() == 4 * ((bytes@.len() + 2) / 3),
{
    base64::engine::general_purpose::STANDARD.encode(bytes)
}

/// Relies on `String::from_utf8`: bytes below 128 are valid UTF-8, one
/// character per byte, so the call cannot fail.
#[verifier::external_body]
pub(crate) fn ascii_string(bytes: Vec<u8>) -> (r: String)
    requires
        forall|i: int| 0 <= i < bytes@.len() ==> bytes@[i] < 128,
    ensures
        r@.len() == bytes@.len(),
        forall|i: int| 0 <= i < bytes@.len() ==> r@[i] == (bytes@[i] as char),
{
    String::from_utf8(bytes).unwrap_or_default()
}

/// Relies on `sha2::Sha256::digest`, printed with `{:x}`: the digest as 64
/// lowercase hexadecimal digits, a function of the input alone.
#[verifier::external_body]
pub(crate) fn sha256_hex_digest(data: &[u8]) -> (r: String)
    ensures
        r@ == sha256_hex(data@),
        r@.len() == 64,
{
    format!("{:x}", sha2::Sha256::digest(data))
}

} // verus!
