//! The vault: key derivation, authenticated encryption and the lock state.
use vstd::prelude::*;
use vstd::string::StringSliceAdditionalSpecFns;
use crate::primitives::{
    aead_open, aead_seal, argon2_derive, argon2_key, base64_of, chacha_open, chacha_seal,
    ascii_string, encode_base64, fill_random, kdf_accepts, random_below, phc_check, phc_hash, phc_salt_ok, phc_string,
    phc_verify, AEAD_MAX_PLAINTEXT_LEN, KDF_MAX_INPUT_LEN, KEY_LEN, NONCE_LEN,
};

verus! {

/// Shortest master password accepted, in bytes.
pub const MIN_MASTER_PASSWORD_LEN: usize = 8;

/// Length of the salts that the vault generates for key derivation.
pub const SALT_LEN: usize = 32;

/// Length of the salt embedded in a password-verification hash.
pub const HASH_SALT_LEN: usize = 16;

/// Number of random bytes behind a recovery key.
pub const RECOVERY_KEY_BYTES: usize = 32;

/// Failures of the vault's cryptographic operations.
#[derive(Debug, Clone, Copy, PartialEq, Eq, Structural)]
pub enum CryptoError {
    /// The key-derivation function refused its inputs.
    KdfError,
    /// An encrypt or decrypt operation was attempted while the vault is locked.
    NotUnlocked,
    /// The ciphertext or nonce does not authenticate under the key.
    AuthenticationFailed,
    /// The plaintext is too large for the cipher.
    EncryptionFailed,
    /// A stored password hash could not be parsed.
    InvalidHash,
    /// A new master password is shorter than 8 bytes.
    PasswordTooShort,
    /// An empty password was given.
    EmptyPassword,
}

impl CryptoError {
    /// A user-facing description of the error.
    pub fn message(&self) -> (r: String)
        ensures
            r@ == crypto_error_text(*self),
    {
        let s = match self {
            CryptoError::KdfError => "key derivation failed",
            CryptoError::NotUnlocked => "vault is locked",
            CryptoError::AuthenticationFailed => "authentication failed",
            CryptoError::EncryptionFailed => "encryption failed",
            CryptoError::InvalidHash => "invalid password hash",
            CryptoError::PasswordTooShort => "password must have at least 8 characters",
            CryptoError::EmptyPassword => "password cannot be empty",
        };
        s.to_owned()
    }
}

/// Text of a vault error.
pub open spec fn crypto_error_text(e: CryptoError) -> Seq<char> {
    match e {
        CryptoError::KdfError => "key derivation failed"@,
        CryptoError::NotUnlocked => "vault is locked"@,
        CryptoError::AuthenticationFailed => "authentication failed"@,
        CryptoError::EncryptionFailed => "encryption failed"@,
        CryptoError::InvalidHash => "invalid password hash"@,
        CryptoError::PasswordTooShort => "password must have at least 8 characters"@,
        CryptoError::EmptyPassword => "password cannot be empty"@,
    }
}

/// An encrypted secret as it is stored: ciphertext with its tag, the nonce it
/// was sealed with, and a per-call random salt kept for the storage format.
#[derive(Debug, Clone)]
pub struct EncryptedData {
    pub ciphertext: Vec<u8>,
    pub nonce: Vec<u8>,
    pub salt: Vec<u8>,
}

/// The stored verification artefact of the master password.
#[derive(Debug, Clone)]
pub struct MasterKey {
    pub hash: String,
    pub salt: Vec<u8>,
}

/// Password lengths (in UTF-8 bytes) that the key-derivation function accepts.
pub open spec fn password_ok(password: &str) -> bool {
    password.spec_bytes().len() <= KDF_MAX_INPUT_LEN
}

/// Whether `hash` is a verification hash of `password` with some acceptable salt.
pub open spec fn is_hash_of(password: Seq<char>, hash: Seq<char>) -> bool {
    exists|s: Seq<u8>| phc_salt_ok(s) && hash == #[trigger] phc_string(password, s)
}

/// Plaintexts that a key and nonce can seal into a given ciphertext.
pub open spec fn sealed_from(key: Seq<u8>, nonce: Seq<u8>, ciphertext: Seq<u8>, p: Seq<u8>) -> bool {
    p.len() < AEAD_MAX_PLAINTEXT_LEN && ciphertext == aead_seal(key, nonce, p)
}

/// What decrypting `ciphertext` with `nonce` under `key` yields.
pub open spec fn decryption(key: Seq<u8>, nonce: Seq<u8>, ciphertext: Seq<u8>) -> Result<Seq<u8>, CryptoError> {
    if nonce.len() != NONCE_LEN {
        Err(CryptoError::AuthenticationFailed)
    } else {
        match aead_open(key, nonce, ciphertext) {
            Some(p) => Ok(p),
            None => Err(CryptoError::AuthenticationFailed),
        }
    }
}

/// The view of a decryption result.
pub open spec fn plain_view(r: Result<Vec<u8>, CryptoError>) -> Result<Seq<u8>, CryptoError> {
    match r {
        Ok(v) => Ok(v@),
        Err(e) => Err(e),
    }
}

/// Constant-time comparison of two byte strings: the loop always visits every
/// byte, whatever the contents.
pub fn secure_compare(a: &[u8], b: &[u8]) -> (r: bool)
    ensures
        r == (a@ == b@),
{
    if a.len() != b.len() {
        return false;
    }
    let mut acc: u8 = 0;
    let mut i: usize = 0;
    while i < a.len()
        invariant
            a@.len() == b@.len(),
            0 <= i <= a@.len(),
            (acc == 0) == (a@.take(i as int) =~= b@.take(i as int)),
        decreases a@.len() - i,
    {
        let x = a[i];
        let y = b[i];
        let next = acc | (x ^ y);
        assert((next == 0) == (acc == 0 && x == y)) by (bit_vector)
            requires
                next == acc | (x ^ y),
        ;
        proof {
            assert(a@.take(i + 1) == a@.take(i as int).push(x));
            assert(b@.take(i + 1) == b@.take(i as int).push(y));
            if a@.take(i + 1) =~= b@.take(i + 1) {
                assert(a@.take(i as int) =~= a@.take(i + 1).take(i as int));
                assert(b@.take(i as int) =~= b@.take(i + 1).take(i as int));
                assert(a@.take(i + 1)[i as int] == x);
            }
        }
        acc = next;
        i = i + 1;
    }
    proof {
        assert(a@.take(a@.len() as int) =~= a@);
        assert(b@.take(b@.len() as int) =~= b@);
    }
    acc == 0
}

/// `length` bytes from the operating system's CSPRNG.
pub fn generate_random_bytes(length: usize) -> (r: Vec<u8>)
    ensures
        r@.len() == length,
{
    let mut bytes: Vec<u8> = Vec::new();
    let mut i: usize = 0;
    while i < length
        invariant
            i <= length,
            bytes@.len() == i,
        decreases length - i,
    {
        bytes.push(0u8);
        i = i + 1;
    }
    fill_random(&mut bytes);
    bytes
}

/// A fresh random 32-byte salt for key derivation.
pub fn generate_salt() -> (r: Vec<u8>)
    ensures
        r@.len() == SALT_LEN,
{
    generate_random_bytes(SALT_LEN)
}

/// Derives the 32-byte symmetric key from a password and a salt (Argon2id).
/// Deterministic in password and salt; fails with `KdfError` exactly when the
/// salt is under 8 bytes or an input is over 2^32 - 1 bytes.
pub fn derive_key_from_password(password: &str, salt: &[u8]) -> (r: Result<Vec<u8>, CryptoError>)
    ensures
        r is Ok <==> kdf_accepts(password.spec_bytes().len(), salt@),
        r matches Ok(k) ==> k@ == argon2_key(password@, salt@) && k@.len() == KEY_LEN,
        r is Err ==> r == Err::<Vec<u8>, CryptoError>(CryptoError::KdfError),
{
    match argon2_derive(password, salt) {
        Ok(key) => Ok(key),
        Err(_) => Err(CryptoError::KdfError),
    }
}

/// A self-describing verification hash of `password` with a fresh random salt
/// embedded in it. The second argument is not used: the hash carries its own salt.
pub fn hash_password(password: &str, _salt: &[u8]) -> (r: Result<String, CryptoError>)
    ensures
        r is Ok <==> password_ok(password),
        r matches Ok(h) ==> is_hash_of(password@, h@),
        r matches Ok(h) ==> forall|q: Seq<char>| (#[trigger] phc_check(q, h@)) is Some,
        r is Err ==> r == Err::<String, CryptoError>(CryptoError::KdfError),
{
    let salt = generate_random_bytes(HASH_SALT_LEN);
    match phc_hash(password, salt.as_slice()) {
        Ok(h) => {
            assert(phc_salt_ok(salt@));
            Ok(h)
        },
        Err(_) => Err(CryptoError::KdfError),
    }
}

/// Checks `password` against a verification hash. A malformed hash gives
/// `InvalidHash`; a hash made from the same password always verifies.
pub fn verify_password(password: &str, hash: &str) -> (r: Result<bool, CryptoError>)
    ensures
        r == match phc_check(password@, hash@) {
            Some(b) => Ok::<bool, CryptoError>(b),
            None => Err(CryptoError::InvalidHash),
        },
        password_ok(password) && is_hash_of(password@, hash@) ==> r == Ok::<bool, CryptoError>(true),
{
    match phc_verify(password, hash) {
        Ok(b) => Ok(b),
        Err(_) => Err(CryptoError::InvalidHash),
    }
}

/// Creates the stored master-key record: a verification hash of the password
/// and a fresh 32-byte salt for key derivation.
pub fn create_master_key(password: &str) -> (r: Result<(String, Vec<u8>), CryptoError>)
    ensures
        r is Ok <==> password_ok(password),
        r matches Ok((h, s)) ==> is_hash_of(password@, h@) && s@.len() == SALT_LEN,
        r matches Ok((h, s)) ==> forall|q: Seq<char>| (#[trigger] phc_check(q, h@)) is Some,
        r is Err ==> r == Err::<(String, Vec<u8>), CryptoError>(CryptoError::KdfError),
{
    let salt = generate_salt();
    match hash_password(password, salt.as_slice()) {
        Ok(hash) => Ok((hash, salt)),
        Err(e) => Err(e),
    }
}

/// Checks a password against a stored master-key record. The verification
/// hash embeds its own salt, so the key-derivation salt plays no part here.
pub fn verify_master_key(password: &str, hash: &str, _salt: &[u8]) -> (r: Result<bool, CryptoError>)
    ensures
        r == match phc_check(password@, hash@) {
            Some(b) => Ok::<bool, CryptoError>(b),
            None => Err(CryptoError::InvalidHash),
        },
        password_ok(password) && is_hash_of(password@, hash@) ==> r == Ok::<bool, CryptoError>(true),
{
    verify_password(password, hash)
}

/// Seals `data` under a 32-byte key with a fresh random 12-byte nonce;
/// returns the ciphertext and the nonce.
pub fn encrypt_data(data: &[u8], key: &[u8]) -> (r: Result<(Vec<u8>, Vec<u8>), CryptoError>)
    requires
        key@.len() == KEY_LEN,
    ensures
        r is Ok <==> data@.len() < AEAD_MAX_PLAINTEXT_LEN,
        r matches Ok((c, n)) ==> n@.len() == NONCE_LEN && c@ == aead_seal(key@, n@, data@),
        r is Err ==> r == Err::<(Vec<u8>, Vec<u8>), CryptoError>(CryptoError::EncryptionFailed),
{
    let nonce = generate_random_bytes(NONCE_LEN);
    match chacha_seal(key, nonce.as_slice(), data) {
        Ok(c) => Ok((c, nonce)),
        Err(_) => Err(CryptoError::EncryptionFailed),
    }
}

/// Opens a ciphertext under a 32-byte key and its nonce. Anything that does
/// not authenticate (wrong key, altered ciphertext or nonce, a nonce of the
/// wrong size) gives `AuthenticationFailed`, never partial plaintext.
pub fn decrypt_data(data: &[u8], key: &[u8], nonce: &[u8]) -> (r: Result<Vec<u8>, CryptoError>)
    requires
        key@.len() == KEY_LEN,
    ensures
        plain_view(r) == decryption(key@, nonce@, data@),
        forall|p: Seq<u8>| nonce@.len() == NONCE_LEN && #[trigger] sealed_from(key@, nonce@, data@, p)
            ==> plain_view(r) == Ok::<Seq<u8>, CryptoError>(p),
{
    if nonce.len() != NONCE_LEN {
        return Err(CryptoError::AuthenticationFailed);
    }
    match chacha_open(key, nonce, data) {
        Ok(p) => Ok(p),
        Err(_) => Err(CryptoError::AuthenticationFailed),
    }
}

/// A recovery key: 32 random bytes in padded standard base64 (44 characters).
pub fn generate_recovery_key() -> (r: Result<String, String>)
    ensures
        r matches Ok(k) && k@.len() == 44 && exists|b: Seq<u8>| b.len() == RECOVERY_KEY_BYTES && k@ == base64_of(b),
{
    let bytes = generate_random_bytes(RECOVERY_KEY_BYTES);
    let key = encode_base64(bytes.as_slice());
    Ok(key)
}

/// Number of characters a generated password draws from.
pub const PASSWORD_ALPHABET_LEN: usize = 70;

/// The `i`-th character (as ASCII) of the generated-password alphabet:
/// upper case, lower case, digits, then `!@#$%^&*`.
pub open spec fn password_byte(i: nat) -> u8 {
    if i < 26 {
        (65 + i) as u8
    } else if i < 52 {
        (97 + (i - 26)) as u8
    } else if i < 62 {
        (48 + (i - 52)) as u8
    } else if i == 62 {
        33
    } else if i == 63 {
        64
    } else if i == 64 {
        35
    } else if i == 65 {
        36
    } else if i == 66 {
        37
    } else if i == 67 {
        94
    } else if i == 68 {
        38
    } else {
        42
    }
}

/// Whether a character belongs to the generated-password alphabet.
pub open spec fn is_password_char(c: char) -> bool {
    exists|i: nat| i < PASSWORD_ALPHABET_LEN && c == (#[trigger] password_byte(i)) as char
}

fn alphabet_byte(i: usize) -> (r: u8)
    requires
        i < PASSWORD_ALPHABET_LEN,
    ensures
        r == password_byte(i as nat),
        r < 128,
{
    if i < 26 {
        65 + i as u8
    } else if i < 52 {
        97 + (i - 26) as u8
    } else if i < 62 {
        48 + (i - 52) as u8
    } else if i == 62 {
        33
    } else if i == 63 {
        64
    } else if i == 64 {
        35
    } else if i == 65 {
        36
    } else if i == 66 {
        37
    } else if i == 67 {
        94
    } else if i == 68 {
        38
    } else {
        42
    }
}

/// A random password of `length` characters, each drawn uniformly from
/// letters, digits and `!@#$%^&*`.
pub fn generate_secure_password(length: usize) -> (r: String)
    ensures
        r@.len() == length,
        forall|i: int| 0 <= i < length ==> is_password_char(#[trigger] r@[i]),
{
    let mut bytes: Vec<u8> = Vec::new();
    let mut k: usize = 0;
    while k < length
        invariant
            k <= length,
            bytes@.len() == k,
            forall|i: int| 0 <= i < k ==> bytes@[i] < 128 && exists|j: nat| j < PASSWORD_ALPHABET_LEN && #[trigger] bytes@[i] == password_byte(j),
        decreases length - k,
    {
        let idx = random_below(PASSWORD_ALPHABET_LEN);
        let b = alphabet_byte(idx);
        bytes.push(b);
        assert(bytes@[k as int] == password_byte(idx as nat));
        k = k + 1;
    }
    let ghost bv = bytes@;
    let r = ascii_string(bytes);
    assert forall|i: int| 0 <= i < length implies is_password_char(#[trigger] r@[i]) by {
        let j = choose|j: nat| j < PASSWORD_ALPHABET_LEN && bv[i] == password_byte(j);
        assert(r@[i] == (password_byte(j) as char));
    }
    r
}

/// The vault's lock state: `Locked` holds no key, `Unlocked` holds the derived
/// 32-byte key in memory only. There is no accessor for the key.
pub struct CryptoManager {
    master_key: Option<Vec<u8>>,
}

impl View for CryptoManager {
    type V = Option<Seq<u8>>;

    /// The key held, if the vault is unlocked.
    closed spec fn view(&self) -> Option<Seq<u8>> {
        match self.master_key {
            Some(k) => Some(k@),
            None => None,
        }
    }
}

impl CryptoManager {
    /// The key held by an unlocked vault always has the cipher's key length.
    #[verifier::type_invariant]
    spec fn key_sized(self) -> bool {
        self.master_key matches Some(k) ==> k@.len() == KEY_LEN
    }

    /// A locked vault.
    pub fn new() -> (r: Self)
        ensures
            r@ is None,
    {
        CryptoManager { master_key: None }
    }

    /// Derives the key from `password` and `salt` and unlocks the vault. On a
    /// key-derivation failure the state is left as it was.
    pub fn set_master_key(&mut self, password: &str, salt: &[u8]) -> (r: Result<(), CryptoError>)
        ensures
            r is Ok <==> kdf_accepts(password.spec_bytes().len(), salt@),
            r is Ok ==> final(self)@ == Some(argon2_key(password@, salt@)),
            r is Err ==> r == Err::<(), CryptoError>(CryptoError::KdfError) && final(self)@ == old(self)@,
    {
        match derive_key_from_password(password, salt) {
            Ok(key) => {
                *self = CryptoManager { master_key: Some(key) };
                Ok(())
            },
            Err(e) => Err(e),
        }
    }

    /// Whether the vault holds a key. No side effect.
    pub fn is_unlocked(&self) -> (r: bool)
        ensures
            r == (self@ is Some),
    {
        self.master_key.is_some()
    }

    /// Seals `data` under the held key with a fresh random nonce, plus a
    /// random 32-byte salt field. Fails with `NotUnlocked` while locked.
    pub fn encrypt_data(&self, data: &[u8]) -> (r: Result<EncryptedData, CryptoError>)
        ensures
            self@ is None ==> r == Err::<EncryptedData, CryptoError>(CryptoError::NotUnlocked),
            self@ is Some ==> (r is Ok <==> data@.len() < AEAD_MAX_PLAINTEXT_LEN),
            self@ is Some && r is Err ==> r == Err::<EncryptedData, CryptoError>(CryptoError::EncryptionFailed),
            r matches Ok(p) ==> self@ is Some && p.nonce@.len() == NONCE_LEN && p.salt@.len() == SALT_LEN
                && p.ciphertext@ == aead_seal(self@->0, p.nonce@, data@),
    {
        proof {
            use_type_invariant(self);
        }
        match &self.master_key {
            None => Err(CryptoError::NotUnlocked),
            Some(key) => {
                let nonce = generate_random_bytes(NONCE_LEN);
                let salt = generate_random_bytes(SALT_LEN);
                match chacha_seal(key.as_slice(), nonce.as_slice(), data) {
                    Ok(ciphertext) => Ok(EncryptedData { ciphertext, nonce, salt }),
                    Err(_) => Err(CryptoError::EncryptionFailed),
                }
            },
        }
    }

    /// Opens a stored payload with the held key. Fails with `NotUnlocked`
    /// while locked, and with `AuthenticationFailed` when the payload does not
    /// authenticate under the key; a payload sealed under the held key opens
    /// to its plaintext.
    pub fn decrypt_data(&self, encrypted_data: &EncryptedData) -> (r: Result<Vec<u8>, CryptoError>)
        ensures
            self@ is None ==> r == Err::<Vec<u8>, CryptoError>(CryptoError::NotUnlocked),
            self@ matches Some(k) ==> plain_view(r) == decryption(k, encrypted_data.nonce@, encrypted_data.ciphertext@),
            forall|p: Seq<u8>|
                self@ is Some && encrypted_data.nonce@.len() == NONCE_LEN
                && #[trigger] sealed_from(self@->0, encrypted_data.nonce@, encrypted_data.ciphertext@, p)
                ==> plain_view(r) == Ok::<Seq<u8>, CryptoError>(p),
    {
        proof {
            use_type_invariant(self);
        }
        match &self.master_key {
            None => Err(CryptoError::NotUnlocked),
            Some(key) => decrypt_data(encrypted_data.ciphertext.as_slice(), key.as_slice(), encrypted_data.nonce.as_slice()),
        }
    }

    /// Discards the key: the vault is locked.
    pub fn lock(&mut self)
        ensures
            final(self)@ is None,
    {
        *self = CryptoManager { master_key: None };
    }

    /// Derives the key again and unlocks; the same as `set_master_key`.
    pub fn unlock(&mut self, password: &str, salt: &[u8]) -> (r: Result<(), CryptoError>)
        ensures
            r is Ok <==> kdf_accepts(password.spec_bytes().len(), salt@),
            r is Ok ==> final(self)@ == Some(argon2_key(password@, salt@)),
            r is Err ==> r == Err::<(), CryptoError>(CryptoError::KdfError) && final(self)@ == old(self)@,
    {
        self.set_master_key(password, salt)
    }
    /// Sets up a new master password: refused with `PasswordTooShort` under 8
    /// bytes; otherwise creates the stored record (verification hash and a
    /// fresh 32-byte salt) and unlocks the vault with the key derived from the
    /// password and that salt. The record is for the caller to store. On an
    /// error the vault is left as it was.
    pub fn initialize_master_password(&mut self, password: &str) -> (r: Result<MasterKey, CryptoError>)
        ensures
            password.spec_bytes().len() < MIN_MASTER_PASSWORD_LEN ==> r == Err::<MasterKey, CryptoError>(CryptoError::PasswordTooShort),
            MIN_MASTER_PASSWORD_LEN <= password.spec_bytes().len() && password_ok(password) ==> r is Ok,
            r matches Ok(mk) ==> forall|q: Seq<char>| (#[trigger] phc_check(q, mk.hash@)) is Some,
            r matches Ok(mk) ==> is_hash_of(password@, mk.hash@) && mk.salt@.len() == SALT_LEN
                && final(self)@ == Some(argon2_key(password@, mk.salt@)),
            r is Err ==> final(self)@ == old(self)@,
    {
        if password.len() < MIN_MASTER_PASSWORD_LEN {
            return Err(CryptoError::PasswordTooShort);
        }
        let (hash, salt) = match create_master_key(password) {
            Ok(record) => record,
            Err(e) => return Err(e),
        };
        match self.set_master_key(password, salt.as_slice()) {
            Ok(()) => Ok(MasterKey { hash, salt }),
            Err(e) => Err(e),
        }
    }

    /// Checks a password against the stored record and, when it matches,
    /// unlocks the vault with the key derived from it and the stored salt.
    /// An empty password gives `EmptyPassword`, a malformed hash
    /// `InvalidHash`; a wrong password gives `Ok(false)` and leaves the vault
    /// as it was.
    pub fn verify_master_password(&mut self, password: &str, stored: &MasterKey) -> (r: Result<bool, CryptoError>)
        ensures
            password@.len() == 0 ==> r == Err::<bool, CryptoError>(CryptoError::EmptyPassword),
            password@.len() > 0 ==> match phc_check(password@, stored.hash@) {
                None => r == Err::<bool, CryptoError>(CryptoError::InvalidHash),
                Some(false) => r == Ok::<bool, CryptoError>(false),
                Some(true) => if kdf_accepts(password.spec_bytes().len(), stored.salt@) {
                    r == Ok::<bool, CryptoError>(true) && final(self)@ == Some(argon2_key(password@, stored.salt@))
                } else {
                    r == Err::<bool, CryptoError>(CryptoError::KdfError)
                },
            },
            password@.len() > 0 && password_ok(password) && is_hash_of(password@, stored.hash@)
                && kdf_accepts(password.spec_bytes().len(), stored.salt@) ==> r == Ok::<bool, CryptoError>(true),
            !(r == Ok::<bool, CryptoError>(true)) ==> final(self)@ == old(self)@,
    {
        if password.is_empty() {
            return Err(CryptoError::EmptyPassword);
        }
        match verify_password(password, stored.hash.as_str()) {
            Ok(true) => {},
            Ok(false) => return Ok(false),
            Err(e) => return Err(e),
        }
        match self.set_master_key(password, stored.salt.as_slice()) {
            Ok(()) => Ok(true),
            Err(e) => Err(e),
        }
    }
}

} // verus!
