use alohopass_core::crypto::{
    create_master_key, decrypt_data, derive_key_from_password, encrypt_data, generate_random_bytes,
    generate_recovery_key, generate_salt, hash_password, secure_compare, verify_master_key, verify_password,
    CryptoError, CryptoManager, EncryptedData,
};

fn salt_s() -> Vec<u8> {
    (0u8..32).collect()
}

#[test]
fn round_trip_under_the_same_key() {
    let key = vec![7u8; 32];
    for p in [b"".to_vec(), b"a".to_vec(), b"my-secret".to_vec(), vec![0u8; 1000]] {
        let (c, n) = encrypt_data(&p, &key).unwrap();
        assert_eq!(n.len(), 12);
        assert_eq!(c.len(), p.len() + 16);
        assert_eq!(decrypt_data(&c, &key, &n).unwrap(), p);
    }
}

#[test]
fn other_key_fails_authentication() {
    let k1 = vec![1u8; 32];
    let k2 = vec![2u8; 32];
    let (c, n) = encrypt_data(b"secret", &k1).unwrap();
    assert_eq!(decrypt_data(&c, &k2, &n), Err(CryptoError::AuthenticationFailed));
}

#[test]
fn tampered_ciphertext_or_nonce_fails_authentication() {
    let key = vec![3u8; 32];
    let (mut c, n) = encrypt_data(b"secret", &key).unwrap();
    let mut n2 = n.clone();
    n2[0] ^= 1;
    assert_eq!(decrypt_data(&c, &key, &n2), Err(CryptoError::AuthenticationFailed));
    assert_eq!(decrypt_data(&c, &key, &n[..11]), Err(CryptoError::AuthenticationFailed));
    c[0] ^= 1;
    assert_eq!(decrypt_data(&c, &key, &n), Err(CryptoError::AuthenticationFailed));
}

#[test]
fn locked_vault_refuses_and_keeps_state() {
    let vault = CryptoManager::new();
    assert!(!vault.is_unlocked());
    assert_eq!(vault.encrypt_data(b"x").err(), Some(CryptoError::NotUnlocked));
    let payload = EncryptedData { ciphertext: vec![1, 2, 3], nonce: vec![0; 12], salt: vec![0; 32] };
    assert_eq!(vault.decrypt_data(&payload), Err(CryptoError::NotUnlocked));
    assert_eq!(payload.ciphertext, vec![1, 2, 3]);
    assert!(!vault.is_unlocked());
}

#[test]
fn unlock_lock_unlock_scenario() {
    let mut vault = CryptoManager::new();
    vault.unlock("correct-horse", &salt_s()).unwrap();
    assert!(vault.is_unlocked());
    let payload = vault.encrypt_data(b"my-secret").unwrap();
    assert_eq!(payload.nonce.len(), 12);
    assert_eq!(payload.salt.len(), 32);
    vault.lock();
    assert!(!vault.is_unlocked());
    assert_eq!(vault.decrypt_data(&payload), Err(CryptoError::NotUnlocked));
    vault.set_master_key("correct-horse", &salt_s()).unwrap();
    assert_eq!(vault.decrypt_data(&payload).unwrap(), b"my-secret".to_vec());
}

#[test]
fn vault_with_other_password_cannot_open() {
    let mut a = CryptoManager::new();
    a.unlock("correct-horse", &salt_s()).unwrap();
    let payload = a.encrypt_data(b"my-secret").unwrap();
    let mut b = CryptoManager::new();
    b.unlock("battery-staple", &salt_s()).unwrap();
    assert_eq!(b.decrypt_data(&payload), Err(CryptoError::AuthenticationFailed));
}

#[test]
fn short_salt_is_a_kdf_error_and_keeps_state() {
    let mut vault = CryptoManager::new();
    assert_eq!(vault.unlock("pw", &[1, 2, 3, 4, 5, 6, 7]), Err(CryptoError::KdfError));
    assert!(!vault.is_unlocked());
    assert_eq!(derive_key_from_password("pw", &[]), Err(CryptoError::KdfError));
}

#[test]
fn key_derivation_is_deterministic() {
    let a = derive_key_from_password("correct-horse", &salt_s()).unwrap();
    let b = derive_key_from_password("correct-horse", &salt_s()).unwrap();
    assert_eq!(a.len(), 32);
    assert_eq!(a, b);
    let c = derive_key_from_password("correct-horse", &[9u8; 32]).unwrap();
    assert_ne!(a, c);
}

#[test]
fn password_hash_verifies_only_its_password() {
    let h = hash_password("correct-horse", &[]).unwrap();
    assert!(h.starts_with("$argon2id$"));
    assert_eq!(verify_password("correct-horse", &h), Ok(true));
    assert_eq!(verify_password("correct-horsE", &h), Ok(false));
}

#[test]
fn malformed_hash_is_invalid() {
    assert_eq!(verify_password("pw", "not a hash"), Err(CryptoError::InvalidHash));
    assert_eq!(verify_master_key("pw", "", &[]), Err(CryptoError::InvalidHash));
}

#[test]
fn master_key_record_round_trip() {
    let (hash, salt) = create_master_key("correct-horse").unwrap();
    assert_eq!(salt.len(), 32);
    assert_eq!(verify_master_key("correct-horse", &hash, &salt), Ok(true));
}

#[test]
fn nonces_do_not_repeat() {
    let key = vec![5u8; 32];
    let mut seen = std::collections::HashSet::new();
    for _ in 0..10_000 {
        let (_, n) = encrypt_data(b"p", &key).unwrap();
        assert!(seen.insert(n));
    }
}

#[test]
fn random_material_has_the_asked_sizes() {
    assert_eq!(generate_salt().len(), 32);
    assert_eq!(generate_random_bytes(0).len(), 0);
    assert_eq!(generate_random_bytes(17).len(), 17);
    let k = generate_recovery_key().unwrap();
    assert_eq!(k.len(), 44);
    assert!(k.ends_with('='));
}

#[test]
fn secure_compare_matches_equality() {
    assert!(secure_compare(b"", b""));
    assert!(secure_compare(b"abc", b"abc"));
    assert!(!secure_compare(b"abc", b"abd"));
    assert!(!secure_compare(b"abc", b"ab"));
}

#[test]
fn error_messages_are_not_empty() {
    assert_eq!(CryptoError::NotUnlocked.message(), "vault is locked");
    assert!(!CryptoError::AuthenticationFailed.message().is_empty());
}

#[test]
fn generated_password_uses_the_alphabet() {
    let alphabet = "ABCDEFGHIJKLMNOPQRSTUVWXYZabcdefghijklmnopqrstuvwxyz0123456789!@#$%^&*";
    let p = alohopass_core::crypto::generate_secure_password(64);
    assert_eq!(p.chars().count(), 64);
    assert!(p.chars().all(|c| alphabet.contains(c)));
    assert_eq!(alohopass_core::crypto::generate_secure_password(0), "");
}

#[test]
fn master_password_setup_and_login() {
    let mut vault = CryptoManager::new();
    assert_eq!(vault.initialize_master_password("short").err(), Some(CryptoError::PasswordTooShort));
    assert!(!vault.is_unlocked());
    let record = vault.initialize_master_password("correct-horse").unwrap();
    assert!(vault.is_unlocked());
    assert_eq!(record.salt.len(), 32);
    let sealed = vault.encrypt_data(b"entry").unwrap();
    vault.lock();
    assert_eq!(vault.verify_master_password("", &record), Err(CryptoError::EmptyPassword));
    assert_eq!(vault.verify_master_password("wrong-horse", &record), Ok(false));
    assert!(!vault.is_unlocked());
    assert_eq!(vault.verify_master_password("correct-horse", &record), Ok(true));
    assert!(vault.is_unlocked());
    assert_eq!(vault.decrypt_data(&sealed).unwrap(), b"entry".to_vec());
    let broken = alohopass_core::crypto::MasterKey { hash: "garbage".to_string(), salt: record.salt.clone() };
    assert_eq!(vault.verify_master_password("correct-horse", &broken), Err(CryptoError::InvalidHash));
}
