use local_code_agent::crypto::{key_from_hex, CryptoError, TokenCrypto, NONCE_SIZE};

fn crypto() -> TokenCrypto {
    TokenCrypto::new(&[7u8; 32]).unwrap()
}

#[test]
fn test_encrypt_decrypt() {
    let crypto = crypto();
    let plaintext = "test-token-12345";
    let encrypted = crypto.encrypt(plaintext).unwrap();
    let decrypted = crypto.decrypt(&encrypted).unwrap();
    assert_eq!(plaintext, decrypted);
}

#[test]
fn test_encrypt_decrypt_multiple_values() {
    let crypto = crypto();
    let tokens = ["token-1", "token-2", "longer-token-with-special-chars!@#$%"];
    for token in tokens {
        let encrypted = crypto.encrypt(token).unwrap();
        let decrypted = crypto.decrypt(&encrypted).unwrap();
        assert_eq!(token, decrypted);
    }
}

#[test]
fn mod_test_decrypt_invalid_data() {
    let crypto = crypto();
    let short_data = vec![0u8; 5];
    assert!(crypto.decrypt(&short_data).is_err());
    let invalid_data = vec![0u8; 50];
    assert!(crypto.decrypt(&invalid_data).is_err());
}

#[test]
fn test_encrypt_decrypt_roundtrip() {
    let crypto = crypto();
    let plaintext = "ghp_secret_token_12345";
    let encrypted = crypto.encrypt(plaintext).unwrap();
    assert!(encrypted.len() > NONCE_SIZE);
    assert_eq!(encrypted.len(), NONCE_SIZE + plaintext.len() + 16);
    let decrypted = crypto.decrypt(&encrypted).unwrap();
    assert_eq!(decrypted, plaintext);
}

#[test]
fn test_different_nonces_produce_different_ciphertexts() {
    let crypto = crypto();
    let plaintext = "same_plaintext";
    let encrypted1 = crypto.encrypt(plaintext).unwrap();
    let encrypted2 = crypto.encrypt(plaintext).unwrap();
    assert_ne!(&encrypted1[..NONCE_SIZE], &encrypted2[..NONCE_SIZE]);
    assert_eq!(crypto.decrypt(&encrypted1).unwrap(), plaintext);
    assert_eq!(crypto.decrypt(&encrypted2).unwrap(), plaintext);
}

#[test]
fn token_test_decrypt_invalid_data() {
    let crypto = crypto();
    assert!(crypto.decrypt(&[0u8; 5]).is_err());
    assert!(crypto.decrypt(&[0u8; 32]).is_err());
}

#[test]
fn empty_and_unicode_tokens_round_trip() {
    let crypto = crypto();
    for t in ["", "päss\"wörd\n✓"] {
        let e = crypto.encrypt(t).unwrap();
        assert_eq!(e.len(), NONCE_SIZE + t.len() + 16);
        assert_eq!(crypto.decrypt(&e).unwrap(), t);
    }
}

#[test]
fn decrypt_error_kinds() {
    let crypto = crypto();
    assert!(matches!(crypto.decrypt(&[1u8; 11]), Err(CryptoError::InvalidFormat)));
    let mut e = crypto.encrypt("abc").unwrap();
    let last = e.len() - 1;
    e[last] ^= 1;
    assert!(matches!(crypto.decrypt(&e), Err(CryptoError::DecryptionFailed)));
    let other = TokenCrypto::new(&[8u8; 32]).unwrap();
    let sealed = crypto.encrypt("abc").unwrap();
    assert!(matches!(other.decrypt(&sealed), Err(CryptoError::DecryptionFailed)));
}

#[test]
fn key_lengths_and_hex() {
    assert!(matches!(TokenCrypto::new(&[0u8; 16]), Err(CryptoError::EncryptionFailed)));
    let hex_key = "00".repeat(31) + "fF";
    let key = key_from_hex(&hex_key).unwrap();
    assert_eq!(key.len(), 32);
    assert_eq!(key[31], 255);
    assert!(matches!(key_from_hex("abc"), Err(CryptoError::InvalidFormat)));
    assert!(matches!(key_from_hex("zz"), Err(CryptoError::InvalidFormat)));
    assert!(matches!(key_from_hex("0011"), Err(CryptoError::InvalidFormat)));
}
