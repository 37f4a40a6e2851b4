use walletnode::crypto::{decrypt_mnemonic, encrypt_decrypt_round_trip, encrypt_mnemonic, CryptoError};

#[test]
fn test_encrypt_decrypt() {
    let mnemonic = "abandon abandon abandon abandon abandon abandon abandon abandon abandon abandon abandon about";
    let password = "test_password_123";

    // Encrypt
    let (encrypted, salt, nonce) = encrypt_mnemonic(mnemonic, password).unwrap();

    // Decrypt
    let decrypted = decrypt_mnemonic(&encrypted, password, &salt, &nonce).unwrap();

    assert_eq!(mnemonic, decrypted);
}

#[test]
fn test_wrong_password() {
    let mnemonic = "abandon abandon abandon abandon abandon abandon abandon abandon abandon abandon abandon about";
    let password = "correct_password";
    let wrong_password = "wrong_password";

    let (encrypted, salt, nonce) = encrypt_mnemonic(mnemonic, password).unwrap();

    let result = decrypt_mnemonic(&encrypted, wrong_password, &salt, &nonce);
    assert!(result.is_err());
}

#[test]
fn test_empty_inputs() {
    assert!(encrypt_mnemonic("", "password").is_err());
    assert!(encrypt_mnemonic("mnemonic", "").is_err());
}

#[test]
fn test_empty_inputs_report_invalid_input() {
    match encrypt_mnemonic("", "password") {
        Err(CryptoError::InvalidInput(_)) => {}
        other => panic!("expected InvalidInput, got {:?}", other),
    }
    match encrypt_mnemonic("mnemonic", "") {
        Err(CryptoError::InvalidInput(_)) => {}
        other => panic!("expected InvalidInput, got {:?}", other),
    }
    match decrypt_mnemonic("00", "", "00000000000000000000000000000000", "000000000000000000000000") {
        Err(CryptoError::InvalidInput(_)) => {}
        other => panic!("expected InvalidInput, got {:?}", other),
    }
}

#[test]
fn test_output_shapes() {
    let (encrypted, salt, nonce) = encrypt_mnemonic("secret words", "pw").unwrap();
    // 16-byte salt and 12-byte nonce, hex-encoded two digits per byte.
    assert_eq!(salt.len(), 32);
    assert_eq!(nonce.len(), 24);
    // Ciphertext is the 12-byte plaintext plus the 16-byte tag.
    assert_eq!(encrypted.len(), 2 * (12 + 16));
    for c in encrypted.chars().chain(salt.chars()).chain(nonce.chars()) {
        assert!(c.is_ascii_hexdigit());
        assert!(!c.is_ascii_uppercase());
    }
}

#[test]
fn test_decrypt_accepts_uppercase_hex() {
    let mnemonic = "upper case hex is fine";
    let (encrypted, salt, nonce) = encrypt_mnemonic(mnemonic, "pw").unwrap();
    let decrypted = decrypt_mnemonic(
        &encrypted.to_uppercase(),
        "pw",
        &salt.to_uppercase(),
        &nonce.to_uppercase(),
    )
    .unwrap();
    assert_eq!(decrypted, mnemonic);
}

#[test]
fn test_decrypt_rejects_malformed_hex() {
    let (encrypted, salt, nonce) = encrypt_mnemonic("m", "pw").unwrap();
    match decrypt_mnemonic("zz", "pw", &salt, &nonce) {
        Err(CryptoError::DecryptionFailed(_)) => {}
        other => panic!("expected DecryptionFailed, got {:?}", other),
    }
    match decrypt_mnemonic(&encrypted, "pw", "abc", &nonce) {
        Err(CryptoError::DecryptionFailed(_)) => {}
        other => panic!("expected DecryptionFailed, got {:?}", other),
    }
    match decrypt_mnemonic(&encrypted, "pw", &salt, "00") {
        Err(CryptoError::DecryptionFailed(_)) => {}
        other => panic!("expected DecryptionFailed, got {:?}", other),
    }
}

#[test]
fn test_decrypt_rejects_bad_salt_length() {
    let (encrypted, _salt, nonce) = encrypt_mnemonic("m", "pw").unwrap();
    // A 2-byte salt is below the key-derivation minimum of 8 bytes.
    match decrypt_mnemonic(&encrypted, "pw", "0000", &nonce) {
        Err(CryptoError::KeyDerivationFailed(_)) => {}
        other => panic!("expected KeyDerivationFailed, got {:?}", other),
    }
}

#[test]
fn test_decrypt_rejects_tampered_ciphertext() {
    let (encrypted, salt, nonce) = encrypt_mnemonic("do not tamper", "pw").unwrap();
    let first = encrypted.chars().next().unwrap();
    let flipped = if first == '0' { '1' } else { '0' };
    let mut tampered = String::new();
    tampered.push(flipped);
    tampered.push_str(&encrypted[1..]);
    let result = decrypt_mnemonic(&tampered, "pw", &salt, &nonce);
    match result {
        Err(CryptoError::DecryptionFailed(_)) => {}
        other => panic!("expected DecryptionFailed, got {:?}", other),
    }
}

#[test]
fn test_round_trip_helper() {
    let mnemonic = "abandon ability able about above absent absorb abstract absurd abuse access accident";
    assert_eq!(encrypt_decrypt_round_trip(mnemonic, "pw"), Some(mnemonic.to_string()));
    assert_eq!(encrypt_decrypt_round_trip("", "pw"), None);
    assert_eq!(encrypt_decrypt_round_trip("m", ""), None);
}

#[test]
fn test_error_messages() {
    match encrypt_mnemonic("", "password") {
        Err(e) => assert_eq!(e.message(), "Invalid input: Mnemonic cannot be empty"),
        Ok(_) => panic!("expected an error"),
    }
    match decrypt_mnemonic("zz", "pw", "00000000000000000000000000000000", "000000000000000000000000") {
        Err(e) => assert_eq!(e.message(), "Decryption failed: Invalid encrypted data"),
        Ok(_) => panic!("expected an error"),
    }
}
