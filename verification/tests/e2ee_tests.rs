use base64::engine::general_purpose;
use base64::Engine;
use ren_sdk::{
    decrypt_file, decrypt_file_chunked, decrypt_message, decrypt_message_with_envelope,
    decrypt_message_with_secret, derive_key_from_password, derive_key_from_string,
    encrypt_file_chunked, encrypt_file_for_recipients, encrypt_message,
    encrypt_message_for_recipients, encrypt_message_with_secret, export_private_key_b64,
    export_public_key_b64, generate_key_pair, generate_message_encryption_key, generate_nonce,
    generate_salt, import_private_key_b64, import_public_key_b64, unwrap_symmetric_key,
    wrap_symmetric_key, CryptoError,
};
use std::collections::HashSet;

#[test]
fn test_tampering_any_single_bit_fails() {
    let key = generate_message_encryption_key();
    let enc = encrypt_message("tamper-check", &key).unwrap();
    let ct = general_purpose::STANDARD.decode(&enc.ciphertext).unwrap();
    for byte in 0..ct.len() {
        for bit in 0..8 {
            let mut bad = ct.clone();
            bad[byte] ^= 1u8 << bit;
            let bad_b64 = general_purpose::STANDARD.encode(&bad);
            let res = decrypt_message(&bad_b64, &enc.nonce, &key);
            assert_eq!(res.unwrap_err(), CryptoError::DecryptionFailed);
        }
    }
    let nonce = general_purpose::STANDARD.decode(&enc.nonce).unwrap();
    for byte in 0..nonce.len() {
        for bit in 0..8 {
            let mut bad = nonce.clone();
            bad[byte] ^= 1u8 << bit;
            let bad_b64 = general_purpose::STANDARD.encode(&bad);
            let res = decrypt_message(&enc.ciphertext, &bad_b64, &key);
            assert_eq!(res.unwrap_err(), CryptoError::DecryptionFailed);
        }
    }
}

#[test]
fn test_wrong_derived_key_is_rejected() {
    let key1 = derive_key_from_string("one-secret").unwrap();
    let key2 = derive_key_from_string("another-secret").unwrap();
    let enc = encrypt_message("confidential", &key1).unwrap();
    let res = decrypt_message(&enc.ciphertext, &enc.nonce, &key2);
    assert_eq!(res.unwrap_err(), CryptoError::DecryptionFailed);
}

#[test]
fn test_unwrap_with_wrong_private_key_fails() {
    let receiver = generate_key_pair(false);
    let stranger = generate_key_pair(false);
    let msg_key = generate_message_encryption_key();
    let (wrapped, eph_pub, nonce) = wrap_symmetric_key(&msg_key, &receiver.public_key).unwrap();
    let good = unwrap_symmetric_key(&wrapped, &eph_pub, &nonce, &receiver.private_key).unwrap();
    assert_eq!(good.to_bytes(), msg_key.to_bytes());
    let bad = unwrap_symmetric_key(&wrapped, &eph_pub, &nonce, &stranger.private_key);
    assert_eq!(bad.unwrap_err(), CryptoError::DecryptionFailed);
}

#[test]
fn test_multi_recipient_fan_out() {
    let a = generate_key_pair(false);
    let b = generate_key_pair(false);
    let c = generate_key_pair(false);
    let recipients = vec![
        (1i64, a.public_key.clone()),
        (2i64, b.public_key.clone()),
        (3i64, c.public_key.clone()),
    ];
    let (ciphertext, envelopes) =
        encrypt_message_for_recipients("shared plaintext", &recipients).unwrap();
    assert_eq!(envelopes.len(), 3);

    let eph_keys: HashSet<String> =
        envelopes.iter().map(|(_, env)| env.ephem_pub_key.clone()).collect();
    assert_eq!(eph_keys.len(), 3);

    let private_keys = [&a.private_key, &b.private_key, &c.private_key];
    for (i, (uid, env)) in envelopes.iter().enumerate() {
        assert_eq!(*uid, (i + 1) as i64);
        let dec = decrypt_message_with_envelope(&ciphertext, env, private_keys[i]).unwrap();
        assert_eq!(dec, "shared plaintext");
    }

    // an envelope is useless to anyone but its owner
    let cross = decrypt_message_with_envelope(&ciphertext, &envelopes[0].1, &b.private_key);
    assert!(cross.is_err());
}

#[test]
fn test_multi_recipient_fails_whole_on_bad_key() {
    let a = generate_key_pair(false);
    let recipients = vec![
        (1i64, a.public_key.clone()),
        (2i64, "definitely not a key".to_string()),
    ];
    let res = encrypt_message_for_recipients("nobody reads this", &recipients);
    assert_eq!(res.unwrap_err(), CryptoError::InvalidKey);
}

#[test]
fn test_encrypt_file_for_recipients_round_trip() {
    let a = generate_key_pair(false);
    let b = generate_key_pair(false);
    let recipients = vec![(7i64, a.public_key.clone()), (8i64, b.public_key.clone())];
    let data = b"binary\x00contents".to_vec();
    let (ciphertext, nonce, envelopes) =
        encrypt_file_for_recipients(&data, "pic.png", "image/png", &recipients).unwrap();
    assert_eq!(envelopes.len(), 2);
    for (env, sk) in envelopes.iter().zip([&a.private_key, &b.private_key]) {
        let file_key = unwrap_symmetric_key(&env.1.key, &env.1.ephem_pub_key, &env.1.iv, sk)
            .unwrap();
        let dec = decrypt_file(&ciphertext, &nonce, &file_key).unwrap();
        assert_eq!(dec, data);
    }
}

#[test]
fn test_salt_nonce_sizing_and_uniqueness() {
    let mut salts = HashSet::new();
    let mut nonces = HashSet::new();
    for _ in 0..10_000 {
        let salt_b64 = generate_salt();
        let salt = general_purpose::STANDARD.decode(&salt_b64).unwrap();
        assert_eq!(salt.len(), 16);
        assert!(salts.insert(salt_b64));

        let nonce_b64 = generate_nonce();
        let nonce = general_purpose::STANDARD.decode(&nonce_b64).unwrap();
        assert_eq!(nonce.len(), 12);
        assert!(nonces.insert(nonce_b64));
    }
}

#[test]
fn test_derivation_is_deterministic() {
    let salt = generate_salt();
    let k1 = derive_key_from_password("correct horse", &salt).unwrap();
    let k2 = derive_key_from_password("correct horse", &salt).unwrap();
    assert_eq!(k1.to_bytes(), k2.to_bytes());

    let s1 = derive_key_from_string("battery staple").unwrap();
    let s2 = derive_key_from_string("battery staple").unwrap();
    assert_eq!(s1.to_bytes(), s2.to_bytes());

    // a different salt or password must move the key
    let other_salt = generate_salt();
    let k3 = derive_key_from_password("correct horse", &other_salt).unwrap();
    assert_ne!(k1.to_bytes(), k3.to_bytes());
    let k4 = derive_key_from_password("incorrect horse", &salt).unwrap();
    assert_ne!(k1.to_bytes(), k4.to_bytes());
}

#[test]
fn test_string_derivation_known_answer() {
    // SHA-256 of the ASCII bytes of "secret"
    let expected = [
        0x2bu8, 0xb8, 0x0d, 0x53, 0x7b, 0x1d, 0xa3, 0xe3, 0x8b, 0xd3, 0x03, 0x61, 0xaa, 0x85,
        0x56, 0x86, 0xbd, 0xe0, 0xea, 0xcd, 0x71, 0x62, 0xfe, 0xf6, 0xa2, 0x5f, 0xe9, 0x7b,
        0xf5, 0x27, 0xa2, 0x5b,
    ];
    let key = derive_key_from_string("secret").unwrap();
    assert_eq!(key.to_bytes(), expected.to_vec());
}

#[test]
fn test_end_to_end_secret_scenario() {
    let enc = encrypt_message_with_secret("my-secret", "hello").unwrap();
    let dec = decrypt_message_with_secret("my-secret", &enc.ciphertext, &enc.nonce).unwrap();
    assert_eq!(dec, "hello");
    let bad = decrypt_message_with_secret("wrong-secret", &enc.ciphertext, &enc.nonce);
    assert!(bad.is_err());
}

#[test]
fn test_end_to_end_wrap_scenario() {
    let receiver = generate_key_pair(true);
    let message_key = generate_message_encryption_key();
    let (wrapped, eph_pub, nonce) = wrap_symmetric_key(&message_key, &receiver.public_key).unwrap();
    let unwrapped =
        unwrap_symmetric_key(&wrapped, &eph_pub, &nonce, &receiver.private_key).unwrap();
    assert_eq!(unwrapped.to_bytes(), message_key.to_bytes());

    let other = generate_key_pair(true);
    let bad = unwrap_symmetric_key(&wrapped, &eph_pub, &nonce, &other.private_key);
    assert!(bad.is_err());
}

#[test]
fn test_ciphertext_is_real_base64_with_tag() {
    let key = generate_message_encryption_key();
    let enc = encrypt_message("sixteen-byte-msg", &key).unwrap();
    let ct = general_purpose::STANDARD.decode(&enc.ciphertext).unwrap();
    // ciphertext carries a 16-byte tag and never equals the plaintext
    assert_eq!(ct.len(), "sixteen-byte-msg".len() + 16);
    assert_ne!(&ct[..16], "sixteen-byte-msg".as_bytes());
}

#[test]
fn test_unicode_message_round_trip() {
    let key = generate_message_encryption_key();
    let msg = "ünïcodé ✉ сообщение";
    let enc = encrypt_message(msg, &key).unwrap();
    let dec = decrypt_message(&enc.ciphertext, &enc.nonce, &key).unwrap();
    assert_eq!(dec, msg);
}

#[test]
fn test_key_import_export_round_trip() {
    let kp = generate_key_pair(false);
    let pk = import_public_key_b64(&kp.public_key).unwrap();
    let sk = import_private_key_b64(&kp.private_key).unwrap();
    assert_eq!(pk.len(), 32);
    assert_eq!(sk.len(), 32);
    assert_eq!(export_public_key_b64(&pk).unwrap(), kp.public_key);
    assert_eq!(export_private_key_b64(&sk).unwrap(), kp.private_key);

    assert_eq!(
        import_public_key_b64("@@@").unwrap_err(),
        CryptoError::InvalidKey
    );
    assert_eq!(
        import_private_key_b64("c2hvcnQ=").unwrap_err(),
        CryptoError::InvalidKey
    );
}

#[test]
fn test_error_variants_for_malformed_inputs() {
    let key = generate_message_encryption_key();

    // salt text that is not Base64, and one that decodes to the wrong length
    assert_eq!(
        derive_key_from_password("pw", "!!!").unwrap_err(),
        CryptoError::InvalidSalt
    );
    let short_salt = general_purpose::STANDARD.encode([0u8; 8]);
    assert_eq!(
        derive_key_from_password("pw", &short_salt).unwrap_err(),
        CryptoError::InvalidSalt
    );

    // a wrap against garbage key material
    assert_eq!(
        wrap_symmetric_key(&key, "not a key").unwrap_err(),
        CryptoError::InvalidKey
    );

    // ciphertext that is not Base64, and a nonce of the wrong length
    assert_eq!(
        decrypt_message("%%%", "AAAAAAAAAAAAAAAA", &key).unwrap_err(),
        CryptoError::InvalidEncoding
    );
    let enc = encrypt_message("x", &key).unwrap();
    let eleven = general_purpose::STANDARD.encode([0u8; 11]);
    assert_eq!(
        decrypt_message(&enc.ciphertext, &eleven, &key).unwrap_err(),
        CryptoError::InvalidEncoding
    );
}

#[test]
fn test_error_descriptions() {
    assert_eq!(CryptoError::InvalidEncoding.describe(), "invalid encoding");
    assert_eq!(CryptoError::InvalidSalt.describe(), "invalid salt");
    assert_eq!(CryptoError::InvalidKey.describe(), "invalid key");
    assert_eq!(CryptoError::DecryptionFailed.describe(), "decryption failed");
    assert_eq!(CryptoError::DerivationFailed.describe(), "derivation failed");
}

#[test]
fn test_encrypt_decrypt_file_chunked() {
    let key = generate_message_encryption_key();
    let data: Vec<u8> = (0u8..=249).collect();
    let ef = encrypt_file_chunked(&data, "big.bin", "application/octet-stream", 64, &key).unwrap();
    assert_eq!(ef.chunk_count, 4);
    assert_eq!(ef.chunks.len(), 4);
    assert_eq!(ef.nonces.len(), 4);
    assert_eq!(ef.chunk_size, 64);
    assert_eq!(ef.size, 250);

    let joined = decrypt_file_chunked(&ef.chunks, &ef.nonces, &key).unwrap();
    assert_eq!(joined, data);

    // any chunk is independently decryptable once the key is known
    let second = decrypt_file(&ef.chunks[1], &ef.nonces[1], &key).unwrap();
    assert_eq!(second, data[64..128].to_vec());

    // chunk lists of different lengths are refused outright
    let trimmed = ef.nonces[..3].to_vec();
    assert_eq!(
        decrypt_file_chunked(&ef.chunks, &trimmed, &key).unwrap_err(),
        CryptoError::InvalidEncoding
    );
}
