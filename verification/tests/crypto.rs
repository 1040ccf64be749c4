use rustui::crypto::Crypto;
use rustui::admin::hash_password;
use base64::Engine as _;
use aes_gcm::aead::{Aead, KeyInit};
use sha2::Digest;

#[test]
fn test_encrypt_decrypt() {
    let crypto = Crypto::new("test_passphrase");
    let message = "Hello, World!";

    let encrypted = crypto.encrypt(message).unwrap();
    let decrypted = crypto.decrypt(&encrypted).unwrap();

    assert_eq!(message, decrypted);
}

#[test]
fn test_different_keys() {
    let crypto1 = Crypto::new("passphrase1");
    let crypto2 = Crypto::new("passphrase2");

    let message = "Secret message";
    let encrypted = crypto1.encrypt(message).unwrap();

    assert!(crypto2.decrypt(&encrypted).is_err());
}

#[test]
fn encrypted_text_is_base64_of_nonce_and_sealed_message() {
    let crypto = Crypto::new("k");
    let message = "héllo wörld";
    let encrypted = crypto.encrypt(message).unwrap();
    assert_ne!(encrypted, message);
    let raw = base64::engine::general_purpose::STANDARD.decode(&encrypted).unwrap();
    assert_eq!(raw.len(), 12 + message.len() + 16);
}

#[test]
fn two_encryptions_use_different_nonces_and_both_decrypt() {
    let crypto = Crypto::new("shared-room-key-2024");
    let a = crypto.encrypt("same").unwrap();
    let b = crypto.encrypt("same").unwrap();
    assert_ne!(a, b);
    assert_eq!(crypto.decrypt(&a).unwrap(), "same");
    assert_eq!(crypto.decrypt(&b).unwrap(), "same");
}

#[test]
fn empty_message_round_trips() {
    let crypto = Crypto::new("");
    let e = crypto.encrypt("").unwrap();
    assert_eq!(crypto.decrypt(&e).unwrap(), "");
}

#[test]
fn same_passphrase_gives_same_key() {
    let a = Crypto::new("shared");
    let b = Crypto::new("shared");
    let e = a.encrypt("hi there").unwrap();
    assert_eq!(b.decrypt(&e).unwrap(), "hi there");
}

#[test]
fn decrypt_rejects_invalid_base64() {
    let crypto = Crypto::new("k");
    let err = crypto.decrypt("not base64 !!").unwrap_err();
    assert!(err.starts_with("Base64 decode failed: "), "{}", err);
}

#[test]
fn decrypt_rejects_short_payload() {
    let crypto = Crypto::new("k");
    let short = base64::engine::general_purpose::STANDARD.encode([1u8, 2, 3]);
    assert_eq!(crypto.decrypt(&short).unwrap_err(), "Invalid encrypted data: too short");
}

#[test]
fn decrypt_rejects_tampered_ciphertext() {
    let crypto = Crypto::new("k");
    let encrypted = crypto.encrypt("message").unwrap();
    let mut raw = base64::engine::general_purpose::STANDARD.decode(&encrypted).unwrap();
    let last = raw.len() - 1;
    raw[last] ^= 1;
    let tampered = base64::engine::general_purpose::STANDARD.encode(&raw);
    assert_eq!(crypto.decrypt(&tampered).unwrap_err(), "Decryption failed: aead::Error");
}

#[test]
fn decrypt_rejects_nonce_only() {
    let crypto = Crypto::new("k");
    let nonce_only = base64::engine::general_purpose::STANDARD.encode([0u8; 12]);
    assert_eq!(crypto.decrypt(&nonce_only).unwrap_err(), "Decryption failed: aead::Error");
}

#[test]
fn password_hash_is_hex_sha256() {
    assert_eq!(
        hash_password("abc"),
        "ba7816bf8f01cfea414140de5dae2223b00361a396177a9cb410ff61f20015ad"
    );
    assert_eq!(
        hash_password(""),
        "e3b0c44298fc1c149afbf4c8996fb92427ae41e4649b934ca495991b7852b855"
    );
}

#[test]
fn decrypt_rejects_non_utf8_plaintext() {
    let key = sha2::Sha256::digest(b"k");
    let cipher = aes_gcm::Aes256Gcm::new_from_slice(&key).unwrap();
    let nonce = [7u8; 12];
    let sealed = cipher.encrypt(aes_gcm::Nonce::from_slice(&nonce), [0xffu8, 0xfe].as_ref()).unwrap();
    let mut raw = nonce.to_vec();
    raw.extend_from_slice(&sealed);
    let text = base64::engine::general_purpose::STANDARD.encode(&raw);
    let err = Crypto::new("k").decrypt(&text).unwrap_err();
    assert!(err.starts_with("UTF-8 decode failed: "), "{}", err);
}

#[test]
fn decrypt_accepts_text_sealed_by_the_crate_directly() {
    let key = sha2::Sha256::digest(b"room");
    let cipher = aes_gcm::Aes256Gcm::new_from_slice(&key).unwrap();
    let nonce = [1u8; 12];
    let sealed = cipher.encrypt(aes_gcm::Nonce::from_slice(&nonce), "bonjour".as_bytes()).unwrap();
    let mut raw = nonce.to_vec();
    raw.extend_from_slice(&sealed);
    let text = base64::engine::general_purpose::STANDARD.encode(&raw);
    assert_eq!(Crypto::new("room").decrypt(&text).unwrap(), "bonjour");
}

#[test]
fn sealing_under_a_given_nonce_matches_the_crate() {
    let key = sha2::Sha256::digest(b"room");
    let cipher = aes_gcm::Aes256Gcm::new_from_slice(&key).unwrap();
    let nonce = [9u8; 12];
    let sealed = cipher.encrypt(aes_gcm::Nonce::from_slice(&nonce), "bonjour".as_bytes()).unwrap();
    let mut raw = nonce.to_vec();
    raw.extend_from_slice(&sealed);
    let expected = base64::engine::general_purpose::STANDARD.encode(&raw);
    let crypto = Crypto::new("room");
    let text = crypto.seal_with_nonce(&nonce, "bonjour").unwrap();
    assert_eq!(text, expected);
    assert_eq!(crypto.decrypt(&text).unwrap(), "bonjour");
    let other = Crypto::new("room");
    assert_eq!(other.seal_with_nonce(&nonce, "bonjour").unwrap(), text);
}

#[test]
fn decrypt_error_texts_carry_the_stage_and_its_description() {
    let crypto = Crypto::new("k");
    assert_eq!(crypto.decrypt("!!!!").unwrap_err(), "Base64 decode failed: Invalid byte 33, offset 0.");
    assert_eq!(crypto.decrypt("AAAA").unwrap_err(), "Invalid encrypted data: too short");
    let other = Crypto::new("k");
    assert_eq!(crypto.decrypt("!!!!"), other.decrypt("!!!!"));
}

#[test]
fn encrypted_text_length_is_padded_base64_of_message_plus_28_bytes() {
    let crypto = Crypto::new("k");
    for m in ["", "a", "ab", "abc", "héllo wörld", "0123456789012345678901234567890"] {
        let e = crypto.encrypt(m).unwrap();
        assert_eq!(e.len(), 4 * ((m.len() + 28 + 2) / 3));
    }
}
