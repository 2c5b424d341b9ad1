use backend_rust::{decrypt_bytes, encrypt, EncryptRequest, KeyMaterial};

fn request(password: &str) -> EncryptRequest {
    EncryptRequest { password: password.to_string() }
}

fn is_base64_text(s: &str) -> bool {
    s.len() % 4 == 0
        && s.chars().all(|c| c.is_ascii_alphanumeric() || c == '+' || c == '/' || c == '=')
}

#[test]
fn hello_encrypts_to_one_block() {
    let r = encrypt(&request("hello"));
    assert!(is_base64_text(&r.encrypted_password));
    assert_eq!(r.encrypted_password.len(), 24);
    let bytes = base64::decode(&r.encrypted_password).unwrap();
    assert_eq!(bytes.len(), 16);
    assert_eq!(decrypt_bytes(&KeyMaterial::fixed(), &bytes), Some(b"hello".to_vec()));
}

#[test]
fn empty_password_is_one_padding_block() {
    let r = encrypt(&request(""));
    let bytes = base64::decode(&r.encrypted_password).unwrap();
    assert_eq!(bytes.len(), 16);
    assert_eq!(decrypt_bytes(&KeyMaterial::fixed(), &bytes), Some(Vec::new()));
}

#[test]
fn identical_passwords_give_identical_responses() {
    let a = encrypt(&request("correct horse battery staple"));
    let b = encrypt(&request("correct horse battery staple"));
    assert_eq!(a.encrypted_password, b.encrypted_password);
}

#[test]
fn different_passwords_give_different_responses() {
    let a = encrypt(&request("hello"));
    let b = encrypt(&request("hellp"));
    assert_ne!(a.encrypted_password, b.encrypted_password);
}

#[test]
fn response_is_base64_of_the_ciphertext() {
    let r = encrypt(&request("sixteen byte pwd"));
    let c = backend_rust::encrypt_bytes(&KeyMaterial::fixed(), b"sixteen byte pwd");
    assert_eq!(c.len(), 32);
    assert_eq!(r.encrypted_password, base64::encode(&c));
    assert_eq!(r.encrypted_password.len(), 44);
}

#[test]
fn non_ascii_password_round_trips() {
    let r = encrypt(&request("pässwörd ✓"));
    let bytes = base64::decode(&r.encrypted_password).unwrap();
    assert_eq!(bytes.len() % 16, 0);
    let plain = decrypt_bytes(&KeyMaterial::fixed(), &bytes).unwrap();
    assert_eq!(String::from_utf8(plain).unwrap(), "pässwörd ✓");
}
