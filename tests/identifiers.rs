use web_auth::utils::{b32_hex, b58, b64, b64u};

#[test]
fn b32_hex_is_base32hex_of_sixteen_bytes() {
    let s = b32_hex().unwrap();
    assert_eq!(s.len(), 26);
    assert!(s.chars().all(|c| c.is_ascii_digit() || ('A'..='V').contains(&c)));
}

#[test]
fn b64_is_padded_base64_of_sixteen_bytes() {
    let s = b64().unwrap();
    assert_eq!(s.len(), 24);
    assert!(s.ends_with("=="));
    assert!(s[..22].chars().all(|c| c.is_ascii_alphanumeric() || c == '+' || c == '/'));
}

#[test]
fn b64u_is_unpadded_base64_of_sixteen_bytes() {
    let s = b64u().unwrap();
    assert_eq!(s.len(), 22);
    assert!(!s.contains('='));
}

#[test]
fn b58_uses_the_base58_alphabet() {
    let s = b58().unwrap();
    assert!(!s.is_empty() && s.len() <= 22);
    assert!(s.chars().all(|c| c.is_ascii_alphanumeric() && !"0OIl".contains(c)));
}

#[test]
fn identifiers_differ() {
    assert_ne!(b32_hex().unwrap(), b32_hex().unwrap());
}
