use web_auth::error::Error;
use web_auth::token::parse_token;

fn is_format_error(r: &Result<web_auth::token::Credential, Error>) -> bool {
    matches!(r, Err(Error::AuthFailTokenWrongFormat))
}

#[test]
fn parses_well_formed_token() {
    let c = parse_token("user-42.2024-01-01.sig-abc").unwrap();
    assert_eq!(c.user_id, 42);
    assert_eq!(c.expiration, "2024-01-01");
    assert_eq!(c.signature, "sig-abc");
}

#[test]
fn bogus_token_is_format_error() {
    assert!(is_format_error(&parse_token("bogus")));
}

#[test]
fn empty_token_is_format_error() {
    assert!(is_format_error(&parse_token("")));
}

#[test]
fn missing_dot_is_format_error() {
    assert!(is_format_error(&parse_token("user-42.2024-01-01")));
    assert!(is_format_error(&parse_token("user-42")));
}

#[test]
fn non_numeric_identity_is_format_error() {
    assert!(is_format_error(&parse_token("user-abc.exp.sig")));
    assert!(is_format_error(&parse_token("user-.exp.sig")));
    assert!(is_format_error(&parse_token("user-4x2.exp.sig")));
}

#[test]
fn empty_segments_are_format_errors() {
    assert!(is_format_error(&parse_token("user-42..sig")));
    assert!(is_format_error(&parse_token("user-42.exp.")));
}

#[test]
fn wrong_prefix_is_format_error() {
    assert!(is_format_error(&parse_token("usr-42.exp.sig")));
    assert!(is_format_error(&parse_token("User-42.exp.sig")));
}

#[test]
fn largest_identity_parses() {
    let c = parse_token("user-18446744073709551615.e.s").unwrap();
    assert_eq!(c.user_id, u64::MAX);
}

#[test]
fn overflowing_identity_is_format_error() {
    assert!(is_format_error(&parse_token("user-18446744073709551616.e.s")));
    assert!(is_format_error(&parse_token("user-99999999999999999999999.e.s")));
}

#[test]
fn leading_zeros_are_accepted() {
    assert_eq!(parse_token("user-007.e.s").unwrap().user_id, 7);
}

#[test]
fn extra_segments_are_format_errors() {
    assert!(is_format_error(&parse_token("user-1.a.b.c")));
    assert!(is_format_error(&parse_token("user-1.a..")));
    assert!(is_format_error(&parse_token("user-1.a.b.")));
    assert!(is_format_error(&parse_token("user-1..a.b")));
}

#[test]
fn non_ascii_segments_are_format_errors() {
    assert!(is_format_error(&parse_token("user-5.é.s")));
    assert!(is_format_error(&parse_token("user-5.e.ß")));
}

#[test]
fn segments_keep_other_ascii_characters() {
    let c = parse_token("user-3.2024-01-01T00:00Z.a+b/c=").unwrap();
    assert_eq!(c.user_id, 3);
    assert_eq!(c.expiration, "2024-01-01T00:00Z");
    assert_eq!(c.signature, "a+b/c=");
}
