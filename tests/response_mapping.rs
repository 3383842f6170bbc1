use web_auth::ctx::Ctx;
use web_auth::error::{ClientError, Error};
use web_auth::res_map::{client_error_body, main_response_mapper, map_response_with_id};

const ID: &str = "123e4567-e89b-42d3-a456-426614174000";

#[test]
fn envelope_text() {
    assert_eq!(
        client_error_body(ClientError::NoAuth, ID),
        "{\"error\":{\"type\":\"NO_AUTH\",\"request_id\":\"123e4567-e89b-42d3-a456-426614174000\"}}"
    );
}

#[test]
fn client_error_names() {
    assert_eq!(ClientError::LoginFail.name(), "LOGIN_FAIL");
    assert_eq!(ClientError::NoAuth.name(), "NO_AUTH");
    assert_eq!(ClientError::InvalidParams.name(), "INVALID_PARAMS");
    assert_eq!(ClientError::ServiceError.name(), "SERVICE_ERROR");
}

#[test]
fn client_mapping_table() {
    assert_eq!(Error::LoginFail.client_status_and_error(), Some((403, ClientError::LoginFail)));
    assert_eq!(
        Error::AuthFailNoAuthTokenCookie.client_status_and_error(),
        Some((403, ClientError::NoAuth))
    );
    assert_eq!(
        Error::AuthFailTokenWrongFormat.client_status_and_error(),
        Some((403, ClientError::NoAuth))
    );
    assert_eq!(
        Error::AuthFailCtxNotInRequestExt.client_status_and_error(),
        Some((403, ClientError::NoAuth))
    );
    assert_eq!(
        Error::FoodIdNotFound("7".to_string()).client_status_and_error(),
        Some((400, ClientError::InvalidParams))
    );
    assert_eq!(Error::CreateFailed("db down".to_string()).client_status_and_error(), None);
    assert_eq!(Error::MissingENV("DB_HOST").client_status_and_error(), None);
}

#[test]
fn missing_cookie_on_protected_route_maps_to_no_auth() {
    let m = map_response_with_id(
        None,
        "/api/tickets",
        "GET",
        Some(&Error::AuthFailNoAuthTokenCookie),
        ID,
    );
    let resp = m.replacement.unwrap();
    assert_eq!(resp.status, 403);
    assert_eq!(
        resp.body,
        "{\"error\":{\"type\":\"NO_AUTH\",\"request_id\":\"123e4567-e89b-42d3-a456-426614174000\"}}"
    );
    let log = m.log.unwrap();
    assert_eq!(log.request_id, ID);
    assert_eq!(log.method, "GET");
    assert_eq!(log.uri, "/api/tickets");
    assert_eq!(log.user_id, None);
    assert_eq!(log.client_error, Some(ClientError::NoAuth));
    assert!(format!("{:?}", log.error).contains("NoAuthTokenCookie"));
}

#[test]
fn success_passes_through() {
    let m = map_response_with_id(None, "/hello", "GET", None, ID);
    assert!(m.replacement.is_none());
    assert!(m.log.is_none());
    let m = main_response_mapper(Some(Ctx::new(5).unwrap()), "/hello", "GET", None);
    assert!(m.replacement.is_none());
    assert!(m.log.is_none());
}

#[test]
fn unmapped_error_is_logged_but_not_replaced() {
    let ctx = Ctx::new(12).unwrap();
    let m = map_response_with_id(
        Some(ctx),
        "/api/create",
        "POST",
        Some(&Error::CreateFailed("secret detail".to_string())),
        ID,
    );
    assert!(m.replacement.is_none());
    let log = m.log.unwrap();
    assert_eq!(log.user_id, Some(12));
    assert_eq!(log.client_error, None);
    assert!(format!("{:?}", log.error).contains("secret detail"));
}

#[test]
fn body_carries_no_diagnostic_text() {
    let m = map_response_with_id(
        None,
        "/api/select/1",
        "GET",
        Some(&Error::FoodIdNotFound("row 1 missing in foods_table".to_string())),
        ID,
    );
    let resp = m.replacement.unwrap();
    assert_eq!(resp.status, 400);
    assert!(!resp.body.contains("foods_table"));
    assert!(resp.body.contains("INVALID_PARAMS"));
}

fn is_uuid_v4(s: &str) -> bool {
    let b: Vec<char> = s.chars().collect();
    b.len() == 36
        && b.iter().enumerate().all(|(i, c)| {
            if i == 8 || i == 13 || i == 18 || i == 23 {
                *c == '-'
            } else {
                c.is_ascii_digit() || ('a'..='f').contains(c)
            }
        })
        && b[14] == '4'
}

#[test]
fn fresh_request_ids_are_uuids_and_differ() {
    let e = Error::AuthFailTokenWrongFormat;
    let m1 = main_response_mapper(None, "/api/tickets", "GET", Some(&e));
    let m2 = main_response_mapper(None, "/api/tickets", "GET", Some(&e));
    let id1 = m1.log.unwrap().request_id;
    let id2 = m2.log.unwrap().request_id;
    assert!(is_uuid_v4(&id1));
    assert!(is_uuid_v4(&id2));
    assert_ne!(id1, id2);
    let body = m1.replacement.unwrap().body;
    assert_eq!(body, client_error_body(ClientError::NoAuth, &id1));
}
