use web_auth::auth::{
    mw_ctx_resolver, mw_requires_auth, resolve_ctx, check_route_access, CtxSlot, RouteAccess, AUTH_TOKEN,
};
use web_auth::ctx::{self, Ctx};
use web_auth::error::Error;

#[test]
fn root_ctx_has_identity_zero() {
    assert_eq!(Ctx::root_ctx().user_id(), 0);
}

#[test]
fn new_ctx_refuses_identity_zero() {
    assert!(matches!(Ctx::new(0), Err(ctx::Error::CtxCannotNewRootCtx)));
}

#[test]
fn new_ctx_keeps_identity() {
    assert_eq!(Ctx::new(42).unwrap().user_id(), 42);
    assert_eq!(Ctx::new(u64::MAX).unwrap().user_id(), u64::MAX);
}

#[test]
fn cookie_name() {
    assert_eq!(AUTH_TOKEN, "auth-token");
}

#[test]
fn resolves_token_to_context() {
    let c = resolve_ctx(Some("user-42.2024-01-01.sig-abc")).unwrap();
    assert_eq!(c.user_id(), 42);
}

#[test]
fn token_for_root_identity_is_refused() {
    assert!(matches!(
        resolve_ctx(Some("user-0.e.s")),
        Err(Error::CtxCreateFail(ctx::Error::CtxCannotNewRootCtx))
    ));
}

#[test]
fn absent_cookie_is_left_alone() {
    let mut slot = CtxSlot::new();
    let remove = mw_ctx_resolver(None, &mut slot);
    assert!(!remove);
    assert!(matches!(slot.get(), Some(Err(Error::AuthFailNoAuthTokenCookie))));
}

#[test]
fn malformed_cookie_is_removed() {
    let mut slot = CtxSlot::new();
    let remove = mw_ctx_resolver(Some("bogus"), &mut slot);
    assert!(remove);
    assert!(matches!(slot.get(), Some(Err(Error::AuthFailTokenWrongFormat))));
}

#[test]
fn root_identity_cookie_is_removed() {
    let mut slot = CtxSlot::new();
    assert!(mw_ctx_resolver(Some("user-0.e.s"), &mut slot));
}

#[test]
fn valid_cookie_is_kept() {
    let mut slot = CtxSlot::new();
    let remove = mw_ctx_resolver(Some("user-7.e.s"), &mut slot);
    assert!(!remove);
    assert_eq!(Ctx::from_request_parts(&slot).unwrap().user_id(), 7);
}

#[test]
fn stored_outcome_is_never_overwritten() {
    let mut slot = CtxSlot::new();
    assert!(slot.insert(Ok(Ctx::new(3).unwrap())));
    assert!(!slot.insert(Err(Error::AuthFailTokenWrongFormat)));
    let remove = mw_ctx_resolver(Some("bogus"), &mut slot);
    assert!(!remove);
    assert_eq!(Ctx::from_request_parts(&slot).unwrap().user_id(), 3);
}

#[test]
fn extractor_without_resolver_fails_distinctly() {
    let slot = CtxSlot::new();
    assert!(matches!(Ctx::from_request_parts(&slot), Err(Error::AuthFailCtxNotInRequestExt)));
}

#[test]
fn extractor_propagates_stored_failure() {
    let mut slot = CtxSlot::new();
    mw_ctx_resolver(None, &mut slot);
    assert!(matches!(Ctx::from_request_parts(&slot), Err(Error::AuthFailNoAuthTokenCookie)));
}

#[test]
fn protected_route_rejects_with_stored_failure() {
    let mut slot = CtxSlot::new();
    mw_ctx_resolver(Some("bogus"), &mut slot);
    assert!(matches!(mw_requires_auth(&slot), Err(Error::AuthFailTokenWrongFormat)));
    let mut handler_ran = false;
    if check_route_access(RouteAccess::Protected, &slot).is_ok() {
        handler_ran = true;
    }
    assert!(!handler_ran);
}

#[test]
fn protected_route_admits_context() {
    let mut slot = CtxSlot::new();
    mw_ctx_resolver(Some("user-9.e.s"), &mut slot);
    assert!(mw_requires_auth(&slot).is_ok());
    assert!(check_route_access(RouteAccess::Protected, &slot).is_ok());
}

#[test]
fn protected_route_without_resolver_is_refused() {
    let slot = CtxSlot::new();
    assert!(matches!(
        check_route_access(RouteAccess::Protected, &slot),
        Err(Error::AuthFailCtxNotInRequestExt)
    ));
}

#[test]
fn public_route_succeeds_after_failed_resolution() {
    let mut slot = CtxSlot::new();
    mw_ctx_resolver(None, &mut slot);
    assert!(check_route_access(RouteAccess::Public, &slot).is_ok());
    let mut slot = CtxSlot::new();
    mw_ctx_resolver(Some("bogus"), &mut slot);
    assert!(check_route_access(RouteAccess::Public, &slot).is_ok());
}
