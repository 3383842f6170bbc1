use vstd::prelude::*;

use crate::ctx;

verus! {

/// What a client may learn of a failure: a category, never free text.
#[derive(Clone, Copy, Debug, PartialEq, Eq, Structural)]
pub enum ClientError {
    LoginFail,
    NoAuth,
    InvalidParams,
    ServiceError,
}

impl ClientError {
    /// The category's name on the wire.
    pub open spec fn spec_name(self) -> Seq<char> {
        match self {
            ClientError::LoginFail => "LOGIN_FAIL"@,
            ClientError::NoAuth => "NO_AUTH"@,
            ClientError::InvalidParams => "INVALID_PARAMS"@,
            ClientError::ServiceError => "SERVICE_ERROR"@,
        }
    }

    pub fn name(&self) -> (r: &'static str)
        ensures
            r@ == self.spec_name(),
    {
        match self {
            ClientError::LoginFail => "LOGIN_FAIL",
            ClientError::NoAuth => "NO_AUTH",
            ClientError::InvalidParams => "INVALID_PARAMS",
            ClientError::ServiceError => "SERVICE_ERROR",
        }
    }
}

/// Internal service failures. They carry full diagnostic detail and never
/// reach a client verbatim.
#[derive(Debug)]
pub enum Error {
    LoginFail,
    // -- Auth.
    AuthFailNoAuthTokenCookie,
    AuthFailTokenWrongFormat,
    AuthFailCtxNotInRequestExt,
    CtxCreateFail(ctx::Error),
    // -- Configuration.
    MissingENV(&'static str),
    ENVWrongFormat(&'static str),
    // -- Persistence.
    FailToConnectPool(String),
    FailedToCreateFood,
    CreateFailed(String),
    FailedToSelectFood,
    SelectFailed(String),
    FailedToUpdateFood,
    UpdateFailed(String),
    FailedToDeleteFood,
    DeleteFailed(String),
    FoodIdNotFound(String),
    FoodStampCodeNotFound(String),
}

impl Clone for Error {
    fn clone(&self) -> (r: Self)
        ensures
            r == *self,
    {
        match self {
            Error::LoginFail => Error::LoginFail,
            Error::AuthFailNoAuthTokenCookie => Error::AuthFailNoAuthTokenCookie,
            Error::AuthFailTokenWrongFormat => Error::AuthFailTokenWrongFormat,
            Error::AuthFailCtxNotInRequestExt => Error::AuthFailCtxNotInRequestExt,
            Error::CtxCreateFail(e) => Error::CtxCreateFail(*e),
            Error::MissingENV(n) => Error::MissingENV(n),
            Error::ENVWrongFormat(n) => Error::ENVWrongFormat(n),
            Error::FailToConnectPool(m) => Error::FailToConnectPool(m.clone()),
            Error::FailedToCreateFood => Error::FailedToCreateFood,
            Error::CreateFailed(m) => Error::CreateFailed(m.clone()),
            Error::FailedToSelectFood => Error::FailedToSelectFood,
            Error::SelectFailed(m) => Error::SelectFailed(m.clone()),
            Error::FailedToUpdateFood => Error::FailedToUpdateFood,
            Error::UpdateFailed(m) => Error::UpdateFailed(m.clone()),
            Error::FailedToDeleteFood => Error::FailedToDeleteFood,
            Error::DeleteFailed(m) => Error::DeleteFailed(m.clone()),
            Error::FoodIdNotFound(m) => Error::FoodIdNotFound(m.clone()),
            Error::FoodStampCodeNotFound(m) => Error::FoodStampCodeNotFound(m.clone()),
        }
    }
}

/// The HTTP status of a response that has no client mapping.
pub const INTERNAL_SERVER_ERROR: u16 = 500;

impl Error {
    /// The fixed table from internal errors to what a client is told:
    /// a status and a category, or nothing for errors kept internal.
    pub open spec fn spec_client_status_and_error(&self) -> Option<(u16, ClientError)> {
        match self {
            Error::LoginFail => Some((403, ClientError::LoginFail)),
            Error::AuthFailNoAuthTokenCookie
            | Error::AuthFailTokenWrongFormat
            | Error::AuthFailCtxNotInRequestExt
            | Error::CtxCreateFail(_) => Some((403, ClientError::NoAuth)),
            Error::FoodIdNotFound(_) | Error::FoodStampCodeNotFound(_) => Some(
                (400, ClientError::InvalidParams),
            ),
            _ => None,
        }
    }

    pub fn client_status_and_error(&self) -> (r: Option<(u16, ClientError)>)
        ensures
            r == self.spec_client_status_and_error(),
    {
        match self {
            Error::LoginFail => Some((403, ClientError::LoginFail)),
            Error::AuthFailNoAuthTokenCookie
            | Error::AuthFailTokenWrongFormat
            | Error::AuthFailCtxNotInRequestExt
            | Error::CtxCreateFail(_) => Some((403, ClientError::NoAuth)),
            Error::FoodIdNotFound(_) | Error::FoodStampCodeNotFound(_) => Some(
                (400, ClientError::InvalidParams),
            ),
            _ => None,
        }
    }
}

} // verus!
