//! The shared-secret checks that guard the three kinds of request.
use vstd::prelude::*;

use crate::config::ConfigApp;

verus! {

/// A request that carried the database secret.
#[derive(Debug)]
pub struct DbAuthHeader(pub String);

/// A request that carried the log secret.
#[derive(Debug)]
pub struct LogAuthHeader(pub String);

/// A relay connection request that carried the relay secret.
#[derive(Debug)]
pub struct WebsocketAuthHeader(pub String);

/// Why an HTTP request was refused.
#[derive(Clone, Copy, Debug, PartialEq, Eq, Structural)]
pub enum AuthError {
    Missing,
    Invalid,
}

/// Why a relay connection request was refused.
#[derive(Clone, Copy, Debug, PartialEq, Eq, Structural)]
pub enum WebsocketAuthError {
    Missing,
    Invalid,
}

/// Whether `token` is the log secret.
pub fn check_log_auth(token: String, config: &ConfigApp) -> (r: bool)
    ensures
        r == (token@ == config.auth.log@),
{
    token == config.auth.log
}

/// Whether `token` is the database secret.
pub fn check_db_auth(token: String, config: &ConfigApp) -> (r: bool)
    ensures
        r == (token@ == config.auth.db@),
{
    token == config.auth.db
}

/// Whether `token` is the relay secret.
pub fn check_ws_auth(token: String, config: &ConfigApp) -> (r: bool)
    ensures
        r == (token@ == config.auth.ws@),
{
    token == config.auth.ws
}

/// The outcome of an HTTP request's `Authorization` header against `secret`:
/// missing, wrong, or the header itself.
pub open spec fn header_outcome(header: Option<String>, secret: Seq<char>) -> Result<
    Seq<char>,
    AuthError,
> {
    match header {
        Some(h) => if h@ == secret {
            Ok(h@)
        } else {
            Err(AuthError::Invalid)
        },
        None => Err(AuthError::Missing),
    }
}

/// Accept a log request whose header holds the log secret.
pub fn authorize_log(header: Option<String>, config: &ConfigApp) -> (r: Result<
    LogAuthHeader,
    AuthError,
>)
    ensures
        match r {
            Ok(h) => header_outcome(header, config.auth.log@) == Ok::<Seq<char>, AuthError>(h.0@),
            Err(e) => header_outcome(header, config.auth.log@) == Err::<Seq<char>, AuthError>(e),
        },
{
    match header {
        Some(h) => if check_log_auth(h.clone(), config) {
            Ok(LogAuthHeader(h))
        } else {
            Err(AuthError::Invalid)
        },
        None => Err(AuthError::Missing),
    }
}

/// Accept a database request whose header holds the database secret.
pub fn authorize_db(header: Option<String>, config: &ConfigApp) -> (r: Result<
    DbAuthHeader,
    AuthError,
>)
    ensures
        match r {
            Ok(h) => header_outcome(header, config.auth.db@) == Ok::<Seq<char>, AuthError>(h.0@),
            Err(e) => header_outcome(header, config.auth.db@) == Err::<Seq<char>, AuthError>(e),
        },
{
    match header {
        Some(h) => if check_db_auth(h.clone(), config) {
            Ok(DbAuthHeader(h))
        } else {
            Err(AuthError::Invalid)
        },
        None => Err(AuthError::Missing),
    }
}

/// The outcome of a relay connection request: the `authorization` cookie
/// decides when there is one, the `Authorization` header otherwise.
pub open spec fn ws_outcome(cookie: Option<String>, header: Option<String>, secret: Seq<char>) -> Result<
    Seq<char>,
    WebsocketAuthError,
> {
    let presented = match cookie {
        Some(c) => Some(c),
        None => header,
    };
    match presented {
        Some(t) => if t@ == secret {
            Ok(t@)
        } else {
            Err(WebsocketAuthError::Invalid)
        },
        None => Err(WebsocketAuthError::Missing),
    }
}

/// Accept a relay connection request that presents the relay secret.
pub fn authorize_ws(cookie: Option<String>, header: Option<String>, config: &ConfigApp) -> (r:
    Result<WebsocketAuthHeader, WebsocketAuthError>)
    ensures
        match r {
            Ok(h) => ws_outcome(cookie, header, config.auth.ws@) == Ok::<
                Seq<char>,
                WebsocketAuthError,
            >(h.0@),
            Err(e) => ws_outcome(cookie, header, config.auth.ws@) == Err::<
                Seq<char>,
                WebsocketAuthError,
            >(e),
        },
{
    let presented = match cookie {
        Some(c) => Some(c),
        None => header,
    };
    match presented {
        Some(t) => if check_ws_auth(t.clone(), config) {
            Ok(WebsocketAuthHeader(t))
        } else {
            Err(WebsocketAuthError::Invalid)
        },
        None => Err(WebsocketAuthError::Missing),
    }
}

} // verus!
