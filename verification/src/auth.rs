//! Authentication of requests by a bearer code, and of administrators by a
//! bearer token. The codes are looked up in a cache and then in the
//! analytics database; this module decides, and its caller looks up.

use vstd::prelude::*;
use crate::error::{Error, ErrorDetails};
use crate::text::{has_prefix, is_plain, plain, skip_chars, starts_with, str_eq};

verus! {

/// The name of the header that carries the bearer code.
pub open spec fn auth_code_header() -> Seq<char> {
    "TUPLEAP_AUTHCODE"@
}

/// The name of the header that carries the bearer code.
pub fn auth_code_header_name() -> (r: &'static str)
    ensures
        r@ == auth_code_header(),
{
    "TUPLEAP_AUTHCODE"
}

/// The number of entries that the cache of codes holds at most.
pub const AUTH_CACHE_MAX_CAPACITY: u64 = 10000;

/// The number of seconds after which an entry of the cache is dropped: an hour.
pub const AUTH_CACHE_TIME_TO_LIVE_SECS: u64 = 3600;

/// What the gateway knows of the holder of a bearer code.
#[derive(Clone, Debug, PartialEq)]
pub struct AuthInfo {
    pub tenant_id: String,
    pub username: String,
    pub auth_code: String,
    pub is_valid: bool,
}

/// A row of the table of bearer codes.
#[derive(Debug, Clone, PartialEq)]
pub struct AuthCodeRecord {
    pub auth_code: String,
    pub tenant_id: String,
    pub username: String,
    pub created_at: String,
    pub is_active: u8,
    pub usage_count: u64,
    pub expires_at: Option<String>,
}

/// Says that `e` is an `InvalidAuthToken` error of the bearer code.
pub open spec fn is_invalid_token(e: Error) -> bool {
    e.details matches ErrorDetails::InvalidAuthToken { provider_name } && provider_name@
        == auth_code_header()
}

/// Says that `e` is an `ApiKeyMissing` error of the bearer code.
pub open spec fn is_code_missing(e: Error) -> bool {
    e.details matches ErrorDetails::ApiKeyMissing { provider_name } && provider_name@
        == auth_code_header()
}

fn invalid_token() -> (e: Error)
    ensures
        is_invalid_token(e),
{
    Error::new(ErrorDetails::InvalidAuthToken { provider_name: String::from_str("TUPLEAP_AUTHCODE") })
}

/// The bearer code of a request from the value of its header; a request
/// without the header gives `ApiKeyMissing`.
pub fn extract_auth_code(header: Option<&str>) -> (r: Result<String, Error>)
    ensures
        match header {
            Some(code) => r matches Ok(c) && c@ == code@,
            None => r matches Err(e) && is_code_missing(e),
        },
{
    match header {
        Some(code) => Ok(code.to_string()),
        None => Err(
            Error::new(
                ErrorDetails::ApiKeyMissing { provider_name: String::from_str("TUPLEAP_AUTHCODE") },
            ),
        ),
    }
}

/// The query that finds the active row of a bearer code.
pub open spec fn lookup_query(code: Seq<char>) -> Seq<char> {
    "SELECT auth_code, tenant_id, username, is_active FROM AUTHCode WHERE auth_code = '"@ + code
        + "' AND is_active = 1"@
}

/// The query that counts one more use of a bearer code.
pub open spec fn usage_query(code: Seq<char>) -> Seq<char> {
    "ALTER TABLE AUTHCode UPDATE usage_count = usage_count + 1 WHERE auth_code = '"@ + code + "'"@
}

/// What is done about a bearer code once the cache has been asked.
#[derive(Debug, PartialEq)]
pub enum CacheStep {
    /// The cache knew the code: this is what it holds.
    Hit(AuthInfo),
    /// The cache did not know the code: the database is asked with this query.
    QueryDatabase { query: String },
    /// The code is turned down without asking the database.
    Reject(Error),
}

/// Decides on a bearer code once the cache has been asked: what the cache
/// holds is taken; else the database is asked for the active row of the
/// code. A code that cannot stand in a query is turned down.
pub fn validate_auth_code_with_cache(auth_code: &str, cached: Option<AuthInfo>) -> (r: CacheStep)
    ensures
        match cached {
            Some(info) => r == CacheStep::Hit(info),
            None => if is_plain(auth_code@) {
                r matches CacheStep::QueryDatabase { query } && query@ == lookup_query(auth_code@)
            } else {
                r matches CacheStep::Reject(e) && is_invalid_token(e)
            },
        },
{
    match cached {
        Some(info) => CacheStep::Hit(info),
        None => {
            if !plain(auth_code) {
                return CacheStep::Reject(invalid_token());
            }
            let mut query = String::from_str(
                "SELECT auth_code, tenant_id, username, is_active FROM AUTHCode WHERE auth_code = '",
            );
            query.append(auth_code);
            query.append("' AND is_active = 1");
            CacheStep::QueryDatabase { query }
        },
    }
}

/// Decides on a bearer code once the database has answered: no row means
/// that the code is not known or not active, which gives
/// `InvalidAuthToken`; any row makes the code valid. An error of the
/// database is handed on. What is returned for a valid code goes into the cache.
pub fn validate_auth_code_from_db(result: Result<String, Error>) -> (r: Result<AuthInfo, Error>)
    ensures
        match result {
            Err(e) => r == Err::<AuthInfo, Error>(e),
            Ok(rows) => if rows@.len() == 0 {
                r matches Err(e) && is_invalid_token(e)
            } else {
                &&& r matches Ok(info)
                &&& info.is_valid
                &&& info.tenant_id@.len() == 0
                &&& info.username@.len() == 0
                &&& info.auth_code@.len() == 0
            },
        },
{
    match result {
        Err(e) => Err(e),
        Ok(rows) => {
            if rows.as_str().unicode_len() == 0 {
                Err(invalid_token())
            } else {
                Ok(
                    AuthInfo {
                        tenant_id: String::new(),
                        username: String::new(),
                        auth_code: String::new(),
                        is_valid: true,
                    },
                )
            }
        },
    }
}

/// Decides whether a request goes on, once its code has been validated:
/// it does with the information of a valid code; a code that could not be
/// validated, for whatever reason, and one that is not valid give
/// `InvalidAuthToken`, which tells nothing of what the cache holds.
pub fn authenticate_request(validated: Result<AuthInfo, Error>) -> (r: Result<AuthInfo, Error>)
    ensures
        match validated {
            Ok(info) => if info.is_valid {
                r == Ok::<AuthInfo, Error>(info)
            } else {
                r matches Err(e) && is_invalid_token(e)
            },
            Err(_) => r matches Err(e) && is_invalid_token(e),
        },
{
    match validated {
        Ok(info) => {
            if info.is_valid {
                Ok(info)
            } else {
                Err(invalid_token())
            }
        },
        Err(_) => Err(invalid_token()),
    }
}

/// The query that counts one more use of a bearer code, to be run before
/// the request goes on. A code that cannot stand in a query counts nothing.
pub fn increment_usage_and_stats(auth_code: &str) -> (r: Option<String>)
    ensures
        if is_plain(auth_code@) {
            r matches Some(query) && query@ == usage_query(auth_code@)
        } else {
            r is None
        },
{
    if !plain(auth_code) {
        return None;
    }
    let mut query = String::from_str(
        "ALTER TABLE AUTHCode UPDATE usage_count = usage_count + 1 WHERE auth_code = '",
    );
    query.append(auth_code);
    query.append("'");
    Some(query)
}

/// The prefix of the value of an `Authorization` header that carries a token.
pub open spec fn bearer_prefix() -> Seq<char> {
    "Bearer "@
}

/// What the validation of an administrator's token comes to.
pub enum AdminCheck {
    /// The header is missing or carries no bearer token.
    NoToken,
    /// The configuration has no token for administrators.
    NotConfigured,
    /// The token is not the configured one.
    WrongToken,
    /// The token is the configured one.
    Accepted,
}

/// The validation of an administrator's token: `authorization` is the value
/// of the `Authorization` header, `expected` the token of the configuration.
pub open spec fn admin_check(authorization: Option<Seq<char>>, expected: Option<Seq<char>>) -> AdminCheck {
    match authorization {
        Some(value) => if has_prefix(value, bearer_prefix()) {
            match expected {
                Some(token) => if value.subrange(bearer_prefix().len() as int, value.len() as int)
                    == token {
                    AdminCheck::Accepted
                } else {
                    AdminCheck::WrongToken
                },
                None => AdminCheck::NotConfigured,
            }
        } else {
            AdminCheck::NoToken
        },
        None => AdminCheck::NoToken,
    }
}

/// Validates the token of an administrator. A request without a bearer
/// token gives `ApiKeyMissing`; a configuration without a token gives a
/// `Config` error; a token that is not the configured one gives
/// `BadCredentialsPreInference`.
pub fn validate_admin_token(authorization: Option<&str>, expected: Option<&str>) -> (r: Result<(), Error>)
    ensures
        match admin_check(
            match authorization {
                Some(v) => Some(v@),
                None => None,
            },
            match expected {
                Some(v) => Some(v@),
                None => None,
            },
        ) {
            AdminCheck::Accepted => r is Ok,
            AdminCheck::NoToken => r matches Err(e) && e.details matches ErrorDetails::ApiKeyMissing {
                provider_name,
            } && provider_name@ == "Admin"@,
            AdminCheck::NotConfigured => r matches Err(e) && e.is_config("Admin token not configured"@),
            AdminCheck::WrongToken => r matches Err(e)
                && e.details matches ErrorDetails::BadCredentialsPreInference { provider_name }
                && provider_name@ == "Admin"@,
        },
{
    let token = match authorization {
        Some(value) => {
            if starts_with(value, "Bearer ") {
                proof {
                    reveal_strlit("Bearer ");
                }
                Some(skip_chars(value, 7))
            } else {
                None
            }
        },
        None => None,
    };
    let token = match token {
        Some(t) => t,
        None => {
            return Err(
                Error::new(ErrorDetails::ApiKeyMissing { provider_name: String::from_str("Admin") }),
            );
        },
    };
    let expected = match expected {
        Some(e) => e,
        None => {
            return Err(
                Error::new(
                    ErrorDetails::Config { message: String::from_str("Admin token not configured") },
                ),
            );
        },
    };
    if !str_eq(token.as_str(), expected) {
        return Err(
            Error::new(
                ErrorDetails::BadCredentialsPreInference { provider_name: String::from_str("Admin") },
            ),
        );
    }
    Ok(())
}

} // verus!
