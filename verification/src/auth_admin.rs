//! The administration of bearer codes: what is asked of the analytics
//! database to mint a code and to list codes, and what its answers mean.

use vstd::prelude::*;
use uuid::Uuid;
use crate::error::{Error, ErrorDetails};
use crate::ids::{id_text, uuid_text};
use crate::numeral::{bounded_value, parse_bounded, ParseFault};
use crate::text::{
    chars_of, decimal, decimal_string, is_plain, plain, replaced, trim_chars, trimmed, underscored,
};

verus! {

/// A request to list the codes of a user.
#[derive(Debug, Clone, PartialEq)]
pub struct GetAuthCodesRequest {
    pub tenant_id: String,
    pub username: String,
}

/// A request to mint a code for a user. Times are texts of the form
/// `YYYY-MM-DD hh:mm:ss.mmm`.
#[derive(Debug, Clone, PartialEq)]
pub struct GenerateAuthCodeRequest {
    pub tenant_id: String,
    pub username: String,
    pub expires_at: Option<String>,
}

/// The answer to a request to mint a code.
#[derive(Debug, Clone, PartialEq)]
pub struct GenerateAuthCodeResponse {
    pub auth_code: String,
    pub tenant_id: String,
    pub username: String,
    pub created_at: String,
    pub expires_at: Option<String>,
}

/// The query that counts the codes of a user.
pub open spec fn count_query(tenant_id: Seq<char>, username: Seq<char>) -> Seq<char> {
    "SELECT count() FROM AUTHCode WHERE tenant_id = '"@ + tenant_id + "' AND username = '"@
        + username + "'"@
}

/// The text of the error for a name that cannot stand in a query.
pub open spec fn name_text() -> Seq<char> {
    "Names may hold neither a single quote nor a backslash"@
}

fn name_error() -> (e: Error)
    ensures
        e.is_invalid_request(name_text()),
{
    Error::new(
        ErrorDetails::InvalidRequest {
            message: String::from_str("Names may hold neither a single quote nor a backslash"),
        },
    )
}

/// The query that counts the codes of a user. Names that cannot stand in a
/// query give an `InvalidRequest` error.
pub fn user_count_query(tenant_id: &str, username: &str) -> (r: Result<String, Error>)
    ensures
        if is_plain(tenant_id@) && is_plain(username@) {
            r matches Ok(q) && q@ == count_query(tenant_id@, username@)
        } else {
            r matches Err(e) && e.is_invalid_request(name_text())
        },
{
    if !plain(tenant_id) || !plain(username) {
        return Err(name_error());
    }
    let mut q = String::from_str("SELECT count() FROM AUTHCode WHERE tenant_id = '");
    q.append(tenant_id);
    q.append("' AND username = '");
    q.append(username);
    q.append("'");
    Ok(q)
}

/// The largest number of sixty-four bits.
pub open spec fn max_count() -> nat {
    0xffff_ffff_ffff_ffff
}

/// Decides whether a user may get a code, from the database's answer to
/// the count of the user's codes: a number between blanks. An answer that
/// is no number gives a `ClickHouseDeserialization` error; a user who has
/// a code gives `UserAlreadyExists`.
pub fn check_new_user(count_result: &str, username: &str) -> (r: Result<(), Error>)
    ensures
        match bounded_value(trimmed(count_result@), max_count()) {
            Err(fault) => r matches Err(e) && e.details matches ErrorDetails::ClickHouseDeserialization {
                message,
            } && message@ == fault.text(),
            Ok(count) => if count > 0 {
                r matches Err(e) && e.details matches ErrorDetails::UserAlreadyExists { user_name }
                    && user_name@ == username@
            } else {
                r is Ok
            },
        },
{
    let digits = trim_chars(count_result);
    match parse_bounded(&digits, 0xffff_ffff_ffff_ffff) {
        Err(fault) => Err(
            Error::new(
                ErrorDetails::ClickHouseDeserialization { message: fault.as_str().to_string() },
            ),
        ),
        Ok(count) => {
            if count > 0 {
                Err(Error::new(ErrorDetails::UserAlreadyExists { user_name: username.to_string() }))
            } else {
                Ok(())
            }
        },
    }
}

/// The first `n` characters of `s` that are no hyphen; fewer where `s` has
/// fewer.
pub open spec fn first_unhyphened(s: Seq<char>, n: nat) -> Seq<char>
    decreases s.len(),
{
    if s.len() == 0 || n == 0 {
        Seq::<char>::empty()
    } else if s[0] == '-' {
        first_unhyphened(s.drop_first(), n)
    } else {
        seq![s[0]] + first_unhyphened(s.drop_first(), (n - 1) as nat)
    }
}

fn unhyphened_prefix(s: &str, n: usize) -> (r: String)
    ensures
        r@ == first_unhyphened(s@, n as nat),
{
    let chars = chars_of(s);
    let mut out = String::new();
    let mut taken: usize = 0;
    let mut i: usize = 0;
    proof {
        assert(s@.skip(0) =~= s@);
    }
    while i < chars.len() && taken < n
        invariant
            i <= chars@.len(),
            taken <= n,
            chars@ == s@,
            first_unhyphened(s@, n as nat) == out@ + first_unhyphened(
                s@.skip(i as int),
                (n - taken) as nat,
            ),
        decreases chars@.len() - i,
    {
        proof {
            assert(s@.skip(i as int).drop_first() =~= s@.skip(i + 1));
            assert(s@.skip(i as int)[0] == s@[i as int]);
        }
        if chars[i] != '-' {
            let ghost before = out@;
            out.append(s.substring_char(i, i + 1));
            proof {
                assert(out@ =~= before + seq![s@[i as int]]);
                assert(before + (seq![s@[i as int]] + first_unhyphened(
                    s@.skip(i + 1),
                    (n - taken - 1) as nat,
                )) =~= out@ + first_unhyphened(s@.skip(i + 1), (n - taken - 1) as nat));
            }
            taken = taken + 1;
        }
        i = i + 1;
    }
    proof {
        assert(out@ + Seq::<char>::empty() =~= out@);
    }
    out
}

/// The text of a new code for a user: the parts `tupleap`, the tenant, the
/// user, the time in nanoseconds and eight digits of a random identifier,
/// between underscores; spaces in the names become underscores too.
pub open spec fn auth_code_text(
    tenant_id: Seq<char>,
    username: Seq<char>,
    timestamp: nat,
    random: Uuid,
) -> Seq<char> {
    "tupleap_"@ + replaced(tenant_id, ' ', '_') + "_"@ + replaced(username, ' ', '_') + "_"@
        + decimal(timestamp) + "_"@ + first_unhyphened(uuid_text(random), 8)
}

/// Makes a new code for a user, from the time in nanoseconds since the
/// epoch and a random identifier.
pub fn generate_unique_auth_code(tenant_id: &str, username: &str, timestamp: u64, random: &Uuid) -> (r:
    String)
    ensures
        r@ == auth_code_text(tenant_id@, username@, timestamp as nat, *random),
{
    let mut code = String::from_str("tupleap_");
    let tenant = underscored(tenant_id);
    code.append(tenant.as_str());
    code.append("_");
    let user = underscored(username);
    code.append(user.as_str());
    code.append("_");
    let time = decimal_string(timestamp);
    code.append(time.as_str());
    code.append("_");
    let id = id_text(random);
    let suffix = unhyphened_prefix(id.as_str(), 8);
    code.append(suffix.as_str());
    code
}

/// The query that stores a new code.
pub open spec fn insert_query(
    auth_code: Seq<char>,
    tenant_id: Seq<char>,
    username: Seq<char>,
    created_at: Seq<char>,
    expires_at: Seq<char>,
) -> Seq<char> {
    "INSERT INTO AUTHCode (auth_code, tenant_id, username, created_at, expires_at, created_by, is_active, usage_count) VALUES ('"@
        + auth_code + "', '"@ + tenant_id + "', '"@ + username + "', '"@ + created_at + "', '"@
        + expires_at + "', 'admin', 1, 0)"@
}

/// The query that stores a new code. Parts that cannot stand in a query
/// give an `InvalidRequest` error.
pub fn insert_auth_code_query(
    auth_code: &str,
    tenant_id: &str,
    username: &str,
    created_at: &str,
    expires_at: &str,
) -> (r: Result<String, Error>)
    ensures
        if is_plain(auth_code@) && is_plain(tenant_id@) && is_plain(username@) && is_plain(
            created_at@,
        ) && is_plain(expires_at@) {
            r matches Ok(q) && q@ == insert_query(
                auth_code@,
                tenant_id@,
                username@,
                created_at@,
                expires_at@,
            )
        } else {
            r matches Err(e) && e.is_invalid_request(name_text())
        },
{
    if !plain(auth_code) || !plain(tenant_id) || !plain(username) || !plain(created_at) || !plain(
        expires_at,
    ) {
        return Err(name_error());
    }
    let mut q = String::from_str(
        "INSERT INTO AUTHCode (auth_code, tenant_id, username, created_at, expires_at, created_by, is_active, usage_count) VALUES ('",
    );
    q.append(auth_code);
    q.append("', '");
    q.append(tenant_id);
    q.append("', '");
    q.append(username);
    q.append("', '");
    q.append(created_at);
    q.append("', '");
    q.append(expires_at);
    q.append("', 'admin', 1, 0)");
    Ok(q)
}

/// The answer to a request to mint a code, once the code is stored. The
/// answer tells the expiry that the request asked for.
pub fn generate_auth_code_response(request: GenerateAuthCodeRequest, auth_code: String, created_at: String) -> (r:
    GenerateAuthCodeResponse)
    ensures
        r == (GenerateAuthCodeResponse {
            auth_code,
            tenant_id: request.tenant_id,
            username: request.username,
            created_at,
            expires_at: request.expires_at,
        }),
{
    GenerateAuthCodeResponse {
        auth_code,
        tenant_id: request.tenant_id,
        username: request.username,
        created_at,
        expires_at: request.expires_at,
    }
}

/// The query that lists the latest code of a user.
pub open spec fn codes_query(tenant_id: Seq<char>, username: Seq<char>) -> Seq<char> {
    "SELECT auth_code, tenant_id, username, usage_count, created_at, expires_at FROM AUTHCode WHERE tenant_id = '"@
        + tenant_id + "' AND username = '"@ + username
        + "' ORDER BY created_at DESC LIMIT 1 FORMAT JSON"@
}

/// The query that lists the latest code of a user. Names that cannot
/// stand in a query give an `InvalidRequest` error.
pub fn get_auth_codes_query(request: &GetAuthCodesRequest) -> (r: Result<String, Error>)
    ensures
        if is_plain(request.tenant_id@) && is_plain(request.username@) {
            r matches Ok(q) && q@ == codes_query(request.tenant_id@, request.username@)
        } else {
            r matches Err(e) && e.is_invalid_request(name_text())
        },
{
    if !plain(request.tenant_id.as_str()) || !plain(request.username.as_str()) {
        return Err(name_error());
    }
    let mut q = String::from_str(
        "SELECT auth_code, tenant_id, username, usage_count, created_at, expires_at FROM AUTHCode WHERE tenant_id = '",
    );
    q.append(request.tenant_id.as_str());
    q.append("' AND username = '");
    q.append(request.username.as_str());
    q.append("' ORDER BY created_at DESC LIMIT 1 FORMAT JSON");
    Ok(q)
}

/// The error for a list of codes that the database did not give.
pub fn list_codes_error(cause: &Error) -> (e: Error)
    ensures
        e.details matches ErrorDetails::ClickHouseQuery { message } && message@
            == "Failed to list auth codes: "@ + cause.details.text(),
{
    let mut message = String::from_str("Failed to list auth codes: ");
    let text = cause.message();
    message.append(text.as_str());
    Error::new(ErrorDetails::ClickHouseQuery { message })
}

} // verus!
