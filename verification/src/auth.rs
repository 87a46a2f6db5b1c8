//! The bearer-token lifecycle: credentials, the immutable
//! authentication-state snapshot, the exact login and refresh request
//! bodies, and the decoding of authentication responses.

use vstd::prelude::*;
use crate::dates::{DateTime, datetime_of_rfc3339};
use crate::error::{APIError, error_message_of, decode_error_message};
use crate::json::{parse_json, parse_json_spec, str_member, int_member, JsonV};
use crate::wire::{str_field, append_str_field, begin_obj, comma, end_obj};

verus! {

/// Login credentials, used once to obtain the first state snapshot.
#[derive(Clone, Debug)]
pub struct LoginPayload {
    pub username: String,
    pub password: String,
}

impl LoginPayload {
    /// Bundles the credentials.
    pub fn new(username: String, password: String) -> (r: LoginPayload)
        ensures
            r.username == username,
            r.password == password,
    {
        LoginPayload { username, password }
    }

    /// The user name.
    pub fn username(&self) -> (r: &str)
        ensures
            r@ == self.username@,
    {
        self.username.as_str()
    }

    /// The password.
    pub fn password(&self) -> (r: &str)
        ensures
            r@ == self.password@,
    {
        self.password.as_str()
    }
}

/// An immutable snapshot of the bearer-token state: produced by login
/// or refresh, never changed in place.
#[derive(Clone, Debug)]
pub struct ErganiAuthenticationState {
    pub access_token: String,
    pub access_token_expired: i64,
    pub refresh_token: String,
    pub refresh_token_expired: DateTime,
}

impl ErganiAuthenticationState {
    /// The bearer token for the Authorization header.
    pub fn access_token(&self) -> (r: &str)
        ensures
            r@ == self.access_token@,
    {
        self.access_token.as_str()
    }

    /// When the bearer token expires, as the service reported it.
    pub fn access_token_expired(&self) -> (r: i64)
        ensures
            r == self.access_token_expired,
    {
        self.access_token_expired
    }

    /// The refresh token.
    pub fn refresh_token(&self) -> (r: &str)
        ensures
            r@ == self.refresh_token@,
    {
        self.refresh_token.as_str()
    }

    /// When the refresh token expires, in UTC.
    pub fn refresh_token_expired(&self) -> (r: &DateTime)
        ensures
            *r == self.refresh_token_expired,
    {
        &self.refresh_token_expired
    }
}

/// The exact login request body: the credentials and the fixed
/// user-type discriminator, members in lexicographic key order.
pub open spec fn login_body(p: LoginPayload) -> Seq<char> {
    seq!['{'] + str_field("Password"@, p.password@) + seq![','] + str_field("UserType"@, "02"@)
        + seq![','] + str_field("Username"@, p.username@) + seq!['}']
}

/// Builds the login request body.
pub fn login_request_body(p: &LoginPayload) -> (r: String)
    ensures
        r@ == login_body(*p),
{
    let mut out = begin_obj();
    append_str_field(&mut out, "Password", p.password.as_str());
    comma(&mut out);
    append_str_field(&mut out, "UserType", "02");
    comma(&mut out);
    append_str_field(&mut out, "Username", p.username.as_str());
    end_obj(&mut out);
    out
}

/// The exact refresh request body: the refresh token alone.
pub open spec fn refresh_body(state: ErganiAuthenticationState) -> Seq<char> {
    seq!['{'] + str_field("refreshToken"@, state.refresh_token@) + seq!['}']
}

/// Builds the refresh request body for the given state.
pub fn refresh_request_body(state: &ErganiAuthenticationState) -> (r: String)
    ensures
        r@ == refresh_body(*state),
{
    let mut out = begin_obj();
    append_str_field(&mut out, "refreshToken", state.refresh_token.as_str());
    end_obj(&mut out);
    out
}

/// What a successful authentication body denotes: access token, its
/// expiry count, refresh token, and the refresh expiry as a UTC
/// timestamp; `None` where a member is missing or malformed.
pub open spec fn auth_fields_of(body: Seq<char>) -> Option<(Seq<char>, int, Seq<char>, DateTime)> {
    match parse_json_spec(body) {
        None => None,
        Some(v) => match str_member(v, "accessToken"@) {
            None => None,
            Some(at) => match int_member(v, "accessTokenExpired"@) {
                None => None,
                Some(exp) => match str_member(v, "refreshToken"@) {
                    None => None,
                    Some(rt) => match str_member(v, "refreshTokenExpired"@) {
                        None => None,
                        Some(rx) => match datetime_of_rfc3339(rx) {
                            None => None,
                            Some(dt) => Some((at, exp, rt, dt)),
                        },
                    },
                },
            },
        },
    }
}

/// Decodes a successful authentication body into a state snapshot.
pub fn decode_authentication_state(body: &str) -> (r: Result<ErganiAuthenticationState, APIError>)
    ensures
        r matches Ok(s) ==> auth_fields_of(body@) == Some(
            (s.access_token@, s.access_token_expired as int, s.refresh_token@,
            s.refresh_token_expired),
        ),
        r matches Err(e) ==> auth_fields_of(body@) is None && e is Decode,
{
    let j = match parse_json(body) {
        Some(j) => j,
        None => {
            return Err(APIError::decode_failure());
        },
    };
    let access_token = match j.get_str("accessToken") {
        Some(s) => s.clone(),
        None => {
            return Err(APIError::decode_failure());
        },
    };
    let access_token_expired = match j.get_i64("accessTokenExpired") {
        Some(n) => n,
        None => {
            return Err(APIError::decode_failure());
        },
    };
    let refresh_token = match j.get_str("refreshToken") {
        Some(s) => s.clone(),
        None => {
            return Err(APIError::decode_failure());
        },
    };
    let refresh_expiry_text = match j.get_str("refreshTokenExpired") {
        Some(s) => s,
        None => {
            return Err(APIError::decode_failure());
        },
    };
    let refresh_token_expired = match crate::dates::parse_datetime(refresh_expiry_text.as_str()) {
        Some(dt) => dt,
        None => {
            return Err(APIError::decode_failure());
        },
    };
    Ok(
        ErganiAuthenticationState {
            access_token,
            access_token_expired,
            refresh_token,
            refresh_token_expired,
        },
    )
}

/// A successful HTTP status: the 2xx range.
pub open spec fn is_success_status(status: u16) -> bool {
    200 <= status < 300
}

/// Classifies the response of the authentication or refresh endpoint:
/// a state snapshot on success, `AuthenticationFailed` with the
/// decoded message otherwise.
pub fn authentication_outcome(status: u16, body: &str) -> (r: Result<
    ErganiAuthenticationState,
    APIError,
>)
    ensures
        is_success_status(status) ==> match r {
            Ok(s) => auth_fields_of(body@) == Some(
                (s.access_token@, s.access_token_expired as int, s.refresh_token@,
                s.refresh_token_expired),
            ),
            Err(e) => auth_fields_of(body@) is None && e is Decode,
        },
        !is_success_status(status) ==> (r matches Err(e) && (e matches
            APIError::AuthenticationFailed(err) && err.message@ == error_message_of(body@))),
{
    if 200 <= status && status < 300 {
        decode_authentication_state(body)
    } else {
        Err(APIError::AuthenticationFailed(decode_error_message(body)))
    }
}

} // verus!
