//! The request pipeline: the fixed endpoints, the exact submission
//! payloads, the decoding of submission acknowledgments, and the
//! per-call state machine that performs exactly one transparent
//! refresh-and-retry on an authorization failure.

use vstd::prelude::*;
use crate::auth::{ErganiAuthenticationState, authentication_outcome, refresh_request_body, refresh_body, auth_fields_of, is_success_status};
use crate::dates::{DateTime, datetime_of_rfc3339};
use crate::error::{APIError, error_message_of, decode_error_message};
use crate::json::{parse_json, parse_json_spec, str_member, vals_of, JsonV, Json};
use crate::models::company::{CompanyDailySchedule, CompanyOvertime, CompanyWeeklySchedule, CompanyWorkCard};
use crate::models::employee_announcement::EmployeeAnnouncement;
use crate::wire::{Wire, key_prefix, arr, wires_of, append_key, append_record_array, begin_obj, nest_obj, end_obj};

verus! {

// ---------- the fixed endpoints ----------

/// The base URL of the trial service.
pub fn trial_api_endpoint() -> (r: &'static str)
    ensures
        r@ == "https://trialeservices.yeka.gr/WebServicesAPI/api"@,
{
    "https://trialeservices.yeka.gr/WebServicesAPI/api"
}

/// The authentication endpoint path.
pub fn authentication_endpoint() -> (r: &'static str)
    ensures
        r@ == "/Authentication"@,
{
    "/Authentication"
}

/// The token refresh endpoint path.
pub fn authentication_refresh_endpoint() -> (r: &'static str)
    ensures
        r@ == "/Authentication/refresh"@,
{
    "/Authentication/refresh"
}

/// The work-card document endpoint path.
pub fn work_card_endpoint() -> (r: &'static str)
    ensures
        r@ == "/Documents/WRKCardSE"@,
{
    "/Documents/WRKCardSE"
}

/// The overtime document endpoint path.
pub fn overtime_endpoint() -> (r: &'static str)
    ensures
        r@ == "/Documents/OvTime"@,
{
    "/Documents/OvTime"
}

/// The daily schedule document endpoint path.
pub fn daily_schedule_endpoint() -> (r: &'static str)
    ensures
        r@ == "/Documents/WTODaily"@,
{
    "/Documents/WTODaily"
}

/// The weekly schedule document endpoint path.
pub fn weekly_schedule_endpoint() -> (r: &'static str)
    ensures
        r@ == "/Documents/WTOWeek"@,
{
    "/Documents/WTOWeek"
}

/// The submissions lookup endpoint path.
pub fn lookup_submissions_endpoint() -> (r: &'static str)
    ensures
        r@ == "/Lookup/Submissions"@,
{
    "/Lookup/Submissions"
}

// ---------- submission payloads ----------

/// A submission payload: the records, wrapped in the double-nested
/// container the remote schema prescribes.
pub open spec fn wrapped_batch(outer: Seq<char>, inner: Seq<char>, parts: Seq<Seq<char>>) -> Seq<
    char,
> {
    seq!['{'] + key_prefix(outer) + seq!['{'] + key_prefix(inner) + arr(parts) + seq!['}']
        + seq!['}']
}

/// The exact work-card submission body: `{"Cards":{"Card":[...]}}`.
pub fn work_card_submission_body(cards: &Vec<CompanyWorkCard>) -> (r: String)
    requires
        forall|i: int| 0 <= i < cards@.len() ==> (#[trigger] cards@[i]).valid(),
    ensures
        r@ == wrapped_batch("Cards"@, "Card"@, wires_of(cards@)),
{
    let mut out = begin_obj();
    append_key(&mut out, "Cards");
    nest_obj(&mut out);
    append_key(&mut out, "Card");
    append_record_array(&mut out, cards);
    end_obj(&mut out);
    end_obj(&mut out);
    out
}

/// The exact overtime submission body: `{"Overtimes":{"Overtime":[...]}}`.
pub fn overtime_submission_body(overtimes: &Vec<CompanyOvertime>) -> (r: String)
    requires
        forall|i: int| 0 <= i < overtimes@.len() ==> (#[trigger] overtimes@[i]).valid(),
    ensures
        r@ == wrapped_batch("Overtimes"@, "Overtime"@, wires_of(overtimes@)),
{
    let mut out = begin_obj();
    append_key(&mut out, "Overtimes");
    nest_obj(&mut out);
    append_key(&mut out, "Overtime");
    append_record_array(&mut out, overtimes);
    end_obj(&mut out);
    end_obj(&mut out);
    out
}

/// The exact daily schedule submission body: `{"WTOS":{"WTO":[...]}}`.
pub fn daily_schedule_submission_body(schedules: &Vec<CompanyDailySchedule>) -> (r: String)
    requires
        forall|i: int| 0 <= i < schedules@.len() ==> (#[trigger] schedules@[i]).valid(),
    ensures
        r@ == wrapped_batch("WTOS"@, "WTO"@, wires_of(schedules@)),
{
    let mut out = begin_obj();
    append_key(&mut out, "WTOS");
    nest_obj(&mut out);
    append_key(&mut out, "WTO");
    append_record_array(&mut out, schedules);
    end_obj(&mut out);
    end_obj(&mut out);
    out
}

/// The exact weekly schedule submission body: `{"WTOS":{"WTO":[...]}}`.
pub fn weekly_schedule_submission_body(schedules: &Vec<CompanyWeeklySchedule>) -> (r: String)
    requires
        forall|i: int| 0 <= i < schedules@.len() ==> (#[trigger] schedules@[i]).valid(),
    ensures
        r@ == wrapped_batch("WTOS"@, "WTO"@, wires_of(schedules@)),
{
    let mut out = begin_obj();
    append_key(&mut out, "WTOS");
    nest_obj(&mut out);
    append_key(&mut out, "WTO");
    append_record_array(&mut out, schedules);
    end_obj(&mut out);
    end_obj(&mut out);
    out
}

/// The exact employee announcement submission body:
/// `{"AnaggeliesE3":{"AnaggeliaE3":[...]}}`.
pub fn employee_announcement_submission_body(announcements: &Vec<EmployeeAnnouncement>) -> (r:
    String)
    ensures
        r@ == wrapped_batch("AnaggeliesE3"@, "AnaggeliaE3"@, wires_of(announcements@)),
{
    let mut out = begin_obj();
    append_key(&mut out, "AnaggeliesE3");
    nest_obj(&mut out);
    append_key(&mut out, "AnaggeliaE3");
    append_record_array(&mut out, announcements);
    end_obj(&mut out);
    end_obj(&mut out);
    out
}

// ---------- submission acknowledgments ----------

/// One acknowledgment the service returns for an accepted batch.
#[derive(Clone, Debug, PartialEq)]
pub struct SubmissionResponse {
    pub id: String,
    pub protocol: String,
    pub submit_date: DateTime,
}

/// The mathematical view of a [`SubmissionResponse`].
pub struct SubmissionResponseV {
    pub id: Seq<char>,
    pub protocol: Seq<char>,
    pub submit_date: DateTime,
}

impl SubmissionResponse {
    /// The view of this acknowledgment.
    pub open spec fn v(self) -> SubmissionResponseV {
        SubmissionResponseV { id: self.id@, protocol: self.protocol@, submit_date: self.submit_date }
    }
}

/// The views of a list of acknowledgments.
pub open spec fn submission_vals(s: Seq<SubmissionResponse>) -> Seq<SubmissionResponseV> {
    Seq::new(s.len(), |i: int| s[i].v())
}

/// What a JSON value denotes as one acknowledgment: the `id` and
/// `protocol` strings and the `submitDate` RFC 3339 timestamp.
pub open spec fn submission_of(v: JsonV) -> Option<SubmissionResponseV> {
    match str_member(v, "id"@) {
        None => None,
        Some(id) => match str_member(v, "protocol"@) {
            None => None,
            Some(protocol) => match str_member(v, "submitDate"@) {
                None => None,
                Some(sd) => match datetime_of_rfc3339(sd) {
                    None => None,
                    Some(submit_date) => Some(SubmissionResponseV { id, protocol, submit_date }),
                },
            },
        },
    }
}

/// Decodes the acknowledgments from index `i` on.
pub open spec fn submission_list_of(es: Seq<JsonV>, i: int) -> Option<Seq<SubmissionResponseV>>
    decreases es.len() - i,
{
    if i >= es.len() {
        Some(Seq::empty())
    } else {
        match submission_of(es[i]) {
            None => None,
            Some(x) => match submission_list_of(es, i + 1) {
                None => None,
                Some(r) => Some(seq![x] + r),
            },
        }
    }
}

/// What a 2xx submission body denotes: the array of acknowledgments.
pub open spec fn submissions_of(body: Seq<char>) -> Option<Seq<SubmissionResponseV>> {
    match parse_json_spec(body) {
        None => None,
        Some(v) => match v {
            JsonV::Arr(es) => submission_list_of(es, 0),
            _ => None,
        },
    }
}

fn decode_submission(j: &Json) -> (r: Option<SubmissionResponse>)
    ensures
        r is None ==> submission_of(j.v()) is None,
        r matches Some(x) ==> submission_of(j.v()) == Some(x.v()),
{
    let id = match j.get_str("id") {
        Some(s) => s.clone(),
        None => {
            return None;
        },
    };
    let protocol = match j.get_str("protocol") {
        Some(s) => s.clone(),
        None => {
            return None;
        },
    };
    let sd = match j.get_str("submitDate") {
        Some(s) => s,
        None => {
            return None;
        },
    };
    let submit_date = match crate::dates::parse_datetime(sd.as_str()) {
        Some(dt) => dt,
        None => {
            return None;
        },
    };
    Some(SubmissionResponse { id, protocol, submit_date })
}

fn decode_submission_list(es: &Vec<Json>, i: usize) -> (r: Option<Vec<SubmissionResponse>>)
    requires
        i <= es@.len(),
    ensures
        r is None ==> submission_list_of(vals_of(es@), i as int) is None,
        r matches Some(xs) ==> submission_list_of(vals_of(es@), i as int) == Some(
            submission_vals(xs@),
        ),
    decreases es@.len() - i,
{
    if i >= es.len() {
        let out: Vec<SubmissionResponse> = Vec::new();
        proof {
            assert(submission_vals(out@) =~= Seq::<SubmissionResponseV>::empty());
        }
        return Some(out);
    }
    match decode_submission(&es[i]) {
        None => None,
        Some(x) => {
            match decode_submission_list(es, i + 1) {
                None => None,
                Some(mut xs) => {
                    let ghost xs0 = xs@;
                    xs.insert(0, x);
                    proof {
                        assert(submission_vals(xs@) =~= seq![x.v()] + submission_vals(xs0));
                    }
                    Some(xs)
                },
            }
        },
    }
}

/// Parses a 2xx submission body into the acknowledgment list.
pub fn parse_submission_responses(body: &str) -> (r: Result<Vec<SubmissionResponse>, APIError>)
    ensures
        r matches Ok(xs) ==> submissions_of(body@) == Some(submission_vals(xs@)),
        r matches Err(e) ==> submissions_of(body@) is None && e is Decode,
{
    match parse_json(body) {
        Some(j) => match &j {
            Json::Arr(es) => {
                proof {
                    assert(j.v()->Arr_0 =~= vals_of(es@));
                }
                match decode_submission_list(es, 0) {
                    Some(xs) => Ok(xs),
                    None => Err(APIError::decode_failure()),
                }
            },
            _ => Err(APIError::decode_failure()),
        },
        None => Err(APIError::decode_failure()),
    }
}

/// Extracts the submission result after a call ended in success: an
/// empty list for a bodiless (204) success, the decoded acknowledgment
/// array otherwise.
pub fn extract_submission_result(body: Option<String>) -> (r: Result<
    Vec<SubmissionResponse>,
    APIError,
>)
    ensures
        body is None ==> (r matches Ok(xs) && xs@.len() == 0),
        body matches Some(b) ==> match r {
            Ok(xs) => submissions_of(b@) == Some(submission_vals(xs@)),
            Err(e) => submissions_of(b@) is None && e is Decode,
        },
{
    match body {
        None => Ok(Vec::new()),
        Some(b) => parse_submission_responses(b.as_str()),
    }
}

/// A fetch result together with the state the caller should keep for
/// its next call.
pub struct ErganiFetchResponse<T> {
    pub response: Option<T>,
    pub auth_state: ErganiAuthenticationState,
}

impl<T> ErganiFetchResponse<T> {
    /// The fetched value, when the service returned one.
    pub fn response(&self) -> (r: Option<&T>)
        ensures
            (r is Some) == (self.response is Some),
            r matches Some(x) ==> self.response matches Some(y) && *x == y,
    {
        self.response.as_ref()
    }

    /// The state to use for the next call.
    pub fn auth_state(&self) -> (r: &ErganiAuthenticationState)
        ensures
            *r == self.auth_state,
    {
        &self.auth_state
    }
}

// ---------- the per-call state machine ----------

/// Where one logical call stands. A call starts with the document sent
/// under the caller's bearer token; a 401 moves it through one refresh
/// and one retry; everything else finishes it.
pub enum CallState {
    /// The document request is out under the caller's token.
    FirstSent { auth: ErganiAuthenticationState },
    /// The refresh request is out; `auth` is the caller's state.
    RefreshSent { auth: ErganiAuthenticationState },
    /// The document request is out again under the refreshed state.
    RetrySent { auth: ErganiAuthenticationState },
    /// The call is over: on success, the optional response body and
    /// the state the caller should keep; on failure, the typed error.
    Done { outcome: Result<(Option<String>, ErganiAuthenticationState), APIError> },
}

/// What the transport must do next.
pub enum CallAction {
    /// Send the document request with this bearer token.
    SendDocument { bearer: String },
    /// Send this body to the refresh endpoint.
    SendRefresh { body: String },
    /// Nothing: the call is over.
    Finish,
}

/// Starts a call: the document goes out under the caller's token.
pub fn call_begin(auth: ErganiAuthenticationState) -> (r: (CallState, CallAction))
    ensures
        r.0 matches CallState::FirstSent { auth: a } && a == auth,
        r.1 matches CallAction::SendDocument { bearer } && bearer == auth.access_token,
{
    let bearer = auth.access_token.clone();
    (CallState::FirstSent { auth }, CallAction::SendDocument { bearer })
}

/// Advances a call on the reply to its outstanding request. From the
/// first send: a 401 asks for a refresh; 204 finishes with an empty
/// success; any other 2xx finishes with the body; 404 finishes with
/// `NotFound`; anything else with `General`, always keeping the
/// caller's state. From the refresh: a successful, well-formed reply
/// retries the document under the new state; anything else finishes
/// with `AuthenticationFailed` (or the decode failure class). From the
/// retry: as from the first send, except that a second 401 finishes
/// with `AuthenticationFailed` and a success hands back the refreshed
/// state.
pub fn call_on_reply(state: CallState, status: u16, body: String) -> (r: (CallState, CallAction))
    requires
        !(state is Done),
    ensures
        state matches CallState::FirstSent { auth } ==> {
            &&& status == 401 ==> (r.0 matches CallState::RefreshSent { auth: a } && a == auth) && (
            r.1 matches CallAction::SendRefresh { body: b } && b@ == refresh_body(auth))
            &&& status == 204 ==> (r.0 matches CallState::Done { outcome } && (outcome matches Ok(p)
                && p.0 is None && p.1 == auth)) && r.1 is Finish
            &&& (is_success_status(status) && status != 204) ==> (r.0 matches CallState::Done {
                outcome,
            } && (outcome matches Ok(p) && p.0 == Some(body) && p.1 == auth)) && r.1 is Finish
            &&& status == 404 ==> (r.0 matches CallState::Done { outcome } && (outcome matches Err(
                e,
            ) && (e matches APIError::NotFound(err) && err.message@ == error_message_of(body@))))
                && r.1 is Finish
            &&& (!is_success_status(status) && status != 401 && status != 404) ==> (
            r.0 matches CallState::Done { outcome } && (outcome matches Err(e) && (e matches
            APIError::General(err) && err.message@ == error_message_of(body@)))) && r.1 is Finish
        },
        state matches CallState::RefreshSent { auth } ==> {
            &&& is_success_status(status) ==> {
                &&& (auth_fields_of(body@) is Some) ==> (r.0 matches CallState::RetrySent {
                    auth: a,
                } && auth_fields_of(body@) == Some(
                    (a.access_token@, a.access_token_expired as int, a.refresh_token@,
                    a.refresh_token_expired),
                )) && (r.1 matches CallAction::SendDocument { bearer } && (
                r.0 matches CallState::RetrySent { auth: a2 } && bearer == a2.access_token))
                &&& (auth_fields_of(body@) is None) ==> (r.0 matches CallState::Done { outcome }
                    && (outcome matches Err(e) && e is Decode)) && r.1 is Finish
            }
            &&& !is_success_status(status) ==> (r.0 matches CallState::Done { outcome } && (
            outcome matches Err(e) && (e matches APIError::AuthenticationFailed(err) && err.message@
                == error_message_of(body@)))) && r.1 is Finish
        },
        state matches CallState::RetrySent { auth } ==> {
            &&& status == 401 ==> (r.0 matches CallState::Done { outcome } && (outcome matches Err(
                e,
            ) && (e matches APIError::AuthenticationFailed(err) && err.message@ == error_message_of(
                body@,
            )))) && r.1 is Finish
            &&& status == 204 ==> (r.0 matches CallState::Done { outcome } && (outcome matches Ok(p)
                && p.0 is None && p.1 == auth)) && r.1 is Finish
            &&& (is_success_status(status) && status != 204) ==> (r.0 matches CallState::Done {
                outcome,
            } && (outcome matches Ok(p) && p.0 == Some(body) && p.1 == auth)) && r.1 is Finish
            &&& status == 404 ==> (r.0 matches CallState::Done { outcome } && (outcome matches Err(
                e,
            ) && (e matches APIError::NotFound(err) && err.message@ == error_message_of(body@))))
                && r.1 is Finish
            &&& (!is_success_status(status) && status != 401 && status != 404) ==> (
            r.0 matches CallState::Done { outcome } && (outcome matches Err(e) && (e matches
            APIError::General(err) && err.message@ == error_message_of(body@)))) && r.1 is Finish
        },
{
    match state {
        CallState::FirstSent { auth } => {
            if status == 401 {
                let refresh = refresh_request_body(&auth);
                (CallState::RefreshSent { auth }, CallAction::SendRefresh { body: refresh })
            } else if status == 204 {
                (
                    CallState::Done { outcome: Ok((None, auth)) },
                    CallAction::Finish,
                )
            } else if 200 <= status && status < 300 {
                (
                    CallState::Done { outcome: Ok((Some(body), auth)) },
                    CallAction::Finish,
                )
            } else if status == 404 {
                (
                    CallState::Done {
                        outcome: Err(APIError::NotFound(decode_error_message(body.as_str()))),
                    },
                    CallAction::Finish,
                )
            } else {
                (
                    CallState::Done {
                        outcome: Err(APIError::General(decode_error_message(body.as_str()))),
                    },
                    CallAction::Finish,
                )
            }
        },
        CallState::RefreshSent { auth: _ } => {
            match authentication_outcome(status, body.as_str()) {
                Ok(new_state) => {
                    let bearer = new_state.access_token.clone();
                    (
                        CallState::RetrySent { auth: new_state },
                        CallAction::SendDocument { bearer },
                    )
                },
                Err(e) => (CallState::Done { outcome: Err(e) }, CallAction::Finish),
            }
        },
        CallState::RetrySent { auth } => {
            if status == 401 {
                (
                    CallState::Done {
                        outcome: Err(
                            APIError::AuthenticationFailed(decode_error_message(body.as_str())),
                        ),
                    },
                    CallAction::Finish,
                )
            } else if status == 204 {
                (
                    CallState::Done { outcome: Ok((None, auth)) },
                    CallAction::Finish,
                )
            } else if 200 <= status && status < 300 {
                (
                    CallState::Done { outcome: Ok((Some(body), auth)) },
                    CallAction::Finish,
                )
            } else if status == 404 {
                (
                    CallState::Done {
                        outcome: Err(APIError::NotFound(decode_error_message(body.as_str()))),
                    },
                    CallAction::Finish,
                )
            } else {
                (
                    CallState::Done {
                        outcome: Err(APIError::General(decode_error_message(body.as_str()))),
                    },
                    CallAction::Finish,
                )
            }
        },
        CallState::Done { .. } => {
            proof {
                assert(false);
            }
            (CallState::Done { outcome: Err(APIError::decode_failure()) }, CallAction::Finish)
        },
    }
}

} // verus!
