use ergani::auth::{ErganiAuthenticationState, LoginPayload, login_request_body, refresh_request_body};
use ergani::client::{
    call_begin, call_on_reply, extract_submission_result, CallAction, CallState,
};
use ergani::dates::DateTime;
use ergani::error::APIError;

fn initial_state() -> ErganiAuthenticationState {
    ErganiAuthenticationState {
        access_token: "first-token".to_string(),
        access_token_expired: 3600,
        refresh_token: "first-refresh".to_string(),
        refresh_token_expired: DateTime::new(2030, 1, 1, 0, 0, 0).unwrap(),
    }
}

fn refreshed_auth_body() -> String {
    r#"{"accessToken":"second-token","accessTokenExpired":7200,"refreshToken":"second-refresh","refreshTokenExpired":"2031-06-15T12:30:00Z"}"#
    .to_string()
}

#[test]
fn scenario_success_returns_body_and_original_state() {
    let (state, action) = call_begin(initial_state());
    match &action {
        CallAction::SendDocument { bearer } => assert_eq!(bearer, "first-token"),
        _ => panic!("expected the document to be sent first"),
    }

    let body = r#"[{"id":"42","protocol":"PR-1","submitDate":"2024-03-01T10:00:00Z"}]"#;
    let (state, action) = call_on_reply(state, 200, body.to_string());
    assert!(matches!(action, CallAction::Finish));
    let outcome = match state {
        CallState::Done { outcome } => outcome,
        _ => panic!("expected the call to be over"),
    };
    let (returned_body, returned_state) = outcome.unwrap();
    assert_eq!(returned_body.as_deref(), Some(body));
    assert_eq!(returned_state.access_token, "first-token");
    assert_eq!(returned_state.refresh_token, "first-refresh");

    let submissions = extract_submission_result(returned_body).unwrap();
    assert_eq!(submissions.len(), 1);
    assert_eq!(submissions[0].id, "42");
    assert_eq!(submissions[0].protocol, "PR-1");
    assert_eq!(
        submissions[0].submit_date,
        DateTime::new(2024, 3, 1, 10, 0, 0).unwrap()
    );
}

#[test]
fn scenario_no_content_is_an_empty_success() {
    let (state, _) = call_begin(initial_state());
    let (state, action) = call_on_reply(state, 204, String::new());
    assert!(matches!(action, CallAction::Finish));
    let outcome = match state {
        CallState::Done { outcome } => outcome,
        _ => panic!("expected the call to be over"),
    };
    let (body, returned_state) = outcome.unwrap();
    assert!(body.is_none());
    assert_eq!(returned_state.access_token, "first-token");

    let submissions = extract_submission_result(body).unwrap();
    assert!(submissions.is_empty());
}

#[test]
fn scenario_refresh_and_retry_returns_refreshed_state() {
    let (state, _) = call_begin(initial_state());

    let (state, action) = call_on_reply(state, 401, "expired".to_string());
    match &action {
        CallAction::SendRefresh { body } => {
            assert_eq!(body, r#"{"refreshToken":"first-refresh"}"#);
        },
        _ => panic!("a 401 must trigger exactly one refresh"),
    }
    assert!(matches!(state, CallState::RefreshSent { .. }));

    let (state, action) = call_on_reply(state, 200, refreshed_auth_body());
    match &action {
        CallAction::SendDocument { bearer } => assert_eq!(bearer, "second-token"),
        _ => panic!("a successful refresh must retry the document"),
    }
    assert!(matches!(state, CallState::RetrySent { .. }));

    let (state, action) = call_on_reply(state, 200, "[]".to_string());
    assert!(matches!(action, CallAction::Finish));
    let outcome = match state {
        CallState::Done { outcome } => outcome,
        _ => panic!("expected the call to be over"),
    };
    let (body, returned_state) = outcome.unwrap();
    assert_eq!(body.as_deref(), Some("[]"));
    assert_eq!(returned_state.access_token, "second-token");
    assert_eq!(returned_state.refresh_token, "second-refresh");
    assert_eq!(returned_state.access_token_expired, 7200);
    assert_eq!(
        returned_state.refresh_token_expired,
        DateTime::new(2031, 6, 15, 12, 30, 0).unwrap()
    );

    let submissions = extract_submission_result(body).unwrap();
    assert!(submissions.is_empty());
}

#[test]
fn scenario_failed_refresh_fails_the_call() {
    let (state, _) = call_begin(initial_state());
    let (state, _) = call_on_reply(state, 401, "expired".to_string());
    let (state, action) = call_on_reply(state, 401, r#"{"message":"bad token"}"#.to_string());
    assert!(
        matches!(action, CallAction::Finish),
        "no further request may follow a failed refresh"
    );
    let outcome = match state {
        CallState::Done { outcome } => outcome,
        _ => panic!("expected the call to be over"),
    };
    match outcome.unwrap_err() {
        APIError::AuthenticationFailed(e) => assert_eq!(e.message, "bad token"),
        other => panic!("expected an authentication failure, got {:?}", other),
    }
}

#[test]
fn scenario_second_unauthorized_is_a_hard_failure() {
    let (state, _) = call_begin(initial_state());
    let (state, _) = call_on_reply(state, 401, "expired".to_string());
    let (state, _) = call_on_reply(state, 200, refreshed_auth_body());
    let (state, action) = call_on_reply(state, 401, "still expired".to_string());
    assert!(matches!(action, CallAction::Finish));
    let outcome = match state {
        CallState::Done { outcome } => outcome,
        _ => panic!("expected the call to be over"),
    };
    match outcome.unwrap_err() {
        APIError::AuthenticationFailed(e) => assert_eq!(e.message, "still expired"),
        other => panic!("expected an authentication failure, got {:?}", other),
    }
}

#[test]
fn scenario_not_found_carries_the_decoded_message() {
    let (state, _) = call_begin(initial_state());
    let (state, action) = call_on_reply(state, 404, r#"{"message":"not found"}"#.to_string());
    assert!(matches!(action, CallAction::Finish));
    let outcome = match state {
        CallState::Done { outcome } => outcome,
        _ => panic!("expected the call to be over"),
    };
    match outcome.unwrap_err() {
        APIError::NotFound(e) => assert_eq!(e.message, "not found"),
        other => panic!("expected a not-found failure, got {:?}", other),
    }
}

#[test]
fn scenario_other_status_is_a_general_failure() {
    let (state, _) = call_begin(initial_state());
    let (state, _) = call_on_reply(state, 500, "server exploded".to_string());
    let outcome = match state {
        CallState::Done { outcome } => outcome,
        _ => panic!("expected the call to be over"),
    };
    match outcome.unwrap_err() {
        APIError::General(e) => assert_eq!(e.message, "server exploded"),
        other => panic!("expected a general failure, got {:?}", other),
    }
}

#[test]
fn login_and_refresh_bodies_are_exact() {
    let payload = LoginPayload::new("alice".to_string(), "s3cret".to_string());
    assert_eq!(
        login_request_body(&payload),
        r#"{"Password":"s3cret","UserType":"02","Username":"alice"}"#
    );
    assert_eq!(
        refresh_request_body(&initial_state()),
        r#"{"refreshToken":"first-refresh"}"#
    );
}

#[test]
fn submission_bodies_are_wrapped_exactly() {
    let cards = vec![];
    let body = ergani::client::work_card_submission_body(&cards);
    assert_eq!(body, r#"{"Cards":{"Card":[]}}"#);
    let overtimes = vec![];
    let body = ergani::client::overtime_submission_body(&overtimes);
    assert_eq!(body, r#"{"Overtimes":{"Overtime":[]}}"#);
    let daily = vec![];
    let body = ergani::client::daily_schedule_submission_body(&daily);
    assert_eq!(body, r#"{"WTOS":{"WTO":[]}}"#);
    let weekly = vec![];
    let body = ergani::client::weekly_schedule_submission_body(&weekly);
    assert_eq!(body, r#"{"WTOS":{"WTO":[]}}"#);
}

#[test]
fn malformed_submission_body_is_a_decode_failure() {
    let result = extract_submission_result(Some("not json".to_string()));
    assert!(matches!(result, Err(APIError::Decode(_))));
    let result = extract_submission_result(Some(r#"[{"id":"1"}]"#.to_string()));
    assert!(matches!(result, Err(APIError::Decode(_))));
}
