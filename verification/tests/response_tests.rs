use ergani::auth::decode_authentication_state;
use ergani::dates::{parse_datetime, DateTime};
use ergani::error::{decode_error_message, APIError, ErganiError};
use ergani::responses::{
    parse_lookup_root, parse_overtime_root, parse_week_schedule_root, parse_work_card_root,
};

#[test]
fn error_body_json_message_is_decoded() {
    let e = decode_error_message(r#"{"message":"not found"}"#);
    assert_eq!(e.message, "not found");
}

#[test]
fn error_body_plain_text_is_kept() {
    let e = decode_error_message("Service Unavailable");
    assert_eq!(e.message, "Service Unavailable");
    let e = decode_error_message(r#"{"code": 17}"#);
    assert_eq!(e.message, r#"{"code": 17}"#);
}

#[test]
fn error_message_is_trimmed_for_display() {
    let e = ErganiError {
        message: "  spaced out \r\n".to_string(),
    };
    assert_eq!(e.message(), "spaced out");
    let err = APIError::NotFound(e);
    assert_eq!(err.describe(), "Resource not found: spaced out");
}

#[test]
fn rfc3339_timestamps_normalize_to_utc() {
    assert_eq!(
        parse_datetime("2024-03-01T10:20:30+02:00"),
        DateTime::new(2024, 3, 1, 8, 20, 30)
    );
    assert_eq!(
        parse_datetime("2024-03-01T23:30:00-01:00"),
        DateTime::new(2024, 3, 2, 0, 30, 0)
    );
    assert_eq!(parse_datetime("2024-02-30T00:00:00Z"), None);
    assert_eq!(parse_datetime("garbage"), None);
}

#[test]
fn authentication_state_is_decoded_field_for_field() {
    let body = r#"{"accessToken":"at","accessTokenExpired":3600,"refreshToken":"rt","refreshTokenExpired":"2030-01-02T03:04:05Z"}"#;
    let state = decode_authentication_state(body).unwrap();
    assert_eq!(state.access_token, "at");
    assert_eq!(state.access_token_expired, 3600);
    assert_eq!(state.refresh_token, "rt");
    assert_eq!(
        state.refresh_token_expired,
        DateTime::new(2030, 1, 2, 3, 4, 5).unwrap()
    );

    let missing = r#"{"accessToken":"at"}"#;
    assert!(matches!(
        decode_authentication_state(missing),
        Err(APIError::Decode(_))
    ));
}

#[test]
fn lookup_root_is_decoded() {
    let body = r#"[{"id":1,"code":"WRK","description":"Work card"},{"id":2,"code":"OVT"}]"#;
    let rows = parse_lookup_root(body).unwrap();
    assert_eq!(rows.len(), 2);
    assert_eq!(rows[0].id, 1);
    assert_eq!(rows[0].code, "WRK");
    assert_eq!(rows[0].description, "Work card");
    assert_eq!(rows[1].id, 2);
    assert_eq!(rows[1].description, "", "an absent string member reads as empty");

    assert!(matches!(
        parse_lookup_root(r#"[{"code":"WRK"}]"#),
        Err(APIError::Decode(_))
    ));
    assert!(matches!(parse_lookup_root("{}"), Err(APIError::Decode(_))));
}

#[test]
fn week_schedule_root_is_decoded() {
    let body = r#"{"title":"Weekly","json":{"WTOS":{"WTO":[{"f_aa_pararthmatos":"1","f_rel_protocol":"99","f_rel_date":"","f_comments":"","f_from_date":"25/11/2014","f_to_date":"28/11/2014","Ergazomenoi":{"ErgazomenoiWTO":[{"f_afm":"123456789","f_eponymo":"Doe","f_onoma":"Jane","f_day":"Fri","ErgazomenosAnalytics":{"ErgazomenosWTOAnalytics":[{"f_type":"ΕΡΓ","f_from":"08:00","f_to":"16:00"}]}}]}}]}}}"#;
    let root = parse_week_schedule_root(body).unwrap();
    assert_eq!(root.title, "Weekly");
    let wto = &root.week_schedule.wtos.wto[0];
    assert_eq!(wto.f_aa_pararthmatos, "1");
    assert_eq!(wto.f_rel_protocol, "99");
    assert_eq!(wto.f_from_date, "25/11/2014");
    let employee = &wto.ergazomenoi.ergazomenoi_wto[0];
    assert_eq!(employee.f_afm, "123456789");
    assert_eq!(employee.f_day.as_deref(), Some("Fri"));
    let interval = &employee.ergazomenos_analytics.ergazomenos_wtoanalytics[0];
    assert_eq!(interval.f_type, "ΕΡΓ");
    assert_eq!(interval.f_from, "08:00");
    assert_eq!(interval.f_to, "16:00");
}

#[test]
fn week_schedule_absent_day_reads_as_unset() {
    let body = r#"{"title":"","json":{"WTOS":{"WTO":[{"Ergazomenoi":{"ErgazomenoiWTO":[{"f_afm":"1","ErgazomenosAnalytics":{"ErgazomenosWTOAnalytics":[]}}]}}]}}}"#;
    let root = parse_week_schedule_root(body).unwrap();
    let employee = &root.week_schedule.wtos.wto[0].ergazomenoi.ergazomenoi_wto[0];
    assert_eq!(employee.f_day, None);
    assert_eq!(employee.f_eponymo, "");
}

#[test]
fn work_card_root_is_decoded() {
    let body = r#"{"title":"Cards","json":{"Cards":{"Card":[{"f_afm_ergodoti":"987654321","f_aa":"1","f_comments":"","Details":{"CardDetails":[{"f_afm":"123456789","f_eponymo":"ΠΑΠΑΔΟΠΟΥΛΟΣ","f_onoma":"ΓΕΩΡΓΙΟΣ","f_type":"0","f_reference_date":"2021-01-01","f_date":"2014-11-28T12:00:00","f_aitiologia":""}]}}]}}}"#;
    let root = parse_work_card_root(body).unwrap();
    assert_eq!(root.title, "Cards");
    let card = &root.work_cards.cards.card[0];
    assert_eq!(card.f_afm_ergodoti, "987654321");
    let detail = &card.details.card_details[0];
    assert_eq!(detail.f_type, "0");
    assert_eq!(detail.f_date, "2014-11-28T12:00:00");
}

#[test]
fn overtime_root_is_decoded() {
    let body = r#"{"title":"Overtimes","json":{"Overtimes":{"Overtime":[{"f_aa_pararthmatos":"1","f_ypiresia_sepe":"123456","Ergazomenoi":{"OvertimeErgazomenosDate":[{"f_afm":"123456789","f_from":"12:00","f_to":"16:00","f_reason":"001"}]}}]}}}"#;
    let root = parse_overtime_root(body).unwrap();
    assert_eq!(root.title, "Overtimes");
    let declaration = &root.overtimes.overtimes.overtime[0];
    assert_eq!(declaration.f_aa_pararthmatos, "1");
    assert_eq!(declaration.f_kad_kyria, "", "absent members read as empty");
    let employee = &declaration.ergazomenoi.overtime_ergazomenos_date[0];
    assert_eq!(employee.f_afm, "123456789");
    assert_eq!(employee.f_reason, "001");
    assert_eq!(employee.f_asee, "");
}

#[test]
fn malformed_roots_are_decode_failures() {
    assert!(matches!(
        parse_week_schedule_root("[]"),
        Err(APIError::Decode(_))
    ));
    assert!(matches!(
        parse_work_card_root(r#"{"title":"x"}"#),
        Err(APIError::Decode(_))
    ));
    assert!(matches!(
        parse_overtime_root("not json"),
        Err(APIError::Decode(_))
    ));
}
