use ergani::dates::{Date, DateTime};
use ergani::models::company::{
    CompanyDailySchedule, CompanyOvertime, CompanyWeeklySchedule, CompanyWorkCard,
};
use ergani::models::employee::{EmployeeDailySchedule, EmployeeWeeklySchedule};
use ergani::models::overtime::Overtime;
use ergani::models::work_card::WorkCard;
use ergani::models::work_day_details::WorkDayDetails;
use ergani::types::{
    LateDeclarationJustificationType, OvertimeJustificationType, ScheduleWorkType,
    WeeklyWorkDays, WorkCardMovementType,
};

fn dt(y: u16, mo: u8, d: u8, h: u8, mi: u8, s: u8) -> DateTime {
    DateTime::new(y, mo, d, h, mi, s).unwrap()
}

fn sample_details() -> Vec<WorkDayDetails> {
    vec![
        WorkDayDetails {
            work_type: ScheduleWorkType::WorkFromHome,
            start_time: dt(2014, 11, 28, 12, 0, 0),
            end_time: dt(2014, 11, 28, 16, 0, 0),
        },
        WorkDayDetails {
            work_type: ScheduleWorkType::WorkFromOffice,
            start_time: dt(2014, 11, 28, 8, 0, 0),
            end_time: dt(2014, 11, 28, 16, 0, 0),
        },
    ]
}

#[test]
fn test_serialize_work_day_details() {
    let work_day_details = WorkDayDetails {
        work_type: ScheduleWorkType::WorkFromHome,
        start_time: dt(2014, 11, 28, 12, 0, 0),
        end_time: dt(2014, 11, 28, 16, 0, 0),
    };
    assert_eq!(
        work_day_details.to_wire_json(),
        r#"{"f_type":"ΤΗΛ","f_from":"12:00","f_to":"16:00"}"#
    );
}

#[test]
fn test_serialize_work_card_with_late_declaration_justification() {
    let work_card = WorkCard {
        employee_tax_identification_number: "123456789".to_string(),
        employee_last_name: "ΠΑΠΑΔΟΠΟΥΛΟΣ".to_string(),
        employee_first_name: "ΓΕΩΡΓΙΟΣ".to_string(),
        work_card_movement_type: WorkCardMovementType::Arrival,
        work_card_submission_date: Date::new(2021, 1, 1).unwrap(),
        work_card_movement_datetime: dt(2014, 11, 28, 12, 0, 0),
        late_declaration_justification: Some(LateDeclarationJustificationType::PowerOutage),
    };

    let serialized_work_card = work_card.to_wire_json();
    let expected_work_card = r#"{"f_afm":"123456789","f_eponymo":"ΠΑΠΑΔΟΠΟΥΛΟΣ","f_onoma":"ΓΕΩΡΓΙΟΣ","f_type":"0","f_reference_date":"2021-01-01","f_date":"2014-11-28T12:00:00","f_aitiologia":"001"}"#;
    assert_eq!(serialized_work_card, expected_work_card);
}

#[test]
fn test_serialize_work_card_without_late_declaration_justification() {
    let work_card = WorkCard {
        employee_tax_identification_number: "123456789".to_string(),
        employee_last_name: "ΠΑΠΑΔΟΠΟΥΛΟΣ".to_string(),
        employee_first_name: "ΓΕΩΡΓΙΟΣ".to_string(),
        work_card_movement_type: WorkCardMovementType::Arrival,
        work_card_submission_date: Date::new(2021, 1, 1).unwrap(),
        work_card_movement_datetime: dt(2014, 11, 28, 12, 0, 0),
        late_declaration_justification: None,
    };

    let serialized_work_card = work_card.to_wire_json();
    let expected_work_card = r#"{"f_afm":"123456789","f_eponymo":"ΠΑΠΑΔΟΠΟΥΛΟΣ","f_onoma":"ΓΕΩΡΓΙΟΣ","f_type":"0","f_reference_date":"2021-01-01","f_date":"2014-11-28T12:00:00","f_aitiologia":""}"#;
    assert_eq!(serialized_work_card, expected_work_card);
}

fn sample_overtime(asee: &str) -> Overtime {
    Overtime {
        employee_tax_identification_number: "123456789".to_string(),
        employee_social_security_number: "12345678901".to_string(),
        employee_last_name: "ΠΑΠΑΔΟΠΟΥΛΟΣ".to_string(),
        employee_first_name: "ΓΕΩΡΓΙΟΣ".to_string(),
        overtime_date: Date::new(2021, 1, 1).unwrap(),
        overtime_start_time: dt(2014, 11, 28, 12, 0, 9),
        overtime_end_time: dt(2014, 11, 29, 12, 0, 9),
        overtime_cancellation: false,
        employee_profession_code: "1234".to_string(),
        overtime_justification: OvertimeJustificationType::AccidentPreventionOrDamageRestoration,
        weekly_workdays_number: WeeklyWorkDays::Five,
        asee_approval: Some(asee.to_string()),
    }
}

#[test]
fn test_serialize_overtime() {
    let overtime = sample_overtime("123456789");
    let expected = r#"{"f_afm":"123456789","f_amka":"12345678901","f_eponymo":"ΠΑΠΑΔΟΠΟΥΛΟΣ","f_onoma":"ΓΕΩΡΓΙΟΣ","f_date":"01/01/2021","f_from":"12:00","f_to":"12:00","f_cancellation":"Ο","f_step":"1234","f_reason":"001","f_weekdates":"5","f_asee":"123456789"}"#;
    assert_eq!(overtime.to_wire_json(), expected);
}

#[test]
fn test_serialize_company_overtime() {
    let company_overtime = CompanyOvertime {
        business_branch_number: 1,
        sepe_service_code: "123456".to_string(),
        business_primary_activity_code: "1234".to_string(),
        business_branch_activity_code: "1234".to_string(),
        kallikratis_municipal_code: "1234".to_string(),
        legal_representative_tax_identification_number: "123456789".to_string(),
        employee_overtimes: vec![sample_overtime("123456")],
        related_protocol_id: Some("123456".to_string()),
        related_protocol_date: Some(Date::new(2021, 1, 1).unwrap()),
        employer_organization: Some("".to_string()),
        business_secondary_activity_code_1: None,
        business_secondary_activity_code_2: None,
        business_secondary_activity_code_3: None,
        business_secondary_activity_code_4: None,
        comments: None,
    };

    let expected = r#"{"f_aa_pararthmatos":1,"f_ypiresia_sepe":"123456","f_kad_kyria":"1234","f_kad_pararthmatos":"1234","f_kallikratis_pararthmatos":"1234","f_afm_proswpoy":"123456789","f_rel_protocol":"123456","f_rel_date":"01/01/2021","f_ergodotikh_organwsh":"","f_kad_deyt_1":"","f_kad_deyt_2":"","f_kad_deyt_3":"","f_kad_deyt_4":"","f_comments":"","Ergazomenoi":{"OvertimeErgazomenosDate":[{"f_afm":"123456789","f_amka":"12345678901","f_eponymo":"ΠΑΠΑΔΟΠΟΥΛΟΣ","f_onoma":"ΓΕΩΡΓΙΟΣ","f_date":"01/01/2021","f_from":"12:00","f_to":"12:00","f_cancellation":"Ο","f_step":"1234","f_reason":"001","f_weekdates":"5","f_asee":"123456"}]}}"#;
    assert_eq!(company_overtime.to_wire_json(), expected);
}

#[test]
fn test_serialize_employee_daily_schedule() {
    let employee_daily_schedule = EmployeeDailySchedule {
        employee_tax_identification_number: "123456789".to_string(),
        employee_last_name: "ΕργαζόμενοςΕπώνυμο".to_string(),
        employee_first_name: "ΕργαζόμενοςΌνομα".to_string(),
        schedule_date: Date::new(2014, 11, 28).unwrap(),
        workday_details: sample_details(),
    };

    let expected = r#"{"f_afm":"123456789","f_eponymo":"ΕργαζόμενοςΕπώνυμο","f_onoma":"ΕργαζόμενοςΌνομα","f_date":"28/11/2014","ErgazomenosAnalytics":{"ErgazomenosWTOAnalytics":[{"f_type":"ΤΗΛ","f_from":"12:00","f_to":"16:00"},{"f_type":"ΕΡΓ","f_from":"08:00","f_to":"16:00"}]}}"#;
    assert_eq!(employee_daily_schedule.to_wire_json(), expected);
}

#[test]
fn test_serialize_employee_weekly_schedule() {
    let employee_weekly_schedule = EmployeeWeeklySchedule {
        employee_tax_identification_number: "123456789".to_string(),
        employee_last_name: "Παπαδόπουλος".to_string(),
        employee_first_name: "Γιάννης".to_string(),
        schedule_date: Date::new(2024, 3, 17).unwrap(),
        workday_details: sample_details(),
    };

    let expected = r#"{"f_afm":"123456789","f_eponymo":"Παπαδόπουλος","f_onoma":"Γιάννης","f_day":"Sun","ErgazomenosAnalytics":{"ErgazomenosWTOAnalytics":[{"f_type":"ΤΗΛ","f_from":"12:00","f_to":"16:00"},{"f_type":"ΕΡΓ","f_from":"08:00","f_to":"16:00"}]}}"#;
    assert_eq!(employee_weekly_schedule.to_wire_json(), expected);
}

#[test]
fn test_serialize_company_work_card() {
    let work_card = WorkCard {
        employee_tax_identification_number: "123456789".to_string(),
        employee_last_name: "ΠΑΠΑΔΟΠΟΥΛΟΣ".to_string(),
        employee_first_name: "ΓΕΩΡΓΙΟΣ".to_string(),
        work_card_submission_date: Date::new(2021, 1, 1).unwrap(),
        work_card_movement_datetime: dt(2014, 11, 28, 12, 0, 0),
        late_declaration_justification: None,
        work_card_movement_type: WorkCardMovementType::Departure,
    };

    let company_work_card = CompanyWorkCard {
        employer_tax_identification_number: "987654321".to_string(),
        business_branch_number: 1,
        comments: Some("Σχόλια".to_string()),
        card_details: vec![work_card],
    };

    let expected = r#"{"f_afm_ergodoti":"987654321","f_aa":"1","f_comments":"Σχόλια","Details":{"CardDetails":[{"f_afm":"123456789","f_eponymo":"ΠΑΠΑΔΟΠΟΥΛΟΣ","f_onoma":"ΓΕΩΡΓΙΟΣ","f_type":"1","f_reference_date":"2021-01-01","f_date":"2014-11-28T12:00:00","f_aitiologia":""}]}}"#;
    assert_eq!(company_work_card.to_wire_json(), expected);
}

fn sample_daily_schedule() -> CompanyDailySchedule {
    let employee_daily_schedule = EmployeeDailySchedule {
        employee_tax_identification_number: "123456789".to_string(),
        employee_last_name: "ΕργαζόμενοςΕπώνυμο".to_string(),
        employee_first_name: "ΕργαζόμενοςΌνομα".to_string(),
        schedule_date: Date::new(2014, 11, 28).unwrap(),
        workday_details: sample_details(),
    };
    CompanyDailySchedule {
        business_branch_number: 123,
        start_date: Some(Date::new(2014, 11, 28).unwrap()),
        end_date: Some(Date::new(2014, 11, 28).unwrap()),
        employee_schedules: vec![employee_daily_schedule],
        related_protocol_id: Some("123".to_string()),
        related_protocol_date: Some(Date::new(2014, 11, 28).unwrap()),
        comments: Some("Σχόλια".to_string()),
    }
}

#[test]
fn test_serialize_company_daily_schedule() {
    let expected = r#"{"f_aa_pararthmatos":123,"f_rel_protocol":"123","f_rel_date":"28/11/2014","f_comments":"Σχόλια","f_from_date":"28/11/2014","f_to_date":"28/11/2014","Ergazomenoi":{"ErgazomenoiWTO":[{"f_afm":"123456789","f_eponymo":"ΕργαζόμενοςΕπώνυμο","f_onoma":"ΕργαζόμενοςΌνομα","f_date":"28/11/2014","ErgazomenosAnalytics":{"ErgazomenosWTOAnalytics":[{"f_type":"ΤΗΛ","f_from":"12:00","f_to":"16:00"},{"f_type":"ΕΡΓ","f_from":"08:00","f_to":"16:00"}]}}]}}"#;
    assert_eq!(sample_daily_schedule().to_wire_json(), expected);
}

fn weekly_employee(afm: &str, last: &str, first: &str) -> EmployeeWeeklySchedule {
    EmployeeWeeklySchedule {
        employee_tax_identification_number: afm.to_string(),
        employee_last_name: last.to_string(),
        employee_first_name: first.to_string(),
        schedule_date: Date::new(2014, 11, 28).unwrap(),
        workday_details: sample_details(),
    }
}

#[test]
fn test_serialize_company_weekly_schedule() {
    let company_weekly_schedule = CompanyWeeklySchedule {
        business_branch_number: 1,
        start_date: Date::new(2014, 11, 28).unwrap(),
        end_date: Date::new(2014, 11, 28).unwrap(),
        employee_schedules: vec![
            weekly_employee("123456789", "Doe", "John"),
            weekly_employee("987654321", "Doe", "Jane"),
        ],
        related_protocol_id: Some("123456".to_string()),
        related_protocol_date: Some(Date::new(2014, 11, 28).unwrap()),
        comments: Some("Some comments".to_string()),
    };

    let inner = r#""ErgazomenosAnalytics":{"ErgazomenosWTOAnalytics":[{"f_type":"ΤΗΛ","f_from":"12:00","f_to":"16:00"},{"f_type":"ΕΡΓ","f_from":"08:00","f_to":"16:00"}]}"#;
    let expected = format!(
        r#"{{"f_aa_pararthmatos":1,"f_rel_protocol":"123456","f_rel_date":"28/11/2014","f_comments":"Some comments","f_from_date":"28/11/2014","f_to_date":"28/11/2014","Ergazomenoi":{{"ErgazomenoiWTO":[{{"f_afm":"123456789","f_eponymo":"Doe","f_onoma":"John","f_day":"Fri",{inner}}},{{"f_afm":"987654321","f_eponymo":"Doe","f_onoma":"Jane","f_day":"Fri",{inner}}}]}}}}"#,
        inner = inner
    );
    assert_eq!(company_weekly_schedule.to_wire_json(), expected);
}

#[test]
fn test_serializing_twice_is_byte_identical() {
    let schedule = sample_daily_schedule();
    let first = schedule.to_wire_json();
    let second = schedule.to_wire_json();
    assert_eq!(first.into_bytes(), second.into_bytes());

    let overtime = sample_overtime("123456");
    assert_eq!(overtime.to_wire_json(), overtime.to_wire_json());
}

#[test]
fn test_serialized_records_are_valid_json() {
    let text = sample_daily_schedule().to_wire_json();
    let value: serde_json::Value = serde_json::from_str(&text).unwrap();
    assert_eq!(value["f_aa_pararthmatos"], serde_json::Value::from(123i64));
    assert_eq!(
        value["Ergazomenoi"]["ErgazomenoiWTO"][0]["f_afm"],
        serde_json::Value::from("123456789")
    );
}

#[test]
fn test_string_values_are_escaped() {
    let work_day = WorkDayDetails {
        work_type: ScheduleWorkType::WorkFromHome,
        start_time: dt(2014, 11, 28, 12, 0, 0),
        end_time: dt(2014, 11, 28, 16, 0, 0),
    };
    let card = CompanyWorkCard {
        employer_tax_identification_number: "a\"b\\c\n".to_string(),
        business_branch_number: -7,
        comments: None,
        card_details: vec![],
    };
    let text = card.to_wire_json();
    assert_eq!(
        text,
        r#"{"f_afm_ergodoti":"a\"b\\c\n","f_aa":"-7","f_comments":"","Details":{"CardDetails":[]}}"#
    );
    let value: serde_json::Value = serde_json::from_str(&text).unwrap();
    assert_eq!(value["f_afm_ergodoti"], serde_json::Value::from("a\"b\\c\n"));
    drop(work_day);
}
