use ergani::dates::{Date, DateTime};
use ergani::models::overtime::OvertimeBuilder;
use ergani::models::work_card::WorkCardBuilder;
use ergani::models::work_day_details::WorkDayDetailsBuilder;
use ergani::types::{
    LateDeclarationJustificationType, OvertimeJustificationType, ScheduleWorkType,
    WeeklyWorkDays, WorkCardMovementType,
};

fn movement_datetime() -> DateTime {
    DateTime::new(2014, 11, 28, 12, 0, 0).unwrap()
}

#[test]
fn test_build_work_card_fails_when_work_card_movement_type_not_set() {
    let work_card = WorkCardBuilder::builder()
        .set_employee_tax_identification_number("123456789".to_string())
        .set_employee_last_name("ΠΑΠΑΔΟΠΟΥΛΟΣ".to_string())
        .set_employee_first_name("ΓΕΩΡΓΙΟΣ".to_string())
        .set_work_card_submission_date(Date::new(2014, 11, 28).unwrap())
        .set_work_card_movement_datetime(movement_datetime())
        .set_late_declaration_justification(Some(LateDeclarationJustificationType::PowerOutage))
        .build();

    assert!(work_card.is_err());
}

#[test]
fn test_build_work_card_is_ok() {
    let work_card = WorkCardBuilder::builder()
        .set_employee_tax_identification_number("123456789".to_string())
        .set_employee_last_name("ΠΑΠΑΔΟΠΟΥΛΟΣ".to_string())
        .set_employee_first_name("ΓΕΩΡΓΙΟΣ".to_string())
        .set_work_card_submission_date(Date::new(2014, 11, 28).unwrap())
        .set_work_card_movement_datetime(movement_datetime())
        .set_late_declaration_justification(Some(LateDeclarationJustificationType::PowerOutage))
        .set_work_card_movement_type(WorkCardMovementType::Arrival)
        .build();

    assert!(work_card.is_ok());
}

fn overtime_builder_without_justification() -> OvertimeBuilder {
    OvertimeBuilder::builder()
        .set_employee_tax_identification_number("123456789".to_string())
        .set_employee_social_security_number("12345678901".to_string())
        .set_employee_last_name("ΠΑΠΑΔΟΠΟΥΛΟΣ".to_string())
        .set_employee_first_name("ΓΕΩΡΓΙΟΣ".to_string())
        .set_overtime_date(Date::new(2021, 1, 1).unwrap())
        .set_overtime_start_time(DateTime::new(2014, 11, 28, 12, 0, 9).unwrap())
        .set_overtime_end_time(DateTime::new(2014, 11, 29, 12, 0, 9).unwrap())
        .set_overtime_cancellation(false)
        .set_employee_profession_code("1234".to_string())
        .set_weekly_workdays_number(WeeklyWorkDays::Five)
        .set_asee_approval(Some("123456".to_string()))
}

#[test]
fn test_build_overtime_fails_when_overtime_justification_not_set() {
    let overtime = overtime_builder_without_justification().build();
    assert!(overtime.is_err());
}

#[test]
fn test_build_overtime_is_ok() {
    let overtime = overtime_builder_without_justification()
        .set_overtime_justification(
            OvertimeJustificationType::AccidentPreventionOrDamageRestoration,
        )
        .build();
    assert!(overtime.is_ok());
}

#[test]
fn test_serialize_work_day_details_build_fails_when_work_type_not_set() {
    let work_day_details = WorkDayDetailsBuilder::builder()
        .set_start_time(DateTime::new(2014, 11, 28, 12, 0, 0).unwrap())
        .set_end_time(DateTime::new(2014, 11, 28, 16, 0, 0).unwrap())
        .build();

    assert!(work_day_details.is_err());
    assert_eq!(
        work_day_details.err().unwrap().to_string(),
        "Work type is required"
    );
}

#[test]
fn test_serialize_work_day_details_build_is_ok() {
    let work_day_details = WorkDayDetailsBuilder::builder()
        .set_work_type(ScheduleWorkType::WorkFromHome)
        .set_start_time(DateTime::new(2014, 11, 28, 12, 0, 0).unwrap())
        .set_end_time(DateTime::new(2014, 11, 28, 16, 0, 0).unwrap())
        .build();

    assert!(work_day_details.is_ok());
}

#[test]
fn test_build_work_card_error_message() {
    let work_card = WorkCardBuilder::builder().build();
    assert_eq!(
        work_card.err().unwrap(),
        "Work card movement type is required"
    );
}

#[test]
fn test_build_overtime_error_message() {
    let overtime = OvertimeBuilder::builder().build();
    assert_eq!(overtime.err().unwrap(), "Overtime justification is required");
}
