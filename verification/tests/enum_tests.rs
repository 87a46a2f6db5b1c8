use ergani::types::{
    LateDeclarationJustificationType, OvertimeJustificationType, ScheduleWorkType,
    WeeklyWorkDays, WorkCardMovementType,
};

fn assert_total_and_injective(codes: &[&str]) {
    for (i, a) in codes.iter().enumerate() {
        assert!(!a.is_empty(), "no wire code may be empty");
        for (j, b) in codes.iter().enumerate() {
            if i != j {
                assert_ne!(a, b, "distinct variants must map to distinct codes");
            }
        }
    }
}

#[test]
fn late_declaration_codes_are_total_and_injective() {
    let codes = [
        LateDeclarationJustificationType::PowerOutage.value(),
        LateDeclarationJustificationType::EmployerSystemsUnavailable.value(),
        LateDeclarationJustificationType::ErganiSystemsUnavailable.value(),
    ];
    assert_total_and_injective(&codes);
    assert_eq!(codes[0], "001");
    assert_eq!(codes[1], "002");
    assert_eq!(codes[2], "003");
}

#[test]
fn overtime_justification_codes_are_total_and_injective() {
    let codes = [
        OvertimeJustificationType::AccidentPreventionOrDamageRestoration.value(),
        OvertimeJustificationType::UrgentSeasonalTasks.value(),
        OvertimeJustificationType::ExceptionalWorkload.value(),
        OvertimeJustificationType::SupplementaryTasks.value(),
        OvertimeJustificationType::LostHoursSuddenCauses.value(),
        OvertimeJustificationType::LostHoursOfficialHolidays.value(),
        OvertimeJustificationType::LostHoursWeatherConditions.value(),
        OvertimeJustificationType::EmergencyClosureDay.value(),
        OvertimeJustificationType::NonWorkdayTasks.value(),
    ];
    assert_total_and_injective(&codes);
    assert_eq!(
        codes,
        ["001", "002", "003", "004", "005", "006", "007", "008", "009"]
    );
}

#[test]
fn schedule_work_type_codes_are_total_and_injective() {
    let codes = [
        ScheduleWorkType::WorkFromOffice.value(),
        ScheduleWorkType::WorkFromHome.value(),
        ScheduleWorkType::RestDay.value(),
        ScheduleWorkType::Absent.value(),
    ];
    assert_total_and_injective(&codes);
    assert_eq!(codes, ["ΕΡΓ", "ΤΗΛ", "ΑΝ", "ΜΕ"]);
}

#[test]
fn work_card_movement_codes_are_total_and_injective() {
    let codes = [
        WorkCardMovementType::Arrival.value(),
        WorkCardMovementType::Departure.value(),
    ];
    assert_total_and_injective(&codes);
    assert_eq!(codes, ["0", "1"]);
}

#[test]
fn weekly_work_days_codes_are_total_and_injective() {
    let codes = [WeeklyWorkDays::Five.value(), WeeklyWorkDays::Six.value()];
    assert_total_and_injective(&codes);
    assert_eq!(codes, ["5", "6"]);
}
