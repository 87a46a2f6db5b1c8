//! Enumerated domain values and their fixed wire codes. Each mapping
//! is total — every variant has exactly one code — and injective, as
//! the proof functions at the end state.

use vstd::prelude::*;

verus! {

/// Why a work-card movement was declared late.
#[derive(Clone, Copy, PartialEq, Eq, Structural, Debug)]
pub enum LateDeclarationJustificationType {
    PowerOutage,
    EmployerSystemsUnavailable,
    ErganiSystemsUnavailable,
}

impl LateDeclarationJustificationType {
    /// The wire code of this justification.
    pub open spec fn spec_value(self) -> Seq<char> {
        match self {
            LateDeclarationJustificationType::PowerOutage => "001"@,
            LateDeclarationJustificationType::EmployerSystemsUnavailable => "002"@,
            LateDeclarationJustificationType::ErganiSystemsUnavailable => "003"@,
        }
    }

    /// The wire code of this justification.
    pub fn value(&self) -> (r: &'static str)
        ensures
            r@ == self.spec_value(),
    {
        match self {
            LateDeclarationJustificationType::PowerOutage => "001",
            LateDeclarationJustificationType::EmployerSystemsUnavailable => "002",
            LateDeclarationJustificationType::ErganiSystemsUnavailable => "003",
        }
    }
}

/// Why overtime was worked.
#[derive(Clone, Copy, PartialEq, Eq, Structural, Debug)]
pub enum OvertimeJustificationType {
    AccidentPreventionOrDamageRestoration,
    UrgentSeasonalTasks,
    ExceptionalWorkload,
    SupplementaryTasks,
    LostHoursSuddenCauses,
    LostHoursOfficialHolidays,
    LostHoursWeatherConditions,
    EmergencyClosureDay,
    NonWorkdayTasks,
}

impl OvertimeJustificationType {
    /// The wire code of this justification.
    pub open spec fn spec_value(self) -> Seq<char> {
        match self {
            OvertimeJustificationType::AccidentPreventionOrDamageRestoration => "001"@,
            OvertimeJustificationType::UrgentSeasonalTasks => "002"@,
            OvertimeJustificationType::ExceptionalWorkload => "003"@,
            OvertimeJustificationType::SupplementaryTasks => "004"@,
            OvertimeJustificationType::LostHoursSuddenCauses => "005"@,
            OvertimeJustificationType::LostHoursOfficialHolidays => "006"@,
            OvertimeJustificationType::LostHoursWeatherConditions => "007"@,
            OvertimeJustificationType::EmergencyClosureDay => "008"@,
            OvertimeJustificationType::NonWorkdayTasks => "009"@,
        }
    }

    /// The wire code of this justification.
    pub fn value(&self) -> (r: &'static str)
        ensures
            r@ == self.spec_value(),
    {
        match self {
            OvertimeJustificationType::AccidentPreventionOrDamageRestoration => "001",
            OvertimeJustificationType::UrgentSeasonalTasks => "002",
            OvertimeJustificationType::ExceptionalWorkload => "003",
            OvertimeJustificationType::SupplementaryTasks => "004",
            OvertimeJustificationType::LostHoursSuddenCauses => "005",
            OvertimeJustificationType::LostHoursOfficialHolidays => "006",
            OvertimeJustificationType::LostHoursWeatherConditions => "007",
            OvertimeJustificationType::EmergencyClosureDay => "008",
            OvertimeJustificationType::NonWorkdayTasks => "009",
        }
    }
}

/// How an employee works on a scheduled day.
#[derive(Clone, Copy, PartialEq, Eq, Structural, Debug)]
pub enum ScheduleWorkType {
    WorkFromOffice,
    WorkFromHome,
    RestDay,
    Absent,
}

impl ScheduleWorkType {
    /// The wire code of this work type.
    pub open spec fn spec_value(self) -> Seq<char> {
        match self {
            ScheduleWorkType::WorkFromOffice => "ΕΡΓ"@,
            ScheduleWorkType::WorkFromHome => "ΤΗΛ"@,
            ScheduleWorkType::RestDay => "ΑΝ"@,
            ScheduleWorkType::Absent => "ΜΕ"@,
        }
    }

    /// The wire code of this work type.
    pub fn value(&self) -> (r: &'static str)
        ensures
            r@ == self.spec_value(),
    {
        match self {
            ScheduleWorkType::WorkFromOffice => "ΕΡΓ",
            ScheduleWorkType::WorkFromHome => "ΤΗΛ",
            ScheduleWorkType::RestDay => "ΑΝ",
            ScheduleWorkType::Absent => "ΜΕ",
        }
    }
}

/// The direction of a work-card movement.
#[derive(Clone, Copy, PartialEq, Eq, Structural, Debug)]
pub enum WorkCardMovementType {
    Arrival,
    Departure,
}

impl WorkCardMovementType {
    /// The wire code of this movement type.
    pub open spec fn spec_value(self) -> Seq<char> {
        match self {
            WorkCardMovementType::Arrival => "0"@,
            WorkCardMovementType::Departure => "1"@,
        }
    }

    /// The wire code of this movement type.
    pub fn value(&self) -> (r: &'static str)
        ensures
            r@ == self.spec_value(),
    {
        match self {
            WorkCardMovementType::Arrival => "0",
            WorkCardMovementType::Departure => "1",
        }
    }
}

/// How many days an employee works in a week.
#[derive(Clone, Copy, PartialEq, Eq, Structural, Debug)]
pub enum WeeklyWorkDays {
    Five,
    Six,
}

impl WeeklyWorkDays {
    /// The wire form of the number of weekly working days.
    pub open spec fn spec_value(self) -> Seq<char> {
        match self {
            WeeklyWorkDays::Five => "5"@,
            WeeklyWorkDays::Six => "6"@,
        }
    }

    /// The wire form of the number of weekly working days.
    pub fn value(&self) -> (r: &'static str)
        ensures
            r@ == self.spec_value(),
    {
        match self {
            WeeklyWorkDays::Five => "5",
            WeeklyWorkDays::Six => "6",
        }
    }
}

// ---------- the code tables are total and injective ----------

/// Every late-declaration justification has a nonempty wire code, and
/// distinct justifications have distinct codes.
pub proof fn lemma_late_declaration_codes_injective(
    a: LateDeclarationJustificationType,
    b: LateDeclarationJustificationType,
)
    ensures
        a.spec_value().len() > 0,
        a.spec_value() == b.spec_value() ==> a == b,
{
    reveal_strlit("001");
    reveal_strlit("002");
    reveal_strlit("003");
    assert("001"@.len() == 3 && "001"@[2] == '1');
    assert("002"@.len() == 3 && "002"@[2] == '2');
    assert("003"@.len() == 3 && "003"@[2] == '3');
}

/// Every overtime justification has a nonempty wire code, and distinct
/// justifications have distinct codes.
pub proof fn lemma_overtime_justification_codes_injective(
    a: OvertimeJustificationType,
    b: OvertimeJustificationType,
)
    ensures
        a.spec_value().len() > 0,
        a.spec_value() == b.spec_value() ==> a == b,
{
    reveal_strlit("001");
    reveal_strlit("002");
    reveal_strlit("003");
    reveal_strlit("004");
    reveal_strlit("005");
    reveal_strlit("006");
    reveal_strlit("007");
    reveal_strlit("008");
    reveal_strlit("009");
    assert("001"@.len() == 3 && "001"@[2] == '1');
    assert("002"@.len() == 3 && "002"@[2] == '2');
    assert("003"@.len() == 3 && "003"@[2] == '3');
    assert("004"@.len() == 3 && "004"@[2] == '4');
    assert("005"@.len() == 3 && "005"@[2] == '5');
    assert("006"@.len() == 3 && "006"@[2] == '6');
    assert("007"@.len() == 3 && "007"@[2] == '7');
    assert("008"@.len() == 3 && "008"@[2] == '8');
    assert("009"@.len() == 3 && "009"@[2] == '9');
}

/// Every schedule work type has a nonempty wire code, and distinct
/// work types have distinct codes.
pub proof fn lemma_schedule_work_type_codes_injective(a: ScheduleWorkType, b: ScheduleWorkType)
    ensures
        a.spec_value().len() > 0,
        a.spec_value() == b.spec_value() ==> a == b,
{
    reveal_strlit("ΕΡΓ");
    reveal_strlit("ΤΗΛ");
    reveal_strlit("ΑΝ");
    reveal_strlit("ΜΕ");
    assert("ΕΡΓ"@.len() == 3 && "ΕΡΓ"@[0] == 'Ε');
    assert("ΤΗΛ"@.len() == 3 && "ΤΗΛ"@[0] == 'Τ');
    assert("ΑΝ"@.len() == 2 && "ΑΝ"@[0] == 'Α');
    assert("ΜΕ"@.len() == 2 && "ΜΕ"@[0] == 'Μ');
}

/// Both work-card movement types have a nonempty wire code, and the
/// two codes differ.
pub proof fn lemma_work_card_movement_codes_injective(
    a: WorkCardMovementType,
    b: WorkCardMovementType,
)
    ensures
        a.spec_value().len() > 0,
        a.spec_value() == b.spec_value() ==> a == b,
{
    reveal_strlit("0");
    reveal_strlit("1");
    assert("0"@.len() == 1 && "0"@[0] == '0');
    assert("1"@.len() == 1 && "1"@[0] == '1');
}

/// Both weekly working-day counts have a nonempty wire form, and the
/// two forms differ.
pub proof fn lemma_weekly_work_days_codes_injective(a: WeeklyWorkDays, b: WeeklyWorkDays)
    ensures
        a.spec_value().len() > 0,
        a.spec_value() == b.spec_value() ==> a == b,
{
    reveal_strlit("5");
    reveal_strlit("6");
    assert("5"@.len() == 1 && "5"@[0] == '5');
    assert("6"@.len() == 1 && "6"@[0] == '6');
}

} // verus!
