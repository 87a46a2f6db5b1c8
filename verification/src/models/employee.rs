//! Per-employee schedule entries: one for daily schedules with an
//! explicit date, one for weekly schedules whose day of week is
//! derived from the date at serialization time.

use vstd::prelude::*;
use crate::dates::{Date, epoch_date, date_dmy, format_date, weekday_of, weekday_name, get_day_of_week};
use crate::models::work_day_details::WorkDayDetails;
use crate::wire::{Wire, str_field, key_prefix, arr, wires_of, append_str_field, append_key, append_record_array, begin_obj, nest_obj, comma, end_obj};

verus! {

/// A daily schedule entry for one employee.
#[derive(Clone)]
pub struct EmployeeDailySchedule {
    pub employee_tax_identification_number: String,
    pub employee_last_name: String,
    pub employee_first_name: String,
    pub schedule_date: Date,
    pub workday_details: Vec<WorkDayDetails>,
}

impl EmployeeDailySchedule {
    /// Well-formed date and intervals.
    pub open spec fn valid(self) -> bool {
        self.schedule_date.valid() && forall|i: int|
            0 <= i < self.workday_details@.len() ==> (#[trigger] self.workday_details@[i]).valid()
    }

    /// Whether the date and every interval are well formed.
    pub fn is_wf(&self) -> (r: bool)
        ensures
            r == self.valid(),
    {
        if !self.schedule_date.is_wf() {
            return false;
        }
        let mut i: usize = 0;
        while i < self.workday_details.len()
            invariant
                i <= self.workday_details@.len(),
                forall|k: int|
                    0 <= k < i ==> (#[trigger] self.workday_details@[k]).valid(),
            decreases self.workday_details@.len() - i,
        {
            if !self.workday_details[i].is_wf() {
                return false;
            }
            i = i + 1;
        }
        true
    }

    /// The exact wire object: identification, the date as
    /// `dd/mm/yyyy`, and the intervals in a nested container under the
    /// fixed keys the remote schema prescribes.
    pub open spec fn wire(self) -> Seq<char> {
        seq!['{'] + str_field("f_afm"@, self.employee_tax_identification_number@) + seq![',']
            + str_field("f_eponymo"@, self.employee_last_name@) + seq![','] + str_field(
            "f_onoma"@,
            self.employee_first_name@,
        ) + seq![','] + str_field("f_date"@, date_dmy(self.schedule_date)) + seq![','] + key_prefix(
            "ErgazomenosAnalytics"@,
        ) + seq!['{'] + key_prefix("ErgazomenosWTOAnalytics"@) + arr(
            wires_of(self.workday_details@),
        ) + seq!['}'] + seq!['}']
    }

    /// The wire text of this schedule entry alone.
    pub fn to_wire_json(&self) -> (r: String)
        requires
            self.valid(),
        ensures
            r@ == self.wire(),
    {
        let date = format_date(Some(&self.schedule_date));
        let mut out = begin_obj();
        append_str_field(&mut out, "f_afm", self.employee_tax_identification_number.as_str());
        comma(&mut out);
        append_str_field(&mut out, "f_eponymo", self.employee_last_name.as_str());
        comma(&mut out);
        append_str_field(&mut out, "f_onoma", self.employee_first_name.as_str());
        comma(&mut out);
        append_str_field(&mut out, "f_date", date.as_str());
        comma(&mut out);
        append_key(&mut out, "ErgazomenosAnalytics");
        nest_obj(&mut out);
        append_key(&mut out, "ErgazomenosWTOAnalytics");
        append_record_array(&mut out, &self.workday_details);
        end_obj(&mut out);
        end_obj(&mut out);
        out
    }

    /// Appends the wire object of this schedule entry.
    pub fn append_wire(&self, out: &mut String)
        requires
            self.valid(),
        ensures
            final(out)@ == old(out)@ + self.wire(),
    {
        let text = self.to_wire_json();
        out.append(text.as_str());
    }
}

impl Wire for EmployeeDailySchedule {
    open spec fn wire_wf(&self) -> bool {
        self.valid()
    }

    open spec fn wire_text(&self) -> Seq<char> {
        self.wire()
    }

    fn append_to(&self, out: &mut String) {
        self.append_wire(out);
    }
}

/// A weekly schedule entry for one employee. Its wire form carries the
/// day of week derived from `schedule_date`, never a caller-supplied
/// day name.
#[derive(Clone)]
pub struct EmployeeWeeklySchedule {
    pub employee_tax_identification_number: String,
    pub employee_last_name: String,
    pub employee_first_name: String,
    pub schedule_date: Date,
    pub workday_details: Vec<WorkDayDetails>,
}

impl EmployeeWeeklySchedule {
    /// Well-formed date and intervals.
    pub open spec fn valid(self) -> bool {
        self.schedule_date.valid() && forall|i: int|
            0 <= i < self.workday_details@.len() ==> (#[trigger] self.workday_details@[i]).valid()
    }

    /// Whether the date and every interval are well formed.
    pub fn is_wf(&self) -> (r: bool)
        ensures
            r == self.valid(),
    {
        if !self.schedule_date.is_wf() {
            return false;
        }
        let mut i: usize = 0;
        while i < self.workday_details.len()
            invariant
                i <= self.workday_details@.len(),
                forall|k: int|
                    0 <= k < i ==> (#[trigger] self.workday_details@[k]).valid(),
            decreases self.workday_details@.len() - i,
        {
            if !self.workday_details[i].is_wf() {
                return false;
            }
            i = i + 1;
        }
        true
    }

    /// The exact wire object: identification, the derived day-of-week
    /// name under `f_day`, and the intervals in the nested container.
    pub open spec fn wire(self) -> Seq<char> {
        seq!['{'] + str_field("f_afm"@, self.employee_tax_identification_number@) + seq![',']
            + str_field("f_eponymo"@, self.employee_last_name@) + seq![','] + str_field(
            "f_onoma"@,
            self.employee_first_name@,
        ) + seq![','] + str_field("f_day"@, weekday_name(weekday_of(self.schedule_date))) + seq![
            ','
        ] + key_prefix("ErgazomenosAnalytics"@) + seq!['{'] + key_prefix(
            "ErgazomenosWTOAnalytics"@,
        ) + arr(wires_of(self.workday_details@)) + seq!['}'] + seq!['}']
    }

    /// The wire text of this schedule entry alone.
    pub fn to_wire_json(&self) -> (r: String)
        requires
            self.valid(),
        ensures
            r@ == self.wire(),
    {
        let day = get_day_of_week(Some(self.schedule_date));
        let mut out = begin_obj();
        append_str_field(&mut out, "f_afm", self.employee_tax_identification_number.as_str());
        comma(&mut out);
        append_str_field(&mut out, "f_eponymo", self.employee_last_name.as_str());
        comma(&mut out);
        append_str_field(&mut out, "f_onoma", self.employee_first_name.as_str());
        comma(&mut out);
        append_str_field(&mut out, "f_day", day.as_str());
        comma(&mut out);
        append_key(&mut out, "ErgazomenosAnalytics");
        nest_obj(&mut out);
        append_key(&mut out, "ErgazomenosWTOAnalytics");
        append_record_array(&mut out, &self.workday_details);
        end_obj(&mut out);
        end_obj(&mut out);
        out
    }

    /// Appends the wire object of this schedule entry.
    pub fn append_wire(&self, out: &mut String)
        requires
            self.valid(),
        ensures
            final(out)@ == old(out)@ + self.wire(),
    {
        let text = self.to_wire_json();
        out.append(text.as_str());
    }
}

impl Wire for EmployeeWeeklySchedule {
    open spec fn wire_wf(&self) -> bool {
        self.valid()
    }

    open spec fn wire_text(&self) -> Seq<char> {
        self.wire()
    }

    fn append_to(&self, out: &mut String) {
        self.append_wire(out);
    }
}

/// Builds an [`EmployeeDailySchedule`]; every field has a usable
/// default, so building always succeeds.
pub struct EmployeeDailyScheduleBuilder {
    pub employee_tax_identification_number: String,
    pub employee_last_name: String,
    pub employee_first_name: String,
    pub schedule_date: Date,
    pub workday_details: Vec<WorkDayDetails>,
}

impl EmployeeDailyScheduleBuilder {
    /// A fresh builder: empty strings, the epoch date, no intervals.
    pub fn builder() -> (r: EmployeeDailyScheduleBuilder)
        ensures
            r.employee_tax_identification_number@ == Seq::<char>::empty(),
            r.employee_last_name@ == Seq::<char>::empty(),
            r.employee_first_name@ == Seq::<char>::empty(),
            r.schedule_date == epoch_date(),
            r.workday_details@.len() == 0,
    {
        EmployeeDailyScheduleBuilder {
            employee_tax_identification_number: String::new(),
            employee_last_name: String::new(),
            employee_first_name: String::new(),
            schedule_date: crate::dates::unix_epoch_date(),
            workday_details: Vec::new(),
        }
    }

    /// Finishes the record.
    pub fn build(self) -> (r: EmployeeDailySchedule)
        ensures
            r.employee_tax_identification_number == self.employee_tax_identification_number,
            r.employee_last_name == self.employee_last_name,
            r.employee_first_name == self.employee_first_name,
            r.schedule_date == self.schedule_date,
            r.workday_details == self.workday_details,
    {
        EmployeeDailySchedule {
            employee_tax_identification_number: self.employee_tax_identification_number,
            employee_last_name: self.employee_last_name,
            employee_first_name: self.employee_first_name,
            schedule_date: self.schedule_date,
            workday_details: self.workday_details,
        }
    }

    /// Sets the employee's tax identification number.
    pub fn set_employee_tax_identification_number(
        self,
        employee_tax_identification_number: String,
    ) -> (r: Self)
        ensures
            r == (EmployeeDailyScheduleBuilder { employee_tax_identification_number, ..self }),
    {
        EmployeeDailyScheduleBuilder { employee_tax_identification_number, ..self }
    }

    /// Sets the employee's last name.
    pub fn set_employee_last_name(self, employee_last_name: String) -> (r: Self)
        ensures
            r == (EmployeeDailyScheduleBuilder { employee_last_name, ..self }),
    {
        EmployeeDailyScheduleBuilder { employee_last_name, ..self }
    }

    /// Sets the employee's first name.
    pub fn set_employee_first_name(self, employee_first_name: String) -> (r: Self)
        ensures
            r == (EmployeeDailyScheduleBuilder { employee_first_name, ..self }),
    {
        EmployeeDailyScheduleBuilder { employee_first_name, ..self }
    }

    /// Sets the schedule date.
    pub fn set_schedule_date(self, schedule_date: Date) -> (r: Self)
        ensures
            r == (EmployeeDailyScheduleBuilder { schedule_date, ..self }),
    {
        EmployeeDailyScheduleBuilder { schedule_date, ..self }
    }

    /// Sets the workday intervals.
    pub fn set_workday_details(self, workday_details: Vec<WorkDayDetails>) -> (r: Self)
        ensures
            r == (EmployeeDailyScheduleBuilder { workday_details, ..self }),
    {
        EmployeeDailyScheduleBuilder { workday_details, ..self }
    }
}

/// Builds an [`EmployeeWeeklySchedule`]; every field has a usable
/// default, so building always succeeds.
pub struct EmployeeWeeklyScheduleBuilder {
    pub employee_tax_identification_number: String,
    pub employee_last_name: String,
    pub employee_first_name: String,
    pub schedule_date: Date,
    pub workday_details: Vec<WorkDayDetails>,
}

impl EmployeeWeeklyScheduleBuilder {
    /// A fresh builder: empty strings, the epoch date, no intervals.
    pub fn builder() -> (r: EmployeeWeeklyScheduleBuilder)
        ensures
            r.employee_tax_identification_number@ == Seq::<char>::empty(),
            r.employee_last_name@ == Seq::<char>::empty(),
            r.employee_first_name@ == Seq::<char>::empty(),
            r.schedule_date == epoch_date(),
            r.workday_details@.len() == 0,
    {
        EmployeeWeeklyScheduleBuilder {
            employee_tax_identification_number: String::new(),
            employee_last_name: String::new(),
            employee_first_name: String::new(),
            schedule_date: crate::dates::unix_epoch_date(),
            workday_details: Vec::new(),
        }
    }

    /// Finishes the record.
    pub fn build(self) -> (r: EmployeeWeeklySchedule)
        ensures
            r.employee_tax_identification_number == self.employee_tax_identification_number,
            r.employee_last_name == self.employee_last_name,
            r.employee_first_name == self.employee_first_name,
            r.schedule_date == self.schedule_date,
            r.workday_details == self.workday_details,
    {
        EmployeeWeeklySchedule {
            employee_tax_identification_number: self.employee_tax_identification_number,
            employee_last_name: self.employee_last_name,
            employee_first_name: self.employee_first_name,
            schedule_date: self.schedule_date,
            workday_details: self.workday_details,
        }
    }

    /// Sets the employee's tax identification number.
    pub fn set_employee_tax_identification_number(
        self,
        employee_tax_identification_number: String,
    ) -> (r: Self)
        ensures
            r == (EmployeeWeeklyScheduleBuilder { employee_tax_identification_number, ..self }),
    {
        EmployeeWeeklyScheduleBuilder { employee_tax_identification_number, ..self }
    }

    /// Sets the employee's last name.
    pub fn set_employee_last_name(self, employee_last_name: String) -> (r: Self)
        ensures
            r == (EmployeeWeeklyScheduleBuilder { employee_last_name, ..self }),
    {
        EmployeeWeeklyScheduleBuilder { employee_last_name, ..self }
    }

    /// Sets the employee's first name.
    pub fn set_employee_first_name(self, employee_first_name: String) -> (r: Self)
        ensures
            r == (EmployeeWeeklyScheduleBuilder { employee_first_name, ..self }),
    {
        EmployeeWeeklyScheduleBuilder { employee_first_name, ..self }
    }

    /// Sets the schedule date from which the wire day of week derives.
    pub fn set_schedule_date(self, schedule_date: Date) -> (r: Self)
        ensures
            r == (EmployeeWeeklyScheduleBuilder { schedule_date, ..self }),
    {
        EmployeeWeeklyScheduleBuilder { schedule_date, ..self }
    }

    /// Sets the workday intervals.
    pub fn set_workday_details(self, workday_details: Vec<WorkDayDetails>) -> (r: Self)
        ensures
            r == (EmployeeWeeklyScheduleBuilder { workday_details, ..self }),
    {
        EmployeeWeeklyScheduleBuilder { workday_details, ..self }
    }
}

} // verus!
