//! An overtime entry for one employee, and its builder.

use vstd::prelude::*;
use crate::dates::{Date, DateTime, epoch_date, epoch_datetime, date_dmy, time_hm, format_date, format_time};
use crate::types::{OvertimeJustificationType, WeeklyWorkDays};
use crate::wire::{str_field, opt_str_field, cancellation_view, append_str_field, append_opt_str_field, begin_obj, comma, end_obj, get_ergani_overtime_cancellation};

verus! {

/// An overtime entry for an employee.
#[derive(Clone)]
pub struct Overtime {
    pub employee_tax_identification_number: String,
    pub employee_social_security_number: String,
    pub employee_last_name: String,
    pub employee_first_name: String,
    pub overtime_date: Date,
    pub overtime_start_time: DateTime,
    pub overtime_end_time: DateTime,
    pub overtime_cancellation: bool,
    pub employee_profession_code: String,
    pub overtime_justification: OvertimeJustificationType,
    pub weekly_workdays_number: WeeklyWorkDays,
    pub asee_approval: Option<String>,
}

impl Overtime {
    /// Well-formed date and times.
    pub open spec fn valid(self) -> bool {
        self.overtime_date.valid() && self.overtime_start_time.valid()
            && self.overtime_end_time.valid()
    }

    /// Whether the entry's date and times are well formed.
    pub fn is_wf(&self) -> (r: bool)
        ensures
            r == self.valid(),
    {
        self.overtime_date.is_wf() && self.overtime_start_time.is_wf()
            && self.overtime_end_time.is_wf()
    }

    /// The spec view of the optional ASEE approval: blank when unset.
    pub open spec fn asee_view(self) -> Option<Seq<char>> {
        match self.asee_approval {
            Some(s) => Some(s@),
            None => None,
        }
    }

    /// The exact wire object: identifiers and names as given, the date
    /// as `dd/mm/yyyy`, the interval as `HH:MM` times, the
    /// cancellation flag, profession code, justification code, weekly
    /// working days, and the ASEE approval or blank.
    pub open spec fn wire(self) -> Seq<char> {
        seq!['{'] + str_field("f_afm"@, self.employee_tax_identification_number@) + seq![',']
            + str_field("f_amka"@, self.employee_social_security_number@) + seq![','] + str_field(
            "f_eponymo"@,
            self.employee_last_name@,
        ) + seq![','] + str_field("f_onoma"@, self.employee_first_name@) + seq![','] + str_field(
            "f_date"@,
            date_dmy(self.overtime_date),
        ) + seq![','] + str_field("f_from"@, time_hm(self.overtime_start_time)) + seq![',']
            + str_field("f_to"@, time_hm(self.overtime_end_time)) + seq![','] + str_field(
            "f_cancellation"@,
            cancellation_view(self.overtime_cancellation),
        ) + seq![','] + str_field("f_step"@, self.employee_profession_code@) + seq![',']
            + str_field("f_reason"@, self.overtime_justification.spec_value()) + seq![',']
            + str_field("f_weekdates"@, self.weekly_workdays_number.spec_value()) + seq![',']
            + opt_str_field("f_asee"@, self.asee_view()) + seq!['}']
    }

    /// The wire text of this overtime entry alone.
    pub fn to_wire_json(&self) -> (r: String)
        requires
            self.valid(),
        ensures
            r@ == self.wire(),
    {
        let date = format_date(Some(&self.overtime_date));
        let from = format_time(&self.overtime_start_time);
        let to = format_time(&self.overtime_end_time);
        let cancellation = get_ergani_overtime_cancellation(self.overtime_cancellation);
        let mut out = begin_obj();
        append_str_field(&mut out, "f_afm", self.employee_tax_identification_number.as_str());
        comma(&mut out);
        append_str_field(&mut out, "f_amka", self.employee_social_security_number.as_str());
        comma(&mut out);
        append_str_field(&mut out, "f_eponymo", self.employee_last_name.as_str());
        comma(&mut out);
        append_str_field(&mut out, "f_onoma", self.employee_first_name.as_str());
        comma(&mut out);
        append_str_field(&mut out, "f_date", date.as_str());
        comma(&mut out);
        append_str_field(&mut out, "f_from", from.as_str());
        comma(&mut out);
        append_str_field(&mut out, "f_to", to.as_str());
        comma(&mut out);
        append_str_field(&mut out, "f_cancellation", cancellation.as_str());
        comma(&mut out);
        append_str_field(&mut out, "f_step", self.employee_profession_code.as_str());
        comma(&mut out);
        append_str_field(&mut out, "f_reason", self.overtime_justification.value());
        comma(&mut out);
        append_str_field(&mut out, "f_weekdates", self.weekly_workdays_number.value());
        comma(&mut out);
        append_opt_str_field(&mut out, "f_asee", &self.asee_approval);
        end_obj(&mut out);
        out
    }

    /// Appends the wire object of this overtime entry.
    pub fn append_wire(&self, out: &mut String)
        requires
            self.valid(),
        ensures
            final(out)@ == old(out)@ + self.wire(),
    {
        let text = self.to_wire_json();
        out.append(text.as_str());
    }
}

impl crate::wire::Wire for Overtime {
    open spec fn wire_wf(&self) -> bool {
        self.valid()
    }

    open spec fn wire_text(&self) -> Seq<char> {
        self.wire()
    }

    fn append_to(&self, out: &mut String) {
        self.append_wire(out);
    }
}

/// Builds an [`Overtime`], refusing to finish while the mandatory
/// justification is unset.
pub struct OvertimeBuilder {
    pub employee_tax_identification_number: String,
    pub employee_social_security_number: String,
    pub employee_last_name: String,
    pub employee_first_name: String,
    pub overtime_date: Date,
    pub overtime_start_time: DateTime,
    pub overtime_end_time: DateTime,
    pub overtime_cancellation: bool,
    pub employee_profession_code: String,
    pub overtime_justification: Option<OvertimeJustificationType>,
    pub weekly_workdays_number: WeeklyWorkDays,
    pub asee_approval: Option<String>,
}

impl OvertimeBuilder {
    /// A fresh builder: empty strings, epoch dates, no cancellation,
    /// five weekly working days, and no justification yet.
    pub fn builder() -> (r: OvertimeBuilder)
        ensures
            r.employee_tax_identification_number@ == Seq::<char>::empty(),
            r.employee_social_security_number@ == Seq::<char>::empty(),
            r.employee_last_name@ == Seq::<char>::empty(),
            r.employee_first_name@ == Seq::<char>::empty(),
            r.overtime_date == epoch_date(),
            r.overtime_start_time == epoch_datetime(),
            r.overtime_end_time == epoch_datetime(),
            r.overtime_cancellation == false,
            r.employee_profession_code@ == Seq::<char>::empty(),
            r.overtime_justification is None,
            r.weekly_workdays_number == WeeklyWorkDays::Five,
            r.asee_approval is None,
    {
        OvertimeBuilder {
            employee_tax_identification_number: String::new(),
            employee_social_security_number: String::new(),
            employee_last_name: String::new(),
            employee_first_name: String::new(),
            overtime_date: crate::dates::unix_epoch_date(),
            overtime_start_time: crate::dates::unix_epoch_datetime(),
            overtime_end_time: crate::dates::unix_epoch_datetime(),
            overtime_cancellation: false,
            employee_profession_code: String::new(),
            overtime_justification: None,
            weekly_workdays_number: WeeklyWorkDays::Five,
            asee_approval: None,
        }
    }

    /// Finishes the record; fails exactly when the justification is
    /// unset, before anything is sent anywhere.
    pub fn build(self) -> (r: Result<Overtime, String>)
        ensures
            (r is Ok) == (self.overtime_justification is Some),
            r matches Ok(o) ==> self.overtime_justification == Some(o.overtime_justification)
                && o.employee_tax_identification_number
                == self.employee_tax_identification_number && o.employee_social_security_number
                == self.employee_social_security_number && o.employee_last_name
                == self.employee_last_name && o.employee_first_name == self.employee_first_name
                && o.overtime_date == self.overtime_date && o.overtime_start_time
                == self.overtime_start_time && o.overtime_end_time == self.overtime_end_time
                && o.overtime_cancellation == self.overtime_cancellation
                && o.employee_profession_code == self.employee_profession_code
                && o.weekly_workdays_number == self.weekly_workdays_number && o.asee_approval
                == self.asee_approval,
            r matches Err(e) ==> e@ == "Overtime justification is required"@,
    {
        match self.overtime_justification {
            Some(overtime_justification) => Ok(
                Overtime {
                    employee_tax_identification_number: self.employee_tax_identification_number,
                    employee_social_security_number: self.employee_social_security_number,
                    employee_last_name: self.employee_last_name,
                    employee_first_name: self.employee_first_name,
                    overtime_date: self.overtime_date,
                    overtime_start_time: self.overtime_start_time,
                    overtime_end_time: self.overtime_end_time,
                    overtime_cancellation: self.overtime_cancellation,
                    employee_profession_code: self.employee_profession_code,
                    overtime_justification,
                    weekly_workdays_number: self.weekly_workdays_number,
                    asee_approval: self.asee_approval,
                },
            ),
            None => Err(String::from_str("Overtime justification is required")),
        }
    }

    /// Sets the employee's tax identification number.
    pub fn set_employee_tax_identification_number(
        self,
        employee_tax_identification_number: String,
    ) -> (r: Self)
        ensures
            r == (OvertimeBuilder { employee_tax_identification_number, ..self }),
    {
        OvertimeBuilder { employee_tax_identification_number, ..self }
    }

    /// Sets the employee's social security number.
    pub fn set_employee_social_security_number(self, employee_social_security_number: String) -> (r:
        Self)
        ensures
            r == (OvertimeBuilder { employee_social_security_number, ..self }),
    {
        OvertimeBuilder { employee_social_security_number, ..self }
    }

    /// Sets the employee's last name.
    pub fn set_employee_last_name(self, employee_last_name: String) -> (r: Self)
        ensures
            r == (OvertimeBuilder { employee_last_name, ..self }),
    {
        OvertimeBuilder { employee_last_name, ..self }
    }

    /// Sets the employee's first name.
    pub fn set_employee_first_name(self, employee_first_name: String) -> (r: Self)
        ensures
            r == (OvertimeBuilder { employee_first_name, ..self }),
    {
        OvertimeBuilder { employee_first_name, ..self }
    }

    /// Sets the overtime date.
    pub fn set_overtime_date(self, overtime_date: Date) -> (r: Self)
        ensures
            r == (OvertimeBuilder { overtime_date, ..self }),
    {
        OvertimeBuilder { overtime_date, ..self }
    }

    /// Sets the start of the overtime period.
    pub fn set_overtime_start_time(self, overtime_start_time: DateTime) -> (r: Self)
        ensures
            r == (OvertimeBuilder { overtime_start_time, ..self }),
    {
        OvertimeBuilder { overtime_start_time, ..self }
    }

    /// Sets the end of the overtime period.
    pub fn set_overtime_end_time(self, overtime_end_time: DateTime) -> (r: Self)
        ensures
            r == (OvertimeBuilder { overtime_end_time, ..self }),
    {
        OvertimeBuilder { overtime_end_time, ..self }
    }

    /// Sets whether the overtime is being cancelled.
    pub fn set_overtime_cancellation(self, overtime_cancellation: bool) -> (r: Self)
        ensures
            r == (OvertimeBuilder { overtime_cancellation, ..self }),
    {
        OvertimeBuilder { overtime_cancellation, ..self }
    }

    /// Sets the employee's profession code.
    pub fn set_employee_profession_code(self, employee_profession_code: String) -> (r: Self)
        ensures
            r == (OvertimeBuilder { employee_profession_code, ..self }),
    {
        OvertimeBuilder { employee_profession_code, ..self }
    }

    /// Sets the mandatory overtime justification.
    pub fn set_overtime_justification(self, overtime_justification: OvertimeJustificationType) -> (
        r: Self)
        ensures
            r == (OvertimeBuilder {
                overtime_justification: Some(overtime_justification),
                ..self
            }),
    {
        OvertimeBuilder { overtime_justification: Some(overtime_justification), ..self }
    }

    /// Sets the number of weekly working days.
    pub fn set_weekly_workdays_number(self, weekly_workdays_number: WeeklyWorkDays) -> (r: Self)
        ensures
            r == (OvertimeBuilder { weekly_workdays_number, ..self }),
    {
        OvertimeBuilder { weekly_workdays_number, ..self }
    }

    /// Sets or clears the ASEE approval.
    pub fn set_asee_approval(self, asee_approval: Option<String>) -> (r: Self)
        ensures
            r == (OvertimeBuilder { asee_approval, ..self }),
    {
        OvertimeBuilder { asee_approval, ..self }
    }
}

} // verus!
