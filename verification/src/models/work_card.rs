//! A work-card movement (check-in or check-out) for one employee, and
//! its builder.

use vstd::prelude::*;
use crate::dates::{Date, DateTime, epoch_date, epoch_datetime, date_ymd, datetime_iso, format_datetime};
use crate::types::{LateDeclarationJustificationType, WorkCardMovementType};
use crate::wire::{str_field, append_str_field, begin_obj, comma, end_obj, empty_str};

verus! {

/// A work-card movement entry for an employee.
#[derive(Clone)]
pub struct WorkCard {
    pub employee_tax_identification_number: String,
    pub employee_last_name: String,
    pub employee_first_name: String,
    pub work_card_movement_type: WorkCardMovementType,
    pub work_card_submission_date: Date,
    pub work_card_movement_datetime: DateTime,
    pub late_declaration_justification: Option<LateDeclarationJustificationType>,
}

/// The wire value of an optional late-declaration justification: its
/// code when set, the empty string when unset.
pub open spec fn late_justification_view(o: Option<LateDeclarationJustificationType>) -> Seq<
    char,
> {
    match o {
        Some(j) => j.spec_value(),
        None => Seq::empty(),
    }
}

impl WorkCard {
    /// Well-formed dates.
    pub open spec fn valid(self) -> bool {
        self.work_card_submission_date.valid() && self.work_card_movement_datetime.valid()
    }

    /// Whether the card's dates are well formed.
    pub fn is_wf(&self) -> (r: bool)
        ensures
            r == self.valid(),
    {
        self.work_card_submission_date.is_wf() && self.work_card_movement_datetime.is_wf()
    }

    /// The exact wire object: names and tax id as given, the movement
    /// code, the submission date as `yyyy-mm-dd`, the movement moment
    /// as `yyyy-mm-ddTHH:MM:SS`, and the justification code or blank.
    pub open spec fn wire(self) -> Seq<char> {
        seq!['{'] + str_field("f_afm"@, self.employee_tax_identification_number@) + seq![',']
            + str_field("f_eponymo"@, self.employee_last_name@) + seq![','] + str_field(
            "f_onoma"@,
            self.employee_first_name@,
        ) + seq![','] + str_field("f_type"@, self.work_card_movement_type.spec_value()) + seq![',']
            + str_field("f_reference_date"@, date_ymd(self.work_card_submission_date)) + seq![',']
            + str_field("f_date"@, datetime_iso(self.work_card_movement_datetime)) + seq![',']
            + str_field("f_aitiologia"@, late_justification_view(self.late_declaration_justification))
            + seq!['}']
    }

    /// The wire text of this work card alone.
    pub fn to_wire_json(&self) -> (r: String)
        requires
            self.valid(),
        ensures
            r@ == self.wire(),
    {
        let mut reference_date = String::new();
        crate::dates::append_date_ymd(&mut reference_date, &self.work_card_submission_date);
        proof {
            assert(reference_date@ =~= date_ymd(self.work_card_submission_date));
        }
        let movement = format_datetime(Some(&self.work_card_movement_datetime));
        let justification: &str = match &self.late_declaration_justification {
            Some(j) => j.value(),
            None => empty_str(),
        };
        let mut out = begin_obj();
        append_str_field(&mut out, "f_afm", self.employee_tax_identification_number.as_str());
        comma(&mut out);
        append_str_field(&mut out, "f_eponymo", self.employee_last_name.as_str());
        comma(&mut out);
        append_str_field(&mut out, "f_onoma", self.employee_first_name.as_str());
        comma(&mut out);
        append_str_field(&mut out, "f_type", self.work_card_movement_type.value());
        comma(&mut out);
        append_str_field(&mut out, "f_reference_date", reference_date.as_str());
        comma(&mut out);
        append_str_field(&mut out, "f_date", movement.as_str());
        comma(&mut out);
        append_str_field(&mut out, "f_aitiologia", justification);
        end_obj(&mut out);
        out
    }

    /// Appends the wire object of this work card.
    pub fn append_wire(&self, out: &mut String)
        requires
            self.valid(),
        ensures
            final(out)@ == old(out)@ + self.wire(),
    {
        let text = self.to_wire_json();
        out.append(text.as_str());
    }
}

/// Builds a [`WorkCard`], refusing to finish while the mandatory
/// movement type is unset.
pub struct WorkCardBuilder {
    pub employee_tax_identification_number: String,
    pub employee_last_name: String,
    pub employee_first_name: String,
    pub work_card_movement_type: Option<WorkCardMovementType>,
    pub work_card_submission_date: Date,
    pub work_card_movement_datetime: DateTime,
    pub late_declaration_justification: Option<LateDeclarationJustificationType>,
}

impl WorkCardBuilder {
    /// A fresh builder: empty names, no movement type, epoch dates.
    pub fn builder() -> (r: WorkCardBuilder)
        ensures
            r.employee_tax_identification_number@ == Seq::<char>::empty(),
            r.employee_last_name@ == Seq::<char>::empty(),
            r.employee_first_name@ == Seq::<char>::empty(),
            r.work_card_movement_type is None,
            r.work_card_submission_date == epoch_date(),
            r.work_card_movement_datetime == epoch_datetime(),
            r.late_declaration_justification is None,
    {
        WorkCardBuilder {
            employee_tax_identification_number: String::new(),
            employee_last_name: String::new(),
            employee_first_name: String::new(),
            work_card_movement_type: None,
            work_card_submission_date: crate::dates::unix_epoch_date(),
            work_card_movement_datetime: crate::dates::unix_epoch_datetime(),
            late_declaration_justification: None,
        }
    }

    /// Finishes the record; fails exactly when the movement type is
    /// unset, before anything is sent anywhere.
    pub fn build(self) -> (r: Result<WorkCard, String>)
        ensures
            (r is Ok) == (self.work_card_movement_type is Some),
            r matches Ok(w) ==> self.work_card_movement_type == Some(w.work_card_movement_type)
                && w.employee_tax_identification_number
                == self.employee_tax_identification_number && w.employee_last_name
                == self.employee_last_name && w.employee_first_name == self.employee_first_name
                && w.work_card_submission_date == self.work_card_submission_date
                && w.work_card_movement_datetime == self.work_card_movement_datetime
                && w.late_declaration_justification == self.late_declaration_justification,
            r matches Err(e) ==> e@ == "Work card movement type is required"@,
    {
        match self.work_card_movement_type {
            Some(work_card_movement_type) => Ok(
                WorkCard {
                    employee_tax_identification_number: self.employee_tax_identification_number,
                    employee_last_name: self.employee_last_name,
                    employee_first_name: self.employee_first_name,
                    work_card_movement_type,
                    work_card_submission_date: self.work_card_submission_date,
                    work_card_movement_datetime: self.work_card_movement_datetime,
                    late_declaration_justification: self.late_declaration_justification,
                },
            ),
            None => Err(String::from_str("Work card movement type is required")),
        }
    }

    /// Sets the employee's tax identification number.
    pub fn set_employee_tax_identification_number(
        self,
        employee_tax_identification_number: String,
    ) -> (r: Self)
        ensures
            r == (WorkCardBuilder { employee_tax_identification_number, ..self }),
    {
        WorkCardBuilder { employee_tax_identification_number, ..self }
    }

    /// Sets the employee's last name.
    pub fn set_employee_last_name(self, employee_last_name: String) -> (r: Self)
        ensures
            r == (WorkCardBuilder { employee_last_name, ..self }),
    {
        WorkCardBuilder { employee_last_name, ..self }
    }

    /// Sets the employee's first name.
    pub fn set_employee_first_name(self, employee_first_name: String) -> (r: Self)
        ensures
            r == (WorkCardBuilder { employee_first_name, ..self }),
    {
        WorkCardBuilder { employee_first_name, ..self }
    }

    /// Sets the mandatory movement type.
    pub fn set_work_card_movement_type(self, work_card_movement_type: WorkCardMovementType) -> (r:
        Self)
        ensures
            r == (WorkCardBuilder {
                work_card_movement_type: Some(work_card_movement_type),
                ..self
            }),
    {
        WorkCardBuilder { work_card_movement_type: Some(work_card_movement_type), ..self }
    }

    /// Sets the submission date.
    pub fn set_work_card_submission_date(self, work_card_submission_date: Date) -> (r: Self)
        ensures
            r == (WorkCardBuilder { work_card_submission_date, ..self }),
    {
        WorkCardBuilder { work_card_submission_date, ..self }
    }

    /// Sets the moment of the movement.
    pub fn set_work_card_movement_datetime(self, work_card_movement_datetime: DateTime) -> (r:
        Self)
        ensures
            r == (WorkCardBuilder { work_card_movement_datetime, ..self }),
    {
        WorkCardBuilder { work_card_movement_datetime, ..self }
    }

    /// Sets or clears the late-declaration justification.
    pub fn set_late_declaration_justification(
        self,
        late_declaration_justification: Option<LateDeclarationJustificationType>,
    ) -> (r: Self)
        ensures
            r == (WorkCardBuilder { late_declaration_justification, ..self }),
    {
        WorkCardBuilder { late_declaration_justification, ..self }
    }
}

impl crate::wire::Wire for WorkCard {
    open spec fn wire_wf(&self) -> bool {
        self.valid()
    }

    open spec fn wire_text(&self) -> Seq<char> {
        self.wire()
    }

    fn append_to(&self, out: &mut String) {
        self.append_wire(out);
    }
}

} // verus!
