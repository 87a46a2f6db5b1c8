//! Company-level aggregates: the batches of per-employee records that
//! one business branch submits, with the branch identification the
//! remote service requires.

use vstd::prelude::*;
use crate::dates::{Date, epoch_date, date_dmy, opt_date_view, format_date, format_opt_date};
use crate::json::{dec_int, append_i64};
use crate::models::employee::{EmployeeDailySchedule, EmployeeWeeklySchedule};
use crate::models::overtime::Overtime;
use crate::models::work_card::WorkCard;
use crate::wire::{str_field, num_field, opt_str_field, opt_view, key_prefix, arr, wires_of, append_str_field, append_num_field, append_opt_str_field, append_key, append_record_array, begin_obj, nest_obj, comma, end_obj};

verus! {

/// The spec view of an optional string field.
pub open spec fn opt_of(o: Option<String>) -> Option<Seq<char>> {
    match o {
        Some(s) => Some(s@),
        None => None,
    }
}

/// Work-card entries issued by a single business branch.
pub struct CompanyWorkCard {
    pub employer_tax_identification_number: String,
    pub business_branch_number: i64,
    pub comments: Option<String>,
    pub card_details: Vec<WorkCard>,
}

impl CompanyWorkCard {
    /// Every card entry is well formed.
    pub open spec fn valid(self) -> bool {
        forall|i: int|
            0 <= i < self.card_details@.len() ==> (#[trigger] self.card_details@[i]).valid()
    }

    /// Whether every card entry is well formed.
    pub fn is_wf(&self) -> (r: bool)
        ensures
            r == self.valid(),
    {
        let mut i: usize = 0;
        while i < self.card_details.len()
            invariant
                i <= self.card_details@.len(),
                forall|k: int| 0 <= k < i ==> (#[trigger] self.card_details@[k]).valid(),
            decreases self.card_details@.len() - i,
        {
            if !self.card_details[i].is_wf() {
                return false;
            }
            i = i + 1;
        }
        true
    }

    /// The exact wire object: the employer's tax id, the branch number
    /// as a quoted numeral, the comments or blank, and the cards in
    /// the nested container the remote schema prescribes.
    pub open spec fn wire(self) -> Seq<char> {
        seq!['{'] + str_field("f_afm_ergodoti"@, self.employer_tax_identification_number@) + seq![
            ','
        ] + str_field("f_aa"@, dec_int(self.business_branch_number as int)) + seq![',']
            + opt_str_field("f_comments"@, opt_of(self.comments)) + seq![','] + key_prefix(
            "Details"@,
        ) + seq!['{'] + key_prefix("CardDetails"@) + arr(wires_of(self.card_details@)) + seq!['}']
            + seq!['}']
    }

    /// The wire text of this batch alone.
    pub fn to_wire_json(&self) -> (r: String)
        requires
            self.valid(),
        ensures
            r@ == self.wire(),
    {
        let mut branch = String::new();
        append_i64(&mut branch, self.business_branch_number);
        proof {
            assert(branch@ =~= dec_int(self.business_branch_number as int));
        }
        let mut out = begin_obj();
        append_str_field(&mut out, "f_afm_ergodoti", self.employer_tax_identification_number.as_str());
        comma(&mut out);
        append_str_field(&mut out, "f_aa", branch.as_str());
        comma(&mut out);
        append_opt_str_field(&mut out, "f_comments", &self.comments);
        comma(&mut out);
        append_key(&mut out, "Details");
        nest_obj(&mut out);
        append_key(&mut out, "CardDetails");
        append_record_array(&mut out, &self.card_details);
        end_obj(&mut out);
        end_obj(&mut out);
        out
    }
}

/// Overtime entries issued by a single business branch.
pub struct CompanyOvertime {
    pub business_branch_number: i64,
    pub sepe_service_code: String,
    pub business_primary_activity_code: String,
    pub business_branch_activity_code: String,
    pub kallikratis_municipal_code: String,
    pub legal_representative_tax_identification_number: String,
    pub employee_overtimes: Vec<Overtime>,
    pub related_protocol_id: Option<String>,
    pub related_protocol_date: Option<Date>,
    pub employer_organization: Option<String>,
    pub business_secondary_activity_code_1: Option<String>,
    pub business_secondary_activity_code_2: Option<String>,
    pub business_secondary_activity_code_3: Option<String>,
    pub business_secondary_activity_code_4: Option<String>,
    pub comments: Option<String>,
}

impl CompanyOvertime {
    /// Every overtime entry is well formed, and so is the related
    /// protocol date when it is set.
    pub open spec fn valid(self) -> bool {
        (forall|i: int|
            0 <= i < self.employee_overtimes@.len() ==> (
            #[trigger] self.employee_overtimes@[i]).valid()) && match self.related_protocol_date {
            Some(d) => d.valid(),
            None => true,
        }
    }

    /// Whether every overtime entry and the protocol date are well
    /// formed.
    pub fn is_wf(&self) -> (r: bool)
        ensures
            r == self.valid(),
    {
        let mut i: usize = 0;
        while i < self.employee_overtimes.len()
            invariant
                i <= self.employee_overtimes@.len(),
                forall|k: int| 0 <= k < i ==> (#[trigger] self.employee_overtimes@[k]).valid(),
            decreases self.employee_overtimes@.len() - i,
        {
            if !self.employee_overtimes[i].is_wf() {
                return false;
            }
            i = i + 1;
        }
        match &self.related_protocol_date {
            Some(d) => {
                if !d.is_wf() {
                    return false;
                }
            },
            None => {},
        }
        true
    }

    /// The exact wire object: the branch number as a JSON number, the
    /// branch identification codes, every optional field blank rather
    /// than missing, and the overtimes in the nested container.
    pub open spec fn wire(self) -> Seq<char> {
        seq!['{'] + num_field("f_aa_pararthmatos"@, self.business_branch_number as int) + seq![',']
            + str_field("f_ypiresia_sepe"@, self.sepe_service_code@) + seq![','] + str_field(
            "f_kad_kyria"@,
            self.business_primary_activity_code@,
        ) + seq![','] + str_field("f_kad_pararthmatos"@, self.business_branch_activity_code@)
            + seq![','] + str_field("f_kallikratis_pararthmatos"@, self.kallikratis_municipal_code@)
            + seq![','] + str_field(
            "f_afm_proswpoy"@,
            self.legal_representative_tax_identification_number@,
        ) + seq![','] + opt_str_field("f_rel_protocol"@, opt_of(self.related_protocol_id)) + seq![
            ','
        ] + str_field("f_rel_date"@, opt_date_view(self.related_protocol_date)) + seq![',']
            + opt_str_field("f_ergodotikh_organwsh"@, opt_of(self.employer_organization)) + seq![
            ','
        ] + opt_str_field("f_kad_deyt_1"@, opt_of(self.business_secondary_activity_code_1)) + seq![
            ','
        ] + opt_str_field("f_kad_deyt_2"@, opt_of(self.business_secondary_activity_code_2)) + seq![
            ','
        ] + opt_str_field("f_kad_deyt_3"@, opt_of(self.business_secondary_activity_code_3)) + seq![
            ','
        ] + opt_str_field("f_kad_deyt_4"@, opt_of(self.business_secondary_activity_code_4)) + seq![
            ','
        ] + opt_str_field("f_comments"@, opt_of(self.comments)) + seq![','] + key_prefix(
            "Ergazomenoi"@,
        ) + seq!['{'] + key_prefix("OvertimeErgazomenosDate"@) + arr(
            wires_of(self.employee_overtimes@),
        ) + seq!['}'] + seq!['}']
    }

    /// The wire text of this batch alone.
    pub fn to_wire_json(&self) -> (r: String)
        requires
            self.valid(),
        ensures
            r@ == self.wire(),
    {
        let rel_date = format_opt_date(&self.related_protocol_date);
        let mut out = begin_obj();
        append_num_field(&mut out, "f_aa_pararthmatos", self.business_branch_number);
        comma(&mut out);
        append_str_field(&mut out, "f_ypiresia_sepe", self.sepe_service_code.as_str());
        comma(&mut out);
        append_str_field(&mut out, "f_kad_kyria", self.business_primary_activity_code.as_str());
        comma(&mut out);
        append_str_field(&mut out, "f_kad_pararthmatos", self.business_branch_activity_code.as_str());
        comma(&mut out);
        append_str_field(&mut out, "f_kallikratis_pararthmatos", self.kallikratis_municipal_code.as_str());
        comma(&mut out);
        append_str_field(
            &mut out,
            "f_afm_proswpoy",
            self.legal_representative_tax_identification_number.as_str(),
        );
        comma(&mut out);
        append_opt_str_field(&mut out, "f_rel_protocol", &self.related_protocol_id);
        comma(&mut out);
        append_str_field(&mut out, "f_rel_date", rel_date.as_str());
        comma(&mut out);
        append_opt_str_field(&mut out, "f_ergodotikh_organwsh", &self.employer_organization);
        comma(&mut out);
        append_opt_str_field(&mut out, "f_kad_deyt_1", &self.business_secondary_activity_code_1);
        comma(&mut out);
        append_opt_str_field(&mut out, "f_kad_deyt_2", &self.business_secondary_activity_code_2);
        comma(&mut out);
        append_opt_str_field(&mut out, "f_kad_deyt_3", &self.business_secondary_activity_code_3);
        comma(&mut out);
        append_opt_str_field(&mut out, "f_kad_deyt_4", &self.business_secondary_activity_code_4);
        comma(&mut out);
        append_opt_str_field(&mut out, "f_comments", &self.comments);
        comma(&mut out);
        append_key(&mut out, "Ergazomenoi");
        nest_obj(&mut out);
        append_key(&mut out, "OvertimeErgazomenosDate");
        append_record_array(&mut out, &self.employee_overtimes);
        end_obj(&mut out);
        end_obj(&mut out);
        out
    }
}

/// Daily schedule entries issued by a single business branch.
pub struct CompanyDailySchedule {
    pub business_branch_number: i64,
    pub start_date: Option<Date>,
    pub end_date: Option<Date>,
    pub employee_schedules: Vec<EmployeeDailySchedule>,
    pub related_protocol_id: Option<String>,
    pub related_protocol_date: Option<Date>,
    pub comments: Option<String>,
}

impl CompanyDailySchedule {
    /// Every employee schedule is well formed, and so is each date
    /// that is set.
    pub open spec fn valid(self) -> bool {
        (forall|i: int|
            0 <= i < self.employee_schedules@.len() ==> (
            #[trigger] self.employee_schedules@[i]).valid()) && match self.start_date {
            Some(d) => d.valid(),
            None => true,
        } && match self.end_date {
            Some(d) => d.valid(),
            None => true,
        } && match self.related_protocol_date {
            Some(d) => d.valid(),
            None => true,
        }
    }

    /// Whether every employee schedule and every set date are well
    /// formed.
    pub fn is_wf(&self) -> (r: bool)
        ensures
            r == self.valid(),
    {
        let mut i: usize = 0;
        while i < self.employee_schedules.len()
            invariant
                i <= self.employee_schedules@.len(),
                forall|k: int| 0 <= k < i ==> (#[trigger] self.employee_schedules@[k]).valid(),
            decreases self.employee_schedules@.len() - i,
        {
            if !self.employee_schedules[i].is_wf() {
                return false;
            }
            i = i + 1;
        }
        match &self.start_date {
            Some(d) => {
                if !d.is_wf() {
                    return false;
                }
            },
            None => {},
        }
        match &self.end_date {
            Some(d) => {
                if !d.is_wf() {
                    return false;
                }
            },
            None => {},
        }
        match &self.related_protocol_date {
            Some(d) => {
                if !d.is_wf() {
                    return false;
                }
            },
            None => {},
        }
        true
    }

    /// The exact wire object: the branch number as a JSON number, the
    /// optional protocol fields and period dates blank when unset, and
    /// the employee schedules in the nested container.
    pub open spec fn wire(self) -> Seq<char> {
        seq!['{'] + num_field("f_aa_pararthmatos"@, self.business_branch_number as int) + seq![',']
            + opt_str_field("f_rel_protocol"@, opt_of(self.related_protocol_id)) + seq![',']
            + str_field("f_rel_date"@, opt_date_view(self.related_protocol_date)) + seq![',']
            + opt_str_field("f_comments"@, opt_of(self.comments)) + seq![','] + str_field(
            "f_from_date"@,
            opt_date_view(self.start_date),
        ) + seq![','] + str_field("f_to_date"@, opt_date_view(self.end_date)) + seq![',']
            + key_prefix("Ergazomenoi"@) + seq!['{'] + key_prefix("ErgazomenoiWTO"@) + arr(
            wires_of(self.employee_schedules@),
        ) + seq!['}'] + seq!['}']
    }

    /// The wire text of this batch alone.
    pub fn to_wire_json(&self) -> (r: String)
        requires
            self.valid(),
        ensures
            r@ == self.wire(),
    {
        let rel_date = format_opt_date(&self.related_protocol_date);
        let from_date = format_opt_date(&self.start_date);
        let to_date = format_opt_date(&self.end_date);
        let mut out = begin_obj();
        append_num_field(&mut out, "f_aa_pararthmatos", self.business_branch_number);
        comma(&mut out);
        append_opt_str_field(&mut out, "f_rel_protocol", &self.related_protocol_id);
        comma(&mut out);
        append_str_field(&mut out, "f_rel_date", rel_date.as_str());
        comma(&mut out);
        append_opt_str_field(&mut out, "f_comments", &self.comments);
        comma(&mut out);
        append_str_field(&mut out, "f_from_date", from_date.as_str());
        comma(&mut out);
        append_str_field(&mut out, "f_to_date", to_date.as_str());
        comma(&mut out);
        append_key(&mut out, "Ergazomenoi");
        nest_obj(&mut out);
        append_key(&mut out, "ErgazomenoiWTO");
        append_record_array(&mut out, &self.employee_schedules);
        end_obj(&mut out);
        end_obj(&mut out);
        out
    }
}

/// Weekly schedule entries issued by a single business branch.
pub struct CompanyWeeklySchedule {
    pub business_branch_number: i64,
    pub start_date: Date,
    pub end_date: Date,
    pub employee_schedules: Vec<EmployeeWeeklySchedule>,
    pub related_protocol_id: Option<String>,
    pub related_protocol_date: Option<Date>,
    pub comments: Option<String>,
}

impl CompanyWeeklySchedule {
    /// Every employee schedule is well formed, and so are the period
    /// dates and the protocol date when set.
    pub open spec fn valid(self) -> bool {
        (forall|i: int|
            0 <= i < self.employee_schedules@.len() ==> (
            #[trigger] self.employee_schedules@[i]).valid()) && self.start_date.valid()
            && self.end_date.valid() && match self.related_protocol_date {
            Some(d) => d.valid(),
            None => true,
        }
    }

    /// Whether every employee schedule, the period dates and the
    /// protocol date are well formed.
    pub fn is_wf(&self) -> (r: bool)
        ensures
            r == self.valid(),
    {
        let mut i: usize = 0;
        while i < self.employee_schedules.len()
            invariant
                i <= self.employee_schedules@.len(),
                forall|k: int| 0 <= k < i ==> (#[trigger] self.employee_schedules@[k]).valid(),
            decreases self.employee_schedules@.len() - i,
        {
            if !self.employee_schedules[i].is_wf() {
                return false;
            }
            i = i + 1;
        }
        if !self.start_date.is_wf() || !self.end_date.is_wf() {
            return false;
        }
        match &self.related_protocol_date {
            Some(d) => {
                if !d.is_wf() {
                    return false;
                }
            },
            None => {},
        }
        true
    }

    /// The exact wire object: the branch number as a JSON number, the
    /// optional protocol fields blank when unset, the schedule period
    /// as `dd/mm/yyyy` dates, and the employee schedules in the nested
    /// container.
    pub open spec fn wire(self) -> Seq<char> {
        seq!['{'] + num_field("f_aa_pararthmatos"@, self.business_branch_number as int) + seq![',']
            + opt_str_field("f_rel_protocol"@, opt_of(self.related_protocol_id)) + seq![',']
            + str_field("f_rel_date"@, opt_date_view(self.related_protocol_date)) + seq![',']
            + opt_str_field("f_comments"@, opt_of(self.comments)) + seq![','] + str_field(
            "f_from_date"@,
            date_dmy(self.start_date),
        ) + seq![','] + str_field("f_to_date"@, date_dmy(self.end_date)) + seq![','] + key_prefix(
            "Ergazomenoi"@,
        ) + seq!['{'] + key_prefix("ErgazomenoiWTO"@) + arr(wires_of(self.employee_schedules@))
            + seq!['}'] + seq!['}']
    }

    /// The wire text of this batch alone.
    pub fn to_wire_json(&self) -> (r: String)
        requires
            self.valid(),
        ensures
            r@ == self.wire(),
    {
        let rel_date = format_opt_date(&self.related_protocol_date);
        let from_date = format_date(Some(&self.start_date));
        let to_date = format_date(Some(&self.end_date));
        let mut out = begin_obj();
        append_num_field(&mut out, "f_aa_pararthmatos", self.business_branch_number);
        comma(&mut out);
        append_opt_str_field(&mut out, "f_rel_protocol", &self.related_protocol_id);
        comma(&mut out);
        append_str_field(&mut out, "f_rel_date", rel_date.as_str());
        comma(&mut out);
        append_opt_str_field(&mut out, "f_comments", &self.comments);
        comma(&mut out);
        append_str_field(&mut out, "f_from_date", from_date.as_str());
        comma(&mut out);
        append_str_field(&mut out, "f_to_date", to_date.as_str());
        comma(&mut out);
        append_key(&mut out, "Ergazomenoi");
        nest_obj(&mut out);
        append_key(&mut out, "ErgazomenoiWTO");
        append_record_array(&mut out, &self.employee_schedules);
        end_obj(&mut out);
        end_obj(&mut out);
        out
    }
}

impl crate::wire::Wire for CompanyWorkCard {
    open spec fn wire_wf(&self) -> bool {
        self.valid()
    }

    open spec fn wire_text(&self) -> Seq<char> {
        self.wire()
    }

    fn append_to(&self, out: &mut String) {
        let text = self.to_wire_json();
        out.append(text.as_str());
    }
}

impl crate::wire::Wire for CompanyOvertime {
    open spec fn wire_wf(&self) -> bool {
        self.valid()
    }

    open spec fn wire_text(&self) -> Seq<char> {
        self.wire()
    }

    fn append_to(&self, out: &mut String) {
        let text = self.to_wire_json();
        out.append(text.as_str());
    }
}

impl crate::wire::Wire for CompanyDailySchedule {
    open spec fn wire_wf(&self) -> bool {
        self.valid()
    }

    open spec fn wire_text(&self) -> Seq<char> {
        self.wire()
    }

    fn append_to(&self, out: &mut String) {
        let text = self.to_wire_json();
        out.append(text.as_str());
    }
}

impl crate::wire::Wire for CompanyWeeklySchedule {
    open spec fn wire_wf(&self) -> bool {
        self.valid()
    }

    open spec fn wire_text(&self) -> Seq<char> {
        self.wire()
    }

    fn append_to(&self, out: &mut String) {
        let text = self.to_wire_json();
        out.append(text.as_str());
    }
}

/// Builds a [`CompanyWorkCard`]; every field has a usable default, so
/// building always succeeds.
pub struct CompanyWorkCardBuilder {
    pub employer_tax_identification_number: String,
    pub business_branch_number: i64,
    pub comments: Option<String>,
    pub card_details: Vec<WorkCard>,
}

impl CompanyWorkCardBuilder {
    /// A fresh builder with every field at its default.
    pub fn builder() -> (r: CompanyWorkCardBuilder)
        ensures
            r.employer_tax_identification_number@ == Seq::<char>::empty(),
            r.business_branch_number == 0,
            r.comments is None,
            r.card_details@.len() == 0,
    {
        CompanyWorkCardBuilder {
            employer_tax_identification_number: String::new(),
            business_branch_number: 0,
            comments: None,
            card_details: Vec::new(),
        }
    }

    /// Finishes the record.
    pub fn build(self) -> (r: CompanyWorkCard)
        ensures
            r.employer_tax_identification_number == self.employer_tax_identification_number,
            r.business_branch_number == self.business_branch_number,
            r.comments == self.comments,
            r.card_details == self.card_details,
    {
        CompanyWorkCard {
            employer_tax_identification_number: self.employer_tax_identification_number,
            business_branch_number: self.business_branch_number,
            comments: self.comments,
            card_details: self.card_details,
        }
    }

    /// Sets `employer_tax_identification_number`.
    pub fn set_employer_tax_identification_number(self, employer_tax_identification_number: String) -> (r: Self)
        ensures
            r == (CompanyWorkCardBuilder { employer_tax_identification_number, ..self }),
    {
        CompanyWorkCardBuilder { employer_tax_identification_number, ..self }
    }

    /// Sets `business_branch_number`.
    pub fn set_business_branch_number(self, business_branch_number: i64) -> (r: Self)
        ensures
            r == (CompanyWorkCardBuilder { business_branch_number, ..self }),
    {
        CompanyWorkCardBuilder { business_branch_number, ..self }
    }

    /// Sets `comments`.
    pub fn set_comments(self, comments: Option<String>) -> (r: Self)
        ensures
            r == (CompanyWorkCardBuilder { comments, ..self }),
    {
        CompanyWorkCardBuilder { comments, ..self }
    }

    /// Sets `card_details`.
    pub fn set_card_details(self, card_details: Vec<WorkCard>) -> (r: Self)
        ensures
            r == (CompanyWorkCardBuilder { card_details, ..self }),
    {
        CompanyWorkCardBuilder { card_details, ..self }
    }
}

/// Builds a [`CompanyOvertime`]; every field has a usable default, so
/// building always succeeds.
pub struct CompanyOvertimeBuilder {
    pub business_branch_number: i64,
    pub sepe_service_code: String,
    pub business_primary_activity_code: String,
    pub business_branch_activity_code: String,
    pub kallikratis_municipal_code: String,
    pub legal_representative_tax_identification_number: String,
    pub employee_overtimes: Vec<Overtime>,
    pub related_protocol_id: Option<String>,
    pub related_protocol_date: Option<Date>,
    pub employer_organization: Option<String>,
    pub business_secondary_activity_code_1: Option<String>,
    pub business_secondary_activity_code_2: Option<String>,
    pub business_secondary_activity_code_3: Option<String>,
    pub business_secondary_activity_code_4: Option<String>,
    pub comments: Option<String>,
}

impl CompanyOvertimeBuilder {
    /// A fresh builder with every field at its default.
    pub fn builder() -> (r: CompanyOvertimeBuilder)
        ensures
            r.business_branch_number == 0,
            r.sepe_service_code@ == Seq::<char>::empty(),
            r.business_primary_activity_code@ == Seq::<char>::empty(),
            r.business_branch_activity_code@ == Seq::<char>::empty(),
            r.kallikratis_municipal_code@ == Seq::<char>::empty(),
            r.legal_representative_tax_identification_number@ == Seq::<char>::empty(),
            r.employee_overtimes@.len() == 0,
            r.related_protocol_id is None,
            r.related_protocol_date is None,
            r.employer_organization is None,
            r.business_secondary_activity_code_1 is None,
            r.business_secondary_activity_code_2 is None,
            r.business_secondary_activity_code_3 is None,
            r.business_secondary_activity_code_4 is None,
            r.comments is None,
    {
        CompanyOvertimeBuilder {
            business_branch_number: 0,
            sepe_service_code: String::new(),
            business_primary_activity_code: String::new(),
            business_branch_activity_code: String::new(),
            kallikratis_municipal_code: String::new(),
            legal_representative_tax_identification_number: String::new(),
            employee_overtimes: Vec::new(),
            related_protocol_id: None,
            related_protocol_date: None,
            employer_organization: None,
            business_secondary_activity_code_1: None,
            business_secondary_activity_code_2: None,
            business_secondary_activity_code_3: None,
            business_secondary_activity_code_4: None,
            comments: None,
        }
    }

    /// Finishes the record.
    pub fn build(self) -> (r: CompanyOvertime)
        ensures
            r.business_branch_number == self.business_branch_number,
            r.sepe_service_code == self.sepe_service_code,
            r.business_primary_activity_code == self.business_primary_activity_code,
            r.business_branch_activity_code == self.business_branch_activity_code,
            r.kallikratis_municipal_code == self.kallikratis_municipal_code,
            r.legal_representative_tax_identification_number == self.legal_representative_tax_identification_number,
            r.employee_overtimes == self.employee_overtimes,
            r.related_protocol_id == self.related_protocol_id,
            r.related_protocol_date == self.related_protocol_date,
            r.employer_organization == self.employer_organization,
            r.business_secondary_activity_code_1 == self.business_secondary_activity_code_1,
            r.business_secondary_activity_code_2 == self.business_secondary_activity_code_2,
            r.business_secondary_activity_code_3 == self.business_secondary_activity_code_3,
            r.business_secondary_activity_code_4 == self.business_secondary_activity_code_4,
            r.comments == self.comments,
    {
        CompanyOvertime {
            business_branch_number: self.business_branch_number,
            sepe_service_code: self.sepe_service_code,
            business_primary_activity_code: self.business_primary_activity_code,
            business_branch_activity_code: self.business_branch_activity_code,
            kallikratis_municipal_code: self.kallikratis_municipal_code,
            legal_representative_tax_identification_number: self.legal_representative_tax_identification_number,
            employee_overtimes: self.employee_overtimes,
            related_protocol_id: self.related_protocol_id,
            related_protocol_date: self.related_protocol_date,
            employer_organization: self.employer_organization,
            business_secondary_activity_code_1: self.business_secondary_activity_code_1,
            business_secondary_activity_code_2: self.business_secondary_activity_code_2,
            business_secondary_activity_code_3: self.business_secondary_activity_code_3,
            business_secondary_activity_code_4: self.business_secondary_activity_code_4,
            comments: self.comments,
        }
    }

    /// Sets `business_branch_number`.
    pub fn set_business_branch_number(self, business_branch_number: i64) -> (r: Self)
        ensures
            r == (CompanyOvertimeBuilder { business_branch_number, ..self }),
    {
        CompanyOvertimeBuilder { business_branch_number, ..self }
    }

    /// Sets `sepe_service_code`.
    pub fn set_sepe_service_code(self, sepe_service_code: String) -> (r: Self)
        ensures
            r == (CompanyOvertimeBuilder { sepe_service_code, ..self }),
    {
        CompanyOvertimeBuilder { sepe_service_code, ..self }
    }

    /// Sets `business_primary_activity_code`.
    pub fn set_business_primary_activity_code(self, business_primary_activity_code: String) -> (r: Self)
        ensures
            r == (CompanyOvertimeBuilder { business_primary_activity_code, ..self }),
    {
        CompanyOvertimeBuilder { business_primary_activity_code, ..self }
    }

    /// Sets `business_branch_activity_code`.
    pub fn set_business_branch_activity_code(self, business_branch_activity_code: String) -> (r: Self)
        ensures
            r == (CompanyOvertimeBuilder { business_branch_activity_code, ..self }),
    {
        CompanyOvertimeBuilder { business_branch_activity_code, ..self }
    }

    /// Sets `kallikratis_municipal_code`.
    pub fn set_kallikratis_municipal_code(self, kallikratis_municipal_code: String) -> (r: Self)
        ensures
            r == (CompanyOvertimeBuilder { kallikratis_municipal_code, ..self }),
    {
        CompanyOvertimeBuilder { kallikratis_municipal_code, ..self }
    }

    /// Sets `legal_representative_tax_identification_number`.
    pub fn set_legal_representative_tax_identification_number(self, legal_representative_tax_identification_number: String) -> (r: Self)
        ensures
            r == (CompanyOvertimeBuilder { legal_representative_tax_identification_number, ..self }),
    {
        CompanyOvertimeBuilder { legal_representative_tax_identification_number, ..self }
    }

    /// Sets `employee_overtimes`.
    pub fn set_employee_overtimes(self, employee_overtimes: Vec<Overtime>) -> (r: Self)
        ensures
            r == (CompanyOvertimeBuilder { employee_overtimes, ..self }),
    {
        CompanyOvertimeBuilder { employee_overtimes, ..self }
    }

    /// Sets `related_protocol_id`.
    pub fn set_related_protocol_id(self, related_protocol_id: Option<String>) -> (r: Self)
        ensures
            r == (CompanyOvertimeBuilder { related_protocol_id, ..self }),
    {
        CompanyOvertimeBuilder { related_protocol_id, ..self }
    }

    /// Sets `related_protocol_date`.
    pub fn set_related_protocol_date(self, related_protocol_date: Option<Date>) -> (r: Self)
        ensures
            r == (CompanyOvertimeBuilder { related_protocol_date, ..self }),
    {
        CompanyOvertimeBuilder { related_protocol_date, ..self }
    }

    /// Sets `employer_organization`.
    pub fn set_employer_organization(self, employer_organization: Option<String>) -> (r: Self)
        ensures
            r == (CompanyOvertimeBuilder { employer_organization, ..self }),
    {
        CompanyOvertimeBuilder { employer_organization, ..self }
    }

    /// Sets `business_secondary_activity_code_1`.
    pub fn set_business_secondary_activity_code_1(self, business_secondary_activity_code_1: Option<String>) -> (r: Self)
        ensures
            r == (CompanyOvertimeBuilder { business_secondary_activity_code_1, ..self }),
    {
        CompanyOvertimeBuilder { business_secondary_activity_code_1, ..self }
    }

    /// Sets `business_secondary_activity_code_2`.
    pub fn set_business_secondary_activity_code_2(self, business_secondary_activity_code_2: Option<String>) -> (r: Self)
        ensures
            r == (CompanyOvertimeBuilder { business_secondary_activity_code_2, ..self }),
    {
        CompanyOvertimeBuilder { business_secondary_activity_code_2, ..self }
    }

    /// Sets `business_secondary_activity_code_3`.
    pub fn set_business_secondary_activity_code_3(self, business_secondary_activity_code_3: Option<String>) -> (r: Self)
        ensures
            r == (CompanyOvertimeBuilder { business_secondary_activity_code_3, ..self }),
    {
        CompanyOvertimeBuilder { business_secondary_activity_code_3, ..self }
    }

    /// Sets `business_secondary_activity_code_4`.
    pub fn set_business_secondary_activity_code_4(self, business_secondary_activity_code_4: Option<String>) -> (r: Self)
        ensures
            r == (CompanyOvertimeBuilder { business_secondary_activity_code_4, ..self }),
    {
        CompanyOvertimeBuilder { business_secondary_activity_code_4, ..self }
    }

    /// Sets `comments`.
    pub fn set_comments(self, comments: Option<String>) -> (r: Self)
        ensures
            r == (CompanyOvertimeBuilder { comments, ..self }),
    {
        CompanyOvertimeBuilder { comments, ..self }
    }
}

/// Builds a [`CompanyDailySchedule`]; every field has a usable default, so
/// building always succeeds.
pub struct CompanyDailyScheduleBuilder {
    pub business_branch_number: i64,
    pub start_date: Option<Date>,
    pub end_date: Option<Date>,
    pub employee_schedules: Vec<EmployeeDailySchedule>,
    pub related_protocol_id: Option<String>,
    pub related_protocol_date: Option<Date>,
    pub comments: Option<String>,
}

impl CompanyDailyScheduleBuilder {
    /// A fresh builder with every field at its default.
    pub fn builder() -> (r: CompanyDailyScheduleBuilder)
        ensures
            r.business_branch_number == 0,
            r.start_date is None,
            r.end_date is None,
            r.employee_schedules@.len() == 0,
            r.related_protocol_id is None,
            r.related_protocol_date is None,
            r.comments is None,
    {
        CompanyDailyScheduleBuilder {
            business_branch_number: 0,
            start_date: None,
            end_date: None,
            employee_schedules: Vec::new(),
            related_protocol_id: None,
            related_protocol_date: None,
            comments: None,
        }
    }

    /// Finishes the record.
    pub fn build(self) -> (r: CompanyDailySchedule)
        ensures
            r.business_branch_number == self.business_branch_number,
            r.start_date == self.start_date,
            r.end_date == self.end_date,
            r.employee_schedules == self.employee_schedules,
            r.related_protocol_id == self.related_protocol_id,
            r.related_protocol_date == self.related_protocol_date,
            r.comments == self.comments,
    {
        CompanyDailySchedule {
            business_branch_number: self.business_branch_number,
            start_date: self.start_date,
            end_date: self.end_date,
            employee_schedules: self.employee_schedules,
            related_protocol_id: self.related_protocol_id,
            related_protocol_date: self.related_protocol_date,
            comments: self.comments,
        }
    }

    /// Sets `business_branch_number`.
    pub fn set_business_branch_number(self, business_branch_number: i64) -> (r: Self)
        ensures
            r == (CompanyDailyScheduleBuilder { business_branch_number, ..self }),
    {
        CompanyDailyScheduleBuilder { business_branch_number, ..self }
    }

    /// Sets `start_date`.
    pub fn set_start_date(self, start_date: Option<Date>) -> (r: Self)
        ensures
            r == (CompanyDailyScheduleBuilder { start_date, ..self }),
    {
        CompanyDailyScheduleBuilder { start_date, ..self }
    }

    /// Sets `end_date`.
    pub fn set_end_date(self, end_date: Option<Date>) -> (r: Self)
        ensures
            r == (CompanyDailyScheduleBuilder { end_date, ..self }),
    {
        CompanyDailyScheduleBuilder { end_date, ..self }
    }

    /// Sets `employee_schedules`.
    pub fn set_employee_schedules(self, employee_schedules: Vec<EmployeeDailySchedule>) -> (r: Self)
        ensures
            r == (CompanyDailyScheduleBuilder { employee_schedules, ..self }),
    {
        CompanyDailyScheduleBuilder { employee_schedules, ..self }
    }

    /// Sets `related_protocol_id`.
    pub fn set_related_protocol_id(self, related_protocol_id: Option<String>) -> (r: Self)
        ensures
            r == (CompanyDailyScheduleBuilder { related_protocol_id, ..self }),
    {
        CompanyDailyScheduleBuilder { related_protocol_id, ..self }
    }

    /// Sets `related_protocol_date`.
    pub fn set_related_protocol_date(self, related_protocol_date: Option<Date>) -> (r: Self)
        ensures
            r == (CompanyDailyScheduleBuilder { related_protocol_date, ..self }),
    {
        CompanyDailyScheduleBuilder { related_protocol_date, ..self }
    }

    /// Sets `comments`.
    pub fn set_comments(self, comments: Option<String>) -> (r: Self)
        ensures
            r == (CompanyDailyScheduleBuilder { comments, ..self }),
    {
        CompanyDailyScheduleBuilder { comments, ..self }
    }
}

/// Builds a [`CompanyWeeklySchedule`]; every field has a usable default, so
/// building always succeeds.
pub struct CompanyWeeklyScheduleBuilder {
    pub business_branch_number: i64,
    pub start_date: Date,
    pub end_date: Date,
    pub employee_schedules: Vec<EmployeeWeeklySchedule>,
    pub related_protocol_id: Option<String>,
    pub related_protocol_date: Option<Date>,
    pub comments: Option<String>,
}

impl CompanyWeeklyScheduleBuilder {
    /// A fresh builder with every field at its default.
    pub fn builder() -> (r: CompanyWeeklyScheduleBuilder)
        ensures
            r.business_branch_number == 0,
            r.start_date == epoch_date(),
            r.end_date == epoch_date(),
            r.employee_schedules@.len() == 0,
            r.related_protocol_id is None,
            r.related_protocol_date is None,
            r.comments is None,
    {
        CompanyWeeklyScheduleBuilder {
            business_branch_number: 0,
            start_date: crate::dates::unix_epoch_date(),
            end_date: crate::dates::unix_epoch_date(),
            employee_schedules: Vec::new(),
            related_protocol_id: None,
            related_protocol_date: None,
            comments: None,
        }
    }

    /// Finishes the record.
    pub fn build(self) -> (r: CompanyWeeklySchedule)
        ensures
            r.business_branch_number == self.business_branch_number,
            r.start_date == self.start_date,
            r.end_date == self.end_date,
            r.employee_schedules == self.employee_schedules,
            r.related_protocol_id == self.related_protocol_id,
            r.related_protocol_date == self.related_protocol_date,
            r.comments == self.comments,
    {
        CompanyWeeklySchedule {
            business_branch_number: self.business_branch_number,
            start_date: self.start_date,
            end_date: self.end_date,
            employee_schedules: self.employee_schedules,
            related_protocol_id: self.related_protocol_id,
            related_protocol_date: self.related_protocol_date,
            comments: self.comments,
        }
    }

    /// Sets `business_branch_number`.
    pub fn set_business_branch_number(self, business_branch_number: i64) -> (r: Self)
        ensures
            r == (CompanyWeeklyScheduleBuilder { business_branch_number, ..self }),
    {
        CompanyWeeklyScheduleBuilder { business_branch_number, ..self }
    }

    /// Sets `start_date`.
    pub fn set_start_date(self, start_date: Date) -> (r: Self)
        ensures
            r == (CompanyWeeklyScheduleBuilder { start_date, ..self }),
    {
        CompanyWeeklyScheduleBuilder { start_date, ..self }
    }

    /// Sets `end_date`.
    pub fn set_end_date(self, end_date: Date) -> (r: Self)
        ensures
            r == (CompanyWeeklyScheduleBuilder { end_date, ..self }),
    {
        CompanyWeeklyScheduleBuilder { end_date, ..self }
    }

    /// Sets `employee_schedules`.
    pub fn set_employee_schedules(self, employee_schedules: Vec<EmployeeWeeklySchedule>) -> (r: Self)
        ensures
            r == (CompanyWeeklyScheduleBuilder { employee_schedules, ..self }),
    {
        CompanyWeeklyScheduleBuilder { employee_schedules, ..self }
    }

    /// Sets `related_protocol_id`.
    pub fn set_related_protocol_id(self, related_protocol_id: Option<String>) -> (r: Self)
        ensures
            r == (CompanyWeeklyScheduleBuilder { related_protocol_id, ..self }),
    {
        CompanyWeeklyScheduleBuilder { related_protocol_id, ..self }
    }

    /// Sets `related_protocol_date`.
    pub fn set_related_protocol_date(self, related_protocol_date: Option<Date>) -> (r: Self)
        ensures
            r == (CompanyWeeklyScheduleBuilder { related_protocol_date, ..self }),
    {
        CompanyWeeklyScheduleBuilder { related_protocol_date, ..self }
    }

    /// Sets `comments`.
    pub fn set_comments(self, comments: Option<String>) -> (r: Self)
        ensures
            r == (CompanyWeeklyScheduleBuilder { comments, ..self }),
    {
        CompanyWeeklyScheduleBuilder { comments, ..self }
    }
}

} // verus!
