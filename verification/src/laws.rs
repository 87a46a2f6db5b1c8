//! Crate-wide serialization laws: unset optional fields stand in the
//! wire as keys with empty-string values, and serialization is a
//! function of the record values alone, so equal records always yield
//! byte-identical wire text.

use vstd::prelude::*;
use crate::models::company::{CompanyDailySchedule, CompanyOvertime, CompanyWeeklySchedule, CompanyWorkCard};
use crate::models::employee_announcement::EmployeeAnnouncement;
use crate::models::overtime::Overtime;
use crate::models::work_card::WorkCard;
use crate::wire::{str_field, opt_str_field, opt_view, num_field, key_prefix, wires_of};
use crate::models::company::opt_of;
use crate::dates::opt_date_view;
use crate::client::wrapped_batch;

verus! {

/// The wire text `s` carries the member `k` with the empty string as
/// its value: `"k":""` stands somewhere in it.
pub open spec fn contains_blank_member(s: Seq<char>, k: Seq<char>) -> bool {
    exists|a: Seq<char>, b: Seq<char>| s == (a + str_field(k, Seq::empty())) + b
}

proof fn lemma_contains_from_split(s: Seq<char>, a: Seq<char>, k: Seq<char>, b: Seq<char>)
    requires
        s == (a + str_field(k, Seq::empty())) + b,
    ensures
        contains_blank_member(s, k),
{
}

/// A work card without a late-declaration justification carries
/// `f_aitiologia` with an empty-string value — the key is never
/// omitted and never null.
pub proof fn lemma_work_card_blank_justification(w: WorkCard)
    requires
        w.late_declaration_justification is None,
    ensures
        contains_blank_member(w.wire(), "f_aitiologia"@),
{
    let a = seq!['{'] + str_field("f_afm"@, w.employee_tax_identification_number@) + seq![',']
        + str_field("f_eponymo"@, w.employee_last_name@) + seq![','] + str_field(
        "f_onoma"@,
        w.employee_first_name@,
    ) + seq![','] + str_field("f_type"@, w.work_card_movement_type.spec_value()) + seq![',']
        + str_field("f_reference_date"@, crate::dates::date_ymd(w.work_card_submission_date))
        + seq![','] + str_field(
        "f_date"@,
        crate::dates::datetime_iso(w.work_card_movement_datetime),
    ) + seq![','];
    lemma_contains_from_split(w.wire(), a, "f_aitiologia"@, seq!['}']);
}

/// An overtime entry without an ASEE approval carries `f_asee` with an
/// empty-string value.
pub proof fn lemma_overtime_blank_asee(o: Overtime)
    requires
        o.asee_approval is None,
    ensures
        contains_blank_member(o.wire(), "f_asee"@),
{
    let a = seq!['{'] + str_field("f_afm"@, o.employee_tax_identification_number@) + seq![',']
        + str_field("f_amka"@, o.employee_social_security_number@) + seq![','] + str_field(
        "f_eponymo"@,
        o.employee_last_name@,
    ) + seq![','] + str_field("f_onoma"@, o.employee_first_name@) + seq![','] + str_field(
        "f_date"@,
        crate::dates::date_dmy(o.overtime_date),
    ) + seq![','] + str_field("f_from"@, crate::dates::time_hm(o.overtime_start_time)) + seq![',']
        + str_field("f_to"@, crate::dates::time_hm(o.overtime_end_time)) + seq![','] + str_field(
        "f_cancellation"@,
        crate::wire::cancellation_view(o.overtime_cancellation),
    ) + seq![','] + str_field("f_step"@, o.employee_profession_code@) + seq![','] + str_field(
        "f_reason"@,
        o.overtime_justification.spec_value(),
    ) + seq![','] + str_field("f_weekdates"@, o.weekly_workdays_number.spec_value()) + seq![','];
    lemma_contains_from_split(o.wire(), a, "f_asee"@, seq!['}']);
}

proof fn lemma_shift(s: Seq<char>, t: Seq<char>, u: Seq<char>)
    ensures
        (s + t) + u == s + (t + u),
{
    assert((s + t) + u =~= s + (t + u));
}

/// A company work-card batch with no comments carries `f_comments`
/// with an empty-string value.
pub proof fn lemma_company_work_card_blank_optionals(x: CompanyWorkCard)
    ensures
        x.comments is None ==> contains_blank_member(x.wire(), "f_comments"@),
{
    if x.comments is None {
        let a = seq!['{']
            + str_field("f_afm_ergodoti"@, x.employer_tax_identification_number@)
            + seq![',']
            + str_field("f_aa"@, crate::json::dec_int(x.business_branch_number as int))
            + seq![','];
        let p = a + str_field("f_comments"@, Seq::<char>::empty());
        lemma_shift(p, seq![','], key_prefix("Details"@));
        lemma_shift(p, seq![','] + key_prefix("Details"@), seq!['{']);
        lemma_shift(p, seq![','] + key_prefix("Details"@) + seq!['{'], key_prefix("CardDetails"@));
        lemma_shift(p, seq![','] + key_prefix("Details"@) + seq!['{'] + key_prefix("CardDetails"@), crate::wire::arr(wires_of(x.card_details@)));
        lemma_shift(p, seq![','] + key_prefix("Details"@) + seq!['{'] + key_prefix("CardDetails"@) + crate::wire::arr(wires_of(x.card_details@)), seq!['}']);
        lemma_shift(p, seq![','] + key_prefix("Details"@) + seq!['{'] + key_prefix("CardDetails"@) + crate::wire::arr(wires_of(x.card_details@)) + seq!['}'], seq!['}']);
        assert(x.wire() == (a + str_field("f_comments"@, Seq::empty())) + (seq![','] + key_prefix("Details"@) + seq!['{'] + key_prefix("CardDetails"@) + crate::wire::arr(wires_of(x.card_details@)) + seq!['}'] + seq!['}']));
        lemma_contains_from_split(x.wire(), a, "f_comments"@, seq![','] + key_prefix("Details"@) + seq!['{'] + key_prefix("CardDetails"@) + crate::wire::arr(wires_of(x.card_details@)) + seq!['}'] + seq!['}']);
    }
}

/// Every optional field of a company overtime batch left unset
/// stands in the wire as its key with an empty-string value.
pub proof fn lemma_company_overtime_blank_optionals(x: CompanyOvertime)
    ensures
        x.related_protocol_id is None ==> contains_blank_member(x.wire(), "f_rel_protocol"@),
        x.related_protocol_date is None ==> contains_blank_member(x.wire(), "f_rel_date"@),
        x.employer_organization is None ==> contains_blank_member(x.wire(), "f_ergodotikh_organwsh"@),
        x.business_secondary_activity_code_1 is None ==> contains_blank_member(x.wire(), "f_kad_deyt_1"@),
        x.business_secondary_activity_code_2 is None ==> contains_blank_member(x.wire(), "f_kad_deyt_2"@),
        x.business_secondary_activity_code_3 is None ==> contains_blank_member(x.wire(), "f_kad_deyt_3"@),
        x.business_secondary_activity_code_4 is None ==> contains_blank_member(x.wire(), "f_kad_deyt_4"@),
        x.comments is None ==> contains_blank_member(x.wire(), "f_comments"@),
{
    if x.related_protocol_id is None {
        let a = seq!['{']
            + num_field("f_aa_pararthmatos"@, x.business_branch_number as int)
            + seq![',']
            + str_field("f_ypiresia_sepe"@, x.sepe_service_code@)
            + seq![',']
            + str_field("f_kad_kyria"@, x.business_primary_activity_code@)
            + seq![',']
            + str_field("f_kad_pararthmatos"@, x.business_branch_activity_code@)
            + seq![',']
            + str_field("f_kallikratis_pararthmatos"@, x.kallikratis_municipal_code@)
            + seq![',']
            + str_field("f_afm_proswpoy"@, x.legal_representative_tax_identification_number@)
            + seq![','];
        let p = a + str_field("f_rel_protocol"@, Seq::<char>::empty());
        lemma_shift(p, seq![','], str_field("f_rel_date"@, opt_date_view(x.related_protocol_date)));
        lemma_shift(p, seq![','] + str_field("f_rel_date"@, opt_date_view(x.related_protocol_date)), seq![',']);
        lemma_shift(p, seq![','] + str_field("f_rel_date"@, opt_date_view(x.related_protocol_date)) + seq![','], opt_str_field("f_ergodotikh_organwsh"@, opt_of(x.employer_organization)));
        lemma_shift(p, seq![','] + str_field("f_rel_date"@, opt_date_view(x.related_protocol_date)) + seq![','] + opt_str_field("f_ergodotikh_organwsh"@, opt_of(x.employer_organization)), seq![',']);
        lemma_shift(p, seq![','] + str_field("f_rel_date"@, opt_date_view(x.related_protocol_date)) + seq![','] + opt_str_field("f_ergodotikh_organwsh"@, opt_of(x.employer_organization)) + seq![','], opt_str_field("f_kad_deyt_1"@, opt_of(x.business_secondary_activity_code_1)));
        lemma_shift(p, seq![','] + str_field("f_rel_date"@, opt_date_view(x.related_protocol_date)) + seq![','] + opt_str_field("f_ergodotikh_organwsh"@, opt_of(x.employer_organization)) + seq![','] + opt_str_field("f_kad_deyt_1"@, opt_of(x.business_secondary_activity_code_1)), seq![',']);
        lemma_shift(p, seq![','] + str_field("f_rel_date"@, opt_date_view(x.related_protocol_date)) + seq![','] + opt_str_field("f_ergodotikh_organwsh"@, opt_of(x.employer_organization)) + seq![','] + opt_str_field("f_kad_deyt_1"@, opt_of(x.business_secondary_activity_code_1)) + seq![','], opt_str_field("f_kad_deyt_2"@, opt_of(x.business_secondary_activity_code_2)));
        lemma_shift(p, seq![','] + str_field("f_rel_date"@, opt_date_view(x.related_protocol_date)) + seq![','] + opt_str_field("f_ergodotikh_organwsh"@, opt_of(x.employer_organization)) + seq![','] + opt_str_field("f_kad_deyt_1"@, opt_of(x.business_secondary_activity_code_1)) + seq![','] + opt_str_field("f_kad_deyt_2"@, opt_of(x.business_secondary_activity_code_2)), seq![',']);
        lemma_shift(p, seq![','] + str_field("f_rel_date"@, opt_date_view(x.related_protocol_date)) + seq![','] + opt_str_field("f_ergodotikh_organwsh"@, opt_of(x.employer_organization)) + seq![','] + opt_str_field("f_kad_deyt_1"@, opt_of(x.business_secondary_activity_code_1)) + seq![','] + opt_str_field("f_kad_deyt_2"@, opt_of(x.business_secondary_activity_code_2)) + seq![','], opt_str_field("f_kad_deyt_3"@, opt_of(x.business_secondary_activity_code_3)));
        lemma_shift(p, seq![','] + str_field("f_rel_date"@, opt_date_view(x.related_protocol_date)) + seq![','] + opt_str_field("f_ergodotikh_organwsh"@, opt_of(x.employer_organization)) + seq![','] + opt_str_field("f_kad_deyt_1"@, opt_of(x.business_secondary_activity_code_1)) + seq![','] + opt_str_field("f_kad_deyt_2"@, opt_of(x.business_secondary_activity_code_2)) + seq![','] + opt_str_field("f_kad_deyt_3"@, opt_of(x.business_secondary_activity_code_3)), seq![',']);
        lemma_shift(p, seq![','] + str_field("f_rel_date"@, opt_date_view(x.related_protocol_date)) + seq![','] + opt_str_field("f_ergodotikh_organwsh"@, opt_of(x.employer_organization)) + seq![','] + opt_str_field("f_kad_deyt_1"@, opt_of(x.business_secondary_activity_code_1)) + seq![','] + opt_str_field("f_kad_deyt_2"@, opt_of(x.business_secondary_activity_code_2)) + seq![','] + opt_str_field("f_kad_deyt_3"@, opt_of(x.business_secondary_activity_code_3)) + seq![','], opt_str_field("f_kad_deyt_4"@, opt_of(x.business_secondary_activity_code_4)));
        lemma_shift(p, seq![','] + str_field("f_rel_date"@, opt_date_view(x.related_protocol_date)) + seq![','] + opt_str_field("f_ergodotikh_organwsh"@, opt_of(x.employer_organization)) + seq![','] + opt_str_field("f_kad_deyt_1"@, opt_of(x.business_secondary_activity_code_1)) + seq![','] + opt_str_field("f_kad_deyt_2"@, opt_of(x.business_secondary_activity_code_2)) + seq![','] + opt_str_field("f_kad_deyt_3"@, opt_of(x.business_secondary_activity_code_3)) + seq![','] + opt_str_field("f_kad_deyt_4"@, opt_of(x.business_secondary_activity_code_4)), seq![',']);
        lemma_shift(p, seq![','] + str_field("f_rel_date"@, opt_date_view(x.related_protocol_date)) + seq![','] + opt_str_field("f_ergodotikh_organwsh"@, opt_of(x.employer_organization)) + seq![','] + opt_str_field("f_kad_deyt_1"@, opt_of(x.business_secondary_activity_code_1)) + seq![','] + opt_str_field("f_kad_deyt_2"@, opt_of(x.business_secondary_activity_code_2)) + seq![','] + opt_str_field("f_kad_deyt_3"@, opt_of(x.business_secondary_activity_code_3)) + seq![','] + opt_str_field("f_kad_deyt_4"@, opt_of(x.business_secondary_activity_code_4)) + seq![','], opt_str_field("f_comments"@, opt_of(x.comments)));
        lemma_shift(p, seq![','] + str_field("f_rel_date"@, opt_date_view(x.related_protocol_date)) + seq![','] + opt_str_field("f_ergodotikh_organwsh"@, opt_of(x.employer_organization)) + seq![','] + opt_str_field("f_kad_deyt_1"@, opt_of(x.business_secondary_activity_code_1)) + seq![','] + opt_str_field("f_kad_deyt_2"@, opt_of(x.business_secondary_activity_code_2)) + seq![','] + opt_str_field("f_kad_deyt_3"@, opt_of(x.business_secondary_activity_code_3)) + seq![','] + opt_str_field("f_kad_deyt_4"@, opt_of(x.business_secondary_activity_code_4)) + seq![','] + opt_str_field("f_comments"@, opt_of(x.comments)), seq![',']);
        lemma_shift(p, seq![','] + str_field("f_rel_date"@, opt_date_view(x.related_protocol_date)) + seq![','] + opt_str_field("f_ergodotikh_organwsh"@, opt_of(x.employer_organization)) + seq![','] + opt_str_field("f_kad_deyt_1"@, opt_of(x.business_secondary_activity_code_1)) + seq![','] + opt_str_field("f_kad_deyt_2"@, opt_of(x.business_secondary_activity_code_2)) + seq![','] + opt_str_field("f_kad_deyt_3"@, opt_of(x.business_secondary_activity_code_3)) + seq![','] + opt_str_field("f_kad_deyt_4"@, opt_of(x.business_secondary_activity_code_4)) + seq![','] + opt_str_field("f_comments"@, opt_of(x.comments)) + seq![','], key_prefix("Ergazomenoi"@));
        lemma_shift(p, seq![','] + str_field("f_rel_date"@, opt_date_view(x.related_protocol_date)) + seq![','] + opt_str_field("f_ergodotikh_organwsh"@, opt_of(x.employer_organization)) + seq![','] + opt_str_field("f_kad_deyt_1"@, opt_of(x.business_secondary_activity_code_1)) + seq![','] + opt_str_field("f_kad_deyt_2"@, opt_of(x.business_secondary_activity_code_2)) + seq![','] + opt_str_field("f_kad_deyt_3"@, opt_of(x.business_secondary_activity_code_3)) + seq![','] + opt_str_field("f_kad_deyt_4"@, opt_of(x.business_secondary_activity_code_4)) + seq![','] + opt_str_field("f_comments"@, opt_of(x.comments)) + seq![','] + key_prefix("Ergazomenoi"@), seq!['{']);
        lemma_shift(p, seq![','] + str_field("f_rel_date"@, opt_date_view(x.related_protocol_date)) + seq![','] + opt_str_field("f_ergodotikh_organwsh"@, opt_of(x.employer_organization)) + seq![','] + opt_str_field("f_kad_deyt_1"@, opt_of(x.business_secondary_activity_code_1)) + seq![','] + opt_str_field("f_kad_deyt_2"@, opt_of(x.business_secondary_activity_code_2)) + seq![','] + opt_str_field("f_kad_deyt_3"@, opt_of(x.business_secondary_activity_code_3)) + seq![','] + opt_str_field("f_kad_deyt_4"@, opt_of(x.business_secondary_activity_code_4)) + seq![','] + opt_str_field("f_comments"@, opt_of(x.comments)) + seq![','] + key_prefix("Ergazomenoi"@) + seq!['{'], key_prefix("OvertimeErgazomenosDate"@));
        lemma_shift(p, seq![','] + str_field("f_rel_date"@, opt_date_view(x.related_protocol_date)) + seq![','] + opt_str_field("f_ergodotikh_organwsh"@, opt_of(x.employer_organization)) + seq![','] + opt_str_field("f_kad_deyt_1"@, opt_of(x.business_secondary_activity_code_1)) + seq![','] + opt_str_field("f_kad_deyt_2"@, opt_of(x.business_secondary_activity_code_2)) + seq![','] + opt_str_field("f_kad_deyt_3"@, opt_of(x.business_secondary_activity_code_3)) + seq![','] + opt_str_field("f_kad_deyt_4"@, opt_of(x.business_secondary_activity_code_4)) + seq![','] + opt_str_field("f_comments"@, opt_of(x.comments)) + seq![','] + key_prefix("Ergazomenoi"@) + seq!['{'] + key_prefix("OvertimeErgazomenosDate"@), crate::wire::arr(wires_of(x.employee_overtimes@)));
        lemma_shift(p, seq![','] + str_field("f_rel_date"@, opt_date_view(x.related_protocol_date)) + seq![','] + opt_str_field("f_ergodotikh_organwsh"@, opt_of(x.employer_organization)) + seq![','] + opt_str_field("f_kad_deyt_1"@, opt_of(x.business_secondary_activity_code_1)) + seq![','] + opt_str_field("f_kad_deyt_2"@, opt_of(x.business_secondary_activity_code_2)) + seq![','] + opt_str_field("f_kad_deyt_3"@, opt_of(x.business_secondary_activity_code_3)) + seq![','] + opt_str_field("f_kad_deyt_4"@, opt_of(x.business_secondary_activity_code_4)) + seq![','] + opt_str_field("f_comments"@, opt_of(x.comments)) + seq![','] + key_prefix("Ergazomenoi"@) + seq!['{'] + key_prefix("OvertimeErgazomenosDate"@) + crate::wire::arr(wires_of(x.employee_overtimes@)), seq!['}']);
        lemma_shift(p, seq![','] + str_field("f_rel_date"@, opt_date_view(x.related_protocol_date)) + seq![','] + opt_str_field("f_ergodotikh_organwsh"@, opt_of(x.employer_organization)) + seq![','] + opt_str_field("f_kad_deyt_1"@, opt_of(x.business_secondary_activity_code_1)) + seq![','] + opt_str_field("f_kad_deyt_2"@, opt_of(x.business_secondary_activity_code_2)) + seq![','] + opt_str_field("f_kad_deyt_3"@, opt_of(x.business_secondary_activity_code_3)) + seq![','] + opt_str_field("f_kad_deyt_4"@, opt_of(x.business_secondary_activity_code_4)) + seq![','] + opt_str_field("f_comments"@, opt_of(x.comments)) + seq![','] + key_prefix("Ergazomenoi"@) + seq!['{'] + key_prefix("OvertimeErgazomenosDate"@) + crate::wire::arr(wires_of(x.employee_overtimes@)) + seq!['}'], seq!['}']);
        assert(x.wire() == (a + str_field("f_rel_protocol"@, Seq::empty())) + (seq![','] + str_field("f_rel_date"@, opt_date_view(x.related_protocol_date)) + seq![','] + opt_str_field("f_ergodotikh_organwsh"@, opt_of(x.employer_organization)) + seq![','] + opt_str_field("f_kad_deyt_1"@, opt_of(x.business_secondary_activity_code_1)) + seq![','] + opt_str_field("f_kad_deyt_2"@, opt_of(x.business_secondary_activity_code_2)) + seq![','] + opt_str_field("f_kad_deyt_3"@, opt_of(x.business_secondary_activity_code_3)) + seq![','] + opt_str_field("f_kad_deyt_4"@, opt_of(x.business_secondary_activity_code_4)) + seq![','] + opt_str_field("f_comments"@, opt_of(x.comments)) + seq![','] + key_prefix("Ergazomenoi"@) + seq!['{'] + key_prefix("OvertimeErgazomenosDate"@) + crate::wire::arr(wires_of(x.employee_overtimes@)) + seq!['}'] + seq!['}']));
        lemma_contains_from_split(x.wire(), a, "f_rel_protocol"@, seq![','] + str_field("f_rel_date"@, opt_date_view(x.related_protocol_date)) + seq![','] + opt_str_field("f_ergodotikh_organwsh"@, opt_of(x.employer_organization)) + seq![','] + opt_str_field("f_kad_deyt_1"@, opt_of(x.business_secondary_activity_code_1)) + seq![','] + opt_str_field("f_kad_deyt_2"@, opt_of(x.business_secondary_activity_code_2)) + seq![','] + opt_str_field("f_kad_deyt_3"@, opt_of(x.business_secondary_activity_code_3)) + seq![','] + opt_str_field("f_kad_deyt_4"@, opt_of(x.business_secondary_activity_code_4)) + seq![','] + opt_str_field("f_comments"@, opt_of(x.comments)) + seq![','] + key_prefix("Ergazomenoi"@) + seq!['{'] + key_prefix("OvertimeErgazomenosDate"@) + crate::wire::arr(wires_of(x.employee_overtimes@)) + seq!['}'] + seq!['}']);
    }
    if x.related_protocol_date is None {
        let a = seq!['{']
            + num_field("f_aa_pararthmatos"@, x.business_branch_number as int)
            + seq![',']
            + str_field("f_ypiresia_sepe"@, x.sepe_service_code@)
            + seq![',']
            + str_field("f_kad_kyria"@, x.business_primary_activity_code@)
            + seq![',']
            + str_field("f_kad_pararthmatos"@, x.business_branch_activity_code@)
            + seq![',']
            + str_field("f_kallikratis_pararthmatos"@, x.kallikratis_municipal_code@)
            + seq![',']
            + str_field("f_afm_proswpoy"@, x.legal_representative_tax_identification_number@)
            + seq![',']
            + opt_str_field("f_rel_protocol"@, opt_of(x.related_protocol_id))
            + seq![','];
        let p = a + str_field("f_rel_date"@, Seq::<char>::empty());
        lemma_shift(p, seq![','], opt_str_field("f_ergodotikh_organwsh"@, opt_of(x.employer_organization)));
        lemma_shift(p, seq![','] + opt_str_field("f_ergodotikh_organwsh"@, opt_of(x.employer_organization)), seq![',']);
        lemma_shift(p, seq![','] + opt_str_field("f_ergodotikh_organwsh"@, opt_of(x.employer_organization)) + seq![','], opt_str_field("f_kad_deyt_1"@, opt_of(x.business_secondary_activity_code_1)));
        lemma_shift(p, seq![','] + opt_str_field("f_ergodotikh_organwsh"@, opt_of(x.employer_organization)) + seq![','] + opt_str_field("f_kad_deyt_1"@, opt_of(x.business_secondary_activity_code_1)), seq![',']);
        lemma_shift(p, seq![','] + opt_str_field("f_ergodotikh_organwsh"@, opt_of(x.employer_organization)) + seq![','] + opt_str_field("f_kad_deyt_1"@, opt_of(x.business_secondary_activity_code_1)) + seq![','], opt_str_field("f_kad_deyt_2"@, opt_of(x.business_secondary_activity_code_2)));
        lemma_shift(p, seq![','] + opt_str_field("f_ergodotikh_organwsh"@, opt_of(x.employer_organization)) + seq![','] + opt_str_field("f_kad_deyt_1"@, opt_of(x.business_secondary_activity_code_1)) + seq![','] + opt_str_field("f_kad_deyt_2"@, opt_of(x.business_secondary_activity_code_2)), seq![',']);
        lemma_shift(p, seq![','] + opt_str_field("f_ergodotikh_organwsh"@, opt_of(x.employer_organization)) + seq![','] + opt_str_field("f_kad_deyt_1"@, opt_of(x.business_secondary_activity_code_1)) + seq![','] + opt_str_field("f_kad_deyt_2"@, opt_of(x.business_secondary_activity_code_2)) + seq![','], opt_str_field("f_kad_deyt_3"@, opt_of(x.business_secondary_activity_code_3)));
        lemma_shift(p, seq![','] + opt_str_field("f_ergodotikh_organwsh"@, opt_of(x.employer_organization)) + seq![','] + opt_str_field("f_kad_deyt_1"@, opt_of(x.business_secondary_activity_code_1)) + seq![','] + opt_str_field("f_kad_deyt_2"@, opt_of(x.business_secondary_activity_code_2)) + seq![','] + opt_str_field("f_kad_deyt_3"@, opt_of(x.business_secondary_activity_code_3)), seq![',']);
        lemma_shift(p, seq![','] + opt_str_field("f_ergodotikh_organwsh"@, opt_of(x.employer_organization)) + seq![','] + opt_str_field("f_kad_deyt_1"@, opt_of(x.business_secondary_activity_code_1)) + seq![','] + opt_str_field("f_kad_deyt_2"@, opt_of(x.business_secondary_activity_code_2)) + seq![','] + opt_str_field("f_kad_deyt_3"@, opt_of(x.business_secondary_activity_code_3)) + seq![','], opt_str_field("f_kad_deyt_4"@, opt_of(x.business_secondary_activity_code_4)));
        lemma_shift(p, seq![','] + opt_str_field("f_ergodotikh_organwsh"@, opt_of(x.employer_organization)) + seq![','] + opt_str_field("f_kad_deyt_1"@, opt_of(x.business_secondary_activity_code_1)) + seq![','] + opt_str_field("f_kad_deyt_2"@, opt_of(x.business_secondary_activity_code_2)) + seq![','] + opt_str_field("f_kad_deyt_3"@, opt_of(x.business_secondary_activity_code_3)) + seq![','] + opt_str_field("f_kad_deyt_4"@, opt_of(x.business_secondary_activity_code_4)), seq![',']);
        lemma_shift(p, seq![','] + opt_str_field("f_ergodotikh_organwsh"@, opt_of(x.employer_organization)) + seq![','] + opt_str_field("f_kad_deyt_1"@, opt_of(x.business_secondary_activity_code_1)) + seq![','] + opt_str_field("f_kad_deyt_2"@, opt_of(x.business_secondary_activity_code_2)) + seq![','] + opt_str_field("f_kad_deyt_3"@, opt_of(x.business_secondary_activity_code_3)) + seq![','] + opt_str_field("f_kad_deyt_4"@, opt_of(x.business_secondary_activity_code_4)) + seq![','], opt_str_field("f_comments"@, opt_of(x.comments)));
        lemma_shift(p, seq![','] + opt_str_field("f_ergodotikh_organwsh"@, opt_of(x.employer_organization)) + seq![','] + opt_str_field("f_kad_deyt_1"@, opt_of(x.business_secondary_activity_code_1)) + seq![','] + opt_str_field("f_kad_deyt_2"@, opt_of(x.business_secondary_activity_code_2)) + seq![','] + opt_str_field("f_kad_deyt_3"@, opt_of(x.business_secondary_activity_code_3)) + seq![','] + opt_str_field("f_kad_deyt_4"@, opt_of(x.business_secondary_activity_code_4)) + seq![','] + opt_str_field("f_comments"@, opt_of(x.comments)), seq![',']);
        lemma_shift(p, seq![','] + opt_str_field("f_ergodotikh_organwsh"@, opt_of(x.employer_organization)) + seq![','] + opt_str_field("f_kad_deyt_1"@, opt_of(x.business_secondary_activity_code_1)) + seq![','] + opt_str_field("f_kad_deyt_2"@, opt_of(x.business_secondary_activity_code_2)) + seq![','] + opt_str_field("f_kad_deyt_3"@, opt_of(x.business_secondary_activity_code_3)) + seq![','] + opt_str_field("f_kad_deyt_4"@, opt_of(x.business_secondary_activity_code_4)) + seq![','] + opt_str_field("f_comments"@, opt_of(x.comments)) + seq![','], key_prefix("Ergazomenoi"@));
        lemma_shift(p, seq![','] + opt_str_field("f_ergodotikh_organwsh"@, opt_of(x.employer_organization)) + seq![','] + opt_str_field("f_kad_deyt_1"@, opt_of(x.business_secondary_activity_code_1)) + seq![','] + opt_str_field("f_kad_deyt_2"@, opt_of(x.business_secondary_activity_code_2)) + seq![','] + opt_str_field("f_kad_deyt_3"@, opt_of(x.business_secondary_activity_code_3)) + seq![','] + opt_str_field("f_kad_deyt_4"@, opt_of(x.business_secondary_activity_code_4)) + seq![','] + opt_str_field("f_comments"@, opt_of(x.comments)) + seq![','] + key_prefix("Ergazomenoi"@), seq!['{']);
        lemma_shift(p, seq![','] + opt_str_field("f_ergodotikh_organwsh"@, opt_of(x.employer_organization)) + seq![','] + opt_str_field("f_kad_deyt_1"@, opt_of(x.business_secondary_activity_code_1)) + seq![','] + opt_str_field("f_kad_deyt_2"@, opt_of(x.business_secondary_activity_code_2)) + seq![','] + opt_str_field("f_kad_deyt_3"@, opt_of(x.business_secondary_activity_code_3)) + seq![','] + opt_str_field("f_kad_deyt_4"@, opt_of(x.business_secondary_activity_code_4)) + seq![','] + opt_str_field("f_comments"@, opt_of(x.comments)) + seq![','] + key_prefix("Ergazomenoi"@) + seq!['{'], key_prefix("OvertimeErgazomenosDate"@));
        lemma_shift(p, seq![','] + opt_str_field("f_ergodotikh_organwsh"@, opt_of(x.employer_organization)) + seq![','] + opt_str_field("f_kad_deyt_1"@, opt_of(x.business_secondary_activity_code_1)) + seq![','] + opt_str_field("f_kad_deyt_2"@, opt_of(x.business_secondary_activity_code_2)) + seq![','] + opt_str_field("f_kad_deyt_3"@, opt_of(x.business_secondary_activity_code_3)) + seq![','] + opt_str_field("f_kad_deyt_4"@, opt_of(x.business_secondary_activity_code_4)) + seq![','] + opt_str_field("f_comments"@, opt_of(x.comments)) + seq![','] + key_prefix("Ergazomenoi"@) + seq!['{'] + key_prefix("OvertimeErgazomenosDate"@), crate::wire::arr(wires_of(x.employee_overtimes@)));
        lemma_shift(p, seq![','] + opt_str_field("f_ergodotikh_organwsh"@, opt_of(x.employer_organization)) + seq![','] + opt_str_field("f_kad_deyt_1"@, opt_of(x.business_secondary_activity_code_1)) + seq![','] + opt_str_field("f_kad_deyt_2"@, opt_of(x.business_secondary_activity_code_2)) + seq![','] + opt_str_field("f_kad_deyt_3"@, opt_of(x.business_secondary_activity_code_3)) + seq![','] + opt_str_field("f_kad_deyt_4"@, opt_of(x.business_secondary_activity_code_4)) + seq![','] + opt_str_field("f_comments"@, opt_of(x.comments)) + seq![','] + key_prefix("Ergazomenoi"@) + seq!['{'] + key_prefix("OvertimeErgazomenosDate"@) + crate::wire::arr(wires_of(x.employee_overtimes@)), seq!['}']);
        lemma_shift(p, seq![','] + opt_str_field("f_ergodotikh_organwsh"@, opt_of(x.employer_organization)) + seq![','] + opt_str_field("f_kad_deyt_1"@, opt_of(x.business_secondary_activity_code_1)) + seq![','] + opt_str_field("f_kad_deyt_2"@, opt_of(x.business_secondary_activity_code_2)) + seq![','] + opt_str_field("f_kad_deyt_3"@, opt_of(x.business_secondary_activity_code_3)) + seq![','] + opt_str_field("f_kad_deyt_4"@, opt_of(x.business_secondary_activity_code_4)) + seq![','] + opt_str_field("f_comments"@, opt_of(x.comments)) + seq![','] + key_prefix("Ergazomenoi"@) + seq!['{'] + key_prefix("OvertimeErgazomenosDate"@) + crate::wire::arr(wires_of(x.employee_overtimes@)) + seq!['}'], seq!['}']);
        assert(x.wire() == (a + str_field("f_rel_date"@, Seq::empty())) + (seq![','] + opt_str_field("f_ergodotikh_organwsh"@, opt_of(x.employer_organization)) + seq![','] + opt_str_field("f_kad_deyt_1"@, opt_of(x.business_secondary_activity_code_1)) + seq![','] + opt_str_field("f_kad_deyt_2"@, opt_of(x.business_secondary_activity_code_2)) + seq![','] + opt_str_field("f_kad_deyt_3"@, opt_of(x.business_secondary_activity_code_3)) + seq![','] + opt_str_field("f_kad_deyt_4"@, opt_of(x.business_secondary_activity_code_4)) + seq![','] + opt_str_field("f_comments"@, opt_of(x.comments)) + seq![','] + key_prefix("Ergazomenoi"@) + seq!['{'] + key_prefix("OvertimeErgazomenosDate"@) + crate::wire::arr(wires_of(x.employee_overtimes@)) + seq!['}'] + seq!['}']));
        lemma_contains_from_split(x.wire(), a, "f_rel_date"@, seq![','] + opt_str_field("f_ergodotikh_organwsh"@, opt_of(x.employer_organization)) + seq![','] + opt_str_field("f_kad_deyt_1"@, opt_of(x.business_secondary_activity_code_1)) + seq![','] + opt_str_field("f_kad_deyt_2"@, opt_of(x.business_secondary_activity_code_2)) + seq![','] + opt_str_field("f_kad_deyt_3"@, opt_of(x.business_secondary_activity_code_3)) + seq![','] + opt_str_field("f_kad_deyt_4"@, opt_of(x.business_secondary_activity_code_4)) + seq![','] + opt_str_field("f_comments"@, opt_of(x.comments)) + seq![','] + key_prefix("Ergazomenoi"@) + seq!['{'] + key_prefix("OvertimeErgazomenosDate"@) + crate::wire::arr(wires_of(x.employee_overtimes@)) + seq!['}'] + seq!['}']);
    }
    if x.employer_organization is None {
        let a = seq!['{']
            + num_field("f_aa_pararthmatos"@, x.business_branch_number as int)
            + seq![',']
            + str_field("f_ypiresia_sepe"@, x.sepe_service_code@)
            + seq![',']
            + str_field("f_kad_kyria"@, x.business_primary_activity_code@)
            + seq![',']
            + str_field("f_kad_pararthmatos"@, x.business_branch_activity_code@)
            + seq![',']
            + str_field("f_kallikratis_pararthmatos"@, x.kallikratis_municipal_code@)
            + seq![',']
            + str_field("f_afm_proswpoy"@, x.legal_representative_tax_identification_number@)
            + seq![',']
            + opt_str_field("f_rel_protocol"@, opt_of(x.related_protocol_id))
            + seq![',']
            + str_field("f_rel_date"@, opt_date_view(x.related_protocol_date))
            + seq![','];
        let p = a + str_field("f_ergodotikh_organwsh"@, Seq::<char>::empty());
        lemma_shift(p, seq![','], opt_str_field("f_kad_deyt_1"@, opt_of(x.business_secondary_activity_code_1)));
        lemma_shift(p, seq![','] + opt_str_field("f_kad_deyt_1"@, opt_of(x.business_secondary_activity_code_1)), seq![',']);
        lemma_shift(p, seq![','] + opt_str_field("f_kad_deyt_1"@, opt_of(x.business_secondary_activity_code_1)) + seq![','], opt_str_field("f_kad_deyt_2"@, opt_of(x.business_secondary_activity_code_2)));
        lemma_shift(p, seq![','] + opt_str_field("f_kad_deyt_1"@, opt_of(x.business_secondary_activity_code_1)) + seq![','] + opt_str_field("f_kad_deyt_2"@, opt_of(x.business_secondary_activity_code_2)), seq![',']);
        lemma_shift(p, seq![','] + opt_str_field("f_kad_deyt_1"@, opt_of(x.business_secondary_activity_code_1)) + seq![','] + opt_str_field("f_kad_deyt_2"@, opt_of(x.business_secondary_activity_code_2)) + seq![','], opt_str_field("f_kad_deyt_3"@, opt_of(x.business_secondary_activity_code_3)));
        lemma_shift(p, seq![','] + opt_str_field("f_kad_deyt_1"@, opt_of(x.business_secondary_activity_code_1)) + seq![','] + opt_str_field("f_kad_deyt_2"@, opt_of(x.business_secondary_activity_code_2)) + seq![','] + opt_str_field("f_kad_deyt_3"@, opt_of(x.business_secondary_activity_code_3)), seq![',']);
        lemma_shift(p, seq![','] + opt_str_field("f_kad_deyt_1"@, opt_of(x.business_secondary_activity_code_1)) + seq![','] + opt_str_field("f_kad_deyt_2"@, opt_of(x.business_secondary_activity_code_2)) + seq![','] + opt_str_field("f_kad_deyt_3"@, opt_of(x.business_secondary_activity_code_3)) + seq![','], opt_str_field("f_kad_deyt_4"@, opt_of(x.business_secondary_activity_code_4)));
        lemma_shift(p, seq![','] + opt_str_field("f_kad_deyt_1"@, opt_of(x.business_secondary_activity_code_1)) + seq![','] + opt_str_field("f_kad_deyt_2"@, opt_of(x.business_secondary_activity_code_2)) + seq![','] + opt_str_field("f_kad_deyt_3"@, opt_of(x.business_secondary_activity_code_3)) + seq![','] + opt_str_field("f_kad_deyt_4"@, opt_of(x.business_secondary_activity_code_4)), seq![',']);
        lemma_shift(p, seq![','] + opt_str_field("f_kad_deyt_1"@, opt_of(x.business_secondary_activity_code_1)) + seq![','] + opt_str_field("f_kad_deyt_2"@, opt_of(x.business_secondary_activity_code_2)) + seq![','] + opt_str_field("f_kad_deyt_3"@, opt_of(x.business_secondary_activity_code_3)) + seq![','] + opt_str_field("f_kad_deyt_4"@, opt_of(x.business_secondary_activity_code_4)) + seq![','], opt_str_field("f_comments"@, opt_of(x.comments)));
        lemma_shift(p, seq![','] + opt_str_field("f_kad_deyt_1"@, opt_of(x.business_secondary_activity_code_1)) + seq![','] + opt_str_field("f_kad_deyt_2"@, opt_of(x.business_secondary_activity_code_2)) + seq![','] + opt_str_field("f_kad_deyt_3"@, opt_of(x.business_secondary_activity_code_3)) + seq![','] + opt_str_field("f_kad_deyt_4"@, opt_of(x.business_secondary_activity_code_4)) + seq![','] + opt_str_field("f_comments"@, opt_of(x.comments)), seq![',']);
        lemma_shift(p, seq![','] + opt_str_field("f_kad_deyt_1"@, opt_of(x.business_secondary_activity_code_1)) + seq![','] + opt_str_field("f_kad_deyt_2"@, opt_of(x.business_secondary_activity_code_2)) + seq![','] + opt_str_field("f_kad_deyt_3"@, opt_of(x.business_secondary_activity_code_3)) + seq![','] + opt_str_field("f_kad_deyt_4"@, opt_of(x.business_secondary_activity_code_4)) + seq![','] + opt_str_field("f_comments"@, opt_of(x.comments)) + seq![','], key_prefix("Ergazomenoi"@));
        lemma_shift(p, seq![','] + opt_str_field("f_kad_deyt_1"@, opt_of(x.business_secondary_activity_code_1)) + seq![','] + opt_str_field("f_kad_deyt_2"@, opt_of(x.business_secondary_activity_code_2)) + seq![','] + opt_str_field("f_kad_deyt_3"@, opt_of(x.business_secondary_activity_code_3)) + seq![','] + opt_str_field("f_kad_deyt_4"@, opt_of(x.business_secondary_activity_code_4)) + seq![','] + opt_str_field("f_comments"@, opt_of(x.comments)) + seq![','] + key_prefix("Ergazomenoi"@), seq!['{']);
        lemma_shift(p, seq![','] + opt_str_field("f_kad_deyt_1"@, opt_of(x.business_secondary_activity_code_1)) + seq![','] + opt_str_field("f_kad_deyt_2"@, opt_of(x.business_secondary_activity_code_2)) + seq![','] + opt_str_field("f_kad_deyt_3"@, opt_of(x.business_secondary_activity_code_3)) + seq![','] + opt_str_field("f_kad_deyt_4"@, opt_of(x.business_secondary_activity_code_4)) + seq![','] + opt_str_field("f_comments"@, opt_of(x.comments)) + seq![','] + key_prefix("Ergazomenoi"@) + seq!['{'], key_prefix("OvertimeErgazomenosDate"@));
        lemma_shift(p, seq![','] + opt_str_field("f_kad_deyt_1"@, opt_of(x.business_secondary_activity_code_1)) + seq![','] + opt_str_field("f_kad_deyt_2"@, opt_of(x.business_secondary_activity_code_2)) + seq![','] + opt_str_field("f_kad_deyt_3"@, opt_of(x.business_secondary_activity_code_3)) + seq![','] + opt_str_field("f_kad_deyt_4"@, opt_of(x.business_secondary_activity_code_4)) + seq![','] + opt_str_field("f_comments"@, opt_of(x.comments)) + seq![','] + key_prefix("Ergazomenoi"@) + seq!['{'] + key_prefix("OvertimeErgazomenosDate"@), crate::wire::arr(wires_of(x.employee_overtimes@)));
        lemma_shift(p, seq![','] + opt_str_field("f_kad_deyt_1"@, opt_of(x.business_secondary_activity_code_1)) + seq![','] + opt_str_field("f_kad_deyt_2"@, opt_of(x.business_secondary_activity_code_2)) + seq![','] + opt_str_field("f_kad_deyt_3"@, opt_of(x.business_secondary_activity_code_3)) + seq![','] + opt_str_field("f_kad_deyt_4"@, opt_of(x.business_secondary_activity_code_4)) + seq![','] + opt_str_field("f_comments"@, opt_of(x.comments)) + seq![','] + key_prefix("Ergazomenoi"@) + seq!['{'] + key_prefix("OvertimeErgazomenosDate"@) + crate::wire::arr(wires_of(x.employee_overtimes@)), seq!['}']);
        lemma_shift(p, seq![','] + opt_str_field("f_kad_deyt_1"@, opt_of(x.business_secondary_activity_code_1)) + seq![','] + opt_str_field("f_kad_deyt_2"@, opt_of(x.business_secondary_activity_code_2)) + seq![','] + opt_str_field("f_kad_deyt_3"@, opt_of(x.business_secondary_activity_code_3)) + seq![','] + opt_str_field("f_kad_deyt_4"@, opt_of(x.business_secondary_activity_code_4)) + seq![','] + opt_str_field("f_comments"@, opt_of(x.comments)) + seq![','] + key_prefix("Ergazomenoi"@) + seq!['{'] + key_prefix("OvertimeErgazomenosDate"@) + crate::wire::arr(wires_of(x.employee_overtimes@)) + seq!['}'], seq!['}']);
        assert(x.wire() == (a + str_field("f_ergodotikh_organwsh"@, Seq::empty())) + (seq![','] + opt_str_field("f_kad_deyt_1"@, opt_of(x.business_secondary_activity_code_1)) + seq![','] + opt_str_field("f_kad_deyt_2"@, opt_of(x.business_secondary_activity_code_2)) + seq![','] + opt_str_field("f_kad_deyt_3"@, opt_of(x.business_secondary_activity_code_3)) + seq![','] + opt_str_field("f_kad_deyt_4"@, opt_of(x.business_secondary_activity_code_4)) + seq![','] + opt_str_field("f_comments"@, opt_of(x.comments)) + seq![','] + key_prefix("Ergazomenoi"@) + seq!['{'] + key_prefix("OvertimeErgazomenosDate"@) + crate::wire::arr(wires_of(x.employee_overtimes@)) + seq!['}'] + seq!['}']));
        lemma_contains_from_split(x.wire(), a, "f_ergodotikh_organwsh"@, seq![','] + opt_str_field("f_kad_deyt_1"@, opt_of(x.business_secondary_activity_code_1)) + seq![','] + opt_str_field("f_kad_deyt_2"@, opt_of(x.business_secondary_activity_code_2)) + seq![','] + opt_str_field("f_kad_deyt_3"@, opt_of(x.business_secondary_activity_code_3)) + seq![','] + opt_str_field("f_kad_deyt_4"@, opt_of(x.business_secondary_activity_code_4)) + seq![','] + opt_str_field("f_comments"@, opt_of(x.comments)) + seq![','] + key_prefix("Ergazomenoi"@) + seq!['{'] + key_prefix("OvertimeErgazomenosDate"@) + crate::wire::arr(wires_of(x.employee_overtimes@)) + seq!['}'] + seq!['}']);
    }
    if x.business_secondary_activity_code_1 is None {
        let a = seq!['{']
            + num_field("f_aa_pararthmatos"@, x.business_branch_number as int)
            + seq![',']
            + str_field("f_ypiresia_sepe"@, x.sepe_service_code@)
            + seq![',']
            + str_field("f_kad_kyria"@, x.business_primary_activity_code@)
            + seq![',']
            + str_field("f_kad_pararthmatos"@, x.business_branch_activity_code@)
            + seq![',']
            + str_field("f_kallikratis_pararthmatos"@, x.kallikratis_municipal_code@)
            + seq![',']
            + str_field("f_afm_proswpoy"@, x.legal_representative_tax_identification_number@)
            + seq![',']
            + opt_str_field("f_rel_protocol"@, opt_of(x.related_protocol_id))
            + seq![',']
            + str_field("f_rel_date"@, opt_date_view(x.related_protocol_date))
            + seq![',']
            + opt_str_field("f_ergodotikh_organwsh"@, opt_of(x.employer_organization))
            + seq![','];
        let p = a + str_field("f_kad_deyt_1"@, Seq::<char>::empty());
        lemma_shift(p, seq![','], opt_str_field("f_kad_deyt_2"@, opt_of(x.business_secondary_activity_code_2)));
        lemma_shift(p, seq![','] + opt_str_field("f_kad_deyt_2"@, opt_of(x.business_secondary_activity_code_2)), seq![',']);
        lemma_shift(p, seq![','] + opt_str_field("f_kad_deyt_2"@, opt_of(x.business_secondary_activity_code_2)) + seq![','], opt_str_field("f_kad_deyt_3"@, opt_of(x.business_secondary_activity_code_3)));
        lemma_shift(p, seq![','] + opt_str_field("f_kad_deyt_2"@, opt_of(x.business_secondary_activity_code_2)) + seq![','] + opt_str_field("f_kad_deyt_3"@, opt_of(x.business_secondary_activity_code_3)), seq![',']);
        lemma_shift(p, seq![','] + opt_str_field("f_kad_deyt_2"@, opt_of(x.business_secondary_activity_code_2)) + seq![','] + opt_str_field("f_kad_deyt_3"@, opt_of(x.business_secondary_activity_code_3)) + seq![','], opt_str_field("f_kad_deyt_4"@, opt_of(x.business_secondary_activity_code_4)));
        lemma_shift(p, seq![','] + opt_str_field("f_kad_deyt_2"@, opt_of(x.business_secondary_activity_code_2)) + seq![','] + opt_str_field("f_kad_deyt_3"@, opt_of(x.business_secondary_activity_code_3)) + seq![','] + opt_str_field("f_kad_deyt_4"@, opt_of(x.business_secondary_activity_code_4)), seq![',']);
        lemma_shift(p, seq![','] + opt_str_field("f_kad_deyt_2"@, opt_of(x.business_secondary_activity_code_2)) + seq![','] + opt_str_field("f_kad_deyt_3"@, opt_of(x.business_secondary_activity_code_3)) + seq![','] + opt_str_field("f_kad_deyt_4"@, opt_of(x.business_secondary_activity_code_4)) + seq![','], opt_str_field("f_comments"@, opt_of(x.comments)));
        lemma_shift(p, seq![','] + opt_str_field("f_kad_deyt_2"@, opt_of(x.business_secondary_activity_code_2)) + seq![','] + opt_str_field("f_kad_deyt_3"@, opt_of(x.business_secondary_activity_code_3)) + seq![','] + opt_str_field("f_kad_deyt_4"@, opt_of(x.business_secondary_activity_code_4)) + seq![','] + opt_str_field("f_comments"@, opt_of(x.comments)), seq![',']);
        lemma_shift(p, seq![','] + opt_str_field("f_kad_deyt_2"@, opt_of(x.business_secondary_activity_code_2)) + seq![','] + opt_str_field("f_kad_deyt_3"@, opt_of(x.business_secondary_activity_code_3)) + seq![','] + opt_str_field("f_kad_deyt_4"@, opt_of(x.business_secondary_activity_code_4)) + seq![','] + opt_str_field("f_comments"@, opt_of(x.comments)) + seq![','], key_prefix("Ergazomenoi"@));
        lemma_shift(p, seq![','] + opt_str_field("f_kad_deyt_2"@, opt_of(x.business_secondary_activity_code_2)) + seq![','] + opt_str_field("f_kad_deyt_3"@, opt_of(x.business_secondary_activity_code_3)) + seq![','] + opt_str_field("f_kad_deyt_4"@, opt_of(x.business_secondary_activity_code_4)) + seq![','] + opt_str_field("f_comments"@, opt_of(x.comments)) + seq![','] + key_prefix("Ergazomenoi"@), seq!['{']);
        lemma_shift(p, seq![','] + opt_str_field("f_kad_deyt_2"@, opt_of(x.business_secondary_activity_code_2)) + seq![','] + opt_str_field("f_kad_deyt_3"@, opt_of(x.business_secondary_activity_code_3)) + seq![','] + opt_str_field("f_kad_deyt_4"@, opt_of(x.business_secondary_activity_code_4)) + seq![','] + opt_str_field("f_comments"@, opt_of(x.comments)) + seq![','] + key_prefix("Ergazomenoi"@) + seq!['{'], key_prefix("OvertimeErgazomenosDate"@));
        lemma_shift(p, seq![','] + opt_str_field("f_kad_deyt_2"@, opt_of(x.business_secondary_activity_code_2)) + seq![','] + opt_str_field("f_kad_deyt_3"@, opt_of(x.business_secondary_activity_code_3)) + seq![','] + opt_str_field("f_kad_deyt_4"@, opt_of(x.business_secondary_activity_code_4)) + seq![','] + opt_str_field("f_comments"@, opt_of(x.comments)) + seq![','] + key_prefix("Ergazomenoi"@) + seq!['{'] + key_prefix("OvertimeErgazomenosDate"@), crate::wire::arr(wires_of(x.employee_overtimes@)));
        lemma_shift(p, seq![','] + opt_str_field("f_kad_deyt_2"@, opt_of(x.business_secondary_activity_code_2)) + seq![','] + opt_str_field("f_kad_deyt_3"@, opt_of(x.business_secondary_activity_code_3)) + seq![','] + opt_str_field("f_kad_deyt_4"@, opt_of(x.business_secondary_activity_code_4)) + seq![','] + opt_str_field("f_comments"@, opt_of(x.comments)) + seq![','] + key_prefix("Ergazomenoi"@) + seq!['{'] + key_prefix("OvertimeErgazomenosDate"@) + crate::wire::arr(wires_of(x.employee_overtimes@)), seq!['}']);
        lemma_shift(p, seq![','] + opt_str_field("f_kad_deyt_2"@, opt_of(x.business_secondary_activity_code_2)) + seq![','] + opt_str_field("f_kad_deyt_3"@, opt_of(x.business_secondary_activity_code_3)) + seq![','] + opt_str_field("f_kad_deyt_4"@, opt_of(x.business_secondary_activity_code_4)) + seq![','] + opt_str_field("f_comments"@, opt_of(x.comments)) + seq![','] + key_prefix("Ergazomenoi"@) + seq!['{'] + key_prefix("OvertimeErgazomenosDate"@) + crate::wire::arr(wires_of(x.employee_overtimes@)) + seq!['}'], seq!['}']);
        assert(x.wire() == (a + str_field("f_kad_deyt_1"@, Seq::empty())) + (seq![','] + opt_str_field("f_kad_deyt_2"@, opt_of(x.business_secondary_activity_code_2)) + seq![','] + opt_str_field("f_kad_deyt_3"@, opt_of(x.business_secondary_activity_code_3)) + seq![','] + opt_str_field("f_kad_deyt_4"@, opt_of(x.business_secondary_activity_code_4)) + seq![','] + opt_str_field("f_comments"@, opt_of(x.comments)) + seq![','] + key_prefix("Ergazomenoi"@) + seq!['{'] + key_prefix("OvertimeErgazomenosDate"@) + crate::wire::arr(wires_of(x.employee_overtimes@)) + seq!['}'] + seq!['}']));
        lemma_contains_from_split(x.wire(), a, "f_kad_deyt_1"@, seq![','] + opt_str_field("f_kad_deyt_2"@, opt_of(x.business_secondary_activity_code_2)) + seq![','] + opt_str_field("f_kad_deyt_3"@, opt_of(x.business_secondary_activity_code_3)) + seq![','] + opt_str_field("f_kad_deyt_4"@, opt_of(x.business_secondary_activity_code_4)) + seq![','] + opt_str_field("f_comments"@, opt_of(x.comments)) + seq![','] + key_prefix("Ergazomenoi"@) + seq!['{'] + key_prefix("OvertimeErgazomenosDate"@) + crate::wire::arr(wires_of(x.employee_overtimes@)) + seq!['}'] + seq!['}']);
    }
    if x.business_secondary_activity_code_2 is None {
        let a = seq!['{']
            + num_field("f_aa_pararthmatos"@, x.business_branch_number as int)
            + seq![',']
            + str_field("f_ypiresia_sepe"@, x.sepe_service_code@)
            + seq![',']
            + str_field("f_kad_kyria"@, x.business_primary_activity_code@)
            + seq![',']
            + str_field("f_kad_pararthmatos"@, x.business_branch_activity_code@)
            + seq![',']
            + str_field("f_kallikratis_pararthmatos"@, x.kallikratis_municipal_code@)
            + seq![',']
            + str_field("f_afm_proswpoy"@, x.legal_representative_tax_identification_number@)
            + seq![',']
            + opt_str_field("f_rel_protocol"@, opt_of(x.related_protocol_id))
            + seq![',']
            + str_field("f_rel_date"@, opt_date_view(x.related_protocol_date))
            + seq![',']
            + opt_str_field("f_ergodotikh_organwsh"@, opt_of(x.employer_organization))
            + seq![',']
            + opt_str_field("f_kad_deyt_1"@, opt_of(x.business_secondary_activity_code_1))
            + seq![','];
        let p = a + str_field("f_kad_deyt_2"@, Seq::<char>::empty());
        lemma_shift(p, seq![','], opt_str_field("f_kad_deyt_3"@, opt_of(x.business_secondary_activity_code_3)));
        lemma_shift(p, seq![','] + opt_str_field("f_kad_deyt_3"@, opt_of(x.business_secondary_activity_code_3)), seq![',']);
        lemma_shift(p, seq![','] + opt_str_field("f_kad_deyt_3"@, opt_of(x.business_secondary_activity_code_3)) + seq![','], opt_str_field("f_kad_deyt_4"@, opt_of(x.business_secondary_activity_code_4)));
        lemma_shift(p, seq![','] + opt_str_field("f_kad_deyt_3"@, opt_of(x.business_secondary_activity_code_3)) + seq![','] + opt_str_field("f_kad_deyt_4"@, opt_of(x.business_secondary_activity_code_4)), seq![',']);
        lemma_shift(p, seq![','] + opt_str_field("f_kad_deyt_3"@, opt_of(x.business_secondary_activity_code_3)) + seq![','] + opt_str_field("f_kad_deyt_4"@, opt_of(x.business_secondary_activity_code_4)) + seq![','], opt_str_field("f_comments"@, opt_of(x.comments)));
        lemma_shift(p, seq![','] + opt_str_field("f_kad_deyt_3"@, opt_of(x.business_secondary_activity_code_3)) + seq![','] + opt_str_field("f_kad_deyt_4"@, opt_of(x.business_secondary_activity_code_4)) + seq![','] + opt_str_field("f_comments"@, opt_of(x.comments)), seq![',']);
        lemma_shift(p, seq![','] + opt_str_field("f_kad_deyt_3"@, opt_of(x.business_secondary_activity_code_3)) + seq![','] + opt_str_field("f_kad_deyt_4"@, opt_of(x.business_secondary_activity_code_4)) + seq![','] + opt_str_field("f_comments"@, opt_of(x.comments)) + seq![','], key_prefix("Ergazomenoi"@));
        lemma_shift(p, seq![','] + opt_str_field("f_kad_deyt_3"@, opt_of(x.business_secondary_activity_code_3)) + seq![','] + opt_str_field("f_kad_deyt_4"@, opt_of(x.business_secondary_activity_code_4)) + seq![','] + opt_str_field("f_comments"@, opt_of(x.comments)) + seq![','] + key_prefix("Ergazomenoi"@), seq!['{']);
        lemma_shift(p, seq![','] + opt_str_field("f_kad_deyt_3"@, opt_of(x.business_secondary_activity_code_3)) + seq![','] + opt_str_field("f_kad_deyt_4"@, opt_of(x.business_secondary_activity_code_4)) + seq![','] + opt_str_field("f_comments"@, opt_of(x.comments)) + seq![','] + key_prefix("Ergazomenoi"@) + seq!['{'], key_prefix("OvertimeErgazomenosDate"@));
        lemma_shift(p, seq![','] + opt_str_field("f_kad_deyt_3"@, opt_of(x.business_secondary_activity_code_3)) + seq![','] + opt_str_field("f_kad_deyt_4"@, opt_of(x.business_secondary_activity_code_4)) + seq![','] + opt_str_field("f_comments"@, opt_of(x.comments)) + seq![','] + key_prefix("Ergazomenoi"@) + seq!['{'] + key_prefix("OvertimeErgazomenosDate"@), crate::wire::arr(wires_of(x.employee_overtimes@)));
        lemma_shift(p, seq![','] + opt_str_field("f_kad_deyt_3"@, opt_of(x.business_secondary_activity_code_3)) + seq![','] + opt_str_field("f_kad_deyt_4"@, opt_of(x.business_secondary_activity_code_4)) + seq![','] + opt_str_field("f_comments"@, opt_of(x.comments)) + seq![','] + key_prefix("Ergazomenoi"@) + seq!['{'] + key_prefix("OvertimeErgazomenosDate"@) + crate::wire::arr(wires_of(x.employee_overtimes@)), seq!['}']);
        lemma_shift(p, seq![','] + opt_str_field("f_kad_deyt_3"@, opt_of(x.business_secondary_activity_code_3)) + seq![','] + opt_str_field("f_kad_deyt_4"@, opt_of(x.business_secondary_activity_code_4)) + seq![','] + opt_str_field("f_comments"@, opt_of(x.comments)) + seq![','] + key_prefix("Ergazomenoi"@) + seq!['{'] + key_prefix("OvertimeErgazomenosDate"@) + crate::wire::arr(wires_of(x.employee_overtimes@)) + seq!['}'], seq!['}']);
        assert(x.wire() == (a + str_field("f_kad_deyt_2"@, Seq::empty())) + (seq![','] + opt_str_field("f_kad_deyt_3"@, opt_of(x.business_secondary_activity_code_3)) + seq![','] + opt_str_field("f_kad_deyt_4"@, opt_of(x.business_secondary_activity_code_4)) + seq![','] + opt_str_field("f_comments"@, opt_of(x.comments)) + seq![','] + key_prefix("Ergazomenoi"@) + seq!['{'] + key_prefix("OvertimeErgazomenosDate"@) + crate::wire::arr(wires_of(x.employee_overtimes@)) + seq!['}'] + seq!['}']));
        lemma_contains_from_split(x.wire(), a, "f_kad_deyt_2"@, seq![','] + opt_str_field("f_kad_deyt_3"@, opt_of(x.business_secondary_activity_code_3)) + seq![','] + opt_str_field("f_kad_deyt_4"@, opt_of(x.business_secondary_activity_code_4)) + seq![','] + opt_str_field("f_comments"@, opt_of(x.comments)) + seq![','] + key_prefix("Ergazomenoi"@) + seq!['{'] + key_prefix("OvertimeErgazomenosDate"@) + crate::wire::arr(wires_of(x.employee_overtimes@)) + seq!['}'] + seq!['}']);
    }
    if x.business_secondary_activity_code_3 is None {
        let a = seq!['{']
            + num_field("f_aa_pararthmatos"@, x.business_branch_number as int)
            + seq![',']
            + str_field("f_ypiresia_sepe"@, x.sepe_service_code@)
            + seq![',']
            + str_field("f_kad_kyria"@, x.business_primary_activity_code@)
            + seq![',']
            + str_field("f_kad_pararthmatos"@, x.business_branch_activity_code@)
            + seq![',']
            + str_field("f_kallikratis_pararthmatos"@, x.kallikratis_municipal_code@)
            + seq![',']
            + str_field("f_afm_proswpoy"@, x.legal_representative_tax_identification_number@)
            + seq![',']
            + opt_str_field("f_rel_protocol"@, opt_of(x.related_protocol_id))
            + seq![',']
            + str_field("f_rel_date"@, opt_date_view(x.related_protocol_date))
            + seq![',']
            + opt_str_field("f_ergodotikh_organwsh"@, opt_of(x.employer_organization))
            + seq![',']
            + opt_str_field("f_kad_deyt_1"@, opt_of(x.business_secondary_activity_code_1))
            + seq![',']
            + opt_str_field("f_kad_deyt_2"@, opt_of(x.business_secondary_activity_code_2))
            + seq![','];
        let p = a + str_field("f_kad_deyt_3"@, Seq::<char>::empty());
        lemma_shift(p, seq![','], opt_str_field("f_kad_deyt_4"@, opt_of(x.business_secondary_activity_code_4)));
        lemma_shift(p, seq![','] + opt_str_field("f_kad_deyt_4"@, opt_of(x.business_secondary_activity_code_4)), seq![',']);
        lemma_shift(p, seq![','] + opt_str_field("f_kad_deyt_4"@, opt_of(x.business_secondary_activity_code_4)) + seq![','], opt_str_field("f_comments"@, opt_of(x.comments)));
        lemma_shift(p, seq![','] + opt_str_field("f_kad_deyt_4"@, opt_of(x.business_secondary_activity_code_4)) + seq![','] + opt_str_field("f_comments"@, opt_of(x.comments)), seq![',']);
        lemma_shift(p, seq![','] + opt_str_field("f_kad_deyt_4"@, opt_of(x.business_secondary_activity_code_4)) + seq![','] + opt_str_field("f_comments"@, opt_of(x.comments)) + seq![','], key_prefix("Ergazomenoi"@));
        lemma_shift(p, seq![','] + opt_str_field("f_kad_deyt_4"@, opt_of(x.business_secondary_activity_code_4)) + seq![','] + opt_str_field("f_comments"@, opt_of(x.comments)) + seq![','] + key_prefix("Ergazomenoi"@), seq!['{']);
        lemma_shift(p, seq![','] + opt_str_field("f_kad_deyt_4"@, opt_of(x.business_secondary_activity_code_4)) + seq![','] + opt_str_field("f_comments"@, opt_of(x.comments)) + seq![','] + key_prefix("Ergazomenoi"@) + seq!['{'], key_prefix("OvertimeErgazomenosDate"@));
        lemma_shift(p, seq![','] + opt_str_field("f_kad_deyt_4"@, opt_of(x.business_secondary_activity_code_4)) + seq![','] + opt_str_field("f_comments"@, opt_of(x.comments)) + seq![','] + key_prefix("Ergazomenoi"@) + seq!['{'] + key_prefix("OvertimeErgazomenosDate"@), crate::wire::arr(wires_of(x.employee_overtimes@)));
        lemma_shift(p, seq![','] + opt_str_field("f_kad_deyt_4"@, opt_of(x.business_secondary_activity_code_4)) + seq![','] + opt_str_field("f_comments"@, opt_of(x.comments)) + seq![','] + key_prefix("Ergazomenoi"@) + seq!['{'] + key_prefix("OvertimeErgazomenosDate"@) + crate::wire::arr(wires_of(x.employee_overtimes@)), seq!['}']);
        lemma_shift(p, seq![','] + opt_str_field("f_kad_deyt_4"@, opt_of(x.business_secondary_activity_code_4)) + seq![','] + opt_str_field("f_comments"@, opt_of(x.comments)) + seq![','] + key_prefix("Ergazomenoi"@) + seq!['{'] + key_prefix("OvertimeErgazomenosDate"@) + crate::wire::arr(wires_of(x.employee_overtimes@)) + seq!['}'], seq!['}']);
        assert(x.wire() == (a + str_field("f_kad_deyt_3"@, Seq::empty())) + (seq![','] + opt_str_field("f_kad_deyt_4"@, opt_of(x.business_secondary_activity_code_4)) + seq![','] + opt_str_field("f_comments"@, opt_of(x.comments)) + seq![','] + key_prefix("Ergazomenoi"@) + seq!['{'] + key_prefix("OvertimeErgazomenosDate"@) + crate::wire::arr(wires_of(x.employee_overtimes@)) + seq!['}'] + seq!['}']));
        lemma_contains_from_split(x.wire(), a, "f_kad_deyt_3"@, seq![','] + opt_str_field("f_kad_deyt_4"@, opt_of(x.business_secondary_activity_code_4)) + seq![','] + opt_str_field("f_comments"@, opt_of(x.comments)) + seq![','] + key_prefix("Ergazomenoi"@) + seq!['{'] + key_prefix("OvertimeErgazomenosDate"@) + crate::wire::arr(wires_of(x.employee_overtimes@)) + seq!['}'] + seq!['}']);
    }
    if x.business_secondary_activity_code_4 is None {
        let a = seq!['{']
            + num_field("f_aa_pararthmatos"@, x.business_branch_number as int)
            + seq![',']
            + str_field("f_ypiresia_sepe"@, x.sepe_service_code@)
            + seq![',']
            + str_field("f_kad_kyria"@, x.business_primary_activity_code@)
            + seq![',']
            + str_field("f_kad_pararthmatos"@, x.business_branch_activity_code@)
            + seq![',']
            + str_field("f_kallikratis_pararthmatos"@, x.kallikratis_municipal_code@)
            + seq![',']
            + str_field("f_afm_proswpoy"@, x.legal_representative_tax_identification_number@)
            + seq![',']
            + opt_str_field("f_rel_protocol"@, opt_of(x.related_protocol_id))
            + seq![',']
            + str_field("f_rel_date"@, opt_date_view(x.related_protocol_date))
            + seq![',']
            + opt_str_field("f_ergodotikh_organwsh"@, opt_of(x.employer_organization))
            + seq![',']
            + opt_str_field("f_kad_deyt_1"@, opt_of(x.business_secondary_activity_code_1))
            + seq![',']
            + opt_str_field("f_kad_deyt_2"@, opt_of(x.business_secondary_activity_code_2))
            + seq![',']
            + opt_str_field("f_kad_deyt_3"@, opt_of(x.business_secondary_activity_code_3))
            + seq![','];
        let p = a + str_field("f_kad_deyt_4"@, Seq::<char>::empty());
        lemma_shift(p, seq![','], opt_str_field("f_comments"@, opt_of(x.comments)));
        lemma_shift(p, seq![','] + opt_str_field("f_comments"@, opt_of(x.comments)), seq![',']);
        lemma_shift(p, seq![','] + opt_str_field("f_comments"@, opt_of(x.comments)) + seq![','], key_prefix("Ergazomenoi"@));
        lemma_shift(p, seq![','] + opt_str_field("f_comments"@, opt_of(x.comments)) + seq![','] + key_prefix("Ergazomenoi"@), seq!['{']);
        lemma_shift(p, seq![','] + opt_str_field("f_comments"@, opt_of(x.comments)) + seq![','] + key_prefix("Ergazomenoi"@) + seq!['{'], key_prefix("OvertimeErgazomenosDate"@));
        lemma_shift(p, seq![','] + opt_str_field("f_comments"@, opt_of(x.comments)) + seq![','] + key_prefix("Ergazomenoi"@) + seq!['{'] + key_prefix("OvertimeErgazomenosDate"@), crate::wire::arr(wires_of(x.employee_overtimes@)));
        lemma_shift(p, seq![','] + opt_str_field("f_comments"@, opt_of(x.comments)) + seq![','] + key_prefix("Ergazomenoi"@) + seq!['{'] + key_prefix("OvertimeErgazomenosDate"@) + crate::wire::arr(wires_of(x.employee_overtimes@)), seq!['}']);
        lemma_shift(p, seq![','] + opt_str_field("f_comments"@, opt_of(x.comments)) + seq![','] + key_prefix("Ergazomenoi"@) + seq!['{'] + key_prefix("OvertimeErgazomenosDate"@) + crate::wire::arr(wires_of(x.employee_overtimes@)) + seq!['}'], seq!['}']);
        assert(x.wire() == (a + str_field("f_kad_deyt_4"@, Seq::empty())) + (seq![','] + opt_str_field("f_comments"@, opt_of(x.comments)) + seq![','] + key_prefix("Ergazomenoi"@) + seq!['{'] + key_prefix("OvertimeErgazomenosDate"@) + crate::wire::arr(wires_of(x.employee_overtimes@)) + seq!['}'] + seq!['}']));
        lemma_contains_from_split(x.wire(), a, "f_kad_deyt_4"@, seq![','] + opt_str_field("f_comments"@, opt_of(x.comments)) + seq![','] + key_prefix("Ergazomenoi"@) + seq!['{'] + key_prefix("OvertimeErgazomenosDate"@) + crate::wire::arr(wires_of(x.employee_overtimes@)) + seq!['}'] + seq!['}']);
    }
    if x.comments is None {
        let a = seq!['{']
            + num_field("f_aa_pararthmatos"@, x.business_branch_number as int)
            + seq![',']
            + str_field("f_ypiresia_sepe"@, x.sepe_service_code@)
            + seq![',']
            + str_field("f_kad_kyria"@, x.business_primary_activity_code@)
            + seq![',']
            + str_field("f_kad_pararthmatos"@, x.business_branch_activity_code@)
            + seq![',']
            + str_field("f_kallikratis_pararthmatos"@, x.kallikratis_municipal_code@)
            + seq![',']
            + str_field("f_afm_proswpoy"@, x.legal_representative_tax_identification_number@)
            + seq![',']
            + opt_str_field("f_rel_protocol"@, opt_of(x.related_protocol_id))
            + seq![',']
            + str_field("f_rel_date"@, opt_date_view(x.related_protocol_date))
            + seq![',']
            + opt_str_field("f_ergodotikh_organwsh"@, opt_of(x.employer_organization))
            + seq![',']
            + opt_str_field("f_kad_deyt_1"@, opt_of(x.business_secondary_activity_code_1))
            + seq![',']
            + opt_str_field("f_kad_deyt_2"@, opt_of(x.business_secondary_activity_code_2))
            + seq![',']
            + opt_str_field("f_kad_deyt_3"@, opt_of(x.business_secondary_activity_code_3))
            + seq![',']
            + opt_str_field("f_kad_deyt_4"@, opt_of(x.business_secondary_activity_code_4))
            + seq![','];
        let p = a + str_field("f_comments"@, Seq::<char>::empty());
        lemma_shift(p, seq![','], key_prefix("Ergazomenoi"@));
        lemma_shift(p, seq![','] + key_prefix("Ergazomenoi"@), seq!['{']);
        lemma_shift(p, seq![','] + key_prefix("Ergazomenoi"@) + seq!['{'], key_prefix("OvertimeErgazomenosDate"@));
        lemma_shift(p, seq![','] + key_prefix("Ergazomenoi"@) + seq!['{'] + key_prefix("OvertimeErgazomenosDate"@), crate::wire::arr(wires_of(x.employee_overtimes@)));
        lemma_shift(p, seq![','] + key_prefix("Ergazomenoi"@) + seq!['{'] + key_prefix("OvertimeErgazomenosDate"@) + crate::wire::arr(wires_of(x.employee_overtimes@)), seq!['}']);
        lemma_shift(p, seq![','] + key_prefix("Ergazomenoi"@) + seq!['{'] + key_prefix("OvertimeErgazomenosDate"@) + crate::wire::arr(wires_of(x.employee_overtimes@)) + seq!['}'], seq!['}']);
        assert(x.wire() == (a + str_field("f_comments"@, Seq::empty())) + (seq![','] + key_prefix("Ergazomenoi"@) + seq!['{'] + key_prefix("OvertimeErgazomenosDate"@) + crate::wire::arr(wires_of(x.employee_overtimes@)) + seq!['}'] + seq!['}']));
        lemma_contains_from_split(x.wire(), a, "f_comments"@, seq![','] + key_prefix("Ergazomenoi"@) + seq!['{'] + key_prefix("OvertimeErgazomenosDate"@) + crate::wire::arr(wires_of(x.employee_overtimes@)) + seq!['}'] + seq!['}']);
    }
}

/// Every optional field of a company daily schedule left unset
/// stands in the wire as its key with an empty-string value.
pub proof fn lemma_company_daily_schedule_blank_optionals(x: CompanyDailySchedule)
    ensures
        x.related_protocol_id is None ==> contains_blank_member(x.wire(), "f_rel_protocol"@),
        x.related_protocol_date is None ==> contains_blank_member(x.wire(), "f_rel_date"@),
        x.comments is None ==> contains_blank_member(x.wire(), "f_comments"@),
        x.start_date is None ==> contains_blank_member(x.wire(), "f_from_date"@),
        x.end_date is None ==> contains_blank_member(x.wire(), "f_to_date"@),
{
    if x.related_protocol_id is None {
        let a = seq!['{']
            + num_field("f_aa_pararthmatos"@, x.business_branch_number as int)
            + seq![','];
        let p = a + str_field("f_rel_protocol"@, Seq::<char>::empty());
        lemma_shift(p, seq![','], str_field("f_rel_date"@, opt_date_view(x.related_protocol_date)));
        lemma_shift(p, seq![','] + str_field("f_rel_date"@, opt_date_view(x.related_protocol_date)), seq![',']);
        lemma_shift(p, seq![','] + str_field("f_rel_date"@, opt_date_view(x.related_protocol_date)) + seq![','], opt_str_field("f_comments"@, opt_of(x.comments)));
        lemma_shift(p, seq![','] + str_field("f_rel_date"@, opt_date_view(x.related_protocol_date)) + seq![','] + opt_str_field("f_comments"@, opt_of(x.comments)), seq![',']);
        lemma_shift(p, seq![','] + str_field("f_rel_date"@, opt_date_view(x.related_protocol_date)) + seq![','] + opt_str_field("f_comments"@, opt_of(x.comments)) + seq![','], str_field("f_from_date"@, opt_date_view(x.start_date)));
        lemma_shift(p, seq![','] + str_field("f_rel_date"@, opt_date_view(x.related_protocol_date)) + seq![','] + opt_str_field("f_comments"@, opt_of(x.comments)) + seq![','] + str_field("f_from_date"@, opt_date_view(x.start_date)), seq![',']);
        lemma_shift(p, seq![','] + str_field("f_rel_date"@, opt_date_view(x.related_protocol_date)) + seq![','] + opt_str_field("f_comments"@, opt_of(x.comments)) + seq![','] + str_field("f_from_date"@, opt_date_view(x.start_date)) + seq![','], str_field("f_to_date"@, opt_date_view(x.end_date)));
        lemma_shift(p, seq![','] + str_field("f_rel_date"@, opt_date_view(x.related_protocol_date)) + seq![','] + opt_str_field("f_comments"@, opt_of(x.comments)) + seq![','] + str_field("f_from_date"@, opt_date_view(x.start_date)) + seq![','] + str_field("f_to_date"@, opt_date_view(x.end_date)), seq![',']);
        lemma_shift(p, seq![','] + str_field("f_rel_date"@, opt_date_view(x.related_protocol_date)) + seq![','] + opt_str_field("f_comments"@, opt_of(x.comments)) + seq![','] + str_field("f_from_date"@, opt_date_view(x.start_date)) + seq![','] + str_field("f_to_date"@, opt_date_view(x.end_date)) + seq![','], key_prefix("Ergazomenoi"@));
        lemma_shift(p, seq![','] + str_field("f_rel_date"@, opt_date_view(x.related_protocol_date)) + seq![','] + opt_str_field("f_comments"@, opt_of(x.comments)) + seq![','] + str_field("f_from_date"@, opt_date_view(x.start_date)) + seq![','] + str_field("f_to_date"@, opt_date_view(x.end_date)) + seq![','] + key_prefix("Ergazomenoi"@), seq!['{']);
        lemma_shift(p, seq![','] + str_field("f_rel_date"@, opt_date_view(x.related_protocol_date)) + seq![','] + opt_str_field("f_comments"@, opt_of(x.comments)) + seq![','] + str_field("f_from_date"@, opt_date_view(x.start_date)) + seq![','] + str_field("f_to_date"@, opt_date_view(x.end_date)) + seq![','] + key_prefix("Ergazomenoi"@) + seq!['{'], key_prefix("ErgazomenoiWTO"@));
        lemma_shift(p, seq![','] + str_field("f_rel_date"@, opt_date_view(x.related_protocol_date)) + seq![','] + opt_str_field("f_comments"@, opt_of(x.comments)) + seq![','] + str_field("f_from_date"@, opt_date_view(x.start_date)) + seq![','] + str_field("f_to_date"@, opt_date_view(x.end_date)) + seq![','] + key_prefix("Ergazomenoi"@) + seq!['{'] + key_prefix("ErgazomenoiWTO"@), crate::wire::arr(wires_of(x.employee_schedules@)));
        lemma_shift(p, seq![','] + str_field("f_rel_date"@, opt_date_view(x.related_protocol_date)) + seq![','] + opt_str_field("f_comments"@, opt_of(x.comments)) + seq![','] + str_field("f_from_date"@, opt_date_view(x.start_date)) + seq![','] + str_field("f_to_date"@, opt_date_view(x.end_date)) + seq![','] + key_prefix("Ergazomenoi"@) + seq!['{'] + key_prefix("ErgazomenoiWTO"@) + crate::wire::arr(wires_of(x.employee_schedules@)), seq!['}']);
        lemma_shift(p, seq![','] + str_field("f_rel_date"@, opt_date_view(x.related_protocol_date)) + seq![','] + opt_str_field("f_comments"@, opt_of(x.comments)) + seq![','] + str_field("f_from_date"@, opt_date_view(x.start_date)) + seq![','] + str_field("f_to_date"@, opt_date_view(x.end_date)) + seq![','] + key_prefix("Ergazomenoi"@) + seq!['{'] + key_prefix("ErgazomenoiWTO"@) + crate::wire::arr(wires_of(x.employee_schedules@)) + seq!['}'], seq!['}']);
        assert(x.wire() == (a + str_field("f_rel_protocol"@, Seq::empty())) + (seq![','] + str_field("f_rel_date"@, opt_date_view(x.related_protocol_date)) + seq![','] + opt_str_field("f_comments"@, opt_of(x.comments)) + seq![','] + str_field("f_from_date"@, opt_date_view(x.start_date)) + seq![','] + str_field("f_to_date"@, opt_date_view(x.end_date)) + seq![','] + key_prefix("Ergazomenoi"@) + seq!['{'] + key_prefix("ErgazomenoiWTO"@) + crate::wire::arr(wires_of(x.employee_schedules@)) + seq!['}'] + seq!['}']));
        lemma_contains_from_split(x.wire(), a, "f_rel_protocol"@, seq![','] + str_field("f_rel_date"@, opt_date_view(x.related_protocol_date)) + seq![','] + opt_str_field("f_comments"@, opt_of(x.comments)) + seq![','] + str_field("f_from_date"@, opt_date_view(x.start_date)) + seq![','] + str_field("f_to_date"@, opt_date_view(x.end_date)) + seq![','] + key_prefix("Ergazomenoi"@) + seq!['{'] + key_prefix("ErgazomenoiWTO"@) + crate::wire::arr(wires_of(x.employee_schedules@)) + seq!['}'] + seq!['}']);
    }
    if x.related_protocol_date is None {
        let a = seq!['{']
            + num_field("f_aa_pararthmatos"@, x.business_branch_number as int)
            + seq![',']
            + opt_str_field("f_rel_protocol"@, opt_of(x.related_protocol_id))
            + seq![','];
        let p = a + str_field("f_rel_date"@, Seq::<char>::empty());
        lemma_shift(p, seq![','], opt_str_field("f_comments"@, opt_of(x.comments)));
        lemma_shift(p, seq![','] + opt_str_field("f_comments"@, opt_of(x.comments)), seq![',']);
        lemma_shift(p, seq![','] + opt_str_field("f_comments"@, opt_of(x.comments)) + seq![','], str_field("f_from_date"@, opt_date_view(x.start_date)));
        lemma_shift(p, seq![','] + opt_str_field("f_comments"@, opt_of(x.comments)) + seq![','] + str_field("f_from_date"@, opt_date_view(x.start_date)), seq![',']);
        lemma_shift(p, seq![','] + opt_str_field("f_comments"@, opt_of(x.comments)) + seq![','] + str_field("f_from_date"@, opt_date_view(x.start_date)) + seq![','], str_field("f_to_date"@, opt_date_view(x.end_date)));
        lemma_shift(p, seq![','] + opt_str_field("f_comments"@, opt_of(x.comments)) + seq![','] + str_field("f_from_date"@, opt_date_view(x.start_date)) + seq![','] + str_field("f_to_date"@, opt_date_view(x.end_date)), seq![',']);
        lemma_shift(p, seq![','] + opt_str_field("f_comments"@, opt_of(x.comments)) + seq![','] + str_field("f_from_date"@, opt_date_view(x.start_date)) + seq![','] + str_field("f_to_date"@, opt_date_view(x.end_date)) + seq![','], key_prefix("Ergazomenoi"@));
        lemma_shift(p, seq![','] + opt_str_field("f_comments"@, opt_of(x.comments)) + seq![','] + str_field("f_from_date"@, opt_date_view(x.start_date)) + seq![','] + str_field("f_to_date"@, opt_date_view(x.end_date)) + seq![','] + key_prefix("Ergazomenoi"@), seq!['{']);
        lemma_shift(p, seq![','] + opt_str_field("f_comments"@, opt_of(x.comments)) + seq![','] + str_field("f_from_date"@, opt_date_view(x.start_date)) + seq![','] + str_field("f_to_date"@, opt_date_view(x.end_date)) + seq![','] + key_prefix("Ergazomenoi"@) + seq!['{'], key_prefix("ErgazomenoiWTO"@));
        lemma_shift(p, seq![','] + opt_str_field("f_comments"@, opt_of(x.comments)) + seq![','] + str_field("f_from_date"@, opt_date_view(x.start_date)) + seq![','] + str_field("f_to_date"@, opt_date_view(x.end_date)) + seq![','] + key_prefix("Ergazomenoi"@) + seq!['{'] + key_prefix("ErgazomenoiWTO"@), crate::wire::arr(wires_of(x.employee_schedules@)));
        lemma_shift(p, seq![','] + opt_str_field("f_comments"@, opt_of(x.comments)) + seq![','] + str_field("f_from_date"@, opt_date_view(x.start_date)) + seq![','] + str_field("f_to_date"@, opt_date_view(x.end_date)) + seq![','] + key_prefix("Ergazomenoi"@) + seq!['{'] + key_prefix("ErgazomenoiWTO"@) + crate::wire::arr(wires_of(x.employee_schedules@)), seq!['}']);
        lemma_shift(p, seq![','] + opt_str_field("f_comments"@, opt_of(x.comments)) + seq![','] + str_field("f_from_date"@, opt_date_view(x.start_date)) + seq![','] + str_field("f_to_date"@, opt_date_view(x.end_date)) + seq![','] + key_prefix("Ergazomenoi"@) + seq!['{'] + key_prefix("ErgazomenoiWTO"@) + crate::wire::arr(wires_of(x.employee_schedules@)) + seq!['}'], seq!['}']);
        assert(x.wire() == (a + str_field("f_rel_date"@, Seq::empty())) + (seq![','] + opt_str_field("f_comments"@, opt_of(x.comments)) + seq![','] + str_field("f_from_date"@, opt_date_view(x.start_date)) + seq![','] + str_field("f_to_date"@, opt_date_view(x.end_date)) + seq![','] + key_prefix("Ergazomenoi"@) + seq!['{'] + key_prefix("ErgazomenoiWTO"@) + crate::wire::arr(wires_of(x.employee_schedules@)) + seq!['}'] + seq!['}']));
        lemma_contains_from_split(x.wire(), a, "f_rel_date"@, seq![','] + opt_str_field("f_comments"@, opt_of(x.comments)) + seq![','] + str_field("f_from_date"@, opt_date_view(x.start_date)) + seq![','] + str_field("f_to_date"@, opt_date_view(x.end_date)) + seq![','] + key_prefix("Ergazomenoi"@) + seq!['{'] + key_prefix("ErgazomenoiWTO"@) + crate::wire::arr(wires_of(x.employee_schedules@)) + seq!['}'] + seq!['}']);
    }
    if x.comments is None {
        let a = seq!['{']
            + num_field("f_aa_pararthmatos"@, x.business_branch_number as int)
            + seq![',']
            + opt_str_field("f_rel_protocol"@, opt_of(x.related_protocol_id))
            + seq![',']
            + str_field("f_rel_date"@, opt_date_view(x.related_protocol_date))
            + seq![','];
        let p = a + str_field("f_comments"@, Seq::<char>::empty());
        lemma_shift(p, seq![','], str_field("f_from_date"@, opt_date_view(x.start_date)));
        lemma_shift(p, seq![','] + str_field("f_from_date"@, opt_date_view(x.start_date)), seq![',']);
        lemma_shift(p, seq![','] + str_field("f_from_date"@, opt_date_view(x.start_date)) + seq![','], str_field("f_to_date"@, opt_date_view(x.end_date)));
        lemma_shift(p, seq![','] + str_field("f_from_date"@, opt_date_view(x.start_date)) + seq![','] + str_field("f_to_date"@, opt_date_view(x.end_date)), seq![',']);
        lemma_shift(p, seq![','] + str_field("f_from_date"@, opt_date_view(x.start_date)) + seq![','] + str_field("f_to_date"@, opt_date_view(x.end_date)) + seq![','], key_prefix("Ergazomenoi"@));
        lemma_shift(p, seq![','] + str_field("f_from_date"@, opt_date_view(x.start_date)) + seq![','] + str_field("f_to_date"@, opt_date_view(x.end_date)) + seq![','] + key_prefix("Ergazomenoi"@), seq!['{']);
        lemma_shift(p, seq![','] + str_field("f_from_date"@, opt_date_view(x.start_date)) + seq![','] + str_field("f_to_date"@, opt_date_view(x.end_date)) + seq![','] + key_prefix("Ergazomenoi"@) + seq!['{'], key_prefix("ErgazomenoiWTO"@));
        lemma_shift(p, seq![','] + str_field("f_from_date"@, opt_date_view(x.start_date)) + seq![','] + str_field("f_to_date"@, opt_date_view(x.end_date)) + seq![','] + key_prefix("Ergazomenoi"@) + seq!['{'] + key_prefix("ErgazomenoiWTO"@), crate::wire::arr(wires_of(x.employee_schedules@)));
        lemma_shift(p, seq![','] + str_field("f_from_date"@, opt_date_view(x.start_date)) + seq![','] + str_field("f_to_date"@, opt_date_view(x.end_date)) + seq![','] + key_prefix("Ergazomenoi"@) + seq!['{'] + key_prefix("ErgazomenoiWTO"@) + crate::wire::arr(wires_of(x.employee_schedules@)), seq!['}']);
        lemma_shift(p, seq![','] + str_field("f_from_date"@, opt_date_view(x.start_date)) + seq![','] + str_field("f_to_date"@, opt_date_view(x.end_date)) + seq![','] + key_prefix("Ergazomenoi"@) + seq!['{'] + key_prefix("ErgazomenoiWTO"@) + crate::wire::arr(wires_of(x.employee_schedules@)) + seq!['}'], seq!['}']);
        assert(x.wire() == (a + str_field("f_comments"@, Seq::empty())) + (seq![','] + str_field("f_from_date"@, opt_date_view(x.start_date)) + seq![','] + str_field("f_to_date"@, opt_date_view(x.end_date)) + seq![','] + key_prefix("Ergazomenoi"@) + seq!['{'] + key_prefix("ErgazomenoiWTO"@) + crate::wire::arr(wires_of(x.employee_schedules@)) + seq!['}'] + seq!['}']));
        lemma_contains_from_split(x.wire(), a, "f_comments"@, seq![','] + str_field("f_from_date"@, opt_date_view(x.start_date)) + seq![','] + str_field("f_to_date"@, opt_date_view(x.end_date)) + seq![','] + key_prefix("Ergazomenoi"@) + seq!['{'] + key_prefix("ErgazomenoiWTO"@) + crate::wire::arr(wires_of(x.employee_schedules@)) + seq!['}'] + seq!['}']);
    }
    if x.start_date is None {
        let a = seq!['{']
            + num_field("f_aa_pararthmatos"@, x.business_branch_number as int)
            + seq![',']
            + opt_str_field("f_rel_protocol"@, opt_of(x.related_protocol_id))
            + seq![',']
            + str_field("f_rel_date"@, opt_date_view(x.related_protocol_date))
            + seq![',']
            + opt_str_field("f_comments"@, opt_of(x.comments))
            + seq![','];
        let p = a + str_field("f_from_date"@, Seq::<char>::empty());
        lemma_shift(p, seq![','], str_field("f_to_date"@, opt_date_view(x.end_date)));
        lemma_shift(p, seq![','] + str_field("f_to_date"@, opt_date_view(x.end_date)), seq![',']);
        lemma_shift(p, seq![','] + str_field("f_to_date"@, opt_date_view(x.end_date)) + seq![','], key_prefix("Ergazomenoi"@));
        lemma_shift(p, seq![','] + str_field("f_to_date"@, opt_date_view(x.end_date)) + seq![','] + key_prefix("Ergazomenoi"@), seq!['{']);
        lemma_shift(p, seq![','] + str_field("f_to_date"@, opt_date_view(x.end_date)) + seq![','] + key_prefix("Ergazomenoi"@) + seq!['{'], key_prefix("ErgazomenoiWTO"@));
        lemma_shift(p, seq![','] + str_field("f_to_date"@, opt_date_view(x.end_date)) + seq![','] + key_prefix("Ergazomenoi"@) + seq!['{'] + key_prefix("ErgazomenoiWTO"@), crate::wire::arr(wires_of(x.employee_schedules@)));
        lemma_shift(p, seq![','] + str_field("f_to_date"@, opt_date_view(x.end_date)) + seq![','] + key_prefix("Ergazomenoi"@) + seq!['{'] + key_prefix("ErgazomenoiWTO"@) + crate::wire::arr(wires_of(x.employee_schedules@)), seq!['}']);
        lemma_shift(p, seq![','] + str_field("f_to_date"@, opt_date_view(x.end_date)) + seq![','] + key_prefix("Ergazomenoi"@) + seq!['{'] + key_prefix("ErgazomenoiWTO"@) + crate::wire::arr(wires_of(x.employee_schedules@)) + seq!['}'], seq!['}']);
        assert(x.wire() == (a + str_field("f_from_date"@, Seq::empty())) + (seq![','] + str_field("f_to_date"@, opt_date_view(x.end_date)) + seq![','] + key_prefix("Ergazomenoi"@) + seq!['{'] + key_prefix("ErgazomenoiWTO"@) + crate::wire::arr(wires_of(x.employee_schedules@)) + seq!['}'] + seq!['}']));
        lemma_contains_from_split(x.wire(), a, "f_from_date"@, seq![','] + str_field("f_to_date"@, opt_date_view(x.end_date)) + seq![','] + key_prefix("Ergazomenoi"@) + seq!['{'] + key_prefix("ErgazomenoiWTO"@) + crate::wire::arr(wires_of(x.employee_schedules@)) + seq!['}'] + seq!['}']);
    }
    if x.end_date is None {
        let a = seq!['{']
            + num_field("f_aa_pararthmatos"@, x.business_branch_number as int)
            + seq![',']
            + opt_str_field("f_rel_protocol"@, opt_of(x.related_protocol_id))
            + seq![',']
            + str_field("f_rel_date"@, opt_date_view(x.related_protocol_date))
            + seq![',']
            + opt_str_field("f_comments"@, opt_of(x.comments))
            + seq![',']
            + str_field("f_from_date"@, opt_date_view(x.start_date))
            + seq![','];
        let p = a + str_field("f_to_date"@, Seq::<char>::empty());
        lemma_shift(p, seq![','], key_prefix("Ergazomenoi"@));
        lemma_shift(p, seq![','] + key_prefix("Ergazomenoi"@), seq!['{']);
        lemma_shift(p, seq![','] + key_prefix("Ergazomenoi"@) + seq!['{'], key_prefix("ErgazomenoiWTO"@));
        lemma_shift(p, seq![','] + key_prefix("Ergazomenoi"@) + seq!['{'] + key_prefix("ErgazomenoiWTO"@), crate::wire::arr(wires_of(x.employee_schedules@)));
        lemma_shift(p, seq![','] + key_prefix("Ergazomenoi"@) + seq!['{'] + key_prefix("ErgazomenoiWTO"@) + crate::wire::arr(wires_of(x.employee_schedules@)), seq!['}']);
        lemma_shift(p, seq![','] + key_prefix("Ergazomenoi"@) + seq!['{'] + key_prefix("ErgazomenoiWTO"@) + crate::wire::arr(wires_of(x.employee_schedules@)) + seq!['}'], seq!['}']);
        assert(x.wire() == (a + str_field("f_to_date"@, Seq::empty())) + (seq![','] + key_prefix("Ergazomenoi"@) + seq!['{'] + key_prefix("ErgazomenoiWTO"@) + crate::wire::arr(wires_of(x.employee_schedules@)) + seq!['}'] + seq!['}']));
        lemma_contains_from_split(x.wire(), a, "f_to_date"@, seq![','] + key_prefix("Ergazomenoi"@) + seq!['{'] + key_prefix("ErgazomenoiWTO"@) + crate::wire::arr(wires_of(x.employee_schedules@)) + seq!['}'] + seq!['}']);
    }
}

/// Every optional field of a company weekly schedule left unset
/// stands in the wire as its key with an empty-string value.
pub proof fn lemma_company_weekly_schedule_blank_optionals(x: CompanyWeeklySchedule)
    ensures
        x.related_protocol_id is None ==> contains_blank_member(x.wire(), "f_rel_protocol"@),
        x.related_protocol_date is None ==> contains_blank_member(x.wire(), "f_rel_date"@),
        x.comments is None ==> contains_blank_member(x.wire(), "f_comments"@),
{
    if x.related_protocol_id is None {
        let a = seq!['{']
            + num_field("f_aa_pararthmatos"@, x.business_branch_number as int)
            + seq![','];
        let p = a + str_field("f_rel_protocol"@, Seq::<char>::empty());
        lemma_shift(p, seq![','], str_field("f_rel_date"@, opt_date_view(x.related_protocol_date)));
        lemma_shift(p, seq![','] + str_field("f_rel_date"@, opt_date_view(x.related_protocol_date)), seq![',']);
        lemma_shift(p, seq![','] + str_field("f_rel_date"@, opt_date_view(x.related_protocol_date)) + seq![','], opt_str_field("f_comments"@, opt_of(x.comments)));
        lemma_shift(p, seq![','] + str_field("f_rel_date"@, opt_date_view(x.related_protocol_date)) + seq![','] + opt_str_field("f_comments"@, opt_of(x.comments)), seq![',']);
        lemma_shift(p, seq![','] + str_field("f_rel_date"@, opt_date_view(x.related_protocol_date)) + seq![','] + opt_str_field("f_comments"@, opt_of(x.comments)) + seq![','], str_field("f_from_date"@, crate::dates::date_dmy(x.start_date)));
        lemma_shift(p, seq![','] + str_field("f_rel_date"@, opt_date_view(x.related_protocol_date)) + seq![','] + opt_str_field("f_comments"@, opt_of(x.comments)) + seq![','] + str_field("f_from_date"@, crate::dates::date_dmy(x.start_date)), seq![',']);
        lemma_shift(p, seq![','] + str_field("f_rel_date"@, opt_date_view(x.related_protocol_date)) + seq![','] + opt_str_field("f_comments"@, opt_of(x.comments)) + seq![','] + str_field("f_from_date"@, crate::dates::date_dmy(x.start_date)) + seq![','], str_field("f_to_date"@, crate::dates::date_dmy(x.end_date)));
        lemma_shift(p, seq![','] + str_field("f_rel_date"@, opt_date_view(x.related_protocol_date)) + seq![','] + opt_str_field("f_comments"@, opt_of(x.comments)) + seq![','] + str_field("f_from_date"@, crate::dates::date_dmy(x.start_date)) + seq![','] + str_field("f_to_date"@, crate::dates::date_dmy(x.end_date)), seq![',']);
        lemma_shift(p, seq![','] + str_field("f_rel_date"@, opt_date_view(x.related_protocol_date)) + seq![','] + opt_str_field("f_comments"@, opt_of(x.comments)) + seq![','] + str_field("f_from_date"@, crate::dates::date_dmy(x.start_date)) + seq![','] + str_field("f_to_date"@, crate::dates::date_dmy(x.end_date)) + seq![','], key_prefix("Ergazomenoi"@));
        lemma_shift(p, seq![','] + str_field("f_rel_date"@, opt_date_view(x.related_protocol_date)) + seq![','] + opt_str_field("f_comments"@, opt_of(x.comments)) + seq![','] + str_field("f_from_date"@, crate::dates::date_dmy(x.start_date)) + seq![','] + str_field("f_to_date"@, crate::dates::date_dmy(x.end_date)) + seq![','] + key_prefix("Ergazomenoi"@), seq!['{']);
        lemma_shift(p, seq![','] + str_field("f_rel_date"@, opt_date_view(x.related_protocol_date)) + seq![','] + opt_str_field("f_comments"@, opt_of(x.comments)) + seq![','] + str_field("f_from_date"@, crate::dates::date_dmy(x.start_date)) + seq![','] + str_field("f_to_date"@, crate::dates::date_dmy(x.end_date)) + seq![','] + key_prefix("Ergazomenoi"@) + seq!['{'], key_prefix("ErgazomenoiWTO"@));
        lemma_shift(p, seq![','] + str_field("f_rel_date"@, opt_date_view(x.related_protocol_date)) + seq![','] + opt_str_field("f_comments"@, opt_of(x.comments)) + seq![','] + str_field("f_from_date"@, crate::dates::date_dmy(x.start_date)) + seq![','] + str_field("f_to_date"@, crate::dates::date_dmy(x.end_date)) + seq![','] + key_prefix("Ergazomenoi"@) + seq!['{'] + key_prefix("ErgazomenoiWTO"@), crate::wire::arr(wires_of(x.employee_schedules@)));
        lemma_shift(p, seq![','] + str_field("f_rel_date"@, opt_date_view(x.related_protocol_date)) + seq![','] + opt_str_field("f_comments"@, opt_of(x.comments)) + seq![','] + str_field("f_from_date"@, crate::dates::date_dmy(x.start_date)) + seq![','] + str_field("f_to_date"@, crate::dates::date_dmy(x.end_date)) + seq![','] + key_prefix("Ergazomenoi"@) + seq!['{'] + key_prefix("ErgazomenoiWTO"@) + crate::wire::arr(wires_of(x.employee_schedules@)), seq!['}']);
        lemma_shift(p, seq![','] + str_field("f_rel_date"@, opt_date_view(x.related_protocol_date)) + seq![','] + opt_str_field("f_comments"@, opt_of(x.comments)) + seq![','] + str_field("f_from_date"@, crate::dates::date_dmy(x.start_date)) + seq![','] + str_field("f_to_date"@, crate::dates::date_dmy(x.end_date)) + seq![','] + key_prefix("Ergazomenoi"@) + seq!['{'] + key_prefix("ErgazomenoiWTO"@) + crate::wire::arr(wires_of(x.employee_schedules@)) + seq!['}'], seq!['}']);
        assert(x.wire() == (a + str_field("f_rel_protocol"@, Seq::empty())) + (seq![','] + str_field("f_rel_date"@, opt_date_view(x.related_protocol_date)) + seq![','] + opt_str_field("f_comments"@, opt_of(x.comments)) + seq![','] + str_field("f_from_date"@, crate::dates::date_dmy(x.start_date)) + seq![','] + str_field("f_to_date"@, crate::dates::date_dmy(x.end_date)) + seq![','] + key_prefix("Ergazomenoi"@) + seq!['{'] + key_prefix("ErgazomenoiWTO"@) + crate::wire::arr(wires_of(x.employee_schedules@)) + seq!['}'] + seq!['}']));
        lemma_contains_from_split(x.wire(), a, "f_rel_protocol"@, seq![','] + str_field("f_rel_date"@, opt_date_view(x.related_protocol_date)) + seq![','] + opt_str_field("f_comments"@, opt_of(x.comments)) + seq![','] + str_field("f_from_date"@, crate::dates::date_dmy(x.start_date)) + seq![','] + str_field("f_to_date"@, crate::dates::date_dmy(x.end_date)) + seq![','] + key_prefix("Ergazomenoi"@) + seq!['{'] + key_prefix("ErgazomenoiWTO"@) + crate::wire::arr(wires_of(x.employee_schedules@)) + seq!['}'] + seq!['}']);
    }
    if x.related_protocol_date is None {
        let a = seq!['{']
            + num_field("f_aa_pararthmatos"@, x.business_branch_number as int)
            + seq![',']
            + opt_str_field("f_rel_protocol"@, opt_of(x.related_protocol_id))
            + seq![','];
        let p = a + str_field("f_rel_date"@, Seq::<char>::empty());
        lemma_shift(p, seq![','], opt_str_field("f_comments"@, opt_of(x.comments)));
        lemma_shift(p, seq![','] + opt_str_field("f_comments"@, opt_of(x.comments)), seq![',']);
        lemma_shift(p, seq![','] + opt_str_field("f_comments"@, opt_of(x.comments)) + seq![','], str_field("f_from_date"@, crate::dates::date_dmy(x.start_date)));
        lemma_shift(p, seq![','] + opt_str_field("f_comments"@, opt_of(x.comments)) + seq![','] + str_field("f_from_date"@, crate::dates::date_dmy(x.start_date)), seq![',']);
        lemma_shift(p, seq![','] + opt_str_field("f_comments"@, opt_of(x.comments)) + seq![','] + str_field("f_from_date"@, crate::dates::date_dmy(x.start_date)) + seq![','], str_field("f_to_date"@, crate::dates::date_dmy(x.end_date)));
        lemma_shift(p, seq![','] + opt_str_field("f_comments"@, opt_of(x.comments)) + seq![','] + str_field("f_from_date"@, crate::dates::date_dmy(x.start_date)) + seq![','] + str_field("f_to_date"@, crate::dates::date_dmy(x.end_date)), seq![',']);
        lemma_shift(p, seq![','] + opt_str_field("f_comments"@, opt_of(x.comments)) + seq![','] + str_field("f_from_date"@, crate::dates::date_dmy(x.start_date)) + seq![','] + str_field("f_to_date"@, crate::dates::date_dmy(x.end_date)) + seq![','], key_prefix("Ergazomenoi"@));
        lemma_shift(p, seq![','] + opt_str_field("f_comments"@, opt_of(x.comments)) + seq![','] + str_field("f_from_date"@, crate::dates::date_dmy(x.start_date)) + seq![','] + str_field("f_to_date"@, crate::dates::date_dmy(x.end_date)) + seq![','] + key_prefix("Ergazomenoi"@), seq!['{']);
        lemma_shift(p, seq![','] + opt_str_field("f_comments"@, opt_of(x.comments)) + seq![','] + str_field("f_from_date"@, crate::dates::date_dmy(x.start_date)) + seq![','] + str_field("f_to_date"@, crate::dates::date_dmy(x.end_date)) + seq![','] + key_prefix("Ergazomenoi"@) + seq!['{'], key_prefix("ErgazomenoiWTO"@));
        lemma_shift(p, seq![','] + opt_str_field("f_comments"@, opt_of(x.comments)) + seq![','] + str_field("f_from_date"@, crate::dates::date_dmy(x.start_date)) + seq![','] + str_field("f_to_date"@, crate::dates::date_dmy(x.end_date)) + seq![','] + key_prefix("Ergazomenoi"@) + seq!['{'] + key_prefix("ErgazomenoiWTO"@), crate::wire::arr(wires_of(x.employee_schedules@)));
        lemma_shift(p, seq![','] + opt_str_field("f_comments"@, opt_of(x.comments)) + seq![','] + str_field("f_from_date"@, crate::dates::date_dmy(x.start_date)) + seq![','] + str_field("f_to_date"@, crate::dates::date_dmy(x.end_date)) + seq![','] + key_prefix("Ergazomenoi"@) + seq!['{'] + key_prefix("ErgazomenoiWTO"@) + crate::wire::arr(wires_of(x.employee_schedules@)), seq!['}']);
        lemma_shift(p, seq![','] + opt_str_field("f_comments"@, opt_of(x.comments)) + seq![','] + str_field("f_from_date"@, crate::dates::date_dmy(x.start_date)) + seq![','] + str_field("f_to_date"@, crate::dates::date_dmy(x.end_date)) + seq![','] + key_prefix("Ergazomenoi"@) + seq!['{'] + key_prefix("ErgazomenoiWTO"@) + crate::wire::arr(wires_of(x.employee_schedules@)) + seq!['}'], seq!['}']);
        assert(x.wire() == (a + str_field("f_rel_date"@, Seq::empty())) + (seq![','] + opt_str_field("f_comments"@, opt_of(x.comments)) + seq![','] + str_field("f_from_date"@, crate::dates::date_dmy(x.start_date)) + seq![','] + str_field("f_to_date"@, crate::dates::date_dmy(x.end_date)) + seq![','] + key_prefix("Ergazomenoi"@) + seq!['{'] + key_prefix("ErgazomenoiWTO"@) + crate::wire::arr(wires_of(x.employee_schedules@)) + seq!['}'] + seq!['}']));
        lemma_contains_from_split(x.wire(), a, "f_rel_date"@, seq![','] + opt_str_field("f_comments"@, opt_of(x.comments)) + seq![','] + str_field("f_from_date"@, crate::dates::date_dmy(x.start_date)) + seq![','] + str_field("f_to_date"@, crate::dates::date_dmy(x.end_date)) + seq![','] + key_prefix("Ergazomenoi"@) + seq!['{'] + key_prefix("ErgazomenoiWTO"@) + crate::wire::arr(wires_of(x.employee_schedules@)) + seq!['}'] + seq!['}']);
    }
    if x.comments is None {
        let a = seq!['{']
            + num_field("f_aa_pararthmatos"@, x.business_branch_number as int)
            + seq![',']
            + opt_str_field("f_rel_protocol"@, opt_of(x.related_protocol_id))
            + seq![',']
            + str_field("f_rel_date"@, opt_date_view(x.related_protocol_date))
            + seq![','];
        let p = a + str_field("f_comments"@, Seq::<char>::empty());
        lemma_shift(p, seq![','], str_field("f_from_date"@, crate::dates::date_dmy(x.start_date)));
        lemma_shift(p, seq![','] + str_field("f_from_date"@, crate::dates::date_dmy(x.start_date)), seq![',']);
        lemma_shift(p, seq![','] + str_field("f_from_date"@, crate::dates::date_dmy(x.start_date)) + seq![','], str_field("f_to_date"@, crate::dates::date_dmy(x.end_date)));
        lemma_shift(p, seq![','] + str_field("f_from_date"@, crate::dates::date_dmy(x.start_date)) + seq![','] + str_field("f_to_date"@, crate::dates::date_dmy(x.end_date)), seq![',']);
        lemma_shift(p, seq![','] + str_field("f_from_date"@, crate::dates::date_dmy(x.start_date)) + seq![','] + str_field("f_to_date"@, crate::dates::date_dmy(x.end_date)) + seq![','], key_prefix("Ergazomenoi"@));
        lemma_shift(p, seq![','] + str_field("f_from_date"@, crate::dates::date_dmy(x.start_date)) + seq![','] + str_field("f_to_date"@, crate::dates::date_dmy(x.end_date)) + seq![','] + key_prefix("Ergazomenoi"@), seq!['{']);
        lemma_shift(p, seq![','] + str_field("f_from_date"@, crate::dates::date_dmy(x.start_date)) + seq![','] + str_field("f_to_date"@, crate::dates::date_dmy(x.end_date)) + seq![','] + key_prefix("Ergazomenoi"@) + seq!['{'], key_prefix("ErgazomenoiWTO"@));
        lemma_shift(p, seq![','] + str_field("f_from_date"@, crate::dates::date_dmy(x.start_date)) + seq![','] + str_field("f_to_date"@, crate::dates::date_dmy(x.end_date)) + seq![','] + key_prefix("Ergazomenoi"@) + seq!['{'] + key_prefix("ErgazomenoiWTO"@), crate::wire::arr(wires_of(x.employee_schedules@)));
        lemma_shift(p, seq![','] + str_field("f_from_date"@, crate::dates::date_dmy(x.start_date)) + seq![','] + str_field("f_to_date"@, crate::dates::date_dmy(x.end_date)) + seq![','] + key_prefix("Ergazomenoi"@) + seq!['{'] + key_prefix("ErgazomenoiWTO"@) + crate::wire::arr(wires_of(x.employee_schedules@)), seq!['}']);
        lemma_shift(p, seq![','] + str_field("f_from_date"@, crate::dates::date_dmy(x.start_date)) + seq![','] + str_field("f_to_date"@, crate::dates::date_dmy(x.end_date)) + seq![','] + key_prefix("Ergazomenoi"@) + seq!['{'] + key_prefix("ErgazomenoiWTO"@) + crate::wire::arr(wires_of(x.employee_schedules@)) + seq!['}'], seq!['}']);
        assert(x.wire() == (a + str_field("f_comments"@, Seq::empty())) + (seq![','] + str_field("f_from_date"@, crate::dates::date_dmy(x.start_date)) + seq![','] + str_field("f_to_date"@, crate::dates::date_dmy(x.end_date)) + seq![','] + key_prefix("Ergazomenoi"@) + seq!['{'] + key_prefix("ErgazomenoiWTO"@) + crate::wire::arr(wires_of(x.employee_schedules@)) + seq!['}'] + seq!['}']));
        lemma_contains_from_split(x.wire(), a, "f_comments"@, seq![','] + str_field("f_from_date"@, crate::dates::date_dmy(x.start_date)) + seq![','] + str_field("f_to_date"@, crate::dates::date_dmy(x.end_date)) + seq![','] + key_prefix("Ergazomenoi"@) + seq!['{'] + key_prefix("ErgazomenoiWTO"@) + crate::wire::arr(wires_of(x.employee_schedules@)) + seq!['}'] + seq!['}']);
    }
}

/// `b` is `a` with an unset optional replaced by the set empty string,
/// or the same value.
pub open spec fn blank_normalized(a: Option<String>, b: Option<String>) -> bool {
    a == b || (a is None && (b matches Some(s) && s@ == Seq::<char>::empty()))
}

/// An employee announcement serializes the same whether an unset
/// optional field is left unset or set to the empty string: the key
/// always stands in the wire with an empty-string value, never a
/// missing key, never a null.
pub proof fn lemma_announcement_blank_equivalence(a: EmployeeAnnouncement, b: EmployeeAnnouncement)
    requires
        a.f_aa_pararthmatos == b.f_aa_pararthmatos,
        blank_normalized(a.f_rel_protocol, b.f_rel_protocol),
        blank_normalized(a.f_rel_date, b.f_rel_date),
        a.f_ypiresia_sepe == b.f_ypiresia_sepe,
        a.f_ypiresia_oaed == b.f_ypiresia_oaed,
        blank_normalized(a.f_ergodotikh_organwsh, b.f_ergodotikh_organwsh),
        a.f_kad_kyria == b.f_kad_kyria,
        blank_normalized(a.f_kad_deyt_1, b.f_kad_deyt_1),
        blank_normalized(a.f_kad_deyt_2, b.f_kad_deyt_2),
        blank_normalized(a.f_kad_deyt_3, b.f_kad_deyt_3),
        blank_normalized(a.f_kad_deyt_4, b.f_kad_deyt_4),
        a.f_kad_pararthmatos == b.f_kad_pararthmatos,
        a.f_kallikratis_pararthmatos == b.f_kallikratis_pararthmatos,
        a.f_eponymo == b.f_eponymo,
        a.f_onoma == b.f_onoma,
        blank_normalized(a.f_eponymo_patros, b.f_eponymo_patros),
        a.f_onoma_patros == b.f_onoma_patros,
        blank_normalized(a.f_eponymo_mitros, b.f_eponymo_mitros),
        a.f_onoma_mitros == b.f_onoma_mitros,
        blank_normalized(a.f_topos_gennhshs, b.f_topos_gennhshs),
        a.f_birthdate == b.f_birthdate,
        a.f_sex == b.f_sex,
        a.f_yphkoothta == b.f_yphkoothta,
        a.f_typos_taytothtas == b.f_typos_taytothtas,
        a.f_ar_taytothtas == b.f_ar_taytothtas,
        blank_normalized(a.f_ekdousa_arxh, b.f_ekdousa_arxh),
        blank_normalized(a.f_date_ekdosis, b.f_date_ekdosis),
        blank_normalized(a.f_date_ekdosis_lixi, b.f_date_ekdosis_lixi),
        blank_normalized(a.f_res_permit_inst, b.f_res_permit_inst),
        blank_normalized(a.f_res_permit_inst_type, b.f_res_permit_inst_type),
        blank_normalized(a.f_res_permit_inst_ar, b.f_res_permit_inst_ar),
        blank_normalized(a.f_res_permit_inst_lixi, b.f_res_permit_inst_lixi),
        blank_normalized(a.f_res_permit_ap, b.f_res_permit_ap),
        blank_normalized(a.f_res_permit_ap_type, b.f_res_permit_ap_type),
        blank_normalized(a.f_res_permit_ap_ar, b.f_res_permit_ap_ar),
        blank_normalized(a.f_res_permit_ap_lixi, b.f_res_permit_ap_lixi),
        blank_normalized(a.f_res_permit_visa, b.f_res_permit_visa),
        blank_normalized(a.f_res_permit_visa_ar, b.f_res_permit_visa_ar),
        blank_normalized(a.f_res_permit_visa_from, b.f_res_permit_visa_from),
        blank_normalized(a.f_res_permit_visa_to, b.f_res_permit_visa_to),
        a.f_marital_status == b.f_marital_status,
        a.f_arithmos_teknon == b.f_arithmos_teknon,
        a.f_afm == b.f_afm,
        blank_normalized(a.f_doy, b.f_doy),
        blank_normalized(a.f_amika, b.f_amika),
        a.f_amka == b.f_amka,
        blank_normalized(a.f_code_anergias, b.f_code_anergias),
        blank_normalized(a.f_ar_vivliou_anilikou, b.f_ar_vivliou_anilikou),
        blank_normalized(a.f_dieythinsi, b.f_dieythinsi),
        blank_normalized(a.f_kallikratis, b.f_kallikratis),
        blank_normalized(a.f_tk, b.f_tk),
        blank_normalized(a.f_til, b.f_til),
        blank_normalized(a.f_fax, b.f_fax),
        blank_normalized(a.f_email, b.f_email),
        a.f_epipedo_morfosis == b.f_epipedo_morfosis,
        blank_normalized(a.f_professional_education, b.f_professional_education),
        blank_normalized(a.f_expertise_field, b.f_expertise_field),
        blank_normalized(a.f_subject_area, b.f_subject_area),
        blank_normalized(a.f_subject_group, b.f_subject_group),
        blank_normalized(a.f_education_agency, b.f_education_agency),
        blank_normalized(a.f_education_date_from, b.f_education_date_from),
        blank_normalized(a.f_education_date_to, b.f_education_date_to),
        blank_normalized(a.f_duration, b.f_duration),
        blank_normalized(a.f_education_year, b.f_education_year),
        blank_normalized(a.f_fl1, b.f_fl1),
        blank_normalized(a.f_fl2, b.f_fl2),
        blank_normalized(a.f_fl3, b.f_fl3),
        blank_normalized(a.f_fl4, b.f_fl4),
        blank_normalized(a.f_pc, b.f_pc),
        blank_normalized(a.f_pc_other, b.f_pc_other),
        a.f_proslipsidate == b.f_proslipsidate,
        a.f_proslipsitime == b.f_proslipsitime,
        a.f_apoxwrisitime == b.f_apoxwrisitime,
        blank_normalized(a.f_orario, b.f_orario),
        blank_normalized(a.f_wresexternal, b.f_wresexternal),
        a.f_week_hours == b.f_week_hours,
        blank_normalized(a.f_orariodialeima, b.f_orariodialeima),
        a.f_eidikothta == b.f_eidikothta,
        a.f_proipiresia == b.f_proipiresia,
        a.f_apodoxes == b.f_apodoxes,
        a.f_hour_apodoxes == b.f_hour_apodoxes,
        a.f_protiergasia == b.f_protiergasia,
        a.f_sxeshapasxolisis == b.f_sxeshapasxolisis,
        a.f_orismenou_apo == b.f_orismenou_apo,
        a.f_orismenou_ews == b.f_orismenou_ews,
        a.f_kathestosapasxolisis == b.f_kathestosapasxolisis,
        a.f_xaraktirismos == b.f_xaraktirismos,
        blank_normalized(a.f_special_case, b.f_special_case),
        blank_normalized(a.f_apoalliperioxi, b.f_apoalliperioxi),
        blank_normalized(a.f_nationalityalli, b.f_nationalityalli),
        blank_normalized(a.f_kallikratisalli, b.f_kallikratisalli),
        a.f_responsible_position == b.f_responsible_position,
        a.f_working_time_digital_organization == b.f_working_time_digital_organization,
        a.f_full_employment_hours == b.f_full_employment_hours,
        a.f_week_days == b.f_week_days,
        a.f_euelikto_wrario_minutes == b.f_euelikto_wrario_minutes,
        a.f_working_card == b.f_working_card,
        a.f_dialeimma_minutes == b.f_dialeimma_minutes,
        a.f_dialeimma_entos_wrariou == b.f_dialeimma_entos_wrariou,
        a.f_topothetisiepistoli == b.f_topothetisiepistoli,
        a.f_topothetisioaed == b.f_topothetisioaed,
        blank_normalized(a.f_programaoaed, b.f_programaoaed),
        blank_normalized(a.f_replaceprograma, b.f_replaceprograma),
        blank_normalized(a.f_replaceprograma_afm, b.f_replaceprograma_afm),
        blank_normalized(a.f_replaceprograma_amka, b.f_replaceprograma_amka),
        a.f_epidomaoaed == b.f_epidomaoaed,
        blank_normalized(a.f_epidoma_ypiresia_oaed, b.f_epidoma_ypiresia_oaed),
        blank_normalized(a.f_sk_protocol, b.f_sk_protocol),
        blank_normalized(a.f_sk_date, b.f_sk_date),
        blank_normalized(a.f_comments, b.f_comments),
        a.f_eponymo_idiotitas == b.f_eponymo_idiotitas,
        a.f_onoma_idiotitas == b.f_onoma_idiotitas,
        a.f_idiotita_idiotitas == b.f_idiotita_idiotitas,
        a.f_dieythinsi_idiotitas == b.f_dieythinsi_idiotitas,
        a.f_afm_idiotitas == b.f_afm_idiotitas,
        a.f_afm_proswpoy == b.f_afm_proswpoy,
        blank_normalized(a.f_file, b.f_file),
        blank_normalized(a.f_foreign_file, b.f_foreign_file),
        blank_normalized(a.f_young_file, b.f_young_file),
    ensures
        a.wire() == b.wire(),
{
    assert(opt_view(a.f_rel_protocol) == opt_view(b.f_rel_protocol));
    assert(opt_view(a.f_rel_date) == opt_view(b.f_rel_date));
    assert(opt_view(a.f_ergodotikh_organwsh) == opt_view(b.f_ergodotikh_organwsh));
    assert(opt_view(a.f_kad_deyt_1) == opt_view(b.f_kad_deyt_1));
    assert(opt_view(a.f_kad_deyt_2) == opt_view(b.f_kad_deyt_2));
    assert(opt_view(a.f_kad_deyt_3) == opt_view(b.f_kad_deyt_3));
    assert(opt_view(a.f_kad_deyt_4) == opt_view(b.f_kad_deyt_4));
    assert(opt_view(a.f_eponymo_patros) == opt_view(b.f_eponymo_patros));
    assert(opt_view(a.f_eponymo_mitros) == opt_view(b.f_eponymo_mitros));
    assert(opt_view(a.f_topos_gennhshs) == opt_view(b.f_topos_gennhshs));
    assert(opt_view(a.f_ekdousa_arxh) == opt_view(b.f_ekdousa_arxh));
    assert(opt_view(a.f_date_ekdosis) == opt_view(b.f_date_ekdosis));
    assert(opt_view(a.f_date_ekdosis_lixi) == opt_view(b.f_date_ekdosis_lixi));
    assert(opt_view(a.f_res_permit_inst) == opt_view(b.f_res_permit_inst));
    assert(opt_view(a.f_res_permit_inst_type) == opt_view(b.f_res_permit_inst_type));
    assert(opt_view(a.f_res_permit_inst_ar) == opt_view(b.f_res_permit_inst_ar));
    assert(opt_view(a.f_res_permit_inst_lixi) == opt_view(b.f_res_permit_inst_lixi));
    assert(opt_view(a.f_res_permit_ap) == opt_view(b.f_res_permit_ap));
    assert(opt_view(a.f_res_permit_ap_type) == opt_view(b.f_res_permit_ap_type));
    assert(opt_view(a.f_res_permit_ap_ar) == opt_view(b.f_res_permit_ap_ar));
    assert(opt_view(a.f_res_permit_ap_lixi) == opt_view(b.f_res_permit_ap_lixi));
    assert(opt_view(a.f_res_permit_visa) == opt_view(b.f_res_permit_visa));
    assert(opt_view(a.f_res_permit_visa_ar) == opt_view(b.f_res_permit_visa_ar));
    assert(opt_view(a.f_res_permit_visa_from) == opt_view(b.f_res_permit_visa_from));
    assert(opt_view(a.f_res_permit_visa_to) == opt_view(b.f_res_permit_visa_to));
    assert(opt_view(a.f_doy) == opt_view(b.f_doy));
    assert(opt_view(a.f_amika) == opt_view(b.f_amika));
    assert(opt_view(a.f_code_anergias) == opt_view(b.f_code_anergias));
    assert(opt_view(a.f_ar_vivliou_anilikou) == opt_view(b.f_ar_vivliou_anilikou));
    assert(opt_view(a.f_dieythinsi) == opt_view(b.f_dieythinsi));
    assert(opt_view(a.f_kallikratis) == opt_view(b.f_kallikratis));
    assert(opt_view(a.f_tk) == opt_view(b.f_tk));
    assert(opt_view(a.f_til) == opt_view(b.f_til));
    assert(opt_view(a.f_fax) == opt_view(b.f_fax));
    assert(opt_view(a.f_email) == opt_view(b.f_email));
    assert(opt_view(a.f_professional_education) == opt_view(b.f_professional_education));
    assert(opt_view(a.f_expertise_field) == opt_view(b.f_expertise_field));
    assert(opt_view(a.f_subject_area) == opt_view(b.f_subject_area));
    assert(opt_view(a.f_subject_group) == opt_view(b.f_subject_group));
    assert(opt_view(a.f_education_agency) == opt_view(b.f_education_agency));
    assert(opt_view(a.f_education_date_from) == opt_view(b.f_education_date_from));
    assert(opt_view(a.f_education_date_to) == opt_view(b.f_education_date_to));
    assert(opt_view(a.f_duration) == opt_view(b.f_duration));
    assert(opt_view(a.f_education_year) == opt_view(b.f_education_year));
    assert(opt_view(a.f_fl1) == opt_view(b.f_fl1));
    assert(opt_view(a.f_fl2) == opt_view(b.f_fl2));
    assert(opt_view(a.f_fl3) == opt_view(b.f_fl3));
    assert(opt_view(a.f_fl4) == opt_view(b.f_fl4));
    assert(opt_view(a.f_pc) == opt_view(b.f_pc));
    assert(opt_view(a.f_pc_other) == opt_view(b.f_pc_other));
    assert(opt_view(a.f_orario) == opt_view(b.f_orario));
    assert(opt_view(a.f_wresexternal) == opt_view(b.f_wresexternal));
    assert(opt_view(a.f_orariodialeima) == opt_view(b.f_orariodialeima));
    assert(opt_view(a.f_special_case) == opt_view(b.f_special_case));
    assert(opt_view(a.f_apoalliperioxi) == opt_view(b.f_apoalliperioxi));
    assert(opt_view(a.f_nationalityalli) == opt_view(b.f_nationalityalli));
    assert(opt_view(a.f_kallikratisalli) == opt_view(b.f_kallikratisalli));
    assert(opt_view(a.f_programaoaed) == opt_view(b.f_programaoaed));
    assert(opt_view(a.f_replaceprograma) == opt_view(b.f_replaceprograma));
    assert(opt_view(a.f_replaceprograma_afm) == opt_view(b.f_replaceprograma_afm));
    assert(opt_view(a.f_replaceprograma_amka) == opt_view(b.f_replaceprograma_amka));
    assert(opt_view(a.f_epidoma_ypiresia_oaed) == opt_view(b.f_epidoma_ypiresia_oaed));
    assert(opt_view(a.f_sk_protocol) == opt_view(b.f_sk_protocol));
    assert(opt_view(a.f_sk_date) == opt_view(b.f_sk_date));
    assert(opt_view(a.f_comments) == opt_view(b.f_comments));
    assert(opt_view(a.f_file) == opt_view(b.f_file));
    assert(opt_view(a.f_foreign_file) == opt_view(b.f_foreign_file));
    assert(opt_view(a.f_young_file) == opt_view(b.f_young_file));
    assert(a.wire_part_1() == b.wire_part_1());
    assert(a.wire_part_2() == b.wire_part_2());
    assert(a.wire_part_3() == b.wire_part_3());
    assert(a.wire_part_4() == b.wire_part_4());
}

/// A weekly schedule entry dated 2024-03-17 derives `Sun` as its wire
/// day of week, whatever its other fields hold: the day is computed
/// from the date alone.
pub proof fn lemma_sunday_is_derived(w: crate::models::employee::EmployeeWeeklySchedule)
    requires
        w.schedule_date == (crate::dates::Date { year: 2024, month: 3, day: 17 }),
    ensures
        crate::dates::weekday_name(crate::dates::weekday_of(w.schedule_date)) == "Sun"@,
{
    assert(crate::dates::days_from_civil(2024, 3, 17) == 19799);
    assert(crate::dates::weekday_of(w.schedule_date) == 6);
}

// ---------- determinism of the codec ----------

/// The codec is a function of the record values alone: serializing
/// equal work-card batches yields identical wire text, so serializing
/// the same batch twice yields byte-identical JSON.
pub proof fn lemma_work_card_codec_deterministic(a: Seq<CompanyWorkCard>, b: Seq<CompanyWorkCard>)
    requires
        a == b,
    ensures
        wrapped_batch("Cards"@, "Card"@, wires_of(a)) == wrapped_batch(
            "Cards"@,
            "Card"@,
            wires_of(b),
        ),
{
}

/// Serializing equal overtime batches yields identical wire text.
pub proof fn lemma_overtime_codec_deterministic(a: Seq<CompanyOvertime>, b: Seq<CompanyOvertime>)
    requires
        a == b,
    ensures
        wrapped_batch("Overtimes"@, "Overtime"@, wires_of(a)) == wrapped_batch(
            "Overtimes"@,
            "Overtime"@,
            wires_of(b),
        ),
{
}

/// Serializing equal daily or weekly schedule batches yields identical
/// wire text.
pub proof fn lemma_schedule_codec_deterministic(
    a: Seq<CompanyWeeklySchedule>,
    b: Seq<CompanyWeeklySchedule>,
)
    requires
        a == b,
    ensures
        wrapped_batch("WTOS"@, "WTO"@, wires_of(a)) == wrapped_batch("WTOS"@, "WTO"@, wires_of(b)),
{
}

/// Serializing equal records yields identical wire text, record by
/// record.
pub proof fn lemma_record_codec_deterministic(a: WorkCard, b: WorkCard, c: Overtime, d: Overtime)
    requires
        a == b,
        c == d,
    ensures
        a.wire() == b.wire(),
        c.wire() == d.wire(),
{
}

} // verus!
