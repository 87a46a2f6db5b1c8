//! The employee announcement: a large flat record of identification,
//! residence, education and employment fields, many of them optional
//! and serialized blank when unset. Its wire keys are the field
//! names themselves.

use vstd::prelude::*;
use crate::wire::{str_field, opt_view, append_str_field, begin_str_field, begin_obj, comma, end_obj};

verus! {

/// An employee announcement record. Every wire key is the field name.
pub struct EmployeeAnnouncement {
    pub f_aa_pararthmatos: String,
    pub f_rel_protocol: Option<String>,
    pub f_rel_date: Option<String>,
    pub f_ypiresia_sepe: String,
    pub f_ypiresia_oaed: String,
    pub f_ergodotikh_organwsh: Option<String>,
    pub f_kad_kyria: String,
    pub f_kad_deyt_1: Option<String>,
    pub f_kad_deyt_2: Option<String>,
    pub f_kad_deyt_3: Option<String>,
    pub f_kad_deyt_4: Option<String>,
    pub f_kad_pararthmatos: String,
    pub f_kallikratis_pararthmatos: String,
    pub f_eponymo: String,
    pub f_onoma: String,
    pub f_eponymo_patros: Option<String>,
    pub f_onoma_patros: String,
    pub f_eponymo_mitros: Option<String>,
    pub f_onoma_mitros: String,
    pub f_topos_gennhshs: Option<String>,
    pub f_birthdate: String,
    pub f_sex: String,
    pub f_yphkoothta: String,
    pub f_typos_taytothtas: String,
    pub f_ar_taytothtas: String,
    pub f_ekdousa_arxh: Option<String>,
    pub f_date_ekdosis: Option<String>,
    pub f_date_ekdosis_lixi: Option<String>,
    pub f_res_permit_inst: Option<String>,
    pub f_res_permit_inst_type: Option<String>,
    pub f_res_permit_inst_ar: Option<String>,
    pub f_res_permit_inst_lixi: Option<String>,
    pub f_res_permit_ap: Option<String>,
    pub f_res_permit_ap_type: Option<String>,
    pub f_res_permit_ap_ar: Option<String>,
    pub f_res_permit_ap_lixi: Option<String>,
    pub f_res_permit_visa: Option<String>,
    pub f_res_permit_visa_ar: Option<String>,
    pub f_res_permit_visa_from: Option<String>,
    pub f_res_permit_visa_to: Option<String>,
    pub f_marital_status: String,
    pub f_arithmos_teknon: String,
    pub f_afm: String,
    pub f_doy: Option<String>,
    pub f_amika: Option<String>,
    pub f_amka: String,
    pub f_code_anergias: Option<String>,
    pub f_ar_vivliou_anilikou: Option<String>,
    pub f_dieythinsi: Option<String>,
    pub f_kallikratis: Option<String>,
    pub f_tk: Option<String>,
    pub f_til: Option<String>,
    pub f_fax: Option<String>,
    pub f_email: Option<String>,
    pub f_epipedo_morfosis: String,
    pub f_professional_education: Option<String>,
    pub f_expertise_field: Option<String>,
    pub f_subject_area: Option<String>,
    pub f_subject_group: Option<String>,
    pub f_education_agency: Option<String>,
    pub f_education_date_from: Option<String>,
    pub f_education_date_to: Option<String>,
    pub f_duration: Option<String>,
    pub f_education_year: Option<String>,
    pub f_fl1: Option<String>,
    pub f_fl2: Option<String>,
    pub f_fl3: Option<String>,
    pub f_fl4: Option<String>,
    pub f_pc: Option<String>,
    pub f_pc_other: Option<String>,
    pub f_proslipsidate: String,
    pub f_proslipsitime: String,
    pub f_apoxwrisitime: String,
    pub f_orario: Option<String>,
    pub f_wresexternal: Option<String>,
    pub f_week_hours: String,
    pub f_orariodialeima: Option<String>,
    pub f_eidikothta: String,
    pub f_proipiresia: String,
    pub f_apodoxes: String,
    pub f_hour_apodoxes: String,
    pub f_protiergasia: String,
    pub f_sxeshapasxolisis: String,
    pub f_orismenou_apo: String,
    pub f_orismenou_ews: String,
    pub f_kathestosapasxolisis: String,
    pub f_xaraktirismos: String,
    pub f_special_case: Option<String>,
    pub f_apoalliperioxi: Option<String>,
    pub f_nationalityalli: Option<String>,
    pub f_kallikratisalli: Option<String>,
    pub f_responsible_position: String,
    pub f_working_time_digital_organization: String,
    pub f_full_employment_hours: String,
    pub f_week_days: String,
    pub f_euelikto_wrario_minutes: String,
    pub f_working_card: String,
    pub f_dialeimma_minutes: String,
    pub f_dialeimma_entos_wrariou: String,
    pub f_topothetisiepistoli: String,
    pub f_topothetisioaed: String,
    pub f_programaoaed: Option<String>,
    pub f_replaceprograma: Option<String>,
    pub f_replaceprograma_afm: Option<String>,
    pub f_replaceprograma_amka: Option<String>,
    pub f_epidomaoaed: String,
    pub f_epidoma_ypiresia_oaed: Option<String>,
    pub f_sk_protocol: Option<String>,
    pub f_sk_date: Option<String>,
    pub f_comments: Option<String>,
    pub f_eponymo_idiotitas: String,
    pub f_onoma_idiotitas: String,
    pub f_idiotita_idiotitas: String,
    pub f_dieythinsi_idiotitas: String,
    pub f_afm_idiotitas: String,
    pub f_afm_proswpoy: String,
    pub f_file: Option<String>,
    pub f_foreign_file: Option<String>,
    pub f_young_file: Option<String>,
}

impl EmployeeAnnouncement {
    /// Part 1 of the wire object, in field order.
    pub open spec fn wire_part_1(self) -> Seq<char> {
        str_field("f_aa_pararthmatos"@, self.f_aa_pararthmatos@) + seq![',']
             + str_field("f_rel_protocol"@, opt_view(self.f_rel_protocol)) + seq![',']
             + str_field("f_rel_date"@, opt_view(self.f_rel_date)) + seq![',']
             + str_field("f_ypiresia_sepe"@, self.f_ypiresia_sepe@) + seq![',']
             + str_field("f_ypiresia_oaed"@, self.f_ypiresia_oaed@) + seq![',']
             + str_field("f_ergodotikh_organwsh"@, opt_view(self.f_ergodotikh_organwsh))
             + seq![','] + str_field("f_kad_kyria"@, self.f_kad_kyria@) + seq![',']
             + str_field("f_kad_deyt_1"@, opt_view(self.f_kad_deyt_1)) + seq![',']
             + str_field("f_kad_deyt_2"@, opt_view(self.f_kad_deyt_2)) + seq![',']
             + str_field("f_kad_deyt_3"@, opt_view(self.f_kad_deyt_3)) + seq![',']
             + str_field("f_kad_deyt_4"@, opt_view(self.f_kad_deyt_4)) + seq![',']
             + str_field("f_kad_pararthmatos"@, self.f_kad_pararthmatos@) + seq![',']
             + str_field("f_kallikratis_pararthmatos"@, self.f_kallikratis_pararthmatos@)
             + seq![','] + str_field("f_eponymo"@, self.f_eponymo@) + seq![',']
             + str_field("f_onoma"@, self.f_onoma@) + seq![',']
             + str_field("f_eponymo_patros"@, opt_view(self.f_eponymo_patros)) + seq![',']
             + str_field("f_onoma_patros"@, self.f_onoma_patros@) + seq![',']
             + str_field("f_eponymo_mitros"@, opt_view(self.f_eponymo_mitros)) + seq![',']
             + str_field("f_onoma_mitros"@, self.f_onoma_mitros@) + seq![',']
             + str_field("f_topos_gennhshs"@, opt_view(self.f_topos_gennhshs)) + seq![',']
             + str_field("f_birthdate"@, self.f_birthdate@) + seq![',']
             + str_field("f_sex"@, self.f_sex@) + seq![',']
             + str_field("f_yphkoothta"@, self.f_yphkoothta@) + seq![',']
             + str_field("f_typos_taytothtas"@, self.f_typos_taytothtas@) + seq![',']
             + str_field("f_ar_taytothtas"@, self.f_ar_taytothtas@) + seq![',']
             + str_field("f_ekdousa_arxh"@, opt_view(self.f_ekdousa_arxh)) + seq![',']
             + str_field("f_date_ekdosis"@, opt_view(self.f_date_ekdosis)) + seq![',']
             + str_field("f_date_ekdosis_lixi"@, opt_view(self.f_date_ekdosis_lixi))
             + seq![','] + str_field("f_res_permit_inst"@, opt_view(self.f_res_permit_inst))
             + seq![',']
             + str_field("f_res_permit_inst_type"@, opt_view(self.f_res_permit_inst_type))
             + seq![',']
    }

    /// Part 2 of the wire object, in field order.
    pub open spec fn wire_part_2(self) -> Seq<char> {
        str_field("f_res_permit_inst_ar"@, opt_view(self.f_res_permit_inst_ar)) + seq![',']
             + str_field("f_res_permit_inst_lixi"@, opt_view(self.f_res_permit_inst_lixi))
             + seq![','] + str_field("f_res_permit_ap"@, opt_view(self.f_res_permit_ap))
             + seq![',']
             + str_field("f_res_permit_ap_type"@, opt_view(self.f_res_permit_ap_type))
             + seq![','] + str_field("f_res_permit_ap_ar"@, opt_view(self.f_res_permit_ap_ar))
             + seq![',']
             + str_field("f_res_permit_ap_lixi"@, opt_view(self.f_res_permit_ap_lixi))
             + seq![','] + str_field("f_res_permit_visa"@, opt_view(self.f_res_permit_visa))
             + seq![',']
             + str_field("f_res_permit_visa_ar"@, opt_view(self.f_res_permit_visa_ar))
             + seq![',']
             + str_field("f_res_permit_visa_from"@, opt_view(self.f_res_permit_visa_from))
             + seq![',']
             + str_field("f_res_permit_visa_to"@, opt_view(self.f_res_permit_visa_to))
             + seq![','] + str_field("f_marital_status"@, self.f_marital_status@) + seq![',']
             + str_field("f_arithmos_teknon"@, self.f_arithmos_teknon@) + seq![',']
             + str_field("f_afm"@, self.f_afm@) + seq![',']
             + str_field("f_doy"@, opt_view(self.f_doy)) + seq![',']
             + str_field("f_amika"@, opt_view(self.f_amika)) + seq![',']
             + str_field("f_amka"@, self.f_amka@) + seq![',']
             + str_field("f_code_anergias"@, opt_view(self.f_code_anergias)) + seq![',']
             + str_field("f_ar_vivliou_anilikou"@, opt_view(self.f_ar_vivliou_anilikou))
             + seq![','] + str_field("f_dieythinsi"@, opt_view(self.f_dieythinsi)) + seq![',']
             + str_field("f_kallikratis"@, opt_view(self.f_kallikratis)) + seq![',']
             + str_field("f_tk"@, opt_view(self.f_tk)) + seq![',']
             + str_field("f_til"@, opt_view(self.f_til)) + seq![',']
             + str_field("f_fax"@, opt_view(self.f_fax)) + seq![',']
             + str_field("f_email"@, opt_view(self.f_email)) + seq![',']
             + str_field("f_epipedo_morfosis"@, self.f_epipedo_morfosis@) + seq![',']
             + str_field("f_professional_education"@, opt_view(self.f_professional_education))
             + seq![','] + str_field("f_expertise_field"@, opt_view(self.f_expertise_field))
             + seq![','] + str_field("f_subject_area"@, opt_view(self.f_subject_area))
             + seq![','] + str_field("f_subject_group"@, opt_view(self.f_subject_group))
             + seq![','] + str_field("f_education_agency"@, opt_view(self.f_education_agency))
             + seq![',']
    }

    /// Part 3 of the wire object, in field order.
    pub open spec fn wire_part_3(self) -> Seq<char> {
        str_field("f_education_date_from"@, opt_view(self.f_education_date_from)) + seq![',']
             + str_field("f_education_date_to"@, opt_view(self.f_education_date_to))
             + seq![','] + str_field("f_duration"@, opt_view(self.f_duration)) + seq![',']
             + str_field("f_education_year"@, opt_view(self.f_education_year)) + seq![',']
             + str_field("f_fl1"@, opt_view(self.f_fl1)) + seq![',']
             + str_field("f_fl2"@, opt_view(self.f_fl2)) + seq![',']
             + str_field("f_fl3"@, opt_view(self.f_fl3)) + seq![',']
             + str_field("f_fl4"@, opt_view(self.f_fl4)) + seq![',']
             + str_field("f_pc"@, opt_view(self.f_pc)) + seq![',']
             + str_field("f_pc_other"@, opt_view(self.f_pc_other)) + seq![',']
             + str_field("f_proslipsidate"@, self.f_proslipsidate@) + seq![',']
             + str_field("f_proslipsitime"@, self.f_proslipsitime@) + seq![',']
             + str_field("f_apoxwrisitime"@, self.f_apoxwrisitime@) + seq![',']
             + str_field("f_orario"@, opt_view(self.f_orario)) + seq![',']
             + str_field("f_wresexternal"@, opt_view(self.f_wresexternal)) + seq![',']
             + str_field("f_week_hours"@, self.f_week_hours@) + seq![',']
             + str_field("f_orariodialeima"@, opt_view(self.f_orariodialeima)) + seq![',']
             + str_field("f_eidikothta"@, self.f_eidikothta@) + seq![',']
             + str_field("f_proipiresia"@, self.f_proipiresia@) + seq![',']
             + str_field("f_apodoxes"@, self.f_apodoxes@) + seq![',']
             + str_field("f_hour_apodoxes"@, self.f_hour_apodoxes@) + seq![',']
             + str_field("f_protiergasia"@, self.f_protiergasia@) + seq![',']
             + str_field("f_sxeshapasxolisis"@, self.f_sxeshapasxolisis@) + seq![',']
             + str_field("f_orismenou_apo"@, self.f_orismenou_apo@) + seq![',']
             + str_field("f_orismenou_ews"@, self.f_orismenou_ews@) + seq![',']
             + str_field("f_kathestosapasxolisis"@, self.f_kathestosapasxolisis@) + seq![',']
             + str_field("f_xaraktirismos"@, self.f_xaraktirismos@) + seq![',']
             + str_field("f_special_case"@, opt_view(self.f_special_case)) + seq![',']
             + str_field("f_apoalliperioxi"@, opt_view(self.f_apoalliperioxi)) + seq![',']
             + str_field("f_nationalityalli"@, opt_view(self.f_nationalityalli)) + seq![',']
    }

    /// Part 4 of the wire object, in field order.
    pub open spec fn wire_part_4(self) -> Seq<char> {
        str_field("f_kallikratisalli"@, opt_view(self.f_kallikratisalli)) + seq![',']
             + str_field("f_responsible_position"@, self.f_responsible_position@) + seq![',']
             + str_field("f_working_time_digital_organization"@, self.f_working_time_digital_organization@)
             + seq![','] + str_field("f_full_employment_hours"@, self.f_full_employment_hours@)
             + seq![','] + str_field("f_week_days"@, self.f_week_days@) + seq![',']
             + str_field("f_euelikto_wrario_minutes"@, self.f_euelikto_wrario_minutes@)
             + seq![','] + str_field("f_working_card"@, self.f_working_card@) + seq![',']
             + str_field("f_dialeimma_minutes"@, self.f_dialeimma_minutes@) + seq![',']
             + str_field("f_dialeimma_entos_wrariou"@, self.f_dialeimma_entos_wrariou@)
             + seq![','] + str_field("f_topothetisiepistoli"@, self.f_topothetisiepistoli@)
             + seq![','] + str_field("f_topothetisioaed"@, self.f_topothetisioaed@) + seq![',']
             + str_field("f_programaoaed"@, opt_view(self.f_programaoaed)) + seq![',']
             + str_field("f_replaceprograma"@, opt_view(self.f_replaceprograma)) + seq![',']
             + str_field("f_replaceprograma_afm"@, opt_view(self.f_replaceprograma_afm))
             + seq![',']
             + str_field("f_replaceprograma_amka"@, opt_view(self.f_replaceprograma_amka))
             + seq![','] + str_field("f_epidomaoaed"@, self.f_epidomaoaed@) + seq![',']
             + str_field("f_epidoma_ypiresia_oaed"@, opt_view(self.f_epidoma_ypiresia_oaed))
             + seq![','] + str_field("f_sk_protocol"@, opt_view(self.f_sk_protocol))
             + seq![','] + str_field("f_sk_date"@, opt_view(self.f_sk_date)) + seq![',']
             + str_field("f_comments"@, opt_view(self.f_comments)) + seq![',']
             + str_field("f_eponymo_idiotitas"@, self.f_eponymo_idiotitas@) + seq![',']
             + str_field("f_onoma_idiotitas"@, self.f_onoma_idiotitas@) + seq![',']
             + str_field("f_idiotita_idiotitas"@, self.f_idiotita_idiotitas@) + seq![',']
             + str_field("f_dieythinsi_idiotitas"@, self.f_dieythinsi_idiotitas@) + seq![',']
             + str_field("f_afm_idiotitas"@, self.f_afm_idiotitas@) + seq![',']
             + str_field("f_afm_proswpoy"@, self.f_afm_proswpoy@) + seq![',']
             + str_field("f_file"@, opt_view(self.f_file)) + seq![',']
             + str_field("f_foreign_file"@, opt_view(self.f_foreign_file)) + seq![',']
             + str_field("f_young_file"@, opt_view(self.f_young_file))
    }

    /// The exact wire object: every field under its own name, in
    /// declaration order, optional fields blank when unset.
    pub open spec fn wire(self) -> Seq<char> {
        seq!['{'] + self.wire_part_1() + self.wire_part_2() + self.wire_part_3()
            + self.wire_part_4() + seq!['}']
    }

    #[verifier::rlimit(80)]
    fn append_part_1(&self) -> (r: String)
        ensures
            r@ == self.wire_part_1(),
    {
        let mut out = begin_str_field("f_aa_pararthmatos", self.f_aa_pararthmatos.as_str());
        comma(&mut out);
        append_str_field(&mut out, "f_rel_protocol", crate::wire::opt_str(&self.f_rel_protocol));
        comma(&mut out);
        append_str_field(&mut out, "f_rel_date", crate::wire::opt_str(&self.f_rel_date));
        comma(&mut out);
        append_str_field(&mut out, "f_ypiresia_sepe", self.f_ypiresia_sepe.as_str());
        comma(&mut out);
        append_str_field(&mut out, "f_ypiresia_oaed", self.f_ypiresia_oaed.as_str());
        comma(&mut out);
        append_str_field(&mut out, "f_ergodotikh_organwsh", crate::wire::opt_str(&self.f_ergodotikh_organwsh));
        comma(&mut out);
        append_str_field(&mut out, "f_kad_kyria", self.f_kad_kyria.as_str());
        comma(&mut out);
        append_str_field(&mut out, "f_kad_deyt_1", crate::wire::opt_str(&self.f_kad_deyt_1));
        comma(&mut out);
        append_str_field(&mut out, "f_kad_deyt_2", crate::wire::opt_str(&self.f_kad_deyt_2));
        comma(&mut out);
        append_str_field(&mut out, "f_kad_deyt_3", crate::wire::opt_str(&self.f_kad_deyt_3));
        comma(&mut out);
        append_str_field(&mut out, "f_kad_deyt_4", crate::wire::opt_str(&self.f_kad_deyt_4));
        comma(&mut out);
        append_str_field(&mut out, "f_kad_pararthmatos", self.f_kad_pararthmatos.as_str());
        comma(&mut out);
        append_str_field(&mut out, "f_kallikratis_pararthmatos", self.f_kallikratis_pararthmatos.as_str());
        comma(&mut out);
        append_str_field(&mut out, "f_eponymo", self.f_eponymo.as_str());
        comma(&mut out);
        append_str_field(&mut out, "f_onoma", self.f_onoma.as_str());
        comma(&mut out);
        append_str_field(&mut out, "f_eponymo_patros", crate::wire::opt_str(&self.f_eponymo_patros));
        comma(&mut out);
        append_str_field(&mut out, "f_onoma_patros", self.f_onoma_patros.as_str());
        comma(&mut out);
        append_str_field(&mut out, "f_eponymo_mitros", crate::wire::opt_str(&self.f_eponymo_mitros));
        comma(&mut out);
        append_str_field(&mut out, "f_onoma_mitros", self.f_onoma_mitros.as_str());
        comma(&mut out);
        append_str_field(&mut out, "f_topos_gennhshs", crate::wire::opt_str(&self.f_topos_gennhshs));
        comma(&mut out);
        append_str_field(&mut out, "f_birthdate", self.f_birthdate.as_str());
        comma(&mut out);
        append_str_field(&mut out, "f_sex", self.f_sex.as_str());
        comma(&mut out);
        append_str_field(&mut out, "f_yphkoothta", self.f_yphkoothta.as_str());
        comma(&mut out);
        append_str_field(&mut out, "f_typos_taytothtas", self.f_typos_taytothtas.as_str());
        comma(&mut out);
        append_str_field(&mut out, "f_ar_taytothtas", self.f_ar_taytothtas.as_str());
        comma(&mut out);
        append_str_field(&mut out, "f_ekdousa_arxh", crate::wire::opt_str(&self.f_ekdousa_arxh));
        comma(&mut out);
        append_str_field(&mut out, "f_date_ekdosis", crate::wire::opt_str(&self.f_date_ekdosis));
        comma(&mut out);
        append_str_field(&mut out, "f_date_ekdosis_lixi", crate::wire::opt_str(&self.f_date_ekdosis_lixi));
        comma(&mut out);
        append_str_field(&mut out, "f_res_permit_inst", crate::wire::opt_str(&self.f_res_permit_inst));
        comma(&mut out);
        append_str_field(&mut out, "f_res_permit_inst_type", crate::wire::opt_str(&self.f_res_permit_inst_type));
        comma(&mut out);
        out
    }

    #[verifier::rlimit(80)]
    fn append_part_2(&self) -> (r: String)
        ensures
            r@ == self.wire_part_2(),
    {
        let mut out = begin_str_field("f_res_permit_inst_ar", crate::wire::opt_str(&self.f_res_permit_inst_ar));
        comma(&mut out);
        append_str_field(&mut out, "f_res_permit_inst_lixi", crate::wire::opt_str(&self.f_res_permit_inst_lixi));
        comma(&mut out);
        append_str_field(&mut out, "f_res_permit_ap", crate::wire::opt_str(&self.f_res_permit_ap));
        comma(&mut out);
        append_str_field(&mut out, "f_res_permit_ap_type", crate::wire::opt_str(&self.f_res_permit_ap_type));
        comma(&mut out);
        append_str_field(&mut out, "f_res_permit_ap_ar", crate::wire::opt_str(&self.f_res_permit_ap_ar));
        comma(&mut out);
        append_str_field(&mut out, "f_res_permit_ap_lixi", crate::wire::opt_str(&self.f_res_permit_ap_lixi));
        comma(&mut out);
        append_str_field(&mut out, "f_res_permit_visa", crate::wire::opt_str(&self.f_res_permit_visa));
        comma(&mut out);
        append_str_field(&mut out, "f_res_permit_visa_ar", crate::wire::opt_str(&self.f_res_permit_visa_ar));
        comma(&mut out);
        append_str_field(&mut out, "f_res_permit_visa_from", crate::wire::opt_str(&self.f_res_permit_visa_from));
        comma(&mut out);
        append_str_field(&mut out, "f_res_permit_visa_to", crate::wire::opt_str(&self.f_res_permit_visa_to));
        comma(&mut out);
        append_str_field(&mut out, "f_marital_status", self.f_marital_status.as_str());
        comma(&mut out);
        append_str_field(&mut out, "f_arithmos_teknon", self.f_arithmos_teknon.as_str());
        comma(&mut out);
        append_str_field(&mut out, "f_afm", self.f_afm.as_str());
        comma(&mut out);
        append_str_field(&mut out, "f_doy", crate::wire::opt_str(&self.f_doy));
        comma(&mut out);
        append_str_field(&mut out, "f_amika", crate::wire::opt_str(&self.f_amika));
        comma(&mut out);
        append_str_field(&mut out, "f_amka", self.f_amka.as_str());
        comma(&mut out);
        append_str_field(&mut out, "f_code_anergias", crate::wire::opt_str(&self.f_code_anergias));
        comma(&mut out);
        append_str_field(&mut out, "f_ar_vivliou_anilikou", crate::wire::opt_str(&self.f_ar_vivliou_anilikou));
        comma(&mut out);
        append_str_field(&mut out, "f_dieythinsi", crate::wire::opt_str(&self.f_dieythinsi));
        comma(&mut out);
        append_str_field(&mut out, "f_kallikratis", crate::wire::opt_str(&self.f_kallikratis));
        comma(&mut out);
        append_str_field(&mut out, "f_tk", crate::wire::opt_str(&self.f_tk));
        comma(&mut out);
        append_str_field(&mut out, "f_til", crate::wire::opt_str(&self.f_til));
        comma(&mut out);
        append_str_field(&mut out, "f_fax", crate::wire::opt_str(&self.f_fax));
        comma(&mut out);
        append_str_field(&mut out, "f_email", crate::wire::opt_str(&self.f_email));
        comma(&mut out);
        append_str_field(&mut out, "f_epipedo_morfosis", self.f_epipedo_morfosis.as_str());
        comma(&mut out);
        append_str_field(&mut out, "f_professional_education", crate::wire::opt_str(&self.f_professional_education));
        comma(&mut out);
        append_str_field(&mut out, "f_expertise_field", crate::wire::opt_str(&self.f_expertise_field));
        comma(&mut out);
        append_str_field(&mut out, "f_subject_area", crate::wire::opt_str(&self.f_subject_area));
        comma(&mut out);
        append_str_field(&mut out, "f_subject_group", crate::wire::opt_str(&self.f_subject_group));
        comma(&mut out);
        append_str_field(&mut out, "f_education_agency", crate::wire::opt_str(&self.f_education_agency));
        comma(&mut out);
        out
    }

    #[verifier::rlimit(80)]
    fn append_part_3(&self) -> (r: String)
        ensures
            r@ == self.wire_part_3(),
    {
        let mut out = begin_str_field("f_education_date_from", crate::wire::opt_str(&self.f_education_date_from));
        comma(&mut out);
        append_str_field(&mut out, "f_education_date_to", crate::wire::opt_str(&self.f_education_date_to));
        comma(&mut out);
        append_str_field(&mut out, "f_duration", crate::wire::opt_str(&self.f_duration));
        comma(&mut out);
        append_str_field(&mut out, "f_education_year", crate::wire::opt_str(&self.f_education_year));
        comma(&mut out);
        append_str_field(&mut out, "f_fl1", crate::wire::opt_str(&self.f_fl1));
        comma(&mut out);
        append_str_field(&mut out, "f_fl2", crate::wire::opt_str(&self.f_fl2));
        comma(&mut out);
        append_str_field(&mut out, "f_fl3", crate::wire::opt_str(&self.f_fl3));
        comma(&mut out);
        append_str_field(&mut out, "f_fl4", crate::wire::opt_str(&self.f_fl4));
        comma(&mut out);
        append_str_field(&mut out, "f_pc", crate::wire::opt_str(&self.f_pc));
        comma(&mut out);
        append_str_field(&mut out, "f_pc_other", crate::wire::opt_str(&self.f_pc_other));
        comma(&mut out);
        append_str_field(&mut out, "f_proslipsidate", self.f_proslipsidate.as_str());
        comma(&mut out);
        append_str_field(&mut out, "f_proslipsitime", self.f_proslipsitime.as_str());
        comma(&mut out);
        append_str_field(&mut out, "f_apoxwrisitime", self.f_apoxwrisitime.as_str());
        comma(&mut out);
        append_str_field(&mut out, "f_orario", crate::wire::opt_str(&self.f_orario));
        comma(&mut out);
        append_str_field(&mut out, "f_wresexternal", crate::wire::opt_str(&self.f_wresexternal));
        comma(&mut out);
        append_str_field(&mut out, "f_week_hours", self.f_week_hours.as_str());
        comma(&mut out);
        append_str_field(&mut out, "f_orariodialeima", crate::wire::opt_str(&self.f_orariodialeima));
        comma(&mut out);
        append_str_field(&mut out, "f_eidikothta", self.f_eidikothta.as_str());
        comma(&mut out);
        append_str_field(&mut out, "f_proipiresia", self.f_proipiresia.as_str());
        comma(&mut out);
        append_str_field(&mut out, "f_apodoxes", self.f_apodoxes.as_str());
        comma(&mut out);
        append_str_field(&mut out, "f_hour_apodoxes", self.f_hour_apodoxes.as_str());
        comma(&mut out);
        append_str_field(&mut out, "f_protiergasia", self.f_protiergasia.as_str());
        comma(&mut out);
        append_str_field(&mut out, "f_sxeshapasxolisis", self.f_sxeshapasxolisis.as_str());
        comma(&mut out);
        append_str_field(&mut out, "f_orismenou_apo", self.f_orismenou_apo.as_str());
        comma(&mut out);
        append_str_field(&mut out, "f_orismenou_ews", self.f_orismenou_ews.as_str());
        comma(&mut out);
        append_str_field(&mut out, "f_kathestosapasxolisis", self.f_kathestosapasxolisis.as_str());
        comma(&mut out);
        append_str_field(&mut out, "f_xaraktirismos", self.f_xaraktirismos.as_str());
        comma(&mut out);
        append_str_field(&mut out, "f_special_case", crate::wire::opt_str(&self.f_special_case));
        comma(&mut out);
        append_str_field(&mut out, "f_apoalliperioxi", crate::wire::opt_str(&self.f_apoalliperioxi));
        comma(&mut out);
        append_str_field(&mut out, "f_nationalityalli", crate::wire::opt_str(&self.f_nationalityalli));
        comma(&mut out);
        out
    }

    #[verifier::rlimit(80)]
    fn append_part_4(&self) -> (r: String)
        ensures
            r@ == self.wire_part_4(),
    {
        let mut out = begin_str_field("f_kallikratisalli", crate::wire::opt_str(&self.f_kallikratisalli));
        comma(&mut out);
        append_str_field(&mut out, "f_responsible_position", self.f_responsible_position.as_str());
        comma(&mut out);
        append_str_field(&mut out, "f_working_time_digital_organization", self.f_working_time_digital_organization.as_str());
        comma(&mut out);
        append_str_field(&mut out, "f_full_employment_hours", self.f_full_employment_hours.as_str());
        comma(&mut out);
        append_str_field(&mut out, "f_week_days", self.f_week_days.as_str());
        comma(&mut out);
        append_str_field(&mut out, "f_euelikto_wrario_minutes", self.f_euelikto_wrario_minutes.as_str());
        comma(&mut out);
        append_str_field(&mut out, "f_working_card", self.f_working_card.as_str());
        comma(&mut out);
        append_str_field(&mut out, "f_dialeimma_minutes", self.f_dialeimma_minutes.as_str());
        comma(&mut out);
        append_str_field(&mut out, "f_dialeimma_entos_wrariou", self.f_dialeimma_entos_wrariou.as_str());
        comma(&mut out);
        append_str_field(&mut out, "f_topothetisiepistoli", self.f_topothetisiepistoli.as_str());
        comma(&mut out);
        append_str_field(&mut out, "f_topothetisioaed", self.f_topothetisioaed.as_str());
        comma(&mut out);
        append_str_field(&mut out, "f_programaoaed", crate::wire::opt_str(&self.f_programaoaed));
        comma(&mut out);
        append_str_field(&mut out, "f_replaceprograma", crate::wire::opt_str(&self.f_replaceprograma));
        comma(&mut out);
        append_str_field(&mut out, "f_replaceprograma_afm", crate::wire::opt_str(&self.f_replaceprograma_afm));
        comma(&mut out);
        append_str_field(&mut out, "f_replaceprograma_amka", crate::wire::opt_str(&self.f_replaceprograma_amka));
        comma(&mut out);
        append_str_field(&mut out, "f_epidomaoaed", self.f_epidomaoaed.as_str());
        comma(&mut out);
        append_str_field(&mut out, "f_epidoma_ypiresia_oaed", crate::wire::opt_str(&self.f_epidoma_ypiresia_oaed));
        comma(&mut out);
        append_str_field(&mut out, "f_sk_protocol", crate::wire::opt_str(&self.f_sk_protocol));
        comma(&mut out);
        append_str_field(&mut out, "f_sk_date", crate::wire::opt_str(&self.f_sk_date));
        comma(&mut out);
        append_str_field(&mut out, "f_comments", crate::wire::opt_str(&self.f_comments));
        comma(&mut out);
        append_str_field(&mut out, "f_eponymo_idiotitas", self.f_eponymo_idiotitas.as_str());
        comma(&mut out);
        append_str_field(&mut out, "f_onoma_idiotitas", self.f_onoma_idiotitas.as_str());
        comma(&mut out);
        append_str_field(&mut out, "f_idiotita_idiotitas", self.f_idiotita_idiotitas.as_str());
        comma(&mut out);
        append_str_field(&mut out, "f_dieythinsi_idiotitas", self.f_dieythinsi_idiotitas.as_str());
        comma(&mut out);
        append_str_field(&mut out, "f_afm_idiotitas", self.f_afm_idiotitas.as_str());
        comma(&mut out);
        append_str_field(&mut out, "f_afm_proswpoy", self.f_afm_proswpoy.as_str());
        comma(&mut out);
        append_str_field(&mut out, "f_file", crate::wire::opt_str(&self.f_file));
        comma(&mut out);
        append_str_field(&mut out, "f_foreign_file", crate::wire::opt_str(&self.f_foreign_file));
        comma(&mut out);
        append_str_field(&mut out, "f_young_file", crate::wire::opt_str(&self.f_young_file));
        out
    }

    /// The wire text of this announcement alone.
    pub fn to_wire_json(&self) -> (r: String)
        ensures
            r@ == self.wire(),
    {
        let p1 = self.append_part_1();
        let p2 = self.append_part_2();
        let p3 = self.append_part_3();
        let p4 = self.append_part_4();
        let mut out = begin_obj();
        out.append(p1.as_str());
        out.append(p2.as_str());
        out.append(p3.as_str());
        out.append(p4.as_str());
        end_obj(&mut out);
        out
    }
}

impl crate::wire::Wire for EmployeeAnnouncement {
    open spec fn wire_wf(&self) -> bool {
        true
    }

    open spec fn wire_text(&self) -> Seq<char> {
        self.wire()
    }

    fn append_to(&self, out: &mut String) {
        let text = self.to_wire_json();
        out.append(text.as_str());
    }
}

} // verus!
