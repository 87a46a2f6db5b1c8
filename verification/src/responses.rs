//! The read-path response records: the remote service's own nested
//! shapes, decoded field for field, with absent optional string
//! members reading as the empty string.

use vstd::prelude::*;
use crate::json::{Json, JsonV, member, str_member_or_empty, opt_str_member, int_member, vals_of, parse_json, parse_json_spec};
use crate::error::APIError;

verus! {

/// One interval of a fetched weekly schedule.
#[derive(Clone, Debug, PartialEq)]
pub struct WeekScheduleErgazomenosWtoanalytic {
    pub f_type: String,
    pub f_from: String,
    pub f_to: String,
}

/// The mathematical view of a [`WeekScheduleErgazomenosWtoanalytic`].
pub struct WeekScheduleErgazomenosWtoanalyticV {
    pub f_type: Seq<char>,
    pub f_from: Seq<char>,
    pub f_to: Seq<char>,
}

impl WeekScheduleErgazomenosWtoanalytic {
    /// The view of this record.
    pub open spec fn v(self) -> WeekScheduleErgazomenosWtoanalyticV {
        WeekScheduleErgazomenosWtoanalyticV {
            f_type: (self.f_type@),
            f_from: (self.f_from@),
            f_to: (self.f_to@),
        }
    }
}

/// The views of a list of [`WeekScheduleErgazomenosWtoanalytic`] records.
pub open spec fn week_schedule_ergazomenos_wtoanalytic_vals(s: Seq<WeekScheduleErgazomenosWtoanalytic>) -> Seq<WeekScheduleErgazomenosWtoanalyticV> {
    Seq::new(s.len(), |i: int| s[i].v())
}

/// What a JSON value denotes as a [`WeekScheduleErgazomenosWtoanalytic`], if anything.
pub open spec fn week_schedule_ergazomenos_wtoanalytic_of(v: JsonV) -> Option<WeekScheduleErgazomenosWtoanalyticV> {
    if !(v is Obj) {
        None
    } else {
        match str_member_or_empty(v, "f_type"@) {
            None => None,
            Some(f_type) =>
            match str_member_or_empty(v, "f_from"@) {
                None => None,
                Some(f_from) =>
                match str_member_or_empty(v, "f_to"@) {
                    None => None,
                    Some(f_to) =>
                    Some(WeekScheduleErgazomenosWtoanalyticV { f_type, f_from, f_to })
                }
            }
        }
    }
}

/// Decodes the elements of an array from index `i` on.
pub open spec fn week_schedule_ergazomenos_wtoanalytic_list_of(es: Seq<JsonV>, i: int) -> Option<Seq<WeekScheduleErgazomenosWtoanalyticV>>
    decreases es.len() - i,
{
    if i >= es.len() {
        Some(Seq::empty())
    } else {
        match week_schedule_ergazomenos_wtoanalytic_of(es[i]) {
            None => None,
            Some(x) => match week_schedule_ergazomenos_wtoanalytic_list_of(es, i + 1) {
                None => None,
                Some(r) => Some(seq![x] + r),
            },
        }
    }
}

/// Decodes a [`WeekScheduleErgazomenosWtoanalytic`] from a parsed JSON value.
pub fn decode_week_schedule_ergazomenos_wtoanalytic(j: &Json) -> (r: Option<WeekScheduleErgazomenosWtoanalytic>)
    ensures
        r is None ==> week_schedule_ergazomenos_wtoanalytic_of(j.v()) is None,
        r matches Some(x) ==> week_schedule_ergazomenos_wtoanalytic_of(j.v()) == Some(x.v()),
{
    if !j.is_obj() {
        return None;
    }
    let f_type = match j.get_str_or_empty("f_type") {
        Some(x) => x,
        None => { return None; },
    };
    let f_from = match j.get_str_or_empty("f_from") {
        Some(x) => x,
        None => { return None; },
    };
    let f_to = match j.get_str_or_empty("f_to") {
        Some(x) => x,
        None => { return None; },
    };
    Some(WeekScheduleErgazomenosWtoanalytic { f_type, f_from, f_to })
}

/// Decodes the array elements from index `i` on.
pub fn decode_week_schedule_ergazomenos_wtoanalytic_list(es: &Vec<Json>, i: usize) -> (r: Option<Vec<WeekScheduleErgazomenosWtoanalytic>>)
    requires
        i <= es@.len(),
    ensures
        r is None ==> week_schedule_ergazomenos_wtoanalytic_list_of(vals_of(es@), i as int) is None,
        r matches Some(xs) ==> week_schedule_ergazomenos_wtoanalytic_list_of(vals_of(es@), i as int) == Some(week_schedule_ergazomenos_wtoanalytic_vals(xs@)),
    decreases es@.len() - i,
{
    if i >= es.len() {
        let out: Vec<WeekScheduleErgazomenosWtoanalytic> = Vec::new();
        proof {
            assert(week_schedule_ergazomenos_wtoanalytic_vals(out@) =~= Seq::<WeekScheduleErgazomenosWtoanalyticV>::empty());
        }
        return Some(out);
    }
    match decode_week_schedule_ergazomenos_wtoanalytic(&es[i]) {
        None => None,
        Some(x) => {
            match decode_week_schedule_ergazomenos_wtoanalytic_list(es, i + 1) {
                None => None,
                Some(mut xs) => {
                    let ghost xs0 = xs@;
                    xs.insert(0, x);
                    proof {
                        assert(week_schedule_ergazomenos_wtoanalytic_vals(xs@) =~= seq![x.v()] + week_schedule_ergazomenos_wtoanalytic_vals(xs0));
                    }
                    Some(xs)
                },
            }
        },
    }
}

/// The interval container of a fetched weekly schedule entry.
#[derive(Clone, Debug, PartialEq)]
pub struct WeekScheduleErgazomenosAnalytics {
    pub ergazomenos_wtoanalytics: Vec<WeekScheduleErgazomenosWtoanalytic>,
}

/// The mathematical view of a [`WeekScheduleErgazomenosAnalytics`].
pub struct WeekScheduleErgazomenosAnalyticsV {
    pub ergazomenos_wtoanalytics: Seq<WeekScheduleErgazomenosWtoanalyticV>,
}

impl WeekScheduleErgazomenosAnalytics {
    /// The view of this record.
    pub open spec fn v(self) -> WeekScheduleErgazomenosAnalyticsV {
        WeekScheduleErgazomenosAnalyticsV {
            ergazomenos_wtoanalytics: (week_schedule_ergazomenos_wtoanalytic_vals(self.ergazomenos_wtoanalytics@)),
        }
    }
}

/// The views of a list of [`WeekScheduleErgazomenosAnalytics`] records.
pub open spec fn week_schedule_ergazomenos_analytics_vals(s: Seq<WeekScheduleErgazomenosAnalytics>) -> Seq<WeekScheduleErgazomenosAnalyticsV> {
    Seq::new(s.len(), |i: int| s[i].v())
}

/// What a JSON value denotes as a [`WeekScheduleErgazomenosAnalytics`], if anything.
pub open spec fn week_schedule_ergazomenos_analytics_of(v: JsonV) -> Option<WeekScheduleErgazomenosAnalyticsV> {
    if !(v is Obj) {
        None
    } else {
        match member(v, "ErgazomenosWTOAnalytics"@) {
            None => None,
            Some(w_ergazomenos_wtoanalytics) => match w_ergazomenos_wtoanalytics {
                JsonV::Arr(es_ergazomenos_wtoanalytics) => match week_schedule_ergazomenos_wtoanalytic_list_of(es_ergazomenos_wtoanalytics, 0) {
                    None => None,
                    Some(ergazomenos_wtoanalytics) =>
                    Some(WeekScheduleErgazomenosAnalyticsV { ergazomenos_wtoanalytics })
                },
                _ => None,
            },
        }
    }
}

/// Decodes the elements of an array from index `i` on.
pub open spec fn week_schedule_ergazomenos_analytics_list_of(es: Seq<JsonV>, i: int) -> Option<Seq<WeekScheduleErgazomenosAnalyticsV>>
    decreases es.len() - i,
{
    if i >= es.len() {
        Some(Seq::empty())
    } else {
        match week_schedule_ergazomenos_analytics_of(es[i]) {
            None => None,
            Some(x) => match week_schedule_ergazomenos_analytics_list_of(es, i + 1) {
                None => None,
                Some(r) => Some(seq![x] + r),
            },
        }
    }
}

/// Decodes a [`WeekScheduleErgazomenosAnalytics`] from a parsed JSON value.
pub fn decode_week_schedule_ergazomenos_analytics(j: &Json) -> (r: Option<WeekScheduleErgazomenosAnalytics>)
    ensures
        r is None ==> week_schedule_ergazomenos_analytics_of(j.v()) is None,
        r matches Some(x) ==> week_schedule_ergazomenos_analytics_of(j.v()) == Some(x.v()),
{
    if !j.is_obj() {
        return None;
    }
    let ergazomenos_wtoanalytics = match j.get("ErgazomenosWTOAnalytics") {
        Some(w) => match w {
            Json::Arr(es) => {
                proof {
                    assert((*w).v()->Arr_0 =~= vals_of(es@));
                }
                match decode_week_schedule_ergazomenos_wtoanalytic_list(es, 0) {
                    Some(x) => x,
                    None => { return None; },
                }
            },
            _ => { return None; },
        },
        None => { return None; },
    };
    Some(WeekScheduleErgazomenosAnalytics { ergazomenos_wtoanalytics })
}

/// Decodes the array elements from index `i` on.
pub fn decode_week_schedule_ergazomenos_analytics_list(es: &Vec<Json>, i: usize) -> (r: Option<Vec<WeekScheduleErgazomenosAnalytics>>)
    requires
        i <= es@.len(),
    ensures
        r is None ==> week_schedule_ergazomenos_analytics_list_of(vals_of(es@), i as int) is None,
        r matches Some(xs) ==> week_schedule_ergazomenos_analytics_list_of(vals_of(es@), i as int) == Some(week_schedule_ergazomenos_analytics_vals(xs@)),
    decreases es@.len() - i,
{
    if i >= es.len() {
        let out: Vec<WeekScheduleErgazomenosAnalytics> = Vec::new();
        proof {
            assert(week_schedule_ergazomenos_analytics_vals(out@) =~= Seq::<WeekScheduleErgazomenosAnalyticsV>::empty());
        }
        return Some(out);
    }
    match decode_week_schedule_ergazomenos_analytics(&es[i]) {
        None => None,
        Some(x) => {
            match decode_week_schedule_ergazomenos_analytics_list(es, i + 1) {
                None => None,
                Some(mut xs) => {
                    let ghost xs0 = xs@;
                    xs.insert(0, x);
                    proof {
                        assert(week_schedule_ergazomenos_analytics_vals(xs@) =~= seq![x.v()] + week_schedule_ergazomenos_analytics_vals(xs0));
                    }
                    Some(xs)
                },
            }
        },
    }
}

/// One employee of a fetched weekly schedule.
#[derive(Clone, Debug, PartialEq)]
pub struct WeekScheduleErgazomenoiWto {
    pub f_afm: String,
    pub f_eponymo: String,
    pub f_onoma: String,
    pub f_day: Option<String>,
    pub ergazomenos_analytics: WeekScheduleErgazomenosAnalytics,
}

/// The mathematical view of a [`WeekScheduleErgazomenoiWto`].
pub struct WeekScheduleErgazomenoiWtoV {
    pub f_afm: Seq<char>,
    pub f_eponymo: Seq<char>,
    pub f_onoma: Seq<char>,
    pub f_day: Option<Seq<char>>,
    pub ergazomenos_analytics: WeekScheduleErgazomenosAnalyticsV,
}

impl WeekScheduleErgazomenoiWto {
    /// The view of this record.
    pub open spec fn v(self) -> WeekScheduleErgazomenoiWtoV {
        WeekScheduleErgazomenoiWtoV {
            f_afm: (self.f_afm@),
            f_eponymo: (self.f_eponymo@),
            f_onoma: (self.f_onoma@),
            f_day: (match self.f_day { Some(s) => Some(s@), None => None }),
            ergazomenos_analytics: (self.ergazomenos_analytics.v()),
        }
    }
}

/// The views of a list of [`WeekScheduleErgazomenoiWto`] records.
pub open spec fn week_schedule_ergazomenoi_wto_vals(s: Seq<WeekScheduleErgazomenoiWto>) -> Seq<WeekScheduleErgazomenoiWtoV> {
    Seq::new(s.len(), |i: int| s[i].v())
}

/// What a JSON value denotes as a [`WeekScheduleErgazomenoiWto`], if anything.
pub open spec fn week_schedule_ergazomenoi_wto_of(v: JsonV) -> Option<WeekScheduleErgazomenoiWtoV> {
    if !(v is Obj) {
        None
    } else {
        match str_member_or_empty(v, "f_afm"@) {
            None => None,
            Some(f_afm) =>
            match str_member_or_empty(v, "f_eponymo"@) {
                None => None,
                Some(f_eponymo) =>
                match str_member_or_empty(v, "f_onoma"@) {
                    None => None,
                    Some(f_onoma) =>
                    match opt_str_member(v, "f_day"@) {
                        None => None,
                        Some(f_day) =>
                        match member(v, "ErgazomenosAnalytics"@) {
                            None => None,
                            Some(w_ergazomenos_analytics) => match week_schedule_ergazomenos_analytics_of(w_ergazomenos_analytics) {
                                None => None,
                                Some(ergazomenos_analytics) =>
                                Some(WeekScheduleErgazomenoiWtoV { f_afm, f_eponymo, f_onoma, f_day, ergazomenos_analytics })
                            },
                        }
                    }
                }
            }
        }
    }
}

/// Decodes the elements of an array from index `i` on.
pub open spec fn week_schedule_ergazomenoi_wto_list_of(es: Seq<JsonV>, i: int) -> Option<Seq<WeekScheduleErgazomenoiWtoV>>
    decreases es.len() - i,
{
    if i >= es.len() {
        Some(Seq::empty())
    } else {
        match week_schedule_ergazomenoi_wto_of(es[i]) {
            None => None,
            Some(x) => match week_schedule_ergazomenoi_wto_list_of(es, i + 1) {
                None => None,
                Some(r) => Some(seq![x] + r),
            },
        }
    }
}

/// Decodes a [`WeekScheduleErgazomenoiWto`] from a parsed JSON value.
pub fn decode_week_schedule_ergazomenoi_wto(j: &Json) -> (r: Option<WeekScheduleErgazomenoiWto>)
    ensures
        r is None ==> week_schedule_ergazomenoi_wto_of(j.v()) is None,
        r matches Some(x) ==> week_schedule_ergazomenoi_wto_of(j.v()) == Some(x.v()),
{
    if !j.is_obj() {
        return None;
    }
    let f_afm = match j.get_str_or_empty("f_afm") {
        Some(x) => x,
        None => { return None; },
    };
    let f_eponymo = match j.get_str_or_empty("f_eponymo") {
        Some(x) => x,
        None => { return None; },
    };
    let f_onoma = match j.get_str_or_empty("f_onoma") {
        Some(x) => x,
        None => { return None; },
    };
    let f_day = match j.get_opt_str("f_day") {
        Some(x) => x,
        None => { return None; },
    };
    let ergazomenos_analytics = match j.get("ErgazomenosAnalytics") {
        Some(w) => match decode_week_schedule_ergazomenos_analytics(w) {
            Some(x) => x,
            None => { return None; },
        },
        None => { return None; },
    };
    Some(WeekScheduleErgazomenoiWto { f_afm, f_eponymo, f_onoma, f_day, ergazomenos_analytics })
}

/// Decodes the array elements from index `i` on.
pub fn decode_week_schedule_ergazomenoi_wto_list(es: &Vec<Json>, i: usize) -> (r: Option<Vec<WeekScheduleErgazomenoiWto>>)
    requires
        i <= es@.len(),
    ensures
        r is None ==> week_schedule_ergazomenoi_wto_list_of(vals_of(es@), i as int) is None,
        r matches Some(xs) ==> week_schedule_ergazomenoi_wto_list_of(vals_of(es@), i as int) == Some(week_schedule_ergazomenoi_wto_vals(xs@)),
    decreases es@.len() - i,
{
    if i >= es.len() {
        let out: Vec<WeekScheduleErgazomenoiWto> = Vec::new();
        proof {
            assert(week_schedule_ergazomenoi_wto_vals(out@) =~= Seq::<WeekScheduleErgazomenoiWtoV>::empty());
        }
        return Some(out);
    }
    match decode_week_schedule_ergazomenoi_wto(&es[i]) {
        None => None,
        Some(x) => {
            match decode_week_schedule_ergazomenoi_wto_list(es, i + 1) {
                None => None,
                Some(mut xs) => {
                    let ghost xs0 = xs@;
                    xs.insert(0, x);
                    proof {
                        assert(week_schedule_ergazomenoi_wto_vals(xs@) =~= seq![x.v()] + week_schedule_ergazomenoi_wto_vals(xs0));
                    }
                    Some(xs)
                },
            }
        },
    }
}

/// The employee container of a fetched weekly schedule.
#[derive(Clone, Debug, PartialEq)]
pub struct WeekScheduleErgazomenoi {
    pub ergazomenoi_wto: Vec<WeekScheduleErgazomenoiWto>,
}

/// The mathematical view of a [`WeekScheduleErgazomenoi`].
pub struct WeekScheduleErgazomenoiV {
    pub ergazomenoi_wto: Seq<WeekScheduleErgazomenoiWtoV>,
}

impl WeekScheduleErgazomenoi {
    /// The view of this record.
    pub open spec fn v(self) -> WeekScheduleErgazomenoiV {
        WeekScheduleErgazomenoiV {
            ergazomenoi_wto: (week_schedule_ergazomenoi_wto_vals(self.ergazomenoi_wto@)),
        }
    }
}

/// The views of a list of [`WeekScheduleErgazomenoi`] records.
pub open spec fn week_schedule_ergazomenoi_vals(s: Seq<WeekScheduleErgazomenoi>) -> Seq<WeekScheduleErgazomenoiV> {
    Seq::new(s.len(), |i: int| s[i].v())
}

/// What a JSON value denotes as a [`WeekScheduleErgazomenoi`], if anything.
pub open spec fn week_schedule_ergazomenoi_of(v: JsonV) -> Option<WeekScheduleErgazomenoiV> {
    if !(v is Obj) {
        None
    } else {
        match member(v, "ErgazomenoiWTO"@) {
            None => None,
            Some(w_ergazomenoi_wto) => match w_ergazomenoi_wto {
                JsonV::Arr(es_ergazomenoi_wto) => match week_schedule_ergazomenoi_wto_list_of(es_ergazomenoi_wto, 0) {
                    None => None,
                    Some(ergazomenoi_wto) =>
                    Some(WeekScheduleErgazomenoiV { ergazomenoi_wto })
                },
                _ => None,
            },
        }
    }
}

/// Decodes the elements of an array from index `i` on.
pub open spec fn week_schedule_ergazomenoi_list_of(es: Seq<JsonV>, i: int) -> Option<Seq<WeekScheduleErgazomenoiV>>
    decreases es.len() - i,
{
    if i >= es.len() {
        Some(Seq::empty())
    } else {
        match week_schedule_ergazomenoi_of(es[i]) {
            None => None,
            Some(x) => match week_schedule_ergazomenoi_list_of(es, i + 1) {
                None => None,
                Some(r) => Some(seq![x] + r),
            },
        }
    }
}

/// Decodes a [`WeekScheduleErgazomenoi`] from a parsed JSON value.
pub fn decode_week_schedule_ergazomenoi(j: &Json) -> (r: Option<WeekScheduleErgazomenoi>)
    ensures
        r is None ==> week_schedule_ergazomenoi_of(j.v()) is None,
        r matches Some(x) ==> week_schedule_ergazomenoi_of(j.v()) == Some(x.v()),
{
    if !j.is_obj() {
        return None;
    }
    let ergazomenoi_wto = match j.get("ErgazomenoiWTO") {
        Some(w) => match w {
            Json::Arr(es) => {
                proof {
                    assert((*w).v()->Arr_0 =~= vals_of(es@));
                }
                match decode_week_schedule_ergazomenoi_wto_list(es, 0) {
                    Some(x) => x,
                    None => { return None; },
                }
            },
            _ => { return None; },
        },
        None => { return None; },
    };
    Some(WeekScheduleErgazomenoi { ergazomenoi_wto })
}

/// Decodes the array elements from index `i` on.
pub fn decode_week_schedule_ergazomenoi_list(es: &Vec<Json>, i: usize) -> (r: Option<Vec<WeekScheduleErgazomenoi>>)
    requires
        i <= es@.len(),
    ensures
        r is None ==> week_schedule_ergazomenoi_list_of(vals_of(es@), i as int) is None,
        r matches Some(xs) ==> week_schedule_ergazomenoi_list_of(vals_of(es@), i as int) == Some(week_schedule_ergazomenoi_vals(xs@)),
    decreases es@.len() - i,
{
    if i >= es.len() {
        let out: Vec<WeekScheduleErgazomenoi> = Vec::new();
        proof {
            assert(week_schedule_ergazomenoi_vals(out@) =~= Seq::<WeekScheduleErgazomenoiV>::empty());
        }
        return Some(out);
    }
    match decode_week_schedule_ergazomenoi(&es[i]) {
        None => None,
        Some(x) => {
            match decode_week_schedule_ergazomenoi_list(es, i + 1) {
                None => None,
                Some(mut xs) => {
                    let ghost xs0 = xs@;
                    xs.insert(0, x);
                    proof {
                        assert(week_schedule_ergazomenoi_vals(xs@) =~= seq![x.v()] + week_schedule_ergazomenoi_vals(xs0));
                    }
                    Some(xs)
                },
            }
        },
    }
}

/// One branch declaration of a fetched weekly schedule.
#[derive(Clone, Debug, PartialEq)]
pub struct WeekScheduleWto {
    pub f_aa_pararthmatos: String,
    pub f_rel_protocol: String,
    pub f_rel_date: String,
    pub f_comments: String,
    pub f_from_date: String,
    pub f_to_date: String,
    pub ergazomenoi: WeekScheduleErgazomenoi,
}

/// The mathematical view of a [`WeekScheduleWto`].
pub struct WeekScheduleWtoV {
    pub f_aa_pararthmatos: Seq<char>,
    pub f_rel_protocol: Seq<char>,
    pub f_rel_date: Seq<char>,
    pub f_comments: Seq<char>,
    pub f_from_date: Seq<char>,
    pub f_to_date: Seq<char>,
    pub ergazomenoi: WeekScheduleErgazomenoiV,
}

impl WeekScheduleWto {
    /// The view of this record.
    pub open spec fn v(self) -> WeekScheduleWtoV {
        WeekScheduleWtoV {
            f_aa_pararthmatos: (self.f_aa_pararthmatos@),
            f_rel_protocol: (self.f_rel_protocol@),
            f_rel_date: (self.f_rel_date@),
            f_comments: (self.f_comments@),
            f_from_date: (self.f_from_date@),
            f_to_date: (self.f_to_date@),
            ergazomenoi: (self.ergazomenoi.v()),
        }
    }
}

/// The views of a list of [`WeekScheduleWto`] records.
pub open spec fn week_schedule_wto_vals(s: Seq<WeekScheduleWto>) -> Seq<WeekScheduleWtoV> {
    Seq::new(s.len(), |i: int| s[i].v())
}

/// What a JSON value denotes as a [`WeekScheduleWto`], if anything.
pub open spec fn week_schedule_wto_of(v: JsonV) -> Option<WeekScheduleWtoV> {
    if !(v is Obj) {
        None
    } else {
        match str_member_or_empty(v, "f_aa_pararthmatos"@) {
            None => None,
            Some(f_aa_pararthmatos) =>
            match str_member_or_empty(v, "f_rel_protocol"@) {
                None => None,
                Some(f_rel_protocol) =>
                match str_member_or_empty(v, "f_rel_date"@) {
                    None => None,
                    Some(f_rel_date) =>
                    match str_member_or_empty(v, "f_comments"@) {
                        None => None,
                        Some(f_comments) =>
                        match str_member_or_empty(v, "f_from_date"@) {
                            None => None,
                            Some(f_from_date) =>
                            match str_member_or_empty(v, "f_to_date"@) {
                                None => None,
                                Some(f_to_date) =>
                                match member(v, "Ergazomenoi"@) {
                                    None => None,
                                    Some(w_ergazomenoi) => match week_schedule_ergazomenoi_of(w_ergazomenoi) {
                                        None => None,
                                        Some(ergazomenoi) =>
                                        Some(WeekScheduleWtoV { f_aa_pararthmatos, f_rel_protocol, f_rel_date, f_comments, f_from_date, f_to_date, ergazomenoi })
                                    },
                                }
                            }
                        }
                    }
                }
            }
        }
    }
}

/// Decodes the elements of an array from index `i` on.
pub open spec fn week_schedule_wto_list_of(es: Seq<JsonV>, i: int) -> Option<Seq<WeekScheduleWtoV>>
    decreases es.len() - i,
{
    if i >= es.len() {
        Some(Seq::empty())
    } else {
        match week_schedule_wto_of(es[i]) {
            None => None,
            Some(x) => match week_schedule_wto_list_of(es, i + 1) {
                None => None,
                Some(r) => Some(seq![x] + r),
            },
        }
    }
}

/// Decodes a [`WeekScheduleWto`] from a parsed JSON value.
pub fn decode_week_schedule_wto(j: &Json) -> (r: Option<WeekScheduleWto>)
    ensures
        r is None ==> week_schedule_wto_of(j.v()) is None,
        r matches Some(x) ==> week_schedule_wto_of(j.v()) == Some(x.v()),
{
    if !j.is_obj() {
        return None;
    }
    let f_aa_pararthmatos = match j.get_str_or_empty("f_aa_pararthmatos") {
        Some(x) => x,
        None => { return None; },
    };
    let f_rel_protocol = match j.get_str_or_empty("f_rel_protocol") {
        Some(x) => x,
        None => { return None; },
    };
    let f_rel_date = match j.get_str_or_empty("f_rel_date") {
        Some(x) => x,
        None => { return None; },
    };
    let f_comments = match j.get_str_or_empty("f_comments") {
        Some(x) => x,
        None => { return None; },
    };
    let f_from_date = match j.get_str_or_empty("f_from_date") {
        Some(x) => x,
        None => { return None; },
    };
    let f_to_date = match j.get_str_or_empty("f_to_date") {
        Some(x) => x,
        None => { return None; },
    };
    let ergazomenoi = match j.get("Ergazomenoi") {
        Some(w) => match decode_week_schedule_ergazomenoi(w) {
            Some(x) => x,
            None => { return None; },
        },
        None => { return None; },
    };
    Some(WeekScheduleWto { f_aa_pararthmatos, f_rel_protocol, f_rel_date, f_comments, f_from_date, f_to_date, ergazomenoi })
}

/// Decodes the array elements from index `i` on.
pub fn decode_week_schedule_wto_list(es: &Vec<Json>, i: usize) -> (r: Option<Vec<WeekScheduleWto>>)
    requires
        i <= es@.len(),
    ensures
        r is None ==> week_schedule_wto_list_of(vals_of(es@), i as int) is None,
        r matches Some(xs) ==> week_schedule_wto_list_of(vals_of(es@), i as int) == Some(week_schedule_wto_vals(xs@)),
    decreases es@.len() - i,
{
    if i >= es.len() {
        let out: Vec<WeekScheduleWto> = Vec::new();
        proof {
            assert(week_schedule_wto_vals(out@) =~= Seq::<WeekScheduleWtoV>::empty());
        }
        return Some(out);
    }
    match decode_week_schedule_wto(&es[i]) {
        None => None,
        Some(x) => {
            match decode_week_schedule_wto_list(es, i + 1) {
                None => None,
                Some(mut xs) => {
                    let ghost xs0 = xs@;
                    xs.insert(0, x);
                    proof {
                        assert(week_schedule_wto_vals(xs@) =~= seq![x.v()] + week_schedule_wto_vals(xs0));
                    }
                    Some(xs)
                },
            }
        },
    }
}

/// The declaration container of a fetched weekly schedule.
#[derive(Clone, Debug, PartialEq)]
pub struct WeekScheduleWtos {
    pub wto: Vec<WeekScheduleWto>,
}

/// The mathematical view of a [`WeekScheduleWtos`].
pub struct WeekScheduleWtosV {
    pub wto: Seq<WeekScheduleWtoV>,
}

impl WeekScheduleWtos {
    /// The view of this record.
    pub open spec fn v(self) -> WeekScheduleWtosV {
        WeekScheduleWtosV {
            wto: (week_schedule_wto_vals(self.wto@)),
        }
    }
}

/// The views of a list of [`WeekScheduleWtos`] records.
pub open spec fn week_schedule_wtos_vals(s: Seq<WeekScheduleWtos>) -> Seq<WeekScheduleWtosV> {
    Seq::new(s.len(), |i: int| s[i].v())
}

/// What a JSON value denotes as a [`WeekScheduleWtos`], if anything.
pub open spec fn week_schedule_wtos_of(v: JsonV) -> Option<WeekScheduleWtosV> {
    if !(v is Obj) {
        None
    } else {
        match member(v, "WTO"@) {
            None => None,
            Some(w_wto) => match w_wto {
                JsonV::Arr(es_wto) => match week_schedule_wto_list_of(es_wto, 0) {
                    None => None,
                    Some(wto) =>
                    Some(WeekScheduleWtosV { wto })
                },
                _ => None,
            },
        }
    }
}

/// Decodes the elements of an array from index `i` on.
pub open spec fn week_schedule_wtos_list_of(es: Seq<JsonV>, i: int) -> Option<Seq<WeekScheduleWtosV>>
    decreases es.len() - i,
{
    if i >= es.len() {
        Some(Seq::empty())
    } else {
        match week_schedule_wtos_of(es[i]) {
            None => None,
            Some(x) => match week_schedule_wtos_list_of(es, i + 1) {
                None => None,
                Some(r) => Some(seq![x] + r),
            },
        }
    }
}

/// Decodes a [`WeekScheduleWtos`] from a parsed JSON value.
pub fn decode_week_schedule_wtos(j: &Json) -> (r: Option<WeekScheduleWtos>)
    ensures
        r is None ==> week_schedule_wtos_of(j.v()) is None,
        r matches Some(x) ==> week_schedule_wtos_of(j.v()) == Some(x.v()),
{
    if !j.is_obj() {
        return None;
    }
    let wto = match j.get("WTO") {
        Some(w) => match w {
            Json::Arr(es) => {
                proof {
                    assert((*w).v()->Arr_0 =~= vals_of(es@));
                }
                match decode_week_schedule_wto_list(es, 0) {
                    Some(x) => x,
                    None => { return None; },
                }
            },
            _ => { return None; },
        },
        None => { return None; },
    };
    Some(WeekScheduleWtos { wto })
}

/// Decodes the array elements from index `i` on.
pub fn decode_week_schedule_wtos_list(es: &Vec<Json>, i: usize) -> (r: Option<Vec<WeekScheduleWtos>>)
    requires
        i <= es@.len(),
    ensures
        r is None ==> week_schedule_wtos_list_of(vals_of(es@), i as int) is None,
        r matches Some(xs) ==> week_schedule_wtos_list_of(vals_of(es@), i as int) == Some(week_schedule_wtos_vals(xs@)),
    decreases es@.len() - i,
{
    if i >= es.len() {
        let out: Vec<WeekScheduleWtos> = Vec::new();
        proof {
            assert(week_schedule_wtos_vals(out@) =~= Seq::<WeekScheduleWtosV>::empty());
        }
        return Some(out);
    }
    match decode_week_schedule_wtos(&es[i]) {
        None => None,
        Some(x) => {
            match decode_week_schedule_wtos_list(es, i + 1) {
                None => None,
                Some(mut xs) => {
                    let ghost xs0 = xs@;
                    xs.insert(0, x);
                    proof {
                        assert(week_schedule_wtos_vals(xs@) =~= seq![x.v()] + week_schedule_wtos_vals(xs0));
                    }
                    Some(xs)
                },
            }
        },
    }
}

/// The payload of a fetched weekly schedule.
#[derive(Clone, Debug, PartialEq)]
pub struct WeekScheduleJson {
    pub wtos: WeekScheduleWtos,
}

/// The mathematical view of a [`WeekScheduleJson`].
pub struct WeekScheduleJsonV {
    pub wtos: WeekScheduleWtosV,
}

impl WeekScheduleJson {
    /// The view of this record.
    pub open spec fn v(self) -> WeekScheduleJsonV {
        WeekScheduleJsonV {
            wtos: (self.wtos.v()),
        }
    }
}

/// The views of a list of [`WeekScheduleJson`] records.
pub open spec fn week_schedule_json_vals(s: Seq<WeekScheduleJson>) -> Seq<WeekScheduleJsonV> {
    Seq::new(s.len(), |i: int| s[i].v())
}

/// What a JSON value denotes as a [`WeekScheduleJson`], if anything.
pub open spec fn week_schedule_json_of(v: JsonV) -> Option<WeekScheduleJsonV> {
    if !(v is Obj) {
        None
    } else {
        match member(v, "WTOS"@) {
            None => None,
            Some(w_wtos) => match week_schedule_wtos_of(w_wtos) {
                None => None,
                Some(wtos) =>
                Some(WeekScheduleJsonV { wtos })
            },
        }
    }
}

/// Decodes the elements of an array from index `i` on.
pub open spec fn week_schedule_json_list_of(es: Seq<JsonV>, i: int) -> Option<Seq<WeekScheduleJsonV>>
    decreases es.len() - i,
{
    if i >= es.len() {
        Some(Seq::empty())
    } else {
        match week_schedule_json_of(es[i]) {
            None => None,
            Some(x) => match week_schedule_json_list_of(es, i + 1) {
                None => None,
                Some(r) => Some(seq![x] + r),
            },
        }
    }
}

/// Decodes a [`WeekScheduleJson`] from a parsed JSON value.
pub fn decode_week_schedule_json(j: &Json) -> (r: Option<WeekScheduleJson>)
    ensures
        r is None ==> week_schedule_json_of(j.v()) is None,
        r matches Some(x) ==> week_schedule_json_of(j.v()) == Some(x.v()),
{
    if !j.is_obj() {
        return None;
    }
    let wtos = match j.get("WTOS") {
        Some(w) => match decode_week_schedule_wtos(w) {
            Some(x) => x,
            None => { return None; },
        },
        None => { return None; },
    };
    Some(WeekScheduleJson { wtos })
}

/// Decodes the array elements from index `i` on.
pub fn decode_week_schedule_json_list(es: &Vec<Json>, i: usize) -> (r: Option<Vec<WeekScheduleJson>>)
    requires
        i <= es@.len(),
    ensures
        r is None ==> week_schedule_json_list_of(vals_of(es@), i as int) is None,
        r matches Some(xs) ==> week_schedule_json_list_of(vals_of(es@), i as int) == Some(week_schedule_json_vals(xs@)),
    decreases es@.len() - i,
{
    if i >= es.len() {
        let out: Vec<WeekScheduleJson> = Vec::new();
        proof {
            assert(week_schedule_json_vals(out@) =~= Seq::<WeekScheduleJsonV>::empty());
        }
        return Some(out);
    }
    match decode_week_schedule_json(&es[i]) {
        None => None,
        Some(x) => {
            match decode_week_schedule_json_list(es, i + 1) {
                None => None,
                Some(mut xs) => {
                    let ghost xs0 = xs@;
                    xs.insert(0, x);
                    proof {
                        assert(week_schedule_json_vals(xs@) =~= seq![x.v()] + week_schedule_json_vals(xs0));
                    }
                    Some(xs)
                },
            }
        },
    }
}

/// The root of a fetched weekly schedule.
#[derive(Clone, Debug, PartialEq)]
pub struct WeekScheduleResponseRoot {
    pub title: String,
    pub week_schedule: WeekScheduleJson,
}

/// The mathematical view of a [`WeekScheduleResponseRoot`].
pub struct WeekScheduleResponseRootV {
    pub title: Seq<char>,
    pub week_schedule: WeekScheduleJsonV,
}

impl WeekScheduleResponseRoot {
    /// The view of this record.
    pub open spec fn v(self) -> WeekScheduleResponseRootV {
        WeekScheduleResponseRootV {
            title: (self.title@),
            week_schedule: (self.week_schedule.v()),
        }
    }
}

/// The views of a list of [`WeekScheduleResponseRoot`] records.
pub open spec fn week_schedule_response_root_vals(s: Seq<WeekScheduleResponseRoot>) -> Seq<WeekScheduleResponseRootV> {
    Seq::new(s.len(), |i: int| s[i].v())
}

/// What a JSON value denotes as a [`WeekScheduleResponseRoot`], if anything.
pub open spec fn week_schedule_response_root_of(v: JsonV) -> Option<WeekScheduleResponseRootV> {
    if !(v is Obj) {
        None
    } else {
        match str_member_or_empty(v, "title"@) {
            None => None,
            Some(title) =>
            match member(v, "json"@) {
                None => None,
                Some(w_week_schedule) => match week_schedule_json_of(w_week_schedule) {
                    None => None,
                    Some(week_schedule) =>
                    Some(WeekScheduleResponseRootV { title, week_schedule })
                },
            }
        }
    }
}

/// Decodes the elements of an array from index `i` on.
pub open spec fn week_schedule_response_root_list_of(es: Seq<JsonV>, i: int) -> Option<Seq<WeekScheduleResponseRootV>>
    decreases es.len() - i,
{
    if i >= es.len() {
        Some(Seq::empty())
    } else {
        match week_schedule_response_root_of(es[i]) {
            None => None,
            Some(x) => match week_schedule_response_root_list_of(es, i + 1) {
                None => None,
                Some(r) => Some(seq![x] + r),
            },
        }
    }
}

/// Decodes a [`WeekScheduleResponseRoot`] from a parsed JSON value.
pub fn decode_week_schedule_response_root(j: &Json) -> (r: Option<WeekScheduleResponseRoot>)
    ensures
        r is None ==> week_schedule_response_root_of(j.v()) is None,
        r matches Some(x) ==> week_schedule_response_root_of(j.v()) == Some(x.v()),
{
    if !j.is_obj() {
        return None;
    }
    let title = match j.get_str_or_empty("title") {
        Some(x) => x,
        None => { return None; },
    };
    let week_schedule = match j.get("json") {
        Some(w) => match decode_week_schedule_json(w) {
            Some(x) => x,
            None => { return None; },
        },
        None => { return None; },
    };
    Some(WeekScheduleResponseRoot { title, week_schedule })
}

/// Decodes the array elements from index `i` on.
pub fn decode_week_schedule_response_root_list(es: &Vec<Json>, i: usize) -> (r: Option<Vec<WeekScheduleResponseRoot>>)
    requires
        i <= es@.len(),
    ensures
        r is None ==> week_schedule_response_root_list_of(vals_of(es@), i as int) is None,
        r matches Some(xs) ==> week_schedule_response_root_list_of(vals_of(es@), i as int) == Some(week_schedule_response_root_vals(xs@)),
    decreases es@.len() - i,
{
    if i >= es.len() {
        let out: Vec<WeekScheduleResponseRoot> = Vec::new();
        proof {
            assert(week_schedule_response_root_vals(out@) =~= Seq::<WeekScheduleResponseRootV>::empty());
        }
        return Some(out);
    }
    match decode_week_schedule_response_root(&es[i]) {
        None => None,
        Some(x) => {
            match decode_week_schedule_response_root_list(es, i + 1) {
                None => None,
                Some(mut xs) => {
                    let ghost xs0 = xs@;
                    xs.insert(0, x);
                    proof {
                        assert(week_schedule_response_root_vals(xs@) =~= seq![x.v()] + week_schedule_response_root_vals(xs0));
                    }
                    Some(xs)
                },
            }
        },
    }
}

/// One movement of a fetched work card.
#[derive(Clone, Debug, PartialEq)]
pub struct WorkCardCardDetail {
    pub f_afm: String,
    pub f_eponymo: String,
    pub f_onoma: String,
    pub f_type: String,
    pub f_reference_date: String,
    pub f_date: String,
    pub f_aitiologia: String,
}

/// The mathematical view of a [`WorkCardCardDetail`].
pub struct WorkCardCardDetailV {
    pub f_afm: Seq<char>,
    pub f_eponymo: Seq<char>,
    pub f_onoma: Seq<char>,
    pub f_type: Seq<char>,
    pub f_reference_date: Seq<char>,
    pub f_date: Seq<char>,
    pub f_aitiologia: Seq<char>,
}

impl WorkCardCardDetail {
    /// The view of this record.
    pub open spec fn v(self) -> WorkCardCardDetailV {
        WorkCardCardDetailV {
            f_afm: (self.f_afm@),
            f_eponymo: (self.f_eponymo@),
            f_onoma: (self.f_onoma@),
            f_type: (self.f_type@),
            f_reference_date: (self.f_reference_date@),
            f_date: (self.f_date@),
            f_aitiologia: (self.f_aitiologia@),
        }
    }
}

/// The views of a list of [`WorkCardCardDetail`] records.
pub open spec fn work_card_card_detail_vals(s: Seq<WorkCardCardDetail>) -> Seq<WorkCardCardDetailV> {
    Seq::new(s.len(), |i: int| s[i].v())
}

/// What a JSON value denotes as a [`WorkCardCardDetail`], if anything.
pub open spec fn work_card_card_detail_of(v: JsonV) -> Option<WorkCardCardDetailV> {
    if !(v is Obj) {
        None
    } else {
        match str_member_or_empty(v, "f_afm"@) {
            None => None,
            Some(f_afm) =>
            match str_member_or_empty(v, "f_eponymo"@) {
                None => None,
                Some(f_eponymo) =>
                match str_member_or_empty(v, "f_onoma"@) {
                    None => None,
                    Some(f_onoma) =>
                    match str_member_or_empty(v, "f_type"@) {
                        None => None,
                        Some(f_type) =>
                        match str_member_or_empty(v, "f_reference_date"@) {
                            None => None,
                            Some(f_reference_date) =>
                            match str_member_or_empty(v, "f_date"@) {
                                None => None,
                                Some(f_date) =>
                                match str_member_or_empty(v, "f_aitiologia"@) {
                                    None => None,
                                    Some(f_aitiologia) =>
                                    Some(WorkCardCardDetailV { f_afm, f_eponymo, f_onoma, f_type, f_reference_date, f_date, f_aitiologia })
                                }
                            }
                        }
                    }
                }
            }
        }
    }
}

/// Decodes the elements of an array from index `i` on.
pub open spec fn work_card_card_detail_list_of(es: Seq<JsonV>, i: int) -> Option<Seq<WorkCardCardDetailV>>
    decreases es.len() - i,
{
    if i >= es.len() {
        Some(Seq::empty())
    } else {
        match work_card_card_detail_of(es[i]) {
            None => None,
            Some(x) => match work_card_card_detail_list_of(es, i + 1) {
                None => None,
                Some(r) => Some(seq![x] + r),
            },
        }
    }
}

/// Decodes a [`WorkCardCardDetail`] from a parsed JSON value.
pub fn decode_work_card_card_detail(j: &Json) -> (r: Option<WorkCardCardDetail>)
    ensures
        r is None ==> work_card_card_detail_of(j.v()) is None,
        r matches Some(x) ==> work_card_card_detail_of(j.v()) == Some(x.v()),
{
    if !j.is_obj() {
        return None;
    }
    let f_afm = match j.get_str_or_empty("f_afm") {
        Some(x) => x,
        None => { return None; },
    };
    let f_eponymo = match j.get_str_or_empty("f_eponymo") {
        Some(x) => x,
        None => { return None; },
    };
    let f_onoma = match j.get_str_or_empty("f_onoma") {
        Some(x) => x,
        None => { return None; },
    };
    let f_type = match j.get_str_or_empty("f_type") {
        Some(x) => x,
        None => { return None; },
    };
    let f_reference_date = match j.get_str_or_empty("f_reference_date") {
        Some(x) => x,
        None => { return None; },
    };
    let f_date = match j.get_str_or_empty("f_date") {
        Some(x) => x,
        None => { return None; },
    };
    let f_aitiologia = match j.get_str_or_empty("f_aitiologia") {
        Some(x) => x,
        None => { return None; },
    };
    Some(WorkCardCardDetail { f_afm, f_eponymo, f_onoma, f_type, f_reference_date, f_date, f_aitiologia })
}

/// Decodes the array elements from index `i` on.
pub fn decode_work_card_card_detail_list(es: &Vec<Json>, i: usize) -> (r: Option<Vec<WorkCardCardDetail>>)
    requires
        i <= es@.len(),
    ensures
        r is None ==> work_card_card_detail_list_of(vals_of(es@), i as int) is None,
        r matches Some(xs) ==> work_card_card_detail_list_of(vals_of(es@), i as int) == Some(work_card_card_detail_vals(xs@)),
    decreases es@.len() - i,
{
    if i >= es.len() {
        let out: Vec<WorkCardCardDetail> = Vec::new();
        proof {
            assert(work_card_card_detail_vals(out@) =~= Seq::<WorkCardCardDetailV>::empty());
        }
        return Some(out);
    }
    match decode_work_card_card_detail(&es[i]) {
        None => None,
        Some(x) => {
            match decode_work_card_card_detail_list(es, i + 1) {
                None => None,
                Some(mut xs) => {
                    let ghost xs0 = xs@;
                    xs.insert(0, x);
                    proof {
                        assert(work_card_card_detail_vals(xs@) =~= seq![x.v()] + work_card_card_detail_vals(xs0));
                    }
                    Some(xs)
                },
            }
        },
    }
}

/// The movement container of a fetched work card.
#[derive(Clone, Debug, PartialEq)]
pub struct WorkCardDetails {
    pub card_details: Vec<WorkCardCardDetail>,
}

/// The mathematical view of a [`WorkCardDetails`].
pub struct WorkCardDetailsV {
    pub card_details: Seq<WorkCardCardDetailV>,
}

impl WorkCardDetails {
    /// The view of this record.
    pub open spec fn v(self) -> WorkCardDetailsV {
        WorkCardDetailsV {
            card_details: (work_card_card_detail_vals(self.card_details@)),
        }
    }
}

/// The views of a list of [`WorkCardDetails`] records.
pub open spec fn work_card_details_vals(s: Seq<WorkCardDetails>) -> Seq<WorkCardDetailsV> {
    Seq::new(s.len(), |i: int| s[i].v())
}

/// What a JSON value denotes as a [`WorkCardDetails`], if anything.
pub open spec fn work_card_details_of(v: JsonV) -> Option<WorkCardDetailsV> {
    if !(v is Obj) {
        None
    } else {
        match member(v, "CardDetails"@) {
            None => None,
            Some(w_card_details) => match w_card_details {
                JsonV::Arr(es_card_details) => match work_card_card_detail_list_of(es_card_details, 0) {
                    None => None,
                    Some(card_details) =>
                    Some(WorkCardDetailsV { card_details })
                },
                _ => None,
            },
        }
    }
}

/// Decodes the elements of an array from index `i` on.
pub open spec fn work_card_details_list_of(es: Seq<JsonV>, i: int) -> Option<Seq<WorkCardDetailsV>>
    decreases es.len() - i,
{
    if i >= es.len() {
        Some(Seq::empty())
    } else {
        match work_card_details_of(es[i]) {
            None => None,
            Some(x) => match work_card_details_list_of(es, i + 1) {
                None => None,
                Some(r) => Some(seq![x] + r),
            },
        }
    }
}

/// Decodes a [`WorkCardDetails`] from a parsed JSON value.
pub fn decode_work_card_details(j: &Json) -> (r: Option<WorkCardDetails>)
    ensures
        r is None ==> work_card_details_of(j.v()) is None,
        r matches Some(x) ==> work_card_details_of(j.v()) == Some(x.v()),
{
    if !j.is_obj() {
        return None;
    }
    let card_details = match j.get("CardDetails") {
        Some(w) => match w {
            Json::Arr(es) => {
                proof {
                    assert((*w).v()->Arr_0 =~= vals_of(es@));
                }
                match decode_work_card_card_detail_list(es, 0) {
                    Some(x) => x,
                    None => { return None; },
                }
            },
            _ => { return None; },
        },
        None => { return None; },
    };
    Some(WorkCardDetails { card_details })
}

/// Decodes the array elements from index `i` on.
pub fn decode_work_card_details_list(es: &Vec<Json>, i: usize) -> (r: Option<Vec<WorkCardDetails>>)
    requires
        i <= es@.len(),
    ensures
        r is None ==> work_card_details_list_of(vals_of(es@), i as int) is None,
        r matches Some(xs) ==> work_card_details_list_of(vals_of(es@), i as int) == Some(work_card_details_vals(xs@)),
    decreases es@.len() - i,
{
    if i >= es.len() {
        let out: Vec<WorkCardDetails> = Vec::new();
        proof {
            assert(work_card_details_vals(out@) =~= Seq::<WorkCardDetailsV>::empty());
        }
        return Some(out);
    }
    match decode_work_card_details(&es[i]) {
        None => None,
        Some(x) => {
            match decode_work_card_details_list(es, i + 1) {
                None => None,
                Some(mut xs) => {
                    let ghost xs0 = xs@;
                    xs.insert(0, x);
                    proof {
                        assert(work_card_details_vals(xs@) =~= seq![x.v()] + work_card_details_vals(xs0));
                    }
                    Some(xs)
                },
            }
        },
    }
}

/// One branch batch of fetched work cards.
#[derive(Clone, Debug, PartialEq)]
pub struct WorkCardCard {
    pub f_afm_ergodoti: String,
    pub f_aa: String,
    pub f_comments: String,
    pub details: WorkCardDetails,
}

/// The mathematical view of a [`WorkCardCard`].
pub struct WorkCardCardV {
    pub f_afm_ergodoti: Seq<char>,
    pub f_aa: Seq<char>,
    pub f_comments: Seq<char>,
    pub details: WorkCardDetailsV,
}

impl WorkCardCard {
    /// The view of this record.
    pub open spec fn v(self) -> WorkCardCardV {
        WorkCardCardV {
            f_afm_ergodoti: (self.f_afm_ergodoti@),
            f_aa: (self.f_aa@),
            f_comments: (self.f_comments@),
            details: (self.details.v()),
        }
    }
}

/// The views of a list of [`WorkCardCard`] records.
pub open spec fn work_card_card_vals(s: Seq<WorkCardCard>) -> Seq<WorkCardCardV> {
    Seq::new(s.len(), |i: int| s[i].v())
}

/// What a JSON value denotes as a [`WorkCardCard`], if anything.
pub open spec fn work_card_card_of(v: JsonV) -> Option<WorkCardCardV> {
    if !(v is Obj) {
        None
    } else {
        match str_member_or_empty(v, "f_afm_ergodoti"@) {
            None => None,
            Some(f_afm_ergodoti) =>
            match str_member_or_empty(v, "f_aa"@) {
                None => None,
                Some(f_aa) =>
                match str_member_or_empty(v, "f_comments"@) {
                    None => None,
                    Some(f_comments) =>
                    match member(v, "Details"@) {
                        None => None,
                        Some(w_details) => match work_card_details_of(w_details) {
                            None => None,
                            Some(details) =>
                            Some(WorkCardCardV { f_afm_ergodoti, f_aa, f_comments, details })
                        },
                    }
                }
            }
        }
    }
}

/// Decodes the elements of an array from index `i` on.
pub open spec fn work_card_card_list_of(es: Seq<JsonV>, i: int) -> Option<Seq<WorkCardCardV>>
    decreases es.len() - i,
{
    if i >= es.len() {
        Some(Seq::empty())
    } else {
        match work_card_card_of(es[i]) {
            None => None,
            Some(x) => match work_card_card_list_of(es, i + 1) {
                None => None,
                Some(r) => Some(seq![x] + r),
            },
        }
    }
}

/// Decodes a [`WorkCardCard`] from a parsed JSON value.
pub fn decode_work_card_card(j: &Json) -> (r: Option<WorkCardCard>)
    ensures
        r is None ==> work_card_card_of(j.v()) is None,
        r matches Some(x) ==> work_card_card_of(j.v()) == Some(x.v()),
{
    if !j.is_obj() {
        return None;
    }
    let f_afm_ergodoti = match j.get_str_or_empty("f_afm_ergodoti") {
        Some(x) => x,
        None => { return None; },
    };
    let f_aa = match j.get_str_or_empty("f_aa") {
        Some(x) => x,
        None => { return None; },
    };
    let f_comments = match j.get_str_or_empty("f_comments") {
        Some(x) => x,
        None => { return None; },
    };
    let details = match j.get("Details") {
        Some(w) => match decode_work_card_details(w) {
            Some(x) => x,
            None => { return None; },
        },
        None => { return None; },
    };
    Some(WorkCardCard { f_afm_ergodoti, f_aa, f_comments, details })
}

/// Decodes the array elements from index `i` on.
pub fn decode_work_card_card_list(es: &Vec<Json>, i: usize) -> (r: Option<Vec<WorkCardCard>>)
    requires
        i <= es@.len(),
    ensures
        r is None ==> work_card_card_list_of(vals_of(es@), i as int) is None,
        r matches Some(xs) ==> work_card_card_list_of(vals_of(es@), i as int) == Some(work_card_card_vals(xs@)),
    decreases es@.len() - i,
{
    if i >= es.len() {
        let out: Vec<WorkCardCard> = Vec::new();
        proof {
            assert(work_card_card_vals(out@) =~= Seq::<WorkCardCardV>::empty());
        }
        return Some(out);
    }
    match decode_work_card_card(&es[i]) {
        None => None,
        Some(x) => {
            match decode_work_card_card_list(es, i + 1) {
                None => None,
                Some(mut xs) => {
                    let ghost xs0 = xs@;
                    xs.insert(0, x);
                    proof {
                        assert(work_card_card_vals(xs@) =~= seq![x.v()] + work_card_card_vals(xs0));
                    }
                    Some(xs)
                },
            }
        },
    }
}

/// The batch container of fetched work cards.
#[derive(Clone, Debug, PartialEq)]
pub struct WorkCardCards {
    pub card: Vec<WorkCardCard>,
}

/// The mathematical view of a [`WorkCardCards`].
pub struct WorkCardCardsV {
    pub card: Seq<WorkCardCardV>,
}

impl WorkCardCards {
    /// The view of this record.
    pub open spec fn v(self) -> WorkCardCardsV {
        WorkCardCardsV {
            card: (work_card_card_vals(self.card@)),
        }
    }
}

/// The views of a list of [`WorkCardCards`] records.
pub open spec fn work_card_cards_vals(s: Seq<WorkCardCards>) -> Seq<WorkCardCardsV> {
    Seq::new(s.len(), |i: int| s[i].v())
}

/// What a JSON value denotes as a [`WorkCardCards`], if anything.
pub open spec fn work_card_cards_of(v: JsonV) -> Option<WorkCardCardsV> {
    if !(v is Obj) {
        None
    } else {
        match member(v, "Card"@) {
            None => None,
            Some(w_card) => match w_card {
                JsonV::Arr(es_card) => match work_card_card_list_of(es_card, 0) {
                    None => None,
                    Some(card) =>
                    Some(WorkCardCardsV { card })
                },
                _ => None,
            },
        }
    }
}

/// Decodes the elements of an array from index `i` on.
pub open spec fn work_card_cards_list_of(es: Seq<JsonV>, i: int) -> Option<Seq<WorkCardCardsV>>
    decreases es.len() - i,
{
    if i >= es.len() {
        Some(Seq::empty())
    } else {
        match work_card_cards_of(es[i]) {
            None => None,
            Some(x) => match work_card_cards_list_of(es, i + 1) {
                None => None,
                Some(r) => Some(seq![x] + r),
            },
        }
    }
}

/// Decodes a [`WorkCardCards`] from a parsed JSON value.
pub fn decode_work_card_cards(j: &Json) -> (r: Option<WorkCardCards>)
    ensures
        r is None ==> work_card_cards_of(j.v()) is None,
        r matches Some(x) ==> work_card_cards_of(j.v()) == Some(x.v()),
{
    if !j.is_obj() {
        return None;
    }
    let card = match j.get("Card") {
        Some(w) => match w {
            Json::Arr(es) => {
                proof {
                    assert((*w).v()->Arr_0 =~= vals_of(es@));
                }
                match decode_work_card_card_list(es, 0) {
                    Some(x) => x,
                    None => { return None; },
                }
            },
            _ => { return None; },
        },
        None => { return None; },
    };
    Some(WorkCardCards { card })
}

/// Decodes the array elements from index `i` on.
pub fn decode_work_card_cards_list(es: &Vec<Json>, i: usize) -> (r: Option<Vec<WorkCardCards>>)
    requires
        i <= es@.len(),
    ensures
        r is None ==> work_card_cards_list_of(vals_of(es@), i as int) is None,
        r matches Some(xs) ==> work_card_cards_list_of(vals_of(es@), i as int) == Some(work_card_cards_vals(xs@)),
    decreases es@.len() - i,
{
    if i >= es.len() {
        let out: Vec<WorkCardCards> = Vec::new();
        proof {
            assert(work_card_cards_vals(out@) =~= Seq::<WorkCardCardsV>::empty());
        }
        return Some(out);
    }
    match decode_work_card_cards(&es[i]) {
        None => None,
        Some(x) => {
            match decode_work_card_cards_list(es, i + 1) {
                None => None,
                Some(mut xs) => {
                    let ghost xs0 = xs@;
                    xs.insert(0, x);
                    proof {
                        assert(work_card_cards_vals(xs@) =~= seq![x.v()] + work_card_cards_vals(xs0));
                    }
                    Some(xs)
                },
            }
        },
    }
}

/// The payload of fetched work cards.
#[derive(Clone, Debug, PartialEq)]
pub struct WorkCardJson {
    pub cards: WorkCardCards,
}

/// The mathematical view of a [`WorkCardJson`].
pub struct WorkCardJsonV {
    pub cards: WorkCardCardsV,
}

impl WorkCardJson {
    /// The view of this record.
    pub open spec fn v(self) -> WorkCardJsonV {
        WorkCardJsonV {
            cards: (self.cards.v()),
        }
    }
}

/// The views of a list of [`WorkCardJson`] records.
pub open spec fn work_card_json_vals(s: Seq<WorkCardJson>) -> Seq<WorkCardJsonV> {
    Seq::new(s.len(), |i: int| s[i].v())
}

/// What a JSON value denotes as a [`WorkCardJson`], if anything.
pub open spec fn work_card_json_of(v: JsonV) -> Option<WorkCardJsonV> {
    if !(v is Obj) {
        None
    } else {
        match member(v, "Cards"@) {
            None => None,
            Some(w_cards) => match work_card_cards_of(w_cards) {
                None => None,
                Some(cards) =>
                Some(WorkCardJsonV { cards })
            },
        }
    }
}

/// Decodes the elements of an array from index `i` on.
pub open spec fn work_card_json_list_of(es: Seq<JsonV>, i: int) -> Option<Seq<WorkCardJsonV>>
    decreases es.len() - i,
{
    if i >= es.len() {
        Some(Seq::empty())
    } else {
        match work_card_json_of(es[i]) {
            None => None,
            Some(x) => match work_card_json_list_of(es, i + 1) {
                None => None,
                Some(r) => Some(seq![x] + r),
            },
        }
    }
}

/// Decodes a [`WorkCardJson`] from a parsed JSON value.
pub fn decode_work_card_json(j: &Json) -> (r: Option<WorkCardJson>)
    ensures
        r is None ==> work_card_json_of(j.v()) is None,
        r matches Some(x) ==> work_card_json_of(j.v()) == Some(x.v()),
{
    if !j.is_obj() {
        return None;
    }
    let cards = match j.get("Cards") {
        Some(w) => match decode_work_card_cards(w) {
            Some(x) => x,
            None => { return None; },
        },
        None => { return None; },
    };
    Some(WorkCardJson { cards })
}

/// Decodes the array elements from index `i` on.
pub fn decode_work_card_json_list(es: &Vec<Json>, i: usize) -> (r: Option<Vec<WorkCardJson>>)
    requires
        i <= es@.len(),
    ensures
        r is None ==> work_card_json_list_of(vals_of(es@), i as int) is None,
        r matches Some(xs) ==> work_card_json_list_of(vals_of(es@), i as int) == Some(work_card_json_vals(xs@)),
    decreases es@.len() - i,
{
    if i >= es.len() {
        let out: Vec<WorkCardJson> = Vec::new();
        proof {
            assert(work_card_json_vals(out@) =~= Seq::<WorkCardJsonV>::empty());
        }
        return Some(out);
    }
    match decode_work_card_json(&es[i]) {
        None => None,
        Some(x) => {
            match decode_work_card_json_list(es, i + 1) {
                None => None,
                Some(mut xs) => {
                    let ghost xs0 = xs@;
                    xs.insert(0, x);
                    proof {
                        assert(work_card_json_vals(xs@) =~= seq![x.v()] + work_card_json_vals(xs0));
                    }
                    Some(xs)
                },
            }
        },
    }
}

/// The root of fetched work cards.
#[derive(Clone, Debug, PartialEq)]
pub struct WorkCardResponseRoot {
    pub title: String,
    pub work_cards: WorkCardJson,
}

/// The mathematical view of a [`WorkCardResponseRoot`].
pub struct WorkCardResponseRootV {
    pub title: Seq<char>,
    pub work_cards: WorkCardJsonV,
}

impl WorkCardResponseRoot {
    /// The view of this record.
    pub open spec fn v(self) -> WorkCardResponseRootV {
        WorkCardResponseRootV {
            title: (self.title@),
            work_cards: (self.work_cards.v()),
        }
    }
}

/// The views of a list of [`WorkCardResponseRoot`] records.
pub open spec fn work_card_response_root_vals(s: Seq<WorkCardResponseRoot>) -> Seq<WorkCardResponseRootV> {
    Seq::new(s.len(), |i: int| s[i].v())
}

/// What a JSON value denotes as a [`WorkCardResponseRoot`], if anything.
pub open spec fn work_card_response_root_of(v: JsonV) -> Option<WorkCardResponseRootV> {
    if !(v is Obj) {
        None
    } else {
        match str_member_or_empty(v, "title"@) {
            None => None,
            Some(title) =>
            match member(v, "json"@) {
                None => None,
                Some(w_work_cards) => match work_card_json_of(w_work_cards) {
                    None => None,
                    Some(work_cards) =>
                    Some(WorkCardResponseRootV { title, work_cards })
                },
            }
        }
    }
}

/// Decodes the elements of an array from index `i` on.
pub open spec fn work_card_response_root_list_of(es: Seq<JsonV>, i: int) -> Option<Seq<WorkCardResponseRootV>>
    decreases es.len() - i,
{
    if i >= es.len() {
        Some(Seq::empty())
    } else {
        match work_card_response_root_of(es[i]) {
            None => None,
            Some(x) => match work_card_response_root_list_of(es, i + 1) {
                None => None,
                Some(r) => Some(seq![x] + r),
            },
        }
    }
}

/// Decodes a [`WorkCardResponseRoot`] from a parsed JSON value.
pub fn decode_work_card_response_root(j: &Json) -> (r: Option<WorkCardResponseRoot>)
    ensures
        r is None ==> work_card_response_root_of(j.v()) is None,
        r matches Some(x) ==> work_card_response_root_of(j.v()) == Some(x.v()),
{
    if !j.is_obj() {
        return None;
    }
    let title = match j.get_str_or_empty("title") {
        Some(x) => x,
        None => { return None; },
    };
    let work_cards = match j.get("json") {
        Some(w) => match decode_work_card_json(w) {
            Some(x) => x,
            None => { return None; },
        },
        None => { return None; },
    };
    Some(WorkCardResponseRoot { title, work_cards })
}

/// Decodes the array elements from index `i` on.
pub fn decode_work_card_response_root_list(es: &Vec<Json>, i: usize) -> (r: Option<Vec<WorkCardResponseRoot>>)
    requires
        i <= es@.len(),
    ensures
        r is None ==> work_card_response_root_list_of(vals_of(es@), i as int) is None,
        r matches Some(xs) ==> work_card_response_root_list_of(vals_of(es@), i as int) == Some(work_card_response_root_vals(xs@)),
    decreases es@.len() - i,
{
    if i >= es.len() {
        let out: Vec<WorkCardResponseRoot> = Vec::new();
        proof {
            assert(work_card_response_root_vals(out@) =~= Seq::<WorkCardResponseRootV>::empty());
        }
        return Some(out);
    }
    match decode_work_card_response_root(&es[i]) {
        None => None,
        Some(x) => {
            match decode_work_card_response_root_list(es, i + 1) {
                None => None,
                Some(mut xs) => {
                    let ghost xs0 = xs@;
                    xs.insert(0, x);
                    proof {
                        assert(work_card_response_root_vals(xs@) =~= seq![x.v()] + work_card_response_root_vals(xs0));
                    }
                    Some(xs)
                },
            }
        },
    }
}

/// One employee overtime of a fetched declaration.
#[derive(Clone, Debug, PartialEq)]
pub struct OvertimeErgazomenosDate {
    pub f_afm: String,
    pub f_amka: String,
    pub f_eponymo: String,
    pub f_onoma: String,
    pub f_date: String,
    pub f_from: String,
    pub f_to: String,
    pub f_from_2: String,
    pub f_to_2: String,
    pub f_cancellation: String,
    pub f_step: String,
    pub f_reason: String,
    pub f_weekdates: String,
    pub f_asee: String,
}

/// The mathematical view of a [`OvertimeErgazomenosDate`].
pub struct OvertimeErgazomenosDateV {
    pub f_afm: Seq<char>,
    pub f_amka: Seq<char>,
    pub f_eponymo: Seq<char>,
    pub f_onoma: Seq<char>,
    pub f_date: Seq<char>,
    pub f_from: Seq<char>,
    pub f_to: Seq<char>,
    pub f_from_2: Seq<char>,
    pub f_to_2: Seq<char>,
    pub f_cancellation: Seq<char>,
    pub f_step: Seq<char>,
    pub f_reason: Seq<char>,
    pub f_weekdates: Seq<char>,
    pub f_asee: Seq<char>,
}

impl OvertimeErgazomenosDate {
    /// The view of this record.
    pub open spec fn v(self) -> OvertimeErgazomenosDateV {
        OvertimeErgazomenosDateV {
            f_afm: (self.f_afm@),
            f_amka: (self.f_amka@),
            f_eponymo: (self.f_eponymo@),
            f_onoma: (self.f_onoma@),
            f_date: (self.f_date@),
            f_from: (self.f_from@),
            f_to: (self.f_to@),
            f_from_2: (self.f_from_2@),
            f_to_2: (self.f_to_2@),
            f_cancellation: (self.f_cancellation@),
            f_step: (self.f_step@),
            f_reason: (self.f_reason@),
            f_weekdates: (self.f_weekdates@),
            f_asee: (self.f_asee@),
        }
    }
}

/// The views of a list of [`OvertimeErgazomenosDate`] records.
pub open spec fn overtime_ergazomenos_date_vals(s: Seq<OvertimeErgazomenosDate>) -> Seq<OvertimeErgazomenosDateV> {
    Seq::new(s.len(), |i: int| s[i].v())
}

/// What a JSON value denotes as a [`OvertimeErgazomenosDate`], if anything.
pub open spec fn overtime_ergazomenos_date_of(v: JsonV) -> Option<OvertimeErgazomenosDateV> {
    if !(v is Obj) {
        None
    } else {
        match str_member_or_empty(v, "f_afm"@) {
            None => None,
            Some(f_afm) =>
            match str_member_or_empty(v, "f_amka"@) {
                None => None,
                Some(f_amka) =>
                match str_member_or_empty(v, "f_eponymo"@) {
                    None => None,
                    Some(f_eponymo) =>
                    match str_member_or_empty(v, "f_onoma"@) {
                        None => None,
                        Some(f_onoma) =>
                        match str_member_or_empty(v, "f_date"@) {
                            None => None,
                            Some(f_date) =>
                            match str_member_or_empty(v, "f_from"@) {
                                None => None,
                                Some(f_from) =>
                                match str_member_or_empty(v, "f_to"@) {
                                    None => None,
                                    Some(f_to) =>
                                    match str_member_or_empty(v, "f_from_2"@) {
                                        None => None,
                                        Some(f_from_2) =>
                                        match str_member_or_empty(v, "f_to_2"@) {
                                            None => None,
                                            Some(f_to_2) =>
                                            match str_member_or_empty(v, "f_cancellation"@) {
                                                None => None,
                                                Some(f_cancellation) =>
                                                match str_member_or_empty(v, "f_step"@) {
                                                    None => None,
                                                    Some(f_step) =>
                                                    match str_member_or_empty(v, "f_reason"@) {
                                                        None => None,
                                                        Some(f_reason) =>
                                                        match str_member_or_empty(v, "f_weekdates"@) {
                                                            None => None,
                                                            Some(f_weekdates) =>
                                                            match str_member_or_empty(v, "f_asee"@) {
                                                                None => None,
                                                                Some(f_asee) =>
                                                                Some(OvertimeErgazomenosDateV { f_afm, f_amka, f_eponymo, f_onoma, f_date, f_from, f_to, f_from_2, f_to_2, f_cancellation, f_step, f_reason, f_weekdates, f_asee })
                                                            }
                                                        }
                                                    }
                                                }
                                            }
                                        }
                                    }
                                }
                            }
                        }
                    }
                }
            }
        }
    }
}

/// Decodes the elements of an array from index `i` on.
pub open spec fn overtime_ergazomenos_date_list_of(es: Seq<JsonV>, i: int) -> Option<Seq<OvertimeErgazomenosDateV>>
    decreases es.len() - i,
{
    if i >= es.len() {
        Some(Seq::empty())
    } else {
        match overtime_ergazomenos_date_of(es[i]) {
            None => None,
            Some(x) => match overtime_ergazomenos_date_list_of(es, i + 1) {
                None => None,
                Some(r) => Some(seq![x] + r),
            },
        }
    }
}

/// Decodes a [`OvertimeErgazomenosDate`] from a parsed JSON value.
pub fn decode_overtime_ergazomenos_date(j: &Json) -> (r: Option<OvertimeErgazomenosDate>)
    ensures
        r is None ==> overtime_ergazomenos_date_of(j.v()) is None,
        r matches Some(x) ==> overtime_ergazomenos_date_of(j.v()) == Some(x.v()),
{
    if !j.is_obj() {
        return None;
    }
    let f_afm = match j.get_str_or_empty("f_afm") {
        Some(x) => x,
        None => { return None; },
    };
    let f_amka = match j.get_str_or_empty("f_amka") {
        Some(x) => x,
        None => { return None; },
    };
    let f_eponymo = match j.get_str_or_empty("f_eponymo") {
        Some(x) => x,
        None => { return None; },
    };
    let f_onoma = match j.get_str_or_empty("f_onoma") {
        Some(x) => x,
        None => { return None; },
    };
    let f_date = match j.get_str_or_empty("f_date") {
        Some(x) => x,
        None => { return None; },
    };
    let f_from = match j.get_str_or_empty("f_from") {
        Some(x) => x,
        None => { return None; },
    };
    let f_to = match j.get_str_or_empty("f_to") {
        Some(x) => x,
        None => { return None; },
    };
    let f_from_2 = match j.get_str_or_empty("f_from_2") {
        Some(x) => x,
        None => { return None; },
    };
    let f_to_2 = match j.get_str_or_empty("f_to_2") {
        Some(x) => x,
        None => { return None; },
    };
    let f_cancellation = match j.get_str_or_empty("f_cancellation") {
        Some(x) => x,
        None => { return None; },
    };
    let f_step = match j.get_str_or_empty("f_step") {
        Some(x) => x,
        None => { return None; },
    };
    let f_reason = match j.get_str_or_empty("f_reason") {
        Some(x) => x,
        None => { return None; },
    };
    let f_weekdates = match j.get_str_or_empty("f_weekdates") {
        Some(x) => x,
        None => { return None; },
    };
    let f_asee = match j.get_str_or_empty("f_asee") {
        Some(x) => x,
        None => { return None; },
    };
    Some(OvertimeErgazomenosDate { f_afm, f_amka, f_eponymo, f_onoma, f_date, f_from, f_to, f_from_2, f_to_2, f_cancellation, f_step, f_reason, f_weekdates, f_asee })
}

/// Decodes the array elements from index `i` on.
pub fn decode_overtime_ergazomenos_date_list(es: &Vec<Json>, i: usize) -> (r: Option<Vec<OvertimeErgazomenosDate>>)
    requires
        i <= es@.len(),
    ensures
        r is None ==> overtime_ergazomenos_date_list_of(vals_of(es@), i as int) is None,
        r matches Some(xs) ==> overtime_ergazomenos_date_list_of(vals_of(es@), i as int) == Some(overtime_ergazomenos_date_vals(xs@)),
    decreases es@.len() - i,
{
    if i >= es.len() {
        let out: Vec<OvertimeErgazomenosDate> = Vec::new();
        proof {
            assert(overtime_ergazomenos_date_vals(out@) =~= Seq::<OvertimeErgazomenosDateV>::empty());
        }
        return Some(out);
    }
    match decode_overtime_ergazomenos_date(&es[i]) {
        None => None,
        Some(x) => {
            match decode_overtime_ergazomenos_date_list(es, i + 1) {
                None => None,
                Some(mut xs) => {
                    let ghost xs0 = xs@;
                    xs.insert(0, x);
                    proof {
                        assert(overtime_ergazomenos_date_vals(xs@) =~= seq![x.v()] + overtime_ergazomenos_date_vals(xs0));
                    }
                    Some(xs)
                },
            }
        },
    }
}

/// The employee container of a fetched overtime declaration.
#[derive(Clone, Debug, PartialEq)]
pub struct Ergazomenoi {
    pub overtime_ergazomenos_date: Vec<OvertimeErgazomenosDate>,
}

/// The mathematical view of a [`Ergazomenoi`].
pub struct ErgazomenoiV {
    pub overtime_ergazomenos_date: Seq<OvertimeErgazomenosDateV>,
}

impl Ergazomenoi {
    /// The view of this record.
    pub open spec fn v(self) -> ErgazomenoiV {
        ErgazomenoiV {
            overtime_ergazomenos_date: (overtime_ergazomenos_date_vals(self.overtime_ergazomenos_date@)),
        }
    }
}

/// The views of a list of [`Ergazomenoi`] records.
pub open spec fn ergazomenoi_vals(s: Seq<Ergazomenoi>) -> Seq<ErgazomenoiV> {
    Seq::new(s.len(), |i: int| s[i].v())
}

/// What a JSON value denotes as a [`Ergazomenoi`], if anything.
pub open spec fn ergazomenoi_of(v: JsonV) -> Option<ErgazomenoiV> {
    if !(v is Obj) {
        None
    } else {
        match member(v, "OvertimeErgazomenosDate"@) {
            None => None,
            Some(w_overtime_ergazomenos_date) => match w_overtime_ergazomenos_date {
                JsonV::Arr(es_overtime_ergazomenos_date) => match overtime_ergazomenos_date_list_of(es_overtime_ergazomenos_date, 0) {
                    None => None,
                    Some(overtime_ergazomenos_date) =>
                    Some(ErgazomenoiV { overtime_ergazomenos_date })
                },
                _ => None,
            },
        }
    }
}

/// Decodes the elements of an array from index `i` on.
pub open spec fn ergazomenoi_list_of(es: Seq<JsonV>, i: int) -> Option<Seq<ErgazomenoiV>>
    decreases es.len() - i,
{
    if i >= es.len() {
        Some(Seq::empty())
    } else {
        match ergazomenoi_of(es[i]) {
            None => None,
            Some(x) => match ergazomenoi_list_of(es, i + 1) {
                None => None,
                Some(r) => Some(seq![x] + r),
            },
        }
    }
}

/// Decodes a [`Ergazomenoi`] from a parsed JSON value.
pub fn decode_ergazomenoi(j: &Json) -> (r: Option<Ergazomenoi>)
    ensures
        r is None ==> ergazomenoi_of(j.v()) is None,
        r matches Some(x) ==> ergazomenoi_of(j.v()) == Some(x.v()),
{
    if !j.is_obj() {
        return None;
    }
    let overtime_ergazomenos_date = match j.get("OvertimeErgazomenosDate") {
        Some(w) => match w {
            Json::Arr(es) => {
                proof {
                    assert((*w).v()->Arr_0 =~= vals_of(es@));
                }
                match decode_overtime_ergazomenos_date_list(es, 0) {
                    Some(x) => x,
                    None => { return None; },
                }
            },
            _ => { return None; },
        },
        None => { return None; },
    };
    Some(Ergazomenoi { overtime_ergazomenos_date })
}

/// Decodes the array elements from index `i` on.
pub fn decode_ergazomenoi_list(es: &Vec<Json>, i: usize) -> (r: Option<Vec<Ergazomenoi>>)
    requires
        i <= es@.len(),
    ensures
        r is None ==> ergazomenoi_list_of(vals_of(es@), i as int) is None,
        r matches Some(xs) ==> ergazomenoi_list_of(vals_of(es@), i as int) == Some(ergazomenoi_vals(xs@)),
    decreases es@.len() - i,
{
    if i >= es.len() {
        let out: Vec<Ergazomenoi> = Vec::new();
        proof {
            assert(ergazomenoi_vals(out@) =~= Seq::<ErgazomenoiV>::empty());
        }
        return Some(out);
    }
    match decode_ergazomenoi(&es[i]) {
        None => None,
        Some(x) => {
            match decode_ergazomenoi_list(es, i + 1) {
                None => None,
                Some(mut xs) => {
                    let ghost xs0 = xs@;
                    xs.insert(0, x);
                    proof {
                        assert(ergazomenoi_vals(xs@) =~= seq![x.v()] + ergazomenoi_vals(xs0));
                    }
                    Some(xs)
                },
            }
        },
    }
}

/// One branch declaration of fetched overtimes.
#[derive(Clone, Debug, PartialEq)]
pub struct Overtime {
    pub f_aa_pararthmatos: String,
    pub f_rel_protocol: String,
    pub f_rel_date: String,
    pub f_ypiresia_sepe: String,
    pub f_ergodotikh_organwsh: String,
    pub f_kad_kyria: String,
    pub f_kad_deyt_1: String,
    pub f_kad_deyt_2: String,
    pub f_kad_deyt_3: String,
    pub f_kad_deyt_4: String,
    pub f_kad_pararthmatos: String,
    pub f_kallikratis_pararthmatos: String,
    pub f_comments: String,
    pub f_afm_proswpoy: String,
    pub ergazomenoi: Ergazomenoi,
}

/// The mathematical view of a [`Overtime`].
pub struct OvertimeV {
    pub f_aa_pararthmatos: Seq<char>,
    pub f_rel_protocol: Seq<char>,
    pub f_rel_date: Seq<char>,
    pub f_ypiresia_sepe: Seq<char>,
    pub f_ergodotikh_organwsh: Seq<char>,
    pub f_kad_kyria: Seq<char>,
    pub f_kad_deyt_1: Seq<char>,
    pub f_kad_deyt_2: Seq<char>,
    pub f_kad_deyt_3: Seq<char>,
    pub f_kad_deyt_4: Seq<char>,
    pub f_kad_pararthmatos: Seq<char>,
    pub f_kallikratis_pararthmatos: Seq<char>,
    pub f_comments: Seq<char>,
    pub f_afm_proswpoy: Seq<char>,
    pub ergazomenoi: ErgazomenoiV,
}

impl Overtime {
    /// The view of this record.
    pub open spec fn v(self) -> OvertimeV {
        OvertimeV {
            f_aa_pararthmatos: (self.f_aa_pararthmatos@),
            f_rel_protocol: (self.f_rel_protocol@),
            f_rel_date: (self.f_rel_date@),
            f_ypiresia_sepe: (self.f_ypiresia_sepe@),
            f_ergodotikh_organwsh: (self.f_ergodotikh_organwsh@),
            f_kad_kyria: (self.f_kad_kyria@),
            f_kad_deyt_1: (self.f_kad_deyt_1@),
            f_kad_deyt_2: (self.f_kad_deyt_2@),
            f_kad_deyt_3: (self.f_kad_deyt_3@),
            f_kad_deyt_4: (self.f_kad_deyt_4@),
            f_kad_pararthmatos: (self.f_kad_pararthmatos@),
            f_kallikratis_pararthmatos: (self.f_kallikratis_pararthmatos@),
            f_comments: (self.f_comments@),
            f_afm_proswpoy: (self.f_afm_proswpoy@),
            ergazomenoi: (self.ergazomenoi.v()),
        }
    }
}

/// The views of a list of [`Overtime`] records.
pub open spec fn overtime_vals(s: Seq<Overtime>) -> Seq<OvertimeV> {
    Seq::new(s.len(), |i: int| s[i].v())
}

/// What a JSON value denotes as a [`Overtime`], if anything.
pub open spec fn overtime_of(v: JsonV) -> Option<OvertimeV> {
    if !(v is Obj) {
        None
    } else {
        match str_member_or_empty(v, "f_aa_pararthmatos"@) {
            None => None,
            Some(f_aa_pararthmatos) =>
            match str_member_or_empty(v, "f_rel_protocol"@) {
                None => None,
                Some(f_rel_protocol) =>
                match str_member_or_empty(v, "f_rel_date"@) {
                    None => None,
                    Some(f_rel_date) =>
                    match str_member_or_empty(v, "f_ypiresia_sepe"@) {
                        None => None,
                        Some(f_ypiresia_sepe) =>
                        match str_member_or_empty(v, "f_ergodotikh_organwsh"@) {
                            None => None,
                            Some(f_ergodotikh_organwsh) =>
                            match str_member_or_empty(v, "f_kad_kyria"@) {
                                None => None,
                                Some(f_kad_kyria) =>
                                match str_member_or_empty(v, "f_kad_deyt_1"@) {
                                    None => None,
                                    Some(f_kad_deyt_1) =>
                                    match str_member_or_empty(v, "f_kad_deyt_2"@) {
                                        None => None,
                                        Some(f_kad_deyt_2) =>
                                        match str_member_or_empty(v, "f_kad_deyt_3"@) {
                                            None => None,
                                            Some(f_kad_deyt_3) =>
                                            match str_member_or_empty(v, "f_kad_deyt_4"@) {
                                                None => None,
                                                Some(f_kad_deyt_4) =>
                                                match str_member_or_empty(v, "f_kad_pararthmatos"@) {
                                                    None => None,
                                                    Some(f_kad_pararthmatos) =>
                                                    match str_member_or_empty(v, "f_kallikratis_pararthmatos"@) {
                                                        None => None,
                                                        Some(f_kallikratis_pararthmatos) =>
                                                        match str_member_or_empty(v, "f_comments"@) {
                                                            None => None,
                                                            Some(f_comments) =>
                                                            match str_member_or_empty(v, "f_afm_proswpoy"@) {
                                                                None => None,
                                                                Some(f_afm_proswpoy) =>
                                                                match member(v, "Ergazomenoi"@) {
                                                                    None => None,
                                                                    Some(w_ergazomenoi) => match ergazomenoi_of(w_ergazomenoi) {
                                                                        None => None,
                                                                        Some(ergazomenoi) =>
                                                                        Some(OvertimeV { f_aa_pararthmatos, f_rel_protocol, f_rel_date, f_ypiresia_sepe, f_ergodotikh_organwsh, f_kad_kyria, f_kad_deyt_1, f_kad_deyt_2, f_kad_deyt_3, f_kad_deyt_4, f_kad_pararthmatos, f_kallikratis_pararthmatos, f_comments, f_afm_proswpoy, ergazomenoi })
                                                                    },
                                                                }
                                                            }
                                                        }
                                                    }
                                                }
                                            }
                                        }
                                    }
                                }
                            }
                        }
                    }
                }
            }
        }
    }
}

/// Decodes the elements of an array from index `i` on.
pub open spec fn overtime_list_of(es: Seq<JsonV>, i: int) -> Option<Seq<OvertimeV>>
    decreases es.len() - i,
{
    if i >= es.len() {
        Some(Seq::empty())
    } else {
        match overtime_of(es[i]) {
            None => None,
            Some(x) => match overtime_list_of(es, i + 1) {
                None => None,
                Some(r) => Some(seq![x] + r),
            },
        }
    }
}

/// Decodes a [`Overtime`] from a parsed JSON value.
pub fn decode_overtime(j: &Json) -> (r: Option<Overtime>)
    ensures
        r is None ==> overtime_of(j.v()) is None,
        r matches Some(x) ==> overtime_of(j.v()) == Some(x.v()),
{
    if !j.is_obj() {
        return None;
    }
    let f_aa_pararthmatos = match j.get_str_or_empty("f_aa_pararthmatos") {
        Some(x) => x,
        None => { return None; },
    };
    let f_rel_protocol = match j.get_str_or_empty("f_rel_protocol") {
        Some(x) => x,
        None => { return None; },
    };
    let f_rel_date = match j.get_str_or_empty("f_rel_date") {
        Some(x) => x,
        None => { return None; },
    };
    let f_ypiresia_sepe = match j.get_str_or_empty("f_ypiresia_sepe") {
        Some(x) => x,
        None => { return None; },
    };
    let f_ergodotikh_organwsh = match j.get_str_or_empty("f_ergodotikh_organwsh") {
        Some(x) => x,
        None => { return None; },
    };
    let f_kad_kyria = match j.get_str_or_empty("f_kad_kyria") {
        Some(x) => x,
        None => { return None; },
    };
    let f_kad_deyt_1 = match j.get_str_or_empty("f_kad_deyt_1") {
        Some(x) => x,
        None => { return None; },
    };
    let f_kad_deyt_2 = match j.get_str_or_empty("f_kad_deyt_2") {
        Some(x) => x,
        None => { return None; },
    };
    let f_kad_deyt_3 = match j.get_str_or_empty("f_kad_deyt_3") {
        Some(x) => x,
        None => { return None; },
    };
    let f_kad_deyt_4 = match j.get_str_or_empty("f_kad_deyt_4") {
        Some(x) => x,
        None => { return None; },
    };
    let f_kad_pararthmatos = match j.get_str_or_empty("f_kad_pararthmatos") {
        Some(x) => x,
        None => { return None; },
    };
    let f_kallikratis_pararthmatos = match j.get_str_or_empty("f_kallikratis_pararthmatos") {
        Some(x) => x,
        None => { return None; },
    };
    let f_comments = match j.get_str_or_empty("f_comments") {
        Some(x) => x,
        None => { return None; },
    };
    let f_afm_proswpoy = match j.get_str_or_empty("f_afm_proswpoy") {
        Some(x) => x,
        None => { return None; },
    };
    let ergazomenoi = match j.get("Ergazomenoi") {
        Some(w) => match decode_ergazomenoi(w) {
            Some(x) => x,
            None => { return None; },
        },
        None => { return None; },
    };
    Some(Overtime { f_aa_pararthmatos, f_rel_protocol, f_rel_date, f_ypiresia_sepe, f_ergodotikh_organwsh, f_kad_kyria, f_kad_deyt_1, f_kad_deyt_2, f_kad_deyt_3, f_kad_deyt_4, f_kad_pararthmatos, f_kallikratis_pararthmatos, f_comments, f_afm_proswpoy, ergazomenoi })
}

/// Decodes the array elements from index `i` on.
pub fn decode_overtime_list(es: &Vec<Json>, i: usize) -> (r: Option<Vec<Overtime>>)
    requires
        i <= es@.len(),
    ensures
        r is None ==> overtime_list_of(vals_of(es@), i as int) is None,
        r matches Some(xs) ==> overtime_list_of(vals_of(es@), i as int) == Some(overtime_vals(xs@)),
    decreases es@.len() - i,
{
    if i >= es.len() {
        let out: Vec<Overtime> = Vec::new();
        proof {
            assert(overtime_vals(out@) =~= Seq::<OvertimeV>::empty());
        }
        return Some(out);
    }
    match decode_overtime(&es[i]) {
        None => None,
        Some(x) => {
            match decode_overtime_list(es, i + 1) {
                None => None,
                Some(mut xs) => {
                    let ghost xs0 = xs@;
                    xs.insert(0, x);
                    proof {
                        assert(overtime_vals(xs@) =~= seq![x.v()] + overtime_vals(xs0));
                    }
                    Some(xs)
                },
            }
        },
    }
}

/// The declaration container of fetched overtimes.
#[derive(Clone, Debug, PartialEq)]
pub struct Overtimes {
    pub overtime: Vec<Overtime>,
}

/// The mathematical view of a [`Overtimes`].
pub struct OvertimesV {
    pub overtime: Seq<OvertimeV>,
}

impl Overtimes {
    /// The view of this record.
    pub open spec fn v(self) -> OvertimesV {
        OvertimesV {
            overtime: (overtime_vals(self.overtime@)),
        }
    }
}

/// The views of a list of [`Overtimes`] records.
pub open spec fn overtimes_vals(s: Seq<Overtimes>) -> Seq<OvertimesV> {
    Seq::new(s.len(), |i: int| s[i].v())
}

/// What a JSON value denotes as a [`Overtimes`], if anything.
pub open spec fn overtimes_of(v: JsonV) -> Option<OvertimesV> {
    if !(v is Obj) {
        None
    } else {
        match member(v, "Overtime"@) {
            None => None,
            Some(w_overtime) => match w_overtime {
                JsonV::Arr(es_overtime) => match overtime_list_of(es_overtime, 0) {
                    None => None,
                    Some(overtime) =>
                    Some(OvertimesV { overtime })
                },
                _ => None,
            },
        }
    }
}

/// Decodes the elements of an array from index `i` on.
pub open spec fn overtimes_list_of(es: Seq<JsonV>, i: int) -> Option<Seq<OvertimesV>>
    decreases es.len() - i,
{
    if i >= es.len() {
        Some(Seq::empty())
    } else {
        match overtimes_of(es[i]) {
            None => None,
            Some(x) => match overtimes_list_of(es, i + 1) {
                None => None,
                Some(r) => Some(seq![x] + r),
            },
        }
    }
}

/// Decodes a [`Overtimes`] from a parsed JSON value.
pub fn decode_overtimes(j: &Json) -> (r: Option<Overtimes>)
    ensures
        r is None ==> overtimes_of(j.v()) is None,
        r matches Some(x) ==> overtimes_of(j.v()) == Some(x.v()),
{
    if !j.is_obj() {
        return None;
    }
    let overtime = match j.get("Overtime") {
        Some(w) => match w {
            Json::Arr(es) => {
                proof {
                    assert((*w).v()->Arr_0 =~= vals_of(es@));
                }
                match decode_overtime_list(es, 0) {
                    Some(x) => x,
                    None => { return None; },
                }
            },
            _ => { return None; },
        },
        None => { return None; },
    };
    Some(Overtimes { overtime })
}

/// Decodes the array elements from index `i` on.
pub fn decode_overtimes_list(es: &Vec<Json>, i: usize) -> (r: Option<Vec<Overtimes>>)
    requires
        i <= es@.len(),
    ensures
        r is None ==> overtimes_list_of(vals_of(es@), i as int) is None,
        r matches Some(xs) ==> overtimes_list_of(vals_of(es@), i as int) == Some(overtimes_vals(xs@)),
    decreases es@.len() - i,
{
    if i >= es.len() {
        let out: Vec<Overtimes> = Vec::new();
        proof {
            assert(overtimes_vals(out@) =~= Seq::<OvertimesV>::empty());
        }
        return Some(out);
    }
    match decode_overtimes(&es[i]) {
        None => None,
        Some(x) => {
            match decode_overtimes_list(es, i + 1) {
                None => None,
                Some(mut xs) => {
                    let ghost xs0 = xs@;
                    xs.insert(0, x);
                    proof {
                        assert(overtimes_vals(xs@) =~= seq![x.v()] + overtimes_vals(xs0));
                    }
                    Some(xs)
                },
            }
        },
    }
}

/// The payload of fetched overtimes.
#[derive(Clone, Debug, PartialEq)]
pub struct OvertimeJson {
    pub overtimes: Overtimes,
}

/// The mathematical view of a [`OvertimeJson`].
pub struct OvertimeJsonV {
    pub overtimes: OvertimesV,
}

impl OvertimeJson {
    /// The view of this record.
    pub open spec fn v(self) -> OvertimeJsonV {
        OvertimeJsonV {
            overtimes: (self.overtimes.v()),
        }
    }
}

/// The views of a list of [`OvertimeJson`] records.
pub open spec fn overtime_json_vals(s: Seq<OvertimeJson>) -> Seq<OvertimeJsonV> {
    Seq::new(s.len(), |i: int| s[i].v())
}

/// What a JSON value denotes as a [`OvertimeJson`], if anything.
pub open spec fn overtime_json_of(v: JsonV) -> Option<OvertimeJsonV> {
    if !(v is Obj) {
        None
    } else {
        match member(v, "Overtimes"@) {
            None => None,
            Some(w_overtimes) => match overtimes_of(w_overtimes) {
                None => None,
                Some(overtimes) =>
                Some(OvertimeJsonV { overtimes })
            },
        }
    }
}

/// Decodes the elements of an array from index `i` on.
pub open spec fn overtime_json_list_of(es: Seq<JsonV>, i: int) -> Option<Seq<OvertimeJsonV>>
    decreases es.len() - i,
{
    if i >= es.len() {
        Some(Seq::empty())
    } else {
        match overtime_json_of(es[i]) {
            None => None,
            Some(x) => match overtime_json_list_of(es, i + 1) {
                None => None,
                Some(r) => Some(seq![x] + r),
            },
        }
    }
}

/// Decodes a [`OvertimeJson`] from a parsed JSON value.
pub fn decode_overtime_json(j: &Json) -> (r: Option<OvertimeJson>)
    ensures
        r is None ==> overtime_json_of(j.v()) is None,
        r matches Some(x) ==> overtime_json_of(j.v()) == Some(x.v()),
{
    if !j.is_obj() {
        return None;
    }
    let overtimes = match j.get("Overtimes") {
        Some(w) => match decode_overtimes(w) {
            Some(x) => x,
            None => { return None; },
        },
        None => { return None; },
    };
    Some(OvertimeJson { overtimes })
}

/// Decodes the array elements from index `i` on.
pub fn decode_overtime_json_list(es: &Vec<Json>, i: usize) -> (r: Option<Vec<OvertimeJson>>)
    requires
        i <= es@.len(),
    ensures
        r is None ==> overtime_json_list_of(vals_of(es@), i as int) is None,
        r matches Some(xs) ==> overtime_json_list_of(vals_of(es@), i as int) == Some(overtime_json_vals(xs@)),
    decreases es@.len() - i,
{
    if i >= es.len() {
        let out: Vec<OvertimeJson> = Vec::new();
        proof {
            assert(overtime_json_vals(out@) =~= Seq::<OvertimeJsonV>::empty());
        }
        return Some(out);
    }
    match decode_overtime_json(&es[i]) {
        None => None,
        Some(x) => {
            match decode_overtime_json_list(es, i + 1) {
                None => None,
                Some(mut xs) => {
                    let ghost xs0 = xs@;
                    xs.insert(0, x);
                    proof {
                        assert(overtime_json_vals(xs@) =~= seq![x.v()] + overtime_json_vals(xs0));
                    }
                    Some(xs)
                },
            }
        },
    }
}

/// The root of fetched overtimes.
#[derive(Clone, Debug, PartialEq)]
pub struct OvertimeResponseRoot {
    pub title: String,
    pub overtimes: OvertimeJson,
}

/// The mathematical view of a [`OvertimeResponseRoot`].
pub struct OvertimeResponseRootV {
    pub title: Seq<char>,
    pub overtimes: OvertimeJsonV,
}

impl OvertimeResponseRoot {
    /// The view of this record.
    pub open spec fn v(self) -> OvertimeResponseRootV {
        OvertimeResponseRootV {
            title: (self.title@),
            overtimes: (self.overtimes.v()),
        }
    }
}

/// The views of a list of [`OvertimeResponseRoot`] records.
pub open spec fn overtime_response_root_vals(s: Seq<OvertimeResponseRoot>) -> Seq<OvertimeResponseRootV> {
    Seq::new(s.len(), |i: int| s[i].v())
}

/// What a JSON value denotes as a [`OvertimeResponseRoot`], if anything.
pub open spec fn overtime_response_root_of(v: JsonV) -> Option<OvertimeResponseRootV> {
    if !(v is Obj) {
        None
    } else {
        match str_member_or_empty(v, "title"@) {
            None => None,
            Some(title) =>
            match member(v, "json"@) {
                None => None,
                Some(w_overtimes) => match overtime_json_of(w_overtimes) {
                    None => None,
                    Some(overtimes) =>
                    Some(OvertimeResponseRootV { title, overtimes })
                },
            }
        }
    }
}

/// Decodes the elements of an array from index `i` on.
pub open spec fn overtime_response_root_list_of(es: Seq<JsonV>, i: int) -> Option<Seq<OvertimeResponseRootV>>
    decreases es.len() - i,
{
    if i >= es.len() {
        Some(Seq::empty())
    } else {
        match overtime_response_root_of(es[i]) {
            None => None,
            Some(x) => match overtime_response_root_list_of(es, i + 1) {
                None => None,
                Some(r) => Some(seq![x] + r),
            },
        }
    }
}

/// Decodes a [`OvertimeResponseRoot`] from a parsed JSON value.
pub fn decode_overtime_response_root(j: &Json) -> (r: Option<OvertimeResponseRoot>)
    ensures
        r is None ==> overtime_response_root_of(j.v()) is None,
        r matches Some(x) ==> overtime_response_root_of(j.v()) == Some(x.v()),
{
    if !j.is_obj() {
        return None;
    }
    let title = match j.get_str_or_empty("title") {
        Some(x) => x,
        None => { return None; },
    };
    let overtimes = match j.get("json") {
        Some(w) => match decode_overtime_json(w) {
            Some(x) => x,
            None => { return None; },
        },
        None => { return None; },
    };
    Some(OvertimeResponseRoot { title, overtimes })
}

/// Decodes the array elements from index `i` on.
pub fn decode_overtime_response_root_list(es: &Vec<Json>, i: usize) -> (r: Option<Vec<OvertimeResponseRoot>>)
    requires
        i <= es@.len(),
    ensures
        r is None ==> overtime_response_root_list_of(vals_of(es@), i as int) is None,
        r matches Some(xs) ==> overtime_response_root_list_of(vals_of(es@), i as int) == Some(overtime_response_root_vals(xs@)),
    decreases es@.len() - i,
{
    if i >= es.len() {
        let out: Vec<OvertimeResponseRoot> = Vec::new();
        proof {
            assert(overtime_response_root_vals(out@) =~= Seq::<OvertimeResponseRootV>::empty());
        }
        return Some(out);
    }
    match decode_overtime_response_root(&es[i]) {
        None => None,
        Some(x) => {
            match decode_overtime_response_root_list(es, i + 1) {
                None => None,
                Some(mut xs) => {
                    let ghost xs0 = xs@;
                    xs.insert(0, x);
                    proof {
                        assert(overtime_response_root_vals(xs@) =~= seq![x.v()] + overtime_response_root_vals(xs0));
                    }
                    Some(xs)
                },
            }
        },
    }
}

/// One submission type of the lookup endpoint.
#[derive(Clone, Debug, PartialEq)]
pub struct LookupResponse {
    pub id: i64,
    pub code: String,
    pub description: String,
}

/// The mathematical view of a [`LookupResponse`].
pub struct LookupResponseV {
    pub id: int,
    pub code: Seq<char>,
    pub description: Seq<char>,
}

impl LookupResponse {
    /// The view of this record.
    pub open spec fn v(self) -> LookupResponseV {
        LookupResponseV {
            id: (self.id as int),
            code: (self.code@),
            description: (self.description@),
        }
    }
}

/// The views of a list of [`LookupResponse`] records.
pub open spec fn lookup_response_vals(s: Seq<LookupResponse>) -> Seq<LookupResponseV> {
    Seq::new(s.len(), |i: int| s[i].v())
}

/// What a JSON value denotes as a [`LookupResponse`], if anything.
pub open spec fn lookup_response_of(v: JsonV) -> Option<LookupResponseV> {
    if !(v is Obj) {
        None
    } else {
        match int_member(v, "id"@) {
            None => None,
            Some(id) =>
            match str_member_or_empty(v, "code"@) {
                None => None,
                Some(code) =>
                match str_member_or_empty(v, "description"@) {
                    None => None,
                    Some(description) =>
                    Some(LookupResponseV { id, code, description })
                }
            }
        }
    }
}

/// Decodes the elements of an array from index `i` on.
pub open spec fn lookup_response_list_of(es: Seq<JsonV>, i: int) -> Option<Seq<LookupResponseV>>
    decreases es.len() - i,
{
    if i >= es.len() {
        Some(Seq::empty())
    } else {
        match lookup_response_of(es[i]) {
            None => None,
            Some(x) => match lookup_response_list_of(es, i + 1) {
                None => None,
                Some(r) => Some(seq![x] + r),
            },
        }
    }
}

/// Decodes a [`LookupResponse`] from a parsed JSON value.
pub fn decode_lookup_response(j: &Json) -> (r: Option<LookupResponse>)
    ensures
        r is None ==> lookup_response_of(j.v()) is None,
        r matches Some(x) ==> lookup_response_of(j.v()) == Some(x.v()),
{
    if !j.is_obj() {
        return None;
    }
    let id = match j.get_i64("id") {
        Some(x) => x,
        None => { return None; },
    };
    let code = match j.get_str_or_empty("code") {
        Some(x) => x,
        None => { return None; },
    };
    let description = match j.get_str_or_empty("description") {
        Some(x) => x,
        None => { return None; },
    };
    Some(LookupResponse { id, code, description })
}

/// Decodes the array elements from index `i` on.
pub fn decode_lookup_response_list(es: &Vec<Json>, i: usize) -> (r: Option<Vec<LookupResponse>>)
    requires
        i <= es@.len(),
    ensures
        r is None ==> lookup_response_list_of(vals_of(es@), i as int) is None,
        r matches Some(xs) ==> lookup_response_list_of(vals_of(es@), i as int) == Some(lookup_response_vals(xs@)),
    decreases es@.len() - i,
{
    if i >= es.len() {
        let out: Vec<LookupResponse> = Vec::new();
        proof {
            assert(lookup_response_vals(out@) =~= Seq::<LookupResponseV>::empty());
        }
        return Some(out);
    }
    match decode_lookup_response(&es[i]) {
        None => None,
        Some(x) => {
            match decode_lookup_response_list(es, i + 1) {
                None => None,
                Some(mut xs) => {
                    let ghost xs0 = xs@;
                    xs.insert(0, x);
                    proof {
                        assert(lookup_response_vals(xs@) =~= seq![x.v()] + lookup_response_vals(xs0));
                    }
                    Some(xs)
                },
            }
        },
    }
}

/// What a body from the weekly schedule endpoint denotes.
pub open spec fn week_schedule_root_of(body: Seq<char>) -> Option<WeekScheduleResponseRootV> {
    match parse_json_spec(body) {
        None => None,
        Some(v) => week_schedule_response_root_of(v),
    }
}

/// Parses a response body from the weekly schedule endpoint.
pub fn parse_week_schedule_root(body: &str) -> (r: Result<WeekScheduleResponseRoot, APIError>)
    ensures
        r matches Ok(x) ==> week_schedule_root_of(body@) == Some(x.v()),
        r matches Err(e) ==> week_schedule_root_of(body@) is None && e is Decode,
{
    match parse_json(body) {
        Some(j) => match decode_week_schedule_response_root(&j) {
            Some(x) => Ok(x),
            None => Err(APIError::decode_failure()),
        },
        None => Err(APIError::decode_failure()),
    }
}

/// What a body from the work-card endpoint denotes.
pub open spec fn work_card_root_of(body: Seq<char>) -> Option<WorkCardResponseRootV> {
    match parse_json_spec(body) {
        None => None,
        Some(v) => work_card_response_root_of(v),
    }
}

/// Parses a response body from the work-card endpoint.
pub fn parse_work_card_root(body: &str) -> (r: Result<WorkCardResponseRoot, APIError>)
    ensures
        r matches Ok(x) ==> work_card_root_of(body@) == Some(x.v()),
        r matches Err(e) ==> work_card_root_of(body@) is None && e is Decode,
{
    match parse_json(body) {
        Some(j) => match decode_work_card_response_root(&j) {
            Some(x) => Ok(x),
            None => Err(APIError::decode_failure()),
        },
        None => Err(APIError::decode_failure()),
    }
}

/// What a body from the overtime endpoint denotes.
pub open spec fn overtime_root_of(body: Seq<char>) -> Option<OvertimeResponseRootV> {
    match parse_json_spec(body) {
        None => None,
        Some(v) => overtime_response_root_of(v),
    }
}

/// Parses a response body from the overtime endpoint.
pub fn parse_overtime_root(body: &str) -> (r: Result<OvertimeResponseRoot, APIError>)
    ensures
        r matches Ok(x) ==> overtime_root_of(body@) == Some(x.v()),
        r matches Err(e) ==> overtime_root_of(body@) is None && e is Decode,
{
    match parse_json(body) {
        Some(j) => match decode_overtime_response_root(&j) {
            Some(x) => Ok(x),
            None => Err(APIError::decode_failure()),
        },
        None => Err(APIError::decode_failure()),
    }
}

/// The shape the submissions lookup endpoint returns: a flat list.
pub type LookupRoot = Vec<LookupResponse>;

/// What a body from the submissions lookup endpoint denotes.
pub open spec fn lookup_root_of(body: Seq<char>) -> Option<Seq<LookupResponseV>> {
    match parse_json_spec(body) {
        None => None,
        Some(v) => match v {
            JsonV::Arr(es) => lookup_response_list_of(es, 0),
            _ => None,
        },
    }
}

/// Parses a response body from the submissions lookup endpoint.
pub fn parse_lookup_root(body: &str) -> (r: Result<Vec<LookupResponse>, APIError>)
    ensures
        r matches Ok(xs) ==> lookup_root_of(body@) == Some(lookup_response_vals(xs@)),
        r matches Err(e) ==> lookup_root_of(body@) is None && e is Decode,
{
    match parse_json(body) {
        Some(j) => match &j {
            Json::Arr(es) => {
                proof {
                    assert(j.v()->Arr_0 =~= vals_of(es@));
                }
                match decode_lookup_response_list(es, 0) {
                    Some(xs) => Ok(xs),
                    None => Err(APIError::decode_failure()),
                }
            },
            _ => Err(APIError::decode_failure()),
        },
        None => Err(APIError::decode_failure()),
    }
}

} // verus!
