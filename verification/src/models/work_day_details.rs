//! One work interval of an employee's day, and its builder.

use vstd::prelude::*;
use crate::dates::{DateTime, epoch_datetime, time_hm, format_time};
use crate::types::ScheduleWorkType;
use crate::wire::{str_field, append_str_field, begin_obj, comma, end_obj};

verus! {

/// A work interval: the kind of work and the start and end times.
#[derive(Clone)]
pub struct WorkDayDetails {
    pub work_type: ScheduleWorkType,
    pub start_time: DateTime,
    pub end_time: DateTime,
}

impl WorkDayDetails {
    /// Well-formed start and end times.
    pub open spec fn valid(self) -> bool {
        self.start_time.valid() && self.end_time.valid()
    }

    /// Whether the interval's times are well formed.
    pub fn is_wf(&self) -> (r: bool)
        ensures
            r == self.valid(),
    {
        self.start_time.is_wf() && self.end_time.is_wf()
    }

    /// The exact wire object: the work-type code and the two `HH:MM`
    /// times under their fixed keys.
    pub open spec fn wire(self) -> Seq<char> {
        seq!['{'] + str_field("f_type"@, self.work_type.spec_value()) + seq![','] + str_field(
            "f_from"@,
            time_hm(self.start_time),
        ) + seq![','] + str_field("f_to"@, time_hm(self.end_time)) + seq!['}']
    }

    /// The wire text of this interval alone.
    pub fn to_wire_json(&self) -> (r: String)
        requires
            self.valid(),
        ensures
            r@ == self.wire(),
    {
        let from = format_time(&self.start_time);
        let to = format_time(&self.end_time);
        let mut out = begin_obj();
        append_str_field(&mut out, "f_type", self.work_type.value());
        comma(&mut out);
        append_str_field(&mut out, "f_from", from.as_str());
        comma(&mut out);
        append_str_field(&mut out, "f_to", to.as_str());
        end_obj(&mut out);
        out
    }

    /// Appends the wire object of this interval.
    pub fn append_wire(&self, out: &mut String)
        requires
            self.valid(),
        ensures
            final(out)@ == old(out)@ + self.wire(),
    {
        let text = self.to_wire_json();
        out.append(text.as_str());
    }
}

/// Builds a [`WorkDayDetails`], refusing to finish while the mandatory
/// work type is unset.
pub struct WorkDayDetailsBuilder {
    pub work_type: Option<ScheduleWorkType>,
    pub start_time: DateTime,
    pub end_time: DateTime,
}

impl WorkDayDetailsBuilder {
    /// A fresh builder: no work type, epoch times.
    pub fn builder() -> (r: WorkDayDetailsBuilder)
        ensures
            r.work_type is None,
            r.start_time == epoch_datetime(),
            r.end_time == epoch_datetime(),
    {
        WorkDayDetailsBuilder {
            work_type: None,
            start_time: crate::dates::unix_epoch_datetime(),
            end_time: crate::dates::unix_epoch_datetime(),
        }
    }

    /// Finishes the record; fails exactly when the work type is unset.
    pub fn build(self) -> (r: Result<WorkDayDetails, String>)
        ensures
            (r is Ok) == (self.work_type is Some),
            r matches Ok(w) ==> self.work_type == Some(w.work_type) && w.start_time
                == self.start_time && w.end_time == self.end_time,
            r matches Err(e) ==> e@ == "Work type is required"@,
    {
        match self.work_type {
            Some(work_type) => Ok(
                WorkDayDetails { work_type, start_time: self.start_time, end_time: self.end_time },
            ),
            None => Err(String::from_str("Work type is required")),
        }
    }

    /// Sets the mandatory work type.
    pub fn set_work_type(self, work_type: ScheduleWorkType) -> (r: Self)
        ensures
            r.work_type == Some(work_type),
            r.start_time == self.start_time,
            r.end_time == self.end_time,
    {
        WorkDayDetailsBuilder { work_type: Some(work_type), ..self }
    }

    /// Sets the start time.
    pub fn set_start_time(self, start_time: DateTime) -> (r: Self)
        ensures
            r.start_time == start_time,
            r.work_type == self.work_type,
            r.end_time == self.end_time,
    {
        WorkDayDetailsBuilder { start_time, ..self }
    }

    /// Sets the end time.
    pub fn set_end_time(self, end_time: DateTime) -> (r: Self)
        ensures
            r.end_time == end_time,
            r.work_type == self.work_type,
            r.start_time == self.start_time,
    {
        WorkDayDetailsBuilder { end_time, ..self }
    }
}

impl crate::wire::Wire for WorkDayDetails {
    open spec fn wire_wf(&self) -> bool {
        self.valid()
    }

    open spec fn wire_text(&self) -> Seq<char> {
        self.wire()
    }

    fn append_to(&self, out: &mut String) {
        self.append_wire(out);
    }
}

} // verus!
