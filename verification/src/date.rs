//! Calendar dates used as cache-key components.
//!
//! The cache layer never does calendar arithmetic: a date is an ordered,
//! comparable key component. Ordering is lexicographic on
//! (year, month, day).

use vstd::prelude::*;

verus! {

/// A calendar date (year, month, day).
///
/// The well-formedness predicate [`Date::wf`] bounds the fields to the range
/// this crate can render as a fixed-width sortable string
/// (years 1 through 9999); the in-memory backend accepts any field values.
#[derive(Clone, Copy, Debug, PartialEq, Eq, Structural, Hash)]
pub struct Date {
    /// Year (1 through 9999 for well-formed dates).
    pub year: i32,
    /// Month (1 through 12 for well-formed dates).
    pub month: u32,
    /// Day of month (1 through 31 for well-formed dates).
    pub day: u32,
}

impl Date {
    /// Field bounds under which a date can be rendered as a fixed-width,
    /// lexicographically sortable string.
    pub open spec fn wf(self) -> bool {
        1 <= self.year <= 9999 && 1 <= self.month <= 12 && 1 <= self.day <= 31
    }

    /// Lexicographic order on (year, month, day).
    pub open spec fn spec_le(self, other: Self) -> bool {
        if self.year != other.year {
            self.year < other.year
        } else if self.month != other.month {
            self.month < other.month
        } else {
            self.day <= other.day
        }
    }

    /// Builds a date from its components, or returns `None` when a component
    /// is out of the well-formed range.
    pub fn from_ymd_opt(year: i32, month: u32, day: u32) -> (r: Option<Date>)
        ensures
            r is Some <==> (1 <= year <= 9999 && 1 <= month <= 12 && 1 <= day <= 31),
            r matches Some(d) ==> d == (Date { year, month, day }) && d.wf(),
    {
        if 1 <= year && year <= 9999 && 1 <= month && month <= 12 && 1 <= day && day <= 31 {
            Some(Date { year, month, day })
        } else {
            None
        }
    }

    /// The least well-formed date.
    pub fn min_value() -> (r: Date)
        ensures
            r == (Date { year: 1, month: 1, day: 1 }),
            r.wf(),
            forall|d: Date| d.wf() ==> r.spec_le(d),
    {
        Date { year: 1, month: 1, day: 1 }
    }

    /// The greatest well-formed date.
    pub fn max_value() -> (r: Date)
        ensures
            r == (Date { year: 9999, month: 12, day: 31 }),
            r.wf(),
            forall|d: Date| d.wf() ==> d.spec_le(r),
    {
        Date { year: 9999, month: 12, day: 31 }
    }

    /// Compares two dates in lexicographic order.
    pub fn le(&self, other: &Date) -> (r: bool)
        ensures
            r == self.spec_le(*other),
    {
        if self.year != other.year {
            self.year < other.year
        } else if self.month != other.month {
            self.month < other.month
        } else {
            self.day <= other.day
        }
    }
}

} // verus!
