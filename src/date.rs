use vstd::prelude::*;

verus! {

/// A calendar day, numbered the way chrono numbers days from the common era:
/// January 1 of year 1 is day 1.
#[derive(Clone, Copy, Debug, PartialEq, Eq, Structural)]
pub struct Date {
    pub day_number: i32,
}

impl Date {
    pub fn from_day_number(day_number: i32) -> (r: Date)
        ensures
            r.day_number == day_number,
    {
        Date { day_number }
    }

    pub fn day_number(&self) -> (r: i32)
        ensures
            r == self.day_number,
    {
        self.day_number
    }

    /// The day that lies `days` days after this one.
    pub fn plus_days(self, days: i32) -> (r: Date)
        requires
            i32::MIN <= self.day_number + days <= i32::MAX,
        ensures
            r.day_number == self.day_number + days,
    {
        Date { day_number: self.day_number + days }
    }
}

} // verus!
