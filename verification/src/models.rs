//! The records that the backend keeps, as plain data.

pub mod account;
pub mod function;
pub mod transaction;
pub mod trigger;
pub mod trigger_log;
pub mod trigger_queue;
pub mod user;

pub use account::{NewAccount, UpdateAccount};
pub use function::{Function, FunctionParam, FunctionParams, NewFunction, UpdateFunction};
pub use transaction::{NewTransaction, Transaction};
pub use trigger::{
    NewTrigger, Trigger, TriggerFilter, TriggerFilterPredicate, TriggerParams, UpdateTrigger,
};
pub use trigger_log::{Console, NewTriggerLog, TriggerLog};
pub use trigger_queue::{NewTriggerQueue, TriggerQueue};
pub use user::{NewUser, UpdateUser};

use chrono::Datelike;
use vstd::prelude::*;

verus! {

/// A point in time without a zone: seconds since the Unix epoch, and the
/// nanoseconds into that second.
#[derive(Clone, Copy, Debug, PartialEq, Eq, Structural)]
pub struct Timestamp {
    pub secs: i64,
    pub nanos: u32,
}

impl Timestamp {
    /// The point `secs` seconds and `nanos` nanoseconds after the epoch.
    pub fn from_timestamp(secs: i64, nanos: u32) -> (at: Timestamp)
        ensures
            at == (Timestamp { secs, nanos }),
    {
        Timestamp { secs, nanos }
    }
}

/// A calendar day.
#[derive(Clone, Copy, Debug, PartialEq, Eq, Structural)]
pub struct Date {
    pub year: i32,
    pub month: u32,
    pub day: u32,
}

/// How `chrono` writes the day of a year, a month and a day of the month:
/// what `Display` gives for the `NaiveDate` that `from_ymd_opt` makes of
/// them; `None` where there is no such day.
pub uninterp spec fn date_text(year: i32, month: u32, day: u32) -> Option<Seq<char>>;

/// Calls `chrono::NaiveDate::from_ymd_opt` and hands back what `Display`
/// gives for the date; `None` where there is no such day.
#[verifier::external_body]
fn write_date(year: i32, month: u32, day: u32) -> (text: Option<String>)
    ensures
        match text {
            Some(written) => date_text(year, month, day) == Some(written@),
            None => date_text(year, month, day) is None,
        },
{
    chrono::NaiveDate::from_ymd_opt(year, month, day).map(|date| date.to_string())
}

/// The day that `chrono` finds so many days before a day: what
/// `checked_sub_days` gives for the `NaiveDate` that `from_ymd_opt` makes,
/// as year, month and day of the month; `None` where there is no such day
/// to start from, or none to arrive at.
pub uninterp spec fn days_before(year: i32, month: u32, day: u32, days: u64) -> Option<
    (i32, u32, u32),
>;

/// Calls `chrono::NaiveDate::from_ymd_opt` and, on the date, `chrono`'s
/// `checked_sub_days`, and hands back the year, the month and the day of
/// the month of what comes of it.
#[verifier::external_body]
fn subtract_days(year: i32, month: u32, day: u32, days: u64) -> (earlier: Option<(i32, u32, u32)>)
    ensures
        earlier == days_before(year, month, day, days),
{
    let date = chrono::NaiveDate::from_ymd_opt(year, month, day)?;
    let earlier = date.checked_sub_days(chrono::Days::new(days))?;
    Some((earlier.year(), earlier.month(), earlier.day()))
}

impl Date {
    /// The day so many days before this one; `None` where this is no day of
    /// the calendar, or the calendar does not reach that far back.
    pub fn minus_days(&self, days: u64) -> (earlier: Option<Date>)
        ensures
            match earlier {
                Some(date) => days_before(self.year, self.month, self.day, days) == Some(
                    (date.year, date.month, date.day),
                ),
                None => days_before(self.year, self.month, self.day, days) is None,
            },
    {
        match subtract_days(self.year, self.month, self.day, days) {
            Some((year, month, day)) => Some(Date { year, month, day }),
            None => None,
        }
    }

    /// The day as `chrono` writes it, year first; `None` where there is no
    /// such day.
    pub fn to_text(&self) -> (text: Option<String>)
        ensures
            match text {
                Some(written) => date_text(self.year, self.month, self.day) == Some(written@),
                None => date_text(self.year, self.month, self.day) is None,
            },
    {
        write_date(self.year, self.month, self.day)
    }
}

} // verus!
