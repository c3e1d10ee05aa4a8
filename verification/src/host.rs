//! What only the host machine can tell: the date, and a choice by chance.
//!
//! Nothing here is proved. Each function states what its outside call is
//! documented to return, whatever the clock or the generator gave.

use vstd::prelude::*;
use chrono::{Datelike, Local, TimeZone};
use rand::seq::SliceRandom;

verus! {

/// The year, month and day that the host's clock shows now in its own time
/// zone: `chrono::Local::now` and `DateTime::date_naive`, read through
/// `Datelike`. Nothing is claimed of the result.
#[verifier::external_body]
pub(crate) fn local_date_today() -> (date: (i32, u32, u32)) {
    let today = Local::now().date_naive();
    (today.year(), today.month(), today.day())
}

/// The seconds since 1970-01-01 00:00:00 UTC at which the host's time zone
/// shows the given date and time of day: `TimeZone::with_ymd_and_hms` on
/// `chrono::Local`, then `DateTime::timestamp`. `None` where the time zone has
/// no such local time or has it twice, and for a date or time that does not
/// exist. Nothing is claimed of the number.
#[verifier::external_body]
pub(crate) fn local_timestamp(
    year: i32,
    month: u32,
    day: u32,
    hour: u32,
    min: u32,
    sec: u32,
) -> (seconds: Option<i64>) {
    match Local.with_ymd_and_hms(year, month, day, hour, min, sec).single() {
        Some(moment) => Some(moment.timestamp()),
        None => None,
    }
}

/// One of `words`, picked by `rand::seq::SliceRandom::choose` with the
/// generator of `rand::thread_rng`: `None` exactly when there is no word,
/// else one of the items. Which one is not known.
#[verifier::external_body]
pub(crate) fn choose_word(words: &Vec<String>) -> (chosen: Option<&String>)
    ensures
        chosen is None <==> words@.len() == 0,
        chosen matches Some(w) ==> exists|i: int| 0 <= i < words@.len() && words@[i]@ == w@,
{
    words.choose(&mut rand::thread_rng())
}

} // verus!
