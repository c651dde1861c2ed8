//! Local wall-clock time and the date and time texts of the status line.

use crate::color::PrintColor;
use crate::decimal::{padded_text, push_padded};
use crate::segment::{block_of, Segment, SegmentView};
use vstd::prelude::*;
use vstd::string::*;

verus! {

/// One reading of the local wall clock, to the second.
#[derive(Clone, Copy, Debug, PartialEq, Eq, Structural)]
pub struct WallClock {
    /// The year of the proleptic Gregorian calendar; 0 is 1 BCE.
    pub year: i32,
    /// The month, from 1 to 12.
    pub month: u32,
    /// The day of the month, from 1 to 31.
    pub day: u32,
    /// The day of the week, counted from Sunday as 0.
    pub weekday: u32,
    /// The hour, from 0 to 23.
    pub hour: u32,
    /// The minute, from 0 to 59.
    pub minute: u32,
    /// The second, from 0 to 59.
    pub second: u32,
}

impl WallClock {
    /// Whether every field lies in its range.
    pub open spec fn wf(self) -> bool {
        &&& 1 <= self.month <= 12
        &&& 1 <= self.day <= 31
        &&& self.weekday < 7
        &&& self.hour < 24
        &&& self.minute < 60
        &&& self.second < 60
    }

    /// Whether every field lies in its range.
    pub fn is_valid(&self) -> (valid: bool)
        ensures
            valid == self.wf(),
    {
        1 <= self.month && self.month <= 12 && 1 <= self.day && self.day <= 31 && self.weekday < 7
            && self.hour < 24 && self.minute < 60 && self.second < 60
    }

    /// Whether two readings fall into the same second of the same day.
    pub open spec fn same_second(self, other: WallClock) -> bool {
        &&& self.year == other.year
        &&& self.month == other.month
        &&& self.day == other.day
        &&& self.weekday == other.weekday
        &&& self.hour == other.hour
        &&& self.minute == other.minute
        &&& self.second == other.second
    }
}

/// The English three-letter name of a day of the week, Sunday being 0.
pub open spec fn weekday_name(weekday: nat) -> Seq<char> {
    if weekday == 0 {
        "Sun"@
    } else if weekday == 1 {
        "Mon"@
    } else if weekday == 2 {
        "Tue"@
    } else if weekday == 3 {
        "Wed"@
    } else if weekday == 4 {
        "Thu"@
    } else if weekday == 5 {
        "Fri"@
    } else {
        "Sat"@
    }
}

/// The English three-letter name of a month, January being 1.
pub open spec fn month_name(month: nat) -> Seq<char> {
    if month == 1 {
        "Jan"@
    } else if month == 2 {
        "Feb"@
    } else if month == 3 {
        "Mar"@
    } else if month == 4 {
        "Apr"@
    } else if month == 5 {
        "May"@
    } else if month == 6 {
        "Jun"@
    } else if month == 7 {
        "Jul"@
    } else if month == 8 {
        "Aug"@
    } else if month == 9 {
        "Sep"@
    } else if month == 10 {
        "Oct"@
    } else if month == 11 {
        "Nov"@
    } else {
        "Dec"@
    }
}

/// The text of a year: four digits from 0 to 9999, zero-padded; outside that
/// range a sign and at least four digits.
pub open spec fn year_text(year: int) -> Seq<char> {
    if 0 <= year <= 9999 {
        padded_text(year as nat, 4)
    } else if year > 9999 {
        "+"@ + padded_text(year as nat, 4)
    } else {
        "-"@ + padded_text((-year) as nat, 4)
    }
}

/// The time of day as `HH:MM:SS`.
pub open spec fn time_text(clock: WallClock) -> Seq<char> {
    padded_text(clock.hour as nat, 2) + ":"@ + padded_text(clock.minute as nat, 2) + ":"@
        + padded_text(clock.second as nat, 2)
}

/// The date as weekday name, day of the month, month name and year:
/// `Www DD:Mmm:YYYY`.
pub open spec fn date_text(clock: WallClock) -> Seq<char> {
    weekday_name(clock.weekday as nat) + " "@ + padded_text(clock.day as nat, 2) + ":"@
        + month_name(clock.month as nat) + ":"@ + year_text(clock.year as int)
}

/// The time segment: always white.
pub open spec fn time_segment_of(clock: WallClock) -> SegmentView {
    SegmentView { text: time_text(clock), color: PrintColor::White }
}

/// The date segment: always white.
pub open spec fn date_segment_of(clock: WallClock) -> SegmentView {
    SegmentView { text: date_text(clock), color: PrintColor::White }
}

/// Two readings of the clock within the same second give the same time and
/// the same date: the texts depend on nothing but the fields of the reading.
pub proof fn lemma_same_second_same_texts(first: WallClock, second: WallClock)
    requires
        first.same_second(second),
    ensures
        time_text(first) == time_text(second),
        date_text(first) == date_text(second),
        block_of(time_segment_of(first)) == block_of(time_segment_of(second)),
        block_of(date_segment_of(first)) == block_of(date_segment_of(second)),
{
}

/// Reads the local wall clock with `chrono::Local::now` and takes the
/// reading apart with the accessors of `chrono::Datelike` and
/// `chrono::Timelike` and with `chrono::Weekday::num_days_from_sunday`.
///
/// Not proved: that each field lies in the range that chrono documents for
/// its accessor (months 1 to 12, days 1 to 31, weekdays 0 to 6, hours 0 to
/// 23, minutes and seconds 0 to 59). Nothing is claimed about which instant
/// is read, and two calls may differ. chrono stops the program where the
/// system clock stands before 1970.
#[verifier::external_body]
fn local_now() -> (clock: WallClock)
    ensures
        clock.wf(),
{
    let now = chrono::Local::now();
    WallClock {
        year: chrono::Datelike::year(&now),
        month: chrono::Datelike::month(&now),
        day: chrono::Datelike::day(&now),
        weekday: chrono::Datelike::weekday(&now).num_days_from_sunday(),
        hour: chrono::Timelike::hour(&now),
        minute: chrono::Timelike::minute(&now),
        second: chrono::Timelike::second(&now),
    }
}

/// The current reading of the local wall clock.
pub fn now() -> (clock: WallClock)
    ensures
        clock.wf(),
{
    local_now()
}

/// The name of a day of the week.
pub fn weekday_str(weekday: u32) -> (name: &'static str)
    requires
        weekday < 7,
    ensures
        name@ == weekday_name(weekday as nat),
{
    match weekday {
        0 => "Sun",
        1 => "Mon",
        2 => "Tue",
        3 => "Wed",
        4 => "Thu",
        5 => "Fri",
        _ => "Sat",
    }
}

/// The name of a month.
pub fn month_str(month: u32) -> (name: &'static str)
    requires
        1 <= month <= 12,
    ensures
        name@ == month_name(month as nat),
{
    match month {
        1 => "Jan",
        2 => "Feb",
        3 => "Mar",
        4 => "Apr",
        5 => "May",
        6 => "Jun",
        7 => "Jul",
        8 => "Aug",
        9 => "Sep",
        10 => "Oct",
        11 => "Nov",
        _ => "Dec",
    }
}

/// Appends the text of a year to `out`.
pub fn push_year(out: &mut String, year: i32)
    ensures
        final(out)@ == old(out)@ + year_text(year as int),
{
    if year < 0 {
        out.append("-");
        push_padded(out, (-(year as i64)) as u64, 4);
        assert(out@ =~= old(out)@ + year_text(year as int));
    } else if year > 9999 {
        out.append("+");
        push_padded(out, year as u64, 4);
        assert(out@ =~= old(out)@ + year_text(year as int));
    } else {
        push_padded(out, year as u64, 4);
    }
}

/// Builds the time segment for a reading of the clock.
pub fn time_segment(clock: &WallClock) -> (segment: Segment)
    requires
        clock.wf(),
    ensures
        segment@ == time_segment_of(*clock),
{
    let mut text = String::new();
    push_padded(&mut text, clock.hour as u64, 2);
    text.append(":");
    push_padded(&mut text, clock.minute as u64, 2);
    text.append(":");
    push_padded(&mut text, clock.second as u64, 2);
    assert(text@ =~= time_text(*clock));
    Segment { text, color: PrintColor::White }
}

/// Builds the date segment for a reading of the clock.
pub fn date_segment(clock: &WallClock) -> (segment: Segment)
    requires
        clock.wf(),
    ensures
        segment@ == date_segment_of(*clock),
{
    let mut text = String::from_str(weekday_str(clock.weekday));
    text.append(" ");
    push_padded(&mut text, clock.day as u64, 2);
    text.append(":");
    text.append(month_str(clock.month));
    text.append(":");
    push_year(&mut text, clock.year);
    Segment { text, color: PrintColor::White }
}

/// The time segment, in wire form, for a reading of the clock.
pub fn p_time_at(clock: &WallClock) -> (p: String)
    requires
        clock.wf(),
    ensures
        p@ == block_of(time_segment_of(*clock)),
{
    time_segment(clock).render()
}

/// The date segment, in wire form, for a reading of the clock.
pub fn p_date_at(clock: &WallClock) -> (p: String)
    requires
        clock.wf(),
    ensures
        p@ == block_of(date_segment_of(*clock)),
{
    date_segment(clock).render()
}

/// The time segment, in wire form, for the current local time.
pub fn p_time() -> (p: String)
    ensures
        exists|clock: WallClock| clock.wf() && p@ == #[trigger] block_of(time_segment_of(clock)),
{
    let clock = now();
    p_time_at(&clock)
}

/// The date segment, in wire form, for the current local date.
pub fn p_date() -> (p: String)
    ensures
        exists|clock: WallClock| clock.wf() && p@ == #[trigger] block_of(date_segment_of(clock)),
{
    let clock = now();
    p_date_at(&clock)
}

} // verus!
