use chrono::{Offset, TimeZone};
use chrono_tz::Tz;
use vstd::prelude::*;

use crate::date::CivilDate;

verus! {

#[verifier::external_type_specification]
#[verifier::external_body]
pub struct ExTz(Tz);

/// Instants are seconds since 1970-01-01 00:00 UTC. The earliest instant
/// the grid formats: 00:00 UTC on -262143-01-02, a day after the first
/// instant chrono holds, so that every zone's wall clock of it exists too.
pub const MIN_INSTANT: i64 = -8_334_601_142_400;

/// The latest instant the grid formats: 23:59:59 UTC on 262142-12-30, a day
/// before the last instant chrono holds.
pub const MAX_INSTANT: i64 = 8_210_266_790_399;

/// The wall-clock hour at which the reference date is read in the primary zone.
pub const ANCHOR_HOUR: u32 = 9;

/// Number of rows in a grid.
pub const GRID_ROWS: usize = 24;

/// Seconds in an hour.
pub const HOUR_SECONDS: i64 = 3600;

/// The display pattern of a row cell: hour on a 12-hour clock, minutes,
/// AM/PM, day of month and abbreviated month.
pub const CLOCK_PATTERN: &'static str = "%l:%M %p %e %b";

/// Offset east of UTC, in seconds, that zone `tz` applies at instant `t`.
pub uninterp spec fn utc_offset_of(tz: Tz, t: int) -> int;

/// The decimal digit `n` (0 to 9).
pub open spec fn digit(n: int) -> char {
    seq!['0', '1', '2', '3', '4', '5', '6', '7', '8', '9'][n]
}

/// `n` (0 to 99) in two digits, the first a space when it would be zero.
pub open spec fn space_padded(n: int) -> Seq<char> {
    if n < 10 { seq![' ', digit(n)] } else { seq![digit(n / 10), digit(n % 10)] }
}

/// `n` (0 to 99) in two digits.
pub open spec fn zero_padded(n: int) -> Seq<char> {
    seq![digit(n / 10), digit(n % 10)]
}

/// The English abbreviation of month `m` (1 to 12).
pub open spec fn month_abbr(m: int) -> Seq<char> {
    seq!["Jan"@, "Feb"@, "Mar"@, "Apr"@, "May"@, "Jun"@, "Jul"@, "Aug"@, "Sep"@, "Oct"@, "Nov"@, "Dec"@][m - 1]
}

/// Year, month and day of the proleptic Gregorian date `z` days after
/// 1970-01-01.
pub open spec fn civil_from_days(z: int) -> (int, int, int) {
    let zz = z + 719468;
    let era = zz / 146097;
    let doe = zz - era * 146097;
    let yoe = (doe - doe / 1460 + doe / 36524 - doe / 146096) / 365;
    let doy = doe - (365 * yoe + yoe / 4 - yoe / 100);
    let mp = (5 * doy + 2) / 153;
    let d = doy - (153 * mp + 2) / 5 + 1;
    let m = if mp < 10 { mp + 3 } else { mp - 9 };
    let y = yoe + era * 400;
    (if m <= 2 { y + 1 } else { y }, m, d)
}

/// The text of wall-clock seconds `w` under `CLOCK_PATTERN`: the hour on a
/// 12-hour clock and the day of month padded with a space, the minutes with
/// a zero, then AM or PM and the month's abbreviation, as in
/// `" 9:00 AM 18 Jul"`.
pub open spec fn clock_text(w: int) -> Seq<char> {
    let (y, m, d) = civil_from_days(w / 86400);
    let secs = w % 86400;
    let h = secs / 3600;
    let mi = secs % 3600 / 60;
    let h12 = if h % 12 == 0 { 12 } else { h % 12 };
    space_padded(h12) + seq![':'] + zero_padded(mi) + seq![' '] + (if h < 12 { "AM"@ } else { "PM"@ })
        + seq![' '] + space_padded(d) + seq![' '] + month_abbr(m)
}

/// The instant at which zone `tz` shows wall-clock seconds `w`, when it
/// shows them exactly once.
pub uninterp spec fn local_instant_of(tz: Tz, w: int) -> Option<int>;

/// Wall-clock seconds (counted from 1970-01-01 00:00 on the local calendar)
/// that zone `tz` shows at instant `t`.
pub open spec fn wall_clock(tz: Tz, t: int) -> int {
    t + utc_offset_of(tz, t)
}

/// The instant at which zone `tz`, applying the offset it has at `at`,
/// shows wall-clock seconds `w`.
pub open spec fn instant_of_wall(tz: Tz, w: int, at: int) -> int {
    w - utc_offset_of(tz, at)
}

/// The instant lies within the span the grid formats.
pub open spec fn in_range(t: int) -> bool {
    MIN_INSTANT <= t <= MAX_INSTANT
}

/// All 24 rows of a grid anchored at `t` lie within the span the grid
/// formats.
pub open spec fn grid_fits(t: int) -> bool {
    MIN_INSTANT <= t <= MAX_INSTANT - 23 * HOUR_SECONDS
}

/// Relies on chrono-tz's `offset_from_utc_datetime` for `Tz` and chrono's
/// `FixedOffset::local_minus_utc`: the zone's offset at an instant, which a
/// `FixedOffset` keeps strictly within one day.
#[verifier::external_body]
fn utc_offset(tz: Tz, t: i64) -> (r: i32)
    requires
        in_range(t as int),
    ensures
        r == utc_offset_of(tz, t as int),
        -86400 < r < 86400,
{
    let utc = chrono::DateTime::from_timestamp(t, 0).unwrap().naive_utc();
    tz.offset_from_utc_datetime(&utc).fix().local_minus_utc()
}

/// Relies on chrono's `TimeZone::from_local_datetime` as chrono-tz
/// implements it for `Tz`: when the zone shows the wall-clock time exactly
/// once, the result is the instant whose offset maps it back to that time.
#[verifier::external_body]
fn instant_of_local(tz: Tz, date: CivilDate, hour: u32) -> (r: Option<i64>)
    requires
        date.valid(),
        hour < 24,
    ensures
        r matches Some(t) ==> {
            &&& local_instant_of(tz, date.wall_seconds(hour as int)) == Some(t as int)
            &&& wall_clock(tz, t as int) == date.wall_seconds(hour as int)
            &&& -86400 < utc_offset_of(tz, t as int) < 86400
        },
        r is None ==> local_instant_of(tz, date.wall_seconds(hour as int)) is None,
{
    let local = chrono::NaiveDate::from_ymd_opt(date.year, date.month, date.day)
        .and_then(|d| d.and_hms_opt(hour, 0, 0))?;
    tz.from_local_datetime(&local).single().map(|dt| dt.timestamp())
}

/// Relies on chrono's `DateTime::format` for a `DateTime<Tz>`: under
/// `%l:%M %p %e %b` the text gives the zone's wall-clock time of the
/// instant (the instant plus the zone's offset there) as the hour 1 to 12
/// padded with a space, the minutes padded with a zero, `AM` or `PM`, the
/// day of month padded with a space and the month's English abbreviation.
#[verifier::external_body]
fn format_instant(tz: Tz, t: i64, pattern: &str) -> (r: String)
    requires
        in_range(t as int),
        pattern@ == CLOCK_PATTERN@,
    ensures
        r@ == clock_text(wall_clock(tz, t as int)),
{
    tz.timestamp_opt(t, 0).unwrap().format(pattern).to_string()
}

/// One line of the grid: the instant `offset_hours` after the anchor, shown
/// in both zones.
#[derive(Clone, Debug)]
pub struct HourRow {
    pub offset_hours: u32,
    pub primary: String,
    pub secondary: String,
}

/// The anchor instant and the rows derived from it.
#[derive(Clone, Debug)]
pub struct HourGrid {
    pub anchor: i64,
    pub rows: Vec<HourRow>,
}

/// Row `i` of a grid anchored at `anchor` shows the instant `i` hours later
/// in each zone.
pub open spec fn row_matches(row: HourRow, i: int, anchor: int, primary: Tz, secondary: Tz) -> bool {
    &&& row.offset_hours == i
    &&& row.primary@ == clock_text(wall_clock(primary, anchor + i * 3600))
    &&& row.secondary@ == clock_text(wall_clock(secondary, anchor + i * 3600))
}

/// `rows` is the full grid for `anchor`: 24 rows, offsets 0 to 23 in order.
pub open spec fn rows_match(rows: Seq<HourRow>, anchor: int, primary: Tz, secondary: Tz) -> bool {
    &&& rows.len() == GRID_ROWS
    &&& forall|i: int| 0 <= i < rows.len() ==> row_matches(#[trigger] rows[i], i, anchor, primary, secondary)
}

/// The anchor of `date`: the instant at which `primary` shows 09:00 on it,
/// when it does so exactly once.
pub open spec fn anchor_of(date: CivilDate, primary: Tz) -> Option<int> {
    local_instant_of(primary, date.wall_seconds(ANCHOR_HOUR as int))
}

/// `date` has a grid: `primary` shows 09:00 on it exactly once, and the 24
/// hours from then lie within the span the grid formats.
pub open spec fn has_grid(date: CivilDate, primary: Tz) -> bool {
    match anchor_of(date, primary) {
        Some(t) => grid_fits(t),
        None => false,
    }
}

/// `t` is the anchor of `date` in `primary`.
pub open spec fn is_anchor(t: int, date: CivilDate, primary: Tz) -> bool {
    &&& anchor_of(date, primary) == Some(t)
    &&& wall_clock(primary, t) == date.wall_seconds(ANCHOR_HOUR as int)
}

/// `g` is the grid of `date` for the two zones.
pub open spec fn grid_of(g: HourGrid, date: CivilDate, primary: Tz, secondary: Tz) -> bool {
    &&& is_anchor(g.anchor as int, date, primary)
    &&& rows_match(g.rows@, g.anchor as int, primary, secondary)
}

/// Builds the 24 rows that start at `anchor`, stepping one hour of absolute
/// time per row.
pub fn rows_from_anchor(anchor: i64, primary: Tz, secondary: Tz) -> (rows: Vec<HourRow>)
    requires
        grid_fits(anchor as int),
    ensures
        rows_match(rows@, anchor as int, primary, secondary),
{
    let mut rows: Vec<HourRow> = Vec::new();
    let mut i: u32 = 0;
    while (i as usize) < GRID_ROWS
        invariant
            i as usize <= GRID_ROWS,
            rows@.len() == i,
            grid_fits(anchor as int),
            forall|j: int| 0 <= j < i ==> row_matches(#[trigger] rows@[j], j, anchor as int, primary, secondary),
        decreases GRID_ROWS - i as usize,
    {
        let t: i64 = anchor + (i as i64) * HOUR_SECONDS;
        let row = HourRow {
            offset_hours: i,
            primary: format_instant(primary, t, CLOCK_PATTERN),
            secondary: format_instant(secondary, t, CLOCK_PATTERN),
        };
        rows.push(row);
        i = i + 1;
    }
    rows
}

/// The grid of `date`: the anchor is 09:00 on `date` in `primary`, row `i`
/// is the anchor plus `i` hours shown in both zones. `None` when `primary`
/// does not show 09:00 on that date exactly once, or when the grid would
/// run past the instants chrono holds (only within a day of its ends).
pub fn generate(date: CivilDate, primary: Tz, secondary: Tz) -> (r: Option<HourGrid>)
    requires
        date.valid(),
    ensures
        r is Some <==> has_grid(date, primary),
        r matches Some(g) ==> grid_of(g, date, primary, secondary),
{
    let anchor = instant_of_local(primary, date, ANCHOR_HOUR)?;
    if anchor < MIN_INSTANT || anchor > MAX_INSTANT - 23 * HOUR_SECONDS {
        return None;
    }
    Some(HourGrid { anchor, rows: rows_from_anchor(anchor, primary, secondary) })
}

/// How many seconds `primary`'s wall clock runs ahead of `secondary`'s at
/// instant `t`.
pub fn zone_gap_seconds(primary: Tz, secondary: Tz, t: i64) -> (r: i32)
    requires
        in_range(t as int),
    ensures
        r == utc_offset_of(primary, t as int) - utc_offset_of(secondary, t as int),
        r == wall_clock(primary, t as int) - wall_clock(secondary, t as int),
{
    utc_offset(primary, t) - utc_offset(secondary, t)
}

/// A grid of any date has exactly 24 rows whose offsets run 0 to 23 and
/// strictly increase.
pub proof fn lemma_grid_offsets_increasing(g: HourGrid, date: CivilDate, primary: Tz, secondary: Tz)
    requires
        grid_of(g, date, primary, secondary),
    ensures
        g.rows@.len() == 24,
        forall|i: int| 0 <= i < 24 ==> #[trigger] g.rows@[i].offset_hours == i,
        forall|i: int, j: int| 0 <= i < j < 24 ==> g.rows@[i].offset_hours < g.rows@[j].offset_hours,
{
    assert forall|i: int, j: int| 0 <= i < j < 24 implies g.rows@[i].offset_hours < g.rows@[j].offset_hours by {
        assert(row_matches(g.rows@[i], i, g.anchor as int, primary, secondary));
        assert(row_matches(g.rows@[j], j, g.anchor as int, primary, secondary));
    }
}

/// The anchor survives a trip through the secondary zone: its wall clock
/// in `secondary`, mapped back through that zone's offset, is the anchor
/// again, and that instant's wall clock in `primary`, looked up in
/// `primary`, is the anchor once more.
pub proof fn lemma_zone_round_trip(date: CivilDate, primary: Tz, secondary: Tz, t: int)
    requires
        is_anchor(t, date, primary),
    ensures
        instant_of_wall(secondary, wall_clock(secondary, t), t) == t,
        local_instant_of(primary, wall_clock(primary, instant_of_wall(secondary, wall_clock(secondary, t), t)))
            == Some(t),
{
}

} // verus!
