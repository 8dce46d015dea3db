//! Where cells go: the week start, the leading offset, columns and rows.

use vstd::prelude::*;

verus! {

/// The weekday shown in the first column of each row.
#[derive(Clone, Copy, Debug, PartialEq, Eq, Structural)]
pub enum WeekStart {
    Sunday,
    Monday,
}

/// The weekday, counted from Sunday = 0, of the first column.
pub open spec fn start_weekday(ws: WeekStart) -> int {
    match ws {
        WeekStart::Sunday => 0,
        WeekStart::Monday => 1,
    }
}

/// The weekday, counted from Sunday = 0, shown in column `col`.
pub open spec fn column_weekday(ws: WeekStart, col: int) -> int {
    (col + start_weekday(ws)) % 7
}

/// Blank cells before day 1 when day 1 falls on weekday `wd` (Sunday = 0):
/// its distance from the week start.
pub open spec fn offset_of(wd: int, ws: WeekStart) -> int {
    (wd - start_weekday(ws)) % 7
}

/// The Saturday column and the Sunday column.
pub open spec fn weekend_cols(ws: WeekStart) -> (int, int) {
    match ws {
        WeekStart::Sunday => (6, 0),
        WeekStart::Monday => (5, 6),
    }
}

/// Whether column `col` holds Saturdays or Sundays.
pub open spec fn is_weekend_col(ws: WeekStart, col: int) -> bool {
    col == weekend_cols(ws).0 || col == weekend_cols(ws).1
}

/// Position of day `d` (from 1) in the stream of cells that starts with
/// `offset` blanks.
pub open spec fn position(offset: int, d: int) -> int {
    offset + d - 1
}

/// The column of cell position `p`.
pub open spec fn column_of(p: int) -> int {
    p % 7
}

/// The row of cell position `p`.
pub open spec fn row_of(p: int) -> int {
    p / 7
}

/// Rows needed for `offset` blanks and `n` days: `ceil((offset + n) / 7)`.
pub open spec fn row_count(offset: int, n: int) -> int {
    (offset + n + 6) / 7
}

/// Number of blank cells before day 1, given the weekday of day 1 counted
/// from Sunday = 0.
pub fn first_offset(first_weekday: u32, ws: WeekStart) -> (r: u32)
    requires
        first_weekday < 7,
    ensures
        r as int == offset_of(first_weekday as int, ws),
        r < 7,
        first_weekday as int == start_weekday(ws) ==> r == 0,
        column_weekday(ws, r as int) == first_weekday as int,
{
    match ws {
        WeekStart::Sunday => first_weekday,
        WeekStart::Monday => (first_weekday + 6) % 7,
    }
}

/// The Saturday column and the Sunday column under `ws`.
pub fn weekend_columns(ws: WeekStart) -> (r: (u32, u32))
    ensures
        r.0 as int == weekend_cols(ws).0,
        r.1 as int == weekend_cols(ws).1,
{
    match ws {
        WeekStart::Sunday => (6, 0),
        WeekStart::Monday => (5, 6),
    }
}

/// Whether column `col` holds Saturdays or Sundays under `ws`.
pub fn weekend_column(ws: WeekStart, col: u32) -> (r: bool)
    ensures
        r == is_weekend_col(ws, col as int),
{
    let (sat, sun) = weekend_columns(ws);
    col == sat || col == sun
}

/// The offset always lies in `[0, 6]`, and is zero exactly when day 1 falls
/// on the week start.
pub proof fn lemma_offset_range(wd: int, ws: WeekStart)
    requires
        0 <= wd < 7,
    ensures
        0 <= offset_of(wd, ws) <= 6,
        offset_of(wd, ws) == 0 <==> wd == start_weekday(ws),
{
}

/// Day `d` lands in the column of its own weekday: if day 1 falls on `wd`,
/// day `d` falls on `(wd + d - 1) mod 7` and sits in the column showing that
/// weekday.
pub proof fn lemma_day_column_weekday(wd: int, ws: WeekStart, d: int)
    requires
        0 <= wd < 7,
        d >= 1,
    ensures
        column_weekday(ws, column_of(position(offset_of(wd, ws), d))) == (wd + d - 1) % 7,
{
    let s = start_weekday(ws);
    let o = offset_of(wd, ws);
    assert(((o + d - 1) % 7 + s) % 7 == (o + d - 1 + s) % 7) by {
        vstd::arithmetic::div_mod::lemma_add_mod_noop(o + d - 1, s, 7);
        vstd::arithmetic::div_mod::lemma_mod_twice(s, 7);
    }
    assert((o + d - 1 + s) % 7 == (wd + d - 1) % 7) by {
        vstd::arithmetic::div_mod::lemma_add_mod_noop(wd - s, d - 1 + s, 7);
        vstd::arithmetic::div_mod::lemma_add_mod_noop(wd - s + d - 1 + s, 0, 7);
    }
}

/// Weekend columns: under a Sunday start they are 0 and 6, under a Monday
/// start 5 and 6; a column is a weekend column exactly when it shows
/// Saturday or Sunday.
pub proof fn lemma_weekend_columns(ws: WeekStart, col: int)
    requires
        0 <= col < 7,
    ensures
        ws == WeekStart::Sunday ==> (is_weekend_col(ws, col) <==> (col == 0 || col == 6)),
        ws == WeekStart::Monday ==> (is_weekend_col(ws, col) <==> (col == 5 || col == 6)),
        is_weekend_col(ws, col) <==> (column_weekday(ws, col) == 6 || column_weekday(ws, col) == 0),
{
}

/// The cells wrap into `ceil((offset + n) / 7)` rows: that count is the
/// least `r` with `7 * r >= offset + n`, every cell position lies in a row
/// below it, and the last day lies in the last row.
pub proof fn lemma_row_count(offset: int, n: int)
    requires
        0 <= offset < 7,
        n >= 1,
    ensures
        row_count(offset, n) >= 1,
        7 * (row_count(offset, n) - 1) < offset + n <= 7 * row_count(offset, n),
        forall|p: int| 0 <= p < offset + n ==> 0 <= #[trigger] row_of(p) < row_count(offset, n),
        row_of(position(offset, n)) == row_count(offset, n) - 1,
{
    let t = offset + n;
    let r = row_count(offset, n);
    vstd::arithmetic::div_mod::lemma_fundamental_div_mod(t + 6, 7);
    assert forall|p: int| 0 <= p < offset + n implies 0 <= #[trigger] row_of(p) < r by {
        vstd::arithmetic::div_mod::lemma_div_is_ordered(p, t - 1, 7);
        vstd::arithmetic::div_mod::lemma_fundamental_div_mod(t - 1, 7);
        vstd::arithmetic::div_mod::lemma_div_pos_is_pos(p, 7);
    }
    vstd::arithmetic::div_mod::lemma_fundamental_div_mod(t - 1, 7);
}

} // verus!
