//! Text of the calendar: centred cells, colour markup, header and rows.

use crate::date::{
    days_in_month, month_length, month_title, title_of, weekday_from_sunday, weekday_of, CalDate,
};
use crate::layout::{
    column_of, first_offset, is_weekend_col, offset_of, row_count, weekend_column, WeekStart,
};
use crate::style::{cell_style, color_of_style, color_view, style_color, style_of, RenderConfig};
use vstd::prelude::*;

verus! {

/// Width of one day cell.
pub const CELL_WIDTH: usize = 3;

/// Width of the title line.
pub const TITLE_WIDTH: usize = 20;

/// `n` spaces.
pub open spec fn spaces(n: int) -> Seq<char> {
    Seq::new(n as nat, |i: int| ' ')
}

/// Left padding when `len` characters are centred in `width`.
pub open spec fn left_pad(len: int, width: int) -> int {
    if len >= width {
        0
    } else {
        (width - len) / 2
    }
}

/// Right padding when `len` characters are centred in `width`: the rest,
/// so an odd remainder puts the extra space on the right.
pub open spec fn right_pad(len: int, width: int) -> int {
    if len >= width {
        0
    } else {
        width - len - left_pad(len, width)
    }
}

/// `s` centred in a field of `width` characters; never truncated.
pub open spec fn centered(s: Seq<char>, width: int) -> Seq<char> {
    spaces(left_pad(s.len() as int, width)) + s + spaces(right_pad(s.len() as int, width))
}

/// The decimal digit `n` (0 to 9).
pub open spec fn digit_char(n: int) -> char {
    "0123456789"@[n]
}

/// Decimal text of a number below 100, without leading zeros.
pub open spec fn decimal(d: int) -> Seq<char> {
    if d < 10 {
        seq![digit_char(d)]
    } else {
        seq![digit_char(d / 10), digit_char(d % 10)]
    }
}

/// The markup that opens a span in colour `c`.
pub open spec fn open_tag(c: Seq<char>) -> Seq<char> {
    "${color #"@ + c + "}"@
}

/// The markup that closes a colour span.
pub open spec fn close_tag() -> Seq<char> {
    "${color}"@
}

/// `body` inside a colour span, or bare when there is no colour.
pub open spec fn wrap(color: Option<Seq<char>>, body: Seq<char>) -> Seq<char> {
    match color {
        Some(c) => open_tag(c) + body + close_tag(),
        None => body,
    }
}

/// The cell of day `d` in column `col`.
pub open spec fn day_cell(cfg: RenderConfig, today: int, d: int, col: int) -> Seq<char> {
    wrap(
        style_color(cfg, style_of(cfg, d, today, is_weekend_col(cfg.week_start, col))),
        centered(decimal(d), CELL_WIDTH as int),
    )
}

/// The cell at position `p` of a month whose day 1 sits at `offset`.
pub open spec fn cell_text(cfg: RenderConfig, today: int, offset: int, p: int) -> Seq<char> {
    if p < offset {
        spaces(CELL_WIDTH as int)
    } else {
        day_cell(cfg, today, p - offset + 1, column_of(p))
    }
}

/// The cells at positions `lo .. hi`, side by side.
pub open spec fn cells_text(cfg: RenderConfig, today: int, offset: int, lo: int, hi: int) -> Seq<
    char,
>
    decreases hi - lo,
{
    if hi <= lo {
        Seq::empty()
    } else {
        cells_text(cfg, today, offset, lo, hi - 1) + cell_text(cfg, today, offset, hi - 1)
    }
}

/// Row `r` of a month of `n` days whose day 1 sits at `offset`: positions
/// `7r` up to `7r + 7`, or the end of the month.
pub open spec fn row_text(cfg: RenderConfig, today: int, offset: int, n: int, r: int) -> Seq<char> {
    let end = if 7 * r + 7 < offset + n {
        7 * r + 7
    } else {
        offset + n
    };
    cells_text(cfg, today, offset, 7 * r, end)
}

/// Appends `n` spaces to `out`.
fn push_spaces(out: &mut String, n: usize)
    ensures
        final(out)@ == old(out)@ + spaces(n as int),
{
    let mut i: usize = 0;
    while i < n
        invariant
            i <= n,
            out@ == old(out)@ + spaces(i as int),
        decreases n - i,
    {
        out.append(" ");
        proof {
            reveal_strlit(" ");
            assert(out@ =~= old(out)@ + spaces(i + 1));
        }
        i = i + 1;
    }
}

/// `s` centred in `width` characters, the odd space going to the right.
pub fn center(s: &str, width: usize) -> (r: String)
    ensures
        r@ == centered(s@, width as int),
{
    let len = s.unicode_len();
    let mut out = String::new();
    if len >= width {
        out.append(s);
        assert(out@ =~= centered(s@, width as int));
        return out;
    }
    let left = (width - len) / 2;
    push_spaces(&mut out, left);
    out.append(s);
    push_spaces(&mut out, width - len - left);
    assert(out@ =~= centered(s@, width as int));
    out
}

/// Decimal text of `d`.
pub fn decimal_text(d: u32) -> (r: String)
    requires
        d < 100,
    ensures
        r@ == decimal(d as int),
{
    let digits = "0123456789";
    proof {
        reveal_strlit("0123456789");
    }
    let mut out = String::new();
    if d >= 10 {
        let t = (d / 10) as usize;
        out.append(digits.substring_char(t, t + 1));
    }
    let u = (d % 10) as usize;
    out.append(digits.substring_char(u, u + 1));
    assert(out@ =~= decimal(d as int));
    out
}

/// Appends `body` to `out`, inside a colour span when `color` is set.
fn push_wrapped(out: &mut String, color: Option<&String>, body: &str)
    ensures
        final(out)@ == old(out)@ + wrap(
            match color {
                Some(c) => Some(c@),
                None => None,
            },
            body@,
        ),
{
    match color {
        Some(c) => {
            out.append("${color #");
            out.append(c.as_str());
            out.append("}");
            out.append(body);
            out.append("${color}");
            assert(out@ =~= old(out)@ + ("${color #"@ + c@ + "}"@ + body@ + "${color}"@));
        },
        None => {
            out.append(body);
        },
    }
}

/// Appends the cell at position `p` to `out`.
fn push_cell(out: &mut String, cfg: &RenderConfig, today: u32, offset: u32, p: u32)
    requires
        offset < 7,
        p < offset + 31,
    ensures
        final(out)@ == old(out)@ + cell_text(*cfg, today as int, offset as int, p as int),
{
    if p < offset {
        push_spaces(out, CELL_WIDTH);
    } else {
        let d = p - offset + 1;
        let col = p % 7;
        let weekend = weekend_column(cfg.week_start, col);
        let st = cell_style(cfg, d, today, weekend);
        let color = color_of_style(cfg, st);
        let num = decimal_text(d);
        let body = center(num.as_str(), CELL_WIDTH);
        push_wrapped(out, color, body.as_str());
    }
}

/// The rows of day cells of a month of `days` days whose day 1 sits
/// `offset` cells from the left, `today` being the current day of the month.
pub fn render_rows(cfg: &RenderConfig, offset: u32, days: u32, today: u32) -> (rows: Vec<String>)
    requires
        offset < 7,
        1 <= days <= 31,
    ensures
        rows@.len() == row_count(offset as int, days as int),
        forall|r: int|
            0 <= r < rows@.len() ==> (#[trigger] rows@[r])@ == row_text(
                *cfg,
                today as int,
                offset as int,
                days as int,
                r,
            ),
{
    let total = offset + days;
    let nrows = (total + 6) / 7;
    let mut rows: Vec<String> = Vec::new();
    let mut r: u32 = 0;
    while r < nrows
        invariant
            total == offset + days,
            nrows as int == row_count(offset as int, days as int),
            offset < 7,
            1 <= days <= 31,
            r <= nrows,
            rows@.len() == r,
            forall|k: int|
                0 <= k < r ==> (#[trigger] rows@[k])@ == row_text(
                    *cfg,
                    today as int,
                    offset as int,
                    days as int,
                    k,
                ),
        decreases nrows - r,
    {
        assert(7 * r < total) by (nonlinear_arith)
            requires
                r < nrows,
                nrows == (total + 6) / 7,
        ;
        let start = 7 * r;
        let end = if start + 7 < total {
            start + 7
        } else {
            total
        };
        let mut line = String::new();
        let mut p = start;
        while p < end
            invariant
                start == 7 * r,
                start <= p <= end,
                end <= total,
                total == offset + days,
                offset < 7,
                1 <= days <= 31,
                line@ == cells_text(*cfg, today as int, offset as int, start as int, p as int),
            decreases end - p,
        {
            push_cell(&mut line, cfg, today, offset, p);
            p = p + 1;
        }
        rows.push(line);
        r = r + 1;
    }
    rows
}

/// The weekday labels in column order.
pub open spec fn labels(ws: WeekStart) -> Seq<char> {
    match ws {
        WeekStart::Sunday => "Su Mo Tu We Th Fr Sa"@,
        WeekStart::Monday => "Mo Tu We Th Fr Sa Su"@,
    }
}

/// The two header lines: the centred title and the weekday labels, in one
/// colour span when a label colour is set.
pub open spec fn header_text(title: Seq<char>, cfg: RenderConfig) -> Seq<char> {
    wrap(
        color_view(cfg.label_color),
        centered(title, TITLE_WIDTH as int) + "\n"@ + labels(cfg.week_start),
    )
}

/// Each line followed by a line break.
pub open spec fn lines_text(lines: Seq<Seq<char>>) -> Seq<char>
    decreases lines.len(),
{
    if lines.len() == 0 {
        Seq::empty()
    } else {
        lines_text(lines.drop_last()) + lines.last() + "\n"@
    }
}

/// The rows of a month, as a sequence.
pub open spec fn body_rows(cfg: RenderConfig, today: int, offset: int, n: int) -> Seq<Seq<char>> {
    Seq::new(row_count(offset, n) as nat, |r: int| row_text(cfg, today, offset, n, r))
}

/// The whole calendar: header, line break, then each row on a line.
pub open spec fn calendar_text(
    title: Seq<char>,
    cfg: RenderConfig,
    offset: int,
    n: int,
    today: int,
) -> Seq<char> {
    header_text(title, cfg) + "\n"@ + lines_text(body_rows(cfg, today, offset, n))
}

/// The weekday labels for week start `ws`.
pub fn weekday_labels(ws: WeekStart) -> (r: &'static str)
    ensures
        r@ == labels(ws),
{
    match ws {
        WeekStart::Sunday => "Su Mo Tu We Th Fr Sa",
        WeekStart::Monday => "Mo Tu We Th Fr Sa Su",
    }
}

/// The two header lines for a month titled `title`, without a final line break.
pub fn render_header(title: &str, cfg: &RenderConfig) -> (r: String)
    ensures
        r@ == header_text(title@, *cfg),
{
    let mut block = center(title, TITLE_WIDTH);
    block.append("\n");
    block.append(weekday_labels(cfg.week_start));
    let mut out = String::new();
    push_wrapped(&mut out, cfg.label_color.as_ref(), block.as_str());
    assert(out@ =~= header_text(title@, *cfg));
    out
}

/// The calendar of a month titled `title`, of `days` days, whose day 1 sits
/// `offset` cells from the left, with `today` as the current day.
pub fn render_calendar(title: &str, cfg: &RenderConfig, offset: u32, days: u32, today: u32) -> (r:
    String)
    requires
        offset < 7,
        1 <= days <= 31,
    ensures
        r@ == calendar_text(title@, *cfg, offset as int, days as int, today as int),
{
    let mut out = render_header(title, cfg);
    out.append("\n");
    let ghost head = out@;
    let rows = render_rows(cfg, offset, days, today);
    let ghost all = body_rows(*cfg, today as int, offset as int, days as int);
    assert(all.len() == rows@.len());
    let mut i: usize = 0;
    while i < rows.len()
        invariant
            i <= rows@.len() == all.len(),
            all == body_rows(*cfg, today as int, offset as int, days as int),
            forall|k: int| 0 <= k < rows@.len() ==> (#[trigger] rows@[k])@ == all[k],
            out@ == head + lines_text(all.take(i as int)),
        decreases rows@.len() - i,
    {
        out.append(rows[i].as_str());
        out.append("\n");
        proof {
            assert(all.take(i + 1).drop_last() =~= all.take(i as int));
            assert(out@ =~= head + lines_text(all.take(i + 1)));
        }
        i = i + 1;
    }
    assert(all.take(i as int) =~= all);
    out
}

/// The calendar of the month of `date`, with `date` as the current day.
pub fn render_month(date: CalDate, cfg: &RenderConfig) -> (r: String)
    requires
        date.wf(),
    ensures
        r@ == calendar_text(
            month_title(date.year as int, date.month as int),
            *cfg,
            offset_of(weekday_from_sunday(date.year as int, date.month as int, 1), cfg.week_start),
            month_length(date.year as int, date.month as int),
            date.day as int,
        ),
{
    let title = title_of(date);
    let first = date.first_of_month();
    let wd = weekday_of(first);
    let offset = first_offset(wd, cfg.week_start);
    let days = days_in_month(date);
    render_calendar(title.as_str(), cfg, offset, days, date.day)
}

/// `s` holds no `$`, the character that starts every markup token.
pub open spec fn markup_free(s: Seq<char>) -> bool {
    forall|i: int| 0 <= i < s.len() ==> s[i] != '$'
}

proof fn lemma_concat_markup_free(a: Seq<char>, b: Seq<char>)
    requires
        markup_free(a),
        markup_free(b),
    ensures
        markup_free(a + b),
{
    assert forall|i: int| 0 <= i < (a + b).len() implies (a + b)[i] != '$' by {
        if i >= a.len() {
            assert((a + b)[i] == b[i - a.len()]);
        }
    }
}

proof fn lemma_centered_markup_free(s: Seq<char>, width: int)
    requires
        markup_free(s),
    ensures
        markup_free(centered(s, width)),
{
    let l = spaces(left_pad(s.len() as int, width));
    let r = spaces(right_pad(s.len() as int, width));
    lemma_concat_markup_free(l, s);
    lemma_concat_markup_free(l + s, r);
}

proof fn lemma_cells_markup_free(cfg: RenderConfig, today: int, offset: int, lo: int, hi: int)
    requires
        cfg.uncolored(),
        offset >= 0,
        hi <= offset + 99,
    ensures
        markup_free(cells_text(cfg, today, offset, lo, hi)),
    decreases hi - lo,
{
    if hi > lo {
        lemma_cells_markup_free(cfg, today, offset, lo, hi - 1);
        let p = hi - 1;
        if p >= offset {
            let d = p - offset + 1;
            reveal_strlit("0123456789");
            lemma_centered_markup_free(decimal(d), CELL_WIDTH as int);
        }
        lemma_concat_markup_free(
            cells_text(cfg, today, offset, lo, hi - 1),
            cell_text(cfg, today, offset, p),
        );
    }
}

proof fn lemma_lines_markup_free(lines: Seq<Seq<char>>)
    requires
        forall|k: int| 0 <= k < lines.len() ==> markup_free(#[trigger] lines[k]),
    ensures
        markup_free(lines_text(lines)),
    decreases lines.len(),
{
    if lines.len() > 0 {
        lemma_lines_markup_free(lines.drop_last());
        reveal_strlit("\n");
        lemma_concat_markup_free(lines_text(lines.drop_last()), lines.last());
        lemma_concat_markup_free(lines_text(lines.drop_last()) + lines.last(), "\n"@);
    }
}

/// With no colour set, the calendar holds no markup at all: if the title
/// holds no `$`, neither does the output.
pub proof fn lemma_uncolored_has_no_markup(
    title: Seq<char>,
    cfg: RenderConfig,
    offset: int,
    n: int,
    today: int,
)
    requires
        cfg.uncolored(),
        markup_free(title),
        0 <= offset < 7,
        1 <= n <= 31,
    ensures
        markup_free(calendar_text(title, cfg, offset, n, today)),
{
    reveal_strlit("\n");
    reveal_strlit("Su Mo Tu We Th Fr Sa");
    reveal_strlit("Mo Tu We Th Fr Sa Su");
    lemma_centered_markup_free(title, TITLE_WIDTH as int);
    lemma_concat_markup_free(centered(title, TITLE_WIDTH as int), "\n"@);
    lemma_concat_markup_free(
        centered(title, TITLE_WIDTH as int) + "\n"@,
        labels(cfg.week_start),
    );
    let rows = body_rows(cfg, today, offset, n);
    assert forall|k: int| 0 <= k < rows.len() implies markup_free(#[trigger] rows[k]) by {
        let end = if 7 * k + 7 < offset + n {
            7 * k + 7
        } else {
            offset + n
        };
        lemma_cells_markup_free(cfg, today, offset, 7 * k, end);
    }
    lemma_lines_markup_free(rows);
    lemma_concat_markup_free(header_text(title, cfg), "\n"@);
    lemma_concat_markup_free(header_text(title, cfg) + "\n"@, lines_text(rows));
}

/// Centring never truncates: the result is `max(len, width)` long and holds
/// `s` unchanged after the left padding; the two paddings differ by at most
/// one, the extra space going to the right. A title of at most twenty
/// characters fills the title line exactly.
pub proof fn lemma_centering(s: Seq<char>, width: int)
    requires
        width >= 0,
    ensures
        centered(s, width).len() == if s.len() >= width {
            s.len() as int
        } else {
            width
        },
        centered(s, width).subrange(
            left_pad(s.len() as int, width),
            left_pad(s.len() as int, width) + s.len(),
        ) == s,
        0 <= right_pad(s.len() as int, width) - left_pad(s.len() as int, width) <= 1,
        left_pad(s.len() as int, width) >= 0,
        s.len() <= TITLE_WIDTH ==> centered(s, TITLE_WIDTH as int).len() == TITLE_WIDTH,
{
    let l = left_pad(s.len() as int, width);
    assert(centered(s, width).subrange(l, l + s.len()) =~= s);
}

} // verus!
