//! Which colour a cell gets: a first-match list of styling rules.

use crate::layout::WeekStart;
use vstd::prelude::*;

verus! {

/// What the renderer needs to know besides the date. Each colour is passed
/// through verbatim into the markup; `None` means that slot is unset.
#[derive(Clone, Debug)]
pub struct RenderConfig {
    pub week_start: WeekStart,
    pub label_color: Option<String>,
    pub today_color: Option<String>,
    pub weekend_color: Option<String>,
    pub day_color: Option<String>,
}

/// The rule that styles a day cell.
#[derive(Clone, Copy, Debug, PartialEq, Eq, Structural)]
pub enum CellStyle {
    Today,
    Weekend,
    Day,
    Plain,
}

/// The style of day `day` in a weekend column or not, when `today` is the
/// current day of the month: today beats weekend, weekend beats the generic
/// day colour, and a cell with none of them is plain.
pub open spec fn style_of(cfg: RenderConfig, day: int, today: int, weekend: bool) -> CellStyle {
    if cfg.today_color.is_some() && day == today {
        CellStyle::Today
    } else if cfg.weekend_color.is_some() && weekend {
        CellStyle::Weekend
    } else if cfg.day_color.is_some() {
        CellStyle::Day
    } else {
        CellStyle::Plain
    }
}

/// The text of an optional colour.
pub open spec fn color_view(c: Option<String>) -> Option<Seq<char>> {
    match c {
        Some(s) => Some(s@),
        None => None,
    }
}

/// The colour that a style puts on a cell, if any.
pub open spec fn style_color(cfg: RenderConfig, st: CellStyle) -> Option<Seq<char>> {
    match st {
        CellStyle::Today => color_view(cfg.today_color),
        CellStyle::Weekend => color_view(cfg.weekend_color),
        CellStyle::Day => color_view(cfg.day_color),
        CellStyle::Plain => None,
    }
}

impl RenderConfig {
    /// No colour slot is set.
    pub open spec fn uncolored(&self) -> bool {
        &&& self.label_color.is_none()
        &&& self.today_color.is_none()
        &&& self.weekend_color.is_none()
        &&& self.day_color.is_none()
    }

    /// A configuration with the given week start and no colours.
    pub fn plain(week_start: WeekStart) -> (r: RenderConfig)
        ensures
            r.week_start == week_start,
            r.uncolored(),
    {
        RenderConfig {
            week_start,
            label_color: None,
            today_color: None,
            weekend_color: None,
            day_color: None,
        }
    }
}

/// Picks the style of a day cell by walking the rules in priority order and
/// taking the first whose condition holds.
pub fn cell_style(cfg: &RenderConfig, day: u32, today: u32, weekend: bool) -> (r: CellStyle)
    ensures
        r == style_of(*cfg, day as int, today as int, weekend),
{
    let rules: Vec<(bool, CellStyle)> = vec![
        (cfg.today_color.is_some() && day == today, CellStyle::Today),
        (cfg.weekend_color.is_some() && weekend, CellStyle::Weekend),
        (cfg.day_color.is_some(), CellStyle::Day),
    ];
    let mut i: usize = 0;
    while i < rules.len()
        invariant
            i <= rules@.len() == 3,
            rules@[0] == (cfg.today_color.is_some() && day == today, CellStyle::Today),
            rules@[1] == (cfg.weekend_color.is_some() && weekend, CellStyle::Weekend),
            rules@[2] == (cfg.day_color.is_some(), CellStyle::Day),
            forall|j: int| 0 <= j < i ==> !(#[trigger] rules@[j]).0,
        decreases rules@.len() - i,
    {
        if rules[i].0 {
            return rules[i].1;
        }
        i = i + 1;
    }
    assert(!rules@[0].0 && !rules@[1].0 && !rules@[2].0);
    CellStyle::Plain
}

/// The colour that style `st` puts on a cell under `cfg`.
pub fn color_of_style(cfg: &RenderConfig, st: CellStyle) -> (r: Option<&String>)
    ensures
        color_view(
            match r {
                Some(c) => Some(*c),
                None => None,
            },
        ) == style_color(*cfg, st),
{
    match st {
        CellStyle::Today => cfg.today_color.as_ref(),
        CellStyle::Weekend => cfg.weekend_color.as_ref(),
        CellStyle::Day => cfg.day_color.as_ref(),
        CellStyle::Plain => None,
    }
}

/// A configured today colour wins over a configured weekend colour on a
/// weekend day that is today, whatever the generic day colour.
pub proof fn lemma_today_beats_weekend(cfg: RenderConfig, day: int, weekend: bool)
    requires
        cfg.today_color.is_some(),
    ensures
        style_of(cfg, day, day, weekend) == CellStyle::Today,
        style_color(cfg, style_of(cfg, day, day, weekend)) == color_view(cfg.today_color),
{
}

} // verus!
