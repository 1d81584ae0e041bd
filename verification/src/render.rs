//! What one frame shows: a plan the driving binary draws from.
//!
//! A frame holds two widgets. On top, a bordered gauge titled
//! "Time Remaining" showing the completion percentage as a filled
//! fraction and a label; below, a bordered list titled "Tasks" with
//! one line per task label in input order, and a highlight style and
//! marker reserved for a selected entry (nothing ever drives the
//! selection). A plan describes the whole frame: every call redraws
//! everything.

use crate::layout::{spec_split, split_layout, valid_region, Region};
use vstd::prelude::*;
use vstd::string::StringExecFns;

verus! {

/// The colors a widget style names; `Terminal` leaves the terminal's
/// own color in place.
#[derive(Clone, Copy, Debug, PartialEq, Eq, Structural)]
pub enum WidgetColor {
    Terminal,
    Cyan,
    Black,
    White,
}

/// How a widget's text is drawn: foreground, background, emphasis.
#[derive(Clone, Copy, Debug, PartialEq, Eq, Structural)]
pub struct TextStyle {
    pub fg: WidgetColor,
    pub bg: WidgetColor,
    pub italic: bool,
}

/// The gauge's bar style: cyan on black, italic.
pub open spec fn spec_gauge_style() -> TextStyle {
    TextStyle { fg: WidgetColor::Cyan, bg: WidgetColor::Black, italic: true }
}

/// The task list's style: white text on the terminal's background.
pub open spec fn spec_list_style() -> TextStyle {
    TextStyle { fg: WidgetColor::White, bg: WidgetColor::Terminal, italic: false }
}

/// The style reserved for a highlighted list entry: emphasis only.
pub open spec fn spec_highlight_style() -> TextStyle {
    TextStyle { fg: WidgetColor::Terminal, bg: WidgetColor::Terminal, italic: true }
}

/// The progress widget of one frame: a bordered, titled gauge filled
/// to `percent`, labelled with the same percentage.
pub struct GaugePlan {
    pub region: Region,
    pub title: String,
    pub percent: u16,
    pub style: TextStyle,
}

/// The task widget of one frame: a bordered, titled list with one
/// entry per task label, in order, and a highlight style and marker
/// for a selected entry.
pub struct ListPlan {
    pub region: Region,
    pub title: String,
    pub items: Vec<String>,
    pub style: TextStyle,
    pub highlight_style: TextStyle,
    pub highlight_symbol: String,
}

/// Everything one frame draws.
pub struct FramePlan {
    pub gauge: GaugePlan,
    pub list: ListPlan,
}

/// Lays out and describes one whole frame: the gauge in the upper
/// region showing exactly `percent`, the list in the lower region
/// showing exactly the task labels in their given order, each widget
/// with its fixed title and style.
pub fn plan_frame(area: Region, percent: u16, tasks: &Vec<String>) -> (p: FramePlan)
    requires
        valid_region(area),
        percent <= 100,
    ensures
        p.gauge.region == spec_split(area).0,
        p.list.region == spec_split(area).1,
        p.gauge.percent == percent,
        p.gauge.title@ == "Time Remaining"@,
        p.gauge.style == spec_gauge_style(),
        p.list.title@ == "Tasks"@,
        p.list.items@ == tasks@,
        p.list.style == spec_list_style(),
        p.list.highlight_style == spec_highlight_style(),
        p.list.highlight_symbol@ == ">>"@,
{
    let (gauge_region, list_region) = split_layout(area);
    let mut items: Vec<String> = Vec::new();
    let mut i: usize = 0;
    while i < tasks.len()
        invariant
            i <= tasks@.len(),
            items@ == tasks@.subrange(0, i as int),
        decreases tasks@.len() - i,
    {
        items.push(tasks[i].clone());
        proof {
            assert(items@ =~= tasks@.subrange(0, i + 1));
        }
        i = i + 1;
    }
    proof {
        assert(tasks@.subrange(0, tasks@.len() as int) =~= tasks@);
    }
    FramePlan {
        gauge: GaugePlan {
            region: gauge_region,
            title: String::from_str("Time Remaining"),
            percent,
            style: TextStyle { fg: WidgetColor::Cyan, bg: WidgetColor::Black, italic: true },
        },
        list: ListPlan {
            region: list_region,
            title: String::from_str("Tasks"),
            items,
            style: TextStyle { fg: WidgetColor::White, bg: WidgetColor::Terminal, italic: false },
            highlight_style: TextStyle {
                fg: WidgetColor::Terminal,
                bg: WidgetColor::Terminal,
                italic: true,
            },
            highlight_symbol: String::from_str(">>"),
        },
    }
}

} // verus!
