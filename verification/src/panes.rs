//! The texts that the screens show.

use vstd::prelude::*;
use vstd::string::StrSliceExecFns;
use vstd::string::StringExecFns;
use crate::script::Script;
use crate::script::ScriptView;
use crate::text::count_string;
use crate::text::decimal_digits;
use crate::text::join_lines;
use crate::text::lines_of;
use crate::text::push_digits;
use crate::text::split_lines;

verus! {

/// How a run went, as far as its report tells.
#[derive(Clone, Copy, Debug, PartialEq, Eq, Structural)]
pub enum Tone {
    /// The report starts with the mark of success.
    Success,
    /// The report starts with the mark of failure.
    Failure,
    /// Anything else: the script is still running.
    Pending,
}

/// What the output screen shows of a report.
#[derive(Debug)]
pub struct OutputPane {
    /// How the run went.
    pub tone: Tone,
    /// The lines of the report that are in view.
    pub body: String,
    /// The key hints, with the place of the view in the report where the
    /// report does not fit.
    pub footer: String,
}

/// The tone of the report `text`.
pub open spec fn tone_of(text: Seq<char>) -> Tone {
    if text.len() > 0 && text[0] == '✓' {
        Tone::Success
    } else if text.len() > 0 && text[0] == '✗' {
        Tone::Failure
    } else {
        Tone::Pending
    }
}

/// Index of the first line in view: `scroll`, or `total` where `scroll`
/// lies beyond the last line.
pub open spec fn window_start(scroll: nat, total: nat) -> nat {
    if scroll < total {
        scroll
    } else {
        total
    }
}

/// Index just past the last line in view: `height` lines after the first
/// one, or `total` where there are fewer.
pub open spec fn window_end(scroll: nat, height: nat, total: nat) -> nat {
    if window_start(scroll, total) + height < total {
        window_start(scroll, total) + height
    } else {
        total
    }
}

/// The lines of `text` that are in view, put together.
pub open spec fn visible_text(text: Seq<char>, scroll: nat, height: nat) -> Seq<char> {
    let lines = lines_of(text);
    join_lines(
        lines.subrange(
            window_start(scroll, lines.len()) as int,
            window_end(scroll, height, lines.len()) as int,
        ),
    )
}

/// The key hints under a report of `total` lines. Where the report does
/// not fit, they tell which lines are in view, counting from 1.
pub open spec fn footer_text(scroll: nat, height: nat, total: nat) -> Seq<char> {
    if total > height {
        "↑/↓: Scroll | Lines "@ + decimal_digits(window_start(scroll, total) + 1) + "-"@
            + decimal_digits(window_end(scroll, height, total)) + " of "@ + decimal_digits(total)
            + " | Other: Back"@
    } else {
        "Press any key to go back"@
    }
}

/// The title of the list for `count` scripts.
pub open spec fn list_title_text(count: nat) -> Seq<char> {
    "Script Runner - "@ + decimal_digits(count) + " scripts"@
}

/// The text of one script in the list: a marker if it is selected, its
/// name, and its description on a line of its own if it has one.
pub open spec fn list_entry_text(script: ScriptView, selected: bool) -> Seq<char> {
    (if selected {
        "▶"@
    } else {
        " "@
    }) + " "@ + script.name + match script.description {
        Some(d) => "\n    "@ + d,
        None => Seq::empty(),
    }
}

/// The title of the output of the script called `name`.
pub open spec fn output_title_text(name: Seq<char>) -> Seq<char> {
    "Output: "@ + name
}

/// Tells the tone of a report.
pub fn output_tone(text: &str) -> (tone: Tone)
    ensures
        tone == tone_of(text@),
{
    if text.is_empty() {
        Tone::Pending
    } else {
        let first = text.get_char(0);
        if first == '✓' {
            Tone::Success
        } else if first == '✗' {
            Tone::Failure
        } else {
            Tone::Pending
        }
    }
}

/// Puts the lines `start..end` of `lines` together.
fn join_range(lines: &Vec<String>, start: usize, end: usize) -> (text: String)
    requires
        start <= end <= lines.len(),
    ensures
        text@ == join_lines(lines.deep_view().subrange(start as int, end as int)),
{
    let mut text = String::new();
    let mut i: usize = start;
    while i < end
        invariant
            start <= i <= end <= lines.len(),
            text@ == join_lines(lines.deep_view().subrange(start as int, i as int)),
        decreases end - i,
    {
        let ghost upto = lines.deep_view().subrange(start as int, i + 1);
        assert(upto.drop_last() =~= lines.deep_view().subrange(start as int, i as int));
        if i > start {
            text.push('\n');
        }
        text.append(lines[i].as_str());
        i += 1;
    }
    text
}

/// Makes the key hints under a report of `total` lines of which the lines
/// `start..end` are in view.
fn make_footer(start: usize, end: usize, total: usize, height: usize) -> (footer: String)
    ensures
        footer@ == if total > height {
            "↑/↓: Scroll | Lines "@ + decimal_digits((start + 1) as nat) + "-"@ + decimal_digits(
                end as nat,
            ) + " of "@ + decimal_digits(total as nat) + " | Other: Back"@
        } else {
            "Press any key to go back"@
        },
{
    if total > height {
        let mut footer = "↑/↓: Scroll | Lines ".to_owned();
        push_digits(&mut footer, start as u128 + 1);
        footer.append("-");
        push_digits(&mut footer, end as u128);
        footer.append(" of ");
        push_digits(&mut footer, total as u128);
        footer.append(" | Other: Back");
        footer
    } else {
        "Press any key to go back".to_owned()
    }
}

/// Lays out the report `text` for a view of `height` lines that starts at
/// line `scroll`.
pub fn output_pane(text: &str, scroll: usize, height: usize) -> (pane: OutputPane)
    ensures
        pane.tone == tone_of(text@),
        pane.body@ == visible_text(text@, scroll as nat, height as nat),
        pane.footer@ == footer_text(scroll as nat, height as nat, lines_of(text@).len()),
{
    let lines = split_lines(text);
    let total = lines.len();
    let start = if scroll < total {
        scroll
    } else {
        total
    };
    let end = if height < total - start {
        start + height
    } else {
        total
    };
    OutputPane {
        tone: output_tone(text),
        body: join_range(&lines, start, end),
        footer: make_footer(start, end, total, height),
    }
}

/// Makes the title of the list.
pub fn list_title(count: usize) -> (title: String)
    ensures
        title@ == list_title_text(count as nat),
{
    let mut title = "Script Runner - ".to_owned();
    title.append(count_string(count).as_str());
    title.append(" scripts");
    title
}

/// Makes the text of one script in the list.
pub fn list_entry(script: &Script, selected: bool) -> (text: String)
    ensures
        text@ == list_entry_text(script@, selected),
{
    let mut text = if selected {
        "▶".to_owned()
    } else {
        " ".to_owned()
    };
    text.append(" ");
    text.append(script.name.as_str());
    if let Some(d) = &script.description {
        text.append("\n    ");
        text.append(d.as_str());
    }
    text
}

/// Makes the title of the output screen.
pub fn output_title(name: &str) -> (title: String)
    ensures
        title@ == output_title_text(name@),
{
    let mut title = "Output: ".to_owned();
    title.append(name);
    title
}

} // verus!
