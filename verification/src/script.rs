//! The record kept for each script, and the description that the leading
//! comment of a file gives it.

use vstd::prelude::*;
use crate::text::chars_of;
use crate::text::find_line_end;
use crate::text::lemma_line_end;
use crate::text::lemma_trim;
use crate::text::lemma_trim_ignores_trailing_space;
use crate::text::line_end;
use crate::text::lines_of;
use crate::text::string_from_range;
use crate::text::strip_cr;
use crate::text::trim;
use crate::text::trim_bounds;

verus! {

/// One launchable script, fixed once it has been discovered.
#[derive(Debug, PartialEq)]
pub struct Script {
    /// Filesystem path the script is launched by.
    pub path: String,
    /// Base name of the file, shown in the list.
    pub name: String,
    /// One trimmed line taken from the leading comment, if there is one.
    pub description: Option<String>,
    /// Name of the immediate parent directory below the scan root, if any.
    pub category: Option<String>,
}

/// Mathematical value of a [`Script`].
pub struct ScriptView {
    pub path: Seq<char>,
    pub name: Seq<char>,
    pub description: Option<Seq<char>>,
    pub category: Option<Seq<char>>,
}

impl View for Script {
    type V = ScriptView;

    open spec fn view(&self) -> ScriptView {
        ScriptView {
            path: self.path@,
            name: self.name@,
            description: self.description.deep_view(),
            category: self.category.deep_view(),
        }
    }
}

impl DeepView for Script {
    type V = ScriptView;

    open spec fn deep_view(&self) -> ScriptView {
        self@
    }
}

/// What one line says about the description of the file it stands in.
#[derive(Debug)]
pub enum LineScan {
    /// Blank, a shebang or an empty comment: the search goes on.
    Skip,
    /// A comment with text; the text is the description.
    Description(String),
    /// Anything else: the file has no description.
    Stop,
}

/// Mathematical value of a [`LineScan`].
pub enum LineScanView {
    Skip,
    Description(Seq<char>),
    Stop,
}

impl View for LineScan {
    type V = LineScanView;

    open spec fn view(&self) -> LineScanView {
        match self {
            LineScan::Skip => LineScanView::Skip,
            LineScan::Description(d) => LineScanView::Description(d@),
            LineScan::Stop => LineScanView::Stop,
        }
    }
}

/// Whether the trimmed line `t` is an interpreter line.
pub open spec fn is_shebang(t: Seq<char>) -> bool {
    t.len() >= 2 && t[0] == '#' && t[1] == '!'
}

/// What follows the comment marker `#`, `//` or `--` at the start of the
/// trimmed line `t`, if it starts with one.
pub open spec fn comment_body(t: Seq<char>) -> Option<Seq<char>> {
    if t.len() >= 1 && t[0] == '#' {
        Some(t.skip(1))
    } else if t.len() >= 2 && t[0] == '/' && t[1] == '/' {
        Some(t.skip(2))
    } else if t.len() >= 2 && t[0] == '-' && t[1] == '-' {
        Some(t.skip(2))
    } else {
        None
    }
}

/// The verdict on a single line.
pub open spec fn classify_line(line: Seq<char>) -> LineScanView {
    let t = trim(line);
    if t.len() == 0 || is_shebang(t) {
        LineScanView::Skip
    } else {
        match comment_body(t) {
            Some(body) => if trim(body).len() == 0 {
                LineScanView::Skip
            } else {
                LineScanView::Description(trim(body))
            },
            None => LineScanView::Stop,
        }
    }
}

/// The description that a file with the text `text` has: the first line
/// on which the search does not go on decides.
pub open spec fn description_of(text: Seq<char>) -> Option<Seq<char>>
    decreases text.len(),
{
    let k = line_end(text);
    match classify_line(text.take(k)) {
        LineScanView::Description(d) => Some(d),
        LineScanView::Stop => None,
        LineScanView::Skip => if 0 <= k < text.len() {
            description_of(text.skip(k + 1))
        } else {
            None
        },
    }
}

/// The description that a file has when it is read line by line: the
/// verdict of the first line on which the search does not go on.
pub open spec fn first_verdict(lines: Seq<Seq<char>>) -> Option<Seq<char>>
    decreases lines.len(),
{
    if lines.len() == 0 {
        None
    } else {
        match classify_line(lines[0]) {
            LineScanView::Description(d) => Some(d),
            LineScanView::Stop => None,
            LineScanView::Skip => first_verdict(lines.skip(1)),
        }
    }
}

/// A description taken from a line is not empty, has no white space at
/// either end, and is made of characters of that line.
pub proof fn lemma_description_of_line(line: Seq<char>)
    ensures
        classify_line(line) matches LineScanView::Description(d) ==> {
            &&& d.len() > 0
            &&& trim(d) == d
            &&& forall|i: int| 0 <= i < d.len() ==> line.contains(#[trigger] d[i])
        },
{
    if let LineScanView::Description(d) = classify_line(line) {
        let t = trim(line);
        let body = comment_body(t)->0;
        lemma_trim(line);
        lemma_trim(body);
        assert forall|i: int| 0 <= i < d.len() implies line.contains(#[trigger] d[i]) by {
            let j = choose|j: int| 0 <= j < body.len() && body[j] == d[i];
            assert(body[j] == t[j + t.len() - body.len()]);
        }
    }
}

/// A carriage return at the end of a line does not change its verdict.
pub proof fn lemma_verdict_ignores_carriage_return(line: Seq<char>)
    ensures
        classify_line(strip_cr(line)) == classify_line(line),
{
    if line.len() > 0 && line.last() == '\r' {
        assert(line.drop_last().push('\r') =~= line);
        lemma_trim_ignores_trailing_space(line.drop_last(), '\r');
    }
}

/// The description of a file is a single line: it is not empty, holds no
/// line feed and has no white space at either end.
pub proof fn lemma_description_is_one_trimmed_line(text: Seq<char>)
    ensures
        description_of(text) matches Some(d) ==> {
            &&& d.len() > 0
            &&& trim(d) == d
            &&& !d.contains('\n')
        },
    decreases text.len(),
{
    let k = line_end(text);
    lemma_line_end(text);
    let line = text.take(k);
    match classify_line(line) {
        LineScanView::Description(d) => {
            lemma_description_of_line(line);
            if d.contains('\n') {
                let i = choose|i: int| 0 <= i < d.len() && d[i] == '\n';
                assert(line.contains(d[i]));
            }
        },
        LineScanView::Stop => {},
        LineScanView::Skip => {
            if k < text.len() {
                lemma_description_is_one_trimmed_line(text.skip(k + 1));
            }
        },
    }
}

/// Reading a file line by line, and stopping at the first line that
/// decides, finds the description that the whole text has.
pub proof fn lemma_description_line_by_line(text: Seq<char>)
    ensures
        description_of(text) == first_verdict(lines_of(text)),
    decreases text.len(),
{
    let k = line_end(text);
    lemma_line_end(text);
    if 0 < text.len() <= k {
        assert(text.take(k) =~= text);
        assert(first_verdict(lines_of(text).skip(1)) == None::<Seq<char>>);
    } else if k < text.len() {
        assert(lines_of(text).skip(1) =~= lines_of(text.skip(k + 1)));
        lemma_verdict_ignores_carriage_return(text.take(k));
        lemma_description_line_by_line(text.skip(k + 1));
    }
}

/// A verdict whose description is given by its place in the text.
enum Span {
    Skip,
    Found(usize, usize),
    Stop,
}

/// Classifies the line held in `chars` from `lo` up to `hi`.
fn scan_span(chars: &Vec<char>, lo: usize, hi: usize) -> (r: Span)
    requires
        lo <= hi <= chars.len(),
    ensures
        match r {
            Span::Skip => classify_line(chars@.subrange(lo as int, hi as int))
                == LineScanView::Skip,
            Span::Stop => classify_line(chars@.subrange(lo as int, hi as int))
                == LineScanView::Stop,
            Span::Found(a, b) => lo <= a < b <= hi && classify_line(
                chars@.subrange(lo as int, hi as int),
            ) == LineScanView::Description(chars@.subrange(a as int, b as int)),
        },
{
    let (a, b) = trim_bounds(chars, lo, hi);
    let ghost t = chars@.subrange(a as int, b as int);
    if a == b {
        return Span::Skip;
    }
    let first = chars[a];
    let marker: usize = if first == '#' {
        if b - a >= 2 && chars[a + 1] == '!' {
            return Span::Skip;
        }
        1
    } else if b - a >= 2 && (first == '/' || first == '-') && chars[a + 1] == first {
        2
    } else {
        return Span::Stop;
    };
    assert(t.skip(marker as int) =~= chars@.subrange(a + marker, b as int));
    let (c, d) = trim_bounds(chars, a + marker, b);
    if c == d {
        Span::Skip
    } else {
        Span::Found(c, d)
    }
}

/// Classifies one line of a file.
pub fn scan_line(line: &str) -> (r: LineScan)
    ensures
        r@ == classify_line(line@),
{
    let chars = chars_of(line);
    assert(chars@.subrange(0, chars@.len() as int) =~= line@);
    match scan_span(&chars, 0, chars.len()) {
        Span::Skip => LineScan::Skip,
        Span::Stop => LineScan::Stop,
        Span::Found(a, b) => LineScan::Description(string_from_range(&chars, a, b)),
    }
}

/// Extracts the description from the text of a file.
pub fn extract_description(text: &str) -> (r: Option<String>)
    ensures
        r.deep_view() == description_of(text@),
{
    let chars = chars_of(text);
    let mut pos: usize = 0;
    assert(text@.skip(0) =~= text@);
    loop
        invariant
            pos <= chars.len(),
            chars@ == text@,
            description_of(text@) == description_of(text@.skip(pos as int)),
        decreases chars.len() - pos,
    {
        let k = find_line_end(&chars, pos);
        assert(text@.skip(pos as int).take(k - pos) =~= chars@.subrange(pos as int, k as int));
        match scan_span(&chars, pos, k) {
            Span::Found(a, b) => {
                return Some(string_from_range(&chars, a, b));
            },
            Span::Stop => {
                return None;
            },
            Span::Skip => {
                if k >= chars.len() {
                    return None;
                }
                assert(text@.skip(pos as int).skip(k - pos + 1) =~= text@.skip(k + 1));
                pos = k + 1;
            },
        }
    }
}

} // verus!
