//! The choice between printing a report directly and showing it in a pager.
//!
//! The choice is made once, from the size of the rendered text, the size of
//! the terminal as sampled by the caller, and whether the output goes to an
//! interactive terminal.

use vstd::prelude::*;
use crate::text::chars_of;

verus! {

/// How the report reaches the user.
#[derive(Clone, Copy, Debug, PartialEq, Eq, Structural)]
pub enum OutputMode {
    /// Printed to standard output as it is.
    Direct,
    /// Piped through the pager.
    Paged,
}

/// The size of a rendered text: its number of lines, and the width in
/// characters of one representative line where the text has that line.
#[derive(Clone, Copy, Debug, PartialEq, Eq, Structural)]
pub struct Extent {
    pub height: usize,
    pub width: Option<usize>,
}

/// The number of line feeds in `s`.
pub open spec fn breaks(s: Seq<char>) -> nat
    decreases s.len(),
{
    if s.len() == 0 {
        0
    } else if s.last() == '\n' {
        breaks(s.drop_last()) + 1
    } else {
        breaks(s.drop_last())
    }
}

/// The number of characters after the last line feed of `s`.
pub open spec fn tail_len(s: Seq<char>) -> nat
    decreases s.len(),
{
    if s.len() == 0 || s.last() == '\n' {
        0
    } else {
        tail_len(s.drop_last()) + 1
    }
}

/// The number of lines of `s`. A line ends at a line feed; what follows the
/// last line feed is one more line unless it is empty.
pub open spec fn line_count(s: Seq<char>) -> nat {
    if tail_len(s) > 0 {
        breaks(s) + 1
    } else {
        breaks(s)
    }
}

/// The width in characters of line `k` of `s`, counting from 0; `None` where
/// `s` has no such line. The line feed that ends a line is not part of it,
/// nor is a carriage return directly before that line feed.
pub open spec fn line_width(s: Seq<char>, k: nat) -> Option<nat>
    decreases s.len(),
{
    if s.len() == 0 {
        None
    } else {
        let before = s.drop_last();
        if k < breaks(before) {
            line_width(before, k)
        } else if k > breaks(before) {
            None
        } else if s.last() != '\n' {
            Some(tail_len(s))
        } else if before.len() > 0 && before.last() == '\r' {
            Some((tail_len(before) - 1) as nat)
        } else {
            Some(tail_len(before))
        }
    }
}

/// Whether a text of `height` lines, with a representative line of `width`
/// characters, is too large for a terminal of `cols` by `rows`.
pub open spec fn exceeds(height: nat, width: Option<nat>, cols: nat, rows: nat) -> bool {
    height > rows || (width matches Some(w) && w > cols)
}

/// The mode for an output of the given size.
pub open spec fn mode_for(
    interactive: bool,
    height: nat,
    width: Option<nat>,
    cols: nat,
    rows: nat,
) -> OutputMode {
    if interactive && exceeds(height, width, cols, rows) {
        OutputMode::Paged
    } else {
        OutputMode::Direct
    }
}

pub open spec fn width_of(extent: Extent) -> Option<nat> {
    match extent.width {
        Some(w) => Some(w as nat),
        None => None,
    }
}

/// Output to anything but an interactive terminal is printed directly,
/// whatever its size.
pub proof fn lemma_not_interactive_is_direct(
    height: nat,
    width: Option<nat>,
    cols: nat,
    rows: nat,
)
    ensures
        mode_for(false, height, width, cols, rows) == OutputMode::Direct,
{
}

/// On an interactive terminal, output is paged exactly when it has more lines
/// than the terminal has rows, or its representative line is wider than the
/// terminal has columns.
pub proof fn lemma_interactive_pages_what_does_not_fit(
    height: nat,
    width: Option<nat>,
    cols: nat,
    rows: nat,
)
    ensures
        height > rows ==> mode_for(true, height, width, cols, rows) == OutputMode::Paged,
        (width matches Some(w) && w > cols) ==> mode_for(true, height, width, cols, rows)
            == OutputMode::Paged,
        height <= rows && (width matches Some(w) ==> w <= cols) ==> mode_for(
            true,
            height,
            width,
            cols,
            rows,
        ) == OutputMode::Direct,
{
}

/// The terminal that the output goes to, as the caller sampled it.
#[derive(Clone, Copy, Debug, PartialEq, Eq, Structural)]
pub struct Terminal {
    /// Whether standard output is an interactive terminal.
    pub interactive: bool,
    pub cols: u16,
    pub rows: u16,
}

/// The mode for a schema report: it has no line that stands for its width,
/// so only its height counts.
pub open spec fn schema_mode(text: Seq<char>, terminal: Terminal) -> OutputMode {
    mode_for(terminal.interactive, line_count(text), None, terminal.cols as nat, terminal.rows as nat)
}

/// The mode for a sample under a heading of `heading_lines` lines: the line
/// behind the heading, the top border of the grid, stands for the width.
pub open spec fn sample_mode(text: Seq<char>, heading_lines: nat, terminal: Terminal) -> OutputMode {
    mode_for(
        terminal.interactive,
        line_count(text),
        line_width(text, heading_lines),
        terminal.cols as nat,
        terminal.rows as nat,
    )
}

/// Line feeds add up over two texts written one after the other.
pub proof fn lemma_breaks_of_appended(a: Seq<char>, b: Seq<char>)
    ensures
        breaks(a + b) == breaks(a) + breaks(b),
    decreases b.len(),
{
    if b.len() == 0 {
        assert(a + b =~= a);
    } else {
        lemma_breaks_of_appended(a, b.drop_last());
        assert((a + b).drop_last() =~= a + b.drop_last());
        assert((a + b).last() == b.last());
    }
}

/// Behind a text that ends a line, the unfinished line is that of what
/// follows.
pub proof fn lemma_tail_of_appended(a: Seq<char>, b: Seq<char>)
    requires
        tail_len(a) == 0,
    ensures
        tail_len(a + b) == tail_len(b),
    decreases b.len(),
{
    if b.len() == 0 {
        assert(a + b =~= a);
    } else {
        lemma_tail_of_appended(a, b.drop_last());
        assert((a + b).drop_last() =~= a + b.drop_last());
        assert((a + b).last() == b.last());
    }
}

/// Under a heading that ends with a line feed, the line whose number is the
/// heading's line count is the first line of what follows the heading.
pub proof fn lemma_line_under_heading(heading: Seq<char>, body: Seq<char>)
    requires
        heading.len() > 0,
        heading.last() == '\n',
    ensures
        line_count(heading) == breaks(heading),
        line_width(heading + body, line_count(heading)) == line_width(body, 0),
    decreases body.len(),
{
    let k = breaks(heading);
    if body.len() == 0 {
        assert(heading + body =~= heading);
    } else {
        let rest = body.drop_last();
        let text = heading + body;
        lemma_line_under_heading(heading, rest);
        lemma_breaks_of_appended(heading, rest);
        lemma_tail_of_appended(heading, rest);
        lemma_tail_of_appended(heading, body);
        assert(text.drop_last() =~= heading + rest);
        assert(text.last() == body.last());
        if rest.len() > 0 {
            assert((heading + rest).last() == rest.last());
        } else {
            assert(heading + rest =~= heading);
        }
    }
}

/// Measures `text`: its number of lines and, where `line` is given, the
/// width of that line, counted from 0.
pub fn measure(text: &str, line: Option<usize>) -> (extent: Extent)
    ensures
        extent.height == line_count(text@),
        width_of(extent) == match line {
            Some(k) => line_width(text@, k as nat),
            None => None,
        },
{
    let chars = chars_of(text);
    let mut newlines: usize = 0;
    let mut tail: usize = 0;
    let mut width: Option<usize> = None;
    let mut after_return: bool = false;
    let mut i: usize = 0;
    while i < chars.len()
        invariant
            i <= chars.len(),
            chars@ == text@,
            newlines == breaks(text@.take(i as int)),
            tail == tail_len(text@.take(i as int)),
            newlines + tail <= i,
            after_return == (i > 0 && text@[i - 1] == '\r'),
            line is Some ==> match width {
                Some(w) => line_width(text@.take(i as int), line->0 as nat) == Some(w as nat),
                None => line_width(text@.take(i as int), line->0 as nat) is None,
            },
            line is None ==> width is None,
        decreases chars.len() - i,
    {
        let c = chars[i];
        let ghost upto = text@.take(i + 1);
        proof {
            assert(upto.drop_last() =~= text@.take(i as int));
            assert(upto.last() == c);
            if i > 0 {
                assert(text@.take(i as int).last() == text@[i - 1]);
            }
        }
        if c == '\n' {
            if let Some(k) = line {
                if k == newlines {
                    width = Some(if after_return { tail - 1 } else { tail });
                }
            }
            newlines = newlines + 1;
            tail = 0;
        } else {
            tail = tail + 1;
            if let Some(k) = line {
                if k == newlines {
                    width = Some(tail);
                }
            }
        }
        after_return = c == '\r';
        i = i + 1;
    }
    assert(text@.take(i as int) =~= text@);
    Extent { height: if tail > 0 { newlines + 1 } else { newlines }, width }
}

/// Chooses between direct output and the pager. `interactive` says whether
/// standard output is a terminal, `term_cols` and `term_rows` are its size.
pub fn choose_output(interactive: bool, extent: Extent, term_cols: u16, term_rows: u16) -> (mode:
    OutputMode)
    ensures
        mode == mode_for(
            interactive,
            extent.height as nat,
            width_of(extent),
            term_cols as nat,
            term_rows as nat,
        ),
        !interactive ==> mode == OutputMode::Direct,
{
    if !interactive {
        return OutputMode::Direct;
    }
    let too_wide = match extent.width {
        Some(w) => w > term_cols as usize,
        None => false,
    };
    if too_wide || extent.height > term_rows as usize {
        OutputMode::Paged
    } else {
        OutputMode::Direct
    }
}

/// Measures `text` and chooses how to show it. `line` is the line whose
/// width stands for the width of the whole text, where there is such a line.
pub fn dispatch(
    text: &str,
    line: Option<usize>,
    interactive: bool,
    term_cols: u16,
    term_rows: u16,
) -> (mode: OutputMode)
    ensures
        mode == mode_for(
            interactive,
            line_count(text@),
            match line {
                Some(k) => line_width(text@, k as nat),
                None => None,
            },
            term_cols as nat,
            term_rows as nat,
        ),
{
    if !interactive {
        return OutputMode::Direct;
    }
    choose_output(interactive, measure(text, line), term_cols, term_rows)
}

/// Chooses how to show a schema report: paged where it is taller than an
/// interactive terminal, directly otherwise.
pub fn schema_output(text: &str, terminal: Terminal) -> (mode: OutputMode)
    ensures
        mode == schema_mode(text@, terminal),
        !terminal.interactive ==> mode == OutputMode::Direct,
{
    dispatch(text, None, terminal.interactive, terminal.cols, terminal.rows)
}

/// Chooses how to show a sample whose heading takes `heading_lines` lines:
/// paged where it is taller than an interactive terminal or the line behind
/// the heading is wider, directly otherwise.
pub fn sample_output(text: &str, heading_lines: usize, terminal: Terminal) -> (mode: OutputMode)
    ensures
        mode == sample_mode(text@, heading_lines as nat, terminal),
        !terminal.interactive ==> mode == OutputMode::Direct,
{
    dispatch(text, Some(heading_lines), terminal.interactive, terminal.cols, terminal.rows)
}

} // verus!
