//! What a renderer shows of an engine: the lines of the output buffer, and
//! the window onto them.

use crate::app::{segments, App, BufferedOutput};
use crate::config::TextStyle;
use crate::model::Segment;
use crate::text::{lines, split_lines};
use vstd::prelude::*;
use vstd::string::*;

verus! {

/// One line of output, with every choice of its style made.
#[derive(Debug)]
pub struct StyledLine {
    pub text: String,
    pub style: TextStyle,
}

/// What a `StyledLine` says.
pub struct LineView {
    pub text: Seq<char>,
    pub style: TextStyle,
}

impl View for StyledLine {
    type V = LineView;

    open spec fn view(&self) -> LineView {
        LineView { text: self.text@, style: self.style }
    }
}

/// What a list of lines says.
pub open spec fn line_views(shown: Seq<StyledLine>) -> Seq<LineView> {
    Seq::new(shown.len(), |i: int| shown[i]@)
}

/// The line that stands between two segments: empty and unstyled.
pub open spec fn blank_line() -> LineView {
    LineView { text: Seq::empty(), style: TextStyle { color: None, bold: false, italic: false } }
}

impl Segment {
    /// The lines of a segment, each in the segment's style.
    pub open spec fn lines(self) -> Seq<LineView> {
        let texts = lines(self.text);
        Seq::new(texts.len(), |i: int| LineView { text: texts[i], style: self.style.resolved() })
    }
}

/// The lines of a buffer: those of each segment in turn, and a blank line
/// after each segment.
pub open spec fn rendered(buffer: Seq<Segment>) -> Seq<LineView>
    decreases buffer.len(),
{
    if buffer.len() == 0 {
        Seq::empty()
    } else {
        rendered(buffer.drop_last()) + buffer.last().lines() + seq![blank_line()]
    }
}

impl BufferedOutput {
    /// The lines of the segment, each in the segment's style.
    pub fn into_lines(self) -> (shown: Vec<StyledLine>)
        ensures
            line_views(shown@) == self@.lines(),
    {
        let style = self.style.into_style();
        let texts = split_lines(self.text.as_str());
        let mut shown: Vec<StyledLine> = Vec::new();
        let mut i: usize = 0;
        while i < texts.len()
            invariant
                i <= texts.len(),
                texts.deep_view() == lines(self@.text),
                style == self@.style.resolved(),
                line_views(shown@) == self@.lines().take(i as int),
            decreases texts.len() - i,
        {
            let ghost before = line_views(shown@);
            shown.push(StyledLine { text: texts[i].clone(), style });
            proof {
                assert(texts.deep_view()[i as int] == texts[i as int]@);
                assert(line_views(shown@) =~= before.push(self@.lines()[i as int]));
                assert(self@.lines().take(i + 1) =~= before.push(self@.lines()[i as int]));
            }
            i += 1;
        }
        proof {
            assert(self@.lines().take(texts.len() as int) =~= self@.lines());
        }
        shown
    }
}

/// The lines that a renderer shows of an engine's output.
pub fn render_text(app: &App) -> (shown: Vec<StyledLine>)
    ensures
        line_views(shown@) == rendered(app@.buffer),
{
    let buffer = app.buffer();
    let mut shown: Vec<StyledLine> = Vec::new();
    let mut i: usize = 0;
    proof {
        assert(segments(buffer@).take(0) =~= Seq::empty());
    }
    while i < buffer.len()
        invariant
            i <= buffer.len(),
            line_views(shown@) == rendered(segments(buffer@).take(i as int)),
        decreases buffer.len() - i,
    {
        let ghost before = line_views(shown@);
        let ghost segment = buffer[i as int]@;
        let mut piece = buffer[i].clone().into_lines();
        let ghost piece_view = line_views(piece@);
        shown.append(&mut piece);
        shown.push(StyledLine { text: String::new(), style: TextStyle::default() });
        proof {
            let next = segments(buffer@).take(i + 1);
            assert(next.drop_last() =~= segments(buffer@).take(i as int));
            assert(next.last() == segment);
            assert(line_views(shown@) =~= before + piece_view + seq![blank_line()]);
        }
        i += 1;
    }
    proof {
        assert(segments(buffer@).take(buffer.len() as int) =~= segments(buffer@));
    }
    shown
}

/// The window onto the lines of the output.
#[derive(Clone, Copy, Debug, PartialEq, Eq, Structural)]
pub struct Viewport {
    /// The number of lines, as far as the window counts.
    pub total_lines: u16,
    /// The line that the window ends at.
    pub position: u16,
    /// The number of lines left out above the window.
    pub vertical_scroll: u16,
    /// Whether a scrollbar is due.
    pub scrollbar: bool,
}

/// The window onto `lines` lines for a view of `height` lines that was
/// scrolled up by `scroll` lines. The window counts lines modulo 65536. It
/// ends `scroll` lines above the last line, at the first line if there are
/// fewer; where the end lies below the view, the lines above the view and one
/// more are left out, at most 65535; and a scrollbar is due where the lines do
/// not fit the view.
pub open spec fn viewport_of(lines: nat, scroll: u16, height: u16) -> Viewport {
    let total = lines % 65536;
    let position = if total < scroll {
        0
    } else {
        total - scroll
    };
    let skipped = if position > height {
        if position - height + 1 > 65535 {
            65535
        } else {
            position - height + 1
        }
    } else {
        0
    };
    Viewport {
        total_lines: total as u16,
        position: position as u16,
        vertical_scroll: skipped as u16,
        scrollbar: total > height,
    }
}

/// Places the window onto the output.
pub fn viewport(lines: usize, scroll: u16, height: u16) -> (window: Viewport)
    ensures
        window == viewport_of(lines as nat, scroll, height),
{
    let total_lines: u16 = (lines % 65536) as u16;
    let position = total_lines.saturating_sub(scroll);
    let vertical_scroll = if position > height {
        position.saturating_sub(height).saturating_add(1)
    } else {
        0
    };
    Viewport { total_lines, position, vertical_scroll, scrollbar: total_lines > height }
}

} // verus!
