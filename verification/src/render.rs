//! Styled render lines, and how one is laid out in a row of terminal cells.
use vstd::prelude::*;

use crate::text::chars_of;

verus! {

broadcast use vstd::seq_lib::group_seq_properties;

/// What a piece of rendered text means, which decides how it looks.
#[derive(Debug, Clone, Copy, PartialEq, Eq)]
pub enum SemanticStyle {
    Plain,
    Grid,
    Text,
    Connector,
    Corruption,
    Cursor,
    Selection,
    HelpHeading,
    HelpKey,
    HintKey,
}

/// A run of text in one style.
#[derive(Debug, Clone, PartialEq, Eq)]
pub struct RenderSegment {
    pub text: String,
    pub style: SemanticStyle,
}

/// One rendered row, as styled runs of text.
#[derive(Debug, Clone, PartialEq, Eq)]
pub struct RenderLine {
    pub segments: Vec<RenderSegment>,
}

/// The terminal colors the host uses.
#[derive(Debug, Clone, Copy, PartialEq, Eq)]
pub enum TerminalColor {
    Gray,
    Red,
    Black,
    Yellow,
    White,
    Cyan,
}

/// A terminal cell style: optional foreground and background, and boldness.
/// No color and no boldness is the terminal's default style.
#[derive(Debug, Clone, Copy, PartialEq, Eq)]
pub struct TerminalStyle {
    pub fg: Option<TerminalColor>,
    pub bg: Option<TerminalColor>,
    pub bold: bool,
}

/// How each semantic style looks in the terminal.
pub open spec fn style_for(style: SemanticStyle) -> TerminalStyle {
    match style {
        SemanticStyle::Plain | SemanticStyle::Text | SemanticStyle::Connector => TerminalStyle {
            fg: None,
            bg: None,
            bold: false,
        },
        SemanticStyle::Grid => TerminalStyle { fg: Some(TerminalColor::Gray), bg: None, bold: false },
        SemanticStyle::Corruption => TerminalStyle {
            fg: Some(TerminalColor::Red),
            bg: None,
            bold: false,
        },
        SemanticStyle::Cursor => TerminalStyle {
            fg: Some(TerminalColor::Black),
            bg: Some(TerminalColor::Yellow),
            bold: true,
        },
        SemanticStyle::Selection => TerminalStyle {
            fg: Some(TerminalColor::Black),
            bg: Some(TerminalColor::White),
            bold: false,
        },
        SemanticStyle::HelpHeading => TerminalStyle {
            fg: Some(TerminalColor::Cyan),
            bg: None,
            bold: true,
        },
        SemanticStyle::HelpKey | SemanticStyle::HintKey => TerminalStyle {
            fg: Some(TerminalColor::Yellow),
            bg: None,
            bold: true,
        },
    }
}

/// The terminal style of a semantic style.
pub fn semantic_style_to_terminal(style: SemanticStyle) -> (s: TerminalStyle)
    ensures
        s == style_for(style),
{
    match style {
        SemanticStyle::Plain => TerminalStyle { fg: None, bg: None, bold: false },
        SemanticStyle::Grid => TerminalStyle { fg: Some(TerminalColor::Gray), bg: None, bold: false },
        SemanticStyle::Text => TerminalStyle { fg: None, bg: None, bold: false },
        SemanticStyle::Connector => TerminalStyle { fg: None, bg: None, bold: false },
        SemanticStyle::Corruption => TerminalStyle {
            fg: Some(TerminalColor::Red),
            bg: None,
            bold: false,
        },
        SemanticStyle::Cursor => TerminalStyle {
            fg: Some(TerminalColor::Black),
            bg: Some(TerminalColor::Yellow),
            bold: true,
        },
        SemanticStyle::Selection => TerminalStyle {
            fg: Some(TerminalColor::Black),
            bg: Some(TerminalColor::White),
            bold: false,
        },
        SemanticStyle::HelpHeading => TerminalStyle {
            fg: Some(TerminalColor::Cyan),
            bg: None,
            bold: true,
        },
        SemanticStyle::HelpKey | SemanticStyle::HintKey => TerminalStyle {
            fg: Some(TerminalColor::Yellow),
            bg: None,
            bold: true,
        },
    }
}

/// The characters of a segment, each with the segment's style.
pub open spec fn segment_cells(s: RenderSegment) -> Seq<(char, SemanticStyle)> {
    s.text@.map_values(|c: char| (c, s.style))
}

/// The characters of a line in order, each with its style.
pub open spec fn line_cells(segs: Seq<RenderSegment>) -> Seq<(char, SemanticStyle)> {
    segs.map_values(|s: RenderSegment| segment_cells(s)).flatten()
}

/// A row `width` cells wide: the line's characters, cut at the width, then blanks
/// in the plain style.
pub open spec fn row_cells(line: RenderLine, width: nat) -> Seq<(char, SemanticStyle)> {
    let f = line_cells(line.segments@);
    if f.len() >= width {
        f.take(width as int)
    } else {
        f + Seq::new((width - f.len()) as nat, |k: int| (' ', SemanticStyle::Plain))
    }
}

/// Lays a line out in a row of `width` cells, one character per cell.
pub fn render_row_cells(line: &RenderLine, width: usize) -> (r: Vec<(char, SemanticStyle)>)
    ensures
        r@ == row_cells(*line, width as nat),
{
    let ghost segs = line.segments@;
    let ghost parts = segs.map_values(|s: RenderSegment| segment_cells(s));
    let mut all: Vec<(char, SemanticStyle)> = Vec::new();
    let mut k: usize = 0;
    while k < line.segments.len()
        invariant
            0 <= k <= line.segments.len(),
            segs == line.segments@,
            parts == segs.map_values(|s: RenderSegment| segment_cells(s)),
            all@ == parts.take(k as int).flatten(),
        decreases line.segments.len() - k,
    {
        let seg = &line.segments[k];
        let chars = chars_of(seg.text.as_str());
        let ghost base = all@;
        let mut m: usize = 0;
        while m < chars.len()
            invariant
                0 <= m <= chars.len(),
                chars@ == seg.text@,
                all@ == base + segment_cells(*seg).take(m as int),
            decreases chars.len() - m,
        {
            all.push((chars[m], seg.style));
            assert(segment_cells(*seg).take(m + 1) =~= segment_cells(*seg).take(m as int).push(
                (chars@[m as int], seg.style),
            ));
            m = m + 1;
        }
        proof {
            assert(segment_cells(*seg).take(chars.len() as int) =~= segment_cells(*seg));
            assert(parts[k as int] == segment_cells(*seg));
            assert(parts.take(k + 1) =~= parts.take(k as int).push(parts[k as int]));
            parts.take(k as int).lemma_flatten_push(parts[k as int]);
        }
        k = k + 1;
    }
    assert(parts.take(line.segments.len() as int) =~= parts);
    let mut r: Vec<(char, SemanticStyle)> = Vec::new();
    let mut i: usize = 0;
    while i < width && i < all.len()
        invariant
            0 <= i <= width,
            i <= all.len(),
            r@ == all@.take(i as int),
        decreases width - i,
    {
        r.push(all[i]);
        assert(all@.take(i + 1) =~= all@.take(i as int).push(all@[i as int]));
        i = i + 1;
    }
    let ghost cut = r@;
    while i < width
        invariant
            0 <= i <= width,
            all.len() <= i || i == width,
            r@.len() == i,
            forall|k: int| 0 <= k < cut.len() ==> r@[k] == cut[k],
            forall|k: int| cut.len() <= k < i ==> r@[k] == (' ', SemanticStyle::Plain),
            cut.len() == (if all.len() < width { all.len() } else { width }),
        decreases width - i,
    {
        r.push((' ', SemanticStyle::Plain));
        i = i + 1;
    }
    assert(r@ =~= row_cells(*line, width as nat));
    r
}

} // verus!
