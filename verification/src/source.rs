//! The source excerpt of a frame: up to five lines of the file round the
//! frame's line, which is marked.

use crate::piece::{pieces_view, Color, Piece, PieceView};
use crate::text::{decimal, decimal_text, pad_left, right_align};
use vstd::prelude::*;

verus! {

/// The number of lines that an excerpt shows at most.
pub const WINDOW_LINES: usize = 5;

/// The number of the first line of the excerpt for `lineno`: two lines above
/// it, and never above the first line of the file.
pub open spec fn window_start(lineno: u32) -> int {
    if lineno <= 2 {
        1
    } else {
        lineno - 2
    }
}

/// The position in the file's lines at which the excerpt begins.
pub open spec fn window_low(total: nat, lineno: u32) -> int {
    if window_start(lineno) - 1 <= total {
        window_start(lineno) - 1
    } else {
        total as int
    }
}

/// The position in the file's lines before which the excerpt ends.
pub open spec fn window_high(total: nat, lineno: u32) -> int {
    if window_low(total, lineno) + WINDOW_LINES <= total {
        window_low(total, lineno) + WINDOW_LINES
    } else {
        total as int
    }
}

/// The lines of the excerpt: the five lines from the first line of the
/// excerpt on, or as many as the file has from there.
pub open spec fn source_window<A>(lines: Seq<A>, lineno: u32) -> Seq<A> {
    lines.subrange(window_low(lines.len(), lineno), window_high(lines.len(), lineno))
}

/// What is written for one line of an excerpt. The frame's own line is
/// marked and bright; every other line stands behind its number.
pub open spec fn excerpt_line(number: int, text: Seq<char>, lineno: u32) -> Seq<PieceView> {
    if number == lineno {
        seq![
            PieceView::Fg(Color::BrightWhite),
            PieceView::Text(">>"@ + pad_left(decimal(number as nat), 6) + " "@ + text + "\n"@),
            PieceView::Reset,
        ]
    } else {
        seq![PieceView::Text(pad_left(decimal(number as nat), 8) + " "@ + text + "\n"@)]
    }
}

/// What is written for consecutive lines, the first of which has the number
/// `first`.
pub open spec fn excerpt_pieces(lines: Seq<Seq<char>>, first: int, lineno: u32) -> Seq<PieceView>
    decreases lines.len(),
{
    if lines.len() == 0 {
        Seq::empty()
    } else {
        excerpt_pieces(lines.drop_last(), first, lineno) + excerpt_line(
            first + lines.len() - 1,
            lines.last(),
            lineno,
        )
    }
}

/// The characters of each line.
pub open spec fn lines_view(lines: Seq<String>) -> Seq<Seq<char>> {
    Seq::new(lines.len(), |i: int| lines[i]@)
}

/// The excerpt of a file with the given lines for the line `lineno`.
pub open spec fn source_pieces(lines: Seq<Seq<char>>, lineno: u32) -> Seq<PieceView> {
    excerpt_pieces(source_window(lines, lineno), window_start(lineno), lineno)
}

/// A request to read a source file for an excerpt.
#[derive(Debug, Clone, PartialEq, Eq)]
pub struct SourceRequest {
    /// The path of the file.
    pub file: String,
    /// The line that the excerpt is for.
    pub lineno: u32,
}

/// A request with its path as a sequence of characters.
pub ghost struct SourceRequestView {
    pub file: Seq<char>,
    pub lineno: u32,
}

impl View for SourceRequest {
    type V = SourceRequestView;

    open spec fn view(&self) -> SourceRequestView {
        SourceRequestView { file: self.file@, lineno: self.lineno }
    }
}

impl SourceRequest {
    /// How many lines from the top of the file the excerpt can reach: a
    /// reader may stop after that many.
    pub fn lines_needed(&self) -> (n: u64)
        ensures
            n == window_start(self.lineno) - 1 + WINDOW_LINES,
    {
        first_line(self.lineno) + 4
    }
}

/// The number of the first line of the excerpt for `lineno`.
pub fn first_line(lineno: u32) -> (start: u64)
    ensures
        start == window_start(lineno),
{
    if lineno <= 2 {
        1
    } else {
        (lineno - 2) as u64
    }
}

/// Renders the excerpt for the line `lineno` of a file, given the file's
/// lines from the top. Lines that the file does not have are left out.
pub fn print_source_if_avail(lines: &Vec<String>, lineno: u32) -> (out: Vec<Piece>)
    ensures
        pieces_view(out@) == source_pieces(lines_view(lines@), lineno),
{
    let start = first_line(lineno);
    let total = lines.len();
    let low: usize = if start - 1 <= total as u64 {
        (start - 1) as usize
    } else {
        total
    };
    let high: usize = if total - low >= WINDOW_LINES {
        low + WINDOW_LINES
    } else {
        total
    };
    let ghost window = source_window(lines_view(lines@), lineno);
    assert(low == window_low(lines@.len(), lineno));
    assert(high == window_high(lines@.len(), lineno));

    let mut out: Vec<Piece> = Vec::new();
    let mut at: usize = low;
    while at < high
        invariant
            low <= at <= high <= lines@.len(),
            high - low <= WINDOW_LINES,
            start == window_start(lineno),
            window == lines_view(lines@).subrange(low as int, high as int),
            pieces_view(out@) == excerpt_pieces(window.take(at - low), start as int, lineno),
        decreases high - at,
    {
        let number: u64 = start + (at - low) as u64;
        let digits = decimal_text(number);
        let ghost before = pieces_view(out@);
        proof {
            let shown = window.take(at - low + 1);
            assert(shown.drop_last() =~= window.take(at - low));
            assert(shown.last() == lines@[at as int]@);
        }
        if number == lineno as u64 {
            let mut text = String::from_str(">>");
            let aligned = right_align(digits.as_str(), 6);
            text.append(aligned.as_str());
            text.append(" ");
            text.append(lines[at].as_str());
            text.append("\n");
            out.push(Piece::Fg(Color::BrightWhite));
            out.push(Piece::Text(text));
            out.push(Piece::Reset);
        } else {
            let mut text = right_align(digits.as_str(), 8);
            text.append(" ");
            text.append(lines[at].as_str());
            text.append("\n");
            out.push(Piece::Text(text));
        }
        assert(pieces_view(out@) =~= before + excerpt_line(
            number as int,
            lines@[at as int]@,
            lineno,
        ));
        at = at + 1;
    }
    assert(window.take(high - low) =~= window);
    out
}

} // verus!
