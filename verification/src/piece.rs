//! What a report is made of: runs of text, and changes of the foreground
//! colour between them.

use vstd::prelude::*;

verus! {

/// A foreground colour of the terminal.
#[derive(Debug, Clone, Copy, PartialEq, Eq, Structural)]
pub enum Color {
    Red,
    Green,
    Cyan,
    Magenta,
    White,
    BrightRed,
    BrightWhite,
}

/// One step of output, in the order in which the steps are to be performed.
#[derive(Debug, Clone, PartialEq, Eq)]
pub enum Piece {
    /// Switch the foreground colour.
    Fg(Color),
    /// Go back to the terminal's default colours.
    Reset,
    /// Write this text as it is.
    Text(String),
}

/// A piece with its text as a sequence of characters.
pub ghost enum PieceView {
    Fg(Color),
    Reset,
    Text(Seq<char>),
}

impl View for Piece {
    type V = PieceView;

    open spec fn view(&self) -> PieceView {
        match self {
            Piece::Fg(color) => PieceView::Fg(*color),
            Piece::Reset => PieceView::Reset,
            Piece::Text(text) => PieceView::Text(text@),
        }
    }
}

/// The views of a run of pieces, in order.
pub open spec fn pieces_view(pieces: Seq<Piece>) -> Seq<PieceView> {
    Seq::new(pieces.len(), |i: int| pieces[i]@)
}

/// All the text of a run of pieces, colours left out.
pub open spec fn plain_text(pieces: Seq<PieceView>) -> Seq<char>
    decreases pieces.len(),
{
    if pieces.len() == 0 {
        Seq::empty()
    } else {
        plain_text(pieces.drop_last()) + match pieces.last() {
            PieceView::Text(text) => text,
            _ => Seq::empty(),
        }
    }
}

/// Whether a run of pieces leaves a colour switched on: its last piece that
/// is no text switches a colour on.
pub open spec fn colored_at_end(pieces: Seq<PieceView>) -> bool
    decreases pieces.len(),
{
    if pieces.len() == 0 {
        false
    } else {
        match pieces.last() {
            PieceView::Fg(_) => true,
            PieceView::Reset => false,
            PieceView::Text(_) => colored_at_end(pieces.drop_last()),
        }
    }
}

/// Joins the text of a run of pieces into one string, leaving the colours
/// out.
pub fn to_plain_text(pieces: &Vec<Piece>) -> (s: String)
    ensures
        s@ == plain_text(pieces_view(pieces@)),
{
    let mut s = String::new();
    let mut done: usize = 0;
    while done < pieces.len()
        invariant
            done <= pieces.len(),
            s@ == plain_text(pieces_view(pieces@.take(done as int))),
        decreases pieces.len() - done,
    {
        proof {
            let before = pieces_view(pieces@.take(done as int));
            let after = pieces_view(pieces@.take(done + 1));
            assert(after.drop_last() =~= before);
            assert(after.last() == pieces@[done as int]@);
        }
        match &pieces[done] {
            Piece::Text(text) => {
                s.append(text.as_str());
            },
            _ => {
                assert(s@ + Seq::<char>::empty() =~= s@);
            },
        }
        done = done + 1;
    }
    assert(pieces@.take(done as int) =~= pieces@);
    s
}

} // verus!
