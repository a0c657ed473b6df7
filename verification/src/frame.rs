//! One resolved entry of the call stack: what is known of it, whether it
//! belongs to the runtime, and how it is shown.

use crate::piece::{pieces_view, Color, Piece, PieceView};
use crate::source::SourceRequest;
use crate::text::{decimal, decimal_text, pad_left, right_align};
use vstd::prelude::*;

verus! {

/// Whether a frame belongs to the runtime and the reporting machinery, or to
/// the program that is being debugged.
#[allow(non_camel_case_types)]
#[derive(Debug, Clone, Copy, PartialEq, Eq, Structural)]
pub enum Classification {
    BUILTIN,
    APPLICATION,
}

/// One resolved symbol of the call stack. Each part may be unknown.
#[derive(Debug, Clone, PartialEq, Eq)]
pub struct Sym {
    /// The demangled name of the function.
    pub name: Option<String>,
    /// The line in the source file.
    pub lineno: Option<u32>,
    /// The path of the source file.
    pub filename: Option<String>,
}

/// A symbol with its texts as sequences of characters.
pub ghost struct SymView {
    pub name: Option<Seq<char>>,
    pub lineno: Option<u32>,
    pub filename: Option<Seq<char>>,
}

/// The characters of a text that may be missing.
pub open spec fn text_view(text: Option<String>) -> Option<Seq<char>> {
    match text {
        Some(t) => Some(t@),
        None => None,
    }
}

impl View for Sym {
    type V = SymView;

    open spec fn view(&self) -> SymView {
        SymView {
            name: text_view(self.name),
            lineno: self.lineno,
            filename: text_view(self.filename),
        }
    }
}

/// The views of a run of symbols, in order.
pub open spec fn syms_view(syms: Seq<Sym>) -> Seq<SymView> {
    Seq::new(syms.len(), |i: int| syms[i]@)
}

/// The name prefixes that mark a symbol as part of the runtime: the standard
/// library, the unwinder, the program's entry, and this library itself.
pub open spec fn builtin_prefixes() -> Seq<Seq<char>> {
    seq![
        "std::"@,
        "core::"@,
        "backtrace::backtrace::"@,
        "_rust_begin_unwind"@,
        "color_traceback::"@,
        "___rust_maybe_catch_panic"@,
        "_main"@,
    ]
}

/// Whether `name` begins with one of the runtime's prefixes. Upper and lower
/// case differ.
pub open spec fn has_builtin_prefix(name: Seq<char>) -> bool {
    exists|i: int|
        0 <= i < builtin_prefixes().len() && (#[trigger] builtin_prefixes()[i]).is_prefix_of(name)
}

/// The class of a symbol name. A symbol without a name counts as the
/// program's own.
pub open spec fn classification_of(name: Option<Seq<char>>) -> Classification {
    match name {
        Some(n) => if has_builtin_prefix(n) {
            Classification::BUILTIN
        } else {
            Classification::APPLICATION
        },
        None => Classification::APPLICATION,
    }
}

/// The colour in which a name of the given class is shown.
pub open spec fn name_color(class: Classification) -> Color {
    match class {
        Classification::BUILTIN => Color::Green,
        Classification::APPLICATION => Color::BrightRed,
    }
}

/// The line that tells where a frame's code stands.
pub open spec fn place_line(filename: Option<Seq<char>>, lineno: Option<u32>) -> Seq<char> {
    match filename {
        Some(path) => "    "@ + path + ":"@ + match lineno {
            Some(line) => decimal(line as nat),
            None => "<unknown line>"@,
        } + "\n"@,
        None => "    <unknown source file>\n"@,
    }
}

/// What is written for the frame with the given index: the index in a column
/// of two, the name in the colour of its class, and the place.
pub open spec fn frame_pieces(sym: SymView, index: nat) -> Seq<PieceView> {
    seq![
        PieceView::Text(pad_left(decimal(index), 2) + ": "@),
        PieceView::Fg(name_color(classification_of(sym.name))),
        PieceView::Text(
            match sym.name {
                Some(name) => name,
                None => "<unknown>"@,
            } + "\n"@,
        ),
        PieceView::Reset,
        PieceView::Text(place_line(sym.filename, sym.lineno)),
    ]
}

/// Calls `str::starts_with` with a string as the pattern: whether the
/// characters of `prefix` are the first characters of `text`.
#[verifier::external_body]
fn starts_with(text: &str, prefix: &str) -> (r: bool)
    ensures
        r == prefix@.is_prefix_of(text@),
{
    text.starts_with(prefix)
}

fn prefix_table() -> (table: Vec<&'static str>)
    ensures
        table@.len() == builtin_prefixes().len(),
        forall|i: int| 0 <= i < table@.len() ==> (#[trigger] table@[i])@ == builtin_prefixes()[i],
{
    vec![
        "std::",
        "core::",
        "backtrace::backtrace::",
        "_rust_begin_unwind",
        "color_traceback::",
        "___rust_maybe_catch_panic",
        "_main",
    ]
}

/// Classifies a symbol name by its prefix.
pub fn classify(name: Option<&str>) -> (class: Classification)
    ensures
        class == classification_of(
            match name {
                Some(n) => Some(n@),
                None => None,
            },
        ),
{
    match name {
        Some(n) => {
            let table = prefix_table();
            let mut at: usize = 0;
            while at < table.len()
                invariant
                    name == Some(n),
                    at <= table@.len(),
                    table@.len() == builtin_prefixes().len(),
                    forall|i: int|
                        0 <= i < table@.len() ==> (#[trigger] table@[i])@ == builtin_prefixes()[i],
                    forall|i: int|
                        0 <= i < at ==> !(#[trigger] builtin_prefixes()[i]).is_prefix_of(n@),
                decreases table@.len() - at,
            {
                if starts_with(n, table[at]) {
                    assert(builtin_prefixes()[at as int].is_prefix_of(n@));
                    return Classification::BUILTIN;
                }
                at = at + 1;
            }
            Classification::APPLICATION
        },
        None => Classification::APPLICATION,
    }
}

impl Sym {
    /// The class of this symbol.
    pub fn classification(&self) -> (class: Classification)
        ensures
            class == classification_of(self@.name),
    {
        match &self.name {
            Some(name) => classify(Some(name.as_str())),
            None => classify(None),
        }
    }

    /// Whether this symbol belongs to the runtime.
    pub fn is_builtin(&self) -> (r: bool)
        ensures
            r == (classification_of(self@.name) == Classification::BUILTIN),
    {
        match self.classification() {
            Classification::BUILTIN => true,
            Classification::APPLICATION => false,
        }
    }

    /// The request for the source of this symbol: there is one where both
    /// the file and the line are known.
    pub fn print_source_if_avail(&self) -> (request: Option<SourceRequest>)
        ensures
            match request {
                Some(r) => self@.filename == Some(r@.file) && self@.lineno == Some(r@.lineno),
                None => self@.filename is None || self@.lineno is None,
            },
    {
        match (&self.filename, self.lineno) {
            (Some(path), Some(line)) => Some(SourceRequest { file: path.clone(), lineno: line }),
            _ => None,
        }
    }

    /// Renders this symbol as the frame with index `i`.
    pub fn print_loc(&self, i: usize) -> (out: Vec<Piece>)
        ensures
            pieces_view(out@) == frame_pieces(self@, i as nat),
    {
        let number = decimal_text(i as u64);
        let mut head = right_align(number.as_str(), 2);
        head.append(": ");

        let color = match self.classification() {
            Classification::BUILTIN => Color::Green,
            Classification::APPLICATION => Color::BrightRed,
        };
        let mut name = match &self.name {
            Some(name) => name.clone(),
            None => String::from_str("<unknown>"),
        };
        name.append("\n");

        let place = match &self.filename {
            Some(path) => {
                let mut place = String::from_str("    ");
                place.append(path.as_str());
                place.append(":");
                match self.lineno {
                    Some(line) => {
                        let digits = decimal_text(line as u64);
                        place.append(digits.as_str());
                    },
                    None => {
                        place.append("<unknown line>");
                    },
                }
                place.append("\n");
                place
            },
            None => String::from_str("    <unknown source file>\n"),
        };
        assert(place@ =~= place_line(self@.filename, self@.lineno));

        let mut out: Vec<Piece> = Vec::new();
        out.push(Piece::Text(head));
        out.push(Piece::Fg(color));
        out.push(Piece::Text(name));
        out.push(Piece::Reset);
        out.push(Piece::Text(place));
        assert(pieces_view(out@) =~= frame_pieces(self@, i as nat));
        out
    }
}

} // verus!
