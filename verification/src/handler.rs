//! The report of one panic, produced step by step.
//!
//! A handler decides what comes next; its caller does the work that needs the
//! outside world and comes back: it writes the pieces it is handed, and reads
//! the source file it is asked for.

use crate::capture::capture_symbols;
use crate::frame::{frame_pieces, syms_view, text_view, Sym, SymView};
use crate::piece::{pieces_view, Color, Piece, PieceView};
use crate::source::{
    lines_view, print_source_if_avail, source_pieces, SourceRequest, SourceRequestView,
};
use crate::text::{center, centered, decimal, decimal_text};
use crate::verbosity::Verbosity;
use vstd::prelude::*;

verus! {

/// Where in the program's source the panic happened.
#[derive(Debug, Clone, PartialEq, Eq)]
pub struct Location {
    pub file: String,
    pub line: u32,
}

/// A location with its path as a sequence of characters.
pub ghost struct LocationView {
    pub file: Seq<char>,
    pub line: u32,
}

impl View for Location {
    type V = LocationView;

    open spec fn view(&self) -> LocationView {
        LocationView { file: self.file@, line: self.line }
    }
}

/// The view of a location that may be missing.
pub open spec fn location_view(location: Option<Location>) -> Option<LocationView> {
    match location {
        Some(l) => Some(l@),
        None => None,
    }
}

/// How far a report has come.
#[derive(Debug, Clone, Copy, PartialEq, Eq, Structural)]
pub enum Stage {
    /// Nothing was handed out yet.
    Init,
    /// The summary was handed out.
    SummaryPrinted,
    /// The heading of the stack trace was handed out; the stack is not
    /// captured yet.
    BannerPrinted,
    /// The stack is captured, and its frames are handed out one by one.
    Walking,
    /// The source file of the last frame was asked for, for an excerpt round
    /// this line.
    SourceAsked(u32),
    /// The report is complete.
    Done,
}

/// What the caller brings back.
#[derive(Debug, Clone, PartialEq, Eq)]
pub enum Event {
    /// The last action is carried out and brought nothing.
    Proceed,
    /// The lines of the source file that was asked for, from its top.
    Source(Vec<String>),
    /// The source file that was asked for does not exist.
    SourceMissing,
}

/// An event with its lines as sequences of characters.
pub ghost enum EventView {
    Proceed,
    Source(Seq<Seq<char>>),
    SourceMissing,
}

impl View for Event {
    type V = EventView;

    open spec fn view(&self) -> EventView {
        match self {
            Event::Proceed => EventView::Proceed,
            Event::Source(lines) => EventView::Source(lines_view(lines@)),
            Event::SourceMissing => EventView::SourceMissing,
        }
    }
}

/// What the caller is to do next.
#[derive(Debug, Clone, PartialEq, Eq)]
pub enum Action {
    /// Write these pieces, then come back with `Event::Proceed`.
    Write(Vec<Piece>),
    /// Write these pieces, then read the file and come back with its lines,
    /// or with `Event::SourceMissing`.
    WriteThenRead(Vec<Piece>, SourceRequest),
    /// Nothing: the report is complete.
    Done,
}

/// An action with its texts as sequences of characters.
pub ghost enum ActionView {
    Write(Seq<PieceView>),
    WriteThenRead(Seq<PieceView>, SourceRequestView),
    Done,
}

impl View for Action {
    type V = ActionView;

    open spec fn view(&self) -> ActionView {
        match self {
            Action::Write(pieces) => ActionView::Write(pieces_view(pieces@)),
            Action::WriteThenRead(pieces, request) => ActionView::WriteThenRead(
                pieces_view(pieces@),
                request@,
            ),
            Action::Done => ActionView::Done,
        }
    }
}

/// The state of the report of one panic.
pub struct PanicHandler {
    v: Verbosity,
    message: Option<String>,
    location: Option<Location>,
    stage: Stage,
    symbols: Vec<Sym>,
    next: usize,
}

/// The state of a report as plain values.
pub ghost struct HandlerView {
    /// The detail level, fixed when the report begins.
    pub v: Verbosity,
    /// The panic message; `None` where the payload is no text.
    pub message: Option<Seq<char>>,
    /// The place of the panic, where it is known.
    pub location: Option<LocationView>,
    /// How far the report has come.
    pub stage: Stage,
    /// The captured stack; empty until it is captured.
    pub symbols: Seq<SymView>,
    /// The index of the frame that is handed out next.
    pub next: nat,
}

/// The line that opens every report.
pub open spec fn headline() -> Seq<char> {
    "\nOh noez! Panic! \u{1F4A5}\n\n"@
}

/// The message that is shown for a panic.
pub open spec fn shown_message(message: Option<Seq<char>>) -> Seq<char> {
    match message {
        Some(text) => text,
        None => "<non string panic payload>"@,
    }
}

/// The summary of a panic: the headline, the message, and the place.
pub open spec fn summary_pieces(
    message: Option<Seq<char>>,
    location: Option<LocationView>,
) -> Seq<PieceView> {
    seq![
        PieceView::Fg(Color::Red),
        PieceView::Text(headline()),
        PieceView::Reset,
        PieceView::Text("Message: "@),
        PieceView::Fg(Color::Cyan),
        PieceView::Text(shown_message(message) + "\n"@),
        PieceView::Reset,
        PieceView::Text("Location: "@),
    ] + match location {
        Some(place) => seq![
            PieceView::Fg(Color::Magenta),
            PieceView::Text(place.file),
            PieceView::Fg(Color::White),
            PieceView::Text(":"@),
            PieceView::Fg(Color::Magenta),
            PieceView::Text(decimal(place.line as nat) + "\n"@),
            PieceView::Reset,
        ],
        None => seq![PieceView::Text("<unknown>\n"@)],
    }
}

/// The heading of the stack trace: its title in the middle of a rule of 80
/// columns, with an empty line above and below.
pub open spec fn banner_pieces() -> Seq<PieceView> {
    seq![PieceView::Text("\n"@ + centered("[ BACKTRACE ]"@, 80, "-"@) + "\n\n"@)]
}

/// Whether an excerpt of the source is wanted for a frame: only at the
/// highest detail level, and only where both the file and the line are known.
pub open spec fn wants_source(v: Verbosity, sym: SymView) -> bool {
    v == Verbosity::FULL && sym.lineno is Some && sym.filename is Some
}

/// The step that hands out the next frame of a captured stack, or ends the
/// report behind the last one.
pub open spec fn walk_spec(s: HandlerView) -> (HandlerView, ActionView) {
    if s.next < s.symbols.len() {
        let sym = s.symbols[s.next as int];
        let pieces = frame_pieces(sym, s.next);
        if wants_source(s.v, sym) {
            (
                HandlerView { stage: Stage::SourceAsked(sym.lineno->0), next: s.next + 1, ..s },
                ActionView::WriteThenRead(
                    pieces,
                    SourceRequestView { file: sym.filename->0, lineno: sym.lineno->0 },
                ),
            )
        } else {
            (HandlerView { stage: Stage::Walking, next: s.next + 1, ..s }, ActionView::Write(pieces))
        }
    } else {
        (HandlerView { stage: Stage::Done, ..s }, ActionView::Done)
    }
}

/// One step of a report: the state that follows `s` on `event`, and what the
/// caller is to do.
///
/// The summary comes first. Below `MEDIUM` the report ends there; from
/// `MEDIUM` on the heading of the stack trace follows, then one frame per
/// step, from the stack that the state holds. After a frame whose source was
/// asked for comes its excerpt, which is empty unless the event brings the
/// file's lines. Behind the end nothing changes any more.
pub open spec fn advance_spec(s: HandlerView, event: EventView) -> (HandlerView, ActionView) {
    match s.stage {
        Stage::Init => (
            HandlerView { stage: Stage::SummaryPrinted, ..s },
            ActionView::Write(summary_pieces(s.message, s.location)),
        ),
        Stage::SummaryPrinted => if s.v.rank() >= Verbosity::MEDIUM.rank() {
            (HandlerView { stage: Stage::BannerPrinted, ..s }, ActionView::Write(banner_pieces()))
        } else {
            (HandlerView { stage: Stage::Done, ..s }, ActionView::Done)
        },
        Stage::BannerPrinted => walk_spec(s),
        Stage::Walking => walk_spec(s),
        Stage::SourceAsked(lineno) => (
            HandlerView { stage: Stage::Walking, ..s },
            ActionView::Write(
                match event {
                    EventView::Source(lines) => source_pieces(lines, lineno),
                    _ => Seq::empty(),
                },
            ),
        ),
        Stage::Done => (s, ActionView::Done),
    }
}

/// The state after the stack was captured: where the heading of the trace
/// was just handed out, the walk begins at the first of `captured`;
/// everywhere else nothing changes.
pub open spec fn load_spec(s: HandlerView, captured: Seq<SymView>) -> HandlerView {
    if s.stage == Stage::BannerPrinted {
        HandlerView { stage: Stage::Walking, symbols: captured, next: 0, ..s }
    } else {
        s
    }
}

/// Renders the summary of a panic.
pub fn print_panic_info(message: Option<&str>, location: Option<&Location>) -> (out: Vec<Piece>)
    ensures
        pieces_view(out@) == summary_pieces(
            match message {
                Some(text) => Some(text@),
                None => None,
            },
            match location {
                Some(place) => Some(place@),
                None => None,
            },
        ),
{
    let mut out: Vec<Piece> = Vec::new();
    out.push(Piece::Fg(Color::Red));
    out.push(Piece::Text(String::from_str("\nOh noez! Panic! \u{1F4A5}\n\n")));
    out.push(Piece::Reset);

    out.push(Piece::Text(String::from_str("Message: ")));
    out.push(Piece::Fg(Color::Cyan));
    let mut payload = match message {
        Some(text) => String::from_str(text),
        None => String::from_str("<non string panic payload>"),
    };
    payload.append("\n");
    out.push(Piece::Text(payload));
    out.push(Piece::Reset);

    out.push(Piece::Text(String::from_str("Location: ")));
    match location {
        Some(place) => {
            out.push(Piece::Fg(Color::Magenta));
            out.push(Piece::Text(place.file.clone()));
            out.push(Piece::Fg(Color::White));
            out.push(Piece::Text(String::from_str(":")));
            out.push(Piece::Fg(Color::Magenta));
            let mut line = decimal_text(place.line as u64);
            line.append("\n");
            out.push(Piece::Text(line));
            out.push(Piece::Reset);
        },
        None => {
            out.push(Piece::Text(String::from_str("<unknown>\n")));
        },
    }
    assert(pieces_view(out@) =~= summary_pieces(
        match message {
            Some(text) => Some(text@),
            None => None,
        },
        match location {
            Some(place) => Some(place@),
            None => None,
        },
    ));
    out
}

/// Renders the heading of the stack trace.
pub fn print_banner() -> (out: Vec<Piece>)
    ensures
        pieces_view(out@) == banner_pieces(),
{
    let mut text = String::from_str("\n");
    let title = center("[ BACKTRACE ]", 80, "-");
    text.append(title.as_str());
    text.append("\n\n");
    let mut out: Vec<Piece> = Vec::new();
    out.push(Piece::Text(text));
    assert(pieces_view(out@) =~= banner_pieces());
    out
}

impl View for PanicHandler {
    type V = HandlerView;

    closed spec fn view(&self) -> HandlerView {
        HandlerView {
            v: self.v,
            message: text_view(self.message),
            location: location_view(self.location),
            stage: self.stage,
            symbols: syms_view(self.symbols@),
            next: self.next as nat,
        }
    }
}

impl PanicHandler {
    /// Begins the report of a panic at the detail level `v`. `message` is the
    /// panic's payload where it is text, `location` the place of the panic
    /// where it is known.
    pub fn new(v: Verbosity, message: Option<String>, location: Option<Location>) -> (handler:
        PanicHandler)
        ensures
            handler@ == (HandlerView {
                v,
                message: text_view(message),
                location: location_view(location),
                stage: Stage::Init,
                symbols: Seq::empty(),
                next: 0,
            }),
    {
        let handler = PanicHandler {
            v,
            message,
            location,
            stage: Stage::Init,
            symbols: Vec::new(),
            next: 0,
        };
        assert(syms_view(handler.symbols@) =~= Seq::empty());
        handler
    }

    /// The detail level of this report.
    pub fn verbosity(&self) -> (v: Verbosity)
        ensures
            v == self@.v,
    {
        self.v
    }

    /// How far the report has come.
    pub fn stage(&self) -> (stage: Stage)
        ensures
            stage == self@.stage,
    {
        self.stage
    }

    /// Takes the captured stack. It is kept only where the heading of the
    /// trace was just handed out; at any other stage the call changes
    /// nothing.
    pub fn load_symbols(&mut self, symbols: Vec<Sym>)
        ensures
            final(self)@ == load_spec(old(self)@, syms_view(symbols@)),
    {
        match self.stage {
            Stage::BannerPrinted => {
                self.symbols = symbols;
                self.next = 0;
                self.stage = Stage::Walking;
            },
            _ => {},
        }
    }

    /// Hands out the next frame of the stack, with a request for its source
    /// where an excerpt is wanted, or ends the report behind the last frame.
    pub fn print_backtrace(&mut self) -> (action: Action)
        ensures
            (final(self)@, action@) == walk_spec(old(self)@),
    {
        if self.next < self.symbols.len() {
            let index = self.next;
            let pieces = self.symbols[index].print_loc(index);
            let request = match self.v {
                Verbosity::FULL => self.symbols[index].print_source_if_avail(),
                _ => None,
            };
            self.next = index + 1;
            match request {
                Some(request) => {
                    self.stage = Stage::SourceAsked(request.lineno);
                    Action::WriteThenRead(pieces, request)
                },
                None => {
                    self.stage = Stage::Walking;
                    Action::Write(pieces)
                },
            }
        } else {
            self.stage = Stage::Done;
            Action::Done
        }
    }

    /// Makes one step of the report on a stack that is already loaded, and
    /// says what the caller is to do next.
    pub fn advance(&mut self, event: Event) -> (action: Action)
        ensures
            (final(self)@, action@) == advance_spec(old(self)@, event@),
    {
        match self.stage {
            Stage::Init => {
                let message = match &self.message {
                    Some(text) => Some(text.as_str()),
                    None => None,
                };
                let pieces = print_panic_info(message, self.location.as_ref());
                self.stage = Stage::SummaryPrinted;
                Action::Write(pieces)
            },
            Stage::SummaryPrinted => {
                if self.v.at_least(Verbosity::MEDIUM) {
                    self.stage = Stage::BannerPrinted;
                    Action::Write(print_banner())
                } else {
                    self.stage = Stage::Done;
                    Action::Done
                }
            },
            Stage::BannerPrinted => self.print_backtrace(),
            Stage::Walking => self.print_backtrace(),
            Stage::SourceAsked(lineno) => {
                let pieces = match event {
                    Event::Source(lines) => print_source_if_avail(&lines, lineno),
                    _ => {
                        let none: Vec<Piece> = Vec::new();
                        assert(pieces_view(none@) =~= Seq::empty());
                        none
                    },
                };
                self.stage = Stage::Walking;
                Action::Write(pieces)
            },
            Stage::Done => Action::Done,
        }
    }

    /// Makes one step of the report, and says what the caller is to do next.
    ///
    /// The stack is captured in the step that follows the heading of the
    /// trace, and in no other: what `final(self)@.symbols` then holds depends
    /// on the running program. Every other step is the one that `advance`
    /// makes.
    pub fn go(&mut self, event: Event) -> (action: Action)
        ensures
            (final(self)@, action@) == advance_spec(
                load_spec(old(self)@, final(self)@.symbols),
                event@,
            ),
            old(self)@.stage != Stage::BannerPrinted ==> (final(self)@, action@) == advance_spec(
                old(self)@,
                event@,
            ),
    {
        match self.stage {
            Stage::BannerPrinted => {
                let symbols = capture_symbols();
                self.load_symbols(symbols);
            },
            _ => {},
        }
        self.advance(event)
    }
}

} // verus!
