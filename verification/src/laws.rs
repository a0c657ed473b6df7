//! What holds of every report, whatever the panic and the stack.

use crate::frame::{builtin_prefixes, classification_of, frame_pieces, Classification, SymView};
use crate::handler::{
    advance_spec, banner_pieces, load_spec, summary_pieces, ActionView, EventView, HandlerView,
    Stage,
};
use crate::piece::{colored_at_end, Color, PieceView};
use crate::source::{
    excerpt_line, excerpt_pieces, source_pieces, source_window, window_high, window_low,
    window_start, SourceRequestView, WINDOW_LINES,
};
use crate::text::{decimal, pad_left};
use crate::verbosity::{verbosity_of, Verbosity};
use vstd::prelude::*;

verus! {

/// One whole step of a report: the stack that was captured is taken where
/// the step is the one behind the heading of the trace, and then the step is
/// made.
pub open spec fn go_spec(s: HandlerView, captured: Seq<SymView>, event: EventView) -> (
    HandlerView,
    ActionView,
) {
    advance_spec(load_spec(s, captured), event)
}

/// Every configuration value has exactly one detail level: `FULL` for the
/// value "full", `MEDIUM` for every other value that is set, `MINIMAL` where
/// none is set.
pub proof fn verbosity_rule(setting: Option<Seq<char>>)
    ensures
        setting is None <==> verbosity_of(setting) == Verbosity::MINIMAL,
        setting == Some("full"@) <==> verbosity_of(setting) == Verbosity::FULL,
        setting is Some && setting != Some("full"@) <==> verbosity_of(setting)
            == Verbosity::MEDIUM,
{
}

/// A name that begins with one of the runtime's prefixes is `BUILTIN`; every
/// other name, and a missing name, is `APPLICATION`.
pub proof fn classification_rule(name: Option<Seq<char>>)
    ensures
        name is None ==> classification_of(name) == Classification::APPLICATION,
        name is Some && (forall|i: int|
            0 <= i < builtin_prefixes().len() ==> !(#[trigger] builtin_prefixes()[i]).is_prefix_of(
                name->0,
            )) ==> classification_of(name) == Classification::APPLICATION,
        name is Some && (exists|i: int|
            0 <= i < builtin_prefixes().len() && (#[trigger] builtin_prefixes()[i]).is_prefix_of(
                name->0,
            )) ==> classification_of(name) == Classification::BUILTIN,
{
}

/// The excerpt begins at the first line for the lines 1 and 2, and never
/// above it; it holds five lines, or as many as the file has from its first
/// line on; and its lines are the file's, in order.
pub proof fn window_rule<A>(lines: Seq<A>, lineno: u32)
    ensures
        window_start(lineno) >= 1,
        lineno == 1 || lineno == 2 ==> window_start(lineno) == 1,
        lineno >= 3 ==> window_start(lineno) == lineno - 2,
        lines.len() < window_start(lineno) ==> source_window(lines, lineno).len() == 0,
        window_start(lineno) <= lines.len() < window_start(lineno) - 1 + WINDOW_LINES
            ==> source_window(lines, lineno).len() == lines.len() - (window_start(lineno) - 1),
        lines.len() >= window_start(lineno) - 1 + WINDOW_LINES ==> source_window(
            lines,
            lineno,
        ).len() == WINDOW_LINES,
        forall|k: int|
            0 <= k < source_window(lines, lineno).len() ==> #[trigger] source_window(
                lines,
                lineno,
            )[k] == lines[window_start(lineno) - 1 + k],
{
}

/// At `MINIMAL` a report is its summary and nothing else: the first step
/// hands the summary out, the second ends the report, and the stack is
/// never taken, whatever a capture would have found.
pub proof fn minimal_is_summary_only(
    s: HandlerView,
    first: EventView,
    second: EventView,
    found_first: Seq<SymView>,
    found_second: Seq<SymView>,
)
    requires
        s.v == Verbosity::MINIMAL,
        s.stage == Stage::Init,
    ensures
        ({
            let (s1, a1) = go_spec(s, found_first, first);
            let (s2, a2) = go_spec(s1, found_second, second);
            &&& a1 == ActionView::Write(summary_pieces(s.message, s.location))
            &&& a2 == ActionView::Done
            &&& s2.stage == Stage::Done
            &&& s2.symbols == s.symbols
            &&& s2.next == s.next
        }),
{
}

/// At `MINIMAL` no step reaches the stack: from the beginning of a report,
/// from behind its summary and from its end, a step hands out the summary or
/// nothing, leaves the state's stack as it was, and leads to one of these
/// three stages again.
pub proof fn minimal_never_walks(s: HandlerView, event: EventView, found: Seq<SymView>)
    requires
        s.v == Verbosity::MINIMAL,
        s.stage == Stage::Init || s.stage == Stage::SummaryPrinted || s.stage == Stage::Done,
    ensures
        ({
            let (after, action) = go_spec(s, found, event);
            &&& after.v == Verbosity::MINIMAL
            &&& after.stage == Stage::SummaryPrinted || after.stage == Stage::Done
            &&& after.symbols == s.symbols
            &&& action == ActionView::Done || action == ActionView::Write(
                summary_pieces(s.message, s.location),
            )
        }),
{
}

/// Below `FULL` no source is ever asked for, and a frame is shown by its
/// index, name and place alone, also where its file and line are known: a
/// step from a stage that waits for no source leads to such a stage again,
/// and what a step in the stack hands out is the frame and nothing more.
pub proof fn below_full_shows_no_source(s: HandlerView, event: EventView, found: Seq<SymView>)
    requires
        s.v != Verbosity::FULL,
        !(s.stage is SourceAsked),
    ensures
        ({
            let (after, action) = go_spec(s, found, event);
            let walking = load_spec(s, found);
            &&& after.v == s.v
            &&& !(after.stage is SourceAsked)
            &&& !(action is WriteThenRead)
            &&& walking.stage == Stage::Walking && walking.next < walking.symbols.len() ==> action
                == ActionView::Write(
                frame_pieces(walking.symbols[walking.next as int], walking.next),
            )
        }),
{
}

/// At `FULL` a frame whose file and line are known is followed by its
/// excerpt: the step that shows the frame asks for that file, and the step
/// that is handed the file's lines shows the excerpt round that line.
pub proof fn full_shows_source(
    s: HandlerView,
    event: EventView,
    lines: Seq<Seq<char>>,
)
    requires
        s.v == Verbosity::FULL,
        s.stage == Stage::Walking,
        s.next < s.symbols.len(),
        s.symbols[s.next as int].filename is Some,
        s.symbols[s.next as int].lineno is Some,
    ensures
        ({
            let sym = s.symbols[s.next as int];
            let (asked, action) = advance_spec(s, event);
            let (after, excerpt) = advance_spec(asked, EventView::Source(lines));
            &&& action == ActionView::WriteThenRead(
                frame_pieces(sym, s.next),
                SourceRequestView { file: sym.filename->0, lineno: sym.lineno->0 },
            )
            &&& excerpt == ActionView::Write(source_pieces(lines, sym.lineno->0))
            &&& after.stage == Stage::Walking
            &&& after.next == s.next + 1
        }),
{
}

/// Where the file that was asked for is missing, the excerpt is empty and
/// the report goes on with the next frame.
pub proof fn missing_source_shows_nothing(s: HandlerView)
    requires
        s.stage is SourceAsked,
    ensures
        advance_spec(s, EventView::SourceMissing) == (
            HandlerView { stage: Stage::Walking, ..s },
            ActionView::Write(Seq::empty()),
        ),
{
}

/// Consecutive lines are rendered one after the other: the excerpt of a run
/// of lines is the excerpt of its front followed by that of its back.
pub proof fn lemma_excerpt_split(
    front: Seq<Seq<char>>,
    back: Seq<Seq<char>>,
    first: int,
    lineno: u32,
)
    ensures
        excerpt_pieces(front + back, first, lineno) == excerpt_pieces(front, first, lineno)
            + excerpt_pieces(back, first + front.len(), lineno),
    decreases back.len(),
{
    if back.len() == 0 {
        assert(front + back =~= front);
        assert(excerpt_pieces(back, first + front.len(), lineno) =~= Seq::empty());
        assert(excerpt_pieces(front, first, lineno) + Seq::<PieceView>::empty()
            =~= excerpt_pieces(front, first, lineno));
    } else {
        let whole = front + back;
        assert(whole.drop_last() =~= front + back.drop_last());
        assert(whole.last() == back.last());
        lemma_excerpt_split(front, back.drop_last(), first, lineno);
        assert(excerpt_pieces(whole, first, lineno) =~= excerpt_pieces(front, first, lineno) + (
        excerpt_pieces(back.drop_last(), first + front.len(), lineno) + excerpt_line(
            first + front.len() + back.len() - 1,
            back.last(),
            lineno,
        )));
    }
}

/// The excerpt for a line that the file has shows that line marked and
/// bright, between the lines above it and the lines below it, every one of
/// them behind its own number. There are at most two lines above it, and
/// five lines in all; from the third line of the file on there are two lines
/// above it and at most two below it.
pub proof fn excerpt_marks_the_line(lines: Seq<Seq<char>>, lineno: u32)
    requires
        1 <= lineno <= lines.len(),
    ensures
        ({
            let low = window_start(lineno) - 1;
            let high = window_high(lines.len(), lineno);
            let above = lines.subrange(low, lineno - 1);
            let below = lines.subrange(lineno as int, high);
            &&& above.len() <= 2
            &&& above.len() + 1 + below.len() <= WINDOW_LINES
            &&& lineno >= 3 ==> above.len() == 2 && below.len() <= 2
            &&& lineno >= 3 && lines.len() >= lineno + 2 ==> below.len() == 2
            &&& source_pieces(lines, lineno) == excerpt_pieces(above, low + 1, lineno) + seq![
                PieceView::Fg(Color::BrightWhite),
                PieceView::Text(
                    ">>"@ + pad_left(decimal(lineno as nat), 6) + " "@ + lines[lineno - 1] + "\n"@,
                ),
                PieceView::Reset,
            ] + excerpt_pieces(below, lineno + 1, lineno)
        }),
{
    let low = window_start(lineno) - 1;
    let high = window_high(lines.len(), lineno);
    assert(low == window_low(lines.len(), lineno));
    let above = lines.subrange(low, lineno - 1);
    let target = lines.subrange(lineno - 1, lineno as int);
    let below = lines.subrange(lineno as int, high);
    let window = source_window(lines, lineno);
    assert(window =~= (above + target) + below);
    lemma_excerpt_split(above + target, below, low + 1, lineno);
    lemma_excerpt_split(above, target, low + 1, lineno);
    assert(target.drop_last() =~= Seq::<Seq<char>>::empty());
    assert(target.last() == lines[lineno - 1]);
    assert(excerpt_pieces(target.drop_last(), lineno as int, lineno) =~= Seq::empty());
    assert(excerpt_pieces(target, lineno as int, lineno) =~= excerpt_line(
        lineno as int,
        lines[lineno - 1],
        lineno,
    ));
}

/// A run of pieces whose last piece that is no text is a reset, or which
/// holds text alone, leaves no colour switched on. `reset` is the index of
/// that reset, or -1.
pub proof fn lemma_text_after_reset(pieces: Seq<PieceView>, reset: int)
    requires
        -1 <= reset < pieces.len(),
        reset >= 0 ==> pieces[reset] is Reset,
        forall|j: int| reset < j < pieces.len() ==> #[trigger] pieces[j] is Text,
    ensures
        !colored_at_end(pieces),
    decreases pieces.len(),
{
    if pieces.len() > 0 && reset < pieces.len() - 1 {
        lemma_text_after_reset(pieces.drop_last(), reset);
    }
}

/// Two runs that leave no colour switched on leave none switched on when
/// the one follows the other.
pub proof fn lemma_colors_end_in_sequence(front: Seq<PieceView>, back: Seq<PieceView>)
    requires
        !colored_at_end(front),
        !colored_at_end(back),
    ensures
        !colored_at_end(front + back),
    decreases back.len(),
{
    if back.len() == 0 {
        assert(front + back =~= front);
    } else {
        let whole = front + back;
        assert(whole.last() == back.last());
        assert(whole.drop_last() =~= front + back.drop_last());
        if back.last() is Text {
            lemma_colors_end_in_sequence(front, back.drop_last());
        }
    }
}

/// An excerpt leaves no colour switched on.
pub proof fn lemma_excerpt_ends_reset(lines: Seq<Seq<char>>, first: int, lineno: u32)
    ensures
        !colored_at_end(excerpt_pieces(lines, first, lineno)),
    decreases lines.len(),
{
    if lines.len() > 0 {
        lemma_excerpt_ends_reset(lines.drop_last(), first, lineno);
        let number = first + lines.len() - 1;
        let line = excerpt_line(number, lines.last(), lineno);
        if number == lineno {
            lemma_text_after_reset(line, 2);
        } else {
            lemma_text_after_reset(line, -1);
        }
        lemma_colors_end_in_sequence(excerpt_pieces(lines.drop_last(), first, lineno), line);
    }
}

/// No step leaves a colour switched on: in what a step hands out, every
/// change of colour is followed by a reset.
pub proof fn every_step_ends_reset(s: HandlerView, event: EventView, found: Seq<SymView>)
    ensures
        match go_spec(s, found, event).1 {
            ActionView::Write(pieces) => !colored_at_end(pieces),
            ActionView::WriteThenRead(pieces, _) => !colored_at_end(pieces),
            ActionView::Done => true,
        },
{
    let loaded = load_spec(s, found);
    match loaded.stage {
        Stage::Init => {
            let head = seq![
                PieceView::Fg(Color::Red),
                PieceView::Text(crate::handler::headline()),
                PieceView::Reset,
                PieceView::Text("Message: "@),
                PieceView::Fg(Color::Cyan),
                PieceView::Text(crate::handler::shown_message(s.message) + "\n"@),
                PieceView::Reset,
                PieceView::Text("Location: "@),
            ];
            lemma_text_after_reset(head, 6);
            match s.location {
                Some(place) => {
                    let tail = seq![
                        PieceView::Fg(Color::Magenta),
                        PieceView::Text(place.file),
                        PieceView::Fg(Color::White),
                        PieceView::Text(":"@),
                        PieceView::Fg(Color::Magenta),
                        PieceView::Text(decimal(place.line as nat) + "\n"@),
                        PieceView::Reset,
                    ];
                    lemma_text_after_reset(tail, 6);
                    lemma_colors_end_in_sequence(head, tail);
                },
                None => {
                    let tail = seq![PieceView::Text("<unknown>\n"@)];
                    lemma_text_after_reset(tail, -1);
                    lemma_colors_end_in_sequence(head, tail);
                },
            }
        },
        Stage::SummaryPrinted => {
            lemma_text_after_reset(banner_pieces(), -1);
        },
        Stage::BannerPrinted => {},
        Stage::Walking => {
            if loaded.next < loaded.symbols.len() {
                lemma_text_after_reset(
                    frame_pieces(loaded.symbols[loaded.next as int], loaded.next),
                    3,
                );
            }
        },
        Stage::SourceAsked(lineno) => {
            match event {
                EventView::Source(lines) => {
                    lemma_excerpt_ends_reset(source_window(lines, lineno), window_start(lineno), lineno);
                },
                _ => {},
            }
        },
        Stage::Done => {},
    }
}

/// How many steps a report on a loaded stack can still take at most: two
/// for every frame that is not shown yet, one for an excerpt that is due,
/// and the last one, which ends the report.
pub open spec fn steps_left(s: HandlerView) -> nat {
    let frames: nat = if s.next < s.symbols.len() {
        (s.symbols.len() - s.next) as nat
    } else {
        0
    };
    match s.stage {
        Stage::Done => 0,
        Stage::SourceAsked(_) => 2 * frames + 2,
        _ => 2 * frames + 1,
    }
}

/// Every report ends: once the stack is loaded, each step that does not end
/// the report brings its end nearer, and the report has ended when no step
/// is left.
pub proof fn every_step_nears_the_end(s: HandlerView, event: EventView)
    requires
        s.stage == Stage::Walking || s.stage is SourceAsked || s.stage == Stage::Done,
    ensures
        ({
            let (after, action) = advance_spec(s, event);
            &&& after.stage == Stage::Walking || after.stage is SourceAsked || after.stage
                == Stage::Done
            &&& s.stage != Stage::Done ==> steps_left(after) < steps_left(s)
            &&& action == ActionView::Done <==> after.stage == Stage::Done
            &&& steps_left(s) == 0 <==> s.stage == Stage::Done
        }),
{
}

} // verus!
