use color_traceback::frame::Sym;
use color_traceback::handler::{
    print_banner, print_panic_info, Action, Event, Location, PanicHandler, Stage,
};
use color_traceback::piece::{to_plain_text, Color, Piece};
use color_traceback::source::SourceRequest;
use color_traceback::verbosity::Verbosity;

fn text(s: &str) -> Piece {
    Piece::Text(s.to_string())
}

fn boom(v: Verbosity) -> PanicHandler {
    PanicHandler::new(
        v,
        Some("boom".to_string()),
        Some(Location { file: "app.rs".to_string(), line: 42 }),
    )
}

fn sym(name: &str, lineno: Option<u32>, filename: Option<&str>) -> Sym {
    Sym { name: Some(name.to_string()), lineno, filename: filename.map(|f| f.to_string()) }
}

fn file(count: usize) -> Vec<String> {
    (1..=count).map(|n| format!("line {}", n)).collect()
}

/// Runs a report on the stack of this test: files that are asked for are
/// reported missing.
fn run_live(handler: &mut PanicHandler) -> (Vec<Piece>, Vec<SourceRequest>) {
    let mut out = Vec::new();
    let mut asked = Vec::new();
    let mut event = Event::Proceed;
    for _ in 0..100000 {
        match handler.go(event) {
            Action::Write(pieces) => {
                out.extend(pieces);
                event = Event::Proceed;
            }
            Action::WriteThenRead(pieces, request) => {
                out.extend(pieces);
                asked.push(request);
                event = Event::SourceMissing;
            }
            Action::Done => return (out, asked),
        }
    }
    panic!("the report did not end");
}

/// Runs a report on a given stack: every file that is asked for has the
/// given lines.
fn run_on(handler: &mut PanicHandler, symbols: Vec<Sym>, lines: Option<Vec<String>>) -> Vec<Piece> {
    let mut out = Vec::new();
    let mut symbols = Some(symbols);
    let mut event = Event::Proceed;
    for _ in 0..100000 {
        if handler.stage() == Stage::BannerPrinted {
            handler.load_symbols(symbols.take().unwrap());
        }
        match handler.advance(event) {
            Action::Write(pieces) => {
                out.extend(pieces);
                event = Event::Proceed;
            }
            Action::WriteThenRead(pieces, _) => {
                out.extend(pieces);
                event = match &lines {
                    Some(lines) => Event::Source(lines.clone()),
                    None => Event::SourceMissing,
                };
            }
            Action::Done => return out,
        }
    }
    panic!("the report did not end");
}

fn summary_of_boom() -> Vec<Piece> {
    vec![
        Piece::Fg(Color::Red),
        text("\nOh noez! Panic! \u{1F4A5}\n\n"),
        Piece::Reset,
        text("Message: "),
        Piece::Fg(Color::Cyan),
        text("boom\n"),
        Piece::Reset,
        text("Location: "),
        Piece::Fg(Color::Magenta),
        text("app.rs"),
        Piece::Fg(Color::White),
        text(":"),
        Piece::Fg(Color::Magenta),
        text("42\n"),
        Piece::Reset,
    ]
}

fn banner() -> Piece {
    Piece::Text(format!("\n{}[ BACKTRACE ]{}\n\n", "-".repeat(33), "-".repeat(34)))
}

#[test]
fn summary_pieces_of_a_panic() {
    let place = Location { file: "app.rs".to_string(), line: 42 };
    assert_eq!(print_panic_info(Some("boom"), Some(&place)), summary_of_boom());
}

#[test]
fn summary_without_a_location() {
    let out = print_panic_info(Some("boom"), None);
    assert_eq!(out.len(), 9);
    assert_eq!(out[..8], summary_of_boom()[..8]);
    assert_eq!(out[8], text("<unknown>\n"));
    assert_eq!(
        to_plain_text(&out),
        "\nOh noez! Panic! \u{1F4A5}\n\nMessage: boom\nLocation: <unknown>\n"
    );
}

#[test]
fn summary_of_a_payload_that_is_no_text() {
    let out = print_panic_info(None, None);
    assert_eq!(out[5], text("<non string panic payload>\n"));
    assert!(to_plain_text(&out).contains("Message: <non string panic payload>"));
}

#[test]
fn summary_keeps_an_empty_message() {
    let out = print_panic_info(Some(""), None);
    assert_eq!(out[5], text("\n"));
}

#[test]
fn banner_is_a_rule_of_eighty_columns() {
    assert_eq!(print_banner(), vec![banner()]);
    assert_eq!(
        print_banner(),
        vec![Piece::Text(format!("\n{:-^80}\n\n", "[ BACKTRACE ]"))]
    );
}

#[test]
fn minimal_report_is_the_summary() {
    let mut handler = boom(Verbosity::MINIMAL);
    let (out, asked) = run_live(&mut handler);
    assert_eq!(out, summary_of_boom());
    assert!(asked.is_empty());
    let shown = to_plain_text(&out);
    assert!(shown.contains("Oh noez! Panic!"));
    assert!(shown.contains("Message: boom"));
    assert!(shown.contains("Location: app.rs:42"));
    assert!(!shown.contains("BACKTRACE"));
    assert_eq!(shown, "\nOh noez! Panic! \u{1F4A5}\n\nMessage: boom\nLocation: app.rs:42\n");
}

#[test]
fn minimal_report_takes_two_steps() {
    let mut handler = boom(Verbosity::MINIMAL);
    assert_eq!(handler.stage(), Stage::Init);
    assert_eq!(handler.verbosity(), Verbosity::MINIMAL);
    assert_eq!(handler.go(Event::Proceed), Action::Write(summary_of_boom()));
    assert_eq!(handler.stage(), Stage::SummaryPrinted);
    assert_eq!(handler.go(Event::Proceed), Action::Done);
    assert_eq!(handler.stage(), Stage::Done);
    assert_eq!(handler.go(Event::Proceed), Action::Done);
    assert_eq!(handler.stage(), Stage::Done);
}

#[test]
fn medium_report_has_a_trace() {
    let mut handler = boom(Verbosity::MEDIUM);
    let (out, asked) = run_live(&mut handler);
    assert!(asked.is_empty());
    assert_eq!(out[..15], summary_of_boom()[..]);
    assert_eq!(out[15], banner());
    let shown = to_plain_text(&out);
    assert!(shown.contains("Message: boom"));
    assert!(shown.contains("Location: app.rs:42"));
    assert!(shown.contains("[ BACKTRACE ]"));

    assert!(out.len() >= 21);
    assert_eq!((out.len() - 16) % 5, 0);
    assert_eq!(out[16], text(" 0: "));
    assert!(matches!(out[17], Piece::Fg(Color::Green) | Piece::Fg(Color::BrightRed)));
    match &out[18] {
        Piece::Text(name) => assert!(name.ends_with('\n') && name.len() > 1),
        other => panic!("no name: {:?}", other),
    }
    assert_eq!(out[19], Piece::Reset);
    match &out[20] {
        Piece::Text(place) => {
            assert!(place.starts_with("    "));
            assert!(place.ends_with('\n'));
            assert!(place == "    <unknown source file>\n" || place.contains(':'));
        }
        other => panic!("no place: {:?}", other),
    }
    assert_eq!(handler.stage(), Stage::Done);
}

#[test]
fn medium_report_numbers_the_frames() {
    let mut handler = boom(Verbosity::MEDIUM);
    let (out, _) = run_live(&mut handler);
    let frames = (out.len() - 16) / 5;
    for index in 0..frames {
        assert_eq!(out[16 + 5 * index], Piece::Text(format!("{:>2}: ", index)));
    }
}

#[test]
fn medium_report_shows_no_source() {
    let mut handler = boom(Verbosity::MEDIUM);
    let symbols = vec![
        sym("my_app::run", Some(42), Some("app.rs")),
        sym("std::rt::lang_start", Some(3), Some("rt.rs")),
    ];
    let out = run_on(&mut handler, symbols, Some(file(50)));
    let mut expected = summary_of_boom();
    expected.push(banner());
    expected.extend(vec![
        text(" 0: "),
        Piece::Fg(Color::BrightRed),
        text("my_app::run\n"),
        Piece::Reset,
        text("    app.rs:42\n"),
        text(" 1: "),
        Piece::Fg(Color::Green),
        text("std::rt::lang_start\n"),
        Piece::Reset,
        text("    rt.rs:3\n"),
    ]);
    assert_eq!(out, expected);
}

#[test]
fn full_report_asks_for_the_source() {
    let mut handler = boom(Verbosity::FULL);
    assert!(matches!(handler.advance(Event::Proceed), Action::Write(_)));
    assert_eq!(handler.advance(Event::Proceed), Action::Write(vec![banner()]));
    assert_eq!(handler.stage(), Stage::BannerPrinted);
    handler.load_symbols(vec![sym("my_app::run", Some(42), Some("app.rs"))]);
    assert_eq!(handler.stage(), Stage::Walking);
    assert_eq!(
        handler.advance(Event::Proceed),
        Action::WriteThenRead(
            vec![
                text(" 0: "),
                Piece::Fg(Color::BrightRed),
                text("my_app::run\n"),
                Piece::Reset,
                text("    app.rs:42\n"),
            ],
            SourceRequest { file: "app.rs".to_string(), lineno: 42 },
        )
    );
    assert_eq!(handler.stage(), Stage::SourceAsked(42));
}

#[test]
fn full_report_shows_the_lines_round_the_frame() {
    let mut handler = boom(Verbosity::FULL);
    let out = run_on(&mut handler, vec![sym("my_app::run", Some(42), Some("app.rs"))], Some(file(50)));
    let mut expected = summary_of_boom();
    expected.push(banner());
    expected.extend(vec![
        text(" 0: "),
        Piece::Fg(Color::BrightRed),
        text("my_app::run\n"),
        Piece::Reset,
        text("    app.rs:42\n"),
        text("      40 line 40\n"),
        text("      41 line 41\n"),
        Piece::Fg(Color::BrightWhite),
        text(">>    42 line 42\n"),
        Piece::Reset,
        text("      43 line 43\n"),
        text("      44 line 44\n"),
    ]);
    assert_eq!(out, expected);
    assert_eq!(handler.stage(), Stage::Done);
}

#[test]
fn full_report_clamps_the_excerpt_at_the_end_of_the_file() {
    let mut handler = boom(Verbosity::FULL);
    let out = run_on(&mut handler, vec![sym("my_app::run", Some(42), Some("app.rs"))], Some(file(42)));
    assert_eq!(
        out[21..],
        vec![
            text("      40 line 40\n"),
            text("      41 line 41\n"),
            Piece::Fg(Color::BrightWhite),
            text(">>    42 line 42\n"),
            Piece::Reset,
        ][..]
    );
}

#[test]
fn full_report_has_no_excerpt_for_the_panic_itself() {
    let mut handler = boom(Verbosity::FULL);
    let out = run_on(&mut handler, Vec::new(), Some(file(50)));
    let mut expected = summary_of_boom();
    expected.push(banner());
    assert_eq!(out, expected);
}

#[test]
fn full_report_skips_the_source_of_a_frame_without_line_or_file() {
    let mut handler = boom(Verbosity::FULL);
    let symbols = vec![
        sym("a", None, Some("a.rs")),
        sym("b", Some(3), None),
        sym("c", None, None),
    ];
    let out = run_on(&mut handler, symbols, Some(file(50)));
    assert_eq!(out.len(), 16 + 3 * 5);
    assert_eq!(out[20], text("    a.rs:<unknown line>\n"));
    assert_eq!(out[25], text("    <unknown source file>\n"));
    assert_eq!(out[30], text("    <unknown source file>\n"));
}

#[test]
fn a_missing_source_file_shows_nothing() {
    let symbols = vec![
        sym("my_app::run", Some(42), Some("gone.rs")),
        sym("my_app::main", Some(7), Some("gone.rs")),
    ];
    let mut full = boom(Verbosity::FULL);
    let with_missing = run_on(&mut full, symbols.clone(), None);
    let mut medium = boom(Verbosity::MEDIUM);
    let without = run_on(&mut medium, symbols, None);
    assert_eq!(with_missing, without);
    assert_eq!(full.stage(), Stage::Done);
}

#[test]
fn a_missing_source_file_is_one_empty_step() {
    let mut handler = boom(Verbosity::FULL);
    handler.advance(Event::Proceed);
    handler.advance(Event::Proceed);
    handler.load_symbols(vec![sym("my_app::run", Some(42), Some("gone.rs"))]);
    assert!(matches!(handler.advance(Event::Proceed), Action::WriteThenRead(_, _)));
    assert_eq!(handler.advance(Event::SourceMissing), Action::Write(Vec::new()));
    assert_eq!(handler.stage(), Stage::Walking);
    assert_eq!(handler.advance(Event::Proceed), Action::Done);
}

#[test]
fn an_answer_without_lines_shows_nothing() {
    let mut handler = boom(Verbosity::FULL);
    handler.advance(Event::Proceed);
    handler.advance(Event::Proceed);
    handler.load_symbols(vec![sym("my_app::run", Some(42), Some("app.rs"))]);
    handler.advance(Event::Proceed);
    assert_eq!(handler.advance(Event::Proceed), Action::Write(Vec::new()));
    assert_eq!(handler.advance(Event::Proceed), Action::Done);
}

#[test]
fn lines_that_were_not_asked_for_are_ignored() {
    let mut handler = boom(Verbosity::FULL);
    assert_eq!(handler.advance(Event::Source(file(50))), Action::Write(summary_of_boom()));
    assert_eq!(handler.advance(Event::Source(file(50))), Action::Write(vec![banner()]));
    handler.load_symbols(vec![sym("a", None, None)]);
    assert!(matches!(handler.advance(Event::Source(file(50))), Action::Write(_)));
    assert_eq!(handler.advance(Event::Source(file(50))), Action::Done);
}

#[test]
fn a_report_with_a_payload_that_is_no_text() {
    let mut handler = PanicHandler::new(Verbosity::MINIMAL, None, None);
    let (out, _) = run_live(&mut handler);
    assert_eq!(
        to_plain_text(&out),
        "\nOh noez! Panic! \u{1F4A5}\n\nMessage: <non string panic payload>\nLocation: <unknown>\n"
    );
}

#[test]
fn symbols_are_taken_only_behind_the_banner() {
    let mut handler = boom(Verbosity::MEDIUM);
    handler.load_symbols(vec![sym("early", None, None)]);
    assert_eq!(handler.stage(), Stage::Init);
    handler.advance(Event::Proceed);
    handler.load_symbols(vec![sym("early", None, None)]);
    assert_eq!(handler.stage(), Stage::SummaryPrinted);
    handler.advance(Event::Proceed);
    handler.load_symbols(vec![sym("main", None, None)]);
    assert_eq!(handler.stage(), Stage::Walking);
    handler.load_symbols(vec![sym("late", None, None), sym("later", None, None)]);
    match handler.advance(Event::Proceed) {
        Action::Write(pieces) => assert_eq!(pieces[2], text("main\n")),
        other => panic!("no frame: {:?}", other),
    }
    assert_eq!(handler.advance(Event::Proceed), Action::Done);
}

#[test]
fn a_trace_without_symbols_ends_behind_the_banner() {
    let mut handler = boom(Verbosity::MEDIUM);
    handler.advance(Event::Proceed);
    handler.advance(Event::Proceed);
    assert_eq!(handler.advance(Event::Proceed), Action::Done);
    assert_eq!(handler.stage(), Stage::Done);
}

#[test]
fn print_backtrace_hands_out_one_frame_per_call() {
    let mut handler = boom(Verbosity::MEDIUM);
    handler.advance(Event::Proceed);
    handler.advance(Event::Proceed);
    handler.load_symbols(vec![sym("a", None, None), sym("a", None, None)]);
    match handler.print_backtrace() {
        Action::Write(pieces) => assert_eq!(pieces[0], text(" 0: ")),
        other => panic!("no frame: {:?}", other),
    }
    match handler.print_backtrace() {
        Action::Write(pieces) => assert_eq!(pieces[0], text(" 1: ")),
        other => panic!("no frame: {:?}", other),
    }
    assert_eq!(handler.print_backtrace(), Action::Done);
}

#[test]
fn full_report_on_the_running_stack_ends() {
    let mut handler = boom(Verbosity::FULL);
    let (out, asked) = run_live(&mut handler);
    assert_eq!(out[15], banner());
    assert_eq!((out.len() - 16) % 5, 0);
    for request in asked {
        assert!(!request.file.is_empty());
    }
    assert_eq!(handler.stage(), Stage::Done);
}
