use cozy_chess::Board;
use cozy_matches::chess::{File, Move, Piece, Rank, Square};
use cozy_matches::duration::Duration;
use cozy_matches::engine::{
    AnalysisLimit, AnalysisSearchLimit, AnalysisTimeLimit, Engine, EngineAnalysis,
    EngineAnalysisError, EngineAnalysisEvent, EngineError, InitStep, OptionTable,
    SetOptionError, UciOptionField, UciOptionValue,
};
use cozy_matches::game::ChessGame;
use cozy_matches::uci::{
    UciCommand, UciFormatOptions, UciGoParams, UciIdInfo, UciInfo, UciInitPos, UciOptionInfo,
    UciRemark, UciScore, UciTimeControl,
};

fn square(name: &str) -> Square {
    let bytes = name.as_bytes();
    Square::new(File::from_index(bytes[0] - b'a'), Rank::from_index(bytes[1] - b'1'))
}

fn mv(text: &str) -> Move {
    let promotion = match text.as_bytes().get(4) {
        Some(b'n') => Some(Piece::Knight),
        Some(b'b') => Some(Piece::Bishop),
        Some(b'r') => Some(Piece::Rook),
        Some(b'q') => Some(Piece::Queen),
        _ => None,
    };
    Move { from: square(&text[0..2]), to: square(&text[2..4]), promotion }
}

fn name(text: &str) -> UciRemark {
    UciRemark::Id(UciIdInfo::Name(text.to_string()))
}

fn author(text: &str) -> UciRemark {
    UciRemark::Id(UciIdInfo::Author(text.to_string()))
}

fn option(option_name: &str, info: UciOptionInfo) -> UciRemark {
    UciRemark::Option { name: option_name.to_string(), info }
}

fn spin(default: i64, min: i64, max: i64) -> UciOptionInfo {
    UciOptionInfo::Spin { default, min, max }
}

fn combo(default: &str, labels: &[&str]) -> UciOptionInfo {
    UciOptionInfo::Combo {
        default: default.to_string(),
        labels: labels.iter().map(|l| l.to_string()).collect(),
    }
}

fn info(depth: u32) -> UciInfo {
    UciInfo {
        depth: Some(depth),
        seldepth: None,
        time: Some(Duration::from_millis(10)),
        nodes: Some(1000),
        pv: Some(vec![mv("e2e4")]),
        score: Some(UciScore::Centipawn(20)),
        hashfull: None,
        nps: None,
        tbhits: None,
    }
}

/// Runs a handshake on what a scripted engine sends; the script ends where
/// the engine closes its output.
fn handshake(script: Vec<UciRemark>) -> Result<(Engine, Vec<EngineError>), EngineError> {
    let (mut state, first) = Engine::new();
    assert_eq!(first, UciCommand::Uci);
    let mut script = script.into_iter();
    loop {
        match Engine::init(state, script.next()) {
            InitStep::More(next) => state = next,
            InitStep::Ready(engine, warnings) => return Ok((engine, warnings)),
            InitStep::Failed(e) => return Err(e),
        }
    }
}

fn usual_engine() -> Engine {
    let (engine, warnings) = handshake(vec![
        name("X"),
        author("Y"),
        option("Hash", spin(16, 1, 64)),
        option("Ponder", UciOptionInfo::Check { default: false }),
        option("UCI_Chess960", UciOptionInfo::Check { default: false }),
        option("Style", combo("Normal", &["Solid", "Normal", "Risky"])),
        option("SyzygyPath", UciOptionInfo::String { default: "<empty>".to_string() }),
        option("Clear Hash", UciOptionInfo::Button),
        UciRemark::UciOk,
    ])
    .unwrap();
    assert!(warnings.is_empty());
    engine
}

#[test]
fn a_handshake_registers_what_the_engine_offers() {
    let (engine, warnings) = handshake(vec![
        name("X"),
        author("Y"),
        option("Hash", spin(16, 1, 64)),
        UciRemark::UciOk,
    ])
    .unwrap();
    assert!(warnings.is_empty());
    assert_eq!(
        engine.options().get("Hash"),
        Some(&UciOptionField::Spin { value: 16, min: 1, max: 64 })
    );
    assert_eq!(engine.options().get("hash"), None);
    assert_eq!(engine.engine_name(), "X");
    assert_eq!(engine.engine_author(), "Y");
}

#[test]
fn a_second_name_is_warned_of() {
    let (engine, warnings) = handshake(vec![name("A"), name("B"), UciRemark::UciOk]).unwrap();
    assert_eq!(
        warnings,
        vec![EngineError::UnexpectedRemark(name("B")), EngineError::MissingAuthor]
    );
    assert_eq!(
        warnings.iter().filter(|w| matches!(w, EngineError::UnexpectedRemark(_))).count(),
        1
    );
    assert_eq!(engine.engine_name(), "A");
    assert_eq!(engine.engine_author(), "");
}

#[test]
fn a_second_author_is_warned_of() {
    let (engine, warnings) =
        handshake(vec![name("A"), author("B"), author("C"), UciRemark::UciOk]).unwrap();
    assert_eq!(warnings, vec![EngineError::UnexpectedRemark(author("C"))]);
    assert_eq!(engine.engine_author(), "B");
}

#[test]
fn an_engine_without_name_or_author_is_warned_of() {
    let (engine, warnings) = handshake(vec![UciRemark::UciOk]).unwrap();
    assert_eq!(warnings, vec![EngineError::MissingName, EngineError::MissingAuthor]);
    assert_eq!(engine.engine_name(), "");
    assert_eq!(engine.engine_author(), "");
    let (_, only_author) = handshake(vec![name("A"), UciRemark::UciOk]).unwrap();
    assert_eq!(only_author, vec![EngineError::MissingAuthor]);
    let (_, only_name) = handshake(vec![author("A"), UciRemark::UciOk]).unwrap();
    assert_eq!(only_name, vec![EngineError::MissingName]);
}

#[test]
fn remarks_out_of_place_are_warned_of_in_their_order() {
    let best = UciRemark::BestMove { mv: mv("e2e4"), ponder: None };
    let (_, warnings) = handshake(vec![
        UciRemark::ReadyOk,
        name("A"),
        UciRemark::Info(info(1)),
        author("B"),
        best.clone(),
        UciRemark::UciOk,
    ])
    .unwrap();
    assert_eq!(
        warnings,
        vec![
            EngineError::UnexpectedRemark(UciRemark::ReadyOk),
            EngineError::UnexpectedRemark(UciRemark::Info(info(1))),
            EngineError::UnexpectedRemark(best),
        ]
    );
}

#[test]
fn an_engine_that_closes_its_output_fails_the_handshake() {
    assert_eq!(handshake(vec![]), Err(EngineError::UnexpectedTermination));
    assert_eq!(
        handshake(vec![name("A"), author("B")]),
        Err(EngineError::UnexpectedTermination)
    );
}

#[test]
fn what_follows_uciok_is_not_read() {
    let (engine, warnings) = handshake(vec![
        name("A"),
        author("B"),
        UciRemark::UciOk,
        option("Hash", spin(16, 1, 64)),
    ])
    .unwrap();
    assert!(warnings.is_empty());
    assert_eq!(engine.options().get("Hash"), None);
}

#[test]
fn a_spin_must_have_its_default_within_its_bounds() {
    for bad in [spin(0, 1, 64), spin(65, 1, 64), spin(5, 10, 1), spin(1, 2, 1)] {
        assert_eq!(
            handshake(vec![name("A"), option("Hash", bad), UciRemark::UciOk]),
            Err(EngineError::InvalidOption)
        );
    }
    for good in [spin(1, 1, 64), spin(64, 1, 64), spin(7, 7, 7), spin(-5, -10, -1)] {
        assert!(handshake(vec![option("Hash", good), UciRemark::UciOk]).is_ok());
    }
}

#[test]
fn a_combo_must_have_its_default_among_its_labels() {
    assert_eq!(
        handshake(vec![option("Style", combo("Wild", &["Solid", "Normal"])), UciRemark::UciOk]),
        Err(EngineError::InvalidOption)
    );
    assert_eq!(
        handshake(vec![option("Style", combo("Wild", &[])), UciRemark::UciOk]),
        Err(EngineError::InvalidOption)
    );
    assert_eq!(
        handshake(vec![option("Style", combo("normal", &["Solid", "Normal"])), UciRemark::UciOk]),
        Err(EngineError::InvalidOption)
    );
}

#[test]
fn a_combo_keeps_the_place_of_its_default() {
    let engine = usual_engine();
    assert_eq!(
        engine.options().get("Style"),
        Some(&UciOptionField::Combo {
            value: 1,
            labels: vec!["Solid".to_string(), "Normal".to_string(), "Risky".to_string()],
        })
    );
    let (twice, _) = handshake(vec![
        option("Style", combo("B", &["A", "B", "B"])),
        UciRemark::UciOk,
    ])
    .unwrap();
    assert_eq!(
        twice.options().get("Style"),
        Some(&UciOptionField::Combo {
            value: 1,
            labels: vec!["A".to_string(), "B".to_string(), "B".to_string()],
        })
    );
}

#[test]
fn checks_and_strings_keep_their_defaults() {
    let engine = usual_engine();
    assert_eq!(engine.options().get("Ponder"), Some(&UciOptionField::Check { value: false }));
    assert_eq!(
        engine.options().get("SyzygyPath"),
        Some(&UciOptionField::String { value: "<empty>".to_string() })
    );
}

#[test]
fn a_button_is_not_kept() {
    let engine = usual_engine();
    assert_eq!(engine.options().get("Clear Hash"), None);
}

#[test]
fn an_option_described_again_takes_the_place_of_the_first() {
    let (engine, warnings) = handshake(vec![
        name("A"),
        author("B"),
        option("Hash", spin(16, 1, 64)),
        option("Threads", spin(1, 1, 8)),
        option("Hash", UciOptionInfo::Check { default: true }),
        UciRemark::UciOk,
    ])
    .unwrap();
    assert!(warnings.is_empty());
    assert_eq!(engine.options().get("Hash"), Some(&UciOptionField::Check { value: true }));
    assert_eq!(
        engine.options().get("Threads"),
        Some(&UciOptionField::Spin { value: 1, min: 1, max: 8 })
    );
}

#[test]
fn a_table_takes_and_gives_options_by_name() {
    let mut table = OptionTable::new();
    assert_eq!(table.get("A"), None);
    table.insert("A".to_string(), UciOptionField::Check { value: true });
    table.insert("B".to_string(), UciOptionField::Spin { value: 1, min: 0, max: 2 });
    assert_eq!(table.get("A"), Some(&UciOptionField::Check { value: true }));
    assert_eq!(table.get("B"), Some(&UciOptionField::Spin { value: 1, min: 0, max: 2 }));
    table.insert("A".to_string(), UciOptionField::Check { value: false });
    assert_eq!(table.get("A"), Some(&UciOptionField::Check { value: false }));
    assert_eq!(table.get("B"), Some(&UciOptionField::Spin { value: 1, min: 0, max: 2 }));
    assert_eq!(table.get(""), None);
}

#[test]
fn a_spin_out_of_range_is_refused_before_anything_is_sent() {
    let mut engine = usual_engine();
    let before = engine.clone();
    assert_eq!(
        engine.set_option_command(&"Hash".to_string(), &UciOptionValue::Spin(100)),
        Err(SetOptionError::OutOfRange)
    );
    assert_eq!(
        engine.set_option("Hash".to_string(), UciOptionValue::Spin(100)),
        Err(SetOptionError::OutOfRange)
    );
    assert_eq!(engine, before);
    assert_eq!(
        engine.set_option("Hash".to_string(), UciOptionValue::Spin(0)),
        Err(SetOptionError::OutOfRange)
    );
    assert_eq!(
        engine.set_option("Hash".to_string(), UciOptionValue::Spin(65)),
        Err(SetOptionError::OutOfRange)
    );
    assert_eq!(engine, before);
}

#[test]
fn an_unknown_option_is_refused() {
    let mut engine = usual_engine();
    let before = engine.clone();
    assert_eq!(
        engine.set_option_command(&"Contempt".to_string(), &UciOptionValue::Spin(1)),
        Err(SetOptionError::NoSuchOption)
    );
    assert_eq!(
        engine.set_option("Contempt".to_string(), UciOptionValue::Spin(1)),
        Err(SetOptionError::NoSuchOption)
    );
    assert_eq!(
        engine.set_option("Clear Hash".to_string(), UciOptionValue::Check(true)),
        Err(SetOptionError::NoSuchOption)
    );
    assert_eq!(engine, before);
}

#[test]
fn a_value_of_another_kind_is_refused() {
    let mut engine = usual_engine();
    let before = engine.clone();
    let cases = [
        ("Hash", UciOptionValue::Check(true)),
        ("Hash", UciOptionValue::Combo(1)),
        ("Hash", UciOptionValue::String("16".to_string())),
        ("Ponder", UciOptionValue::Spin(1)),
        ("Style", UciOptionValue::String("Solid".to_string())),
        ("Style", UciOptionValue::Spin(1)),
        ("SyzygyPath", UciOptionValue::Combo(0)),
        ("SyzygyPath", UciOptionValue::Check(false)),
    ];
    for (option_name, value) in cases {
        assert_eq!(
            engine.set_option_command(&option_name.to_string(), &value),
            Err(SetOptionError::TypeMismatch)
        );
        assert_eq!(
            engine.set_option(option_name.to_string(), value),
            Err(SetOptionError::TypeMismatch)
        );
    }
    assert_eq!(engine, before);
}

#[test]
fn a_choice_past_the_labels_is_refused() {
    let mut engine = usual_engine();
    assert_eq!(
        engine.set_option("Style".to_string(), UciOptionValue::Combo(3)),
        Err(SetOptionError::OutOfRange)
    );
    assert_eq!(
        engine.set_option_command(&"Style".to_string(), &UciOptionValue::Combo(usize::MAX)),
        Err(SetOptionError::OutOfRange)
    );
    assert_eq!(engine.set_option("Style".to_string(), UciOptionValue::Combo(2)), Ok(()));
}

fn set_command(option_name: &str, text: &str) -> UciCommand {
    UciCommand::SetOption { name: option_name.to_string(), value: Some(text.to_string()) }
}

#[test]
fn values_are_written_for_the_wire() {
    let engine = usual_engine();
    assert_eq!(
        engine.set_option_command(&"Ponder".to_string(), &UciOptionValue::Check(true)),
        Ok(set_command("Ponder", "true"))
    );
    assert_eq!(
        engine.set_option_command(&"Ponder".to_string(), &UciOptionValue::Check(false)),
        Ok(set_command("Ponder", "false"))
    );
    assert_eq!(
        engine.set_option_command(&"Hash".to_string(), &UciOptionValue::Spin(32)),
        Ok(set_command("Hash", "32"))
    );
    assert_eq!(
        engine.set_option_command(&"Style".to_string(), &UciOptionValue::Combo(2)),
        Ok(set_command("Style", "Risky"))
    );
    assert_eq!(
        engine.set_option_command(
            &"SyzygyPath".to_string(),
            &UciOptionValue::String("/tb/3 4 5".to_string())
        ),
        Ok(set_command("SyzygyPath", "/tb/3 4 5"))
    );
    // Asking for the command changes nothing.
    assert_eq!(engine, usual_engine());
}

#[test]
fn numbers_are_written_in_base_ten() {
    let (engine, _) = handshake(vec![
        option("Contempt", spin(0, i64::MIN, i64::MAX)),
        UciRemark::UciOk,
    ])
    .unwrap();
    let cases: [(i64, &str); 9] = [
        (0, "0"),
        (7, "7"),
        (10, "10"),
        (-1, "-1"),
        (-10, "-10"),
        (1234567890, "1234567890"),
        (-9876543210, "-9876543210"),
        (i64::MAX, "9223372036854775807"),
        (i64::MIN, "-9223372036854775808"),
    ];
    for (number, text) in cases {
        assert_eq!(
            engine.set_option_command(&"Contempt".to_string(), &UciOptionValue::Spin(number)),
            Ok(set_command("Contempt", text))
        );
    }
}

#[test]
fn a_value_that_is_set_is_kept() {
    let mut engine = usual_engine();
    assert_eq!(engine.set_option("Hash".to_string(), UciOptionValue::Spin(64)), Ok(()));
    assert_eq!(engine.set_option("Ponder".to_string(), UciOptionValue::Check(true)), Ok(()));
    assert_eq!(engine.set_option("Style".to_string(), UciOptionValue::Combo(0)), Ok(()));
    assert_eq!(
        engine.set_option("SyzygyPath".to_string(), UciOptionValue::String("/tb".to_string())),
        Ok(())
    );
    assert_eq!(
        engine.options().get("Hash"),
        Some(&UciOptionField::Spin { value: 64, min: 1, max: 64 })
    );
    assert_eq!(engine.options().get("Ponder"), Some(&UciOptionField::Check { value: true }));
    assert_eq!(
        engine.options().get("Style"),
        Some(&UciOptionField::Combo {
            value: 0,
            labels: vec!["Solid".to_string(), "Normal".to_string(), "Risky".to_string()],
        })
    );
    assert_eq!(
        engine.options().get("SyzygyPath"),
        Some(&UciOptionField::String { value: "/tb".to_string() })
    );
    // The others are as they were.
    assert_eq!(
        engine.options().get("UCI_Chess960"),
        Some(&UciOptionField::Check { value: false })
    );
    assert_eq!(engine.engine_name(), "X");
    assert_eq!(engine.engine_author(), "Y");
}

#[test]
fn chess960_is_an_option_like_others() {
    let mut engine = usual_engine();
    assert!(engine.chess960_supported());
    assert!(!engine.chess960_enabled());
    assert_eq!(engine.uci_format_opts(), UciFormatOptions { chess960: false, wdl: false });
    assert_eq!(engine.set_option("UCI_Chess960".to_string(), UciOptionValue::Check(true)), Ok(()));
    assert!(engine.chess960_supported());
    assert!(engine.chess960_enabled());
    assert_eq!(engine.uci_format_opts(), UciFormatOptions { chess960: true, wdl: false });

    let (plain, _) = handshake(vec![option("Hash", spin(16, 1, 64)), UciRemark::UciOk]).unwrap();
    assert!(!plain.chess960_supported());
    assert!(!plain.chess960_enabled());

    let (odd, _) = handshake(vec![
        option("UCI_Chess960", UciOptionInfo::String { default: "true".to_string() }),
        UciRemark::UciOk,
    ])
    .unwrap();
    assert!(!odd.chess960_supported());
    assert!(!odd.chess960_enabled());

    let (on, _) = handshake(vec![
        option("UCI_Chess960", UciOptionInfo::Check { default: true }),
        UciRemark::UciOk,
    ])
    .unwrap();
    assert!(on.chess960_supported());
    assert!(on.chess960_enabled());
}

fn some_limit() -> AnalysisLimit {
    AnalysisLimit {
        search_limit: Some(AnalysisSearchLimit { nodes: None, depth: Some(8) }),
        time_limit: Some(AnalysisTimeLimit::MoveTime(Duration::from_millis(250))),
    }
}

#[test]
fn an_analysis_begins_with_position_and_go() {
    let engine = usual_engine();
    let mut game = ChessGame::new(Board::default());
    game.play(mv("e2e4"));
    let (_, position, go) = engine.analyze(&game, some_limit()).unwrap();
    assert_eq!(
        position,
        UciCommand::Position {
            init_pos: UciInitPos::Board(Board::default()),
            moves: vec![mv("e2e4")],
        }
    );
    assert_eq!(
        go,
        UciCommand::Go(UciGoParams {
            depth: Some(8),
            nodes: None,
            time_control: Some(UciTimeControl::MoveTime(250)),
        })
    );
}

#[test]
fn a_chess960_game_is_refused_by_an_engine_that_has_not_switched_it_on() {
    let mut engine = usual_engine();
    let game = ChessGame::new(Board::chess960_startpos(0));
    assert_eq!(engine.analyze(&game, some_limit()).err(), Some(EngineAnalysisError::Requires960));
    let (plain, _) = handshake(vec![UciRemark::UciOk]).unwrap();
    assert_eq!(plain.analyze(&game, some_limit()).err(), Some(EngineAnalysisError::Requires960));
    engine.set_option("UCI_Chess960".to_string(), UciOptionValue::Check(true)).unwrap();
    assert!(engine.analyze(&game, some_limit()).is_ok());
    // A standard game is analysed either way.
    let standard = ChessGame::new(Board::default());
    assert!(engine.analyze(&standard, some_limit()).is_ok());
    assert!(plain.analyze(&standard, some_limit()).is_ok());
}

/// Runs an analysis on what a scripted engine sends.
fn stream(
    analysis: &EngineAnalysis,
    script: Vec<UciRemark>,
) -> (Vec<EngineAnalysisEvent>, Option<EngineError>) {
    let mut events = Vec::new();
    let mut script = script.into_iter();
    loop {
        match analysis.next(script.next()) {
            Ok(event) => {
                let last = event.is_last();
                events.push(event);
                if last {
                    return (events, None);
                }
            }
            Err(e) => return (events, Some(e)),
        }
    }
}

#[test]
fn an_analysis_yields_reports_and_ends_with_the_best_move() {
    let engine = usual_engine();
    let game = ChessGame::new(Board::default());
    let (analysis, _, _) = engine.analyze(&game, some_limit()).unwrap();
    let (events, error) = stream(
        &analysis,
        vec![
            UciRemark::Info(info(1)),
            UciRemark::Info(info(2)),
            UciRemark::BestMove { mv: mv("e2e4"), ponder: Some(mv("e7e5")) },
            UciRemark::Info(info(3)),
        ],
    );
    assert_eq!(error, None);
    assert_eq!(
        events,
        vec![
            EngineAnalysisEvent::Info(info(1)),
            EngineAnalysisEvent::Info(info(2)),
            EngineAnalysisEvent::BestMove(mv("e2e4")),
        ]
    );
}

#[test]
fn a_remark_out_of_place_is_yielded_and_the_analysis_goes_on() {
    let analysis = EngineAnalysis::new(Board::default(), false);
    let (events, error) = stream(
        &analysis,
        vec![
            UciRemark::ReadyOk,
            UciRemark::Info(info(1)),
            name("A"),
            UciRemark::UciOk,
            UciRemark::BestMove { mv: mv("g1f3"), ponder: None },
        ],
    );
    assert_eq!(error, None);
    assert_eq!(
        events,
        vec![
            EngineAnalysisEvent::EngineError(EngineError::UnexpectedRemark(UciRemark::ReadyOk)),
            EngineAnalysisEvent::Info(info(1)),
            EngineAnalysisEvent::EngineError(EngineError::UnexpectedRemark(name("A"))),
            EngineAnalysisEvent::EngineError(EngineError::UnexpectedRemark(UciRemark::UciOk)),
            EngineAnalysisEvent::BestMove(mv("g1f3")),
        ]
    );
}

#[test]
fn an_engine_that_closes_its_output_fails_the_analysis() {
    let analysis = EngineAnalysis::new(Board::default(), false);
    let (events, error) = stream(&analysis, vec![UciRemark::Info(info(1))]);
    assert_eq!(events, vec![EngineAnalysisEvent::Info(info(1))]);
    assert_eq!(error, Some(EngineError::UnexpectedTermination));
    assert_eq!(analysis.next(None), Err(EngineError::UnexpectedTermination));
}

#[test]
fn the_best_move_is_read_on_the_board_under_analysis() {
    let castling: Board = "r3k2r/8/8/8/8/8/8/R3K2R w KQkq - 0 1".parse().unwrap();
    let standard = EngineAnalysis::new(castling.clone(), false);
    assert_eq!(
        standard.next(Some(UciRemark::BestMove { mv: mv("e1g1"), ponder: None })),
        Ok(EngineAnalysisEvent::BestMove(mv("e1h1")))
    );
    assert_eq!(
        standard.next(Some(UciRemark::BestMove { mv: mv("e1c1"), ponder: None })),
        Ok(EngineAnalysisEvent::BestMove(mv("e1a1")))
    );
    let chess960 = EngineAnalysis::new(castling, true);
    assert_eq!(
        chess960.next(Some(UciRemark::BestMove { mv: mv("e1g1"), ponder: None })),
        Ok(EngineAnalysisEvent::BestMove(mv("e1g1")))
    );
    assert_eq!(
        chess960.next(Some(UciRemark::BestMove { mv: mv("e1h1"), ponder: None })),
        Ok(EngineAnalysisEvent::BestMove(mv("e1h1")))
    );
}

#[test]
fn the_analysis_of_a_game_reads_moves_on_its_current_board() {
    let engine = usual_engine();
    let mut game = ChessGame::new("r3k2r/8/8/8/8/8/8/R3K2R w KQkq - 0 1".parse().unwrap());
    game.play(mv("a1a2"));
    // Black is to move on the current board: e8g8 is castling there.
    let (analysis, _, _) = engine.analyze(&game, some_limit()).unwrap();
    assert_eq!(
        analysis.next(Some(UciRemark::BestMove { mv: mv("e8g8"), ponder: None })),
        Ok(EngineAnalysisEvent::BestMove(mv("e8h8")))
    );
}

#[test]
fn only_the_best_move_ends_an_analysis() {
    assert!(EngineAnalysisEvent::BestMove(mv("e2e4")).is_last());
    assert!(!EngineAnalysisEvent::Info(info(1)).is_last());
    assert!(!EngineAnalysisEvent::EngineError(EngineError::UnexpectedTermination).is_last());
}

#[test]
fn errors_say_what_went_wrong() {
    assert_eq!(EngineError::IoError("broken pipe".to_string()).message(), "io error: broken pipe");
    assert_eq!(EngineError::UnexpectedTermination.message(), "engine unexpectedly exited");
    assert_eq!(
        EngineError::InvalidMessage("xyzzy".to_string(), "unknown".to_string()).message(),
        "invalid message"
    );
    assert_eq!(EngineError::UnexpectedRemark(UciRemark::UciOk).message(), "unexpected remark");
    assert_eq!(EngineError::MissingName.message(), "missing name");
    assert_eq!(EngineError::MissingAuthor.message(), "missing author");
    assert_eq!(EngineError::InvalidOption.message(), "invalid option");
    assert_eq!(EngineAnalysisError::Requires960.message(), "requires chess960 support");
    assert_eq!(SetOptionError::NoSuchOption.message(), "no such option");
    assert_eq!(SetOptionError::TypeMismatch.message(), "type mismatch");
    assert_eq!(SetOptionError::OutOfRange.message(), "out of range");
    assert_eq!(
        SetOptionError::EngineError(EngineError::IoError("closed".to_string())).message(),
        "engine error: io error: closed"
    );
}

#[test]
fn an_engine_error_becomes_a_set_option_error() {
    let converted: SetOptionError = EngineError::UnexpectedTermination.into();
    assert_eq!(converted, SetOptionError::EngineError(EngineError::UnexpectedTermination));
}

#[test]
fn the_handshake_writes_as_the_engine_has_said_so_far() {
    let (state, _) = Engine::new();
    assert_eq!(state.uci_format_opts(), UciFormatOptions { chess960: false, wdl: false });
    let on = option("UCI_Chess960", UciOptionInfo::Check { default: true });
    let state = match Engine::init(state, Some(on)) {
        InitStep::More(next) => next,
        other => panic!("the handshake should go on: {:?}", other),
    };
    assert_eq!(state.uci_format_opts(), UciFormatOptions { chess960: true, wdl: false });
    let off = option("UCI_Chess960", UciOptionInfo::Check { default: false });
    let state = match Engine::init(state, Some(off)) {
        InitStep::More(next) => next,
        other => panic!("the handshake should go on: {:?}", other),
    };
    assert_eq!(state.uci_format_opts(), UciFormatOptions { chess960: false, wdl: false });
}

#[test]
fn a_remark_the_session_has_no_name_for_is_out_of_place() {
    let odd = UciRemark::Other("copyprotection ok".to_string());
    let (_, warnings) =
        handshake(vec![name("A"), author("B"), odd.clone(), UciRemark::UciOk]).unwrap();
    assert_eq!(warnings, vec![EngineError::UnexpectedRemark(odd.clone())]);
    let analysis = EngineAnalysis::new(Board::default(), false);
    assert_eq!(
        analysis.next(Some(odd.clone())),
        Ok(EngineAnalysisEvent::EngineError(EngineError::UnexpectedRemark(odd)))
    );
}

#[test]
fn a_failed_step_is_the_end_of_the_handshake() {
    let (state, _) = Engine::new();
    assert_eq!(
        Engine::init(state, Some(option("Hash", spin(0, 1, 64)))),
        InitStep::Failed(EngineError::InvalidOption)
    );
    let (state, _) = Engine::new();
    assert_eq!(Engine::init(state, None), InitStep::Failed(EngineError::UnexpectedTermination));
}

#[test]
fn a_table_lists_its_names_each_once() {
    let mut table = OptionTable::new();
    assert!(table.names().is_empty());
    table.insert("Hash".to_string(), UciOptionField::Spin { value: 16, min: 1, max: 64 });
    table.insert("Ponder".to_string(), UciOptionField::Check { value: false });
    table.insert("Hash".to_string(), UciOptionField::Spin { value: 32, min: 1, max: 64 });
    let mut names = table.names();
    names.sort();
    assert_eq!(names, vec!["Hash".to_string(), "Ponder".to_string()]);
    for name in &names {
        assert!(table.get(name).is_some());
    }
}

#[test]
fn the_options_of_an_engine_can_be_walked() {
    let engine = usual_engine();
    let mut names = engine.options().names();
    names.sort();
    assert_eq!(
        names,
        vec![
            "Hash".to_string(),
            "Ponder".to_string(),
            "Style".to_string(),
            "SyzygyPath".to_string(),
            "UCI_Chess960".to_string(),
        ]
    );
}
