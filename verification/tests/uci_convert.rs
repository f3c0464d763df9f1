use cozy_chess::Board;
use cozy_matches::board::play;
use cozy_matches::chess::{File, Move, Piece, Rank, Square};
use cozy_matches::duration::Duration;
use cozy_matches::engine::uci_convert::{
    analysis_limit_to_go_message, canonicalize_move, decanonicalize_move,
    game_to_position_message, moves_round_trip,
};
use cozy_matches::engine::{AnalysisLimit, AnalysisSearchLimit, AnalysisTimeLimit};
use cozy_matches::game::ChessGame;
use cozy_matches::uci::{UciCommand, UciGoParams, UciInitPos, UciTimeControl};

fn square(name: &str) -> Square {
    let bytes = name.as_bytes();
    Square::new(File::from_index(bytes[0] - b'a'), Rank::from_index(bytes[1] - b'1'))
}

fn mv(text: &str) -> Move {
    let promotion = match text.as_bytes().get(4) {
        Some(b'n') => Some(Piece::Knight),
        Some(b'b') => Some(Piece::Bishop),
        Some(b'r') => Some(Piece::Rook),
        Some(b'q') => Some(Piece::Queen),
        _ => None,
    };
    Move { from: square(&text[0..2]), to: square(&text[2..4]), promotion }
}

fn board(fen: &str) -> Board {
    fen.parse().unwrap()
}

fn castling_board() -> Board {
    board("r3k2r/8/8/8/8/8/8/R3K2R w KQkq - 0 1")
}

fn castling_board_black() -> Board {
    board("r3k2r/8/8/8/8/8/8/R3K2R b KQkq - 0 1")
}

/// Plays the moves of a `position` command on its board, reading each as an
/// engine wrote it.
fn replay(command: &UciCommand, chess960: bool) -> Board {
    match command {
        UciCommand::Position { init_pos: UciInitPos::Board(start), moves } => {
            let mut current = start.clone();
            for m in moves {
                let canonical = canonicalize_move(&current, *m, chess960);
                current = play(&current, canonical);
            }
            current
        }
        other => panic!("not a position command: {:?}", other),
    }
}

#[test]
fn short_castling_is_written_as_king_to_g() {
    let b = castling_board();
    assert_eq!(decanonicalize_move(&b, mv("e1h1"), false), mv("e1g1"));
    assert_eq!(canonicalize_move(&b, mv("e1g1"), false), mv("e1h1"));
}

#[test]
fn long_castling_is_written_as_king_to_c() {
    let b = castling_board();
    assert_eq!(decanonicalize_move(&b, mv("e1a1"), false), mv("e1c1"));
    assert_eq!(canonicalize_move(&b, mv("e1c1"), false), mv("e1a1"));
}

#[test]
fn black_castles_on_the_eighth_rank() {
    let b = castling_board_black();
    assert_eq!(decanonicalize_move(&b, mv("e8h8"), false), mv("e8g8"));
    assert_eq!(decanonicalize_move(&b, mv("e8a8"), false), mv("e8c8"));
    assert_eq!(canonicalize_move(&b, mv("e8g8"), false), mv("e8h8"));
    assert_eq!(canonicalize_move(&b, mv("e8c8"), false), mv("e8a8"));
}

#[test]
fn castling_comes_back_unchanged() {
    let white = castling_board();
    for text in ["e1h1", "e1a1"] {
        let written = decanonicalize_move(&white, mv(text), false);
        assert_eq!(canonicalize_move(&white, written, false), mv(text));
    }
    let black = castling_board_black();
    for text in ["e8h8", "e8a8"] {
        let written = decanonicalize_move(&black, mv(text), false);
        assert_eq!(canonicalize_move(&black, written, false), mv(text));
    }
}

#[test]
fn chess960_changes_no_move() {
    let b = castling_board();
    for text in ["e1h1", "e1a1", "e1g1", "e1c1", "e1e2", "a1a8", "h1h8"] {
        assert_eq!(decanonicalize_move(&b, mv(text), true), mv(text));
        assert_eq!(canonicalize_move(&b, mv(text), true), mv(text));
    }
}

#[test]
fn moves_that_are_not_castling_are_not_changed() {
    let start = Board::default();
    for text in ["e2e4", "g1f3", "b1c3", "a2a3"] {
        for chess960 in [false, true] {
            assert_eq!(decanonicalize_move(&start, mv(text), chess960), mv(text));
            assert_eq!(canonicalize_move(&start, mv(text), chess960), mv(text));
        }
    }
    let b = castling_board();
    for text in ["e1e2", "e1d1", "e1f1", "a1a8", "h1h8", "a1b1"] {
        assert_eq!(decanonicalize_move(&b, mv(text), false), mv(text));
        assert_eq!(canonicalize_move(&b, mv(text), false), mv(text));
    }
    let promoting = board("8/P6k/8/8/8/8/8/K7 w - - 0 1");
    assert_eq!(decanonicalize_move(&promoting, mv("a7a8q"), false), mv("a7a8q"));
    assert_eq!(canonicalize_move(&promoting, mv("a7a8q"), false), mv("a7a8q"));
}

#[test]
fn only_a_king_from_the_e_file_is_read_as_castling() {
    // A rook going from E1 to G1 is no castling.
    let rook = board("3k4/8/8/8/8/8/8/K3R3 w - - 0 1");
    assert_eq!(canonicalize_move(&rook, mv("e1g1"), false), mv("e1g1"));
    assert_eq!(canonicalize_move(&rook, mv("e1c1"), false), mv("e1c1"));
    // A king on D1 going to G1 is none either.
    let king = Board::from_fen("r2k3r/8/8/8/8/8/8/R2K3R w HAha - 0 1", true).unwrap();
    assert_eq!(canonicalize_move(&king, mv("d1g1"), false), mv("d1g1"));
    // A king going from the E file to another file than C or G is none.
    let b = castling_board();
    assert_eq!(canonicalize_move(&b, mv("e1b1"), false), mv("e1b1"));
    assert_eq!(canonicalize_move(&b, mv("e1h1"), false), mv("e1h1"));
}

#[test]
fn the_promotion_is_kept_when_the_destination_changes() {
    let b = castling_board();
    let odd = Move { from: square("e1"), to: square("g1"), promotion: Some(Piece::Queen) };
    let read = canonicalize_move(&b, odd, false);
    assert_eq!(read, Move { from: square("e1"), to: square("h1"), promotion: Some(Piece::Queen) });
}

#[test]
fn a_king_off_the_e_file_does_not_come_back() {
    // Rooks on A and H, king on D: castling short is written as king to G,
    // which is not read as castling again.
    let b = Board::from_fen("r2k3r/8/8/8/8/8/8/R2K3R w HAha - 0 1", true).unwrap();
    let written = decanonicalize_move(&b, mv("d1h1"), false);
    assert_eq!(written, mv("d1g1"));
    assert_eq!(canonicalize_move(&b, written, false), mv("d1g1"));
}

#[test]
fn the_rook_of_the_short_side_decides_the_file() {
    // Chess960 start 0 has rooks on F and H and the king on G.
    let b = Board::chess960_startpos(0);
    assert_eq!(decanonicalize_move(&b, mv("g1h1"), false), mv("g1g1"));
    assert_eq!(decanonicalize_move(&b, mv("g1f1"), false), mv("g1c1"));
    assert_eq!(decanonicalize_move(&b, mv("g1h1"), true), mv("g1h1"));
}

#[test]
fn the_position_command_lists_the_moves_as_written() {
    let mut game = ChessGame::new(castling_board());
    game.play(mv("e1h1"));
    game.play(mv("e8a8"));
    game.play(mv("g1g2"));
    let standard = game_to_position_message(&game, false);
    assert_eq!(
        standard,
        UciCommand::Position {
            init_pos: UciInitPos::Board(castling_board()),
            moves: vec![mv("e1g1"), mv("e8c8"), mv("g1g2")],
        }
    );
    let chess960 = game_to_position_message(&game, true);
    assert_eq!(
        chess960,
        UciCommand::Position {
            init_pos: UciInitPos::Board(castling_board()),
            moves: vec![mv("e1h1"), mv("e8a8"), mv("g1g2")],
        }
    );
}

#[test]
fn the_position_command_of_a_new_game_has_no_moves() {
    let game = ChessGame::new(Board::default());
    assert_eq!(
        game_to_position_message(&game, false),
        UciCommand::Position { init_pos: UciInitPos::Board(Board::default()), moves: vec![] }
    );
}

#[test]
fn replaying_the_position_command_gives_the_current_board() {
    let mut game = ChessGame::new(castling_board());
    for text in ["e1h1", "e8a8", "g1g2", "d8d5", "a1a7"] {
        assert!(game.try_play(mv(text)));
    }
    for chess960 in [false, true] {
        let command = game_to_position_message(&game, chess960);
        assert_eq!(&replay(&command, chess960), game.board());
    }
    let mut open = ChessGame::new(Board::default());
    for text in ["e2e4", "e7e5", "g1f3", "b8c6", "f1c4", "g8f6", "e1h1", "f8c5"] {
        assert!(open.try_play(mv(text)));
    }
    for chess960 in [false, true] {
        let command = game_to_position_message(&open, chess960);
        assert_eq!(&replay(&command, chess960), open.board());
    }
}

#[test]
fn replaying_a_chess960_game_needs_chess960() {
    let mut game = ChessGame::new(Board::chess960_startpos(0));
    for text in ["g2g3", "g7g6"] {
        assert!(game.try_play(mv(text)));
    }
    let command = game_to_position_message(&game, true);
    assert_eq!(&replay(&command, true), game.board());
}

#[test]
fn a_limit_without_parts_gives_a_bare_go() {
    let limit = AnalysisLimit { search_limit: None, time_limit: None };
    assert_eq!(
        analysis_limit_to_go_message(limit),
        UciCommand::Go(UciGoParams { depth: None, nodes: None, time_control: None })
    );
}

#[test]
fn depth_and_nodes_come_from_the_search_limit() {
    let limit = AnalysisLimit {
        search_limit: Some(AnalysisSearchLimit { nodes: Some(1_000_000), depth: Some(12) }),
        time_limit: None,
    };
    assert_eq!(
        analysis_limit_to_go_message(limit),
        UciCommand::Go(UciGoParams { depth: Some(12), nodes: Some(1_000_000), time_control: None })
    );
    let nodes_only = AnalysisLimit {
        search_limit: Some(AnalysisSearchLimit { nodes: Some(5), depth: None }),
        time_limit: Some(AnalysisTimeLimit::Infinite),
    };
    assert_eq!(
        analysis_limit_to_go_message(nodes_only),
        UciCommand::Go(UciGoParams {
            depth: None,
            nodes: Some(5),
            time_control: Some(UciTimeControl::Infinite),
        })
    );
}

#[test]
fn times_go_over_the_wire_in_milliseconds() {
    let limit = AnalysisLimit {
        search_limit: None,
        time_limit: Some(AnalysisTimeLimit::MoveTime(Duration::from_secs(5))),
    };
    assert_eq!(
        analysis_limit_to_go_message(limit),
        UciCommand::Go(UciGoParams {
            depth: None,
            nodes: None,
            time_control: Some(UciTimeControl::MoveTime(5_000)),
        })
    );
    let sub_millisecond = AnalysisLimit {
        search_limit: None,
        time_limit: Some(AnalysisTimeLimit::MoveTime(Duration::from_nanos(1_999_999))),
    };
    assert_eq!(
        analysis_limit_to_go_message(sub_millisecond),
        UciCommand::Go(UciGoParams {
            depth: None,
            nodes: None,
            time_control: Some(UciTimeControl::MoveTime(1)),
        })
    );
}

#[test]
fn time_left_is_mapped_field_by_field() {
    let limit = AnalysisLimit {
        search_limit: None,
        time_limit: Some(AnalysisTimeLimit::TimeLeft {
            white_time: Some(Duration::from_secs(60)),
            black_time: None,
            white_increment: Some(Duration::from_millis(500)),
            black_increment: Some(Duration::zero()),
            moves_to_go: Some(40),
        }),
    };
    assert_eq!(
        analysis_limit_to_go_message(limit),
        UciCommand::Go(UciGoParams {
            depth: None,
            nodes: None,
            time_control: Some(UciTimeControl::TimeLeft {
                white_time: Some(60_000),
                black_time: None,
                white_increment: Some(500),
                black_increment: Some(0),
                moves_to_go: Some(40),
            }),
        })
    );
}

#[test]
fn spans_too_long_for_the_wire_saturate() {
    let limit = AnalysisLimit {
        search_limit: None,
        time_limit: Some(AnalysisTimeLimit::TimeLeft {
            white_time: Some(Duration::max()),
            black_time: Some(Duration::from_millis(u64::MAX)),
            white_increment: Some(
                Duration::checked_from_nanos((u64::MAX as u128 + 1) * 1_000_000).unwrap(),
            ),
            black_increment: Some(Duration::from_millis(u64::MAX - 1)),
            moves_to_go: None,
        }),
    };
    assert_eq!(
        analysis_limit_to_go_message(limit),
        UciCommand::Go(UciGoParams {
            depth: None,
            nodes: None,
            time_control: Some(UciTimeControl::TimeLeft {
                white_time: Some(u64::MAX),
                black_time: Some(u64::MAX),
                white_increment: Some(u64::MAX),
                black_increment: Some(u64::MAX - 1),
                moves_to_go: None,
            }),
        })
    );
    let long_move = AnalysisLimit {
        search_limit: None,
        time_limit: Some(AnalysisTimeLimit::MoveTime(Duration::max())),
    };
    assert_eq!(
        analysis_limit_to_go_message(long_move),
        UciCommand::Go(UciGoParams {
            depth: None,
            nodes: None,
            time_control: Some(UciTimeControl::MoveTime(u64::MAX)),
        })
    );
}

#[test]
fn the_moves_of_a_standard_game_come_back_unchanged() {
    let mut game = ChessGame::new(Board::default());
    assert!(moves_round_trip(&game, false));
    for text in ["e2e4", "e7e5", "g1f3", "b8c6", "f1c4", "g8f6", "e1h1", "f8c5"] {
        assert!(game.try_play(mv(text)));
    }
    for chess960 in [false, true] {
        assert!(moves_round_trip(&game, chess960));
        let command = game_to_position_message(&game, chess960);
        assert_eq!(&replay(&command, chess960), game.board());
    }
}

#[test]
fn castling_with_the_king_off_the_e_file_does_not_come_back() {
    let start = Board::from_fen("r2k3r/8/8/8/8/8/8/R2K3R w HAha - 0 1", true).unwrap();
    let mut game = ChessGame::new(start);
    assert!(game.try_play(mv("a1a2")));
    assert!(moves_round_trip(&game, false));
    assert!(game.try_play(mv("d8h8")));
    assert!(!moves_round_trip(&game, false));
    assert!(moves_round_trip(&game, true));
    let command = game_to_position_message(&game, true);
    assert_eq!(&replay(&command, true), game.board());
    // Moves after the one that fails do not mend it.
    assert!(game.try_play(mv("a2a3")));
    assert!(!moves_round_trip(&game, false));
}
