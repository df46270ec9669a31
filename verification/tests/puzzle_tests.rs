use winnbot::commands::puzzle::{
    board_image_url, board_picture, pick_puzzle_id, puzzle_api_url, puzzle_setup, reaction,
    solution_caption, strip_move_marks, turn_caption, PuzzleOutcome, PuzzleSession, PuzzleSetup,
};

const ITALIAN: &str = "1. e4 e5 *";

fn setup_after_e4_e5(solution: &[&str]) -> PuzzleSetup {
    let moves: Vec<String> = solution.iter().map(|m| m.to_string()).collect();
    puzzle_setup(ITALIAN, &moves).expect("the game replays")
}

#[test]
fn setup_reads_the_last_position() {
    let setup = setup_after_e4_e5(&["g1f3", "b8c6", "f1b5"]);
    assert_eq!(setup.board_fen, "rnbqkbnr/pppp1ppp/8/4p3/4P3/8/PPPP1PPP/RNBQKBNR");
    assert!(setup.fen.starts_with("rnbqkbnr/pppp1ppp/8/4p3/4P3/8/PPPP1PPP/RNBQKBNR w "));
    assert!(setup.white_to_move);
    assert_eq!(setup.whose_turn, "White");
    assert_eq!(setup.solution_text, "g1f3 b8c6 f1b5");
    assert_eq!(setup.moves, vec!["g1f3", "b8c6", "f1b5"]);
}

#[test]
fn setup_refuses_a_game_without_moves() {
    assert!(puzzle_setup("*", &vec!["e2e4".to_string()]).is_none());
}

#[test]
fn move_marks_are_stripped() {
    assert_eq!(strip_move_marks("Ng1-f3"), "g1f3");
    assert_eq!(strip_move_marks("e2-e4"), "e2e4");
    assert_eq!(strip_move_marks("Bf1xb5"), "f1b5");
    assert_eq!(strip_move_marks("O-O"), "OO");
    assert_eq!(strip_move_marks("e7-e8=Q"), "e7e8=");
    let once = strip_move_marks("Qd1xh5");
    assert_eq!(strip_move_marks(&once), once);
}

#[test]
fn session_plays_the_solution() {
    let setup = setup_after_e4_e5(&["g1f3", "b8c6", "f1b5"]);
    let mut session = PuzzleSession::start(&setup).expect("legal position");
    assert!(!session.is_finished());
    assert_eq!(session.reply(false, "g1f3"), PuzzleOutcome::Ignored);
    assert_eq!(session.reply(true, "hello"), PuzzleOutcome::NotLegal);
    assert_eq!(session.reply(true, "a2a3"), PuzzleOutcome::Wrong);
    assert_eq!(session.board_fen(), "rnbqkbnr/pppp1ppp/8/4p3/4P3/8/PPPP1PPP/RNBQKBNR");
    assert_eq!(session.reply(true, "G1F3"), PuzzleOutcome::Advanced);
    assert_eq!(session.board_fen(), "r1bqkbnr/pppp1ppp/2n5/4p3/4P3/5N2/PPPP1PPP/RNBQKB1R");
    assert!(!session.is_finished());
    // The same message again is no longer legal.
    assert_eq!(session.reply(true, "g1f3"), PuzzleOutcome::NotLegal);
    assert_eq!(session.reply(true, "f1b5"), PuzzleOutcome::Solved);
    assert!(session.is_finished());
}

#[test]
fn session_fails_without_a_reply_move() {
    let setup = setup_after_e4_e5(&["g1f3", "b8c6"]);
    let mut session = PuzzleSession::start(&setup).unwrap();
    assert_eq!(session.reply(true, "g1f3"), PuzzleOutcome::Failed);
    assert!(session.is_finished());
}

#[test]
fn session_fails_on_an_illegal_reply() {
    let setup = setup_after_e4_e5(&["g1f3", "a1a8", "f1b5"]);
    let mut session = PuzzleSession::start(&setup).unwrap();
    assert_eq!(session.reply(true, "g1f3"), PuzzleOutcome::Failed);
}

#[test]
fn session_times_out() {
    let setup = setup_after_e4_e5(&["g1f3", "b8c6", "f1b5"]);
    let mut session = PuzzleSession::start(&setup).unwrap();
    assert_eq!(session.time_up(), PuzzleOutcome::TimedOut);
    assert!(session.is_finished());
}

#[test]
fn session_needs_a_solution() {
    let mut setup = setup_after_e4_e5(&["g1f3"]);
    setup.moves = Vec::new();
    assert!(PuzzleSession::start(&setup).is_none());
    setup.moves = vec!["g1f3".to_string()];
    setup.board_fen = "not a board".to_string();
    assert!(PuzzleSession::start(&setup).is_none());
}

#[test]
fn reactions() {
    assert_eq!(reaction(PuzzleOutcome::TimedOut), Some('⏰'));
    assert_eq!(reaction(PuzzleOutcome::NotLegal), Some('❓'));
    assert_eq!(reaction(PuzzleOutcome::Wrong), Some('❌'));
    assert_eq!(reaction(PuzzleOutcome::Advanced), Some('✅'));
    assert_eq!(reaction(PuzzleOutcome::Solved), Some('✅'));
    assert_eq!(reaction(PuzzleOutcome::Ignored), None);
}

#[test]
fn texts_and_addresses() {
    assert_eq!(puzzle_api_url("abc12"), "https://lichess.org/api/puzzle/abc12");
    assert_eq!(board_image_url("8/8/8/8/8/8/8/8 w - - 0 1"), "https://fen2image.chessvision.ai/8/8/8/8/8/8/8/8 w - - 0 1");
    assert_eq!(turn_caption("Black"), "Black to move.");
    assert_eq!(solution_caption("e2e4 e7e5"), "Solution: e2e4 e7e5");
}

#[test]
fn puzzle_ids_come_from_the_list() {
    assert_eq!(pick_puzzle_id(""), None);
    assert_eq!(pick_puzzle_id("only\n"), Some("only".to_string()));
    let id = pick_puzzle_id("a1\nb2\nc3").unwrap();
    assert!(["a1", "b2", "c3"].contains(&id.as_str()));
}

#[test]
fn board_picture_is_cropped_to_a_square() {
    assert!(board_picture(&vec![1, 2, 3]).is_none());
    let mut raw = Vec::new();
    let img = image::RgbImage::from_pixel(4, 6, image::Rgb([10, 20, 30]));
    image::DynamicImage::ImageRgb8(img)
        .write_to(&mut std::io::Cursor::new(&mut raw), image::ImageOutputFormat::Png)
        .unwrap();
    let png = board_picture(&raw).unwrap();
    let back = image::load_from_memory(&png).unwrap();
    assert_eq!((back.width(), back.height()), (4, 4));
}
