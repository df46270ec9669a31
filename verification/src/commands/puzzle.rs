//! Chess puzzles: choosing a puzzle, reading its starting position, and the
//! session in which a player plays the solution move by move.

use vstd::prelude::*;
use vstd::string::StringExecFns;
use crate::text::{
    chars_of, chars_eq, join, lemma_split_join, join_strings, lines_of, lowercase, split_chars, split_on,
    str_eq, string_of, text_lines, to_lowercase,
};
use rand::seq::SliceRandom;
use shakmaty::{FromSetup, Position};

verus! {

/// `rand::seq::SliceRandom::choose` with the thread's generator: one of the
/// lines, or `None` exactly when there is none. Which line it picks is left open.
#[verifier::external_body]
fn choose_random_line(lines: &Vec<String>) -> (r: Option<String>)
    ensures
        r is None <==> lines.len() == 0,
        r matches Some(s) ==> exists|i: int| 0 <= i < lines.len() && (#[trigger] lines[i])@ == s@,
{
    lines.choose(&mut rand::thread_rng()).cloned()
}

/// Picks the identifier of a puzzle: one line of the puzzle list, at random.
/// `None` exactly when the list has no line.
pub fn pick_puzzle_id(puzzle_list: &str) -> (r: Option<String>)
    ensures
        r is None <==> text_lines(puzzle_list@).len() == 0,
        r matches Some(id) ==> text_lines(puzzle_list@).contains(id@),
{
    let lines = lines_of(puzzle_list);
    let r = choose_random_line(&lines);
    if let Some(id) = &r {
        let ghost i = choose|i: int| 0 <= i < lines.len() && (#[trigger] lines[i])@ == id@;
        assert(text_lines(puzzle_list@)[i] == id@);
    }
    r
}

/// The address of a puzzle in the Lichess API.
pub fn puzzle_api_url(id: &str) -> (r: String)
    ensures
        r@ == "https://lichess.org/api/puzzle/"@ + id@,
{
    let mut r = String::from_str("https://lichess.org/api/puzzle/");
    r.append(id);
    r
}

/// The address of the rendered image of a position.
pub fn board_image_url(fen: &str) -> (r: String)
    ensures
        r@ == "https://fen2image.chessvision.ai/"@ + fen@,
{
    let mut r = String::from_str("https://fen2image.chessvision.ai/");
    r.append(fen);
    r
}

/// The caption of a puzzle image.
pub fn turn_caption(whose_turn: &str) -> (r: String)
    ensures
        r@ == whose_turn@ + " to move."@,
{
    let mut r = String::from_str(whose_turn);
    r.append(" to move.");
    r
}

/// The text that reveals a solution.
pub fn solution_caption(solution: &str) -> (r: String)
    ensures
        r@ == "Solution: "@ + solution@,
{
    let mut r = String::from_str("Solution: ");
    r.append(solution);
    r
}

/// The name for the FEN after the last move of a game in PGN, as `pgnparse`
/// replays it; `None` when it replays no move.
pub uninterp spec fn pgn_final_fen(pgn: Seq<char>) -> Option<Seq<char>>;

/// `pgnparse::parser::parse_pgn_to_rust_struct`, keeping the `fen_after` of
/// the last move. Its result is named by `pgn_final_fen`.
#[verifier::external_body]
fn final_fen_of_pgn(pgn: &str) -> (r: Option<String>)
    ensures
        match r {
            Some(f) => pgn_final_fen(pgn@) == Some(f@),
            None => pgn_final_fen(pgn@) is None,
        },
{
    pgnparse::parser::parse_pgn_to_rust_struct(pgn).moves.last().map(|m| m.fen_after.clone())
}

/// What a puzzle starts from.
pub struct PuzzleSetup {
    /// The full FEN of the starting position.
    pub fen: String,
    /// Its piece placement field.
    pub board_fen: String,
    /// Whether White moves first.
    pub white_to_move: bool,
    /// "White" or "Black".
    pub whose_turn: String,
    /// The solution's moves, separated by single spaces.
    pub solution_text: String,
    /// The solution's moves, in order.
    pub moves: Vec<String>,
}

/// The fields of a FEN, separated by single spaces.
pub open spec fn fen_fields(fen: Seq<char>) -> Seq<Seq<char>> {
    split_on(fen, seq![' '])
}

/// The name of the side to move for a FEN turn field: White for "w", Black otherwise.
pub open spec fn side_name(turn: Seq<char>) -> Seq<char> {
    if turn == "w"@ { "White"@ } else { "Black"@ }
}

/// The solution, as its moves joined by single spaces.
pub open spec fn solution_text_of(solution: Seq<String>) -> Seq<char> {
    join(solution.map_values(|m: String| m@), " "@)
}

/// Whether `s` is the setup of the puzzle of the game `pgn` with solution `solution`.
pub open spec fn is_setup_of(s: PuzzleSetup, pgn: Seq<char>, solution: Seq<String>) -> bool {
    let fen = pgn_final_fen(pgn).unwrap();
    let fields = fen_fields(fen);
    &&& s.fen@ == fen
    &&& s.board_fen@ == fields[0]
    &&& s.white_to_move == (fields[1] == "w"@)
    &&& s.whose_turn@ == side_name(fields[1])
    &&& s.solution_text@ == solution_text_of(solution)
    &&& s.moves@.map_values(|m: String| m@) == split_on(solution_text_of(solution), seq![' '])
}

/// The side named for a turn field is White exactly when the field is "w",
/// and Black otherwise; the two names differ.
pub proof fn lemma_side_name(turn: Seq<char>)
    ensures
        side_name(turn) == "White"@ <==> turn == "w"@,
        side_name(turn) == "Black"@ <==> turn != "w"@,
        side_name(turn) == "White"@ || side_name(turn) == "Black"@,
{
    reveal_strlit("White");
    reveal_strlit("Black");
    assert("White"@[0] != "Black"@[0]);
}

/// In a setup, the caption's side agrees with the side to move: it names
/// White exactly when White moves first, and Black otherwise.
pub proof fn lemma_setup_names_side_to_move(s: PuzzleSetup, pgn: Seq<char>, solution: Seq<String>)
    requires
        pgn_final_fen(pgn) is Some,
        fen_fields(pgn_final_fen(pgn).unwrap()).len() >= 2,
        is_setup_of(s, pgn, solution),
    ensures
        s.whose_turn@ == "White"@ <==> s.white_to_move,
        s.whose_turn@ == "Black"@ <==> !s.white_to_move,
        s.white_to_move <==> fen_fields(pgn_final_fen(pgn).unwrap())[1] == "w"@,
{
    lemma_side_name(fen_fields(pgn_final_fen(pgn).unwrap())[1]);
}

/// When no move of a non-empty solution holds a space, the moves of the setup
/// are exactly the solution's moves.
pub proof fn lemma_setup_keeps_solution(solution: Seq<String>)
    requires
        solution.len() >= 1,
        forall|i: int| 0 <= i < solution.len() ==> !(#[trigger] solution[i])@.contains(' '),
    ensures
        split_on(solution_text_of(solution), seq![' ']) == solution.map_values(|m: String| m@),
{
    let parts = solution.map_values(|m: String| m@);
    reveal_strlit(" ");
    assert(" "@ =~= seq![' ']);
    assert forall|i: int| 0 <= i < parts.len() implies !(#[trigger] parts[i]).contains(' ') by {
        assert(parts[i] == solution[i]@);
    }
    lemma_split_join(parts, ' ');
}

/// Reads the setup of a puzzle from its game and its solution. `None` when the
/// game replays no move or its last FEN has fewer than two fields.
pub fn puzzle_setup(pgn: &str, solution: &Vec<String>) -> (r: Option<PuzzleSetup>)
    ensures
        match r {
            Some(s) => pgn_final_fen(pgn@) is Some && fen_fields(pgn_final_fen(pgn@).unwrap()).len()
                >= 2 && is_setup_of(s, pgn@, solution@) && s.whose_turn@ == (if s.white_to_move {
                "White"@
            } else {
                "Black"@
            }),
            None => pgn_final_fen(pgn@) is None || fen_fields(pgn_final_fen(pgn@).unwrap()).len() < 2,
        },
{
    let fen = match final_fen_of_pgn(pgn) {
        Some(f) => f,
        None => {
            return None;
        },
    };
    let fv = chars_of(fen.as_str());
    let space = vec![' '];
    assert(space@ =~= seq![' ']);
    let fields = split_chars(&fv, &space);
    if fields.len() < 2 {
        return None;
    }
    let board_fen = string_of(&fields[0]);
    let turn = string_of(&fields[1]);
    let white = str_eq(turn.as_str(), "w");
    let whose_turn = if white {
        String::from_str("White")
    } else {
        String::from_str("Black")
    };
    proof {
        lemma_side_name(turn@);
    }
    let solution_text = join_strings(solution, " ");
    let sv = chars_of(solution_text.as_str());
    let pieces = split_chars(&sv, &space);
    let mut moves: Vec<String> = Vec::new();
    let mut i: usize = 0;
    while i < pieces.len()
        invariant
            i <= pieces.len(),
            moves.len() == i,
            forall|k: int| 0 <= k < i ==> #[trigger] moves[k]@ == pieces[k]@,
        decreases pieces.len() - i,
    {
        moves.push(string_of(&pieces[i]));
        i = i + 1;
    }
    assert(moves@.map_values(|m: String| m@) =~= split_on(sv@, seq![' ']));
    Some(PuzzleSetup { fen, board_fen, white_to_move: white, whose_turn, solution_text, moves })
}

/// Whether `c` is one of the characters that move labels lose: capture and
/// move marks and the letters of the pieces.
pub open spec fn is_move_mark(c: char) -> bool {
    c == 'x' || c == '-' || c == 'N' || c == 'B' || c == 'R' || c == 'Q' || c == 'K'
}

/// A move text without its marks, as players type moves (such as "e2e4").
pub open spec fn strip_marks(s: Seq<char>) -> Seq<char>
    decreases s.len(),
{
    if s.len() == 0 {
        s
    } else {
        let r = strip_marks(s.drop_last());
        if is_move_mark(s.last()) {
            r
        } else {
            r.push(s.last())
        }
    }
}

/// Removes every mark from a move text.
pub fn strip_move_marks(s: &str) -> (r: String)
    ensures
        r@ == strip_marks(s@),
        r@ == s@.filter(|c: char| kept_in_label(c)),
{
    proof {
        lemma_strip_marks_filter(s@);
    }
    let v = chars_of(s);
    let mut out: Vec<char> = Vec::new();
    let mut i: usize = 0;
    assert(v@.take(0) =~= Seq::<char>::empty());
    while i < v.len()
        invariant
            i <= v.len(),
            v@ == s@,
            out@ == strip_marks(v@.take(i as int)),
        decreases v.len() - i,
    {
        let c = v[i];
        assert(v@.take(i + 1).drop_last() =~= v@.take(i as int));
        if !(c == 'x' || c == '-' || c == 'N' || c == 'B' || c == 'R' || c == 'Q' || c == 'K') {
            out.push(c);
        }
        i = i + 1;
    }
    assert(v@.take(v@.len() as int) =~= v@);
    string_of(&out)
}

/// The characters that a move label keeps: all but x, -, N, B, R, Q and K.
pub open spec fn kept_in_label(c: char) -> bool {
    c != 'x' && c != '-' && c != 'N' && c != 'B' && c != 'R' && c != 'Q' && c != 'K'
}

/// A move label is its text with exactly the characters x, -, N, B, R, Q and K
/// removed, every other character kept in order.
pub proof fn lemma_strip_marks_filter(s: Seq<char>)
    ensures
        strip_marks(s) == s.filter(|c: char| kept_in_label(c)),
    decreases s.len(),
{
    reveal_with_fuel(Seq::<char>::filter, 1);
    if s.len() > 0 {
        lemma_strip_marks_filter(s.drop_last());
    }
}

/// No label of a legal move holds x, -, N, B, R, Q or K, and every character of
/// a move's text other than those stays in its label, in order.
pub proof fn lemma_legal_labels_are_plain(board: Seq<char>, white: bool)
    ensures
        legal_labels(board, white) matches Some(labels) ==> {
            let texts = legal_move_texts(board, white).unwrap();
            &&& labels.len() == texts.len()
            &&& forall|i: int|
                0 <= i < labels.len() ==> #[trigger] labels[i] == texts[i].filter(
                    |c: char| kept_in_label(c),
                )
            &&& forall|i: int, j: int|
                0 <= i < labels.len() && 0 <= j < labels[i].len() ==> {
                    let c = #[trigger] labels[i][j];
                    c != 'x' && c != '-' && c != 'N' && c != 'B' && c != 'R' && c != 'Q' && c != 'K'
                }
        },
{
    if let Some(texts) = legal_move_texts(board, white) {
        let labels = texts.map_values(|m: Seq<char>| strip_marks(m));
        assert forall|i: int| 0 <= i < labels.len() implies #[trigger] labels[i] == texts[i].filter(
            |c: char| kept_in_label(c),
        ) by {
            lemma_strip_marks_filter(texts[i]);
        }
        assert forall|i: int, j: int|
            0 <= i < labels.len() && 0 <= j < labels[i].len() implies kept_in_label(
            #[trigger] labels[i][j],
        ) by {
            lemma_strip_marks_filter(texts[i]);
            texts[i].filter_lemma(|c: char| kept_in_label(c));
        }
    }
}

/// A stripped move text holds no mark.
pub proof fn lemma_strip_marks_clean(s: Seq<char>)
    ensures
        forall|i: int| 0 <= i < strip_marks(s).len() ==> !is_move_mark(#[trigger] strip_marks(s)[i]),
    decreases s.len(),
{
    if s.len() > 0 {
        lemma_strip_marks_clean(s.drop_last());
        let r = strip_marks(s.drop_last());
        if !is_move_mark(s.last()) {
            assert forall|i: int| 0 <= i < r.push(s.last()).len() implies !is_move_mark(
                #[trigger] r.push(s.last())[i],
            ) by {
                if i < r.len() {
                    assert(r.push(s.last())[i] == r[i]);
                }
            }
        }
    }
}

proof fn lemma_strip_marks_of_clean(s: Seq<char>)
    requires
        forall|i: int| 0 <= i < s.len() ==> !is_move_mark(#[trigger] s[i]),
    ensures
        strip_marks(s) == s,
    decreases s.len(),
{
    if s.len() > 0 {
        assert forall|i: int| 0 <= i < s.drop_last().len() implies !is_move_mark(
            #[trigger] s.drop_last()[i],
        ) by {
            assert(s.drop_last()[i] == s[i]);
        }
        lemma_strip_marks_of_clean(s.drop_last());
        assert(s.drop_last().push(s.last()) =~= s);
    }
}

/// Stripping the marks of a move text a second time changes nothing.
pub proof fn lemma_strip_marks_idempotent(s: Seq<char>)
    ensures
        strip_marks(strip_marks(s)) == strip_marks(s),
{
    lemma_strip_marks_clean(s);
    lemma_strip_marks_of_clean(strip_marks(s));
}


/// The name for the texts of the legal moves, as `shakmaty` displays them, of
/// the standard chess position with piece placement `board` and side to move
/// `white` (no castling rights, no en passant square); `None` when `board` is
/// not a valid piece placement or the position is not a legal one.
pub uninterp spec fn legal_move_texts(board: Seq<char>, white: bool) -> Option<Seq<Seq<char>>>;

/// `shakmaty`: `Board::from_ascii_board_fen`, then `Chess::from_setup` with
/// standard castling, then `Position::legal_moves`, each move shown by its
/// `Display`. Its result is named by `legal_move_texts`.
#[verifier::external_body]
fn chess_legal_move_texts(board_fen: &str, white: bool) -> (r: Option<Vec<String>>)
    ensures
        match r {
            Some(v) => legal_move_texts(board_fen@, white) == Some(v@.map_values(|m: String| m@)),
            None => legal_move_texts(board_fen@, white) is None,
        },
{
    let board = shakmaty::Board::from_ascii_board_fen(board_fen.as_bytes()).ok()?;
    let mut setup = shakmaty::Setup::empty();
    setup.board = board;
    setup.turn = if white { shakmaty::Color::White } else { shakmaty::Color::Black };
    let pos = shakmaty::Chess::from_setup(setup, shakmaty::CastlingMode::Standard).ok()?;
    Some(pos.legal_moves().iter().map(|m| m.to_string()).collect())
}

/// The name for the piece placement, as `shakmaty` writes it, after the moves
/// `first` and then `second`, given in UCI notation, are played from the
/// position that `legal_move_texts` speaks of; `None` when that position is not
/// legal or a move does not parse or is not legal where it is played.
pub uninterp spec fn board_after_moves(
    board: Seq<char>,
    white: bool,
    first: Seq<char>,
    second: Seq<char>,
) -> Option<Seq<char>>;

/// `shakmaty`: the position as in `chess_legal_move_texts`, then for each move
/// `Uci::from_str`, `Uci::to_move` and `Position::play_unchecked`, then
/// `Board::board_fen` of the result. Its result is named by `board_after_moves`.
#[verifier::external_body]
fn chess_board_after(board_fen: &str, white: bool, first: &str, second: &str) -> (r: Option<
    String,
>)
    ensures
        match r {
            Some(b) => board_after_moves(board_fen@, white, first@, second@) == Some(b@),
            None => board_after_moves(board_fen@, white, first@, second@) is None,
        },
{
    let board = shakmaty::Board::from_ascii_board_fen(board_fen.as_bytes()).ok()?;
    let mut setup = shakmaty::Setup::empty();
    setup.board = board;
    setup.turn = if white { shakmaty::Color::White } else { shakmaty::Color::Black };
    let mut pos = shakmaty::Chess::from_setup(setup, shakmaty::CastlingMode::Standard).ok()?;
    let m1 = first.parse::<shakmaty::uci::Uci>().ok()?.to_move(&pos).ok()?;
    pos.play_unchecked(&m1);
    let m2 = second.parse::<shakmaty::uci::Uci>().ok()?.to_move(&pos).ok()?;
    pos.play_unchecked(&m2);
    Some(pos.board().board_fen(pos.promoted()).to_string())
}

/// The legal moves of a position as players type them: the move texts
/// without their marks.
pub open spec fn legal_labels(board: Seq<char>, white: bool) -> Option<Seq<Seq<char>>> {
    match legal_move_texts(board, white) {
        Some(v) => Some(v.map_values(|m: Seq<char>| strip_marks(m))),
        None => None,
    }
}

fn legal_labels_of(board_fen: &str, white: bool) -> (r: Option<Vec<String>>)
    ensures
        match r {
            Some(v) => legal_labels(board_fen@, white) == Some(v@.map_values(|m: String| m@)),
            None => legal_labels(board_fen@, white) is None,
        },
{
    let texts = match chess_legal_move_texts(board_fen, white) {
        Some(t) => t,
        None => {
            return None;
        },
    };
    let ghost tv = texts@.map_values(|m: String| m@);
    let mut out: Vec<String> = Vec::new();
    let mut i: usize = 0;
    while i < texts.len()
        invariant
            i <= texts.len(),
            tv == texts@.map_values(|m: String| m@),
            out.len() == i,
            forall|k: int| 0 <= k < i ==> #[trigger] out[k]@ == strip_marks(tv[k]),
        decreases texts.len() - i,
    {
        out.push(strip_move_marks(texts[i].as_str()));
        i = i + 1;
    }
    assert(out@.map_values(|m: String| m@) =~= tv.map_values(|m: Seq<char>| strip_marks(m)));
    Some(out)
}

/// How the session answered an event.
#[derive(PartialEq, Eq, Structural, Clone, Copy, Debug)]
pub enum PuzzleOutcome {
    /// Time ran out; the session is over.
    TimedOut,
    /// The message was not the player's.
    Ignored,
    /// The message is not a legal move.
    NotLegal,
    /// A legal move that is not the solution's.
    Wrong,
    /// The last move of the solution; the session is over.
    Solved,
    /// The solution's move; the reply has been played and the player moves again.
    Advanced,
    /// The solution cannot be played on (a move is missing, does not parse or
    /// is not legal); the session is over.
    Failed,
}

/// The state of a puzzle session.
pub struct SessionView {
    /// The piece placement of the position the player moves in.
    pub board: Seq<char>,
    /// The player's side (it moves in every position the player sees).
    pub white: bool,
    /// The solution's moves still to be played; the first is the player's next.
    pub remaining: Seq<Seq<char>>,
    /// The legal moves of the position, as players type them.
    pub legal: Seq<Seq<char>>,
    /// Whether the session is over.
    pub finished: bool,
}

/// Whether a session state is consistent: while it runs, a move of the
/// solution remains and `legal` lists the legal moves of its position.
pub open spec fn session_wf(s: SessionView) -> bool {
    !s.finished ==> s.remaining.len() >= 1 && legal_labels(s.board, s.white) == Some(s.legal)
}

/// The state that a session ends in.
pub open spec fn ended(s: SessionView) -> SessionView {
    SessionView { finished: true, ..s }
}

/// What a running session does with a message: `from_player` tells whether
/// its author is the player, `content` is its text.
pub open spec fn reply_step(s: SessionView, from_player: bool, content: Seq<char>) -> (
    SessionView,
    PuzzleOutcome,
) {
    let m = lowercase(content);
    if !from_player {
        (s, PuzzleOutcome::Ignored)
    } else if !s.legal.contains(m) {
        (s, PuzzleOutcome::NotLegal)
    } else if m != s.remaining[0] {
        (s, PuzzleOutcome::Wrong)
    } else {
        let rest = s.remaining.drop_first();
        if rest.len() == 0 {
            (SessionView { remaining: rest, finished: true, ..s }, PuzzleOutcome::Solved)
        } else if rest.len() == 1 {
            (ended(s), PuzzleOutcome::Failed)
        } else {
            match board_after_moves(s.board, s.white, m, rest[0]) {
                None => (ended(s), PuzzleOutcome::Failed),
                Some(b) => match legal_labels(b, s.white) {
                    None => (ended(s), PuzzleOutcome::Failed),
                    Some(l) => (
                        SessionView { board: b, remaining: rest.drop_first(), legal: l, ..s },
                        PuzzleOutcome::Advanced,
                    ),
                },
            }
        }
    }
}

/// A running or finished puzzle session.
pub struct PuzzleSession {
    board_fen: String,
    white: bool,
    remaining: Vec<String>,
    legal: Vec<String>,
    finished: bool,
}

impl View for PuzzleSession {
    type V = SessionView;

    closed spec fn view(&self) -> SessionView {
        SessionView {
            board: self.board_fen@,
            white: self.white,
            remaining: self.remaining@.map_values(|m: String| m@),
            legal: self.legal@.map_values(|m: String| m@),
            finished: self.finished,
        }
    }
}

fn clone_str(s: &String) -> (r: String)
    ensures
        r@ == s@,
{
    s.clone()
}

fn clone_strings(v: &Vec<String>) -> (r: Vec<String>)
    ensures
        r@.map_values(|m: String| m@) == v@.map_values(|m: String| m@),
{
    let mut out: Vec<String> = Vec::new();
    let mut i: usize = 0;
    while i < v.len()
        invariant
            i <= v.len(),
            out.len() == i,
            forall|k: int| 0 <= k < i ==> #[trigger] out[k]@ == v[k]@,
        decreases v.len() - i,
    {
        out.push(clone_str(&v[i]));
        i = i + 1;
    }
    assert(out@.map_values(|m: String| m@) =~= v@.map_values(|m: String| m@));
    out
}

impl PuzzleSession {
    /// Starts the session of a puzzle. `None` when the starting position is not
    /// a legal one or the solution is empty.
    pub fn start(setup: &PuzzleSetup) -> (r: Option<PuzzleSession>)
        ensures
            match r {
                Some(s) => {
                    &&& s@.board == setup.board_fen@
                    &&& s@.white == setup.white_to_move
                    &&& s@.remaining == setup.moves@.map_values(|m: String| m@)
                    &&& !s@.finished
                    &&& session_wf(s@)
                },
                None => legal_labels(setup.board_fen@, setup.white_to_move) is None
                    || setup.moves.len() == 0,
            },
    {
        let legal = match legal_labels_of(setup.board_fen.as_str(), setup.white_to_move) {
            Some(l) => l,
            None => {
                return None;
            },
        };
        if setup.moves.len() == 0 {
            return None;
        }
        Some(
            PuzzleSession {
                board_fen: clone_str(&setup.board_fen),
                white: setup.white_to_move,
                remaining: clone_strings(&setup.moves),
                legal,
                finished: false,
            },
        )
    }

    /// Whether the session is over.
    pub fn is_finished(&self) -> (b: bool)
        ensures
            b == self@.finished,
    {
        self.finished
    }

    /// The piece placement of the position the player moves in.
    pub fn board_fen(&self) -> (r: &str)
        ensures
            r@ == self@.board,
    {
        self.board_fen.as_str()
    }

    /// Ends the session because time ran out.
    pub fn time_up(&mut self) -> (o: PuzzleOutcome)
        requires
            session_wf(old(self)@),
            !old(self)@.finished,
        ensures
            final(self)@ == ended(old(self)@),
            o == PuzzleOutcome::TimedOut,
            session_wf(final(self)@),
    {
        self.finished = true;
        PuzzleOutcome::TimedOut
    }

    /// Answers a message of the channel.
    pub fn reply(&mut self, from_player: bool, content: &str) -> (o: PuzzleOutcome)
        requires
            session_wf(old(self)@),
            !old(self)@.finished,
        ensures
            (final(self)@, o) == reply_step(old(self)@, from_player, content@),
            session_wf(final(self)@),
    {
        if !from_player {
            return PuzzleOutcome::Ignored;
        }
        let m = to_lowercase(content);
        let ghost lv = self.legal@.map_values(|x: String| x@);
        let ghost rv = self.remaining@.map_values(|x: String| x@);
        let mut found = false;
        let mut i: usize = 0;
        while i < self.legal.len()
            invariant
                i <= self.legal.len(),
                lv == self.legal@.map_values(|x: String| x@),
                found == exists|k: int| 0 <= k < i && lv[k] == m@,
            decreases self.legal.len() - i,
        {
            assert(lv[i as int] == self.legal[i as int]@);
            if str_eq(self.legal[i].as_str(), m.as_str()) {
                found = true;
            }
            i = i + 1;
            assert(found == exists|k: int| 0 <= k < i && lv[k] == m@) by {
                if found {
                    let k0 = choose|k: int| 0 <= k < i && lv[k] == m@;
                }
            }
        }
        if !found {
            assert(!lv.contains(m@));
            return PuzzleOutcome::NotLegal;
        }
        assert(lv.contains(m@));
        assert(rv[0] == self.remaining[0]@);
        if !str_eq(m.as_str(), self.remaining[0].as_str()) {
            return PuzzleOutcome::Wrong;
        }
        let n = self.remaining.len();
        if n == 1 {
            self.remaining = Vec::new();
            assert(self.remaining@.map_values(|x: String| x@) =~= rv.drop_first());
            self.finished = true;
            return PuzzleOutcome::Solved;
        }
        if n == 2 {
            self.finished = true;
            return PuzzleOutcome::Failed;
        }
        let next_board = match chess_board_after(
            self.board_fen.as_str(),
            self.white,
            m.as_str(),
            self.remaining[1].as_str(),
        ) {
            Some(b) => b,
            None => {
                self.finished = true;
                return PuzzleOutcome::Failed;
            },
        };
        let next_legal = match legal_labels_of(next_board.as_str(), self.white) {
            Some(l) => l,
            None => {
                self.finished = true;
                return PuzzleOutcome::Failed;
            },
        };
        let mut rest: Vec<String> = Vec::new();
        let mut j: usize = 2;
        while j < n
            invariant
                2 <= j <= n,
                n == self.remaining.len(),
                rv == self.remaining@.map_values(|x: String| x@),
                rest.len() == j - 2,
                forall|k: int| 0 <= k < j - 2 ==> #[trigger] rest[k]@ == rv[k + 2],
            decreases n - j,
        {
            rest.push(clone_str(&self.remaining[j]));
            j = j + 1;
        }
        assert(rest@.map_values(|x: String| x@) =~= rv.drop_first().drop_first());
        self.board_fen = next_board;
        self.remaining = rest;
        self.legal = next_legal;
        PuzzleOutcome::Advanced
    }
}


/// Only the player's expected move, when it is legal, changes a running session:
/// any other message leaves it as it was. Such a move solves the puzzle exactly
/// when it is the solution's last move; when it plays on instead, the reply is
/// played and two moves fewer remain. Every step keeps the session consistent.
pub proof fn lemma_reply_progress(s: SessionView, from_player: bool, content: Seq<char>)
    requires
        session_wf(s),
        !s.finished,
    ensures
        ({
            let (t, o) = reply_step(s, from_player, content);
            &&& (o == PuzzleOutcome::Ignored || o == PuzzleOutcome::NotLegal || o
                == PuzzleOutcome::Wrong) ==> t == s
            &&& (o == PuzzleOutcome::Solved) <==> (from_player && s.legal.contains(lowercase(content))
                && lowercase(content) == s.remaining[0] && s.remaining.len() == 1)
            &&& o == PuzzleOutcome::Solved ==> t.finished && t.remaining.len() == 0
            &&& o == PuzzleOutcome::Advanced ==> !t.finished && t.remaining == s.remaining.skip(2)
                && t.remaining.len() >= 1
            &&& session_wf(t)
        }),
{
    let m = lowercase(content);
    if from_player && s.legal.contains(m) && m == s.remaining[0] && s.remaining.len() > 2 {
        assert(s.remaining.drop_first().drop_first() =~= s.remaining.skip(2));
    }
}

/// The name for the PNG image that `image` makes of the top of the picture in
/// `bytes`, cut to be as high as it is wide (kept whole when it is lower than
/// that); `None` when the bytes do not decode.
pub uninterp spec fn top_square_png(bytes: Seq<u8>) -> Option<Seq<u8>>;

/// `image::load_from_memory`, then `DynamicImage::crop_imm` at the top left
/// with the picture's width as both width and height (which `crop_imm` clamps),
/// then `DynamicImage::write_to` as PNG. Its result is named by `top_square_png`.
#[verifier::external_body]
fn crop_top_square(bytes: &Vec<u8>) -> (r: Option<Vec<u8>>)
    ensures
        match r {
            Some(v) => top_square_png(bytes@) == Some(v@),
            None => top_square_png(bytes@) is None,
        },
{
    let img = image::load_from_memory(bytes.as_slice()).ok()?;
    let width = image::GenericImageView::width(&img);
    let mut out = std::io::Cursor::new(Vec::new());
    img.crop_imm(0, 0, width, width).write_to(&mut out, image::ImageOutputFormat::Png).ok()?;
    Some(out.into_inner())
}

/// The picture of a board as the puzzle shows it: the top of the rendered
/// image, cut to a square, as PNG. `None` when the rendered image does not decode.
pub fn board_picture(rendered: &Vec<u8>) -> (r: Option<Vec<u8>>)
    ensures
        match r {
            Some(v) => top_square_png(rendered@) == Some(v@),
            None => top_square_png(rendered@) is None,
        },
{
    crop_top_square(rendered)
}


/// The reaction that marks how the session answered: an alarm clock when time
/// ran out, a question mark for a move that is not legal, a cross for a wrong
/// move, a check mark for a correct one, none otherwise.
pub open spec fn reaction_spec(o: PuzzleOutcome) -> Option<char> {
    match o {
        PuzzleOutcome::TimedOut => Some('⏰'),
        PuzzleOutcome::NotLegal => Some('❓'),
        PuzzleOutcome::Wrong => Some('❌'),
        PuzzleOutcome::Solved => Some('✅'),
        PuzzleOutcome::Advanced => Some('✅'),
        PuzzleOutcome::Ignored => None,
        PuzzleOutcome::Failed => None,
    }
}

/// The reaction that marks how the session answered.
pub fn reaction(o: PuzzleOutcome) -> (r: Option<char>)
    ensures
        r == reaction_spec(o),
{
    match o {
        PuzzleOutcome::TimedOut => Some('⏰'),
        PuzzleOutcome::NotLegal => Some('❓'),
        PuzzleOutcome::Wrong => Some('❌'),
        PuzzleOutcome::Solved => Some('✅'),
        PuzzleOutcome::Advanced => Some('✅'),
        PuzzleOutcome::Ignored => None,
        PuzzleOutcome::Failed => None,
    }
}

/// The title of the answer while another puzzle runs.
pub fn busy_title() -> (r: String)
    ensures
        r@ == "Puzzle already in progress"@,
{
    String::from_str("Puzzle already in progress")
}

/// The text of the answer while another puzzle runs.
pub fn busy_text() -> (r: String)
    ensures
        r@ == "Solve the puzzle or wait for the timeout (30s)"@,
{
    String::from_str("Solve the puzzle or wait for the timeout (30s)")
}

/// The title of a puzzle image.
pub fn puzzle_title() -> (r: String)
    ensures
        r@ == "Puzzle"@,
{
    String::from_str("Puzzle")
}

/// The title shown when time runs out.
pub fn timeout_title() -> (r: String)
    ensures
        r@ == "Time's up!"@,
{
    String::from_str("Time's up!")
}

/// The title shown when the puzzle is solved.
pub fn solved_title() -> (r: String)
    ensures
        r@ == "Correct!"@,
{
    String::from_str("Correct!")
}

/// How many seconds a player has for a puzzle.
pub const TIME_LIMIT_SECONDS: u64 = 90;

} // verus!
