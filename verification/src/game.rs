//! Positions, games, moves and the trusted boundary to the `chess` crate.
//!
//! A [`Position`] wraps a `chess::Board`. The board itself is opaque to the
//! verifier; everything the engine reads out of it — occupancy, side to
//! move, status, the legal-move list, the Zobrist key — is reached through
//! small trusted wrappers whose contracts are stated over uninterpreted
//! names of the board value. All logic above those wrappers is verified.

use vstd::prelude::*;

verus! {

#[verifier::external_type_specification]
#[verifier::external_body]
pub struct ExBoard(chess::Board);

#[verifier::external_type_specification]
#[verifier::external_body]
pub struct ExGame(chess::Game);

/// The side to move or the owner of a piece.
#[derive(Clone, Copy, PartialEq, Eq, Structural, Debug)]
pub enum Color {
    White,
    Black,
}

impl Color {
    pub open spec fn is_white(self) -> bool {
        self is White
    }

    /// Whether this is the white side.
    pub fn is_white_exec(self) -> (r: bool)
        ensures
            r == self.is_white(),
    {
        match self {
            Color::White => true,
            Color::Black => false,
        }
    }

    /// The opposite color.
    pub fn other(self) -> (r: Color)
        ensures
            r.is_white() == !self.is_white(),
    {
        match self {
            Color::White => Color::Black,
            Color::Black => Color::White,
        }
    }
}

/// A piece role, ordered as the `chess` crate orders them.
#[derive(Clone, Copy, PartialEq, Eq, Structural, Debug)]
pub enum Piece {
    Pawn,
    Knight,
    Bishop,
    Rook,
    Queen,
    King,
}

impl Piece {
    /// The role's index: 0 for a pawn through 5 for a king.
    pub open spec fn index_spec(self) -> int {
        match self {
            Piece::Pawn => 0,
            Piece::Knight => 1,
            Piece::Bishop => 2,
            Piece::Rook => 3,
            Piece::Queen => 4,
            Piece::King => 5,
        }
    }

    pub fn index(self) -> (r: u8)
        ensures
            r == self.index_spec(),
    {
        match self {
            Piece::Pawn => 0,
            Piece::Knight => 1,
            Piece::Bishop => 2,
            Piece::Rook => 3,
            Piece::Queen => 4,
            Piece::King => 5,
        }
    }
}

/// The promotion index used by the 16-bit move encoding: 0 for none and
/// 1 through 4 for the promotion pieces in the fixed order queen, knight,
/// rook, bishop.
pub open spec fn promotion_index(p: Option<Piece>) -> int {
    match p {
        Option::None => 0,
        Option::Some(Piece::Queen) => 1,
        Option::Some(Piece::Knight) => 2,
        Option::Some(Piece::Rook) => 3,
        Option::Some(Piece::Bishop) => 4,
        Option::Some(Piece::Pawn) => 5,
        Option::Some(Piece::King) => 6,
    }
}

/// A chess move: a source square, a destination square, and an optional
/// promotion piece.
#[derive(Clone, Copy, PartialEq, Eq, Debug)]
pub struct Move {
    pub source: u8,
    pub dest: u8,
    pub promotion: Option<Piece>,
}

impl Move {
    /// A well-formed move: squares on the board, and a promotion, when
    /// present, to one of the four promotion pieces.
    pub open spec fn wf(self) -> bool {
        &&& self.source < 64
        &&& self.dest < 64
        &&& promotion_index(self.promotion) <= 4
    }

    /// The move's 16-bit code: `(source * 64 + dest) * 5 + promotion`.
    pub open spec fn code(self) -> int {
        (self.source * 64 + self.dest) * 5 + promotion_index(self.promotion)
    }

    /// Whether the move is well-formed.
    pub fn is_wf(&self) -> (r: bool)
        ensures
            r == self.wf(),
    {
        self.source < 64 && self.dest < 64 && match self.promotion {
            Option::None => true,
            Option::Some(Piece::Queen) => true,
            Option::Some(Piece::Knight) => true,
            Option::Some(Piece::Rook) => true,
            Option::Some(Piece::Bishop) => true,
            _ => false,
        }
    }

    pub fn new(source: u8, dest: u8, promotion: Option<Piece>) -> (r: Move)
        ensures
            r.source == source,
            r.dest == dest,
            r.promotion == promotion,
    {
        Move { source, dest, promotion }
    }
}

/// The game-over state of a position.
#[derive(Clone, Copy, PartialEq, Eq, Structural, Debug)]
pub enum BoardStatus {
    Ongoing,
    Stalemate,
    Checkmate,
}

impl BoardStatus {
    pub open spec fn code_spec(self) -> int {
        match self {
            BoardStatus::Ongoing => 0,
            BoardStatus::Stalemate => 1,
            BoardStatus::Checkmate => 2,
        }
    }
}

/// How a finished game ended.
#[derive(Clone, Copy, PartialEq, Eq, Structural, Debug)]
pub enum GameResult {
    WhiteCheckmates,
    WhiteResigns,
    BlackCheckmates,
    BlackResigns,
    Stalemate,
    DrawAccepted,
    DrawDeclared,
}

/// An action a player can take on a [`ChessGame`].
#[derive(Clone, Copy, PartialEq, Eq, Debug)]
pub enum Action {
    MakeMove(Move),
    OfferDraw(Color),
    AcceptDraw,
    DeclareDraw,
    Resign(Color),
}

// Names for what the `chess` crate computes from a board value. Each is a
// pure function of the board alone; the wrappers below say how the crate's
// calls relate to them.

/// The board's 64-bit Zobrist key, as `chess::Board::get_hash` returns it.
pub uninterp spec fn zobrist_key(b: chess::Board) -> u64;

/// Whether White is to move, as `chess::Board::side_to_move` reports.
pub uninterp spec fn white_to_move(b: chess::Board) -> bool;

/// The status `chess::Board::status` reports: 0 ongoing, 1 stalemate,
/// 2 checkmate.
pub uninterp spec fn status_of(b: chess::Board) -> int;

/// Whether the side to move is in check, as `chess::Board::checkers`
/// being non-empty reports.
pub uninterp spec fn in_check_of(b: chess::Board) -> bool;

/// The role index (0 pawn .. 5 king) of the piece on a square, if any, as
/// `chess::Board::piece_on` reports.
pub uninterp spec fn piece_code_at(b: chess::Board, sq: int) -> Option<int>;

/// The color of the piece on a square, if any (`true` for white), as
/// `chess::Board::color_on` reports.
pub uninterp spec fn color_white_at(b: chess::Board, sq: int) -> Option<bool>;

/// The codes of the legal moves of the board, in the order
/// `chess::MoveGen::new_legal` enumerates them.
pub uninterp spec fn legal_codes(b: chess::Board) -> Seq<int>;

/// The number of pieces on the board, as the population count of
/// `chess::Board::combined` reports.
pub uninterp spec fn piece_total(b: chess::Board) -> u64;

/// The castle rights of a side, as `chess::Board::castle_rights` reports:
/// 0 none, 1 king side, 2 queen side, 3 both.
pub uninterp spec fn castle_code(b: chess::Board, white: bool) -> int;

/// The en-passant file (0..8), if an en-passant square is set, as
/// `chess::Board::en_passant` reports.
pub uninterp spec fn ep_file_of(b: chess::Board) -> Option<int>;

/// The current board of a game — its start position with its moves
/// applied — as `chess::Game::current_position` reports.
pub uninterp spec fn game_board(g: chess::Game) -> chess::Board;

/// The board a legal move code leads to, as `chess::Board::make_move_new`
/// computes it: a function of the board and the move alone.
pub uninterp spec fn moved_board(b: chess::Board, code: int) -> chess::Board;

/// The board the null move leads to when the side to move is not in
/// check, as `chess::Board::null_move` computes it.
pub uninterp spec fn null_board(b: chess::Board) -> chess::Board;

/// What a FEN string parses to, as `chess::Board::from_str` computes it:
/// a function of the string alone, `None` on a malformed string.
pub uninterp spec fn parsed_fen(s: Seq<char>) -> Option<chess::Board>;

/// The game a move action leads to, as `chess::Game::make_move` computes
/// it (the game is unchanged when the move is illegal or the game over).
pub uninterp spec fn game_after_move(g: chess::Game, code: int) -> chess::Game;

/// The game after a draw offer, as `chess::Game::offer_draw` computes it.
pub uninterp spec fn game_after_offer(g: chess::Game, white: bool) -> chess::Game;

/// The game after accepting a draw, as `chess::Game::accept_draw`
/// computes it.
pub uninterp spec fn game_after_accept(g: chess::Game) -> chess::Game;

/// The game after declaring a draw, as `chess::Game::declare_draw`
/// computes it.
pub uninterp spec fn game_after_declare(g: chess::Game) -> chess::Game;

/// The game after a resignation, as `chess::Game::resign` computes it.
pub uninterp spec fn game_after_resign(g: chess::Game, white: bool) -> chess::Game;

/// The result a game reports, as `chess::Game::result` computes it: 0
/// while the game runs, else 1 through 7 in the order of [`GameResult`].
pub uninterp spec fn game_result_code(g: chess::Game) -> int;

/// The piece of the standard starting position on a square.
pub open spec fn start_role_at(sq: int) -> Option<int> {
    let r = sq / 8;
    let f = sq % 8;
    if r == 1 || r == 6 {
        Option::Some(0int)
    } else if r == 0 || r == 7 {
        if f == 0 || f == 7 {
            Option::Some(3int)
        } else if f == 1 || f == 6 {
            Option::Some(1int)
        } else if f == 2 || f == 5 {
            Option::Some(2int)
        } else if f == 3 {
            Option::Some(4int)
        } else {
            Option::Some(5int)
        }
    } else {
        Option::None
    }
}

/// The owner of a square in the standard starting position.
pub open spec fn start_color_at(sq: int) -> Option<bool> {
    if 0 <= sq < 16 {
        Option::Some(true)
    } else if 48 <= sq < 64 {
        Option::Some(false)
    } else {
        Option::None
    }
}

/// A board holding the standard starting position, White to move.
pub open spec fn is_start_board(b: chess::Board) -> bool {
    &&& white_to_move(b)
    &&& status_of(b) == 0
    &&& !in_check_of(b)
    &&& forall|sq: int| 0 <= sq < 64 ==> #[trigger] piece_code_at(b, sq) == start_role_at(sq)
    &&& forall|sq: int| 0 <= sq < 64 ==> #[trigger] color_white_at(b, sq) == start_color_at(sq)
}

/// What a game result decodes to.
pub open spec fn result_of_code(code: int) -> Option<GameResult> {
    if code == 1 {
        Option::Some(GameResult::WhiteCheckmates)
    } else if code == 2 {
        Option::Some(GameResult::WhiteResigns)
    } else if code == 3 {
        Option::Some(GameResult::BlackCheckmates)
    } else if code == 4 {
        Option::Some(GameResult::BlackResigns)
    } else if code == 5 {
        Option::Some(GameResult::Stalemate)
    } else if code == 6 {
        Option::Some(GameResult::DrawAccepted)
    } else if code == 7 {
        Option::Some(GameResult::DrawDeclared)
    } else {
        Option::None
    }
}

/// The game an action leads to.
pub open spec fn game_after_action(g: chess::Game, action: Action) -> chess::Game {
    match action {
        Action::MakeMove(m) => game_after_move(g, m.code()),
        Action::OfferDraw(c) => game_after_offer(g, c.is_white()),
        Action::AcceptDraw => game_after_accept(g),
        Action::DeclareDraw => game_after_declare(g),
        Action::Resign(c) => game_after_resign(g, c.is_white()),
    }
}

/// Whether a move captures: its destination holds a piece of the side not
/// to move. (The en-passant capture has an empty destination square and
/// does not count here, matching the capture mask the move sorter uses.)
pub open spec fn is_capture_move(b: chess::Board, m: Move) -> bool {
    color_white_at(b, m.dest as int) == Option::Some(!white_to_move(b))
}

/// What the legal-move list promises of each move in it: the moving piece
/// stands on the source square and belongs to the side to move, and a
/// capture's destination is occupied.
pub open spec fn legal_move_facts(b: chess::Board, m: Move) -> bool {
    &&& piece_code_at(b, m.source as int) is Some
    &&& color_white_at(b, m.source as int) == Option::Some(white_to_move(b))
    &&& is_capture_move(b, m) ==> piece_code_at(b, m.dest as int) is Some
}

/// A chess position: a board plus nothing else. The engine reads it only
/// through the trusted wrappers below.
#[derive(Clone, Copy)]
pub struct Position {
    board: chess::Board,
}

impl Position {
    /// The wrapped board value, for contracts.
    pub closed spec fn b(self) -> chess::Board {
        self.board
    }

    /// Relies on `chess::Board::default`: the standard starting position
    /// — the familiar two ranks a side, White to move, ongoing, not in
    /// check.
    #[verifier::external_body]
    pub fn initial() -> (r: Position)
        ensures
            is_start_board(r.b()),
    {
        Position { board: chess::Board::default() }
    }

    /// Relies on `chess::Board::from_str`: parses a FEN string, `None` on a
    /// malformed one; the outcome depends on the string alone.
    #[verifier::external_body]
    pub fn from_fen(fen: &str) -> (r: Option<Position>)
        ensures
            r matches Some(p) ==> parsed_fen(fen@) == Option::Some(p.b()),
            r is None <==> parsed_fen(fen@) is None,
    {
        match <chess::Board as core::str::FromStr>::from_str(fen) {
            Result::Ok(board) => Option::Some(Position { board }),
            Result::Err(_) => Option::None,
        }
    }

    /// Relies on `chess::Board::get_hash`: the board's Zobrist key.
    #[verifier::external_body]
    pub fn get_hash(&self) -> (r: u64)
        ensures
            r == zobrist_key(self.b()),
    {
        self.board.get_hash()
    }

    /// Relies on `chess::Board::side_to_move`.
    #[verifier::external_body]
    pub fn side_to_move(&self) -> (r: Color)
        ensures
            r.is_white() == white_to_move(self.b()),
    {
        match self.board.side_to_move() {
            chess::Color::White => Color::White,
            chess::Color::Black => Color::Black,
        }
    }

    /// Relies on `chess::Board::checkers`: the side to move is in check
    /// exactly when the checkers bitboard is non-empty.
    #[verifier::external_body]
    pub fn in_check(&self) -> (r: bool)
        ensures
            r == in_check_of(self.b()),
    {
        self.board.checkers().popcnt() > 0
    }

    /// Relies on `chess::Board::status`, which derives the status from the
    /// legal-move count and the checkers bitboard: a position is ongoing
    /// exactly when it has a legal move, and a mate is a check.
    #[verifier::external_body]
    pub fn status(&self) -> (r: BoardStatus)
        ensures
            r.code_spec() == status_of(self.b()),
            r.code_spec() == 0 <==> legal_codes(self.b()).len() > 0,
            r.code_spec() == 2 ==> in_check_of(self.b()),
    {
        match self.board.status() {
            chess::BoardStatus::Ongoing => BoardStatus::Ongoing,
            chess::BoardStatus::Stalemate => BoardStatus::Stalemate,
            chess::BoardStatus::Checkmate => BoardStatus::Checkmate,
        }
    }

    /// Relies on `chess::Board::piece_on`.
    #[verifier::external_body]
    pub fn piece_on(&self, sq: u8) -> (r: Option<Piece>)
        requires
            sq < 64,
        ensures
            r matches Some(p) ==> piece_code_at(self.b(), sq as int) == Option::Some(
                p.index_spec(),
            ),
            r is None <==> piece_code_at(self.b(), sq as int) is None,
    {
        match self.board.piece_on(chess::ALL_SQUARES[sq as usize]) {
            Option::None => Option::None,
            Option::Some(chess::Piece::Pawn) => Option::Some(Piece::Pawn),
            Option::Some(chess::Piece::Knight) => Option::Some(Piece::Knight),
            Option::Some(chess::Piece::Bishop) => Option::Some(Piece::Bishop),
            Option::Some(chess::Piece::Rook) => Option::Some(Piece::Rook),
            Option::Some(chess::Piece::Queen) => Option::Some(Piece::Queen),
            Option::Some(chess::Piece::King) => Option::Some(Piece::King),
        }
    }

    /// Relies on `chess::Board::color_on`. A square has a color exactly
    /// when it has a piece.
    #[verifier::external_body]
    pub fn color_on(&self, sq: u8) -> (r: Option<Color>)
        requires
            sq < 64,
        ensures
            r matches Some(c) ==> color_white_at(self.b(), sq as int) == Option::Some(
                c.is_white(),
            ),
            r is None <==> color_white_at(self.b(), sq as int) is None,
            r is None <==> piece_code_at(self.b(), sq as int) is None,
    {
        match self.board.color_on(chess::ALL_SQUARES[sq as usize]) {
            Option::None => Option::None,
            Option::Some(chess::Color::White) => Option::Some(Color::White),
            Option::Some(chess::Color::Black) => Option::Some(Color::Black),
        }
    }

    /// Relies on `chess::MoveGen::new_legal`: enumerates exactly the legal
    /// moves, each one once, with the moving piece on the source square and
    /// owned by the side to move.
    #[verifier::external_body]
    pub fn legal_moves(&self) -> (r: Vec<Move>)
        ensures
            r@.len() == legal_codes(self.b()).len(),
            forall|i: int|
                0 <= i < r@.len() ==> #[trigger] r@[i].wf() && r@[i].code() == legal_codes(
                    self.b(),
                )[i],
            forall|i: int| 0 <= i < r@.len() ==> legal_move_facts(self.b(), #[trigger] r@[i]),
            forall|i: int, j: int|
                0 <= i < j < r@.len() ==> (#[trigger] r@[i]).code() != (#[trigger] r@[j]).code(),
    {
        chess::MoveGen::new_legal(&self.board).map(|m: chess::ChessMove| Move {
            source: m.get_source().to_index() as u8,
            dest: m.get_dest().to_index() as u8,
            promotion: match m.get_promotion() {
                Option::None => Option::None,
                Option::Some(chess::Piece::Queen) => Option::Some(Piece::Queen),
                Option::Some(chess::Piece::Knight) => Option::Some(Piece::Knight),
                Option::Some(chess::Piece::Rook) => Option::Some(Piece::Rook),
                Option::Some(chess::Piece::Bishop) => Option::Some(Piece::Bishop),
                Option::Some(chess::Piece::Pawn) => Option::Some(Piece::Pawn),
                Option::Some(chess::Piece::King) => Option::Some(Piece::King),
            },
        }).collect()
    }

    /// Relies on `chess::Board::make_move_new`: a function of the board
    /// and the move alone, handing the turn to the opponent. Making a
    /// move never adds a piece, and a capture — a move onto a square the
    /// opponent holds — removes one.
    #[verifier::external_body]
    pub fn make_move_new(&self, m: Move) -> (r: Position)
        requires
            m.wf(),
            legal_codes(self.b()).contains(m.code()),
        ensures
            r.b() == moved_board(self.b(), m.code()),
            white_to_move(r.b()) == !white_to_move(self.b()),
            piece_total(r.b()) <= piece_total(self.b()),
            is_capture_move(self.b(), m) ==> piece_total(r.b()) < piece_total(self.b()),
    {
        let promotion = match m.promotion {
            Option::None => Option::None,
            Option::Some(Piece::Pawn) => Option::Some(chess::Piece::Pawn),
            Option::Some(Piece::Knight) => Option::Some(chess::Piece::Knight),
            Option::Some(Piece::Bishop) => Option::Some(chess::Piece::Bishop),
            Option::Some(Piece::Rook) => Option::Some(chess::Piece::Rook),
            Option::Some(Piece::Queen) => Option::Some(chess::Piece::Queen),
            Option::Some(Piece::King) => Option::Some(chess::Piece::King),
        };
        let source = chess::ALL_SQUARES[m.source as usize];
        let dest = chess::ALL_SQUARES[m.dest as usize];
        Position { board: self.board.make_move_new(chess::ChessMove::new(source, dest, promotion)) }
    }

    /// Relies on `chess::Board::null_move`: hands the turn to the opponent
    /// and touches nothing else on the board; it returns `Some` exactly
    /// when the side to move is not in check.
    #[verifier::external_body]
    pub fn null_move(&self) -> (r: Option<Position>)
        ensures
            r is Some <==> !in_check_of(self.b()),
            r matches Some(p) ==> p.b() == null_board(self.b()) && white_to_move(p.b())
                == !white_to_move(self.b()) && piece_total(p.b()) == piece_total(self.b())
                && forall|sq: int|
                #![trigger piece_code_at(p.b(), sq)]
                #![trigger color_white_at(p.b(), sq)]
                0 <= sq < 64 ==> piece_code_at(p.b(), sq) == piece_code_at(self.b(), sq)
                    && color_white_at(p.b(), sq) == color_white_at(self.b(), sq),
    {
        match self.board.null_move() {
            Option::Some(board) => Option::Some(Position { board }),
            Option::None => Option::None,
        }
    }

    /// Relies on `chess::Board::castle_rights`.
    #[verifier::external_body]
    pub fn castle_rights_code(&self, white: bool) -> (r: u8)
        ensures
            r == castle_code(self.b(), white),
            r < 4,
    {
        let color = if white { chess::Color::White } else { chess::Color::Black };
        match self.board.castle_rights(color) {
            chess::CastleRights::NoRights => 0,
            chess::CastleRights::KingSide => 1,
            chess::CastleRights::QueenSide => 2,
            chess::CastleRights::Both => 3,
        }
    }

    /// Relies on `chess::Board::en_passant`.
    #[verifier::external_body]
    pub fn en_passant_file(&self) -> (r: Option<u8>)
        ensures
            r matches Some(f) ==> ep_file_of(self.b()) == Option::Some(f as int) && f < 8,
            r is None <==> ep_file_of(self.b()) is None,
    {
        match self.board.en_passant() {
            Option::Some(sq) => Option::Some(sq.get_file().to_index() as u8),
            Option::None => Option::None,
        }
    }

    /// The naive static evaluation of this position, for the side to
    /// move.
    pub fn evaluate(&self) -> (r: i16)
        ensures
            r == crate::eval::naive::naive_eval(self.b()),
            crate::eval::MIN_EVAL <= r <= crate::eval::MAX_EVAL,
    {
        let evaluator = crate::eval::naive_evaluator();
        evaluator.score(self)
    }

    /// The legal moves, a legal hint first, the rest in capture-score
    /// order.
    pub fn sorted_moves(&self, best_move: Option<Move>) -> (r: Vec<Move>)
        ensures
            r@ == crate::move_sorter::ordered_spec(self.b(), best_move),
            r@.len() == legal_codes(self.b()).len(),
            forall|i: int|
                0 <= i < r@.len() ==> (#[trigger] r@[i]).wf() && legal_codes(self.b()).contains(
                    r@[i].code(),
                ) && legal_move_facts(self.b(), r@[i]),
    {
        let sorter = crate::move_sorter::MoveSorter {  };
        sorter.sorted_moves(self, best_move)
    }

    /// The legal captures, in capture-score order.
    pub fn sorted_captures(&self) -> (r: Vec<Move>)
        ensures
            r@ == crate::move_sorter::sorted_captures_spec(self.b()),
            forall|i: int|
                0 <= i < r@.len() ==> (#[trigger] r@[i]).wf() && legal_codes(self.b()).contains(
                    r@[i].code(),
                ) && legal_move_facts(self.b(), r@[i]) && is_capture_move(self.b(), r@[i]),
    {
        let sorter = crate::move_sorter::MoveSorter {  };
        sorter.sorted_captures(self)
    }

    /// Whether a move is legal in this position.
    pub fn legal(&self, m: Move) -> (r: bool)
        requires
            m.wf(),
        ensures
            r == legal_codes(self.b()).contains(m.code()),
    {
        let moves = self.legal_moves();
        let code = crate::move_hash::get_hash(m);
        let mut i: usize = 0;
        while i < moves.len()
            invariant
                i <= moves@.len(),
                moves@.len() == legal_codes(self.b()).len(),
                forall|k: int|
                    0 <= k < moves@.len() ==> #[trigger] moves@[k].wf() && moves@[k].code()
                        == legal_codes(self.b())[k],
                code == m.code(),
                m.wf(),
                forall|k: int| 0 <= k < i ==> legal_codes(self.b())[k] != m.code(),
            decreases moves@.len() - i,
        {
            if crate::move_hash::get_hash(moves[i]) == code {
                assert(legal_codes(self.b())[i as int] == m.code());
                return true;
            }
            i += 1;
        }
        assert(forall|k: int| 0 <= k < legal_codes(self.b()).len() ==> legal_codes(self.b())[k]
            != m.code());
        false
    }
}

impl Default for Position {
    /// The standard starting position.
    fn default() -> (r: Position)
        ensures
            is_start_board(r.b()),
    {
        Position::initial()
    }
}

/// A full game: a starting position plus the actions taken so far. Wraps
/// `chess::Game`, which also tracks draw offers and resignations.
pub struct ChessGame {
    game: chess::Game,
}

impl Default for ChessGame {
    /// A game from the standard starting position.
    fn default() -> (r: ChessGame)
        ensures
            is_start_board(game_board(r.g())),
    {
        ChessGame::new()
    }
}

impl ChessGame {
    /// Relies on `chess::Game::new`: a game from the standard starting
    /// position.
    #[verifier::external_body]
    pub fn new() -> (r: ChessGame)
        ensures
            is_start_board(game_board(r.g())),
    {
        ChessGame { game: chess::Game::new() }
    }

    /// Relies on `chess::Game::new_with_board` and `chess::Board::from_str`:
    /// a game from a FEN position, `None` on a malformed string; the
    /// game's current board is the parsed one.
    #[verifier::external_body]
    pub fn from_fen(fen: &str) -> (r: Option<ChessGame>)
        ensures
            r matches Some(g) ==> parsed_fen(fen@) == Option::Some(game_board(g.g())),
            r is None <==> parsed_fen(fen@) is None,
    {
        match <chess::Board as core::str::FromStr>::from_str(fen) {
            Result::Ok(board) => Option::Some(
                ChessGame { game: chess::Game::new_with_board(board) },
            ),
            Result::Err(_) => Option::None,
        }
    }

    /// The wrapped game value, for contracts.
    pub closed spec fn g(self) -> chess::Game {
        self.game
    }

    /// Relies on `chess::Game::current_position`.
    #[verifier::external_body]
    pub fn current_position(&self) -> (r: Position)
        ensures
            r.b() == game_board(self.g()),
    {
        Position { board: self.game.current_position() }
    }

    /// Relies on `chess::Game::side_to_move`: the start side flipped once
    /// per applied move, which is the current board's side to move.
    #[verifier::external_body]
    pub fn side_to_move(&self) -> (r: Color)
        ensures
            r.is_white() == white_to_move(game_board(self.g())),
    {
        match self.game.side_to_move() {
            chess::Color::White => Color::White,
            chess::Color::Black => Color::Black,
        }
    }

    /// The lowest score the engine's evaluation can take.
    pub fn min_evaluation() -> (r: i16)
        ensures
            r == crate::eval::MIN_EVAL,
    {
        crate::eval::MIN_EVAL
    }

    /// The highest score the engine's evaluation can take.
    pub fn max_evaluation() -> (r: i16)
        ensures
            r == crate::eval::MAX_EVAL,
    {
        crate::eval::MAX_EVAL
    }

    /// Relies on `chess::Game::result`: `Some` once the game has ended by
    /// mate, stalemate, resignation or draw — a function of the game
    /// value alone; while it answers `None` the current position is still
    /// ongoing, as its source derives the mate and stalemate cases from
    /// the position's status.
    #[verifier::external_body]
    pub fn result(&self) -> (r: Option<GameResult>)
        ensures
            r == result_of_code(game_result_code(self.g())),
            r is None ==> status_of(game_board(self.g())) == 0,
    {
        match self.game.result() {
            Option::None => Option::None,
            Option::Some(chess::GameResult::WhiteCheckmates) => Option::Some(GameResult::WhiteCheckmates),
            Option::Some(chess::GameResult::WhiteResigns) => Option::Some(GameResult::WhiteResigns),
            Option::Some(chess::GameResult::BlackCheckmates) => Option::Some(GameResult::BlackCheckmates),
            Option::Some(chess::GameResult::BlackResigns) => Option::Some(GameResult::BlackResigns),
            Option::Some(chess::GameResult::Stalemate) => Option::Some(GameResult::Stalemate),
            Option::Some(chess::GameResult::DrawAccepted) => Option::Some(GameResult::DrawAccepted),
            Option::Some(chess::GameResult::DrawDeclared) => Option::Some(GameResult::DrawDeclared),
        }
    }

    /// Applies the action to the game. An illegal move or an out-of-turn
    /// draw action leaves the game unchanged, as the underlying game
    /// reports by returning `false`. A move action must carry a
    /// well-formed move — the original's move type cannot even express
    /// another.
    pub fn take_action(&mut self, action: Action)
        requires
            action matches Action::MakeMove(m) ==> m.wf(),
        ensures
            final(self).g() == game_after_action(old(self).g(), action),
    {
        match action {
            Action::MakeMove(m) => self.play_move(m),
            Action::OfferDraw(color) => self.offer_draw(color.is_white_exec()),
            Action::AcceptDraw => self.accept_draw(),
            Action::DeclareDraw => self.declare_draw(),
            Action::Resign(color) => self.resign(color.is_white_exec()),
        }
    }

    /// Relies on `chess::Game::make_move`: plays the move if it is legal,
    /// and otherwise leaves the game unchanged — a function of the game
    /// and the move alone.
    #[verifier::external_body]
    fn play_move(&mut self, m: Move)
        requires
            m.wf(),
        ensures
            final(self).g() == game_after_move(old(self).g(), m.code()),
    {
        let promotion = match m.promotion {
            Option::None => Option::None,
            Option::Some(Piece::Pawn) => Option::Some(chess::Piece::Pawn),
            Option::Some(Piece::Knight) => Option::Some(chess::Piece::Knight),
            Option::Some(Piece::Bishop) => Option::Some(chess::Piece::Bishop),
            Option::Some(Piece::Rook) => Option::Some(chess::Piece::Rook),
            Option::Some(Piece::Queen) => Option::Some(chess::Piece::Queen),
            Option::Some(Piece::King) => Option::Some(chess::Piece::King),
        };
        let source = chess::ALL_SQUARES[m.source as usize];
        let dest = chess::ALL_SQUARES[m.dest as usize];
        self.game.make_move(chess::ChessMove::new(source, dest, promotion));
    }

    /// Relies on `chess::Game::offer_draw`.
    #[verifier::external_body]
    fn offer_draw(&mut self, white: bool)
        ensures
            final(self).g() == game_after_offer(old(self).g(), white),
    {
        self.game.offer_draw(if white { chess::Color::White } else { chess::Color::Black });
    }

    /// Relies on `chess::Game::accept_draw`.
    #[verifier::external_body]
    fn accept_draw(&mut self)
        ensures
            final(self).g() == game_after_accept(old(self).g()),
    {
        self.game.accept_draw();
    }

    /// Relies on `chess::Game::declare_draw`.
    #[verifier::external_body]
    fn declare_draw(&mut self)
        ensures
            final(self).g() == game_after_declare(old(self).g()),
    {
        self.game.declare_draw();
    }

    /// Relies on `chess::Game::resign`.
    #[verifier::external_body]
    fn resign(&mut self, white: bool)
        ensures
            final(self).g() == game_after_resign(old(self).g(), white),
    {
        self.game.resign(if white { chess::Color::White } else { chess::Color::Black });
    }
}

} // verus!
