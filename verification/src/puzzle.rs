//! Lichess puzzles: the wire record, the session that validates the
//! solver's moves against the scripted solution, and the `/puzzle/next`
//! request parameters.
//!
//! `solution` alternates: even indices are the solver's moves, odd indices
//! the opponent's scripted replies, which are played after a delay.

use crate::bitboard::{bit_set, lemma_zero_bits, occupant, same_occupant, Bitboards, Color};
use crate::fen::fen_outcome;
use crate::uci::{is_file_byte, is_rank_byte, square_of, uci_outcome};
use vstd::prelude::*;
use vstd::utf8::encode_utf8;

verus! {

/// Shape returned by `GET /api/puzzle/daily`, `/api/puzzle/{id}` and
/// `/api/puzzle/next`.
#[derive(Debug, Clone)]
pub struct Puzzle {
    pub id: String,
    /// Difficulty rating of the puzzle itself.
    pub rating: i32,
    pub plays: i32,
    /// UCI moves: even indices are the solver's, odd ones the opponent's
    /// scripted replies.
    pub solution: Vec<String>,
    pub themes: Vec<String>,
    pub initial_ply: i32,
    /// The puzzle position; its side to move is the solver's colour. Omitted
    /// by `/puzzle/next`.
    pub fen: Option<String>,
    /// The opponent's setup move (UCI), for the initial last-move highlight.
    pub last_move: Option<String>,
}

/// The source game a puzzle was lifted from; only its id is kept.
#[derive(Debug, Clone)]
pub struct Game {
    pub id: String,
}

#[derive(Debug)]
pub struct PuzzleResponse {
    pub game: Game,
    pub puzzle: Puzzle,
}

#[derive(Debug, Clone, Copy, PartialEq, Eq, Structural)]
pub enum PuzzleStatus {
    /// Waiting for the solver's move.
    Solving,
    /// The solver just played a correct, non-final move.
    Correct,
    /// The solver played a wrong move; the position was left untouched.
    Wrong,
    /// Every solution move has been played.
    Solved,
}

/// Live state of a puzzle being solved.
pub struct PuzzleSession {
    pub rating: i32,
    pub themes: Vec<String>,
    /// Starts at the puzzle FEN and advances as correct moves land.
    pub position: Bitboards,
    pub solution: Vec<String>,
    /// Index of the next solution move to be played.
    pub progress: usize,
    /// True when the solver plays White.
    pub solver_white: bool,
    pub status: PuzzleStatus,
    /// Square bitmask of the most recent move, for the board's highlight.
    pub last_move_mask: u64,
}

/// The squares whose occupant differs between two positions, as a bitmask.
pub open spec fn is_diff_mask(r: u64, a: Bitboards, b: Bitboards) -> bool {
    forall|s: int|
        0 <= s < 64 ==> (bit_set(r, s) <==> occupant(a.occupied(), s) != occupant(
            b.occupied(),
            s,
        ))
}

/// The from and to squares named by a UCI move's bytes, as a bitmask; an
/// ill-formed square contributes nothing, a move shorter than four bytes
/// gives the empty mask.
pub open spec fn is_from_to_mask(r: u64, b: Seq<u8>) -> bool {
    forall|s: int|
        0 <= s < 64 ==> (bit_set(r, s) <==> b.len() >= 4 && ((is_file_byte(b[0]) && is_rank_byte(
            b[1],
        ) && s == square_of(b[0], b[1])) || (is_file_byte(b[2]) && is_rank_byte(b[3]) && s
            == square_of(b[2], b[3]))))
}

/// Whether a guess matches the expected move on its from and to squares,
/// that is on the first four bytes.
pub open spec fn same_from_to(guess: Seq<u8>, expected: Seq<u8>) -> bool {
    guess.len() >= 4 && expected.len() >= 4 && guess.subrange(0, 4) == expected.subrange(0, 4)
}

/// Whether UCI move `guess` names the same from and to squares as
/// `expected`.
pub fn same_from_to_text(guess: &str, expected: &str) -> (r: bool)
    ensures
        r == same_from_to(encode_utf8(guess@), encode_utf8(expected@)),
{
    let ub = guess.as_bytes();
    let eb = expected.as_bytes();
    proof {
        assert(ub@ == encode_utf8(guess@));
        assert(eb@ == encode_utf8(expected@));
    }
    let mut same = ub.len() >= 4 && eb.len() >= 4;
    if same {
        let mut i: usize = 0;
        while i < 4
            invariant
                ub.len() >= 4,
                eb.len() >= 4,
                i <= 4,
                same == forall|j: int| 0 <= j < i ==> ub@[j] == eb@[j],
            decreases 4 - i,
        {
            same = same && ub[i] == eb[i];
            i += 1;
        }
        proof {
            if same {
                assert(ub@.subrange(0, 4) =~= eb@.subrange(0, 4));
            } else {
                if ub@.subrange(0, 4) == eb@.subrange(0, 4) {
                    assert forall|j: int| 0 <= j < 4 implies ub@[j] == eb@[j] by {
                        assert(ub@.subrange(0, 4)[j] == eb@.subrange(0, 4)[j]);
                    }
                }
            }
        }
    }
    same
}

pub(crate) fn diff_mask(a: &Bitboards, b: &Bitboards) -> (r: u64)
    ensures
        is_diff_mask(r, *a, *b),
{
    let mut mask = 0u64;
    let mut sq: u8 = 0;
    proof {
        lemma_zero_bits();
    }
    while sq < 64
        invariant
            sq <= 64,
            forall|s: int|
                0 <= s < 64 ==> (bit_set(mask, s) <==> s < sq && occupant(a.occupied(), s)
                    != occupant(b.occupied(), s)),
        decreases 64 - sq,
    {
        if !same_occupant(a.piece_at(sq), b.piece_at(sq)) {
            let old_mask = mask;
            mask = mask | (1u64 << sq);
            proof {
                assert forall|s: int| 0 <= s < 64 implies (bit_set(mask, s) <==> bit_set(
                    old_mask,
                    s,
                ) || s == sq) by {
                    crate::bitboard::lemma_or_bit(old_mask, sq as u64, s as u64);
                }
            }
        }
        sq += 1;
    }
    mask
}

/// The bit of the square named by the bytes `f`, `r`, or 0 if they name no
/// square.
fn square_bit(f: u8, r: u8) -> (m: u64)
    ensures
        forall|s: int|
            0 <= s < 64 ==> (bit_set(m, s) <==> is_file_byte(f) && is_rank_byte(r) && s
                == square_of(f, r)),
{
    if 97u8 <= f && f <= 104u8 && 49u8 <= r && r <= 56u8 {
        let sq = (r - 49u8) * 8 + (f - 97u8);
        crate::bitboard::bit(sq)
    } else {
        proof {
            lemma_zero_bits();
        }
        0
    }
}

fn uci_from_to_mask(uci: &str) -> (r: u64)
    ensures
        is_from_to_mask(r, encode_utf8(uci@)),
{
    let b = uci.as_bytes();
    proof {
        assert(b@ == encode_utf8(uci@));
    }
    if b.len() < 4 {
        proof {
            lemma_zero_bits();
        }
        return 0;
    }
    let m1 = square_bit(b[0], b[1]);
    let m2 = square_bit(b[2], b[3]);
    let mask = m1 | m2;
    proof {
        assert forall|s: int| 0 <= s < 64 implies (bit_set(mask, s) <==> bit_set(m1, s)
            || bit_set(m2, s)) by {
            let t = s as u64;
            assert((((m1 | m2) >> t) & 1 == 1) <==> (((m1 >> t) & 1 == 1) || ((m2 >> t) & 1
                == 1))) by (bit_vector);
        }
    }
    mask
}


/// What applying solution move `mv` does to the live position and the
/// last-move mask: on success the new position and the mask of the squares
/// whose occupant changed; a rejected move leaves both as they were.
pub open spec fn applied(pos: Bitboards, mask: u64, mv: Seq<char>, new_pos: Bitboards, new_mask: u64) -> bool {
    match uci_outcome(pos.model(), mv) {
        Some(Ok(m)) => new_pos.model() == m && is_diff_mask(new_mask, pos, new_pos),
        Some(Err(_)) => new_pos == pos && new_mask == mask,
        None => false,
    }
}

/// `new` refuses `puzzle`: it has no FEN, or its FEN does not parse.
pub open spec fn rejected_puzzle(puzzle: Puzzle) -> bool {
    match puzzle.fen {
        None => true,
        Some(f) => !(fen_outcome(f@) matches Some(Ok(_))),
    }
}

pub open spec fn no_fen_message() -> Seq<char> {
    "puzzle response carried no FEN"@
}

/// The error for a FEN with a rank whose file count runs past 255, which
/// `from_fen` cannot read.
pub open spec fn unreadable_fen_message(fen: Seq<char>) -> Seq<char> {
    "unreadable FEN '"@ + fen + "': a rank counts too many files"@
}

impl PuzzleSession {
    /// The UCI text of solution move `i`.
    pub open spec fn move_text(self, i: int) -> Seq<char> {
        self.solution@[i]@
    }

    /// The solver may move: the status is `Solving` or `Wrong` and solution
    /// moves remain.
    pub open spec fn accepts(self) -> bool {
        (self.status == PuzzleStatus::Solving || self.status == PuzzleStatus::Wrong)
            && self.progress < self.solution.len()
    }

    /// An opponent reply is queued: the solver's last move was correct and
    /// not final.
    pub open spec fn reply_pending(self) -> bool {
        self.status == PuzzleStatus::Correct && self.progress < self.solution.len()
    }

    /// The status agrees with the progress: while the solver is to move an
    /// even number of moves has been played (even indices are the solver's),
    /// after a correct non-final move an odd number, and a solved puzzle has
    /// played them all.
    pub open spec fn consistent(self) -> bool {
        &&& self.progress <= self.solution.len()
        &&& (self.status == PuzzleStatus::Solving || self.status == PuzzleStatus::Wrong)
            ==> self.progress % 2 == 0
        &&& self.status == PuzzleStatus::Correct ==> self.progress % 2 == 1 && self.progress
            < self.solution.len()
        &&& self.status == PuzzleStatus::Solved ==> self.progress == self.solution.len()
    }

    /// The expected move at `progress` can be applied (see `uci_outcome`).
    pub open spec fn next_move_defined(self) -> bool {
        self.progress < self.solution.len() ==> uci_outcome(
            self.position.model(),
            self.move_text(self.progress as int),
        ) is Some
    }

    /// `next` and `r` are what `try_move` makes of this session and the
    /// solver's move `uci`. Only the from and to squares are compared, so
    /// that a promotion entered as a queen accepts the solution's
    /// under-promotion. A correct move plays the canonical solution move; a
    /// wrong one leaves the position untouched; a session that does not
    /// accept input is left as it is. `r` is the new status.
    pub open spec fn move_tried(self, uci: Seq<char>, next: Self, r: PuzzleStatus) -> bool {
        let correct = same_from_to(
            encode_utf8(uci),
            encode_utf8(self.move_text(self.progress as int)),
        );
        &&& r == next.status
        &&& next.rating == self.rating
        &&& next.themes == self.themes
        &&& next.solution == self.solution
        &&& next.solver_white == self.solver_white
        &&& !self.accepts() ==> next == self
        &&& self.accepts() && !correct ==> {
            &&& next.status == PuzzleStatus::Wrong
            &&& next.position == self.position
            &&& next.progress == self.progress
            &&& next.last_move_mask == self.last_move_mask
        }
        &&& self.accepts() && correct ==> {
            &&& next.progress == self.progress + 1
            &&& next.status == if self.progress + 1 >= self.solution.len() {
                PuzzleStatus::Solved
            } else {
                PuzzleStatus::Correct
            }
            &&& applied(
                self.position,
                self.last_move_mask,
                self.move_text(self.progress as int),
                next.position,
                next.last_move_mask,
            )
        }
    }

    /// `next` and `r` are what `apply_opponent_reply` makes of this
    /// session: with a reply pending, the scripted reply is played and the
    /// solver is to move again (or the puzzle is solved); otherwise nothing
    /// changes. `r` is the new status.
    pub open spec fn reply_applied(self, next: Self, r: PuzzleStatus) -> bool {
        &&& r == next.status
        &&& next.rating == self.rating
        &&& next.themes == self.themes
        &&& next.solution == self.solution
        &&& next.solver_white == self.solver_white
        &&& !self.reply_pending() ==> next == self
        &&& self.reply_pending() ==> {
            &&& next.progress == self.progress + 1
            &&& next.status == if self.progress + 1 >= self.solution.len() {
                PuzzleStatus::Solved
            } else {
                PuzzleStatus::Solving
            }
            &&& applied(
                self.position,
                self.last_move_mask,
                self.move_text(self.progress as int),
                next.position,
                next.last_move_mask,
            )
        }
    }

    /// `self` is the session `new` builds from `puzzle` (whose FEN it
    /// accepted): the puzzle position, the solver on the side to move, the
    /// puzzle's rating, themes and solution, nothing played yet, and the
    /// setup move marked as the last move.
    pub open spec fn built_from(self, puzzle: Puzzle) -> bool {
        &&& puzzle.fen matches Some(f) && fen_outcome(f@) matches Some(Ok(m)) && {
            &&& self.position.model() == m
            &&& self.solver_white == (m.1 == Color::White)
        }
        &&& self.rating == puzzle.rating
        &&& self.themes == puzzle.themes
        &&& self.solution == puzzle.solution
        &&& self.progress == 0
        &&& self.status == PuzzleStatus::Solving
        &&& match puzzle.last_move {
            Some(lm) => is_from_to_mask(self.last_move_mask, encode_utf8(lm@)),
            None => self.last_move_mask == 0,
        }
        &&& self.consistent()
    }

    /// Build a session from a fetched puzzle. Fails if the puzzle has no FEN
    /// (a raw `/puzzle/next` record) or the FEN is unparseable; every other
    /// field is taken at face value.
    pub fn new(puzzle: Puzzle) -> (r: Result<Self, String>)
        ensures
            r is Err <==> rejected_puzzle(puzzle),
            r matches Ok(s) ==> s.built_from(puzzle),
            match puzzle.fen {
                None => r matches Err(e) && e@ == no_fen_message(),
                Some(f) => match fen_outcome(f@) {
                    Some(Err(msg)) => r matches Err(e) && e@ == msg,
                    Some(Ok(m)) => r matches Ok(s) && {
                        &&& s.position.model() == m
                        &&& s.solver_white == (m.1 == Color::White)
                        &&& s.rating == puzzle.rating
                        &&& s.themes == puzzle.themes
                        &&& s.solution == puzzle.solution
                        &&& s.progress == 0
                        &&& s.status == PuzzleStatus::Solving
                        &&& match puzzle.last_move {
                            Some(lm) => is_from_to_mask(s.last_move_mask, encode_utf8(lm@)),
                            None => s.last_move_mask == 0,
                        }
                        &&& s.consistent()
                    },
                    None => r matches Err(e) && e@ == unreadable_fen_message(f@),
                },
            },
    {
        let position = match &puzzle.fen {
            None => return Err(crate::text::string_of("puzzle response carried no FEN")),
            Some(fen) => {
                if !Bitboards::fen_defined(fen.as_str()) {
                    let mut e = crate::text::string_of("unreadable FEN '");
                    crate::text::push_str(&mut e, fen.as_str());
                    crate::text::push_str(&mut e, "': a rank counts too many files");
                    return Err(e);
                }
                match Bitboards::from_fen(fen.as_str()) {
                    Ok(b) => b,
                    Err(e) => return Err(e),
                }
            },
        };
        let solver_white = position.side_to_move == Color::White;
        let last_move_mask = match &puzzle.last_move {
            Some(lm) => uci_from_to_mask(lm.as_str()),
            None => 0,
        };
        Ok(Self {
            rating: puzzle.rating,
            themes: puzzle.themes,
            position,
            solution: puzzle.solution,
            progress: 0,
            solver_white,
            status: PuzzleStatus::Solving,
            last_move_mask,
        })
    }

    /// Whether the next solution move, if any, can be applied to the
    /// position (see `uci_outcome`).
    pub fn next_move_playable(&self) -> (r: bool)
        ensures
            r == self.next_move_defined(),
    {
        if self.progress >= self.solution.len() {
            return true;
        }
        self.position.uci_move_defined(self.solution[self.progress].as_str())
    }

    /// Whether the solver is allowed to make a move. False while a correct
    /// move awaits its scripted reply, and once solved.
    pub fn accepts_input(&self) -> (r: bool)
        ensures
            r == self.accepts(),
    {
        (self.status == PuzzleStatus::Solving || self.status == PuzzleStatus::Wrong)
            && self.progress < self.solution.len()
    }

    /// UCI of the move the solver is expected to play next, for the hint
    /// button; `None` once the puzzle no longer accepts input.
    pub fn next_expected_move(&self) -> (r: Option<&str>)
        ensures
            r is None <==> !self.accepts(),
            r matches Some(m) ==> m@ == self.move_text(self.progress as int),
    {
        if !self.accepts_input() {
            return None;
        }
        Some(self.solution[self.progress].as_str())
    }

    /// Apply one UCI move to the live position and refresh the last-move
    /// mask; a move that fails to apply changes nothing.
    fn apply(&mut self, uci: &str)
        requires
            uci_outcome(old(self).position.model(), uci@) is Some,
        ensures
            applied(
                old(self).position,
                old(self).last_move_mask,
                uci@,
                final(self).position,
                final(self).last_move_mask,
            ),
            final(self).rating == old(self).rating,
            final(self).themes == old(self).themes,
            final(self).solution == old(self).solution,
            final(self).progress == old(self).progress,
            final(self).solver_white == old(self).solver_white,
            final(self).status == old(self).status,
    {
        let before = self.position;
        match self.position.apply_uci_move(uci) {
            Err(_) => {
                return ;
            },
            Ok(()) => {},
        }
        self.last_move_mask = diff_mask(&before, &self.position);
    }

    /// Validate the solver's move against the scripted solution, matching
    /// the from and to squares only, so that a promotion entered as a queen
    /// accepts the solution's under-promotion. A correct move plays the
    /// canonical solution move and leaves the opponent's reply pending; a
    /// wrong one leaves the position untouched. Returns the new status.
    pub fn try_move(&mut self, uci: &str) -> (r: PuzzleStatus)
        requires
            old(self).accepts() && same_from_to(
                encode_utf8(uci@),
                encode_utf8(old(self).move_text(old(self).progress as int)),
            ) ==> old(self).next_move_defined(),
        ensures
            old(self).move_tried(uci@, *final(self), r),
            old(self).consistent() && r == PuzzleStatus::Correct ==> final(self).reply_pending()
                && !final(self).accepts(),
            old(self).consistent() ==> final(self).consistent(),
    {
        if !self.accepts_input() {
            return self.status;
        }
        let expected = self.solution[self.progress].clone();
        let same = same_from_to_text(uci, expected.as_str());
        if !same {
            self.status = PuzzleStatus::Wrong;
            return self.status;
        }
        self.apply(expected.as_str());
        self.progress += 1;
        self.status = if self.progress >= self.solution.len() {
            PuzzleStatus::Solved
        } else {
            PuzzleStatus::Correct
        };
        self.status
    }

    /// Whether the opponent has a scripted reply queued: true exactly after
    /// `try_move` returned `Correct`.
    pub fn opponent_reply_pending(&self) -> (r: bool)
        ensures
            r == self.reply_pending(),
    {
        self.status == PuzzleStatus::Correct && self.progress < self.solution.len()
    }

    /// Play the opponent's scripted reply; a no-op if none is pending.
    /// Returns the new status: `Solving` (solver to move again) or `Solved`.
    pub fn apply_opponent_reply(&mut self) -> (r: PuzzleStatus)
        requires
            old(self).reply_pending() ==> old(self).next_move_defined(),
        ensures
            old(self).reply_applied(*final(self), r),
            old(self).consistent() ==> final(self).consistent(),
    {
        if !self.opponent_reply_pending() {
            return self.status;
        }
        let reply = self.solution[self.progress].clone();
        self.apply(reply.as_str());
        self.progress += 1;
        self.status = if self.progress >= self.solution.len() {
            PuzzleStatus::Solved
        } else {
            PuzzleStatus::Solving
        };
        self.status
    }
}


/// An opponent reply is pending exactly after a `try_move` that returned
/// `Correct`: not after one that returned `Wrong` or `Solved`.
pub proof fn lemma_reply_pending_after_try(
    s: PuzzleSession,
    uci: Seq<char>,
    next: PuzzleSession,
    r: PuzzleStatus,
)
    requires
        s.consistent(),
        s.move_tried(uci, next, r),
    ensures
        next.reply_pending() <==> r == PuzzleStatus::Correct,
{
}

/// After `apply_opponent_reply` no reply is pending.
pub proof fn lemma_no_reply_pending_after_reply(s: PuzzleSession, next: PuzzleSession, r: PuzzleStatus)
    requires
        s.reply_applied(next, r),
    ensures
        !next.reply_pending(),
{
}

#[derive(Debug, Clone, Copy, PartialEq, Eq, Structural)]
pub enum Difficulty {
    Easiest,
    Easier,
    Normal,
    Harder,
    Hardest,
}

pub open spec fn difficulty_label(d: Difficulty) -> Seq<char> {
    match d {
        Difficulty::Easiest => "Easiest"@,
        Difficulty::Easier => "Easier"@,
        Difficulty::Normal => "Normal"@,
        Difficulty::Harder => "Harder"@,
        Difficulty::Hardest => "Hardest"@,
    }
}

pub open spec fn difficulty_param(d: Difficulty) -> Seq<char> {
    match d {
        Difficulty::Easiest => "easiest"@,
        Difficulty::Easier => "easier"@,
        Difficulty::Normal => "normal"@,
        Difficulty::Harder => "harder"@,
        Difficulty::Hardest => "hardest"@,
    }
}

/// The next difficulty in the settings cycle, easiest to hardest and round.
pub open spec fn difficulty_next(d: Difficulty) -> Difficulty {
    match d {
        Difficulty::Easiest => Difficulty::Easier,
        Difficulty::Easier => Difficulty::Normal,
        Difficulty::Normal => Difficulty::Harder,
        Difficulty::Harder => Difficulty::Hardest,
        Difficulty::Hardest => Difficulty::Easiest,
    }
}

impl Difficulty {
    /// Text for the settings screen.
    pub fn label(self) -> (r: &'static str)
        ensures
            r@ == difficulty_label(self),
    {
        match self {
            Difficulty::Easiest => "Easiest",
            Difficulty::Easier => "Easier",
            Difficulty::Normal => "Normal",
            Difficulty::Harder => "Harder",
            Difficulty::Hardest => "Hardest",
        }
    }

    /// Wire value of the `difficulty` query parameter.
    pub fn as_param(self) -> (r: &'static str)
        ensures
            r@ == difficulty_param(self),
    {
        match self {
            Difficulty::Easiest => "easiest",
            Difficulty::Easier => "easier",
            Difficulty::Normal => "normal",
            Difficulty::Harder => "harder",
            Difficulty::Hardest => "hardest",
        }
    }

    pub fn next(self) -> (r: Self)
        ensures
            r == difficulty_next(self),
    {
        match self {
            Difficulty::Easiest => Difficulty::Easier,
            Difficulty::Easier => Difficulty::Normal,
            Difficulty::Normal => Difficulty::Harder,
            Difficulty::Harder => Difficulty::Hardest,
            Difficulty::Hardest => Difficulty::Easiest,
        }
    }
}

/// Game phase, mapped to a Lichess puzzle theme key for the `angle`
/// parameter.
#[derive(Debug, Clone, Copy, PartialEq, Eq, Structural)]
pub enum PuzzlePhase {
    Any,
    Opening,
    Middlegame,
    Endgame,
    RookEndgame,
    BishopEndgame,
    PawnEndgame,
    KnightEndgame,
    QueenEndgame,
    QueenRookEndgame,
}

pub open spec fn phase_label(p: PuzzlePhase) -> Seq<char> {
    match p {
        PuzzlePhase::Any => "Any"@,
        PuzzlePhase::Opening => "Opening"@,
        PuzzlePhase::Middlegame => "Middlegame"@,
        PuzzlePhase::Endgame => "Endgame"@,
        PuzzlePhase::RookEndgame => "Rook endgame"@,
        PuzzlePhase::BishopEndgame => "Bishop endgame"@,
        PuzzlePhase::PawnEndgame => "Pawn endgame"@,
        PuzzlePhase::KnightEndgame => "Knight endgame"@,
        PuzzlePhase::QueenEndgame => "Queen endgame"@,
        PuzzlePhase::QueenRookEndgame => "Queen & rook"@,
    }
}

pub open spec fn phase_angle(p: PuzzlePhase) -> Option<Seq<char>> {
    match p {
        PuzzlePhase::Any => None,
        PuzzlePhase::Opening => Some("opening"@),
        PuzzlePhase::Middlegame => Some("middlegame"@),
        PuzzlePhase::Endgame => Some("endgame"@),
        PuzzlePhase::RookEndgame => Some("rookEndgame"@),
        PuzzlePhase::BishopEndgame => Some("bishopEndgame"@),
        PuzzlePhase::PawnEndgame => Some("pawnEndgame"@),
        PuzzlePhase::KnightEndgame => Some("knightEndgame"@),
        PuzzlePhase::QueenEndgame => Some("queenEndgame"@),
        PuzzlePhase::QueenRookEndgame => Some("queenRookEndgame"@),
    }
}

pub open spec fn phase_next(p: PuzzlePhase) -> PuzzlePhase {
    match p {
        PuzzlePhase::Any => PuzzlePhase::Opening,
        PuzzlePhase::Opening => PuzzlePhase::Middlegame,
        PuzzlePhase::Middlegame => PuzzlePhase::Endgame,
        PuzzlePhase::Endgame => PuzzlePhase::RookEndgame,
        PuzzlePhase::RookEndgame => PuzzlePhase::BishopEndgame,
        PuzzlePhase::BishopEndgame => PuzzlePhase::PawnEndgame,
        PuzzlePhase::PawnEndgame => PuzzlePhase::KnightEndgame,
        PuzzlePhase::KnightEndgame => PuzzlePhase::QueenEndgame,
        PuzzlePhase::QueenEndgame => PuzzlePhase::QueenRookEndgame,
        PuzzlePhase::QueenRookEndgame => PuzzlePhase::Any,
    }
}

impl PuzzlePhase {
    pub fn label(self) -> (r: &'static str)
        ensures
            r@ == phase_label(self),
    {
        match self {
            PuzzlePhase::Any => "Any",
            PuzzlePhase::Opening => "Opening",
            PuzzlePhase::Middlegame => "Middlegame",
            PuzzlePhase::Endgame => "Endgame",
            PuzzlePhase::RookEndgame => "Rook endgame",
            PuzzlePhase::BishopEndgame => "Bishop endgame",
            PuzzlePhase::PawnEndgame => "Pawn endgame",
            PuzzlePhase::KnightEndgame => "Knight endgame",
            PuzzlePhase::QueenEndgame => "Queen endgame",
            PuzzlePhase::QueenRookEndgame => "Queen & rook",
        }
    }

    /// The Lichess puzzle theme key for the `angle` query parameter, or
    /// `None` for "Any" (the parameter is then omitted).
    pub fn as_angle(self) -> (r: Option<&'static str>)
        ensures
            r is None <==> phase_angle(self) is None,
            r matches Some(a) ==> phase_angle(self) == Some(a@),
    {
        match self {
            PuzzlePhase::Any => None,
            PuzzlePhase::Opening => Some("opening"),
            PuzzlePhase::Middlegame => Some("middlegame"),
            PuzzlePhase::Endgame => Some("endgame"),
            PuzzlePhase::RookEndgame => Some("rookEndgame"),
            PuzzlePhase::BishopEndgame => Some("bishopEndgame"),
            PuzzlePhase::PawnEndgame => Some("pawnEndgame"),
            PuzzlePhase::KnightEndgame => Some("knightEndgame"),
            PuzzlePhase::QueenEndgame => Some("queenEndgame"),
            PuzzlePhase::QueenRookEndgame => Some("queenRookEndgame"),
        }
    }

    pub fn next(self) -> (r: Self)
        ensures
            r == phase_next(self),
    {
        match self {
            PuzzlePhase::Any => PuzzlePhase::Opening,
            PuzzlePhase::Opening => PuzzlePhase::Middlegame,
            PuzzlePhase::Middlegame => PuzzlePhase::Endgame,
            PuzzlePhase::Endgame => PuzzlePhase::RookEndgame,
            PuzzlePhase::RookEndgame => PuzzlePhase::BishopEndgame,
            PuzzlePhase::BishopEndgame => PuzzlePhase::PawnEndgame,
            PuzzlePhase::PawnEndgame => PuzzlePhase::KnightEndgame,
            PuzzlePhase::KnightEndgame => PuzzlePhase::QueenEndgame,
            PuzzlePhase::QueenEndgame => PuzzlePhase::QueenRookEndgame,
            PuzzlePhase::QueenRookEndgame => PuzzlePhase::Any,
        }
    }
}

#[derive(Debug, Clone, Copy, PartialEq, Eq, Structural)]
pub enum PuzzleColor {
    Random,
    White,
    Black,
}

pub open spec fn color_label(c: PuzzleColor) -> Seq<char> {
    match c {
        PuzzleColor::Random => "Random"@,
        PuzzleColor::White => "White"@,
        PuzzleColor::Black => "Black"@,
    }
}

pub open spec fn color_param(c: PuzzleColor) -> Option<Seq<char>> {
    match c {
        PuzzleColor::Random => None,
        PuzzleColor::White => Some("white"@),
        PuzzleColor::Black => Some("black"@),
    }
}

/// The `color` query parameter is left out exactly for a random colour;
/// otherwise it names the chosen colour, its label in lower case.
pub proof fn lemma_color_param_names_colour(c: PuzzleColor)
    ensures
        color_param(c) is None <==> c == PuzzleColor::Random,
        c != PuzzleColor::Random ==> color_param(c) == Some(
            color_label(c).map_values(|ch: char| crate::fen::lower(ch)),
        ),
{
    reveal_strlit("White");
    reveal_strlit("white");
    reveal_strlit("Black");
    reveal_strlit("black");
    if c != PuzzleColor::Random {
        assert(color_param(c)->0 =~= color_label(c).map_values(|ch: char| crate::fen::lower(ch)));
    }
}

pub open spec fn color_next(c: PuzzleColor) -> PuzzleColor {
    match c {
        PuzzleColor::Random => PuzzleColor::White,
        PuzzleColor::White => PuzzleColor::Black,
        PuzzleColor::Black => PuzzleColor::Random,
    }
}

impl PuzzleColor {
    pub fn label(self) -> (r: &'static str)
        ensures
            r@ == color_label(self),
    {
        match self {
            PuzzleColor::Random => "Random",
            PuzzleColor::White => "White",
            PuzzleColor::Black => "Black",
        }
    }

    /// Wire value for the `color` query parameter, or `None` for a random
    /// colour (the parameter is then omitted).
    pub fn as_param(self) -> (r: Option<&'static str>)
        ensures
            r is None <==> color_param(self) is None,
            r matches Some(a) ==> color_param(self) == Some(a@),
    {
        match self {
            PuzzleColor::Random => None,
            PuzzleColor::White => Some("white"),
            PuzzleColor::Black => Some("black"),
        }
    }

    pub fn next(self) -> (r: Self)
        ensures
            r == color_next(self),
    {
        match self {
            PuzzleColor::Random => PuzzleColor::White,
            PuzzleColor::White => PuzzleColor::Black,
            PuzzleColor::Black => PuzzleColor::Random,
        }
    }
}

/// The `/api/puzzle/next` request parameters chosen on the settings screen.
#[derive(Debug, Clone, Copy, PartialEq, Eq, Structural)]
pub struct PuzzleParams {
    pub difficulty: Difficulty,
    pub phase: PuzzlePhase,
    pub color: PuzzleColor,
}

impl Default for PuzzleParams {
    fn default() -> (r: Self)
        ensures
            r == (PuzzleParams {
                difficulty: Difficulty::Normal,
                phase: PuzzlePhase::Any,
                color: PuzzleColor::Random,
            }),
    {
        Self { difficulty: Difficulty::Normal, phase: PuzzlePhase::Any, color: PuzzleColor::Random }
    }
}

/// Tapping a settings button cycles through every value and back: five taps
/// on difficulty, ten on phase, three on colour return to the start, and no
/// shorter run of taps does.
pub proof fn lemma_settings_cycle(d: Difficulty, p: PuzzlePhase, c: PuzzleColor)
    ensures
        difficulty_next(difficulty_next(difficulty_next(difficulty_next(difficulty_next(d)))))
            == d,
        difficulty_next(d) != d,
        difficulty_next(difficulty_next(d)) != d,
        difficulty_next(difficulty_next(difficulty_next(d))) != d,
        difficulty_next(difficulty_next(difficulty_next(difficulty_next(d)))) != d,
        phase_next(
            phase_next(
                phase_next(
                    phase_next(phase_next(phase_next(phase_next(phase_next(phase_next(phase_next(p))))))),
                ),
            ),
        ) == p,
        phase_next(p) != p,
        color_next(color_next(color_next(c))) == c,
        color_next(c) != c,
        color_next(color_next(c)) != c,
{
}

} // verus!
