//! Which puzzle to fetch, and how, as a state machine. The application
//! performs each request against the Lichess API and hands the outcome
//! back; the machine decides the next request or the result.
//!
//! The home screen's puzzle is the daily one, unless the signed-in account
//! has already played it; then a fresh `/puzzle/next` puzzle is fetched.
//! `/puzzle/next` is tried with the token first (tailored to the user's
//! rating) and retried anonymously if that fails (older tokens lack the
//! `puzzle:read` scope). It omits the FEN, so only its id is used and the
//! full record is fetched by id.

use crate::oauth::TokenInfo;
use crate::puzzle::{
    color_label, color_param, difficulty_param, lemma_color_param_names_colour, phase_angle, Puzzle,
    PuzzleColor, PuzzleParams,
};
use crate::text::{copy_string, string_of};
use vstd::prelude::*;

verus! {

/// The query of a `/puzzle/next` request: the difficulty always, the angle
/// and the colour when the parameters name one.
pub open spec fn next_query(params: PuzzleParams) -> Seq<(Seq<char>, Seq<char>)> {
    seq![("difficulty"@, difficulty_param(params.difficulty))] + match phase_angle(params.phase) {
        Some(a) => seq![("angle"@, a)],
        None => Seq::empty(),
    } + match color_param(params.color) {
        Some(c) => seq![("color"@, c)],
        None => Seq::empty(),
    }
}

/// A request for a chosen colour ends with a `color` pair naming it; a
/// request for a random colour has no `color` pair at all.
pub proof fn lemma_next_query_colour(params: PuzzleParams)
    ensures
        params.color != PuzzleColor::Random ==> next_query(params).last() == (
            "color"@,
            color_label(params.color).map_values(|ch: char| crate::fen::lower(ch)),
        ),
        params.color == PuzzleColor::Random ==> forall|i: int|
            0 <= i < next_query(params).len() ==> #[trigger] next_query(params)[i].0 != "color"@,
{
    lemma_color_param_names_colour(params.color);
    reveal_strlit("color");
    reveal_strlit("difficulty");
    reveal_strlit("angle");
    assert("difficulty"@.len() != "color"@.len());
    assert("angle"@[0] != "color"@[0]);
    if params.color == PuzzleColor::Random {
        let q = next_query(params);
        let d = seq![("difficulty"@, difficulty_param(params.difficulty))];
        let a: Seq<(Seq<char>, Seq<char>)> = match phase_angle(params.phase) {
            Some(x) => seq![("angle"@, x)],
            None => Seq::empty(),
        };
        assert(q =~= d + a);
        assert forall|i: int| 0 <= i < q.len() implies #[trigger] q[i].0 != "color"@ by {
            if i == 0 {
                assert(q[i] == d[0]);
            } else {
                assert(q[i] == a[i - 1]);
                assert(a[i - 1].0 == "angle"@);
            }
        }
    }
}

/// The views of a list of name–value pairs.
pub open spec fn pair_texts(v: Seq<(String, String)>) -> Seq<(Seq<char>, Seq<char>)> {
    v.map_values(|p: (String, String)| (p.0@, p.1@))
}

/// The query pairs of a `/puzzle/next` request for `params`.
pub fn next_query_pairs(params: PuzzleParams) -> (r: Vec<(String, String)>)
    ensures
        pair_texts(r@) == next_query(params),
{
    let mut r: Vec<(String, String)> = Vec::new();
    r.push((string_of("difficulty"), string_of(params.difficulty.as_param())));
    match params.phase.as_angle() {
        Some(a) => r.push((string_of("angle"), string_of(a))),
        None => {},
    }
    match params.color.as_param() {
        Some(c) => r.push((string_of("color"), string_of(c))),
        None => {},
    }
    assert(pair_texts(r@) =~= next_query(params));
    r
}

/// Whether puzzle `daily_id` is among the ids of the account's recent
/// puzzle activity.
pub fn played_in(ids: &Vec<String>, daily_id: &str) -> (r: bool)
    ensures
        r == exists|i: int| 0 <= i < ids@.len() && #[trigger] ids@[i]@ == daily_id@,
{
    let want = crate::text::chars_of(daily_id);
    let mut i: usize = 0;
    while i < ids.len()
        invariant
            i <= ids.len(),
            want@ == daily_id@,
            forall|j: int| 0 <= j < i ==> #[trigger] ids@[j]@ != daily_id@,
        decreases ids.len() - i,
    {
        let got = crate::text::chars_of(ids[i].as_str());
        if crate::text::chars_equal(&got, &want) {
            return true;
        }
        i += 1;
    }
    false
}

/// A request for the application to make.
#[derive(Debug, Clone)]
pub enum PuzzleRequest {
    /// `GET /api/puzzle/daily`.
    Daily,
    /// `GET /api/puzzle/activity` with the token: whether the account's
    /// recent puzzles include the daily one, whose id is given.
    Activity(TokenInfo, String),
    /// `GET /api/puzzle/next` with the query of `next_query_pairs`,
    /// authenticated when a token is given: the id of a fresh puzzle.
    NextId(Option<TokenInfo>, PuzzleParams),
    /// `GET /api/puzzle/{id}`.
    ById(String),
}

/// The outcome of a request, errors as text.
#[derive(Debug)]
pub enum PuzzleReply {
    Daily(Result<Puzzle, String>),
    /// Whether the daily puzzle was among the recent activity.
    Activity(Result<bool, String>),
    NextId(Result<String, String>),
    ById(Result<Puzzle, String>),
}

/// What to do next: make a request, or stop with the puzzle or the error.
#[derive(Debug)]
pub enum FetchStep {
    Request(PuzzleRequest),
    Done(Result<Puzzle, String>),
}

/// The request the machine is waiting on.
#[derive(Debug, Clone, Copy, PartialEq, Eq, Structural)]
pub enum FetchStage {
    Daily,
    Activity,
    NextAuthed,
    NextAnonymous,
    ById,
    Finished,
}

/// A puzzle fetch in progress.
pub struct PuzzleFetch {
    pub token: Option<TokenInfo>,
    pub params: PuzzleParams,
    pub stage: FetchStage,
    /// The daily puzzle, once fetched.
    pub daily: Option<Puzzle>,
}

/// The step that asks for the id of a fresh puzzle, with `token` if any.
pub open spec fn next_id_step(token: Option<TokenInfo>, params: PuzzleParams) -> (FetchStage, FetchStep) {
    match token {
        Some(t) => (FetchStage::NextAuthed, FetchStep::Request(PuzzleRequest::NextId(Some(t), params))),
        None => (FetchStage::NextAnonymous, FetchStep::Request(PuzzleRequest::NextId(None, params))),
    }
}

impl PuzzleFetch {
    /// The reply answers the request the machine is waiting on.
    pub open spec fn expects(self, reply: PuzzleReply) -> bool {
        match self.stage {
            FetchStage::Daily => reply is Daily,
            FetchStage::Activity => reply is Activity && self.daily is Some && self.token is Some,
            FetchStage::NextAuthed => reply is NextId && self.token is Some,
            FetchStage::NextAnonymous => reply is NextId,
            FetchStage::ById => reply is ById,
            FetchStage::Finished => false,
        }
    }

    /// `next` and `step` after `reply`. A failed daily fetch fails. A daily
    /// puzzle is the result without a token; with one, the recent activity
    /// is checked, and only a puzzle found played leads to a fresh puzzle
    /// (a failed check hands over the daily one). A failed authenticated
    /// `/puzzle/next` is retried anonymously; a failed anonymous one fails.
    /// A fetched id is fetched in full, and that is the result.
    pub open spec fn advanced(self, reply: PuzzleReply, next: Self, step: FetchStep) -> bool {
        match reply {
            PuzzleReply::Daily(Err(e)) => next == (PuzzleFetch { stage: FetchStage::Finished, ..self })
                && step == FetchStep::Done(Err(e)),
            PuzzleReply::Daily(Ok(p)) => match self.token {
                Some(t) => next == (PuzzleFetch {
                    stage: FetchStage::Activity,
                    daily: Some(p),
                    ..self
                }) && step == FetchStep::Request(PuzzleRequest::Activity(t, p.id)),
                None => next == (PuzzleFetch { stage: FetchStage::Finished, ..self }) && step
                    == FetchStep::Done(Ok(p)),
            },
            PuzzleReply::Activity(Ok(true)) => {
                let (stage, s) = next_id_step(self.token, self.params);
                next == (PuzzleFetch { stage, ..self }) && step == s
            },
            PuzzleReply::Activity(_) => next == (PuzzleFetch {
                stage: FetchStage::Finished,
                daily: None,
                ..self
            }) && step == FetchStep::Done(Ok(self.daily->0)),
            PuzzleReply::NextId(Ok(id)) => next == (PuzzleFetch { stage: FetchStage::ById, ..self })
                && step == FetchStep::Request(PuzzleRequest::ById(id)),
            PuzzleReply::NextId(Err(e)) => if self.stage == FetchStage::NextAuthed {
                next == (PuzzleFetch { stage: FetchStage::NextAnonymous, ..self }) && step
                    == FetchStep::Request(PuzzleRequest::NextId(None, self.params))
            } else {
                next == (PuzzleFetch { stage: FetchStage::Finished, ..self }) && step
                    == FetchStep::Done(Err(e))
            },
            PuzzleReply::ById(r) => next == (PuzzleFetch { stage: FetchStage::Finished, ..self })
                && step == FetchStep::Done(r),
        }
    }

    /// Fetch the home screen's puzzle: start with the daily one.
    pub fn home(token: Option<TokenInfo>, params: PuzzleParams) -> (r: (Self, FetchStep))
        ensures
            r.0 == (PuzzleFetch { token, params, stage: FetchStage::Daily, daily: None }),
            r.1 == FetchStep::Request(PuzzleRequest::Daily),
    {
        (
            PuzzleFetch { token, params, stage: FetchStage::Daily, daily: None },
            FetchStep::Request(PuzzleRequest::Daily),
        )
    }

    /// Fetch a fresh puzzle for `params`: start with its id, asked with the
    /// token if there is one.
    pub fn next(token: Option<TokenInfo>, params: PuzzleParams) -> (r: (Self, FetchStep))
        ensures
            r.0 == (PuzzleFetch { token, params, stage: next_id_step(token, params).0, daily: None }),
            r.1 == next_id_step(token, params).1,
    {
        let (stage, step) = match &token {
            Some(t) => (
                FetchStage::NextAuthed,
                FetchStep::Request(PuzzleRequest::NextId(Some(t.duplicate()), params)),
            ),
            None => (FetchStage::NextAnonymous, FetchStep::Request(PuzzleRequest::NextId(None, params))),
        };
        (PuzzleFetch { token, params, stage, daily: None }, step)
    }

    pub fn advance(&mut self, reply: PuzzleReply) -> (step: FetchStep)
        requires
            old(self).expects(reply),
        ensures
            old(self).advanced(reply, *final(self), step),
    {
        match reply {
            PuzzleReply::Daily(Err(e)) => {
                self.stage = FetchStage::Finished;
                FetchStep::Done(Err(e))
            },
            PuzzleReply::Daily(Ok(p)) => match &self.token {
                Some(t) => {
                    let t = t.duplicate();
                    let id = copy_string(&p.id);
                    self.stage = FetchStage::Activity;
                    self.daily = Some(p);
                    FetchStep::Request(PuzzleRequest::Activity(t, id))
                },
                None => {
                    self.stage = FetchStage::Finished;
                    FetchStep::Done(Ok(p))
                },
            },
            PuzzleReply::Activity(Ok(true)) => {
                let step = match &self.token {
                    Some(t) => {
                        self.stage = FetchStage::NextAuthed;
                        FetchStep::Request(PuzzleRequest::NextId(Some(t.duplicate()), self.params))
                    },
                    None => {
                        self.stage = FetchStage::NextAnonymous;
                        FetchStep::Request(PuzzleRequest::NextId(None, self.params))
                    },
                };
                step
            },
            PuzzleReply::Activity(_) => {
                self.stage = FetchStage::Finished;
                let mut taken: Option<Puzzle> = None;
                core::mem::swap(&mut taken, &mut self.daily);
                let daily = match taken {
                    Some(p) => p,
                    None => return FetchStep::Done(Err(String::new())),
                };
                FetchStep::Done(Ok(daily))
            },
            PuzzleReply::NextId(Ok(id)) => {
                self.stage = FetchStage::ById;
                FetchStep::Request(PuzzleRequest::ById(id))
            },
            PuzzleReply::NextId(Err(e)) => {
                if self.stage == FetchStage::NextAuthed {
                    self.stage = FetchStage::NextAnonymous;
                    FetchStep::Request(PuzzleRequest::NextId(None, self.params))
                } else {
                    self.stage = FetchStage::Finished;
                    FetchStep::Done(Err(e))
                }
            },
            PuzzleReply::ById(r) => {
                self.stage = FetchStage::Finished;
                FetchStep::Done(r)
            },
        }
    }
}

} // verus!
