use vstd::prelude::*;
use crate::scores::{
    answer_points, board_after_answer, board_of, keys_unique, points_for_answer, record_answer,
};
use crate::status::{MatchError, MatchStatus};

verus! {

/// A request that changes the match.
#[derive(Debug, Clone, PartialEq, Eq)]
pub enum MatchOperation {
    CreateMatch { host: String, question_count: u8 },
    StartMatch,
    SubmitAnswer { player: String, question_index: u8, answer: String },
    FinalizeMatch,
}

/// A read-only request.
#[derive(Debug, Clone, Copy, PartialEq, Eq, Structural)]
pub enum MatchQuery {
    GetState,
    GetScores,
}

/// What `GetState` reports.
#[derive(Debug, Clone, PartialEq, Eq)]
pub struct MatchStateView {
    pub host: String,
    pub status: MatchStatus,
    pub question_index: u8,
    pub total_questions: u8,
}

/// The answer to a query.
#[derive(Debug, Clone, PartialEq, Eq)]
pub enum MatchResponse {
    State(MatchStateView),
    Scores(Vec<(String, u32)>),
}

/// The stored state of one match.
pub struct MatchState {
    pub created: bool,
    pub host: String,
    pub status: MatchStatus,
    pub question_index: u8,
    pub total_questions: u8,
    pub scores: Vec<(String, u32)>,
}

/// The match as a mathematical value: identities are character sequences and
/// the score board is a map from player to points.
pub struct MatchModel {
    pub created: bool,
    pub host: Seq<char>,
    pub status: MatchStatus,
    pub question_index: u8,
    pub total_questions: u8,
    pub scores: Map<Seq<char>, u32>,
}

impl View for MatchState {
    type V = MatchModel;

    open spec fn view(&self) -> MatchModel {
        MatchModel {
            created: self.created,
            host: self.host@,
            status: self.status,
            question_index: self.question_index,
            total_questions: self.total_questions,
            scores: board_of(self.scores@),
        }
    }
}

/// A match that has not been created yet is waiting, at question 0, with no scores.
pub open spec fn model_wf(m: MatchModel) -> bool {
    &&& m.question_index <= m.total_questions
    &&& !m.created ==> m.status == MatchStatus::Waiting && m.question_index == 0
        && m.scores.dom().is_empty()
}

/// The state in which an application starts: no match yet.
pub open spec fn initial_model() -> MatchModel {
    MatchModel {
        created: false,
        host: Seq::empty(),
        status: MatchStatus::Waiting,
        question_index: 0,
        total_questions: 0,
        scores: Map::empty(),
    }
}

/// The effect of one operation: the next match and the outcome. A rejected
/// operation leaves the match as it was.
pub open spec fn apply_op(m: MatchModel, op: MatchOperation) -> (MatchModel, Result<(), MatchError>) {
    match op {
        MatchOperation::CreateMatch { host, question_count } => {
            if m.created {
                (m, Err(MatchError::DuplicateCreation))
            } else {
                (
                    MatchModel {
                        created: true,
                        host: host@,
                        status: MatchStatus::Waiting,
                        question_index: 0,
                        total_questions: question_count,
                        ..m
                    },
                    Ok(()),
                )
            }
        },
        MatchOperation::StartMatch => {
            if !m.created {
                (m, Err(MatchError::NotFound))
            } else if m.status != MatchStatus::Waiting {
                (m, Err(MatchError::InvalidTransition))
            } else {
                (MatchModel { status: MatchStatus::Active, question_index: 0, ..m }, Ok(()))
            }
        },
        MatchOperation::SubmitAnswer { player, question_index, answer } => {
            if !m.created {
                (m, Err(MatchError::NotFound))
            } else if m.status != MatchStatus::Active {
                (m, Err(MatchError::InvalidTransition))
            } else if question_index >= m.total_questions {
                (m, Err(MatchError::OutOfRange))
            } else {
                (
                    MatchModel {
                        scores: board_after_answer(
                            m.scores,
                            player@,
                            points_for_answer(player@, question_index, answer@),
                        ),
                        ..m
                    },
                    Ok(()),
                )
            }
        },
        MatchOperation::FinalizeMatch => {
            if !m.created {
                (m, Err(MatchError::NotFound))
            } else if m.status != MatchStatus::Active {
                (m, Err(MatchError::InvalidTransition))
            } else {
                (MatchModel { status: MatchStatus::Finished, ..m }, Ok(()))
            }
        },
    }
}

/// The match after a sequence of operations, applied in order.
pub open spec fn run_ops(m: MatchModel, ops: Seq<MatchOperation>) -> MatchModel
    decreases ops.len(),
{
    if ops.len() == 0 {
        m
    } else {
        apply_op(run_ops(m, ops.drop_last()), ops.last()).0
    }
}

/// `GetState`'s report describes exactly the match `m`.
pub open spec fn reports_state(v: MatchStateView, m: MatchModel) -> bool {
    &&& v.host@ == m.host
    &&& v.status == m.status
    &&& v.question_index == m.question_index
    &&& v.total_questions == m.total_questions
}

impl MatchState {
    pub open spec fn wf(&self) -> bool {
        &&& keys_unique(self.scores@)
        &&& model_wf(self@)
    }
}

/// One quiz match's coordinator: applies operations and answers queries.
pub struct MatchApp {
    pub state: MatchState,
}

impl MatchApp {
    pub open spec fn wf(&self) -> bool {
        self.state.wf()
    }

    /// A coordinator with no match created yet.
    pub fn initialize() -> (app: MatchApp)
        ensures
            app.wf(),
            app.state@ == initial_model(),
    {
        let app = MatchApp {
            state: MatchState {
                created: false,
                host: String::new(),
                status: MatchStatus::Waiting,
                question_index: 0,
                total_questions: 0,
                scores: Vec::new(),
            },
        };
        assert(app.state@.scores =~= Map::empty());
        assert(app.state@.host =~= Seq::empty());
        app
    }

    /// Applies one operation. Each one is checked before anything is changed:
    /// a rejected operation leaves the match untouched.
    pub fn execute_operation(&mut self, operation: MatchOperation) -> (r: Result<(), MatchError>)
        requires
            old(self).wf(),
        ensures
            final(self).wf(),
            (final(self).state@, r) == apply_op(old(self).state@, operation),
    {
        match operation {
            MatchOperation::CreateMatch { host, question_count } => {
                if self.state.created {
                    return Err(MatchError::DuplicateCreation);
                }
                self.state.created = true;
                self.state.host = host;
                self.state.total_questions = question_count;
                self.state.status = MatchStatus::Waiting;
                self.state.question_index = 0;
                Ok(())
            },
            MatchOperation::StartMatch => {
                if !self.state.created {
                    return Err(MatchError::NotFound);
                }
                if self.state.status != MatchStatus::Waiting {
                    return Err(MatchError::InvalidTransition);
                }
                self.state.status = MatchStatus::Active;
                self.state.question_index = 0;
                Ok(())
            },
            MatchOperation::SubmitAnswer { player, question_index, answer } => {
                if !self.state.created {
                    return Err(MatchError::NotFound);
                }
                if !self.state.status.accepts_answers() {
                    return Err(MatchError::InvalidTransition);
                }
                if question_index >= self.state.total_questions {
                    return Err(MatchError::OutOfRange);
                }
                let delta = answer_points(&player, question_index, &answer);
                record_answer(&mut self.state.scores, &player, delta);
                Ok(())
            },
            MatchOperation::FinalizeMatch => {
                if !self.state.created {
                    return Err(MatchError::NotFound);
                }
                if self.state.status != MatchStatus::Active {
                    return Err(MatchError::InvalidTransition);
                }
                self.state.status = MatchStatus::Finished;
                Ok(())
            },
        }
    }

    /// Cross-match messages carry nothing yet and change nothing.
    pub fn execute_message(&mut self, message: ())
        ensures
            final(self).state@ == old(self).state@,
    {
    }

    /// Answers a query from the current state, which it does not change.
    /// Before a match is created every query is `NotFound`.
    pub fn handle_query(&self, query: MatchQuery) -> (r: Result<MatchResponse, MatchError>)
        requires
            self.wf(),
        ensures
            !self.state.created ==> r == Err::<MatchResponse, MatchError>(MatchError::NotFound),
            self.state.created ==> match query {
                MatchQuery::GetState => match r {
                    Ok(MatchResponse::State(v)) => reports_state(v, self.state@),
                    _ => false,
                },
                MatchQuery::GetScores => match r {
                    Ok(MatchResponse::Scores(v)) => v@ == self.state.scores@
                        && keys_unique(v@) && board_of(v@) == self.state@.scores,
                    _ => false,
                },
            },
    {
        if !self.state.created {
            return Err(MatchError::NotFound);
        }
        match query {
            MatchQuery::GetState => Ok(
                MatchResponse::State(
                    MatchStateView {
                        host: self.state.host.clone(),
                        status: self.state.status,
                        question_index: self.state.question_index,
                        total_questions: self.state.total_questions,
                    },
                ),
            ),
            MatchQuery::GetScores => Ok(MatchResponse::Scores(self.score_list())),
        }
    }

    /// A copy of the score board, one `(player, points)` pair per player.
    pub fn score_list(&self) -> (v: Vec<(String, u32)>)
        ensures
            v@ == self.state.scores@,
    {
        let mut v: Vec<(String, u32)> = Vec::new();
        let mut i: usize = 0;
        while i < self.state.scores.len()
            invariant
                0 <= i <= self.state.scores.len(),
                v@ == self.state.scores@.take(i as int),
            decreases self.state.scores.len() - i,
        {
            let entry = &self.state.scores[i];
            v.push((entry.0.clone(), entry.1));
            assert(self.state.scores@.take(i + 1) =~= self.state.scores@.take(i as int).push(*entry));
            i += 1;
        }
        assert(self.state.scores@.take(i as int) =~= self.state.scores@);
        v
    }
}

} // verus!
