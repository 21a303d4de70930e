//! Provisioning of the store: the table of to-do records, the text analyzer
//! and the search index over the subjects, defined in that order.

use vstd::prelude::*;

verus! {

/// Defines the table with its six typed fields. The table is schemafull:
/// the store rejects any other field.
pub const TABLE_STATEMENT: &'static str =
    "DEFINE TABLE todo SCHEMAFULL; DEFINE FIELD subject ON todo TYPE string; DEFINE FIELD description ON todo TYPE string; DEFINE FIELD due_date ON todo TYPE datetime; DEFINE FIELD is_done ON todo TYPE bool; DEFINE FIELD created_at ON todo TYPE datetime; DEFINE FIELD updated_at ON todo TYPE datetime;";

/// Defines the analyzer: tokens are split where the character class
/// changes and reduced to their English stems.
pub const ANALYZER_STATEMENT: &'static str =
    "DEFINE ANALYZER english TOKENIZERS class FILTERS snowball(english);";

/// Defines the search index over the subjects, ranked by BM25 and driven by
/// the analyzer.
pub const INDEX_STATEMENT: &'static str =
    "DEFINE INDEX todoSearchIndex ON TABLE todo COLUMNS subject SEARCH ANALYZER english BM25;";

/// One definition that provisioning sends to the store.
#[derive(Clone, Copy, Debug, PartialEq, Eq, Hash, Structural)]
pub enum ProvisionStep {
    Table,
    Analyzer,
    Index,
}

/// How far provisioning has come: the step that is due, or nothing left.
#[derive(Clone, Copy, Debug, PartialEq, Eq, Hash, Structural)]
pub enum Provisioning {
    Due(ProvisionStep),
    Complete,
}

/// A definition was refused by the store. Nothing is undone and nothing
/// further is tried: provisioning is run again from the start.
#[derive(Clone, Debug, PartialEq, Eq)]
pub struct ProvisionError {
    pub step: ProvisionStep,
    pub message: String,
}

/// Model of a [`ProvisionError`].
pub struct ProvisionFault {
    pub step: ProvisionStep,
    pub message: Seq<char>,
}

impl View for ProvisionError {
    type V = ProvisionFault;

    open spec fn view(&self) -> ProvisionFault {
        ProvisionFault { step: self.step, message: self.message@ }
    }
}

impl ProvisionStep {
    /// The statement that the step sends.
    pub open spec fn statement_text(self) -> Seq<char> {
        match self {
            ProvisionStep::Table => TABLE_STATEMENT@,
            ProvisionStep::Analyzer => ANALYZER_STATEMENT@,
            ProvisionStep::Index => INDEX_STATEMENT@,
        }
    }

    /// What is due once the step has succeeded. The index comes last: it
    /// needs the table and the analyzer.
    pub open spec fn successor(self) -> Provisioning {
        match self {
            ProvisionStep::Table => Provisioning::Due(ProvisionStep::Analyzer),
            ProvisionStep::Analyzer => Provisioning::Due(ProvisionStep::Index),
            ProvisionStep::Index => Provisioning::Complete,
        }
    }

    /// The statement that the step sends.
    pub fn statement(&self) -> (statement: &'static str)
        ensures
            statement@ == self.statement_text(),
    {
        match self {
            ProvisionStep::Table => TABLE_STATEMENT,
            ProvisionStep::Analyzer => ANALYZER_STATEMENT,
            ProvisionStep::Index => INDEX_STATEMENT,
        }
    }
}

/// The model of what the store said to a statement: nothing, or a message.
pub open spec fn outcome_view(outcome: Result<(), String>) -> Result<(), Seq<char>> {
    match outcome {
        Ok(()) => Ok(()),
        Err(message) => Err(message@),
    }
}

/// The model of the result of a step of provisioning.
pub open spec fn progress_view(progress: Result<Provisioning, ProvisionError>) -> Result<
    Provisioning,
    ProvisionFault,
> {
    match progress {
        Ok(state) => Ok(state),
        Err(e) => Err(e@),
    }
}

impl Provisioning {
    /// Where provisioning stands after the store has answered the statement
    /// that was due. Success moves on to the next step; a failure is final
    /// and names the step. With nothing due, nothing changes.
    pub open spec fn after(self, outcome: Result<(), Seq<char>>) -> Result<
        Provisioning,
        ProvisionFault,
    > {
        match self {
            Provisioning::Complete => Ok(Provisioning::Complete),
            Provisioning::Due(step) => match outcome {
                Ok(()) => Ok(step.successor()),
                Err(message) => Err(ProvisionFault { step, message }),
            },
        }
    }

    /// Where provisioning stands after the store has answered a run of
    /// statements, each sent when it was due. The first failure ends the run.
    pub open spec fn after_all(self, outcomes: Seq<Result<(), Seq<char>>>) -> Result<
        Provisioning,
        ProvisionFault,
    >
        decreases outcomes.len(),
    {
        if outcomes.len() == 0 {
            Ok(self)
        } else {
            match self.after(outcomes[0]) {
                Ok(next) => next.after_all(outcomes.drop_first()),
                Err(fault) => Err(fault),
            }
        }
    }

    /// The number of steps that are still to be done.
    pub open spec fn steps_left(self) -> nat {
        match self {
            Provisioning::Due(ProvisionStep::Table) => 3,
            Provisioning::Due(ProvisionStep::Analyzer) => 2,
            Provisioning::Due(ProvisionStep::Index) => 1,
            Provisioning::Complete => 0,
        }
    }

    /// Provisioning always starts with the table, whatever the store holds
    /// already.
    pub fn start() -> (state: Provisioning)
        ensures
            state == Provisioning::Due(ProvisionStep::Table),
    {
        Provisioning::Due(ProvisionStep::Table)
    }

    /// The statement to send next; `None` when provisioning is complete.
    pub fn statement(&self) -> (statement: Option<&'static str>)
        ensures
            match *self {
                Provisioning::Due(step) => statement matches Some(text) && text@
                    == step.statement_text(),
                Provisioning::Complete => statement is None,
            },
    {
        match self {
            Provisioning::Due(step) => Some(step.statement()),
            Provisioning::Complete => None,
        }
    }

    /// Takes the store's answer to the statement that was due.
    pub fn advance(self, outcome: Result<(), String>) -> (progress: Result<
        Provisioning,
        ProvisionError,
    >)
        ensures
            progress_view(progress) == self.after(outcome_view(outcome)),
    {
        match self {
            Provisioning::Complete => Ok(Provisioning::Complete),
            Provisioning::Due(step) => match outcome {
                Ok(()) => Ok(
                    match step {
                        ProvisionStep::Table => Provisioning::Due(ProvisionStep::Analyzer),
                        ProvisionStep::Analyzer => Provisioning::Due(ProvisionStep::Index),
                        ProvisionStep::Index => Provisioning::Complete,
                    },
                ),
                Err(message) => Err(ProvisionError { step, message }),
            },
        }
    }
}

/// A run of statements that the store accepts throughout never fails, and
/// it completes the provisioning if it is at least as long as the steps that
/// were left.
pub proof fn lemma_accepted_run_completes(
    state: Provisioning,
    outcomes: Seq<Result<(), Seq<char>>>,
)
    requires
        forall|k: int| 0 <= k < outcomes.len() ==> (#[trigger] outcomes[k]) is Ok,
    ensures
        state.after_all(outcomes) is Ok,
        outcomes.len() >= state.steps_left() ==> state.after_all(outcomes) == Ok::<
            Provisioning,
            ProvisionFault,
        >(Provisioning::Complete),
    decreases outcomes.len(),
{
    if outcomes.len() > 0 {
        let rest = outcomes.drop_first();
        assert(outcomes[0] is Ok);
        assert forall|k: int| 0 <= k < rest.len() implies (#[trigger] rest[k]) is Ok by {
            assert(rest[k] == outcomes[k + 1]);
        }
        lemma_accepted_run_completes(state.after(outcomes[0])->Ok_0, rest);
    }
}

/// A run of statements fails only where the store refuses a statement after
/// having accepted all before it, and the error carries the message of that
/// refusal.
pub proof fn lemma_failed_run_has_refusal(
    state: Provisioning,
    outcomes: Seq<Result<(), Seq<char>>>,
)
    requires
        state.after_all(outcomes) is Err,
    ensures
        exists|k: int|
            {
                &&& 0 <= k < outcomes.len()
                &&& (#[trigger] outcomes[k]) == Err::<(), Seq<char>>(
                    state.after_all(outcomes)->Err_0.message,
                )
                &&& forall|j: int| 0 <= j < k ==> (#[trigger] outcomes[j]) is Ok
            },
    decreases outcomes.len(),
{
    let fault = state.after_all(outcomes)->Err_0;
    match state.after(outcomes[0]) {
        Ok(next) => {
            let rest = outcomes.drop_first();
            lemma_failed_run_has_refusal(next, rest);
            let k = choose|k: int|
                {
                    &&& 0 <= k < rest.len()
                    &&& (#[trigger] rest[k]) == Err::<(), Seq<char>>(fault.message)
                    &&& forall|j: int| 0 <= j < k ==> (#[trigger] rest[j]) is Ok
                };
            assert(outcomes[k + 1] == rest[k]);
            assert(state is Due ==> outcomes[0] is Ok);
            assert forall|j: int| 0 <= j < k + 1 implies (#[trigger] outcomes[j]) is Ok by {
                if j > 0 {
                    assert(outcomes[j] == rest[j - 1]);
                } else {
                    lemma_complete_never_fails(rest);
                }
            }
        },
        Err(_) => {
            assert(outcomes[0] == Err::<(), Seq<char>>(fault.message));
        },
    }
}

/// Once provisioning is complete no answer changes that.
pub proof fn lemma_complete_never_fails(outcomes: Seq<Result<(), Seq<char>>>)
    ensures
        Provisioning::Complete.after_all(outcomes) == Ok::<Provisioning, ProvisionFault>(
            Provisioning::Complete,
        ),
    decreases outcomes.len(),
{
    if outcomes.len() > 0 {
        lemma_complete_never_fails(outcomes.drop_first());
    }
}

} // verus!
