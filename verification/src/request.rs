//! What callers send: the request that creates an entity, the sparse request
//! that updates one, and the search query; with the constraints they are
//! held to and the rule that merges an update into an entity.

use crate::error::{RequestField, ValidationError};
use crate::timestamp::{Instant, Timestamp};
use crate::todo::{Todo, TodoView};
use validator::ValidateLength;
use vstd::prelude::*;

verus! {

/// The least number of characters of a required text.
pub const MIN_TEXT_LENGTH: u64 = 1;

/// Calls `ValidateLength::validate_length` of the validator crate on a text,
/// with a lower bound and no other: whether the number of characters of the
/// text reaches `min`.
#[verifier::external_body]
fn has_min_length(text: &str, min: u64) -> (ok: bool)
    ensures
        ok == (text@.len() >= min),
{
    text.validate_length(Some(min), None, None)
}

/// Whether a required text is long enough.
pub open spec fn long_enough(text: Seq<char>) -> bool {
    text.len() >= MIN_TEXT_LENGTH
}

/// The list that holds `field` where `ok` is false, and nothing otherwise.
pub open spec fn unless(ok: bool, field: RequestField) -> Seq<RequestField> {
    if ok {
        Seq::empty()
    } else {
        seq![field]
    }
}

/// What a check that found the fields `invalid` wanting reports.
pub open spec fn verdict(invalid: Seq<RequestField>) -> Result<(), Seq<RequestField>> {
    if invalid.len() == 0 {
        Ok(())
    } else {
        Err(invalid)
    }
}

/// The model of the result of a validation.
pub open spec fn verdict_view(checked: Result<(), ValidationError>) -> Result<
    (),
    Seq<RequestField>,
> {
    match checked {
        Ok(()) => Ok(()),
        Err(e) => Err(e@),
    }
}

fn report(invalid: Vec<RequestField>) -> (checked: Result<(), ValidationError>)
    ensures
        verdict_view(checked) == verdict(invalid@),
{
    if invalid.len() == 0 {
        Ok(())
    } else {
        Err(ValidationError { fields: invalid })
    }
}

/// Request to create an entity. The identifier, the completion flag and the
/// two bookkeeping timestamps are not part of it: they are assigned.
#[derive(Clone, Debug, PartialEq, Eq)]
pub struct CreateTodoRequest {
    pub subject: String,
    pub description: String,
    pub due_date: Timestamp,
}

/// Model of a [`CreateTodoRequest`].
pub struct CreateTodoRequestView {
    pub subject: Seq<char>,
    pub description: Seq<char>,
    pub due_date: Instant,
}

impl View for CreateTodoRequest {
    type V = CreateTodoRequestView;

    open spec fn view(&self) -> CreateTodoRequestView {
        CreateTodoRequestView {
            subject: self.subject@,
            description: self.description@,
            due_date: self.due_date@,
        }
    }
}

impl CreateTodoRequestView {
    /// The fields that break their constraint, in the order of declaration.
    pub open spec fn invalid_fields(self) -> Seq<RequestField> {
        unless(long_enough(self.subject), RequestField::Subject) + unless(
            long_enough(self.description),
            RequestField::Description,
        )
    }

    /// The entity that this request creates under the identifier `id` at the
    /// instant `now`: not done, created and last updated at `now`.
    pub open spec fn created(self, id: crate::identifier::TodoId, now: Instant) -> TodoView {
        TodoView {
            id,
            subject: self.subject,
            description: self.description,
            is_done: false,
            due_date: self.due_date,
            created_at: now,
            updated_at: now,
        }
    }
}

impl CreateTodoRequest {
    /// Accepts the request if subject and description hold at least one
    /// character each, and names the fields that do not otherwise.
    pub fn validate(&self) -> (checked: Result<(), ValidationError>)
        ensures
            verdict_view(checked) == verdict(self@.invalid_fields()),
            checked is Ok <==> long_enough(self@.subject) && long_enough(self@.description),
    {
        let mut invalid: Vec<RequestField> = Vec::new();
        if !has_min_length(self.subject.as_str(), MIN_TEXT_LENGTH) {
            invalid.push(RequestField::Subject);
        }
        if !has_min_length(self.description.as_str(), MIN_TEXT_LENGTH) {
            invalid.push(RequestField::Description);
        }
        assert(invalid@ =~= self@.invalid_fields());
        report(invalid)
    }
}

/// Request to change an entity. Each field is optional; one that is absent
/// leaves the entity's value as it is.
#[derive(Clone, Debug, PartialEq, Eq)]
pub struct UpdateTodoRequest {
    pub subject: Option<String>,
    pub description: Option<String>,
    pub is_done: Option<bool>,
    pub due_date: Option<Timestamp>,
}

/// Model of an [`UpdateTodoRequest`].
pub struct UpdateTodoRequestView {
    pub subject: Option<Seq<char>>,
    pub description: Option<Seq<char>>,
    pub is_done: Option<bool>,
    pub due_date: Option<Instant>,
}

/// The model of an optional text.
pub open spec fn text_view(text: Option<String>) -> Option<Seq<char>> {
    match text {
        Some(t) => Some(t@),
        None => None,
    }
}

impl View for UpdateTodoRequest {
    type V = UpdateTodoRequestView;

    open spec fn view(&self) -> UpdateTodoRequestView {
        UpdateTodoRequestView {
            subject: text_view(self.subject),
            description: text_view(self.description),
            is_done: self.is_done,
            due_date: Timestamp::views(self.due_date),
        }
    }
}

/// The value of a field after a merge: the update's where it has one, the
/// current one otherwise.
pub open spec fn preferred<T>(update: Option<T>, current: T) -> T {
    match update {
        Some(value) => value,
        None => current,
    }
}

impl UpdateTodoRequestView {
    /// Whether no field is present.
    pub open spec fn is_empty(self) -> bool {
        self.subject is None && self.description is None && self.is_done is None
            && self.due_date is None
    }

    /// Whether every field is present.
    pub open spec fn is_complete(self) -> bool {
        self.subject is Some && self.description is Some && self.is_done is Some
            && self.due_date is Some
    }

    /// The next state of `current` under this update. Identifier and both
    /// bookkeeping timestamps are carried over.
    pub open spec fn merged(self, current: TodoView) -> TodoView {
        TodoView {
            id: current.id,
            subject: preferred(self.subject, current.subject),
            description: preferred(self.description, current.description),
            is_done: preferred(self.is_done, current.is_done),
            due_date: preferred(self.due_date, current.due_date),
            created_at: current.created_at,
            updated_at: current.updated_at,
        }
    }
}

impl UpdateTodoRequest {
    /// A request that changes nothing.
    pub fn empty() -> (update: UpdateTodoRequest)
        ensures
            update@.is_empty(),
    {
        UpdateTodoRequest { subject: None, description: None, is_done: None, due_date: None }
    }

    /// Merges this update into `current`: each of the four fields takes the
    /// update's value if it is present and keeps the current one otherwise.
    pub fn merge(self, current: Todo) -> (next: Todo)
        ensures
            next@ == self@.merged(current@),
    {
        Todo {
            id: current.id,
            subject: match self.subject {
                Some(subject) => subject,
                None => current.subject,
            },
            description: match self.description {
                Some(description) => description,
                None => current.description,
            },
            is_done: match self.is_done {
                Some(is_done) => is_done,
                None => current.is_done,
            },
            due_date: match self.due_date {
                Some(due_date) => due_date,
                None => current.due_date,
            },
            created_at: current.created_at,
            updated_at: current.updated_at,
        }
    }
}

/// Merging an update without fields changes nothing.
pub proof fn lemma_merge_identity(update: UpdateTodoRequestView, current: TodoView)
    requires
        update.is_empty(),
    ensures
        update.merged(current) == current,
{
}

/// Merging an update in which every field is present gives the entity made
/// of the update's four values, under the identifier and the bookkeeping
/// timestamps of the current one.
pub proof fn lemma_merge_override(update: UpdateTodoRequestView, current: TodoView)
    requires
        update.is_complete(),
    ensures
        update.merged(current) == (TodoView {
            id: current.id,
            subject: update.subject->Some_0,
            description: update.description->Some_0,
            is_done: update.is_done->Some_0,
            due_date: update.due_date->Some_0,
            created_at: current.created_at,
            updated_at: current.updated_at,
        }),
{
}

/// An update never touches the identifier or the time of creation, and an
/// entity that was not updated before it was created stays so under any
/// update, whatever the clock says.
pub proof fn lemma_update_keeps_order(
    update: UpdateTodoRequestView,
    current: TodoView,
    now: Instant,
)
    ensures
        update.merged(current).refreshed(now).id == current.id,
        update.merged(current).refreshed(now).created_at == current.created_at,
        current.updated_at.at_or_before(update.merged(current).refreshed(now).updated_at),
        current.ordered() ==> update.merged(current).refreshed(now).ordered(),
{
}

/// A full-text query over the subjects.
#[derive(Clone, Debug, PartialEq, Eq)]
pub struct SearchTodo {
    pub q: String,
}

impl View for SearchTodo {
    type V = Seq<char>;

    open spec fn view(&self) -> Seq<char> {
        self.q@
    }
}

impl SearchTodo {
    /// Accepts the query if it holds at least one character.
    pub fn validate(&self) -> (checked: Result<(), ValidationError>)
        ensures
            verdict_view(checked) == verdict(unless(long_enough(self@), RequestField::Query)),
            checked is Ok <==> long_enough(self@),
    {
        let mut invalid: Vec<RequestField> = Vec::new();
        if !has_min_length(self.q.as_str(), MIN_TEXT_LENGTH) {
            invalid.push(RequestField::Query);
        }
        assert(invalid@ =~= unless(long_enough(self@), RequestField::Query));
        report(invalid)
    }
}

} // verus!
