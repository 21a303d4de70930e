//! The to-do entity, the record under which the store keeps it, and the
//! codec between the two.

use crate::error::{DataIntegrityError, DataIntegrityFault, RecordField};
use crate::identifier::{ulid_text, RecordId, RecordIdView, TodoId};
use crate::request::CreateTodoRequest;
use crate::timestamp::{Instant, Timestamp};
use vstd::prelude::*;
use vstd::std_specs::convert::FromSpecImpl;

verus! {

/// A unit of work as callers see it.
#[derive(Clone, Debug, PartialEq, Eq)]
pub struct Todo {
    pub id: TodoId,
    pub subject: String,
    pub description: String,
    pub is_done: bool,
    pub due_date: Timestamp,
    pub created_at: Timestamp,
    pub updated_at: Timestamp,
}

/// Model of a [`Todo`].
pub struct TodoView {
    pub id: TodoId,
    pub subject: Seq<char>,
    pub description: Seq<char>,
    pub is_done: bool,
    pub due_date: Instant,
    pub created_at: Instant,
    pub updated_at: Instant,
}

impl View for Todo {
    type V = TodoView;

    open spec fn view(&self) -> TodoView {
        TodoView {
            id: self.id,
            subject: self.subject@,
            description: self.description@,
            is_done: self.is_done,
            due_date: self.due_date@,
            created_at: self.created_at@,
            updated_at: self.updated_at@,
        }
    }
}

/// A to-do entity in the shape in which the store keeps it: the identifier
/// is a reference into the table, the three timestamps are text.
#[derive(Clone, Debug, PartialEq, Eq)]
pub struct TodoModel {
    pub id: RecordId,
    pub subject: String,
    pub description: String,
    pub is_done: bool,
    pub due_date: String,
    pub created_at: String,
    pub updated_at: String,
}

/// Model of a [`TodoModel`].
pub struct TodoModelView {
    pub id: RecordIdView,
    pub subject: Seq<char>,
    pub description: Seq<char>,
    pub is_done: bool,
    pub due_date: Seq<char>,
    pub created_at: Seq<char>,
    pub updated_at: Seq<char>,
}

impl View for TodoModel {
    type V = TodoModelView;

    open spec fn view(&self) -> TodoModelView {
        TodoModelView {
            id: self.id@,
            subject: self.subject@,
            description: self.description@,
            is_done: self.is_done,
            due_date: self.due_date@,
            created_at: self.created_at@,
            updated_at: self.updated_at@,
        }
    }
}

impl TodoView {
    /// Whether the three timestamps are valid instants.
    pub open spec fn well_formed(self) -> bool {
        self.due_date.valid() && self.created_at.valid() && self.updated_at.valid()
    }

    /// Whether the entity was not updated before it was created.
    pub open spec fn ordered(self) -> bool {
        self.created_at.at_or_before(self.updated_at)
    }

    /// The record under which the store keeps this entity.
    pub open spec fn encoded(self) -> TodoModelView {
        TodoModelView {
            id: self.id.reference(),
            subject: self.subject,
            description: self.description,
            is_done: self.is_done,
            due_date: self.due_date.text(),
            created_at: self.created_at.text(),
            updated_at: self.updated_at.text(),
        }
    }

    /// This entity with `updated_at` moved forward to `now`, and left alone
    /// where `now` is not later.
    pub open spec fn refreshed(self, now: Instant) -> TodoView {
        TodoView { updated_at: self.updated_at.later(now), ..self }
    }

    /// The entity as it is rendered to callers: the identifier in its
    /// canonical text, everything else as it is.
    pub open spec fn response(self) -> TodoResponseView {
        TodoResponseView {
            id: ulid_text(self.id.0),
            subject: self.subject,
            description: self.description,
            is_done: self.is_done,
            due_date: self.due_date,
            created_at: self.created_at,
            updated_at: self.updated_at,
        }
    }
}

impl TodoModelView {
    /// The entity that the record yields once its identifier and timestamps
    /// have been read, or the error for the first of them that could not be:
    /// the identifier, then the due date, the creation and the update time.
    /// Subject, description and completion flag are taken over as they are.
    pub open spec fn assembled(
        self,
        id: Result<TodoId, DataIntegrityFault>,
        due_date: Option<Instant>,
        created_at: Option<Instant>,
        updated_at: Option<Instant>,
    ) -> Result<TodoView, DataIntegrityFault> {
        if let Err(fault) = id {
            Err(fault)
        } else if due_date is None {
            Err(DataIntegrityFault { field: RecordField::DueDate, raw: self.due_date })
        } else if created_at is None {
            Err(DataIntegrityFault { field: RecordField::CreatedAt, raw: self.created_at })
        } else if updated_at is None {
            Err(DataIntegrityFault { field: RecordField::UpdatedAt, raw: self.updated_at })
        } else {
            Ok(
                TodoView {
                    id: id->Ok_0,
                    subject: self.subject,
                    description: self.description,
                    is_done: self.is_done,
                    due_date: due_date->Some_0,
                    created_at: created_at->Some_0,
                    updated_at: updated_at->Some_0,
                },
            )
        }
    }

    /// The entity that the record decodes to, or the error that names the
    /// first field that does not decode.
    pub open spec fn decoded(self) -> Result<TodoView, DataIntegrityFault> {
        self.assembled(
            TodoId::parsed(self.id.key),
            Instant::parsed(self.due_date),
            Instant::parsed(self.created_at),
            Instant::parsed(self.updated_at),
        )
    }
}

/// Decoding fails closed: whatever a record decodes to has three valid
/// timestamps, and carries subject, description and completion flag of the
/// record unchanged.
pub proof fn lemma_decoded_is_well_formed(record: TodoModelView)
    ensures
        record.decoded() matches Ok(todo) ==> {
            &&& todo.well_formed()
            &&& todo.subject == record.subject
            &&& todo.description == record.description
            &&& todo.is_done == record.is_done
        },
{
}

/// Decoding names the field at fault: an error on the due date means that
/// the identifier was read and the due date was not, and the error carries
/// the text of the due date; likewise for the other fields, in the order
/// identifier, due date, creation time, update time.
pub proof fn lemma_decode_failure_names_field(record: TodoModelView)
    ensures
        record.decoded() matches Err(fault) ==> {
            &&& fault.field == RecordField::Id <==> TodoId::parsed(record.id.key) is Err
            &&& fault.field == RecordField::Id ==> fault.raw == record.id.key
            &&& fault.field == RecordField::DueDate ==> Instant::parsed(record.due_date) is None
                && fault.raw == record.due_date
            &&& fault.field == RecordField::CreatedAt ==> Instant::parsed(record.created_at)
                is None && fault.raw == record.created_at
            &&& fault.field == RecordField::UpdatedAt ==> Instant::parsed(record.updated_at)
                is None && fault.raw == record.updated_at
        },
        record.decoded() is Ok <==> {
            &&& TodoId::parsed(record.id.key) is Ok
            &&& Instant::parsed(record.due_date) is Some
            &&& Instant::parsed(record.created_at) is Some
            &&& Instant::parsed(record.updated_at) is Some
        },
{
}

impl Todo {
    /// The entity that `data` creates under the identifier `id` at the
    /// instant `now`: not done, created and last updated at `now`.
    pub fn new(id: TodoId, data: CreateTodoRequest, now: Timestamp) -> (todo: Todo)
        ensures
            todo@ == data@.created(id, now@),
            todo@.ordered(),
    {
        Todo {
            id,
            subject: data.subject,
            description: data.description,
            is_done: false,
            due_date: data.due_date,
            created_at: now,
            updated_at: now,
        }
    }

    /// The entity that `data` creates now, under a fresh identifier. Which
    /// identifier and which instant is up to the generator and the clock;
    /// the rest is fixed by `data`.
    pub fn from_request(data: CreateTodoRequest) -> (todo: Todo)
        ensures
            todo@ == data@.created(todo@.id, todo@.created_at),
            todo@.created_at.valid(),
            todo@.ordered(),
    {
        let now = Timestamp::now();
        Todo::new(TodoId::new(), data, now)
    }

    /// The model of the result of decoding a record.
    pub open spec fn views(decoded: Result<Todo, DataIntegrityError>) -> Result<
        TodoView,
        DataIntegrityFault,
    > {
        match decoded {
            Ok(todo) => Ok(todo@),
            Err(e) => Err(e@),
        }
    }

    /// Puts an entity together from a record and what was read from its
    /// identifier and timestamps. The first of these that is missing, in the
    /// order of the parameters, decides the error.
    pub fn from_parts(
        model: TodoModel,
        id: Result<TodoId, DataIntegrityError>,
        due_date: Option<Timestamp>,
        created_at: Option<Timestamp>,
        updated_at: Option<Timestamp>,
    ) -> (decoded: Result<Todo, DataIntegrityError>)
        ensures
            Self::views(decoded) == model@.assembled(
                TodoId::views(id),
                Timestamp::views(due_date),
                Timestamp::views(created_at),
                Timestamp::views(updated_at),
            ),
    {
        let id = match id {
            Ok(id) => id,
            Err(e) => {
                return Err(e);
            },
        };
        let due_date = match due_date {
            Some(at) => at,
            None => {
                return Err(DataIntegrityError { field: RecordField::DueDate, raw: model.due_date });
            },
        };
        let created_at = match created_at {
            Some(at) => at,
            None => {
                return Err(
                    DataIntegrityError { field: RecordField::CreatedAt, raw: model.created_at },
                );
            },
        };
        let updated_at = match updated_at {
            Some(at) => at,
            None => {
                return Err(
                    DataIntegrityError { field: RecordField::UpdatedAt, raw: model.updated_at },
                );
            },
        };
        Ok(
            Todo {
                id,
                subject: model.subject,
                description: model.description,
                is_done: model.is_done,
                due_date,
                created_at,
                updated_at,
            },
        )
    }

    /// Decodes a stored record. Malformed stored data is reported, with the
    /// field and its text, and never ends the process.
    pub fn decode(model: TodoModel) -> (decoded: Result<Todo, DataIntegrityError>)
        ensures
            Self::views(decoded) == model@.decoded(),
    {
        let id = TodoId::from_record_id(&model.id);
        let due_date = Timestamp::parse(model.due_date.as_str());
        let created_at = Timestamp::parse(model.created_at.as_str());
        let updated_at = Timestamp::parse(model.updated_at.as_str());
        Todo::from_parts(model, id, due_date, created_at, updated_at)
    }

    /// Encodes this entity as the record to store. Decoding that record
    /// gives the entity back, field for field.
    pub fn encode(&self) -> (model: TodoModel)
        ensures
            model@ == self@.encoded(),
            model@.decoded() == Ok::<TodoView, DataIntegrityFault>(self@),
    {
        TodoModel {
            id: self.id.to_record_id(),
            subject: self.subject.clone(),
            description: self.description.clone(),
            is_done: self.is_done,
            due_date: self.due_date.to_text(),
            created_at: self.created_at.to_text(),
            updated_at: self.updated_at.to_text(),
        }
    }

    /// This entity with `updated_at` moved forward to `now`. The time of the
    /// last update never moves backwards, so an entity that was in order
    /// stays so.
    pub fn refreshed(self, now: Timestamp) -> (todo: Todo)
        ensures
            todo@ == self@.refreshed(now@),
            self@.ordered() ==> todo@.ordered(),
    {
        let updated_at = self.updated_at.later(now);
        Todo {
            id: self.id,
            subject: self.subject,
            description: self.description,
            is_done: self.is_done,
            due_date: self.due_date,
            created_at: self.created_at,
            updated_at,
        }
    }
}

/// An entity as it is rendered to callers.
#[derive(Clone, Debug, PartialEq, Eq)]
pub struct TodoResponse {
    pub id: String,
    pub subject: String,
    pub description: String,
    pub is_done: bool,
    pub due_date: Timestamp,
    pub created_at: Timestamp,
    pub updated_at: Timestamp,
}

/// Model of a [`TodoResponse`].
pub struct TodoResponseView {
    pub id: Seq<char>,
    pub subject: Seq<char>,
    pub description: Seq<char>,
    pub is_done: bool,
    pub due_date: Instant,
    pub created_at: Instant,
    pub updated_at: Instant,
}

impl View for TodoResponse {
    type V = TodoResponseView;

    open spec fn view(&self) -> TodoResponseView {
        TodoResponseView {
            id: self.id@,
            subject: self.subject@,
            description: self.description@,
            is_done: self.is_done,
            due_date: self.due_date@,
            created_at: self.created_at@,
            updated_at: self.updated_at@,
        }
    }
}

impl From<Todo> for TodoResponse {
    /// Renders an entity: the identifier becomes its canonical text.
    fn from(value: Todo) -> (response: TodoResponse)
        ensures
            response@ == value@.response(),
    {
        TodoResponse {
            id: value.id.to_text(),
            subject: value.subject,
            description: value.description,
            is_done: value.is_done,
            due_date: value.due_date,
            created_at: value.created_at,
            updated_at: value.updated_at,
        }
    }
}

impl FromSpecImpl<Todo> for TodoResponse {
    /// The rendering is stated over the models, by the contract of `from`.
    open spec fn obeys_from_spec() -> bool {
        false
    }

    open spec fn from_spec(v: Todo) -> TodoResponse {
        arbitrary()
    }
}

} // verus!
