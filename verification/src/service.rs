//! The entity service: create, fetch, update, delete and search, each as a
//! short exchange with the store. The service decides what to ask and what
//! to make of each answer; it holds no state between operations.

use crate::error::{
    ApplicationError, ApplicationFault, DataIntegrityError, DataIntegrityFault, RequestField,
};
use crate::identifier::{TodoId, TODO_TABLE};
use crate::request::{
    long_enough, CreateTodoRequest, CreateTodoRequestView, SearchTodo, UpdateTodoRequest,
    UpdateTodoRequestView,
};
use crate::store::{
    model_views, SearchQuery, SearchQueryView, StoreReply, StoreReplyView, StoreRequest,
    StoreRequestView,
};
use crate::timestamp::{Instant, Timestamp};
use crate::todo::{Todo, TodoModel, TodoModelView, TodoView};
use vstd::prelude::*;

verus! {

/// The field that the search index covers.
pub const SEARCH_FIELD: &'static str = "subject";

/// The message of the error for an answer that does not fit the request.
pub const UNEXPECTED_REPLY: &'static str = "unexpected reply from the store";

/// What a caller asks of the service.
#[derive(Clone, Debug, PartialEq, Eq)]
pub enum Operation {
    Create(CreateTodoRequest),
    Get(TodoId),
    Update(TodoId, UpdateTodoRequest),
    Delete(TodoId),
    Search(SearchTodo),
}

/// Model of an [`Operation`].
pub enum OperationView {
    Create(CreateTodoRequestView),
    Get(TodoId),
    Update(TodoId, UpdateTodoRequestView),
    Delete(TodoId),
    Search(Seq<char>),
}

impl View for Operation {
    type V = OperationView;

    open spec fn view(&self) -> OperationView {
        match self {
            Operation::Create(request) => OperationView::Create(request@),
            Operation::Get(id) => OperationView::Get(*id),
            Operation::Update(id, request) => OperationView::Update(*id, request@),
            Operation::Delete(id) => OperationView::Delete(*id),
            Operation::Search(query) => OperationView::Search(query@),
        }
    }
}

/// What an operation that succeeded hands back.
#[derive(Clone, Debug, PartialEq, Eq)]
pub enum Outcome {
    /// The entity that was created, fetched or updated.
    Entity(Todo),
    /// The entities that a search found, best match first.
    Entities(Vec<Todo>),
    /// The entity is deleted.
    Deleted,
}

/// Model of an [`Outcome`].
pub enum OutcomeView {
    Entity(TodoView),
    Entities(Seq<TodoView>),
    Deleted,
}

/// The models of a list of entities.
pub open spec fn todo_views(todos: Seq<Todo>) -> Seq<TodoView> {
    Seq::new(todos.len(), |i: int| todos[i]@)
}

impl View for Outcome {
    type V = OutcomeView;

    open spec fn view(&self) -> OutcomeView {
        match self {
            Outcome::Entity(todo) => OutcomeView::Entity(todo@),
            Outcome::Entities(todos) => OutcomeView::Entities(todo_views(todos@)),
            Outcome::Deleted => OutcomeView::Deleted,
        }
    }
}

/// What an operation is waiting for while a request is with the store.
#[derive(Clone, Debug, PartialEq, Eq)]
pub enum Pending {
    /// The record of a new entity is being stored.
    Creating,
    /// The record of the entity to return is being fetched.
    Fetching,
    /// The record of the entity to update is being fetched.
    FetchingToUpdate(UpdateTodoRequest),
    /// The record of the updated entity is being stored.
    Updating,
    /// The record of the entity to delete is being looked up.
    FetchingToDelete(TodoId),
    /// The record is being removed.
    Deleting,
    /// The search is running.
    Searching,
}

/// Model of a [`Pending`].
pub enum PendingView {
    Creating,
    Fetching,
    FetchingToUpdate(UpdateTodoRequestView),
    Updating,
    FetchingToDelete(TodoId),
    Deleting,
    Searching,
}

impl View for Pending {
    type V = PendingView;

    open spec fn view(&self) -> PendingView {
        match self {
            Pending::Creating => PendingView::Creating,
            Pending::Fetching => PendingView::Fetching,
            Pending::FetchingToUpdate(request) => PendingView::FetchingToUpdate(request@),
            Pending::Updating => PendingView::Updating,
            Pending::FetchingToDelete(id) => PendingView::FetchingToDelete(*id),
            Pending::Deleting => PendingView::Deleting,
            Pending::Searching => PendingView::Searching,
        }
    }
}

/// Where an operation stands: it has a request for the store, or it is
/// finished.
#[derive(Debug, PartialEq, Eq)]
pub enum Step {
    /// Carry the request to the store and resume with its reply.
    Ask(StoreRequest, Pending),
    /// The operation is over, with this result.
    Done(Result<Outcome, ApplicationError>),
}

/// Model of a [`Step`].
pub enum StepView {
    Ask(StoreRequestView, PendingView),
    Done(Result<OutcomeView, ApplicationFault>),
}

/// The model of the result of an operation.
pub open spec fn result_view(result: Result<Outcome, ApplicationError>) -> Result<
    OutcomeView,
    ApplicationFault,
> {
    match result {
        Ok(outcome) => Ok(outcome@),
        Err(e) => Err(e@),
    }
}

impl View for Step {
    type V = StepView;

    open spec fn view(&self) -> StepView {
        match self {
            Step::Ask(request, pending) => StepView::Ask(request@, pending@),
            Step::Done(result) => StepView::Done(result_view(*result)),
        }
    }
}

/// The entities that a list of records decodes to, in the same order, or
/// the error of the first record that does not decode.
pub open spec fn decoded_all(records: Seq<TodoModelView>) -> Result<
    Seq<TodoView>,
    DataIntegrityFault,
>
    decreases records.len(),
{
    if records.len() == 0 {
        Ok(Seq::empty())
    } else {
        match decoded_all(records.drop_last()) {
            Err(fault) => Err(fault),
            Ok(todos) => match records.last().decoded() {
                Ok(todo) => Ok(todos.push(todo)),
                Err(fault) => Err(fault),
            },
        }
    }
}

/// The model of the result of decoding a list of records.
pub open spec fn decoded_list_view(decoded: Result<Vec<Todo>, DataIntegrityError>) -> Result<
    Seq<TodoView>,
    DataIntegrityFault,
> {
    match decoded {
        Ok(todos) => Ok(todo_views(todos@)),
        Err(e) => Err(e@),
    }
}

/// Decodes every record of a list, in order. One record that does not
/// decode fails the whole list: no shortened list is ever returned.
pub fn decode_all(records: Vec<TodoModel>) -> (decoded: Result<Vec<Todo>, DataIntegrityError>)
    ensures
        decoded_list_view(decoded) == decoded_all(model_views(records@)),
{
    let ghost all = model_views(records@);
    let mut todos: Vec<Todo> = Vec::new();
    assert(all.take(0) =~= Seq::empty());
    assert(todo_views(todos@) =~= Seq::empty());
    for record in iter: records
        invariant
            all == model_views(iter.seq()),
            decoded_all(all.take(iter.index() as int)) == Ok::<Seq<TodoView>, DataIntegrityFault>(
                todo_views(todos@),
            ),
    {
        let ghost done = iter.index() as int;
        assert(all.take(done + 1).drop_last() =~= all.take(done));
        assert(all.take(done + 1).last() == record@);
        match Todo::decode(record) {
            Ok(todo) => {
                let ghost before = todo_views(todos@);
                todos.push(todo);
                assert(todo_views(todos@) =~= before.push(todo@));
            },
            Err(e) => {
                proof {
                    lemma_failure_is_kept(all, done + 1);
                }
                return Err(e);
            },
        }
    }
    assert(all.take(all.len() as int) =~= all);
    Ok(todos)
}

/// A list decodes exactly if each of its records does. The result then has
/// one entity for each record, in the same place: what that record decodes
/// to.
pub proof fn lemma_decoded_all_keeps_order(records: Seq<TodoModelView>)
    ensures
        decoded_all(records) is Ok <==> forall|i: int|
            0 <= i < records.len() ==> (#[trigger] records[i]).decoded() is Ok,
        decoded_all(records) matches Ok(todos) ==> {
            &&& todos.len() == records.len()
            &&& forall|i: int|
                0 <= i < records.len() ==> (#[trigger] records[i]).decoded() == Ok::<
                    TodoView,
                    DataIntegrityFault,
                >(todos[i])
        },
    decreases records.len(),
{
    if records.len() > 0 {
        let front = records.drop_last();
        lemma_decoded_all_keeps_order(front);
        assert forall|i: int| 0 <= i < front.len() implies front[i] == records[i] by {}
        if decoded_all(records) is Ok {
            assert forall|i: int| 0 <= i < records.len() implies (#[trigger] records[i]).decoded()
                is Ok by {
                if i < front.len() {
                    assert(front[i] == records[i]);
                }
            }
        }
        if forall|i: int| 0 <= i < records.len() ==> (#[trigger] records[i]).decoded() is Ok {
            assert forall|i: int| 0 <= i < front.len() implies (#[trigger] front[i]).decoded()
                is Ok by {
                assert(front[i] == records[i]);
            }
            assert(records.last() == records[records.len() - 1]);
        }
        if let Ok(todos) = decoded_all(records) {
            let earlier = decoded_all(front)->Ok_0;
            assert forall|i: int| 0 <= i < records.len() implies (#[trigger] records[i]).decoded()
                == Ok::<TodoView, DataIntegrityFault>(todos[i]) by {
                if i < front.len() {
                    assert(front[i] == records[i]);
                    assert(todos[i] == earlier[i]);
                }
            }
        }
    }
}

/// A list that does not decode fails with the error of the first of its
/// records that does not decode.
pub proof fn lemma_decoded_all_first_failure(records: Seq<TodoModelView>)
    requires
        decoded_all(records) is Err,
    ensures
        exists|k: int|
            {
                &&& 0 <= k < records.len()
                &&& (#[trigger] records[k]).decoded() == Err::<TodoView, DataIntegrityFault>(
                    decoded_all(records)->Err_0,
                )
                &&& forall|j: int| 0 <= j < k ==> (#[trigger] records[j]).decoded() is Ok
            },
    decreases records.len(),
{
    let fault = decoded_all(records)->Err_0;
    let front = records.drop_last();
    if decoded_all(front) is Err {
        lemma_decoded_all_first_failure(front);
        let k = choose|k: int|
            {
                &&& 0 <= k < front.len()
                &&& (#[trigger] front[k]).decoded() == Err::<TodoView, DataIntegrityFault>(fault)
                &&& forall|j: int| 0 <= j < k ==> (#[trigger] front[j]).decoded() is Ok
            };
        assert(records[k] == front[k]);
        assert forall|j: int| 0 <= j < k implies (#[trigger] records[j]).decoded() is Ok by {
            assert(records[j] == front[j]);
        }
    } else {
        let k = records.len() - 1;
        lemma_decoded_all_keeps_order(front);
        assert(records[k] == records.last());
        assert forall|j: int| 0 <= j < k implies (#[trigger] records[j]).decoded() is Ok by {
            assert(records[j] == front[j]);
        }
    }
}

/// A list whose first `n` records fail to decode as a whole fails with the
/// same error when taken in full.
proof fn lemma_failure_is_kept(records: Seq<TodoModelView>, n: int)
    requires
        0 <= n <= records.len(),
        decoded_all(records.take(n)) is Err,
    ensures
        decoded_all(records) == decoded_all(records.take(n)),
    decreases records.len() - n,
{
    if n < records.len() {
        assert(records.take(n + 1).drop_last() =~= records.take(n));
        lemma_failure_is_kept(records, n + 1);
    } else {
        assert(records.take(n) =~= records);
    }
}

/// The step that ends an operation with an error.
pub open spec fn failed(fault: ApplicationFault) -> StepView {
    StepView::Done(Err(fault))
}

/// The step that ends an operation with what a record decoded to.
pub open spec fn finished(decoded: Result<TodoView, DataIntegrityFault>) -> StepView {
    match decoded {
        Ok(todo) => StepView::Done(Ok(OutcomeView::Entity(todo))),
        Err(fault) => failed(ApplicationFault::DataIntegrity(fault)),
    }
}

/// The step that ends a search with what its records decoded to.
pub open spec fn finished_all(decoded: Result<Seq<TodoView>, DataIntegrityFault>) -> StepView {
    match decoded {
        Ok(todos) => StepView::Done(Ok(OutcomeView::Entities(todos))),
        Err(fault) => failed(ApplicationFault::DataIntegrity(fault)),
    }
}

/// The first step of an operation, where `id` is the identifier and `now`
/// the instant that a creation would use.
///
/// A request to create is validated first; one that is rejected ends the
/// operation before anything is asked of the store. A valid one asks the
/// store to keep the record of the new entity. Fetching, updating and
/// deleting all begin by looking the record up. A search needs a query of at
/// least one character, and then asks for the ranked matches on the subject.
pub open spec fn started(operation: OperationView, id: TodoId, now: Instant) -> StepView {
    match operation {
        OperationView::Create(request) => if request.invalid_fields().len() == 0 {
            StepView::Ask(
                StoreRequestView::Create(request.created(id, now).encoded()),
                PendingView::Creating,
            )
        } else {
            failed(ApplicationFault::Validation(request.invalid_fields()))
        },
        OperationView::Get(wanted) => StepView::Ask(
            StoreRequestView::Fetch(wanted.reference()),
            PendingView::Fetching,
        ),
        OperationView::Update(wanted, request) => StepView::Ask(
            StoreRequestView::Fetch(wanted.reference()),
            PendingView::FetchingToUpdate(request),
        ),
        OperationView::Delete(wanted) => StepView::Ask(
            StoreRequestView::Fetch(wanted.reference()),
            PendingView::FetchingToDelete(wanted),
        ),
        OperationView::Search(text) => if long_enough(text) {
            StepView::Ask(
                StoreRequestView::Search(
                    SearchQueryView { table: TODO_TABLE@, field: SEARCH_FIELD@, text },
                ),
                PendingView::Searching,
            )
        } else {
            failed(ApplicationFault::Validation(seq![RequestField::Query]))
        },
    }
}

/// The step that follows the store's reply, where `now` is the instant that
/// an update would use.
///
/// A failure of the store ends any operation with a server error that
/// carries the store's message. A record that was stored or fetched is
/// decoded and returned; one that does not decode ends the operation with
/// the data-integrity error. A lookup that finds nothing ends it with
/// not-found. An update merges the request into the entity just fetched,
/// moves `updated_at` forward to `now` and asks the store to overwrite the
/// record. A delete asks for the removal once the record is known to exist.
/// A search decodes all matches or fails as a whole. A reply of a kind that
/// was not asked for ends the operation with a server error.
pub open spec fn resumed(pending: PendingView, reply: StoreReplyView, now: Instant) -> StepView {
    match (pending, reply) {
        (_, StoreReplyView::Failed(message)) => failed(ApplicationFault::ServerError(message)),
        (PendingView::Creating, StoreReplyView::Stored(record)) => finished(record.decoded()),
        (PendingView::Fetching, StoreReplyView::Fetched(Some(record))) => finished(
            record.decoded(),
        ),
        (PendingView::Fetching, StoreReplyView::Fetched(None)) => failed(
            ApplicationFault::NotFound,
        ),
        (PendingView::FetchingToUpdate(request), StoreReplyView::Fetched(Some(record))) => {
            match record.decoded() {
                Ok(current) => StepView::Ask(
                    StoreRequestView::Update(request.merged(current).refreshed(now).encoded()),
                    PendingView::Updating,
                ),
                Err(fault) => failed(ApplicationFault::DataIntegrity(fault)),
            }
        },
        (PendingView::FetchingToUpdate(_), StoreReplyView::Fetched(None)) => failed(
            ApplicationFault::NotFound,
        ),
        (PendingView::Updating, StoreReplyView::Stored(record)) => finished(record.decoded()),
        (PendingView::FetchingToDelete(wanted), StoreReplyView::Fetched(Some(_))) => StepView::Ask(
            StoreRequestView::Delete(wanted.reference()),
            PendingView::Deleting,
        ),
        (PendingView::FetchingToDelete(_), StoreReplyView::Fetched(None)) => failed(
            ApplicationFault::NotFound,
        ),
        (PendingView::Deleting, StoreReplyView::Deleted) => StepView::Done(
            Ok(OutcomeView::Deleted),
        ),
        (PendingView::Searching, StoreReplyView::Found(records)) => finished_all(
            decoded_all(records),
        ),
        _ => failed(ApplicationFault::ServerError(UNEXPECTED_REPLY@)),
    }
}

/// Whether a request changes what the store holds.
pub open spec fn writes(request: StoreRequestView) -> bool {
    request is Create || request is Update || request is Delete
}

/// The first step of an operation writes nothing, unless the operation is a
/// creation whose request is valid: a rejected request never reaches the
/// store, and everything else begins by reading.
pub proof fn lemma_first_write_needs_valid_creation(
    operation: OperationView,
    id: TodoId,
    now: Instant,
)
    ensures
        started(operation, id, now) is Ask && writes(started(operation, id, now)->Ask_0) ==> {
            &&& operation is Create
            &&& operation->Create_0.invalid_fields().len() == 0
            &&& started(operation, id, now)->Ask_0 == StoreRequestView::Create(
                operation->Create_0.created(id, now).encoded(),
            )
        },
        operation is Create && operation->Create_0.invalid_fields().len() > 0 ==> started(
            operation,
            id,
            now,
        ) == failed(ApplicationFault::Validation(operation->Create_0.invalid_fields())),
{
}

/// After a reply the service asks for nothing but a write, and only where a
/// lookup found a record: an update of the record that was found, decoded
/// and merged, or the removal of the record that was asked for. A lookup
/// that finds nothing ends update, delete and fetch alike with not-found.
pub proof fn lemma_later_writes_need_a_record(
    pending: PendingView,
    reply: StoreReplyView,
    now: Instant,
)
    ensures
        resumed(pending, reply, now) is Ask ==> {
            &&& reply is Fetched
            &&& reply->Fetched_0 is Some
            &&& pending is FetchingToUpdate || pending is FetchingToDelete
            &&& pending is FetchingToUpdate ==> {
                &&& reply->Fetched_0->Some_0.decoded() is Ok
                &&& resumed(pending, reply, now) == StepView::Ask(
                    StoreRequestView::Update(
                        pending->FetchingToUpdate_0.merged(
                            reply->Fetched_0->Some_0.decoded()->Ok_0,
                        ).refreshed(now).encoded(),
                    ),
                    PendingView::Updating,
                )
            }
            &&& pending is FetchingToDelete ==> resumed(pending, reply, now) == StepView::Ask(
                StoreRequestView::Delete(pending->FetchingToDelete_0.reference()),
                PendingView::Deleting,
            )
        },
        reply == StoreReplyView::Fetched(None) && (pending is Fetching
            || pending is FetchingToUpdate || pending is FetchingToDelete) ==> resumed(
            pending,
            reply,
            now,
        ) == failed(ApplicationFault::NotFound),
{
}

/// Every operation is over after two exchanges with the store at most.
pub proof fn lemma_operation_ends(
    operation: OperationView,
    id: TodoId,
    now: Instant,
    first: StoreReplyView,
    second: StoreReplyView,
)
    ensures
        started(operation, id, now) is Ask && resumed(
            started(operation, id, now)->Ask_1,
            first,
            now,
        ) is Ask ==> resumed(
            resumed(started(operation, id, now)->Ask_1, first, now)->Ask_1,
            second,
            now,
        ) is Done,
{
}

fn finish(decoded: Result<Todo, DataIntegrityError>) -> (step: Step)
    ensures
        step@ == finished(Todo::views(decoded)),
{
    match decoded {
        Ok(todo) => Step::Done(Ok(Outcome::Entity(todo))),
        Err(e) => Step::Done(Err(ApplicationError::DataIntegrity(e))),
    }
}

fn finish_all(decoded: Result<Vec<Todo>, DataIntegrityError>) -> (step: Step)
    ensures
        step@ == finished_all(decoded_list_view(decoded)),
{
    match decoded {
        Ok(todos) => Step::Done(Ok(Outcome::Entities(todos))),
        Err(e) => Step::Done(Err(ApplicationError::DataIntegrity(e))),
    }
}

fn fetch(wanted: TodoId, pending: Pending) -> (step: Step)
    ensures
        step@ == StepView::Ask(StoreRequestView::Fetch(wanted.reference()), pending@),
{
    Step::Ask(StoreRequest::Fetch(wanted.to_record_id()), pending)
}

/// Begins an operation, with the identifier and the instant that a creation
/// is to use.
pub fn begin_with(operation: Operation, id: TodoId, now: Timestamp) -> (step: Step)
    ensures
        step@ == started(operation@, id, now@),
{
    match operation {
        Operation::Create(request) => match request.validate() {
            Ok(()) => {
                let record = Todo::new(id, request, now).encode();
                Step::Ask(StoreRequest::Create(record), Pending::Creating)
            },
            Err(e) => Step::Done(Err(ApplicationError::Validation(e))),
        },
        Operation::Get(wanted) => fetch(wanted, Pending::Fetching),
        Operation::Update(wanted, request) => fetch(wanted, Pending::FetchingToUpdate(request)),
        Operation::Delete(wanted) => fetch(wanted, Pending::FetchingToDelete(wanted)),
        Operation::Search(query) => match query.validate() {
            Ok(()) => {
                let search = SearchQuery {
                    table: TODO_TABLE.to_owned(),
                    field: SEARCH_FIELD.to_owned(),
                    text: query.q,
                };
                Step::Ask(StoreRequest::Search(search), Pending::Searching)
            },
            Err(e) => Step::Done(Err(ApplicationError::Validation(e))),
        },
    }
}

/// Begins an operation. A creation gets a fresh identifier and the current
/// time; which ones is up to the generator and the clock.
pub fn begin(operation: Operation) -> (step: Step)
    ensures
        exists|id: TodoId, now: Instant|
            now.valid() && step@ == #[trigger] started(operation@, id, now),
{
    let id = TodoId::new();
    let now = Timestamp::now();
    begin_with(operation, id, now)
}

/// Resumes an operation with the store's reply, and with the instant that
/// an update is to use.
pub fn resume_at(pending: Pending, reply: StoreReply, now: Timestamp) -> (step: Step)
    ensures
        step@ == resumed(pending@, reply@, now@),
{
    match (pending, reply) {
        (_, StoreReply::Failed(message)) => Step::Done(Err(ApplicationError::ServerError(message))),
        (Pending::Creating, StoreReply::Stored(record)) => finish(Todo::decode(record)),
        (Pending::Fetching, StoreReply::Fetched(Some(record))) => finish(Todo::decode(record)),
        (Pending::Fetching, StoreReply::Fetched(None)) => Step::Done(
            Err(ApplicationError::NotFound),
        ),
        (Pending::FetchingToUpdate(request), StoreReply::Fetched(Some(record))) => {
            match Todo::decode(record) {
                Ok(current) => {
                    let next = request.merge(current).refreshed(now);
                    Step::Ask(StoreRequest::Update(next.encode()), Pending::Updating)
                },
                Err(e) => Step::Done(Err(ApplicationError::DataIntegrity(e))),
            }
        },
        (Pending::FetchingToUpdate(_), StoreReply::Fetched(None)) => Step::Done(
            Err(ApplicationError::NotFound),
        ),
        (Pending::Updating, StoreReply::Stored(record)) => finish(Todo::decode(record)),
        (Pending::FetchingToDelete(wanted), StoreReply::Fetched(Some(_))) => Step::Ask(
            StoreRequest::Delete(wanted.to_record_id()),
            Pending::Deleting,
        ),
        (Pending::FetchingToDelete(_), StoreReply::Fetched(None)) => Step::Done(
            Err(ApplicationError::NotFound),
        ),
        (Pending::Deleting, StoreReply::Deleted) => Step::Done(Ok(Outcome::Deleted)),
        (Pending::Searching, StoreReply::Found(records)) => finish_all(decode_all(records)),
        _ => Step::Done(Err(ApplicationError::ServerError(UNEXPECTED_REPLY.to_owned()))),
    }
}

/// Resumes an operation with the store's reply. An update is stamped with
/// the current time; which instant that is, is up to the clock.
pub fn resume(pending: Pending, reply: StoreReply) -> (step: Step)
    ensures
        exists|now: Instant| now.valid() && step@ == #[trigger] resumed(pending@, reply@, now),
{
    let now = Timestamp::now();
    resume_at(pending, reply, now)
}

} // verus!
