//! What the entity service asks of the store and what the store answers.
//! The store itself is outside the library: whoever drives the service
//! carries each request to it and hands the reply back.

use crate::identifier::{RecordId, RecordIdView};
use crate::todo::{TodoModel, TodoModelView};
use vstd::prelude::*;

verus! {

/// A ranked full-text search: the table, the indexed field and the text to
/// look for.
#[derive(Clone, Debug, PartialEq, Eq)]
pub struct SearchQuery {
    pub table: String,
    pub field: String,
    pub text: String,
}

/// Model of a [`SearchQuery`].
pub struct SearchQueryView {
    pub table: Seq<char>,
    pub field: Seq<char>,
    pub text: Seq<char>,
}

impl View for SearchQuery {
    type V = SearchQueryView;

    open spec fn view(&self) -> SearchQueryView {
        SearchQueryView { table: self.table@, field: self.field@, text: self.text@ }
    }
}

/// One request to the store.
#[derive(Clone, Debug, PartialEq, Eq)]
pub enum StoreRequest {
    /// Store a new record under the reference it carries.
    Create(TodoModel),
    /// Look up the record under a reference.
    Fetch(RecordId),
    /// Overwrite the record under the reference it carries.
    Update(TodoModel),
    /// Remove the record under a reference.
    Delete(RecordId),
    /// Find the records that match a query, best match first.
    Search(SearchQuery),
}

/// Model of a [`StoreRequest`].
pub enum StoreRequestView {
    Create(TodoModelView),
    Fetch(RecordIdView),
    Update(TodoModelView),
    Delete(RecordIdView),
    Search(SearchQueryView),
}

impl View for StoreRequest {
    type V = StoreRequestView;

    open spec fn view(&self) -> StoreRequestView {
        match self {
            StoreRequest::Create(record) => StoreRequestView::Create(record@),
            StoreRequest::Fetch(reference) => StoreRequestView::Fetch(reference@),
            StoreRequest::Update(record) => StoreRequestView::Update(record@),
            StoreRequest::Delete(reference) => StoreRequestView::Delete(reference@),
            StoreRequest::Search(query) => StoreRequestView::Search(query@),
        }
    }
}

/// The store's answer to one request.
#[derive(Clone, Debug, PartialEq, Eq)]
pub enum StoreReply {
    /// To `Create` and `Update`: the record as the store now holds it.
    Stored(TodoModel),
    /// To `Fetch`: the record, if there is one.
    Fetched(Option<TodoModel>),
    /// To `Delete`: the record is gone.
    Deleted,
    /// To `Search`: the matching records, best match first.
    Found(Vec<TodoModel>),
    /// To any request: the store could not carry it out.
    Failed(String),
}

/// Model of a [`StoreReply`].
pub enum StoreReplyView {
    Stored(TodoModelView),
    Fetched(Option<TodoModelView>),
    Deleted,
    Found(Seq<TodoModelView>),
    Failed(Seq<char>),
}

/// The models of a list of records.
pub open spec fn model_views(records: Seq<TodoModel>) -> Seq<TodoModelView> {
    Seq::new(records.len(), |i: int| records[i]@)
}

/// The model of an optional record.
pub open spec fn optional_model_view(record: Option<TodoModel>) -> Option<TodoModelView> {
    match record {
        Some(r) => Some(r@),
        None => None,
    }
}

impl View for StoreReply {
    type V = StoreReplyView;

    open spec fn view(&self) -> StoreReplyView {
        match self {
            StoreReply::Stored(record) => StoreReplyView::Stored(record@),
            StoreReply::Fetched(record) => StoreReplyView::Fetched(optional_model_view(*record)),
            StoreReply::Deleted => StoreReplyView::Deleted,
            StoreReply::Found(records) => StoreReplyView::Found(model_views(records@)),
            StoreReply::Failed(message) => StoreReplyView::Failed(message@),
        }
    }
}

} // verus!
