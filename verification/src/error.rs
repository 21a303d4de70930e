//! What can go wrong: rejected input, missing records, stored data that does
//! not decode, and failures of the store itself.

use vstd::prelude::*;

verus! {

/// A field of a stored record whose text has to be decoded.
#[derive(Clone, Copy, Debug, PartialEq, Eq, Hash, Structural)]
pub enum RecordField {
    Id,
    DueDate,
    CreatedAt,
    UpdatedAt,
}

impl RecordField {
    /// The name of the field in the stored record.
    pub open spec fn name_text(self) -> Seq<char> {
        match self {
            RecordField::Id => "id"@,
            RecordField::DueDate => "due_date"@,
            RecordField::CreatedAt => "created_at"@,
            RecordField::UpdatedAt => "updated_at"@,
        }
    }

    /// The name of the field in the stored record.
    pub fn name(&self) -> (name: &'static str)
        ensures
            name@ == self.name_text(),
    {
        match self {
            RecordField::Id => "id",
            RecordField::DueDate => "due_date",
            RecordField::CreatedAt => "created_at",
            RecordField::UpdatedAt => "updated_at",
        }
    }
}

/// A field of a request that is held to a constraint.
#[derive(Clone, Copy, Debug, PartialEq, Eq, Hash, Structural)]
pub enum RequestField {
    Subject,
    Description,
    Query,
}

impl RequestField {
    /// The name of the field in the request.
    pub open spec fn name_text(self) -> Seq<char> {
        match self {
            RequestField::Subject => "subject"@,
            RequestField::Description => "description"@,
            RequestField::Query => "q"@,
        }
    }

    /// The name of the field in the request.
    pub fn name(&self) -> (name: &'static str)
        ensures
            name@ == self.name_text(),
    {
        match self {
            RequestField::Subject => "subject",
            RequestField::Description => "description",
            RequestField::Query => "q",
        }
    }
}

/// A stored record could not be decoded: `field` held the text `raw`, which
/// is not the text of a value of that field. The stored data is at fault,
/// never the caller.
#[derive(Clone, Debug, PartialEq, Eq)]
pub struct DataIntegrityError {
    pub field: RecordField,
    pub raw: String,
}

/// Model of a [`DataIntegrityError`].
pub struct DataIntegrityFault {
    pub field: RecordField,
    pub raw: Seq<char>,
}

impl View for DataIntegrityError {
    type V = DataIntegrityFault;

    open spec fn view(&self) -> DataIntegrityFault {
        DataIntegrityFault { field: self.field, raw: self.raw@ }
    }
}

/// A request broke a constraint: `fields` lists the fields that were empty,
/// in the order in which the request declares them. A rejection by this
/// library names at least one field.
#[derive(Clone, Debug, PartialEq, Eq)]
pub struct ValidationError {
    pub fields: Vec<RequestField>,
}

impl View for ValidationError {
    type V = Seq<RequestField>;

    open spec fn view(&self) -> Seq<RequestField> {
        self.fields@
    }
}

/// Why an operation of the entity service failed.
#[derive(Clone, Debug, PartialEq, Eq)]
pub enum ApplicationError {
    /// The caller's input broke a constraint.
    Validation(ValidationError),
    /// No record has the identifier that was asked for.
    NotFound,
    /// A record read back from the store does not decode.
    DataIntegrity(DataIntegrityError),
    /// The store failed, or answered with something that was not asked for.
    ServerError(String),
}

/// Model of an [`ApplicationError`].
pub enum ApplicationFault {
    Validation(Seq<RequestField>),
    NotFound,
    DataIntegrity(DataIntegrityFault),
    ServerError(Seq<char>),
}

impl View for ApplicationError {
    type V = ApplicationFault;

    open spec fn view(&self) -> ApplicationFault {
        match self {
            ApplicationError::Validation(e) => ApplicationFault::Validation(e@),
            ApplicationError::NotFound => ApplicationFault::NotFound,
            ApplicationError::DataIntegrity(e) => ApplicationFault::DataIntegrity(e@),
            ApplicationError::ServerError(message) => ApplicationFault::ServerError(message@),
        }
    }
}

} // verus!
