//! Identifiers of to-do entities: 128-bit values whose canonical text is the
//! 26-character Crockford Base32 form, and the references under which the
//! store files records.

use crate::error::{DataIntegrityError, DataIntegrityFault, RecordField};
use ulid::Ulid;
use vstd::prelude::*;

verus! {

/// The canonical text that `Ulid::to_string` gives for a 128-bit value.
pub uninterp spec fn ulid_text(value: u128) -> Seq<char>;

/// The value that `Ulid::from_string` reads from a text, `None` where it
/// rejects the text.
pub uninterp spec fn ulid_value(text: Seq<char>) -> Option<u128>;

/// Calls `Ulid::new`: an identifier made of the current time in milliseconds
/// and random bits. Nothing is claimed about the value.
#[verifier::external_body]
fn ulid_generate() -> (value: u128) {
    Ulid::new().0
}

/// Calls `Ulid::to_string`. The result is the canonical text of `value`, and
/// `Ulid::from_string` reads `value` back from it: the encoder writes the 128
/// bits as 26 digits of five bits each, the decoder shifts the same digits
/// back in.
#[verifier::external_body]
fn ulid_encode(value: u128) -> (text: String)
    ensures
        text@ == ulid_text(value),
        ulid_value(text@) == Some(value),
{
    Ulid(value).to_string()
}

/// Calls `Ulid::from_string`. The result is the decoded value, `None` where
/// the text has the wrong length or holds a character outside the alphabet.
#[verifier::external_body]
fn ulid_decode(text: &str) -> (value: Option<u128>)
    ensures
        value == ulid_value(text@),
{
    match Ulid::from_string(text) {
        Ok(id) => Some(id.0),
        Err(_) => None,
    }
}

/// The table that holds the to-do records.
pub const TODO_TABLE: &'static str = "todo";

/// Reference to a stored record: the table and, within it, the key of the
/// record as plain text.
#[derive(Clone, Debug, PartialEq, Eq, Hash)]
pub struct RecordId {
    pub table: String,
    pub key: String,
}

/// Model of a [`RecordId`].
pub struct RecordIdView {
    pub table: Seq<char>,
    pub key: Seq<char>,
}

impl View for RecordId {
    type V = RecordIdView;

    open spec fn view(&self) -> RecordIdView {
        RecordIdView { table: self.table@, key: self.key@ }
    }
}

/// Identifier of one to-do entity. It is assigned once, when the entity is
/// created, and never changes afterwards.
#[derive(Clone, Copy, Debug, PartialEq, Eq, Hash, Structural)]
pub struct TodoId(pub u128);

impl TodoId {
    /// What reading an identifier from `raw` yields, given what the decoder
    /// made of `raw`.
    pub open spec fn checked(value: Option<u128>, raw: Seq<char>) -> Result<
        TodoId,
        DataIntegrityFault,
    > {
        match value {
            Some(v) => Ok(TodoId(v)),
            None => Err(DataIntegrityFault { field: RecordField::Id, raw }),
        }
    }

    /// What reading an identifier from `text` yields.
    pub open spec fn parsed(text: Seq<char>) -> Result<TodoId, DataIntegrityFault> {
        Self::checked(ulid_value(text), text)
    }

    /// The reference under which the record of this identifier is stored.
    pub open spec fn reference(self) -> RecordIdView {
        RecordIdView { table: TODO_TABLE@, key: ulid_text(self.0) }
    }

    /// The model of the result of reading an identifier.
    pub open spec fn views(read: Result<TodoId, DataIntegrityError>) -> Result<
        TodoId,
        DataIntegrityFault,
    > {
        match read {
            Ok(id) => Ok(id),
            Err(e) => Err(e@),
        }
    }

    /// The milliseconds since the Unix epoch that an identifier with this
    /// value carries: its upper 48 bits.
    pub open spec fn stamp(self) -> u64 {
        (self.0 >> 80) as u64
    }

    /// A fresh identifier: creation time in the high bits, random low bits.
    pub fn new() -> (id: TodoId) {
        TodoId(ulid_generate())
    }

    /// The time of creation that the identifier carries, in milliseconds
    /// since the Unix epoch.
    pub fn timestamp_ms(&self) -> (ms: u64)
        ensures
            ms == self.stamp(),
    {
        let value: u128 = self.0;
        assert(value >> 80 <= 0xffff_ffff_ffff) by (bit_vector);
        (value >> 80) as u64
    }

    /// Turns what the decoder made of `raw` into an identifier, or into the
    /// error that names `raw` as malformed.
    pub fn from_decoded(value: Option<u128>, raw: &str) -> (read: Result<
        TodoId,
        DataIntegrityError,
    >)
        ensures
            Self::views(read) == Self::checked(value, raw@),
    {
        match value {
            Some(v) => Ok(TodoId(v)),
            None => Err(DataIntegrityError { field: RecordField::Id, raw: raw.to_owned() }),
        }
    }

    /// Reads an identifier from its text form.
    pub fn parse(text: &str) -> (read: Result<TodoId, DataIntegrityError>)
        ensures
            Self::views(read) == Self::parsed(text@),
    {
        TodoId::from_decoded(ulid_decode(text), text)
    }

    /// Reads the identifier that a stored reference carries in its key.
    pub fn from_record_id(reference: &RecordId) -> (read: Result<TodoId, DataIntegrityError>)
        ensures
            Self::views(read) == Self::parsed(reference@.key),
    {
        TodoId::parse(reference.key.as_str())
    }

    /// The canonical text of this identifier. Parsing it gives the identifier
    /// back.
    pub fn to_text(&self) -> (text: String)
        ensures
            text@ == ulid_text(self.0),
            Self::parsed(text@) == Ok::<TodoId, DataIntegrityFault>(*self),
    {
        ulid_encode(self.0)
    }

    /// The reference under which the record of this identifier is stored.
    /// Reading the identifier from it gives this identifier back.
    pub fn to_record_id(&self) -> (reference: RecordId)
        ensures
            reference@ == self.reference(),
            Self::parsed(reference@.key) == Ok::<TodoId, DataIntegrityFault>(*self),
    {
        RecordId { table: TODO_TABLE.to_owned(), key: self.to_text() }
    }
}

/// Identifiers sort by the time they carry: one with an earlier time is the
/// smaller value, and the smaller of two values never carries the later
/// time.
pub proof fn lemma_identifiers_sort_by_time(a: TodoId, b: TodoId)
    ensures
        a.stamp() < b.stamp() ==> a.0 < b.0,
        a.0 <= b.0 ==> a.stamp() <= b.stamp(),
{
    let x: u128 = a.0;
    let y: u128 = b.0;
    assert(x >> 80 <= 0xffff_ffff_ffff && y >> 80 <= 0xffff_ffff_ffff) by (bit_vector);
    assert((x >> 80) < (y >> 80) ==> x < y) by (bit_vector);
    assert(x <= y ==> (x >> 80) <= (y >> 80)) by (bit_vector);
}

} // verus!
