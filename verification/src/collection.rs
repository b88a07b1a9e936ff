//! The instrumented collection: a driver handle together with the two names
//! that every span of a call on it carries.

use crate::driver::{database_name, open_collection};
use crate::operation::{Operation, SESSION_SUFFIX};
use crate::span::{
    lemma_recorded_fields, recorded, Span, SpanView, DB_COLLECTION, DB_NAME, DB_SYSTEM, KIND,
    OTEL_KIND, SYSTEM,
};
use mongodb::{Collection, Database};
use vstd::prelude::*;

verus! {

/// What an instrumented collection keeps of the database it was opened from.
struct CollectionInfo {
    database_name: String,
}

/// The two names that identify an instrumented collection. They are fixed
/// when the handle is made.
pub struct Identity {
    pub database: Seq<char>,
    pub collection: Seq<char>,
}

/// A driver handle to a collection of documents of type `T`, with what the
/// spans of the calls on it report.
#[verifier::reject_recursive_types(T)]
pub struct InstrumentedCollection<T> {
    info: CollectionInfo,
    /// The name that the delegate reported when it was opened.
    reported_name: String,
    inner: Collection<T>,
}

impl<T> View for InstrumentedCollection<T> {
    type V = Identity;

    closed spec fn view(&self) -> Identity {
        Identity { database: self.info.database_name@, collection: self.reported_name@ }
    }
}

/// Opens instrumented collections from a database handle.
pub trait InstrumentedCollectionExt {
    /// The name of the database behind `self`.
    spec fn spec_name(&self) -> Seq<char>;

    /// An instrumented handle to the collection called `name`. Every name is
    /// accepted: whether the server takes it shows on the first operation.
    fn collection_instrumented<T>(&self, name: &str) -> (coll: InstrumentedCollection<T>)
        ensures
            coll@ == (Identity { database: self.spec_name(), collection: name@ }),
    ;
}

impl InstrumentedCollectionExt for Database {
    open spec fn spec_name(&self) -> Seq<char> {
        database_name(*self)
    }

    fn collection_instrumented<T>(&self, name: &str) -> (coll: InstrumentedCollection<T>) {
        let info = CollectionInfo { database_name: self.name().to_owned() };
        let (inner, reported_name) = open_collection(self, name);
        InstrumentedCollection { info, reported_name, inner }
    }
}

/// One call that has begun: it holds the call's only span until the delegate
/// has answered.
pub struct Call {
    span: Span,
}

impl Call {
    pub closed spec fn spec_span(&self) -> SpanView {
        self.span@
    }

    /// The span to open for the time of the call.
    pub fn span(&self) -> (span: &Span)
        ensures
            span@ == self.spec_span(),
    {
        &self.span
    }

    /// Ends the call with what the delegate answered, success or failure, and
    /// hands that answer on as it is.
    pub fn finish<R>(self, answer: R) -> (handed: R)
        ensures
            handed == answer,
    {
        answer
    }
}

impl<T> InstrumentedCollection<T> {
    pub closed spec fn spec_inner(&self) -> Collection<T> {
        self.inner
    }

    /// The span of a call of `op` on this collection: it is named after the
    /// operation and carries the two names of the collection and the two
    /// fixed values, whatever is passed to the operation.
    pub open spec fn span_of(&self, op: Operation) -> SpanView {
        SpanView { name: op.spec_name(), fields: recorded(self@.database, self@.collection) }
    }

    /// The name of the database that the collection was opened from.
    pub fn database_name(&self) -> (name: &str)
        ensures
            name@ == self@.database,
    {
        self.info.database_name.as_str()
    }

    /// The name of the collection.
    pub fn name(&self) -> (name: &str)
        ensures
            name@ == self@.collection,
    {
        self.reported_name.as_str()
    }

    /// The driver handle that every operation is forwarded to.
    pub fn inner(&self) -> (handle: &Collection<T>)
        ensures
            *handle == self.spec_inner(),
    {
        &self.inner
    }

    /// Begins a call of `op`. The collection itself is left as it is, so calls
    /// may begin while others are under way.
    pub fn begin(&self, op: Operation) -> (call: Call)
        ensures
            call.spec_span() == self.span_of(op),
    {
        let span = Span::new(
            op.name(),
            self.info.database_name.clone(),
            self.reported_name.clone(),
        );
        Call { span }
    }
}

/// Whatever the operation, the span of a call carries exactly four fields:
/// the name of the database and the name of the collection that the handle
/// was opened with, and the two fixed values.
pub proof fn lemma_span_fields<T>(coll: InstrumentedCollection<T>, op: Operation)
    ensures
        coll.span_of(op).name == op.spec_name(),
        coll.span_of(op).fields.dom() =~= set![DB_NAME@, DB_SYSTEM@, DB_COLLECTION@, OTEL_KIND@],
        coll.span_of(op).fields[DB_NAME@] == coll@.database,
        coll.span_of(op).fields[DB_SYSTEM@] == SYSTEM@,
        coll.span_of(op).fields[DB_COLLECTION@] == coll@.collection,
        coll.span_of(op).fields[OTEL_KIND@] == KIND@,
{
    lemma_recorded_fields(coll@.database, coll@.collection);
}

/// A session-bound operation and the standalone operation of the same command
/// differ in the session alone: their spans carry the same fields, the name
/// of the one is the name of the other with the session suffix, and both ask
/// the same of the document type and hand back the same kind of result.
pub proof fn lemma_session_changes_nothing_else<T>(
    coll: InstrumentedCollection<T>,
    alone: Operation,
    bound: Operation,
)
    requires
        alone.wf(),
        bound.wf(),
        alone.spec_command() == bound.spec_command(),
        !alone.spec_in_session(),
        bound.spec_in_session(),
    ensures
        coll.span_of(bound).fields == coll.span_of(alone).fields,
        coll.span_of(bound).name == coll.span_of(alone).name + SESSION_SUFFIX@,
        bound.spec_requirement() == alone.spec_requirement(),
        bound.spec_outcome() == alone.spec_outcome(),
{
}

} // verus!
