//! The span that one call on an instrumented collection reports: its name and
//! the fields recorded with it.

use vstd::prelude::*;

verus! {

/// The key of the field that holds the name of the database.
pub const DB_NAME: &'static str = "db.name";

/// The key of the field that names the kind of store behind the call.
pub const DB_SYSTEM: &'static str = "db.system";

/// The key of the field that holds the name of the collection.
pub const DB_COLLECTION: &'static str = "db.collection";

/// The key of the field that says which side of a call the span stands for.
pub const OTEL_KIND: &'static str = "otel.kind";

/// The value recorded under [`DB_SYSTEM`] in every span.
pub const SYSTEM: &'static str = "mongodb";

/// The value recorded under [`OTEL_KIND`] in every span: the outbound side.
pub const KIND: &'static str = "client";

/// A span as a mathematical value: its name, and its fields by key.
pub struct SpanView {
    pub name: Seq<char>,
    pub fields: Map<Seq<char>, Seq<char>>,
}

/// The fields of a span for a call on collection `collection` of database
/// `database`. Nothing that the caller passes to the operation is among them.
pub open spec fn recorded(database: Seq<char>, collection: Seq<char>) -> Map<Seq<char>, Seq<char>> {
    map![
        DB_NAME@ => database,
        DB_SYSTEM@ => SYSTEM@,
        DB_COLLECTION@ => collection,
        OTEL_KIND@ => KIND@,
    ]
}

/// The four keys differ from one another.
pub proof fn lemma_keys_differ()
    ensures
        DB_NAME@ != DB_SYSTEM@,
        DB_NAME@ != DB_COLLECTION@,
        DB_NAME@ != OTEL_KIND@,
        DB_SYSTEM@ != DB_COLLECTION@,
        DB_SYSTEM@ != OTEL_KIND@,
        DB_COLLECTION@ != OTEL_KIND@,
{
    reveal_strlit("db.name");
    reveal_strlit("db.system");
    reveal_strlit("db.collection");
    reveal_strlit("otel.kind");
    assert(DB_NAME@.len() == 7);
    assert(DB_SYSTEM@.len() == 9);
    assert(DB_COLLECTION@.len() == 13);
    assert(OTEL_KIND@.len() == 9);
    assert(DB_SYSTEM@[0] != OTEL_KIND@[0]);
}

/// Every span carries exactly four fields: the two names it was made for
/// under [`DB_NAME`] and [`DB_COLLECTION`], and the two fixed values
/// [`SYSTEM`] and [`KIND`] under [`DB_SYSTEM`] and [`OTEL_KIND`].
pub proof fn lemma_recorded_fields(database: Seq<char>, collection: Seq<char>)
    ensures
        recorded(database, collection).dom() =~= set![
            DB_NAME@,
            DB_SYSTEM@,
            DB_COLLECTION@,
            OTEL_KIND@,
        ],
        recorded(database, collection)[DB_NAME@] == database,
        recorded(database, collection)[DB_SYSTEM@] == SYSTEM@,
        recorded(database, collection)[DB_COLLECTION@] == collection,
        recorded(database, collection)[OTEL_KIND@] == KIND@,
{
    lemma_keys_differ();
}

/// The span of one call.
#[derive(Clone, Debug, PartialEq, Eq)]
pub struct Span {
    name: String,
    db_name: String,
    db_collection: String,
}

impl View for Span {
    type V = SpanView;

    closed spec fn view(&self) -> SpanView {
        SpanView { name: self.name@, fields: recorded(self.db_name@, self.db_collection@) }
    }
}

impl Span {
    /// The span called `name` of a call on collection `collection` of
    /// database `database`.
    pub fn new(name: String, database: String, collection: String) -> (span: Span)
        ensures
            span@ == (SpanView { name: name@, fields: recorded(database@, collection@) }),
    {
        Span { name, db_name: database, db_collection: collection }
    }

    pub fn name(&self) -> (name: &str)
        ensures
            name@ == self@.name,
    {
        self.name.as_str()
    }

    /// The name of the database, recorded under [`DB_NAME`].
    pub fn db_name(&self) -> (value: &str)
        ensures
            value@ == self@.fields[DB_NAME@],
    {
        proof {
            lemma_recorded_fields(self.db_name@, self.db_collection@);
        }
        self.db_name.as_str()
    }

    /// The fixed value recorded under [`DB_SYSTEM`].
    pub fn db_system(&self) -> (value: &'static str)
        ensures
            value@ == SYSTEM@,
            value@ == self@.fields[DB_SYSTEM@],
    {
        proof {
            lemma_recorded_fields(self.db_name@, self.db_collection@);
        }
        SYSTEM
    }

    /// The name of the collection, recorded under [`DB_COLLECTION`].
    pub fn db_collection(&self) -> (value: &str)
        ensures
            value@ == self@.fields[DB_COLLECTION@],
    {
        proof {
            lemma_recorded_fields(self.db_name@, self.db_collection@);
        }
        self.db_collection.as_str()
    }

    /// The fixed value recorded under [`OTEL_KIND`].
    pub fn otel_kind(&self) -> (value: &'static str)
        ensures
            value@ == KIND@,
            value@ == self@.fields[OTEL_KIND@],
    {
        proof {
            lemma_recorded_fields(self.db_name@, self.db_collection@);
        }
        KIND
    }

    /// The value recorded under `key`, if the span has a field of that key.
    pub fn field(&self, key: &str) -> (found: Option<&str>)
        ensures
            found is Some <==> self@.fields.contains_key(key@),
            found matches Some(value) ==> value@ == self@.fields[key@],
    {
        proof {
            lemma_recorded_fields(self.db_name@, self.db_collection@);
        }
        let key = key.to_owned();
        if key == DB_NAME.to_owned() {
            Some(self.db_name.as_str())
        } else if key == DB_SYSTEM.to_owned() {
            Some(SYSTEM)
        } else if key == DB_COLLECTION.to_owned() {
            Some(self.db_collection.as_str())
        } else if key == OTEL_KIND.to_owned() {
            Some(KIND)
        } else {
            None
        }
    }
}

} // verus!
