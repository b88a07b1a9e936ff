//! The MongoDB driver as this library sees it: its two handle types, and the
//! calls that read a handle without reaching the server.
//!
//! Nothing in this file is proved. Each item states what the driver's source
//! shows, and the rest of the library is proved from these statements.

use mongodb::{Collection, Database};
use vstd::prelude::*;

verus! {

/// `mongodb::Database`, a handle to a database. Nothing is known of what is
/// inside it but through the items below.
#[verifier::external_type_specification]
#[verifier::external_body]
pub struct ExDatabase(mongodb::Database);

/// `mongodb::Collection`, a handle to a collection of documents of type `T`.
/// It holds no value of `T`, and nothing is known of what is inside it.
#[verifier::external_type_specification]
#[verifier::external_body]
#[verifier::reject_recursive_types(T)]
pub struct ExCollection<T>(mongodb::Collection<T>);

/// The name that a database handle was made with. The handle keeps it
/// unchanged for as long as it lives, so it depends on the handle alone.
pub uninterp spec fn database_name(db: Database) -> Seq<char>;

/// `Database::name` hands out the name that the handle was made with.
pub assume_specification[ mongodb::Database::name ](db: &Database) -> (name: &str)
    ensures
        name@ == database_name(*db),
;

/// `Database::collection`, followed by `Collection::name` on the handle that
/// it made. The new handle keeps a copy of the name it is given, whatever
/// the name is, and reports that copy; neither call reaches the server, and
/// neither fails. So the name that comes back beside the handle is `name`.
#[verifier::external_body]
pub(crate) fn open_collection<T>(db: &Database, name: &str) -> (opened: (Collection<T>, String))
    ensures
        opened.1@ == name@,
{
    let handle = db.collection::<T>(name);
    let reported = handle.name().to_owned();
    (handle, reported)
}

} // verus!
