//! Instrumented handles to MongoDB collections: what each call reports to the
//! tracing layer, and the catalogue of the operations that a handle offers.

pub mod collection;
pub mod driver;
pub mod operation;
pub mod span;

pub use collection::{Call, InstrumentedCollection, InstrumentedCollectionExt};
pub use operation::{Command, Operation, Outcome, Requirement};
pub use span::Span;
