//! The catalogue of what an instrumented collection offers: each command of
//! the driver's collection handle, alone or threaded through a session.

use vstd::prelude::*;
use vstd::string::StringExecFns;

verus! {

/// A command of the driver's collection handle.
#[derive(Clone, Copy, Debug, PartialEq, Eq, Hash, Structural)]
pub enum Command {
    FindOne,
    InsertMany,
    InsertOne,
    ReplaceOne,
    UpdateOne,
    ReadConcern,
    WriteConcern,
    Drop,
    Aggregate,
    EstimatedDocumentCount,
    CountDocuments,
    CreateIndex,
    CreateIndexes,
    DeleteMany,
    DeleteOne,
    Distinct,
    DropIndex,
    DropIndexes,
    ListIndexes,
    ListIndexNames,
    UpdateMany,
    Watch,
    Find,
}

/// What a command asks of the document type of the collection.
#[derive(Clone, Copy, Debug, PartialEq, Eq, Hash, Structural)]
pub enum Requirement {
    /// Offered for every document type.
    Nothing,
    /// The document type can be read from stored documents, and values of it
    /// can be moved between tasks.
    Deserialize,
    /// The document type can be written as a stored document.
    Serialize,
}

/// What a command hands back when the driver reports success.
#[derive(Clone, Copy, Debug, PartialEq, Eq, Hash, Structural)]
pub enum Outcome {
    /// At most one document of the collection's type.
    Document,
    /// A cursor over documents of the collection's type.
    Documents,
    /// A cursor over the untyped documents that a pipeline produced.
    Aggregation,
    /// A stream of change events.
    Changes,
    /// The identifiers of several inserted documents.
    InsertedMany,
    /// The identifier of one inserted document.
    InsertedOne,
    /// How many documents an update or a replacement matched and modified.
    Updated,
    /// How many documents were deleted.
    Deleted,
    /// A number of documents.
    Count,
    /// The distinct values of one field.
    Values,
    /// The name of one created index.
    CreatedIndex,
    /// The names of several created indexes.
    CreatedIndexes,
    /// A cursor over index descriptions.
    Indexes,
    /// The names of the indexes.
    Names,
    /// The read concern of the handle, if it has one.
    ReadConcern,
    /// The write concern of the handle, if it has one.
    WriteConcern,
    /// Nothing but the success itself.
    Nothing,
}

/// The suffix that marks the name of a session-bound operation.
pub const SESSION_SUFFIX: &'static str = "_with_session";

impl Command {
    /// The command's name, which is also the name of its standalone operation.
    pub open spec fn spec_name(self) -> Seq<char> {
        match self {
            Command::FindOne => "find_one"@,
            Command::InsertMany => "insert_many"@,
            Command::InsertOne => "insert_one"@,
            Command::ReplaceOne => "replace_one"@,
            Command::UpdateOne => "update_one"@,
            Command::ReadConcern => "read_concern"@,
            Command::WriteConcern => "write_concern"@,
            Command::Drop => "drop"@,
            Command::Aggregate => "aggregate"@,
            Command::EstimatedDocumentCount => "estimated_document_count"@,
            Command::CountDocuments => "count_documents"@,
            Command::CreateIndex => "create_index"@,
            Command::CreateIndexes => "create_indexes"@,
            Command::DeleteMany => "delete_many"@,
            Command::DeleteOne => "delete_one"@,
            Command::Distinct => "distinct"@,
            Command::DropIndex => "drop_index"@,
            Command::DropIndexes => "drop_indexes"@,
            Command::ListIndexes => "list_indexes"@,
            Command::ListIndexNames => "list_index_names"@,
            Command::UpdateMany => "update_many"@,
            Command::Watch => "watch"@,
            Command::Find => "find"@,
        }
    }

    /// Where the command stands among all commands.
    pub open spec fn position(self) -> int {
        match self {
            Command::FindOne => 0,
            Command::InsertMany => 1,
            Command::InsertOne => 2,
            Command::ReplaceOne => 3,
            Command::UpdateOne => 4,
            Command::ReadConcern => 5,
            Command::WriteConcern => 6,
            Command::Drop => 7,
            Command::Aggregate => 8,
            Command::EstimatedDocumentCount => 9,
            Command::CountDocuments => 10,
            Command::CreateIndex => 11,
            Command::CreateIndexes => 12,
            Command::DeleteMany => 13,
            Command::DeleteOne => 14,
            Command::Distinct => 15,
            Command::DropIndex => 16,
            Command::DropIndexes => 17,
            Command::ListIndexes => 18,
            Command::ListIndexNames => 19,
            Command::UpdateMany => 20,
            Command::Watch => 21,
            Command::Find => 22,
        }
    }

    /// Whether the command can be threaded through a session. The two concern
    /// accessors and the estimated count cannot.
    pub open spec fn spec_supports_session(self) -> bool {
        !(self is ReadConcern || self is WriteConcern || self is EstimatedDocumentCount)
    }

    /// Reading one document and watching for changes need a document type that
    /// can be read; inserting and replacing need one that can be written; every
    /// other command is offered for all document types.
    pub open spec fn spec_requirement(self) -> Requirement {
        if self is FindOne || self is Watch {
            Requirement::Deserialize
        } else if self is InsertMany || self is InsertOne || self is ReplaceOne {
            Requirement::Serialize
        } else {
            Requirement::Nothing
        }
    }

    pub open spec fn spec_outcome(self) -> Outcome {
        match self {
            Command::FindOne => Outcome::Document,
            Command::Find => Outcome::Documents,
            Command::Aggregate => Outcome::Aggregation,
            Command::Watch => Outcome::Changes,
            Command::InsertMany => Outcome::InsertedMany,
            Command::InsertOne => Outcome::InsertedOne,
            Command::ReplaceOne | Command::UpdateOne | Command::UpdateMany => Outcome::Updated,
            Command::DeleteMany | Command::DeleteOne => Outcome::Deleted,
            Command::EstimatedDocumentCount | Command::CountDocuments => Outcome::Count,
            Command::Distinct => Outcome::Values,
            Command::CreateIndex => Outcome::CreatedIndex,
            Command::CreateIndexes => Outcome::CreatedIndexes,
            Command::ListIndexes => Outcome::Indexes,
            Command::ListIndexNames => Outcome::Names,
            Command::ReadConcern => Outcome::ReadConcern,
            Command::WriteConcern => Outcome::WriteConcern,
            Command::Drop | Command::DropIndex | Command::DropIndexes => Outcome::Nothing,
        }
    }

    pub fn name(self) -> (name: &'static str)
        ensures
            name@ == self.spec_name(),
    {
        match self {
            Command::FindOne => "find_one",
            Command::InsertMany => "insert_many",
            Command::InsertOne => "insert_one",
            Command::ReplaceOne => "replace_one",
            Command::UpdateOne => "update_one",
            Command::ReadConcern => "read_concern",
            Command::WriteConcern => "write_concern",
            Command::Drop => "drop",
            Command::Aggregate => "aggregate",
            Command::EstimatedDocumentCount => "estimated_document_count",
            Command::CountDocuments => "count_documents",
            Command::CreateIndex => "create_index",
            Command::CreateIndexes => "create_indexes",
            Command::DeleteMany => "delete_many",
            Command::DeleteOne => "delete_one",
            Command::Distinct => "distinct",
            Command::DropIndex => "drop_index",
            Command::DropIndexes => "drop_indexes",
            Command::ListIndexes => "list_indexes",
            Command::ListIndexNames => "list_index_names",
            Command::UpdateMany => "update_many",
            Command::Watch => "watch",
            Command::Find => "find",
        }
    }

    /// Every command, once each.
    pub fn all() -> (commands: Vec<Command>)
        ensures
            commands@.len() == 23,
            forall|at: int| 0 <= at < 23 ==> (#[trigger] commands@[at]).position() == at,
            forall|command: Command| commands@.contains(command),
            commands@.no_duplicates(),
    {
        let commands = vec![
            Command::FindOne,
            Command::InsertMany,
            Command::InsertOne,
            Command::ReplaceOne,
            Command::UpdateOne,
            Command::ReadConcern,
            Command::WriteConcern,
            Command::Drop,
            Command::Aggregate,
            Command::EstimatedDocumentCount,
            Command::CountDocuments,
            Command::CreateIndex,
            Command::CreateIndexes,
            Command::DeleteMany,
            Command::DeleteOne,
            Command::Distinct,
            Command::DropIndex,
            Command::DropIndexes,
            Command::ListIndexes,
            Command::ListIndexNames,
            Command::UpdateMany,
            Command::Watch,
            Command::Find,
        ];
        assert forall|command: Command| commands@.contains(command) by {
            assert(commands@[command.position()] == command);
        }
        commands
    }

    pub fn supports_session(self) -> (yes: bool)
        ensures
            yes == self.spec_supports_session(),
    {
        match self {
            Command::ReadConcern | Command::WriteConcern | Command::EstimatedDocumentCount => false,
            _ => true,
        }
    }

    pub fn requirement(self) -> (needed: Requirement)
        ensures
            needed == self.spec_requirement(),
    {
        match self {
            Command::FindOne | Command::Watch => Requirement::Deserialize,
            Command::InsertMany | Command::InsertOne | Command::ReplaceOne => Requirement::Serialize,
            _ => Requirement::Nothing,
        }
    }

    pub fn outcome(self) -> (shape: Outcome)
        ensures
            shape == self.spec_outcome(),
    {
        match self {
            Command::FindOne => Outcome::Document,
            Command::Find => Outcome::Documents,
            Command::Aggregate => Outcome::Aggregation,
            Command::Watch => Outcome::Changes,
            Command::InsertMany => Outcome::InsertedMany,
            Command::InsertOne => Outcome::InsertedOne,
            Command::ReplaceOne | Command::UpdateOne | Command::UpdateMany => Outcome::Updated,
            Command::DeleteMany | Command::DeleteOne => Outcome::Deleted,
            Command::EstimatedDocumentCount | Command::CountDocuments => Outcome::Count,
            Command::Distinct => Outcome::Values,
            Command::CreateIndex => Outcome::CreatedIndex,
            Command::CreateIndexes => Outcome::CreatedIndexes,
            Command::ListIndexes => Outcome::Indexes,
            Command::ListIndexNames => Outcome::Names,
            Command::ReadConcern => Outcome::ReadConcern,
            Command::WriteConcern => Outcome::WriteConcern,
            Command::Drop | Command::DropIndex | Command::DropIndexes => Outcome::Nothing,
        }
    }
}

/// One entry of an instrumented collection's surface: a command, either alone
/// or threaded through a session that the caller holds exclusively.
///
/// Only a command that supports sessions has a session-bound operation.
#[derive(Clone, Copy, Debug, PartialEq, Eq, Hash, Structural)]
pub struct Operation {
    command: Command,
    in_session: bool,
}

impl Operation {
    pub closed spec fn spec_command(self) -> Command {
        self.command
    }

    pub closed spec fn spec_in_session(self) -> bool {
        self.in_session
    }

    /// A session-bound operation belongs to a command that supports sessions.
    #[verifier::type_invariant]
    pub open spec fn wf(self) -> bool {
        self.spec_in_session() ==> self.spec_command().spec_supports_session()
    }

    /// The command's name, followed by the session suffix for a session-bound
    /// operation.
    pub open spec fn spec_name(self) -> Seq<char> {
        if self.spec_in_session() {
            self.spec_command().spec_name() + SESSION_SUFFIX@
        } else {
            self.spec_command().spec_name()
        }
    }

    /// What the operation asks of the document type: what its command asks,
    /// with or without a session.
    pub open spec fn spec_requirement(self) -> Requirement {
        self.spec_command().spec_requirement()
    }

    /// What the operation hands back on success: what its command hands back,
    /// with or without a session.
    pub open spec fn spec_outcome(self) -> Outcome {
        self.spec_command().spec_outcome()
    }

    /// The operation that runs `command` with no session.
    pub fn standalone(command: Command) -> (op: Operation)
        ensures
            op.wf(),
            op.spec_command() == command,
            !op.spec_in_session(),
    {
        Operation { command, in_session: false }
    }

    /// The operation that runs `command` inside a session, where the command
    /// supports one.
    pub fn in_session(command: Command) -> (found: Option<Operation>)
        ensures
            found is Some <==> command.spec_supports_session(),
            found matches Some(op) ==> op.wf() && op.spec_command() == command
                && op.spec_in_session(),
    {
        if command.supports_session() {
            Some(Operation { command, in_session: true })
        } else {
            None
        }
    }

    /// Every operation, once each: for each command its standalone operation
    /// and, where the command supports a session, its session-bound one.
    pub fn all() -> (ops: Vec<Operation>)
        ensures
            forall|op: Operation| ops@.contains(op) <==> op.wf(),
            ops@.no_duplicates(),
    {
        let commands = Command::all();
        let mut ops: Vec<Operation> = Vec::new();
        let mut done: usize = 0;
        while done < commands.len()
            invariant
                done <= commands@.len() == 23,
                forall|at: int| 0 <= at < 23 ==> (#[trigger] commands@[at]).position() == at,
                forall|op: Operation|
                    #![trigger ops@.contains(op)]
                    ops@.contains(op) <==> op.wf() && op.spec_command().position() < done,
                ops@.no_duplicates(),
            decreases commands@.len() - done,
        {
            let command = commands[done];
            let ghost before = ops@;
            let alone = Operation::standalone(command);
            ops.push(alone);
            let bound = Operation::in_session(command);
            if let Some(bound) = bound {
                ops.push(bound);
            }
            done = done + 1;
            proof {
                assert(ops@[before.len() as int] == alone);
                assert forall|op: Operation|
                    #![trigger ops@.contains(op)]
                    ops@.contains(op) implies op.wf() && op.spec_command().position() < done by {
                    let at = choose|at: int| 0 <= at < ops@.len() && ops@[at] == op;
                    if at < before.len() {
                        assert(before[at] == op);
                        assert(before.contains(op));
                    }
                }
                assert forall|op: Operation|
                    #![trigger ops@.contains(op)]
                    op.wf() && op.spec_command().position() < done implies ops@.contains(op) by {
                    if op.spec_command().position() < done - 1 {
                        assert(before.contains(op));
                        let at = choose|at: int| 0 <= at < before.len() && before[at] == op;
                        assert(ops@[at] == op);
                    } else if op.spec_in_session() {
                        assert(ops@[before.len() as int + 1] == op);
                    } else {
                        assert(ops@[before.len() as int] == op);
                    }
                }
                assert forall|i: int, j: int|
                    0 <= i < ops@.len() && 0 <= j < ops@.len() && i != j implies ops@[i]
                    != ops@[j] by {
                    if i < before.len() {
                        assert(before.contains(ops@[i]));
                    }
                    if j < before.len() {
                        assert(before.contains(ops@[j]));
                    }
                }
            }
        }
        ops
    }

    pub fn command(self) -> (command: Command)
        ensures
            command == self.spec_command(),
    {
        self.command
    }

    pub fn is_session_bound(self) -> (yes: bool)
        ensures
            yes == self.spec_in_session(),
            yes ==> self.spec_command().spec_supports_session(),
    {
        proof {
            use_type_invariant(self);
        }
        self.in_session
    }

    /// The same command on the other side of the session divide: the
    /// session-bound operation of a standalone one and the reverse. A command
    /// that supports no session has no counterpart.
    pub fn counterpart(self) -> (found: Option<Operation>)
        ensures
            found is Some <==> self.spec_command().spec_supports_session(),
            found matches Some(op) ==> op.wf() && op.spec_command() == self.spec_command()
                && op.spec_in_session() == !self.spec_in_session(),
    {
        if self.command.supports_session() {
            Some(Operation { command: self.command, in_session: !self.in_session })
        } else {
            proof {
                use_type_invariant(self);
            }
            None
        }
    }

    pub fn name(self) -> (name: String)
        ensures
            name@ == self.spec_name(),
    {
        let base = self.command.name().to_owned();
        if self.in_session {
            base.concat(SESSION_SUFFIX)
        } else {
            base
        }
    }

    pub fn requirement(self) -> (needed: Requirement)
        ensures
            needed == self.spec_requirement(),
    {
        self.command.requirement()
    }

    pub fn outcome(self) -> (shape: Outcome)
        ensures
            shape == self.spec_outcome(),
    {
        self.command.outcome()
    }
}

} // verus!
