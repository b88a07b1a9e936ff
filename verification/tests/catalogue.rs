use mongo_tracing::operation::SESSION_SUFFIX;
use mongo_tracing::{Command, Operation, Outcome, Requirement};

const STANDALONE_NAMES: [(Command, &str); 23] = [
    (Command::FindOne, "find_one"),
    (Command::InsertMany, "insert_many"),
    (Command::InsertOne, "insert_one"),
    (Command::ReplaceOne, "replace_one"),
    (Command::UpdateOne, "update_one"),
    (Command::ReadConcern, "read_concern"),
    (Command::WriteConcern, "write_concern"),
    (Command::Drop, "drop"),
    (Command::Aggregate, "aggregate"),
    (Command::EstimatedDocumentCount, "estimated_document_count"),
    (Command::CountDocuments, "count_documents"),
    (Command::CreateIndex, "create_index"),
    (Command::CreateIndexes, "create_indexes"),
    (Command::DeleteMany, "delete_many"),
    (Command::DeleteOne, "delete_one"),
    (Command::Distinct, "distinct"),
    (Command::DropIndex, "drop_index"),
    (Command::DropIndexes, "drop_indexes"),
    (Command::ListIndexes, "list_indexes"),
    (Command::ListIndexNames, "list_index_names"),
    (Command::UpdateMany, "update_many"),
    (Command::Watch, "watch"),
    (Command::Find, "find"),
];

#[test]
fn every_command_is_listed_once_and_in_order() {
    let commands = Command::all();
    assert_eq!(commands.len(), 23);
    for (at, (command, _)) in STANDALONE_NAMES.iter().enumerate() {
        assert_eq!(commands[at], *command);
    }
}

#[test]
fn command_names_are_the_method_names() {
    for (command, name) in STANDALONE_NAMES.iter() {
        assert_eq!(command.name(), *name);
        assert_eq!(Operation::standalone(*command).name(), *name);
    }
}

#[test]
fn session_suffix_is_with_session() {
    assert_eq!(SESSION_SUFFIX, "_with_session");
}

#[test]
fn session_bound_names_carry_the_suffix() {
    let find_one = Operation::in_session(Command::FindOne).unwrap();
    assert_eq!(find_one.name(), "find_one_with_session");
    let drop = Operation::in_session(Command::Drop).unwrap();
    assert_eq!(drop.name(), "drop_with_session");
    let update = Operation::in_session(Command::UpdateMany).unwrap();
    assert_eq!(update.name(), "update_many_with_session");
    for (command, name) in STANDALONE_NAMES.iter() {
        if let Some(bound) = Operation::in_session(*command) {
            assert_eq!(bound.name(), format!("{}_with_session", name));
        }
    }
}

#[test]
fn three_commands_support_no_session() {
    let without: Vec<Command> =
        Command::all().into_iter().filter(|command| !command.supports_session()).collect();
    assert_eq!(
        without,
        vec![Command::ReadConcern, Command::WriteConcern, Command::EstimatedDocumentCount]
    );
    for command in without {
        assert!(Operation::in_session(command).is_none());
        assert!(Operation::standalone(command).counterpart().is_none());
    }
    assert!(Command::FindOne.supports_session());
    assert!(Command::UpdateOne.supports_session());
}

#[test]
fn standalone_operation_keeps_its_command() {
    let op = Operation::standalone(Command::Distinct);
    assert_eq!(op.command(), Command::Distinct);
    assert!(!op.is_session_bound());
}

#[test]
fn session_bound_operation_keeps_its_command() {
    let op = Operation::in_session(Command::Distinct).unwrap();
    assert_eq!(op.command(), Command::Distinct);
    assert!(op.is_session_bound());
}

#[test]
fn all_operations_are_forty_three_and_distinct() {
    let ops = Operation::all();
    assert_eq!(ops.len(), 43);
    for i in 0..ops.len() {
        for j in 0..ops.len() {
            if i != j {
                assert_ne!(ops[i], ops[j]);
                assert_ne!(ops[i].name(), ops[j].name());
            }
        }
    }
}

#[test]
fn all_operations_hold_every_constructible_operation() {
    let ops = Operation::all();
    for command in Command::all() {
        assert!(ops.contains(&Operation::standalone(command)));
        match Operation::in_session(command) {
            Some(bound) => assert!(ops.contains(&bound)),
            None => assert_eq!(ops.iter().filter(|op| op.command() == command).count(), 1),
        }
    }
    let bound = ops.iter().filter(|op| op.is_session_bound()).count();
    assert_eq!(bound, 20);
}

#[test]
fn all_operations_start_with_find_one_and_end_with_find() {
    let names: Vec<String> = Operation::all().iter().map(|op| op.name()).collect();
    assert_eq!(names[0], "find_one");
    assert_eq!(names[1], "find_one_with_session");
    assert_eq!(names[2], "insert_many");
    assert_eq!(names[41], "find");
    assert_eq!(names[42], "find_with_session");
}

#[test]
fn counterpart_flips_the_session_and_nothing_else() {
    let alone = Operation::standalone(Command::Aggregate);
    let bound = alone.counterpart().unwrap();
    assert!(bound.is_session_bound());
    assert_eq!(bound.command(), Command::Aggregate);
    assert_eq!(bound, Operation::in_session(Command::Aggregate).unwrap());
    assert_eq!(bound.counterpart(), Some(alone));
}

#[test]
fn counterparts_agree_on_requirement_and_outcome() {
    for op in Operation::all() {
        if let Some(other) = op.counterpart() {
            assert_eq!(op.requirement(), other.requirement());
            assert_eq!(op.outcome(), other.outcome());
            assert_ne!(op.is_session_bound(), other.is_session_bound());
        }
    }
}

#[test]
fn requirements_follow_the_document_type() {
    for command in Command::all() {
        let expected = match command {
            Command::FindOne | Command::Watch => Requirement::Deserialize,
            Command::InsertMany | Command::InsertOne | Command::ReplaceOne => {
                Requirement::Serialize
            }
            _ => Requirement::Nothing,
        };
        assert_eq!(command.requirement(), expected);
        assert_eq!(Operation::standalone(command).requirement(), expected);
    }
    assert_eq!(Command::UpdateOne.requirement(), Requirement::Nothing);
    assert_eq!(Command::Find.requirement(), Requirement::Nothing);
}

#[test]
fn outcomes_by_command() {
    assert_eq!(Command::FindOne.outcome(), Outcome::Document);
    assert_eq!(Command::Find.outcome(), Outcome::Documents);
    assert_eq!(Command::Aggregate.outcome(), Outcome::Aggregation);
    assert_eq!(Command::Watch.outcome(), Outcome::Changes);
    assert_eq!(Command::InsertMany.outcome(), Outcome::InsertedMany);
    assert_eq!(Command::InsertOne.outcome(), Outcome::InsertedOne);
    assert_eq!(Command::ReplaceOne.outcome(), Outcome::Updated);
    assert_eq!(Command::UpdateOne.outcome(), Outcome::Updated);
    assert_eq!(Command::UpdateMany.outcome(), Outcome::Updated);
    assert_eq!(Command::DeleteMany.outcome(), Outcome::Deleted);
    assert_eq!(Command::DeleteOne.outcome(), Outcome::Deleted);
    assert_eq!(Command::EstimatedDocumentCount.outcome(), Outcome::Count);
    assert_eq!(Command::CountDocuments.outcome(), Outcome::Count);
    assert_eq!(Command::Distinct.outcome(), Outcome::Values);
    assert_eq!(Command::CreateIndex.outcome(), Outcome::CreatedIndex);
    assert_eq!(Command::CreateIndexes.outcome(), Outcome::CreatedIndexes);
    assert_eq!(Command::ListIndexes.outcome(), Outcome::Indexes);
    assert_eq!(Command::ListIndexNames.outcome(), Outcome::Names);
    assert_eq!(Command::ReadConcern.outcome(), Outcome::ReadConcern);
    assert_eq!(Command::WriteConcern.outcome(), Outcome::WriteConcern);
    assert_eq!(Command::Drop.outcome(), Outcome::Nothing);
    assert_eq!(Command::DropIndex.outcome(), Outcome::Nothing);
    assert_eq!(Command::DropIndexes.outcome(), Outcome::Nothing);
    assert_eq!(
        Operation::in_session(Command::Find).unwrap().outcome(),
        Outcome::Documents
    );
}
