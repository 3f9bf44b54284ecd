use bevy_undo_redo::Error;

#[test]
fn no_applicable_history_message() {
    assert_eq!(
        Error::NoApplicableHistory.message(),
        "No applicable history available to perform this operation"
    );
}

#[test]
fn no_queued_operations_message() {
    assert_eq!(Error::NoQueuedOperations.message(), "No operation available to apply");
}

#[test]
fn errors_are_told_apart() {
    assert_ne!(Error::NoApplicableHistory, Error::NoQueuedOperations);
    assert_eq!(format!("{:?}", Error::NoQueuedOperations), "NoQueuedOperations");
}
