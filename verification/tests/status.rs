use dynamodb_mutex::{DynamoDbMutexError, DynamoDbMutexStatus};

#[test]
fn status_names_are_upper_case() {
    assert_eq!(DynamoDbMutexStatus::Running.to_string(), "RUNNING");
    assert_eq!(DynamoDbMutexStatus::Done.to_string(), "DONE");
    assert_eq!(DynamoDbMutexStatus::Failed.to_string(), "FAILED");
}

#[test]
fn status_reads_its_own_names() {
    assert_eq!(DynamoDbMutexStatus::from_str("RUNNING"), Ok(DynamoDbMutexStatus::Running));
    assert_eq!(DynamoDbMutexStatus::from_str("DONE"), Ok(DynamoDbMutexStatus::Done));
    assert_eq!(DynamoDbMutexStatus::from_str("FAILED"), Ok(DynamoDbMutexStatus::Failed));
}

#[test]
fn status_round_trips_through_its_name() {
    for status in [
        DynamoDbMutexStatus::Running,
        DynamoDbMutexStatus::Done,
        DynamoDbMutexStatus::Failed,
    ] {
        assert_eq!(DynamoDbMutexStatus::from_str(&status.to_string()), Ok(status));
    }
}

#[test]
fn status_rejects_any_other_text() {
    for text in ["", "running", "Done", "FAILED ", " FAILED", "RUNNINGDONE", "CANCELLED", "DON"] {
        assert_eq!(
            DynamoDbMutexStatus::from_str(text),
            Err(DynamoDbMutexError::FailDbValue),
            "{:?}",
            text
        );
    }
}
