use dynamodb_mutex::attribute::{AttributeMap, AttributeValue};
use dynamodb_mutex::mutex::is_readable;
use dynamodb_mutex::request::UpdateItemReply;
use dynamodb_mutex::rusoto_dynamodb::{CreateTableError, UpdateItemError};
use dynamodb_mutex::{
    table_made, unlocked, update, DynamoDbMutexError, DynamoDbMutexResult, DynamoDbMutexStatus,
};
use rusoto_core::RusotoError;

fn string(text: &str) -> AttributeValue {
    AttributeValue { n: None, s: Some(text.to_owned()) }
}

fn number(text: &str) -> AttributeValue {
    AttributeValue { n: Some(text.to_owned()), s: None }
}

fn item(status: AttributeValue, updated_at: AttributeValue) -> AttributeMap {
    let mut map = AttributeMap::new();
    map.insert("mutex_code".to_owned(), string("k"));
    map.insert("mutex_status".to_owned(), status);
    map.insert("updated_at".to_owned(), updated_at);
    map
}

#[test]
fn update_without_attributes_is_a_first_lease() {
    assert_eq!(update(UpdateItemReply::Updated(None)), Ok(DynamoDbMutexResult::Success(None, 0)));
}

#[test]
fn update_without_a_status_is_a_first_lease() {
    let mut map = AttributeMap::new();
    map.insert("mutex_code".to_owned(), string("k"));
    assert!(is_readable(&map));
    assert_eq!(
        update(UpdateItemReply::Updated(Some(map))),
        Ok(DynamoDbMutexResult::Success(None, 0))
    );
    assert_eq!(
        update(UpdateItemReply::Updated(Some(AttributeMap::new()))),
        Ok(DynamoDbMutexResult::Success(None, 0))
    );
}

#[test]
fn update_hands_on_the_lease_that_was_there() {
    for (name, status) in [
        ("RUNNING", DynamoDbMutexStatus::Running),
        ("DONE", DynamoDbMutexStatus::Done),
        ("FAILED", DynamoDbMutexStatus::Failed),
    ] {
        let attributes = item(string(name), number("1700000000123"));
        assert!(is_readable(&attributes));
        assert_eq!(
            update(UpdateItemReply::Updated(Some(attributes))),
            Ok(DynamoDbMutexResult::Success(Some(status), 1_700_000_000_123))
        );
    }
}

#[test]
fn update_reads_the_whole_range_of_times() {
    assert_eq!(
        update(UpdateItemReply::Updated(Some(item(string("DONE"), number("0"))))),
        Ok(DynamoDbMutexResult::Success(Some(DynamoDbMutexStatus::Done), 0))
    );
    assert_eq!(
        update(UpdateItemReply::Updated(Some(item(string("DONE"), number("18446744073709551615"))))),
        Ok(DynamoDbMutexResult::Success(Some(DynamoDbMutexStatus::Done), u64::MAX))
    );
}

#[test]
fn update_rejects_an_unknown_status() {
    for name in ["", "done", "CANCELLED", "RUNNING "] {
        let attributes = item(string(name), number("5"));
        assert!(is_readable(&attributes));
        assert_eq!(
            update(UpdateItemReply::Updated(Some(attributes))),
            Err(DynamoDbMutexError::FailDbValue)
        );
    }
}

#[test]
fn update_rejects_an_unknown_status_whatever_the_time() {
    let attributes = item(string("PAUSED"), string("yesterday"));
    assert!(is_readable(&attributes));
    assert_eq!(
        update(UpdateItemReply::Updated(Some(attributes))),
        Err(DynamoDbMutexError::FailDbValue)
    );
    let mut map = AttributeMap::new();
    map.insert("mutex_status".to_owned(), string("PAUSED"));
    assert!(is_readable(&map));
    assert_eq!(update(UpdateItemReply::Updated(Some(map))), Err(DynamoDbMutexError::FailDbValue));
}

#[test]
fn update_takes_a_failed_condition_for_contention() {
    assert_eq!(update(UpdateItemReply::ConditionalCheckFailed), Ok(DynamoDbMutexResult::Failure));
}

#[test]
fn update_hands_on_any_other_failure() {
    let result = update(UpdateItemReply::Failed(RusotoError::Validation("bad table".to_owned())));
    assert_eq!(
        result,
        Err(DynamoDbMutexError::UpdateItem(RusotoError::Validation("bad table".to_owned())))
    );
    let result = update(UpdateItemReply::Failed(RusotoError::Service(
        UpdateItemError::ProvisionedThroughputExceeded("slow down".to_owned()),
    )));
    assert_eq!(
        result,
        Err(DynamoDbMutexError::UpdateItem(RusotoError::Service(
            UpdateItemError::ProvisionedThroughputExceeded("slow down".to_owned())
        )))
    );
}

#[test]
fn is_readable_wants_a_string_status_and_an_unsigned_time() {
    assert!(is_readable(&item(string("DONE"), number("12"))));
    assert!(is_readable(&item(string("DONE"), number("+12"))));
    assert!(!is_readable(&item(number("1"), number("12"))));
    assert!(!is_readable(&item(string("DONE"), string("12"))));
    assert!(!is_readable(&item(string("DONE"), number("-12"))));
    assert!(!is_readable(&item(string("DONE"), number("1.5"))));
    assert!(!is_readable(&item(string("DONE"), number("18446744073709551616"))));
    let mut no_time = AttributeMap::new();
    no_time.insert("mutex_status".to_owned(), string("RUNNING"));
    assert!(!is_readable(&no_time));
    let neither = AttributeValue { n: None, s: None };
    assert!(!is_readable(&item(neither, number("12"))));
}

#[test]
fn unlocked_succeeds_when_the_write_was_made() {
    assert_eq!(unlocked(UpdateItemReply::Updated(None)), Ok(()));
    assert_eq!(
        unlocked(UpdateItemReply::Updated(Some(item(string("RUNNING"), number("1"))))),
        Ok(())
    );
    assert_eq!(unlocked(UpdateItemReply::Updated(Some(item(string("?"), string("?"))))), Ok(()));
}

#[test]
fn unlocked_reports_a_lease_that_was_not_held() {
    assert_eq!(
        unlocked(UpdateItemReply::ConditionalCheckFailed),
        Err(DynamoDbMutexError::ConditionFailed)
    );
}

#[test]
fn unlocked_hands_on_any_other_failure() {
    assert_eq!(
        unlocked(UpdateItemReply::Failed(RusotoError::Blocking)),
        Err(DynamoDbMutexError::UpdateItem(RusotoError::Blocking))
    );
    assert_eq!(
        unlocked(UpdateItemReply::Failed(RusotoError::Service(
            UpdateItemError::ResourceNotFound("no table".to_owned())
        ))),
        Err(DynamoDbMutexError::UpdateItem(RusotoError::Service(
            UpdateItemError::ResourceNotFound("no table".to_owned())
        )))
    );
}

#[test]
fn table_made_hands_on_the_reply() {
    assert_eq!(table_made(Ok(())), Ok(()));
    assert_eq!(
        table_made(Err(RusotoError::Service(CreateTableError::ResourceInUse(
            "Table already exists: mutexes".to_owned()
        )))),
        Err(DynamoDbMutexError::CreateTable(RusotoError::Service(
            CreateTableError::ResourceInUse("Table already exists: mutexes".to_owned())
        )))
    );
    assert_eq!(
        table_made(Err(RusotoError::ParseError("garbled".to_owned()))),
        Err(DynamoDbMutexError::CreateTable(RusotoError::ParseError("garbled".to_owned())))
    );
}
