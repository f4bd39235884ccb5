use std::time::{SystemTime, UNIX_EPOCH};

use dynamodb_mutex::attribute::{AttributeMap, AttributeValue};
use dynamodb_mutex::decimal::parse_number;
use dynamodb_mutex::expression::{Assignment, Column, Placeholder};
use dynamodb_mutex::mutex::{TABLE_KEY, TABLE_NAME};
use dynamodb_mutex::request::ReturnValues;
use dynamodb_mutex::{DynamoDbMutex, DynamoDbMutexStatus};

fn string(text: &str) -> AttributeValue {
    AttributeValue { n: None, s: Some(text.to_owned()) }
}

fn number(text: &str) -> AttributeValue {
    AttributeValue { n: Some(text.to_owned()), s: None }
}

fn names(map: &AttributeMap) -> Vec<String> {
    let mut names: Vec<String> = map.entries.iter().map(|entry| entry.name.clone()).collect();
    names.sort();
    names
}

fn number_under(map: &AttributeMap, name: &str) -> i128 {
    let value = map.get(name).unwrap();
    assert_eq!(value.s, None);
    parse_number(value.n.as_ref().unwrap()).unwrap()
}

fn wall_clock_millis() -> i128 {
    SystemTime::now().duration_since(UNIX_EPOCH).unwrap().as_millis() as i128
}

#[test]
fn table_names() {
    assert_eq!(TABLE_NAME, "mutexes");
    assert_eq!(TABLE_KEY, "mutex_code");
}

#[test]
fn return_values_names() {
    assert_eq!(ReturnValues::AllOld.as_str(), "ALL_OLD");
    assert_eq!(ReturnValues::Nothing.as_str(), "NONE");
}

#[test]
fn make_table_asks_for_one_hash_key() {
    let mutex = DynamoDbMutex::new(10000, 10000, 10000, None);
    let request = mutex.make_table();
    assert_eq!(request.table_name, "mutexes");
    assert_eq!(request.key_name, "mutex_code");
    assert_eq!(request.key_attribute_type, "S");
    assert_eq!(request.key_type, "HASH");
    assert_eq!(request.billing_mode, "PROVISIONED");
    assert_eq!(request.read_capacity_units, 1);
    assert_eq!(request.write_capacity_units, 1);
}

#[test]
fn make_table_twice_asks_the_same() {
    let mutex = DynamoDbMutex::new(1, 2, 3, Some("leases"));
    let first = mutex.make_table();
    let second = mutex.make_table();
    assert_eq!(first, second);
    assert_eq!(first.table_name, "leases");
}

#[test]
fn lock_at_builds_the_conditional_write() {
    let mutex = DynamoDbMutex::new(1000, 2000, 3000, None);
    let request = mutex.lock_at("test3", 10_000);
    assert_eq!(request.table_name, "mutexes");
    assert_eq!(request.key.len(), 1);
    assert_eq!(request.key.get("mutex_code"), Some(&string("test3")));
    assert_eq!(
        request.condition_expression(),
        "attribute_not_exists(mutex_status) \
         OR (mutex_status = :condion_done_status AND updated_at <= :condion_done_millis) \
         OR (mutex_status = :condion_failed_status AND updated_at <= :condion_failed_millis) \
         OR (mutex_status = :condion_running_status AND updated_at <= :condion_running_millis)"
    );
    assert_eq!(
        request.update_expression(),
        "SET mutex_status = :update_status, updated_at = :now"
    );
    assert_eq!(
        request.update,
        vec![
            Assignment { column: Column::MutexStatus, placeholder: Placeholder::UpdateStatus },
            Assignment { column: Column::UpdatedAt, placeholder: Placeholder::Now },
        ]
    );
    assert_eq!(request.return_values, ReturnValues::AllOld);
    assert_eq!(request.return_values.as_str(), "ALL_OLD");
}

#[test]
fn lock_at_carries_a_status_and_a_threshold_for_each_window() {
    let mutex = DynamoDbMutex::new(1000, 2000, 3000, None);
    let request = mutex.lock_at("test3", 10_000);
    let values = &request.values;
    assert_eq!(
        names(values),
        vec![
            ":condion_done_millis",
            ":condion_done_status",
            ":condion_failed_millis",
            ":condion_failed_status",
            ":condion_running_millis",
            ":condion_running_status",
            ":now",
            ":update_status",
        ]
    );
    assert_eq!(values.get(":condion_done_status"), Some(&string("DONE")));
    assert_eq!(values.get(":condion_done_millis"), Some(&number("9000")));
    assert_eq!(values.get(":condion_failed_status"), Some(&string("FAILED")));
    assert_eq!(values.get(":condion_failed_millis"), Some(&number("8000")));
    assert_eq!(values.get(":condion_running_status"), Some(&string("RUNNING")));
    assert_eq!(values.get(":condion_running_millis"), Some(&number("7000")));
    assert_eq!(values.get(":update_status"), Some(&string("RUNNING")));
    assert_eq!(values.get(":now"), Some(&number("10000")));
}

#[test]
fn lock_at_thresholds_may_be_negative() {
    let mutex = DynamoDbMutex::new(0, 10_000, u64::MAX, Some("t"));
    let request = mutex.lock_at("k", 5000);
    assert_eq!(request.table_name, "t");
    assert_eq!(request.values.get(":condion_done_millis"), Some(&number("5000")));
    assert_eq!(request.values.get(":condion_failed_millis"), Some(&number("-5000")));
    assert_eq!(
        request.values.get(":condion_running_millis"),
        Some(&number("-18446744073709546615"))
    );
}

#[test]
fn lock_at_takes_any_time() {
    let mutex = DynamoDbMutex::new(u64::MAX, 1, 0, None);
    let early = mutex.lock_at("k", i64::MIN);
    assert_eq!(early.values.get(":now"), Some(&number("-9223372036854775808")));
    assert_eq!(early.values.get(":condion_done_millis"), Some(&number("-27670116110564327423")));
    assert_eq!(early.values.get(":condion_failed_millis"), Some(&number("-9223372036854775809")));
    let late = mutex.lock_at("k", i64::MAX);
    assert_eq!(late.values.get(":now"), Some(&number("9223372036854775807")));
    assert_eq!(late.values.get(":condion_done_millis"), Some(&number("-9223372036854775808")));
    assert_eq!(late.values.get(":condion_running_millis"), Some(&number("9223372036854775807")));
}

#[test]
fn unlock_at_builds_the_conditional_write() {
    let mutex = DynamoDbMutex::new(1000, 2000, 3000, Some("leases"));
    let request = mutex.unlock_at("test2", DynamoDbMutexStatus::Done, 12_345);
    assert_eq!(request.table_name, "leases");
    assert_eq!(request.key.len(), 1);
    assert_eq!(request.key.get("mutex_code"), Some(&string("test2")));
    assert_eq!(request.condition_expression(), "mutex_status = :condion_status");
    assert_eq!(
        request.update_expression(),
        "SET mutex_status = :update_status, updated_at = :now"
    );
    assert_eq!(names(&request.values), vec![":condion_status", ":now", ":update_status"]);
    assert_eq!(request.values.get(":condion_status"), Some(&string("RUNNING")));
    assert_eq!(request.values.get(":update_status"), Some(&string("DONE")));
    assert_eq!(request.values.get(":now"), Some(&number("12345")));
    assert_eq!(request.return_values, ReturnValues::Nothing);
    assert_eq!(request.return_values.as_str(), "NONE");
}

#[test]
fn unlock_at_writes_the_status_that_was_asked_for() {
    let mutex = DynamoDbMutex::new(0, 0, 0, None);
    for (status, name) in [
        (DynamoDbMutexStatus::Done, "DONE"),
        (DynamoDbMutexStatus::Failed, "FAILED"),
        (DynamoDbMutexStatus::Running, "RUNNING"),
    ] {
        let request = mutex.unlock_at("k", status, 1);
        assert_eq!(request.values.get(":update_status"), Some(&string(name)));
        assert_eq!(request.values.get(":condion_status"), Some(&string("RUNNING")));
    }
}

#[test]
fn lock_reads_the_wall_clock() {
    let mutex = DynamoDbMutex::new(1000, 2000, 3000, None);
    let before = wall_clock_millis();
    let request = mutex.lock("test");
    let after = wall_clock_millis();
    let now = number_under(&request.values, ":now");
    assert!(now >= 0);
    assert!(before <= now && now <= after, "{} <= {} <= {}", before, now, after);
    assert_eq!(number_under(&request.values, ":condion_done_millis"), now - 1000);
    assert_eq!(number_under(&request.values, ":condion_failed_millis"), now - 2000);
    assert_eq!(number_under(&request.values, ":condion_running_millis"), now - 3000);
    assert_eq!(request, mutex.lock_at("test", now as i64));
}

#[test]
fn unlock_reads_the_wall_clock() {
    let mutex = DynamoDbMutex::new(1000, 2000, 3000, None);
    let before = wall_clock_millis();
    let request = mutex.unlock("test", DynamoDbMutexStatus::Failed);
    let after = wall_clock_millis();
    let now = number_under(&request.values, ":now");
    assert!(before <= now && now <= after, "{} <= {} <= {}", before, now, after);
    assert_eq!(request, mutex.unlock_at("test", DynamoDbMutexStatus::Failed, now as i64));
}
