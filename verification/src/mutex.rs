//! The mutex: its settings, the requests that take and give back a lease, and
//! the reading of the table's replies.

use vstd::prelude::*;
use vstd::string::*;
use crate::attribute::{
    insert_num_attribute, insert_str_attribute, AttributeMap, AttributeText, Attributes,
};
use crate::clock::now_millis;
use crate::decimal::{parse_unsigned, unsigned_value};
use crate::error::DynamoDbMutexError;
use crate::expression::{Assignment, Column, Condition, Placeholder};
use crate::request::{
    CreateTable, CreateTableRequest, ReturnValues, UpdateItemAnswer, UpdateItemReply,
    UpdateItemRequest, UpdateItemWrite,
};
use crate::status::DynamoDbMutexStatus;

verus! {

/// The table that holds the leases where no other is named.
pub const TABLE_NAME: &'static str = "mutexes";

/// The key attribute of the table.
pub const TABLE_KEY: &'static str = "mutex_code";

/// What became of an attempt to take a lease.
#[derive(Debug, Clone, Copy, PartialEq, Eq, Structural)]
pub enum DynamoDbMutexResult {
    /// The lease was taken. With it come the status that it had before, if it
    /// had one, and the time of that status.
    Success(Option<DynamoDbMutexStatus>, u64),
    /// Another holder's lease has not run out.
    Failure,
}

/// A mutex over one table: the table's name and, for each status, how long a
/// lease in that status keeps others out.
pub struct DynamoDbMutex {
    table_name: String,
    done_after_milli_seconds: u64,
    failed_after_milli_seconds: u64,
    running_after_milli_seconds: u64,
}

/// What a `DynamoDbMutex` holds.
pub struct Settings {
    pub table_name: Seq<char>,
    pub done_after: u64,
    pub failed_after: u64,
    pub running_after: u64,
}

impl View for DynamoDbMutex {
    type V = Settings;

    closed spec fn view(&self) -> Settings {
        Settings {
            table_name: self.table_name@,
            done_after: self.done_after_milli_seconds,
            failed_after: self.failed_after_milli_seconds,
            running_after: self.running_after_milli_seconds,
        }
    }
}

/// The lease is in the status that `status` names and has aged past the time
/// that `millis` names.
pub open spec fn stale(status: Placeholder, millis: Placeholder) -> Condition {
    Condition::And(
        Box::new(Condition::Equals(Column::MutexStatus, status)),
        Box::new(Condition::AtMost(Column::UpdatedAt, millis)),
    )
}

/// The condition under which a lease is taken: there is none, or the one
/// there has aged past the window of its status.
pub open spec fn lock_condition() -> Condition {
    Condition::Or(
        Box::new(Condition::AttributeNotExists(Column::MutexStatus)),
        Box::new(
            Condition::Or(
                Box::new(stale(Placeholder::ConditionDoneStatus, Placeholder::ConditionDoneMillis)),
                Box::new(
                    Condition::Or(
                        Box::new(
                            stale(
                                Placeholder::ConditionFailedStatus,
                                Placeholder::ConditionFailedMillis,
                            ),
                        ),
                        Box::new(
                            stale(
                                Placeholder::ConditionRunningStatus,
                                Placeholder::ConditionRunningMillis,
                            ),
                        ),
                    ),
                ),
            ),
        ),
    )
}

/// The condition under which a lease is given back: it is held.
pub open spec fn unlock_condition() -> Condition {
    Condition::Equals(Column::MutexStatus, Placeholder::ConditionStatus)
}

/// What both writes assign: the new status and the time.
pub open spec fn lease_update() -> Seq<Assignment> {
    seq![
        Assignment { column: Column::MutexStatus, placeholder: Placeholder::UpdateStatus },
        Assignment { column: Column::UpdatedAt, placeholder: Placeholder::Now },
    ]
}

/// The key of the item that holds the lease of `mutex_code`.
pub open spec fn key_of(mutex_code: Seq<char>) -> Attributes {
    Map::<Seq<char>, AttributeText>::empty().insert(
        Column::MutexCode.name(),
        AttributeText::string(mutex_code),
    )
}

impl Settings {
    /// How long a lease in `status` keeps others out, in milliseconds.
    pub open spec fn window(self, status: DynamoDbMutexStatus) -> u64 {
        match status {
            DynamoDbMutexStatus::Running => self.running_after,
            DynamoDbMutexStatus::Done => self.done_after,
            DynamoDbMutexStatus::Failed => self.failed_after,
        }
    }

    /// The values that the request of `lock` carries at the time `now`.
    pub open spec fn lock_values(self, now: int) -> Attributes {
        Map::<Seq<char>, AttributeText>::empty().insert(
            Placeholder::ConditionDoneStatus.name(),
            AttributeText::string(DynamoDbMutexStatus::Done.name()),
        ).insert(
            Placeholder::ConditionDoneMillis.name(),
            AttributeText::number(now - self.done_after),
        ).insert(
            Placeholder::ConditionFailedStatus.name(),
            AttributeText::string(DynamoDbMutexStatus::Failed.name()),
        ).insert(
            Placeholder::ConditionFailedMillis.name(),
            AttributeText::number(now - self.failed_after),
        ).insert(
            Placeholder::ConditionRunningStatus.name(),
            AttributeText::string(DynamoDbMutexStatus::Running.name()),
        ).insert(
            Placeholder::ConditionRunningMillis.name(),
            AttributeText::number(now - self.running_after),
        ).insert(
            Placeholder::UpdateStatus.name(),
            AttributeText::string(DynamoDbMutexStatus::Running.name()),
        ).insert(Placeholder::Now.name(), AttributeText::number(now))
    }

    /// The write that takes the lease of `mutex_code` at the time `now`: it
    /// sets the lease to running since `now`, on the condition `lock_condition`,
    /// and asks for the item as it was.
    pub open spec fn lock_request(self, mutex_code: Seq<char>, now: int) -> UpdateItemWrite {
        UpdateItemWrite {
            table_name: self.table_name,
            key: key_of(mutex_code),
            condition: lock_condition(),
            update: lease_update(),
            values: self.lock_values(now),
            return_values: ReturnValues::AllOld,
        }
    }

    /// The values that the request of `unlock` carries at the time `now`.
    pub open spec fn unlock_values(status: DynamoDbMutexStatus, now: int) -> Attributes {
        Map::<Seq<char>, AttributeText>::empty().insert(
            Placeholder::ConditionStatus.name(),
            AttributeText::string(DynamoDbMutexStatus::Running.name()),
        ).insert(Placeholder::UpdateStatus.name(), AttributeText::string(status.name())).insert(
            Placeholder::Now.name(),
            AttributeText::number(now),
        )
    }

    /// The write that gives the lease of `mutex_code` back as `status` at the
    /// time `now`: it sets the lease to `status` since `now`, on the condition
    /// that the lease is running, and asks for nothing back.
    pub open spec fn unlock_request(
        self,
        mutex_code: Seq<char>,
        status: DynamoDbMutexStatus,
        now: int,
    ) -> UpdateItemWrite {
        UpdateItemWrite {
            table_name: self.table_name,
            key: key_of(mutex_code),
            condition: unlock_condition(),
            update: lease_update(),
            values: Self::unlock_values(status, now),
            return_values: ReturnValues::Nothing,
        }
    }

    /// The request that creates the table: keyed by the mutex's name, a
    /// string, with provisioned throughput of one read and one write unit.
    pub open spec fn create_table(self) -> CreateTable {
        CreateTable {
            table_name: self.table_name,
            key_name: Column::MutexCode.name(),
            key_attribute_type: "S"@,
            key_type: "HASH"@,
            billing_mode: "PROVISIONED"@,
            read_capacity_units: 1,
            write_capacity_units: 1,
        }
    }
}

/// Whether `update` can read a lease out of the attributes: where they hold
/// a status, it is a string, and where that string names a status, the time
/// beside it is a number of 64 unsigned bits.
pub open spec fn readable(attributes: Attributes) -> bool {
    attributes.contains_key(Column::MutexStatus.name()) ==> {
        &&& attributes[Column::MutexStatus.name()].s is Some
        &&& DynamoDbMutexStatus::named(attributes[Column::MutexStatus.name()].s->0) is Some ==> {
            &&& attributes.contains_key(Column::UpdatedAt.name())
            &&& attributes[Column::UpdatedAt.name()].n is Some
            &&& unsigned_value(attributes[Column::UpdatedAt.name()].n->0) is Some
        }
    }
}

/// What the reply to the request of `lock` means.
///
/// A write that was made took the lease: the attributes that came back are
/// the lease as it was before, and none, or none with a status, means that
/// there was no lease. A condition that failed means that the lease is held by
/// another. Anything else is an error.
pub open spec fn lock_outcome(answer: UpdateItemAnswer) -> Result<
    DynamoDbMutexResult,
    DynamoDbMutexError,
> {
    match answer {
        UpdateItemAnswer::Updated(None) => Ok(DynamoDbMutexResult::Success(None, 0)),
        UpdateItemAnswer::Updated(Some(attributes)) => {
            if !attributes.contains_key(Column::MutexStatus.name()) {
                Ok(DynamoDbMutexResult::Success(None, 0))
            } else {
                match DynamoDbMutexStatus::named(attributes[Column::MutexStatus.name()].s->0) {
                    Some(status) => Ok(
                        DynamoDbMutexResult::Success(
                            Some(status),
                            unsigned_value(attributes[Column::UpdatedAt.name()].n->0)->0,
                        ),
                    ),
                    None => Err(DynamoDbMutexError::FailDbValue),
                }
            }
        },
        UpdateItemAnswer::ConditionalCheckFailed => Ok(DynamoDbMutexResult::Failure),
        UpdateItemAnswer::Failed(error) => Err(DynamoDbMutexError::UpdateItem(error)),
    }
}

/// What the reply to the request of `unlock` means: a write that was made gave
/// the lease back, a condition that failed means that the lease was not held,
/// and anything else is an error.
pub open spec fn unlock_outcome(answer: UpdateItemAnswer) -> Result<(), DynamoDbMutexError> {
    match answer {
        UpdateItemAnswer::Updated(_) => Ok(()),
        UpdateItemAnswer::ConditionalCheckFailed => Err(DynamoDbMutexError::ConditionFailed),
        UpdateItemAnswer::Failed(error) => Err(DynamoDbMutexError::UpdateItem(error)),
    }
}

/// The key of the item that holds the lease of `mutex_code`.
pub fn make_key(mutex_code: &str) -> (key: AttributeMap)
    ensures
        key.wf(),
        key@ == key_of(mutex_code@),
{
    let mut map = AttributeMap::new();
    insert_str_attribute(&mut map, Column::MutexCode.as_str(), mutex_code);
    map
}

/// Builds `stale(status, millis)`.
fn make_stale(status: Placeholder, millis: Placeholder) -> (condition: Condition)
    ensures
        condition == stale(status, millis),
{
    Condition::And(
        Box::new(Condition::Equals(Column::MutexStatus, status)),
        Box::new(Condition::AtMost(Column::UpdatedAt, millis)),
    )
}

/// Builds `lock_condition()`.
fn make_lock_condition() -> (condition: Condition)
    ensures
        condition == lock_condition(),
{
    let done = make_stale(Placeholder::ConditionDoneStatus, Placeholder::ConditionDoneMillis);
    let failed = make_stale(Placeholder::ConditionFailedStatus, Placeholder::ConditionFailedMillis);
    let running = make_stale(
        Placeholder::ConditionRunningStatus,
        Placeholder::ConditionRunningMillis,
    );
    Condition::Or(
        Box::new(Condition::AttributeNotExists(Column::MutexStatus)),
        Box::new(
            Condition::Or(
                Box::new(done),
                Box::new(Condition::Or(Box::new(failed), Box::new(running))),
            ),
        ),
    )
}

/// Builds `lease_update()`.
fn make_lease_update() -> (update: Vec<Assignment>)
    ensures
        update@ == lease_update(),
{
    let mut update: Vec<Assignment> = Vec::new();
    update.push(Assignment { column: Column::MutexStatus, placeholder: Placeholder::UpdateStatus });
    update.push(Assignment { column: Column::UpdatedAt, placeholder: Placeholder::Now });
    assert(update@ =~= lease_update());
    update
}

/// Whether `update` can read a lease out of the attributes.
pub fn is_readable(attributes: &AttributeMap) -> (can: bool)
    ensures
        can == readable(attributes@),
{
    match attributes.get(Column::MutexStatus.as_str()) {
        None => true,
        Some(stored) => match &stored.s {
            None => false,
            Some(name) => match DynamoDbMutexStatus::from_str(name.as_str()) {
                Err(_) => true,
                Ok(_) => match attributes.get(Column::UpdatedAt.as_str()) {
                    None => false,
                    Some(time) => match &time.n {
                        None => false,
                        Some(text) => parse_unsigned(text.as_str()).is_some(),
                    },
                },
            },
        },
    }
}

/// Reads the table's reply to the request of `lock`.
///
/// The attributes that come back must be `readable`; `is_readable` tests it.
pub fn update(reply: UpdateItemReply) -> (result: Result<DynamoDbMutexResult, DynamoDbMutexError>)
    requires
        reply matches UpdateItemReply::Updated(Some(attributes)) ==> readable(attributes@),
    ensures
        result == lock_outcome(reply@),
{
    match reply {
        UpdateItemReply::Updated(Some(value)) => {
            match value.get(Column::MutexStatus.as_str()) {
                Some(stored) => {
                    let mutex_status = stored.s.as_ref().unwrap();
                    match DynamoDbMutexStatus::from_str(mutex_status.as_str()) {
                        Ok(status) => {
                            let time = value.get(Column::UpdatedAt.as_str()).unwrap();
                            let updated_at = time.n.as_ref().unwrap();
                            let millis: u64 = parse_unsigned(updated_at.as_str()).unwrap();
                            Ok(DynamoDbMutexResult::Success(Some(status), millis))
                        },
                        Err(error) => Err(error),
                    }
                },
                None => Ok(DynamoDbMutexResult::Success(None, 0)),
            }
        },
        UpdateItemReply::Updated(None) => Ok(DynamoDbMutexResult::Success(None, 0)),
        UpdateItemReply::ConditionalCheckFailed => Ok(DynamoDbMutexResult::Failure),
        UpdateItemReply::Failed(error) => Err(DynamoDbMutexError::UpdateItem(error)),
    }
}

/// Reads the table's reply to the request of `unlock`.
pub fn unlocked(reply: UpdateItemReply) -> (result: Result<(), DynamoDbMutexError>)
    ensures
        result == unlock_outcome(reply@),
{
    match reply {
        UpdateItemReply::Updated(_) => Ok(()),
        UpdateItemReply::ConditionalCheckFailed => Err(DynamoDbMutexError::ConditionFailed),
        UpdateItemReply::Failed(error) => Err(DynamoDbMutexError::UpdateItem(error)),
    }
}

/// Reads the table's reply to the request of `make_table`: the table's error
/// is handed on as it came.
pub fn table_made(
    reply: Result<(), rusoto_core::RusotoError<rusoto_dynamodb::CreateTableError>>,
) -> (result: Result<(), DynamoDbMutexError>)
    ensures
        match reply {
            Ok(_) => result == Ok::<(), DynamoDbMutexError>(()),
            Err(error) => result == Err::<(), DynamoDbMutexError>(
                DynamoDbMutexError::CreateTable(error),
            ),
        },
{
    match reply {
        Ok(_) => Ok(()),
        Err(error) => Err(DynamoDbMutexError::CreateTable(error)),
    }
}

impl DynamoDbMutex {
    /// A mutex over the table `table_name`, or over `TABLE_NAME` where none is
    /// given, with the three windows in milliseconds.
    pub fn new(
        done_after_milli_seconds: u64,
        failed_after_milli_seconds: u64,
        running_after_milli_seconds: u64,
        table_name: Option<&str>,
    ) -> (mutex: DynamoDbMutex)
        ensures
            mutex@ == (Settings {
                table_name: match table_name {
                    Some(name) => name@,
                    None => TABLE_NAME@,
                },
                done_after: done_after_milli_seconds,
                failed_after: failed_after_milli_seconds,
                running_after: running_after_milli_seconds,
            }),
    {
        let name = match table_name {
            Some(name) => name,
            None => TABLE_NAME,
        };
        DynamoDbMutex {
            table_name: name.to_owned(),
            done_after_milli_seconds,
            failed_after_milli_seconds,
            running_after_milli_seconds,
        }
    }

    /// The request that creates the table.
    pub fn make_table(&self) -> (request: CreateTableRequest)
        ensures
            request@ == self@.create_table(),
    {
        CreateTableRequest {
            table_name: self.table_name.clone(),
            key_name: TABLE_KEY.to_owned(),
            key_attribute_type: "S".to_owned(),
            key_type: "HASH".to_owned(),
            billing_mode: "PROVISIONED".to_owned(),
            read_capacity_units: 1,
            write_capacity_units: 1,
        }
    }

    /// The request that takes the lease of `mutex_code` at the time
    /// `now_millis`.
    pub fn lock_at(&self, mutex_code: &str, now_millis: i64) -> (request: UpdateItemRequest)
        ensures
            request.wf(),
            request@ == self@.lock_request(mutex_code@, now_millis as int),
    {
        let now: i128 = now_millis as i128;
        let mut map = AttributeMap::new();
        insert_str_attribute(
            &mut map,
            Placeholder::ConditionDoneStatus.as_str(),
            DynamoDbMutexStatus::Done.to_string().as_str(),
        );
        insert_num_attribute(
            &mut map,
            Placeholder::ConditionDoneMillis.as_str(),
            now - self.done_after_milli_seconds as i128,
        );
        insert_str_attribute(
            &mut map,
            Placeholder::ConditionFailedStatus.as_str(),
            DynamoDbMutexStatus::Failed.to_string().as_str(),
        );
        insert_num_attribute(
            &mut map,
            Placeholder::ConditionFailedMillis.as_str(),
            now - self.failed_after_milli_seconds as i128,
        );
        insert_str_attribute(
            &mut map,
            Placeholder::ConditionRunningStatus.as_str(),
            DynamoDbMutexStatus::Running.to_string().as_str(),
        );
        insert_num_attribute(
            &mut map,
            Placeholder::ConditionRunningMillis.as_str(),
            now - self.running_after_milli_seconds as i128,
        );
        insert_str_attribute(
            &mut map,
            Placeholder::UpdateStatus.as_str(),
            DynamoDbMutexStatus::Running.to_string().as_str(),
        );
        insert_num_attribute(&mut map, Placeholder::Now.as_str(), now);
        proof {
            reveal_with_fuel(Condition::closed, 5);
        }
        UpdateItemRequest {
            table_name: self.table_name.clone(),
            key: make_key(mutex_code),
            condition: make_lock_condition(),
            update: make_lease_update(),
            values: map,
            return_values: ReturnValues::AllOld,
        }
    }

    /// The request that takes the lease of `mutex_code` now, by the wall
    /// clock.
    pub fn lock(&self, mutex_code: &str) -> (request: UpdateItemRequest)
        ensures
            request.wf(),
            exists|now: i64|
                0 <= now && request@ == #[trigger] self@.lock_request(mutex_code@, now as int),
    {
        let now: i64 = now_millis();
        self.lock_at(mutex_code, now)
    }

    /// The request that gives the lease of `mutex_code` back as `status` at
    /// the time `now_millis`.
    pub fn unlock_at(&self, mutex_code: &str, status: DynamoDbMutexStatus, now_millis: i64) -> (
        request: UpdateItemRequest
    )
        ensures
            request.wf(),
            request@ == self@.unlock_request(mutex_code@, status, now_millis as int),
    {
        let mut map = AttributeMap::new();
        insert_str_attribute(
            &mut map,
            Placeholder::ConditionStatus.as_str(),
            DynamoDbMutexStatus::Running.to_string().as_str(),
        );
        insert_str_attribute(
            &mut map,
            Placeholder::UpdateStatus.as_str(),
            status.to_string().as_str(),
        );
        insert_num_attribute(&mut map, Placeholder::Now.as_str(), now_millis as i128);
        UpdateItemRequest {
            table_name: self.table_name.clone(),
            key: make_key(mutex_code),
            condition: Condition::Equals(Column::MutexStatus, Placeholder::ConditionStatus),
            update: make_lease_update(),
            values: map,
            return_values: ReturnValues::Nothing,
        }
    }

    /// The request that gives the lease of `mutex_code` back as `status` now,
    /// by the wall clock.
    pub fn unlock(&self, mutex_code: &str, status: DynamoDbMutexStatus) -> (request:
        UpdateItemRequest)
        ensures
            request.wf(),
            exists|now: i64|
                0 <= now && request@ == #[trigger] self@.unlock_request(
                    mutex_code@,
                    status,
                    now as int,
                ),
    {
        let now: i64 = now_millis();
        self.unlock_at(mutex_code, status, now)
    }
}

} // verus!
