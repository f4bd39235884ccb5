//! The three states of a lease and their names in the table.

use vstd::prelude::*;
use vstd::string::*;
use crate::error::DynamoDbMutexError;

verus! {

/// What a lease records about its holder.
#[derive(Debug, Clone, Copy, PartialEq, Eq, Structural)]
pub enum DynamoDbMutexStatus {
    /// The lease is held.
    Running,
    /// The holder finished its work.
    Done,
    /// The holder gave up.
    Failed,
}

impl DynamoDbMutexStatus {
    /// The name under which the status is stored.
    pub open spec fn name(self) -> Seq<char> {
        match self {
            DynamoDbMutexStatus::Running => "RUNNING"@,
            DynamoDbMutexStatus::Done => "DONE"@,
            DynamoDbMutexStatus::Failed => "FAILED"@,
        }
    }

    /// The status that a stored name stands for, if it is one of the three.
    pub open spec fn named(text: Seq<char>) -> Option<DynamoDbMutexStatus> {
        if text == "RUNNING"@ {
            Some(DynamoDbMutexStatus::Running)
        } else if text == "DONE"@ {
            Some(DynamoDbMutexStatus::Done)
        } else if text == "FAILED"@ {
            Some(DynamoDbMutexStatus::Failed)
        } else {
            None
        }
    }

    /// The stored name of the status.
    pub fn to_string(&self) -> (text: String)
        ensures
            text@ == self.name(),
    {
        match self {
            DynamoDbMutexStatus::Running => "RUNNING".to_owned(),
            DynamoDbMutexStatus::Done => "DONE".to_owned(),
            DynamoDbMutexStatus::Failed => "FAILED".to_owned(),
        }
    }

    /// Reads a stored name back; any other text is a malformed record.
    pub fn from_str(s: &str) -> (parsed: Result<DynamoDbMutexStatus, DynamoDbMutexError>)
        ensures
            match Self::named(s@) {
                Some(status) => parsed == Ok::<DynamoDbMutexStatus, DynamoDbMutexError>(status),
                None => parsed == Err::<DynamoDbMutexStatus, DynamoDbMutexError>(
                    DynamoDbMutexError::FailDbValue,
                ),
            },
    {
        let text = s.to_owned();
        if text == "RUNNING".to_owned() {
            Ok(DynamoDbMutexStatus::Running)
        } else if text == "DONE".to_owned() {
            Ok(DynamoDbMutexStatus::Done)
        } else if text == "FAILED".to_owned() {
            Ok(DynamoDbMutexStatus::Failed)
        } else {
            Err(DynamoDbMutexError::FailDbValue)
        }
    }
}

/// A stored name reads back as the status that wrote it.
pub proof fn lemma_name_round_trip(status: DynamoDbMutexStatus)
    ensures
        DynamoDbMutexStatus::named(status.name()) == Some(status),
{
    reveal_strlit("RUNNING");
    reveal_strlit("DONE");
    reveal_strlit("FAILED");
    assert("RUNNING"@.len() == 7);
    assert("DONE"@.len() == 4);
    assert("FAILED"@.len() == 6);
}

} // verus!
