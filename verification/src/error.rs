//! The failures of the lease operations.

use vstd::prelude::*;

verus! {

/// rusoto_core's `RusotoError`, the failure of a request. The crate carries
/// such a value from the table's reply to its own error and looks at nothing
/// in it.
#[verifier::external_type_specification]
#[verifier::external_body]
#[verifier::reject_recursive_types(E)]
pub struct ExRusotoError<E>(rusoto_core::RusotoError<E>);

/// rusoto_dynamodb's `CreateTableError`, the service errors of `CreateTable`;
/// carried only.
#[verifier::external_type_specification]
#[verifier::external_body]
pub struct ExCreateTableError(rusoto_dynamodb::CreateTableError);

/// rusoto_dynamodb's `UpdateItemError`, the service errors of `UpdateItem`;
/// carried only.
#[verifier::external_type_specification]
#[verifier::external_body]
pub struct ExUpdateItemError(rusoto_dynamodb::UpdateItemError);

/// rusoto_dynamodb's `DeleteItemError`, the service errors of `DeleteItem`;
/// carried only.
#[verifier::external_type_specification]
#[verifier::external_body]
pub struct ExDeleteItemError(rusoto_dynamodb::DeleteItemError);

/// Why a lease operation failed.
#[derive(Debug, PartialEq)]
pub enum DynamoDbMutexError {
    /// The table could not be created.
    CreateTable(rusoto_core::RusotoError<rusoto_dynamodb::CreateTableError>),
    /// The table refused or lost a conditional write for a reason other than its condition.
    UpdateItem(rusoto_core::RusotoError<rusoto_dynamodb::UpdateItemError>),
    /// The table refused or lost a delete.
    DeleteItem(rusoto_core::RusotoError<rusoto_dynamodb::DeleteItemError>),
    /// A stored status is none of the three names this crate writes.
    FailDbValue,
    /// A lease was given back that the table does not hold as running.
    ConditionFailed,
}

} // verus!
