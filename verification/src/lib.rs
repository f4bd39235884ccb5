//! A mutual-exclusion lease kept in one DynamoDB table.
//!
//! The crate computes the conditional writes that take and give back a lease,
//! reads the table's answers, and proves what those writes do to a lease under
//! the table's own rules for conditional updates.

pub mod attribute;
pub mod clock;
pub mod decimal;
pub mod error;
pub mod expression;
pub mod lease;
pub mod mutex;
pub mod request;
pub mod status;
pub mod store;

pub use crate::error::DynamoDbMutexError;
pub use crate::mutex::{table_made, unlocked, update, DynamoDbMutex, DynamoDbMutexResult};
pub use crate::status::DynamoDbMutexStatus;
pub use rusoto_dynamodb;
