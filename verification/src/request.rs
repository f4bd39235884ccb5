//! The requests that the crate asks the table to carry out, and the table's
//! replies, as plain values.

use vstd::prelude::*;
use vstd::string::*;
use crate::attribute::{AttributeMap, Attributes};
use crate::expression::{
    assignments_closed, render_update, update_text, Assignment, Condition,
};

verus! {

/// Which attributes a write hands back.
#[derive(Debug, Clone, Copy, PartialEq, Eq, Structural)]
pub enum ReturnValues {
    /// The item as it was before the write.
    AllOld,
    /// Nothing.
    Nothing,
}

impl ReturnValues {
    /// The choice as DynamoDB names it.
    pub open spec fn name(self) -> Seq<char> {
        match self {
            ReturnValues::AllOld => "ALL_OLD"@,
            ReturnValues::Nothing => "NONE"@,
        }
    }

    /// The choice as DynamoDB names it.
    pub fn as_str(self) -> (name: &'static str)
        ensures
            name@ == self.name(),
    {
        match self {
            ReturnValues::AllOld => "ALL_OLD",
            ReturnValues::Nothing => "NONE",
        }
    }
}

/// A conditional write to the item under `key`.
#[derive(Debug, PartialEq, Eq)]
pub struct UpdateItemRequest {
    pub table_name: String,
    pub key: AttributeMap,
    pub condition: Condition,
    pub update: Vec<Assignment>,
    pub values: AttributeMap,
    pub return_values: ReturnValues,
}

/// What an `UpdateItemRequest` holds.
pub struct UpdateItemWrite {
    pub table_name: Seq<char>,
    pub key: Attributes,
    pub condition: Condition,
    pub update: Seq<Assignment>,
    pub values: Attributes,
    pub return_values: ReturnValues,
}

impl View for UpdateItemRequest {
    type V = UpdateItemWrite;

    open spec fn view(&self) -> UpdateItemWrite {
        UpdateItemWrite {
            table_name: self.table_name@,
            key: self.key@,
            condition: self.condition,
            update: self.update@,
            values: self.values@,
            return_values: self.return_values,
        }
    }
}

impl UpdateItemWrite {
    /// Every placeholder that the expressions name has a value.
    pub open spec fn closed(self) -> bool {
        self.condition.closed(self.values) && assignments_closed(self.update, self.values)
    }
}

impl UpdateItemRequest {
    /// The request is well formed: its maps repeat no name, and every
    /// placeholder that its expressions name has a value.
    pub open spec fn wf(&self) -> bool {
        self.key.wf() && self.values.wf() && self@.closed()
    }

    /// The condition expression, as DynamoDB parses it.
    pub fn condition_expression(&self) -> (text: String)
        ensures
            text@ == self.condition.text(),
    {
        self.condition.render()
    }

    /// The update expression, as DynamoDB parses it.
    pub fn update_expression(&self) -> (text: String)
        ensures
            text@ == update_text(self.update@),
    {
        render_update(&self.update)
    }
}

/// The table's reply to a conditional write.
#[derive(Debug, PartialEq)]
pub enum UpdateItemReply {
    /// The write was made; with it come the attributes that were asked for, if
    /// there were any.
    Updated(Option<AttributeMap>),
    /// The condition did not hold of the item, and nothing was written.
    ConditionalCheckFailed,
    /// The write failed for another reason.
    Failed(rusoto_core::RusotoError<rusoto_dynamodb::UpdateItemError>),
}

/// What an `UpdateItemReply` holds.
pub enum UpdateItemAnswer {
    Updated(Option<Attributes>),
    ConditionalCheckFailed,
    Failed(rusoto_core::RusotoError<rusoto_dynamodb::UpdateItemError>),
}

/// What an optional item holds.
pub open spec fn attributes_of(item: Option<AttributeMap>) -> Option<Attributes> {
    match item {
        Some(attributes) => Some(attributes@),
        None => None,
    }
}

impl View for UpdateItemReply {
    type V = UpdateItemAnswer;

    open spec fn view(&self) -> UpdateItemAnswer {
        match self {
            UpdateItemReply::Updated(attributes) => UpdateItemAnswer::Updated(
                attributes_of(*attributes),
            ),
            UpdateItemReply::ConditionalCheckFailed => UpdateItemAnswer::ConditionalCheckFailed,
            UpdateItemReply::Failed(error) => UpdateItemAnswer::Failed(*error),
        }
    }
}

/// The request that creates a table with one hash key and provisioned
/// throughput.
#[derive(Debug, PartialEq, Eq)]
pub struct CreateTableRequest {
    pub table_name: String,
    /// The name of the key attribute.
    pub key_name: String,
    /// The type of the key attribute, as DynamoDB names it.
    pub key_attribute_type: String,
    /// The role of the key attribute, as DynamoDB names it.
    pub key_type: String,
    pub billing_mode: String,
    pub read_capacity_units: i64,
    pub write_capacity_units: i64,
}

/// What a `CreateTableRequest` holds.
pub struct CreateTable {
    pub table_name: Seq<char>,
    pub key_name: Seq<char>,
    pub key_attribute_type: Seq<char>,
    pub key_type: Seq<char>,
    pub billing_mode: Seq<char>,
    pub read_capacity_units: int,
    pub write_capacity_units: int,
}

impl View for CreateTableRequest {
    type V = CreateTable;

    open spec fn view(&self) -> CreateTable {
        CreateTable {
            table_name: self.table_name@,
            key_name: self.key_name@,
            key_attribute_type: self.key_attribute_type@,
            key_type: self.key_type@,
            billing_mode: self.billing_mode@,
            read_capacity_units: self.read_capacity_units as int,
            write_capacity_units: self.write_capacity_units as int,
        }
    }
}

} // verus!
