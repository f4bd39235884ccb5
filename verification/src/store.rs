//! The table's own rule for a conditional write, on one item.
//!
//! DynamoDB checks the condition against the item under the request's key,
//! an item that is not there counting as one without attributes, and writes
//! only where it holds. This module states that rule and computes it, so that
//! the crate can say what its requests do to a lease.

use vstd::prelude::*;
use crate::attribute::{AttributeMap, AttributeText, Attributes};
use crate::expression::{assign, assigned};
use crate::request::{
    attributes_of, ReturnValues, UpdateItemAnswer, UpdateItemReply, UpdateItemRequest,
    UpdateItemWrite,
};

verus! {

/// The attributes that the condition is checked against.
pub open spec fn checked_item(item: Option<Attributes>) -> Attributes {
    match item {
        Some(attributes) => attributes,
        None => Map::<Seq<char>, AttributeText>::empty(),
    }
}

/// Whether the table makes the write on `item`.
pub open spec fn accepts(item: Option<Attributes>, write: UpdateItemWrite) -> bool {
    write.condition.holds(checked_item(item), write.values)
}

/// The item under the request's key after the request.
pub open spec fn item_after(item: Option<Attributes>, write: UpdateItemWrite) -> Option<
    Attributes,
> {
    if accepts(item, write) {
        let start = match item {
            Some(attributes) => attributes,
            None => write.key,
        };
        Some(assigned(start, write.update, write.values))
    } else {
        item
    }
}

/// The table's reply to the request.
pub open spec fn answer(item: Option<Attributes>, write: UpdateItemWrite) -> UpdateItemAnswer {
    if accepts(item, write) {
        UpdateItemAnswer::Updated(
            match write.return_values {
                ReturnValues::AllOld => item,
                ReturnValues::Nothing => None,
            },
        )
    } else {
        UpdateItemAnswer::ConditionalCheckFailed
    }
}

/// Carries the request out on `item`, the item stored under the request's
/// key or `None` where there is none, and gives the item as it then stands
/// and the table's reply.
pub fn update_item(item: Option<AttributeMap>, request: &UpdateItemRequest) -> (done: (
    Option<AttributeMap>,
    UpdateItemReply,
))
    requires
        request@.closed(),
    ensures
        attributes_of(done.0) == item_after(attributes_of(item), request@),
        done.1@ == answer(attributes_of(item), request@),
        request.key.wf() && (item matches Some(attributes) ==> attributes.wf()) ==> (
        done.0 matches Some(attributes) ==> attributes.wf()),
{
    match item {
        None => {
            let nothing = AttributeMap::new();
            if request.condition.evaluate(&nothing, &request.values) {
                let mut next = request.key.clone();
                assign(&mut next, &request.update, &request.values);
                (Some(next), UpdateItemReply::Updated(None))
            } else {
                (None, UpdateItemReply::ConditionalCheckFailed)
            }
        },
        Some(current) => {
            if request.condition.evaluate(&current, &request.values) {
                let before = match request.return_values {
                    ReturnValues::AllOld => Some(current.clone()),
                    ReturnValues::Nothing => None,
                };
                let mut next = current;
                assign(&mut next, &request.update, &request.values);
                (Some(next), UpdateItemReply::Updated(before))
            } else {
                (Some(current), UpdateItemReply::ConditionalCheckFailed)
            }
        },
    }
}

} // verus!
