//! The condition and update expressions of a write: their structure, the text
//! that DynamoDB parses, and what they mean on an item.
//!
//! A condition is kept as a tree, so that its grouping is explicit, and is
//! written out with parentheses wherever an `AND` meets an `OR`.

use vstd::prelude::*;
use vstd::string::*;
use crate::attribute::{AttributeMap, AttributeText, AttributeValue, Attributes};
use crate::decimal::{number_value, parse_number};

verus! {

/// The attributes of a lease's item.
#[derive(Debug, Clone, Copy, PartialEq, Eq, Structural)]
pub enum Column {
    /// The key of the table: the name of the mutex.
    MutexCode,
    /// The status of the lease.
    MutexStatus,
    /// When the lease last changed, in milliseconds since the epoch.
    UpdatedAt,
}

impl Column {
    /// The attribute's name in the table.
    pub open spec fn name(self) -> Seq<char> {
        match self {
            Column::MutexCode => "mutex_code"@,
            Column::MutexStatus => "mutex_status"@,
            Column::UpdatedAt => "updated_at"@,
        }
    }

    /// The attribute's name in the table.
    pub fn as_str(self) -> (name: &'static str)
        ensures
            name@ == self.name(),
    {
        match self {
            Column::MutexCode => "mutex_code",
            Column::MutexStatus => "mutex_status",
            Column::UpdatedAt => "updated_at",
        }
    }
}

/// The names under which a request carries its values.
#[derive(Debug, Clone, Copy, PartialEq, Eq, Structural)]
pub enum Placeholder {
    ConditionDoneStatus,
    ConditionDoneMillis,
    ConditionFailedStatus,
    ConditionFailedMillis,
    ConditionRunningStatus,
    ConditionRunningMillis,
    ConditionStatus,
    UpdateStatus,
    Now,
}

impl Placeholder {
    /// The placeholder as an expression writes it.
    pub open spec fn name(self) -> Seq<char> {
        match self {
            Placeholder::ConditionDoneStatus => ":condion_done_status"@,
            Placeholder::ConditionDoneMillis => ":condion_done_millis"@,
            Placeholder::ConditionFailedStatus => ":condion_failed_status"@,
            Placeholder::ConditionFailedMillis => ":condion_failed_millis"@,
            Placeholder::ConditionRunningStatus => ":condion_running_status"@,
            Placeholder::ConditionRunningMillis => ":condion_running_millis"@,
            Placeholder::ConditionStatus => ":condion_status"@,
            Placeholder::UpdateStatus => ":update_status"@,
            Placeholder::Now => ":now"@,
        }
    }

    /// The placeholder as an expression writes it.
    pub fn as_str(self) -> (name: &'static str)
        ensures
            name@ == self.name(),
    {
        match self {
            Placeholder::ConditionDoneStatus => ":condion_done_status",
            Placeholder::ConditionDoneMillis => ":condion_done_millis",
            Placeholder::ConditionFailedStatus => ":condion_failed_status",
            Placeholder::ConditionFailedMillis => ":condion_failed_millis",
            Placeholder::ConditionRunningStatus => ":condion_running_status",
            Placeholder::ConditionRunningMillis => ":condion_running_millis",
            Placeholder::ConditionStatus => ":condion_status",
            Placeholder::UpdateStatus => ":update_status",
            Placeholder::Now => ":now",
        }
    }
}

/// No two attributes share a name.
pub proof fn lemma_column_names_differ(a: Column, b: Column)
    ensures
        a.name() == b.name() ==> a == b,
{
    reveal_strlit("mutex_code");
    reveal_strlit("mutex_status");
    reveal_strlit("updated_at");
    assert("mutex_code"@.len() == 10);
    assert("mutex_status"@.len() == 12);
    assert("updated_at"@.len() == 10);
    assert("mutex_code"@[0] == 'm');
    assert("updated_at"@[0] == 'u');
}

/// No two placeholders share a name.
pub proof fn lemma_placeholder_names_differ(a: Placeholder, b: Placeholder)
    ensures
        a.name() == b.name() ==> a == b,
{
    reveal_strlit(":condion_done_status");
    reveal_strlit(":condion_done_millis");
    reveal_strlit(":condion_failed_status");
    reveal_strlit(":condion_failed_millis");
    reveal_strlit(":condion_running_status");
    reveal_strlit(":condion_running_millis");
    reveal_strlit(":condion_status");
    reveal_strlit(":update_status");
    reveal_strlit(":now");
    assert(":condion_done_status"@.len() == 20);
    assert(":condion_done_millis"@.len() == 20);
    assert(":condion_failed_status"@.len() == 22);
    assert(":condion_failed_millis"@.len() == 22);
    assert(":condion_running_status"@.len() == 23);
    assert(":condion_running_millis"@.len() == 23);
    assert(":condion_status"@.len() == 15);
    assert(":update_status"@.len() == 14);
    assert(":now"@.len() == 4);
    assert(":condion_done_status"@[14] == 's');
    assert(":condion_done_millis"@[14] == 'm');
    assert(":condion_failed_status"@[16] == 's');
    assert(":condion_failed_millis"@[16] == 'm');
    assert(":condion_running_status"@[17] == 's');
    assert(":condion_running_millis"@[17] == 'm');
}

/// A condition on the stored item.
#[derive(Debug, PartialEq, Eq)]
pub enum Condition {
    /// The item has no such attribute.
    AttributeNotExists(Column),
    /// The attribute equals the value of the placeholder.
    Equals(Column, Placeholder),
    /// The attribute is a number no greater than the value of the placeholder.
    AtMost(Column, Placeholder),
    /// Both conditions hold.
    And(Box<Condition>, Box<Condition>),
    /// One of the conditions holds.
    Or(Box<Condition>, Box<Condition>),
}

/// Two attribute values are equal to DynamoDB: strings of the same text, or
/// numbers of the same value.
pub open spec fn equal_values(stored: AttributeText, given: AttributeText) -> bool {
    ||| stored.n is None && given.n is None && stored.s is Some && stored.s == given.s
    ||| stored.s is None && given.s is None && stored.n is Some && given.n is Some
        && number_value(stored.n->0) is Some && number_value(stored.n->0) == number_value(
        given.n->0,
    )
}

/// Both values are numbers, and the stored one is no greater than the given one.
pub open spec fn at_most(stored: AttributeText, given: AttributeText) -> bool {
    &&& stored.s is None && given.s is None && stored.n is Some && given.n is Some
    &&& number_value(stored.n->0) is Some
    &&& number_value(given.n->0) is Some
    &&& number_value(stored.n->0)->0 <= number_value(given.n->0)->0
}

/// `equal_values`, computed.
fn values_equal(stored: &AttributeValue, given: &AttributeValue) -> (equal: bool)
    ensures
        equal == equal_values(stored@, given@),
{
    match (&stored.n, &given.n, &stored.s, &given.s) {
        (None, None, Some(a), Some(b)) => *a == *b,
        (Some(a), Some(b), None, None) => {
            match (parse_number(a.as_str()), parse_number(b.as_str())) {
                (Some(x), Some(y)) => x == y,
                _ => false,
            }
        },
        _ => false,
    }
}

/// `at_most`, computed.
fn value_at_most(stored: &AttributeValue, given: &AttributeValue) -> (holds: bool)
    ensures
        holds == at_most(stored@, given@),
{
    match (&stored.n, &given.n, &stored.s, &given.s) {
        (Some(a), Some(b), None, None) => {
            match (parse_number(a.as_str()), parse_number(b.as_str())) {
                (Some(x), Some(y)) => x <= y,
                _ => false,
            }
        },
        _ => false,
    }
}

impl Clone for Condition {
    fn clone(&self) -> (copy: Condition)
        ensures
            copy == *self,
        decreases self,
    {
        match self {
            Condition::AttributeNotExists(column) => Condition::AttributeNotExists(*column),
            Condition::Equals(column, placeholder) => Condition::Equals(*column, *placeholder),
            Condition::AtMost(column, placeholder) => Condition::AtMost(*column, *placeholder),
            Condition::And(left, right) => Condition::And(
                Box::new((&**left).clone()),
                Box::new((&**right).clone()),
            ),
            Condition::Or(left, right) => Condition::Or(
                Box::new((&**left).clone()),
                Box::new((&**right).clone()),
            ),
        }
    }
}

impl Condition {
    /// Whether the condition holds of `item`, with the request's `values`.
    ///
    /// A comparison is false where the attribute or the placeholder is missing
    /// or the two are of different types.
    pub open spec fn holds(self, item: Attributes, values: Attributes) -> bool
        decreases self,
    {
        match self {
            Condition::AttributeNotExists(column) => !item.contains_key(column.name()),
            Condition::Equals(column, placeholder) => item.contains_key(column.name())
                && values.contains_key(placeholder.name()) && equal_values(
                item[column.name()],
                values[placeholder.name()],
            ),
            Condition::AtMost(column, placeholder) => item.contains_key(column.name())
                && values.contains_key(placeholder.name()) && at_most(
                item[column.name()],
                values[placeholder.name()],
            ),
            Condition::And(left, right) => left.holds(item, values) && right.holds(item, values),
            Condition::Or(left, right) => left.holds(item, values) || right.holds(item, values),
        }
    }

    /// Whether `values` has every placeholder that the condition names.
    pub open spec fn closed(self, values: Attributes) -> bool
        decreases self,
    {
        match self {
            Condition::AttributeNotExists(_) => true,
            Condition::Equals(_, placeholder) => values.contains_key(placeholder.name()),
            Condition::AtMost(_, placeholder) => values.contains_key(placeholder.name()),
            Condition::And(left, right) => left.closed(values) && right.closed(values),
            Condition::Or(left, right) => left.closed(values) && right.closed(values),
        }
    }

    /// The condition as DynamoDB parses it.
    pub open spec fn text(self) -> Seq<char>
        decreases self, 0int,
    {
        match self {
            Condition::AttributeNotExists(column) => "attribute_not_exists("@ + column.name()
                + ")"@,
            Condition::Equals(column, placeholder) => column.name() + " = "@ + placeholder.name(),
            Condition::AtMost(column, placeholder) => column.name() + " <= "@
                + placeholder.name(),
            Condition::And(left, right) => left.operand(true) + " AND "@ + right.operand(true),
            Condition::Or(left, right) => left.operand(false) + " OR "@ + right.operand(false),
        }
    }

    /// The condition as an operand of `AND` (`within_and`) or of `OR`: in
    /// parentheses where it joins its parts with the other of the two.
    pub open spec fn operand(self, within_and: bool) -> Seq<char>
        decreases self, 1int,
    {
        if self.grouped(within_and) {
            "("@ + self.text() + ")"@
        } else {
            self.text()
        }
    }

    /// Whether the condition needs parentheses as an operand.
    pub open spec fn grouped(self, within_and: bool) -> bool {
        match self {
            Condition::And(_, _) => !within_and,
            Condition::Or(_, _) => within_and,
            _ => false,
        }
    }

    /// Decides the condition on `item`.
    pub fn evaluate(&self, item: &AttributeMap, values: &AttributeMap) -> (holds: bool)
        ensures
            holds == self.holds(item@, values@),
        decreases self,
    {
        match self {
            Condition::AttributeNotExists(column) => item.get(column.as_str()).is_none(),
            Condition::Equals(column, placeholder) => {
                match (item.get(column.as_str()), values.get(placeholder.as_str())) {
                    (Some(stored), Some(given)) => values_equal(stored, given),
                    _ => false,
                }
            },
            Condition::AtMost(column, placeholder) => {
                match (item.get(column.as_str()), values.get(placeholder.as_str())) {
                    (Some(stored), Some(given)) => value_at_most(stored, given),
                    _ => false,
                }
            },
            Condition::And(left, right) => left.evaluate(item, values) && right.evaluate(
                item,
                values,
            ),
            Condition::Or(left, right) => left.evaluate(item, values) || right.evaluate(
                item,
                values,
            ),
        }
    }

    /// Writes the condition out.
    pub fn render(&self) -> (text: String)
        ensures
            text@ == self.text(),
        decreases self, 0int,
    {
        match self {
            Condition::AttributeNotExists(column) => {
                let mut text = "attribute_not_exists(".to_owned();
                text.append(column.as_str());
                text.append(")");
                text
            },
            Condition::Equals(column, placeholder) => {
                let mut text = column.as_str().to_owned();
                text.append(" = ");
                text.append(placeholder.as_str());
                text
            },
            Condition::AtMost(column, placeholder) => {
                let mut text = column.as_str().to_owned();
                text.append(" <= ");
                text.append(placeholder.as_str());
                text
            },
            Condition::And(left, right) => {
                let mut text = left.render_operand(true);
                text.append(" AND ");
                let tail = right.render_operand(true);
                text.append(tail.as_str());
                text
            },
            Condition::Or(left, right) => {
                let mut text = left.render_operand(false);
                text.append(" OR ");
                let tail = right.render_operand(false);
                text.append(tail.as_str());
                text
            },
        }
    }

    /// Writes the condition out as an operand.
    fn render_operand(&self, within_and: bool) -> (text: String)
        ensures
            text@ == self.operand(within_and),
        decreases self, 1int,
    {
        let grouped = match self {
            Condition::And(_, _) => !within_and,
            Condition::Or(_, _) => within_and,
            _ => false,
        };
        if grouped {
            let mut text = "(".to_owned();
            let inner = self.render();
            text.append(inner.as_str());
            text.append(")");
            text
        } else {
            self.render()
        }
    }
}

/// One `SET` of an update: the attribute takes the value of the placeholder.
#[derive(Debug, Clone, Copy, PartialEq, Eq, Structural)]
pub struct Assignment {
    pub column: Column,
    pub placeholder: Placeholder,
}

impl Assignment {
    /// The assignment as DynamoDB parses it.
    pub open spec fn text(self) -> Seq<char> {
        self.column.name() + " = "@ + self.placeholder.name()
    }
}

/// The assignments, separated by commas.
pub open spec fn assignments_text(assignments: Seq<Assignment>) -> Seq<char>
    decreases assignments.len(),
{
    if assignments.len() == 0 {
        Seq::empty()
    } else if assignments.len() == 1 {
        assignments[0].text()
    } else {
        assignments_text(assignments.drop_last()) + ", "@ + assignments.last().text()
    }
}

/// The update expression that makes the assignments: `SET` and the list, or
/// nothing where there is nothing to assign.
pub open spec fn update_text(assignments: Seq<Assignment>) -> Seq<char> {
    if assignments.len() == 0 {
        Seq::empty()
    } else {
        "SET "@ + assignments_text(assignments)
    }
}

/// The item after the assignments were made, in their order.
pub open spec fn assigned(item: Attributes, assignments: Seq<Assignment>, values: Attributes)
    -> Attributes
    decreases assignments.len(),
{
    if assignments.len() == 0 {
        item
    } else {
        assigned(item, assignments.drop_last(), values).insert(
            assignments.last().column.name(),
            values[assignments.last().placeholder.name()],
        )
    }
}

/// Whether `values` has every placeholder that the assignments name.
pub open spec fn assignments_closed(assignments: Seq<Assignment>, values: Attributes) -> bool {
    forall|i: int|
        0 <= i < assignments.len() ==> values.contains_key(
            (#[trigger] assignments[i]).placeholder.name(),
        )
}

/// Writes the update expression out.
pub fn render_update(assignments: &Vec<Assignment>) -> (text: String)
    ensures
        text@ == update_text(assignments@),
{
    let mut text = String::new();
    if assignments.len() == 0 {
        return text;
    }
    text.append("SET ");
    let ghost mut list: Seq<char> = Seq::empty();
    let mut i: usize = 0;
    while i < assignments.len()
        invariant
            i <= assignments@.len(),
            text@ == "SET "@ + list,
            list == assignments_text(assignments@.subrange(0, i as int)),
        decreases assignments@.len() - i,
    {
        let ghost before = assignments@.subrange(0, i as int);
        let ghost after = assignments@.subrange(0, i + 1);
        assert(after.drop_last() =~= before);
        assert(after.last() == assignments@[i as int]);
        if i > 0 {
            text.append(", ");
            proof {
                list = list + ", "@;
            }
        }
        text.append(assignments[i].column.as_str());
        text.append(" = ");
        text.append(assignments[i].placeholder.as_str());
        proof {
            list = list + assignments@[i as int].text();
            assert(list =~= assignments_text(after));
            assert(text@ =~= "SET "@ + list);
        }
        i = i + 1;
    }
    assert(assignments@.subrange(0, i as int) =~= assignments@);
    text
}

/// Makes the assignments on `item`.
pub fn assign(item: &mut AttributeMap, assignments: &Vec<Assignment>, values: &AttributeMap)
    requires
        assignments_closed(assignments@, values@),
    ensures
        final(item)@ == assigned(old(item)@, assignments@, values@),
        old(item).wf() ==> final(item).wf(),
{
    let mut i: usize = 0;
    while i < assignments.len()
        invariant
            i <= assignments@.len(),
            old(item).wf() ==> item.wf(),
            assignments_closed(assignments@, values@),
            item@ == assigned(old(item)@, assignments@.subrange(0, i as int), values@),
        decreases assignments@.len() - i,
    {
        let ghost after = assignments@.subrange(0, i + 1);
        assert(after.drop_last() =~= assignments@.subrange(0, i as int));
        assert(after.last() == assignments@[i as int]);
        let assignment = assignments[i];
        match values.get(assignment.placeholder.as_str()) {
            Some(value) => {
                item.insert(assignment.column.as_str().to_owned(), value.clone());
            },
            None => {},
        }
        i = i + 1;
    }
    assert(assignments@.subrange(0, i as int) =~= assignments@);
}

} // verus!
