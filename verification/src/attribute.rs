//! Attribute values and the maps of them that a request and an item are made of.

use vstd::prelude::*;
use vstd::string::*;
use crate::decimal::{decimal, format_number};

verus! {

/// One attribute value, as far as this crate reads and writes it: a string
/// or the decimal text of a number.
#[derive(Debug, PartialEq, Eq)]
pub struct AttributeValue {
    /// The text of a number attribute.
    pub n: Option<String>,
    /// The text of a string attribute.
    pub s: Option<String>,
}

/// What an `AttributeValue` holds.
pub struct AttributeText {
    pub n: Option<Seq<char>>,
    pub s: Option<Seq<char>>,
}

/// What a map of attributes holds: each name with its value.
pub type Attributes = Map<Seq<char>, AttributeText>;

impl AttributeText {
    /// The string attribute that holds `text`.
    pub open spec fn string(text: Seq<char>) -> AttributeText {
        AttributeText { n: None, s: Some(text) }
    }

    /// The number attribute that holds `n`.
    pub open spec fn number(n: int) -> AttributeText {
        AttributeText { n: Some(decimal(n)), s: None }
    }
}

/// What an optional string holds.
pub open spec fn text_of(text: Option<String>) -> Option<Seq<char>> {
    match text {
        Some(t) => Some(t@),
        None => None,
    }
}

impl View for AttributeValue {
    type V = AttributeText;

    open spec fn view(&self) -> AttributeText {
        AttributeText { n: text_of(self.n), s: text_of(self.s) }
    }
}

/// Copies an optional string.
fn copy_text(text: &Option<String>) -> (copy: Option<String>)
    ensures
        text_of(copy) == text_of(*text),
{
    match text {
        Some(t) => Some(t.clone()),
        None => None,
    }
}

impl Clone for AttributeValue {
    fn clone(&self) -> (copy: AttributeValue)
        ensures
            copy@ == self@,
    {
        AttributeValue { n: copy_text(&self.n), s: copy_text(&self.s) }
    }
}

/// One named attribute.
#[derive(Debug, PartialEq, Eq)]
pub struct Attribute {
    pub name: String,
    pub value: AttributeValue,
}

impl Clone for Attribute {
    fn clone(&self) -> (copy: Attribute)
        ensures
            copy.name@ == self.name@,
            copy.value@ == self.value@,
    {
        Attribute { name: self.name.clone(), value: self.value.clone() }
    }
}

/// The map that a list of attributes stands for: a later entry of a name
/// replaces an earlier one.
pub open spec fn map_of(entries: Seq<Attribute>) -> Attributes
    decreases entries.len(),
{
    if entries.len() == 0 {
        Map::empty()
    } else {
        map_of(entries.drop_last()).insert(entries.last().name@, entries.last().value@)
    }
}

/// No name occurs twice in the list.
pub open spec fn distinct_names(entries: Seq<Attribute>) -> bool {
    forall|i: int, j: int|
        0 <= i < j < entries.len() ==> (#[trigger] entries[i]).name@ != (#[trigger] entries[j]).name@
}

/// The map holds exactly the names of the list.
pub proof fn lemma_map_of_names(entries: Seq<Attribute>, name: Seq<char>)
    ensures
        map_of(entries).contains_key(name) <==> exists|i: int|
            0 <= i < entries.len() && (#[trigger] entries[i]).name@ == name,
    decreases entries.len(),
{
    if entries.len() > 0 {
        let shorter = entries.drop_last();
        lemma_map_of_names(shorter, name);
        if map_of(entries).contains_key(name) {
            if entries.last().name@ == name {
                assert(entries[entries.len() - 1].name@ == name);
            } else {
                let i = choose|i: int| 0 <= i < shorter.len() && (#[trigger] shorter[i]).name@ == name;
                assert(entries[i].name@ == name);
            }
        }
        if exists|i: int| 0 <= i < entries.len() && (#[trigger] entries[i]).name@ == name {
            let i = choose|i: int| 0 <= i < entries.len() && (#[trigger] entries[i]).name@ == name;
            if i < shorter.len() {
                assert(shorter[i].name@ == name);
            }
        }
    }
}

/// The map gives under a name the value of the last entry of that name.
pub proof fn lemma_map_of_value(entries: Seq<Attribute>, i: int)
    requires
        0 <= i < entries.len(),
        forall|j: int| i < j < entries.len() ==> (#[trigger] entries[j]).name@ != entries[i].name@,
    ensures
        map_of(entries).contains_key(entries[i].name@),
        map_of(entries)[entries[i].name@] == entries[i].value@,
    decreases entries.len(),
{
    let shorter = entries.drop_last();
    if i < entries.len() - 1 {
        assert forall|j: int| i < j < shorter.len() implies (#[trigger] shorter[j]).name@
            != shorter[i].name@ by {
            assert(entries[j].name@ != entries[i].name@);
        }
        lemma_map_of_value(shorter, i);
        assert(shorter[i] == entries[i]);
        assert(entries[entries.len() - 1].name@ != entries[i].name@);
    }
}

/// Putting a new value in the place of the last entry of a name is an insert
/// under that name, and repeats no name that was not repeated before.
pub proof fn lemma_map_of_replace(entries: Seq<Attribute>, i: int, entry: Attribute)
    requires
        0 <= i < entries.len(),
        entry.name@ == entries[i].name@,
        forall|j: int| i < j < entries.len() ==> (#[trigger] entries[j]).name@ != entries[i].name@,
    ensures
        map_of(entries.update(i, entry)) == map_of(entries).insert(entry.name@, entry.value@),
        distinct_names(entries) ==> distinct_names(entries.update(i, entry)),
    decreases entries.len(),
{
    let changed = entries.update(i, entry);
    if distinct_names(entries) {
        assert forall|a: int, b: int| 0 <= a < b < changed.len() implies (#[trigger] changed[a]).name@
            != (#[trigger] changed[b]).name@ by {
            assert(entries[a].name@ != entries[b].name@);
        }
    }
    let shorter = entries.drop_last();
    if i == entries.len() - 1 {
        assert(changed.drop_last() =~= shorter);
        assert(map_of(changed) =~= map_of(entries).insert(entry.name@, entry.value@));
    } else {
        assert forall|j: int| i < j < shorter.len() implies (#[trigger] shorter[j]).name@
            != shorter[i].name@ by {
            assert(entries[j].name@ != entries[i].name@);
        }
        lemma_map_of_replace(shorter, i, entry);
        assert(changed.drop_last() =~= shorter.update(i, entry));
        assert(changed.last() == entries.last());
        assert(entries[entries.len() - 1].name@ != entries[i].name@);
        assert(map_of(changed) =~= map_of(entries).insert(entry.name@, entry.value@));
    }
}

/// A map from attribute names to values, kept as a list. A later entry of a
/// name stands for it; the lists that this crate builds repeat no name.
#[derive(Debug, PartialEq, Eq)]
pub struct AttributeMap {
    pub entries: Vec<Attribute>,
}

impl View for AttributeMap {
    type V = Attributes;

    open spec fn view(&self) -> Attributes {
        map_of(self.entries@)
    }
}

impl AttributeMap {
    /// No name occurs twice in the list.
    pub open spec fn wf(&self) -> bool {
        distinct_names(self.entries@)
    }

    /// The empty map.
    pub fn new() -> (map: AttributeMap)
        ensures
            map.wf(),
            map@ == Map::<Seq<char>, AttributeText>::empty(),
    {
        AttributeMap { entries: Vec::new() }
    }

    /// Where the last entry of `name` stands in the list, if there is one.
    fn position(&self, name: &str) -> (at: Option<usize>)
        ensures
            match at {
                Some(i) => i < self.entries@.len() && self.entries@[i as int].name@ == name@
                    && forall|j: int|
                    i < j < self.entries@.len() ==> (#[trigger] self.entries@[j]).name@ != name@,
                None => forall|j: int|
                    0 <= j < self.entries@.len() ==> (#[trigger] self.entries@[j]).name@ != name@,
            },
    {
        let wanted = name.to_owned();
        let mut i: usize = self.entries.len();
        while i > 0
            invariant
                i <= self.entries@.len(),
                wanted@ == name@,
                forall|j: int|
                    i <= j < self.entries@.len() ==> (#[trigger] self.entries@[j]).name@ != name@,
            decreases i,
        {
            i = i - 1;
            if self.entries[i].name == wanted {
                return Some(i);
            }
        }
        None
    }

    /// The value stored under `name`.
    pub fn get(&self, name: &str) -> (value: Option<&AttributeValue>)
        ensures
            match value {
                Some(v) => self@.contains_key(name@) && v@ == self@[name@],
                None => !self@.contains_key(name@),
            },
    {
        proof {
            lemma_map_of_names(self.entries@, name@);
        }
        match self.position(name) {
            Some(i) => {
                proof {
                    lemma_map_of_value(self.entries@, i as int);
                }
                Some(&self.entries[i].value)
            },
            None => None,
        }
    }

    /// Stores `value` under `name`, in place of what stood there.
    pub fn insert(&mut self, name: String, value: AttributeValue)
        ensures
            final(self)@ == old(self)@.insert(name@, value@),
            old(self).wf() ==> final(self).wf(),
    {
        let found = self.position(name.as_str());
        let entry = Attribute { name, value };
        match found {
            Some(i) => {
                proof {
                    lemma_map_of_replace(self.entries@, i as int, entry);
                }
                self.entries.set(i, entry);
            },
            None => {
                let ghost before = self.entries@;
                self.entries.push(entry);
                proof {
                    assert(self.entries@.drop_last() =~= before);
                    if distinct_names(before) {
                        assert forall|a: int, b: int|
                            0 <= a < b < self.entries@.len() implies (
                        #[trigger] self.entries@[a]).name@ != (
                        #[trigger] self.entries@[b]).name@ by {
                            if b < before.len() {
                                assert(before[a].name@ != before[b].name@);
                            } else {
                                assert(before[a].name@ != entry.name@);
                            }
                        }
                    }
                }
            },
        }
    }

    /// How many entries the list holds.
    pub fn len(&self) -> (count: usize)
        ensures
            count == self.entries@.len(),
    {
        self.entries.len()
    }
}

impl Clone for AttributeMap {
    fn clone(&self) -> (copy: AttributeMap)
        ensures
            copy@ == self@,
            self.wf() ==> copy.wf(),
    {
        let mut entries: Vec<Attribute> = Vec::new();
        let mut i: usize = 0;
        while i < self.entries.len()
            invariant
                i <= self.entries@.len(),
                entries@.len() == i,
                forall|j: int|
                    0 <= j < i ==> (#[trigger] entries@[j]).name@ == self.entries@[j].name@
                        && entries@[j].value@ == self.entries@[j].value@,
            decreases self.entries@.len() - i,
        {
            entries.push(self.entries[i].clone());
            i = i + 1;
        }
        proof {
            lemma_map_of_alike(entries@, self.entries@);
        }
        AttributeMap { entries }
    }
}

/// Two lists with the same names and values in the same places stand for the
/// same map, and one repeats no name if the other repeats none.
pub proof fn lemma_map_of_alike(left: Seq<Attribute>, right: Seq<Attribute>)
    requires
        left.len() == right.len(),
        forall|j: int|
            0 <= j < left.len() ==> (#[trigger] left[j]).name@ == right[j].name@ && left[j].value@
                == right[j].value@,
    ensures
        map_of(left) == map_of(right),
        distinct_names(right) ==> distinct_names(left),
    decreases left.len(),
{
    if left.len() > 0 {
        lemma_map_of_alike(left.drop_last(), right.drop_last());
        assert(left.last() == left[left.len() - 1]);
    }
    if distinct_names(right) {
        assert forall|a: int, b: int| 0 <= a < b < left.len() implies (#[trigger] left[a]).name@ != (
        #[trigger] left[b]).name@ by {
            assert(right[a].name@ != right[b].name@);
        }
    }
}

/// Stores the string `value` under `key`.
pub fn insert_str_attribute(map: &mut AttributeMap, key: &str, value: &str)
    ensures
        final(map)@ == old(map)@.insert(key@, AttributeText::string(value@)),
        old(map).wf() ==> final(map).wf(),
{
    map.insert(key.to_owned(), AttributeValue { n: None, s: Some(value.to_owned()) });
}

/// Stores the number `value` under `key`, in decimal.
pub fn insert_num_attribute(map: &mut AttributeMap, key: &str, value: i128)
    ensures
        final(map)@ == old(map)@.insert(key@, AttributeText::number(value as int)),
        old(map).wf() ==> final(map).wf(),
{
    map.insert(key.to_owned(), AttributeValue { n: Some(format_number(value)), s: None });
}

} // verus!
