//! The header fields of a request: a mapping from names to values that
//! keeps the order in which the names came.

use crate::bytes::{least_from, lemma_least_from, lemma_least_from_is, lemma_least_from_none};
use std::collections::HashMap;
use vstd::prelude::*;

verus! {

/// One header field as plain values: its name and its value.
pub type Field = (Seq<char>, Seq<char>);

/// The fields that `entries` hold.
pub open spec fn fields_of(entries: Seq<(String, String)>) -> Seq<Field> {
    Seq::new(entries.len(), |i: int| (entries[i].0@, entries[i].1@))
}

/// Whether no name occurs twice among `fields`.
pub open spec fn distinct_names(fields: Seq<Field>) -> bool {
    forall|i: int, j: int| 0 <= i < j < fields.len() ==> fields[i].0 != fields[j].0
}

/// The index of the field called `name`.
pub open spec fn index_of(fields: Seq<Field>, name: Seq<char>) -> Option<int> {
    least_from(|i: int| fields[i].0 == name, 0, fields.len() as int)
}

/// `fields` with `name` given `value`: in the place of the field called
/// `name` where there is one, and after the others where there is none.
pub open spec fn with_field(fields: Seq<Field>, name: Seq<char>, value: Seq<char>) -> Seq<Field> {
    match index_of(fields, name) {
        Some(i) => fields.update(i, (name, value)),
        None => fields.push((name, value)),
    }
}

/// The fields that come of giving each name of `fields` its value, one
/// after another.
pub open spec fn collected(fields: Seq<Field>) -> Seq<Field>
    decreases fields.len(),
{
    if fields.len() == 0 {
        Seq::empty()
    } else {
        with_field(collected(fields.drop_last()), fields.last().0, fields.last().1)
    }
}

/// The mapping that `fields` make, a later field replacing an earlier one
/// of the same name.
pub open spec fn map_of(fields: Seq<Field>) -> Map<Seq<char>, Seq<char>>
    decreases fields.len(),
{
    if fields.len() == 0 {
        Map::empty()
    } else {
        map_of(fields.drop_last()).insert(fields.last().0, fields.last().1)
    }
}

/// Among distinct names, giving the field at `at` a new value gives its
/// name that value in the mapping and changes nothing else.
pub proof fn lemma_map_update(fields: Seq<Field>, at: int, value: Seq<char>)
    requires
        0 <= at < fields.len(),
        distinct_names(fields),
    ensures
        map_of(fields.update(at, (fields[at].0, value))) == map_of(fields).insert(
            fields[at].0,
            value,
        ),
    decreases fields.len(),
{
    let name = fields[at].0;
    let changed = fields.update(at, (name, value));
    let front = fields.drop_last();
    if at == fields.len() - 1 {
        assert(changed.drop_last() =~= front);
        assert(map_of(changed) =~= map_of(fields).insert(name, value));
    } else {
        assert(distinct_names(front)) by {
            assert forall|i: int, j: int| 0 <= i < j < front.len() implies front[i].0
                != front[j].0 by {
                assert(fields[i].0 != fields[j].0);
            }
        }
        lemma_map_update(front, at, value);
        assert(changed.drop_last() =~= front.update(at, (name, value)));
        assert(fields.last().0 != name);
        assert(map_of(changed) =~= map_of(fields).insert(name, value));
    }
}

/// What `serde_json::from_str` makes of a text read as a JSON object whose
/// values are strings: the mapping from its keys to its values, or nothing
/// where the text is no such object.
pub uninterp spec fn json_fields(text: Seq<char>) -> Option<Map<Seq<char>, Seq<char>>>;

/// Calls `serde_json::from_str` for a map from strings to strings and hands
/// out the entries of the map it returns, in the order in which the map is
/// walked. The entries have distinct names and make the mapping that the
/// text denotes; their order is not stated. Nothing comes back where the
/// call returns an error.
#[verifier::external_body]
fn decode_fields(text: &str) -> (r: Option<Vec<(String, String)>>)
    ensures
        match r {
            Some(entries) => json_fields(text@) == Some(map_of(fields_of(entries@)))
                && distinct_names(fields_of(entries@)),
            None => json_fields(text@) is None,
        },
{
    match serde_json::from_str::<HashMap<String, String>>(text) {
        Ok(map) => Some(map.into_iter().collect()),
        Err(_) => None,
    }
}

/// The header fields of a request. No name occurs twice.
#[derive(Debug)]
pub struct Headers {
    entries: Vec<(String, String)>,
}

impl View for Headers {
    type V = Seq<Field>;

    closed spec fn view(&self) -> Seq<Field> {
        fields_of(self.entries@)
    }
}

impl Headers {
    #[verifier::type_invariant]
    spec fn names_are_distinct(self) -> bool {
        distinct_names(fields_of(self.entries@))
    }

    /// The mapping from names to values.
    pub open spec fn as_map(&self) -> Map<Seq<char>, Seq<char>> {
        map_of(self@)
    }

    /// No fields.
    pub fn new() -> (r: Headers)
        ensures
            r@ == Seq::<Field>::empty(),
    {
        let r = Headers { entries: Vec::new() };
        assert(r@ =~= Seq::<Field>::empty());
        r
    }

    /// The number of fields.
    pub fn len(&self) -> (r: usize)
        ensures
            r == self@.len(),
    {
        self.entries.len()
    }

    /// The name of the field at index `at`.
    pub fn name_at(&self, at: usize) -> (r: &String)
        requires
            at < self@.len(),
        ensures
            r@ == self@[at as int].0,
    {
        &self.entries[at].0
    }

    /// The value of the field at index `at`.
    pub fn value_at(&self, at: usize) -> (r: &String)
        requires
            at < self@.len(),
        ensures
            r@ == self@[at as int].1,
    {
        &self.entries[at].1
    }

    /// Finds the field called `name`. There is at most one.
    pub fn find(&self, name: &String) -> (r: Option<usize>)
        ensures
            match r {
                Some(i) => index_of(self@, name@) == Some(i as int) && i < self@.len(),
                None => index_of(self@, name@) is None,
            },
            distinct_names(self@),
    {
        proof {
            use_type_invariant(self);
        }
        let ghost p = |i: int| self@[i].0 == name@;
        let mut i: usize = 0;
        while i < self.entries.len()
            invariant
                i <= self.entries.len(),
                distinct_names(self@),
                p == (|i: int| self@[i].0 == name@),
                forall|j: int| 0 <= j < i ==> !#[trigger] p(j),
            decreases self.entries.len() - i,
        {
            if self.entries[i].0 == *name {
                proof {
                    lemma_least_from_is(p, 0, self@.len() as int, i as int);
                }
                return Some(i);
            }
            i += 1;
        }
        proof {
            lemma_least_from_none(p, 0, self@.len() as int);
        }
        None
    }

    /// Gives `name` the value `value` and returns the value it had. A new
    /// name comes after the others; a known one keeps its place. In the
    /// mapping nothing changes but the value of `name`.
    pub fn insert(&mut self, name: String, value: String) -> (previous: Option<String>)
        ensures
            final(self)@ == with_field(old(self)@, name@, value@),
            match index_of(old(self)@, name@) {
                Some(i) => previous matches Some(v) && v@ == old(self)@[i].1,
                None => previous is None,
            },
            final(self).as_map() == old(self).as_map().insert(name@, value@),
    {
        proof {
            use_type_invariant(&*self);
            lemma_least_from(|i: int| self@[i].0 == name@, 0, self@.len() as int);
        }
        let ghost before = self@;
        let found = self.find(&name);
        let mut taken = Headers { entries: Vec::new() };
        std::mem::swap(self, &mut taken);
        let mut entries = taken.entries;
        assert(fields_of(entries@) == before);
        let previous = match found {
            Some(i) => {
                let mut entry = (name, value);
                let ghost new_field = (entry.0@, entry.1@);
                proof {
                    lemma_map_update(before, i as int, entry.1@);
                }
                std::mem::swap(&mut entries[i], &mut entry);
                assert(fields_of(entries@) =~= before.update(i as int, new_field));
                assert(distinct_names(fields_of(entries@))) by {
                    assert forall|a: int, b: int| 0 <= a < b < before.len() implies fields_of(
                        entries@,
                    )[a].0 != fields_of(entries@)[b].0 by {
                        assert(before[a].0 != before[b].0);
                    }
                }
                Some(entry.1)
            },
            None => {
                let ghost new_field = (name@, value@);
                entries.push((name, value));
                assert(fields_of(entries@) =~= before.push(new_field));
                assert(fields_of(entries@).drop_last() =~= before);
                assert(distinct_names(fields_of(entries@))) by {
                    assert forall|a: int, b: int| 0 <= a < b < before.len() + 1 implies fields_of(
                        entries@,
                    )[a].0 != fields_of(entries@)[b].0 by {
                        if b < before.len() {
                            assert(before[a].0 != before[b].0);
                        } else {
                            assert(!(|i: int| before[i].0 == new_field.0)(a));
                        }
                    }
                }
                None
            },
        };
        *self = Headers { entries };
        previous
    }

    /// Reads header fields from a JSON object whose values are strings.
    /// Nothing comes back where the text is no such object.
    pub fn from_json(text: &str) -> (r: Option<Headers>)
        ensures
            match r {
                Some(headers) => json_fields(text@) == Some(headers.as_map()),
                None => json_fields(text@) is None,
            },
    {
        match decode_fields(text) {
            Some(entries) => Some(Headers::from_entries(&entries)),
            None => None,
        }
    }

    /// The fields that `entries` make when inserted one after another.
    pub fn from_entries(entries: &Vec<(String, String)>) -> (r: Headers)
        ensures
            r@ == collected(fields_of(entries@)),
            r.as_map() == map_of(fields_of(entries@)),
    {
        let mut r = Headers::new();
        let ghost all = fields_of(entries@);
        let mut i: usize = 0;
        while i < entries.len()
            invariant
                i <= entries.len(),
                all == fields_of(entries@),
                r@ == collected(all.take(i as int)),
                r.as_map() == map_of(all.take(i as int)),
            decreases entries.len() - i,
        {
            let name = entries[i].0.clone();
            let value = entries[i].1.clone();
            r.insert(name, value);
            proof {
                assert(all.take(i + 1).drop_last() =~= all.take(i as int));
                assert(all.take(i + 1).last() == all[i as int]);
            }
            i += 1;
        }
        assert(all.take(i as int) =~= all);
        r
    }
}

} // verus!
