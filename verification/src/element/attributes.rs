//! The attribute map of an element: text values under unique text names.

use vstd::prelude::*;
use vstd::string::*;

verus! {

/// One named value of an attribute map.
#[derive(Debug)]
pub struct AttributeEntry {
    pub name: String,
    pub value: String,
}

/// The map that a sequence of entries stands for: each entry's value under
/// its name, a later entry replacing an earlier one of the same name.
pub open spec fn entries_map(entries: Seq<AttributeEntry>) -> Map<Seq<char>, Seq<char>>
    decreases entries.len(),
{
    if entries.len() == 0 {
        Map::empty()
    } else {
        entries_map(entries.drop_last()).insert(entries.last().name@, entries.last().value@)
    }
}

/// No two entries share a name.
pub open spec fn distinct_names(entries: Seq<AttributeEntry>) -> bool {
    forall|i: int, j: int|
        0 <= i < j < entries.len() ==> (#[trigger] entries[i]).name@ != (#[trigger] entries[j]).name@
}

/// The value under `name`, if the map has one.
pub open spec fn lookup(attributes: Map<Seq<char>, Seq<char>>, name: Seq<char>) -> Option<
    Seq<char>,
> {
    if attributes.contains_key(name) {
        Some(attributes[name])
    } else {
        None
    }
}

/// The flag under `name`: whether its value is `true`, or `default` where
/// the map has no value under that name.
pub open spec fn spec_flag(
    attributes: Map<Seq<char>, Seq<char>>,
    name: Seq<char>,
    default: bool,
) -> bool {
    match lookup(attributes, name) {
        Some(value) => value == "true"@,
        None => default,
    }
}

/// The characters of an optional text.
pub open spec fn text_of(value: Option<&str>) -> Option<Seq<char>> {
    match value {
        Some(text) => Some(text@),
        None => None,
    }
}

proof fn lemma_entries_map_contains(entries: Seq<AttributeEntry>, name: Seq<char>)
    ensures
        entries_map(entries).contains_key(name) <==> exists|i: int|
            0 <= i < entries.len() && (#[trigger] entries[i]).name@ == name,
        entries_map(entries).dom().finite(),
    decreases entries.len(),
{
    if entries.len() > 0 {
        let rest = entries.drop_last();
        lemma_entries_map_contains(rest, name);
        if entries_map(entries).contains_key(name) {
            if entries.last().name@ == name {
                assert(entries[entries.len() - 1].name@ == name);
            } else {
                let i = choose|i: int| 0 <= i < rest.len() && (#[trigger] rest[i]).name@ == name;
                assert(entries[i].name@ == name);
            }
        }
        if exists|i: int| 0 <= i < entries.len() && (#[trigger] entries[i]).name@ == name {
            let i = choose|i: int| 0 <= i < entries.len() && (#[trigger] entries[i]).name@ == name;
            if i < rest.len() {
                assert(rest[i].name@ == name);
            }
        }
    }
}

proof fn lemma_entries_map_value(entries: Seq<AttributeEntry>, i: int)
    requires
        distinct_names(entries),
        0 <= i < entries.len(),
    ensures
        entries_map(entries).contains_key(entries[i].name@),
        entries_map(entries)[entries[i].name@] == entries[i].value@,
    decreases entries.len(),
{
    let rest = entries.drop_last();
    if i < entries.len() - 1 {
        assert(distinct_names(rest)) by {
            assert forall|a: int, b: int| 0 <= a < b < rest.len() implies (#[trigger] rest[a]).name@
                != (#[trigger] rest[b]).name@ by {
                assert(entries[a].name@ != entries[b].name@);
            }
        }
        lemma_entries_map_value(rest, i);
        assert(rest[i] == entries[i]);
        assert(entries[i].name@ != entries[entries.len() - 1].name@);
    }
}

proof fn lemma_entries_map_len(entries: Seq<AttributeEntry>)
    requires
        distinct_names(entries),
    ensures
        entries_map(entries).dom().finite(),
        entries_map(entries).dom().len() == entries.len(),
    decreases entries.len(),
{
    if entries.len() > 0 {
        let rest = entries.drop_last();
        assert(distinct_names(rest)) by {
            assert forall|a: int, b: int| 0 <= a < b < rest.len() implies (#[trigger] rest[a]).name@
                != (#[trigger] rest[b]).name@ by {
                assert(entries[a].name@ != entries[b].name@);
            }
        }
        lemma_entries_map_len(rest);
        lemma_entries_map_contains(rest, entries.last().name@);
        if entries_map(rest).contains_key(entries.last().name@) {
            let i = choose|i: int|
                0 <= i < rest.len() && (#[trigger] rest[i]).name@ == entries.last().name@;
            assert(entries[i].name@ != entries[entries.len() - 1].name@);
        }
    }
}

proof fn lemma_entries_map_replace(entries: Seq<AttributeEntry>, i: int, entry: AttributeEntry)
    requires
        distinct_names(entries),
        0 <= i < entries.len(),
        entry.name@ == entries[i].name@,
    ensures
        distinct_names(entries.update(i, entry)),
        entries_map(entries.update(i, entry)) == entries_map(entries).insert(
            entry.name@,
            entry.value@,
        ),
    decreases entries.len(),
{
    let updated = entries.update(i, entry);
    assert(distinct_names(updated)) by {
        assert forall|a: int, b: int| 0 <= a < b < updated.len() implies (
        #[trigger] updated[a]).name@ != (#[trigger] updated[b]).name@ by {
            assert(entries[a].name@ != entries[b].name@);
        }
    }
    let rest = entries.drop_last();
    if i == entries.len() - 1 {
        assert(updated.drop_last() =~= rest);
        assert(entries_map(updated) =~= entries_map(entries).insert(entry.name@, entry.value@));
    } else {
        assert(distinct_names(rest)) by {
            assert forall|a: int, b: int| 0 <= a < b < rest.len() implies (#[trigger] rest[a]).name@
                != (#[trigger] rest[b]).name@ by {
                assert(entries[a].name@ != entries[b].name@);
            }
        }
        lemma_entries_map_replace(rest, i, entry);
        assert(updated.drop_last() =~= rest.update(i, entry));
        assert(updated.last() == entries.last());
        assert(entries[i].name@ != entries[entries.len() - 1].name@);
        assert(entries_map(updated) =~= entries_map(entries).insert(entry.name@, entry.value@));
    }
}

/// A finite map from attribute names to text values. Names are compared
/// character by character, so they are case-sensitive.
#[derive(Debug)]
pub struct Attributes {
    entries: Vec<AttributeEntry>,
}

impl View for Attributes {
    type V = Map<Seq<char>, Seq<char>>;

    closed spec fn view(&self) -> Map<Seq<char>, Seq<char>> {
        entries_map(self.entries@)
    }
}

impl Attributes {
    #[verifier::type_invariant]
    spec fn well_formed(&self) -> bool {
        distinct_names(self.entries@)
    }

    /// The empty map.
    pub fn new() -> (attributes: Self)
        ensures
            attributes@ == Map::<Seq<char>, Seq<char>>::empty(),
    {
        Attributes { entries: Vec::new() }
    }

    /// The number of names in the map.
    pub fn len(&self) -> (count: usize)
        ensures
            self@.dom().finite(),
            count == self@.dom().len(),
    {
        proof {
            use_type_invariant(self);
            lemma_entries_map_len(self.entries@);
        }
        self.entries.len()
    }

    fn position(&self, name: &String) -> (index: Option<usize>)
        ensures
            match index {
                Some(i) => i < self.entries.len() && self.entries[i as int].name@ == name@,
                None => forall|i: int|
                    0 <= i < self.entries.len() ==> (#[trigger] self.entries[i]).name@ != name@,
            },
    {
        let mut i: usize = 0;
        while i < self.entries.len()
            invariant
                i <= self.entries.len(),
                forall|k: int| 0 <= k < i ==> (#[trigger] self.entries[k]).name@ != name@,
            decreases self.entries.len() - i,
        {
            if self.entries[i].name == *name {
                return Some(i);
            }
            i += 1;
        }
        None
    }

    /// The value under `name`, if the map has one.
    pub fn get(&self, name: &str) -> (value: Option<&str>)
        ensures
            text_of(value) == lookup(self@, name@),
    {
        let key = String::from_str(name);
        proof {
            use_type_invariant(self);
            lemma_entries_map_contains(self.entries@, name@);
        }
        match self.position(&key) {
            Some(i) => {
                proof {
                    lemma_entries_map_value(self.entries@, i as int);
                }
                Some(self.entries[i].value.as_str())
            },
            None => None,
        }
    }

    /// The flag under `name`: whether its value is `true`, or `default`
    /// where the map has no value under that name.
    pub fn flag(&self, name: &str, default: bool) -> (set: bool)
        ensures
            set == spec_flag(self@, name@, default),
    {
        match self.get(name) {
            Some(value) => String::from_str(value) == String::from_str("true"),
            None => default,
        }
    }

    /// Whether the map has a value under `name`.
    pub fn contains_key(&self, name: &str) -> (present: bool)
        ensures
            present == self@.contains_key(name@),
    {
        self.get(name).is_some()
    }

    /// Puts `value` under `name`, replacing the value that was there.
    pub fn insert(&mut self, name: String, value: String)
        ensures
            final(self)@ == old(self)@.insert(name@, value@),
    {
        let mut taken = Attributes::new();
        core::mem::swap(self, &mut taken);
        *self = taken.with(name, value);
    }

    /// The map with `value` put under `name`, replacing the value that was
    /// there.
    pub fn with(self, name: String, value: String) -> (attributes: Self)
        ensures
            attributes@ == self@.insert(name@, value@),
    {
        proof {
            use_type_invariant(&self);
        }
        let found = self.position(&name);
        let mut entries = self.entries;
        let ghost before = entries@;
        match found {
            Some(i) => {
                proof {
                    lemma_entries_map_replace(before, i as int, AttributeEntry { name, value });
                }
                entries.set(i, AttributeEntry { name, value });
            },
            None => {
                entries.push(AttributeEntry { name, value });
                proof {
                    assert(entries@.drop_last() =~= before);
                    assert forall|a: int, b: int| 0 <= a < b < entries@.len() implies (
                    #[trigger] entries@[a]).name@ != (#[trigger] entries@[b]).name@ by {
                        if b < before.len() {
                            assert(before[a].name@ != before[b].name@);
                        } else {
                            assert(before[a].name@ != name@);
                        }
                    }
                }
            },
        }
        Attributes { entries }
    }
}

impl Clone for Attributes {
    fn clone(&self) -> (copy: Self)
        ensures
            copy@ == self@,
    {
        proof {
            use_type_invariant(self);
        }
        let mut entries: Vec<AttributeEntry> = Vec::new();
        let mut i: usize = 0;
        while i < self.entries.len()
            invariant
                i <= self.entries.len(),
                entries@ == self.entries@.take(i as int),
            decreases self.entries.len() - i,
        {
            let entry = AttributeEntry {
                name: self.entries[i].name.clone(),
                value: self.entries[i].value.clone(),
            };
            entries.push(entry);
            proof {
                assert(entries@ =~= self.entries@.take(i + 1));
            }
            i += 1;
        }
        proof {
            assert(self.entries@.take(i as int) =~= self.entries@);
        }
        Attributes { entries }
    }
}

} // verus!
