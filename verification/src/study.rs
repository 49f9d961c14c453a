//! The parameters with which a study is requested: a map from parameter
//! name to parameter, in which every name occurs once.

use crate::value::{Value, ValueView};
use vstd::prelude::*;

verus! {

/// A parameter that carries a value, whether the value is a placeholder, and
/// the tag of the value's type.
#[derive(Debug, PartialEq, Eq)]
pub struct InputValue {
    /// The value.
    pub v: Value,
    /// Whether the value is a placeholder.
    pub f: Value,
    /// The tag of the value's type.
    pub t: Value,
}

/// The mathematical model of an [`InputValue`].
pub struct InputValueView {
    pub v: ValueView,
    pub f: ValueView,
    pub t: ValueView,
}

impl View for InputValue {
    type V = InputValueView;

    open spec fn view(&self) -> InputValueView {
        InputValueView { v: self.v@, f: self.f@, t: self.t@ }
    }
}

impl Clone for InputValue {
    fn clone(&self) -> (res: Self)
        ensures
            res@ == self@,
    {
        InputValue { v: self.v.clone(), f: self.f.clone(), t: self.t.clone() }
    }
}

/// One parameter of a study: a bare string, or a value with its flag and tag.
#[derive(Debug, PartialEq, Eq)]
pub enum IndicatorInput {
    String(String),
    IndicatorInput(InputValue),
}

/// The mathematical model of an [`IndicatorInput`].
pub enum IndicatorInputView {
    String(Seq<char>),
    IndicatorInput(InputValueView),
}

impl View for IndicatorInput {
    type V = IndicatorInputView;

    open spec fn view(&self) -> IndicatorInputView {
        match self {
            IndicatorInput::String(s) => IndicatorInputView::String(s@),
            IndicatorInput::IndicatorInput(input) => IndicatorInputView::IndicatorInput(input@),
        }
    }
}

impl Clone for IndicatorInput {
    fn clone(&self) -> (res: Self)
        ensures
            res@ == self@,
    {
        match self {
            IndicatorInput::String(s) => IndicatorInput::String(s.clone()),
            IndicatorInput::IndicatorInput(input) => IndicatorInput::IndicatorInput(input.clone()),
        }
    }
}

/// Whether no name occurs twice among the entries.
pub open spec fn distinct_names(entries: Seq<(String, IndicatorInput)>) -> bool {
    forall|i: int, j: int|
        0 <= i < j < entries.len() ==> (#[trigger] entries[i]).0@ != (#[trigger] entries[j]).0@
}

/// The map that a sequence of entries stands for: each name is mapped to the
/// parameter of the last entry that has it.
pub open spec fn map_of(entries: Seq<(String, IndicatorInput)>) -> Map<
    Seq<char>,
    IndicatorInputView,
>
    decreases entries.len(),
{
    if entries.len() == 0 {
        Map::empty()
    } else {
        map_of(entries.drop_last()).insert(entries.last().0@, entries.last().1@)
    }
}

/// A name is in the map exactly if an entry has it.
pub proof fn lemma_map_of_names(entries: Seq<(String, IndicatorInput)>, name: Seq<char>)
    ensures
        map_of(entries).contains_key(name) <==> exists|i: int|
            0 <= i < entries.len() && (#[trigger] entries[i]).0@ == name,
    decreases entries.len(),
{
    if entries.len() > 0 {
        let rest = entries.drop_last();
        lemma_map_of_names(rest, name);
        if map_of(entries).contains_key(name) {
            if entries.last().0@ == name {
                assert(entries[entries.len() - 1].0@ == name);
            } else {
                let i = choose|i: int| 0 <= i < rest.len() && (#[trigger] rest[i]).0@ == name;
                assert(entries[i].0@ == name);
            }
        }
        if exists|i: int| 0 <= i < entries.len() && (#[trigger] entries[i]).0@ == name {
            let i = choose|i: int| 0 <= i < entries.len() && (#[trigger] entries[i]).0@ == name;
            if i < entries.len() - 1 {
                assert(rest[i].0@ == name);
            }
        }
    }
}

/// Where no name occurs twice, the map holds every entry's parameter under
/// the entry's name.
pub proof fn lemma_map_of_entry(entries: Seq<(String, IndicatorInput)>, i: int)
    requires
        distinct_names(entries),
        0 <= i < entries.len(),
    ensures
        map_of(entries).contains_key(entries[i].0@),
        map_of(entries)[entries[i].0@] == entries[i].1@,
    decreases entries.len(),
{
    let rest = entries.drop_last();
    if i < entries.len() - 1 {
        assert(distinct_names(rest)) by {
            assert forall|a: int, b: int| 0 <= a < b < rest.len() implies (#[trigger] rest[a]).0@
                != (#[trigger] rest[b]).0@ by {
                assert(entries[a].0@ != entries[b].0@);
            }
        }
        lemma_map_of_entry(rest, i);
        assert(rest[i] == entries[i]);
        assert(entries[i].0@ != entries[entries.len() - 1].0@);
    }
}

/// Where no name occurs twice, the map has as many names as there are
/// entries.
pub proof fn lemma_map_of_len(entries: Seq<(String, IndicatorInput)>)
    requires
        distinct_names(entries),
    ensures
        map_of(entries).dom().finite(),
        map_of(entries).len() == entries.len(),
    decreases entries.len(),
{
    if entries.len() > 0 {
        let rest = entries.drop_last();
        assert(distinct_names(rest)) by {
            assert forall|a: int, b: int| 0 <= a < b < rest.len() implies (#[trigger] rest[a]).0@
                != (#[trigger] rest[b]).0@ by {
                assert(entries[a].0@ != entries[b].0@);
            }
        }
        lemma_map_of_len(rest);
        let name = entries.last().0@;
        lemma_map_of_names(rest, name);
        if map_of(rest).contains_key(name) {
            let i = choose|i: int| 0 <= i < rest.len() && (#[trigger] rest[i]).0@ == name;
            assert(entries[i].0@ != entries[entries.len() - 1].0@);
        }
        assert(map_of(entries).dom() =~= map_of(rest).dom().insert(name));
    }
}

/// Replacing the parameter of an entry, under a name that is spelled as the
/// entry's own, is an insertion into the map.
proof fn lemma_map_of_update(
    entries: Seq<(String, IndicatorInput)>,
    i: int,
    entry: (String, IndicatorInput),
)
    requires
        distinct_names(entries),
        0 <= i < entries.len(),
        entry.0@ == entries[i].0@,
    ensures
        distinct_names(entries.update(i, entry)),
        map_of(entries.update(i, entry)) == map_of(entries).insert(entry.0@, entry.1@),
    decreases entries.len(),
{
    let updated = entries.update(i, entry);
    assert(distinct_names(updated)) by {
        assert forall|a: int, b: int| 0 <= a < b < updated.len() implies (
        #[trigger] updated[a]).0@ != (#[trigger] updated[b]).0@ by {
            assert(entries[a].0@ != entries[b].0@);
        }
    }
    let rest = entries.drop_last();
    if i == entries.len() - 1 {
        assert(updated.drop_last() =~= rest);
        assert(map_of(updated) =~= map_of(entries).insert(entry.0@, entry.1@));
    } else {
        assert(distinct_names(rest)) by {
            assert forall|a: int, b: int| 0 <= a < b < rest.len() implies (#[trigger] rest[a]).0@
                != (#[trigger] rest[b]).0@ by {
                assert(entries[a].0@ != entries[b].0@);
            }
        }
        lemma_map_of_update(rest, i, entry);
        assert(updated.drop_last() =~= rest.update(i, entry));
        assert(updated.last() == entries.last());
        assert(entries[i].0@ != entries[entries.len() - 1].0@);
        assert(map_of(updated) =~= map_of(entries).insert(entry.0@, entry.1@));
    }
}

/// Entries that agree in every name and in every parameter's model stand
/// for the same map.
proof fn lemma_map_of_models(
    left: Seq<(String, IndicatorInput)>,
    right: Seq<(String, IndicatorInput)>,
)
    requires
        left.len() == right.len(),
        forall|i: int|
            0 <= i < left.len() ==> (#[trigger] left[i]).0@ == right[i].0@ && left[i].1@
                == right[i].1@,
    ensures
        map_of(left) == map_of(right),
    decreases left.len(),
{
    if left.len() > 0 {
        assert(left.last() == left[left.len() - 1]);
        lemma_map_of_models(left.drop_last(), right.drop_last());
    }
}

/// The parameters of a study, by name.
#[derive(Debug, PartialEq, Eq)]
pub struct StudyInputs {
    entries: Vec<(String, IndicatorInput)>,
}

impl View for StudyInputs {
    type V = Map<Seq<char>, IndicatorInputView>;

    closed spec fn view(&self) -> Map<Seq<char>, IndicatorInputView> {
        map_of(self.entries@)
    }
}

impl Clone for StudyInputs {
    fn clone(&self) -> (res: Self)
        ensures
            res@ == self@,
    {
        proof {
            use_type_invariant(self);
        }
        let mut entries: Vec<(String, IndicatorInput)> = Vec::new();
        let mut i: usize = 0;
        while i < self.entries.len()
            invariant
                i <= self.entries@.len(),
                entries@.len() == i,
                forall|j: int|
                    0 <= j < i ==> (#[trigger] entries@[j]).0@ == self.entries@[j].0@
                        && entries@[j].1@ == self.entries@[j].1@,
            decreases self.entries@.len() - i,
        {
            let name = self.entries[i].0.clone();
            let input = self.entries[i].1.clone();
            entries.push((name, input));
            i += 1;
        }
        proof {
            lemma_map_of_models(entries@, self.entries@);
            assert(distinct_names(entries@)) by {
                assert forall|a: int, b: int| 0 <= a < b < entries@.len() implies (
                #[trigger] entries@[a]).0@ != (#[trigger] entries@[b]).0@ by {
                    assert(self.entries@[a].0@ != self.entries@[b].0@);
                }
            }
        }
        StudyInputs { entries }
    }
}

impl StudyInputs {
    #[verifier::type_invariant]
    spec fn names_occur_once(self) -> bool {
        distinct_names(self.entries@)
    }

    /// The empty map.
    pub fn new() -> (inputs: Self)
        ensures
            inputs@ == Map::<Seq<char>, IndicatorInputView>::empty(),
    {
        StudyInputs { entries: Vec::new() }
    }

    /// The position of the entry with this name, if there is one.
    fn position(&self, name: &String) -> (r: Option<usize>)
        ensures
            match r {
                Some(i) => i < self.entries@.len() && self.entries@[i as int].0@ == name@,
                None => forall|i: int|
                    0 <= i < self.entries@.len() ==> (#[trigger] self.entries@[i]).0@ != name@,
            },
    {
        let mut i: usize = 0;
        while i < self.entries.len()
            invariant
                i <= self.entries@.len(),
                forall|j: int| 0 <= j < i ==> (#[trigger] self.entries@[j]).0@ != name@,
            decreases self.entries@.len() - i,
        {
            if self.entries[i].0 == *name {
                return Some(i);
            }
            i += 1;
        }
        None
    }

    /// The number of parameters.
    pub fn len(&self) -> (n: usize)
        ensures
            self@.dom().finite(),
            n == self@.len(),
    {
        proof {
            use_type_invariant(self);
            lemma_map_of_len(self.entries@);
        }
        self.entries.len()
    }

    /// Whether the map holds no parameter.
    pub fn is_empty(&self) -> (b: bool)
        ensures
            b == (self@ == Map::<Seq<char>, IndicatorInputView>::empty()),
    {
        proof {
            use_type_invariant(self);
            lemma_map_of_len(self.entries@);
            if self.entries@.len() > 0 {
                lemma_map_of_entry(self.entries@, 0);
            }
        }
        self.entries.len() == 0
    }

    /// Whether the map holds a parameter of this name.
    pub fn contains_key(&self, name: &str) -> (b: bool)
        ensures
            b == self@.contains_key(name@),
    {
        let key = name.to_owned();
        let found = self.position(&key);
        proof {
            lemma_map_of_names(self.entries@, name@);
        }
        found.is_some()
    }

    /// The parameter of this name, if the map holds one.
    pub fn get(&self, name: &str) -> (r: Option<&IndicatorInput>)
        ensures
            match r {
                Some(input) => self@.contains_key(name@) && input@ == self@[name@],
                None => !self@.contains_key(name@),
            },
    {
        let key = name.to_owned();
        match self.position(&key) {
            Some(i) => {
                proof {
                    use_type_invariant(self);
                    lemma_map_of_entry(self.entries@, i as int);
                }
                Some(&self.entries[i].1)
            },
            None => {
                proof {
                    lemma_map_of_names(self.entries@, name@);
                }
                None
            },
        }
    }

    /// Binds the name to the parameter. A parameter that the name was bound
    /// to before is replaced; every other name keeps its parameter.
    pub fn insert(&mut self, name: String, input: IndicatorInput)
        ensures
            final(self)@ == old(self)@.insert(name@, input@),
    {
        proof {
            use_type_invariant(&*self);
        }
        let found = self.position(&name);
        let mut entries: Vec<(String, IndicatorInput)> = Vec::new();
        core::mem::swap(&mut entries, &mut self.entries);
        match found {
            Some(i) => {
                proof {
                    lemma_map_of_update(entries@, i as int, (name, input));
                }
                entries.set(i, (name, input));
            },
            None => {
                proof {
                    assert(entries@.push((name, input)).drop_last() =~= entries@);
                }
                entries.push((name, input));
            },
        }
        self.entries = entries;
    }

    /// The entries of the map: one for each name, with the name's parameter.
    pub fn into_entries(self) -> (entries: Vec<(String, IndicatorInput)>)
        ensures
            distinct_names(entries@),
            map_of(entries@) == self@,
    {
        proof {
            use_type_invariant(&self);
        }
        self.entries
    }
}

} // verus!
