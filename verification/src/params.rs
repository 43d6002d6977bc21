//! Parameters: named values that drive blend weights and transition rules.
//!
//! A `Weight` parameter is a fixed-point scalar read by blend nodes; a
//! `Rule` parameter is a boolean read by the transition scan. Parameters
//! live in a name-keyed store. A lookup that misses, or that finds a value
//! of the wrong kind, degrades to a neutral default at the point of use;
//! the store itself never fails.

use vstd::prelude::*;

verus! {

/// A named value: a fixed-point blend weight or a boolean transition rule.
#[derive(Clone, Copy, PartialEq, Debug)]
pub enum Parameter {
    Weight(i64),
    Rule(bool),
}

/// Failure to rebuild a tagged value from a persisted discriminant the
/// library does not know.
#[derive(Clone, Copy, PartialEq, Eq, Structural, Debug)]
pub enum LoadError {
    UnknownParameterId(i32),
    UnknownPoseWeightId(i32),
    UnknownPoseNodeId(i32),
}

/// The stable discriminant a parameter is persisted under.
pub open spec fn spec_parameter_id(p: Parameter) -> int {
    match p {
        Parameter::Weight(_) => 0,
        Parameter::Rule(_) => 1,
    }
}

impl Parameter {
    /// The blank value persisted under discriminant `id` — the inverse of
    /// `id()` at the variant level; an unknown discriminant is a load
    /// error.
    pub fn from_id(id: i32) -> (r: Result<Parameter, LoadError>)
        ensures
            r == if id == 0 {
                Ok::<Parameter, LoadError>(Parameter::Weight(0i64))
            } else if id == 1 {
                Ok::<Parameter, LoadError>(Parameter::Rule(false))
            } else {
                Err::<Parameter, LoadError>(LoadError::UnknownParameterId(id))
            },
            r matches Ok(p) ==> spec_parameter_id(p) == id,
            r is Ok <==> id == 0 || id == 1,
    {
        match id {
            0 => Ok(Parameter::Weight(0)),
            1 => Ok(Parameter::Rule(false)),
            _ => Err(LoadError::UnknownParameterId(id)),
        }
    }

    /// The stable discriminant this value is persisted under.
    pub fn id(&self) -> (r: i32)
        ensures
            r as int == spec_parameter_id(*self),
    {
        match self {
            Parameter::Weight(_) => 0,
            Parameter::Rule(_) => 1,
        }
    }
}

impl Default for Parameter {
    /// The neutral parameter: a zero weight.
    fn default() -> (r: Parameter)
        ensures
            r == Parameter::Weight(0i64),
    {
        Parameter::Weight(0)
    }
}

/// The value a parameter name resolves to, scanning entries in order:
/// the first entry with that name wins.
pub open spec fn lookup_from(s: Seq<(String, Parameter)>, name: Seq<char>, j: int) -> Option<
    Parameter,
>
    decreases s.len() - j,
{
    if j < 0 || j >= s.len() {
        None
    } else if s[j].0@ == name {
        Some(s[j].1)
    } else {
        lookup_from(s, name, j + 1)
    }
}

/// The value a parameter name resolves to in a store's entries.
pub open spec fn spec_lookup(s: Seq<(String, Parameter)>, name: Seq<char>) -> Option<Parameter> {
    lookup_from(s, name, 0)
}

/// A name-keyed store of parameters.
pub struct ParameterContainer {
    pub entries: Vec<(String, Parameter)>,
}

impl ParameterContainer {
    /// The value stored under `name`, if any.
    pub open spec fn spec_get(self, name: Seq<char>) -> Option<Parameter> {
        spec_lookup(self.entries@, name)
    }

    /// An empty store.
    pub fn new() -> (c: ParameterContainer)
        ensures
            c.entries@.len() == 0,
    {
        ParameterContainer { entries: Vec::new() }
    }

    /// The position of the entry named `name`, if any.
    #[verifier::loop_isolation(false)]
    fn position_of(&self, name: &String) -> (r: Option<usize>)
        ensures
            match r {
                Some(j) => 0 <= j < self.entries@.len() && self.entries@[j as int].0@ == name@
                    && lookup_from(self.entries@, name@, 0) == Some(
                    self.entries@[j as int].1,
                ) && forall|i: int| 0 <= i < j ==> self.entries@[i].0@ != name@,
                None => lookup_from(self.entries@, name@, 0) is None,
            },
    {
        let n = self.entries.len();
        let mut j: usize = 0;
        while j < n
            invariant
                j <= n,
                n == self.entries@.len(),
                lookup_from(self.entries@, name@, 0) == lookup_from(self.entries@, name@, j as int),
                forall|i: int| 0 <= i < j ==> self.entries@[i].0@ != name@,
            decreases n - j,
        {
            if self.entries[j].0 == *name {
                proof {
                    assert(lookup_from(self.entries@, name@, j as int) == Some(
                        self.entries@[j as int].1,
                    ));
                }
                return Some(j);
            }
            proof {
                assert(lookup_from(self.entries@, name@, j as int) == lookup_from(
                    self.entries@,
                    name@,
                    j + 1,
                ));
            }
            j += 1;
        }
        proof {
            assert(lookup_from(self.entries@, name@, n as int) is None);
        }
        None
    }

    /// Inserts `value` under `name`, overwriting an existing entry of that
    /// name and otherwise appending a new one.
    pub fn add(&mut self, name: &str, value: Parameter)
        ensures
            forall|k: Seq<char>|
                #![auto]
                spec_lookup(final(self).entries@, k) == if k == name@ {
                    Some(value)
                } else {
                    spec_lookup(old(self).entries@, k)
                },
            final(self).entries@.len() == match spec_lookup(old(self).entries@, name@) {
                Some(_) => old(self).entries@.len() as int,
                None => old(self).entries@.len() + 1int,
            },
    {
        let key: String = name.to_owned();
        match self.position_of(&key) {
            Some(j) => {
                let entry = &mut self.entries[j];
                entry.1 = value;
                proof {
                    lemma_lookup_after_update(old(self).entries@, self.entries@, j as int, name@, value);
                }
            },
            None => {
                proof {
                    lemma_lookup_after_push(old(self).entries@, key, value);
                }
                self.entries.push((key, value));
            },
        }
    }

    /// Overwrites the entry named `name` when one exists; defining a
    /// parameter is `add`'s business, so a missing name is a no-op and the
    /// store is left exactly as it was.
    pub fn set(&mut self, name: &str, value: Parameter)
        ensures
            match spec_lookup(old(self).entries@, name@) {
                Some(_) => forall|k: Seq<char>|
                    #![auto]
                    spec_lookup(final(self).entries@, k) == if k == name@ {
                        Some(value)
                    } else {
                        spec_lookup(old(self).entries@, k)
                    },
                None => final(self).entries@ == old(self).entries@,
            },
            final(self).entries@.len() == old(self).entries@.len(),
    {
        let key: String = name.to_owned();
        match self.position_of(&key) {
            Some(j) => {
                let entry = &mut self.entries[j];
                entry.1 = value;
                proof {
                    lemma_lookup_after_update(old(self).entries@, self.entries@, j as int, name@, value);
                }
            },
            None => {},
        }
    }

    /// Borrows the value stored under `name`, if any.
    pub fn get(&self, name: &str) -> (r: Option<&Parameter>)
        ensures
            match r {
                Some(p) => self.spec_get(name@) == Some(*p),
                None => self.spec_get(name@) is None,
            },
    {
        let key: String = name.to_owned();
        match self.position_of(&key) {
            Some(j) => Some(&self.entries[j].1),
            None => None,
        }
    }

    /// Number of stored entries.
    pub fn len(&self) -> (n: usize)
        ensures
            n == self.entries@.len(),
    {
        self.entries.len()
    }
}

/// Overwriting the value at the first entry named `name` rewrites that
/// name's lookup and no other.
proof fn lemma_lookup_after_update(
    before: Seq<(String, Parameter)>,
    after: Seq<(String, Parameter)>,
    j: int,
    name: Seq<char>,
    value: Parameter,
)
    requires
        0 <= j < before.len(),
        before[j].0@ == name,
        forall|i: int| 0 <= i < j ==> before[i].0@ != name,
        after == before.update(j, (before[j].0, value)),
    ensures
        forall|k: Seq<char>|
            #![auto]
            spec_lookup(after, k) == if k == name {
                Some(value)
            } else {
                spec_lookup(before, k)
            },
{
    assert forall|k: Seq<char>| #![auto]
        spec_lookup(after, k) == if k == name {
            Some(value)
        } else {
            spec_lookup(before, k)
        } by {
        lemma_lookup_from_after_update(before, after, j, name, value, k, 0);
    }
}

proof fn lemma_lookup_from_after_update(
    before: Seq<(String, Parameter)>,
    after: Seq<(String, Parameter)>,
    j: int,
    name: Seq<char>,
    value: Parameter,
    k: Seq<char>,
    start: int,
)
    requires
        0 <= j < before.len(),
        before[j].0@ == name,
        forall|i: int| 0 <= i < j ==> before[i].0@ != name,
        after == before.update(j, (before[j].0, value)),
        0 <= start <= before.len(),
    ensures
        lookup_from(after, k, start) == if k == name && start <= j {
            Some(value)
        } else {
            lookup_from(before, k, start)
        },
    decreases before.len() - start,
{
    if start < before.len() {
        lemma_lookup_from_after_update(before, after, j, name, value, k, start + 1);
    }
}

/// Appending an entry under a name that resolves to nothing gives that
/// name the new value and leaves every other lookup unchanged.
proof fn lemma_lookup_after_push(before: Seq<(String, Parameter)>, key: String, value: Parameter)
    requires
        spec_lookup(before, key@) is None,
    ensures
        forall|k: Seq<char>|
            #![auto]
            spec_lookup(before.push((key, value)), k) == if k == key@ {
                Some(value)
            } else {
                spec_lookup(before, k)
            },
{
    assert forall|k: Seq<char>| #![auto]
        spec_lookup(before.push((key, value)), k) == if k == key@ {
        Some(value)
    } else {
        spec_lookup(before, k)
    } by {
        lemma_lookup_from_after_push(before, key@, value, k, key, 0);
    }
}

proof fn lemma_lookup_from_after_push(
    before: Seq<(String, Parameter)>,
    name: Seq<char>,
    value: Parameter,
    k: Seq<char>,
    key: String,
    start: int,
)
    requires
        key@ == name,
        0 <= start <= before.len(),
        lookup_from(before, name, start) is None || k != name,
    ensures
        lookup_from(before.push((key, value)), k, start) == if k == name {
            Some(value)
        } else {
            lookup_from(before, k, start)
        },
    decreases before.len() - start,
{
    let grown = before.push((key, value));
    if start < before.len() {
        lemma_lookup_from_after_push(before, name, value, k, key, start + 1);
        assert(grown[start] == before[start]);
    } else {
        assert(grown[start] == (key, value));
        assert(lookup_from(before, k, start) is None);
        assert(lookup_from(grown, k, start + 1) is None);
    }
}

} // verus!
