//! The abstract value lattice over which rule expressions are evaluated, and
//! name-to-value bindings (used both for environments and for object values).

use vstd::prelude::*;

verus! {

broadcast use vstd::std_specs::vec::axiom_vec_index_decreases, vstd::std_specs::vec::axiom_vec_decreases_to_view, vstd::seq::axiom_seq_index_decreases, vstd::seq::axiom_seq_subrange_decreases;

/// The mathematical model of a lattice value.
pub enum Val {
    Unknown,
    Invalid,
    Required,
    ConstUnset,
    ConstNull,
    ConstBool(bool),
    ConstString(Seq<char>),
    ConstObject(Map<Seq<char>, Val>),
}

/// The classification of an expression under partial evaluation.
#[derive(Debug)]
pub enum EndpointRuleValue {
    /// Statically undecidable.
    Unknown,
    /// An operator applied to ill-typed operands.
    Invalid,
    /// Proven to be supplied, with unknown content.
    Required,
    /// Proven absent.
    ConstUnset,
    /// Proven present as an explicit null.
    ConstNull,
    ConstBool(bool),
    ConstString(String),
    ConstObject(Bindings),
}

/// An ordered list of name-to-value bindings; a later binding of a name
/// shadows an earlier one.
#[derive(Debug)]
pub struct Bindings {
    pub entries: Vec<(String, EndpointRuleValue)>,
}

/// The model of a value.
pub open spec fn value_model(v: EndpointRuleValue) -> Val
    decreases v,
{
    match v {
        EndpointRuleValue::Unknown => Val::Unknown,
        EndpointRuleValue::Invalid => Val::Invalid,
        EndpointRuleValue::Required => Val::Required,
        EndpointRuleValue::ConstUnset => Val::ConstUnset,
        EndpointRuleValue::ConstNull => Val::ConstNull,
        EndpointRuleValue::ConstBool(b) => Val::ConstBool(b),
        EndpointRuleValue::ConstString(s) => Val::ConstString(s@),
        EndpointRuleValue::ConstObject(b) => Val::ConstObject(entries_model(b.entries@)),
    }
}

/// The map that a list of bindings denotes: later entries shadow earlier ones.
pub open spec fn entries_model(s: Seq<(String, EndpointRuleValue)>) -> Map<Seq<char>, Val>
    decreases s,
{
    if s.len() == 0 {
        Map::empty()
    } else {
        entries_model(s.drop_last()).insert(s.last().0@, value_model(s.last().1))
    }
}

/// The lattice law of set-ness: a value exists unless proven absent.
pub open spec fn is_set_spec(v: Val) -> Val {
    match v {
        Val::Unknown => Val::Unknown,
        Val::Invalid => Val::Invalid,
        Val::ConstUnset => Val::ConstBool(false),
        _ => Val::ConstBool(true),
    }
}

impl EndpointRuleValue {
    pub open spec fn model(&self) -> Val {
        value_model(*self)
    }

    /// `isSet` of this value.
    pub fn is_set(&self) -> (r: EndpointRuleValue)
        ensures
            r.model() == is_set_spec(self.model()),
    {
        match self {
            EndpointRuleValue::Unknown => EndpointRuleValue::Unknown,
            EndpointRuleValue::Invalid => EndpointRuleValue::Invalid,
            EndpointRuleValue::ConstUnset => EndpointRuleValue::ConstBool(false),
            EndpointRuleValue::Required
            | EndpointRuleValue::ConstNull
            | EndpointRuleValue::ConstBool(_)
            | EndpointRuleValue::ConstString(_)
            | EndpointRuleValue::ConstObject(_) => EndpointRuleValue::ConstBool(true),
        }
    }

    /// A copy of this value, down to its nested objects.
    pub fn deep_clone(&self) -> (r: EndpointRuleValue)
        ensures
            r.model() == self.model(),
        decreases self,
    {
        match self {
            EndpointRuleValue::Unknown => EndpointRuleValue::Unknown,
            EndpointRuleValue::Invalid => EndpointRuleValue::Invalid,
            EndpointRuleValue::Required => EndpointRuleValue::Required,
            EndpointRuleValue::ConstUnset => EndpointRuleValue::ConstUnset,
            EndpointRuleValue::ConstNull => EndpointRuleValue::ConstNull,
            EndpointRuleValue::ConstBool(b) => EndpointRuleValue::ConstBool(*b),
            EndpointRuleValue::ConstString(s) => EndpointRuleValue::ConstString(s.clone()),
            EndpointRuleValue::ConstObject(b) => EndpointRuleValue::ConstObject(b.deep_clone()),
        }
    }
}

impl Bindings {
    pub open spec fn model(&self) -> Map<Seq<char>, Val> {
        entries_model(self.entries@)
    }

    /// No bindings.
    pub fn new() -> (r: Bindings)
        ensures
            r.model() == Map::<Seq<char>, Val>::empty(),
    {
        Bindings { entries: Vec::new() }
    }

    /// The value bound to `name`, if any (the latest binding wins).
    pub fn get(&self, name: &String) -> (r: Option<&EndpointRuleValue>)
        ensures
            r is Some <==> self.model().contains_key(name@),
            r is Some ==> r.unwrap().model() == self.model()[name@],
    {
        let mut i: usize = self.entries.len();
        while i > 0
            invariant
                i <= self.entries.len(),
                forall|j: int| i <= j < self.entries.len() ==> #[trigger] self.entries@[j].0@ != name@,
            decreases i,
        {
            if self.entries[i - 1].0 == *name {
                proof {
                    lemma_entries_latest(self.entries@, name@, i - 1);
                }
                return Some(&self.entries[i - 1].1);
            }
            i -= 1;
        }
        proof {
            lemma_entries_absent(self.entries@, name@);
        }
        None
    }

    /// Binds `name` to `value`, shadowing any earlier binding of it.
    pub fn insert(&mut self, name: String, value: EndpointRuleValue)
        ensures
            final(self).model() == old(self).model().insert(name@, value.model()),
    {
        let ghost before = self.entries@;
        self.entries.push((name, value));
        proof {
            assert(self.entries@.drop_last() =~= before);
        }
    }

    /// A copy of these bindings, down to nested objects.
    pub fn deep_clone(&self) -> (r: Bindings)
        ensures
            r.model() == self.model(),
        decreases self,
    {
        let mut entries: Vec<(String, EndpointRuleValue)> = Vec::new();
        let n = self.entries.len();
        let mut i: usize = 0;
        while i < n
            invariant
                n == self.entries.len(),
                i <= n,
                entries_model(entries@) == entries_model(self.entries@.subrange(0, i as int)),
            decreases n - i,
        {
            let entry = &self.entries[i];
            proof {
                assert(decreases_to!(self => self.entries[i as int].1));
            }
            let v = entry.1.deep_clone();
            let ghost before = entries@;
            entries.push((entry.0.clone(), v));
            proof {
                assert(entries@.drop_last() =~= before);
                assert(self.entries@.subrange(0, i + 1).drop_last() =~= self.entries@.subrange(
                    0,
                    i as int,
                ));
            }
            i += 1;
        }
        proof {
            assert(self.entries@.subrange(0, n as int) =~= self.entries@);
        }
        Bindings { entries }
    }
}

/// The latest binding of a name determines its value.
pub proof fn lemma_entries_latest(s: Seq<(String, EndpointRuleValue)>, k: Seq<char>, j: int)
    requires
        0 <= j < s.len(),
        s[j].0@ == k,
        forall|i: int| j < i < s.len() ==> #[trigger] s[i].0@ != k,
    ensures
        entries_model(s).contains_key(k),
        entries_model(s)[k] == value_model(s[j].1),
    decreases s.len(),
{
    if j < s.len() - 1 {
        assert(s.last() == s[s.len() - 1]);
        lemma_entries_latest(s.drop_last(), k, j);
    }
}

/// A name that no entry binds is absent from the map.
pub proof fn lemma_entries_absent(s: Seq<(String, EndpointRuleValue)>, k: Seq<char>)
    requires
        forall|i: int| 0 <= i < s.len() ==> #[trigger] s[i].0@ != k,
    ensures
        !entries_model(s).contains_key(k),
    decreases s.len(),
{
    if s.len() > 0 {
        assert(s.last() == s[s.len() - 1]);
        lemma_entries_absent(s.drop_last(), k);
    }
}

} // verus!
