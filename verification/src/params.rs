//! The parameter source: a read-only, string-keyed, multi-typed lookup over
//! one directive's arguments.

use vstd::prelude::*;
use crate::float_bits::FloatBits;

verus! {

/// One typed argument value: a scalar or a variable-length array.
#[derive(Debug, Clone)]
pub enum ParamValue {
    Float(FloatBits),
    Integer(i32),
    Boolean(bool),
    Str(String),
    Floats(Vec<FloatBits>),
    Integers(Vec<i32>),
}

/// One named argument of a directive.
#[derive(Debug, Clone)]
pub struct Param {
    /// The case-sensitive parameter name, e.g. `"xresolution"` or `"L"`.
    pub name: String,
    /// The argument's value.
    pub value: ParamValue,
}

/// The value bound to `name`, if any: the value of the first entry whose
/// name matches. A well-formed directive binds each name at most once, so
/// "first" is then the only one.
pub open spec fn lookup_param(entries: Seq<Param>, name: Seq<char>) -> Option<ParamValue>
    decreases entries.len(),
{
    if entries.len() == 0 {
        None
    } else if entries[0].name@ == name {
        Some(entries[0].value)
    } else {
        lookup_param(entries.drop_first(), name)
    }
}

/// Skipping past an entry whose name does not match leaves the lookup
/// result unchanged.
proof fn lemma_lookup_skip_mismatch(entries: Seq<Param>, name: Seq<char>, i: int)
    requires
        0 <= i < entries.len(),
        entries[i].name@ != name,
    ensures
        lookup_param(entries.skip(i), name) == lookup_param(entries.skip(i + 1), name),
{
    assert(entries.skip(i)[0] == entries[i]);
    assert(entries.skip(i).drop_first() =~= entries.skip(i + 1));
}

/// A directive's argument list: the read-only parameter source every entity
/// constructor consumes. Each accessor returns the value bound to a name
/// when it is present with the asked-for kind, and otherwise reports absence
/// (or hands back the caller's default, for the scalar accessors that take
/// one).
#[derive(Debug, Clone)]
pub struct ParamList {
    /// The arguments, in directive order.
    pub entries: Vec<Param>,
}

impl ParamList {
    /// A source with no arguments: every lookup reports absence.
    pub fn new() -> (r: ParamList)
        ensures
            r.entries@.len() == 0,
    {
        ParamList { entries: Vec::new() }
    }

    /// Appends one named argument.
    pub fn push(&mut self, p: Param)
        ensures
            final(self).entries@ == old(self).entries@.push(p),
    {
        self.entries.push(p);
    }

    /// The value bound to `name`, if any.
    pub open spec fn spec_lookup(&self, name: Seq<char>) -> Option<ParamValue> {
        lookup_param(self.entries@, name)
    }

    /// The float scalar bound to `name`, or `default` when `name` is absent
    /// or bound to another kind.
    pub open spec fn spec_float(&self, name: Seq<char>, default: FloatBits) -> FloatBits {
        match self.spec_lookup(name) {
            Some(ParamValue::Float(b)) => b,
            _ => default,
        }
    }

    /// The integer scalar bound to `name`, or `default`.
    pub open spec fn spec_integer(&self, name: Seq<char>, default: i32) -> i32 {
        match self.spec_lookup(name) {
            Some(ParamValue::Integer(v)) => v,
            _ => default,
        }
    }

    /// The boolean bound to `name`, if present with that kind.
    pub open spec fn spec_boolean(&self, name: Seq<char>) -> Option<bool> {
        match self.spec_lookup(name) {
            Some(ParamValue::Boolean(b)) => Some(b),
            _ => None,
        }
    }

    /// The string bound to `name`, if present with that kind.
    pub open spec fn spec_string(&self, name: Seq<char>) -> Option<Seq<char>> {
        match self.spec_lookup(name) {
            Some(ParamValue::Str(s)) => Some(s@),
            _ => None,
        }
    }

    /// The float array bound to `name`, if present with that kind.
    pub open spec fn spec_floats(&self, name: Seq<char>) -> Option<Seq<FloatBits>> {
        match self.spec_lookup(name) {
            Some(ParamValue::Floats(v)) => Some(v@),
            _ => None,
        }
    }

    /// The integer array bound to `name`, if present with that kind.
    pub open spec fn spec_integers(&self, name: Seq<char>) -> Option<Seq<i32>> {
        match self.spec_lookup(name) {
            Some(ParamValue::Integers(v)) => Some(v@),
            _ => None,
        }
    }

    /// The index of the first entry named `name`, if any.
    fn find(&self, name: &str) -> (r: Option<usize>)
        ensures
            (match r {
                Some(i) => {
                    &&& i < self.entries@.len()
                    &&& self.entries@[i as int].name@ == name@
                    &&& self.spec_lookup(name@) == Some(self.entries@[i as int].value)
                },
                None => self.spec_lookup(name@) is None,
            }),
    {
        let owned: String = name.to_owned();
        let n = self.entries.len();
        let mut i: usize = 0;
        proof {
            assert(self.entries@.skip(0) =~= self.entries@);
        }
        while i < n
            invariant
                i <= n,
                n == self.entries@.len(),
                owned@ == name@,
                lookup_param(self.entries@.skip(i as int), name@) == self.spec_lookup(name@),
            decreases n - i,
        {
            let matched: bool = self.entries[i].name == owned;
            proof {
                assert(self.entries@.skip(i as int)[0] == self.entries@[i as int]);
            }
            if matched {
                return Some(i);
            }
            proof {
                lemma_lookup_skip_mismatch(self.entries@, name@, i as int);
            }
            i = i + 1;
        }
        proof {
            assert(self.entries@.skip(n as int) =~= Seq::<Param>::empty());
        }
        None
    }

    /// The float scalar bound to `name`, or `default` when `name` is absent
    /// or bound to another kind.
    pub fn float(&self, name: &str, default: FloatBits) -> (r: FloatBits)
        ensures
            r == self.spec_float(name@, default),
    {
        match self.find(name) {
            Some(i) => match &self.entries[i].value {
                ParamValue::Float(b) => *b,
                _ => default,
            },
            None => default,
        }
    }

    /// The integer scalar bound to `name`, or `default`.
    pub fn integer(&self, name: &str, default: i32) -> (r: i32)
        ensures
            r == self.spec_integer(name@, default),
    {
        match self.find(name) {
            Some(i) => match &self.entries[i].value {
                ParamValue::Integer(v) => *v,
                _ => default,
            },
            None => default,
        }
    }

    /// The boolean bound to `name`, if present with that kind.
    pub fn boolean(&self, name: &str) -> (r: Option<bool>)
        ensures
            r == self.spec_boolean(name@),
    {
        match self.find(name) {
            Some(i) => match &self.entries[i].value {
                ParamValue::Boolean(b) => Some(*b),
                _ => None,
            },
            None => None,
        }
    }

    /// The string bound to `name`, if present with that kind.
    pub fn string(&self, name: &str) -> (r: Option<String>)
        ensures
            (match r {
                Some(s) => self.spec_string(name@) == Some(s@),
                None => self.spec_string(name@) is None,
            }),
    {
        match self.find(name) {
            Some(i) => match &self.entries[i].value {
                ParamValue::Str(s) => Some(s.clone()),
                _ => None,
            },
            None => None,
        }
    }

    /// The float array bound to `name`, if present with that kind.
    pub fn floats(&self, name: &str) -> (r: Option<&Vec<FloatBits>>)
        ensures
            (match r {
                Some(v) => self.spec_floats(name@) == Some(v@),
                None => self.spec_floats(name@) is None,
            }),
    {
        match self.find(name) {
            Some(i) => match &self.entries[i].value {
                ParamValue::Floats(v) => Some(v),
                _ => None,
            },
            None => None,
        }
    }

    /// The integer array bound to `name`, if present with that kind.
    pub fn integers(&self, name: &str) -> (r: Option<&Vec<i32>>)
        ensures
            (match r {
                Some(v) => self.spec_integers(name@) == Some(v@),
                None => self.spec_integers(name@) is None,
            }),
    {
        match self.find(name) {
            Some(i) => match &self.entries[i].value {
                ParamValue::Integers(v) => Some(v),
                _ => None,
            },
            None => None,
        }
    }
}

} // verus!
