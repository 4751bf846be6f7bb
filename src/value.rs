use vstd::prelude::*;

verus! {

/// A number as the template engine's dynamic values carry it.
///
/// A float is held as its IEEE-754 binary64 bit pattern, so that the
/// library can carry it and inspect it without floating-point arithmetic.
#[derive(Debug, Clone, PartialEq)]
pub enum Number {
    /// A signed integer.
    Int(i64),
    /// An unsigned integer.
    UInt(u64),
    /// A binary64 float, by its bit pattern.
    Float(u64),
}

/// A dynamically typed value handed to a filter or produced by one.
#[derive(Debug, PartialEq)]
pub enum Value {
    Null,
    Bool(bool),
    Number(Number),
    String(String),
    Array(Vec<Value>),
    Object(Vec<(String, Value)>),
}

impl Number {
    /// A copy of this number, equal to it.
    pub fn duplicate(&self) -> (r: Number)
        ensures
            r == *self,
    {
        match self {
            Number::Int(i) => Number::Int(*i),
            Number::UInt(u) => Number::UInt(*u),
            Number::Float(b) => Number::Float(*b),
        }
    }
}

/// What an error reports of a value that a filter could not take: its
/// variant, and its content where that is a scalar.
#[derive(Debug, Clone, PartialEq)]
pub enum Shape {
    Null,
    Bool(bool),
    Number(Number),
    String(String),
    Array,
    Object,
}

/// The shape of `v`.
pub open spec fn shape_of(v: Value) -> Shape {
    match v {
        Value::Null => Shape::Null,
        Value::Bool(b) => Shape::Bool(b),
        Value::Number(n) => Shape::Number(n),
        Value::String(s) => Shape::String(s),
        Value::Array(_) => Shape::Array,
        Value::Object(_) => Shape::Object,
    }
}

impl Value {
    /// The shape of this value.
    pub fn shape(&self) -> (r: Shape)
        ensures
            r == shape_of(*self),
    {
        match self {
            Value::Null => Shape::Null,
            Value::Bool(b) => Shape::Bool(*b),
            Value::Number(n) => Shape::Number(n.duplicate()),
            Value::String(s) => Shape::String(s.clone()),
            Value::Array(_) => Shape::Array,
            Value::Object(_) => Shape::Object,
        }
    }
}

/// The entry that a key maps to: the last one inserted under that key.
pub open spec fn lookup(entries: Seq<(String, Value)>, key: Seq<char>) -> Option<Value>
    decreases entries.len(),
{
    if entries.len() == 0 {
        None
    } else if entries.last().0@ == key {
        Some(entries.last().1)
    } else {
        lookup(entries.drop_last(), key)
    }
}

/// The named arguments of one filter call.
///
/// Inserting under a key that is already present shadows the earlier entry.
pub struct Args {
    entries: Vec<(String, Value)>,
}

impl View for Args {
    type V = Seq<(String, Value)>;

    closed spec fn view(&self) -> Seq<(String, Value)> {
        self.entries@
    }
}

impl Args {
    /// The argument named `key`, if there is one.
    pub open spec fn arg(&self, key: Seq<char>) -> Option<Value> {
        lookup(self@, key)
    }

    /// An empty argument map.
    pub fn new() -> (r: Args)
        ensures
            r@ == Seq::<(String, Value)>::empty(),
            forall|k: Seq<char>| r.arg(k) is None,
    {
        Args { entries: Vec::new() }
    }

    /// Sets the argument `key` to `value`.
    pub fn insert(&mut self, key: String, value: Value)
        ensures
            final(self)@ == old(self)@.push((key, value)),
            final(self).arg(key@) == Some(value),
            forall|k: Seq<char>| k != key@ ==> final(self).arg(k) == old(self).arg(k),
    {
        self.entries.push((key, value));
        proof {
            assert(self@.drop_last() =~= old(self)@);
        }
    }

    /// The argument named `key`, if there is one.
    pub fn get(&self, key: &str) -> (r: Option<&Value>)
        ensures
            match self.arg(key@) {
                Some(v) => r is Some && *r.unwrap() == v,
                None => r is None,
            },
    {
        let wanted = key.to_owned();
        let mut i: usize = self.entries.len();
        proof {
            assert(self.entries@.subrange(0, i as int) =~= self.entries@);
        }
        while i > 0
            invariant
                i <= self.entries@.len(),
                wanted@ == key@,
                lookup(self.entries@, key@) == lookup(self.entries@.subrange(0, i as int), key@),
            decreases i,
        {
            let ghost prefix = self.entries@.subrange(0, i as int);
            if self.entries[i - 1].0 == wanted {
                return Some(&self.entries[i - 1].1);
            }
            proof {
                assert(prefix.drop_last() =~= self.entries@.subrange(0, i - 1));
            }
            i = i - 1;
        }
        proof {
            assert(self.entries@.subrange(0, 0) =~= Seq::<(String, Value)>::empty());
        }
        None
    }
}

} // verus!
