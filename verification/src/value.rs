//! Tagged values and the conventions by which plain values cross the boundary.

use vstd::prelude::*;

verus! {

/// The integer that stands for `false` on the foreign side.
pub const GFALSE: i32 = 0;

/// The integer that the host hands out for `true`.
pub const GTRUE: i32 = 1;

/// The runtime type tag of a [`Value`].
#[derive(Clone, Copy, Debug, PartialEq, Eq, Structural)]
pub enum Type {
    Bool,
    I32,
    U32,
    I64,
    U64,
    String,
}

/// A dynamically typed value: a runtime type tag together with its payload.
///
/// The variant is the tag, so a value can never carry a payload of another
/// type than its tag announces.
#[derive(Debug)]
pub enum Value {
    Bool(bool),
    I32(i32),
    U32(u32),
    I64(i64),
    U64(u64),
    String(String),
}

/// What a [`Value`] holds, as a mathematical value: the payload of a text is
/// its sequence of characters.
pub enum Content {
    Bool(bool),
    I32(i32),
    U32(u32),
    I64(i64),
    U64(u64),
    String(Seq<char>),
}

impl View for Value {
    type V = Content;

    open spec fn view(&self) -> Content {
        match *self {
            Value::Bool(b) => Content::Bool(b),
            Value::I32(n) => Content::I32(n),
            Value::U32(n) => Content::U32(n),
            Value::I64(n) => Content::I64(n),
            Value::U64(n) => Content::U64(n),
            Value::String(s) => Content::String(s@),
        }
    }
}

/// The tag that a content carries.
pub open spec fn type_of(c: Content) -> Type {
    match c {
        Content::Bool(_) => Type::Bool,
        Content::I32(_) => Type::I32,
        Content::U32(_) => Type::U32,
        Content::I64(_) => Type::I64,
        Content::U64(_) => Type::U64,
        Content::String(_) => Type::String,
    }
}

/// The content of a freshly initialised slot of tag `t`: zero, `false` or the
/// empty text.
pub open spec fn zero_of(t: Type) -> Content {
    match t {
        Type::Bool => Content::Bool(false),
        Type::I32 => Content::I32(0),
        Type::U32 => Content::U32(0),
        Type::I64 => Content::I64(0),
        Type::U64 => Content::U64(0),
        Type::String => Content::String(Seq::empty()),
    }
}

/// What the foreign side reads out of an integer truth value.
pub open spec fn truth_of(raw: i32) -> bool {
    raw != GFALSE
}

/// The integer by which the host writes a boolean.
pub open spec fn encoding_of(b: bool) -> i32 {
    if b {
        GTRUE
    } else {
        GFALSE
    }
}

impl Value {
    /// The runtime type tag of this value.
    pub fn type_(&self) -> (t: Type)
        ensures
            t == type_of(self@),
    {
        match self {
            Value::Bool(_) => Type::Bool,
            Value::I32(_) => Type::I32,
            Value::U32(_) => Type::U32,
            Value::I64(_) => Type::I64,
            Value::U64(_) => Type::U64,
            Value::String(_) => Type::String,
        }
    }

    /// The initial content of a slot that is declared to hold values of tag `t`.
    pub fn for_value_type(t: Type) -> (v: Value)
        ensures
            v@ == zero_of(t),
    {
        match t {
            Type::Bool => Value::Bool(false),
            Type::I32 => Value::I32(0),
            Type::U32 => Value::U32(0),
            Type::I64 => Value::I64(0),
            Type::U64 => Value::U64(0),
            Type::String => Value::String(String::new()),
        }
    }

    /// A copy of this value with a payload of its own; this value stays with the caller.
    pub fn copy(&self) -> (c: Value)
        ensures
            c@ == self@,
    {
        match self {
            Value::Bool(b) => Value::Bool(*b),
            Value::I32(n) => Value::I32(*n),
            Value::U32(n) => Value::U32(*n),
            Value::I64(n) => Value::I64(*n),
            Value::U64(n) => Value::U64(*n),
            Value::String(s) => Value::String(s.clone()),
        }
    }

    /// Whether two values carry the same tag and the same payload.
    pub fn same(&self, other: &Value) -> (r: bool)
        ensures
            r == (self@ == other@),
    {
        match (self, other) {
            (Value::Bool(a), Value::Bool(b)) => *a == *b,
            (Value::I32(a), Value::I32(b)) => *a == *b,
            (Value::U32(a), Value::U32(b)) => *a == *b,
            (Value::I64(a), Value::I64(b)) => *a == *b,
            (Value::U64(a), Value::U64(b)) => *a == *b,
            (Value::String(a), Value::String(b)) => *a == *b,
            _ => false,
        }
    }
}

/// Encodes a host boolean in the integer truth convention of the foreign side.
pub fn bool_into_glib(b: bool) -> (raw: i32)
    ensures
        raw == encoding_of(b),
        truth_of(raw) == b,
{
    if b {
        GTRUE
    } else {
        GFALSE
    }
}

/// Decodes an integer truth value: every non-zero integer is `true`.
pub fn bool_from_glib(raw: i32) -> (b: bool)
    ensures
        b == truth_of(raw),
{
    raw != GFALSE
}

/// Encoding a boolean and decoding it again gives the boolean back, and the
/// encoding of a decoded integer is the canonical one of its truth value.
pub proof fn lemma_bool_round_trip(b: bool, raw: i32)
    ensures
        truth_of(encoding_of(b)) == b,
        encoding_of(truth_of(raw)) == (if raw == 0 { 0i32 } else { 1i32 }),
{
}

} // verus!
