//! The context of one deserialization: the slot that receives the value, the
//! priority of the operation, and the one error it may report.

use vstd::prelude::*;
use crate::error::{Error, ErrorContent};
use crate::priority::Priority;
use crate::value::{type_of, zero_of, Content, Type, Value};

verus! {

/// The context of one deserialization.
///
/// The slot always holds a value of the declared type, and at most one error
/// is ever pending.
pub struct ContentDeserializer {
    gtype: Type,
    value: Value,
    priority: i32,
    error: Option<Error>,
}

/// What a [`ContentDeserializer`] holds, as a mathematical value.
pub struct DeserializerState {
    /// The tag that every value stored in this context carries.
    pub gtype: Type,
    /// The content of the destination slot.
    pub value: Content,
    /// The priority, as the integer that the foreign object stores.
    pub priority: i32,
    /// The pending error, once one was reported.
    pub error: Option<ErrorContent>,
}

/// Why a value was not stored: its tag is not the one that the context declares.
#[derive(Clone, Copy, Debug, PartialEq, Eq, Structural)]
pub struct TypeMismatch {
    /// The tag that the context declares.
    pub expected: Type,
    /// The tag of the value that was offered.
    pub found: Type,
}

/// The state of a context that was just created.
pub open spec fn fresh(gtype: Type, priority: i32) -> DeserializerState {
    DeserializerState { gtype, value: zero_of(gtype), priority, error: None }
}

/// The state after a value of the declared type was stored: only the slot changes.
pub open spec fn with_value(s: DeserializerState, v: Content) -> DeserializerState {
    DeserializerState { value: v, ..s }
}

/// The state after an error was reported: the first report fills the pending
/// slot, and every later report leaves the state as it is.
pub open spec fn with_error(s: DeserializerState, e: ErrorContent) -> DeserializerState {
    if s.error is None {
        DeserializerState { error: Some(e), ..s }
    } else {
        s
    }
}

/// The invariant of every context: the slot holds a value of the declared type.
pub open spec fn well_typed(s: DeserializerState) -> bool {
    type_of(s.value) == s.gtype
}

impl View for ContentDeserializer {
    type V = DeserializerState;

    closed spec fn view(&self) -> DeserializerState {
        DeserializerState {
            gtype: self.gtype,
            value: self.value@,
            priority: self.priority,
            error: match self.error {
                Some(e) => Some(e@),
                None => None,
            },
        }
    }
}

impl ContentDeserializer {
    #[verifier::type_invariant]
    spec fn inv(self) -> bool {
        type_of(self.value@) == self.gtype
    }

    /// A context that is to receive a value of tag `gtype`, scheduled at `priority`.
    pub fn new(gtype: Type, priority: Priority) -> (d: ContentDeserializer)
        ensures
            d@ == fresh(gtype, priority@),
    {
        ContentDeserializer {
            gtype,
            value: Value::for_value_type(gtype),
            priority: priority.into_glib(),
            error: None,
        }
    }

    /// The tag that this context declares for its value.
    pub fn type_(&self) -> (t: Type)
        ensures
            t == self@.gtype,
            well_typed(self@),
    {
        proof {
            use_type_invariant(self);
        }
        self.gtype
    }

    /// The value in the destination slot.
    pub fn value(&self) -> (v: &Value)
        ensures
            v@ == self@.value,
            type_of(v@) == self@.gtype,
    {
        proof {
            use_type_invariant(self);
        }
        &self.value
    }

    /// The pending error, once one was reported.
    pub fn error(&self) -> (e: Option<&Error>)
        ensures
            e is Some <==> self@.error is Some,
            e matches Some(err) ==> self@.error == Some(err@),
    {
        self.error.as_ref()
    }

    /// Copies `value` into the destination slot. The tag of `value` must be the
    /// declared one; nothing else of the context changes.
    pub fn set_value(&mut self, value: Value)
        requires
            type_of(value@) == old(self)@.gtype,
        ensures
            final(self)@ == with_value(old(self)@, value@),
    {
        self.value = value.copy();
    }

    /// Stores `value` if its tag is the declared one, and otherwise leaves the
    /// context as it is and says which tags disagreed.
    pub fn try_set_value(&mut self, value: Value) -> (r: Result<(), TypeMismatch>)
        ensures
            type_of(value@) == old(self)@.gtype ==> r is Ok && final(self)@ == with_value(
                old(self)@,
                value@,
            ),
            type_of(value@) != old(self)@.gtype ==> r == Err::<(), TypeMismatch>(
                TypeMismatch { expected: old(self)@.gtype, found: type_of(value@) },
            ) && final(self)@ == old(self)@,
    {
        let found = value.type_();
        let expected = self.gtype;
        if found == expected {
            self.set_value(value);
            Ok(())
        } else {
            Err(TypeMismatch { expected, found })
        }
    }

    /// The priority at which the operation is scheduled.
    pub fn priority(&self) -> (p: Priority)
        ensures
            p@ == self@.priority,
    {
        Priority::from_glib(self.priority)
    }

    /// Reports that the deserialization failed, and hands `error` over for good.
    ///
    /// Only the first report of a context counts: a later one changes nothing.
    pub fn return_error(&mut self, error: Error)
        ensures
            final(self)@ == with_error(old(self)@, error@),
    {
        proof {
            use_type_invariant(&*self);
        }
        if self.error.is_none() {
            self.error = Some(error);
        }
    }
}

/// A first report fills the pending slot with exactly the reported error, and
/// leaves the declared type, the value and the priority as they were.
pub proof fn lemma_first_error_is_kept(s: DeserializerState, e: ErrorContent)
    requires
        s.error is None,
    ensures
        with_error(s, e).error == Some(e),
        with_error(s, e).gtype == s.gtype,
        with_error(s, e).value == s.value,
        with_error(s, e).priority == s.priority,
{
}

/// Reporting is one-shot: whatever is reported after a first error, and
/// whatever is stored after it, the pending error stays the first one.
pub proof fn lemma_error_is_one_shot(
    s: DeserializerState,
    first: ErrorContent,
    second: ErrorContent,
    v: Content,
)
    requires
        s.error is None,
    ensures
        with_error(with_error(s, first), second) == with_error(s, first),
        with_value(with_error(s, first), v).error == Some(first),
        with_error(with_value(with_error(s, first), v), second).error == Some(first),
{
}

/// Storing a value and reporting an error act on different parts of the
/// state, so their order does not matter, and both keep the state well typed
/// as long as the stored value has the declared tag.
pub proof fn lemma_value_and_error_commute(s: DeserializerState, v: Content, e: ErrorContent)
    requires
        well_typed(s),
        type_of(v) == s.gtype,
    ensures
        with_error(with_value(s, v), e) == with_value(with_error(s, e), v),
        well_typed(with_value(s, v)),
        well_typed(with_error(s, e)),
{
}

} // verus!
