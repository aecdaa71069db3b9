//! Integers that are never zero.

use vstd::prelude::*;

verus! {

/// A `u16` that is never zero.
#[derive(Debug, Clone, Copy, PartialEq, Eq, PartialOrd, Ord, Hash, Structural)]
pub struct NonZeroU16 {
    value: u16,
}

impl View for NonZeroU16 {
    type V = u16;

    closed spec fn view(&self) -> u16 {
        self.value
    }
}

impl NonZeroU16 {
    #[verifier::type_invariant]
    spec fn inv(self) -> bool {
        self.value != 0
    }

    /// Wraps `value`, or returns `None` when it is zero.
    pub fn new(value: u16) -> (result: Option<Self>)
        ensures
            result is Some <==> value != 0,
            result is Some ==> result->0@ == value,
    {
        if value == 0 {
            None
        } else {
            Some(Self { value })
        }
    }

    /// Returns the wrapped integer.
    pub fn get(self) -> (value: u16)
        ensures
            value == self@,
            value != 0,
    {
        proof {
            use_type_invariant(&self);
        }
        self.value
    }

    /// Two wrapped integers are the same value when their views are.
    pub broadcast proof fn view_is_injective(a: Self, b: Self)
        requires
            #[trigger] a@ == #[trigger] b@,
        ensures
            a == b,
    {
    }
}

/// A `u32` that is never zero.
#[derive(Debug, Clone, Copy, PartialEq, Eq, PartialOrd, Ord, Hash, Structural)]
pub struct NonZeroU32 {
    value: u32,
}

impl View for NonZeroU32 {
    type V = u32;

    closed spec fn view(&self) -> u32 {
        self.value
    }
}

impl NonZeroU32 {
    #[verifier::type_invariant]
    spec fn inv(self) -> bool {
        self.value != 0
    }

    /// Wraps `value`, or returns `None` when it is zero.
    pub fn new(value: u32) -> (result: Option<Self>)
        ensures
            result is Some <==> value != 0,
            result is Some ==> result->0@ == value,
    {
        if value == 0 {
            None
        } else {
            Some(Self { value })
        }
    }

    /// The number one.
    pub(crate) fn one() -> (one: Self)
        ensures
            one@ == 1,
    {
        Self { value: 1 }
    }

    /// Returns the wrapped integer.
    pub fn get(self) -> (value: u32)
        ensures
            value == self@,
            value != 0,
    {
        proof {
            use_type_invariant(&self);
        }
        self.value
    }

    /// Two wrapped integers are the same value when their views are.
    pub broadcast proof fn view_is_injective(a: Self, b: Self)
        requires
            #[trigger] a@ == #[trigger] b@,
        ensures
            a == b,
    {
    }
}

/// A `u64` that is never zero.
#[derive(Debug, Clone, Copy, PartialEq, Eq, PartialOrd, Ord, Hash, Structural)]
pub struct NonZeroU64 {
    value: u64,
}

impl View for NonZeroU64 {
    type V = u64;

    closed spec fn view(&self) -> u64 {
        self.value
    }
}

impl NonZeroU64 {
    #[verifier::type_invariant]
    spec fn inv(self) -> bool {
        self.value != 0
    }

    /// Wraps `value`, or returns `None` when it is zero.
    pub fn new(value: u64) -> (result: Option<Self>)
        ensures
            result is Some <==> value != 0,
            result is Some ==> result->0@ == value,
    {
        if value == 0 {
            None
        } else {
            Some(Self { value })
        }
    }

    /// Returns the wrapped integer.
    pub fn get(self) -> (value: u64)
        ensures
            value == self@,
            value != 0,
    {
        proof {
            use_type_invariant(&self);
        }
        self.value
    }

    /// Two wrapped integers are the same value when their views are.
    pub broadcast proof fn view_is_injective(a: Self, b: Self)
        requires
            #[trigger] a@ == #[trigger] b@,
        ensures
            a == b,
    {
    }
}

} // verus!
