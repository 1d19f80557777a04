//! The carrier type, the questions that can be asked of it, and its
//! conversions to and from `Option`.

use vstd::prelude::*;
use vstd::std_specs::cmp::PartialEqSpec;
use vstd::std_specs::cmp::PartialEqSpecImpl;
use vstd::std_specs::convert::FromSpecImpl;

verus! {

/// A value that is absent, explicitly empty, or present.
#[derive(Debug)]
pub enum Maybe<T> {
    /// Nothing was supplied at all.
    Void,
    /// An explicit null was supplied.
    Null,
    /// A value was supplied.
    Value(T),
}

impl<T> Maybe<T> {
    /// The tri-state value that stands for an `Option`: a present value stays
    /// present and an absent one becomes `Null`. `Void` is never the result.
    pub open spec fn from_option(option: Option<T>) -> Maybe<T> {
        match option {
            Some(v) => Maybe::Value(v),
            None => Maybe::Null,
        }
    }

    /// The `Option` that is left when `Void` and `Null` are no longer told
    /// apart.
    pub open spec fn to_option(self) -> Option<T> {
        match self {
            Maybe::Value(v) => Some(v),
            _ => None,
        }
    }

    /// Whether nothing was supplied.
    pub fn is_void(&self) -> (b: bool)
        ensures
            b == (self is Void),
    {
        matches!(self, Maybe::Void)
    }

    /// Whether an explicit null was supplied.
    pub fn is_none(&self) -> (b: bool)
        ensures
            b == (self is Null),
    {
        matches!(self, Maybe::Null)
    }

    /// Whether a value was supplied.
    pub fn is_some(&self) -> (b: bool)
        ensures
            b == (self is Value),
    {
        matches!(self, Maybe::Value(_))
    }
}

impl<T: Clone> Maybe<T> {
    /// Whether `copy` is what cloning `self` may give: the same state, and in
    /// `Value` a payload that the payload's own `clone` may give.
    pub open spec fn cloned_to(self, copy: Maybe<T>) -> bool {
        match (self, copy) {
            (Maybe::Void, Maybe::Void) => true,
            (Maybe::Null, Maybe::Null) => true,
            (Maybe::Value(a), Maybe::Value(b)) => cloned::<T>(a, b),
            _ => false,
        }
    }
}

impl<T> Default for Maybe<T> {
    /// Absence is the neutral state.
    fn default() -> (r: Self)
        ensures
            r == Maybe::<T>::Void,
    {
        Maybe::Void
    }
}

impl<T: Clone> Clone for Maybe<T> {
    fn clone(&self) -> (r: Self)
        ensures
            self.cloned_to(r),
    {
        match self {
            Maybe::Void => Maybe::Void,
            Maybe::Null => Maybe::Null,
            Maybe::Value(value) => Maybe::Value(value.clone()),
        }
    }
}

impl<T: Copy> Copy for Maybe<T> {}

impl<T: PartialEq> PartialEq for Maybe<T> {
    /// Two values are equal when they are in the same state and, in `Value`,
    /// their payloads are equal.
    fn eq(&self, other: &Maybe<T>) -> (r: bool)
        ensures
            match (*self, *other) {
                (Maybe::Void, Maybe::Void) => r,
                (Maybe::Null, Maybe::Null) => r,
                (Maybe::Value(a), Maybe::Value(b)) => call_ensures(T::eq, (&a, &b), r),
                _ => !r,
            },
    {
        match (self, other) {
            (Maybe::Void, Maybe::Void) => true,
            (Maybe::Null, Maybe::Null) => true,
            (Maybe::Value(a), Maybe::Value(b)) => a.eq(b),
            _ => false,
        }
    }
}

impl<T: PartialEq> PartialEqSpecImpl for Maybe<T> {
    open spec fn obeys_eq_spec() -> bool {
        T::obeys_eq_spec()
    }

    open spec fn eq_spec(&self, other: &Maybe<T>) -> bool {
        match (self, other) {
            (Maybe::Void, Maybe::Void) => true,
            (Maybe::Null, Maybe::Null) => true,
            (Maybe::Value(a), Maybe::Value(b)) => a.eq_spec(b),
            _ => false,
        }
    }
}

impl<T: Eq> Eq for Maybe<T> {}

impl<T> From<Option<T>> for Maybe<T> {
    /// A present value stays present; an absent one is an explicit null.
    fn from(option: Option<T>) -> (r: Maybe<T>)
        ensures
            r == Maybe::from_option(option),
    {
        match option {
            Some(value) => Maybe::Value(value),
            None => Maybe::Null,
        }
    }
}

impl<T> FromSpecImpl<Option<T>> for Maybe<T> {
    open spec fn obeys_from_spec() -> bool {
        true
    }

    open spec fn from_spec(option: Option<T>) -> Maybe<T> {
        Maybe::from_option(option)
    }
}

impl<T> From<Maybe<T>> for Option<T> {
    /// A value stays a value; `Null` and `Void` both become `None`.
    fn from(maybe: Maybe<T>) -> (r: Option<T>)
        ensures
            r == maybe.to_option(),
    {
        match maybe {
            Maybe::Value(value) => Some(value),
            _ => None,
        }
    }
}

impl<T> FromSpecImpl<Maybe<T>> for Option<T> {
    open spec fn obeys_from_spec() -> bool {
        true
    }

    open spec fn from_spec(maybe: Maybe<T>) -> Option<T> {
        maybe.to_option()
    }
}

} // verus!
