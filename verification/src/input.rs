//! Reading a tri-state value from a query argument, and writing it back.
//!
//! A query can leave an argument out, set it to `null`, or give it a value,
//! and reading keeps the three apart. Writing does not: a query value is
//! either `null` or a value, so `Void` and `Null` are both written as `null`.

use vstd::prelude::*;
use async_graphql::Value;
use crate::tristate::Maybe;

verus! {

/// `async_graphql::Value`, a resolved query value. Proofs see nothing of
/// what is inside one; it is told apart from `null` and handed on.
#[verifier::external_type_specification]
#[verifier::external_body]
pub struct ExValue(async_graphql::Value);

/// Whether a query value is the variant `Value::Null`.
pub uninterp spec fn is_null(value: Value) -> bool;

/// Matches a query value against `Value::Null`, the variant of the enum
/// `async_graphql::Value` that stands for `null`. Believed, not proved: the
/// answer is true for that variant and false for every other.
#[verifier::external_body]
fn value_is_null(value: &Value) -> (b: bool)
    ensures
        b == is_null(*value),
{
    matches!(value, Value::Null)
}

/// Builds the variant `Value::Null` of `async_graphql::Value`. Believed, not
/// proved: the result is the variant that `value_is_null` answers true to.
#[verifier::external_body]
fn null_value() -> (value: Value)
    ensures
        is_null(value),
{
    Value::Null
}

/// The state that an argument is in: one that was left out is `Void`, a
/// `null` is `Null`, and any other value is that `Value`.
pub open spec fn state_of(value: Option<Value>) -> Maybe<Value> {
    match value {
        None => Maybe::Void,
        Some(v) => if is_null(v) {
            Maybe::Null
        } else {
            Maybe::Value(v)
        },
    }
}

/// What reading an argument gives, from what reading its payload gave.
pub open spec fn lifted<T, E>(inner: Result<T, E>) -> Result<Maybe<T>, E> {
    match inner {
        Ok(v) => Ok(Maybe::Value(v)),
        Err(e) => Err(e),
    }
}

/// Sorts an argument into the state that it is in.
pub fn from_input(value: Option<Value>) -> (supplied: Maybe<Value>)
    ensures
        supplied == state_of(value),
{
    match value {
        None => Maybe::Void,
        Some(v) => if value_is_null(&v) {
            Maybe::Null
        } else {
            Maybe::Value(v)
        },
    }
}

impl<T> Maybe<T> {
    /// Reads the payload with `read` and keeps the state: `Void` and `Null`
    /// stay what they are and `read` is not asked; a payload becomes what
    /// `read` makes of it, or the error that `read` gives.
    pub fn try_map<U, E, F>(self, read: F) -> (r: Result<Maybe<U>, E>) where
        F: FnOnce(T) -> Result<U, E>,

        requires
            self matches Maybe::Value(v) ==> read.requires((v,)),
        ensures
            match self {
                Maybe::Void => r == Ok::<Maybe<U>, E>(Maybe::Void),
                Maybe::Null => r == Ok::<Maybe<U>, E>(Maybe::Null),
                Maybe::Value(v) => exists|inner: Result<U, E>|
                    read.ensures((v,), inner) && r == lifted(inner),
            },
    {
        match self {
            Maybe::Void => Ok(Maybe::Void),
            Maybe::Null => Ok(Maybe::Null),
            Maybe::Value(v) => {
                let inner = read(v);
                let r = match inner {
                    Ok(u) => Ok(Maybe::Value(u)),
                    Err(e) => Err(e),
                };
                assert(read.ensures((v,), inner) && r == lifted(inner));
                r
            },
        }
    }

    /// Reads an argument: one that was left out is `Void`, a `null` is
    /// `Null`, and any other value is handed to `parse`, whose outcome
    /// decides between a `Value` and an error.
    pub fn parse_with<E, F>(value: Option<Value>, parse: F) -> (r: Result<Maybe<T>, E>) where
        F: FnOnce(Value) -> Result<T, E>,

        requires
            value matches Some(v) ==> parse.requires((v,)),
        ensures
            match state_of(value) {
                Maybe::Void => r == Ok::<Maybe<T>, E>(Maybe::Void),
                Maybe::Null => r == Ok::<Maybe<T>, E>(Maybe::Null),
                Maybe::Value(v) => exists|inner: Result<T, E>|
                    parse.ensures((v,), inner) && r == lifted(inner),
            },
    {
        from_input(value).try_map(parse)
    }

    /// Writes the value back as a query value: a payload as `to_value` writes
    /// it, and both `Void` and `Null` as `null`.
    pub fn to_value_with<F>(&self, to_value: F) -> (r: Value) where F: FnOnce(&T) -> Value
        requires
            *self matches Maybe::Value(v) ==> to_value.requires((&v,)),
        ensures
            match *self {
                Maybe::Value(v) => to_value.ensures((&v,), r),
                _ => is_null(r),
            },
    {
        match self {
            Maybe::Value(value) => to_value(value),
            _ => null_value(),
        }
    }

    /// The raw value behind the payload, as `raw` finds it; `Void` and `Null`
    /// have none.
    pub fn as_raw_value_with<'a, W: ?Sized, F>(&'a self, raw: F) -> (r: Option<&'a W>) where
        F: FnOnce(&'a T) -> Option<&'a W>,

        requires
            *self matches Maybe::Value(v) ==> raw.requires((&v,)),
        ensures
            match *self {
                Maybe::Value(v) => raw.ensures((&v,), r),
                _ => r is None,
            },
    {
        if let Maybe::Value(value) = self {
            raw(value)
        } else {
            None
        }
    }
}

} // verus!
