//! What holds of every tri-state value.

use vstd::prelude::*;
use vstd::std_specs::cmp::PartialEqSpec;
use async_graphql::Value;
use crate::input::is_null;
use crate::input::state_of;
use crate::tristate::Maybe;

verus! {

/// A value is in exactly one of the three states.
pub proof fn lemma_one_state<T>(maybe: Maybe<T>)
    ensures
        maybe is Void || maybe is Null || maybe is Value,
        !(maybe is Void && maybe is Null),
        !(maybe is Void && maybe is Value),
        !(maybe is Null && maybe is Value),
{
}

/// An `Option` that is turned into a tri-state value and back is what it
/// was, and on the way it is never `Void`.
pub proof fn lemma_option_round_trip<T>(option: Option<T>)
    ensures
        Maybe::from_option(option).to_option() == option,
        !(Maybe::from_option(option) is Void),
        option is None ==> Maybe::from_option(option) == Maybe::<T>::Null,
{
}

/// A tri-state value that is turned into an `Option` and back is what it
/// was, unless it was `Void`: that becomes `None` and comes back as `Null`.
pub proof fn lemma_maybe_round_trip<T>(maybe: Maybe<T>)
    ensures
        !(maybe is Void) ==> Maybe::from_option(maybe.to_option()) == maybe,
        maybe is Void ==> maybe.to_option() == None::<T>,
        maybe is Void ==> Maybe::from_option(maybe.to_option()) == Maybe::<T>::Null,
{
}

/// A present value goes through `Option` and back unchanged.
pub proof fn lemma_value_round_trip<T>(value: T)
    ensures
        Maybe::from_option(Maybe::Value(value).to_option()) == Maybe::Value(value),
{
}

/// A clone is in the state of the value that it was made from, and its
/// payload is a clone of that value's payload.
pub proof fn lemma_clone_keeps_state<T: Clone>(source: Maybe<T>, copy: Maybe<T>)
    requires
        source.cloned_to(copy),
    ensures
        source is Void <==> copy is Void,
        source is Null <==> copy is Null,
        source is Value <==> copy is Value,
        source matches Maybe::Value(v) ==> copy matches Maybe::Value(c) && cloned::<T>(v, c),
{
}

/// Where cloning the payload can only return the payload, a clone is equal to
/// the value that it was made from.
pub proof fn lemma_clone_is_equal<T: Clone>(source: Maybe<T>, copy: Maybe<T>)
    requires
        source.cloned_to(copy),
        source matches Maybe::Value(v) ==> forall|c: T| cloned::<T>(v, c) ==> c == v,
    ensures
        copy == source,
{
}

/// Values in different states are different, and `==` says so whatever the
/// payload is and whatever its own `==` does.
pub proof fn lemma_states_differ<T: PartialEq>(value: T)
    ensures
        Maybe::<T>::Void != Maybe::<T>::Null,
        Maybe::<T>::Null != Maybe::Value(value),
        Maybe::<T>::Void != Maybe::Value(value),
        !Maybe::<T>::Void.eq_spec(&Maybe::Null),
        !Maybe::<T>::Null.eq_spec(&Maybe::Void),
        !Maybe::<T>::Null.eq_spec(&Maybe::Value(value)),
        !Maybe::Value(value).eq_spec(&Maybe::Null),
        !Maybe::<T>::Void.eq_spec(&Maybe::Value(value)),
        !Maybe::Value(value).eq_spec(&Maybe::Void),
{
}

/// `==` holds of two values exactly when they are in the same state and, in
/// `Value`, the payload's `==` holds of their payloads.
pub proof fn lemma_eq_is_structural<T: PartialEq>(a: Maybe<T>, b: Maybe<T>)
    ensures
        a.eq_spec(&b) <==> {
            ||| a is Void && b is Void
            ||| a is Null && b is Null
            ||| a matches Maybe::Value(x) && b matches Maybe::Value(y) && x.eq_spec(&y)
        },
{
}

/// An argument is read as `Void` exactly when it was left out.
pub proof fn lemma_void_means_left_out(value: Option<Value>)
    ensures
        state_of(value) is Void <==> value is None,
        value matches Some(v) ==> (state_of(value) is Null <==> is_null(v)),
        value matches Some(v) ==> (state_of(value) == Maybe::Value(v) <==> !is_null(v)),
{
}

/// What `Void` and `Null` are written as is read back as `Null`: a query
/// value cannot say that nothing was supplied.
pub proof fn lemma_null_reads_as_null(written: Value)
    ensures
        is_null(written) ==> state_of(Some(written)) == Maybe::<Value>::Null,
{
}

} // verus!
