//! The contract between a tri-state field and a structured encoder.
//!
//! A structured format knows two states of a field: it is there, with a value
//! or a null, or it is not there. `Value` and `Null` are written as what they
//! are. `Void` is written by leaving the field out, which only the record can
//! do: it asks [`Maybe::is_void`] before it writes the field, and fills a
//! field that it did not find with [`Maybe::default`]. A `Void` that reaches
//! the encoder all the same is refused.

use vstd::prelude::*;
use crate::tristate::Maybe;

verus! {

/// What the encoder is told when it is handed a `Void`.
pub const MISSING_SKIP_ANNOTATION: &'static str =
    "'Maybe' fields need to be annotated with:\n        #[serde(default, skip_serializing_if = \"Maybe::is_void\")]\n        ";

impl<T> Maybe<T> {
    /// Writes a field that is present. A value is written by `emit_value`, as
    /// the bare value would be; a null by `emit_null`. A `Void` is an error,
    /// made by `make_error` from [`MISSING_SKIP_ANNOTATION`], and nothing is
    /// written.
    pub fn serialize_with<S, R, E, FV, FN, FE>(
        &self,
        serializer: S,
        emit_value: FV,
        emit_null: FN,
        make_error: FE,
    ) -> (r: Result<R, E>) where
        FV: FnOnce(&T, S) -> Result<R, E>,
        FN: FnOnce(S) -> Result<R, E>,
        FE: FnOnce(&'static str) -> E,

        requires
            match *self {
                Maybe::Value(v) => emit_value.requires((&v, serializer)),
                Maybe::Null => emit_null.requires((serializer,)),
                Maybe::Void => make_error.requires((MISSING_SKIP_ANNOTATION,)),
            },
        ensures
            match *self {
                Maybe::Value(v) => emit_value.ensures((&v, serializer), r),
                Maybe::Null => emit_null.ensures((serializer,), r),
                Maybe::Void => r is Err && make_error.ensures(
                    (MISSING_SKIP_ANNOTATION,),
                    r->Err_0,
                ),
            },
    {
        match self {
            Maybe::Value(value) => emit_value(value, serializer),
            Maybe::Null => emit_null(serializer),
            Maybe::Void => Err(make_error(MISSING_SKIP_ANNOTATION)),
        }
    }

    /// Reads a field that is present, from what decoding it as an `Option`
    /// gave: a null is `Null`, a value is `Value`, and a failure stays the
    /// failure it was. `Void` is never read: a field that is present is not
    /// absent.
    pub fn from_decoded<E>(decoded: Result<Option<T>, E>) -> (r: Result<Maybe<T>, E>)
        ensures
            r == (match decoded {
                Ok(option) => Ok(Maybe::from_option(option)),
                Err(e) => Err(e),
            }),
            r matches Ok(field) ==> !(field is Void),
    {
        match decoded {
            Ok(option) => Ok(Maybe::from(option)),
            Err(e) => Err(e),
        }
    }
}

} // verus!
