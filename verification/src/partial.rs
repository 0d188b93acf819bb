//! Options that may be parsed only in part.
use vstd::prelude::*;
use crate::error::Error;

verus! {

/// A field which may be partially parsed.
///
/// This is used for fields which may not be fully parseable, such as when
/// handling autocomplete interactions. `T` is the type of the field and `P`
/// its coarse type.
#[derive(Debug)]
pub enum PartialOption<T, P> {
    /// A successfully parsed value.
    Value(T),
    /// A partially parsed value, along with the error that occurred while
    /// attempting to parse it.
    Partial(P, Error),
}

impl<T, P> PartialOption<T, P> {
    /// Whether this field is a parsed value, as a specification.
    pub open spec fn spec_is_value(&self) -> bool {
        self is Value
    }

    /// Extract the parsed value from this field.
    pub fn into_value(self) -> (r: Option<T>)
        ensures
            r == match self {
                PartialOption::Value(value) => Some(value),
                PartialOption::Partial(_, _) => None,
            },
    {
        match self {
            PartialOption::Value(value) => Some(value),
            PartialOption::Partial(_, _) => None,
        }
    }

    /// Extract the partially parsed value and the error that occurred
    /// while attempting to parse it from this field.
    pub fn into_partial(self) -> (r: Option<(P, Error)>)
        ensures
            r == match self {
                PartialOption::Value(_) => None,
                PartialOption::Partial(value, error) => Some((value, error)),
            },
    {
        match self {
            PartialOption::Value(_) => None,
            PartialOption::Partial(value, error) => Some((value, error)),
        }
    }

    /// Get a reference to the parsed value from this field.
    pub fn as_value(&self) -> (r: Option<&T>)
        ensures
            r == match self {
                PartialOption::Value(value) => Some(value),
                PartialOption::Partial(_, _) => None,
            },
    {
        match self {
            PartialOption::Value(value) => Some(value),
            PartialOption::Partial(_, _) => None,
        }
    }

    /// Get a reference to the partially parsed value and the error that
    /// occurred while attempting to parse it from this field.
    pub fn as_partial(&self) -> (r: Option<(&P, &Error)>)
        ensures
            r == match self {
                PartialOption::Value(_) => None,
                PartialOption::Partial(value, error) => Some((value, error)),
            },
    {
        match self {
            PartialOption::Value(_) => None,
            PartialOption::Partial(value, error) => Some((value, error)),
        }
    }

    /// Check if this field is a parsed value.
    pub fn is_value(&self) -> (r: bool)
        ensures
            r == (*self is Value),
    {
        match self {
            PartialOption::Value(_) => true,
            PartialOption::Partial(_, _) => false,
        }
    }

    /// Check if this field is a partially parsed value.
    pub fn is_partial(&self) -> (r: bool)
        ensures
            r == (*self is Partial),
    {
        match self {
            PartialOption::Value(_) => false,
            PartialOption::Partial(_, _) => true,
        }
    }
}

impl<T> PartialOption<T, T> {
    /// Convert this field into the parsed value, full or coarse.
    pub fn into_inner(self) -> (r: T)
        ensures
            r == match self {
                PartialOption::Value(value) => value,
                PartialOption::Partial(value, _) => value,
            },
    {
        match self {
            PartialOption::Value(value) => value,
            PartialOption::Partial(value, _) => value,
        }
    }

    /// Get a reference to the parsed value, full or coarse.
    pub fn as_inner(&self) -> (r: &T)
        ensures
            *r == match self {
                PartialOption::Value(value) => *value,
                PartialOption::Partial(value, _) => *value,
            },
    {
        match self {
            PartialOption::Value(value) => value,
            PartialOption::Partial(value, _) => value,
        }
    }
}

} // verus!
