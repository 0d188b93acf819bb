//! Autocomplete counterparts of declared types and the values they parse
//! to.
use vstd::prelude::*;
use crate::error::Error;
use crate::error::ErrorView;
use crate::partial::PartialOption;
use crate::value::Leaf;
use crate::value::LeafView;

verus! {

/// A trait for identifying types that support autocomplete interactions.
pub trait SupportsAutocomplete {
    /// The type of the autocomplete interaction.
    type Autocomplete;
}

/// A helper type alias for extracting the autocomplete type from a type
/// that supports autocomplete.
pub type Autocomplete<T> = <T as SupportsAutocomplete>::Autocomplete;

impl SupportsAutocomplete for crate::commands::Args {
    type Autocomplete = AutocompleteValue;
}

impl SupportsAutocomplete for crate::command::Args {
    type Autocomplete = AutocompleteValue;
}

impl SupportsAutocomplete for crate::sub_command_group::Args {
    type Autocomplete = AutocompleteValue;
}

impl SupportsAutocomplete for crate::sub_command::Args {
    type Autocomplete = AutocompleteValue;
}

/// A field of an autocomplete interaction: parsed in full, or coarsely
/// with the error that blocked the full parse.
pub type PartialLeaf = PartialOption<Leaf, Leaf>;

/// The mathematical value of a [`PartialLeaf`].
pub ghost enum PartialView {
    Value(LeafView),
    Partial(LeafView, ErrorView),
}

/// The mathematical value of a partially parsed field.
pub open spec fn partial_view(p: PartialLeaf) -> PartialView {
    match p {
        PartialOption::Value(v) => PartialView::Value(v@),
        PartialOption::Partial(v, e) => PartialView::Partial(v@, e@),
    }
}

/// The views of a list of partially parsed fields.
pub open spec fn partials_view(fields: Seq<PartialLeaf>) -> Seq<PartialView> {
    Seq::new(fields.len(), |i: int| partial_view(fields[i]))
}

/// The parsed value of an autocomplete interaction.
#[derive(Debug)]
pub enum AutocompleteValue {
    /// The field at position `field` is being typed; it holds the text
    /// typed so far, parsed under its own type, and its siblings hold what
    /// could be parsed of them.
    Focused { field: usize, fields: Vec<PartialLeaf> },
    /// A newtype struct around the autocomplete value of another type.
    Newtype(Box<AutocompleteValue>),
    /// An enum variant, by its position in the declared enum, with the
    /// autocomplete value of its inner type.
    Variant(usize, Box<AutocompleteValue>),
}

/// The mathematical value of an [`AutocompleteValue`].
pub ghost enum AutocompleteView {
    Focused { field: int, fields: Seq<PartialView> },
    Newtype(Box<AutocompleteView>),
    Variant(int, Box<AutocompleteView>),
}

/// The mathematical value of an autocomplete value.
pub open spec fn autocomplete_view(value: AutocompleteValue) -> AutocompleteView
    decreases value,
{
    match value {
        AutocompleteValue::Focused { field, fields } => AutocompleteView::Focused {
            field: field as int,
            fields: partials_view(fields@),
        },
        AutocompleteValue::Newtype(inner) => AutocompleteView::Newtype(Box::new(autocomplete_view(*inner))),
        AutocompleteValue::Variant(i, inner) => AutocompleteView::Variant(
            i as int,
            Box::new(autocomplete_view(*inner)),
        ),
    }
}

impl View for AutocompleteValue {
    type V = AutocompleteView;

    open spec fn view(&self) -> AutocompleteView {
        autocomplete_view(*self)
    }
}

/// The view of the result of an autocomplete parse.
pub open spec fn autocomplete_result_view(r: Result<AutocompleteValue, Error>) -> Result<
    AutocompleteView,
    ErrorView,
> {
    match r {
        Ok(v) => Ok(v@),
        Err(e) => Err(e@),
    }
}

/// The view of the result of a partial parse.
pub open spec fn partial_result_view(r: Result<PartialLeaf, Error>) -> Result<PartialView, ErrorView> {
    match r {
        Ok(v) => Ok(partial_view(v)),
        Err(e) => Err(e@),
    }
}

/// The autocomplete value of a newtype around an autocomplete value.
pub open spec fn newtype(r: Result<AutocompleteView, ErrorView>) -> Result<AutocompleteView, ErrorView> {
    match r {
        Ok(v) => Ok(AutocompleteView::Newtype(Box::new(v))),
        Err(e) => Err(e),
    }
}

/// The autocomplete value of the variant at position `i`.
pub open spec fn variant(i: int, r: Result<AutocompleteView, ErrorView>) -> Result<
    AutocompleteView,
    ErrorView,
> {
    match r {
        Ok(v) => Ok(AutocompleteView::Variant(i, Box::new(v))),
        Err(e) => Err(e),
    }
}

/// One field of a variant that stands for a flagged field.
#[derive(Debug)]
pub struct AutocompleteField {
    pub ident: String,
    /// The declared type of the field.
    pub ty: crate::decl::Type,
    /// Whether the field holds a partial option of its type. The flagged
    /// field holds its own type; every sibling holds a partial option.
    pub partial: bool,
}

/// What a variant of an autocomplete counterpart holds.
#[derive(Debug)]
pub enum AutocompletePayload {
    /// The fields of the struct, for a variant that stands for a flagged
    /// field.
    Fields(Vec<AutocompleteField>),
    /// The autocomplete counterpart of the declared type that the flagged
    /// variant wraps, by position, where it wraps one.
    Inner(Option<usize>),
}

/// One variant of the enum that stands for a declared type in autocomplete
/// interactions.
#[derive(Debug)]
pub struct AutocompleteVariant {
    pub ident: String,
    /// The position of the flagged field or variant that it stands for.
    pub index: usize,
    pub payload: AutocompletePayload,
}

/// The shape of an autocomplete counterpart.
#[derive(Debug)]
pub enum AutocompleteShape {
    /// An enum with one variant for each flagged field or variant.
    Enum(Vec<AutocompleteVariant>),
    /// A newtype struct around the counterpart of the inner type.
    Newtype,
}

/// The type that stands for a declared type in autocomplete interactions.
#[derive(Debug)]
pub struct AutocompleteType {
    pub ident: String,
    pub shape: AutocompleteShape,
}

} // verus!
