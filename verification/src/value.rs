//! The values that parsing produces.
use vstd::prelude::*;
use crate::error::Error;
use crate::error::ErrorView;

verus! {

/// The parsed value of a basic option.
#[derive(Debug)]
pub enum Leaf {
    Bool(bool),
    /// An integer of a signed type.
    Int(i128),
    /// An integer of an unsigned type.
    Uint(u128),
    /// A double-precision number, carried as its bit pattern.
    Num(u64),
    Str(String),
    Char(char),
    /// The snowflake of a user, channel, role, mentionable or attachment.
    Id(u64),
    /// The chosen variant of a choice enum, by position.
    Choice(usize),
    /// An optional option that was not given.
    Absent,
    /// An optional option that was given.
    Present(Box<Leaf>),
    /// A value of a newtype around another option type.
    Wrapped(Box<Leaf>),
}

/// The mathematical value of a [`Leaf`].
pub ghost enum LeafView {
    Bool(bool),
    Int(int),
    Num(u64),
    Str(Seq<char>),
    Char(char),
    Id(u64),
    Choice(int),
    Absent,
    Present(Box<LeafView>),
    Wrapped(Box<LeafView>),
}

/// The mathematical value of a leaf.
pub open spec fn leaf_view(leaf: Leaf) -> LeafView
    decreases leaf,
{
    match leaf {
        Leaf::Bool(b) => LeafView::Bool(b),
        Leaf::Int(i) => LeafView::Int(i as int),
        Leaf::Uint(i) => LeafView::Int(i as int),
        Leaf::Num(n) => LeafView::Num(n),
        Leaf::Str(s) => LeafView::Str(s@),
        Leaf::Char(c) => LeafView::Char(c),
        Leaf::Id(n) => LeafView::Id(n),
        Leaf::Choice(i) => LeafView::Choice(i as int),
        Leaf::Absent => LeafView::Absent,
        Leaf::Present(inner) => LeafView::Present(Box::new(leaf_view(*inner))),
        Leaf::Wrapped(inner) => LeafView::Wrapped(Box::new(leaf_view(*inner))),
    }
}

impl View for Leaf {
    type V = LeafView;

    open spec fn view(&self) -> LeafView {
        leaf_view(*self)
    }
}

/// The views of a list of leaves.
pub open spec fn leaves_view(leaves: Seq<Leaf>) -> Seq<LeafView> {
    Seq::new(leaves.len(), |i: int| leaves[i]@)
}

/// The parsed value of a command, sub-command group or sub-command.
#[derive(Debug)]
pub enum Value {
    /// A unit struct or unit variant.
    Unit,
    /// Named fields, in declaration order.
    Record(Vec<Leaf>),
    /// A newtype struct around the value of another declared type.
    Newtype(Box<Value>),
    /// An enum variant, by position, with what it holds.
    Variant(usize, Box<Value>),
}

/// The mathematical value of a [`Value`].
pub ghost enum ValueView {
    Unit,
    Record(Seq<LeafView>),
    Newtype(Box<ValueView>),
    Variant(int, Box<ValueView>),
}

/// The mathematical value of a parsed value.
pub open spec fn value_view(value: Value) -> ValueView
    decreases value,
{
    match value {
        Value::Unit => ValueView::Unit,
        Value::Record(fields) => ValueView::Record(leaves_view(fields@)),
        Value::Newtype(inner) => ValueView::Newtype(Box::new(value_view(*inner))),
        Value::Variant(i, inner) => ValueView::Variant(i as int, Box::new(value_view(*inner))),
    }
}

impl View for Value {
    type V = ValueView;

    open spec fn view(&self) -> ValueView {
        value_view(*self)
    }
}

/// The view of a parse result.
pub open spec fn leaf_result_view(r: Result<Leaf, Error>) -> Result<LeafView, ErrorView> {
    match r {
        Ok(v) => Ok(v@),
        Err(e) => Err(e@),
    }
}

/// The view of a parse result.
pub open spec fn result_view(r: Result<Value, Error>) -> Result<ValueView, ErrorView> {
    match r {
        Ok(v) => Ok(v@),
        Err(e) => Err(e@),
    }
}

} // verus!
