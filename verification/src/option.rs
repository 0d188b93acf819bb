//! Basic options: the built-in option types and the dispatch from a field's
//! type to the implementation that builds and parses it.
use vstd::prelude::*;
use vstd::string::*;
use crate::decl::IntType;
use crate::decl::Primitive;
use crate::decl::Registry;
use crate::decl::Type;
use crate::decl::TypeDecl;
use crate::decl::TypeRef;
use crate::error::Error;
use crate::error::ErrorView;
use crate::error::OptionKind;
use crate::value::Leaf;
use crate::value::LeafView;
use crate::wire::OptionValue;

verus! {

impl IntType {
    /// The value of a 64-bit signed integer converted to this type: the
    /// integer itself where the type holds it, else what is left of it
    /// after truncation to the width of the type.
    pub open spec fn spec_convert(&self, i: i64) -> int {
        match self {
            IntType::U8 => (i as u8) as int,
            IntType::U16 => (i as u16) as int,
            IntType::U32 => (i as u32) as int,
            IntType::U64 => (i as u64) as int,
            IntType::U128 => (i as u128) as int,
            IntType::Usize => (i as usize) as int,
            IntType::I8 => (i as i8) as int,
            IntType::I16 => (i as i16) as int,
            IntType::I32 => (i as i32) as int,
            IntType::I64 => i as int,
            IntType::I128 => i as int,
            IntType::Isize => (i as isize) as int,
        }
    }

    /// Converts a 64-bit signed integer to this type.
    pub fn convert(&self, i: i64) -> (r: Leaf)
        ensures
            r@ == LeafView::Int(self.spec_convert(i)),
    {
        match self {
            IntType::U8 => Leaf::Uint((#[verifier::truncate] (i as u8)) as u128),
            IntType::U16 => Leaf::Uint((#[verifier::truncate] (i as u16)) as u128),
            IntType::U32 => Leaf::Uint((#[verifier::truncate] (i as u32)) as u128),
            IntType::U64 => Leaf::Uint((#[verifier::truncate] (i as u64)) as u128),
            IntType::U128 => Leaf::Uint(#[verifier::truncate] (i as u128)),
            IntType::Usize => Leaf::Uint((#[verifier::truncate] (i as usize)) as u128),
            IntType::I8 => Leaf::Int((#[verifier::truncate] (i as i8)) as i128),
            IntType::I16 => Leaf::Int((#[verifier::truncate] (i as i16)) as i128),
            IntType::I32 => Leaf::Int((#[verifier::truncate] (i as i32)) as i128),
            IntType::I64 => Leaf::Int(i as i128),
            IntType::I128 => Leaf::Int(i as i128),
            IntType::Isize => Leaf::Int((#[verifier::truncate] (i as isize)) as i128),
        }
    }
}

impl Primitive {
    /// The kind of option that carries a value of this type.
    pub open spec fn spec_kind(&self) -> OptionKind {
        match self {
            Primitive::String => OptionKind::String,
            Primitive::Boolean => OptionKind::Boolean,
            Primitive::Integer(_) => OptionKind::Integer,
            Primitive::Number => OptionKind::Number,
            Primitive::User => OptionKind::User,
            Primitive::Channel => OptionKind::Channel,
            Primitive::Role => OptionKind::Role,
            Primitive::Mentionable => OptionKind::Mentionable,
            Primitive::Attachment => OptionKind::Attachment,
            Primitive::Char => OptionKind::String,
        }
    }

    /// The kind of option that carries a value of this type.
    pub fn kind(&self) -> (k: OptionKind)
        ensures
            k == self.spec_kind(),
    {
        match self {
            Primitive::String => OptionKind::String,
            Primitive::Boolean => OptionKind::Boolean,
            Primitive::Integer(_) => OptionKind::Integer,
            Primitive::Number => OptionKind::Number,
            Primitive::User => OptionKind::User,
            Primitive::Channel => OptionKind::Channel,
            Primitive::Role => OptionKind::Role,
            Primitive::Mentionable => OptionKind::Mentionable,
            Primitive::Attachment => OptionKind::Attachment,
            Primitive::Char => OptionKind::String,
        }
    }

    /// The coarse type that a value of this type is parsed as when it
    /// cannot be parsed in full: the type itself, the 64-bit integer behind
    /// an integer, or the string behind a character.
    pub open spec fn spec_partial(&self) -> Primitive {
        match self {
            Primitive::Char => Primitive::String,
            Primitive::Integer(_) => Primitive::Integer(IntType::I64),
            p => *p,
        }
    }

    /// The coarse type of this type.
    pub fn partial(&self) -> (p: Primitive)
        ensures
            p == self.spec_partial(),
    {
        match self {
            Primitive::Char => Primitive::String,
            Primitive::Integer(_) => Primitive::Integer(IntType::I64),
            p => *p,
        }
    }

    /// What a wire value parses to under this type: a missing value and a
    /// value of another kind are errors; a character is a string of exactly
    /// one character.
    pub open spec fn spec_from_value(&self, value: Option<OptionValue>) -> Result<
        LeafView,
        ErrorView,
    > {
        match value {
            None => Err(ErrorView::MissingRequiredCommandOption),
            Some(v) => match (*self, v) {
                (Primitive::String, OptionValue::String(s)) => Ok(LeafView::Str(s@)),
                (Primitive::Boolean, OptionValue::Boolean(b)) => Ok(LeafView::Bool(b)),
                (Primitive::Integer(t), OptionValue::Integer(i)) => Ok(LeafView::Int(t.spec_convert(i))),
                (Primitive::Number, OptionValue::Number(n)) => Ok(LeafView::Num(n)),
                (Primitive::User, OptionValue::User(n)) => Ok(LeafView::Id(n)),
                (Primitive::Channel, OptionValue::Channel(n)) => Ok(LeafView::Id(n)),
                (Primitive::Role, OptionValue::Role(n)) => Ok(LeafView::Id(n)),
                (Primitive::Mentionable, OptionValue::Mentionable(n)) => Ok(LeafView::Id(n)),
                (Primitive::Attachment, OptionValue::Attachment(n)) => Ok(LeafView::Id(n)),
                (Primitive::Char, OptionValue::String(s)) => if s@.len() == 1 {
                    Ok(LeafView::Char(s@[0]))
                } else {
                    Err(ErrorView::Custom("expected single character"@))
                },
                _ => Err(
                    ErrorView::IncorrectCommandOptionType {
                        got: v.spec_kind(),
                        expected: self.spec_kind(),
                    },
                ),
            },
        }
    }

    /// Extracts a value of this type from a wire value.
    pub fn from_value(&self, value: Option<&OptionValue>) -> (r: Result<Leaf, Error>)
        ensures
            crate::value::leaf_result_view(r) == self.spec_from_value(owned(value)),
    {
        let v = match value {
            None => {
                return Err(Error::MissingRequiredCommandOption);
            },
            Some(v) => v,
        };
        match (self, v) {
            (Primitive::String, OptionValue::String(s)) => Ok(Leaf::Str(s.clone())),
            (Primitive::Boolean, OptionValue::Boolean(b)) => Ok(Leaf::Bool(*b)),
            (Primitive::Integer(t), OptionValue::Integer(i)) => Ok(t.convert(*i)),
            (Primitive::Number, OptionValue::Number(n)) => Ok(Leaf::Num(*n)),
            (Primitive::User, OptionValue::User(n)) => Ok(Leaf::Id(*n)),
            (Primitive::Channel, OptionValue::Channel(n)) => Ok(Leaf::Id(*n)),
            (Primitive::Role, OptionValue::Role(n)) => Ok(Leaf::Id(*n)),
            (Primitive::Mentionable, OptionValue::Mentionable(n)) => Ok(Leaf::Id(*n)),
            (Primitive::Attachment, OptionValue::Attachment(n)) => Ok(Leaf::Id(*n)),
            (Primitive::Char, OptionValue::String(s)) => {
                if s.as_str().unicode_len() == 1 {
                    Ok(Leaf::Char(s.as_str().get_char(0)))
                } else {
                    Err(Error::Custom(String::from_str("expected single character")))
                }
            },
            _ => Err(Error::IncorrectCommandOptionType { got: v.kind(), expected: self.kind() }),
        }
    }
}

/// The wire value behind an optional reference.
pub open spec fn owned(value: Option<&OptionValue>) -> Option<OptionValue> {
    match value {
        Some(v) => Some(*v),
        None => None,
    }
}

/// Whether a type expression names an option type that is declared before
/// `bound`.
pub open spec fn type_ok(reg: &Registry, ty: Type, bound: int) -> bool {
    match ty.base {
        TypeRef::Primitive(_) => true,
        TypeRef::Declared(j) => reg.is_basic_option(j as int, bound),
    }
}

/// What a wire value parses to under a base type.
pub open spec fn spec_base_from_value(
    reg: &Registry,
    bound: int,
    base: TypeRef,
    value: Option<OptionValue>,
) -> Result<LeafView, ErrorView>
    decreases bound, 0int,
{
    match base {
        TypeRef::Primitive(p) => p.spec_from_value(value),
        TypeRef::Declared(j) => if reg.is_basic_option(j as int, bound) {
            match reg.types@[j as int] {
                TypeDecl::BasicOption(a) => a.spec_from_value(reg, j as int, value),
                _ => arbitrary(),
            }
        } else {
            arbitrary()
        },
    }
}

/// What a wire value parses to under a type: an optional type accepts a
/// missing value and wraps a value that is there; any other type is its
/// base type.
pub open spec fn spec_from_value(
    reg: &Registry,
    bound: int,
    ty: Type,
    value: Option<OptionValue>,
) -> Result<LeafView, ErrorView>
    decreases bound, 1int,
{
    if ty.optional {
        match value {
            None => Ok(LeafView::Absent),
            Some(_) => match spec_base_from_value(reg, bound, ty.base, value) {
                Ok(x) => Ok(LeafView::Present(Box::new(x))),
                Err(e) => Err(e),
            },
        }
    } else {
        spec_base_from_value(reg, bound, ty.base, value)
    }
}

/// Extracts a value of a base type from a wire value.
pub fn base_from_value(reg: &Registry, bound: usize, base: &TypeRef, value: Option<&OptionValue>) -> (r:
    Result<Leaf, Error>)
    requires
        reg.wf(),
        bound <= reg.types@.len(),
        type_ok(reg, Type { base: *base, optional: false }, bound as int),
    ensures
        crate::value::leaf_result_view(r) == spec_base_from_value(reg, bound as int, *base, owned(value)),
    decreases bound, 0int,
{
    match base {
        TypeRef::Primitive(p) => p.from_value(value),
        TypeRef::Declared(j) => {
            proof {
                assert(reg.valid_at(*j as int));
            }
            match &reg.types[*j] {
                TypeDecl::BasicOption(a) => a.from_value(reg, *j, value),
                _ => Err(Error::MissingRequiredCommandOption),
            }
        },
    }
}

/// Extracts a value of a type from a wire value.
pub fn from_value(reg: &Registry, bound: usize, ty: &Type, value: Option<&OptionValue>) -> (r: Result<
    Leaf,
    Error,
>)
    requires
        reg.wf(),
        bound <= reg.types@.len(),
        type_ok(reg, *ty, bound as int),
    ensures
        crate::value::leaf_result_view(r) == spec_from_value(reg, bound as int, *ty, owned(value)),
    decreases bound, 1int,
{
    if ty.optional {
        match value {
            None => Ok(Leaf::Absent),
            Some(_) => match base_from_value(reg, bound, &ty.base, value) {
                Ok(x) => Ok(Leaf::Present(Box::new(x))),
                Err(e) => Err(e),
            },
        }
    } else {
        base_from_value(reg, bound, &ty.base, value)
    }
}


/// The coarse type of a base type: what a value is parsed as when it
/// cannot be parsed in full. A choice enum has the type of its choices, a
/// newtype the coarse type of what it wraps.
pub open spec fn spec_partial_type(reg: &Registry, bound: int, base: TypeRef) -> Primitive
    decreases bound,
{
    match base {
        TypeRef::Primitive(p) => p.spec_partial(),
        TypeRef::Declared(j) => if reg.is_basic_option(j as int, bound) {
            match reg.types@[j as int] {
                TypeDecl::BasicOption(a) => match a.data {
                    crate::basic_option::Data::Struct(ty) => spec_partial_type(reg, j as int, ty.base),
                    crate::basic_option::Data::Enum(_) => match a.option_type {
                        Some(t) => t.spec_partial_type(),
                        None => Primitive::String,
                    },
                },
                _ => arbitrary(),
            }
        } else {
            arbitrary()
        },
    }
}

/// The coarse type of a base type.
pub fn partial_type(reg: &Registry, bound: usize, base: &TypeRef) -> (r: Primitive)
    requires
        reg.wf(),
        bound <= reg.types@.len(),
        type_ok(reg, Type { base: *base, optional: false }, bound as int),
    ensures
        r == spec_partial_type(reg, bound as int, *base),
    decreases bound,
{
    match base {
        TypeRef::Primitive(p) => p.partial(),
        TypeRef::Declared(j) => {
            proof {
                assert(reg.valid_at(*j as int));
            }
            match &reg.types[*j] {
                TypeDecl::BasicOption(a) => match &a.data {
                    crate::basic_option::Data::Struct(ty) => partial_type(reg, *j, &ty.base),
                    crate::basic_option::Data::Enum(_) => match a.option_type {
                        Some(t) => t.partial_type(),
                        None => Primitive::String,
                    },
                },
                _ => Primitive::String,
            }
        },
    }
}

/// What a wire value parses to in an autocomplete interaction: the value
/// in full where that succeeds; else the value under the coarse type,
/// together with the error of the full parse; an error only where the
/// coarse parse fails too.
pub open spec fn spec_partial_from_value(
    reg: &Registry,
    bound: int,
    ty: Type,
    value: Option<OptionValue>,
) -> Result<crate::autocomplete::PartialView, ErrorView> {
    match spec_from_value(reg, bound, ty, value) {
        Ok(x) => Ok(crate::autocomplete::PartialView::Value(x)),
        Err(e) => match spec_partial_type(reg, bound, ty.base).spec_from_value(value) {
            Ok(p) => Ok(crate::autocomplete::PartialView::Partial(p, e)),
            Err(e2) => Err(e2),
        },
    }
}

/// Extracts a value from a wire value, in full or coarsely.
pub fn partial_from_value(reg: &Registry, bound: usize, ty: &Type, value: Option<&OptionValue>) -> (r: Result<
    crate::autocomplete::PartialLeaf,
    Error,
>)
    requires
        reg.wf(),
        bound <= reg.types@.len(),
        type_ok(reg, *ty, bound as int),
    ensures
        crate::autocomplete::partial_result_view(r) == spec_partial_from_value(
            reg,
            bound as int,
            *ty,
            owned(value),
        ),
{
    match from_value(reg, bound, ty, value) {
        Ok(x) => Ok(crate::partial::PartialOption::Value(x)),
        Err(e) => match partial_type(reg, bound, &ty.base).from_value(value) {
            Ok(p) => Ok(crate::partial::PartialOption::Partial(p, e)),
            Err(e2) => Err(e2),
        },
    }
}


/// The schema of an option of a built-in type: required, of the kind that
/// carries the type; a character is a string of length one.
pub open spec fn spec_primitive_option(
    p: Primitive,
    name: Seq<char>,
    description: Seq<char>,
) -> crate::schema::OptionView {
    crate::schema::OptionView {
        kind: p.spec_kind(),
        name,
        description,
        required: true,
        autocomplete: false,
        min_length: if p == Primitive::Char {
            Some(1u16)
        } else {
            None
        },
        max_length: if p == Primitive::Char {
            Some(1u16)
        } else {
            None
        },
        choices: Seq::empty(),
        calls: Seq::empty(),
    }
}

/// The schema of an option of a base type.
pub open spec fn spec_base_create_option(
    reg: &Registry,
    bound: int,
    base: TypeRef,
    name: Seq<char>,
    description: Seq<char>,
) -> crate::schema::OptionView
    decreases bound, 0int,
{
    match base {
        TypeRef::Primitive(p) => spec_primitive_option(p, name, description),
        TypeRef::Declared(j) => if reg.is_basic_option(j as int, bound) {
            match reg.types@[j as int] {
                TypeDecl::BasicOption(a) => a.spec_create_option(reg, j as int, name, description),
                _ => arbitrary(),
            }
        } else {
            arbitrary()
        },
    }
}

/// The schema of an option of a type: that of its base type, not required
/// where the type is optional.
pub open spec fn spec_create_option(
    reg: &Registry,
    bound: int,
    ty: Type,
    name: Seq<char>,
    description: Seq<char>,
) -> crate::schema::OptionView
    decreases bound, 1int,
{
    let o = spec_base_create_option(reg, bound, ty.base, name, description);
    if ty.optional {
        crate::schema::OptionView { required: false, ..o }
    } else {
        o
    }
}

impl Primitive {
    /// Creates the schema of an option of this type.
    pub fn create_option(&self, name: String, description: String) -> (r: crate::schema::CreateOption)
        ensures
            r@ == spec_primitive_option(*self, name@, description@),
    {
        let length = match self {
            Primitive::Char => Some(1u16),
            _ => None,
        };
        let r = crate::schema::CreateOption {
            kind: self.kind(),
            name,
            description,
            required: true,
            autocomplete: false,
            min_length: length,
            max_length: length,
            choices: Vec::new(),
            calls: Vec::new(),
        };
        proof {
            assert(r@.choices =~= Seq::empty());
            assert(r@.calls =~= Seq::empty());
        }
        r
    }
}

/// Creates the schema of an option of a base type.
pub fn base_create_option(reg: &Registry, bound: usize, base: &TypeRef, name: String, description: String) -> (r:
    crate::schema::CreateOption)
    requires
        reg.wf(),
        bound <= reg.types@.len(),
        type_ok(reg, Type { base: *base, optional: false }, bound as int),
    ensures
        r@ == spec_base_create_option(reg, bound as int, *base, name@, description@),
    decreases bound, 0int,
{
    match base {
        TypeRef::Primitive(p) => p.create_option(name, description),
        TypeRef::Declared(j) => {
            proof {
                assert(reg.valid_at(*j as int));
            }
            match &reg.types[*j] {
                TypeDecl::BasicOption(a) => a.create_option(reg, *j, name, description),
                _ => Primitive::String.create_option(name, description),
            }
        },
    }
}

/// Creates the schema of an option of a type.
pub fn create_option(reg: &Registry, bound: usize, ty: &Type, name: String, description: String) -> (r:
    crate::schema::CreateOption)
    requires
        reg.wf(),
        bound <= reg.types@.len(),
        type_ok(reg, *ty, bound as int),
    ensures
        r@ == spec_create_option(reg, bound as int, *ty, name@, description@),
    decreases bound, 1int,
{
    let mut o = base_create_option(reg, bound, &ty.base, name, description);
    if ty.optional {
        o.required = false;
    }
    o
}

} // verus!
