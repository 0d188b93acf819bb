//! Declarations of basic options: choice enums and newtypes around another
//! option type.
use vstd::prelude::*;
use crate::decl::BuilderMethodList;
use crate::decl::Primitive;
use crate::decl::Registry;
use crate::decl::Type;
use crate::error::Error;
use crate::error::ErrorView;
use crate::error::OptionKind;
use crate::utils::spec_decimal;
use crate::utils::spec_title_name;
use crate::utils::spec_to_kebab_case;
use crate::value::Leaf;
use crate::value::LeafView;
use crate::wire::OptionValue;

verus! {

/// The wire type of the choices of a choice enum.
#[derive(Clone, Copy, Debug, PartialEq, Eq, Structural)]
pub enum OptionType {
    String,
    Integer,
}

impl OptionType {
    /// The kind of option that carries a choice of this type.
    pub open spec fn spec_command_option_type(&self) -> OptionKind {
        match self {
            OptionType::String => OptionKind::String,
            OptionType::Integer => OptionKind::Integer,
        }
    }

    /// The kind of option that carries a choice of this type.
    pub fn command_option_type(&self) -> (k: OptionKind)
        ensures
            k == self.spec_command_option_type(),
    {
        match self {
            OptionType::String => OptionKind::String,
            OptionType::Integer => OptionKind::Integer,
        }
    }

    /// The coarse type of a choice enum with choices of this type.
    pub open spec fn spec_partial_type(&self) -> Primitive {
        match self {
            OptionType::String => Primitive::String,
            OptionType::Integer => Primitive::Integer(crate::decl::IntType::I64),
        }
    }

    /// The coarse type of a choice enum with choices of this type.
    pub fn partial_type(&self) -> (p: Primitive)
        ensures
            p == self.spec_partial_type(),
    {
        match self {
            OptionType::String => Primitive::String,
            OptionType::Integer => Primitive::Integer(crate::decl::IntType::I64),
        }
    }
}

/// A literal wire value of a choice.
#[derive(Debug)]
pub enum Lit {
    Str(String),
    Int(i64),
}

/// The mathematical value of a [`Lit`].
pub ghost enum LitView {
    Str(Seq<char>),
    Int(int),
}

impl View for Lit {
    type V = LitView;

    open spec fn view(&self) -> LitView {
        match self {
            Lit::Str(s) => LitView::Str(s@),
            Lit::Int(i) => LitView::Int(*i as int),
        }
    }
}

impl Lit {
    /// Whether this literal is of the given wire type.
    pub open spec fn has_type(&self, t: OptionType) -> bool {
        match self {
            Lit::Str(_) => t == OptionType::String,
            Lit::Int(_) => t == OptionType::Integer,
        }
    }

    /// A copy of this literal.
    pub fn duplicate(&self) -> (r: Lit)
        ensures
            r@ == self@,
    {
        match self {
            Lit::Str(s) => Lit::Str(s.clone()),
            Lit::Int(i) => Lit::Int(*i),
        }
    }

    /// Whether two literals are the same wire value.
    pub fn same(&self, other: &Lit) -> (b: bool)
        ensures
            b == (self@ == other@),
    {
        match (self, other) {
            (Lit::Str(a), Lit::Str(b)) => *a == *b,
            (Lit::Int(a), Lit::Int(b)) => *a == *b,
            _ => false,
        }
    }
}

/// One unit variant of a choice enum.
#[derive(Debug)]
pub struct ChoiceVariant {
    pub ident: String,
    /// The display name, where it is not the title-case identifier.
    pub name: Option<String>,
    /// The wire value, where it is not the kebab-case identifier.
    pub value: Option<Lit>,
}

impl ChoiceVariant {
    /// The display name of this choice.
    pub open spec fn spec_name(&self) -> Seq<char> {
        spec_title_name(self.ident@, self.name)
    }

    /// The wire value of this choice.
    pub open spec fn spec_value(&self) -> LitView {
        match self.value {
            Some(v) => v@,
            None => LitView::Str(spec_to_kebab_case(self.ident@)),
        }
    }

    /// Whether the wire value of this choice is of the given type.
    pub open spec fn has_type(&self, t: OptionType) -> bool {
        match self.value {
            Some(v) => v.has_type(t),
            None => t == OptionType::String,
        }
    }

    /// The display name of this choice.
    pub fn name(&self) -> (r: String)
        ensures
            r@ == self.spec_name(),
    {
        crate::utils::title_name(&self.ident, &self.name)
    }

    /// The wire value of this choice.
    pub fn value(&self) -> (r: Lit)
        ensures
            r@ == self.spec_value(),
    {
        match &self.value {
            Some(v) => v.duplicate(),
            None => Lit::Str(crate::utils::to_kebab_case(&self.ident)),
        }
    }

    /// The variant at position `index` as the parse of `choice`: it is
    /// chosen exactly when `choice` is its wire value.
    pub fn from_value(&self, index: usize, choice: &Lit) -> (r: Option<Leaf>)
        ensures
            r is Some <==> self.spec_value() == choice@,
            r matches Some(leaf) ==> leaf@ == LeafView::Choice(index as int),
    {
        let own = self.value();
        if own.same(choice) {
            Some(Leaf::Choice(index))
        } else {
            None
        }
    }
}

/// The position of the first choice at or after `k` whose wire value is
/// `choice`.
pub open spec fn find_choice(variants: Seq<ChoiceVariant>, choice: LitView, k: int) -> Option<int>
    decreases variants.len() - k,
{
    if k < 0 || k >= variants.len() {
        None
    } else if variants[k].spec_value() == choice {
        Some(k)
    } else {
        find_choice(variants, choice, k + 1)
    }
}

/// What a wire value parses to under a choice enum: the first choice with
/// that wire value.
pub open spec fn spec_choice_from_value(
    variants: Seq<ChoiceVariant>,
    option_type: OptionType,
    value: Option<OptionValue>,
) -> Result<LeafView, ErrorView> {
    match value {
        None => Err(ErrorView::MissingRequiredCommandOption),
        Some(v) => match (option_type, v) {
            (OptionType::String, OptionValue::String(s)) => match find_choice(
                variants,
                LitView::Str(s@),
                0,
            ) {
                Some(i) => Ok(LeafView::Choice(i)),
                None => Err(ErrorView::UnknownChoice(s@)),
            },
            (OptionType::Integer, OptionValue::Integer(n)) => match find_choice(
                variants,
                LitView::Int(n as int),
                0,
            ) {
                Some(i) => Ok(LeafView::Choice(i)),
                None => Err(ErrorView::UnknownChoice(spec_decimal(n as int))),
            },
            _ => Err(
                ErrorView::IncorrectCommandOptionType {
                    got: v.spec_kind(),
                    expected: option_type.spec_command_option_type(),
                },
            ),
        },
    }
}

/// What a basic option is declared as.
#[derive(Debug)]
pub enum Data {
    /// A newtype struct around another option type.
    Struct(Type),
    /// An enum of unit variants, each one choice.
    Enum(Vec<ChoiceVariant>),
}

/// The declaration of a basic option.
#[derive(Debug)]
pub struct Args {
    pub ident: String,
    pub data: Data,
    pub option_type: Option<OptionType>,
    pub builder: Option<BuilderMethodList>,
}

impl Args {
    /// Whether the declaration is accepted: a newtype names an option type
    /// declared earlier; a choice enum states the type of its choices, and
    /// every choice has a wire value of that type.
    pub open spec fn valid(&self, reg: &Registry, bound: int) -> bool {
        match self.data {
            Data::Struct(ty) => crate::option::type_ok(reg, ty, bound),
            Data::Enum(variants) => self.option_type is Some && forall|i: int|
                0 <= i < variants@.len() ==> (#[trigger] variants@[i]).has_type(self.option_type->0),
        }
    }

    /// What a wire value parses to under this declaration.
    pub open spec fn spec_from_value(&self, reg: &Registry, bound: int, value: Option<OptionValue>) -> Result<
        LeafView,
        ErrorView,
    >
        decreases bound, 2int,
    {
        match self.data {
            Data::Struct(ty) => match crate::option::spec_from_value(reg, bound, ty, value) {
                Ok(x) => Ok(LeafView::Wrapped(Box::new(x))),
                Err(e) => Err(e),
            },
            Data::Enum(variants) => match self.option_type {
                Some(t) => spec_choice_from_value(variants@, t, value),
                None => arbitrary(),
            },
        }
    }

    fn choose_variant(variants: &Vec<ChoiceVariant>, choice: &Lit) -> (r: Option<Leaf>)
        ensures
            r is Some <==> find_choice(variants@, choice@, 0) is Some,
            r matches Some(leaf) ==> leaf@ == LeafView::Choice(find_choice(variants@, choice@, 0)->0),
    {
        let mut k: usize = 0;
        while k < variants.len()
            invariant
                k <= variants.len(),
                find_choice(variants@, choice@, 0) == find_choice(variants@, choice@, k as int),
            decreases variants.len() - k,
        {
            match variants[k].from_value(k, choice) {
                Some(leaf) => {
                    return Some(leaf);
                },
                None => {},
            }
            k = k + 1;
        }
        None
    }

    /// Extracts a value of the declared type from a wire value.
    pub fn from_value(&self, reg: &Registry, bound: usize, value: Option<&OptionValue>) -> (r: Result<
        Leaf,
        Error,
    >)
        requires
            reg.wf(),
            bound <= reg.types@.len(),
            self.valid(reg, bound as int),
        ensures
            crate::value::leaf_result_view(r) == self.spec_from_value(reg, bound as int, crate::option::owned(value)),
        decreases bound, 2int,
    {
        match &self.data {
            Data::Struct(ty) => match crate::option::from_value(reg, bound, ty, value) {
                Ok(x) => Ok(Leaf::Wrapped(Box::new(x))),
                Err(e) => Err(e),
            },
            Data::Enum(variants) => {
                let t = match self.option_type {
                    Some(t) => t,
                    None => {
                        return Err(Error::MissingRequiredCommandOption);
                    },
                };
                let v = match value {
                    None => {
                        return Err(Error::MissingRequiredCommandOption);
                    },
                    Some(v) => v,
                };
                match (t, v) {
                    (OptionType::String, OptionValue::String(s)) => {
                        let choice = Lit::Str(s.clone());
                        match Self::choose_variant(variants, &choice) {
                            Some(leaf) => Ok(leaf),
                            None => Err(Error::UnknownChoice(s.clone())),
                        }
                    },
                    (OptionType::Integer, OptionValue::Integer(n)) => {
                        let choice = Lit::Int(*n);
                        match Self::choose_variant(variants, &choice) {
                            Some(leaf) => Ok(leaf),
                            None => Err(Error::UnknownChoice(crate::utils::decimal(*n))),
                        }
                    },
                    _ => Err(
                        Error::IncorrectCommandOptionType {
                            got: v.kind(),
                            expected: t.command_option_type(),
                        },
                    ),
                }
            },
        }
    }
}


/// The choices that a list of variants gives, in declaration order.
pub open spec fn spec_choices(variants: Seq<ChoiceVariant>) -> Seq<crate::schema::ChoiceView> {
    Seq::new(
        variants.len(),
        |i: int| crate::schema::ChoiceView { name: variants[i].spec_name(), value: variants[i].spec_value() },
    )
}

impl ChoiceVariant {
    /// The choice that this variant stands for: its display name and its
    /// wire value.
    pub fn create_option_choice(&self) -> (r: crate::schema::Choice)
        ensures
            r.name@ == self.spec_name(),
            r.value@ == self.spec_value(),
    {
        crate::schema::Choice { name: self.name(), value: self.value() }
    }
}

impl Args {
    /// The schema of an option of the declared type: a newtype has the
    /// schema of what it wraps; a choice enum is a required option of the
    /// type of its choices that lists them, followed by the extra builder
    /// calls.
    pub open spec fn spec_create_option(
        &self,
        reg: &Registry,
        bound: int,
        name: Seq<char>,
        description: Seq<char>,
    ) -> crate::schema::OptionView
        decreases bound, 2int,
    {
        match self.data {
            Data::Struct(ty) => crate::option::spec_create_option(reg, bound, ty, name, description),
            Data::Enum(variants) => crate::schema::OptionView {
                kind: match self.option_type {
                    Some(t) => t.spec_command_option_type(),
                    None => OptionKind::String,
                },
                name,
                description,
                required: true,
                autocomplete: false,
                min_length: None,
                max_length: None,
                choices: spec_choices(variants@),
                calls: crate::schema::builder_view(self.builder),
            },
        }
    }

    /// Creates the schema of an option of the declared type.
    pub fn create_option(&self, reg: &Registry, bound: usize, name: String, description: String) -> (r:
        crate::schema::CreateOption)
        requires
            reg.wf(),
            bound <= reg.types@.len(),
            self.valid(reg, bound as int),
        ensures
            r@ == self.spec_create_option(reg, bound as int, name@, description@),
        decreases bound, 2int,
    {
        match &self.data {
            Data::Struct(ty) => crate::option::create_option(reg, bound, ty, name, description),
            Data::Enum(variants) => {
                let kind = match self.option_type {
                    Some(t) => t.command_option_type(),
                    None => OptionKind::String,
                };
                let mut choices: Vec<crate::schema::Choice> = Vec::new();
                let mut i: usize = 0;
                while i < variants.len()
                    invariant
                        i <= variants.len(),
                        choices@.len() == i,
                        forall|k: int|
                            0 <= k < i ==> (#[trigger] choices@[k]).name@ == variants@[k].spec_name()
                                && choices@[k].value@ == variants@[k].spec_value(),
                    decreases variants.len() - i,
                {
                    choices.push(variants[i].create_option_choice());
                    i = i + 1;
                }
                let mut calls: Vec<crate::decl::DetachedMethodCall> = Vec::new();
                proof {
                    assert(crate::schema::calls_view(calls@) =~= Seq::empty());
                }
                crate::schema::append_builder(&mut calls, &self.builder);
                let r = crate::schema::CreateOption {
                    kind,
                    name,
                    description,
                    required: true,
                    autocomplete: false,
                    min_length: None,
                    max_length: None,
                    choices,
                    calls,
                };
                proof {
                    assert(r@.choices =~= spec_choices(variants@));
                    assert(r@.calls =~= crate::schema::builder_view(self.builder));
                }
                r
            },
        }
    }
}

} // verus!
