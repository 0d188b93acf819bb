//! Acceptance of declarations. Every problem of a declaration is recorded
//! in an accumulator, not only the first.
use vstd::prelude::*;
use vstd::string::*;
use crate::decl::Fields;
use crate::decl::Registry;
use crate::decl::Style;
use crate::decl::Type;
use crate::decl::TypeDecl;
use crate::decl::TypeRef;
use crate::field::Field;
use crate::field::all_valid;
use crate::variant::Variant;
use crate::variant::any_autocomplete;

verus! {

/// What can be wrong with a declaration.
#[derive(Clone, Copy, Debug, PartialEq, Eq, Structural)]
pub enum Problem {
    /// There is no documentation to use as description.
    MissingDocumentation,
    /// A named field has no identifier.
    MissingIdent,
    /// A type expression does not name an option type declared earlier.
    NotAnOption,
    /// A tuple shape does not wrap exactly one declared type of the role
    /// that is asked for there.
    UnsupportedInner,
    /// The autocomplete flag stands on a variant with named fields.
    AutocompleteOnStruct,
    /// The autocomplete flag stands on a unit variant.
    AutocompleteOnUnit,
    /// The autocomplete flag stands on a newtype whose inner type has no
    /// autocomplete counterpart.
    AutocompleteUnsupported,
    /// A choice enum does not state the type of its choices.
    MissingOptionType,
    /// The wire value of a choice is not of the type of the enum's
    /// choices.
    ChoiceType,
}

impl Problem {
    /// The message of the problem, as a specification.
    pub open spec fn spec_message(&self) -> Seq<char> {
        match self {
            Problem::MissingDocumentation => "missing documentation comment (`///`) to use as description"@,
            Problem::MissingIdent => "named field without an identifier"@,
            Problem::NotAnOption => "type is no option type that is built in or declared before"@,
            Problem::UnsupportedInner => "tuple shape must wrap one declared type of the role that is asked for"@,
            Problem::AutocompleteOnStruct => "#[command(autocomplete)] is not supported on struct variants"@,
            Problem::AutocompleteOnUnit => "#[command(autocomplete)] is not supported on unit variants"@,
            Problem::AutocompleteUnsupported => "#[command(autocomplete)] needs an inner type with an autocomplete counterpart"@,
            Problem::MissingOptionType => "missing #[option(option_type = ...)] attribute"@,
            Problem::ChoiceType => "value of the choice is not of the option type"@,
        }
    }

    /// The message of the problem.
    pub fn message(&self) -> (r: &'static str)
        ensures
            r@ == self.spec_message(),
    {
        match self {
            Problem::MissingDocumentation => "missing documentation comment (`///`) to use as description",
            Problem::MissingIdent => "named field without an identifier",
            Problem::NotAnOption => "type is no option type that is built in or declared before",
            Problem::UnsupportedInner => "tuple shape must wrap one declared type of the role that is asked for",
            Problem::AutocompleteOnStruct => "#[command(autocomplete)] is not supported on struct variants",
            Problem::AutocompleteOnUnit => "#[command(autocomplete)] is not supported on unit variants",
            Problem::AutocompleteUnsupported => "#[command(autocomplete)] needs an inner type with an autocomplete counterpart",
            Problem::MissingOptionType => "missing #[option(option_type = ...)] attribute",
            Problem::ChoiceType => "value of the choice is not of the option type",
        }
    }
}

/// The text under which a problem is recorded: its message, and the
/// identifier of the declaration, variant or field where it was found.
pub open spec fn spec_text(problem: Problem, ident: Seq<char>) -> Seq<char> {
    problem.spec_message() + ": "@ + ident
}

/// The text under which a problem is recorded.
pub fn text(problem: Problem, ident: &String) -> (r: String)
    ensures
        r@ == spec_text(problem, ident@),
{
    let mut r = String::from_str(problem.message());
    r.append(": ");
    r.append(ident.as_str());
    r
}

/// The accumulator of `darling`, which collects the errors of a pass so
/// that all of them are reported, not only the first.
#[verifier::external_type_specification]
#[verifier::external_body]
pub struct ExAccumulator(darling::error::Accumulator);

/// The messages of the errors that an accumulator holds, in the order in
/// which they were pushed.
pub uninterp spec fn accumulated(acc: darling::error::Accumulator) -> Seq<Seq<char>>;

/// Calls `darling::Error::accumulator`. Taken on trust: the new
/// accumulator holds no error.
#[verifier::external_body]
fn new_accumulator() -> (acc: darling::error::Accumulator)
    ensures
        accumulated(acc) == Seq::<Seq<char>>::empty(),
{
    darling::Error::accumulator()
}

/// Calls `darling::error::Accumulator::push` with the error that
/// `darling::Error::custom` makes of a message. Taken on trust: the
/// accumulator then holds what it held, followed by that message.
#[verifier::external_body]
fn push_custom(acc: &mut darling::error::Accumulator, message: &str)
    ensures
        accumulated(*final(acc)) == accumulated(*old(acc)).push(message@),
{
    acc.push(darling::Error::custom(message));
}

/// Calls `darling::error::Accumulator::into_inner` and hands out the
/// message of each error. Taken on trust: these are the messages that the
/// accumulator held, in order.
#[verifier::external_body]
fn into_messages(acc: darling::error::Accumulator) -> (r: Vec<String>)
    ensures
        texts(r@) == accumulated(acc),
{
    acc.into_inner().into_iter().map(|e| e.to_string()).collect()
}

/// The characters of each text of a list.
pub open spec fn texts(list: Seq<String>) -> Seq<Seq<char>> {
    Seq::new(list.len(), |i: int| list[i]@)
}

/// The problem that is recorded where a condition holds, and nothing where
/// it does not.
pub open spec fn when(condition: bool, problem: Problem, ident: Seq<char>) -> Seq<Seq<char>> {
    if condition {
        seq![spec_text(problem, ident)]
    } else {
        Seq::empty()
    }
}

/// What a validation step does to the accumulator: it adds the problems
/// that it found behind what was recorded before, and is passed exactly
/// when it found none.
pub open spec fn recorded(
    ok: bool,
    before: darling::error::Accumulator,
    after: darling::error::Accumulator,
    found: Seq<Seq<char>>,
) -> bool {
    &&& accumulated(after) == accumulated(before) + found
    &&& ok == (found.len() == 0)
}

/// Records a problem.
pub fn push(acc: &mut darling::error::Accumulator, problem: Problem, ident: &String)
    ensures
        accumulated(*final(acc)) == accumulated(*old(acc)) + when(true, problem, ident@),
{
    let message = text(problem, ident);
    push_custom(acc, message.as_str());
    proof {
        assert(accumulated(*acc) =~= accumulated(*old(acc)) + when(true, problem, ident@));
    }
}

/// Records a problem where a condition holds.
pub fn push_when(condition: bool, acc: &mut darling::error::Accumulator, problem: Problem, ident: &String)
    ensures
        accumulated(*final(acc)) == accumulated(*old(acc)) + when(condition, problem, ident@),
{
    if condition {
        push(acc, problem, ident);
    } else {
        proof {
            assert(accumulated(*acc) =~= accumulated(*old(acc)) + when(condition, problem, ident@));
        }
    }
}

/// The role that a declared type is asked to have where it is wrapped.
#[derive(Clone, Copy, Debug, PartialEq, Eq, Structural)]
pub enum Role {
    Command,
    SubCommandGroup,
    SubCommand,
}

impl Registry {
    /// Whether `j` names a declared type of the given role before
    /// `bound`, as a specification.
    pub open spec fn has_role(&self, j: int, bound: int, role: Role) -> bool {
        match role {
            Role::Command => self.is_command(j, bound),
            Role::SubCommandGroup => self.is_sub_command_group(j, bound),
            Role::SubCommand => self.is_sub_command(j, bound),
        }
    }

    /// Whether `j` names a declared type of the given role before `bound`.
    pub fn check_role(&self, j: usize, bound: usize, role: Role) -> (r: bool)
        ensures
            r == self.has_role(j as int, bound as int, role),
    {
        if j >= bound || j >= self.types.len() {
            return false;
        }
        match (&self.types[j], role) {
            (TypeDecl::Command(_), Role::Command) => true,
            (TypeDecl::SubCommandGroup(_), Role::SubCommandGroup) => true,
            (TypeDecl::SubCommand(_), Role::SubCommandGroup) => true,
            (TypeDecl::SubCommand(_), Role::SubCommand) => true,
            _ => false,
        }
    }

    /// Whether a type expression names an option type declared before
    /// `bound`.
    pub fn check_type(&self, ty: &Type, bound: usize) -> (r: bool)
        ensures
            r == crate::option::type_ok(self, *ty, bound as int),
    {
        match ty.base {
            TypeRef::Primitive(_) => true,
            TypeRef::Declared(j) => {
                if j >= bound || j >= self.types.len() {
                    return false;
                }
                match &self.types[j] {
                    TypeDecl::BasicOption(_) => true,
                    _ => false,
                }
            },
        }
    }

    /// Whether the declared type at `j` has an autocomplete counterpart.
    pub fn has_autocomplete(&self, j: usize) -> (r: bool)
        requires
            j < self.types@.len(),
        ensures
            r == self.supports_autocomplete(j as int),
    {
        match &self.types[j] {
            TypeDecl::Commands(a) => Variant::any_flagged(&a.data),
            TypeDecl::Command(a) => match &a.data {
                crate::command::Data::Struct(fields) => fields.has_autocomplete(),
                crate::command::Data::Enum(variants) => Variant::any_flagged(variants),
            },
            TypeDecl::SubCommandGroup(a) => Variant::any_flagged(&a.data),
            TypeDecl::SubCommand(a) => a.data.has_autocomplete(),
            TypeDecl::BasicOption(_) => false,
        }
    }
}

impl Fields {
    /// The problems of a tuple shape that is asked to wrap one declared
    /// type of a role, with an autocomplete counterpart where `flagged`
    /// says that one is needed.
    pub open spec fn spec_inner_problems(
        &self,
        reg: &Registry,
        bound: int,
        role: Role,
        flagged: bool,
        ident: Seq<char>,
    ) -> Seq<Seq<char>> {
        match self.spec_inner() {
            None => when(true, Problem::UnsupportedInner, ident),
            Some(j) => if !reg.has_role(j as int, bound, role) {
                when(true, Problem::UnsupportedInner, ident)
            } else {
                when(flagged && !reg.supports_autocomplete(j as int), Problem::AutocompleteUnsupported, ident)
            },
        }
    }

    /// Validates a tuple shape: it wraps exactly one declared type of the
    /// given role, and that type has an autocomplete counterpart where
    /// `flagged` says that one is needed.
    pub fn validate_inner(
        &self,
        reg: &Registry,
        bound: usize,
        role: Role,
        flagged: bool,
        ident: &String,
        acc: &mut darling::error::Accumulator,
    ) -> (ok: bool)
        requires
            bound <= reg.types@.len(),
        ensures
            ok == (self.spec_inner() is Some && reg.has_role(self.spec_inner()->0 as int, bound as int, role) && (
            flagged ==> reg.supports_autocomplete(self.spec_inner()->0 as int))),
            recorded(
                ok,
                *old(acc),
                *final(acc),
                self.spec_inner_problems(reg, bound as int, role, flagged, ident@),
            ),
    {
        match self.inner() {
            None => {
                push(acc, Problem::UnsupportedInner, ident);
                false
            },
            Some(j) => {
                if !reg.check_role(j, bound, role) {
                    push(acc, Problem::UnsupportedInner, ident);
                    false
                } else {
                    let missing = flagged && !reg.has_autocomplete(j);
                    push_when(missing, acc, Problem::AutocompleteUnsupported, ident);
                    !missing
                }
            },
        }
    }
}

/// The identifier under which the problems of a field are recorded: its
/// own, or nothing where it has none.
pub open spec fn field_ident(f: &Field) -> Seq<char> {
    match f.ident {
        Some(i) => i@,
        None => Seq::empty(),
    }
}

/// The problems of the first `n` fields of a list, in declaration order.
pub open spec fn fields_problems(fields: Seq<Field>, reg: &Registry, bound: int, n: nat) -> Seq<Seq<char>>
    decreases n,
{
    if n == 0 {
        Seq::empty()
    } else {
        fields_problems(fields, reg, bound, (n - 1) as nat) + fields[n - 1].spec_problems(reg, bound)
    }
}

impl Field {
    /// The problems of a named field that stands for one option: a missing
    /// identifier, missing documentation, and a type, its own or the one
    /// that builds it, that is no option type declared earlier.
    pub open spec fn spec_problems(&self, reg: &Registry, bound: int) -> Seq<Seq<char>> {
        let ident = field_ident(self);
        when(self.ident is None, Problem::MissingIdent, ident) + when(
            !crate::utils::documented(self.attrs@),
            Problem::MissingDocumentation,
            ident,
        ) + when(!crate::option::type_ok(reg, self.ty, bound), Problem::NotAnOption, ident) + when(
            !crate::option::type_ok(reg, self.spec_path_base(), bound),
            Problem::NotAnOption,
            ident,
        )
    }

    /// Validates a named field that stands for one option.
    pub fn validate(&self, reg: &Registry, bound: usize, acc: &mut darling::error::Accumulator) -> (ok: bool)
        ensures
            ok == self.valid(reg, bound as int),
            recorded(ok, *old(acc), *final(acc), self.spec_problems(reg, bound as int)),
    {
        let unnamed = String::new();
        let ident = match &self.ident {
            Some(i) => i,
            None => &unnamed,
        };
        let no_ident = self.ident.is_none();
        let no_doc = crate::utils::documentation_string(&self.attrs).is_none();
        let bad_type = !reg.check_type(&self.ty, bound);
        let base = self.path_base();
        let bad_base = !reg.check_type(&base, bound);
        push_when(no_ident, acc, Problem::MissingIdent, ident);
        push_when(no_doc, acc, Problem::MissingDocumentation, ident);
        push_when(bad_type, acc, Problem::NotAnOption, ident);
        push_when(bad_base, acc, Problem::NotAnOption, ident);
        proof {
            assert(accumulated(*acc) =~= accumulated(*old(acc)) + self.spec_problems(reg, bound as int));
        }
        !no_ident && !no_doc && !bad_type && !bad_base
    }

    /// Validates a list of named fields.
    pub fn validate_all(selfs: &Vec<Field>, reg: &Registry, bound: usize, acc: &mut darling::error::Accumulator) -> (ok: bool)
        ensures
            ok == all_valid(selfs@, reg, bound as int),
            recorded(ok, *old(acc), *final(acc), fields_problems(selfs@, reg, bound as int, selfs@.len())),
    {
        let ghost before = accumulated(*acc);
        let mut ok = true;
        let mut j: usize = 0;
        while j < selfs.len()
            invariant
                j <= selfs@.len(),
                ok == (forall|k: int| 0 <= k < j ==> (#[trigger] selfs@[k]).valid(reg, bound as int)),
                ok == (fields_problems(selfs@, reg, bound as int, j as nat).len() == 0),
                accumulated(*acc) == before + fields_problems(selfs@, reg, bound as int, j as nat),
            decreases selfs@.len() - j,
        {
            let one = selfs[j].validate(reg, bound, acc);
            proof {
                assert(accumulated(*acc) =~= before + fields_problems(
                    selfs@,
                    reg,
                    bound as int,
                    (j + 1) as nat,
                ));
            }
            if !one {
                ok = false;
            }
            j = j + 1;
        }
        ok
    }
}

/// The problems of the first `n` variants of a list, in declaration order.
pub open spec fn variants_problems(
    variants: Seq<Variant>,
    reg: &Registry,
    bound: int,
    role: Role,
    n: nat,
) -> Seq<Seq<char>>
    decreases n,
{
    if n == 0 {
        Seq::empty()
    } else {
        variants_problems(variants, reg, bound, role, (n - 1) as nat) + variants[n - 1].spec_problems(
            reg,
            bound,
            role,
        )
    }
}

impl Variant {
    /// Whether the variant is accepted where a declared type of the given
    /// role is asked for in a tuple shape.
    pub open spec fn valid_for(&self, reg: &Registry, bound: int, role: Role) -> bool {
        match role {
            Role::Command => self.valid_command(reg, bound),
            Role::SubCommandGroup => self.valid_sub_command_group(reg, bound),
            Role::SubCommand => self.valid_sub_command(reg, bound),
        }
    }

    /// Whether the variant needs no documentation: it is a context-menu
    /// command.
    pub open spec fn is_menu(&self, role: Role) -> bool {
        role == Role::Command && self.fields.style == Style::Unit && self.context_menu is Some
    }

    /// The problems of the variant: missing documentation first, then what
    /// is wrong with its shape. The autocomplete flag is a problem on a
    /// variant with named fields and on a unit variant.
    pub open spec fn spec_problems(&self, reg: &Registry, bound: int, role: Role) -> Seq<Seq<char>> {
        when(
            !self.is_menu(role) && !crate::utils::documented(self.attrs@),
            Problem::MissingDocumentation,
            self.ident@,
        ) + match self.fields.style {
            Style::Struct => when(self.autocomplete, Problem::AutocompleteOnStruct, self.ident@) + fields_problems(
                self.fields.fields@,
                reg,
                bound,
                self.fields.fields@.len(),
            ),
            Style::Tuple => self.fields.spec_inner_problems(reg, bound, role, self.autocomplete, self.ident@),
            Style::Unit => when(self.autocomplete, Problem::AutocompleteOnUnit, self.ident@),
        }
    }

    /// Whether one of the variants is flagged for autocomplete.
    pub fn any_flagged(selfs: &Vec<Variant>) -> (r: bool)
        ensures
            r == any_autocomplete(selfs@),
    {
        let mut i: usize = 0;
        while i < selfs.len()
            invariant
                i <= selfs@.len(),
                forall|k: int| 0 <= k < i ==> !(#[trigger] selfs@[k]).autocomplete,
            decreases selfs@.len() - i,
        {
            if selfs[i].autocomplete {
                proof {
                    assert(selfs@[i as int].autocomplete);
                }
                return true;
            }
            i = i + 1;
        }
        false
    }

    /// Validates a variant of an enum whose tuple variants wrap declared
    /// types of the given role.
    pub fn validate(&self, reg: &Registry, bound: usize, role: Role, acc: &mut darling::error::Accumulator) -> (ok: bool)
        requires
            bound <= reg.types@.len(),
        ensures
            ok == self.valid_for(reg, bound as int, role),
            recorded(ok, *old(acc), *final(acc), self.spec_problems(reg, bound as int, role)),
    {
        let menu = role == Role::Command && self.fields.style == Style::Unit && self.context_menu.is_some();
        let no_doc = !menu && crate::utils::documentation_string(&self.attrs).is_none();
        push_when(no_doc, acc, Problem::MissingDocumentation, &self.ident);
        let shape = match self.fields.style {
            Style::Struct => {
                push_when(self.autocomplete, acc, Problem::AutocompleteOnStruct, &self.ident);
                let fields = Field::validate_all(&self.fields.fields, reg, bound, acc);
                !self.autocomplete && fields
            },
            Style::Tuple => self.fields.validate_inner(reg, bound, role, self.autocomplete, &self.ident, acc),
            Style::Unit => {
                push_when(self.autocomplete, acc, Problem::AutocompleteOnUnit, &self.ident);
                !self.autocomplete
            },
        };
        proof {
            assert(accumulated(*acc) =~= accumulated(*old(acc)) + self.spec_problems(
                reg,
                bound as int,
                role,
            ));
        }
        !no_doc && shape
    }

    /// Validates the variants of an enum.
    pub fn validate_all(selfs: &Vec<Variant>, reg: &Registry, bound: usize, role: Role, acc: &mut darling::error::Accumulator) -> (ok:
        bool)
        requires
            bound <= reg.types@.len(),
        ensures
            ok == (forall|i: int| 0 <= i < selfs@.len() ==> (#[trigger] selfs@[i]).valid_for(reg, bound as int, role)),
            recorded(ok, *old(acc), *final(acc), variants_problems(selfs@, reg, bound as int, role, selfs@.len())),
    {
        let ghost before = accumulated(*acc);
        let mut ok = true;
        let mut i: usize = 0;
        while i < selfs.len()
            invariant
                i <= selfs@.len(),
                bound <= reg.types@.len(),
                ok == (forall|k: int| 0 <= k < i ==> (#[trigger] selfs@[k]).valid_for(reg, bound as int, role)),
                ok == (variants_problems(selfs@, reg, bound as int, role, i as nat).len() == 0),
                accumulated(*acc) == before + variants_problems(selfs@, reg, bound as int, role, i as nat),
            decreases selfs@.len() - i,
        {
            let one = selfs[i].validate(reg, bound, role, acc);
            proof {
                assert(accumulated(*acc) =~= before + variants_problems(
                    selfs@,
                    reg,
                    bound as int,
                    role,
                    (i + 1) as nat,
                ));
            }
            if !one {
                ok = false;
            }
            i = i + 1;
        }
        ok
    }
}

impl crate::commands::Args {
    /// The problems of the declaration: those of its variants.
    pub open spec fn spec_problems(&self, reg: &Registry, bound: int) -> Seq<Seq<char>> {
        variants_problems(self.data@, reg, bound, Role::Command, self.data@.len())
    }

    /// Validates the declaration of a list of top-level commands.
    pub fn validate(&self, reg: &Registry, bound: usize, acc: &mut darling::error::Accumulator) -> (ok: bool)
        requires
            bound <= reg.types@.len(),
        ensures
            ok == self.valid(reg, bound as int),
            recorded(ok, *old(acc), *final(acc), self.spec_problems(reg, bound as int)),
    {
        let ok = Variant::validate_all(&self.data, reg, bound, Role::Command, acc);
        proof {
            assert forall|i: int| 0 <= i < self.data@.len() implies (#[trigger] self.data@[i]).valid_for(
                reg,
                bound as int,
                Role::Command,
            ) == self.data@[i].valid_command(reg, bound as int) by {}
        }
        ok
    }
}

impl crate::sub_command_group::Args {
    /// The problems of the declaration: those of its variants.
    pub open spec fn spec_problems(&self, reg: &Registry, bound: int) -> Seq<Seq<char>> {
        variants_problems(self.data@, reg, bound, Role::SubCommand, self.data@.len())
    }

    /// Validates the declaration of a sub-command group.
    pub fn validate(&self, reg: &Registry, bound: usize, acc: &mut darling::error::Accumulator) -> (ok: bool)
        requires
            bound <= reg.types@.len(),
        ensures
            ok == self.valid(reg, bound as int),
            recorded(ok, *old(acc), *final(acc), self.spec_problems(reg, bound as int)),
    {
        let ok = Variant::validate_all(&self.data, reg, bound, Role::SubCommand, acc);
        proof {
            assert forall|i: int| 0 <= i < self.data@.len() implies (#[trigger] self.data@[i]).valid_for(
                reg,
                bound as int,
                Role::SubCommand,
            ) == self.data@[i].valid_sub_command(reg, bound as int) by {}
        }
        ok
    }
}

/// The problems of a struct of a role: those of its named fields, or of
/// the tuple shape that wraps a declared type of that role.
pub open spec fn struct_problems(
    fields: &Fields,
    reg: &Registry,
    bound: int,
    role: Role,
    ident: Seq<char>,
) -> Seq<Seq<char>> {
    match fields.style {
        Style::Struct => fields_problems(fields.fields@, reg, bound, fields.fields@.len()),
        Style::Tuple => fields.spec_inner_problems(
            reg,
            bound,
            role,
            fields.fields@.len() > 0 && fields.fields@[0].autocomplete,
            ident,
        ),
        Style::Unit => Seq::empty(),
    }
}

impl crate::sub_command::Args {
    /// The problems of the declaration.
    pub open spec fn spec_problems(&self, reg: &Registry, bound: int) -> Seq<Seq<char>> {
        struct_problems(&self.data, reg, bound, Role::SubCommand, self.ident@)
    }

    /// Validates the declaration of a sub-command.
    pub fn validate(&self, reg: &Registry, bound: usize, acc: &mut darling::error::Accumulator) -> (ok: bool)
        requires
            bound <= reg.types@.len(),
        ensures
            ok == self.valid(reg, bound as int),
            recorded(ok, *old(acc), *final(acc), self.spec_problems(reg, bound as int)),
    {
        match self.data.style {
            Style::Struct => Field::validate_all(&self.data.fields, reg, bound, acc),
            Style::Tuple => {
                let flagged = self.data.fields.len() > 0 && self.data.fields[0].autocomplete;
                self.data.validate_inner(reg, bound, Role::SubCommand, flagged, &self.ident, acc)
            },
            Style::Unit => {
                proof {
                    assert(accumulated(*acc) =~= accumulated(*acc) + Seq::<Seq<char>>::empty());
                }
                true
            },
        }
    }
}

impl crate::command::Args {
    /// The problems of the declaration.
    pub open spec fn spec_problems(&self, reg: &Registry, bound: int) -> Seq<Seq<char>> {
        match self.data {
            crate::command::Data::Struct(fields) => struct_problems(&fields, reg, bound, Role::Command, self.ident@),
            crate::command::Data::Enum(variants) => variants_problems(
                variants@,
                reg,
                bound,
                Role::SubCommandGroup,
                variants@.len(),
            ),
        }
    }

    /// Validates the declaration of a command.
    pub fn validate(&self, reg: &Registry, bound: usize, acc: &mut darling::error::Accumulator) -> (ok: bool)
        requires
            bound <= reg.types@.len(),
        ensures
            ok == self.valid(reg, bound as int),
            recorded(ok, *old(acc), *final(acc), self.spec_problems(reg, bound as int)),
    {
        match &self.data {
            crate::command::Data::Struct(fields) => match fields.style {
                Style::Struct => Field::validate_all(&fields.fields, reg, bound, acc),
                Style::Tuple => {
                    let flagged = fields.fields.len() > 0 && fields.fields[0].autocomplete;
                    fields.validate_inner(reg, bound, Role::Command, flagged, &self.ident, acc)
                },
                Style::Unit => {
                    proof {
                        assert(accumulated(*acc) =~= accumulated(*acc) + Seq::<Seq<char>>::empty());
                    }
                    true
                },
            },
            crate::command::Data::Enum(variants) => {
                let ok = Variant::validate_all(variants, reg, bound, Role::SubCommandGroup, acc);
                proof {
                    assert forall|i: int| 0 <= i < variants@.len() implies (#[trigger] variants@[i]).valid_for(
                        reg,
                        bound as int,
                        Role::SubCommandGroup,
                    ) == variants@[i].valid_sub_command_group(reg, bound as int) by {}
                }
                ok
            },
        }
    }
}

/// The problems of the first `n` choices of a choice enum whose choices
/// are of type `t`: each wire value of another type.
pub open spec fn choices_problems(
    variants: Seq<crate::basic_option::ChoiceVariant>,
    t: crate::basic_option::OptionType,
    n: nat,
) -> Seq<Seq<char>>
    decreases n,
{
    if n == 0 {
        Seq::empty()
    } else {
        choices_problems(variants, t, (n - 1) as nat) + when(
            !variants[n - 1].has_type(t),
            Problem::ChoiceType,
            variants[n - 1].ident@,
        )
    }
}

impl crate::basic_option::Args {
    /// The problems of the declaration.
    pub open spec fn spec_problems(&self, reg: &Registry, bound: int) -> Seq<Seq<char>> {
        match self.data {
            crate::basic_option::Data::Struct(ty) => when(
                !crate::option::type_ok(reg, ty, bound),
                Problem::NotAnOption,
                self.ident@,
            ),
            crate::basic_option::Data::Enum(variants) => match self.option_type {
                None => when(true, Problem::MissingOptionType, self.ident@),
                Some(t) => choices_problems(variants@, t, variants@.len()),
            },
        }
    }

    /// Validates the declaration of a basic option.
    pub fn validate(&self, reg: &Registry, bound: usize, acc: &mut darling::error::Accumulator) -> (ok: bool)
        requires
            bound <= reg.types@.len(),
        ensures
            ok == self.valid(reg, bound as int),
            recorded(ok, *old(acc), *final(acc), self.spec_problems(reg, bound as int)),
    {
        let ghost before = accumulated(*acc);
        match &self.data {
            crate::basic_option::Data::Struct(ty) => {
                let bad = !reg.check_type(ty, bound);
                push_when(bad, acc, Problem::NotAnOption, &self.ident);
                !bad
            },
            crate::basic_option::Data::Enum(variants) => {
                let t = match self.option_type {
                    None => {
                        push(acc, Problem::MissingOptionType, &self.ident);
                        return false;
                    },
                    Some(t) => t,
                };
                let mut ok = true;
                let mut i: usize = 0;
                proof {
                    assert(accumulated(*acc) =~= before + choices_problems(variants@, t, 0));
                }
                while i < variants.len()
                    invariant
                        i <= variants@.len(),
                        ok == (forall|k: int| 0 <= k < i ==> (#[trigger] variants@[k]).has_type(t)),
                        ok == (choices_problems(variants@, t, i as nat).len() == 0),
                        accumulated(*acc) == before + choices_problems(variants@, t, i as nat),
                    decreases variants@.len() - i,
                {
                    let fits = match &variants[i].value {
                        Some(crate::basic_option::Lit::Str(_)) => t == crate::basic_option::OptionType::String,
                        Some(crate::basic_option::Lit::Int(_)) => t == crate::basic_option::OptionType::Integer,
                        None => t == crate::basic_option::OptionType::String,
                    };
                    push_when(!fits, acc, Problem::ChoiceType, &variants[i].ident);
                    proof {
                        assert(accumulated(*acc) =~= before + choices_problems(variants@, t, (i + 1) as nat));
                    }
                    if !fits {
                        ok = false;
                    }
                    i = i + 1;
                }
                ok
            },
        }
    }
}

impl Registry {
    /// The problems of the declaration at position `j`.
    pub open spec fn problems_at(&self, j: int) -> Seq<Seq<char>> {
        match self.types@[j] {
            TypeDecl::Commands(a) => a.spec_problems(self, j),
            TypeDecl::Command(a) => a.spec_problems(self, j),
            TypeDecl::SubCommandGroup(a) => a.spec_problems(self, j),
            TypeDecl::SubCommand(a) => a.spec_problems(self, j),
            TypeDecl::BasicOption(a) => a.spec_problems(self, j),
        }
    }

    /// The problems of the first `n` declarations, in order.
    pub open spec fn spec_problems(&self, n: nat) -> Seq<Seq<char>>
        decreases n,
    {
        if n == 0 {
            Seq::empty()
        } else {
            self.spec_problems((n - 1) as nat) + self.problems_at(n - 1)
        }
    }

    /// Validates every declaration of the registry. The result holds the
    /// text of every problem that was found, in the order of the
    /// declarations; the registry is accepted exactly when there is none.
    pub fn validate(&self) -> (r: Vec<String>)
        ensures
            texts(r@) == self.spec_problems(self.types@.len()),
            r@.len() == 0 <==> self.wf(),
    {
        let mut acc = new_accumulator();
        let mut ok = true;
        let mut j: usize = 0;
        while j < self.types.len()
            invariant
                j <= self.types@.len(),
                ok == (forall|k: int| 0 <= k < j ==> #[trigger] self.valid_at(k)),
                ok <==> accumulated(acc).len() == 0,
                accumulated(acc) == self.spec_problems(j as nat),
            decreases self.types@.len() - j,
        {
            let ghost before = accumulated(acc);
            let one = match &self.types[j] {
                TypeDecl::Commands(a) => a.validate(self, j, &mut acc),
                TypeDecl::Command(a) => a.validate(self, j, &mut acc),
                TypeDecl::SubCommandGroup(a) => a.validate(self, j, &mut acc),
                TypeDecl::SubCommand(a) => a.validate(self, j, &mut acc),
                TypeDecl::BasicOption(a) => a.validate(self, j, &mut acc),
            };
            proof {
                assert(one == self.valid_at(j as int));
                assert(accumulated(acc) == before + self.problems_at(j as int));
            }
            if !one {
                ok = false;
            }
            j = j + 1;
        }
        let r = into_messages(acc);
        proof {
            assert(texts(r@).len() == r@.len());
        }
        r
    }
}

} // verus!
