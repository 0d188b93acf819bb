//! What holds of parsing and of acceptance, whatever the declarations and
//! the input.
use vstd::prelude::*;
use crate::autocomplete::PartialView;
use crate::decl::Primitive;
use crate::decl::Registry;
use crate::decl::Style;
use crate::decl::Type;
use crate::error::ErrorView;
use crate::field::Field;
use crate::field::find_field;
use crate::field::slot_value;
use crate::field::spec_fold;
use crate::field::spec_from_options;
use crate::field::spec_inits;
use crate::option::spec_from_value;
use crate::option::spec_partial_from_value;
use crate::option::spec_partial_type;
use crate::option::spec_primitive_option;
use crate::value::LeafView;
use crate::variant::Variant;
use crate::variant::find_variant;
use crate::wire::CommandData;
use crate::wire::DataOption;
use crate::wire::OptionValue;

verus! {

/// What a plain wire value carries, as a parsed value of a built-in type.
pub open spec fn payload(p: Primitive, v: OptionValue) -> LeafView {
    match v {
        OptionValue::Boolean(b) => LeafView::Bool(b),
        OptionValue::Integer(i) => match p {
            Primitive::Integer(t) => LeafView::Int(t.spec_convert(i)),
            _ => arbitrary(),
        },
        OptionValue::Number(n) => LeafView::Num(n),
        OptionValue::String(s) => LeafView::Str(s@),
        OptionValue::Attachment(n) => LeafView::Id(n),
        OptionValue::Channel(n) => LeafView::Id(n),
        OptionValue::Mentionable(n) => LeafView::Id(n),
        OptionValue::Role(n) => LeafView::Id(n),
        OptionValue::User(n) => LeafView::Id(n),
        _ => arbitrary(),
    }
}

/// Whether a wire value is a plain value: neither nested options, nor the
/// marker of an option being typed, nor of an unknown kind.
pub open spec fn plain(v: OptionValue) -> bool {
    !(v is Autocomplete) && !(v is SubCommand) && !(v is SubCommandGroup) && !(v is Unknown)
}

/// Round trip of the built-in option types: the schema of an option of
/// type `p` has a kind, and every plain wire value of that kind parses
/// under `p` to exactly what it carries. An integer comes back converted
/// to the integer type, which for a 64-bit signed integer is the integer
/// itself. For a character, the value is a string of one character, and
/// the character is what comes back.
pub proof fn law_primitive_round_trip(p: Primitive, v: OptionValue, name: Seq<char>, description: Seq<char>)
    requires
        plain(v),
        v.spec_kind() == spec_primitive_option(p, name, description).kind,
    ensures
        p != Primitive::Char ==> p.spec_from_value(Some(v)) == Ok::<LeafView, ErrorView>(payload(p, v)),
        p == Primitive::Integer(crate::decl::IntType::I64) ==> (v matches OptionValue::Integer(i)
            && p.spec_from_value(Some(v)) == Ok::<LeafView, ErrorView>(LeafView::Int(i as int))),
        p == Primitive::Char ==> (v matches OptionValue::String(s) && (s@.len() == 1 ==> p.spec_from_value(Some(v))
            == Ok::<LeafView, ErrorView>(LeafView::Char(s@[0])))),
{
}

/// Where the search for a variant by name ends: at the first variant at
/// or after `k` with that name, and nowhere if there is none.
pub proof fn lemma_find_variant(variants: Seq<Variant>, name: Seq<char>, k: int)
    requires
        0 <= k <= variants.len(),
    ensures
        match find_variant(variants, name, k) {
            Some(i) => k <= i < variants.len() && variants[i].spec_name_kebab() == name && forall|j: int|
                k <= j < i ==> (#[trigger] variants[j]).spec_name_kebab() != name,
            None => forall|j: int| k <= j < variants.len() ==> (#[trigger] variants[j]).spec_name_kebab() != name,
        },
    decreases variants.len() - k,
{
    if k < variants.len() && variants[k].spec_name_kebab() != name {
        lemma_find_variant(variants, name, k + 1);
    }
}

/// Dispatch by name is exhaustive: the name of a variant, where no earlier
/// variant has the same name, parses to that variant, holding what the
/// options parse to under it.
pub proof fn law_dispatch_exhaustive(
    args: &crate::commands::Args,
    reg: &Registry,
    bound: int,
    data: &CommandData,
    i: int,
)
    requires
        !data.autocomplete,
        0 <= i < args.data@.len(),
        args.data@[i].spec_name_kebab() == data.name@,
        forall|j: int| 0 <= j < i ==> (#[trigger] args.data@[j]).spec_name_kebab() != data.name@,
    ensures
        args.spec_from_command_data(reg, bound, data) == crate::variant::variant(
            i,
            args.data@[i].spec_from_command_options(reg, bound, data.options@),
        ),
{
    lemma_find_variant(args.data@, data.name@, 0);
}

/// Dispatch by name is exclusive: a name that no variant has is an
/// unknown command, and a command that parses to a variant has that
/// variant's name.
pub proof fn law_dispatch_exclusive(args: &crate::commands::Args, reg: &Registry, bound: int, data: &CommandData)
    requires
        !data.autocomplete,
    ensures
        (forall|j: int| 0 <= j < args.data@.len() ==> (#[trigger] args.data@[j]).spec_name_kebab() != data.name@)
            ==> args.spec_from_command_data(reg, bound, data) == Err::<crate::value::ValueView, ErrorView>(
            ErrorView::UnknownCommand(data.name@),
        ),
        args.spec_from_command_data(reg, bound, data) matches Ok(crate::value::ValueView::Variant(k, _)) ==> 0 <= k
            < args.data@.len() && args.data@[k].spec_name_kebab() == data.name@,
{
    lemma_find_variant(args.data@, data.name@, 0);
}

/// An option of optional type that is absent is accepted and gives no
/// value; one that is present and valid under the base type gives that
/// value.
pub proof fn law_optional(reg: &Registry, bound: int, ty: Type, v: OptionValue)
    requires
        ty.optional,
    ensures
        spec_from_value(reg, bound, ty, None) == Ok::<LeafView, ErrorView>(LeafView::Absent),
        spec_from_value(reg, bound, Type { base: ty.base, optional: false }, Some(v)) matches Ok(x)
            ==> spec_from_value(reg, bound, ty, Some(v)) == Ok::<LeafView, ErrorView>(
            LeafView::Present(Box::new(x)),
        ),
{
}

/// A slot stays empty while no option names its field.
pub proof fn lemma_unnamed_slot_empty(fields: Seq<Field>, options: Seq<DataOption>, n: nat, j: int)
    requires
        n <= options.len(),
        0 <= j < fields.len(),
        spec_fold(fields, options, n) is Ok,
        forall|i: int| 0 <= i < n ==> find_field(fields, (#[trigger] options[i]).name@, 0) != Some(j),
    ensures
        spec_fold(fields, options, n)->Ok_0.len() == fields.len(),
        spec_fold(fields, options, n)->Ok_0[j] is None,
    decreases n,
{
    if n > 0 {
        lemma_fold_slots(fields, options, (n - 1) as nat);
        lemma_unnamed_slot_empty(fields, options, (n - 1) as nat, j);
        lemma_find_field_range(fields, options[n - 1].name@, 0);
    }
}

/// The search for a field by name ends inside the list.
pub proof fn lemma_find_field_range(fields: Seq<Field>, name: Seq<char>, k: int)
    requires
        0 <= k <= fields.len(),
    ensures
        find_field(fields, name, k) matches Some(i) ==> k <= i < fields.len(),
    decreases fields.len() - k,
{
    if k < fields.len() && fields[k].spec_name() != name {
        lemma_find_field_range(fields, name, k + 1);
    }
}

/// There is one slot for each field.
pub proof fn lemma_fold_slots(fields: Seq<Field>, options: Seq<DataOption>, n: nat)
    requires
        n <= options.len(),
    ensures
        spec_fold(fields, options, n) matches Ok(slots) ==> slots.len() == fields.len(),
        n > 0 && spec_fold(fields, options, n) is Ok ==> spec_fold(fields, options, (n - 1) as nat) is Ok,
    decreases n,
{
    if n > 0 {
        lemma_fold_slots(fields, options, (n - 1) as nat);
        lemma_find_field_range(fields, options[n - 1].name@, 0);
    }
}

/// Where all fields parse, each value is what its field's slot parses to.
pub proof fn lemma_inits_index(
    reg: &Registry,
    bound: int,
    fields: Seq<Field>,
    options: Seq<DataOption>,
    slots: Seq<Option<usize>>,
    n: nat,
    j: int,
)
    requires
        0 <= j < n <= fields.len(),
        spec_inits(reg, bound, fields, options, slots, n) is Ok,
    ensures
        spec_inits(reg, bound, fields, options, slots, n)->Ok_0.len() == n,
        spec_from_value(reg, bound, fields[j].spec_path_base(), slot_value(options, slots[j])) == Ok::<
            LeafView,
            ErrorView,
        >(spec_inits(reg, bound, fields, options, slots, n)->Ok_0[j]),
    decreases n,
{
    lemma_inits_len(reg, bound, fields, options, slots, (n - 1) as nat);
    if j < n - 1 {
        lemma_inits_index(reg, bound, fields, options, slots, (n - 1) as nat, j);
    }
}

/// Where the first `n` fields parse, there are `n` values.
pub proof fn lemma_inits_len(
    reg: &Registry,
    bound: int,
    fields: Seq<Field>,
    options: Seq<DataOption>,
    slots: Seq<Option<usize>>,
    n: nat,
)
    ensures
        spec_inits(reg, bound, fields, options, slots, n) matches Ok(values) ==> values.len() == n,
    decreases n,
{
    if n > 0 {
        lemma_inits_len(reg, bound, fields, options, slots, (n - 1) as nat);
    }
}

/// Optional fields: where the options parse under a list of fields and
/// none of them names the field at position `j`, whose type is optional,
/// that field has no value.
pub proof fn law_optional_field_absent(
    reg: &Registry,
    bound: int,
    fields: Seq<Field>,
    options: Seq<DataOption>,
    j: int,
)
    requires
        0 <= j < fields.len(),
        fields[j].spec_path_base().optional,
        forall|i: int| 0 <= i < options.len() ==> find_field(fields, (#[trigger] options[i]).name@, 0) != Some(j),
        spec_from_options(reg, bound, fields, options) is Ok,
    ensures
        spec_from_options(reg, bound, fields, options)->Ok_0.len() == fields.len(),
        spec_from_options(reg, bound, fields, options)->Ok_0[j] == LeafView::Absent,
{
    lemma_unnamed_slot_empty(fields, options, options.len(), j);
    let slots = spec_fold(fields, options, options.len())->Ok_0;
    lemma_inits_index(reg, bound, fields, options, slots, fields.len(), j);
}

/// Nesting depth: a sub-command group with a tuple variant that wraps
/// another sub-command group, not a sub-command, is rejected.
pub proof fn law_group_in_group_rejected(
    args: &crate::sub_command_group::Args,
    reg: &Registry,
    bound: int,
    i: int,
)
    requires
        0 <= i < args.data@.len(),
        args.data@[i].fields.style == Style::Tuple,
        args.data@[i].fields.spec_inner() matches Some(j) && j < reg.types@.len()
            && reg.types@[j as int] is SubCommandGroup,
    ensures
        !args.valid(reg, bound),
{
    assert(!args.data@[i].valid_sub_command(reg, bound));
}

/// Nesting depth: a tuple variant of an accepted sub-command group wraps a
/// sub-command. Its schema is that sub-command's schema under the
/// variant's name and description, followed by the variant's builder
/// calls, and an option parses under it to what its value parses to under
/// that sub-command, errors unchanged.
pub proof fn law_group_newtype_is_its_sub_command(
    args: &crate::sub_command_group::Args,
    reg: &Registry,
    bound: int,
    i: int,
    option: &DataOption,
)
    requires
        args.valid(reg, bound),
        0 <= i < args.data@.len(),
        args.data@[i].fields.style == Style::Tuple,
    ensures
        args.data@[i].fields.spec_inner() matches Some(j) && reg.is_sub_command(j as int, bound)
            && args.data@[i].spec_create_sub_command(reg, bound) == crate::variant::sub_command_with(
            reg.types@[j as int]->SubCommand_0.spec_create_option(
                reg,
                j as int,
                args.data@[i].spec_name_kebab(),
                args.data@[i].spec_description(),
            ),
            crate::schema::builder_view(args.data@[i].builder),
        ) && args.data@[i].spec_from_subcommand_value(reg, bound, option)
            == reg.types@[j as int]->SubCommand_0.spec_from_value(reg, j as int, &option.value),
{
    assert(args.data@[i].valid_sub_command(reg, bound));
}

/// Nesting depth: an accepted sub-command parses only a value of kind
/// sub-command, however many newtypes it is wrapped in. Any other value,
/// a sub-command group among them, is reported with its own kind.
pub proof fn law_sub_command_wants_sub_command(
    a: &crate::sub_command::Args,
    reg: &Registry,
    bound: int,
    value: &OptionValue,
)
    requires
        reg.wf(),
        0 <= bound <= reg.types@.len(),
        a.valid(reg, bound),
        !(value is SubCommand),
    ensures
        a.spec_from_value(reg, bound, value) == Err::<crate::value::ValueView, ErrorView>(
            ErrorView::IncorrectCommandOptionType {
                got: value.spec_kind(),
                expected: crate::error::OptionKind::SubCommand,
            },
        ),
    decreases bound,
{
    if a.data.style == Style::Tuple {
        let j = a.data.spec_inner()->0 as int;
        assert(reg.valid_at(j));
        match reg.types@[j] {
            crate::decl::TypeDecl::SubCommand(inner) => {
                law_sub_command_wants_sub_command(&inner, reg, j, value);
            },
            _ => {},
        }
    }
}

/// Nesting depth: nothing nests deeper than a sub-command inside a group
/// inside a command. Under every variant of an accepted sub-command group,
/// an option whose value is not a sub-command is an error that reports the
/// kind of that value.
pub proof fn law_group_holds_only_sub_commands(
    args: &crate::sub_command_group::Args,
    reg: &Registry,
    bound: int,
    i: int,
    option: &DataOption,
)
    requires
        reg.wf(),
        0 <= bound <= reg.types@.len(),
        args.valid(reg, bound),
        0 <= i < args.data@.len(),
        !(option.value is SubCommand),
    ensures
        args.data@[i].spec_from_subcommand_value(reg, bound, option) == Err::<crate::value::ValueView, ErrorView>(
            ErrorView::IncorrectCommandOptionType {
                got: option.value.spec_kind(),
                expected: crate::error::OptionKind::SubCommand,
            },
        ),
{
    let v = args.data@[i];
    assert(v.valid_sub_command(reg, bound));
    if v.fields.style == Style::Tuple {
        let j = v.fields.spec_inner()->0 as int;
        assert(reg.valid_at(j));
        match reg.types@[j] {
            crate::decl::TypeDecl::SubCommand(inner) => {
                law_sub_command_wants_sub_command(&inner, reg, j, &option.value);
            },
            _ => {},
        }
    }
}

/// Partial parsing: an option that parses in full is returned exactly; one
/// that fails in full but parses under its coarse type is returned as the
/// coarse value together with the error, and the error is not propagated.
pub proof fn law_partial(reg: &Registry, bound: int, ty: Type, value: Option<OptionValue>)
    ensures
        spec_from_value(reg, bound, ty, value) matches Ok(x) ==> spec_partial_from_value(reg, bound, ty, value)
            == Ok::<PartialView, ErrorView>(PartialView::Value(x)),
        (spec_from_value(reg, bound, ty, value) matches Err(e) && spec_partial_type(
            reg,
            bound,
            ty.base,
        ).spec_from_value(value) matches Ok(p)) ==> spec_partial_from_value(reg, bound, ty, value) == Ok::<
            PartialView,
            ErrorView,
        >(
            PartialView::Partial(
                spec_partial_type(reg, bound, ty.base).spec_from_value(value)->Ok_0,
                spec_from_value(reg, bound, ty, value)->Err_0,
            ),
        ),
{
}

/// The schema of an option of a declared type is required exactly when
/// that type does not parse from a missing value, and bears the name it
/// was created under.
pub proof fn lemma_declared_option(
    a: &crate::basic_option::Args,
    reg: &Registry,
    bound: int,
    name: Seq<char>,
    description: Seq<char>,
)
    requires
        reg.wf(),
        0 <= bound <= reg.types@.len(),
        a.valid(reg, bound),
    ensures
        a.spec_create_option(reg, bound, name, description).required <==> a.spec_from_value(reg, bound, None) is Err,
        a.spec_create_option(reg, bound, name, description).name == name,
    decreases bound, 2int,
{
    match a.data {
        crate::basic_option::Data::Struct(ty) => {
            law_schema_matches_parser(reg, bound, ty, name, description);
        },
        crate::basic_option::Data::Enum(_) => {},
    }
}

/// Schema and parser agree: the schema of an option is required exactly
/// when the parser rejects a missing value, and it bears the name it was
/// created under.
pub proof fn law_schema_matches_parser(
    reg: &Registry,
    bound: int,
    ty: Type,
    name: Seq<char>,
    description: Seq<char>,
)
    requires
        reg.wf(),
        0 <= bound <= reg.types@.len(),
        crate::option::type_ok(reg, ty, bound),
    ensures
        crate::option::spec_create_option(reg, bound, ty, name, description).required <==> spec_from_value(
            reg,
            bound,
            ty,
            None,
        ) is Err,
        crate::option::spec_create_option(reg, bound, ty, name, description).name == name,
    decreases bound, 1int,
{
    match ty.base {
        crate::decl::TypeRef::Primitive(_) => {},
        crate::decl::TypeRef::Declared(j) => {
            assert(reg.valid_at(j as int));
            match reg.types@[j as int] {
                crate::decl::TypeDecl::BasicOption(a) => {
                    lemma_declared_option(&a, reg, j as int, name, description);
                },
                _ => {},
            }
        },
    }
}

/// The schema of a command bears the name it was created under.
pub proof fn lemma_command_schema_name(
    a: &crate::command::Args,
    reg: &Registry,
    bound: int,
    name: Seq<char>,
    description: Seq<char>,
)
    requires
        reg.wf(),
        0 <= bound <= reg.types@.len(),
        a.valid(reg, bound),
    ensures
        a.spec_create_command(reg, bound, name, description).name == name,
    decreases bound,
{
    if a.wraps() {
        let j = a.data->Struct_0.spec_inner()->0 as int;
        assert(reg.valid_at(j));
        match reg.types@[j] {
            crate::decl::TypeDecl::Command(inner) => {
                lemma_command_schema_name(&inner, reg, j, name, description);
            },
            _ => {},
        }
    }
}

/// Schema and parser agree on the names of commands: a command
/// interaction that bears the name of the schema of a variant, where no
/// earlier variant goes by that name and the variant is no context-menu
/// command, parses to that variant.
pub proof fn law_schema_names_dispatch(
    args: &crate::commands::Args,
    reg: &Registry,
    bound: int,
    data: &CommandData,
    i: int,
)
    requires
        reg.wf(),
        0 <= bound <= reg.types@.len(),
        args.valid(reg, bound),
        !data.autocomplete,
        0 <= i < args.data@.len(),
        !args.data@[i].is_menu(crate::validate::Role::Command),
        data.name@ == args.spec_create_commands(reg, bound)[i].name,
        forall|j: int| 0 <= j < i ==> (#[trigger] args.data@[j]).spec_name_kebab() != data.name@,
    ensures
        args.spec_from_command_data(reg, bound, data) == crate::variant::variant(
            i,
            args.data@[i].spec_from_command_options(reg, bound, data.options@),
        ),
{
    let v = args.data@[i];
    assert(v.valid_command(reg, bound));
    if v.fields.style == Style::Tuple {
        let j = v.fields.spec_inner()->0 as int;
        assert(reg.valid_at(j));
        match reg.types@[j] {
            crate::decl::TypeDecl::Command(inner) => {
                lemma_command_schema_name(&inner, reg, j, v.spec_name_kebab(), v.spec_description());
            },
            _ => {},
        }
    }
    assert(v.spec_create_command(reg, bound).name == v.spec_name_kebab());
    law_dispatch_exhaustive(args, reg, bound, data, i);
}

} // verus!
