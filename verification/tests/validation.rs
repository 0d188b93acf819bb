use darling::Error;
use serenity_commands::basic_option;
use serenity_commands::basic_option::ChoiceVariant;
use serenity_commands::basic_option::Lit;
use serenity_commands::basic_option::OptionType;
use serenity_commands::command;
use serenity_commands::commands;
use serenity_commands::decl::Fields;
use serenity_commands::decl::IntType;
use serenity_commands::decl::Primitive;
use serenity_commands::decl::Registry;
use serenity_commands::decl::Style;
use serenity_commands::decl::Type;
use serenity_commands::decl::TypeDecl;
use serenity_commands::decl::TypeRef;
use serenity_commands::field::Field;
use serenity_commands::sub_command;
use serenity_commands::sub_command_group;
use serenity_commands::validate::text;
use serenity_commands::validate::Problem;
use serenity_commands::variant::Variant;

fn prim(p: Primitive) -> Type {
    Type { base: TypeRef::Primitive(p), optional: false }
}

fn field(ident: &str, ty: Type, doc: &str) -> Field {
    Field {
        ident: Some(ident.to_string()),
        ty,
        attrs: vec![doc.to_string()],
        name: None,
        builder: None,
        autocomplete: false,
        with: None,
    }
}

fn variant(ident: &str, style: Style, fields: Vec<Field>, doc: &str) -> Variant {
    Variant {
        ident: ident.to_string(),
        fields: Fields { style, fields },
        attrs: vec![doc.to_string()],
        name: None,
        builder: None,
        autocomplete: false,
        context_menu: None,
    }
}

fn wrap(ident: &str, inner: usize, doc: &str) -> Variant {
    let f = Field {
        ident: None,
        ty: Type { base: TypeRef::Declared(inner), optional: false },
        attrs: vec![],
        name: None,
        builder: None,
        autocomplete: false,
        with: None,
    };
    variant(ident, Style::Tuple, vec![f], doc)
}

fn sub(fields: Vec<Field>) -> TypeDecl {
    TypeDecl::SubCommand(sub_command::Args {
        ident: "Sub".to_string(),
        data: Fields { style: Style::Struct, fields },
        builder: None,
    })
}

fn group(variants: Vec<Variant>) -> TypeDecl {
    TypeDecl::SubCommandGroup(sub_command_group::Args { ident: "Group".to_string(), data: variants, builder: None })
}

fn found(problem: Problem, ident: &str) -> String {
    text(problem, &ident.to_string())
}

#[test]
fn well_formed_registry_has_no_problems() {
    let reg = Registry {
        types: vec![
            sub(vec![field("a", prim(Primitive::Integer(IntType::I64)), " A number.")]),
            group(vec![wrap("First", 0, " The first.")]),
        ],
    };
    assert!(reg.validate().is_empty());
}

#[test]
fn group_inside_group_is_rejected() {
    let reg = Registry {
        types: vec![
            sub(vec![]),
            group(vec![wrap("Inner", 0, " A sub-command.")]),
            group(vec![wrap("Deep", 1, " A group in a group.")]),
        ],
    };
    assert_eq!(reg.validate(), vec![found(Problem::UnsupportedInner, "Deep")]);
    assert_eq!(
        reg.validate(),
        vec!["tuple shape must wrap one declared type of the role that is asked for: Deep".to_string()]
    );
}

#[test]
fn command_may_wrap_a_group_or_a_sub_command() {
    let cmd = command::Args {
        ident: "Cmd".to_string(),
        data: command::Data::Enum(vec![wrap("Direct", 0, " A sub-command."), wrap("Grouped", 1, " A group.")]),
        builder: None,
    };
    let reg = Registry {
        types: vec![sub(vec![]), group(vec![wrap("Inner", 0, " A sub-command.")]), TypeDecl::Command(cmd)],
    };
    assert!(reg.validate().is_empty());
}

#[test]
fn command_list_may_not_wrap_a_sub_command() {
    let all = commands::Args { ident: "All".to_string(), data: vec![wrap("Direct", 0, " A sub-command.")] };
    let reg = Registry { types: vec![sub(vec![]), TypeDecl::Commands(all)] };
    assert_eq!(reg.validate(), vec![found(Problem::UnsupportedInner, "Direct")]);
}

#[test]
fn later_declarations_cannot_be_wrapped() {
    let reg = Registry { types: vec![group(vec![wrap("Later", 1, " Declared later.")]), sub(vec![])] };
    assert_eq!(reg.validate(), vec![found(Problem::UnsupportedInner, "Later")]);
    let reg = Registry { types: vec![group(vec![wrap("Missing", 7, " Not declared.")])] };
    assert_eq!(reg.validate(), vec![found(Problem::UnsupportedInner, "Missing")]);
}

#[test]
fn missing_documentation_is_reported_for_each_member() {
    let mut a = field("a", prim(Primitive::Integer(IntType::I64)), "");
    a.attrs = vec![];
    let mut b = field("b", prim(Primitive::Integer(IntType::I64)), "");
    b.attrs = vec![];
    let mut v = variant("Add", Style::Struct, vec![a, b], "");
    v.attrs = vec![];
    let all = commands::Args { ident: "All".to_string(), data: vec![v] };
    let reg = Registry { types: vec![TypeDecl::Commands(all)] };
    assert_eq!(
        reg.validate(),
        vec![
            found(Problem::MissingDocumentation, "Add"),
            found(Problem::MissingDocumentation, "a"),
            found(Problem::MissingDocumentation, "b"),
        ]
    );
    assert_eq!(
        reg.validate()[0],
        "missing documentation comment (`///`) to use as description: Add"
    );
}

#[test]
fn autocomplete_flag_on_unit_and_struct_variants() {
    let mut unit = variant("Ping", Style::Unit, vec![], " Ping.");
    unit.autocomplete = true;
    let mut named = variant("Echo", Style::Struct, vec![field("m", prim(Primitive::String), " Text.")], " Echo.");
    named.autocomplete = true;
    let all = commands::Args { ident: "All".to_string(), data: vec![unit, named] };
    let reg = Registry { types: vec![TypeDecl::Commands(all)] };
    assert_eq!(
        reg.validate(),
        vec![
            "#[command(autocomplete)] is not supported on unit variants: Ping".to_string(),
            "#[command(autocomplete)] is not supported on struct variants: Echo".to_string(),
        ]
    );
}

#[test]
fn autocomplete_flag_needs_a_counterpart_of_the_inner_type() {
    let cmd = command::Args {
        ident: "Cmd".to_string(),
        data: command::Data::Struct(Fields {
            style: Style::Struct,
            fields: vec![field("a", prim(Primitive::String), " Text.")],
        }),
        builder: None,
    };
    let mut v = wrap("Cmd", 0, " A command.");
    v.autocomplete = true;
    let all = commands::Args { ident: "All".to_string(), data: vec![v] };
    let reg = Registry { types: vec![TypeDecl::Command(cmd), TypeDecl::Commands(all)] };
    assert_eq!(reg.validate(), vec![found(Problem::AutocompleteUnsupported, "Cmd")]);
}

#[test]
fn choice_enum_needs_its_option_type() {
    let e = basic_option::Args {
        ident: "Medal".to_string(),
        data: basic_option::Data::Enum(vec![]),
        option_type: None,
        builder: None,
    };
    let reg = Registry { types: vec![TypeDecl::BasicOption(e)] };
    assert_eq!(reg.validate(), vec!["missing #[option(option_type = ...)] attribute: Medal".to_string()]);
}

#[test]
fn choice_values_must_be_of_the_option_type() {
    let e = basic_option::Args {
        ident: "Medal".to_string(),
        data: basic_option::Data::Enum(vec![
            ChoiceVariant { ident: "Gold".to_string(), name: None, value: Some(Lit::Int(1)) },
            ChoiceVariant { ident: "Silver".to_string(), name: None, value: None },
            ChoiceVariant { ident: "Bronze".to_string(), name: None, value: Some(Lit::Str("b".to_string())) },
        ]),
        option_type: Some(OptionType::Integer),
        builder: None,
    };
    let reg = Registry { types: vec![TypeDecl::BasicOption(e)] };
    assert_eq!(
        reg.validate(),
        vec![found(Problem::ChoiceType, "Silver"), found(Problem::ChoiceType, "Bronze")]
    );
}

#[test]
fn field_type_must_be_an_option() {
    let reg = Registry {
        types: vec![sub(vec![]), sub(vec![field("x", Type { base: TypeRef::Declared(0), optional: false }, " X.")])],
    };
    assert_eq!(
        reg.validate(),
        vec![found(Problem::NotAnOption, "x"), found(Problem::NotAnOption, "x")]
    );
}

#[test]
fn named_field_needs_an_identifier() {
    let mut f = field("x", prim(Primitive::String), " X.");
    f.ident = None;
    let reg = Registry { types: vec![sub(vec![f])] };
    assert_eq!(reg.validate(), vec![found(Problem::MissingIdent, "")]);
}

#[test]
fn steps_add_to_the_accumulator() {
    let mut acc = Error::accumulator();
    acc.push(Error::custom("earlier"));
    let mut f = field("x", prim(Primitive::String), "");
    f.attrs = vec![];
    let reg = Registry { types: vec![] };
    assert!(!f.validate(&reg, 0, &mut acc));
    assert!(field("y", prim(Primitive::String), " Y.").validate(&reg, 0, &mut acc));
    let all: Vec<String> = acc.into_inner().into_iter().map(|e| e.to_string()).collect();
    assert_eq!(all, vec!["earlier".to_string(), found(Problem::MissingDocumentation, "x")]);
}

#[test]
fn messages_of_problems() {
    assert_eq!(Problem::MissingIdent.message(), "named field without an identifier");
    assert_eq!(Problem::NotAnOption.message(), "type is no option type that is built in or declared before");
    assert_eq!(
        Problem::AutocompleteUnsupported.message(),
        "#[command(autocomplete)] needs an inner type with an autocomplete counterpart"
    );
    assert_eq!(Problem::ChoiceType.message(), "value of the choice is not of the option type");
    assert_eq!(text(Problem::ChoiceType, &"Gold".to_string()), "value of the choice is not of the option type: Gold");
}
