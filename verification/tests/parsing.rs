use serenity_commands::basic_option;
use serenity_commands::basic_option::ChoiceVariant;
use serenity_commands::basic_option::Lit;
use serenity_commands::basic_option::OptionType;
use serenity_commands::command;
use serenity_commands::commands;
use serenity_commands::decl::Fields;
use serenity_commands::decl::IntType;
use serenity_commands::decl::Primitive;
use serenity_commands::decl::Registry;
use serenity_commands::decl::Style;
use serenity_commands::decl::Type;
use serenity_commands::decl::TypeDecl;
use serenity_commands::decl::TypeRef;
use serenity_commands::error::Error;
use serenity_commands::error::OptionKind;
use serenity_commands::field::Field;
use serenity_commands::option;
use serenity_commands::sub_command;
use serenity_commands::sub_command_group;
use serenity_commands::value::Leaf;
use serenity_commands::value::Value;
use serenity_commands::variant::Variant;
use serenity_commands::wire::CommandData;
use serenity_commands::wire::DataOption;
use serenity_commands::wire::OptionValue;

fn prim(p: Primitive) -> Type {
    Type { base: TypeRef::Primitive(p), optional: false }
}

fn field(ident: &str, ty: Type, doc: &str) -> Field {
    Field {
        ident: Some(ident.to_string()),
        ty,
        attrs: vec![doc.to_string()],
        name: None,
        builder: None,
        autocomplete: false,
        with: None,
    }
}

fn variant(ident: &str, style: Style, fields: Vec<Field>, doc: &str) -> Variant {
    Variant {
        ident: ident.to_string(),
        fields: Fields { style, fields },
        attrs: vec![doc.to_string()],
        name: None,
        builder: None,
        autocomplete: false,
        context_menu: None,
    }
}

fn ping_echo() -> (Registry, usize) {
    let all = commands::Args {
        ident: "AllCommands".to_string(),
        data: vec![
            variant("Ping", Style::Unit, vec![], " Ping the bot."),
            variant(
                "Echo",
                Style::Struct,
                vec![field("message", prim(Primitive::String), " The message to echo.")],
                " Echo a message.",
            ),
        ],
    };
    (Registry { types: vec![TypeDecl::Commands(all)] }, 0)
}

fn from_command_data(reg: &Registry, id: usize, data: &CommandData) -> Result<Value, Error> {
    assert!(reg.validate().is_empty());
    reg.from_command_data(id, data)
}

fn opt(name: &str, value: OptionValue) -> DataOption {
    DataOption { name: name.to_string(), value }
}

fn binary_operation() -> TypeDecl {
    TypeDecl::SubCommand(sub_command::Args {
        ident: "BinaryOperation".to_string(),
        data: Fields {
            style: Style::Struct,
            fields: vec![
                field("a", prim(Primitive::Number), " The first number."),
                field("b", prim(Primitive::Number), " The second number."),
            ],
        },
        builder: None,
    })
}

fn wrap(ident: &str, inner: usize, doc: &str) -> Variant {
    let mut f = field("unused", Type { base: TypeRef::Declared(inner), optional: false }, "");
    f.ident = None;
    f.attrs = vec![];
    variant(ident, Style::Tuple, vec![f], doc)
}

/// 0: BinaryOperation (sub-command), 1: Ops (group), 2: Math (command),
/// 3: AllCommands (command list).
fn math() -> Registry {
    let ops = sub_command_group::Args {
        ident: "Ops".to_string(),
        data: vec![
            wrap("Add", 0, " Add two numbers."),
            variant(
                "Negate",
                Style::Struct,
                vec![field("a", prim(Primitive::Number), " The number to negate.")],
                " Negate a number.",
            ),
            variant("Zero", Style::Unit, vec![], " Zero."),
        ],
        builder: None,
    };
    let math = command::Args {
        ident: "MathCommand".to_string(),
        data: command::Data::Enum(vec![
            wrap("Add", 0, " Add two numbers."),
            wrap("Ops", 1, " More operations."),
            variant(
                "Negate",
                Style::Struct,
                vec![field("a", prim(Primitive::Number), " The number to negate.")],
                " Negate a number.",
            ),
        ]),
        builder: None,
    };
    let all = commands::Args {
        ident: "AllCommands".to_string(),
        data: vec![variant("Ping", Style::Unit, vec![], " Ping the bot."), wrap("Math", 2, " Do math.")],
    };
    Registry {
        types: vec![
            binary_operation(),
            TypeDecl::SubCommandGroup(ops),
            TypeDecl::Command(math),
            TypeDecl::Commands(all),
        ],
    }
}

fn numbers(a: f64, b: f64) -> Vec<DataOption> {
    vec![opt("a", OptionValue::Number(a.to_bits())), opt("b", OptionValue::Number(b.to_bits()))]
}

#[test]
fn echo_parses_to_its_variant() {
    let (reg, id) = ping_echo();
    let data = CommandData {
        name: "echo".to_string(),
        options: vec![DataOption {
            name: "message".to_string(),
            value: OptionValue::String("hi".to_string()),
        }],
        autocomplete: false,
    };
    match from_command_data(&reg, id, &data) {
        Ok(Value::Variant(1, inner)) => match *inner {
            Value::Record(fields) => {
                assert_eq!(fields.len(), 1);
                assert!(matches!(&fields[0], Leaf::Str(s) if s == "hi"));
            }
            other => panic!("unexpected payload {:?}", other),
        },
        other => panic!("unexpected result {:?}", other),
    }
}

#[test]
fn ping_parses_to_unit_variant() {
    let (reg, id) = ping_echo();
    let data = CommandData { name: "ping".to_string(), options: vec![], autocomplete: false };
    match from_command_data(&reg, id, &data) {
        Ok(Value::Variant(0, inner)) => assert!(matches!(*inner, Value::Unit)),
        other => panic!("unexpected result {:?}", other),
    }
}

#[test]
fn bogus_is_an_unknown_command() {
    let (reg, id) = ping_echo();
    let data = CommandData { name: "bogus".to_string(), options: vec![], autocomplete: false };
    match from_command_data(&reg, id, &data) {
        Err(Error::UnknownCommand(name)) => assert_eq!(name, "bogus"),
        other => panic!("unexpected result {:?}", other),
    }
}

fn medal() -> Registry {
    let choice = |ident: &str, value: i64| ChoiceVariant {
        ident: ident.to_string(),
        name: Some(ident.to_string()),
        value: Some(Lit::Int(value)),
    };
    let medal = basic_option::Args {
        ident: "Medal".to_string(),
        data: basic_option::Data::Enum(vec![choice("Gold", 1), choice("Silver", 2), choice("Bronze", 3)]),
        option_type: Some(OptionType::Integer),
        builder: None,
    };
    Registry { types: vec![TypeDecl::BasicOption(medal)] }
}

#[test]
fn medal_two_is_silver() {
    let reg = medal();
    let ty = Type { base: TypeRef::Declared(0), optional: false };
    let r = option::from_value(&reg, 1, &ty, Some(&OptionValue::Integer(2)));
    assert!(matches!(r, Ok(Leaf::Choice(1))));
}

#[test]
fn medal_four_is_an_unknown_choice() {
    let reg = medal();
    let ty = Type { base: TypeRef::Declared(0), optional: false };
    match option::from_value(&reg, 1, &ty, Some(&OptionValue::Integer(4))) {
        Err(Error::UnknownChoice(text)) => assert_eq!(text, "4"),
        other => panic!("unexpected result {:?}", other),
    }
}

#[test]
fn medal_rejects_a_string() {
    let reg = medal();
    let ty = Type { base: TypeRef::Declared(0), optional: false };
    let r = option::from_value(&reg, 1, &ty, Some(&OptionValue::String("gold".to_string())));
    assert!(matches!(
        r,
        Err(Error::IncorrectCommandOptionType { got: OptionKind::String, expected: OptionKind::Integer })
    ));
}

#[test]
fn integer_round_trip() {
    let reg = Registry { types: vec![] };
    let r = option::from_value(&reg, 0, &prim(Primitive::Integer(IntType::I64)), Some(&OptionValue::Integer(42)));
    assert!(matches!(r, Ok(Leaf::Int(42))));
}

#[test]
fn command_struct_field_missing() {
    let add = command::Args {
        ident: "Add".to_string(),
        data: command::Data::Struct(Fields {
            style: Style::Struct,
            fields: vec![
                field("a", prim(Primitive::Integer(IntType::I64)), " First number."),
                field("b", prim(Primitive::Integer(IntType::I64)), " Second number."),
            ],
        }),
        builder: None,
    };
    let reg = Registry { types: vec![] };
    let options = vec![DataOption { name: "b".to_string(), value: OptionValue::Integer(7) }];
    let r = add.from_options(&reg, 0, &options);
    assert!(matches!(r, Err(Error::MissingRequiredCommandOption)));
}

#[test]
fn nested_sub_command_parses() {
    let reg = math();
    let data = CommandData {
        name: "math".to_string(),
        options: vec![opt("add", OptionValue::SubCommand(numbers(1.5, 2.0)))],
        autocomplete: false,
    };
    let r = from_command_data(&reg, 3, &data).unwrap();
    // AllCommands::Math(MathCommand::Add(BinaryOperation { a, b }))
    let Value::Variant(1, math) = r else { panic!("not the math variant") };
    let Value::Variant(0, add) = *math else { panic!("not the add variant") };
    let Value::Record(fields) = *add else { panic!("not a record") };
    assert!(matches!(fields[0], Leaf::Num(n) if f64::from_bits(n) == 1.5));
    assert!(matches!(fields[1], Leaf::Num(n) if f64::from_bits(n) == 2.0));
}

#[test]
fn nested_group_parses() {
    let reg = math();
    let group = OptionValue::SubCommandGroup(vec![opt("add", OptionValue::SubCommand(numbers(3.0, 4.0)))]);
    let data = CommandData { name: "math".to_string(), options: vec![opt("ops", group)], autocomplete: false };
    let r = from_command_data(&reg, 3, &data).unwrap();
    let Value::Variant(1, math) = r else { panic!("not the math variant") };
    let Value::Variant(1, ops) = *math else { panic!("not the ops variant") };
    let Value::Variant(0, add) = *ops else { panic!("not the add variant") };
    let Value::Record(fields) = *add else { panic!("not a record") };
    assert_eq!(fields.len(), 2);
}

#[test]
fn group_unit_variant_parses() {
    let reg = math();
    let group = OptionValue::SubCommandGroup(vec![opt("zero", OptionValue::SubCommand(vec![]))]);
    let data = CommandData { name: "math".to_string(), options: vec![opt("ops", group)], autocomplete: false };
    let r = from_command_data(&reg, 3, &data).unwrap();
    let Value::Variant(1, math) = r else { panic!("not the math variant") };
    let Value::Variant(1, ops) = *math else { panic!("not the ops variant") };
    assert!(matches!(*ops, Value::Variant(2, ref inner) if matches!(**inner, Value::Unit)));
}

#[test]
fn enum_command_wants_exactly_one_option() {
    let reg = math();
    let data = CommandData { name: "math".to_string(), options: vec![], autocomplete: false };
    assert!(matches!(
        from_command_data(&reg, 3, &data),
        Err(Error::IncorrectCommandOptionCount { got: 0, expected: 1 })
    ));
    let two = vec![
        opt("add", OptionValue::SubCommand(numbers(1.0, 2.0))),
        opt("add", OptionValue::SubCommand(numbers(1.0, 2.0))),
    ];
    let data = CommandData { name: "math".to_string(), options: two, autocomplete: false };
    assert!(matches!(
        from_command_data(&reg, 3, &data),
        Err(Error::IncorrectCommandOptionCount { got: 2, expected: 1 })
    ));
}

#[test]
fn unknown_sub_command_is_an_unknown_option() {
    let reg = math();
    let data = CommandData {
        name: "math".to_string(),
        options: vec![opt("divide", OptionValue::SubCommand(vec![]))],
        autocomplete: false,
    };
    match from_command_data(&reg, 3, &data) {
        Err(Error::UnknownCommandOption(name)) => assert_eq!(name, "divide"),
        other => panic!("unexpected result {:?}", other),
    }
}

#[test]
fn struct_variant_wants_a_sub_command() {
    let reg = math();
    let data = CommandData {
        name: "math".to_string(),
        options: vec![opt("negate", OptionValue::Integer(1))],
        autocomplete: false,
    };
    assert!(matches!(
        from_command_data(&reg, 3, &data),
        Err(Error::IncorrectCommandOptionType { got: OptionKind::Integer, expected: OptionKind::SubCommand })
    ));
}

#[test]
fn group_wants_a_group_value() {
    let reg = math();
    let data = CommandData {
        name: "math".to_string(),
        options: vec![opt("ops", OptionValue::SubCommand(vec![]))],
        autocomplete: false,
    };
    assert!(matches!(
        from_command_data(&reg, 3, &data),
        Err(Error::IncorrectCommandOptionType {
            got: OptionKind::SubCommand,
            expected: OptionKind::SubCommandGroup
        })
    ));
}

#[test]
fn autocomplete_data_is_unexpected() {
    let (reg, id) = ping_echo();
    let data = CommandData { name: "ping".to_string(), options: vec![], autocomplete: true };
    assert!(matches!(from_command_data(&reg, id, &data), Err(Error::UnexpectedAutocompleteOption)));
}

#[test]
fn unknown_option_is_reported_before_missing_ones() {
    let (reg, id) = ping_echo();
    let data = CommandData {
        name: "echo".to_string(),
        options: vec![opt("volume", OptionValue::Integer(3))],
        autocomplete: false,
    };
    match from_command_data(&reg, id, &data) {
        Err(Error::UnknownCommandOption(name)) => assert_eq!(name, "volume"),
        other => panic!("unexpected result {:?}", other),
    }
}

#[test]
fn options_are_matched_by_name_not_position() {
    let reg = Registry { types: vec![binary_operation()] };
    assert!(reg.validate().is_empty());
    let TypeDecl::SubCommand(op) = &reg.types[0] else { panic!() };
    let swapped = vec![opt("b", OptionValue::Number(2.0f64.to_bits())), opt("a", OptionValue::Number(1.0f64.to_bits()))];
    let Value::Record(fields) = op.from_value(&reg, 0, &OptionValue::SubCommand(swapped)).unwrap() else {
        panic!("not a record")
    };
    assert!(matches!(fields[0], Leaf::Num(n) if f64::from_bits(n) == 1.0));
    assert!(matches!(fields[1], Leaf::Num(n) if f64::from_bits(n) == 2.0));
}

#[test]
fn last_option_of_a_name_wins() {
    let reg = Registry { types: vec![binary_operation()] };
    let TypeDecl::SubCommand(op) = &reg.types[0] else { panic!() };
    let mut options = numbers(1.0, 2.0);
    options.push(opt("a", OptionValue::Number(9.0f64.to_bits())));
    let Value::Record(fields) = op.from_value(&reg, 0, &OptionValue::SubCommand(options)).unwrap() else {
        panic!("not a record")
    };
    assert!(matches!(fields[0], Leaf::Num(n) if f64::from_bits(n) == 9.0));
}

#[test]
fn optional_field_absent_and_present() {
    let ty = Type { base: TypeRef::Primitive(Primitive::String), optional: true };
    let reg = Registry { types: vec![] };
    assert!(matches!(option::from_value(&reg, 0, &ty, None), Ok(Leaf::Absent)));
    let v = OptionValue::String("x".to_string());
    match option::from_value(&reg, 0, &ty, Some(&v)) {
        Ok(Leaf::Present(inner)) => assert!(matches!(*inner, Leaf::Str(ref s) if s == "x")),
        other => panic!("unexpected result {:?}", other),
    }
    let wrong = OptionValue::Boolean(true);
    assert!(matches!(
        option::from_value(&reg, 0, &ty, Some(&wrong)),
        Err(Error::IncorrectCommandOptionType { got: OptionKind::Boolean, expected: OptionKind::String })
    ));
}

#[test]
fn optional_field_in_a_record() {
    let mut note = field("note", prim(Primitive::String), " A note.");
    note.ty.optional = true;
    let cmd = command::Args {
        ident: "Add".to_string(),
        data: command::Data::Struct(Fields {
            style: Style::Struct,
            fields: vec![field("a", prim(Primitive::Integer(IntType::I64)), " First number."), note],
        }),
        builder: None,
    };
    let reg = Registry { types: vec![TypeDecl::Command(cmd)] };
    assert!(reg.validate().is_empty());
    let Value::Record(fields) = reg.from_options(0, &vec![opt("a", OptionValue::Integer(5))]).unwrap() else {
        panic!("not a record")
    };
    assert!(matches!(fields[0], Leaf::Int(5)));
    assert!(matches!(fields[1], Leaf::Absent));
}

#[test]
fn primitives_round_trip() {
    let reg = Registry { types: vec![] };
    let parse = |p: Primitive, v: OptionValue| option::from_value(&reg, 0, &prim(p), Some(&v));
    assert!(matches!(parse(Primitive::Boolean, OptionValue::Boolean(true)), Ok(Leaf::Bool(true))));
    assert!(matches!(parse(Primitive::Integer(IntType::I64), OptionValue::Integer(-7)), Ok(Leaf::Int(-7))));
    assert!(matches!(parse(Primitive::User, OptionValue::User(11)), Ok(Leaf::Id(11))));
    assert!(matches!(parse(Primitive::Channel, OptionValue::Channel(12)), Ok(Leaf::Id(12))));
    assert!(matches!(parse(Primitive::Role, OptionValue::Role(13)), Ok(Leaf::Id(13))));
    assert!(matches!(parse(Primitive::Mentionable, OptionValue::Mentionable(14)), Ok(Leaf::Id(14))));
    assert!(matches!(parse(Primitive::Attachment, OptionValue::Attachment(15)), Ok(Leaf::Id(15))));
    assert!(matches!(
        parse(Primitive::Number, OptionValue::Number(2.5f64.to_bits())),
        Ok(Leaf::Num(n)) if f64::from_bits(n) == 2.5
    ));
    assert!(matches!(parse(Primitive::String, OptionValue::String("hi".to_string())), Ok(Leaf::Str(s)) if s == "hi"));
    assert!(matches!(
        parse(Primitive::User, OptionValue::Role(13)),
        Err(Error::IncorrectCommandOptionType { got: OptionKind::Role, expected: OptionKind::User })
    ));
    assert!(matches!(
        option::from_value(&reg, 0, &prim(Primitive::Boolean), None),
        Err(Error::MissingRequiredCommandOption)
    ));
}

#[test]
fn char_is_a_string_of_one_character() {
    let reg = Registry { types: vec![] };
    let parse = |s: &str| option::from_value(&reg, 0, &prim(Primitive::Char), Some(&OptionValue::String(s.to_string())));
    assert!(matches!(parse("é"), Ok(Leaf::Char('é'))));
    assert!(matches!(parse("ab"), Err(Error::Custom(m)) if m == "expected single character"));
    assert!(matches!(parse(""), Err(Error::Custom(m)) if m == "expected single character"));
}

#[test]
fn string_choices_default_to_kebab_case() {
    let choice = |ident: &str| ChoiceVariant { ident: ident.to_string(), name: None, value: None };
    let color = basic_option::Args {
        ident: "Color".to_string(),
        data: basic_option::Data::Enum(vec![choice("DarkRed"), choice("LightBlue")]),
        option_type: Some(OptionType::String),
        builder: None,
    };
    let reg = Registry { types: vec![TypeDecl::BasicOption(color)] };
    assert!(reg.validate().is_empty());
    let ty = Type { base: TypeRef::Declared(0), optional: false };
    let v = OptionValue::String("light-blue".to_string());
    assert!(matches!(option::from_value(&reg, 1, &ty, Some(&v)), Ok(Leaf::Choice(1))));
    let v = OptionValue::String("LightBlue".to_string());
    assert!(matches!(option::from_value(&reg, 1, &ty, Some(&v)), Err(Error::UnknownChoice(s)) if s == "LightBlue"));
}

#[test]
fn unknown_integer_choice_is_reported_in_decimal() {
    let reg = medal();
    let ty = Type { base: TypeRef::Declared(0), optional: false };
    for (n, text) in [(0i64, "0"), (-15, "-15"), (1234567890, "1234567890"), (i64::MIN, "-9223372036854775808")] {
        match option::from_value(&reg, 1, &ty, Some(&OptionValue::Integer(n))) {
            Err(Error::UnknownChoice(s)) => assert_eq!(s, text),
            other => panic!("unexpected result {:?}", other),
        }
    }
}

#[test]
fn newtype_option_wraps_its_inner_value() {
    let count = basic_option::Args {
        ident: "Count".to_string(),
        data: basic_option::Data::Struct(prim(Primitive::Integer(IntType::I64))),
        option_type: None,
        builder: None,
    };
    let reg = Registry { types: vec![TypeDecl::BasicOption(count)] };
    assert!(reg.validate().is_empty());
    let ty = Type { base: TypeRef::Declared(0), optional: false };
    match option::from_value(&reg, 1, &ty, Some(&OptionValue::Integer(3))) {
        Ok(Leaf::Wrapped(inner)) => assert!(matches!(*inner, Leaf::Int(3))),
        other => panic!("unexpected result {:?}", other),
    }
}

#[test]
fn name_override_is_used_for_dispatch() {
    let mut ping = variant("Ping", Style::Unit, vec![], " Ping the bot.");
    ping.name = Some("pong".to_string());
    let all = commands::Args { ident: "AllCommands".to_string(), data: vec![ping] };
    let reg = Registry { types: vec![TypeDecl::Commands(all)] };
    let data = CommandData { name: "pong".to_string(), options: vec![], autocomplete: false };
    assert!(matches!(from_command_data(&reg, 0, &data), Ok(Value::Variant(0, _))));
    let data = CommandData { name: "ping".to_string(), options: vec![], autocomplete: false };
    assert!(matches!(from_command_data(&reg, 0, &data), Err(Error::UnknownCommand(n)) if n == "ping"));
}

#[test]
fn first_of_two_variants_with_one_name_wins() {
    let mut second = variant("Other", Style::Unit, vec![], " Another.");
    second.name = Some("ping".to_string());
    let all = commands::Args {
        ident: "AllCommands".to_string(),
        data: vec![variant("Ping", Style::Unit, vec![], " Ping the bot."), second],
    };
    let reg = Registry { types: vec![TypeDecl::Commands(all)] };
    let data = CommandData { name: "ping".to_string(), options: vec![], autocomplete: false };
    assert!(matches!(from_command_data(&reg, 0, &data), Ok(Value::Variant(0, _))));
}

fn newtype(inner: usize) -> Fields {
    let f = Field {
        ident: None,
        ty: Type { base: TypeRef::Declared(inner), optional: false },
        attrs: vec![],
        name: None,
        builder: None,
        autocomplete: false,
        with: None,
    };
    Fields { style: Style::Tuple, fields: vec![f] }
}

#[test]
fn newtype_command_wraps_the_inner_value() {
    let add = command::Args {
        ident: "Add".to_string(),
        data: command::Data::Struct(Fields {
            style: Style::Struct,
            fields: vec![field("a", prim(Primitive::Integer(IntType::I64)), " First number.")],
        }),
        builder: None,
    };
    let outer = command::Args { ident: "Outer".to_string(), data: command::Data::Struct(newtype(0)), builder: None };
    let reg = Registry { types: vec![TypeDecl::Command(add), TypeDecl::Command(outer)] };
    assert!(reg.validate().is_empty());
    let Value::Newtype(inner) = reg.from_options(1, &vec![opt("a", OptionValue::Integer(5))]).unwrap() else {
        panic!("not a newtype")
    };
    let Value::Record(fields) = *inner else { panic!("not a record") };
    assert!(matches!(fields[0], Leaf::Int(5)));
    let c = reg.create_command(1, "outer".to_string(), "Outer.".to_string());
    assert_eq!(c.name, "outer");
    assert_eq!(c.description.as_deref(), Some("Outer."));
}

#[test]
fn newtype_sub_command_wraps_the_inner_value() {
    let outer = sub_command::Args { ident: "Outer".to_string(), data: newtype(0), builder: None };
    let reg = Registry { types: vec![binary_operation(), TypeDecl::SubCommand(outer)] };
    assert!(reg.validate().is_empty());
    let TypeDecl::SubCommand(outer) = &reg.types[1] else { panic!() };
    let r = outer.from_value(&reg, 1, &OptionValue::SubCommand(numbers(1.0, 2.0))).unwrap();
    let Value::Newtype(inner) = r else { panic!("not a newtype") };
    assert!(matches!(*inner, Value::Record(ref fields) if fields.len() == 2));
    let r = outer.from_value(&reg, 1, &OptionValue::Boolean(true));
    assert!(matches!(
        r,
        Err(Error::IncorrectCommandOptionType { got: OptionKind::Boolean, expected: OptionKind::SubCommand })
    ));
}

#[test]
fn unit_sub_command_wants_a_sub_command() {
    let unit = sub_command::Args {
        ident: "Time".to_string(),
        data: Fields { style: Style::Unit, fields: vec![] },
        builder: None,
    };
    let reg = Registry { types: vec![] };
    assert!(matches!(unit.from_value(&reg, 0, &OptionValue::SubCommand(vec![])), Ok(Value::Unit)));
    assert!(matches!(
        unit.from_value(&reg, 0, &OptionValue::String("x".to_string())),
        Err(Error::IncorrectCommandOptionType { got: OptionKind::String, expected: OptionKind::SubCommand })
    ));
    assert!(matches!(
        unit.from_value(&reg, 0, &OptionValue::SubCommandGroup(vec![])),
        Err(Error::IncorrectCommandOptionType {
            got: OptionKind::SubCommandGroup,
            expected: OptionKind::SubCommand
        })
    ));
}

#[test]
fn struct_variant_in_a_group_wants_a_sub_command() {
    let reg = math();
    let group = OptionValue::SubCommandGroup(vec![opt("negate", OptionValue::Number(1.0f64.to_bits()))]);
    let data = CommandData { name: "math".to_string(), options: vec![opt("ops", group)], autocomplete: false };
    assert!(matches!(
        from_command_data(&reg, 3, &data),
        Err(Error::IncorrectCommandOptionType { got: OptionKind::Number, expected: OptionKind::SubCommand })
    ));
}

#[test]
fn unit_variant_wants_a_sub_command() {
    let reg = math();
    let group = OptionValue::SubCommandGroup(vec![opt("zero", OptionValue::Boolean(true))]);
    let data = CommandData { name: "math".to_string(), options: vec![opt("ops", group)], autocomplete: false };
    assert!(matches!(
        from_command_data(&reg, 3, &data),
        Err(Error::IncorrectCommandOptionType { got: OptionKind::Boolean, expected: OptionKind::SubCommand })
    ));
    let unit = command::Args {
        ident: "Cmd".to_string(),
        data: command::Data::Enum(vec![variant("Now", Style::Unit, vec![], " Now.")]),
        builder: None,
    };
    let reg = Registry { types: vec![TypeDecl::Command(unit)] };
    assert!(reg.validate().is_empty());
    let r = reg.from_options(0, &vec![opt("now", OptionValue::SubCommand(vec![]))]).unwrap();
    assert!(matches!(r, Value::Variant(0, ref inner) if matches!(**inner, Value::Unit)));
    assert!(matches!(
        reg.from_options(0, &vec![opt("now", OptionValue::Integer(1))]),
        Err(Error::IncorrectCommandOptionType { got: OptionKind::Integer, expected: OptionKind::SubCommand })
    ));
}

#[test]
fn group_nested_in_a_group_is_not_parsed() {
    let reg = math();
    let deep = OptionValue::SubCommandGroup(vec![opt("add", OptionValue::SubCommand(numbers(1.0, 2.0)))]);
    for name in ["add", "negate", "zero"] {
        let inner = OptionValue::SubCommandGroup(vec![opt("add", OptionValue::SubCommand(numbers(1.0, 2.0)))]);
        let group = OptionValue::SubCommandGroup(vec![opt(name, inner)]);
        let data = CommandData { name: "math".to_string(), options: vec![opt("ops", group)], autocomplete: false };
        assert!(matches!(
            from_command_data(&reg, 3, &data),
            Err(Error::IncorrectCommandOptionType {
                got: OptionKind::SubCommandGroup,
                expected: OptionKind::SubCommand
            })
        ));
    }
    assert!(matches!(deep, OptionValue::SubCommandGroup(_)));
}

#[test]
fn group_wants_exactly_one_sub_command() {
    let reg = math();
    let group = OptionValue::SubCommandGroup(vec![]);
    let data = CommandData { name: "math".to_string(), options: vec![opt("ops", group)], autocomplete: false };
    assert!(matches!(
        from_command_data(&reg, 3, &data),
        Err(Error::IncorrectCommandOptionCount { got: 0, expected: 1 })
    ));
    let group = OptionValue::SubCommandGroup(vec![opt("sqrt", OptionValue::SubCommand(vec![]))]);
    let data = CommandData { name: "math".to_string(), options: vec![opt("ops", group)], autocomplete: false };
    assert!(matches!(from_command_data(&reg, 3, &data), Err(Error::UnknownCommandOption(n)) if n == "sqrt"));
}

#[test]
fn field_parsed_by_another_type() {
    let mut code = field("code", prim(Primitive::String), " The code.");
    code.with = Some(prim(Primitive::Integer(IntType::I64)));
    let cmd = command::Args {
        ident: "Cmd".to_string(),
        data: command::Data::Struct(Fields { style: Style::Struct, fields: vec![code] }),
        builder: None,
    };
    let reg = Registry { types: vec![] };
    let r = cmd.from_options(&reg, 0, &vec![opt("code", OptionValue::Integer(12))]).unwrap();
    assert!(matches!(r, Value::Record(ref fields) if matches!(fields[0], Leaf::Int(12))));
}
