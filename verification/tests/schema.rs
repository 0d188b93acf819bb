use serenity_commands::basic_option;
use serenity_commands::basic_option::ChoiceVariant;
use serenity_commands::basic_option::Lit;
use serenity_commands::basic_option::OptionType;
use serenity_commands::command;
use serenity_commands::commands;
use serenity_commands::decl::BuilderMethodList;
use serenity_commands::decl::DetachedMethodCall;
use serenity_commands::decl::Fields;
use serenity_commands::decl::IntType;
use serenity_commands::decl::Primitive;
use serenity_commands::decl::Registry;
use serenity_commands::decl::Style;
use serenity_commands::decl::Type;
use serenity_commands::decl::TypeDecl;
use serenity_commands::decl::TypeRef;
use serenity_commands::error::OptionKind;
use serenity_commands::field::Field;
use serenity_commands::option;
use serenity_commands::schema::CommandOptions;
use serenity_commands::schema::CommandType;
use serenity_commands::schema::CreateNested;
use serenity_commands::sub_command;
use serenity_commands::sub_command_group;
use serenity_commands::variant::ContextMenuType;
use serenity_commands::variant::Variant;

fn prim(p: Primitive) -> Type {
    Type { base: TypeRef::Primitive(p), optional: false }
}

fn field(ident: &str, ty: Type, doc: &str) -> Field {
    Field {
        ident: Some(ident.to_string()),
        ty,
        attrs: vec![doc.to_string()],
        name: None,
        builder: None,
        autocomplete: false,
        with: None,
    }
}

fn variant(ident: &str, style: Style, fields: Vec<Field>, doc: &str) -> Variant {
    Variant {
        ident: ident.to_string(),
        fields: Fields { style, fields },
        attrs: vec![doc.to_string()],
        name: None,
        builder: None,
        autocomplete: false,
        context_menu: None,
    }
}

fn wrap(ident: &str, inner: usize, doc: &str) -> Variant {
    let f = Field {
        ident: None,
        ty: Type { base: TypeRef::Declared(inner), optional: false },
        attrs: vec![],
        name: None,
        builder: None,
        autocomplete: false,
        with: None,
    };
    variant(ident, Style::Tuple, vec![f], doc)
}

fn call(method: &str, args: &str) -> DetachedMethodCall {
    DetachedMethodCall { method: method.to_string(), args: args.to_string() }
}

#[test]
fn ping_and_echo_are_two_commands() {
    let all = commands::Args {
        ident: "AllCommands".to_string(),
        data: vec![
            variant("Ping", Style::Unit, vec![], " Ping the bot."),
            variant(
                "Echo",
                Style::Struct,
                vec![field("message", prim(Primitive::String), " The message to echo.")],
                " Echo a message.",
            ),
        ],
    };
    let reg = Registry { types: vec![TypeDecl::Commands(all)] };
    assert!(reg.validate().is_empty());
    let commands = reg.create_commands(0);
    assert_eq!(commands.len(), 2);
    assert_eq!(commands[0].name, "ping");
    assert_eq!(commands[0].description.as_deref(), Some("Ping the bot."));
    assert_eq!(commands[0].kind, CommandType::ChatInput);
    assert!(matches!(commands[0].options, CommandOptions::Unset));
    assert_eq!(commands[1].name, "echo");
    assert_eq!(commands[1].description.as_deref(), Some("Echo a message."));
    let CommandOptions::Options(options) = &commands[1].options else { panic!("no options") };
    assert_eq!(options.len(), 1);
    assert_eq!(options[0].name, "message");
    assert_eq!(options[0].description, "The message to echo.");
    assert_eq!(options[0].kind, OptionKind::String);
    assert!(options[0].required);
    assert!(!options[0].autocomplete);
    assert!(options[0].choices.is_empty());
}

#[test]
fn context_menu_command_has_a_title_and_no_description() {
    let mut report = variant("ReportUser", Style::Unit, vec![], "");
    report.attrs = vec![];
    report.context_menu = Some(ContextMenuType::User);
    let mut pin = variant("PinMessage", Style::Unit, vec![], "");
    pin.attrs = vec![];
    pin.context_menu = Some(ContextMenuType::Message);
    let all = commands::Args { ident: "Menus".to_string(), data: vec![report, pin] };
    let reg = Registry { types: vec![TypeDecl::Commands(all)] };
    assert!(reg.validate().is_empty());
    let commands = reg.create_commands(0);
    assert_eq!(commands[0].name, "Report User");
    assert_eq!(commands[0].description, None);
    assert_eq!(commands[0].kind, CommandType::User);
    assert_eq!(commands[1].name, "Pin Message");
    assert_eq!(commands[1].kind, CommandType::Message);
}

#[test]
fn primitive_option_kinds() {
    let reg = Registry { types: vec![] };
    let kind = |p: Primitive| option::create_option(&reg, 0, &prim(p), "n".to_string(), "d".to_string()).kind;
    assert_eq!(kind(Primitive::String), OptionKind::String);
    assert_eq!(kind(Primitive::Boolean), OptionKind::Boolean);
    assert_eq!(kind(Primitive::Integer(IntType::I64)), OptionKind::Integer);
    assert_eq!(kind(Primitive::Number), OptionKind::Number);
    assert_eq!(kind(Primitive::User), OptionKind::User);
    assert_eq!(kind(Primitive::Channel), OptionKind::Channel);
    assert_eq!(kind(Primitive::Role), OptionKind::Role);
    assert_eq!(kind(Primitive::Mentionable), OptionKind::Mentionable);
    assert_eq!(kind(Primitive::Attachment), OptionKind::Attachment);
    assert_eq!(kind(Primitive::Char), OptionKind::String);
}

#[test]
fn char_option_has_length_one() {
    let reg = Registry { types: vec![] };
    let o = option::create_option(&reg, 0, &prim(Primitive::Char), "c".to_string(), "d".to_string());
    assert_eq!(o.min_length, Some(1));
    assert_eq!(o.max_length, Some(1));
    let o = option::create_option(&reg, 0, &prim(Primitive::String), "c".to_string(), "d".to_string());
    assert_eq!(o.min_length, None);
    assert_eq!(o.max_length, None);
}

#[test]
fn optional_option_is_not_required() {
    let reg = Registry { types: vec![] };
    let ty = Type { base: TypeRef::Primitive(Primitive::Integer(IntType::I64)), optional: true };
    let o = option::create_option(&reg, 0, &ty, "count".to_string(), "How many.".to_string());
    assert!(!o.required);
    assert_eq!(o.kind, OptionKind::Integer);
    assert_eq!(o.name, "count");
    assert_eq!(o.description, "How many.");
}

#[test]
fn choice_enum_lists_its_choices() {
    let choice = |ident: &str, value: i64| ChoiceVariant {
        ident: ident.to_string(),
        name: None,
        value: Some(Lit::Int(value)),
    };
    let medal = basic_option::Args {
        ident: "Medal".to_string(),
        data: basic_option::Data::Enum(vec![choice("Gold", 1), choice("SilverGilt", 2)]),
        option_type: Some(OptionType::Integer),
        builder: Some(BuilderMethodList { methods: vec![call("min_int_value", "1")] }),
    };
    let reg = Registry { types: vec![TypeDecl::BasicOption(medal)] };
    assert!(reg.validate().is_empty());
    let ty = Type { base: TypeRef::Declared(0), optional: false };
    let o = option::create_option(&reg, 1, &ty, "medal".to_string(), "The medal.".to_string());
    assert_eq!(o.kind, OptionKind::Integer);
    assert!(o.required);
    assert_eq!(o.choices.len(), 2);
    assert_eq!(o.choices[0].name, "Gold");
    assert!(matches!(o.choices[0].value, Lit::Int(1)));
    assert_eq!(o.choices[1].name, "Silver Gilt");
    assert!(matches!(o.choices[1].value, Lit::Int(2)));
    assert_eq!(o.calls.len(), 1);
    assert_eq!(o.calls[0].method, "min_int_value");
    assert_eq!(o.calls[0].args, "1");
}

#[test]
fn field_option_carries_flag_and_builder_calls() {
    let mut word = field("search_word", prim(Primitive::String), " The word to find.");
    word.autocomplete = true;
    word.builder = Some(BuilderMethodList { methods: vec![call("min_length", "2"), call("max_length", "10")] });
    let reg = Registry { types: vec![] };
    let o = word.create_option(&reg, 0);
    assert_eq!(o.name, "search-word");
    assert_eq!(o.description, "The word to find.");
    assert!(o.autocomplete);
    assert!(o.required);
    assert_eq!(o.calls.len(), 2);
    assert_eq!(o.calls[0].method, "min_length");
    assert_eq!(o.calls[1].method, "max_length");
    assert_eq!(o.calls[1].args, "10");
}

#[test]
fn field_built_by_another_type() {
    let mut f = field("code", prim(Primitive::String), " The code.");
    f.with = Some(prim(Primitive::Integer(IntType::I64)));
    let reg = Registry { types: vec![] };
    assert_eq!(f.create_option(&reg, 0).kind, OptionKind::Integer);
}

fn math() -> Registry {
    let binary = sub_command::Args {
        ident: "BinaryOperation".to_string(),
        data: Fields {
            style: Style::Struct,
            fields: vec![
                field("a", prim(Primitive::Number), " The first number."),
                field("b", prim(Primitive::Number), " The second number."),
            ],
        },
        builder: None,
    };
    let ops = sub_command_group::Args {
        ident: "Ops".to_string(),
        data: vec![wrap("Add", 0, " Add two numbers."), variant("Zero", Style::Unit, vec![], " Zero.")],
        builder: None,
    };
    let math = command::Args {
        ident: "MathCommand".to_string(),
        data: command::Data::Enum(vec![
            wrap("Add", 0, " Add two numbers."),
            wrap("Ops", 1, " More operations."),
            variant(
                "Negate",
                Style::Struct,
                vec![field("a", prim(Primitive::Number), " The number to negate.")],
                " Negate a number.",
            ),
        ]),
        builder: None,
    };
    let all = commands::Args { ident: "AllCommands".to_string(), data: vec![wrap("Math", 2, " Do math.")] };
    Registry {
        types: vec![
            TypeDecl::SubCommand(binary),
            TypeDecl::SubCommandGroup(ops),
            TypeDecl::Command(math),
            TypeDecl::Commands(all),
        ],
    }
}

#[test]
fn nested_schema_of_an_enum_command() {
    let reg = math();
    assert!(reg.validate().is_empty());
    let commands = reg.create_commands(3);
    assert_eq!(commands.len(), 1);
    assert_eq!(commands[0].name, "math");
    assert_eq!(commands[0].description.as_deref(), Some("Do math."));
    let CommandOptions::Nested(nested) = &commands[0].options else { panic!("not nested") };
    assert_eq!(nested.len(), 3);
    let CreateNested::SubCommand(add) = &nested[0] else { panic!("not a sub-command") };
    assert_eq!(add.name, "add");
    assert_eq!(add.description, "Add two numbers.");
    assert_eq!(add.options.len(), 2);
    assert_eq!(add.options[0].name, "a");
    assert_eq!(add.options[1].name, "b");
    assert_eq!(add.options[1].kind, OptionKind::Number);
    let CreateNested::Group(ops) = &nested[1] else { panic!("not a group") };
    assert_eq!(ops.name, "ops");
    assert_eq!(ops.sub_commands.len(), 2);
    assert_eq!(ops.sub_commands[0].name, "add");
    assert_eq!(ops.sub_commands[0].options.len(), 2);
    assert_eq!(ops.sub_commands[1].name, "zero");
    assert!(ops.sub_commands[1].options.is_empty());
    let CreateNested::SubCommand(negate) = &nested[2] else { panic!("not a sub-command") };
    assert_eq!(negate.name, "negate");
    assert_eq!(negate.options.len(), 1);
}

#[test]
fn struct_command_schema() {
    let add = command::Args {
        ident: "Add".to_string(),
        data: command::Data::Struct(Fields {
            style: Style::Struct,
            fields: vec![field("a", prim(Primitive::Integer(IntType::I64)), " First number.")],
        }),
        builder: Some(BuilderMethodList { methods: vec![call("dm_permission", "false")] }),
    };
    let reg = Registry { types: vec![TypeDecl::Command(add)] };
    assert!(reg.validate().is_empty());
    let c = reg.create_command(0, "add".to_string(), "Add numbers.".to_string());
    assert_eq!(c.name, "add");
    assert_eq!(c.description.as_deref(), Some("Add numbers."));
    let CommandOptions::Options(options) = &c.options else { panic!("no options") };
    assert_eq!(options.len(), 1);
    assert_eq!(c.calls.len(), 1);
    assert_eq!(c.calls[0].method, "dm_permission");
}
