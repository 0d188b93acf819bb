use serenity_commands::basic_option;
use serenity_commands::decl::Fields;
use serenity_commands::decl::IntType;
use serenity_commands::decl::Primitive;
use serenity_commands::decl::Registry;
use serenity_commands::decl::Style;
use serenity_commands::decl::Type;
use serenity_commands::decl::TypeDecl;
use serenity_commands::decl::TypeRef;
use serenity_commands::registry::int_named;
use serenity_commands::registry::primitive_named;
use serenity_commands::sub_command;

#[test]
fn built_in_types_by_name() {
    assert_eq!(primitive_named("String"), Some(Primitive::String));
    assert_eq!(primitive_named("bool"), Some(Primitive::Boolean));
    assert_eq!(primitive_named("char"), Some(Primitive::Char));
    assert_eq!(primitive_named("f64"), Some(Primitive::Number));
    assert_eq!(primitive_named("f32"), Some(Primitive::Number));
    assert_eq!(primitive_named("UserId"), Some(Primitive::User));
    assert_eq!(primitive_named("ChannelId"), Some(Primitive::Channel));
    assert_eq!(primitive_named("RoleId"), Some(Primitive::Role));
    assert_eq!(primitive_named("GenericId"), Some(Primitive::Mentionable));
    assert_eq!(primitive_named("AttachmentId"), Some(Primitive::Attachment));
    assert_eq!(primitive_named("i64"), Some(Primitive::Integer(IntType::I64)));
    assert_eq!(primitive_named("u8"), Some(Primitive::Integer(IntType::U8)));
    assert_eq!(primitive_named("string"), None);
    assert_eq!(primitive_named(""), None);
    assert_eq!(primitive_named("Medal"), None);
}

#[test]
fn integer_types_by_name() {
    let all = [
        ("u8", IntType::U8),
        ("u16", IntType::U16),
        ("u32", IntType::U32),
        ("u64", IntType::U64),
        ("u128", IntType::U128),
        ("usize", IntType::Usize),
        ("i8", IntType::I8),
        ("i16", IntType::I16),
        ("i32", IntType::I32),
        ("i64", IntType::I64),
        ("i128", IntType::I128),
        ("isize", IntType::Isize),
    ];
    for (name, t) in all {
        assert_eq!(int_named(name), Some(t));
    }
    assert_eq!(int_named("u7"), None);
    assert_eq!(int_named("f64"), None);
}

fn sub(ident: &str) -> TypeDecl {
    TypeDecl::SubCommand(sub_command::Args {
        ident: ident.to_string(),
        data: Fields { style: Style::Unit, fields: vec![] },
        builder: None,
    })
}

#[test]
fn declared_types_by_name() {
    let medal = basic_option::Args {
        ident: "Medal".to_string(),
        data: basic_option::Data::Struct(Type { base: TypeRef::Primitive(Primitive::String), optional: false }),
        option_type: None,
        builder: None,
    };
    let reg = Registry { types: vec![sub("Time"), TypeDecl::BasicOption(medal), sub("Time"), sub("bool")] };
    assert_eq!(reg.type_named("Medal"), Some(TypeRef::Declared(1)));
    assert_eq!(reg.type_named("Time"), Some(TypeRef::Declared(0)));
    assert_eq!(reg.type_named("bool"), Some(TypeRef::Primitive(Primitive::Boolean)));
    assert_eq!(reg.type_named("Other"), None);
    assert_eq!(reg.types[1].ident(), "Medal");
}
