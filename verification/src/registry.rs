//! Entry points: schemas and parsers of the declared types of a registry,
//! by position, and what a type name stands for.
use vstd::prelude::*;
use vstd::string::*;
use crate::autocomplete::AutocompleteValue;
use crate::autocomplete::autocomplete_result_view;
use crate::decl::IntType;
use crate::decl::Primitive;
use crate::decl::Registry;
use crate::decl::TypeDecl;
use crate::decl::TypeRef;
use crate::error::Error;
use crate::schema::CreateCommand;
use crate::schema::commands_view;
use crate::value::Value;
use crate::value::result_view;
use crate::wire::CommandData;
use crate::wire::DataOption;

verus! {

impl Registry {
    /// The list of top-level commands declared at position `id`.
    pub open spec fn commands(&self, id: int) -> crate::commands::Args
        recommends
            0 <= id < self.types@.len(),
            self.types@[id] is Commands,
    {
        self.types@[id]->Commands_0
    }

    /// The command declared at position `id`.
    pub open spec fn command(&self, id: int) -> crate::command::Args
        recommends
            0 <= id < self.types@.len(),
            self.types@[id] is Command,
    {
        self.types@[id]->Command_0
    }

    /// Creates the schemas of the top-level commands of the list declared
    /// at position `id`.
    pub fn create_commands(&self, id: usize) -> (r: Vec<CreateCommand>)
        requires
            self.wf(),
            id < self.types@.len(),
            self.types@[id as int] is Commands,
        ensures
            commands_view(r@) == self.commands(id as int).spec_create_commands(self, id as int),
    {
        proof {
            assert(self.valid_at(id as int));
        }
        match &self.types[id] {
            TypeDecl::Commands(a) => a.create_commands(self, id),
            _ => Vec::new(),
        }
    }

    /// Extracts the invoked command of the list declared at position `id`
    /// from the data of a command interaction.
    pub fn from_command_data(&self, id: usize, data: &CommandData) -> (r: Result<Value, Error>)
        requires
            self.wf(),
            id < self.types@.len(),
            self.types@[id as int] is Commands,
        ensures
            result_view(r) == self.commands(id as int).spec_from_command_data(self, id as int, data),
    {
        proof {
            assert(self.valid_at(id as int));
        }
        match &self.types[id] {
            TypeDecl::Commands(a) => a.from_command_data(self, id, data),
            _ => Err(Error::UnexpectedAutocompleteOption),
        }
    }

    /// Extracts the command that is being typed from the data of an
    /// autocomplete interaction, for the list declared at position `id`.
    pub fn autocomplete_from_command_data(&self, id: usize, data: &CommandData) -> (r: Result<
        AutocompleteValue,
        Error,
    >)
        requires
            self.wf(),
            id < self.types@.len(),
            self.types@[id as int] is Commands,
        ensures
            autocomplete_result_view(r) == self.commands(id as int).spec_autocomplete_from_command_data(
                self,
                data,
            ),
    {
        proof {
            assert(self.valid_at(id as int));
        }
        match &self.types[id] {
            TypeDecl::Commands(a) => a.autocomplete_from_command_data(self, id, data),
            _ => Err(Error::MissingAutocompleteOption),
        }
    }

    /// Creates the schema of the command declared at position `id`, under
    /// a name and a description.
    pub fn create_command(&self, id: usize, name: String, description: String) -> (r: CreateCommand)
        requires
            self.wf(),
            id < self.types@.len(),
            self.types@[id as int] is Command,
        ensures
            r@ == self.command(id as int).spec_create_command(self, id as int, name@, description@),
    {
        proof {
            assert(self.valid_at(id as int));
        }
        match &self.types[id] {
            TypeDecl::Command(a) => a.create_command(self, id, name, description),
            _ => CreateCommand {
                name,
                description: None,
                kind: crate::schema::CommandType::ChatInput,
                options: crate::schema::CommandOptions::Unset,
                calls: Vec::new(),
            },
        }
    }

    /// Extracts the command declared at position `id` from a list of
    /// options.
    pub fn from_options(&self, id: usize, options: &Vec<DataOption>) -> (r: Result<Value, Error>)
        requires
            self.wf(),
            id < self.types@.len(),
            self.types@[id as int] is Command,
        ensures
            result_view(r) == self.command(id as int).spec_from_options(self, id as int, options@),
    {
        proof {
            assert(self.valid_at(id as int));
        }
        match &self.types[id] {
            TypeDecl::Command(a) => a.from_options(self, id, options),
            _ => Err(Error::MissingRequiredCommandOption),
        }
    }
}

fn is_named(name: &str, literal: &str) -> (b: bool)
    ensures
        b == (name@ == literal@),
{
    String::from_str(name) == String::from_str(literal)
}

/// The built-in option type that a type name stands for. Both
/// floating-point types stand for a number: the value is carried as the
/// double that was sent, and narrowing it is left to the caller.
pub open spec fn spec_primitive_named(name: Seq<char>) -> Option<Primitive> {
    if name == "String"@ {
        Some(Primitive::String)
    } else if name == "bool"@ {
        Some(Primitive::Boolean)
    } else if name == "char"@ {
        Some(Primitive::Char)
    } else if name == "f32"@ || name == "f64"@ {
        Some(Primitive::Number)
    } else if name == "UserId"@ {
        Some(Primitive::User)
    } else if name == "ChannelId"@ {
        Some(Primitive::Channel)
    } else if name == "RoleId"@ {
        Some(Primitive::Role)
    } else if name == "GenericId"@ {
        Some(Primitive::Mentionable)
    } else if name == "AttachmentId"@ {
        Some(Primitive::Attachment)
    } else {
        match spec_int_named(name) {
            Some(t) => Some(Primitive::Integer(t)),
            None => None,
        }
    }
}

/// The built-in integer type that a type name stands for.
pub open spec fn spec_int_named(name: Seq<char>) -> Option<IntType> {
    if name == "u8"@ {
        Some(IntType::U8)
    } else if name == "u16"@ {
        Some(IntType::U16)
    } else if name == "u32"@ {
        Some(IntType::U32)
    } else if name == "u64"@ {
        Some(IntType::U64)
    } else if name == "u128"@ {
        Some(IntType::U128)
    } else if name == "usize"@ {
        Some(IntType::Usize)
    } else if name == "i8"@ {
        Some(IntType::I8)
    } else if name == "i16"@ {
        Some(IntType::I16)
    } else if name == "i32"@ {
        Some(IntType::I32)
    } else if name == "i64"@ {
        Some(IntType::I64)
    } else if name == "i128"@ {
        Some(IntType::I128)
    } else if name == "isize"@ {
        Some(IntType::Isize)
    } else {
        None
    }
}

/// The built-in integer type that a type name stands for.
pub fn int_named(name: &str) -> (r: Option<IntType>)
    ensures
        r == spec_int_named(name@),
{
    if is_named(name, "u8") {
        Some(IntType::U8)
    } else if is_named(name, "u16") {
        Some(IntType::U16)
    } else if is_named(name, "u32") {
        Some(IntType::U32)
    } else if is_named(name, "u64") {
        Some(IntType::U64)
    } else if is_named(name, "u128") {
        Some(IntType::U128)
    } else if is_named(name, "usize") {
        Some(IntType::Usize)
    } else if is_named(name, "i8") {
        Some(IntType::I8)
    } else if is_named(name, "i16") {
        Some(IntType::I16)
    } else if is_named(name, "i32") {
        Some(IntType::I32)
    } else if is_named(name, "i64") {
        Some(IntType::I64)
    } else if is_named(name, "i128") {
        Some(IntType::I128)
    } else if is_named(name, "isize") {
        Some(IntType::Isize)
    } else {
        None
    }
}

/// The built-in option type that a type name stands for.
pub fn primitive_named(name: &str) -> (r: Option<Primitive>)
    ensures
        r == spec_primitive_named(name@),
{
    if is_named(name, "String") {
        Some(Primitive::String)
    } else if is_named(name, "bool") {
        Some(Primitive::Boolean)
    } else if is_named(name, "char") {
        Some(Primitive::Char)
    } else if is_named(name, "f32") || is_named(name, "f64") {
        Some(Primitive::Number)
    } else if is_named(name, "UserId") {
        Some(Primitive::User)
    } else if is_named(name, "ChannelId") {
        Some(Primitive::Channel)
    } else if is_named(name, "RoleId") {
        Some(Primitive::Role)
    } else if is_named(name, "GenericId") {
        Some(Primitive::Mentionable)
    } else if is_named(name, "AttachmentId") {
        Some(Primitive::Attachment)
    } else {
        match int_named(name) {
            Some(t) => Some(Primitive::Integer(t)),
            None => None,
        }
    }
}

impl TypeDecl {
    /// The identifier of the declared type, as a specification.
    pub open spec fn spec_ident(&self) -> Seq<char> {
        match self {
            TypeDecl::Commands(a) => a.ident@,
            TypeDecl::Command(a) => a.ident@,
            TypeDecl::SubCommandGroup(a) => a.ident@,
            TypeDecl::SubCommand(a) => a.ident@,
            TypeDecl::BasicOption(a) => a.ident@,
        }
    }

    /// The identifier of the declared type.
    pub fn ident(&self) -> (r: &String)
        ensures
            r@ == self.spec_ident(),
    {
        match self {
            TypeDecl::Commands(a) => &a.ident,
            TypeDecl::Command(a) => &a.ident,
            TypeDecl::SubCommandGroup(a) => &a.ident,
            TypeDecl::SubCommand(a) => &a.ident,
            TypeDecl::BasicOption(a) => &a.ident,
        }
    }
}

/// The position of the first declared type at or after `k` that goes by
/// the given identifier.
pub open spec fn find_declared(types: Seq<TypeDecl>, name: Seq<char>, k: int) -> Option<int>
    decreases types.len() - k,
{
    if k < 0 || k >= types.len() {
        None
    } else if types[k].spec_ident() == name {
        Some(k)
    } else {
        find_declared(types, name, k + 1)
    }
}

impl Registry {
    /// What a type name stands for: a built-in option type where it names
    /// one, else the first declared type that goes by it.
    pub open spec fn spec_type_named(&self, name: Seq<char>) -> Option<TypeRef> {
        match spec_primitive_named(name) {
            Some(p) => Some(TypeRef::Primitive(p)),
            None => match find_declared(self.types@, name, 0) {
                Some(j) => Some(TypeRef::Declared(j as usize)),
                None => None,
            },
        }
    }

    /// What a type name stands for, if it stands for anything.
    pub fn type_named(&self, name: &str) -> (r: Option<TypeRef>)
        ensures
            r == self.spec_type_named(name@),
            r matches Some(TypeRef::Declared(j)) ==> j < self.types@.len(),
    {
        match primitive_named(name) {
            Some(p) => {
                return Some(TypeRef::Primitive(p));
            },
            None => {},
        }
        let wanted = String::from_str(name);
        let mut k: usize = 0;
        while k < self.types.len()
            invariant
                k <= self.types@.len(),
                wanted@ == name@,
                spec_primitive_named(name@) is None,
                find_declared(self.types@, name@, 0) == find_declared(self.types@, name@, k as int),
            decreases self.types@.len() - k,
        {
            if *self.types[k].ident() == wanted {
                return Some(TypeRef::Declared(k));
            }
            k = k + 1;
        }
        None
    }
}

} // verus!
