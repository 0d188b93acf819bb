//! The registry of declared types and the vocabulary that declarations share.
use vstd::prelude::*;

verus! {

/// The shape of a struct or of an enum variant.
#[derive(Clone, Copy, Debug, PartialEq, Eq, Structural)]
pub enum Style {
    /// No fields.
    Unit,
    /// Unnamed fields; every role accepts exactly one.
    Tuple,
    /// Named fields.
    Struct,
}

/// The built-in integer types.
#[derive(Clone, Copy, Debug, PartialEq, Eq, Structural)]
pub enum IntType {
    U8,
    U16,
    U32,
    U64,
    U128,
    Usize,
    I8,
    I16,
    I32,
    I64,
    I128,
    Isize,
}

/// The built-in option types.
#[derive(Clone, Copy, Debug, PartialEq, Eq, Structural)]
pub enum Primitive {
    String,
    Boolean,
    /// An integer of the given type; on the wire a 64-bit signed integer,
    /// which is converted as `as` converts it.
    Integer(IntType),
    /// A number, carried as the bit pattern of the double-precision value
    /// that was sent. Narrowing it to single precision is left to the
    /// caller.
    Number,
    User,
    Channel,
    Role,
    Mentionable,
    Attachment,
    /// A single character, sent as a string of length one.
    Char,
}

/// What a type expression names: a built-in option type, or a declared type
/// by its position in the registry.
#[derive(Clone, Copy, Debug, PartialEq, Eq, Structural)]
pub enum TypeRef {
    Primitive(Primitive),
    Declared(usize),
}

/// The type of a field: a base type, possibly wrapped in `Option`.
#[derive(Clone, Copy, Debug, PartialEq, Eq, Structural)]
pub struct Type {
    pub base: TypeRef,
    pub optional: bool,
}

/// One extra call that is appended to a schema builder: the method and the
/// text of its arguments.
#[derive(Debug)]
pub struct DetachedMethodCall {
    pub method: String,
    pub args: String,
}

/// The extra builder calls of a declaration, in the order they were written.
#[derive(Debug)]
pub struct BuilderMethodList {
    pub methods: Vec<DetachedMethodCall>,
}

/// The fields of a struct or of an enum variant, with their shape.
#[derive(Debug)]
pub struct Fields {
    pub style: Style,
    pub fields: Vec<crate::field::Field>,
}

impl Fields {
    /// The declared type that a tuple shape wraps: the type of its one
    /// field, where there is exactly one and it names a declared type.
    pub open spec fn spec_inner(&self) -> Option<usize> {
        if self.fields@.len() == 1 && !self.fields@[0].ty.optional {
            match self.fields@[0].ty.base {
                TypeRef::Declared(j) => Some(j),
                TypeRef::Primitive(_) => None,
            }
        } else {
            None
        }
    }

    /// The declared type that a tuple shape wraps.
    pub fn inner(&self) -> (r: Option<usize>)
        ensures
            r == self.spec_inner(),
    {
        if self.fields.len() == 1 && !self.fields[0].ty.optional {
            match self.fields[0].ty.base {
                TypeRef::Declared(j) => Some(j),
                TypeRef::Primitive(_) => None,
            }
        } else {
            None
        }
    }

    /// Whether one of the fields is flagged for autocomplete.
    pub open spec fn spec_any_autocomplete(&self) -> bool {
        exists|j: int| 0 <= j < self.fields@.len() && (#[trigger] self.fields@[j]).autocomplete
    }

    /// Whether a struct of this shape has an autocomplete counterpart, as a
    /// specification: one of its named fields is flagged, or the field
    /// of its tuple shape is.
    pub open spec fn spec_has_autocomplete(&self) -> bool {
        match self.style {
            Style::Struct => self.spec_any_autocomplete(),
            Style::Tuple => self.fields@.len() > 0 && self.fields@[0].autocomplete,
            Style::Unit => false,
        }
    }

    /// Whether a struct of this shape has an autocomplete counterpart.
    pub fn has_autocomplete(&self) -> (r: bool)
        ensures
            r == self.spec_has_autocomplete(),
    {
        match self.style {
            Style::Struct => {
                let mut j: usize = 0;
                while j < self.fields.len()
                    invariant
                        j <= self.fields@.len(),
                        self.style == Style::Struct,
                        forall|k: int| 0 <= k < j ==> !(#[trigger] self.fields@[k]).autocomplete,
                    decreases self.fields@.len() - j,
                {
                    if self.fields[j].autocomplete {
                        proof {
                            assert(self.fields@[j as int].autocomplete);
                        }
                        return true;
                    }
                    j = j + 1;
                }
                false
            },
            Style::Tuple => self.fields.len() > 0 && self.fields[0].autocomplete,
            Style::Unit => false,
        }
    }
}

/// A declared type together with the role it was declared for.
#[derive(Debug)]
pub enum TypeDecl {
    Commands(crate::commands::Args),
    Command(crate::command::Args),
    SubCommandGroup(crate::sub_command_group::Args),
    SubCommand(crate::sub_command::Args),
    BasicOption(crate::basic_option::Args),
}

/// The declared types of an application. A declaration refers to other
/// declared types by their position, and only to earlier ones.
#[derive(Debug)]
pub struct Registry {
    pub types: Vec<TypeDecl>,
}

impl Registry {
    /// Whether `j` names a basic option declared before `bound`.
    pub open spec fn is_basic_option(&self, j: int, bound: int) -> bool {
        0 <= j < bound && j < self.types@.len() && self.types@[j] is BasicOption
    }

    /// Whether `j` names a command declared before `bound`.
    pub open spec fn is_command(&self, j: int, bound: int) -> bool {
        0 <= j < bound && j < self.types@.len() && self.types@[j] is Command
    }

    /// Whether `j` names a sub-command declared before `bound`.
    pub open spec fn is_sub_command(&self, j: int, bound: int) -> bool {
        0 <= j < bound && j < self.types@.len() && self.types@[j] is SubCommand
    }

    /// Whether `j` names a sub-command group declared before `bound`. A
    /// sub-command can stand wherever a sub-command group can.
    pub open spec fn is_sub_command_group(&self, j: int, bound: int) -> bool {
        0 <= j < bound && j < self.types@.len() && (self.types@[j] is SubCommandGroup
            || self.types@[j] is SubCommand)
    }

    /// Whether the declaration at position `j` is accepted for its role.
    pub open spec fn valid_at(&self, j: int) -> bool {
        match self.types@[j] {
            TypeDecl::Commands(a) => a.valid(self, j),
            TypeDecl::Command(a) => a.valid(self, j),
            TypeDecl::SubCommandGroup(a) => a.valid(self, j),
            TypeDecl::SubCommand(a) => a.valid(self, j),
            TypeDecl::BasicOption(a) => a.valid(self, j),
        }
    }

    /// Every declaration is accepted for its role.
    pub open spec fn wf(&self) -> bool {
        forall|j: int| 0 <= j < self.types@.len() ==> #[trigger] self.valid_at(j)
    }

    /// Whether the declared type at `j` has an autocomplete counterpart.
    pub open spec fn supports_autocomplete(&self, j: int) -> bool {
        match self.types@[j] {
            TypeDecl::Commands(a) => a.supports_autocomplete(),
            TypeDecl::Command(a) => a.supports_autocomplete(),
            TypeDecl::SubCommandGroup(a) => a.supports_autocomplete(),
            TypeDecl::SubCommand(a) => a.supports_autocomplete(),
            TypeDecl::BasicOption(_) => false,
        }
    }
}

} // verus!
