//! The options of an interaction as they arrive from the command host.
use vstd::prelude::*;
use crate::error::OptionKind;

verus! {

/// The value carried by one option of an interaction.
///
/// Identifiers (users, channels, roles, mentionables, attachments) are held
/// as their numeric snowflake, and a number as the bit pattern of its
/// double-precision value.
#[derive(Debug)]
pub enum OptionValue {
    /// The option that is being typed during an autocomplete interaction.
    Autocomplete { kind: OptionKind, value: String },
    Boolean(bool),
    Integer(i64),
    Number(u64),
    String(String),
    SubCommand(Vec<DataOption>),
    SubCommandGroup(Vec<DataOption>),
    Attachment(u64),
    Channel(u64),
    Mentionable(u64),
    Role(u64),
    User(u64),
    Unknown(u8),
}

/// One named option of an interaction.
#[derive(Debug)]
pub struct DataOption {
    pub name: String,
    pub value: OptionValue,
}

/// The data of a command interaction: which top-level command was invoked,
/// with which options, and whether one of them is being autocompleted.
#[derive(Debug)]
pub struct CommandData {
    pub name: String,
    pub options: Vec<DataOption>,
    pub autocomplete: bool,
}

impl OptionValue {
    /// The kind tag of this value, as a specification.
    pub open spec fn spec_kind(&self) -> OptionKind {
        match self {
            OptionValue::Autocomplete { kind, .. } => *kind,
            OptionValue::Boolean(_) => OptionKind::Boolean,
            OptionValue::Integer(_) => OptionKind::Integer,
            OptionValue::Number(_) => OptionKind::Number,
            OptionValue::String(_) => OptionKind::String,
            OptionValue::SubCommand(_) => OptionKind::SubCommand,
            OptionValue::SubCommandGroup(_) => OptionKind::SubCommandGroup,
            OptionValue::Attachment(_) => OptionKind::Attachment,
            OptionValue::Channel(_) => OptionKind::Channel,
            OptionValue::Mentionable(_) => OptionKind::Mentionable,
            OptionValue::Role(_) => OptionKind::Role,
            OptionValue::User(_) => OptionKind::User,
            OptionValue::Unknown(n) => OptionKind::Unknown(*n),
        }
    }

    /// The kind tag of this value.
    pub fn kind(&self) -> (k: OptionKind)
        ensures
            k == self.spec_kind(),
    {
        match self {
            OptionValue::Autocomplete { kind, .. } => *kind,
            OptionValue::Boolean(_) => OptionKind::Boolean,
            OptionValue::Integer(_) => OptionKind::Integer,
            OptionValue::Number(_) => OptionKind::Number,
            OptionValue::String(_) => OptionKind::String,
            OptionValue::SubCommand(_) => OptionKind::SubCommand,
            OptionValue::SubCommandGroup(_) => OptionKind::SubCommandGroup,
            OptionValue::Attachment(_) => OptionKind::Attachment,
            OptionValue::Channel(_) => OptionKind::Channel,
            OptionValue::Mentionable(_) => OptionKind::Mentionable,
            OptionValue::Role(_) => OptionKind::Role,
            OptionValue::User(_) => OptionKind::User,
            OptionValue::Unknown(n) => OptionKind::Unknown(*n),
        }
    }
}

impl DataOption {
    /// The kind tag of this option's value.
    pub fn kind(&self) -> (k: OptionKind)
        ensures
            k == self.value.spec_kind(),
    {
        self.value.kind()
    }
}

} // verus!
