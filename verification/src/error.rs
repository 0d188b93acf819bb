//! Errors raised while extracting data from an interaction.
use vstd::prelude::*;
use vstd::string::*;

verus! {

/// The kind tag of a command option on the wire.
#[derive(Clone, Copy, Debug, PartialEq, Eq, Structural)]
pub enum OptionKind {
    SubCommand,
    SubCommandGroup,
    String,
    Integer,
    Boolean,
    User,
    Channel,
    Role,
    Mentionable,
    Number,
    Attachment,
    Unknown(u8),
}

/// An error which can occur when extracting data from a command interaction.
#[derive(Debug)]
#[allow(inconsistent_fields)]
pub enum Error {
    /// An unknown command was provided.
    UnknownCommand(String),
    /// An incorrect command option type was provided.
    IncorrectCommandOptionType { got: OptionKind, expected: OptionKind },
    /// An incorrect number of command options were provided.
    IncorrectCommandOptionCount { got: usize, expected: usize },
    /// An unknown command option was provided.
    UnknownCommandOption(String),
    /// An unknown autocomplete option was provided.
    UnknownAutocompleteOption(String),
    /// A required command option was not provided.
    MissingRequiredCommandOption,
    /// An unexpected autocomplete option was provided.
    UnexpectedAutocompleteOption,
    /// An autocomplete option was not provided.
    MissingAutocompleteOption,
    /// An unknown choice was provided.
    UnknownChoice(String),
    /// An error occurred within a custom implementation.
    Custom(String),
}

/// The mathematical value of an [`Error`]: texts are sequences of characters.
#[allow(inconsistent_fields)]
pub ghost enum ErrorView {
    UnknownCommand(Seq<char>),
    IncorrectCommandOptionType { got: OptionKind, expected: OptionKind },
    IncorrectCommandOptionCount { got: int, expected: int },
    UnknownCommandOption(Seq<char>),
    UnknownAutocompleteOption(Seq<char>),
    MissingRequiredCommandOption,
    UnexpectedAutocompleteOption,
    MissingAutocompleteOption,
    UnknownChoice(Seq<char>),
    Custom(Seq<char>),
}

impl View for Error {
    type V = ErrorView;

    open spec fn view(&self) -> ErrorView {
        match self {
            Error::UnknownCommand(s) => ErrorView::UnknownCommand(s@),
            Error::IncorrectCommandOptionType { got, expected } => ErrorView::IncorrectCommandOptionType {
                got: *got,
                expected: *expected,
            },
            Error::IncorrectCommandOptionCount { got, expected } => ErrorView::IncorrectCommandOptionCount {
                got: *got as int,
                expected: *expected as int,
            },
            Error::UnknownCommandOption(s) => ErrorView::UnknownCommandOption(s@),
            Error::UnknownAutocompleteOption(s) => ErrorView::UnknownAutocompleteOption(s@),
            Error::MissingRequiredCommandOption => ErrorView::MissingRequiredCommandOption,
            Error::UnexpectedAutocompleteOption => ErrorView::UnexpectedAutocompleteOption,
            Error::MissingAutocompleteOption => ErrorView::MissingAutocompleteOption,
            Error::UnknownChoice(s) => ErrorView::UnknownChoice(s@),
            Error::Custom(s) => ErrorView::Custom(s@),
        }
    }
}

impl OptionKind {
    /// The name of the kind as it is shown in messages.
    pub open spec fn spec_name(&self) -> Seq<char> {
        match self {
            OptionKind::SubCommand => "SubCommand"@,
            OptionKind::SubCommandGroup => "SubCommandGroup"@,
            OptionKind::String => "String"@,
            OptionKind::Integer => "Integer"@,
            OptionKind::Boolean => "Boolean"@,
            OptionKind::User => "User"@,
            OptionKind::Channel => "Channel"@,
            OptionKind::Role => "Role"@,
            OptionKind::Mentionable => "Mentionable"@,
            OptionKind::Number => "Number"@,
            OptionKind::Attachment => "Attachment"@,
            OptionKind::Unknown(n) => "Unknown("@ + crate::utils::digits(*n as nat) + ")"@,
        }
    }

    /// The name of the kind as it is shown in messages.
    pub fn name(&self) -> (r: String)
        ensures
            r@ == self.spec_name(),
    {
        match self {
            OptionKind::SubCommand => String::from_str("SubCommand"),
            OptionKind::SubCommandGroup => String::from_str("SubCommandGroup"),
            OptionKind::String => String::from_str("String"),
            OptionKind::Integer => String::from_str("Integer"),
            OptionKind::Boolean => String::from_str("Boolean"),
            OptionKind::User => String::from_str("User"),
            OptionKind::Channel => String::from_str("Channel"),
            OptionKind::Role => String::from_str("Role"),
            OptionKind::Mentionable => String::from_str("Mentionable"),
            OptionKind::Number => String::from_str("Number"),
            OptionKind::Attachment => String::from_str("Attachment"),
            OptionKind::Unknown(n) => {
                let mut r = String::from_str("Unknown(");
                r.append(crate::utils::decimal_unsigned(*n as u64).as_str());
                r.append(")");
                r
            },
        }
    }
}

impl ErrorView {
    /// The message of the error.
    pub open spec fn message(&self) -> Seq<char> {
        match self {
            ErrorView::UnknownCommand(s) => "unknown command: "@ + *s,
            ErrorView::IncorrectCommandOptionType { got, expected } => "incorrect command option type: got "@
                + got.spec_name() + ", expected "@ + expected.spec_name(),
            ErrorView::IncorrectCommandOptionCount { got, expected } => "incorrect command option count: got "@
                + crate::utils::digits(*got as nat) + ", expected "@ + crate::utils::digits(*expected as nat),
            ErrorView::UnknownCommandOption(s) => "unknown command option: "@ + *s,
            ErrorView::UnknownAutocompleteOption(s) => "unknown autocomplete option: "@ + *s,
            ErrorView::MissingRequiredCommandOption => "required command option not provided"@,
            ErrorView::UnexpectedAutocompleteOption => "unexpected autocomplete option"@,
            ErrorView::MissingAutocompleteOption => "autocomplete option not provided"@,
            ErrorView::UnknownChoice(s) => "unknown choice: "@ + *s,
            ErrorView::Custom(s) => *s,
        }
    }
}

impl Error {
    /// The message of the error, for display.
    pub fn message(&self) -> (r: String)
        ensures
            r@ == self@.message(),
    {
        match self {
            Error::UnknownCommand(s) => String::from_str("unknown command: ").concat(s.as_str()),
            Error::IncorrectCommandOptionType { got, expected } => {
                let mut r = String::from_str("incorrect command option type: got ");
                r.append(got.name().as_str());
                r.append(", expected ");
                r.append(expected.name().as_str());
                r
            },
            Error::IncorrectCommandOptionCount { got, expected } => {
                let mut r = String::from_str("incorrect command option count: got ");
                r.append(crate::utils::decimal_unsigned(*got as u64).as_str());
                r.append(", expected ");
                r.append(crate::utils::decimal_unsigned(*expected as u64).as_str());
                r
            },
            Error::UnknownCommandOption(s) => String::from_str("unknown command option: ").concat(s.as_str()),
            Error::UnknownAutocompleteOption(s) => String::from_str("unknown autocomplete option: ").concat(
                s.as_str(),
            ),
            Error::MissingRequiredCommandOption => String::from_str("required command option not provided"),
            Error::UnexpectedAutocompleteOption => String::from_str("unexpected autocomplete option"),
            Error::MissingAutocompleteOption => String::from_str("autocomplete option not provided"),
            Error::UnknownChoice(s) => String::from_str("unknown choice: ").concat(s.as_str()),
            Error::Custom(s) => s.clone(),
        }
    }
}

} // verus!
