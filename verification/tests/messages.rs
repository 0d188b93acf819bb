use serenity_commands::error::Error;
use serenity_commands::error::OptionKind;

#[test]
fn messages_of_errors() {
    assert_eq!(Error::UnknownCommand("bogus".to_string()).message(), "unknown command: bogus");
    assert_eq!(
        Error::IncorrectCommandOptionType { got: OptionKind::String, expected: OptionKind::Integer }.message(),
        "incorrect command option type: got String, expected Integer"
    );
    assert_eq!(
        Error::IncorrectCommandOptionType { got: OptionKind::Unknown(42), expected: OptionKind::SubCommandGroup }
            .message(),
        "incorrect command option type: got Unknown(42), expected SubCommandGroup"
    );
    assert_eq!(
        Error::IncorrectCommandOptionCount { got: 12, expected: 1 }.message(),
        "incorrect command option count: got 12, expected 1"
    );
    assert_eq!(Error::UnknownCommandOption("x".to_string()).message(), "unknown command option: x");
    assert_eq!(Error::UnknownAutocompleteOption("y".to_string()).message(), "unknown autocomplete option: y");
    assert_eq!(Error::MissingRequiredCommandOption.message(), "required command option not provided");
    assert_eq!(Error::UnexpectedAutocompleteOption.message(), "unexpected autocomplete option");
    assert_eq!(Error::MissingAutocompleteOption.message(), "autocomplete option not provided");
    assert_eq!(Error::UnknownChoice("4".to_string()).message(), "unknown choice: 4");
    assert_eq!(Error::Custom("expected single character".to_string()).message(), "expected single character");
}

#[test]
fn names_of_kinds() {
    assert_eq!(OptionKind::SubCommand.name(), "SubCommand");
    assert_eq!(OptionKind::Boolean.name(), "Boolean");
    assert_eq!(OptionKind::User.name(), "User");
    assert_eq!(OptionKind::Channel.name(), "Channel");
    assert_eq!(OptionKind::Role.name(), "Role");
    assert_eq!(OptionKind::Mentionable.name(), "Mentionable");
    assert_eq!(OptionKind::Number.name(), "Number");
    assert_eq!(OptionKind::Attachment.name(), "Attachment");
    assert_eq!(OptionKind::Unknown(0).name(), "Unknown(0)");
    assert_eq!(OptionKind::Unknown(255).name(), "Unknown(255)");
}
