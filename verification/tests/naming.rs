use serenity_commands::utils::IdentExt;
use serenity_commands::utils::autocomplete;
use serenity_commands::utils::decimal;
use serenity_commands::utils::documentation_string;
use serenity_commands::utils::kebab_name;
use serenity_commands::utils::strip_raw;
use serenity_commands::utils::title_name;
use serenity_commands::utils::to_kebab_case;
use serenity_commands::utils::to_pascal_case;
use serenity_commands::utils::to_title_case;
use serenity_commands::utils::trim;

#[test]
fn kebab_case_of_an_identifier() {
    assert_eq!(to_kebab_case(&"GetWordIndex".to_string()), "get-word-index");
    assert_eq!(to_kebab_case(&"message_text".to_string()), "message-text");
    assert_eq!(to_kebab_case(&"XMLHttpRequest".to_string()), "xml-http-request");
}

#[test]
fn title_case_of_an_identifier() {
    assert_eq!(to_title_case(&"GetWordIndex".to_string()), "Get Word Index");
    assert_eq!(to_title_case(&"gold".to_string()), "Gold");
}

#[test]
fn pascal_case_of_an_identifier() {
    assert_eq!(to_pascal_case(&"word".to_string()), "Word");
    assert_eq!(to_pascal_case(&"end_of_word".to_string()), "EndOfWord");
}

#[test]
fn raw_marker_is_removed() {
    assert_eq!(strip_raw("r#type"), "type");
    assert_eq!(strip_raw("type"), "type");
    assert_eq!(strip_raw("r#"), "");
    assert_eq!(strip_raw("r"), "r");
    assert_eq!(to_kebab_case(&"r#type".to_string()), "type");
    assert_eq!(to_pascal_case(&"r#type".to_string()), "Type");
    assert_eq!(to_title_case(&"r#loop".to_string()), "Loop");
}

#[test]
fn override_beats_the_identifier() {
    assert_eq!(kebab_name(&"GetWordIndex".to_string(), &Some("Index Of".to_string())), "Index Of");
    assert_eq!(kebab_name(&"GetWordIndex".to_string(), &None), "get-word-index");
    assert_eq!(title_name(&"GetWordIndex".to_string(), &Some("index".to_string())), "index");
    assert_eq!(title_name(&"GetWordIndex".to_string(), &None), "Get Word Index");
}

#[test]
fn autocomplete_identifier() {
    assert_eq!(autocomplete(&"AllCommands".to_string()), "AllCommandsAutocomplete");
}

#[test]
fn trim_removes_blank_space_at_both_ends() {
    assert_eq!(trim("  Ping the bot. \t"), "Ping the bot.");
    assert_eq!(trim("x"), "x");
    assert_eq!(trim(" \n "), "");
    assert_eq!(trim(""), "");
    assert_eq!(trim("a b"), "a b");
}

#[test]
fn documentation_lines_are_trimmed_and_joined() {
    let lines = vec![" Get the index".to_string(), " of a word. ".to_string()];
    assert_eq!(documentation_string(&lines), Some("Get the index of a word.".to_string()));
    assert_eq!(documentation_string(&vec![" Ping the bot.".to_string()]), Some("Ping the bot.".to_string()));
}

#[test]
fn missing_or_empty_documentation_gives_no_description() {
    assert_eq!(documentation_string(&vec![]), None);
    assert_eq!(documentation_string(&vec!["   ".to_string()]), None);
}

#[test]
fn decimal_text_of_integers() {
    assert_eq!(decimal(0), "0");
    assert_eq!(decimal(7), "7");
    assert_eq!(decimal(42), "42");
    assert_eq!(decimal(-1), "-1");
    assert_eq!(decimal(1000), "1000");
    assert_eq!(decimal(i64::MAX), i64::MAX.to_string());
    assert_eq!(decimal(i64::MIN), i64::MIN.to_string());
}

#[test]
fn names_through_the_identifier_trait() {
    let ident = "r#MatchResult".to_string();
    assert_eq!(IdentExt::to_kebab_case(&ident), "match-result");
    assert_eq!(IdentExt::to_title_case(&ident), "Match Result");
    assert_eq!(IdentExt::autocomplete(&"MatchResult".to_string()), "MatchResultAutocomplete");
}
