//! Slash-command schemas and option parsing, driven by declarations.
//!
//! A [`decl::Registry`] holds the declared types of an application: lists of
//! top-level commands, commands, sub-command groups, sub-commands and basic
//! options. From one declaration the library derives both the schema that is
//! registered with the command host and the parser that turns the options of
//! an interaction back into a value, so the two never drift apart.
//!
//! A registry is first validated ([`validate`]), which records every problem
//! of every declaration. On an accepted registry, each role builds its
//! schema ([`schema`]) and parses its input ([`wire`]) into a value
//! ([`value`]); declarations with flagged fields or variants also parse
//! autocomplete interactions ([`autocomplete`]), in which the siblings of
//! the option being typed may be parsed only in part ([`partial`]). What
//! holds of all of this for every declaration and every input is stated in
//! [`laws`].
pub mod autocomplete;
pub mod basic_option;
pub mod command;
pub mod commands;
pub mod decl;
pub mod error;
pub mod field;
pub mod laws;
pub mod option;
pub mod partial;
pub mod registry;
pub mod roles;
pub mod schema;
pub mod sub_command;
pub mod sub_command_group;
pub mod utils;
pub mod validate;
pub mod value;
pub mod variant;
pub mod wire;
