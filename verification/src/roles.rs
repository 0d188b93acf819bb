//! The roles that a declaration can play, each with the schema it builds
//! and the input it parses. A role at one level of nesting hands what lies
//! deeper to the role of the type that it wraps.
use vstd::prelude::*;
use crate::autocomplete::AutocompleteValue;
use crate::autocomplete::AutocompleteView;
use crate::autocomplete::autocomplete_result_view;
use crate::decl::Registry;
use crate::decl::Type;
use crate::error::Error;
use crate::error::ErrorView;
use crate::option::owned;
use crate::schema::CommandView;
use crate::schema::CreateCommand;
use crate::schema::CreateNested;
use crate::schema::CreateOption;
use crate::schema::NestedView;
use crate::schema::OptionView;
use crate::schema::commands_view;
use crate::value::Leaf;
use crate::value::LeafView;
use crate::value::Value;
use crate::value::ValueView;
use crate::value::leaf_result_view;
use crate::value::result_view;
use crate::wire::CommandData;
use crate::wire::DataOption;
use crate::wire::OptionValue;

verus! {

/// A utility for creating commands and extracting their data from
/// application commands.
pub trait Commands {
    /// Whether the declaration is accepted in a registry, where it may
    /// refer to the types declared before `bound`.
    spec fn accepted(&self, reg: &Registry, bound: int) -> bool;

    /// The schemas of the top-level commands.
    spec fn schemas(&self, reg: &Registry, bound: int) -> Seq<CommandView>;

    /// What the data of a command interaction parses to.
    spec fn parsed(&self, reg: &Registry, bound: int, data: &CommandData) -> Result<ValueView, ErrorView>;

    /// List of top-level commands.
    fn create_commands(&self, reg: &Registry, bound: usize) -> (r: Vec<CreateCommand>)
        requires
            reg.wf(),
            bound <= reg.types@.len(),
            self.accepted(reg, bound as int),
        ensures
            commands_view(r@) == self.schemas(reg, bound as int),
    ;

    /// Extract data from the data of a command interaction.
    fn from_command_data(&self, reg: &Registry, bound: usize, data: &CommandData) -> (r: Result<Value, Error>)
        requires
            reg.wf(),
            bound <= reg.types@.len(),
            self.accepted(reg, bound as int),
        ensures
            result_view(r) == self.parsed(reg, bound as int, data),
    ;
}

/// A top-level command for use with [`Commands`].
pub trait Command {
    /// Whether the declaration is accepted in a registry, where it may
    /// refer to the types declared before `bound`.
    spec fn accepted(&self, reg: &Registry, bound: int) -> bool;

    /// The schema of the command under a name and a description.
    spec fn schema(&self, reg: &Registry, bound: int, name: Seq<char>, description: Seq<char>) -> CommandView;

    /// What a list of options parses to.
    spec fn parsed(&self, reg: &Registry, bound: int, options: Seq<DataOption>) -> Result<ValueView, ErrorView>;

    /// Create the command.
    fn create_command(&self, reg: &Registry, bound: usize, name: String, description: String) -> (r: CreateCommand)
        requires
            reg.wf(),
            bound <= reg.types@.len(),
            self.accepted(reg, bound as int),
        ensures
            r@ == self.schema(reg, bound as int, name@, description@),
    ;

    /// Extract data from a list of options.
    fn from_options(&self, reg: &Registry, bound: usize, options: &Vec<DataOption>) -> (r: Result<Value, Error>)
        requires
            reg.wf(),
            bound <= reg.types@.len(),
            self.accepted(reg, bound as int),
        ensures
            result_view(r) == self.parsed(reg, bound as int, options@),
    ;
}

/// A sub-command group which can be nested inside of a [`Command`] and
/// contains [`SubCommand`]s.
///
/// This is a super-trait of [`SubCommand`], as a [`SubCommand`] can be used
/// anywhere a [`SubCommandGroup`] can.
pub trait SubCommandGroup {
    /// Whether the declaration is accepted in a registry, where it may
    /// refer to the types declared before `bound`.
    spec fn accepted(&self, reg: &Registry, bound: int) -> bool;

    /// The schema of the option under a name and a description.
    spec fn schema(&self, reg: &Registry, bound: int, name: Seq<char>, description: Seq<char>) -> NestedView;

    /// What a wire value parses to.
    spec fn parsed(&self, reg: &Registry, bound: int, value: &OptionValue) -> Result<ValueView, ErrorView>;

    /// Create the command option.
    fn create_option(&self, reg: &Registry, bound: usize, name: String, description: String) -> (r: CreateNested)
        requires
            reg.wf(),
            bound <= reg.types@.len(),
            self.accepted(reg, bound as int),
        ensures
            r@ == self.schema(reg, bound as int, name@, description@),
    ;

    /// Extract data from a wire value.
    fn from_value(&self, reg: &Registry, bound: usize, value: &OptionValue) -> (r: Result<Value, Error>)
        requires
            reg.wf(),
            bound <= reg.types@.len(),
            self.accepted(reg, bound as int),
        ensures
            result_view(r) == self.parsed(reg, bound as int, value),
    ;
}

/// A sub-command which can be nested inside of a [`Command`] or
/// [`SubCommandGroup`].
///
/// This is a sub-trait of [`SubCommandGroup`], as a [`SubCommand`] can be
/// used anywhere a [`SubCommandGroup`] can.
pub trait SubCommand: SubCommandGroup {

}

/// A basic option which can be nested inside of [`Command`]s or
/// [`SubCommand`]s.
pub trait BasicOption {
    /// Whether the type is accepted in a registry, where it may refer to
    /// the types declared before `bound`.
    spec fn accepted(&self, reg: &Registry, bound: int) -> bool;

    /// The schema of the option under a name and a description.
    spec fn schema(&self, reg: &Registry, bound: int, name: Seq<char>, description: Seq<char>) -> OptionView;

    /// What a wire value, or its absence, parses to.
    spec fn parsed(&self, reg: &Registry, bound: int, value: Option<OptionValue>) -> Result<LeafView, ErrorView>;

    /// Create the command option.
    fn create_option(&self, reg: &Registry, bound: usize, name: String, description: String) -> (r: CreateOption)
        requires
            reg.wf(),
            bound <= reg.types@.len(),
            self.accepted(reg, bound as int),
        ensures
            r@ == self.schema(reg, bound as int, name@, description@),
    ;

    /// Extract data from a wire value.
    fn from_value(&self, reg: &Registry, bound: usize, value: Option<&OptionValue>) -> (r: Result<Leaf, Error>)
        requires
            reg.wf(),
            bound <= reg.types@.len(),
            self.accepted(reg, bound as int),
        ensures
            leaf_result_view(r) == self.parsed(reg, bound as int, owned(value)),
    ;
}

impl Commands for crate::commands::Args {
    open spec fn accepted(&self, reg: &Registry, bound: int) -> bool {
        self.valid(reg, bound)
    }

    open spec fn schemas(&self, reg: &Registry, bound: int) -> Seq<CommandView> {
        self.spec_create_commands(reg, bound)
    }

    open spec fn parsed(&self, reg: &Registry, bound: int, data: &CommandData) -> Result<ValueView, ErrorView> {
        self.spec_from_command_data(reg, bound, data)
    }

    fn create_commands(&self, reg: &Registry, bound: usize) -> (r: Vec<CreateCommand>) {
        crate::commands::Args::create_commands(self, reg, bound)
    }

    fn from_command_data(&self, reg: &Registry, bound: usize, data: &CommandData) -> (r: Result<Value, Error>) {
        crate::commands::Args::from_command_data(self, reg, bound, data)
    }
}

impl Command for crate::command::Args {
    open spec fn accepted(&self, reg: &Registry, bound: int) -> bool {
        self.valid(reg, bound)
    }

    open spec fn schema(&self, reg: &Registry, bound: int, name: Seq<char>, description: Seq<char>) -> CommandView {
        self.spec_create_command(reg, bound, name, description)
    }

    open spec fn parsed(&self, reg: &Registry, bound: int, options: Seq<DataOption>) -> Result<
        ValueView,
        ErrorView,
    > {
        self.spec_from_options(reg, bound, options)
    }

    fn create_command(&self, reg: &Registry, bound: usize, name: String, description: String) -> (r: CreateCommand) {
        crate::command::Args::create_command(self, reg, bound, name, description)
    }

    fn from_options(&self, reg: &Registry, bound: usize, options: &Vec<DataOption>) -> (r: Result<Value, Error>) {
        crate::command::Args::from_options(self, reg, bound, options)
    }
}

impl SubCommandGroup for crate::sub_command_group::Args {
    open spec fn accepted(&self, reg: &Registry, bound: int) -> bool {
        self.valid(reg, bound)
    }

    open spec fn schema(&self, reg: &Registry, bound: int, name: Seq<char>, description: Seq<char>) -> NestedView {
        NestedView::Group(self.spec_create_option(reg, bound, name, description))
    }

    open spec fn parsed(&self, reg: &Registry, bound: int, value: &OptionValue) -> Result<ValueView, ErrorView> {
        self.spec_from_value(reg, bound, value)
    }

    fn create_option(&self, reg: &Registry, bound: usize, name: String, description: String) -> (r: CreateNested) {
        CreateNested::Group(crate::sub_command_group::Args::create_option(self, reg, bound, name, description))
    }

    fn from_value(&self, reg: &Registry, bound: usize, value: &OptionValue) -> (r: Result<Value, Error>) {
        crate::sub_command_group::Args::from_value(self, reg, bound, value)
    }
}

impl SubCommandGroup for crate::sub_command::Args {
    open spec fn accepted(&self, reg: &Registry, bound: int) -> bool {
        self.valid(reg, bound)
    }

    open spec fn schema(&self, reg: &Registry, bound: int, name: Seq<char>, description: Seq<char>) -> NestedView {
        NestedView::SubCommand(self.spec_create_option(reg, bound, name, description))
    }

    open spec fn parsed(&self, reg: &Registry, bound: int, value: &OptionValue) -> Result<ValueView, ErrorView> {
        self.spec_from_value(reg, bound, value)
    }

    fn create_option(&self, reg: &Registry, bound: usize, name: String, description: String) -> (r: CreateNested) {
        CreateNested::SubCommand(crate::sub_command::Args::create_option(self, reg, bound, name, description))
    }

    fn from_value(&self, reg: &Registry, bound: usize, value: &OptionValue) -> (r: Result<Value, Error>) {
        crate::sub_command::Args::from_value(self, reg, bound, value)
    }
}

impl SubCommand for crate::sub_command::Args {

}

impl BasicOption for Type {
    open spec fn accepted(&self, reg: &Registry, bound: int) -> bool {
        crate::option::type_ok(reg, *self, bound)
    }

    open spec fn schema(&self, reg: &Registry, bound: int, name: Seq<char>, description: Seq<char>) -> OptionView {
        crate::option::spec_create_option(reg, bound, *self, name, description)
    }

    open spec fn parsed(&self, reg: &Registry, bound: int, value: Option<OptionValue>) -> Result<
        LeafView,
        ErrorView,
    > {
        crate::option::spec_from_value(reg, bound, *self, value)
    }

    fn create_option(&self, reg: &Registry, bound: usize, name: String, description: String) -> (r: CreateOption) {
        crate::option::create_option(reg, bound, self, name, description)
    }

    fn from_value(&self, reg: &Registry, bound: usize, value: Option<&OptionValue>) -> (r: Result<Leaf, Error>) {
        crate::option::from_value(reg, bound, self, value)
    }
}

/// A utility for extracting data from an autocomplete interaction.
pub trait AutocompleteCommands {
    /// Whether the declaration is accepted in a registry, where it may
    /// refer to the types declared before `bound`.
    spec fn accepted(&self, reg: &Registry, bound: int) -> bool;

    /// What the data of an autocomplete interaction parses to.
    spec fn parsed(&self, reg: &Registry, data: &CommandData) -> Result<AutocompleteView, ErrorView>;

    /// Extract data from the data of an autocomplete interaction.
    fn from_command_data(&self, reg: &Registry, bound: usize, data: &CommandData) -> (r: Result<
        AutocompleteValue,
        Error,
    >)
        requires
            reg.wf(),
            bound <= reg.types@.len(),
            self.accepted(reg, bound as int),
        ensures
            autocomplete_result_view(r) == self.parsed(reg, data),
    ;
}

/// A top-level command for use with [`AutocompleteCommands`].
pub trait AutocompleteCommand {
    /// Whether the declaration is accepted in a registry, where it may
    /// refer to the types declared before `bound`, and has an
    /// autocomplete counterpart.
    spec fn accepted(&self, reg: &Registry, bound: int) -> bool;

    /// What a list of options parses to in an autocomplete interaction.
    spec fn parsed(&self, reg: &Registry, bound: int, options: Seq<DataOption>) -> Result<
        AutocompleteView,
        ErrorView,
    >;

    /// Extract data from a list of options.
    fn from_options(&self, reg: &Registry, bound: usize, options: &Vec<DataOption>) -> (r: Result<
        AutocompleteValue,
        Error,
    >)
        requires
            reg.wf(),
            bound <= reg.types@.len(),
            self.accepted(reg, bound as int),
        ensures
            autocomplete_result_view(r) == self.parsed(reg, bound as int, options@),
    ;
}

/// A sub-command or a sub-command group which can be nested inside of an
/// [`AutocompleteCommand`].
pub trait AutocompleteSubCommandOrGroup {
    /// Whether the declaration is accepted in a registry, where it may
    /// refer to the types declared before `bound`, and has an
    /// autocomplete counterpart.
    spec fn accepted(&self, reg: &Registry, bound: int) -> bool;

    /// What a wire value parses to in an autocomplete interaction.
    spec fn parsed(&self, reg: &Registry, bound: int, value: &OptionValue) -> Result<AutocompleteView, ErrorView>;

    /// Extract data from a wire value.
    fn from_value(&self, reg: &Registry, bound: usize, value: &OptionValue) -> (r: Result<AutocompleteValue, Error>)
        requires
            reg.wf(),
            bound <= reg.types@.len(),
            self.accepted(reg, bound as int),
        ensures
            autocomplete_result_view(r) == self.parsed(reg, bound as int, value),
    ;
}

impl AutocompleteCommands for crate::commands::Args {
    open spec fn accepted(&self, reg: &Registry, bound: int) -> bool {
        self.valid(reg, bound)
    }

    open spec fn parsed(&self, reg: &Registry, data: &CommandData) -> Result<AutocompleteView, ErrorView> {
        self.spec_autocomplete_from_command_data(reg, data)
    }

    fn from_command_data(&self, reg: &Registry, bound: usize, data: &CommandData) -> (r: Result<
        AutocompleteValue,
        Error,
    >) {
        self.autocomplete_from_command_data(reg, bound, data)
    }
}

impl AutocompleteCommand for crate::command::Args {
    open spec fn accepted(&self, reg: &Registry, bound: int) -> bool {
        self.valid(reg, bound) && self.supports_autocomplete()
    }

    open spec fn parsed(&self, reg: &Registry, bound: int, options: Seq<DataOption>) -> Result<
        AutocompleteView,
        ErrorView,
    > {
        self.spec_autocomplete_from_options(reg, bound, options)
    }

    fn from_options(&self, reg: &Registry, bound: usize, options: &Vec<DataOption>) -> (r: Result<
        AutocompleteValue,
        Error,
    >) {
        self.autocomplete_from_options(reg, bound, options)
    }
}

impl AutocompleteSubCommandOrGroup for crate::sub_command_group::Args {
    open spec fn accepted(&self, reg: &Registry, bound: int) -> bool {
        self.valid(reg, bound)
    }

    open spec fn parsed(&self, reg: &Registry, bound: int, value: &OptionValue) -> Result<
        AutocompleteView,
        ErrorView,
    > {
        self.spec_autocomplete_from_value(reg, bound, value)
    }

    fn from_value(&self, reg: &Registry, bound: usize, value: &OptionValue) -> (r: Result<AutocompleteValue, Error>) {
        self.autocomplete_from_value(reg, bound, value)
    }
}

impl AutocompleteSubCommandOrGroup for crate::sub_command::Args {
    open spec fn accepted(&self, reg: &Registry, bound: int) -> bool {
        self.valid(reg, bound) && self.supports_autocomplete()
    }

    open spec fn parsed(&self, reg: &Registry, bound: int, value: &OptionValue) -> Result<
        AutocompleteView,
        ErrorView,
    > {
        self.spec_autocomplete_from_value(reg, bound, value)
    }

    fn from_value(&self, reg: &Registry, bound: usize, value: &OptionValue) -> (r: Result<AutocompleteValue, Error>) {
        self.autocomplete_from_value(reg, bound, value)
    }
}

} // verus!
