//! The schemas that are registered with the command host.
use vstd::prelude::*;
use crate::basic_option::Lit;
use crate::basic_option::LitView;
use crate::decl::BuilderMethodList;
use crate::decl::DetachedMethodCall;
use crate::error::OptionKind;
use crate::variant::ContextMenuType;

verus! {

/// The mathematical value of an extra builder call: the method and the
/// text of its arguments.
pub ghost struct CallView {
    pub method: Seq<char>,
    pub args: Seq<char>,
}

/// The views of a list of builder calls.
pub open spec fn calls_view(calls: Seq<DetachedMethodCall>) -> Seq<CallView> {
    Seq::new(calls.len(), |i: int| CallView { method: calls[i].method@, args: calls[i].args@ })
}

/// The builder calls of a declaration, if it has any.
pub open spec fn builder_view(builder: Option<BuilderMethodList>) -> Seq<CallView> {
    match builder {
        Some(list) => calls_view(list.methods@),
        None => Seq::empty(),
    }
}

/// Appends the builder calls of a declaration to those of a schema.
pub fn append_builder(calls: &mut Vec<DetachedMethodCall>, builder: &Option<BuilderMethodList>)
    ensures
        calls_view(final(calls)@) == calls_view(old(calls)@) + builder_view(*builder),
{
    let ghost before = calls_view(calls@);
    match builder {
        None => {
            proof {
                assert(calls_view(calls@) =~= before + builder_view(*builder));
            }
        },
        Some(list) => {
            let mut i: usize = 0;
            while i < list.methods.len()
                invariant
                    i <= list.methods.len(),
                    calls@.len() == before.len() + i,
                    forall|k: int| 0 <= k < before.len() ==> calls_view(calls@)[k] == before[k],
                    forall|k: int|
                        0 <= k < i ==> calls_view(calls@)[before.len() + k] == calls_view(list.methods@)[k],
                decreases list.methods.len() - i,
            {
                let call = DetachedMethodCall {
                    method: list.methods[i].method.clone(),
                    args: list.methods[i].args.clone(),
                };
                calls.push(call);
                i = i + 1;
            }
            proof {
                assert(calls_view(calls@) =~= before + builder_view(*builder));
            }
        },
    }
}

/// One choice of a closed set of values.
#[derive(Debug)]
pub struct Choice {
    pub name: String,
    pub value: Lit,
}

/// The mathematical value of a [`Choice`].
pub ghost struct ChoiceView {
    pub name: Seq<char>,
    pub value: LitView,
}

/// The views of a list of choices.
pub open spec fn choices_view(choices: Seq<Choice>) -> Seq<ChoiceView> {
    Seq::new(choices.len(), |i: int| ChoiceView { name: choices[i].name@, value: choices[i].value@ })
}

/// The schema of a basic option.
#[derive(Debug)]
pub struct CreateOption {
    pub kind: OptionKind,
    pub name: String,
    pub description: String,
    pub required: bool,
    pub autocomplete: bool,
    pub min_length: Option<u16>,
    pub max_length: Option<u16>,
    pub choices: Vec<Choice>,
    /// Extra builder calls, in the order they apply.
    pub calls: Vec<DetachedMethodCall>,
}

/// The mathematical value of a [`CreateOption`].
pub ghost struct OptionView {
    pub kind: OptionKind,
    pub name: Seq<char>,
    pub description: Seq<char>,
    pub required: bool,
    pub autocomplete: bool,
    pub min_length: Option<u16>,
    pub max_length: Option<u16>,
    pub choices: Seq<ChoiceView>,
    pub calls: Seq<CallView>,
}

impl View for CreateOption {
    type V = OptionView;

    open spec fn view(&self) -> OptionView {
        OptionView {
            kind: self.kind,
            name: self.name@,
            description: self.description@,
            required: self.required,
            autocomplete: self.autocomplete,
            min_length: self.min_length,
            max_length: self.max_length,
            choices: choices_view(self.choices@),
            calls: calls_view(self.calls@),
        }
    }
}

/// The views of a list of option schemas.
pub open spec fn options_view(options: Seq<CreateOption>) -> Seq<OptionView> {
    Seq::new(options.len(), |i: int| options[i]@)
}

/// The schema of a sub-command: an option of kind sub-command with basic
/// options below it.
#[derive(Debug)]
pub struct CreateSubCommand {
    pub name: String,
    pub description: String,
    pub options: Vec<CreateOption>,
    pub calls: Vec<DetachedMethodCall>,
}

/// The mathematical value of a [`CreateSubCommand`].
pub ghost struct SubCommandView {
    pub name: Seq<char>,
    pub description: Seq<char>,
    pub options: Seq<OptionView>,
    pub calls: Seq<CallView>,
}

impl View for CreateSubCommand {
    type V = SubCommandView;

    open spec fn view(&self) -> SubCommandView {
        SubCommandView {
            name: self.name@,
            description: self.description@,
            options: options_view(self.options@),
            calls: calls_view(self.calls@),
        }
    }
}

/// The views of a list of sub-command schemas.
pub open spec fn sub_commands_view(subs: Seq<CreateSubCommand>) -> Seq<SubCommandView> {
    Seq::new(subs.len(), |i: int| subs[i]@)
}

/// The schema of a sub-command group: an option of kind sub-command group
/// with sub-commands below it.
#[derive(Debug)]
pub struct CreateSubCommandGroup {
    pub name: String,
    pub description: String,
    pub sub_commands: Vec<CreateSubCommand>,
    pub calls: Vec<DetachedMethodCall>,
}

/// The mathematical value of a [`CreateSubCommandGroup`].
pub ghost struct SubCommandGroupView {
    pub name: Seq<char>,
    pub description: Seq<char>,
    pub sub_commands: Seq<SubCommandView>,
    pub calls: Seq<CallView>,
}

impl View for CreateSubCommandGroup {
    type V = SubCommandGroupView;

    open spec fn view(&self) -> SubCommandGroupView {
        SubCommandGroupView {
            name: self.name@,
            description: self.description@,
            sub_commands: sub_commands_view(self.sub_commands@),
            calls: calls_view(self.calls@),
        }
    }
}

/// What nests directly below a command: a sub-command or a sub-command
/// group.
#[derive(Debug)]
pub enum CreateNested {
    SubCommand(CreateSubCommand),
    Group(CreateSubCommandGroup),
}

/// The mathematical value of a [`CreateNested`].
pub ghost enum NestedView {
    SubCommand(SubCommandView),
    Group(SubCommandGroupView),
}

impl View for CreateNested {
    type V = NestedView;

    open spec fn view(&self) -> NestedView {
        match self {
            CreateNested::SubCommand(s) => NestedView::SubCommand(s@),
            CreateNested::Group(g) => NestedView::Group(g@),
        }
    }
}

/// The views of a list of nested schemas.
pub open spec fn nested_view(nested: Seq<CreateNested>) -> Seq<NestedView> {
    Seq::new(nested.len(), |i: int| nested[i]@)
}

/// Where a command shows up.
#[derive(Clone, Copy, Debug, PartialEq, Eq, Structural)]
pub enum CommandType {
    ChatInput,
    User,
    Message,
}

impl ContextMenuType {
    /// The command type of a context-menu command, as a specification.
    pub open spec fn spec_command_type(&self) -> CommandType {
        match self {
            ContextMenuType::User => CommandType::User,
            ContextMenuType::Message => CommandType::Message,
        }
    }

    /// The command type of a context-menu command.
    pub fn command_type(&self) -> (r: CommandType)
        ensures
            r == self.spec_command_type(),
    {
        match self {
            ContextMenuType::User => CommandType::User,
            ContextMenuType::Message => CommandType::Message,
        }
    }
}

/// The options of a command.
#[derive(Debug)]
pub enum CommandOptions {
    /// No options were set.
    Unset,
    /// Basic options.
    Options(Vec<CreateOption>),
    /// Sub-commands and sub-command groups.
    Nested(Vec<CreateNested>),
}

/// The mathematical value of [`CommandOptions`].
pub ghost enum CommandOptionsView {
    Unset,
    Options(Seq<OptionView>),
    Nested(Seq<NestedView>),
}

/// The schema of a top-level command.
#[derive(Debug)]
pub struct CreateCommand {
    pub name: String,
    pub description: Option<String>,
    pub kind: CommandType,
    pub options: CommandOptions,
    pub calls: Vec<DetachedMethodCall>,
}

/// The mathematical value of a [`CreateCommand`].
pub ghost struct CommandView {
    pub name: Seq<char>,
    pub description: Option<Seq<char>>,
    pub kind: CommandType,
    pub options: CommandOptionsView,
    pub calls: Seq<CallView>,
}

impl View for CreateCommand {
    type V = CommandView;

    open spec fn view(&self) -> CommandView {
        CommandView {
            name: self.name@,
            description: match self.description {
                Some(d) => Some(d@),
                None => None,
            },
            kind: self.kind,
            options: match self.options {
                CommandOptions::Unset => CommandOptionsView::Unset,
                CommandOptions::Options(o) => CommandOptionsView::Options(options_view(o@)),
                CommandOptions::Nested(n) => CommandOptionsView::Nested(nested_view(n@)),
            },
            calls: calls_view(self.calls@),
        }
    }
}

/// The views of a list of command schemas.
pub open spec fn commands_view(commands: Seq<CreateCommand>) -> Seq<CommandView> {
    Seq::new(commands.len(), |i: int| commands[i]@)
}

} // verus!
