//! Sub-command groups.
use vstd::prelude::*;
use crate::decl::BuilderMethodList;
use crate::decl::Registry;
use crate::error::Error;
use crate::error::ErrorView;
use crate::error::OptionKind;
use crate::value::Value;
use crate::value::ValueView;
use crate::value::result_view;
use crate::variant::Variant;
use crate::variant::any_autocomplete;
use crate::variant::find_variant;
use crate::wire::OptionValue;

verus! {

/// The declaration of a sub-command group: an enum, each variant one
/// sub-command.
#[derive(Debug)]
pub struct Args {
    pub ident: String,
    pub data: Vec<Variant>,
    pub builder: Option<BuilderMethodList>,
}

impl Args {
    /// Whether the declaration is accepted: every variant is accepted as a
    /// sub-command, so that nothing nests deeper than a sub-command inside
    /// a group inside a command.
    pub open spec fn valid(&self, reg: &Registry, bound: int) -> bool {
        forall|i: int| 0 <= i < self.data@.len() ==> (#[trigger] self.data@[i]).valid_sub_command(reg, bound)
    }

    /// Whether the declared type has an autocomplete counterpart.
    pub open spec fn supports_autocomplete(&self) -> bool {
        any_autocomplete(self.data@)
    }

    /// What a wire value parses to under this group: the value is a
    /// sub-command group of exactly one option, and the first variant with
    /// that option's name holds what it parses to.
    pub open spec fn spec_from_value(&self, reg: &Registry, bound: int, value: &OptionValue) -> Result<
        ValueView,
        ErrorView,
    > {
        match value {
            OptionValue::SubCommandGroup(options) => if options@.len() != 1 {
                Err(ErrorView::IncorrectCommandOptionCount { got: options@.len() as int, expected: 1 })
            } else {
                match find_variant(self.data@, options@[0].name@, 0) {
                    None => Err(ErrorView::UnknownCommandOption(options@[0].name@)),
                    Some(i) => crate::variant::variant(
                        i,
                        self.data@[i].spec_from_subcommand_value(reg, bound, &options@[0]),
                    ),
                }
            },
            _ => Err(
                ErrorView::IncorrectCommandOptionType {
                    got: value.spec_kind(),
                    expected: OptionKind::SubCommandGroup,
                },
            ),
        }
    }

    /// Extracts the sub-command group from a wire value.
    pub fn from_value(&self, reg: &Registry, bound: usize, value: &OptionValue) -> (r: Result<Value, Error>)
        requires
            reg.wf(),
            bound <= reg.types@.len(),
            self.valid(reg, bound as int),
        ensures
            result_view(r) == self.spec_from_value(reg, bound as int, value),
    {
        let options = match value {
            OptionValue::SubCommandGroup(options) => options,
            _ => {
                return Err(
                    Error::IncorrectCommandOptionType {
                        got: value.kind(),
                        expected: OptionKind::SubCommandGroup,
                    },
                );
            },
        };
        if options.len() != 1 {
            return Err(Error::IncorrectCommandOptionCount { got: options.len(), expected: 1 });
        }
        let option = &options[0];
        match Variant::find(&self.data, &option.name) {
            None => Err(Error::UnknownCommandOption(option.name.clone())),
            Some(i) => match self.data[i].from_subcommand_value(reg, bound, option) {
                Ok(v) => Ok(Value::Variant(i, Box::new(v))),
                Err(e) => Err(e),
            },
        }
    }

    /// What a wire value parses to in an autocomplete interaction under
    /// this group: the value is a sub-command group of exactly one option,
    /// and the first flagged variant with that option's name holds what it
    /// parses to.
    pub open spec fn spec_autocomplete_from_value(&self, reg: &Registry, bound: int, value: &OptionValue) -> Result<
        crate::autocomplete::AutocompleteView,
        ErrorView,
    >
        decreases bound, 1int,
    {
        match value {
            OptionValue::SubCommandGroup(options) => if options@.len() != 1 {
                Err(ErrorView::IncorrectCommandOptionCount { got: options@.len() as int, expected: 1 })
            } else {
                match crate::variant::find_flagged_variant(self.data@, options@[0].name@, 0) {
                    None => Err(ErrorView::UnknownCommandOption(options@[0].name@)),
                    Some(i) => crate::autocomplete::variant(
                        i,
                        self.data@[i].spec_from_autocomplete_subcommand_or_group_value(reg, bound, &options@[0]),
                    ),
                }
            },
            _ => Err(
                ErrorView::IncorrectCommandOptionType {
                    got: value.spec_kind(),
                    expected: OptionKind::SubCommandGroup,
                },
            ),
        }
    }

    /// The autocomplete counterpart of the declared type: an enum of the
    /// flagged variants, or nothing where no variant is flagged.
    pub fn autocomplete(&self) -> (r: Option<crate::autocomplete::AutocompleteType>)
        ensures
            r is Some <==> self.supports_autocomplete(),
            r matches Some(t) ==> t.ident@ == crate::utils::spec_autocomplete(self.ident@) && (t.shape matches crate::autocomplete::AutocompleteShape::Enum(
                vs,
            ) && crate::variant::lists_flagged_variants(vs@, self.data@)),
    {
        let variants = Variant::autocomplete_variants(&self.data);
        if variants.len() == 0 {
            return None;
        }
        Some(
            crate::autocomplete::AutocompleteType {
                ident: crate::utils::autocomplete(&self.ident),
                shape: crate::autocomplete::AutocompleteShape::Enum(variants),
            },
        )
    }

    /// Extracts the autocomplete value of the group from a wire value.
    pub fn autocomplete_from_value(&self, reg: &Registry, bound: usize, value: &OptionValue) -> (r: Result<
        crate::autocomplete::AutocompleteValue,
        Error,
    >)
        requires
            reg.wf(),
            bound <= reg.types@.len(),
            self.valid(reg, bound as int),
        ensures
            crate::autocomplete::autocomplete_result_view(r) == self.spec_autocomplete_from_value(
                reg,
                bound as int,
                value,
            ),
        decreases bound, 1int,
    {
        let options = match value {
            OptionValue::SubCommandGroup(options) => options,
            _ => {
                return Err(
                    Error::IncorrectCommandOptionType {
                        got: value.kind(),
                        expected: OptionKind::SubCommandGroup,
                    },
                );
            },
        };
        if options.len() != 1 {
            return Err(Error::IncorrectCommandOptionCount { got: options.len(), expected: 1 });
        }
        let option = &options[0];
        match Variant::find_flagged(&self.data, &option.name) {
            None => Err(Error::UnknownCommandOption(option.name.clone())),
            Some(i) => match self.data[i].from_autocomplete_subcommand_or_group_value(reg, bound, option) {
                Ok(v) => Ok(crate::autocomplete::AutocompleteValue::Variant(i, Box::new(v))),
                Err(e) => Err(e),
            },
        }
    }

    /// The schemas of the sub-commands of the group, in declaration order.
    pub open spec fn spec_sub_commands(&self, reg: &Registry, bound: int) -> Seq<crate::schema::SubCommandView> {
        Seq::new(self.data@.len(), |i: int| self.data@[i].spec_create_sub_command(reg, bound))
    }

    /// The schema of the group under a name and a description: one
    /// sub-command for each variant, followed by the extra builder calls.
    pub open spec fn spec_create_option(
        &self,
        reg: &Registry,
        bound: int,
        name: Seq<char>,
        description: Seq<char>,
    ) -> crate::schema::SubCommandGroupView {
        crate::schema::SubCommandGroupView {
            name,
            description,
            sub_commands: self.spec_sub_commands(reg, bound),
            calls: crate::schema::builder_view(self.builder),
        }
    }

    /// Creates the schema of the group.
    pub fn create_option(&self, reg: &Registry, bound: usize, name: String, description: String) -> (r:
        crate::schema::CreateSubCommandGroup)
        requires
            reg.wf(),
            bound <= reg.types@.len(),
            self.valid(reg, bound as int),
        ensures
            r@ == self.spec_create_option(reg, bound as int, name@, description@),
    {
        let mut subs: Vec<crate::schema::CreateSubCommand> = Vec::new();
        let mut i: usize = 0;
        while i < self.data.len()
            invariant
                i <= self.data@.len(),
                reg.wf(),
                bound <= reg.types@.len(),
                self.valid(reg, bound as int),
                subs@.len() == i,
                forall|k: int|
                    0 <= k < i ==> (#[trigger] subs@[k])@ == self.data@[k].spec_create_sub_command(
                        reg,
                        bound as int,
                    ),
            decreases self.data@.len() - i,
        {
            proof {
                assert(self.data@[i as int].valid_sub_command(reg, bound as int));
            }
            subs.push(self.data[i].create_sub_command(reg, bound));
            i = i + 1;
        }
        let mut calls: Vec<crate::decl::DetachedMethodCall> = Vec::new();
        proof {
            assert(crate::schema::calls_view(calls@) =~= Seq::empty());
        }
        crate::schema::append_builder(&mut calls, &self.builder);
        let r = crate::schema::CreateSubCommandGroup { name, description, sub_commands: subs, calls };
        proof {
            assert(r@.sub_commands =~= self.spec_sub_commands(reg, bound as int));
            assert(r@.calls =~= crate::schema::builder_view(self.builder));
        }
        r
    }
}

} // verus!
