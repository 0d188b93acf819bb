//! Lists of top-level commands.
use vstd::prelude::*;
use crate::decl::Registry;
use crate::error::Error;
use crate::error::ErrorView;
use crate::value::Value;
use crate::value::ValueView;
use crate::value::result_view;
use crate::variant::Variant;
use crate::variant::any_autocomplete;
use crate::variant::find_variant;
use crate::wire::CommandData;

verus! {

/// The declaration of a list of top-level commands: an enum, each variant
/// one command.
#[derive(Debug)]
pub struct Args {
    pub ident: String,
    pub data: Vec<Variant>,
}

impl Args {
    /// Whether the declaration is accepted: every variant is accepted as a
    /// top-level command.
    pub open spec fn valid(&self, reg: &Registry, bound: int) -> bool {
        forall|i: int| 0 <= i < self.data@.len() ==> (#[trigger] self.data@[i]).valid_command(reg, bound)
    }

    /// Whether the declared type has an autocomplete counterpart.
    pub open spec fn supports_autocomplete(&self) -> bool {
        any_autocomplete(self.data@)
    }

    /// What the data of a command interaction parses to: the first variant
    /// with the command's name, holding what the options parse to under
    /// it.
    pub open spec fn spec_from_command_data(&self, reg: &Registry, bound: int, data: &CommandData) -> Result<
        ValueView,
        ErrorView,
    > {
        if data.autocomplete {
            Err(ErrorView::UnexpectedAutocompleteOption)
        } else {
            match find_variant(self.data@, data.name@, 0) {
                None => Err(ErrorView::UnknownCommand(data.name@)),
                Some(i) => crate::variant::variant(
                    i,
                    self.data@[i].spec_from_command_options(reg, bound, data.options@),
                ),
            }
        }
    }

    /// Extracts the invoked command from the data of a command
    /// interaction.
    pub fn from_command_data(&self, reg: &Registry, bound: usize, data: &CommandData) -> (r: Result<Value, Error>)
        requires
            reg.wf(),
            bound <= reg.types@.len(),
            self.valid(reg, bound as int),
        ensures
            result_view(r) == self.spec_from_command_data(reg, bound as int, data),
    {
        if data.autocomplete {
            return Err(Error::UnexpectedAutocompleteOption);
        }
        match Variant::find(&self.data, &data.name) {
            None => Err(Error::UnknownCommand(data.name.clone())),
            Some(i) => match self.data[i].from_command_options(reg, bound, &data.options) {
                Ok(v) => Ok(Value::Variant(i, Box::new(v))),
                Err(e) => Err(e),
            },
        }
    }

    /// What the data of an autocomplete interaction parses to: the first
    /// flagged variant with the command's name, holding what the options
    /// parse to under it.
    pub open spec fn spec_autocomplete_from_command_data(&self, reg: &Registry, data: &CommandData) -> Result<
        crate::autocomplete::AutocompleteView,
        ErrorView,
    > {
        if !data.autocomplete {
            Err(ErrorView::MissingAutocompleteOption)
        } else {
            match crate::variant::find_flagged_variant(self.data@, data.name@, 0) {
                None => Err(ErrorView::UnknownCommand(data.name@)),
                Some(i) => crate::autocomplete::variant(
                    i,
                    self.data@[i].spec_from_autocomplete_command_options(reg, data.options@),
                ),
            }
        }
    }

    /// The autocomplete counterpart of the declared type: an enum of the
    /// flagged variants, or nothing where no variant is flagged.
    pub fn autocomplete(&self) -> (r: Option<crate::autocomplete::AutocompleteType>)
        ensures
            r is Some <==> self.supports_autocomplete(),
            r matches Some(t) ==> t.ident@ == crate::utils::spec_autocomplete(self.ident@) && (t.shape matches crate::autocomplete::AutocompleteShape::Enum(
                vs,
            ) && crate::variant::lists_flagged_variants(vs@, self.data@)),
    {
        let variants = Variant::autocomplete_variants(&self.data);
        if variants.len() == 0 {
            return None;
        }
        Some(
            crate::autocomplete::AutocompleteType {
                ident: crate::utils::autocomplete(&self.ident),
                shape: crate::autocomplete::AutocompleteShape::Enum(variants),
            },
        )
    }

    /// Extracts the command that is being typed from the data of an
    /// autocomplete interaction.
    pub fn autocomplete_from_command_data(&self, reg: &Registry, bound: usize, data: &CommandData) -> (r: Result<
        crate::autocomplete::AutocompleteValue,
        Error,
    >)
        requires
            reg.wf(),
            bound <= reg.types@.len(),
            self.valid(reg, bound as int),
        ensures
            crate::autocomplete::autocomplete_result_view(r) == self.spec_autocomplete_from_command_data(reg, data),
    {
        if !data.autocomplete {
            return Err(Error::MissingAutocompleteOption);
        }
        match Variant::find_flagged(&self.data, &data.name) {
            None => Err(Error::UnknownCommand(data.name.clone())),
            Some(i) => match self.data[i].from_autocomplete_command_options(reg, bound, &data.options) {
                Ok(v) => Ok(crate::autocomplete::AutocompleteValue::Variant(i, Box::new(v))),
                Err(e) => Err(e),
            },
        }
    }

    /// The schemas of the top-level commands, one for each variant, in
    /// declaration order.
    pub open spec fn spec_create_commands(&self, reg: &Registry, bound: int) -> Seq<crate::schema::CommandView> {
        Seq::new(self.data@.len(), |i: int| self.data@[i].spec_create_command(reg, bound))
    }

    /// Creates the schemas of the top-level commands.
    pub fn create_commands(&self, reg: &Registry, bound: usize) -> (r: Vec<crate::schema::CreateCommand>)
        requires
            reg.wf(),
            bound <= reg.types@.len(),
            self.valid(reg, bound as int),
        ensures
            crate::schema::commands_view(r@) == self.spec_create_commands(reg, bound as int),
    {
        let mut commands: Vec<crate::schema::CreateCommand> = Vec::new();
        let mut i: usize = 0;
        while i < self.data.len()
            invariant
                i <= self.data@.len(),
                reg.wf(),
                bound <= reg.types@.len(),
                self.valid(reg, bound as int),
                commands@.len() == i,
                forall|k: int|
                    0 <= k < i ==> (#[trigger] commands@[k])@ == self.data@[k].spec_create_command(reg, bound as int),
            decreases self.data@.len() - i,
        {
            proof {
                assert(self.data@[i as int].valid_command(reg, bound as int));
            }
            commands.push(self.data[i].create_command(reg, bound));
            i = i + 1;
        }
        proof {
            assert(crate::schema::commands_view(commands@) =~= self.spec_create_commands(reg, bound as int));
        }
        commands
    }
}

} // verus!
