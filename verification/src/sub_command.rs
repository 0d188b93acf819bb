//! Sub-commands.
use vstd::prelude::*;
use crate::decl::BuilderMethodList;
use crate::decl::Fields;
use crate::decl::Registry;
use crate::decl::Style;
use crate::decl::TypeDecl;
use crate::error::Error;
use crate::error::ErrorView;
use crate::error::OptionKind;
use crate::field::Field;
use crate::field::all_valid;
use crate::value::Value;
use crate::value::ValueView;
use crate::value::result_view;
use crate::variant::newtype;
use crate::variant::record;
use crate::wire::OptionValue;

verus! {

/// The declaration of a sub-command: a struct whose named fields are the
/// sub-command's options, or that wraps another sub-command.
#[derive(Debug)]
pub struct Args {
    pub ident: String,
    pub data: Fields,
    pub builder: Option<BuilderMethodList>,
}

impl Args {
    /// Whether the declaration is accepted.
    pub open spec fn valid(&self, reg: &Registry, bound: int) -> bool {
        match self.data.style {
            Style::Struct => all_valid(self.data.fields@, reg, bound),
            Style::Tuple => self.data.spec_inner() is Some && reg.is_sub_command(
                self.data.spec_inner()->0 as int,
                bound,
            ) && (self.data.fields@[0].autocomplete ==> reg.supports_autocomplete(
                self.data.spec_inner()->0 as int,
            )),
            Style::Unit => true,
        }
    }

    /// Whether the declared type has an autocomplete counterpart.
    pub open spec fn supports_autocomplete(&self) -> bool {
        self.data.spec_has_autocomplete()
    }

    /// What a wire value parses to under this sub-command. Named fields
    /// and a unit struct ask for a sub-command value; the error for
    /// another kind reports the kind of the value.
    pub open spec fn spec_from_value(&self, reg: &Registry, bound: int, value: &OptionValue) -> Result<
        ValueView,
        ErrorView,
    >
        decreases bound,
    {
        match self.data.style {
            Style::Struct => match value {
                OptionValue::SubCommand(options) => record(
                    crate::field::spec_from_options(reg, bound, self.data.fields@, options@),
                ),
                _ => Err(
                    ErrorView::IncorrectCommandOptionType {
                        got: value.spec_kind(),
                        expected: OptionKind::SubCommand,
                    },
                ),
            },
            Style::Tuple => match self.data.spec_inner() {
                Some(j) => if reg.is_sub_command(j as int, bound) {
                    match reg.types@[j as int] {
                        TypeDecl::SubCommand(a) => newtype(a.spec_from_value(reg, j as int, value)),
                        _ => arbitrary(),
                    }
                } else {
                    arbitrary()
                },
                None => arbitrary(),
            },
            Style::Unit => crate::variant::spec_unit_from_value(value),
        }
    }

    /// Extracts the sub-command from a wire value.
    pub fn from_value(&self, reg: &Registry, bound: usize, value: &OptionValue) -> (r: Result<Value, Error>)
        requires
            reg.wf(),
            bound <= reg.types@.len(),
            self.valid(reg, bound as int),
        ensures
            result_view(r) == self.spec_from_value(reg, bound as int, value),
        decreases bound,
    {
        match self.data.style {
            Style::Struct => match value {
                OptionValue::SubCommand(options) => match Field::from_options(
                    &self.data.fields,
                    reg,
                    bound,
                    options,
                ) {
                    Ok(values) => Ok(Value::Record(values)),
                    Err(e) => Err(e),
                },
                _ => Err(Error::IncorrectCommandOptionType { got: value.kind(), expected: OptionKind::SubCommand }),
            },
            Style::Tuple => {
                let j = match self.data.inner() {
                    Some(j) => j,
                    None => {
                        return Err(Error::MissingRequiredCommandOption);
                    },
                };
                proof {
                    assert(reg.valid_at(j as int));
                }
                match &reg.types[j] {
                    TypeDecl::SubCommand(a) => match a.from_value(reg, j, value) {
                        Ok(v) => Ok(Value::Newtype(Box::new(v))),
                        Err(e) => Err(e),
                    },
                    _ => Err(Error::MissingRequiredCommandOption),
                }
            },
            Style::Unit => crate::variant::unit_from_value(value),
        }
    }

    /// What a wire value parses to in an autocomplete interaction under
    /// this sub-command, which has an autocomplete counterpart.
    pub open spec fn spec_autocomplete_from_value(&self, reg: &Registry, bound: int, value: &OptionValue) -> Result<
        crate::autocomplete::AutocompleteView,
        ErrorView,
    >
        decreases bound, 1int,
    {
        match self.data.style {
            Style::Struct => match value {
                OptionValue::SubCommand(options) => crate::field::spec_from_autocomplete_options(
                    reg,
                    bound,
                    self.data.fields@,
                    options@,
                ),
                _ => Err(
                    ErrorView::IncorrectCommandOptionType {
                        got: value.spec_kind(),
                        expected: OptionKind::SubCommand,
                    },
                ),
            },
            Style::Tuple => match self.data.spec_inner() {
                Some(j) => if reg.is_sub_command(j as int, bound) {
                    match reg.types@[j as int] {
                        TypeDecl::SubCommand(a) => crate::autocomplete::newtype(
                            a.spec_autocomplete_from_value(reg, j as int, value),
                        ),
                        _ => arbitrary(),
                    }
                } else {
                    arbitrary()
                },
                None => arbitrary(),
            },
            Style::Unit => arbitrary(),
        }
    }

    /// The autocomplete counterpart of the declared type, or nothing where
    /// no field is flagged.
    pub fn autocomplete(&self) -> (r: Option<crate::autocomplete::AutocompleteType>)
        requires
            self.data.style == Style::Struct ==> forall|j: int|
                0 <= j < self.data.fields@.len() ==> (#[trigger] self.data.fields@[j]).ident is Some,
        ensures
            r is Some <==> self.supports_autocomplete(),
            r matches Some(t) ==> t.ident@ == crate::utils::spec_autocomplete(self.ident@) && match self.data.style {
                Style::Struct => t.shape matches crate::autocomplete::AutocompleteShape::Enum(vs)
                    && crate::field::lists_flagged_fields(vs@, self.data.fields@),
                _ => t.shape is Newtype,
            },
    {
        let shape = match self.data.style {
            Style::Struct => {
                let variants = Field::autocomplete_variants(&self.data.fields);
                if variants.len() == 0 {
                    return None;
                }
                crate::autocomplete::AutocompleteShape::Enum(variants)
            },
            Style::Tuple => {
                if self.data.fields.len() == 0 || !self.data.fields[0].autocomplete {
                    return None;
                }
                crate::autocomplete::AutocompleteShape::Newtype
            },
            Style::Unit => {
                return None;
            },
        };
        Some(crate::autocomplete::AutocompleteType { ident: crate::utils::autocomplete(&self.ident), shape })
    }

    /// Extracts the autocomplete value of the sub-command from a wire
    /// value.
    pub fn autocomplete_from_value(&self, reg: &Registry, bound: usize, value: &OptionValue) -> (r: Result<
        crate::autocomplete::AutocompleteValue,
        Error,
    >)
        requires
            reg.wf(),
            bound <= reg.types@.len(),
            self.valid(reg, bound as int),
            self.supports_autocomplete(),
        ensures
            crate::autocomplete::autocomplete_result_view(r) == self.spec_autocomplete_from_value(
                reg,
                bound as int,
                value,
            ),
        decreases bound, 1int,
    {
        match self.data.style {
            Style::Struct => match value {
                OptionValue::SubCommand(options) => Field::from_autocomplete_options(
                    &self.data.fields,
                    reg,
                    bound,
                    options,
                ),
                _ => Err(Error::IncorrectCommandOptionType { got: value.kind(), expected: OptionKind::SubCommand }),
            },
            Style::Tuple => {
                let j = match self.data.inner() {
                    Some(j) => j,
                    None => {
                        return Err(Error::MissingAutocompleteOption);
                    },
                };
                proof {
                    assert(reg.valid_at(j as int));
                }
                match &reg.types[j] {
                    TypeDecl::SubCommand(a) => match a.autocomplete_from_value(reg, j, value) {
                        Ok(v) => Ok(crate::autocomplete::AutocompleteValue::Newtype(Box::new(v))),
                        Err(e) => Err(e),
                    },
                    _ => Err(Error::MissingAutocompleteOption),
                }
            },
            Style::Unit => Err(Error::MissingAutocompleteOption),
        }
    }

    /// The schema of the sub-command under a name and a description:
    /// named fields are its options, a tuple shape has the schema of the
    /// sub-command that it wraps; the extra builder calls follow.
    pub open spec fn spec_create_option(
        &self,
        reg: &Registry,
        bound: int,
        name: Seq<char>,
        description: Seq<char>,
    ) -> crate::schema::SubCommandView
        decreases bound,
    {
        let body = match self.data.style {
            Style::Struct => crate::schema::SubCommandView {
                name,
                description,
                options: crate::field::spec_create_options(self.data.fields@, reg, bound),
                calls: Seq::empty(),
            },
            Style::Tuple => match self.data.spec_inner() {
                Some(j) => if reg.is_sub_command(j as int, bound) {
                    match reg.types@[j as int] {
                        TypeDecl::SubCommand(a) => a.spec_create_option(reg, j as int, name, description),
                        _ => arbitrary(),
                    }
                } else {
                    arbitrary()
                },
                None => arbitrary(),
            },
            Style::Unit => crate::schema::SubCommandView {
                name,
                description,
                options: Seq::empty(),
                calls: Seq::empty(),
            },
        };
        crate::variant::sub_command_with(body, crate::schema::builder_view(self.builder))
    }

    /// Creates the schema of the sub-command.
    pub fn create_option(&self, reg: &Registry, bound: usize, name: String, description: String) -> (r:
        crate::schema::CreateSubCommand)
        requires
            reg.wf(),
            bound <= reg.types@.len(),
            self.valid(reg, bound as int),
        ensures
            r@ == self.spec_create_option(reg, bound as int, name@, description@),
        decreases bound,
    {
        let mut body = match self.data.style {
            Style::Struct => crate::schema::CreateSubCommand {
                name,
                description,
                options: Field::create_options(&self.data.fields, reg, bound),
                calls: Vec::new(),
            },
            Style::Tuple => {
                let j = match self.data.inner() {
                    Some(j) => j,
                    None => 0,
                };
                proof {
                    assert(reg.valid_at(j as int));
                }
                match &reg.types[j] {
                    TypeDecl::SubCommand(a) => a.create_option(reg, j, name, description),
                    _ => crate::schema::CreateSubCommand {
                        name,
                        description,
                        options: Vec::new(),
                        calls: Vec::new(),
                    },
                }
            },
            Style::Unit => crate::schema::CreateSubCommand {
                name,
                description,
                options: Vec::new(),
                calls: Vec::new(),
            },
        };
        proof {
            if self.data.style != Style::Tuple {
                assert(crate::schema::calls_view(body.calls@) =~= Seq::empty());
            }
            if self.data.style == Style::Unit {
                assert(crate::schema::options_view(body.options@) =~= Seq::empty());
            }
        }
        crate::schema::append_builder(&mut body.calls, &self.builder);
        body
    }
}

} // verus!
