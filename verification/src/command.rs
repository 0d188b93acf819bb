//! Top-level commands.
use vstd::prelude::*;
use crate::decl::BuilderMethodList;
use crate::decl::Fields;
use crate::decl::Registry;
use crate::decl::Style;
use crate::decl::TypeDecl;
use crate::error::Error;
use crate::error::ErrorView;
use crate::field::Field;
use crate::field::all_valid;
use crate::value::Value;
use crate::value::ValueView;
use crate::value::result_view;
use crate::variant::Variant;
use crate::variant::any_autocomplete;
use crate::variant::find_variant;
use crate::variant::newtype;
use crate::variant::record;
use crate::wire::DataOption;

verus! {

/// What a command is declared as.
#[derive(Debug)]
pub enum Data {
    /// A struct: named fields are the command's options, a tuple shape
    /// wraps another command.
    Struct(Fields),
    /// An enum: each variant is a sub-command or a sub-command group.
    Enum(Vec<Variant>),
}

/// The declaration of a top-level command.
#[derive(Debug)]
pub struct Args {
    pub ident: String,
    pub data: Data,
    pub builder: Option<BuilderMethodList>,
}

impl Args {
    /// Whether the command is a newtype around another command.
    pub open spec fn wraps(&self) -> bool {
        match self.data {
            Data::Struct(fields) => fields.style == Style::Tuple,
            Data::Enum(_) => false,
        }
    }

    /// Whether the declaration is accepted.
    pub open spec fn valid(&self, reg: &Registry, bound: int) -> bool {
        match self.data {
            Data::Struct(fields) => match fields.style {
                Style::Struct => all_valid(fields.fields@, reg, bound),
                Style::Tuple => fields.spec_inner() is Some && reg.is_command(fields.spec_inner()->0 as int, bound)
                    && (fields.fields@[0].autocomplete ==> reg.supports_autocomplete(
                    fields.spec_inner()->0 as int,
                )),
                Style::Unit => true,
            },
            Data::Enum(variants) => forall|i: int|
                0 <= i < variants@.len() ==> (#[trigger] variants@[i]).valid_sub_command_group(reg, bound),
        }
    }

    /// Whether the declared type has an autocomplete counterpart: one of
    /// its fields or variants is flagged.
    pub open spec fn supports_autocomplete(&self) -> bool {
        match self.data {
            Data::Struct(fields) => fields.spec_has_autocomplete(),
            Data::Enum(variants) => any_autocomplete(variants@),
        }
    }

    /// What a list of options parses to under this command. An enum asks
    /// for exactly one option, and takes the first variant with its name.
    pub open spec fn spec_from_options(&self, reg: &Registry, bound: int, options: Seq<DataOption>) -> Result<
        ValueView,
        ErrorView,
    >
        decreases bound,
    {
        match self.data {
            Data::Struct(fields) => match fields.style {
                Style::Struct => record(crate::field::spec_from_options(reg, bound, fields.fields@, options)),
                Style::Tuple => match fields.spec_inner() {
                    Some(j) => if reg.is_command(j as int, bound) {
                        match reg.types@[j as int] {
                            TypeDecl::Command(a) => newtype(a.spec_from_options(reg, j as int, options)),
                            _ => arbitrary(),
                        }
                    } else {
                        arbitrary()
                    },
                    None => arbitrary(),
                },
                Style::Unit => Ok(ValueView::Unit),
            },
            Data::Enum(variants) => if options.len() != 1 {
                Err(ErrorView::IncorrectCommandOptionCount { got: options.len() as int, expected: 1 })
            } else {
                match find_variant(variants@, options[0].name@, 0) {
                    None => Err(ErrorView::UnknownCommandOption(options[0].name@)),
                    Some(i) => crate::variant::variant(
                        i,
                        variants@[i].spec_from_subcommand_group_value(reg, bound, &options[0]),
                    ),
                }
            },
        }
    }

    /// Extracts the command from a list of options.
    pub fn from_options(&self, reg: &Registry, bound: usize, options: &Vec<DataOption>) -> (r: Result<Value, Error>)
        requires
            reg.wf(),
            bound <= reg.types@.len(),
            self.valid(reg, bound as int),
        ensures
            result_view(r) == self.spec_from_options(reg, bound as int, options@),
        decreases bound,
    {
        match &self.data {
            Data::Struct(fields) => match fields.style {
                Style::Struct => match Field::from_options(&fields.fields, reg, bound, options) {
                    Ok(values) => Ok(Value::Record(values)),
                    Err(e) => Err(e),
                },
                Style::Tuple => {
                    let j = match fields.inner() {
                        Some(j) => j,
                        None => {
                            return Err(Error::MissingRequiredCommandOption);
                        },
                    };
                    proof {
                        assert(reg.valid_at(j as int));
                    }
                    match &reg.types[j] {
                        TypeDecl::Command(a) => match a.from_options(reg, j, options) {
                            Ok(v) => Ok(Value::Newtype(Box::new(v))),
                            Err(e) => Err(e),
                        },
                        _ => Err(Error::MissingRequiredCommandOption),
                    }
                },
                Style::Unit => Ok(Value::Unit),
            },
            Data::Enum(variants) => {
                if options.len() != 1 {
                    return Err(Error::IncorrectCommandOptionCount { got: options.len(), expected: 1 });
                }
                let option = &options[0];
                match Variant::find(variants, &option.name) {
                    None => Err(Error::UnknownCommandOption(option.name.clone())),
                    Some(i) => match variants[i].from_subcommand_group_value(reg, bound, option) {
                        Ok(v) => Ok(Value::Variant(i, Box::new(v))),
                        Err(e) => Err(e),
                    },
                }
            },
        }
    }

    /// What a list of options parses to in an autocomplete interaction
    /// under this command, which has an autocomplete counterpart.
    pub open spec fn spec_autocomplete_from_options(&self, reg: &Registry, bound: int, options: Seq<DataOption>) -> Result<
        crate::autocomplete::AutocompleteView,
        ErrorView,
    >
        decreases bound,
    {
        match self.data {
            Data::Struct(fields) => match fields.style {
                Style::Struct => crate::field::spec_from_autocomplete_options(reg, bound, fields.fields@, options),
                Style::Tuple => match fields.spec_inner() {
                    Some(j) => if reg.is_command(j as int, bound) {
                        match reg.types@[j as int] {
                            TypeDecl::Command(a) => crate::autocomplete::newtype(
                                a.spec_autocomplete_from_options(reg, j as int, options),
                            ),
                            _ => arbitrary(),
                        }
                    } else {
                        arbitrary()
                    },
                    None => arbitrary(),
                },
                Style::Unit => arbitrary(),
            },
            Data::Enum(variants) => if options.len() != 1 {
                Err(ErrorView::IncorrectCommandOptionCount { got: options.len() as int, expected: 1 })
            } else {
                match crate::variant::find_flagged_variant(variants@, options[0].name@, 0) {
                    None => Err(ErrorView::UnknownCommandOption(options[0].name@)),
                    Some(i) => crate::autocomplete::variant(
                        i,
                        variants@[i].spec_from_autocomplete_subcommand_or_group_value(reg, bound, &options[0]),
                    ),
                }
            },
        }
    }

    /// The autocomplete counterpart of the declared type, or nothing where
    /// no field or variant is flagged: an enum of the flagged fields or
    /// variants, or a newtype around the counterpart of the inner type.
    pub fn autocomplete(&self) -> (r: Option<crate::autocomplete::AutocompleteType>)
        requires
            self.data matches Data::Struct(fields) ==> fields.style == Style::Struct ==> forall|j: int|
                0 <= j < fields.fields@.len() ==> (#[trigger] fields.fields@[j]).ident is Some,
        ensures
            r is Some <==> self.supports_autocomplete(),
            r matches Some(t) ==> t.ident@ == crate::utils::spec_autocomplete(self.ident@) && match self.data {
                Data::Struct(fields) => match fields.style {
                    Style::Struct => t.shape matches crate::autocomplete::AutocompleteShape::Enum(vs)
                        && crate::field::lists_flagged_fields(vs@, fields.fields@),
                    _ => t.shape is Newtype,
                },
                Data::Enum(variants) => t.shape matches crate::autocomplete::AutocompleteShape::Enum(vs)
                    && crate::variant::lists_flagged_variants(vs@, variants@),
            },
    {
        let shape = match &self.data {
            Data::Struct(fields) => match fields.style {
                Style::Struct => {
                    let variants = Field::autocomplete_variants(&fields.fields);
                    if variants.len() == 0 {
                        return None;
                    }
                    crate::autocomplete::AutocompleteShape::Enum(variants)
                },
                Style::Tuple => {
                    if fields.fields.len() == 0 || !fields.fields[0].autocomplete {
                        return None;
                    }
                    crate::autocomplete::AutocompleteShape::Newtype
                },
                Style::Unit => {
                    return None;
                },
            },
            Data::Enum(variants) => {
                let vs = Variant::autocomplete_variants(variants);
                if vs.len() == 0 {
                    return None;
                }
                crate::autocomplete::AutocompleteShape::Enum(vs)
            },
        };
        Some(crate::autocomplete::AutocompleteType { ident: crate::utils::autocomplete(&self.ident), shape })
    }

    /// Extracts the autocomplete value of the command from a list of
    /// options.
    pub fn autocomplete_from_options(&self, reg: &Registry, bound: usize, options: &Vec<DataOption>) -> (r: Result<
        crate::autocomplete::AutocompleteValue,
        Error,
    >)
        requires
            reg.wf(),
            bound <= reg.types@.len(),
            self.valid(reg, bound as int),
            self.supports_autocomplete(),
        ensures
            crate::autocomplete::autocomplete_result_view(r) == self.spec_autocomplete_from_options(
                reg,
                bound as int,
                options@,
            ),
        decreases bound,
    {
        match &self.data {
            Data::Struct(fields) => match fields.style {
                Style::Struct => Field::from_autocomplete_options(&fields.fields, reg, bound, options),
                Style::Tuple => {
                    let j = match fields.inner() {
                        Some(j) => j,
                        None => {
                            return Err(Error::MissingAutocompleteOption);
                        },
                    };
                    proof {
                        assert(reg.valid_at(j as int));
                    }
                    match &reg.types[j] {
                        TypeDecl::Command(a) => match a.autocomplete_from_options(reg, j, options) {
                            Ok(v) => Ok(crate::autocomplete::AutocompleteValue::Newtype(Box::new(v))),
                            Err(e) => Err(e),
                        },
                        _ => Err(Error::MissingAutocompleteOption),
                    }
                },
                Style::Unit => Err(Error::MissingAutocompleteOption),
            },
            Data::Enum(variants) => {
                if options.len() != 1 {
                    return Err(Error::IncorrectCommandOptionCount { got: options.len(), expected: 1 });
                }
                let option = &options[0];
                match Variant::find_flagged(variants, &option.name) {
                    None => Err(Error::UnknownCommandOption(option.name.clone())),
                    Some(i) => match variants[i].from_autocomplete_subcommand_or_group_value(reg, bound, option) {
                        Ok(v) => Ok(crate::autocomplete::AutocompleteValue::Variant(i, Box::new(v))),
                        Err(e) => Err(e),
                    },
                }
            },
        }
    }

    /// The schema of the command under a name and a description: named
    /// fields are its options, a tuple shape has the schema of the command
    /// that it wraps, and each variant of an enum is a sub-command or a
    /// sub-command group; the extra builder calls follow.
    pub open spec fn spec_create_command(
        &self,
        reg: &Registry,
        bound: int,
        name: Seq<char>,
        description: Seq<char>,
    ) -> crate::schema::CommandView
        decreases bound,
    {
        let body = match self.data {
            Data::Struct(fields) => match fields.style {
                Style::Struct => crate::schema::CommandView {
                    name,
                    description: Some(description),
                    kind: crate::schema::CommandType::ChatInput,
                    options: crate::schema::CommandOptionsView::Options(
                        crate::field::spec_create_options(fields.fields@, reg, bound),
                    ),
                    calls: Seq::empty(),
                },
                Style::Tuple => match fields.spec_inner() {
                    Some(j) => if reg.is_command(j as int, bound) {
                        match reg.types@[j as int] {
                            TypeDecl::Command(a) => a.spec_create_command(reg, j as int, name, description),
                            _ => arbitrary(),
                        }
                    } else {
                        arbitrary()
                    },
                    None => arbitrary(),
                },
                Style::Unit => crate::schema::CommandView {
                    name,
                    description: Some(description),
                    kind: crate::schema::CommandType::ChatInput,
                    options: crate::schema::CommandOptionsView::Unset,
                    calls: Seq::empty(),
                },
            },
            Data::Enum(variants) => crate::schema::CommandView {
                name,
                description: Some(description),
                kind: crate::schema::CommandType::ChatInput,
                options: crate::schema::CommandOptionsView::Nested(
                    Seq::new(variants@.len(), |i: int| variants@[i].spec_create_sub_command_group(reg, bound)),
                ),
                calls: Seq::empty(),
            },
        };
        crate::variant::command_with(body, crate::schema::builder_view(self.builder))
    }

    /// Creates the schema of the command.
    pub fn create_command(&self, reg: &Registry, bound: usize, name: String, description: String) -> (r:
        crate::schema::CreateCommand)
        requires
            reg.wf(),
            bound <= reg.types@.len(),
            self.valid(reg, bound as int),
        ensures
            r@ == self.spec_create_command(reg, bound as int, name@, description@),
        decreases bound,
    {
        let mut body = match &self.data {
            Data::Struct(fields) => match fields.style {
                Style::Struct => crate::schema::CreateCommand {
                    name,
                    description: Some(description),
                    kind: crate::schema::CommandType::ChatInput,
                    options: crate::schema::CommandOptions::Options(Field::create_options(&fields.fields, reg, bound)),
                    calls: Vec::new(),
                },
                Style::Tuple => {
                    let j = match fields.inner() {
                        Some(j) => j,
                        None => 0,
                    };
                    proof {
                        assert(reg.valid_at(j as int));
                    }
                    match &reg.types[j] {
                        TypeDecl::Command(a) => a.create_command(reg, j, name, description),
                        _ => crate::schema::CreateCommand {
                            name,
                            description: None,
                            kind: crate::schema::CommandType::ChatInput,
                            options: crate::schema::CommandOptions::Unset,
                            calls: Vec::new(),
                        },
                    }
                },
                Style::Unit => crate::schema::CreateCommand {
                    name,
                    description: Some(description),
                    kind: crate::schema::CommandType::ChatInput,
                    options: crate::schema::CommandOptions::Unset,
                    calls: Vec::new(),
                },
            },
            Data::Enum(variants) => {
                let mut nested: Vec<crate::schema::CreateNested> = Vec::new();
                let mut i: usize = 0;
                while i < variants.len()
                    invariant
                        i <= variants@.len(),
                        reg.wf(),
                        bound <= reg.types@.len(),
                        forall|i: int|
                            0 <= i < variants@.len() ==> (#[trigger] variants@[i]).valid_sub_command_group(
                                reg,
                                bound as int,
                            ),
                        nested@.len() == i,
                        forall|k: int|
                            0 <= k < i ==> (#[trigger] nested@[k])@ == variants@[k].spec_create_sub_command_group(
                                reg,
                                bound as int,
                            ),
                    decreases variants@.len() - i,
                {
                    nested.push(variants[i].create_sub_command_group(reg, bound));
                    i = i + 1;
                }
                proof {
                    assert(crate::schema::nested_view(nested@) =~= Seq::new(
                        variants@.len(),
                        |i: int| variants@[i].spec_create_sub_command_group(reg, bound as int),
                    ));
                }
                crate::schema::CreateCommand {
                    name,
                    description: Some(description),
                    kind: crate::schema::CommandType::ChatInput,
                    options: crate::schema::CommandOptions::Nested(nested),
                    calls: Vec::new(),
                }
            },
        };
        proof {
            if !self.wraps() {
                assert(crate::schema::calls_view(body.calls@) =~= Seq::empty());
            }
        }
        crate::schema::append_builder(&mut body.calls, &self.builder);
        body
    }
}

} // verus!
