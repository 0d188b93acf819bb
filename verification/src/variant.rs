//! Enum variants: one command, sub-command group or sub-command each.
use vstd::prelude::*;
use crate::decl::BuilderMethodList;
use crate::decl::Fields;
use crate::decl::Registry;
use crate::decl::Style;
use crate::decl::TypeDecl;
use crate::error::Error;
use crate::error::ErrorView;
use crate::error::OptionKind;
use crate::field::Field;
use crate::field::all_valid;
use crate::utils::documented;
use crate::utils::spec_kebab_name;
use crate::utils::spec_title_name;
use crate::value::Value;
use crate::value::ValueView;
use crate::value::result_view;
use crate::wire::DataOption;
use crate::wire::OptionValue;

verus! {

/// The kind of context menu that a command is shown in.
#[derive(Clone, Copy, Debug, PartialEq, Eq, Structural)]
pub enum ContextMenuType {
    User,
    Message,
}

/// A variant of an enum.
#[derive(Debug)]
pub struct Variant {
    pub ident: String,
    pub fields: Fields,
    /// The documentation lines.
    pub attrs: Vec<String>,
    /// The externally visible name, where it is not derived from the
    /// identifier.
    pub name: Option<String>,
    /// Extra calls appended to the builder of the command or option.
    pub builder: Option<BuilderMethodList>,
    /// Whether the variant takes part in autocomplete interactions.
    pub autocomplete: bool,
    /// The context menu that a unit variant is shown in, if any.
    pub context_menu: Option<ContextMenuType>,
}

/// A record of parsed fields as a value.
pub open spec fn record(r: Result<Seq<crate::value::LeafView>, ErrorView>) -> Result<ValueView, ErrorView> {
    match r {
        Ok(fields) => Ok(ValueView::Record(fields)),
        Err(e) => Err(e),
    }
}

/// The value of a newtype around a parsed value.
pub open spec fn newtype(r: Result<ValueView, ErrorView>) -> Result<ValueView, ErrorView> {
    match r {
        Ok(v) => Ok(ValueView::Newtype(Box::new(v))),
        Err(e) => Err(e),
    }
}

/// The value of the variant at position `i` that holds a parsed value.
pub open spec fn variant(i: int, r: Result<ValueView, ErrorView>) -> Result<ValueView, ErrorView> {
    match r {
        Ok(v) => Ok(ValueView::Variant(i, Box::new(v))),
        Err(e) => Err(e),
    }
}

/// What a wire value parses to under a unit shape that stands for a
/// sub-command: the value is a sub-command, and nothing is held.
pub open spec fn spec_unit_from_value(value: &OptionValue) -> Result<ValueView, ErrorView> {
    match value {
        OptionValue::SubCommand(_) => Ok(ValueView::Unit),
        _ => Err(
            ErrorView::IncorrectCommandOptionType { got: value.spec_kind(), expected: OptionKind::SubCommand },
        ),
    }
}

/// Extracts a unit shape that stands for a sub-command from a wire value.
pub fn unit_from_value(value: &OptionValue) -> (r: Result<Value, Error>)
    ensures
        result_view(r) == spec_unit_from_value(value),
{
    match value {
        OptionValue::SubCommand(_) => Ok(Value::Unit),
        _ => Err(Error::IncorrectCommandOptionType { got: value.kind(), expected: OptionKind::SubCommand }),
    }
}

/// What a wire value parses to under the sub-command or sub-command group
/// declared at position `j`.
pub open spec fn spec_group_from_value(reg: &Registry, j: int, value: &OptionValue) -> Result<
    ValueView,
    ErrorView,
> {
    match reg.types@[j] {
        TypeDecl::SubCommandGroup(a) => a.spec_from_value(reg, j, value),
        TypeDecl::SubCommand(a) => a.spec_from_value(reg, j, value),
        _ => arbitrary(),
    }
}

/// What a list of options parses to under the command declared at
/// position `j`.
pub open spec fn spec_command_from_options(reg: &Registry, j: int, options: Seq<DataOption>) -> Result<
    ValueView,
    ErrorView,
> {
    match reg.types@[j] {
        TypeDecl::Command(a) => a.spec_from_options(reg, j, options),
        _ => arbitrary(),
    }
}

/// What a wire value parses to under the sub-command declared at position
/// `j`.
pub open spec fn spec_sub_command_from_value(reg: &Registry, j: int, value: &OptionValue) -> Result<
    ValueView,
    ErrorView,
> {
    match reg.types@[j] {
        TypeDecl::SubCommand(a) => a.spec_from_value(reg, j, value),
        _ => arbitrary(),
    }
}

impl Variant {
    /// The externally visible name of the variant as a command or option.
    pub open spec fn spec_name_kebab(&self) -> Seq<char> {
        spec_kebab_name(self.ident@, self.name)
    }

    /// The display name of the variant as a context-menu command.
    pub open spec fn spec_name_title(&self) -> Seq<char> {
        spec_title_name(self.ident@, self.name)
    }

    /// The externally visible name of the variant as a command or option.
    pub fn name_kebab(&self) -> (r: String)
        ensures
            r@ == self.spec_name_kebab(),
    {
        crate::utils::kebab_name(&self.ident, &self.name)
    }

    /// The display name of the variant as a context-menu command.
    pub fn name_title(&self) -> (r: String)
        ensures
            r@ == self.spec_name_title(),
    {
        crate::utils::title_name(&self.ident, &self.name)
    }

    /// The autocomplete flag is only accepted on a variant of tuple shape
    /// whose inner type has an autocomplete counterpart.
    pub open spec fn flag_ok(&self, reg: &Registry) -> bool {
        self.autocomplete ==> self.fields.style == Style::Tuple && self.fields.spec_inner() is Some
            && reg.supports_autocomplete(self.fields.spec_inner()->0 as int)
    }

    /// Whether the variant is accepted as a top-level command: it is
    /// documented, unless it is a context-menu command; named fields are
    /// options; a tuple shape wraps a command.
    pub open spec fn valid_command(&self, reg: &Registry, bound: int) -> bool {
        &&& self.flag_ok(reg)
        &&& match self.fields.style {
            Style::Struct => documented(self.attrs@) && all_valid(self.fields.fields@, reg, bound),
            Style::Tuple => documented(self.attrs@) && self.fields.spec_inner() is Some && reg.is_command(
                self.fields.spec_inner()->0 as int,
                bound,
            ),
            Style::Unit => self.context_menu is Some || documented(self.attrs@),
        }
    }

    /// Whether the variant is accepted inside a command: a tuple shape
    /// wraps a sub-command group or a sub-command.
    pub open spec fn valid_sub_command_group(&self, reg: &Registry, bound: int) -> bool {
        &&& self.flag_ok(reg)
        &&& documented(self.attrs@)
        &&& match self.fields.style {
            Style::Struct => all_valid(self.fields.fields@, reg, bound),
            Style::Tuple => self.fields.spec_inner() is Some && reg.is_sub_command_group(
                self.fields.spec_inner()->0 as int,
                bound,
            ),
            Style::Unit => true,
        }
    }

    /// Whether the variant is accepted inside a sub-command group: a tuple
    /// shape wraps a sub-command, never another group.
    pub open spec fn valid_sub_command(&self, reg: &Registry, bound: int) -> bool {
        &&& self.flag_ok(reg)
        &&& documented(self.attrs@)
        &&& match self.fields.style {
            Style::Struct => all_valid(self.fields.fields@, reg, bound),
            Style::Tuple => self.fields.spec_inner() is Some && reg.is_sub_command(
                self.fields.spec_inner()->0 as int,
                bound,
            ),
            Style::Unit => true,
        }
    }

    /// What the options of a top-level command parse to under this
    /// variant.
    pub open spec fn spec_from_command_options(&self, reg: &Registry, bound: int, options: Seq<DataOption>) -> Result<
        ValueView,
        ErrorView,
    > {
        match self.fields.style {
            Style::Struct => record(crate::field::spec_from_options(reg, bound, self.fields.fields@, options)),
            Style::Tuple => spec_command_from_options(reg, self.fields.spec_inner()->0 as int, options),
            Style::Unit => Ok(ValueView::Unit),
        }
    }

    /// What an option of a command parses to under this variant. Named
    /// fields and a unit variant ask for a sub-command; the error for
    /// another kind reports the kind of the option.
    pub open spec fn spec_from_subcommand_group_value(&self, reg: &Registry, bound: int, option: &DataOption) -> Result<
        ValueView,
        ErrorView,
    > {
        match self.fields.style {
            Style::Struct => match option.value {
                OptionValue::SubCommand(options) => record(
                    crate::field::spec_from_options(reg, bound, self.fields.fields@, options@),
                ),
                _ => Err(
                    ErrorView::IncorrectCommandOptionType {
                        got: option.value.spec_kind(),
                        expected: OptionKind::SubCommand,
                    },
                ),
            },
            Style::Tuple => spec_group_from_value(reg, self.fields.spec_inner()->0 as int, &option.value),
            Style::Unit => spec_unit_from_value(&option.value),
        }
    }

    /// What an option of a sub-command group parses to under this variant.
    /// Named fields and a unit variant ask for a sub-command; the error
    /// for another kind reports the kind of the option.
    pub open spec fn spec_from_subcommand_value(&self, reg: &Registry, bound: int, option: &DataOption) -> Result<
        ValueView,
        ErrorView,
    > {
        match self.fields.style {
            Style::Struct => match option.value {
                OptionValue::SubCommand(options) => record(
                    crate::field::spec_from_options(reg, bound, self.fields.fields@, options@),
                ),
                _ => Err(
                    ErrorView::IncorrectCommandOptionType {
                        got: option.value.spec_kind(),
                        expected: OptionKind::SubCommand,
                    },
                ),
            },
            Style::Tuple => spec_sub_command_from_value(reg, self.fields.spec_inner()->0 as int, &option.value),
            Style::Unit => spec_unit_from_value(&option.value),
        }
    }

    /// Extracts what this variant holds from the options of a top-level
    /// command.
    pub fn from_command_options(&self, reg: &Registry, bound: usize, options: &Vec<DataOption>) -> (r: Result<
        Value,
        Error,
    >)
        requires
            reg.wf(),
            bound <= reg.types@.len(),
            self.valid_command(reg, bound as int),
        ensures
            result_view(r) == self.spec_from_command_options(reg, bound as int, options@),
    {
        match self.fields.style {
            Style::Struct => match Field::from_options(&self.fields.fields, reg, bound, options) {
                Ok(fields) => Ok(Value::Record(fields)),
                Err(e) => Err(e),
            },
            Style::Tuple => {
                let j = match self.fields.inner() {
                    Some(j) => j,
                    None => {
                        return Err(Error::MissingRequiredCommandOption);
                    },
                };
                proof {
                    assert(reg.valid_at(j as int));
                }
                match &reg.types[j] {
                    TypeDecl::Command(a) => a.from_options(reg, j, options),
                    _ => Err(Error::MissingRequiredCommandOption),
                }
            },
            Style::Unit => Ok(Value::Unit),
        }
    }

    /// Extracts what this variant holds from an option of a command.
    pub fn from_subcommand_group_value(&self, reg: &Registry, bound: usize, option: &DataOption) -> (r: Result<
        Value,
        Error,
    >)
        requires
            reg.wf(),
            bound <= reg.types@.len(),
            self.valid_sub_command_group(reg, bound as int),
        ensures
            result_view(r) == self.spec_from_subcommand_group_value(reg, bound as int, option),
    {
        match self.fields.style {
            Style::Struct => match &option.value {
                OptionValue::SubCommand(options) => match Field::from_options(
                    &self.fields.fields,
                    reg,
                    bound,
                    options,
                ) {
                    Ok(fields) => Ok(Value::Record(fields)),
                    Err(e) => Err(e),
                },
                _ => Err(
                    Error::IncorrectCommandOptionType { got: option.kind(), expected: OptionKind::SubCommand },
                ),
            },
            Style::Tuple => {
                let j = match self.fields.inner() {
                    Some(j) => j,
                    None => {
                        return Err(Error::MissingRequiredCommandOption);
                    },
                };
                proof {
                    assert(reg.valid_at(j as int));
                }
                match &reg.types[j] {
                    TypeDecl::SubCommandGroup(a) => a.from_value(reg, j, &option.value),
                    TypeDecl::SubCommand(a) => a.from_value(reg, j, &option.value),
                    _ => Err(Error::MissingRequiredCommandOption),
                }
            },
            Style::Unit => unit_from_value(&option.value),
        }
    }

    /// Extracts what this variant holds from an option of a sub-command
    /// group.
    pub fn from_subcommand_value(&self, reg: &Registry, bound: usize, option: &DataOption) -> (r: Result<
        Value,
        Error,
    >)
        requires
            reg.wf(),
            bound <= reg.types@.len(),
            self.valid_sub_command(reg, bound as int),
        ensures
            result_view(r) == self.spec_from_subcommand_value(reg, bound as int, option),
    {
        match self.fields.style {
            Style::Struct => match &option.value {
                OptionValue::SubCommand(options) => match Field::from_options(
                    &self.fields.fields,
                    reg,
                    bound,
                    options,
                ) {
                    Ok(fields) => Ok(Value::Record(fields)),
                    Err(e) => Err(e),
                },
                _ => Err(
                    Error::IncorrectCommandOptionType { got: option.kind(), expected: OptionKind::SubCommand },
                ),
            },
            Style::Tuple => {
                let j = match self.fields.inner() {
                    Some(j) => j,
                    None => {
                        return Err(Error::MissingRequiredCommandOption);
                    },
                };
                proof {
                    assert(reg.valid_at(j as int));
                }
                match &reg.types[j] {
                    TypeDecl::SubCommand(a) => a.from_value(reg, j, &option.value),
                    _ => Err(Error::MissingRequiredCommandOption),
                }
            },
            Style::Unit => unit_from_value(&option.value),
        }
    }
}

/// The position of the first variant at or after `k` with the given name.
pub open spec fn find_variant(variants: Seq<Variant>, name: Seq<char>, k: int) -> Option<int>
    decreases variants.len() - k,
{
    if k < 0 || k >= variants.len() {
        None
    } else if variants[k].spec_name_kebab() == name {
        Some(k)
    } else {
        find_variant(variants, name, k + 1)
    }
}

/// Whether one of the variants is flagged for autocomplete.
pub open spec fn any_autocomplete(variants: Seq<Variant>) -> bool {
    exists|i: int| 0 <= i < variants.len() && (#[trigger] variants[i]).autocomplete
}

impl Variant {
    /// The position of the first variant with the given name.
    pub fn find(selfs: &Vec<Variant>, name: &String) -> (r: Option<usize>)
        ensures
            r is Some <==> find_variant(selfs@, name@, 0) is Some,
            r matches Some(i) ==> find_variant(selfs@, name@, 0) == Some(i as int) && i < selfs@.len(),
    {
        let mut k: usize = 0;
        while k < selfs.len()
            invariant
                k <= selfs.len(),
                find_variant(selfs@, name@, 0) == find_variant(selfs@, name@, k as int),
            decreases selfs.len() - k,
        {
            if selfs[k].name_kebab() == *name {
                return Some(k);
            }
            k = k + 1;
        }
        None
    }
}


/// The position of the first variant at or after `k` that is flagged for
/// autocomplete and has the given name.
pub open spec fn find_flagged_variant(variants: Seq<Variant>, name: Seq<char>, k: int) -> Option<int>
    decreases variants.len() - k,
{
    if k < 0 || k >= variants.len() {
        None
    } else if variants[k].autocomplete && variants[k].spec_name_kebab() == name {
        Some(k)
    } else {
        find_flagged_variant(variants, name, k + 1)
    }
}

/// The positions of the flagged variants among the first `n`, in order.
pub open spec fn flagged_variants(variants: Seq<Variant>, n: nat) -> Seq<int>
    decreases n,
{
    if n == 0 {
        Seq::empty()
    } else if variants[n - 1].autocomplete {
        flagged_variants(variants, (n - 1) as nat).push(n - 1)
    } else {
        flagged_variants(variants, (n - 1) as nat)
    }
}

/// Whether `v` is the variant for the flagged variant at position `i`: it
/// goes by the same identifier and holds the autocomplete counterpart of
/// the declared type that the variant wraps.
pub open spec fn is_flagged_variant(v: crate::autocomplete::AutocompleteVariant, variants: Seq<Variant>, i: int) -> bool {
    &&& v.index as int == i
    &&& 0 <= i < variants.len()
    &&& v.ident@ == variants[i].ident@
    &&& v.payload matches crate::autocomplete::AutocompletePayload::Inner(inner) && inner
        == variants[i].fields.spec_inner()
}

/// Whether `vs` lists the flagged variants in declaration order, one
/// variant each.
pub open spec fn lists_flagged_variants(
    vs: Seq<crate::autocomplete::AutocompleteVariant>,
    variants: Seq<Variant>,
) -> bool {
    &&& vs.len() == flagged_variants(variants, variants.len()).len()
    &&& forall|k: int|
        0 <= k < vs.len() ==> is_flagged_variant(
            #[trigger] vs[k],
            variants,
            flagged_variants(variants, variants.len())[k],
        )
}

impl Variant {
    /// What the options of a top-level command parse to in an autocomplete
    /// interaction under this flagged variant: what they parse to under
    /// the autocomplete counterpart of the command that it wraps.
    pub open spec fn spec_from_autocomplete_command_options(&self, reg: &Registry, options: Seq<DataOption>) -> Result<
        crate::autocomplete::AutocompleteView,
        ErrorView,
    > {
        let j = self.fields.spec_inner()->0 as int;
        match reg.types@[j] {
            TypeDecl::Command(a) => a.spec_autocomplete_from_options(reg, j, options),
            _ => arbitrary(),
        }
    }

    /// What an option parses to in an autocomplete interaction under this
    /// flagged variant: what its value parses to under the autocomplete
    /// counterpart of the sub-command or group that the variant wraps.
    pub open spec fn spec_from_autocomplete_subcommand_or_group_value(
        &self,
        reg: &Registry,
        bound: int,
        option: &DataOption,
    ) -> Result<crate::autocomplete::AutocompleteView, ErrorView>
        decreases bound, 0int,
    {
        match self.fields.spec_inner() {
            Some(j) => if reg.is_sub_command_group(j as int, bound) {
                match reg.types@[j as int] {
                    TypeDecl::SubCommandGroup(a) => a.spec_autocomplete_from_value(reg, j as int, &option.value),
                    TypeDecl::SubCommand(a) => a.spec_autocomplete_from_value(reg, j as int, &option.value),
                    _ => arbitrary(),
                }
            } else {
                arbitrary()
            },
            None => arbitrary(),
        }
    }

    /// Extracts the autocomplete value that this flagged variant holds
    /// from the options of a top-level command.
    pub fn from_autocomplete_command_options(&self, reg: &Registry, bound: usize, options: &Vec<DataOption>) -> (r:
        Result<crate::autocomplete::AutocompleteValue, Error>)
        requires
            reg.wf(),
            bound <= reg.types@.len(),
            self.valid_command(reg, bound as int),
            self.autocomplete,
        ensures
            crate::autocomplete::autocomplete_result_view(r) == self.spec_from_autocomplete_command_options(
                reg,
                options@,
            ),
    {
        let j = match self.fields.inner() {
            Some(j) => j,
            None => {
                return Err(Error::MissingAutocompleteOption);
            },
        };
        proof {
            assert(reg.valid_at(j as int));
        }
        match &reg.types[j] {
            TypeDecl::Command(a) => a.autocomplete_from_options(reg, j, options),
            _ => Err(Error::MissingAutocompleteOption),
        }
    }

    /// Extracts the autocomplete value that this flagged variant holds
    /// from an option of a command or of a sub-command group.
    pub fn from_autocomplete_subcommand_or_group_value(&self, reg: &Registry, bound: usize, option: &DataOption) -> (r:
        Result<crate::autocomplete::AutocompleteValue, Error>)
        requires
            reg.wf(),
            bound <= reg.types@.len(),
            self.valid_sub_command_group(reg, bound as int) || self.valid_sub_command(reg, bound as int),
            self.autocomplete,
        ensures
            crate::autocomplete::autocomplete_result_view(r)
                == self.spec_from_autocomplete_subcommand_or_group_value(reg, bound as int, option),
        decreases bound, 0int,
    {
        let j = match self.fields.inner() {
            Some(j) => j,
            None => {
                return Err(Error::MissingAutocompleteOption);
            },
        };
        proof {
            assert(reg.valid_at(j as int));
        }
        match &reg.types[j] {
            TypeDecl::SubCommandGroup(a) => a.autocomplete_from_value(reg, j, &option.value),
            TypeDecl::SubCommand(a) => a.autocomplete_from_value(reg, j, &option.value),
            _ => Err(Error::MissingAutocompleteOption),
        }
    }

    /// The position of the first flagged variant with the given name.
    pub fn find_flagged(selfs: &Vec<Variant>, name: &String) -> (r: Option<usize>)
        ensures
            r is Some <==> find_flagged_variant(selfs@, name@, 0) is Some,
            r matches Some(i) ==> find_flagged_variant(selfs@, name@, 0) == Some(i as int) && i < selfs@.len()
                && selfs@[i as int].autocomplete,
    {
        let mut k: usize = 0;
        while k < selfs.len()
            invariant
                k <= selfs.len(),
                find_flagged_variant(selfs@, name@, 0) == find_flagged_variant(selfs@, name@, k as int),
            decreases selfs.len() - k,
        {
            if selfs[k].autocomplete && selfs[k].name_kebab() == *name {
                return Some(k);
            }
            k = k + 1;
        }
        None
    }

    /// The variants of the autocomplete counterpart of an enum with these
    /// variants: one for each flagged variant, in declaration order.
    pub fn autocomplete_variants(selfs: &Vec<Variant>) -> (r: Vec<crate::autocomplete::AutocompleteVariant>)
        ensures
            lists_flagged_variants(r@, selfs@),
            r@.len() > 0 <==> any_autocomplete(selfs@),
    {
        let mut variants: Vec<crate::autocomplete::AutocompleteVariant> = Vec::new();
        let mut i: usize = 0;
        while i < selfs.len()
            invariant
                i <= selfs.len(),
                variants@.len() == flagged_variants(selfs@, i as nat).len(),
                forall|k: int|
                    0 <= k < variants@.len() ==> is_flagged_variant(
                        #[trigger] variants@[k],
                        selfs@,
                        flagged_variants(selfs@, i as nat)[k],
                    ),
                variants@.len() > 0 <==> (exists|j: int| 0 <= j < i && (#[trigger] selfs@[j]).autocomplete),
            decreases selfs.len() - i,
        {
            if selfs[i].autocomplete {
                variants.push(
                    crate::autocomplete::AutocompleteVariant {
                        ident: selfs[i].ident.clone(),
                        index: i,
                        payload: crate::autocomplete::AutocompletePayload::Inner(selfs[i].fields.inner()),
                    },
                );
            }
            i = i + 1;
        }
        variants
    }
}


/// A sub-command schema followed by more builder calls.
pub open spec fn sub_command_with(
    s: crate::schema::SubCommandView,
    calls: Seq<crate::schema::CallView>,
) -> crate::schema::SubCommandView {
    crate::schema::SubCommandView { calls: s.calls + calls, ..s }
}

/// A nested schema followed by more builder calls.
pub open spec fn nested_with(
    n: crate::schema::NestedView,
    calls: Seq<crate::schema::CallView>,
) -> crate::schema::NestedView {
    match n {
        crate::schema::NestedView::SubCommand(s) => crate::schema::NestedView::SubCommand(
            sub_command_with(s, calls),
        ),
        crate::schema::NestedView::Group(g) => crate::schema::NestedView::Group(
            crate::schema::SubCommandGroupView { calls: g.calls + calls, ..g },
        ),
    }
}

/// A command schema followed by more builder calls.
pub open spec fn command_with(
    c: crate::schema::CommandView,
    calls: Seq<crate::schema::CallView>,
) -> crate::schema::CommandView {
    crate::schema::CommandView { calls: c.calls + calls, ..c }
}

impl Variant {
    /// The description of the variant: its documentation.
    pub open spec fn spec_description(&self) -> Seq<char> {
        crate::utils::spec_documentation_string(self.attrs@)->0
    }

    /// The schema of the sub-command that the variant stands for inside a
    /// sub-command group: named fields are its options, a tuple shape has
    /// the schema of the sub-command that it wraps; the variant's extra
    /// builder calls follow.
    pub open spec fn spec_create_sub_command(&self, reg: &Registry, bound: int) -> crate::schema::SubCommandView {
        let name = self.spec_name_kebab();
        let description = self.spec_description();
        let body = match self.fields.style {
            Style::Struct => crate::schema::SubCommandView {
                name,
                description,
                options: crate::field::spec_create_options(self.fields.fields@, reg, bound),
                calls: Seq::empty(),
            },
            Style::Tuple => match reg.types@[self.fields.spec_inner()->0 as int] {
                TypeDecl::SubCommand(a) => a.spec_create_option(
                    reg,
                    self.fields.spec_inner()->0 as int,
                    name,
                    description,
                ),
                _ => arbitrary(),
            },
            Style::Unit => crate::schema::SubCommandView {
                name,
                description,
                options: Seq::empty(),
                calls: Seq::empty(),
            },
        };
        sub_command_with(body, crate::schema::builder_view(self.builder))
    }

    /// The schema of what the variant stands for inside a command: a
    /// sub-command, or the schema of the sub-command group or sub-command
    /// that a tuple shape wraps; the variant's extra builder calls follow.
    pub open spec fn spec_create_sub_command_group(&self, reg: &Registry, bound: int) -> crate::schema::NestedView {
        let name = self.spec_name_kebab();
        let description = self.spec_description();
        let body = match self.fields.style {
            Style::Struct => crate::schema::NestedView::SubCommand(
                crate::schema::SubCommandView {
                    name,
                    description,
                    options: crate::field::spec_create_options(self.fields.fields@, reg, bound),
                    calls: Seq::empty(),
                },
            ),
            Style::Tuple => match reg.types@[self.fields.spec_inner()->0 as int] {
                TypeDecl::SubCommand(a) => crate::schema::NestedView::SubCommand(
                    a.spec_create_option(reg, self.fields.spec_inner()->0 as int, name, description),
                ),
                TypeDecl::SubCommandGroup(a) => crate::schema::NestedView::Group(
                    a.spec_create_option(reg, self.fields.spec_inner()->0 as int, name, description),
                ),
                _ => arbitrary(),
            },
            Style::Unit => crate::schema::NestedView::SubCommand(
                crate::schema::SubCommandView { name, description, options: Seq::empty(), calls: Seq::empty() },
            ),
        };
        nested_with(body, crate::schema::builder_view(self.builder))
    }

    /// The schema of the top-level command that the variant stands for. A
    /// unit variant with a context menu is a command of that type under
    /// its display name, without description.
    pub open spec fn spec_create_command(&self, reg: &Registry, bound: int) -> crate::schema::CommandView {
        let name = self.spec_name_kebab();
        let description = self.spec_description();
        let body = match self.fields.style {
            Style::Struct => crate::schema::CommandView {
                name,
                description: Some(description),
                kind: crate::schema::CommandType::ChatInput,
                options: crate::schema::CommandOptionsView::Options(
                    crate::field::spec_create_options(self.fields.fields@, reg, bound),
                ),
                calls: Seq::empty(),
            },
            Style::Tuple => match reg.types@[self.fields.spec_inner()->0 as int] {
                TypeDecl::Command(a) => a.spec_create_command(
                    reg,
                    self.fields.spec_inner()->0 as int,
                    name,
                    description,
                ),
                _ => arbitrary(),
            },
            Style::Unit => match self.context_menu {
                None => crate::schema::CommandView {
                    name,
                    description: Some(description),
                    kind: crate::schema::CommandType::ChatInput,
                    options: crate::schema::CommandOptionsView::Unset,
                    calls: Seq::empty(),
                },
                Some(menu) => crate::schema::CommandView {
                    name: self.spec_name_title(),
                    description: None,
                    kind: menu.spec_command_type(),
                    options: crate::schema::CommandOptionsView::Unset,
                    calls: Seq::empty(),
                },
            },
        };
        command_with(body, crate::schema::builder_view(self.builder))
    }

    /// The description of the variant; empty where it has no
    /// documentation.
    pub fn description(&self) -> (r: String)
        ensures
            crate::utils::documented(self.attrs@) ==> r@ == self.spec_description(),
            !crate::utils::documented(self.attrs@) ==> r@ == Seq::<char>::empty(),
    {
        match crate::utils::documentation_string(&self.attrs) {
            Some(d) => d,
            None => String::new(),
        }
    }

    /// Creates the schema of the sub-command that the variant stands for
    /// inside a sub-command group.
    pub fn create_sub_command(&self, reg: &Registry, bound: usize) -> (r: crate::schema::CreateSubCommand)
        requires
            reg.wf(),
            bound <= reg.types@.len(),
            self.valid_sub_command(reg, bound as int),
        ensures
            r@ == self.spec_create_sub_command(reg, bound as int),
    {
        let name = self.name_kebab();
        let description = self.description();
        let mut body = match self.fields.style {
            Style::Struct => crate::schema::CreateSubCommand {
                name,
                description,
                options: Field::create_options(&self.fields.fields, reg, bound),
                calls: Vec::new(),
            },
            Style::Tuple => {
                let j = match self.fields.inner() {
                    Some(j) => j,
                    None => 0,
                };
                proof {
                    assert(reg.valid_at(j as int));
                }
                match &reg.types[j] {
                    TypeDecl::SubCommand(a) => a.create_option(reg, j, name, description),
                    _ => crate::schema::CreateSubCommand {
                        name,
                        description,
                        options: Vec::new(),
                        calls: Vec::new(),
                    },
                }
            },
            Style::Unit => crate::schema::CreateSubCommand {
                name,
                description,
                options: Vec::new(),
                calls: Vec::new(),
            },
        };
        proof {
            if self.fields.style != Style::Tuple {
                assert(crate::schema::calls_view(body.calls@) =~= Seq::empty());
            }
            if self.fields.style == Style::Unit {
                assert(crate::schema::options_view(body.options@) =~= Seq::empty());
            }
        }
        crate::schema::append_builder(&mut body.calls, &self.builder);
        body
    }

    /// Creates the schema of what the variant stands for inside a command.
    pub fn create_sub_command_group(&self, reg: &Registry, bound: usize) -> (r: crate::schema::CreateNested)
        requires
            reg.wf(),
            bound <= reg.types@.len(),
            self.valid_sub_command_group(reg, bound as int),
        ensures
            r@ == self.spec_create_sub_command_group(reg, bound as int),
    {
        let name = self.name_kebab();
        let description = self.description();
        if self.fields.style == Style::Tuple {
            let j = match self.fields.inner() {
                Some(j) => j,
                None => 0,
            };
            proof {
                assert(reg.valid_at(j as int));
            }
            match &reg.types[j] {
                TypeDecl::SubCommandGroup(a) => {
                    let mut g = a.create_option(reg, j, name, description);
                    crate::schema::append_builder(&mut g.calls, &self.builder);
                    return crate::schema::CreateNested::Group(g);
                },
                TypeDecl::SubCommand(a) => {
                    let mut s = a.create_option(reg, j, name, description);
                    crate::schema::append_builder(&mut s.calls, &self.builder);
                    return crate::schema::CreateNested::SubCommand(s);
                },
                _ => {},
            }
        }
        let options = if self.fields.style == Style::Struct {
            Field::create_options(&self.fields.fields, reg, bound)
        } else {
            Vec::new()
        };
        let mut s = crate::schema::CreateSubCommand { name, description, options, calls: Vec::new() };
        proof {
            assert(crate::schema::calls_view(s.calls@) =~= Seq::empty());
            if self.fields.style == Style::Unit {
                assert(crate::schema::options_view(s.options@) =~= Seq::empty());
            }
        }
        crate::schema::append_builder(&mut s.calls, &self.builder);
        crate::schema::CreateNested::SubCommand(s)
    }

    /// Creates the schema of the top-level command that the variant stands
    /// for.
    pub fn create_command(&self, reg: &Registry, bound: usize) -> (r: crate::schema::CreateCommand)
        requires
            reg.wf(),
            bound <= reg.types@.len(),
            self.valid_command(reg, bound as int),
        ensures
            r@ == self.spec_create_command(reg, bound as int),
    {
        let mut body = match self.fields.style {
            Style::Struct => crate::schema::CreateCommand {
                name: self.name_kebab(),
                description: Some(self.description()),
                kind: crate::schema::CommandType::ChatInput,
                options: crate::schema::CommandOptions::Options(
                    Field::create_options(&self.fields.fields, reg, bound),
                ),
                calls: Vec::new(),
            },
            Style::Tuple => {
                let j = match self.fields.inner() {
                    Some(j) => j,
                    None => 0,
                };
                proof {
                    assert(reg.valid_at(j as int));
                }
                match &reg.types[j] {
                    TypeDecl::Command(a) => a.create_command(reg, j, self.name_kebab(), self.description()),
                    _ => crate::schema::CreateCommand {
                        name: self.name_kebab(),
                        description: None,
                        kind: crate::schema::CommandType::ChatInput,
                        options: crate::schema::CommandOptions::Unset,
                        calls: Vec::new(),
                    },
                }
            },
            Style::Unit => match self.context_menu {
                None => crate::schema::CreateCommand {
                    name: self.name_kebab(),
                    description: Some(self.description()),
                    kind: crate::schema::CommandType::ChatInput,
                    options: crate::schema::CommandOptions::Unset,
                    calls: Vec::new(),
                },
                Some(menu) => crate::schema::CreateCommand {
                    name: self.name_title(),
                    description: None,
                    kind: menu.command_type(),
                    options: crate::schema::CommandOptions::Unset,
                    calls: Vec::new(),
                },
            },
        };
        proof {
            if self.fields.style != Style::Tuple {
                assert(crate::schema::calls_view(body.calls@) =~= Seq::empty());
            }
        }
        crate::schema::append_builder(&mut body.calls, &self.builder);
        body
    }
}

} // verus!
