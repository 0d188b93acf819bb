//! Named fields: one option each.
use vstd::prelude::*;
use crate::decl::BuilderMethodList;
use crate::decl::Registry;
use crate::decl::Type;
use crate::error::Error;
use crate::error::ErrorView;
use crate::option::type_ok;
use crate::utils::documented;
use crate::utils::spec_kebab_name;
use crate::value::Leaf;
use crate::value::LeafView;
use crate::value::leaves_view;
use crate::wire::DataOption;
use crate::wire::OptionValue;

verus! {

/// A field of a struct or of an enum variant.
#[derive(Debug)]
pub struct Field {
    /// The identifier; a field of a tuple shape has none.
    pub ident: Option<String>,
    /// The declared type.
    pub ty: Type,
    /// The documentation lines.
    pub attrs: Vec<String>,
    /// The externally visible name, where it is not the kebab-case
    /// identifier.
    pub name: Option<String>,
    /// Extra calls appended to the option's builder.
    pub builder: Option<BuilderMethodList>,
    /// Whether the option supports autocomplete.
    pub autocomplete: bool,
    /// The option type that builds and parses this field in place of its
    /// own.
    pub with: Option<Type>,
}

impl Field {
    /// The externally visible name of a named field.
    pub open spec fn spec_name(&self) -> Seq<char> {
        spec_kebab_name(self.ident->0@, self.name)
    }

    /// The option type that builds and parses this field.
    pub open spec fn spec_path_base(&self) -> Type {
        match self.with {
            Some(w) => w,
            None => self.ty,
        }
    }

    /// Whether this is accepted as a named field that stands for one
    /// option: it has an identifier and documentation, and its types are
    /// option types declared before `bound`.
    pub open spec fn valid(&self, reg: &Registry, bound: int) -> bool {
        &&& self.ident is Some
        &&& documented(self.attrs@)
        &&& type_ok(reg, self.ty, bound)
        &&& type_ok(reg, self.spec_path_base(), bound)
    }

    /// The identifier of a named field.
    pub fn ident(&self) -> (r: &String)
        requires
            self.ident is Some,
        ensures
            Some(*r) == self.ident,
    {
        match &self.ident {
            Some(i) => i,
            None => vstd::pervasive::unreached(),
        }
    }

    /// The externally visible name of a named field.
    pub fn name(&self) -> (r: String)
        requires
            self.ident is Some,
        ensures
            r@ == self.spec_name(),
    {
        crate::utils::kebab_name(self.ident(), &self.name)
    }

    /// The option type that builds and parses this field.
    pub fn path_base(&self) -> (r: Type)
        ensures
            r == self.spec_path_base(),
    {
        match self.with {
            Some(w) => w,
            None => self.ty,
        }
    }
}

/// Every field of a list is accepted as an option.
pub open spec fn all_valid(fields: Seq<Field>, reg: &Registry, bound: int) -> bool {
    forall|j: int| 0 <= j < fields.len() ==> (#[trigger] fields[j]).valid(reg, bound)
}

/// The position of the first field at or after `k` with the given name.
pub open spec fn find_field(fields: Seq<Field>, name: Seq<char>, k: int) -> Option<int>
    decreases fields.len() - k,
{
    if k < 0 || k >= fields.len() {
        None
    } else if fields[k].spec_name() == name {
        Some(k)
    } else {
        find_field(fields, name, k + 1)
    }
}

/// The slots of the fields after the first `n` options were matched to
/// them by name: each slot holds the position of the last option given for
/// its field. An option that names no field is an error.
pub open spec fn spec_fold(fields: Seq<Field>, options: Seq<DataOption>, n: nat) -> Result<
    Seq<Option<usize>>,
    ErrorView,
>
    decreases n,
{
    if n == 0 {
        Ok(Seq::new(fields.len(), |j: int| None))
    } else {
        match spec_fold(fields, options, (n - 1) as nat) {
            Err(e) => Err(e),
            Ok(slots) => match find_field(fields, options[n - 1].name@, 0) {
                None => Err(ErrorView::UnknownCommandOption(options[n - 1].name@)),
                Some(j) => Ok(slots.update(j, Some((n - 1) as usize))),
            },
        }
    }
}

/// The wire value that a slot holds.
pub open spec fn slot_value(options: Seq<DataOption>, slot: Option<usize>) -> Option<OptionValue> {
    match slot {
        Some(i) => Some(options[i as int].value),
        None => None,
    }
}

/// The values of the first `n` fields, each parsed from its slot; the first
/// field that fails to parse gives the error.
pub open spec fn spec_inits(
    reg: &Registry,
    bound: int,
    fields: Seq<Field>,
    options: Seq<DataOption>,
    slots: Seq<Option<usize>>,
    n: nat,
) -> Result<Seq<LeafView>, ErrorView>
    decreases n,
{
    if n == 0 {
        Ok(Seq::empty())
    } else {
        match spec_inits(reg, bound, fields, options, slots, (n - 1) as nat) {
            Err(e) => Err(e),
            Ok(values) => match crate::option::spec_from_value(
                reg,
                bound,
                fields[n - 1].spec_path_base(),
                slot_value(options, slots[n - 1]),
            ) {
                Err(e) => Err(e),
                Ok(v) => Ok(values.push(v)),
            },
        }
    }
}

/// What a list of options parses to under a list of named fields.
pub open spec fn spec_from_options(
    reg: &Registry,
    bound: int,
    fields: Seq<Field>,
    options: Seq<DataOption>,
) -> Result<Seq<LeafView>, ErrorView> {
    match spec_fold(fields, options, options.len()) {
        Err(e) => Err(e),
        Ok(slots) => spec_inits(reg, bound, fields, options, slots, fields.len()),
    }
}

/// Once an option names no field, the error stands however many more
/// options are matched.
pub proof fn lemma_fold_error_stays(fields: Seq<Field>, options: Seq<DataOption>, n: nat, m: nat)
    requires
        n <= m,
        spec_fold(fields, options, n) is Err,
    ensures
        spec_fold(fields, options, m) == spec_fold(fields, options, n),
    decreases m,
{
    if m > n {
        lemma_fold_error_stays(fields, options, n, (m - 1) as nat);
    }
}

/// Once a field fails to parse, the error stands however many more fields
/// are parsed.
pub proof fn lemma_inits_error_stays(
    reg: &Registry,
    bound: int,
    fields: Seq<Field>,
    options: Seq<DataOption>,
    slots: Seq<Option<usize>>,
    n: nat,
    m: nat,
)
    requires
        n <= m,
        spec_inits(reg, bound, fields, options, slots, n) is Err,
    ensures
        spec_inits(reg, bound, fields, options, slots, m) == spec_inits(reg, bound, fields, options, slots, n),
    decreases m,
{
    if m > n {
        lemma_inits_error_stays(reg, bound, fields, options, slots, n, (m - 1) as nat);
    }
}

/// The view of the result of parsing a list of fields.
pub open spec fn fields_result_view(r: Result<Vec<Leaf>, Error>) -> Result<Seq<LeafView>, ErrorView> {
    match r {
        Ok(v) => Ok(leaves_view(v@)),
        Err(e) => Err(e@),
    }
}

/// The view of the result of matching options to fields.
pub open spec fn fold_result_view(r: Result<Vec<Option<usize>>, Error>) -> Result<
    Seq<Option<usize>>,
    ErrorView,
> {
    match r {
        Ok(v) => Ok(v@),
        Err(e) => Err(e@),
    }
}

impl Field {
    /// The position of the first field with the given name.
    pub fn find(selfs: &Vec<Field>, name: &String) -> (r: Option<usize>)
        requires
            forall|j: int| 0 <= j < selfs@.len() ==> (#[trigger] selfs@[j]).ident is Some,
        ensures
            r is Some <==> find_field(selfs@, name@, 0) is Some,
            r matches Some(j) ==> find_field(selfs@, name@, 0) == Some(j as int) && j < selfs@.len(),
    {
        let mut k: usize = 0;
        while k < selfs.len()
            invariant
                k <= selfs.len(),
                forall|j: int| 0 <= j < selfs@.len() ==> (#[trigger] selfs@[j]).ident is Some,
                find_field(selfs@, name@, 0) == find_field(selfs@, name@, k as int),
            decreases selfs.len() - k,
        {
            if selfs[k].name() == *name {
                return Some(k);
            }
            k = k + 1;
        }
        None
    }

    /// Matches options to fields by name. Each slot of the result holds
    /// the position of the last option given for the field at that
    /// position.
    pub fn fold(selfs: &Vec<Field>, options: &Vec<DataOption>) -> (r: Result<Vec<Option<usize>>, Error>)
        requires
            forall|j: int| 0 <= j < selfs@.len() ==> (#[trigger] selfs@[j]).ident is Some,
        ensures
            fold_result_view(r) == spec_fold(selfs@, options@, options@.len()),
            r matches Ok(slots) ==> slots@.len() == selfs@.len() && forall|j: int|
                0 <= j < slots@.len() ==> ((#[trigger] slots@[j]) matches Some(i) ==> i < options@.len()),
    {
        let mut slots: Vec<Option<usize>> = Vec::new();
        let mut j: usize = 0;
        while j < selfs.len()
            invariant
                j <= selfs.len(),
                slots@ =~= Seq::new(j as nat, |j: int| None::<usize>),
            decreases selfs.len() - j,
        {
            slots.push(None);
            j = j + 1;
        }
        let mut n: usize = 0;
        while n < options.len()
            invariant
                n <= options.len(),
                forall|j: int| 0 <= j < selfs@.len() ==> (#[trigger] selfs@[j]).ident is Some,
                slots@.len() == selfs@.len(),
                spec_fold(selfs@, options@, n as nat) == Ok::<Seq<Option<usize>>, ErrorView>(slots@),
                forall|j: int|
                    0 <= j < slots@.len() ==> ((#[trigger] slots@[j]) matches Some(i) ==> i < n),
            decreases options.len() - n,
        {
            match Self::find(selfs, &options[n].name) {
                None => {
                    proof {
                        lemma_fold_error_stays(selfs@, options@, (n + 1) as nat, options@.len());
                    }
                    return Err(Error::UnknownCommandOption(options[n].name.clone()));
                },
                Some(j) => {
                    slots.set(j, Some(n));
                },
            }
            n = n + 1;
        }
        Ok(slots)
    }

    /// The wire value that a slot holds.
    pub fn slot<'a>(options: &'a Vec<DataOption>, slot: Option<usize>) -> (r: Option<&'a OptionValue>)
        requires
            slot matches Some(i) ==> i < options@.len(),
        ensures
            crate::option::owned(r) == slot_value(options@, slot),
    {
        match slot {
            Some(i) => Some(&options[i].value),
            None => None,
        }
    }

    /// Extracts the values of named fields from a list of options.
    ///
    /// Options are matched to fields by name, not by position. An option
    /// that names no field is an error, and so is a field without an
    /// option, unless its type is optional.
    pub fn from_options(selfs: &Vec<Field>, reg: &Registry, bound: usize, options: &Vec<DataOption>) -> (r:
        Result<Vec<Leaf>, Error>)
        requires
            reg.wf(),
            bound <= reg.types@.len(),
            all_valid(selfs@, reg, bound as int),
        ensures
            fields_result_view(r) == spec_from_options(reg, bound as int, selfs@, options@),
    {
        let slots = match Self::fold(selfs, options) {
            Err(e) => {
                return Err(e);
            },
            Ok(slots) => slots,
        };
        let mut values: Vec<Leaf> = Vec::new();
        let mut j: usize = 0;
        proof {
            assert(leaves_view(values@) =~= Seq::<LeafView>::empty());
        }
        while j < selfs.len()
            invariant
                j <= selfs.len(),
                reg.wf(),
                bound <= reg.types@.len(),
                all_valid(selfs@, reg, bound as int),
                slots@.len() == selfs@.len(),
                spec_fold(selfs@, options@, options@.len()) == Ok::<Seq<Option<usize>>, ErrorView>(slots@),
                forall|j: int|
                    0 <= j < slots@.len() ==> ((#[trigger] slots@[j]) matches Some(i) ==> i < options@.len()),
                spec_inits(reg, bound as int, selfs@, options@, slots@, j as nat) == Ok::<
                    Seq<LeafView>,
                    ErrorView,
                >(leaves_view(values@)),
            decreases selfs.len() - j,
        {
            let value = Self::slot(options, slots[j]);
            let ty = selfs[j].path_base();
            proof {
                assert(selfs@[j as int].valid(reg, bound as int));
            }
            let parsed = crate::option::from_value(reg, bound, &ty, value);
            proof {
                assert(crate::value::leaf_result_view(parsed) == crate::option::spec_from_value(
                    reg,
                    bound as int,
                    selfs@[j as int].spec_path_base(),
                    slot_value(options@, slots@[j as int]),
                ));
            }
            match parsed {
                Err(e) => {
                    proof {
                        assert(spec_inits(reg, bound as int, selfs@, options@, slots@, (j + 1) as nat) == Err::<
                            Seq<LeafView>,
                            ErrorView,
                        >(e@));
                        lemma_inits_error_stays(
                            reg,
                            bound as int,
                            selfs@,
                            options@,
                            slots@,
                            (j + 1) as nat,
                            selfs@.len(),
                        );
                    }
                    return Err(e);
                },
                Ok(v) => {
                    let ghost before = leaves_view(values@);
                    values.push(v);
                    proof {
                        assert(leaves_view(values@) =~= before.push(v@));
                    }
                },
            }
            j = j + 1;
        }
        Ok(values)
    }
}


/// The position of the first option at or after `k` whose value is marked
/// as the one being autocompleted.
pub open spec fn find_focused(options: Seq<DataOption>, k: int) -> Option<int>
    decreases options.len() - k,
{
    if k < 0 || k >= options.len() {
        None
    } else if options[k].value is Autocomplete {
        Some(k)
    } else {
        find_focused(options, k + 1)
    }
}

/// The position of the first field at or after `k` that is flagged for
/// autocomplete and has the given name.
pub open spec fn find_flagged_field(fields: Seq<Field>, name: Seq<char>, k: int) -> Option<int>
    decreases fields.len() - k,
{
    if k < 0 || k >= fields.len() {
        None
    } else if fields[k].autocomplete && fields[k].spec_name() == name {
        Some(k)
    } else {
        find_flagged_field(fields, name, k + 1)
    }
}

/// The wire value that a flagged field is parsed from: the text typed so
/// far as a string where its slot holds the option being autocompleted,
/// else what its slot holds.
pub open spec fn typed_value(value: Option<OptionValue>) -> Option<OptionValue> {
    match value {
        Some(OptionValue::Autocomplete { kind, value }) => Some(OptionValue::String(value)),
        other => other,
    }
}

/// What the field at position `j` parses to when the field at position
/// `focused` is being typed. The focused field is parsed under its own
/// type, and an error of that parse stands; a sibling is parsed in full or
/// coarsely.
pub open spec fn spec_autocomplete_init(
    reg: &Registry,
    bound: int,
    fields: Seq<Field>,
    options: Seq<DataOption>,
    slots: Seq<Option<usize>>,
    focused: int,
    j: int,
) -> Result<crate::autocomplete::PartialView, ErrorView> {
    let slot = slot_value(options, slots[j]);
    if fields[j].autocomplete {
        if j == focused {
            match crate::option::spec_from_value(reg, bound, fields[j].ty, typed_value(slot)) {
                Ok(v) => Ok(crate::autocomplete::PartialView::Value(v)),
                Err(e) => Err(e),
            }
        } else {
            crate::option::spec_partial_from_value(reg, bound, fields[j].ty, typed_value(slot))
        }
    } else {
        crate::option::spec_partial_from_value(reg, bound, fields[j].spec_path_base(), slot)
    }
}

/// The values of the first `n` fields in an autocomplete interaction; the
/// first field that fails to parse gives the error.
pub open spec fn spec_autocomplete_inits(
    reg: &Registry,
    bound: int,
    fields: Seq<Field>,
    options: Seq<DataOption>,
    slots: Seq<Option<usize>>,
    focused: int,
    n: nat,
) -> Result<Seq<crate::autocomplete::PartialView>, ErrorView>
    decreases n,
{
    if n == 0 {
        Ok(Seq::empty())
    } else {
        match spec_autocomplete_inits(reg, bound, fields, options, slots, focused, (n - 1) as nat) {
            Err(e) => Err(e),
            Ok(values) => match spec_autocomplete_init(reg, bound, fields, options, slots, focused, n - 1) {
                Err(e) => Err(e),
                Ok(v) => Ok(values.push(v)),
            },
        }
    }
}

/// What a list of options parses to in an autocomplete interaction under
/// a list of named fields: the first option that is marked as being
/// autocompleted names the focused field, which must be flagged.
pub open spec fn spec_from_autocomplete_options(
    reg: &Registry,
    bound: int,
    fields: Seq<Field>,
    options: Seq<DataOption>,
) -> Result<crate::autocomplete::AutocompleteView, ErrorView> {
    match spec_fold(fields, options, options.len()) {
        Err(e) => Err(e),
        Ok(slots) => match find_focused(options, 0) {
            None => Err(ErrorView::MissingAutocompleteOption),
            Some(a) => match find_flagged_field(fields, options[a].name@, 0) {
                None => Err(ErrorView::UnknownAutocompleteOption(options[a].name@)),
                Some(i) => match spec_autocomplete_inits(reg, bound, fields, options, slots, i, fields.len()) {
                    Err(e) => Err(e),
                    Ok(values) => Ok(crate::autocomplete::AutocompleteView::Focused { field: i, fields: values }),
                },
            },
        },
    }
}

/// Once a field fails to parse, the error stands however many more fields
/// are parsed.
pub proof fn lemma_autocomplete_inits_error_stays(
    reg: &Registry,
    bound: int,
    fields: Seq<Field>,
    options: Seq<DataOption>,
    slots: Seq<Option<usize>>,
    focused: int,
    n: nat,
    m: nat,
)
    requires
        n <= m,
        spec_autocomplete_inits(reg, bound, fields, options, slots, focused, n) is Err,
    ensures
        spec_autocomplete_inits(reg, bound, fields, options, slots, focused, m) == spec_autocomplete_inits(
            reg,
            bound,
            fields,
            options,
            slots,
            focused,
            n,
        ),
    decreases m,
{
    if m > n {
        lemma_autocomplete_inits_error_stays(reg, bound, fields, options, slots, focused, n, (m - 1) as nat);
    }
}

/// The positions of the flagged fields among the first `n`, in order.
pub open spec fn flagged_fields(fields: Seq<Field>, n: nat) -> Seq<int>
    decreases n,
{
    if n == 0 {
        Seq::empty()
    } else if fields[n - 1].autocomplete {
        flagged_fields(fields, (n - 1) as nat).push(n - 1)
    } else {
        flagged_fields(fields, (n - 1) as nat)
    }
}

/// Whether `fs` is what the variant for the flagged field at position
/// `focused` holds: every field under its identifier, the flagged field
/// with its own type, every sibling with a partial option of its type.
pub open spec fn is_payload(fs: Seq<crate::autocomplete::AutocompleteField>, fields: Seq<Field>, focused: int) -> bool {
    &&& fs.len() == fields.len()
    &&& forall|j: int|
        0 <= j < fs.len() ==> (#[trigger] fs[j]).ident@ == fields[j].ident->0@ && fs[j].ty == fields[j].ty
            && fs[j].partial == (j != focused)
}

/// Whether `v` is the variant for the flagged field at position `i`: it
/// goes by the Pascal-case form of the field's identifier and holds the
/// fields of the struct.
pub open spec fn is_field_variant(v: crate::autocomplete::AutocompleteVariant, fields: Seq<Field>, i: int) -> bool {
    &&& v.index as int == i
    &&& 0 <= i < fields.len()
    &&& v.ident@ == fields[i].spec_autocomplete_variant_ident()
    &&& v.payload matches crate::autocomplete::AutocompletePayload::Fields(fs) && is_payload(fs@, fields, i)
}

/// Whether `vs` lists the flagged fields in declaration order, one variant
/// each.
pub open spec fn lists_flagged_fields(vs: Seq<crate::autocomplete::AutocompleteVariant>, fields: Seq<Field>) -> bool {
    &&& vs.len() == flagged_fields(fields, fields.len()).len()
    &&& forall|k: int|
        0 <= k < vs.len() ==> is_field_variant(#[trigger] vs[k], fields, flagged_fields(fields, fields.len())[k])
}

impl Field {
    /// The identifier of the variant that stands for this field in the
    /// autocomplete counterpart of its type.
    pub open spec fn spec_autocomplete_variant_ident(&self) -> Seq<char> {
        crate::utils::spec_to_pascal_case(self.ident->0@)
    }

    /// The identifier of the variant that stands for this field in the
    /// autocomplete counterpart of its type.
    pub fn autocomplete_variant_ident(&self) -> (r: String)
        requires
            self.ident is Some,
        ensures
            r@ == self.spec_autocomplete_variant_ident(),
    {
        crate::utils::to_pascal_case(self.ident())
    }

    /// What the variant for the flagged field at position `focused` holds.
    pub fn autocomplete_payload(selfs: &Vec<Field>, focused: usize) -> (r: Vec<crate::autocomplete::AutocompleteField>)
        requires
            forall|j: int| 0 <= j < selfs@.len() ==> (#[trigger] selfs@[j]).ident is Some,
        ensures
            is_payload(r@, selfs@, focused as int),
    {
        let mut fields: Vec<crate::autocomplete::AutocompleteField> = Vec::new();
        let mut j: usize = 0;
        while j < selfs.len()
            invariant
                j <= selfs@.len(),
                forall|j: int| 0 <= j < selfs@.len() ==> (#[trigger] selfs@[j]).ident is Some,
                fields@.len() == j,
                forall|k: int|
                    0 <= k < j ==> (#[trigger] fields@[k]).ident@ == selfs@[k].ident->0@ && fields@[k].ty
                        == selfs@[k].ty && fields@[k].partial == (k != focused),
            decreases selfs@.len() - j,
        {
            fields.push(
                crate::autocomplete::AutocompleteField {
                    ident: selfs[j].ident().clone(),
                    ty: selfs[j].ty,
                    partial: j != focused,
                },
            );
            j = j + 1;
        }
        fields
    }

    /// The variants of the autocomplete counterpart of a struct with these
    /// fields: one for each flagged field, in declaration order. Each
    /// holds every field of the struct, the flagged field with its own
    /// type and every sibling with a partial option of its type.
    pub fn autocomplete_variants(selfs: &Vec<Field>) -> (r: Vec<crate::autocomplete::AutocompleteVariant>)
        requires
            forall|j: int| 0 <= j < selfs@.len() ==> (#[trigger] selfs@[j]).ident is Some,
        ensures
            lists_flagged_fields(r@, selfs@),
            r@.len() > 0 <==> (exists|j: int| 0 <= j < selfs@.len() && (#[trigger] selfs@[j]).autocomplete),
    {
        let mut variants: Vec<crate::autocomplete::AutocompleteVariant> = Vec::new();
        let mut i: usize = 0;
        while i < selfs.len()
            invariant
                i <= selfs.len(),
                forall|j: int| 0 <= j < selfs@.len() ==> (#[trigger] selfs@[j]).ident is Some,
                variants@.len() == flagged_fields(selfs@, i as nat).len(),
                forall|k: int|
                    0 <= k < variants@.len() ==> is_field_variant(
                        #[trigger] variants@[k],
                        selfs@,
                        flagged_fields(selfs@, i as nat)[k],
                    ),
                variants@.len() > 0 <==> (exists|j: int| 0 <= j < i && (#[trigger] selfs@[j]).autocomplete),
            decreases selfs.len() - i,
        {
            if selfs[i].autocomplete {
                let ident = selfs[i].autocomplete_variant_ident();
                let payload = crate::autocomplete::AutocompletePayload::Fields(Self::autocomplete_payload(selfs, i));
                variants.push(crate::autocomplete::AutocompleteVariant { ident, index: i, payload });
            }
            i = i + 1;
        }
        variants
    }

    /// The position of the first option that is marked as the one being
    /// autocompleted.
    pub fn focused(options: &Vec<DataOption>) -> (r: Option<usize>)
        ensures
            r is Some <==> find_focused(options@, 0) is Some,
            r matches Some(a) ==> find_focused(options@, 0) == Some(a as int) && a < options@.len(),
    {
        let mut k: usize = 0;
        while k < options.len()
            invariant
                k <= options.len(),
                find_focused(options@, 0) == find_focused(options@, k as int),
            decreases options.len() - k,
        {
            match &options[k].value {
                OptionValue::Autocomplete { .. } => {
                    return Some(k);
                },
                _ => {},
            }
            k = k + 1;
        }
        None
    }

    /// The position of the first flagged field with the given name.
    pub fn find_flagged(selfs: &Vec<Field>, name: &String) -> (r: Option<usize>)
        requires
            forall|j: int| 0 <= j < selfs@.len() ==> (#[trigger] selfs@[j]).ident is Some,
        ensures
            r is Some <==> find_flagged_field(selfs@, name@, 0) is Some,
            r matches Some(j) ==> find_flagged_field(selfs@, name@, 0) == Some(j as int) && j < selfs@.len(),
    {
        let mut k: usize = 0;
        while k < selfs.len()
            invariant
                k <= selfs.len(),
                forall|j: int| 0 <= j < selfs@.len() ==> (#[trigger] selfs@[j]).ident is Some,
                find_flagged_field(selfs@, name@, 0) == find_flagged_field(selfs@, name@, k as int),
            decreases selfs.len() - k,
        {
            if selfs[k].autocomplete && selfs[k].name() == *name {
                return Some(k);
            }
            k = k + 1;
        }
        None
    }

    fn autocomplete_init(
        selfs: &Vec<Field>,
        reg: &Registry,
        bound: usize,
        options: &Vec<DataOption>,
        slots: &Vec<Option<usize>>,
        focused: usize,
        j: usize,
    ) -> (r: Result<crate::autocomplete::PartialLeaf, Error>)
        requires
            reg.wf(),
            bound <= reg.types@.len(),
            all_valid(selfs@, reg, bound as int),
            slots@.len() == selfs@.len(),
            j < selfs@.len(),
            forall|j: int|
                0 <= j < slots@.len() ==> ((#[trigger] slots@[j]) matches Some(i) ==> i < options@.len()),
        ensures
            crate::autocomplete::partial_result_view(r) == spec_autocomplete_init(
                reg,
                bound as int,
                selfs@,
                options@,
                slots@,
                focused as int,
                j as int,
            ),
    {
        let slot = Self::slot(options, slots[j]);
        proof {
            assert(selfs@[j as int].valid(reg, bound as int));
        }
        if selfs[j].autocomplete {
            match slot {
                Some(OptionValue::Autocomplete { value, .. }) => {
                    let val = OptionValue::String(value.clone());
                    if j == focused {
                        match crate::option::from_value(reg, bound, &selfs[j].ty, Some(&val)) {
                            Ok(v) => Ok(crate::partial::PartialOption::Value(v)),
                            Err(e) => Err(e),
                        }
                    } else {
                        crate::option::partial_from_value(reg, bound, &selfs[j].ty, Some(&val))
                    }
                },
                _ => {
                    if j == focused {
                        match crate::option::from_value(reg, bound, &selfs[j].ty, slot) {
                            Ok(v) => Ok(crate::partial::PartialOption::Value(v)),
                            Err(e) => Err(e),
                        }
                    } else {
                        crate::option::partial_from_value(reg, bound, &selfs[j].ty, slot)
                    }
                },
            }
        } else {
            let ty = selfs[j].path_base();
            crate::option::partial_from_value(reg, bound, &ty, slot)
        }
    }

    /// Extracts the autocomplete value of a struct with these fields from
    /// a list of options.
    pub fn from_autocomplete_options(
        selfs: &Vec<Field>,
        reg: &Registry,
        bound: usize,
        options: &Vec<DataOption>,
    ) -> (r: Result<crate::autocomplete::AutocompleteValue, Error>)
        requires
            reg.wf(),
            bound <= reg.types@.len(),
            all_valid(selfs@, reg, bound as int),
        ensures
            crate::autocomplete::autocomplete_result_view(r) == spec_from_autocomplete_options(
                reg,
                bound as int,
                selfs@,
                options@,
            ),
    {
        let slots = match Self::fold(selfs, options) {
            Err(e) => {
                return Err(e);
            },
            Ok(slots) => slots,
        };
        let a = match Self::focused(options) {
            None => {
                return Err(Error::MissingAutocompleteOption);
            },
            Some(a) => a,
        };
        let i = match Self::find_flagged(selfs, &options[a].name) {
            None => {
                return Err(Error::UnknownAutocompleteOption(options[a].name.clone()));
            },
            Some(i) => i,
        };
        let mut values: Vec<crate::autocomplete::PartialLeaf> = Vec::new();
        let mut j: usize = 0;
        proof {
            assert(crate::autocomplete::partials_view(values@) =~= Seq::<
                crate::autocomplete::PartialView,
            >::empty());
        }
        while j < selfs.len()
            invariant
                j <= selfs.len(),
                reg.wf(),
                bound <= reg.types@.len(),
                all_valid(selfs@, reg, bound as int),
                slots@.len() == selfs@.len(),
                forall|j: int|
                    0 <= j < slots@.len() ==> ((#[trigger] slots@[j]) matches Some(i) ==> i < options@.len()),
                spec_fold(selfs@, options@, options@.len()) == Ok::<Seq<Option<usize>>, ErrorView>(slots@),
                find_focused(options@, 0) == Some(a as int),
                a < options@.len(),
                find_flagged_field(selfs@, options@[a as int].name@, 0) == Some(i as int),
                spec_autocomplete_inits(reg, bound as int, selfs@, options@, slots@, i as int, j as nat) == Ok::<
                    Seq<crate::autocomplete::PartialView>,
                    ErrorView,
                >(crate::autocomplete::partials_view(values@)),
            decreases selfs.len() - j,
        {
            match Self::autocomplete_init(selfs, reg, bound, options, &slots, i, j) {
                Err(e) => {
                    proof {
                        assert(spec_autocomplete_inits(
                            reg,
                            bound as int,
                            selfs@,
                            options@,
                            slots@,
                            i as int,
                            (j + 1) as nat,
                        ) == Err::<Seq<crate::autocomplete::PartialView>, ErrorView>(e@));
                        lemma_autocomplete_inits_error_stays(
                            reg,
                            bound as int,
                            selfs@,
                            options@,
                            slots@,
                            i as int,
                            (j + 1) as nat,
                            selfs@.len(),
                        );
                    }
                    return Err(e);
                },
                Ok(v) => {
                    let ghost before = crate::autocomplete::partials_view(values@);
                    values.push(v);
                    proof {
                        assert(crate::autocomplete::partials_view(values@) =~= before.push(
                            crate::autocomplete::partial_view(v),
                        ));
                    }
                },
            }
            j = j + 1;
        }
        Ok(crate::autocomplete::AutocompleteValue::Focused { field: i, fields: values })
    }
}


/// The schemas of a list of named fields, in declaration order.
pub open spec fn spec_create_options(fields: Seq<Field>, reg: &Registry, bound: int) -> Seq<
    crate::schema::OptionView,
> {
    Seq::new(fields.len(), |j: int| fields[j].spec_create_option(reg, bound))
}

impl Field {
    /// The description of the field: its documentation.
    pub open spec fn spec_description(&self) -> Seq<char> {
        crate::utils::spec_documentation_string(self.attrs@)->0
    }

    /// The schema of the option that the field stands for: that of the
    /// type that builds it, under the field's name and description, marked
    /// for autocomplete where the field is flagged, and followed by the
    /// field's extra builder calls.
    pub open spec fn spec_create_option(&self, reg: &Registry, bound: int) -> crate::schema::OptionView {
        let o = crate::option::spec_create_option(
            reg,
            bound,
            self.spec_path_base(),
            self.spec_name(),
            self.spec_description(),
        );
        crate::schema::OptionView {
            autocomplete: if self.autocomplete {
                true
            } else {
                o.autocomplete
            },
            calls: o.calls + crate::schema::builder_view(self.builder),
            ..o
        }
    }

    /// Creates the schema of the option that the field stands for.
    pub fn create_option(&self, reg: &Registry, bound: usize) -> (r: crate::schema::CreateOption)
        requires
            reg.wf(),
            bound <= reg.types@.len(),
            self.valid(reg, bound as int),
        ensures
            r@ == self.spec_create_option(reg, bound as int),
    {
        let name = self.name();
        let description = match crate::utils::documentation_string(&self.attrs) {
            Some(d) => d,
            None => String::new(),
        };
        let ty = self.path_base();
        let mut o = crate::option::create_option(reg, bound, &ty, name, description);
        if self.autocomplete {
            o.autocomplete = true;
        }
        crate::schema::append_builder(&mut o.calls, &self.builder);
        o
    }

    /// Creates the schemas of a list of named fields.
    pub fn create_options(selfs: &Vec<Field>, reg: &Registry, bound: usize) -> (r: Vec<crate::schema::CreateOption>)
        requires
            reg.wf(),
            bound <= reg.types@.len(),
            all_valid(selfs@, reg, bound as int),
        ensures
            crate::schema::options_view(r@) == spec_create_options(selfs@, reg, bound as int),
    {
        let mut options: Vec<crate::schema::CreateOption> = Vec::new();
        let mut j: usize = 0;
        while j < selfs.len()
            invariant
                j <= selfs.len(),
                reg.wf(),
                bound <= reg.types@.len(),
                all_valid(selfs@, reg, bound as int),
                options@.len() == j,
                forall|k: int| 0 <= k < j ==> (#[trigger] options@[k])@ == selfs@[k].spec_create_option(reg, bound as int),
            decreases selfs.len() - j,
        {
            proof {
                assert(selfs@[j as int].valid(reg, bound as int));
            }
            options.push(selfs[j].create_option(reg, bound));
            j = j + 1;
        }
        proof {
            assert(crate::schema::options_view(options@) =~= spec_create_options(selfs@, reg, bound as int));
        }
        options
    }
}

} // verus!
