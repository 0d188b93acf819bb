//! Names and descriptions derived from a declaration's identifier and
//! documentation.
use vstd::prelude::*;
use vstd::string::*;

verus! {

/// The kebab-case form of a text, as the `heck` crate computes it.
pub uninterp spec fn kebab_case_of(s: Seq<char>) -> Seq<char>;

/// The title-case form of a text, as the `heck` crate computes it.
pub uninterp spec fn title_case_of(s: Seq<char>) -> Seq<char>;

/// The Pascal-case form of a text, as the `heck` crate computes it.
pub uninterp spec fn pascal_case_of(s: Seq<char>) -> Seq<char>;

/// Calls `heck::ToKebabCase::to_kebab_case` on a string slice. Taken on
/// trust: the call returns, and its result depends on the characters of the
/// input alone. What kebab case is, word boundaries and lower-casing, is
/// left to the crate.
#[verifier::external_body]
fn heck_kebab_case(s: &str) -> (r: String)
    ensures
        r@ == kebab_case_of(s@),
{
    heck::ToKebabCase::to_kebab_case(s)
}

/// Calls `heck::ToTitleCase::to_title_case` on a string slice. Taken on
/// trust: the call returns, and its result depends on the characters of the
/// input alone. What title case is, word boundaries and capitals, is left
/// to the crate.
#[verifier::external_body]
fn heck_title_case(s: &str) -> (r: String)
    ensures
        r@ == title_case_of(s@),
{
    heck::ToTitleCase::to_title_case(s)
}

/// Calls `heck::ToPascalCase::to_pascal_case` on a string slice, which is
/// the crate's upper camel case. Taken on trust: the call returns, and its
/// result depends on the characters of the input alone. What Pascal case
/// is, word boundaries and capitals, is left to the crate.
#[verifier::external_body]
fn heck_pascal_case(s: &str) -> (r: String)
    ensures
        r@ == pascal_case_of(s@),
{
    heck::ToPascalCase::to_pascal_case(s)
}

/// An identifier without the `r#` that marks a raw identifier.
pub open spec fn spec_strip_raw(s: Seq<char>) -> Seq<char> {
    if s.len() >= 2 && s[0] == 'r' && s[1] == '#' {
        s.subrange(2, s.len() as int)
    } else {
        s
    }
}

/// Removes a leading `r#` from an identifier, if there is one.
pub fn strip_raw(ident: &str) -> (r: &str)
    ensures
        r@ == spec_strip_raw(ident@),
{
    let n: usize = ident.unicode_len();
    if n >= 2 && ident.get_char(0) == 'r' && ident.get_char(1) == '#' {
        ident.substring_char(2, n)
    } else {
        ident
    }
}

/// The kebab-case name of an identifier.
pub open spec fn spec_to_kebab_case(ident: Seq<char>) -> Seq<char> {
    kebab_case_of(spec_strip_raw(ident))
}

/// The title-case name of an identifier.
pub open spec fn spec_to_title_case(ident: Seq<char>) -> Seq<char> {
    title_case_of(spec_strip_raw(ident))
}

/// The Pascal-case name of an identifier.
pub open spec fn spec_to_pascal_case(ident: Seq<char>) -> Seq<char> {
    pascal_case_of(spec_strip_raw(ident))
}

/// The identifier of the autocomplete counterpart of a declared type.
pub open spec fn spec_autocomplete(ident: Seq<char>) -> Seq<char> {
    ident + "Autocomplete"@
}

/// The externally visible name: the override if there is one, else the
/// kebab-case form of the identifier.
pub open spec fn spec_kebab_name(ident: Seq<char>, name: Option<String>) -> Seq<char> {
    match name {
        Some(n) => n@,
        None => spec_to_kebab_case(ident),
    }
}

/// The display name: the override if there is one, else the title-case form
/// of the identifier.
pub open spec fn spec_title_name(ident: Seq<char>, name: Option<String>) -> Seq<char> {
    match name {
        Some(n) => n@,
        None => spec_to_title_case(ident),
    }
}

/// Kebab-case form of an identifier, raw marker removed.
pub fn to_kebab_case(ident: &String) -> (r: String)
    ensures
        r@ == spec_to_kebab_case(ident@),
{
    heck_kebab_case(strip_raw(ident.as_str()))
}

/// Title-case form of an identifier, raw marker removed.
pub fn to_title_case(ident: &String) -> (r: String)
    ensures
        r@ == spec_to_title_case(ident@),
{
    heck_title_case(strip_raw(ident.as_str()))
}

/// Pascal-case form of an identifier, raw marker removed.
pub fn to_pascal_case(ident: &String) -> (r: String)
    ensures
        r@ == spec_to_pascal_case(ident@),
{
    heck_pascal_case(strip_raw(ident.as_str()))
}

/// Identifier of the autocomplete counterpart of the type named `ident`.
pub fn autocomplete(ident: &String) -> (r: String)
    ensures
        r@ == spec_autocomplete(ident@),
{
    ident.clone().concat("Autocomplete")
}

/// The externally visible name of a field or variant.
pub fn kebab_name(ident: &String, name: &Option<String>) -> (r: String)
    ensures
        r@ == spec_kebab_name(ident@, *name),
{
    match name {
        Some(n) => n.clone(),
        None => to_kebab_case(ident),
    }
}

/// The display name of a variant.
pub fn title_name(ident: &String, name: &Option<String>) -> (r: String)
    ensures
        r@ == spec_title_name(ident@, *name),
{
    match name {
        Some(n) => n.clone(),
        None => to_title_case(ident),
    }
}

/// The names that are derived from an identifier.
pub trait IdentExt {
    /// The characters of the identifier.
    spec fn text(&self) -> Seq<char>;

    /// Kebab-case form of the identifier, raw marker removed.
    fn to_kebab_case(&self) -> (r: String)
        ensures
            r@ == spec_to_kebab_case(self.text()),
    ;

    /// Title-case form of the identifier, raw marker removed.
    fn to_title_case(&self) -> (r: String)
        ensures
            r@ == spec_to_title_case(self.text()),
    ;

    /// Identifier of the autocomplete counterpart of the type that the
    /// identifier names.
    fn autocomplete(&self) -> (r: String)
        ensures
            r@ == spec_autocomplete(self.text()),
    ;
}

impl IdentExt for String {
    open spec fn text(&self) -> Seq<char> {
        self@
    }

    fn to_kebab_case(&self) -> (r: String) {
        self::to_kebab_case(self)
    }

    fn to_title_case(&self) -> (r: String) {
        self::to_title_case(self)
    }

    fn autocomplete(&self) -> (r: String) {
        self::autocomplete(self)
    }
}

/// Whether a character is blank space that is trimmed from documentation.
pub open spec fn is_space(c: char) -> bool {
    c == ' ' || c == '\t' || c == '\n' || c == '\r'
}

/// A text without its leading blank space.
pub open spec fn trim_start(s: Seq<char>) -> Seq<char>
    decreases s.len(),
{
    if s.len() > 0 && is_space(s[0]) {
        trim_start(s.drop_first())
    } else {
        s
    }
}

/// A text without its trailing blank space.
pub open spec fn trim_end(s: Seq<char>) -> Seq<char>
    decreases s.len(),
{
    if s.len() > 0 && is_space(s[s.len() - 1]) {
        trim_end(s.drop_last())
    } else {
        s
    }
}

/// A text without leading and trailing blank space.
pub open spec fn spec_trim(s: Seq<char>) -> Seq<char> {
    trim_end(trim_start(s))
}

fn blank(c: char) -> (b: bool)
    ensures
        b == is_space(c),
{
    c == ' ' || c == '\t' || c == '\n' || c == '\r'
}

/// Removes leading and trailing blank space.
pub fn trim(s: &str) -> (r: &str)
    ensures
        r@ == spec_trim(s@),
{
    let n: usize = s.unicode_len();
    let mut i: usize = 0;
    proof {
        assert(s@.subrange(0, n as int) =~= s@);
    }
    while i < n && blank(s.get_char(i))
        invariant
            i <= n,
            n == s@.len(),
            trim_start(s@) == trim_start(s@.subrange(i as int, n as int)),
        decreases n - i,
    {
        proof {
            assert(s@.subrange(i as int, n as int).drop_first() =~= s@.subrange(i as int + 1, n as int));
        }
        i = i + 1;
    }
    assert(trim_start(s@) == s@.subrange(i as int, n as int));
    let mut j: usize = n;
    while j > i && blank(s.get_char(j - 1))
        invariant
            i <= j <= n,
            n == s@.len(),
            spec_trim(s@) == trim_end(s@.subrange(i as int, j as int)),
        decreases j,
    {
        proof {
            assert(s@.subrange(i as int, j as int).drop_last() =~= s@.subrange(i as int, j as int - 1));
        }
        j = j - 1;
    }
    s.substring_char(i, j)
}

/// The first `n` documentation lines, each trimmed, joined by single spaces.
pub open spec fn joined_docs(lines: Seq<String>, n: nat) -> Seq<char>
    decreases n,
{
    if n == 0 {
        Seq::empty()
    } else if n == 1 {
        spec_trim(lines[0]@)
    } else {
        joined_docs(lines, (n - 1) as nat) + seq![' '] + spec_trim(lines[n - 1]@)
    }
}

/// The description that a list of documentation lines gives: the lines
/// trimmed and joined by spaces, or nothing where that text is empty.
pub open spec fn spec_documentation_string(lines: Seq<String>) -> Option<Seq<char>> {
    let text = joined_docs(lines, lines.len());
    if text.len() == 0 {
        None
    } else {
        Some(text)
    }
}

/// Whether documentation lines give a description.
pub open spec fn documented(lines: Seq<String>) -> bool {
    spec_documentation_string(lines) is Some
}

/// The description of a declaration, taken from its documentation lines.
///
/// Returns `None` where there is no documentation to use as description.
pub fn documentation_string(attrs: &Vec<String>) -> (r: Option<String>)
    ensures
        r is Some <==> documented(attrs@),
        r matches Some(text) ==> Some(text@) == spec_documentation_string(attrs@),
{
    let mut text = String::new();
    let mut i: usize = 0;
    while i < attrs.len()
        invariant
            i <= attrs.len(),
            text@ == joined_docs(attrs@, i as nat),
        decreases attrs.len() - i,
    {
        if i > 0 {
            proof {
                reveal_strlit(" ");
                assert(" "@ =~= seq![' ']);
            }
            text.append(" ");
        }
        text.append(trim(attrs[i].as_str()));
        proof {
            assert(text@ =~= joined_docs(attrs@, (i + 1) as nat));
        }
        i = i + 1;
    }
    if text.as_str().unicode_len() == 0 {
        None
    } else {
        Some(text)
    }
}


/// The character of a decimal digit.
pub open spec fn digit_char(d: nat) -> char {
    if d == 0 {
        '0'
    } else if d == 1 {
        '1'
    } else if d == 2 {
        '2'
    } else if d == 3 {
        '3'
    } else if d == 4 {
        '4'
    } else if d == 5 {
        '5'
    } else if d == 6 {
        '6'
    } else if d == 7 {
        '7'
    } else if d == 8 {
        '8'
    } else {
        '9'
    }
}

/// The decimal digits of a natural number, most significant first.
pub open spec fn digits(n: nat) -> Seq<char>
    decreases n,
{
    if n < 10 {
        seq![digit_char(n)]
    } else {
        digits(n / 10) + seq![digit_char(n % 10)]
    }
}

/// The decimal text of an integer, with a minus sign where it is negative.
pub open spec fn spec_decimal(i: int) -> Seq<char> {
    if i < 0 {
        seq!['-'] + digits((-i) as nat)
    } else {
        digits(i as nat)
    }
}

fn digit_str(d: u64) -> (r: &'static str)
    requires
        d < 10,
    ensures
        r@ == seq![digit_char(d as nat)],
{
    proof {
        reveal_strlit("0");
        reveal_strlit("1");
        reveal_strlit("2");
        reveal_strlit("3");
        reveal_strlit("4");
        reveal_strlit("5");
        reveal_strlit("6");
        reveal_strlit("7");
        reveal_strlit("8");
        reveal_strlit("9");
    }
    let r = if d == 0 {
        "0"
    } else if d == 1 {
        "1"
    } else if d == 2 {
        "2"
    } else if d == 3 {
        "3"
    } else if d == 4 {
        "4"
    } else if d == 5 {
        "5"
    } else if d == 6 {
        "6"
    } else if d == 7 {
        "7"
    } else if d == 8 {
        "8"
    } else {
        "9"
    };
    proof {
        assert(r@ =~= seq![digit_char(d as nat)]);
    }
    r
}

fn digits_of(n: u64, prefix: String) -> (r: String)
    ensures
        r@ == prefix@ + digits(n as nat),
    decreases n,
{
    if n < 10 {
        prefix.concat(digit_str(n))
    } else {
        let head = digits_of(n / 10, prefix);
        let r = head.concat(digit_str(n % 10));
        proof {
            assert(r@ =~= prefix@ + digits(n as nat));
        }
        r
    }
}

/// The decimal text of a natural number.
pub fn decimal_unsigned(n: u64) -> (r: String)
    ensures
        r@ == digits(n as nat),
{
    let r = digits_of(n, String::new());
    proof {
        assert(r@ =~= digits(n as nat));
    }
    r
}

/// The decimal text of an integer.
pub fn decimal(i: i64) -> (r: String)
    ensures
        r@ == spec_decimal(i as int),
{
    if i < 0 {
        let m: u64 = if i == i64::MIN {
            9223372036854775808u64
        } else {
            (-i) as u64
        };
        proof {
            reveal_strlit("-");
            assert("-"@ =~= seq!['-']);
        }
        digits_of(m, String::from_str("-"))
    } else {
        let r = digits_of(i as u64, String::new());
        proof {
            assert(r@ =~= digits(i as nat));
        }
        r
    }
}

} // verus!
