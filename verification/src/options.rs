//! The options of a conversion: the values an option can take, and how the
//! caller's flags become the mapping that is handed to the script.

use vstd::prelude::*;
use vstd::string::*;
use crate::mapping::{distinct_keys, StringMap};

verus! {

/// The value of one option.
#[derive(Clone, Debug, PartialEq)]
pub enum OptionValue {
    /// A boolean, set on the options object as such.
    Bool(bool),
    /// A string, set on the options object as such.
    Text(String),
    /// A table from strings to strings, set as a nested object with one
    /// string property for each entry.
    Table(StringMap<String>),
    /// Any other JSON value. It reaches the options object as JSON text
    /// that the interpreter parses.
    Other(serde_json::Value),
}

/// The value of one option, as a mathematical value.
pub enum OptionValueView {
    Bool(bool),
    Text(Seq<char>),
    Table(Seq<(Seq<char>, Seq<char>)>),
    Other(serde_json::Value),
}

impl View for OptionValue {
    type V = OptionValueView;

    open spec fn view(&self) -> OptionValueView {
        match self {
            OptionValue::Bool(b) => OptionValueView::Bool(*b),
            OptionValue::Text(s) => OptionValueView::Text(s@),
            OptionValue::Table(t) => OptionValueView::Table(t@),
            OptionValue::Other(v) => OptionValueView::Other(*v),
        }
    }
}

/// The options of one call or one batch, by name.
pub type OptionsMapping = StringMap<OptionValue>;

/// A table of macro definitions, by macro name.
pub type MacroTable = StringMap<String>;

/// The entries of an options mapping, as mathematical values.
pub type OptionEntries = Seq<(Seq<char>, OptionValueView)>;

/// What an optional flag contributes under `key`: one boolean entry where
/// the flag was given, nothing where it was not.
pub open spec fn flag_entry(key: Seq<char>, flag: Option<bool>) -> OptionEntries {
    match flag {
        Some(b) => seq![(key, OptionValueView::Bool(b))],
        None => Seq::empty(),
    }
}

/// What an optional table contributes under `key`: one table entry where
/// the table was given, even an empty one, nothing where it was not.
pub open spec fn table_entry(
    key: Seq<char>,
    table: Option<Seq<(Seq<char>, Seq<char>)>>,
) -> OptionEntries {
    match table {
        Some(t) => seq![(key, OptionValueView::Table(t))],
        None => Seq::empty(),
    }
}

/// The entries that the flags of a TeX-to-Typst conversion contribute, each
/// under its own key, in this order.
pub open spec fn tex_entries(
    non_strict: Option<bool>,
    prefer_shorthands: Option<bool>,
    keep_spaces: Option<bool>,
    frac_to_slash: Option<bool>,
    infty_to_oo: Option<bool>,
    optimize: Option<bool>,
    custom_tex_macros: Option<Seq<(Seq<char>, Seq<char>)>>,
) -> OptionEntries {
    flag_entry("nonStrict"@, non_strict)
        + flag_entry("preferShorthands"@, prefer_shorthands)
        + flag_entry("keepSpaces"@, keep_spaces)
        + flag_entry("fracToSlash"@, frac_to_slash)
        + flag_entry("inftyToOo"@, infty_to_oo)
        + flag_entry("optimize"@, optimize)
        + table_entry("customTexMacros"@, custom_tex_macros)
}

/// The entries that the flag of a Typst-to-TeX conversion contributes.
pub open spec fn typst_entries(block_math_mode: Option<bool>) -> OptionEntries {
    flag_entry("blockMathMode"@, block_math_mode)
}

/// The options that stand for `entries`: none at all where there is no
/// entry, so that the script is called with the input alone rather than
/// with an empty object.
pub open spec fn options_for(entries: OptionEntries) -> Option<OptionEntries> {
    if entries.len() == 0 {
        None
    } else {
        Some(entries)
    }
}

/// The entries of an optional mapping.
pub open spec fn entries_of(options: Option<OptionsMapping>) -> Option<OptionEntries> {
    match options {
        Some(m) => Some(m@),
        None => None,
    }
}

/// The entries of an optional table.
pub open spec fn table_of(table: Option<MacroTable>) -> Option<Seq<(Seq<char>, Seq<char>)>> {
    match table {
        Some(t) => Some(t@),
        None => None,
    }
}

/// How many entries an optional value contributes.
pub open spec fn given<T>(value: Option<T>) -> nat {
    if value is Some {
        1
    } else {
        0
    }
}

/// The options of a TeX-to-Typst conversion hold one entry for each flag
/// that is given, under keys that differ from one another, and there are no
/// options at all exactly when no flag is given.
pub proof fn law_tex_options_follow_flags(
    non_strict: Option<bool>,
    prefer_shorthands: Option<bool>,
    keep_spaces: Option<bool>,
    frac_to_slash: Option<bool>,
    infty_to_oo: Option<bool>,
    optimize: Option<bool>,
    custom_tex_macros: Option<Seq<(Seq<char>, Seq<char>)>>,
)
    ensures
        ({
            let entries = tex_entries(
                non_strict,
                prefer_shorthands,
                keep_spaces,
                frac_to_slash,
                infty_to_oo,
                optimize,
                custom_tex_macros,
            );
            let count = given(non_strict) + given(prefer_shorthands) + given(keep_spaces) + given(
                frac_to_slash,
            ) + given(infty_to_oo) + given(optimize) + given(custom_tex_macros);
            &&& entries.len() == count
            &&& distinct_keys(entries)
            &&& options_for(entries) is None <==> count == 0
        }),
{
    lemma_tex_keys();
    let k0: Set<Seq<char>> = Set::empty();
    let e0: OptionEntries = Seq::empty();
    let a1 = flag_entry("nonStrict"@, non_strict);
    lemma_one_more_key(e0, a1, "nonStrict"@, k0);
    let (e1, k1) = (e0 + a1, k0.insert("nonStrict"@));
    let a2 = flag_entry("preferShorthands"@, prefer_shorthands);
    lemma_one_more_key(e1, a2, "preferShorthands"@, k1);
    let (e2, k2) = (e1 + a2, k1.insert("preferShorthands"@));
    let a3 = flag_entry("keepSpaces"@, keep_spaces);
    lemma_one_more_key(e2, a3, "keepSpaces"@, k2);
    let (e3, k3) = (e2 + a3, k2.insert("keepSpaces"@));
    let a4 = flag_entry("fracToSlash"@, frac_to_slash);
    lemma_one_more_key(e3, a4, "fracToSlash"@, k3);
    let (e4, k4) = (e3 + a4, k3.insert("fracToSlash"@));
    let a5 = flag_entry("inftyToOo"@, infty_to_oo);
    lemma_one_more_key(e4, a5, "inftyToOo"@, k4);
    let (e5, k5) = (e4 + a5, k4.insert("inftyToOo"@));
    let a6 = flag_entry("optimize"@, optimize);
    lemma_one_more_key(e5, a6, "optimize"@, k5);
    let (e6, k6) = (e5 + a6, k5.insert("optimize"@));
    let a7 = table_entry("customTexMacros"@, custom_tex_macros);
    lemma_one_more_key(e6, a7, "customTexMacros"@, k6);
}

/// The options of a Typst-to-TeX conversion hold one entry where the flag
/// is given, and there are no options at all where it is not.
pub proof fn law_typst_options_follow_flag(block_math_mode: Option<bool>)
    ensures
        typst_entries(block_math_mode).len() == given(block_math_mode),
        distinct_keys(typst_entries(block_math_mode)),
        options_for(typst_entries(block_math_mode)) is None <==> block_math_mode is None,
{
}

/// Whether every key of `entries` is in `keys`.
spec fn keys_in(entries: OptionEntries, keys: Set<Seq<char>>) -> bool {
    forall|i: int| 0 <= i < entries.len() ==> keys.contains((#[trigger] entries[i]).0)
}

/// Entries with distinct keys stay so when at most one entry is added
/// under a key that is new to them.
proof fn lemma_one_more_key(
    entries: OptionEntries,
    addition: OptionEntries,
    key: Seq<char>,
    keys: Set<Seq<char>>,
)
    requires
        distinct_keys(entries),
        keys_in(entries, keys),
        !keys.contains(key),
        addition.len() <= 1,
        forall|i: int| 0 <= i < addition.len() ==> (#[trigger] addition[i]).0 == key,
    ensures
        distinct_keys(entries + addition),
        keys_in(entries + addition, keys.insert(key)),
        (entries + addition).len() == entries.len() + addition.len(),
{
}

/// What an optional value contributes under `key`.
spec fn value_entry(key: Seq<char>, value: Option<OptionValue>) -> OptionEntries {
    match value {
        Some(v) => seq![(key, v@)],
        None => Seq::empty(),
    }
}

/// Adds `value` under `key`, a key that is not in use yet, where it is given.
fn put(
    mapping: &mut OptionsMapping,
    key: &str,
    value: Option<OptionValue>,
    Ghost(keys): Ghost<Set<Seq<char>>>,
)
    requires
        keys_in(old(mapping)@, keys),
        !keys.contains(key@),
    ensures
        final(mapping)@ == old(mapping)@ + value_entry(key@, value),
        keys_in(final(mapping)@, keys.insert(key@)),
{
    match value {
        Some(v) => {
            mapping.insert(String::from_str(key), v);
        },
        None => {},
    }
}

/// The option value of a flag that was given.
fn flag_value(flag: Option<bool>) -> (r: Option<OptionValue>)
    ensures
        forall|key: Seq<char>| #[trigger] value_entry(key, r) == flag_entry(key, flag),
{
    match flag {
        Some(b) => Some(OptionValue::Bool(b)),
        None => None,
    }
}

/// The option value of a table that was given.
fn table_value(table: Option<MacroTable>) -> (r: Option<OptionValue>)
    ensures
        forall|key: Seq<char>| #[trigger] value_entry(key, r) == table_entry(key, table_of(table)),
{
    match table {
        Some(t) => Some(OptionValue::Table(t)),
        None => None,
    }
}

/// The keys of a TeX-to-Typst conversion differ in length, but for two that
/// differ in their first character.
proof fn lemma_tex_keys()
    ensures
        "nonStrict"@.len() == 9,
        "preferShorthands"@.len() == 16,
        "keepSpaces"@.len() == 10,
        "fracToSlash"@.len() == 11,
        "inftyToOo"@.len() == 9,
        "optimize"@.len() == 8,
        "customTexMacros"@.len() == 15,
        "nonStrict"@[0] == 'n',
        "inftyToOo"@[0] == 'i',
{
    reveal_strlit("nonStrict");
    reveal_strlit("preferShorthands");
    reveal_strlit("keepSpaces");
    reveal_strlit("fracToSlash");
    reveal_strlit("inftyToOo");
    reveal_strlit("optimize");
    reveal_strlit("customTexMacros");
}

/// Assembles the options of a TeX-to-Typst conversion from the flags that
/// were given. A flag that was not given leaves no entry; where none was
/// given there are no options at all.
pub fn tex_options(
    non_strict: Option<bool>,
    prefer_shorthands: Option<bool>,
    keep_spaces: Option<bool>,
    frac_to_slash: Option<bool>,
    infty_to_oo: Option<bool>,
    optimize: Option<bool>,
    custom_tex_macros: Option<MacroTable>,
) -> (r: Option<OptionsMapping>)
    ensures
        entries_of(r) == options_for(
            tex_entries(
                non_strict,
                prefer_shorthands,
                keep_spaces,
                frac_to_slash,
                infty_to_oo,
                optimize,
                table_of(custom_tex_macros),
            ),
        ),
{
    proof {
        lemma_tex_keys();
    }
    let mut mapping: OptionsMapping = StringMap::new();
    let ghost k0: Set<Seq<char>> = Set::empty();
    put(&mut mapping, "nonStrict", flag_value(non_strict), Ghost(k0));
    let ghost k1 = k0.insert("nonStrict"@);
    put(&mut mapping, "preferShorthands", flag_value(prefer_shorthands), Ghost(k1));
    let ghost k2 = k1.insert("preferShorthands"@);
    put(&mut mapping, "keepSpaces", flag_value(keep_spaces), Ghost(k2));
    let ghost k3 = k2.insert("keepSpaces"@);
    put(&mut mapping, "fracToSlash", flag_value(frac_to_slash), Ghost(k3));
    let ghost k4 = k3.insert("fracToSlash"@);
    put(&mut mapping, "inftyToOo", flag_value(infty_to_oo), Ghost(k4));
    let ghost k5 = k4.insert("inftyToOo"@);
    put(&mut mapping, "optimize", flag_value(optimize), Ghost(k5));
    let ghost k6 = k5.insert("optimize"@);
    let ghost table = table_of(custom_tex_macros);
    put(&mut mapping, "customTexMacros", table_value(custom_tex_macros), Ghost(k6));
    assert(mapping@ =~= tex_entries(
        non_strict,
        prefer_shorthands,
        keep_spaces,
        frac_to_slash,
        infty_to_oo,
        optimize,
        table,
    ));
    if mapping.is_empty() {
        None
    } else {
        Some(mapping)
    }
}

/// Assembles the options of a Typst-to-TeX conversion: one entry where the
/// flag was given, no options at all where it was not.
pub fn typst_options(block_math_mode: Option<bool>) -> (r: Option<OptionsMapping>)
    ensures
        entries_of(r) == options_for(typst_entries(block_math_mode)),
{
    let mut mapping: OptionsMapping = StringMap::new();
    put(&mut mapping, "blockMathMode", flag_value(block_math_mode), Ghost(Set::empty()));
    if mapping.is_empty() {
        None
    } else {
        Some(mapping)
    }
}

} // verus!
