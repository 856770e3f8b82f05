//! The operations offered to the host: the two conversions, each for one
//! input and for a batch. Each takes its options as separate flags, makes
//! sure the thread's session exists, and runs the conversion in it.

use vstd::prelude::*;
use crate::error::BridgeError;
use crate::options::{
    options_for,
    table_of,
    tex_entries,
    tex_options,
    typst_entries,
    typst_options,
    MacroTable,
    OptionEntries,
};
use crate::outcome::{batch_conversion_of, conversion_of, texts_of};
use crate::registry::{get_thread_converter, SessionSlot};
use crate::session::{batch_post, init_failure, single_post};

verus! {

/// What holds after a single conversion by `name` with `options` on the
/// slot that was `before` and is `after`.
///
/// The script library stays the same and a session that was there stays.
/// Where no session could be set up, the slot is still empty and the
/// failure says why; otherwise the slot holds a session and the conversion
/// ran in it.
pub open spec fn served(
    before: SessionSlot,
    after: SessionSlot,
    name: Seq<char>,
    options: Option<OptionEntries>,
    result: Result<String, BridgeError>,
) -> bool {
    &&& after.bundle() == before.bundle()
    &&& before.is_ready() ==> after.is_ready()
    &&& after.is_ready() ==> single_post(name, options, conversion_of(result))
    &&& !after.is_ready() ==> (result matches Err(e) && init_failure(e@))
}

/// What holds after a batch by `name` over `inputs` with `options` on the
/// slot that was `before` and is `after`.
pub open spec fn served_batch(
    before: SessionSlot,
    after: SessionSlot,
    name: Seq<char>,
    inputs: Seq<Seq<char>>,
    options: Option<OptionEntries>,
    result: Result<Vec<String>, BridgeError>,
) -> bool {
    &&& after.bundle() == before.bundle()
    &&& before.is_ready() ==> after.is_ready()
    &&& after.is_ready() ==> batch_post(name, inputs, options, batch_conversion_of(result))
    &&& !after.is_ready() ==> (result matches Err(e) && init_failure(e@))
}

/// Converts TeX math to Typst.
///
/// Each flag that is given becomes one option under its own key; where
/// none is given the script is called with `tex` alone.
pub fn tex2typst(
    slot: &mut SessionSlot,
    tex: &str,
    non_strict: Option<bool>,
    prefer_shorthands: Option<bool>,
    keep_spaces: Option<bool>,
    frac_to_slash: Option<bool>,
    infty_to_oo: Option<bool>,
    optimize: Option<bool>,
    custom_tex_macros: Option<MacroTable>,
) -> (r: Result<String, BridgeError>)
    ensures
        served(
            *old(slot),
            *final(slot),
            "tex2typst"@,
            options_for(
                tex_entries(
                    non_strict,
                    prefer_shorthands,
                    keep_spaces,
                    frac_to_slash,
                    infty_to_oo,
                    optimize,
                    table_of(custom_tex_macros),
                ),
            ),
            r,
        ),
{
    match get_thread_converter(slot) {
        Ok(()) => {},
        Err(e) => {
            return Err(e);
        },
    }
    let options = tex_options(
        non_strict,
        prefer_shorthands,
        keep_spaces,
        frac_to_slash,
        infty_to_oo,
        optimize,
        custom_tex_macros,
    );
    slot.session_mut().tex2typst(tex, options.as_ref())
}

/// Converts Typst math to TeX.
pub fn typst2tex(
    slot: &mut SessionSlot,
    typst: &str,
    block_math_mode: Option<bool>,
) -> (r: Result<String, BridgeError>)
    ensures
        served(
            *old(slot),
            *final(slot),
            "typst2tex"@,
            options_for(typst_entries(block_math_mode)),
            r,
        ),
{
    match get_thread_converter(slot) {
        Ok(()) => {},
        Err(e) => {
            return Err(e);
        },
    }
    let options = typst_options(block_math_mode);
    slot.session_mut().typst2tex(typst, options.as_ref())
}

/// Converts each TeX string of `tex_list` to Typst, in order, with one set
/// of options for all of them.
pub fn tex2typst_batch(
    slot: &mut SessionSlot,
    tex_list: &[String],
    non_strict: Option<bool>,
    prefer_shorthands: Option<bool>,
    keep_spaces: Option<bool>,
    frac_to_slash: Option<bool>,
    infty_to_oo: Option<bool>,
    optimize: Option<bool>,
    custom_tex_macros: Option<MacroTable>,
) -> (r: Result<Vec<String>, BridgeError>)
    ensures
        served_batch(
            *old(slot),
            *final(slot),
            "tex2typst"@,
            texts_of(tex_list@),
            options_for(
                tex_entries(
                    non_strict,
                    prefer_shorthands,
                    keep_spaces,
                    frac_to_slash,
                    infty_to_oo,
                    optimize,
                    table_of(custom_tex_macros),
                ),
            ),
            r,
        ),
{
    match get_thread_converter(slot) {
        Ok(()) => {},
        Err(e) => {
            return Err(e);
        },
    }
    let options = tex_options(
        non_strict,
        prefer_shorthands,
        keep_spaces,
        frac_to_slash,
        infty_to_oo,
        optimize,
        custom_tex_macros,
    );
    slot.session_mut().tex2typst_batch(tex_list, options.as_ref())
}

/// Converts each Typst string of `typst_list` to TeX, in order, with one
/// set of options for all of them.
pub fn typst2tex_batch(
    slot: &mut SessionSlot,
    typst_list: &[String],
    block_math_mode: Option<bool>,
) -> (r: Result<Vec<String>, BridgeError>)
    ensures
        served_batch(
            *old(slot),
            *final(slot),
            "typst2tex"@,
            texts_of(typst_list@),
            options_for(typst_entries(block_math_mode)),
            r,
        ),
{
    match get_thread_converter(slot) {
        Ok(()) => {},
        Err(e) => {
            return Err(e);
        },
    }
    let options = typst_options(block_math_mode);
    slot.session_mut().typst2tex_batch(typst_list, options.as_ref())
}

} // verus!
