//! The interpreter session: one runtime with one context into which the
//! script library has been loaded, and the conversions that run in it.

use vstd::prelude::*;
use crate::engine::{error_text, eval_script, full_context, new_runtime};
use crate::error::{failure, BridgeError, BridgeErrorView, Step};
use crate::fault::CaughtFault;
use crate::options::{OptionEntries, OptionsMapping};
use crate::outcome::{
    batch_conversion_of,
    batch_result,
    conversion_of,
    finish_batch,
    finish_single,
    outcomes_of,
    settled,
    single_result,
    texts_of,
    BatchConversion,
    Conversion,
    OutcomeView,
};
use crate::translate::{
    binding_failure,
    build_options_object,
    invoke,
    lookup_function,
    translation_failure,
};

verus! {

/// Whether `error` is a failure to set the session up: the runtime or the
/// context could not be allocated, or the script library did not load.
pub open spec fn init_failure(error: BridgeErrorView) -> bool {
    exists|step: Step, detail: Seq<char>|
        (step == Step::RuntimeAlloc || step == Step::ContextAlloc || step == Step::BundleLoad)
            && error == #[trigger] failure(step, None, detail)
}

/// What holds of a single conversion by the global function `name` with
/// `options`, whatever the interpreter did.
///
/// The function is looked up first, the options object is built next, where
/// there are options, and the call comes last. The conversion fails at the
/// first of these that fails; otherwise its result is that of the call.
pub open spec fn single_post(
    name: Seq<char>,
    options: Option<OptionEntries>,
    result: Conversion,
) -> bool {
    ||| result == Err::<Seq<char>, BridgeErrorView>(binding_failure(name))
    ||| options matches Some(entries) && result matches Err(e) && translation_failure(entries, e)
    ||| exists|outcome: OutcomeView| result == #[trigger] single_result(outcome)
}

/// What holds of a batch over `inputs` by the global function `name` with
/// `options`, whatever the interpreter did.
///
/// The function is looked up once and the options object is built once.
/// Then the function is called on each input in order, with that one
/// object, up to the first call that fails.
pub open spec fn batch_post(
    name: Seq<char>,
    inputs: Seq<Seq<char>>,
    options: Option<OptionEntries>,
    result: BatchConversion,
) -> bool {
    ||| result == Err::<Seq<Seq<char>>, BridgeErrorView>(binding_failure(name))
    ||| options matches Some(entries) && result matches Err(e) && translation_failure(entries, e)
    ||| exists|outcomes: Seq<OutcomeView>|
        settled(inputs.len(), outcomes) && result == #[trigger] batch_result(inputs, outcomes)
}

/// The entries of a borrowed optional mapping.
pub open spec fn borrowed_entries(options: Option<&OptionsMapping>) -> Option<OptionEntries> {
    match options {
        Some(m) => Some(m@),
        None => None,
    }
}

/// One runtime and the one context on it, with the script library loaded.
pub struct ConverterInstance {
    rt: rquickjs::Runtime,
    ctx: rquickjs::Context,
}

/// `Context::with`: enters the session's context, runs `f` once on it and
/// hands back what `f` returned.
///
/// Entering takes the runtime's lock, and would panic if the lock were
/// held. It is held only while a context of the runtime is entered or
/// created. The session is borrowed exclusively and owns the only handles
/// to its runtime and context, so `f` cannot reach either.
#[verifier::external_body]
fn with_context<R, F: FnOnce(rquickjs::Ctx<'_>) -> R>(
    session: &mut ConverterInstance,
    f: F,
) -> (r: R)
    requires
        forall|ctx: rquickjs::Ctx<'_>| f.requires((ctx,)),
    ensures
        exists|ctx: rquickjs::Ctx<'_>| f.ensures((ctx,), r),
{
    session.ctx.with(f)
}

/// Converts `input` by the global function `name` in an entered context.
fn convert_in<'js>(
    ctx: &rquickjs::Ctx<'js>,
    name: &str,
    input: &str,
    options: Option<&OptionsMapping>,
) -> (r: Result<String, BridgeError>)
    ensures
        single_post(name@, borrowed_entries(options), conversion_of(r)),
{
    let function = match lookup_function(ctx, name) {
        Ok(function) => function,
        Err(e) => {
            return Err(e);
        },
    };
    let outcome = match options {
        Some(mapping) => {
            let object = match build_options_object(ctx, mapping) {
                Ok(object) => object,
                Err(e) => {
                    return Err(e);
                },
            };
            invoke(ctx, &function, input, Some(&object))
        },
        None => invoke(ctx, &function, input, None),
    };
    let r = finish_single(outcome);
    r
}

/// Calls `function` on each of `inputs` in order, up to the first call
/// that fails.
fn gather<'js>(
    ctx: &rquickjs::Ctx<'js>,
    function: &rquickjs::Function<'js>,
    inputs: &[String],
    options: Option<&rquickjs::Object<'js>>,
) -> (r: Vec<Result<String, CaughtFault>>)
    ensures
        settled(inputs@.len(), outcomes_of(r@)),
{
    let count = inputs.len();
    let mut outcomes: Vec<Result<String, CaughtFault>> = Vec::with_capacity(count);
    let mut i: usize = 0;
    while i < count
        invariant
            i <= count,
            count == inputs@.len(),
            outcomes@.len() == i,
            forall|j: int| 0 <= j < i ==> (#[trigger] outcomes@[j]) is Ok,
        decreases count - i,
    {
        let outcome = invoke(ctx, function, inputs[i].as_str(), options);
        let failed = outcome.is_err();
        outcomes.push(outcome);
        if failed {
            return outcomes;
        }
        i = i + 1;
    }
    outcomes
}

/// Converts `inputs` by the global function `name` in an entered context.
fn convert_batch_in<'js>(
    ctx: &rquickjs::Ctx<'js>,
    name: &str,
    inputs: &[String],
    options: Option<&OptionsMapping>,
) -> (r: Result<Vec<String>, BridgeError>)
    ensures
        batch_post(name@, texts_of(inputs@), borrowed_entries(options), batch_conversion_of(r)),
{
    let function = match lookup_function(ctx, name) {
        Ok(function) => function,
        Err(e) => {
            return Err(e);
        },
    };
    let outcomes = match options {
        Some(mapping) => {
            let object = match build_options_object(ctx, mapping) {
                Ok(object) => object,
                Err(e) => {
                    return Err(e);
                },
            };
            gather(ctx, &function, inputs, Some(&object))
        },
        None => gather(ctx, &function, inputs, None),
    };
    let r = finish_batch(inputs, outcomes);
    r
}

impl ConverterInstance {
    /// Sets up a session: a fresh runtime, one context on it, and `bundle`
    /// evaluated once in that context.
    pub fn new(bundle: &str) -> (r: Result<ConverterInstance, BridgeError>)
        ensures
            r matches Err(e) ==> init_failure(e@),
    {
        let mut rt = match new_runtime() {
            Ok(rt) => rt,
            Err(cause) => {
                let detail = error_text(&cause);
                let e = BridgeError::new(Step::RuntimeAlloc, None, detail.as_str());
                return Err(e);
            },
        };
        let ctx = match full_context(&mut rt) {
            Ok(ctx) => ctx,
            Err(cause) => {
                let detail = error_text(&cause);
                let e = BridgeError::new(Step::ContextAlloc, None, detail.as_str());
                return Err(e);
            },
        };
        let mut session = ConverterInstance { rt, ctx };
        let load = |ctx: rquickjs::Ctx<'_>| -> (loaded: Result<(), rquickjs::Error>)
            { eval_script(&ctx, bundle) };
        match with_context(&mut session, load) {
            Ok(()) => Ok(session),
            Err(cause) => {
                let detail = error_text(&cause);
                let e = BridgeError::new(Step::BundleLoad, None, detail.as_str());
                Err(e)
            },
        }
    }

    /// Converts `input` by the global function `name`.
    pub fn convert(
        &mut self,
        name: &str,
        input: &str,
        options: Option<&OptionsMapping>,
    ) -> (r: Result<String, BridgeError>)
        ensures
            single_post(name@, borrowed_entries(options), conversion_of(r)),
    {
        let run = |ctx: rquickjs::Ctx<'_>| -> (out: Result<String, BridgeError>)
            ensures
                single_post(name@, borrowed_entries(options), conversion_of(out)),
            { convert_in(&ctx, name, input, options) };
        with_context(self, run)
    }

    /// Converts each of `inputs` by the global function `name`, entering
    /// the context once and building the options object once.
    pub fn convert_batch(
        &mut self,
        name: &str,
        inputs: &[String],
        options: Option<&OptionsMapping>,
    ) -> (r: Result<Vec<String>, BridgeError>)
        ensures
            batch_post(name@, texts_of(inputs@), borrowed_entries(options), batch_conversion_of(r)),
    {
        let run = |ctx: rquickjs::Ctx<'_>| -> (out: Result<Vec<String>, BridgeError>)
            ensures
                batch_post(
                    name@,
                    texts_of(inputs@),
                    borrowed_entries(options),
                    batch_conversion_of(out),
                ),
            { convert_batch_in(&ctx, name, inputs, options) };
        with_context(self, run)
    }

    /// Converts TeX math to Typst by the script's `tex2typst`.
    pub fn tex2typst(
        &mut self,
        tex: &str,
        options: Option<&OptionsMapping>,
    ) -> (r: Result<String, BridgeError>)
        ensures
            single_post("tex2typst"@, borrowed_entries(options), conversion_of(r)),
    {
        self.convert("tex2typst", tex, options)
    }

    /// Converts each TeX string of `tex_list` to Typst, in order.
    pub fn tex2typst_batch(
        &mut self,
        tex_list: &[String],
        options: Option<&OptionsMapping>,
    ) -> (r: Result<Vec<String>, BridgeError>)
        ensures
            batch_post(
                "tex2typst"@,
                texts_of(tex_list@),
                borrowed_entries(options),
                batch_conversion_of(r),
            ),
    {
        self.convert_batch("tex2typst", tex_list, options)
    }

    /// Converts Typst math to TeX by the script's `typst2tex`.
    pub fn typst2tex(
        &mut self,
        typst: &str,
        options: Option<&OptionsMapping>,
    ) -> (r: Result<String, BridgeError>)
        ensures
            single_post("typst2tex"@, borrowed_entries(options), conversion_of(r)),
    {
        self.convert("typst2tex", typst, options)
    }

    /// Converts each Typst string of `typst_list` to TeX, in order.
    pub fn typst2tex_batch(
        &mut self,
        typst_list: &[String],
        options: Option<&OptionsMapping>,
    ) -> (r: Result<Vec<String>, BridgeError>)
        ensures
            batch_post(
                "typst2tex"@,
                texts_of(typst_list@),
                borrowed_entries(options),
                batch_conversion_of(r),
            ),
    {
        self.convert_batch("typst2tex", typst_list, options)
    }
}

} // verus!
