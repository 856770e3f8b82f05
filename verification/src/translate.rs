//! Between the caller's values and the interpreter's: building the options
//! object, finding and calling a script function, and taking a caught
//! failure apart.

use vstd::prelude::*;
use vstd::string::*;
use crate::engine::{
    call_plain,
    call_with_options,
    caught,
    error_text,
    exception_message,
    exception_stack,
    get_function,
    globals,
    json_parse,
    json_text,
    new_object,
    set_bool,
    set_object,
    set_text,
    set_value,
    split_caught,
    value_debug,
    Caught,
};
use crate::error::{failure, BridgeError, BridgeErrorView, Step};
use crate::fault::CaughtFault;
use crate::mapping::StringMap;
use crate::options::{OptionEntries, OptionValue, OptionValueView, OptionsMapping};

verus! {

/// The failure to find the global function `name`.
pub open spec fn binding_failure(name: Seq<char>) -> BridgeErrorView {
    failure(Step::FunctionLookup, Some(name), Seq::empty())
}

/// Whether translating `value` can stop at `step`: a boolean or a string
/// takes one step, a table three (the third for each of its entries, so not
/// for an empty table), any other value two.
pub open spec fn step_fits(step: Step, value: OptionValueView) -> bool {
    match value {
        OptionValueView::Bool(_) => step == Step::SetBool,
        OptionValueView::Text(_) => step == Step::SetString,
        OptionValueView::Table(table) => {
            ||| step == Step::NestedCreate
            ||| step == Step::SetNested && table.len() > 0
            ||| step == Step::SetObject
        },
        OptionValueView::Other(_) => step == Step::OptionsParse || step == Step::SetProperty,
    }
}

/// The failure to translate the entry at position `i` of `entries`, at
/// `step`, for the cause `detail`. It names the entry's key.
pub open spec fn entry_failure(
    entries: OptionEntries,
    i: int,
    step: Step,
    detail: Seq<char>,
) -> BridgeErrorView {
    failure(step, Some(entries[i].0), detail)
}

/// The failure to create the options object, for the cause `detail`.
pub open spec fn object_failure(detail: Seq<char>) -> BridgeErrorView {
    failure(Step::ObjectCreate, None, detail)
}

/// Whether `error` is a failure to turn `entries` into an options object:
/// either the object could not be created, or one of the entries could not
/// be translated, at a step that fits its value.
pub open spec fn translation_failure(entries: OptionEntries, error: BridgeErrorView) -> bool {
    ||| exists|detail: Seq<char>| error == #[trigger] object_failure(detail)
    ||| exists|i: int, step: Step, detail: Seq<char>|
        {
            &&& 0 <= i < entries.len()
            &&& step_fits(step, entries[i].1)
            &&& error == #[trigger] entry_failure(entries, i, step, detail)
        }
}

/// The failure of an interpreter operation at `step` on the option `key`.
fn step_failed(step: Step, key: &String, cause: &rquickjs::Error) -> (r: BridgeError)
    ensures
        exists|detail: Seq<char>| r@ == #[trigger] failure(step, Some(key@), detail),
{
    let detail = error_text(cause);
    let r = BridgeError::new(step, Some(key.clone()), detail.as_str());
    r
}

/// Builds the nested object for a table: one string property for each
/// entry, in the order of the table.
fn build_table_object<'js>(
    ctx: &rquickjs::Ctx<'js>,
    key: &String,
    table: &StringMap<String>,
) -> (r: Result<rquickjs::Object<'js>, BridgeError>)
    ensures
        r matches Err(e) ==> exists|step: Step, detail: Seq<char>|
            {
                &&& step_fits(step, OptionValueView::Table(table@))
                &&& e@ == #[trigger] failure(step, Some(key@), detail)
            },
{
    let nested = match new_object(ctx) {
        Ok(object) => object,
        Err(cause) => {
            return Err(step_failed(Step::NestedCreate, key, &cause));
        },
    };
    let count = table.len();
    let mut i: usize = 0;
    while i < count
        invariant
            i <= count,
            count == table@.len(),
        decreases count - i,
    {
        match set_text(&nested, table.key(i).as_str(), table.value(i).as_str()) {
            Ok(()) => {},
            Err(cause) => {
                return Err(step_failed(Step::SetNested, key, &cause));
            },
        }
        i = i + 1;
    }
    Ok(nested)
}

/// Sets one option on the options object, in the way its value calls for.
fn set_option<'js>(
    ctx: &rquickjs::Ctx<'js>,
    object: &rquickjs::Object<'js>,
    key: &String,
    value: &OptionValue,
) -> (r: Result<(), BridgeError>)
    ensures
        r matches Err(e) ==> exists|step: Step, detail: Seq<char>|
            step_fits(step, value@) && e@ == #[trigger] failure(step, Some(key@), detail),
{
    match value {
        OptionValue::Bool(flag) => match set_bool(object, key.as_str(), *flag) {
            Ok(()) => Ok(()),
            Err(cause) => Err(step_failed(Step::SetBool, key, &cause)),
        },
        OptionValue::Text(text) => match set_text(object, key.as_str(), text.as_str()) {
            Ok(()) => Ok(()),
            Err(cause) => Err(step_failed(Step::SetString, key, &cause)),
        },
        OptionValue::Table(table) => {
            let nested = match build_table_object(ctx, key, table) {
                Ok(nested) => nested,
                Err(e) => {
                    return Err(e);
                },
            };
            match set_object(object, key.as_str(), nested) {
                Ok(()) => Ok(()),
                Err(cause) => Err(step_failed(Step::SetObject, key, &cause)),
            }
        },
        OptionValue::Other(json) => {
            let parsed = match json_parse(ctx, json_text(json)) {
                Ok(parsed) => parsed,
                Err(cause) => {
                    return Err(step_failed(Step::OptionsParse, key, &cause));
                },
            };
            match set_value(object, key.as_str(), parsed) {
                Ok(()) => Ok(()),
                Err(cause) => Err(step_failed(Step::SetProperty, key, &cause)),
            }
        },
    }
}

/// Builds the interpreter object that stands for `mapping`: a fresh object
/// with one property for each entry, set in the order of the mapping.
///
/// A boolean and a string are set as such. A table becomes a nested object
/// with one string property for each of its entries. Any other value is
/// written out as JSON text, which the interpreter parses.
///
/// The first operation that the interpreter refuses ends the translation.
pub fn build_options_object<'js>(
    ctx: &rquickjs::Ctx<'js>,
    mapping: &OptionsMapping,
) -> (r: Result<rquickjs::Object<'js>, BridgeError>)
    ensures
        r matches Err(e) ==> translation_failure(mapping@, e@),
{
    let object = match new_object(ctx) {
        Ok(object) => object,
        Err(cause) => {
            let detail = error_text(&cause);
            let e = BridgeError::new(Step::ObjectCreate, None, detail.as_str());
            assert(e@ == object_failure(detail@));
            return Err(e);
        },
    };
    let count = mapping.len();
    let mut i: usize = 0;
    while i < count
        invariant
            i <= count,
            count == mapping@.len(),
        decreases count - i,
    {
        match set_option(ctx, &object, mapping.key(i), mapping.value(i)) {
            Ok(()) => {},
            Err(e) => {
                proof {
                    let (step, detail) = choose|step: Step, detail: Seq<char>|
                        step_fits(step, mapping@[i as int].1) && e@ == #[trigger] failure(
                            step,
                            Some(mapping@[i as int].0),
                            detail,
                        );
                    assert(e@ == entry_failure(mapping@, i as int, step, detail));
                }
                return Err(e);
            },
        }
        i = i + 1;
    }
    Ok(object)
}

/// Finds the global function `name`.
pub fn lookup_function<'js>(
    ctx: &rquickjs::Ctx<'js>,
    name: &str,
) -> (r: Result<rquickjs::Function<'js>, BridgeError>)
    ensures
        r matches Err(e) ==> e@ == binding_failure(name@),
{
    let global = globals(ctx);
    found_or_missing(name, get_function(&global, name))
}

/// Takes a failed call apart into the texts that describe it.
pub(crate) fn describe_failure<'js>(
    ctx: &rquickjs::Ctx<'js>,
    error: rquickjs::Error,
) -> (r: CaughtFault) {
    describe(split_caught(caught(ctx, error)))
}

/// Calls `function` with `input`, followed by `options` where they are
/// given, and with `input` alone where they are not. Whatever the script
/// throws is caught and described.
pub(crate) fn invoke<'js>(
    ctx: &rquickjs::Ctx<'js>,
    function: &rquickjs::Function<'js>,
    input: &str,
    options: Option<&rquickjs::Object<'js>>,
) -> (r: Result<String, CaughtFault>) {
    let called = match options {
        Some(object) => call_with_options(function, input, object),
        None => call_plain(function, input),
    };
    settle(ctx, called)
}

/// What a lookup comes to: the function that was found, as it is, or the
/// failure to find `name`, whatever the interpreter gave as the reason.
fn found_or_missing<'js>(
    name: &str,
    found: Result<rquickjs::Function<'js>, rquickjs::Error>,
) -> (r: Result<rquickjs::Function<'js>, BridgeError>)
    ensures
        match found {
            Ok(function) => r == Ok::<rquickjs::Function<'js>, BridgeError>(function),
            Err(_) => r matches Err(e) && e@ == binding_failure(name@),
        },
{
    match found {
        Ok(function) => Ok(function),
        Err(_) => {
            Err(BridgeError::new(Step::FunctionLookup, Some(String::from_str(name)), ""))
        },
    }
}

/// The fault that stands for what was caught. A thrown error object gives
/// its message and its stack, the binding's own failure gives its text, and
/// any other thrown value gives its debug rendering: the three are kept
/// apart, so that a fault of the script is never taken for one of the
/// engine.
fn describe<'js>(caught: Caught<'js>) -> (r: CaughtFault)
    ensures
        match caught {
            Caught::Exception(_) => r is Exception,
            Caught::Error(_) => r is Engine,
            Caught::Value(_) => r is Raw,
        },
{
    match caught {
        Caught::Exception(exception) => CaughtFault::Exception {
            message: exception_message(&exception),
            stack: exception_stack(&exception),
        },
        Caught::Error(error) => CaughtFault::Engine(error_text(&error)),
        Caught::Value(value) => CaughtFault::Raw(value_debug(&value)),
    }
}

/// What a call comes to: the string that the script returned, as it is, or
/// the fault that describes why the call failed.
fn settle<'js>(
    ctx: &rquickjs::Ctx<'js>,
    called: Result<String, rquickjs::Error>,
) -> (r: Result<String, CaughtFault>)
    ensures
        match called {
            Ok(text) => r == Ok::<String, CaughtFault>(text),
            Err(_) => r is Err,
        },
{
    match called {
        Ok(text) => Ok(text),
        Err(error) => Err(describe_failure(ctx, error)),
    }
}

} // verus!
