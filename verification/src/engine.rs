//! The calls into the interpreter and into the JSON library.
//!
//! Nothing in this file is proved. Each function holds one call into
//! `rquickjs` or `serde_json`; none of them promises anything about what the
//! call returns, because that depends on the state of the interpreter and on
//! the script loaded into it. The rest of the crate is verified for every
//! value these functions may hand back.

use vstd::prelude::*;

verus! {

/// `rquickjs::Runtime`: one instance of the QuickJS engine.
#[verifier::external_type_specification]
#[verifier::external_body]
pub struct ExRuntime(rquickjs::Runtime);

/// `rquickjs::Context`: one global namespace and heap on a runtime.
#[verifier::external_type_specification]
#[verifier::external_body]
pub struct ExContext(rquickjs::Context);

/// `rquickjs::Ctx`: a context that has been entered.
#[verifier::external_type_specification]
#[verifier::external_body]
pub struct ExCtx<'js>(rquickjs::Ctx<'js>);

/// `rquickjs::Object`: a handle to an object of the interpreter.
#[verifier::external_type_specification]
#[verifier::external_body]
pub struct ExObject<'js>(rquickjs::Object<'js>);

/// `rquickjs::Function`: a handle to a function of the interpreter.
#[verifier::external_type_specification]
#[verifier::external_body]
pub struct ExFunction<'js>(rquickjs::Function<'js>);

/// `rquickjs::Value`: a handle to any value of the interpreter.
#[verifier::external_type_specification]
#[verifier::external_body]
pub struct ExValue<'js>(rquickjs::Value<'js>);

/// `rquickjs::Exception`: a handle to an error object of the interpreter.
#[verifier::external_type_specification]
#[verifier::external_body]
pub struct ExException<'js>(rquickjs::Exception<'js>);

/// `rquickjs::Error`: a failure reported by the binding.
#[verifier::external_type_specification]
#[verifier::external_body]
pub struct ExEngineError(rquickjs::Error);

/// `rquickjs::CaughtError`: a failure together with the value that was
/// thrown, if one was.
#[verifier::external_type_specification]
#[verifier::external_body]
pub struct ExCaughtError<'js>(rquickjs::CaughtError<'js>);

/// `serde_json::Value`: any JSON value.
#[verifier::external_type_specification]
#[verifier::external_body]
pub struct ExJsonValue(serde_json::Value);

/// The three shapes of a caught failure, each still holding the
/// interpreter's own value.
pub(crate) enum Caught<'js> {
    /// An error object was thrown.
    Exception(rquickjs::Exception<'js>),
    /// The binding failed without a thrown value.
    Error(rquickjs::Error),
    /// A value that is no error object was thrown.
    Value(rquickjs::Value<'js>),
}

/// `Runtime::new`. Fails where the engine cannot be allocated.
#[verifier::external_body]
pub(crate) fn new_runtime() -> (r: Result<rquickjs::Runtime, rquickjs::Error>) {
    rquickjs::Runtime::new()
}

/// `Context::full`. Fails where the context cannot be allocated. The
/// runtime is borrowed exclusively: the call takes the runtime's lock, and
/// would panic if a context of this runtime were entered at the time.
#[verifier::external_body]
pub(crate) fn full_context(
    runtime: &mut rquickjs::Runtime,
) -> (r: Result<rquickjs::Context, rquickjs::Error>) {
    rquickjs::Context::full(runtime)
}

/// `Ctx::eval`, with the script's value discarded. Fails where the source
/// holds a NUL byte, does not parse, or throws.
#[verifier::external_body]
pub(crate) fn eval_script<'js>(
    ctx: &rquickjs::Ctx<'js>,
    source: &str,
) -> (r: Result<(), rquickjs::Error>) {
    ctx.eval::<(), _>(source)
}

/// `Ctx::globals`: the global object.
#[verifier::external_body]
pub(crate) fn globals<'js>(ctx: &rquickjs::Ctx<'js>) -> (r: rquickjs::Object<'js>) {
    ctx.globals()
}

/// `Object::get`, asking for a function. Fails where the object has no
/// such member or the member is no function.
#[verifier::external_body]
pub(crate) fn get_function<'js>(
    object: &rquickjs::Object<'js>,
    name: &str,
) -> (r: Result<rquickjs::Function<'js>, rquickjs::Error>) {
    object.get::<_, rquickjs::Function>(name)
}

/// `Object::new`: a fresh object.
#[verifier::external_body]
pub(crate) fn new_object<'js>(
    ctx: &rquickjs::Ctx<'js>,
) -> (r: Result<rquickjs::Object<'js>, rquickjs::Error>) {
    rquickjs::Object::new(ctx.clone())
}

/// `Object::set` with a boolean.
#[verifier::external_body]
pub(crate) fn set_bool<'js>(
    object: &rquickjs::Object<'js>,
    key: &str,
    value: bool,
) -> (r: Result<(), rquickjs::Error>) {
    object.set(key, value)
}

/// `Object::set` with a string.
#[verifier::external_body]
pub(crate) fn set_text<'js>(
    object: &rquickjs::Object<'js>,
    key: &str,
    value: &str,
) -> (r: Result<(), rquickjs::Error>) {
    object.set(key, value)
}

/// `Object::set` with an object.
#[verifier::external_body]
pub(crate) fn set_object<'js>(
    object: &rquickjs::Object<'js>,
    key: &str,
    value: rquickjs::Object<'js>,
) -> (r: Result<(), rquickjs::Error>) {
    object.set(key, value)
}

/// `Object::set` with any value of the interpreter.
#[verifier::external_body]
pub(crate) fn set_value<'js>(
    object: &rquickjs::Object<'js>,
    key: &str,
    value: rquickjs::Value<'js>,
) -> (r: Result<(), rquickjs::Error>) {
    object.set(key, value)
}

/// `Clone` for `serde_json::Value`: the clone is the same JSON value.
pub assume_specification[ <serde_json::Value as Clone>::clone ](value: &serde_json::Value) -> (r:
    serde_json::Value)
    ensures
        r == *value,
;

/// The `Display` text of a `serde_json::Value`: its compact JSON form.
/// `serde_json` writes a value by recursion on its nesting, so a value
/// nested thousands of levels deep can exhaust the stack.
#[verifier::external_body]
pub(crate) fn json_text(value: &serde_json::Value) -> (r: String) {
    value.to_string()
}

/// `Ctx::json_parse`. Fails where the text holds a NUL byte or is not JSON.
#[verifier::external_body]
pub(crate) fn json_parse<'js>(
    ctx: &rquickjs::Ctx<'js>,
    text: String,
) -> (r: Result<rquickjs::Value<'js>, rquickjs::Error>) {
    ctx.json_parse(text)
}

/// `Function::call` with one argument, asking for a string.
#[verifier::external_body]
pub(crate) fn call_plain<'js>(
    function: &rquickjs::Function<'js>,
    input: &str,
) -> (r: Result<String, rquickjs::Error>) {
    function.call((input,))
}

/// `Function::call` with two arguments, asking for a string. The second
/// argument is another handle to `options`, not a copy of the object.
#[verifier::external_body]
pub(crate) fn call_with_options<'js>(
    function: &rquickjs::Function<'js>,
    input: &str,
    options: &rquickjs::Object<'js>,
) -> (r: Result<String, rquickjs::Error>) {
    function.call((input, options.clone()))
}

/// `CaughtError::from_error`: takes the thrown value out of the context
/// where the failure says that one is pending.
#[verifier::external_body]
pub(crate) fn caught<'js>(
    ctx: &rquickjs::Ctx<'js>,
    error: rquickjs::Error,
) -> (r: rquickjs::CaughtError<'js>) {
    rquickjs::CaughtError::from_error(ctx, error)
}

/// Tells the variants of `CaughtError` apart.
#[verifier::external_body]
pub(crate) fn split_caught<'js>(error: rquickjs::CaughtError<'js>) -> (r: Caught<'js>) {
    match error {
        rquickjs::CaughtError::Exception(exception) => Caught::Exception(exception),
        rquickjs::CaughtError::Error(error) => Caught::Error(error),
        rquickjs::CaughtError::Value(value) => Caught::Value(value),
    }
}

/// `Exception::message`: the error object's `message`, if it has one.
#[verifier::external_body]
pub(crate) fn exception_message<'js>(exception: &rquickjs::Exception<'js>) -> (r: Option<String>) {
    exception.message()
}

/// `Exception::stack`: the error object's `stack`, if it has one.
#[verifier::external_body]
pub(crate) fn exception_stack<'js>(exception: &rquickjs::Exception<'js>) -> (r: Option<String>) {
    exception.stack()
}

/// The `Display` text of an `rquickjs::Error`.
#[verifier::external_body]
pub(crate) fn error_text(error: &rquickjs::Error) -> (r: String) {
    error.to_string()
}

/// The `Debug` text of an `rquickjs::Value`.
#[verifier::external_body]
pub(crate) fn value_debug<'js>(value: &rquickjs::Value<'js>) -> (r: String) {
    format!("{:?}", value)
}

} // verus!
