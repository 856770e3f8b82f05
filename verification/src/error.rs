//! Failures of the bridge: where an operation stopped, what it was working
//! on, and the message shown to the caller.

use vstd::prelude::*;
use vstd::string::*;

verus! {

/// The four families of failure.
#[derive(Clone, Copy, Debug, PartialEq, Eq, Structural)]
pub enum ErrorKind {
    /// The interpreter could not be set up or the script library did not load.
    EngineInit,
    /// The script library lacks a function the bridge calls.
    Binding,
    /// An option could not be turned into an interpreter value.
    Translation,
    /// The script function threw, or its result was unusable.
    Conversion,
}

/// The class of exception by which the host is told of a failure.
#[derive(Clone, Copy, Debug, PartialEq, Eq, Structural)]
pub enum HostException {
    /// The interpreter, or an operation on one of its objects, failed.
    RuntimeError,
    /// A function that should exist does not.
    AttributeError,
    /// A value handed in by the caller was not accepted.
    ValueError,
}

/// The operation during which a failure arose.
#[derive(Clone, Copy, Debug, PartialEq, Eq, Structural)]
pub enum Step {
    /// Allocating the interpreter runtime.
    RuntimeAlloc,
    /// Allocating the execution context.
    ContextAlloc,
    /// Evaluating the script library.
    BundleLoad,
    /// Looking up a global function.
    FunctionLookup,
    /// Creating the options object.
    ObjectCreate,
    /// Setting a boolean option.
    SetBool,
    /// Setting a string option.
    SetString,
    /// Creating the object that holds a nested table.
    NestedCreate,
    /// Setting one entry of a nested table.
    SetNested,
    /// Attaching a nested table to the options object.
    SetObject,
    /// Parsing the JSON text of an option inside the interpreter.
    OptionsParse,
    /// Setting an option that went through JSON.
    SetProperty,
    /// Calling the script function.
    Call,
}

impl Step {
    /// The family a step's failures belong to.
    pub open spec fn spec_kind(self) -> ErrorKind {
        match self {
            Step::RuntimeAlloc | Step::ContextAlloc | Step::BundleLoad => ErrorKind::EngineInit,
            Step::FunctionLookup => ErrorKind::Binding,
            Step::ObjectCreate
            | Step::SetBool
            | Step::SetString
            | Step::NestedCreate
            | Step::SetNested
            | Step::SetObject
            | Step::OptionsParse
            | Step::SetProperty => ErrorKind::Translation,
            Step::Call => ErrorKind::Conversion,
        }
    }

    /// The class of exception that reports a failure at this step: a value
    /// error where the caller's input or options were refused, an attribute
    /// error for a missing function, a runtime error for everything else.
    pub open spec fn spec_host_exception(self) -> HostException {
        match self {
            Step::FunctionLookup => HostException::AttributeError,
            Step::OptionsParse | Step::Call => HostException::ValueError,
            Step::RuntimeAlloc
            | Step::ContextAlloc
            | Step::BundleLoad
            | Step::ObjectCreate
            | Step::SetBool
            | Step::SetString
            | Step::NestedCreate
            | Step::SetNested
            | Step::SetObject
            | Step::SetProperty => HostException::RuntimeError,
        }
    }

    /// The text that opens the message of a failure at this step.
    pub open spec fn spec_prefix(self) -> Seq<char> {
        match self {
            Step::RuntimeAlloc => Seq::empty(),
            Step::ContextAlloc => Seq::empty(),
            Step::BundleLoad => "JS Load Error: "@,
            Step::FunctionLookup => "Global function '"@,
            Step::ObjectCreate => "Failed to create JS object: "@,
            Step::SetBool => "Failed to set bool property: "@,
            Step::SetString => "Failed to set string property: "@,
            Step::NestedCreate => "Failed to create nested object: "@,
            Step::SetNested => "Failed to set nested property: "@,
            Step::SetObject => "Failed to set object property: "@,
            Step::OptionsParse => "Options parse failed: "@,
            Step::SetProperty => "Failed to set property: "@,
            Step::Call => "Conversion failed"@,
        }
    }

    /// The family a step's failures belong to.
    #[verifier::when_used_as_spec(spec_kind)]
    pub fn kind(self) -> (r: ErrorKind)
        ensures
            r == self.spec_kind(),
    {
        match self {
            Step::RuntimeAlloc | Step::ContextAlloc | Step::BundleLoad => ErrorKind::EngineInit,
            Step::FunctionLookup => ErrorKind::Binding,
            Step::ObjectCreate
            | Step::SetBool
            | Step::SetString
            | Step::NestedCreate
            | Step::SetNested
            | Step::SetObject
            | Step::OptionsParse
            | Step::SetProperty => ErrorKind::Translation,
            Step::Call => ErrorKind::Conversion,
        }
    }

    /// The class of exception that reports a failure at this step.
    #[verifier::when_used_as_spec(spec_host_exception)]
    pub fn host_exception(self) -> (r: HostException)
        ensures
            r == self.spec_host_exception(),
    {
        match self {
            Step::FunctionLookup => HostException::AttributeError,
            Step::OptionsParse | Step::Call => HostException::ValueError,
            Step::RuntimeAlloc
            | Step::ContextAlloc
            | Step::BundleLoad
            | Step::ObjectCreate
            | Step::SetBool
            | Step::SetString
            | Step::NestedCreate
            | Step::SetNested
            | Step::SetObject
            | Step::SetProperty => HostException::RuntimeError,
        }
    }

    /// The text that opens the message of a failure at this step.
    pub fn prefix(self) -> (r: &'static str)
        ensures
            r@ == self.spec_prefix(),
    {
        proof {
            reveal_strlit("");
        }
        match self {
            Step::RuntimeAlloc => "",
            Step::ContextAlloc => "",
            Step::BundleLoad => "JS Load Error: ",
            Step::FunctionLookup => "Global function '",
            Step::ObjectCreate => "Failed to create JS object: ",
            Step::SetBool => "Failed to set bool property: ",
            Step::SetString => "Failed to set string property: ",
            Step::NestedCreate => "Failed to create nested object: ",
            Step::SetNested => "Failed to set nested property: ",
            Step::SetObject => "Failed to set object property: ",
            Step::OptionsParse => "Options parse failed: ",
            Step::SetProperty => "Failed to set property: ",
            Step::Call => "Conversion failed",
        }
    }
}

/// The characters of an optional string.
pub open spec fn text_of(s: Option<String>) -> Option<Seq<char>> {
    match s {
        Some(t) => Some(t@),
        None => None,
    }
}

/// The message of a failure at `step` on `subject`, where the interpreter
/// (or the bridge) described the cause as `detail`.
///
/// Failures of the two allocation steps carry the cause alone. A missing
/// function is reported by its name alone. A failed call names the input
/// only when one is given, which is how a batch tells the caller which item
/// failed.
pub open spec fn failure_message(
    step: Step,
    subject: Option<Seq<char>>,
    detail: Seq<char>,
) -> Seq<char> {
    match step {
        Step::RuntimeAlloc | Step::ContextAlloc => detail,
        Step::FunctionLookup => match subject {
            Some(name) => step.spec_prefix() + name + "' not found."@,
            None => step.spec_prefix() + "' not found."@,
        },
        Step::Call => match subject {
            Some(input) => step.spec_prefix() + " for '"@ + input + "': "@ + detail,
            None => step.spec_prefix() + ": "@ + detail,
        },
        _ => step.spec_prefix() + detail,
    }
}

/// A failure, as a mathematical value.
pub struct BridgeErrorView {
    pub step: Step,
    pub subject: Option<Seq<char>>,
    pub message: Seq<char>,
}

/// The failure at `step` on `subject` with cause `detail`.
pub open spec fn failure(
    step: Step,
    subject: Option<Seq<char>>,
    detail: Seq<char>,
) -> BridgeErrorView {
    BridgeErrorView { step, subject, message: failure_message(step, subject, detail) }
}

/// A failure of the bridge.
///
/// `subject` is what the failing step was working on: the name of the
/// missing function, the key of the option that could not be translated, or
/// the input of the batch item whose conversion failed.
#[derive(Clone, Debug, PartialEq, Eq)]
pub struct BridgeError {
    pub step: Step,
    pub subject: Option<String>,
    pub message: String,
}

impl View for BridgeError {
    type V = BridgeErrorView;

    open spec fn view(&self) -> BridgeErrorView {
        BridgeErrorView {
            step: self.step,
            subject: text_of(self.subject),
            message: self.message@,
        }
    }
}

impl BridgeError {
    /// Builds the failure at `step` on `subject` with cause `detail`.
    pub fn new(step: Step, subject: Option<String>, detail: &str) -> (r: BridgeError)
        ensures
            r@ == failure(step, text_of(subject), detail@),
    {
        let mut message = String::from_str(step.prefix());
        match step {
            Step::RuntimeAlloc | Step::ContextAlloc => {
                message = String::from_str(detail);
            },
            Step::FunctionLookup => {
                match &subject {
                    Some(name) => {
                        message.append(name.as_str());
                    },
                    None => {},
                }
                message.append("' not found.");
            },
            Step::Call => {
                match &subject {
                    Some(input) => {
                        message.append(" for '");
                        message.append(input.as_str());
                        message.append("': ");
                    },
                    None => {
                        message.append(": ");
                    },
                }
                message.append(detail);
            },
            _ => {
                message.append(detail);
            },
        }
        BridgeError { step, subject, message }
    }

    /// The family this failure belongs to.
    pub fn kind(&self) -> (r: ErrorKind)
        ensures
            r == self.step.spec_kind(),
    {
        self.step.kind()
    }

    /// The class of exception that reports this failure.
    pub fn host_exception(&self) -> (r: HostException)
        ensures
            r == self.step.spec_host_exception(),
    {
        self.step.host_exception()
    }

    /// The message shown to the caller.
    pub fn message(&self) -> (r: String)
        ensures
            r@ == self.message@,
    {
        self.message.clone()
    }
}

} // verus!
