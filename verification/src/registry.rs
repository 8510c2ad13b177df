//! The command registry: a fixed mapping from command name to handler,
//! invoked synchronously by a caller of the host environment.
//!
//! One command is registered: `greet`, a pure string formatter. Invoking
//! an unregistered name fails with [`InvokeError::UnknownCommand`];
//! invoking `greet` with arguments of the wrong shape fails with
//! [`InvokeError::InvalidArguments`]. Invocation is total and has no side
//! effect beyond computing its result.

use vstd::prelude::*;
use vstd::string::StringExecFns;

use crate::text::str_eq;

verus! {

/// Why an invocation was rejected. Both errors are caller-facing and
/// recoverable: the caller may retry with a corrected name or arguments.
#[derive(Clone, Copy, Debug, PartialEq, Eq, Structural)]
pub enum InvokeError {
    /// The command name is not registered.
    UnknownCommand,
    /// The arguments do not match the command's expected shape.
    InvalidArguments,
}

/// One named argument of an invocation, as handed across the boundary.
pub struct Arg {
    pub key: String,
    pub value: String,
}

/// The mathematical value of an [`Arg`]: both strings as character
/// sequences.
pub struct ArgView {
    pub key: Seq<char>,
    pub value: Seq<char>,
}

impl View for Arg {
    type V = ArgView;

    open spec fn view(&self) -> ArgView {
        ArgView { key: self.key@, value: self.value@ }
    }
}

/// The text `greet` returns for a given name.
pub open spec fn greeting_of(name: Seq<char>) -> Seq<char> {
    "Hello, "@ + name + "! You've been greeted from Rust!"@
}

/// Whether `command` names a registered command. The registry is fixed
/// at startup and holds exactly one command.
pub open spec fn is_registered(command: Seq<char>) -> bool {
    command == "greet"@
}

/// The argument shape `greet` expects: exactly one argument, keyed
/// `name`.
pub open spec fn greet_args_ok(args: Seq<ArgView>) -> bool {
    args.len() == 1 && args[0].key == "name"@
}

/// What `invoke` returns, for every command name and argument list.
pub open spec fn invoke_result(command: Seq<char>, args: Seq<ArgView>) -> Result<
    Seq<char>,
    InvokeError,
> {
    if !is_registered(command) {
        Err(InvokeError::UnknownCommand)
    } else if !greet_args_ok(args) {
        Err(InvokeError::InvalidArguments)
    } else {
        Ok(greeting_of(args[0].value))
    }
}

/// The one registered handler: formats a fixed greeting around `name`.
pub fn greet(name: &str) -> (r: String)
    ensures
        r@ == greeting_of(name@),
{
    let mut s = String::from_str("Hello, ");
    s.append(name);
    s.append("! You've been greeted from Rust!");
    s
}

/// Invokes the command named `command` with the named arguments `args`.
///
/// Synchronous and total: for every input it returns the value that
/// [`invoke_result`] gives, and it touches no state.
pub fn invoke(command: &str, args: &Vec<Arg>) -> (r: Result<String, InvokeError>)
    ensures
        ({
            let expected = invoke_result(command@, args@.map_values(|a: Arg| a@));
            match r {
                Ok(v) => expected == Ok::<Seq<char>, InvokeError>(v@),
                Err(e) => expected == Err::<Seq<char>, InvokeError>(e),
            }
        }),
{
    if !str_eq(command, "greet") {
        return Err(InvokeError::UnknownCommand);
    }
    if args.len() != 1 {
        return Err(InvokeError::InvalidArguments);
    }
    if !str_eq(args[0].key.as_str(), "name") {
        return Err(InvokeError::InvalidArguments);
    }
    Ok(greet(args[0].value.as_str()))
}

} // verus!
