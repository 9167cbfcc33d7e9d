//! The command bridge: named functions that the embedded frontend view can
//! invoke with a string argument and a string result.

use vstd::prelude::*;
use vstd::string::StringExecFns;

use crate::strutil::str_eq;

verus! {

/// The greeting returned for a frontend `greet` call: the name is embedded
/// verbatim between a fixed prefix and a fixed suffix.
pub open spec fn spec_greet(name: Seq<char>) -> Seq<char> {
    "Hello, "@ + name + "! You've been greeted from Rust!"@
}

/// The observational log record that a `greet` call emits.
pub open spec fn spec_greet_log(name: Seq<char>) -> Seq<char> {
    "The name param is "@ + name
}

/// Formats the greeting for `name`. Pure: the result is a function of the
/// argument alone, so two calls with the same name return identical strings.
pub fn greet(name: &str) -> (r: String)
    ensures
        r@ == spec_greet(name@),
{
    let mut s: String = "Hello, ".to_owned();
    s.append(name);
    s.append("! You've been greeted from Rust!");
    s
}

/// Formats the log record for a `greet` call on `name`.
pub fn greet_log(name: &str) -> (r: String)
    ensures
        r@ == spec_greet_log(name@),
{
    let mut s: String = "The name param is ".to_owned();
    s.append(name);
    s
}

/// The greeting embeds the name verbatim, directly after the fixed prefix.
pub proof fn lemma_greet_embeds_name(name: Seq<char>)
    ensures
        spec_greet(name).len() == name.len() + "Hello, "@.len()
            + "! You've been greeted from Rust!"@.len(),
        spec_greet(name).subrange(
            "Hello, "@.len() as int,
            ("Hello, "@.len() + name.len()) as int,
        ) == name,
{
    assert(spec_greet(name).subrange(
        "Hello, "@.len() as int,
        ("Hello, "@.len() + name.len()) as int,
    ) =~= name);
}

/// Greeting the same name twice yields identical output: any two results
/// that meet `greet`'s contract for one name are equal.
pub proof fn lemma_greet_deterministic(name: Seq<char>, r1: Seq<char>, r2: Seq<char>)
    requires
        r1 == spec_greet(name),
        r2 == spec_greet(name),
    ensures
        r1 == r2,
{
}

/// A failed invocation, reported to the frontend caller; the process goes on.
#[derive(Clone, Copy, PartialEq, Eq, Structural, Debug)]
pub enum BridgeError {
    /// The invoked name is not associated with any registered command.
    UnknownCommand,
}

impl BridgeError {
    /// A short description of the failure, for the frontend caller.
    pub fn message(&self) -> (r: &'static str)
        ensures
            r@ == "unknown command"@,
    {
        "unknown command"
    }
}

/// What a successful invocation hands back: the command's string result and
/// the one observational log record the command emitted.
#[derive(Debug)]
pub struct CommandOutput {
    pub value: String,
    pub log: String,
}

/// The registry of frontend-invokable commands. Built once during startup
/// and read-only afterwards.
pub struct CommandBridge {
    pub greet_registered: bool,
}

impl CommandBridge {
    /// Whether an invocation of `name` reaches a registered command.
    pub open spec fn spec_knows(self, name: Seq<char>) -> bool {
        self.greet_registered && name == "greet"@
    }

    /// An empty registry: nothing is invokable yet.
    pub fn new() -> (b: Self)
        ensures
            !b.greet_registered,
            forall|name: Seq<char>| !b.spec_knows(name),
    {
        CommandBridge { greet_registered: false }
    }

    /// Associates the name `greet` with the greeting command.
    pub fn register_greet(&mut self)
        ensures
            final(self).greet_registered,
    {
        self.greet_registered = true;
    }

    /// Looks the name up and runs the command synchronously. Succeeds exactly
    /// when the name is a registered command; any other name is reported back
    /// as a failure, never a crash.
    pub fn invoke(&self, name: &str, arg: &str) -> (r: Result<CommandOutput, BridgeError>)
        ensures
            self.spec_knows(name@) ==> r is Ok,
            r is Ok ==> self.spec_knows(name@),
            r is Ok ==> r->Ok_0.value@ == spec_greet(arg@) && r->Ok_0.log@ == spec_greet_log(arg@),
            r is Err ==> r->Err_0 == BridgeError::UnknownCommand,
    {
        if self.greet_registered && str_eq(name, "greet") {
            Ok(CommandOutput { value: greet(arg), log: greet_log(arg) })
        } else {
            Err(BridgeError::UnknownCommand)
        }
    }
}

} // verus!
