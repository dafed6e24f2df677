//! The `kubectl` command lines that persist a selection.

use vstd::prelude::*;
use vstd::string::*;

verus! {

/// A command line: the program and the arguments handed to it.
#[derive(Debug, PartialEq, Eq)]
pub struct Invocation {
    /// The program to launch.
    pub program: String,
    /// Its arguments, in order.
    pub args: Vec<String>,
}

/// Mathematical value of an [`Invocation`].
pub struct InvocationView {
    pub program: Seq<char>,
    pub args: Seq<Seq<char>>,
}

impl View for Invocation {
    type V = InvocationView;

    open spec fn view(&self) -> InvocationView {
        InvocationView { program: self.program@, args: self.args.deep_view() }
    }
}

/// `kubectl config use-context <name>`.
pub open spec fn use_context(name: Seq<char>) -> InvocationView {
    InvocationView { program: "kubectl"@, args: seq!["config"@, "use-context"@, name] }
}

/// `kubectl config set-context --current --namespace <name>`.
pub open spec fn set_namespace(name: Seq<char>) -> InvocationView {
    InvocationView {
        program: "kubectl"@,
        args: seq!["config"@, "set-context"@, "--current"@, "--namespace"@, name],
    }
}

/// Builds the command line that makes the context `name` the active one.
pub fn use_context_invocation(name: String) -> (invocation: Invocation)
    ensures
        invocation@ == use_context(name@),
{
    let mut args: Vec<String> = Vec::new();
    args.push(String::from_str("config"));
    args.push(String::from_str("use-context"));
    args.push(name);
    assert(args.deep_view() =~= seq!["config"@, "use-context"@, name@]);
    Invocation { program: String::from_str("kubectl"), args }
}

/// Builds the command line that makes `name` the namespace of the active
/// context.
pub fn set_namespace_invocation(name: String) -> (invocation: Invocation)
    ensures
        invocation@ == set_namespace(name@),
{
    let mut args: Vec<String> = Vec::new();
    args.push(String::from_str("config"));
    args.push(String::from_str("set-context"));
    args.push(String::from_str("--current"));
    args.push(String::from_str("--namespace"));
    args.push(name);
    assert(args.deep_view() =~= seq![
        "config"@,
        "set-context"@,
        "--current"@,
        "--namespace"@,
        name@,
    ]);
    Invocation { program: String::from_str("kubectl"), args }
}

} // verus!
