//! Script sources are not compiled in this process: the TypeScript compiler
//! runs as a child of its own, once or for as long as the sources change.

use vstd::prelude::*;

verus! {

/// A child process to start: the program and its arguments. The host starts
/// it and does not wait for it.
#[derive(Clone, Debug, PartialEq, Eq)]
pub struct Invocation {
    /// The program to run.
    pub program: String,
    /// Its arguments, in order.
    pub arguments: Vec<String>,
}

/// An [`Invocation`] as plain text.
pub struct InvocationView {
    pub program: Seq<char>,
    pub arguments: Seq<Seq<char>>,
}

impl View for Invocation {
    type V = InvocationView;

    open spec fn view(&self) -> InvocationView {
        InvocationView { program: self.program@, arguments: self.arguments.deep_view() }
    }
}

/// The compiler's invocation: through the package manager, one-shot, or in
/// watch mode where live reloading is on. Watch mode keeps what the compiler
/// has printed on the screen.
pub open spec fn spec_load(live_reloading: bool) -> InvocationView {
    InvocationView {
        program: "pnpm"@,
        arguments: if live_reloading {
            seq!["tsc"@, "--watch"@, "--preserveWatchOutput"@]
        } else {
            seq!["tsc"@]
        },
    }
}

/// How to start the TypeScript compiler.
pub fn load(live_reloading: bool) -> (invocation: Invocation)
    ensures
        invocation@ == spec_load(live_reloading),
{
    let mut arguments: Vec<String> = Vec::new();
    arguments.push(String::from_str("tsc"));
    if live_reloading {
        arguments.push(String::from_str("--watch"));
        arguments.push(String::from_str("--preserveWatchOutput"));
    }
    assert(arguments.deep_view() =~= spec_load(live_reloading).arguments);
    Invocation { program: String::from_str("pnpm"), arguments }
}

} // verus!
