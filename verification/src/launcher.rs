//! The launcher command: plans one spawn of the engine executable and
//! resolves the operating system's answer into the command's reply.

use vstd::prelude::*;

verus! {

/// The fixed relative path of the engine executable. It is resolved against
/// the process's working directory at invocation time; the launcher neither
/// validates nor configures that directory.
pub open spec fn engine_path() -> Seq<char> {
    "../../senars-engine"@
}

/// One planned process-spawn attempt: an executable path and the arguments
/// to hand the new process.
pub struct SpawnRequest {
    pub path: String,
    pub args: Vec<String>,
}

impl SpawnRequest {
    /// A spawn attempt as the launcher plans it: the engine's fixed relative
    /// path, and no arguments.
    pub open spec fn is_engine_launch(self) -> bool {
        &&& self.path@ == engine_path()
        &&& self.args@.len() == 0
    }
}

/// Plan the launcher's spawn attempt. The launcher takes no input and holds
/// no state, so every invocation plans the same attempt: the engine's fixed
/// relative path, no arguments.
pub fn spawn_request() -> (r: SpawnRequest)
    ensures
        r.is_engine_launch(),
{
    SpawnRequest { path: "../../senars-engine".to_owned(), args: Vec::new() }
}

/// The operating system's answer to a spawn request, as the caller of the
/// spawn sees it: either the child process was created, or the request
/// failed with a descriptive message. A child that starts and later crashes
/// is not reported: the launcher does not wait for it.
pub enum SpawnOutcome {
    Started,
    Failed { message: String },
}

/// The reply the launcher owes for a spawn outcome: empty success when the
/// child was created, and otherwise the operating system's message, passed
/// through unchanged.
pub open spec fn reply_of(outcome: SpawnOutcome) -> Result<(), Seq<char>> {
    match outcome {
        SpawnOutcome::Started => Result::Ok(()),
        SpawnOutcome::Failed { message } => Result::Err(message@),
    }
}

/// The view of a reply as callers receive it.
pub open spec fn reply_view(r: Result<(), String>) -> Result<(), Seq<char>> {
    match r {
        Result::Ok(()) => Result::Ok(()),
        Result::Err(m) => Result::Err(m@),
    }
}

/// Resolve one launcher invocation, given the operating system's answer to
/// the planned spawn: success exactly when the child was created, and on
/// failure the operating system's message, unchanged.
pub fn command_reply(outcome: SpawnOutcome) -> (r: Result<(), String>)
    ensures
        reply_view(r) == reply_of(outcome),
{
    match outcome {
        SpawnOutcome::Started => Result::Ok(()),
        SpawnOutcome::Failed { message } => Result::Err(message),
    }
}

/// The launcher keeps no state between invocations: any two attempts it
/// plans are the same spawn, so a repeated invocation attempts a fresh spawn
/// exactly as the first one did.
pub proof fn lemma_launcher_stateless(r1: SpawnRequest, r2: SpawnRequest)
    requires
        r1.is_engine_launch(),
        r2.is_engine_launch(),
    ensures
        r1.path@ == r2.path@,
        r1.args@ =~= r2.args@,
{
}

/// A failed spawn's message is surfaced to the caller unchanged: the reply
/// owed for it is an error carrying the operating system's message, so the
/// reply's message is non-empty whenever the system's is.
pub proof fn lemma_failure_surfaced(outcome: SpawnOutcome)
    requires
        outcome is Failed,
    ensures
        reply_of(outcome) is Err,
        reply_of(outcome)->Err_0 == outcome->message@,
        outcome->message@.len() > 0 ==> reply_of(outcome)->Err_0.len() > 0,
{
}

} // verus!
