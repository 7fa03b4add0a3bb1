//! The shell's command-dispatch table: which invokable commands application
//! bootstrap registers, and how an invocation dispatched by name resolves.

use vstd::prelude::*;
use crate::launcher::{SpawnOutcome, command_reply, reply_of, reply_view};

verus! {

/// The name under which the launcher command is registered with the shell.
pub open spec fn launch_command_name() -> Seq<char> {
    "launch_engine"@
}

/// The shell's dispatch table: the names of the registered invokable
/// commands, in registration order.
pub struct CommandRegistry {
    names: Vec<String>,
}

impl View for CommandRegistry {
    type V = Seq<Seq<char>>;

    closed spec fn view(&self) -> Seq<Seq<char>> {
        self.names@.map_values(|n: String| n@)
    }
}

impl CommandRegistry {
    /// An empty table: nothing registered, nothing invokable.
    pub fn new() -> (r: Self)
        ensures
            r@ =~= Seq::<Seq<char>>::empty(),
    {
        CommandRegistry { names: Vec::new() }
    }

    /// Register one more invokable command under the given name.
    pub fn register(&mut self, name: String)
        ensures
            final(self)@ =~= old(self)@.push(name@),
    {
        self.names.push(name);
    }

    /// How many commands are registered.
    pub fn command_count(&self) -> (n: usize)
        ensures
            n == self@.len(),
    {
        self.names.len()
    }

    /// Whether an invocation of the given name would reach a registered
    /// command.
    pub fn is_invokable(&self, name: &String) -> (b: bool)
        ensures
            b == self@.contains(name@),
    {
        let mut i: usize = 0;
        while i < self.names.len()
            invariant
                i <= self.names.len(),
                self@.len() == self.names@.len(),
                forall|j: int| 0 <= j < self.names@.len() ==> self@[j] == self.names@[j]@,
                forall|j: int| 0 <= j < i ==> self@[j] != name@,
            decreases self.names.len() - i,
        {
            if self.names[i] == *name {
                assert(self@[i as int] == name@);
                return true;
            }
            i += 1;
        }
        assert(forall|j: int| 0 <= j < self@.len() ==> self@[j] != name@);
        false
    }

    /// Resolve one invocation dispatched by the shell. A name reaches the
    /// launcher exactly when it is registered and is the launcher's; the
    /// launcher then resolves the spawn outcome into the reply. Any other
    /// name reaches no command and yields no reply.
    pub fn dispatch(&self, name: &String, outcome: SpawnOutcome) -> (r: Option<Result<(), String>>)
        ensures
            (r is Some) == (self@.contains(name@) && name@ == launch_command_name()),
            r is Some ==> reply_view(r->Some_0) == reply_of(outcome),
    {
        let launcher_name: String = "launch_engine".to_owned();
        if self.is_invokable(name) && *name == launcher_name {
            Some(command_reply(outcome))
        } else {
            None
        }
    }
}

/// Build the shell's dispatch table as application bootstrap does: register
/// the launcher command and nothing else.
pub fn bootstrap_registry() -> (r: CommandRegistry)
    ensures
        r@ =~= seq![launch_command_name()],
{
    let mut r = CommandRegistry::new();
    r.register("launch_engine".to_owned());
    r
}

/// Bootstrap registers exactly one invokable command: under the table it
/// builds, the table holds one entry, and a name is invokable if and only
/// if it is the launcher command's name.
pub proof fn lemma_sole_command(table: Seq<Seq<char>>, name: Seq<char>)
    requires
        table =~= seq![launch_command_name()],
    ensures
        table.len() == 1,
        table.contains(name) <==> name == launch_command_name(),
{
    if name == launch_command_name() {
        assert(table[0] == name);
    }
}

} // verus!
