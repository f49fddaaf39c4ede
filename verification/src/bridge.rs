//! The command bridge: a static dispatch table from command names to native
//! handlers. The front-end addresses a command by name; the bridge looks the
//! name up, runs the matching handler synchronously, and returns its value,
//! or rejects the invocation when no command bears that name.

use crate::secret::{get_secret, SecretResolver};
use vstd::prelude::*;

verus! {

/// A native handler: a zero-argument operation returning one string.
/// The one capability of this host is delivering the build-bound secret.
#[derive(Clone, Copy, PartialEq, Eq, Structural, Debug)]
pub enum Handler {
    GetSecret,
}

/// The runtime error: an invocation named a command absent from the dispatch
/// table. It is returned to the caller, never raised as a crash.
#[derive(Clone, Copy, PartialEq, Eq, Structural, Debug)]
pub enum InvokeError {
    UnknownCommand,
}

/// The configuration error: a registration would bind a name that the
/// dispatch table already holds. Command names must be unique.
#[derive(Clone, Copy, PartialEq, Eq, Structural, Debug)]
pub enum RegistrationError {
    DuplicateCommandName,
}

/// The string a handler returns, as a function of the build-bound secret.
/// Handlers are pure: no other state can enter the result.
pub open spec fn handler_value(secret: Seq<char>, h: Handler) -> Seq<char> {
    match h {
        Handler::GetSecret => secret,
    }
}

/// The outcome of one invocation, determined by the dispatch table, the
/// build-bound secret and the invoked name alone: the matched handler's
/// value, or the unknown-command rejection.
pub open spec fn dispatch_result(
    table: Map<Seq<char>, Handler>,
    secret: Seq<char>,
    name: Seq<char>,
) -> Result<Seq<char>, InvokeError> {
    if table.dom().contains(name) {
        Ok(handler_value(secret, table[name]))
    } else {
        Err(InvokeError::UnknownCommand)
    }
}

/// The abstract content of a response: the returned string's characters, or
/// the error as it stands.
pub open spec fn response_view(r: Result<String, InvokeError>) -> Result<Seq<char>, InvokeError> {
    match r {
        Ok(v) => Ok(v@),
        Err(e) => Err(e),
    }
}

/// One registered command: a unique name and the handler it addresses.
struct Command {
    name: String,
    handler: Handler,
}

/// The dispatch table that a sequence of registrations builds: later
/// registrations of a name would shadow earlier ones, which well-formedness
/// rules out.
spec fn table_of(cmds: Seq<Command>) -> Map<Seq<char>, Handler>
    decreases cmds.len(),
{
    if cmds.len() == 0 {
        Map::empty()
    } else {
        table_of(cmds.drop_last()).insert(cmds.last().name@, cmds.last().handler)
    }
}

/// A name that no command bears is absent from the table.
proof fn lemma_table_of_absent(cmds: Seq<Command>, name: Seq<char>)
    requires
        forall|j: int| 0 <= j < cmds.len() ==> cmds[j].name@ != name,
    ensures
        !table_of(cmds).dom().contains(name),
    decreases cmds.len(),
{
    if cmds.len() > 0 {
        lemma_table_of_absent(cmds.drop_last(), name);
    }
}

/// With unique names, each command's name maps to exactly its handler.
proof fn lemma_table_of_found(cmds: Seq<Command>, i: int)
    requires
        0 <= i < cmds.len(),
        forall|j: int, k: int| 0 <= j < k < cmds.len() ==> cmds[j].name@ != cmds[k].name@,
    ensures
        table_of(cmds).contains_pair(cmds[i].name@, cmds[i].handler),
    decreases cmds.len(),
{
    if i < cmds.len() - 1 {
        lemma_table_of_found(cmds.drop_last(), i);
        assert(cmds[i].name@ != cmds[cmds.len() - 1].name@);
    }
}

/// The command bridge: the host's complete capability surface. It holds the
/// secret resolver and the static table of registered commands, and has no
/// state of its own that an invocation could change.
pub struct Bridge {
    resolver: SecretResolver,
    commands: Vec<Command>,
}

impl Bridge {
    /// The dispatch table: which handler each registered name addresses.
    pub closed spec fn table(&self) -> Map<Seq<char>, Handler> {
        table_of(self.commands@)
    }

    /// The secret bound into this build.
    pub closed spec fn secret(&self) -> Seq<char> {
        self.resolver@
    }

    /// Well-formed: every registered name is unique within the table.
    pub closed spec fn wf(&self) -> bool {
        forall|j: int, k: int|
            0 <= j < k < self.commands@.len() ==> self.commands@[j].name@ != self.commands@[k].name@
    }

    /// A bridge over the build's resolver with no command registered yet.
    pub fn new(resolver: SecretResolver) -> (b: Bridge)
        ensures
            b.wf(),
            b.secret() == resolver@,
            b.table() == Map::<Seq<char>, Handler>::empty(),
    {
        let b = Bridge { resolver, commands: Vec::new() };
        proof {
            assert(b.table() =~= Map::<Seq<char>, Handler>::empty());
        }
        b
    }

    /// Whether some registered command bears this name.
    fn contains_name(&self, name: &String) -> (r: bool)
        ensures
            r == exists|j: int| 0 <= j < self.commands@.len() && self.commands@[j].name@ == name@,
    {
        let mut i: usize = 0;
        while i < self.commands.len()
            invariant
                i <= self.commands@.len(),
                forall|j: int| 0 <= j < i ==> self.commands@[j].name@ != name@,
            decreases self.commands@.len() - i,
        {
            if self.commands[i].name == *name {
                return true;
            }
            i += 1;
        }
        false
    }

    /// Registration, part of building the capability surface: binds a name to
    /// a handler, and rejects a name the table already holds, leaving the
    /// bridge unchanged. All registration happens before the bridge serves.
    pub fn register(&mut self, name: String, handler: Handler) -> (r: Result<
        (),
        RegistrationError,
    >)
        requires
            old(self).wf(),
        ensures
            final(self).wf(),
            final(self).secret() == old(self).secret(),
            match r {
                Ok(u) => !old(self).table().dom().contains(name@) && final(self).table()
                    == old(self).table().insert(name@, handler),
                Err(e) => old(self).table().dom().contains(name@) && e
                    == RegistrationError::DuplicateCommandName && *final(self) == *old(self),
            },
    {
        if self.contains_name(&name) {
            proof {
                let j = choose|j: int|
                    0 <= j < self.commands@.len() && self.commands@[j].name@ == name@;
                lemma_table_of_found(self.commands@, j);
            }
            return Err(RegistrationError::DuplicateCommandName);
        }
        proof {
            lemma_table_of_absent(self.commands@, name@);
        }
        let ghost before = self.commands@;
        self.commands.push(Command { name, handler });
        proof {
            assert(self.commands@.drop_last() =~= before);
            assert(self.table() =~= table_of(before).insert(self.commands@.last().name@,
                self.commands@.last().handler));
        }
        Ok(())
    }

    /// One invocation: looks the name up in the table, runs the matched
    /// handler synchronously and returns its value; an unregistered name is
    /// rejected as unknown, and the process never crashes or hangs.
    pub fn dispatch(&self, name: &str) -> (r: Result<String, InvokeError>)
        requires
            self.wf(),
        ensures
            response_view(r) == dispatch_result(self.table(), self.secret(), name@),
    {
        let requested: String = name.to_owned();
        let mut i: usize = 0;
        while i < self.commands.len()
            invariant
                i <= self.commands@.len(),
                forall|j: int| 0 <= j < i ==> self.commands@[j].name@ != name@,
                requested@ == name@,
                self.wf(),
            decreases self.commands@.len() - i,
        {
            if self.commands[i].name == requested {
                proof {
                    lemma_table_of_found(self.commands@, i as int);
                }
                let value = match self.commands[i].handler {
                    Handler::GetSecret => get_secret(&self.resolver),
                };
                return Ok(value);
            }
            i += 1;
        }
        proof {
            lemma_table_of_absent(self.commands@, name@);
        }
        Err(InvokeError::UnknownCommand)
    }

    /// The host's standard wiring: a bridge whose table binds exactly the one
    /// name `get_secret` to the handler that delivers the build-bound secret.
    pub fn with_get_secret(resolver: SecretResolver) -> (b: Bridge)
        ensures
            b.wf(),
            b.secret() == resolver@,
            b.table() == Map::<Seq<char>, Handler>::empty().insert(
                "get_secret"@,
                Handler::GetSecret,
            ),
    {
        let mut b = Bridge::new(resolver);
        let registered = b.register("get_secret".to_owned(), Handler::GetSecret);
        proof {
            assert(registered is Ok);
        }
        b
    }

    /// Serves one request/response cycle: dispatches the named command and
    /// hands its value, or the rejection, back across the boundary.
    pub fn handle(&self, request: &InvocationRequest) -> (r: Result<String, InvokeError>)
        requires
            self.wf(),
        ensures
            response_view(r) == dispatch_result(self.table(), self.secret(), request.command@),
    {
        self.dispatch(request.command.as_str())
    }
}

/// One invocation request from the front-end, ephemeral: the addressed
/// command's name. The one registered command takes no arguments, so the
/// request carries none.
pub struct InvocationRequest {
    /// The name of the command the front-end addresses.
    pub command: String,
}

/// An invocation's outcome is a function of the bridge's immutable state and
/// the invoked name alone, so repeating an invocation within one process
/// lifetime returns the identical response every time.
pub proof fn lemma_dispatch_deterministic(
    b: Bridge,
    name: Seq<char>,
    r1: Result<Seq<char>, InvokeError>,
    r2: Result<Seq<char>, InvokeError>,
)
    requires
        r1 == dispatch_result(b.table(), b.secret(), name),
        r2 == dispatch_result(b.table(), b.secret(), name),
    ensures
        r1 == r2,
{
}

/// What the standard bridge answers: the registered name returns the
/// build-bound secret verbatim, and every other name is rejected with the
/// unknown-command error, never a crash.
pub proof fn lemma_standard_bridge_responses(b: Bridge, name: Seq<char>)
    requires
        b.table() == Map::<Seq<char>, Handler>::empty().insert("get_secret"@, Handler::GetSecret),
    ensures
        name == "get_secret"@ ==> dispatch_result(b.table(), b.secret(), name) == Ok::<
            Seq<char>,
            InvokeError,
        >(b.secret()),
        name != "get_secret"@ ==> dispatch_result(b.table(), b.secret(), name) == Err::<
            Seq<char>,
            InvokeError,
        >(InvokeError::UnknownCommand),
{
}

} // verus!
