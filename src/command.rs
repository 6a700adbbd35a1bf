use vstd::prelude::*;
use vstd::hash_map::StringHashMap;
use vstd::string::*;
use std::sync::Arc;
use crate::reply::{
    bulk_text, get_arity_reply, get_arity_text, nil_text, ok_reply, ok_text, set_arity_reply, set_arity_text,
    unknown_reply, unknown_text, value_reply, value_text,
};
use crate::request::{upper_text, uppercase, views};
use crate::storage::{after_writes, lemma_get_after_set, lookup, Storage};

verus! {

/// The store's contents: what each key maps to.
pub type Contents = Map<Seq<char>, Seq<char>>;

/// What `GET` does with `args` on a store holding `m`: the reply; the store
/// is left as it was.
pub open spec fn get_outcome(args: Seq<Seq<char>>, m: Contents) -> Seq<char> {
    if args.len() != 1 {
        get_arity_text()
    } else {
        value_text(lookup(m, args[0]))
    }
}

/// What `SET` does with `args` on a store holding `m`: the reply, and the
/// store's contents afterwards.
pub open spec fn set_outcome(args: Seq<Seq<char>>, m: Contents) -> (Seq<char>, Contents) {
    if args.len() != 2 {
        (set_arity_text(), m)
    } else {
        (ok_text(), m.insert(args[0], args[1]))
    }
}

/// An operation on the store, run on the arguments of one request.
pub trait Command: Send + Sync {
    /// The reply to `args` on a store holding `before`, and what the store
    /// holds afterwards.
    spec fn effect(&self, args: Seq<Seq<char>>, before: Contents) -> (Seq<char>, Contents);

    fn execute(&self, args: Vec<String>, storage: &mut Storage) -> (r: String)
        ensures
            (r@, final(storage)@) == self.effect(views(args@), old(storage)@),
    ;
}

/// `GET key`: the value stored under the key.
pub struct GetCommand;

impl Command for GetCommand {
    open spec fn effect(&self, args: Seq<Seq<char>>, before: Contents) -> (Seq<char>, Contents) {
        (get_outcome(args, before), before)
    }

    fn execute(&self, args: Vec<String>, storage: &mut Storage) -> (r: String) {
        if args.len() != 1 {
            return get_arity_reply();
        }
        let value = storage.get(args[0].as_str());
        value_reply(value)
    }
}

/// `SET key value`: stores the value under the key.
pub struct SetCommand;

impl Command for SetCommand {
    open spec fn effect(&self, args: Seq<Seq<char>>, before: Contents) -> (Seq<char>, Contents) {
        set_outcome(args, before)
    }

    fn execute(&self, args: Vec<String>, storage: &mut Storage) -> (r: String) {
        if args.len() != 2 {
            return set_arity_reply();
        }
        let key = args[0].clone();
        let value = args[1].clone();
        storage.set(key, value);
        ok_reply()
    }
}

/// The commands that a registry can hold.
#[derive(Clone, Copy, Debug)]
pub enum CommandKind {
    GetKey,
    SetKey,
}

impl Command for CommandKind {
    open spec fn effect(&self, args: Seq<Seq<char>>, before: Contents) -> (Seq<char>, Contents) {
        match self {
            CommandKind::GetKey => (get_outcome(args, before), before),
            CommandKind::SetKey => set_outcome(args, before),
        }
    }

    fn execute(&self, args: Vec<String>, storage: &mut Storage) -> (r: String) {
        match self {
            CommandKind::GetKey => GetCommand.execute(args, storage),
            CommandKind::SetKey => SetCommand.execute(args, storage),
        }
    }
}

/// The registry that every server starts with.
pub open spec fn standard_commands() -> Map<Seq<char>, CommandKind> {
    map!["GET"@ => CommandKind::GetKey, "SET"@ => CommandKind::SetKey]
}

/// The commands that requests can name, each under its uppercase name.
pub struct CommandRegistry {
    commands: StringHashMap<CommandKind>,
}

impl View for CommandRegistry {
    type V = Map<Seq<char>, CommandKind>;

    closed spec fn view(&self) -> Map<Seq<char>, CommandKind> {
        self.commands@
    }
}

impl CommandRegistry {
    pub fn new() -> (r: Self)
        ensures
            r@ == standard_commands(),
    {
        let mut commands = StringHashMap::new();
        commands.insert(String::from_str("GET"), CommandKind::GetKey);
        commands.insert(String::from_str("SET"), CommandKind::SetKey);
        CommandRegistry { commands }
    }

    /// The command that `name` resolves to: the one registered under its
    /// uppercase form.
    pub open spec fn resolve(&self, name: Seq<char>) -> Option<CommandKind> {
        self.entry(upper_text(name))
    }

    /// The command registered under exactly `key`.
    pub open spec fn entry(&self, key: Seq<char>) -> Option<CommandKind> {
        if self@.contains_key(key) {
            Some(self@[key])
        } else {
            None
        }
    }

    /// The command registered under `key`, which is already in uppercase.
    pub fn get_registered(&self, key: &str) -> (r: Option<CommandKind>)
        ensures
            r == self.entry(key@),
    {
        match self.commands.get(key) {
            Some(c) => Some(*c),
            None => None,
        }
    }

    /// The command that `name` resolves to, whatever its case.
    pub fn get_command(&self, name: &str) -> (r: Option<CommandKind>)
        ensures
            r == self.resolve(name@),
    {
        let key = uppercase(name);
        self.get_registered(key.as_str())
    }
}

/// What a request does once its name has resolved to `command`: the reply,
/// and the store's contents afterwards.
pub open spec fn dispatch_outcome(
    command: Option<CommandKind>,
    name: Seq<char>,
    args: Seq<Seq<char>>,
    before: Contents,
) -> (Seq<char>, Contents) {
    match command {
        Some(c) => c.effect(args, before),
        None => (unknown_text(name), before),
    }
}

/// Runs the command that a request's name resolved to, or replies that the
/// name is unknown and leaves the store alone.
pub fn dispatch(command: Option<CommandKind>, command_name: &str, args: Vec<String>, storage: &mut Storage) -> (r: String)
    ensures
        (r@, final(storage)@) == dispatch_outcome(command, command_name@, views(args@), old(storage)@),
{
    match command {
        Some(c) => c.execute(args, storage),
        None => unknown_reply(command_name),
    }
}

/// Runs one request against the store: the command registered under the
/// uppercase form of `command_name`, or the unknown-command error, which
/// names the command as it was passed in.
pub fn execute_command(command_name: String, args: Vec<String>, storage: &mut Storage, registry: Arc<CommandRegistry>) -> (r: String)
    ensures
        (r@, final(storage)@) == dispatch_outcome(
            registry.resolve(command_name@),
            command_name@,
            views(args@),
            old(storage)@,
        ),
{
    let command = registry.get_command(command_name.as_str());
    dispatch(command, command_name.as_str(), args, storage)
}

/// A key that the store does not hold reads as absent, and `GET` of it
/// replies with the nil reply.
pub proof fn lemma_get_unset_is_nil(m: Contents, k: Seq<char>)
    requires
        !m.contains_key(k),
    ensures
        lookup(m, k) is None,
        get_outcome(seq![k], m) == nil_text(),
{
}

/// Names that differ only in case resolve to the same command.
pub proof fn lemma_resolve_ignores_case(registry: CommandRegistry, a: Seq<char>, b: Seq<char>)
    requires
        upper_text(a) == upper_text(b),
    ensures
        registry.resolve(a) == registry.resolve(b),
{
}

/// After `SET k v`, `GET k` replies with the bulk reply of `v`, and keeps
/// doing so while later `SET`s name other keys.
pub proof fn lemma_set_then_get(
    m: Contents,
    k: Seq<char>,
    v: Seq<char>,
    ws: Seq<(Seq<char>, Seq<char>)>,
)
    requires
        forall|i: int| 0 <= i < ws.len() ==> (#[trigger] ws[i]).0 != k,
    ensures
        set_outcome(seq![k, v], m).0 == ok_text(),
        get_outcome(seq![k], after_writes(set_outcome(seq![k, v], m).1, ws)) == bulk_text(v),
{
    lemma_get_after_set(m, k, v, ws);
}

} // verus!
