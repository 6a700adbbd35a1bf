use vstd::prelude::*;
use std::sync::Arc;
use crate::command::{dispatch_outcome, execute_command, CommandRegistry, Contents};
use crate::request::{lossy_text, parse_request, request_args, request_name, tokens};
use crate::storage::Storage;

verus! {

/// How many bytes one read of a connection takes at most; a request is
/// whatever a single read returns.
pub const READ_BUFFER_LEN: usize = 1024;

/// Where a connection stands.
#[derive(Clone, Copy, Debug, PartialEq, Eq, Structural)]
pub enum ConnectionState {
    /// Waiting for the client's next bytes.
    Reading,
    /// Done: the client went away or the transport failed.
    Closed,
}

/// What one read of the connection gave.
pub enum ReadOutcome {
    /// The bytes that arrived; none means the client closed the stream.
    Bytes(Vec<u8>),
    /// The read failed.
    Failed,
}

/// What the connection does next.
pub enum Action {
    /// Write the whole reply, then read again.
    Reply(String),
    /// Stop serving the connection.
    Close,
}

/// What a request made of `bytes` does on a store holding `before`: the
/// reply, and the store's contents afterwards.
pub open spec fn request_outcome(registry: CommandRegistry, bytes: Seq<u8>, before: Contents) -> (
    Seq<char>,
    Contents,
) {
    let t = tokens(lossy_text(bytes));
    dispatch_outcome(registry.resolve(request_name(t)), request_name(t), request_args(t), before)
}

/// One step of a connection that is reading: a read that brought bytes is
/// run as one request on the store and its reply is written back; an empty
/// read or a failed one closes the connection and leaves the store alone.
pub fn on_read(outcome: ReadOutcome, storage: &mut Storage, registry: Arc<CommandRegistry>) -> (r: (
    ConnectionState,
    Action,
))
    ensures
        match outcome {
            ReadOutcome::Bytes(b) if b@.len() > 0 => {
                &&& r.0 == ConnectionState::Reading
                &&& r.1 matches Action::Reply(reply)
                &&& (reply@, final(storage)@) == request_outcome(*registry, b@, old(storage)@)
            },
            _ => {
                &&& r.0 == ConnectionState::Closed
                &&& r.1 matches Action::Close
                &&& final(storage)@ == old(storage)@
            },
        },
{
    match outcome {
        ReadOutcome::Bytes(b) => {
            if b.len() == 0 {
                (ConnectionState::Closed, Action::Close)
            } else {
                let (name, args) = parse_request(b.as_slice());
                let reply = execute_command(name, args, storage, registry);
                (ConnectionState::Reading, Action::Reply(reply))
            }
        },
        ReadOutcome::Failed => (ConnectionState::Closed, Action::Close),
    }
}

} // verus!
