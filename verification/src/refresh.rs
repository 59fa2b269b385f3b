//! Refreshing the file database: the answers given when the indexing
//! program cannot be started, and how its output is relayed.

use vstd::prelude::*;
use crate::reply::{reply, reply_is, reply_with, IoFailure, Reply, Status};

verus! {

/// The program that rebuilds the file database.
pub fn file_searcher_daemon() -> (r: &'static str)
    ensures
        r@ == "/home/ray/MEGA/Rays/Programming/rust/filesearcher-deamon-v5/target/release/file_searcher_deamon_v5"@,
{
    "/home/ray/MEGA/Rays/Programming/rust/filesearcher-deamon-v5/target/release/file_searcher_deamon_v5"
}

/// The size of the chunks in which the program's output is read and relayed.
pub const RELAY_CHUNK: usize = 32;

/// The answer when the program could not be started.
pub fn refresh_spawn_failed(e: &IoFailure) -> (r: Reply)
    ensures
        reply_is(
            r,
            Status::InternalServerError,
            "failed to spawn file_searcher_deamon_v5: "@ + e.description@,
        ),
{
    reply_with(
        Status::InternalServerError,
        "failed to spawn file_searcher_deamon_v5: ",
        e.description.as_str(),
    )
}

/// The answer when the program's output could not be captured.
pub fn refresh_stdout_missing() -> (r: Reply)
    ensures
        reply_is(
            r,
            Status::InternalServerError,
            "failed to capture stdout from file_searcher_deamon_v5"@,
        ),
{
    reply(Status::InternalServerError, "failed to capture stdout from file_searcher_deamon_v5")
}

/// The answer that relays the program's output while it runs: its status
/// and the values of its `Content-Type` and `Connection` headers.
#[derive(Debug, Clone, Copy)]
pub struct RelayReply {
    pub status: Status,
    pub content_type: &'static str,
    pub connection: &'static str,
}

/// The answer given once the program runs and its output is captured:
/// 200, plain UTF-8 text, and the connection closed at the end.
pub fn refresh_started() -> (r: RelayReply)
    ensures
        r.status == Status::Success,
        r.content_type@ == "text/plain; charset=utf-8"@,
        r.connection@ == "close"@,
{
    RelayReply {
        status: Status::Success,
        content_type: "text/plain; charset=utf-8",
        connection: "close",
    }
}

/// What to do after reading from the program's output.
#[derive(Debug, Clone, Copy, PartialEq, Eq, Structural)]
pub enum RelayStep {
    /// Pass on the first this many bytes that were read, then read again.
    Forward(usize),
    /// Stop relaying.
    Stop,
}

/// Decides what to do with the outcome of one read of the program's output:
/// the end of the output or a read failure stops the relay; anything read
/// is passed on.
pub fn relay_step(read: Result<usize, IoFailure>) -> (r: RelayStep)
    ensures
        match read {
            Ok(n) => if n == 0 {
                r == RelayStep::Stop
            } else {
                r == RelayStep::Forward(n)
            },
            Err(_) => r == RelayStep::Stop,
        },
{
    match read {
        Ok(n) => if n == 0 {
            RelayStep::Stop
        } else {
            RelayStep::Forward(n)
        },
        Err(_) => RelayStep::Stop,
    }
}

} // verus!
