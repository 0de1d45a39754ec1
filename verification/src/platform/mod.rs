//! What differs between operating systems: how the daemon and its clients reach
//! each other, and how a daemon makes sure that it is the only one.

pub mod linux;
pub mod windows;

use crate::daemon::{dispatch, reply_to};
use crate::error::{ErrorView, Result};
use crate::ipc::{ClientMsg, DaemonReply};
use crate::model::WakeStatus;
use vstd::prelude::*;

verus! {

/// The operating system family a program is built for.
#[derive(Debug, Clone, Copy, PartialEq, Eq, Structural)]
pub enum Platform {
    /// Linux.
    Linux,
    /// Windows.
    Windows,
    /// Anything else: no backend, no runtime directory.
    Unsupported,
}

/// What a result says, its error by its view.
pub open spec fn outcome<T>(r: Result<T>) -> core::result::Result<T, ErrorView> {
    match r {
        Ok(v) => Ok(v),
        Err(e) => Err(e@),
    }
}

/// The claim to be the only daemon. The program keeps the locked file beside it;
/// closing that gives the claim up, and so does the end of the process.
#[derive(Debug)]
pub struct SingletonLock {
    token: (),
}

impl SingletonLock {
    /// The claim of a process that has just locked the file.
    pub(crate) fn claimed() -> (r: SingletonLock) {
        SingletonLock { token: () }
    }
}

/// What the daemon does with a connection.
#[derive(Debug)]
pub enum Exchange {
    /// Drop it: no message could be read.
    Drop,
    /// Send this reply, as far as the client still listens; then stop serving if
    /// `stop` is set.
    Reply {
        /// The reply.
        reply: DaemonReply,
        /// Whether the message was `Stop`.
        stop: bool,
    },
}

/// What the daemon does with a connection, given what reading one message from
/// it came to. Whatever went wrong, the connection is dropped and nothing else
/// happens.
pub fn handle_connection(read: Result<ClientMsg>, status: &WakeStatus, pid: u32) -> (r: Exchange)
    ensures
        match read {
            Ok(msg) => r is Reply && r->reply@ == reply_to(msg, status@, pid) && r->stop == (msg
                == ClientMsg::Stop),
            Err(_) => r is Drop,
        },
{
    match read {
        Ok(msg) => {
            let stop = msg == ClientMsg::Stop;
            Exchange::Reply { reply: dispatch(msg, status, pid), stop }
        },
        Err(_) => Exchange::Drop,
    }
}

} // verus!
