//! Child-exit observation core for a pseudoterminal (PTY) process facility.
//!
//! A host runtime that embeds this library may install its own process-wide
//! SIGCHLD handler and reap every child with `waitpid(-1, ..)`. The modules
//! here prove the logic that still lets a caller retrieve the exit code of a
//! child it spawned under that race: a fixed-capacity registry of tracked
//! PIDs with cached exit statuses, the encoding and decoding of `waitpid`
//! status words, and the wait / kill / close decision protocols that combine
//! the cache, the registry, direct reaping and a liveness probe into a
//! deterministic answer.
//!
//! The library performs no system call itself: the surrounding program opens
//! the PTY, spawns the child, runs the signal handler and issues `waitpid`,
//! `kill` and the PTY operations, and feeds every outcome back in as a plain
//! value. Every decision taken on those values is verified here.

use vstd::prelude::*;

pub mod handle;
pub mod protocol;
pub mod registry;
pub mod spawn;
pub mod status;

verus! {

/// Result kinds of the PTY surface: success plus a closed set of error kinds.
///
/// The order of the variants matches the numeric codes of the C interface,
/// which the unverified surface assigns when it marshals a result.
#[derive(Clone, Copy, Debug, PartialEq, Eq, Structural)]
pub enum PortablePtyResult {
    Okay,
    ErrOpen,
    ErrSpawn,
    ErrResize,
    ErrRead,
    ErrWrite,
    ErrNull,
    ErrWait,
    ErrKill,
    ErrMode,
    ErrSize,
    ErrWaitBlocking,
    ErrProcessGroup,
}

} // verus!
