//! What can go wrong while a temporary server or database is set up, used
//! and torn down.

use vstd::prelude::*;

verus! {

/// One failed step. Each variant carries what the collaborator reported.
#[derive(Clone, Debug, PartialEq, Eq)]
pub enum Error {
    /// The container could not be created.
    ContainerCreationFailed(String),
    /// The container was created but did not start.
    ContainerStartFailed(String),
    /// The port under which the server can be reached was not found: the
    /// listing failed with this error, or, with `None`, it held no such port.
    PortDiscoveryFailed(Option<String>),
    /// The server accepted no connection within the attempts allowed; holds
    /// the error of the last attempt.
    ConnectionTimeout(String),
    /// The database refused a connection or a statement.
    DatabaseProtocolError(String),
    /// A teardown step failed.
    CleanupFailed(String),
}

/// The failure of one run: the earliest error, and what the two teardown
/// steps reported after it. A teardown error never takes the place of an
/// earlier one; where teardown is the first thing to fail, its error is
/// `error` itself.
#[derive(Clone, Debug, PartialEq, Eq)]
pub struct Failure {
    pub error: Error,
    /// Failure of the inner teardown step (drop database, stop container),
    /// where it came after `error`.
    pub inner_cleanup: Option<Error>,
    /// Failure of the outer teardown step (drop role, remove container),
    /// where it came after `error`.
    pub outer_cleanup: Option<Error>,
}

/// Which of the two teardown steps a report is about.
#[derive(Clone, Copy, Debug, PartialEq, Eq, Structural)]
pub enum CleanupStep {
    Inner,
    Outer,
}

impl Failure {
    /// A failure with nothing reported after it.
    pub open spec fn spec_first(error: Error) -> Failure {
        Failure { error, inner_cleanup: None, outer_cleanup: None }
    }

    /// A failure with nothing reported after it.
    pub fn first(error: Error) -> (failure: Failure)
        ensures
            failure == Failure::spec_first(error),
    {
        Failure { error, inner_cleanup: None, outer_cleanup: None }
    }
}

/// The failure on record once teardown step `step` has failed with `message`:
/// an earlier failure keeps its place and has the teardown error attached;
/// with none on record the teardown error becomes the failure.
pub open spec fn spec_record_cleanup(
    earlier: Option<Failure>,
    step: CleanupStep,
    message: String,
) -> Failure {
    match earlier {
        None => Failure::spec_first(Error::CleanupFailed(message)),
        Some(failure) => match step {
            CleanupStep::Inner => Failure {
                inner_cleanup: Some(Error::CleanupFailed(message)),
                ..failure
            },
            CleanupStep::Outer => Failure {
                outer_cleanup: Some(Error::CleanupFailed(message)),
                ..failure
            },
        },
    }
}

/// Puts a failed teardown step on record without displacing what failed
/// before it.
pub fn record_cleanup(earlier: Option<Failure>, step: CleanupStep, message: String) -> (failure:
    Failure)
    ensures
        failure == spec_record_cleanup(earlier, step, message),
        earlier is Some ==> failure.error == earlier->0.error,
{
    match earlier {
        None => Failure::first(Error::CleanupFailed(message)),
        Some(failure) => match step {
            CleanupStep::Inner => Failure {
                error: failure.error,
                inner_cleanup: Some(Error::CleanupFailed(message)),
                outer_cleanup: failure.outer_cleanup,
            },
            CleanupStep::Outer => Failure {
                error: failure.error,
                inner_cleanup: failure.inner_cleanup,
                outer_cleanup: Some(Error::CleanupFailed(message)),
            },
        },
    }
}

/// What a run hands back: the task's value where nothing failed, else the
/// failure. The value of a task is given up only to a failure.
pub open spec fn spec_conclude<T>(value: Option<T>, failure: Option<Failure>) -> Option<
    Result<T, Failure>,
> {
    match failure {
        Some(f) => Some(Err(f)),
        None => match value {
            Some(v) => Some(Ok(v)),
            None => None,
        },
    }
}

} // verus!
