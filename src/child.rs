use vstd::prelude::*;

use crate::error::PtyError;

verus! {

/// The status that the OS reports for a process that has not exited yet.
pub const STILL_ACTIVE: u32 = 259;

/// The exit code that a forced termination gives the process.
pub const KILLED_EXIT_CODE: u32 = 1;

/// The terminal result of a process: its raw exit code.
#[derive(Clone, Copy, Debug, PartialEq, Eq, Structural)]
pub struct ExitStatus {
    pub status: u32,
}

impl ExitStatus {
    /// The raw exit code.
    pub fn code(&self) -> (r: u32)
        ensures
            r == self.status,
    {
        self.status
    }

    /// Whether the process exited with code zero.
    pub fn success(&self) -> (r: bool)
        ensures
            r == (self.status == 0),
    {
        self.status == 0
    }
}

/// A spawned process: its handle value and the exit status, once seen.
///
/// The status query of the OS reaches these methods as a `Result`: `Ok` with
/// the reported code, or `Err` with the OS error of a failed query.
#[derive(Debug)]
pub struct Child {
    process: usize,
    exited: Option<ExitStatus>,
}

/// What `try_wait` returns on a child, given the query report: a status
/// seen earlier; else `None` while the process still runs, its status once
/// it has exited, or the error of a failed query.
pub open spec fn poll_result(seen: Option<ExitStatus>, report: Result<u32, u32>) -> Result<Option<ExitStatus>, PtyError> {
    match seen {
        Some(s) => Ok(Some(s)),
        None => match report {
            Ok(code) => if code == STILL_ACTIVE {
                Ok(None)
            } else {
                Ok(Some(ExitStatus { status: code }))
            },
            Err(code) => Err(PtyError::StatusQuery { code }),
        },
    }
}

/// The status a child remembers once `try_wait` gave `r`.
pub open spec fn seen_after_poll(seen: Option<ExitStatus>, r: Result<Option<ExitStatus>, PtyError>) -> Option<ExitStatus> {
    match r {
        Ok(Some(s)) => Some(s),
        _ => seen,
    }
}

/// What `wait` returns on a child, given the report of the query made after
/// the process was waited for.
pub open spec fn wait_result(seen: Option<ExitStatus>, report: Result<u32, u32>) -> Result<ExitStatus, PtyError> {
    match seen {
        Some(s) => Ok(s),
        None => match report {
            Ok(code) => Ok(ExitStatus { status: code }),
            Err(code) => Err(PtyError::StatusQuery { code }),
        },
    }
}

/// The status a child remembers once `wait` gave `r`.
pub open spec fn seen_after_wait(seen: Option<ExitStatus>, r: Result<ExitStatus, PtyError>) -> Option<ExitStatus> {
    match r {
        Ok(s) => Some(s),
        Err(_) => seen,
    }
}

impl Child {
    /// The handle value of the process.
    pub closed spec fn process_spec(&self) -> usize {
        self.process
    }

    /// The exit status observed so far, if any.
    pub closed spec fn exit_seen(&self) -> Option<ExitStatus> {
        self.exited
    }

    /// A child for a freshly created process, not yet seen to exit.
    pub fn from_process(process: usize) -> (r: Child)
        ensures
            r.process_spec() == process,
            r.exit_seen() is None,
    {
        Child { process, exited: None }
    }

    /// The handle value of the process.
    pub fn process(&self) -> (r: usize)
        ensures
            r == self.process_spec(),
    {
        self.process
    }

    /// The exit status observed so far, if any.
    pub fn exited(&self) -> (r: Option<ExitStatus>)
        ensures
            r == self.exit_seen(),
    {
        self.exited
    }

    /// Non-blocking poll: `None` while the process runs, else its status.
    /// Once an exit has been seen, it is reported again whatever the query
    /// says; before that, a failed query is an error.
    pub fn try_wait(&mut self, report: Result<u32, u32>) -> (r: Result<Option<ExitStatus>, PtyError>)
        ensures
            r == poll_result(old(self).exit_seen(), report),
            final(self).exit_seen() == seen_after_poll(old(self).exit_seen(), r),
            final(self).process_spec() == old(self).process_spec(),
    {
        match self.exited {
            Some(s) => Ok(Some(s)),
            None => {
                match report {
                    Ok(code) => {
                        if code == STILL_ACTIVE {
                            Ok(None)
                        } else {
                            let s = ExitStatus { status: code };
                            self.exited = Some(s);
                            Ok(Some(s))
                        }
                    },
                    Err(code) => Err(PtyError::StatusQuery { code }),
                }
            },
        }
    }

    /// Completes a blocking wait: `report` is the status query made after the
    /// process was waited for. A status seen earlier is returned at once.
    pub fn wait(&mut self, report: Result<u32, u32>) -> (r: Result<ExitStatus, PtyError>)
        ensures
            r == wait_result(old(self).exit_seen(), report),
            final(self).exit_seen() == seen_after_wait(old(self).exit_seen(), r),
            final(self).process_spec() == old(self).process_spec(),
    {
        match self.exited {
            Some(s) => Ok(s),
            None => {
                match report {
                    Ok(code) => {
                        let s = ExitStatus { status: code };
                        self.exited = Some(s);
                        Ok(s)
                    },
                    Err(code) => Err(PtyError::StatusQuery { code }),
                }
            },
        }
    }

    /// Completes a forced termination: the process was asked to terminate
    /// with `KILLED_EXIT_CODE` and then waited for; `report` is the status
    /// query made after that wait.
    pub fn kill(&mut self, report: Result<u32, u32>) -> (r: Result<ExitStatus, PtyError>)
        ensures
            r == wait_result(old(self).exit_seen(), report),
            final(self).exit_seen() == seen_after_wait(old(self).exit_seen(), r),
            final(self).process_spec() == old(self).process_spec(),
    {
        self.wait(report)
    }
}

/// Once a process has been seen to exit, every later poll, wait or kill
/// reports that same status, whatever the OS query says.
pub proof fn exit_observation_is_stable(seen: ExitStatus, report: Result<u32, u32>)
    ensures
        poll_result(Some(seen), report) == Ok::<Option<ExitStatus>, PtyError>(Some(seen)),
        wait_result(Some(seen), report) == Ok::<ExitStatus, PtyError>(seen),
        seen_after_wait(Some(seen), wait_result(Some(seen), report)) == Some(seen),
{
}

/// A wait that succeeds leaves a status behind that a following poll
/// returns unchanged, whatever that poll's query says.
pub proof fn wait_then_poll_agree(
    seen: Option<ExitStatus>,
    waited: Result<u32, u32>,
    polled: Result<u32, u32>,
)
    requires
        wait_result(seen, waited) is Ok,
    ensures
        poll_result(seen_after_wait(seen, wait_result(seen, waited)), polled) == Ok::<
            Option<ExitStatus>,
            PtyError,
        >(Some(wait_result(seen, waited)->Ok_0)),
{
}

} // verus!
