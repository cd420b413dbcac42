//! Shutting the mirror down: the settings window is asked to close and is
//! waited for, polling its confirmation every 100 ms for about ten seconds.
use vstd::prelude::*;
use crate::state::State;

verus! {

/// Why waiting on a channel ended without a message (mirrors
/// `std::sync::mpsc::RecvTimeoutError`).
#[derive(Debug, Clone, Copy, PartialEq, Eq, Structural)]
pub enum RecvTimeoutError {
    Timeout,
    Disconnected,
}

/// Ways closing the settings window can fail.
#[derive(Debug, Clone, Copy, PartialEq, Eq, Structural)]
pub enum SettingsGtkShutdownErr {
    ThreadAlreadyTerminated,
    Disconnected(RecvTimeoutError),
    FailedWithinTimeLimit,
}

/// Ways stopping the PipeWire stream can fail.
#[derive(Debug, Clone, Copy, PartialEq, Eq, Structural)]
pub enum PipewireShutdownErr {
    ThreadAlreadyTerminated,
    TimeoutOrTermination(RecvTimeoutError),
}

/// Where closing the settings window stands: still waiting after the given
/// number of polls, or finished.
#[derive(Debug, Clone, Copy, PartialEq, Eq)]
pub enum ShutdownProgress {
    Waiting(u32),
    Finished(Result<(), SettingsGtkShutdownErr>),
}

/// Number of 100 ms polls after which the settings window is given up on.
pub const SHUTDOWN_POLL_LIMIT: u32 = 100;

/// Marks the window for shutdown.
pub fn start_shutdown(s: &mut State)
    ensures
        *final(s) == (State { should_shutdown: true, ..*old(s) }),
{
    s.should_shutdown = true;
}

/// The first step: when the request to close reached the settings window,
/// wait for its confirmation; otherwise its thread is already gone.
pub open spec fn spec_begin_settings_shutdown(request_sent: bool) -> ShutdownProgress {
    if request_sent {
        ShutdownProgress::Waiting(0)
    } else {
        ShutdownProgress::Finished(Err(SettingsGtkShutdownErr::ThreadAlreadyTerminated))
    }
}

/// One poll after `count` earlier ones: a confirmation finishes the wait, a
/// closed channel fails it, and a timeout keeps waiting until the poll
/// limit is passed.
pub open spec fn spec_settings_shutdown_step(count: u32, outcome: Result<(), RecvTimeoutError>) -> ShutdownProgress {
    let polls = count + 1;
    match outcome {
        Ok(()) => ShutdownProgress::Finished(Ok(())),
        Err(RecvTimeoutError::Timeout) => if polls > SHUTDOWN_POLL_LIMIT {
            ShutdownProgress::Finished(Err(SettingsGtkShutdownErr::FailedWithinTimeLimit))
        } else {
            ShutdownProgress::Waiting(polls as u32)
        },
        Err(RecvTimeoutError::Disconnected) => ShutdownProgress::Finished(
            Err(SettingsGtkShutdownErr::Disconnected(RecvTimeoutError::Disconnected)),
        ),
    }
}

/// Starts waiting for the settings window, given whether the request to
/// close could be sent to it.
pub fn begin_settings_shutdown(request_sent: bool) -> (r: ShutdownProgress)
    ensures
        r == spec_begin_settings_shutdown(request_sent),
{
    if request_sent {
        ShutdownProgress::Waiting(0)
    } else {
        ShutdownProgress::Finished(Err(SettingsGtkShutdownErr::ThreadAlreadyTerminated))
    }
}

/// Takes the outcome of one 100 ms wait for the settings window's
/// confirmation, `count` waits having timed out before.
pub fn settings_shutdown_step(count: u32, outcome: Result<(), RecvTimeoutError>) -> (r:
    ShutdownProgress)
    requires
        count <= SHUTDOWN_POLL_LIMIT,
    ensures
        r == spec_settings_shutdown_step(count, outcome),
        r matches ShutdownProgress::Waiting(n) ==> n == count + 1 && n <= SHUTDOWN_POLL_LIMIT,
{
    let polls = count + 1;
    match outcome {
        Ok(()) => ShutdownProgress::Finished(Ok(())),
        Err(RecvTimeoutError::Timeout) => {
            if polls > SHUTDOWN_POLL_LIMIT {
                ShutdownProgress::Finished(Err(SettingsGtkShutdownErr::FailedWithinTimeLimit))
            } else {
                ShutdownProgress::Waiting(polls)
            }
        },
        Err(RecvTimeoutError::Disconnected) => ShutdownProgress::Finished(
            Err(SettingsGtkShutdownErr::Disconnected(RecvTimeoutError::Disconnected)),
        ),
    }
}

/// A failed shutdown of the settings window aborts the process, as leaving
/// the event loop would hang.
pub fn shutdown_must_abort(result: &Result<(), SettingsGtkShutdownErr>) -> (b: bool)
    ensures
        b == result.is_err(),
{
    result.is_err()
}

/// The state reached from `p` after `k` further polls that all time out.
pub open spec fn after_timeouts(p: ShutdownProgress, k: nat) -> ShutdownProgress
    decreases k,
{
    if k == 0 {
        p
    } else {
        match p {
            ShutdownProgress::Waiting(n) => after_timeouts(
                spec_settings_shutdown_step(n, Err(RecvTimeoutError::Timeout)),
                (k - 1) as nat,
            ),
            ShutdownProgress::Finished(r) => p,
        }
    }
}

/// Waiting for the settings window is bounded: once the request is sent,
/// up to `SHUTDOWN_POLL_LIMIT` timed-out polls keep waiting, and the next
/// one gives up with `FailedWithinTimeLimit`.
pub proof fn lemma_settings_shutdown_gives_up(k: nat)
    requires
        k <= SHUTDOWN_POLL_LIMIT + 1,
    ensures
        k <= SHUTDOWN_POLL_LIMIT ==> after_timeouts(spec_begin_settings_shutdown(true), k)
            == ShutdownProgress::Waiting(k as u32),
        k == SHUTDOWN_POLL_LIMIT + 1 ==> after_timeouts(spec_begin_settings_shutdown(true), k)
            == ShutdownProgress::Finished(Err(SettingsGtkShutdownErr::FailedWithinTimeLimit)),
    decreases k,
{
    lemma_after_timeouts_from(0, k);
}

proof fn lemma_after_timeouts_from(n: u32, k: nat)
    requires
        n <= SHUTDOWN_POLL_LIMIT,
        n + k <= SHUTDOWN_POLL_LIMIT + 1,
    ensures
        n + k <= SHUTDOWN_POLL_LIMIT ==> after_timeouts(ShutdownProgress::Waiting(n), k)
            == ShutdownProgress::Waiting((n + k) as u32),
        n + k == SHUTDOWN_POLL_LIMIT + 1 ==> after_timeouts(ShutdownProgress::Waiting(n), k)
            == ShutdownProgress::Finished(Err(SettingsGtkShutdownErr::FailedWithinTimeLimit)),
    decreases k,
{
    if k > 0 {
        if n + 1 <= SHUTDOWN_POLL_LIMIT {
            lemma_after_timeouts_from((n + 1) as u32, (k - 1) as nat);
        } else {
            assert(k == 1);
            assert(after_timeouts(
                ShutdownProgress::Finished(Err(SettingsGtkShutdownErr::FailedWithinTimeLimit)),
                0,
            ) == ShutdownProgress::Finished(Err(SettingsGtkShutdownErr::FailedWithinTimeLimit)));
        }
    }
}

} // verus!
