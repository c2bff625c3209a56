//! The decisions of the processing thread and of the session that owns it.
//!
//! The thread that runs the engine does three things in turn: it polls the shutdown
//! signal, it runs a batch, and, where the batch found nothing to do, it parks until the
//! microphone callback wakes it or a bounded time has passed. [`Worker`] says which of
//! them is next, and what follows from how it went. The thread itself, its signal and
//! its parking belong to the caller.
//!
//! A shutdown is only ever noticed at the poll, never in the middle of a batch, and
//! the poll always comes before the thread may park.

use vstd::prelude::*;

verus! {

/// Where a session stands.
#[derive(Clone, Copy, Debug, PartialEq, Eq, Structural)]
pub enum Phase {
    /// Not started yet.
    Idle,
    /// The thread runs.
    Running,
    /// The shutdown signal is sent, the thread has not returned yet.
    StopRequested,
    /// The thread has returned and given the engine back.
    Stopped,
}

/// What the owner of a session asks for.
#[derive(Clone, Copy, Debug, PartialEq, Eq, Structural)]
pub enum Command {
    /// Spawn the thread and hand it the engine.
    Start,
    /// Send the shutdown signal.
    Stop,
    /// Take the engine back from the thread that has returned.
    Join,
}

/// What the poll of the shutdown signal found.
#[derive(Clone, Copy, Debug, PartialEq, Eq, Structural)]
pub enum Signal {
    /// Nothing was sent.
    Quiet,
    /// The shutdown signal.
    Kill,
    /// The sender is gone without having sent anything.
    Disconnected,
}

/// Why the thread returned.
#[derive(Clone, Copy, Debug, PartialEq, Eq, Structural)]
pub enum Cause {
    /// It received the shutdown signal.
    Killed,
    /// It was disconnected without notice.
    Orphaned,
    /// A batch failed: the adaptive filter is beyond repair.
    Faulted,
}

/// What the thread is to do next.
#[derive(Clone, Copy, Debug, PartialEq, Eq, Structural)]
pub enum Action {
    /// Poll the shutdown signal, without waiting for it.
    Poll,
    /// Run one batch of the engine.
    Run,
    /// Park until woken, or until a bounded time has passed.
    Park,
    /// Return, and give the engine back.
    Exit(Cause),
}

/// How the last action went.
#[derive(Clone, Copy, Debug, PartialEq, Eq, Structural)]
pub enum Outcome {
    /// The poll found this.
    Polled(Signal),
    /// The batch handled this many frames.
    Batch(usize),
    /// The batch failed.
    Fault,
    /// The thread was woken, or its time to park has passed.
    Woke,
}

/// Where the thread stands in its loop.
#[derive(Clone, Copy, Debug, PartialEq, Eq, Structural)]
pub enum Worker {
    /// At the top of the loop, about to poll.
    Checking,
    /// Cleared by the poll, about to run a batch.
    Working,
    /// A batch found nothing to do; about to park.
    Resting,
    /// Out of the loop.
    Done(Cause),
}

impl Phase {
    /// The phase that a command leads to, where the command is in order: a session
    /// starts from idle or after it has stopped, is asked to stop while it runs, and is
    /// joined after it was asked to stop.
    pub open spec fn spec_apply(self, command: Command) -> Option<Phase> {
        match (self, command) {
            (Phase::Idle, Command::Start) => Some(Phase::Running),
            (Phase::Stopped, Command::Start) => Some(Phase::Running),
            (Phase::Running, Command::Stop) => Some(Phase::StopRequested),
            (Phase::StopRequested, Command::Join) => Some(Phase::Stopped),
            _ => None,
        }
    }

    /// Applies a command; `None` where it is out of order, and nothing is to be done.
    #[verifier::when_used_as_spec(spec_apply)]
    pub fn apply(self, command: Command) -> (next: Option<Phase>)
        ensures
            next == self.spec_apply(command),
    {
        match (self, command) {
            (Phase::Idle, Command::Start) => Some(Phase::Running),
            (Phase::Stopped, Command::Start) => Some(Phase::Running),
            (Phase::Running, Command::Stop) => Some(Phase::StopRequested),
            (Phase::StopRequested, Command::Join) => Some(Phase::Stopped),
            _ => None,
        }
    }
}

impl Worker {
    /// A thread that has just been started.
    pub fn new() -> (worker: Worker)
        ensures
            worker == Worker::Checking,
    {
        Worker::Checking
    }

    pub open spec fn spec_action(self) -> Action {
        match self {
            Worker::Checking => Action::Poll,
            Worker::Working => Action::Run,
            Worker::Resting => Action::Park,
            Worker::Done(cause) => Action::Exit(cause),
        }
    }

    /// What the thread is to do where it stands.
    #[verifier::when_used_as_spec(spec_action)]
    pub fn action(self) -> (action: Action)
        ensures
            action == self.spec_action(),
    {
        match self {
            Worker::Checking => Action::Poll,
            Worker::Working => Action::Run,
            Worker::Resting => Action::Park,
            Worker::Done(cause) => Action::Exit(cause),
        }
    }

    /// Whether an outcome is one of the action that is due.
    pub open spec fn expects(self, outcome: Outcome) -> bool {
        match (self, outcome) {
            (Worker::Checking, Outcome::Polled(_)) => true,
            (Worker::Working, Outcome::Batch(_)) => true,
            (Worker::Working, Outcome::Fault) => true,
            (Worker::Resting, Outcome::Woke) => true,
            _ => false,
        }
    }

    /// Where the thread stands after an outcome.
    ///
    /// A poll that finds the shutdown signal, or the sender gone, ends the loop; a quiet
    /// one clears the batch. A batch that handled frames leads back to the poll; one
    /// that found nothing lets the thread park; one that failed ends the loop. A thread
    /// that wakes goes back to the poll. An outcome of another action than the one due
    /// changes nothing.
    pub open spec fn spec_advance(self, outcome: Outcome) -> Worker {
        match (self, outcome) {
            (Worker::Checking, Outcome::Polled(Signal::Quiet)) => Worker::Working,
            (Worker::Checking, Outcome::Polled(Signal::Kill)) => Worker::Done(Cause::Killed),
            (Worker::Checking, Outcome::Polled(Signal::Disconnected)) => Worker::Done(
                Cause::Orphaned,
            ),
            (Worker::Working, Outcome::Batch(frames)) => if frames == 0 {
                Worker::Resting
            } else {
                Worker::Checking
            },
            (Worker::Working, Outcome::Fault) => Worker::Done(Cause::Faulted),
            (Worker::Resting, Outcome::Woke) => Worker::Checking,
            _ => self,
        }
    }

    /// Takes note of how the action went.
    #[verifier::when_used_as_spec(spec_advance)]
    pub fn advance(self, outcome: Outcome) -> (next: Worker)
        ensures
            next == self.spec_advance(outcome),
    {
        match self {
            Worker::Checking => match outcome {
                Outcome::Polled(Signal::Quiet) => Worker::Working,
                Outcome::Polled(Signal::Kill) => Worker::Done(Cause::Killed),
                Outcome::Polled(Signal::Disconnected) => Worker::Done(Cause::Orphaned),
                _ => self,
            },
            Worker::Working => match outcome {
                Outcome::Batch(frames) => if frames == 0 {
                    Worker::Resting
                } else {
                    Worker::Checking
                },
                Outcome::Fault => Worker::Done(Cause::Faulted),
                _ => self,
            },
            Worker::Resting => match outcome {
                Outcome::Woke => Worker::Checking,
                _ => self,
            },
            Worker::Done(_) => self,
        }
    }
}

/// What a thread meets once the shutdown signal is sent: every poll finds the signal;
/// batches and wake-ups go on as they may.
pub open spec fn under_shutdown(outcome: Outcome) -> bool {
    outcome is Polled ==> outcome == Outcome::Polled(Signal::Kill)
}

/// A stop returns: once the shutdown signal is sent, a thread is out of its loop after
/// at most three more actions, whatever its batches find. It runs at most one more
/// batch, and it cannot park for good, because it never parks twice without a poll
/// between.
pub proof fn law_stop_returns(worker: Worker, first: Outcome, second: Outcome, third: Outcome)
    requires
        under_shutdown(first),
        under_shutdown(second),
        under_shutdown(third),
        worker.expects(first),
        worker.advance(first).expects(second) || worker.advance(first) is Done,
        worker.advance(first).advance(second).expects(third) || worker.advance(first).advance(
            second,
        ) is Done,
    ensures
        worker.advance(first).advance(second).advance(third) is Done,
{
}

/// The thread parks only after a batch that found nothing to do, and polls the signal
/// before anything else when it wakes.
pub proof fn law_park_follows_idle_batch(worker: Worker, outcome: Outcome)
    requires
        worker.expects(outcome),
    ensures
        worker.advance(outcome).action() == Action::Park <==> worker == Worker::Working && outcome
            == Outcome::Batch(0),
        worker == Worker::Resting ==> worker.advance(outcome).action() == Action::Poll,
{
}

/// Once out of the loop, the thread stays out, with the cause it left for.
pub proof fn law_done_is_final(cause: Cause, outcome: Outcome)
    ensures
        Worker::Done(cause).advance(outcome) == Worker::Done(cause),
{
}

} // verus!
