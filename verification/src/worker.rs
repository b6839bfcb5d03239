//! The decisions of the worker pool.
//!
//! Threads, the channel, the clock and the terminal belong to the program
//! around this library. What each party of the pool does next is decided
//! here, from what just happened to it: a worker after a search or a send,
//! the timer after a sleep or a send, the aggregator after a receive. The
//! program performs the step and comes back with the next event.

use crate::config::GeneratorConfig;
use crate::error::GeneratorError;
use crate::onion::OnionResult;
use vstd::prelude::*;

verus! {

/// Milliseconds a worker waits after a failed search before it tries again.
pub const RETRY_DELAY_MILLIS: u64 = 100;

/// Seconds between two statistics lines of a search that runs on one thread.
pub const SINGLE_THREADED_STATS_INTERVAL: u64 = 30;

/// What travels from the workers and the timer to the aggregator.
#[derive(Debug)]
pub enum WorkerMessage {
    /// A worker found an address.
    Found(OnionResult),
    /// The timer read the counters: generated, found.
    Stats(u64, u64),
    /// The aggregator is to stop.
    Shutdown,
}

/// One thread of a running pool.
#[derive(Debug, Clone, Copy, PartialEq, Eq, Structural)]
pub enum ThreadRole {
    /// The search worker with this number.
    Worker(usize),
    /// The timer that reports the counters every so many seconds.
    StatsTimer(u64),
}

/// What just happened to a worker.
#[derive(Debug)]
pub enum WorkerEvent {
    /// The worker's thread has started.
    Started,
    /// A search has returned.
    Searched(Result<OnionResult, GeneratorError>),
    /// The message reached the channel.
    Delivered,
    /// The message could not be sent: the receiver is gone.
    SendFailed,
    /// The pause after a failed search is over.
    Paused,
}

/// What a worker does next.
#[derive(Debug)]
pub enum WorkerStep {
    /// Run a search.
    Search,
    /// Send the message.
    Send(WorkerMessage),
    /// Log the error and wait this many milliseconds.
    Retry(GeneratorError, u64),
    /// Leave the loop: the thread ends.
    Stop,
}

/// What just happened to the statistics timer.
#[derive(Debug)]
pub enum TimerEvent {
    /// The timer's thread has started.
    Started,
    /// A sleep is over. Read then: whether the search is still to run, and
    /// the counters (generated, found).
    Woke(bool, (u64, u64)),
    /// The message reached the channel.
    Delivered,
    /// The message could not be sent: the receiver is gone.
    SendFailed,
}

/// What the statistics timer does next.
#[derive(Debug)]
pub enum TimerStep {
    /// Sleep this many seconds.
    Sleep(u64),
    /// Send the message.
    Send(WorkerMessage),
    /// Leave the loop: the thread ends.
    Stop,
}

/// What a search on the calling thread does once a search has returned.
#[derive(Debug)]
pub enum SingleThreadStep {
    /// Show the address, then search again.
    Show(OnionResult),
    /// The search was told to stop: return without an error.
    Finish,
    /// Return with this error.
    Fail(GeneratorError),
}

/// What the aggregator does with one turn at the channel.
#[derive(Debug)]
pub enum AggregatorStep {
    /// Show the address, then receive again.
    ShowAddress(OnionResult),
    /// Show a progress line with these totals (generated, found) and the time
    /// of day, then receive again.
    ShowStats(u64, u64),
    /// Leave the receive loop.
    Stop,
}

/// The threads a pool starts for `config`, in the order in which it starts
/// them: one worker for each of `num_workers`, numbered from zero, then the
/// one statistics timer with the configured interval.
pub fn start_plan(config: &GeneratorConfig) -> (plan: Vec<ThreadRole>)
    ensures
        plan@.len() == config.num_workers + 1,
        forall|i: int| 0 <= i < config.num_workers ==> plan@[i] == ThreadRole::Worker(i as usize),
        plan@[config.num_workers as int] == ThreadRole::StatsTimer(config.update_interval),
{
    let mut plan: Vec<ThreadRole> = Vec::new();
    let mut worker_id: usize = 0;
    while worker_id < config.num_workers
        invariant
            worker_id <= config.num_workers,
            plan@.len() == worker_id,
            forall|i: int| 0 <= i < worker_id ==> plan@[i] == ThreadRole::Worker(i as usize),
        decreases config.num_workers - worker_id,
    {
        plan.push(ThreadRole::Worker(worker_id));
        worker_id += 1;
    }
    plan.push(ThreadRole::StatsTimer(config.update_interval));
    plan
}

/// The messages a pool sends when it shuts down: one `Shutdown` for each
/// worker. The aggregator stops at the first; the others are left unread.
pub fn shutdown_plan(config: &GeneratorConfig) -> (plan: Vec<WorkerMessage>)
    ensures
        plan@.len() == config.num_workers,
        forall|i: int| 0 <= i < plan@.len() ==> plan@[i] is Shutdown,
{
    let mut plan: Vec<WorkerMessage> = Vec::new();
    let mut sent: usize = 0;
    while sent < config.num_workers
        invariant
            sent <= config.num_workers,
            plan@.len() == sent,
            forall|i: int| 0 <= i < plan@.len() ==> plan@[i] is Shutdown,
        decreases config.num_workers - sent,
    {
        plan.push(WorkerMessage::Shutdown);
        sent += 1;
    }
    plan
}

/// Decides what a worker does next.
///
/// A worker searches, sends what it found and searches again. A search that
/// was told to stop ends the worker, and so does a message that cannot be
/// sent. Any other failed search costs a pause of `RETRY_DELAY_MILLIS` and
/// never ends the worker.
pub fn worker_step(event: WorkerEvent) -> (step: WorkerStep)
    ensures
        step == match event {
            WorkerEvent::Started => WorkerStep::Search,
            WorkerEvent::Searched(Ok(address)) => WorkerStep::Send(WorkerMessage::Found(address)),
            WorkerEvent::Searched(Err(error)) => if error == GeneratorError::Stopped {
                WorkerStep::Stop
            } else {
                WorkerStep::Retry(error, RETRY_DELAY_MILLIS)
            },
            WorkerEvent::Delivered => WorkerStep::Search,
            WorkerEvent::SendFailed => WorkerStep::Stop,
            WorkerEvent::Paused => WorkerStep::Search,
        },
{
    match event {
        WorkerEvent::Started => WorkerStep::Search,
        WorkerEvent::Searched(Ok(address)) => WorkerStep::Send(WorkerMessage::Found(address)),
        WorkerEvent::Searched(Err(GeneratorError::Stopped)) => WorkerStep::Stop,
        WorkerEvent::Searched(Err(error)) => WorkerStep::Retry(error, RETRY_DELAY_MILLIS),
        WorkerEvent::Delivered => WorkerStep::Search,
        WorkerEvent::SendFailed => WorkerStep::Stop,
        WorkerEvent::Paused => WorkerStep::Search,
    }
}

/// Decides what the statistics timer does next.
///
/// The timer sleeps `update_interval` seconds, sends the counters it read on
/// waking and sleeps again. It ends when it wakes to a search that is no
/// longer to run, and when a message cannot be sent.
pub fn timer_step(event: TimerEvent, update_interval: u64) -> (step: TimerStep)
    ensures
        step == match event {
            TimerEvent::Started => TimerStep::Sleep(update_interval),
            TimerEvent::Woke(running, stats) => if running {
                TimerStep::Send(WorkerMessage::Stats(stats.0, stats.1))
            } else {
                TimerStep::Stop
            },
            TimerEvent::Delivered => TimerStep::Sleep(update_interval),
            TimerEvent::SendFailed => TimerStep::Stop,
        },
{
    match event {
        TimerEvent::Started => TimerStep::Sleep(update_interval),
        TimerEvent::Woke(running, stats) => {
            if running {
                TimerStep::Send(stats_message(stats))
            } else {
                TimerStep::Stop
            }
        },
        TimerEvent::Delivered => TimerStep::Sleep(update_interval),
        TimerEvent::SendFailed => TimerStep::Stop,
    }
}

/// Decides what a search on the calling thread does with the outcome of a
/// search: it shows a match and goes on, ends quietly when told to stop, and
/// returns any other error.
pub fn single_thread_step(outcome: Result<OnionResult, GeneratorError>) -> (step:
    SingleThreadStep)
    ensures
        step == match outcome {
            Ok(address) => SingleThreadStep::Show(address),
            Err(error) => if error == GeneratorError::Stopped {
                SingleThreadStep::Finish
            } else {
                SingleThreadStep::Fail(error)
            },
        },
{
    match outcome {
        Ok(address) => SingleThreadStep::Show(address),
        Err(GeneratorError::Stopped) => SingleThreadStep::Finish,
        Err(error) => SingleThreadStep::Fail(error),
    }
}

/// The message the timer sends for a reading of the counters, as `get_stats`
/// gives it: `Stats` with the two totals, generated first.
pub fn stats_message(stats: (u64, u64)) -> (message: WorkerMessage)
    ensures
        message == WorkerMessage::Stats(stats.0, stats.1),
{
    WorkerMessage::Stats(stats.0, stats.1)
}

/// Decides what the aggregator does with what it received; `None` stands for
/// a channel that every sender has left.
pub fn aggregator_step(received: Option<WorkerMessage>) -> (step: AggregatorStep)
    ensures
        step == match received {
            Some(WorkerMessage::Found(address)) => AggregatorStep::ShowAddress(address),
            Some(WorkerMessage::Stats(generated, found)) => AggregatorStep::ShowStats(
                generated,
                found,
            ),
            Some(WorkerMessage::Shutdown) => AggregatorStep::Stop,
            None => AggregatorStep::Stop,
        },
{
    match received {
        Some(WorkerMessage::Found(address)) => AggregatorStep::ShowAddress(address),
        Some(WorkerMessage::Stats(generated, found)) => AggregatorStep::ShowStats(generated, found),
        Some(WorkerMessage::Shutdown) => AggregatorStep::Stop,
        None => AggregatorStep::Stop,
    }
}

/// Tells whether a search on one thread owes a statistics line: once
/// `SINGLE_THREADED_STATS_INTERVAL` seconds have passed since the last one.
pub fn stats_due(seconds_since_last: u64) -> (due: bool)
    ensures
        due == (seconds_since_last >= SINGLE_THREADED_STATS_INTERVAL),
{
    seconds_since_last >= SINGLE_THREADED_STATS_INTERVAL
}

} // verus!
