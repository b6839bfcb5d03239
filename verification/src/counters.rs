//! What the threads of one search share: the totals and the stop flag.

use std::sync::atomic::{AtomicBool, AtomicU64, Ordering};
use vstd::prelude::*;

verus! {

/// Two running totals: candidates derived, and candidates that matched.
///
/// The totals are atomics behind a shared reference, so any number of threads
/// may count on one `Counters` at once. Each update is a relaxed fetch-add:
/// nothing orders the two totals against each other, and a reader sees a
/// best-effort snapshot.
pub struct Counters {
    generated: AtomicU64,
    found: AtomicU64,
}

impl Counters {
    /// Fresh totals, both zero.
    pub fn new() -> (counters: Self) {
        Counters { generated: AtomicU64::new(0), found: AtomicU64::new(0) }
    }
}

/// Reads both totals: `(generated, found)`.
pub fn get_stats(counters: &Counters) -> (stats: (u64, u64)) {
    (counters.generated.load(Ordering::Relaxed), counters.found.load(Ordering::Relaxed))
}

/// Adds one to the total of derived candidates.
pub fn increment_generated(counters: &Counters) {
    let _ = counters.generated.fetch_add(1, Ordering::Relaxed);
}

/// Adds one to the total of matches.
pub fn increment_found(counters: &Counters) {
    let _ = counters.found.fetch_add(1, Ordering::Relaxed);
}

/// Reads the flag that keeps a search going: true until somebody asks the
/// search to stop.
pub(crate) fn is_running(running: &AtomicBool) -> (yes: bool) {
    running.load(Ordering::Relaxed)
}

} // verus!
