//! Search engine for Tor v3 onion hostnames with chosen prefixes: key
//! encodings, address derivation, the prefix search and the decisions of the
//! worker pool that drives it.

pub mod config;
pub mod counters;
pub mod crypto;
pub mod encoding;
pub mod error;
pub mod onion;
pub mod worker;

pub use config::GeneratorConfig;
pub use counters::{get_stats, increment_found, increment_generated, Counters};
pub use crypto::{
    base32_encode, base64_encode, calculate_checksum, expand_secret_key, generate_keypair,
    KeyMaterial,
};
pub use error::GeneratorError;
pub use onion::{
    derive_onion_address, encode_public_key, first_matching_prefix, generate_onion_address,
    generate_with_prefix, OnionResult,
};
pub use worker::{
    aggregator_step, shutdown_plan, single_thread_step, start_plan, stats_due, stats_message,
    timer_step, worker_step, AggregatorStep, SingleThreadStep, ThreadRole, TimerEvent, TimerStep,
    WorkerEvent, WorkerMessage, WorkerStep,
};
