//! Building blocks for munin plugins, with verified core logic.
//!
//! A munin plugin is a small program that a monitoring collector runs
//! every few minutes.  Called with no argument it prints current metric
//! values; called with `config` it prints graph metadata; called with
//! `autoconf` it answers `yes` or `no`.  A *streaming* plugin
//! additionally keeps a detached background producer alive that samples
//! once per second into a cache file, which the foreground invocation
//! drains atomically on every poll.
//!
//! This crate holds the verified core of that machinery:
//!
//! - [`config::Config`]: the immutable plugin configuration and the
//!   derivation of its default paths.
//! - [`output::OutputBuffer`]: the in-memory output target that plugin
//!   callbacks write to; the caller flushes it to standard output.
//! - [`plugin::MuninPlugin`]: the capability interface a plugin
//!   implements (`config`, `acquire`), plus the provided behaviour
//!   built on top of it (`fetch`, `autoconf`, one producer iteration).
//! - [`dispatch::Dispatcher`]: the foreground decision machine.  It
//!   interprets the invocation verb and tells the caller which external
//!   step to perform next (probe the lock, spawn the producer, drain
//!   the cache); the caller feeds the outcome back as an event.
//! - [`cache::CacheBuffer`]: the append/drain model of the cache store,
//!   with the proof that interleaved appends and drains lose nothing.
//! - [`guard::LockTable`]: the model of the advisory-lock guard, with
//!   the proof that at most one contender acquires it.
//!
//! Everything that genuinely needs the operating system — standard
//! output, the lock file, spawning, daemonizing, the wall clock, the
//! atomic rename of the cache file — stays with the caller, which
//! drives the verified machine and performs the actions it asks for.

pub mod cache;
pub mod config;
pub mod dispatch;
pub mod error;
pub mod guard;
pub mod output;
pub mod plugin;

pub use config::Config;
pub use error::PluginError;
pub use output::OutputBuffer;
pub use plugin::MuninPlugin;
