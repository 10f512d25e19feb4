//! The watch-and-materialize pipeline of a configuration-sync daemon.
//!
//! The daemon subscribes to a remote configuration service for a set of
//! declared applications and namespaces and keeps one local file per
//! namespace synchronized with the latest snapshot the service returns.
//! This library holds the verified core of that pipeline: resolving the
//! host identity into a targeting value, turning a namespace snapshot
//! into file name and byte content, planning the writes of one batch with
//! failure isolation, and the per-event decisions of the watch loop.
//! Network and file I/O stay outside and consume these functions.

pub mod config;
pub mod identity;
pub mod materialize;
pub mod sink;
pub mod watch;
