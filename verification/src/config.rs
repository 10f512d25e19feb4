//! The daemon's startup configuration and the launch plan made from it.

use crate::identity::{resolve, resolve_ok, resolved_matches, HostIdentity, ResolveError,
    TargetingValue};
use vstd::prelude::*;

verus! {

/// Verbosity of the daemon's log, from silent to most verbose.
#[derive(Clone, Copy, Debug, PartialEq, Eq, Structural)]
pub enum LogLevel {
    Off,
    Error,
    Warn,
    Info,
    Debug,
    Trace,
}

/// The log level used when the startup configuration names none.
pub fn default_log_level() -> (level: LogLevel)
    ensures
        level == LogLevel::Info,
{
    LogLevel::Info
}

/// One application to watch: its identifier, opaque to this system, and
/// the ordered list of namespaces to subscribe to.
#[derive(Debug)]
pub struct AppSpec {
    pub app_id: String,
    pub namespaces: Vec<String>,
}

/// The startup configuration, immutable after load.
pub struct StartupConfig {
    pub log_level: LogLevel,
    pub worker_threads: Option<usize>,
    pub dir: String,
    pub config_service_url: String,
    pub host: Option<HostIdentity>,
    pub apps: Vec<AppSpec>,
}

/// What the fan-out supervisor needs to start the watch loops: the resolved
/// targeting value, the output base directory, the service URL, and the
/// applications.
#[derive(Debug)]
pub struct LaunchPlan {
    pub targeting: Option<TargetingValue>,
    pub dir: String,
    pub config_service_url: String,
    pub apps: Vec<AppSpec>,
}

/// Turns the startup configuration into a launch plan. The host identity,
/// when one is declared, is resolved exactly once; a malformed CIDR literal
/// is the only failure, and it is fatal. The base directory, the service
/// URL and the application list pass through unchanged.
pub fn prepare_launch(config: StartupConfig) -> (r: Result<LaunchPlan, ResolveError>)
    ensures
        r is Ok <==> (config.host matches Some(h) ==> resolve_ok(h)),
        r matches Ok(plan) ==> {
            &&& plan.dir == config.dir
            &&& plan.config_service_url == config.config_service_url
            &&& plan.apps == config.apps
            &&& (plan.targeting is Some <==> config.host is Some)
            &&& (config.host matches Some(h) ==> plan.targeting matches Some(t)
                && resolved_matches(h, t))
        },
        r matches Err(e) ==> e == ResolveError::InvalidHostSpec,
{
    let targeting = match &config.host {
        None => None,
        Some(host) => match resolve(host) {
            Ok(t) => Some(t),
            Err(e) => {
                return Err(e);
            },
        },
    };
    Ok(LaunchPlan {
        targeting,
        dir: config.dir,
        config_service_url: config.config_service_url,
        apps: config.apps,
    })
}

} // verus!
