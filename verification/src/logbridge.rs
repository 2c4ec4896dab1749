//! The log bridge: the record that carries a logger across the plugin
//! boundary, and the rule that it is installed once.

use crate::error::ErrorKind;
use vstd::prelude::*;

verus! {

/// How much a logger lets through, from nothing to everything.
#[derive(Clone, Copy, Debug, PartialEq, Eq, Structural)]
pub enum LevelFilter {
    Off,
    Error,
    Warn,
    Info,
    Debug,
    Trace,
}

/// What the host hands to a plugin so that the plugin logs through the host:
/// the filter level. The three entry points that travel with it are function
/// pointers and stay with the code that crosses the boundary.
#[derive(Clone, Copy, Debug, PartialEq, Eq, Structural)]
pub struct LogParam {
    /// The most verbose level that the host's logger lets through.
    pub level: LevelFilter,
}

/// The record for a host whose logger lets `level` through.
pub fn log_param(level: LevelFilter) -> (param: LogParam)
    ensures
        param.level == level,
{
    LogParam { level }
}

/// What a call to install the bridge has to do.
#[derive(Clone, Copy, Debug, PartialEq, Eq, Structural)]
pub enum InstallStep {
    /// Make the bridge the process-wide logger, then let this level through.
    Install(LevelFilter),
    /// Complain: the bridge is installed already. Nothing else.
    AlreadyInstalled,
}

/// What follows the attempt to make the bridge the process-wide logger.
#[derive(Clone, Copy, Debug, PartialEq, Eq, Structural)]
pub enum LoggerStep {
    /// Set the process-wide maximum level.
    SetMaxLevel(LevelFilter),
    /// Warn on standard error and go on without the bridge.
    Warn(ErrorKind),
}

/// The record that is installed after a call with `param` on a bridge that
/// held `installed`: the first record stays.
pub open spec fn installed_after(installed: Option<LogParam>, param: LogParam) -> Option<
    LogParam,
> {
    match installed {
        Some(_) => installed,
        None => Some(param),
    }
}

/// What a call with `param` has to do on a bridge that held `installed`.
pub open spec fn step_for(installed: Option<LogParam>, param: LogParam) -> InstallStep {
    match installed {
        Some(_) => InstallStep::AlreadyInstalled,
        None => InstallStep::Install(param.level),
    }
}

/// The plugin's side of the bridge: the record it was given, if any.
#[derive(Debug)]
pub struct LogBridge {
    installed: Option<LogParam>,
}

impl LogBridge {
    /// The record that is installed, if any.
    pub closed spec fn installed(&self) -> Option<LogParam> {
        self.installed
    }

    /// A bridge with nothing installed.
    pub fn new() -> (bridge: LogBridge)
        ensures
            bridge.installed() is None,
    {
        LogBridge { installed: None }
    }

    /// Installs `param` unless a record is installed already; then the call
    /// changes nothing and asks only for a complaint.
    pub fn init(&mut self, param: LogParam) -> (step: InstallStep)
        ensures
            final(self).installed() == installed_after(old(self).installed(), param),
            step == step_for(old(self).installed(), param),
    {
        match self.installed {
            Some(_) => InstallStep::AlreadyInstalled,
            None => {
                self.installed = Some(param);
                InstallStep::Install(param.level)
            },
        }
    }

    /// The record that is installed, if any.
    pub fn param(&self) -> (param: Option<LogParam>)
        ensures
            param == self.installed(),
    {
        self.installed
    }
}

/// What to do once the attempt to make the bridge the process-wide logger has
/// succeeded or failed: logging is best effort, so a failure is a warning.
pub fn after_set_logger(succeeded: bool, level: LevelFilter) -> (step: LoggerStep)
    ensures
        step == if succeeded {
            LoggerStep::SetMaxLevel(level)
        } else {
            LoggerStep::Warn(ErrorKind::LoggerSetup)
        },
{
    if succeeded {
        LoggerStep::SetMaxLevel(level)
    } else {
        LoggerStep::Warn(ErrorKind::LoggerSetup)
    }
}

/// A second install is a no-op: it asks for nothing but a complaint and leaves
/// installed what the first call installed.
pub proof fn lemma_second_init_is_noop(
    installed: Option<LogParam>,
    first: LogParam,
    second: LogParam,
)
    ensures
        step_for(installed_after(installed, first), second) == InstallStep::AlreadyInstalled,
        installed_after(installed_after(installed, first), second) == installed_after(
            installed,
            first,
        ),
{
}

} // verus!
