//! Timers for code running inside a sandboxed scripting host.
//!
//! The host may be a browser main thread, a browser worker thread, or a
//! server-side script host; each exposes `setTimeout`, `setInterval` and
//! `clearInterval` under a different global-object shape. This crate probes
//! the environment once, binds the matching host scope, and dispatches all
//! timer calls through it.

use vstd::prelude::*;

pub mod bindings;
pub mod detect;
pub mod scope;

verus! {

/// The three host shapes this crate recognizes, in detection priority order.
#[derive(Clone, Copy, Debug, PartialEq, Eq, Structural)]
pub enum HostKind {
    /// A browser worker thread: the global object is a worker global scope.
    Worker,
    /// A browser main thread: the global object is a window.
    Window,
    /// A server-side script host, recognized by its `process.versions.node`
    /// marker, exposing the timer operations as bare global functions.
    NodeJs,
}

/// Which host a given combination of probe outcomes selects: the first
/// probe that answered `true` wins, and later probes are never consulted
/// once an earlier one has matched.
pub open spec fn spec_select_host_kind(
    worker: bool,
    window: bool,
    node: bool,
) -> Option<HostKind> {
    if worker {
        Some(HostKind::Worker)
    } else if window {
        Some(HostKind::Window)
    } else if node {
        Some(HostKind::NodeJs)
    } else {
        None
    }
}

/// Selects the host kind from the three probe outcomes, in strict priority
/// order: worker scope first, then window, then the script-host marker.
pub fn select_host_kind(worker: bool, window: bool, node: bool) -> (r: Option<HostKind>)
    ensures
        r == spec_select_host_kind(worker, window, node),
        worker ==> r == Some(HostKind::Worker),
        !worker && window ==> r == Some(HostKind::Window),
        !worker && !window && node ==> r == Some(HostKind::NodeJs),
        !worker && !window && !node ==> r is None,
{
    if worker {
        Some(HostKind::Worker)
    } else if window {
        Some(HostKind::Window)
    } else if node {
        Some(HostKind::NodeJs)
    } else {
        None
    }
}

/// Cancels the timer with the given identifier on the resolved scope.
///
/// Cancellation is best-effort by host contract: an identifier that is
/// stale, unknown, or was already cancelled is silently ignored, so calling
/// this any number of times with the same identifier is harmless.
pub fn clear_interval(scope: &scope::WebGlobalScope, interval_id: i32) {
    scope.clear_interval(interval_id)
}

/// Schedules `callback` to run repeatedly every `delay_milliseconds`
/// milliseconds on the resolved scope and returns the host's identifier for
/// the timer, to be passed back to `clear_interval` for cancellation.
pub fn set_interval(
    scope: &scope::WebGlobalScope,
    callback: &bindings::HostFunction,
    delay_milliseconds: i32,
) -> (r: Result<i32, scope::DispatchError>)
    ensures
        r matches Err(e) ==> e == scope::DispatchError::HostRejected || scope.kind()
            == HostKind::NodeJs,
{
    scope.set_interval(callback, delay_milliseconds)
}

/// Schedules `callback` to run once after `delay_milliseconds` milliseconds
/// on the resolved scope and returns the host's identifier for the timer,
/// to be passed back to `clear_interval` for cancellation.
pub fn set_timeout(
    scope: &scope::WebGlobalScope,
    callback: &bindings::HostFunction,
    delay_milliseconds: i32,
) -> (r: Result<i32, scope::DispatchError>)
    ensures
        r matches Err(e) ==> e == scope::DispatchError::HostRejected || scope.kind()
            == HostKind::NodeJs,
{
    scope.set_timeout(callback, delay_milliseconds)
}

} // verus!

