//! The resolved host scope and the timer dispatch that routes through it.

use vstd::prelude::*;
use wasm_bindgen::JsValue;
use web_sys::Window;
use web_sys::WorkerGlobalScope;
use crate::bindings::HostFunction;
use crate::bindings::function_as_js_value;
use crate::bindings::function_call0;
use crate::bindings::function_call1;
use crate::bindings::function_call2;
use crate::bindings::js_global;
use crate::bindings::js_i32;
use crate::bindings::js_undefined;
use crate::bindings::js_value_as_truncated_i32;
use crate::bindings::js_value_into_function;
use crate::bindings::reflect_get;
use crate::bindings::symbol_to_primitive_value;
use crate::bindings::window_clear_interval;
use crate::bindings::window_set_interval;
use crate::bindings::window_set_timeout;
use crate::bindings::worker_clear_interval;
use crate::bindings::worker_set_interval;
use crate::bindings::worker_set_timeout;
use crate::HostKind;

verus! {

/// Why a single timer dispatch failed.
#[derive(Clone, Copy, Debug, PartialEq, Eq, Structural)]
pub enum DispatchError {
    /// The host's native scheduling call itself threw.
    HostRejected,
    /// The script host's scheduling call returned a timeout object whose
    /// numeric coercion could not be performed, so no usable identifier
    /// exists for the timer.
    IdentifierNormalizationFailed,
}

/// The resolved host scope: exactly the host-specific resources needed to
/// invoke that host's timer operations. One value of this type is chosen
/// per process, and it is immutable once constructed.
pub enum WebGlobalScope {
    /// A server-side script host: the three timer operations resolved as
    /// bare global functions.
    NodeJs {
        clear_interval: HostFunction,
        set_interval: HostFunction,
        set_timeout: HostFunction,
    },
    /// A browser main thread: the window object carries the timer methods.
    Window(Window),
    /// A browser worker thread: the worker global scope carries the timer
    /// methods.
    WorkerGlobalScope(WorkerGlobalScope),
}

impl WebGlobalScope {
    /// The host shape this scope was resolved for.
    pub open spec fn kind(self) -> HostKind {
        match self {
            WebGlobalScope::NodeJs { .. } => HostKind::NodeJs,
            WebGlobalScope::Window(_) => HostKind::Window,
            WebGlobalScope::WorkerGlobalScope(_) => HostKind::Worker,
        }
    }

    /// Cancels the timer with the given identifier. The host silently
    /// ignores a stale or unknown identifier, and a thrown cancellation is
    /// likewise ignored: cancellation is best-effort by host contract.
    pub fn clear_interval(&self, interval_id: i32) {
        match self {
            WebGlobalScope::NodeJs { clear_interval, .. } => {
                let global = js_global();
                let id = js_i32(interval_id);
                let _ = function_call1(clear_interval, &global, &id);
            }
            WebGlobalScope::Window(window) => window_clear_interval(window, interval_id),
            WebGlobalScope::WorkerGlobalScope(scope) => worker_clear_interval(scope, interval_id),
        }
    }

    /// Schedules `callback` to run repeatedly every `delay_milliseconds`
    /// milliseconds and returns the host's identifier for the timer.
    ///
    /// A browser scope yields the host's integer handle directly, so it can
    /// only fail with `HostRejected`; a script-host scope additionally
    /// normalizes the returned timeout object to an integer identifier.
    pub fn set_interval(&self, callback: &HostFunction, delay_milliseconds: i32) -> (r: Result<
        i32,
        DispatchError,
    >)
        ensures
            r matches Err(e) ==> e == DispatchError::HostRejected || self.kind()
                == HostKind::NodeJs,
    {
        match self {
            WebGlobalScope::NodeJs { set_interval, .. } => {
                let this = js_undefined();
                let delay = js_i32(delay_milliseconds);
                node_dispatch_result(
                    function_call2(set_interval, &this, function_as_js_value(callback), &delay),
                )
            }
            WebGlobalScope::Window(window) => {
                browser_dispatch_result(window_set_interval(window, callback, delay_milliseconds))
            }
            WebGlobalScope::WorkerGlobalScope(scope) => {
                browser_dispatch_result(worker_set_interval(scope, callback, delay_milliseconds))
            }
        }
    }

    /// Schedules `callback` to run once after `delay_milliseconds`
    /// milliseconds and returns the host's identifier for the timer.
    ///
    /// Failure modes are those of `set_interval`.
    pub fn set_timeout(&self, callback: &HostFunction, delay_milliseconds: i32) -> (r: Result<
        i32,
        DispatchError,
    >)
        ensures
            r matches Err(e) ==> e == DispatchError::HostRejected || self.kind()
                == HostKind::NodeJs,
    {
        match self {
            WebGlobalScope::NodeJs { set_timeout, .. } => {
                let this = js_undefined();
                let delay = js_i32(delay_milliseconds);
                node_dispatch_result(
                    function_call2(set_timeout, &this, function_as_js_value(callback), &delay),
                )
            }
            WebGlobalScope::Window(window) => {
                browser_dispatch_result(window_set_timeout(window, callback, delay_milliseconds))
            }
            WebGlobalScope::WorkerGlobalScope(scope) => {
                browser_dispatch_result(worker_set_timeout(scope, callback, delay_milliseconds))
            }
        }
    }
}

/// Forms the timer dispatch result from the outcome of a browser host's
/// native scheduling call: a native success is handed on with the same
/// integer handle, and a native failure is exactly `HostRejected`.
pub fn browser_dispatch_result(native: Result<i32, JsValue>) -> (r: Result<i32, DispatchError>)
    ensures
        native matches Ok(id) ==> r == Ok::<i32, DispatchError>(id),
        native is Err ==> r == Err::<i32, DispatchError>(DispatchError::HostRejected),
{
    match native {
        Ok(id) => Ok(id),
        Err(_) => Err(DispatchError::HostRejected),
    }
}

/// Forms the timer dispatch result from the outcome of a script host's
/// native scheduling call: a native failure is exactly `HostRejected`, and
/// a native success hands the returned timeout object on to identifier
/// normalization, which yields the identifier or its own failure.
pub fn node_dispatch_result(native: Result<JsValue, JsValue>) -> (r: Result<i32, DispatchError>)
    ensures
        native is Err <==> r == Err::<i32, DispatchError>(DispatchError::HostRejected),
        native is Ok ==> r is Ok || r == Err::<i32, DispatchError>(
            DispatchError::IdentifierNormalizationFailed,
        ),
{
    match native {
        Ok(timeout) => get_node_js_timeout_id(&timeout),
        Err(_) => Err(DispatchError::HostRejected),
    }
}

/// Forms the timer identifier from the outcome of the script host's numeric
/// coercion: a coerced number is the identifier, and a missing or
/// non-numeric coercion result leaves no usable identifier.
pub fn normalize_timeout_id(coerced: Option<i32>) -> (r: Result<i32, DispatchError>)
    ensures
        coerced matches Some(id) ==> r == Ok::<i32, DispatchError>(id),
        coerced is None ==> r == Err::<i32, DispatchError>(
            DispatchError::IdentifierNormalizationFailed,
        ),
{
    match coerced {
        Some(id) => Ok(id),
        None => Err(DispatchError::IdentifierNormalizationFailed),
    }
}

/// Runs the script host's documented numeric-coercion protocol on a timeout
/// object: retrieves the object's primitive-coercion function, invokes it
/// with the object as context, and truncates the numeric result to a 32-bit
/// integer. `None` when any step fails or the result is not numeric.
fn coerce_node_js_timeout(timeout: &JsValue) -> Option<i32> {
    let key = symbol_to_primitive_value();
    let primitive_fn_value = match reflect_get(timeout, &key) {
        Ok(v) => v,
        Err(_) => return None,
    };
    let primitive_fn = match js_value_into_function(primitive_fn_value) {
        Some(f) => f,
        None => return None,
    };
    let primitive_value = match function_call0(&primitive_fn, timeout) {
        Ok(v) => v,
        Err(_) => return None,
    };
    js_value_as_truncated_i32(&primitive_value)
}

/// The integer timer identifier carried by a script-host timeout object,
/// obtained through the object's numeric-coercion protocol. Every failure
/// along that protocol is an identifier-normalization failure: no other
/// error can come out of this step.
pub fn get_node_js_timeout_id(timeout: &JsValue) -> (r: Result<i32, DispatchError>)
    ensures
        r matches Err(e) ==> e == DispatchError::IdentifierNormalizationFailed,
{
    normalize_timeout_id(coerce_node_js_timeout(timeout))
}

} // verus!
