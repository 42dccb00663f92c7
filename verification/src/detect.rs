//! One-time detection of the host shape and construction of the scope.
//!
//! Detection evaluates an explicit ordered list of capability probes, first
//! match wins: the worker-scope and window checks are structural and come
//! first; the script-host check rests on duck-typed marker properties and
//! runs only after both have failed.

use vstd::prelude::*;
use wasm_bindgen::JsValue;
use crate::bindings::HostFunction;
use crate::bindings::js_eval;
use crate::bindings::js_global;
use crate::bindings::js_string;
use crate::bindings::js_value_as_bool;
use crate::bindings::js_value_into_function;
use crate::bindings::js_value_into_window;
use crate::bindings::js_value_into_worker_scope;
use crate::bindings::js_value_is_object;
use crate::bindings::reflect_get;
use crate::bindings::reflect_has;
use crate::scope::WebGlobalScope;
use crate::select_host_kind;
use crate::spec_select_host_kind;
use crate::HostKind;

verus! {

/// The three global timer functions a script host must expose.
#[derive(Clone, Copy, Debug, PartialEq, Eq, Structural)]
pub enum GlobalFnName {
    ClearInterval,
    SetInterval,
    SetTimeout,
}

impl GlobalFnName {
    /// The name under which the script host exposes this function.
    pub open spec fn spec_js_name(self) -> Seq<char> {
        match self {
            GlobalFnName::ClearInterval => "clearInterval"@,
            GlobalFnName::SetInterval => "setInterval"@,
            GlobalFnName::SetTimeout => "setTimeout"@,
        }
    }

    /// The name under which the script host exposes this function.
    pub fn js_name(self) -> (r: &'static str)
        ensures
            r@ == self.spec_js_name(),
    {
        match self {
            GlobalFnName::ClearInterval => "clearInterval",
            GlobalFnName::SetInterval => "setInterval",
            GlobalFnName::SetTimeout => "setTimeout",
        }
    }
}

/// Why no host scope could be resolved.
#[derive(Clone, Copy, Debug, PartialEq, Eq, Structural)]
pub enum DetectionError {
    /// A structural probe of the environment itself threw.
    ProbeFailed,
    /// A probe matched, but the global object was not of the probed type.
    ScopeCastFailed,
    /// The script-host marker was present, but the named global timer
    /// function could not be resolved or was not invocable.
    MissingGlobalFunction { name: GlobalFnName },
    /// No recognized host shape was present.
    NoKnownHost,
}

/// The first of the three required script-host functions that is not
/// present, in the order they are resolved: `clearInterval`, `setInterval`,
/// `setTimeout`.
pub open spec fn spec_first_missing_global(
    clear_interval: bool,
    set_interval: bool,
    set_timeout: bool,
) -> Option<GlobalFnName> {
    if !clear_interval {
        Some(GlobalFnName::ClearInterval)
    } else if !set_interval {
        Some(GlobalFnName::SetInterval)
    } else if !set_timeout {
        Some(GlobalFnName::SetTimeout)
    } else {
        None
    }
}

/// Given which of the three required script-host functions resolved,
/// reports the first missing one, or `None` when all three are present.
pub fn first_missing_global(
    clear_interval: bool,
    set_interval: bool,
    set_timeout: bool,
) -> (r: Option<GlobalFnName>)
    ensures
        r == spec_first_missing_global(clear_interval, set_interval, set_timeout),
        r is None <==> clear_interval && set_interval && set_timeout,
{
    if !clear_interval {
        Some(GlobalFnName::ClearInterval)
    } else if !set_interval {
        Some(GlobalFnName::SetInterval)
    } else if !set_timeout {
        Some(GlobalFnName::SetTimeout)
    } else {
        None
    }
}

/// Builds the script-host scope from the outcomes of the three global
/// function lookups: all three present yields exactly the scope holding
/// them, and otherwise the error names the first missing function.
pub fn resolve_node_functions(
    clear_interval: Option<HostFunction>,
    set_interval: Option<HostFunction>,
    set_timeout: Option<HostFunction>,
) -> (r: Result<WebGlobalScope, DetectionError>)
    ensures
        r is Ok <==> clear_interval is Some && set_interval is Some && set_timeout is Some,
        clear_interval matches Some(ci) ==> set_interval matches Some(si)
            ==> set_timeout matches Some(st)
            ==> r == Ok::<WebGlobalScope, DetectionError>(WebGlobalScope::NodeJs {
                clear_interval: ci,
                set_interval: si,
                set_timeout: st,
            }),
        r matches Err(e) ==> (e matches DetectionError::MissingGlobalFunction { name }
            && Some(name) == spec_first_missing_global(
                clear_interval is Some,
                set_interval is Some,
                set_timeout is Some,
            )),
{
    match first_missing_global(clear_interval.is_some(), set_interval.is_some(), set_timeout.is_some()) {
        Some(name) => Err(DetectionError::MissingGlobalFunction { name }),
        None => match (clear_interval, set_interval, set_timeout) {
            (Some(ci), Some(si), Some(st)) => Ok(WebGlobalScope::NodeJs {
                clear_interval: ci,
                set_interval: si,
                set_timeout: st,
            }),
            _ => Err(DetectionError::NoKnownHost),  // unreachable: all three are present
        },
    }
}

/// Evaluates one structural probe in the host and reads its answer as a
/// boolean; a non-boolean answer counts as a failed match, and a thrown
/// probe is the only error.
fn eval_bool_probe(code: &str) -> (r: Result<bool, DetectionError>)
    ensures
        r matches Err(e) ==> e == DetectionError::ProbeFailed,
{
    match js_eval(code) {
        Ok(value) => match js_value_as_bool(&value) {
            Some(b) => Ok(b),
            None => Ok(false),
        },
        Err(_) => Err(DetectionError::ProbeFailed),
    }
}

/// Whether the ambient global object carries the script-host marker: an
/// object named `process` whose `versions` object has a `node` property.
/// Any failure along the chain counts as the marker being absent.
///
/// The ghost record holds the three step outcomes (a `process` object
/// resolved; its `versions` object resolved; `versions` has a `node`
/// property), each reached only through the previous one, and the answer
/// is exactly their conjunction.
pub fn is_node_js_env() -> (res: (bool, Ghost<(bool, bool, bool)>))
    ensures
        ({
            let (r, steps) = res;
            let (process_obj, versions_obj, node_marker) = steps@;
            &&& r == (process_obj && versions_obj && node_marker)
            &&& versions_obj ==> process_obj
            &&& node_marker ==> versions_obj
        }),
{
    let global = js_global();
    let process_key = js_string("process");
    let process = match reflect_get(&global, &process_key) {
        Ok(p) => p,
        Err(_) => return (false, Ghost((false, false, false))),
    };
    if !js_value_is_object(&process) {
        return (false, Ghost((false, false, false)));
    }
    let versions_key = js_string("versions");
    let versions = match reflect_get(&process, &versions_key) {
        Ok(v) => v,
        Err(_) => return (false, Ghost((true, false, false))),
    };
    if !js_value_is_object(&versions) {
        return (false, Ghost((true, false, false)));
    }
    let node_key = js_string("node");
    match reflect_has(&versions, &node_key) {
        Ok(b) => (b, Ghost((true, true, b))),
        Err(_) => (false, Ghost((true, true, false))),
    }
}

/// Looks the named function up as a property of `object`.
///
/// The ghost record holds the two step outcomes: the property resolved
/// without the lookup throwing, and the resolved value is invocable. The
/// lookup hands a function back exactly when both hold.
pub fn get_js_function_from_object(object: &JsValue, name: GlobalFnName) -> (res: (
    Option<HostFunction>,
    Ghost<(bool, bool)>,
))
    ensures
        ({
            let (r, steps) = res;
            let (resolved, invocable) = steps@;
            &&& r is Some <==> resolved && invocable
            &&& invocable ==> resolved
        }),
{
    let key = js_string(name.js_name());
    let value = match reflect_get(object, &key) {
        Ok(v) => v,
        Err(_) => return (None, Ghost((false, false))),
    };
    match js_value_into_function(value) {
        Some(f) => (Some(f), Ghost((true, true))),
        None => (None, Ghost((true, false))),
    }
}

/// Which host a record of probe outcomes selects: a probe counts as
/// matched exactly when it answered `true`; one that threw or was never
/// consulted does not match.
pub open spec fn spec_probe_selection(
    worker: Option<bool>,
    window: Option<bool>,
    node: Option<bool>,
) -> Option<HostKind> {
    spec_select_host_kind(worker == Some(true), window == Some(true), node == Some(true))
}

/// Detects the host shape and binds the matching scope, together with a
/// ghost record of the three probe outcomes (worker, window, script-host
/// marker): `Some(b)` for a probe that answered `b`, with a probe skipped
/// because an earlier one matched recorded as `Some(false)`, and `None`
/// for a probe that threw.
///
/// The contract ties the result to the probe outcomes: the bound variant is
/// exactly the one the first matching probe selects; `NoKnownHost` comes
/// exactly when every probe answered `false`; `ProbeFailed` comes exactly
/// when a probe threw; a cast failure can only follow a matching structural
/// probe; and a missing-function error can only come from the script-host
/// branch.
pub fn get_web_global_scope() -> (res: (
    Result<WebGlobalScope, DetectionError>,
    Ghost<(Option<bool>, Option<bool>, Option<bool>)>,
))
    ensures
        ({
            let (r, probes) = res;
            let (worker, window, node) = probes@;
            &&& (r matches Ok(scope) ==> {
                &&& spec_probe_selection(worker, window, node) == Some(scope.kind())
                &&& worker is Some && window is Some && node is Some
            })
            &&& (r == Err::<WebGlobalScope, DetectionError>(DetectionError::NoKnownHost)
                <==> worker == Some(false) && window == Some(false) && node == Some(false))
            &&& (r == Err::<WebGlobalScope, DetectionError>(DetectionError::ProbeFailed)
                <==> (worker is None || window is None || node is None))
            &&& (r == Err::<WebGlobalScope, DetectionError>(DetectionError::ScopeCastFailed)
                ==> (spec_probe_selection(worker, window, node) matches Some(k)
                && k != HostKind::NodeJs))
            &&& (r matches Err(e) ==> e matches DetectionError::MissingGlobalFunction { .. }
                ==> spec_probe_selection(worker, window, node) == Some(HostKind::NodeJs))
        }),
{
    let global = js_global();
    let worker = match eval_bool_probe(
        "typeof WorkerGlobalScope !== 'undefined' && self instanceof WorkerGlobalScope",
    ) {
        Ok(b) => b,
        Err(e) => return (Err(e), Ghost((None, Some(false), Some(false)))),
    };
    let window = if worker {
        false
    } else {
        match eval_bool_probe("typeof Window !== 'undefined' && self instanceof Window") {
            Ok(b) => b,
            Err(e) => return (Err(e), Ghost((Some(false), None, Some(false)))),
        }
    };
    let node = if worker || window {
        false
    } else {
        is_node_js_env().0
    };
    let probes: Ghost<(Option<bool>, Option<bool>, Option<bool>)> = Ghost(
        (Some(worker), Some(window), Some(node)),
    );
    let result = match select_host_kind(worker, window, node) {
        Some(HostKind::Worker) => match js_value_into_worker_scope(global) {
            Some(scope) => Ok(WebGlobalScope::WorkerGlobalScope(scope)),
            None => Err(DetectionError::ScopeCastFailed),
        },
        Some(HostKind::Window) => match js_value_into_window(global) {
            Some(w) => Ok(WebGlobalScope::Window(w)),
            None => Err(DetectionError::ScopeCastFailed),
        },
        Some(HostKind::NodeJs) => {
            let ci = get_js_function_from_object(&global, GlobalFnName::ClearInterval).0;
            let si = get_js_function_from_object(&global, GlobalFnName::SetInterval).0;
            let st = get_js_function_from_object(&global, GlobalFnName::SetTimeout).0;
            resolve_node_functions(ci, si, st)
        }
        None => Err(DetectionError::NoKnownHost),
    };
    (result, probes)
}

} // verus!
