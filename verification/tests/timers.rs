use wasm_bindgen::JsValue;
use web_timers::bindings::host_function_unchecked;
use web_timers::bindings::HostFunction;
use web_timers::detect::first_missing_global;
use web_timers::detect::resolve_node_functions;
use web_timers::detect::DetectionError;
use web_timers::detect::GlobalFnName;
use web_timers::scope::browser_dispatch_result;
use web_timers::scope::node_dispatch_result;
use web_timers::scope::normalize_timeout_id;
use web_timers::scope::DispatchError;
use web_timers::scope::WebGlobalScope;
use web_timers::select_host_kind;
use web_timers::HostKind;

fn null_function() -> HostFunction {
    host_function_unchecked(JsValue::NULL)
}

#[test]
fn worker_probe_wins_over_everything() {
    assert_eq!(select_host_kind(true, false, false), Some(HostKind::Worker));
    assert_eq!(select_host_kind(true, true, false), Some(HostKind::Worker));
    assert_eq!(select_host_kind(true, false, true), Some(HostKind::Worker));
    assert_eq!(select_host_kind(true, true, true), Some(HostKind::Worker));
}

#[test]
fn window_probe_wins_over_node_marker() {
    assert_eq!(select_host_kind(false, true, false), Some(HostKind::Window));
    assert_eq!(select_host_kind(false, true, true), Some(HostKind::Window));
}

#[test]
fn node_marker_matches_last() {
    assert_eq!(select_host_kind(false, false, true), Some(HostKind::NodeJs));
}

#[test]
fn no_probe_matching_selects_nothing() {
    assert_eq!(select_host_kind(false, false, false), None);
}

#[test]
fn first_missing_global_resolution_order() {
    assert_eq!(
        first_missing_global(false, false, false),
        Some(GlobalFnName::ClearInterval)
    );
    assert_eq!(
        first_missing_global(false, true, true),
        Some(GlobalFnName::ClearInterval)
    );
    assert_eq!(
        first_missing_global(true, false, false),
        Some(GlobalFnName::SetInterval)
    );
    assert_eq!(
        first_missing_global(true, false, true),
        Some(GlobalFnName::SetInterval)
    );
    assert_eq!(
        first_missing_global(true, true, false),
        Some(GlobalFnName::SetTimeout)
    );
    assert_eq!(first_missing_global(true, true, true), None);
}

#[test]
fn missing_set_timeout_is_named() {
    let result = resolve_node_functions(Some(null_function()), Some(null_function()), None);
    match result {
        Err(DetectionError::MissingGlobalFunction { name }) => {
            assert_eq!(name, GlobalFnName::SetTimeout);
        }
        _ => panic!("expected an error naming setTimeout"),
    }
}

#[test]
fn missing_set_interval_is_named() {
    let result = resolve_node_functions(Some(null_function()), None, Some(null_function()));
    match result {
        Err(DetectionError::MissingGlobalFunction { name }) => {
            assert_eq!(name, GlobalFnName::SetInterval);
        }
        _ => panic!("expected an error naming setInterval"),
    }
}

#[test]
fn missing_clear_interval_is_named_first() {
    let result = resolve_node_functions(None, None, None);
    match result {
        Err(DetectionError::MissingGlobalFunction { name }) => {
            assert_eq!(name, GlobalFnName::ClearInterval);
        }
        _ => panic!("expected an error naming clearInterval"),
    }
}

#[test]
fn all_three_functions_resolve_to_a_node_scope() {
    let result = resolve_node_functions(
        Some(null_function()),
        Some(null_function()),
        Some(null_function()),
    );
    match result {
        Ok(WebGlobalScope::NodeJs { .. }) => {}
        _ => panic!("expected a script-host scope"),
    }
}

#[test]
fn native_success_hands_the_identifier_on() {
    assert_eq!(browser_dispatch_result(Ok(7)), Ok(7));
    assert_eq!(browser_dispatch_result(Ok(0)), Ok(0));
    assert_eq!(browser_dispatch_result(Ok(-3)), Ok(-3));
}

#[test]
fn native_failure_is_host_rejected() {
    assert_eq!(
        browser_dispatch_result(Err(JsValue::NULL)),
        Err(DispatchError::HostRejected)
    );
}

#[test]
fn script_host_native_failure_is_host_rejected() {
    assert_eq!(
        node_dispatch_result(Err(JsValue::NULL)),
        Err(DispatchError::HostRejected)
    );
}

#[test]
fn coerced_forty_two_normalizes_to_forty_two() {
    assert_eq!(normalize_timeout_id(Some(42)), Ok(42));
}

#[test]
fn coerced_identifier_is_returned_unchanged() {
    assert_eq!(normalize_timeout_id(Some(0)), Ok(0));
    assert_eq!(normalize_timeout_id(Some(-7)), Ok(-7));
    assert_eq!(normalize_timeout_id(Some(i32::MAX)), Ok(i32::MAX));
}

#[test]
fn failed_coercion_is_a_normalization_failure() {
    assert_eq!(
        normalize_timeout_id(None),
        Err(DispatchError::IdentifierNormalizationFailed)
    );
}

#[test]
fn global_function_names() {
    assert_eq!(GlobalFnName::ClearInterval.js_name(), "clearInterval");
    assert_eq!(GlobalFnName::SetInterval.js_name(), "setInterval");
    assert_eq!(GlobalFnName::SetTimeout.js_name(), "setTimeout");
}
