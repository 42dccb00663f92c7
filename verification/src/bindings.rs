//! The trusted boundary to the host: declarations of the host-handle types
//! and thin wrappers around the host calls this crate relies on.
//!
//! Every function here is `external_body`: its body makes exactly one call
//! into the host bindings (plus argument or result conversion), and nothing
//! about the host's behaviour is assumed beyond the wrapper's signature.
//! Host values are opaque; all decisions taken on them stand in verified
//! code outside this module.

use vstd::prelude::*;
use wasm_bindgen::JsCast;
use wasm_bindgen::JsValue;
use js_sys::Function;
use web_sys::Window;
use web_sys::WorkerGlobalScope;

verus! {

#[verifier::external_type_specification]
#[verifier::external_body]
pub struct ExJsValue(JsValue);

/// An invocable host function handle.
///
/// The host's function type itself cannot stand in verified signatures (its
/// binding carries a function-pointer type parameter), so the library holds
/// it opaquely in this struct. A value of this type comes either from a
/// host value checked to be callable, or from a caller at the boundary that
/// already holds the value as a function.
#[verifier::external_body]
pub struct HostFunction {
    inner: Function,
}

#[verifier::external_type_specification]
#[verifier::external_body]
pub struct ExWindow(Window);

#[verifier::external_type_specification]
#[verifier::external_body]
pub struct ExWorkerGlobalScope(WorkerGlobalScope);

/// Relies on js_sys::global: returns the ambient global object, here carried
/// as a plain host value.
#[verifier::external_body]
pub(crate) fn js_global() -> JsValue {
    js_sys::global().into()
}

/// Relies on js_sys::eval: evaluates the given source text in the host and
/// returns its result, or the thrown value as the error.
#[verifier::external_body]
pub(crate) fn js_eval(code: &str) -> Result<JsValue, JsValue> {
    js_sys::eval(code)
}

/// Relies on wasm_bindgen::JsValue::as_bool: `Some` exactly when the value
/// is a host boolean.
#[verifier::external_body]
pub(crate) fn js_value_as_bool(v: &JsValue) -> Option<bool> {
    v.as_bool()
}

/// Relies on wasm_bindgen::JsValue::is_object: whether the value is a host
/// object.
#[verifier::external_body]
pub(crate) fn js_value_is_object(v: &JsValue) -> bool {
    v.is_object()
}

/// Relies on wasm_bindgen::JsValue::from_str: the given text as a host
/// string value.
#[verifier::external_body]
pub(crate) fn js_string(s: &str) -> JsValue {
    JsValue::from_str(s)
}

/// Relies on wasm_bindgen's From<i32> for JsValue: the given integer as a
/// host number value.
#[verifier::external_body]
pub(crate) fn js_i32(n: i32) -> JsValue {
    JsValue::from(n)
}

/// Relies on wasm_bindgen's JsValue::UNDEFINED constant: the host's
/// `undefined` value.
#[verifier::external_body]
pub(crate) fn js_undefined() -> JsValue {
    JsValue::UNDEFINED
}

/// Relies on js_sys::Reflect::get: the property of `target` named by `key`,
/// or the thrown value as the error.
#[verifier::external_body]
pub(crate) fn reflect_get(target: &JsValue, key: &JsValue) -> Result<JsValue, JsValue> {
    js_sys::Reflect::get(target, key)
}

/// Relies on js_sys::Reflect::has: whether `target` has a property named by
/// `key`, or the thrown value as the error.
#[verifier::external_body]
pub(crate) fn reflect_has(target: &JsValue, key: &JsValue) -> Result<bool, JsValue> {
    js_sys::Reflect::has(target, key)
}

/// Relies on js_sys::Symbol::to_primitive: the well-known
/// `Symbol.toPrimitive` key, here carried as a plain host value.
#[verifier::external_body]
pub(crate) fn symbol_to_primitive_value() -> JsValue {
    js_sys::Symbol::to_primitive().into()
}

/// Relies on wasm_bindgen::JsCast::dyn_into at Function: `Some` exactly when
/// the value is callable in the host.
#[verifier::external_body]
pub(crate) fn js_value_into_function(v: JsValue) -> Option<HostFunction> {
    v.dyn_into::<Function>().ok().map(|f| HostFunction { inner: f })
}

/// Relies on wasm_bindgen::JsCast::unchecked_into at Function: wraps a host
/// value the caller already holds as a function, without re-checking it.
/// The host itself rejects the value if it is in fact not callable.
#[verifier::external_body]
pub fn host_function_unchecked(v: JsValue) -> HostFunction {
    HostFunction { inner: v.unchecked_into() }
}

/// Relies on wasm_bindgen::JsCast::dyn_into at Window: `Some` exactly when
/// the value is a main-thread window object.
#[verifier::external_body]
pub(crate) fn js_value_into_window(v: JsValue) -> Option<Window> {
    v.dyn_into::<Window>().ok()
}

/// Relies on wasm_bindgen::JsCast::dyn_into at WorkerGlobalScope: `Some`
/// exactly when the value is a worker global scope object.
#[verifier::external_body]
pub(crate) fn js_value_into_worker_scope(v: JsValue) -> Option<WorkerGlobalScope> {
    v.dyn_into::<WorkerGlobalScope>().ok()
}

/// Relies on wasm_bindgen's AsRef<JsValue> for Function: the same function
/// viewed as a plain host value.
#[verifier::external_body]
pub(crate) fn function_as_js_value(f: &HostFunction) -> &JsValue {
    f.inner.as_ref()
}

/// Relies on js_sys::Function::call0: calls `f` with the given `this` and no
/// arguments, returning its result or the thrown value as the error.
#[verifier::external_body]
pub(crate) fn function_call0(f: &HostFunction, this: &JsValue) -> Result<JsValue, JsValue> {
    f.inner.call0(this)
}

/// Relies on js_sys::Function::call1: calls `f` with the given `this` and
/// one argument, returning its result or the thrown value as the error.
#[verifier::external_body]
pub(crate) fn function_call1(f: &HostFunction, this: &JsValue, arg1: &JsValue) -> Result<JsValue, JsValue> {
    f.inner.call1(this, arg1)
}

/// Relies on js_sys::Function::call2: calls `f` with the given `this` and
/// two arguments, returning its result or the thrown value as the error.
#[verifier::external_body]
pub(crate) fn function_call2(
    f: &HostFunction,
    this: &JsValue,
    arg1: &JsValue,
    arg2: &JsValue,
) -> Result<JsValue, JsValue> {
    f.inner.call2(this, arg1, arg2)
}

/// Relies on wasm_bindgen::JsValue::as_f64: the value as a host number
/// truncated to a 32-bit integer, or `None` when it is not numeric.
#[verifier::external_body]
pub(crate) fn js_value_as_truncated_i32(v: &JsValue) -> Option<i32> {
    v.as_f64().map(|n| n as i32)
}

/// Relies on web_sys::Window::set_timeout_with_callback_and_timeout_and_arguments_0:
/// schedules `callback` once after `timeout` milliseconds and returns the
/// host's integer handle, or the thrown value as the error.
#[verifier::external_body]
pub(crate) fn window_set_timeout(w: &Window, callback: &HostFunction, timeout: i32) -> Result<i32, JsValue> {
    w.set_timeout_with_callback_and_timeout_and_arguments_0(&callback.inner, timeout)
}

/// Relies on web_sys::Window::set_interval_with_callback_and_timeout_and_arguments_0:
/// schedules `callback` every `timeout` milliseconds and returns the host's
/// integer handle, or the thrown value as the error.
#[verifier::external_body]
pub(crate) fn window_set_interval(w: &Window, callback: &HostFunction, timeout: i32) -> Result<i32, JsValue> {
    w.set_interval_with_callback_and_timeout_and_arguments_0(&callback.inner, timeout)
}

/// Relies on web_sys::Window::clear_interval_with_handle: cancels the timer
/// with the given handle; the host silently ignores unknown handles.
#[verifier::external_body]
pub(crate) fn window_clear_interval(w: &Window, handle: i32) {
    w.clear_interval_with_handle(handle)
}

/// Relies on web_sys::WorkerGlobalScope::set_timeout_with_callback_and_timeout_and_arguments_0:
/// schedules `callback` once after `timeout` milliseconds and returns the
/// host's integer handle, or the thrown value as the error.
#[verifier::external_body]
pub(crate) fn worker_set_timeout(
    w: &WorkerGlobalScope,
    callback: &HostFunction,
    timeout: i32,
) -> Result<i32, JsValue> {
    w.set_timeout_with_callback_and_timeout_and_arguments_0(&callback.inner, timeout)
}

/// Relies on web_sys::WorkerGlobalScope::set_interval_with_callback_and_timeout_and_arguments_0:
/// schedules `callback` every `timeout` milliseconds and returns the host's
/// integer handle, or the thrown value as the error.
#[verifier::external_body]
pub(crate) fn worker_set_interval(
    w: &WorkerGlobalScope,
    callback: &HostFunction,
    timeout: i32,
) -> Result<i32, JsValue> {
    w.set_interval_with_callback_and_timeout_and_arguments_0(&callback.inner, timeout)
}

/// Relies on web_sys::WorkerGlobalScope::clear_interval_with_handle: cancels
/// the timer with the given handle; the host silently ignores unknown
/// handles.
#[verifier::external_body]
pub(crate) fn worker_clear_interval(w: &WorkerGlobalScope, handle: i32) {
    w.clear_interval_with_handle(handle)
}

} // verus!
