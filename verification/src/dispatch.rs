//! Selecting and invoking the host console operation for a record.

use crate::level::Level;
use crate::record::LogRecord;
use crate::style::Style;
use crate::text::{styled_text, unstyled_text};
use vstd::prelude::*;

verus! {

/// The five host console output operations.
#[derive(Clone, Copy, Debug, PartialEq, Eq, Structural)]
pub enum HostOp {
    /// The console's `error` operation.
    Error,
    /// The console's `warn` operation.
    Warn,
    /// The console's `info` operation.
    Info,
    /// The console's `log` operation.
    Log,
    /// The console's `debug` operation.
    Debug,
}

/// The console operation dispatched for each severity. The mapping is
/// intentionally not name-identical: `Debug` records go to the host's `log`
/// operation and `Trace` records to its `debug` operation.
pub open spec fn host_op_for(l: Level) -> HostOp {
    match l {
        Level::Error => HostOp::Error,
        Level::Warn => HostOp::Warn,
        Level::Info => HostOp::Info,
        Level::Debug => HostOp::Log,
        Level::Trace => HostOp::Debug,
    }
}

/// Selects the host console operation for a severity.
pub fn host_op(level: Level) -> (op: HostOp)
    ensures
        op == host_op_for(level),
{
    match level {
        Level::Error => HostOp::Error,
        Level::Warn => HostOp::Warn,
        Level::Info => HostOp::Info,
        Level::Debug => HostOp::Log,
        Level::Trace => HostOp::Debug,
    }
}

/// Relies on web_sys::console::error_1: writes one message to the host
/// console's error channel.
#[verifier::external_body]
fn console_error(text: &str) {
    web_sys::console::error_1(&wasm_bindgen::JsValue::from_str(text));
}

/// Relies on web_sys::console::warn_1: writes one message to the host
/// console's warn channel.
#[verifier::external_body]
fn console_warn(text: &str) {
    web_sys::console::warn_1(&wasm_bindgen::JsValue::from_str(text));
}

/// Relies on web_sys::console::info_1: writes one message to the host
/// console's info channel.
#[verifier::external_body]
fn console_info(text: &str) {
    web_sys::console::info_1(&wasm_bindgen::JsValue::from_str(text));
}

/// Relies on web_sys::console::log_1: writes one message to the host
/// console's log channel.
#[verifier::external_body]
fn console_log_op(text: &str) {
    web_sys::console::log_1(&wasm_bindgen::JsValue::from_str(text));
}

/// Relies on web_sys::console::debug_1: writes one message to the host
/// console's debug channel.
#[verifier::external_body]
fn console_debug(text: &str) {
    web_sys::console::debug_1(&wasm_bindgen::JsValue::from_str(text));
}

/// Relies on web_sys::console::error_4: writes a message and three style
/// strings to the host console's error channel.
#[verifier::external_body]
fn console_error_styled(text: &str, level_style: &str, location_style: &str, text_style: &str) {
    web_sys::console::error_4(
        &wasm_bindgen::JsValue::from_str(text),
        &wasm_bindgen::JsValue::from_str(level_style),
        &wasm_bindgen::JsValue::from_str(location_style),
        &wasm_bindgen::JsValue::from_str(text_style),
    );
}

/// Relies on web_sys::console::warn_4: writes a message and three style
/// strings to the host console's warn channel.
#[verifier::external_body]
fn console_warn_styled(text: &str, level_style: &str, location_style: &str, text_style: &str) {
    web_sys::console::warn_4(
        &wasm_bindgen::JsValue::from_str(text),
        &wasm_bindgen::JsValue::from_str(level_style),
        &wasm_bindgen::JsValue::from_str(location_style),
        &wasm_bindgen::JsValue::from_str(text_style),
    );
}

/// Relies on web_sys::console::info_4: writes a message and three style
/// strings to the host console's info channel.
#[verifier::external_body]
fn console_info_styled(text: &str, level_style: &str, location_style: &str, text_style: &str) {
    web_sys::console::info_4(
        &wasm_bindgen::JsValue::from_str(text),
        &wasm_bindgen::JsValue::from_str(level_style),
        &wasm_bindgen::JsValue::from_str(location_style),
        &wasm_bindgen::JsValue::from_str(text_style),
    );
}

/// Relies on web_sys::console::log_4: writes a message and three style
/// strings to the host console's log channel.
#[verifier::external_body]
fn console_log_op_styled(text: &str, level_style: &str, location_style: &str, text_style: &str) {
    web_sys::console::log_4(
        &wasm_bindgen::JsValue::from_str(text),
        &wasm_bindgen::JsValue::from_str(level_style),
        &wasm_bindgen::JsValue::from_str(location_style),
        &wasm_bindgen::JsValue::from_str(text_style),
    );
}

/// Relies on web_sys::console::debug_4: writes a message and three style
/// strings to the host console's debug channel.
#[verifier::external_body]
fn console_debug_styled(text: &str, level_style: &str, location_style: &str, text_style: &str) {
    web_sys::console::debug_4(
        &wasm_bindgen::JsValue::from_str(text),
        &wasm_bindgen::JsValue::from_str(level_style),
        &wasm_bindgen::JsValue::from_str(location_style),
        &wasm_bindgen::JsValue::from_str(text_style),
    );
}

/// Print a record to the browser's console at the operation mapped from its
/// severity, passing exactly the record's display-formatted message.
pub fn log(record: &LogRecord) {
    let text = unstyled_text(record);
    match host_op(record.level) {
        HostOp::Error => console_error(text.as_str()),
        HostOp::Warn => console_warn(text.as_str()),
        HostOp::Info => console_info(text.as_str()),
        HostOp::Log => console_log_op(text.as_str()),
        HostOp::Debug => console_debug(text.as_str()),
    }
}

/// Print a record to the browser's console at the operation mapped from its
/// severity, passing the styled composite text together with the style
/// strings for the level label, the location segment, and the message.
pub fn log_styled(record: &LogRecord) {
    let style = Style::default();
    let text = styled_text(record);
    let level_style = style.level_style(record.level);
    match host_op(record.level) {
        HostOp::Error => console_error_styled(
            text.as_str(),
            level_style,
            style.file_line,
            style.text,
        ),
        HostOp::Warn => console_warn_styled(text.as_str(), level_style, style.file_line, style.text),
        HostOp::Info => console_info_styled(text.as_str(), level_style, style.file_line, style.text),
        HostOp::Log => console_log_op_styled(
            text.as_str(),
            level_style,
            style.file_line,
            style.text,
        ),
        HostOp::Debug => console_debug_styled(
            text.as_str(),
            level_style,
            style.file_line,
            style.text,
        ),
    }
}

/// The sink keeps no buffer, so there is nothing to flush: a no-op.
pub fn flush() {
}

} // verus!
