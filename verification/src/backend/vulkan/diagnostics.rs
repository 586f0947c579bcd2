//! The diagnostics bridge: where a driver message goes in the host's log.

use crate::backend::vulkan::flags::{
    severity_bits, SEVERITY_ERROR, SEVERITY_INFO, SEVERITY_WARNING,
};
use vstd::prelude::*;
use vstd::string::*;

verus! {

/// The host's log levels that driver messages are routed to.
#[derive(Clone, Copy, Debug, PartialEq, Eq, Structural)]
pub enum LogLevel {
    Error,
    Warn,
    Debug,
    Trace,
}

/// The level for a raw severity: the highest bucket whose threshold the
/// severity reaches.
pub open spec fn spec_severity_level(severity: u32) -> LogLevel {
    if severity >= SEVERITY_ERROR {
        LogLevel::Error
    } else if severity >= SEVERITY_WARNING {
        LogLevel::Warn
    } else if severity >= SEVERITY_INFO {
        LogLevel::Debug
    } else {
        LogLevel::Trace
    }
}

/// Routes a raw severity to a log level. Errors go to `Error`, warnings to
/// `Warn`, informational messages to `Debug`, the rest to `Trace`; a
/// severity between two thresholds, or with several bits set, goes by the
/// highest threshold it reaches.
pub fn severity_level(severity: u32) -> (level: LogLevel)
    ensures
        level == spec_severity_level(severity),
{
    let thresholds = severity_bits();
    if severity >= thresholds.error {
        LogLevel::Error
    } else if severity >= thresholds.warning {
        LogLevel::Warn
    } else if severity >= thresholds.info {
        LogLevel::Debug
    } else {
        LogLevel::Trace
    }
}

/// How `ash` prints raw message-type flags: the names of the known
/// categories that are set, then any unknown bits.
pub uninterp spec fn message_type_text(message_type: u32) -> Seq<char>;

/// `Debug` of `ash::vk::DebugUtilsMessageTypeFlagsEXT`, applied to the
/// given raw flags. The text depends on the flags alone.
#[verifier::external_body]
fn describe_message_type(message_type: u32) -> (text: String)
    ensures
        text@ == message_type_text(message_type),
{
    format!("{:?}", ash::vk::DebugUtilsMessageTypeFlagsEXT::from_raw(message_type))
}

/// The line logged for a message of the given categories.
pub open spec fn diagnostic_text(type_text: Seq<char>, message: Seq<char>) -> Seq<char> {
    "("@ + type_text + ") "@ + message
}

/// Formats the line to log: the categories in parentheses, a space, the
/// message.
pub fn format_diagnostic(type_text: &str, message: &str) -> (line: String)
    ensures
        line@ == diagnostic_text(type_text@, message@),
{
    let mut line = String::from_str("(");
    line.append(type_text);
    line.append(") ");
    line.append(message);
    line
}

/// What to do with one driver message.
#[derive(Debug)]
pub struct DiagnosticRecord {
    /// The level to log at.
    pub level: LogLevel,
    /// The line to log.
    pub text: String,
    /// Whether the driver call that raised the message is to be aborted.
    pub abort_call: bool,
}

/// Handles one driver message: routes it by severity, formats it with its
/// categories, and never aborts the call that raised it.
pub fn debug_callback(
    severity: u32,
    message_type: u32,
    message: &str,
) -> (record: DiagnosticRecord)
    ensures
        record.level == spec_severity_level(severity),
        record.text@ == diagnostic_text(message_type_text(message_type), message@),
        !record.abort_call,
{
    let type_text = describe_message_type(message_type);
    DiagnosticRecord {
        level: severity_level(severity),
        text: format_diagnostic(type_text.as_str(), message),
        abort_call: false,
    }
}

} // verus!
