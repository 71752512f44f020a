//! Log records as tracepoints.
//!
//! A program that logs through a logging facade can publish its records
//! on a tracing channel: the provider `rust_logging` has one event for each
//! severity, and every record becomes one call of the event of its
//! severity. This module holds the schema of that provider and the rule
//! that turns a record into the arguments of the call.

use crate::schema::{FieldView, InstanceView, Provider};
use crate::types::{CIntegerType, CTFType, LogLevel};
use vstd::prelude::*;
use vstd::string::*;

verus! {

/// The severity of a log record, the most severe first.
#[derive(Copy, Clone, PartialEq, Eq, Debug, Structural)]
pub enum Level {
    Error,
    Warn,
    Info,
    Debug,
    Trace,
}

impl Level {
    /// Name of the event that carries the records of this severity.
    pub open spec fn tracepoint_text(self) -> Seq<char> {
        match self {
            Level::Error => "error"@,
            Level::Warn => "warn"@,
            Level::Info => "info"@,
            Level::Debug => "debug"@,
            Level::Trace => "trace"@,
        }
    }

    /// The log level that the tracing library is told for the event of this
    /// severity.
    pub open spec fn spec_log_level(self) -> LogLevel {
        match self {
            Level::Error => LogLevel::Error,
            Level::Warn => LogLevel::Warning,
            Level::Info => LogLevel::Info,
            Level::Debug => LogLevel::DebugLine,
            Level::Trace => LogLevel::Debug,
        }
    }

    /// Name of the event that carries the records of this severity.
    pub fn tracepoint(self) -> (name: &'static str)
        ensures
            name@ == self.tracepoint_text(),
    {
        match self {
            Level::Error => "error",
            Level::Warn => "warn",
            Level::Info => "info",
            Level::Debug => "debug",
            Level::Trace => "trace",
        }
    }

    /// The log level that the tracing library is told for the event of this
    /// severity.
    #[verifier::when_used_as_spec(spec_log_level)]
    pub fn log_level(self) -> (level: LogLevel)
        ensures
            level == self.spec_log_level(),
    {
        match self {
            Level::Error => LogLevel::Error,
            Level::Warn => LogLevel::Warning,
            Level::Info => LogLevel::Info,
            Level::Debug => LogLevel::DebugLine,
            Level::Trace => LogLevel::Debug,
        }
    }
}

/// One call of an event of the provider `rust_logging`: the event, and the
/// five arguments in the order of the fields of its class.
#[derive(PartialEq, Eq, Debug)]
pub struct LogEvent {
    /// The severity whose event is called.
    pub level: Level,
    pub file: String,
    pub line: u32,
    pub module: String,
    pub target: String,
    pub message: String,
}

/// What stands for a source file or a module path that a record does not
/// give.
pub open spec fn unknown_text() -> Seq<char> {
    "<unknown>"@
}

/// The text of `given`, or what stands for an unknown place.
pub open spec fn text_or_unknown(given: Option<&str>) -> Seq<char> {
    match given {
        Some(text) => text@,
        None => unknown_text(),
    }
}

/// The text of `given`, or what stands for an unknown place.
fn or_unknown(given: Option<&str>) -> (text: String)
    ensures
        text@ == text_or_unknown(given),
{
    match given {
        Some(text) => text.to_owned(),
        None => "<unknown>".to_owned(),
    }
}

/// The call that publishes one log record.
///
/// Every record is published, whatever its severity. The event is the one
/// of the record's severity. A record that does not say where it comes from
/// is published with `<unknown>` as its file and its module path, and with
/// 0 as its line.
pub fn log_event(
    level: Level,
    file: Option<&str>,
    line: Option<u32>,
    module: Option<&str>,
    target: &str,
    message: &str,
) -> (event: LogEvent)
    ensures
        event.level == level,
        event.file@ == text_or_unknown(file),
        event.line == match line {
            Some(n) => n,
            None => 0,
        },
        event.module@ == text_or_unknown(module),
        event.target@ == target@,
        event.message@ == message@,
{
    LogEvent {
        level,
        file: or_unknown(file),
        line: match line {
            Some(n) => n,
            None => 0,
        },
        module: or_unknown(module),
        target: target.to_owned(),
        message: message.to_owned(),
    }
}

/// The fields of a log record, in the order of the arguments of
/// [`LogEvent`].
pub open spec fn log_entry_fields() -> Seq<FieldView> {
    seq![
        FieldView { ctf_type: CTFType::SequenceText, name: "file"@ },
        FieldView { ctf_type: CTFType::Integer(CIntegerType::U32), name: "line"@ },
        FieldView { ctf_type: CTFType::SequenceText, name: "module_path"@ },
        FieldView { ctf_type: CTFType::SequenceText, name: "target"@ },
        FieldView { ctf_type: CTFType::SequenceText, name: "message"@ },
    ]
}

/// The event of the severity `level`.
pub open spec fn log_entry_instance(level: Level) -> InstanceView {
    InstanceView { name: level.tracepoint_text(), level: Some(level.log_level()) }
}

/// The events of the class of log records, the least severe first.
pub open spec fn log_entry_instances() -> Seq<InstanceView> {
    seq![
        log_entry_instance(Level::Trace),
        log_entry_instance(Level::Debug),
        log_entry_instance(Level::Info),
        log_entry_instance(Level::Warn),
        log_entry_instance(Level::Error),
    ]
}

/// The provider `rust_logging`: one class, `log_entry`, with the fields of
/// a log record, and one event for each severity, named after the severity
/// and with the log level that belongs to it.
pub fn logging_provider() -> (provider: Provider)
    ensures
        provider@.name == "rust_logging"@,
        provider@.classes.len() == 1,
        provider@.classes[0].class_name == "log_entry"@,
        provider@.classes[0].fields == log_entry_fields(),
        provider@.classes[0].instances == log_entry_instances(),
        provider@.supported(),
{
    let mut provider = Provider::new("rust_logging");
    let class = provider.create_class("log_entry");
    class.add_field("file", CTFType::SequenceText).add_field(
        "line",
        CTFType::Integer(CIntegerType::U32),
    ).add_field("module_path", CTFType::SequenceText).add_field(
        "target",
        CTFType::SequenceText,
    ).add_field("message", CTFType::SequenceText);
    class.instantiate_with_level(Level::Trace.tracepoint(), Level::Trace.log_level());
    class.instantiate_with_level(Level::Debug.tracepoint(), Level::Debug.log_level());
    class.instantiate_with_level(Level::Info.tracepoint(), Level::Info.log_level());
    class.instantiate_with_level(Level::Warn.tracepoint(), Level::Warn.log_level());
    class.instantiate_with_level(Level::Error.tracepoint(), Level::Error.log_level());
    proof {
        assert(provider@.classes[0].fields =~= log_entry_fields());
        assert(provider@.classes[0].instances =~= log_entry_instances());
    }
    provider
}

/// Every severity has its event in the provider `rust_logging`: the class
/// of log records has an event of the severity's name and log level.
pub proof fn lemma_every_level_has_an_event(level: Level)
    ensures
        exists|j: int|
            0 <= j < log_entry_instances().len() && #[trigger] log_entry_instances()[j]
                == log_entry_instance(level),
{
    let instances = log_entry_instances();
    match level {
        Level::Trace => assert(instances[0] == log_entry_instance(level)),
        Level::Debug => assert(instances[1] == log_entry_instance(level)),
        Level::Info => assert(instances[2] == log_entry_instance(level)),
        Level::Warn => assert(instances[3] == log_entry_instance(level)),
        Level::Error => assert(instances[4] == log_entry_instance(level)),
    }
}

} // verus!
