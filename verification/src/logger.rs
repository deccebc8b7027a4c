use vstd::prelude::*;
use vstd::string::StringExecFns;

verus! {

/// Severity of a recorded log event.
#[derive(Clone, Copy, Debug, PartialEq, Eq, Structural)]
pub enum LogLevel {
    Debug,
    Info,
    Warn,
    Error,
}

/// One recorded log event: a severity and its rendered text.
pub struct LogEvent {
    pub level: LogLevel,
    pub text: String,
}

/// Spec-level image of a log event.
#[verifier::ext_equal]
pub ghost struct LogEventModel {
    pub level: LogLevel,
    pub text: Seq<char>,
}

impl View for LogEvent {
    type V = LogEventModel;

    open spec fn view(&self) -> LogEventModel {
        LogEventModel { level: self.level, text: self.text@ }
    }
}

/// The recorded events of a drained event buffer, as spec-level images.
pub open spec fn events_view(v: Seq<LogEvent>) -> Seq<LogEventModel> {
    v.map_values(|e: LogEvent| e@)
}

/// The observability handle: it records leveled log events in order, and
/// an external sink drains and emits them. It is constructed explicitly
/// and passed to whoever logs, rather than living as ambient process-wide
/// state.
pub struct Logger {
    events: Vec<LogEvent>,
}

impl View for Logger {
    type V = Seq<LogEventModel>;

    closed spec fn view(&self) -> Seq<LogEventModel> {
        events_view(self.events@)
    }
}

impl Logger {
    /// A fresh handle with nothing recorded.
    pub fn new() -> (l: Logger)
        ensures
            l@ == Seq::<LogEventModel>::empty(),
    {
        let l = Logger { events: Vec::new() };
        proof {
            assert(l@ =~= Seq::<LogEventModel>::empty());
        }
        l
    }

    /// Appends one event.
    fn push_event(&mut self, level: LogLevel, text: String)
        ensures
            final(self)@ == old(self)@.push((LogEventModel { level, text: text@ })),
    {
        self.events.push(LogEvent { level, text });
        proof {
            assert(self@ =~= old(self)@.push(LogEventModel { level, text: text@ }));
        }
    }

    /// Records an information-level event.
    pub fn info(&mut self, message: &str)
        ensures
            final(self)@ == old(self)@.push(
                (LogEventModel { level: LogLevel::Info, text: message@ }),
            ),
    {
        self.push_event(LogLevel::Info, String::from_str(message));
    }

    /// Records a warning-level event.
    pub fn warn(&mut self, message: &str)
        ensures
            final(self)@ == old(self)@.push(
                (LogEventModel { level: LogLevel::Warn, text: message@ }),
            ),
    {
        self.push_event(LogLevel::Warn, String::from_str(message));
    }

    /// Records an error-level event.
    pub fn error(&mut self, message: &str)
        ensures
            final(self)@ == old(self)@.push(
                (LogEventModel { level: LogLevel::Error, text: message@ }),
            ),
    {
        self.push_event(LogLevel::Error, String::from_str(message));
    }

    /// Records a debug-level event.
    pub fn debug(&mut self, message: &str)
        ensures
            final(self)@ == old(self)@.push(
                (LogEventModel { level: LogLevel::Debug, text: message@ }),
            ),
    {
        self.push_event(LogLevel::Debug, String::from_str(message));
    }

    /// Records an information-level event with a bracketed context tag.
    pub fn info_with_context(&mut self, context: &str, message: &str)
        ensures
            final(self)@ == old(self)@.push(
                (LogEventModel {
                    level: LogLevel::Info,
                    text: "["@ + context@ + "] "@ + message@,
                }),
            ),
    {
        let text = String::from_str("[").concat(context).concat("] ").concat(message);
        self.push_event(LogLevel::Info, text);
    }

    /// Records an error-level event with a bracketed context tag.
    pub fn error_with_context(&mut self, context: &str, message: &str)
        ensures
            final(self)@ == old(self)@.push(
                (LogEventModel {
                    level: LogLevel::Error,
                    text: "["@ + context@ + "] "@ + message@,
                }),
            ),
    {
        let text = String::from_str("[").concat(context).concat("] ").concat(message);
        self.push_event(LogLevel::Error, text);
    }

    /// Records one surface-level call.
    pub fn log_api_call(&mut self, endpoint: &str, method: &str)
        ensures
            final(self)@ == old(self)@.push(
                (LogEventModel {
                    level: LogLevel::Info,
                    text: "API Call: "@ + method@ + " "@ + endpoint@,
                }),
            ),
    {
        let text = String::from_str("API Call: ").concat(method).concat(" ").concat(endpoint);
        self.push_event(LogLevel::Info, text);
    }

    /// Records one store operation.
    pub fn log_db_operation(&mut self, operation: &str, table: &str)
        ensures
            final(self)@ == old(self)@.push(
                (LogEventModel {
                    level: LogLevel::Debug,
                    text: "DB Operation: "@ + operation@ + " on table '"@ + table@ + "'"@,
                }),
            ),
    {
        let text = String::from_str("DB Operation: ").concat(operation).concat(
            " on table '",
        ).concat(table).concat("'");
        self.push_event(LogLevel::Debug, text);
    }

    /// Records one command invocation with its parameters.
    pub fn log_command_execution(&mut self, command: &str, params: &str)
        ensures
            final(self)@ == old(self)@.push(
                (LogEventModel {
                    level: LogLevel::Info,
                    text: "Tauri Command: "@ + command@ + " with params: "@ + params@,
                }),
            ),
    {
        let text = String::from_str("Tauri Command: ").concat(command).concat(
            " with params: ",
        ).concat(params);
        self.push_event(LogLevel::Info, text);
    }

    /// Drains every recorded event, oldest first, leaving the handle
    /// empty; the flush step of the handle's lifecycle.
    pub fn take_events(&mut self) -> (r: Vec<LogEvent>)
        ensures
            events_view(r@) == old(self)@,
            final(self)@ == Seq::<LogEventModel>::empty(),
    {
        let mut out: Vec<LogEvent> = Vec::new();
        core::mem::swap(&mut out, &mut self.events);
        proof {
            assert(self@ =~= Seq::<LogEventModel>::empty());
        }
        out
    }
}

} // verus!
