//! The logger capability: three levels, each taking the request context and
//! a message and giving the record to write.

use crate::application::context_request::ContextRequest;
use vstd::prelude::*;

verus! {

/// The level of a log record.
#[derive(Clone, Copy, Debug, PartialEq, Eq, Structural)]
pub enum LogLevel {
    Info,
    Warn,
    Error,
}

/// One line for the log sink, with its level.
#[derive(Clone, Debug)]
pub struct LogRecord {
    pub level: LogLevel,
    pub line: String,
}

/// A logger: it renders a message in the context of a request, at the level
/// of the method called. How the line looks is the logger's own business.
/// Writing the record to the sink is left to the caller at the edge of the
/// process.
pub trait LoggerTrait {
    /// The lines that this logger may make of a message. A logger that says
    /// nothing of itself may make any line.
    open spec fn renders(&self, ctx: ContextRequest, msg: Seq<char>, line: Seq<char>) -> bool {
        true
    }

    fn info(&self, ctx: &ContextRequest, msg: &str) -> (r: LogRecord)
        requires
            ctx.request_id().is_some(),
        ensures
            r.level == LogLevel::Info,
            self.renders(*ctx, msg@, r.line@),
    ;

    fn warn(&self, ctx: &ContextRequest, msg: &str) -> (r: LogRecord)
        requires
            ctx.request_id().is_some(),
        ensures
            r.level == LogLevel::Warn,
            self.renders(*ctx, msg@, r.line@),
    ;

    fn error(&self, ctx: &ContextRequest, msg: &str) -> (r: LogRecord)
        requires
            ctx.request_id().is_some(),
        ensures
            r.level == LogLevel::Error,
            self.renders(*ctx, msg@, r.line@),
    ;
}

} // verus!
