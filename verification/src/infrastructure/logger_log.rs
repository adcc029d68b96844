//! The logger that prefixes every message with the request it belongs to.

use crate::application::context_request::ContextRequest;
use crate::application::logger_trait::LogLevel;
use crate::application::logger_trait::LogRecord;
use crate::application::logger_trait::LoggerTrait;
use vstd::prelude::*;
use vstd::string::StringExecFns;

verus! {

/// The structured logger.
#[derive(Clone, Debug)]
pub struct Logger {}

impl Logger {
    /// A logger. It holds nothing: every line is made from the context and
    /// the message alone.
    pub fn new() -> (r: Logger)
        ensures
            r == (Logger {  }),
    {
        Logger {  }
    }

    /// The prefix that names the request: its identifier, method and URI.
    pub open spec fn req_info(ctx: ContextRequest) -> Seq<char> {
        "request_id="@ + ctx.request_id().unwrap() + " method="@ + ctx.method@ + " uri="@ + ctx.uri@
    }

    /// A whole line: the prefix in square brackets, a space and the message.
    pub open spec fn line(ctx: ContextRequest, msg: Seq<char>) -> Seq<char> {
        "["@ + Logger::req_info(ctx) + "] "@ + msg
    }

    /// Renders the prefix that names the request.
    pub fn get_req_info_from_ctx(ctx: &ContextRequest) -> (r: String)
        requires
            ctx.request_id().is_some(),
        ensures
            r@ == Logger::req_info(*ctx),
    {
        let request_id = ctx.get_request_id().unwrap();
        let mut out = String::from_str("request_id=");
        out.append(request_id.as_str());
        out.append(" method=");
        out.append(ctx.method.as_str());
        out.append(" uri=");
        out.append(ctx.uri.as_str());
        out
    }

    /// Renders a whole line at the given level.
    pub fn record(level: LogLevel, ctx: &ContextRequest, msg: &str) -> (r: LogRecord)
        requires
            ctx.request_id().is_some(),
        ensures
            r.level == level,
            r.line@ == Logger::line(*ctx, msg@),
    {
        let req_info = Logger::get_req_info_from_ctx(ctx);
        let mut line = String::from_str("[");
        line.append(req_info.as_str());
        line.append("] ");
        line.append(msg);
        LogRecord { level, line }
    }
}

impl LoggerTrait for Logger {
    /// This logger makes one line of each message: the request in square
    /// brackets, a space and the message.
    open spec fn renders(&self, ctx: ContextRequest, msg: Seq<char>, line: Seq<char>) -> bool {
        line == Logger::line(ctx, msg)
    }

    fn info(&self, ctx: &ContextRequest, msg: &str) -> (r: LogRecord) {
        Logger::record(LogLevel::Info, ctx, msg)
    }

    fn warn(&self, ctx: &ContextRequest, msg: &str) -> (r: LogRecord) {
        Logger::record(LogLevel::Warn, ctx, msg)
    }

    fn error(&self, ctx: &ContextRequest, msg: &str) -> (r: LogRecord) {
        Logger::record(LogLevel::Error, ctx, msg)
    }
}

} // verus!
