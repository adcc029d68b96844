//! The record that closes a request, written once the response is known.

use crate::application::context_request::first_text;
use crate::application::context_request::header_first_text;
use crate::application::context_request::header_texts;
use crate::application::context_request::lemma_request_id_header_is_name;
use crate::application::context_request::request_id_header;
use crate::application::logger_trait::LogLevel;
use crate::application::logger_trait::LogRecord;
use axum::http::HeaderMap;
use vstd::prelude::*;
use vstd::string::StringExecFns;

verus! {

/// The request identifier that a response carries: the text of its first
/// `X-Request-Id` value, or a hyphen where it has none or one that is no
/// text.
pub open spec fn echoed_request_id(header: HeaderMap) -> Seq<char> {
    match first_text(header_texts(header), request_id_header()) {
        Some(text) => text,
        None => "-"@,
    }
}

/// The closing line for a response with the given identifier, status and
/// latency in microseconds, the last two as they are written.
pub open spec fn finish_line(
    request_id: Seq<char>,
    status: Seq<char>,
    micros: Seq<char>,
) -> Seq<char> {
    "[request_id="@ + request_id + " status=("@ + status + ") latency="@ + micros
        + "μs] finish request !!"@
}

/// Reads the request identifier back from the headers of a response.
pub fn response_request_id(header: &HeaderMap) -> (r: String)
    ensures
        r@ == echoed_request_id(*header),
{
    proof {
        lemma_request_id_header_is_name();
    }
    match header_first_text(header, "x-request-id") {
        Some(text) => text,
        None => String::from_str("-"),
    }
}

/// Renders the record that closes a request, at info level.
pub fn finish_request(header: &HeaderMap, status: &str, micros: &str) -> (r: LogRecord)
    ensures
        r.level == LogLevel::Info,
        r.line@ == finish_line(echoed_request_id(*header), status@, micros@),
{
    let request_id = response_request_id(header);
    let mut line = String::from_str("[request_id=");
    line.append(request_id.as_str());
    line.append(" status=(");
    line.append(status);
    line.append(") latency=");
    line.append(micros);
    line.append("μs] finish request !!");
    LogRecord { level: LogLevel::Info, line }
}

} // verus!
