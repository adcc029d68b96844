//! What the request middleware decides before the handler runs: the fresh
//! request identifier, the context and the first log record.

use crate::application::context_request::has_room;
use crate::application::context_request::header_set_text;
use crate::application::context_request::header_texts;
use crate::application::context_request::is_visible_char;
use crate::application::context_request::is_visible_text;
use crate::application::context_request::lemma_request_id_header_is_name;
use crate::application::context_request::new_context_request;
use crate::application::context_request::request_id_header;
use crate::application::context_request::ContextRequest;
use crate::application::logger_trait::LogLevel;
use crate::application::logger_trait::LogRecord;
use crate::application::logger_trait::LoggerTrait;
use crate::infrastructure::logger_log::Logger;
use axum::http::HeaderMap;
use vstd::prelude::*;

verus! {

/// What the middleware hands on: the context to attach to the request and
/// the record to write before the handler runs.
#[derive(Debug)]
pub struct RequestStart {
    pub ctx: ContextRequest,
    pub log: LogRecord,
}

/// A lower-case hexadecimal digit.
pub open spec fn is_lower_hex(c: char) -> bool {
    ('0' <= c && c <= '9') || ('a' <= c && c <= 'f')
}

/// The places of the four hyphens in the hyphenated form of a UUID.
pub open spec fn is_hyphen_place(i: int) -> bool {
    i == 8 || i == 13 || i == 18 || i == 23
}

/// The hyphenated lower-case form of a version 4 UUID: 36 characters in
/// groups of 8, 4, 4, 4 and 12 hexadecimal digits, the third group starting
/// with the version, 4, and the fourth with the variant, one of 8, 9, a, b.
pub open spec fn is_uuid_v4_text(text: Seq<char>) -> bool {
    &&& text.len() == 36
    &&& forall|i: int|
        0 <= i < 36 ==> if is_hyphen_place(i) {
            #[trigger] text[i] == '-'
        } else {
            is_lower_hex(text[i])
        }
    &&& text[14] == '4'
    &&& (text[19] == '8' || text[19] == '9' || text[19] == 'a' || text[19] == 'b')
}

/// The text of a UUID is visible text, so a header value can hold it.
pub proof fn lemma_uuid_text_is_visible(text: Seq<char>)
    requires
        is_uuid_v4_text(text),
    ensures
        is_visible_text(text),
{
    assert forall|i: int| 0 <= i < text.len() implies is_visible_char(#[trigger] text[i]) by {
        if is_hyphen_place(i) {
            assert(text[i] == '-');
        } else {
            assert(is_lower_hex(text[i]));
        }
    }
}

/// The message of the record that opens a request.
pub open spec fn start_message() -> Seq<char> {
    "start request !!"@
}

/// Draws a random UUID with `Uuid::new_v4` and writes it with its `Display`
/// impl.
///
/// Not proved: that the text has the hyphenated lower-case form of a version
/// 4 UUID. `uuid` sets the version and variant bits of 128 random bits and
/// writes them as 32 lower-case hexadecimal digits with four hyphens. Which
/// digits come is chance.
#[verifier::external_body]
fn new_request_id() -> (r: String)
    ensures
        is_uuid_v4_text(r@),
{
    uuid::Uuid::new_v4().to_string()
}

impl RequestStart {
    /// This start belongs to a request with headers `before`, to which the
    /// middleware gave the identifier `request_id`, leaving `after`.
    pub open spec fn opens(
        self,
        before: HeaderMap,
        after: HeaderMap,
        method: Seq<char>,
        uri: Seq<char>,
        request_id: Seq<char>,
    ) -> bool {
        &&& header_texts(after) == header_texts(before).insert(
            request_id_header(),
            seq![Some(request_id)],
        )
        &&& header_texts(self.ctx.header) == header_texts(after)
        &&& self.ctx.request_id() == Some(request_id)
        &&& self.ctx.method@ == method
        &&& self.ctx.uri@ == uri
        &&& self.log.level == LogLevel::Info
        &&& self.log.line@ == Logger::line(self.ctx, start_message())
    }
}

/// Opens a request with a given identifier: stores it as the only value of
/// `X-Request-Id`, whatever the client sent under that name, builds the
/// context from the headers as they then are, and renders the opening
/// record. `None`, with the headers as they were, where the header map takes
/// no further entry; a map with room always takes it.
pub fn begin_request(
    header: &mut HeaderMap,
    method: &str,
    uri: &str,
    request_id: &str,
) -> (r: Option<RequestStart>)
    requires
        is_visible_text(request_id@),
    ensures
        match r {
            Some(start) => start.opens(*old(header), *final(header), method@, uri@, request_id@),
            None => header_texts(*final(header)) == header_texts(*old(header)),
        },
        has_room(header_texts(*old(header))) ==> r.is_some(),
{
    proof {
        lemma_request_id_header_is_name();
    }
    if !header_set_text(header, "x-request-id", request_id) {
        return None;
    }
    let ctx = new_context_request(header, method, uri);
    let logger = Logger::new();
    let log = logger.info(&ctx, "start request !!");
    Some(RequestStart { ctx, log })
}

/// Opens a request with a fresh random identifier, a version 4 UUID in
/// hyphenated form. `None`, with the headers as they were, where the header
/// map takes no further entry; a map with room always takes it.
pub fn request_middleware(
    header: &mut HeaderMap,
    method: &str,
    uri: &str,
) -> (r: Option<RequestStart>)
    ensures
        match r {
            Some(start) => {
                &&& start.ctx.request_id().is_some()
                &&& is_uuid_v4_text(start.ctx.request_id().unwrap())
                &&& start.opens(
                    *old(header),
                    *final(header),
                    method@,
                    uri@,
                    start.ctx.request_id().unwrap(),
                )
            },
            None => header_texts(*final(header)) == header_texts(*old(header)),
        },
        has_room(header_texts(*old(header))) ==> r.is_some(),
{
    let request_id = new_request_id();
    proof {
        lemma_uuid_text_is_visible(request_id@);
    }
    begin_request(header, method, uri, request_id.as_str())
}

} // verus!
