//! The request context: the headers, method and URI of one inbound request,
//! built once and handed explicitly to every layer.

use axum::http::HeaderMap;
use vstd::prelude::*;
use vstd::string::StringExecFns;

verus! {

/// `http`'s multimap of header names to header values, as `axum` hands it on.
#[verifier::external_type_specification]
#[verifier::external_body]
#[verifier::reject_recursive_types(T)]
pub struct ExHeaderMap<T>(axum::http::HeaderMap<T>);

/// `http`'s header value, the type of the values in a header map: bytes that
/// were checked when the value was made.
#[verifier::external_type_specification]
#[verifier::external_body]
pub struct ExHeaderValue(axum::http::HeaderValue);

/// What a header map holds: for each header name in it, written in lower
/// case, the values stored under that name in their order, each as its text
/// where it is made of visible ASCII and tabs only, and as `None` where it
/// holds any other byte.
pub uninterp spec fn header_texts(header: HeaderMap) -> Map<Seq<char>, Seq<Option<Seq<char>>>>;

/// A character of a header name that needs no normalising: a lower-case
/// letter, a digit or a hyphen.
pub open spec fn is_name_char(c: char) -> bool {
    ('a' <= c && c <= 'z') || ('0' <= c && c <= '9') || c == '-'
}

/// A short header name in its stored form.
pub open spec fn is_header_name(name: Seq<char>) -> bool {
    &&& 1 <= name.len() <= 64
    &&& forall|i: int| 0 <= i < name.len() ==> is_name_char(#[trigger] name[i])
}

/// A character that a header value can show as text: a tab, a space or a
/// printable ASCII character.
pub open spec fn is_visible_char(c: char) -> bool {
    (' ' <= c && c <= '~') || c == '\t'
}

/// Text that a header value can show.
pub open spec fn is_visible_text(text: Seq<char>) -> bool {
    forall|i: int| 0 <= i < text.len() ==> is_visible_char(#[trigger] text[i])
}

/// The text of the first value stored under `name`, if there is a value and
/// it is text.
pub open spec fn first_text(
    fields: Map<Seq<char>, Seq<Option<Seq<char>>>>,
    name: Seq<char>,
) -> Option<Seq<char>> {
    if fields.contains_key(name) && fields[name].len() > 0 {
        fields[name][0]
    } else {
        None
    }
}

/// The name of the header that carries the request identifier, in its stored
/// form.
pub open spec fn request_id_header() -> Seq<char> {
    "x-request-id"@
}

/// The request identifier header is a header name in stored form.
pub proof fn lemma_request_id_header_is_name()
    ensures
        is_header_name(request_id_header()),
{
    reveal_strlit("x-request-id");
    let name = "x-request-id"@;
    assert(name.len() == 12);
    assert forall|i: int| 0 <= i < name.len() implies is_name_char(#[trigger] name[i]) by {
        assert(name[0] == 'x' && name[1] == '-' && name[2] == 'r' && name[3] == 'e');
        assert(name[4] == 'q' && name[5] == 'u' && name[6] == 'e' && name[7] == 's');
        assert(name[8] == 't' && name[9] == '-' && name[10] == 'i' && name[11] == 'd');
    }
}

/// Looks a header up with `HeaderMap::get` and reads the value found with
/// `HeaderValue::to_str`.
///
/// Not proved: that the lookup finds the first value stored under the name,
/// and that `to_str` gives the value's text exactly where all its bytes are
/// visible ASCII or tabs. The name must be in stored form, so that the
/// lookup's own normalising of names plays no part.
#[verifier::external_body]
pub(crate) fn header_first_text(header: &HeaderMap, name: &str) -> (r: Option<String>)
    requires
        is_header_name(name@),
    ensures
        r.is_some() == first_text(header_texts(*header), name@).is_some(),
        r.is_some() ==> r.unwrap()@ == first_text(header_texts(*header), name@).unwrap(),
{
    let value = header.get(name)?;
    Some(value.to_str().ok()?.to_string())
}

/// A header map that is sure to take one more name: it holds at most 6553.
///
/// `http` keeps the names in a table of at most 32768 slots and refuses an
/// entry only where that table would have to grow further. It grows the
/// table when three quarters of the slots are taken or, once an insertion
/// has met a long run of collisions, when a fifth of them are: with 6553
/// names or fewer, a table of 32768 slots is below both marks.
pub open spec fn has_room(fields: Map<Seq<char>, Seq<Option<Seq<char>>>>) -> bool {
    fields.dom().finite() && fields.dom().len() <= 6553
}

/// Makes a header value with `HeaderValue::from_str` and stores it with
/// `HeaderMap::try_insert`, which replaces every value that was stored under
/// the name.
///
/// Not proved: that after `true` the name holds the one new value and every
/// other name holds what it held, that after `false` (the map is full) the
/// map holds what it held, and that a map with room takes the value. The
/// name must be in stored form and the value visible text: `http` panics on
/// a static name that is no header name, and refuses a value only for a
/// control character in it.
#[verifier::external_body]
pub(crate) fn header_set_text(header: &mut HeaderMap, name: &'static str, value: &str) -> (r: bool)
    requires
        is_header_name(name@),
        is_visible_text(value@),
    ensures
        r ==> header_texts(*final(header)) == header_texts(*old(header)).insert(
            name@,
            seq![Some(value@)],
        ),
        !r ==> header_texts(*final(header)) == header_texts(*old(header)),
        has_room(header_texts(*old(header))) ==> r,
{
    match axum::http::HeaderValue::from_str(value) {
        Ok(made) => header.try_insert(name, made).is_ok(),
        Err(_) => false,
    }
}

/// Copies a header map with its `Clone` impl.
///
/// Not proved: that the copy holds the same names and values in the same
/// order.
#[verifier::external_body]
pub(crate) fn header_copy(header: &HeaderMap) -> (r: HeaderMap)
    ensures
        header_texts(r) == header_texts(*header),
{
    header.clone()
}

/// The context of one request.
#[derive(Debug)]
pub struct ContextRequest {
    pub header: HeaderMap,
    pub method: String,
    pub uri: String,
}

impl Clone for ContextRequest {
    /// A copy that holds the same headers, method and URI.
    fn clone(&self) -> (r: ContextRequest)
        ensures
            header_texts(r.header) == header_texts(self.header),
            r.method@ == self.method@,
            r.uri@ == self.uri@,
    {
        new_context_request(&self.header, self.method.as_str(), self.uri.as_str())
    }
}

impl ContextRequest {
    /// The request identifier: the text of the first `X-Request-Id` value.
    pub open spec fn request_id(self) -> Option<Seq<char>> {
        first_text(header_texts(self.header), request_id_header())
    }

    /// The request identifier, if the context carries one as text.
    pub fn get_request_id(&self) -> (r: Option<String>)
        ensures
            r.is_some() == self.request_id().is_some(),
            r.is_some() ==> r.unwrap()@ == self.request_id().unwrap(),
    {
        proof {
            lemma_request_id_header_is_name();
        }
        header_first_text(&self.header, "x-request-id")
    }
}

/// Builds the context of a request from its headers, method and URI. The
/// context holds copies: nothing in it refers to the request's own storage.
pub fn new_context_request(header: &HeaderMap, method: &str, uri: &str) -> (r: ContextRequest)
    ensures
        header_texts(r.header) == header_texts(*header),
        r.method@ == method@,
        r.uri@ == uri@,
{
    ContextRequest {
        header: header_copy(header),
        method: String::from_str(method),
        uri: String::from_str(uri),
    }
}

} // verus!
