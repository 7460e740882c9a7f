//! One exchange with a client, from the bytes of its request to the bytes of
//! the reply. Reading the requested file is left to the caller: `handle` says
//! which file to read, and `complete` takes what came of reading it.

use vstd::prelude::*;
use vstd::utf8::{encode_utf8, is_ascii_chars, is_ascii_chars_encode_utf8};
use crate::configuration::Config;
use crate::protocol::{
    field_text, is_error_class, RequestField, RequestMethod, RequestVersion, StatusCode,
};
use crate::request::{crlf, parse_request, Header, HeaderView, MIN_REQUEST_LEN};
use crate::response::{
    header_lines, last_modified_text, plain_response, resource_fields, resource_path,
    resource_path_of, response_for, status_line, wants_resource, wire_bytes, wire_text, Resource,
    ResourceView, Response, ResponseView,
};
use crate::text::decimal;

verus! {

/// What is to be done next for a request.
#[derive(Debug)]
pub enum Action {
    /// The reply is ready: send these bytes and close the connection.
    Reply(Vec<u8>),
    /// The file at `path` is to be read, and what comes of it handed to
    /// `complete` together with `header`.
    Fetch { header: Header, path: String },
}

/// The reply to a request, given what came of reading the file it asked for.
pub open spec fn reply_bytes(buffer: Seq<u8>, file: ResourceView) -> Seq<u8> {
    wire_bytes(response_for(parse_request(buffer), file))
}

/// The reply to a request that is not valid.
pub open spec fn bad_request_text() -> Seq<char> {
    "HTTP/1.0 400 Bad Request\r\n\r\n"@
}

/// Take the bytes of one request. The result is the reply itself where no
/// file is needed for it, and else the file to read.
///
/// A file is needed for a valid `Get` or `Head` request. Where such a request
/// asks for `/` and no index file is configured, the reply is that of a file
/// that is missing.
pub fn handle(buffer: &[u8], config: &Config) -> (a: Action)
    ensures
        ({
            let h = parse_request(buffer@);
            match a {
                Action::Reply(bytes) => !(wants_resource(h) && resource_path_of(h.path, *config)
                    is Some) && bytes@ == reply_bytes(buffer@, ResourceView::Missing),
                Action::Fetch { header, path } => wants_resource(h) && header@ == h
                    && resource_path_of(h.path, *config) == Some(path@),
            }
        }),
        buffer@.len() < MIN_REQUEST_LEN ==> (a matches Action::Reply(bytes) && bytes@
            == encode_utf8(bad_request_text())),
{
    proof {
        if buffer@.len() < MIN_REQUEST_LEN {
            lemma_short_request(buffer@, ResourceView::Missing);
        }
    }
    let header = Header::new(buffer);
    let method = header.get_method();
    if header.is_valid() && (method == RequestMethod::Get || method == RequestMethod::Head) {
        match resource_path(header.get_path(), config) {
            Ok(path) => Action::Fetch { header, path },
            Err(_) => Action::Reply(complete(&header, Resource::Missing)),
        }
    } else {
        Action::Reply(complete(&header, Resource::Missing))
    }
}

/// Build and serialize the response to a request, given what came of reading
/// the file it asked for.
pub fn complete(header: &Header, file: Resource) -> (bytes: Vec<u8>)
    ensures
        bytes@ == wire_bytes(response_for(header@, file@)),
{
    let mut response = Response::new(header, file);
    response.respond()
}

/// A request that is not valid is answered with the status line of a bad
/// request and an empty line, and nothing else, whatever the file holds.
pub proof fn lemma_invalid_request(buffer: Seq<u8>, file: ResourceView)
    requires
        !parse_request(buffer).valid,
    ensures
        reply_bytes(buffer, file) == encode_utf8(bad_request_text()),
{
    reveal_strlit("HTTP/1.0 400 Bad Request\r\n\r\n");
    reveal_strlit("HTTP/1.0");
    reveal_strlit("400 Bad Request");
    let r = plain_response(StatusCode::BadRequest);
    assert(response_for(parse_request(buffer), file) == r);
    assert(wire_text(r) =~= bad_request_text());
}

/// Every request shorter than `MIN_REQUEST_LEN` bytes is answered as a bad
/// request, without a body.
pub proof fn lemma_short_request(buffer: Seq<u8>, file: ResourceView)
    requires
        buffer.len() < MIN_REQUEST_LEN,
    ensures
        reply_bytes(buffer, file) == encode_utf8(bad_request_text()),
{
    lemma_invalid_request(buffer, file);
}

/// The reply to a request that is not valid is 28 bytes long, and each byte
/// is the code of the character of `bad_request_text` at its place.
pub proof fn lemma_bad_request_bytes()
    ensures
        encode_utf8(bad_request_text()).len() == 28,
        forall|i: int|
            0 <= i < 28 ==> #[trigger] encode_utf8(bad_request_text())[i] == bad_request_text()[i]
                as u8,
{
    reveal_strlit("HTTP/1.0 400 Bad Request\r\n\r\n");
    assert(is_ascii_chars(bad_request_text()));
    is_ascii_chars_encode_utf8(bad_request_text());
}

/// The reply depends on nothing but the bytes of the request and what came of
/// reading the file: handling the same request again gives the same bytes.
pub proof fn lemma_reply_is_repeatable(
    first: Seq<u8>,
    second: Seq<u8>,
    first_file: ResourceView,
    second_file: ResourceView,
)
    requires
        first == second,
        first_file == second_file,
    ensures
        reply_bytes(first, first_file) == reply_bytes(second, second_file),
{
}

/// A response of the error class goes out as its status line and an empty
/// line, whatever fields and content it holds.
pub proof fn lemma_error_reply(r: ResponseView)
    requires
        is_error_class(r.status),
    ensures
        wire_bytes(r) == encode_utf8(status_line(r) + crlf()),
{
}

/// The response to any request has content only with a status that is not of
/// the error class, is sent as HTTP/1.0, and has one of four statuses.
pub proof fn lemma_response_for(h: HeaderView, file: ResourceView)
    ensures
        is_error_class(response_for(h, file).status) ==> response_for(h, file).content.len() == 0
            && response_for(h, file).fields.len() == 0,
        response_for(h, file).version == RequestVersion::HTTP1,
        response_for(h, file).status == StatusCode::BadRequest <==> !h.valid,
        response_for(h, file).status == StatusCode::OK <==> wants_resource(h)
            && file is Found,
        response_for(h, file).status == StatusCode::NotFound <==> wants_resource(h)
            && !(file is Found),
        response_for(h, file).status == StatusCode::NotImplemented <==> h.valid
            && !wants_resource(h),
{
}

/// A valid `Get` or `Head` request for a file that could not be read is
/// answered with the status line of `NotFound` and an empty line, whatever
/// the failure was.
pub proof fn lemma_missing_file(h: HeaderView, file: ResourceView)
    requires
        wants_resource(h),
        !(file is Found),
    ensures
        wire_bytes(response_for(h, file)) == encode_utf8("HTTP/1.0 404 Not Found\r\n\r\n"@),
{
    reveal_strlit("HTTP/1.0 404 Not Found\r\n\r\n");
    reveal_strlit("HTTP/1.0");
    reveal_strlit("404 Not Found");
    let r = plain_response(StatusCode::NotFound);
    assert(response_for(h, file) == r);
    assert(wire_text(r) =~= "HTTP/1.0 404 Not Found\r\n\r\n"@);
}

/// A valid request with a method other than `Get` and `Head` is answered
/// with the status line of `NotImplemented` and an empty line.
pub proof fn lemma_not_implemented(h: HeaderView, file: ResourceView)
    requires
        h.valid,
        !wants_resource(h),
    ensures
        wire_bytes(response_for(h, file)) == encode_utf8(
            "HTTP/1.0 501 Not Implemented\r\n\r\n"@,
        ),
{
    reveal_strlit("HTTP/1.0 501 Not Implemented\r\n\r\n");
    reveal_strlit("HTTP/1.0");
    reveal_strlit("501 Not Implemented");
    let r = plain_response(StatusCode::NotImplemented);
    assert(response_for(h, file) == r);
    assert(wire_text(r) =~= "HTTP/1.0 501 Not Implemented\r\n\r\n"@);
}

/// A file that was read is served by `Get` as the status line of `OK`, the
/// fields of the file, an empty line and the bytes of the file; `Head` sends
/// the same without the bytes, so that `Content-Length` tells the length of
/// what `Get` would send.
pub proof fn lemma_file_is_served(
    get: HeaderView,
    head: HeaderView,
    content: Seq<u8>,
    modified: Option<int>,
)
    requires
        get.valid && get.method == RequestMethod::Get,
        head.valid && head.method == RequestMethod::Head,
    ensures
        ({
            let file = ResourceView::Found { content, modified };
            let fields = resource_fields(content.len(), last_modified_text(modified));
            let opening = encode_utf8(
                "HTTP/1.0 200 OK\r\n"@ + header_lines(fields) + crlf(),
            );
            &&& wire_bytes(response_for(head, file)) == opening
            &&& wire_bytes(response_for(get, file)) == opening + content
            &&& fields.last() == (field_text(RequestField::ContentLength), decimal(content.len()))
        }),
{
    reveal_strlit("HTTP/1.0 200 OK\r\n");
    reveal_strlit("HTTP/1.0");
    reveal_strlit("200 OK");
    let file = ResourceView::Found { content, modified };
    let fields = resource_fields(content.len(), last_modified_text(modified));
    let r = response_for(get, file);
    assert(status_line(r) =~= "HTTP/1.0 200 OK\r\n"@);
    assert(status_line(response_for(head, file)) =~= "HTTP/1.0 200 OK\r\n"@);
    assert(wire_bytes(response_for(head, file)) =~= encode_utf8(
        "HTTP/1.0 200 OK\r\n"@ + header_lines(fields) + crlf(),
    ));
}

} // verus!
