//! The response builder and serializer: from a parsed request and the file it
//! asked for to the exact bytes that go back to the client.

use vstd::prelude::*;
use vstd::string::*;
use vstd::utf8::encode_utf8;
use crate::configuration::Config;
use crate::fields::{position, upsert, TextMap};
use crate::protocol::{
    field_text, field_to_string, is_error_class, is_error_status, status_text, status_to_string,
    version_text, version_to_string, RequestField, RequestMethod, RequestVersion, StatusCode,
};
use crate::request::{crlf, Header, HeaderView};
use crate::text::{decimal, decimal_string, same_text};

verus! {

/// Why a resource could not be served.
#[derive(Debug, PartialEq, Eq, Clone, Copy, Structural)]
pub enum Failure {
    /// The path `/` was asked for, and the configuration names no file for it.
    NoRootFile,
    /// The file does not exist, or could not be opened.
    OpenFailed,
    /// The file's metadata could not be had.
    NoMetadata,
    /// Reading the file failed.
    ReadFailed,
    /// The file's time of last modification is not known, or cannot be
    /// written as a date.
    NoModifiedTime,
}

/// The message that goes with a failure.
pub open spec fn failure_text(cause: Failure) -> Seq<char> {
    match cause {
        Failure::NoRootFile => "Could not find a default root file!"@,
        Failure::OpenFailed => "Could not open file!"@,
        Failure::NoMetadata => "Could not get meta data on file"@,
        Failure::ReadFailed => "Could not read file!"@,
        Failure::NoModifiedTime => "Could not get modified data on file"@,
    }
}

/// The error of the response builder: the cause, and a message for a log.
#[derive(Debug, Clone)]
pub struct ResponseError {
    pub cause: Failure,
    pub message: String,
}

impl ResponseError {
    /// The error for a cause, with its message.
    pub fn new(cause: Failure) -> (e: ResponseError)
        ensures
            e.cause == cause,
            e.message@ == failure_text(cause),
    {
        let message = match cause {
            Failure::NoRootFile => "Could not find a default root file!".to_string(),
            Failure::OpenFailed => "Could not open file!".to_string(),
            Failure::NoMetadata => "Could not get meta data on file".to_string(),
            Failure::ReadFailed => "Could not read file!".to_string(),
            Failure::NoModifiedTime => "Could not get modified data on file".to_string(),
        };
        ResponseError { cause, message }
    }
}

/// What came of reading the file that a request asked for.
#[derive(Debug)]
pub enum Resource {
    /// The file does not exist, or could not be opened.
    Missing,
    /// The file was opened, but its metadata could not be had.
    NoMetadata,
    /// Reading the file failed.
    Unreadable,
    /// The file was read whole. `modified` is its time of last modification
    /// in seconds since the Unix epoch, where the file system tells it.
    Found { content: Vec<u8>, modified: Option<i64> },
}

/// What came of reading a file, as mathematical values.
pub enum ResourceView {
    Missing,
    NoMetadata,
    Unreadable,
    Found { content: Seq<u8>, modified: Option<int> },
}

impl View for Resource {
    type V = ResourceView;

    open spec fn view(&self) -> ResourceView {
        match self {
            Resource::Missing => ResourceView::Missing,
            Resource::NoMetadata => ResourceView::NoMetadata,
            Resource::Unreadable => ResourceView::Unreadable,
            Resource::Found { content, modified } => ResourceView::Found {
                content: content@,
                modified: match modified {
                    Some(t) => Some(*t as int),
                    None => None,
                },
            },
        }
    }
}

/// The date and time, in the form `Sun, 06 Nov 1994 08:49:37 GMT`, of the
/// instant that lies `secs` seconds after the Unix epoch, in UTC; `None`
/// where the instant is beyond the dates that can be told.
pub uninterp spec fn http_date(secs: int) -> Option<Seq<char>>;

/// The text of a string that may be absent.
pub open spec fn optional_text(s: Option<String>) -> Option<Seq<char>> {
    match s {
        Some(text) => Some(text@),
        None => None,
    }
}

/// The format of a date in a header field (RFC 1123).
pub const HTTP_DATE_FORMAT: &'static str = "%a, %d %b %Y %H:%M:%S GMT";

/// `chrono::DateTime::from_timestamp`, then `format` with `HTTP_DATE_FORMAT`:
/// the result is the date that `http_date` names, which depends on `secs`
/// alone.
#[verifier::external_body]
fn format_http_date(secs: i64) -> (r: Option<String>)
    ensures
        optional_text(r) == http_date(secs as int),
{
    match chrono::DateTime::from_timestamp(secs, 0) {
        Some(instant) => Some(instant.format(HTTP_DATE_FORMAT).to_string()),
        None => None,
    }
}

/// The file that a request path stands for. The path `/` stands for the
/// configured index file under the document root; any other path is appended
/// to the document root as it is. `None` where the path is `/` and no index
/// file is configured.
pub open spec fn resource_path_of(path: Seq<char>, config: Config) -> Option<Seq<char>> {
    if path == seq!['/'] {
        match config.index_name() {
            Some(index) => Some(config.doc_root@ + seq!['/'] + index),
            None => None,
        }
    } else {
        Some(config.doc_root@ + path)
    }
}

/// The file to read for a request path.
pub fn resource_path(path: &str, config: &Config) -> (r: Result<String, ResponseError>)
    ensures
        match r {
            Ok(file) => resource_path_of(path@, *config) == Some(file@),
            Err(e) => resource_path_of(path@, *config) is None && e.cause == Failure::NoRootFile
                && e.message@ == failure_text(Failure::NoRootFile),
        },
{
    proof {
        reveal_strlit("/");
        assert("/"@ =~= seq!['/']);
    }
    let mut file = config.doc_root.clone();
    if same_text(path, "/") {
        match config.index_file() {
            Some(index) => {
                file.append("/");
                file.append(index);
                Ok(file)
            },
            None => Err(ResponseError::new(Failure::NoRootFile)),
        }
    } else {
        file.append(path);
        Ok(file)
    }
}

/// A response, as mathematical values.
pub struct ResponseView {
    pub status: StatusCode,
    pub version: RequestVersion,
    /// The header fields in the order in which they are sent: each a name
    /// with its colon and space, and a value.
    pub fields: Seq<(Seq<char>, Seq<char>)>,
    pub content: Seq<u8>,
}

/// The response to a request. Its parts can be changed before it is sent.
#[derive(Debug)]
pub struct Response {
    pub status: StatusCode,
    pub version: RequestVersion,
    pub fields: TextMap,
    pub content: Vec<u8>,
}

impl View for Response {
    type V = ResponseView;

    open spec fn view(&self) -> ResponseView {
        ResponseView {
            status: self.status,
            version: self.version,
            fields: self.fields.entries(),
            content: self.content@,
        }
    }
}

/// A response of the given status, without fields and without content.
pub open spec fn plain_response(status: StatusCode) -> ResponseView {
    ResponseView {
        status: status,
        version: RequestVersion::HTTP1,
        fields: Seq::empty(),
        content: Seq::empty(),
    }
}

/// The text of a file's date of last modification, where it is known.
pub open spec fn last_modified_text(modified: Option<int>) -> Option<Seq<char>> {
    match modified {
        Some(secs) => http_date(secs),
        None => None,
    }
}

/// The header fields that go with a file: `Last-Modified` where the date is
/// known, and `Content-Length`, the decimal number of its bytes.
pub open spec fn resource_fields(len: nat, date: Option<Seq<char>>) -> Seq<(Seq<char>, Seq<char>)> {
    match date {
        Some(d) => seq![
            (field_text(RequestField::LastModified), d),
            (field_text(RequestField::ContentLength), decimal(len)),
        ],
        None => seq![(field_text(RequestField::ContentLength), decimal(len))],
    }
}

/// The response that serves a file: status `OK`, the fields of the file, and
/// its bytes where a body is wanted. Every failure to read the file gives
/// `NotFound`.
pub open spec fn resource_response(file: ResourceView, with_body: bool) -> ResponseView {
    match file {
        ResourceView::Found { content, modified } => ResponseView {
            status: StatusCode::OK,
            version: RequestVersion::HTTP1,
            fields: resource_fields(content.len(), last_modified_text(modified)),
            content: if with_body {
                content
            } else {
                Seq::empty()
            },
        },
        _ => plain_response(StatusCode::NotFound),
    }
}

/// Does answering the request take a file?
pub open spec fn wants_resource(h: HeaderView) -> bool {
    h.valid && (h.method == RequestMethod::Get || h.method == RequestMethod::Head)
}

/// The response to a request, given what came of reading the file it asked
/// for. A request that is not valid is a bad request; `Get` serves the file;
/// `Head` serves its fields alone; no other method is implemented.
pub open spec fn response_for(h: HeaderView, file: ResourceView) -> ResponseView {
    if !h.valid {
        plain_response(StatusCode::BadRequest)
    } else if h.method == RequestMethod::Get {
        resource_response(file, true)
    } else if h.method == RequestMethod::Head {
        resource_response(file, false)
    } else {
        plain_response(StatusCode::NotImplemented)
    }
}

/// The status line: version, status and a line break.
pub open spec fn status_line(r: ResponseView) -> Seq<char> {
    version_text(r.version) + seq![' '] + status_text(r.status) + crlf()
}

/// The header lines: for each field its name, its value and a line break.
pub open spec fn header_lines(fields: Seq<(Seq<char>, Seq<char>)>) -> Seq<char>
    decreases fields.len(),
{
    if fields.len() == 0 {
        Seq::empty()
    } else {
        header_lines(fields.drop_last()) + fields.last().0 + fields.last().1 + crlf()
    }
}

/// The text that opens a response on the wire. For a status of the error
/// class it is the status line and an empty line, whatever fields the
/// response holds; otherwise the status line, the header lines and an empty
/// line.
pub open spec fn wire_text(r: ResponseView) -> Seq<char> {
    if is_error_class(r.status) {
        status_line(r) + crlf()
    } else {
        status_line(r) + header_lines(r.fields) + crlf()
    }
}

/// The bytes of a response on the wire: its opening text in UTF-8, and then,
/// unless the status is of the error class, its content as it is.
pub open spec fn wire_bytes(r: ResponseView) -> Seq<u8> {
    if is_error_class(r.status) {
        encode_utf8(wire_text(r))
    } else {
        encode_utf8(wire_text(r)) + r.content
    }
}

/// The response after a file is put into it: `Last-Modified` is set where
/// the date is known, `Content-Length` is set to the number of bytes, and
/// the bytes become the content.
pub open spec fn with_resource(r: ResponseView, content: Seq<u8>, date: Option<Seq<char>>) -> ResponseView {
    let dated = match date {
        Some(d) => upsert(r.fields, field_text(RequestField::LastModified), d),
        None => r.fields,
    };
    ResponseView {
        fields: upsert(dated, field_text(RequestField::ContentLength), decimal(content.len())),
        content: content,
        ..r
    }
}

/// Put into a response without fields, a file brings exactly its own fields.
pub proof fn lemma_with_resource(r: ResponseView, content: Seq<u8>, date: Option<Seq<char>>)
    requires
        r.fields.len() == 0,
    ensures
        with_resource(r, content, date).fields == resource_fields(content.len(), date),
{
    reveal_strlit("Last-Modified: ");
    reveal_strlit("Content-Length: ");
    let length = field_text(RequestField::ContentLength);
    let modified = field_text(RequestField::LastModified);
    assert(length[0] != modified[0]);
    match date {
        Some(d) => {
            let dated = upsert(r.fields, modified, d);
            assert(dated =~= seq![(modified, d)]);
            assert(position(dated, length) is None);
            assert(with_resource(r, content, date).fields =~= resource_fields(
                content.len(),
                date,
            ));
        },
        None => {
            assert(with_resource(r, content, date).fields =~= resource_fields(
                content.len(),
                date,
            ));
        },
    }
}

impl Default for Response {
    /// A response without a status, for HTTP/1.0, without fields and content.
    fn default() -> (r: Response)
        ensures
            r@ == plain_response(StatusCode::Unknown),
    {
        Response {
            status: StatusCode::Unknown,
            version: RequestVersion::HTTP1,
            fields: TextMap::new(),
            content: Vec::<u8>::new(),
        }
    }
}

impl Response {
    /// Build the response to a request. `file` is what came of reading the
    /// file that the request asked for; it counts for a valid `Get` or `Head`
    /// request alone.
    pub fn new(h: &Header, file: Resource) -> (r: Response)
        ensures
            r@ == response_for(h@, file@),
    {
        let mut response = Response::default();
        if !h.is_valid() {
            response.status = StatusCode::BadRequest;
            return response;
        }
        // Respond to the type of method.
        match h.get_method() {
            RequestMethod::Get => response.get_request(file),
            RequestMethod::Head => response.head_request(file),
            RequestMethod::Post => response.post_request(),
            _ => response.unsupported_request(),
        }
        response
    }

    /// Format the response to network ready data. The content is moved into
    /// the result.
    pub fn respond(&mut self) -> (out: Vec<u8>)
        ensures
            out@ == wire_bytes(old(self)@),
            final(self)@ == if is_error_class(old(self).status) {
                old(self)@
            } else {
                ResponseView { content: Seq::empty(), ..old(self)@ }
            },
    {
        let mut r = version_to_string(&self.version);
        r.append(" ");
        r.append(status_to_string(&self.status).as_str());
        r.append("\r\n");
        proof {
            reveal_strlit(" ");
            reveal_strlit("\r\n");
            assert(" "@ =~= seq![' ']);
            assert("\r\n"@ =~= crlf());
        }
        if is_error_status(&self.status) {
            // An error is answered with the status line alone.
            r.append("\r\n");
            r.as_str().as_bytes_vec()
        } else {
            let n = self.fields.len();
            let mut i: usize = 0;
            assert(self.fields.entries().take(0) =~= Seq::empty());
            assert(r@ =~= status_line(self@) + header_lines(self.fields.entries().take(0)));
            while i < n
                invariant
                    i <= n,
                    n == self.fields.entries().len(),
                    "\r\n"@ == crlf(),
                    r@ == status_line(self@) + header_lines(self.fields.entries().take(i as int)),
                decreases n - i,
            {
                proof {
                    let next = self.fields.entries().take(i + 1);
                    assert(next.drop_last() =~= self.fields.entries().take(i as int));
                    assert(next.last() == self.fields.entries()[i as int]);
                }
                let ghost before = r@;
                r.append(self.fields.key_at(i).as_str());
                r.append(self.fields.value_at(i).as_str());
                r.append("\r\n");
                proof {
                    let e = self.fields.entries()[i as int];
                    assert(r@ =~= status_line(self@) + (header_lines(
                        self.fields.entries().take(i as int),
                    ) + e.0 + e.1 + crlf()));
                }
                i += 1;
            }
            assert(self.fields.entries().take(n as int) =~= self.fields.entries());
            r.append("\r\n");
            let mut out = r.as_str().as_bytes_vec();
            out.append(&mut self.content);
            out
        }
    }

    /// The text of a `Last-Modified` field for a file whose time of last
    /// modification is `modified`, in seconds since the Unix epoch.
    pub fn get_last_modified(modified: Option<i64>) -> (r: Result<String, ResponseError>)
        ensures
            match r {
                Ok(text) => modified matches Some(secs) && http_date(secs as int) == Some(text@),
                Err(e) => e.cause == Failure::NoModifiedTime && e.message@ == failure_text(
                    Failure::NoModifiedTime,
                ) && (modified matches Some(secs) ==> http_date(secs as int) is None),
            },
    {
        match modified {
            Some(secs) => match format_http_date(secs) {
                Some(text) => Ok(text),
                None => Err(ResponseError::new(Failure::NoModifiedTime)),
            },
            None => Err(ResponseError::new(Failure::NoModifiedTime)),
        }
    }

    /// Put a file into the response: its date of last modification where
    /// `last_modified` tells it, its length, and its bytes.
    pub fn set_resource(&mut self, content: Vec<u8>, last_modified: Option<String>)
        ensures
            final(self)@ == with_resource(old(self)@, content@, optional_text(last_modified)),
    {
        if let Some(time) = last_modified {
            self.fields.insert(field_to_string(&RequestField::LastModified), time);
        }
        self.fields.insert(
            field_to_string(&RequestField::ContentLength),
            decimal_string(content.len()),
        );
        self.content = content;
    }

    /// Put what came of reading a file into the response. A file that was
    /// read is put in whole; any failure leaves the response as it was.
    pub fn get_resource(&mut self, file: Resource) -> (r: Result<(), ResponseError>)
        ensures
            match file@ {
                ResourceView::Found { content, modified } => r is Ok && final(self)@
                    == with_resource(old(self)@, content, last_modified_text(modified)),
                ResourceView::Missing => r matches Err(e) && e.cause == Failure::OpenFailed
                    && final(self)@ == old(self)@,
                ResourceView::NoMetadata => r matches Err(e) && e.cause == Failure::NoMetadata
                    && final(self)@ == old(self)@,
                ResourceView::Unreadable => r matches Err(e) && e.cause == Failure::ReadFailed
                    && final(self)@ == old(self)@,
            },
            r matches Err(e) ==> e.message@ == failure_text(e.cause),
    {
        match file {
            Resource::Found { content, modified } => {
                let date = match Response::get_last_modified(modified) {
                    Ok(time) => Some(time),
                    Err(_) => None,
                };
                self.set_resource(content, date);
                Ok(())
            },
            Resource::Missing => Err(ResponseError::new(Failure::OpenFailed)),
            Resource::NoMetadata => Err(ResponseError::new(Failure::NoMetadata)),
            Resource::Unreadable => Err(ResponseError::new(Failure::ReadFailed)),
        }
    }

    // Handle a GET request from a client.
    fn get_request(&mut self, file: Resource)
        requires
            old(self)@ == plain_response(StatusCode::Unknown),
        ensures
            final(self)@ == resource_response(file@, true),
    {
        proof {
            if let ResourceView::Found { content, modified } = file@ {
                lemma_with_resource(old(self)@, content, last_modified_text(modified));
            }
        }
        match self.get_resource(file) {
            Ok(_) => self.status = StatusCode::OK,
            Err(_) => {
                self.status = StatusCode::NotFound;
            },
        }
    }

    // Handle a HEAD request: as a GET request, without the body.
    fn head_request(&mut self, file: Resource)
        requires
            old(self)@ == plain_response(StatusCode::Unknown),
        ensures
            final(self)@ == resource_response(file@, false),
    {
        proof {
            if let ResourceView::Found { content, modified } = file@ {
                lemma_with_resource(old(self)@, content, last_modified_text(modified));
            }
        }
        match self.get_resource(file) {
            Ok(_) => self.status = StatusCode::OK,
            Err(_) => {
                self.status = StatusCode::NotFound;
            },
        }
        self.content.clear();
    }

    // POST is not implemented.
    fn post_request(&mut self)
        ensures
            final(self)@ == (ResponseView { status: StatusCode::NotImplemented, ..old(self)@ }),
    {
        self.status = StatusCode::NotImplemented;
    }

    // No other method is implemented.
    fn unsupported_request(&mut self)
        ensures
            final(self)@ == (ResponseView { status: StatusCode::NotImplemented, ..old(self)@ }),
    {
        self.status = StatusCode::NotImplemented;
    }
}

} // verus!
