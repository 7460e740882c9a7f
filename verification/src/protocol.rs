//! The protocol vocabulary: request methods, versions, header field names and
//! status codes, with their canonical wire strings.

use vstd::prelude::*;
use crate::text::decimal;

verus! {

/// HTTP request method.
///
/// `Get` asks for a resource, `Head` asks for its headers alone, and `Post`
/// hands information to the server. `Put`, `Delete`, `Link` and `Unlink` are
/// the extended HTTP/1.0 methods.
#[derive(Debug, PartialEq, Eq, Hash, Clone, Copy, Structural)]
pub enum RequestMethod {
    Get,
    Head,
    Post,
    Put,
    Delete,
    Link,
    Unlink,
    Unknown,
}

/// HTTP request version: a simple request (a request line without a version,
/// as in HTTP/0.9), HTTP/1.0 or HTTP/1.1.
#[derive(Debug, PartialEq, Eq, Hash, Clone, Copy, Structural)]
pub enum RequestVersion {
    SimpleRequest,
    HTTP1,
    HTTP11,
    Unknown,
}

/// The header fields of HTTP/1.0 (RFC 1945, section 10). Any other field is
/// `Unknown`, and is kept under its literal name.
#[derive(Debug, PartialEq, Eq, Hash, Clone, Copy, Structural)]
pub enum RequestField {
    Allow,
    Authorization,
    ContentEncoding,
    ContentLength,
    ContentType,
    Date,
    Expires,
    FromField,
    IfModifiedSince,
    LastModified,
    Location,
    Pragma,
    Referer,
    Server,
    UserAgent,
    WwwAuthenticate,
    Unknown,
}

/// Response status codes of HTTP/1.0.
#[derive(Debug, PartialEq, Eq, Hash, Clone, Copy, Structural)]
pub enum StatusCode {
    OK,
    Created,
    Accepted,
    NoContent,
    MovedPermanently,
    MovedTemporarily,
    NotModified,
    BadRequest,
    Unauthorized,
    Forbidden,
    NotFound,
    InternalServerError,
    NotImplemented,
    BadGateway,
    ServiceUnavailable,
    Unknown,
}

/// The wire string of a request method.
pub open spec fn method_text(m: RequestMethod) -> Seq<char> {
    match m {
        RequestMethod::Get => "GET"@,
        RequestMethod::Head => "HEAD"@,
        RequestMethod::Post => "POST"@,
        RequestMethod::Put => "PUT"@,
        RequestMethod::Link => "LINK"@,
        RequestMethod::Unlink => "UNLINK"@,
        RequestMethod::Delete => "DELETE"@,
        RequestMethod::Unknown => "Unknown"@,
    }
}

/// The method that a request line's first token names: an exact,
/// case-sensitive match, and `Unknown` for every other token.
pub open spec fn method_from_text(t: Seq<char>) -> RequestMethod {
    if t == "GET"@ {
        RequestMethod::Get
    } else if t == "HEAD"@ {
        RequestMethod::Head
    } else if t == "POST"@ {
        RequestMethod::Post
    } else if t == "PUT"@ {
        RequestMethod::Put
    } else if t == "LINK"@ {
        RequestMethod::Link
    } else if t == "UNLINK"@ {
        RequestMethod::Unlink
    } else if t == "DELETE"@ {
        RequestMethod::Delete
    } else {
        RequestMethod::Unknown
    }
}

/// The wire string of a request version.
pub open spec fn version_text(v: RequestVersion) -> Seq<char> {
    match v {
        RequestVersion::SimpleRequest => "Simple Request"@,
        RequestVersion::HTTP1 => "HTTP/1.0"@,
        RequestVersion::HTTP11 => "HTTP/1.1"@,
        RequestVersion::Unknown => "Unknown"@,
    }
}

/// The version that a request line's third token names: `HTTP/1.0` or
/// `HTTP/1.1` exactly, and `Unknown` for every other token.
pub open spec fn version_from_text(t: Seq<char>) -> RequestVersion {
    if t == "HTTP/1.0"@ {
        RequestVersion::HTTP1
    } else if t == "HTTP/1.1"@ {
        RequestVersion::HTTP11
    } else {
        RequestVersion::Unknown
    }
}

/// The name of a header field, as it stands before the colon.
pub open spec fn field_name(f: RequestField) -> Seq<char> {
    match f {
        RequestField::Allow => "Allow"@,
        RequestField::Authorization => "Authorization"@,
        RequestField::ContentEncoding => "Content-Encoding"@,
        RequestField::ContentLength => "Content-Length"@,
        RequestField::ContentType => "Content-Type"@,
        RequestField::Date => "Date"@,
        RequestField::Expires => "Expires"@,
        RequestField::FromField => "From"@,
        RequestField::IfModifiedSince => "If-Modified-Since"@,
        RequestField::LastModified => "Last-Modified"@,
        RequestField::Location => "Location"@,
        RequestField::Pragma => "Pragma"@,
        RequestField::Referer => "Referer"@,
        RequestField::Server => "Server"@,
        RequestField::UserAgent => "User-Agent"@,
        RequestField::WwwAuthenticate => "WWW-Authenticate"@,
        RequestField::Unknown => "Unknown"@,
    }
}

/// The wire string of a header field: its name, followed by a colon and a
/// space, so that a header line is this string, the value and a line break.
pub open spec fn field_text(f: RequestField) -> Seq<char> {
    match f {
        RequestField::Allow => "Allow: "@,
        RequestField::Authorization => "Authorization: "@,
        RequestField::ContentEncoding => "Content-Encoding: "@,
        RequestField::ContentLength => "Content-Length: "@,
        RequestField::ContentType => "Content-Type: "@,
        RequestField::Date => "Date: "@,
        RequestField::Expires => "Expires: "@,
        RequestField::FromField => "From: "@,
        RequestField::IfModifiedSince => "If-Modified-Since: "@,
        RequestField::LastModified => "Last-Modified: "@,
        RequestField::Location => "Location: "@,
        RequestField::Pragma => "Pragma: "@,
        RequestField::Referer => "Referer: "@,
        RequestField::Server => "Server: "@,
        RequestField::UserAgent => "User-Agent: "@,
        RequestField::WwwAuthenticate => "WWW-Authenticate: "@,
        RequestField::Unknown => "Unknown: "@,
    }
}

/// The field that a header name stands for: an exact, case-sensitive match
/// against the known names, and `Unknown` for every other name.
pub open spec fn field_from_name(name: Seq<char>) -> RequestField {
    if name == "Allow"@ {
        RequestField::Allow
    } else if name == "Authorization"@ {
        RequestField::Authorization
    } else if name == "Content-Encoding"@ {
        RequestField::ContentEncoding
    } else if name == "Content-Length"@ {
        RequestField::ContentLength
    } else if name == "Content-Type"@ {
        RequestField::ContentType
    } else if name == "Date"@ {
        RequestField::Date
    } else if name == "Expires"@ {
        RequestField::Expires
    } else if name == "From"@ {
        RequestField::FromField
    } else if name == "If-Modified-Since"@ {
        RequestField::IfModifiedSince
    } else if name == "Last-Modified"@ {
        RequestField::LastModified
    } else if name == "Location"@ {
        RequestField::Location
    } else if name == "Pragma"@ {
        RequestField::Pragma
    } else if name == "Referer"@ {
        RequestField::Referer
    } else if name == "Server"@ {
        RequestField::Server
    } else if name == "User-Agent"@ {
        RequestField::UserAgent
    } else if name == "WWW-Authenticate"@ {
        RequestField::WwwAuthenticate
    } else {
        RequestField::Unknown
    }
}

/// The numeric code of a status; `Unknown` has none.
pub open spec fn status_code(s: StatusCode) -> Option<nat> {
    match s {
        StatusCode::OK => Some(200nat),
        StatusCode::Created => Some(201nat),
        StatusCode::Accepted => Some(202nat),
        StatusCode::NoContent => Some(204nat),
        StatusCode::MovedPermanently => Some(301nat),
        StatusCode::MovedTemporarily => Some(302nat),
        StatusCode::NotModified => Some(304nat),
        StatusCode::BadRequest => Some(400nat),
        StatusCode::Unauthorized => Some(401nat),
        StatusCode::Forbidden => Some(403nat),
        StatusCode::NotFound => Some(404nat),
        StatusCode::InternalServerError => Some(500nat),
        StatusCode::NotImplemented => Some(501nat),
        StatusCode::BadGateway => Some(502nat),
        StatusCode::ServiceUnavailable => Some(503nat),
        StatusCode::Unknown => None,
    }
}

/// The reason phrase of a status.
pub open spec fn status_reason(s: StatusCode) -> Seq<char> {
    match s {
        StatusCode::OK => "OK"@,
        StatusCode::Created => "Created"@,
        StatusCode::Accepted => "Accepted"@,
        StatusCode::NoContent => "No Content"@,
        StatusCode::MovedPermanently => "Moved Permanently"@,
        StatusCode::MovedTemporarily => "Moved Temporarily"@,
        StatusCode::NotModified => "Not Modified"@,
        StatusCode::BadRequest => "Bad Request"@,
        StatusCode::Unauthorized => "Unauthorized"@,
        StatusCode::Forbidden => "Forbidden"@,
        StatusCode::NotFound => "Not Found"@,
        StatusCode::InternalServerError => "Internal Server Error"@,
        StatusCode::NotImplemented => "Not Implemented"@,
        StatusCode::BadGateway => "Bad Gateway"@,
        StatusCode::ServiceUnavailable => "Service Unavailable"@,
        StatusCode::Unknown => "Unknown"@,
    }
}

/// The wire string of a status: its numeric code, a space and its reason
/// phrase. `Unknown` is rendered as the word alone.
pub open spec fn status_text(s: StatusCode) -> Seq<char> {
    match s {
        StatusCode::OK => "200 OK"@,
        StatusCode::Created => "201 Created"@,
        StatusCode::Accepted => "202 Accepted"@,
        StatusCode::NoContent => "204 No Content"@,
        StatusCode::MovedPermanently => "301 Moved Permanently"@,
        StatusCode::MovedTemporarily => "302 Moved Temporarily"@,
        StatusCode::NotModified => "304 Not Modified"@,
        StatusCode::BadRequest => "400 Bad Request"@,
        StatusCode::Unauthorized => "401 Unauthorized"@,
        StatusCode::Forbidden => "403 Forbidden"@,
        StatusCode::NotFound => "404 Not Found"@,
        StatusCode::InternalServerError => "500 Internal Server Error"@,
        StatusCode::NotImplemented => "501 Not Implemented"@,
        StatusCode::BadGateway => "502 Bad Gateway"@,
        StatusCode::ServiceUnavailable => "503 Service Unavailable"@,
        StatusCode::Unknown => "Unknown"@,
    }
}

/// A status of the error class: one whose code is 400 or above. A response
/// with such a status is sent without headers and without a body.
pub open spec fn is_error_class(s: StatusCode) -> bool {
    match status_code(s) {
        Some(code) => code >= 400,
        None => false,
    }
}

/// Get the string representation of a request method.
pub fn method_to_string(r: &RequestMethod) -> (s: String)
    ensures
        s@ == method_text(*r),
{
    match r {
        RequestMethod::Get => "GET".to_string(),
        RequestMethod::Head => "HEAD".to_string(),
        RequestMethod::Post => "POST".to_string(),
        RequestMethod::Put => "PUT".to_string(),
        RequestMethod::Link => "LINK".to_string(),
        RequestMethod::Unlink => "UNLINK".to_string(),
        RequestMethod::Delete => "DELETE".to_string(),
        RequestMethod::Unknown => "Unknown".to_string(),
    }
}

/// Get the string representation of a status: the code and the reason phrase.
pub fn status_to_string(s: &StatusCode) -> (r: String)
    ensures
        r@ == status_text(*s),
{
    match s {
        StatusCode::OK => "200 OK".to_string(),
        StatusCode::Created => "201 Created".to_string(),
        StatusCode::Accepted => "202 Accepted".to_string(),
        StatusCode::NoContent => "204 No Content".to_string(),
        StatusCode::MovedPermanently => "301 Moved Permanently".to_string(),
        StatusCode::MovedTemporarily => "302 Moved Temporarily".to_string(),
        StatusCode::NotModified => "304 Not Modified".to_string(),
        StatusCode::BadRequest => "400 Bad Request".to_string(),
        StatusCode::Unauthorized => "401 Unauthorized".to_string(),
        StatusCode::Forbidden => "403 Forbidden".to_string(),
        StatusCode::NotFound => "404 Not Found".to_string(),
        StatusCode::InternalServerError => "500 Internal Server Error".to_string(),
        StatusCode::NotImplemented => "501 Not Implemented".to_string(),
        StatusCode::BadGateway => "502 Bad Gateway".to_string(),
        StatusCode::ServiceUnavailable => "503 Service Unavailable".to_string(),
        StatusCode::Unknown => "Unknown".to_string(),
    }
}

/// Get the string representation of a request version.
pub fn version_to_string(r: &RequestVersion) -> (s: String)
    ensures
        s@ == version_text(*r),
{
    match r {
        RequestVersion::SimpleRequest => "Simple Request".to_string(),
        RequestVersion::HTTP1 => "HTTP/1.0".to_string(),
        RequestVersion::HTTP11 => "HTTP/1.1".to_string(),
        RequestVersion::Unknown => "Unknown".to_string(),
    }
}

/// Get the string representation of a header field, with the colon and the
/// space that separate it from its value.
pub fn field_to_string(r: &RequestField) -> (s: String)
    ensures
        s@ == field_text(*r),
{
    match r {
        RequestField::Allow => "Allow: ".to_string(),
        RequestField::Authorization => "Authorization: ".to_string(),
        RequestField::ContentEncoding => "Content-Encoding: ".to_string(),
        RequestField::ContentLength => "Content-Length: ".to_string(),
        RequestField::ContentType => "Content-Type: ".to_string(),
        RequestField::Date => "Date: ".to_string(),
        RequestField::Expires => "Expires: ".to_string(),
        RequestField::FromField => "From: ".to_string(),
        RequestField::IfModifiedSince => "If-Modified-Since: ".to_string(),
        RequestField::LastModified => "Last-Modified: ".to_string(),
        RequestField::Location => "Location: ".to_string(),
        RequestField::Pragma => "Pragma: ".to_string(),
        RequestField::Referer => "Referer: ".to_string(),
        RequestField::Server => "Server: ".to_string(),
        RequestField::UserAgent => "User-Agent: ".to_string(),
        RequestField::WwwAuthenticate => "WWW-Authenticate: ".to_string(),
        RequestField::Unknown => "Unknown: ".to_string(),
    }
}

/// Is the status of the error class?
pub fn is_error_status(s: &StatusCode) -> (r: bool)
    ensures
        r == is_error_class(*s),
{
    match s {
        StatusCode::BadRequest
        | StatusCode::Unauthorized
        | StatusCode::Forbidden
        | StatusCode::NotFound
        | StatusCode::InternalServerError
        | StatusCode::NotImplemented
        | StatusCode::BadGateway
        | StatusCode::ServiceUnavailable => true,
        _ => false,
    }
}

proof fn reveal_method_words()
    ensures
        "GET"@ == seq!['G', 'E', 'T'],
        "HEAD"@ == seq!['H', 'E', 'A', 'D'],
        "POST"@ == seq!['P', 'O', 'S', 'T'],
        "PUT"@ == seq!['P', 'U', 'T'],
        "LINK"@ == seq!['L', 'I', 'N', 'K'],
        "UNLINK"@ == seq!['U', 'N', 'L', 'I', 'N', 'K'],
        "DELETE"@ == seq!['D', 'E', 'L', 'E', 'T', 'E'],
        "Unknown"@ == seq!['U', 'n', 'k', 'n', 'o', 'w', 'n'],
{
    reveal_strlit("GET");
    reveal_strlit("HEAD");
    reveal_strlit("POST");
    reveal_strlit("PUT");
    reveal_strlit("LINK");
    reveal_strlit("UNLINK");
    reveal_strlit("DELETE");
    reveal_strlit("Unknown");
    assert("GET"@ =~= seq!['G', 'E', 'T']);
    assert("HEAD"@ =~= seq!['H', 'E', 'A', 'D']);
    assert("POST"@ =~= seq!['P', 'O', 'S', 'T']);
    assert("PUT"@ =~= seq!['P', 'U', 'T']);
    assert("LINK"@ =~= seq!['L', 'I', 'N', 'K']);
    assert("UNLINK"@ =~= seq!['U', 'N', 'L', 'I', 'N', 'K']);
    assert("DELETE"@ =~= seq!['D', 'E', 'L', 'E', 'T', 'E']);
    assert("Unknown"@ =~= seq!['U', 'n', 'k', 'n', 'o', 'w', 'n']);
}

/// Reading a method's wire string gives the method back.
pub proof fn lemma_method_round_trip(m: RequestMethod)
    ensures
        method_from_text(method_text(m)) == m,
{
    reveal_method_words();
}

/// A token that names a method other than `Unknown` is that method's wire
/// string.
pub proof fn lemma_method_from_text(t: Seq<char>)
    ensures
        method_from_text(t) != RequestMethod::Unknown ==> method_text(method_from_text(t)) == t,
{
}

/// Reading a field's name gives the field back.
pub proof fn lemma_field_round_trip(f: RequestField)
    ensures
        field_from_name(field_name(f)) == f,
{
    lemma_field_names_differ();
    assert(field_name(RequestField::Allow) == "Allow"@);
    assert(field_name(RequestField::Authorization) == "Authorization"@);
    assert(field_name(RequestField::ContentEncoding) == "Content-Encoding"@);
    assert(field_name(RequestField::ContentLength) == "Content-Length"@);
    assert(field_name(RequestField::ContentType) == "Content-Type"@);
    assert(field_name(RequestField::Date) == "Date"@);
    assert(field_name(RequestField::Expires) == "Expires"@);
    assert(field_name(RequestField::FromField) == "From"@);
    assert(field_name(RequestField::IfModifiedSince) == "If-Modified-Since"@);
    assert(field_name(RequestField::LastModified) == "Last-Modified"@);
    assert(field_name(RequestField::Location) == "Location"@);
    assert(field_name(RequestField::Pragma) == "Pragma"@);
    assert(field_name(RequestField::Referer) == "Referer"@);
    assert(field_name(RequestField::Server) == "Server"@);
    assert(field_name(RequestField::UserAgent) == "User-Agent"@);
    assert(field_name(RequestField::WwwAuthenticate) == "WWW-Authenticate"@);
    assert(field_name(RequestField::Unknown) == "Unknown"@);
}

/// No two fields share a name.
pub proof fn lemma_field_names_differ()
    ensures
        forall|f: RequestField, g: RequestField| field_name(f) == field_name(g) ==> f == g,
{
    reveal_strlit("Allow");
    reveal_strlit("Authorization");
    reveal_strlit("Content-Encoding");
    reveal_strlit("Content-Length");
    reveal_strlit("Content-Type");
    reveal_strlit("Date");
    reveal_strlit("Expires");
    reveal_strlit("From");
    reveal_strlit("If-Modified-Since");
    reveal_strlit("Last-Modified");
    reveal_strlit("Location");
    reveal_strlit("Pragma");
    reveal_strlit("Referer");
    reveal_strlit("Server");
    reveal_strlit("User-Agent");
    reveal_strlit("WWW-Authenticate");
    reveal_strlit("Unknown");
    assert forall|f: RequestField, g: RequestField| field_name(f) == field_name(g) implies f
        == g by {
        // Two names differ in length, or in their first, second or ninth
        // character.
        let a = field_name(f);
        let b = field_name(g);
        assert(a.len() == b.len());
        assert(a[0] == b[0]);
        assert(a.len() > 1 ==> a[1] == b[1]);
        assert(a.len() > 8 ==> a[8] == b[8]);
    }
}

/// A field's wire string is its name followed by a colon and a space.
pub proof fn lemma_field_text(f: RequestField)
    ensures
        field_text(f) == field_name(f) + seq![':', ' '],
{
    reveal_strlit("Allow");
    reveal_strlit("Allow: ");
    reveal_strlit("Authorization");
    reveal_strlit("Authorization: ");
    reveal_strlit("Content-Encoding");
    reveal_strlit("Content-Encoding: ");
    reveal_strlit("Content-Length");
    reveal_strlit("Content-Length: ");
    reveal_strlit("Content-Type");
    reveal_strlit("Content-Type: ");
    reveal_strlit("Date");
    reveal_strlit("Date: ");
    reveal_strlit("Expires");
    reveal_strlit("Expires: ");
    reveal_strlit("From");
    reveal_strlit("From: ");
    reveal_strlit("If-Modified-Since");
    reveal_strlit("If-Modified-Since: ");
    reveal_strlit("Last-Modified");
    reveal_strlit("Last-Modified: ");
    reveal_strlit("Location");
    reveal_strlit("Location: ");
    reveal_strlit("Pragma");
    reveal_strlit("Pragma: ");
    reveal_strlit("Referer");
    reveal_strlit("Referer: ");
    reveal_strlit("Server");
    reveal_strlit("Server: ");
    reveal_strlit("User-Agent");
    reveal_strlit("User-Agent: ");
    reveal_strlit("WWW-Authenticate");
    reveal_strlit("WWW-Authenticate: ");
    reveal_strlit("Unknown");
    reveal_strlit("Unknown: ");
    assert(field_text(f) =~= field_name(f) + seq![':', ' ']);
}

/// A status with a code is rendered as the code's decimal numeral, a space
/// and the reason phrase.
pub proof fn lemma_status_text(s: StatusCode)
    ensures
        match status_code(s) {
            Some(code) => status_text(s) == decimal(code) + seq![' '] + status_reason(s),
            None => status_text(s) == status_reason(s),
        },
{
    reveal_with_fuel(decimal, 3);
    reveal_strlit("200 OK");
    reveal_strlit("201 Created");
    reveal_strlit("202 Accepted");
    reveal_strlit("204 No Content");
    reveal_strlit("301 Moved Permanently");
    reveal_strlit("302 Moved Temporarily");
    reveal_strlit("304 Not Modified");
    reveal_strlit("400 Bad Request");
    reveal_strlit("401 Unauthorized");
    reveal_strlit("403 Forbidden");
    reveal_strlit("404 Not Found");
    reveal_strlit("500 Internal Server Error");
    reveal_strlit("501 Not Implemented");
    reveal_strlit("502 Bad Gateway");
    reveal_strlit("503 Service Unavailable");
    reveal_strlit("OK");
    reveal_strlit("Created");
    reveal_strlit("Accepted");
    reveal_strlit("No Content");
    reveal_strlit("Moved Permanently");
    reveal_strlit("Moved Temporarily");
    reveal_strlit("Not Modified");
    reveal_strlit("Bad Request");
    reveal_strlit("Unauthorized");
    reveal_strlit("Forbidden");
    reveal_strlit("Not Found");
    reveal_strlit("Internal Server Error");
    reveal_strlit("Not Implemented");
    reveal_strlit("Bad Gateway");
    reveal_strlit("Service Unavailable");
    match status_code(s) {
        Some(code) => {
            assert(status_text(s) =~= decimal(code) + seq![' '] + status_reason(s));
        },
        None => {},
    }
}

} // verus!
