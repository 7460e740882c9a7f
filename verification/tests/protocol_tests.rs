use tinyhttp::protocol::{
    field_to_string, is_error_status, method_to_string, status_to_string, version_to_string,
    RequestField, RequestMethod, RequestVersion, StatusCode,
};

#[test]
fn method_strings() {
    assert_eq!(method_to_string(&RequestMethod::Get), "GET");
    assert_eq!(method_to_string(&RequestMethod::Head), "HEAD");
    assert_eq!(method_to_string(&RequestMethod::Post), "POST");
    assert_eq!(method_to_string(&RequestMethod::Put), "PUT");
    assert_eq!(method_to_string(&RequestMethod::Link), "LINK");
    assert_eq!(method_to_string(&RequestMethod::Unlink), "UNLINK");
    assert_eq!(method_to_string(&RequestMethod::Delete), "DELETE");
    assert_eq!(method_to_string(&RequestMethod::Unknown), "Unknown");
}

#[test]
fn version_strings() {
    assert_eq!(version_to_string(&RequestVersion::SimpleRequest), "Simple Request");
    assert_eq!(version_to_string(&RequestVersion::HTTP1), "HTTP/1.0");
    assert_eq!(version_to_string(&RequestVersion::HTTP11), "HTTP/1.1");
    assert_eq!(version_to_string(&RequestVersion::Unknown), "Unknown");
}

#[test]
fn status_strings_carry_the_code() {
    assert_eq!(status_to_string(&StatusCode::OK), "200 OK");
    assert_eq!(status_to_string(&StatusCode::Created), "201 Created");
    assert_eq!(status_to_string(&StatusCode::Accepted), "202 Accepted");
    assert_eq!(status_to_string(&StatusCode::NoContent), "204 No Content");
    assert_eq!(status_to_string(&StatusCode::MovedPermanently), "301 Moved Permanently");
    assert_eq!(status_to_string(&StatusCode::MovedTemporarily), "302 Moved Temporarily");
    assert_eq!(status_to_string(&StatusCode::NotModified), "304 Not Modified");
    assert_eq!(status_to_string(&StatusCode::BadRequest), "400 Bad Request");
    assert_eq!(status_to_string(&StatusCode::Unauthorized), "401 Unauthorized");
    assert_eq!(status_to_string(&StatusCode::Forbidden), "403 Forbidden");
    assert_eq!(status_to_string(&StatusCode::NotFound), "404 Not Found");
    assert_eq!(status_to_string(&StatusCode::InternalServerError), "500 Internal Server Error");
    assert_eq!(status_to_string(&StatusCode::NotImplemented), "501 Not Implemented");
    assert_eq!(status_to_string(&StatusCode::BadGateway), "502 Bad Gateway");
    assert_eq!(status_to_string(&StatusCode::ServiceUnavailable), "503 Service Unavailable");
    assert_eq!(status_to_string(&StatusCode::Unknown), "Unknown");
}

#[test]
fn field_strings_end_in_colon_and_space() {
    assert_eq!(field_to_string(&RequestField::Allow), "Allow: ");
    assert_eq!(field_to_string(&RequestField::Authorization), "Authorization: ");
    assert_eq!(field_to_string(&RequestField::ContentEncoding), "Content-Encoding: ");
    assert_eq!(field_to_string(&RequestField::ContentLength), "Content-Length: ");
    assert_eq!(field_to_string(&RequestField::ContentType), "Content-Type: ");
    assert_eq!(field_to_string(&RequestField::Date), "Date: ");
    assert_eq!(field_to_string(&RequestField::Expires), "Expires: ");
    assert_eq!(field_to_string(&RequestField::FromField), "From: ");
    assert_eq!(field_to_string(&RequestField::IfModifiedSince), "If-Modified-Since: ");
    assert_eq!(field_to_string(&RequestField::LastModified), "Last-Modified: ");
    assert_eq!(field_to_string(&RequestField::Location), "Location: ");
    assert_eq!(field_to_string(&RequestField::Pragma), "Pragma: ");
    assert_eq!(field_to_string(&RequestField::Referer), "Referer: ");
    assert_eq!(field_to_string(&RequestField::Server), "Server: ");
    assert_eq!(field_to_string(&RequestField::UserAgent), "User-Agent: ");
    assert_eq!(field_to_string(&RequestField::WwwAuthenticate), "WWW-Authenticate: ");
    assert_eq!(field_to_string(&RequestField::Unknown), "Unknown: ");
}

#[test]
fn error_class_starts_at_400() {
    let errors = [
        StatusCode::BadRequest,
        StatusCode::Unauthorized,
        StatusCode::Forbidden,
        StatusCode::NotFound,
        StatusCode::InternalServerError,
        StatusCode::NotImplemented,
        StatusCode::BadGateway,
        StatusCode::ServiceUnavailable,
    ];
    for s in errors {
        assert!(is_error_status(&s));
    }
    let others = [
        StatusCode::OK,
        StatusCode::Created,
        StatusCode::Accepted,
        StatusCode::NoContent,
        StatusCode::MovedPermanently,
        StatusCode::MovedTemporarily,
        StatusCode::NotModified,
        StatusCode::Unknown,
    ];
    for s in others {
        assert!(!is_error_status(&s));
    }
}
