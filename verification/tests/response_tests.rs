use tinyhttp::configuration::Config;
use tinyhttp::protocol::{RequestVersion, StatusCode};
use tinyhttp::request::Header;
use tinyhttp::response::{resource_path, Failure, Resource, Response, ResponseError};

fn found(content: &[u8], modified: Option<i64>) -> Resource {
    Resource::Found { content: content.to_vec(), modified }
}

#[test]
fn get_serves_the_index_file() {
    let page = b"<html><body>Hello</body></html>\n";
    let h = Header::new(b"GET / HTTP/1.0\r\n\r\n");
    let mut r = Response::new(&h, found(page, Some(784111777)));
    assert_eq!(r.status, StatusCode::OK);
    assert_eq!(r.version, RequestVersion::HTTP1);
    assert_eq!(r.fields.get("Content-Length: ").map(|s| s.as_str()), Some("32"));
    assert_eq!(page.len(), 32);
    assert_eq!(r.content, page);
    let out = r.respond();
    let mut expected = b"HTTP/1.0 200 OK\r\nLast-Modified: Sun, 06 Nov 1994 08:49:37 GMT\r\nContent-Length: 32\r\n\r\n".to_vec();
    expected.extend_from_slice(page);
    assert_eq!(out, expected);
}

#[test]
fn get_without_a_date_omits_last_modified() {
    let h = Header::new(b"GET /a.txt HTTP/1.0\r\n\r\n");
    let mut r = Response::new(&h, found(b"abc", None));
    assert_eq!(r.status, StatusCode::OK);
    assert_eq!(r.fields.len(), 1);
    assert_eq!(r.fields.get("Last-Modified: "), None);
    assert_eq!(r.respond(), b"HTTP/1.0 200 OK\r\nContent-Length: 3\r\n\r\nabc");
}

#[test]
fn get_with_a_date_beyond_the_calendar_omits_last_modified() {
    let h = Header::new(b"GET /a.txt HTTP/1.0\r\n\r\n");
    let mut r = Response::new(&h, found(b"abc", Some(i64::MAX)));
    assert_eq!(r.status, StatusCode::OK);
    assert_eq!(r.fields.get("Last-Modified: "), None);
    assert_eq!(r.respond(), b"HTTP/1.0 200 OK\r\nContent-Length: 3\r\n\r\nabc");
}

#[test]
fn get_of_an_empty_file() {
    let h = Header::new(b"GET /empty HTTP/1.0\r\n\r\n");
    let mut r = Response::new(&h, found(b"", None));
    assert_eq!(r.status, StatusCode::OK);
    assert_eq!(r.respond(), b"HTTP/1.0 200 OK\r\nContent-Length: 0\r\n\r\n");
}

#[test]
fn get_of_a_missing_file_is_not_found() {
    let h = Header::new(b"GET /missing.txt HTTP/1.0\r\n\r\n");
    let mut r = Response::new(&h, Resource::Missing);
    assert_eq!(r.status, StatusCode::NotFound);
    assert!(r.content.is_empty());
    assert!(r.fields.is_empty());
    assert_eq!(r.respond(), b"HTTP/1.0 404 Not Found\r\n\r\n");
}

#[test]
fn every_file_failure_is_not_found() {
    let h = Header::new(b"GET /x HTTP/1.0\r\n\r\n");
    for file in [Resource::Missing, Resource::NoMetadata, Resource::Unreadable] {
        let mut r = Response::new(&h, file);
        assert_eq!(r.status, StatusCode::NotFound);
        assert_eq!(r.respond(), b"HTTP/1.0 404 Not Found\r\n\r\n");
    }
    let h = Header::new(b"HEAD /x HTTP/1.0\r\n\r\n");
    for file in [Resource::Missing, Resource::NoMetadata, Resource::Unreadable] {
        let mut r = Response::new(&h, file);
        assert_eq!(r.status, StatusCode::NotFound);
        assert_eq!(r.respond(), b"HTTP/1.0 404 Not Found\r\n\r\n");
    }
}

#[test]
fn head_keeps_the_length_and_drops_the_body() {
    let page = b"<html><body>Hello</body></html>\n";
    let h = Header::new(b"HEAD / HTTP/1.0\r\n\r\n");
    let mut r = Response::new(&h, found(page, Some(0)));
    assert_eq!(r.status, StatusCode::OK);
    assert_eq!(r.fields.get("Content-Length: ").map(|s| s.as_str()), Some("32"));
    assert!(r.content.is_empty());
    assert_eq!(
        r.respond(),
        b"HTTP/1.0 200 OK\r\nLast-Modified: Thu, 01 Jan 1970 00:00:00 GMT\r\nContent-Length: 32\r\n\r\n"
    );
}

#[test]
fn request_that_is_not_valid_is_a_bad_request() {
    for buf in [&b"FOO / HTTP/1.0\r\n\r\n"[..], b"GET / HTTP/3\r\n\r\n", b"", b"\xff\xff\xff\xff\xff\xff\xff\xff"] {
        let h = Header::new(buf);
        let mut r = Response::new(&h, found(b"never sent", Some(0)));
        assert_eq!(r.status, StatusCode::BadRequest);
        assert!(r.content.is_empty());
        assert!(r.fields.is_empty());
        assert_eq!(r.respond(), b"HTTP/1.0 400 Bad Request\r\n\r\n");
    }
}

#[test]
fn other_methods_are_not_implemented() {
    for line in ["POST", "PUT", "DELETE", "LINK", "UNLINK"] {
        let text = format!("{} /thing HTTP/1.0\r\n\r\na=b", line);
        let h = Header::new(text.as_bytes());
        assert!(h.is_valid());
        let mut r = Response::new(&h, found(b"never sent", Some(0)));
        assert_eq!(r.status, StatusCode::NotImplemented);
        assert!(r.content.is_empty());
        assert_eq!(r.respond(), b"HTTP/1.0 501 Not Implemented\r\n\r\n");
    }
}

#[test]
fn simple_request_is_served() {
    let h = Header::new(b"GET /\r\n\r\n");
    let mut r = Response::new(&h, found(b"hi", None));
    assert_eq!(r.status, StatusCode::OK);
    assert_eq!(r.respond(), b"HTTP/1.0 200 OK\r\nContent-Length: 2\r\n\r\nhi");
}

#[test]
fn request_for_http_1_1_is_answered_as_1_0() {
    let h = Header::new(b"GET / HTTP/1.1\r\n\r\n");
    let mut r = Response::new(&h, found(b"hi", None));
    assert_eq!(r.version, RequestVersion::HTTP1);
    assert_eq!(r.respond(), b"HTTP/1.0 200 OK\r\nContent-Length: 2\r\n\r\nhi");
}

#[test]
fn default_response() {
    let mut r = Response::default();
    assert_eq!(r.status, StatusCode::Unknown);
    assert_eq!(r.version, RequestVersion::HTTP1);
    assert!(r.fields.is_empty());
    assert!(r.content.is_empty());
    assert_eq!(r.respond(), b"HTTP/1.0 Unknown\r\n\r\n");
}

#[test]
fn error_class_is_sent_without_fields_and_body() {
    let errors = [
        (StatusCode::BadRequest, "400 Bad Request"),
        (StatusCode::Unauthorized, "401 Unauthorized"),
        (StatusCode::Forbidden, "403 Forbidden"),
        (StatusCode::NotFound, "404 Not Found"),
        (StatusCode::InternalServerError, "500 Internal Server Error"),
        (StatusCode::NotImplemented, "501 Not Implemented"),
        (StatusCode::BadGateway, "502 Bad Gateway"),
        (StatusCode::ServiceUnavailable, "503 Service Unavailable"),
    ];
    for (status, text) in errors {
        let mut r = Response::default();
        r.status = status;
        r.fields.insert("Server: ".to_string(), "tiny".to_string());
        r.content = b"body".to_vec();
        let out = r.respond();
        assert_eq!(out, format!("HTTP/1.0 {}\r\n\r\n", text).into_bytes());
        // Nothing was taken out of the response.
        assert_eq!(r.content, b"body");
        assert_eq!(r.fields.len(), 1);
    }
}

#[test]
fn other_statuses_are_sent_with_fields_and_body() {
    let mut r = Response::default();
    r.status = StatusCode::MovedPermanently;
    r.version = RequestVersion::HTTP11;
    r.fields.insert("Location: ".to_string(), "/new".to_string());
    r.fields.insert("Server: ".to_string(), "tiny".to_string());
    r.fields.insert("Location: ".to_string(), "/newer".to_string());
    r.content = b"moved".to_vec();
    let out = r.respond();
    assert_eq!(
        out,
        b"HTTP/1.1 301 Moved Permanently\r\nLocation: /newer\r\nServer: tiny\r\n\r\nmoved"
    );
    // The content went into the output.
    assert!(r.content.is_empty());
    assert_eq!(r.fields.len(), 2);
    assert_eq!(r.status, StatusCode::MovedPermanently);
}

#[test]
fn content_is_sent_as_it_is() {
    let bytes: Vec<u8> = (0..=255u8).collect();
    let h = Header::new(b"GET /blob HTTP/1.0\r\n\r\n");
    let mut r = Response::new(&h, found(&bytes, None));
    let out = r.respond();
    let head = b"HTTP/1.0 200 OK\r\nContent-Length: 256\r\n\r\n";
    assert_eq!(&out[..head.len()], head);
    assert_eq!(&out[head.len()..], &bytes[..]);
}

#[test]
fn field_text_is_encoded_as_utf8() {
    let mut r = Response::default();
    r.status = StatusCode::OK;
    r.fields.insert("X-Name: ".to_string(), "caf\u{e9}".to_string());
    assert_eq!(r.respond(), "HTTP/1.0 200 OK\r\nX-Name: caf\u{e9}\r\n\r\n".as_bytes());
}

#[test]
fn last_modified_dates() {
    assert_eq!(
        Response::get_last_modified(Some(784111777)).unwrap(),
        "Sun, 06 Nov 1994 08:49:37 GMT"
    );
    assert_eq!(Response::get_last_modified(Some(0)).unwrap(), "Thu, 01 Jan 1970 00:00:00 GMT");
    assert_eq!(Response::get_last_modified(Some(-1)).unwrap(), "Wed, 31 Dec 1969 23:59:59 GMT");
    assert_eq!(
        Response::get_last_modified(Some(1431648000)).unwrap(),
        "Fri, 15 May 2015 00:00:00 GMT"
    );
    assert_eq!(
        Response::get_last_modified(Some(951827696)).unwrap(),
        "Tue, 29 Feb 2000 12:34:56 GMT"
    );
}

#[test]
fn last_modified_failures() {
    let e: ResponseError = Response::get_last_modified(None).unwrap_err();
    assert_eq!(e.cause, Failure::NoModifiedTime);
    assert_eq!(e.message, "Could not get modified data on file");
    let e = Response::get_last_modified(Some(i64::MAX)).unwrap_err();
    assert_eq!(e.cause, Failure::NoModifiedTime);
    let e = Response::get_last_modified(Some(i64::MIN)).unwrap_err();
    assert_eq!(e.cause, Failure::NoModifiedTime);
}

#[test]
fn get_resource_fills_the_response() {
    let mut r = Response::default();
    assert!(r.get_resource(found(b"12345", Some(0))).is_ok());
    assert_eq!(r.content, b"12345");
    assert_eq!(r.fields.len(), 2);
    assert_eq!(r.fields.key_at(0), "Last-Modified: ");
    assert_eq!(r.fields.value_at(0), "Thu, 01 Jan 1970 00:00:00 GMT");
    assert_eq!(r.fields.key_at(1), "Content-Length: ");
    assert_eq!(r.fields.value_at(1), "5");
    // The status is left to the caller.
    assert_eq!(r.status, StatusCode::Unknown);
}

#[test]
fn get_resource_failures() {
    let mut r = Response::default();
    let e = r.get_resource(Resource::Missing).unwrap_err();
    assert_eq!(e.cause, Failure::OpenFailed);
    assert_eq!(e.message, "Could not open file!");
    let e = r.get_resource(Resource::NoMetadata).unwrap_err();
    assert_eq!(e.cause, Failure::NoMetadata);
    assert_eq!(e.message, "Could not get meta data on file");
    let e = r.get_resource(Resource::Unreadable).unwrap_err();
    assert_eq!(e.cause, Failure::ReadFailed);
    assert_eq!(e.message, "Could not read file!");
    assert!(r.fields.is_empty());
    assert!(r.content.is_empty());
}

#[test]
fn set_resource_replaces_earlier_fields() {
    let mut r = Response::default();
    r.fields.insert("Content-Length: ".to_string(), "999".to_string());
    r.fields.insert("Server: ".to_string(), "tiny".to_string());
    r.set_resource(b"abcd".to_vec(), Some("some day".to_string()));
    assert_eq!(r.fields.len(), 3);
    assert_eq!(r.fields.key_at(0), "Content-Length: ");
    assert_eq!(r.fields.value_at(0), "4");
    assert_eq!(r.fields.key_at(1), "Server: ");
    assert_eq!(r.fields.key_at(2), "Last-Modified: ");
    assert_eq!(r.fields.value_at(2), "some day");
    assert_eq!(r.content, b"abcd");
}

#[test]
fn root_path_stands_for_the_index_file() {
    let mut c = Config::default();
    assert_eq!(resource_path("/", &c).unwrap(), "http/index.html");
    c.root_file = Some("home.html".to_string());
    assert_eq!(resource_path("/", &c).unwrap(), "http/home.html");
    c.doc_root = "/var/www".to_string();
    assert_eq!(resource_path("/", &c).unwrap(), "/var/www/home.html");
}

#[test]
fn other_paths_are_appended_as_they_are() {
    let c = Config::default();
    assert_eq!(resource_path("/a/b.txt", &c).unwrap(), "http/a/b.txt");
    assert_eq!(resource_path("/../secret", &c).unwrap(), "http/../secret");
    assert_eq!(resource_path("/a%20b?x=1", &c).unwrap(), "http/a%20b?x=1");
    assert_eq!(resource_path("", &c).unwrap(), "http");
    assert_eq!(resource_path("//", &c).unwrap(), "http//");
    assert_eq!(resource_path("x", &c).unwrap(), "httpx");
}

#[test]
fn root_path_without_an_index_file_is_an_error() {
    let mut c = Config::default();
    c.default_root_file = None;
    let e = resource_path("/", &c).unwrap_err();
    assert_eq!(e.cause, Failure::NoRootFile);
    assert_eq!(e.message, "Could not find a default root file!");
    // Any other path needs no index file.
    assert_eq!(resource_path("/a", &c).unwrap(), "http/a");
}

#[test]
fn error_messages() {
    assert_eq!(ResponseError::new(Failure::NoRootFile).message, "Could not find a default root file!");
    assert_eq!(ResponseError::new(Failure::OpenFailed).message, "Could not open file!");
    assert_eq!(ResponseError::new(Failure::NoMetadata).message, "Could not get meta data on file");
    assert_eq!(ResponseError::new(Failure::ReadFailed).message, "Could not read file!");
    assert_eq!(
        ResponseError::new(Failure::NoModifiedTime).message,
        "Could not get modified data on file"
    );
    assert_eq!(ResponseError::new(Failure::ReadFailed).cause, Failure::ReadFailed);
}
