use tinyhttp::configuration::{Config, DEFAULT_MAX_BUFFER};

#[test]
fn default_options() {
    let c = Config::default();
    assert_eq!(c.host, "127.0.0.1");
    assert_eq!(c.port, 8080);
    assert_eq!(c.doc_root, "http");
    assert!(c.image_list.is_empty());
    assert!(c.file_list.is_empty());
    assert_eq!(c.default_root_file.as_deref(), Some("index.html"));
    assert_eq!(c.root_file, None);
    assert_eq!(c.max_buffer, Some(2048));
    assert_eq!(c.custom_404, None);
    assert_eq!(c.print_header_information, Some(false));
    assert_eq!(DEFAULT_MAX_BUFFER, 2048);
}

#[test]
fn root_file_comes_before_the_default() {
    let mut c = Config::default();
    assert_eq!(c.index_file(), Some("index.html"));
    c.root_file = Some("home.html".to_string());
    assert_eq!(c.index_file(), Some("home.html"));
    c.default_root_file = None;
    assert_eq!(c.index_file(), Some("home.html"));
    c.root_file = None;
    assert_eq!(c.index_file(), None);
}

#[test]
fn buffer_size_falls_back_to_2048() {
    let mut c = Config::default();
    assert_eq!(c.buffer_size(), 2048);
    c.max_buffer = Some(512);
    assert_eq!(c.buffer_size(), 512);
    c.max_buffer = None;
    assert_eq!(c.buffer_size(), 2048);
}
