//! The server's configuration: an immutable value, made once at startup and
//! handed to whatever needs it.

use vstd::prelude::*;

verus! {

/// The size of the request buffer where the configuration names none.
pub const DEFAULT_MAX_BUFFER: usize = 2048;

/// Configuration options.
#[derive(Debug)]
pub struct Config {
    /// The address to listen on.
    pub host: String,
    /// The port to listen on.
    pub port: u16,
    /// The directory under which every resource is looked up.
    pub doc_root: String,
    pub image_list: Vec<String>,
    pub file_list: Vec<String>,
    /// The file served for the path `/` where `root_file` names none.
    pub default_root_file: Option<String>,
    /// The file served for the path `/`.
    pub root_file: Option<String>,
    /// The most bytes that are read of one request.
    pub max_buffer: Option<usize>,
    /// Reserved for a page to send with a 404 response.
    pub custom_404: Option<String>,
    pub print_header_information: Option<bool>,
}

/// Default options.
impl Default for Config {
    fn default() -> (c: Config)
        ensures
            c.host@ == "127.0.0.1"@,
            c.port == 8080,
            c.doc_root@ == "http"@,
            c.image_list@.len() == 0,
            c.file_list@.len() == 0,
            c.default_root_file matches Some(name) && name@ == "index.html"@,
            c.root_file is None,
            c.max_buffer == Some(DEFAULT_MAX_BUFFER),
            c.custom_404 is None,
            c.print_header_information == Some(false),
    {
        Config {
            host: "127.0.0.1".to_string(),
            port: 8080,
            doc_root: "http".to_string(),
            image_list: Vec::<String>::new(),
            file_list: Vec::<String>::new(),
            default_root_file: Some("index.html".to_string()),
            root_file: None,
            max_buffer: Some(DEFAULT_MAX_BUFFER),
            custom_404: None,
            print_header_information: Some(false),
        }
    }
}

impl Config {
    /// The name of the file that stands for the path `/`: `root_file` where
    /// it is set, else `default_root_file`.
    pub open spec fn index_name(&self) -> Option<Seq<char>> {
        match self.root_file {
            Some(name) => Some(name@),
            None => match self.default_root_file {
                Some(name) => Some(name@),
                None => None,
            },
        }
    }

    /// The name of the file that stands for the path `/`, if one is
    /// configured. A server cannot start without one.
    pub fn index_file(&self) -> (r: Option<&str>)
        ensures
            match r {
                Some(name) => self.index_name() == Some(name@),
                None => self.index_name() is None,
            },
    {
        match &self.root_file {
            Some(name) => Some(name.as_str()),
            None => match &self.default_root_file {
                Some(name) => Some(name.as_str()),
                None => None,
            },
        }
    }

    /// The number of bytes to read of one request: `max_buffer`, or
    /// `DEFAULT_MAX_BUFFER` where it is not set.
    pub fn buffer_size(&self) -> (n: usize)
        ensures
            n == match self.max_buffer {
                Some(size) => size,
                None => DEFAULT_MAX_BUFFER,
            },
    {
        match self.max_buffer {
            Some(size) => size,
            None => DEFAULT_MAX_BUFFER,
        }
    }
}

} // verus!
