//! The request parser: from the bytes of one read to a `Header`.
//!
//! Parsing never fails loudly. A request that is too short, is not text, or
//! has a request line that cannot be read yields a header that is not valid;
//! what follows the request line never makes a header invalid.

use vstd::prelude::*;
use vstd::string::*;
use vstd::utf8::*;
use crate::fields::{to_map, FieldTable, TextMap};
use crate::protocol::{
    field_from_name, field_text, field_to_string, method_from_text, method_text,
    method_to_string, version_from_text, version_text, version_to_string, RequestField,
    RequestMethod, RequestVersion,
};
use crate::text::{
    chars_of, decode, find, find_in, lemma_find_from, lemma_split_nonempty, occurs_at,
    same_text, spells, split, split_on,
    string_of, views,
};

verus! {

/// A parsed request, as mathematical values.
pub struct HeaderView {
    /// Were a method and a version both determined?
    pub valid: bool,
    pub method: RequestMethod,
    pub version: RequestVersion,
    /// The requested path, as it stood in the request line.
    pub path: Seq<char>,
    /// The values of the known header fields.
    pub known_fields: Map<RequestField, Seq<char>>,
    /// The values of all other header fields, by their literal names.
    pub unknown_fields: Map<Seq<char>, Seq<char>>,
    /// The form fields of a `Post` request.
    pub post_fields: Map<Seq<char>, Seq<char>>,
}

/// The header of a request of which nothing could be read.
pub open spec fn empty_header() -> HeaderView {
    HeaderView {
        valid: false,
        method: RequestMethod::Unknown,
        version: RequestVersion::Unknown,
        path: Seq::empty(),
        known_fields: Map::empty(),
        unknown_fields: Map::empty(),
        post_fields: Map::empty(),
    }
}

/// The line break of the protocol: carriage return, line feed.
pub open spec fn crlf() -> Seq<char> {
    seq!['\r', '\n']
}

/// What separates a header field's name from its value.
pub open spec fn colon_space() -> Seq<char> {
    seq![':', ' ']
}

/// The form fields after the pieces of one form-encoded line are added: each
/// piece with exactly one `=` sets the key before it to the value after it.
pub open spec fn add_form_pairs(post: Map<Seq<char>, Seq<char>>, pieces: Seq<Seq<char>>) -> Map<
    Seq<char>,
    Seq<char>,
>
    decreases pieces.len(),
{
    if pieces.len() == 0 {
        post
    } else {
        let before = add_form_pairs(post, pieces.drop_last());
        let pair = split(pieces.last(), seq!['=']);
        if pair.len() == 2 {
            before.insert(pair[0], pair[1])
        } else {
            before
        }
    }
}

/// The header after one more line is read. A line with a colon and a space
/// sets the field named before them to the text after them. Any other line is
/// read as form fields separated by `&`, which count for a `Post` request
/// alone.
pub open spec fn add_line(h: HeaderView, line: Seq<char>) -> HeaderView {
    match find(line, colon_space()) {
        Some(i) => {
            let name = line.subrange(0, i);
            let value = line.subrange(i + 2, line.len() as int);
            let field = field_from_name(name);
            if field == RequestField::Unknown {
                HeaderView { unknown_fields: h.unknown_fields.insert(name, value), ..h }
            } else {
                HeaderView { known_fields: h.known_fields.insert(field, value), ..h }
            }
        },
        None => if h.method == RequestMethod::Post {
            HeaderView { post_fields: add_form_pairs(h.post_fields, split(line, seq!['&'])), ..h }
        } else {
            h
        },
    }
}

/// The header after the given lines are read, first to last.
pub open spec fn add_lines(h: HeaderView, lines: Seq<Seq<char>>) -> HeaderView
    decreases lines.len(),
{
    if lines.len() == 0 {
        h
    } else {
        add_line(add_lines(h, lines.drop_last()), lines.last())
    }
}

/// The header that a request text stands for.
///
/// The text is cut into lines at each line break, and the first line into
/// tokens at each space. The first token names the method and the second is
/// the path, kept as it is. With two tokens the request is a simple request,
/// and no further line is read. Otherwise the third token names the version,
/// and the remaining lines are read as header fields.
pub open spec fn parse_text(text: Seq<char>) -> HeaderView {
    let lines = split(text, crlf());
    let tokens = split(lines[0], seq![' ']);
    let method = method_from_text(tokens[0]);
    if tokens.len() < 2 || method == RequestMethod::Unknown {
        empty_header()
    } else {
        let started = HeaderView { method: method, path: tokens[1], ..empty_header() };
        if tokens.len() == 2 {
            HeaderView { version: RequestVersion::SimpleRequest, valid: true, ..started }
        } else {
            let version = version_from_text(tokens[2]);
            if version == RequestVersion::Unknown {
                started
            } else {
                let read = add_lines(HeaderView { version: version, ..started }, lines.drop_first());
                HeaderView { valid: true, ..read }
            }
        }
    }
}

/// The shortest request that can be valid: `GET /` and a line break.
pub const MIN_REQUEST_LEN: usize = 7;

/// The header that the bytes of a request stand for: that of the text they
/// encode, if they are at least `MIN_REQUEST_LEN` bytes of well-formed UTF-8.
pub open spec fn parse_request(buf: Seq<u8>) -> HeaderView {
    if buf.len() < MIN_REQUEST_LEN || !valid_utf8(buf) {
        empty_header()
    } else {
        parse_text(decode_utf8(buf))
    }
}

/// What holds of every parsed request.
///
/// The header is valid exactly when a method and a version were both
/// determined; a path is read only after the method; `Unknown` is no key of
/// the known fields, and no name of an unknown field is the name of a known
/// one; form fields are held by a `Post` request alone; and a header that is
/// not valid, or is that of a simple request, holds no field at all.
pub open spec fn well_formed(h: HeaderView) -> bool {
    &&& h.valid <==> (h.method != RequestMethod::Unknown && h.version != RequestVersion::Unknown)
    &&& h.method == RequestMethod::Unknown ==> h.path == Seq::<char>::empty()
    &&& !h.known_fields.contains_key(RequestField::Unknown)
    &&& forall|name: Seq<char>| #[trigger]
        h.unknown_fields.contains_key(name) ==> field_from_name(name) == RequestField::Unknown
    &&& h.method != RequestMethod::Post ==> h.post_fields == Map::<Seq<char>, Seq<char>>::empty()
    &&& (!h.valid || h.version == RequestVersion::SimpleRequest) ==> {
        &&& h.known_fields == Map::<RequestField, Seq<char>>::empty()
        &&& h.unknown_fields == Map::<Seq<char>, Seq<char>>::empty()
        &&& h.post_fields == Map::<Seq<char>, Seq<char>>::empty()
    }
}

/// The known field that a line sets, with the value it sets it to.
pub open spec fn line_field(line: Seq<char>) -> Option<(RequestField, Seq<char>)> {
    match find(line, colon_space()) {
        Some(i) => {
            let field = field_from_name(line.subrange(0, i));
            if field == RequestField::Unknown {
                None
            } else {
                Some((field, line.subrange(i + 2, line.len() as int)))
            }
        },
        None => None,
    }
}

/// Reading lines changes nothing of the request line, keeps known and unknown
/// fields apart, and adds form fields to a `Post` request alone.
pub proof fn lemma_add_lines(h: HeaderView, lines: Seq<Seq<char>>)
    ensures
        add_lines(h, lines).valid == h.valid,
        add_lines(h, lines).method == h.method,
        add_lines(h, lines).version == h.version,
        add_lines(h, lines).path == h.path,
        !h.known_fields.contains_key(RequestField::Unknown) ==> !add_lines(
            h,
            lines,
        ).known_fields.contains_key(RequestField::Unknown),
        (forall|name: Seq<char>| #[trigger]
            h.unknown_fields.contains_key(name) ==> field_from_name(name) == RequestField::Unknown)
            ==> (forall|name: Seq<char>| #[trigger]
            add_lines(h, lines).unknown_fields.contains_key(name) ==> field_from_name(name)
                == RequestField::Unknown),
        h.method != RequestMethod::Post ==> add_lines(h, lines).post_fields == h.post_fields,
    decreases lines.len(),
{
    if lines.len() > 0 {
        lemma_add_lines(h, lines.drop_last());
    }
}

/// Every parsed request is well formed.
pub proof fn lemma_parse_text_well_formed(text: Seq<char>)
    ensures
        well_formed(parse_text(text)),
{
    let lines = split(text, crlf());
    let tokens = split(lines[0], seq![' ']);
    let method = method_from_text(tokens[0]);
    if !(tokens.len() < 2 || method == RequestMethod::Unknown) && tokens.len() != 2 {
        let version = version_from_text(tokens[2]);
        let started = HeaderView { method: method, path: tokens[1], ..empty_header() };
        lemma_add_lines(HeaderView { version: version, ..started }, lines.drop_first());
    }
}

/// Every parsed request is well formed.
pub proof fn lemma_parse_request_well_formed(buf: Seq<u8>)
    ensures
        well_formed(parse_request(buf)),
{
    if !(buf.len() < MIN_REQUEST_LEN || !valid_utf8(buf)) {
        lemma_parse_text_well_formed(decode_utf8(buf));
    }
}

/// Does the line set the known field `field`?
pub open spec fn sets_field(line: Seq<char>, field: RequestField) -> bool {
    line_field(line) matches Some(set) && set.0 == field
}

/// Of the lines that set one known field, the last one wins: if line `i`
/// sets `field` to `value` and no later line sets `field`, the field holds
/// `value`.
pub proof fn lemma_last_field_wins(
    h: HeaderView,
    lines: Seq<Seq<char>>,
    i: int,
    field: RequestField,
    value: Seq<char>,
)
    requires
        0 <= i < lines.len(),
        line_field(lines[i]) == Some((field, value)),
        forall|j: int| i < j < lines.len() ==> !sets_field(#[trigger] lines[j], field),
    ensures
        add_lines(h, lines).known_fields.contains_key(field),
        add_lines(h, lines).known_fields[field] == value,
    decreases lines.len(),
{
    if i < lines.len() - 1 {
        let front = lines.drop_last();
        assert(front[i] == lines[i]);
        assert forall|j: int| i < j < front.len() implies !sets_field(#[trigger] front[j], field) by {
            assert(front[j] == lines[j]);
        }
        lemma_last_field_wins(h, front, i, field, value);
        assert(!sets_field(lines[lines.len() - 1], field));
    }
}

/// A line that sets a field whose name is not a known one is kept under that
/// name, and leaves the known fields as they were.
pub proof fn lemma_unknown_field_is_kept(h: HeaderView, name: Seq<char>, value: Seq<char>)
    requires
        field_from_name(name) == RequestField::Unknown,
        find(name, colon_space()) is None,
    ensures
        add_line(h, name + colon_space() + value).unknown_fields == h.unknown_fields.insert(
            name,
            value,
        ),
        add_line(h, name + colon_space() + value).known_fields == h.known_fields,
{
    let line = name + colon_space() + value;
    lemma_find_from(line, colon_space(), 0);
    lemma_find_from(name, colon_space(), 0);
    let n = name.len() as int;
    assert(line.subrange(n, n + 2) =~= colon_space());
    assert(occurs_at(line, colon_space(), n));
    let i = find(line, colon_space())->0;
    if i < n {
        // An occurrence that starts in the name and ends after it would put a
        // colon at the end of the name and a space after it.
        if i + 2 <= n {
            assert(name.subrange(i, i + 2) =~= line.subrange(i, i + 2));
            assert(occurs_at(name, colon_space(), i));
        } else {
            assert(line.subrange(i, i + 2)[1] == colon_space()[1]);
            assert(line[n] == ':');
        }
    }
    assert(i == n);
    assert(line.subrange(0, n) =~= name);
    assert(line.subrange(n + 2, line.len() as int) =~= value);
}

/// One line of a description for each known field: the field's wire string
/// and its value.
pub open spec fn known_field_lines(entries: Seq<(RequestField, Seq<char>)>) -> Seq<char>
    decreases entries.len(),
{
    if entries.len() == 0 {
        Seq::empty()
    } else {
        known_field_lines(entries.drop_last()) + "Field: "@ + field_text(entries.last().0)
            + " -- Value: "@ + entries.last().1 + "\n"@
    }
}

/// One line of a description for each entry: a label, the key and the value.
pub open spec fn entry_lines(label: Seq<char>, entries: Seq<(Seq<char>, Seq<char>)>) -> Seq<char>
    decreases entries.len(),
{
    if entries.len() == 0 {
        Seq::empty()
    } else {
        entry_lines(label, entries.drop_last()) + label + entries.last().0 + " -- Value: "@
            + entries.last().1 + "\n"@
    }
}

/// The description of a request in plain text: the request line, the known
/// fields, the unknown fields and, for a `Post` request, the form fields.
pub open spec fn description(
    h: HeaderView,
    known: Seq<(RequestField, Seq<char>)>,
    unknown: Seq<(Seq<char>, Seq<char>)>,
    post: Seq<(Seq<char>, Seq<char>)>,
) -> Seq<char> {
    let top = "Request Line: "@ + method_text(h.method) + ", Path: "@ + h.path + ", Version "@
        + version_text(h.version) + "\n"@ + "---- Known Fields ----\n"@ + known_field_lines(known)
        + "---- Unknown Fields ----\n"@ + entry_lines("Field: "@, unknown);
    if h.method == RequestMethod::Post {
        top + "---- POST Fields ----\n"@ + entry_lines("Name: "@, post)
    } else {
        top
    }
}

/// The contents of a request.
///
/// If the header is not valid, its other parts hold what could be read before
/// the request line failed: possibly the method and the path, never a field.
/// For a simple request only the method, the version and the path are set.
#[derive(Debug)]
pub struct Header {
    /// Is the request line well formed?
    valid: bool,
    /// Request method, such as GET, HEAD, POST.
    method: RequestMethod,
    /// Request version: simple request, HTTP/1.0 or HTTP/1.1.
    version: RequestVersion,
    /// The requested path.
    path: String,
    /// The known HTTP/1.0 header fields.
    fields: FieldTable,
    /// All other header fields, by name.
    unknown_fields: TextMap,
    /// The form fields of a POST request.
    post_fields: TextMap,
}

impl View for Header {
    type V = HeaderView;

    closed spec fn view(&self) -> HeaderView {
        HeaderView {
            valid: self.valid,
            method: self.method,
            version: self.version,
            path: self.path@,
            known_fields: self.fields@,
            unknown_fields: self.unknown_fields@,
            post_fields: self.post_fields@,
        }
    }
}

impl Default for Header {
    /// A header that is not valid and holds nothing.
    fn default() -> (h: Header)
        ensures
            h@ == empty_header(),
            well_formed(h@),
    {
        Header {
            valid: false,
            method: RequestMethod::Unknown,
            version: RequestVersion::Unknown,
            path: String::new(),
            fields: FieldTable::new(),
            unknown_fields: TextMap::new(),
            post_fields: TextMap::new(),
        }
    }
}

/// The method that a token names.
fn read_method(token: &[char]) -> (m: RequestMethod)
    ensures
        m == method_from_text(token@),
{
    if spells(token, "GET") {
        RequestMethod::Get
    } else if spells(token, "HEAD") {
        RequestMethod::Head
    } else if spells(token, "POST") {
        RequestMethod::Post
    } else if spells(token, "PUT") {
        RequestMethod::Put
    } else if spells(token, "LINK") {
        RequestMethod::Link
    } else if spells(token, "UNLINK") {
        RequestMethod::Unlink
    } else if spells(token, "DELETE") {
        RequestMethod::Delete
    } else {
        RequestMethod::Unknown
    }
}

/// The version that a token names.
fn read_version(token: &[char]) -> (v: RequestVersion)
    ensures
        v == version_from_text(token@),
{
    if spells(token, "HTTP/1.0") {
        RequestVersion::HTTP1
    } else if spells(token, "HTTP/1.1") {
        RequestVersion::HTTP11
    } else {
        RequestVersion::Unknown
    }
}

impl Header {
    /// Parse the bytes of one request.
    pub fn new(buf: &[u8]) -> (h: Header)
        ensures
            h@ == parse_request(buf@),
            well_formed(h@),
    {
        proof {
            lemma_parse_request_well_formed(buf@);
        }
        let mut header = Header::default();
        // A simple request is `GET /` and a line break: nothing shorter is a
        // request.
        if buf.len() < MIN_REQUEST_LEN {
            return header;
        }
        let text = match decode(buf) {
            Some(text) => text,
            None => {
                return header;
            },
        };
        let chars = chars_of(text);
        let line_break: [char; 2] = ['\r', '\n'];
        let space: [char; 1] = [' '];
        assert(line_break@ =~= crlf());
        assert(space@ =~= seq![' ']);
        let lines = split_on(chars.as_slice(), line_break.as_slice());
        proof {
            lemma_split_nonempty(chars@, crlf());
        }
        assert(views(lines@)[0] == lines@[0]@);
        let tokens = split_on(lines[0], space.as_slice());
        if tokens.len() < 2 {
            return header;
        }
        assert(views(tokens@)[0] == tokens@[0]@);
        assert(views(tokens@)[1] == tokens@[1]@);
        let method = read_method(tokens[0]);
        if method == RequestMethod::Unknown {
            return header;
        }
        header.method = method;
        header.path = string_of(tokens[1]);
        if tokens.len() == 2 {
            header.version = RequestVersion::SimpleRequest;
            header.valid = true;
            return header;
        }
        assert(views(tokens@)[2] == tokens@[2]@);
        let version = read_version(tokens[2]);
        if version == RequestVersion::Unknown {
            return header;
        }
        header.version = version;
        // The request line is done; the other lines hold the fields.
        let rest: &[&[char]] = &lines.as_slice()[1..lines.len()];
        assert(views(rest@) =~= views(lines@).drop_first());
        header.parse_fields(rest);
        header.valid = true;
        header
    }

    /// Get the validity of the request. If this returns false, the other
    /// parts of the header may be unset.
    pub fn is_valid(&self) -> (r: bool)
        ensures
            r == self@.valid,
    {
        self.valid
    }

    /// Get the path of the request.
    pub fn get_path(&self) -> (r: &str)
        ensures
            r@ == self@.path,
    {
        self.path.as_str()
    }

    /// Get the method of the request.
    pub fn get_method(&self) -> (r: RequestMethod)
        ensures
            r == self@.method,
    {
        self.method
    }

    /// Get the version of the request.
    pub fn get_version(&self) -> (r: RequestVersion)
        ensures
            r == self@.version,
    {
        self.version
    }

    /// Get the value of a known header field.
    pub fn get_field(&self, field: RequestField) -> (r: Option<&str>)
        ensures
            match r {
                Some(v) => self@.known_fields.contains_key(field) && self@.known_fields[field]
                    == v@,
                None => !self@.known_fields.contains_key(field),
            },
    {
        match self.fields.get(field) {
            Some(v) => Some(v.as_str()),
            None => None,
        }
    }

    /// Get the value of a header field that is not a known one, by its name.
    pub fn get_unknown_field(&self, name: &str) -> (r: Option<&str>)
        ensures
            match r {
                Some(v) => self@.unknown_fields.contains_key(name@) && self@.unknown_fields[name@]
                    == v@,
                None => !self@.unknown_fields.contains_key(name@),
            },
    {
        match self.unknown_fields.get(name) {
            Some(v) => Some(v.as_str()),
            None => None,
        }
    }

    /// Get the value of a form field of a POST request, by its key.
    pub fn get_post_field(&self, key: &str) -> (r: Option<&str>)
        ensures
            match r {
                Some(v) => self@.post_fields.contains_key(key@) && self@.post_fields[key@] == v@,
                None => !self@.post_fields.contains_key(key@),
            },
    {
        match self.post_fields.get(key) {
            Some(v) => Some(v.as_str()),
            None => None,
        }
    }

    /// The known fields, in the order in which they were first set.
    pub closed spec fn known_entries(&self) -> Seq<(RequestField, Seq<char>)> {
        self.fields.entries()
    }

    /// The unknown fields, in the order in which they were first set.
    pub closed spec fn unknown_entries(&self) -> Seq<(Seq<char>, Seq<char>)> {
        self.unknown_fields.entries()
    }

    /// The form fields, in the order in which they were first set.
    pub closed spec fn post_entries(&self) -> Seq<(Seq<char>, Seq<char>)> {
        self.post_fields.entries()
    }

    /// The entries are those of the view's maps.
    pub proof fn lemma_entries(&self)
        ensures
            self@.known_fields == to_map(self.known_entries()),
            self@.unknown_fields == to_map(self.unknown_entries()),
            self@.post_fields == to_map(self.post_entries()),
    {
    }

    /// Describe the contents of the header in plain text, one line for the
    /// request line and one for each field.
    pub fn describe(&self) -> (s: String)
        ensures
            s@ == description(
                self@,
                self.known_entries(),
                self.unknown_entries(),
                self.post_entries(),
            ),
    {
        let mut s = "Request Line: ".to_string();
        s.append(method_to_string(&self.method).as_str());
        s.append(", Path: ");
        s.append(self.path.as_str());
        s.append(", Version ");
        s.append(version_to_string(&self.version).as_str());
        s.append("\n");
        s.append("---- Known Fields ----\n");
        let ghost known = self.fields.entries();
        let n = self.fields.len();
        let mut i: usize = 0;
        assert(known.take(0) =~= Seq::empty());
        let ghost start = s@;
        assert(s@ =~= start + known_field_lines(known.take(0)));
        while i < n
            invariant
                i <= n,
                n == known.len(),
                known == self.fields.entries(),
                s@ == start + known_field_lines(known.take(i as int)),
            decreases n - i,
        {
            proof {
                let next = known.take(i + 1);
                assert(next.drop_last() =~= known.take(i as int));
                assert(next.last() == known[i as int]);
            }
            s.append("Field: ");
            s.append(field_to_string(&self.fields.field_at(i)).as_str());
            s.append(" -- Value: ");
            s.append(self.fields.value_at(i).as_str());
            s.append("\n");
            proof {
                let e = known[i as int];
                assert(s@ =~= start + (known_field_lines(known.take(i as int)) + "Field: "@
                    + field_text(e.0) + " -- Value: "@ + e.1 + "\n"@));
            }
            i += 1;
        }
        assert(known.take(n as int) =~= known);
        s.append("---- Unknown Fields ----\n");
        Header::describe_entries(&mut s, "Field: ", &self.unknown_fields);
        if self.method == RequestMethod::Post {
            s.append("---- POST Fields ----\n");
            Header::describe_entries(&mut s, "Name: ", &self.post_fields);
        }
        s
    }

    /// Add to `s` one line for each entry of `map`.
    fn describe_entries(s: &mut String, label: &str, map: &TextMap)
        ensures
            final(s)@ == old(s)@ + entry_lines(label@, map.entries()),
    {
        let ghost entries = map.entries();
        let ghost start = s@;
        let n = map.len();
        let mut i: usize = 0;
        assert(entries.take(0) =~= Seq::empty());
        assert(s@ =~= start + entry_lines(label@, entries.take(0)));
        while i < n
            invariant
                i <= n,
                n == entries.len(),
                entries == map.entries(),
                s@ == start + entry_lines(label@, entries.take(i as int)),
            decreases n - i,
        {
            proof {
                let next = entries.take(i + 1);
                assert(next.drop_last() =~= entries.take(i as int));
                assert(next.last() == entries[i as int]);
            }
            s.append(label);
            s.append(map.key_at(i).as_str());
            s.append(" -- Value: ");
            s.append(map.value_at(i).as_str());
            s.append("\n");
            proof {
                let e = entries[i as int];
                assert(s@ =~= start + (entry_lines(label@, entries.take(i as int)) + label@ + e.0
                    + " -- Value: "@ + e.1 + "\n"@));
            }
            i += 1;
        }
        assert(entries.take(n as int) =~= entries);
    }

    // According to RFC 1945 an unrecognized header field is to be treated as
    // an entity header field, and experimental fields are allowed. Whatever
    // the field is, it is stored; unknown fields are stored apart from the
    // known ones.
    fn parse_fields(&mut self, parts: &[&[char]])
        ensures
            final(self)@ == add_lines(old(self)@, views(parts@)),
    {
        let mut i: usize = 0;
        assert(views(parts@).take(0) =~= Seq::<Seq<char>>::empty());
        while i < parts.len()
            invariant
                i <= parts.len(),
                self@ == add_lines(old(self)@, views(parts@).take(i as int)),
            decreases parts.len() - i,
        {
            proof {
                let next = views(parts@).take(i + 1);
                assert(next.drop_last() =~= views(parts@).take(i as int));
                assert(next.last() == parts@[i as int]@);
            }
            self.parse_line(parts[i]);
            i += 1;
        }
        assert(views(parts@).take(parts.len() as int) =~= views(parts@));
    }

    /// Read one line after the request line.
    fn parse_line(&mut self, line: &[char])
        ensures
            final(self)@ == add_line(old(self)@, line@),
    {
        let separator: [char; 2] = [':', ' '];
        assert(separator@ =~= colon_space());
        match find_in(line, separator.as_slice(), 0) {
            Some(i) => {
                proof {
                    // The separator lies within the line.
                    lemma_find_from(line@, colon_space(), 0);
                    assert(occurs_at(line@, colon_space(), i as int));
                    assert(i + colon_space().len() <= line.len());
                }
                let name = string_of(&line[0..i]);
                let value = string_of(&line[i + 2..line.len()]);
                let field = Header::field_to_type(name.as_str());
                if field == RequestField::Unknown {
                    self.unknown_fields.insert(name, value);
                } else {
                    self.fields.insert(field, value);
                }
            },
            None => {
                // Either the form fields of a POST request, or a line that is
                // no header field at all.
                if self.method == RequestMethod::Post {
                    self.parse_form(line);
                }
            },
        }
    }

    /// Read the form fields of one line.
    fn parse_form(&mut self, line: &[char])
        ensures
            final(self)@ == (HeaderView {
                post_fields: add_form_pairs(old(self)@.post_fields, split(line@, seq!['&'])),
                ..old(self)@
            }),
    {
        let ampersand: [char; 1] = ['&'];
        let equals: [char; 1] = ['='];
        assert(ampersand@ =~= seq!['&']);
        assert(equals@ =~= seq!['=']);
        let pieces = split_on(line, ampersand.as_slice());
        let mut i: usize = 0;
        assert(views(pieces@).take(0) =~= Seq::<Seq<char>>::empty());
        while i < pieces.len()
            invariant
                i <= pieces.len(),
                equals@ == seq!['='],
                self@ == (HeaderView {
                    post_fields: add_form_pairs(
                        old(self)@.post_fields,
                        views(pieces@).take(i as int),
                    ),
                    ..old(self)@
                }),
            decreases pieces.len() - i,
        {
            proof {
                let next = views(pieces@).take(i + 1);
                assert(next.drop_last() =~= views(pieces@).take(i as int));
                assert(next.last() == pieces@[i as int]@);
            }
            let pair = split_on(pieces[i], equals.as_slice());
            if pair.len() == 2 {
                assert(views(pair@)[0] == pair@[0]@);
                assert(views(pair@)[1] == pair@[1]@);
                self.post_fields.insert(string_of(pair[0]), string_of(pair[1]));
            }
            i += 1;
        }
        assert(views(pieces@).take(pieces.len() as int) =~= views(pieces@));
    }

    /// The known field that a header name stands for.
    pub fn field_to_type(f: &str) -> (r: RequestField)
        ensures
            r == field_from_name(f@),
    {
        if same_text(f, "Allow") {
            RequestField::Allow
        } else if same_text(f, "Authorization") {
            RequestField::Authorization
        } else if same_text(f, "Content-Encoding") {
            RequestField::ContentEncoding
        } else if same_text(f, "Content-Length") {
            RequestField::ContentLength
        } else if same_text(f, "Content-Type") {
            RequestField::ContentType
        } else if same_text(f, "Date") {
            RequestField::Date
        } else if same_text(f, "Expires") {
            RequestField::Expires
        } else if same_text(f, "From") {
            RequestField::FromField
        } else if same_text(f, "If-Modified-Since") {
            RequestField::IfModifiedSince
        } else if same_text(f, "Last-Modified") {
            RequestField::LastModified
        } else if same_text(f, "Location") {
            RequestField::Location
        } else if same_text(f, "Pragma") {
            RequestField::Pragma
        } else if same_text(f, "Referer") {
            RequestField::Referer
        } else if same_text(f, "Server") {
            RequestField::Server
        } else if same_text(f, "User-Agent") {
            RequestField::UserAgent
        } else if same_text(f, "WWW-Authenticate") {
            RequestField::WwwAuthenticate
        } else {
            RequestField::Unknown
        }
    }
}

} // verus!
