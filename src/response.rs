//! Responses from the API.
use vstd::prelude::*;
use vstd::string::StringExecFns;

use crate::arguments::lookup;
use crate::error::Error;
use crate::error::ErrorKind;
use crate::file::File;
use crate::file::FileView;
use crate::json::json_bool_member;
use crate::json::json_member_bool;
use crate::json::json_member_string;
use crate::json::json_parses;
use crate::json::json_string_member;
use crate::json::parse_json;
use crate::text::decimal;
use crate::text::opt_str_view;
use crate::text::opt_view;
use crate::text::push_decimal;
use crate::text::str_eq;
use crate::utf8::text_of;
use crate::utf8::utf8_text;

verus! {

/// A single HTTP header field.
#[derive(Clone, Debug)]
pub struct Header {
    pub name: String,
    pub value: String,
}

/// HTTP headers, in the order they were received; a name may occur more than once.
#[derive(Clone, Debug)]
pub struct Headers {
    headers: Vec<Header>,
}

/// The value of the first entry named `name` in `s`, if any.
pub open spec fn first_value(s: Seq<(Seq<char>, Seq<char>)>, name: Seq<char>) -> Option<Seq<char>> {
    lookup(s.reverse(), name)
}

impl Headers {
    /// The header fields as (name, value) pairs, in order.
    pub closed spec fn spec_entries(&self) -> Seq<(Seq<char>, Seq<char>)> {
        self.headers@.map_values(|h: Header| (h.name@, h.value@))
    }

    /// Creates empty headers.
    pub fn new() -> (r: Headers)
        ensures
            r.spec_entries().len() == 0,
    {
        Headers { headers: Vec::new() }
    }

    /// Adds the given header after the others.
    pub fn add(&mut self, header: Header)
        ensures
            final(self).spec_entries() == old(self).spec_entries().push(
                (header.name@, header.value@),
            ),
    {
        self.headers.push(header);
        assert(self.spec_entries() =~= old(self).spec_entries().push((header.name@, header.value@)));
    }

    /// Returns the value of the first header with the given name.
    pub fn first_value_for(&self, name: &str) -> (r: Option<&str>)
        ensures
            opt_str_view(r) == first_value(self.spec_entries(), name@),
    {
        let ghost s = self.spec_entries();
        let mut i: usize = 0;
        assert(s.subrange(0, s.len() as int) =~= s);
        while i < self.headers.len()
            invariant
                i <= s.len(),
                s == self.spec_entries(),
                first_value(s, name@) == first_value(s.subrange(i as int, s.len() as int), name@),
            decreases s.len() - i,
        {
            let ghost rest = s.subrange(i as int, s.len() as int);
            assert(rest.reverse().last() == s[i as int]);
            assert(rest.reverse().drop_last() =~= s.subrange(i + 1, s.len() as int).reverse());
            if str_eq(self.headers[i].name.as_str(), name) {
                return Some(self.headers[i].value.as_str());
            }
            i = i + 1;
        }
        assert(s.subrange(i as int, s.len() as int).reverse().len() == 0);
        None
    }
}

impl Default for Headers {
    fn default() -> (r: Headers)
        ensures
            r.spec_entries().len() == 0,
    {
        Headers::new()
    }
}

/// The pattern that a `Content-Disposition` header of a file response matches.
pub const FILENAME_PATTERN: &'static str = "^attachment; filename=(.+)$";

/// The file name that a `Content-Disposition` value of the form
/// `attachment; filename=<name>` names, where `<name>` is not empty and holds no
/// line break.
pub open spec fn attachment_filename(value: Seq<char>) -> Option<Seq<char>> {
    let p = "attachment; filename="@;
    if value.len() > p.len() && value.subrange(0, p.len() as int) == p && (forall|i: int|
        p.len() <= i < value.len() ==> value[i] != '\n') {
        Some(value.subrange(p.len() as int, value.len() as int))
    } else {
        None
    }
}

/// Relies on regex::Regex::new and Regex::captures: with the pattern
/// `^attachment; filename=(.+)$`, a text matches when it starts with
/// `attachment; filename=` followed by at least one character, none of them a
/// line break (what `.` matches), up to the end of the text; the first group
/// is that rest.
#[verifier::external_body]
fn filename_capture(pattern: &str, value: &str) -> (r: Option<String>)
    requires
        pattern@ == FILENAME_PATTERN@,
    ensures
        opt_view(r) == attachment_filename(value@),
{
    let re = regex::Regex::new(pattern).ok()?;
    re.captures(value).and_then(|c| c.get(1)).map(|m| m.as_str().to_string())
}

/// Response from the API.
#[derive(Clone, Debug)]
pub struct APIResponse {
    pub status_code: u16,
    pub status_message: String,
    pub headers: Headers,
    pub body: Vec<u8>,
}

impl APIResponse {
    /// Whether the status code is in the range 200 to 299.
    pub open spec fn spec_succeeded(&self) -> bool {
        200 <= self.status_code <= 299
    }

    /// The body as text, when it is valid UTF-8.
    pub open spec fn body_text(&self) -> Option<Seq<char>> {
        text_of(self.body@)
    }

    /// The string under `key` in the JSON body.
    pub open spec fn json_string(&self, key: Seq<char>) -> Option<Seq<char>> {
        match self.body_text() {
            Some(t) => json_member_string(t, key),
            None => None,
        }
    }

    /// The boolean under `key` in the JSON body.
    pub open spec fn json_bool(&self, key: Seq<char>) -> Option<bool> {
        match self.body_text() {
            Some(t) => json_member_bool(t, key),
            None => None,
        }
    }

    /// The reason without the status code: the JSON `description`, else the
    /// JSON `message`, else the status message, else `Unknown error`.
    pub open spec fn reason_text(&self) -> Seq<char> {
        if self.json_string("description"@) is Some {
            self.json_string("description"@)->Some_0
        } else if self.json_string("message"@) is Some {
            self.json_string("message"@)->Some_0
        } else if self.status_message@.len() > 0 {
            self.status_message@
        } else {
            "Unknown error"@
        }
    }

    /// The most human-readable reason of a failure, with ` (HTTP <code>)`
    /// appended when the status code is known (not zero).
    pub open spec fn spec_error_reason(&self) -> Seq<char> {
        if self.status_code != 0 {
            self.reason_text() + " (HTTP "@ + decimal(self.status_code as nat) + ")"@
        } else {
            self.reason_text()
        }
    }

    /// The file that the response holds: the body, under the name that the
    /// first `Content-Disposition` header gives.
    pub open spec fn spec_body_file(&self) -> Option<FileView> {
        match first_value(self.headers.spec_entries(), "Content-Disposition"@) {
            Some(v) => match attachment_filename(v) {
                Some(name) => Some(FileView { content: self.body@, name }),
                None => None,
            },
            None => None,
        }
    }

    /// Creates a response.
    pub fn new(status_code: u16, status_message: &str, headers: Headers, body: &[u8]) -> (r:
        APIResponse)
        ensures
            r.status_code == status_code,
            r.status_message@ == status_message@,
            r.headers == headers,
            r.body@ == body@,
    {
        APIResponse {
            status_code,
            status_message: status_message.to_owned(),
            headers,
            body: vstd::slice::slice_to_vec(body),
        }
    }

    /// Returns the status code (e.g. 200).
    pub fn status_code(&self) -> (r: u16)
        ensures
            r == self.status_code,
    {
        self.status_code
    }

    /// Returns the status message (e.g. `Not Found` for HTTP 404).
    pub fn status_message(&self) -> (r: &String)
        ensures
            r == self.status_message,
    {
        &self.status_message
    }

    /// Has the request succeeded?
    pub fn succeeded(&self) -> (r: bool)
        ensures
            r == self.spec_succeeded(),
    {
        self.status_code >= 200 && self.status_code <= 299
    }

    /// Has the request failed?
    pub fn failed(&self) -> (r: bool)
        ensures
            r == !self.spec_succeeded(),
    {
        !self.succeeded()
    }

    /// Returns the error message (the JSON `message`), if any.
    pub fn error_message(&self) -> (r: Option<String>)
        ensures
            opt_view(r) == self.json_string("message"@),
    {
        self.json_value_as_string("message")
    }

    /// Returns the error description (the JSON `description`), if any.
    pub fn error_description(&self) -> (r: Option<String>)
        ensures
            opt_view(r) == self.json_string("description"@),
    {
        self.json_value_as_string("description")
    }

    /// Returns the most human-readable representation of the error.
    pub fn error_reason(&self) -> (r: String)
        ensures
            r@ == self.spec_error_reason(),
    {
        let mut reason = match self.error_description() {
            Some(d) => d,
            None => match self.error_message() {
                Some(m) => m,
                None => {
                    if !self.status_message.as_str().is_empty() {
                        self.status_message.clone()
                    } else {
                        "Unknown error".to_owned()
                    }
                },
            },
        };
        if self.status_code != 0 {
            reason.append(" (HTTP ");
            push_decimal(&mut reason, self.status_code);
            reason.append(")");
        }
        reason
    }

    /// Returns the body of the response as bytes.
    pub fn body(&self) -> (r: &Vec<u8>)
        ensures
            r == self.body,
    {
        &self.body
    }

    /// Returns the body as text; fails when it is not valid UTF-8.
    pub fn body_as_str(&self) -> (r: Result<&str, Error>)
        ensures
            r is Ok <==> self.body_text() is Some,
            r matches Ok(t) ==> Some(t@) == self.body_text(),
            r matches Err(e) ==> e.kind is Decode,
    {
        match utf8_text(self.body.as_slice()) {
            Some(t) => Ok(t),
            None => Err(Error::from_kind(
                ErrorKind::Decode("failed to decode API response body as UTF-8".to_owned()),
            )),
        }
    }

    /// Returns the body as an owned string; fails when it is not valid UTF-8.
    pub fn body_as_string(&self) -> (r: Result<String, Error>)
        ensures
            r is Ok <==> self.body_text() is Some,
            r matches Ok(t) ==> Some(t@) == self.body_text(),
            r matches Err(e) ==> e.kind is Decode,
    {
        let t = self.body_as_str()?;
        Ok(t.to_owned())
    }

    /// Returns the body parsed as JSON; fails when it is not valid UTF-8 or not JSON.
    pub fn body_as_json(&self) -> (r: Result<json::JsonValue, Error>)
        ensures
            r is Ok <==> (self.body_text() matches Some(t) && json_parses(t)),
            r matches Err(e) ==> e.kind is Decode,
    {
        let t = self.body_as_str()?;
        match parse_json(t) {
            Some(v) => Ok(v),
            None => Err(Error::from_kind(
                ErrorKind::Decode("failed to parse API response body as JSON".to_owned()),
            )),
        }
    }

    /// Returns the string under `key` in the JSON body; `None` when the body is
    /// not JSON, the key is absent, or its value is not a string.
    pub fn json_value_as_string(&self, key: &str) -> (r: Option<String>)
        ensures
            opt_view(r) == self.json_string(key@),
    {
        match utf8_text(self.body.as_slice()) {
            Some(t) => json_string_member(t, key),
            None => None,
        }
    }

    /// Returns the boolean under `key` in the JSON body; `None` when the body is
    /// not JSON, the key is absent, or its value is not a boolean.
    pub fn json_value_as_bool(&self, key: &str) -> (r: Option<bool>)
        ensures
            r == self.json_bool(key@),
    {
        match utf8_text(self.body.as_slice()) {
            Some(t) => json_bool_member(t, key),
            None => None,
        }
    }

    /// Returns the body as a file named by the `Content-Disposition` header
    /// (`attachment; filename=<name>`); fails when there is no such header.
    pub fn body_as_file(&self) -> (r: Result<File, Error>)
        ensures
            r is Ok <==> self.spec_body_file() is Some,
            r matches Ok(f) ==> Some(f@) == self.spec_body_file(),
            r matches Err(e) ==> e.kind is NotAFile,
    {
        if let Some(value) = self.headers.first_value_for("Content-Disposition") {
            if let Some(name) = filename_capture(FILENAME_PATTERN, value) {
                return Ok(File::from_content_with_name(self.body.as_slice(), name.as_str()));
            }
        }
        Err(Error::from_kind(ErrorKind::NotAFile))
    }
}

impl Default for APIResponse {
    fn default() -> (r: APIResponse)
        ensures
            r.status_code == 0,
            r.status_message@.len() == 0,
            r.headers.spec_entries().len() == 0,
            r.body@.len() == 0,
    {
        APIResponse {
            status_code: 0,
            status_message: String::new(),
            headers: Headers::new(),
            body: Vec::new(),
        }
    }
}

/// A builder of responses, for in-memory connections.
pub struct APIResponseBuilder {
    response: APIResponse,
}

impl APIResponseBuilder {
    /// The response being built.
    pub closed spec fn spec_response(&self) -> APIResponse {
        self.response
    }

    /// Creates a builder of an empty response with status code 0.
    pub fn new() -> (r: APIResponseBuilder)
        ensures
            r.spec_response().status_code == 0,
            r.spec_response().status_message@.len() == 0,
            r.spec_response().headers.spec_entries().len() == 0,
            r.spec_response().body@.len() == 0,
    {
        APIResponseBuilder { response: APIResponse::default() }
    }

    /// Sets the status code.
    pub fn with_status_code(self, new_status_code: u16) -> (r: APIResponseBuilder)
        ensures
            r.spec_response() == (APIResponse { status_code: new_status_code, ..self.spec_response() }),
    {
        let mut b = self;
        b.response.status_code = new_status_code;
        b
    }

    /// Sets the status message.
    pub fn with_status_message(self, new_status_message: &str) -> (r: APIResponseBuilder)
        ensures
            r.spec_response().status_message@ == new_status_message@,
            r.spec_response().status_code == self.spec_response().status_code,
            r.spec_response().headers == self.spec_response().headers,
            r.spec_response().body == self.spec_response().body,
    {
        let mut b = self;
        b.response.status_message = new_status_message.to_owned();
        b
    }

    /// Sets the body.
    pub fn with_body(self, new_body: &[u8]) -> (r: APIResponseBuilder)
        ensures
            r.spec_response().body@ == new_body@,
            r.spec_response().status_code == self.spec_response().status_code,
            r.spec_response().status_message == self.spec_response().status_message,
            r.spec_response().headers == self.spec_response().headers,
    {
        let mut b = self;
        b.response.body = vstd::slice::slice_to_vec(new_body);
        b
    }

    /// Makes the response return the given file: its content as the body, and
    /// a `Content-Disposition: attachment; filename=<name>` header.
    pub fn with_file(self, file: File) -> (r: APIResponseBuilder)
        ensures
            r.spec_response().body@ == file@.content,
            r.spec_response().headers.spec_entries() == self.spec_response().headers.spec_entries().push(
                ("Content-Disposition"@, "attachment; filename="@ + file@.name),
            ),
            r.spec_response().status_code == self.spec_response().status_code,
            r.spec_response().status_message == self.spec_response().status_message,
    {
        let mut b = self;
        let mut value = "attachment; filename=".to_owned();
        value.append(file.name());
        b.response.headers.add(Header { name: "Content-Disposition".to_owned(), value });
        b.response.body = vstd::slice::slice_to_vec(file.content());
        b
    }

    /// Returns the built response.
    pub fn build(self) -> (r: APIResponse)
        ensures
            r == self.spec_response(),
    {
        self.response
    }
}

} // verus!
