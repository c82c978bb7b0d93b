//! Errors reported by the library, each with the chain of errors that caused it.
use vstd::prelude::*;
use vstd::string::StringExecFns;
use vstd::utf8::encode_utf8;

verus! {

/// What went wrong.
#[derive(Debug)]
pub enum ErrorKind {
    /// A plain message.
    Msg(String),
    /// No API key is configured.
    MissingApiKey,
    /// The request could not be built or sent (malformed URL, network failure).
    Transport(String),
    /// A body or a file content is not valid UTF-8, or not valid JSON.
    Decode(String),
    /// The response from the given URL lacks a required field.
    InvalidResponse(String),
    /// No input file was supplied.
    MissingInput,
    /// The service answered with a non-2xx status; holds the reason.
    RequestFailed(String),
    /// Output was requested from a job of the given kind that has not succeeded.
    ResourceNotSucceeded(String),
    /// A file was expected in a response that does not hold one.
    NotAFile,
    /// The service refused the API key.
    AuthenticationFailed,
}

/// An error, and optionally the error that caused it.
#[derive(Debug)]
pub struct Error {
    pub kind: ErrorKind,
    pub cause: Option<Box<Error>>,
}

/// The message that describes an error kind.
pub open spec fn kind_text(k: ErrorKind) -> Seq<char> {
    match k {
        ErrorKind::Msg(s) => s@,
        ErrorKind::MissingApiKey => "missing API key"@,
        ErrorKind::Transport(s) => s@,
        ErrorKind::Decode(s) => s@,
        ErrorKind::InvalidResponse(url) => url@ + " returned invalid JSON response"@,
        ErrorKind::MissingInput => "no input file given"@,
        ErrorKind::RequestFailed(reason) => "request failed: "@ + reason@,
        ErrorKind::ResourceNotSucceeded(name) => name@ + " has not succeeded"@,
        ErrorKind::NotAFile => "response does not contain a file"@,
        ErrorKind::AuthenticationFailed => "authentication failed"@,
    }
}

/// The lines that name the causes of `e`, innermost last.
pub open spec fn causes_text(e: Error) -> Seq<char>
    decreases e,
{
    match e.cause {
        Some(c) => "  caused by: "@ + kind_text(c.kind) + "\n"@ + causes_text(*c),
        None => Seq::empty(),
    }
}

/// The full report of `e`: its message, then one line per cause.
pub open spec fn report_text(e: Error) -> Seq<char> {
    "error: "@ + kind_text(e.kind) + "\n"@ + causes_text(e)
}

impl Error {
    /// The message of this error, without its causes.
    pub open spec fn spec_description(&self) -> Seq<char> {
        kind_text(self.kind)
    }

    /// Creates an error with no cause.
    pub fn from_kind(kind: ErrorKind) -> (r: Error)
        ensures
            r.kind == kind,
            r.cause is None,
    {
        Error { kind, cause: None }
    }

    /// Creates an error of the given kind caused by `cause`.
    pub fn with_chain(cause: Error, kind: ErrorKind) -> (r: Error)
        ensures
            r.kind == kind,
            r.cause == Some(Box::new(cause)),
    {
        Error { kind, cause: Some(Box::new(cause)) }
    }

    /// Creates an error holding a plain message.
    pub fn msg(message: &str) -> (r: Error)
        ensures
            r.kind matches ErrorKind::Msg(s) && s@ == message@,
            r.cause is None,
            r.spec_description() == message@,
    {
        Error { kind: ErrorKind::Msg(message.to_owned()), cause: None }
    }

    /// Wraps this error as the cause of a new error with a plain message.
    pub fn chain_msg(self, message: &str) -> (r: Error)
        ensures
            r.kind matches ErrorKind::Msg(s) && s@ == message@,
            r.cause == Some(Box::new(self)),
    {
        Error::with_chain(self, ErrorKind::Msg(message.to_owned()))
    }

    /// Returns a copy of this error and of its causes.
    pub fn duplicate(&self) -> (r: Error)
        ensures
            r == *self,
        decreases self,
    {
        let kind = match &self.kind {
            ErrorKind::Msg(s) => ErrorKind::Msg(s.clone()),
            ErrorKind::MissingApiKey => ErrorKind::MissingApiKey,
            ErrorKind::Transport(s) => ErrorKind::Transport(s.clone()),
            ErrorKind::Decode(s) => ErrorKind::Decode(s.clone()),
            ErrorKind::InvalidResponse(s) => ErrorKind::InvalidResponse(s.clone()),
            ErrorKind::MissingInput => ErrorKind::MissingInput,
            ErrorKind::RequestFailed(s) => ErrorKind::RequestFailed(s.clone()),
            ErrorKind::ResourceNotSucceeded(s) => ErrorKind::ResourceNotSucceeded(s.clone()),
            ErrorKind::NotAFile => ErrorKind::NotAFile,
            ErrorKind::AuthenticationFailed => ErrorKind::AuthenticationFailed,
        };
        let cause = match &self.cause {
            Some(c) => Some(Box::new(c.duplicate())),
            None => None,
        };
        Error { kind, cause }
    }

    /// Returns the message of this error, without its causes.
    pub fn description(&self) -> (r: String)
        ensures
            r@ == self.spec_description(),
    {
        kind_message(&self.kind)
    }
}

fn kind_message(k: &ErrorKind) -> (r: String)
    ensures
        r@ == kind_text(*k),
{
    match k {
        ErrorKind::Msg(s) => s.clone(),
        ErrorKind::MissingApiKey => "missing API key".to_owned(),
        ErrorKind::Transport(s) => s.clone(),
        ErrorKind::Decode(s) => s.clone(),
        ErrorKind::InvalidResponse(url) => {
            let mut r = url.clone();
            r.append(" returned invalid JSON response");
            r
        },
        ErrorKind::MissingInput => "no input file given".to_owned(),
        ErrorKind::RequestFailed(reason) => {
            let mut r = "request failed: ".to_owned();
            r.append(reason.as_str());
            r
        },
        ErrorKind::ResourceNotSucceeded(name) => {
            let mut r = name.clone();
            r.append(" has not succeeded");
            r
        },
        ErrorKind::NotAFile => "response does not contain a file".to_owned(),
        ErrorKind::AuthenticationFailed => "authentication failed".to_owned(),
    }
}

fn push_causes(out: &mut String, e: &Error)
    ensures
        final(out)@ == old(out)@ + causes_text(*e),
    decreases e,
{
    match &e.cause {
        Some(c) => {
            out.append("  caused by: ");
            let m = kind_message(&c.kind);
            out.append(m.as_str());
            out.append("\n");
            push_causes(out, c);
            proof {
                assert(causes_text(*e) == "  caused by: "@ + kind_text(c.kind) + "\n"@ + causes_text(**c));
            }
        },
        None => {
            assert(old(out)@ + causes_text(*e) =~= old(out)@);
        },
    }
}

/// Renders `err` as the command-line tools print it: `error: <message>`, then
/// one `  caused by: <message>` line per cause, outermost first.
pub fn error_report(err: &Error) -> (r: String)
    ensures
        r@ == report_text(*err),
{
    let mut out = "error: ".to_owned();
    let m = kind_message(&err.kind);
    out.append(m.as_str());
    out.append("\n");
    push_causes(&mut out, err);
    out
}

/// Writes the report of `err` (see [`error_report`]) into `stream` as UTF-8.
pub fn print_error(err: &Error, stream: &mut Vec<u8>)
    ensures
        final(stream)@ == old(stream)@ + encode_utf8(report_text(*err)),
{
    let report = error_report(err);
    let bytes = report.as_str().as_bytes();
    let ghost start = stream@;
    let mut i: usize = 0;
    while i < bytes.len()
        invariant
            i <= bytes@.len(),
            bytes@ == encode_utf8(report_text(*err)),
            stream@ == start + bytes@.subrange(0, i as int),
        decreases bytes@.len() - i,
    {
        stream.push(bytes[i]);
        i = i + 1;
        assert(stream@ =~= start + bytes@.subrange(0, i as int));
    }
    assert(bytes@.subrange(0, i as int) =~= bytes@);
}

} // verus!
