//! An in-memory connection that answers with responses set in advance, and
//! records every request; it stands in for the service in tests.
use vstd::prelude::*;

use crate::arguments::APIArguments;
use crate::connection::APIConnection;
use crate::connection::APIConnectionFactory;
use crate::connection::Exchange;
use crate::connection::HttpMethod;
use crate::connection::SentRequest;
use crate::error::Error;
use crate::file::File;
use crate::response::APIResponse;
use crate::settings::Settings;
use crate::text::str_eq;

verus! {

/// A request recorded by the in-memory connection.
pub struct APIRequestInfo {
    pub method: HttpMethod,
    pub url: String,
    pub args: APIArguments,
}

/// A response that the in-memory connection returns for a method and URL.
pub struct APIResponseInfo {
    pub method: HttpMethod,
    pub url: String,
    pub response: Result<APIResponse, Error>,
}

/// In-memory connection to the API.
pub struct APIConnectionMock {
    api_url: String,
    requests: Vec<APIRequestInfo>,
    responses: Vec<APIResponseInfo>,
    outcomes: Ghost<Map<int, Result<APIResponse, Error>>>,
}

/// The request that a recorded request stands for.
pub open spec fn request_of(info: APIRequestInfo) -> SentRequest {
    SentRequest { method: info.method, url: info.url@, args: info.args }
}

impl APIConnectionMock {
    /// Creates an in-memory connection to the API of the given settings, with
    /// no responses set.
    pub fn new(settings: Settings) -> (r: APIConnectionMock)
        ensures
            r.history().len() == 0,
            r.spec_api_url() == settings.spec_api_url(),
    {
        APIConnectionMock {
            api_url: settings.api_url().to_owned(),
            requests: Vec::new(),
            responses: Vec::new(),
            outcomes: Ghost(Map::empty()),
        }
    }

    /// Sets a response to return, once, for a request with the given method and URL.
    pub fn add_response(&mut self, method: HttpMethod, url: &str, response: Result<APIResponse, Error>)
        ensures
            final(self).history() == old(self).history(),
            final(self).spec_api_url() == old(self).spec_api_url(),
    {
        self.responses.push(APIResponseInfo { method, url: url.to_owned(), response });
    }

    /// Has a request with the given method, URL and arguments been sent?
    pub fn request_sent(&self, method: HttpMethod, url: &str, args: &APIArguments) -> (r: bool)
        ensures
            r == exists|i: int|
                0 <= i < self.history().len() && (#[trigger] self.history()[i]).request.method
                    == method && self.history()[i].request.url == url@
                    && self.history()[i].request.args.same_as(args),
    {
        let mut i: usize = 0;
        while i < self.requests.len()
            invariant
                i <= self.requests@.len(),
                forall|j: int|
                    0 <= j < i ==> !((#[trigger] self.history()[j]).request.method == method
                        && self.history()[j].request.url == url@
                        && self.history()[j].request.args.same_as(args)),
            decreases self.requests@.len() - i,
        {
            let info = &self.requests[i];
            if info.method == method && str_eq(info.url.as_str(), url) && info.args.same_as_args(args) {
                assert(self.history()[i as int].request.method == method);
                return true;
            }
            i = i + 1;
        }
        false
    }

    /// Forgets every sent request and every response set.
    pub fn reset(&mut self)
        ensures
            final(self).history().len() == 0,
            final(self).spec_api_url() == old(self).spec_api_url(),
    {
        self.requests.clear();
        self.responses.clear();
        self.outcomes = Ghost(Map::empty());
    }

    /// Has no request been sent?
    pub fn no_requests_sent(&self) -> (r: bool)
        ensures
            r == (self.history().len() == 0),
    {
        self.requests.len() == 0
    }

    fn find_response(&mut self, method: HttpMethod, url: &str) -> (r: Result<APIResponse, Error>)
        ensures
            final(self).requests == old(self).requests,
            final(self).outcomes == old(self).outcomes,
            final(self).api_url == old(self).api_url,
    {
        let mut i: usize = 0;
        while i < self.responses.len()
            invariant
                self.requests == old(self).requests,
                self.outcomes == old(self).outcomes,
                self.api_url == old(self).api_url,
            decreases self.responses@.len() - i,
        {
            if self.responses[i].method == method && str_eq(self.responses[i].url.as_str(), url) {
                let info = self.responses.remove(i);
                return info.response;
            }
            i = i + 1;
        }
        let mut message = "no response set for a request to ".to_owned();
        vstd::string::StringExecFns::append(&mut message, url);
        Err(Error::msg(message.as_str()))
    }

    fn send(&mut self, method: HttpMethod, url: &str, args: APIArguments) -> (r: Result<APIResponse, Error>)
        ensures
            final(self).history() == old(self).history().push(
                Exchange { request: SentRequest { method, url: url@, args }, outcome: r },
            ),
            final(self).spec_api_url() == old(self).spec_api_url(),
    {
        let ghost n = self.requests@.len() as int;
        let ghost a = args;
        self.requests.push(APIRequestInfo { method, url: url.to_owned(), args });
        assert(request_of(self.requests@[n]) == SentRequest { method, url: url@, args: a });
        let ghost pushed = self.requests@;
        let r = self.find_response(method, url);
        assert(self.requests@ == pushed);
        self.outcomes = Ghost(self.outcomes@.insert(n, r));
        assert(self.history() =~= old(self).history().push(
            Exchange { request: SentRequest { method, url: url@, args: a }, outcome: r },
        ));
        r
    }
}

impl APIConnection for APIConnectionMock {
    closed spec fn spec_api_url(&self) -> Seq<char> {
        self.api_url@
    }

    closed spec fn history(&self) -> Seq<Exchange> {
        Seq::new(
            self.requests@.len(),
            |i: int| Exchange { request: request_of(self.requests@[i]), outcome: self.outcomes@[i] },
        )
    }

    fn api_url(&self) -> (r: &str) {
        self.api_url.as_str()
    }

    fn send_get_request(&mut self, url: &str, args: APIArguments) -> (r: Result<APIResponse, Error>) {
        self.send(HttpMethod::Get, url, args)
    }

    fn send_post_request(&mut self, url: &str, args: APIArguments) -> (r: Result<APIResponse, Error>) {
        self.send(HttpMethod::Post, url, args)
    }

    fn wait_for(&mut self, millis: u64) {
    }
}

fn copy_responses(v: &Vec<APIResponseInfo>) -> (r: Vec<APIResponseInfo>) {
    let mut out: Vec<APIResponseInfo> = Vec::new();
    let mut i: usize = 0;
    while i < v.len()
        decreases v@.len() - i,
    {
        let response = match &v[i].response {
            Ok(resp) => Ok(resp.clone()),
            Err(e) => Err(e.duplicate()),
        };
        out.push(APIResponseInfo { method: v[i].method, url: v[i].url.clone(), response });
        i = i + 1;
    }
    out
}

/// A factory of in-memory connections: each new connection answers with the
/// responses set on the template connection, and has sent nothing.
pub struct APIConnectionFactoryMock {
    api_url: String,
    responses: Vec<APIResponseInfo>,
}

impl APIConnectionFactoryMock {
    /// Creates a factory whose connections copy the URL and responses of `conn`.
    pub fn new(conn: APIConnectionMock) -> (r: APIConnectionFactoryMock)
        ensures
            r.spec_api_url() == conn.spec_api_url(),
    {
        APIConnectionFactoryMock { api_url: conn.api_url, responses: conn.responses }
    }
}

impl APIConnectionFactory for APIConnectionFactoryMock {
    type Connection = APIConnectionMock;

    closed spec fn spec_api_url(&self) -> Seq<char> {
        self.api_url@
    }

    fn new_connection(&self) -> (r: APIConnectionMock) {
        APIConnectionMock {
            api_url: self.api_url.clone(),
            requests: Vec::new(),
            responses: copy_responses(&self.responses),
            outcomes: Ghost(Map::empty()),
        }
    }
}

/// A builder of request arguments.
pub struct APIArgumentsBuilder {
    args: APIArguments,
}

impl APIArgumentsBuilder {
    /// The arguments being built.
    pub closed spec fn spec_args(&self) -> APIArguments {
        self.args
    }

    /// Creates a builder of empty arguments.
    pub fn new() -> (r: APIArgumentsBuilder)
        ensures
            r.spec_args().spec_is_empty(),
    {
        APIArgumentsBuilder { args: APIArguments::new() }
    }

    /// Adds a string argument (`name=value`).
    pub fn with_string_arg(self, name: &str, value: &str) -> (r: APIArgumentsBuilder)
        ensures
            r.spec_args().arg_value(name@) == Some(value@),
            forall|n: Seq<char>| n != name@ ==> r.spec_args().arg_value(n) == self.spec_args().arg_value(n),
            r.spec_args().spec_files() == self.spec_args().spec_files(),
    {
        let mut b = self;
        b.args.add_string_arg(name, value);
        b
    }

    /// Adds a bool argument (`name=1` or `name=0`).
    pub fn with_bool_arg(self, name: &str, value: bool) -> (r: APIArgumentsBuilder)
        ensures
            r.spec_args().arg_value(name@) == Some(if value { "1"@ } else { "0"@ }),
            forall|n: Seq<char>| n != name@ ==> r.spec_args().arg_value(n) == self.spec_args().arg_value(n),
            r.spec_args().spec_files() == self.spec_args().spec_files(),
    {
        let mut b = self;
        b.args.add_bool_arg(name, value);
        b
    }

    /// Adds a file under the given name.
    pub fn with_file(self, name: &str, file: File) -> (r: APIArgumentsBuilder)
        ensures
            r.spec_args().file_value(name@) == Some(file@),
            forall|n: Seq<char>| n != name@ ==> r.spec_args().file_value(n) == self.spec_args().file_value(n),
            r.spec_args().spec_args() == self.spec_args().spec_args(),
    {
        let mut b = self;
        b.args.add_file(name, file);
        b
    }

    /// Returns the built arguments.
    pub fn build(self) -> (r: APIArguments)
        ensures
            r == self.spec_args(),
    {
        self.args
    }
}

} // verus!
