//! Connections to the API: the trait that sends requests, and the wrapper that
//! turns unsuccessful responses into errors.
use vstd::prelude::*;

use crate::arguments::APIArguments;
use crate::error::Error;
use crate::error::ErrorKind;
use crate::response::APIResponse;
use crate::text::decimal;

verus! {

/// The HTTP method of a request.
#[derive(Clone, Copy, Debug, PartialEq, Eq, Structural)]
pub enum HttpMethod {
    Get,
    Post,
}

/// A request as it was handed to a connection.
pub struct SentRequest {
    pub method: HttpMethod,
    pub url: Seq<char>,
    pub args: APIArguments,
}

/// A request and what the connection returned for it.
pub struct Exchange {
    pub request: SentRequest,
    pub outcome: Result<APIResponse, Error>,
}

/// Whether `r` is a GET request to `url` without arguments.
pub open spec fn is_plain_get(r: SentRequest, url: Seq<char>) -> bool {
    r.method == HttpMethod::Get && r.url == url && r.args.spec_is_empty()
}

/// Connection to the API.
///
/// An implementation sends each request it is handed exactly once and records
/// it, with what it returned, at the end of its history. It never retries.
pub trait APIConnection {
    /// The URL of the API.
    spec fn spec_api_url(&self) -> Seq<char>;

    /// Every request sent through this connection, oldest first, with its outcome.
    spec fn history(&self) -> Seq<Exchange>;

    /// Returns the URL of the API.
    fn api_url(&self) -> (r: &str)
        ensures
            r@ == self.spec_api_url(),
    ;

    /// Sends a GET request to `url`; the arguments become query parameters.
    fn send_get_request(&mut self, url: &str, args: APIArguments) -> (r: Result<APIResponse, Error>)
        ensures
            final(self).history() == old(self).history().push(
                Exchange {
                    request: SentRequest { method: HttpMethod::Get, url: url@, args },
                    outcome: r,
                },
            ),
            final(self).spec_api_url() == old(self).spec_api_url(),
    ;

    /// Sends a POST request to `url`; the arguments and files form a multipart body.
    fn send_post_request(&mut self, url: &str, args: APIArguments) -> (r: Result<APIResponse, Error>)
        ensures
            final(self).history() == old(self).history().push(
                Exchange {
                    request: SentRequest { method: HttpMethod::Post, url: url@, args },
                    outcome: r,
                },
            ),
            final(self).spec_api_url() == old(self).spec_api_url(),
    ;

    /// Waits `millis` milliseconds before the next request.
    ///
    /// The service has no push notifications, so jobs are polled; this is the
    /// pause between two polls.
    fn wait_for(&mut self, millis: u64)
        ensures
            final(self).history() == old(self).history(),
            final(self).spec_api_url() == old(self).spec_api_url(),
    ;

    /// Sends a GET request to `url` without arguments.
    fn send_get_request_without_args(&mut self, url: &str) -> (r: Result<APIResponse, Error>)
        ensures
            final(self).history().len() == old(self).history().len() + 1,
            final(self).history().drop_last() == old(self).history(),
            is_plain_get(final(self).history().last().request, url@),
            final(self).history().last().outcome == r,
            final(self).spec_api_url() == old(self).spec_api_url(),
    {
        let r = self.send_get_request(url, APIArguments::new());
        assert(self.history().drop_last() =~= old(self).history());
        r
    }
}

/// What the response-verifying connection returns for an outcome of the
/// connection it wraps: an unsuccessful response becomes a
/// [`ErrorKind::RequestFailed`] error holding the response's error reason.
pub open spec fn verified_outcome(outcome: Result<APIResponse, Error>, r: Result<APIResponse, Error>) -> bool {
    match outcome {
        Ok(resp) => if resp.spec_succeeded() {
            r == outcome
        } else {
            r matches Err(e) && e.kind matches ErrorKind::RequestFailed(reason) && reason@
                == resp.spec_error_reason() && e.cause is None
        },
        Err(_) => r == outcome,
    }
}

/// Returns an error when the response is not successful (status outside 200 to
/// 299): `request failed: <reason>`, with the response's error reason.
pub fn ensure_request_succeeded(response: &APIResponse) -> (r: Result<(), Error>)
    ensures
        r is Ok <==> response.spec_succeeded(),
        r matches Err(e) ==> e.kind matches ErrorKind::RequestFailed(reason) && reason@
            == response.spec_error_reason() && e.cause is None,
{
    if response.succeeded() {
        return Ok(());
    }
    Err(Error::from_kind(ErrorKind::RequestFailed(response.error_reason())))
}

/// Turns an unsuccessful response into an error (see [`verified_outcome`]).
pub fn verify_outcome(outcome: Result<APIResponse, Error>) -> (r: Result<APIResponse, Error>)
    ensures
        verified_outcome(outcome, r),
{
    match outcome {
        Ok(response) => match ensure_request_succeeded(&response) {
            Ok(()) => Ok(response),
            Err(e) => Err(e),
        },
        Err(e) => Err(e),
    }
}

/// A connection that wraps another one and turns every unsuccessful response
/// into an error.
pub struct ResponseVerifyingAPIConnection<C: APIConnection> {
    conn: C,
    log: Ghost<Seq<Exchange>>,
}

impl<C: APIConnection> ResponseVerifyingAPIConnection<C> {
    /// The wrapped connection.
    pub closed spec fn spec_inner(&self) -> C {
        self.conn
    }

    /// Creates a response-verifying connection wrapping the given connection.
    pub fn new(conn: C) -> (r: Self)
        ensures
            r.spec_inner() == conn,
            r.history() == conn.history(),
            r.spec_api_url() == conn.spec_api_url(),
    {
        let ghost h = conn.history();
        ResponseVerifyingAPIConnection { conn, log: Ghost(h) }
    }

    /// Returns the wrapped connection.
    pub fn inner(&self) -> (r: &C)
        ensures
            r == self.spec_inner(),
    {
        &self.conn
    }

    /// Returns the wrapped connection, for changes.
    pub fn inner_mut(&mut self) -> (r: &mut C)
        ensures
            *r == old(self).spec_inner(),
    {
        &mut self.conn
    }
}

impl<C: APIConnection> APIConnection for ResponseVerifyingAPIConnection<C> {
    closed spec fn spec_api_url(&self) -> Seq<char> {
        self.conn.spec_api_url()
    }

    closed spec fn history(&self) -> Seq<Exchange> {
        self.log@
    }

    fn api_url(&self) -> (r: &str) {
        self.conn.api_url()
    }

    fn send_get_request(&mut self, url: &str, args: APIArguments) -> (r: Result<APIResponse, Error>)
        ensures
            final(self).spec_inner().history().len() == old(self).spec_inner().history().len() + 1,
            final(self).spec_inner().history().drop_last() == old(self).spec_inner().history(),
            final(self).spec_inner().history().last().request == (SentRequest {
                method: HttpMethod::Get,
                url: url@,
                args,
            }),
            verified_outcome(final(self).spec_inner().history().last().outcome, r),
    {
        let ghost a = args;
        let ghost before = self.conn.history();
        let outcome = self.conn.send_get_request(url, args);
        assert(self.conn.history().drop_last() =~= before);
        let r = verify_outcome(outcome);
        self.log = Ghost(
            self.log@.push(
                Exchange {
                    request: SentRequest { method: HttpMethod::Get, url: url@, args: a },
                    outcome: r,
                },
            ),
        );
        r
    }

    fn send_post_request(&mut self, url: &str, args: APIArguments) -> (r: Result<APIResponse, Error>)
        ensures
            final(self).spec_inner().history().len() == old(self).spec_inner().history().len() + 1,
            final(self).spec_inner().history().drop_last() == old(self).spec_inner().history(),
            final(self).spec_inner().history().last().request == (SentRequest {
                method: HttpMethod::Post,
                url: url@,
                args,
            }),
            verified_outcome(final(self).spec_inner().history().last().outcome, r),
    {
        let ghost a = args;
        let ghost before = self.conn.history();
        let outcome = self.conn.send_post_request(url, args);
        assert(self.conn.history().drop_last() =~= before);
        let r = verify_outcome(outcome);
        self.log = Ghost(
            self.log@.push(
                Exchange {
                    request: SentRequest { method: HttpMethod::Post, url: url@, args: a },
                    outcome: r,
                },
            ),
        );
        r
    }

    fn wait_for(&mut self, millis: u64) {
        self.conn.wait_for(millis)
    }
}

/// Factory of connections to the API.
pub trait APIConnectionFactory {
    /// The connections this factory creates.
    type Connection: APIConnection;

    /// The URL of the API that the connections talk to.
    spec fn spec_api_url(&self) -> Seq<char>;

    /// Creates a new connection, with an empty history.
    fn new_connection(&self) -> (r: Self::Connection)
        ensures
            r.history().len() == 0,
            r.spec_api_url() == self.spec_api_url(),
    ;
}

/// A factory that wraps another one and makes its connections response-verifying.
pub struct ResponseVerifyingAPIConnectionFactory<F: APIConnectionFactory> {
    conn_factory: F,
}

impl<F: APIConnectionFactory> ResponseVerifyingAPIConnectionFactory<F> {
    /// Creates a new factory wrapping the given factory.
    pub fn new(conn_factory: F) -> (r: Self)
        ensures
            r.spec_api_url() == conn_factory.spec_api_url(),
    {
        ResponseVerifyingAPIConnectionFactory { conn_factory }
    }
}

impl<F: APIConnectionFactory> APIConnectionFactory for ResponseVerifyingAPIConnectionFactory<F> {
    type Connection = ResponseVerifyingAPIConnection<F::Connection>;

    closed spec fn spec_api_url(&self) -> Seq<char> {
        self.conn_factory.spec_api_url()
    }

    fn new_connection(&self) -> (r: Self::Connection) {
        ResponseVerifyingAPIConnection::new(self.conn_factory.new_connection())
    }
}

/// A response with status 404 and status message `Not Found`, whose body gives
/// no description or message, becomes the error `request failed: Not Found
/// (HTTP 404)` in a response-verifying connection.
pub proof fn law_not_found_becomes_request_failed(resp: APIResponse, r: Result<APIResponse, Error>)
    requires
        resp.status_code == 404,
        resp.status_message@ == "Not Found"@,
        resp.json_string("description"@) is None,
        resp.json_string("message"@) is None,
        verified_outcome(Ok(resp), r),
    ensures
        r matches Err(e) && e.spec_description() == "request failed: Not Found (HTTP 404)"@,
{
    reveal_strlit("Not Found");
    reveal_strlit(" (HTTP ");
    reveal_strlit(")");
    reveal_strlit("request failed: ");
    reveal_strlit("request failed: Not Found (HTTP 404)");
    assert(decimal(4) =~= seq!['4']);
    assert(decimal(40) =~= seq!['4', '0']);
    assert(decimal(404) =~= seq!['4', '0', '4']);
    assert(resp.status_message@.len() > 0);
    let e = r->Err_0;
    assert(e.spec_description() =~= "request failed: Not Found (HTTP 404)"@);
}

} // verus!
