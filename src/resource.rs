//! What analyses and decompilations share: a job on the service, with an ID,
//! whose status is polled until it has finished.
use vstd::prelude::*;
use vstd::string::StringExecFns;

use crate::connection::APIConnection;
use crate::connection::Exchange;
use crate::connection::is_plain_get;
use crate::error::Error;
use crate::error::ErrorKind;
use crate::json::json_bool_member;
use crate::json::json_member_bool;
use crate::json::json_member_string;
use crate::json::json_parses;
use crate::json::json_string_member;
use crate::json::parse_json;
use crate::file::File;
use crate::response::APIResponse;
use crate::text::opt_str_view;
use crate::text::opt_view;

verus! {

/// The status of a job, as the service reports it.
pub struct Status {
    pub finished: bool,
    pub succeeded: bool,
    pub failed: bool,
    pub error: Option<String>,
}

/// The status a response reports: the booleans `finished`, `succeeded` and
/// `failed` of its JSON body, and its `error` string if there is one.
pub open spec fn reported_status(resp: APIResponse) -> Option<(bool, bool, bool, Option<Seq<char>>)> {
    match resp.body_text() {
        Some(t) => if json_parses(t) && json_member_bool(t, "finished"@) is Some && json_member_bool(
            t,
            "succeeded"@,
        ) is Some && json_member_bool(t, "failed"@) is Some {
            Some(
                (
                    json_member_bool(t, "finished"@)->Some_0,
                    json_member_bool(t, "succeeded"@)->Some_0,
                    json_member_bool(t, "failed"@)->Some_0,
                    json_member_string(t, "error"@),
                ),
            )
        } else {
            None
        },
        None => None,
    }
}

/// Reads the status that a status response reports (see [`reported_status`]).
///
/// Fails with a decoding error when the body is not UTF-8 JSON, and with an
/// invalid-response error naming `status_url` when a boolean is missing.
pub fn read_status(resp: &APIResponse, status_url: &str) -> (r: Result<Status, Error>)
    ensures
        r is Ok <==> reported_status(*resp) is Some,
        r matches Ok(s) ==> reported_status(*resp) == Some(
            (s.finished, s.succeeded, s.failed, opt_view(s.error)),
        ),
        r matches Err(e) ==> if resp.body_text() matches Some(t) && json_parses(t) {
            e.kind matches ErrorKind::InvalidResponse(u) && u@ == status_url@
        } else {
            e.kind is Decode
        },
{
    let t = resp.body_as_str()?;
    if parse_json(t).is_none() {
        return Err(Error::from_kind(
            ErrorKind::Decode("failed to parse API response body as JSON".to_owned()),
        ));
    }
    let finished = json_bool_member(t, "finished");
    let succeeded = json_bool_member(t, "succeeded");
    let failed = json_bool_member(t, "failed");
    match (finished, succeeded, failed) {
        (Some(finished), Some(succeeded), Some(failed)) => {
            let error = json_string_member(t, "error");
            Ok(Status { finished, succeeded, failed, error })
        },
        _ => Err(Error::from_kind(ErrorKind::InvalidResponse(status_url.to_owned()))),
    }
}

/// Whether the status can be read from the outcome of a status request.
pub open spec fn status_ok(x: Exchange) -> bool {
    x.outcome matches Ok(resp) && reported_status(resp) is Some
}

/// Whether `new` holds the status that the status request `x` reports for
/// `old`: when it can be read, the flags it gives, and its error message if
/// the job failed (an earlier message stays when it gives none; a job that
/// did not fail has none); otherwise the status of `old`.
pub open spec fn refreshed<C: APIConnection>(old: Resource<C>, new: Resource<C>, x: Exchange) -> bool {
    if status_ok(x) {
        let st = reported_status(x.outcome->Ok_0)->Some_0;
        &&& new.finished == st.0
        &&& new.succeeded == st.1
        &&& new.failed == st.2
        &&& opt_view(new.error) == if !st.2 {
            None
        } else if st.3 is Some {
            st.3
        } else {
            opt_view(old.error)
        }
    } else {
        same_state(old, new)
    }
}

/// Whether `e` is the error of the status request `x` whose status cannot be
/// read: the connection's own error, a decoding error, or an invalid-response
/// error naming `status_url` when a boolean is missing.
pub open spec fn status_error(x: Exchange, status_url: Seq<char>, e: Error) -> bool {
    match x.outcome {
        Ok(resp) => if resp.body_text() matches Some(t) && json_parses(t) {
            e.kind matches ErrorKind::InvalidResponse(u) && u@ == status_url
        } else {
            e.kind is Decode
        },
        Err(e0) => e == e0,
    }
}

/// Whether `new` is `old` after one status request: the identity and the
/// connection's URL unchanged, one GET without arguments to the status URL
/// added to the history, `ok` telling whether its status could be read, and
/// the status refreshed from it (see [`refreshed`]).
pub open spec fn polled<C: APIConnection>(old: Resource<C>, new: Resource<C>, ok: bool) -> bool {
    let h = new.conn.history();
    &&& same_job(old, new)
    &&& h.len() == old.conn.history().len() + 1
    &&& h.drop_last() == old.conn.history()
    &&& is_plain_get(h.last().request, old.status_url@)
    &&& ok == status_ok(h.last())
    &&& refreshed(old, new, h.last())
}

/// Whether a job holds an error message only when it failed.
pub open spec fn error_only_if_failed<C: APIConnection>(r: Resource<C>) -> bool {
    r.error is Some ==> r.failed
}

/// Whether `old` and `new` are the same job on the same service.
pub open spec fn same_job<C: APIConnection>(old: Resource<C>, new: Resource<C>) -> bool {
    &&& new.id == old.id
    &&& new.base_url == old.base_url
    &&& new.status_url == old.status_url
    &&& new.conn.spec_api_url() == old.conn.spec_api_url()
}

/// Whether `old` and `new` hold the same status.
pub open spec fn same_state<C: APIConnection>(old: Resource<C>, new: Resource<C>) -> bool {
    &&& new.finished == old.finished
    &&& new.succeeded == old.succeeded
    &&& new.failed == old.failed
    &&& new.error == old.error
}

/// Whether every exchange that `new` adds to `old` is a status request.
pub open spec fn only_status_polls(old: Seq<Exchange>, new: Seq<Exchange>, status_url: Seq<char>) -> bool {
    &&& old.len() <= new.len()
    &&& new.subrange(0, old.len() as int) == old
    &&& forall|i: int| old.len() <= i < new.len() ==> is_plain_get(#[trigger] new[i].request, status_url)
}

/// Access to a job on the service.
///
/// Its status is refreshed only while the job is not known to have finished:
/// once finished, a job never changes, so no further request is sent.
pub struct Resource<C: APIConnection> {
    pub id: String,
    pub conn: C,
    pub base_url: String,
    pub status_url: String,
    pub finished: bool,
    pub succeeded: bool,
    pub failed: bool,
    pub error: Option<String>,
}

/// The URL of a job: `<api>/<service>/<collection>/<id>`.
pub open spec fn job_url(api_url: Seq<char>, service: Seq<char>, collection: Seq<char>, id: Seq<char>) -> Seq<char> {
    api_url + "/"@ + service + "/"@ + collection + "/"@ + id
}

impl<C: APIConnection> Resource<C> {
    /// Creates access to the job `id` in the given collection of the given service.
    pub fn new(service_name: &str, resources_name: &str, id: &str, conn: C) -> (r: Resource<C>)
        ensures
            r.id@ == id@,
            r.conn == conn,
            r.base_url@ == job_url(conn.spec_api_url(), service_name@, resources_name@, id@),
            r.status_url@ == r.base_url@ + "/status"@,
            !r.finished && !r.succeeded && !r.failed && r.error is None,
    {
        let mut base_url = conn.api_url().to_owned();
        base_url.append("/");
        base_url.append(service_name);
        base_url.append("/");
        base_url.append(resources_name);
        base_url.append("/");
        base_url.append(id);
        let mut status_url = base_url.clone();
        status_url.append("/status");
        Resource {
            id: id.to_owned(),
            conn,
            base_url,
            status_url,
            finished: false,
            succeeded: false,
            failed: false,
            error: None,
        }
    }

    /// Refreshes the status of the job with one GET request to its status URL.
    pub fn update_status(&mut self) -> (r: Result<(), Error>)
        ensures
            polled(*old(self), *final(self), r is Ok),
            r matches Err(e) ==> status_error(final(self).conn.history().last(), old(self).status_url@, e),
            error_only_if_failed(*old(self)) ==> error_only_if_failed(*final(self)),
    {
        let response = self.conn.send_get_request_without_args(self.status_url.as_str());
        let ghost h = self.conn.history();
        assert(h.last().outcome == response);
        let response = match response {
            Ok(resp) => resp,
            Err(e) => {
                return Err(e);
            },
        };
        let status = match read_status(&response, self.status_url.as_str()) {
            Ok(status) => status,
            Err(e) => {
                return Err(e);
            },
        };
        self.finished = status.finished;
        self.succeeded = status.succeeded;
        self.failed = status.failed;
        if !status.failed {
            self.error = None;
        } else if let Some(error) = status.error {
            self.error = Some(error);
        }
        Ok(())
    }

    fn update_status_if_not_finished(&mut self) -> (r: Result<(), Error>)
        ensures
            old(self).finished ==> *final(self) == *old(self) && r is Ok,
            !old(self).finished ==> polled(*old(self), *final(self), r is Ok),
            r matches Err(e) ==> status_error(final(self).conn.history().last(), old(self).status_url@, e),
            error_only_if_failed(*old(self)) ==> error_only_if_failed(*final(self)),
    {
        if !self.finished {
            self.update_status()?;
        }
        Ok(())
    }

    /// Has the job finished? Sends a status request only when it was not known
    /// to have finished.
    pub fn has_finished(&mut self) -> (r: Result<bool, Error>)
        ensures
            old(self).finished ==> *final(self) == *old(self) && r == Ok::<bool, Error>(true),
            !old(self).finished ==> polled(*old(self), *final(self), r is Ok),
            r matches Ok(b) ==> b == final(self).finished,
            r matches Err(e) ==> status_error(final(self).conn.history().last(), old(self).status_url@, e),
            error_only_if_failed(*old(self)) ==> error_only_if_failed(*final(self)),
    {
        self.update_status_if_not_finished()?;
        Ok(self.finished)
    }

    /// Has the job succeeded? Sends a status request only when it was not known
    /// to have finished.
    pub fn has_succeeded(&mut self) -> (r: Result<bool, Error>)
        ensures
            old(self).finished ==> *final(self) == *old(self) && r is Ok,
            !old(self).finished ==> polled(*old(self), *final(self), r is Ok),
            r matches Ok(b) ==> b == final(self).succeeded,
            r matches Err(e) ==> status_error(final(self).conn.history().last(), old(self).status_url@, e),
            error_only_if_failed(*old(self)) ==> error_only_if_failed(*final(self)),
    {
        self.update_status_if_not_finished()?;
        Ok(self.succeeded)
    }

    /// Has the job failed? Sends a status request only when it was not known
    /// to have finished.
    pub fn has_failed(&mut self) -> (r: Result<bool, Error>)
        ensures
            old(self).finished ==> *final(self) == *old(self) && r is Ok,
            !old(self).finished ==> polled(*old(self), *final(self), r is Ok),
            r matches Ok(b) ==> b == final(self).failed,
            r matches Err(e) ==> status_error(final(self).conn.history().last(), old(self).status_url@, e),
            error_only_if_failed(*old(self)) ==> error_only_if_failed(*final(self)),
    {
        self.update_status_if_not_finished()?;
        Ok(self.failed)
    }

    /// Returns the error message of a failed job, without any request; a job
    /// not known to have failed has none.
    pub fn error(&self) -> (r: Option<&str>)
        ensures
            opt_str_view(r) == if self.failed { opt_view(self.error) } else { None },
    {
        if !self.failed {
            return None;
        }
        match &self.error {
            Some(e) => Some(e.as_str()),
            None => None,
        }
    }

    /// Returns the error message of the job if it failed. Sends a status
    /// request only when the job was not known to have finished.
    pub fn get_error(&mut self) -> (r: Result<Option<&str>, Error>)
        ensures
            old(self).finished ==> *final(self) == *old(self) && r is Ok,
            !old(self).finished ==> polled(*old(self), *final(self), r is Ok),
            r matches Ok(m) ==> opt_str_view(m) == if final(self).failed {
                opt_view(final(self).error)
            } else {
                None
            },
            r matches Err(e) ==> status_error(final(self).conn.history().last(), old(self).status_url@, e),
    {
        self.update_status_if_not_finished()?;
        Ok(self.error())
    }

    /// Waits (sleeps) for the given number of milliseconds, through the connection.
    pub fn wait_for(&mut self, millis: u64)
        ensures
            same_job(*old(self), *final(self)),
            same_state(*old(self), *final(self)),
            final(self).conn.history() == old(self).conn.history(),
    {
        self.conn.wait_for(millis);
    }

    /// Returns an error naming the kind of job (`<name> has not succeeded`)
    /// unless the job has succeeded; sends a status request only when the job
    /// was not known to have finished. A pending job and a failed job get the
    /// same error.
    pub fn ensure_has_succeeded(&mut self, resource_name: &str) -> (r: Result<(), Error>)
        ensures
            old(self).finished ==> *final(self) == *old(self) && (r is Ok <==> old(self).succeeded),
            !old(self).finished ==> polled(*old(self), *final(self), status_ok(final(self).conn.history().last()))
                && (r is Ok <==> status_ok(final(self).conn.history().last()) && final(self).succeeded),
            (old(self).finished || status_ok(final(self).conn.history().last())) ==> (r matches Err(e)
                ==> not_succeeded_error(e, resource_name@)),
            !old(self).finished && !status_ok(final(self).conn.history().last()) ==> (r matches Err(e)
                ==> status_error(final(self).conn.history().last(), old(self).status_url@, e)),
            r is Ok ==> final(self).succeeded,
            error_only_if_failed(*old(self)) ==> error_only_if_failed(*final(self)),
    {
        match self.has_succeeded() {
            Ok(true) => Ok(()),
            Ok(false) => Err(Error::from_kind(ErrorKind::ResourceNotSucceeded(resource_name.to_owned()))),
            Err(e) => Err(e),
        }
    }
}

/// Whether `e` is the error that a job of kind `name` has not succeeded.
pub open spec fn not_succeeded_error(e: Error, name: Seq<char>) -> bool {
    e.kind matches ErrorKind::ResourceNotSucceeded(n) && n@ == name && e.cause is None
}

} // verus!

verus! {

/// Status polls compose: polls after polls are polls.
pub proof fn lemma_one_more_poll(a: Seq<Exchange>, b: Seq<Exchange>, c: Seq<Exchange>, url: Seq<char>)
    requires
        only_status_polls(a, b, url),
        c.len() == b.len() + 1,
        c.drop_last() == b,
        is_plain_get(c.last().request, url),
    ensures
        only_status_polls(a, c, url),
{
    assert(c.subrange(0, a.len() as int) =~= b.subrange(0, a.len() as int)) by {
        assert forall|i: int| 0 <= i < a.len() implies c[i] == b[i] by {
            assert(c.drop_last()[i] == c[i]);
        }
    }
    assert forall|i: int| a.len() <= i < c.len() implies is_plain_get(#[trigger] c[i].request, url) by {
        if i < b.len() {
            assert(c.drop_last()[i] == c[i]);
        }
    }
}

/// No exchange at all is no status poll.
pub proof fn lemma_no_poll(a: Seq<Exchange>, url: Seq<char>)
    ensures
        only_status_polls(a, a, url),
{
    assert(a.subrange(0, a.len() as int) =~= a);
}

} // verus!

verus! {

/// Whether `e` ends a wait for the job `old`, which became `new`: either the
/// last status request failed and `e`, with the message `message`, has its
/// error as cause, or `u64::MAX` status requests were sent.
pub open spec fn wait_failed<C: APIConnection>(old: Resource<C>, new: Resource<C>, e: Error, message: Seq<char>) -> bool {
    let h = new.conn.history();
    ||| h.len() > old.conn.history().len() && !status_ok(h.last()) && (e.kind matches ErrorKind::Msg(m)
        && m@ == message) && (e.cause matches Some(c) && status_error(h.last(), old.status_url@, *c))
    ||| h.len() == old.conn.history().len() + u64::MAX
}

/// Whether the job `old` passes the success check: known to have succeeded,
/// or, when not known to have finished, reported as succeeded by the first
/// status request in the history of `new`.
pub open spec fn success_seen<C: APIConnection>(old: Resource<C>, new: Resource<C>) -> bool {
    if old.finished {
        old.succeeded
    } else {
        let x = new.conn.history()[old.conn.history().len() as int];
        status_ok(x) && reported_status(x.outcome->Ok_0)->Some_0.1
    }
}

/// Whether `new` is `old` after the output of the job, at `url`, was asked
/// for, with the result `r`:
/// - a job not known to have finished first gets one status request, which
///   refreshes its status; a finished job keeps its status;
/// - a job that then has succeeded gets one GET request without arguments to
///   `url`, and `delivered` tells how `r` follows from its outcome;
/// - any other job gets no further request, and `r` is an error: `<name> has
///   not succeeded` when the status is known, the status request's error
///   otherwise.
pub open spec fn output_requested<C: APIConnection, T>(
    old: Resource<C>,
    new: Resource<C>,
    url: Seq<char>,
    name: Seq<char>,
    r: Result<T, Error>,
    delivered: bool,
) -> bool {
    let h0 = old.conn.history();
    let h = new.conn.history();
    let polls: int = if old.finished { 0 } else { 1 };
    let passed = success_seen(old, new);
    &&& same_job(old, new)
    &&& h.len() == h0.len() + polls + if passed { 1int } else { 0int }
    &&& h.subrange(0, h0.len() as int) == h0
    &&& (old.finished ==> same_state(old, new))
    &&& (!old.finished ==> is_plain_get(h[h0.len() as int].request, old.status_url@) && refreshed(
        old,
        new,
        h[h0.len() as int],
    ))
    &&& if passed {
        is_plain_get(h.last().request, url) && delivered
    } else if old.finished || status_ok(h[h0.len() as int]) {
        r matches Err(e) && not_succeeded_error(e, name)
    } else {
        r matches Err(e) && status_error(h[h0.len() as int], old.status_url@, e)
    }
}

/// Whether `r` is the text of the response in `outcome`.
pub open spec fn text_delivered(outcome: Result<APIResponse, Error>, r: Result<String, Error>) -> bool {
    match outcome {
        Ok(resp) => match resp.body_text() {
            Some(t) => r matches Ok(s) && s@ == t,
            None => r matches Err(e) && e.kind is Decode,
        },
        Err(e0) => r == Err::<String, Error>(e0),
    }
}

/// Whether `r` is the file that the response in `outcome` holds.
pub open spec fn file_delivered(outcome: Result<APIResponse, Error>, r: Result<File, Error>) -> bool {
    match outcome {
        Ok(resp) => match resp.spec_body_file() {
            Some(f) => r matches Ok(g) && g@ == f,
            None => r matches Err(e) && e.kind is NotAFile,
        },
        Err(e0) => r == Err::<File, Error>(e0),
    }
}

} // verus!
