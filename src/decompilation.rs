//! Decompilations from the decompiler service.
use vstd::prelude::*;
use vstd::string::StringExecFns;

use crate::connection::APIConnection;
use crate::error::Error;
use crate::file::File;
use crate::analysis::opt_file_view;
use crate::file::FileView;
use crate::resource::job_url;
use crate::resource::lemma_no_poll;
use crate::resource::lemma_one_more_poll;
use crate::resource::only_status_polls;
use crate::resource::error_only_if_failed;
use crate::resource::file_delivered;
use crate::resource::output_requested;
use crate::resource::status_error;
use crate::resource::text_delivered;
use crate::resource::wait_failed;
use crate::resource::polled;
use crate::resource::same_job;
use crate::resource::same_state;
use crate::resource::Resource;
use crate::response::APIResponse;
use crate::text::opt_str_view;
use crate::text::opt_view;

verus! {

/// Arguments for a decompilation.
pub struct DecompilationArguments {
    input_file: Option<File>,
}

impl DecompilationArguments {
    /// The file to decompile, if set.
    pub closed spec fn spec_input_file(&self) -> Option<FileView> {
        opt_file_view(self.input_file)
    }

    /// Returns arguments with nothing set.
    pub fn new() -> (r: DecompilationArguments)
        ensures
            r.spec_input_file() is None,
    {
        DecompilationArguments { input_file: None }
    }

    /// Sets the file to decompile when used as a builder. It is required.
    pub fn with_input_file(self, input_file: File) -> (r: DecompilationArguments)
        ensures
            r.spec_input_file() == Some(input_file@),
    {
        let mut a = self;
        a.set_input_file(input_file);
        a
    }

    /// Sets the file to decompile. It is required.
    pub fn set_input_file(&mut self, input_file: File)
        ensures
            final(self).spec_input_file() == Some(input_file@),
    {
        self.input_file = Some(input_file);
    }

    /// Returns the file to decompile.
    pub fn input_file(&self) -> (r: Option<&File>)
        ensures
            match r {
                Some(f) => self.spec_input_file() == Some(f@),
                None => self.spec_input_file() is None,
            },
    {
        match &self.input_file {
            Some(f) => Some(f),
            None => None,
        }
    }

    /// Takes the file to decompile, leaving none set.
    pub fn take_input_file(&mut self) -> (r: Option<File>)
        ensures
            opt_file_view(r) == old(self).spec_input_file(),
            final(self).spec_input_file() is None,
    {
        self.input_file.take()
    }
}

/// The URL of the decompiled code of a job.
pub open spec fn hll_output_url<C: APIConnection>(r: Resource<C>) -> Seq<char> {
    r.base_url@ + "/outputs/hll"@
}

/// Decompilation from the decompiler service.
pub struct Decompilation<C: APIConnection> {
    resource: Resource<C>,
}

impl<C: APIConnection> Decompilation<C> {
    /// The job behind this decompilation.
    pub closed spec fn res(&self) -> Resource<C> {
        self.resource
    }

    /// Creates access to the decompilation with the given ID.
    pub fn new(id: &str, conn: C) -> (r: Decompilation<C>)
        ensures
            r.res().id@ == id@,
            r.res().conn == conn,
            r.res().base_url@ == job_url(conn.spec_api_url(), "decompiler"@, "decompilations"@, id@),
            r.res().status_url@ == r.res().base_url@ + "/status"@,
            !r.res().finished && !r.res().succeeded && !r.res().failed && r.res().error is None,
    {
        Decompilation { resource: Resource::new("decompiler", "decompilations", id, conn) }
    }

    /// Returns the ID of the decompilation. Sends no request.
    pub fn id(&self) -> (r: &String)
        ensures
            r == self.res().id,
    {
        &self.resource.id
    }

    /// Returns the connection the decompilation uses.
    pub fn connection(&self) -> (r: &C)
        ensures
            r == self.res().conn,
    {
        &self.resource.conn
    }

    /// Returns the connection the decompilation uses, for changes.
    pub fn connection_mut(&mut self) -> (r: &mut C)
        ensures
            *r == old(self).res().conn,
    {
        &mut self.resource.conn
    }

    /// Has the decompilation finished, as far as is known? Sends no request: `true`
    /// is final, `false` may be outdated.
    pub fn finished(&self) -> (r: bool)
        ensures
            r == self.res().finished,
    {
        self.resource.finished
    }

    /// Has the decompilation finished? Sends a status request only when it was not
    /// known to have finished.
    pub fn has_finished(&mut self) -> (r: Result<bool, Error>)
        ensures
            old(self).res().finished ==> final(self).res() == old(self).res() && r == Ok::<bool, Error>(true),
            !old(self).res().finished ==> polled(old(self).res(), final(self).res(), r is Ok),
            r matches Ok(b) ==> b == final(self).res().finished,
            r matches Err(e) ==> status_error(final(self).res().conn.history().last(), old(self).res().status_url@, e),
    {
        self.resource.has_finished()
    }

    /// Has the decompilation succeeded, as far as is known? Sends no request.
    pub fn succeeded(&self) -> (r: bool)
        ensures
            r == self.res().succeeded,
    {
        self.resource.succeeded
    }

    /// Has the decompilation succeeded? Sends a status request only when it was
    /// not known to have finished.
    pub fn has_succeeded(&mut self) -> (r: Result<bool, Error>)
        ensures
            old(self).res().finished ==> final(self).res() == old(self).res() && r is Ok,
            !old(self).res().finished ==> polled(old(self).res(), final(self).res(), r is Ok),
            r matches Ok(b) ==> b == final(self).res().succeeded,
            r matches Err(e) ==> status_error(final(self).res().conn.history().last(), old(self).res().status_url@, e),
    {
        self.resource.has_succeeded()
    }

    /// Has the decompilation failed, as far as is known? Sends no request.
    pub fn failed(&self) -> (r: bool)
        ensures
            r == self.res().failed,
    {
        self.resource.failed
    }

    /// Has the decompilation failed? Sends a status request only when it was not
    /// known to have finished.
    pub fn has_failed(&mut self) -> (r: Result<bool, Error>)
        ensures
            old(self).res().finished ==> final(self).res() == old(self).res() && r is Ok,
            !old(self).res().finished ==> polled(old(self).res(), final(self).res(), r is Ok),
            r matches Ok(b) ==> b == final(self).res().failed,
            r matches Err(e) ==> status_error(final(self).res().conn.history().last(), old(self).res().status_url@, e),
    {
        self.resource.has_failed()
    }

    /// Returns the error message of a failed decompilation. Sends no request.
    pub fn error(&self) -> (r: Option<&str>)
        ensures
            opt_str_view(r) == if self.res().failed { opt_view(self.res().error) } else { None },
    {
        self.resource.error()
    }

    /// Returns the error message of the decompilation if it failed. Sends a status
    /// request only when the decompilation was not known to have finished.
    pub fn get_error(&mut self) -> (r: Result<Option<&str>, Error>)
        ensures
            old(self).res().finished ==> final(self).res() == old(self).res() && r is Ok,
            !old(self).res().finished ==> polled(old(self).res(), final(self).res(), r is Ok),
            r matches Ok(m) ==> opt_str_view(m) == if final(self).res().failed {
                opt_view(final(self).res().error)
            } else {
                None
            },
            r matches Err(e) ==> status_error(final(self).res().conn.history().last(), old(self).res().status_url@, e),
    {
        self.resource.get_error()
    }

    /// Waits until the decompilation has finished: while it is not known to have
    /// finished, pauses 500 ms, then refreshes its status.
    ///
    /// The service offers no push notifications, hence the polling. An
    /// decompilation already known to have finished sends no request. A status
    /// request that fails ends the wait at once, without retry. The wait
    /// gives up only after `u64::MAX` polls.
    pub fn wait_until_finished(&mut self) -> (r: Result<(), Error>)
        ensures
            old(self).res().finished ==> final(self).res() == old(self).res() && r is Ok,
            !old(self).res().finished ==> final(self).res().conn.history().len() > old(self).res().conn.history().len(),
            r is Ok ==> final(self).res().finished,
            r matches Err(e) ==> wait_failed(old(self).res(), final(self).res(), e, "failed to update decompilation status"@),
            same_job(old(self).res(), final(self).res()),
            only_status_polls(
                old(self).res().conn.history(),
                final(self).res().conn.history(),
                old(self).res().status_url@,
            ),
            error_only_if_failed(old(self).res()) ==> error_only_if_failed(final(self).res()),
    {
        let ghost start = self.resource;
        proof {
            lemma_no_poll(start.conn.history(), start.status_url@);
        }
        let mut polls: u64 = 0;
        while !self.resource.finished
            invariant
                start == old(self).resource,
                same_job(start, self.resource),
                only_status_polls(start.conn.history(), self.resource.conn.history(), start.status_url@),
                start.finished ==> self.resource == start,
                polls == 0 ==> self.resource == start,
                self.resource.conn.history().len() == start.conn.history().len() + polls,
                error_only_if_failed(start) ==> error_only_if_failed(self.resource),
            decreases u64::MAX - polls,
        {
            if polls == u64::MAX {
                return Err(Error::msg("gave up waiting for the decompilation to finish"));
            }
            self.resource.wait_for(500);
            let ghost before = self.resource;
            let updated = self.resource.update_status();
            proof {
                lemma_one_more_poll(
                    start.conn.history(),
                    before.conn.history(),
                    self.resource.conn.history(),
                    start.status_url@,
                );
            }
            if let Err(e) = updated {
                return Err(e.chain_msg("failed to update decompilation status"));
            }
            polls = polls + 1;
        }
        Ok(())
    }

    fn get_output_response(&mut self) -> (r: Result<APIResponse, Error>)
        ensures
            output_requested(
                old(self).res(),
                final(self).res(),
                hll_output_url(old(self).res()),
                "decompilation"@,
                r,
                r == final(self).res().conn.history().last().outcome,
            ),
            error_only_if_failed(old(self).res()) ==> error_only_if_failed(final(self).res()),
    {
        let ghost start = self.resource;
        let ghost n = start.conn.history().len() as int;
        let checked = self.resource.ensure_has_succeeded("decompilation");
        let ghost mid = self.resource;
        proof {
            if !start.finished {
                assert(mid.conn.history()[n] == mid.conn.history().last());
                assert(mid.conn.history().subrange(0, n) =~= start.conn.history());
            } else {
                assert(mid.conn.history().subrange(0, n) =~= start.conn.history());
            }
        }
        if let Err(e) = checked {
            return Err(e);
        }
        let mut output_url = self.resource.base_url.clone();
        output_url.append("/outputs/hll");
        let r = self.resource.conn.send_get_request_without_args(output_url.as_str());
        proof {
            let h = self.resource.conn.history();
            assert(h.drop_last() == mid.conn.history());
            assert(h.subrange(0, n) =~= mid.conn.history().subrange(0, n));
            if !start.finished {
                assert(h[n] == mid.conn.history()[n]);
            }
        }
        r
    }

    /// Returns the decompiled code in the target high-level language, as text.
    ///
    /// The output is requested only once the decompilation is known to have
    /// succeeded; otherwise the result is `decompilation has not succeeded`.
    pub fn get_output_hll_code(&mut self) -> (r: Result<String, Error>)
        ensures
            output_requested(
                old(self).res(),
                final(self).res(),
                hll_output_url(old(self).res()),
                "decompilation"@,
                r,
                text_delivered(final(self).res().conn.history().last().outcome, r),
            ),
            error_only_if_failed(old(self).res()) ==> error_only_if_failed(final(self).res()),
    {
        match self.get_output_response() {
            Ok(response) => response.body_as_string(),
            Err(e) => Err(e),
        }
    }

    /// Returns the decompiled code in the target high-level language as a
    /// file, named by the response.
    ///
    /// The output is requested only once the decompilation is known to have
    /// succeeded; otherwise the result is `decompilation has not succeeded`.
    pub fn get_output_hll_code_as_file(&mut self) -> (r: Result<File, Error>)
        ensures
            output_requested(
                old(self).res(),
                final(self).res(),
                hll_output_url(old(self).res()),
                "decompilation"@,
                r,
                file_delivered(final(self).res().conn.history().last().outcome, r),
            ),
            error_only_if_failed(old(self).res()) ==> error_only_if_failed(final(self).res()),
    {
        match self.get_output_response() {
            Ok(response) => response.body_as_file(),
            Err(e) => Err(e),
        }
    }
}

} // verus!
