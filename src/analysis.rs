//! Analyses from the fileinfo service.
use vstd::prelude::*;
use vstd::string::StringExecFns;

use crate::connection::APIConnection;
use crate::error::Error;
use crate::file::File;
use crate::file::FileView;
use crate::resource::job_url;
use crate::resource::lemma_no_poll;
use crate::resource::lemma_one_more_poll;
use crate::resource::only_status_polls;
use crate::resource::error_only_if_failed;
use crate::resource::file_delivered;
use crate::resource::output_requested;
use crate::resource::status_error;
use crate::resource::text_delivered;
use crate::resource::wait_failed;
use crate::resource::polled;
use crate::resource::same_job;
use crate::resource::same_state;
use crate::resource::Resource;
use crate::response::APIResponse;
use crate::text::opt_str_view;
use crate::text::opt_view;

verus! {

/// Arguments for a file analysis.
pub struct AnalysisArguments {
    output_format: Option<String>,
    verbose: Option<bool>,
    input_file: Option<File>,
}

/// The view of an optional file.
pub open spec fn opt_file_view(f: Option<File>) -> Option<FileView> {
    match f {
        Some(f) => Some(f@),
        None => None,
    }
}

impl AnalysisArguments {
    /// The format of the output, if set.
    pub closed spec fn spec_output_format(&self) -> Option<Seq<char>> {
        opt_view(self.output_format)
    }

    /// Whether all available information is asked for, if set.
    pub closed spec fn spec_verbose(&self) -> Option<bool> {
        self.verbose
    }

    /// The file to analyze, if set.
    pub closed spec fn spec_input_file(&self) -> Option<FileView> {
        opt_file_view(self.input_file)
    }

    /// Returns arguments with nothing set.
    pub fn new() -> (r: AnalysisArguments)
        ensures
            r.spec_output_format() is None,
            r.spec_verbose() is None,
            r.spec_input_file() is None,
    {
        AnalysisArguments { output_format: None, verbose: None, input_file: None }
    }

    /// Sets the format of the output (`plain` or `json`) when used as a builder.
    pub fn with_output_format(self, output_format: &str) -> (r: AnalysisArguments)
        ensures
            r.spec_output_format() == Some(output_format@),
            r.spec_verbose() == self.spec_verbose(),
            r.spec_input_file() == self.spec_input_file(),
    {
        let mut a = self;
        a.set_output_format(output_format);
        a
    }

    /// Sets whether all available information is asked for, when used as a builder.
    pub fn with_verbose(self, verbose: bool) -> (r: AnalysisArguments)
        ensures
            r.spec_output_format() == self.spec_output_format(),
            r.spec_verbose() == Some(verbose),
            r.spec_input_file() == self.spec_input_file(),
    {
        let mut a = self;
        a.set_verbose(verbose);
        a
    }

    /// Sets the file to analyze when used as a builder. It is required.
    pub fn with_input_file(self, input_file: File) -> (r: AnalysisArguments)
        ensures
            r.spec_output_format() == self.spec_output_format(),
            r.spec_verbose() == self.spec_verbose(),
            r.spec_input_file() == Some(input_file@),
    {
        let mut a = self;
        a.set_input_file(input_file);
        a
    }

    /// Sets the format of the output (`plain` or `json`).
    pub fn set_output_format(&mut self, output_format: &str)
        ensures
            final(self).spec_output_format() == Some(output_format@),
            final(self).spec_verbose() == old(self).spec_verbose(),
            final(self).spec_input_file() == old(self).spec_input_file(),
    {
        self.output_format = Some(output_format.to_owned());
    }

    /// Sets whether all available information is asked for.
    pub fn set_verbose(&mut self, verbose: bool)
        ensures
            final(self).spec_output_format() == old(self).spec_output_format(),
            final(self).spec_verbose() == Some(verbose),
            final(self).spec_input_file() == old(self).spec_input_file(),
    {
        self.verbose = Some(verbose);
    }

    /// Sets the file to analyze. It is required.
    pub fn set_input_file(&mut self, input_file: File)
        ensures
            final(self).spec_output_format() == old(self).spec_output_format(),
            final(self).spec_verbose() == old(self).spec_verbose(),
            final(self).spec_input_file() == Some(input_file@),
    {
        self.input_file = Some(input_file);
    }

    /// Returns the format of the output.
    pub fn output_format(&self) -> (r: Option<&String>)
        ensures
            match r {
                Some(s) => self.spec_output_format() == Some(s@),
                None => self.spec_output_format() is None,
            },
    {
        match &self.output_format {
            Some(s) => Some(s),
            None => None,
        }
    }

    /// Returns whether all available information is asked for.
    pub fn verbose(&self) -> (r: Option<bool>)
        ensures
            r == self.spec_verbose(),
    {
        self.verbose
    }

    /// Returns the file to analyze.
    pub fn input_file(&self) -> (r: Option<&File>)
        ensures
            match r {
                Some(f) => self.spec_input_file() == Some(f@),
                None => self.spec_input_file() is None,
            },
    {
        match &self.input_file {
            Some(f) => Some(f),
            None => None,
        }
    }

    /// Takes the format of the output, leaving none set.
    pub fn take_output_format(&mut self) -> (r: Option<String>)
        ensures
            opt_view(r) == old(self).spec_output_format(),
            final(self).spec_output_format() is None,
            final(self).spec_verbose() == old(self).spec_verbose(),
            final(self).spec_input_file() == old(self).spec_input_file(),
    {
        self.output_format.take()
    }

    /// Takes the file to analyze, leaving none set.
    pub fn take_input_file(&mut self) -> (r: Option<File>)
        ensures
            opt_file_view(r) == old(self).spec_input_file(),
            final(self).spec_input_file() is None,
            final(self).spec_output_format() == old(self).spec_output_format(),
            final(self).spec_verbose() == old(self).spec_verbose(),
    {
        self.input_file.take()
    }
}

/// The URL of the output of a job.
pub open spec fn output_url<C: APIConnection>(r: Resource<C>) -> Seq<char> {
    r.base_url@ + "/output"@
}

/// Analysis from the fileinfo service.
pub struct Analysis<C: APIConnection> {
    resource: Resource<C>,
}

impl<C: APIConnection> Analysis<C> {
    /// The job behind this analysis.
    pub closed spec fn res(&self) -> Resource<C> {
        self.resource
    }

    /// Creates access to the analysis with the given ID.
    pub fn new(id: &str, conn: C) -> (r: Analysis<C>)
        ensures
            r.res().id@ == id@,
            r.res().conn == conn,
            r.res().base_url@ == job_url(conn.spec_api_url(), "fileinfo"@, "analyses"@, id@),
            r.res().status_url@ == r.res().base_url@ + "/status"@,
            !r.res().finished && !r.res().succeeded && !r.res().failed && r.res().error is None,
    {
        Analysis { resource: Resource::new("fileinfo", "analyses", id, conn) }
    }

    /// Returns the ID of the analysis. Sends no request.
    pub fn id(&self) -> (r: &String)
        ensures
            r == self.res().id,
    {
        &self.resource.id
    }

    /// Returns the connection the analysis uses.
    pub fn connection(&self) -> (r: &C)
        ensures
            r == self.res().conn,
    {
        &self.resource.conn
    }

    /// Returns the connection the analysis uses, for changes.
    pub fn connection_mut(&mut self) -> (r: &mut C)
        ensures
            *r == old(self).res().conn,
    {
        &mut self.resource.conn
    }

    /// Has the analysis finished, as far as is known? Sends no request: `true`
    /// is final, `false` may be outdated.
    pub fn finished(&self) -> (r: bool)
        ensures
            r == self.res().finished,
    {
        self.resource.finished
    }

    /// Has the analysis finished? Sends a status request only when it was not
    /// known to have finished.
    pub fn has_finished(&mut self) -> (r: Result<bool, Error>)
        ensures
            old(self).res().finished ==> final(self).res() == old(self).res() && r == Ok::<bool, Error>(true),
            !old(self).res().finished ==> polled(old(self).res(), final(self).res(), r is Ok),
            r matches Ok(b) ==> b == final(self).res().finished,
            r matches Err(e) ==> status_error(final(self).res().conn.history().last(), old(self).res().status_url@, e),
    {
        self.resource.has_finished()
    }

    /// Has the analysis succeeded, as far as is known? Sends no request.
    pub fn succeeded(&self) -> (r: bool)
        ensures
            r == self.res().succeeded,
    {
        self.resource.succeeded
    }

    /// Has the analysis succeeded? Sends a status request only when it was
    /// not known to have finished.
    pub fn has_succeeded(&mut self) -> (r: Result<bool, Error>)
        ensures
            old(self).res().finished ==> final(self).res() == old(self).res() && r is Ok,
            !old(self).res().finished ==> polled(old(self).res(), final(self).res(), r is Ok),
            r matches Ok(b) ==> b == final(self).res().succeeded,
            r matches Err(e) ==> status_error(final(self).res().conn.history().last(), old(self).res().status_url@, e),
    {
        self.resource.has_succeeded()
    }

    /// Has the analysis failed, as far as is known? Sends no request.
    pub fn failed(&self) -> (r: bool)
        ensures
            r == self.res().failed,
    {
        self.resource.failed
    }

    /// Has the analysis failed? Sends a status request only when it was not
    /// known to have finished.
    pub fn has_failed(&mut self) -> (r: Result<bool, Error>)
        ensures
            old(self).res().finished ==> final(self).res() == old(self).res() && r is Ok,
            !old(self).res().finished ==> polled(old(self).res(), final(self).res(), r is Ok),
            r matches Ok(b) ==> b == final(self).res().failed,
            r matches Err(e) ==> status_error(final(self).res().conn.history().last(), old(self).res().status_url@, e),
    {
        self.resource.has_failed()
    }

    /// Returns the error message of a failed analysis. Sends no request.
    pub fn error(&self) -> (r: Option<&str>)
        ensures
            opt_str_view(r) == if self.res().failed { opt_view(self.res().error) } else { None },
    {
        self.resource.error()
    }

    /// Returns the error message of the analysis if it failed. Sends a status
    /// request only when the analysis was not known to have finished.
    pub fn get_error(&mut self) -> (r: Result<Option<&str>, Error>)
        ensures
            old(self).res().finished ==> final(self).res() == old(self).res() && r is Ok,
            !old(self).res().finished ==> polled(old(self).res(), final(self).res(), r is Ok),
            r matches Ok(m) ==> opt_str_view(m) == if final(self).res().failed {
                opt_view(final(self).res().error)
            } else {
                None
            },
            r matches Err(e) ==> status_error(final(self).res().conn.history().last(), old(self).res().status_url@, e),
    {
        self.resource.get_error()
    }

    /// Waits until the analysis has finished: while it is not known to have
    /// finished, pauses 500 ms, then refreshes its status.
    ///
    /// The service offers no push notifications, hence the polling. An
    /// analysis already known to have finished sends no request. A status
    /// request that fails ends the wait at once, without retry. The wait
    /// gives up only after `u64::MAX` polls.
    pub fn wait_until_finished(&mut self) -> (r: Result<(), Error>)
        ensures
            old(self).res().finished ==> final(self).res() == old(self).res() && r is Ok,
            !old(self).res().finished ==> final(self).res().conn.history().len() > old(self).res().conn.history().len(),
            r is Ok ==> final(self).res().finished,
            r matches Err(e) ==> wait_failed(old(self).res(), final(self).res(), e, "failed to update analysis status"@),
            same_job(old(self).res(), final(self).res()),
            only_status_polls(
                old(self).res().conn.history(),
                final(self).res().conn.history(),
                old(self).res().status_url@,
            ),
            error_only_if_failed(old(self).res()) ==> error_only_if_failed(final(self).res()),
    {
        let ghost start = self.resource;
        proof {
            lemma_no_poll(start.conn.history(), start.status_url@);
        }
        let mut polls: u64 = 0;
        while !self.resource.finished
            invariant
                start == old(self).resource,
                same_job(start, self.resource),
                only_status_polls(start.conn.history(), self.resource.conn.history(), start.status_url@),
                start.finished ==> self.resource == start,
                polls == 0 ==> self.resource == start,
                self.resource.conn.history().len() == start.conn.history().len() + polls,
                error_only_if_failed(start) ==> error_only_if_failed(self.resource),
            decreases u64::MAX - polls,
        {
            if polls == u64::MAX {
                return Err(Error::msg("gave up waiting for the analysis to finish"));
            }
            self.resource.wait_for(500);
            let ghost before = self.resource;
            let updated = self.resource.update_status();
            proof {
                lemma_one_more_poll(
                    start.conn.history(),
                    before.conn.history(),
                    self.resource.conn.history(),
                    start.status_url@,
                );
            }
            if let Err(e) = updated {
                return Err(e.chain_msg("failed to update analysis status"));
            }
            polls = polls + 1;
        }
        Ok(())
    }

    fn get_output_response(&mut self) -> (r: Result<APIResponse, Error>)
        ensures
            output_requested(
                old(self).res(),
                final(self).res(),
                output_url(old(self).res()),
                "analysis"@,
                r,
                r == final(self).res().conn.history().last().outcome,
            ),
            error_only_if_failed(old(self).res()) ==> error_only_if_failed(final(self).res()),
    {
        let ghost start = self.resource;
        let ghost n = start.conn.history().len() as int;
        let checked = self.resource.ensure_has_succeeded("analysis");
        let ghost mid = self.resource;
        proof {
            if !start.finished {
                assert(mid.conn.history()[n] == mid.conn.history().last());
                assert(mid.conn.history().subrange(0, n) =~= start.conn.history());
            } else {
                assert(mid.conn.history().subrange(0, n) =~= start.conn.history());
            }
        }
        if let Err(e) = checked {
            return Err(e);
        }
        let mut output_url = self.resource.base_url.clone();
        output_url.append("/output");
        let r = self.resource.conn.send_get_request_without_args(output_url.as_str());
        proof {
            let h = self.resource.conn.history();
            assert(h.drop_last() == mid.conn.history());
            assert(h.subrange(0, n) =~= mid.conn.history().subrange(0, n));
            if !start.finished {
                assert(h[n] == mid.conn.history()[n]);
            }
        }
        r
    }

    /// Returns the output of the analysis, as text.
    ///
    /// The output is requested only once the analysis is known to have
    /// succeeded; otherwise the result is `analysis has not succeeded`.
    pub fn get_output(&mut self) -> (r: Result<String, Error>)
        ensures
            output_requested(
                old(self).res(),
                final(self).res(),
                output_url(old(self).res()),
                "analysis"@,
                r,
                text_delivered(final(self).res().conn.history().last().outcome, r),
            ),
            error_only_if_failed(old(self).res()) ==> error_only_if_failed(final(self).res()),
    {
        match self.get_output_response() {
            Ok(response) => response.body_as_string(),
            Err(e) => Err(e),
        }
    }

    /// Returns the output of the analysis as a file, named by the response.
    ///
    /// The output is requested only once the analysis is known to have
    /// succeeded; otherwise the result is `analysis has not succeeded`.
    pub fn get_output_as_file(&mut self) -> (r: Result<File, Error>)
        ensures
            output_requested(
                old(self).res(),
                final(self).res(),
                output_url(old(self).res()),
                "analysis"@,
                r,
                file_delivered(final(self).res().conn.history().last().outcome, r),
            ),
            error_only_if_failed(old(self).res()) ==> error_only_if_failed(final(self).res()),
    {
        match self.get_output_response() {
            Ok(response) => response.body_as_file(),
            Err(e) => Err(e),
        }
    }
}

} // verus!
