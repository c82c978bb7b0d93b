//! The file-analyzing service (fileinfo).
use vstd::prelude::*;
use vstd::string::StringExecFns;

use crate::analysis::Analysis;
use crate::analysis::AnalysisArguments;
use crate::arguments::APIArguments;
use crate::connection::APIConnection;
use crate::connection::APIConnectionFactory;
use crate::connection::Exchange;
use crate::connection::HttpMethod;
use crate::connection::ResponseVerifyingAPIConnection;
use crate::connection::ResponseVerifyingAPIConnectionFactory;
use crate::error::Error;
use crate::error::ErrorKind;
use crate::resource::job_url;
use crate::submission::submission_result;
use crate::submission::submitted_id;

verus! {

/// Whether `a` holds exactly the request arguments of an analysis with the
/// arguments `args`: `output_format` and `verbose` (`1` or `0`) only when set,
/// and the input file as `input`.
pub open spec fn analysis_request(a: APIArguments, args: AnalysisArguments) -> bool {
    &&& a.arg_value("output_format"@) == args.spec_output_format()
    &&& a.arg_value("verbose"@) == match args.spec_verbose() {
        Some(b) => Some(if b { "1"@ } else { "0"@ }),
        None => None,
    }
    &&& forall|n: Seq<char>| n != "output_format"@ && n != "verbose"@ ==> #[trigger] a.arg_value(n) is None
    &&& a.file_value("input"@) == args.spec_input_file()
    &&& forall|n: Seq<char>| n != "input"@ ==> #[trigger] a.file_value(n) is None
}

/// The URL to which analyses are submitted.
pub open spec fn analyses_url(api_url: Seq<char>) -> Seq<char> {
    api_url + "/fileinfo/analyses"@
}

/// Whether `r` is the result of a analysis submitted with the arguments
/// `args` to the API at `api_url` through the POST exchange `x` (see
/// [`submission_result`]).
pub open spec fn analysis_submission<C: APIConnection>(
    x: Exchange,
    api_url: Seq<char>,
    args: AnalysisArguments,
    r: Result<Analysis<C>, Error>,
) -> bool {
    &&& x.request.method == HttpMethod::Post
    &&& x.request.url == analyses_url(api_url)
    &&& analysis_request(x.request.args, args)
    &&& submission_result(x.outcome, analyses_url(api_url), "failed to start an analysis"@, r, r->Ok_0.res().id@)
}

/// Builds the request arguments of an analysis; fails when no input file is set.
pub fn create_analysis_args(args: AnalysisArguments) -> (r: Result<APIArguments, Error>)
    ensures
        r is Ok <==> args.spec_input_file() is Some,
        r matches Ok(a) ==> analysis_request(a, args),
        r matches Err(e) ==> e.kind is MissingInput && e.cause is None,
{
    let ghost original = args;
    let mut args = args;
    let mut api_args = APIArguments::new();
    let ghost a0 = api_args;
    assert(forall|n: Seq<char>| #[trigger] a0.arg_value(n) is None);
    assert(forall|n: Seq<char>| #[trigger] a0.file_value(n) is None);
    api_args.add_opt_string_arg("output_format", args.take_output_format());
    let ghost a1 = api_args;
    api_args.add_opt_bool_arg("verbose", args.verbose());
    let ghost a2 = api_args;
    proof {
        reveal_strlit("output_format");
        reveal_strlit("verbose");
        assert("output_format"@.len() == 13);
        assert("verbose"@.len() == 7);
        assert("output_format"@ != "verbose"@);
        assert(a1.arg_value("output_format"@) == original.spec_output_format());
    }
    assert forall|n: Seq<char>| n != "output_format"@ && n != "verbose"@ implies #[trigger] a2.arg_value(n) is None by {
        assert(a1.arg_value(n) == a0.arg_value(n));
        assert(a2.arg_value(n) == a1.arg_value(n));
    }
    assert(a2.spec_files() == a0.spec_files());
    match args.take_input_file() {
        Some(input_file) => {
            api_args.add_file("input", input_file);
            assert forall|n: Seq<char>| n != "input"@ implies #[trigger] api_args.file_value(n) is None by {
                assert(a2.file_value(n) == a0.file_value(n));
            }
            assert(api_args.spec_args() == a2.spec_args());
            assert forall|n: Seq<char>| n != "output_format"@ && n != "verbose"@ implies #[trigger] api_args.arg_value(n) is None by {
                assert(a2.arg_value(n) is None);
            }
            Ok(api_args)
        },
        None => Err(Error::from_kind(ErrorKind::MissingInput)),
    }
}

/// File-analyzing service.
///
/// Its connections turn every unsuccessful response into an error.
pub struct Fileinfo<F: APIConnectionFactory> {
    conn_factory: ResponseVerifyingAPIConnectionFactory<F>,
}

impl<F: APIConnectionFactory> Fileinfo<F> {
    /// The URL of the API.
    pub closed spec fn spec_api_url(&self) -> Seq<char> {
        self.conn_factory.spec_api_url()
    }

    /// Creates the service, with connections from the given factory.
    pub fn new(conn_factory: F) -> (r: Fileinfo<F>)
        ensures
            r.spec_api_url() == conn_factory.spec_api_url(),
    {
        Fileinfo { conn_factory: ResponseVerifyingAPIConnectionFactory::new(conn_factory) }
    }

    /// Starts an analysis with the given arguments: one POST request to
    /// `<api>/fileinfo/analyses`, never retried.
    ///
    /// Without an input file, it fails before any request is sent.
    pub fn start_analysis(&self, args: AnalysisArguments) -> (r: Result<
        Analysis<ResponseVerifyingAPIConnection<F::Connection>>,
        Error,
    >)
        ensures
            args.spec_input_file() is None ==> (r matches Err(e) && e.kind is MissingInput),
            r matches Err(e) && e.kind is MissingInput ==> args.spec_input_file() is None,
            args.spec_input_file() is Some ==> exists|x: Exchange|
                #[trigger] analysis_submission(x, self.spec_api_url(), args, r),
            r matches Ok(an) ==> {
                let h = an.res().conn.history();
                &&& h.len() == 1
                &&& h[0].request.method == HttpMethod::Post
                &&& h[0].request.url == analyses_url(self.spec_api_url())
                &&& analysis_request(h[0].request.args, args)
                &&& h[0].outcome matches Ok(resp) && resp.json_string("id"@) == Some(an.res().id@)
                &&& an.res().base_url@ == job_url(self.spec_api_url(), "fileinfo"@, "analyses"@, an.res().id@)
                &&& !an.res().finished && !an.res().succeeded && !an.res().failed && an.res().error is None
            },
            r matches Err(e) ==> (e.kind matches ErrorKind::InvalidResponse(u) ==> u@ == analyses_url(
                self.spec_api_url(),
            )),
    {
        let api_args = match create_analysis_args(args) {
            Ok(api_args) => api_args,
            Err(e) => {
                return Err(e);
            },
        };
        let mut conn = self.conn_factory.new_connection();
        let mut url = conn.api_url().to_owned();
        url.append("/fileinfo/analyses");
        let outcome = conn.send_post_request(url.as_str(), api_args);
        let ghost x = conn.history().last();
        let response = match outcome {
            Ok(response) => response,
            Err(e) => {
                let r = Err(e.chain_msg("failed to start an analysis"));
                assert(analysis_submission(x, self.spec_api_url(), args, r));
                return r;
            },
        };
        match submitted_id(&response, url.as_str()) {
            Ok(id) => {
                let r = Ok(Analysis::new(id.as_str(), conn));
                assert(analysis_submission(x, self.spec_api_url(), args, r));
                r
            },
            Err(e) => {
                let r = Err(e);
                assert(analysis_submission(x, self.spec_api_url(), args, r));
                r
            },
        }
    }
}

} // verus!
