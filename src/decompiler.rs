//! The file-decompiling service (decompiler).
use vstd::prelude::*;
use vstd::string::StringExecFns;

use crate::arguments::APIArguments;
use crate::connection::APIConnection;
use crate::connection::APIConnectionFactory;
use crate::connection::Exchange;
use crate::connection::HttpMethod;
use crate::decompilation::Decompilation;
use crate::decompilation::DecompilationArguments;
use crate::error::Error;
use crate::error::ErrorKind;
use crate::resource::job_url;
use crate::submission::submission_result;
use crate::submission::submitted_id;

verus! {

/// Whether `a` holds exactly the request arguments of a decompilation of the
/// file `input`: `mode=bin`, and the file as `input`.
pub open spec fn decompilation_request(a: APIArguments, args: DecompilationArguments) -> bool {
    &&& a.arg_value("mode"@) == Some("bin"@)
    &&& forall|n: Seq<char>| n != "mode"@ ==> #[trigger] a.arg_value(n) is None
    &&& a.file_value("input"@) == args.spec_input_file()
    &&& forall|n: Seq<char>| n != "input"@ ==> #[trigger] a.file_value(n) is None
}

/// The URL to which decompilations are submitted.
pub open spec fn decompilations_url(api_url: Seq<char>) -> Seq<char> {
    api_url + "/decompiler/decompilations"@
}

/// Whether `r` is the result of a decompilation submitted with the arguments
/// `args` to the API at `api_url` through the POST exchange `x` (see
/// [`submission_result`]).
pub open spec fn decompilation_submission<C: APIConnection>(
    x: Exchange,
    api_url: Seq<char>,
    args: DecompilationArguments,
    r: Result<Decompilation<C>, Error>,
) -> bool {
    &&& x.request.method == HttpMethod::Post
    &&& x.request.url == decompilations_url(api_url)
    &&& decompilation_request(x.request.args, args)
    &&& submission_result(x.outcome, decompilations_url(api_url), "failed to start a decompilation"@, r, r->Ok_0.res().id@)
}

/// Builds the request arguments of a decompilation; fails when no input file is set.
pub fn create_decompilation_args(args: &DecompilationArguments) -> (r: Result<APIArguments, Error>)
    ensures
        r is Ok <==> args.spec_input_file() is Some,
        r matches Ok(a) ==> decompilation_request(a, *args),
        r matches Err(e) ==> e.kind is MissingInput && e.cause is None,
{
    let mut api_args = APIArguments::new();
    let ghost a0 = api_args;
    assert(forall|n: Seq<char>| #[trigger] a0.arg_value(n) is None);
    assert(forall|n: Seq<char>| #[trigger] a0.file_value(n) is None);
    api_args.add_string_arg("mode", "bin");
    let ghost a1 = api_args;
    match args.input_file() {
        Some(input_file) => {
            api_args.add_file("input", input_file.duplicate());
            assert forall|n: Seq<char>| n != "mode"@ implies #[trigger] api_args.arg_value(n) is None by {
                assert(a1.arg_value(n) == a0.arg_value(n));
            }
            assert forall|n: Seq<char>| n != "input"@ implies #[trigger] api_args.file_value(n) is None by {
                assert(a1.file_value(n) == a0.file_value(n));
            }
            Ok(api_args)
        },
        None => Err(Error::from_kind(ErrorKind::MissingInput)),
    }
}

/// File-decompiling service.
pub struct Decompiler<F: APIConnectionFactory> {
    conn_factory: F,
}

impl<F: APIConnectionFactory> Decompiler<F> {
    /// The URL of the API.
    pub closed spec fn spec_api_url(&self) -> Seq<char> {
        self.conn_factory.spec_api_url()
    }

    /// Creates the service, with connections from the given factory.
    pub fn new(conn_factory: F) -> (r: Decompiler<F>)
        ensures
            r.spec_api_url() == conn_factory.spec_api_url(),
    {
        Decompiler { conn_factory }
    }

    /// Starts a decompilation with the given arguments: one POST request to
    /// `<api>/decompiler/decompilations`, never retried.
    ///
    /// Without an input file, it fails before any request is sent.
    pub fn start_decompilation(&self, args: &DecompilationArguments) -> (r: Result<
        Decompilation<F::Connection>,
        Error,
    >)
        ensures
            args.spec_input_file() is None ==> (r matches Err(e) && e.kind is MissingInput),
            r matches Err(e) && e.kind is MissingInput ==> args.spec_input_file() is None,
            args.spec_input_file() is Some ==> exists|x: Exchange|
                #[trigger] decompilation_submission(x, self.spec_api_url(), *args, r),
            r matches Ok(d) ==> {
                let h = d.res().conn.history();
                &&& h.len() == 1
                &&& h[0].request.method == HttpMethod::Post
                &&& h[0].request.url == decompilations_url(self.spec_api_url())
                &&& decompilation_request(h[0].request.args, *args)
                &&& h[0].outcome matches Ok(resp) && resp.json_string("id"@) == Some(d.res().id@)
                &&& d.res().base_url@ == job_url(self.spec_api_url(), "decompiler"@, "decompilations"@, d.res().id@)
                &&& !d.res().finished && !d.res().succeeded && !d.res().failed && d.res().error is None
            },
            r matches Err(e) ==> (e.kind matches ErrorKind::InvalidResponse(u) ==> u@ == decompilations_url(
                self.spec_api_url(),
            )),
    {
        let api_args = match create_decompilation_args(args) {
            Ok(api_args) => api_args,
            Err(e) => {
                return Err(e);
            },
        };
        let mut conn = self.conn_factory.new_connection();
        let mut url = conn.api_url().to_owned();
        url.append("/decompiler/decompilations");
        let outcome = conn.send_post_request(url.as_str(), api_args);
        let ghost x = conn.history().last();
        let response = match outcome {
            Ok(response) => response,
            Err(e) => {
                let r = Err(e.chain_msg("failed to start a decompilation"));
                assert(decompilation_submission(x, self.spec_api_url(), *args, r));
                return r;
            },
        };
        match submitted_id(&response, url.as_str()) {
            Ok(id) => {
                let r = Ok(Decompilation::new(id.as_str(), conn));
                assert(decompilation_submission(x, self.spec_api_url(), *args, r));
                r
            },
            Err(e) => {
                let r = Err(e);
                assert(decompilation_submission(x, self.spec_api_url(), *args, r));
                r
            },
        }
    }
}

} // verus!
