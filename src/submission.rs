//! What starting a job on the service shares between services: reading the
//! ID of the new job from the response.
use vstd::prelude::*;

use crate::error::Error;
use crate::error::ErrorKind;
use crate::response::APIResponse;

verus! {

/// Reads the ID of a newly started job: the string `id` of the JSON body.
///
/// Fails with `<url> returned invalid JSON response` when there is none,
/// `url` being the URL the job was submitted to.
pub fn submitted_id(response: &APIResponse, url: &str) -> (r: Result<String, Error>)
    ensures
        r is Ok <==> response.json_string("id"@) is Some,
        r matches Ok(id) ==> response.json_string("id"@) == Some(id@),
        r matches Err(e) ==> e.kind matches ErrorKind::InvalidResponse(u) && u@ == url@ && e.cause is None,
{
    match response.json_value_as_string("id") {
        Some(id) => Ok(id),
        None => Err(Error::from_kind(ErrorKind::InvalidResponse(url.to_owned()))),
    }
}

} // verus!

verus! {

/// Whether `r` follows from the outcome of a submission to `url`: a failed
/// request gives the error `message` caused by the connection's error; a
/// reply with a string `id` gives a job whose ID (`job_id`) is that string;
/// a reply without one gives `<url> returned invalid JSON response`.
pub open spec fn submission_result<T>(
    outcome: Result<APIResponse, Error>,
    url: Seq<char>,
    message: Seq<char>,
    r: Result<T, Error>,
    job_id: Seq<char>,
) -> bool {
    match outcome {
        Err(e0) => r matches Err(e) && (e.kind matches ErrorKind::Msg(m) && m@ == message) && e.cause
            == Some(Box::new(e0)),
        Ok(resp) => match resp.json_string("id"@) {
            Some(id) => r is Ok && job_id == id,
            None => r matches Err(e) && (e.kind matches ErrorKind::InvalidResponse(u) && u@ == url)
                && e.cause is None,
        },
    }
}

} // verus!
