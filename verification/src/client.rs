//! The client-side login agent: the request body is built by the API
//! module; here the HTTP verdict of the login-test endpoint is classified
//! into "credentials valid", "credentials invalid" or an error.

use vstd::prelude::*;

verus! {

/// Errors that occur while logging in from the client.
#[derive(Debug)]
pub enum LoginError {
    /// Could not append the endpoint path to the host URL.
    UrlJoinError { host: String, path: String, reason: String },
    /// Could not send the login request.
    RequestError { reason: String },
    /// The server returned a response that is not a login verdict.
    ResponseError { status: u16, response: String },
}

/// Classifies the HTTP status of the login-test response: `200` means the
/// credentials are valid, `403` (wrong password) and `404` (unknown user)
/// mean they are not, and anything else is an unexpected response,
/// carried back with its status and body.
pub fn classify_response(status: u16, body: String) -> (r: Result<bool, LoginError>)
    ensures
        status == 200 ==> r == Ok::<bool, LoginError>(true),
        status == 403 || status == 404 ==> r == Ok::<bool, LoginError>(false),
        !(status == 200 || status == 403 || status == 404) ==> (r matches Err(e)
            && e matches LoginError::ResponseError { status: st, response } && st == status
            && response@ == body@),
{
    if status == 200 {
        Ok(true)
    } else if status == 403 || status == 404 {
        Ok(false)
    } else {
        Err(LoginError::ResponseError { status, response: body })
    }
}

} // verus!
