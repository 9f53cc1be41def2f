//! The HTTP-facing shapes of the control surface.
//!
//! A caller only ever sees one of three outcomes: the success body `ok`, a
//! missing-parameter error naming the parameter, or the one opaque driver
//! failure. The route bodies, status codes and JSON error shape are built
//! and pinned down here; serving them is the surrounding process's job.

use vstd::prelude::*;
use vstd::string::StringExecFns;

verus! {

/// The port the control service listens on.
pub const CONTROL_PORT: u16 = 3000;

/// The port the supervised driver is told to listen on.
pub const DRIVER_PORT: u16 = 4444;

/// The path of the driver executable.
pub const DRIVER_PROGRAM: &'static str = "/usr/bin/chromedriver";

/// Status of a successful response.
pub const STATUS_OK: u16 = 200;

/// Status of a missing-parameter error: a caller error.
pub const STATUS_UNPROCESSABLE: u16 = 422;

/// Status of the collapsed driver failure.
pub const STATUS_INTERNAL_ERROR: u16 = 500;

/// The errors the HTTP surface distinguishes: a missing required
/// parameter, and everything else collapsed into one driver failure.
#[derive(Debug)]
pub enum ServerError {
    /// The named required parameter was absent from the request.
    MissingParameter(&'static str),
    /// The driver interaction failed; no sub-cause is exposed.
    WebDriverError,
}

/// The JSON error body shape: `{"error": "<message>"}`. The messages it
/// is used with hold no character that JSON requires escaped.
pub open spec fn error_body_view(message: Seq<char>) -> Seq<char> {
    "{\"error\": \""@ + message + "\"}"@
}

/// The message of a missing-parameter error: `Missing parameter '<name>'`.
pub open spec fn missing_param_message_view(param: Seq<char>) -> Seq<char> {
    "Missing parameter '"@ + param + "'"@
}

/// Builds the JSON error body for `message`.
pub fn error_body(message: &str) -> (s: String)
    ensures
        s@ == error_body_view(message@),
{
    let mut s = String::from_str("{\"error\": \"");
    s.append(message);
    s.append("\"}");
    s
}

/// Builds the missing-parameter message for `param`.
pub fn missing_param_message(param: &str) -> (s: String)
    ensures
        s@ == missing_param_message_view(param@),
{
    let mut s = String::from_str("Missing parameter '");
    s.append(param);
    s.append("'");
    s
}

impl ServerError {
    /// The status code and JSON body this error answers with: 422 and the
    /// message naming the parameter for a caller error, 500 and the fixed
    /// opaque message for a driver failure.
    pub fn response_parts(&self) -> (r: (u16, String))
        ensures
            self matches ServerError::MissingParameter(p) ==> r.0 == STATUS_UNPROCESSABLE
                && r.1@ == error_body_view(missing_param_message_view(p@)),
            self is WebDriverError ==> r.0 == STATUS_INTERNAL_ERROR && r.1@ == error_body_view(
                "WebDriver failed"@,
            ),
    {
        match self {
            ServerError::MissingParameter(p) => {
                let message = missing_param_message(p);
                (STATUS_UNPROCESSABLE, error_body(message.as_str()))
            },
            ServerError::WebDriverError => (STATUS_INTERNAL_ERROR, error_body("WebDriver failed")),
        }
    }
}

/// The body of `GET /`: the liveness probe.
pub fn root_body() -> (s: String)
    ensures
        s@ == "Hello, World!"@,
{
    String::from_str("Hello, World!")
}

/// The first demand on every navigate request: with the `url` parameter
/// present the request goes on to the driver with exactly that value; with
/// it absent the request is answered with the missing-parameter error at
/// once, whatever state the supervisor or the driver is in — no driver
/// action is taken, and nothing besides the parameter decides the answer.
pub fn require_url(url: Option<String>) -> (r: Result<String, ServerError>)
    ensures
        url matches Some(u) ==> (r matches Ok(v) && v == u),
        url is None ==> (r matches Err(e) && e matches ServerError::MissingParameter(p) && p@
            == "url"@),
{
    match url {
        Some(u) => Ok(u),
        None => Err(ServerError::MissingParameter("url")),
    }
}

} // verus!
