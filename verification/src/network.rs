//! HTTP client decisions: URL validation, request-URL assembly, and the
//! acceptance rules for probe and POST status codes.  Sending the requests
//! is the binary's job.

use vstd::prelude::*;

verus! {

use vstd::string::*;

/// Network-related errors.
#[derive(Debug)]
pub enum NetworkError {
    /// The configured service URL does not parse.
    InvalidURL(String),
    /// The service could not be reached.
    RequestFailed,
    /// The service answered with an error status.
    ResponseError,
    /// The service's response could not be decoded.
    DecodeError,
}

impl NetworkError {
    /// The view of the message that `message` renders for this error.
    pub open spec fn spec_message(self) -> Seq<char> {
        match self {
            NetworkError::InvalidURL(url) => "Invalid service URL: '"@ + url@
                + "'. Please check your configuration file."@,
            NetworkError::RequestFailed =>
                "Failed to connect to service. Please verify the service is running and accessible."@,
            NetworkError::ResponseError =>
                "Service returned an error. Please check the service logs and try again."@,
            NetworkError::DecodeError =>
                "Failed to decode service response. The service may be experiencing issues or the format may be unsupported."@,
        }
    }

    /// Renders the error as a human-readable message.
    pub fn message(&self) -> (r: String)
        ensures
            r@ == self.spec_message(),
    {
        match self {
            NetworkError::InvalidURL(url) => {
                let mut r = String::new();
                r.append("Invalid service URL: '");
                r.append(url.as_str());
                r.append("'. Please check your configuration file.");
                r
            },
            NetworkError::RequestFailed => {
                "Failed to connect to service. Please verify the service is running and accessible.".to_owned()
            },
            NetworkError::ResponseError => {
                "Service returned an error. Please check the service logs and try again.".to_owned()
            },
            NetworkError::DecodeError => {
                "Failed to decode service response. The service may be experiencing issues or the format may be unsupported.".to_owned()
            },
        }
    }
}

/// Whether the text parses as a URL.
pub uninterp spec fn url_ok(s: Seq<char>) -> bool;

/// Relies on `reqwest::Url::parse`: decides whether the text parses as an
/// absolute URL; the verdict depends on the text alone.
#[verifier::external_body]
fn parse_url_check(s: &str) -> (b: bool)
    ensures
        b == url_ok(s@),
{
    reqwest::Url::parse(s).is_ok()
}

/// The URL of a POST request: the base URL and the endpoint path joined
/// with exactly one slash between them.
pub open spec fn spec_request_url(base: Seq<char>, endpoint: Seq<char>) -> Seq<char> {
    if base.len() > 0 && base[base.len() - 1] == '/' {
        base + endpoint
    } else {
        base + "/"@ + endpoint
    }
}

/// HTTP client settings for requests to the refinement service.
pub struct HttpClient {
    /// Base URL for all requests.
    pub base_url: String,
}

impl HttpClient {
    /// Creates a client from its base URL.
    pub fn new(base_url: String) -> (r: Self)
        ensures
            r.base_url == base_url,
    {
        HttpClient { base_url }
    }

    /// Checks that the base URL parses; a malformed URL is rejected with
    /// `InvalidURL` holding that URL.
    pub fn validate_url(&self) -> (r: Result<(), NetworkError>)
        ensures
            url_ok(self.base_url@) ==> r is Ok,
            !url_ok(self.base_url@) ==> (match r {
                Err(NetworkError::InvalidURL(url)) => url@ == self.base_url@,
                _ => false,
            }),
    {
        if parse_url_check(self.base_url.as_str()) {
            Ok(())
        } else {
            Err(NetworkError::InvalidURL(self.base_url.clone()))
        }
    }

    /// Judges the liveness probe of the base URL: no answer is a failed
    /// request, statuses 200 and 404 mean the service is reachable, and any
    /// other status condemns the URL.
    pub fn evaluate_probe(&self, status: Option<u16>) -> (r: Result<(), NetworkError>)
        ensures
            (match status {
                None => r == Err::<(), NetworkError>(NetworkError::RequestFailed),
                Some(code) => {
                    if code == 200 || code == 404 {
                        r is Ok
                    } else {
                        (match r {
                            Err(NetworkError::InvalidURL(url)) => url@ == self.base_url@,
                            _ => false,
                        })
                    }
                },
            }),
    {
        match status {
            None => Err(NetworkError::RequestFailed),
            Some(code) => {
                if code == 200 || code == 404 {
                    Ok(())
                } else {
                    Err(NetworkError::InvalidURL(self.base_url.clone()))
                }
            },
        }
    }

    /// The URL for a POST to `endpoint` under the base URL, avoiding a
    /// doubled slash.
    pub fn request_url(&self, endpoint: &str) -> (r: String)
        ensures
            r@ == spec_request_url(self.base_url@, endpoint@),
    {
        let n = self.base_url.as_str().unicode_len();
        let mut r = String::new();
        r.append(self.base_url.as_str());
        if n == 0 || self.base_url.as_str().get_char(n - 1) != '/' {
            r.append("/");
        }
        r.append(endpoint);
        r
    }

    /// Judges the status of the POST itself: any non-success status is a
    /// response error.
    pub fn evaluate_post_status(status: u16) -> (r: Result<(), NetworkError>)
        ensures
            200 <= status < 300 ==> r is Ok,
            !(200 <= status < 300) ==> r == Err::<(), NetworkError>(NetworkError::ResponseError),
    {
        if 200 <= status && status < 300 {
            Ok(())
        } else {
            Err(NetworkError::ResponseError)
        }
    }
}

} // verus!
