//! The shared client core: where a service lives, how long a request may
//! take, which headers it carries, and how each step of an exchange ends.
use crate::decimal::{decimal_text, is_u64_text, parse_u64, to_decimal, u64_text_value};
use crate::env::{env_lookup, EnvVars};
use crate::error::{request_error_group, OkaeriSdkError};
use crate::timeout::{millis_timeout, Timeout};
use vstd::prelude::*;
use vstd::string::*;

verus! {

/// What `url::Url::parse` gives for the text `s`: the serialization of the
/// parsed URL, or nothing where the text is refused.
pub uninterp spec fn url_parse_result(s: Seq<char>) -> Option<Seq<char>>;

/// Relies on `url::Url::parse`, which decides from the text alone whether it
/// is an absolute URL and then builds its serialization from that text, and
/// on `From<Url> for String`, which hands that serialization out.
#[verifier::external_body]
fn parse_url(s: &str) -> (r: Result<String, url::ParseError>)
    ensures
        match r {
            Ok(u) => url_parse_result(s@) == Some(u@),
            Err(_) => url_parse_result(s@) is None,
        },
{
    url::Url::parse(s).map(String::from)
}

/// What `String::from_utf8` gives for the bytes `b`: the text they encode,
/// or nothing where they are not UTF-8.
pub uninterp spec fn utf8_text(b: Seq<u8>) -> Option<Seq<char>>;

/// Relies on `String::from_utf8`: it accepts exactly the valid UTF-8 byte
/// sequences and returns the text they encode; the error is shown as text.
#[verifier::external_body]
fn decode_utf8(bytes: Vec<u8>) -> (r: Result<String, String>)
    ensures
        match r {
            Ok(t) => utf8_text(bytes@) == Some(t@),
            Err(_) => utf8_text(bytes@) is None,
        },
{
    String::from_utf8(bytes).map_err(|e| format!("{}", e))
}

/// What resolving the base URL text `chosen` gives: the parsed URL, or an
/// `InvalidUrl` naming the text where it does not parse.
pub open spec fn base_url_outcome(chosen: Seq<char>, r: Result<ApiUrl, OkaeriSdkError>) -> bool {
    match r {
        Ok(u) => url_parse_result(chosen) == Some(u@),
        Err(e) => url_parse_result(chosen) is None && (e matches OkaeriSdkError::InvalidUrl {
            url,
            ..
        } && url@ == chosen),
    }
}

/// The text of a URL that the URL parser accepted, in its serialized form.
#[derive(Clone, Debug, PartialEq, Eq)]
pub struct ApiUrl {
    text: String,
}

impl View for ApiUrl {
    type V = Seq<char>;

    closed spec fn view(&self) -> Seq<char> {
        self.text@
    }
}

impl ApiUrl {
    /// Parses `s` as an absolute URL.
    pub fn parse(s: &str) -> (r: Result<ApiUrl, OkaeriSdkError>)
        ensures
            base_url_outcome(s@, r),
    {
        match parse_url(s) {
            Ok(text) => Ok(ApiUrl { text }),
            Err(source) => Err(OkaeriSdkError::InvalidUrl { url: s.to_owned(), source }),
        }
    }

    /// The serialized URL.
    pub fn as_str(&self) -> (r: &str)
        ensures
            r@ == self@,
    {
        self.text.as_str()
    }
}

pub open spec fn opt_str_view(o: Option<&str>) -> Option<Seq<char>> {
    match o {
        Some(s) => Some(s@),
        None => None,
    }
}

/// The base URL text to use: the environment's value if the variable is
/// set, else the caller's value if given, else the default.
pub open spec fn chosen_base_url(
    provided: Option<Seq<char>>,
    def: Seq<char>,
    env_value: Option<Seq<char>>,
) -> Seq<char> {
    match env_value {
        Some(v) => v,
        None => match provided {
            Some(p) => p,
            None => def,
        },
    }
}

/// The timeout to use: the environment's value read as milliseconds if the
/// variable is set, else the caller's value if given, else the default.
/// Nothing where the environment's value is not a `u64`.
pub open spec fn chosen_timeout(
    provided: Option<Timeout>,
    def: Timeout,
    env_value: Option<Seq<char>>,
) -> Option<Timeout> {
    match env_value {
        Some(v) => if is_u64_text(v) {
            Some(millis_timeout(u64_text_value(v)))
        } else {
            None
        },
        None => match provided {
            Some(p) => Some(p),
            None => Some(def),
        },
    }
}

/// What resolving the timeout gives: the chosen timeout, or an `InvalidInt`
/// holding the environment's value where that is not a number.
pub open spec fn timeout_outcome(
    provided: Option<Timeout>,
    def: Timeout,
    env_value: Option<Seq<char>>,
    r: Result<Timeout, OkaeriSdkError>,
) -> bool {
    match chosen_timeout(provided, def, env_value) {
        Some(t) => r == Ok::<Timeout, OkaeriSdkError>(t),
        None => r matches Err(OkaeriSdkError::InvalidInt { from }) && env_value == Some(from@),
    }
}

/// No two headers share a name.
pub open spec fn distinct_names(h: Seq<(Seq<char>, Seq<char>)>) -> bool {
    forall|i: int, j: int| 0 <= i < j < h.len() ==> #[trigger] h[i].0 != #[trigger] h[j].0
}

pub open spec fn headers_view(h: Seq<(String, String)>) -> Seq<(Seq<char>, Seq<char>)> {
    h.map_values(|p: (String, String)| (p.0@, p.1@))
}

#[derive(Clone, Copy, Debug, PartialEq, Eq)]
pub enum HttpMethod {
    Get,
    Post,
}

/// A request ready to be sent: its method, full URL, headers, body, and
/// the timeout that governs connecting, reading and writing alike.
#[derive(Clone, Debug, PartialEq, Eq)]
pub struct HttpRequest {
    pub method: HttpMethod,
    pub url: String,
    pub headers: Vec<(String, String)>,
    pub body: String,
    pub timeout: Timeout,
}

pub struct OkaeriClient {
    base_url: ApiUrl,
    timeout: Timeout,
    headers: Vec<(String, String)>,
}

impl OkaeriClient {
    pub closed spec fn spec_base_url(&self) -> Seq<char> {
        self.base_url@
    }

    pub closed spec fn spec_timeout(&self) -> Timeout {
        self.timeout
    }

    pub closed spec fn spec_headers(&self) -> Seq<(Seq<char>, Seq<char>)> {
        headers_view(self.headers@)
    }

    /// A client for `base_url` whose requests carry `headers` and give up
    /// after `timeout`.
    pub fn new(base_url: ApiUrl, timeout: Timeout, headers: Vec<(String, String)>) -> (r: Result<
        OkaeriClient,
        OkaeriSdkError,
    >)
        requires
            distinct_names(headers_view(headers@)),
        ensures
            r is Ok,
            r matches Ok(c) ==> c.spec_base_url() == base_url@ && c.spec_timeout() == timeout
                && c.spec_headers() == headers_view(headers@),
    {
        Ok(OkaeriClient { base_url, timeout, headers })
    }

    /// Resolves the base URL: the variable `env_name` of `env` if it is set,
    /// else `provided`, else `def`; the chosen text must parse as a URL.
    pub fn read_base_url(provided: Option<&str>, def: &str, env_name: &str, env: &EnvVars) -> (r:
        Result<ApiUrl, OkaeriSdkError>)
        ensures
            base_url_outcome(
                chosen_base_url(opt_str_view(provided), def@, env_lookup(env@, env_name@)),
                r,
            ),
    {
        let base_url = match env.get(env_name) {
            Some(value) => value,
            None => match provided {
                Some(p) => p.to_owned(),
                None => def.to_owned(),
            },
        };
        ApiUrl::parse(base_url.as_str())
    }

    /// Resolves the timeout: the variable `env_name` of `env`, read as
    /// milliseconds, if it is set, else `provided`, else `def`.
    pub fn read_timeout(provided: Option<Timeout>, def: Timeout, env_name: &str, env: &EnvVars) -> (r:
        Result<Timeout, OkaeriSdkError>)
        ensures
            timeout_outcome(provided, def, env_lookup(env@, env_name@), r),
    {
        match env.get(env_name) {
            Some(from) => match parse_u64(from.as_str()) {
                Some(millis) => Ok(Timeout::from_millis(millis)),
                None => Err(OkaeriSdkError::InvalidInt { from }),
            },
            None => match provided {
                Some(p) => Ok(p),
                None => Ok(def),
            },
        }
    }

    /// A POST of `body` to `path` under the base URL.
    pub fn post(self, path: &str, body: String) -> (r: HttpRequest)
        ensures
            r.method == HttpMethod::Post,
            r.url@ == self.spec_base_url() + path@,
            headers_view(r.headers@) == self.spec_headers(),
            r.body@ == body@,
            r.timeout == self.spec_timeout(),
    {
        self.request(path, body, HttpMethod::Post)
    }

    /// A GET of `path` under the base URL, with an empty body.
    pub fn get(self, path: &str) -> (r: HttpRequest)
        ensures
            r.method == HttpMethod::Get,
            r.url@ == self.spec_base_url() + path@,
            headers_view(r.headers@) == self.spec_headers(),
            r.body@ == Seq::<char>::empty(),
            r.timeout == self.spec_timeout(),
    {
        self.request(path, String::new(), HttpMethod::Get)
    }

    fn request(self, path: &str, body: String, method: HttpMethod) -> (r: HttpRequest)
        ensures
            r.method == method,
            r.url@ == self.spec_base_url() + path@,
            headers_view(r.headers@) == self.spec_headers(),
            r.body@ == body@,
            r.timeout == self.spec_timeout(),
    {
        let mut url = self.base_url.text;
        url.append(path);
        HttpRequest { method, url, headers: self.headers, body, timeout: self.timeout }
    }
}

/// A status code in the success range.
pub open spec fn is_success_status(code: u16) -> bool {
    200 <= code <= 299
}

/// `e` is a request-group `ResponseError` whose message is `message`.
pub open spec fn is_request_error(e: OkaeriSdkError, message: Seq<char>) -> bool {
    e matches OkaeriSdkError::ResponseError { group, message: m } && group@
        == request_error_group() && m@ == message
}

/// After sending: a transport failure is a request error with its
/// diagnostic; a success status lets the exchange go on; any other status is
/// a request error naming the code.
pub open spec fn dispatch_outcome(outcome: Result<u16, String>, r: Result<(), OkaeriSdkError>) -> bool {
    match outcome {
        Err(diag) => r matches Err(e) && is_request_error(e, "failed to dispatch request: "@ + diag@),
        Ok(code) => if is_success_status(code) {
            r is Ok
        } else {
            r matches Err(e) && is_request_error(
                e,
                "received invalid status code "@ + decimal_text(code as nat),
            )
        },
    }
}

/// After reading the body: a read failure is a request error with its
/// diagnostic; UTF-8 bytes give their text; other bytes a request error
/// whose message says so and then gives the decoder's reason.
pub open spec fn body_outcome(outcome: Result<Vec<u8>, String>, r: Result<String, OkaeriSdkError>) -> bool {
    match outcome {
        Err(diag) => r matches Err(e) && is_request_error(e, "failed to process request: "@ + diag@),
        Ok(bytes) => match utf8_text(bytes@) {
            Some(t) => r matches Ok(s) && s@ == t,
            None => r matches Err(e) && (e matches OkaeriSdkError::ResponseError { group, message }
                && group@ == request_error_group()
                && "failed to convert body to string: "@.is_prefix_of(message@)),
        },
    }
}

/// After decoding: the decoded record, or a `ResponseParseError` that holds
/// the body text unchanged.
pub open spec fn decode_outcome<T>(body: Seq<char>, decoded: Option<T>, r: Result<T, OkaeriSdkError>) -> bool {
    match decoded {
        Some(v) => r == Ok::<T, OkaeriSdkError>(v),
        None => r matches Err(OkaeriSdkError::ResponseParseError { body: b }) && b@ == body,
    }
}

/// Decides how an exchange goes on once the request was sent: `Ok` where a
/// success status came back and the body is to be read; an error where the
/// transport failed (with its diagnostic) or the status is not a success.
pub fn on_dispatch(outcome: Result<u16, String>) -> (r: Result<(), OkaeriSdkError>)
    ensures
        dispatch_outcome(outcome, r),
{
    match outcome {
        Err(diag) => Err(OkaeriSdkError::request_error_with("failed to dispatch request: ", diag.as_str())),
        Ok(code) => {
            if 200 <= code && code <= 299 {
                Ok(())
            } else {
                let digits = to_decimal(code as u64);
                Err(OkaeriSdkError::request_error_with("received invalid status code ", digits.as_str()))
            }
        },
    }
}

/// Decides how an exchange goes on once the body was read: its text where
/// the bytes are UTF-8, an error where reading failed or they are not.
pub fn on_body(outcome: Result<Vec<u8>, String>) -> (r: Result<String, OkaeriSdkError>)
    ensures
        body_outcome(outcome, r),
{
    match outcome {
        Err(diag) => Err(OkaeriSdkError::request_error_with("failed to process request: ", diag.as_str())),
        Ok(bytes) => match decode_utf8(bytes) {
            Ok(text) => Ok(text),
            Err(reason) => Err(OkaeriSdkError::request_error_with("failed to convert body to string: ", reason.as_str())),
        },
    }
}

/// Ends an exchange once the body text was decoded into a record: the record
/// where decoding succeeded, else a `ResponseParseError` holding the text.
pub fn on_decode<T>(body: String, decoded: Option<T>) -> (r: Result<T, OkaeriSdkError>)
    ensures
        decode_outcome(body@, decoded, r),
{
    match decoded {
        Some(v) => Ok(v),
        None => Err(OkaeriSdkError::ResponseParseError { body }),
    }
}

} // verus!
