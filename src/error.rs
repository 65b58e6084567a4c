//! The closed set of failures that the library reports.
use vstd::prelude::*;
use vstd::string::*;

verus! {

/// `url::ParseError`, the URL parser's reason for refusing a text; it is
/// only carried, never inspected.
#[verifier::external_type_specification]
#[verifier::external_body]
pub struct ExParseError(url::ParseError);

/// The group label of every `ResponseError`.
pub open spec fn request_error_group() -> Seq<char> {
    seq!['R', 'E', 'Q', 'U', 'E', 'S', 'T', '_', 'E', 'R', 'R', 'O', 'R']
}

#[derive(Debug, PartialEq, Eq)]
pub enum OkaeriSdkError {
    /// A base URL that does not parse as an absolute URL.
    InvalidUrl { url: String, source: url::ParseError },
    /// A timeout override that is not a non-negative integer.
    InvalidInt { from: String },
    /// A failure to build, send or complete a request, or a status outside
    /// the success range.
    ResponseError { group: String, message: String },
    /// A successful response whose body does not match the expected shape.
    ResponseParseError { body: String },
}

impl OkaeriSdkError {
    /// A `ResponseError` in the request group with the given message.
    pub fn request_error(message: String) -> (r: OkaeriSdkError)
        ensures
            r matches OkaeriSdkError::ResponseError { group, message: m }
                && group@ == request_error_group() && m@ == message@,
    {
        proof {
            reveal_strlit("REQUEST_ERROR");
        }
        OkaeriSdkError::ResponseError { group: "REQUEST_ERROR".to_owned(), message }
    }

    /// A request-group error whose message is `prefix` then `detail`.
    pub fn request_error_with(prefix: &str, detail: &str) -> (r: OkaeriSdkError)
        ensures
            r matches OkaeriSdkError::ResponseError { group, message }
                && group@ == request_error_group() && message@ == prefix@ + detail@,
    {
        let mut message = prefix.to_owned();
        message.append(detail);
        OkaeriSdkError::request_error(message)
    }
}

} // verus!
