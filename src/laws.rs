//! Properties that hold across the resolver, the services and the steps of
//! an exchange, stated over what each function promises.
use crate::aicensor::{aicensor_outcome, timeout_var, AiCensor};
use crate::client::{
    base_url_outcome, body_outcome, chosen_base_url, decode_outcome, dispatch_outcome,
    is_success_status, timeout_outcome, url_parse_result, utf8_text, ApiUrl,
};
use crate::decimal::{is_u64_text, u64_text_value};
use crate::env::env_lookup;
use crate::error::OkaeriSdkError;
use crate::noproxy::{noproxy_outcome, NoProxy};
use crate::timeout::{millis_timeout, Timeout};
use vstd::prelude::*;

verus! {

/// With no environment override, the text `s` that the caller gives (or,
/// given none, the default `s`) resolves to the URL that `s` parses to, and
/// where `s` does not parse the result is `InvalidUrl` naming `s`.
pub proof fn lemma_base_url_without_override(
    s: Seq<char>,
    provided: Option<Seq<char>>,
    def: Seq<char>,
    r: Result<ApiUrl, OkaeriSdkError>,
)
    requires
        provided == Some(s) || (provided is None && def == s),
        base_url_outcome(chosen_base_url(provided, def, None), r),
    ensures
        r is Ok <==> url_parse_result(s) is Some,
        r matches Ok(u) ==> url_parse_result(s) == Some(u@),
        r matches Err(e) ==> (e matches OkaeriSdkError::InvalidUrl { url, .. } && url@ == s),
{
}

/// A timeout override that is not a number fails with `InvalidInt` holding
/// it, whatever the caller's value and the default are.
pub proof fn lemma_bad_timeout_override_fails(
    v: Seq<char>,
    provided: Option<Timeout>,
    def: Timeout,
    r: Result<Timeout, OkaeriSdkError>,
)
    requires
        !is_u64_text(v),
        timeout_outcome(provided, def, Some(v), r),
    ensures
        r matches Err(OkaeriSdkError::InvalidInt { from }) && from@ == v,
{
}

/// A timeout override that is a number wins over the caller's value and
/// the default: the timeout is that many milliseconds.
pub proof fn lemma_timeout_override_wins(
    v: Seq<char>,
    provided: Option<Timeout>,
    def: Timeout,
    r: Result<Timeout, OkaeriSdkError>,
)
    requires
        is_u64_text(v),
        timeout_outcome(provided, def, Some(v), r),
    ensures
        r == Ok::<Timeout, OkaeriSdkError>(millis_timeout(u64_text_value(v))),
{
}

/// Both services take a numeric timeout override over the caller's value
/// and the default, each on its own, and neither fails on it with
/// `InvalidInt`.
pub proof fn lemma_services_take_timeout_override(
    token: Seq<char>,
    base_url: Option<Seq<char>>,
    timeout: Option<Timeout>,
    env: Seq<(Seq<char>, Seq<char>)>,
    a: Result<AiCensor, OkaeriSdkError>,
    n: Result<NoProxy, OkaeriSdkError>,
)
    requires
        env_lookup(env, timeout_var()) matches Some(v) && is_u64_text(v),
        aicensor_outcome(token, base_url, timeout, env, a),
        noproxy_outcome(token, base_url, timeout, env, n),
    ensures
        a matches Ok(c) ==> c.spec_client().spec_timeout() == millis_timeout(
            u64_text_value(env_lookup(env, timeout_var()).unwrap()),
        ),
        n matches Ok(c) ==> c.spec_client().spec_timeout() == millis_timeout(
            u64_text_value(env_lookup(env, timeout_var()).unwrap()),
        ),
        !(a matches Err(OkaeriSdkError::InvalidInt { .. })),
        !(n matches Err(OkaeriSdkError::InvalidInt { .. })),
{
}

/// A status outside the success range ends the exchange with a
/// `ResponseError` before any body is read or decoded.
pub proof fn lemma_failed_status_ends_exchange(code: u16, r: Result<(), OkaeriSdkError>)
    requires
        !is_success_status(code),
        dispatch_outcome(Ok(code), r),
    ensures
        r matches Err(e) && e is ResponseError,
{
}

/// A UTF-8 body that does not decode into the record ends in a
/// `ResponseParseError` holding exactly the text those bytes encode.
pub proof fn lemma_undecodable_body_is_kept<T>(
    bytes: Vec<u8>,
    text: Result<String, OkaeriSdkError>,
    r: Result<T, OkaeriSdkError>,
)
    requires
        utf8_text(bytes@) is Some,
        body_outcome(Ok(bytes), text),
        text matches Ok(t) && decode_outcome(t@, None::<T>, r),
    ensures
        r matches Err(OkaeriSdkError::ResponseParseError { body }) && Some(body@) == utf8_text(bytes@),
{
}

/// A body that decodes into a record hands that record back unchanged.
pub proof fn lemma_decoded_record_returned<T>(body: Seq<char>, v: T, r: Result<T, OkaeriSdkError>)
    requires
        decode_outcome(body, Some(v), r),
    ensures
        r == Ok::<T, OkaeriSdkError>(v),
{
}

} // verus!
