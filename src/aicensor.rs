//! The text-moderation service: predicts whether a phrase is offensive.
use crate::client::{HttpRequest, OkaeriClient, chosen_base_url, chosen_timeout, headers_view, opt_str_view, url_parse_result};
use crate::env::{env_lookup, EnvVars};
use crate::error::OkaeriSdkError;
use crate::timeout::Timeout;
use vstd::prelude::*;
use vstd::string::*;

verus! {

/// What `serde_json` writes for a JSON string value holding `s`: `s`
/// quoted, with the characters that JSON requires escaped.
pub uninterp spec fn json_string_text(s: Seq<char>) -> Seq<char>;

/// Relies on `serde_json::Value::String` and its `Display`, which writes the
/// string as a compact JSON string literal; the text depends on `s` alone.
#[verifier::external_body]
fn json_string(s: &str) -> (r: String)
    ensures
        r@ == json_string_text(s@),
{
    serde_json::Value::String(s.to_owned()).to_string()
}

/// The summary part of a prediction.
#[derive(Clone, Debug, PartialEq, Eq)]
pub struct CensorPredictionInfoGeneral {
    pub swear: bool,
    pub breakdown: String,
    pub domains: bool,
}

pub open spec fn aicensor_default_url() -> Seq<char> {
    "https://ai-censor.okaeri.eu"@
}

pub open spec fn aicensor_url_var() -> Seq<char> {
    "OKAERI_SDK_AICENSOR_BASE_PATH"@
}

/// The variable that overrides the timeout of every service, in milliseconds.
pub open spec fn timeout_var() -> Seq<char> {
    "OKAERI_SDK_TIMEOUT"@
}

/// The body of a prediction request for `phrase`.
pub open spec fn prediction_body(phrase: Seq<char>) -> Seq<char> {
    "{\"phrase\":"@ + json_string_text(phrase) + "}"@
}

pub struct AiCensor {
    client: OkaeriClient,
}

impl AiCensor {
    pub closed spec fn spec_client(&self) -> OkaeriClient {
        self.client
    }

    /// A client with the default base URL and timeout, unless `env`
    /// overrides them.
    pub fn new(token: &str, env: &EnvVars) -> (r: Result<AiCensor, OkaeriSdkError>)
        ensures
            aicensor_outcome(token@, None, None, env@, r),
    {
        AiCensor::new_with_config(token, None, None, env)
    }

    /// A client whose requests carry `token` in the `Token` header.
    pub fn new_with_config(
        token: &str,
        base_url: Option<&str>,
        timeout: Option<Timeout>,
        env: &EnvVars,
    ) -> (r: Result<AiCensor, OkaeriSdkError>)
        ensures
            aicensor_outcome(token@, opt_str_view(base_url), timeout, env@, r),
    {
        proof {
            reveal_strlit("https://ai-censor.okaeri.eu");
            reveal_strlit("OKAERI_SDK_AICENSOR_BASE_PATH");
            reveal_strlit("OKAERI_SDK_TIMEOUT");
            reveal_strlit("Token");
        }
        let base_url = match OkaeriClient::read_base_url(
            base_url,
            "https://ai-censor.okaeri.eu",
            "OKAERI_SDK_AICENSOR_BASE_PATH",
            env,
        ) {
            Ok(u) => u,
            Err(e) => return Err(e),
        };
        let timeout = match OkaeriClient::read_timeout(
            timeout,
            Timeout::from_secs(5),
            "OKAERI_SDK_TIMEOUT",
            env,
        ) {
            Ok(t) => t,
            Err(e) => return Err(e),
        };
        let mut headers: Vec<(String, String)> = Vec::new();
        headers.push(("Token".to_owned(), token.to_owned()));
        assert(headers_view(headers@) =~= seq![("Token"@, token@)]);
        match OkaeriClient::new(base_url, timeout, headers) {
            Ok(client) => Ok(AiCensor { client }),
            Err(e) => Err(e),
        }
    }

    /// The request that asks for a prediction on `phrase`: a POST of
    /// `{"phrase":...}` to `/predict`.
    pub fn prediction_request(self, phrase: &str) -> (r: HttpRequest)
        ensures
            r.method == crate::client::HttpMethod::Post,
            r.url@ == self.spec_client().spec_base_url() + "/predict"@,
            headers_view(r.headers@) == self.spec_client().spec_headers(),
            r.body@ == prediction_body(phrase@),
            r.timeout == self.spec_client().spec_timeout(),
    {
        let mut body = "{\"phrase\":".to_owned();
        let quoted = json_string(phrase);
        body.append(quoted.as_str());
        body.append("}");
        self.client.post("/predict", body)
    }
}

/// What constructing the moderation client gives: it fails on a base URL
/// that does not parse, then on a timeout override that is not a number;
/// otherwise the client holds the resolved URL and timeout and one `Token`
/// header with the token.
pub open spec fn aicensor_outcome(
    token: Seq<char>,
    base_url: Option<Seq<char>>,
    timeout: Option<Timeout>,
    env: Seq<(Seq<char>, Seq<char>)>,
    r: Result<AiCensor, OkaeriSdkError>,
) -> bool {
    let url = chosen_base_url(base_url, aicensor_default_url(), env_lookup(env, aicensor_url_var()));
    let t = chosen_timeout(timeout, Timeout { secs: 5, nanos: 0 }, env_lookup(env, timeout_var()));
    match r {
        Ok(c) => url_parse_result(url) == Some(c.spec_client().spec_base_url()) && t == Some(
            c.spec_client().spec_timeout(),
        ) && c.spec_client().spec_headers() == seq![("Token"@, token)],
        Err(e) => if url_parse_result(url) is None {
            e matches OkaeriSdkError::InvalidUrl { url: u, .. } && u@ == url
        } else {
            t is None && (e matches OkaeriSdkError::InvalidInt { from } && env_lookup(
                env,
                timeout_var(),
            ) == Some(from@))
        },
    }
}

} // verus!
