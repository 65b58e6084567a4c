//! The address-reputation service: tells how risky an IP address is.
use crate::aicensor::timeout_var;
use crate::client::{HttpRequest, OkaeriClient, chosen_base_url, chosen_timeout, headers_view, opt_str_view, url_parse_result};
use crate::env::{env_lookup, EnvVars};
use crate::error::OkaeriSdkError;
use crate::timeout::Timeout;
use vstd::prelude::*;
use vstd::string::*;

verus! {

#[derive(Clone, Debug, PartialEq, Eq)]
pub struct NoProxyAddressInfoGeneral {
    pub ip: String,
    pub asn: u64,
    pub provider: String,
    pub country: String,
}

#[derive(Clone, Debug, PartialEq, Eq)]
pub struct NoProxyAddressInfoRisks {
    pub total: u64,
    pub proxy: bool,
    pub country: bool,
    pub asn: bool,
    pub provider: bool,
    pub abuser: bool,
}

#[derive(Clone, Debug, PartialEq, Eq)]
pub struct NoProxyAddressInfoScore {
    pub noproxy: u64,
    pub abuseipdb: u64,
}

#[derive(Clone, Debug, PartialEq, Eq)]
pub struct NoProxyAddressInfoSuggestions {
    pub verify: bool,
    pub block: bool,
}

/// Everything the service reports on one address.
#[derive(Clone, Debug, PartialEq, Eq)]
pub struct NoProxyAddressInfo {
    pub general: NoProxyAddressInfoGeneral,
    pub risks: NoProxyAddressInfoRisks,
    pub score: NoProxyAddressInfoScore,
    pub suggestions: NoProxyAddressInfoSuggestions,
}

pub open spec fn noproxy_default_url() -> Seq<char> {
    "https://noproxy-api.okaeri.eu"@
}

pub open spec fn noproxy_url_var() -> Seq<char> {
    "OKAERI_SDK_NOPROXY_BASE_PATH"@
}

pub struct NoProxy {
    client: OkaeriClient,
}

impl NoProxy {
    pub closed spec fn spec_client(&self) -> OkaeriClient {
        self.client
    }

    /// A client with the default base URL and timeout, unless `env`
    /// overrides them.
    pub fn new(token: &str, env: &EnvVars) -> (r: Result<NoProxy, OkaeriSdkError>)
        ensures
            noproxy_outcome(token@, None, None, env@, r),
    {
        NoProxy::new_with_config(token, None, None, env)
    }

    /// A client whose requests carry `Bearer <token>` in the `Authorization`
    /// header.
    pub fn new_with_config(
        token: &str,
        base_url: Option<&str>,
        timeout: Option<Timeout>,
        env: &EnvVars,
    ) -> (r: Result<NoProxy, OkaeriSdkError>)
        ensures
            noproxy_outcome(token@, opt_str_view(base_url), timeout, env@, r),
    {
        proof {
            reveal_strlit("https://noproxy-api.okaeri.eu");
            reveal_strlit("OKAERI_SDK_NOPROXY_BASE_PATH");
            reveal_strlit("OKAERI_SDK_TIMEOUT");
            reveal_strlit("Authorization");
            reveal_strlit("Bearer ");
        }
        let base_url = match OkaeriClient::read_base_url(
            base_url,
            "https://noproxy-api.okaeri.eu",
            "OKAERI_SDK_NOPROXY_BASE_PATH",
            env,
        ) {
            Ok(u) => u,
            Err(e) => return Err(e),
        };
        let timeout = match OkaeriClient::read_timeout(
            timeout,
            Timeout::from_secs(5),
            "OKAERI_SDK_TIMEOUT",
            env,
        ) {
            Ok(t) => t,
            Err(e) => return Err(e),
        };
        let mut auth = "Bearer ".to_owned();
        auth.append(token);
        let mut headers: Vec<(String, String)> = Vec::new();
        headers.push(("Authorization".to_owned(), auth));
        assert(headers_view(headers@) =~= seq![("Authorization"@, "Bearer "@ + token@)]);
        match OkaeriClient::new(base_url, timeout, headers) {
            Ok(client) => Ok(NoProxy { client }),
            Err(e) => Err(e),
        }
    }

    /// The request that asks about `address`: a GET of `/v1/<address>`.
    pub fn info_request(self, address: &str) -> (r: HttpRequest)
        ensures
            r.method == crate::client::HttpMethod::Get,
            r.url@ == self.spec_client().spec_base_url() + "/v1/"@ + address@,
            headers_view(r.headers@) == self.spec_client().spec_headers(),
            r.body@ == Seq::<char>::empty(),
            r.timeout == self.spec_client().spec_timeout(),
    {
        let mut path = "/v1/".to_owned();
        path.append(address);
        let r = self.client.get(path.as_str());
        assert(r.url@ =~= self.spec_client().spec_base_url() + "/v1/"@ + address@);
        r
    }
}

/// What constructing the reputation client gives: it fails on a base URL
/// that does not parse, then on a timeout override that is not a number;
/// otherwise the client holds the resolved URL and timeout and one
/// `Authorization` header with `Bearer ` and the token.
pub open spec fn noproxy_outcome(
    token: Seq<char>,
    base_url: Option<Seq<char>>,
    timeout: Option<Timeout>,
    env: Seq<(Seq<char>, Seq<char>)>,
    r: Result<NoProxy, OkaeriSdkError>,
) -> bool {
    let url = chosen_base_url(base_url, noproxy_default_url(), env_lookup(env, noproxy_url_var()));
    let t = chosen_timeout(timeout, Timeout { secs: 5, nanos: 0 }, env_lookup(env, timeout_var()));
    match r {
        Ok(c) => url_parse_result(url) == Some(c.spec_client().spec_base_url()) && t == Some(
            c.spec_client().spec_timeout(),
        ) && c.spec_client().spec_headers() == seq![("Authorization"@, "Bearer "@ + token)],
        Err(e) => if url_parse_result(url) is None {
            e matches OkaeriSdkError::InvalidUrl { url: u, .. } && u@ == url
        } else {
            t is None && (e matches OkaeriSdkError::InvalidInt { from } && env_lookup(
                env,
                timeout_var(),
            ) == Some(from@))
        },
    }
}

} // verus!
