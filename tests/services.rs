use okaeri_sdk::aicensor::{AiCensor, CensorPredictionInfoGeneral};
use okaeri_sdk::client::{on_body, on_decode, on_dispatch, HttpMethod};
use okaeri_sdk::env::EnvVars;
use okaeri_sdk::error::OkaeriSdkError;
use okaeri_sdk::noproxy::NoProxy;
use okaeri_sdk::timeout::Timeout;

const PREDICTION: &str = "{\"general\":{\"swear\":false,\"breakdown\":\"\",\"domains\":false},\"details\":{\"basic_contains_hit\":false,\"exact_match_hit\":false,\"ai_label\":\"clean\",\"ai_probability\":0.01,\"domains_list\":[]},\"elapsed\":{\"all\":12.3,\"processing\":4.5}}";

#[test]
fn aicensor_default_request() {
    let censor = AiCensor::new("abc", &EnvVars::new()).unwrap();
    let req = censor.prediction_request("hehe");
    assert_eq!(req.method, HttpMethod::Post);
    assert_eq!(req.url, "https://ai-censor.okaeri.eu//predict");
    assert_eq!(req.headers, vec![(String::from("Token"), String::from("abc"))]);
    assert_eq!(req.body, "{\"phrase\":\"hehe\"}");
    assert_eq!(req.timeout, Timeout::from_secs(5));
}

#[test]
fn aicensor_phrase_is_escaped() {
    let censor = AiCensor::new("abc", &EnvVars::new()).unwrap();
    let req = censor.prediction_request("say \"hi\"\n");
    assert_eq!(req.body, "{\"phrase\":\"say \\\"hi\\\"\\n\"}");
}

#[test]
fn aicensor_scenario_clean_phrase() {
    let censor = AiCensor::new("abc", &EnvVars::new()).unwrap();
    let req = censor.prediction_request("hehe");
    assert_eq!(req.url, "https://ai-censor.okaeri.eu//predict");
    assert_eq!(on_dispatch(Ok(200)), Ok(()));
    let text = on_body(Ok(PREDICTION.as_bytes().to_vec())).unwrap();
    let value: serde_json::Value = serde_json::from_str(&text).unwrap();
    let general = &value["general"];
    let decoded = match (general["swear"].as_bool(), general["breakdown"].as_str(), general["domains"].as_bool()) {
        (Some(swear), Some(breakdown), Some(domains)) => {
            Some(CensorPredictionInfoGeneral { swear, breakdown: String::from(breakdown), domains })
        }
        _ => None,
    };
    let general = on_decode(text, decoded).unwrap();
    assert!(!general.swear);
    assert_eq!(general.breakdown, "");
    assert!(!general.domains);
}

#[test]
fn timeout_override_then_transport_timeout() {
    let mut env = EnvVars::new();
    env.set("OKAERI_SDK_TIMEOUT", "50");
    let censor = AiCensor::new_with_config("abc", None, Some(Timeout::from_secs(30)), &env).unwrap();
    let req = censor.prediction_request("hehe");
    assert_eq!(req.timeout, Timeout::from_millis(50));
    match on_dispatch(Err(String::from("deadline has elapsed"))) {
        Err(OkaeriSdkError::ResponseError { group, .. }) => assert_eq!(group, "REQUEST_ERROR"),
        other => panic!("unexpected {:?}", other),
    }
}

#[test]
fn aicensor_env_overrides() {
    let mut env = EnvVars::new();
    env.set("OKAERI_SDK_AICENSOR_BASE_PATH", "http://127.0.0.1:3000");
    let censor = AiCensor::new_with_config("abc", Some("https://unused.example"), None, &env).unwrap();
    assert_eq!(censor.prediction_request("x").url, "http://127.0.0.1:3000//predict");
}

#[test]
fn aicensor_bad_config_errors() {
    let env = EnvVars::new();
    match AiCensor::new_with_config("abc", Some("nope"), None, &env) {
        Err(OkaeriSdkError::InvalidUrl { url, .. }) => assert_eq!(url, "nope"),
        _ => panic!("expected InvalidUrl"),
    }
    let mut env = EnvVars::new();
    env.set("OKAERI_SDK_TIMEOUT", "5s");
    match AiCensor::new("abc", &env) {
        Err(OkaeriSdkError::InvalidInt { from }) => assert_eq!(from, "5s"),
        _ => panic!("expected InvalidInt"),
    }
    match AiCensor::new_with_config("abc", Some("nope"), None, &env) {
        Err(OkaeriSdkError::InvalidUrl { url, .. }) => assert_eq!(url, "nope"),
        _ => panic!("expected InvalidUrl first"),
    }
}

#[test]
fn noproxy_default_request() {
    let noproxy = NoProxy::new("abc", &EnvVars::new()).unwrap();
    let req = noproxy.info_request("1.2.3.4");
    assert_eq!(req.method, HttpMethod::Get);
    assert_eq!(req.url, "https://noproxy-api.okaeri.eu//v1/1.2.3.4");
    assert_eq!(req.headers, vec![(String::from("Authorization"), String::from("Bearer abc"))]);
    assert_eq!(req.body, "");
    assert_eq!(req.timeout, Timeout::from_secs(5));
}

#[test]
fn both_services_take_timeout_override() {
    let mut env = EnvVars::new();
    env.set("OKAERI_SDK_TIMEOUT", "1234");
    let a = AiCensor::new_with_config("t", None, Some(Timeout::from_secs(1)), &env).unwrap();
    let n = NoProxy::new_with_config("t", None, Some(Timeout::from_secs(1)), &env).unwrap();
    assert_eq!(a.prediction_request("p").timeout, Timeout::from_millis(1234));
    assert_eq!(n.info_request("p").timeout, Timeout::from_millis(1234));
}

#[test]
fn noproxy_env_overrides_base_url() {
    let mut env = EnvVars::new();
    env.set("OKAERI_SDK_NOPROXY_BASE_PATH", "http://localhost:1");
    env.set("OKAERI_SDK_AICENSOR_BASE_PATH", "::");
    let n = NoProxy::new("t", &env).unwrap();
    assert_eq!(n.info_request("::1").url, "http://localhost:1//v1/::1");
    assert!(AiCensor::new("t", &env).is_err());
}

#[test]
fn aicensor() {
    let censor = AiCensor::new("94433c4b-6ae2-479e-a051-731a2ef1919a", &EnvVars::new()).unwrap();
    let req = censor.prediction_request("hehe");
    assert_eq!(
        req.headers,
        vec![(String::from("Token"), String::from("94433c4b-6ae2-479e-a051-731a2ef1919a"))]
    );
    assert_eq!(req.body, "{\"phrase\":\"hehe\"}");
}
