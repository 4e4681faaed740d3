use paraphrase_gateway::config::{ConfigError, ServiceConfig};
use paraphrase_gateway::gateway::{begin, build_prompt, finish, health, upstream_url, ParaphraseRequest, Step};
use paraphrase_gateway::json::{error_body, request_body, success_body};
use paraphrase_gateway::text::{is_blank, parse_port};
use paraphrase_gateway::upstream::{
    interpret_outcome, interpret_response, ApiError, Candidate, GatewayError, GenerationResponse,
    UpstreamOutcome,
};

const PREFIX: &str = "Paraphrase the following text while preserving its meaning and tone. Do not add any additional text, explanations, or formatting \u{2014} just return the paraphrased version:\n\n";

fn config() -> ServiceConfig {
    ServiceConfig { api_key: "k123".to_string(), host: "127.0.0.1".to_string(), port: 8080 }
}

fn request(text: &str) -> ParaphraseRequest {
    ParaphraseRequest { text: text.to_string() }
}

fn answer(texts: &[&str]) -> GenerationResponse {
    GenerationResponse {
        candidates: vec![Candidate { parts: texts.iter().map(|t| t.to_string()).collect() }],
        error: None,
    }
}

fn api_error(message: Option<&str>) -> GenerationResponse {
    GenerationResponse {
        candidates: vec![],
        error: Some(ApiError {
            code: Some(429),
            message: message.map(|m| m.to_string()),
            status: Some("RESOURCE_EXHAUSTED".to_string()),
        }),
    }
}

#[test]
fn success_returns_first_part_verbatim() {
    let r = finish(&UpstreamOutcome::Parsed(answer(&["  A new wording.\n", "second"])));
    assert_eq!(r.status, 200);
    assert!(r.json);
    assert_eq!(r.body, "{\"paraphrased\":\"  A new wording.\\n\"}");
}

#[test]
fn success_uses_first_candidate_only() {
    let resp = GenerationResponse {
        candidates: vec![
            Candidate { parts: vec!["one".to_string()] },
            Candidate { parts: vec!["two".to_string()] },
        ],
        error: None,
    };
    assert_eq!(interpret_response(&resp).ok(), Some("one".to_string()));
}

#[test]
fn empty_text_rejected_without_call() {
    for text in ["", " ", "\t\n  \r", "\u{3000}\u{a0}\u{2009}"] {
        match begin(&config(), &request(text)) {
            Step::Respond(r) => {
                assert_eq!(r.status, 400);
                assert_eq!(r.body, "{\"error\":\"Text cannot be empty\"}");
            }
            Step::Call(_) => panic!("the service must not be called for {:?}", text),
        }
    }
}

#[test]
fn missing_key_reported_per_request() {
    let c = ServiceConfig { api_key: String::new(), host: "h".to_string(), port: 1 };
    match begin(&c, &request("hello")) {
        Step::Respond(r) => {
            assert_eq!(r.status, 500);
            assert_eq!(r.body, "{\"error\":\"API key not configured\"}");
        }
        Step::Call(_) => panic!("no call without a key"),
    }
}

#[test]
fn non_blank_text_calls_service_with_prompt() {
    match begin(&config(), &request(" Say \"hi\" ")) {
        Step::Call(c) => {
            assert_eq!(
                c.url,
                "https://generativelanguage.googleapis.com/v1beta/models/gemini-2.0-flash:generateContent?key=k123"
            );
            let expected = format!(
                "{{\"contents\":[{{\"parts\":[{{\"text\":{}}}]}}]}}",
                serde_json::to_string(&format!("{} Say \"hi\" ", PREFIX)).unwrap()
            );
            assert_eq!(c.body, expected);
            assert!(c.body.contains("\\n\\n Say \\\"hi\\\" \""));
        }
        Step::Respond(_) => panic!("expected a call"),
    }
}

#[test]
fn prompt_embeds_text_verbatim() {
    assert_eq!(build_prompt("abc"), format!("{}abc", PREFIX));
    assert_eq!(build_prompt(""), PREFIX.to_string());
}

#[test]
fn upstream_url_carries_key() {
    assert!(upstream_url(&config()).ends_with(":generateContent?key=k123"));
}

#[test]
fn quota_exceeded_reported() {
    let r = finish(&UpstreamOutcome::Parsed(api_error(Some("quota exceeded"))));
    assert_eq!(r.status, 500);
    assert_eq!(r.body, "{\"error\":\"Failed to paraphrase text: quota exceeded\"}");
}

#[test]
fn api_error_without_message_is_unknown() {
    let r = finish(&UpstreamOutcome::Parsed(api_error(None)));
    assert_eq!(r.status, 500);
    assert_eq!(r.body, "{\"error\":\"Failed to paraphrase text: Unknown API error\"}");
}

#[test]
fn api_error_wins_over_candidates() {
    let mut resp = api_error(Some("bad"));
    resp.candidates = vec![Candidate { parts: vec!["text".to_string()] }];
    assert!(matches!(interpret_response(&resp), Err(GatewayError::UpstreamApi(m)) if m == "bad"));
}

#[test]
fn no_candidates_is_empty_response() {
    let r = finish(&UpstreamOutcome::Parsed(GenerationResponse { candidates: vec![], error: None }));
    assert_eq!(r.status, 500);
    assert_eq!(
        r.body,
        "{\"error\":\"Failed to paraphrase text: No valid response content from upstream API\"}"
    );
}

#[test]
fn candidate_without_parts_is_empty_response() {
    let resp = GenerationResponse { candidates: vec![Candidate { parts: vec![] }], error: None };
    assert!(matches!(interpret_response(&resp), Err(GatewayError::EmptyUpstreamResponse)));
}

#[test]
fn non_json_reply_is_parse_error() {
    let raw = "<html>upstream says no</html>";
    let err = serde_json::from_str::<serde_json::Value>(raw).unwrap_err();
    let r = finish(&UpstreamOutcome::Unparsable(err.to_string()));
    assert_eq!(r.status, 500);
    assert!(r.body.starts_with("{\"error\":\"Failed to paraphrase text: Failed to parse API response: "));
    assert!(!r.body.contains("upstream says"));
}

#[test]
fn transport_failure_is_unavailable() {
    let o = UpstreamOutcome::Unreachable("connection refused".to_string());
    assert!(matches!(interpret_outcome(&o), Err(GatewayError::UpstreamUnavailable(d)) if d == "connection refused"));
    let r = finish(&o);
    assert_eq!(r.status, 500);
    assert_eq!(r.body, "{\"error\":\"Failed to paraphrase text: connection refused\"}");
}

#[test]
fn error_statuses_and_messages() {
    assert_eq!(GatewayError::Validation.status(), 400);
    assert_eq!(GatewayError::Configuration.status(), 500);
    assert_eq!(GatewayError::EmptyUpstreamResponse.status(), 500);
    assert_eq!(GatewayError::UpstreamParse("x".to_string()).message(), "Failed to paraphrase text: Failed to parse API response: x");
    assert_eq!(GatewayError::UpstreamApi("y".to_string()).status(), 500);
}

#[test]
fn health_is_always_ok() {
    let r = health();
    assert_eq!(r.status, 200);
    assert_eq!(r.body, "Healthy");
    assert!(!r.json);
}

#[test]
fn distinct_requests_get_their_own_answers() {
    let texts = ["first text", "second text", "third text"];
    let answers = ["uno", "dos", "tres"];
    let steps: Vec<Step> = texts.iter().map(|t| begin(&config(), &request(t))).collect();
    let mut bodies = Vec::new();
    for s in &steps {
        match s {
            Step::Call(c) => bodies.push(c.body.clone()),
            Step::Respond(_) => panic!("expected a call"),
        }
    }
    assert_ne!(bodies[0], bodies[1]);
    assert_ne!(bodies[1], bodies[2]);
    for i in (0..3).rev() {
        let r = finish(&UpstreamOutcome::Parsed(answer(&[answers[i]])));
        assert_eq!(r.body, format!("{{\"paraphrased\":\"{}\"}}", answers[i]));
    }
}

#[test]
fn bodies_escape_text() {
    assert_eq!(success_body("a\"b\\c"), "{\"paraphrased\":\"a\\\"b\\\\c\"}");
    assert_eq!(error_body("line\nbreak"), "{\"error\":\"line\\nbreak\"}");
    assert_eq!(request_body("x"), "{\"contents\":[{\"parts\":[{\"text\":\"x\"}]}]}");
}

#[test]
fn blank_detection() {
    assert!(is_blank(""));
    assert!(is_blank(" \t\n\u{85}\u{2028}"));
    assert!(!is_blank(" a "));
    assert!(!is_blank("\u{200b}"));
}

#[test]
fn port_parsing() {
    assert_eq!(parse_port("8080"), Some(8080));
    assert_eq!(parse_port("+80"), Some(80));
    assert_eq!(parse_port("0"), Some(0));
    assert_eq!(parse_port("007"), Some(7));
    assert_eq!(parse_port("65535"), Some(65535));
    assert_eq!(parse_port("65536"), None);
    assert_eq!(parse_port("99999999999999999999"), None);
    assert_eq!(parse_port(""), None);
    assert_eq!(parse_port("+"), None);
    assert_eq!(parse_port("-1"), None);
    assert_eq!(parse_port("80a"), None);
    assert_eq!(parse_port(" 80"), None);
}

#[test]
fn config_defaults_and_errors() {
    let c = ServiceConfig::resolve(Some("key".to_string()), None, None).ok().unwrap();
    assert_eq!(c.api_key, "key");
    assert_eq!(c.host, "127.0.0.1");
    assert_eq!(c.port, 8080);
    let c = ServiceConfig::resolve(Some("key".to_string()), Some("0.0.0.0".to_string()), Some("9000".to_string())).ok().unwrap();
    assert_eq!(c.host, "0.0.0.0");
    assert_eq!(c.port, 9000);
    assert!(matches!(ServiceConfig::resolve(None, None, None), Err(ConfigError::MissingApiKey)));
    assert!(matches!(ServiceConfig::resolve(Some(String::new()), None, None), Err(ConfigError::MissingApiKey)));
    assert!(matches!(ServiceConfig::resolve(Some("k".to_string()), None, Some("port".to_string())), Err(ConfigError::InvalidPort)));
}
