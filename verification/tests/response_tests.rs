use rainbow_blog::response::{AgentError, AgentResponse, AppError, RequestId};

fn is_request_id(s: &str) -> bool {
    let Some(rest) = s.strip_prefix("agv1-") else { return false };
    let Some((millis, tag)) = rest.rsplit_once('-') else { return false };
    millis.parse::<i64>().is_ok()
        && tag.len() == 4
        && tag.chars().all(|c| c.is_ascii_hexdigit() && !c.is_ascii_uppercase())
}

#[test]
fn app_errors_map_to_agent_codes() {
    let cases: Vec<(AppError, &str, &str, u16)> = vec![
        (AppError::Authentication("no".into()), "unauthorized", "no", 401),
        (AppError::Authorization("nope".into()), "forbidden", "nope", 403),
        (AppError::NotFound("Article not found".into()), "not_found", "Article not found", 404),
        (AppError::BadRequest("bad".into()), "bad_request", "bad", 400),
        (AppError::Validation("invalid".into()), "bad_request", "invalid", 400),
        (AppError::Conflict("dup".into()), "conflict", "dup", 409),
        (AppError::RateLimitExceeded, "too_many_requests", "Rate limit exceeded", 429),
        (AppError::ServiceUnavailable("down".into()), "service_unavailable", "down", 503),
        (AppError::ExternalService("upstream".into()), "bad_gateway", "upstream", 502),
        (AppError::Internal("x".into()), "internal_error", "Internal server error", 500),
        (AppError::Database("db".into()), "internal_error", "Internal server error", 500),
        (AppError::Jwt("jwt".into()), "internal_error", "Internal server error", 500),
        (AppError::Parse("p".into()), "internal_error", "Internal server error", 500),
    ];
    for (err, code, message, status) in cases {
        let e = AgentError::from_app_error(err);
        assert_eq!(e.code, code);
        assert_eq!(e.message, message);
        assert!(e.details.is_none());
        let r: AgentResponse<()> = AgentResponse::from_error(e, None);
        assert_eq!(r.status_code(), status);
    }
}

#[test]
fn error_codes_map_to_statuses() {
    let table = [
        ("unauthorized", 401),
        ("forbidden", 403),
        ("not_found", 404),
        ("bad_request", 400),
        ("conflict", 409),
        ("too_many_requests", 429),
        ("bad_gateway", 502),
        ("service_unavailable", 503),
        ("internal_error", 500),
        ("something_else", 500),
    ];
    for (code, status) in table {
        assert_eq!(rainbow_blog::response::status_for_error_code(code), status);
        let r: AgentResponse<()> = AgentResponse::error(code, "m");
        assert_eq!(r.status_code(), status);
    }
}

#[test]
fn success_envelope() {
    let r = AgentResponse::success_with_request_id(5u32, Some(RequestId("req-1".to_string())));
    assert!(r.ok);
    assert_eq!(r.data, Some(5));
    assert!(r.error.is_none());
    assert_eq!(r.request_id, "req-1");
    assert_eq!(r.status_code(), 200);
}

#[test]
fn success_without_id_gets_a_generated_one() {
    let r = AgentResponse::success("x");
    assert!(is_request_id(&r.request_id), "{}", r.request_id);
}

#[test]
fn error_envelope() {
    let r: AgentResponse<u8> =
        AgentResponse::error_with_request_id("forbidden", "no", Some(RequestId("r".into())));
    assert!(!r.ok);
    assert!(r.data.is_none());
    let e = r.error.as_ref().unwrap();
    assert_eq!(e.code, "forbidden");
    assert_eq!(e.message, "no");
    assert_eq!(r.request_id, "r");
    assert_eq!(r.status_code(), 403);
}

#[test]
fn error_with_details_keeps_details() {
    let details = serde_json::Value::from("q");
    let r: AgentResponse<u8> = AgentResponse::error_with_details("bad_request", "m", details.clone());
    assert_eq!(r.error.unwrap().details, Some(details));
    assert!(is_request_id(&r.request_id));
}

#[test]
fn request_id_format() {
    assert_eq!(
        rainbow_blog::response::format_request_id(1742350000000, &[0x1a, 0x2b]),
        "agv1-1742350000000-1a2b"
    );
    assert_eq!(rainbow_blog::response::format_request_id(-5, &[0, 0xff]), "agv1--5-00ff");
    assert_eq!(rainbow_blog::response::format_request_id(0, &[9, 10]), "agv1-0-090a");
    assert!(is_request_id(&rainbow_blog::response::generate_request_id()));
}

#[test]
fn not_found_message() {
    match AppError::not_found("Article") {
        AppError::NotFound(m) => assert_eq!(m, "Article not found"),
        other => panic!("unexpected {:?}", other),
    }
}

#[test]
fn envelope_generates_request_ids() {
    let a = AgentResponse::<()>::generate_request_id();
    let b = AgentResponse::<()>::generate_request_id();
    assert!(is_request_id(&a), "{}", a);
    assert!(is_request_id(&b), "{}", b);
}
