use rainbow_blog::clock::UtcTime;
use rainbow_blog::listing::{author_info_of, publication_info_of, tag_info_of};
use rainbow_blog::record_id::JsonValue;
use rainbow_blog::response::AppError;
use rainbow_blog::site::{recheck_install, SiteConfigService};
use rainbow_blog::text::parse_usize;
use rainbow_blog::token::{agent_claims_of, check_token, verify_token};

fn s(x: &str) -> JsonValue {
    JsonValue::String(x.to_string())
}

fn n(x: &str) -> JsonValue {
    JsonValue::Number(x.to_string())
}

fn obj(entries: Vec<(&str, JsonValue)>) -> JsonValue {
    JsonValue::Object(entries.into_iter().map(|(k, v)| (k.to_string(), v)).collect())
}

fn payload(exp: &str) -> JsonValue {
    obj(vec![
        ("sub", s("user:1")),
        ("role", JsonValue::Null),
        ("permissions", JsonValue::Array(vec![s("blog:comment:write")])),
        ("exp", n(exp)),
        ("iat", n("1000")),
    ])
}

fn at(secs: i64) -> UtcTime {
    UtcTime { secs, nanos: 0 }
}

fn jwt_message(r: Result<rainbow_blog::auth::AgentClaims, AppError>) -> String {
    match r {
        Err(AppError::Jwt(m)) => m,
        other => panic!("unexpected {:?}", other),
    }
}

fn now_secs() -> u64 {
    std::time::SystemTime::now()
        .duration_since(std::time::UNIX_EPOCH)
        .unwrap()
        .as_secs()
}

fn json(entries: Vec<(&str, serde_json::Value)>) -> serde_json::Value {
    let mut m = serde_json::Map::new();
    for (k, v) in entries {
        m.insert(k.to_string(), v);
    }
    serde_json::Value::Object(m)
}

fn num(x: u64) -> serde_json::Value {
    serde_json::Value::from(x)
}

fn text(x: &str) -> serde_json::Value {
    serde_json::Value::from(x)
}

fn sign(claims: &serde_json::Value, secret: &str) -> String {
    jsonwebtoken::encode(
        &jsonwebtoken::Header::default(),
        claims,
        &jsonwebtoken::EncodingKey::from_secret(secret.as_bytes()),
    )
    .unwrap()
}

#[test]
fn claims_read_from_payloads() {
    let c = agent_claims_of(&payload("2000")).unwrap();
    assert_eq!(c.sub, "user:1");
    assert_eq!(c.role, None);
    assert_eq!(c.permissions, vec!["blog:comment:write".to_string()]);
    assert_eq!(c.session_id, None);
    assert_eq!((c.exp, c.iat), (2000, 1000));

    let minimal = obj(vec![("sub", s("u")), ("exp", n("5")), ("iat", n("1"))]);
    let c = agent_claims_of(&minimal).unwrap();
    assert!(c.permissions.is_empty() && c.role.is_none());

    let with_role = obj(vec![
        ("sub", s("u")),
        ("role", s("admin")),
        ("session_id", s("sess")),
        ("exp", n("5")),
        ("iat", n("1")),
        ("extra", JsonValue::Bool(true)),
    ]);
    let c = agent_claims_of(&with_role).unwrap();
    assert_eq!(c.role.as_deref(), Some("admin"));
    assert_eq!(c.session_id.as_deref(), Some("sess"));

    assert!(agent_claims_of(&obj(vec![("exp", n("5")), ("iat", n("1"))])).is_none());
    assert!(agent_claims_of(&obj(vec![("sub", s("u")), ("iat", n("1"))])).is_none());
    assert!(agent_claims_of(&obj(vec![("sub", s("u")), ("exp", n("1.5")), ("iat", n("1"))])).is_none());
    assert!(agent_claims_of(&obj(vec![("sub", s("u")), ("exp", n("-1")), ("iat", n("1"))])).is_none());
    assert!(agent_claims_of(&obj(vec![("sub", n("7")), ("exp", n("5")), ("iat", n("1"))])).is_none());
    assert!(agent_claims_of(&obj(vec![
        ("sub", s("u")),
        ("role", n("1")),
        ("exp", n("5")),
        ("iat", n("1"))
    ]))
    .is_none());
    assert!(agent_claims_of(&obj(vec![
        ("sub", s("u")),
        ("permissions", JsonValue::Array(vec![s("a"), n("2")])),
        ("exp", n("5")),
        ("iat", n("1"))
    ]))
    .is_none());
    assert!(agent_claims_of(&obj(vec![
        ("sub", s("u")),
        ("permissions", JsonValue::Null),
        ("exp", n("5")),
        ("iat", n("1"))
    ]))
    .is_none());
    assert!(agent_claims_of(&s("not an object")).is_none());
}

#[test]
fn expiry_with_leeway() {
    assert!(check_token(Some(payload("1000")), at(1060)).is_ok());
    assert_eq!(jwt_message(check_token(Some(payload("1000")), at(1061))), "expired token");
    assert_eq!(jwt_message(check_token(None, at(0))), "invalid token");
    assert_eq!(jwt_message(check_token(Some(s("x")), at(0))), "invalid claims");
}

#[test]
fn signed_tokens() {
    let now = now_secs();
    let claims = json(vec![
        ("sub", text("user:9")),
        ("permissions", serde_json::Value::Array(vec![text("blog:search:read")])),
        ("exp", num(now + 3600)),
        ("iat", num(now)),
    ]);
    let token = sign(&claims, "secret");
    let c = verify_token(&token, "secret").unwrap();
    assert_eq!(c.sub, "user:9");
    assert_eq!(c.permissions, vec!["blog:search:read".to_string()]);
    assert_eq!(c.exp, (now + 3600) as usize);

    assert_eq!(jwt_message(verify_token(&token, "other")), "invalid token");
    assert_eq!(jwt_message(verify_token("not.a.token", "secret")), "invalid token");

    let expired = sign(&json(vec![("sub", text("u")), ("exp", num(now - 3600)), ("iat", num(now - 7200))]), "secret");
    assert_eq!(jwt_message(verify_token(&expired, "secret")), "expired token");

    let no_iat = sign(&json(vec![("sub", text("u")), ("exp", num(now + 3600))]), "secret");
    assert_eq!(jwt_message(verify_token(&no_iat, "secret")), "invalid claims");

    let no_exp = sign(&json(vec![("sub", text("u")), ("iat", num(now))]), "secret");
    assert_eq!(jwt_message(verify_token(&no_exp, "secret")), "invalid token");
}

#[test]
fn usize_parsing() {
    assert_eq!(parse_usize("0"), Some(0));
    assert_eq!(parse_usize("1700000000"), Some(1_700_000_000));
    assert_eq!(parse_usize(&usize::MAX.to_string()), Some(usize::MAX));
    assert_eq!(parse_usize("18446744073709551616"), None);
    for bad in ["", "-1", "+1", "1.0", "1e3", " 1"] {
        assert_eq!(parse_usize(bad), None, "{:?}", bad);
    }
}

#[test]
fn install_recheck() {
    let mut svc = SiteConfigService::new(None);
    assert!(recheck_install(&svc).is_ok());
    svc.install("single", "Blog", None, "zh-CN", "a").unwrap();
    match recheck_install(&svc) {
        Err(AppError::BadRequest(m)) => assert_eq!(m, "Site already installed"),
        other => panic!("unexpected {:?}", other),
    }
}

#[test]
fn rows_read_into_list_parts() {
    let a = author_info_of(&obj(vec![
        ("id", s("profile:1")),
        ("username", s("jd")),
        ("avatar_url", JsonValue::Null),
        ("is_verified", JsonValue::Bool(true)),
    ]));
    assert_eq!(a.id, "profile:1");
    assert_eq!(a.username, "jd");
    assert_eq!(a.display_name, "");
    assert!(a.avatar_url.is_none());
    assert!(a.is_verified);
    let p = publication_info_of(&obj(vec![("id", s("publication:1")), ("logo_url", s("l.png"))]));
    assert_eq!(p.id, "publication:1");
    assert_eq!(p.name, "");
    assert_eq!(p.logo_url.as_deref(), Some("l.png"));
    let t = tag_info_of(&obj(vec![("name", s("rust")), ("slug", n("3"))]));
    assert_eq!((t.id.as_str(), t.name.as_str(), t.slug.as_str()), ("", "rust", ""));
}
