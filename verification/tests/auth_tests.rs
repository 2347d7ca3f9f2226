use rainbow_blog::response::AgentResponse;
use rainbow_blog::auth::{
    extract_token_from_header, has_scope, optional_auth_outcome, optional_auth_token,
    require_auth_outcome, require_auth_token, require_scope, AgentClaims, AgentScope, ScopeCheck,
};

fn claims(role: Option<&str>, perms: &[&str]) -> AgentClaims {
    AgentClaims {
        sub: "user:1".to_string(),
        role: role.map(|r| r.to_string()),
        permissions: perms.iter().map(|p| p.to_string()).collect(),
        session_id: None,
        exp: 2_000_000_000,
        iat: 1_000_000_000,
    }
}

const ALL: [AgentScope; 10] = [
    AgentScope::SystemHealth,
    AgentScope::PublicationRead,
    AgentScope::PublicationWrite,
    AgentScope::ArticleRead,
    AgentScope::ArticleWrite,
    AgentScope::CommentRead,
    AgentScope::CommentWrite,
    AgentScope::Search,
    AgentScope::NotificationRead,
    AgentScope::NotificationWrite,
];

#[test]
fn scope_strings_match_the_documented_table() {
    let expected = [
        "blog:system:health",
        "blog:publication:read",
        "blog:publication:write",
        "blog:article:read",
        "blog:article:write",
        "blog:comment:read",
        "blog:comment:write",
        "blog:search:read",
        "blog:notification:read",
        "blog:notification:write",
    ];
    for (scope, name) in ALL.iter().zip(expected.iter()) {
        assert_eq!(scope.as_str(), *name);
    }
}

#[test]
fn scope_strings_are_distinct() {
    for (i, a) in ALL.iter().enumerate() {
        for b in ALL.iter().skip(i + 1) {
            assert_ne!(a.as_str(), b.as_str());
        }
    }
}

#[test]
fn legacy_fallbacks_per_scope() {
    assert!(AgentScope::SystemHealth.legacy_fallbacks().is_empty());
    assert_eq!(
        AgentScope::ArticleRead.legacy_fallbacks(),
        vec!["article.read", "article.create", "publication.read"]
    );
    assert_eq!(AgentScope::Search.legacy_fallbacks(), vec!["search", "article.read"]);
    assert_eq!(
        AgentScope::CommentWrite.legacy_fallbacks(),
        vec!["comment.write", "manage_comments"]
    );
    assert_eq!(
        AgentScope::NotificationWrite.legacy_fallbacks(),
        vec!["notification.write", "manage_notifications"]
    );
}

#[test]
fn admin_role_grants_every_scope() {
    let c = claims(Some("admin"), &[]);
    for scope in ALL.iter() {
        assert!(has_scope(&c, *scope));
    }
}

#[test]
fn other_roles_grant_nothing_by_themselves() {
    let c = claims(Some("editor"), &[]);
    for scope in ALL.iter() {
        assert!(!has_scope(&c, *scope));
    }
    let c = claims(Some("Admin"), &[]);
    assert!(!has_scope(&c, AgentScope::Search));
}

#[test]
fn scope_string_grants_its_scope_only() {
    let c = claims(None, &["blog:comment:write"]);
    assert!(has_scope(&c, AgentScope::CommentWrite));
    assert!(!has_scope(&c, AgentScope::CommentRead));
    assert!(!has_scope(&c, AgentScope::ArticleRead));
}

#[test]
fn legacy_permission_grants_scope() {
    let c = claims(None, &["manage_publications"]);
    assert!(has_scope(&c, AgentScope::PublicationRead));
    assert!(has_scope(&c, AgentScope::PublicationWrite));
    assert!(has_scope(&c, AgentScope::ArticleWrite));
    assert!(!has_scope(&c, AgentScope::ArticleRead));
    let c = claims(None, &["comment.write"]);
    assert!(has_scope(&c, AgentScope::CommentRead));
    assert!(has_scope(&c, AgentScope::CommentWrite));
}

#[test]
fn more_permissions_never_remove_a_scope() {
    let small = claims(None, &["article.read"]);
    let big = claims(None, &["article.read", "notification.read"]);
    for scope in ALL.iter() {
        if has_scope(&small, *scope) {
            assert!(has_scope(&big, *scope));
        }
    }
}

#[test]
fn bearer_token_is_extracted() {
    assert_eq!(extract_token_from_header("Bearer abc.def"), Some("abc.def"));
    assert_eq!(extract_token_from_header("Bearer "), Some(""));
    assert_eq!(extract_token_from_header("bearer abc"), None);
    assert_eq!(extract_token_from_header("Basic abc"), None);
    assert_eq!(extract_token_from_header("Bearer"), None);
    assert_eq!(extract_token_from_header(""), None);
}

#[test]
fn bearer_round_trip() {
    let token = "eyJhbGciOiJIUzI1NiJ9.e30.sig";
    let header = format!("Bearer {}", token);
    assert_eq!(extract_token_from_header(&header), Some(token));
}

#[test]
fn optional_auth_takes_only_bearer_tokens() {
    assert_eq!(optional_auth_token(None), None);
    assert_eq!(optional_auth_token(Some("Bearer t")), Some("t"));
    assert_eq!(optional_auth_token(Some("Token t")), None);
}

#[test]
fn required_auth_errors() {
    let e = require_auth_token(None).unwrap_err();
    assert_eq!(e.code, "unauthorized");
    assert_eq!(e.message, "Missing authorization header");
    let e = require_auth_token(Some("Token x")).unwrap_err();
    assert_eq!(e.code, "unauthorized");
    assert_eq!(
        e.message,
        "Invalid authorization header format, expected 'Bearer <token>'"
    );
    assert_eq!(require_auth_token(Some("Bearer x")).unwrap(), "x");
}

#[test]
fn failed_verification_is_unauthorized() {
    let e = require_auth_outcome::<()>(Err(())).unwrap_err();
    assert_eq!(e.code, "unauthorized");
    assert_eq!(e.message, "Invalid or expired token");
    let c = require_auth_outcome::<()>(Ok(claims(None, &[]))).unwrap();
    assert_eq!(c.sub, "user:1");
}

#[test]
fn optional_verification_drops_bad_tokens() {
    assert!(optional_auth_outcome::<()>(None).is_none());
    assert!(optional_auth_outcome::<()>(Some(Err(()))).is_none());
    assert!(optional_auth_outcome::<()>(Some(Ok(claims(None, &[])))).is_some());
}

#[test]
fn scope_check_answers() {
    let e = require_scope(AgentScope::ArticleRead, None).unwrap_err();
    assert_eq!(e.code, "unauthorized");
    assert_eq!(e.message, "Authentication required");
    let c = claims(None, &["search"]);
    let e = require_scope(AgentScope::ArticleRead, Some(&c)).unwrap_err();
    assert_eq!(e.code, "forbidden");
    assert_eq!(e.message, "Missing required scope: blog:article:read");
    assert!(require_scope(AgentScope::Search, Some(&c)).is_ok());
}

#[test]
fn scope_check_keeps_its_scope() {
    assert_eq!(ScopeCheck::new(AgentScope::Search).scope, AgentScope::Search);
}

#[test]
fn refused_requests_are_answered_401_or_403() {
    let status = |e| AgentResponse::<()>::from_error(e, None).status_code();
    assert_eq!(status(require_auth_token(None).unwrap_err()), 401);
    assert_eq!(status(require_auth_token(Some("Token abc")).unwrap_err()), 401);
    assert_eq!(status(require_auth_outcome::<()>(Err(())).unwrap_err()), 401);
    assert_eq!(status(require_scope(AgentScope::CommentWrite, None).unwrap_err()), 401);
    let reader = claims(None, &["blog:article:read"]);
    assert_eq!(status(require_scope(AgentScope::CommentWrite, Some(&reader)).unwrap_err()), 403);
}
