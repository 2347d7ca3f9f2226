//! Agent API authentication and scope checks: the claims of a bearer token,
//! the scopes an agent may hold with their legacy permission aliases, and
//! the decisions that the authentication layers take on a request.

use vstd::prelude::*;
use vstd::string::*;
use crate::text::{has_prefix, owned, push_str, str_equal, strip_prefix};
use crate::response::AgentError;

verus! {

broadcast use vstd::string::group_string_axioms;

/// The claims of an agent's JWT.
#[derive(Debug, Clone)]
pub struct AgentClaims {
    /// User identifier.
    pub sub: String,
    /// User role.
    pub role: Option<String>,
    /// Granted permissions.
    pub permissions: Vec<String>,
    /// Session id.
    pub session_id: Option<String>,
    /// Expiry (Unix seconds).
    pub exp: usize,
    /// Issue time (Unix seconds).
    pub iat: usize,
}

/// A permission scope that an agent endpoint may require.
#[derive(Debug, Clone, Copy, PartialEq, Eq, Structural)]
pub enum AgentScope {
    /// System health check.
    SystemHealth,
    /// Read publications.
    PublicationRead,
    /// Write publications.
    PublicationWrite,
    /// Read articles.
    ArticleRead,
    /// Write articles.
    ArticleWrite,
    /// Read comments.
    CommentRead,
    /// Write comments.
    CommentWrite,
    /// Search.
    Search,
    /// Read notifications.
    NotificationRead,
    /// Send notifications.
    NotificationWrite,
}

/// The scope string of each scope, as listed in the agent API.
pub open spec fn scope_name(s: AgentScope) -> Seq<char> {
    match s {
        AgentScope::SystemHealth => "blog:system:health"@,
        AgentScope::PublicationRead => "blog:publication:read"@,
        AgentScope::PublicationWrite => "blog:publication:write"@,
        AgentScope::ArticleRead => "blog:article:read"@,
        AgentScope::ArticleWrite => "blog:article:write"@,
        AgentScope::CommentRead => "blog:comment:read"@,
        AgentScope::CommentWrite => "blog:comment:write"@,
        AgentScope::Search => "blog:search:read"@,
        AgentScope::NotificationRead => "blog:notification:read"@,
        AgentScope::NotificationWrite => "blog:notification:write"@,
    }
}

/// The legacy permissions that also grant each scope.
pub open spec fn scope_fallbacks(s: AgentScope) -> Seq<Seq<char>> {
    match s {
        AgentScope::SystemHealth => seq![],
        AgentScope::PublicationRead => seq!["publication.read"@, "manage_publications"@],
        AgentScope::PublicationWrite => seq!["publication.write"@, "manage_publications"@],
        AgentScope::ArticleRead => seq!["article.read"@, "article.create"@, "publication.read"@],
        AgentScope::ArticleWrite => seq![
            "article.create"@,
            "article.publish"@,
            "manage_publications"@,
        ],
        AgentScope::CommentRead => seq!["comment.read"@, "comment.write"@],
        AgentScope::CommentWrite => seq!["comment.write"@, "manage_comments"@],
        AgentScope::Search => seq!["search"@, "article.read"@],
        AgentScope::NotificationRead => seq!["notification.read"@],
        AgentScope::NotificationWrite => seq!["notification.write"@, "manage_notifications"@],
    }
}

/// The texts of a list of strings.
pub open spec fn texts(v: Seq<String>) -> Seq<Seq<char>> {
    v.map_values(|s: String| s@)
}

/// The texts of a list of string slices.
pub open spec fn str_texts(v: Seq<&str>) -> Seq<Seq<char>> {
    v.map_values(|s: &str| s@)
}

/// The claims carry the `admin` role.
pub open spec fn is_admin_claims(c: AgentClaims) -> bool {
    c.role matches Some(r) && r@ == "admin"@
}

/// The claims list permission `p`.
pub open spec fn holds_permission(c: AgentClaims, p: Seq<char>) -> bool {
    texts(c.permissions@).contains(p)
}

/// The claims grant `scope`: by the admin role, by the scope string itself,
/// or by one of the scope's legacy permissions.
pub open spec fn grants(c: AgentClaims, scope: AgentScope) -> bool {
    ||| is_admin_claims(c)
    ||| holds_permission(c, scope_name(scope))
    ||| exists|j: int|
        0 <= j < scope_fallbacks(scope).len() && holds_permission(
            c,
            #[trigger] scope_fallbacks(scope)[j],
        )
}

impl AgentScope {
    /// The scope string.
    pub fn as_str(&self) -> (r: &'static str)
        ensures
            r@ == scope_name(*self),
    {
        match self {
            AgentScope::SystemHealth => "blog:system:health",
            AgentScope::PublicationRead => "blog:publication:read",
            AgentScope::PublicationWrite => "blog:publication:write",
            AgentScope::ArticleRead => "blog:article:read",
            AgentScope::ArticleWrite => "blog:article:write",
            AgentScope::CommentRead => "blog:comment:read",
            AgentScope::CommentWrite => "blog:comment:write",
            AgentScope::Search => "blog:search:read",
            AgentScope::NotificationRead => "blog:notification:read",
            AgentScope::NotificationWrite => "blog:notification:write",
        }
    }

    /// The legacy permissions that also grant this scope.
    pub fn legacy_fallbacks(&self) -> (r: &'static [&'static str])
        ensures
            str_texts(r@) == scope_fallbacks(*self),
    {
        let r: &'static [&'static str] = match self {
            AgentScope::SystemHealth => &[],
            AgentScope::PublicationRead => &["publication.read", "manage_publications"],
            AgentScope::PublicationWrite => &["publication.write", "manage_publications"],
            AgentScope::ArticleRead => &["article.read", "article.create", "publication.read"],
            AgentScope::ArticleWrite => &["article.create", "article.publish", "manage_publications"],
            AgentScope::CommentRead => &["comment.read", "comment.write"],
            AgentScope::CommentWrite => &["comment.write", "manage_comments"],
            AgentScope::Search => &["search", "article.read"],
            AgentScope::NotificationRead => &["notification.read"],
            AgentScope::NotificationWrite => &["notification.write", "manage_notifications"],
        };
        assert(str_texts(r@) =~= scope_fallbacks(*self));
        r
    }
}

/// Whether `perms` lists `p`.
fn lists_permission(perms: &Vec<String>, p: &str) -> (r: bool)
    ensures
        r == texts(perms@).contains(p@),
{
    let mut i: usize = 0;
    while i < perms.len()
        invariant
            i <= perms@.len(),
            forall|k: int| 0 <= k < i ==> perms@[k]@ != p@,
        decreases perms@.len() - i,
    {
        if str_equal(perms[i].as_str(), p) {
            assert(texts(perms@)[i as int] == p@);
            return true;
        }
        i = i + 1;
    }
    proof {
        if texts(perms@).contains(p@) {
            let k = choose|k: int| 0 <= k < texts(perms@).len() && texts(perms@)[k] == p@;
            assert(perms@[k]@ == p@);
        }
    }
    false
}

/// Whether the claims grant `scope`: the admin role grants every scope;
/// otherwise the scope string or one of its legacy permissions must be
/// listed.
pub fn has_scope(claims: &AgentClaims, scope: AgentScope) -> (r: bool)
    ensures
        r == grants(*claims, scope),
{
    let is_admin = match &claims.role {
        Some(role) => str_equal(role.as_str(), "admin"),
        None => false,
    };
    if is_admin {
        return true;
    }
    let scope_str = scope.as_str();
    if lists_permission(&claims.permissions, scope_str) {
        return true;
    }
    let fallbacks = scope.legacy_fallbacks();
    let mut j: usize = 0;
    while j < fallbacks.len()
        invariant
            j <= fallbacks@.len(),
            str_texts(fallbacks@) == scope_fallbacks(scope),
            forall|k: int| 0 <= k < j ==> !holds_permission(*claims, scope_fallbacks(scope)[k]),
        decreases fallbacks@.len() - j,
    {
        if lists_permission(&claims.permissions, fallbacks[j]) {
            assert(scope_fallbacks(scope)[j as int] == fallbacks@[j as int]@);
            return true;
        }
        assert(scope_fallbacks(scope)[j as int] == fallbacks@[j as int]@);
        j = j + 1;
    }
    false
}

/// The token of an `Authorization` header value of the form
/// `Bearer <token>`.
pub fn extract_token_from_header(auth_header: &str) -> (r: Option<&str>)
    ensures
        r is Some <==> has_prefix(auth_header@, "Bearer "@),
        r matches Some(t) ==> auth_header@ == "Bearer "@ + t@,
{
    let r = strip_prefix(auth_header, "Bearer ");
    proof {
        if let Some(t) = r {
            assert(auth_header@ =~= "Bearer "@ + t@);
        }
    }
    r
}

/// The token that optional authentication tries to verify: the bearer
/// token of the `Authorization` header, when there is one.
pub fn optional_auth_token(auth_header: Option<&str>) -> (r: Option<&str>)
    ensures
        r is Some <==> (auth_header matches Some(h) && has_prefix(h@, "Bearer "@)),
        r matches Some(t) ==> (auth_header matches Some(h) && h@ == "Bearer "@ + t@),
{
    match auth_header {
        Some(h) => extract_token_from_header(h),
        None => None,
    }
}

/// The message for a missing `Authorization` header.
pub open spec fn missing_header_message() -> Seq<char> {
    "Missing authorization header"@
}

/// The message for an `Authorization` header without a bearer token.
pub open spec fn bad_header_message() -> Seq<char> {
    "Invalid authorization header format, expected 'Bearer <token>'"@
}

/// The message for a token that failed verification.
pub open spec fn invalid_token_message() -> Seq<char> {
    "Invalid or expired token"@
}

/// Required authentication, first step: the bearer token to verify, or the
/// `unauthorized` error that answers the request when the header is missing
/// or malformed.
pub fn require_auth_token(auth_header: Option<&str>) -> (r: Result<&str, AgentError>)
    ensures
        auth_header is None ==> (r matches Err(e) && e.code@ == "unauthorized"@ && e.message@
            == missing_header_message()),
        auth_header matches Some(h) ==> (has_prefix(h@, "Bearer "@) <==> r is Ok),
        auth_header matches Some(h) && !has_prefix(h@, "Bearer "@) ==> (r matches Err(e)
            && e.code@ == "unauthorized"@ && e.message@ == bad_header_message()),
        r matches Ok(t) ==> (auth_header matches Some(h) && h@ == "Bearer "@ + t@),
        r matches Err(e) ==> e.details is None,
{
    match auth_header {
        None => Err(AgentError::new("unauthorized", "Missing authorization header")),
        Some(h) => match extract_token_from_header(h) {
            Some(t) => Ok(t),
            None => Err(
                AgentError::new(
                    "unauthorized",
                    "Invalid authorization header format, expected 'Bearer <token>'",
                ),
            ),
        },
    }
}

/// Required authentication, second step: the claims of a verified token, or
/// the `unauthorized` error when verification failed.
pub fn require_auth_outcome<E>(verified: Result<AgentClaims, E>) -> (r: Result<
    AgentClaims,
    AgentError,
>)
    ensures
        verified matches Ok(c) ==> r == Ok::<AgentClaims, AgentError>(c),
        verified is Err ==> (r matches Err(e) && e.code@ == "unauthorized"@ && e.message@
            == invalid_token_message() && e.details is None),
{
    match verified {
        Ok(c) => Ok(c),
        Err(_) => Err(AgentError::new("unauthorized", "Invalid or expired token")),
    }
}

/// Optional authentication, second step: the claims of a verified token;
/// a request whose token fails verification goes on without claims.
pub fn optional_auth_outcome<E>(verified: Option<Result<AgentClaims, E>>) -> (r: Option<
    AgentClaims,
>)
    ensures
        r is Some <==> (verified matches Some(v) && v is Ok),
        verified matches Some(Ok(c)) ==> r == Some(c),
{
    match verified {
        Some(Ok(c)) => Some(c),
        _ => None,
    }
}

/// The scope check of an endpoint: without claims the request is
/// `unauthorized`; claims that do not grant `scope` are `forbidden`, with
/// the missing scope named in the message.
pub fn require_scope(scope: AgentScope, claims: Option<&AgentClaims>) -> (r: Result<
    (),
    AgentError,
>)
    ensures
        claims is None ==> (r matches Err(e) && e.code@ == "unauthorized"@ && e.message@
            == "Authentication required"@),
        claims matches Some(c) ==> (r is Ok <==> grants(*c, scope)),
        claims matches Some(c) && !grants(*c, scope) ==> (r matches Err(e) && e.code@
            == "forbidden"@ && e.message@ == "Missing required scope: "@ + scope_name(scope)),
        r matches Err(e) ==> e.details is None,
{
    match claims {
        None => Err(AgentError::new("unauthorized", "Authentication required")),
        Some(c) => {
            if has_scope(c, scope) {
                Ok(())
            } else {
                let mut msg = owned("Missing required scope: ");
                push_str(&mut msg, scope.as_str());
                Err(AgentError { code: owned("forbidden"), message: msg, details: None })
            }
        },
    }
}

/// A scope check bound to one scope.
#[derive(Debug, Clone, Copy)]
pub struct ScopeCheck {
    pub scope: AgentScope,
}

impl ScopeCheck {
    pub fn new(scope: AgentScope) -> (r: Self)
        ensures
            r.scope == scope,
    {
        Self { scope }
    }
}

/// The admin role grants every scope.
pub proof fn law_admin_grants_every_scope(c: AgentClaims, scope: AgentScope)
    requires
        is_admin_claims(c),
    ensures
        grants(c, scope),
{
}

/// Listing a scope's own string grants it.
pub proof fn law_scope_string_grants(c: AgentClaims, scope: AgentScope)
    requires
        holds_permission(c, scope_name(scope)),
    ensures
        grants(c, scope),
{
}

/// Granting is monotone in the permissions: claims with the same role and
/// at least the same permissions grant at least the same scopes.
pub proof fn law_grants_monotone(c1: AgentClaims, c2: AgentClaims, scope: AgentScope)
    requires
        grants(c1, scope),
        c1.role == c2.role,
        forall|p: Seq<char>| holds_permission(c1, p) ==> holds_permission(c2, p),
    ensures
        grants(c2, scope),
{
    if !is_admin_claims(c1) && !holds_permission(c1, scope_name(scope)) {
        let j = choose|j: int|
            0 <= j < scope_fallbacks(scope).len() && holds_permission(
                c1,
                #[trigger] scope_fallbacks(scope)[j],
            );
        assert(holds_permission(c2, scope_fallbacks(scope)[j]));
    }
}

/// Claims without the admin role and without permissions grant no scope.
pub proof fn law_no_permissions_no_scope(c: AgentClaims, scope: AgentScope)
    requires
        !is_admin_claims(c),
        c.permissions@.len() == 0,
    ensures
        !grants(c, scope),
{
    assert(texts(c.permissions@).len() == 0);
}

/// Distinct scopes have distinct scope strings.
pub proof fn law_scope_names_distinct(a: AgentScope, b: AgentScope)
    requires
        a != b,
    ensures
        scope_name(a) != scope_name(b),
{
    reveal_strlit("blog:system:health");
    reveal_strlit("blog:publication:read");
    reveal_strlit("blog:publication:write");
    reveal_strlit("blog:article:read");
    reveal_strlit("blog:article:write");
    reveal_strlit("blog:comment:read");
    reveal_strlit("blog:comment:write");
    reveal_strlit("blog:search:read");
    reveal_strlit("blog:notification:read");
    reveal_strlit("blog:notification:write");
    let na = scope_name(a);
    let nb = scope_name(b);
    if na.len() == nb.len() {
        assert(na[5] != nb[5] || na[6] != nb[6] || na[na.len() - 2] != nb[nb.len() - 2]);
    }
}

/// The permissions that grant each scope, listed: the scope string itself
/// and the legacy permissions of the agent API (a read permission grants no
/// write scope).
pub open spec fn listed_grant(c: AgentClaims, s: AgentScope) -> bool {
    match s {
        AgentScope::SystemHealth => holds_permission(c, "blog:system:health"@),
        AgentScope::PublicationRead => holds_permission(c, "blog:publication:read"@) || holds_permission(c, "publication.read"@) || holds_permission(c, "manage_publications"@),
        AgentScope::PublicationWrite => holds_permission(c, "blog:publication:write"@) || holds_permission(c, "publication.write"@) || holds_permission(c, "manage_publications"@),
        AgentScope::ArticleRead => holds_permission(c, "blog:article:read"@) || holds_permission(c, "article.read"@) || holds_permission(c, "article.create"@) || holds_permission(c, "publication.read"@),
        AgentScope::ArticleWrite => holds_permission(c, "blog:article:write"@) || holds_permission(c, "article.create"@) || holds_permission(c, "article.publish"@) || holds_permission(c, "manage_publications"@),
        AgentScope::CommentRead => holds_permission(c, "blog:comment:read"@) || holds_permission(c, "comment.read"@) || holds_permission(c, "comment.write"@),
        AgentScope::CommentWrite => holds_permission(c, "blog:comment:write"@) || holds_permission(c, "comment.write"@) || holds_permission(c, "manage_comments"@),
        AgentScope::Search => holds_permission(c, "blog:search:read"@) || holds_permission(c, "search"@) || holds_permission(c, "article.read"@),
        AgentScope::NotificationRead => holds_permission(c, "blog:notification:read"@) || holds_permission(c, "notification.read"@),
        AgentScope::NotificationWrite => holds_permission(c, "blog:notification:write"@) || holds_permission(c, "notification.write"@) || holds_permission(c, "manage_notifications"@),
    }
}

/// Claims grant a scope exactly when they carry the admin role or list one
/// of the permissions that the agent API gives for it.
pub proof fn law_scope_grants_exactly(c: AgentClaims, s: AgentScope)
    ensures
        grants(c, s) <==> (is_admin_claims(c) || listed_grant(c, s)),
{
    match s {
        AgentScope::SystemHealth => {
            assert(scope_fallbacks(s).len() == 0);
        },
        AgentScope::PublicationRead => {
            assert(scope_fallbacks(s)[0] == "publication.read"@);
            assert(scope_fallbacks(s)[1] == "manage_publications"@);
            assert(scope_fallbacks(s).len() == 2);
        },
        AgentScope::PublicationWrite => {
            assert(scope_fallbacks(s)[0] == "publication.write"@);
            assert(scope_fallbacks(s)[1] == "manage_publications"@);
            assert(scope_fallbacks(s).len() == 2);
        },
        AgentScope::ArticleRead => {
            assert(scope_fallbacks(s)[0] == "article.read"@);
            assert(scope_fallbacks(s)[1] == "article.create"@);
            assert(scope_fallbacks(s)[2] == "publication.read"@);
            assert(scope_fallbacks(s).len() == 3);
        },
        AgentScope::ArticleWrite => {
            assert(scope_fallbacks(s)[0] == "article.create"@);
            assert(scope_fallbacks(s)[1] == "article.publish"@);
            assert(scope_fallbacks(s)[2] == "manage_publications"@);
            assert(scope_fallbacks(s).len() == 3);
        },
        AgentScope::CommentRead => {
            assert(scope_fallbacks(s)[0] == "comment.read"@);
            assert(scope_fallbacks(s)[1] == "comment.write"@);
            assert(scope_fallbacks(s).len() == 2);
        },
        AgentScope::CommentWrite => {
            assert(scope_fallbacks(s)[0] == "comment.write"@);
            assert(scope_fallbacks(s)[1] == "manage_comments"@);
            assert(scope_fallbacks(s).len() == 2);
        },
        AgentScope::Search => {
            assert(scope_fallbacks(s)[0] == "search"@);
            assert(scope_fallbacks(s)[1] == "article.read"@);
            assert(scope_fallbacks(s).len() == 2);
        },
        AgentScope::NotificationRead => {
            assert(scope_fallbacks(s)[0] == "notification.read"@);
            assert(scope_fallbacks(s).len() == 1);
        },
        AgentScope::NotificationWrite => {
            assert(scope_fallbacks(s)[0] == "notification.write"@);
            assert(scope_fallbacks(s)[1] == "manage_notifications"@);
            assert(scope_fallbacks(s).len() == 2);
        },
    }
}

/// An agent whose only permission is `publication.read` may read
/// publications and articles but holds no write scope.
pub proof fn law_read_permission_never_writes(c: AgentClaims)
    requires
        !is_admin_claims(c),
        texts(c.permissions@) == seq!["publication.read"@],
    ensures
        grants(c, AgentScope::PublicationRead),
        grants(c, AgentScope::ArticleRead),
        !grants(c, AgentScope::PublicationWrite),
        !grants(c, AgentScope::ArticleWrite),
        !grants(c, AgentScope::CommentWrite),
        !grants(c, AgentScope::NotificationWrite),
{
    assert forall|p: Seq<char>| holds_permission(c, p) <==> p == "publication.read"@ by {
        if p == "publication.read"@ {
            assert(texts(c.permissions@)[0] == p);
        }
    }
    reveal_strlit("publication.read");
    reveal_strlit("article.create");
    reveal_strlit("article.publish");
    reveal_strlit("blog:article:write");
    reveal_strlit("blog:comment:write");
    reveal_strlit("blog:notification:write");
    reveal_strlit("blog:publication:write");
    reveal_strlit("comment.write");
    reveal_strlit("manage_comments");
    reveal_strlit("manage_notifications");
    reveal_strlit("manage_publications");
    reveal_strlit("notification.write");
    reveal_strlit("publication.write");
    assert("blog:publication:write"@.len() != "publication.read"@.len());
    assert(!holds_permission(c, "blog:publication:write"@));
    assert("publication.write"@.len() != "publication.read"@.len());
    assert(!holds_permission(c, "publication.write"@));
    assert("manage_publications"@.len() != "publication.read"@.len());
    assert(!holds_permission(c, "manage_publications"@));
    assert("blog:article:write"@.len() != "publication.read"@.len());
    assert(!holds_permission(c, "blog:article:write"@));
    assert("article.create"@.len() != "publication.read"@.len());
    assert(!holds_permission(c, "article.create"@));
    assert("article.publish"@.len() != "publication.read"@.len());
    assert(!holds_permission(c, "article.publish"@));
    assert("blog:comment:write"@.len() != "publication.read"@.len());
    assert(!holds_permission(c, "blog:comment:write"@));
    assert("comment.write"@.len() != "publication.read"@.len());
    assert(!holds_permission(c, "comment.write"@));
    assert("manage_comments"@.len() != "publication.read"@.len());
    assert(!holds_permission(c, "manage_comments"@));
    assert("blog:notification:write"@.len() != "publication.read"@.len());
    assert(!holds_permission(c, "blog:notification:write"@));
    assert("notification.write"@.len() != "publication.read"@.len());
    assert(!holds_permission(c, "notification.write"@));
    assert("manage_notifications"@.len() != "publication.read"@.len());
    assert(!holds_permission(c, "manage_notifications"@));
    law_scope_grants_exactly(c, AgentScope::PublicationRead);
    law_scope_grants_exactly(c, AgentScope::ArticleRead);
    law_scope_grants_exactly(c, AgentScope::PublicationWrite);
    law_scope_grants_exactly(c, AgentScope::ArticleWrite);
    law_scope_grants_exactly(c, AgentScope::CommentWrite);
    law_scope_grants_exactly(c, AgentScope::NotificationWrite);
}

} // verus!
