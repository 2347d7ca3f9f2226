use rainbow_blog::auth::AgentClaims;
use rainbow_blog::handlers::{
    article_listing_filters, comment_create_access, default_page, default_per_page,
    default_search_type, health_check, health_response, list_comments_response, plan_search,
    search_results, search_type_for, ListCommentsQuery, SearchQueryParams, SearchResultItem,
    SearchType,
};
use rainbow_blog::response::RequestId;

fn claims_with(perms: &[&str]) -> AgentClaims {
    AgentClaims {
        sub: "u".into(),
        role: None,
        permissions: perms.iter().map(|p| p.to_string()).collect(),
        session_id: None,
        exp: 0,
        iat: 0,
    }
}

fn params(per_page: usize) -> SearchQueryParams {
    SearchQueryParams {
        q: "rust".into(),
        search_type: "article".into(),
        page: 2,
        per_page,
        publication_id: None,
        author_id: None,
        tag: None,
    }
}

#[test]
fn health() {
    let h = health_response("0.1.0");
    assert_eq!(h.status, "ok");
    assert_eq!(h.version, "0.1.0");
    assert_eq!(
        h.capabilities,
        vec![
            "system.health", "publication.list", "publication.get", "article.list",
            "article.get", "search", "comment.list", "comment.create"
        ]
    );
    let r = health_check("1.2.3", Some(RequestId("rid".into())));
    assert!(r.ok);
    assert_eq!(r.request_id, "rid");
    assert_eq!(r.data.unwrap().version, "1.2.3");
}

#[test]
fn query_defaults() {
    assert_eq!(default_search_type(), "all");
    assert_eq!(default_page(), 1);
    assert_eq!(default_per_page(), 20);
}

#[test]
fn search_types() {
    assert_eq!(search_type_for("article"), SearchType::Articles);
    assert_eq!(search_type_for("publication"), SearchType::Publications);
    assert_eq!(search_type_for("all"), SearchType::All);
    assert_eq!(search_type_for("Article"), SearchType::All);
}

#[test]
fn search_permissions() {
    assert!(plan_search(&params(20), None).is_ok());
    assert!(plan_search(&params(20), Some(&claims_with(&["blog:search:read"]))).is_ok());
    assert!(plan_search(&params(20), Some(&claims_with(&["article.read"]))).is_ok());
    let e = plan_search(&params(20), Some(&claims_with(&["comment.read"]))).unwrap_err();
    assert_eq!(e.code, "forbidden");
    assert_eq!(e.message, "Missing required scope: blog:search:read or blog:article:read");
}

#[test]
fn search_paging() {
    let p = plan_search(&params(500), None).unwrap();
    assert_eq!(p.per_page, 100);
    assert_eq!(p.limit, 100);
    assert_eq!(p.page, 2);
    assert_eq!(p.q, "rust");
    assert_eq!(p.search_type, SearchType::Articles);
    assert_eq!(plan_search(&params(7), None).unwrap().per_page, 7);
}

#[test]
fn search_result_order() {
    let r = search_results(vec![1u8, 2], vec!['p']);
    assert_eq!(r.len(), 3);
    assert!(matches!(r[0], SearchResultItem::Article(1)));
    assert!(matches!(r[1], SearchResultItem::Article(2)));
    assert!(matches!(r[2], SearchResultItem::Publication('p')));
}

#[test]
fn article_filters() {
    let (s, p) = article_listing_filters(Some("old".into()), None);
    assert_eq!(s, "published");
    assert_eq!(p.as_deref(), Some("old"));
    let (s, p) = article_listing_filters(Some("old".into()), Some("new".into()));
    assert_eq!(s, "published");
    assert_eq!(p.as_deref(), Some("new"));
    let (_, p) = article_listing_filters(None, None);
    assert_eq!(p, None);
}

#[test]
fn comment_listing() {
    let q = ListCommentsQuery { article_id: "a".into(), page: 3, per_page: 1000 };
    let r = list_comments_response(vec!["c1", "c2"], &q);
    assert_eq!(r.total, 2);
    assert_eq!(r.page, 3);
    assert_eq!(r.per_page, 100);
    assert!(r.comments.is_empty());
}

#[test]
fn comment_listing_pages() {
    let all = vec!["c1", "c2", "c3", "c4", "c5"];
    let page = |page: usize, per_page: usize| {
        let q = ListCommentsQuery { article_id: "a".into(), page, per_page };
        list_comments_response(all.clone(), &q)
    };
    let r = page(1, 2);
    assert_eq!(r.comments, vec!["c1", "c2"]);
    assert_eq!(r.total, 5);
    assert_eq!(page(2, 2).comments, vec!["c3", "c4"]);
    assert_eq!(page(3, 2).comments, vec!["c5"]);
    assert!(page(4, 2).comments.is_empty());
    assert_eq!(page(0, 2).comments, vec!["c1", "c2"]);
    assert_eq!(page(1, 1).comments, vec!["c1"]);
    assert!(page(1, 0).comments.is_empty());
    assert_eq!(page(1, 1000).comments, all);
    assert!(page(usize::MAX, 100).comments.is_empty());
}

#[test]
fn comment_permission() {
    assert!(comment_create_access(&claims_with(&["blog:comment:write"])).is_ok());
    assert!(comment_create_access(&claims_with(&["manage_comments"])).is_ok());
    let e = comment_create_access(&claims_with(&["blog:comment:read"])).unwrap_err();
    assert_eq!(e.code, "forbidden");
    assert_eq!(e.message, "Missing required scope: blog:comment:write");
}
