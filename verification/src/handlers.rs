//! The decisions of the agent API handlers: the health answer, the query
//! defaults, the search permission and paging, the article listing filters,
//! the comment permission and listing, and the response bodies.

use vstd::prelude::*;
use vstd::string::*;
use crate::text::owned;
use crate::auth::{grants, has_scope, AgentClaims, AgentScope};
use crate::response::{is_generated_request_id, AgentError, AgentResponse, RequestId};
use crate::listing::{
    article_hit_item, is_article_hit_item, is_publication_hit_item, publication_hit_item,
    ArticleHit, ArticleListItem, PublicationHit, PublicationListItem,
};

verus! {

broadcast use vstd::string::group_string_axioms;

/// The answer of the health check.
#[derive(Debug)]
pub struct HealthResponse {
    pub status: String,
    pub version: String,
    pub capabilities: Vec<String>,
}

/// The capabilities that the agent API offers.
pub open spec fn capability_names() -> Seq<Seq<char>> {
    seq![
        "system.health"@,
        "publication.list"@,
        "publication.get"@,
        "article.list"@,
        "article.get"@,
        "search"@,
        "comment.list"@,
        "comment.create"@,
    ]
}

/// The texts of a list of strings.
pub open spec fn string_texts(v: Seq<String>) -> Seq<Seq<char>> {
    v.map_values(|s: String| s@)
}

/// The health answer of a server of the given version: status `ok` and the
/// offered capabilities.
pub fn health_response(version: &str) -> (r: HealthResponse)
    ensures
        r.status@ == "ok"@,
        r.version@ == version@,
        string_texts(r.capabilities@) == capability_names(),
{
    let capabilities = vec![
        owned("system.health"),
        owned("publication.list"),
        owned("publication.get"),
        owned("article.list"),
        owned("article.get"),
        owned("search"),
        owned("comment.list"),
        owned("comment.create"),
    ];
    assert(string_texts(capabilities@) =~= capability_names());
    HealthResponse { status: owned("ok"), version: owned(version), capabilities }
}

/// The health check: the health answer in a successful envelope.
pub fn health_check(version: &str, request_id: Option<RequestId>) -> (r: AgentResponse<
    HealthResponse,
>)
    ensures
        r.ok,
        r.error is None,
        r.data matches Some(h) && h.status@ == "ok"@ && h.version@ == version@ && string_texts(
            h.capabilities@,
        ) == capability_names(),
        request_id matches Some(id) ==> r.request_id@ == id.0@,
        request_id is None ==> is_generated_request_id(r.request_id@),
{
    AgentResponse::success_with_request_id(health_response(version), request_id)
}

/// The search type when none is given.
pub fn default_search_type() -> (r: String)
    ensures
        r@ == "all"@,
{
    owned("all")
}

/// The page when none is given.
pub fn default_page() -> (r: usize)
    ensures
        r == 1,
{
    1
}

/// The page size when none is given.
pub fn default_per_page() -> (r: usize)
    ensures
        r == 20,
{
    20
}

/// The query of the publication listing.
#[derive(Debug)]
pub struct ListPublicationsQuery<Q> {
    pub query: Q,
}

/// The answer of the publication listing.
#[derive(Debug)]
pub struct ListPublicationsResponse<P> {
    pub publications: Vec<P>,
    pub total: i64,
    pub page: usize,
    pub per_page: usize,
}

/// The query of the article listing.
#[derive(Debug)]
pub struct ListArticlesQuery<Q> {
    pub query: Q,
    /// Restricts the listing to one publication.
    pub publication_id: Option<String>,
}

/// The answer of the article listing.
#[derive(Debug)]
pub struct ListArticlesResponse<A> {
    pub articles: Vec<A>,
    pub total: i64,
    pub page: usize,
    pub per_page: usize,
}

/// The status and publication filters of an agent's article listing: the
/// agent API lists published articles only, whatever status the query
/// asks for; the publication is `publication_id` when one is given, the
/// query's own publication filter otherwise.
pub fn article_listing_filters(publication: Option<String>, publication_id: Option<String>) -> (r: (
    String,
    Option<String>,
))
    ensures
        r.0@ == "published"@,
        publication_id matches Some(p) ==> r.1 == Some(p),
        publication_id is None ==> r.1 == publication,
{
    let p = match publication_id {
        Some(p) => Some(p),
        None => publication,
    };
    (owned("published"), p)
}

/// The parameters of a search.
#[derive(Debug)]
pub struct SearchQueryParams {
    /// The search words.
    pub q: String,
    /// `article`, `publication` or `all`.
    pub search_type: String,
    pub page: usize,
    pub per_page: usize,
    pub publication_id: Option<String>,
    pub author_id: Option<String>,
    pub tag: Option<String>,
}

/// What a search looks for.
#[derive(Debug, Clone, Copy, PartialEq, Eq, Structural)]
pub enum SearchType {
    Articles,
    Publications,
    All,
}

/// The search type of a `type` parameter: `article`, `publication`, and
/// everything else means all.
pub open spec fn search_type_of(t: Seq<char>) -> SearchType {
    if t == "article"@ {
        SearchType::Articles
    } else if t == "publication"@ {
        SearchType::Publications
    } else {
        SearchType::All
    }
}

pub fn search_type_for(t: &str) -> (r: SearchType)
    ensures
        r == search_type_of(t@),
{
    if crate::text::str_equal(t, "article") {
        SearchType::Articles
    } else if crate::text::str_equal(t, "publication") {
        SearchType::Publications
    } else {
        SearchType::All
    }
}

/// The search the search service runs.
#[derive(Debug)]
pub struct SearchPlan {
    pub q: String,
    pub search_type: SearchType,
    /// The requested page, as the search service takes it.
    pub page: i32,
    /// The page size, as the search service takes it.
    pub limit: i32,
    /// The page size, capped at 100.
    pub per_page: usize,
}

/// An agent may search without claims; with claims it needs the search or
/// the article-read scope.
pub open spec fn may_search(claims: Option<AgentClaims>) -> bool {
    match claims {
        None => true,
        Some(c) => grants(c, AgentScope::Search) || grants(c, AgentScope::ArticleRead),
    }
}

/// The message that refuses a search.
pub open spec fn search_forbidden_message() -> Seq<char> {
    "Missing required scope: blog:search:read or blog:article:read"@
}

/// Plans a search: `forbidden` when the claims grant neither search nor
/// article reading; otherwise the search words, the search type, the page
/// and the page size capped at 100.
pub fn plan_search(params: &SearchQueryParams, claims: Option<&AgentClaims>) -> (r: Result<
    SearchPlan,
    AgentError,
>)
    ensures
        !may_search(
            match claims {
                Some(c) => Some(*c),
                None => None,
            },
        ) ==> (r matches Err(e) && e.code@ == "forbidden"@ && e.message@
            == search_forbidden_message() && e.details is None),
        may_search(
            match claims {
                Some(c) => Some(*c),
                None => None,
            },
        ) ==> (r matches Ok(p) && p.q@ == params.q@ && p.search_type == search_type_of(
            params.search_type@,
        ) && p.per_page == if params.per_page < 100 {
            params.per_page
        } else {
            100
        } && p.page == params.page as i32 && p.limit == p.per_page as i32),
{
    if let Some(c) = claims {
        if !has_scope(c, AgentScope::Search) {
            if !has_scope(c, AgentScope::ArticleRead) {
                return Err(
                    AgentError::new(
                        "forbidden",
                        "Missing required scope: blog:search:read or blog:article:read",
                    ),
                );
            }
        }
    }
    let per_page: usize = if params.per_page < 100 {
        params.per_page
    } else {
        100
    };
    Ok(
        SearchPlan {
            q: params.q.clone(),
            search_type: search_type_for(params.search_type.as_str()),
            page: params.page as i32,
            limit: per_page as i32,
            per_page,
        },
    )
}

/// One result of a search.
#[derive(Debug)]
pub enum SearchResultItem<A, P> {
    Article(A),
    Publication(P),
}

/// The answer of a search.
#[derive(Debug)]
pub struct SearchResponse<A, P> {
    pub results: Vec<SearchResultItem<A, P>>,
    pub total: i64,
    pub page: usize,
    pub per_page: usize,
    pub query: String,
}

/// The results of a search: the articles found, then the publications
/// found, each in the order the search service gave them.
pub fn search_results<A, P>(articles: Vec<A>, publications: Vec<P>) -> (r: Vec<
    SearchResultItem<A, P>,
>)
    ensures
        r@.len() == articles@.len() + publications@.len(),
        forall|i: int|
            0 <= i < articles@.len() ==> (#[trigger] r@[i]) == SearchResultItem::<A, P>::Article(
                articles@[i],
            ),
        forall|i: int|
            0 <= i < publications@.len() ==> r@[articles@.len() + i]
                == SearchResultItem::<A, P>::Publication(publications@[i]),
{
    let ghost a0 = articles@;
    let ghost p0 = publications@;
    let mut out: Vec<SearchResultItem<A, P>> = Vec::new();
    let mut a = articles;
    let ghost mut taken: int = 0;
    while a.len() > 0
        invariant
            0 <= taken,
            taken + a@.len() == a0.len(),
            a@ == a0.skip(taken),
            out@.len() == taken,
            forall|i: int|
                0 <= i < taken ==> (#[trigger] out@[i]) == SearchResultItem::<A, P>::Article(a0[i]),
        decreases a@.len(),
    {
        let x = a.remove(0);
        assert(a0.skip(taken)[0] == a0[taken]);
        assert(a@ =~= a0.skip(taken + 1));
        out.push(SearchResultItem::Article(x));
        proof {
            taken = taken + 1;
        }
    }
    let mut p = publications;
    let ghost mut ptaken: int = 0;
    while p.len() > 0
        invariant
            0 <= ptaken,
            ptaken + p@.len() == p0.len(),
            p@ == p0.skip(ptaken),
            out@.len() == a0.len() + ptaken,
            forall|i: int|
                0 <= i < a0.len() ==> (#[trigger] out@[i]) == SearchResultItem::<A, P>::Article(a0[i]),
            forall|i: int|
                0 <= i < ptaken ==> out@[a0.len() + i] == SearchResultItem::<A, P>::Publication(
                    p0[i],
                ),
        decreases p@.len(),
    {
        let x = p.remove(0);
        assert(p0.skip(ptaken)[0] == p0[ptaken]);
        assert(p@ =~= p0.skip(ptaken + 1));
        out.push(SearchResultItem::Publication(x));
        proof {
            ptaken = ptaken + 1;
        }
    }
    out
}

/// `item` is the search result of the article hit `h`.
pub open spec fn is_article_result(h: ArticleHit, item: SearchResultItem<ArticleListItem, PublicationListItem>) -> bool {
    item matches SearchResultItem::Article(x) && is_article_hit_item(h, x)
}

/// `item` is the search result of the publication hit `h`.
pub open spec fn is_publication_result(
    h: PublicationHit,
    item: SearchResultItem<ArticleListItem, PublicationListItem>,
) -> bool {
    item matches SearchResultItem::Publication(x) && is_publication_hit_item(h, x)
}

/// The results of a search, from the service's hits: the list item of each
/// article hit, then the list item of each publication hit, each in the
/// order the search service gave them.
pub fn search_hit_results(articles: Vec<ArticleHit>, publications: Vec<PublicationHit>) -> (r: Vec<
    SearchResultItem<ArticleListItem, PublicationListItem>,
>)
    ensures
        r@.len() == articles@.len() + publications@.len(),
        forall|i: int|
            0 <= i < articles@.len() ==> is_article_result(articles@[i], #[trigger] r@[i]),
        forall|i: int|
            0 <= i < publications@.len() ==> is_publication_result(
                #[trigger] publications@[i],
                r@[articles@.len() + i],
            ),
{
    let ghost a0 = articles@;
    let ghost p0 = publications@;
    let mut items: Vec<ArticleListItem> = Vec::new();
    let mut rest = articles;
    let ghost mut taken: int = 0;
    while rest.len() > 0
        invariant
            0 <= taken,
            taken + rest@.len() == a0.len(),
            rest@ == a0.skip(taken),
            items@.len() == taken,
            forall|i: int| 0 <= i < taken ==> is_article_hit_item(a0[i], #[trigger] items@[i]),
        decreases rest@.len(),
    {
        let h = rest.remove(0);
        assert(a0.skip(taken)[0] == a0[taken]);
        assert(rest@ =~= a0.skip(taken + 1));
        items.push(article_hit_item(h));
        proof {
            taken = taken + 1;
        }
    }
    let mut pubs: Vec<PublicationListItem> = Vec::new();
    let mut prest = publications;
    let ghost mut ptaken: int = 0;
    while prest.len() > 0
        invariant
            0 <= ptaken,
            ptaken + prest@.len() == p0.len(),
            prest@ == p0.skip(ptaken),
            pubs@.len() == ptaken,
            forall|i: int| 0 <= i < ptaken ==> is_publication_hit_item(p0[i], #[trigger] pubs@[i]),
        decreases prest@.len(),
    {
        let h = prest.remove(0);
        assert(p0.skip(ptaken)[0] == p0[ptaken]);
        assert(prest@ =~= p0.skip(ptaken + 1));
        pubs.push(publication_hit_item(h));
        proof {
            ptaken = ptaken + 1;
        }
    }
    let ghost ai = items@;
    let ghost pi = pubs@;
    let r = search_results(items, pubs);
    assert(ai.len() == a0.len());
    assert forall|i: int| 0 <= i < a0.len() implies is_article_result(a0[i], #[trigger] r@[i]) by {
        assert(r@[i] == SearchResultItem::<ArticleListItem, PublicationListItem>::Article(ai[i]));
    }
    assert forall|i: int| 0 <= i < p0.len() implies is_publication_result(
        #[trigger] p0[i],
        r@[a0.len() + i],
    ) by {
        let j = ai.len() + i;
        assert(r@[j] == SearchResultItem::<ArticleListItem, PublicationListItem>::Publication(pi[i]));
        assert(is_publication_hit_item(p0[i], pi[i]));
        assert(j == a0.len() + i);
    }
    r
}

/// The query of the comment listing.
#[derive(Debug)]
pub struct ListCommentsQuery {
    pub article_id: String,
    pub page: usize,
    pub per_page: usize,
}

/// The answer of the comment listing.
#[derive(Debug)]
pub struct ListCommentsResponse<C> {
    pub comments: Vec<C>,
    pub total: i64,
    pub page: usize,
    pub per_page: usize,
}

/// The page size of a listing: the requested size, at most 100.
pub open spec fn capped_per_page(per_page: usize) -> usize {
    if per_page < 100 {
        per_page
    } else {
        100
    }
}

/// The positions `[lo, hi)` of page `page` (pages count from 1; page 0 is
/// read as page 1) of `per_page` items in a list of `len` items.
pub open spec fn page_bounds(len: int, page: int, per_page: int) -> (int, int) {
    let p = if page > 1 {
        page
    } else {
        1
    };
    let start = (p - 1) * per_page;
    let lo = if start < len {
        start
    } else {
        len
    };
    let hi = if start + per_page < len {
        start + per_page
    } else {
        len
    };
    (lo, hi)
}

/// The comment listing: the requested page of the article's comments (at
/// most 100 per page), the number of all its comments as the total, the
/// requested page number and the page size.
pub fn list_comments_response<C>(comments: Vec<C>, query: &ListCommentsQuery) -> (r:
    ListCommentsResponse<C>)
    ensures
        r.comments@ == comments@.subrange(
            page_bounds(comments@.len() as int, query.page as int, capped_per_page(query.per_page) as int).0,
            page_bounds(comments@.len() as int, query.page as int, capped_per_page(query.per_page) as int).1,
        ),
        r.total == comments@.len() as i64,
        r.page == query.page,
        r.per_page == capped_per_page(query.per_page),
{
    let total = comments.len() as i64;
    let per_page: usize = if query.per_page < 100 {
        query.per_page
    } else {
        100
    };
    let len = comments.len();
    let p: u128 = if query.page > 1 {
        query.page as u128
    } else {
        1
    };
    let ppw: u128 = per_page as u128;
    assert((p - 1) * ppw <= 0x1_0000_0000_0000_0000 * 100) by (nonlinear_arith)
        requires
            0 <= p - 1 <= 0x1_0000_0000_0000_0000,
            0 <= ppw <= 100,
    ;
    assert((p - 1) * ppw >= 0) by (nonlinear_arith)
        requires
            0 <= p - 1,
            0 <= ppw,
    ;
    let start: u128 = (p - 1) * ppw;
    let lo: usize = if start < len as u128 {
        start as usize
    } else {
        len
    };
    let hi: usize = if start + ppw < len as u128 {
        (start + ppw) as usize
    } else {
        len
    };
    let mut v = comments;
    v.truncate(hi);
    let page_items = v.split_off(lo);
    ListCommentsResponse { comments: page_items, total, page: query.page, per_page }
}

/// The message that refuses a comment.
pub open spec fn comment_forbidden_message() -> Seq<char> {
    "Missing required scope: blog:comment:write"@
}

/// Commenting needs the comment-write scope: `forbidden` otherwise.
pub fn comment_create_access(claims: &AgentClaims) -> (r: Result<(), AgentError>)
    ensures
        r is Ok <==> grants(*claims, AgentScope::CommentWrite),
        r matches Err(e) ==> e.code@ == "forbidden"@ && e.message@ == comment_forbidden_message()
            && e.details is None,
{
    if has_scope(claims, AgentScope::CommentWrite) {
        Ok(())
    } else {
        Err(AgentError::new("forbidden", "Missing required scope: blog:comment:write"))
    }
}

/// A search by anonymous agents is always allowed, and any agent holding
/// the search or the article-read scope may search.
pub proof fn law_search_access(c: AgentClaims)
    ensures
        may_search(None),
        grants(c, AgentScope::Search) ==> may_search(Some(c)),
        grants(c, AgentScope::ArticleRead) ==> may_search(Some(c)),
{
}

} // verus!
