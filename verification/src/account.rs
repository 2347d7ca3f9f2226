//! Account helpers: the signed-in user requirement, API keys (their raw
//! text, prefix and SHA-256 hash), record-id normalisation for deletions,
//! and the pagination and status filters of the admin listings.

use vstd::prelude::*;
use vstd::string::*;
use vstd::utf8::encode_utf8;
use crate::text::{
    append_decimal_i64, append_hex_lower, decimal_int, hex_lower, is_blank, is_blank_text, is_trim_of, lemma_hex_lower_len, owned,
    push_str, repeat_seq, str_equal, has_prefix, trim, trim_by, trim_start_matches, TrimClass,
};
use crate::clock::{is_v4_uuid, new_uuid_v4_bytes};
use crate::response::AppError;

verus! {

broadcast use vstd::string::group_string_axioms;

/// The signed-in user, or "Not authenticated".
pub fn require_user<U>(user: Option<U>) -> (r: Result<U, AppError>)
    ensures
        user matches Some(u) ==> r matches Ok(v) && v == u,
        user is None ==> (r matches Err(AppError::Authentication(m)) && m@
            == "Not authenticated"@),
{
    match user {
        Some(u) => Ok(u),
        None => Err(AppError::Authentication(owned("Not authenticated"))),
    }
}

/// The SHA-256 digest of a byte string.
pub uninterp spec fn spec_sha256(data: Seq<u8>) -> Seq<u8>;

/// `sha2::Sha256::digest`: the digest of `data`, named `spec_sha256`; a
/// SHA-256 digest has 32 bytes.
#[verifier::external_body]
fn sha256_digest(data: &[u8]) -> (r: Vec<u8>)
    ensures
        r@ == spec_sha256(data@),
        r@.len() == 32,
{
    <sha2::Sha256 as sha2::Digest>::digest(data).to_vec()
}

/// The lower-case hexadecimal SHA-256 digest of a string's UTF-8 bytes.
pub fn sha256_hex(input: &str) -> (r: String)
    ensures
        r@ == hex_lower(spec_sha256(encode_utf8(input@))),
        r@.len() == 64,
{
    let digest = sha256_digest(input.as_bytes());
    proof {
        lemma_hex_lower_len(digest@);
    }
    let mut out = String::new();
    append_hex_lower(&mut out, digest.as_slice());
    assert(out@ =~= hex_lower(spec_sha256(encode_utf8(input@))));
    out
}

/// The body of an API key creation request.
#[derive(Debug)]
pub struct CreateApiKeyRequest {
    pub name: String,
    pub scopes: Option<Vec<String>>,
    pub expires_at: Option<String>,
}

/// A new API key: its raw text (shown once), the prefix and hash that are
/// stored, and the stored attributes.
#[derive(Debug)]
pub struct ApiKeyDraft {
    pub key: String,
    pub key_prefix: String,
    pub key_hash: String,
    pub name: String,
    pub scopes: Vec<String>,
    pub expires_at: String,
}

/// The raw text of an API key made from a UUID's bytes:
/// `sk-blog-` and the UUID's 32 hex digits.
pub open spec fn api_key_text(uuid: Seq<u8>) -> Seq<char> {
    "sk-blog-"@ + hex_lower(uuid)
}

/// The texts of a list of strings.
pub open spec fn string_texts(v: Seq<String>) -> Seq<Seq<char>> {
    v.map_values(|s: String| s@)
}

/// Creates an API key for the request: "name 不能为空" when the name is
/// blank; otherwise a random key `sk-blog-<32 hex>`, its first 14
/// characters as the prefix, its SHA-256 hex digest as the hash, the trimmed
/// name, the requested scopes (`read` and `write` by default) and the
/// requested expiry (empty by default).
pub fn plan_api_key(req: CreateApiKeyRequest) -> (r: Result<ApiKeyDraft, AppError>)
    ensures
        is_blank_text(req.name@) ==> (r matches Err(AppError::Validation(m)) && m@
            == "name 不能为空"@),
        !is_blank_text(req.name@) ==> (r matches Ok(d) && (exists|u: Seq<u8>|
            is_v4_uuid(u) && d.key@ == #[trigger] api_key_text(u)) && d.key@.len() == 40
            && d.key_prefix@ == d.key@.take(14) && d.key_hash@ == hex_lower(
            spec_sha256(encode_utf8(d.key@)),
        ) && is_trim_of(TrimClass::Whitespace, req.name@, d.name@) && string_texts(d.scopes@)
            == match req.scopes {
            Some(s) => string_texts(s@),
            None => seq!["read"@, "write"@],
        } && d.expires_at@ == match req.expires_at {
            Some(e) => e@,
            None => Seq::<char>::empty(),
        }),
{
    if is_blank(req.name.as_str()) {
        return Err(AppError::Validation(owned("name 不能为空")));
    }
    let uuid = new_uuid_v4_bytes();
    let mut key = owned("sk-blog-");
    append_hex_lower(&mut key, uuid.as_slice());
    proof {
        reveal_strlit("sk-blog-");
        lemma_hex_lower_len(uuid@);
        assert(key@ =~= api_key_text(uuid@));
    }
    let prefix = owned(key.as_str().substring_char(0, 14));
    let hash = sha256_hex(key.as_str());
    let name = owned(trim(req.name.as_str()));
    let scopes = match req.scopes {
        Some(s) => s,
        None => {
            let v = vec![owned("read"), owned("write")];
            assert(string_texts(v@) =~= seq!["read"@, "write"@]);
            v
        },
    };
    let expires_at = match req.expires_at {
        Some(e) => e,
        None => String::new(),
    };
    Ok(ApiKeyDraft { key, key_prefix: prefix, key_hash: hash, name, scopes, expires_at })
}

/// The record key inside a possibly prefixed id: every leading
/// `table_prefix` removed, then every leading and trailing backtick.
pub fn normalize_record_id<'a>(id: &'a str, table_prefix: &str) -> (r: &'a str)
    requires
        table_prefix@.len() > 0,
    ensures
        exists|k: nat, m: Seq<char>|
            #![trigger repeat_seq(table_prefix@, k), is_trim_of(TrimClass::Exactly('`'), m, r@)]
            id@ == repeat_seq(table_prefix@, k) + m && !has_prefix(m, table_prefix@)
                && is_trim_of(TrimClass::Exactly('`'), m, r@),
{
    let m = trim_start_matches(id, table_prefix);
    let r = trim_by(m, TrimClass::Exactly('`'));
    proof {
        let k = choose|k: nat| id@ == #[trigger] repeat_seq(table_prefix@, k) + m@;
        assert(id@ == repeat_seq(table_prefix@, k) + m@ && !has_prefix(m@, table_prefix@)
            && is_trim_of(TrimClass::Exactly('`'), m@, r@));
    }
    r
}

/// The key of an API key record id (`api_key:<key>`, possibly quoted).
pub fn api_key_record_key(id: &str) -> (r: &str)
    ensures
        exists|k: nat, m: Seq<char>|
            #![trigger repeat_seq("api_key:"@, k), is_trim_of(TrimClass::Exactly('`'), m, r@)]
            id@ == repeat_seq("api_key:"@, k) + m && !has_prefix(m, "api_key:"@)
                && is_trim_of(TrimClass::Exactly('`'), m, r@),
{
    proof {
        reveal_strlit("api_key:");
    }
    normalize_record_id(id, "api_key:")
}

/// The key of a comment record id (`comment:<key>`, possibly quoted).
pub fn comment_record_key(id: &str) -> (r: &str)
    ensures
        exists|k: nat, m: Seq<char>|
            #![trigger repeat_seq("comment:"@, k), is_trim_of(TrimClass::Exactly('`'), m, r@)]
            id@ == repeat_seq("comment:"@, k) + m && !has_prefix(m, "comment:"@)
                && is_trim_of(TrimClass::Exactly('`'), m, r@),
{
    proof {
        reveal_strlit("comment:");
    }
    normalize_record_id(id, "comment:")
}

/// The query of an admin listing.
#[derive(Debug)]
pub struct ListQuery {
    pub page: Option<u32>,
    pub limit: Option<u32>,
    pub status: Option<String>,
}

/// A page of an admin listing: the page number, the page size and the
/// number of rows skipped.
#[derive(Debug, Clone, Copy, PartialEq, Eq, Structural)]
pub struct PageWindow {
    pub page: i64,
    pub limit: i64,
    pub start: i64,
}

/// The page of a listing: the requested size (or `default_limit`) capped at
/// `max_limit`, the requested page (or 1) at least 1, and the rows before
/// that page skipped.
pub open spec fn window_spec(
    page: Option<u32>,
    limit: Option<u32>,
    default_limit: u32,
    max_limit: u32,
) -> PageWindow {
    let l = match limit {
        Some(l) => l,
        None => default_limit,
    };
    let l2: int = if l < max_limit {
        l as int
    } else {
        max_limit as int
    };
    let p = match page {
        Some(p) => p,
        None => 1,
    };
    let p2: int = if p > 1 {
        p as int
    } else {
        1
    };
    PageWindow { page: p2 as i64, limit: l2 as i64, start: ((p2 - 1) * l2) as i64 }
}

/// The page of a listing (see `window_spec`).
pub fn page_window(q: &ListQuery, default_limit: u32, max_limit: u32) -> (r: PageWindow)
    requires
        max_limit <= 100_000,
    ensures
        r == window_spec(q.page, q.limit, default_limit, max_limit),
        r.page >= 1,
        0 <= r.limit <= max_limit,
        r.start == (r.page - 1) * r.limit,
{
    let l = match q.limit {
        Some(l) => l,
        None => default_limit,
    };
    let l2: u32 = if l < max_limit {
        l
    } else {
        max_limit
    };
    let p = match q.page {
        Some(p) => p,
        None => 1,
    };
    let p2: u32 = if p > 1 {
        p
    } else {
        1
    };
    let pi: i64 = p2 as i64;
    let li: i64 = l2 as i64;
    assert((pi - 1) * li <= 4294967296 * 100_000) by (nonlinear_arith)
        requires
            0 <= pi - 1 <= 4294967295,
            0 <= li <= 100_000,
    ;
    assert((pi - 1) * li >= 0) by (nonlinear_arith)
        requires
            0 <= pi - 1,
            0 <= li,
    ;
    PageWindow { page: pi, limit: li, start: (pi - 1) * li }
}

/// The page of the all-articles listing: 20 per page by default, at most 100.
pub fn articles_window(q: &ListQuery) -> (r: PageWindow)
    ensures
        r == window_spec(q.page, q.limit, 20, 100),
{
    page_window(q, 20, 100)
}

/// The page of the all-comments listing: 50 per page by default, at most 200.
pub fn comments_window(q: &ListQuery) -> (r: PageWindow)
    ensures
        r == window_spec(q.page, q.limit, 50, 200),
{
    page_window(q, 50, 200)
}

/// The page of the users listing: 50 per page by default, at most 200.
pub fn users_window(q: &ListQuery) -> (r: PageWindow)
    ensures
        r == window_spec(q.page, q.limit, 50, 200),
{
    page_window(q, 50, 200)
}

/// The `WHERE` clause that selects the articles of a status filter; an
/// unknown or absent status lists every article that is not deleted.
pub open spec fn status_clause_spec(status: Option<Seq<char>>) -> Seq<char> {
    match status {
        Some(s) => if s == "draft"@ {
            "WHERE status = 'draft' AND is_deleted != true"@
        } else if s == "published"@ {
            "WHERE status = 'published' AND is_deleted != true"@
        } else if s == "archived"@ {
            "WHERE status = 'archived' AND is_deleted != true"@
        } else {
            "WHERE is_deleted != true"@
        },
        None => "WHERE is_deleted != true"@,
    }
}

/// The `WHERE` clause for an article status filter.
pub fn article_status_clause(status: Option<&str>) -> (r: &'static str)
    ensures
        r@ == status_clause_spec(
            match status {
                Some(s) => Some(s@),
                None => None,
            },
        ),
{
    match status {
        Some(s) => {
            if str_equal(s, "draft") {
                "WHERE status = 'draft' AND is_deleted != true"
            } else if str_equal(s, "published") {
                "WHERE status = 'published' AND is_deleted != true"
            } else if str_equal(s, "archived") {
                "WHERE status = 'archived' AND is_deleted != true"
            } else {
                "WHERE is_deleted != true"
            }
        },
        None => "WHERE is_deleted != true",
    }
}

/// The `LIMIT` and `START` of a page, after the `ORDER BY` of a listing.
pub open spec fn page_suffix(w: PageWindow) -> Seq<char> {
    " ORDER BY created_at DESC LIMIT "@ + decimal_int(w.limit as int) + " START "@ + decimal_int(
        w.start as int,
    )
}

fn push_page_suffix(out: &mut String, w: PageWindow)
    ensures
        final(out)@ == old(out)@ + page_suffix(w),
{
    push_str(out, " ORDER BY created_at DESC LIMIT ");
    append_decimal_i64(out, w.limit);
    push_str(out, " START ");
    append_decimal_i64(out, w.start);
    assert(final(out)@ =~= old(out)@ + page_suffix(w));
}

/// The query of a page of the all-articles listing, newest first, filtered
/// by the status clause.
pub fn articles_listing_sql(status: Option<&str>, w: PageWindow) -> (r: String)
    ensures
        r@ == "SELECT id, title, slug, status, author_id, view_count, comment_count, clap_count, created_at, updated_at, published_at FROM article "@
            + status_clause_spec(
            match status {
                Some(s) => Some(s@),
                None => None,
            },
        ) + page_suffix(w),
{
    let mut out = owned(
        "SELECT id, title, slug, status, author_id, view_count, comment_count, clap_count, created_at, updated_at, published_at FROM article ",
    );
    push_str(&mut out, article_status_clause(status));
    push_page_suffix(&mut out, w);
    out
}

/// The query of a page of the all-comments listing, newest first, without
/// deleted comments.
pub fn comments_listing_sql(w: PageWindow) -> (r: String)
    ensures
        r@ == "SELECT id, content, author_id, article_id, parent_id, created_at FROM comment WHERE is_deleted != true"@
            + page_suffix(w),
{
    let mut out = owned(
        "SELECT id, content, author_id, article_id, parent_id, created_at FROM comment WHERE is_deleted != true",
    );
    push_page_suffix(&mut out, w);
    out
}

/// The query of a page of the users listing, newest first.
pub fn users_listing_sql(w: PageWindow) -> (r: String)
    ensures
        r@ == "SELECT id, user_id, username, display_name, avatar_url, bio, created_at FROM user_profile"@
            + page_suffix(w),
{
    let mut out = owned(
        "SELECT id, user_id, username, display_name, avatar_url, bio, created_at FROM user_profile",
    );
    push_page_suffix(&mut out, w);
    out
}

/// A page size never exceeds the listing's maximum, the page number is at
/// least 1, and the rows skipped are exactly the earlier pages, never a
/// negative number (for maxima below 2^31, where the count fits `i64`).
pub proof fn law_window_bounded(page: Option<u32>, limit: Option<u32>, d: u32, m: u32)
    requires
        m < 0x8000_0000,
    ensures
        window_spec(page, limit, d, m).limit <= m,
        window_spec(page, limit, d, m).page >= 1,
        window_spec(page, limit, d, m).start >= 0,
        window_spec(page, limit, d, m).start == (window_spec(page, limit, d, m).page - 1)
            * window_spec(page, limit, d, m).limit,
{
    let l = match limit {
        Some(l) => l,
        None => d,
    };
    let l2: int = if l < m {
        l as int
    } else {
        m as int
    };
    let p = match page {
        Some(p) => p,
        None => 1,
    };
    let p2: int = if p > 1 {
        p as int
    } else {
        1
    };
    assert(0 <= (p2 - 1) * l2 <= 0xFFFF_FFFF * 0x7FFF_FFFF) by (nonlinear_arith)
        requires
            0 <= p2 - 1 <= 0xFFFF_FFFF,
            0 <= l2 <= 0x7FFF_FFFF,
    ;
}

/// A listing serves the page and size asked for when they are in range
/// (page at least 1, size at most the maximum), skipping the earlier pages;
/// without them, the first page of the default size; a larger size is cut
/// to the maximum and page 0 is read as page 1.
pub proof fn law_window_serves_request(p: u32, l: u32, d: u32, m: u32)
    ensures
        1 <= p && l <= m ==> window_spec(Some(p), Some(l), d, m) == (PageWindow {
            page: p as i64,
            limit: l as i64,
            start: ((p - 1) * l) as i64,
        }),
        d <= m ==> window_spec(None, None, d, m) == (PageWindow {
            page: 1,
            limit: d as i64,
            start: 0,
        }),
        l > m ==> window_spec(Some(p), Some(l), d, m).limit == m,
        window_spec(Some(0), Some(l), d, m).page == 1,
        window_spec(Some(0), Some(l), d, m).start == 0,
{
    assert(0 * (d as int) == 0);
    assert(0 * (m as int) == 0);
    assert(0 * (l as int) == 0);
}

} // verus!
