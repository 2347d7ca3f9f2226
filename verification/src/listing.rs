//! Article and publication list items: the author shown with an article,
//! the list item of a stored article with its author, publication and
//! tags, and the list items that the agent search makes of search hits.

use vstd::prelude::*;
use vstd::string::*;
use crate::clock::{now_utc, UtcTime};
use crate::text::owned;
use crate::record_id::{entry_index, entry_str, entry_string, find_entry, JsonValue};
use crate::site::opt_text;

verus! {

broadcast use vstd::string::group_string_axioms;

/// The author shown with an article.
#[derive(Debug)]
pub struct AuthorInfo {
    pub id: String,
    pub username: String,
    pub display_name: String,
    pub avatar_url: Option<String>,
    pub is_verified: bool,
}

/// The publication shown with an article.
#[derive(Debug)]
pub struct PublicationInfo {
    pub id: String,
    pub name: String,
    pub slug: String,
    pub logo_url: Option<String>,
}

/// A tag shown with an article.
#[derive(Debug)]
pub struct TagInfo {
    pub id: String,
    pub name: String,
    pub slug: String,
}

/// The publication state of an article.
#[derive(Debug, Clone, Copy, PartialEq, Eq, Structural)]
pub enum ArticleStatus {
    Draft,
    Published,
    Archived,
}

/// An article as a listing shows it.
#[derive(Debug)]
pub struct ArticleListItem {
    pub id: String,
    pub title: String,
    pub subtitle: Option<String>,
    pub slug: String,
    pub excerpt: Option<String>,
    pub cover_image_url: Option<String>,
    pub author: AuthorInfo,
    pub publication: Option<PublicationInfo>,
    pub status: ArticleStatus,
    pub is_paid_content: bool,
    pub is_featured: bool,
    pub reading_time: i32,
    pub view_count: i64,
    pub clap_count: i64,
    pub comment_count: i64,
    pub tags: Vec<TagInfo>,
    pub created_at: UtcTime,
    pub published_at: Option<UtcTime>,
}

/// The stored fields of an article that its list item shows.
#[derive(Debug)]
pub struct ArticleFields {
    pub id: String,
    pub title: String,
    pub subtitle: Option<String>,
    pub slug: String,
    pub excerpt: Option<String>,
    pub cover_image_url: Option<String>,
    pub author_id: String,
    pub publication_id: Option<String>,
    pub status: ArticleStatus,
    pub is_paid_content: bool,
    pub is_featured: bool,
    pub reading_time: i32,
    pub view_count: i64,
    pub clap_count: i64,
    pub comment_count: i64,
    pub created_at: UtcTime,
    pub published_at: Option<UtcTime>,
}

/// The author's profile when one was found; otherwise an unknown author
/// under the article's author id.
pub fn author_or_unknown(found: Option<AuthorInfo>, author_id: &str) -> (r: AuthorInfo)
    ensures
        found matches Some(a) ==> r == a,
        found is None ==> (r.id@ == author_id@ && r.username@ == "unknown"@ && r.display_name@
            == "Unknown Author"@ && r.avatar_url is None && !r.is_verified),
{
    match found {
        Some(a) => a,
        None => AuthorInfo {
            id: owned(author_id),
            username: owned("unknown"),
            display_name: owned("Unknown Author"),
            avatar_url: None,
            is_verified: false,
        },
    }
}

/// The list item of a stored article: its own fields; the author's profile
/// when one was found, an unknown author under its author id otherwise; the
/// publication found, and none when the article belongs to no publication;
/// the tags found.
pub fn article_list_item(
    a: ArticleFields,
    author: Option<AuthorInfo>,
    publication: Option<PublicationInfo>,
    tags: Vec<TagInfo>,
) -> (r: ArticleListItem)
    ensures
        r.id == a.id,
        r.title == a.title,
        r.subtitle == a.subtitle,
        r.slug == a.slug,
        r.excerpt == a.excerpt,
        r.cover_image_url == a.cover_image_url,
        author matches Some(x) ==> r.author == x,
        author is None ==> (r.author.id@ == a.author_id@ && r.author.username@ == "unknown"@
            && r.author.display_name@ == "Unknown Author"@ && r.author.avatar_url is None
            && !r.author.is_verified),
        a.publication_id is None ==> r.publication is None,
        a.publication_id is Some ==> r.publication == publication,
        r.status == a.status,
        r.is_paid_content == a.is_paid_content,
        r.is_featured == a.is_featured,
        r.reading_time == a.reading_time,
        r.view_count == a.view_count,
        r.clap_count == a.clap_count,
        r.comment_count == a.comment_count,
        r.tags == tags,
        r.created_at == a.created_at,
        r.published_at == a.published_at,
{
    let author = author_or_unknown(author, a.author_id.as_str());
    let publication = match a.publication_id {
        Some(_) => publication,
        None => None,
    };
    ArticleListItem {
        id: a.id,
        title: a.title,
        subtitle: a.subtitle,
        slug: a.slug,
        excerpt: a.excerpt,
        cover_image_url: a.cover_image_url,
        author,
        publication,
        status: a.status,
        is_paid_content: a.is_paid_content,
        is_featured: a.is_featured,
        reading_time: a.reading_time,
        view_count: a.view_count,
        clap_count: a.clap_count,
        comment_count: a.comment_count,
        tags,
        created_at: a.created_at,
        published_at: a.published_at,
    }
}

/// An article that the search service found.
#[derive(Debug)]
pub struct ArticleHit {
    pub id: String,
    pub title: String,
    pub slug: String,
    pub excerpt: Option<String>,
    pub cover_image_url: Option<String>,
    pub author_username: String,
    pub author_name: String,
    pub reading_time: i32,
    pub clap_count: i64,
    pub comment_count: i64,
    /// Tag names.
    pub tags: Vec<String>,
    pub published_at: UtcTime,
}

/// A publication that the search service found.
#[derive(Debug)]
pub struct PublicationHit {
    pub id: String,
    pub name: String,
    pub slug: String,
    pub description: Option<String>,
    pub tagline: Option<String>,
    pub logo_url: Option<String>,
    pub member_count: i64,
    pub article_count: i64,
    pub follower_count: i64,
}

/// A publication as a listing shows it.
#[derive(Debug)]
pub struct PublicationListItem {
    pub id: String,
    pub name: String,
    pub slug: String,
    pub description: Option<String>,
    pub tagline: Option<String>,
    pub logo_url: Option<String>,
    pub cover_image_url: Option<String>,
    pub member_count: i64,
    pub article_count: i64,
    pub follower_count: i64,
    pub is_verified: bool,
    pub created_at: UtcTime,
}

/// `t` is the tag of a search hit named `name`: no id, no slug.
pub open spec fn is_name_only_tag(t: TagInfo, name: String) -> bool {
    t.id@.len() == 0 && t.name == name && t.slug@.len() == 0
}

/// `r` is the list item of the article search hit `h` (see
/// `article_hit_item`).
pub open spec fn is_article_hit_item(h: ArticleHit, r: ArticleListItem) -> bool {
    &&& r.id == h.id
    &&& r.title == h.title
    &&& r.subtitle is None
    &&& r.slug == h.slug
    &&& r.excerpt == h.excerpt
    &&& r.cover_image_url == h.cover_image_url
    &&& r.author.id@.len() == 0
    &&& r.author.username == h.author_username
    &&& r.author.display_name == h.author_name
    &&& r.author.avatar_url is None
    &&& !r.author.is_verified
    &&& r.publication is None
    &&& r.status == ArticleStatus::Published
    &&& !r.is_paid_content
    &&& !r.is_featured
    &&& r.reading_time == h.reading_time
    &&& r.view_count == 0
    &&& r.clap_count == h.clap_count
    &&& r.comment_count == h.comment_count
    &&& r.tags@.len() == h.tags@.len()
    &&& forall|i: int| 0 <= i < h.tags@.len() ==> is_name_only_tag(#[trigger] r.tags@[i], h.tags@[i])
    &&& r.created_at == h.published_at
    &&& r.published_at == Some(h.published_at)
}

/// The list item of an article search hit. A hit carries fewer fields than
/// a stored article: the author is known by username and display name only
/// (no id, no avatar, not verified), tags by name only; the article is
/// published, not paid, not featured, in no publication, with no subtitle
/// and no view count; its publication time is also its creation time.
pub fn article_hit_item(h: ArticleHit) -> (r: ArticleListItem)
    ensures
        is_article_hit_item(h, r),
{
    let ghost names = h.tags@;
    let mut rest = h.tags;
    let mut tags: Vec<TagInfo> = Vec::new();
    let ghost mut taken: int = 0;
    while rest.len() > 0
        invariant
            0 <= taken,
            taken + rest@.len() == names.len(),
            rest@ == names.skip(taken),
            tags@.len() == taken,
            forall|i: int| 0 <= i < taken ==> is_name_only_tag(#[trigger] tags@[i], names[i]),
        decreases rest@.len(),
    {
        let name = rest.remove(0);
        assert(names.skip(taken)[0] == names[taken]);
        assert(rest@ =~= names.skip(taken + 1));
        tags.push(TagInfo { id: String::new(), name, slug: String::new() });
        proof {
            taken = taken + 1;
        }
    }
    ArticleListItem {
        id: h.id,
        title: h.title,
        subtitle: None,
        slug: h.slug,
        excerpt: h.excerpt,
        cover_image_url: h.cover_image_url,
        author: AuthorInfo {
            id: String::new(),
            username: h.author_username,
            display_name: h.author_name,
            avatar_url: None,
            is_verified: false,
        },
        publication: None,
        status: ArticleStatus::Published,
        is_paid_content: false,
        is_featured: false,
        reading_time: h.reading_time,
        view_count: 0,
        clap_count: h.clap_count,
        comment_count: h.comment_count,
        tags,
        created_at: h.published_at,
        published_at: Some(h.published_at),
    }
}

/// `r` is the list item of the publication search hit `h` (see
/// `publication_hit_item`).
pub open spec fn is_publication_hit_item(h: PublicationHit, r: PublicationListItem) -> bool {
    &&& r.id == h.id
    &&& r.name == h.name
    &&& r.slug == h.slug
    &&& r.description == h.description
    &&& r.tagline == h.tagline
    &&& r.logo_url == h.logo_url
    &&& r.cover_image_url is None
    &&& r.member_count == h.member_count
    &&& r.article_count == h.article_count
    &&& r.follower_count == h.follower_count
    &&& !r.is_verified
    &&& r.created_at.wf()
}

/// The list item of a publication search hit: its own fields, no cover
/// image, not verified, and the current time as its creation time.
pub fn publication_hit_item(h: PublicationHit) -> (r: PublicationListItem)
    ensures
        is_publication_hit_item(h, r),
{
    PublicationListItem {
        id: h.id,
        name: h.name,
        slug: h.slug,
        description: h.description,
        tagline: h.tagline,
        logo_url: h.logo_url,
        cover_image_url: None,
        member_count: h.member_count,
        article_count: h.article_count,
        follower_count: h.follower_count,
        is_verified: false,
        created_at: now_utc(),
    }
}

/// The string of field `k` of a row, when the row is an object whose field
/// `k` is a string.
pub open spec fn row_str(row: JsonValue, k: Seq<char>) -> Option<Seq<char>> {
    match row {
        JsonValue::Object(m) => entry_str(m@, k),
        _ => None,
    }
}

/// The string of field `k` of a row, empty when there is none.
pub open spec fn row_text(row: JsonValue, k: Seq<char>) -> Seq<char> {
    match row_str(row, k) {
        Some(s) => s,
        None => Seq::empty(),
    }
}

/// The boolean of field `k` of a row, false when there is none.
pub open spec fn row_flag(row: JsonValue, k: Seq<char>) -> bool {
    match row {
        JsonValue::Object(m) => match entry_index(m@, k) {
            Some(i) => match m@[i].1 {
                JsonValue::Bool(b) => b,
                _ => false,
            },
            None => false,
        },
        _ => false,
    }
}

fn row_string(row: &JsonValue, k: &str) -> (r: Option<String>)
    ensures
        opt_text(r) == row_str(*row, k@),
{
    match row {
        JsonValue::Object(m) => match entry_string(m, k) {
            Some(s) => Some(owned(s.as_str())),
            None => None,
        },
        _ => None,
    }
}

fn row_string_or_empty(row: &JsonValue, k: &str) -> (r: String)
    ensures
        r@ == row_text(*row, k@),
{
    match row_string(row, k) {
        Some(s) => s,
        None => String::new(),
    }
}

fn row_bool(row: &JsonValue, k: &str) -> (r: bool)
    ensures
        r == row_flag(*row, k@),
{
    match row {
        JsonValue::Object(m) => match find_entry(m, k) {
            Some(i) => match &m[i].1 {
                JsonValue::Bool(b) => *b,
                _ => false,
            },
            None => false,
        },
        _ => false,
    }
}

/// The author of a `user_profile` row: id, username and display name (empty
/// when missing or not strings), avatar URL when it is a string, verified
/// only when `is_verified` is `true`.
pub fn author_info_of(row: &JsonValue) -> (r: AuthorInfo)
    ensures
        r.id@ == row_text(*row, "id"@),
        r.username@ == row_text(*row, "username"@),
        r.display_name@ == row_text(*row, "display_name"@),
        opt_text(r.avatar_url) == row_str(*row, "avatar_url"@),
        r.is_verified == row_flag(*row, "is_verified"@),
{
    AuthorInfo {
        id: row_string_or_empty(row, "id"),
        username: row_string_or_empty(row, "username"),
        display_name: row_string_or_empty(row, "display_name"),
        avatar_url: row_string(row, "avatar_url"),
        is_verified: row_bool(row, "is_verified"),
    }
}

/// The publication of a `publication` row: id, name and slug (empty when
/// missing or not strings), logo URL when it is a string.
pub fn publication_info_of(row: &JsonValue) -> (r: PublicationInfo)
    ensures
        r.id@ == row_text(*row, "id"@),
        r.name@ == row_text(*row, "name"@),
        r.slug@ == row_text(*row, "slug"@),
        opt_text(r.logo_url) == row_str(*row, "logo_url"@),
{
    PublicationInfo {
        id: row_string_or_empty(row, "id"),
        name: row_string_or_empty(row, "name"),
        slug: row_string_or_empty(row, "slug"),
        logo_url: row_string(row, "logo_url"),
    }
}

/// The tag of a `tag` row: id, name and slug, empty when missing or not
/// strings.
pub fn tag_info_of(row: &JsonValue) -> (r: TagInfo)
    ensures
        r.id@ == row_text(*row, "id"@),
        r.name@ == row_text(*row, "name"@),
        r.slug@ == row_text(*row, "slug"@),
{
    TagInfo {
        id: row_string_or_empty(row, "id"),
        name: row_string_or_empty(row, "name"),
        slug: row_string_or_empty(row, "slug"),
    }
}

} // verus!
