use rainbow_blog::clock::UtcTime;
use rainbow_blog::handlers::{search_hit_results, SearchResultItem};
use rainbow_blog::listing::{
    article_hit_item, article_list_item, publication_hit_item, ArticleFields, ArticleHit,
    ArticleStatus, AuthorInfo, PublicationHit, PublicationInfo, TagInfo,
};

fn at(secs: i64) -> UtcTime {
    UtcTime { secs, nanos: 0 }
}

fn fields(publication_id: Option<&str>) -> ArticleFields {
    ArticleFields {
        id: "article:1".into(),
        title: "Rust".into(),
        subtitle: Some("sub".into()),
        slug: "rust".into(),
        excerpt: Some("ex".into()),
        cover_image_url: None,
        author_id: "user:7".into(),
        publication_id: publication_id.map(String::from),
        status: ArticleStatus::Published,
        is_paid_content: true,
        is_featured: false,
        reading_time: 5,
        view_count: 1000,
        clap_count: 50,
        comment_count: 10,
        created_at: at(100),
        published_at: Some(at(200)),
    }
}

fn publication() -> PublicationInfo {
    PublicationInfo { id: "publication:1".into(), name: "P".into(), slug: "p".into(), logo_url: None }
}

fn hit(id: &str, tags: &[&str]) -> ArticleHit {
    ArticleHit {
        id: id.into(),
        title: "T".into(),
        slug: "t".into(),
        excerpt: None,
        cover_image_url: Some("c.png".into()),
        author_username: "jd".into(),
        author_name: "John".into(),
        reading_time: 3,
        clap_count: 4,
        comment_count: 2,
        tags: tags.iter().map(|t| t.to_string()).collect(),
        published_at: at(300),
    }
}

fn pub_hit(id: &str) -> PublicationHit {
    PublicationHit {
        id: id.into(),
        name: "Tech".into(),
        slug: "tech".into(),
        description: Some("d".into()),
        tagline: None,
        logo_url: None,
        member_count: 10,
        article_count: 150,
        follower_count: 5000,
    }
}

#[test]
fn stored_article_list_item() {
    let tags = vec![TagInfo { id: "tag:1".into(), name: "rust".into(), slug: "rust".into() }];
    let item = article_list_item(fields(Some("publication:1")), None, Some(publication()), tags);
    assert_eq!(item.id, "article:1");
    assert_eq!(item.subtitle.as_deref(), Some("sub"));
    assert_eq!(item.author.id, "user:7");
    assert_eq!(item.author.username, "unknown");
    assert_eq!(item.author.display_name, "Unknown Author");
    assert_eq!(item.publication.unwrap().id, "publication:1");
    assert_eq!(item.status, ArticleStatus::Published);
    assert!(item.is_paid_content);
    assert_eq!((item.reading_time, item.view_count, item.clap_count, item.comment_count), (5, 1000, 50, 10));
    assert_eq!(item.tags.len(), 1);
    assert_eq!(item.created_at, at(100));
    assert_eq!(item.published_at, Some(at(200)));

    let author = AuthorInfo {
        id: "profile:7".into(),
        username: "jd".into(),
        display_name: "John".into(),
        avatar_url: None,
        is_verified: true,
    };
    let item = article_list_item(fields(None), Some(author), Some(publication()), Vec::new());
    assert_eq!(item.author.username, "jd");
    assert!(item.author.is_verified);
    assert!(item.publication.is_none());
}

#[test]
fn search_hits_become_list_items() {
    let item = article_hit_item(hit("article:9", &["a", "b"]));
    assert_eq!(item.id, "article:9");
    assert!(item.subtitle.is_none());
    assert_eq!(item.author.id, "");
    assert_eq!(item.author.username, "jd");
    assert_eq!(item.author.display_name, "John");
    assert_eq!(item.status, ArticleStatus::Published);
    assert!(!item.is_paid_content && !item.is_featured);
    assert_eq!(item.view_count, 0);
    assert_eq!((item.clap_count, item.comment_count, item.reading_time), (4, 2, 3));
    assert_eq!(item.tags.iter().map(|t| t.name.as_str()).collect::<Vec<_>>(), vec!["a", "b"]);
    assert!(item.tags.iter().all(|t| t.id.is_empty() && t.slug.is_empty()));
    assert_eq!(item.created_at, at(300));
    assert_eq!(item.published_at, Some(at(300)));

    let p = publication_hit_item(pub_hit("publication:2"));
    assert_eq!(p.id, "publication:2");
    assert_eq!((p.member_count, p.article_count, p.follower_count), (10, 150, 5000));
    assert!(p.cover_image_url.is_none());
    assert!(!p.is_verified);
}

#[test]
fn search_results_in_order() {
    let r = search_hit_results(vec![hit("a1", &[]), hit("a2", &["x"])], vec![pub_hit("p1")]);
    assert_eq!(r.len(), 3);
    match (&r[0], &r[1], &r[2]) {
        (SearchResultItem::Article(a), SearchResultItem::Article(b), SearchResultItem::Publication(p)) => {
            assert_eq!(a.id, "a1");
            assert_eq!(b.id, "a2");
            assert_eq!(p.id, "p1");
        }
        _ => panic!("unexpected order"),
    }
}
