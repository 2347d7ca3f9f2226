use rainbow_blog::listing::{author_or_unknown, AuthorInfo};
use rainbow_blog::recommendation::{
    count_and_rank, half_limit, plan_preference_recommendations,
    plan_recommendations, rank_author_preferences, rank_similar_users, rank_tag_preferences,
    tag_param_name, trending_filters, RecommendationAlgorithm, RecommendationService, RecommendedArticle, Strategy,
};
use rainbow_blog::response::AppError;

fn rec(id: &str, score: i128, tag: u32) -> RecommendedArticle<u32> {
    RecommendedArticle { article: tag, article_id: id.to_string(), score, reason: String::new() }
}

fn ids(v: &[RecommendedArticle<u32>]) -> Vec<(String, u32)> {
    v.iter().map(|r| (r.article_id.clone(), r.article)).collect()
}

#[test]
fn dedup_keeps_first_and_sorts_by_score() {
    let svc = RecommendationService;
    let input = vec![
        rec("a", 800, 1),
        rec("b", 900, 2),
        rec("a", 1000, 3),
        rec("c", 800, 4),
        rec("d", 700, 5),
    ];
    let out = svc.deduplicate_and_rank(input, 10).unwrap();
    assert_eq!(
        ids(&out),
        vec![("b".into(), 2), ("a".into(), 1), ("c".into(), 4), ("d".into(), 5)]
    );
}

#[test]
fn ranking_truncates_to_limit() {
    let svc = RecommendationService;
    let input = vec![rec("a", 1, 1), rec("b", 3, 2), rec("c", 2, 3)];
    let out = svc.deduplicate_and_rank(input, 2).unwrap();
    assert_eq!(ids(&out), vec![("b".into(), 2), ("c".into(), 3)]);
    let out = svc.deduplicate_and_rank(vec![rec("a", 1, 1)], 0).unwrap();
    assert!(out.is_empty());
    let out = svc.deduplicate_and_rank(Vec::<RecommendedArticle<u32>>::new(), 5).unwrap();
    assert!(out.is_empty());
}

#[test]
fn equal_scores_keep_their_order() {
    let svc = RecommendationService;
    let input = vec![rec("x", 5, 1), rec("y", 5, 2), rec("z", 5, 3)];
    let out = svc.deduplicate_and_rank(input, 3).unwrap();
    assert_eq!(ids(&out), vec![("x".into(), 1), ("y".into(), 2), ("z".into(), 3)]);
}

#[test]
fn hybrid_merge() {
    let svc = RecommendationService;
    let content = vec![rec("a", 800, 1), rec("b", 900, 2)];
    let collab = vec![rec("b", 700, 3), rec("c", 950, 4)];
    let out = svc.merge_and_rank(content, collab, 10).unwrap();
    assert_eq!(
        ids(&out),
        vec![("c".into(), 4), ("b".into(), 2), ("a".into(), 1)]
    );
}

#[test]
fn ranked_scores_never_increase() {
    let svc = RecommendationService;
    let scores = [3, -1, 7, 7, 0, 12, 3, 5, -4, 9];
    let input: Vec<_> = scores
        .iter()
        .enumerate()
        .map(|(i, s)| rec(&format!("id{}", i % 7), *s, i as u32))
        .collect();
    let out = svc.deduplicate_and_rank(input, 100).unwrap();
    assert_eq!(out.len(), 7);
    for w in out.windows(2) {
        assert!(w[0].score >= w[1].score);
        assert_ne!(w[0].article_id, w[1].article_id);
    }
}

#[test]
fn tag_preferences_count_and_rank() {
    let pairs: Vec<(String, String)> = vec![
        ("tag:rust", "Rust"),
        ("tag:go", "Go"),
        ("tag:rust", "rust-renamed"),
        ("tag:web", "Web"),
        ("tag:go", "Go"),
        ("tag:rust", "Rust"),
    ]
    .into_iter()
    .map(|(a, b)| (a.to_string(), b.to_string()))
    .collect();
    let prefs = rank_tag_preferences(&pairs);
    let got: Vec<(String, String, u64)> =
        prefs.into_iter().map(|p| (p.tag_id, p.tag_name, p.weight)).collect();
    assert_eq!(
        got,
        vec![
            ("tag:rust".into(), "Rust".into(), 3),
            ("tag:go".into(), "Go".into(), 2),
            ("tag:web".into(), "Web".into(), 1),
        ]
    );
}

#[test]
fn tag_preferences_keep_twenty() {
    let pairs: Vec<(String, String)> =
        (0..30).map(|i| (format!("t{}", i), format!("n{}", i))).collect();
    assert_eq!(rank_tag_preferences(&pairs).len(), 20);
    assert_eq!(count_and_rank(&pairs, 5).len(), 5);
}

#[test]
fn author_and_similar_user_rankings() {
    let authors: Vec<String> = ["a", "b", "b", "c", "b", "a"].iter().map(|s| s.to_string()).collect();
    let prefs = rank_author_preferences(&authors);
    let got: Vec<(String, u64)> = prefs.into_iter().map(|p| (p.author_id, p.weight)).collect();
    assert_eq!(got, vec![("b".into(), 3), ("a".into(), 2), ("c".into(), 1)]);
    let users: Vec<String> = (0..15).map(|i| format!("u{}", i % 12)).collect();
    let similar = rank_similar_users(&users);
    assert_eq!(similar.len(), 10);
    assert_eq!(&similar[..3], &["u0".to_string(), "u1".to_string(), "u2".to_string()]);
}

#[test]
fn plans() {
    let p = plan_recommendations(None, true, None).unwrap();
    assert_eq!(p.strategy, Strategy::Hybrid);
    assert_eq!(p.limit, 10);
    assert_eq!(p.algorithm_used, "Hybrid");
    let p = plan_recommendations(Some(RecommendationAlgorithm::ContentBased), false, Some(3)).unwrap();
    assert_eq!(p.strategy, Strategy::Trending);
    assert_eq!(p.limit, 3);
    assert_eq!(p.algorithm_used, "ContentBased");
    let p = plan_recommendations(Some(RecommendationAlgorithm::CollaborativeFiltering), true, None).unwrap();
    assert_eq!(p.strategy, Strategy::CollaborativeFiltering);
    assert_eq!(p.algorithm_used, "CollaborativeFiltering");
    let p = plan_recommendations(Some(RecommendationAlgorithm::Following), true, None).unwrap();
    assert_eq!(p.strategy, Strategy::Following);
    match plan_recommendations(Some(RecommendationAlgorithm::Following), false, None) {
        Err(AppError::Authentication(m)) => {
            assert_eq!(m, "User ID required for following recommendations")
        }
        _ => panic!(),
    }
    assert_eq!(half_limit(9), 4);
    let pp = plan_preference_recommendations(true, false, 10);
    assert_eq!(pp.tag_limit, Some(5));
    assert_eq!(pp.author_limit, None);
}

#[test]
fn scores_in_tenths() {
    let t = RecommendedArticle::trending(0u8, "a".into(), 10, 100, 2, 5);
    assert_eq!(t.score, 30 + 100 + 8 + 10);
    assert_eq!(t.reason, "热门文章");
    assert_eq!(RecommendedArticle::from_followed_author(0u8, "a".into()).score, 1000);
    assert_eq!(RecommendedArticle::by_authors(0u8, "a".into()).score, 900);
    assert_eq!(RecommendedArticle::by_tags(0u8, "a".into()).score, 800);
    let s = RecommendedArticle::by_similar_users(0u8, "a".into(), 3);
    assert_eq!(s.score, 850);
    assert_eq!(s.reason, "相似用户喜欢的文章");
    let r = RecommendedArticle::related(0u8, "a".into(), 2, 35);
    assert_eq!(r.score, 235);
    assert_eq!(r.reason, "相关主题");
}

#[test]
fn scores_of_huge_counters() {
    let m = i64::MAX as i128;
    let t = RecommendedArticle::trending(0u8, "a".into(), i64::MAX, i64::MAX, i64::MAX, i64::MAX);
    assert_eq!(t.score, 10 * m);
    let t = RecommendedArticle::trending(0u8, "a".into(), i64::MIN, 0, 0, 0);
    assert_eq!(t.score, 3 * (i64::MIN as i128));
    assert_eq!(RecommendedArticle::by_similar_users(0u8, "a".into(), i64::MAX).score, 700 + 50 * m);
    assert_eq!(RecommendedArticle::related(0u8, "a".into(), i64::MAX, i64::MAX).score, 101 * m);
}

#[test]
fn unknown_author_fallback() {
    let a = author_or_unknown(None, "user:9");
    assert_eq!(a.id, "user:9");
    assert_eq!(a.username, "unknown");
    assert_eq!(a.display_name, "Unknown Author");
    assert!(a.avatar_url.is_none() && !a.is_verified);
    let found = AuthorInfo {
        id: "p".into(),
        username: "n".into(),
        display_name: "N".into(),
        avatar_url: Some("x".into()),
        is_verified: true,
    };
    assert_eq!(author_or_unknown(Some(found), "user:9").username, "n");
}

#[test]
fn trending_filters_for_tags_and_authors() {
    let tail = " AND created_at >= d'2024-01-01T00:00:00+00:00' ORDER BY trending_score DESC, created_at DESC LIMIT $limit";
    assert_eq!(trending_filters(None, false, "2024-01-01T00:00:00+00:00"), tail);
    assert_eq!(
        trending_filters(Some(3), true, "2024-01-01T00:00:00+00:00"),
        format!(
            " AND ($tag_0 IN tags OR $tag_1 IN tags OR $tag_2 IN tags) AND author_id IN $authors{}",
            tail
        )
    );
    assert_eq!(
        trending_filters(Some(1), false, "2024-01-01T00:00:00+00:00"),
        format!(" AND ($tag_0 IN tags){}", tail)
    );
    assert_eq!(
        trending_filters(Some(0), false, "2024-01-01T00:00:00+00:00"),
        format!(" AND (){}", tail)
    );
    assert_eq!(tag_param_name(0), "tag_0");
    assert_eq!(tag_param_name(12), "tag_12");
}
