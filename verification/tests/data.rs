//! The response model, its compact views and the sampling helpers.

use shuller::rules::rule34::data::{MiniPost, MiniPosts, Post, Posts};

fn record(id: i64, tags: &str, stem: &str) -> Post {
    let mut p = Post::default();
    p.id = id;
    p.preview_url = format!("https://cdn.example/p/{}", stem);
    p.sample_url = format!("https://cdn.example/s/{}", stem);
    p.file_url = format!("https://cdn.example/f/{}", stem);
    p.tags = tags.to_string();
    p.width = 800;
    p.height = 600;
    p.sample_width = 80;
    p.sample_height = 60;
    p
}

fn three() -> Posts {
    Posts(vec![
        record(1, "dark fish", "one.png"),
        record(2, "ai_generated", "two.png"),
        record(3, "dark", "three.png"),
    ])
}

#[test]
fn data_url_getters_keep_order() {
    let posts = three();
    assert_eq!(
        posts.get_p_urls(),
        vec![
            "https://cdn.example/p/one.png",
            "https://cdn.example/p/two.png",
            "https://cdn.example/p/three.png"
        ]
    );
    assert_eq!(posts.get_s_urls()[1], "https://cdn.example/s/two.png");
    assert_eq!(posts.get_f_urls()[2], "https://cdn.example/f/three.png");
    assert_eq!(posts.get_p_url(), Some("https://cdn.example/p/one.png"));
    assert_eq!(posts.get_s_url(), Some("https://cdn.example/s/one.png"));
    assert_eq!(posts.get_f_url(), Some("https://cdn.example/f/one.png"));
}

#[test]
fn data_empty_collection() {
    let posts = Posts(vec![]);
    assert!(posts.is_empty());
    assert_eq!(posts.get_p_urls().len(), 0);
    assert_eq!(posts.get_f_url(), None);
    assert_eq!(posts.get_url_ext().map(|m| m.id), None);
    assert_eq!(posts.get_urls_ext().len(), 0);
    let shuffled = posts.shuffle();
    assert!(shuffled.is_empty());
}

#[test]
fn data_compact_views_match_source() {
    let posts = three();
    let minis = posts.get_urls_ext();
    assert_eq!(minis.len(), 3);
    let ids: Vec<u64> = minis.data().iter().map(|m| m.id).collect();
    assert_eq!(ids, vec![1, 2, 3]);
    assert_eq!(minis.data()[0].tags, vec!["dark", "fish"]);
    assert_eq!(minis.data()[1].tags, vec!["ai_generated"]);
    assert_eq!(minis.data()[0].file_url, "https://cdn.example/f/one.png");
    assert_eq!(minis.data()[0].width, 800);
    assert_eq!(minis.data()[0].sample_height, 60);
    let first = posts.get_url_ext().unwrap();
    assert_eq!(first.id, 1);
}

#[test]
fn data_shuffle_permutes_ids() {
    let posts = three();
    let shuffled = posts.shuffle();
    assert!(!shuffled.is_empty());
    let mut ids: Vec<i64> = shuffled.data().iter().map(|p| p.id).collect();
    ids.sort();
    assert_eq!(ids, vec![1, 2, 3]);
}

#[test]
fn data_random_urls_draw_without_replacement() {
    let posts = three();
    let two = posts.get_random_f_urls(2);
    assert_eq!(two.len(), 2);
    assert_ne!(two[0], two[1]);
    let all = posts.get_random_p_urls(3);
    let mut sorted = all.clone();
    sorted.sort();
    let mut expected = posts.get_p_urls();
    expected.sort();
    assert_eq!(sorted, expected);
    assert_eq!(posts.get_random_s_urls(0).len(), 0);
}

#[test]
fn data_mini_random_and_shuffle() {
    let posts = three();
    let minis = posts.get_urls_ext();
    let one = minis.get_random(1);
    assert_eq!(one.len(), 1);
    let full = minis.shuffle();
    let mut ids: Vec<u64> = full.data().iter().map(|m| m.id).collect();
    ids.sort();
    assert_eq!(ids, vec![1, 2, 3]);
    assert_eq!(minis.get_random_f_urls(1).len(), 1);
    assert_eq!(minis.get_random_p_urls(2).len(), 2);
    assert_eq!(minis.get_random_s_urls(3).len(), 3);
    assert_eq!(minis.get_p_urls().len(), 3);
    assert_eq!(minis.get_s_urls()[0], "https://cdn.example/s/one.png");
    assert_eq!(minis.get_f_url(), Some("https://cdn.example/f/one.png"));
    assert_eq!(minis.get_p_url(), Some("https://cdn.example/p/one.png"));
    assert_eq!(minis.get_s_url(), Some("https://cdn.example/s/one.png"));
}

#[test]
fn data_detail_list_exact_format() {
    let posts = Posts(vec![record(7, "x y", "u.png")]);
    let minis = posts.get_urls_ext();
    let lines = minis.make_detail_list();
    assert_eq!(
        lines,
        vec![
            "id: 7, tags: [\n    \"x\",\n    \"y\",\n], url: https://cdn.example/f/u.png"
                .to_string()
        ]
    );
}

#[test]
fn data_detail_list_escapes_quotes() {
    let posts = Posts(vec![record(1, "a\"b", "v.png")]);
    let lines = posts.get_urls_ext().make_detail_list();
    assert_eq!(
        lines[0],
        "id: 1, tags: [\n    \"a\\\"b\",\n], url: https://cdn.example/f/v.png"
    );
}

#[test]
fn data_from_post_splits_tags() {
    let post = record(5, "a  b", "w.png");
    let mini = MiniPost::from_post(&post);
    assert_eq!(mini.tags, vec!["a", "", "b"]);
    let empty = record(6, "", "x.png");
    let mini = MiniPost::from_post(&empty);
    assert_eq!(mini.tags, vec![""]);
}

#[test]
fn data_accessors_and_clones() {
    let posts = three();
    let copy = posts.clone();
    assert_eq!(copy, posts);
    assert_eq!(posts.data_ref().len(), 3);
    let minis = MiniPosts::from_posts(&posts);
    let mini_copy = minis.data()[0].clone();
    assert_eq!(mini_copy.id, 1);
    let owned = copy.data();
    assert_eq!(owned.len(), 3);
    assert_eq!(owned[2].id, 3);
}

#[test]
fn data_negative_id_wraps_to_unsigned() {
    let post = record(-1, "t", "y.png");
    let mini = MiniPost::from_post(&post);
    assert_eq!(mini.id, u64::MAX);
}
