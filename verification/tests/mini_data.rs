//! The slim projection with accessors and one tags string.

use shuller::rules::rule34::data::{Post, Posts};
use shuller::rules::rule34::mini_data::{MiniPost, MiniPosts};

fn record(id: i64, tags: &str, stem: &str) -> Post {
    let mut p = Post::default();
    p.id = id;
    p.file_url = format!("https://cdn.example/f/{}", stem);
    p.tags = tags.to_string();
    p.width = 1920;
    p.height = 1080;
    p
}

fn collection() -> Posts {
    Posts(vec![
        record(10, "dark fish", "a.png"),
        record(11, "ai_generated", "b.png"),
    ])
}

#[test]
fn mini_accessors() {
    let posts = collection();
    let mini = MiniPost::from_post(&posts.data_ref()[0]);
    assert_eq!(mini.id(), 10);
    assert_eq!(mini.file_url(), "https://cdn.example/f/a.png");
    assert_eq!(mini.width(), 1920);
    assert_eq!(mini.height(), 1080);
    assert_eq!(mini.tags(), "dark fish");
    assert_eq!(mini.tags_vec(), vec!["dark", "fish"]);
}

#[test]
fn mini_collection_views() {
    let posts = collection();
    let minis = MiniPosts::from_posts(&posts);
    assert_eq!(minis.len(), 2);
    assert!(!minis.is_empty());
    assert_eq!(
        minis.get_urls(),
        vec!["https://cdn.example/f/a.png", "https://cdn.example/f/b.png"]
    );
    assert_eq!(minis.get_url(), Some("https://cdn.example/f/a.png"));
}

#[test]
fn mini_empty_collection() {
    let posts = Posts(vec![]);
    let minis = MiniPosts::from_posts(&posts);
    assert!(minis.is_empty());
    assert_eq!(minis.get_url(), None);
    assert_eq!(minis.get_urls().len(), 0);
    assert!(minis.shuffle().is_empty());
}

#[test]
fn mini_random_and_shuffle() {
    let posts = collection();
    let minis = MiniPosts::from_posts(&posts);
    let one = minis.get_random(1);
    assert_eq!(one.len(), 1);
    let full = minis.shuffle();
    let mut ids: Vec<u64> = full.data().iter().map(|m| m.id()).collect();
    ids.sort();
    assert_eq!(ids, vec![10, 11]);
    assert_eq!(minis.get_random_urls(2).len(), 2);
    assert_eq!(minis.get_random(0).len(), 0);
}

#[test]
fn mini_detail_list_exact_format() {
    let posts = Posts(vec![record(7, "x y", "u.png")]);
    let minis = MiniPosts::from_posts(&posts);
    let lines = minis.make_detail_list();
    assert_eq!(
        lines,
        vec!["id: 7, tags: \"x y\", url: https://cdn.example/f/u.png".to_string()]
    );
}

#[test]
fn mini_from_vec_keeps_order() {
    let posts = collection();
    let a = MiniPost::from_post(&posts.data_ref()[0]);
    let b = MiniPost::from_post(&posts.data_ref()[1]);
    let minis = MiniPosts::from_vec(vec![b, a]);
    assert_eq!(minis.data()[0].id(), 11);
    assert_eq!(minis.data()[1].id(), 10);
}
