//! The link type, the first-variant post list and the owned-string builder.

use shuller::link::link::Link;
use shuller::link::post::{Post, Posts};
use shuller::state::Params;

#[test]
fn link_keeps_its_text() {
    let link = Link::init("https://api.rule34.xxx/index.php?json=1".to_string());
    assert_eq!(link.url(), "https://api.rule34.xxx/index.php?json=1");
}

#[test]
fn post_url_getters() {
    let mut a = Post::default();
    a.preview_url = "p1".to_string();
    a.sample_url = "s1".to_string();
    a.file_url = "f1".to_string();
    let mut b = Post::default();
    b.preview_url = "p2".to_string();
    b.sample_url = "s2".to_string();
    b.file_url = "f2".to_string();
    let posts = Posts(vec![a, b]);
    assert_eq!(posts.get_p_urls(), vec!["p1", "p2"]);
    assert_eq!(posts.get_s_urls(), vec!["s1", "s2"]);
    assert_eq!(posts.get_f_urls(), vec!["f1", "f2"]);
    assert_eq!(posts.get_p_url(), Some("p1"));
    assert_eq!(posts.get_s_url(), Some("s1"));
    assert_eq!(posts.get_f_url(), Some("f1"));
    let empty = Posts(vec![]);
    assert_eq!(empty.get_p_url(), None);
    assert_eq!(empty.get_f_urls().len(), 0);
}

#[test]
fn state_builder_chain() {
    let params = Params::init()
        .positive_tags(vec!["dark".to_string(), "fish".to_string()])
        .negative_tags(vec!["ai_generated".to_string()])
        .limit(3)
        .page(2);
    assert_eq!(params.limit, 3);
    assert_eq!(params.page, 2);
    assert_eq!(params.tags_suppress(), "dark fish -ai_generated");
    assert_eq!(
        params.build(),
        "https://api.rule34.xxx/index.php?page=dapi&s=post&q=index\
         &tags=dark fish -ai_generated&json=1&limit=3&pid=2"
    );
}

#[test]
fn state_limit_clamped() {
    let params = Params::init().limit(4321);
    assert_eq!(params.limit, 1000);
    let kept = Params::init().limit(999);
    assert_eq!(kept.limit, 999);
}

#[test]
fn state_default_build() {
    let params = Params::init();
    assert_eq!(
        params.build(),
        "https://api.rule34.xxx/index.php?page=dapi&s=post&q=index&tags= &json=1&limit=1&pid=1"
    );
}
