//! The builder that finalizes through `MakeLink`.

use shuller::link::link::{Link, MakeLink};
use shuller::params::params::Params;
use shuller::params::rule::Rule34;

#[test]
fn params_init() {
    let result = Params::init();
    assert_eq!(
        result,
        Params {
            p: "dapi",
            s: "post",
            q: "index",
            positive_tags: vec![],
            negative_tags: vec![],
            json: true,
            limit: 1,
            page: 1,
        }
    );
}

#[test]
fn params_positive_params() {
    let result = Params::init().positive_tags(vec!["test"]);
    assert_eq!(
        result,
        Params {
            p: "dapi",
            s: "post",
            q: "index",
            positive_tags: vec!["test"],
            negative_tags: vec![],
            json: true,
            limit: 1,
            page: 1,
        }
    );
}

#[test]
fn params_negative_params() {
    let result = Params::init().negative_tags(vec!["test"]);
    assert_eq!(
        result,
        Params {
            p: "dapi",
            s: "post",
            q: "index",
            positive_tags: vec![],
            negative_tags: vec!["test"],
            json: true,
            limit: 1,
            page: 1,
        }
    );
}

#[test]
fn params_limit() {
    let result = Params::init().limit(30);
    assert_eq!(
        result,
        Params {
            p: "dapi",
            s: "post",
            q: "index",
            positive_tags: vec![],
            negative_tags: vec![],
            json: true,
            limit: 30,
            page: 1,
        }
    );
}

#[test]
fn params_limit_greaten() {
    let result = Params::init().limit(1001);
    assert_eq!(
        result,
        Params {
            p: "dapi",
            s: "post",
            q: "index",
            positive_tags: vec![],
            negative_tags: vec![],
            json: true,
            limit: 1000,
            page: 1,
        }
    );
}

#[test]
fn params_tag_suppress() {
    let result = Params::init()
        .negative_tags(vec!["test"])
        .positive_tags(vec!["test"])
        .tags_suppress();
    assert_eq!(result, format!("test -test"))
}

#[test]
fn params_json_convert() {
    let result = Params::init().json_convert();
    assert_eq!(result, 1)
}

#[test]
fn params_page() {
    let result = Params::init().page(30);
    assert_eq!(
        result,
        Params {
            p: "dapi",
            s: "post",
            q: "index",
            positive_tags: vec![],
            negative_tags: vec![],
            json: true,
            limit: 1,
            page: 30,
        }
    );
}

#[test]
fn params_build() {
    let result = Params::init()
        .negative_tags(vec!["ai_generated"])
        .positive_tags(vec!["anime", "base", "sunglasses"])
        .limit(5)
        .page(2)
        .make_link();
    let expected = Link::init(format!(
        "https://api.rule34.xxx/index.php?page={}&s={}&q={}&tags={}&json={}&limit={}&pid={}",
        "dapi", "post", "index", "anime base sunglasses -ai_generated", 1, 5, 2
    ));
    assert_eq!(result, expected)
}

#[test]
fn params_empty_tags_single_space() {
    let result = Params::init().tags_suppress();
    assert_eq!(result, " ")
}

#[test]
fn params_encode_small_lists() {
    let result = Params::init()
        .positive_tags(vec!["a", "b"])
        .negative_tags(vec!["c"])
        .tags_suppress();
    assert_eq!(result, "a b -c")
}

#[test]
fn params_limit_kept_at_bound() {
    let kept = Params::init().limit(1000);
    assert_eq!(kept.limit, 1000);
    let zero = Params::init().limit(0);
    assert_eq!(zero.limit, 0);
    let max = Params::init().limit(u16::MAX);
    assert_eq!(max.limit, 1000);
}
