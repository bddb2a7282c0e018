//! The builder variant that assembles its link through its own trait.

use shuller::link::link::Link;
use shuller::rule34::params::Params;
use shuller::rule34::rule::Rule34;

#[test]
fn init() {
    let result = Params::init();
    assert_eq!(
        result,
        Params {
            p: "dapi",
            s: "post",
            q: "index",
            positive_tags: vec![],
            negative_tags: vec![],
            json: true,
            limit: 1,
            page: 1,
        }
    );
}

#[test]
fn positive_params() {
    let result = Params::init().positive_tags(vec!["test"]);
    assert_eq!(
        result,
        Params {
            p: "dapi",
            s: "post",
            q: "index",
            positive_tags: vec!["test"],
            negative_tags: vec![],
            json: true,
            limit: 1,
            page: 1,
        }
    );
}

#[test]
fn negative_params() {
    let result = Params::init().negative_tags(vec!["test"]);
    assert_eq!(
        result,
        Params {
            p: "dapi",
            s: "post",
            q: "index",
            positive_tags: vec![],
            negative_tags: vec!["test"],
            json: true,
            limit: 1,
            page: 1,
        }
    );
}

#[test]
fn limit() {
    let result = Params::init().limit(30);
    assert_eq!(
        result,
        Params {
            p: "dapi",
            s: "post",
            q: "index",
            positive_tags: vec![],
            negative_tags: vec![],
            json: true,
            limit: 30,
            page: 1,
        }
    );
}

#[test]
fn limit_greaten() {
    let result = Params::init().limit(1001);
    assert_eq!(
        result,
        Params {
            p: "dapi",
            s: "post",
            q: "index",
            positive_tags: vec![],
            negative_tags: vec![],
            json: true,
            limit: 1000,
            page: 1,
        }
    );
}

#[test]
fn tag_suppress() {
    let result = Params::init()
        .negative_tags(vec!["test"])
        .positive_tags(vec!["test"])
        .tags_suppress();
    assert_eq!(result, format!("test -test"))
}

#[test]
fn json_convert() {
    let result = Params::init().json_convert();
    assert_eq!(result, 1)
}

#[test]
fn page() {
    let result = Params::init().page(30);
    assert_eq!(
        result,
        Params {
            p: "dapi",
            s: "post",
            q: "index",
            positive_tags: vec![],
            negative_tags: vec![],
            json: true,
            limit: 1,
            page: 30,
        }
    );
}

#[test]
fn build() {
    let result = Params::init()
        .positive_tags(vec![":)"])
        .negative_tags(vec![":("])
        .limit(5)
        .page(2)
        .build();
    let expected = Link::init(format!(
        "https://api.rule34.xxx/index.php?page={}&s={}&q={}&tags={}&json={}&limit={}&pid={}",
        "dapi", "post", "index", ":) -:(", 1, 5, 2
    ));
    assert_eq!(result, expected)
}
