//! The builder with percent-encoded URL generation and id lookup.

use shuller::rules::rule34::params::R34Params;
use shuller::text::suppress_tags;
use url::Url;

#[test]
fn r34_init() {
    let result = R34Params::init();
    assert_eq!(
        result,
        R34Params {
            p: "dapi",
            s: "post",
            q: "index",
            positive_tags: vec![],
            negative_tags: vec![],
            json: true,
            limit: 1,
            page: 1,
            id: None
        }
    );
}

#[test]
fn init_with_id() {
    let result = R34Params::init().id(2);
    assert_eq!(
        result,
        R34Params {
            p: "dapi",
            s: "post",
            q: "index",
            positive_tags: vec![],
            negative_tags: vec![],
            json: true,
            limit: 1,
            page: 1,
            id: Some(2)
        }
    );
}

#[test]
fn r34_positive_params() {
    let result = R34Params::init().positive_tags(vec!["test"]);
    assert_eq!(
        result,
        R34Params {
            p: "dapi",
            s: "post",
            q: "index",
            positive_tags: vec!["test"],
            negative_tags: vec![],
            json: true,
            limit: 1,
            page: 1,
            id: None
        }
    );
}

#[test]
fn r34_negative_params() {
    let result = R34Params::init().negative_tags(vec!["test"]);
    assert_eq!(
        result,
        R34Params {
            p: "dapi",
            s: "post",
            q: "index",
            positive_tags: vec![],
            negative_tags: vec!["test"],
            json: true,
            limit: 1,
            page: 1,
            id: None
        }
    );
}

#[test]
fn r34_limit() {
    let result = R34Params::init().limit(30);
    assert_eq!(
        result,
        R34Params {
            p: "dapi",
            s: "post",
            q: "index",
            positive_tags: vec![],
            negative_tags: vec![],
            json: true,
            limit: 30,
            page: 1,
            id: None
        }
    );
}

#[test]
fn r34_limit_greaten() {
    let result = R34Params::init().limit(1001);
    assert_eq!(
        result,
        R34Params {
            p: "dapi",
            s: "post",
            q: "index",
            positive_tags: vec![],
            negative_tags: vec![],
            json: true,
            limit: 1000,
            page: 1,
            id: None
        }
    );
}

#[test]
fn r34_tag_suppress() {
    let result = R34Params::init()
        .negative_tags(vec!["test"])
        .positive_tags(vec!["test"]);
    assert_eq!(
        suppress_tags(&result.positive_tags, &result.negative_tags),
        format!("test -test")
    )
}

#[test]
fn r34_page() {
    let result = R34Params::init().page(30);
    assert_eq!(
        result,
        R34Params {
            p: "dapi",
            s: "post",
            q: "index",
            positive_tags: vec![],
            negative_tags: vec![],
            json: true,
            limit: 1,
            page: 30,
            id: None
        }
    );
}

#[test]
fn r34_build() {
    let result = R34Params::init()
        .negative_tags(vec!["ai_generated"])
        .positive_tags(vec!["anime", "base", "sunglasses"])
        .limit(5)
        .page(2)
        .url_generate();
    let expected = Url::parse_with_params(
        "https://api.rule34.xxx/index.php?",
        [
            ("page", "dapi"),
            ("s", "post"),
            ("q", "index"),
            ("tags", "anime base sunglasses -ai_generated"),
            ("json", "1"),
            ("limit", "5"),
            ("pid", "2"),
        ],
    )
    .unwrap();
    assert_eq!(result.url(), expected.as_str())
}

#[test]
fn r34_url_with_id_matches_url_crate() {
    let result = R34Params::init().id(10542274).url_generate();
    let expected = Url::parse_with_params(
        "https://api.rule34.xxx/index.php?",
        [
            ("page", "dapi"),
            ("s", "post"),
            ("q", "index"),
            ("tags", " "),
            ("json", "1"),
            ("limit", "1"),
            ("pid", "1"),
            ("id", "10542274"),
        ],
    )
    .unwrap();
    assert_eq!(result.url(), expected.as_str())
}

#[test]
fn r34_url_round_trip_recovers_params() {
    let result = R34Params::init()
        .positive_tags(vec!["anime", "base", "sunglasses"])
        .negative_tags(vec!["ai_generated"])
        .limit(5)
        .page(2)
        .url_generate();
    let parsed = Url::parse(result.url()).unwrap();
    let pairs: Vec<(String, String)> = parsed
        .query_pairs()
        .map(|(k, v)| (k.into_owned(), v.into_owned()))
        .collect();
    assert_eq!(
        pairs,
        vec![
            ("page".to_string(), "dapi".to_string()),
            ("s".to_string(), "post".to_string()),
            ("q".to_string(), "index".to_string()),
            (
                "tags".to_string(),
                "anime base sunglasses -ai_generated".to_string()
            ),
            ("json".to_string(), "1".to_string()),
            ("limit".to_string(), "5".to_string()),
            ("pid".to_string(), "2".to_string()),
        ]
    );
}

#[test]
fn r34_url_round_trip_escaped_tags() {
    let result = R34Params::init()
        .positive_tags(vec![":)", "a&b"])
        .negative_tags(vec!["x=y"])
        .limit(305)
        .url_generate();
    let text = result.url();
    assert!(text.contains("tags=%3A%29+a%26b+-x%3Dy"));
    assert!(text.contains("limit=305"));
    let parsed = Url::parse(text).unwrap();
    let tags = parsed
        .query_pairs()
        .find(|(k, _)| k == "tags")
        .map(|(_, v)| v.into_owned())
        .unwrap();
    assert_eq!(tags, ":) a&b -x=y");
}

#[test]
fn r34_gen_id_bounded_and_varying() {
    let mut ids = vec![];
    for _ in 0..64 {
        let params = R34Params::init().gen_id();
        let id = params.id.unwrap();
        assert!(id < 10900000);
        ids.push(id);
    }
    let first = ids[0];
    assert!(
        ids.iter().any(|&x| x != first),
        "the drawn ids are not guaranteed equal; a fixed seed would make them so"
    );
}
