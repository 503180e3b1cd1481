//! The tag map.

use aws_hcl::aws::emit::{reference_token, strings_expression, tags_expression};
use aws_hcl::aws::tags::Tags;
use aws_hcl::ir::Expr;

fn s(text: &str) -> String {
    text.to_string()
}

#[test]
fn new_map_is_empty() {
    let tags = Tags::new();
    assert_eq!(tags.len(), 0);
    assert!(tags.is_empty());
}

#[test]
fn insert_appends_new_keys_in_order() {
    let mut tags = Tags::new();
    assert_eq!(tags.insert(s("b"), s("1")), None);
    assert_eq!(tags.insert(s("a"), s("2")), None);
    assert_eq!(tags.insert(s("c"), s("3")), None);
    assert_eq!(tags.len(), 3);
    assert!(!tags.is_empty());
    assert_eq!(tags.entry(0), (&s("b"), &s("1")));
    assert_eq!(tags.entry(1), (&s("a"), &s("2")));
    assert_eq!(tags.entry(2), (&s("c"), &s("3")));
}

#[test]
fn insert_replaces_in_place_and_returns_the_old_value() {
    let mut tags = Tags::new();
    tags.insert(s("b"), s("1"));
    tags.insert(s("a"), s("2"));
    tags.insert(s("c"), s("3"));
    assert_eq!(tags.insert(s("b"), s("9")), Some(s("1")));
    assert_eq!(tags.insert(s("c"), s("8")), Some(s("3")));
    assert_eq!(tags.len(), 3);
    assert_eq!(tags.entry(0), (&s("b"), &s("9")));
    assert_eq!(tags.entry(1), (&s("a"), &s("2")));
    assert_eq!(tags.entry(2), (&s("c"), &s("8")));
}

#[test]
fn from_pairs_lets_the_later_pair_win() {
    let tags = Tags::from_pairs(vec![
        (s("k"), s("1")),
        (s("j"), s("2")),
        (s("k"), s("3")),
    ]);
    assert_eq!(tags.len(), 2);
    assert_eq!(tags.entry(0), (&s("k"), &s("3")));
    assert_eq!(tags.entry(1), (&s("j"), &s("2")));
    let mut same = Tags::new();
    same.insert(s("k"), s("3"));
    same.insert(s("j"), s("2"));
    assert_eq!(tags, same);
    assert_eq!(Tags::from_pairs(vec![]), Tags::new());
}

#[test]
fn clone_keeps_tags_and_order() {
    let tags = Tags::from_pairs(vec![(s("x"), s("1")), (s("y"), s("2"))]);
    let copy = tags.clone();
    assert_eq!(copy, tags);
    assert_eq!(copy.entry(1), (&s("y"), &s("2")));
}

#[test]
fn tags_become_an_object_of_strings() {
    let tags = Tags::from_pairs(vec![(s("x"), s("1")), (s("y"), s("2"))]);
    assert_eq!(
        tags_expression(&tags),
        Expr::Object(vec![(s("x"), Expr::String(s("1"))), (s("y"), Expr::String(s("2")))])
    );
    assert_eq!(tags_expression(&Tags::new()), Expr::Object(vec![]));
}

#[test]
fn strings_become_an_array_of_strings() {
    assert_eq!(
        strings_expression(&vec![s("api"), s("audit")]),
        Expr::Array(vec![Expr::String(s("api")), Expr::String(s("audit"))])
    );
    assert_eq!(strings_expression(&vec![]), Expr::Array(vec![]));
}

#[test]
fn reference_token_is_an_interpolation() {
    assert_eq!(reference_token("aws_vpc", "main", "id"), "${aws_vpc.main.id}");
    assert_eq!(reference_token("aws_iam_role", "", "arn"), "${aws_iam_role..arn}");
}

#[test]
fn get_finds_the_value_of_a_key() {
    let tags = Tags::from_pairs(vec![(s("x"), s("1")), (s("y"), s("2")), (s("x"), s("3"))]);
    assert_eq!(tags.get("x"), Some(&s("3")));
    assert_eq!(tags.get("y"), Some(&s("2")));
    assert_eq!(tags.get("z"), None);
    assert_eq!(Tags::new().get("x"), None);
}
