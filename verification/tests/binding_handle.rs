use macos_haptics::binding_handle::AlignmentFeedbackId;
use std::cmp::Ordering;
use std::collections::BTreeSet;
use std::str::FromStr;

#[test]
fn is_eq() {
    assert_eq!(AlignmentFeedbackId::new("t"), "t",);
    assert_eq!(AlignmentFeedbackId::new("t"), String::from("t"));
    assert_eq!(AlignmentFeedbackId::new("t"), &String::from("t"));
    assert_eq!(AlignmentFeedbackId::new("t"), AlignmentFeedbackId::new("t"));
    assert_eq!(
        AlignmentFeedbackId::new("t"),
        &AlignmentFeedbackId::new("t")
    );
    assert_eq!(
        &AlignmentFeedbackId::new("t"),
        &AlignmentFeedbackId::new("t")
    );
    assert_eq!(AlignmentFeedbackId::new("t").as_ref(), "t");
}

#[test]
fn is_ne() {
    assert_ne!(AlignmentFeedbackId::new("t"), "u");
    assert_ne!(AlignmentFeedbackId::new("t"), "");
    assert_ne!(AlignmentFeedbackId::new("t"), "tt");
    assert_ne!(AlignmentFeedbackId::new("t"), String::from("T"));
    assert_ne!(AlignmentFeedbackId::new("t"), &String::from("u"));
    assert_ne!(AlignmentFeedbackId::new("t"), AlignmentFeedbackId::new("u"));
    assert_ne!(AlignmentFeedbackId::new("t"), &AlignmentFeedbackId::new("u"));
    assert_ne!(&AlignmentFeedbackId::new("t"), "u");
    assert_ne!(&AlignmentFeedbackId::new("t"), String::from("u"));
}

#[test]
fn reference_compares_with_text() {
    let id = AlignmentFeedbackId::new("filter-1");
    assert!(&id == "filter-1");
    assert!(&id == String::from("filter-1"));
}

#[test]
fn new_keeps_the_text() {
    let id = AlignmentFeedbackId::new("héllo wörld");
    assert_eq!(id.0, "héllo wörld");
    assert_eq!(id.as_ref(), "héllo wörld");
    assert_eq!(AlignmentFeedbackId::new("").as_ref(), "");
}

#[test]
fn default_is_empty() {
    assert_eq!(AlignmentFeedbackId::default(), "");
    assert_eq!(AlignmentFeedbackId::default().0.len(), 0);
}

#[test]
fn clone_is_equal() {
    let id = AlignmentFeedbackId::new("a");
    let copy = id.clone();
    assert_eq!(id, copy);
    assert_eq!(copy.as_ref(), "a");
}

#[test]
fn from_any_displayed_value() {
    assert_eq!(AlignmentFeedbackId::from("t"), "t");
    assert_eq!(AlignmentFeedbackId::from(String::from("t")), "t");
    assert_eq!(AlignmentFeedbackId::from(42u32), "42");
    assert_eq!(AlignmentFeedbackId::from('c'), "c");
    let id: AlignmentFeedbackId = "into".into();
    assert_eq!(id, "into");
}

#[test]
fn from_str_never_fails() {
    assert_eq!(AlignmentFeedbackId::from_str("t"), Ok(AlignmentFeedbackId::new("t")));
    let parsed: AlignmentFeedbackId = "parsed".parse().unwrap();
    assert_eq!(parsed, "parsed");
    assert_eq!(AlignmentFeedbackId::from_str("").unwrap(), "");
}

#[test]
fn order_is_lexicographic() {
    let id = AlignmentFeedbackId::new;
    assert_eq!(id("a").partial_cmp(&id("b")), Some(Ordering::Less));
    assert_eq!(id("b").partial_cmp(&id("a")), Some(Ordering::Greater));
    assert_eq!(id("a").partial_cmp(&id("a")), Some(Ordering::Equal));
    // A text comes after each of its proper beginnings.
    assert_eq!(id("ab").partial_cmp(&id("abc")), Some(Ordering::Less));
    assert_eq!(id("abc").partial_cmp(&id("ab")), Some(Ordering::Greater));
    assert_eq!(id("").partial_cmp(&id("a")), Some(Ordering::Less));
    // The first difference decides, not the length.
    assert_eq!(id("b").partial_cmp(&id("abc")), Some(Ordering::Greater));
    assert_eq!(id("10").partial_cmp(&id("9")), Some(Ordering::Less));
    // Code points decide: capitals come before small letters.
    assert_eq!(id("Z").partial_cmp(&id("a")), Some(Ordering::Less));
    assert_eq!(id("é").partial_cmp(&id("z")), Some(Ordering::Greater));
    assert!(id("a") < id("b"));
    assert!(id("b") > id("a"));
    assert!(id("a") <= id("a"));
    assert!(id("a") >= id("a"));
}

#[test]
fn total_order_agrees_with_partial_order() {
    let texts = ["", "a", "ab", "abc", "b", "Z", "é", "10", "9"];
    for a in texts {
        for b in texts {
            let x = AlignmentFeedbackId::new(a);
            let y = AlignmentFeedbackId::new(b);
            assert_eq!(x.partial_cmp(&y), Some(x.cmp(&y)));
            assert_eq!(x.cmp(&y), a.cmp(b));
            assert_eq!(x.cmp(&y), y.cmp(&x).reverse());
            assert_eq!(x == y, x.cmp(&y) == Ordering::Equal);
        }
    }
}

#[test]
fn ids_sort_as_keys() {
    let mut keys = BTreeSet::new();
    keys.insert(AlignmentFeedbackId::new("b"));
    keys.insert(AlignmentFeedbackId::new("a"));
    keys.insert(AlignmentFeedbackId::new("ab"));
    keys.insert(AlignmentFeedbackId::new("a"));
    let sorted: Vec<String> = keys.into_iter().map(|id| id.0).collect();
    assert_eq!(sorted, vec!["a", "ab", "b"]);
}
