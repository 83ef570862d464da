use std::hash::{DefaultHasher, Hash, Hasher};

use health_monitor::tag::{DeadlineTag, MonitorTag, StateTag, Tag};

fn compare_tag(tag: Tag, expected: &str) {
    assert_eq!(tag.as_str(), expected);
}

#[test]
fn tag_debug() {
    let example_str = "EXAMPLE";
    let tag = Tag::from_string(example_str.to_string());
    assert_eq!(tag.debug_string(), "Tag(EXAMPLE)");
}

#[test]
fn tag_hash_is_eq() {
    let tag1 = Tag::from_str("same");
    let hash1: u64 = {
        let mut hasher = DefaultHasher::new();
        tag1.hash(&mut hasher);
        hasher.finish()
    };

    let tag2 = Tag::from_str("same");
    let hash2: u64 = {
        let mut hasher = DefaultHasher::new();
        tag2.hash(&mut hasher);
        hasher.finish()
    };

    assert_eq!(hash1, hash2);
}

#[test]
fn tag_hash_is_ne() {
    let tag1 = Tag::from_str("first");
    let hash1: u64 = {
        let mut hasher = DefaultHasher::new();
        tag1.hash(&mut hasher);
        hasher.finish()
    };

    let tag2 = Tag::from_str("second");
    let hash2: u64 = {
        let mut hasher = DefaultHasher::new();
        tag2.hash(&mut hasher);
        hasher.finish()
    };

    assert_ne!(hash1, hash2);
}

#[test]
fn tag_partial_eq_is_eq() {
    let tag1 = Tag::from_str("same");
    let tag2 = Tag::from_str("same");
    assert_eq!(tag1, tag2);
}

#[test]
fn tag_partial_eq_is_ne() {
    let tag1 = Tag::from_str("first");
    let tag2 = Tag::from_str("second");
    assert_ne!(tag1, tag2);
}

#[test]
fn test_from_string() {
    let example_str = "EXAMPLE";
    let tag = Tag::from_string(example_str.to_string());
    compare_tag(tag, example_str);
}

#[test]
fn test_from_str() {
    let example_str = "EXAMPLE";
    let tag = Tag::from_str(example_str);
    compare_tag(tag, example_str);
}

#[test]
fn monitor_tag_debug() {
    let example_str = "EXAMPLE";
    let tag = MonitorTag::from_string(example_str.to_string());
    assert_eq!(tag.debug_string(), "MonitorTag(EXAMPLE)");
}

#[test]
fn monitor_tag_from_string() {
    let example_str = "EXAMPLE";
    let tag = MonitorTag::from_string(example_str.to_string());
    assert_eq!(tag.as_str(), example_str);
}

#[test]
fn monitor_tag_from_str() {
    let example_str = "EXAMPLE";
    let tag = MonitorTag::from_str(example_str);
    assert_eq!(tag.as_str(), example_str);
}

#[test]
fn deadline_tag_debug() {
    let example_str = "EXAMPLE";
    let tag = DeadlineTag::from_string(example_str.to_string());
    assert_eq!(tag.debug_string(), "DeadlineTag(EXAMPLE)");
}

#[test]
fn deadline_tag_from_string() {
    let example_str = "EXAMPLE";
    let tag = DeadlineTag::from_string(example_str.to_string());
    assert_eq!(tag.as_str(), example_str);
}

#[test]
fn deadline_tag_from_str() {
    let example_str = "EXAMPLE";
    let tag = DeadlineTag::from_str(example_str);
    assert_eq!(tag.as_str(), example_str);
}

#[test]
fn state_tag_debug() {
    let example_str = "EXAMPLE";
    let tag = StateTag::from_string(example_str.to_string());
    assert_eq!(tag.debug_string(), "StateTag(EXAMPLE)");
}

#[test]
fn state_tag_from_string() {
    let example_str = "EXAMPLE";
    let tag = StateTag::from_string(example_str.to_string());
    assert_eq!(tag.as_str(), example_str);
}

#[test]
fn state_tag_from_str() {
    let example_str = "EXAMPLE";
    let tag = StateTag::from_str(example_str);
    assert_eq!(tag.as_str(), example_str);
}

#[test]
fn ident_tag_new_holds_content() {
    let tag = health_monitor::tag::IdentTag::new("deadline_a");
    assert_eq!(tag.as_str(), "deadline_a");
    assert_eq!(tag.debug_string(), "IdentTag(deadline_a)");
}

#[test]
fn ident_tag_clone_is_equal() {
    let tag = health_monitor::tag::IdentTag::from_str("deadline_a");
    let copy = tag.clone();
    assert_eq!(tag, copy);
}
