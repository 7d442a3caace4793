use baz_launcher::json::parse;
use baz_launcher::memory::{ReleaseMemory, REMEMBER_FOR};

#[test]
fn an_answer_is_kept_for_five_minutes() {
    assert_eq!(REMEMBER_FOR, 5 * 60 * 1_000_000_000);
    let release = parse(br#"{"tag_name":"v1"}"#).unwrap();
    let mut memory = ReleaseMemory::new();
    assert!(memory.remembered_release("a/b", 0).is_none());
    memory.remember_release("a/b", &release, 1_000);
    let kept = memory.remembered_release("a/b", 1_000).unwrap();
    assert_eq!(kept.text_at("tag_name").unwrap(), "v1");
    assert!(memory.remembered_release("a/b", 1_000 + REMEMBER_FOR - 1).is_some());
    assert!(memory.remembered_release("a/b", 1_000 + REMEMBER_FOR).is_none());
    assert!(memory.remembered_release("a/b", 0).is_some());
}

#[test]
fn answers_do_not_mix() {
    let one = parse(br#"{"tag_name":"v1"}"#).unwrap();
    let two = parse(br#"{"tag_name":"v2"}"#).unwrap();
    let mut memory = ReleaseMemory::new();
    memory.remember_release("a/b", &one, 0);
    memory.remember_release("a/c", &two, 0);
    assert_eq!(memory.remembered_release("a/b", 1).unwrap().text_at("tag_name").unwrap(), "v1");
    memory.remember_release("a/b", &two, 2);
    assert_eq!(memory.remembered_release("a/b", 3).unwrap().text_at("tag_name").unwrap(), "v2");
    assert!(memory.remembered_release("A/b", 3).is_none());
}
