use colang::dict::DictionaryRef;
use colang::dict_rows::{dictionary_step, DictionaryStep, NameCache};
use colang::vocab::{plan_vocabulary_links, vocabulary_lookups};
use colang::words::word_lower;

#[test]
fn list_words_are_read_in_lower_case() {
    assert_eq!(
        vocabulary_lookups(r#"["Apple", "banana", "CHERRY"]"#),
        Some(vec!["apple".to_string(), "banana".to_string(), "cherry".to_string()])
    );
    assert_eq!(vocabulary_lookups("[]"), Some(vec![]));
}

#[test]
fn text_that_is_no_list_of_strings_is_refused() {
    assert_eq!(vocabulary_lookups("not json"), None);
    assert_eq!(vocabulary_lookups(r#"{"a": 1}"#), None);
    assert_eq!(vocabulary_lookups("[1, 2]"), None);
}

#[test]
fn words_are_looked_up_in_lower_case() {
    assert_eq!(word_lower("Hello"), "hello");
    assert_eq!(word_lower("ÉCOLE"), "école");
}

#[test]
fn a_run_links_new_stored_words_once() {
    let ids = vec![Some(1), None, Some(2), Some(1), Some(3)];
    let plan = plan_vocabulary_links(&ids, &vec![2]);
    assert_eq!(plan.tally.words, 5);
    assert_eq!(plan.tally.associations, 2);
    assert_eq!(plan.new_links, vec![1, 3]);
}

#[test]
fn linking_a_list_twice_adds_nothing() {
    let ids = vec![Some(4), Some(5), None, Some(4)];
    let first = plan_vocabulary_links(&ids, &vec![]);
    assert_eq!(first.new_links, vec![4, 5]);
    let second = plan_vocabulary_links(&ids, &first.new_links);
    assert_eq!(second.tally.words, 4);
    assert_eq!(second.tally.associations, 0);
    assert!(second.new_links.is_empty());
}

#[test]
fn dictionary_references_resolve_by_id_cache_or_lookup() {
    let mut cache = NameCache::new();
    cache.insert("CET4", 9);
    assert!(matches!(dictionary_step(&DictionaryRef::Id(3), &cache), DictionaryStep::Use(3)));
    assert!(matches!(dictionary_step(&DictionaryRef::Name("CET4".to_string()), &cache), DictionaryStep::Use(9)));
    match dictionary_step(&DictionaryRef::Full { name: "GRE".to_string(), priority_order: Some(2) }, &cache) {
        DictionaryStep::Find(n) => assert_eq!(n, "GRE"),
        DictionaryStep::Use(_) => panic!("GRE is not cached"),
    }
    cache.insert("GRE", 12);
    assert!(matches!(dictionary_step(&DictionaryRef::Name("GRE".to_string()), &cache), DictionaryStep::Use(12)));
}
