use colang::dict::{
    category_code, clamp_difficulty, entry_word_count, entry_word_type, import_word_type,
    normalize_band, normalize_corpus_type, normalize_dict_part_of_speech, normalize_form_type,
    normalize_part_of_speech, normalize_register, normalize_word_type, parse_exchange_forms,
    process_json_entry, vocabulary_dictionary_name, year_as_string, DictionaryRef, JsonDictEntry,
    YearValue,
};
use colang::dict_rows::{
    audio_pronunciation_rows, audio_relative_path, bilingual_definition_rows, definition_rows,
    pronunciation_rows, related_word_plan, relation_type, stored_examples, DefinitionInput, FileOutcome,
    FilesTally, ImportTally, NameCache, PronunciationInput, VocabTally,
};

fn strings(v: &[&str]) -> Vec<String> {
    v.iter().map(|s| s.to_string()).collect()
}

#[test]
fn spellings_are_normalised() {
    assert_eq!(normalize_word_type("N.").as_deref(), Some("noun"));
    assert_eq!(normalize_word_type("Adj").as_deref(), Some("adjective"));
    assert_eq!(normalize_word_type("gerund"), None);
    assert_eq!(normalize_part_of_speech("VERB").as_deref(), Some("verb"));
    assert_eq!(normalize_dict_part_of_speech("a.").as_deref(), Some("adjective"));
    assert_eq!(normalize_dict_part_of_speech("int.").as_deref(), Some("interjection"));
    assert_eq!(normalize_register("Formal").as_deref(), Some("formal"));
    assert_eq!(normalize_form_type("PL").as_deref(), Some("plural"));
    assert_eq!(normalize_form_type("weird").as_deref(), Some("other"));
    assert_eq!(normalize_corpus_type("Spoken").as_deref(), Some("spoken"));
    assert_eq!(normalize_corpus_type("blogs").as_deref(), Some("general"));
    assert_eq!(normalize_band("Top-1000").as_deref(), Some("top_1000"));
    assert_eq!(normalize_band("top5000").as_deref(), Some("top_5000"));
    assert_eq!(normalize_band("rare"), None);
}

#[test]
fn exchange_forms_are_read() {
    let forms = parse_exchange_forms(&strings(&["s:schools", "p:schooled", "x:skip", "d:", "nocolon", "5:bigger"]));
    let got: Vec<(String, String)> = forms.iter().map(|f| (f.form_type.clone(), f.form.clone())).collect();
    assert_eq!(
        got,
        vec![
            ("plural".to_string(), "schools".to_string()),
            ("past_participle".to_string(), "schooled".to_string()),
            ("comparative".to_string(), "bigger".to_string()),
        ]
    );
}

fn entry(word: &str) -> JsonDictEntry {
    JsonDictEntry {
        word: word.to_string(),
        search_word: " apple ".to_string(),
        definition: strings(&["a fruit"]),
        translation: strings(&["苹果"]),
        part_of_speech: strings(&["n."]),
        exchange: strings(&["s:apples"]),
        examples: strings(&["An apple a day."]),
        phonetic: "ˈæpl".to_string(),
    }
}

#[test]
fn source_entries_are_prepared() {
    let e = process_json_entry(entry("  Apple ")).unwrap();
    assert_eq!(e.word, "Apple");
    assert_eq!(e.word_lower, "apple");
    assert_eq!(e.part_of_speech.as_deref(), Some("noun"));
    assert_eq!(e.word_forms.len(), 1);
    assert!(process_json_entry(entry("   ")).is_none());
    assert!(process_json_entry(entry(&"w".repeat(201))).is_none());
    assert!(process_json_entry(entry(&"w".repeat(200))).is_some());
}

#[test]
fn word_fields_of_entries() {
    assert_eq!(import_word_type("ice cream", &Some("noun".to_string())).as_deref(), Some("phrase"));
    assert_eq!(import_word_type("ice", &Some("noun".to_string())).as_deref(), Some("noun"));
    assert_eq!(entry_word_type("ice", &Some("N".to_string())).as_deref(), Some("noun"));
    assert_eq!(entry_word_type("a lot", &None).as_deref(), Some("phrase"));
    assert_eq!(clamp_difficulty(Some(9)), Some(5));
    assert_eq!(clamp_difficulty(Some(0)), Some(1));
    assert_eq!(clamp_difficulty(Some(3)), Some(3));
    assert_eq!(clamp_difficulty(None), None);
    assert_eq!(entry_word_count("ice  cream cone", None), Some(3));
    assert_eq!(entry_word_count("ice cream", Some(7)), Some(7));
    assert_eq!(category_code("Food And Drink"), "food_and_drink");
    assert_eq!(vocabulary_dictionary_name("cet4"), "CET4");
    assert_eq!(vocabulary_dictionary_name("gaozhong"), "高中");
    assert_eq!(vocabulary_dictionary_name("toefl"), "toefl");
    assert_eq!(year_as_string(YearValue::Number("1066".to_string())).as_deref(), Some("1066"));
    assert_eq!(year_as_string(YearValue::Text("c. 1200".to_string())).as_deref(), Some("c. 1200"));
    assert_eq!(year_as_string(YearValue::Other), None);
    assert_eq!(year_as_string(YearValue::Missing), None);
}

#[test]
fn dictionary_references() {
    let by_id = DictionaryRef::Id(4);
    let by_name = DictionaryRef::Name("CET4".to_string());
    let full = DictionaryRef::Full { name: "CET6".to_string(), priority_order: Some(7) };
    assert_eq!((by_id.id(), by_id.name(), by_id.priority_order()), (Some(4), None, None));
    assert_eq!((by_name.id(), by_name.name(), by_name.priority_order()), (None, Some("CET4"), None));
    assert_eq!((full.id(), full.name(), full.priority_order()), (None, Some("CET6"), Some(7)));
}

#[test]
fn bilingual_definitions_are_numbered_with_one_primary() {
    let rows = bilingual_definition_rows(&strings(&["first", "", "second"]), &strings(&["", "第一"]), &Some("noun".to_string()));
    let got: Vec<(String, String, i32, bool)> =
        rows.iter().map(|r| (r.language.clone(), r.definition.clone(), r.order, r.is_primary)).collect();
    assert_eq!(
        got,
        vec![
            ("en".to_string(), "first".to_string(), 1, true),
            ("en".to_string(), "second".to_string(), 2, false),
            ("zh".to_string(), "第一".to_string(), 3, false),
        ]
    );
    assert!(rows.iter().all(|r| r.part_of_speech.as_deref() == Some("noun")));
    let only_zh = bilingual_definition_rows(&vec![], &strings(&["甲"]), &None);
    assert_eq!(only_zh.len(), 1);
    assert_eq!((only_zh[0].order, only_zh[0].is_primary), (1, false));
}

#[test]
fn generated_definitions_follow_the_entry() {
    let d = |lang: &str, pos: Option<&str>, prim: Option<bool>| DefinitionInput {
        language: lang.to_string(),
        part_of_speech: pos.map(|s| s.to_string()),
        definition: "d".to_string(),
        register: Some("Informal".to_string()),
        is_primary: prim,
        usage_notes: None,
    };
    let rows = definition_rows(&vec![d("en", Some("Noun"), None), d("zh", None, None), d("en", Some("v"), Some(true))]);
    assert_eq!(rows.iter().map(|r| r.order).collect::<Vec<_>>(), vec![1, 2, 3]);
    assert_eq!(rows.iter().map(|r| r.is_primary).collect::<Vec<_>>(), vec![true, false, true]);
    assert_eq!(rows[0].part_of_speech.as_deref(), Some("noun"));
    assert_eq!(rows[1].part_of_speech, None);
    assert_eq!(rows[0].register.as_deref(), Some("informal"));
}

#[test]
fn pronunciations_with_recordings() {
    let rows = audio_pronunciation_rows("apple", "", Some("uk/apple.mp3"), Some("us/apple.mp3"), "uk", "us", None);
    assert_eq!(rows.len(), 2);
    assert_eq!(rows[0].ipa, "[uk: apple]");
    assert_eq!(rows[0].dialect.as_deref(), Some("uk"));
    assert!(rows[0].is_primary);
    assert_eq!(rows[1].ipa, "[us: apple]");
    assert!(!rows[1].is_primary);
    let rows = audio_pronunciation_rows("apple", "ˈæpl", None, Some("US/apple.mp3"), "UK", "US", Some("other"));
    assert_eq!(rows.len(), 1);
    assert_eq!((rows[0].ipa.as_str(), rows[0].dialect.as_deref(), rows[0].is_primary), ("ˈæpl", Some("US"), true));
    let rows = audio_pronunciation_rows("apple", "ˈæpl", None, None, "UK", "US", Some("other"));
    assert_eq!((rows.len(), rows[0].dialect.as_deref(), rows[0].audio_path.clone()), (1, Some("other"), None));
    assert!(audio_pronunciation_rows("apple", "", None, None, "uk", "us", None).is_empty());
    assert_eq!(audio_relative_path("uk", "apple.mp3"), "uk/apple.mp3");
}

#[test]
fn generated_pronunciations_first_is_primary() {
    let p = |ipa: &str| PronunciationInput { ipa: ipa.to_string(), dialect: Some("UK".to_string()), audio_url: None };
    let rows = pronunciation_rows(&vec![p("a"), p("b")]);
    assert_eq!(rows.iter().map(|r| r.is_primary).collect::<Vec<_>>(), vec![true, false]);
}

#[test]
fn examples_and_relations() {
    assert_eq!(stored_examples(&strings(&["", "One.", "", "Two."])), strings(&["One.", "Two."]));
    assert_eq!(
        (0..4).map(relation_type).collect::<Vec<_>>(),
        strings(&["synonym", "antonym", "related", "broader"])
    );
    let plan = related_word_plan(&Some("Ice Cream".to_string())).unwrap();
    assert_eq!((plan.word.as_str(), plan.word_lower.as_str(), plan.word_count), ("Ice Cream", "ice cream", 2));
    assert!(related_word_plan(&None).is_none());
}

#[test]
fn name_cache_gives_back_what_was_stored() {
    let mut c = NameCache::new();
    assert_eq!(c.get("CET4"), None);
    c.insert("CET4", 1);
    c.insert("CET6", 2);
    assert_eq!(c.get("CET4"), Some(1));
    assert_eq!(c.get("CET6"), Some(2));
    c.insert("CET4", 9);
    assert_eq!(c.get("CET4"), Some(9));
    assert_eq!(c.get("cet4"), None);
}

#[test]
fn import_counts_add_up() {
    let mut t = ImportTally::new();
    t.count(false);
    t.count(true);
    t.count(false);
    assert_eq!((t.entries, t.added, t.skipped), (3, 2, 1));

    let mut f = FilesTally::new();
    let mut progress = 0;
    for k in 0..250 {
        let outcome = if k % 5 == 4 { FileOutcome::Failed } else if k % 5 == 3 { FileOutcome::Skipped } else { FileOutcome::Added };
        if f.count(outcome) {
            progress += 1;
        }
    }
    assert_eq!(f.files_processed, 250);
    assert_eq!(f.files_processed, f.words_added + f.words_skipped + f.errors);
    assert_eq!((f.words_added, f.words_skipped, f.errors), (150, 50, 50));
    assert_eq!(progress, 1);

    let mut v = VocabTally::new();
    assert!(v.count(true, false));
    assert!(!v.count(true, true));
    assert!(!v.count(false, false));
    assert_eq!((v.words, v.associations), (3, 1));
}
