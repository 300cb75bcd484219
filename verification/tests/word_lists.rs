use colang::cli::{missing_value_message, parse_cli, unknown_argument_message, CliOutcome};
use colang::wordgen::{
    is_json, is_valid_entry_text, judge_attempt, tts_api_error, tts_build_error, tts_args, tts_options,
    word_prompt, words_args, words_options, AttemptResult, ChatOutcome, Retry, RetryStep, RunTally,
    WORD_PROMPT_HEAD,
};
use colang::words::{
    needs_audio, audio_file_name, entry_file_name, eq_ignore_ascii_case, is_valid_word, sanitize_filename, select_words,
    take_limit, word_lower, word_of_line,
};

fn strings(v: &[&str]) -> Vec<String> {
    v.iter().map(|s| s.to_string()).collect()
}

#[test]
fn valid_words() {
    assert!(is_valid_word("apple"));
    assert!(is_valid_word("mother-in-law"));
    assert!(is_valid_word("o'clock"));
    assert!(is_valid_word("ice cream"));
    assert!(!is_valid_word("a"));
    assert!(!is_valid_word(".hidden"));
    assert!(!is_valid_word("#tag"));
    assert!(!is_valid_word("http://x.y"));
    assert!(!is_valid_word("www.site"));
    assert!(!is_valid_word("--"));
    assert!(!is_valid_word("café"));
    assert!(!is_valid_word(&"a".repeat(51)));
    assert!(is_valid_word(&"a".repeat(50)));
}

#[test]
fn file_names_of_words() {
    assert_eq!(sanitize_filename("What/Is:This?"), "what_is_this_");
    assert_eq!(sanitize_filename("A\\B*C\"D<E>F|G"), "a_b_c_d_e_f_g");
    assert_eq!(audio_file_name("Hello"), "hello.mp3");
    assert_eq!(entry_file_name("Apple"), "apple.json");
    let existing = strings(&["hello", "what_is_this_"]);
    assert!(!needs_audio("Hello", &existing));
    assert!(!needs_audio("What/Is:This?", &existing));
    assert!(needs_audio("world", &existing));
}

#[test]
fn lines_of_the_word_list() {
    assert_eq!(word_of_line("  apple \tnoun\t12"), "apple");
    assert_eq!(word_of_line("pear"), "pear");
    assert_eq!(word_of_line("\tx"), "");
    assert!(eq_ignore_ascii_case("Apple", "aPPLE"));
    assert!(!eq_ignore_ascii_case("Apple", "Apples"));
}

#[test]
fn words_are_selected_from_the_start_word_on() {
    let lines = strings(&["x", "banana\t1", "Apple\t2", "cherry", "date", "", "fig"]);
    let existing = strings(&["cherry"]);
    assert_eq!(select_words(&lines, &existing, None), strings(&["banana", "Apple", "date", "fig"]));
    assert_eq!(select_words(&lines, &existing, Some("APPLE")), strings(&["Apple", "date", "fig"]));
    assert_eq!(select_words(&lines, &existing, Some("zebra")), Vec::<String>::new());
    assert_eq!(take_limit(strings(&["a", "b", "c"]), Some(2)), strings(&["a", "b"]));
    assert_eq!(take_limit(strings(&["a"]), Some(5)), strings(&["a"]));
    assert_eq!(take_limit(strings(&["a", "b"]), None), strings(&["a", "b"]));
}

#[test]
fn entry_files_must_hold_a_json_object() {
    assert!(is_valid_entry_text("{\"apple\": {}}"));
    assert!(!is_valid_entry_text("{}"));
    assert!(!is_valid_entry_text("[1, 2]"));
    assert!(!is_valid_entry_text("   "));
    assert!(!is_valid_entry_text("not json"));
    assert!(is_json("[1]"));
    assert!(!is_json("{"));
}

#[test]
fn the_prompt_names_the_word_twice() {
    let p = word_prompt("apple");
    assert!(p.starts_with(WORD_PROMPT_HEAD));
    assert!(p.starts_with("Generate a complete dictionary entry for the word \"apple\" in the following JSON format:\n\n{\n  \"apple\": {"));
    assert_eq!(p.matches("apple").count(), 3);
    assert!(p.ends_with("Only return valid JSON, no additional text or explanation"));
}

#[test]
fn retries_wait_longer_then_give_up() {
    let mut r = Retry::new();
    let mut delays = vec![];
    loop {
        match r.next_step() {
            RetryStep::Attempt(d) => {
                delays.push(d);
                r.failed(format!("failure {}", delays.len()));
            }
            RetryStep::GiveUp(e) => {
                assert_eq!(e, "failure 3");
                break;
            }
        }
    }
    assert_eq!(delays, vec![0, 2000, 3000]);
    let mut r = Retry::new();
    r.attempts = 3;
    assert!(matches!(r.next_step(), RetryStep::GiveUp(e) if e == "Unknown error"));
}

#[test]
fn attempts_are_judged() {
    assert!(matches!(judge_attempt(ChatOutcome::Content("{\"a\":1}".to_string())), AttemptResult::Entry(c) if c == "{\"a\":1}"));
    assert!(matches!(judge_attempt(ChatOutcome::Content("oops".to_string())), AttemptResult::Failed(e, false) if e == "Invalid JSON response: oops"));
    assert!(matches!(judge_attempt(ChatOutcome::NoChoice), AttemptResult::Failed(e, false) if e == "Empty response from API"));
    assert!(matches!(judge_attempt(ChatOutcome::RequestFailed("timeout".to_string())), AttemptResult::Failed(e, false) if e == "Request failed: timeout"));
    assert!(matches!(judge_attempt(ChatOutcome::BodyUnreadable("eof".to_string())), AttemptResult::Failed(e, false) if e == "Failed to parse response: eof"));
    assert!(matches!(
        judge_attempt(ChatOutcome::HttpError(429, "429 Too Many Requests".to_string(), "slow down".to_string())),
        AttemptResult::Failed(e, true) if e == "API error 429 Too Many Requests: slow down"
    ));
    assert!(matches!(
        judge_attempt(ChatOutcome::HttpError(500, "500 Internal Server Error".to_string(), String::new())),
        AttemptResult::Failed(_, false)
    ));
    assert_eq!(tts_build_error("no text"), "Failed to build request: no text");
    assert_eq!(tts_api_error("quota"), "TTS API error: quota");
}

#[test]
fn run_tally_counts_every_item_once() {
    let mut t = RunTally::new();
    assert_eq!(t.record(true), 1);
    assert_eq!(t.record(false), 2);
    assert_eq!(t.record(true), 3);
    assert_eq!((t.processed, t.success, t.errors), (3, 2, 1));
}

#[test]
fn generator_options() {
    let opts = words_options();
    let args = strings(&["words", "--limit", "10", "--model", "glm", "--start-from", "apple"]);
    match parse_cli(&args, &opts) {
        CliOutcome::Run(values) => {
            let a = words_args(&values);
            assert_eq!(a.words_file, "words-all.txt");
            assert_eq!(a.output_dir, "../words");
            assert_eq!(a.concurrency, 200);
            assert_eq!(a.limit, Some(10));
            assert_eq!(a.model, "glm");
            assert_eq!(a.start_from.as_deref(), Some("apple"));
        }
        _ => panic!("the command line is valid"),
    }
    match parse_cli(&strings(&["words", "--concurrency", "many", "--limit", "x"]), &opts) {
        CliOutcome::Run(values) => {
            let a = words_args(&values);
            assert_eq!(a.concurrency, 200);
            assert_eq!(a.limit, Some(100));
        }
        _ => panic!("the command line is valid"),
    }
    assert!(matches!(parse_cli(&strings(&["words", "--help", "--bogus"]), &opts), CliOutcome::Help));
    match parse_cli(&strings(&["words", "--bogus"]), &opts) {
        CliOutcome::Unknown(a) => assert_eq!(unknown_argument_message(&a), "Unknown argument: --bogus"),
        _ => panic!("--bogus is no option"),
    }
    match parse_cli(&strings(&["words", "--limit"]), &opts) {
        CliOutcome::MissingValue(k) => {
            assert_eq!(missing_value_message(&opts[k]), "Error: --limit requires a number argument")
        }
        _ => panic!("--limit needs a value"),
    }
}

#[test]
fn speech_generator_options() {
    let opts = tts_options();
    match parse_cli(&strings(&["tts", "-c", "9", "-v", "en_male_adam_moon_bigtts", "--input", "in.json"]), &opts) {
        CliOutcome::Run(values) => {
            let a = tts_args(&values);
            assert_eq!(a.concurrency, 9);
            assert_eq!(a.voice, "en_male_adam_moon_bigtts");
            assert_eq!(a.input_file, "in.json");
            assert_eq!(a.output_dir, "D:\\Works\\cola-ng\\movies\\word-stences");
            assert_eq!(a.limit, None);
        }
        _ => panic!("the command line is valid"),
    }
    assert!(matches!(parse_cli(&strings(&["tts", "-h"]), &opts), CliOutcome::Help));
    match parse_cli(&strings(&["tts", "-v"]), &opts) {
        CliOutcome::MissingValue(k) => {
            assert_eq!(missing_value_message(&opts[k]), "Error: --voice requires a voice name argument")
        }
        _ => panic!("-v needs a value"),
    }
}

#[test]
fn sanitizing_twice_is_sanitizing_once() {
    for w in ["What/Is:This?", "A\\B*C\"D<E>F|G", "Hello World", "it's", "x"] {
        let once = sanitize_filename(w);
        assert_eq!(sanitize_filename(&once), once);
    }
}

#[test]
fn sanitized_names_hold_no_reserved_character_and_are_fixed() {
    for w in ["ÄÖÜ/ẞ", "ΟΔΟΣ:ΟΔΟΣ", "İstanbul*", "\u{212A}elvin|x", "Ǆ<>?\""] {
        let once = sanitize_filename(w);
        assert!(!once.chars().any(|c| "/\\:*?\"<>|".contains(c)), "{}", once);
        assert_eq!(sanitize_filename(&once), once);
    }
}

#[test]
fn lower_case_mapping_facts_hold_for_every_character() {
    for u in 0u32..=0x10FFFF {
        let c = match char::from_u32(u) {
            Some(c) => c,
            None => continue,
        };
        let s = c.to_string();
        let lower = word_lower(&s);
        assert_eq!(word_lower(&lower), lower, "U+{:04X}", u);
        for d in lower.chars() {
            if d.is_ascii() && !d.is_ascii_alphabetic() {
                assert_eq!(d, c, "U+{:04X}", u);
            }
        }
    }
    for s in ["ΣΑΣ", "Σ", "ΑΣ Σ", "όΣ."] {
        let lower = word_lower(s);
        assert_eq!(word_lower(&lower), lower);
    }
}
