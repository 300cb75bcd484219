use colang::cli::{parse_cli, CliOutcome};
use colang::tools::{
    import_dict_args, import_dict_options, import_sentences_args, import_sentences_options, pending_audio,
    pick_subject, progress_due, read_sentences_args, read_sentences_options, sentence_audio_path, sentence_order,
    words_to_db_args, words_to_db_options, ReadSentence, SentenceTally, SubjectOrders,
};

fn strings(v: &[&str]) -> Vec<String> {
    v.iter().map(|s| s.to_string()).collect()
}

fn run_values(outcome: CliOutcome) -> Vec<Option<String>> {
    match outcome {
        CliOutcome::Run(v) => v,
        _ => panic!("the command line is valid"),
    }
}

fn sentence(name: &str, text: &str) -> ReadSentence {
    ReadSentence { audio_name: name.to_string(), content_en: text.to_string() }
}

#[test]
fn audio_is_made_only_where_missing() {
    let subjects = vec![vec![sentence("s1", "One."), sentence("s2", "Two.")], vec![], vec![sentence("s3", "Three.")]];
    let pending = pending_audio(&subjects, &strings(&["s2"]));
    assert_eq!(
        pending,
        vec![("s1".to_string(), "One.".to_string()), ("s3".to_string(), "Three.".to_string())]
    );
    assert!(pending_audio(&subjects, &strings(&["s1", "s2", "s3"])).is_empty());
}

#[test]
fn sentence_audio_paths_and_orders() {
    assert_eq!(sentence_audio_path("greeting_01", true).as_deref(), Some("read-sentences/greeting_01.mp3"));
    assert_eq!(sentence_audio_path("greeting_01", false), None);
    assert_eq!(sentence_order(0), 1);
    assert_eq!(sentence_order(9), 10);
}

#[test]
fn sentences_follow_the_highest_order_of_their_subject() {
    let mut orders = SubjectOrders { subjects: vec![(7, 0), (8, 12)] };
    assert_eq!(orders.next_order(1), 13);
    orders.placed(1);
    assert_eq!(orders.next_order(1), 14);
    assert_eq!(orders.next_order(0), 1);
    assert_eq!(orders.subjects, vec![(7, 0), (8, 13)]);
    for n in 1..20 {
        assert!(pick_subject(n) < n);
    }
    assert!(progress_due(500, 501));
    assert!(progress_due(501, 501));
    assert!(!progress_due(499, 501));
    let mut t = SentenceTally::new();
    t.count(true);
    t.count(false);
    assert_eq!((t.added, t.skipped, t.errors), (1, 0, 1));
}

#[test]
fn importer_options() {
    let a = import_dict_args(&run_values(parse_cli(
        &strings(&["import_dict", "--vocab-only", "--batch-size", "25"]),
        &import_dict_options(),
    )));
    assert!(!a.import_dict_data);
    assert!(a.import_vocab);
    assert_eq!(a.batch_size, 25);
    assert_eq!(a.dict_dir, "D:\\Works\\colang\\endict1\\dict");

    let w = words_to_db_args(&run_values(parse_cli(&strings(&["words_to_db", "--force", "--limit", "3"]), &words_to_db_options())));
    assert!(!w.skip_existing);
    assert_eq!(w.limit, Some(3));
    assert_eq!(w.batch_size, 100);

    let s = import_sentences_args(&run_values(parse_cli(&strings(&["import_sentences", "--skip-tts", "-c", "x"]), &import_sentences_options())));
    assert!(s.skip_tts);
    assert!(!s.skip_db);
    assert_eq!(s.concurrency, 5);

    let r = read_sentences_args(&run_values(parse_cli(&strings(&["read_sentences", "--dry-run", "-l", "many"]), &read_sentences_options())));
    assert!(r.dry_run);
    assert!(!r.export_json);
    assert_eq!(r.limit, Some(100));
}
