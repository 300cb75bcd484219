//! The importers' options, and the rules of the reading-practice importers:
//! which sentences still need audio, where their audio is found, and the
//! order they take in a subject.
use vstd::prelude::*;
use vstd::string::StringExecFns;
use crate::cli::{
    count_arg, count_of, flag_option, opt_views, option_is, or_default, text_arg, value_option,
    CliOption, OptionKind,
};
use crate::text::{strings_contain, views_of};

verus! {

pub const DEFAULT_BATCH_SIZE: usize = 100;
/// The number of items taken when `--limit` is given something that is not a number.
pub const LIMIT_WHEN_UNREADABLE: usize = 100;

// ---------------------------------------------------------------------------
// The dictionary importer

pub const DEFAULT_DICT_DIR: &'static str = "D:\\Works\\colang\\endict1\\dict";
pub const DEFAULT_VOCAB_DIR: &'static str = "D:\\Works\\colang\\endict1\\vocabulary";
pub const DEFAULT_PRONUNCIATION_DIR: &'static str = "D:\\Works\\colang\\data\\pronunciations";

pub fn import_dict_options() -> (r: Vec<CliOption>)
    ensures
        r@.len() == 7,
        option_is(r@[0], "--dict-dir"@, None, OptionKind::Value, "a path"@),
        option_is(r@[1], "--vocab-dir"@, None, OptionKind::Value, "a path"@),
        option_is(r@[2], "--audio-dir"@, None, OptionKind::Value, "a path"@),
        option_is(r@[3], "--batch-size"@, None, OptionKind::Value, "a number"@),
        option_is(r@[4], "--dict-only"@, None, OptionKind::Switch, Seq::empty()),
        option_is(r@[5], "--vocab-only"@, None, OptionKind::Switch, Seq::empty()),
        option_is(r@[6], "--help"@, None, OptionKind::Help, Seq::empty()),
{
    let mut v: Vec<CliOption> = Vec::new();
    v.push(value_option("--dict-dir", None, "a path"));
    v.push(value_option("--vocab-dir", None, "a path"));
    v.push(value_option("--audio-dir", None, "a path"));
    v.push(value_option("--batch-size", None, "a number"));
    v.push(flag_option("--dict-only", None, OptionKind::Switch));
    v.push(flag_option("--vocab-only", None, OptionKind::Switch));
    v.push(flag_option("--help", None, OptionKind::Help));
    v
}

pub struct ImportDictArgs {
    pub dict_dir: String,
    pub vocab_dir: String,
    pub audio_dir: String,
    pub batch_size: usize,
    /// Whether the dictionary data is imported (not with `--vocab-only`).
    pub import_dict_data: bool,
    /// Whether the vocabulary lists are imported (not with `--dict-only`).
    pub import_vocab: bool,
}

pub fn import_dict_args(values: &Vec<Option<String>>) -> (r: ImportDictArgs)
    requires
        values@.len() == 7,
    ensures
        ({
            let v = opt_views(values@);
            &&& r.dict_dir@ == or_default(v[0], DEFAULT_DICT_DIR@)
            &&& r.vocab_dir@ == or_default(v[1], DEFAULT_VOCAB_DIR@)
            &&& r.audio_dir@ == or_default(v[2], DEFAULT_PRONUNCIATION_DIR@)
            &&& r.batch_size == count_of(v[3], DEFAULT_BATCH_SIZE, DEFAULT_BATCH_SIZE)
            &&& r.import_vocab == v[4] is None
            &&& r.import_dict_data == v[5] is None
        }),
{
    ImportDictArgs {
        dict_dir: text_arg(&values[0], DEFAULT_DICT_DIR),
        vocab_dir: text_arg(&values[1], DEFAULT_VOCAB_DIR),
        audio_dir: text_arg(&values[2], DEFAULT_PRONUNCIATION_DIR),
        batch_size: count_arg(&values[3], DEFAULT_BATCH_SIZE, DEFAULT_BATCH_SIZE),
        import_vocab: values[4].is_none(),
        import_dict_data: values[5].is_none(),
    }
}

// ---------------------------------------------------------------------------
// The dictionary-data importer

pub const DEFAULT_SOURCE_DIR: &'static str = "D:\\Works\\colang\\endict1\\dict";
pub const DEFAULT_AUDIO_DIR: &'static str = "D:\\Works\\colang\\data\\audios";

pub fn import_dict_data_options() -> (r: Vec<CliOption>)
    ensures
        r@.len() == 4,
        option_is(r@[0], "--source-dir"@, None, OptionKind::Value, "a path"@),
        option_is(r@[1], "--audio-dir"@, None, OptionKind::Value, "a path"@),
        option_is(r@[2], "--batch-size"@, None, OptionKind::Value, "a number"@),
        option_is(r@[3], "--help"@, None, OptionKind::Help, Seq::empty()),
{
    let mut v: Vec<CliOption> = Vec::new();
    v.push(value_option("--source-dir", None, "a path"));
    v.push(value_option("--audio-dir", None, "a path"));
    v.push(value_option("--batch-size", None, "a number"));
    v.push(flag_option("--help", None, OptionKind::Help));
    v
}

pub struct ImportDictDataArgs {
    pub source_dir: String,
    pub audio_dir: String,
    pub batch_size: usize,
}

pub fn import_dict_data_args(values: &Vec<Option<String>>) -> (r: ImportDictDataArgs)
    requires
        values@.len() == 4,
    ensures
        ({
            let v = opt_views(values@);
            &&& r.source_dir@ == or_default(v[0], DEFAULT_SOURCE_DIR@)
            &&& r.audio_dir@ == or_default(v[1], DEFAULT_AUDIO_DIR@)
            &&& r.batch_size == count_of(v[2], DEFAULT_BATCH_SIZE, DEFAULT_BATCH_SIZE)
        }),
{
    ImportDictDataArgs {
        source_dir: text_arg(&values[0], DEFAULT_SOURCE_DIR),
        audio_dir: text_arg(&values[1], DEFAULT_AUDIO_DIR),
        batch_size: count_arg(&values[2], DEFAULT_BATCH_SIZE, DEFAULT_BATCH_SIZE),
    }
}

// ---------------------------------------------------------------------------
// The vocabulary-name importer

pub const DEFAULT_VOCAB_SOURCE_DIR: &'static str = "D:\\Works\\colang\\endict1\\vocabulary";

pub fn import_dict_name_options() -> (r: Vec<CliOption>)
    ensures
        r@.len() == 2,
        option_is(r@[0], "--source-dir"@, None, OptionKind::Value, "a path"@),
        option_is(r@[1], "--help"@, None, OptionKind::Help, Seq::empty()),
{
    let mut v: Vec<CliOption> = Vec::new();
    v.push(value_option("--source-dir", None, "a path"));
    v.push(flag_option("--help", None, OptionKind::Help));
    v
}

/// The source directory given by the values read for `import_dict_name_options`.
pub fn import_dict_name_source(values: &Vec<Option<String>>) -> (r: String)
    requires
        values@.len() == 2,
    ensures
        r@ == or_default(opt_views(values@)[0], DEFAULT_VOCAB_SOURCE_DIR@),
{
    text_arg(&values[0], DEFAULT_VOCAB_SOURCE_DIR)
}

// ---------------------------------------------------------------------------
// The importer of generated entries

pub const DEFAULT_WORDS_DIR: &'static str = "../words";

pub fn words_to_db_options() -> (r: Vec<CliOption>)
    ensures
        r@.len() == 5,
        option_is(r@[0], "--words-dir"@, None, OptionKind::Value, "a path"@),
        option_is(r@[1], "--batch-size"@, None, OptionKind::Value, "a number"@),
        option_is(r@[2], "--limit"@, None, OptionKind::Value, "a number"@),
        option_is(r@[3], "--force"@, None, OptionKind::Switch, Seq::empty()),
        option_is(r@[4], "--help"@, None, OptionKind::Help, Seq::empty()),
{
    let mut v: Vec<CliOption> = Vec::new();
    v.push(value_option("--words-dir", None, "a path"));
    v.push(value_option("--batch-size", None, "a number"));
    v.push(value_option("--limit", None, "a number"));
    v.push(flag_option("--force", None, OptionKind::Switch));
    v.push(flag_option("--help", None, OptionKind::Help));
    v
}

pub struct WordsToDbArgs {
    pub words_dir: String,
    pub batch_size: usize,
    pub limit: Option<usize>,
    /// Whether words already stored are left alone (not with `--force`).
    pub skip_existing: bool,
}

pub fn words_to_db_args(values: &Vec<Option<String>>) -> (r: WordsToDbArgs)
    requires
        values@.len() == 5,
    ensures
        ({
            let v = opt_views(values@);
            &&& r.words_dir@ == or_default(v[0], DEFAULT_WORDS_DIR@)
            &&& r.batch_size == count_of(v[1], DEFAULT_BATCH_SIZE, DEFAULT_BATCH_SIZE)
            &&& r.limit == (match v[2] {
                Some(s) => Some(count_of(Some(s), 0, LIMIT_WHEN_UNREADABLE)),
                None => None,
            })
            &&& r.skip_existing == v[3] is None
        }),
{
    let limit = match &values[2] {
        Some(_) => Some(count_arg(&values[2], 0, LIMIT_WHEN_UNREADABLE)),
        None => None,
    };
    WordsToDbArgs {
        words_dir: text_arg(&values[0], DEFAULT_WORDS_DIR),
        batch_size: count_arg(&values[1], DEFAULT_BATCH_SIZE, DEFAULT_BATCH_SIZE),
        limit,
        skip_existing: values[3].is_none(),
    }
}

// ---------------------------------------------------------------------------
// The reading-practice importer (audio and database)

pub const DEFAULT_READ_INPUT: &'static str = "D:\\Works\\cola-ng\\space-raw\\read-sentences.json";
pub const DEFAULT_READ_AUDIO_DIR: &'static str = "D:\\Works\\cola-ng\\space\\read-sentences";
pub const DEFAULT_READ_CONCURRENCY: usize = 5;
pub const DEFAULT_READ_VOICE: &'static str = "zh_female_vv_uranus_bigtts";

pub fn import_sentences_options() -> (r: Vec<CliOption>)
    ensures
        r@.len() == 7,
        option_is(r@[0], "--input"@, Some("-i"@), OptionKind::Value, "a path"@),
        option_is(r@[1], "--output"@, Some("-o"@), OptionKind::Value, "a path"@),
        option_is(r@[2], "--concurrency"@, Some("-c"@), OptionKind::Value, "a number"@),
        option_is(r@[3], "--voice"@, Some("-v"@), OptionKind::Value, "a voice name"@),
        option_is(r@[4], "--skip-tts"@, None, OptionKind::Switch, Seq::empty()),
        option_is(r@[5], "--skip-db"@, None, OptionKind::Switch, Seq::empty()),
        option_is(r@[6], "--help"@, Some("-h"@), OptionKind::Help, Seq::empty()),
{
    let mut v: Vec<CliOption> = Vec::new();
    v.push(value_option("--input", Some("-i"), "a path"));
    v.push(value_option("--output", Some("-o"), "a path"));
    v.push(value_option("--concurrency", Some("-c"), "a number"));
    v.push(value_option("--voice", Some("-v"), "a voice name"));
    v.push(flag_option("--skip-tts", None, OptionKind::Switch));
    v.push(flag_option("--skip-db", None, OptionKind::Switch));
    v.push(flag_option("--help", Some("-h"), OptionKind::Help));
    v
}

pub struct ImportSentencesArgs {
    pub input_file: String,
    pub output_dir: String,
    pub concurrency: usize,
    pub voice: String,
    pub skip_tts: bool,
    pub skip_db: bool,
}

pub fn import_sentences_args(values: &Vec<Option<String>>) -> (r: ImportSentencesArgs)
    requires
        values@.len() == 7,
    ensures
        ({
            let v = opt_views(values@);
            &&& r.input_file@ == or_default(v[0], DEFAULT_READ_INPUT@)
            &&& r.output_dir@ == or_default(v[1], DEFAULT_READ_AUDIO_DIR@)
            &&& r.concurrency == count_of(v[2], DEFAULT_READ_CONCURRENCY, DEFAULT_READ_CONCURRENCY)
            &&& r.voice@ == or_default(v[3], DEFAULT_READ_VOICE@)
            &&& r.skip_tts == v[4] is Some
            &&& r.skip_db == v[5] is Some
        }),
{
    ImportSentencesArgs {
        input_file: text_arg(&values[0], DEFAULT_READ_INPUT),
        output_dir: text_arg(&values[1], DEFAULT_READ_AUDIO_DIR),
        concurrency: count_arg(&values[2], DEFAULT_READ_CONCURRENCY, DEFAULT_READ_CONCURRENCY),
        voice: text_arg(&values[3], DEFAULT_READ_VOICE),
        skip_tts: values[4].is_some(),
        skip_db: values[5].is_some(),
    }
}

/// A sentence of a reading subject, as far as the importer reads it.
pub struct ReadSentence {
    pub audio_name: String,
    pub content_en: String,
}

/// The sentences whose audio is still missing, across all subjects in
/// order, as (audio name, English text) pairs.
pub open spec fn pending_audio_spec(
    subjects: Seq<Seq<ReadSentence>>,
    existing: Seq<Seq<char>>,
) -> Seq<(Seq<char>, Seq<char>)>
    decreases subjects.len(),
{
    if subjects.len() == 0 {
        Seq::empty()
    } else {
        pending_audio_spec(subjects.drop_last(), existing) + pending_in(subjects.last(), existing)
    }
}

pub open spec fn pending_in(sentences: Seq<ReadSentence>, existing: Seq<Seq<char>>) -> Seq<
    (Seq<char>, Seq<char>),
>
    decreases sentences.len(),
{
    if sentences.len() == 0 {
        Seq::empty()
    } else {
        let rest = pending_in(sentences.drop_last(), existing);
        let s = sentences.last();
        if existing.contains(s.audio_name@) {
            rest
        } else {
            rest.push((s.audio_name@, s.content_en@))
        }
    }
}

pub open spec fn pairs_view(v: Seq<(String, String)>) -> Seq<(Seq<char>, Seq<char>)> {
    v.map_values(|p: (String, String)| (p.0@, p.1@))
}

fn push_pending(out: &mut Vec<(String, String)>, sentences: &Vec<ReadSentence>, existing: &Vec<String>)
    ensures
        pairs_view(final(out)@) == pairs_view(old(out)@) + pending_in(sentences@, views_of(existing@)),
{
    let ghost ex = views_of(existing@);
    let ghost start = pairs_view(old(out)@);
    let mut i: usize = 0;
    while i < sentences.len()
        invariant
            i <= sentences@.len(),
            ex == views_of(existing@),
            start == pairs_view(old(out)@),
            pairs_view(out@) == start + pending_in(sentences@.take(i as int), ex),
        decreases sentences@.len() - i,
    {
        assert(sentences@.take(i + 1).drop_last() =~= sentences@.take(i as int));
        let s = &sentences[i];
        let known = strings_contain(existing, s.audio_name.as_str());
        proof {
            if known {
                let k = choose|k: int| 0 <= k < existing@.len() && (#[trigger] existing@[k])@ == s.audio_name@;
                assert(ex[k] == s.audio_name@);
            } else {
                assert forall|k: int| 0 <= k < ex.len() implies ex[k] != s.audio_name@ by {
                    assert(ex[k] == existing@[k]@);
                }
            }
        }
        if !known {
            let ghost before = pairs_view(out@);
            out.push((s.audio_name.clone(), s.content_en.clone()));
            assert(pairs_view(out@) =~= before.push((s.audio_name@, s.content_en@)));
        }
        i = i + 1;
    }
    assert(sentences@.take(sentences@.len() as int) =~= sentences@);
}

/// The sentences that still need audio, given the names of the recordings
/// already made.
pub fn pending_audio(subjects: &Vec<Vec<ReadSentence>>, existing: &Vec<String>) -> (r: Vec<
    (String, String),
>)
    ensures
        pairs_view(r@) == pending_audio_spec(
            subjects@.map_values(|v: Vec<ReadSentence>| v@),
            views_of(existing@),
        ),
{
    let ghost all = subjects@.map_values(|v: Vec<ReadSentence>| v@);
    let mut out: Vec<(String, String)> = Vec::new();
    let mut i: usize = 0;
    assert(pairs_view(out@) =~= Seq::<(Seq<char>, Seq<char>)>::empty());
    while i < subjects.len()
        invariant
            i <= subjects@.len(),
            all == subjects@.map_values(|v: Vec<ReadSentence>| v@),
            pairs_view(out@) == pending_audio_spec(all.take(i as int), views_of(existing@)),
        decreases subjects@.len() - i,
    {
        assert(all.take(i + 1).drop_last() =~= all.take(i as int));
        assert(all.take(i + 1).last() == subjects@[i as int]@);
        push_pending(&mut out, &subjects[i], existing);
        i = i + 1;
    }
    assert(all.take(subjects@.len() as int) =~= all);
    out
}

/// Where the audio of a sentence is stored, when its recording exists.
pub fn sentence_audio_path(audio_name: &str, recorded: bool) -> (r: Option<String>)
    ensures
        recorded ==> (r matches Some(p) && p@ == "read-sentences/"@ + audio_name@ + ".mp3"@),
        !recorded ==> r is None,
{
    if recorded {
        let mut p = "read-sentences/".to_string();
        p.append(audio_name);
        p.append(".mp3");
        Some(p)
    } else {
        None
    }
}

/// The order of the `i`-th sentence (counted from 0) of a new subject.
pub fn sentence_order(i: usize) -> (r: i32)
    requires
        i < i32::MAX,
    ensures
        r == i + 1,
{
    (i + 1) as i32
}

// ---------------------------------------------------------------------------
// The reading-practice importer into existing subjects

pub const DEFAULT_SENTENCES_INPUT: &'static str = "D:\\Works\\cola-ng\\space\\read-sentences.json";
pub const DEFAULT_SENTENCES_EXPORT: &'static str = "D:\\Works\\cola-ng\\space\\read-sentences-full.json";
/// The difficulty every imported sentence is given.
pub const IMPORTED_SENTENCE_DIFFICULTY: i16 = 3;

pub fn read_sentences_options() -> (r: Vec<CliOption>)
    ensures
        r@.len() == 6,
        option_is(r@[0], "--input"@, Some("-i"@), OptionKind::Value, "a path"@),
        option_is(r@[1], "--output"@, Some("-o"@), OptionKind::Value, "a path"@),
        option_is(r@[2], "--limit"@, Some("-l"@), OptionKind::Value, "a number"@),
        option_is(r@[3], "--dry-run"@, None, OptionKind::Switch, Seq::empty()),
        option_is(r@[4], "--export"@, None, OptionKind::Switch, Seq::empty()),
        option_is(r@[5], "--help"@, Some("-h"@), OptionKind::Help, Seq::empty()),
{
    let mut v: Vec<CliOption> = Vec::new();
    v.push(value_option("--input", Some("-i"), "a path"));
    v.push(value_option("--output", Some("-o"), "a path"));
    v.push(value_option("--limit", Some("-l"), "a number"));
    v.push(flag_option("--dry-run", None, OptionKind::Switch));
    v.push(flag_option("--export", None, OptionKind::Switch));
    v.push(flag_option("--help", Some("-h"), OptionKind::Help));
    v
}

pub struct ReadSentencesArgs {
    pub input_file: String,
    pub output_file: String,
    pub limit: Option<usize>,
    pub dry_run: bool,
    pub export_json: bool,
}

pub fn read_sentences_args(values: &Vec<Option<String>>) -> (r: ReadSentencesArgs)
    requires
        values@.len() == 6,
    ensures
        ({
            let v = opt_views(values@);
            &&& r.input_file@ == or_default(v[0], DEFAULT_SENTENCES_INPUT@)
            &&& r.output_file@ == or_default(v[1], DEFAULT_SENTENCES_EXPORT@)
            &&& r.limit == (match v[2] {
                Some(s) => Some(count_of(Some(s), 0, LIMIT_WHEN_UNREADABLE)),
                None => None,
            })
            &&& r.dry_run == v[3] is Some
            &&& r.export_json == v[4] is Some
        }),
{
    let limit = match &values[2] {
        Some(_) => Some(count_arg(&values[2], 0, LIMIT_WHEN_UNREADABLE)),
        None => None,
    };
    ReadSentencesArgs {
        input_file: text_arg(&values[0], DEFAULT_SENTENCES_INPUT),
        output_file: text_arg(&values[1], DEFAULT_SENTENCES_EXPORT),
        limit,
        dry_run: values[3].is_some(),
        export_json: values[4].is_some(),
    }
}

/// The sentence orders already taken in the existing subjects: for each
/// subject its id and its highest order (0 for one without sentences).
pub struct SubjectOrders {
    pub subjects: Vec<(i64, i32)>,
}

impl SubjectOrders {
    /// The order the next sentence placed in subject `k` takes.
    pub fn next_order(&self, k: usize) -> (r: i32)
        requires
            k < self.subjects@.len(),
            self.subjects@[k as int].1 < i32::MAX,
        ensures
            r == self.subjects@[k as int].1 + 1,
    {
        self.subjects[k].1 + 1
    }

    /// Records that a sentence was stored in subject `k` at its next order.
    pub fn placed(&mut self, k: usize)
        requires
            k < old(self).subjects@.len(),
            old(self).subjects@[k as int].1 < i32::MAX,
        ensures
            final(self).subjects@ == old(self).subjects@.update(
                k as int,
                (old(self).subjects@[k as int].0, (old(self).subjects@[k as int].1 + 1) as i32),
            ),
    {
        let (id, max) = self.subjects[k];
        self.subjects.set(k, (id, max + 1));
    }
}

/// A subject picked at random among `n`, for a sentence to be placed in.
pub fn pick_subject(n: usize) -> (r: usize)
    requires
        n > 0,
    ensures
        r < n,
{
    random_below(n)
}

/// `rand::Rng::gen_range(0..n)` on the thread's generator: claimed only to
/// be below `n`.
#[verifier::external_body]
fn random_below(n: usize) -> (r: usize)
    requires
        n > 0,
    ensures
        r < n,
{
    rand::Rng::gen_range(&mut rand::thread_rng(), 0..n)
}

/// Whether a progress line is due after the `done`-th of `total` sentences:
/// every 500th, and the last.
pub fn progress_due(done: usize, total: usize) -> (r: bool)
    ensures
        r == (done % 500 == 0 || done == total),
{
    done % 500 == 0 || done == total
}

/// The counts of an import of sentences into existing subjects.
pub struct SentenceTally {
    pub added: usize,
    pub skipped: usize,
    pub errors: usize,
}

impl SentenceTally {
    pub fn new() -> (r: SentenceTally)
        ensures
            r.added == 0 && r.skipped == 0 && r.errors == 0,
    {
        SentenceTally { added: 0, skipped: 0, errors: 0 }
    }

    /// Counts a sentence stored (`ok`) or failed.
    pub fn count(&mut self, ok: bool)
        requires
            old(self).added < usize::MAX,
            old(self).errors < usize::MAX,
        ensures
            ok ==> final(self).added == old(self).added + 1 && final(self).errors == old(self).errors,
            !ok ==> final(self).errors == old(self).errors + 1 && final(self).added == old(self).added,
            final(self).skipped == old(self).skipped,
    {
        if ok {
            self.added = self.added + 1;
        } else {
            self.errors = self.errors + 1;
        }
    }
}

} // verus!
