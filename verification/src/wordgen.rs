//! The dictionary-entry generator and the speech generator: their options,
//! the prompt sent for a word, the retry rounds, and the tally of a run.
use vstd::prelude::*;
use vstd::string::StringExecFns;
use crate::cli::{count_arg, count_of, flag_option, or_default, text_arg, value_option, CliOption, OptionKind};

use crate::text::{str_eq, trim, trim_seq};

verus! {

/// The instructions sent with every request for a dictionary entry.
pub const SYSTEM_PROMPT: &'static str = "You are a professional lexicographer with access to major English dictionaries including 牛津英语词典, 韦氏国际词典, 柯林斯 COBUILD 高阶英汉双解学习词典, 剑桥高级英语学习者词典, and 麦克米伦高阶英语词典.\n\nYour task is to generate comprehensive dictionary entries in JSON format. For each word, provide:\n1. Word metadata (type, frequency, difficulty, syllable count)\n2. Pronunciations (UK and US IPA)\n3. Definitions in both English and Chinese\n4. Word forms (plural, past tense, etc.)\n5. Example sentences from various sources\n6. Etymology information\n7. Categories and tags\n8. Related words (synonyms, antonyms, broader terms)\n9. Frequency data from major corpora\n\nAlways return valid JSON matching the exact structure provided in the example.";

/// The request for the entry of a word is these three pieces with the word
/// between them.
pub const WORD_PROMPT_HEAD: &'static str = "Generate a complete dictionary entry for the word \"";

pub const WORD_PROMPT_MID: &'static str = "\" in the following JSON format:\n\n{\n  \"";

pub const WORD_PROMPT_TAIL: &'static str = "\": {\n    \"word_type\": \"<part of speech: noun/verb/adjective/adverb/etc>\",\n    \"language\": \"en\",\n    \"frequency\": <1-100 based on common usage>,\n    \"difficulty\": <1-5, where 1 is easiest>,\n    \"syllable_count\": <number of syllables>,\n    \"is_lemma\": <true if this is the base form>,\n    \"word_count\": <number of words, 1 for single words>,\n    \n    \"pronunciations\": [\n      { \"ipa\": \"<UK IPA>\", \"dialect\": \"UK\" },\n      { \"ipa\": \"<US IPA>\", \"dialect\": \"US\" }\n    ],\n\n    \"definitions\": [\n      {\n        \"language\": \"en\",\n        \"part_of_speech\": \"<part of speech>\",\n        \"definition\": \"<English definition>\",\n        \"register\": \"<neutral/formal/informal/technical/literary>\",\n        \"is_primary\": true,\n        \"usage_notes\": \"<optional usage notes>\"\n      },\n      {\n        \"language\": \"zh\",\n        \"part_of_speech\": \"<part of speech>\",\n        \"definition\": \"<Chinese definition>\",\n        \"is_primary\": true\n      }\n    ],\n\n    \"forms\": [\n      { \"form_type\": \"<plural/past/past_participle/present_participle/comparative/superlative>\", \"form\": \"<word form>\", \"is_irregular\": <true/false> }\n    ],\n\n    \"sentences\": [\n      { \"sentence\": \"<example sentence>\", \"source\": \"<source>\", \"difficulty\": <1-5> }\n    ],\n\n    \"etymologies\": [\n      {\n        \"language\": \"en\",\n        \"origin_language\": \"<origin language>\",\n        \"origin_word\": \"<original word>\",\n        \"origin_meaning\": \"<original meaning>\",\n        \"etymology\": \"<etymology description>\",\n        \"first_attested_year\": <year or null>\n      },\n      {\n        \"language\": \"zh\",\n        \"origin_language\": \"<origin language>\",\n        \"origin_word\": \"<original word>\",\n        \"etymology\": \"<Chinese etymology description>\"\n      }\n    ],\n\n    \"categories\": [\n      { \"name\": \"<category>\", \"confidence\": <50-100> }\n    ],\n\n    \"relations\": {\n      \"synonyms\": [\n        { \"word\": \"<synonym>\", \"strength\": <50-100> }\n      ],\n      \"antonyms\": [\n        { \"word\": \"<antonym>\", \"strength\": <50-100> }\n      ],\n      \"related\": [\n        { \"word\": \"<related word>\", \"strength\": <50-100> }\n      ],\n      \"broader\": [\n        { \"word\": \"<broader term>\", \"strength\": <50-100> }\n      ]\n    },\n\n    \"frequencies\": [\n      { \"corpus\": \"COCA\", \"corpus_type\": \"general\", \"band\": \"<top_1000/top_3000/top_5000/top_10000>\", \"rank\": <rank>, \"per_million\": <frequency per million> },\n      { \"corpus\": \"BNC\", \"corpus_type\": \"written\", \"band\": \"<band>\", \"rank\": <rank>, \"per_million\": <frequency per million> }\n    ]\n  }\n}\n\nImportant:\n- Provide accurate IPA pronunciations for both UK and US English\n- Include at least 2-3 English definitions and their Chinese translations\n- Add 3-5 example sentences with varying difficulty levels\n- Include relevant word forms based on the part of speech\n- Provide accurate etymology information\n- List relevant synonyms, antonyms, and related words\n\nCRITICAL - dictionaries field rules:\n- The \"dictionaries\" array indicates which dictionaries/vocabulary lists CONTAIN this word\n- ONLY include a dictionary entry if the word actually appears in that dictionary or vocabulary list\n- Do NOT blindly include all 10 options - be selective based on the word's actual presence\n- Available options with priority_order:\n  1. 牛津英语词典 (most words appear here)\n  2. 柯林斯 COBUILD 高阶英汉双解学习词典\n  3. 韦氏国际词典\n  4. 剑桥高级英语学习者词典\n  5. 麦克米伦高阶英语词典\n  6. 大学英语四级考试 (CET4 ~4500 common words)\n  7. 大学英语六级考试 (CET6 ~6000 words, includes CET4)\n  8. 英语专业四级考试 (TEM4 ~8000 words)\n  9. 英语专业八级考试 (TEM8 ~13000 words)\n  10. 考研英语 (NEEP ~5500 words)\n- Example: \"apple\" (common) -> include all 10; \"ubiquitous\" (advanced) -> include dictionaries + CET6/TEM4/TEM8/NEEP but NOT CET4\n- Only return valid JSON, no additional text or explanation";

pub open spec fn word_prompt_spec(word: Seq<char>) -> Seq<char> {
    WORD_PROMPT_HEAD@ + word + WORD_PROMPT_MID@ + word + WORD_PROMPT_TAIL@
}

/// The request for the dictionary entry of `word`.
pub fn word_prompt(word: &str) -> (r: String)
    ensures
        r@ == word_prompt_spec(word@),
{
    let mut p = WORD_PROMPT_HEAD.to_string();
    p.append(word);
    p.append(WORD_PROMPT_MID);
    p.append(word);
    p.append(WORD_PROMPT_TAIL);
    p
}

/// What the text of a JSON document holds at its top: `None` when it does not
/// parse, `Some(Some(n))` for an object of `n` members, `Some(None)` for any
/// other value.
pub uninterp spec fn json_top_object_len(text: Seq<char>) -> Option<Option<usize>>;

/// `serde_json::from_str::<serde_json::Value>`, read as `json_top_object_len`.
#[verifier::external_body]
fn json_shape(text: &str) -> (r: Option<Option<usize>>)
    ensures
        r == json_top_object_len(text@),
{
    match serde_json::from_str::<serde_json::Value>(text) {
        Ok(v) => Some(v.as_object().map(|o| o.len())),
        Err(_) => None,
    }
}

/// An entry file is kept when it holds a JSON object with at least one member.
pub open spec fn is_valid_entry_spec(content: Seq<char>) -> bool {
    &&& trim_seq(content).len() != 0
    &&& json_top_object_len(content) matches Some(Some(n))
    &&& n > 0
}

pub fn is_valid_entry_text(content: &str) -> (r: bool)
    ensures
        r == is_valid_entry_spec(content@),
{
    let t = trim(content);
    if t.as_str().unicode_len() == 0 {
        return false;
    }
    match json_shape(content) {
        Some(Some(n)) => n > 0,
        _ => false,
    }
}

/// Whether a text parses as JSON at all.
pub fn is_json(text: &str) -> (r: bool)
    ensures
        r == (json_top_object_len(text@) is Some),
{
    json_shape(text).is_some()
}

// ---------------------------------------------------------------------------
// Retries

/// Each request is tried at most this many times.
pub const RETRY_COUNT: usize = 3;

/// Milliseconds to wait before attempt `attempt` (counted from 0): nothing
/// before the first, then 1000 times the attempt's number counted from 1.
pub open spec fn retry_delay_spec(attempt: nat) -> nat {
    if attempt == 0 { 0 } else { 1000 * (attempt + 1) }
}

/// The rounds of a request that is retried: how many attempts were made and
/// the error of the last one.
pub struct Retry {
    pub attempts: usize,
    pub last_error: Option<String>,
}

/// What to do next.
pub enum RetryStep {
    /// Wait this many milliseconds, then try again.
    Attempt(u64),
    /// Stop with this error.
    GiveUp(String),
}

impl Retry {
    pub fn new() -> (r: Retry)
        ensures
            r.attempts == 0,
            r.last_error is None,
    {
        Retry { attempts: 0, last_error: None }
    }

    pub fn next_step(&self) -> (r: RetryStep)
        requires
            self.attempts <= RETRY_COUNT,
        ensures
            self.attempts < RETRY_COUNT ==> (r matches RetryStep::Attempt(d) && d == retry_delay_spec(
                self.attempts as nat,
            )),
            self.attempts >= RETRY_COUNT ==> (r matches RetryStep::GiveUp(e) && e@ == (match self.last_error {
                Some(m) => m@,
                None => "Unknown error"@,
            })),
    {
        if self.attempts < RETRY_COUNT {
            let d: u64 = if self.attempts == 0 { 0 } else { 1000 * (self.attempts as u64 + 1) };
            RetryStep::Attempt(d)
        } else {
            match &self.last_error {
                Some(m) => RetryStep::GiveUp(m.clone()),
                None => RetryStep::GiveUp("Unknown error".to_string()),
            }
        }
    }

    /// Records a failed attempt.
    pub fn failed(&mut self, error: String)
        requires
            old(self).attempts < RETRY_COUNT,
        ensures
            final(self).attempts == old(self).attempts + 1,
            final(self).last_error matches Some(e) && e@ == error@,
    {
        self.attempts = self.attempts + 1;
        self.last_error = Some(error);
    }
}

/// How one request for a dictionary entry went.
pub enum ChatOutcome {
    /// The request could not be sent or answered.
    RequestFailed(String),
    /// The service answered with an error status (code, status line, body).
    HttpError(u16, String, String),
    /// The answer's body was not the expected reply.
    BodyUnreadable(String),
    /// The reply had no choice in it.
    NoChoice,
    /// The content of the first choice.
    Content(String),
}

/// What an attempt gives: the entry, or the error to remember and whether to
/// back off five more seconds (the service said 429, too many requests).
pub enum AttemptResult {
    Entry(String),
    Failed(String, bool),
}

pub open spec fn attempt_result_spec(o: ChatOutcome) -> (bool, Seq<char>, bool) {
    match o {
        ChatOutcome::RequestFailed(e) => (false, "Request failed: "@ + e@, false),
        ChatOutcome::HttpError(code, line, body) => (false, "API error "@ + line@ + ": "@ + body@, code == 429),
        ChatOutcome::BodyUnreadable(e) => (false, "Failed to parse response: "@ + e@, false),
        ChatOutcome::NoChoice => (false, "Empty response from API"@, false),
        ChatOutcome::Content(c) => if json_top_object_len(c@) is Some {
            (true, c@, false)
        } else {
            (false, "Invalid JSON response: "@ + c@, false)
        },
    }
}

/// Judges an attempt: an entry must be JSON.
pub fn judge_attempt(o: ChatOutcome) -> (r: AttemptResult)
    ensures
        match r {
            AttemptResult::Entry(c) => attempt_result_spec(o) == (true, c@, false),
            AttemptResult::Failed(e, slow) => attempt_result_spec(o) == (false, e@, slow),
        },
{
    match o {
        ChatOutcome::RequestFailed(e) => {
            let mut m = "Request failed: ".to_string();
            m.append(e.as_str());
            AttemptResult::Failed(m, false)
        },
        ChatOutcome::HttpError(code, line, body) => {
            let mut m = "API error ".to_string();
            m.append(line.as_str());
            m.append(": ");
            m.append(body.as_str());
            AttemptResult::Failed(m, code == 429)
        },
        ChatOutcome::BodyUnreadable(e) => {
            let mut m = "Failed to parse response: ".to_string();
            m.append(e.as_str());
            AttemptResult::Failed(m, false)
        },
        ChatOutcome::NoChoice => AttemptResult::Failed("Empty response from API".to_string(), false),
        ChatOutcome::Content(c) => {
            if is_json(c.as_str()) {
                AttemptResult::Entry(c)
            } else {
                let mut m = "Invalid JSON response: ".to_string();
                m.append(c.as_str());
                AttemptResult::Failed(m, false)
            }
        },
    }
}

/// The error remembered when building a speech request failed.
pub fn tts_build_error(e: &str) -> (r: String)
    ensures
        r@ == "Failed to build request: "@ + e@,
{
    let mut m = "Failed to build request: ".to_string();
    m.append(e);
    m
}

/// The error remembered when the speech service failed.
pub fn tts_api_error(e: &str) -> (r: String)
    ensures
        r@ == "TTS API error: "@ + e@,
{
    let mut m = "TTS API error: ".to_string();
    m.append(e);
    m
}

// ---------------------------------------------------------------------------
// The tally of a run

/// How many items of a run were taken up, and how each ended.
pub struct RunTally {
    pub processed: usize,
    pub success: usize,
    pub errors: usize,
}

impl RunTally {
    pub open spec fn consistent(&self) -> bool {
        self.processed == self.success + self.errors
    }

    pub fn new() -> (r: RunTally)
        ensures
            r.processed == 0 && r.success == 0 && r.errors == 0,
            r.consistent(),
    {
        RunTally { processed: 0, success: 0, errors: 0 }
    }

    /// Counts an item that ended well (`ok`) or with an error; returns its
    /// number, counted from 1, as shown in the progress line.
    pub fn record(&mut self, ok: bool) -> (n: usize)
        requires
            old(self).consistent(),
            old(self).processed < usize::MAX,
        ensures
            final(self).consistent(),
            final(self).processed == old(self).processed + 1,
            n == final(self).processed,
            ok ==> final(self).success == old(self).success + 1 && final(self).errors == old(self).errors,
            !ok ==> final(self).errors == old(self).errors + 1 && final(self).success == old(self).success,
    {
        self.processed = self.processed + 1;
        if ok {
            self.success = self.success + 1;
        } else {
            self.errors = self.errors + 1;
        }
        self.processed
    }
}

// ---------------------------------------------------------------------------
// Options of the dictionary-entry generator

pub const DEFAULT_WORDS_FILE: &'static str = "words-all.txt";
pub const DEFAULT_OUTPUT_DIR: &'static str = "../words";
pub const DEFAULT_MODEL: &'static str = "GLM-4-Flash";
pub const DEFAULT_CONCURRENCY: usize = 200;
/// The number of words taken when `--limit` is given something that is not a number.
pub const DEFAULT_LIMIT_WHEN_UNREADABLE: usize = 100;

/// The options of the dictionary-entry generator, in this order:
/// `--words-file`, `--output-dir`, `--concurrency`, `--start-from`,
/// `--limit`, `--model`, `--help`.
pub fn words_options() -> (r: Vec<CliOption>)
    ensures
        r@.len() == 7,
        forall|k: int| 0 <= k < 6 ==> (#[trigger] r@[k]).kind == OptionKind::Value,
        r@[6].kind == OptionKind::Help,
        forall|k: int| 0 <= k < 7 ==> (#[trigger] r@[k]).names@.len() == 1,
        r@[0].names@[0]@ == "--words-file"@ && r@[0].hint@ == "a path"@,
        r@[1].names@[0]@ == "--output-dir"@ && r@[1].hint@ == "a path"@,
        r@[2].names@[0]@ == "--concurrency"@ && r@[2].hint@ == "a number"@,
        r@[3].names@[0]@ == "--start-from"@ && r@[3].hint@ == "a word"@,
        r@[4].names@[0]@ == "--limit"@ && r@[4].hint@ == "a number"@,
        r@[5].names@[0]@ == "--model"@ && r@[5].hint@ == "a model name"@,
        r@[6].names@[0]@ == "--help"@,
{
    let mut v: Vec<CliOption> = Vec::new();
    v.push(value_option("--words-file", None, "a path"));
    v.push(value_option("--output-dir", None, "a path"));
    v.push(value_option("--concurrency", None, "a number"));
    v.push(value_option("--start-from", None, "a word"));
    v.push(value_option("--limit", None, "a number"));
    v.push(value_option("--model", None, "a model name"));
    v.push(flag_option("--help", None, OptionKind::Help));
    proof {
        assert forall|k: int| 0 <= k < 7 implies (#[trigger] v@[k]).names@.len() == 1 by {
            assert(crate::text::views_of(v@[k].names@).len() == 1);
        }
        assert(crate::text::views_of(v@[0].names@)[0] == v@[0].names@[0]@);
        assert(crate::text::views_of(v@[1].names@)[0] == v@[1].names@[0]@);
        assert(crate::text::views_of(v@[2].names@)[0] == v@[2].names@[0]@);
        assert(crate::text::views_of(v@[3].names@)[0] == v@[3].names@[0]@);
        assert(crate::text::views_of(v@[4].names@)[0] == v@[4].names@[0]@);
        assert(crate::text::views_of(v@[5].names@)[0] == v@[5].names@[0]@);
        assert(crate::text::views_of(v@[6].names@)[0] == v@[6].names@[0]@);
    }
    v
}

/// The settings of a run of the dictionary-entry generator.
pub struct WordsArgs {
    pub words_file: String,
    pub output_dir: String,
    pub concurrency: usize,
    pub start_from: Option<String>,
    pub limit: Option<usize>,
    pub model: String,
}

/// The settings given by the values read for `words_options`.
pub fn words_args(values: &Vec<Option<String>>) -> (r: WordsArgs)
    requires
        values@.len() == 7,
    ensures
        ({
            let v = crate::cli::opt_views(values@);
            &&& r.words_file@ == or_default(v[0], DEFAULT_WORDS_FILE@)
            &&& r.output_dir@ == or_default(v[1], DEFAULT_OUTPUT_DIR@)
            &&& r.concurrency == count_of(v[2], DEFAULT_CONCURRENCY, DEFAULT_CONCURRENCY)
            &&& crate::cli::opt_views(seq![r.start_from])[0] == v[3]
            &&& r.limit == (match v[4] {
                Some(s) => Some(count_of(Some(s), 0, DEFAULT_LIMIT_WHEN_UNREADABLE)),
                None => None,
            })
            &&& r.model@ == or_default(v[5], DEFAULT_MODEL@)
        }),
{
    let limit = match &values[4] {
        Some(_) => Some(count_arg(&values[4], 0, DEFAULT_LIMIT_WHEN_UNREADABLE)),
        None => None,
    };
    let start_from = match &values[3] {
        Some(s) => Some(s.clone()),
        None => None,
    };
    WordsArgs {
        words_file: text_arg(&values[0], DEFAULT_WORDS_FILE),
        output_dir: text_arg(&values[1], DEFAULT_OUTPUT_DIR),
        concurrency: count_arg(&values[2], DEFAULT_CONCURRENCY, DEFAULT_CONCURRENCY),
        start_from,
        limit,
        model: text_arg(&values[5], DEFAULT_MODEL),
    }
}

// ---------------------------------------------------------------------------
// Options of the speech generator

pub const DEFAULT_TTS_CONCURRENCY: usize = 5;
pub const DEFAULT_VOICE: &'static str = "zh_female_vv_uranus_bigtts";
pub const DEFAULT_TTS_INPUT: &'static str = "D:\\Works\\cola-ng\\movies\\word-s.json";
pub const DEFAULT_TTS_OUTPUT: &'static str = "D:\\Works\\cola-ng\\movies\\word-stences";
pub const DEFAULT_RESOURCE_ID: &'static str = "seed-tts-2.0";

/// The options of the speech generator, in this order: `--input`/`-i`,
/// `--output`/`-o`, `--limit`/`-l`, `--concurrency`/`-c`, `--voice`/`-v`,
/// `--help`/`-h`.
pub fn tts_options() -> (r: Vec<CliOption>)
    ensures
        r@.len() == 6,
        forall|k: int| 0 <= k < 5 ==> (#[trigger] r@[k]).kind == OptionKind::Value,
        r@[5].kind == OptionKind::Help,
        forall|k: int| 0 <= k < 6 ==> (#[trigger] r@[k]).names@.len() == 2,
        r@[0].names@[0]@ == "--input"@ && r@[0].names@[1]@ == "-i"@ && r@[0].hint@ == "a path"@,
        r@[1].names@[0]@ == "--output"@ && r@[1].names@[1]@ == "-o"@ && r@[1].hint@ == "a path"@,
        r@[2].names@[0]@ == "--limit"@ && r@[2].names@[1]@ == "-l"@ && r@[2].hint@ == "a number"@,
        r@[3].names@[0]@ == "--concurrency"@ && r@[3].names@[1]@ == "-c"@ && r@[3].hint@ == "a number"@,
        r@[4].names@[0]@ == "--voice"@ && r@[4].names@[1]@ == "-v"@ && r@[4].hint@ == "a voice name"@,
        r@[5].names@[0]@ == "--help"@ && r@[5].names@[1]@ == "-h"@,
{
    let mut v: Vec<CliOption> = Vec::new();
    v.push(value_option("--input", Some("-i"), "a path"));
    v.push(value_option("--output", Some("-o"), "a path"));
    v.push(value_option("--limit", Some("-l"), "a number"));
    v.push(value_option("--concurrency", Some("-c"), "a number"));
    v.push(value_option("--voice", Some("-v"), "a voice name"));
    v.push(flag_option("--help", Some("-h"), OptionKind::Help));
    proof {
        assert forall|k: int| 0 <= k < 6 implies (#[trigger] v@[k]).names@.len() == 2 by {
            assert(crate::text::views_of(v@[k].names@).len() == 2);
        }
        assert forall|k: int, j: int| 0 <= k < 6 && 0 <= j < 2 implies crate::text::views_of(
            v@[k].names@,
        )[j] == (#[trigger] v@[k].names@[j])@ by {}
    }
    v
}

/// The settings of a run of the speech generator.
pub struct TtsArgs {
    pub input_file: String,
    pub output_dir: String,
    pub limit: Option<usize>,
    pub concurrency: usize,
    pub voice: String,
}

/// The settings given by the values read for `tts_options`.
pub fn tts_args(values: &Vec<Option<String>>) -> (r: TtsArgs)
    requires
        values@.len() == 6,
    ensures
        ({
            let v = crate::cli::opt_views(values@);
            &&& r.input_file@ == or_default(v[0], DEFAULT_TTS_INPUT@)
            &&& r.output_dir@ == or_default(v[1], DEFAULT_TTS_OUTPUT@)
            &&& r.limit == (match v[2] {
                Some(s) => Some(count_of(Some(s), 0, DEFAULT_LIMIT_WHEN_UNREADABLE)),
                None => None,
            })
            &&& r.concurrency == count_of(v[3], DEFAULT_TTS_CONCURRENCY, DEFAULT_TTS_CONCURRENCY)
            &&& r.voice@ == or_default(v[4], DEFAULT_VOICE@)
        }),
{
    let limit = match &values[2] {
        Some(_) => Some(count_arg(&values[2], 0, DEFAULT_LIMIT_WHEN_UNREADABLE)),
        None => None,
    };
    TtsArgs {
        input_file: text_arg(&values[0], DEFAULT_TTS_INPUT),
        output_dir: text_arg(&values[1], DEFAULT_TTS_OUTPUT),
        limit,
        concurrency: count_arg(&values[3], DEFAULT_TTS_CONCURRENCY, DEFAULT_TTS_CONCURRENCY),
        voice: text_arg(&values[4], DEFAULT_VOICE),
    }
}

} // verus!
