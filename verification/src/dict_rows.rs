//! The rows the dictionary importers store for an entry: definitions,
//! pronunciations, sentences and relations, with their order and the one
//! marked primary; and the counts an import reports.
use vstd::prelude::*;
use vstd::string::StringExecFns;
use crate::dict::{
    normalize_part_of_speech, normalize_register, part_of_speech_of, register_of, DictionaryRef,
};
use crate::text::{lowercase, opt_view, to_lowercase, views_of, word_count, word_count_seq};

verus! {

/// The texts of `s` that are not empty, in order.
pub open spec fn nonempty_texts(s: Seq<Seq<char>>) -> Seq<Seq<char>>
    decreases s.len(),
{
    if s.len() == 0 {
        Seq::empty()
    } else {
        let rest = nonempty_texts(s.drop_last());
        if s.last().len() > 0 {
            rest.push(s.last())
        } else {
            rest
        }
    }
}

proof fn lemma_nonempty_texts_len(s: Seq<Seq<char>>)
    ensures
        nonempty_texts(s).len() <= s.len(),
    decreases s.len(),
{
    if s.len() > 0 {
        lemma_nonempty_texts_len(s.drop_last());
    }
}

/// A definition to be stored.
#[derive(Debug)]
pub struct DefinitionRow {
    pub language: String,
    pub definition: String,
    pub part_of_speech: Option<String>,
    pub order: i32,
    pub register: Option<String>,
    pub usage_notes: Option<String>,
    pub is_primary: bool,
}

pub struct DefinitionView {
    pub language: Seq<char>,
    pub definition: Seq<char>,
    pub part_of_speech: Option<Seq<char>>,
    pub order: int,
    pub register: Option<Seq<char>>,
    pub usage_notes: Option<Seq<char>>,
    pub is_primary: bool,
}

impl View for DefinitionRow {
    type V = DefinitionView;

    open spec fn view(&self) -> DefinitionView {
        DefinitionView {
            language: self.language@,
            definition: self.definition@,
            part_of_speech: opt_view(self.part_of_speech),
            order: self.order as int,
            register: opt_view(self.register),
            usage_notes: opt_view(self.usage_notes),
            is_primary: self.is_primary,
        }
    }
}

pub open spec fn definitions_view(v: Seq<DefinitionRow>) -> Seq<DefinitionView> {
    v.map_values(|d: DefinitionRow| d@)
}

/// The rows of a source entry's definitions: the English ones that are not
/// empty, numbered from `first_order`, the first of them primary when
/// `first_order` is 1.
pub open spec fn numbered_definitions(
    texts: Seq<Seq<char>>,
    language: Seq<char>,
    part_of_speech: Option<Seq<char>>,
    first_order: nat,
    primary_first: bool,
) -> Seq<DefinitionView> {
    Seq::new(
        texts.len(),
        |i: int|
            DefinitionView {
                language,
                definition: texts[i],
                part_of_speech,
                order: first_order + i,
                register: None,
                usage_notes: None,
                is_primary: primary_first && i == 0,
            },
    )
}

/// The definitions stored for a source dictionary entry: its non-empty
/// English definitions, then its non-empty Chinese ones, numbered from 1 on;
/// only the first English one is primary.
pub open spec fn bilingual_definitions_spec(
    en: Seq<Seq<char>>,
    zh: Seq<Seq<char>>,
    part_of_speech: Option<Seq<char>>,
) -> Seq<DefinitionView> {
    let e = nonempty_texts(en);
    numbered_definitions(e, "en"@, part_of_speech, 1, true) + numbered_definitions(
        nonempty_texts(zh),
        "zh"@,
        part_of_speech,
        e.len() + 1,
        false,
    )
}

fn push_numbered(
    out: &mut Vec<DefinitionRow>,
    texts: &Vec<String>,
    language: &str,
    part_of_speech: &Option<String>,
    primary_first: bool,
)
    requires
        old(out)@.len() + texts@.len() < i32::MAX,
    ensures
        definitions_view(final(out)@) == definitions_view(old(out)@) + numbered_definitions(
            nonempty_texts(views_of(texts@)),
            language@,
            opt_view(*part_of_speech),
            old(out)@.len() + 1,
            primary_first && old(out)@.len() == 0,
        ),
{
    let ghost start = old(out)@.len();
    let ghost before = definitions_view(old(out)@);
    let ghost pos = opt_view(*part_of_speech);
    let mut i: usize = 0;
    while i < texts.len()
        invariant
            i <= texts@.len(),
            start + texts@.len() < i32::MAX,
            start == old(out)@.len(),
            before == definitions_view(old(out)@),
            pos == opt_view(*part_of_speech),
            definitions_view(out@) == before + numbered_definitions(
                nonempty_texts(views_of(texts@).take(i as int)),
                language@,
                pos,
                start + 1,
                primary_first && start == 0,
            ),
            out@.len() == start + nonempty_texts(views_of(texts@).take(i as int)).len(),
            nonempty_texts(views_of(texts@).take(i as int)).len() <= i,
        decreases texts@.len() - i,
    {
        let ghost prev = nonempty_texts(views_of(texts@).take(i as int));
        assert(views_of(texts@).take(i + 1).drop_last() =~= views_of(texts@).take(i as int));
        assert(views_of(texts@).take(i + 1).last() == texts@[i as int]@);
        if texts[i].as_str().unicode_len() > 0 {
            let order: i32 = (out.len() + 1) as i32;
            let row = DefinitionRow {
                language: language.to_string(),
                definition: texts[i].clone(),
                part_of_speech: match part_of_speech {
                    Some(p) => Some(p.clone()),
                    None => None,
                },
                order,
                register: None,
                usage_notes: None,
                is_primary: primary_first && out.len() == 0,
            };
            let ghost old_view = definitions_view(out@);
            out.push(row);
            assert(definitions_view(out@) =~= old_view.push(row@));
            assert(numbered_definitions(
                prev.push(texts@[i as int]@),
                language@,
                pos,
                start + 1,
                primary_first && start == 0,
            ) =~= numbered_definitions(prev, language@, pos, start + 1, primary_first && start == 0).push(
                row@,
            ));
        } else {
            assert(texts@[i as int]@.len() == 0);
        }
        i = i + 1;
    }
    assert(views_of(texts@).take(texts@.len() as int) =~= views_of(texts@));
}

/// The definitions of a source dictionary entry, as they are stored.
pub fn bilingual_definition_rows(
    en: &Vec<String>,
    zh: &Vec<String>,
    part_of_speech: &Option<String>,
) -> (r: Vec<DefinitionRow>)
    requires
        en@.len() + zh@.len() < i32::MAX,
    ensures
        definitions_view(r@) == bilingual_definitions_spec(
            views_of(en@),
            views_of(zh@),
            opt_view(*part_of_speech),
        ),
{
    let mut out: Vec<DefinitionRow> = Vec::new();
    assert(definitions_view(out@) =~= Seq::<DefinitionView>::empty());
    push_numbered(&mut out, en, "en", part_of_speech, true);
    proof {
        lemma_nonempty_texts_len(views_of(en@));
    }
    let ghost after_en = definitions_view(out@);
    push_numbered(&mut out, zh, "zh", part_of_speech, false);
    assert(after_en =~= numbered_definitions(
        nonempty_texts(views_of(en@)),
        "en"@,
        opt_view(*part_of_speech),
        1,
        true,
    ));
    out
}

/// Of the definitions stored for a source dictionary entry, at most the first
/// is primary, and they are numbered 1, 2, 3 and on.
pub proof fn lemma_bilingual_definitions_numbered(
    en: Seq<Seq<char>>,
    zh: Seq<Seq<char>>,
    part_of_speech: Option<Seq<char>>,
)
    ensures
        forall|i: int|
            0 <= i < bilingual_definitions_spec(en, zh, part_of_speech).len() ==> {
                &&& (#[trigger] bilingual_definitions_spec(en, zh, part_of_speech)[i]).order == i + 1
                &&& bilingual_definitions_spec(en, zh, part_of_speech)[i].is_primary ==> i == 0
            },
{
    let e = nonempty_texts(en);
    let a = numbered_definitions(e, "en"@, part_of_speech, 1, true);
    let b = numbered_definitions(nonempty_texts(zh), "zh"@, part_of_speech, e.len() + 1, false);
    assert forall|i: int| 0 <= i < (a + b).len() implies {
        &&& (#[trigger] (a + b)[i]).order == i + 1
        &&& (a + b)[i].is_primary ==> i == 0
    } by {
        if i < a.len() {
            assert((a + b)[i] == a[i]);
        } else {
            assert((a + b)[i] == b[i - a.len()]);
        }
    }
}

/// A definition of a generated entry.
#[derive(Debug)]
pub struct DefinitionInput {
    pub language: String,
    pub part_of_speech: Option<String>,
    pub definition: String,
    pub register: Option<String>,
    pub is_primary: Option<bool>,
    pub usage_notes: Option<String>,
}

/// The stored form of the `i`-th definition of a generated entry: numbered
/// from 1, part of speech and register normalised, primary as the entry
/// says or, where it says nothing, when it comes first.
pub open spec fn generated_definition(d: DefinitionInput, i: int) -> DefinitionView {
    DefinitionView {
        language: d.language@,
        definition: d.definition@,
        part_of_speech: match d.part_of_speech {
            Some(p) => part_of_speech_of(lowercase(p@)),
            None => None,
        },
        order: i + 1,
        register: match d.register {
            Some(g) => register_of(lowercase(g@)),
            None => None,
        },
        usage_notes: opt_view(d.usage_notes),
        is_primary: match d.is_primary {
            Some(b) => b,
            None => i == 0,
        },
    }
}

fn clone_opt(o: &Option<String>) -> (r: Option<String>)
    ensures
        opt_view(r) == opt_view(*o),
{
    match o {
        Some(s) => Some(s.clone()),
        None => None,
    }
}

/// The definitions of a generated entry, as they are stored.
pub fn definition_rows(defs: &Vec<DefinitionInput>) -> (r: Vec<DefinitionRow>)
    requires
        defs@.len() < i32::MAX,
    ensures
        r@.len() == defs@.len(),
        forall|i: int| 0 <= i < defs@.len() ==> (#[trigger] r@[i])@ == generated_definition(defs@[i], i),
{
    let mut out: Vec<DefinitionRow> = Vec::new();
    let mut i: usize = 0;
    while i < defs.len()
        invariant
            i <= defs@.len() < i32::MAX,
            out@.len() == i,
            forall|k: int| 0 <= k < i ==> (#[trigger] out@[k])@ == generated_definition(defs@[k], k),
        decreases defs@.len() - i,
    {
        let d = &defs[i];
        let part_of_speech = match &d.part_of_speech {
            Some(p) => normalize_part_of_speech(p.as_str()),
            None => None,
        };
        let register = match &d.register {
            Some(g) => normalize_register(g.as_str()),
            None => None,
        };
        let is_primary = match d.is_primary {
            Some(b) => b,
            None => i == 0,
        };
        out.push(DefinitionRow {
            language: d.language.clone(),
            definition: d.definition.clone(),
            part_of_speech,
            order: (i + 1) as i32,
            register,
            usage_notes: clone_opt(&d.usage_notes),
            is_primary,
        });
        i = i + 1;
    }
    out
}

// ---------------------------------------------------------------------------
// Pronunciations

/// A pronunciation to be stored.
#[derive(Debug)]
pub struct PronunciationRow {
    pub ipa: String,
    pub dialect: Option<String>,
    pub audio_url: Option<String>,
    pub audio_path: Option<String>,
    pub is_primary: bool,
}

pub struct PronunciationView {
    pub ipa: Seq<char>,
    pub dialect: Option<Seq<char>>,
    pub audio_url: Option<Seq<char>>,
    pub audio_path: Option<Seq<char>>,
    pub is_primary: bool,
}

impl View for PronunciationRow {
    type V = PronunciationView;

    open spec fn view(&self) -> PronunciationView {
        PronunciationView {
            ipa: self.ipa@,
            dialect: opt_view(self.dialect),
            audio_url: opt_view(self.audio_url),
            audio_path: opt_view(self.audio_path),
            is_primary: self.is_primary,
        }
    }
}

pub open spec fn pronunciations_view(v: Seq<PronunciationRow>) -> Seq<PronunciationView> {
    v.map_values(|p: PronunciationRow| p@)
}

/// The stand-in transcription of a word that has audio but no phonetic text,
/// such as `[uk: apple]`.
pub open spec fn placeholder_ipa(dialect: Seq<char>, word: Seq<char>) -> Seq<char> {
    "["@ + dialect + ": "@ + word + "]"@
}

pub open spec fn audio_ipa(phonetic: Seq<char>, dialect: Seq<char>, word: Seq<char>) -> Seq<char> {
    if phonetic.len() > 0 { phonetic } else { placeholder_ipa(dialect, word) }
}

/// The pronunciations stored for a source dictionary entry, given the
/// British and American recordings found for it and the labels the
/// importer gives the two dialects: one per recording (the British first),
/// the first primary; with no recording, the phonetic text alone, primary,
/// under `bare_dialect`, if there is a phonetic text.
pub open spec fn audio_pronunciations_spec(
    word: Seq<char>,
    phonetic: Seq<char>,
    uk_audio: Option<Seq<char>>,
    us_audio: Option<Seq<char>>,
    uk_label: Seq<char>,
    us_label: Seq<char>,
    bare_dialect: Option<Seq<char>>,
) -> Seq<PronunciationView> {
    let uk: Seq<PronunciationView> = match uk_audio {
        Some(p) => seq![
            PronunciationView {
                ipa: audio_ipa(phonetic, uk_label, word),
                dialect: Some(uk_label),
                audio_url: None,
                audio_path: Some(p),
                is_primary: true,
            },
        ],
        None => Seq::empty(),
    };
    let us: Seq<PronunciationView> = match us_audio {
        Some(p) => seq![
            PronunciationView {
                ipa: audio_ipa(phonetic, us_label, word),
                dialect: Some(us_label),
                audio_url: None,
                audio_path: Some(p),
                is_primary: uk_audio is None,
            },
        ],
        None => Seq::empty(),
    };
    if uk_audio is None && us_audio is None {
        if phonetic.len() > 0 {
            seq![
                PronunciationView {
                    ipa: phonetic,
                    dialect: bare_dialect,
                    audio_url: None,
                    audio_path: None,
                    is_primary: true,
                },
            ]
        } else {
            Seq::empty()
        }
    } else {
        uk + us
    }
}

fn audio_row(word: &str, phonetic: &str, dialect: &str, path: &str, primary: bool) -> (r: PronunciationRow)
    ensures
        r@ == (PronunciationView {
            ipa: audio_ipa(phonetic@, dialect@, word@),
            dialect: Some(dialect@),
            audio_url: None,
            audio_path: Some(path@),
            is_primary: primary,
        }),
{
    let ipa = if phonetic.unicode_len() > 0 {
        phonetic.to_string()
    } else {
        let mut s = "[".to_string();
        s.append(dialect);
        s.append(": ");
        s.append(word);
        s.append("]");
        s
    };
    PronunciationRow {
        ipa,
        dialect: Some(dialect.to_string()),
        audio_url: None,
        audio_path: Some(path.to_string()),
        is_primary: primary,
    }
}

pub open spec fn opt_str(o: Option<&str>) -> Option<Seq<char>> {
    match o {
        Some(s) => Some(s@),
        None => None,
    }
}

/// The pronunciations of a source dictionary entry, as they are stored.
pub fn audio_pronunciation_rows(
    word: &str,
    phonetic: &str,
    uk_audio: Option<&str>,
    us_audio: Option<&str>,
    uk_label: &str,
    us_label: &str,
    bare_dialect: Option<&str>,
) -> (r: Vec<PronunciationRow>)
    ensures
        pronunciations_view(r@) == audio_pronunciations_spec(
            word@,
            phonetic@,
            opt_str(uk_audio),
            opt_str(us_audio),
            uk_label@,
            us_label@,
            opt_str(bare_dialect),
        ),
{
    let mut out: Vec<PronunciationRow> = Vec::new();
    let mut has_primary = false;
    match uk_audio {
        Some(p) => {
            out.push(audio_row(word, phonetic, uk_label, p, !has_primary));
            has_primary = true;
        },
        None => {},
    }
    match us_audio {
        Some(p) => {
            out.push(audio_row(word, phonetic, us_label, p, !has_primary));
            has_primary = true;
        },
        None => {},
    }
    if !has_primary && phonetic.unicode_len() > 0 {
        out.push(
            PronunciationRow {
                ipa: phonetic.to_string(),
                dialect: match bare_dialect {
                    Some(d) => Some(d.to_string()),
                    None => None,
                },
                audio_url: None,
                audio_path: None,
                is_primary: true,
            },
        );
    }
    assert(pronunciations_view(out@) =~= audio_pronunciations_spec(
        word@,
        phonetic@,
        opt_str(uk_audio),
        opt_str(us_audio),
        uk_label@,
        us_label@,
        opt_str(bare_dialect),
    ));
    out
}

/// Every source dictionary entry that is stored with a pronunciation has
/// exactly one primary pronunciation.
pub proof fn lemma_one_primary_pronunciation(
    word: Seq<char>,
    phonetic: Seq<char>,
    uk_audio: Option<Seq<char>>,
    us_audio: Option<Seq<char>>,
    uk_label: Seq<char>,
    us_label: Seq<char>,
    bare_dialect: Option<Seq<char>>,
)
    ensures
        ({
            let rows = audio_pronunciations_spec(
                word,
                phonetic,
                uk_audio,
                us_audio,
                uk_label,
                us_label,
                bare_dialect,
            );
            rows.len() > 0 ==> {
                &&& rows[0].is_primary
                &&& forall|i: int| 0 < i < rows.len() ==> !(#[trigger] rows[i]).is_primary
            }
        }),
{
}

/// A pronunciation of a generated entry.
#[derive(Debug)]
pub struct PronunciationInput {
    pub ipa: String,
    pub dialect: Option<String>,
    pub audio_url: Option<String>,
}

/// The pronunciations of a generated entry, as they are stored: in order,
/// the first primary.
pub fn pronunciation_rows(prons: &Vec<PronunciationInput>) -> (r: Vec<PronunciationRow>)
    ensures
        r@.len() == prons@.len(),
        forall|i: int|
            0 <= i < prons@.len() ==> (#[trigger] r@[i])@ == (PronunciationView {
                ipa: prons@[i].ipa@,
                dialect: opt_view(prons@[i].dialect),
                audio_url: opt_view(prons@[i].audio_url),
                audio_path: None,
                is_primary: i == 0,
            }),
{
    let mut out: Vec<PronunciationRow> = Vec::new();
    let mut i: usize = 0;
    while i < prons.len()
        invariant
            i <= prons@.len(),
            out@.len() == i,
            forall|k: int|
                0 <= k < i ==> (#[trigger] out@[k])@ == (PronunciationView {
                    ipa: prons@[k].ipa@,
                    dialect: opt_view(prons@[k].dialect),
                    audio_url: opt_view(prons@[k].audio_url),
                    audio_path: None,
                    is_primary: k == 0,
                }),
        decreases prons@.len() - i,
    {
        let p = &prons[i];
        out.push(
            PronunciationRow {
                ipa: p.ipa.clone(),
                dialect: clone_opt(&p.dialect),
                audio_url: clone_opt(&p.audio_url),
                audio_path: None,
                is_primary: i == 0,
            },
        );
        i = i + 1;
    }
    out
}

/// Where a recording is found, relative to the audio directory: the
/// dialect's folder, then the file's name.
pub fn audio_relative_path(dialect: &str, file_name: &str) -> (r: String)
    ensures
        r@ == dialect@ + "/"@ + file_name@,
{
    let mut s = dialect.to_string();
    s.append("/");
    s.append(file_name);
    s
}

/// The example sentences of a source dictionary entry that are stored: the
/// ones that are not empty.
pub fn stored_examples(examples: &Vec<String>) -> (r: Vec<String>)
    ensures
        views_of(r@) == nonempty_texts(views_of(examples@)),
{
    let mut out: Vec<String> = Vec::new();
    let mut i: usize = 0;
    while i < examples.len()
        invariant
            i <= examples@.len(),
            views_of(out@) == nonempty_texts(views_of(examples@).take(i as int)),
        decreases examples@.len() - i,
    {
        assert(views_of(examples@).take(i + 1).drop_last() =~= views_of(examples@).take(i as int));
        assert(views_of(examples@).take(i + 1).last() == examples@[i as int]@);
        if examples[i].as_str().unicode_len() > 0 {
            let ghost before = out@;
            let c = examples[i].clone();
            out.push(c);
            assert(views_of(out@) =~= views_of(before).push(examples@[i as int]@));
        }
        i = i + 1;
    }
    assert(views_of(examples@).take(examples@.len() as int) =~= views_of(examples@));
    out
}

// ---------------------------------------------------------------------------
// Relations

/// The relation types of a generated entry, in the order they are stored.
pub open spec fn relation_type_spec(k: int) -> Seq<char> {
    if k == 0 {
        "synonym"@
    } else if k == 1 {
        "antonym"@
    } else if k == 2 {
        "related"@
    } else {
        "broader"@
    }
}

pub fn relation_type(k: usize) -> (r: String)
    requires
        k < 4,
    ensures
        r@ == relation_type_spec(k as int),
{
    if k == 0 {
        "synonym".to_string()
    } else if k == 1 {
        "antonym".to_string()
    } else if k == 2 {
        "related".to_string()
    } else {
        "broader".to_string()
    }
}

/// A word that a generated entry relates to, looked up by its lower-case
/// form and created, with its number of words, where it is missing.
pub struct RelatedWordPlan {
    pub word: String,
    pub word_lower: String,
    pub word_count: i32,
}

/// The plan for a related word; `None` for an item without a word.
pub fn related_word_plan(word: &Option<String>) -> (r: Option<RelatedWordPlan>)
    ensures
        match word {
            None => r is None,
            Some(w) => r matches Some(p) && p.word@ == w@ && p.word_lower@ == lowercase(w@)
                && p.word_count == word_count_seq(w@) as i32,
        },
{
    match word {
        None => None,
        Some(w) => {
            let n = word_count(w.as_str());
            Some(
                RelatedWordPlan {
                    word: w.clone(),
                    word_lower: to_lowercase(w.as_str()),
                    word_count: #[verifier::truncate] (n as i32),
                },
            )
        },
    }
}

// ---------------------------------------------------------------------------
// Caches of ids by name

/// Ids looked up by name during an import; a later entry for a name
/// replaces an earlier one.
pub struct NameCache {
    entries: Vec<(String, i64)>,
}

pub open spec fn lookup_in(s: Seq<(Seq<char>, i64)>, name: Seq<char>) -> Option<i64>
    decreases s.len(),
{
    if s.len() == 0 {
        None
    } else if s.last().0 == name {
        Some(s.last().1)
    } else {
        lookup_in(s.drop_last(), name)
    }
}

impl View for NameCache {
    type V = Seq<(Seq<char>, i64)>;

    closed spec fn view(&self) -> Seq<(Seq<char>, i64)> {
        self.entries@.map_values(|e: (String, i64)| (e.0@, e.1))
    }
}

impl NameCache {
    /// The id held for a name.
    pub open spec fn lookup(&self, name: Seq<char>) -> Option<i64> {
        lookup_in(self@, name)
    }

    /// An empty cache: it holds no name.
    pub fn new() -> (r: NameCache)
        ensures
            r@ == Seq::<(Seq<char>, i64)>::empty(),
            forall|name: Seq<char>| r.lookup(name) is None,
    {
        let r = NameCache { entries: Vec::new() };
        assert(r@ =~= Seq::<(Seq<char>, i64)>::empty());
        r
    }

    pub fn get(&self, name: &str) -> (r: Option<i64>)
        ensures
            r == self.lookup(name@),
    {
        let mut i: usize = self.entries.len();
        assert(self@.take(i as int) =~= self@);
        while i > 0
            invariant
                i <= self.entries@.len(),
                lookup_in(self@, name@) == lookup_in(self@.take(i as int), name@),
            decreases i,
        {
            let ghost pre = self@.take(i as int);
            assert(pre.last() == (self.entries@[i - 1].0@, self.entries@[i - 1].1));
            assert(pre.drop_last() =~= self@.take(i - 1));
            if crate::text::str_eq(self.entries[i - 1].0.as_str(), name) {
                return Some(self.entries[i - 1].1);
            }
            i = i - 1;
        }
        None
    }

    pub fn insert(&mut self, name: &str, id: i64)
        ensures
            final(self)@ == old(self)@.push((name@, id)),
    {
        let ghost before = self@;
        self.entries.push((name.to_string(), id));
        assert(self@ =~= before.push((name@, id)));
    }
}

/// What is stored for a name is what a later lookup of it gives, and the
/// other names keep their ids.
pub proof fn lemma_cache_read_after_write(
    before: Seq<(Seq<char>, i64)>,
    name: Seq<char>,
    id: i64,
    other: Seq<char>,
)
    requires
        other != name,
    ensures
        lookup_in(before.push((name, id)), name) == Some(id),
        lookup_in(before.push((name, id)), other) == lookup_in(before, other),
{
    assert(before.push((name, id)).drop_last() =~= before);
}

/// What an import does to find the dictionary a reference names: use a
/// known id, or look the name up (and create the dictionary if none has it).
pub enum DictionaryStep {
    Use(i64),
    Find(String),
}

/// The step for a dictionary reference: its id when it gives one; the id
/// cached for its name; otherwise a lookup of the name.
pub fn dictionary_step(r: &DictionaryRef, cache: &NameCache) -> (s: DictionaryStep)
    ensures
        match r {
            DictionaryRef::Id(i) => s == DictionaryStep::Use(*i),
            DictionaryRef::Name(n) => match cache.lookup(n@) {
                Some(d) => s == DictionaryStep::Use(d),
                None => s matches DictionaryStep::Find(f) && f@ == n@,
            },
            DictionaryRef::Full { name, .. } => match cache.lookup(name@) {
                Some(d) => s == DictionaryStep::Use(d),
                None => s matches DictionaryStep::Find(f) && f@ == name@,
            },
        },
        match ref_view(*r) {
            RefView::Id(i) => s == DictionaryStep::Use(i),
            RefView::Named(n) => match cache.lookup(n) {
                Some(d) => s == DictionaryStep::Use(d),
                None => s matches DictionaryStep::Find(f) && f@ == n,
            },
        },
{
    match r {
        DictionaryRef::Id(i) => DictionaryStep::Use(*i),
        DictionaryRef::Name(n) => named_step(n.as_str(), cache),
        DictionaryRef::Full { name, .. } => named_step(name.as_str(), cache),
    }
}

fn named_step(name: &str, cache: &NameCache) -> (s: DictionaryStep)
    ensures
        match cache.lookup(name@) {
            Some(d) => s == DictionaryStep::Use(d),
            None => s matches DictionaryStep::Find(f) && f@ == name@,
        },
{
    match cache.get(name) {
        Some(d) => DictionaryStep::Use(d),
        None => DictionaryStep::Find(name.to_string()),
    }
}

/// A row of the dictionaries table, as far as names are looked up in it.
pub struct DictionaryRow {
    pub id: i64,
    pub name_zh: Seq<char>,
    pub name_en: Seq<char>,
    pub short_en: Seq<char>,
}

/// The row answers to the name: its Chinese name, English name or English
/// short name is it.
pub open spec fn names_dictionary(row: DictionaryRow, name: Seq<char>) -> bool {
    row.name_zh == name || row.name_en == name || row.short_en == name
}

/// Some row has the id and answers to the name.
pub open spec fn has_row_for(rows: Seq<DictionaryRow>, id: i64, name: Seq<char>) -> bool {
    exists|k: int| 0 <= k < rows.len() && (#[trigger] rows[k]).id == id && names_dictionary(rows[k], name)
}

/// Every id the cache holds for a name is that of a row answering to the name.
pub open spec fn cache_true_to_rows(cache: Seq<(Seq<char>, i64)>, rows: Seq<DictionaryRow>) -> bool {
    forall|name: Seq<char>| (#[trigger] lookup_in(cache, name)) is Some ==> has_row_for(rows, lookup_in(cache, name)->0, name)
}

/// The dictionary cache stays true to the dictionary rows: when rows are
/// only added and the id remembered for a name is that of a row answering
/// to the name (found, or created with the name), the cache is still true
/// to the rows, the name gives that id, and every other name keeps its id.
pub proof fn lemma_dictionary_cache_stays_true(
    cache: Seq<(Seq<char>, i64)>,
    rows: Seq<DictionaryRow>,
    added: Seq<DictionaryRow>,
    name: Seq<char>,
    id: i64,
)
    requires
        cache_true_to_rows(cache, rows),
        has_row_for(rows + added, id, name),
    ensures
        cache_true_to_rows(cache.push((name, id)), rows + added),
        lookup_in(cache.push((name, id)), name) == Some(id),
        forall|other: Seq<char>| other != name ==> lookup_in(cache.push((name, id)), other) == lookup_in(cache, other),
{
    let after = cache.push((name, id));
    let all = rows + added;
    assert(after.drop_last() =~= cache);
    assert forall|n: Seq<char>| (#[trigger] lookup_in(after, n)) is Some implies has_row_for(all, lookup_in(after, n)->0, n) by {
        if n != name {
            assert(lookup_in(after, n) == lookup_in(cache, n));
            let d = lookup_in(cache, n)->0;
            assert(has_row_for(rows, d, n));
            let k = choose|k: int| 0 <= k < rows.len() && (#[trigger] rows[k]).id == d && names_dictionary(rows[k], n);
            assert(all[k] == rows[k]);
        }
    }
}

/// A dictionary reference as the cache sees it: an id, or a name.
pub enum RefView {
    Id(i64),
    Named(Seq<char>),
}

/// How the cache sees a reference.
pub open spec fn ref_view(r: DictionaryRef) -> RefView {
    match r {
        DictionaryRef::Id(i) => RefView::Id(i),
        DictionaryRef::Name(n) => RefView::Named(n@),
        DictionaryRef::Full { name, .. } => RefView::Named(name@),
    }
}

/// A run of `dictionary_step` over the references of an entry, each
/// `Find` answered by the next id of `found` and remembered in the cache:
/// the cache afterwards, and the dictionary id used for each reference.
pub open spec fn resolve_run(cache: Seq<(Seq<char>, i64)>, refs: Seq<RefView>, found: Seq<i64>) -> (Seq<(Seq<char>, i64)>, Seq<i64>)
    decreases refs.len(),
{
    if refs.len() == 0 {
        (cache, Seq::empty())
    } else {
        match refs[0] {
            RefView::Id(i) => {
                let rest = resolve_run(cache, refs.drop_first(), found);
                (rest.0, seq![i] + rest.1)
            },
            RefView::Named(n) => match lookup_in(cache, n) {
                Some(d) => {
                    let rest = resolve_run(cache, refs.drop_first(), found);
                    (rest.0, seq![d] + rest.1)
                },
                None => {
                    let rest = resolve_run(cache.push((n, found[0])), refs.drop_first(), found.drop_first());
                    (rest.0, seq![found[0]] + rest.1)
                },
            },
        }
    }
}

/// Every id the database gives during the run is that of a row answering
/// to the name that was looked up.
pub open spec fn answers_true(cache: Seq<(Seq<char>, i64)>, refs: Seq<RefView>, found: Seq<i64>, rows: Seq<DictionaryRow>) -> bool
    decreases refs.len(),
{
    if refs.len() == 0 {
        true
    } else {
        match refs[0] {
            RefView::Id(_) => answers_true(cache, refs.drop_first(), found, rows),
            RefView::Named(n) => match lookup_in(cache, n) {
                Some(_) => answers_true(cache, refs.drop_first(), found, rows),
                None => {
                    &&& found.len() > 0
                    &&& has_row_for(rows, found[0], n)
                    &&& answers_true(cache.push((n, found[0])), refs.drop_first(), found.drop_first(), rows)
                },
            },
        }
    }
}

proof fn lemma_cache_true_with_more_rows(cache: Seq<(Seq<char>, i64)>, rows: Seq<DictionaryRow>, added: Seq<DictionaryRow>)
    requires
        cache_true_to_rows(cache, rows),
    ensures
        cache_true_to_rows(cache, rows + added),
{
    assert forall|n: Seq<char>| (#[trigger] lookup_in(cache, n)) is Some implies has_row_for(rows + added, lookup_in(cache, n)->0, n) by {
        let d = lookup_in(cache, n)->0;
        let k = choose|k: int| 0 <= k < rows.len() && (#[trigger] rows[k]).id == d && names_dictionary(rows[k], n);
        assert((rows + added)[k] == rows[k]);
    }
}

proof fn lemma_run_steps(cache: Seq<(Seq<char>, i64)>, refs: Seq<RefView>, found: Seq<i64>, all: Seq<DictionaryRow>)
    requires
        cache_true_to_rows(cache, all),
        answers_true(cache, refs, found, all),
    ensures
        cache_true_to_rows(resolve_run(cache, refs, found).0, all),
        forall|n: Seq<char>| (#[trigger] lookup_in(cache, n)) is Some
            ==> lookup_in(resolve_run(cache, refs, found).0, n) == lookup_in(cache, n),
        resolve_run(cache, refs, found).1.len() == refs.len(),
        forall|j: int| 0 <= j < refs.len() ==> match #[trigger] refs[j] {
            RefView::Id(i) => resolve_run(cache, refs, found).1[j] == i,
            RefView::Named(n) => lookup_in(resolve_run(cache, refs, found).0, n) == Some(resolve_run(cache, refs, found).1[j]),
        },
    decreases refs.len(),
{
    if refs.len() > 0 {
        let rest = refs.drop_first();
        let run = resolve_run(cache, refs, found);
        match refs[0] {
            RefView::Id(i) => {
                lemma_run_steps(cache, rest, found, all);
                assert forall|j: int| 1 <= j < refs.len() implies refs[j] == rest[j - 1] && run.1[j] == resolve_run(cache, rest, found).1[j - 1] by {}
            },
            RefView::Named(n) => match lookup_in(cache, n) {
                Some(d) => {
                    lemma_run_steps(cache, rest, found, all);
                    assert forall|j: int| 1 <= j < refs.len() implies refs[j] == rest[j - 1] && run.1[j] == resolve_run(cache, rest, found).1[j - 1] by {}
                },
                None => {
                    let d = found[0];
                    let cache1 = cache.push((n, d));
                    assert(all + Seq::<DictionaryRow>::empty() =~= all);
                    lemma_dictionary_cache_stays_true(cache, all, Seq::empty(), n, d);
                    lemma_run_steps(cache1, rest, found.drop_first(), all);
                    let sub = resolve_run(cache1, rest, found.drop_first());
                    assert forall|m: Seq<char>| (#[trigger] lookup_in(cache, m)) is Some implies lookup_in(run.0, m) == lookup_in(cache, m) by {
                        assert(m != n);
                        assert(lookup_in(cache1, m) == lookup_in(cache, m));
                    }
                    assert(lookup_in(cache1, n) == Some(d));
                    assert forall|j: int| 1 <= j < refs.len() implies refs[j] == rest[j - 1] && run.1[j] == sub.1[j - 1] by {}
                },
            },
        }
    }
}

/// The dictionary cache stays true across a run over an entry's
/// references: when the cache was true to the rows and every id the
/// database gives is that of a row answering to the name looked up (rows
/// being only added), the cache afterwards is true to the rows, keeps every
/// id it held, and each reference is resolved to its own id or to the id
/// the cache then holds for its name.
pub proof fn lemma_dictionary_run(
    cache: Seq<(Seq<char>, i64)>,
    refs: Seq<RefView>,
    found: Seq<i64>,
    rows: Seq<DictionaryRow>,
    added: Seq<DictionaryRow>,
)
    requires
        cache_true_to_rows(cache, rows),
        answers_true(cache, refs, found, rows + added),
    ensures
        cache_true_to_rows(resolve_run(cache, refs, found).0, rows + added),
        forall|n: Seq<char>| (#[trigger] lookup_in(cache, n)) is Some
            ==> lookup_in(resolve_run(cache, refs, found).0, n) == lookup_in(cache, n),
        resolve_run(cache, refs, found).1.len() == refs.len(),
        forall|j: int| 0 <= j < refs.len() ==> match #[trigger] refs[j] {
            RefView::Id(i) => resolve_run(cache, refs, found).1[j] == i,
            RefView::Named(n) => lookup_in(resolve_run(cache, refs, found).0, n) == Some(resolve_run(cache, refs, found).1[j]),
        },
{
    lemma_cache_true_with_more_rows(cache, rows, added);
    lemma_run_steps(cache, refs, found, rows + added);
}

// ---------------------------------------------------------------------------
// The counts an import reports

/// The counts of an import of source dictionary entries: each entry is
/// either added or skipped as already known.
pub struct ImportTally {
    pub entries: usize,
    pub added: usize,
    pub skipped: usize,
}

impl ImportTally {
    pub open spec fn consistent(&self) -> bool {
        self.entries == self.added + self.skipped
    }

    pub fn new() -> (r: ImportTally)
        ensures
            r.entries == 0 && r.added == 0 && r.skipped == 0,
    {
        ImportTally { entries: 0, added: 0, skipped: 0 }
    }

    /// Counts an entry; `known` when its word was already stored.
    pub fn count(&mut self, known: bool)
        requires
            old(self).consistent(),
            old(self).entries < usize::MAX,
        ensures
            final(self).consistent(),
            final(self).entries == old(self).entries + 1,
            known ==> final(self).skipped == old(self).skipped + 1 && final(self).added == old(self).added,
            !known ==> final(self).added == old(self).added + 1 && final(self).skipped == old(self).skipped,
    {
        self.entries = self.entries + 1;
        if known {
            self.skipped = self.skipped + 1;
        } else {
            self.added = self.added + 1;
        }
    }
}

/// How the import of one generated-entry file ended.
#[derive(Clone, Copy, Debug, PartialEq, Eq, Structural)]
pub enum FileOutcome {
    Added,
    Skipped,
    Failed,
}

/// The counts of an import of generated-entry files.
pub struct FilesTally {
    pub files_processed: usize,
    pub words_added: usize,
    pub words_skipped: usize,
    pub errors: usize,
}

impl FilesTally {
    pub open spec fn consistent(&self) -> bool {
        self.files_processed == self.words_added + self.words_skipped + self.errors
    }

    pub fn new() -> (r: FilesTally)
        ensures
            r.files_processed == 0 && r.words_added == 0 && r.words_skipped == 0 && r.errors == 0,
    {
        FilesTally { files_processed: 0, words_added: 0, words_skipped: 0, errors: 0 }
    }

    /// Counts a file; tells whether a progress line is due (every hundredth
    /// word added).
    pub fn count(&mut self, outcome: FileOutcome) -> (progress: bool)
        requires
            old(self).consistent(),
            old(self).files_processed < usize::MAX,
        ensures
            final(self).consistent(),
            final(self).files_processed == old(self).files_processed + 1,
            final(self).words_added == old(self).words_added + (if outcome == FileOutcome::Added { 1int } else { 0 }),
            final(self).words_skipped == old(self).words_skipped + (if outcome == FileOutcome::Skipped { 1int } else { 0 }),
            final(self).errors == old(self).errors + (if outcome == FileOutcome::Failed { 1int } else { 0 }),
            progress == (outcome == FileOutcome::Added && final(self).words_added % 100 == 0),
    {
        self.files_processed = self.files_processed + 1;
        match outcome {
            FileOutcome::Added => {
                self.words_added = self.words_added + 1;
                self.words_added % 100 == 0
            },
            FileOutcome::Skipped => {
                self.words_skipped = self.words_skipped + 1;
                false
            },
            FileOutcome::Failed => {
                self.errors = self.errors + 1;
                false
            },
        }
    }
}

/// The counts of an import of a vocabulary list: the words read, and the
/// links made between a stored word and the list's dictionary.
pub struct VocabTally {
    pub words: usize,
    pub associations: usize,
}

impl VocabTally {
    pub fn new() -> (r: VocabTally)
        ensures
            r.words == 0 && r.associations == 0,
    {
        VocabTally { words: 0, associations: 0 }
    }

    /// Counts a word of the list: `stored` when the word is in the
    /// dictionary, `linked` when it is already in the list's dictionary.
    /// Tells whether a link is to be made.
    pub fn count(&mut self, stored: bool, linked: bool) -> (link: bool)
        requires
            old(self).associations <= old(self).words < usize::MAX,
        ensures
            final(self).associations <= final(self).words,
            final(self).words == old(self).words + 1,
            link == (stored && !linked),
            final(self).associations == old(self).associations + (if link { 1int } else { 0 }),
    {
        self.words = self.words + 1;
        if stored && !linked {
            self.associations = self.associations + 1;
            true
        } else {
            false
        }
    }
}

} // verus!
