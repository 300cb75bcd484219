//! Rules of the dictionary importers: how the spellings found in the
//! source data are normalised before they are stored.
use vstd::prelude::*;
use vstd::utf8::encode_utf8;
use crate::text::{
    chars_of, find_char, index_of_char, is_white_space, lowercase, opt_view, replace_char,
    replace_char_seq, slice_chars, str_eq, string_from_chars, to_lowercase, trim, trim_seq,
    views_of, word_count, word_count_seq, contains_seq,
};

verus! {

/// The word type named by a lower-case spelling.
pub open spec fn word_type_of(l: Seq<char>) -> Option<Seq<char>> {
    if l == "noun"@ || l == "n"@ || l == "n."@ {
        Some("noun"@)
    } else if l == "verb"@ || l == "v"@ || l == "v."@ {
        Some("verb"@)
    } else if l == "adjective"@ || l == "adj"@ || l == "adj."@ || l == "a"@ || l == "a."@ {
        Some("adjective"@)
    } else if l == "adverb"@ || l == "adv"@ || l == "adv."@ {
        Some("adverb"@)
    } else if l == "pronoun"@ || l == "pron"@ || l == "pron."@ {
        Some("pronoun"@)
    } else if l == "preposition"@ || l == "prep"@ || l == "prep."@ {
        Some("preposition"@)
    } else if l == "conjunction"@ || l == "conj"@ || l == "conj."@ {
        Some("conjunction"@)
    } else if l == "interjection"@ || l == "int"@ || l == "int."@ {
        Some("interjection"@)
    } else if l == "article"@ || l == "art"@ || l == "art."@ {
        Some("article"@)
    } else if l == "abbreviation"@ || l == "abbr"@ || l == "abbr."@ {
        Some("abbreviation"@)
    } else if l == "phrase"@ {
        Some("phrase"@)
    } else if l == "idiom"@ {
        Some("idiom"@)
    } else {
        None
    }
}

/// The stored word type of a word-type spelling, compared in lower case.
pub fn normalize_word_type(word_type: &str) -> (r: Option<String>)
    ensures
        opt_view(r) == word_type_of(lowercase(word_type@)),
{
    let lower = to_lowercase(word_type);
    let l = lower.as_str();
    if str_eq(l, "noun") || str_eq(l, "n") || str_eq(l, "n.") {
        Some("noun".to_owned())
    } else if str_eq(l, "verb") || str_eq(l, "v") || str_eq(l, "v.") {
        Some("verb".to_owned())
    } else if str_eq(l, "adjective") || str_eq(l, "adj") || str_eq(l, "adj.") || str_eq(l, "a")
        || str_eq(l, "a.") {
        Some("adjective".to_owned())
    } else if str_eq(l, "adverb") || str_eq(l, "adv") || str_eq(l, "adv.") {
        Some("adverb".to_owned())
    } else if str_eq(l, "pronoun") || str_eq(l, "pron") || str_eq(l, "pron.") {
        Some("pronoun".to_owned())
    } else if str_eq(l, "preposition") || str_eq(l, "prep") || str_eq(l, "prep.") {
        Some("preposition".to_owned())
    } else if str_eq(l, "conjunction") || str_eq(l, "conj") || str_eq(l, "conj.") {
        Some("conjunction".to_owned())
    } else if str_eq(l, "interjection") || str_eq(l, "int") || str_eq(l, "int.") {
        Some("interjection".to_owned())
    } else if str_eq(l, "article") || str_eq(l, "art") || str_eq(l, "art.") {
        Some("article".to_owned())
    } else if str_eq(l, "abbreviation") || str_eq(l, "abbr") || str_eq(l, "abbr.") {
        Some("abbreviation".to_owned())
    } else if str_eq(l, "phrase") {
        Some("phrase".to_owned())
    } else if str_eq(l, "idiom") {
        Some("idiom".to_owned())
    } else {
        None
    }
}

/// The part of speech named by a lower-case spelling in the generated
/// entries, English abbreviations and Chinese names included.
pub open spec fn part_of_speech_of(l: Seq<char>) -> Option<Seq<char>> {
    if l == "n."@ || l == "n"@ || l == "noun"@ || l == "名词"@ {
        Some("noun"@)
    } else if l == "v."@ || l == "v"@ || l == "verb"@ || l == "动词"@ {
        Some("verb"@)
    } else if l == "adj."@ || l == "adj"@ || l == "a."@ || l == "a"@ || l == "adjective"@ || l == "形容词"@ {
        Some("adjective"@)
    } else if l == "adv."@ || l == "adv"@ || l == "adverb"@ || l == "副词"@ {
        Some("adverb"@)
    } else if l == "pron."@ || l == "pron"@ || l == "pronoun"@ || l == "代词"@ {
        Some("pronoun"@)
    } else if l == "prep."@ || l == "prep"@ || l == "preposition"@ || l == "介词"@ {
        Some("preposition"@)
    } else if l == "conj."@ || l == "conj"@ || l == "conjunction"@ || l == "连词"@ {
        Some("conjunction"@)
    } else if l == "int."@ || l == "interjection"@ || l == "感叹词"@ {
        Some("interjection"@)
    } else if l == "art."@ || l == "article"@ || l == "冠词"@ {
        Some("article"@)
    } else if l == "abbr."@ || l == "abbreviation"@ || l == "缩写"@ {
        Some("abbreviation"@)
    } else if l == "phrase"@ || l == "短语"@ {
        Some("phrase"@)
    } else if l == "idiom"@ || l == "习语"@ {
        Some("idiom"@)
    } else {
        None
    }
}

/// The stored part of speech of a spelling in a generated entry.
pub fn normalize_part_of_speech(pos: &str) -> (r: Option<String>)
    ensures
        opt_view(r) == part_of_speech_of(lowercase(pos@)),
{
    let lower = to_lowercase(pos);
    let l = lower.as_str();
    if str_eq(l, "n.") || str_eq(l, "n") || str_eq(l, "noun") || str_eq(l, "名词") {
        Some("noun".to_owned())
    } else if str_eq(l, "v.") || str_eq(l, "v") || str_eq(l, "verb") || str_eq(l, "动词") {
        Some("verb".to_owned())
    } else if str_eq(l, "adj.") || str_eq(l, "adj") || str_eq(l, "a.") || str_eq(l, "a")
        || str_eq(l, "adjective") || str_eq(l, "形容词") {
        Some("adjective".to_owned())
    } else if str_eq(l, "adv.") || str_eq(l, "adv") || str_eq(l, "adverb") || str_eq(l, "副词") {
        Some("adverb".to_owned())
    } else if str_eq(l, "pron.") || str_eq(l, "pron") || str_eq(l, "pronoun") || str_eq(l, "代词") {
        Some("pronoun".to_owned())
    } else if str_eq(l, "prep.") || str_eq(l, "prep") || str_eq(l, "preposition") || str_eq(l, "介词") {
        Some("preposition".to_owned())
    } else if str_eq(l, "conj.") || str_eq(l, "conj") || str_eq(l, "conjunction") || str_eq(l, "连词") {
        Some("conjunction".to_owned())
    } else if str_eq(l, "int.") || str_eq(l, "interjection") || str_eq(l, "感叹词") {
        Some("interjection".to_owned())
    } else if str_eq(l, "art.") || str_eq(l, "article") || str_eq(l, "冠词") {
        Some("article".to_owned())
    } else if str_eq(l, "abbr.") || str_eq(l, "abbreviation") || str_eq(l, "缩写") {
        Some("abbreviation".to_owned())
    } else if str_eq(l, "phrase") || str_eq(l, "短语") {
        Some("phrase".to_owned())
    } else if str_eq(l, "idiom") || str_eq(l, "习语") {
        Some("idiom".to_owned())
    } else {
        None
    }
}

/// The part of speech named by a lower-case spelling in the ECDICT-style
/// source dictionaries (English spellings only).
pub open spec fn dict_part_of_speech_of(l: Seq<char>) -> Option<Seq<char>> {
    if l == "n."@ || l == "n"@ || l == "noun"@ {
        Some("noun"@)
    } else if l == "v."@ || l == "v"@ || l == "verb"@ {
        Some("verb"@)
    } else if l == "adj."@ || l == "adj"@ || l == "a."@ || l == "a"@ || l == "adjective"@ {
        Some("adjective"@)
    } else if l == "adv."@ || l == "adv"@ || l == "adverb"@ {
        Some("adverb"@)
    } else if l == "pron."@ || l == "pron"@ || l == "pronoun"@ {
        Some("pronoun"@)
    } else if l == "prep."@ || l == "prep"@ || l == "preposition"@ {
        Some("preposition"@)
    } else if l == "conj."@ || l == "conj"@ || l == "conjunction"@ {
        Some("conjunction"@)
    } else if l == "int."@ || l == "interjection"@ {
        Some("interjection"@)
    } else if l == "art."@ || l == "article"@ {
        Some("article"@)
    } else if l == "abbr."@ || l == "abbreviation"@ {
        Some("abbreviation"@)
    } else if l == "phrase"@ {
        Some("phrase"@)
    } else if l == "idiom"@ {
        Some("idiom"@)
    } else {
        None
    }
}

/// The stored part of speech of a spelling in a source dictionary.
pub fn normalize_dict_part_of_speech(pos: &str) -> (r: Option<String>)
    ensures
        opt_view(r) == dict_part_of_speech_of(lowercase(pos@)),
{
    let lower = to_lowercase(pos);
    let l = lower.as_str();
    if str_eq(l, "n.") || str_eq(l, "n") || str_eq(l, "noun") {
        Some("noun".to_owned())
    } else if str_eq(l, "v.") || str_eq(l, "v") || str_eq(l, "verb") {
        Some("verb".to_owned())
    } else if str_eq(l, "adj.") || str_eq(l, "adj") || str_eq(l, "a.") || str_eq(l, "a")
        || str_eq(l, "adjective") {
        Some("adjective".to_owned())
    } else if str_eq(l, "adv.") || str_eq(l, "adv") || str_eq(l, "adverb") {
        Some("adverb".to_owned())
    } else if str_eq(l, "pron.") || str_eq(l, "pron") || str_eq(l, "pronoun") {
        Some("pronoun".to_owned())
    } else if str_eq(l, "prep.") || str_eq(l, "prep") || str_eq(l, "preposition") {
        Some("preposition".to_owned())
    } else if str_eq(l, "conj.") || str_eq(l, "conj") || str_eq(l, "conjunction") {
        Some("conjunction".to_owned())
    } else if str_eq(l, "int.") || str_eq(l, "interjection") {
        Some("interjection".to_owned())
    } else if str_eq(l, "art.") || str_eq(l, "article") {
        Some("article".to_owned())
    } else if str_eq(l, "abbr.") || str_eq(l, "abbreviation") {
        Some("abbreviation".to_owned())
    } else if str_eq(l, "phrase") {
        Some("phrase".to_owned())
    } else if str_eq(l, "idiom") {
        Some("idiom".to_owned())
    } else {
        None
    }
}

/// The register named by a lower-case spelling.
pub open spec fn register_of(l: Seq<char>) -> Option<Seq<char>> {
    if l == "formal"@ || l == "正式"@ {
        Some("formal"@)
    } else if l == "informal"@ || l == "非正式"@ {
        Some("informal"@)
    } else if l == "slang"@ || l == "俚语"@ {
        Some("slang"@)
    } else if l == "archaic"@ || l == "historical"@ || l == "古语"@ || l == "古旧"@ || l == "历史"@ {
        Some("archaic"@)
    } else if l == "literary"@ || l == "文学"@ || l == "书面"@ {
        Some("literary"@)
    } else if l == "technical"@ || l == "tech"@ || l == "专业"@ || l == "术语"@ {
        Some("technical"@)
    } else if l == "colloquial"@ || l == "口语"@ {
        Some("colloquial"@)
    } else if l == "neutral"@ || l == "中性"@ || l == "标准"@ || l == "standard"@ {
        Some("neutral"@)
    } else {
        None
    }
}

/// The stored register of a definition's register spelling.
pub fn normalize_register(register: &str) -> (r: Option<String>)
    ensures
        opt_view(r) == register_of(lowercase(register@)),
{
    let lower = to_lowercase(register);
    let l = lower.as_str();
    if str_eq(l, "formal") || str_eq(l, "正式") {
        Some("formal".to_owned())
    } else if str_eq(l, "informal") || str_eq(l, "非正式") {
        Some("informal".to_owned())
    } else if str_eq(l, "slang") || str_eq(l, "俚语") {
        Some("slang".to_owned())
    } else if str_eq(l, "archaic") || str_eq(l, "historical") || str_eq(l, "古语") || str_eq(l, "古旧")
        || str_eq(l, "历史") {
        Some("archaic".to_owned())
    } else if str_eq(l, "literary") || str_eq(l, "文学") || str_eq(l, "书面") {
        Some("literary".to_owned())
    } else if str_eq(l, "technical") || str_eq(l, "tech") || str_eq(l, "专业") || str_eq(l, "术语") {
        Some("technical".to_owned())
    } else if str_eq(l, "colloquial") || str_eq(l, "口语") {
        Some("colloquial".to_owned())
    } else if str_eq(l, "neutral") || str_eq(l, "中性") || str_eq(l, "标准") || str_eq(l, "standard") {
        Some("neutral".to_owned())
    } else {
        None
    }
}

/// The form type named by a lower-case spelling; unknown spellings are
/// stored as `other`.
pub open spec fn form_type_of(l: Seq<char>) -> Seq<char> {
    if l == "plural"@ || l == "pl"@ {
        "plural"@
    } else if l == "singular"@ || l == "sg"@ {
        "singular"@
    } else if l == "past"@ || l == "past_tense"@ {
        "past"@
    } else if l == "present"@ || l == "present_tense"@ {
        "present"@
    } else if l == "future"@ || l == "future_tense"@ {
        "future"@
    } else if l == "present_participle"@ || l == "ing"@ {
        "present_participle"@
    } else if l == "past_participle"@ || l == "pp"@ {
        "past_participle"@
    } else if l == "comparative"@ || l == "comp"@ {
        "comparative"@
    } else if l == "superlative"@ || l == "sup"@ {
        "superlative"@
    } else if l == "adverbial"@ {
        "adverbial"@
    } else if l == "nominalization"@ {
        "nominalization"@
    } else {
        "other"@
    }
}

/// The stored form type of a word form's type spelling (never absent).
pub fn normalize_form_type(form_type: &str) -> (r: Option<String>)
    ensures
        opt_view(r) == Some(form_type_of(lowercase(form_type@))),
{
    let lower = to_lowercase(form_type);
    let l = lower.as_str();
    if str_eq(l, "plural") || str_eq(l, "pl") {
        Some("plural".to_owned())
    } else if str_eq(l, "singular") || str_eq(l, "sg") {
        Some("singular".to_owned())
    } else if str_eq(l, "past") || str_eq(l, "past_tense") {
        Some("past".to_owned())
    } else if str_eq(l, "present") || str_eq(l, "present_tense") {
        Some("present".to_owned())
    } else if str_eq(l, "future") || str_eq(l, "future_tense") {
        Some("future".to_owned())
    } else if str_eq(l, "present_participle") || str_eq(l, "ing") {
        Some("present_participle".to_owned())
    } else if str_eq(l, "past_participle") || str_eq(l, "pp") {
        Some("past_participle".to_owned())
    } else if str_eq(l, "comparative") || str_eq(l, "comp") {
        Some("comparative".to_owned())
    } else if str_eq(l, "superlative") || str_eq(l, "sup") {
        Some("superlative".to_owned())
    } else if str_eq(l, "adverbial") {
        Some("adverbial".to_owned())
    } else if str_eq(l, "nominalization") {
        Some("nominalization".to_owned())
    } else {
        Some("other".to_owned())
    }
}

/// The corpus type named by a lower-case spelling; unknown spellings are
/// stored as `general`.
pub open spec fn corpus_type_of(l: Seq<char>) -> Seq<char> {
    if l == "spoken"@ || l == "written"@ || l == "academic"@ || l == "news"@ || l == "fiction"@
        || l == "internet"@ || l == "general"@ {
        l
    } else {
        "general"@
    }
}

/// The stored corpus type of a frequency's corpus-type spelling (never
/// absent).
pub fn normalize_corpus_type(corpus_type: &str) -> (r: Option<String>)
    ensures
        opt_view(r) == Some(corpus_type_of(lowercase(corpus_type@))),
{
    let lower = to_lowercase(corpus_type);
    let l = lower.as_str();
    if str_eq(l, "spoken") {
        Some("spoken".to_owned())
    } else if str_eq(l, "written") {
        Some("written".to_owned())
    } else if str_eq(l, "academic") {
        Some("academic".to_owned())
    } else if str_eq(l, "news") {
        Some("news".to_owned())
    } else if str_eq(l, "fiction") {
        Some("fiction".to_owned())
    } else if str_eq(l, "internet") {
        Some("internet".to_owned())
    } else if str_eq(l, "general") {
        Some("general".to_owned())
    } else {
        Some("general".to_owned())
    }
}

} // verus!

verus! {

/// The frequency band named by a spelling that is lower-cased and has its
/// hyphens turned into underscores.
pub open spec fn band_of(l: Seq<char>) -> Option<Seq<char>> {
    if l == "top_1000"@ || l == "top1000"@ {
        Some("top_1000"@)
    } else if l == "top_2000"@ || l == "top2000"@ {
        Some("top_2000"@)
    } else if l == "top_3000"@ || l == "top3000"@ {
        Some("top_3000"@)
    } else if l == "top_5000"@ || l == "top5000"@ {
        Some("top_5000"@)
    } else if l == "top_10000"@ || l == "top10000"@ {
        Some("top_10000"@)
    } else if l == "beyond_10000"@ || l == "beyond10000"@ {
        Some("beyond_10000"@)
    } else {
        None
    }
}

/// The stored frequency band of a band spelling.
pub fn normalize_band(band: &str) -> (r: Option<String>)
    ensures
        opt_view(r) == band_of(replace_char_seq(lowercase(band@), '-', '_')),
{
    let lower = to_lowercase(band);
    let l = replace_char(lower.as_str(), '-', '_');
    let l = l.as_str();
    if str_eq(l, "top_1000") || str_eq(l, "top1000") {
        Some("top_1000".to_owned())
    } else if str_eq(l, "top_2000") || str_eq(l, "top2000") {
        Some("top_2000".to_owned())
    } else if str_eq(l, "top_3000") || str_eq(l, "top3000") {
        Some("top_3000".to_owned())
    } else if str_eq(l, "top_5000") || str_eq(l, "top5000") {
        Some("top_5000".to_owned())
    } else if str_eq(l, "top_10000") || str_eq(l, "top10000") {
        Some("top_10000".to_owned())
    } else if str_eq(l, "beyond_10000") || str_eq(l, "beyond10000") {
        Some("beyond_10000".to_owned())
    } else {
        None
    }
}

/// A word form found in a dictionary's `exchange` field.
#[derive(Clone, Debug)]
pub struct Form {
    pub form_type: String,
    pub form: String,
}

impl View for Form {
    type V = (Seq<char>, Seq<char>);

    open spec fn view(&self) -> (Seq<char>, Seq<char>) {
        (self.form_type@, self.form@)
    }
}

/// The form type of an `exchange` prefix: `0` third person, `1`/`d` past,
/// `2`/`p` past participle, `3`/`s` plural, `4`/`i` present participle,
/// `5` comparative, `6` superlative.
pub open spec fn exchange_type_of(p: Seq<char>) -> Option<Seq<char>> {
    if p == "0"@ {
        Some("present"@)
    } else if p == "1"@ || p == "d"@ {
        Some("past"@)
    } else if p == "2"@ || p == "p"@ {
        Some("past_participle"@)
    } else if p == "3"@ || p == "s"@ {
        Some("plural"@)
    } else if p == "4"@ || p == "i"@ {
        Some("present_participle"@)
    } else if p == "5"@ {
        Some("comparative"@)
    } else if p == "6"@ {
        Some("superlative"@)
    } else {
        None
    }
}

/// The form an `exchange` item (`prefix:form`) names: split at the first
/// colon; items without a colon, with an empty form or an unknown prefix
/// name none.
pub open spec fn exchange_item_form(item: Seq<char>) -> Option<(Seq<char>, Seq<char>)> {
    let i = index_of_char(item, ':');
    if i < 0 {
        None
    } else {
        let prefix = item.subrange(0, i);
        let form = item.subrange(i + 1, item.len() as int);
        if form.len() == 0 {
            None
        } else {
            match exchange_type_of(prefix) {
                Some(t) => Some((t, form)),
                None => None,
            }
        }
    }
}

/// The forms named by the items of an `exchange` field, in order.
pub open spec fn exchange_forms_of(items: Seq<Seq<char>>) -> Seq<(Seq<char>, Seq<char>)>
    decreases items.len(),
{
    if items.len() == 0 {
        seq![]
    } else {
        let rest = exchange_forms_of(items.drop_last());
        match exchange_item_form(items.last()) {
            Some(f) => rest.push(f),
            None => rest,
        }
    }
}

fn exchange_type(prefix: &str) -> (r: Option<String>)
    ensures
        opt_view(r) == exchange_type_of(prefix@),
{
    if str_eq(prefix, "0") {
        Some("present".to_owned())
    } else if str_eq(prefix, "1") || str_eq(prefix, "d") {
        Some("past".to_owned())
    } else if str_eq(prefix, "2") || str_eq(prefix, "p") {
        Some("past_participle".to_owned())
    } else if str_eq(prefix, "3") || str_eq(prefix, "s") {
        Some("plural".to_owned())
    } else if str_eq(prefix, "4") || str_eq(prefix, "i") {
        Some("present_participle".to_owned())
    } else if str_eq(prefix, "5") {
        Some("comparative".to_owned())
    } else if str_eq(prefix, "6") {
        Some("superlative".to_owned())
    } else {
        None
    }
}

/// The form named by one `exchange` item.
pub fn parse_exchange_item(item: &str) -> (r: Option<Form>)
    ensures
        match r {
            Some(f) => exchange_item_form(item@) == Some(f@),
            None => exchange_item_form(item@) is None,
        },
{
    let v = chars_of(item);
    match find_char(&v, ':') {
        None => None,
        Some(pos) => {
            let prefix = string_from_chars(&slice_chars(&v, 0, pos));
            let form = slice_chars(&v, pos + 1, v.len());
            if form.len() == 0 {
                return None;
            }
            match exchange_type(prefix.as_str()) {
                Some(t) => Some(Form { form_type: t, form: string_from_chars(&form) }),
                None => None,
            }
        },
    }
}

/// The word forms named by a dictionary's `exchange` field, in order.
pub fn parse_exchange_forms(exchange: &Vec<String>) -> (r: Vec<Form>)
    ensures
        r@.map_values(|f: Form| f@) == exchange_forms_of(views_of(exchange@)),
{
    let mut out: Vec<Form> = Vec::new();
    let mut i: usize = 0;
    while i < exchange.len()
        invariant
            i <= exchange@.len(),
            out@.map_values(|f: Form| f@) == exchange_forms_of(views_of(exchange@.subrange(0, i as int))),
        decreases exchange@.len() - i,
    {
        let ghost before = out@;
        let item = parse_exchange_item(exchange[i].as_str());
        assert(views_of(exchange@.subrange(0, i + 1)).drop_last() =~= views_of(exchange@.subrange(0, i as int)));
        assert(views_of(exchange@.subrange(0, i + 1)).last() == exchange@[i as int]@);
        match item {
            Some(f) => {
                out.push(f);
                assert(out@.map_values(|f: Form| f@) =~= before.map_values(|f: Form| f@).push(f@));
            },
            None => {},
        }
        i = i + 1;
    }
    assert(exchange@.subrange(0, exchange@.len() as int) =~= exchange@);
    out
}

/// A source dictionary entry (ECDICT JSON).
#[derive(Clone, Debug)]
pub struct JsonDictEntry {
    pub word: String,
    pub search_word: String,
    pub definition: Vec<String>,
    pub translation: Vec<String>,
    pub part_of_speech: Vec<String>,
    pub exchange: Vec<String>,
    pub examples: Vec<String>,
    pub phonetic: String,
}

/// A source dictionary entry ready to be stored.
#[derive(Clone, Debug)]
pub struct ImportEntry {
    pub word: String,
    pub word_lower: String,
    pub part_of_speech: Option<String>,
    pub phonetic: String,
    pub definitions_en: Vec<String>,
    pub definitions_zh: Vec<String>,
    pub word_forms: Vec<Form>,
    pub examples: Vec<String>,
}

/// Whether an entry is imported: its trimmed word is not empty and at
/// most 200 bytes long.
pub open spec fn entry_accepted(e: JsonDictEntry) -> bool {
    let w = trim_seq(e.word@);
    w.len() > 0 && (encode_utf8(w).len() as usize) <= 200
}

/// The entry to store for a source dictionary entry: words trimmed, the
/// first part of speech normalised, the exchange field read as word forms;
/// `None` for an empty or overlong word.
pub fn process_json_entry(e: JsonDictEntry) -> (r: Option<ImportEntry>)
    ensures
        r is Some <==> entry_accepted(e),
        r matches Some(ie) ==> {
            &&& ie.word@ == trim_seq(e.word@)
            &&& ie.word_lower@ == trim_seq(e.search_word@)
            &&& opt_view(ie.part_of_speech) == (if e.part_of_speech@.len() > 0 {
                dict_part_of_speech_of(lowercase(e.part_of_speech@[0]@))
            } else {
                None
            })
            &&& ie.phonetic == e.phonetic
            &&& ie.definitions_en == e.definition
            &&& ie.definitions_zh == e.translation
            &&& ie.word_forms@.map_values(|f: Form| f@) == exchange_forms_of(views_of(e.exchange@))
            &&& ie.examples == e.examples
        },
{
    let word = trim(e.word.as_str());
    let word_lower = trim(e.search_word.as_str());
    if word.as_str().is_empty() || word.as_str().len() > 200 {
        return None;
    }
    let part_of_speech = if e.part_of_speech.len() > 0 {
        normalize_dict_part_of_speech(e.part_of_speech[0].as_str())
    } else {
        None
    };
    let word_forms = parse_exchange_forms(&e.exchange);
    Some(ImportEntry {
        word,
        word_lower,
        part_of_speech,
        phonetic: e.phonetic,
        definitions_en: e.definition,
        definitions_zh: e.translation,
        word_forms,
        examples: e.examples,
    })
}

} // verus!

verus! {

/// How a generated entry refers to a dictionary: by id, by name, or by
/// name with a priority.
#[derive(Clone, Debug)]
pub enum DictionaryRef {
    Id(i64),
    Name(String),
    Full { name: String, priority_order: Option<i32> },
}

impl DictionaryRef {
    /// The dictionary's name, when referred to by name.
    pub fn name(&self) -> (r: Option<&str>)
        ensures
            match self {
                DictionaryRef::Id(_) => r is None,
                DictionaryRef::Name(n) => r matches Some(s) && s@ == n@,
                DictionaryRef::Full { name, .. } => r matches Some(s) && s@ == name@,
            },
    {
        match self {
            DictionaryRef::Id(_) => None,
            DictionaryRef::Name(name) => Some(name.as_str()),
            DictionaryRef::Full { name, .. } => Some(name.as_str()),
        }
    }

    /// The dictionary's id, when referred to by id.
    pub fn id(&self) -> (r: Option<i64>)
        ensures
            r == (match self {
                DictionaryRef::Id(id) => Some(*id),
                _ => None,
            }),
    {
        match self {
            DictionaryRef::Id(id) => Some(*id),
            _ => None,
        }
    }

    /// The priority the entry gives the word in the dictionary.
    pub fn priority_order(&self) -> (r: Option<i32>)
        ensures
            r == (match self {
                DictionaryRef::Full { priority_order, .. } => *priority_order,
                _ => None,
            }),
    {
        match self {
            DictionaryRef::Name(_) | DictionaryRef::Id(_) => None,
            DictionaryRef::Full { priority_order, .. } => *priority_order,
        }
    }
}

/// A first-attested year as it appears in generated JSON.
#[derive(Clone, Debug)]
pub enum YearValue {
    /// absent or `null`
    Missing,
    /// a number, with its decimal text
    Number(String),
    /// a string
    Text(String),
    /// anything else
    Other,
}

/// The year as stored: numbers and strings as text, anything else absent.
pub fn year_as_string(v: YearValue) -> (r: Option<String>)
    ensures
        opt_view(r) == (match v {
            YearValue::Number(n) => Some(n@),
            YearValue::Text(s) => Some(s@),
            _ => None,
        }),
{
    match v {
        YearValue::Missing => None,
        YearValue::Number(n) => Some(n),
        YearValue::Text(s) => Some(s),
        YearValue::Other => None,
    }
}

/// The word type stored for a source-dictionary word: multi-word entries
/// are phrases.
pub fn import_word_type(word: &str, part_of_speech: &Option<String>) -> (r: Option<String>)
    ensures
        opt_view(r) == (if contains_seq(word@, seq![' ']) { Some("phrase"@) } else { opt_view(*part_of_speech) }),
{
    let w = chars_of(word);
    let mut sp: Vec<char> = Vec::new();
    sp.push(' ');
    assert(sp@ =~= seq![' ']);
    if crate::text::contains_chars(&w, &sp) {
        Some("phrase".to_owned())
    } else {
        part_of_speech.clone()
    }
}

/// The word type stored for a generated entry: multi-word entries are
/// phrases, others take their normalised word type.
pub fn entry_word_type(word: &str, word_type: &Option<String>) -> (r: Option<String>)
    ensures
        opt_view(r) == (if contains_seq(word@, seq![' ']) {
            Some("phrase"@)
        } else {
            match *word_type {
                Some(t) => word_type_of(lowercase(t@)),
                None => None,
            }
        }),
{
    let w = chars_of(word);
    let mut sp: Vec<char> = Vec::new();
    sp.push(' ');
    assert(sp@ =~= seq![' ']);
    if crate::text::contains_chars(&w, &sp) {
        Some("phrase".to_owned())
    } else {
        match word_type {
            Some(t) => normalize_word_type(t.as_str()),
            None => None,
        }
    }
}

/// A difficulty clamped to the range 1 to 5.
pub open spec fn clamp_spec(d: i16) -> i16 {
    if d < 1 {
        1
    } else if d > 5 {
        5
    } else {
        d
    }
}

/// The stored difficulty: out-of-range values are clamped to 1..=5.
pub fn clamp_difficulty(difficulty: Option<i16>) -> (r: Option<i16>)
    ensures
        r == (match difficulty {
            Some(d) => Some(clamp_spec(d)),
            None => None,
        }),
        r matches Some(d) ==> 1 <= d <= 5,
{
    match difficulty {
        Some(d) => {
            if d < 1 {
                Some(1)
            } else if d > 5 {
                Some(5)
            } else {
                Some(d)
            }
        },
        None => None,
    }
}

/// The stored word count: the entry's own, else the number of
/// white-space separated words.
pub fn entry_word_count(word: &str, word_count_field: Option<i32>) -> (r: Option<i32>)
    ensures
        r == (match word_count_field {
            Some(n) => Some(n),
            None => Some(word_count_seq(word@) as i32),
        }),
{
    match word_count_field {
        Some(n) => Some(n),
        None => Some(word_count(word) as i32),
    }
}

/// The code of a new category: its name in lower case, spaces turned into
/// underscores.
pub fn category_code(name: &str) -> (r: String)
    ensures
        r@ == replace_char_seq(lowercase(name@), ' ', '_'),
{
    let lower = to_lowercase(name);
    replace_char(lower.as_str(), ' ', '_')
}

/// The dictionary a vocabulary file fills, named after the file.
pub open spec fn vocabulary_dictionary_of(stem: Seq<char>) -> Seq<char> {
    if stem == "cet4"@ {
        "CET4"@
    } else if stem == "cet6"@ {
        "CET6"@
    } else if stem == "chuzhong"@ {
        "初中"@
    } else if stem == "gaozhong"@ {
        "高中"@
    } else if stem == "kaoyan"@ {
        "考研"@
    } else if stem == "xiaoxue"@ {
        "小学"@
    } else {
        stem
    }
}

/// The dictionary a vocabulary file fills.
pub fn vocabulary_dictionary_name(stem: &str) -> (r: String)
    ensures
        r@ == vocabulary_dictionary_of(stem@),
{
    if str_eq(stem, "cet4") {
        "CET4".to_owned()
    } else if str_eq(stem, "cet6") {
        "CET6".to_owned()
    } else if str_eq(stem, "chuzhong") {
        "初中".to_owned()
    } else if str_eq(stem, "gaozhong") {
        "高中".to_owned()
    } else if str_eq(stem, "kaoyan") {
        "考研".to_owned()
    } else if str_eq(stem, "xiaoxue") {
        "小学".to_owned()
    } else {
        stem.to_owned()
    }
}

} // verus!
