//! Laws of the dictionary spelling tables: each spelling is stored under
//! the name it stands for.
use vstd::prelude::*;
use crate::dict::{dict_part_of_speech_of, register_of, vocabulary_dictionary_of};
use crate::text::{ascii_lower_char, is_ascii_upper};

verus! {

/// With a final dot dropped, `l` is a non-empty beginning of `name`: `l`
/// abbreviates `name` (or is `name` itself).
pub open spec fn abbreviates(l: Seq<char>, name: Seq<char>) -> bool {
    let core = if l.len() > 0 && l.last() == '.' { l.drop_last() } else { l };
    &&& core.len() > 0
    &&& core.len() <= name.len()
    &&& name.subrange(0, core.len() as int) == core
}

/// The parts of speech a source dictionary entry is stored under.
pub open spec fn is_stored_part_of_speech(name: Seq<char>) -> bool {
    name == "noun"@
        || name == "verb"@
        || name == "adjective"@
        || name == "adverb"@
        || name == "pronoun"@
        || name == "preposition"@
        || name == "conjunction"@
        || name == "interjection"@
        || name == "article"@
        || name == "abbreviation"@
        || name == "phrase"@
        || name == "idiom"@
}

/// A source dictionary's part-of-speech spelling is stored under the part
/// of speech it abbreviates (or names in full), and a stored part of speech
/// is kept as it is.
pub proof fn lemma_part_of_speech_spellings(l: Seq<char>)
    ensures
        dict_part_of_speech_of(l) matches Some(name) ==> is_stored_part_of_speech(name) && abbreviates(l, name),
        is_stored_part_of_speech(l) ==> dict_part_of_speech_of(l) == Some(l),
{
    reveal_strlit("a");
    reveal_strlit("a.");
    reveal_strlit("abbr.");
    reveal_strlit("abbreviation");
    reveal_strlit("adj");
    reveal_strlit("adj.");
    reveal_strlit("adjective");
    reveal_strlit("adv");
    reveal_strlit("adv.");
    reveal_strlit("adverb");
    reveal_strlit("art.");
    reveal_strlit("article");
    reveal_strlit("conj");
    reveal_strlit("conj.");
    reveal_strlit("conjunction");
    reveal_strlit("idiom");
    reveal_strlit("int.");
    reveal_strlit("interjection");
    reveal_strlit("n");
    reveal_strlit("n.");
    reveal_strlit("noun");
    reveal_strlit("phrase");
    reveal_strlit("prep");
    reveal_strlit("prep.");
    reveal_strlit("preposition");
    reveal_strlit("pron");
    reveal_strlit("pron.");
    reveal_strlit("pronoun");
    reveal_strlit("v");
    reveal_strlit("v.");
    reveal_strlit("verb");
    if let Some(name) = dict_part_of_speech_of(l) {
        let core = if l.len() > 0 && l.last() == '.' { l.drop_last() } else { l };
        assert(name.subrange(0, core.len() as int) =~= core);
    }
}

/// The registers a definition is stored under.
pub open spec fn is_stored_register(name: Seq<char>) -> bool {
    name == "formal"@
        || name == "informal"@
        || name == "slang"@
        || name == "archaic"@
        || name == "literary"@
        || name == "technical"@
        || name == "colloquial"@
        || name == "neutral"@
}

/// Every register spelling is stored under one of the stored registers, and
/// a stored register's own name is kept as it is.
pub proof fn lemma_register_spellings(l: Seq<char>)
    ensures
        register_of(l) matches Some(name) ==> is_stored_register(name),
        is_stored_register(l) ==> register_of(l) == Some(l),
{
    reveal_strlit("formal");
    reveal_strlit("正式");
    reveal_strlit("informal");
    reveal_strlit("非正式");
    reveal_strlit("slang");
    reveal_strlit("俚语");
    reveal_strlit("archaic");
    reveal_strlit("historical");
    reveal_strlit("古语");
    reveal_strlit("古旧");
    reveal_strlit("历史");
    reveal_strlit("literary");
    reveal_strlit("文学");
    reveal_strlit("书面");
    reveal_strlit("technical");
    reveal_strlit("tech");
    reveal_strlit("专业");
    reveal_strlit("术语");
    reveal_strlit("colloquial");
    reveal_strlit("口语");
    reveal_strlit("neutral");
    reveal_strlit("中性");
    reveal_strlit("标准");
    reveal_strlit("standard");
    lemma_register_kept_formal();
    lemma_register_kept_informal();
    lemma_register_kept_slang();
    lemma_register_kept_archaic();
    lemma_register_kept_literary();
    lemma_register_kept_technical();
    lemma_register_kept_colloquial();
    lemma_register_kept_neutral();
}

proof fn lemma_register_kept_formal()
    ensures
        register_of("formal"@) == Some("formal"@),
{
    reveal_strlit("formal");
    reveal_strlit("正式");
    reveal_strlit("informal");
    reveal_strlit("非正式");
    reveal_strlit("slang");
    reveal_strlit("俚语");
    reveal_strlit("archaic");
    reveal_strlit("historical");
    reveal_strlit("古语");
    reveal_strlit("古旧");
    reveal_strlit("历史");
    reveal_strlit("literary");
    reveal_strlit("文学");
    reveal_strlit("书面");
    reveal_strlit("technical");
    reveal_strlit("tech");
    reveal_strlit("专业");
    reveal_strlit("术语");
    reveal_strlit("colloquial");
    reveal_strlit("口语");
    reveal_strlit("neutral");
    reveal_strlit("中性");
    reveal_strlit("标准");
    reveal_strlit("standard");
}

proof fn lemma_register_kept_informal()
    ensures
        register_of("informal"@) == Some("informal"@),
{
    reveal_strlit("formal");
    reveal_strlit("正式");
    reveal_strlit("informal");
    reveal_strlit("非正式");
    reveal_strlit("slang");
    reveal_strlit("俚语");
    reveal_strlit("archaic");
    reveal_strlit("historical");
    reveal_strlit("古语");
    reveal_strlit("古旧");
    reveal_strlit("历史");
    reveal_strlit("literary");
    reveal_strlit("文学");
    reveal_strlit("书面");
    reveal_strlit("technical");
    reveal_strlit("tech");
    reveal_strlit("专业");
    reveal_strlit("术语");
    reveal_strlit("colloquial");
    reveal_strlit("口语");
    reveal_strlit("neutral");
    reveal_strlit("中性");
    reveal_strlit("标准");
    reveal_strlit("standard");
}

proof fn lemma_register_kept_slang()
    ensures
        register_of("slang"@) == Some("slang"@),
{
    reveal_strlit("formal");
    reveal_strlit("正式");
    reveal_strlit("informal");
    reveal_strlit("非正式");
    reveal_strlit("slang");
    reveal_strlit("俚语");
    reveal_strlit("archaic");
    reveal_strlit("historical");
    reveal_strlit("古语");
    reveal_strlit("古旧");
    reveal_strlit("历史");
    reveal_strlit("literary");
    reveal_strlit("文学");
    reveal_strlit("书面");
    reveal_strlit("technical");
    reveal_strlit("tech");
    reveal_strlit("专业");
    reveal_strlit("术语");
    reveal_strlit("colloquial");
    reveal_strlit("口语");
    reveal_strlit("neutral");
    reveal_strlit("中性");
    reveal_strlit("标准");
    reveal_strlit("standard");
}

proof fn lemma_register_kept_archaic()
    ensures
        register_of("archaic"@) == Some("archaic"@),
{
    reveal_strlit("formal");
    reveal_strlit("正式");
    reveal_strlit("informal");
    reveal_strlit("非正式");
    reveal_strlit("slang");
    reveal_strlit("俚语");
    reveal_strlit("archaic");
    reveal_strlit("historical");
    reveal_strlit("古语");
    reveal_strlit("古旧");
    reveal_strlit("历史");
    reveal_strlit("literary");
    reveal_strlit("文学");
    reveal_strlit("书面");
    reveal_strlit("technical");
    reveal_strlit("tech");
    reveal_strlit("专业");
    reveal_strlit("术语");
    reveal_strlit("colloquial");
    reveal_strlit("口语");
    reveal_strlit("neutral");
    reveal_strlit("中性");
    reveal_strlit("标准");
    reveal_strlit("standard");
}

proof fn lemma_register_kept_literary()
    ensures
        register_of("literary"@) == Some("literary"@),
{
    reveal_strlit("formal");
    reveal_strlit("正式");
    reveal_strlit("informal");
    reveal_strlit("非正式");
    reveal_strlit("slang");
    reveal_strlit("俚语");
    reveal_strlit("archaic");
    reveal_strlit("historical");
    reveal_strlit("古语");
    reveal_strlit("古旧");
    reveal_strlit("历史");
    reveal_strlit("literary");
    reveal_strlit("文学");
    reveal_strlit("书面");
    reveal_strlit("technical");
    reveal_strlit("tech");
    reveal_strlit("专业");
    reveal_strlit("术语");
    reveal_strlit("colloquial");
    reveal_strlit("口语");
    reveal_strlit("neutral");
    reveal_strlit("中性");
    reveal_strlit("标准");
    reveal_strlit("standard");
}

proof fn lemma_register_kept_technical()
    ensures
        register_of("technical"@) == Some("technical"@),
{
    reveal_strlit("formal");
    reveal_strlit("正式");
    reveal_strlit("informal");
    reveal_strlit("非正式");
    reveal_strlit("slang");
    reveal_strlit("俚语");
    reveal_strlit("archaic");
    reveal_strlit("historical");
    reveal_strlit("古语");
    reveal_strlit("古旧");
    reveal_strlit("历史");
    reveal_strlit("literary");
    reveal_strlit("文学");
    reveal_strlit("书面");
    reveal_strlit("technical");
    reveal_strlit("tech");
    reveal_strlit("专业");
    reveal_strlit("术语");
    reveal_strlit("colloquial");
    reveal_strlit("口语");
    reveal_strlit("neutral");
    reveal_strlit("中性");
    reveal_strlit("标准");
    reveal_strlit("standard");
}

proof fn lemma_register_kept_colloquial()
    ensures
        register_of("colloquial"@) == Some("colloquial"@),
{
    reveal_strlit("colloquial");
    reveal_strlit("historical");
    assert("colloquial"@[0] != "historical"@[0]);
    assert("colloquial"@ != "historical"@);
    reveal_strlit("formal");
    reveal_strlit("正式");
    reveal_strlit("informal");
    reveal_strlit("非正式");
    reveal_strlit("slang");
    reveal_strlit("俚语");
    reveal_strlit("archaic");
    reveal_strlit("historical");
    reveal_strlit("古语");
    reveal_strlit("古旧");
    reveal_strlit("历史");
    reveal_strlit("literary");
    reveal_strlit("文学");
    reveal_strlit("书面");
    reveal_strlit("technical");
    reveal_strlit("tech");
    reveal_strlit("专业");
    reveal_strlit("术语");
    reveal_strlit("colloquial");
    reveal_strlit("口语");
    reveal_strlit("neutral");
    reveal_strlit("中性");
    reveal_strlit("标准");
    reveal_strlit("standard");
}

proof fn lemma_register_kept_neutral()
    ensures
        register_of("neutral"@) == Some("neutral"@),
{
    reveal_strlit("formal");
    reveal_strlit("正式");
    reveal_strlit("informal");
    reveal_strlit("非正式");
    reveal_strlit("slang");
    reveal_strlit("俚语");
    reveal_strlit("archaic");
    reveal_strlit("historical");
    reveal_strlit("古语");
    reveal_strlit("古旧");
    reveal_strlit("历史");
    reveal_strlit("literary");
    reveal_strlit("文学");
    reveal_strlit("书面");
    reveal_strlit("technical");
    reveal_strlit("tech");
    reveal_strlit("专业");
    reveal_strlit("术语");
    reveal_strlit("colloquial");
    reveal_strlit("口语");
    reveal_strlit("neutral");
    reveal_strlit("中性");
    reveal_strlit("标准");
    reveal_strlit("standard");
}

/// The text holds ASCII characters alone, and no upper-case letter.
pub open spec fn is_lower_ascii(s: Seq<char>) -> bool {
    forall|i: int| 0 <= i < s.len() ==> (#[trigger] s[i]) as u32 <= 0x7F && !is_ascii_upper(s[i])
}

/// The text holds ASCII characters alone.
pub open spec fn is_ascii_seq(s: Seq<char>) -> bool {
    forall|i: int| 0 <= i < s.len() ==> (#[trigger] s[i]) as u32 <= 0x7F
}

/// A vocabulary list fills its own dictionary: a dictionary with an ASCII
/// name is named by the list's file stem up to letter case, and lists whose
/// stems differ (lower-case ASCII stems, as the list files have) fill
/// different dictionaries.
pub proof fn lemma_vocabulary_dictionaries(stem: Seq<char>, other: Seq<char>)
    ensures
        is_ascii_seq(vocabulary_dictionary_of(stem)) ==> vocabulary_dictionary_of(stem).map_values(|c: char| ascii_lower_char(c))
            == stem.map_values(|c: char| ascii_lower_char(c)),
        is_lower_ascii(stem) && is_lower_ascii(other) && stem != other
            ==> vocabulary_dictionary_of(stem) != vocabulary_dictionary_of(other),
{
    lemma_named_by_stem(stem);
    if is_lower_ascii(stem) && is_lower_ascii(other) && stem != other {
        lemma_known_names_not_lower_ascii();
        lemma_known_stems();
    }
}

/// The stems of the known lists.
pub open spec fn is_known_stem(s: Seq<char>) -> bool {
    s == "cet4"@ || s == "cet6"@ || s == "chuzhong"@ || s == "gaozhong"@ || s == "kaoyan"@ || s == "xiaoxue"@
}

proof fn lemma_known_stems()
    ensures
        forall|s: Seq<char>| !is_known_stem(s) ==> vocabulary_dictionary_of(s) == s,
        forall|s: Seq<char>, t: Seq<char>| is_known_stem(s) && is_known_stem(t) && s != t
            ==> vocabulary_dictionary_of(s) != vocabulary_dictionary_of(t),
{
    reveal_strlit("CET4");
    reveal_strlit("CET6");
    reveal_strlit("初中");
    reveal_strlit("高中");
    reveal_strlit("考研");
    reveal_strlit("小学");
    reveal_strlit("cet4");
    reveal_strlit("cet6");
    reveal_strlit("chuzhong");
    reveal_strlit("gaozhong");
    reveal_strlit("kaoyan");
    reveal_strlit("xiaoxue");
    assert("CET4"@[3] != "CET6"@[3]);
    assert("CET4"@ != "CET6"@);
    assert("CET4"@[0] != "初中"@[0]);
    assert("CET4"@ != "初中"@);
    assert("CET4"@[0] != "高中"@[0]);
    assert("CET4"@ != "高中"@);
    assert("CET4"@[0] != "考研"@[0]);
    assert("CET4"@ != "考研"@);
    assert("CET4"@[0] != "小学"@[0]);
    assert("CET4"@ != "小学"@);
    assert("CET6"@[0] != "初中"@[0]);
    assert("CET6"@ != "初中"@);
    assert("CET6"@[0] != "高中"@[0]);
    assert("CET6"@ != "高中"@);
    assert("CET6"@[0] != "考研"@[0]);
    assert("CET6"@ != "考研"@);
    assert("CET6"@[0] != "小学"@[0]);
    assert("CET6"@ != "小学"@);
    assert("初中"@[0] != "高中"@[0]);
    assert("初中"@ != "高中"@);
    assert("初中"@[0] != "考研"@[0]);
    assert("初中"@ != "考研"@);
    assert("初中"@[0] != "小学"@[0]);
    assert("初中"@ != "小学"@);
    assert("高中"@[0] != "考研"@[0]);
    assert("高中"@ != "考研"@);
    assert("高中"@[0] != "小学"@[0]);
    assert("高中"@ != "小学"@);
    assert("考研"@[0] != "小学"@[0]);
    assert("考研"@ != "小学"@);
}

proof fn lemma_known_names_not_lower_ascii()
    ensures
        forall|s: Seq<char>| is_known_stem(s) ==> !is_lower_ascii(#[trigger] vocabulary_dictionary_of(s)),
{
    reveal_strlit("CET4");
    reveal_strlit("CET6");
    reveal_strlit("初中");
    reveal_strlit("高中");
    reveal_strlit("考研");
    reveal_strlit("小学");
    reveal_strlit("cet4");
    reveal_strlit("cet6");
    reveal_strlit("chuzhong");
    reveal_strlit("gaozhong");
    reveal_strlit("kaoyan");
    reveal_strlit("xiaoxue");
    assert forall|s: Seq<char>| is_known_stem(s) implies !is_lower_ascii(#[trigger] vocabulary_dictionary_of(s)) by {
        let n = vocabulary_dictionary_of(s);
        assert(!((n[0] as u32) <= 0x7F && !is_ascii_upper(n[0])));
    }
}

proof fn lemma_named_by_stem(stem: Seq<char>)
    ensures
        is_ascii_seq(vocabulary_dictionary_of(stem)) ==> vocabulary_dictionary_of(stem).map_values(|c: char| ascii_lower_char(c))
            == stem.map_values(|c: char| ascii_lower_char(c)),
{
    reveal_strlit("CET4");
    reveal_strlit("CET6");
    reveal_strlit("初中");
    reveal_strlit("高中");
    reveal_strlit("考研");
    reveal_strlit("小学");
    reveal_strlit("cet4");
    reveal_strlit("cet6");
    reveal_strlit("chuzhong");
    reveal_strlit("gaozhong");
    reveal_strlit("kaoyan");
    reveal_strlit("xiaoxue");
    let n = vocabulary_dictionary_of(stem);
    if stem == "cet4"@ || stem == "cet6"@ {
        assert(n.map_values(|c: char| ascii_lower_char(c)) =~= stem.map_values(|c: char| ascii_lower_char(c)));
    } else if is_known_stem(stem) {
        assert(!((n[0] as u32) <= 0x7F));
    }
}

} // verus!
