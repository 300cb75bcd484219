//! Word-list rules of the dictionary generator and of the speech
//! generator.
use vstd::prelude::*;
use vstd::string::StringSliceAdditionalSpecFns;
use vstd::string::StringExecFns;
use crate::text::{
    ascii_lower_char, chars_of, contains_chars, contains_seq, find_char, index_of_char, is_ascii_alpha,
    is_ascii_alphabetic, is_ascii_upper, lowercase, slice_chars, string_from_chars, strings_contain,
    to_lowercase, trim_chars, trim_seq, views_of,
};

verus! {

/// The characters a dictionary headword may consist of.
pub open spec fn is_word_char(c: char) -> bool {
    is_ascii_alpha(c) || c == '-' || c == '\'' || c == ' '
}

/// A headword worth asking the dictionary model about: 2 to 50 bytes long,
/// not starting with `.`, `#` or `/`, no URL fragments, at least one ASCII
/// letter and nothing but letters, hyphens, apostrophes and spaces.
pub open spec fn valid_word(word: Seq<char>, byte_len: nat) -> bool {
    &&& 2 <= byte_len <= 50
    &&& !(word.len() > 0 && (word[0] == '.' || word[0] == '#' || word[0] == '/'))
    &&& !contains_seq(word, seq![':', '/', '/'])
    &&& !contains_seq(word, seq!['w', 'w', 'w', '.'])
    &&& exists|i: int| 0 <= i < word.len() && is_ascii_alpha(#[trigger] word[i])
    &&& forall|i: int| 0 <= i < word.len() ==> is_word_char(#[trigger] word[i])
}

/// Whether a line of the word list names a word worth generating an entry for.
pub fn is_valid_word(word: &str) -> (r: bool)
    ensures
        r == valid_word(word@, word.len() as nat),
{
    let len = word.len();
    if len < 2 || len > 50 {
        return false;
    }
    let w = chars_of(word);
    if w.len() > 0 && (w[0] == '.' || w[0] == '#' || w[0] == '/') {
        return false;
    }
    let mut url: Vec<char> = Vec::new();
    url.push(':');
    url.push('/');
    url.push('/');
    assert(url@ =~= seq![':', '/', '/']);
    if contains_chars(&w, &url) {
        return false;
    }
    let mut www: Vec<char> = Vec::new();
    www.push('w');
    www.push('w');
    www.push('w');
    www.push('.');
    assert(www@ =~= seq!['w', 'w', 'w', '.']);
    if contains_chars(&w, &www) {
        return false;
    }
    let mut has_letter = false;
    let mut all_valid = true;
    let mut i: usize = 0;
    while i < w.len()
        invariant
            i <= w@.len(),
            has_letter == exists|k: int| 0 <= k < i && is_ascii_alpha(#[trigger] w@[k]),
            all_valid == forall|k: int| 0 <= k < i ==> is_word_char(#[trigger] w@[k]),
        decreases w@.len() - i,
    {
        let c = w[i];
        let alpha = is_ascii_alphabetic(c);
        if alpha {
            has_letter = true;
        }
        if !(alpha || c == '-' || c == '\'' || c == ' ') {
            all_valid = false;
        }
        i = i + 1;
        assert(has_letter == exists|k: int| 0 <= k < i && is_ascii_alpha(#[trigger] w@[k])) by {
            if has_letter && !alpha {
                let k0 = choose|k: int| 0 <= k < i - 1 && is_ascii_alpha(#[trigger] w@[k]);
                assert(0 <= k0 < i);
            }
            if alpha {
                assert(is_ascii_alpha(w@[i - 1]));
            }
        }
        assert(all_valid == forall|k: int| 0 <= k < i ==> is_word_char(#[trigger] w@[k])) by {
            if !all_valid && is_word_char(c) {
                let k0 = choose|k: int| 0 <= k < i - 1 && !is_word_char(#[trigger] w@[k]);
                assert(0 <= k0 < i);
            }
        }
    }
    has_letter && all_valid
}

/// Characters that cannot stand in a file name.
pub open spec fn is_reserved_in_file_name(c: char) -> bool {
    c == '/' || c == '\\' || c == ':' || c == '*' || c == '?' || c == '"' || c == '<' || c == '>'
        || c == '|'
}

pub open spec fn sanitized_seq(s: Seq<char>) -> Seq<char> {
    s.map_values(|c: char| if is_reserved_in_file_name(c) { '_' } else { c })
}

/// The text holds ASCII characters alone.
pub open spec fn is_ascii_text(s: Seq<char>) -> bool {
    forall|i: int| 0 <= i < s.len() ==> (#[trigger] s[i]) as u32 <= 0x7F
}

/// The file name of an ASCII word: reserved characters become `_`, and
/// upper-case letters become lower-case.
pub open spec fn ascii_file_name(s: Seq<char>) -> Seq<char> {
    sanitized_seq(s).map_values(|c: char| ascii_lower_char(c))
}

/// The file name (without extension) under which the audio of a word is
/// stored: reserved characters become `_`, then the whole is lower-cased.
/// The name holds no reserved character, and sanitising it again gives it
/// back.
pub fn sanitize_filename(word: &str) -> (r: String)
    ensures
        r@ == lowercase(sanitized_seq(word@)),
        is_ascii_text(word@) ==> r@ == ascii_file_name(word@),
        forall|i: int| 0 <= i < r@.len() ==> !is_reserved_in_file_name(#[trigger] r@[i]),
        lowercase(sanitized_seq(r@)) == r@,
{
    let v = chars_of(word);
    let mut out: Vec<char> = Vec::new();
    let mut i: usize = 0;
    while i < v.len()
        invariant
            i <= v@.len(),
            out@ == sanitized_seq(v@.take(i as int)),
        decreases v@.len() - i,
    {
        let c = v[i];
        let reserved = c == '/' || c == '\\' || c == ':' || c == '*' || c == '?' || c == '"' || c == '<'
            || c == '>' || c == '|';
        out.push(if reserved { '_' } else { c });
        i = i + 1;
        assert(out@ =~= sanitized_seq(v@.take(i as int)));
    }
    assert(v@.take(v@.len() as int) =~= v@);
    let replaced = string_from_chars(&out);
    proof {
        if is_ascii_text(word@) {
            assert forall|i: int| 0 <= i < replaced@.len() implies (#[trigger] replaced@[i]) as u32 <= 0x7F by {
                assert(replaced@[i] == sanitized_seq(word@)[i]);
            }
        }
    }
    let r = to_lowercase(replaced.as_str());
    proof {
        assert forall|i: int| 0 <= i < r@.len() implies !is_reserved_in_file_name(#[trigger] r@[i]) by {
            if is_reserved_in_file_name(r@[i]) {
                assert(r@[i] as u32 <= 0x7F && !is_ascii_alpha(r@[i]));
                assert(replaced@.contains(r@[i]));
                let k = choose|k: int| 0 <= k < replaced@.len() && replaced@[k] == r@[i];
                assert(replaced@[k] == sanitized_seq(word@)[k]);
            }
        }
        assert(sanitized_seq(r@) =~= r@);
    }
    r
}

/// Sanitising a file name twice gives the same name as sanitising it once:
/// for an ASCII word, the name is ASCII again and naming it anew changes
/// nothing.
pub proof fn lemma_sanitize_twice_is_once(word: Seq<char>)
    requires
        is_ascii_text(word),
    ensures
        is_ascii_text(ascii_file_name(word)),
        ascii_file_name(ascii_file_name(word)) == ascii_file_name(word),
{
    let once = ascii_file_name(word);
    assert forall|i: int| 0 <= i < once.len() implies (#[trigger] once[i]) as u32 <= 0x7F
        && !is_reserved_in_file_name(once[i]) && ascii_lower_char(once[i]) == once[i] by {
        let c = word[i];
        let d = sanitized_seq(word)[i];
        assert(d == (if is_reserved_in_file_name(c) { '_' } else { c }));
        assert(once[i] == ascii_lower_char(d));
        if is_ascii_upper(d) {
            assert(((d as u32) + 32) as char as u32 == (d as u32) + 32);
        }
    }
    assert(ascii_file_name(once) =~= once) by {
        assert forall|i: int| 0 <= i < once.len() implies #[trigger] ascii_file_name(once)[i] == once[i] by {
            assert(sanitized_seq(once)[i] == once[i]);
        }
    }
}

/// The part of a line before its first tab.
pub open spec fn first_field(line: Seq<char>) -> Seq<char> {
    let i = index_of_char(line, '\t');
    if i >= 0 {
        line.subrange(0, i)
    } else {
        line
    }
}

/// The word a line of the word list names: its first tab-separated field, trimmed.
pub open spec fn line_word(line: Seq<char>) -> Seq<char> {
    trim_seq(first_field(line))
}

pub fn word_of_line(line: &str) -> (r: String)
    ensures
        r@ == line_word(line@),
{
    let v = chars_of(line);
    let field = match find_char(&v, '\t') {
        Some(i) => slice_chars(&v, 0, i),
        None => v,
    };
    let t = trim_chars(&field);
    string_from_chars(&t)
}

/// `str::eq_ignore_ascii_case`.
pub open spec fn eq_ignore_ascii_case_spec(a: Seq<char>, b: Seq<char>) -> bool {
    a.len() == b.len() && forall|i: int|
        0 <= i < a.len() ==> ascii_lower_char(#[trigger] a[i]) == ascii_lower_char(b[i])
}

fn to_ascii_lower(c: char) -> (r: char)
    ensures
        r == ascii_lower_char(c),
{
    if 'A' <= c && c <= 'Z' {
        let b: u8 = (c as u32 + 32) as u8;
        b as char
    } else {
        c
    }
}

pub fn eq_ignore_ascii_case(a: &str, b: &str) -> (r: bool)
    ensures
        r == eq_ignore_ascii_case_spec(a@, b@),
{
    let av = chars_of(a);
    let bv = chars_of(b);
    if av.len() != bv.len() {
        return false;
    }
    let mut i: usize = 0;
    while i < av.len()
        invariant
            i <= av@.len(),
            av@ == a@,
            bv@ == b@,
            av@.len() == bv@.len(),
            forall|k: int| 0 <= k < i ==> ascii_lower_char(#[trigger] av@[k]) == ascii_lower_char(bv@[k]),
        decreases av@.len() - i,
    {
        if to_ascii_lower(av[i]) != to_ascii_lower(bv[i]) {
            assert(ascii_lower_char(a@[i as int]) != ascii_lower_char(b@[i as int]));
            return false;
        }
        i = i + 1;
    }
    true
}

/// A word of the list is worth an entry (see `valid_word`).
pub open spec fn word_ok(w: Seq<char>) -> bool {
    valid_word(w, vstd::utf8::encode_utf8(w).len() as usize as nat)
}

/// The words of `lines` to generate entries for, reading from the front:
/// invalid words are skipped; with a `start` word, so is every word before
/// the first one equal to it ignoring ASCII case; and so is every word whose
/// lower-case form already has a file.
pub open spec fn select_words_from(
    lines: Seq<Seq<char>>,
    existing: Seq<Seq<char>>,
    start: Option<Seq<char>>,
    started: bool,
) -> Seq<Seq<char>>
    decreases lines.len(),
{
    if lines.len() == 0 {
        Seq::empty()
    } else {
        let w = line_word(lines[0]);
        let rest = lines.drop_first();
        if !word_ok(w) {
            select_words_from(rest, existing, start, started)
        } else {
            let now_started = started || (start matches Some(st) && eq_ignore_ascii_case_spec(w, st));
            if !now_started {
                select_words_from(rest, existing, start, false)
            } else if existing.contains(lowercase(w)) {
                select_words_from(rest, existing, start, true)
            } else {
                seq![w] + select_words_from(rest, existing, start, true)
            }
        }
    }
}

pub open spec fn opt_seq(o: Option<&str>) -> Option<Seq<char>> {
    match o {
        Some(s) => Some(s@),
        None => None,
    }
}

/// The words of a word list to generate entries for (see `select_words_from`),
/// given the lower-case words that already have a valid file.
pub fn select_words(lines: &Vec<String>, existing: &Vec<String>, start_from: Option<&str>) -> (r: Vec<String>)
    ensures
        views_of(r@) == select_words_from(views_of(lines@), views_of(existing@), opt_seq(start_from), start_from is None),
{
    let ghost all = views_of(lines@);
    let ghost ex = views_of(existing@);
    let ghost st = opt_seq(start_from);
    let mut out: Vec<String> = Vec::new();
    let mut started = start_from.is_none();
    let mut i: usize = 0;
    assert(all.skip(0) =~= all);
    assert(views_of(out@) + select_words_from(all, ex, st, started) =~= select_words_from(all, ex, st, started));
    while i < lines.len()
        invariant
            i <= lines@.len(),
            all == views_of(lines@),
            ex == views_of(existing@),
            st == opt_seq(start_from),
            views_of(out@) + select_words_from(all.skip(i as int), ex, st, started)
                == select_words_from(all, ex, st, start_from is None),
        decreases lines@.len() - i,
    {
        let ghost rest = all.skip(i as int);
        let ghost was_started = started;
        let ghost before = views_of(out@);
        assert(rest[0] == lines@[i as int]@);
        assert(rest.drop_first() =~= all.skip(i + 1));
        let w = word_of_line(lines[i].as_str());
        let ok = is_valid_word(w.as_str());
        assert(ok == word_ok(w@));
        if ok {
            if !started {
                match start_from {
                    Some(s) => {
                        if eq_ignore_ascii_case(w.as_str(), s) {
                            started = true;
                        }
                    },
                    None => {},
                }
            }
            if started {
                let lower = to_lowercase(w.as_str());
                let known = strings_contain(existing, lower.as_str());
                proof {
                    if known {
                        let k = choose|k: int| 0 <= k < existing@.len() && (#[trigger] existing@[k])@ == lower@;
                        assert(ex[k] == lower@);
                    } else {
                        assert forall|k: int| 0 <= k < ex.len() implies ex[k] != lower@ by {
                            assert(ex[k] == existing@[k]@);
                        }
                    }
                }
                if !known {
                    out.push(w);
                    assert(views_of(out@) =~= before.push(line_word(rest[0])));
                    assert(select_words_from(rest, ex, st, was_started) == seq![line_word(rest[0])]
                        + select_words_from(all.skip(i + 1), ex, st, started));
                    assert(views_of(out@) + select_words_from(all.skip(i + 1), ex, st, started)
                        =~= before + select_words_from(rest, ex, st, was_started));
                } else {
                    assert(select_words_from(rest, ex, st, was_started) == select_words_from(
                        all.skip(i + 1), ex, st, started));
                }
            } else {
                assert(select_words_from(rest, ex, st, was_started) == select_words_from(
                    all.skip(i + 1), ex, st, started));
            }
        } else {
            assert(select_words_from(rest, ex, st, was_started) == select_words_from(
                all.skip(i + 1), ex, st, started));
        }
        i = i + 1;
    }
    assert(all.skip(i as int) =~= Seq::<Seq<char>>::empty());
    assert(views_of(out@) + Seq::<Seq<char>>::empty() =~= views_of(out@));
    out
}

/// Every word chosen for generation is valid, has no entry file yet, and
/// comes from a line of the list.
pub proof fn lemma_selected_words_are_new_and_valid(
    lines: Seq<Seq<char>>,
    existing: Seq<Seq<char>>,
    start: Option<Seq<char>>,
    started: bool,
)
    ensures
        forall|k: int|
            0 <= k < select_words_from(lines, existing, start, started).len() ==> {
                let w = #[trigger] select_words_from(lines, existing, start, started)[k];
                &&& word_ok(w)
                &&& !existing.contains(lowercase(w))
                &&& exists|i: int| 0 <= i < lines.len() && line_word(lines[i]) == w
            },
    decreases lines.len(),
{
    if lines.len() > 0 {
        let w = line_word(lines[0]);
        let rest = lines.drop_first();
        let now_started = started || (start matches Some(st) && eq_ignore_ascii_case_spec(w, st));
        lemma_selected_words_are_new_and_valid(rest, existing, start, started);
        lemma_selected_words_are_new_and_valid(rest, existing, start, true);
        lemma_selected_words_are_new_and_valid(rest, existing, start, false);
        let out = select_words_from(lines, existing, start, started);
        assert forall|k: int| 0 <= k < out.len() implies {
            let x = #[trigger] out[k];
            &&& word_ok(x)
            &&& !existing.contains(lowercase(x))
            &&& exists|i: int| 0 <= i < lines.len() && line_word(lines[i]) == x
        } by {
            if word_ok(w) && now_started && !existing.contains(lowercase(w)) {
                let tail = select_words_from(rest, existing, start, true);
                assert(out == seq![w] + tail);
                if k == 0 {
                    assert(line_word(lines[0]) == out[k]);
                } else {
                    assert(out[k] == tail[k - 1]);
                    let i = choose|i: int| 0 <= i < rest.len() && line_word(rest[i]) == tail[k - 1];
                    assert(lines[i + 1] == rest[i]);
                }
            } else {
                let s2 = if !word_ok(w) { started } else if !now_started { false } else { true };
                assert(out == select_words_from(rest, existing, start, s2));
                let i = choose|i: int| 0 <= i < rest.len() && line_word(rest[i]) == out[k];
                assert(lines[i + 1] == rest[i]);
            }
        }
    }
}

/// At most `limit` of the words, from the front.
pub fn take_limit(words: Vec<String>, limit: Option<usize>) -> (r: Vec<String>)
    ensures
        views_of(r@) == (match limit {
            Some(n) => if n < words@.len() { views_of(words@).take(n as int) } else { views_of(words@) },
            None => views_of(words@),
        }),
{
    match limit {
        None => words,
        Some(n) => {
            if n >= words.len() {
                return words;
            }
            let mut out: Vec<String> = Vec::new();
            let mut i: usize = 0;
            while i < n
                invariant
                    i <= n < words@.len(),
                    views_of(out@) == views_of(words@).take(i as int),
                decreases n - i,
            {
                let ghost before = out@;
                let c = words[i].clone();
                out.push(c);
                assert(out@ =~= before.push(c));
                assert(views_of(out@) =~= views_of(before).push(words@[i as int]@));
                assert(views_of(words@).take(i + 1) =~= views_of(words@).take(i as int).push(words@[i as int]@));
                i = i + 1;
            }
            out
        },
    }
}

/// The file an entry of `word` is written to: its lower-case form and `.json`.
pub fn entry_file_name(word: &str) -> (r: String)
    ensures
        r@ == lowercase(word@) + ".json"@,
{
    let mut f = to_lowercase(word);
    f.append(".json");
    f
}

/// Whether a word still needs its audio: no recording is stored under its
/// file name.
pub fn needs_audio(word: &str, existing: &Vec<String>) -> (r: bool)
    ensures
        r == !views_of(existing@).contains(lowercase(sanitized_seq(word@))),
{
    let name = sanitize_filename(word);
    let known = strings_contain(existing, name.as_str());
    proof {
        let ex = views_of(existing@);
        if known {
            let k = choose|k: int| 0 <= k < existing@.len() && (#[trigger] existing@[k])@ == name@;
            assert(ex[k] == name@);
        } else {
            assert forall|k: int| 0 <= k < ex.len() implies ex[k] != name@ by {
                assert(ex[k] == existing@[k]@);
            }
        }
    }
    !known
}

/// The file the audio of a word is written to.
pub fn audio_file_name(word: &str) -> (r: String)
    ensures
        r@ == lowercase(sanitized_seq(word@)) + ".mp3"@,
{
    let mut f = sanitize_filename(word);
    f.append(".mp3");
    f
}

/// The key a dictionary word is stored and looked up by: the word in lower case.
pub fn word_lower(word: &str) -> (r: String)
    ensures
        r@ == lowercase(word@),
{
    to_lowercase(word)
}

} // verus!
