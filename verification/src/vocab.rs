//! Vocabulary lists: the words a list file names, and the links between
//! those words and the list's dictionary that an import adds.
use vstd::prelude::*;
use crate::dict_rows::VocabTally;
use crate::text::{lowercase, to_lowercase, views_of};

verus! {

/// The strings of `text` read as a JSON array of strings, `None` where it is
/// not one.
pub uninterp spec fn json_string_list(text: Seq<char>) -> Option<Seq<Seq<char>>>;

/// `serde_json::from_str::<Vec<String>>`: claimed to give the strings that
/// `json_string_list` names, or `None` exactly where it names none.
#[verifier::external_body]
pub(crate) fn parse_word_list(text: &str) -> (r: Option<Vec<String>>)
    ensures
        match r {
            Some(v) => json_string_list(text@) == Some(views_of(v@)),
            None => json_string_list(text@) is None,
        },
{
    serde_json::from_str::<Vec<String>>(text).ok()
}

/// The keys the words of a list are looked up by: each word in lower case.
pub open spec fn lookup_keys(words: Seq<Seq<char>>) -> Seq<Seq<char>> {
    words.map_values(|w: Seq<char>| lowercase(w))
}

/// The words of a vocabulary list file, each in lower case and in the
/// order of the file; `None` when the text is not a JSON array of strings.
pub fn vocabulary_lookups(text: &str) -> (r: Option<Vec<String>>)
    ensures
        match json_string_list(text@) {
            None => r is None,
            Some(words) => r matches Some(v) && views_of(v@) == lookup_keys(words),
        },
{
    match parse_word_list(text) {
        None => None,
        Some(words) => {
            let mut out: Vec<String> = Vec::new();
            let mut i: usize = 0;
            while i < words.len()
                invariant
                    i <= words@.len(),
                    out@.len() == i,
                    forall|j: int| 0 <= j < i ==> (#[trigger] out@[j])@ == lowercase(words@[j]@),
                decreases words@.len() - i,
            {
                let l = to_lowercase(words[i].as_str());
                out.push(l);
                i = i + 1;
            }
            assert(views_of(out@) =~= lookup_keys(views_of(words@)));
            Some(out)
        }
    }
}

/// The word ids a run over a list adds links for, in order: each word found
/// in the dictionary (`Some(id)`) whose id is neither linked before the run
/// nor linked earlier in the same run.
pub open spec fn new_links(ids: Seq<Option<i64>>, linked: Seq<i64>) -> Seq<i64>
    decreases ids.len(),
{
    if ids.len() == 0 {
        Seq::empty()
    } else {
        let prev = new_links(ids.drop_last(), linked);
        match ids.last() {
            Some(id) => if linked.contains(id) || prev.contains(id) {
                prev
            } else {
                prev.push(id)
            },
            None => prev,
        }
    }
}

/// What a run over a vocabulary list does: its counts, and the word ids it
/// links to the list's dictionary, in order.
pub struct VocabPlan {
    pub tally: VocabTally,
    pub new_links: Vec<i64>,
}

fn ids_contain(v: &Vec<i64>, x: i64) -> (r: bool)
    ensures
        r == v@.contains(x),
{
    let mut i: usize = 0;
    while i < v.len()
        invariant
            i <= v@.len(),
            forall|j: int| 0 <= j < i ==> v@[j] != x,
        decreases v@.len() - i,
    {
        if v[i] == x {
            return true;
        }
        i = i + 1;
    }
    false
}

/// The links a run over a vocabulary list adds. `ids[k]` is the id of the
/// dictionary word whose lower-case form is the `k`-th word of the list
/// (`None` when there is none), and `linked` the ids of the words linked to
/// the list's dictionary before the run.
pub fn plan_vocabulary_links(ids: &Vec<Option<i64>>, linked: &Vec<i64>) -> (r: VocabPlan)
    ensures
        r.tally.words == ids@.len(),
        r.new_links@ == new_links(ids@, linked@),
        r.tally.associations == r.new_links@.len(),
{
    let mut tally = VocabTally::new();
    let mut out: Vec<i64> = Vec::new();
    let mut i: usize = 0;
    while i < ids.len()
        invariant
            i <= ids@.len(),
            tally.words == i,
            tally.associations == out@.len(),
            tally.associations <= tally.words,
            out@ == new_links(ids@.take(i as int), linked@),
        decreases ids@.len() - i,
    {
        let ghost before = out@;
        assert(ids@.take(i + 1).drop_last() =~= ids@.take(i as int));
        assert(ids@.take(i + 1).last() == ids@[i as int]);
        let (stored, already) = match ids[i] {
            Some(id) => (true, ids_contain(linked, id) || ids_contain(&out, id)),
            None => (false, false),
        };
        let link = tally.count(stored, already);
        if link {
            if let Some(id) = ids[i] {
                out.push(id);
            }
        }
        i = i + 1;
        assert(out@ == new_links(ids@.take(i as int), linked@));
    }
    assert(ids@.take(ids@.len() as int) =~= ids@);
    VocabPlan { tally, new_links: out }
}

proof fn lemma_run_covers_stored_words(ids: Seq<Option<i64>>, linked: Seq<i64>, i: int)
    requires
        0 <= i < ids.len(),
        ids[i] is Some,
    ensures
        linked.contains(ids[i]->0) || new_links(ids, linked).contains(ids[i]->0),
    decreases ids.len(),
{
    let id = ids[i]->0;
    let prev = new_links(ids.drop_last(), linked);
    if i == ids.len() - 1 {
        if !linked.contains(id) && !prev.contains(id) {
            assert(prev.push(id)[prev.len() as int] == id);
        }
    } else {
        assert(ids.drop_last()[i] == ids[i]);
        lemma_run_covers_stored_words(ids.drop_last(), linked, i);
        if prev.contains(id) {
            let k = choose|k: int| 0 <= k < prev.len() && prev[k] == id;
            match ids.last() {
                Some(x) => {
                    if !(linked.contains(x) || prev.contains(x)) {
                        assert(prev.push(x)[k] == id);
                    }
                },
                None => {},
            }
        }
    }
}

proof fn lemma_nothing_new_when_all_linked(ids: Seq<Option<i64>>, linked: Seq<i64>)
    requires
        forall|i: int| 0 <= i < ids.len() && (#[trigger] ids[i]) is Some ==> linked.contains(ids[i]->0),
    ensures
        new_links(ids, linked) == Seq::<i64>::empty(),
    decreases ids.len(),
{
    if ids.len() > 0 {
        assert forall|i: int| 0 <= i < ids.drop_last().len() && (#[trigger] ids.drop_last()[i]) is Some
            implies linked.contains(ids.drop_last()[i]->0) by {
            assert(ids.drop_last()[i] == ids[i]);
        }
        lemma_nothing_new_when_all_linked(ids.drop_last(), linked);
        assert(ids[ids.len() - 1] == ids.last());
    }
}

/// Linking a vocabulary list twice adds nothing: once the links of a first
/// run are stored, a second run over the same list, with the same words in
/// the dictionary, adds no link and counts no association.
pub proof fn lemma_linking_twice_adds_nothing(ids: Seq<Option<i64>>, linked: Seq<i64>)
    ensures
        new_links(ids, linked + new_links(ids, linked)) == Seq::<i64>::empty(),
{
    let first = new_links(ids, linked);
    let after = linked + first;
    assert forall|i: int| 0 <= i < ids.len() && (#[trigger] ids[i]) is Some implies after.contains(ids[i]->0) by {
        lemma_run_covers_stored_words(ids, linked, i);
        let id = ids[i]->0;
        if linked.contains(id) {
            let k = choose|k: int| 0 <= k < linked.len() && linked[k] == id;
            assert(after[k] == id);
        } else {
            let k = choose|k: int| 0 <= k < first.len() && first[k] == id;
            assert(after[linked.len() + k] == id);
        }
    }
    lemma_nothing_new_when_all_linked(ids, after);
}

/// A run adds no link twice and no link that was there before it.
pub proof fn lemma_new_links_are_fresh(ids: Seq<Option<i64>>, linked: Seq<i64>)
    ensures
        new_links(ids, linked).no_duplicates(),
        forall|x: i64| new_links(ids, linked).contains(x) ==> !linked.contains(x),
    decreases ids.len(),
{
    if ids.len() > 0 {
        lemma_new_links_are_fresh(ids.drop_last(), linked);
        let prev = new_links(ids.drop_last(), linked);
        match ids.last() {
            Some(id) => {
                if !(linked.contains(id) || prev.contains(id)) {
                    let n = prev.push(id);
                    assert forall|x: i64| n.contains(x) implies !linked.contains(x) by {
                        let k = choose|k: int| 0 <= k < n.len() && n[k] == x;
                        if k < prev.len() {
                            assert(prev[k] == x);
                        }
                    }
                    assert forall|a: int, b: int| 0 <= a < n.len() && 0 <= b < n.len() && a != b
                        implies n[a] != n[b] by {
                        if a < prev.len() && b < prev.len() {
                            assert(n[a] == prev[a] && n[b] == prev[b]);
                        } else if a < prev.len() {
                            assert(n[a] == prev[a]);
                        } else if b < prev.len() {
                            assert(n[b] == prev[b]);
                        }
                    }
                }
            },
            None => {},
        }
    }
}

} // verus!
