//! Feature extraction for POS tagging and chunking.
//!
//! Every feature is a text `"key=value"` (or a bare `"key"` for a flag) that
//! is handed to the sequence labeller as it stands.

use vstd::prelude::*;
use crate::text::{chars_of, concat_text};

verus! {

/// The word at position `i` of `s`, or the empty text outside `s`.
pub open spec fn word_at(s: Seq<Seq<char>>, i: int) -> Seq<char> {
    if 0 <= i < s.len() {
        s[i]
    } else {
        seq![]
    }
}

/// The first `k` characters of `w` (all of `w` when it is shorter).
pub open spec fn prefix_of(w: Seq<char>, k: nat) -> Seq<char> {
    if w.len() <= k {
        w
    } else {
        w.take(k as int)
    }
}

/// The last `k` characters of `w` (all of `w` when it is shorter).
pub open spec fn suffix_of(w: Seq<char>, k: nat) -> Seq<char> {
    if w.len() <= k {
        w
    } else {
        w.skip(w.len() - k)
    }
}

/// An ASCII digit or an extended Arabic-Indic (Persian) digit.
pub open spec fn is_digit_char(c: char) -> bool {
    ('0' <= c && c <= '9') || ('\u{6F0}' <= c && c <= '\u{6F9}')
}

/// `w` is non-empty and made of digits only.
pub open spec fn all_digits_spec(w: Seq<char>) -> bool {
    w.len() > 0 && forall|i: int| 0 <= i < w.len() ==> is_digit_char(#[trigger] w[i])
}

/// One of the punctuation marks that the features single out.
pub open spec fn is_punc_char(c: char) -> bool {
    c == '"' || c == '#' || c == '(' || c == ')' || c == '*' || c == ',' || c == '-' || c == '.'
        || c == '/' || c == ':' || c == '[' || c == ']' || c == '\u{AB}' || c == '\u{BB}'
        || c == '\u{60C}' || c == ';' || c == '?' || c == '!'
}

/// `w` is one of the punctuation marks (each of which is a single character).
pub open spec fn is_punc_spec(w: Seq<char>) -> bool {
    w.len() == 1 && is_punc_char(w[0])
}

/// The text of a flag value.
pub open spec fn bool_text(b: bool) -> Seq<char> {
    if b {
        "true"@
    } else {
        "false"@
    }
}

/// The POS-tagging features of the word at `index` in `s`.
pub open spec fn pos_features_spec(s: Seq<Seq<char>>, index: int) -> Seq<Seq<char>> {
    let word = s[index];
    let prev = word_at(s, index - 1);
    let next = word_at(s, index + 1);
    seq![
        "word="@ + word,
        "prefix-1="@ + prefix_of(word, 1),
        "prefix-2="@ + prefix_of(word, 2),
        "prefix-3="@ + prefix_of(word, 3),
        "suffix-1="@ + suffix_of(word, 1),
        "suffix-2="@ + suffix_of(word, 2),
        "suffix-3="@ + suffix_of(word, 3),
        "prev_word="@ + prev,
        "two_prev_word="@ + word_at(s, index - 2),
        "next_word="@ + next,
        "two_next_word="@ + word_at(s, index + 2),
        "is_numeric="@ + bool_text(all_digits_spec(word)),
        "prev_is_numeric="@ + bool_text(all_digits_spec(prev)),
        "next_is_numeric="@ + bool_text(all_digits_spec(next)),
        "is_punc="@ + bool_text(is_punc_spec(word)),
        "prev_is_punc="@ + bool_text(is_punc_spec(prev)),
        "next_is_punc="@ + bool_text(is_punc_spec(next)),
    ] + (if index == 0 {
        seq!["is_first"@]
    } else {
        seq![]
    }) + (if index == s.len() - 1 {
        seq!["is_last"@]
    } else {
        seq![]
    })
}

/// The chunking features of the word at `index`: its POS features followed
/// by its own POS tag and those of its neighbours.
pub open spec fn chunk_features_spec(words: Seq<Seq<char>>, pos_tags: Seq<Seq<char>>, index: int) -> Seq<Seq<char>> {
    pos_features_spec(words, index) + seq![
        "pos="@ + pos_tags[index],
        "prev_pos="@ + word_at(pos_tags, index - 1),
        "next_pos="@ + (if index + 1 < words.len() {
            pos_tags[index + 1]
        } else {
            seq![]
        }),
    ]
}

/// The POS features of every word of `s`, in order.
pub open spec fn sentence_pos_features_spec(s: Seq<Seq<char>>) -> Seq<Seq<Seq<char>>> {
    Seq::new(s.len(), |i: int| pos_features_spec(s, i))
}

/// The chunking features of every word of `words`, in order.
pub open spec fn sentence_chunk_features_spec(words: Seq<Seq<char>>, pos_tags: Seq<Seq<char>>) -> Seq<Seq<Seq<char>>> {
    Seq::new(words.len(), |i: int| chunk_features_spec(words, pos_tags, i))
}

/// The smaller of `k` and the length of `w`.
pub open spec fn clipped(w: Seq<char>, k: int) -> int {
    if w.len() < k {
        w.len() as int
    } else {
        k
    }
}

/// What the POS features of word `i` say: its word; its first and last one,
/// two and three characters (fewer when it is shorter), each a prefix or a
/// suffix of the word; the words one and two places before and after it
/// (empty outside the sentence); whether it and its neighbours are made of
/// digits or are a punctuation mark; and flags for the first and the last
/// word, and nothing more.
pub proof fn lemma_pos_features_content(s: Seq<Seq<char>>, i: int)
    requires
        0 <= i < s.len(),
    ensures
        ({
            let f = pos_features_spec(s, i);
            let w = s[i];
            let n = w.len() as int;
            let prev = if i >= 1 { s[i - 1] } else { seq![] };
            let next = if i + 1 < s.len() { s[i + 1] } else { seq![] };
            &&& f.len() == 17 + (if i == 0 { 1int } else { 0 }) + (if i == s.len() - 1 { 1int } else { 0 })
            &&& f[0] == "word="@ + w
            &&& f[1] == "prefix-1="@ + w.subrange(0, clipped(w, 1))
            &&& f[2] == "prefix-2="@ + w.subrange(0, clipped(w, 2))
            &&& f[3] == "prefix-3="@ + w.subrange(0, clipped(w, 3))
            &&& f[4] == "suffix-1="@ + w.subrange(n - clipped(w, 1), n)
            &&& f[5] == "suffix-2="@ + w.subrange(n - clipped(w, 2), n)
            &&& f[6] == "suffix-3="@ + w.subrange(n - clipped(w, 3), n)
            &&& f[7] == "prev_word="@ + prev
            &&& f[8] == "two_prev_word="@ + (if i >= 2 { s[i - 2] } else { seq![] })
            &&& f[9] == "next_word="@ + next
            &&& f[10] == "two_next_word="@ + (if i + 2 < s.len() { s[i + 2] } else { seq![] })
            &&& f[11] == "is_numeric="@ + (if all_digits_spec(w) { "true"@ } else { "false"@ })
            &&& f[12] == "prev_is_numeric="@ + (if all_digits_spec(prev) { "true"@ } else { "false"@ })
            &&& f[13] == "next_is_numeric="@ + (if all_digits_spec(next) { "true"@ } else { "false"@ })
            &&& f[14] == "is_punc="@ + (if is_punc_spec(w) { "true"@ } else { "false"@ })
            &&& f[15] == "prev_is_punc="@ + (if is_punc_spec(prev) { "true"@ } else { "false"@ })
            &&& f[16] == "next_is_punc="@ + (if is_punc_spec(next) { "true"@ } else { "false"@ })
            &&& i == 0 ==> f[17] == "is_first"@
            &&& i == s.len() - 1 ==> f[f.len() - 1] == "is_last"@
        }),
{
    let w = s[i];
    let n = w.len() as int;
    assert(prefix_of(w, 1) =~= w.subrange(0, clipped(w, 1)));
    assert(prefix_of(w, 2) =~= w.subrange(0, clipped(w, 2)));
    assert(prefix_of(w, 3) =~= w.subrange(0, clipped(w, 3)));
    assert(suffix_of(w, 1) =~= w.subrange(n - clipped(w, 1), n));
    assert(suffix_of(w, 2) =~= w.subrange(n - clipped(w, 2), n));
    assert(suffix_of(w, 3) =~= w.subrange(n - clipped(w, 3), n));
}

/// A digit is an ASCII digit `0`..`9` or a Persian digit `۰`..`۹`; a
/// punctuation mark is a single character among `" # ( ) * , - . / : [ ] « » ، ; ? !`.
pub proof fn lemma_digit_and_punctuation(w: Seq<char>)
    ensures
        all_digits_spec(w) <==> (w.len() > 0 && forall|j: int|
            0 <= j < w.len() ==> ('0' <= #[trigger] w[j] && w[j] <= '9') || ('\u{6F0}' <= w[j] && w[j] <= '\u{6F9}')),
        is_punc_spec(w) <==> (w.len() == 1 && (w[0] == '"' || w[0] == '#' || w[0] == '(' || w[0] == ')'
            || w[0] == '*' || w[0] == ',' || w[0] == '-' || w[0] == '.' || w[0] == '/' || w[0] == ':'
            || w[0] == '[' || w[0] == ']' || w[0] == '\u{AB}' || w[0] == '\u{BB}' || w[0] == '\u{60C}'
            || w[0] == ';' || w[0] == '?' || w[0] == '!')),
{
}

/// The chunking features of word `i` are its POS features followed by its
/// own POS tag, the POS tag before it and the POS tag after it (empty
/// outside the sentence).
pub proof fn lemma_chunk_features_content(words: Seq<Seq<char>>, pos_tags: Seq<Seq<char>>, i: int)
    requires
        0 <= i < words.len(),
        words.len() <= pos_tags.len(),
    ensures
        ({
            let f = chunk_features_spec(words, pos_tags, i);
            let p = pos_features_spec(words, i);
            &&& f.len() == p.len() + 3
            &&& f.take(p.len() as int) == p
            &&& f[p.len() as int] == "pos="@ + pos_tags[i]
            &&& f[p.len() as int + 1] == "prev_pos="@ + (if i >= 1 { pos_tags[i - 1] } else { seq![] })
            &&& f[p.len() as int + 2] == "next_pos="@ + (if i + 1 < words.len() { pos_tags[i + 1] } else { seq![] })
        }),
{
    let f = chunk_features_spec(words, pos_tags, i);
    let p = pos_features_spec(words, i);
    assert(f.take(p.len() as int) =~= p);
}

/// Whether `word` is one of the punctuation marks.
fn is_punc(word: &str) -> (r: bool)
    ensures
        r == is_punc_spec(word@),
{
    let v = chars_of(word);
    if v.len() != 1 {
        return false;
    }
    let c = v[0];
    c == '"' || c == '#' || c == '(' || c == ')' || c == '*' || c == ',' || c == '-' || c == '.'
        || c == '/' || c == ':' || c == '[' || c == ']' || c == '\u{AB}' || c == '\u{BB}'
        || c == '\u{60C}' || c == ';' || c == '?' || c == '!'
}

/// Whether `word` is non-empty and made of digits only.
fn all_digits(word: &str) -> (r: bool)
    ensures
        r == all_digits_spec(word@),
{
    let v = chars_of(word);
    if v.len() == 0 {
        return false;
    }
    let mut i: usize = 0;
    while i < v.len()
        invariant
            v@ == word@,
            i <= v@.len(),
            forall|j: int| 0 <= j < i ==> is_digit_char(#[trigger] v@[j]),
        decreases v@.len() - i,
    {
        let c = v[i];
        if !(('0' <= c && c <= '9') || ('\u{6F0}' <= c && c <= '\u{6F9}')) {
            assert(!is_digit_char(word@[i as int]));
            return false;
        }
        i = i + 1;
    }
    true
}

/// The text of a flag value.
fn flag_text(b: bool) -> (r: &'static str)
    ensures
        r@ == bool_text(b),
{
    if b {
        "true"
    } else {
        "false"
    }
}

/// The word at `i` of `sentence`, or the empty text outside it.
fn word_or_empty<'a>(sentence: &[&'a str], i: usize, inside: bool) -> (r: &'a str)
    requires
        inside ==> i < sentence@.len(),
    ensures
        inside ==> r@ == sentence@[i as int]@,
        !inside ==> r@ == Seq::<char>::empty(),
{
    if inside {
        sentence[i]
    } else {
        proof {
            reveal_strlit("");
        }
        ""
    }
}

/// The first `k` characters of `word` (all of it when it is shorter).
fn prefix_text(word: &str, k: usize) -> (r: &str)
    ensures
        r@ == prefix_of(word@, k as nat),
{
    let n = word.unicode_len();
    if n <= k {
        word.substring_char(0, n)
    } else {
        word.substring_char(0, k)
    }
}

/// The last `k` characters of `word` (all of it when it is shorter).
fn suffix_text(word: &str, k: usize) -> (r: &str)
    ensures
        r@ == suffix_of(word@, k as nat),
{
    let n = word.unicode_len();
    if n <= k {
        let r = word.substring_char(0, n);
        assert(r@ =~= word@);
        r
    } else {
        word.substring_char(n - k, n)
    }
}

/// Extracts the POS-tagging features of `sentence[index]`.
pub fn pos_features(sentence: &[&str], index: usize) -> (f: Vec<String>)
    requires
        index < sentence@.len(),
    ensures
        f.deep_view() == pos_features_spec(sentence.deep_view(), index as int),
{
    let ghost s = sentence.deep_view();
    let word = sentence[index];
    let n = sentence.len();
    let prev = word_or_empty(sentence, if index > 0 { index - 1 } else { 0 }, index > 0);
    let two_prev = word_or_empty(sentence, if index > 1 { index - 2 } else { 0 }, index > 1);
    let has_next = index < n - 1;
    let has_two_next = n >= 2 && index < n - 2;
    let next = word_or_empty(sentence, if has_next { index + 1 } else { 0 }, has_next);
    let two_next = word_or_empty(sentence, if has_two_next { index + 2 } else { 0 }, has_two_next);
    assert(prev@ == word_at(s, index - 1));
    assert(two_prev@ == word_at(s, index - 2));
    assert(next@ == word_at(s, index + 1));
    assert(two_next@ == word_at(s, index + 2));

    let mut f: Vec<String> = Vec::new();
    f.push(concat_text("word=", word));
    f.push(concat_text("prefix-1=", prefix_text(word, 1)));
    f.push(concat_text("prefix-2=", prefix_text(word, 2)));
    f.push(concat_text("prefix-3=", prefix_text(word, 3)));
    f.push(concat_text("suffix-1=", suffix_text(word, 1)));
    f.push(concat_text("suffix-2=", suffix_text(word, 2)));
    f.push(concat_text("suffix-3=", suffix_text(word, 3)));
    f.push(concat_text("prev_word=", prev));
    f.push(concat_text("two_prev_word=", two_prev));
    f.push(concat_text("next_word=", next));
    f.push(concat_text("two_next_word=", two_next));
    f.push(concat_text("is_numeric=", flag_text(all_digits(word))));
    f.push(concat_text("prev_is_numeric=", flag_text(all_digits(prev))));
    f.push(concat_text("next_is_numeric=", flag_text(all_digits(next))));
    f.push(concat_text("is_punc=", flag_text(is_punc(word))));
    f.push(concat_text("prev_is_punc=", flag_text(is_punc(prev))));
    f.push(concat_text("next_is_punc=", flag_text(is_punc(next))));
    if index == 0 {
        f.push(String::from_str("is_first"));
    }
    if index == n - 1 {
        f.push(String::from_str("is_last"));
    }
    assert(f.deep_view() =~= pos_features_spec(s, index as int));
    f
}

/// Extracts the chunking features of `words[index]`, given the POS tags of
/// the sentence.
pub fn chunk_features(words: &[&str], pos_tags: &[&str], index: usize) -> (f: Vec<String>)
    requires
        index < words@.len(),
        index < pos_tags@.len(),
        index + 1 < words@.len() ==> index + 1 < pos_tags@.len(),
    ensures
        f.deep_view() == chunk_features_spec(words.deep_view(), pos_tags.deep_view(), index as int),
{
    let n = words.len();
    let mut f = pos_features(words, index);
    let ghost base = f.deep_view();
    let pos = pos_tags[index];
    let prev_pos = word_or_empty(pos_tags, if index > 0 { index - 1 } else { 0 }, index > 0);
    let has_next = index < n - 1;
    let next_pos = word_or_empty(pos_tags, if has_next { index + 1 } else { 0 }, has_next);
    f.push(concat_text("pos=", pos));
    f.push(concat_text("prev_pos=", prev_pos));
    f.push(concat_text("next_pos=", next_pos));
    assert(f.deep_view() =~= chunk_features_spec(words.deep_view(), pos_tags.deep_view(), index as int));
    f
}

/// The POS features of every word of `sentence`, in order.
pub fn sentence_pos_features(sentence: &[&str]) -> (fs: Vec<Vec<String>>)
    ensures
        fs.deep_view() == sentence_pos_features_spec(sentence.deep_view()),
{
    let mut fs: Vec<Vec<String>> = Vec::new();
    let mut i: usize = 0;
    while i < sentence.len()
        invariant
            i <= sentence@.len(),
            fs.deep_view() =~= sentence_pos_features_spec(sentence.deep_view()).take(i as int),
        decreases sentence@.len() - i,
    {
        let f = pos_features(sentence, i);
        let ghost prev = fs.deep_view();
        let ghost fv = f.deep_view();
        fs.push(f);
        assert(fs.deep_view() =~= prev.push(fv));
        i = i + 1;
        assert(fs.deep_view() =~= sentence_pos_features_spec(sentence.deep_view()).take(i as int));
    }
    assert(fs.deep_view() =~= sentence_pos_features_spec(sentence.deep_view()));
    fs
}

/// The chunking features of every word of `words`, in order.
pub fn sentence_chunk_features(words: &[&str], pos_tags: &[&str]) -> (fs: Vec<Vec<String>>)
    requires
        words@.len() <= pos_tags@.len(),
    ensures
        fs.deep_view() == sentence_chunk_features_spec(words.deep_view(), pos_tags.deep_view()),
{
    let mut fs: Vec<Vec<String>> = Vec::new();
    let mut i: usize = 0;
    while i < words.len()
        invariant
            i <= words@.len(),
            words@.len() <= pos_tags@.len(),
            fs.deep_view() =~= sentence_chunk_features_spec(words.deep_view(), pos_tags.deep_view()).take(i as int),
        decreases words@.len() - i,
    {
        let f = chunk_features(words, pos_tags, i);
        let ghost prev = fs.deep_view();
        let ghost fv = f.deep_view();
        fs.push(f);
        assert(fs.deep_view() =~= prev.push(fv));
        i = i + 1;
        assert(fs.deep_view() =~= sentence_chunk_features_spec(words.deep_view(), pos_tags.deep_view()).take(i as int));
    }
    assert(fs.deep_view() =~= sentence_chunk_features_spec(words.deep_view(), pos_tags.deep_view()));
    fs
}

} // verus!
