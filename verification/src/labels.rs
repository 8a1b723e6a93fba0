//! Label sets kept as sorted, duplicate-free lists of texts.
//!
//! vstd states what `BTreeSet` does only for keys whose order it specifies
//! (the integers), not for `String`, so a set of texts in ascending order is
//! kept here as a `Vec` with that order as its invariant.

use vstd::prelude::*;
use crate::text::{lemma_lex_less_total, lemma_lex_less_transitive, lex_less, text_less};

verus! {

/// `s` is in strictly increasing lexicographic order, so no text occurs twice.
pub open spec fn strictly_sorted(s: Seq<Seq<char>>) -> bool {
    forall|i: int, j: int| 0 <= i < j < s.len() ==> lex_less(#[trigger] s[i], #[trigger] s[j])
}

/// Adds `tag` to the sorted, duplicate-free list `labels`, where it belongs;
/// a tag that is there already leaves the list as it is.
pub fn insert_label(labels: &mut Vec<String>, tag: &String)
    requires
        strictly_sorted(old(labels).deep_view()),
    ensures
        strictly_sorted(final(labels).deep_view()),
        forall|t: Seq<char>|
            final(labels).deep_view().contains(t) <==> (old(labels).deep_view().contains(t) || t
                == tag@),
{
    let ghost before = labels.deep_view();
    let mut i: usize = 0;
    while i < labels.len() && text_less(labels[i].as_str(), tag.as_str())
        invariant
            before == labels.deep_view(),
            strictly_sorted(before),
            i <= labels@.len(),
            forall|j: int| 0 <= j < i ==> lex_less(#[trigger] before[j], tag@),
        decreases labels@.len() - i,
    {
        i = i + 1;
    }
    if i < labels.len() && labels[i] == *tag {
        assert(before[i as int] == tag@);
        return;
    }
    proof {
        if i < before.len() {
            lemma_lex_less_total(before[i as int], tag@);
        }
    }
    labels.insert(i, tag.clone());
    let ghost after = labels.deep_view();
    assert(after =~= before.insert(i as int, tag@));
    assert forall|a: int, b: int| 0 <= a < b < after.len() implies lex_less(
        #[trigger] after[a],
        #[trigger] after[b],
    ) by {
        if b < i {
        } else if a < i && b == i {
        } else if a < i {
            lemma_lex_less_transitive(after[a], tag@, before[i as int]);
            if b - 1 > i {
                lemma_lex_less_transitive(after[a], before[i as int], before[b - 1]);
            }
        } else if a == i {
            if b - 1 > i {
                lemma_lex_less_transitive(tag@, before[i as int], before[b - 1]);
            }
        } else {
            assert(after[a] == before[a - 1]);
            assert(after[b] == before[b - 1]);
        }
    }
    assert forall|t: Seq<char>| after.contains(t) <==> (before.contains(t) || t == tag@) by {
        if after.contains(t) {
            let k = choose|k: int| 0 <= k < after.len() && after[k] == t;
            if k < i {
                assert(before[k] == t);
            } else if k > i {
                assert(before[k - 1] == t);
            }
        }
        if before.contains(t) {
            let k = choose|k: int| 0 <= k < before.len() && before[k] == t;
            if k < i {
                assert(after[k] == t);
            } else {
                assert(after[k + 1] == t);
            }
        }
        if t == tag@ {
            assert(after[i as int] == t);
        }
    }
}

} // verus!
