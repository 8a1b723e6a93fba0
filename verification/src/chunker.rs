//! Shallow parsing: IOB chunk tags, parse trees and their bracketed form.

use vstd::prelude::*;
use crate::error::Error;
use crate::features::{chunk_features_spec, sentence_chunk_features, sentence_chunk_features_spec};
use crate::labels::{insert_label, strictly_sorted};
use crate::model::{
    agreements, config_epochs, lemma_agreements_count_exact_matches, lemma_filter_same, decode, decoded_labels, epochs_of, labels_of, lemma_token_count_prefix, model_labels,
    token_count, train_model, trained_decoding,
};
use crate::text::{begins_with, first_is, has_prefix, join, join_texts, starts_with_char, text_equal};

verus! {

/// A single token with POS and IOB chunk tags: `(word, pos, iob)`.
pub type ChunkedToken = (String, String, String);

/// A fully chunked sentence.
pub type ChunkedSentence = Vec<ChunkedToken>;

/// A shallow parse tree node.
#[derive(Debug, Clone)]
pub enum ParseNode {
    /// A phrase (NP, VP, PP, ...) grouping one or more tokens.
    Phrase {
        /// Phrase type label (e.g. `"NP"`, `"VP"`).
        label: String,
        /// `(word, POS)` pairs belonging to the phrase.
        tokens: Vec<(String, String)>,
    },
    /// An un-chunked token.
    Token {
        /// Surface form.
        word: String,
        /// POS tag.
        tag: String,
    },
}

/// A parse tree node as texts.
pub enum NodeView {
    /// A phrase with its label and its `(word, POS)` pairs.
    Phrase { label: Seq<char>, tokens: Seq<(Seq<char>, Seq<char>)> },
    /// A token outside any phrase.
    Token { word: Seq<char>, tag: Seq<char> },
}

impl View for ParseNode {
    type V = NodeView;

    open spec fn view(&self) -> NodeView {
        match self {
            ParseNode::Phrase { label, tokens } => NodeView::Phrase {
                label: label@,
                tokens: tokens.deep_view(),
            },
            ParseNode::Token { word, tag } => NodeView::Token { word: word@, tag: tag@ },
        }
    }
}

impl DeepView for ParseNode {
    type V = NodeView;

    open spec fn deep_view(&self) -> NodeView {
        self@
    }
}

/// A chunked token as texts: `(word, pos, iob)`.
pub type TokenView = (Seq<char>, Seq<char>, Seq<char>);

/// An IOB tag that can be read: one that begins with `B` has a second
/// character that is ASCII, so that the phrase label starts at its third.
pub open spec fn iob_readable(iob: Seq<char>) -> bool {
    first_is(iob, 'B') ==> iob.len() >= 2 && (iob[1] as int) < 128
}

/// Every IOB tag of `chunked` can be read.
pub open spec fn all_iob_readable(chunked: Seq<TokenView>) -> bool {
    forall|i: int| 0 <= i < chunked.len() ==> iob_readable(#[trigger] chunked[i].2)
}

/// Adds one chunked token to a tree: `B-X` opens a phrase labelled `X`, `I-..`
/// extends the phrase just before it (or stands alone when there is none),
/// anything else stands alone.
pub open spec fn iob_step(tree: Seq<NodeView>, t: TokenView) -> Seq<NodeView> {
    let (word, pos, iob) = t;
    if first_is(iob, 'B') {
        tree.push(NodeView::Phrase { label: iob.skip(2), tokens: seq![(word, pos)] })
    } else if first_is(iob, 'I') && tree.len() > 0 && tree.last() is Phrase {
        match tree.last() {
            NodeView::Phrase { label, tokens } => tree.update(
                tree.len() - 1,
                NodeView::Phrase { label, tokens: tokens.push((word, pos)) },
            ),
            NodeView::Token { .. } => tree,
        }
    } else {
        tree.push(NodeView::Token { word, tag: pos })
    }
}

/// The parse tree of an IOB-chunked sentence, built token by token.
pub open spec fn iob_tree(chunked: Seq<TokenView>) -> Seq<NodeView>
    decreases chunked.len(),
{
    if chunked.len() == 0 {
        seq![]
    } else {
        iob_step(iob_tree(chunked.drop_last()), chunked.last())
    }
}

/// The `(word, POS)` pairs of a node.
pub open spec fn node_tokens(n: NodeView) -> Seq<(Seq<char>, Seq<char>)> {
    match n {
        NodeView::Phrase { tokens, .. } => tokens,
        NodeView::Token { word, tag } => seq![(word, tag)],
    }
}

/// The `(word, POS)` pairs of a tree, node by node, in order.
pub open spec fn flatten(tree: Seq<NodeView>) -> Seq<(Seq<char>, Seq<char>)>
    decreases tree.len(),
{
    if tree.len() == 0 {
        seq![]
    } else {
        flatten(tree.drop_last()) + node_tokens(tree.last())
    }
}

/// The `(word, POS)` pairs of a chunked sentence.
pub open spec fn words_and_tags(chunked: Seq<TokenView>) -> Seq<(Seq<char>, Seq<char>)> {
    chunked.map_values(|t: TokenView| (t.0, t.1))
}

/// Every phrase of a tree holds at least one token.
pub open spec fn phrases_non_empty(tree: Seq<NodeView>) -> bool {
    forall|i: int| 0 <= i < tree.len() ==> node_tokens(#[trigger] tree[i]).len() > 0
}

/// The bracketed text of a node: `[w1 w2 ... LABEL]` for a phrase, the word
/// for a token.
pub open spec fn node_text(n: NodeView) -> Seq<char> {
    match n {
        NodeView::Phrase { label, tokens } => "["@ + join(
            tokens.map_values(|t: (Seq<char>, Seq<char>)| t.0),
            " "@,
        ) + " "@ + label + "]"@,
        NodeView::Token { word, .. } => word,
    }
}

/// The bracketed text of a tree: its nodes' texts separated by spaces.
pub open spec fn brackets(tree: Seq<NodeView>) -> Seq<char> {
    join(tree.map_values(|n: NodeView| node_text(n)), " "@)
}

/// The tokens of a phrase as lone-token nodes.
pub open spec fn as_tokens(tokens: Seq<(Seq<char>, Seq<char>)>) -> Seq<NodeView> {
    tokens.map_values(|t: (Seq<char>, Seq<char>)| NodeView::Token { word: t.0, tag: t.1 })
}

/// The bracketed text of a tree: an empty tree gives the empty text, a lone
/// token its word, a phrase `[`, the bracketed text of its tokens, a space,
/// its label and `]`, and a tree with one more node the text so far, a space
/// and the text of that node.
pub proof fn lemma_brackets(tree: Seq<NodeView>, n: NodeView)
    ensures
        brackets(seq![]) == Seq::<char>::empty(),
        brackets(seq![n]) == node_text(n),
        n matches NodeView::Token { word, .. } ==> node_text(n) == word,
        n matches NodeView::Phrase { label, tokens } ==> node_text(n) == "["@ + brackets(as_tokens(tokens)) + " "@
            + label + "]"@,
        tree.len() > 0 ==> brackets(tree.push(n)) == brackets(tree) + " "@ + node_text(n),
{
    let f = |m: NodeView| node_text(m);
    assert(seq![n].map_values(f) =~= seq![node_text(n)]);
    assert(Seq::<NodeView>::empty().map_values(f) =~= Seq::<Seq<char>>::empty());
    assert(seq![] =~= Seq::<NodeView>::empty());
    if let NodeView::Phrase { label, tokens } = n {
        assert(as_tokens(tokens).map_values(f) =~= tokens.map_values(|t: (Seq<char>, Seq<char>)| t.0));
    }
    if tree.len() > 0 {
        assert(tree.push(n).map_values(f).drop_last() =~= tree.map_values(f));
    }
}

proof fn lemma_flatten_push(tree: Seq<NodeView>, n: NodeView)
    ensures
        flatten(tree.push(n)) == flatten(tree) + node_tokens(n),
{
    assert(tree.push(n).drop_last() =~= tree);
}

/// Building the tree of a chunked sentence keeps its tokens: flattening the
/// tree gives back every `(word, POS)` pair of the sentence, once each and in
/// order, and no phrase of the tree is empty.
pub proof fn lemma_iob_tree_keeps_tokens(chunked: Seq<TokenView>)
    ensures
        flatten(iob_tree(chunked)) == words_and_tags(chunked),
        phrases_non_empty(iob_tree(chunked)),
    decreases chunked.len(),
{
    if chunked.len() > 0 {
        let prev = chunked.drop_last();
        lemma_iob_tree_keeps_tokens(prev);
        let tree = iob_tree(prev);
        let (word, pos, iob) = chunked.last();
        assert(words_and_tags(chunked) =~= words_and_tags(prev).push((word, pos)));
        if first_is(iob, 'B') {
            lemma_flatten_push(tree, NodeView::Phrase { label: iob.skip(2), tokens: seq![(word, pos)] });
        } else if first_is(iob, 'I') && tree.len() > 0 && tree.last() is Phrase {
            let last = tree.last();
            let rest = tree.drop_last();
            let new_last = NodeView::Phrase { label: last->label, tokens: last->tokens.push((word, pos)) };
            assert(tree =~= rest.push(last));
            assert(iob_tree(chunked) =~= rest.push(new_last));
            lemma_flatten_push(rest, last);
            lemma_flatten_push(rest, new_last);
        } else {
            lemma_flatten_push(tree, NodeView::Token { word, tag: pos });
        }
    }
}

/// The labels of the phrases of a tree, in order.
pub open spec fn phrase_labels(tree: Seq<NodeView>) -> Seq<Seq<char>>
    decreases tree.len(),
{
    if tree.len() == 0 {
        seq![]
    } else {
        phrase_labels(tree.drop_last()) + match tree.last() {
            NodeView::Phrase { label, .. } => seq![label],
            NodeView::Token { .. } => seq![],
        }
    }
}

/// For each token of a chunked sentence whose IOB tag begins with `B`, in
/// order, its tag from the third character on.
pub open spec fn opened_labels(chunked: Seq<TokenView>) -> Seq<Seq<char>>
    decreases chunked.len(),
{
    if chunked.len() == 0 {
        seq![]
    } else {
        opened_labels(chunked.drop_last()) + if first_is(chunked.last().2, 'B') {
            seq![chunked.last().2.skip(2)]
        } else {
            seq![]
        }
    }
}

/// The phrases of the tree are exactly those that `B-` tags open: one phrase
/// per token tagged `B-X`, labelled `X`, in the order of those tokens (an
/// `I-` tag never opens a phrase, and a phrase keeps its label).
pub proof fn lemma_iob_tree_phrases(chunked: Seq<TokenView>)
    ensures
        phrase_labels(iob_tree(chunked)) == opened_labels(chunked),
    decreases chunked.len(),
{
    if chunked.len() > 0 {
        let prev = chunked.drop_last();
        lemma_iob_tree_phrases(prev);
        let tree = iob_tree(prev);
        let (word, pos, iob) = chunked.last();
        if first_is(iob, 'B') {
            let n = NodeView::Phrase { label: iob.skip(2), tokens: seq![(word, pos)] };
            assert(tree.push(n).drop_last() =~= tree);
        } else if first_is(iob, 'I') && tree.len() > 0 && tree.last() is Phrase {
            let last = tree.last();
            let new_last = NodeView::Phrase { label: last->label, tokens: last->tokens.push((word, pos)) };
            let t2 = tree.update(tree.len() - 1, new_last);
            assert(t2.drop_last() =~= tree.drop_last());
        } else {
            let n = NodeView::Token { word, tag: pos };
            assert(tree.push(n).drop_last() =~= tree);
        }
    }
}

/// Converts an IOB-tagged sentence into a parse tree.
pub fn iob_to_tree(chunked: &[ChunkedToken]) -> (tree: Vec<ParseNode>)
    requires
        all_iob_readable(chunked.deep_view()),
    ensures
        tree.deep_view() == iob_tree(chunked.deep_view()),
{
    let ghost c = chunked.deep_view();
    let mut tree: Vec<ParseNode> = Vec::new();
    let mut k: usize = 0;
    while k < chunked.len()
        invariant
            c == chunked.deep_view(),
            all_iob_readable(c),
            k <= chunked@.len(),
            tree.deep_view() == iob_tree(c.take(k as int)),
        decreases chunked@.len() - k,
    {
        let ghost before = tree.deep_view();
        let word = &chunked[k].0;
        let pos = &chunked[k].1;
        let iob = &chunked[k].2;
        assert(c.take(k + 1).drop_last() =~= c.take(k as int));
        assert(c.take(k + 1).last() == c[k as int]);
        assert(iob_readable(c[k as int].2));
        if starts_with_char(iob.as_str(), 'B') {
            let n = iob.as_str().unicode_len();
            let label = String::from_str(iob.as_str().substring_char(2, n));
            let mut tokens: Vec<(String, String)> = Vec::new();
            tokens.push((word.clone(), pos.clone()));
            let node = ParseNode::Phrase { label, tokens };
            assert(node.deep_view() == NodeView::Phrase { label: iob@.skip(2), tokens: seq![(word@, pos@)] }) by {
                assert(node.deep_view()->tokens =~= seq![(word@, pos@)]);
                assert(iob@.subrange(2, n as int) =~= iob@.skip(2));
            }
            tree.push(node);
            assert(tree.deep_view() =~= before.push(node.deep_view()));
        } else if starts_with_char(iob.as_str(), 'I') {
            let last = tree.pop();
            match last {
                Some(ParseNode::Phrase { label, mut tokens }) => {
                    let ghost old_tokens = tokens.deep_view();
                    tokens.push((word.clone(), pos.clone()));
                    assert(tokens.deep_view() =~= old_tokens.push((word@, pos@)));
                    let node = ParseNode::Phrase { label, tokens };
                    tree.push(node);
                    assert(tree.deep_view() =~= before.update(before.len() - 1, node.deep_view()));
                },
                Some(other) => {
                    tree.push(other);
                    let node = ParseNode::Token { word: word.clone(), tag: pos.clone() };
                    tree.push(node);
                    assert(tree.deep_view() =~= before.push(node.deep_view()));
                },
                None => {
                    let node = ParseNode::Token { word: word.clone(), tag: pos.clone() };
                    tree.push(node);
                    assert(tree.deep_view() =~= before.push(node.deep_view()));
                },
            }
        } else {
            let node = ParseNode::Token { word: word.clone(), tag: pos.clone() };
            tree.push(node);
            assert(tree.deep_view() =~= before.push(node.deep_view()));
        }
        k = k + 1;
    }
    assert(c.take(chunked@.len() as int) =~= c);
    tree
}

/// The bracketed text of one node.
fn node_brackets(node: &ParseNode) -> (r: String)
    ensures
        r@ == node_text(node.deep_view()),
{
    match node {
        ParseNode::Phrase { label, tokens } => {
            let mut words: Vec<String> = Vec::new();
            let mut i: usize = 0;
            while i < tokens.len()
                invariant
                    i <= tokens@.len(),
                    words.deep_view() =~= tokens.deep_view().map_values(
                        |t: (Seq<char>, Seq<char>)| t.0,
                    ).take(i as int),
                decreases tokens@.len() - i,
            {
                let ghost prev = words.deep_view();
                let w = tokens[i].0.clone();
                words.push(w);
                assert(words.deep_view() =~= prev.push(tokens.deep_view()[i as int].0));
                i = i + 1;
            }
            assert(words.deep_view() =~= tokens.deep_view().map_values(
                |t: (Seq<char>, Seq<char>)| t.0,
            ));
            let mut r = String::from_str("[");
            let joined = join_texts(&words, " ");
            r.append(joined.as_str());
            r.append(" ");
            r.append(label.as_str());
            r.append("]");
            r
        },
        ParseNode::Token { word, .. } => word.clone(),
    }
}

/// Formats a parse tree as a bracketed string: each phrase as
/// `[w1 w2 ... LABEL]`, each lone token as its word, all separated by spaces.
pub fn tree2brackets(tree: &[ParseNode]) -> (r: String)
    ensures
        r@ == brackets(tree.deep_view()),
{
    let mut parts: Vec<String> = Vec::new();
    let mut i: usize = 0;
    while i < tree.len()
        invariant
            i <= tree@.len(),
            parts.deep_view() =~= tree.deep_view().map_values(|n: NodeView| node_text(n)).take(i as int),
        decreases tree@.len() - i,
    {
        let part = node_brackets(&tree[i]);
        let ghost prev = parts.deep_view();
        let ghost pv = part@;
        parts.push(part);
        assert(parts.deep_view() =~= prev.push(pv));
        i = i + 1;
    }
    assert(parts.deep_view() =~= tree.deep_view().map_values(|n: NodeView| node_text(n)));
    join_texts(&parts, " ")
}

/// The grammatical category that the rule-based chunker reads from a POS tag.
#[derive(Debug, Clone, Copy, PartialEq, Eq, Structural)]
pub enum Cat {
    /// Noun.
    N,
    /// Noun with ezafe.
    Ne,
    /// Verb.
    V,
    /// Adjective.
    AJ,
    /// Adjective with ezafe.
    AJe,
    /// Determiner.
    DET,
    /// Determiner with ezafe.
    DETe,
    /// Numeral.
    NUM,
    /// Numeral with ezafe.
    NUMe,
    /// Preposition.
    P,
    /// Adverb.
    ADV,
    /// Adverb with ezafe.
    ADVe,
    /// Pronoun.
    PRO,
    /// Classifier.
    CL,
    /// Residual.
    RES,
    /// Residual with ezafe.
    RESe,
    /// Postposition.
    POSTP,
    /// Anything else.
    Other,
}

/// The category of a POS tag.  The checks are tried in this order, so that a
/// tag with ezafe is not taken for the plain form; `ADP`, the universal tag
/// of the postposition `را`, counts as a postposition.
pub open spec fn cat_of(t: Seq<char>) -> Cat {
    if t == "N,EZ"@ || t == "NOUN,EZ"@ {
        Cat::Ne
    } else if t == "N"@ || begins_with(t, "N,"@) || t == "NOUN"@ || begins_with(t, "NOUN,"@) {
        Cat::N
    } else if begins_with(t, "V"@) || begins_with(t, "VERB"@) {
        Cat::V
    } else if t == "AJ,EZ"@ || t == "ADJ,EZ"@ {
        Cat::AJe
    } else if t == "AJ"@ || begins_with(t, "AJ,"@) || t == "ADJ"@ || begins_with(t, "ADJ,"@) {
        Cat::AJ
    } else if t == "DET"@ {
        Cat::DET
    } else if t == "DET,EZ"@ {
        Cat::DETe
    } else if t == "NUM"@ {
        Cat::NUM
    } else if t == "NUM,EZ"@ {
        Cat::NUMe
    } else if begins_with(t, "P"@) && !begins_with(t, "PR"@) && !begins_with(t, "PU"@) {
        Cat::P
    } else if t == "ADV"@ {
        Cat::ADV
    } else if t == "ADV,EZ"@ {
        Cat::ADVe
    } else if begins_with(t, "PRO"@) || begins_with(t, "PRON"@) {
        Cat::PRO
    } else if t == "CL"@ {
        Cat::CL
    } else if t == "RES"@ {
        Cat::RES
    } else if t == "RES,EZ"@ {
        Cat::RESe
    } else if t == "POSTP"@ || t == "ADP"@ {
        Cat::POSTP
    } else {
        Cat::Other
    }
}

/// The categories that a noun phrase is made of.
pub open spec fn np_cat(c: Cat) -> bool {
    c == Cat::DET || c == Cat::DETe || c == Cat::N || c == Cat::Ne || c == Cat::NUM || c == Cat::NUMe
        || c == Cat::AJe || c == Cat::PRO || c == Cat::CL || c == Cat::RES || c == Cat::RESe
}

/// The IOB tag that the grammar rules give to position `i` of a sentence
/// whose tokens have the categories `cats`: a verb is a verb phrase of its
/// own; a run of noun-phrase categories is one noun phrase; a run of
/// prepositions is one prepositional phrase; a plain adjective, an adverb
/// and a postposition are phrases of their own; anything else is outside.
pub open spec fn rule_iob(cats: Seq<Cat>, i: int) -> Seq<char> {
    let c = cats[i];
    if c == Cat::V {
        "B-VP"@
    } else if np_cat(c) {
        if i > 0 && np_cat(cats[i - 1]) {
            "I-NP"@
        } else {
            "B-NP"@
        }
    } else if c == Cat::AJ {
        "B-ADJP"@
    } else if c == Cat::ADV || c == Cat::ADVe {
        "B-ADVP"@
    } else if c == Cat::P {
        if i > 0 && cats[i - 1] == Cat::P {
            "I-PP"@
        } else {
            "B-PP"@
        }
    } else if c == Cat::POSTP {
        "B-POSTP"@
    } else {
        "O"@
    }
}

/// The categories of the POS tags of a tagged sentence.
pub open spec fn cats_of(tagged: Seq<(Seq<char>, Seq<char>)>) -> Seq<Cat> {
    tagged.map_values(|t: (Seq<char>, Seq<char>)| cat_of(t.1))
}

/// A tagged sentence chunked by the grammar rules.
pub open spec fn rule_chunking(tagged: Seq<(Seq<char>, Seq<char>)>) -> Seq<TokenView> {
    Seq::new(tagged.len(), |i: int| (tagged[i].0, tagged[i].1, rule_iob(cats_of(tagged), i)))
}

/// The category that the rules read from a POS tag: `N,EZ`/`NOUN,EZ` are
/// nouns with ezafe; `N`, `NOUN` and their other comma forms are nouns; a tag
/// beginning with `V` is a verb; `AJ,EZ`/`ADJ,EZ` are adjectives with ezafe and
/// `AJ`, `ADJ` and their other comma forms plain adjectives; `DET`, `NUM`,
/// `ADV`, `RES` and their `,EZ` forms, `CL`, and a tag beginning with `PRO`
/// have their own categories; a tag beginning with `P` but not `PR` or `PU`
/// (so `POSTP` too) is a preposition; `ADP` is a postposition.
pub proof fn lemma_category_table(t: Seq<char>)
    ensures
        (t == "N,EZ"@ || t == "NOUN,EZ"@) ==> cat_of(t) == Cat::Ne,
        (t == "N"@ || t == "NOUN"@) ==> cat_of(t) == Cat::N,
        (begins_with(t, "N,"@) && t != "N,EZ"@) ==> cat_of(t) == Cat::N,
        (begins_with(t, "NOUN,"@) && t != "NOUN,EZ"@) ==> cat_of(t) == Cat::N,
        begins_with(t, "V"@) ==> cat_of(t) == Cat::V,
        (t == "AJ,EZ"@ || t == "ADJ,EZ"@) ==> cat_of(t) == Cat::AJe,
        (t == "AJ"@ || t == "ADJ"@) ==> cat_of(t) == Cat::AJ,
        (begins_with(t, "AJ,"@) && t != "AJ,EZ"@) ==> cat_of(t) == Cat::AJ,
        (begins_with(t, "ADJ,"@) && t != "ADJ,EZ"@) ==> cat_of(t) == Cat::AJ,
        t == "DET"@ ==> cat_of(t) == Cat::DET,
        t == "DET,EZ"@ ==> cat_of(t) == Cat::DETe,
        t == "NUM"@ ==> cat_of(t) == Cat::NUM,
        t == "NUM,EZ"@ ==> cat_of(t) == Cat::NUMe,
        (begins_with(t, "P"@) && !begins_with(t, "PR"@) && !begins_with(t, "PU"@)) ==> cat_of(t) == Cat::P,
        t == "ADV"@ ==> cat_of(t) == Cat::ADV,
        t == "ADV,EZ"@ ==> cat_of(t) == Cat::ADVe,
        begins_with(t, "PRO"@) ==> cat_of(t) == Cat::PRO,
        t == "CL"@ ==> cat_of(t) == Cat::CL,
        t == "RES"@ ==> cat_of(t) == Cat::RES,
        t == "RES,EZ"@ ==> cat_of(t) == Cat::RESe,
        t == "ADP"@ ==> cat_of(t) == Cat::POSTP,
{
    lemma_cat_of_n_ez();
    lemma_cat_of_noun_ez();
    lemma_cat_of_n();
    lemma_cat_of_noun();
    lemma_cat_of_aj_ez();
    lemma_cat_of_adj_ez();
    lemma_cat_of_aj();
    lemma_cat_of_adj();
    lemma_cat_of_det();
    lemma_cat_of_det_ez();
    lemma_cat_of_num();
    lemma_cat_of_num_ez();
    lemma_cat_of_adv();
    lemma_cat_of_adv_ez();
    lemma_cat_of_cl();
    lemma_cat_of_res();
    lemma_cat_of_res_ez();
    lemma_cat_of_adp();
    if begins_with(t, "V"@) {
        assert(!begins_with(t, "N,EZ"@) && t != "N,EZ"@) by {
            reveal_strlit("V");
            reveal_strlit("N,EZ");
            assert("V"@.len() == 1);
            assert("N,EZ"@.len() == 4);
            assert("V"@[0] != "N,EZ"@[0]);
            lemma_not_begins(t, "V"@, "N,EZ"@, 0);
        }
        assert(!begins_with(t, "NOUN,EZ"@) && t != "NOUN,EZ"@) by {
            reveal_strlit("V");
            reveal_strlit("NOUN,EZ");
            assert("V"@.len() == 1);
            assert("NOUN,EZ"@.len() == 7);
            assert("V"@[0] != "NOUN,EZ"@[0]);
            lemma_not_begins(t, "V"@, "NOUN,EZ"@, 0);
        }
        assert(!begins_with(t, "N"@) && t != "N"@) by {
            reveal_strlit("V");
            reveal_strlit("N");
            assert("V"@.len() == 1);
            assert("N"@.len() == 1);
            assert("V"@[0] != "N"@[0]);
            lemma_not_begins(t, "V"@, "N"@, 0);
        }
        assert(!begins_with(t, "N,"@) && t != "N,"@) by {
            reveal_strlit("V");
            reveal_strlit("N,");
            assert("V"@.len() == 1);
            assert("N,"@.len() == 2);
            assert("V"@[0] != "N,"@[0]);
            lemma_not_begins(t, "V"@, "N,"@, 0);
        }
        assert(!begins_with(t, "NOUN"@) && t != "NOUN"@) by {
            reveal_strlit("V");
            reveal_strlit("NOUN");
            assert("V"@.len() == 1);
            assert("NOUN"@.len() == 4);
            assert("V"@[0] != "NOUN"@[0]);
            lemma_not_begins(t, "V"@, "NOUN"@, 0);
        }
        assert(!begins_with(t, "NOUN,"@) && t != "NOUN,"@) by {
            reveal_strlit("V");
            reveal_strlit("NOUN,");
            assert("V"@.len() == 1);
            assert("NOUN,"@.len() == 5);
            assert("V"@[0] != "NOUN,"@[0]);
            lemma_not_begins(t, "V"@, "NOUN,"@, 0);
        }
        assert(cat_of(t) == Cat::V);
    }
    if begins_with(t, "P"@) && !begins_with(t, "PR"@) && !begins_with(t, "PU"@) {
        assert(!begins_with(t, "N,EZ"@) && t != "N,EZ"@) by {
            reveal_strlit("P");
            reveal_strlit("N,EZ");
            assert("P"@.len() == 1);
            assert("N,EZ"@.len() == 4);
            assert("P"@[0] != "N,EZ"@[0]);
            lemma_not_begins(t, "P"@, "N,EZ"@, 0);
        }
        assert(!begins_with(t, "NOUN,EZ"@) && t != "NOUN,EZ"@) by {
            reveal_strlit("P");
            reveal_strlit("NOUN,EZ");
            assert("P"@.len() == 1);
            assert("NOUN,EZ"@.len() == 7);
            assert("P"@[0] != "NOUN,EZ"@[0]);
            lemma_not_begins(t, "P"@, "NOUN,EZ"@, 0);
        }
        assert(!begins_with(t, "N"@) && t != "N"@) by {
            reveal_strlit("P");
            reveal_strlit("N");
            assert("P"@.len() == 1);
            assert("N"@.len() == 1);
            assert("P"@[0] != "N"@[0]);
            lemma_not_begins(t, "P"@, "N"@, 0);
        }
        assert(!begins_with(t, "N,"@) && t != "N,"@) by {
            reveal_strlit("P");
            reveal_strlit("N,");
            assert("P"@.len() == 1);
            assert("N,"@.len() == 2);
            assert("P"@[0] != "N,"@[0]);
            lemma_not_begins(t, "P"@, "N,"@, 0);
        }
        assert(!begins_with(t, "NOUN"@) && t != "NOUN"@) by {
            reveal_strlit("P");
            reveal_strlit("NOUN");
            assert("P"@.len() == 1);
            assert("NOUN"@.len() == 4);
            assert("P"@[0] != "NOUN"@[0]);
            lemma_not_begins(t, "P"@, "NOUN"@, 0);
        }
        assert(!begins_with(t, "NOUN,"@) && t != "NOUN,"@) by {
            reveal_strlit("P");
            reveal_strlit("NOUN,");
            assert("P"@.len() == 1);
            assert("NOUN,"@.len() == 5);
            assert("P"@[0] != "NOUN,"@[0]);
            lemma_not_begins(t, "P"@, "NOUN,"@, 0);
        }
        assert(!begins_with(t, "V"@) && t != "V"@) by {
            reveal_strlit("P");
            reveal_strlit("V");
            assert("P"@.len() == 1);
            assert("V"@.len() == 1);
            assert("P"@[0] != "V"@[0]);
            lemma_not_begins(t, "P"@, "V"@, 0);
        }
        assert(!begins_with(t, "VERB"@) && t != "VERB"@) by {
            reveal_strlit("P");
            reveal_strlit("VERB");
            assert("P"@.len() == 1);
            assert("VERB"@.len() == 4);
            assert("P"@[0] != "VERB"@[0]);
            lemma_not_begins(t, "P"@, "VERB"@, 0);
        }
        assert(!begins_with(t, "AJ,EZ"@) && t != "AJ,EZ"@) by {
            reveal_strlit("P");
            reveal_strlit("AJ,EZ");
            assert("P"@.len() == 1);
            assert("AJ,EZ"@.len() == 5);
            assert("P"@[0] != "AJ,EZ"@[0]);
            lemma_not_begins(t, "P"@, "AJ,EZ"@, 0);
        }
        assert(!begins_with(t, "ADJ,EZ"@) && t != "ADJ,EZ"@) by {
            reveal_strlit("P");
            reveal_strlit("ADJ,EZ");
            assert("P"@.len() == 1);
            assert("ADJ,EZ"@.len() == 6);
            assert("P"@[0] != "ADJ,EZ"@[0]);
            lemma_not_begins(t, "P"@, "ADJ,EZ"@, 0);
        }
        assert(!begins_with(t, "AJ"@) && t != "AJ"@) by {
            reveal_strlit("P");
            reveal_strlit("AJ");
            assert("P"@.len() == 1);
            assert("AJ"@.len() == 2);
            assert("P"@[0] != "AJ"@[0]);
            lemma_not_begins(t, "P"@, "AJ"@, 0);
        }
        assert(!begins_with(t, "AJ,"@) && t != "AJ,"@) by {
            reveal_strlit("P");
            reveal_strlit("AJ,");
            assert("P"@.len() == 1);
            assert("AJ,"@.len() == 3);
            assert("P"@[0] != "AJ,"@[0]);
            lemma_not_begins(t, "P"@, "AJ,"@, 0);
        }
        assert(!begins_with(t, "ADJ"@) && t != "ADJ"@) by {
            reveal_strlit("P");
            reveal_strlit("ADJ");
            assert("P"@.len() == 1);
            assert("ADJ"@.len() == 3);
            assert("P"@[0] != "ADJ"@[0]);
            lemma_not_begins(t, "P"@, "ADJ"@, 0);
        }
        assert(!begins_with(t, "ADJ,"@) && t != "ADJ,"@) by {
            reveal_strlit("P");
            reveal_strlit("ADJ,");
            assert("P"@.len() == 1);
            assert("ADJ,"@.len() == 4);
            assert("P"@[0] != "ADJ,"@[0]);
            lemma_not_begins(t, "P"@, "ADJ,"@, 0);
        }
        assert(!begins_with(t, "DET"@) && t != "DET"@) by {
            reveal_strlit("P");
            reveal_strlit("DET");
            assert("P"@.len() == 1);
            assert("DET"@.len() == 3);
            assert("P"@[0] != "DET"@[0]);
            lemma_not_begins(t, "P"@, "DET"@, 0);
        }
        assert(!begins_with(t, "DET,EZ"@) && t != "DET,EZ"@) by {
            reveal_strlit("P");
            reveal_strlit("DET,EZ");
            assert("P"@.len() == 1);
            assert("DET,EZ"@.len() == 6);
            assert("P"@[0] != "DET,EZ"@[0]);
            lemma_not_begins(t, "P"@, "DET,EZ"@, 0);
        }
        assert(!begins_with(t, "NUM"@) && t != "NUM"@) by {
            reveal_strlit("P");
            reveal_strlit("NUM");
            assert("P"@.len() == 1);
            assert("NUM"@.len() == 3);
            assert("P"@[0] != "NUM"@[0]);
            lemma_not_begins(t, "P"@, "NUM"@, 0);
        }
        assert(!begins_with(t, "NUM,EZ"@) && t != "NUM,EZ"@) by {
            reveal_strlit("P");
            reveal_strlit("NUM,EZ");
            assert("P"@.len() == 1);
            assert("NUM,EZ"@.len() == 6);
            assert("P"@[0] != "NUM,EZ"@[0]);
            lemma_not_begins(t, "P"@, "NUM,EZ"@, 0);
        }
        assert(cat_of(t) == Cat::P);
    }
    if begins_with(t, "PRO"@) {
        assert(!begins_with(t, "N,EZ"@) && t != "N,EZ"@) by {
            reveal_strlit("PRO");
            reveal_strlit("N,EZ");
            assert("PRO"@.len() == 3);
            assert("N,EZ"@.len() == 4);
            assert("PRO"@[0] != "N,EZ"@[0]);
            lemma_not_begins(t, "PRO"@, "N,EZ"@, 0);
        }
        assert(!begins_with(t, "NOUN,EZ"@) && t != "NOUN,EZ"@) by {
            reveal_strlit("PRO");
            reveal_strlit("NOUN,EZ");
            assert("PRO"@.len() == 3);
            assert("NOUN,EZ"@.len() == 7);
            assert("PRO"@[0] != "NOUN,EZ"@[0]);
            lemma_not_begins(t, "PRO"@, "NOUN,EZ"@, 0);
        }
        assert(!begins_with(t, "N"@) && t != "N"@) by {
            reveal_strlit("PRO");
            reveal_strlit("N");
            assert("PRO"@.len() == 3);
            assert("N"@.len() == 1);
            assert("PRO"@[0] != "N"@[0]);
            lemma_not_begins(t, "PRO"@, "N"@, 0);
        }
        assert(!begins_with(t, "N,"@) && t != "N,"@) by {
            reveal_strlit("PRO");
            reveal_strlit("N,");
            assert("PRO"@.len() == 3);
            assert("N,"@.len() == 2);
            assert("PRO"@[0] != "N,"@[0]);
            lemma_not_begins(t, "PRO"@, "N,"@, 0);
        }
        assert(!begins_with(t, "NOUN"@) && t != "NOUN"@) by {
            reveal_strlit("PRO");
            reveal_strlit("NOUN");
            assert("PRO"@.len() == 3);
            assert("NOUN"@.len() == 4);
            assert("PRO"@[0] != "NOUN"@[0]);
            lemma_not_begins(t, "PRO"@, "NOUN"@, 0);
        }
        assert(!begins_with(t, "NOUN,"@) && t != "NOUN,"@) by {
            reveal_strlit("PRO");
            reveal_strlit("NOUN,");
            assert("PRO"@.len() == 3);
            assert("NOUN,"@.len() == 5);
            assert("PRO"@[0] != "NOUN,"@[0]);
            lemma_not_begins(t, "PRO"@, "NOUN,"@, 0);
        }
        assert(!begins_with(t, "V"@) && t != "V"@) by {
            reveal_strlit("PRO");
            reveal_strlit("V");
            assert("PRO"@.len() == 3);
            assert("V"@.len() == 1);
            assert("PRO"@[0] != "V"@[0]);
            lemma_not_begins(t, "PRO"@, "V"@, 0);
        }
        assert(!begins_with(t, "VERB"@) && t != "VERB"@) by {
            reveal_strlit("PRO");
            reveal_strlit("VERB");
            assert("PRO"@.len() == 3);
            assert("VERB"@.len() == 4);
            assert("PRO"@[0] != "VERB"@[0]);
            lemma_not_begins(t, "PRO"@, "VERB"@, 0);
        }
        assert(!begins_with(t, "AJ,EZ"@) && t != "AJ,EZ"@) by {
            reveal_strlit("PRO");
            reveal_strlit("AJ,EZ");
            assert("PRO"@.len() == 3);
            assert("AJ,EZ"@.len() == 5);
            assert("PRO"@[0] != "AJ,EZ"@[0]);
            lemma_not_begins(t, "PRO"@, "AJ,EZ"@, 0);
        }
        assert(!begins_with(t, "ADJ,EZ"@) && t != "ADJ,EZ"@) by {
            reveal_strlit("PRO");
            reveal_strlit("ADJ,EZ");
            assert("PRO"@.len() == 3);
            assert("ADJ,EZ"@.len() == 6);
            assert("PRO"@[0] != "ADJ,EZ"@[0]);
            lemma_not_begins(t, "PRO"@, "ADJ,EZ"@, 0);
        }
        assert(!begins_with(t, "AJ"@) && t != "AJ"@) by {
            reveal_strlit("PRO");
            reveal_strlit("AJ");
            assert("PRO"@.len() == 3);
            assert("AJ"@.len() == 2);
            assert("PRO"@[0] != "AJ"@[0]);
            lemma_not_begins(t, "PRO"@, "AJ"@, 0);
        }
        assert(!begins_with(t, "AJ,"@) && t != "AJ,"@) by {
            reveal_strlit("PRO");
            reveal_strlit("AJ,");
            assert("PRO"@.len() == 3);
            assert("AJ,"@.len() == 3);
            assert("PRO"@[0] != "AJ,"@[0]);
            lemma_not_begins(t, "PRO"@, "AJ,"@, 0);
        }
        assert(!begins_with(t, "ADJ"@) && t != "ADJ"@) by {
            reveal_strlit("PRO");
            reveal_strlit("ADJ");
            assert("PRO"@.len() == 3);
            assert("ADJ"@.len() == 3);
            assert("PRO"@[0] != "ADJ"@[0]);
            lemma_not_begins(t, "PRO"@, "ADJ"@, 0);
        }
        assert(!begins_with(t, "ADJ,"@) && t != "ADJ,"@) by {
            reveal_strlit("PRO");
            reveal_strlit("ADJ,");
            assert("PRO"@.len() == 3);
            assert("ADJ,"@.len() == 4);
            assert("PRO"@[0] != "ADJ,"@[0]);
            lemma_not_begins(t, "PRO"@, "ADJ,"@, 0);
        }
        assert(!begins_with(t, "DET"@) && t != "DET"@) by {
            reveal_strlit("PRO");
            reveal_strlit("DET");
            assert("PRO"@.len() == 3);
            assert("DET"@.len() == 3);
            assert("PRO"@[0] != "DET"@[0]);
            lemma_not_begins(t, "PRO"@, "DET"@, 0);
        }
        assert(!begins_with(t, "DET,EZ"@) && t != "DET,EZ"@) by {
            reveal_strlit("PRO");
            reveal_strlit("DET,EZ");
            assert("PRO"@.len() == 3);
            assert("DET,EZ"@.len() == 6);
            assert("PRO"@[0] != "DET,EZ"@[0]);
            lemma_not_begins(t, "PRO"@, "DET,EZ"@, 0);
        }
        assert(!begins_with(t, "NUM"@) && t != "NUM"@) by {
            reveal_strlit("PRO");
            reveal_strlit("NUM");
            assert("PRO"@.len() == 3);
            assert("NUM"@.len() == 3);
            assert("PRO"@[0] != "NUM"@[0]);
            lemma_not_begins(t, "PRO"@, "NUM"@, 0);
        }
        assert(!begins_with(t, "NUM,EZ"@) && t != "NUM,EZ"@) by {
            reveal_strlit("PRO");
            reveal_strlit("NUM,EZ");
            assert("PRO"@.len() == 3);
            assert("NUM,EZ"@.len() == 6);
            assert("PRO"@[0] != "NUM,EZ"@[0]);
            lemma_not_begins(t, "PRO"@, "NUM,EZ"@, 0);
        }
        assert(begins_with(t, "P"@)) by {
            reveal_strlit("PRO");
            reveal_strlit("P");
            lemma_begins_with_chars(t, "PRO"@);
            assert(t.take(1) =~= "P"@);
        }
        assert(begins_with(t, "PR"@)) by {
            reveal_strlit("PRO");
            reveal_strlit("PR");
            lemma_begins_with_chars(t, "PRO"@);
            assert(t.take(2) =~= "PR"@);
        }
        assert(!begins_with(t, "PU"@) && t != "PU"@) by {
            reveal_strlit("PRO");
            reveal_strlit("PU");
            assert("PRO"@.len() == 3);
            assert("PU"@.len() == 2);
            assert("PRO"@[1] != "PU"@[1]);
            lemma_not_begins(t, "PRO"@, "PU"@, 1);
        }
        assert(!begins_with(t, "ADV"@) && t != "ADV"@) by {
            reveal_strlit("PRO");
            reveal_strlit("ADV");
            assert("PRO"@.len() == 3);
            assert("ADV"@.len() == 3);
            assert("PRO"@[0] != "ADV"@[0]);
            lemma_not_begins(t, "PRO"@, "ADV"@, 0);
        }
        assert(!begins_with(t, "ADV,EZ"@) && t != "ADV,EZ"@) by {
            reveal_strlit("PRO");
            reveal_strlit("ADV,EZ");
            assert("PRO"@.len() == 3);
            assert("ADV,EZ"@.len() == 6);
            assert("PRO"@[0] != "ADV,EZ"@[0]);
            lemma_not_begins(t, "PRO"@, "ADV,EZ"@, 0);
        }
        assert(cat_of(t) == Cat::PRO);
    }
    if begins_with(t, "N,"@) && t != "N,EZ"@ {
        assert(!begins_with(t, "NOUN,EZ"@) && t != "NOUN,EZ"@) by {
            reveal_strlit("N,");
            reveal_strlit("NOUN,EZ");
            assert("N,"@.len() == 2);
            assert("NOUN,EZ"@.len() == 7);
            assert("N,"@[1] != "NOUN,EZ"@[1]);
            lemma_not_begins(t, "N,"@, "NOUN,EZ"@, 1);
        }
        assert(cat_of(t) == Cat::N);
    }
    if begins_with(t, "NOUN,"@) && t != "NOUN,EZ"@ {
        assert(!begins_with(t, "N,EZ"@) && t != "N,EZ"@) by {
            reveal_strlit("NOUN,");
            reveal_strlit("N,EZ");
            assert("NOUN,"@.len() == 5);
            assert("N,EZ"@.len() == 4);
            assert("NOUN,"@[1] != "N,EZ"@[1]);
            lemma_not_begins(t, "NOUN,"@, "N,EZ"@, 1);
        }
        assert(cat_of(t) == Cat::N);
    }
    if begins_with(t, "AJ,"@) && t != "AJ,EZ"@ {
        assert(!begins_with(t, "N,EZ"@) && t != "N,EZ"@) by {
            reveal_strlit("AJ,");
            reveal_strlit("N,EZ");
            assert("AJ,"@.len() == 3);
            assert("N,EZ"@.len() == 4);
            assert("AJ,"@[0] != "N,EZ"@[0]);
            lemma_not_begins(t, "AJ,"@, "N,EZ"@, 0);
        }
        assert(!begins_with(t, "NOUN,EZ"@) && t != "NOUN,EZ"@) by {
            reveal_strlit("AJ,");
            reveal_strlit("NOUN,EZ");
            assert("AJ,"@.len() == 3);
            assert("NOUN,EZ"@.len() == 7);
            assert("AJ,"@[0] != "NOUN,EZ"@[0]);
            lemma_not_begins(t, "AJ,"@, "NOUN,EZ"@, 0);
        }
        assert(!begins_with(t, "N"@) && t != "N"@) by {
            reveal_strlit("AJ,");
            reveal_strlit("N");
            assert("AJ,"@.len() == 3);
            assert("N"@.len() == 1);
            assert("AJ,"@[0] != "N"@[0]);
            lemma_not_begins(t, "AJ,"@, "N"@, 0);
        }
        assert(!begins_with(t, "N,"@) && t != "N,"@) by {
            reveal_strlit("AJ,");
            reveal_strlit("N,");
            assert("AJ,"@.len() == 3);
            assert("N,"@.len() == 2);
            assert("AJ,"@[0] != "N,"@[0]);
            lemma_not_begins(t, "AJ,"@, "N,"@, 0);
        }
        assert(!begins_with(t, "NOUN"@) && t != "NOUN"@) by {
            reveal_strlit("AJ,");
            reveal_strlit("NOUN");
            assert("AJ,"@.len() == 3);
            assert("NOUN"@.len() == 4);
            assert("AJ,"@[0] != "NOUN"@[0]);
            lemma_not_begins(t, "AJ,"@, "NOUN"@, 0);
        }
        assert(!begins_with(t, "NOUN,"@) && t != "NOUN,"@) by {
            reveal_strlit("AJ,");
            reveal_strlit("NOUN,");
            assert("AJ,"@.len() == 3);
            assert("NOUN,"@.len() == 5);
            assert("AJ,"@[0] != "NOUN,"@[0]);
            lemma_not_begins(t, "AJ,"@, "NOUN,"@, 0);
        }
        assert(!begins_with(t, "V"@) && t != "V"@) by {
            reveal_strlit("AJ,");
            reveal_strlit("V");
            assert("AJ,"@.len() == 3);
            assert("V"@.len() == 1);
            assert("AJ,"@[0] != "V"@[0]);
            lemma_not_begins(t, "AJ,"@, "V"@, 0);
        }
        assert(!begins_with(t, "VERB"@) && t != "VERB"@) by {
            reveal_strlit("AJ,");
            reveal_strlit("VERB");
            assert("AJ,"@.len() == 3);
            assert("VERB"@.len() == 4);
            assert("AJ,"@[0] != "VERB"@[0]);
            lemma_not_begins(t, "AJ,"@, "VERB"@, 0);
        }
        assert(!begins_with(t, "ADJ,EZ"@) && t != "ADJ,EZ"@) by {
            reveal_strlit("AJ,");
            reveal_strlit("ADJ,EZ");
            assert("AJ,"@.len() == 3);
            assert("ADJ,EZ"@.len() == 6);
            assert("AJ,"@[1] != "ADJ,EZ"@[1]);
            lemma_not_begins(t, "AJ,"@, "ADJ,EZ"@, 1);
        }
        assert(cat_of(t) == Cat::AJ);
    }
    if begins_with(t, "ADJ,"@) && t != "ADJ,EZ"@ {
        assert(!begins_with(t, "N,EZ"@) && t != "N,EZ"@) by {
            reveal_strlit("ADJ,");
            reveal_strlit("N,EZ");
            assert("ADJ,"@.len() == 4);
            assert("N,EZ"@.len() == 4);
            assert("ADJ,"@[0] != "N,EZ"@[0]);
            lemma_not_begins(t, "ADJ,"@, "N,EZ"@, 0);
        }
        assert(!begins_with(t, "NOUN,EZ"@) && t != "NOUN,EZ"@) by {
            reveal_strlit("ADJ,");
            reveal_strlit("NOUN,EZ");
            assert("ADJ,"@.len() == 4);
            assert("NOUN,EZ"@.len() == 7);
            assert("ADJ,"@[0] != "NOUN,EZ"@[0]);
            lemma_not_begins(t, "ADJ,"@, "NOUN,EZ"@, 0);
        }
        assert(!begins_with(t, "N"@) && t != "N"@) by {
            reveal_strlit("ADJ,");
            reveal_strlit("N");
            assert("ADJ,"@.len() == 4);
            assert("N"@.len() == 1);
            assert("ADJ,"@[0] != "N"@[0]);
            lemma_not_begins(t, "ADJ,"@, "N"@, 0);
        }
        assert(!begins_with(t, "N,"@) && t != "N,"@) by {
            reveal_strlit("ADJ,");
            reveal_strlit("N,");
            assert("ADJ,"@.len() == 4);
            assert("N,"@.len() == 2);
            assert("ADJ,"@[0] != "N,"@[0]);
            lemma_not_begins(t, "ADJ,"@, "N,"@, 0);
        }
        assert(!begins_with(t, "NOUN"@) && t != "NOUN"@) by {
            reveal_strlit("ADJ,");
            reveal_strlit("NOUN");
            assert("ADJ,"@.len() == 4);
            assert("NOUN"@.len() == 4);
            assert("ADJ,"@[0] != "NOUN"@[0]);
            lemma_not_begins(t, "ADJ,"@, "NOUN"@, 0);
        }
        assert(!begins_with(t, "NOUN,"@) && t != "NOUN,"@) by {
            reveal_strlit("ADJ,");
            reveal_strlit("NOUN,");
            assert("ADJ,"@.len() == 4);
            assert("NOUN,"@.len() == 5);
            assert("ADJ,"@[0] != "NOUN,"@[0]);
            lemma_not_begins(t, "ADJ,"@, "NOUN,"@, 0);
        }
        assert(!begins_with(t, "V"@) && t != "V"@) by {
            reveal_strlit("ADJ,");
            reveal_strlit("V");
            assert("ADJ,"@.len() == 4);
            assert("V"@.len() == 1);
            assert("ADJ,"@[0] != "V"@[0]);
            lemma_not_begins(t, "ADJ,"@, "V"@, 0);
        }
        assert(!begins_with(t, "VERB"@) && t != "VERB"@) by {
            reveal_strlit("ADJ,");
            reveal_strlit("VERB");
            assert("ADJ,"@.len() == 4);
            assert("VERB"@.len() == 4);
            assert("ADJ,"@[0] != "VERB"@[0]);
            lemma_not_begins(t, "ADJ,"@, "VERB"@, 0);
        }
        assert(!begins_with(t, "AJ,EZ"@) && t != "AJ,EZ"@) by {
            reveal_strlit("ADJ,");
            reveal_strlit("AJ,EZ");
            assert("ADJ,"@.len() == 4);
            assert("AJ,EZ"@.len() == 5);
            assert("ADJ,"@[1] != "AJ,EZ"@[1]);
            lemma_not_begins(t, "ADJ,"@, "AJ,EZ"@, 1);
        }
        assert(cat_of(t) == Cat::AJ);
    }
}

/// The category of the tag `N,EZ`.
proof fn lemma_cat_of_n_ez()
    ensures
        cat_of("N,EZ"@) == Cat::Ne,
{
    assert(("N,EZ"@ == "NOUN,EZ"@) == false) by {
        reveal_strlit("N,EZ");
        reveal_strlit("NOUN,EZ");
        assert("N,EZ"@.len() == 4);
        assert("NOUN,EZ"@.len() == 7);
    }
    assert(("N,EZ"@ == "N"@) == false) by {
        reveal_strlit("N,EZ");
        reveal_strlit("N");
        assert("N,EZ"@.len() == 4);
        assert("N"@.len() == 1);
    }
    assert(begins_with("N,EZ"@, "N,"@) == true) by {
        reveal_strlit("N,EZ");
        reveal_strlit("N,");
        assert("N,EZ"@.take(2) =~= "N,"@);
    }
    assert(("N,EZ"@ == "NOUN"@) == false) by {
        reveal_strlit("N,EZ");
        reveal_strlit("NOUN");
        assert("N,EZ"@.len() == 4);
        assert("NOUN"@.len() == 4);
        assert("N,EZ"@[1] != "NOUN"@[1]);
    }
    assert(begins_with("N,EZ"@, "NOUN,"@) == false) by {
        reveal_strlit("N,EZ");
        reveal_strlit("NOUN,");
    }
    assert(begins_with("N,EZ"@, "V"@) == false) by {
        reveal_strlit("N,EZ");
        reveal_strlit("V");
        assert("N,EZ"@.take(1)[0] != "V"@[0]);
    }
    assert(begins_with("N,EZ"@, "VERB"@) == false) by {
        reveal_strlit("N,EZ");
        reveal_strlit("VERB");
        assert("N,EZ"@.take(4)[0] != "VERB"@[0]);
    }
    assert(("N,EZ"@ == "AJ,EZ"@) == false) by {
        reveal_strlit("N,EZ");
        reveal_strlit("AJ,EZ");
        assert("N,EZ"@.len() == 4);
        assert("AJ,EZ"@.len() == 5);
    }
    assert(("N,EZ"@ == "ADJ,EZ"@) == false) by {
        reveal_strlit("N,EZ");
        reveal_strlit("ADJ,EZ");
        assert("N,EZ"@.len() == 4);
        assert("ADJ,EZ"@.len() == 6);
    }
    assert(("N,EZ"@ == "AJ"@) == false) by {
        reveal_strlit("N,EZ");
        reveal_strlit("AJ");
        assert("N,EZ"@.len() == 4);
        assert("AJ"@.len() == 2);
    }
    assert(begins_with("N,EZ"@, "AJ,"@) == false) by {
        reveal_strlit("N,EZ");
        reveal_strlit("AJ,");
        assert("N,EZ"@.take(3)[0] != "AJ,"@[0]);
    }
    assert(("N,EZ"@ == "ADJ"@) == false) by {
        reveal_strlit("N,EZ");
        reveal_strlit("ADJ");
        assert("N,EZ"@.len() == 4);
        assert("ADJ"@.len() == 3);
    }
    assert(begins_with("N,EZ"@, "ADJ,"@) == false) by {
        reveal_strlit("N,EZ");
        reveal_strlit("ADJ,");
        assert("N,EZ"@.take(4)[0] != "ADJ,"@[0]);
    }
    assert(("N,EZ"@ == "DET"@) == false) by {
        reveal_strlit("N,EZ");
        reveal_strlit("DET");
        assert("N,EZ"@.len() == 4);
        assert("DET"@.len() == 3);
    }
    assert(("N,EZ"@ == "DET,EZ"@) == false) by {
        reveal_strlit("N,EZ");
        reveal_strlit("DET,EZ");
        assert("N,EZ"@.len() == 4);
        assert("DET,EZ"@.len() == 6);
    }
    assert(("N,EZ"@ == "NUM"@) == false) by {
        reveal_strlit("N,EZ");
        reveal_strlit("NUM");
        assert("N,EZ"@.len() == 4);
        assert("NUM"@.len() == 3);
    }
    assert(("N,EZ"@ == "NUM,EZ"@) == false) by {
        reveal_strlit("N,EZ");
        reveal_strlit("NUM,EZ");
        assert("N,EZ"@.len() == 4);
        assert("NUM,EZ"@.len() == 6);
    }
    assert(begins_with("N,EZ"@, "P"@) == false) by {
        reveal_strlit("N,EZ");
        reveal_strlit("P");
        assert("N,EZ"@.take(1)[0] != "P"@[0]);
    }
    assert(begins_with("N,EZ"@, "PR"@) == false) by {
        reveal_strlit("N,EZ");
        reveal_strlit("PR");
        assert("N,EZ"@.take(2)[0] != "PR"@[0]);
    }
    assert(begins_with("N,EZ"@, "PU"@) == false) by {
        reveal_strlit("N,EZ");
        reveal_strlit("PU");
        assert("N,EZ"@.take(2)[0] != "PU"@[0]);
    }
    assert(("N,EZ"@ == "ADV"@) == false) by {
        reveal_strlit("N,EZ");
        reveal_strlit("ADV");
        assert("N,EZ"@.len() == 4);
        assert("ADV"@.len() == 3);
    }
    assert(("N,EZ"@ == "ADV,EZ"@) == false) by {
        reveal_strlit("N,EZ");
        reveal_strlit("ADV,EZ");
        assert("N,EZ"@.len() == 4);
        assert("ADV,EZ"@.len() == 6);
    }
    assert(begins_with("N,EZ"@, "PRO"@) == false) by {
        reveal_strlit("N,EZ");
        reveal_strlit("PRO");
        assert("N,EZ"@.take(3)[0] != "PRO"@[0]);
    }
    assert(begins_with("N,EZ"@, "PRON"@) == false) by {
        reveal_strlit("N,EZ");
        reveal_strlit("PRON");
        assert("N,EZ"@.take(4)[0] != "PRON"@[0]);
    }
    assert(("N,EZ"@ == "CL"@) == false) by {
        reveal_strlit("N,EZ");
        reveal_strlit("CL");
        assert("N,EZ"@.len() == 4);
        assert("CL"@.len() == 2);
    }
    assert(("N,EZ"@ == "RES"@) == false) by {
        reveal_strlit("N,EZ");
        reveal_strlit("RES");
        assert("N,EZ"@.len() == 4);
        assert("RES"@.len() == 3);
    }
    assert(("N,EZ"@ == "RES,EZ"@) == false) by {
        reveal_strlit("N,EZ");
        reveal_strlit("RES,EZ");
        assert("N,EZ"@.len() == 4);
        assert("RES,EZ"@.len() == 6);
    }
    assert(("N,EZ"@ == "POSTP"@) == false) by {
        reveal_strlit("N,EZ");
        reveal_strlit("POSTP");
        assert("N,EZ"@.len() == 4);
        assert("POSTP"@.len() == 5);
    }
    assert(("N,EZ"@ == "ADP"@) == false) by {
        reveal_strlit("N,EZ");
        reveal_strlit("ADP");
        assert("N,EZ"@.len() == 4);
        assert("ADP"@.len() == 3);
    }
}

/// The category of the tag `NOUN,EZ`.
proof fn lemma_cat_of_noun_ez()
    ensures
        cat_of("NOUN,EZ"@) == Cat::Ne,
{
    assert(("NOUN,EZ"@ == "N,EZ"@) == false) by {
        reveal_strlit("NOUN,EZ");
        reveal_strlit("N,EZ");
        assert("NOUN,EZ"@.len() == 7);
        assert("N,EZ"@.len() == 4);
    }
    assert(("NOUN,EZ"@ == "N"@) == false) by {
        reveal_strlit("NOUN,EZ");
        reveal_strlit("N");
        assert("NOUN,EZ"@.len() == 7);
        assert("N"@.len() == 1);
    }
    assert(begins_with("NOUN,EZ"@, "N,"@) == false) by {
        reveal_strlit("NOUN,EZ");
        reveal_strlit("N,");
        assert("NOUN,EZ"@.take(2)[1] != "N,"@[1]);
    }
    assert(("NOUN,EZ"@ == "NOUN"@) == false) by {
        reveal_strlit("NOUN,EZ");
        reveal_strlit("NOUN");
        assert("NOUN,EZ"@.len() == 7);
        assert("NOUN"@.len() == 4);
    }
    assert(begins_with("NOUN,EZ"@, "NOUN,"@) == true) by {
        reveal_strlit("NOUN,EZ");
        reveal_strlit("NOUN,");
        assert("NOUN,EZ"@.take(5) =~= "NOUN,"@);
    }
    assert(begins_with("NOUN,EZ"@, "V"@) == false) by {
        reveal_strlit("NOUN,EZ");
        reveal_strlit("V");
        assert("NOUN,EZ"@.take(1)[0] != "V"@[0]);
    }
    assert(begins_with("NOUN,EZ"@, "VERB"@) == false) by {
        reveal_strlit("NOUN,EZ");
        reveal_strlit("VERB");
        assert("NOUN,EZ"@.take(4)[0] != "VERB"@[0]);
    }
    assert(("NOUN,EZ"@ == "AJ,EZ"@) == false) by {
        reveal_strlit("NOUN,EZ");
        reveal_strlit("AJ,EZ");
        assert("NOUN,EZ"@.len() == 7);
        assert("AJ,EZ"@.len() == 5);
    }
    assert(("NOUN,EZ"@ == "ADJ,EZ"@) == false) by {
        reveal_strlit("NOUN,EZ");
        reveal_strlit("ADJ,EZ");
        assert("NOUN,EZ"@.len() == 7);
        assert("ADJ,EZ"@.len() == 6);
    }
    assert(("NOUN,EZ"@ == "AJ"@) == false) by {
        reveal_strlit("NOUN,EZ");
        reveal_strlit("AJ");
        assert("NOUN,EZ"@.len() == 7);
        assert("AJ"@.len() == 2);
    }
    assert(begins_with("NOUN,EZ"@, "AJ,"@) == false) by {
        reveal_strlit("NOUN,EZ");
        reveal_strlit("AJ,");
        assert("NOUN,EZ"@.take(3)[0] != "AJ,"@[0]);
    }
    assert(("NOUN,EZ"@ == "ADJ"@) == false) by {
        reveal_strlit("NOUN,EZ");
        reveal_strlit("ADJ");
        assert("NOUN,EZ"@.len() == 7);
        assert("ADJ"@.len() == 3);
    }
    assert(begins_with("NOUN,EZ"@, "ADJ,"@) == false) by {
        reveal_strlit("NOUN,EZ");
        reveal_strlit("ADJ,");
        assert("NOUN,EZ"@.take(4)[0] != "ADJ,"@[0]);
    }
    assert(("NOUN,EZ"@ == "DET"@) == false) by {
        reveal_strlit("NOUN,EZ");
        reveal_strlit("DET");
        assert("NOUN,EZ"@.len() == 7);
        assert("DET"@.len() == 3);
    }
    assert(("NOUN,EZ"@ == "DET,EZ"@) == false) by {
        reveal_strlit("NOUN,EZ");
        reveal_strlit("DET,EZ");
        assert("NOUN,EZ"@.len() == 7);
        assert("DET,EZ"@.len() == 6);
    }
    assert(("NOUN,EZ"@ == "NUM"@) == false) by {
        reveal_strlit("NOUN,EZ");
        reveal_strlit("NUM");
        assert("NOUN,EZ"@.len() == 7);
        assert("NUM"@.len() == 3);
    }
    assert(("NOUN,EZ"@ == "NUM,EZ"@) == false) by {
        reveal_strlit("NOUN,EZ");
        reveal_strlit("NUM,EZ");
        assert("NOUN,EZ"@.len() == 7);
        assert("NUM,EZ"@.len() == 6);
    }
    assert(begins_with("NOUN,EZ"@, "P"@) == false) by {
        reveal_strlit("NOUN,EZ");
        reveal_strlit("P");
        assert("NOUN,EZ"@.take(1)[0] != "P"@[0]);
    }
    assert(begins_with("NOUN,EZ"@, "PR"@) == false) by {
        reveal_strlit("NOUN,EZ");
        reveal_strlit("PR");
        assert("NOUN,EZ"@.take(2)[0] != "PR"@[0]);
    }
    assert(begins_with("NOUN,EZ"@, "PU"@) == false) by {
        reveal_strlit("NOUN,EZ");
        reveal_strlit("PU");
        assert("NOUN,EZ"@.take(2)[0] != "PU"@[0]);
    }
    assert(("NOUN,EZ"@ == "ADV"@) == false) by {
        reveal_strlit("NOUN,EZ");
        reveal_strlit("ADV");
        assert("NOUN,EZ"@.len() == 7);
        assert("ADV"@.len() == 3);
    }
    assert(("NOUN,EZ"@ == "ADV,EZ"@) == false) by {
        reveal_strlit("NOUN,EZ");
        reveal_strlit("ADV,EZ");
        assert("NOUN,EZ"@.len() == 7);
        assert("ADV,EZ"@.len() == 6);
    }
    assert(begins_with("NOUN,EZ"@, "PRO"@) == false) by {
        reveal_strlit("NOUN,EZ");
        reveal_strlit("PRO");
        assert("NOUN,EZ"@.take(3)[0] != "PRO"@[0]);
    }
    assert(begins_with("NOUN,EZ"@, "PRON"@) == false) by {
        reveal_strlit("NOUN,EZ");
        reveal_strlit("PRON");
        assert("NOUN,EZ"@.take(4)[0] != "PRON"@[0]);
    }
    assert(("NOUN,EZ"@ == "CL"@) == false) by {
        reveal_strlit("NOUN,EZ");
        reveal_strlit("CL");
        assert("NOUN,EZ"@.len() == 7);
        assert("CL"@.len() == 2);
    }
    assert(("NOUN,EZ"@ == "RES"@) == false) by {
        reveal_strlit("NOUN,EZ");
        reveal_strlit("RES");
        assert("NOUN,EZ"@.len() == 7);
        assert("RES"@.len() == 3);
    }
    assert(("NOUN,EZ"@ == "RES,EZ"@) == false) by {
        reveal_strlit("NOUN,EZ");
        reveal_strlit("RES,EZ");
        assert("NOUN,EZ"@.len() == 7);
        assert("RES,EZ"@.len() == 6);
    }
    assert(("NOUN,EZ"@ == "POSTP"@) == false) by {
        reveal_strlit("NOUN,EZ");
        reveal_strlit("POSTP");
        assert("NOUN,EZ"@.len() == 7);
        assert("POSTP"@.len() == 5);
    }
    assert(("NOUN,EZ"@ == "ADP"@) == false) by {
        reveal_strlit("NOUN,EZ");
        reveal_strlit("ADP");
        assert("NOUN,EZ"@.len() == 7);
        assert("ADP"@.len() == 3);
    }
}

/// The category of the tag `N`.
proof fn lemma_cat_of_n()
    ensures
        cat_of("N"@) == Cat::N,
{
    assert(("N"@ == "N,EZ"@) == false) by {
        reveal_strlit("N");
        reveal_strlit("N,EZ");
        assert("N"@.len() == 1);
        assert("N,EZ"@.len() == 4);
    }
    assert(("N"@ == "NOUN,EZ"@) == false) by {
        reveal_strlit("N");
        reveal_strlit("NOUN,EZ");
        assert("N"@.len() == 1);
        assert("NOUN,EZ"@.len() == 7);
    }
    assert(begins_with("N"@, "N,"@) == false) by {
        reveal_strlit("N");
        reveal_strlit("N,");
    }
    assert(("N"@ == "NOUN"@) == false) by {
        reveal_strlit("N");
        reveal_strlit("NOUN");
        assert("N"@.len() == 1);
        assert("NOUN"@.len() == 4);
    }
    assert(begins_with("N"@, "NOUN,"@) == false) by {
        reveal_strlit("N");
        reveal_strlit("NOUN,");
    }
    assert(begins_with("N"@, "V"@) == false) by {
        reveal_strlit("N");
        reveal_strlit("V");
        assert("N"@.take(1)[0] != "V"@[0]);
    }
    assert(begins_with("N"@, "VERB"@) == false) by {
        reveal_strlit("N");
        reveal_strlit("VERB");
    }
    assert(("N"@ == "AJ,EZ"@) == false) by {
        reveal_strlit("N");
        reveal_strlit("AJ,EZ");
        assert("N"@.len() == 1);
        assert("AJ,EZ"@.len() == 5);
    }
    assert(("N"@ == "ADJ,EZ"@) == false) by {
        reveal_strlit("N");
        reveal_strlit("ADJ,EZ");
        assert("N"@.len() == 1);
        assert("ADJ,EZ"@.len() == 6);
    }
    assert(("N"@ == "AJ"@) == false) by {
        reveal_strlit("N");
        reveal_strlit("AJ");
        assert("N"@.len() == 1);
        assert("AJ"@.len() == 2);
    }
    assert(begins_with("N"@, "AJ,"@) == false) by {
        reveal_strlit("N");
        reveal_strlit("AJ,");
    }
    assert(("N"@ == "ADJ"@) == false) by {
        reveal_strlit("N");
        reveal_strlit("ADJ");
        assert("N"@.len() == 1);
        assert("ADJ"@.len() == 3);
    }
    assert(begins_with("N"@, "ADJ,"@) == false) by {
        reveal_strlit("N");
        reveal_strlit("ADJ,");
    }
    assert(("N"@ == "DET"@) == false) by {
        reveal_strlit("N");
        reveal_strlit("DET");
        assert("N"@.len() == 1);
        assert("DET"@.len() == 3);
    }
    assert(("N"@ == "DET,EZ"@) == false) by {
        reveal_strlit("N");
        reveal_strlit("DET,EZ");
        assert("N"@.len() == 1);
        assert("DET,EZ"@.len() == 6);
    }
    assert(("N"@ == "NUM"@) == false) by {
        reveal_strlit("N");
        reveal_strlit("NUM");
        assert("N"@.len() == 1);
        assert("NUM"@.len() == 3);
    }
    assert(("N"@ == "NUM,EZ"@) == false) by {
        reveal_strlit("N");
        reveal_strlit("NUM,EZ");
        assert("N"@.len() == 1);
        assert("NUM,EZ"@.len() == 6);
    }
    assert(begins_with("N"@, "P"@) == false) by {
        reveal_strlit("N");
        reveal_strlit("P");
        assert("N"@.take(1)[0] != "P"@[0]);
    }
    assert(begins_with("N"@, "PR"@) == false) by {
        reveal_strlit("N");
        reveal_strlit("PR");
    }
    assert(begins_with("N"@, "PU"@) == false) by {
        reveal_strlit("N");
        reveal_strlit("PU");
    }
    assert(("N"@ == "ADV"@) == false) by {
        reveal_strlit("N");
        reveal_strlit("ADV");
        assert("N"@.len() == 1);
        assert("ADV"@.len() == 3);
    }
    assert(("N"@ == "ADV,EZ"@) == false) by {
        reveal_strlit("N");
        reveal_strlit("ADV,EZ");
        assert("N"@.len() == 1);
        assert("ADV,EZ"@.len() == 6);
    }
    assert(begins_with("N"@, "PRO"@) == false) by {
        reveal_strlit("N");
        reveal_strlit("PRO");
    }
    assert(begins_with("N"@, "PRON"@) == false) by {
        reveal_strlit("N");
        reveal_strlit("PRON");
    }
    assert(("N"@ == "CL"@) == false) by {
        reveal_strlit("N");
        reveal_strlit("CL");
        assert("N"@.len() == 1);
        assert("CL"@.len() == 2);
    }
    assert(("N"@ == "RES"@) == false) by {
        reveal_strlit("N");
        reveal_strlit("RES");
        assert("N"@.len() == 1);
        assert("RES"@.len() == 3);
    }
    assert(("N"@ == "RES,EZ"@) == false) by {
        reveal_strlit("N");
        reveal_strlit("RES,EZ");
        assert("N"@.len() == 1);
        assert("RES,EZ"@.len() == 6);
    }
    assert(("N"@ == "POSTP"@) == false) by {
        reveal_strlit("N");
        reveal_strlit("POSTP");
        assert("N"@.len() == 1);
        assert("POSTP"@.len() == 5);
    }
    assert(("N"@ == "ADP"@) == false) by {
        reveal_strlit("N");
        reveal_strlit("ADP");
        assert("N"@.len() == 1);
        assert("ADP"@.len() == 3);
    }
}

/// The category of the tag `NOUN`.
proof fn lemma_cat_of_noun()
    ensures
        cat_of("NOUN"@) == Cat::N,
{
    assert(("NOUN"@ == "N,EZ"@) == false) by {
        reveal_strlit("NOUN");
        reveal_strlit("N,EZ");
        assert("NOUN"@.len() == 4);
        assert("N,EZ"@.len() == 4);
        assert("NOUN"@[1] != "N,EZ"@[1]);
    }
    assert(("NOUN"@ == "NOUN,EZ"@) == false) by {
        reveal_strlit("NOUN");
        reveal_strlit("NOUN,EZ");
        assert("NOUN"@.len() == 4);
        assert("NOUN,EZ"@.len() == 7);
    }
    assert(("NOUN"@ == "N"@) == false) by {
        reveal_strlit("NOUN");
        reveal_strlit("N");
        assert("NOUN"@.len() == 4);
        assert("N"@.len() == 1);
    }
    assert(begins_with("NOUN"@, "N,"@) == false) by {
        reveal_strlit("NOUN");
        reveal_strlit("N,");
        assert("NOUN"@.take(2)[1] != "N,"@[1]);
    }
    assert(begins_with("NOUN"@, "NOUN,"@) == false) by {
        reveal_strlit("NOUN");
        reveal_strlit("NOUN,");
    }
    assert(begins_with("NOUN"@, "V"@) == false) by {
        reveal_strlit("NOUN");
        reveal_strlit("V");
        assert("NOUN"@.take(1)[0] != "V"@[0]);
    }
    assert(begins_with("NOUN"@, "VERB"@) == false) by {
        reveal_strlit("NOUN");
        reveal_strlit("VERB");
        assert("NOUN"@.take(4)[0] != "VERB"@[0]);
    }
    assert(("NOUN"@ == "AJ,EZ"@) == false) by {
        reveal_strlit("NOUN");
        reveal_strlit("AJ,EZ");
        assert("NOUN"@.len() == 4);
        assert("AJ,EZ"@.len() == 5);
    }
    assert(("NOUN"@ == "ADJ,EZ"@) == false) by {
        reveal_strlit("NOUN");
        reveal_strlit("ADJ,EZ");
        assert("NOUN"@.len() == 4);
        assert("ADJ,EZ"@.len() == 6);
    }
    assert(("NOUN"@ == "AJ"@) == false) by {
        reveal_strlit("NOUN");
        reveal_strlit("AJ");
        assert("NOUN"@.len() == 4);
        assert("AJ"@.len() == 2);
    }
    assert(begins_with("NOUN"@, "AJ,"@) == false) by {
        reveal_strlit("NOUN");
        reveal_strlit("AJ,");
        assert("NOUN"@.take(3)[0] != "AJ,"@[0]);
    }
    assert(("NOUN"@ == "ADJ"@) == false) by {
        reveal_strlit("NOUN");
        reveal_strlit("ADJ");
        assert("NOUN"@.len() == 4);
        assert("ADJ"@.len() == 3);
    }
    assert(begins_with("NOUN"@, "ADJ,"@) == false) by {
        reveal_strlit("NOUN");
        reveal_strlit("ADJ,");
        assert("NOUN"@.take(4)[0] != "ADJ,"@[0]);
    }
    assert(("NOUN"@ == "DET"@) == false) by {
        reveal_strlit("NOUN");
        reveal_strlit("DET");
        assert("NOUN"@.len() == 4);
        assert("DET"@.len() == 3);
    }
    assert(("NOUN"@ == "DET,EZ"@) == false) by {
        reveal_strlit("NOUN");
        reveal_strlit("DET,EZ");
        assert("NOUN"@.len() == 4);
        assert("DET,EZ"@.len() == 6);
    }
    assert(("NOUN"@ == "NUM"@) == false) by {
        reveal_strlit("NOUN");
        reveal_strlit("NUM");
        assert("NOUN"@.len() == 4);
        assert("NUM"@.len() == 3);
    }
    assert(("NOUN"@ == "NUM,EZ"@) == false) by {
        reveal_strlit("NOUN");
        reveal_strlit("NUM,EZ");
        assert("NOUN"@.len() == 4);
        assert("NUM,EZ"@.len() == 6);
    }
    assert(begins_with("NOUN"@, "P"@) == false) by {
        reveal_strlit("NOUN");
        reveal_strlit("P");
        assert("NOUN"@.take(1)[0] != "P"@[0]);
    }
    assert(begins_with("NOUN"@, "PR"@) == false) by {
        reveal_strlit("NOUN");
        reveal_strlit("PR");
        assert("NOUN"@.take(2)[0] != "PR"@[0]);
    }
    assert(begins_with("NOUN"@, "PU"@) == false) by {
        reveal_strlit("NOUN");
        reveal_strlit("PU");
        assert("NOUN"@.take(2)[0] != "PU"@[0]);
    }
    assert(("NOUN"@ == "ADV"@) == false) by {
        reveal_strlit("NOUN");
        reveal_strlit("ADV");
        assert("NOUN"@.len() == 4);
        assert("ADV"@.len() == 3);
    }
    assert(("NOUN"@ == "ADV,EZ"@) == false) by {
        reveal_strlit("NOUN");
        reveal_strlit("ADV,EZ");
        assert("NOUN"@.len() == 4);
        assert("ADV,EZ"@.len() == 6);
    }
    assert(begins_with("NOUN"@, "PRO"@) == false) by {
        reveal_strlit("NOUN");
        reveal_strlit("PRO");
        assert("NOUN"@.take(3)[0] != "PRO"@[0]);
    }
    assert(begins_with("NOUN"@, "PRON"@) == false) by {
        reveal_strlit("NOUN");
        reveal_strlit("PRON");
        assert("NOUN"@.take(4)[0] != "PRON"@[0]);
    }
    assert(("NOUN"@ == "CL"@) == false) by {
        reveal_strlit("NOUN");
        reveal_strlit("CL");
        assert("NOUN"@.len() == 4);
        assert("CL"@.len() == 2);
    }
    assert(("NOUN"@ == "RES"@) == false) by {
        reveal_strlit("NOUN");
        reveal_strlit("RES");
        assert("NOUN"@.len() == 4);
        assert("RES"@.len() == 3);
    }
    assert(("NOUN"@ == "RES,EZ"@) == false) by {
        reveal_strlit("NOUN");
        reveal_strlit("RES,EZ");
        assert("NOUN"@.len() == 4);
        assert("RES,EZ"@.len() == 6);
    }
    assert(("NOUN"@ == "POSTP"@) == false) by {
        reveal_strlit("NOUN");
        reveal_strlit("POSTP");
        assert("NOUN"@.len() == 4);
        assert("POSTP"@.len() == 5);
    }
    assert(("NOUN"@ == "ADP"@) == false) by {
        reveal_strlit("NOUN");
        reveal_strlit("ADP");
        assert("NOUN"@.len() == 4);
        assert("ADP"@.len() == 3);
    }
}

/// The category of the tag `AJ,EZ`.
proof fn lemma_cat_of_aj_ez()
    ensures
        cat_of("AJ,EZ"@) == Cat::AJe,
{
    assert(("AJ,EZ"@ == "N,EZ"@) == false) by {
        reveal_strlit("AJ,EZ");
        reveal_strlit("N,EZ");
        assert("AJ,EZ"@.len() == 5);
        assert("N,EZ"@.len() == 4);
    }
    assert(("AJ,EZ"@ == "NOUN,EZ"@) == false) by {
        reveal_strlit("AJ,EZ");
        reveal_strlit("NOUN,EZ");
        assert("AJ,EZ"@.len() == 5);
        assert("NOUN,EZ"@.len() == 7);
    }
    assert(("AJ,EZ"@ == "N"@) == false) by {
        reveal_strlit("AJ,EZ");
        reveal_strlit("N");
        assert("AJ,EZ"@.len() == 5);
        assert("N"@.len() == 1);
    }
    assert(begins_with("AJ,EZ"@, "N,"@) == false) by {
        reveal_strlit("AJ,EZ");
        reveal_strlit("N,");
        assert("AJ,EZ"@.take(2)[0] != "N,"@[0]);
    }
    assert(("AJ,EZ"@ == "NOUN"@) == false) by {
        reveal_strlit("AJ,EZ");
        reveal_strlit("NOUN");
        assert("AJ,EZ"@.len() == 5);
        assert("NOUN"@.len() == 4);
    }
    assert(begins_with("AJ,EZ"@, "NOUN,"@) == false) by {
        reveal_strlit("AJ,EZ");
        reveal_strlit("NOUN,");
        assert("AJ,EZ"@.take(5)[0] != "NOUN,"@[0]);
    }
    assert(begins_with("AJ,EZ"@, "V"@) == false) by {
        reveal_strlit("AJ,EZ");
        reveal_strlit("V");
        assert("AJ,EZ"@.take(1)[0] != "V"@[0]);
    }
    assert(begins_with("AJ,EZ"@, "VERB"@) == false) by {
        reveal_strlit("AJ,EZ");
        reveal_strlit("VERB");
        assert("AJ,EZ"@.take(4)[0] != "VERB"@[0]);
    }
    assert(("AJ,EZ"@ == "ADJ,EZ"@) == false) by {
        reveal_strlit("AJ,EZ");
        reveal_strlit("ADJ,EZ");
        assert("AJ,EZ"@.len() == 5);
        assert("ADJ,EZ"@.len() == 6);
    }
    assert(("AJ,EZ"@ == "AJ"@) == false) by {
        reveal_strlit("AJ,EZ");
        reveal_strlit("AJ");
        assert("AJ,EZ"@.len() == 5);
        assert("AJ"@.len() == 2);
    }
    assert(begins_with("AJ,EZ"@, "AJ,"@) == true) by {
        reveal_strlit("AJ,EZ");
        reveal_strlit("AJ,");
        assert("AJ,EZ"@.take(3) =~= "AJ,"@);
    }
    assert(("AJ,EZ"@ == "ADJ"@) == false) by {
        reveal_strlit("AJ,EZ");
        reveal_strlit("ADJ");
        assert("AJ,EZ"@.len() == 5);
        assert("ADJ"@.len() == 3);
    }
    assert(begins_with("AJ,EZ"@, "ADJ,"@) == false) by {
        reveal_strlit("AJ,EZ");
        reveal_strlit("ADJ,");
        assert("AJ,EZ"@.take(4)[1] != "ADJ,"@[1]);
    }
    assert(("AJ,EZ"@ == "DET"@) == false) by {
        reveal_strlit("AJ,EZ");
        reveal_strlit("DET");
        assert("AJ,EZ"@.len() == 5);
        assert("DET"@.len() == 3);
    }
    assert(("AJ,EZ"@ == "DET,EZ"@) == false) by {
        reveal_strlit("AJ,EZ");
        reveal_strlit("DET,EZ");
        assert("AJ,EZ"@.len() == 5);
        assert("DET,EZ"@.len() == 6);
    }
    assert(("AJ,EZ"@ == "NUM"@) == false) by {
        reveal_strlit("AJ,EZ");
        reveal_strlit("NUM");
        assert("AJ,EZ"@.len() == 5);
        assert("NUM"@.len() == 3);
    }
    assert(("AJ,EZ"@ == "NUM,EZ"@) == false) by {
        reveal_strlit("AJ,EZ");
        reveal_strlit("NUM,EZ");
        assert("AJ,EZ"@.len() == 5);
        assert("NUM,EZ"@.len() == 6);
    }
    assert(begins_with("AJ,EZ"@, "P"@) == false) by {
        reveal_strlit("AJ,EZ");
        reveal_strlit("P");
        assert("AJ,EZ"@.take(1)[0] != "P"@[0]);
    }
    assert(begins_with("AJ,EZ"@, "PR"@) == false) by {
        reveal_strlit("AJ,EZ");
        reveal_strlit("PR");
        assert("AJ,EZ"@.take(2)[0] != "PR"@[0]);
    }
    assert(begins_with("AJ,EZ"@, "PU"@) == false) by {
        reveal_strlit("AJ,EZ");
        reveal_strlit("PU");
        assert("AJ,EZ"@.take(2)[0] != "PU"@[0]);
    }
    assert(("AJ,EZ"@ == "ADV"@) == false) by {
        reveal_strlit("AJ,EZ");
        reveal_strlit("ADV");
        assert("AJ,EZ"@.len() == 5);
        assert("ADV"@.len() == 3);
    }
    assert(("AJ,EZ"@ == "ADV,EZ"@) == false) by {
        reveal_strlit("AJ,EZ");
        reveal_strlit("ADV,EZ");
        assert("AJ,EZ"@.len() == 5);
        assert("ADV,EZ"@.len() == 6);
    }
    assert(begins_with("AJ,EZ"@, "PRO"@) == false) by {
        reveal_strlit("AJ,EZ");
        reveal_strlit("PRO");
        assert("AJ,EZ"@.take(3)[0] != "PRO"@[0]);
    }
    assert(begins_with("AJ,EZ"@, "PRON"@) == false) by {
        reveal_strlit("AJ,EZ");
        reveal_strlit("PRON");
        assert("AJ,EZ"@.take(4)[0] != "PRON"@[0]);
    }
    assert(("AJ,EZ"@ == "CL"@) == false) by {
        reveal_strlit("AJ,EZ");
        reveal_strlit("CL");
        assert("AJ,EZ"@.len() == 5);
        assert("CL"@.len() == 2);
    }
    assert(("AJ,EZ"@ == "RES"@) == false) by {
        reveal_strlit("AJ,EZ");
        reveal_strlit("RES");
        assert("AJ,EZ"@.len() == 5);
        assert("RES"@.len() == 3);
    }
    assert(("AJ,EZ"@ == "RES,EZ"@) == false) by {
        reveal_strlit("AJ,EZ");
        reveal_strlit("RES,EZ");
        assert("AJ,EZ"@.len() == 5);
        assert("RES,EZ"@.len() == 6);
    }
    assert(("AJ,EZ"@ == "POSTP"@) == false) by {
        reveal_strlit("AJ,EZ");
        reveal_strlit("POSTP");
        assert("AJ,EZ"@.len() == 5);
        assert("POSTP"@.len() == 5);
        assert("AJ,EZ"@[0] != "POSTP"@[0]);
    }
    assert(("AJ,EZ"@ == "ADP"@) == false) by {
        reveal_strlit("AJ,EZ");
        reveal_strlit("ADP");
        assert("AJ,EZ"@.len() == 5);
        assert("ADP"@.len() == 3);
    }
}

/// The category of the tag `ADJ,EZ`.
proof fn lemma_cat_of_adj_ez()
    ensures
        cat_of("ADJ,EZ"@) == Cat::AJe,
{
    assert(("ADJ,EZ"@ == "N,EZ"@) == false) by {
        reveal_strlit("ADJ,EZ");
        reveal_strlit("N,EZ");
        assert("ADJ,EZ"@.len() == 6);
        assert("N,EZ"@.len() == 4);
    }
    assert(("ADJ,EZ"@ == "NOUN,EZ"@) == false) by {
        reveal_strlit("ADJ,EZ");
        reveal_strlit("NOUN,EZ");
        assert("ADJ,EZ"@.len() == 6);
        assert("NOUN,EZ"@.len() == 7);
    }
    assert(("ADJ,EZ"@ == "N"@) == false) by {
        reveal_strlit("ADJ,EZ");
        reveal_strlit("N");
        assert("ADJ,EZ"@.len() == 6);
        assert("N"@.len() == 1);
    }
    assert(begins_with("ADJ,EZ"@, "N,"@) == false) by {
        reveal_strlit("ADJ,EZ");
        reveal_strlit("N,");
        assert("ADJ,EZ"@.take(2)[0] != "N,"@[0]);
    }
    assert(("ADJ,EZ"@ == "NOUN"@) == false) by {
        reveal_strlit("ADJ,EZ");
        reveal_strlit("NOUN");
        assert("ADJ,EZ"@.len() == 6);
        assert("NOUN"@.len() == 4);
    }
    assert(begins_with("ADJ,EZ"@, "NOUN,"@) == false) by {
        reveal_strlit("ADJ,EZ");
        reveal_strlit("NOUN,");
        assert("ADJ,EZ"@.take(5)[0] != "NOUN,"@[0]);
    }
    assert(begins_with("ADJ,EZ"@, "V"@) == false) by {
        reveal_strlit("ADJ,EZ");
        reveal_strlit("V");
        assert("ADJ,EZ"@.take(1)[0] != "V"@[0]);
    }
    assert(begins_with("ADJ,EZ"@, "VERB"@) == false) by {
        reveal_strlit("ADJ,EZ");
        reveal_strlit("VERB");
        assert("ADJ,EZ"@.take(4)[0] != "VERB"@[0]);
    }
    assert(("ADJ,EZ"@ == "AJ,EZ"@) == false) by {
        reveal_strlit("ADJ,EZ");
        reveal_strlit("AJ,EZ");
        assert("ADJ,EZ"@.len() == 6);
        assert("AJ,EZ"@.len() == 5);
    }
    assert(("ADJ,EZ"@ == "AJ"@) == false) by {
        reveal_strlit("ADJ,EZ");
        reveal_strlit("AJ");
        assert("ADJ,EZ"@.len() == 6);
        assert("AJ"@.len() == 2);
    }
    assert(begins_with("ADJ,EZ"@, "AJ,"@) == false) by {
        reveal_strlit("ADJ,EZ");
        reveal_strlit("AJ,");
        assert("ADJ,EZ"@.take(3)[1] != "AJ,"@[1]);
    }
    assert(("ADJ,EZ"@ == "ADJ"@) == false) by {
        reveal_strlit("ADJ,EZ");
        reveal_strlit("ADJ");
        assert("ADJ,EZ"@.len() == 6);
        assert("ADJ"@.len() == 3);
    }
    assert(begins_with("ADJ,EZ"@, "ADJ,"@) == true) by {
        reveal_strlit("ADJ,EZ");
        reveal_strlit("ADJ,");
        assert("ADJ,EZ"@.take(4) =~= "ADJ,"@);
    }
    assert(("ADJ,EZ"@ == "DET"@) == false) by {
        reveal_strlit("ADJ,EZ");
        reveal_strlit("DET");
        assert("ADJ,EZ"@.len() == 6);
        assert("DET"@.len() == 3);
    }
    assert(("ADJ,EZ"@ == "DET,EZ"@) == false) by {
        reveal_strlit("ADJ,EZ");
        reveal_strlit("DET,EZ");
        assert("ADJ,EZ"@.len() == 6);
        assert("DET,EZ"@.len() == 6);
        assert("ADJ,EZ"@[0] != "DET,EZ"@[0]);
    }
    assert(("ADJ,EZ"@ == "NUM"@) == false) by {
        reveal_strlit("ADJ,EZ");
        reveal_strlit("NUM");
        assert("ADJ,EZ"@.len() == 6);
        assert("NUM"@.len() == 3);
    }
    assert(("ADJ,EZ"@ == "NUM,EZ"@) == false) by {
        reveal_strlit("ADJ,EZ");
        reveal_strlit("NUM,EZ");
        assert("ADJ,EZ"@.len() == 6);
        assert("NUM,EZ"@.len() == 6);
        assert("ADJ,EZ"@[0] != "NUM,EZ"@[0]);
    }
    assert(begins_with("ADJ,EZ"@, "P"@) == false) by {
        reveal_strlit("ADJ,EZ");
        reveal_strlit("P");
        assert("ADJ,EZ"@.take(1)[0] != "P"@[0]);
    }
    assert(begins_with("ADJ,EZ"@, "PR"@) == false) by {
        reveal_strlit("ADJ,EZ");
        reveal_strlit("PR");
        assert("ADJ,EZ"@.take(2)[0] != "PR"@[0]);
    }
    assert(begins_with("ADJ,EZ"@, "PU"@) == false) by {
        reveal_strlit("ADJ,EZ");
        reveal_strlit("PU");
        assert("ADJ,EZ"@.take(2)[0] != "PU"@[0]);
    }
    assert(("ADJ,EZ"@ == "ADV"@) == false) by {
        reveal_strlit("ADJ,EZ");
        reveal_strlit("ADV");
        assert("ADJ,EZ"@.len() == 6);
        assert("ADV"@.len() == 3);
    }
    assert(("ADJ,EZ"@ == "ADV,EZ"@) == false) by {
        reveal_strlit("ADJ,EZ");
        reveal_strlit("ADV,EZ");
        assert("ADJ,EZ"@.len() == 6);
        assert("ADV,EZ"@.len() == 6);
        assert("ADJ,EZ"@[2] != "ADV,EZ"@[2]);
    }
    assert(begins_with("ADJ,EZ"@, "PRO"@) == false) by {
        reveal_strlit("ADJ,EZ");
        reveal_strlit("PRO");
        assert("ADJ,EZ"@.take(3)[0] != "PRO"@[0]);
    }
    assert(begins_with("ADJ,EZ"@, "PRON"@) == false) by {
        reveal_strlit("ADJ,EZ");
        reveal_strlit("PRON");
        assert("ADJ,EZ"@.take(4)[0] != "PRON"@[0]);
    }
    assert(("ADJ,EZ"@ == "CL"@) == false) by {
        reveal_strlit("ADJ,EZ");
        reveal_strlit("CL");
        assert("ADJ,EZ"@.len() == 6);
        assert("CL"@.len() == 2);
    }
    assert(("ADJ,EZ"@ == "RES"@) == false) by {
        reveal_strlit("ADJ,EZ");
        reveal_strlit("RES");
        assert("ADJ,EZ"@.len() == 6);
        assert("RES"@.len() == 3);
    }
    assert(("ADJ,EZ"@ == "RES,EZ"@) == false) by {
        reveal_strlit("ADJ,EZ");
        reveal_strlit("RES,EZ");
        assert("ADJ,EZ"@.len() == 6);
        assert("RES,EZ"@.len() == 6);
        assert("ADJ,EZ"@[0] != "RES,EZ"@[0]);
    }
    assert(("ADJ,EZ"@ == "POSTP"@) == false) by {
        reveal_strlit("ADJ,EZ");
        reveal_strlit("POSTP");
        assert("ADJ,EZ"@.len() == 6);
        assert("POSTP"@.len() == 5);
    }
    assert(("ADJ,EZ"@ == "ADP"@) == false) by {
        reveal_strlit("ADJ,EZ");
        reveal_strlit("ADP");
        assert("ADJ,EZ"@.len() == 6);
        assert("ADP"@.len() == 3);
    }
}

/// The category of the tag `AJ`.
proof fn lemma_cat_of_aj()
    ensures
        cat_of("AJ"@) == Cat::AJ,
{
    assert(("AJ"@ == "N,EZ"@) == false) by {
        reveal_strlit("AJ");
        reveal_strlit("N,EZ");
        assert("AJ"@.len() == 2);
        assert("N,EZ"@.len() == 4);
    }
    assert(("AJ"@ == "NOUN,EZ"@) == false) by {
        reveal_strlit("AJ");
        reveal_strlit("NOUN,EZ");
        assert("AJ"@.len() == 2);
        assert("NOUN,EZ"@.len() == 7);
    }
    assert(("AJ"@ == "N"@) == false) by {
        reveal_strlit("AJ");
        reveal_strlit("N");
        assert("AJ"@.len() == 2);
        assert("N"@.len() == 1);
    }
    assert(begins_with("AJ"@, "N,"@) == false) by {
        reveal_strlit("AJ");
        reveal_strlit("N,");
        assert("AJ"@.take(2)[0] != "N,"@[0]);
    }
    assert(("AJ"@ == "NOUN"@) == false) by {
        reveal_strlit("AJ");
        reveal_strlit("NOUN");
        assert("AJ"@.len() == 2);
        assert("NOUN"@.len() == 4);
    }
    assert(begins_with("AJ"@, "NOUN,"@) == false) by {
        reveal_strlit("AJ");
        reveal_strlit("NOUN,");
    }
    assert(begins_with("AJ"@, "V"@) == false) by {
        reveal_strlit("AJ");
        reveal_strlit("V");
        assert("AJ"@.take(1)[0] != "V"@[0]);
    }
    assert(begins_with("AJ"@, "VERB"@) == false) by {
        reveal_strlit("AJ");
        reveal_strlit("VERB");
    }
    assert(("AJ"@ == "AJ,EZ"@) == false) by {
        reveal_strlit("AJ");
        reveal_strlit("AJ,EZ");
        assert("AJ"@.len() == 2);
        assert("AJ,EZ"@.len() == 5);
    }
    assert(("AJ"@ == "ADJ,EZ"@) == false) by {
        reveal_strlit("AJ");
        reveal_strlit("ADJ,EZ");
        assert("AJ"@.len() == 2);
        assert("ADJ,EZ"@.len() == 6);
    }
    assert(begins_with("AJ"@, "AJ,"@) == false) by {
        reveal_strlit("AJ");
        reveal_strlit("AJ,");
    }
    assert(("AJ"@ == "ADJ"@) == false) by {
        reveal_strlit("AJ");
        reveal_strlit("ADJ");
        assert("AJ"@.len() == 2);
        assert("ADJ"@.len() == 3);
    }
    assert(begins_with("AJ"@, "ADJ,"@) == false) by {
        reveal_strlit("AJ");
        reveal_strlit("ADJ,");
    }
    assert(("AJ"@ == "DET"@) == false) by {
        reveal_strlit("AJ");
        reveal_strlit("DET");
        assert("AJ"@.len() == 2);
        assert("DET"@.len() == 3);
    }
    assert(("AJ"@ == "DET,EZ"@) == false) by {
        reveal_strlit("AJ");
        reveal_strlit("DET,EZ");
        assert("AJ"@.len() == 2);
        assert("DET,EZ"@.len() == 6);
    }
    assert(("AJ"@ == "NUM"@) == false) by {
        reveal_strlit("AJ");
        reveal_strlit("NUM");
        assert("AJ"@.len() == 2);
        assert("NUM"@.len() == 3);
    }
    assert(("AJ"@ == "NUM,EZ"@) == false) by {
        reveal_strlit("AJ");
        reveal_strlit("NUM,EZ");
        assert("AJ"@.len() == 2);
        assert("NUM,EZ"@.len() == 6);
    }
    assert(begins_with("AJ"@, "P"@) == false) by {
        reveal_strlit("AJ");
        reveal_strlit("P");
        assert("AJ"@.take(1)[0] != "P"@[0]);
    }
    assert(begins_with("AJ"@, "PR"@) == false) by {
        reveal_strlit("AJ");
        reveal_strlit("PR");
        assert("AJ"@.take(2)[0] != "PR"@[0]);
    }
    assert(begins_with("AJ"@, "PU"@) == false) by {
        reveal_strlit("AJ");
        reveal_strlit("PU");
        assert("AJ"@.take(2)[0] != "PU"@[0]);
    }
    assert(("AJ"@ == "ADV"@) == false) by {
        reveal_strlit("AJ");
        reveal_strlit("ADV");
        assert("AJ"@.len() == 2);
        assert("ADV"@.len() == 3);
    }
    assert(("AJ"@ == "ADV,EZ"@) == false) by {
        reveal_strlit("AJ");
        reveal_strlit("ADV,EZ");
        assert("AJ"@.len() == 2);
        assert("ADV,EZ"@.len() == 6);
    }
    assert(begins_with("AJ"@, "PRO"@) == false) by {
        reveal_strlit("AJ");
        reveal_strlit("PRO");
    }
    assert(begins_with("AJ"@, "PRON"@) == false) by {
        reveal_strlit("AJ");
        reveal_strlit("PRON");
    }
    assert(("AJ"@ == "CL"@) == false) by {
        reveal_strlit("AJ");
        reveal_strlit("CL");
        assert("AJ"@.len() == 2);
        assert("CL"@.len() == 2);
        assert("AJ"@[0] != "CL"@[0]);
    }
    assert(("AJ"@ == "RES"@) == false) by {
        reveal_strlit("AJ");
        reveal_strlit("RES");
        assert("AJ"@.len() == 2);
        assert("RES"@.len() == 3);
    }
    assert(("AJ"@ == "RES,EZ"@) == false) by {
        reveal_strlit("AJ");
        reveal_strlit("RES,EZ");
        assert("AJ"@.len() == 2);
        assert("RES,EZ"@.len() == 6);
    }
    assert(("AJ"@ == "POSTP"@) == false) by {
        reveal_strlit("AJ");
        reveal_strlit("POSTP");
        assert("AJ"@.len() == 2);
        assert("POSTP"@.len() == 5);
    }
    assert(("AJ"@ == "ADP"@) == false) by {
        reveal_strlit("AJ");
        reveal_strlit("ADP");
        assert("AJ"@.len() == 2);
        assert("ADP"@.len() == 3);
    }
}

/// The category of the tag `ADJ`.
proof fn lemma_cat_of_adj()
    ensures
        cat_of("ADJ"@) == Cat::AJ,
{
    assert(("ADJ"@ == "N,EZ"@) == false) by {
        reveal_strlit("ADJ");
        reveal_strlit("N,EZ");
        assert("ADJ"@.len() == 3);
        assert("N,EZ"@.len() == 4);
    }
    assert(("ADJ"@ == "NOUN,EZ"@) == false) by {
        reveal_strlit("ADJ");
        reveal_strlit("NOUN,EZ");
        assert("ADJ"@.len() == 3);
        assert("NOUN,EZ"@.len() == 7);
    }
    assert(("ADJ"@ == "N"@) == false) by {
        reveal_strlit("ADJ");
        reveal_strlit("N");
        assert("ADJ"@.len() == 3);
        assert("N"@.len() == 1);
    }
    assert(begins_with("ADJ"@, "N,"@) == false) by {
        reveal_strlit("ADJ");
        reveal_strlit("N,");
        assert("ADJ"@.take(2)[0] != "N,"@[0]);
    }
    assert(("ADJ"@ == "NOUN"@) == false) by {
        reveal_strlit("ADJ");
        reveal_strlit("NOUN");
        assert("ADJ"@.len() == 3);
        assert("NOUN"@.len() == 4);
    }
    assert(begins_with("ADJ"@, "NOUN,"@) == false) by {
        reveal_strlit("ADJ");
        reveal_strlit("NOUN,");
    }
    assert(begins_with("ADJ"@, "V"@) == false) by {
        reveal_strlit("ADJ");
        reveal_strlit("V");
        assert("ADJ"@.take(1)[0] != "V"@[0]);
    }
    assert(begins_with("ADJ"@, "VERB"@) == false) by {
        reveal_strlit("ADJ");
        reveal_strlit("VERB");
    }
    assert(("ADJ"@ == "AJ,EZ"@) == false) by {
        reveal_strlit("ADJ");
        reveal_strlit("AJ,EZ");
        assert("ADJ"@.len() == 3);
        assert("AJ,EZ"@.len() == 5);
    }
    assert(("ADJ"@ == "ADJ,EZ"@) == false) by {
        reveal_strlit("ADJ");
        reveal_strlit("ADJ,EZ");
        assert("ADJ"@.len() == 3);
        assert("ADJ,EZ"@.len() == 6);
    }
    assert(("ADJ"@ == "AJ"@) == false) by {
        reveal_strlit("ADJ");
        reveal_strlit("AJ");
        assert("ADJ"@.len() == 3);
        assert("AJ"@.len() == 2);
    }
    assert(begins_with("ADJ"@, "AJ,"@) == false) by {
        reveal_strlit("ADJ");
        reveal_strlit("AJ,");
        assert("ADJ"@.take(3)[1] != "AJ,"@[1]);
    }
    assert(begins_with("ADJ"@, "ADJ,"@) == false) by {
        reveal_strlit("ADJ");
        reveal_strlit("ADJ,");
    }
    assert(("ADJ"@ == "DET"@) == false) by {
        reveal_strlit("ADJ");
        reveal_strlit("DET");
        assert("ADJ"@.len() == 3);
        assert("DET"@.len() == 3);
        assert("ADJ"@[0] != "DET"@[0]);
    }
    assert(("ADJ"@ == "DET,EZ"@) == false) by {
        reveal_strlit("ADJ");
        reveal_strlit("DET,EZ");
        assert("ADJ"@.len() == 3);
        assert("DET,EZ"@.len() == 6);
    }
    assert(("ADJ"@ == "NUM"@) == false) by {
        reveal_strlit("ADJ");
        reveal_strlit("NUM");
        assert("ADJ"@.len() == 3);
        assert("NUM"@.len() == 3);
        assert("ADJ"@[0] != "NUM"@[0]);
    }
    assert(("ADJ"@ == "NUM,EZ"@) == false) by {
        reveal_strlit("ADJ");
        reveal_strlit("NUM,EZ");
        assert("ADJ"@.len() == 3);
        assert("NUM,EZ"@.len() == 6);
    }
    assert(begins_with("ADJ"@, "P"@) == false) by {
        reveal_strlit("ADJ");
        reveal_strlit("P");
        assert("ADJ"@.take(1)[0] != "P"@[0]);
    }
    assert(begins_with("ADJ"@, "PR"@) == false) by {
        reveal_strlit("ADJ");
        reveal_strlit("PR");
        assert("ADJ"@.take(2)[0] != "PR"@[0]);
    }
    assert(begins_with("ADJ"@, "PU"@) == false) by {
        reveal_strlit("ADJ");
        reveal_strlit("PU");
        assert("ADJ"@.take(2)[0] != "PU"@[0]);
    }
    assert(("ADJ"@ == "ADV"@) == false) by {
        reveal_strlit("ADJ");
        reveal_strlit("ADV");
        assert("ADJ"@.len() == 3);
        assert("ADV"@.len() == 3);
        assert("ADJ"@[2] != "ADV"@[2]);
    }
    assert(("ADJ"@ == "ADV,EZ"@) == false) by {
        reveal_strlit("ADJ");
        reveal_strlit("ADV,EZ");
        assert("ADJ"@.len() == 3);
        assert("ADV,EZ"@.len() == 6);
    }
    assert(begins_with("ADJ"@, "PRO"@) == false) by {
        reveal_strlit("ADJ");
        reveal_strlit("PRO");
        assert("ADJ"@.take(3)[0] != "PRO"@[0]);
    }
    assert(begins_with("ADJ"@, "PRON"@) == false) by {
        reveal_strlit("ADJ");
        reveal_strlit("PRON");
    }
    assert(("ADJ"@ == "CL"@) == false) by {
        reveal_strlit("ADJ");
        reveal_strlit("CL");
        assert("ADJ"@.len() == 3);
        assert("CL"@.len() == 2);
    }
    assert(("ADJ"@ == "RES"@) == false) by {
        reveal_strlit("ADJ");
        reveal_strlit("RES");
        assert("ADJ"@.len() == 3);
        assert("RES"@.len() == 3);
        assert("ADJ"@[0] != "RES"@[0]);
    }
    assert(("ADJ"@ == "RES,EZ"@) == false) by {
        reveal_strlit("ADJ");
        reveal_strlit("RES,EZ");
        assert("ADJ"@.len() == 3);
        assert("RES,EZ"@.len() == 6);
    }
    assert(("ADJ"@ == "POSTP"@) == false) by {
        reveal_strlit("ADJ");
        reveal_strlit("POSTP");
        assert("ADJ"@.len() == 3);
        assert("POSTP"@.len() == 5);
    }
    assert(("ADJ"@ == "ADP"@) == false) by {
        reveal_strlit("ADJ");
        reveal_strlit("ADP");
        assert("ADJ"@.len() == 3);
        assert("ADP"@.len() == 3);
        assert("ADJ"@[2] != "ADP"@[2]);
    }
}

/// The category of the tag `DET`.
proof fn lemma_cat_of_det()
    ensures
        cat_of("DET"@) == Cat::DET,
{
    assert(("DET"@ == "N,EZ"@) == false) by {
        reveal_strlit("DET");
        reveal_strlit("N,EZ");
        assert("DET"@.len() == 3);
        assert("N,EZ"@.len() == 4);
    }
    assert(("DET"@ == "NOUN,EZ"@) == false) by {
        reveal_strlit("DET");
        reveal_strlit("NOUN,EZ");
        assert("DET"@.len() == 3);
        assert("NOUN,EZ"@.len() == 7);
    }
    assert(("DET"@ == "N"@) == false) by {
        reveal_strlit("DET");
        reveal_strlit("N");
        assert("DET"@.len() == 3);
        assert("N"@.len() == 1);
    }
    assert(begins_with("DET"@, "N,"@) == false) by {
        reveal_strlit("DET");
        reveal_strlit("N,");
        assert("DET"@.take(2)[0] != "N,"@[0]);
    }
    assert(("DET"@ == "NOUN"@) == false) by {
        reveal_strlit("DET");
        reveal_strlit("NOUN");
        assert("DET"@.len() == 3);
        assert("NOUN"@.len() == 4);
    }
    assert(begins_with("DET"@, "NOUN,"@) == false) by {
        reveal_strlit("DET");
        reveal_strlit("NOUN,");
    }
    assert(begins_with("DET"@, "V"@) == false) by {
        reveal_strlit("DET");
        reveal_strlit("V");
        assert("DET"@.take(1)[0] != "V"@[0]);
    }
    assert(begins_with("DET"@, "VERB"@) == false) by {
        reveal_strlit("DET");
        reveal_strlit("VERB");
    }
    assert(("DET"@ == "AJ,EZ"@) == false) by {
        reveal_strlit("DET");
        reveal_strlit("AJ,EZ");
        assert("DET"@.len() == 3);
        assert("AJ,EZ"@.len() == 5);
    }
    assert(("DET"@ == "ADJ,EZ"@) == false) by {
        reveal_strlit("DET");
        reveal_strlit("ADJ,EZ");
        assert("DET"@.len() == 3);
        assert("ADJ,EZ"@.len() == 6);
    }
    assert(("DET"@ == "AJ"@) == false) by {
        reveal_strlit("DET");
        reveal_strlit("AJ");
        assert("DET"@.len() == 3);
        assert("AJ"@.len() == 2);
    }
    assert(begins_with("DET"@, "AJ,"@) == false) by {
        reveal_strlit("DET");
        reveal_strlit("AJ,");
        assert("DET"@.take(3)[0] != "AJ,"@[0]);
    }
    assert(("DET"@ == "ADJ"@) == false) by {
        reveal_strlit("DET");
        reveal_strlit("ADJ");
        assert("DET"@.len() == 3);
        assert("ADJ"@.len() == 3);
        assert("DET"@[0] != "ADJ"@[0]);
    }
    assert(begins_with("DET"@, "ADJ,"@) == false) by {
        reveal_strlit("DET");
        reveal_strlit("ADJ,");
    }
    assert(("DET"@ == "DET,EZ"@) == false) by {
        reveal_strlit("DET");
        reveal_strlit("DET,EZ");
        assert("DET"@.len() == 3);
        assert("DET,EZ"@.len() == 6);
    }
    assert(("DET"@ == "NUM"@) == false) by {
        reveal_strlit("DET");
        reveal_strlit("NUM");
        assert("DET"@.len() == 3);
        assert("NUM"@.len() == 3);
        assert("DET"@[0] != "NUM"@[0]);
    }
    assert(("DET"@ == "NUM,EZ"@) == false) by {
        reveal_strlit("DET");
        reveal_strlit("NUM,EZ");
        assert("DET"@.len() == 3);
        assert("NUM,EZ"@.len() == 6);
    }
    assert(begins_with("DET"@, "P"@) == false) by {
        reveal_strlit("DET");
        reveal_strlit("P");
        assert("DET"@.take(1)[0] != "P"@[0]);
    }
    assert(begins_with("DET"@, "PR"@) == false) by {
        reveal_strlit("DET");
        reveal_strlit("PR");
        assert("DET"@.take(2)[0] != "PR"@[0]);
    }
    assert(begins_with("DET"@, "PU"@) == false) by {
        reveal_strlit("DET");
        reveal_strlit("PU");
        assert("DET"@.take(2)[0] != "PU"@[0]);
    }
    assert(("DET"@ == "ADV"@) == false) by {
        reveal_strlit("DET");
        reveal_strlit("ADV");
        assert("DET"@.len() == 3);
        assert("ADV"@.len() == 3);
        assert("DET"@[0] != "ADV"@[0]);
    }
    assert(("DET"@ == "ADV,EZ"@) == false) by {
        reveal_strlit("DET");
        reveal_strlit("ADV,EZ");
        assert("DET"@.len() == 3);
        assert("ADV,EZ"@.len() == 6);
    }
    assert(begins_with("DET"@, "PRO"@) == false) by {
        reveal_strlit("DET");
        reveal_strlit("PRO");
        assert("DET"@.take(3)[0] != "PRO"@[0]);
    }
    assert(begins_with("DET"@, "PRON"@) == false) by {
        reveal_strlit("DET");
        reveal_strlit("PRON");
    }
    assert(("DET"@ == "CL"@) == false) by {
        reveal_strlit("DET");
        reveal_strlit("CL");
        assert("DET"@.len() == 3);
        assert("CL"@.len() == 2);
    }
    assert(("DET"@ == "RES"@) == false) by {
        reveal_strlit("DET");
        reveal_strlit("RES");
        assert("DET"@.len() == 3);
        assert("RES"@.len() == 3);
        assert("DET"@[0] != "RES"@[0]);
    }
    assert(("DET"@ == "RES,EZ"@) == false) by {
        reveal_strlit("DET");
        reveal_strlit("RES,EZ");
        assert("DET"@.len() == 3);
        assert("RES,EZ"@.len() == 6);
    }
    assert(("DET"@ == "POSTP"@) == false) by {
        reveal_strlit("DET");
        reveal_strlit("POSTP");
        assert("DET"@.len() == 3);
        assert("POSTP"@.len() == 5);
    }
    assert(("DET"@ == "ADP"@) == false) by {
        reveal_strlit("DET");
        reveal_strlit("ADP");
        assert("DET"@.len() == 3);
        assert("ADP"@.len() == 3);
        assert("DET"@[0] != "ADP"@[0]);
    }
}

/// The category of the tag `DET,EZ`.
proof fn lemma_cat_of_det_ez()
    ensures
        cat_of("DET,EZ"@) == Cat::DETe,
{
    assert(("DET,EZ"@ == "N,EZ"@) == false) by {
        reveal_strlit("DET,EZ");
        reveal_strlit("N,EZ");
        assert("DET,EZ"@.len() == 6);
        assert("N,EZ"@.len() == 4);
    }
    assert(("DET,EZ"@ == "NOUN,EZ"@) == false) by {
        reveal_strlit("DET,EZ");
        reveal_strlit("NOUN,EZ");
        assert("DET,EZ"@.len() == 6);
        assert("NOUN,EZ"@.len() == 7);
    }
    assert(("DET,EZ"@ == "N"@) == false) by {
        reveal_strlit("DET,EZ");
        reveal_strlit("N");
        assert("DET,EZ"@.len() == 6);
        assert("N"@.len() == 1);
    }
    assert(begins_with("DET,EZ"@, "N,"@) == false) by {
        reveal_strlit("DET,EZ");
        reveal_strlit("N,");
        assert("DET,EZ"@.take(2)[0] != "N,"@[0]);
    }
    assert(("DET,EZ"@ == "NOUN"@) == false) by {
        reveal_strlit("DET,EZ");
        reveal_strlit("NOUN");
        assert("DET,EZ"@.len() == 6);
        assert("NOUN"@.len() == 4);
    }
    assert(begins_with("DET,EZ"@, "NOUN,"@) == false) by {
        reveal_strlit("DET,EZ");
        reveal_strlit("NOUN,");
        assert("DET,EZ"@.take(5)[0] != "NOUN,"@[0]);
    }
    assert(begins_with("DET,EZ"@, "V"@) == false) by {
        reveal_strlit("DET,EZ");
        reveal_strlit("V");
        assert("DET,EZ"@.take(1)[0] != "V"@[0]);
    }
    assert(begins_with("DET,EZ"@, "VERB"@) == false) by {
        reveal_strlit("DET,EZ");
        reveal_strlit("VERB");
        assert("DET,EZ"@.take(4)[0] != "VERB"@[0]);
    }
    assert(("DET,EZ"@ == "AJ,EZ"@) == false) by {
        reveal_strlit("DET,EZ");
        reveal_strlit("AJ,EZ");
        assert("DET,EZ"@.len() == 6);
        assert("AJ,EZ"@.len() == 5);
    }
    assert(("DET,EZ"@ == "ADJ,EZ"@) == false) by {
        reveal_strlit("DET,EZ");
        reveal_strlit("ADJ,EZ");
        assert("DET,EZ"@.len() == 6);
        assert("ADJ,EZ"@.len() == 6);
        assert("DET,EZ"@[0] != "ADJ,EZ"@[0]);
    }
    assert(("DET,EZ"@ == "AJ"@) == false) by {
        reveal_strlit("DET,EZ");
        reveal_strlit("AJ");
        assert("DET,EZ"@.len() == 6);
        assert("AJ"@.len() == 2);
    }
    assert(begins_with("DET,EZ"@, "AJ,"@) == false) by {
        reveal_strlit("DET,EZ");
        reveal_strlit("AJ,");
        assert("DET,EZ"@.take(3)[0] != "AJ,"@[0]);
    }
    assert(("DET,EZ"@ == "ADJ"@) == false) by {
        reveal_strlit("DET,EZ");
        reveal_strlit("ADJ");
        assert("DET,EZ"@.len() == 6);
        assert("ADJ"@.len() == 3);
    }
    assert(begins_with("DET,EZ"@, "ADJ,"@) == false) by {
        reveal_strlit("DET,EZ");
        reveal_strlit("ADJ,");
        assert("DET,EZ"@.take(4)[0] != "ADJ,"@[0]);
    }
    assert(("DET,EZ"@ == "DET"@) == false) by {
        reveal_strlit("DET,EZ");
        reveal_strlit("DET");
        assert("DET,EZ"@.len() == 6);
        assert("DET"@.len() == 3);
    }
    assert(("DET,EZ"@ == "NUM"@) == false) by {
        reveal_strlit("DET,EZ");
        reveal_strlit("NUM");
        assert("DET,EZ"@.len() == 6);
        assert("NUM"@.len() == 3);
    }
    assert(("DET,EZ"@ == "NUM,EZ"@) == false) by {
        reveal_strlit("DET,EZ");
        reveal_strlit("NUM,EZ");
        assert("DET,EZ"@.len() == 6);
        assert("NUM,EZ"@.len() == 6);
        assert("DET,EZ"@[0] != "NUM,EZ"@[0]);
    }
    assert(begins_with("DET,EZ"@, "P"@) == false) by {
        reveal_strlit("DET,EZ");
        reveal_strlit("P");
        assert("DET,EZ"@.take(1)[0] != "P"@[0]);
    }
    assert(begins_with("DET,EZ"@, "PR"@) == false) by {
        reveal_strlit("DET,EZ");
        reveal_strlit("PR");
        assert("DET,EZ"@.take(2)[0] != "PR"@[0]);
    }
    assert(begins_with("DET,EZ"@, "PU"@) == false) by {
        reveal_strlit("DET,EZ");
        reveal_strlit("PU");
        assert("DET,EZ"@.take(2)[0] != "PU"@[0]);
    }
    assert(("DET,EZ"@ == "ADV"@) == false) by {
        reveal_strlit("DET,EZ");
        reveal_strlit("ADV");
        assert("DET,EZ"@.len() == 6);
        assert("ADV"@.len() == 3);
    }
    assert(("DET,EZ"@ == "ADV,EZ"@) == false) by {
        reveal_strlit("DET,EZ");
        reveal_strlit("ADV,EZ");
        assert("DET,EZ"@.len() == 6);
        assert("ADV,EZ"@.len() == 6);
        assert("DET,EZ"@[0] != "ADV,EZ"@[0]);
    }
    assert(begins_with("DET,EZ"@, "PRO"@) == false) by {
        reveal_strlit("DET,EZ");
        reveal_strlit("PRO");
        assert("DET,EZ"@.take(3)[0] != "PRO"@[0]);
    }
    assert(begins_with("DET,EZ"@, "PRON"@) == false) by {
        reveal_strlit("DET,EZ");
        reveal_strlit("PRON");
        assert("DET,EZ"@.take(4)[0] != "PRON"@[0]);
    }
    assert(("DET,EZ"@ == "CL"@) == false) by {
        reveal_strlit("DET,EZ");
        reveal_strlit("CL");
        assert("DET,EZ"@.len() == 6);
        assert("CL"@.len() == 2);
    }
    assert(("DET,EZ"@ == "RES"@) == false) by {
        reveal_strlit("DET,EZ");
        reveal_strlit("RES");
        assert("DET,EZ"@.len() == 6);
        assert("RES"@.len() == 3);
    }
    assert(("DET,EZ"@ == "RES,EZ"@) == false) by {
        reveal_strlit("DET,EZ");
        reveal_strlit("RES,EZ");
        assert("DET,EZ"@.len() == 6);
        assert("RES,EZ"@.len() == 6);
        assert("DET,EZ"@[0] != "RES,EZ"@[0]);
    }
    assert(("DET,EZ"@ == "POSTP"@) == false) by {
        reveal_strlit("DET,EZ");
        reveal_strlit("POSTP");
        assert("DET,EZ"@.len() == 6);
        assert("POSTP"@.len() == 5);
    }
    assert(("DET,EZ"@ == "ADP"@) == false) by {
        reveal_strlit("DET,EZ");
        reveal_strlit("ADP");
        assert("DET,EZ"@.len() == 6);
        assert("ADP"@.len() == 3);
    }
}

/// The category of the tag `NUM`.
proof fn lemma_cat_of_num()
    ensures
        cat_of("NUM"@) == Cat::NUM,
{
    assert(("NUM"@ == "N,EZ"@) == false) by {
        reveal_strlit("NUM");
        reveal_strlit("N,EZ");
        assert("NUM"@.len() == 3);
        assert("N,EZ"@.len() == 4);
    }
    assert(("NUM"@ == "NOUN,EZ"@) == false) by {
        reveal_strlit("NUM");
        reveal_strlit("NOUN,EZ");
        assert("NUM"@.len() == 3);
        assert("NOUN,EZ"@.len() == 7);
    }
    assert(("NUM"@ == "N"@) == false) by {
        reveal_strlit("NUM");
        reveal_strlit("N");
        assert("NUM"@.len() == 3);
        assert("N"@.len() == 1);
    }
    assert(begins_with("NUM"@, "N,"@) == false) by {
        reveal_strlit("NUM");
        reveal_strlit("N,");
        assert("NUM"@.take(2)[1] != "N,"@[1]);
    }
    assert(("NUM"@ == "NOUN"@) == false) by {
        reveal_strlit("NUM");
        reveal_strlit("NOUN");
        assert("NUM"@.len() == 3);
        assert("NOUN"@.len() == 4);
    }
    assert(begins_with("NUM"@, "NOUN,"@) == false) by {
        reveal_strlit("NUM");
        reveal_strlit("NOUN,");
    }
    assert(begins_with("NUM"@, "V"@) == false) by {
        reveal_strlit("NUM");
        reveal_strlit("V");
        assert("NUM"@.take(1)[0] != "V"@[0]);
    }
    assert(begins_with("NUM"@, "VERB"@) == false) by {
        reveal_strlit("NUM");
        reveal_strlit("VERB");
    }
    assert(("NUM"@ == "AJ,EZ"@) == false) by {
        reveal_strlit("NUM");
        reveal_strlit("AJ,EZ");
        assert("NUM"@.len() == 3);
        assert("AJ,EZ"@.len() == 5);
    }
    assert(("NUM"@ == "ADJ,EZ"@) == false) by {
        reveal_strlit("NUM");
        reveal_strlit("ADJ,EZ");
        assert("NUM"@.len() == 3);
        assert("ADJ,EZ"@.len() == 6);
    }
    assert(("NUM"@ == "AJ"@) == false) by {
        reveal_strlit("NUM");
        reveal_strlit("AJ");
        assert("NUM"@.len() == 3);
        assert("AJ"@.len() == 2);
    }
    assert(begins_with("NUM"@, "AJ,"@) == false) by {
        reveal_strlit("NUM");
        reveal_strlit("AJ,");
        assert("NUM"@.take(3)[0] != "AJ,"@[0]);
    }
    assert(("NUM"@ == "ADJ"@) == false) by {
        reveal_strlit("NUM");
        reveal_strlit("ADJ");
        assert("NUM"@.len() == 3);
        assert("ADJ"@.len() == 3);
        assert("NUM"@[0] != "ADJ"@[0]);
    }
    assert(begins_with("NUM"@, "ADJ,"@) == false) by {
        reveal_strlit("NUM");
        reveal_strlit("ADJ,");
    }
    assert(("NUM"@ == "DET"@) == false) by {
        reveal_strlit("NUM");
        reveal_strlit("DET");
        assert("NUM"@.len() == 3);
        assert("DET"@.len() == 3);
        assert("NUM"@[0] != "DET"@[0]);
    }
    assert(("NUM"@ == "DET,EZ"@) == false) by {
        reveal_strlit("NUM");
        reveal_strlit("DET,EZ");
        assert("NUM"@.len() == 3);
        assert("DET,EZ"@.len() == 6);
    }
    assert(("NUM"@ == "NUM,EZ"@) == false) by {
        reveal_strlit("NUM");
        reveal_strlit("NUM,EZ");
        assert("NUM"@.len() == 3);
        assert("NUM,EZ"@.len() == 6);
    }
    assert(begins_with("NUM"@, "P"@) == false) by {
        reveal_strlit("NUM");
        reveal_strlit("P");
        assert("NUM"@.take(1)[0] != "P"@[0]);
    }
    assert(begins_with("NUM"@, "PR"@) == false) by {
        reveal_strlit("NUM");
        reveal_strlit("PR");
        assert("NUM"@.take(2)[0] != "PR"@[0]);
    }
    assert(begins_with("NUM"@, "PU"@) == false) by {
        reveal_strlit("NUM");
        reveal_strlit("PU");
        assert("NUM"@.take(2)[0] != "PU"@[0]);
    }
    assert(("NUM"@ == "ADV"@) == false) by {
        reveal_strlit("NUM");
        reveal_strlit("ADV");
        assert("NUM"@.len() == 3);
        assert("ADV"@.len() == 3);
        assert("NUM"@[0] != "ADV"@[0]);
    }
    assert(("NUM"@ == "ADV,EZ"@) == false) by {
        reveal_strlit("NUM");
        reveal_strlit("ADV,EZ");
        assert("NUM"@.len() == 3);
        assert("ADV,EZ"@.len() == 6);
    }
    assert(begins_with("NUM"@, "PRO"@) == false) by {
        reveal_strlit("NUM");
        reveal_strlit("PRO");
        assert("NUM"@.take(3)[0] != "PRO"@[0]);
    }
    assert(begins_with("NUM"@, "PRON"@) == false) by {
        reveal_strlit("NUM");
        reveal_strlit("PRON");
    }
    assert(("NUM"@ == "CL"@) == false) by {
        reveal_strlit("NUM");
        reveal_strlit("CL");
        assert("NUM"@.len() == 3);
        assert("CL"@.len() == 2);
    }
    assert(("NUM"@ == "RES"@) == false) by {
        reveal_strlit("NUM");
        reveal_strlit("RES");
        assert("NUM"@.len() == 3);
        assert("RES"@.len() == 3);
        assert("NUM"@[0] != "RES"@[0]);
    }
    assert(("NUM"@ == "RES,EZ"@) == false) by {
        reveal_strlit("NUM");
        reveal_strlit("RES,EZ");
        assert("NUM"@.len() == 3);
        assert("RES,EZ"@.len() == 6);
    }
    assert(("NUM"@ == "POSTP"@) == false) by {
        reveal_strlit("NUM");
        reveal_strlit("POSTP");
        assert("NUM"@.len() == 3);
        assert("POSTP"@.len() == 5);
    }
    assert(("NUM"@ == "ADP"@) == false) by {
        reveal_strlit("NUM");
        reveal_strlit("ADP");
        assert("NUM"@.len() == 3);
        assert("ADP"@.len() == 3);
        assert("NUM"@[0] != "ADP"@[0]);
    }
}

/// The category of the tag `NUM,EZ`.
proof fn lemma_cat_of_num_ez()
    ensures
        cat_of("NUM,EZ"@) == Cat::NUMe,
{
    assert(("NUM,EZ"@ == "N,EZ"@) == false) by {
        reveal_strlit("NUM,EZ");
        reveal_strlit("N,EZ");
        assert("NUM,EZ"@.len() == 6);
        assert("N,EZ"@.len() == 4);
    }
    assert(("NUM,EZ"@ == "NOUN,EZ"@) == false) by {
        reveal_strlit("NUM,EZ");
        reveal_strlit("NOUN,EZ");
        assert("NUM,EZ"@.len() == 6);
        assert("NOUN,EZ"@.len() == 7);
    }
    assert(("NUM,EZ"@ == "N"@) == false) by {
        reveal_strlit("NUM,EZ");
        reveal_strlit("N");
        assert("NUM,EZ"@.len() == 6);
        assert("N"@.len() == 1);
    }
    assert(begins_with("NUM,EZ"@, "N,"@) == false) by {
        reveal_strlit("NUM,EZ");
        reveal_strlit("N,");
        assert("NUM,EZ"@.take(2)[1] != "N,"@[1]);
    }
    assert(("NUM,EZ"@ == "NOUN"@) == false) by {
        reveal_strlit("NUM,EZ");
        reveal_strlit("NOUN");
        assert("NUM,EZ"@.len() == 6);
        assert("NOUN"@.len() == 4);
    }
    assert(begins_with("NUM,EZ"@, "NOUN,"@) == false) by {
        reveal_strlit("NUM,EZ");
        reveal_strlit("NOUN,");
        assert("NUM,EZ"@.take(5)[1] != "NOUN,"@[1]);
    }
    assert(begins_with("NUM,EZ"@, "V"@) == false) by {
        reveal_strlit("NUM,EZ");
        reveal_strlit("V");
        assert("NUM,EZ"@.take(1)[0] != "V"@[0]);
    }
    assert(begins_with("NUM,EZ"@, "VERB"@) == false) by {
        reveal_strlit("NUM,EZ");
        reveal_strlit("VERB");
        assert("NUM,EZ"@.take(4)[0] != "VERB"@[0]);
    }
    assert(("NUM,EZ"@ == "AJ,EZ"@) == false) by {
        reveal_strlit("NUM,EZ");
        reveal_strlit("AJ,EZ");
        assert("NUM,EZ"@.len() == 6);
        assert("AJ,EZ"@.len() == 5);
    }
    assert(("NUM,EZ"@ == "ADJ,EZ"@) == false) by {
        reveal_strlit("NUM,EZ");
        reveal_strlit("ADJ,EZ");
        assert("NUM,EZ"@.len() == 6);
        assert("ADJ,EZ"@.len() == 6);
        assert("NUM,EZ"@[0] != "ADJ,EZ"@[0]);
    }
    assert(("NUM,EZ"@ == "AJ"@) == false) by {
        reveal_strlit("NUM,EZ");
        reveal_strlit("AJ");
        assert("NUM,EZ"@.len() == 6);
        assert("AJ"@.len() == 2);
    }
    assert(begins_with("NUM,EZ"@, "AJ,"@) == false) by {
        reveal_strlit("NUM,EZ");
        reveal_strlit("AJ,");
        assert("NUM,EZ"@.take(3)[0] != "AJ,"@[0]);
    }
    assert(("NUM,EZ"@ == "ADJ"@) == false) by {
        reveal_strlit("NUM,EZ");
        reveal_strlit("ADJ");
        assert("NUM,EZ"@.len() == 6);
        assert("ADJ"@.len() == 3);
    }
    assert(begins_with("NUM,EZ"@, "ADJ,"@) == false) by {
        reveal_strlit("NUM,EZ");
        reveal_strlit("ADJ,");
        assert("NUM,EZ"@.take(4)[0] != "ADJ,"@[0]);
    }
    assert(("NUM,EZ"@ == "DET"@) == false) by {
        reveal_strlit("NUM,EZ");
        reveal_strlit("DET");
        assert("NUM,EZ"@.len() == 6);
        assert("DET"@.len() == 3);
    }
    assert(("NUM,EZ"@ == "DET,EZ"@) == false) by {
        reveal_strlit("NUM,EZ");
        reveal_strlit("DET,EZ");
        assert("NUM,EZ"@.len() == 6);
        assert("DET,EZ"@.len() == 6);
        assert("NUM,EZ"@[0] != "DET,EZ"@[0]);
    }
    assert(("NUM,EZ"@ == "NUM"@) == false) by {
        reveal_strlit("NUM,EZ");
        reveal_strlit("NUM");
        assert("NUM,EZ"@.len() == 6);
        assert("NUM"@.len() == 3);
    }
    assert(begins_with("NUM,EZ"@, "P"@) == false) by {
        reveal_strlit("NUM,EZ");
        reveal_strlit("P");
        assert("NUM,EZ"@.take(1)[0] != "P"@[0]);
    }
    assert(begins_with("NUM,EZ"@, "PR"@) == false) by {
        reveal_strlit("NUM,EZ");
        reveal_strlit("PR");
        assert("NUM,EZ"@.take(2)[0] != "PR"@[0]);
    }
    assert(begins_with("NUM,EZ"@, "PU"@) == false) by {
        reveal_strlit("NUM,EZ");
        reveal_strlit("PU");
        assert("NUM,EZ"@.take(2)[0] != "PU"@[0]);
    }
    assert(("NUM,EZ"@ == "ADV"@) == false) by {
        reveal_strlit("NUM,EZ");
        reveal_strlit("ADV");
        assert("NUM,EZ"@.len() == 6);
        assert("ADV"@.len() == 3);
    }
    assert(("NUM,EZ"@ == "ADV,EZ"@) == false) by {
        reveal_strlit("NUM,EZ");
        reveal_strlit("ADV,EZ");
        assert("NUM,EZ"@.len() == 6);
        assert("ADV,EZ"@.len() == 6);
        assert("NUM,EZ"@[0] != "ADV,EZ"@[0]);
    }
    assert(begins_with("NUM,EZ"@, "PRO"@) == false) by {
        reveal_strlit("NUM,EZ");
        reveal_strlit("PRO");
        assert("NUM,EZ"@.take(3)[0] != "PRO"@[0]);
    }
    assert(begins_with("NUM,EZ"@, "PRON"@) == false) by {
        reveal_strlit("NUM,EZ");
        reveal_strlit("PRON");
        assert("NUM,EZ"@.take(4)[0] != "PRON"@[0]);
    }
    assert(("NUM,EZ"@ == "CL"@) == false) by {
        reveal_strlit("NUM,EZ");
        reveal_strlit("CL");
        assert("NUM,EZ"@.len() == 6);
        assert("CL"@.len() == 2);
    }
    assert(("NUM,EZ"@ == "RES"@) == false) by {
        reveal_strlit("NUM,EZ");
        reveal_strlit("RES");
        assert("NUM,EZ"@.len() == 6);
        assert("RES"@.len() == 3);
    }
    assert(("NUM,EZ"@ == "RES,EZ"@) == false) by {
        reveal_strlit("NUM,EZ");
        reveal_strlit("RES,EZ");
        assert("NUM,EZ"@.len() == 6);
        assert("RES,EZ"@.len() == 6);
        assert("NUM,EZ"@[0] != "RES,EZ"@[0]);
    }
    assert(("NUM,EZ"@ == "POSTP"@) == false) by {
        reveal_strlit("NUM,EZ");
        reveal_strlit("POSTP");
        assert("NUM,EZ"@.len() == 6);
        assert("POSTP"@.len() == 5);
    }
    assert(("NUM,EZ"@ == "ADP"@) == false) by {
        reveal_strlit("NUM,EZ");
        reveal_strlit("ADP");
        assert("NUM,EZ"@.len() == 6);
        assert("ADP"@.len() == 3);
    }
}

/// The category of the tag `ADV`.
proof fn lemma_cat_of_adv()
    ensures
        cat_of("ADV"@) == Cat::ADV,
{
    assert(("ADV"@ == "N,EZ"@) == false) by {
        reveal_strlit("ADV");
        reveal_strlit("N,EZ");
        assert("ADV"@.len() == 3);
        assert("N,EZ"@.len() == 4);
    }
    assert(("ADV"@ == "NOUN,EZ"@) == false) by {
        reveal_strlit("ADV");
        reveal_strlit("NOUN,EZ");
        assert("ADV"@.len() == 3);
        assert("NOUN,EZ"@.len() == 7);
    }
    assert(("ADV"@ == "N"@) == false) by {
        reveal_strlit("ADV");
        reveal_strlit("N");
        assert("ADV"@.len() == 3);
        assert("N"@.len() == 1);
    }
    assert(begins_with("ADV"@, "N,"@) == false) by {
        reveal_strlit("ADV");
        reveal_strlit("N,");
        assert("ADV"@.take(2)[0] != "N,"@[0]);
    }
    assert(("ADV"@ == "NOUN"@) == false) by {
        reveal_strlit("ADV");
        reveal_strlit("NOUN");
        assert("ADV"@.len() == 3);
        assert("NOUN"@.len() == 4);
    }
    assert(begins_with("ADV"@, "NOUN,"@) == false) by {
        reveal_strlit("ADV");
        reveal_strlit("NOUN,");
    }
    assert(begins_with("ADV"@, "V"@) == false) by {
        reveal_strlit("ADV");
        reveal_strlit("V");
        assert("ADV"@.take(1)[0] != "V"@[0]);
    }
    assert(begins_with("ADV"@, "VERB"@) == false) by {
        reveal_strlit("ADV");
        reveal_strlit("VERB");
    }
    assert(("ADV"@ == "AJ,EZ"@) == false) by {
        reveal_strlit("ADV");
        reveal_strlit("AJ,EZ");
        assert("ADV"@.len() == 3);
        assert("AJ,EZ"@.len() == 5);
    }
    assert(("ADV"@ == "ADJ,EZ"@) == false) by {
        reveal_strlit("ADV");
        reveal_strlit("ADJ,EZ");
        assert("ADV"@.len() == 3);
        assert("ADJ,EZ"@.len() == 6);
    }
    assert(("ADV"@ == "AJ"@) == false) by {
        reveal_strlit("ADV");
        reveal_strlit("AJ");
        assert("ADV"@.len() == 3);
        assert("AJ"@.len() == 2);
    }
    assert(begins_with("ADV"@, "AJ,"@) == false) by {
        reveal_strlit("ADV");
        reveal_strlit("AJ,");
        assert("ADV"@.take(3)[1] != "AJ,"@[1]);
    }
    assert(("ADV"@ == "ADJ"@) == false) by {
        reveal_strlit("ADV");
        reveal_strlit("ADJ");
        assert("ADV"@.len() == 3);
        assert("ADJ"@.len() == 3);
        assert("ADV"@[2] != "ADJ"@[2]);
    }
    assert(begins_with("ADV"@, "ADJ,"@) == false) by {
        reveal_strlit("ADV");
        reveal_strlit("ADJ,");
    }
    assert(("ADV"@ == "DET"@) == false) by {
        reveal_strlit("ADV");
        reveal_strlit("DET");
        assert("ADV"@.len() == 3);
        assert("DET"@.len() == 3);
        assert("ADV"@[0] != "DET"@[0]);
    }
    assert(("ADV"@ == "DET,EZ"@) == false) by {
        reveal_strlit("ADV");
        reveal_strlit("DET,EZ");
        assert("ADV"@.len() == 3);
        assert("DET,EZ"@.len() == 6);
    }
    assert(("ADV"@ == "NUM"@) == false) by {
        reveal_strlit("ADV");
        reveal_strlit("NUM");
        assert("ADV"@.len() == 3);
        assert("NUM"@.len() == 3);
        assert("ADV"@[0] != "NUM"@[0]);
    }
    assert(("ADV"@ == "NUM,EZ"@) == false) by {
        reveal_strlit("ADV");
        reveal_strlit("NUM,EZ");
        assert("ADV"@.len() == 3);
        assert("NUM,EZ"@.len() == 6);
    }
    assert(begins_with("ADV"@, "P"@) == false) by {
        reveal_strlit("ADV");
        reveal_strlit("P");
        assert("ADV"@.take(1)[0] != "P"@[0]);
    }
    assert(begins_with("ADV"@, "PR"@) == false) by {
        reveal_strlit("ADV");
        reveal_strlit("PR");
        assert("ADV"@.take(2)[0] != "PR"@[0]);
    }
    assert(begins_with("ADV"@, "PU"@) == false) by {
        reveal_strlit("ADV");
        reveal_strlit("PU");
        assert("ADV"@.take(2)[0] != "PU"@[0]);
    }
    assert(("ADV"@ == "ADV,EZ"@) == false) by {
        reveal_strlit("ADV");
        reveal_strlit("ADV,EZ");
        assert("ADV"@.len() == 3);
        assert("ADV,EZ"@.len() == 6);
    }
    assert(begins_with("ADV"@, "PRO"@) == false) by {
        reveal_strlit("ADV");
        reveal_strlit("PRO");
        assert("ADV"@.take(3)[0] != "PRO"@[0]);
    }
    assert(begins_with("ADV"@, "PRON"@) == false) by {
        reveal_strlit("ADV");
        reveal_strlit("PRON");
    }
    assert(("ADV"@ == "CL"@) == false) by {
        reveal_strlit("ADV");
        reveal_strlit("CL");
        assert("ADV"@.len() == 3);
        assert("CL"@.len() == 2);
    }
    assert(("ADV"@ == "RES"@) == false) by {
        reveal_strlit("ADV");
        reveal_strlit("RES");
        assert("ADV"@.len() == 3);
        assert("RES"@.len() == 3);
        assert("ADV"@[0] != "RES"@[0]);
    }
    assert(("ADV"@ == "RES,EZ"@) == false) by {
        reveal_strlit("ADV");
        reveal_strlit("RES,EZ");
        assert("ADV"@.len() == 3);
        assert("RES,EZ"@.len() == 6);
    }
    assert(("ADV"@ == "POSTP"@) == false) by {
        reveal_strlit("ADV");
        reveal_strlit("POSTP");
        assert("ADV"@.len() == 3);
        assert("POSTP"@.len() == 5);
    }
    assert(("ADV"@ == "ADP"@) == false) by {
        reveal_strlit("ADV");
        reveal_strlit("ADP");
        assert("ADV"@.len() == 3);
        assert("ADP"@.len() == 3);
        assert("ADV"@[2] != "ADP"@[2]);
    }
}

/// The category of the tag `ADV,EZ`.
proof fn lemma_cat_of_adv_ez()
    ensures
        cat_of("ADV,EZ"@) == Cat::ADVe,
{
    assert(("ADV,EZ"@ == "N,EZ"@) == false) by {
        reveal_strlit("ADV,EZ");
        reveal_strlit("N,EZ");
        assert("ADV,EZ"@.len() == 6);
        assert("N,EZ"@.len() == 4);
    }
    assert(("ADV,EZ"@ == "NOUN,EZ"@) == false) by {
        reveal_strlit("ADV,EZ");
        reveal_strlit("NOUN,EZ");
        assert("ADV,EZ"@.len() == 6);
        assert("NOUN,EZ"@.len() == 7);
    }
    assert(("ADV,EZ"@ == "N"@) == false) by {
        reveal_strlit("ADV,EZ");
        reveal_strlit("N");
        assert("ADV,EZ"@.len() == 6);
        assert("N"@.len() == 1);
    }
    assert(begins_with("ADV,EZ"@, "N,"@) == false) by {
        reveal_strlit("ADV,EZ");
        reveal_strlit("N,");
        assert("ADV,EZ"@.take(2)[0] != "N,"@[0]);
    }
    assert(("ADV,EZ"@ == "NOUN"@) == false) by {
        reveal_strlit("ADV,EZ");
        reveal_strlit("NOUN");
        assert("ADV,EZ"@.len() == 6);
        assert("NOUN"@.len() == 4);
    }
    assert(begins_with("ADV,EZ"@, "NOUN,"@) == false) by {
        reveal_strlit("ADV,EZ");
        reveal_strlit("NOUN,");
        assert("ADV,EZ"@.take(5)[0] != "NOUN,"@[0]);
    }
    assert(begins_with("ADV,EZ"@, "V"@) == false) by {
        reveal_strlit("ADV,EZ");
        reveal_strlit("V");
        assert("ADV,EZ"@.take(1)[0] != "V"@[0]);
    }
    assert(begins_with("ADV,EZ"@, "VERB"@) == false) by {
        reveal_strlit("ADV,EZ");
        reveal_strlit("VERB");
        assert("ADV,EZ"@.take(4)[0] != "VERB"@[0]);
    }
    assert(("ADV,EZ"@ == "AJ,EZ"@) == false) by {
        reveal_strlit("ADV,EZ");
        reveal_strlit("AJ,EZ");
        assert("ADV,EZ"@.len() == 6);
        assert("AJ,EZ"@.len() == 5);
    }
    assert(("ADV,EZ"@ == "ADJ,EZ"@) == false) by {
        reveal_strlit("ADV,EZ");
        reveal_strlit("ADJ,EZ");
        assert("ADV,EZ"@.len() == 6);
        assert("ADJ,EZ"@.len() == 6);
        assert("ADV,EZ"@[2] != "ADJ,EZ"@[2]);
    }
    assert(("ADV,EZ"@ == "AJ"@) == false) by {
        reveal_strlit("ADV,EZ");
        reveal_strlit("AJ");
        assert("ADV,EZ"@.len() == 6);
        assert("AJ"@.len() == 2);
    }
    assert(begins_with("ADV,EZ"@, "AJ,"@) == false) by {
        reveal_strlit("ADV,EZ");
        reveal_strlit("AJ,");
        assert("ADV,EZ"@.take(3)[1] != "AJ,"@[1]);
    }
    assert(("ADV,EZ"@ == "ADJ"@) == false) by {
        reveal_strlit("ADV,EZ");
        reveal_strlit("ADJ");
        assert("ADV,EZ"@.len() == 6);
        assert("ADJ"@.len() == 3);
    }
    assert(begins_with("ADV,EZ"@, "ADJ,"@) == false) by {
        reveal_strlit("ADV,EZ");
        reveal_strlit("ADJ,");
        assert("ADV,EZ"@.take(4)[2] != "ADJ,"@[2]);
    }
    assert(("ADV,EZ"@ == "DET"@) == false) by {
        reveal_strlit("ADV,EZ");
        reveal_strlit("DET");
        assert("ADV,EZ"@.len() == 6);
        assert("DET"@.len() == 3);
    }
    assert(("ADV,EZ"@ == "DET,EZ"@) == false) by {
        reveal_strlit("ADV,EZ");
        reveal_strlit("DET,EZ");
        assert("ADV,EZ"@.len() == 6);
        assert("DET,EZ"@.len() == 6);
        assert("ADV,EZ"@[0] != "DET,EZ"@[0]);
    }
    assert(("ADV,EZ"@ == "NUM"@) == false) by {
        reveal_strlit("ADV,EZ");
        reveal_strlit("NUM");
        assert("ADV,EZ"@.len() == 6);
        assert("NUM"@.len() == 3);
    }
    assert(("ADV,EZ"@ == "NUM,EZ"@) == false) by {
        reveal_strlit("ADV,EZ");
        reveal_strlit("NUM,EZ");
        assert("ADV,EZ"@.len() == 6);
        assert("NUM,EZ"@.len() == 6);
        assert("ADV,EZ"@[0] != "NUM,EZ"@[0]);
    }
    assert(begins_with("ADV,EZ"@, "P"@) == false) by {
        reveal_strlit("ADV,EZ");
        reveal_strlit("P");
        assert("ADV,EZ"@.take(1)[0] != "P"@[0]);
    }
    assert(begins_with("ADV,EZ"@, "PR"@) == false) by {
        reveal_strlit("ADV,EZ");
        reveal_strlit("PR");
        assert("ADV,EZ"@.take(2)[0] != "PR"@[0]);
    }
    assert(begins_with("ADV,EZ"@, "PU"@) == false) by {
        reveal_strlit("ADV,EZ");
        reveal_strlit("PU");
        assert("ADV,EZ"@.take(2)[0] != "PU"@[0]);
    }
    assert(("ADV,EZ"@ == "ADV"@) == false) by {
        reveal_strlit("ADV,EZ");
        reveal_strlit("ADV");
        assert("ADV,EZ"@.len() == 6);
        assert("ADV"@.len() == 3);
    }
    assert(begins_with("ADV,EZ"@, "PRO"@) == false) by {
        reveal_strlit("ADV,EZ");
        reveal_strlit("PRO");
        assert("ADV,EZ"@.take(3)[0] != "PRO"@[0]);
    }
    assert(begins_with("ADV,EZ"@, "PRON"@) == false) by {
        reveal_strlit("ADV,EZ");
        reveal_strlit("PRON");
        assert("ADV,EZ"@.take(4)[0] != "PRON"@[0]);
    }
    assert(("ADV,EZ"@ == "CL"@) == false) by {
        reveal_strlit("ADV,EZ");
        reveal_strlit("CL");
        assert("ADV,EZ"@.len() == 6);
        assert("CL"@.len() == 2);
    }
    assert(("ADV,EZ"@ == "RES"@) == false) by {
        reveal_strlit("ADV,EZ");
        reveal_strlit("RES");
        assert("ADV,EZ"@.len() == 6);
        assert("RES"@.len() == 3);
    }
    assert(("ADV,EZ"@ == "RES,EZ"@) == false) by {
        reveal_strlit("ADV,EZ");
        reveal_strlit("RES,EZ");
        assert("ADV,EZ"@.len() == 6);
        assert("RES,EZ"@.len() == 6);
        assert("ADV,EZ"@[0] != "RES,EZ"@[0]);
    }
    assert(("ADV,EZ"@ == "POSTP"@) == false) by {
        reveal_strlit("ADV,EZ");
        reveal_strlit("POSTP");
        assert("ADV,EZ"@.len() == 6);
        assert("POSTP"@.len() == 5);
    }
    assert(("ADV,EZ"@ == "ADP"@) == false) by {
        reveal_strlit("ADV,EZ");
        reveal_strlit("ADP");
        assert("ADV,EZ"@.len() == 6);
        assert("ADP"@.len() == 3);
    }
}

/// The category of the tag `CL`.
proof fn lemma_cat_of_cl()
    ensures
        cat_of("CL"@) == Cat::CL,
{
    assert(("CL"@ == "N,EZ"@) == false) by {
        reveal_strlit("CL");
        reveal_strlit("N,EZ");
        assert("CL"@.len() == 2);
        assert("N,EZ"@.len() == 4);
    }
    assert(("CL"@ == "NOUN,EZ"@) == false) by {
        reveal_strlit("CL");
        reveal_strlit("NOUN,EZ");
        assert("CL"@.len() == 2);
        assert("NOUN,EZ"@.len() == 7);
    }
    assert(("CL"@ == "N"@) == false) by {
        reveal_strlit("CL");
        reveal_strlit("N");
        assert("CL"@.len() == 2);
        assert("N"@.len() == 1);
    }
    assert(begins_with("CL"@, "N,"@) == false) by {
        reveal_strlit("CL");
        reveal_strlit("N,");
        assert("CL"@.take(2)[0] != "N,"@[0]);
    }
    assert(("CL"@ == "NOUN"@) == false) by {
        reveal_strlit("CL");
        reveal_strlit("NOUN");
        assert("CL"@.len() == 2);
        assert("NOUN"@.len() == 4);
    }
    assert(begins_with("CL"@, "NOUN,"@) == false) by {
        reveal_strlit("CL");
        reveal_strlit("NOUN,");
    }
    assert(begins_with("CL"@, "V"@) == false) by {
        reveal_strlit("CL");
        reveal_strlit("V");
        assert("CL"@.take(1)[0] != "V"@[0]);
    }
    assert(begins_with("CL"@, "VERB"@) == false) by {
        reveal_strlit("CL");
        reveal_strlit("VERB");
    }
    assert(("CL"@ == "AJ,EZ"@) == false) by {
        reveal_strlit("CL");
        reveal_strlit("AJ,EZ");
        assert("CL"@.len() == 2);
        assert("AJ,EZ"@.len() == 5);
    }
    assert(("CL"@ == "ADJ,EZ"@) == false) by {
        reveal_strlit("CL");
        reveal_strlit("ADJ,EZ");
        assert("CL"@.len() == 2);
        assert("ADJ,EZ"@.len() == 6);
    }
    assert(("CL"@ == "AJ"@) == false) by {
        reveal_strlit("CL");
        reveal_strlit("AJ");
        assert("CL"@.len() == 2);
        assert("AJ"@.len() == 2);
        assert("CL"@[0] != "AJ"@[0]);
    }
    assert(begins_with("CL"@, "AJ,"@) == false) by {
        reveal_strlit("CL");
        reveal_strlit("AJ,");
    }
    assert(("CL"@ == "ADJ"@) == false) by {
        reveal_strlit("CL");
        reveal_strlit("ADJ");
        assert("CL"@.len() == 2);
        assert("ADJ"@.len() == 3);
    }
    assert(begins_with("CL"@, "ADJ,"@) == false) by {
        reveal_strlit("CL");
        reveal_strlit("ADJ,");
    }
    assert(("CL"@ == "DET"@) == false) by {
        reveal_strlit("CL");
        reveal_strlit("DET");
        assert("CL"@.len() == 2);
        assert("DET"@.len() == 3);
    }
    assert(("CL"@ == "DET,EZ"@) == false) by {
        reveal_strlit("CL");
        reveal_strlit("DET,EZ");
        assert("CL"@.len() == 2);
        assert("DET,EZ"@.len() == 6);
    }
    assert(("CL"@ == "NUM"@) == false) by {
        reveal_strlit("CL");
        reveal_strlit("NUM");
        assert("CL"@.len() == 2);
        assert("NUM"@.len() == 3);
    }
    assert(("CL"@ == "NUM,EZ"@) == false) by {
        reveal_strlit("CL");
        reveal_strlit("NUM,EZ");
        assert("CL"@.len() == 2);
        assert("NUM,EZ"@.len() == 6);
    }
    assert(begins_with("CL"@, "P"@) == false) by {
        reveal_strlit("CL");
        reveal_strlit("P");
        assert("CL"@.take(1)[0] != "P"@[0]);
    }
    assert(begins_with("CL"@, "PR"@) == false) by {
        reveal_strlit("CL");
        reveal_strlit("PR");
        assert("CL"@.take(2)[0] != "PR"@[0]);
    }
    assert(begins_with("CL"@, "PU"@) == false) by {
        reveal_strlit("CL");
        reveal_strlit("PU");
        assert("CL"@.take(2)[0] != "PU"@[0]);
    }
    assert(("CL"@ == "ADV"@) == false) by {
        reveal_strlit("CL");
        reveal_strlit("ADV");
        assert("CL"@.len() == 2);
        assert("ADV"@.len() == 3);
    }
    assert(("CL"@ == "ADV,EZ"@) == false) by {
        reveal_strlit("CL");
        reveal_strlit("ADV,EZ");
        assert("CL"@.len() == 2);
        assert("ADV,EZ"@.len() == 6);
    }
    assert(begins_with("CL"@, "PRO"@) == false) by {
        reveal_strlit("CL");
        reveal_strlit("PRO");
    }
    assert(begins_with("CL"@, "PRON"@) == false) by {
        reveal_strlit("CL");
        reveal_strlit("PRON");
    }
    assert(("CL"@ == "RES"@) == false) by {
        reveal_strlit("CL");
        reveal_strlit("RES");
        assert("CL"@.len() == 2);
        assert("RES"@.len() == 3);
    }
    assert(("CL"@ == "RES,EZ"@) == false) by {
        reveal_strlit("CL");
        reveal_strlit("RES,EZ");
        assert("CL"@.len() == 2);
        assert("RES,EZ"@.len() == 6);
    }
    assert(("CL"@ == "POSTP"@) == false) by {
        reveal_strlit("CL");
        reveal_strlit("POSTP");
        assert("CL"@.len() == 2);
        assert("POSTP"@.len() == 5);
    }
    assert(("CL"@ == "ADP"@) == false) by {
        reveal_strlit("CL");
        reveal_strlit("ADP");
        assert("CL"@.len() == 2);
        assert("ADP"@.len() == 3);
    }
}

/// The category of the tag `RES`.
proof fn lemma_cat_of_res()
    ensures
        cat_of("RES"@) == Cat::RES,
{
    assert(("RES"@ == "N,EZ"@) == false) by {
        reveal_strlit("RES");
        reveal_strlit("N,EZ");
        assert("RES"@.len() == 3);
        assert("N,EZ"@.len() == 4);
    }
    assert(("RES"@ == "NOUN,EZ"@) == false) by {
        reveal_strlit("RES");
        reveal_strlit("NOUN,EZ");
        assert("RES"@.len() == 3);
        assert("NOUN,EZ"@.len() == 7);
    }
    assert(("RES"@ == "N"@) == false) by {
        reveal_strlit("RES");
        reveal_strlit("N");
        assert("RES"@.len() == 3);
        assert("N"@.len() == 1);
    }
    assert(begins_with("RES"@, "N,"@) == false) by {
        reveal_strlit("RES");
        reveal_strlit("N,");
        assert("RES"@.take(2)[0] != "N,"@[0]);
    }
    assert(("RES"@ == "NOUN"@) == false) by {
        reveal_strlit("RES");
        reveal_strlit("NOUN");
        assert("RES"@.len() == 3);
        assert("NOUN"@.len() == 4);
    }
    assert(begins_with("RES"@, "NOUN,"@) == false) by {
        reveal_strlit("RES");
        reveal_strlit("NOUN,");
    }
    assert(begins_with("RES"@, "V"@) == false) by {
        reveal_strlit("RES");
        reveal_strlit("V");
        assert("RES"@.take(1)[0] != "V"@[0]);
    }
    assert(begins_with("RES"@, "VERB"@) == false) by {
        reveal_strlit("RES");
        reveal_strlit("VERB");
    }
    assert(("RES"@ == "AJ,EZ"@) == false) by {
        reveal_strlit("RES");
        reveal_strlit("AJ,EZ");
        assert("RES"@.len() == 3);
        assert("AJ,EZ"@.len() == 5);
    }
    assert(("RES"@ == "ADJ,EZ"@) == false) by {
        reveal_strlit("RES");
        reveal_strlit("ADJ,EZ");
        assert("RES"@.len() == 3);
        assert("ADJ,EZ"@.len() == 6);
    }
    assert(("RES"@ == "AJ"@) == false) by {
        reveal_strlit("RES");
        reveal_strlit("AJ");
        assert("RES"@.len() == 3);
        assert("AJ"@.len() == 2);
    }
    assert(begins_with("RES"@, "AJ,"@) == false) by {
        reveal_strlit("RES");
        reveal_strlit("AJ,");
        assert("RES"@.take(3)[0] != "AJ,"@[0]);
    }
    assert(("RES"@ == "ADJ"@) == false) by {
        reveal_strlit("RES");
        reveal_strlit("ADJ");
        assert("RES"@.len() == 3);
        assert("ADJ"@.len() == 3);
        assert("RES"@[0] != "ADJ"@[0]);
    }
    assert(begins_with("RES"@, "ADJ,"@) == false) by {
        reveal_strlit("RES");
        reveal_strlit("ADJ,");
    }
    assert(("RES"@ == "DET"@) == false) by {
        reveal_strlit("RES");
        reveal_strlit("DET");
        assert("RES"@.len() == 3);
        assert("DET"@.len() == 3);
        assert("RES"@[0] != "DET"@[0]);
    }
    assert(("RES"@ == "DET,EZ"@) == false) by {
        reveal_strlit("RES");
        reveal_strlit("DET,EZ");
        assert("RES"@.len() == 3);
        assert("DET,EZ"@.len() == 6);
    }
    assert(("RES"@ == "NUM"@) == false) by {
        reveal_strlit("RES");
        reveal_strlit("NUM");
        assert("RES"@.len() == 3);
        assert("NUM"@.len() == 3);
        assert("RES"@[0] != "NUM"@[0]);
    }
    assert(("RES"@ == "NUM,EZ"@) == false) by {
        reveal_strlit("RES");
        reveal_strlit("NUM,EZ");
        assert("RES"@.len() == 3);
        assert("NUM,EZ"@.len() == 6);
    }
    assert(begins_with("RES"@, "P"@) == false) by {
        reveal_strlit("RES");
        reveal_strlit("P");
        assert("RES"@.take(1)[0] != "P"@[0]);
    }
    assert(begins_with("RES"@, "PR"@) == false) by {
        reveal_strlit("RES");
        reveal_strlit("PR");
        assert("RES"@.take(2)[0] != "PR"@[0]);
    }
    assert(begins_with("RES"@, "PU"@) == false) by {
        reveal_strlit("RES");
        reveal_strlit("PU");
        assert("RES"@.take(2)[0] != "PU"@[0]);
    }
    assert(("RES"@ == "ADV"@) == false) by {
        reveal_strlit("RES");
        reveal_strlit("ADV");
        assert("RES"@.len() == 3);
        assert("ADV"@.len() == 3);
        assert("RES"@[0] != "ADV"@[0]);
    }
    assert(("RES"@ == "ADV,EZ"@) == false) by {
        reveal_strlit("RES");
        reveal_strlit("ADV,EZ");
        assert("RES"@.len() == 3);
        assert("ADV,EZ"@.len() == 6);
    }
    assert(begins_with("RES"@, "PRO"@) == false) by {
        reveal_strlit("RES");
        reveal_strlit("PRO");
        assert("RES"@.take(3)[0] != "PRO"@[0]);
    }
    assert(begins_with("RES"@, "PRON"@) == false) by {
        reveal_strlit("RES");
        reveal_strlit("PRON");
    }
    assert(("RES"@ == "CL"@) == false) by {
        reveal_strlit("RES");
        reveal_strlit("CL");
        assert("RES"@.len() == 3);
        assert("CL"@.len() == 2);
    }
    assert(("RES"@ == "RES,EZ"@) == false) by {
        reveal_strlit("RES");
        reveal_strlit("RES,EZ");
        assert("RES"@.len() == 3);
        assert("RES,EZ"@.len() == 6);
    }
    assert(("RES"@ == "POSTP"@) == false) by {
        reveal_strlit("RES");
        reveal_strlit("POSTP");
        assert("RES"@.len() == 3);
        assert("POSTP"@.len() == 5);
    }
    assert(("RES"@ == "ADP"@) == false) by {
        reveal_strlit("RES");
        reveal_strlit("ADP");
        assert("RES"@.len() == 3);
        assert("ADP"@.len() == 3);
        assert("RES"@[0] != "ADP"@[0]);
    }
}

/// The category of the tag `RES,EZ`.
proof fn lemma_cat_of_res_ez()
    ensures
        cat_of("RES,EZ"@) == Cat::RESe,
{
    assert(("RES,EZ"@ == "N,EZ"@) == false) by {
        reveal_strlit("RES,EZ");
        reveal_strlit("N,EZ");
        assert("RES,EZ"@.len() == 6);
        assert("N,EZ"@.len() == 4);
    }
    assert(("RES,EZ"@ == "NOUN,EZ"@) == false) by {
        reveal_strlit("RES,EZ");
        reveal_strlit("NOUN,EZ");
        assert("RES,EZ"@.len() == 6);
        assert("NOUN,EZ"@.len() == 7);
    }
    assert(("RES,EZ"@ == "N"@) == false) by {
        reveal_strlit("RES,EZ");
        reveal_strlit("N");
        assert("RES,EZ"@.len() == 6);
        assert("N"@.len() == 1);
    }
    assert(begins_with("RES,EZ"@, "N,"@) == false) by {
        reveal_strlit("RES,EZ");
        reveal_strlit("N,");
        assert("RES,EZ"@.take(2)[0] != "N,"@[0]);
    }
    assert(("RES,EZ"@ == "NOUN"@) == false) by {
        reveal_strlit("RES,EZ");
        reveal_strlit("NOUN");
        assert("RES,EZ"@.len() == 6);
        assert("NOUN"@.len() == 4);
    }
    assert(begins_with("RES,EZ"@, "NOUN,"@) == false) by {
        reveal_strlit("RES,EZ");
        reveal_strlit("NOUN,");
        assert("RES,EZ"@.take(5)[0] != "NOUN,"@[0]);
    }
    assert(begins_with("RES,EZ"@, "V"@) == false) by {
        reveal_strlit("RES,EZ");
        reveal_strlit("V");
        assert("RES,EZ"@.take(1)[0] != "V"@[0]);
    }
    assert(begins_with("RES,EZ"@, "VERB"@) == false) by {
        reveal_strlit("RES,EZ");
        reveal_strlit("VERB");
        assert("RES,EZ"@.take(4)[0] != "VERB"@[0]);
    }
    assert(("RES,EZ"@ == "AJ,EZ"@) == false) by {
        reveal_strlit("RES,EZ");
        reveal_strlit("AJ,EZ");
        assert("RES,EZ"@.len() == 6);
        assert("AJ,EZ"@.len() == 5);
    }
    assert(("RES,EZ"@ == "ADJ,EZ"@) == false) by {
        reveal_strlit("RES,EZ");
        reveal_strlit("ADJ,EZ");
        assert("RES,EZ"@.len() == 6);
        assert("ADJ,EZ"@.len() == 6);
        assert("RES,EZ"@[0] != "ADJ,EZ"@[0]);
    }
    assert(("RES,EZ"@ == "AJ"@) == false) by {
        reveal_strlit("RES,EZ");
        reveal_strlit("AJ");
        assert("RES,EZ"@.len() == 6);
        assert("AJ"@.len() == 2);
    }
    assert(begins_with("RES,EZ"@, "AJ,"@) == false) by {
        reveal_strlit("RES,EZ");
        reveal_strlit("AJ,");
        assert("RES,EZ"@.take(3)[0] != "AJ,"@[0]);
    }
    assert(("RES,EZ"@ == "ADJ"@) == false) by {
        reveal_strlit("RES,EZ");
        reveal_strlit("ADJ");
        assert("RES,EZ"@.len() == 6);
        assert("ADJ"@.len() == 3);
    }
    assert(begins_with("RES,EZ"@, "ADJ,"@) == false) by {
        reveal_strlit("RES,EZ");
        reveal_strlit("ADJ,");
        assert("RES,EZ"@.take(4)[0] != "ADJ,"@[0]);
    }
    assert(("RES,EZ"@ == "DET"@) == false) by {
        reveal_strlit("RES,EZ");
        reveal_strlit("DET");
        assert("RES,EZ"@.len() == 6);
        assert("DET"@.len() == 3);
    }
    assert(("RES,EZ"@ == "DET,EZ"@) == false) by {
        reveal_strlit("RES,EZ");
        reveal_strlit("DET,EZ");
        assert("RES,EZ"@.len() == 6);
        assert("DET,EZ"@.len() == 6);
        assert("RES,EZ"@[0] != "DET,EZ"@[0]);
    }
    assert(("RES,EZ"@ == "NUM"@) == false) by {
        reveal_strlit("RES,EZ");
        reveal_strlit("NUM");
        assert("RES,EZ"@.len() == 6);
        assert("NUM"@.len() == 3);
    }
    assert(("RES,EZ"@ == "NUM,EZ"@) == false) by {
        reveal_strlit("RES,EZ");
        reveal_strlit("NUM,EZ");
        assert("RES,EZ"@.len() == 6);
        assert("NUM,EZ"@.len() == 6);
        assert("RES,EZ"@[0] != "NUM,EZ"@[0]);
    }
    assert(begins_with("RES,EZ"@, "P"@) == false) by {
        reveal_strlit("RES,EZ");
        reveal_strlit("P");
        assert("RES,EZ"@.take(1)[0] != "P"@[0]);
    }
    assert(begins_with("RES,EZ"@, "PR"@) == false) by {
        reveal_strlit("RES,EZ");
        reveal_strlit("PR");
        assert("RES,EZ"@.take(2)[0] != "PR"@[0]);
    }
    assert(begins_with("RES,EZ"@, "PU"@) == false) by {
        reveal_strlit("RES,EZ");
        reveal_strlit("PU");
        assert("RES,EZ"@.take(2)[0] != "PU"@[0]);
    }
    assert(("RES,EZ"@ == "ADV"@) == false) by {
        reveal_strlit("RES,EZ");
        reveal_strlit("ADV");
        assert("RES,EZ"@.len() == 6);
        assert("ADV"@.len() == 3);
    }
    assert(("RES,EZ"@ == "ADV,EZ"@) == false) by {
        reveal_strlit("RES,EZ");
        reveal_strlit("ADV,EZ");
        assert("RES,EZ"@.len() == 6);
        assert("ADV,EZ"@.len() == 6);
        assert("RES,EZ"@[0] != "ADV,EZ"@[0]);
    }
    assert(begins_with("RES,EZ"@, "PRO"@) == false) by {
        reveal_strlit("RES,EZ");
        reveal_strlit("PRO");
        assert("RES,EZ"@.take(3)[0] != "PRO"@[0]);
    }
    assert(begins_with("RES,EZ"@, "PRON"@) == false) by {
        reveal_strlit("RES,EZ");
        reveal_strlit("PRON");
        assert("RES,EZ"@.take(4)[0] != "PRON"@[0]);
    }
    assert(("RES,EZ"@ == "CL"@) == false) by {
        reveal_strlit("RES,EZ");
        reveal_strlit("CL");
        assert("RES,EZ"@.len() == 6);
        assert("CL"@.len() == 2);
    }
    assert(("RES,EZ"@ == "RES"@) == false) by {
        reveal_strlit("RES,EZ");
        reveal_strlit("RES");
        assert("RES,EZ"@.len() == 6);
        assert("RES"@.len() == 3);
    }
    assert(("RES,EZ"@ == "POSTP"@) == false) by {
        reveal_strlit("RES,EZ");
        reveal_strlit("POSTP");
        assert("RES,EZ"@.len() == 6);
        assert("POSTP"@.len() == 5);
    }
    assert(("RES,EZ"@ == "ADP"@) == false) by {
        reveal_strlit("RES,EZ");
        reveal_strlit("ADP");
        assert("RES,EZ"@.len() == 6);
        assert("ADP"@.len() == 3);
    }
}

/// The category of the tag `ADP`.
proof fn lemma_cat_of_adp()
    ensures
        cat_of("ADP"@) == Cat::POSTP,
{
    assert(("ADP"@ == "N,EZ"@) == false) by {
        reveal_strlit("ADP");
        reveal_strlit("N,EZ");
        assert("ADP"@.len() == 3);
        assert("N,EZ"@.len() == 4);
    }
    assert(("ADP"@ == "NOUN,EZ"@) == false) by {
        reveal_strlit("ADP");
        reveal_strlit("NOUN,EZ");
        assert("ADP"@.len() == 3);
        assert("NOUN,EZ"@.len() == 7);
    }
    assert(("ADP"@ == "N"@) == false) by {
        reveal_strlit("ADP");
        reveal_strlit("N");
        assert("ADP"@.len() == 3);
        assert("N"@.len() == 1);
    }
    assert(begins_with("ADP"@, "N,"@) == false) by {
        reveal_strlit("ADP");
        reveal_strlit("N,");
        assert("ADP"@.take(2)[0] != "N,"@[0]);
    }
    assert(("ADP"@ == "NOUN"@) == false) by {
        reveal_strlit("ADP");
        reveal_strlit("NOUN");
        assert("ADP"@.len() == 3);
        assert("NOUN"@.len() == 4);
    }
    assert(begins_with("ADP"@, "NOUN,"@) == false) by {
        reveal_strlit("ADP");
        reveal_strlit("NOUN,");
    }
    assert(begins_with("ADP"@, "V"@) == false) by {
        reveal_strlit("ADP");
        reveal_strlit("V");
        assert("ADP"@.take(1)[0] != "V"@[0]);
    }
    assert(begins_with("ADP"@, "VERB"@) == false) by {
        reveal_strlit("ADP");
        reveal_strlit("VERB");
    }
    assert(("ADP"@ == "AJ,EZ"@) == false) by {
        reveal_strlit("ADP");
        reveal_strlit("AJ,EZ");
        assert("ADP"@.len() == 3);
        assert("AJ,EZ"@.len() == 5);
    }
    assert(("ADP"@ == "ADJ,EZ"@) == false) by {
        reveal_strlit("ADP");
        reveal_strlit("ADJ,EZ");
        assert("ADP"@.len() == 3);
        assert("ADJ,EZ"@.len() == 6);
    }
    assert(("ADP"@ == "AJ"@) == false) by {
        reveal_strlit("ADP");
        reveal_strlit("AJ");
        assert("ADP"@.len() == 3);
        assert("AJ"@.len() == 2);
    }
    assert(begins_with("ADP"@, "AJ,"@) == false) by {
        reveal_strlit("ADP");
        reveal_strlit("AJ,");
        assert("ADP"@.take(3)[1] != "AJ,"@[1]);
    }
    assert(("ADP"@ == "ADJ"@) == false) by {
        reveal_strlit("ADP");
        reveal_strlit("ADJ");
        assert("ADP"@.len() == 3);
        assert("ADJ"@.len() == 3);
        assert("ADP"@[2] != "ADJ"@[2]);
    }
    assert(begins_with("ADP"@, "ADJ,"@) == false) by {
        reveal_strlit("ADP");
        reveal_strlit("ADJ,");
    }
    assert(("ADP"@ == "DET"@) == false) by {
        reveal_strlit("ADP");
        reveal_strlit("DET");
        assert("ADP"@.len() == 3);
        assert("DET"@.len() == 3);
        assert("ADP"@[0] != "DET"@[0]);
    }
    assert(("ADP"@ == "DET,EZ"@) == false) by {
        reveal_strlit("ADP");
        reveal_strlit("DET,EZ");
        assert("ADP"@.len() == 3);
        assert("DET,EZ"@.len() == 6);
    }
    assert(("ADP"@ == "NUM"@) == false) by {
        reveal_strlit("ADP");
        reveal_strlit("NUM");
        assert("ADP"@.len() == 3);
        assert("NUM"@.len() == 3);
        assert("ADP"@[0] != "NUM"@[0]);
    }
    assert(("ADP"@ == "NUM,EZ"@) == false) by {
        reveal_strlit("ADP");
        reveal_strlit("NUM,EZ");
        assert("ADP"@.len() == 3);
        assert("NUM,EZ"@.len() == 6);
    }
    assert(begins_with("ADP"@, "P"@) == false) by {
        reveal_strlit("ADP");
        reveal_strlit("P");
        assert("ADP"@.take(1)[0] != "P"@[0]);
    }
    assert(begins_with("ADP"@, "PR"@) == false) by {
        reveal_strlit("ADP");
        reveal_strlit("PR");
        assert("ADP"@.take(2)[0] != "PR"@[0]);
    }
    assert(begins_with("ADP"@, "PU"@) == false) by {
        reveal_strlit("ADP");
        reveal_strlit("PU");
        assert("ADP"@.take(2)[0] != "PU"@[0]);
    }
    assert(("ADP"@ == "ADV"@) == false) by {
        reveal_strlit("ADP");
        reveal_strlit("ADV");
        assert("ADP"@.len() == 3);
        assert("ADV"@.len() == 3);
        assert("ADP"@[2] != "ADV"@[2]);
    }
    assert(("ADP"@ == "ADV,EZ"@) == false) by {
        reveal_strlit("ADP");
        reveal_strlit("ADV,EZ");
        assert("ADP"@.len() == 3);
        assert("ADV,EZ"@.len() == 6);
    }
    assert(begins_with("ADP"@, "PRO"@) == false) by {
        reveal_strlit("ADP");
        reveal_strlit("PRO");
        assert("ADP"@.take(3)[0] != "PRO"@[0]);
    }
    assert(begins_with("ADP"@, "PRON"@) == false) by {
        reveal_strlit("ADP");
        reveal_strlit("PRON");
    }
    assert(("ADP"@ == "CL"@) == false) by {
        reveal_strlit("ADP");
        reveal_strlit("CL");
        assert("ADP"@.len() == 3);
        assert("CL"@.len() == 2);
    }
    assert(("ADP"@ == "RES"@) == false) by {
        reveal_strlit("ADP");
        reveal_strlit("RES");
        assert("ADP"@.len() == 3);
        assert("RES"@.len() == 3);
        assert("ADP"@[0] != "RES"@[0]);
    }
    assert(("ADP"@ == "RES,EZ"@) == false) by {
        reveal_strlit("ADP");
        reveal_strlit("RES,EZ");
        assert("ADP"@.len() == 3);
        assert("RES,EZ"@.len() == 6);
    }
    assert(("ADP"@ == "POSTP"@) == false) by {
        reveal_strlit("ADP");
        reveal_strlit("POSTP");
        assert("ADP"@.len() == 3);
        assert("POSTP"@.len() == 5);
    }
}

/// A text that begins with `p` neither begins with nor equals a text `m`
/// that differs from `p` at position `j`.
proof fn lemma_not_begins(t: Seq<char>, p: Seq<char>, m: Seq<char>, j: int)
    requires
        begins_with(t, p),
        0 <= j < p.len(),
        j < m.len(),
        p[j] != m[j],
    ensures
        !begins_with(t, m),
        t != m,
{
    lemma_begins_with_chars(t, p);
    if begins_with(t, m) {
        lemma_begins_with_chars(t, m);
    }
}

/// A text that begins with `p` agrees with `p` on its first characters.
proof fn lemma_begins_with_chars(t: Seq<char>, p: Seq<char>)
    requires
        begins_with(t, p),
    ensures
        forall|j: int| 0 <= j < p.len() ==> t[j] == p[j],
{
    assert forall|j: int| 0 <= j < p.len() implies t[j] == p[j] by {
        assert(t.take(p.len() as int)[j] == t[j]);
    }
}

/// The grammar rules at position `i` of a sentence: a token keeps its word
/// and tag; a verb (tag beginning with `V`) opens a verb phrase of its own;
/// an adverb (`ADV`, `ADV,EZ`) an adverb phrase of its own; a plain adjective
/// (`AJ`, `ADJ`) an adjective phrase of its own; `ADP` a postposition phrase
/// of its own; a noun-phrase category continues the noun phrase of the token
/// before it when that one is of a noun-phrase category too and opens one
/// otherwise; a preposition continues a preposition before it and opens a
/// prepositional phrase otherwise.
pub proof fn lemma_rule_chunking(tagged: Seq<(Seq<char>, Seq<char>)>, i: int)
    requires
        0 <= i < tagged.len(),
    ensures
        ({
            let t = tagged[i].1;
            let iob = rule_chunking(tagged)[i].2;
            let prev = cat_of(tagged[i - 1].1);
            &&& rule_chunking(tagged).len() == tagged.len()
            &&& rule_chunking(tagged)[i].0 == tagged[i].0
            &&& rule_chunking(tagged)[i].1 == t
            &&& begins_with(t, "V"@) ==> iob == "B-VP"@
            &&& (t == "ADV"@ || t == "ADV,EZ"@) ==> iob == "B-ADVP"@
            &&& (t == "AJ"@ || t == "ADJ"@) ==> iob == "B-ADJP"@
            &&& t == "ADP"@ ==> iob == "B-POSTP"@
            &&& np_cat(cat_of(t)) && i > 0 && np_cat(prev) ==> iob == "I-NP"@
            &&& np_cat(cat_of(t)) && (i == 0 || !np_cat(prev)) ==> iob == "B-NP"@
            &&& cat_of(t) == Cat::P && i > 0 && prev == Cat::P ==> iob == "I-PP"@
            &&& cat_of(t) == Cat::P && (i == 0 || prev != Cat::P) ==> iob == "B-PP"@
            &&& cat_of(t) == Cat::Other ==> iob == "O"@
        }),
{
    lemma_category_table(tagged[i].1);
    let cats = cats_of(tagged);
    assert(cats[i] == cat_of(tagged[i].1));
    if i > 0 {
        assert(cats[i - 1] == cat_of(tagged[i - 1].1));
    }
}

/// The category of a POS tag.
pub fn cat(tag: &str) -> (c: Cat)
    ensures
        c == cat_of(tag@),
{
    if text_equal(tag, "N,EZ") || text_equal(tag, "NOUN,EZ") {
        Cat::Ne
    } else if text_equal(tag, "N") || has_prefix(tag, "N,") || text_equal(tag, "NOUN") || has_prefix(tag, "NOUN,") {
        Cat::N
    } else if has_prefix(tag, "V") || has_prefix(tag, "VERB") {
        Cat::V
    } else if text_equal(tag, "AJ,EZ") || text_equal(tag, "ADJ,EZ") {
        Cat::AJe
    } else if text_equal(tag, "AJ") || has_prefix(tag, "AJ,") || text_equal(tag, "ADJ") || has_prefix(tag, "ADJ,") {
        Cat::AJ
    } else if text_equal(tag, "DET") {
        Cat::DET
    } else if text_equal(tag, "DET,EZ") {
        Cat::DETe
    } else if text_equal(tag, "NUM") {
        Cat::NUM
    } else if text_equal(tag, "NUM,EZ") {
        Cat::NUMe
    } else if has_prefix(tag, "P") && !has_prefix(tag, "PR") && !has_prefix(tag, "PU") {
        Cat::P
    } else if text_equal(tag, "ADV") {
        Cat::ADV
    } else if text_equal(tag, "ADV,EZ") {
        Cat::ADVe
    } else if has_prefix(tag, "PRO") || has_prefix(tag, "PRON") {
        Cat::PRO
    } else if text_equal(tag, "CL") {
        Cat::CL
    } else if text_equal(tag, "RES") {
        Cat::RES
    } else if text_equal(tag, "RES,EZ") {
        Cat::RESe
    } else if text_equal(tag, "POSTP") || text_equal(tag, "ADP") {
        Cat::POSTP
    } else {
        Cat::Other
    }
}

/// Whether a category belongs in a noun phrase.
pub fn is_np(c: Cat) -> (r: bool)
    ensures
        r == np_cat(c),
{
    c == Cat::DET || c == Cat::DETe || c == Cat::N || c == Cat::Ne || c == Cat::NUM || c == Cat::NUMe
        || c == Cat::AJe || c == Cat::PRO || c == Cat::CL || c == Cat::RES || c == Cat::RESe
}

/// Whether an IOB tag can be read into a tree.
fn iob_text_readable(iob: &str) -> (r: bool)
    ensures
        r == iob_readable(iob@),
{
    !starts_with_char(iob, 'B') || (iob.unicode_len() >= 2 && iob.get_char(1) < '\u{80}')
}

/// The IOB tags that the grammar rules give can all be read.
proof fn lemma_rule_iob_readable(cats: Seq<Cat>, i: int)
    requires
        0 <= i < cats.len(),
    ensures
        iob_readable(rule_iob(cats, i)),
{
    reveal_strlit("B-VP");
    reveal_strlit("I-NP");
    reveal_strlit("B-NP");
    reveal_strlit("B-ADJP");
    reveal_strlit("B-ADVP");
    reveal_strlit("I-PP");
    reveal_strlit("B-PP");
    reveal_strlit("B-POSTP");
    reveal_strlit("O");
}

/// Grammar-rule chunker; it needs no trained model.
pub struct RuleBasedChunker;

impl Default for RuleBasedChunker {
    fn default() -> (r: Self)
        ensures
            r == RuleBasedChunker,
    {
        RuleBasedChunker::new()
    }
}

/// The rule-based chunker keeps every token: flattening its tree gives back
/// the tagged sentence, pair by pair and in order.
pub proof fn lemma_rule_parse_keeps_tokens(tagged: Seq<(Seq<char>, Seq<char>)>)
    ensures
        flatten(iob_tree(rule_chunking(tagged))) == tagged,
        phrases_non_empty(iob_tree(rule_chunking(tagged))),
{
    lemma_iob_tree_keeps_tokens(rule_chunking(tagged));
    assert(words_and_tags(rule_chunking(tagged)) =~= tagged);
}

impl RuleBasedChunker {
    /// Creates a new rule-based chunker.
    pub fn new() -> (r: Self)
        ensures
            r == RuleBasedChunker,
    {
        RuleBasedChunker
    }

    /// Parses a POS-tagged sentence into a tree by the grammar rules of
    /// `rule_iob`.
    pub fn parse(&self, tagged: &[(&str, &str)]) -> (tree: Vec<ParseNode>)
        ensures
            tree.deep_view() == iob_tree(rule_chunking(tagged.deep_view())),
    {
        let ghost tv = tagged.deep_view();
        let n = tagged.len();
        let mut cats: Vec<Cat> = Vec::new();
        let mut k: usize = 0;
        while k < n
            invariant
                n == tagged@.len(),
                tv == tagged.deep_view(),
                k <= n,
                cats@ =~= cats_of(tv).take(k as int),
            decreases n - k,
        {
            let c = cat(tagged[k].1);
            cats.push(c);
            k = k + 1;
        }
        let ghost cs = cats@;
        assert(cs =~= cats_of(tv));

        let mut iob: Vec<String> = Vec::new();
        k = 0;
        while k < n
            invariant
                k <= n,
                iob@.len() == k,
                forall|j: int| 0 <= j < k ==> (#[trigger] iob@[j])@ == "O"@,
            decreases n - k,
        {
            iob.push(String::from_str("O"));
            k = k + 1;
        }

        let mut i: usize = 0;
        while i < n
            invariant
                n == cats@.len(),
                cats@ == cs,
                iob@.len() == n,
                i <= n,
                forall|j: int| 0 <= j < i ==> (#[trigger] iob@[j])@ == rule_iob(cs, j),
                forall|j: int| i <= j < n ==> (#[trigger] iob@[j])@ == "O"@,
                0 < i < n ==> !(np_cat(cs[i - 1]) && np_cat(cs[i as int])),
                0 < i < n ==> !(cs[i - 1] == Cat::P && cs[i as int] == Cat::P),
            decreases n - i,
        {
            let ghost i0 = i;
            let c = cats[i];
            if c == Cat::V {
                iob.set(i, String::from_str("B-VP"));
                i = i + 1;
            } else if is_np(c) {
                iob.set(i, String::from_str("B-NP"));
                i = i + 1;
                while i < n && is_np(cats[i])
                    invariant
                        n == cats@.len(),
                        cats@ == cs,
                        iob@.len() == n,
                        0 < i <= n,
                        i0 < i,
                        np_cat(cs[i - 1]),
                        forall|j: int| 0 <= j < i ==> (#[trigger] iob@[j])@ == rule_iob(cs, j),
                        forall|j: int| i <= j < n ==> (#[trigger] iob@[j])@ == "O"@,
                    decreases n - i,
                {
                    iob.set(i, String::from_str("I-NP"));
                    i = i + 1;
                }
            } else if c == Cat::AJ {
                iob.set(i, String::from_str("B-ADJP"));
                i = i + 1;
            } else if c == Cat::ADV || c == Cat::ADVe {
                iob.set(i, String::from_str("B-ADVP"));
                i = i + 1;
            } else if c == Cat::P {
                iob.set(i, String::from_str("B-PP"));
                i = i + 1;
                while i < n && cats[i] == Cat::P
                    invariant
                        n == cats@.len(),
                        cats@ == cs,
                        iob@.len() == n,
                        0 < i <= n,
                        i0 < i,
                        cs[i - 1] == Cat::P,
                        forall|j: int| 0 <= j < i ==> (#[trigger] iob@[j])@ == rule_iob(cs, j),
                        forall|j: int| i <= j < n ==> (#[trigger] iob@[j])@ == "O"@,
                    decreases n - i,
                {
                    iob.set(i, String::from_str("I-PP"));
                    i = i + 1;
                }
            } else if c == Cat::POSTP {
                iob.set(i, String::from_str("B-POSTP"));
                i = i + 1;
            } else {
                i = i + 1;
            }
        }

        let mut chunked: Vec<ChunkedToken> = Vec::new();
        k = 0;
        while k < n
            invariant
                n == tagged@.len(),
                tv == tagged.deep_view(),
                cs == cats_of(tv),
                iob@.len() == n,
                forall|j: int| 0 <= j < n ==> (#[trigger] iob@[j])@ == rule_iob(cs, j),
                k <= n,
                chunked.deep_view() =~= rule_chunking(tv).take(k as int),
            decreases n - k,
        {
            let ghost prev = chunked.deep_view();
            let t = (String::from_str(tagged[k].0), String::from_str(tagged[k].1), iob[k].clone());
            let ghost tview = t.deep_view();
            chunked.push(t);
            assert(chunked.deep_view() =~= prev.push(tview));
            k = k + 1;
        }
        assert(chunked.deep_view() =~= rule_chunking(tv));
        proof {
            assert forall|j: int| 0 <= j < n implies iob_readable(#[trigger] rule_chunking(tv)[j].2) by {
                lemma_rule_iob_readable(cs, j);
            }
        }
        iob_to_tree(&chunked)
    }
}

// ---------------------------------------------------------------------------
// CRF chunker
// ---------------------------------------------------------------------------

/// The words of a POS-tagged sentence.
pub open spec fn pair_words(t: Seq<(Seq<char>, Seq<char>)>) -> Seq<Seq<char>> {
    t.map_values(|p: (Seq<char>, Seq<char>)| p.0)
}

/// The POS tags of a POS-tagged sentence.
pub open spec fn pair_tags(t: Seq<(Seq<char>, Seq<char>)>) -> Seq<Seq<char>> {
    t.map_values(|p: (Seq<char>, Seq<char>)| p.1)
}

/// The IOB tags of a chunked sentence.
pub open spec fn iob_tags(sent: Seq<TokenView>) -> Seq<Seq<char>> {
    sent.map_values(|t: TokenView| t.2)
}

/// Some token of the chunked corpus carries the IOB tag `t`.
pub open spec fn corpus_has_iob(corpus: Seq<Seq<TokenView>>, t: Seq<char>) -> bool {
    exists|i: int, j: int| 0 <= i < corpus.len() && 0 <= j < corpus[i].len() && (#[trigger] corpus[i][j]).2 == t
}

/// The IOB tags that `model` decodes for a POS-tagged sentence.
pub open spec fn decoded_iob(model: crfrs::PerceptronModel, tagged: Seq<(Seq<char>, Seq<char>)>) -> Seq<Seq<char>> {
    decoded_labels(model, sentence_chunk_features_spec(pair_words(tagged), pair_tags(tagged)))
}

/// The number of tokens of a chunked corpus whose IOB tag the model predicts.
pub open spec fn chunk_hits(model: crfrs::PerceptronModel, corpus: Seq<Seq<TokenView>>) -> nat
    decreases corpus.len(),
{
    if corpus.len() == 0 {
        0
    } else {
        chunk_hits(model, corpus.drop_last()) + agreements(
            decoded_iob(model, words_and_tags(corpus.last())),
            iob_tags(corpus.last()),
        )
    }
}

/// Evaluation counts the tokens whose predicted IOB tag is exactly, as a
/// whole text, their gold IOB tag: an empty corpus has no hits, adding a
/// sentence adds the number of its positions at which the tag the model
/// decodes for its words and POS tags equals the gold one, and the hits never
/// exceed the tokens.
pub proof fn lemma_chunk_hits_are_exact_matches(
    model: crfrs::PerceptronModel,
    corpus: Seq<Seq<TokenView>>,
    sent: Seq<TokenView>,
)
    ensures
        chunk_hits(model, seq![]) == 0,
        chunk_hits(model, corpus.push(sent)) == chunk_hits(model, corpus) + Seq::new(sent.len(), |j: int| j).filter(
            |j: int|
                decoded_labels(
                    model,
                    sentence_chunk_features_spec(
                        sent.map_values(|t: TokenView| t.0),
                        sent.map_values(|t: TokenView| t.1),
                    ),
                )[j] == sent[j].2,
        ).len(),
        chunk_hits(model, corpus) <= token_count(corpus),
    decreases corpus.len(),
{
    let pred = decoded_labels(
        model,
        sentence_chunk_features_spec(sent.map_values(|t: TokenView| t.0), sent.map_values(|t: TokenView| t.1)),
    );
    assert(corpus.push(sent).drop_last() =~= corpus);
    assert(pair_words(words_and_tags(sent)) =~= sent.map_values(|t: TokenView| t.0));
    assert(pair_tags(words_and_tags(sent)) =~= sent.map_values(|t: TokenView| t.1));
    lemma_agreements_count_exact_matches(pred, iob_tags(sent));
    lemma_filter_same(
        Seq::new(sent.len(), |j: int| j),
        |j: int| pred[j] == iob_tags(sent)[j],
        |j: int| pred[j] == sent[j].2,
    );
    if corpus.len() > 0 {
        lemma_chunk_hits_are_exact_matches(model, corpus.drop_last(), corpus.last());
        assert(corpus.drop_last().push(corpus.last()) =~= corpus);
        let last = corpus.last();
        lemma_agreements_count_exact_matches(decoded_iob(model, words_and_tags(last)), iob_tags(last));
    }
}

/// The words and POS tags of a chunked sentence, as two lists of texts.
fn split_chunked(sent: &Vec<ChunkedToken>) -> (r: (Vec<&str>, Vec<&str>))
    ensures
        r.0.deep_view() == pair_words(words_and_tags(sent.deep_view())),
        r.1.deep_view() == pair_tags(words_and_tags(sent.deep_view())),
{
    let ghost sv = sent.deep_view();
    let mut words: Vec<&str> = Vec::new();
    let mut pos: Vec<&str> = Vec::new();
    let mut k: usize = 0;
    while k < sent.len()
        invariant
            sv == sent.deep_view(),
            k <= sent@.len(),
            words.deep_view() =~= pair_words(words_and_tags(sv)).take(k as int),
            pos.deep_view() =~= pair_tags(words_and_tags(sv)).take(k as int),
        decreases sent@.len() - k,
    {
        let ghost pw = words.deep_view();
        let ghost pp = pos.deep_view();
        words.push(sent[k].0.as_str());
        pos.push(sent[k].1.as_str());
        assert(words.deep_view() =~= pw.push(sv[k as int].0));
        assert(pos.deep_view() =~= pp.push(sv[k as int].1));
        k = k + 1;
    }
    assert(words.deep_view() =~= pair_words(words_and_tags(sv)));
    assert(pos.deep_view() =~= pair_tags(words_and_tags(sv)));
    (words, pos)
}

/// The training examples of a chunked corpus: for each sentence, the
/// chunking features of its words and POS tags, and its IOB tags.
pub open spec fn chunk_examples(corpus: Seq<Seq<TokenView>>) -> Seq<(Seq<Seq<Seq<char>>>, Seq<Seq<char>>)> {
    Seq::new(
        corpus.len(),
        |k: int|
            (
                sentence_chunk_features_spec(
                    pair_words(words_and_tags(corpus[k])),
                    pair_tags(words_and_tags(corpus[k])),
                ),
                iob_tags(corpus[k]),
            ),
    )
}

/// Each training example pairs one chunked sentence with that sentence's own
/// IOB tags: example `k` has one feature list and one gold tag per token of
/// sentence `k`, the features of token `j` being the chunking features of
/// its word and POS tag in the sentence and its gold tag the IOB tag of
/// token `j`.
pub proof fn lemma_chunk_examples_pair_sentences(corpus: Seq<Seq<TokenView>>)
    ensures
        chunk_examples(corpus).len() == corpus.len(),
        forall|k: int| 0 <= k < corpus.len() ==> (#[trigger] chunk_examples(corpus)[k]).0.len() == corpus[k].len(),
        forall|k: int| 0 <= k < corpus.len() ==> (#[trigger] chunk_examples(corpus)[k]).1.len() == corpus[k].len(),
        forall|k: int, j: int|
            0 <= k < corpus.len() && 0 <= j < corpus[k].len() ==> (#[trigger] chunk_examples(corpus)[k]).1[j]
                == (#[trigger] corpus[k][j]).2,
        forall|k: int, j: int|
            0 <= k < corpus.len() && 0 <= j < corpus[k].len() ==> #[trigger] chunk_examples(corpus)[k].0[j]
                == chunk_features_spec(
                    corpus[k].map_values(|t: TokenView| t.0),
                    corpus[k].map_values(|t: TokenView| t.1),
                    j,
                ),
{
    assert forall|k: int| 0 <= k < corpus.len() implies {
        &&& pair_words(words_and_tags(#[trigger] corpus[k])) == corpus[k].map_values(|t: TokenView| t.0)
        &&& pair_tags(words_and_tags(corpus[k])) == corpus[k].map_values(|t: TokenView| t.1)
    } by {
        assert(pair_words(words_and_tags(corpus[k])) =~= corpus[k].map_values(|t: TokenView| t.0));
        assert(pair_tags(words_and_tags(corpus[k])) =~= corpus[k].map_values(|t: TokenView| t.1));
    }
}

/// The training examples and the label set of a chunked corpus: for each
/// sentence its chunking features and its IOB tags; the labels are the
/// distinct IOB tags of the corpus in ascending order.
pub fn prepare_chunk_training(tagged: &[ChunkedSentence]) -> (r: (Vec<(Vec<Vec<String>>, Vec<String>)>, Vec<String>))
    ensures
        r.0@.len() == tagged@.len(),
        r.0.deep_view() == chunk_examples(tagged.deep_view()),
        forall|k: int| 0 <= k < tagged@.len() ==> (#[trigger] r.0@[k]).0@.len() == tagged@[k]@.len(),
        forall|k: int| 0 <= k < tagged@.len() ==> (#[trigger] r.0@[k]).1@.len() == tagged@[k]@.len(),
        forall|k: int, j: int|
            0 <= k < tagged@.len() && 0 <= j < tagged@[k]@.len() ==> (#[trigger] r.0@[k]).1@[j]@
                == (#[trigger] tagged@[k]@[j]).2@,
        strictly_sorted(r.1.deep_view()),
        forall|t: Seq<char>| r.1.deep_view().contains(t) <==> corpus_has_iob(tagged.deep_view(), t),
{
    let ghost c = tagged.deep_view();
    let mut labels: Vec<String> = Vec::new();
    let mut examples: Vec<(Vec<Vec<String>>, Vec<String>)> = Vec::new();
    let mut s: usize = 0;
    while s < tagged.len()
        invariant
            c == tagged.deep_view(),
            s <= tagged@.len(),
            examples@.len() == s,
            forall|k: int| 0 <= k < s ==> {
                let sent = words_and_tags(c[k]);
                &&& (#[trigger] examples@[k]).0.deep_view() == sentence_chunk_features_spec(pair_words(sent), pair_tags(sent))
                &&& examples@[k].1.deep_view() == iob_tags(c[k])
            },
            strictly_sorted(labels.deep_view()),
            forall|t: Seq<char>| labels.deep_view().contains(t) <==> corpus_has_iob(c.take(s as int), t),
        decreases tagged@.len() - s,
    {
        let sent = &tagged[s];
        let ghost sv = c[s as int];
        let mut gold: Vec<String> = Vec::new();
        let mut k: usize = 0;
        while k < sent.len()
            invariant
                c == tagged.deep_view(),
                s < tagged@.len(),
                sv == c[s as int],
                sv == sent.deep_view(),
                k <= sent@.len(),
                gold.deep_view() =~= iob_tags(sv).take(k as int),
                strictly_sorted(labels.deep_view()),
                forall|t: Seq<char>| labels.deep_view().contains(t) <==> (corpus_has_iob(c.take(s as int), t)
                    || exists|j: int| 0 <= j < k && (#[trigger] sv[j]).2 == t),
            decreases sent@.len() - k,
        {
            let ghost before = labels.deep_view();
            insert_label(&mut labels, &sent[k].2);
            assert forall|t: Seq<char>| labels.deep_view().contains(t) <==> (corpus_has_iob(c.take(s as int), t)
                || exists|j: int| 0 <= j < k + 1 && (#[trigger] sv[j]).2 == t) by {
                if exists|j: int| 0 <= j < k + 1 && (#[trigger] sv[j]).2 == t {
                    let j = choose|j: int| 0 <= j < k + 1 && (#[trigger] sv[j]).2 == t;
                    if j < k {
                        assert(before.contains(t));
                    }
                }
                if before.contains(t) && !corpus_has_iob(c.take(s as int), t) {
                    let j = choose|j: int| 0 <= j < k && (#[trigger] sv[j]).2 == t;
                    assert(0 <= j < k + 1 && sv[j].2 == t);
                }
                if t == sent@[k as int].2@ {
                    assert(sv[k as int].2 == t);
                }
            }
            let ghost pg = gold.deep_view();
            let g = sent[k].2.clone();
            gold.push(g);
            assert(gold.deep_view() =~= pg.push(sv[k as int].2));
            k = k + 1;
        }
        assert(gold.deep_view() =~= iob_tags(sv));
        let (words, pos) = split_chunked(sent);
        assert(words@.len() == words.deep_view().len());
        assert(pos@.len() == pos.deep_view().len());
        let features = sentence_chunk_features(words.as_slice(), pos.as_slice());
        let ghost fv = features.deep_view();
        examples.push((features, gold));
        assert(examples@[s as int].0.deep_view() == fv);
        assert forall|t: Seq<char>| labels.deep_view().contains(t) <==> corpus_has_iob(c.take(s + 1), t) by {
            let c1 = c.take(s + 1);
            if corpus_has_iob(c1, t) {
                let (i, j) = choose|i: int, j: int| 0 <= i < c1.len() && 0 <= j < c1[i].len() && (#[trigger] c1[i][j]).2 == t;
                if i < s {
                    assert(c.take(s as int)[i][j] == c1[i][j]);
                } else {
                    assert(sv[j].2 == t);
                }
            }
            if corpus_has_iob(c.take(s as int), t) {
                let (i, j) = choose|i: int, j: int| 0 <= i < s && 0 <= j < c.take(s as int)[i].len() && (#[trigger] c.take(s as int)[i][j]).2 == t;
                assert(c1[i][j] == c.take(s as int)[i][j]);
            }
            if exists|j: int| 0 <= j < sv.len() && (#[trigger] sv[j]).2 == t {
                let j = choose|j: int| 0 <= j < sv.len() && (#[trigger] sv[j]).2 == t;
                assert(c1[s as int][j] == sv[j]);
            }
        }
        s = s + 1;
    }
    assert(c.take(c.len() as int) =~= c);
    assert(examples.deep_view() =~= chunk_examples(c));
    assert forall|k: int| 0 <= k < tagged@.len() implies (#[trigger] examples@[k]).0@.len() == tagged@[k]@.len() by {
        assert(examples@[k].0@.len() == examples@[k].0.deep_view().len());
    }
    proof {
        lemma_chunk_examples_pair_sentences(c);
        assert forall|k: int| 0 <= k < tagged@.len() implies (#[trigger] examples@[k]).1@.len() == tagged@[k]@.len() by {
            assert(examples@[k].1@.len() == examples.deep_view()[k].1.len());
            assert(c[k].len() == tagged@[k]@.len());
        }
        assert forall|k: int, j: int|
            0 <= k < tagged@.len() && 0 <= j < tagged@[k]@.len() implies (#[trigger] examples@[k]).1@[j]@
                == (#[trigger] tagged@[k]@[j]).2@ by {
            assert(examples@[k].1@[j]@ == examples.deep_view()[k].1[j]);
            assert(c[k][j] == tagged@[k]@[j].deep_view());
        }
    }
    (examples, labels)
}

/// Chunking keeps every token: its `(word, pos)` pairs are those of the
/// tagged sentence, and flattening the parse tree gives them back in order.
pub proof fn lemma_chunker_keeps_tokens(chunker: Chunker, tagged: Seq<(Seq<char>, Seq<char>)>)
    ensures
        words_and_tags(chunker.chunking(tagged)) == tagged,
        flatten(iob_tree(chunker.chunking(tagged))) == tagged,
        phrases_non_empty(iob_tree(chunker.chunking(tagged))),
{
    assert(words_and_tags(chunker.chunking(tagged)) =~= tagged);
    lemma_iob_tree_keeps_tokens(chunker.chunking(tagged));
}

/// CRF-based IOB chunker.
///
/// It decodes with a structured perceptron over the features of
/// [`crate::features::chunk_features`].  A model is trained with
/// [`Chunker::train`] and handed over with [`Chunker::load_model`].
pub struct Chunker {
    model: Option<crfrs::PerceptronModel>,
}

impl Default for Chunker {
    fn default() -> (c: Self)
        ensures
            c.loaded_model() is None,
    {
        Chunker::new()
    }
}

impl Chunker {
    /// The model that the chunker holds, if any.
    pub closed spec fn loaded_model(&self) -> Option<crfrs::PerceptronModel> {
        self.model
    }

    /// The chunker holds no model, or one with at least one label: it can
    /// chunk any sentence.
    pub open spec fn ready(&self) -> bool {
        self.loaded_model() matches Some(m) ==> model_labels(m).len() > 0
    }

    /// Every IOB tag that the held model decodes for the POS-tagged sentence
    /// `tagged` can be read into a tree.
    pub open spec fn decodes_readable(&self, tagged: Seq<(Seq<char>, Seq<char>)>) -> bool {
        self.loaded_model() matches Some(m) ==> forall|i: int|
            0 <= i < tagged.len() ==> iob_readable(#[trigger] decoded_iob(m, tagged)[i])
    }

    /// The `(word, pos, iob)` triples that chunking a POS-tagged sentence
    /// gives.
    pub open spec fn chunking(&self, tagged: Seq<(Seq<char>, Seq<char>)>) -> Seq<TokenView> {
        if tagged.len() == 0 {
            seq![]
        } else {
            Seq::new(
                tagged.len(),
                |i: int| (tagged[i].0, tagged[i].1, decoded_iob(self.loaded_model().unwrap(), tagged)[i]),
            )
        }
    }

    /// Creates a chunker with no loaded model.
    pub fn new() -> (c: Self)
        ensures
            c.loaded_model() is None,
    {
        Chunker { model: None }
    }

    /// Installs a model (such as one read from a file saved after
    /// [`Chunker::train`]).
    pub fn load_model(&mut self, model: crfrs::PerceptronModel)
        ensures
            final(self).loaded_model() == Some(model),
    {
        self.model = Some(model);
    }

    /// Whether the chunker can chunk any sentence.
    pub fn can_tag(&self) -> (r: bool)
        ensures
            r == self.ready(),
    {
        match &self.model {
            Some(m) => labels_of(m).len() > 0,
            None => true,
        }
    }

    /// Assigns IOB chunk tags to a POS-tagged sentence.
    pub fn tag<'a>(&self, tagged: &[(&'a str, &'a str)]) -> (r: Result<ChunkedSentence, Error>)
        requires
            tagged@.len() == 0 || self.ready(),
        ensures
            match r {
                Ok(v) => {
                    &&& self.loaded_model() is Some
                    &&& v.deep_view() == self.chunking(tagged.deep_view())
                    &&& tagged@.len() > 0 ==> decoded_iob(self.loaded_model().unwrap(), tagged.deep_view()).len()
                        == tagged@.len()
                    &&& forall|i: int| 0 <= i < v@.len() ==> model_labels(self.loaded_model().unwrap()).contains(
                        #[trigger] v.deep_view()[i].2,
                    )
                },
                Err(e) => self.loaded_model() is None && e is ModelNotLoaded,
            },
    {
        let model = match &self.model {
            Some(m) => m,
            None => return Err(Error::ModelNotLoaded),
        };
        let ghost tv = tagged.deep_view();
        if tagged.len() == 0 {
            let v: ChunkedSentence = Vec::new();
            assert(v.deep_view() =~= self.chunking(tv));
            return Ok(v);
        }
        let mut words: Vec<&str> = Vec::new();
        let mut pos: Vec<&str> = Vec::new();
        let mut k: usize = 0;
        while k < tagged.len()
            invariant
                tv == tagged.deep_view(),
                k <= tagged@.len(),
                words.deep_view() =~= pair_words(tv).take(k as int),
                pos.deep_view() =~= pair_tags(tv).take(k as int),
            decreases tagged@.len() - k,
        {
            let ghost pw = words.deep_view();
            let ghost pp = pos.deep_view();
            words.push(tagged[k].0);
            pos.push(tagged[k].1);
            assert(words.deep_view() =~= pw.push(tv[k as int].0));
            assert(pos.deep_view() =~= pp.push(tv[k as int].1));
            k = k + 1;
        }
        assert(words.deep_view() =~= pair_words(tv));
        assert(pos.deep_view() =~= pair_tags(tv));
        assert(words@.len() == words.deep_view().len());
        assert(pos@.len() == pos.deep_view().len());
        let features = sentence_chunk_features(words.as_slice(), pos.as_slice());
        assert(features@.len() == features.deep_view().len());
        let iob = decode(model, &features);
        let mut v: ChunkedSentence = Vec::new();
        let mut i: usize = 0;
        while i < tagged.len()
            invariant
                tv == tagged.deep_view(),
                self.loaded_model() == Some(*model),
                iob.deep_view() == decoded_iob(*model, tv),
                iob@.len() == tagged@.len(),
                forall|j: int| 0 <= j < iob@.len() ==> model_labels(*model).contains(#[trigger] iob@[j]@),
                i <= tagged@.len(),
                v.deep_view() =~= Seq::new(
                    i as nat,
                    |j: int| (tv[j].0, tv[j].1, decoded_iob(*model, tv)[j]),
                ),
            decreases tagged@.len() - i,
        {
            let ghost prev = v.deep_view();
            let t = (String::from_str(tagged[i].0), String::from_str(tagged[i].1), iob[i].clone());
            let ghost t_view = t.deep_view();
            v.push(t);
            assert(v.deep_view() =~= prev.push(t_view));
            i = i + 1;
        }
        assert(v.deep_view() =~= self.chunking(tv));
        Ok(v)
    }

    /// Chunks several sentences, one after another, as [`Chunker::tag`] does.
    pub fn tag_sents<'a>(&self, sents: &[Vec<(&'a str, &'a str)>]) -> (r: Result<Vec<ChunkedSentence>, Error>)
        requires
            forall|i: int| 0 <= i < sents@.len() ==> (#[trigger] sents@[i])@.len() == 0 || self.ready(),
        ensures
            match r {
                Ok(vs) => {
                    &&& self.loaded_model() is Some || sents@.len() == 0
                    &&& vs@.len() == sents@.len()
                    &&& forall|i: int| 0 <= i < vs@.len() ==> (#[trigger] vs@[i]).deep_view() == self.chunking(sents@[i].deep_view())
                },
                Err(e) => self.loaded_model() is None && sents@.len() > 0 && e is ModelNotLoaded,
            },
    {
        let mut vs: Vec<ChunkedSentence> = Vec::new();
        let mut i: usize = 0;
        while i < sents.len()
            invariant
                forall|j: int| 0 <= j < sents@.len() ==> (#[trigger] sents@[j])@.len() == 0 || self.ready(),
                i <= sents@.len(),
                i > 0 ==> self.loaded_model() is Some,
                vs@.len() == i,
                forall|j: int| 0 <= j < i ==> (#[trigger] vs@[j]).deep_view() == self.chunking(sents@[j].deep_view()),
            decreases sents@.len() - i,
        {
            match self.tag(sents[i].as_slice()) {
                Ok(v) => {
                    vs.push(v);
                },
                Err(e) => {
                    return Err(e);
                },
            }
            i = i + 1;
        }
        Ok(vs)
    }

    /// Parses a POS-tagged sentence into a tree: its IOB tags, read by
    /// [`iob_to_tree`].
    pub fn parse<'a>(&self, tagged: &[(&'a str, &'a str)]) -> (r: Result<Vec<ParseNode>, Error>)
        requires
            tagged@.len() == 0 || self.ready(),
            self.decodes_readable(tagged.deep_view()),
        ensures
            match r {
                Ok(tree) => self.loaded_model() is Some && tree.deep_view() == iob_tree(self.chunking(tagged.deep_view())),
                Err(e) => self.loaded_model() is None && e is ModelNotLoaded,
            },
    {
        let chunked = match self.tag(tagged) {
            Ok(v) => v,
            Err(e) => return Err(e),
        };
        proof {
            let cv = chunked.deep_view();
            if tagged@.len() > 0 {
                let m = self.loaded_model().unwrap();
                assert forall|i: int| 0 <= i < cv.len() implies iob_readable(#[trigger] cv[i].2) by {
                    assert(cv[i].2 == decoded_iob(m, tagged.deep_view())[i]);
                }
            }
        }
        Ok(iob_to_tree(chunked.as_slice()))
    }

    /// Parses a POS-tagged sentence as [`Chunker::parse`] does, after checking
    /// that every IOB tag the model decodes for it can be read into a tree;
    /// `None` when one cannot.
    pub fn parse_checked<'a>(&self, tagged: &[(&'a str, &'a str)]) -> (r: Option<Result<Vec<ParseNode>, Error>>)
        requires
            tagged@.len() == 0 || self.ready(),
        ensures
            r is None <==> !self.decodes_readable(tagged.deep_view()),
            r matches Some(res) ==> match res {
                Ok(tree) => self.loaded_model() is Some && tree.deep_view() == iob_tree(self.chunking(tagged.deep_view())),
                Err(e) => self.loaded_model() is None && e is ModelNotLoaded,
            },
    {
        let chunked = match self.tag(tagged) {
            Ok(v) => v,
            Err(e) => return Some(Err(e)),
        };
        let ghost tv = tagged.deep_view();
        let ghost m = self.loaded_model().unwrap();
        assert(chunked@.len() == chunked.deep_view().len());
        let mut i: usize = 0;
        while i < chunked.len()
            invariant
                self.loaded_model() == Some(m),
                tv == tagged.deep_view(),
                chunked.deep_view() == self.chunking(tv),
                tv.len() > 0 ==> decoded_iob(m, tv).len() == tv.len(),
                chunked@.len() == tv.len(),
                i <= chunked@.len(),
                forall|j: int| 0 <= j < i ==> iob_readable(#[trigger] decoded_iob(m, tv)[j]),
            decreases chunked@.len() - i,
        {
            assert(chunked.deep_view()[i as int].2 == decoded_iob(m, tv)[i as int]);
            assert(chunked@[i as int].2@ == chunked.deep_view()[i as int].2);
            if !iob_text_readable(chunked[i].2.as_str()) {
                assert(!iob_readable(decoded_iob(m, tv)[i as int]));
                return None;
            }
            i = i + 1;
        }
        Some(self.parse(tagged))
    }

    /// Trains a model on a chunked corpus (each sentence a list of
    /// `(word, pos, iob)` triples): the model that `crfrs::train` makes from
    /// the chunking features and IOB tags of each sentence, with the distinct
    /// IOB tags of the corpus in ascending order as its labels, for
    /// `config.epochs` passes.
    pub fn train(tagged: &[ChunkedSentence], config: crfrs::TrainConfig) -> (m: crfrs::PerceptronModel)
        ensures
            strictly_sorted(model_labels(m)),
            forall|t: Seq<char>| model_labels(m).contains(t) <==> corpus_has_iob(tagged.deep_view(), t),
            forall|f: Seq<Seq<Seq<char>>>|
                #[trigger] decoded_labels(m, f) == trained_decoding(
                    chunk_examples(tagged.deep_view()),
                    model_labels(m),
                    config_epochs(config),
                    f,
                ),
    {
        let epochs = epochs_of(&config);
        let (examples, labels) = prepare_chunk_training(tagged);
        proof {
            let c = tagged.deep_view();
            if labels@.len() == 0 {
                assert forall|k: int| 0 <= k < examples@.len() implies (#[trigger] examples@[k]).0@.len() == 0 by {
                    if c[k].len() > 0 {
                        assert(corpus_has_iob(c, c[k][0].2));
                        assert(labels.deep_view().contains(c[k][0].2));
                    }
                }
            }
        }
        train_model(&examples, labels, epochs)
    }

    /// Counts, over a chunked corpus, the tokens whose IOB tag the model
    /// predicts and all tokens: `(correct, total)`.  Accuracy is their ratio.
    pub fn evaluate(&self, test: &[ChunkedSentence]) -> (r: Result<(usize, usize), Error>)
        requires
            self.ready() || forall|i: int| 0 <= i < test@.len() ==> (#[trigger] test@[i])@.len() == 0,
            token_count(test.deep_view()) <= usize::MAX,
        ensures
            match r {
                Ok((correct, total)) => {
                    &&& self.loaded_model() is Some
                    &&& total == token_count(test.deep_view())
                    &&& correct <= total
                    &&& correct == chunk_hits(self.loaded_model().unwrap(), test.deep_view())
                },
                Err(e) => self.loaded_model() is None && e is ModelNotLoaded,
            },
    {
        let model = match &self.model {
            Some(m) => m,
            None => return Err(Error::ModelNotLoaded),
        };
        let ghost corpus = test.deep_view();
        let mut correct: usize = 0;
        let mut total: usize = 0;
        let mut s: usize = 0;
        while s < test.len()
            invariant
                corpus == test.deep_view(),
                self.loaded_model() == Some(*model),
                self.ready() || forall|i: int| 0 <= i < test@.len() ==> (#[trigger] test@[i])@.len() == 0,
                token_count(corpus) <= usize::MAX,
                s <= test@.len(),
                total == token_count(corpus.take(s as int)),
                correct <= total,
                correct == chunk_hits(*model, corpus.take(s as int)),
            decreases test@.len() - s,
        {
            let sent = &test[s];
            let ghost sv = corpus[s as int];
            let (words, pos) = split_chunked(sent);
            assert(words@.len() == words.deep_view().len());
            assert(pos@.len() == pos.deep_view().len());
            let features = sentence_chunk_features(words.as_slice(), pos.as_slice());
            assert(features@.len() == features.deep_view().len());
            let pred = decode(model, &features);
            proof {
                lemma_token_count_prefix(corpus, s as int);
            }
            let mut hits: usize = 0;
            let mut j: usize = 0;
            while j < sent.len()
                invariant
                    sv == sent.deep_view(),
                    pred@.len() == sv.len(),
                    j <= sent@.len(),
                    hits <= j,
                    hits == agreements(pred.deep_view(), iob_tags(sv).take(j as int)),
                decreases sent@.len() - j,
            {
                assert(iob_tags(sv).take(j + 1).drop_last() =~= iob_tags(sv).take(j as int));
                if pred[j] == sent[j].2 {
                    hits = hits + 1;
                }
                j = j + 1;
            }
            assert(iob_tags(sv).take(sv.len() as int) =~= iob_tags(sv));
            assert(corpus.take(s + 1).drop_last() =~= corpus.take(s as int));
            total = total + sent.len();
            correct = correct + hits;
            s = s + 1;
        }
        assert(corpus.take(corpus.len() as int) =~= corpus);
        Ok((correct, total))
    }
}

} // verus!
