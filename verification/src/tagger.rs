//! Part-of-speech tagging with a structured-perceptron model.

use vstd::prelude::*;
use crate::error::Error;
use crate::features::{pos_features_spec, sentence_pos_features, sentence_pos_features_spec};
use crate::labels::{insert_label, strictly_sorted};
use crate::text::begins_with;
use crate::model::{
    agreements, config_epochs, lemma_agreements_count_exact_matches, lemma_filter_same, decode, decoded_labels, epochs_of, labels_of, lemma_token_count_prefix, model_labels,
    token_count, train_model, trained_decoding,
};

verus! {

/// The part of a tag before its first comma (all of it when there is none):
/// the universal tag of a detailed one such as `N,EZ`.
pub open spec fn universal_tag(t: Seq<char>) -> Seq<char>
    decreases t.len(),
{
    if t.len() == 0 {
        t
    } else if t[0] == ',' {
        seq![]
    } else {
        seq![t[0]] + universal_tag(t.drop_first())
    }
}

/// The words of a sentence of `(word, tag)` pairs.
pub open spec fn words_of(sent: Seq<(Seq<char>, Seq<char>)>) -> Seq<Seq<char>> {
    sent.map_values(|p: (Seq<char>, Seq<char>)| p.0)
}

/// The tags of a sentence of `(word, tag)` pairs.
pub open spec fn tags_of(sent: Seq<(Seq<char>, Seq<char>)>) -> Seq<Seq<char>> {
    sent.map_values(|p: (Seq<char>, Seq<char>)| p.1)
}

/// Some token of the corpus carries the tag `t`.
pub open spec fn corpus_has_tag(corpus: Seq<Seq<(Seq<char>, Seq<char>)>>, t: Seq<char>) -> bool {
    exists|i: int, j: int| 0 <= i < corpus.len() && 0 <= j < corpus[i].len() && (#[trigger] corpus[i][j]).1 == t
}

/// The training examples of a tagged corpus: for each sentence, the POS
/// features of its words and its tags.
pub open spec fn pos_examples(corpus: Seq<Seq<(Seq<char>, Seq<char>)>>) -> Seq<(Seq<Seq<Seq<char>>>, Seq<Seq<char>>)> {
    Seq::new(corpus.len(), |k: int| (sentence_pos_features_spec(words_of(corpus[k])), tags_of(corpus[k])))
}

/// Each training example pairs one sentence with that sentence's own tags:
/// example `k` has one feature list and one gold tag per token of sentence
/// `k`, the features of token `j` being the POS features of its word in the
/// sentence and its gold tag the tag of token `j`.
pub proof fn lemma_pos_examples_pair_sentences(corpus: Seq<Seq<(Seq<char>, Seq<char>)>>)
    ensures
        pos_examples(corpus).len() == corpus.len(),
        forall|k: int| 0 <= k < corpus.len() ==> (#[trigger] pos_examples(corpus)[k]).0.len() == corpus[k].len(),
        forall|k: int| 0 <= k < corpus.len() ==> (#[trigger] pos_examples(corpus)[k]).1.len() == corpus[k].len(),
        forall|k: int, j: int|
            0 <= k < corpus.len() && 0 <= j < corpus[k].len() ==> (#[trigger] pos_examples(corpus)[k]).1[j]
                == (#[trigger] corpus[k][j]).1,
        forall|k: int, j: int|
            0 <= k < corpus.len() && 0 <= j < corpus[k].len() ==> #[trigger] pos_examples(corpus)[k].0[j]
                == pos_features_spec(corpus[k].map_values(|p: (Seq<char>, Seq<char>)| p.0), j),
{
    assert forall|k: int| 0 <= k < corpus.len() implies words_of(#[trigger] corpus[k]) == corpus[k].map_values(|p: (Seq<char>, Seq<char>)| p.0) by {
        assert(words_of(corpus[k]) =~= corpus[k].map_values(|p: (Seq<char>, Seq<char>)| p.0));
    }
}

/// The number of tokens of a corpus whose tag the model predicts.
pub open spec fn pos_hits(model: crfrs::PerceptronModel, corpus: Seq<Seq<(Seq<char>, Seq<char>)>>) -> nat
    decreases corpus.len(),
{
    if corpus.len() == 0 {
        0
    } else {
        pos_hits(model, corpus.drop_last()) + agreements(
            decoded_labels(model, sentence_pos_features_spec(words_of(corpus.last()))),
            tags_of(corpus.last()),
        )
    }
}

/// Evaluation counts the tokens whose predicted tag is exactly, as a whole
/// text, their gold tag: an empty corpus has no hits, adding a sentence adds
/// the number of its positions at which the tag the model decodes for its
/// words equals the gold tag, and the hits never exceed the tokens.
pub proof fn lemma_pos_hits_are_exact_matches(
    model: crfrs::PerceptronModel,
    corpus: Seq<Seq<(Seq<char>, Seq<char>)>>,
    sent: Seq<(Seq<char>, Seq<char>)>,
)
    ensures
        pos_hits(model, seq![]) == 0,
        pos_hits(model, corpus.push(sent)) == pos_hits(model, corpus) + Seq::new(sent.len(), |j: int| j).filter(
            |j: int|
                decoded_labels(
                    model,
                    sentence_pos_features_spec(sent.map_values(|p: (Seq<char>, Seq<char>)| p.0)),
                )[j] == sent[j].1,
        ).len(),
        pos_hits(model, corpus) <= token_count(corpus),
    decreases corpus.len(),
{
    let pred = decoded_labels(model, sentence_pos_features_spec(sent.map_values(|p: (Seq<char>, Seq<char>)| p.0)));
    assert(corpus.push(sent).drop_last() =~= corpus);
    assert(words_of(sent) =~= sent.map_values(|p: (Seq<char>, Seq<char>)| p.0));
    lemma_agreements_count_exact_matches(pred, tags_of(sent));
    lemma_filter_same(
        Seq::new(sent.len(), |j: int| j),
        |j: int| pred[j] == tags_of(sent)[j],
        |j: int| pred[j] == sent[j].1,
    );
    if corpus.len() > 0 {
        lemma_pos_hits_are_exact_matches(model, corpus.drop_last(), corpus.last());
        assert(corpus.drop_last().push(corpus.last()) =~= corpus);
        let last = corpus.last();
        lemma_agreements_count_exact_matches(
            decoded_labels(model, sentence_pos_features_spec(words_of(last))),
            tags_of(last),
        );
    }
}

/// The universal tag of `tag`: its part before the first comma.
pub fn to_universal(tag: &str) -> (r: String)
    ensures
        r@ == universal_tag(tag@),
{
    let n = tag.unicode_len();
    let mut i: usize = 0;
    assert(tag@.skip(0) =~= tag@);
    while i < n && tag.get_char(i) != ','
        invariant
            n == tag@.len(),
            i <= n,
            universal_tag(tag@) == tag@.take(i as int) + universal_tag(tag@.skip(i as int)),
        decreases n - i,
    {
        assert(tag@.skip(i as int).drop_first() =~= tag@.skip(i + 1));
        assert(tag@.take(i + 1) =~= tag@.take(i as int) + seq![tag@[i as int]]);
        i = i + 1;
    }
    let r = String::from_str(tag.substring_char(0, i));
    assert(universal_tag(tag@.skip(i as int)) =~= seq![]);
    assert(r@ =~= universal_tag(tag@));
    r
}

/// Part-of-speech tagger.
///
/// It decodes with a structured perceptron over the features of
/// [`crate::features::pos_features`].  A model is trained with
/// [`POSTagger::train`] and handed over with [`POSTagger::load_model`].
pub struct POSTagger {
    model: Option<crfrs::PerceptronModel>,
    universal: bool,
}

impl Default for POSTagger {
    fn default() -> (t: Self)
        ensures
            t.loaded_model() is None,
            !t.is_universal(),
    {
        POSTagger::new()
    }
}

/// A universal tag is the longest comma-free beginning of the tag it comes
/// from: it begins the tag, holds no comma, and is the whole tag or is
/// followed in it by a comma; so mapping it again leaves it as it is.
pub proof fn lemma_universal_tag(t: Seq<char>)
    ensures
        begins_with(t, universal_tag(t)),
        !universal_tag(t).contains(','),
        universal_tag(t).len() == t.len() || t[universal_tag(t).len() as int] == ',',
        universal_tag(universal_tag(t)) == universal_tag(t),
    decreases t.len(),
{
    if t.len() > 0 && t[0] != ',' {
        let rest = t.drop_first();
        lemma_universal_tag(rest);
        let u = universal_tag(rest);
        assert(universal_tag(t) == seq![t[0]] + u);
        assert(universal_tag(t).drop_first() =~= u);
        assert(t.take(universal_tag(t).len() as int) =~= seq![t[0]] + rest.take(u.len() as int));
        if universal_tag(t).contains(',') {
            let k = choose|k: int| 0 <= k < universal_tag(t).len() && universal_tag(t)[k] == ',';
            if k > 0 {
                assert(u[k - 1] == ',');
            }
        }
    } else if t.len() > 0 {
        assert(t.take(0) =~= seq![]);
    } else {
        assert(t.take(0) =~= t);
    }
}

/// Tagging keeps the words: the words of the `(word, tag)` pairs are those
/// of the sentence, and there is one tag per word.
pub proof fn lemma_tagging_keeps_words(tagger: POSTagger, words: Seq<Seq<char>>)
    ensures
        words_of(tagger.tagging(words)) == words,
{
    assert(words_of(tagger.tagging(words)) =~= words);
}

impl POSTagger {
    /// The model that the tagger holds, if any.
    pub closed spec fn loaded_model(&self) -> Option<crfrs::PerceptronModel> {
        self.model
    }

    /// Whether the tagger maps its tags to universal ones.
    pub closed spec fn is_universal(&self) -> bool {
        self.universal
    }

    /// The tagger holds no model, or one with at least one label: it can tag
    /// any sentence.
    pub open spec fn ready(&self) -> bool {
        self.loaded_model() matches Some(m) ==> model_labels(m).len() > 0
    }

    /// The tags that the held model gives to the words of a sentence, mapped
    /// to universal tags when the tagger does so.
    pub open spec fn tags_for(&self, words: Seq<Seq<char>>) -> Seq<Seq<char>> {
        let raw = decoded_labels(self.loaded_model().unwrap(), sentence_pos_features_spec(words));
        if self.is_universal() {
            raw.map_values(|t: Seq<char>| universal_tag(t))
        } else {
            raw
        }
    }

    /// The `(word, tag)` pairs that tagging a sentence gives.
    pub open spec fn tagging(&self, words: Seq<Seq<char>>) -> Seq<(Seq<char>, Seq<char>)> {
        if words.len() == 0 {
            seq![]
        } else {
            Seq::new(words.len(), |i: int| (words[i], self.tags_for(words)[i]))
        }
    }

    /// Creates a tagger with no loaded model.
    pub fn new() -> (t: Self)
        ensures
            t.loaded_model() is None,
            !t.is_universal(),
    {
        POSTagger { model: None, universal: false }
    }

    /// Creates a tagger that maps POS tags to the universal tagset.
    pub fn universal() -> (t: Self)
        ensures
            t.loaded_model() is None,
            t.is_universal(),
    {
        POSTagger { model: None, universal: true }
    }

    /// Installs a model (such as one read from a file saved after
    /// [`POSTagger::train`]).
    pub fn load_model(&mut self, model: crfrs::PerceptronModel)
        ensures
            final(self).loaded_model() == Some(model),
            final(self).is_universal() == old(self).is_universal(),
    {
        self.model = Some(model);
    }

    /// Whether the tagger can tag any sentence: it holds no model, or one
    /// with at least one label.
    pub fn can_tag(&self) -> (r: bool)
        ensures
            r == self.ready(),
    {
        match &self.model {
            Some(m) => labels_of(m).len() > 0,
            None => true,
        }
    }

    /// Tags a single sentence.  Returns `(word, pos_tag)` pairs.
    pub fn tag<'a>(&self, tokens: &[&'a str]) -> (r: Result<Vec<(&'a str, String)>, Error>)
        requires
            tokens@.len() == 0 || self.ready(),
        ensures
            match r {
                Ok(v) => {
                    &&& self.loaded_model() is Some
                    &&& v.deep_view() == self.tagging(tokens.deep_view())
                    &&& v@.len() == tokens@.len()
                    &&& forall|i: int| 0 <= i < v@.len() ==> (#[trigger] v@[i]).0 == tokens@[i]
                    &&& tokens@.len() > 0 ==> decoded_labels(
                        self.loaded_model().unwrap(),
                        sentence_pos_features_spec(tokens.deep_view()),
                    ).len() == tokens@.len()
                    &&& !self.is_universal() ==> forall|i: int| 0 <= i < v@.len() ==> model_labels(
                        self.loaded_model().unwrap(),
                    ).contains(#[trigger] v.deep_view()[i].1)
                    &&& self.is_universal() ==> forall|i: int| 0 <= i < v@.len() ==> !(#[trigger] v.deep_view()[i].1).contains(',')
                },
                Err(e) => self.loaded_model() is None && e is ModelNotLoaded,
            },
    {
        let model = match &self.model {
            Some(m) => m,
            None => return Err(Error::ModelNotLoaded),
        };
        let ghost words = tokens.deep_view();
        if tokens.len() == 0 {
            let v: Vec<(&'a str, String)> = Vec::new();
            assert(v.deep_view() =~= self.tagging(words));
            return Ok(v);
        }
        let features = sentence_pos_features(tokens);
        let raw = decode(model, &features);
        let ghost raw_view = raw.deep_view();
        let mut tags: Vec<String> = Vec::new();
        if self.universal {
            let mut k: usize = 0;
            while k < raw.len()
                invariant
                    k <= raw@.len(),
                    tags.deep_view() =~= raw.deep_view().take(k as int).map_values(|t: Seq<char>| universal_tag(t)),
                decreases raw@.len() - k,
            {
                let u = to_universal(raw[k].as_str());
                let ghost prev = tags.deep_view();
                let ghost uv = u@;
                tags.push(u);
                assert(tags.deep_view() =~= prev.push(uv));
                assert(raw.deep_view().take(k + 1) =~= raw.deep_view().take(k as int).push(raw@[k as int]@));
                k = k + 1;
            }
            assert(raw.deep_view().take(raw@.len() as int) =~= raw.deep_view());
        } else {
            tags = raw;
        }
        assert(!self.universal ==> forall|j: int| 0 <= j < tags@.len() ==> model_labels(*model).contains(#[trigger] tags@[j]@));
        assert(tags.deep_view() == self.tags_for(words));
        assert(tags@.len() == tags.deep_view().len());
        assert(features@.len() == features.deep_view().len());
        let mut v: Vec<(&'a str, String)> = Vec::new();
        let mut i: usize = 0;
        while i < tokens.len()
            invariant
                words == tokens.deep_view(),
                self.loaded_model() == Some(*model),
                !self.universal ==> forall|j: int| 0 <= j < tags@.len() ==> model_labels(*model).contains(#[trigger] tags@[j]@),
                tags.deep_view() == self.tags_for(words),
                tags@.len() == tokens@.len(),
                i <= tokens@.len(),
                v@.len() == i,
                forall|j: int| 0 <= j < i ==> (#[trigger] v@[j]).0 == tokens@[j],
                v.deep_view() =~= Seq::new(i as nat, |j: int| (words[j], self.tags_for(words)[j])),
            decreases tokens@.len() - i,
        {
            let ghost prev = v.deep_view();
            let t = tags[i].clone();
            let ghost tv = t@;
            v.push((tokens[i], t));
            assert(v.deep_view() =~= prev.push((words[i as int], tv)));
            i = i + 1;
        }
        assert(v.deep_view() =~= self.tagging(words));
        proof {
            if self.universal {
                assert forall|i: int| 0 <= i < v@.len() implies !(#[trigger] v.deep_view()[i].1).contains(',') by {
                    lemma_universal_tag(raw_view[i]);
                }
            }
        }
        Ok(v)
    }

    /// Tags several sentences, one after another, as [`POSTagger::tag`] does.
    pub fn tag_sents<'a>(&self, sentences: &[Vec<&'a str>]) -> (r: Result<Vec<Vec<(&'a str, String)>>, Error>)
        requires
            forall|i: int| 0 <= i < sentences@.len() ==> (#[trigger] sentences@[i])@.len() == 0 || self.ready(),
        ensures
            match r {
                Ok(vs) => {
                    &&& self.loaded_model() is Some || sentences@.len() == 0
                    &&& vs@.len() == sentences@.len()
                    &&& forall|i: int| 0 <= i < vs@.len() ==> (#[trigger] vs@[i]).deep_view() == self.tagging(sentences@[i].deep_view())
                },
                Err(e) => self.loaded_model() is None && sentences@.len() > 0 && e is ModelNotLoaded,
            },
    {
        let mut vs: Vec<Vec<(&'a str, String)>> = Vec::new();
        let mut i: usize = 0;
        while i < sentences.len()
            invariant
                forall|j: int| 0 <= j < sentences@.len() ==> (#[trigger] sentences@[j])@.len() == 0 || self.ready(),
                i <= sentences@.len(),
                i > 0 ==> self.loaded_model() is Some,
                vs@.len() == i,
                forall|j: int| 0 <= j < i ==> (#[trigger] vs@[j]).deep_view() == self.tagging(sentences@[j].deep_view()),
            decreases sentences@.len() - i,
        {
            match self.tag(sentences[i].as_slice()) {
                Ok(v) => {
                    vs.push(v);
                },
                Err(e) => {
                    return Err(e);
                },
            }
            i = i + 1;
        }
        Ok(vs)
    }

    /// Trains a model on a tagged corpus (each sentence a list of
    /// `(word, pos_tag)` pairs): the model that `crfrs::train` makes from the
    /// POS features and tags of each sentence, with the distinct tags of the
    /// corpus in ascending order as its labels, for `config.epochs` passes.
    pub fn train(tagged: &[Vec<(String, String)>], config: crfrs::TrainConfig) -> (m: crfrs::PerceptronModel)
        ensures
            strictly_sorted(model_labels(m)),
            forall|t: Seq<char>| model_labels(m).contains(t) <==> corpus_has_tag(tagged.deep_view(), t),
            forall|f: Seq<Seq<Seq<char>>>|
                #[trigger] decoded_labels(m, f) == trained_decoding(
                    pos_examples(tagged.deep_view()),
                    model_labels(m),
                    config_epochs(config),
                    f,
                ),
    {
        let epochs = epochs_of(&config);
        let (examples, labels) = prepare_training(tagged);
        proof {
            let c = tagged.deep_view();
            if labels@.len() == 0 {
                assert forall|k: int| 0 <= k < examples@.len() implies (#[trigger] examples@[k]).0@.len() == 0 by {
                    if c[k].len() > 0 {
                        assert(corpus_has_tag(c, c[k][0].1));
                        assert(labels.deep_view().contains(c[k][0].1));
                    }
                }
            }
        }
        train_model(&examples, labels, epochs)
    }

    /// Counts, over a tagged corpus, the tokens whose tag the model predicts
    /// and all tokens: `(correct, total)`.  Accuracy is their ratio.  The
    /// model's own tags are compared, not universal ones.
    pub fn evaluate(&self, tagged_sents: &[Vec<(String, String)>]) -> (r: Result<(usize, usize), Error>)
        requires
            self.ready() || forall|i: int| 0 <= i < tagged_sents@.len() ==> (#[trigger] tagged_sents@[i])@.len() == 0,
            token_count(tagged_sents.deep_view()) <= usize::MAX,
        ensures
            match r {
                Ok((correct, total)) => {
                    &&& self.loaded_model() is Some
                    &&& total == token_count(tagged_sents.deep_view())
                    &&& correct <= total
                    &&& correct == pos_hits(self.loaded_model().unwrap(), tagged_sents.deep_view())
                },
                Err(e) => self.loaded_model() is None && e is ModelNotLoaded,
            },
    {
        let model = match &self.model {
            Some(m) => m,
            None => return Err(Error::ModelNotLoaded),
        };
        let ghost corpus = tagged_sents.deep_view();
        let mut correct: usize = 0;
        let mut total: usize = 0;
        let mut s: usize = 0;
        while s < tagged_sents.len()
            invariant
                corpus == tagged_sents.deep_view(),
                self.loaded_model() == Some(*model),
                self.ready() || forall|i: int| 0 <= i < tagged_sents@.len() ==> (#[trigger] tagged_sents@[i])@.len() == 0,
                token_count(corpus) <= usize::MAX,
                s <= tagged_sents@.len(),
                total == token_count(corpus.take(s as int)),
                correct <= total,
                correct == pos_hits(*model, corpus.take(s as int)),
            decreases tagged_sents@.len() - s,
        {
            let sent = &tagged_sents[s];
            let ghost sv = corpus[s as int];
            let mut words: Vec<&str> = Vec::new();
            let mut k: usize = 0;
            while k < sent.len()
                invariant
                    sv == sent.deep_view(),
                    k <= sent@.len(),
                    words.deep_view() =~= words_of(sv).take(k as int),
                decreases sent@.len() - k,
            {
                let ghost prev = words.deep_view();
                words.push(sent[k].0.as_str());
                assert(words.deep_view() =~= prev.push(sv[k as int].0));
                k = k + 1;
            }
            assert(words.deep_view() =~= words_of(sv));
            let features = sentence_pos_features(words.as_slice());
            assert(features@.len() == features.deep_view().len());
            assert(words@.len() == words.deep_view().len());
            let pred = decode(model, &features);
            proof {
                lemma_token_count_prefix(corpus, s as int);
            }
            let mut hits: usize = 0;
            let mut j: usize = 0;
            while j < sent.len()
                invariant
                    sv == sent.deep_view(),
                    pred@.len() == sv.len(),
                    j <= sent@.len(),
                    hits <= j,
                    hits == agreements(pred.deep_view(), tags_of(sv).take(j as int)),
                decreases sent@.len() - j,
            {
                assert(tags_of(sv).take(j + 1).drop_last() =~= tags_of(sv).take(j as int));
                if pred[j] == sent[j].1 {
                    hits = hits + 1;
                }
                j = j + 1;
            }
            assert(tags_of(sv).take(sv.len() as int) =~= tags_of(sv));
            assert(corpus.take(s + 1).drop_last() =~= corpus.take(s as int));
            total = total + sent.len();
            correct = correct + hits;
            s = s + 1;
        }
        assert(corpus.take(corpus.len() as int) =~= corpus);
        Ok((correct, total))
    }
}

/// The training examples and the label set of a tagged corpus: for each
/// sentence its POS features and its tags; the labels are the distinct tags
/// of the corpus in ascending order.
pub fn prepare_training(tagged: &[Vec<(String, String)>]) -> (r: (Vec<(Vec<Vec<String>>, Vec<String>)>, Vec<String>))
    ensures
        r.0@.len() == tagged@.len(),
        r.0.deep_view() == pos_examples(tagged.deep_view()),
        forall|k: int| 0 <= k < tagged@.len() ==> (#[trigger] r.0@[k]).0@.len() == tagged@[k]@.len(),
        forall|k: int| 0 <= k < tagged@.len() ==> (#[trigger] r.0@[k]).1@.len() == tagged@[k]@.len(),
        forall|k: int, j: int|
            0 <= k < tagged@.len() && 0 <= j < tagged@[k]@.len() ==> (#[trigger] r.0@[k]).1@[j]@
                == (#[trigger] tagged@[k]@[j]).1@,
        strictly_sorted(r.1.deep_view()),
        forall|t: Seq<char>| r.1.deep_view().contains(t) <==> corpus_has_tag(tagged.deep_view(), t),
{
    let ghost c = tagged.deep_view();
    let mut labels: Vec<String> = Vec::new();
    let mut examples: Vec<(Vec<Vec<String>>, Vec<String>)> = Vec::new();
    let mut s: usize = 0;
    while s < tagged.len()
        invariant
            c == tagged.deep_view(),
            s <= tagged@.len(),
            examples@.len() == s,
            forall|k: int| 0 <= k < s ==> {
                &&& (#[trigger] examples@[k]).0.deep_view() == sentence_pos_features_spec(words_of(c[k]))
                &&& examples@[k].1.deep_view() == tags_of(c[k])
            },
            strictly_sorted(labels.deep_view()),
            forall|t: Seq<char>| labels.deep_view().contains(t) <==> corpus_has_tag(c.take(s as int), t),
        decreases tagged@.len() - s,
    {
        let sent = &tagged[s];
        let ghost sv = c[s as int];
        let mut words: Vec<&str> = Vec::new();
        let mut gold: Vec<String> = Vec::new();
        let mut k: usize = 0;
        while k < sent.len()
            invariant
                c == tagged.deep_view(),
                s < tagged@.len(),
                sv == c[s as int],
                sv == sent.deep_view(),
                k <= sent@.len(),
                words.deep_view() =~= words_of(sv).take(k as int),
                gold.deep_view() =~= tags_of(sv).take(k as int),
                strictly_sorted(labels.deep_view()),
                forall|t: Seq<char>| labels.deep_view().contains(t) <==> (corpus_has_tag(c.take(s as int), t)
                    || exists|j: int| 0 <= j < k && (#[trigger] sv[j]).1 == t),
            decreases sent@.len() - k,
        {
            let ghost before = labels.deep_view();
            insert_label(&mut labels, &sent[k].1);
            assert forall|t: Seq<char>| labels.deep_view().contains(t) <==> (corpus_has_tag(c.take(s as int), t)
                || exists|j: int| 0 <= j < k + 1 && (#[trigger] sv[j]).1 == t) by {
                if exists|j: int| 0 <= j < k + 1 && (#[trigger] sv[j]).1 == t {
                    let j = choose|j: int| 0 <= j < k + 1 && (#[trigger] sv[j]).1 == t;
                    if j < k {
                        assert(before.contains(t));
                    }
                }
                if before.contains(t) && !corpus_has_tag(c.take(s as int), t) {
                    let j = choose|j: int| 0 <= j < k && (#[trigger] sv[j]).1 == t;
                    assert(0 <= j < k + 1 && sv[j].1 == t);
                }
                if t == sent@[k as int].1@ {
                    assert(sv[k as int].1 == t);
                }
            }
            let ghost pw = words.deep_view();
            let ghost pg = gold.deep_view();
            words.push(sent[k].0.as_str());
            let g = sent[k].1.clone();
            gold.push(g);
            assert(words.deep_view() =~= pw.push(sv[k as int].0));
            assert(gold.deep_view() =~= pg.push(sv[k as int].1));
            k = k + 1;
        }
        assert(words.deep_view() =~= words_of(sv));
        assert(gold.deep_view() =~= tags_of(sv));
        let features = sentence_pos_features(words.as_slice());
        let ghost fv = features.deep_view();
        let ghost gv = gold.deep_view();
        examples.push((features, gold));
        assert(examples@[s as int].0.deep_view() == fv);
        assert forall|t: Seq<char>| labels.deep_view().contains(t) <==> corpus_has_tag(c.take(s + 1), t) by {
            let c1 = c.take(s + 1);
            if corpus_has_tag(c1, t) {
                let (i, j) = choose|i: int, j: int| 0 <= i < c1.len() && 0 <= j < c1[i].len() && (#[trigger] c1[i][j]).1 == t;
                if i < s {
                    assert(c.take(s as int)[i][j] == c1[i][j]);
                } else {
                    assert(sv[j].1 == t);
                }
            }
            if corpus_has_tag(c.take(s as int), t) {
                let (i, j) = choose|i: int, j: int| 0 <= i < s && 0 <= j < c.take(s as int)[i].len() && (#[trigger] c.take(s as int)[i][j]).1 == t;
                assert(c1[i][j] == c.take(s as int)[i][j]);
            }
            if exists|j: int| 0 <= j < sv.len() && (#[trigger] sv[j]).1 == t {
                let j = choose|j: int| 0 <= j < sv.len() && (#[trigger] sv[j]).1 == t;
                assert(c1[s as int][j] == sv[j]);
            }
        }
        s = s + 1;
    }
    assert(c.take(c.len() as int) =~= c);
    assert(examples.deep_view() =~= pos_examples(c));
    assert forall|k: int| 0 <= k < tagged@.len() implies (#[trigger] examples@[k]).0@.len() == tagged@[k]@.len() by {
        assert(examples@[k].0@.len() == examples@[k].0.deep_view().len());
    }
    proof {
        lemma_pos_examples_pair_sentences(c);
        assert forall|k: int| 0 <= k < tagged@.len() implies (#[trigger] examples@[k]).1@.len() == tagged@[k]@.len() by {
            assert(examples@[k].1@.len() == examples.deep_view()[k].1.len());
            assert(c[k].len() == tagged@[k]@.len());
        }
        assert forall|k: int, j: int|
            0 <= k < tagged@.len() && 0 <= j < tagged@[k]@.len() implies (#[trigger] examples@[k]).1@[j]@
                == (#[trigger] tagged@[k]@[j]).1@ by {
            assert(examples@[k].1@[j]@ == examples.deep_view()[k].1[j]);
            assert(c[k][j] == tagged@[k]@[j].deep_view());
        }
    }
    (examples, labels)
}

} // verus!
