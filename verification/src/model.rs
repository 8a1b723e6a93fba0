//! The perceptron sequence labeller of `crfrs`, as the library sees it.

use vstd::prelude::*;
use crfrs::Error as CrfError;

verus! {

/// A trained structured-perceptron model of `crfrs`, held opaque.
#[verifier::external_type_specification]
#[verifier::external_body]
pub struct ExPerceptronModel(crfrs::PerceptronModel);

/// The training configuration of `crfrs`, held opaque.
#[verifier::external_type_specification]
#[verifier::external_body]
pub struct ExTrainConfig(crfrs::TrainConfig);

/// An error of `crfrs`, held opaque.
#[verifier::external_type_specification]
#[verifier::external_body]
pub struct ExCrfError(CrfError);

/// The labels (`PerceptronModel::labels`) that a model can assign, in its order.
pub uninterp spec fn model_labels(model: crfrs::PerceptronModel) -> Seq<Seq<char>>;

/// The label sequence that Viterbi decoding of `model` gives for the
/// per-token feature lists `features`.
pub uninterp spec fn decoded_labels(
    model: crfrs::PerceptronModel,
    features: Seq<Seq<Seq<char>>>,
) -> Seq<Seq<char>>;

/// Calls `crfrs::PerceptronModel::tag`.  Its source returns one label per
/// token, each taken from `model.labels`, and reads nothing but the model and
/// the features; with no labels and at least one token it panics.
#[verifier::external_body]
pub(crate) fn decode(model: &crfrs::PerceptronModel, features: &Vec<Vec<String>>) -> (tags: Vec<String>)
    requires
        features@.len() == 0 || model_labels(*model).len() > 0,
    ensures
        tags.deep_view() == decoded_labels(*model, features.deep_view()),
        tags@.len() == features@.len(),
        forall|i: int| 0 <= i < tags@.len() ==> model_labels(*model).contains(#[trigger] tags@[i]@),
{
    model.tag(features)
}

/// Reads the public field `PerceptronModel::labels`.
#[verifier::external_body]
pub(crate) fn labels_of(model: &crfrs::PerceptronModel) -> (labels: &Vec<String>)
    ensures
        labels.deep_view() == model_labels(*model),
{
    &model.labels
}

/// The number of passes over the training data (`TrainConfig::epochs`).
pub uninterp spec fn config_epochs(config: crfrs::TrainConfig) -> nat;

/// The label sequence that a model trained by `crfrs::train` on `examples`
/// (per-token feature lists with their gold labels), with the label list
/// `labels` and `epochs` passes, decodes for the feature lists `features`.
pub uninterp spec fn trained_decoding(
    examples: Seq<(Seq<Seq<Seq<char>>>, Seq<Seq<char>>)>,
    labels: Seq<Seq<char>>,
    epochs: nat,
    features: Seq<Seq<Seq<char>>>,
) -> Seq<Seq<char>>;

/// Reads the public field `TrainConfig::epochs`.
#[verifier::external_body]
pub(crate) fn epochs_of(config: &crfrs::TrainConfig) -> (epochs: usize)
    ensures
        epochs == config_epochs(*config),
{
    config.epochs
}

/// Calls `crfrs::train` with `TrainConfig { epochs }`.  Its source builds the
/// model from the very label list it is given, so the model's labels are that
/// list.  The weights it learns follow from the examples, the labels and the
/// number of passes alone (the updates come in a fixed order, and averaging
/// treats each weight on its own, whatever order its `HashMap` is walked in),
/// and decoding only looks weights up; so what the model decodes for any
/// feature lists is named by `trained_decoding` of those three.  With no
/// labels, an example with at least one token makes it panic.
#[verifier::external_body]
pub(crate) fn train_model(
    examples: &Vec<(Vec<Vec<String>>, Vec<String>)>,
    labels: Vec<String>,
    epochs: usize,
) -> (model: crfrs::PerceptronModel)
    requires
        labels@.len() > 0 || forall|k: int| 0 <= k < examples@.len() ==> (#[trigger] examples@[k]).0@.len() == 0,
    ensures
        model_labels(model) == labels.deep_view(),
        forall|f: Seq<Seq<Seq<char>>>|
            #[trigger] decoded_labels(model, f) == trained_decoding(
                examples.deep_view(),
                labels.deep_view(),
                epochs as nat,
                f,
            ),
{
    crfrs::train(examples, labels, crfrs::TrainConfig { epochs })
}

/// The number of positions `j < gold.len()` at which `pred[j]` is `gold[j]`.
pub open spec fn agreements(pred: Seq<Seq<char>>, gold: Seq<Seq<char>>) -> nat
    decreases gold.len(),
{
    if gold.len() == 0 {
        0
    } else {
        agreements(pred, gold.drop_last()) + if pred[gold.len() - 1] == gold.last() {
            1nat
        } else {
            0nat
        }
    }
}

/// The indices `j < gold.len()` at which the prediction is exactly the gold
/// label, in increasing order.
pub open spec fn exact_matches(pred: Seq<Seq<char>>, gold: Seq<Seq<char>>) -> Seq<int> {
    Seq::new(gold.len(), |j: int| j).filter(|j: int| pred[j] == gold[j])
}

/// Agreement counts the positions where the predicted label is, as a whole
/// text, the gold label, and nothing else.
pub proof fn lemma_agreements_count_exact_matches(pred: Seq<Seq<char>>, gold: Seq<Seq<char>>)
    ensures
        agreements(pred, gold) == exact_matches(pred, gold).len(),
        agreements(pred, gold) <= gold.len(),
{
    lemma_agreements_prefix(pred, gold, gold.len() as int);
    assert(gold.take(gold.len() as int) =~= gold);
}

proof fn lemma_agreements_prefix(pred: Seq<Seq<char>>, gold: Seq<Seq<char>>, k: int)
    requires
        0 <= k <= gold.len(),
    ensures
        agreements(pred, gold.take(k)) == Seq::new(k as nat, |j: int| j).filter(|j: int| pred[j] == gold[j]).len(),
        agreements(pred, gold.take(k)) <= k,
    decreases k,
{
    reveal(Seq::filter);
    let f = |j: int| pred[j] == gold[j];
    if k == 0 {
        assert(Seq::new(0, |j: int| j).len() == 0);
    } else {
        lemma_agreements_prefix(pred, gold, k - 1);
        assert(gold.take(k).drop_last() =~= gold.take(k - 1));
        assert(Seq::new(k as nat, |j: int| j).drop_last() =~= Seq::new((k - 1) as nat, |j: int| j));
        assert(Seq::new(k as nat, |j: int| j).last() == k - 1);
    }
}

/// Filtering a sequence by two tests that agree on its elements gives the
/// same result.
pub proof fn lemma_filter_same<A>(s: Seq<A>, f: spec_fn(A) -> bool, g: spec_fn(A) -> bool)
    requires
        forall|i: int| 0 <= i < s.len() ==> f(#[trigger] s[i]) == g(s[i]),
    ensures
        s.filter(f) == s.filter(g),
    decreases s.len(),
{
    reveal(Seq::filter);
    if s.len() > 0 {
        lemma_filter_same(s.drop_last(), f, g);
        assert(f(s[s.len() - 1]) == g(s[s.len() - 1]));
    }
}

/// The number of tokens of a corpus.
pub open spec fn token_count<T>(corpus: Seq<Seq<T>>) -> nat
    decreases corpus.len(),
{
    if corpus.len() == 0 {
        0
    } else {
        token_count(corpus.drop_last()) + corpus.last().len()
    }
}

/// The tokens of a corpus: none in an empty one, and one more sentence adds
/// its tokens.
pub proof fn lemma_token_count<T>(corpus: Seq<Seq<T>>, sent: Seq<T>)
    ensures
        token_count(Seq::<Seq<T>>::empty()) == 0,
        token_count(corpus.push(sent)) == token_count(corpus) + sent.len(),
{
    assert(corpus.push(sent).drop_last() =~= corpus);
}

/// The tokens of a prefix of a corpus are no more than those of the corpus.
pub proof fn lemma_token_count_prefix<T>(corpus: Seq<Seq<T>>, s: int)
    requires
        0 <= s < corpus.len(),
    ensures
        token_count(corpus.take(s + 1)) <= token_count(corpus),
        token_count(corpus.take(s + 1)) == token_count(corpus.take(s)) + corpus[s].len(),
    decreases corpus.len(),
{
    assert(corpus.take(s + 1).drop_last() =~= corpus.take(s));
    if s + 1 < corpus.len() {
        lemma_token_count_prefix(corpus.drop_last(), s);
        assert(corpus.drop_last().take(s + 1) =~= corpus.take(s + 1));
    } else {
        assert(corpus.take(s + 1) =~= corpus);
    }
}

} // verus!
