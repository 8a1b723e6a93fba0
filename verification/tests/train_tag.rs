use crftag::crfrs::TrainConfig;
use crftag::tagger::to_universal;
use crftag::POSTagger;

/// Repeats a fixed 3-token Persian sentence `n` times as a training corpus.
fn corpus(n: usize) -> Vec<Vec<(String, String)>> {
    let sent = vec![
        ("علی".to_string(), "N".to_string()),
        ("رفت".to_string(), "V".to_string()),
        (".".to_string(), "PUNC".to_string()),
    ];
    vec![sent; n]
}

fn trained_tagger(n: usize, epochs: usize) -> POSTagger {
    let model = POSTagger::train(&corpus(n), TrainConfig { epochs });
    let mut tagger = POSTagger::new();
    tagger.load_model(model);
    tagger
}

#[test]
fn train_save_load_tag_cycle() {
    let tagger = trained_tagger(40, 10);

    let result = tagger.tag(&["علی", "رفت", "."]).unwrap();
    assert_eq!(result.len(), 3);
    assert_eq!(result[0], ("علی", "N".to_string()));
    assert_eq!(result[1], ("رفت", "V".to_string()));
    assert_eq!(result[2], (".", "PUNC".to_string()));
}

#[test]
fn evaluate_accuracy_on_training_data() {
    let data = corpus(40);
    let tagger = trained_tagger(40, 10);

    let (correct, total) = tagger.evaluate(&data).unwrap();
    assert_eq!(total, 120);
    assert_eq!(correct, total, "expected 1.0 accuracy on training data, got {correct}/{total}");
}

#[test]
fn tag_empty_sentence_returns_empty() {
    let tagger = trained_tagger(10, 3);
    assert!(tagger.tag(&[]).unwrap().is_empty());
}

#[test]
fn model_not_loaded_returns_error() {
    let tagger = POSTagger::new();
    let err = tagger.tag(&["سلام"]);
    assert!(err.is_err());
}

#[test]
fn tag_sents_matches_individual_tag_calls() {
    let tagger = trained_tagger(40, 10);

    let sents = vec![vec!["علی", "رفت", "."], vec!["علی", "."]];
    let batch = tagger.tag_sents(&sents).unwrap();
    let singles: Vec<_> = sents.iter().map(|s| tagger.tag(s).unwrap()).collect();

    assert_eq!(batch, singles);
}

#[test]
fn model_not_loaded_is_the_error() {
    let tagger = POSTagger::new();
    assert!(matches!(tagger.tag(&["سلام"]), Err(crftag::Error::ModelNotLoaded)));
    assert!(matches!(tagger.tag(&[]), Err(crftag::Error::ModelNotLoaded)));
    assert!(matches!(tagger.evaluate(&corpus(1)), Err(crftag::Error::ModelNotLoaded)));
    let no_sents: Vec<Vec<&str>> = vec![];
    assert_eq!(tagger.tag_sents(&no_sents).unwrap().len(), 0);
    assert!(matches!(tagger.tag_sents(&[vec!["a"]]), Err(crftag::Error::ModelNotLoaded)));
    let one_empty: Vec<Vec<&str>> = vec![vec![]];
    assert!(matches!(tagger.tag_sents(&one_empty), Err(crftag::Error::ModelNotLoaded)));
}

#[test]
fn universal_tag_is_part_before_first_comma() {
    assert_eq!(to_universal("N,EZ"), "N");
    assert_eq!(to_universal("VERB"), "VERB");
    assert_eq!(to_universal(",X"), "");
    assert_eq!(to_universal("V,PA,GS"), "V");
    assert_eq!(to_universal(""), "");
}

#[test]
fn training_examples_and_labels() {
    let data = corpus(2);
    let (examples, labels) = crftag::tagger::prepare_training(&data);
    assert_eq!(examples.len(), 2);
    assert_eq!(examples[0].0, crftag::features::sentence_pos_features(&["علی", "رفت", "."]));
    assert_eq!(examples[0].1, vec!["N", "V", "PUNC"]);
    assert_eq!(labels, vec!["N", "PUNC", "V"]);
}

#[test]
fn trained_labels_are_the_sorted_distinct_tags() {
    let mut data = corpus(3);
    data.push(vec![("x".to_string(), "ADJ".to_string()), ("y".to_string(), "N".to_string())]);
    data.push(vec![]);
    let model = POSTagger::train(&data, TrainConfig { epochs: 1 });
    assert_eq!(model.labels, vec!["ADJ".to_string(), "N".to_string(), "PUNC".to_string(), "V".to_string()]);
}

#[test]
fn empty_corpus_gives_a_model_that_cannot_tag() {
    let model = POSTagger::train(&[], TrainConfig { epochs: 2 });
    assert!(model.labels.is_empty());
    let mut tagger = POSTagger::new();
    assert!(tagger.can_tag());
    tagger.load_model(model);
    assert!(!tagger.can_tag());
    // An empty sentence is still fine.
    assert!(tagger.tag(&[]).unwrap().is_empty());
}

#[test]
fn universal_tagger_keeps_part_before_comma() {
    let data = vec![
        vec![("نامه".to_string(), "N,EZ".to_string()), ("رفت".to_string(), "V,PA".to_string())];
        30
    ];
    let model = POSTagger::train(&data, TrainConfig { epochs: 5 });
    let mut plain = POSTagger::new();
    plain.load_model(model.clone());
    let mut universal = POSTagger::universal();
    universal.load_model(model);
    let p = plain.tag(&["نامه", "رفت"]).unwrap();
    let u = universal.tag(&["نامه", "رفت"]).unwrap();
    assert_eq!(p, vec![("نامه", "N,EZ".to_string()), ("رفت", "V,PA".to_string())]);
    assert_eq!(u, vec![("نامه", "N".to_string()), ("رفت", "V".to_string())]);
}

#[test]
fn evaluate_counts_mismatches() {
    let tagger = trained_tagger(40, 10);
    let gold = vec![vec![
        ("علی".to_string(), "N".to_string()),
        ("رفت".to_string(), "N".to_string()),
        (".".to_string(), "PUNC".to_string()),
    ]];
    assert_eq!(tagger.evaluate(&gold).unwrap(), (2, 3));
    let empty: Vec<Vec<(String, String)>> = vec![];
    assert_eq!(tagger.evaluate(&empty).unwrap(), (0, 0));
}

#[test]
fn default_tagger_has_no_model() {
    let tagger = POSTagger::default();
    assert!(tagger.tag(&["a"]).is_err());
}
