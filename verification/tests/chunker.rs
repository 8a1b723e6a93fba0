use crftag::chunker::{iob_to_tree, tree2brackets, ChunkedSentence, Chunker, ParseNode, RuleBasedChunker};
use crftag::crfrs::TrainConfig;

fn triple(w: &str, p: &str, i: &str) -> (String, String, String) {
    (w.to_string(), p.to_string(), i.to_string())
}

fn flat(tree: &[ParseNode]) -> Vec<(String, String)> {
    let mut out = Vec::new();
    for node in tree {
        match node {
            ParseNode::Phrase { tokens, .. } => out.extend(tokens.iter().cloned()),
            ParseNode::Token { word, tag } => out.push((word.clone(), tag.clone())),
        }
    }
    out
}

#[test]
fn tree2brackets_doc_example() {
    let chunked = vec![
        triple("نامه", "NOUN,EZ", "B-NP"),
        triple("ایشان", "PRON", "I-NP"),
        triple("را", "ADP", "B-POSTP"),
        triple("داشتم", "VERB", "B-VP"),
        triple(".", "PUNCT", "O"),
    ];
    let tree = iob_to_tree(&chunked);
    assert_eq!(tree2brackets(&tree), "[نامه ایشان NP] [را POSTP] [داشتم VP] .");
}

#[test]
fn rule_based_readme_example() {
    let chunker = RuleBasedChunker::new();
    let tagged = &[
        ("نامه", "NOUN,EZ"),
        ("ایشان", "PRON"),
        ("را", "ADP"),
        ("داشتم", "VERB"),
        (".", "PUNCT"),
    ];
    let tree = chunker.parse(tagged);
    assert_eq!(tree2brackets(&tree), "[نامه ایشان NP] [را POSTP] [داشتم VP] .");
}

#[test]
fn inside_tag_without_phrase_stands_alone() {
    let chunked = vec![triple("a", "X", "I-NP"), triple("b", "Y", "O"), triple("c", "Z", "I-NP")];
    let tree = iob_to_tree(&chunked);
    assert_eq!(tree.len(), 3);
    assert!(matches!(&tree[0], ParseNode::Token { word, tag } if word == "a" && tag == "X"));
    assert_eq!(tree2brackets(&tree), "a b c");
}

#[test]
fn empty_inputs() {
    assert!(iob_to_tree(&[]).is_empty());
    assert_eq!(tree2brackets(&[]), "");
    assert!(RuleBasedChunker::new().parse(&[]).is_empty());
}

#[test]
fn iob_tree_keeps_tokens_in_order() {
    let chunked = vec![
        triple("w1", "N", "B-NP"),
        triple("w2", "N", "I-NP"),
        triple("w3", "P", "B-PP"),
        triple("w4", "V", "I-VP"),
        triple("w5", "X", "O"),
        triple("w6", "N", "I-NP"),
    ];
    let tree = iob_to_tree(&chunked);
    let expected: Vec<(String, String)> = chunked.iter().map(|(w, p, _)| (w.clone(), p.clone())).collect();
    assert_eq!(flat(&tree), expected);
    assert_eq!(tree2brackets(&tree), "[w1 w2 NP] [w3 w4 PP] w5 w6");
}

#[test]
fn rule_based_runs_and_categories() {
    let chunker = RuleBasedChunker::default();
    let tagged = &[
        ("x1", "DET"),
        ("x2", "N"),
        ("x3", "AJe"),
        ("x4", "AJ"),
        ("x5", "P"),
        ("x6", "P"),
        ("x7", "ADV,EZ"),
        ("x8", "NUM,EZ"),
        ("x9", "PRO"),
        ("x10", "V"),
        ("x11", "V,PA"),
        ("x12", "POSTP"),
        ("x13", "CONJ"),
    ];
    let tree = chunker.parse(tagged);
    assert_eq!(
        tree2brackets(&tree),
        "[x1 x2 NP] x3 [x4 ADJP] [x5 x6 PP] [x7 ADVP] [x8 x9 NP] [x10 VP] [x11 VP] [x12 PP] x13"
    );
    let expected: Vec<(String, String)> = tagged.iter().map(|(w, p)| (w.to_string(), p.to_string())).collect();
    assert_eq!(flat(&tree), expected);
}

#[test]
fn rule_based_ezafe_and_universal_tags() {
    let chunker = RuleBasedChunker::new();
    let tagged = &[("a", "N,EZ"), ("b", "ADJ,EZ"), ("c", "NOUN"), ("d", "ADJ"), ("e", "CL"), ("f", "RES,EZ")];
    let tree = chunker.parse(tagged);
    assert_eq!(tree2brackets(&tree), "[a b c NP] [d ADJP] [e f NP]");
}

fn chunk_corpus(n: usize) -> Vec<ChunkedSentence> {
    let sent = vec![
        triple("نامه", "N,EZ", "B-NP"),
        triple("ایشان", "PRO", "I-NP"),
        triple("را", "POSTP", "B-POSTP"),
        triple("داشتم", "V", "B-VP"),
        triple(".", "PUNC", "O"),
    ];
    vec![sent; n]
}

#[test]
fn chunker_train_tag_parse() {
    let model = Chunker::train(&chunk_corpus(30), TrainConfig { epochs: 10 });
    assert_eq!(
        model.labels,
        vec!["B-NP".to_string(), "B-POSTP".to_string(), "B-VP".to_string(), "I-NP".to_string(), "O".to_string()]
    );
    let mut chunker = Chunker::new();
    chunker.load_model(model);
    assert!(chunker.can_tag());
    let tagged = [("نامه", "N,EZ"), ("ایشان", "PRO"), ("را", "POSTP"), ("داشتم", "V"), (".", "PUNC")];
    let chunked = chunker.tag(&tagged).unwrap();
    assert_eq!(chunked, chunk_corpus(1)[0]);
    let tree = chunker.parse(&tagged).unwrap();
    assert_eq!(tree2brackets(&tree), "[نامه ایشان NP] [را POSTP] [داشتم VP] .");
    let checked = chunker.parse_checked(&tagged).unwrap().unwrap();
    assert_eq!(tree2brackets(&checked), "[نامه ایشان NP] [را POSTP] [داشتم VP] .");
    let batch = chunker.tag_sents(&[tagged.to_vec(), vec![]]).unwrap();
    assert_eq!(batch.len(), 2);
    assert_eq!(batch[0], chunked);
    assert!(batch[1].is_empty());
    assert_eq!(chunker.evaluate(&chunk_corpus(2)).unwrap(), (10, 10));
}

#[test]
fn chunker_without_model() {
    let chunker = Chunker::default();
    assert!(matches!(chunker.tag(&[("a", "N")]), Err(crftag::Error::ModelNotLoaded)));
    assert!(matches!(chunker.parse(&[("a", "N")]), Err(crftag::Error::ModelNotLoaded)));
    assert!(matches!(chunker.evaluate(&chunk_corpus(1)), Err(crftag::Error::ModelNotLoaded)));
    assert!(chunker.tag_sents(&[]).unwrap().is_empty());
    assert!(matches!(chunker.tag_sents(&[vec![]]), Err(crftag::Error::ModelNotLoaded)));
    assert!(matches!(chunker.parse_checked(&[("a", "N")]), Some(Err(crftag::Error::ModelNotLoaded))));
}

#[test]
fn unreadable_decoded_tags_block_parsing() {
    let corpus = vec![vec![triple("a", "N", "B"), triple("b", "V", "O")]; 20];
    let model = Chunker::train(&corpus, TrainConfig { epochs: 5 });
    let mut chunker = Chunker::new();
    chunker.load_model(model);
    assert!(chunker.can_tag());
    assert_eq!(chunker.tag(&[("a", "N"), ("b", "V")]).unwrap(), corpus[0]);
    assert!(chunker.parse_checked(&[("a", "N"), ("b", "V")]).is_none());
    // A sentence whose decoded tags are all readable still parses.
    let tree = chunker.parse_checked(&[("b", "V")]).unwrap().unwrap();
    assert_eq!(tree2brackets(&tree), "b");
    assert!(chunker.parse_checked(&[]).unwrap().unwrap().is_empty());
}

#[test]
fn chunk_training_examples() {
    let (examples, labels) = crftag::chunker::prepare_chunk_training(&chunk_corpus(2));
    assert_eq!(examples.len(), 2);
    assert_eq!(examples[0].1, vec!["B-NP", "I-NP", "B-POSTP", "B-VP", "O"]);
    let words = ["نامه", "ایشان", "را", "داشتم", "."];
    let pos = ["N,EZ", "PRO", "POSTP", "V", "PUNC"];
    assert_eq!(examples[1].0, crftag::features::sentence_chunk_features(&words, &pos));
    assert_eq!(labels, vec!["B-NP", "B-POSTP", "B-VP", "I-NP", "O"]);
}
