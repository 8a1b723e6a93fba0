use crftag::features::{chunk_features, pos_features, sentence_chunk_features, sentence_pos_features};

fn strings(v: &[&str]) -> Vec<String> {
    v.iter().map(|s| s.to_string()).collect()
}

#[test]
fn pos_features_of_first_word() {
    let sent = ["من", "به", "مدرسه", "رفتم", "."];
    let f = pos_features(&sent, 0);
    assert_eq!(
        f,
        strings(&[
            "word=من",
            "prefix-1=م",
            "prefix-2=من",
            "prefix-3=من",
            "suffix-1=ن",
            "suffix-2=من",
            "suffix-3=من",
            "prev_word=",
            "two_prev_word=",
            "next_word=به",
            "two_next_word=مدرسه",
            "is_numeric=false",
            "prev_is_numeric=false",
            "next_is_numeric=false",
            "is_punc=false",
            "prev_is_punc=false",
            "next_is_punc=false",
            "is_first",
        ])
    );
}

#[test]
fn pos_features_of_middle_and_last_word() {
    let sent = ["من", "به", "مدرسه", "رفتم", "."];
    let f = pos_features(&sent, 2);
    assert_eq!(f.len(), 17);
    assert_eq!(f[0], "word=مدرسه");
    assert_eq!(f[3], "prefix-3=مدر");
    assert_eq!(f[6], "suffix-3=رسه");
    assert_eq!(f[7], "prev_word=به");
    assert_eq!(f[8], "two_prev_word=من");
    assert_eq!(f[9], "next_word=رفتم");
    assert_eq!(f[10], "two_next_word=.");
    assert_eq!(f[16], "next_is_punc=false");

    let last = pos_features(&sent, 4);
    assert_eq!(last.len(), 18);
    assert_eq!(last[14], "is_punc=true");
    assert_eq!(last[9], "next_word=");
    assert_eq!(last[17], "is_last");
}

#[test]
fn single_word_is_first_and_last() {
    let f = pos_features(&["۱۲۳۴"], 0);
    assert_eq!(f.len(), 19);
    assert_eq!(f[11], "is_numeric=true");
    assert_eq!(f[17], "is_first");
    assert_eq!(f[18], "is_last");
}

#[test]
fn numeric_and_punctuation_flags() {
    let sent = ["12", "«", "x1", "،"];
    let f = pos_features(&sent, 1);
    assert_eq!(f[11], "is_numeric=false");
    assert_eq!(f[12], "prev_is_numeric=true");
    assert_eq!(f[13], "next_is_numeric=false");
    assert_eq!(f[14], "is_punc=true");
    assert_eq!(f[15], "prev_is_punc=false");
    assert_eq!(f[16], "next_is_punc=false");
    let g = pos_features(&sent, 2);
    assert_eq!(g[16], "next_is_punc=true");
    let e = pos_features(&[""], 0);
    assert_eq!(e[1], "prefix-1=");
    assert_eq!(e[11], "is_numeric=false");
}

#[test]
fn chunk_features_add_pos_context() {
    let words = ["نامه", "ایشان", "را"];
    let pos = ["N,EZ", "PRO", "POSTP"];
    let f = chunk_features(&words, &pos, 1);
    let base = pos_features(&words, 1);
    assert_eq!(f.len(), base.len() + 3);
    assert_eq!(&f[..base.len()], &base[..]);
    assert_eq!(f[base.len()], "pos=PRO");
    assert_eq!(f[base.len() + 1], "prev_pos=N,EZ");
    assert_eq!(f[base.len() + 2], "next_pos=POSTP");
    let last = chunk_features(&words, &pos, 2);
    assert_eq!(last[last.len() - 1], "next_pos=");
}

#[test]
fn sentence_features_are_per_token() {
    let words = ["a", "b", "c"];
    let pos = ["X", "Y", "Z"];
    let fs = sentence_pos_features(&words);
    assert_eq!(fs.len(), 3);
    for i in 0..3 {
        assert_eq!(fs[i], pos_features(&words, i));
    }
    let cs = sentence_chunk_features(&words, &pos);
    assert_eq!(cs.len(), 3);
    for i in 0..3 {
        assert_eq!(cs[i], chunk_features(&words, &pos, i));
    }
    assert!(sentence_pos_features(&[]).is_empty());
}
