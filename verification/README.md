# crftag

POS tagger and shallow parser (chunker) built on the structured-perceptron
sequence labeller of `crfrs`, with its logic verified by Verus.

- `src/features.rs`: the feature texts handed to the sequence labeller.
- `src/tagger.rs`: `POSTagger` (tagging, universal tags, training, counts for accuracy).
- `src/chunker.rs`: IOB trees, their bracketed form, the rule-based chunker and the CRF `Chunker`.
- `src/labels.rs`, `src/text.rs`: sorted label sets and character-level text operations.
- `src/model.rs`: what the library assumes of `crfrs` (decoding, training, a model's labels).
- `src/error.rs`: the error type.
- `app/`: reading and writing model files, and accuracies as floating-point ratios.
