//! CRF-based POS tagger and shallow parser (chunker).
//!
//! - [`POSTagger`]: structured-perceptron POS tagger
//! - [`Chunker`]: IOB chunker (shallow parser)
//! - [`RuleBasedChunker`]: grammar-based chunker that needs no model
//! - [`tree2brackets`]: formats a parse tree as a bracketed string
//! - [`features`]: feature extraction for custom models

pub mod chunker;
pub mod error;
pub mod features;
pub mod labels;
pub mod model;
pub mod tagger;
pub mod text;

pub use crfrs;

pub use chunker::{iob_to_tree, tree2brackets, ChunkedSentence, ChunkedToken, Chunker, ParseNode, RuleBasedChunker};
pub use error::{Error, Result};
pub use tagger::POSTagger;
