//! A safety-critical boundary layer around an in-process natural-language
//! tokenization engine. The engine itself — vocabulary loading, subword
//! segmentation, text reconstruction — is an external collaborator; what
//! this crate owns, states and proves is the contract at the boundary:
//! the opaque-handle object model for tokenizers, encodings and
//! decodings, the create/release lifecycle of each handle kind, the
//! eager-validate-then-single-call-then-all-or-nothing protocol of the
//! batch operations, the size contract of every buffer copy, and the
//! translation of every outcome into a four-value status code.
//!
//! Absent values stand for the null pointers of the C-compatible face of
//! the layer, which lives outside the verified crate and only marshals
//! raw pointers to and from the plain values these functions take.

pub mod decoding;
pub mod encoding;
pub mod engine;
pub mod marshal;
pub mod status;
pub mod tokenizer;
