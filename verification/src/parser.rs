//! Parsing: the expression tokenizer, the plain document tree read from YAML
//! text, and the typed workflow model decoded from that tree.
pub mod expression;
pub mod workflow;
pub mod yaml;
