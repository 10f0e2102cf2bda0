//! Multi-language parsing front end: a registry that maps a language
//! identifier to a grammar, and a normalizer that turns the engine's concrete
//! syntax tree into a uniform node tree.

pub mod engine;
pub mod grammar;
pub mod node;
pub mod normalize;
pub mod parse;
pub mod text;
pub mod tree;
