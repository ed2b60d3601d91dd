//! Zero-indexed enum toolkit: from an ordered list of variant names it
//! derives the data that a code generator emits for such an enum — the
//! sequential discriminants and the cyclic successor / predecessor tables —
//! together with a verified model of every generated operation (cardinality,
//! enumeration, successor, predecessor, conditional search, ordinal value and
//! fallible reverse lookup).
//!
//! The variant list itself is obtained by one of two extractors: a parser for
//! the bracketed declaration `TypeName => [ A, B, C ]`, and an inspector for
//! an already-declared enum item, which rejects any variant that carries
//! fields.

pub mod cyclic;
pub mod extract;
pub mod generate;
pub mod ops;
pub mod parse;
pub mod variant_list;
