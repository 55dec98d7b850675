//! An ActivityStreams 2.0 vocabulary library with a verified JSON wire codec.
//!
//! Vocabulary entities (objects, links, activities, actors, collections) are
//! plain data types built through companion builders and carried in a
//! [`core::Document`] envelope that pairs them with a processing context.
//! Serialization and parsing go through a JSON value tree whose renderer and
//! parser are specified and proved in this crate.
use vstd::prelude::*;

pub mod model;
pub mod fields;
pub mod json;
pub mod num;
pub mod parse;
pub mod render;
pub mod roundtrip;
pub mod timestamp;

verus! {

/// Errors reported while turning wire text into entities.
///
/// `Syntax` covers malformed JSON text; `Shape` a well-formed JSON value that
/// does not fit the expected entity layout; `NoVariant` a polymorphic value
/// that matches none of the closed set of variants.
#[derive(Debug, Clone, Copy, PartialEq, Eq)]
pub enum ParseError {
    Syntax,
    Shape,
    NoVariant,
}

/// Error reported when an actor's key material cannot be used.
#[derive(Debug, Clone, Copy, PartialEq, Eq)]
pub enum KeyError {
    BadPem,
}

/// Error reported by a builder whose required field was never set.
#[derive(Debug, Clone, Copy, PartialEq, Eq)]
pub enum BuildError {
    MissingField,
}

} // verus!
