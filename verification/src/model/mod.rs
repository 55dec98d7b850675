//! The vocabulary's core types: entities, their builders, and the document
//! envelope with the processing context.
pub mod activity;
pub mod context_doc;
pub mod document;
pub mod collection;
pub mod actor;
pub mod builders;
pub mod object;
pub mod wf;
