//! A typed enterprise-architecture model derived from a graph-query service,
//! rendered as a directed-graph diagram description.
//!
//! The crate is split along the system's seams: [`knowledge`] holds the term
//! model for query results and the interpretation of the remote side's
//! answers, [`lifecycle`] the dataset lifecycle decisions, [`queries`] the
//! fixed query templates, [`architecture`] the typed model with the binding
//! decoders, their taxonomy tables and the diagram renderer, and [`text`]
//! the character-level primitives they share.

pub mod architecture;
pub mod knowledge;
pub mod lifecycle;
pub mod queries;
pub mod text;
