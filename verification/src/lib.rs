//! Translation of Objective-C interface declarations (methods and properties)
//! into safety-annotated binding descriptors.
//!
//! The core of the crate is the semantic-analysis engine: selector-family
//! classification, memory-management inference and verification,
//! designated-initializer and related-result-type handling, error-out
//! parameter detection, and property-to-accessor expansion. Declarations
//! arrive as already-materialized facts (selector, scope, resolved types,
//! attribute markers); the crate produces validated method descriptors for a
//! code emitter to render.

pub mod attrs;
pub mod diag;
pub mod encoding;
pub mod memory;
pub mod method;
pub mod property;
pub mod selector;
mod strutil;
pub mod ty;
