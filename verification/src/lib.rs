//! Generates, for a record declaration, a constructor and a fluent
//! builder interface: required fields become constructor parameters,
//! optional and value-supplied fields take defaults and get `with_`
//! builder methods.
//!
//! The declaration is read from its source text into a plain model
//! ([`frontend`]), the generation step itself is verified logic over
//! that model ([`gen`], with the data of [`model`]), and the emitted
//! `impl` block is rendered as source text ([`render`]).  [`example`]
//! holds a worked example record with its generated interface written
//! out and verified.

use vstd::prelude::*;

pub mod example;
pub mod frontend;
pub mod gen;
pub mod model;
pub mod render;

verus! {

} // verus!
