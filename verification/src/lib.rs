//! A bang-search redirect library: queries such as `!w verus` are parsed,
//! matched against a catalog of search engines, and turned into redirect
//! URLs with the query percent-encoded into the engine's URL template.

pub mod encoding;
pub mod engines;
pub mod resolver;
pub mod text;
