//! Streaming projection of linguistic annotation documents (XML) into three
//! flat tables: tokens, dependency edges and coreference mentions.
//!
//! The library holds the accumulator: a state machine that consumes structural
//! XML events one at a time and emits complete rows at closing tags. Reading the
//! XML and writing the tables are left to the caller.

pub mod record;
pub mod event;
pub mod tag;
pub mod machine;
pub mod laws;
pub mod table;
