//! Grouping of transactions by the members found in their inputs and outputs.
//!
//! A group is a strategy that names the members of a transaction (a script, a
//! token id, ...) and says under which bytes a member is stored. Indexes are
//! built on top of it: one of all transactions of a member, one of its unspent
//! outputs.

pub mod group;
pub mod io;
pub mod script;
pub mod tx;
