//! A contributor registry for a creative work, and a distributor that splits
//! an incoming payment among the registered contributors in proportion to
//! their weights.
//!
//! The registry (`registry`) keeps the contributor list and the running
//! weight total; the distributor (`distributor`) turns a payment amount into
//! a sequence of transfer instructions for an external ledger service.

pub mod arith;
pub mod model;
pub mod distributor;
pub mod registry;
