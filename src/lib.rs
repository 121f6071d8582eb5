//! Composition of replicated data types.
//!
//! A replicated value built from named sub-components (counters, sets,
//! vector clocks, or other composites) that each satisfy the operation-based
//! and the state-based replication contracts of [`contract::Replicated`].
//! An [`aggregate::Aggregate`] bundles an ordered list of such fields with a
//! vector clock that deduplicates whole operations, and itself satisfies both
//! contracts, so composites nest.

pub mod dot;
pub mod contract;
pub mod vclock;
pub mod fields;
pub mod aggregate;
pub mod counter;
pub mod gset;
