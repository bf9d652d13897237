//! Distributed query-plan snapshots.
//!
//! A coordinator builds an executable relational plan, serializes it into a
//! self-contained, immutable [`serialized_plan::SerializedPlan`] that embeds
//! the index/partition/chunk metadata a worker needs, derives one cheap copy
//! per worker that narrows the partition-id set, and each worker materializes
//! its copy back into an executable plan bound to local file paths.

pub mod classifier;
pub mod error;
pub mod laws;
pub mod metastore;
pub mod plan;
pub mod serialized_expr;
pub mod serialized_logical_plan;
pub mod serialized_plan;
pub mod snapshot;
pub mod udfs;

use vstd::prelude::*;

verus! {

} // verus!
