//! Resource reporting and autoscaling decisions for a managed workload on a container
//! orchestration control plane.
//!
//! - [`quantity`] decodes textual resource quantities.
//! - [`resources`] merges each listed pod's declared requests and limits with its live usage.
//! - [`autoscale`] validates update requests and computes the reported configuration.
//! - [`reconcile`] drives an update through the control plane one call at a time.

pub mod autoscale;
pub mod quantity;
pub mod reconcile;
pub mod resources;
