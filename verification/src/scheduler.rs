//! What the scheduler reports of the workloads it has built.
pub mod info;
