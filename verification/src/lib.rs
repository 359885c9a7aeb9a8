//! A managed node pool operator for Kubernetes.
//!
//! The library holds the decisions of the operator: what it reads, writes and
//! asks of the cloud while it reconciles a `ManagedNodePool`, and how those
//! requests look for DigitalOcean. It performs no I/O itself.

pub mod digital_ocean;
pub mod labels;
pub mod laws;
pub mod model;
pub mod operations;
pub mod operator;
pub mod passes;
pub mod pods;
pub mod pool;
pub mod time;
pub mod timeout;
