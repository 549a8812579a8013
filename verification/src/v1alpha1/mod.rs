//! The first version of the `OpaCluster` resource and its controller.
pub mod config_file;
pub mod controller;
pub mod crd;
pub mod discovery;
pub mod guarantees;
pub mod object_guarantees;
pub mod pod_guarantees;
pub mod reconcile;
pub mod resource_info_fetcher;
