//! The second version of the `OpaCluster` resource and its controller.
pub mod affinity;
pub mod apply;
pub mod assemble;
pub mod cache;
pub mod cluster;
pub mod config_json;
pub mod config_map;
pub mod crd;
pub mod dereference;
pub mod discovery;
pub mod guarantees;
pub mod object_guarantees;
pub mod pdb;
pub mod pod_guarantees;
pub mod properties;
pub mod rbac;
pub mod reconcile;
pub mod resource_info_fetcher;
pub mod service;
pub mod validate;
pub mod validation_guarantees;
pub mod workload;
