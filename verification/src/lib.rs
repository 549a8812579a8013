//! The logic of an operator for clusters of Open Policy Agent, and of the programs in their Pods.
//!
//! - [`v1`], [`v1alpha1`] and [`v1alpha2`] hold the versions of the custom resource: what a resource
//!   is made of, how it is validated, which Kubernetes objects it stands for, and in which order a
//!   reconciliation creates them.
//! - [`bundle_builder`] and [`bundle_helper`] gather the rules of ConfigMaps.
//! - [`info_fetcher`] is what the sidecars that look up users and resources have in common.
//! - [`kubernetes`] is the part of the Kubernetes API that the library speaks of.
//!
//! What an operation returns is stated over the deep view of its arguments. The modules whose names
//! end in `guarantees` state what holds of the objects of a cluster, each by itself and together.
pub mod action;
pub mod bundle_builder;
pub mod bundle_helper;
pub mod checked;
pub mod config;
pub mod duration;
pub mod info_fetcher;
pub mod info_fetcher_sidecar;
pub mod kubernetes;
pub mod labels;
pub mod logging;
pub mod names;
pub mod pod_consistency;
pub mod script_guarantees;
pub mod start_command;
pub mod text;
pub mod text_map;
pub mod tls;
pub mod user_info_fetcher;
pub mod v1;
pub mod v1alpha1;
pub mod v1alpha2;
pub mod value;
