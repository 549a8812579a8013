//! The `OpenPolicyAgent` resource, its controller, and how other operators connect to it.
pub mod connection;
pub mod controller;
pub mod crd;
pub mod pod_utils;
