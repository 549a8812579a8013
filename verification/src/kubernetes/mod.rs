//! The part of the Kubernetes API that the operator reads and writes, as plain data.
pub mod builder;
pub mod container_shape;
pub mod env_var_set;
pub mod meta;
pub mod owned;
pub mod parts;
pub mod pod;
pub mod resources;
