//! The backends that information about resources is fetched from.
use crate::tls::TlsClientDetails;
use vstd::prelude::*;

verus! {

/// Where information about resources is fetched from.
#[derive(Debug, PartialEq, Eq)]
pub enum ResourceBackend {
    /// Dummy backend that adds no extra information.
    NoBackend,
    /// Backend that fetches information from DQuantum.
    DQuantum(DQuantumBackend),
}

impl Default for ResourceBackend {
    fn default() -> (backend: Self)
        ensures
            backend is NoBackend,
    {
        ResourceBackend::NoBackend
    }
}

/// How DQuantum is reached, and where in it the resources are found.
#[derive(Debug, PartialEq, Eq)]
pub struct DQuantumBackend {
    pub url: String,
    pub tls: TlsClientDetails,
    /// Name of a Secret that contains client credentials of an account with permission to read
    /// metadata. Must contain the fields `clientId` and `clientSecret`.
    pub client_credentials_secret: String,
    pub hierarchy: TableEntity,
}

/// How an entity is related to another one.
#[derive(Debug, PartialEq, Eq)]
pub enum Relation {
    Forward { entity: Entity, relation_name: String },
    Backward { entity: Entity, relation_name: String },
}

/// A table, with what is above and below it.
#[derive(Debug, PartialEq, Eq)]
pub struct TableEntity {
    pub entity_name: String,
    pub entity_id: u8,
    pub parents: Option<Box<Relation>>,
    pub children: Option<Box<Relation>>,
}

/// Something that a table is related to.
#[derive(Debug, PartialEq, Eq)]
pub struct Entity {
    pub entity_name: String,
    pub entity_id: u8,
    pub relation: Option<Box<Relation>>,
}

} // verus!
