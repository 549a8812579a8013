//! Metadata of the objects that a cluster owns.
use crate::kubernetes::meta::{ObjectMeta, ObjectMetaView, OwnerReference, OwnerReferenceView};
use crate::text_map::StringMap;
use crate::value::{one_item, Value};
use vstd::prelude::*;

verus! {

/// The kind of the cluster resource.
pub const OPA_CLUSTER_KIND: &'static str = "OpaCluster";

/// Metadata that sets nothing.
pub open spec fn empty_meta() -> ObjectMetaView {
    ObjectMetaView {
        name: None,
        namespace: None,
        uid: None,
        resource_version: None,
        labels: None,
        annotations: None,
        owner_references: None,
    }
}

/// Builds metadata that sets nothing.
pub fn no_meta() -> (meta: ObjectMeta)
    ensures
        meta.deep_view() == empty_meta(),
{
    ObjectMeta {
        name: None,
        namespace: None,
        uid: None,
        resource_version: None,
        labels: None,
        annotations: None,
        owner_references: None,
    }
}

/// The reference to an owning cluster that is the object's controller.
pub open spec fn controller_reference(
    api_version: Seq<char>,
    name: Seq<char>,
    uid: Seq<char>,
) -> OwnerReferenceView {
    OwnerReferenceView {
        api_version,
        kind: OPA_CLUSTER_KIND@,
        name,
        uid,
        controller: Some(true),
        block_owner_deletion: None,
    }
}

/// Builds the reference to an owning cluster.
pub fn owner_reference(api_version: &str, name: &str, uid: &str) -> (reference: OwnerReference)
    ensures
        reference.deep_view() == controller_reference(api_version@, name@, uid@),
{
    OwnerReference {
        api_version: api_version.to_owned(),
        kind: OPA_CLUSTER_KIND.to_owned(),
        name: name.to_owned(),
        uid: uid.to_owned(),
        controller: Some(true),
        block_owner_deletion: None,
    }
}

/// The metadata of an object that a cluster owns: in the namespace of the cluster and with a
/// reference to it.
///
/// Fails with the name of the field where the cluster itself lacks its name or its UID.
pub open spec fn owned_meta(
    name: Seq<char>,
    owner: ObjectMetaView,
    api_version: Seq<char>,
    labels: Map<Seq<char>, Seq<char>>,
) -> Result<ObjectMetaView, Seq<char>> {
    match (owner.name, owner.uid) {
        (None, _) => Err(".metadata.name"@),
        (_, None) => Err(".metadata.uid"@),
        (Some(owner_name), Some(uid)) => Ok(
            ObjectMetaView {
                name: Some(name),
                namespace: owner.namespace,
                uid: None,
                resource_version: None,
                labels: Some(labels),
                annotations: None,
                owner_references: Some(seq![controller_reference(api_version, owner_name, uid)]),
            },
        ),
    }
}

/// Builds the metadata of an object that a cluster owns.
pub fn owned_object_meta(name: &str, owner: &ObjectMeta, api_version: &str, labels: StringMap) -> (result:
    Result<ObjectMeta, String>)
    ensures
        match owned_meta(name@, owner.deep_view(), api_version@, labels@) {
            Ok(expected) => result matches Ok(meta) && meta.deep_view() == expected,
            Err(expected) => result matches Err(error) && error@ == expected,
        },
{
    let owner_name = match &owner.name {
        Some(name) => name,
        None => return Err(".metadata.name".to_owned()),
    };
    let uid = match &owner.uid {
        Some(uid) => uid,
        None => return Err(".metadata.uid".to_owned()),
    };
    Ok(
        ObjectMeta {
            name: Some(name.to_owned()),
            namespace: owner.namespace.duplicate(),
            uid: None,
            resource_version: None,
            labels: Some(labels),
            annotations: None,
            owner_references: Some(
                one_item(owner_reference(api_version, owner_name.as_str(), uid.as_str())),
            ),
        },
    )
}

} // verus!
