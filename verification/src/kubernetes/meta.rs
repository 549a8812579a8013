//! Object metadata and label selectors.
use crate::text_map::StringMap;
use crate::value::Value;
use vstd::prelude::*;

verus! {

/// A reference from a dependent object to the object that owns it.
#[derive(Clone, Debug, PartialEq, Eq)]
pub struct OwnerReference {
    pub api_version: String,
    pub kind: String,
    pub name: String,
    pub uid: String,
    pub controller: Option<bool>,
    pub block_owner_deletion: Option<bool>,
}

/// The contents of an [`OwnerReference`].
#[verifier::ext_equal]
pub struct OwnerReferenceView {
    pub api_version: Seq<char>,
    pub kind: Seq<char>,
    pub name: Seq<char>,
    pub uid: Seq<char>,
    pub controller: Option<bool>,
    pub block_owner_deletion: Option<bool>,
}

impl DeepView for OwnerReference {
    type V = OwnerReferenceView;

    open spec fn deep_view(&self) -> OwnerReferenceView {
        OwnerReferenceView {
            api_version: self.api_version.deep_view(),
            kind: self.kind.deep_view(),
            name: self.name.deep_view(),
            uid: self.uid.deep_view(),
            controller: self.controller.deep_view(),
            block_owner_deletion: self.block_owner_deletion.deep_view(),
        }
    }
}

impl Value for OwnerReference {
    fn duplicate(&self) -> (copy: Self) {
        OwnerReference {
            api_version: self.api_version.duplicate(),
            kind: self.kind.duplicate(),
            name: self.name.duplicate(),
            uid: self.uid.duplicate(),
            controller: self.controller.duplicate(),
            block_owner_deletion: self.block_owner_deletion.duplicate(),
        }
    }

    fn same_as(&self, other: &Self) -> (same: bool) {
        self.api_version.same_as(&other.api_version)
            && self.kind.same_as(&other.kind)
            && self.name.same_as(&other.name)
            && self.uid.same_as(&other.uid)
            && self.controller.same_as(&other.controller)
            && self.block_owner_deletion.same_as(&other.block_owner_deletion)
    }
}

/// The metadata of a Kubernetes object, as far as the operator reads or writes it.
#[derive(Clone, Debug, PartialEq, Eq)]
pub struct ObjectMeta {
    pub name: Option<String>,
    pub namespace: Option<String>,
    pub uid: Option<String>,
    pub resource_version: Option<String>,
    pub labels: Option<StringMap>,
    pub annotations: Option<StringMap>,
    pub owner_references: Option<Vec<OwnerReference>>,
}

/// The contents of an [`ObjectMeta`].
#[verifier::ext_equal]
pub struct ObjectMetaView {
    pub name: Option<Seq<char>>,
    pub namespace: Option<Seq<char>>,
    pub uid: Option<Seq<char>>,
    pub resource_version: Option<Seq<char>>,
    pub labels: Option<Map<Seq<char>, Seq<char>>>,
    pub annotations: Option<Map<Seq<char>, Seq<char>>>,
    pub owner_references: Option<Seq<OwnerReferenceView>>,
}

impl DeepView for ObjectMeta {
    type V = ObjectMetaView;

    open spec fn deep_view(&self) -> ObjectMetaView {
        ObjectMetaView {
            name: self.name.deep_view(),
            namespace: self.namespace.deep_view(),
            uid: self.uid.deep_view(),
            resource_version: self.resource_version.deep_view(),
            labels: self.labels.deep_view(),
            annotations: self.annotations.deep_view(),
            owner_references: self.owner_references.deep_view(),
        }
    }
}

impl Value for ObjectMeta {
    fn duplicate(&self) -> (copy: Self) {
        ObjectMeta {
            name: self.name.duplicate(),
            namespace: self.namespace.duplicate(),
            uid: self.uid.duplicate(),
            resource_version: self.resource_version.duplicate(),
            labels: self.labels.duplicate(),
            annotations: self.annotations.duplicate(),
            owner_references: self.owner_references.duplicate(),
        }
    }

    fn same_as(&self, other: &Self) -> (same: bool) {
        self.name.same_as(&other.name)
            && self.namespace.same_as(&other.namespace)
            && self.uid.same_as(&other.uid)
            && self.resource_version.same_as(&other.resource_version)
            && self.labels.same_as(&other.labels)
            && self.annotations.same_as(&other.annotations)
            && self.owner_references.same_as(&other.owner_references)
    }
}

/// Selects the objects that carry all of the given labels.
#[derive(Clone, Debug, PartialEq, Eq)]
pub struct LabelSelector {
    pub match_labels: Option<StringMap>,
    /// Further requirements, as the JSON text of their list. The operator never sets any.
    pub match_expressions: Option<String>,
}

/// The contents of a [`LabelSelector`].
#[verifier::ext_equal]
pub struct LabelSelectorView {
    pub match_labels: Option<Map<Seq<char>, Seq<char>>>,
    pub match_expressions: Option<Seq<char>>,
}

impl DeepView for LabelSelector {
    type V = LabelSelectorView;

    open spec fn deep_view(&self) -> LabelSelectorView {
        LabelSelectorView {
            match_labels: self.match_labels.deep_view(),
            match_expressions: self.match_expressions.deep_view(),
        }
    }
}

impl Value for LabelSelector {
    fn duplicate(&self) -> (copy: Self) {
        LabelSelector {
            match_labels: self.match_labels.duplicate(),
            match_expressions: self.match_expressions.duplicate(),
        }
    }

    fn same_as(&self, other: &Self) -> (same: bool) {
        self.match_labels.same_as(&other.match_labels)
            && self.match_expressions.same_as(&other.match_expressions)
    }
}

} // verus!
