//! The labels by which the objects of a cluster are described and selected.
use crate::text_map::StringMap;
use vstd::prelude::*;

verus! {

/// The name of the product.
pub const APP_NAME: &'static str = "opa";

/// The name of the operator.
pub const OPERATOR_NAME: &'static str = "opa.stackable.tech";

/// The name of the controller.
pub const OPA_CONTROLLER_NAME: &'static str = "opacluster";

/// Label for the product's name.
pub const APP_NAME_LABEL: &'static str = "app.kubernetes.io/name";

/// Label for the cluster's name.
pub const APP_INSTANCE_LABEL: &'static str = "app.kubernetes.io/instance";

/// Label for the product's version.
pub const APP_VERSION_LABEL: &'static str = "app.kubernetes.io/version";

/// Label for the role.
pub const APP_COMPONENT_LABEL: &'static str = "app.kubernetes.io/component";

/// Label for the role group.
pub const APP_ROLE_GROUP_LABEL: &'static str = "app.kubernetes.io/role-group";

/// Label for what manages the object.
pub const APP_MANAGED_BY_LABEL: &'static str = "app.kubernetes.io/managed-by";

/// Label for the vendor of the platform.
pub const VENDOR_LABEL: &'static str = "stackable.tech/vendor";

/// The vendor of the platform.
pub const VENDOR: &'static str = "Stackable";

/// What the recommended labels of an object are made from.
pub struct ObjectLabels<'a> {
    /// The name of the cluster that owns the object.
    pub owner: &'a str,
    pub app_name: &'a str,
    pub app_version: &'a str,
    pub operator_name: &'a str,
    pub controller_name: &'a str,
    pub role: &'a str,
    pub role_group: &'a str,
}

/// Who manages the objects: the operator and its controller.
pub open spec fn managed_by(operator_name: Seq<char>, controller_name: Seq<char>) -> Seq<char> {
    operator_name + "_"@ + controller_name
}

/// The labels that select all Pods of a role.
pub open spec fn role_selector_labels(
    app_name: Seq<char>,
    instance: Seq<char>,
    role: Seq<char>,
) -> Map<Seq<char>, Seq<char>> {
    Map::empty().insert(APP_NAME_LABEL@, app_name).insert(APP_INSTANCE_LABEL@, instance).insert(
        APP_COMPONENT_LABEL@,
        role,
    )
}

/// The labels that select all Pods of a role group.
pub open spec fn role_group_selector_labels(
    app_name: Seq<char>,
    instance: Seq<char>,
    role: Seq<char>,
    role_group: Seq<char>,
) -> Map<Seq<char>, Seq<char>> {
    role_selector_labels(app_name, instance, role).insert(APP_ROLE_GROUP_LABEL@, role_group)
}

/// The labels that the objects of a cluster share.
pub open spec fn cluster_labels(
    app_name: Seq<char>,
    instance: Seq<char>,
    version: Seq<char>,
    manager: Seq<char>,
) -> Map<Seq<char>, Seq<char>> {
    Map::empty().insert(APP_NAME_LABEL@, app_name).insert(APP_INSTANCE_LABEL@, instance).insert(
        APP_VERSION_LABEL@,
        version,
    ).insert(APP_MANAGED_BY_LABEL@, manager).insert(VENDOR_LABEL@, VENDOR@)
}

/// The recommended labels of an object.
pub open spec fn recommended_labels(labels: ObjectLabels) -> Map<Seq<char>, Seq<char>> {
    cluster_labels(
        labels.app_name@,
        labels.owner@,
        labels.app_version@,
        managed_by(labels.operator_name@, labels.controller_name@),
    ).insert(APP_COMPONENT_LABEL@, labels.role@).insert(APP_ROLE_GROUP_LABEL@, labels.role_group@)
}

/// Stores a label.
pub fn put(labels: &mut StringMap, key: &str, value: &str)
    ensures
        final(labels)@ == old(labels)@.insert(key@, value@),
{
    labels.insert(key.to_owned(), value.to_owned());
}

/// Builds the value that says who manages an object.
pub fn manager(operator_name: &str, controller_name: &str) -> (value: String)
    ensures
        value@ == managed_by(operator_name@, controller_name@),
{
    let mut value = operator_name.to_owned();
    value.append("_");
    value.append(controller_name);
    value
}

/// Builds the labels that select all Pods of a role.
pub fn role_selector(app_name: &str, instance: &str, role: &str) -> (labels: StringMap)
    ensures
        labels@ == role_selector_labels(app_name@, instance@, role@),
{
    let mut labels = StringMap::new();
    put(&mut labels, APP_NAME_LABEL, app_name);
    put(&mut labels, APP_INSTANCE_LABEL, instance);
    put(&mut labels, APP_COMPONENT_LABEL, role);
    labels
}

/// Builds the labels that select all Pods of a role group.
pub fn role_group_selector(app_name: &str, instance: &str, role: &str, role_group: &str) -> (labels:
    StringMap)
    ensures
        labels@ == role_group_selector_labels(app_name@, instance@, role@, role_group@),
{
    let mut labels = role_selector(app_name, instance, role);
    put(&mut labels, APP_ROLE_GROUP_LABEL, role_group);
    labels
}

/// Builds the labels that the objects of a cluster share.
pub fn cluster_object_labels(app_name: &str, instance: &str, version: &str, manager: &str) -> (labels:
    StringMap)
    ensures
        labels@ == cluster_labels(app_name@, instance@, version@, manager@),
{
    let mut labels = StringMap::new();
    put(&mut labels, APP_NAME_LABEL, app_name);
    put(&mut labels, APP_INSTANCE_LABEL, instance);
    put(&mut labels, APP_VERSION_LABEL, version);
    put(&mut labels, APP_MANAGED_BY_LABEL, manager);
    put(&mut labels, VENDOR_LABEL, VENDOR);
    labels
}

impl<'a> ObjectLabels<'a> {
    /// The recommended labels, as they are written to the object.
    pub fn to_labels(&self) -> (labels: StringMap)
        ensures
            labels@ == recommended_labels(*self),
    {
        let manager = manager(self.operator_name, self.controller_name);
        let mut labels = cluster_object_labels(
            self.app_name,
            self.owner,
            self.app_version,
            manager.as_str(),
        );
        put(&mut labels, APP_COMPONENT_LABEL, self.role);
        put(&mut labels, APP_ROLE_GROUP_LABEL, self.role_group);
        labels
    }
}

/// Whether an object with these labels is selected.
pub open spec fn selects(
    selector: Map<Seq<char>, Seq<char>>,
    labels: Map<Seq<char>, Seq<char>>,
) -> bool {
    forall|key: Seq<char>| #[trigger]
        selector.contains_key(key) ==> labels.contains_key(key) && labels[key] == selector[key]
}

/// The recommended labels of a role group's Pods are selected by the selector of the role group.
pub proof fn lemma_role_group_selector_selects(labels: ObjectLabels)
    ensures
        selects(
            role_group_selector_labels(
                labels.app_name@,
                labels.owner@,
                labels.role@,
                labels.role_group@,
            ),
            recommended_labels(labels),
        ),
{
    lemma_label_keys_differ();
}

/// The recommended labels of a role group's Pods are selected by the selector of the role.
pub proof fn lemma_role_selector_selects(labels: ObjectLabels)
    ensures
        selects(
            role_selector_labels(labels.app_name@, labels.owner@, labels.role@),
            recommended_labels(labels),
        ),
{
    lemma_label_keys_differ();
}

/// A role group's selector does not select the Pods of another role group.
pub proof fn lemma_role_group_selector_separates(labels: ObjectLabels, other: ObjectLabels)
    requires
        labels.role_group@ != other.role_group@,
    ensures
        !selects(
            role_group_selector_labels(
                labels.app_name@,
                labels.owner@,
                labels.role@,
                labels.role_group@,
            ),
            recommended_labels(other),
        ),
{
    let selector = role_group_selector_labels(
        labels.app_name@,
        labels.owner@,
        labels.role@,
        labels.role_group@,
    );
    assert(selector.contains_key(APP_ROLE_GROUP_LABEL@));
}

/// The keys of the labels are different from one another.
pub proof fn lemma_label_keys_differ()
    ensures
        APP_NAME_LABEL@ != APP_INSTANCE_LABEL@,
        APP_NAME_LABEL@ != APP_VERSION_LABEL@,
        APP_NAME_LABEL@ != APP_COMPONENT_LABEL@,
        APP_NAME_LABEL@ != APP_ROLE_GROUP_LABEL@,
        APP_NAME_LABEL@ != APP_MANAGED_BY_LABEL@,
        APP_NAME_LABEL@ != VENDOR_LABEL@,
        APP_INSTANCE_LABEL@ != APP_VERSION_LABEL@,
        APP_INSTANCE_LABEL@ != APP_COMPONENT_LABEL@,
        APP_INSTANCE_LABEL@ != APP_ROLE_GROUP_LABEL@,
        APP_INSTANCE_LABEL@ != APP_MANAGED_BY_LABEL@,
        APP_INSTANCE_LABEL@ != VENDOR_LABEL@,
        APP_VERSION_LABEL@ != APP_COMPONENT_LABEL@,
        APP_VERSION_LABEL@ != APP_ROLE_GROUP_LABEL@,
        APP_VERSION_LABEL@ != APP_MANAGED_BY_LABEL@,
        APP_VERSION_LABEL@ != VENDOR_LABEL@,
        APP_COMPONENT_LABEL@ != APP_ROLE_GROUP_LABEL@,
        APP_COMPONENT_LABEL@ != APP_MANAGED_BY_LABEL@,
        APP_COMPONENT_LABEL@ != VENDOR_LABEL@,
        APP_ROLE_GROUP_LABEL@ != APP_MANAGED_BY_LABEL@,
        APP_ROLE_GROUP_LABEL@ != VENDOR_LABEL@,
        APP_MANAGED_BY_LABEL@ != VENDOR_LABEL@,
{
    reveal_strlit("app.kubernetes.io/name");
    reveal_strlit("app.kubernetes.io/instance");
    reveal_strlit("app.kubernetes.io/version");
    reveal_strlit("app.kubernetes.io/component");
    reveal_strlit("app.kubernetes.io/role-group");
    reveal_strlit("app.kubernetes.io/managed-by");
    reveal_strlit("stackable.tech/vendor");
    assert(APP_COMPONENT_LABEL@[18] == 'c');
    assert(APP_INSTANCE_LABEL@[18] == 'i');
    assert(APP_VERSION_LABEL@[18] == 'v');
    assert(APP_NAME_LABEL@[18] == 'n');
    assert(APP_ROLE_GROUP_LABEL@[18] == 'r');
    assert(APP_MANAGED_BY_LABEL@[18] == 'm');
    assert(VENDOR_LABEL@[0] == 's');
    assert(APP_COMPONENT_LABEL@[0] == 'a');
    assert(APP_INSTANCE_LABEL@[0] == 'a');
    assert(APP_VERSION_LABEL@[0] == 'a');
    assert(APP_NAME_LABEL@[0] == 'a');
    assert(APP_ROLE_GROUP_LABEL@[0] == 'a');
    assert(APP_MANAGED_BY_LABEL@[0] == 'a');
}

/// All labels of an object, by their keys: what it is, whose it is, its version, its manager, the
/// vendor, role and role group.
pub proof fn lemma_recommended_labels(labels: ObjectLabels)
    ensures
        recommended_labels(labels) =~= map![
            "app.kubernetes.io/name"@ => labels.app_name@,
            "app.kubernetes.io/instance"@ => labels.owner@,
            "app.kubernetes.io/version"@ => labels.app_version@,
            "app.kubernetes.io/managed-by"@ => labels.operator_name@ + "_"@
                + labels.controller_name@,
            "stackable.tech/vendor"@ => "Stackable"@,
            "app.kubernetes.io/component"@ => labels.role@,
            "app.kubernetes.io/role-group"@ => labels.role_group@,
        ],
{
    lemma_label_keys_differ();
}

/// Selectors name the product, the cluster and the role, and that of a role group the role group too.
pub proof fn lemma_selector_labels(
    app_name: Seq<char>,
    instance: Seq<char>,
    role: Seq<char>,
    role_group: Seq<char>,
)
    ensures
        role_selector_labels(app_name, instance, role) =~= map![
            "app.kubernetes.io/name"@ => app_name,
            "app.kubernetes.io/instance"@ => instance,
            "app.kubernetes.io/component"@ => role,
        ],
        role_group_selector_labels(app_name, instance, role, role_group) =~= map![
            "app.kubernetes.io/name"@ => app_name,
            "app.kubernetes.io/instance"@ => instance,
            "app.kubernetes.io/component"@ => role,
            "app.kubernetes.io/role-group"@ => role_group,
        ],
{
    lemma_label_keys_differ();
}

} // verus!
