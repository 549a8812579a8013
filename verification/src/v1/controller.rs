//! Runs an OPA server on every eligible node of a cluster.
use crate::checked::{Checked, CheckedView};
use crate::kubernetes::meta::{ObjectMeta, ObjectMetaView, OwnerReference, OwnerReferenceView};
use crate::kubernetes::owned::{empty_meta, no_meta};
use crate::kubernetes::parts::{env_var, literal_env};
use crate::kubernetes::pod::{EnvVar, EnvVarView};
use crate::kubernetes::resources::{ConfigMap, ConfigMapView};
use crate::labels::{APP_COMPONENT_LABEL, APP_INSTANCE_LABEL, APP_VERSION_LABEL};
use crate::text::equal;
use crate::text_map::{lemma_listed, lemma_listing_is_the_map, listing, StringMap, TextMap};
use crate::v1::crd::{OpaRole, OpaVersion, CONFIG_FILE, PORT, REPO_RULE_REFERENCE};
use crate::v1::pod_utils::{create_opa_start_command, start_arguments};
use crate::value::{no_items, one_item, push_item, Value};
use vstd::prelude::*;

verus! {

/// Why a reconciliation failed.
#[derive(Clone, Debug, PartialEq, Eq)]
pub enum Error {
    /// A ConfigMap has no name.
    InvalidConfigMap,
    /// The operator framework, or Kubernetes, reported this error.
    OperatorFrameworkError(String),
}

/// The contents of an [`Error`].
#[verifier::ext_equal]
pub enum ErrorView {
    InvalidConfigMap,
    OperatorFrameworkError(Seq<char>),
}

impl DeepView for Error {
    type V = ErrorView;

    open spec fn deep_view(&self) -> ErrorView {
        match self {
            Error::InvalidConfigMap => ErrorView::InvalidConfigMap,
            Error::OperatorFrameworkError(inner) => {
                ErrorView::OperatorFrameworkError(inner.deep_view())
            },
        }
    }
}

impl Value for Error {
    fn duplicate(&self) -> (copy: Self) {
        match self {
            Error::InvalidConfigMap => Error::InvalidConfigMap,
            Error::OperatorFrameworkError(inner) => {
                Error::OperatorFrameworkError(inner.duplicate())
            },
        }
    }

    fn same_as(&self, other: &Self) -> (same: bool) {
        match (self, other) {
            (Error::InvalidConfigMap, Error::InvalidConfigMap) => true,
            (Error::OperatorFrameworkError(left), Error::OperatorFrameworkError(right)) => {
                left.same_as(right)
            },
            _ => false,
        }
    }
}

/// An error that the Kubernetes API answered with.
#[derive(Clone, Debug, PartialEq, Eq)]
pub struct ApiError {
    pub reason: String,
    pub message: String,
}

/// The contents of an [`ApiError`].
#[verifier::ext_equal]
pub struct ApiErrorView {
    pub reason: Seq<char>,
    pub message: Seq<char>,
}

impl DeepView for ApiError {
    type V = ApiErrorView;

    open spec fn deep_view(&self) -> ApiErrorView {
        ApiErrorView {
            reason: self.reason.deep_view(),
            message: self.message.deep_view(),
        }
    }
}

impl Value for ApiError {
    fn duplicate(&self) -> (copy: Self) {
        ApiError {
            reason: self.reason.duplicate(),
            message: self.message.duplicate(),
        }
    }

    fn same_as(&self, other: &Self) -> (same: bool) {
        self.reason.same_as(&other.reason) && self.message.same_as(&other.message)
    }
}

/// Why an object could not be fetched.
#[derive(Clone, Debug, PartialEq, Eq)]
pub enum GetError {
    /// The Kubernetes API answered with an error.
    Api(ApiError),
    /// There was another problem.
    Other(String),
}

/// The contents of a [`GetError`].
#[verifier::ext_equal]
pub enum GetErrorView {
    Api(ApiErrorView),
    Other(Seq<char>),
}

impl DeepView for GetError {
    type V = GetErrorView;

    open spec fn deep_view(&self) -> GetErrorView {
        match self {
            GetError::Api(inner) => GetErrorView::Api(inner.deep_view()),
            GetError::Other(inner) => GetErrorView::Other(inner.deep_view()),
        }
    }
}

impl Value for GetError {
    fn duplicate(&self) -> (copy: Self) {
        match self {
            GetError::Api(inner) => GetError::Api(inner.duplicate()),
            GetError::Other(inner) => GetError::Other(inner.duplicate()),
        }
    }

    fn same_as(&self, other: &Self) -> (same: bool) {
        match (self, other) {
            (GetError::Api(left), GetError::Api(right)) => left.same_as(right),
            (GetError::Other(left), GetError::Other(right)) => left.same_as(right),
            _ => false,
        }
    }
}

/// Where a property of the product configuration goes to.
#[derive(Clone, Debug, PartialEq, Eq)]
pub enum PropertyNameKind {
    /// A configuration file.
    File(String),
    /// The environment.
    Env,
    /// The command line.
    Cli,
}

/// The contents of a [`PropertyNameKind`].
#[verifier::ext_equal]
pub enum PropertyNameKindView {
    File(Seq<char>),
    Env,
    Cli,
}

impl DeepView for PropertyNameKind {
    type V = PropertyNameKindView;

    open spec fn deep_view(&self) -> PropertyNameKindView {
        match self {
            PropertyNameKind::File(inner) => PropertyNameKindView::File(inner.deep_view()),
            PropertyNameKind::Env => PropertyNameKindView::Env,
            PropertyNameKind::Cli => PropertyNameKindView::Cli,
        }
    }
}

impl Value for PropertyNameKind {
    fn duplicate(&self) -> (copy: Self) {
        match self {
            PropertyNameKind::File(inner) => PropertyNameKind::File(inner.duplicate()),
            PropertyNameKind::Env => PropertyNameKind::Env,
            PropertyNameKind::Cli => PropertyNameKind::Cli,
        }
    }

    fn same_as(&self, other: &Self) -> (same: bool) {
        match (self, other) {
            (PropertyNameKind::File(left), PropertyNameKind::File(right)) => left.same_as(right),
            (PropertyNameKind::Env, PropertyNameKind::Env) => true,
            (PropertyNameKind::Cli, PropertyNameKind::Cli) => true,
            _ => false,
        }
    }
}

/// The validated properties of a role group, by where they go to.
#[derive(Clone, Debug, PartialEq, Eq)]
pub struct ValidatedConfig {
    pub files: TextMap<StringMap>,
    pub env: Option<StringMap>,
    pub cli: Option<StringMap>,
}

/// The contents of a [`ValidatedConfig`].
#[verifier::ext_equal]
pub struct ValidatedConfigView {
    pub files: Map<Seq<char>, Map<Seq<char>, Seq<char>>>,
    pub env: Option<Map<Seq<char>, Seq<char>>>,
    pub cli: Option<Map<Seq<char>, Seq<char>>>,
}

impl DeepView for ValidatedConfig {
    type V = ValidatedConfigView;

    open spec fn deep_view(&self) -> ValidatedConfigView {
        ValidatedConfigView {
            files: self.files.deep_view(),
            env: self.env.deep_view(),
            cli: self.cli.deep_view(),
        }
    }
}

impl Value for ValidatedConfig {
    fn duplicate(&self) -> (copy: Self) {
        ValidatedConfig {
            files: self.files.duplicate(),
            env: self.env.duplicate(),
            cli: self.cli.duplicate(),
        }
    }

    fn same_as(&self, other: &Self) -> (same: bool) {
        self.files.same_as(&other.files)
            && self.env.same_as(&other.env)
            && self.cli.same_as(&other.cli)
    }
}

/// The nodes of a role group that need a Pod. A node may lack a name.
#[derive(Clone, Debug, PartialEq, Eq)]
pub struct NodesOfGroup {
    pub role_group: String,
    pub nodes: Vec<Option<String>>,
}

/// The contents of a [`NodesOfGroup`].
#[verifier::ext_equal]
pub struct NodesOfGroupView {
    pub role_group: Seq<char>,
    pub nodes: Seq<Option<Seq<char>>>,
}

impl DeepView for NodesOfGroup {
    type V = NodesOfGroupView;

    open spec fn deep_view(&self) -> NodesOfGroupView {
        NodesOfGroupView {
            role_group: self.role_group.deep_view(),
            nodes: self.nodes.deep_view(),
        }
    }
}

impl Value for NodesOfGroup {
    fn duplicate(&self) -> (copy: Self) {
        NodesOfGroup {
            role_group: self.role_group.duplicate(),
            nodes: self.nodes.duplicate(),
        }
    }

    fn same_as(&self, other: &Self) -> (same: bool) {
        self.role_group.same_as(&other.role_group) && self.nodes.same_as(&other.nodes)
    }
}

/// A Pod that is to be created.
#[derive(Clone, Debug, PartialEq, Eq)]
pub struct MissingPod {
    pub role_group: String,
    pub node_name: String,
}

/// The contents of a [`MissingPod`].
#[verifier::ext_equal]
pub struct MissingPodView {
    pub role_group: Seq<char>,
    pub node_name: Seq<char>,
}

impl DeepView for MissingPod {
    type V = MissingPodView;

    open spec fn deep_view(&self) -> MissingPodView {
        MissingPodView {
            role_group: self.role_group.deep_view(),
            node_name: self.node_name.deep_view(),
        }
    }
}

impl Value for MissingPod {
    fn duplicate(&self) -> (copy: Self) {
        MissingPod {
            role_group: self.role_group.duplicate(),
            node_name: self.node_name.duplicate(),
        }
    }

    fn same_as(&self, other: &Self) -> (same: bool) {
        self.role_group.same_as(&other.role_group) && self.node_name.same_as(&other.node_name)
    }
}

/// A ConfigMap that is mounted into a container.
#[derive(Clone, Debug, PartialEq, Eq)]
pub struct ConfigMapMount {
    pub name: String,
    pub path: String,
}

/// The contents of a [`ConfigMapMount`].
#[verifier::ext_equal]
pub struct ConfigMapMountView {
    pub name: Seq<char>,
    pub path: Seq<char>,
}

impl DeepView for ConfigMapMount {
    type V = ConfigMapMountView;

    open spec fn deep_view(&self) -> ConfigMapMountView {
        ConfigMapMountView {
            name: self.name.deep_view(),
            path: self.path.deep_view(),
        }
    }
}

impl Value for ConfigMapMount {
    fn duplicate(&self) -> (copy: Self) {
        ConfigMapMount {
            name: self.name.duplicate(),
            path: self.path.duplicate(),
        }
    }

    fn same_as(&self, other: &Self) -> (same: bool) {
        self.name.same_as(&other.name) && self.path.same_as(&other.path)
    }
}

/// The container that runs OPA.
#[derive(Clone, Debug, PartialEq, Eq)]
pub struct ServerContainer {
    pub name: String,
    pub image: String,
    pub command: Vec<String>,
    pub env: Vec<EnvVar>,
    pub config_map_volumes: Vec<ConfigMapMount>,
}

/// The contents of a [`ServerContainer`].
#[verifier::ext_equal]
pub struct ServerContainerView {
    pub name: Seq<char>,
    pub image: Seq<char>,
    pub command: Seq<Seq<char>>,
    pub env: Seq<EnvVarView>,
    pub config_map_volumes: Seq<ConfigMapMountView>,
}

impl DeepView for ServerContainer {
    type V = ServerContainerView;

    open spec fn deep_view(&self) -> ServerContainerView {
        ServerContainerView {
            name: self.name.deep_view(),
            image: self.image.deep_view(),
            command: self.command.deep_view(),
            env: self.env.deep_view(),
            config_map_volumes: self.config_map_volumes.deep_view(),
        }
    }
}

impl Value for ServerContainer {
    fn duplicate(&self) -> (copy: Self) {
        ServerContainer {
            name: self.name.duplicate(),
            image: self.image.duplicate(),
            command: self.command.duplicate(),
            env: self.env.duplicate(),
            config_map_volumes: self.config_map_volumes.duplicate(),
        }
    }

    fn same_as(&self, other: &Self) -> (same: bool) {
        self.name.same_as(&other.name)
            && self.image.same_as(&other.image)
            && self.command.same_as(&other.command)
            && self.env.same_as(&other.env)
            && self.config_map_volumes.same_as(&other.config_map_volumes)
    }
}

/// A Pod that runs OPA on a node.
#[derive(Clone, Debug, PartialEq, Eq)]
pub struct ServerPod {
    pub metadata: ObjectMeta,
    pub container: ServerContainer,
    pub node_name: String,
    /// Whether the Pod tolerates nodes that are run by a Stackable agent.
    pub stackable_agent_tolerations: bool,
}

/// The contents of a [`ServerPod`].
#[verifier::ext_equal]
pub struct ServerPodView {
    pub metadata: ObjectMetaView,
    pub container: ServerContainerView,
    pub node_name: Seq<char>,
    pub stackable_agent_tolerations: bool,
}

impl DeepView for ServerPod {
    type V = ServerPodView;

    open spec fn deep_view(&self) -> ServerPodView {
        ServerPodView {
            metadata: self.metadata.deep_view(),
            container: self.container.deep_view(),
            node_name: self.node_name.deep_view(),
            stackable_agent_tolerations: self.stackable_agent_tolerations.deep_view(),
        }
    }
}

impl Value for ServerPod {
    fn duplicate(&self) -> (copy: Self) {
        ServerPod {
            metadata: self.metadata.duplicate(),
            container: self.container.duplicate(),
            node_name: self.node_name.duplicate(),
            stackable_agent_tolerations: self.stackable_agent_tolerations.duplicate(),
        }
    }

    fn same_as(&self, other: &Self) -> (same: bool) {
        self.metadata.same_as(&other.metadata)
            && self.container.same_as(&other.container)
            && self.node_name.same_as(&other.node_name)
            && self.stackable_agent_tolerations.same_as(&other.stackable_agent_tolerations)
    }
}

/// What is known of a cluster during a reconciliation.
#[derive(Clone, Debug, PartialEq, Eq)]
pub struct OpaState {
    pub name: String,
    pub version: OpaVersion,
    /// The namespace that objects are created in.
    pub default_namespace: String,
    /// The reference by which the cluster owns objects.
    pub owner: Checked<OwnerReference>,
}

/// The contents of an [`OpaState`].
#[verifier::ext_equal]
pub struct OpaStateView {
    pub name: Seq<char>,
    pub version: OpaVersion,
    pub default_namespace: Seq<char>,
    pub owner: CheckedView<OwnerReferenceView>,
}

impl DeepView for OpaState {
    type V = OpaStateView;

    open spec fn deep_view(&self) -> OpaStateView {
        OpaStateView {
            name: self.name.deep_view(),
            version: self.version.deep_view(),
            default_namespace: self.default_namespace.deep_view(),
            owner: self.owner.deep_view(),
        }
    }
}

impl Value for OpaState {
    fn duplicate(&self) -> (copy: Self) {
        OpaState {
            name: self.name.duplicate(),
            version: self.version.duplicate(),
            default_namespace: self.default_namespace.duplicate(),
            owner: self.owner.duplicate(),
        }
    }

    fn same_as(&self, other: &Self) -> (same: bool) {
        self.name.same_as(&other.name)
            && self.version.same_as(&other.version)
            && self.default_namespace.same_as(&other.default_namespace)
            && self.owner.same_as(&other.owner)
    }
}

/// The properties that are asked of each role: those of the configuration file and of the command
/// line.
pub open spec fn properties_by_role() -> Map<Seq<char>, Seq<PropertyNameKindView>> {
    Map::empty().insert(
        OpaRole::Server.spec_name(),
        seq![PropertyNameKindView::File(CONFIG_FILE@), PropertyNameKindView::Cli],
    )
}

/// The properties that the product configuration is validated for, by role.
pub fn product_config_properties() -> (roles: TextMap<Vec<PropertyNameKind>>)
    ensures
        roles@ == properties_by_role(),
{
    let mut kinds: Vec<PropertyNameKind> = no_items();
    push_item(&mut kinds, PropertyNameKind::File(CONFIG_FILE.to_owned()));
    push_item(&mut kinds, PropertyNameKind::Cli);
    assert(kinds.deep_view() =~= seq![
        PropertyNameKindView::File(CONFIG_FILE@),
        PropertyNameKindView::Cli,
    ]);
    let mut roles: TextMap<Vec<PropertyNameKind>> = TextMap::new();
    roles.insert(OpaRole::Server.name(), kinds);
    roles
}

/// The configuration file, which makes OPA poll its bundle from the rule repository.
pub open spec fn config_file(repo_rule_reference: Seq<char>) -> Seq<char> {
    "services:
  - name: stackable
    url: "@ + repo_rule_reference + "

bundles:
  stackable:
    service: stackable
    resource: opa/bundle.tar.gz
    persist: true
    polling:
      min_delay_seconds: 10
      max_delay_seconds: 20"@
}

/// Builds the configuration file.
pub fn build_config_file(repo_rule_reference: &str) -> (file: String)
    ensures
        file@ == config_file(repo_rule_reference@),
{
    let mut file = "services:
  - name: stackable
    url: ".to_owned();
    file.append(repo_rule_reference);
    file.append(
        "

bundles:
  stackable:
    service: stackable
    resource: opa/bundle.tar.gz
    persist: true
    polling:
      min_delay_seconds: 10
      max_delay_seconds: 20",
    );
    file
}

/// The labels that Pods must have, and the values that each may have.
pub open spec fn required_labels(state: OpaStateView) -> Map<Seq<char>, Option<Seq<Seq<char>>>> {
    Map::empty().insert(APP_COMPONENT_LABEL@, Some(seq![OpaRole::Server.spec_name()])).insert(
        APP_INSTANCE_LABEL@,
        Some(seq![state.name]),
    ).insert(APP_VERSION_LABEL@, Some(seq![state.version.spec_name()]))
}

/// What is done about a ConfigMap.
#[derive(Clone, Copy, Debug, PartialEq, Eq, Structural)]
pub enum ConfigMapAction {
    /// It exists with identical data.
    Skip,
    /// It exists, but its data differs.
    Update,
    /// It does not exist.
    Create,
}

/// The reason that Kubernetes gives where an object does not exist.
pub const NOT_FOUND: &'static str = "NotFound";

/// What is done about a ConfigMap, given what was found under its name.
pub open spec fn config_map_action(
    config_map: ConfigMapView,
    existing: Result<ConfigMapView, GetErrorView>,
) -> Result<ConfigMapAction, ErrorView> {
    if config_map.metadata.name is None {
        Err(ErrorView::InvalidConfigMap)
    } else {
        match existing {
            Ok(found) => if found.data == config_map.data {
                Ok(ConfigMapAction::Skip)
            } else {
                Ok(ConfigMapAction::Update)
            },
            Err(GetErrorView::Api(error)) => if error.reason == NOT_FOUND@ {
                Ok(ConfigMapAction::Create)
            } else {
                Err(ErrorView::OperatorFrameworkError(error.message))
            },
            Err(GetErrorView::Other(message)) => Err(ErrorView::OperatorFrameworkError(message)),
        }
    }
}

/// The contents of what was found under a ConfigMap's name.
pub open spec fn found_view(existing: Result<&ConfigMap, GetError>) -> Result<
    ConfigMapView,
    GetErrorView,
> {
    match existing {
        Ok(config_map) => Ok(config_map.deep_view()),
        Err(error) => Err(error.deep_view()),
    }
}

/// The Pods that are missing on some nodes: one on each that has a name.
pub open spec fn missing_on(role_group: Seq<char>, nodes: Seq<Option<Seq<char>>>) -> Seq<
    MissingPodView,
>
    decreases nodes.len(),
{
    if nodes.len() == 0 {
        Seq::empty()
    } else {
        let before = missing_on(role_group, nodes.drop_last());
        match nodes.last() {
            Some(node_name) => before.push(MissingPodView { role_group, node_name }),
            None => before,
        }
    }
}

/// The Pods that are missing in some role groups, in their order.
pub open spec fn missing_in(groups: Seq<NodesOfGroupView>) -> Seq<MissingPodView>
    decreases groups.len(),
{
    if groups.len() == 0 {
        Seq::empty()
    } else {
        missing_in(groups.drop_last()) + missing_on(groups.last().role_group, groups.last().nodes)
    }
}

/// The Pods that are missing in a cluster.
pub open spec fn missing_pods(nodes: Map<Seq<char>, Seq<NodesOfGroupView>>) -> Seq<MissingPodView> {
    if nodes.contains_key(OpaRole::Server.spec_name()) {
        missing_in(nodes[OpaRole::Server.spec_name()])
    } else {
        Seq::empty()
    }
}

fn add_missing_on(missing: &mut Vec<MissingPod>, group: &NodesOfGroup)
    ensures
        final(missing).deep_view() == old(missing).deep_view() + missing_on(
            group.role_group@,
            group.nodes.deep_view(),
        ),
{
    let ghost before = missing.deep_view();
    let ghost nodes = group.nodes.deep_view();
    let mut i: usize = 0;
    assert(nodes.take(0) =~= Seq::empty());
    assert(before + missing_on(group.role_group@, nodes.take(0)) =~= before);
    while i < group.nodes.len()
        invariant
            i <= group.nodes.len(),
            nodes == group.nodes.deep_view(),
            missing.deep_view() == before + missing_on(group.role_group@, nodes.take(i as int)),
        decreases group.nodes.len() - i,
    {
        let ghost known = nodes.take(i + 1);
        assert(known.drop_last() =~= nodes.take(i as int));
        assert(known.last() == group.nodes[i as int].deep_view());
        if let Some(node_name) = &group.nodes[i] {
            push_item(
                missing,
                MissingPod { role_group: group.role_group.clone(), node_name: node_name.clone() },
            );
        }
        assert(missing.deep_view() =~= before + missing_on(group.role_group@, known));
        i += 1;
    }
    assert(nodes.take(i as int) =~= nodes);
}

/// Every Pod that is planned in a role group is planned on one of its nodes.
pub proof fn lemma_missing_pods_are_on_nodes(
    role_group: Seq<char>,
    nodes: Seq<Option<Seq<char>>>,
    node_name: Seq<char>,
)
    ensures
        missing_on(role_group, nodes).contains(MissingPodView { role_group, node_name })
            <==> nodes.contains(Some(node_name)),
    decreases nodes.len(),
{
    let wanted = MissingPodView { role_group, node_name };
    let all = missing_on(role_group, nodes);
    if nodes.len() > 0 {
        let rest = nodes.drop_last();
        let before = missing_on(role_group, rest);
        lemma_missing_pods_are_on_nodes(role_group, rest, node_name);
        if all.contains(wanted) {
            let i = choose|i: int| 0 <= i < all.len() && all[i] == wanted;
            if i < before.len() {
                assert(before[i] == wanted);
                let j = choose|j: int| 0 <= j < rest.len() && rest[j] == Some(node_name);
                assert(nodes[j] == Some(node_name));
            } else {
                assert(nodes[nodes.len() - 1] == Some(node_name));
            }
        }
        if nodes.contains(Some(node_name)) {
            let j = choose|j: int| 0 <= j < nodes.len() && nodes[j] == Some(node_name);
            if j < rest.len() {
                assert(rest[j] == Some(node_name));
                let i = choose|i: int| 0 <= i < before.len() && before[i] == wanted;
                assert(all[i] == wanted);
            } else {
                assert(all[all.len() - 1] == wanted);
            }
        }
    }
}

/// The entries of the ConfigMap: the configuration file, where a rule repository is configured.
pub open spec fn config_map_data(config: ValidatedConfigView) -> Map<Seq<char>, Seq<char>> {
    if config.files.contains_key(CONFIG_FILE@) && config.files[CONFIG_FILE@].contains_key(
        REPO_RULE_REFERENCE@,
    ) {
        Map::empty().insert(
            CONFIG_FILE@,
            config_file(config.files[CONFIG_FILE@][REPO_RULE_REFERENCE@]),
        )
    } else {
        Map::empty()
    }
}

/// Environment variables for some properties, except for those without a name.
pub open spec fn named_env(entries: Seq<(Seq<char>, Seq<char>)>) -> Seq<EnvVarView>
    decreases entries.len(),
{
    if entries.len() == 0 {
        Seq::empty()
    } else {
        let before = named_env(entries.drop_last());
        if entries.last().0.len() == 0 {
            before
        } else {
            before.push(literal_env(entries.last().0, entries.last().1))
        }
    }
}

/// The environment variables of the container, in name order.
pub open spec fn container_env(config: ValidatedConfigView) -> Seq<EnvVarView> {
    match config.env {
        Some(env) => named_env(listing(env)),
        None => Seq::empty(),
    }
}

/// The command of the container: there is one only where a port is configured.
pub open spec fn container_command(config: ValidatedConfigView) -> Seq<Seq<char>> {
    match config.cli {
        Some(cli) => if cli.contains_key(PORT@) {
            start_arguments(Some(cli[PORT@]))
        } else {
            Seq::empty()
        },
        None => Seq::empty(),
    }
}

/// The metadata of an object that the cluster owns.
pub open spec fn owned_meta(
    state: OpaStateView,
    owner: OwnerReferenceView,
    name: Seq<char>,
    labels: Option<Map<Seq<char>, Seq<char>>>,
) -> ObjectMetaView {
    ObjectMetaView {
        name: Some(name),
        namespace: Some(state.default_namespace),
        labels,
        owner_references: Some(seq![owner]),
        ..empty_meta()
    }
}

/// The ConfigMap of the Pod on a node.
pub open spec fn pod_config_map(
    state: OpaStateView,
    owner: OwnerReferenceView,
    name: Seq<char>,
    config: ValidatedConfigView,
) -> ConfigMapView {
    ConfigMapView {
        metadata: owned_meta(state, owner, name, None),
        data: Some(config_map_data(config)),
    }
}

/// The name of the ConfigMap that belongs to a Pod.
pub open spec fn config_map_name(pod_name: Seq<char>) -> Seq<char> {
    pod_name + "-config"@
}

/// The Pod that runs OPA on a node.
pub open spec fn server_pod(
    state: OpaStateView,
    owner: OwnerReferenceView,
    name: Seq<char>,
    node_name: Seq<char>,
    config: ValidatedConfigView,
    labels: Map<Seq<char>, Seq<char>>,
) -> ServerPodView {
    ServerPodView {
        metadata: owned_meta(state, owner, name, Some(labels)),
        container: ServerContainerView {
            name: "opa"@,
            image: "opa:"@ + state.version.spec_name(),
            command: container_command(config),
            env: container_env(config),
            config_map_volumes: seq![
                ConfigMapMountView { name: config_map_name(name), path: "conf"@ },
            ],
        },
        node_name,
        stackable_agent_tolerations: true,
    }
}

fn build_env(env: &StringMap) -> (vars: Vec<EnvVar>)
    ensures
        vars.deep_view() == named_env(listing(env@)),
{
    let entries = env.entries();
    let ghost listed = listing(env@);
    let mut vars: Vec<EnvVar> = no_items();
    let mut i: usize = 0;
    assert(listed.take(0) =~= Seq::empty());
    while i < entries.len()
        invariant
            i <= entries.len(),
            listed == entries.deep_view(),
            vars.deep_view() == named_env(listed.take(i as int)),
        decreases entries.len() - i,
    {
        let ghost known = listed.take(i + 1);
        assert(known.drop_last() =~= listed.take(i as int));
        assert(known.last() == entries[i as int].deep_view());
        let name = &entries[i].0;
        if !equal(name.as_str(), "") {
            proof {
                reveal_strlit("");
                if name@.len() == 0 {
                    assert(name@ =~= ""@);
                }
            }
            push_item(&mut vars, env_var(name.as_str(), entries[i].1.as_str()));
        } else {
            proof {
                reveal_strlit("");
            }
        }
        i += 1;
    }
    assert(listed.take(i as int) =~= listed);
    vars
}

fn build_owned_meta(
    state: &OpaState,
    owner: &OwnerReference,
    name: String,
    labels: Option<StringMap>,
) -> (meta: ObjectMeta)
    ensures
        meta.deep_view() == owned_meta(
            state.deep_view(),
            owner.deep_view(),
            name@,
            labels.deep_view(),
        ),
{
    let mut meta = no_meta();
    meta.name = Some(name);
    meta.namespace = Some(state.default_namespace.clone());
    meta.labels = labels;
    meta.owner_references = Some(one_item(owner.duplicate()));
    meta
}

impl OpaState {
    /// The labels that Pods must have, and the values that each may have.
    pub fn required_pod_labels(&self) -> (labels: TextMap<Option<Vec<String>>>)
        ensures
            labels@ == required_labels(self.deep_view()),
    {
        let mut labels: TextMap<Option<Vec<String>>> = TextMap::new();
        labels.insert(APP_COMPONENT_LABEL.to_owned(), Some(one_item(OpaRole::Server.name())));
        labels.insert(APP_INSTANCE_LABEL.to_owned(), Some(one_item(self.name.clone())));
        labels.insert(APP_VERSION_LABEL.to_owned(), Some(one_item(self.version.name())));
        labels
    }

    /// Decides what is done about a config map, given what was found under its name.
    /// - Create if no config map of that name exists
    /// - Update if config map exists but the content differs
    /// - Do nothing if the config map exists and the content is identical
    pub fn create_config_map(config_map: &ConfigMap, existing: Result<&ConfigMap, GetError>) -> (result:
        Result<ConfigMapAction, Error>)
        ensures
            match config_map_action(config_map.deep_view(), found_view(existing)) {
                Ok(expected) => result == Ok::<_, Error>(expected),
                Err(expected) => result matches Err(error) && error.deep_view() == expected,
            },
    {
        if config_map.metadata.name.is_none() {
            return Err(Error::InvalidConfigMap);
        }
        match existing {
            Ok(found) => {
                if found.data.same_as(&config_map.data) {
                    Ok(ConfigMapAction::Skip)
                } else {
                    Ok(ConfigMapAction::Update)
                }
            },
            Err(GetError::Api(error)) => {
                if equal(error.reason.as_str(), NOT_FOUND) {
                    Ok(ConfigMapAction::Create)
                } else {
                    Err(Error::OperatorFrameworkError(error.message))
                }
            },
            Err(GetError::Other(message)) => Err(Error::OperatorFrameworkError(message)),
        }
    }

    /// Plans the Pods that are missing, given the nodes that need one by role and role group.
    ///
    /// The hierarchy is:
    /// - Roles (for example Datanode, Namenode, Opa Server)
    ///   - Role groups for this role (user defined)
    ///      - Individual nodes
    pub fn create_missing_pods(nodes: &TextMap<Vec<NodesOfGroup>>) -> (missing: Vec<MissingPod>)
        ensures
            missing.deep_view() == missing_pods(nodes@),
    {
        let mut missing: Vec<MissingPod> = no_items();
        if let Some(groups) = nodes.get(OpaRole::Server.name().as_str()) {
            let ghost listed = groups.deep_view();
            let mut i: usize = 0;
            assert(listed.take(0) =~= Seq::empty());
            while i < groups.len()
                invariant
                    i <= groups.len(),
                    listed == groups.deep_view(),
                    missing.deep_view() == missing_in(listed.take(i as int)),
                decreases groups.len() - i,
            {
                let ghost known = listed.take(i + 1);
                assert(known.drop_last() =~= listed.take(i as int));
                assert(known.last() == groups[i as int].deep_view());
                add_missing_on(&mut missing, &groups[i]);
                i += 1;
            }
            assert(listed.take(i as int) =~= listed);
        }
        missing
    }

    /// This method creates a pod and required config map(s) for a certain role and role group. The
    /// validated configuration from the product-config is used to create the config map data, as
    /// well as setting the ENV variables in the containers or adapt / expand the CLI parameters.
    ///
    /// `pod_name` and `labels` are the name and the recommended labels that the operator framework
    /// gives to the Pod of this role and role group on this node. A cluster that cannot own objects,
    /// as its message says, is an error.
    pub fn create_pod_and_config_maps(
        &self,
        pod_name: &str,
        node_name: &str,
        validated_config: &ValidatedConfig,
        labels: StringMap,
    ) -> (result: Result<(ServerPod, Vec<ConfigMap>), Error>)
        ensures
            match self.owner {
                Checked::Invalid(message) => result matches Err(error) && error.deep_view()
                    == ErrorView::OperatorFrameworkError(message@),
                Checked::Valid(owner) => {
                    &&& result matches Ok(created)
                    &&& created.0.deep_view() == server_pod(
                        self.deep_view(),
                        owner.deep_view(),
                        pod_name@,
                        node_name@,
                        validated_config.deep_view(),
                        labels@,
                    )
                    &&& created.1.deep_view() == seq![
                        pod_config_map(
                            self.deep_view(),
                            owner.deep_view(),
                            config_map_name(pod_name@),
                            validated_config.deep_view(),
                        ),
                    ]
                },
            },
    {
        let owner = match &self.owner {
            Checked::Valid(owner) => owner,
            Checked::Invalid(message) => return Err(
                Error::OperatorFrameworkError(message.clone()),
            ),
        };
        let mut cm_name = pod_name.to_owned();
        cm_name.append("-config");
        let mut cm_data = StringMap::new();
        if let Some(config) = validated_config.files.get(CONFIG_FILE) {
            if let Some(repo_reference) = config.get(REPO_RULE_REFERENCE) {
                cm_data.insert(
                    CONFIG_FILE.to_owned(),
                    build_config_file(repo_reference.as_str()),
                );
            }
        }
        let env = match &validated_config.env {
            Some(env) => build_env(env),
            None => no_items(),
        };
        let mut command: Vec<String> = no_items();
        if let Some(cli) = &validated_config.cli {
            if let Some(port) = cli.get(PORT) {
                command = build_opa_start_command(Some(port.clone()));
            }
        }
        let config_map = ConfigMap {
            metadata: build_owned_meta(self, owner, cm_name.clone(), None),
            data: Some(cm_data),
        };
        let mut image = "opa:".to_owned();
        image.append(self.version.name().as_str());
        let pod = ServerPod {
            metadata: build_owned_meta(self, owner, pod_name.to_owned(), Some(labels)),
            container: ServerContainer {
                name: "opa".to_owned(),
                image,
                command,
                env,
                config_map_volumes: one_item(
                    ConfigMapMount { name: cm_name, path: "conf".to_owned() },
                ),
            },
            node_name: node_name.to_owned(),
            stackable_agent_tolerations: true,
        };
        Ok((pod, one_item(config_map)))
    }

    /// Continues a reconciliation after a step.
    ///
    /// The next step is taken only where the last one says to continue. `outcome` is what it said,
    /// or the message with which it failed.
    pub fn reconcile(step: ReconcileStep, outcome: Result<ReconcileFunctionAction, String>) -> (result:
        Result<ReconcileProgress, Error>)
        ensures
            match outcome {
                Ok(action) => result == Ok::<_, Error>(progress(step, action)),
                Err(message) => result matches Err(error) && error.deep_view()
                    == ErrorView::OperatorFrameworkError(message@),
            },
    {
        match outcome {
            Err(message) => Err(Error::OperatorFrameworkError(message)),
            Ok(ReconcileFunctionAction::Continue) => Ok(
                match step {
                    ReconcileStep::DeleteIllegalPods => ReconcileProgress::Step(
                        ReconcileStep::WaitForTerminatingPods,
                    ),
                    ReconcileStep::WaitForTerminatingPods => ReconcileProgress::Step(
                        ReconcileStep::WaitForRunningAndReadyPods,
                    ),
                    ReconcileStep::WaitForRunningAndReadyPods => ReconcileProgress::Step(
                        ReconcileStep::DeleteExcessPods,
                    ),
                    ReconcileStep::DeleteExcessPods => ReconcileProgress::Step(
                        ReconcileStep::CreateMissingPods,
                    ),
                    ReconcileStep::CreateMissingPods => ReconcileProgress::Finished(
                        ReconcileFunctionAction::Continue,
                    ),
                },
            ),
            Ok(action) => Ok(ReconcileProgress::Finished(action)),
        }
    }
}

/// Builds the arguments with which OPA is started as a server, on a port where one is given.
pub fn build_opa_start_command(port: Option<String>) -> (command: Vec<String>)
    ensures
        command.deep_view() == start_arguments(port.deep_view()),
{
    create_opa_start_command(port)
}

/// A step of a reconciliation.
#[derive(Clone, Copy, Debug, PartialEq, Eq, Structural)]
pub enum ReconcileStep {
    /// Delete Pods without the required labels.
    DeleteIllegalPods,
    WaitForTerminatingPods,
    WaitForRunningAndReadyPods,
    /// Delete Pods on nodes that are not eligible any more.
    DeleteExcessPods,
    CreateMissingPods,
}

/// What a step says about how to go on.
#[derive(Clone, Copy, Debug, PartialEq, Eq, Structural)]
pub enum ReconcileFunctionAction {
    /// Continue with the next step.
    Continue,
    /// Nothing else is to be done.
    Done,
    /// Start over after that many seconds.
    Requeue(u64),
}

/// How a reconciliation goes on.
#[derive(Clone, Copy, Debug, PartialEq, Eq, Structural)]
pub enum ReconcileProgress {
    Step(ReconcileStep),
    Finished(ReconcileFunctionAction),
}

/// How a reconciliation goes on after a step.
pub open spec fn progress(step: ReconcileStep, action: ReconcileFunctionAction) -> ReconcileProgress {
    if action == ReconcileFunctionAction::Continue {
        match step {
            ReconcileStep::DeleteIllegalPods => ReconcileProgress::Step(
                ReconcileStep::WaitForTerminatingPods,
            ),
            ReconcileStep::WaitForTerminatingPods => ReconcileProgress::Step(
                ReconcileStep::WaitForRunningAndReadyPods,
            ),
            ReconcileStep::WaitForRunningAndReadyPods => ReconcileProgress::Step(
                ReconcileStep::DeleteExcessPods,
            ),
            ReconcileStep::DeleteExcessPods => ReconcileProgress::Step(
                ReconcileStep::CreateMissingPods,
            ),
            ReconcileStep::CreateMissingPods => ReconcileProgress::Finished(action),
        }
    } else {
        ReconcileProgress::Finished(action)
    }
}

/// The reconciliation after a number of steps, each of which said to continue.
pub open spec fn progress_after(steps: nat) -> ReconcileProgress
    decreases steps,
{
    if steps == 0 {
        ReconcileProgress::Step(ReconcileStep::DeleteIllegalPods)
    } else {
        match progress_after((steps - 1) as nat) {
            ReconcileProgress::Step(step) => progress(step, ReconcileFunctionAction::Continue),
            ReconcileProgress::Finished(action) => ReconcileProgress::Finished(action),
        }
    }
}

/// Pods are created only after illegal Pods are deleted, all Pods are running and excess Pods are
/// deleted, and only where every step before said to continue.
pub proof fn lemma_missing_pods_are_created_last()
    ensures
        progress_after(4) == ReconcileProgress::Step(ReconcileStep::CreateMissingPods),
        progress_after(5) == ReconcileProgress::Finished(ReconcileFunctionAction::Continue),
        forall|step: ReconcileStep, action: ReconcileFunctionAction|
            #[trigger] progress(step, action) == ReconcileProgress::Step(
                ReconcileStep::CreateMissingPods,
            ) ==> step == ReconcileStep::DeleteExcessPods && action
                == ReconcileFunctionAction::Continue,
{
    reveal_with_fuel(progress_after, 6);
}

/// The Pod that is created for a node mounts the ConfigMap that is created with it.
pub proof fn lemma_pod_mounts_its_config_map(
    state: OpaStateView,
    owner: OwnerReferenceView,
    name: Seq<char>,
    node_name: Seq<char>,
    config: ValidatedConfigView,
    labels: Map<Seq<char>, Seq<char>>,
)
    ensures
        server_pod(
            state,
            owner,
            name,
            node_name,
            config,
            labels,
        ).container.config_map_volumes[0].name == pod_config_map(
            state,
            owner,
            config_map_name(name),
            config,
        ).metadata.name->0,
{
}

/// The configuration file makes OPA fetch its bundle from the given place.
#[verifier::rlimit(40)]
pub proof fn lemma_config_file(repo_rule_reference: Seq<char>)
    ensures
        ({
            let start = "services:\n  - name: stackable\n    url: "@ + repo_rule_reference
                + "\n\nbundles:\n  stackable:\n    service: stackable\n    resource: opa/bundle.tar.gz\n"@;
            let end =
                "    persist: true\n    polling:\n      min_delay_seconds: 10\n      max_delay_seconds: 20"@;
            config_file(repo_rule_reference) == start + end
        }),
{
    let head = "services:\n  - name: stackable\n    url: "@;
    let middle =
        "\n\nbundles:\n  stackable:\n    service: stackable\n    resource: opa/bundle.tar.gz\n"@;
    let end =
        "    persist: true\n    polling:\n      min_delay_seconds: 10\n      max_delay_seconds: 20"@;
    let written = "

bundles:
  stackable:
    service: stackable
    resource: opa/bundle.tar.gz
    persist: true
    polling:
      min_delay_seconds: 10
      max_delay_seconds: 20"@;
    assert("services:
  - name: stackable
    url: "@ == head);
    assert(written == middle + end) by {
        reveal_strlit(
            "\n\nbundles:\n  stackable:\n    service: stackable\n    resource: opa/bundle.tar.gz\n",
        );
        reveal_strlit(
            "    persist: true\n    polling:\n      min_delay_seconds: 10\n      max_delay_seconds: 20",
        );
        reveal_strlit("

bundles:
  stackable:
    service: stackable
    resource: opa/bundle.tar.gz
    persist: true
    polling:
      min_delay_seconds: 10
      max_delay_seconds: 20");
        assert(written =~= middle + end);
    }
    assert(config_file(repo_rule_reference) =~= head + repo_rule_reference + middle + end);
}

/// The ConfigMap of a Pod holds the configuration file exactly where a place to fetch rules from is
/// configured for it.
pub proof fn lemma_config_map_data(config: ValidatedConfigView)
    ensures
        ({
            let configured = config.files.contains_key("config.yaml"@)
                && config.files["config.yaml"@].contains_key("repoRuleReference"@);
            &&& config_map_data(config).contains_key("config.yaml"@) <==> configured
            &&& configured ==> config_map_data(config)["config.yaml"@] == config_file(
                config.files["config.yaml"@]["repoRuleReference"@],
            )
            &&& forall|file: Seq<char>| #[trigger]
                config_map_data(config).contains_key(file) ==> file == "config.yaml"@
        }),
{
}

/// Pods that are looked after are labelled with the role, the cluster and its version.
pub proof fn lemma_required_labels(state: OpaStateView)
    ensures
        required_labels(state) =~= map![
            "app.kubernetes.io/component"@ => Some(seq!["server"@]),
            "app.kubernetes.io/instance"@ => Some(seq![state.name]),
            "app.kubernetes.io/version"@ => Some(seq!["0.27.1"@]),
        ],
{
    crate::labels::lemma_label_keys_differ();
}

/// A ConfigMap is created where it was not found, left alone where it holds the same data, and else
/// updated. Without a name, and on any other failure, nothing is done.
pub proof fn lemma_config_map_action(
    config_map: ConfigMapView,
    existing: Result<ConfigMapView, GetErrorView>,
)
    ensures
        ({
            let action = config_map_action(config_map, existing);
            let missing = existing is Err && existing->Err_0 is Api && (existing->Err_0->Api_0).reason
                == "NotFound"@;
            if config_map.metadata.name is None {
                action == Err::<ConfigMapAction, _>(ErrorView::InvalidConfigMap)
            } else if missing {
                action == Ok::<_, ErrorView>(ConfigMapAction::Create)
            } else if existing is Ok {
                &&& (existing->Ok_0).data == config_map.data ==> action == Ok::<_, ErrorView>(
                    ConfigMapAction::Skip,
                )
                &&& (existing->Ok_0).data != config_map.data ==> action == Ok::<_, ErrorView>(
                    ConfigMapAction::Update,
                )
            } else if existing->Err_0 is Api {
                action == Err::<ConfigMapAction, _>(
                    ErrorView::OperatorFrameworkError((existing->Err_0->Api_0).message),
                )
            } else {
                action == Err::<ConfigMapAction, _>(
                    ErrorView::OperatorFrameworkError(existing->Err_0->Other_0),
                )
            }
        }),
{
}

proof fn lemma_missing_on_group(role_group: Seq<char>, nodes: Seq<Option<Seq<char>>>, i: int)
    ensures
        0 <= i < missing_on(role_group, nodes).len() ==> missing_on(role_group, nodes)[i].role_group
            == role_group,
    decreases nodes.len(),
{
    if nodes.len() > 0 {
        lemma_missing_on_group(role_group, nodes.drop_last(), i);
    }
}

#[verifier::rlimit(40)]
proof fn lemma_missing_in(groups: Seq<NodesOfGroupView>, role_group: Seq<char>, node_name: Seq<char>)
    ensures
        missing_in(groups).contains(MissingPodView { role_group, node_name }) <==> exists|g: int|
            0 <= g < groups.len() && (#[trigger] groups[g]).role_group == role_group
                && groups[g].nodes.contains(Some(node_name)),
    decreases groups.len(),
{
    if groups.len() > 0 {
        let rest = groups.drop_last();
        let last = groups.len() - 1;
        let pod = MissingPodView { role_group, node_name };
        let own = missing_on(groups[last].role_group, groups[last].nodes);
        lemma_missing_in(rest, role_group, node_name);
        lemma_missing_pods_are_on_nodes(groups[last].role_group, groups[last].nodes, node_name);
        let all = missing_in(groups);
        assert(all == missing_in(rest) + own);
        if all.contains(pod) {
            let i = choose|i: int| 0 <= i < all.len() && all[i] == pod;
            if i < missing_in(rest).len() {
                assert(missing_in(rest)[i] == pod);
                let g = choose|g: int|
                    0 <= g < rest.len() && (#[trigger] rest[g]).role_group == role_group
                        && rest[g].nodes.contains(Some(node_name));
                assert(groups[g] == rest[g]);
            } else {
                let k = i - missing_in(rest).len();
                assert(own[k] == pod);
                lemma_missing_on_group(groups[last].role_group, groups[last].nodes, k);
                assert(own.contains(pod));
                assert(groups[last].role_group == role_group);
            }
        }
        if exists|g: int|
            0 <= g < groups.len() && (#[trigger] groups[g]).role_group == role_group
                && groups[g].nodes.contains(Some(node_name)) {
            let g = choose|g: int|
                0 <= g < groups.len() && (#[trigger] groups[g]).role_group == role_group
                    && groups[g].nodes.contains(Some(node_name));
            if g < last {
                assert(rest[g] == groups[g]);
                let i = choose|i: int|
                    0 <= i < missing_in(rest).len() && missing_in(rest)[i] == pod;
                assert(all[i] == pod);
            } else {
                let k = choose|k: int| 0 <= k < own.len() && own[k] == pod;
                assert(all[missing_in(rest).len() + k] == pod);
            }
        }
    }
}

/// A Pod is missing exactly where the server role needs one for that role group on that node.
pub proof fn lemma_missing_pods(
    nodes: Map<Seq<char>, Seq<NodesOfGroupView>>,
    role_group: Seq<char>,
    node_name: Seq<char>,
)
    ensures
        missing_pods(nodes).contains(MissingPodView { role_group, node_name }) <==> (
        nodes.contains_key("server"@) && exists|g: int|
            0 <= g < nodes["server"@].len() && (#[trigger] nodes["server"@][g]).role_group
                == role_group && nodes["server"@][g].nodes.contains(Some(node_name))),
{
    if nodes.contains_key("server"@) {
        lemma_missing_in(nodes["server"@], role_group, node_name);
    }
}

proof fn lemma_named_env(entries: Seq<(Seq<char>, Seq<char>)>, name: Seq<char>, value: Seq<char>)
    ensures
        named_env(entries).contains(EnvVarView { name, value: Some(value), value_from: None })
            <==> name.len() > 0 && entries.contains((name, value)),
    decreases entries.len(),
{
    let var = EnvVarView { name, value: Some(value), value_from: None };
    if entries.len() > 0 {
        let rest = entries.drop_last();
        let last = entries.len() - 1;
        lemma_named_env(rest, name, value);
        let all = named_env(entries);
        let before = named_env(rest);
        if all.contains(var) {
            let i = choose|i: int| 0 <= i < all.len() && all[i] == var;
            if i < before.len() {
                assert(before[i] == var);
                let k = choose|k: int| 0 <= k < rest.len() && rest[k] == (name, value);
                assert(entries[k] == (name, value));
            } else {
                assert(entries[last] == (name, value));
            }
        }
        if name.len() > 0 && entries.contains((name, value)) {
            let k = choose|k: int| 0 <= k < entries.len() && entries[k] == (name, value);
            if k < last {
                assert(rest[k] == (name, value));
                let i = choose|i: int| 0 <= i < before.len() && before[i] == var;
                assert(all[i] == var);
            } else {
                assert(all[before.len() as int] == var);
            }
        }
    }
}

/// The container is told about every variable that is configured, with its value, but for one without a
/// name.
pub proof fn lemma_container_env(config: ValidatedConfigView, name: Seq<char>, value: Seq<char>)
    requires
        config.env is Some,
        config.env->0.dom().finite(),
    ensures
        container_env(config).contains(EnvVarView { name, value: Some(value), value_from: None })
            <==> name.len() > 0 && config.env->0.contains_pair(name, value),
{
    let env = config.env->0;
    lemma_named_env(listing(env), name, value);
    lemma_listing_is_the_map(env);
    if env.contains_pair(name, value) {
        let i = lemma_listed(env, name);
        assert(listing(env).contains((name, value)));
    }
}

/// A Pod runs OPA from the image of its version, on the node that it is for, with its own ConfigMap. It
/// is started on the configured port, and without a command where none is configured.
pub proof fn lemma_server_pod(
    state: OpaStateView,
    owner: OwnerReferenceView,
    name: Seq<char>,
    node_name: Seq<char>,
    config: ValidatedConfigView,
    labels: Map<Seq<char>, Seq<char>>,
)
    ensures
        ({
            let pod = server_pod(state, owner, name, node_name, config, labels);
            let configured = config.cli is Some && config.cli->0.contains_key("port"@);
            &&& pod.metadata.name == Some(name)
            &&& pod.metadata.namespace == Some(state.default_namespace)
            &&& pod.metadata.labels == Some(labels)
            &&& pod.metadata.owner_references == Some(seq![owner])
            &&& pod.node_name == node_name
            &&& pod.stackable_agent_tolerations
            &&& pod.container.name == "opa"@
            &&& pod.container.image == "opa:0.27.1"@
            &&& !configured ==> pod.container.command.len() == 0
            &&& configured ==> pod.container.command == seq![
                "./opa run"@,
                "-s"@,
                "-a 0.0.0.0:"@ + config.cli->0["port"@],
                "-c {{configroot}}/conf/config.yaml"@,
            ]
            &&& pod.container.config_map_volumes.len() == 1
            &&& pod.container.config_map_volumes[0].name == name + "-config"@
            &&& pod.container.config_map_volumes[0].path == "conf"@
        }),
{
    reveal_strlit("opa:");
    reveal_strlit("0.27.1");
    reveal_strlit("opa:0.27.1");
    assert("opa:"@ + "0.27.1"@ =~= "opa:0.27.1"@);
}

/// The ConfigMap of a Pod belongs to the cluster, in the namespace of the cluster.
pub proof fn lemma_pod_config_map(
    state: OpaStateView,
    owner: OwnerReferenceView,
    name: Seq<char>,
    config: ValidatedConfigView,
)
    ensures
        ({
            let config_map = pod_config_map(state, owner, name, config);
            &&& config_map.metadata.name == Some(name)
            &&& config_map.metadata.namespace == Some(state.default_namespace)
            &&& config_map.metadata.labels is None
            &&& config_map.metadata.owner_references == Some(seq![owner])
            &&& config_map.data == Some(config_map_data(config))
        }),
{
}

/// Pods that are illegal go first. Then terminating Pods are waited for, then starting ones, then
/// excess Pods go, and at last missing ones are created. Only a step that lets it go on is followed by
/// the next.
pub proof fn lemma_order_of_steps(step: ReconcileStep, action: ReconcileFunctionAction)
    ensures
        progress_after(0) == ReconcileProgress::Step(ReconcileStep::DeleteIllegalPods),
        progress_after(1) == ReconcileProgress::Step(ReconcileStep::WaitForTerminatingPods),
        progress_after(2) == ReconcileProgress::Step(ReconcileStep::WaitForRunningAndReadyPods),
        progress_after(3) == ReconcileProgress::Step(ReconcileStep::DeleteExcessPods),
        progress_after(4) == ReconcileProgress::Step(ReconcileStep::CreateMissingPods),
        action != ReconcileFunctionAction::Continue ==> progress(step, action)
            == ReconcileProgress::Finished(action),
        progress(ReconcileStep::CreateMissingPods, action) == ReconcileProgress::Finished(action),
{
    reveal_with_fuel(progress_after, 5);
}

/// The server role is configured by its configuration file and on the command line, and no other role
/// is.
pub proof fn lemma_properties_by_role()
    ensures
        properties_by_role() =~= map![
            "server"@ => seq![
                PropertyNameKindView::File("config.yaml"@),
                PropertyNameKindView::Cli,
            ],
        ],
{
}

} // verus!
