//! Validates a cluster, so that objects can be built from it without further checks.
use crate::checked::{Checked, CheckedView};
use crate::config::{hierarchy, OpaConfigFragment, OpaConfigFragmentView};
use crate::kubernetes::builder::{ResolvedProductImage, ResolvedProductImageView};
use crate::logging::{ContainerLogConfigChoice, ContainerLogConfigChoiceView};
use crate::text_map::{entries_map, listing, StringMap, TextMap};
use crate::v1alpha2::cluster::{
    OpaRoleGroupConfig, OpaRoleGroupConfigView, ValidatedCluster, ValidatedClusterConfig,
    ValidatedClusterConfigView, ValidatedClusterView, ValidatedLogging, ValidatedLoggingView,
    ValidatedOpaConfig, ValidatedOpaConfigView, VectorContainerLogConfig,
    VectorContainerLogConfigView,
};
use crate::v1alpha2::crd::{
    default_config_view, Logging, LoggingView, OpaConfig, OpaRole, OpaRoleConfig, OpaRoleConfigView,
};
use crate::value::Value;
use vstd::prelude::*;

verus! {

/// What is wrong with something that has a name.
#[derive(Clone, Debug, PartialEq, Eq)]
pub struct NamedFailure {
    pub name: String,
    pub source: String,
}

/// The contents of a [`NamedFailure`].
#[verifier::ext_equal]
pub struct NamedFailureView {
    pub name: Seq<char>,
    pub source: Seq<char>,
}

impl DeepView for NamedFailure {
    type V = NamedFailureView;

    open spec fn deep_view(&self) -> NamedFailureView {
        NamedFailureView {
            name: self.name.deep_view(),
            source: self.source.deep_view(),
        }
    }
}

impl Value for NamedFailure {
    fn duplicate(&self) -> (copy: Self) {
        NamedFailure {
            name: self.name.duplicate(),
            source: self.source.duplicate(),
        }
    }

    fn same_as(&self, other: &Self) -> (same: bool) {
        self.name.same_as(&other.name) && self.source.same_as(&other.source)
    }
}

/// Why a cluster is not valid.
#[derive(Clone, Debug, PartialEq, Eq)]
pub enum Error {
    /// The product image could not be resolved.
    ResolveProductImage(String),
    /// The cluster has no valid name.
    GetClusterName(String),
    /// The cluster has no valid namespace.
    GetNamespace(String),
    /// The cluster has no valid UID.
    GetUid(String),
    /// The configuration of a role group could not be merged and validated.
    ValidateRoleGroupConfig(NamedFailure),
    /// The name of an environment variable is not valid.
    ParseEnvVarName(NamedFailure),
    /// The name of a role group is not valid.
    ParseRoleGroupName(NamedFailure),
    /// The logging configuration is not valid.
    ValidateLoggingConfig(String),
    /// The Vector agent is enabled but no Vector aggregator discovery ConfigMap name is set.
    MissingVectorAggregatorConfigMapName,
    /// The Vector aggregator discovery ConfigMap name is not valid.
    ParseVectorAggregatorConfigMapName(String),
}

/// The contents of an [`Error`].
#[verifier::ext_equal]
pub enum ErrorView {
    ResolveProductImage(Seq<char>),
    GetClusterName(Seq<char>),
    GetNamespace(Seq<char>),
    GetUid(Seq<char>),
    ValidateRoleGroupConfig(NamedFailureView),
    ParseEnvVarName(NamedFailureView),
    ParseRoleGroupName(NamedFailureView),
    ValidateLoggingConfig(Seq<char>),
    MissingVectorAggregatorConfigMapName,
    ParseVectorAggregatorConfigMapName(Seq<char>),
}

impl DeepView for Error {
    type V = ErrorView;

    open spec fn deep_view(&self) -> ErrorView {
        match self {
            Error::ResolveProductImage(inner) => ErrorView::ResolveProductImage(inner.deep_view()),
            Error::GetClusterName(inner) => ErrorView::GetClusterName(inner.deep_view()),
            Error::GetNamespace(inner) => ErrorView::GetNamespace(inner.deep_view()),
            Error::GetUid(inner) => ErrorView::GetUid(inner.deep_view()),
            Error::ValidateRoleGroupConfig(inner) => {
                ErrorView::ValidateRoleGroupConfig(inner.deep_view())
            },
            Error::ParseEnvVarName(inner) => ErrorView::ParseEnvVarName(inner.deep_view()),
            Error::ParseRoleGroupName(inner) => ErrorView::ParseRoleGroupName(inner.deep_view()),
            Error::ValidateLoggingConfig(inner) => {
                ErrorView::ValidateLoggingConfig(inner.deep_view())
            },
            Error::MissingVectorAggregatorConfigMapName => ErrorView::MissingVectorAggregatorConfigMapName,
            Error::ParseVectorAggregatorConfigMapName(inner) => {
                ErrorView::ParseVectorAggregatorConfigMapName(inner.deep_view())
            },
        }
    }
}

impl Value for Error {
    fn duplicate(&self) -> (copy: Self) {
        match self {
            Error::ResolveProductImage(inner) => Error::ResolveProductImage(inner.duplicate()),
            Error::GetClusterName(inner) => Error::GetClusterName(inner.duplicate()),
            Error::GetNamespace(inner) => Error::GetNamespace(inner.duplicate()),
            Error::GetUid(inner) => Error::GetUid(inner.duplicate()),
            Error::ValidateRoleGroupConfig(inner) => {
                Error::ValidateRoleGroupConfig(inner.duplicate())
            },
            Error::ParseEnvVarName(inner) => Error::ParseEnvVarName(inner.duplicate()),
            Error::ParseRoleGroupName(inner) => Error::ParseRoleGroupName(inner.duplicate()),
            Error::ValidateLoggingConfig(inner) => Error::ValidateLoggingConfig(inner.duplicate()),
            Error::MissingVectorAggregatorConfigMapName => Error::MissingVectorAggregatorConfigMapName,
            Error::ParseVectorAggregatorConfigMapName(inner) => {
                Error::ParseVectorAggregatorConfigMapName(inner.duplicate())
            },
        }
    }

    fn same_as(&self, other: &Self) -> (same: bool) {
        match (self, other) {
            (Error::ResolveProductImage(left), Error::ResolveProductImage(right)) => {
                left.same_as(right)
            },
            (Error::GetClusterName(left), Error::GetClusterName(right)) => left.same_as(right),
            (Error::GetNamespace(left), Error::GetNamespace(right)) => left.same_as(right),
            (Error::GetUid(left), Error::GetUid(right)) => left.same_as(right),
            (Error::ValidateRoleGroupConfig(left), Error::ValidateRoleGroupConfig(right)) => {
                left.same_as(right)
            },
            (Error::ParseEnvVarName(left), Error::ParseEnvVarName(right)) => left.same_as(right),
            (Error::ParseRoleGroupName(left), Error::ParseRoleGroupName(right)) => {
                left.same_as(right)
            },
            (Error::ValidateLoggingConfig(left), Error::ValidateLoggingConfig(right)) => {
                left.same_as(right)
            },
            (Error::MissingVectorAggregatorConfigMapName, Error::MissingVectorAggregatorConfigMapName) => true,
            (Error::ParseVectorAggregatorConfigMapName(left), Error::ParseVectorAggregatorConfigMapName(right)) => {
                left.same_as(right)
            },
            _ => false,
        }
    }
}

/// The configuration of the servers, for all role groups.
#[derive(Clone, Debug, PartialEq, Eq)]
pub struct RoleInput {
    pub role_config: OpaRoleConfig,
    pub config: OpaConfigFragment,
    pub env_overrides: StringMap,
    pub cli_overrides: StringMap,
}

/// The contents of a [`RoleInput`].
#[verifier::ext_equal]
pub struct RoleInputView {
    pub role_config: OpaRoleConfigView,
    pub config: OpaConfigFragmentView,
    pub env_overrides: Map<Seq<char>, Seq<char>>,
    pub cli_overrides: Map<Seq<char>, Seq<char>>,
}

impl DeepView for RoleInput {
    type V = RoleInputView;

    open spec fn deep_view(&self) -> RoleInputView {
        RoleInputView {
            role_config: self.role_config.deep_view(),
            config: self.config.deep_view(),
            env_overrides: self.env_overrides.deep_view(),
            cli_overrides: self.cli_overrides.deep_view(),
        }
    }
}

impl Value for RoleInput {
    fn duplicate(&self) -> (copy: Self) {
        RoleInput {
            role_config: self.role_config.duplicate(),
            config: self.config.duplicate(),
            env_overrides: self.env_overrides.duplicate(),
            cli_overrides: self.cli_overrides.duplicate(),
        }
    }

    fn same_as(&self, other: &Self) -> (same: bool) {
        self.role_config.same_as(&other.role_config)
            && self.config.same_as(&other.config)
            && self.env_overrides.same_as(&other.env_overrides)
            && self.cli_overrides.same_as(&other.cli_overrides)
    }
}

/// A role group, and what the platform found when it checked it.
#[derive(Clone, Debug, PartialEq, Eq)]
pub struct RoleGroupInput {
    pub replicas: Option<u16>,
    pub config: OpaConfigFragment,
    pub env_overrides: StringMap,
    pub cli_overrides: StringMap,
    /// The logging configuration that the layers merge to.
    pub logging: Checked<Logging>,
    /// The validated logging of the Vector container.
    pub vector_log_config: Checked<ContainerLogConfigChoice>,
    /// What is wrong with the name of the role group, if anything.
    pub name_error: Option<String>,
}

/// The contents of a [`RoleGroupInput`].
#[verifier::ext_equal]
pub struct RoleGroupInputView {
    pub replicas: Option<u16>,
    pub config: OpaConfigFragmentView,
    pub env_overrides: Map<Seq<char>, Seq<char>>,
    pub cli_overrides: Map<Seq<char>, Seq<char>>,
    pub logging: CheckedView<LoggingView>,
    pub vector_log_config: CheckedView<ContainerLogConfigChoiceView>,
    pub name_error: Option<Seq<char>>,
}

impl DeepView for RoleGroupInput {
    type V = RoleGroupInputView;

    open spec fn deep_view(&self) -> RoleGroupInputView {
        RoleGroupInputView {
            replicas: self.replicas.deep_view(),
            config: self.config.deep_view(),
            env_overrides: self.env_overrides.deep_view(),
            cli_overrides: self.cli_overrides.deep_view(),
            logging: self.logging.deep_view(),
            vector_log_config: self.vector_log_config.deep_view(),
            name_error: self.name_error.deep_view(),
        }
    }
}

impl Value for RoleGroupInput {
    fn duplicate(&self) -> (copy: Self) {
        RoleGroupInput {
            replicas: self.replicas.duplicate(),
            config: self.config.duplicate(),
            env_overrides: self.env_overrides.duplicate(),
            cli_overrides: self.cli_overrides.duplicate(),
            logging: self.logging.duplicate(),
            vector_log_config: self.vector_log_config.duplicate(),
            name_error: self.name_error.duplicate(),
        }
    }

    fn same_as(&self, other: &Self) -> (same: bool) {
        self.replicas.same_as(&other.replicas)
            && self.config.same_as(&other.config)
            && self.env_overrides.same_as(&other.env_overrides)
            && self.cli_overrides.same_as(&other.cli_overrides)
            && self.logging.same_as(&other.logging)
            && self.vector_log_config.same_as(&other.vector_log_config)
            && self.name_error.same_as(&other.name_error)
    }
}

/// A cluster, and what the platform found when it checked it.
#[derive(Clone, Debug, PartialEq, Eq)]
pub struct ClusterInput {
    pub name: Checked<String>,
    pub namespace: Checked<String>,
    pub uid: Checked<String>,
    pub image: Checked<ResolvedProductImage>,
    pub vector_aggregator_config_map_name: Option<Checked<String>>,
    pub cluster_config: ValidatedClusterConfig,
    pub role: RoleInput,
    pub role_groups: TextMap<RoleGroupInput>,
    /// What is wrong with the names of environment variables, by the name.
    pub env_var_name_errors: StringMap,
}

/// The contents of a [`ClusterInput`].
#[verifier::ext_equal]
pub struct ClusterInputView {
    pub name: CheckedView<Seq<char>>,
    pub namespace: CheckedView<Seq<char>>,
    pub uid: CheckedView<Seq<char>>,
    pub image: CheckedView<ResolvedProductImageView>,
    pub vector_aggregator_config_map_name: Option<CheckedView<Seq<char>>>,
    pub cluster_config: ValidatedClusterConfigView,
    pub role: RoleInputView,
    pub role_groups: Map<Seq<char>, RoleGroupInputView>,
    pub env_var_name_errors: Map<Seq<char>, Seq<char>>,
}

impl DeepView for ClusterInput {
    type V = ClusterInputView;

    open spec fn deep_view(&self) -> ClusterInputView {
        ClusterInputView {
            name: self.name.deep_view(),
            namespace: self.namespace.deep_view(),
            uid: self.uid.deep_view(),
            image: self.image.deep_view(),
            vector_aggregator_config_map_name: self.vector_aggregator_config_map_name.deep_view(),
            cluster_config: self.cluster_config.deep_view(),
            role: self.role.deep_view(),
            role_groups: self.role_groups.deep_view(),
            env_var_name_errors: self.env_var_name_errors.deep_view(),
        }
    }
}

impl Value for ClusterInput {
    fn duplicate(&self) -> (copy: Self) {
        ClusterInput {
            name: self.name.duplicate(),
            namespace: self.namespace.duplicate(),
            uid: self.uid.duplicate(),
            image: self.image.duplicate(),
            vector_aggregator_config_map_name: self.vector_aggregator_config_map_name.duplicate(),
            cluster_config: self.cluster_config.duplicate(),
            role: self.role.duplicate(),
            role_groups: self.role_groups.duplicate(),
            env_var_name_errors: self.env_var_name_errors.duplicate(),
        }
    }

    fn same_as(&self, other: &Self) -> (same: bool) {
        self.name.same_as(&other.name)
            && self.namespace.same_as(&other.namespace)
            && self.uid.same_as(&other.uid)
            && self.image.same_as(&other.image)
            && self.vector_aggregator_config_map_name.same_as(&other.vector_aggregator_config_map_name)
            && self.cluster_config.same_as(&other.cluster_config)
            && self.role.same_as(&other.role)
            && self.role_groups.same_as(&other.role_groups)
            && self.env_var_name_errors.same_as(&other.env_var_name_errors)
    }
}

/// The validated logging of a role group.
///
/// The name of the aggregator's ConfigMap, and the logging of the Vector container itself, matter
/// only where the Vector agent is enabled.
pub open spec fn logging_validated(
    logging: LoggingView,
    vector_aggregator_config_map_name: Option<Seq<char>>,
    vector_log_config: CheckedView<ContainerLogConfigChoiceView>,
) -> Result<ValidatedLoggingView, ErrorView> {
    if !logging.enable_vector_agent {
        Ok(
            ValidatedLoggingView {
                vector_container: None,
                enable_vector_agent: false,
                containers: logging.containers,
            },
        )
    } else {
        match (vector_aggregator_config_map_name, vector_log_config) {
            (None, _) => Err(ErrorView::MissingVectorAggregatorConfigMapName),
            (Some(_), CheckedView::Invalid(error)) => Err(ErrorView::ValidateLoggingConfig(error)),
            (Some(name), CheckedView::Valid(log_config)) => Ok(
                ValidatedLoggingView {
                    vector_container: Some(
                        VectorContainerLogConfigView {
                            log_config,
                            vector_aggregator_config_map_name: name,
                        },
                    ),
                    enable_vector_agent: true,
                    containers: logging.containers,
                },
            ),
        }
    }
}

/// Validates the logging of a role group.
pub fn validate_logging(
    logging: &Logging,
    vector_aggregator_config_map_name: &Option<String>,
    vector_log_config: &Checked<ContainerLogConfigChoice>,
) -> (result: Result<ValidatedLogging, Error>)
    ensures
        match logging_validated(
            logging.deep_view(),
            vector_aggregator_config_map_name.deep_view(),
            vector_log_config.deep_view(),
        ) {
            Ok(expected) => result matches Ok(validated) && validated.deep_view() == expected,
            Err(expected) => result matches Err(error) && error.deep_view() == expected,
        },
{
    let vector_container = if logging.enable_vector_agent {
        let name = match vector_aggregator_config_map_name {
            Some(name) => name.clone(),
            None => return Err(Error::MissingVectorAggregatorConfigMapName),
        };
        let log_config = match vector_log_config {
            Checked::Valid(log_config) => log_config.duplicate(),
            Checked::Invalid(error) => return Err(Error::ValidateLoggingConfig(error.clone())),
        };
        Some(VectorContainerLogConfig { log_config, vector_aggregator_config_map_name: name })
    } else {
        None
    };
    Ok(
        ValidatedLogging {
            vector_container,
            enable_vector_agent: logging.enable_vector_agent,
            containers: logging.containers.duplicate(),
        },
    )
}

/// Overrides of a role group on top of those of its role.
pub fn merge_overrides(role: &StringMap, role_group: &StringMap) -> (merged: StringMap)
    ensures
        merged@ == role@.union_prefer_right(role_group@),
{
    let entries = role_group.entries();
    let ghost listed = entries.deep_view();
    let mut merged = role.duplicate();
    let mut i: usize = 0;
    assert(merged@ =~= role@.union_prefer_right(entries_map(listed.take(0))));
    while i < entries.len()
        invariant
            i <= entries.len(),
            listed == entries.deep_view(),
            merged@ == role@.union_prefer_right(entries_map(listed.take(i as int))),
        decreases entries.len() - i,
    {
        merged.insert(entries[i].0.clone(), entries[i].1.clone());
        i += 1;
        proof {
            assert(listed.take(i as int).drop_last() =~= listed.take(i - 1));
            assert(listed.take(i as int).last() == listed[i - 1]);
            assert(listed[i - 1] == entries[i - 1].deep_view());
            assert(merged@ =~= role@.union_prefer_right(entries_map(listed.take(i as int))));
        }
    }
    assert(listed.take(i as int) =~= listed);
    merged
}

/// The first environment variable whose name is not valid, with what is wrong with it.
pub open spec fn first_invalid(
    entries: Seq<(Seq<char>, Seq<char>)>,
    errors: Map<Seq<char>, Seq<char>>,
) -> Option<NamedFailureView>
    decreases entries.len(),
{
    if entries.len() == 0 {
        None
    } else if first_invalid(entries.drop_last(), errors) is Some {
        first_invalid(entries.drop_last(), errors)
    } else if errors.contains_key(entries.last().0) {
        Some(NamedFailureView { name: entries.last().0, source: errors[entries.last().0] })
    } else {
        None
    }
}

fn find_invalid(env: &StringMap, errors: &StringMap) -> (failure: Option<NamedFailure>)
    ensures
        failure.deep_view() == first_invalid(listing(env@), errors@),
{
    let entries = env.entries();
    let ghost listed = listing(env@);
    let mut i: usize = 0;
    while i < entries.len()
        invariant
            i <= entries.len(),
            listed == entries.deep_view(),
            listed == listing(env@),
            first_invalid(listed.take(i as int), errors@) is None,
        decreases entries.len() - i,
    {
        proof {
            assert(listed.take(i + 1).drop_last() =~= listed.take(i as int));
            assert(listed[i as int] == entries[i as int].deep_view());
        }
        if let Some(source) = errors.get(entries[i].0.as_str()) {
            proof {
                lemma_first_invalid(listed, errors@, i + 1);
            }
            return Some(NamedFailure { name: entries[i].0.clone(), source: source.clone() });
        }
        i += 1;
    }
    assert(listed.take(i as int) =~= listed);
    None
}

proof fn lemma_first_invalid(
    entries: Seq<(Seq<char>, Seq<char>)>,
    errors: Map<Seq<char>, Seq<char>>,
    n: int,
)
    requires
        0 <= n <= entries.len(),
        first_invalid(entries.take(n), errors) is Some,
    ensures
        first_invalid(entries, errors) == first_invalid(entries.take(n), errors),
    decreases entries.len(),
{
    if n == entries.len() {
        assert(entries.take(n) =~= entries);
    } else {
        assert(entries.drop_last().take(n) =~= entries.take(n));
        lemma_first_invalid(entries.drop_last(), errors, n);
    }
}

/// The validated role group: role group over role over defaults, in every setting and override.
pub open spec fn role_group_validated(
    cluster_name: Seq<char>,
    role: RoleInputView,
    vector_aggregator_config_map_name: Option<Seq<char>>,
    env_var_name_errors: Map<Seq<char>, Seq<char>>,
    name: Seq<char>,
    group: RoleGroupInputView,
) -> Result<OpaRoleGroupConfigView, ErrorView> {
    let env_overrides = role.env_overrides.union_prefer_right(group.env_overrides);
    let config = hierarchy(
        group.config,
        role.config,
        default_config_view(cluster_name, OpaRole::Server),
    );
    match group.logging {
        CheckedView::Invalid(source) => Err(
            ErrorView::ValidateRoleGroupConfig(NamedFailureView { name, source }),
        ),
        CheckedView::Valid(logging) => match first_invalid(
            listing(env_overrides),
            env_var_name_errors,
        ) {
            Some(failure) => Err(ErrorView::ParseEnvVarName(failure)),
            None => match logging_validated(
                logging,
                vector_aggregator_config_map_name,
                group.vector_log_config,
            ) {
                Err(error) => Err(error),
                Ok(logging) => match group.name_error {
                    Some(source) => Err(
                        ErrorView::ParseRoleGroupName(NamedFailureView { name, source }),
                    ),
                    None => Ok(
                        OpaRoleGroupConfigView {
                            replicas: group.replicas,
                            config: ValidatedOpaConfigView {
                                resources: config.resources,
                                logging,
                                affinity: config.affinity,
                                graceful_shutdown_timeout: config.graceful_shutdown_timeout,
                            },
                            env_overrides,
                            cli_overrides: role.cli_overrides.union_prefer_right(
                                group.cli_overrides,
                            ),
                        },
                    ),
                },
            },
        },
    }
}

fn validate_role_group(
    cluster_name: &str,
    role: &RoleInput,
    vector_aggregator_config_map_name: &Option<String>,
    env_var_name_errors: &StringMap,
    name: &str,
    group: &RoleGroupInput,
) -> (result: Result<OpaRoleGroupConfig, Error>)
    ensures
        match role_group_validated(
            cluster_name@,
            role.deep_view(),
            vector_aggregator_config_map_name.deep_view(),
            env_var_name_errors@,
            name@,
            group.deep_view(),
        ) {
            Ok(expected) => result matches Ok(config) && config.deep_view() == expected,
            Err(expected) => result matches Err(error) && error.deep_view() == expected,
        },
{
    let logging = match &group.logging {
        Checked::Valid(logging) => logging,
        Checked::Invalid(source) => return Err(
            Error::ValidateRoleGroupConfig(
                NamedFailure { name: name.to_owned(), source: source.clone() },
            ),
        ),
    };
    let defaults = OpaConfig::default_config(cluster_name, &OpaRole::Server);
    let merged = group.config.on_top_of(&role.config.on_top_of(&defaults));
    let env_overrides = merge_overrides(&role.env_overrides, &group.env_overrides);
    if let Some(failure) = find_invalid(&env_overrides, env_var_name_errors) {
        return Err(Error::ParseEnvVarName(failure));
    }
    let validated_logging = match validate_logging(
        logging,
        vector_aggregator_config_map_name,
        &group.vector_log_config,
    ) {
        Ok(logging) => logging,
        Err(error) => return Err(error),
    };
    if let Some(source) = &group.name_error {
        return Err(
            Error::ParseRoleGroupName(
                NamedFailure { name: name.to_owned(), source: source.clone() },
            ),
        );
    }
    let config = OpaConfig {
        resources: merged.resources,
        logging: logging.duplicate(),
        affinity: merged.affinity,
        graceful_shutdown_timeout: merged.graceful_shutdown_timeout,
    };
    Ok(
        OpaRoleGroupConfig {
            replicas: group.replicas,
            config: ValidatedOpaConfig::from_merged(config, validated_logging),
            env_overrides,
            cli_overrides: merge_overrides(&role.cli_overrides, &group.cli_overrides),
        },
    )
}

/// The validated role groups, or what is wrong with the first one that is not valid.
pub open spec fn role_groups_validated(
    cluster_name: Seq<char>,
    role: RoleInputView,
    vector_aggregator_config_map_name: Option<Seq<char>>,
    env_var_name_errors: Map<Seq<char>, Seq<char>>,
    groups: Seq<(Seq<char>, RoleGroupInputView)>,
) -> Result<Map<Seq<char>, OpaRoleGroupConfigView>, ErrorView>
    decreases groups.len(),
{
    if groups.len() == 0 {
        Ok(Map::empty())
    } else {
        match role_groups_validated(
            cluster_name,
            role,
            vector_aggregator_config_map_name,
            env_var_name_errors,
            groups.drop_last(),
        ) {
            Err(error) => Err(error),
            Ok(validated) => match role_group_validated(
                cluster_name,
                role,
                vector_aggregator_config_map_name,
                env_var_name_errors,
                groups.last().0,
                groups.last().1,
            ) {
                Err(error) => Err(error),
                Ok(config) => Ok(validated.insert(groups.last().0, config)),
            },
        }
    }
}

proof fn lemma_role_groups_fail(
    cluster_name: Seq<char>,
    role: RoleInputView,
    aggregator: Option<Seq<char>>,
    errors: Map<Seq<char>, Seq<char>>,
    groups: Seq<(Seq<char>, RoleGroupInputView)>,
    n: int,
)
    requires
        0 <= n <= groups.len(),
        role_groups_validated(cluster_name, role, aggregator, errors, groups.take(n)) is Err,
    ensures
        role_groups_validated(cluster_name, role, aggregator, errors, groups)
            == role_groups_validated(cluster_name, role, aggregator, errors, groups.take(n)),
    decreases groups.len(),
{
    if n == groups.len() {
        assert(groups.take(n) =~= groups);
    } else {
        assert(groups.drop_last().take(n) =~= groups.take(n));
        lemma_role_groups_fail(cluster_name, role, aggregator, errors, groups.drop_last(), n);
    }
}

fn validate_role_groups(
    cluster_name: &str,
    role: &RoleInput,
    vector_aggregator_config_map_name: &Option<String>,
    env_var_name_errors: &StringMap,
    groups: &TextMap<RoleGroupInput>,
) -> (result: Result<TextMap<OpaRoleGroupConfig>, Error>)
    ensures
        match role_groups_validated(
            cluster_name@,
            role.deep_view(),
            vector_aggregator_config_map_name.deep_view(),
            env_var_name_errors@,
            listing(groups@),
        ) {
            Ok(expected) => result matches Ok(validated) && validated@ == expected,
            Err(expected) => result matches Err(error) && error.deep_view() == expected,
        },
{
    let entries = groups.entries();
    let ghost listed = listing(groups@);
    let ghost aggregator = vector_aggregator_config_map_name.deep_view();
    let mut validated: TextMap<OpaRoleGroupConfig> = TextMap::new();
    let mut i: usize = 0;
    while i < entries.len()
        invariant
            i <= entries.len(),
            listed == entries.deep_view(),
            listed == listing(groups@),
            aggregator == vector_aggregator_config_map_name.deep_view(),
            role_groups_validated(
                cluster_name@,
                role.deep_view(),
                aggregator,
                env_var_name_errors@,
                listed.take(i as int),
            ) == Ok::<_, ErrorView>(validated@),
        decreases entries.len() - i,
    {
        proof {
            assert(listed.take(i + 1).drop_last() =~= listed.take(i as int));
            assert(listed[i as int] == entries[i as int].deep_view());
        }
        match validate_role_group(
            cluster_name,
            role,
            vector_aggregator_config_map_name,
            env_var_name_errors,
            entries[i].0.as_str(),
            &entries[i].1,
        ) {
            Ok(config) => {
                validated.insert(entries[i].0.clone(), config);
            },
            Err(error) => {
                proof {
                    lemma_role_groups_fail(
                        cluster_name@,
                        role.deep_view(),
                        aggregator,
                        env_var_name_errors@,
                        listed,
                        i + 1,
                    );
                }
                return Err(error);
            },
        }
        i += 1;
    }
    assert(listed.take(i as int) =~= listed);
    Ok(validated)
}

/// The name of the Vector aggregator's ConfigMap, where one is given and valid.
pub open spec fn aggregator_name(name: Option<CheckedView<Seq<char>>>) -> Result<
    Option<Seq<char>>,
    ErrorView,
> {
    match name {
        None => Ok(None),
        Some(CheckedView::Valid(name)) => Ok(Some(name)),
        Some(CheckedView::Invalid(error)) => Err(
            ErrorView::ParseVectorAggregatorConfigMapName(error),
        ),
    }
}

/// The validated cluster, or the first thing that is wrong with it.
pub open spec fn cluster_validated(input: ClusterInputView) -> Result<
    ValidatedClusterView,
    ErrorView,
> {
    match (input.name, input.namespace, input.uid, input.image) {
        (CheckedView::Invalid(error), _, _, _) => Err(ErrorView::GetClusterName(error)),
        (_, CheckedView::Invalid(error), _, _) => Err(ErrorView::GetNamespace(error)),
        (_, _, CheckedView::Invalid(error), _) => Err(ErrorView::GetUid(error)),
        (_, _, _, CheckedView::Invalid(error)) => Err(ErrorView::ResolveProductImage(error)),
        (
            CheckedView::Valid(name),
            CheckedView::Valid(namespace),
            CheckedView::Valid(uid),
            CheckedView::Valid(image),
        ) => match aggregator_name(input.vector_aggregator_config_map_name) {
            Err(error) => Err(error),
            Ok(aggregator) => match role_groups_validated(
                name,
                input.role,
                aggregator,
                input.env_var_name_errors,
                listing(input.role_groups),
            ) {
                Err(error) => Err(error),
                Ok(server_role_groups) => Ok(
                    ValidatedClusterView {
                        name,
                        namespace,
                        uid,
                        product_version: image.app_version_label_value,
                        image,
                        cluster_config: input.cluster_config,
                        server_role_config: input.role.role_config,
                        server_role_groups,
                    },
                ),
            },
        },
    }
}

/// Validates a cluster.
pub fn validate(input: &ClusterInput) -> (result: Result<ValidatedCluster, Error>)
    ensures
        match cluster_validated(input.deep_view()) {
            Ok(expected) => result matches Ok(cluster) && cluster.deep_view() == expected,
            Err(expected) => result matches Err(error) && error.deep_view() == expected,
        },
{
    let name = match &input.name {
        Checked::Valid(name) => name,
        Checked::Invalid(error) => return Err(Error::GetClusterName(error.clone())),
    };
    let namespace = match &input.namespace {
        Checked::Valid(namespace) => namespace,
        Checked::Invalid(error) => return Err(Error::GetNamespace(error.clone())),
    };
    let uid = match &input.uid {
        Checked::Valid(uid) => uid,
        Checked::Invalid(error) => return Err(Error::GetUid(error.clone())),
    };
    let image = match &input.image {
        Checked::Valid(image) => image,
        Checked::Invalid(error) => return Err(Error::ResolveProductImage(error.clone())),
    };
    let aggregator = match &input.vector_aggregator_config_map_name {
        None => None,
        Some(Checked::Valid(name)) => Some(name.clone()),
        Some(Checked::Invalid(error)) => return Err(
            Error::ParseVectorAggregatorConfigMapName(error.clone()),
        ),
    };
    let server_role_groups = match validate_role_groups(
        name.as_str(),
        &input.role,
        &aggregator,
        &input.env_var_name_errors,
        &input.role_groups,
    ) {
        Ok(groups) => groups,
        Err(error) => return Err(error),
    };
    Ok(
        ValidatedCluster::new(
            name.clone(),
            namespace.clone(),
            uid.clone(),
            image.duplicate(),
            input.cluster_config.duplicate(),
            input.role.role_config.duplicate(),
            server_role_groups,
        ),
    )
}

} // verus!
