//! What holds of a validated cluster.
use crate::duration::Duration;
use crate::labels::lemma_label_keys_differ;
use crate::text::{before, lemma_before_irreflexive};
use crate::text_map::{
    ascending, lemma_listed, lemma_listing_is_the_map, lemma_listing_of_finite_map, listing,
};
use crate::v1alpha2::affinity::affinity;
use crate::v1alpha2::cluster::OpaRoleGroupConfigView;
use crate::v1alpha2::crd::OpaRole;
use crate::v1alpha2::validate::{
    aggregator_name, cluster_validated, first_invalid, role_group_validated, role_groups_validated,
    ClusterInputView, ErrorView, NamedFailureView, RoleGroupInputView, RoleInputView,
};
use vstd::prelude::*;

verus! {

proof fn lemma_group_validated(
    cluster_name: Seq<char>,
    role: RoleInputView,
    aggregator: Option<Seq<char>>,
    errors: Map<Seq<char>, Seq<char>>,
    groups: Seq<(Seq<char>, RoleGroupInputView)>,
    i: int,
)
    requires
        ascending(groups),
        role_groups_validated(cluster_name, role, aggregator, errors, groups) is Ok,
        0 <= i < groups.len(),
    ensures
        ({
            let validated = role_groups_validated(cluster_name, role, aggregator, errors, groups)->Ok_0;
            &&& validated.contains_key(groups[i].0)
            &&& role_group_validated(
                cluster_name,
                role,
                aggregator,
                errors,
                groups[i].0,
                groups[i].1,
            ) == Ok::<_, ErrorView>(validated[groups[i].0])
        }),
    decreases groups.len(),
{
    if i < groups.len() - 1 {
        let rest = groups.drop_last();
        assert forall|a: int, b: int| 0 <= a < b < rest.len() implies before(
            #[trigger] rest[a].0,
            #[trigger] rest[b].0,
        ) by {
            assert(before(groups[a].0, groups[b].0));
        }
        lemma_group_validated(cluster_name, role, aggregator, errors, rest, i);
        assert(rest[i] == groups[i]);
        assert(before(groups[i].0, groups[groups.len() - 1].0));
        lemma_before_irreflexive(groups[i].0);
    }
}

/// By default the Pods of a role are spread over the nodes, with a weight of 70 and no strict rule.
pub proof fn lemma_default_affinity(cluster_name: Seq<char>)
    ensures
        ({
            let affinity = affinity(cluster_name, OpaRole::Server);
            let anti_affinity = affinity.pod_anti_affinity->0;
            let terms = anti_affinity.preferred_during_scheduling_ignored_during_execution->0;
            let selector = terms[0].pod_affinity_term.label_selector->0;
            let labels = selector.match_labels->0;
            &&& affinity.pod_affinity is None
            &&& affinity.node_affinity is None
            &&& affinity.node_selector is None
            &&& affinity.pod_anti_affinity is Some
            &&& anti_affinity.required_during_scheduling_ignored_during_execution is None
            &&& anti_affinity.preferred_during_scheduling_ignored_during_execution is Some
            &&& terms.len() == 1
            &&& terms[0].weight == 70
            &&& terms[0].pod_affinity_term.topology_key == "kubernetes.io/hostname"@
            &&& terms[0].pod_affinity_term.further_fields is None
            &&& terms[0].pod_affinity_term.label_selector is Some
            &&& selector.match_expressions is None
            &&& selector.match_labels is Some
            &&& labels.dom() == set![
                "app.kubernetes.io/name"@,
                "app.kubernetes.io/instance"@,
                "app.kubernetes.io/component"@,
            ]
            &&& labels["app.kubernetes.io/name"@] == "opa"@
            &&& labels["app.kubernetes.io/instance"@] == cluster_name
            &&& labels["app.kubernetes.io/component"@] == "server"@
        }),
{
    lemma_label_keys_differ();
}

/// A validated role group is made from its own input and that of its role, setting by setting: what the
/// role group sets, else what the role sets, else the default.
pub open spec fn made_from(
    validated: OpaRoleGroupConfigView,
    cluster_name: Seq<char>,
    role: RoleInputView,
    group: RoleGroupInputView,
) -> bool {
    let resources = validated.config.resources;
    let chosen = validated.config.affinity;
    &&& validated.replicas == group.replicas
    &&& resources.cpu.min == if group.config.resources.cpu.min is Some {
        group.config.resources.cpu.min
    } else if role.config.resources.cpu.min is Some {
        role.config.resources.cpu.min
    } else {
        Some("250m"@)
    }
    &&& resources.cpu.max == if group.config.resources.cpu.max is Some {
        group.config.resources.cpu.max
    } else if role.config.resources.cpu.max is Some {
        role.config.resources.cpu.max
    } else {
        Some("500m"@)
    }
    &&& resources.memory.limit == if group.config.resources.memory.limit is Some {
        group.config.resources.memory.limit
    } else if role.config.resources.memory.limit is Some {
        role.config.resources.memory.limit
    } else {
        Some("256Mi"@)
    }
    &&& chosen.pod_affinity == if group.config.affinity.pod_affinity is Some {
        group.config.affinity.pod_affinity
    } else {
        role.config.affinity.pod_affinity
    }
    &&& chosen.pod_anti_affinity == if group.config.affinity.pod_anti_affinity is Some {
        group.config.affinity.pod_anti_affinity
    } else if role.config.affinity.pod_anti_affinity is Some {
        role.config.affinity.pod_anti_affinity
    } else {
        affinity(cluster_name, OpaRole::Server).pod_anti_affinity
    }
    &&& chosen.node_affinity == if group.config.affinity.node_affinity is Some {
        group.config.affinity.node_affinity
    } else {
        role.config.affinity.node_affinity
    }
    &&& chosen.node_selector == if group.config.affinity.node_selector is Some {
        group.config.affinity.node_selector
    } else {
        role.config.affinity.node_selector
    }
    &&& validated.config.graceful_shutdown_timeout
        == if group.config.graceful_shutdown_timeout is Some {
        group.config.graceful_shutdown_timeout
    } else if role.config.graceful_shutdown_timeout is Some {
        role.config.graceful_shutdown_timeout
    } else {
        Some(Duration { secs: 120, nanos: 0 })
    }
}

/// Whether overrides are those of the role and the role group together, where the role group wins.
pub open spec fn overrides_joined(
    overrides: Map<Seq<char>, Seq<char>>,
    role: Map<Seq<char>, Seq<char>>,
    group: Map<Seq<char>, Seq<char>>,
) -> bool {
    &&& forall|key: Seq<char>| #[trigger]
        overrides.contains_key(key) <==> role.contains_key(key) || group.contains_key(key)
    &&& forall|key: Seq<char>| #[trigger]
        group.contains_key(key) ==> overrides[key] == group[key]
    &&& forall|key: Seq<char>| #[trigger]
        role.contains_key(key) && !group.contains_key(key) ==> overrides[key] == role[key]
}

proof fn lemma_overrides_joined(
    role: Map<Seq<char>, Seq<char>>,
    group: Map<Seq<char>, Seq<char>>,
)
    ensures
        overrides_joined(role.union_prefer_right(group), role, group),
{
}

/// Each validated role group is the one of that name in the input. Its settings and overrides are its
/// own where it has any, then those of the role, then the defaults; its logging is its own.
#[verifier::rlimit(40)]
pub proof fn lemma_validated_settings(input: ClusterInputView, name: Seq<char>)
    requires
        cluster_validated(input) is Ok,
        input.role_groups.dom().finite(),
        input.role_groups.contains_key(name),
    ensures
        ({
            let cluster = cluster_validated(input)->Ok_0;
            let validated = cluster.server_role_groups[name];
            let group = input.role_groups[name];
            let logging = group.logging->Valid_0;
            let vector = validated.config.logging.vector_container;
            &&& cluster.server_role_groups.contains_key(name)
            &&& made_from(validated, cluster.name, input.role, group)
            &&& overrides_joined(
                validated.env_overrides,
                input.role.env_overrides,
                group.env_overrides,
            )
            &&& overrides_joined(
                validated.cli_overrides,
                input.role.cli_overrides,
                group.cli_overrides,
            )
            &&& group.logging is Valid
            &&& validated.config.logging.containers == logging.containers
            &&& validated.config.logging.enable_vector_agent == logging.enable_vector_agent
            &&& vector is Some <==> logging.enable_vector_agent
            &&& vector is Some ==> group.vector_log_config is Valid && vector->0.log_config
                == group.vector_log_config->Valid_0
                && input.vector_aggregator_config_map_name is Some
                && vector->0.vector_aggregator_config_map_name
                == input.vector_aggregator_config_map_name->0->Valid_0
        }),
{
    let cluster = cluster_validated(input)->Ok_0;
    let i = lemma_listed(input.role_groups, name);
    lemma_listing_of_finite_map(input.role_groups);
    lemma_group_validated(
        cluster.name,
        input.role,
        aggregator_name(input.vector_aggregator_config_map_name)->Ok_0,
        input.env_var_name_errors,
        listing(input.role_groups),
        i,
    );
    let group = input.role_groups[name];
    lemma_overrides_joined(input.role.env_overrides, group.env_overrides);
    lemma_overrides_joined(input.role.cli_overrides, group.cli_overrides);
}

/// A validated cluster is the one that was given: its name, namespace, UID and image were valid, its
/// objects are labelled with the version of that image, and its configuration is unchanged.
pub proof fn lemma_validated_cluster(input: ClusterInputView)
    ensures
        cluster_validated(input) matches Ok(cluster) ==> {
            &&& input.name is Valid
            &&& cluster.name == input.name->Valid_0
            &&& input.namespace is Valid
            &&& cluster.namespace == input.namespace->Valid_0
            &&& input.uid is Valid
            &&& cluster.uid == input.uid->Valid_0
            &&& input.image is Valid
            &&& cluster.image == input.image->Valid_0
            &&& cluster.product_version == input.image->Valid_0.app_version_label_value
            &&& cluster.cluster_config == input.cluster_config
            &&& cluster.server_role_config == input.role.role_config
        },
{
}

/// What is wrong with a cluster as a whole is reported before anything that is wrong with a role group:
/// its name first, then its namespace, its UID, its image and the name of the aggregator ConfigMap.
pub proof fn lemma_cluster_refused(input: ClusterInputView)
    ensures
        ({
            let result = cluster_validated(input);
            let aggregator = input.vector_aggregator_config_map_name;
            if input.name is Invalid {
                result matches Err(ErrorView::GetClusterName(error)) && error
                    == input.name->Invalid_0
            } else if input.namespace is Invalid {
                result matches Err(ErrorView::GetNamespace(error)) && error
                    == input.namespace->Invalid_0
            } else if input.uid is Invalid {
                result matches Err(ErrorView::GetUid(error)) && error == input.uid->Invalid_0
            } else if input.image is Invalid {
                result matches Err(ErrorView::ResolveProductImage(error)) && error
                    == input.image->Invalid_0
            } else if aggregator is Some && aggregator->0 is Invalid {
                result matches Err(ErrorView::ParseVectorAggregatorConfigMapName(error)) && error
                    == aggregator->0->Invalid_0
            } else {
                result matches Err(error) ==> !(error is GetClusterName || error is GetNamespace
                    || error is GetUid || error is ResolveProductImage
                    || error is ParseVectorAggregatorConfigMapName)
            }
        }),
{
    if input.name is Valid {
        lemma_group_errors(
            input.name->Valid_0,
            input.role,
            match input.vector_aggregator_config_map_name {
                Some(name) => Some(name->Valid_0),
                None => None,
            },
            input.env_var_name_errors,
            listing(input.role_groups),
        );
    }
}

proof fn lemma_group_errors(
    cluster_name: Seq<char>,
    role: RoleInputView,
    aggregator: Option<Seq<char>>,
    errors: Map<Seq<char>, Seq<char>>,
    groups: Seq<(Seq<char>, RoleGroupInputView)>,
)
    ensures
        role_groups_validated(cluster_name, role, aggregator, errors, groups) matches Err(error)
            ==> {
            &&& !(error is GetClusterName || error is GetNamespace || error is GetUid || error
                is ResolveProductImage || error is ParseVectorAggregatorConfigMapName)
            &&& exists|i: int|
                0 <= i < groups.len() && role_group_validated(
                    cluster_name,
                    role,
                    aggregator,
                    errors,
                    (#[trigger] groups[i]).0,
                    groups[i].1,
                ) == Err::<OpaRoleGroupConfigView, _>(error)
        },
    decreases groups.len(),
{
    if groups.len() > 0 {
        let rest = groups.drop_last();
        lemma_group_errors(cluster_name, role, aggregator, errors, rest);
        if let Err(error) = role_groups_validated(cluster_name, role, aggregator, errors, rest) {
            let i = choose|i: int|
                0 <= i < rest.len() && role_group_validated(
                    cluster_name,
                    role,
                    aggregator,
                    errors,
                    (#[trigger] rest[i]).0,
                    rest[i].1,
                ) == Err::<OpaRoleGroupConfigView, _>(error);
            assert(groups[i] == rest[i]);
        } else {
            assert(groups[groups.len() - 1] == groups.last());
        }
    }
}

proof fn lemma_first_invalid_entry(
    entries: Seq<(Seq<char>, Seq<char>)>,
    errors: Map<Seq<char>, Seq<char>>,
)
    ensures
        match first_invalid(entries, errors) {
            Some(failure) => exists|i: int|
                0 <= i < entries.len() && (#[trigger] entries[i]).0 == failure.name
                    && errors.contains_key(failure.name) && errors[failure.name] == failure.source
                    && forall|j: int| 0 <= j < i ==> !errors.contains_key(#[trigger] entries[j].0),
            None => forall|j: int|
                0 <= j < entries.len() ==> !errors.contains_key(#[trigger] entries[j].0),
        },
    decreases entries.len(),
{
    if entries.len() > 0 {
        let rest = entries.drop_last();
        lemma_first_invalid_entry(rest, errors);
        if let Some(failure) = first_invalid(rest, errors) {
            let i = choose|i: int|
                0 <= i < rest.len() && (#[trigger] rest[i]).0 == failure.name
                    && errors.contains_key(failure.name) && errors[failure.name] == failure.source
                    && forall|j: int| 0 <= j < i ==> !errors.contains_key(#[trigger] rest[j].0);
            assert(entries[i] == rest[i]);
            assert forall|j: int| 0 <= j < i implies !errors.contains_key(
                #[trigger] entries[j].0,
            ) by {
                assert(entries[j] == rest[j]);
            }
        } else {
            assert forall|j: int| 0 <= j < rest.len() implies !errors.contains_key(
                #[trigger] entries[j].0,
            ) by {
                assert(entries[j] == rest[j]);
            }
            assert(entries[entries.len() - 1] == entries.last());
        }
    }
}

/// An environment variable whose name is not valid is reported with what is wrong with the name. Of
/// several the one that comes first by name is, and none where all names are valid.
pub proof fn lemma_invalid_name_is_reported(
    variables: Map<Seq<char>, Seq<char>>,
    errors: Map<Seq<char>, Seq<char>>,
    name: Seq<char>,
)
    requires
        variables.dom().finite(),
    ensures
        match first_invalid(listing(variables), errors) {
            Some(failure) => variables.contains_key(failure.name) && errors.contains_key(
                failure.name,
            ) && errors[failure.name] == failure.source && (variables.contains_key(name)
                && errors.contains_key(name) ==> !before(name, failure.name)),
            None => !(variables.contains_key(name) && errors.contains_key(name)),
        },
{
    let entries = listing(variables);
    lemma_first_invalid_entry(entries, errors);
    lemma_listing_is_the_map(variables);
    if variables.contains_key(name) && errors.contains_key(name) {
        let k = lemma_listed(variables, name);
        if let Some(failure) = first_invalid(entries, errors) {
            let i = choose|i: int|
                0 <= i < entries.len() && (#[trigger] entries[i]).0 == failure.name
                    && errors.contains_key(failure.name) && errors[failure.name] == failure.source
                    && forall|j: int| 0 <= j < i ==> !errors.contains_key(#[trigger] entries[j].0);
            if k < i {
                assert(!errors.contains_key(entries[k].0));
            }
            if before(name, failure.name) {
                if i < k {
                    assert(before(entries[i].0, entries[k].0));
                    crate::text::lemma_before_transitive(name, failure.name, name);
                }
                lemma_before_irreflexive(name);
            }
        }
    }
}

/// What a role group is refused for, in this order: logging that is not valid, the name of an
/// environment variable, an agent without an aggregator, the logging of the agent, and its own name.
pub proof fn lemma_role_group_refused(
    cluster_name: Seq<char>,
    role: RoleInputView,
    aggregator: Option<Seq<char>>,
    errors: Map<Seq<char>, Seq<char>>,
    name: Seq<char>,
    group: RoleGroupInputView,
)
    ensures
        ({
            let result = role_group_validated(cluster_name, role, aggregator, errors, name, group);
            let variables = role.env_overrides.union_prefer_right(group.env_overrides);
            let invalid = first_invalid(listing(variables), errors);
            let agent = group.logging->Valid_0.enable_vector_agent;
            if group.logging is Invalid {
                result matches Err(ErrorView::ValidateRoleGroupConfig(failure)) && failure == (
                NamedFailureView { name, source: group.logging->Invalid_0 })
            } else if invalid is Some {
                result matches Err(ErrorView::ParseEnvVarName(failure)) && failure == invalid->0
            } else if agent && aggregator is None {
                result matches Err(ErrorView::MissingVectorAggregatorConfigMapName)
            } else if agent && group.vector_log_config is Invalid {
                result matches Err(ErrorView::ValidateLoggingConfig(error)) && error
                    == group.vector_log_config->Invalid_0
            } else if group.name_error is Some {
                result matches Err(ErrorView::ParseRoleGroupName(failure)) && failure == (
                NamedFailureView { name, source: group.name_error->0 })
            } else {
                result is Ok
            }
        }),
{
}

/// A cluster is valid exactly where it is as a whole and each of its role groups is.
pub proof fn lemma_valid_role_groups_make_a_valid_cluster(input: ClusterInputView)
    requires
        input.role_groups.dom().finite(),
        input.name is Valid,
        input.namespace is Valid,
        input.uid is Valid,
        input.image is Valid,
        aggregator_name(input.vector_aggregator_config_map_name) is Ok,
    ensures
        cluster_validated(input) is Ok <==> forall|name: Seq<char>| #[trigger]
            input.role_groups.contains_key(name) ==> role_group_validated(
                input.name->Valid_0,
                input.role,
                aggregator_name(input.vector_aggregator_config_map_name)->Ok_0,
                input.env_var_name_errors,
                name,
                input.role_groups[name],
            ) is Ok,
{
    let aggregator = aggregator_name(input.vector_aggregator_config_map_name)->Ok_0;
    let groups = listing(input.role_groups);
    lemma_listing_is_the_map(input.role_groups);
    lemma_listing_of_finite_map(input.role_groups);
    lemma_group_errors(
        input.name->Valid_0,
        input.role,
        aggregator,
        input.env_var_name_errors,
        groups,
    );
    if cluster_validated(input) is Ok {
        assert forall|name: Seq<char>| #[trigger]
            input.role_groups.contains_key(name) implies role_group_validated(
            input.name->Valid_0,
            input.role,
            aggregator,
            input.env_var_name_errors,
            name,
            input.role_groups[name],
        ) is Ok by {
            let i = lemma_listed(input.role_groups, name);
            lemma_group_validated(
                input.name->Valid_0,
                input.role,
                aggregator,
                input.env_var_name_errors,
                groups,
                i,
            );
        }
    } else {
        let error = cluster_validated(input)->Err_0;
        let i = choose|i: int|
            0 <= i < groups.len() && role_group_validated(
                input.name->Valid_0,
                input.role,
                aggregator,
                input.env_var_name_errors,
                (#[trigger] groups[i]).0,
                groups[i].1,
            ) == Err::<OpaRoleGroupConfigView, _>(error);
        assert(input.role_groups.contains_key(groups[i].0));
    }
}

} // verus!
