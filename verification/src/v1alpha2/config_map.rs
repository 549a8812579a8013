//! The ConfigMap of a role group.
use crate::checked::{Checked, CheckedView};
use crate::kubernetes::resources::{ConfigMap, ConfigMapView};
use crate::text_map::StringMap;
use crate::v1alpha2::cluster::{
    group_object_name, object_labels, owned_object_meta, ValidatedCluster, ValidatedClusterView,
};
use crate::v1alpha2::properties::{ConfigFileName, VECTOR_CONFIG_FILE};
use crate::value::Value;
use vstd::prelude::*;

verus! {

/// Why the ConfigMap of a role group could not be built.
#[derive(Clone, Debug, PartialEq, Eq)]
pub enum Error {
    /// The configuration of OPA could not be rendered.
    BuildConfigJson(String),
    /// The configuration of the user-info-fetcher could not be rendered.
    BuildUserInfoFetcher(String),
    /// The configuration of the resource-info-fetcher could not be rendered.
    BuildResourceInfoFetcher(String),
}

/// The contents of an [`Error`].
#[verifier::ext_equal]
pub enum ErrorView {
    BuildConfigJson(Seq<char>),
    BuildUserInfoFetcher(Seq<char>),
    BuildResourceInfoFetcher(Seq<char>),
}

impl DeepView for Error {
    type V = ErrorView;

    open spec fn deep_view(&self) -> ErrorView {
        match self {
            Error::BuildConfigJson(inner) => ErrorView::BuildConfigJson(inner.deep_view()),
            Error::BuildUserInfoFetcher(inner) => {
                ErrorView::BuildUserInfoFetcher(inner.deep_view())
            },
            Error::BuildResourceInfoFetcher(inner) => {
                ErrorView::BuildResourceInfoFetcher(inner.deep_view())
            },
        }
    }
}

impl Value for Error {
    fn duplicate(&self) -> (copy: Self) {
        match self {
            Error::BuildConfigJson(inner) => Error::BuildConfigJson(inner.duplicate()),
            Error::BuildUserInfoFetcher(inner) => Error::BuildUserInfoFetcher(inner.duplicate()),
            Error::BuildResourceInfoFetcher(inner) => {
                Error::BuildResourceInfoFetcher(inner.duplicate())
            },
        }
    }

    fn same_as(&self, other: &Self) -> (same: bool) {
        match (self, other) {
            (Error::BuildConfigJson(left), Error::BuildConfigJson(right)) => left.same_as(right),
            (Error::BuildUserInfoFetcher(left), Error::BuildUserInfoFetcher(right)) => {
                left.same_as(right)
            },
            (Error::BuildResourceInfoFetcher(left), Error::BuildResourceInfoFetcher(right)) => {
                left.same_as(right)
            },
            _ => false,
        }
    }
}

/// The rendered files of a role group.
#[derive(Clone, Debug, PartialEq, Eq)]
pub struct RenderedFiles {
    /// The configuration of OPA, with the overrides of the user.
    pub config_json: Checked<String>,
    /// The configuration of the user-info-fetcher. Needed only where one is configured.
    pub user_info_fetcher: Checked<String>,
    /// The configuration of the resource-info-fetcher. Needed only where one is configured.
    pub resource_info_fetcher: Checked<String>,
    /// The configuration of the Vector agent that the operator ships. Needed only where the agent is
    /// enabled.
    pub vector_yaml: String,
}

/// The contents of a [`RenderedFiles`].
#[verifier::ext_equal]
pub struct RenderedFilesView {
    pub config_json: CheckedView<Seq<char>>,
    pub user_info_fetcher: CheckedView<Seq<char>>,
    pub resource_info_fetcher: CheckedView<Seq<char>>,
    pub vector_yaml: Seq<char>,
}

impl DeepView for RenderedFiles {
    type V = RenderedFilesView;

    open spec fn deep_view(&self) -> RenderedFilesView {
        RenderedFilesView {
            config_json: self.config_json.deep_view(),
            user_info_fetcher: self.user_info_fetcher.deep_view(),
            resource_info_fetcher: self.resource_info_fetcher.deep_view(),
            vector_yaml: self.vector_yaml.deep_view(),
        }
    }
}

impl Value for RenderedFiles {
    fn duplicate(&self) -> (copy: Self) {
        RenderedFiles {
            config_json: self.config_json.duplicate(),
            user_info_fetcher: self.user_info_fetcher.duplicate(),
            resource_info_fetcher: self.resource_info_fetcher.duplicate(),
            vector_yaml: self.vector_yaml.duplicate(),
        }
    }

    fn same_as(&self, other: &Self) -> (same: bool) {
        self.config_json.same_as(&other.config_json)
            && self.user_info_fetcher.same_as(&other.user_info_fetcher)
            && self.resource_info_fetcher.same_as(&other.resource_info_fetcher)
            && self.vector_yaml.same_as(&other.vector_yaml)
    }
}

/// The entries with the configuration of the user-info-fetcher, where one is configured.
pub open spec fn with_user_info(
    data: Map<Seq<char>, Seq<char>>,
    cluster: ValidatedClusterView,
    file: CheckedView<Seq<char>>,
) -> Result<Map<Seq<char>, Seq<char>>, ErrorView> {
    match (cluster.cluster_config.user_info, file) {
        (None, _) => Ok(data),
        (Some(_), CheckedView::Valid(file)) => Ok(
            data.insert(ConfigFileName::UserInfoFetcher.spec_name(), file),
        ),
        (Some(_), CheckedView::Invalid(error)) => Err(ErrorView::BuildUserInfoFetcher(error)),
    }
}

/// The entries with the configuration of the resource-info-fetcher, where one is configured.
pub open spec fn with_resource_info(
    data: Map<Seq<char>, Seq<char>>,
    cluster: ValidatedClusterView,
    file: CheckedView<Seq<char>>,
) -> Result<Map<Seq<char>, Seq<char>>, ErrorView> {
    match (cluster.cluster_config.resource_info, file) {
        (None, _) => Ok(data),
        (Some(_), CheckedView::Valid(file)) => Ok(
            data.insert(ConfigFileName::ResourceInfoFetcher.spec_name(), file),
        ),
        (Some(_), CheckedView::Invalid(error)) => Err(ErrorView::BuildResourceInfoFetcher(error)),
    }
}

/// The entries of a role group's ConfigMap.
pub open spec fn config_map_data(
    cluster: ValidatedClusterView,
    files: RenderedFilesView,
    vector_config: Option<Seq<char>>,
) -> Result<Map<Seq<char>, Seq<char>>, ErrorView> {
    match files.config_json {
        CheckedView::Invalid(error) => Err(ErrorView::BuildConfigJson(error)),
        CheckedView::Valid(config_json) => match with_user_info(
            Map::empty().insert(ConfigFileName::ConfigJson.spec_name(), config_json),
            cluster,
            files.user_info_fetcher,
        ) {
            Err(error) => Err(error),
            Ok(data) => match with_resource_info(data, cluster, files.resource_info_fetcher) {
                Err(error) => Err(error),
                Ok(data) => Ok(
                    match vector_config {
                        Some(vector_config) => data.insert(VECTOR_CONFIG_FILE@, vector_config),
                        None => data,
                    },
                ),
            },
        },
    }
}

/// The ConfigMap of a role group.
pub open spec fn rolegroup_config_map(
    cluster: ValidatedClusterView,
    role_group_name: Seq<char>,
    files: RenderedFilesView,
    vector_config: Option<Seq<char>>,
) -> Result<ConfigMapView, ErrorView> {
    match config_map_data(cluster, files, vector_config) {
        Err(error) => Err(error),
        Ok(data) => Ok(
            ConfigMapView {
                metadata: owned_object_meta(
                    cluster,
                    group_object_name(cluster, role_group_name),
                    object_labels(cluster, role_group_name),
                ),
                data: Some(data),
            },
        ),
    }
}

/// Builds the ConfigMap that configures a role group as the administrator asked for.
///
/// `vector_config` is the configuration of the Vector agent, where the agent is enabled.
pub fn build_rolegroup_config_map(
    cluster: &ValidatedCluster,
    role_group_name: &str,
    files: &RenderedFiles,
    vector_config: Option<String>,
) -> (result: Result<ConfigMap, Error>)
    ensures
        match rolegroup_config_map(
            cluster.deep_view(),
            role_group_name@,
            files.deep_view(),
            vector_config.deep_view(),
        ) {
            Ok(expected) => result matches Ok(config_map) && config_map.deep_view() == expected,
            Err(expected) => result matches Err(error) && error.deep_view() == expected,
        },
{
    let mut data = StringMap::new();
    match &files.config_json {
        Checked::Valid(file) => data.insert(ConfigFileName::ConfigJson.name(), file.clone()),
        Checked::Invalid(error) => return Err(Error::BuildConfigJson(error.clone())),
    }
    if cluster.cluster_config.user_info.is_some() {
        match &files.user_info_fetcher {
            Checked::Valid(file) => data.insert(
                ConfigFileName::UserInfoFetcher.name(),
                file.clone(),
            ),
            Checked::Invalid(error) => return Err(Error::BuildUserInfoFetcher(error.clone())),
        }
    }
    if cluster.cluster_config.resource_info.is_some() {
        match &files.resource_info_fetcher {
            Checked::Valid(file) => data.insert(
                ConfigFileName::ResourceInfoFetcher.name(),
                file.clone(),
            ),
            Checked::Invalid(error) => return Err(Error::BuildResourceInfoFetcher(error.clone())),
        }
    }
    if let Some(vector_config) = vector_config {
        data.insert(VECTOR_CONFIG_FILE.to_owned(), vector_config);
    }
    Ok(
        ConfigMap {
            metadata: cluster.object_meta(
                cluster.role_group_object_name(role_group_name),
                cluster.recommended_labels(role_group_name),
            ),
            data: Some(data),
        },
    )
}

} // verus!
