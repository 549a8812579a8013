//! OPA's configuration file.
use crate::start_command::{decision_logging, decision_logging_enabled};
use crate::v1alpha2::cluster::{container_log, ValidatedOpaConfig};
use crate::v1alpha2::crd::Container;
use crate::value::{one_item, Value};
use vstd::prelude::*;

verus! {

/// The name under which OPA knows the bundle-builder.
pub const OPA_STACKABLE_SERVICE_NAME: &'static str = "stackable";

/// A service that OPA talks to.
#[derive(Clone, Debug, PartialEq, Eq)]
pub struct OpaClusterConfigService {
    pub name: String,
    pub url: String,
}

/// The contents of an [`OpaClusterConfigService`].
#[verifier::ext_equal]
pub struct OpaClusterConfigServiceView {
    pub name: Seq<char>,
    pub url: Seq<char>,
}

impl DeepView for OpaClusterConfigService {
    type V = OpaClusterConfigServiceView;

    open spec fn deep_view(&self) -> OpaClusterConfigServiceView {
        OpaClusterConfigServiceView {
            name: self.name.deep_view(),
            url: self.url.deep_view(),
        }
    }
}

impl Value for OpaClusterConfigService {
    fn duplicate(&self) -> (copy: Self) {
        OpaClusterConfigService {
            name: self.name.duplicate(),
            url: self.url.duplicate(),
        }
    }

    fn same_as(&self, other: &Self) -> (same: bool) {
        self.name.same_as(&other.name) && self.url.same_as(&other.url)
    }
}

/// How often OPA asks for a new bundle.
#[derive(Clone, Debug, PartialEq, Eq)]
pub struct OpaClusterBundleConfigPolling {
    pub min_delay_seconds: i32,
    pub max_delay_seconds: i32,
}

/// The contents of an [`OpaClusterBundleConfigPolling`].
#[verifier::ext_equal]
pub struct OpaClusterBundleConfigPollingView {
    pub min_delay_seconds: i32,
    pub max_delay_seconds: i32,
}

impl DeepView for OpaClusterBundleConfigPolling {
    type V = OpaClusterBundleConfigPollingView;

    open spec fn deep_view(&self) -> OpaClusterBundleConfigPollingView {
        OpaClusterBundleConfigPollingView {
            min_delay_seconds: self.min_delay_seconds.deep_view(),
            max_delay_seconds: self.max_delay_seconds.deep_view(),
        }
    }
}

impl Value for OpaClusterBundleConfigPolling {
    fn duplicate(&self) -> (copy: Self) {
        OpaClusterBundleConfigPolling {
            min_delay_seconds: self.min_delay_seconds.duplicate(),
            max_delay_seconds: self.max_delay_seconds.duplicate(),
        }
    }

    fn same_as(&self, other: &Self) -> (same: bool) {
        self.min_delay_seconds.same_as(&other.min_delay_seconds)
            && self.max_delay_seconds.same_as(&other.max_delay_seconds)
    }
}

/// Where OPA gets a bundle from.
#[derive(Clone, Debug, PartialEq, Eq)]
pub struct OpaClusterBundleConfig {
    pub service: String,
    pub resource: String,
    pub persist: bool,
    pub polling: OpaClusterBundleConfigPolling,
}

/// The contents of an [`OpaClusterBundleConfig`].
#[verifier::ext_equal]
pub struct OpaClusterBundleConfigView {
    pub service: Seq<char>,
    pub resource: Seq<char>,
    pub persist: bool,
    pub polling: OpaClusterBundleConfigPollingView,
}

impl DeepView for OpaClusterBundleConfig {
    type V = OpaClusterBundleConfigView;

    open spec fn deep_view(&self) -> OpaClusterBundleConfigView {
        OpaClusterBundleConfigView {
            service: self.service.deep_view(),
            resource: self.resource.deep_view(),
            persist: self.persist.deep_view(),
            polling: self.polling.deep_view(),
        }
    }
}

impl Value for OpaClusterBundleConfig {
    fn duplicate(&self) -> (copy: Self) {
        OpaClusterBundleConfig {
            service: self.service.duplicate(),
            resource: self.resource.duplicate(),
            persist: self.persist.duplicate(),
            polling: self.polling.duplicate(),
        }
    }

    fn same_as(&self, other: &Self) -> (same: bool) {
        self.service.same_as(&other.service)
            && self.resource.same_as(&other.resource)
            && self.persist.same_as(&other.persist)
            && self.polling.same_as(&other.polling)
    }
}

/// The bundles that OPA loads.
#[derive(Clone, Debug, PartialEq, Eq)]
pub struct OpaClusterBundle {
    pub stackable: OpaClusterBundleConfig,
}

/// The contents of an [`OpaClusterBundle`].
#[verifier::ext_equal]
pub struct OpaClusterBundleView {
    pub stackable: OpaClusterBundleConfigView,
}

impl DeepView for OpaClusterBundle {
    type V = OpaClusterBundleView;

    open spec fn deep_view(&self) -> OpaClusterBundleView {
        OpaClusterBundleView {
            stackable: self.stackable.deep_view(),
        }
    }
}

impl Value for OpaClusterBundle {
    fn duplicate(&self) -> (copy: Self) {
        OpaClusterBundle {
            stackable: self.stackable.duplicate(),
        }
    }

    fn same_as(&self, other: &Self) -> (same: bool) {
        self.stackable.same_as(&other.stackable)
    }
}

/// Where OPA logs its decisions.
#[derive(Clone, Debug, PartialEq, Eq)]
pub struct OpaClusterConfigDecisionLog {
    pub console: bool,
}

/// The contents of an [`OpaClusterConfigDecisionLog`].
#[verifier::ext_equal]
pub struct OpaClusterConfigDecisionLogView {
    pub console: bool,
}

impl DeepView for OpaClusterConfigDecisionLog {
    type V = OpaClusterConfigDecisionLogView;

    open spec fn deep_view(&self) -> OpaClusterConfigDecisionLogView {
        OpaClusterConfigDecisionLogView {
            console: self.console.deep_view(),
        }
    }
}

impl Value for OpaClusterConfigDecisionLog {
    fn duplicate(&self) -> (copy: Self) {
        OpaClusterConfigDecisionLog {
            console: self.console.duplicate(),
        }
    }

    fn same_as(&self, other: &Self) -> (same: bool) {
        self.console.same_as(&other.console)
    }
}

/// Which status reports OPA makes.
#[derive(Clone, Debug, PartialEq, Eq)]
pub struct OpaClusterConfigStatus {
    pub prometheus: bool,
}

/// The contents of an [`OpaClusterConfigStatus`].
#[verifier::ext_equal]
pub struct OpaClusterConfigStatusView {
    pub prometheus: bool,
}

impl DeepView for OpaClusterConfigStatus {
    type V = OpaClusterConfigStatusView;

    open spec fn deep_view(&self) -> OpaClusterConfigStatusView {
        OpaClusterConfigStatusView {
            prometheus: self.prometheus.deep_view(),
        }
    }
}

impl Value for OpaClusterConfigStatus {
    fn duplicate(&self) -> (copy: Self) {
        OpaClusterConfigStatus {
            prometheus: self.prometheus.duplicate(),
        }
    }

    fn same_as(&self, other: &Self) -> (same: bool) {
        self.prometheus.same_as(&other.prometheus)
    }
}

/// The configuration file of OPA.
#[derive(Clone, Debug, PartialEq, Eq)]
pub struct OpaClusterConfigFile {
    pub services: Vec<OpaClusterConfigService>,
    pub bundles: OpaClusterBundle,
    /// Left out of the file where it is not set.
    pub decision_logs: Option<OpaClusterConfigDecisionLog>,
    pub status: Option<OpaClusterConfigStatus>,
}

/// The contents of an [`OpaClusterConfigFile`].
#[verifier::ext_equal]
pub struct OpaClusterConfigFileView {
    pub services: Seq<OpaClusterConfigServiceView>,
    pub bundles: OpaClusterBundleView,
    pub decision_logs: Option<OpaClusterConfigDecisionLogView>,
    pub status: Option<OpaClusterConfigStatusView>,
}

impl DeepView for OpaClusterConfigFile {
    type V = OpaClusterConfigFileView;

    open spec fn deep_view(&self) -> OpaClusterConfigFileView {
        OpaClusterConfigFileView {
            services: self.services.deep_view(),
            bundles: self.bundles.deep_view(),
            decision_logs: self.decision_logs.deep_view(),
            status: self.status.deep_view(),
        }
    }
}

impl Value for OpaClusterConfigFile {
    fn duplicate(&self) -> (copy: Self) {
        OpaClusterConfigFile {
            services: self.services.duplicate(),
            bundles: self.bundles.duplicate(),
            decision_logs: self.decision_logs.duplicate(),
            status: self.status.duplicate(),
        }
    }

    fn same_as(&self, other: &Self) -> (same: bool) {
        self.services.same_as(&other.services)
            && self.bundles.same_as(&other.bundles)
            && self.decision_logs.same_as(&other.decision_logs)
            && self.status.same_as(&other.status)
    }
}

/// The configuration file of OPA: it polls its bundle from the bundle-builder in the same Pod, and
/// reports status metrics to Prometheus.
pub open spec fn config_file(
    decision_logs: Option<OpaClusterConfigDecisionLogView>,
) -> OpaClusterConfigFileView {
    OpaClusterConfigFileView {
        services: seq![
            OpaClusterConfigServiceView {
                name: OPA_STACKABLE_SERVICE_NAME@,
                url: "http://localhost:3030/opa/v1"@,
            },
        ],
        bundles: OpaClusterBundleView {
            stackable: OpaClusterBundleConfigView {
                service: OPA_STACKABLE_SERVICE_NAME@,
                resource: "opa/bundle.tar.gz"@,
                persist: true,
                polling: OpaClusterBundleConfigPollingView {
                    min_delay_seconds: 10,
                    max_delay_seconds: 20,
                },
            },
        },
        decision_logs,
        status: Some(
            OpaClusterConfigStatusView {
                prometheus: true,
            },
        ),
    }
}

impl OpaClusterConfigFile {
    /// The configuration file of OPA, with or without decision logs.
    pub fn new(decision_logging: Option<OpaClusterConfigDecisionLog>) -> (file: Self)
        ensures
            file.deep_view() == config_file(decision_logging.deep_view()),
    {
        OpaClusterConfigFile {
            services: one_item(
                OpaClusterConfigService {
                    name: OPA_STACKABLE_SERVICE_NAME.to_owned(),
                    url: "http://localhost:3030/opa/v1".to_owned(),
                },
            ),
            bundles: OpaClusterBundle {
                stackable: OpaClusterBundleConfig {
                    service: OPA_STACKABLE_SERVICE_NAME.to_owned(),
                    resource: "opa/bundle.tar.gz".to_owned(),
                    persist: true,
                    polling: OpaClusterBundleConfigPolling {
                        min_delay_seconds: 10,
                        max_delay_seconds: 20,
                    },
                },
            },
            decision_logs: decision_logging,
            status: Some(
                OpaClusterConfigStatus {
                    prometheus: true,
                },
            ),
        }
    }
}

/// The decision log settings: decisions go to the console where they are logged at all.
pub open spec fn decision_logs(enabled: bool) -> Option<OpaClusterConfigDecisionLogView> {
    if enabled {
        Some(OpaClusterConfigDecisionLogView { console: true })
    } else {
        None
    }
}

/// Builds OPA's configuration file for a role group, before the user's overrides are applied.
pub fn build(merged_config: &ValidatedOpaConfig) -> (file: OpaClusterConfigFile)
    ensures
        file.deep_view() == config_file(
            decision_logs(
                decision_logging(
                    container_log(merged_config.deep_view().logging, Container::Opa),
                ),
            ),
        ),
{
    let decision_logging = if decision_logging_enabled(
        merged_config.logging.automatic(Container::Opa),
    ) {
        Some(OpaClusterConfigDecisionLog { console: true })
    } else {
        None
    };
    OpaClusterConfigFile::new(decision_logging)
}

} // verus!
