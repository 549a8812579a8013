//! The `OpenPolicyAgent` resource.
use crate::kubernetes::meta::{LabelSelector, LabelSelectorView};
use crate::text_map::TextMap;
use crate::text::{decimal, equal, number};
use crate::value::Value;
use vstd::prelude::*;

verus! {

/// The name of the product.
pub const APP_NAME: &'static str = "opa";

/// The manager that objects of this operator are labelled with.
pub const MANAGED_BY: &'static str = "stackable-opa";

/// The name of the configuration file.
pub const CONFIG_FILE: &'static str = "config.yaml";

/// The property that holds the reference to the rule repository.
pub const REPO_RULE_REFERENCE: &'static str = "repoRuleReference";

/// The property that holds the port.
pub const PORT: &'static str = "port";

/// A supported version of OPA.
#[allow(non_camel_case_types)]
#[derive(Clone, Copy, Debug, PartialEq, Eq, Structural)]
pub enum OpaVersion {
    v0_27_1,
}

impl DeepView for OpaVersion {
    type V = OpaVersion;

    open spec fn deep_view(&self) -> OpaVersion {
        *self
    }
}

impl Value for OpaVersion {
    fn duplicate(&self) -> (copy: Self) {
        *self
    }

    fn same_as(&self, other: &Self) -> (same: bool) {
        *self == *other
    }
}

impl OpaVersion {
    /// The version as OPA spells it.
    pub open spec fn spec_name(self) -> Seq<char> {
        match self {
            OpaVersion::v0_27_1 => "0.27.1"@,
        }
    }

    /// The version as OPA spells it.
    pub fn name(&self) -> (text: String)
        ensures
            text@ == self.spec_name(),
    {
        match self {
            OpaVersion::v0_27_1 => "0.27.1".to_owned(),
        }
    }
}

impl OpaVersion {
    /// The version that is spelled like this.
    pub fn from_name(name: &str) -> (version: Option<OpaVersion>)
        ensures
            match version {
                Some(version) => version.spec_name() == name@,
                None => name@ != OpaVersion::v0_27_1.spec_name(),
            },
    {
        if equal(name, "0.27.1") {
            Some(OpaVersion::v0_27_1)
        } else {
            None
        }
    }
}

/// A role of the cluster.
#[derive(Clone, Copy, Debug, PartialEq, Eq, Structural)]
pub enum OpaRole {
    Server,
}

impl DeepView for OpaRole {
    type V = OpaRole;

    open spec fn deep_view(&self) -> OpaRole {
        *self
    }
}

impl Value for OpaRole {
    fn duplicate(&self) -> (copy: Self) {
        *self
    }

    fn same_as(&self, other: &Self) -> (same: bool) {
        *self == *other
    }
}

impl OpaRole {
    /// The name of the role.
    pub open spec fn spec_name(self) -> Seq<char> {
        match self {
            OpaRole::Server => "server"@,
        }
    }

    /// The name of the role.
    pub fn name(&self) -> (text: String)
        ensures
            text@ == self.spec_name(),
    {
        match self {
            OpaRole::Server => "server".to_owned(),
        }
    }
}

impl OpaRole {
    /// The role of this name.
    pub fn from_name(name: &str) -> (role: Option<OpaRole>)
        ensures
            match role {
                Some(role) => role.spec_name() == name@,
                None => name@ != OpaRole::Server.spec_name(),
            },
    {
        if equal(name, "server") {
            Some(OpaRole::Server)
        } else {
            None
        }
    }
}

/// The observed status of a cluster.
#[derive(Clone, Debug, Default, PartialEq, Eq)]
pub struct OpaStatus {}

/// The configuration of a server.
#[derive(Clone, Debug, PartialEq, Eq)]
pub struct OpaConfig {
    /// The port that OPA listens on.
    pub port: Option<u16>,
    /// The URL of the rule repository.
    pub repo_rule_reference: String,
}

/// The contents of an [`OpaConfig`].
#[verifier::ext_equal]
pub struct OpaConfigView {
    pub port: Option<u16>,
    pub repo_rule_reference: Seq<char>,
}

impl DeepView for OpaConfig {
    type V = OpaConfigView;

    open spec fn deep_view(&self) -> OpaConfigView {
        OpaConfigView {
            port: self.port.deep_view(),
            repo_rule_reference: self.repo_rule_reference.deep_view(),
        }
    }
}

impl Value for OpaConfig {
    fn duplicate(&self) -> (copy: Self) {
        OpaConfig {
            port: self.port.duplicate(),
            repo_rule_reference: self.repo_rule_reference.duplicate(),
        }
    }

    fn same_as(&self, other: &Self) -> (same: bool) {
        self.port.same_as(&other.port)
            && self.repo_rule_reference.same_as(&other.repo_rule_reference)
    }
}

/// The configuration of a role or a role group.
#[derive(Clone, Debug, PartialEq, Eq)]
pub struct CommonConfiguration {
    pub config: Option<OpaConfig>,
}

/// The contents of a [`CommonConfiguration`].
#[verifier::ext_equal]
pub struct CommonConfigurationView {
    pub config: Option<OpaConfigView>,
}

impl DeepView for CommonConfiguration {
    type V = CommonConfigurationView;

    open spec fn deep_view(&self) -> CommonConfigurationView {
        CommonConfigurationView {
            config: self.config.deep_view(),
        }
    }
}

impl Value for CommonConfiguration {
    fn duplicate(&self) -> (copy: Self) {
        CommonConfiguration {
            config: self.config.duplicate(),
        }
    }

    fn same_as(&self, other: &Self) -> (same: bool) {
        self.config.same_as(&other.config)
    }
}

/// A group of servers that are configured alike.
#[derive(Clone, Debug, PartialEq, Eq)]
pub struct RoleGroup {
    pub config: Option<CommonConfiguration>,
    pub replicas: Option<u16>,
    /// The nodes that the servers run on.
    pub selector: Option<LabelSelector>,
}

/// The contents of a [`RoleGroup`].
#[verifier::ext_equal]
pub struct RoleGroupView {
    pub config: Option<CommonConfigurationView>,
    pub replicas: Option<u16>,
    pub selector: Option<LabelSelectorView>,
}

impl DeepView for RoleGroup {
    type V = RoleGroupView;

    open spec fn deep_view(&self) -> RoleGroupView {
        RoleGroupView {
            config: self.config.deep_view(),
            replicas: self.replicas.deep_view(),
            selector: self.selector.deep_view(),
        }
    }
}

impl Value for RoleGroup {
    fn duplicate(&self) -> (copy: Self) {
        RoleGroup {
            config: self.config.duplicate(),
            replicas: self.replicas.duplicate(),
            selector: self.selector.duplicate(),
        }
    }

    fn same_as(&self, other: &Self) -> (same: bool) {
        self.config.same_as(&other.config)
            && self.replicas.same_as(&other.replicas)
            && self.selector.same_as(&other.selector)
    }
}

/// The servers of a cluster.
#[derive(Clone, Debug, PartialEq, Eq)]
pub struct Role {
    pub config: Option<CommonConfiguration>,
    pub role_groups: TextMap<RoleGroup>,
}

/// The contents of a [`Role`].
#[verifier::ext_equal]
pub struct RoleView {
    pub config: Option<CommonConfigurationView>,
    pub role_groups: Map<Seq<char>, RoleGroupView>,
}

impl DeepView for Role {
    type V = RoleView;

    open spec fn deep_view(&self) -> RoleView {
        RoleView {
            config: self.config.deep_view(),
            role_groups: self.role_groups.deep_view(),
        }
    }
}

impl Value for Role {
    fn duplicate(&self) -> (copy: Self) {
        Role {
            config: self.config.duplicate(),
            role_groups: self.role_groups.duplicate(),
        }
    }

    fn same_as(&self, other: &Self) -> (same: bool) {
        self.config.same_as(&other.config) && self.role_groups.same_as(&other.role_groups)
    }
}

/// The desired state of a cluster.
#[derive(Clone, Debug, PartialEq, Eq)]
pub struct OpaSpec {
    pub version: OpaVersion,
    pub servers: Role,
}

/// The contents of an [`OpaSpec`].
#[verifier::ext_equal]
pub struct OpaSpecView {
    pub version: OpaVersion,
    pub servers: RoleView,
}

impl DeepView for OpaSpec {
    type V = OpaSpecView;

    open spec fn deep_view(&self) -> OpaSpecView {
        OpaSpecView {
            version: self.version.deep_view(),
            servers: self.servers.deep_view(),
        }
    }
}

impl Value for OpaSpec {
    fn duplicate(&self) -> (copy: Self) {
        OpaSpec {
            version: self.version.duplicate(),
            servers: self.servers.duplicate(),
        }
    }

    fn same_as(&self, other: &Self) -> (same: bool) {
        self.version.same_as(&other.version) && self.servers.same_as(&other.servers)
    }
}

/// A property without a value, or with one.
pub open spec fn property(value: Option<u16>) -> Option<Seq<char>> {
    match value {
        Some(value) => Some(decimal(value as nat)),
        None => None,
    }
}

impl OpaConfig {
    /// The environment variables of a server: there are none.
    pub fn compute_env(&self) -> (env: TextMap<Option<String>>)
        ensures
            env@ == Map::<Seq<char>, Option<Seq<char>>>::empty(),
    {
        TextMap::new()
    }

    /// The command line arguments of a server: its port, where one is configured.
    pub fn compute_cli(&self) -> (cli: TextMap<Option<String>>)
        ensures
            cli@ == Map::<Seq<char>, Option<Seq<char>>>::empty().insert(PORT@, property(self.port)),
    {
        let mut cli: TextMap<Option<String>> = TextMap::new();
        let port: Option<String> = match self.port {
            Some(port) => Some(number(port as u64)),
            None => None,
        };
        cli.insert(PORT.to_owned(), port);
        cli
    }

    /// The properties of a configuration file. Only [`CONFIG_FILE`] has any.
    pub fn compute_files(&self, file: &str) -> (config: TextMap<Option<String>>)
        ensures
            config@ == (if file@ == CONFIG_FILE@ {
                Map::<Seq<char>, Option<Seq<char>>>::empty().insert(
                    REPO_RULE_REFERENCE@,
                    Some(self.repo_rule_reference@),
                )
            } else {
                Map::<Seq<char>, Option<Seq<char>>>::empty()
            }),
    {
        let mut config: TextMap<Option<String>> = TextMap::new();
        if equal(file, CONFIG_FILE) {
            config.insert(
                REPO_RULE_REFERENCE.to_owned(),
                Some(self.repo_rule_reference.clone()),
            );
        }
        config
    }
}

} // verus!
