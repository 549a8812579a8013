//! The files of the role group ConfigMaps.
use crate::value::Value;
use vstd::prelude::*;

verus! {

/// The names of the config files assembled into the role group ConfigMap.
#[derive(Clone, Copy, Debug, PartialEq, Eq, Structural)]
pub enum ConfigFileName {
    ConfigJson,
    UserInfoFetcher,
    ResourceInfoFetcher,
}

impl DeepView for ConfigFileName {
    type V = ConfigFileName;

    open spec fn deep_view(&self) -> ConfigFileName {
        *self
    }
}

impl Value for ConfigFileName {
    fn duplicate(&self) -> (copy: Self) {
        *self
    }

    fn same_as(&self, other: &Self) -> (same: bool) {
        *self == *other
    }
}

impl ConfigFileName {
    /// The name of the file.
    pub open spec fn spec_name(self) -> Seq<char> {
        match self {
            ConfigFileName::ConfigJson => "config.json"@,
            ConfigFileName::UserInfoFetcher => "user-info-fetcher.json"@,
            ConfigFileName::ResourceInfoFetcher => "resource-info-fetcher.json"@,
        }
    }

    /// The name of the file.
    pub fn name(&self) -> (text: String)
        ensures
            text@ == self.spec_name(),
    {
        match self {
            ConfigFileName::ConfigJson => "config.json".to_owned(),
            ConfigFileName::UserInfoFetcher => "user-info-fetcher.json".to_owned(),
            ConfigFileName::ResourceInfoFetcher => "resource-info-fetcher.json".to_owned(),
        }
    }
}

/// The name of the file with the configuration of the Vector agent.
pub const VECTOR_CONFIG_FILE: &'static str = "vector.yaml";

/// Returns the Vector agent config (`vector.yaml`) content added to the role group `ConfigMap`, given
/// the text of the file that the operator ships.
pub fn vector_config_file_content(vector_yaml: &str) -> (content: String)
    ensures
        content@ == vector_yaml@,
{
    vector_yaml.to_owned()
}

} // verus!
