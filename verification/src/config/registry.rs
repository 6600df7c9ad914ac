use crate::config::{Config, ConfigType};
use vstd::prelude::*;

verus! {

/// The config types of service registries.
pub trait DiscoverConfig {
    type Etcd: ConfigType;
    type Consul: ConfigType;
}

impl DiscoverConfig for Config {
    type Etcd = crate::registry::EtcdRegistryOption;
    type Consul = crate::registry::ConsulRegistryOption;
}

} // verus!
