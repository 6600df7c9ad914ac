use crate::config::{Config, ConfigType};
use vstd::prelude::*;

verus! {

/// The config types of service discovery.
pub trait DiscoverConfig {
    type Etcd: ConfigType;
    type Consul: ConfigType;
}

impl DiscoverConfig for Config {
    type Etcd = crate::discover::EtcdDiscoverConf;
    type Consul = crate::discover::ConsulDiscoverConf;
}

} // verus!
