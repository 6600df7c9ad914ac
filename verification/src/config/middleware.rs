use crate::config::{Config, ConfigType};
use vstd::prelude::*;

verus! {

/// The config types of middleware clients.
pub trait MiddlewareConfig {
    type Etcd: ConfigType;
    type Consul: ConfigType;
    type Apollo: ConfigType;
    type Redis: ConfigType;
}

impl MiddlewareConfig for Config {
    type Etcd = crate::middleware::EtcdConf;
    type Consul = crate::middleware::ConsulConf;
    type Apollo = crate::middleware::ApolloConf;
    type Redis = crate::middleware::RedisConf;
}

} // verus!
