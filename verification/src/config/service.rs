use crate::config::{Config, ConfigType};
use vstd::prelude::*;

verus! {

/// The config types of services.
pub trait ServiceConfig {
    type RestService: ConfigType;
    type GrpcService: ConfigType;
    type Service: ConfigType;
}

/// The default address a service listens on.
pub const DEFAULT_LISTEN_ADDR: &'static str = "0.0.0.0:3000";

/// The default address a service is reached at by others.
pub const DEFAULT_DISCOVER_ADDR: &'static str = "http://127.0.0.1:3000";

/// The default request timeout, in seconds.
pub const DEFAULT_TIMEOUT: u64 = 30;

/// The default number of requests served at once.
pub const DEFAULT_CONCURRENCY_LIMIT: usize = 5120;

/// Whether requests beyond the limit are shed by default.
pub const DEFAULT_LOAD_SHED: bool = false;

/// The settings of a service.
#[derive(Clone, Debug)]
pub struct ServiceConf {
    pub name: String,
    pub listen_addr: String,
    pub discover_addr: String,
    pub timeout: u64,
    pub concurrency_limit: usize,
    pub load_shed: bool,
}

impl ServiceConf {
    /// A service with the given name and addresses, and the default timeout,
    /// concurrency limit and load shedding.
    pub fn new(name: String, listen_addr: String, discover_addr: String) -> (r: Self)
        ensures
            r.name == name,
            r.listen_addr == listen_addr,
            r.discover_addr == discover_addr,
            r.timeout == DEFAULT_TIMEOUT,
            r.concurrency_limit == DEFAULT_CONCURRENCY_LIMIT,
            r.load_shed == DEFAULT_LOAD_SHED,
    {
        ServiceConf {
            name,
            listen_addr,
            discover_addr,
            timeout: DEFAULT_TIMEOUT,
            concurrency_limit: DEFAULT_CONCURRENCY_LIMIT,
            load_shed: DEFAULT_LOAD_SHED,
        }
    }
}

/// The settings of a REST service.
#[derive(Clone, Debug)]
pub struct RestServiceConf {
    pub service: ServiceConf,
    pub cert_file: Option<String>,
    pub key_file: Option<String>,
}

/// The settings of a gRPC service.
#[derive(Clone, Debug)]
pub struct GrpcServiceConf {
    pub service: ServiceConf,
    pub health_check: bool,
}

impl ServiceConfig for Config {
    type RestService = RestServiceConf;
    type GrpcService = GrpcServiceConf;
    type Service = ServiceConf;
}

} // verus!
