//! Service discovery settings, and the key a service instance registers under.
use crate::config::service::ServiceConf;
use crate::decimal::{decimal, format_u64};
use crate::middleware::{ConsulConf, EtcdConf};
use crate::registry::{DEFAULT_GRANT_TTL, DEFAULT_KEEP_ALIVE_INTERVAL};
use crate::text::{str_chars, string_from_chars};
use vstd::prelude::*;

verus! {

/// The settings of discovery through etcd.
#[derive(Clone, Debug)]
pub struct EtcdDiscoverConf {
    pub etcd: EtcdConf,
    pub service: ServiceConf,
    pub grant_ttl: i64,
    pub keep_alive_interval: u64,
}

impl EtcdDiscoverConf {
    /// Discovery of the service through the etcd cluster, with the default
    /// lease and keep-alive interval.
    pub fn new(etcd: EtcdConf, service: ServiceConf) -> (r: Self)
        ensures
            r.etcd == etcd,
            r.service == service,
            r.grant_ttl == DEFAULT_GRANT_TTL,
            r.keep_alive_interval == DEFAULT_KEEP_ALIVE_INTERVAL,
    {
        EtcdDiscoverConf {
            etcd,
            service,
            grant_ttl: DEFAULT_GRANT_TTL,
            keep_alive_interval: DEFAULT_KEEP_ALIVE_INTERVAL,
        }
    }
}

/// The settings of discovery through Consul.
#[derive(Clone, Debug)]
pub struct ConsulDiscoverConf {
    pub consul: ConsulConf,
    pub service: ServiceConf,
}

/// The key a service instance registers under: `<service name>:<instance id>`.
pub fn instance_key(service_name: &str, id: u32) -> (r: String)
    ensures
        r@ == service_name@ + seq![':'] + decimal(id as nat),
{
    let mut v = str_chars(service_name);
    v.push(':');
    let digits = format_u64(id as u64);
    let ghost start = v@;
    let mut i: usize = 0;
    while i < digits.len()
        invariant
            i <= digits@.len(),
            v@ == start + digits@.take(i as int),
        decreases digits@.len() - i,
    {
        v.push(digits[i]);
        i = i + 1;
        assert(v@ =~= start + digits@.take(i as int));
    }
    assert(digits@.take(digits@.len() as int) =~= digits@);
    string_from_chars(v.as_slice())
}

/// Calls `rand::random::<u32>()`: a number drawn by the thread's random
/// generator. Any `u32` may come back, so nothing is stated of it.
#[verifier::external_body]
fn random_u32() -> (r: u32) {
    rand::random::<u32>()
}

/// The key of a new instance of a service: the service name and a random
/// instance id, as `<service name>:<id>`.
pub fn new_instance_key(service_name: &str) -> (r: String)
    ensures
        exists|id: u32| r@ == service_name@ + seq![':'] + decimal(id as nat),
{
    let id = random_u32();
    instance_key(service_name, id)
}

} // verus!
