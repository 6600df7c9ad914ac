//! Middleware clients and their settings (etcd, Apollo, Redis, Consul), and
//! the verdict of role mapping on a request.
use crate::text::{split_char, split_chars, str_chars, string_from_chars};
use casbin::CoreApi;
use vstd::prelude::*;

verus! {

/// The etcd endpoints used when none are configured.
pub const DEFAULT_ETCD_ENDPOINTS: &'static str = "127.0.0.1:2379";

/// The Redis address used when none is configured.
pub const DEFAULT_REDIS_DSN: &'static str = "redis://127.0.0.1/";

/// The Apollo configuration format used when none is configured.
pub const DEFAULT_APOLLO_CONFIG_TYPE: &'static str = "yaml";

/// The Apollo cluster used when none is configured.
pub const DEFAULT_APOLLO_CLUSTER_NAME: &'static str = "default";

/// The settings of an etcd client.
#[derive(Clone, Debug)]
pub struct EtcdConf {
    /// User name and password, when the cluster asks for them.
    pub user: Option<(String, String)>,
    pub endpoints: Vec<String>,
    pub keep_alive_while_idle: bool,
}

impl EtcdConf {
    /// The settings for the endpoints of a `|`-separated list, without a
    /// user, keeping connections alive while idle.
    pub fn from_endpoints(list: &str) -> (r: Self)
        ensures
            r.user is None,
            r.keep_alive_while_idle,
            r.endpoints@.len() == split_char(list@, '|').len(),
            forall|i: int|
                0 <= i < r.endpoints@.len() ==> #[trigger] r.endpoints@[i]@ == split_char(
                    list@,
                    '|',
                )[i],
    {
        let c = str_chars(list);
        let pieces = split_chars(c.as_slice(), '|');
        let mut endpoints: Vec<String> = Vec::new();
        let mut i: usize = 0;
        while i < pieces.len()
            invariant
                i <= pieces@.len(),
                endpoints@.len() == i,
                forall|k: int| 0 <= k < i ==> #[trigger] endpoints@[k]@ == pieces@[k]@,
            decreases pieces@.len() - i,
        {
            endpoints.push(string_from_chars(pieces[i].as_slice()));
            i = i + 1;
        }
        EtcdConf { user: None, endpoints, keep_alive_while_idle: true }
    }
}

/// The settings of an Apollo configuration client.
#[derive(Clone, Debug)]
pub struct ApolloConf {
    pub addr: String,
    pub appid: String,
    pub namespace: String,
    pub config_type: String,
    pub cluster_name: String,
    pub secret: Option<String>,
}

/// The Redis address to use: the configured one, or the default.
pub fn default_dsn(configured: Option<String>) -> (r: String)
    ensures
        configured matches Some(v) ==> r@ == v@,
        configured is None ==> r@ == DEFAULT_REDIS_DSN@,
{
    match configured {
        Some(v) => v,
        None => DEFAULT_REDIS_DSN.to_string(),
    }
}

/// The settings of a Redis client.
#[derive(Clone, Debug)]
pub struct RedisConf {
    pub dsn: String,
}

/// The settings of a Consul client.
#[derive(Clone, Debug)]
pub struct ConsulConf {
    pub addr: String,
}

/// An Apollo client maker.
pub struct Apollo(ApolloConf);

impl Apollo {
    /// The settings the client is made with.
    pub closed spec fn spec_conf(&self) -> ApolloConf {
        self.0
    }

    pub fn new(conf: ApolloConf) -> (r: Self)
        ensures
            r.spec_conf() == conf,
    {
        Apollo(conf)
    }

    pub fn conf(&self) -> (r: &ApolloConf)
        ensures
            *r == self.spec_conf(),
    {
        &self.0
    }
}

/// An etcd client maker.
pub struct Etcd(EtcdConf);

impl Etcd {
    /// The settings the client is made with.
    pub closed spec fn spec_conf(&self) -> EtcdConf {
        self.0
    }

    pub fn new(conf: EtcdConf) -> (r: Self)
        ensures
            r.spec_conf() == conf,
    {
        Etcd(conf)
    }

    pub fn conf(&self) -> (r: &EtcdConf)
        ensures
            *r == self.spec_conf(),
    {
        &self.0
    }
}

/// A Redis client maker.
pub struct Redis(RedisConf);

impl Redis {
    /// The settings the client is made with.
    pub closed spec fn spec_conf(&self) -> RedisConf {
        self.0
    }

    pub fn new(conf: RedisConf) -> (r: Self)
        ensures
            r.spec_conf() == conf,
    {
        Redis(conf)
    }

    pub fn conf(&self) -> (r: &RedisConf)
        ensures
            *r == self.spec_conf(),
    {
        &self.0
    }
}

/// What the access-control enforcer answered for a request.
#[derive(Clone, Copy, Debug, PartialEq, Eq, Structural)]
pub enum EnforceOutcome {
    /// The subject may act on the object.
    Allowed,
    /// The subject may not.
    Denied,
    /// The enforcer failed.
    Failed,
}

/// What becomes of a request after access control.
#[derive(Clone, Copy, Debug, PartialEq, Eq, Structural)]
pub enum Verdict {
    /// Hand it on to the service.
    Forward,
    /// Answer at once with this HTTP status and an empty body.
    Answer(u16),
}

/// The verdict on a request: an allowed one is handed on, a denied one is
/// answered with `denied_status` (401 behind the authentication middleware,
/// 403 in the role-mapping layer), and an enforcer failure with 500.
pub fn role_mapping_verdict(outcome: EnforceOutcome, denied_status: u16) -> (r: Verdict)
    ensures
        r == (match outcome {
            EnforceOutcome::Allowed => Verdict::Forward,
            EnforceOutcome::Denied => Verdict::Answer(denied_status),
            EnforceOutcome::Failed => Verdict::Answer(500),
        }),
{
    match outcome {
        EnforceOutcome::Allowed => Verdict::Forward,
        EnforceOutcome::Denied => Verdict::Answer(denied_status),
        EnforceOutcome::Failed => Verdict::Answer(500),
    }
}

#[verifier::external_type_specification]
#[verifier::external_body]
pub struct ExEnforcer(casbin::Enforcer);

/// Calls `casbin::CoreApi::enforce` with `(sub, obj, act)`: whether the
/// enforcer's model and policies allow the subject to act on the object, or
/// `None` when the enforcer fails. The answer rests on the policies the
/// enforcer holds, which Verus does not see, so nothing is stated of it.
#[verifier::external_body]
fn enforce(enforcer: &casbin::Enforcer, sub: &str, obj: &str, act: &str) -> (r: Option<bool>) {
    enforcer.enforce((sub, obj, act)).ok()
}

/// The verdict on the enforcer's answer: allowed (`Some(true)`) is handed
/// on, denied (`Some(false)`) is answered with `denied_status`, and a failure
/// of the enforcer (`None`) with 500.
pub open spec fn verdict_of_answer(answer: Option<bool>, denied_status: u16) -> Verdict {
    match answer {
        Some(true) => Verdict::Forward,
        Some(false) => Verdict::Answer(denied_status),
        None => Verdict::Answer(500),
    }
}

/// The verdict on the enforcer's answer.
pub fn answer_verdict(answer: Option<bool>, denied_status: u16) -> (r: Verdict)
    ensures
        r == verdict_of_answer(answer, denied_status),
{
    let outcome = match answer {
        Some(true) => EnforceOutcome::Allowed,
        Some(false) => EnforceOutcome::Denied,
        None => EnforceOutcome::Failed,
    };
    role_mapping_verdict(outcome, denied_status)
}

/// The verdict of access control on a request of `user` (the empty subject
/// when there is none) for the path `obj` with the method `act`: the enforcer
/// is asked once, with the subject `role_subject` gives and the path and
/// method as they came, and its answer becomes the verdict `answer_verdict`
/// gives.
pub fn enforce_request(
    enforcer: &casbin::Enforcer,
    user: Option<String>,
    obj: &str,
    act: &str,
    denied_status: u16,
) -> (r: Verdict)
    ensures
        exists|answer: Option<bool>| r == verdict_of_answer(answer, denied_status),
{
    let sub = role_subject(user);
    let answer = enforce(enforcer, sub.as_str(), obj, act);
    answer_verdict(answer, denied_status)
}

/// The subject access control checks: the authenticated user's name, or the
/// empty name when the request carries no user.
pub fn role_subject(user: Option<String>) -> (r: String)
    ensures
        user matches Some(u) ==> r@ == u@,
        user is None ==> r@ == Seq::<char>::empty(),
{
    match user {
        Some(u) => u,
        None => String::new(),
    }
}

} // verus!
