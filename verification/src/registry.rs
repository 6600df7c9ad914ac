//! Registering a service under a domain and discovering the services of a
//! domain: the options of a registry, what a registration writes, and how
//! watched changes become changes of the set of endpoints.
use crate::config::service::ServiceConf;
use crate::middleware::{ConsulConf, EtcdConf};
use crate::text::{str_chars, string_from_chars};
use std::str::FromStr;
use vstd::prelude::*;

verus! {

/// The lease a registration is granted by default, in seconds.
pub const DEFAULT_GRANT_TTL: i64 = 61;

/// How often the lease is kept alive by default, in seconds.
pub const DEFAULT_KEEP_ALIVE_INTERVAL: u64 = 20;

/// How an etcd registry is used: to register a service (and discover), or
/// only to discover.
#[derive(Clone, Debug)]
pub enum EtcdRegistryOption {
    Register { etcd: EtcdConf, service: ServiceConf, grant_ttl: i64, keep_alive_interval: u64 },
    Discover { etcd: EtcdConf },
}

impl EtcdRegistryOption {
    /// Discovering only.
    pub fn discover(etcd: EtcdConf) -> (r: Self)
        ensures
            r == (EtcdRegistryOption::Discover { etcd }),
    {
        EtcdRegistryOption::Discover { etcd }
    }

    /// Registering the service, with the default lease and keep-alive interval.
    pub fn register(etcd: EtcdConf, service: ServiceConf) -> (r: Self)
        ensures
            r == (EtcdRegistryOption::Register {
                etcd,
                service,
                grant_ttl: DEFAULT_GRANT_TTL,
                keep_alive_interval: DEFAULT_KEEP_ALIVE_INTERVAL,
            }),
    {
        EtcdRegistryOption::Register {
            etcd,
            service,
            grant_ttl: DEFAULT_GRANT_TTL,
            keep_alive_interval: DEFAULT_KEEP_ALIVE_INTERVAL,
        }
    }

    /// The option with the lease set to `ttl` seconds; a discovering option
    /// has no lease and stays as it is.
    pub fn grant_ttl(self, ttl: i64) -> (r: Self)
        ensures
            r == with_grant_ttl(self, ttl),
    {
        match self {
            EtcdRegistryOption::Register { etcd, service, grant_ttl: _, keep_alive_interval } =>
                EtcdRegistryOption::Register { etcd, service, grant_ttl: ttl, keep_alive_interval },
            EtcdRegistryOption::Discover { etcd } => EtcdRegistryOption::Discover { etcd },
        }
    }

    /// The option with the keep-alive interval set to `kai` seconds; a
    /// discovering option stays as it is.
    pub fn keep_alive_interval(self, kai: u64) -> (r: Self)
        ensures
            r == with_keep_alive_interval(self, kai),
    {
        match self {
            EtcdRegistryOption::Register { etcd, service, grant_ttl, keep_alive_interval: _ } =>
                EtcdRegistryOption::Register { etcd, service, grant_ttl, keep_alive_interval: kai },
            EtcdRegistryOption::Discover { etcd } => EtcdRegistryOption::Discover { etcd },
        }
    }

    /// The etcd settings, whichever the use.
    pub fn etcd(&self) -> (r: &EtcdConf)
        ensures
            *r == (match self {
                EtcdRegistryOption::Register { etcd, .. } => *etcd,
                EtcdRegistryOption::Discover { etcd } => *etcd,
            }),
    {
        match self {
            EtcdRegistryOption::Register { etcd, .. } => etcd,
            EtcdRegistryOption::Discover { etcd } => etcd,
        }
    }
}

/// The option with its lease set.
pub open spec fn with_grant_ttl(o: EtcdRegistryOption, ttl: i64) -> EtcdRegistryOption {
    match o {
        EtcdRegistryOption::Register { etcd, service, grant_ttl: _, keep_alive_interval } =>
            EtcdRegistryOption::Register { etcd, service, grant_ttl: ttl, keep_alive_interval },
        EtcdRegistryOption::Discover { etcd } => EtcdRegistryOption::Discover { etcd },
    }
}

/// The option with its keep-alive interval set.
pub open spec fn with_keep_alive_interval(o: EtcdRegistryOption, kai: u64) -> EtcdRegistryOption {
    match o {
        EtcdRegistryOption::Register { etcd, service, grant_ttl, keep_alive_interval: _ } =>
            EtcdRegistryOption::Register { etcd, service, grant_ttl, keep_alive_interval: kai },
        EtcdRegistryOption::Discover { etcd } => EtcdRegistryOption::Discover { etcd },
    }
}

/// Setting the lease and setting the keep-alive interval do not interfere:
/// either order gives the same option, and the later of two settings of the
/// same value wins.
pub proof fn lemma_option_setters(o: EtcdRegistryOption, ttl: i64, ttl2: i64, kai: u64)
    ensures
        with_keep_alive_interval(with_grant_ttl(o, ttl), kai) == with_grant_ttl(
            with_keep_alive_interval(o, kai),
            ttl,
        ),
        with_grant_ttl(with_grant_ttl(o, ttl), ttl2) == with_grant_ttl(o, ttl2),
        o is Discover ==> with_grant_ttl(o, ttl) == o && with_keep_alive_interval(o, kai) == o,
{
}

/// How a Consul registry is used.
#[derive(Clone, Debug)]
pub enum ConsulRegistryOption {
    Register { consul: ConsulConf, service: ServiceConf },
    Discover { consul: ConsulConf },
}

/// A service registry backed by etcd.
#[derive(Debug)]
pub struct EtcdRegistry(EtcdRegistryOption);

impl EtcdRegistry {
    pub closed spec fn option(&self) -> EtcdRegistryOption {
        self.0
    }

    pub fn new(conf: EtcdRegistryOption) -> (r: Self)
        ensures
            r.option() == conf,
    {
        EtcdRegistry(conf)
    }

    /// A registry that only discovers.
    pub fn discover(etcd: EtcdConf) -> (r: Self)
        ensures
            r.option() == (EtcdRegistryOption::Discover { etcd }),
    {
        EtcdRegistry(EtcdRegistryOption::discover(etcd))
    }

    /// A registry that registers the service, with the default lease.
    pub fn register(etcd: EtcdConf, service: ServiceConf) -> (r: Self)
        ensures
            r.option() == (EtcdRegistryOption::Register {
                etcd,
                service,
                grant_ttl: DEFAULT_GRANT_TTL,
                keep_alive_interval: DEFAULT_KEEP_ALIVE_INTERVAL,
            }),
    {
        EtcdRegistry(EtcdRegistryOption::register(etcd, service))
    }

    /// The etcd settings the registry connects with.
    pub fn etcd(&self) -> (r: &EtcdConf)
        ensures
            *r == (match self.option() {
                EtcdRegistryOption::Register { etcd, .. } => etcd,
                EtcdRegistryOption::Discover { etcd } => etcd,
            }),
    {
        self.0.etcd()
    }

    /// Whether the registry registers (and does not only discover).
    pub fn registers(&self) -> (r: bool)
        ensures
            r == self.option() is Register,
    {
        match &self.0 {
            EtcdRegistryOption::Register { .. } => true,
            EtcdRegistryOption::Discover { .. } => false,
        }
    }

    /// What registering the service under `domain` writes: the key
    /// `<domain>:<service name>` holding the service's discover address,
    /// under a lease of `grant_ttl` seconds kept alive every
    /// `keep_alive_interval` seconds. A registry that only discovers cannot
    /// register (registering with one is a programming error).
    pub fn registration(&self, domain: &str) -> (r: Registration)
        requires
            self.option() is Register,
        ensures
            self.option() matches EtcdRegistryOption::Register {
                service,
                grant_ttl,
                keep_alive_interval,
                ..
            } && r.key@ == service_key(domain@, service.name@) && r.value@ == service.discover_addr@
                && r.grant_ttl == grant_ttl && r.keep_alive_interval == keep_alive_interval,
    {
        match &self.0 {
            EtcdRegistryOption::Register { service, grant_ttl, keep_alive_interval, .. } => {
                let key = service_key_text(domain, service.name.as_str());
                Registration {
                    key,
                    value: service.discover_addr.clone(),
                    grant_ttl: *grant_ttl,
                    keep_alive_interval: *keep_alive_interval,
                }
            },
            EtcdRegistryOption::Discover { .. } => {
                proof {
                    assert(false);
                }
                Registration { key: String::new(), value: String::new(), grant_ttl: 0, keep_alive_interval: 0 }
            },
        }
    }
}

/// What a registration writes.
#[derive(Debug)]
pub struct Registration {
    pub key: String,
    pub value: String,
    pub grant_ttl: i64,
    pub keep_alive_interval: u64,
}

/// The key a service is registered under: `<domain>:<name>`.
pub open spec fn service_key(domain: Seq<char>, name: Seq<char>) -> Seq<char> {
    domain + seq![':'] + name
}

/// The key a service is registered under.
pub fn service_key_text(domain: &str, name: &str) -> (r: String)
    ensures
        r@ == service_key(domain@, name@),
{
    let mut v = str_chars(domain);
    v.push(':');
    let n = str_chars(name);
    let ghost start = v@;
    let mut i: usize = 0;
    while i < n.len()
        invariant
            i <= n@.len(),
            v@ == start + n@.take(i as int),
        decreases n@.len() - i,
    {
        v.push(n[i]);
        i = i + 1;
        assert(v@ =~= start + n@.take(i as int));
    }
    assert(n@.take(n@.len() as int) =~= n@);
    string_from_chars(v.as_slice())
}

/// A change seen while watching the keys of a domain.
#[derive(Debug)]
pub enum WatchEvent {
    /// The key was written with the value.
    Put { key: String, value: String },
    /// The key was deleted.
    Delete { key: String },
}

/// A change of the set of known endpoints.
#[derive(Debug)]
pub enum EndpointChange {
    /// The service under the key is (now) reached at the endpoint.
    Insert(String, String),
    /// The service under the key is gone.
    Remove(String),
}

/// How a watched change changes the known endpoints: a written key inserts
/// its value as the endpoint, when the value is a valid endpoint address
/// (otherwise the change is skipped); a deleted key removes its service.
pub fn endpoint_change(event: WatchEvent, value_is_endpoint: bool) -> (r: Option<EndpointChange>)
    ensures
        (match event {
            WatchEvent::Put { key, value } => if value_is_endpoint {
                r matches Some(EndpointChange::Insert(k, v)) && k == key && v == value
            } else {
                r is None
            },
            WatchEvent::Delete { key } => r matches Some(EndpointChange::Remove(k)) && k == key,
        }),
{
    match event {
        WatchEvent::Put { key, value } => {
            if value_is_endpoint {
                Some(EndpointChange::Insert(key, value))
            } else {
                None
            }
        },
        WatchEvent::Delete { key } => Some(EndpointChange::Remove(key)),
    }
}

/// Whether `tonic::transport::Endpoint` accepts a text as an endpoint
/// address (it does when the text parses as a URI).
pub uninterp spec fn endpoint_accepted(value: Seq<char>) -> bool;

/// Calls `<tonic::transport::Endpoint as FromStr>::from_str` and tells
/// whether it accepted the text. The contract ties the answer to the name
/// `endpoint_accepted` of the text.
#[verifier::external_body]
fn parses_as_endpoint(value: &str) -> (r: bool)
    ensures
        r == endpoint_accepted(value@),
{
    <tonic::transport::Endpoint as FromStr>::from_str(value).is_ok()
}

/// The change of the known endpoints a watched change makes: a written key
/// inserts its value as the endpoint when the value is an endpoint address
/// (otherwise the change is skipped); a deleted key removes its service.
pub fn watch_change(event: WatchEvent) -> (r: Option<EndpointChange>)
    ensures
        (match event {
            WatchEvent::Put { key, value } => if endpoint_accepted(value@) {
                r matches Some(EndpointChange::Insert(k, v)) && k == key && v == value
            } else {
                r is None
            },
            WatchEvent::Delete { key } => r matches Some(EndpointChange::Remove(k)) && k == key,
        }),
        r == event_change(event),
{
    let accepted = match &event {
        WatchEvent::Put { value, .. } => parses_as_endpoint(value.as_str()),
        WatchEvent::Delete { .. } => false,
    };
    endpoint_change(event, accepted)
}

/// The key/value pairs whose value is an endpoint address, in their order.
pub open spec fn accepted_pairs(pairs: Seq<(String, String)>) -> Seq<(String, String)>
    decreases pairs.len(),
{
    if pairs.len() == 0 {
        Seq::empty()
    } else {
        let rest = accepted_pairs(pairs.drop_last());
        if endpoint_accepted(pairs.last().1@) {
            rest.push(pairs.last())
        } else {
            rest
        }
    }
}

/// The accepted pairs of pairs one after the other are those of the first
/// pairs followed by those of the later ones: each pair is kept or skipped
/// by its own value, in order.
pub proof fn lemma_accepted_pairs_concat(a: Seq<(String, String)>, b: Seq<(String, String)>)
    ensures
        accepted_pairs(a + b) == accepted_pairs(a) + accepted_pairs(b),
    decreases b.len(),
{
    if b.len() == 0 {
        assert(a + b =~= a);
        assert(accepted_pairs(a) + accepted_pairs(b) =~= accepted_pairs(a));
    } else {
        lemma_accepted_pairs_concat(a, b.drop_last());
        assert((a + b).drop_last() =~= a + b.drop_last());
        assert((a + b).last() == b.last());
        if endpoint_accepted(b.last().1@) {
            assert((accepted_pairs(a) + accepted_pairs(b.drop_last())).push(b.last()) =~= accepted_pairs(a)
                + accepted_pairs(b.drop_last()).push(b.last()));
        }
    }
}

/// A single pair is kept exactly when its value is an endpoint address.
pub proof fn lemma_accepted_pairs_single(pair: (String, String))
    ensures
        accepted_pairs(seq![pair]) == (if endpoint_accepted(pair.1@) {
            seq![pair]
        } else {
            Seq::<(String, String)>::empty()
        }),
{
    assert(seq![pair].drop_last() =~= Seq::<(String, String)>::empty());
    assert(seq![pair].last() == pair);
    assert(accepted_pairs(Seq::<(String, String)>::empty()) == Seq::<(String, String)>::empty());
    assert(Seq::<(String, String)>::empty().push(pair) =~= seq![pair]);
}

/// The change inserts the pair's value as the endpoint of the pair's key.
pub open spec fn inserts_pair(c: EndpointChange, pair: (String, String)) -> bool {
    c matches EndpointChange::Insert(k, v) && k@ == pair.0@ && v@ == pair.1@
}

/// The endpoints that the key/value pairs read at the start of discovery
/// insert: one insertion for each pair whose value is an endpoint address,
/// in the order of the pairs; the others are skipped.
pub fn initial_changes(pairs: Vec<(String, String)>) -> (r: Vec<EndpointChange>)
    ensures
        r@.len() == accepted_pairs(pairs@).len(),
        forall|i: int| 0 <= i < r@.len() ==> inserts_pair(#[trigger] r@[i], accepted_pairs(pairs@)[i]),
{
    let mut out: Vec<EndpointChange> = Vec::new();
    let ghost all = pairs@;
    let n = pairs.len();
    let mut i: usize = 0;
    while i < n
        invariant
            all == pairs@,
            n == all.len(),
            i <= n,
            out@.len() == accepted_pairs(all.take(i as int)).len(),
            forall|j: int|
                0 <= j < out@.len() ==> inserts_pair(#[trigger] out@[j], accepted_pairs(all.take(i as int))[j]),
        decreases n - i,
    {
        proof {
            assert(all.take(i + 1).drop_last() =~= all.take(i as int));
            assert(all.take(i + 1).last() == all[i as int]);
        }
        let ghost acc = accepted_pairs(all.take(i as int));
        let ghost before = out@;
        let key = pairs[i].0.clone();
        let value = pairs[i].1.clone();
        let ghost kv = key@;
        let ghost vv = value@;
        match watch_change(WatchEvent::Put { key, value }) {
            Some(change) => {
                out.push(change);
                proof {
                    assert(accepted_pairs(all.take(i + 1)) == acc.push(all[i as int]));
                    assert forall|j: int| 0 <= j < out@.len() implies inserts_pair(
                        #[trigger] out@[j],
                        accepted_pairs(all.take(i + 1))[j],
                    ) by {
                        if j < before.len() {
                            assert(out@[j] == before[j]);
                        }
                    }
                }
            },
            None => {
                proof {
                    assert(accepted_pairs(all.take(i + 1)) == acc);
                }
            },
        }
        i = i + 1;
    }
    assert(all.take(n as int) =~= all);
    out
}

/// The change a watched event makes, if any (see `watch_change`).
pub open spec fn event_change(event: WatchEvent) -> Option<EndpointChange> {
    match event {
        WatchEvent::Put { key, value } => if endpoint_accepted(value@) {
            Some(EndpointChange::Insert(key, value))
        } else {
            None
        },
        WatchEvent::Delete { key } => Some(EndpointChange::Remove(key)),
    }
}

/// The changes the events make, in their order (events that make none are
/// skipped).
pub open spec fn event_changes(events: Seq<WatchEvent>) -> Seq<EndpointChange>
    decreases events.len(),
{
    if events.len() == 0 {
        Seq::empty()
    } else {
        let rest = event_changes(events.drop_first());
        match event_change(events[0]) {
            Some(c) => seq![c] + rest,
            None => rest,
        }
    }
}

/// The changes of events one after the other are the changes of the first
/// events followed by those of the later ones: every event of an answer
/// makes its change, in order, whatever came before it.
pub proof fn lemma_event_changes_concat(a: Seq<WatchEvent>, b: Seq<WatchEvent>)
    ensures
        event_changes(a + b) == event_changes(a) + event_changes(b),
    decreases a.len(),
{
    if a.len() == 0 {
        assert(a + b =~= b);
        assert(event_changes(a) + event_changes(b) =~= event_changes(b));
    } else {
        lemma_event_changes_concat(a.drop_first(), b);
        assert((a + b)[0] == a[0]);
        assert((a + b).drop_first() =~= a.drop_first() + b);
        match event_change(a[0]) {
            Some(c) => {
                assert(seq![c] + (event_changes(a.drop_first()) + event_changes(b)) =~= (seq![c]
                    + event_changes(a.drop_first())) + event_changes(b));
            },
            None => {},
        }
    }
}

/// A single event makes its own change: a deleted key removes its service,
/// a written key inserts its value when the value is an endpoint address,
/// and nothing otherwise.
pub proof fn lemma_event_changes_single(e: WatchEvent)
    ensures
        event_changes(seq![e]) == (match e {
            WatchEvent::Delete { key } => seq![EndpointChange::Remove(key)],
            WatchEvent::Put { key, value } => if endpoint_accepted(value@) {
                seq![EndpointChange::Insert(key, value)]
            } else {
                Seq::<EndpointChange>::empty()
            },
        }),
{
    assert(seq![e].drop_first() =~= Seq::<WatchEvent>::empty());
    assert(event_changes(Seq::<WatchEvent>::empty()) == Seq::<EndpointChange>::empty());
    match event_change(e) {
        Some(c) => {
            assert(seq![c] + Seq::<EndpointChange>::empty() =~= seq![c]);
        },
        None => {},
    }
}

/// An answer of the etcd watch: whether the watch was canceled, and the
/// events it carries, in order.
#[derive(Debug)]
pub struct WatchResponse {
    pub canceled: bool,
    pub events: Vec<WatchEvent>,
}

/// What a discovery does with an answer of the watch.
#[derive(Debug)]
pub enum WatchStep {
    /// The watch was canceled: stop forwarding.
    Stop,
    /// Forward these changes, in this order, and keep watching.
    Forward(Vec<EndpointChange>),
}

/// The step of a discovery on an answer of the watch: a canceled watch
/// stops it; otherwise the changes of the answer's events are forwarded, in
/// order.
pub fn watch_step(response: WatchResponse) -> (r: WatchStep)
    ensures
        response.canceled ==> r is Stop,
        !response.canceled ==> (r matches WatchStep::Forward(c) && c@ == event_changes(
            response.events@,
        )),
{
    if response.canceled {
        return WatchStep::Stop;
    }
    let mut events = response.events;
    let ghost all = events@;
    let mut out: Vec<EndpointChange> = Vec::new();
    while events.len() > 0
        invariant
            out@ + event_changes(events@) == event_changes(all),
        decreases events@.len(),
    {
        let ghost before = events@;
        let e = events.remove(0);
        proof {
            assert(events@ =~= before.drop_first());
        }
        match watch_change(e) {
            Some(c) => {
                let ghost o = out@;
                out.push(c);
                assert(out@ + event_changes(events@) =~= o + (seq![c] + event_changes(events@)));
            },
            None => {},
        }
    }
    assert(out@ + event_changes(events@) =~= out@);
    WatchStep::Forward(out)
}

/// The changes a discovery forwards for the answers of the watch, in order:
/// those of each answer's events, until an answer says the watch was
/// canceled.
pub open spec fn forwarded(responses: Seq<WatchResponse>) -> Seq<EndpointChange>
    decreases responses.len(),
{
    if responses.len() == 0 || responses[0].canceled {
        Seq::empty()
    } else {
        event_changes(responses[0].events@) + forwarded(responses.drop_first())
    }
}

/// Nothing is forwarded after a canceled answer: what comes later changes
/// nothing; and answers before it are forwarded in order.
pub proof fn lemma_forwarded_stops(before: Seq<WatchResponse>, canceled: WatchResponse, after: Seq<WatchResponse>)
    requires
        canceled.canceled,
    ensures
        forwarded(before + seq![canceled] + after) == forwarded(before + seq![canceled]),
    decreases before.len(),
{
    if before.len() == 0 {
        assert((before + seq![canceled] + after)[0] == canceled);
        assert((before + seq![canceled])[0] == canceled);
    } else {
        let whole = before + seq![canceled] + after;
        let part = before + seq![canceled];
        assert(whole[0] == before[0]);
        assert(part[0] == before[0]);
        lemma_forwarded_stops(before.drop_first(), canceled, after);
        assert(whole.drop_first() =~= before.drop_first() + seq![canceled] + after);
        assert(part.drop_first() =~= before.drop_first() + seq![canceled]);
    }
}

/// Forwarding answers one after the other forwards what each step forwards,
/// in order: the changes of a later answer come after those of an earlier.
pub proof fn lemma_forwarded_push(responses: Seq<WatchResponse>, next: WatchResponse)
    requires
        forall|i: int| 0 <= i < responses.len() ==> !(#[trigger] responses[i]).canceled,
    ensures
        forwarded(responses.push(next)) == forwarded(responses) + (if next.canceled {
            Seq::empty()
        } else {
            event_changes(next.events@)
        }),
    decreases responses.len(),
{
    let extra: Seq<EndpointChange> = if next.canceled {
        Seq::empty()
    } else {
        event_changes(next.events@)
    };
    if responses.len() == 0 {
        assert(responses.push(next)[0] == next);
        assert(responses.push(next).drop_first() =~= Seq::<WatchResponse>::empty());
        assert(forwarded(responses.push(next).drop_first()) == Seq::<EndpointChange>::empty());
        assert(forwarded(responses) == Seq::<EndpointChange>::empty());
        assert(forwarded(responses.push(next)) =~= forwarded(responses) + extra);
    } else {
        let rest = responses.drop_first();
        assert forall|i: int| 0 <= i < rest.len() implies !(#[trigger] rest[i]).canceled by {
            assert(rest[i] == responses[i + 1]);
        }
        lemma_forwarded_push(rest, next);
        assert(responses.push(next)[0] == responses[0]);
        assert(responses.push(next).drop_first() =~= rest.push(next));
        assert(!responses[0].canceled);
        let head = event_changes(responses[0].events@);
        assert(forwarded(responses.push(next)) == head + forwarded(rest.push(next)));
        assert(forwarded(responses) == head + forwarded(rest));
        assert(head + (forwarded(rest) + extra) =~= (head + forwarded(rest)) + extra);
    }
}

} // verus!
