use vstd::prelude::*;

use crate::dispatch::{Dispatch, ResolveDispatch, StreamingDispatch};
use crate::error::Error;
use crate::graph::{decode_graph, graph_wire, EventGraph};
use crate::protocol::{decode_remote_error, error_branch, ERROR, VALUE};
use crate::value::{distinct_keys, distinct_names, has_key, has_name, is_str, Value};

verus! {

/// Method code of the resolve call.
pub const RESOLVE: u64 = 0;

/// Method code of the routing subscription.
pub const ROUTING: u64 = 5;

/// A resolve reply as it stands on the wire: `(ip, port)` pairs, the
/// service's version, and the event graph of each method.
#[derive(Debug, PartialEq)]
pub struct ResolveInfo {
    pub endpoints: Vec<(String, u16)>,
    pub version: u64,
    pub methods: Vec<(u64, EventGraph)>,
}

/// A socket address: the host's address as the text the reply gave, and a
/// port. The text is not checked here to be an IP address literal; turning
/// it into a std socket address, which rejects any other text, is left to
/// the caller that opens connections.
#[derive(Debug, Clone, PartialEq, Eq)]
pub struct Endpoint {
    pub ip: String,
    pub port: u16,
}

/// A resolved service: the addresses it listens on, its version, and the
/// event graph of each method.
#[derive(Debug, PartialEq)]
pub struct Info {
    pub endpoints: Vec<Endpoint>,
    pub version: u64,
    pub methods: Vec<(u64, EventGraph)>,
}

/// An ordered ring of `(hash, node)` pairs, in wire order.
pub type HashRing = Vec<(u64, String)>;

/// One routing snapshot: the ring of each application, in wire order.
pub type RoutingTable = Vec<(String, HashRing)>;

/// `v` is the wire form of the address `(ip, port)`: the array `[ip, port]`.
pub open spec fn endpoint_wire(v: Value, ip: Seq<char>, port: u16) -> bool {
    &&& v matches Value::Array(f)
    &&& f@.len() == 2
    &&& is_str(f@[0], ip)
    &&& f@[1] == Value::UInt(port as u64)
}

/// `v` is the wire form of the method table `m`, in order. A map that repeats
/// a key is the wire form of no table: decoding it fails, rather than keeping
/// one of the entries.
pub open spec fn methods_wire(v: Value, m: Seq<(u64, EventGraph)>) -> bool {
    &&& v matches Value::Dict(es)
    &&& es@.len() == m.len()
    &&& distinct_keys(m)
    &&& forall|i: int|
        0 <= i < m.len() ==> {
            &&& #[trigger] es@[i].0 == Value::UInt(m[i].0)
            &&& graph_wire(es@[i].1, m[i].1)
        }
}

/// The address list of a resolve payload `[endpoints, version, methods]`.
pub open spec fn wire_endpoints(v: Value) -> Seq<Value> {
    (v->Array_0)@[0]->Array_0@
}

/// `v` is the wire form of `r`: the array `[endpoints, version, methods]`,
/// with at least one address. A reply that names no address resolves nothing
/// and is the wire form of no resolve reply.
pub open spec fn resolve_info_wire(v: Value, r: ResolveInfo) -> bool {
    &&& v matches Value::Array(f)
    &&& f@.len() == 3
    &&& f@[0] is Array
    &&& r.endpoints@.len() > 0
    &&& wire_endpoints(v).len() == r.endpoints@.len()
    &&& forall|i: int|
        0 <= i < r.endpoints@.len() ==> #[trigger] endpoint_wire(
            wire_endpoints(v)[i],
            r.endpoints@[i].0@,
            r.endpoints@[i].1,
        )
    &&& f@[1] == Value::UInt(r.version)
    &&& methods_wire(f@[2], r.methods@)
}

/// `v` is the wire form of a resolve reply whose addresses, version and
/// methods are those of `info`, address for address in order; there is at
/// least one address.
pub open spec fn info_wire(v: Value, info: Info) -> bool {
    &&& v matches Value::Array(f)
    &&& f@.len() == 3
    &&& f@[0] is Array
    &&& info.endpoints@.len() > 0
    &&& wire_endpoints(v).len() == info.endpoints@.len()
    &&& forall|i: int|
        0 <= i < info.endpoints@.len() ==> #[trigger] endpoint_wire(
            wire_endpoints(v)[i],
            info.endpoints@[i].ip@,
            info.endpoints@[i].port,
        )
    &&& f@[1] == Value::UInt(info.version)
    &&& methods_wire(f@[2], info.methods@)
}

/// What a frame of the resolve call delivers: on the value branch the info
/// that the payload is the wire form of, or `Error::Decode`; on the error
/// branch the remote error; on any other message type `Error::Decode`.
pub open spec fn resolve_outcome(ty: u64, v: Value, r: Result<Info, Error>) -> bool {
    if ty == VALUE {
        match r {
            Ok(info) => info_wire(v, info),
            Err(e) => e == Error::Decode && forall|ri: ResolveInfo| !resolve_info_wire(v, ri),
        }
    } else if ty == ERROR {
        r matches Err(e) && error_branch(v, e)
    } else {
        r == Err::<Info, Error>(Error::Decode)
    }
}

/// `v` is the wire form of the ring `ring`: an array of `[hash, node]` pairs,
/// in order.
pub open spec fn ring_wire(v: Value, ring: Seq<(u64, String)>) -> bool {
    &&& v matches Value::Array(ps)
    &&& ps@.len() == ring.len()
    &&& forall|i: int|
        0 <= i < ring.len() ==> {
            &&& (#[trigger] ps@[i]) matches Value::Array(p)
            &&& p@.len() == 2
            &&& p@[0] == Value::UInt(ring[i].0)
            &&& is_str(p@[1], ring[i].1@)
        }
}

/// `v` is the wire form of the routing snapshot `t`: a map from application
/// name to ring, in order. A map that repeats a name is the wire form of no
/// snapshot.
pub open spec fn table_wire(v: Value, t: Seq<(String, HashRing)>) -> bool {
    &&& v matches Value::Dict(es)
    &&& es@.len() == t.len()
    &&& distinct_names(t)
    &&& forall|i: int|
        0 <= i < t.len() ==> {
            &&& is_str(#[trigger] es@[i].0, t[i].0@)
            &&& ring_wire(es@[i].1, t[i].1@)
        }
}

/// Decodes one address `[ip, port]`.
fn decode_endpoint(v: &Value) -> (r: Option<(String, u16)>)
    ensures
        match r {
            Some(p) => endpoint_wire(*v, p.0@, p.1),
            None => forall|ip: Seq<char>, port: u16| !endpoint_wire(*v, ip, port),
        },
{
    match v {
        Value::Array(f) => {
            if f.len() != 2 {
                return None;
            }
            match (&f[0], &f[1]) {
                (Value::Str(ip), Value::UInt(port)) => {
                    if *port <= 65535 {
                        Some((ip.clone(), *port as u16))
                    } else {
                        None
                    }
                },
                _ => None,
            }
        },
        _ => None,
    }
}

/// Decodes the method table `{method: graph, ...}`.
fn decode_methods(v: &Value) -> (r: Option<Vec<(u64, EventGraph)>>)
    ensures
        match r {
            Some(m) => methods_wire(*v, m@),
            None => forall|m: Seq<(u64, EventGraph)>| !methods_wire(*v, m),
        },
{
    match v {
        Value::Dict(es) => {
            let mut out: Vec<(u64, EventGraph)> = Vec::new();
            let mut i: usize = 0;
            while i < es.len()
                invariant
                    i <= es@.len(),
                    out@.len() == i,
                    *v == Value::Dict(*es),
                    distinct_keys(out@),
                    forall|j: int|
                        0 <= j < i ==> {
                            &&& #[trigger] es@[j].0 == Value::UInt(out@[j].0)
                            &&& graph_wire(es@[j].1, out@[j].1)
                        },
                decreases es@.len() - i,
            {
                let k = match &es[i].0 {
                    Value::UInt(k) => *k,
                    _ => {
                        proof {
                            assert forall|m: Seq<(u64, EventGraph)>| !methods_wire(*v, m) by {
                                if methods_wire(*v, m) {
                                    assert(es@[i as int].0 == Value::UInt(m[i as int].0));
                                }
                            }
                        }
                        return None;
                    },
                };
                let g = match decode_graph(&es[i].1) {
                    Some(g) => g,
                    None => {
                        proof {
                            assert forall|m: Seq<(u64, EventGraph)>| !methods_wire(*v, m) by {
                                if methods_wire(*v, m) {
                                    assert(es@[i as int].0 == Value::UInt(m[i as int].0));
                                }
                            }
                        }
                        return None;
                    },
                };
                if let Some(j) = has_key(&out, k) {
                    proof {
                        assert forall|m: Seq<(u64, EventGraph)>| !methods_wire(*v, m) by {
                            if methods_wire(*v, m) {
                                assert(es@[j as int].0 == Value::UInt(m[j as int].0));
                                assert(es@[i as int].0 == Value::UInt(m[i as int].0));
                                assert(m[j as int].0 != m[i as int].0);
                            }
                        }
                    }
                    return None;
                }
                out.push((k, g));
                i = i + 1;
            }
            Some(out)
        },
        _ => None,
    }
}

/// Decodes a resolve payload `[endpoints, version, methods]`; `None` when `v`
/// is the wire form of no resolve reply.
pub fn decode_resolve_info(v: &Value) -> (r: Option<ResolveInfo>)
    ensures
        match r {
            Some(ri) => resolve_info_wire(*v, ri),
            None => forall|ri: ResolveInfo| !resolve_info_wire(*v, ri),
        },
{
    let f = match v {
        Value::Array(f) => f,
        _ => {
            return None;
        },
    };
    if f.len() != 3 {
        return None;
    }
    let eps = match &f[0] {
        Value::Array(eps) => eps,
        _ => {
            return None;
        },
    };
    if eps.len() == 0 {
        return None;
    }
    let version = match &f[1] {
        Value::UInt(n) => *n,
        _ => {
            proof {
                assert forall|ri: ResolveInfo| !resolve_info_wire(*v, ri) by {
                    if resolve_info_wire(*v, ri) {
                        assert(f@[1] == Value::UInt(ri.version));
                    }
                }
            }
            return None;
        },
    };
    let methods = match decode_methods(&f[2]) {
        Some(m) => m,
        None => {
            proof {
                assert forall|ri: ResolveInfo| !resolve_info_wire(*v, ri) by {
                    if resolve_info_wire(*v, ri) {
                        assert(methods_wire(f@[2], ri.methods@));
                    }
                }
            }
            return None;
        },
    };
    let mut endpoints: Vec<(String, u16)> = Vec::new();
    let mut i: usize = 0;
    while i < eps.len()
        invariant
            i <= eps@.len(),
            endpoints@.len() == i,
            wire_endpoints(*v) == eps@,
            forall|j: int|
                0 <= j < i ==> #[trigger] endpoint_wire(
                    eps@[j],
                    endpoints@[j].0@,
                    endpoints@[j].1,
                ),
        decreases eps@.len() - i,
    {
        match decode_endpoint(&eps[i]) {
            Some(p) => {
                endpoints.push(p);
            },
            None => {
                proof {
                    assert forall|ri: ResolveInfo| !resolve_info_wire(*v, ri) by {
                        if resolve_info_wire(*v, ri) {
                            assert(endpoint_wire(
                                wire_endpoints(*v)[i as int],
                                ri.endpoints@[i as int].0@,
                                ri.endpoints@[i as int].1,
                            ));
                        }
                    }
                }
                return None;
            },
        }
        i = i + 1;
    }
    Some(ResolveInfo { endpoints, version, methods })
}

impl Info {
    /// Turns each wire `(ip, port)` pair into an address, in order, and keeps
    /// the version and the methods as received.
    pub fn from_resolve_info(ri: ResolveInfo) -> (r: Info)
        ensures
            r.endpoints@.len() == ri.endpoints@.len(),
            forall|i: int|
                0 <= i < r.endpoints@.len() ==> {
                    &&& (#[trigger] r.endpoints@[i]).ip@ == ri.endpoints@[i].0@
                    &&& r.endpoints@[i].port == ri.endpoints@[i].1
                },
            r.version == ri.version,
            r.methods@ == ri.methods@,
    {
        let ResolveInfo { endpoints: pairs, version, methods } = ri;
        let mut endpoints: Vec<Endpoint> = Vec::new();
        let mut i: usize = 0;
        while i < pairs.len()
            invariant
                i <= pairs@.len(),
                endpoints@.len() == i,
                forall|j: int|
                    0 <= j < i ==> {
                        &&& (#[trigger] endpoints@[j]).ip@ == pairs@[j].0@
                        &&& endpoints@[j].port == pairs@[j].1
                    },
            decreases pairs@.len() - i,
        {
            endpoints.push(Endpoint { ip: pairs[i].0.clone(), port: pairs[i].1 });
            i = i + 1;
        }
        Info { endpoints, version, methods }
    }

    /// The addresses the service listens on, in the order received.
    pub fn endpoints(&self) -> (r: &[Endpoint])
        ensures
            r@ == self.endpoints@,
    {
        self.endpoints.as_slice()
    }

    /// The version, as received.
    pub fn version(&self) -> (r: u64)
        ensures
            r == self.version,
    {
        self.version
    }

    /// The event graph of each method, in the order received.
    pub fn methods(&self) -> (r: &[(u64, EventGraph)])
        ensures
            r@ == self.methods@,
    {
        self.methods.as_slice()
    }
}

/// Decodes one frame of the resolve call into what it delivers.
pub fn decode_resolve(ty: u64, payload: &Value) -> (r: Result<Info, Error>)
    ensures
        resolve_outcome(ty, *payload, r),
{
    if ty == VALUE {
        match decode_resolve_info(payload) {
            Some(ri) => {
                let info = Info::from_resolve_info(ri);
                Ok(info)
            },
            None => Err(Error::Decode),
        }
    } else if ty == ERROR {
        Err(decode_remote_error(payload))
    } else {
        Err(Error::Decode)
    }
}

/// A decoded resolve reply has at least one address, every address is the
/// one at the same place in the wire list, and there are as many.
pub proof fn lemma_resolve_endpoints(ty: u64, v: Value, info: Info)
    requires
        resolve_outcome(ty, v, Ok(info)),
    ensures
        info.endpoints@.len() > 0,
        info.endpoints@.len() == wire_endpoints(v).len(),
        forall|i: int|
            0 <= i < info.endpoints@.len() ==> endpoint_wire(
                #[trigger] wire_endpoints(v)[i],
                info.endpoints@[i].ip@,
                info.endpoints@[i].port,
            ),
{
    assert(ty == VALUE);
}

/// Decodes one ring `[[hash, node], ...]`.
fn decode_ring(v: &Value) -> (r: Option<HashRing>)
    ensures
        match r {
            Some(ring) => ring_wire(*v, ring@),
            None => forall|ring: Seq<(u64, String)>| !ring_wire(*v, ring),
        },
{
    let ps = match v {
        Value::Array(ps) => ps,
        _ => {
            return None;
        },
    };
    let mut ring: HashRing = Vec::new();
    let mut i: usize = 0;
    while i < ps.len()
        invariant
            i <= ps@.len(),
            ring@.len() == i,
            *v == Value::Array(*ps),
            forall|j: int|
                0 <= j < i ==> {
                    &&& (#[trigger] ps@[j]) matches Value::Array(p)
                    &&& p@.len() == 2
                    &&& p@[0] == Value::UInt(ring@[j].0)
                    &&& is_str(p@[1], ring@[j].1@)
                },
        decreases ps@.len() - i,
    {
        let entry = match &ps[i] {
            Value::Array(p) => {
                if p.len() == 2 {
                    match (&p[0], &p[1]) {
                        (Value::UInt(h), Value::Str(n)) => Some((*h, n.clone())),
                        _ => None,
                    }
                } else {
                    None
                }
            },
            _ => None,
        };
        match entry {
            Some(e) => {
                ring.push(e);
            },
            None => {
                proof {
                    assert forall|q: Seq<(u64, String)>| !ring_wire(*v, q) by {
                        if ring_wire(*v, q) {
                            assert(ps@[i as int] is Array);
                        }
                    }
                }
                return None;
            },
        }
        i = i + 1;
    }
    Some(ring)
}

/// Decodes a routing snapshot `{app: ring, ...}`; `None` when `v` is the wire
/// form of no snapshot.
pub fn decode_routing_table(v: &Value) -> (r: Option<RoutingTable>)
    ensures
        match r {
            Some(t) => table_wire(*v, t@),
            None => forall|t: Seq<(String, HashRing)>| !table_wire(*v, t),
        },
{
    let es = match v {
        Value::Dict(es) => es,
        _ => {
            return None;
        },
    };
    let mut t: RoutingTable = Vec::new();
    let mut i: usize = 0;
    while i < es.len()
        invariant
            i <= es@.len(),
            t@.len() == i,
            *v == Value::Dict(*es),
            distinct_names(t@),
            forall|j: int|
                0 <= j < i ==> {
                    &&& is_str(#[trigger] es@[j].0, t@[j].0@)
                    &&& ring_wire(es@[j].1, t@[j].1@)
                },
        decreases es@.len() - i,
    {
        let app = match &es[i].0 {
            Value::Str(s) => s.clone(),
            _ => {
                proof {
                    assert forall|q: Seq<(String, HashRing)>| !table_wire(*v, q) by {
                        if table_wire(*v, q) {
                            assert(is_str(es@[i as int].0, q[i as int].0@));
                        }
                    }
                }
                return None;
            },
        };
        let ring = match decode_ring(&es[i].1) {
            Some(ring) => ring,
            None => {
                proof {
                    assert forall|q: Seq<(String, HashRing)>| !table_wire(*v, q) by {
                        if table_wire(*v, q) {
                            assert(is_str(es@[i as int].0, q[i as int].0@));
                        }
                    }
                }
                return None;
            },
        };
        if let Some(j) = has_name(&t, &app) {
            proof {
                assert forall|q: Seq<(String, HashRing)>| !table_wire(*v, q) by {
                    if table_wire(*v, q) {
                        assert(is_str(es@[j as int].0, q[j as int].0@));
                        assert(is_str(es@[i as int].0, q[i as int].0@));
                        assert(q[j as int].0@ != q[i as int].0@);
                    }
                }
            }
            return None;
        }
        t.push((app, ring));
        i = i + 1;
    }
    Some(t)
}

/// An outgoing call: the method code and its arguments.
#[derive(Debug, Clone, PartialEq, Eq)]
pub struct Call {
    pub method: u64,
    pub args: Vec<String>,
}

/// The locator client: it issues resolve calls and routing subscriptions and
/// attaches the dispatch that reads their replies.
#[derive(Debug, PartialEq)]
pub struct Locator {}

impl Locator {
    pub fn new() -> (r: Locator) {
        Locator {}
    }

    /// The call that resolves the service `name`, with its single-shot
    /// dispatch.
    pub fn resolve(&self, name: &str) -> (r: (Call, Dispatch))
        ensures
            r.0.method == RESOLVE,
            r.0.args@.len() == 1,
            r.0.args@[0]@ == name@,
            r.1 is Resolve,
    {
        let mut args: Vec<String> = Vec::new();
        args.push(name.to_owned());
        (Call { method: RESOLVE, args }, Dispatch::Resolve(ResolveDispatch::new()))
    }

    /// The call that subscribes to the routing table for `uuid`, with a fresh
    /// streaming dispatch.
    pub fn routing(&self, uuid: &str) -> (r: (Call, Dispatch))
        ensures
            r.0.method == ROUTING,
            r.0.args@.len() == 1,
            r.0.args@[0]@ == uuid@,
            r.1 matches Dispatch::Routing(d) && d.consumed() == 0,
    {
        let mut args: Vec<String> = Vec::new();
        args.push(uuid.to_owned());
        (Call { method: ROUTING, args }, Dispatch::Routing(StreamingDispatch::new()))
    }
}

} // verus!
