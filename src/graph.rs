use vstd::prelude::*;

use crate::value::{distinct_keys, has_key, is_str, Value};

verus! {

/// One node of an event graph: the event it stands for, and the message
/// types that may follow it, each with its own node. Entries keep wire order.
#[derive(Debug, PartialEq)]
pub struct GraphNode {
    pub event: String,
    pub rx: Vec<(u64, GraphNode)>,
}

/// The graph of one method: its name, and the nodes reachable by the
/// message types it may send (`tx`) and receive (`rx`).
#[derive(Debug, PartialEq)]
pub struct EventGraph {
    pub name: String,
    pub tx: Vec<(u64, GraphNode)>,
    pub rx: Vec<(u64, GraphNode)>,
}

/// `v` is the wire form of `n`: the array `[event, {type: node, ...}]`, the
/// map's entries in the order of `n.rx`, no message type twice.
pub open spec fn node_wire(v: Value, n: GraphNode) -> bool
    decreases v,
{
    match v {
        Value::Array(f) => {
            &&& f@.len() == 2
            &&& is_str(f@[0], n.event@)
            &&& match f@[1] {
                Value::Dict(es) => {
                    &&& es@.len() == n.rx@.len()
                    &&& distinct_keys(n.rx@)
                    &&& forall|i: int|
                        0 <= i < es@.len() ==> {
                            &&& #[trigger] es@[i].0 == Value::UInt(n.rx@[i].0)
                            &&& node_wire(es@[i].1, n.rx@[i].1)
                        }
                },
                _ => false,
            }
        },
        _ => false,
    }
}

/// `n` is a tree whose every node maps each message type to one child.
pub open spec fn node_wf(n: GraphNode) -> bool
    decreases n,
{
    &&& distinct_keys(n.rx@)
    &&& forall|i: int| 0 <= i < n.rx@.len() ==> node_wf(#[trigger] n.rx@[i].1)
}

/// Each message type leads to one child, and every child is well formed.
pub open spec fn children_wf(c: Seq<(u64, GraphNode)>) -> bool {
    &&& distinct_keys(c)
    &&& forall|i: int| 0 <= i < c.len() ==> node_wf(#[trigger] c[i].1)
}

/// `g` maps each message type, in `tx` and in `rx`, to one well-formed node.
pub open spec fn graph_wf(g: EventGraph) -> bool {
    children_wf(g.tx@) && children_wf(g.rx@)
}

/// `v` is the wire form of the children `c`: a map from message type to node,
/// in the order of `c`.
/// A map that repeats a message type is the wire form of no children: decoding
/// it fails, rather than keeping one of the entries.
pub open spec fn children_wire(v: Value, c: Seq<(u64, GraphNode)>) -> bool {
    match v {
        Value::Dict(es) => {
            &&& es@.len() == c.len()
            &&& distinct_keys(c)
            &&& forall|i: int|
                0 <= i < es@.len() ==> {
                    &&& #[trigger] es@[i].0 == Value::UInt(c[i].0)
                    &&& node_wire(es@[i].1, c[i].1)
                }
        },
        _ => false,
    }
}

/// `v` is the wire form of `g`: the array `[name, tx, rx]`.
pub open spec fn graph_wire(v: Value, g: EventGraph) -> bool {
    match v {
        Value::Array(f) => {
            &&& f@.len() == 3
            &&& is_str(f@[0], g.name@)
            &&& children_wire(f@[1], g.tx@)
            &&& children_wire(f@[2], g.rx@)
        },
        _ => false,
    }
}

/// `a` and `b` are the same tree: equal events, and the same message types
/// leading to the same subtrees, in the same order.
pub open spec fn same_node(a: GraphNode, b: GraphNode) -> bool
    decreases a,
{
    &&& a.event@ == b.event@
    &&& a.rx@.len() == b.rx@.len()
    &&& forall|i: int|
        0 <= i < a.rx@.len() ==> {
            &&& #[trigger] a.rx@[i].0 == b.rx@[i].0
            &&& same_node(a.rx@[i].1, b.rx@[i].1)
        }
}

pub open spec fn same_children(a: Seq<(u64, GraphNode)>, b: Seq<(u64, GraphNode)>) -> bool {
    &&& a.len() == b.len()
    &&& forall|i: int|
        0 <= i < a.len() ==> {
            &&& #[trigger] a[i].0 == b[i].0
            &&& same_node(a[i].1, b[i].1)
        }
}

/// `a` and `b` are the same graph.
pub open spec fn same_graph(a: EventGraph, b: EventGraph) -> bool {
    &&& a.name@ == b.name@
    &&& same_children(a.tx@, b.tx@)
    &&& same_children(a.rx@, b.rx@)
}

impl GraphNode {
    /// Whether every node of this tree maps each message type to one child.
    pub fn is_well_formed(&self) -> (r: bool)
        ensures
            r == node_wf(*self),
        decreases self, 2nat,
    {
        proof {
            assert(decreases_to!(*self => self.rx));
        }
        children_are_well_formed(&self.rx)
    }
}

impl EventGraph {
    /// Whether `tx` and `rx` each map every message type to one well-formed
    /// node.
    pub fn is_well_formed(&self) -> (r: bool)
        ensures
            r == graph_wf(*self),
    {
        children_are_well_formed(&self.tx) && children_are_well_formed(&self.rx)
    }
}

/// Whether the children `c` hold each message type once, and every child is
/// well formed.
pub fn children_are_well_formed(c: &Vec<(u64, GraphNode)>) -> (r: bool)
    ensures
        r == children_wf(c@),
    decreases c, 1nat,
{
    let mut i: usize = 0;
    while i < c.len()
        invariant
            i <= c@.len(),
            forall|a: int, b: int| 0 <= a < b < i ==> #[trigger] c@[a].0 != #[trigger] c@[b].0,
            forall|a: int| 0 <= a < i ==> node_wf(#[trigger] c@[a].1),
        decreases c@.len() - i,
    {
        let mut j: usize = 0;
        while j < i
            invariant
                j <= i < c@.len(),
                forall|a: int| 0 <= a < j ==> #[trigger] c@[a].0 != c@[i as int].0,
            decreases i - j,
        {
            if c[j].0 == c[i].0 {
                proof {
                    assert(c@[j as int].0 == c@[i as int].0);
                }
                return false;
            }
            j = j + 1;
        }
        proof {
            assert(decreases_to!(*c => c@));
            assert(decreases_to!(c@ => c@[i as int]));
            assert(decreases_to!(c@[i as int] => c@[i as int].1));
        }
        if !c[i].1.is_well_formed() {
            return false;
        }
        i = i + 1;
    }
    true
}

/// Reads the message type of a map key.
fn decode_key(v: &Value) -> (r: Option<u64>)
    ensures
        match r {
            Some(k) => *v == Value::UInt(k),
            None => forall|k: u64| *v != Value::UInt(k),
        },
{
    match v {
        Value::UInt(k) => Some(*k),
        _ => None,
    }
}

/// Reads a string value.
pub fn decode_str(v: &Value) -> (r: Option<String>)
    ensures
        match r {
            Some(s) => is_str(*v, s@),
            None => forall|s: Seq<char>| !is_str(*v, s),
        },
{
    match v {
        Value::Str(s) => Some(s.clone()),
        _ => None,
    }
}

/// Decodes the children map of a node or graph.
pub fn decode_children(v: &Value) -> (r: Option<Vec<(u64, GraphNode)>>)
    ensures
        match r {
            Some(c) => children_wire(*v, c@),
            None => forall|c: Seq<(u64, GraphNode)>| !children_wire(*v, c),
        },
    decreases v, 1nat,
{
    match v {
        Value::Dict(es) => {
            let mut out: Vec<(u64, GraphNode)> = Vec::new();
            let mut i: usize = 0;
            while i < es.len()
                invariant
                    i <= es@.len(),
                    out@.len() == i,
                    *v == Value::Dict(*es),
                    distinct_keys(out@),
                    forall|j: int|
                        0 <= j < i ==> {
                            &&& #[trigger] es@[j].0 == Value::UInt(out@[j].0)
                            &&& node_wire(es@[j].1, out@[j].1)
                        },
                decreases es@.len() - i,
            {
                proof {
                    assert(decreases_to!(*v => (*v)->Dict_0));
                    assert(decreases_to!(*es => es@));
                    assert(decreases_to!(es@ => es@[i as int]));
                    assert(decreases_to!(es@[i as int] => es@[i as int].1));
                }
                let k = match decode_key(&es[i].0) {
                    Some(k) => k,
                    None => {
                        proof {
                            assert forall|c: Seq<(u64, GraphNode)>| !children_wire(*v, c) by {
                                if children_wire(*v, c) {
                                    assert(es@[i as int].0 == Value::UInt(c[i as int].0));
                                }
                            }
                        }
                        return None;
                    },
                };
                let n = match decode_node(&es[i].1) {
                    Some(n) => n,
                    None => {
                        proof {
                            assert forall|c: Seq<(u64, GraphNode)>| !children_wire(*v, c) by {
                                if children_wire(*v, c) {
                                    assert(es@[i as int].0 == Value::UInt(c[i as int].0));
                                    assert(node_wire(es@[i as int].1, c[i as int].1));
                                }
                            }
                        }
                        return None;
                    },
                };
                if let Some(j) = has_key(&out, k) {
                    proof {
                        assert forall|c: Seq<(u64, GraphNode)>| !children_wire(*v, c) by {
                            if children_wire(*v, c) {
                                assert(es@[j as int].0 == Value::UInt(c[j as int].0));
                                assert(es@[i as int].0 == Value::UInt(c[i as int].0));
                                assert(c[j as int].0 != c[i as int].0);
                            }
                        }
                    }
                    return None;
                }
                out.push((k, n));
                i = i + 1;
            }
            Some(out)
        },
        _ => None,
    }
}

/// Decodes a node from its wire form `[event, {type: node, ...}]`; `None` when
/// `v` is the wire form of no node.
pub fn decode_node(v: &Value) -> (r: Option<GraphNode>)
    ensures
        match r {
            Some(n) => node_wire(*v, n),
            None => forall|n: GraphNode| !node_wire(*v, n),
        },
    decreases v, 2nat,
{
    match v {
        Value::Array(f) => {
            if f.len() != 2 {
                return None;
            }
            proof {
                assert(decreases_to!(*v => (*v)->Array_0));
                assert(decreases_to!(*f => f@));
                assert(decreases_to!(f@ => f@[1]));
            }
            let event = match decode_str(&f[0]) {
                Some(s) => s,
                None => {
                    proof {
                        assert forall|n: GraphNode| !node_wire(*v, n) by {
                            if node_wire(*v, n) {
                                assert(is_str(f@[0], n.event@));
                            }
                        }
                    }
                    return None;
                },
            };
            let rx = match decode_children(&f[1]) {
                Some(c) => c,
                None => {
                    proof {
                        assert forall|n: GraphNode| !node_wire(*v, n) by {
                            if node_wire(*v, n) {
                                assert(children_wire(f@[1], n.rx@));
                            }
                        }
                    }
                    return None;
                },
            };
            let r = GraphNode { event, rx };
            proof {
                assert(children_wire(f@[1], r.rx@));
            }
            Some(r)
        },
        _ => None,
    }
}

/// Decodes a graph from its wire form `[name, tx, rx]`; `None` when `v` is
/// the wire form of no graph.
pub fn decode_graph(v: &Value) -> (r: Option<EventGraph>)
    ensures
        match r {
            Some(g) => graph_wire(*v, g),
            None => forall|g: EventGraph| !graph_wire(*v, g),
        },
{
    match v {
        Value::Array(f) => {
            if f.len() != 3 {
                return None;
            }
            let name = decode_str(&f[0]);
            let tx = decode_children(&f[1]);
            let rx = decode_children(&f[2]);
            match (name, tx, rx) {
                (Some(name), Some(tx), Some(rx)) => Some(EventGraph { name, tx, rx }),
                _ => {
                    proof {
                        assert forall|g: EventGraph| !graph_wire(*v, g) by {
                            if graph_wire(*v, g) {
                                assert(is_str(f@[0], g.name@));
                                assert(children_wire(f@[1], g.tx@));
                                assert(children_wire(f@[2], g.rx@));
                            }
                        }
                    }
                    None
                },
            }
        },
        _ => None,
    }
}

/// Encodes children as a map from message type to node, in order.
pub fn encode_children(c: &Vec<(u64, GraphNode)>) -> (r: Value)
    requires
        children_wf(c@),
    ensures
        children_wire(r, c@),
    decreases c, 1nat,
{
    let mut es: Vec<(Value, Value)> = Vec::new();
    let mut i: usize = 0;
    while i < c.len()
        invariant
            i <= c@.len(),
            es@.len() == i,
            children_wf(c@),
            forall|j: int|
                0 <= j < i ==> {
                    &&& #[trigger] es@[j].0 == Value::UInt(c@[j].0)
                    &&& node_wire(es@[j].1, c@[j].1)
                },
        decreases c@.len() - i,
    {
        proof {
            assert(decreases_to!(*c => c@));
            assert(decreases_to!(c@ => c@[i as int]));
            assert(decreases_to!(c@[i as int] => c@[i as int].1));
            assert(node_wf(c@[i as int].1));
        }
        let n = encode_node(&c[i].1);
        es.push((Value::UInt(c[i].0), n));
        i = i + 1;
    }
    Value::Dict(es)
}

/// Encodes a node as `[event, {type: node, ...}]`.
pub fn encode_node(n: &GraphNode) -> (r: Value)
    requires
        node_wf(*n),
    ensures
        node_wire(r, *n),
    decreases n, 2nat,
{
    proof {
        assert(decreases_to!(*n => n.rx));
    }
    let children = encode_children(&n.rx);
    let mut f: Vec<Value> = Vec::new();
    f.push(Value::Str(n.event.clone()));
    f.push(children);
    let r = Value::Array(f);
    proof {
        assert(children_wire(f@[1], n.rx@));
    }
    r
}

/// Encodes a graph as `[name, tx, rx]`.
pub fn encode_graph(g: &EventGraph) -> (r: Value)
    requires
        graph_wf(*g),
    ensures
        graph_wire(r, *g),
{
    let mut f: Vec<Value> = Vec::new();
    f.push(Value::Str(g.name.clone()));
    f.push(encode_children(&g.tx));
    f.push(encode_children(&g.rx));
    Value::Array(f)
}

/// A value is the wire form of at most one tree: two nodes read from the same
/// value are the same node.
pub proof fn lemma_node_wire_unique(v: Value, a: GraphNode, b: GraphNode)
    requires
        node_wire(v, a),
        node_wire(v, b),
    ensures
        same_node(a, b),
    decreases v,
{
    if let Value::Array(f) = v {
        if let Value::Dict(es) = f@[1] {
            assert forall|i: int| 0 <= i < a.rx@.len() implies {
                &&& #[trigger] a.rx@[i].0 == b.rx@[i].0
                &&& same_node(a.rx@[i].1, b.rx@[i].1)
            } by {
                assert(es@[i].0 == Value::UInt(a.rx@[i].0));
                assert(es@[i].0 == Value::UInt(b.rx@[i].0));
                assert(decreases_to!(v => v->Array_0));
                assert(decreases_to!(f => f@));
                assert(decreases_to!(f@ => f@[1]));
                assert(decreases_to!(f@[1] => f@[1]->Dict_0));
                assert(decreases_to!(es => es@));
                assert(decreases_to!(es@ => es@[i]));
                assert(decreases_to!(es@[i] => es@[i].1));
                lemma_node_wire_unique(es@[i].1, a.rx@[i].1, b.rx@[i].1);
            }
        }
    }
}

/// Encoding a graph and decoding the result gives back the same tree, at
/// every depth: a value that is the wire form of `g` and of `h` makes `g` and
/// `h` the same graph.
pub proof fn lemma_graph_round_trip(v: Value, g: EventGraph, h: EventGraph)
    requires
        graph_wire(v, g),
        graph_wire(v, h),
    ensures
        same_graph(g, h),
{
    let f = v->Array_0;
    lemma_children_wire_unique(f@[1], g.tx@, h.tx@);
    lemma_children_wire_unique(f@[2], g.rx@, h.rx@);
}

/// A value is the wire form of at most one list of children.
pub proof fn lemma_children_wire_unique(v: Value, a: Seq<(u64, GraphNode)>, b: Seq<(u64, GraphNode)>)
    requires
        children_wire(v, a),
        children_wire(v, b),
    ensures
        same_children(a, b),
{
    let es = v->Dict_0;
    assert forall|i: int| 0 <= i < a.len() implies {
        &&& #[trigger] a[i].0 == b[i].0
        &&& same_node(a[i].1, b[i].1)
    } by {
        assert(es@[i].0 == Value::UInt(a[i].0));
        assert(es@[i].0 == Value::UInt(b[i].0));
        lemma_node_wire_unique(es@[i].1, a[i].1, b[i].1);
    }
}

} // verus!
