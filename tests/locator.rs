use cocaine::dispatch::{deliver_stream, Delivery, Dispatch, ResolveDispatch, StreamingDispatch};
use cocaine::error::Error;
use cocaine::graph::{
    children_are_well_formed, decode_graph, decode_node, encode_graph, encode_node, EventGraph,
    GraphNode,
};
use cocaine::locator::{
    decode_resolve, decode_routing_table, Endpoint, Info, Locator, ResolveInfo, RESOLVE, ROUTING,
};
use cocaine::protocol::{decode_remote_error, Streaming, CLOSE, ERROR, VALUE};
use cocaine::value::Value;

fn s(x: &str) -> Value {
    Value::Str(x.to_string())
}

fn arr(xs: Vec<Value>) -> Value {
    Value::Array(xs)
}

fn endpoint(ip: &str, port: u64) -> Value {
    arr(vec![s(ip), Value::UInt(port)])
}

fn resolve_payload(eps: Vec<Value>, version: u64, methods: Vec<(Value, Value)>) -> Value {
    arr(vec![arr(eps), Value::UInt(version), Value::Dict(methods)])
}

fn routing_chunk() -> Value {
    Value::Dict(vec![(
        s("app"),
        arr(vec![
            arr(vec![Value::UInt(5), s("node-a")]),
            arr(vec![Value::UInt(99), s("node-b")]),
        ]),
    )])
}

fn leaf(event: &str) -> GraphNode {
    GraphNode { event: event.to_string(), rx: vec![] }
}

fn deep_graph() -> EventGraph {
    let level3 = GraphNode { event: "chunk".to_string(), rx: vec![(2, leaf("close"))] };
    let level2 = GraphNode { event: "write".to_string(), rx: vec![(0, level3), (1, leaf("error"))] };
    let level1 = GraphNode { event: "invoke".to_string(), rx: vec![(0, level2)] };
    EventGraph {
        name: "enqueue".to_string(),
        tx: vec![(0, level1), (7, leaf("ping"))],
        rx: vec![(1, leaf("error")), (2, leaf("close"))],
    }
}

#[test]
fn resolve_storage_gives_its_one_endpoint() {
    let payload = resolve_payload(vec![endpoint("127.0.0.1", 10053)], 1, vec![]);
    let info = decode_resolve(VALUE, &payload).unwrap();
    assert_eq!(info.endpoints(), &[Endpoint { ip: "127.0.0.1".to_string(), port: 10053 }][..]);
    assert_eq!(info.version(), 1);
    assert!(info.methods().is_empty());
}

#[test]
fn resolve_keeps_endpoint_order_and_count() {
    let payload = resolve_payload(
        vec![endpoint("10.0.0.2", 1), endpoint("::1", 65535), endpoint("10.0.0.1", 0)],
        42,
        vec![],
    );
    let info = decode_resolve(VALUE, &payload).unwrap();
    let eps = info.endpoints();
    assert_eq!(eps.len(), 3);
    assert_eq!(eps[0], Endpoint { ip: "10.0.0.2".to_string(), port: 1 });
    assert_eq!(eps[1], Endpoint { ip: "::1".to_string(), port: 65535 });
    assert_eq!(eps[2], Endpoint { ip: "10.0.0.1".to_string(), port: 0 });
    assert_eq!(info.version(), 42);
}

#[test]
fn resolve_carries_methods_through() {
    let g = deep_graph();
    let payload = resolve_payload(
        vec![endpoint("127.0.0.1", 10053)],
        3,
        vec![(Value::UInt(0), encode_graph(&g))],
    );
    let info = decode_resolve(VALUE, &payload).unwrap();
    assert_eq!(info.methods().len(), 1);
    assert_eq!(info.methods()[0].0, 0);
    assert_eq!(info.methods()[0].1, deep_graph());
}

#[test]
fn resolve_error_branch_gives_remote_error() {
    let payload = arr(vec![s("core"), s("not found")]);
    let r = decode_resolve(ERROR, &payload);
    assert_eq!(
        r.unwrap_err(),
        Error::Remote { category: "core".to_string(), message: "not found".to_string() }
    );
}

#[test]
fn resolve_malformed_error_branch_is_decode_error() {
    assert_eq!(decode_resolve(ERROR, &Value::Nil).unwrap_err(), Error::Decode);
    assert_eq!(decode_remote_error(&arr(vec![s("core")])), Error::Decode);
    assert_eq!(decode_remote_error(&arr(vec![Value::UInt(1), s("x")])), Error::Decode);
}

#[test]
fn resolve_shape_mismatch_is_decode_error() {
    let bad_port = resolve_payload(vec![endpoint("127.0.0.1", 70000)], 1, vec![]);
    assert_eq!(decode_resolve(VALUE, &bad_port).unwrap_err(), Error::Decode);
    let short = arr(vec![arr(vec![]), Value::UInt(1)]);
    assert_eq!(decode_resolve(VALUE, &short).unwrap_err(), Error::Decode);
    let bad_version = arr(vec![arr(vec![]), s("1"), Value::Dict(vec![])]);
    assert_eq!(decode_resolve(VALUE, &bad_version).unwrap_err(), Error::Decode);
    let bad_method = resolve_payload(vec![endpoint("127.0.0.1", 10053)], 1, vec![(s("m"), encode_graph(&deep_graph()))]);
    assert_eq!(decode_resolve(VALUE, &bad_method).unwrap_err(), Error::Decode);
}

#[test]
fn resolve_unknown_message_type_is_decode_error() {
    let payload = resolve_payload(vec![endpoint("127.0.0.1", 10053)], 1, vec![]);
    assert_eq!(decode_resolve(7, &payload).unwrap_err(), Error::Decode);
}

#[test]
fn info_from_resolve_info_pairs_addresses() {
    let ri = ResolveInfo {
        endpoints: vec![("1.2.3.4".to_string(), 80), ("5.6.7.8".to_string(), 443)],
        version: 9,
        methods: vec![],
    };
    let info = Info::from_resolve_info(ri);
    assert_eq!(
        info.endpoints(),
        &[
            Endpoint { ip: "1.2.3.4".to_string(), port: 80 },
            Endpoint { ip: "5.6.7.8".to_string(), port: 443 }
        ][..]
    );
    assert_eq!(info.version(), 9);
}

#[test]
fn single_shot_dispatch_is_terminal_on_first_frame() {
    let payload = resolve_payload(vec![endpoint("127.0.0.1", 10053)], 1, vec![]);
    let (r, next) = ResolveDispatch::new().advance(VALUE, &payload);
    assert!(next.is_none());
    assert!(r.is_ok());
    let (r, next) = ResolveDispatch::new().advance(ERROR, &arr(vec![s("a"), s("b")]));
    assert!(next.is_none());
    assert!(r.is_err());
}

#[test]
fn single_shot_discard_delivers_the_error() {
    assert_eq!(ResolveDispatch::new().discard(Error::Cancelled), Err(Error::Cancelled));
}

#[test]
fn routing_two_chunks_then_close() {
    let frames = vec![(VALUE, routing_chunk()), (VALUE, routing_chunk()), (CLOSE, Value::Nil)];
    let out = deliver_stream(&frames);
    let expected: Vec<(u64, String)> = vec![(5, "node-a".to_string()), (99, "node-b".to_string())];
    assert_eq!(out.len(), 3);
    assert_eq!(out[0], Streaming::Write(vec![("app".to_string(), expected.clone())]));
    assert_eq!(out[1], Streaming::Write(vec![("app".to_string(), expected)]));
    assert_eq!(out[2], Streaming::Close);
}

#[test]
fn routing_stream_keeps_chunk_order() {
    let second = Value::Dict(vec![(s("other"), arr(vec![arr(vec![Value::UInt(1), s("n")])]))]);
    let frames = vec![(VALUE, routing_chunk()), (VALUE, second), (ERROR, arr(vec![s("c"), s("m")]))];
    let out = deliver_stream(&frames);
    assert_eq!(out.len(), 3);
    match &out[0] {
        Streaming::Write(t) => assert_eq!(t[0].0, "app"),
        other => panic!("unexpected {:?}", other),
    }
    match &out[1] {
        Streaming::Write(t) => assert_eq!(t[0].0, "other"),
        other => panic!("unexpected {:?}", other),
    }
    assert_eq!(
        out[2],
        Streaming::Error(Error::Remote { category: "c".to_string(), message: "m".to_string() })
    );
}

#[test]
fn routing_stream_stops_at_first_terminal() {
    let frames = vec![(CLOSE, Value::Nil), (VALUE, routing_chunk()), (CLOSE, Value::Nil)];
    let out = deliver_stream(&frames);
    assert_eq!(out, vec![Streaming::Close]);
}

#[test]
fn routing_discard_without_frames_yields_one_cancellation() {
    let out = deliver_stream(&vec![]);
    assert_eq!(out, vec![Streaming::Error(Error::Cancelled)]);
    assert_eq!(StreamingDispatch::new().discard(Error::Cancelled), Streaming::Error(Error::Cancelled));
}

#[test]
fn routing_runs_out_of_frames_after_chunks() {
    let out = deliver_stream(&vec![(VALUE, routing_chunk())]);
    assert_eq!(out.len(), 2);
    assert!(matches!(out[0], Streaming::Write(_)));
    assert_eq!(out[1], Streaming::Error(Error::Cancelled));
}

#[test]
fn routing_bad_chunk_is_terminal_decode_error() {
    let d = StreamingDispatch::new();
    let (item, next) = d.advance(VALUE, &arr(vec![]));
    assert_eq!(item, Streaming::Error(Error::Decode));
    assert!(next.is_none());
    let (item, next) = StreamingDispatch::new().advance(9, &routing_chunk());
    assert_eq!(item, Streaming::Error(Error::Decode));
    assert!(next.is_none());
}

#[test]
fn routing_table_decoding() {
    let t = decode_routing_table(&routing_chunk()).unwrap();
    assert_eq!(t, vec![("app".to_string(), vec![(5, "node-a".to_string()), (99, "node-b".to_string())])]);
    assert!(decode_routing_table(&Value::Dict(vec![])).unwrap().is_empty());
    let bad = Value::Dict(vec![(s("app"), arr(vec![arr(vec![s("5"), s("node-a")])]))]);
    assert!(decode_routing_table(&bad).is_none());
    let bad_key = Value::Dict(vec![(Value::UInt(1), arr(vec![]))]);
    assert!(decode_routing_table(&bad_key).is_none());
}

#[test]
fn graph_round_trip_at_depth_three() {
    let g = deep_graph();
    let v = encode_graph(&g);
    let back = decode_graph(&v).unwrap();
    assert_eq!(back, g);
    assert_eq!(back.tx[0].1.rx[0].1.rx[0].1.rx[0].1.event, "close");
}

#[test]
fn graph_node_wire_form() {
    let n = GraphNode { event: "write".to_string(), rx: vec![(3, leaf("close"))] };
    let v = encode_node(&n);
    assert_eq!(
        v,
        arr(vec![s("write"), Value::Dict(vec![(Value::UInt(3), arr(vec![s("close"), Value::Dict(vec![])]))])])
    );
    assert_eq!(decode_node(&v).unwrap(), n);
    assert!(decode_node(&arr(vec![s("x")])).is_none());
    assert!(decode_node(&arr(vec![s("x"), Value::Dict(vec![(Value::NegInt(-1), arr(vec![]))])])).is_none());
    assert!(decode_graph(&arr(vec![s("x"), Value::Dict(vec![])])).is_none());
}

#[test]
fn locator_issues_resolve_and_routing_calls() {
    let locator = Locator::new();
    let (call, d) = locator.resolve("storage");
    assert_eq!(call.method, RESOLVE);
    assert_eq!(call.method, 0);
    assert_eq!(call.args, vec!["storage".to_string()]);
    assert!(matches!(d, Dispatch::Resolve(_)));
    let (call, d) = locator.routing("uuid-1");
    assert_eq!(call.method, ROUTING);
    assert_eq!(call.method, 5);
    assert_eq!(call.args, vec!["uuid-1".to_string()]);
    assert!(matches!(d, Dispatch::Routing(_)));
}

#[test]
fn dispatch_routes_frames_by_kind() {
    let locator = Locator::new();
    let (_, d) = locator.routing("uuid-1");
    let (delivery, next) = d.advance(VALUE, &routing_chunk());
    assert!(matches!(delivery, Delivery::Routing(Streaming::Write(_))));
    let next = next.unwrap();
    let (delivery, next) = next.advance(CLOSE, &Value::Nil);
    assert_eq!(delivery, Delivery::Routing(Streaming::Close));
    assert!(next.is_none());

    let (_, d) = locator.resolve("storage");
    let payload = arr(vec![s("core"), s("not found")]);
    let (delivery, next) = d.advance(ERROR, &payload);
    assert_eq!(
        delivery,
        Delivery::Resolved(Err(Error::Remote {
            category: "core".to_string(),
            message: "not found".to_string()
        }))
    );
    assert!(next.is_none());

    let (_, d) = locator.resolve("storage");
    assert_eq!(d.discard(Error::Cancelled), Delivery::Resolved(Err(Error::Cancelled)));
    let (_, d) = locator.routing("uuid-1");
    assert_eq!(d.discard(Error::Cancelled), Delivery::Routing(Streaming::Error(Error::Cancelled)));
}

#[test]
fn repeated_keys_are_decode_errors() {
    let node = arr(vec![
        s("x"),
        Value::Dict(vec![
            (Value::UInt(1), arr(vec![s("a"), Value::Dict(vec![])])),
            (Value::UInt(1), arr(vec![s("b"), Value::Dict(vec![])])),
        ]),
    ]);
    assert!(decode_node(&node).is_none());
    let g = encode_graph(&deep_graph());
    let methods = resolve_payload(vec![endpoint("127.0.0.1", 10053)], 1, vec![(Value::UInt(4), encode_graph(&deep_graph())), (Value::UInt(4), g)]);
    assert_eq!(decode_resolve(VALUE, &methods).unwrap_err(), Error::Decode);
    let table = Value::Dict(vec![(s("app"), arr(vec![])), (s("app"), arr(vec![]))]);
    assert!(decode_routing_table(&table).is_none());
    let (item, next) = StreamingDispatch::new().advance(VALUE, &table);
    assert_eq!(item, Streaming::Error(Error::Decode));
    assert!(next.is_none());
}

#[test]
fn well_formedness_of_graphs() {
    assert!(deep_graph().is_well_formed());
    let mut g = deep_graph();
    g.rx.push((1, leaf("again")));
    assert!(!g.is_well_formed());
    let inner = GraphNode { event: "x".to_string(), rx: vec![(3, leaf("a")), (3, leaf("b"))] };
    let outer = GraphNode { event: "y".to_string(), rx: vec![(0, inner)] };
    assert!(!outer.is_well_formed());
    assert!(leaf("z").is_well_formed());
    assert!(children_are_well_formed(&vec![(0, leaf("a")), (1, leaf("b"))]));
    assert!(!children_are_well_formed(&vec![(0, leaf("a")), (0, leaf("b"))]));
}

#[test]
fn resolve_without_endpoints_is_decode_error() {
    let payload = resolve_payload(vec![], 1, vec![]);
    assert_eq!(decode_resolve(VALUE, &payload).unwrap_err(), Error::Decode);
    let (r, next) = ResolveDispatch::new().advance(VALUE, &payload);
    assert_eq!(r, Err(Error::Decode));
    assert!(next.is_none());
}
