use vstd::prelude::*;

use crate::error::Error;
use crate::locator::{
    decode_resolve, decode_routing_table, resolve_outcome, table_wire, Info, RoutingTable,
};
use crate::protocol::{decode_remote_error, error_branch, Streaming, CLOSE, ERROR, VALUE};
use crate::value::Value;

verus! {

/// What a frame of the routing stream delivers: on a chunk the snapshot that
/// the payload is the wire form of, or `Error::Decode`; on the error branch
/// the remote error; `Close` on a close; `Error::Decode` on any other type.
pub open spec fn routing_outcome(ty: u64, v: Value, d: Streaming<RoutingTable>) -> bool {
    if ty == VALUE {
        match d {
            Streaming::Write(t) => table_wire(v, t@),
            Streaming::Error(e) => e == Error::Decode && forall|t: Seq<(String, Vec<(u64, String)>)>|
                !table_wire(v, t),
            Streaming::Close => false,
        }
    } else if ty == ERROR {
        d matches Streaming::Error(e) && error_branch(v, e)
    } else if ty == CLOSE {
        d is Close
    } else {
        d matches Streaming::Error(e) && e == Error::Decode
    }
}

/// The single-shot dispatch of a resolve call: its first frame is its last.
#[derive(Debug)]
pub struct ResolveDispatch {}

impl ResolveDispatch {
    pub fn new() -> (r: ResolveDispatch) {
        ResolveDispatch {}
    }

    /// Consumes the one frame of the call. What it delivers is decoded as the
    /// resolve grammar says; no frame follows, so no next state is returned.
    pub fn advance(self, ty: u64, payload: &Value) -> (r: (Result<Info, Error>, Option<ResolveDispatch>))
        ensures
            resolve_outcome(ty, *payload, r.0),
            r.1 is None,
    {
        (decode_resolve(ty, payload), None)
    }

    /// Ends the call without a frame: the caller receives `err`.
    pub fn discard(self, err: Error) -> (r: Result<Info, Error>)
        ensures
            r == Err::<Info, Error>(err),
    {
        Err(err)
    }
}

/// The streaming dispatch of a routing subscription: chunks until an error or
/// a close.
pub struct StreamingDispatch {
    consumed: Ghost<nat>,
}

impl StreamingDispatch {
    /// The number of chunks this dispatch has delivered so far.
    pub closed spec fn consumed(&self) -> nat {
        self.consumed@
    }

    pub fn new() -> (r: StreamingDispatch)
        ensures
            r.consumed() == 0,
    {
        StreamingDispatch { consumed: Ghost(0) }
    }

    /// Consumes one frame and returns what it delivers. A chunk keeps the
    /// stream open and hands back the next state; an error or a close is the
    /// terminal delivery, after which no state is left.
    pub fn advance(self, ty: u64, payload: &Value) -> (r: (
        Streaming<RoutingTable>,
        Option<StreamingDispatch>,
    ))
        ensures
            routing_outcome(ty, *payload, r.0),
            r.1 is Some <==> r.0 is Write,
            r.1 matches Some(next) ==> next.consumed() == self.consumed() + 1,
    {
        if ty == VALUE {
            match decode_routing_table(payload) {
                Some(t) => (
                    Streaming::Write(t),
                    Some(StreamingDispatch { consumed: Ghost(self.consumed@ + 1) }),
                ),
                None => (Streaming::Error(Error::Decode), None),
            }
        } else if ty == ERROR {
            (Streaming::Error(decode_remote_error(payload)), None)
        } else if ty == CLOSE {
            (Streaming::Close, None)
        } else {
            (Streaming::Error(Error::Decode), None)
        }
    }

    /// Ends the stream without a terminal frame: the consumer receives `err`
    /// as the one terminal delivery, and no chunk.
    pub fn discard(self, err: Error) -> (r: Streaming<RoutingTable>)
        ensures
            r matches Streaming::Error(e) && e == err,
    {
        Streaming::Error(err)
    }
}

/// The dispatch of one outstanding call, chosen when the call is issued.
pub enum Dispatch {
    Resolve(ResolveDispatch),
    Routing(StreamingDispatch),
}

/// What one frame, or a discard, hands to the caller of the call.
#[derive(Debug, PartialEq)]
pub enum Delivery {
    Resolved(Result<Info, Error>),
    Routing(Streaming<RoutingTable>),
}

impl Dispatch {
    /// Routes one frame to the dispatch of its kind. The next state, if any,
    /// is of the same kind.
    pub fn advance(self, ty: u64, payload: &Value) -> (r: (Delivery, Option<Dispatch>))
        ensures
            match self {
                Dispatch::Resolve(_) => {
                    &&& r.0 matches Delivery::Resolved(x) && resolve_outcome(ty, *payload, x)
                    &&& r.1 is None
                },
                Dispatch::Routing(d) => {
                    &&& r.0 matches Delivery::Routing(s) && routing_outcome(ty, *payload, s)
                        && (r.1 is Some <==> s is Write)
                    &&& r.1 matches Some(n) ==> (n matches Dispatch::Routing(nd) && nd.consumed()
                        == d.consumed() + 1)
                },
            },
    {
        match self {
            Dispatch::Resolve(d) => {
                let (x, _) = d.advance(ty, payload);
                (Delivery::Resolved(x), None)
            },
            Dispatch::Routing(d) => {
                let (s, next) = d.advance(ty, payload);
                match next {
                    Some(n) => (Delivery::Routing(s), Some(Dispatch::Routing(n))),
                    None => (Delivery::Routing(s), None),
                }
            },
        }
    }

    /// Ends the call without a frame: `err` is delivered once, as the
    /// terminal delivery of its kind.
    pub fn discard(self, err: Error) -> (r: Delivery)
        ensures
            match self {
                Dispatch::Resolve(_) => r matches Delivery::Resolved(x) && x == Err::<Info, Error>(
                    err,
                ),
                Dispatch::Routing(_) => r matches Delivery::Routing(s) && s matches Streaming::Error(
                    e,
                ) && e == err,
            },
    {
        match self {
            Dispatch::Resolve(d) => Delivery::Resolved(d.discard(err)),
            Dispatch::Routing(d) => Delivery::Routing(d.discard(err)),
        }
    }
}

/// Feeds the frames of one routing call, in order, to a fresh streaming
/// dispatch until it delivers its terminal item; when the frames run out
/// first, the dispatch is discarded with `Error::Cancelled`.
///
/// The deliveries are those of the frames, in frame order: every item but the
/// last is a chunk, and the last is the one terminal item, an error or a close.
pub fn deliver_stream(frames: &Vec<(u64, Value)>) -> (r: Vec<Streaming<RoutingTable>>)
    ensures
        r@.len() >= 1,
        r@.len() <= frames@.len() + 1,
        forall|i: int| 0 <= i < r@.len() - 1 ==> #[trigger] r@[i] is Write,
        !(r@[r@.len() - 1] is Write),
        forall|i: int|
            0 <= i < r@.len() && i < frames@.len() ==> routing_outcome(
                frames@[i].0,
                frames@[i].1,
                #[trigger] r@[i],
            ),
        r@.len() == frames@.len() + 1 ==> (r@[r@.len() - 1] matches Streaming::Error(e) && e
            == Error::Cancelled),
{
    let mut out: Vec<Streaming<RoutingTable>> = Vec::new();
    let mut d = StreamingDispatch::new();
    let mut i: usize = 0;
    while i < frames.len()
        invariant
            i <= frames@.len(),
            out@.len() == i,
            forall|j: int| 0 <= j < i ==> #[trigger] out@[j] is Write,
            forall|j: int|
                0 <= j < i ==> routing_outcome(frames@[j].0, frames@[j].1, #[trigger] out@[j]),
        decreases frames@.len() - i,
    {
        let (s, next) = d.advance(frames[i].0, &frames[i].1);
        out.push(s);
        match next {
            Some(n) => {
                d = n;
            },
            None => {
                return out;
            },
        }
        i = i + 1;
    }
    out.push(d.discard(Error::Cancelled));
    out
}

} // verus!
