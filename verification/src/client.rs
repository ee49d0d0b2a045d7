//! Client Dispatch Loop and Client Handle: multiplex any number of concurrent
//! logical calls over one duplex transport, correlated by identifier.
//!
//! The dispatch state only decides; it performs no I/O itself. The embedding
//! program drives the loop as a task: it writes the request envelopes produced
//! by [`ClientHandle::call_start`] onto the transport, hands every inbound
//! response envelope to [`Dispatch::route_response`], reports elapsed
//! deadlines and caller cancellations through [`Dispatch::abandon`], and on
//! transport closure or a fatal transport error calls [`Dispatch::close`] and
//! resolves every still-outstanding call with the failures built by
//! [`closure_failures`].
use vstd::prelude::*;

use crate::ServerError;
use crate::context::Context;
use crate::envelope::RequestEnvelope;
use crate::envelope::ResponseEnvelope;
use crate::inflight::InFlightIds;

verus! {

/// What a caller ultimately observes of one call: a response value, a
/// handler-reported failure, a locally raised deadline, or the loss of the
/// transport. Once the transport is closed or a deadline is set, every call
/// site observes one of these — no call awaits forever.
#[derive(Clone, Debug, PartialEq, Eq)]
pub enum RpcError {
    /// The handler itself reported a failure; the envelope was delivered.
    Server(ServerError),
    /// The configured or contextual deadline elapsed before a response
    /// arrived; raised locally by the client handle.
    DeadlineExceeded,
    /// The transport closed or failed while the call was outstanding, and the
    /// dispatch loop terminated.
    Shutdown,
}

/// Configuration for a dispatch loop: not a positional parameter list.
#[derive(Clone, Copy, Debug)]
pub struct Config {
    /// Deadline granted to calls whose caller supplies no context, as a
    /// duration in milliseconds; `None` leaves such calls unbounded.
    pub default_deadline: Option<u64>,
    /// Bound on the number of calls outstanding at once; `None` for no bound.
    pub pending_requests_limit: Option<usize>,
    /// Transport-tuning hint for the embedding program's buffers; the dispatch
    /// state itself takes no decision from it.
    pub transport_buffer_size: Option<usize>,
}

impl Default for Config {
    /// The default configuration: calls are bounded by a ten-second deadline,
    /// and nothing else is constrained.
    fn default() -> (c: Config)
        ensures
            c.default_deadline == Some(10000u64),
            c.pending_requests_limit is None,
            c.transport_buffer_size is None,
    {
        Config {
            default_deadline: Some(10000),
            pending_requests_limit: None,
            transport_buffer_size: None,
        }
    }
}

/// The caller-facing half: cheap to duplicate, usable from many concurrent
/// call sites sharing one dispatch loop.
#[derive(Clone, Copy, Debug)]
pub struct ClientHandle {
    default_deadline: Option<u64>,
}

/// The caller's token for one outstanding call: the registration of a
/// one-shot resolution slot under a fresh correlation id.
pub struct PendingCall {
    correlation_id: u64,
}

impl PendingCall {
    /// The correlation id this call awaits.
    pub closed spec fn id_spec(self) -> u64 {
        self.correlation_id
    }

    /// Reads the correlation id this call awaits.
    pub fn correlation_id(&self) -> (id: u64)
        ensures
            id == self.id_spec(),
    {
        self.correlation_id
    }
}

/// One resolution handed to a waiting caller: the result of exactly the call
/// registered under this correlation id.
pub struct Delivery<Resp> {
    /// The correlation id of the call this resolves.
    pub correlation_id: u64,
    /// What the caller observes: the response, or one failure of the taxonomy.
    pub result: Result<Resp, RpcError>,
}

/// How a response envelope's result reaches the caller: a handler-reported
/// failure stays a normal, non-transport failure value.
pub open spec fn as_client_result<Resp>(r: Result<Resp, ServerError>) -> Result<Resp, RpcError> {
    match r {
        Ok(v) => Ok(v),
        Err(e) => Err(RpcError::Server(e)),
    }
}

/// The dispatch loop's state: the in-flight call table and the correlation id
/// counter — the only mutable state shared across concurrent call sites.
pub struct Dispatch {
    next_id: u64,
    outstanding: InFlightIds,
    closed: bool,
    pending_limit: Option<usize>,
}

/// One registration: a call not yet outstanding becomes outstanding, and the
/// loop's lifecycle is untouched.
pub open spec fn enqueue_step(pre: Dispatch, id: u64, post: Dispatch) -> bool {
    &&& !pre.is_outstanding(id)
    &&& post.outstanding_ids() == pre.outstanding_ids().push(id)
    &&& post.is_closed() == pre.is_closed()
    &&& post.limit_spec() == pre.limit_spec()
}

/// One resolution of the slot for `id` — by its response arriving, by its
/// deadline elapsing, or by its caller cancelling: that slot alone is
/// released; every other outstanding call, the loop's lifecycle and the id
/// counter are untouched.
pub open spec fn resolve_step(pre: Dispatch, id: u64, post: Dispatch) -> bool {
    &&& pre.is_outstanding(id)
    &&& !post.is_outstanding(id)
    &&& forall|x: u64| x != id ==> (post.is_outstanding(x) <==> pre.is_outstanding(x))
    &&& post.is_closed() == pre.is_closed()
    &&& post.next_id_spec() == pre.next_id_spec()
    &&& post.limit_spec() == pre.limit_spec()
}

impl Dispatch {
    /// The correlation ids of calls still awaiting resolution, in send order.
    pub closed spec fn outstanding_ids(self) -> Seq<u64> {
        self.outstanding@
    }

    /// Whether the call registered under this id still awaits resolution.
    pub open spec fn is_outstanding(self, id: u64) -> bool {
        self.outstanding_ids().contains(id)
    }

    /// Whether the transport has closed or failed and the loop terminated.
    pub closed spec fn is_closed(self) -> bool {
        self.closed
    }

    /// The next correlation id to assign.
    pub closed spec fn next_id_spec(self) -> u64 {
        self.next_id
    }

    /// The configured bound on outstanding calls, if any.
    pub closed spec fn limit_spec(self) -> Option<usize> {
        self.pending_limit
    }

    /// Well-formed: no id is outstanding twice, and every outstanding id was
    /// assigned before the counter's current value — so the next id is fresh.
    pub open spec fn wf(self) -> bool {
        &&& self.outstanding_ids().no_duplicates()
        &&& forall|x: u64| #[trigger] self.is_outstanding(x) ==> x < self.next_id_spec()
    }

    /// Whether the loop can take no further call right now: the configured
    /// bound on outstanding calls is reached, or the id space is exhausted.
    pub open spec fn at_capacity(self) -> bool {
        ||| match self.limit_spec() {
            Some(l) => self.outstanding_ids().len() >= l,
            None => false,
        }
        ||| self.next_id_spec() == u64::MAX
    }

    /// A fresh pair over a newly opened transport: the cloneable caller-facing
    /// handle and the dispatch state the embedding program drives as a task.
    pub fn new(config: Config) -> (pair: (ClientHandle, Dispatch))
        ensures
            pair.0.default_deadline_spec() == config.default_deadline,
            pair.1.outstanding_ids() == Seq::<u64>::empty(),
            !pair.1.is_closed(),
            pair.1.next_id_spec() == 0,
            pair.1.limit_spec() == config.pending_requests_limit,
            pair.1.wf(),
    {
        let handle = ClientHandle { default_deadline: config.default_deadline };
        let dispatch = Dispatch {
            next_id: 0,
            outstanding: InFlightIds::new(),
            closed: false,
            pending_limit: config.pending_requests_limit,
        };
        (handle, dispatch)
    }

    /// Decides whether the call registered under `id` still awaits resolution.
    pub fn has_outstanding(&self, id: u64) -> (r: bool)
        ensures
            r == self.is_outstanding(id),
    {
        self.outstanding.contains(id)
    }

    /// Routes one inbound response envelope to the caller awaiting its
    /// correlation id: exactly that call is resolved, with exactly the
    /// envelope's result. An envelope for an unknown, abandoned or
    /// already-resolved id is dropped as a protocol anomaly, without effect —
    /// never delivered to a later call, and never fatal to the loop.
    pub fn route_response<Resp>(&mut self, env: ResponseEnvelope<Resp>) -> (r: Option<
        Delivery<Resp>,
    >)
        requires
            old(self).wf(),
        ensures
            final(self).wf(),
            r is Some <==> old(self).is_outstanding(env.correlation_id),
            match r {
                Some(d) => {
                    &&& resolve_step(*old(self), env.correlation_id, *final(self))
                    &&& d.correlation_id == env.correlation_id
                    &&& d.result == as_client_result(env.result)
                },
                None => *final(self) == *old(self),
            },
    {
        if !self.outstanding.contains(env.correlation_id) {
            return None;
        }
        self.outstanding.remove(env.correlation_id);
        proof {
            self.lemma_release_keeps_ids_fresh(*old(self), env.correlation_id);
        }
        let result = match env.result {
            Ok(v) => Ok(v),
            Err(e) => Err(RpcError::Server(e)),
        };
        Some(Delivery { correlation_id: env.correlation_id, result })
    }

    /// Releases the slot for `id` without delivering a response: the caller's
    /// deadline elapsed, or the calling task was dropped before completion.
    /// Reports whether the slot was still registered. Either way the loop
    /// stays usable, and a response that later arrives for `id` will be
    /// dropped, not delivered.
    pub fn abandon(&mut self, id: u64) -> (was: bool)
        requires
            old(self).wf(),
        ensures
            final(self).wf(),
            was == old(self).is_outstanding(id),
            !final(self).is_outstanding(id),
            if was {
                resolve_step(*old(self), id, *final(self))
            } else {
                *final(self) == *old(self)
            },
    {
        if self.outstanding.contains(id) {
            self.outstanding.remove(id);
            proof {
                self.lemma_release_keeps_ids_fresh(*old(self), id);
            }
            true
        } else {
            false
        }
    }

    /// Releasing one slot keeps every outstanding id below the id counter.
    proof fn lemma_release_keeps_ids_fresh(self, pre: Dispatch, id: u64)
        requires
            pre.wf(),
            forall|x: u64| x != id ==> (self.is_outstanding(x) <==> pre.is_outstanding(x)),
            !self.is_outstanding(id),
            self.next_id_spec() == pre.next_id_spec(),
        ensures
            forall|x: u64| #[trigger] self.is_outstanding(x) ==> x < self.next_id_spec(),
    {
        assert forall|x: u64| self.is_outstanding(x) implies x < self.next_id_spec() by {
            if x != id {
                assert(pre.is_outstanding(x));
            } else {
                assert(!self.is_outstanding(id));
            }
        }
    }

    /// Records that the transport closed or failed: the loop terminates, and
    /// every still-outstanding call's id is handed back so the embedding
    /// program can resolve each of them with a transport failure (see
    /// [`closure_failures`]). No call is left to await forever.
    pub fn close(&mut self) -> (abandoned: Vec<u64>)
        requires
            old(self).wf(),
        ensures
            final(self).wf(),
            final(self).is_closed(),
            abandoned@ == old(self).outstanding_ids(),
            final(self).outstanding_ids() == Seq::<u64>::empty(),
            final(self).next_id_spec() == old(self).next_id_spec(),
            final(self).limit_spec() == old(self).limit_spec(),
    {
        self.closed = true;
        self.outstanding.take_all()
    }
}

impl ClientHandle {
    /// The deadline granted to calls whose caller supplies no context, as a
    /// duration in milliseconds.
    pub closed spec fn default_deadline_spec(self) -> Option<u64> {
        self.default_deadline
    }

    /// The context built for a call made without one at instant `now`: the
    /// handle's default deadline taken from `now` (saturating at the largest
    /// representable instant), under the given trace.
    pub open spec fn fresh_context_spec(self, now: u64, trace_id: u64) -> Context {
        match self.default_deadline_spec() {
            Some(d) => Context {
                deadline: Some(if now + d > u64::MAX { u64::MAX } else { (now + d) as u64 }),
                trace_id,
            },
            None => Context { deadline: None, trace_id },
        }
    }

    /// Builds the context for a call made without one at instant `now`.
    pub fn fresh_context(&self, now: u64, trace_id: u64) -> (c: Context)
        ensures
            c == self.fresh_context_spec(now, trace_id),
    {
        match self.default_deadline {
            Some(d) => Context { deadline: Some(now.saturating_add(d)), trace_id },
            None => Context { deadline: None, trace_id },
        }
    }

    /// Starts one call: registers a one-shot resolution slot under a fresh
    /// correlation id — fresh among all calls outstanding on this loop — and
    /// produces the request envelope to write onto the transport, carrying the
    /// caller's context or, where none is supplied, a fresh one under the
    /// handle's default deadline taken from instant `now`.
    ///
    /// A call against a terminated loop is refused with the transport failure;
    /// one against a loop at capacity is handed back unchanged, to be retried
    /// once an outstanding call resolves.
    pub fn call_start<Req>(
        &self,
        dispatch: &mut Dispatch,
        req: Req,
        ctx: Option<Context>,
        now: u64,
        trace_id: u64,
    ) -> (r: CallStart<Req>)
        requires
            old(dispatch).wf(),
        ensures
            final(dispatch).wf(),
            match r {
                CallStart::Enqueued(call, env) => {
                    &&& !old(dispatch).is_closed()
                    &&& !old(dispatch).at_capacity()
                    &&& call.id_spec() == old(dispatch).next_id_spec()
                    &&& enqueue_step(*old(dispatch), call.id_spec(), *final(dispatch))
                    &&& final(dispatch).next_id_spec() == old(dispatch).next_id_spec() + 1
                    &&& env.correlation_id == call.id_spec()
                    &&& env.payload == req
                    &&& env.context == (match ctx {
                        Some(c) => c,
                        None => self.fresh_context_spec(now, trace_id),
                    })
                },
                CallStart::Refused(q) => {
                    &&& !old(dispatch).is_closed()
                    &&& old(dispatch).at_capacity()
                    &&& q == req
                    &&& *final(dispatch) == *old(dispatch)
                },
                CallStart::Closed(q) => {
                    &&& old(dispatch).is_closed()
                    &&& q == req
                    &&& *final(dispatch) == *old(dispatch)
                },
            },
    {
        if dispatch.closed {
            return CallStart::Closed(req);
        }
        let at_limit = match dispatch.pending_limit {
            Some(l) => dispatch.outstanding.len() >= l,
            None => false,
        };
        if at_limit || dispatch.next_id == u64::MAX {
            return CallStart::Refused(req);
        }
        let id = dispatch.next_id;
        let ghost pre = dispatch.outstanding_ids();
        proof {
            if dispatch.is_outstanding(id) {
                assert(id < dispatch.next_id_spec());
            }
        }
        dispatch.outstanding.insert(id);
        dispatch.next_id = dispatch.next_id + 1;
        proof {
            let post = dispatch.outstanding_ids();
            assert forall|x: u64| dispatch.is_outstanding(x) implies x
                < dispatch.next_id_spec() by {
                let k = choose|k: int| 0 <= k < post.len() && post[k] == x;
                if k < pre.len() {
                    assert(pre.contains(x));
                    assert(old(dispatch).is_outstanding(x));
                } else {
                    assert(post[post.len() - 1] == id);
                }
            }
        }
        let context = match ctx {
            Some(c) => c,
            None => self.fresh_context(now, trace_id),
        };
        let envelope = RequestEnvelope { correlation_id: id, context, payload: req };
        CallStart::Enqueued(PendingCall { correlation_id: id }, envelope)
    }
}

/// The outcome of starting a call: registered with its envelope to send, or
/// the request handed back because the loop is at capacity or terminated.
pub enum CallStart<Req> {
    /// The call is registered; write the envelope, then await the resolution
    /// of the pending call's id.
    Enqueued(PendingCall, RequestEnvelope<Req>),
    /// The loop can take no further call right now; retry once one resolves.
    Refused(Req),
    /// The transport already closed or failed; the call observes [`RpcError::Shutdown`].
    Closed(Req),
}

/// Builds the resolutions owed after transport closure: one delivery per
/// abandoned id, each resolving its own call with the transport failure.
pub fn closure_failures<Resp>(abandoned: &Vec<u64>) -> (v: Vec<Delivery<Resp>>)
    ensures
        v@.len() == abandoned@.len(),
        forall|k: int|
            0 <= k < v@.len() ==> #[trigger] v@[k].correlation_id == abandoned@[k] && v@[k].result
                == Err::<Resp, RpcError>(RpcError::Shutdown),
{
    let mut v: Vec<Delivery<Resp>> = Vec::new();
    let mut i: usize = 0;
    while i < abandoned.len()
        invariant
            0 <= i <= abandoned@.len(),
            v@.len() == i,
            forall|k: int|
                0 <= k < i ==> #[trigger] v@[k].correlation_id == abandoned@[k] && v@[k].result
                    == Err::<Resp, RpcError>(RpcError::Shutdown),
        decreases abandoned@.len() - i,
    {
        v.push(Delivery { correlation_id: abandoned[i], result: Err(RpcError::Shutdown) });
        i += 1;
    }
    v
}

/// Law: concurrent calls sharing one dispatch loop are isolated. Resolving the
/// slot for one correlation id — by response, deadline or cancellation —
/// releases that slot alone: every other outstanding call is still
/// outstanding, still resolvable, and the loop is open exactly as before,
/// whatever the arrival interleaving.
pub proof fn lemma_calls_isolated(pre: Dispatch, post: Dispatch, id: u64, other: u64)
    requires
        resolve_step(pre, id, post),
        other != id,
        pre.is_outstanding(other),
    ensures
        post.is_outstanding(other),
        post.is_closed() == pre.is_closed(),
{
}

/// Law: a resolution slot is released exactly once. After the slot for a
/// correlation id is resolved, no state is reachable by resolving it again —
/// a late or duplicate response for that id can only be dropped — until a new
/// call is registered under that id.
pub proof fn lemma_slot_released_once(pre: Dispatch, post: Dispatch, later: Dispatch, id: u64)
    requires
        resolve_step(pre, id, post),
    ensures
        !resolve_step(post, id, later),
{
}

/// Law: an elapsed deadline or a cancelled caller abandons only its own slot,
/// and the loop remains usable afterwards: it is open exactly as it was, the
/// id counter is intact, and every other outstanding call is untouched.
pub proof fn lemma_abandon_keeps_loop_usable(pre: Dispatch, post: Dispatch, id: u64, other: u64)
    requires
        resolve_step(pre, id, post),
        other != id,
    ensures
        post.is_closed() == pre.is_closed(),
        post.next_id_spec() == pre.next_id_spec(),
        post.is_outstanding(other) <==> pre.is_outstanding(other),
        !post.is_outstanding(id),
{
}

} // verus!
