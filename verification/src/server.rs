//! Server Channel: turns inbound request envelopes into a sequence of
//! response-delivery units, one per accepted request, in transport read order.
//!
//! The channel only decides; it performs no I/O itself. The embedding program
//! reads envelopes off the transport and hands them to [`ServerChannel::try_accept`],
//! drives each emitted [`ResponseUnit`] (in any order and with any concurrency
//! policy it likes), and writes the envelopes produced by
//! [`ServerChannel::complete`] or [`ServerChannel::drive_unit`] back onto the
//! transport.
use vstd::prelude::*;

use crate::ServerError;
use crate::context::Context;
use crate::envelope::RequestEnvelope;
use crate::envelope::ResponseEnvelope;
use crate::inflight::InFlightIds;
use crate::serve::Serve;

verus! {

/// One emitted unit of work: "run one service invocation to completion, then
/// write the response envelope bearing the same correlation id back onto the
/// transport." Units are independent of one another; the driver chooses the
/// concurrency policy. A unit is consumed exactly once, by
/// [`ServerChannel::complete`], [`ServerChannel::drive_unit`] or
/// [`ServerChannel::cancel`].
pub struct ResponseUnit<Req> {
    correlation_id: u64,
    context: Context,
    payload: Req,
}

impl<Req> ResponseUnit<Req> {
    /// The correlation id of the accepted request this unit answers.
    pub closed spec fn id_spec(self) -> u64 {
        self.correlation_id
    }

    /// The context the service invocation will run under.
    pub closed spec fn ctx_spec(self) -> Context {
        self.context
    }

    /// The request payload the service invocation will consume.
    pub closed spec fn payload_spec(self) -> Req {
        self.payload
    }

    /// Reads the unit's correlation id.
    pub fn correlation_id(&self) -> (id: u64)
        ensures
            id == self.id_spec(),
    {
        self.correlation_id
    }

    /// Reads the context the unit's invocation will run under.
    pub fn context(&self) -> (c: Context)
        ensures
            c == self.ctx_spec(),
    {
        self.context
    }
}

/// The serving side of one duplex transport: accepts inbound request
/// envelopes in read order and tracks which accepted requests still owe a
/// response.
pub struct ServerChannel {
    pending: InFlightIds,
    closed: bool,
    default_deadline: Option<u64>,
}

/// One acceptance: the accepted id is appended to the in-flight ids, in read
/// order, and nothing else changes.
pub open spec fn accept_step(pre: ServerChannel, id: u64, post: ServerChannel) -> bool {
    &&& post.pending_ids() == pre.pending_ids().push(id)
    &&& post.is_closed() == pre.is_closed()
    &&& post.default_deadline_spec() == pre.default_deadline_spec()
}

/// One settlement (completion or driver-side cancellation) of the in-flight
/// unit for `id`: that id alone stops being in flight; every other unit and
/// the channel's own state are untouched.
pub open spec fn settle_step(pre: ServerChannel, id: u64, post: ServerChannel) -> bool {
    &&& pre.is_pending(id)
    &&& !post.is_pending(id)
    &&& forall|x: u64| x != id ==> (post.is_pending(x) <==> pre.is_pending(x))
    &&& post.is_closed() == pre.is_closed()
    &&& post.default_deadline_spec() == pre.default_deadline_spec()
}

impl ServerChannel {
    /// The correlation ids of accepted requests that still owe a response.
    pub closed spec fn pending_ids(self) -> Seq<u64> {
        self.pending@
    }

    /// Whether the request with this correlation id has been accepted and not
    /// yet settled.
    pub open spec fn is_pending(self, id: u64) -> bool {
        self.pending_ids().contains(id)
    }

    /// Whether the transport has signalled end-of-stream or a fatal read
    /// error; no further request is accepted afterwards.
    pub closed spec fn is_closed(self) -> bool {
        self.closed
    }

    /// The channel-configured deadline, as a duration in milliseconds, given
    /// to invocations whose caller supplied none; `None` leaves them unbounded.
    pub closed spec fn default_deadline_spec(self) -> Option<u64> {
        self.default_deadline
    }

    /// Well-formed: no correlation id is in flight twice.
    pub open spec fn wf(self) -> bool {
        self.pending_ids().no_duplicates()
    }

    /// The context an accepted request's invocation runs under: the
    /// caller-supplied context if it carries a deadline, else the same trace
    /// under the channel-configured default deadline taken from instant `now`
    /// (saturating at the largest representable instant).
    pub open spec fn effective_context(self, ctx: Context, now: u64) -> Context {
        if ctx.deadline is Some {
            ctx
        } else {
            match self.default_deadline_spec() {
                Some(d) => Context {
                    deadline: Some(if now + d > u64::MAX { u64::MAX } else { (now + d) as u64 }),
                    trace_id: ctx.trace_id,
                },
                None => ctx,
            }
        }
    }

    /// A fresh channel over a newly opened transport. `default_deadline` is
    /// the duration in milliseconds granted to requests whose caller supplied
    /// no deadline; `None` leaves such requests unbounded.
    pub fn new(default_deadline: Option<u64>) -> (c: ServerChannel)
        ensures
            c.pending_ids() == Seq::<u64>::empty(),
            !c.is_closed(),
            c.default_deadline_spec() == default_deadline,
            c.wf(),
    {
        ServerChannel { pending: InFlightIds::new(), closed: false, default_deadline }
    }

    /// Decides whether the unit for this correlation id is still in flight.
    pub fn has_pending(&self, id: u64) -> (r: bool)
        ensures
            r == self.is_pending(id),
    {
        self.pending.contains(id)
    }

    /// Accepts one inbound request envelope, read at instant `now`, and emits
    /// its response-delivery unit. Acceptance order is transport read order.
    /// The unit runs under the caller's context, or under the channel default
    /// deadline where the caller supplied none.
    pub fn accept<Req>(&mut self, env: RequestEnvelope<Req>, now: u64) -> (unit: ResponseUnit<Req>)
        requires
            old(self).wf(),
            !old(self).is_closed(),
            !old(self).is_pending(env.correlation_id),
        ensures
            final(self).wf(),
            accept_step(*old(self), env.correlation_id, *final(self)),
            final(self).is_pending(env.correlation_id),
            unit.id_spec() == env.correlation_id,
            unit.ctx_spec() == old(self).effective_context(env.context, now),
            unit.payload_spec() == env.payload,
    {
        let context = if env.context.deadline.is_some() {
            env.context
        } else {
            match self.default_deadline {
                Some(d) => Context {
                    deadline: Some(now.saturating_add(d)),
                    trace_id: env.context.trace_id,
                },
                None => env.context,
            }
        };
        self.pending.insert(env.correlation_id);
        proof {
            let post = self.pending_ids();
            assert(post[post.len() - 1] == env.correlation_id);
        }
        ResponseUnit { correlation_id: env.correlation_id, context, payload: env.payload }
    }

    /// Accepts one inbound envelope if the channel can take it: rejects it
    /// without effect when the channel is closed or when its correlation id is
    /// already in flight (a protocol anomaly, non-fatal to the channel).
    pub fn try_accept<Req>(&mut self, env: RequestEnvelope<Req>, now: u64) -> (r: Option<
        ResponseUnit<Req>,
    >)
        requires
            old(self).wf(),
        ensures
            final(self).wf(),
            r is Some <==> !old(self).is_closed() && !old(self).is_pending(env.correlation_id),
            match r {
                Some(unit) => {
                    &&& accept_step(*old(self), env.correlation_id, *final(self))
                    &&& final(self).is_pending(env.correlation_id)
                    &&& unit.id_spec() == env.correlation_id
                    &&& unit.ctx_spec() == old(self).effective_context(env.context, now)
                    &&& unit.payload_spec() == env.payload
                },
                None => *final(self) == *old(self),
            },
    {
        if self.closed {
            return None;
        }
        if self.pending.contains(env.correlation_id) {
            return None;
        }
        Some(self.accept(env, now))
    }

    /// Consumes one response-delivery unit with the result its invocation
    /// resolved to, and produces the response envelope to write back: it bears
    /// the unit's own correlation id and exactly that result. All other
    /// in-flight units are untouched.
    pub fn complete<Req, Resp>(&mut self, unit: ResponseUnit<Req>, result: Result<
        Resp,
        ServerError,
    >) -> (env: ResponseEnvelope<Resp>)
        requires
            old(self).wf(),
            old(self).is_pending(unit.id_spec()),
        ensures
            final(self).wf(),
            settle_step(*old(self), unit.id_spec(), *final(self)),
            env.correlation_id == unit.id_spec(),
            env.result == result,
    {
        self.pending.remove(unit.correlation_id);
        ResponseEnvelope { correlation_id: unit.correlation_id, result }
    }

    /// Drives one unit to completion against a fresh service instance: the
    /// invocation consumes the unit's context and payload, and the envelope
    /// produced bears the unit's correlation id and a result the service's own
    /// contract allows for exactly that context and payload.
    pub fn drive_unit<S: Serve>(&mut self, unit: ResponseUnit<S::Req>, service: S) -> (env:
        ResponseEnvelope<S::Resp>)
        requires
            old(self).wf(),
            old(self).is_pending(unit.id_spec()),
            service.serve_requires(unit.ctx_spec(), unit.payload_spec()),
        ensures
            final(self).wf(),
            settle_step(*old(self), unit.id_spec(), *final(self)),
            env.correlation_id == unit.id_spec(),
            service.serve_ensures(unit.ctx_spec(), unit.payload_spec(), env.result),
    {
        let ResponseUnit { correlation_id, context, payload } = unit;
        self.pending.remove(correlation_id);
        let result = service.serve(context, payload);
        ResponseEnvelope { correlation_id, result }
    }

    /// Handles one inbound envelope end to end under the simplest driving
    /// policy, completion immediately on acceptance: accepts the envelope,
    /// runs a fresh service instance against it, and produces the response
    /// envelope to write back. An envelope the channel cannot take — the
    /// channel is closed, or the correlation id is already in flight — is
    /// rejected without effect. A handled request leaves the in-flight set as
    /// it was found.
    pub fn execute_one<S: Serve>(&mut self, env: RequestEnvelope<S::Req>, service: S, now: u64) -> (r:
        Option<ResponseEnvelope<S::Resp>>)
        requires
            old(self).wf(),
            service.serve_requires(
                old(self).effective_context(env.context, now),
                env.payload,
            ),
        ensures
            final(self).wf(),
            r is Some <==> !old(self).is_closed() && !old(self).is_pending(env.correlation_id),
            match r {
                Some(resp) => {
                    &&& resp.correlation_id == env.correlation_id
                    &&& service.serve_ensures(
                        old(self).effective_context(env.context, now),
                        env.payload,
                        resp.result,
                    )
                    &&& forall|x: u64| final(self).is_pending(x) <==> old(self).is_pending(x)
                    &&& final(self).is_closed() == old(self).is_closed()
                    &&& final(self).default_deadline_spec() == old(self).default_deadline_spec()
                },
                None => *final(self) == *old(self),
            },
    {
        let ghost id = env.correlation_id;
        let ghost pre = *old(self);
        match self.try_accept(env, now) {
            Some(unit) => {
                let resp = self.drive_unit(unit, service);
                proof {
                    let mid_ids = pre.pending_ids().push(id);
                    assert forall|x: u64| self.is_pending(x) implies pre.is_pending(x) by {
                        assert(x != id);
                        assert(mid_ids.contains(x));
                        let k = choose|k: int| 0 <= k < mid_ids.len() && mid_ids[k] == x;
                        if k == mid_ids.len() - 1 {
                            assert(x == id);
                        } else {
                            assert(pre.pending_ids()[k] == x);
                            assert(pre.pending_ids().contains(x));
                        }
                    }
                    assert forall|x: u64| pre.is_pending(x) implies self.is_pending(x) by {
                        let k = choose|k: int|
                            0 <= k < pre.pending_ids().len() && pre.pending_ids()[k] == x;
                        assert(mid_ids[k] == x);
                        assert(mid_ids.contains(x));
                        assert(x != id);
                    }
                }
                Some(resp)
            },
            None => None,
        }
    }

    /// Drops one unit before completion (driver-side cancellation). No
    /// response envelope is produced for it, and every other in-flight unit is
    /// untouched.
    pub fn cancel<Req>(&mut self, unit: ResponseUnit<Req>)
        requires
            old(self).wf(),
            old(self).is_pending(unit.id_spec()),
        ensures
            final(self).wf(),
            settle_step(*old(self), unit.id_spec(), *final(self)),
    {
        self.pending.remove(unit.correlation_id);
    }

    /// Records that the transport signalled end-of-stream or a fatal read
    /// error: the sequence of units is exhausted and no further request is
    /// accepted. Units already emitted are unaffected; their drivers may still
    /// settle them.
    pub fn close(&mut self)
        requires
            old(self).wf(),
        ensures
            final(self).wf(),
            final(self).is_closed(),
            final(self).pending_ids() == old(self).pending_ids(),
            final(self).default_deadline_spec() == old(self).default_deadline_spec(),
    {
        self.closed = true;
    }
}

/// Law: for every request accepted by a channel, at most one response envelope
/// is ever produced: once the unit for a correlation id has been settled, no
/// further settlement of that id is possible — from the settled state, no
/// channel state is reachable by settling that id again — until a new request
/// bearing that id is accepted.
pub proof fn lemma_exactly_one_response(
    pre: ServerChannel,
    post: ServerChannel,
    later: ServerChannel,
    id: u64,
)
    requires
        settle_step(pre, id, post),
    ensures
        !settle_step(post, id, later),
{
}

/// Law: settling one response-delivery unit — completing it or cancelling it
/// before completion — leaves every other concurrently emitted unit exactly as
/// it was, and leaves the channel open or closed as it was.
pub proof fn lemma_units_independent(
    pre: ServerChannel,
    post: ServerChannel,
    id: u64,
    other: u64,
)
    requires
        settle_step(pre, id, post),
        other != id,
    ensures
        post.is_pending(other) <==> pre.is_pending(other),
        post.is_closed() == pre.is_closed(),
{
}

} // verus!
