//! Fan-out: planning one independent handler invocation for every handler
//! registered for a dispatched envelope's event type.

use crate::dispatched_event::DispatchedEvent;
use crate::dispatched_event::EnvelopeModel;
use crate::registry::registers;
use crate::registry::Registry;
use vstd::prelude::*;

verus! {

/// The mathematical content of an [`Invocation`]: which handler slot runs,
/// and the envelope it is handed.
pub ghost struct InvocationModel {
    pub handler: u64,
    pub envelope: EnvelopeModel,
}

/// One planned handler run: the handler's slot and its own copy of the
/// envelope. The executor spawns one independent task per invocation.
pub struct Invocation {
    handler: u64,
    envelope: DispatchedEvent,
}

impl View for Invocation {
    type V = InvocationModel;

    closed spec fn view(&self) -> InvocationModel {
        InvocationModel { handler: self.handler, envelope: self.envelope@ }
    }
}

impl Invocation {
    /// The slot of the handler this invocation is for.
    pub fn handler(&self) -> (r: u64)
        ensures
            r == self@.handler,
    {
        self.handler
    }

    /// The envelope the handler is handed.
    pub fn envelope(&self) -> (r: &DispatchedEvent)
        ensures
            r@ == self@.envelope,
    {
        &self.envelope
    }

    /// Gives up the invocation and hands its envelope out, to be moved into
    /// the handler's task.
    pub fn into_envelope(self) -> (r: DispatchedEvent)
        ensures
            r@ == self@.envelope,
    {
        self.envelope
    }
}

/// The invocations one dispatch of `env` fans out to, given registry `reg`:
/// one per handler registered for `env`'s type, in registration order, each
/// carrying `env`.
pub open spec fn planned_invocations(reg: Registry, env: EnvelopeModel) -> Seq<InvocationModel> {
    reg.handlers_of(env.type_id).map_values(|h: u64| InvocationModel { handler: h, envelope: env })
}

/// Plans the fan-out of one envelope: exactly one invocation per handler
/// registered for the envelope's event type, in registration order, each
/// holding a copy of the envelope. With no handler registered the plan is
/// empty and dispatch is a no-op.
pub fn fan_out(registry: &Registry, envelope: &DispatchedEvent) -> (r: Vec<Invocation>)
    ensures
        r@.len() == registry.handlers_of(envelope@.type_id).len(),
        forall|i: int|
            0 <= i < r@.len() ==> r@[i]@ == (InvocationModel {
                handler: registry.handlers_of(envelope@.type_id)[i],
                envelope: envelope@,
            }),
        r@.map_values(|inv: Invocation| inv@) == planned_invocations(*registry, envelope@),
{
    let ids = registry.handlers_for(envelope.event_type());
    let mut out: Vec<Invocation> = Vec::new();
    let mut i: usize = 0;
    while i < ids.len()
        invariant
            i <= ids@.len(),
            ids@ == registry.handlers_of(envelope@.type_id),
            out@.len() == i,
            forall|j: int|
                0 <= j < i ==> out@[j]@ == (InvocationModel {
                    handler: ids@[j],
                    envelope: envelope@,
                }),
        decreases ids@.len() - i,
    {
        out.push(Invocation { handler: ids[i], envelope: envelope.clone() });
        i = i + 1;
    }
    proof {
        assert(out@.map_values(|inv: Invocation| inv@) =~= planned_invocations(
            *registry,
            envelope@,
        ));
    }
    out
}

/// The dispatcher's read-only core: it owns the registry and, for each
/// received envelope, plans the fan-out the executor then spawns. The channel
/// and the spawning itself are the executor's.
pub struct EventDispatcher {
    registry: Registry,
}

impl EventDispatcher {
    /// The registry the dispatcher was built over.
    pub closed spec fn model(self) -> Registry {
        self.registry
    }

    /// Builds the dispatcher over a populated registry; the registry is
    /// logically frozen from here on.
    pub fn new(registry: Registry) -> (r: Self)
        ensures
            r.model() == registry,
    {
        EventDispatcher { registry }
    }

    /// One step of the consumer loop: plans the fan-out of one received
    /// envelope against the frozen registry.
    pub fn consume(&self, envelope: &DispatchedEvent) -> (r: Vec<Invocation>)
        ensures
            r@.len() == self.model().handlers_of(envelope@.type_id).len(),
            forall|i: int|
                0 <= i < r@.len() ==> r@[i]@ == (InvocationModel {
                    handler: self.model().handlers_of(envelope@.type_id)[i],
                    envelope: envelope@,
                }),
            r@.map_values(|inv: Invocation| inv@) == planned_invocations(self.model(), envelope@),
    {
        fan_out(&self.registry, envelope)
    }
}

/// Law: one dispatch plans exactly one invocation per registered handler for
/// the envelope's type, in registration order, and every invocation carries
/// the dispatched envelope itself.
pub proof fn lemma_fan_out_exact(reg: Registry, env: EnvelopeModel)
    ensures
        planned_invocations(reg, env).len() == reg.handlers_of(env.type_id).len(),
        forall|i: int|
            0 <= i < planned_invocations(reg, env).len() ==> planned_invocations(reg, env)[i]
                == (InvocationModel { handler: reg.handlers_of(env.type_id)[i], envelope: env }),
{
}

/// Law: dispatching an event type with no registered handlers plans nothing;
/// it is a no-op, not an error.
pub proof fn lemma_no_handlers_nothing_planned(reg: Registry, env: EnvelopeModel)
    requires
        reg.handlers_of(env.type_id).len() == 0,
    ensures
        planned_invocations(reg, env) == Seq::<InvocationModel>::empty(),
{
    assert(planned_invocations(reg, env) =~= Seq::<InvocationModel>::empty());
}

/// Law: registering the same handler twice for the same event type makes a
/// dispatch of that type invoke it exactly twice more than before: the plan
/// is the old plan with two invocations of that handler appended.
pub proof fn lemma_same_handler_twice(
    r0: Registry,
    r1: Registry,
    r2: Registry,
    t: Seq<char>,
    h: u64,
    env: EnvelopeModel,
)
    requires
        registers(r0, r1, t, h),
        registers(r1, r2, t, h),
        env.type_id == t,
    ensures
        planned_invocations(r2, env) == planned_invocations(r0, env).push(
            (InvocationModel { handler: h, envelope: env }),
        ).push((InvocationModel { handler: h, envelope: env })),
{
    assert(planned_invocations(r2, env) =~= planned_invocations(r0, env).push(
        (InvocationModel { handler: h, envelope: env }),
    ).push((InvocationModel { handler: h, envelope: env })));
}

/// Law: a handler not registered for the dispatched envelope's event type is
/// never part of the fan-out of that envelope.
pub proof fn lemma_unregistered_handler_not_invoked(reg: Registry, env: EnvelopeModel, h: u64)
    requires
        !reg.handlers_of(env.type_id).contains(h),
    ensures
        forall|i: int|
            0 <= i < planned_invocations(reg, env).len() ==> planned_invocations(reg, env)[i].handler
                != h,
{
    assert forall|i: int|
        0 <= i < planned_invocations(reg, env).len() implies planned_invocations(
        reg,
        env,
    )[i].handler != h by {
        assert(planned_invocations(reg, env)[i].handler == reg.handlers_of(env.type_id)[i]);
    }
}

/// Law: a registration for one event type leaves the fan-out of every other
/// event type exactly as it was.
pub proof fn lemma_registration_for_other_type(
    r0: Registry,
    r1: Registry,
    t: Seq<char>,
    h: u64,
    env: EnvelopeModel,
)
    requires
        registers(r0, r1, t, h),
        env.type_id != t,
    ensures
        planned_invocations(r1, env) == planned_invocations(r0, env),
{
}

} // verus!
