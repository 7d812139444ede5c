//! The mapping from event-type token to the ordered handlers registered
//! for it.

use vstd::prelude::*;

verus! {

/// One registration: a handler bound to one event type. Handlers are held by
/// the small integer slot the executor knows them by; the registry itself
/// only orders them.
struct Registration {
    event_type: String,
    handler: u64,
}

/// The ordered mapping from event-type token to registered handler slots.
///
/// Registrations are kept in the order they were made; registering the same
/// handler twice keeps both entries, so each dispatch then invokes it twice.
pub struct Registry {
    regs: Vec<Registration>,
}

spec fn handlers_in(regs: Seq<Registration>, t: Seq<char>) -> Seq<u64>
    decreases regs.len(),
{
    if regs.len() == 0 {
        Seq::empty()
    } else {
        let rest = handlers_in(regs.drop_last(), t);
        if regs.last().event_type@ == t {
            rest.push(regs.last().handler)
        } else {
            rest
        }
    }
}

/// Relates a registry before and after one registration of handler `h` for
/// event type `t`: the list for `t` grows by `h` at its end, and the list of
/// every other event type is unchanged.
pub open spec fn registers(pre: Registry, post: Registry, t: Seq<char>, h: u64) -> bool {
    &&& post.handlers_of(t) == pre.handlers_of(t).push(h)
    &&& forall|u: Seq<char>| u != t ==> post.handlers_of(u) == pre.handlers_of(u)
}

impl Registry {
    /// The handler slots registered for event type `t`, in registration
    /// order, duplicates kept.
    pub closed spec fn handlers_of(self, t: Seq<char>) -> Seq<u64> {
        handlers_in(self.regs@, t)
    }

    /// A registry with no handlers for any event type.
    pub fn new() -> (r: Self)
        ensures
            forall|t: Seq<char>| r.handlers_of(t) == Seq::<u64>::empty(),
    {
        Registry { regs: Vec::new() }
    }

    /// Appends `handler` to the ordered list for `event_type`. Nothing is
    /// deduplicated, and no other event type is touched.
    pub fn register(&mut self, event_type: String, handler: u64)
        ensures
            registers(*old(self), *final(self), event_type@, handler),
    {
        let ghost pre = self.regs@;
        self.regs.push(Registration { event_type, handler });
        proof {
            assert(self.regs@.drop_last() =~= pre);
        }
    }

    /// The current ordered list of handler slots for `event_type`; empty if
    /// none was registered.
    pub fn handlers_for(&self, event_type: &String) -> (r: Vec<u64>)
        ensures
            r@ == self.handlers_of(event_type@),
    {
        let mut out: Vec<u64> = Vec::new();
        let mut i: usize = 0;
        while i < self.regs.len()
            invariant
                i <= self.regs@.len(),
                out@ == handlers_in(self.regs@.take(i as int), event_type@),
            decreases self.regs@.len() - i,
        {
            let reg = &self.regs[i];
            if reg.event_type == *event_type {
                out.push(reg.handler);
            }
            proof {
                assert(self.regs@.take(i + 1 as int).drop_last() =~= self.regs@.take(i as int));
                assert(self.regs@.take(i + 1 as int).last() == self.regs@[i as int]);
            }
            i = i + 1;
        }
        proof {
            assert(self.regs@.take(self.regs@.len() as int) =~= self.regs@);
        }
        out
    }

    /// How many registrations the registry holds over all event types.
    pub fn len(&self) -> (r: usize)
        ensures
            r == self.total_len(),
    {
        self.regs.len()
    }

    /// The total number of registrations, over all event types.
    pub closed spec fn total_len(self) -> nat {
        self.regs@.len()
    }
}

} // verus!
