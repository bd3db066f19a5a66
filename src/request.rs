//! The shared request list, the simulation's cursor into it, and the routine
//! that drains the list into the world.

use crate::object::ObjectRequest;
use crate::types::ThreadSafeVecRw;
use crate::world::{set_position_effect, spawn_effect, SimulatedObject, World};
use vstd::prelude::*;

verus! {

/// A request that crosses from the network threads to the simulation.
#[derive(Debug, Clone, Copy, PartialEq, Eq, Structural)]
pub enum InternalRequest {
    ObjectRequest(ObjectRequest),
}

impl InternalRequest {
    /// The request passed validation: every color channel in `[0, 1]`.
    pub open spec fn is_valid(self) -> bool {
        match self {
            InternalRequest::ObjectRequest(r) => r.is_valid(),
        }
    }
}

/// The objects after one request.
pub open spec fn apply_request(objects: Seq<SimulatedObject>, request: InternalRequest) -> Seq<
    SimulatedObject,
> {
    match request {
        InternalRequest::ObjectRequest(ObjectRequest::Spawn(s)) => spawn_effect(objects, s),
        InternalRequest::ObjectRequest(ObjectRequest::SetPosition(p)) => set_position_effect(
            objects,
            p,
        ),
    }
}

/// The objects after the requests, applied one after another in order.
pub open spec fn apply_requests(objects: Seq<SimulatedObject>, requests: Seq<InternalRequest>) -> Seq<
    SimulatedObject,
>
    decreases requests.len(),
{
    if requests.len() == 0 {
        objects
    } else {
        apply_request(apply_requests(objects, requests.drop_last()), requests.last())
    }
}

/// Every request passed validation.
pub open spec fn all_valid(requests: Seq<InternalRequest>) -> bool {
    forall|i: int| 0 <= i < requests.len() ==> (#[trigger] requests[i]).is_valid()
}

/// One simulation tick on the list `log`, from `cursor`: the requests from the
/// cursor to the end are applied in order, and the cursor moves past them.
pub open spec fn tick(cursor: nat, objects: Seq<SimulatedObject>, log: Seq<InternalRequest>) -> (
    nat,
    Seq<SimulatedObject>,
) {
    let pending = log.subrange(cursor as int, log.len() as int);
    (cursor + pending.len(), apply_requests(objects, pending))
}

/// The append-only list of validated requests that the request handlers
/// append to and the simulation reads. Threads share it behind a
/// reader-writer lock that its owner holds.
pub struct InternalRequestList {
    list: ThreadSafeVecRw<InternalRequest>,
}

impl View for InternalRequestList {
    type V = Seq<InternalRequest>;

    closed spec fn view(&self) -> Seq<InternalRequest> {
        self.list@
    }
}

impl InternalRequestList {
    /// Every entry passed validation.
    pub open spec fn well_formed(&self) -> bool {
        all_valid(self@)
    }

    /// Creates an empty request list.
    pub fn new() -> (r: Self)
        ensures
            r@ == Seq::<InternalRequest>::empty(),
            r.well_formed(),
    {
        InternalRequestList { list: ThreadSafeVecRw::new() }
    }

    /// Appends a validated request.
    pub fn push(&mut self, request: InternalRequest)
        requires
            old(self).well_formed(),
            request.is_valid(),
        ensures
            final(self)@ == old(self)@.push(request),
            final(self).well_formed(),
    {
        self.list.push(request);
        assert forall|i: int| 0 <= i < self@.len() implies (#[trigger] self@[i]).is_valid() by {
            if i < self@.len() - 1 {
                assert(self@[i] == old(self)@[i]);
            }
        }
    }

    /// The underlying vector.
    pub fn requests(&self) -> (r: &ThreadSafeVecRw<InternalRequest>)
        ensures
            r@ == self@,
    {
        &self.list
    }

    /// The number of requests.
    pub fn len(&self) -> (r: usize)
        ensures
            r == self@.len(),
    {
        self.list.len()
    }
}

/// How far the simulation has read the request list.
#[derive(Debug)]
pub struct InternalRequestCursor {
    pub current_position: usize,
}

impl InternalRequestCursor {
    /// A cursor at the start of the list.
    pub fn new() -> (r: Self)
        ensures
            r.current_position == 0,
    {
        InternalRequestCursor { current_position: 0 }
    }

    /// Rewinds to the start of the list.
    pub fn reset(&mut self)
        ensures
            final(self).current_position == 0,
    {
        self.current_position = 0;
    }

    /// Moves past one request.
    pub fn increment(&mut self)
        requires
            old(self).current_position < usize::MAX,
        ensures
            final(self).current_position == old(self).current_position + 1,
    {
        self.current_position = self.current_position + 1;
    }

    /// Moves to `position`.
    pub fn set(&mut self, position: usize)
        ensures
            final(self).current_position == position,
    {
        self.current_position = position;
    }
}

/// Hands each pending request, in order, to the handler for its kind, and
/// advances the cursor past it.
pub fn dispatch(
    cursor: &mut InternalRequestCursor,
    pending: &Vec<InternalRequest>,
    world: &mut World,
)
    requires
        old(cursor).current_position + pending@.len() <= usize::MAX,
        all_valid(pending@),
        old(world).well_formed(),
    ensures
        final(cursor).current_position == old(cursor).current_position + pending@.len(),
        final(world)@ == apply_requests(old(world)@, pending@),
        final(world).well_formed(),
{
    let ghost start = cursor.current_position;
    let ghost objects = world@;
    let mut i: usize = 0;
    while i < pending.len()
        invariant
            i <= pending@.len(),
            start + pending@.len() <= usize::MAX,
            all_valid(pending@),
            cursor.current_position == start + i,
            world.well_formed(),
            world@ == apply_requests(objects, pending@.take(i as int)),
        decreases pending@.len() - i,
    {
        assert(pending@[i as int].is_valid());
        match pending[i] {
            InternalRequest::ObjectRequest(ObjectRequest::Spawn(spawn)) => {
                spawn.event_handler(world);
            },
            InternalRequest::ObjectRequest(ObjectRequest::SetPosition(set_position)) => {
                set_position.event_handler(world);
            },
        }
        cursor.increment();
        assert(pending@.take(i + 1).drop_last() =~= pending@.take(i as int));
        i = i + 1;
    }
    assert(pending@.take(i as int) =~= pending@);
}

/// One simulation tick: the requests from the cursor to the end of the list
/// are handed, in order, to their handlers, and the cursor moves to the end.
/// Returns how many there were.
pub fn process_requests(
    cursor: &mut InternalRequestCursor,
    list: &InternalRequestList,
    world: &mut World,
) -> (n: usize)
    requires
        old(cursor).current_position <= list@.len(),
        list.well_formed(),
        old(world).well_formed(),
    ensures
        n == list@.len() - old(cursor).current_position,
        (final(cursor).current_position as nat, final(world)@) == tick(
            old(cursor).current_position as nat,
            old(world)@,
            list@,
        ),
        final(cursor).current_position == list@.len(),
        final(world).well_formed(),
{
    let total = list.len();
    let pending = list.requests().snapshot_from(cursor.current_position);
    assert(pending@.len() == total - cursor.current_position);
    assert(all_valid(pending@)) by {
        assert forall|i: int| 0 <= i < pending@.len() implies (#[trigger] pending@[i]).is_valid() by {
            assert(pending@[i] == list@[cursor.current_position + i]);
        }
    }
    dispatch(cursor, &pending, world);
    pending.len()
}

} // verus!
