//! The simulated objects and the two handlers that change them.

use crate::object::{ObjectId, ObjectProperties, SetObjectPositionRequest, SpawnObjectRequest, Vec3};
use vstd::prelude::*;

verus! {

/// An object of the simulation.
#[derive(Debug, Clone, Copy, PartialEq, Eq, Structural)]
pub struct SimulatedObject {
    pub object_id: ObjectId,
    pub object_properties: ObjectProperties,
    /// Where the object is now; only interpolation moves it.
    pub current_position: Vec3,
    /// Where the object is heading; set by position requests.
    pub target_position: Vec3,
}

/// No two objects share an identity.
pub open spec fn ids_unique(objects: Seq<SimulatedObject>) -> bool {
    forall|i: int, j: int|
        0 <= i < objects.len() && 0 <= j < objects.len() && i != j ==> (#[trigger] objects[i]).object_id
            != (#[trigger] objects[j]).object_id
}

/// Every object's color lies in the unit cube.
pub open spec fn colors_valid(objects: Seq<SimulatedObject>) -> bool {
    forall|i: int| 0 <= i < objects.len() ==> (#[trigger] objects[i]).object_properties.is_valid()
}

/// Some object has identity `id`.
pub open spec fn has_object(objects: Seq<SimulatedObject>, id: ObjectId) -> bool {
    exists|i: int| 0 <= i < objects.len() && (#[trigger] objects[i]).object_id == id
}

/// The object that a spawn request creates.
pub open spec fn spawned_object(request: SpawnObjectRequest) -> SimulatedObject {
    SimulatedObject {
        object_id: request.object_id,
        object_properties: request.object_properties,
        current_position: request.position,
        target_position: request.position,
    }
}

/// The objects after a spawn request: one more object, unless its identity is
/// taken already.
pub open spec fn spawn_effect(objects: Seq<SimulatedObject>, request: SpawnObjectRequest) -> Seq<
    SimulatedObject,
> {
    if has_object(objects, request.object_id) {
        objects
    } else {
        objects.push(spawned_object(request))
    }
}

/// One object after a position request: its target changes if the identity
/// matches.
pub open spec fn retargeted(object: SimulatedObject, request: SetObjectPositionRequest) -> SimulatedObject {
    if object.object_id == request.object_id {
        SimulatedObject { target_position: request.position, ..object }
    } else {
        object
    }
}

/// The objects after a position request.
pub open spec fn set_position_effect(
    objects: Seq<SimulatedObject>,
    request: SetObjectPositionRequest,
) -> Seq<SimulatedObject> {
    objects.map_values(|o: SimulatedObject| retargeted(o, request))
}

/// The simulated objects, in the order in which they were created.
pub struct World {
    objects: Vec<SimulatedObject>,
}

impl View for World {
    type V = Seq<SimulatedObject>;

    closed spec fn view(&self) -> Seq<SimulatedObject> {
        self.objects@
    }
}

impl World {
    /// No two objects share an identity, and every color is valid.
    pub open spec fn well_formed(&self) -> bool {
        ids_unique(self@) && colors_valid(self@)
    }

    /// A world without objects.
    pub fn new() -> (r: World)
        ensures
            r@ == Seq::<SimulatedObject>::empty(),
            r.well_formed(),
    {
        World { objects: Vec::new() }
    }

    /// The objects.
    pub fn objects(&self) -> (r: &Vec<SimulatedObject>)
        ensures
            r@ == self@,
    {
        &self.objects
    }

    /// The number of objects.
    pub fn len(&self) -> (r: usize)
        ensures
            r == self@.len(),
    {
        self.objects.len()
    }

    /// The position of the object with identity `id`, if there is one.
    pub fn find(&self, id: ObjectId) -> (r: Option<usize>)
        ensures
            match r {
                Some(i) => i < self@.len() && self@[i as int].object_id == id,
                None => !has_object(self@, id),
            },
    {
        let mut i: usize = 0;
        while i < self.objects.len()
            invariant
                i <= self.objects@.len(),
                forall|j: int| 0 <= j < i ==> (#[trigger] self.objects@[j]).object_id != id,
            decreases self.objects@.len() - i,
        {
            if self.objects[i].object_id == id {
                return Some(i);
            }
            i = i + 1;
        }
        None
    }

    /// Moves the object at `index` to `position`, leaving its target alone.
    pub fn set_current_position(&mut self, index: usize, position: Vec3)
        requires
            old(self).well_formed(),
            index < old(self)@.len(),
        ensures
            final(self).well_formed(),
            final(self)@ == old(self)@.update(
                index as int,
                SimulatedObject { current_position: position, ..old(self)@[index as int] },
            ),
    {
        let mut object = self.objects[index];
        object.current_position = position;
        self.objects.set(index, object);
    }
}

impl SpawnObjectRequest {
    /// Creates the requested object, with both its current and its target
    /// position at the requested position. A request whose identity is taken
    /// already changes nothing, so that each identity names one object.
    pub fn event_handler(&self, world: &mut World)
        requires
            old(world).well_formed(),
            self.object_properties.is_valid(),
        ensures
            final(world).well_formed(),
            final(world)@ == spawn_effect(old(world)@, *self),
    {
        match world.find(self.object_id) {
            Some(_) => {},
            None => {
                let ghost before = world@;
                world.objects.push(
                    SimulatedObject {
                        object_id: self.object_id,
                        object_properties: self.object_properties,
                        current_position: self.position,
                        target_position: self.position,
                    },
                );
                assert(world@ == before.push(spawned_object(*self)));
                assert(ids_unique(world@)) by {
                    assert forall|i: int, j: int|
                        0 <= i < world@.len() && 0 <= j < world@.len() && i != j implies (
                        #[trigger] world@[i]).object_id != (#[trigger] world@[j]).object_id by {
                        if i == before.len() as int {
                            assert(world@[j] == before[j]);
                        } else if j == before.len() as int {
                            assert(world@[i] == before[i]);
                        }
                    }
                }
            },
        }
    }
}

impl SetObjectPositionRequest {
    /// Sets the target position of the object with the requested identity.
    /// When no object has it, nothing changes: the request is dropped.
    pub fn event_handler(&self, world: &mut World)
        requires
            old(world).well_formed(),
        ensures
            final(world).well_formed(),
            final(world)@ == set_position_effect(old(world)@, *self),
    {
        let ghost before = world@;
        let mut i: usize = 0;
        while i < world.objects.len()
            invariant
                i <= world@.len(),
                world@.len() == before.len(),
                forall|j: int| 0 <= j < i ==> #[trigger] world@[j] == retargeted(before[j], *self),
                forall|j: int| i <= j < world@.len() ==> #[trigger] world@[j] == before[j],
                ids_unique(before),
                colors_valid(before),
            decreases world@.len() - i,
        {
            if world.objects[i].object_id == self.object_id {
                let mut object = world.objects[i];
                object.target_position = self.position;
                world.objects.set(i, object);
            }
            i = i + 1;
        }
        assert(world@ =~= set_position_effect(before, *self));
        assert(ids_unique(world@)) by {
            assert forall|a: int, b: int|
                0 <= a < world@.len() && 0 <= b < world@.len() && a != b implies (
                #[trigger] world@[a]).object_id != (#[trigger] world@[b]).object_id by {
                assert(world@[a].object_id == before[a].object_id);
                assert(world@[b].object_id == before[b].object_id);
            }
        }
        assert(colors_valid(world@)) by {
            assert forall|a: int| 0 <= a < world@.len() implies (
            #[trigger] world@[a]).object_properties.is_valid() by {
                assert(world@[a].object_properties == before[a].object_properties);
            }
        }
    }
}

} // verus!
