//! Properties that relate several operations of the library.

use crate::object::{in_unit_interval, ObjectProperties, ObjectRequest, SetObjectPositionRequest, Vec3};
use crate::proto;
use crate::request::{apply_request, apply_requests, tick, InternalRequest};
use crate::service::{ids_increasing, spawn_validation, spawned_id, SpawnObjectError};
use crate::world::{has_object, set_position_effect, SimulatedObject};
use vstd::prelude::*;

verus! {

/// Applying two runs of requests one after the other is applying their
/// concatenation.
pub proof fn lemma_apply_requests_concat(
    objects: Seq<SimulatedObject>,
    first: Seq<InternalRequest>,
    second: Seq<InternalRequest>,
)
    ensures
        apply_requests(apply_requests(objects, first), second) == apply_requests(
            objects,
            first + second,
        ),
    decreases second.len(),
{
    if second.len() == 0 {
        assert(first + second =~= first);
    } else {
        lemma_apply_requests_concat(objects, first, second.drop_last());
        assert((first + second).drop_last() =~= first + second.drop_last());
        assert((first + second).last() == second.last());
    }
}

/// Ticks on successive states of the list, from cursor zero and `objects`.
pub open spec fn run_ticks(objects: Seq<SimulatedObject>, logs: Seq<Seq<InternalRequest>>) -> (
    nat,
    Seq<SimulatedObject>,
)
    decreases logs.len(),
{
    if logs.len() == 0 {
        (0, objects)
    } else {
        let before = run_ticks(objects, logs.drop_last());
        tick(before.0, before.1, logs.last())
    }
}

/// Each state of the list extends the one before: entries are only appended.
pub open spec fn append_only(logs: Seq<Seq<InternalRequest>>) -> bool {
    forall|i: int| 0 <= i < logs.len() - 1 ==> (#[trigger] logs[i]).is_prefix_of(logs[i + 1])
}

/// `tick` is what `process_requests` does. However the appends fall between
/// ticks, after the ticks the cursor equals
/// the number of requests appended, every request has been applied exactly
/// once and in order, and one more tick without new appends changes neither
/// the cursor nor the objects.
pub proof fn lemma_cursor_tracks_list(
    objects: Seq<SimulatedObject>,
    logs: Seq<Seq<InternalRequest>>,
)
    requires
        logs.len() > 0,
        append_only(logs),
    ensures
        run_ticks(objects, logs) == (logs.last().len(), apply_requests(objects, logs.last())),
        tick(run_ticks(objects, logs).0, run_ticks(objects, logs).1, logs.last()) == run_ticks(
            objects,
            logs,
        ),
    decreases logs.len(),
{
    let last = logs.last();
    if logs.len() == 1 {
        assert(last.subrange(0, last.len() as int) =~= last);
    } else {
        let earlier = logs.drop_last();
        assert(append_only(earlier)) by {
            assert forall|i: int| 0 <= i < earlier.len() - 1 implies (
            #[trigger] earlier[i]).is_prefix_of(earlier[i + 1]) by {
                assert(logs[i].is_prefix_of(logs[i + 1]));
            }
        }
        lemma_cursor_tracks_list(objects, earlier);
        let prev = earlier.last();
        assert(prev.is_prefix_of(last)) by {
            assert(logs[logs.len() - 2].is_prefix_of(logs[logs.len() - 1]));
        }
        let pending = last.subrange(prev.len() as int, last.len() as int);
        lemma_apply_requests_concat(objects, prev, pending);
        assert(prev + pending =~= last);
    }
    let end = run_ticks(objects, logs);
    assert(last.subrange(end.0 as int, last.len() as int) =~= Seq::<InternalRequest>::empty());
}

/// A position request for an identity that no object has is dropped: the
/// objects stay as they were.
pub proof fn lemma_unknown_identity_dropped(
    objects: Seq<SimulatedObject>,
    request: SetObjectPositionRequest,
)
    requires
        !has_object(objects, request.object_id),
    ensures
        set_position_effect(objects, request) == objects,
        apply_request(
            objects,
            InternalRequest::ObjectRequest(ObjectRequest::SetPosition(request)),
        ) == objects,
{
    assert(set_position_effect(objects, request) =~= objects) by {
        assert forall|i: int| 0 <= i < objects.len() implies objects[i].object_id
            != request.object_id by {
            if objects[i].object_id == request.object_id {
                assert(has_object(objects, request.object_id));
            }
        }
    }
}

/// A spawn request whose explicit color has a channel outside `[0, 1]` is
/// refused as an invalid color, whatever else it holds.
pub proof fn lemma_out_of_range_color_refused(
    request: proto::SpawnObjectRequest,
    color: proto::ColorRgba,
)
    requires
        request.position is Some,
        request.object_properties matches Some(p) && p.color == Some(
            proto::ObjectColor { color: Some(proto::Color::ColorRgba(color)) },
        ),
        !in_unit_interval(color.r) || !in_unit_interval(color.g) || !in_unit_interval(color.b)
            || !in_unit_interval(color.a),
    ensures
        spawn_validation(request) == Err::<(ObjectProperties, Vec3), _>(
            SpawnObjectError::InvalidObjectColor,
        ),
{
}

/// The identities of a successful spawn sequence are pairwise distinct.
pub proof fn lemma_spawned_ids_distinct(responses: Seq<proto::SpawnObjectResponse>)
    requires
        ids_increasing(responses),
    ensures
        forall|i: int, j: int|
            0 <= i < responses.len() && 0 <= j < responses.len() && i != j ==> #[trigger] spawned_id(
                responses[i],
            ) != #[trigger] spawned_id(responses[j]),
{
    assert forall|i: int, j: int|
        0 <= i < responses.len() && 0 <= j < responses.len() && i != j implies #[trigger] spawned_id(
            responses[i],
        ) != #[trigger] spawned_id(responses[j]) by {
        if i < j {
            assert(spawned_id(responses[i])->Some_0 < spawned_id(responses[j])->Some_0);
        } else {
            assert(spawned_id(responses[j])->Some_0 < spawned_id(responses[i])->Some_0);
        }
    }
}

} // verus!
