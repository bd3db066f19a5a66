//! The request handlers of the object management service: they validate what
//! the caller sent, turn it into an internal request, append that to the
//! request list and answer at once, without waiting for the simulation.

use crate::ids::{be_value, object_id_bytes, object_id_from_bytes, IdGenerator};
use crate::object::{
    is_positive, is_positive_bits, is_unit_channel, ObjectId, ObjectProperties, ObjectRequest, ObjectShape, Rgba,
    SetObjectPositionRequest, SpawnObjectRequest, Vec3, ONE_BITS, ZERO_BITS,
};
use crate::proto;
use crate::request::{InternalRequest, InternalRequestList};
use vstd::prelude::*;

verus! {

/// Why a color was refused.
#[derive(Debug, Clone, Copy, PartialEq, Eq, Structural)]
pub enum ObjectColorError {
    /// No color was given.
    Missing,
    /// The named color has an unknown wire value.
    UnknownColorEnum,
    /// A channel of an explicit color lies outside `[0, 1]`.
    ChannelOutOfRange,
}

/// The color of a named color.
pub open spec fn named_color(name: proto::ObjectColorEnum) -> Rgba {
    match name {
        proto::ObjectColorEnum::Red => Rgba::opaque(ONE_BITS, ZERO_BITS, ZERO_BITS),
        proto::ObjectColorEnum::Green => Rgba::opaque(ZERO_BITS, ONE_BITS, ZERO_BITS),
        proto::ObjectColorEnum::Blue => Rgba::opaque(ZERO_BITS, ZERO_BITS, ONE_BITS),
        proto::ObjectColorEnum::Unspecified => Rgba::opaque(ONE_BITS, ONE_BITS, ONE_BITS),
    }
}

/// The color that the caller asked for, or why it is refused.
pub open spec fn normalized_color(color: proto::ObjectColor) -> Result<Rgba, ObjectColorError> {
    match color.color {
        None => Err(ObjectColorError::Missing),
        Some(proto::Color::ColorEnum(value)) => match proto::color_enum_of(value) {
            Some(name) => Ok(named_color(name)),
            None => Err(ObjectColorError::UnknownColorEnum),
        },
        Some(proto::Color::ColorRgba(c)) => {
            let rgba = Rgba { r: c.r, g: c.g, b: c.b, a: c.a };
            if rgba.is_valid() {
                Ok(rgba)
            } else {
                Err(ObjectColorError::ChannelOutOfRange)
            }
        },
    }
}

/// Turns the color of a request into a color with every channel in `[0, 1]`:
/// a named color into its opaque value (`Unspecified` into white), an explicit
/// one unchanged once each channel is checked.
pub fn normalize_object_color(object_color: &proto::ObjectColor) -> (r: Result<Rgba, ObjectColorError>)
    ensures
        r == normalized_color(*object_color),
        r matches Ok(rgba) ==> rgba.is_valid(),
{
    match object_color.color {
        None => Err(ObjectColorError::Missing),
        Some(proto::Color::ColorEnum(value)) => match proto::ObjectColorEnum::from_i32(value) {
            Some(proto::ObjectColorEnum::Blue) => Ok(Rgba { r: ZERO_BITS, g: ZERO_BITS, b: ONE_BITS, a: ONE_BITS }),
            Some(proto::ObjectColorEnum::Green) => Ok(Rgba { r: ZERO_BITS, g: ONE_BITS, b: ZERO_BITS, a: ONE_BITS }),
            Some(proto::ObjectColorEnum::Red) => Ok(Rgba { r: ONE_BITS, g: ZERO_BITS, b: ZERO_BITS, a: ONE_BITS }),
            Some(proto::ObjectColorEnum::Unspecified) => Ok(Rgba { r: ONE_BITS, g: ONE_BITS, b: ONE_BITS, a: ONE_BITS }),
            None => Err(ObjectColorError::UnknownColorEnum),
        },
        Some(proto::Color::ColorRgba(c)) => {
            if is_unit_channel(c.r) && is_unit_channel(c.g) && is_unit_channel(c.b) && is_unit_channel(c.a) {
                Ok(Rgba { r: c.r, g: c.g, b: c.b, a: c.a })
            } else {
                Err(ObjectColorError::ChannelOutOfRange)
            }
        },
    }
}

/// Whether the color is the named color `Unspecified`: it is accepted as
/// white, but is worth a warning.
pub fn is_unspecified_color(object_color: &proto::ObjectColor) -> (r: bool)
    ensures
        r == (object_color.color == Some(proto::Color::ColorEnum(proto::COLOR_UNSPECIFIED))),
{
    match object_color.color {
        Some(proto::Color::ColorEnum(value)) => value == proto::COLOR_UNSPECIFIED,
        _ => false,
    }
}

/// Why a position request was refused.
#[derive(Debug, Clone, Copy, PartialEq, Eq, Structural)]
pub enum SetObjectPositionError {
    InvalidObjectId,
    InvalidPosition,
}

impl SetObjectPositionError {
    /// The message shown to the caller.
    pub open spec fn spec_message(self) -> Seq<char> {
        match self {
            SetObjectPositionError::InvalidObjectId => "Invalid object ID"@,
            SetObjectPositionError::InvalidPosition => "Invalid position"@,
        }
    }

    /// The message shown to the caller.
    pub fn message(&self) -> (r: &'static str)
        ensures
            r@ == self.spec_message(),
    {
        match self {
            SetObjectPositionError::InvalidObjectId => "Invalid object ID",
            SetObjectPositionError::InvalidPosition => "Invalid position",
        }
    }
}

/// The point of a wire position.
pub open spec fn vec3_of(p: proto::Position) -> Vec3 {
    Vec3 { x: p.x, y: p.y, z: p.z }
}

fn to_vec3(p: proto::Position) -> (r: Vec3)
    ensures
        r == vec3_of(p),
{
    Vec3 { x: p.x, y: p.y, z: p.z }
}

/// The internal request for a position request, or why it is refused.
/// Checked in this order: identity present, its bytes present, position
/// present, exactly 16 identity bytes.
pub open spec fn set_position_validation(request: proto::SetObjectPositionRequest) -> Result<
    SetObjectPositionRequest,
    SetObjectPositionError,
> {
    match request.object_id {
        None => Err(SetObjectPositionError::InvalidObjectId),
        Some(object_id) => match object_id.uuid {
            None => Err(SetObjectPositionError::InvalidObjectId),
            Some(uuid) => match request.position {
                None => Err(SetObjectPositionError::InvalidPosition),
                Some(position) => if uuid.value@.len() == 16 {
                    Ok(
                        SetObjectPositionRequest {
                            object_id: ObjectId { uuid: be_value(uuid.value@) as u128 },
                            position: vec3_of(position),
                        },
                    )
                } else {
                    Err(SetObjectPositionError::InvalidObjectId)
                },
            },
        },
    }
}

/// Validates a position request and turns it into an internal request.
pub fn set_position_request_to_internal_request(
    set_position_request: &proto::SetObjectPositionRequest,
) -> (r: Result<SetObjectPositionRequest, SetObjectPositionError>)
    ensures
        r == set_position_validation(*set_position_request),
{
    let object_id = match &set_position_request.object_id {
        Some(object_id) => object_id,
        None => return Err(SetObjectPositionError::InvalidObjectId),
    };
    let uuid = match &object_id.uuid {
        Some(uuid) => uuid,
        None => return Err(SetObjectPositionError::InvalidObjectId),
    };
    let position = match set_position_request.position {
        Some(position) => position,
        None => return Err(SetObjectPositionError::InvalidPosition),
    };
    let id = match object_id_from_bytes(&uuid.value) {
        Some(id) => id,
        None => return Err(SetObjectPositionError::InvalidObjectId),
    };
    Ok(SetObjectPositionRequest { object_id: id, position: to_vec3(position) })
}

/// Why a spawn request was refused.
#[derive(Debug, Clone, Copy, PartialEq, Eq, Structural)]
pub enum SpawnObjectError {
    InvalidObjectColor,
    InvalidObjectShape,
    InvalidPosition,
    InvalidObjectProperties,
}

impl SpawnObjectError {
    /// The message shown to the caller.
    pub open spec fn spec_message(self) -> Seq<char> {
        match self {
            SpawnObjectError::InvalidObjectColor => "Invalid object color"@,
            SpawnObjectError::InvalidObjectShape => "Invalid object shape"@,
            SpawnObjectError::InvalidPosition => "Invalid position"@,
            SpawnObjectError::InvalidObjectProperties => "Invalid object properties"@,
        }
    }

    /// The message shown to the caller.
    pub fn message(&self) -> (r: &'static str)
        ensures
            r@ == self.spec_message(),
    {
        match self {
            SpawnObjectError::InvalidObjectColor => "Invalid object color",
            SpawnObjectError::InvalidObjectShape => "Invalid object shape",
            SpawnObjectError::InvalidPosition => "Invalid position",
            SpawnObjectError::InvalidObjectProperties => "Invalid object properties",
        }
    }
}

/// The properties and position that a spawn request asks for, or why it is
/// refused. Checked in this order: position present, properties present,
/// color present and valid, shape a cube or a sphere, size greater than zero
/// (`InvalidObjectProperties` otherwise). A missing size is 1.
pub open spec fn spawn_validation(request: proto::SpawnObjectRequest) -> Result<
    (ObjectProperties, Vec3),
    SpawnObjectError,
> {
    match request.position {
        None => Err(SpawnObjectError::InvalidPosition),
        Some(position) => match request.object_properties {
            None => Err(SpawnObjectError::InvalidObjectProperties),
            Some(properties) => match properties.color {
                None => Err(SpawnObjectError::InvalidObjectColor),
                Some(color) => match normalized_color(color) {
                    Err(_) => Err(SpawnObjectError::InvalidObjectColor),
                    Ok(rgba) => {
                        let size = match properties.size {
                            Some(s) => s.value,
                            None => ONE_BITS,
                        };
                        let shape = match proto::shape_of(properties.shape) {
                            Some(proto::ObjectShape::Cube) => Some(ObjectShape::Cube),
                            Some(proto::ObjectShape::Sphere) => Some(ObjectShape::Sphere),
                            _ => None,
                        };
                        match shape {
                            None => Err(SpawnObjectError::InvalidObjectShape),
                            Some(shape) => if is_positive_bits(size) {
                                Ok((ObjectProperties { color: rgba, size, shape }, vec3_of(position)))
                            } else {
                                Err(SpawnObjectError::InvalidObjectProperties)
                            },
                        }
                    },
                },
            },
        },
    }
}

/// The internal request that a spawn request becomes under identity `id`.
pub open spec fn spawn_request_with_id(
    request: proto::SpawnObjectRequest,
    id: ObjectId,
) -> Result<SpawnObjectRequest, SpawnObjectError> {
    match spawn_validation(request) {
        Ok((properties, position)) => Ok(
            SpawnObjectRequest { object_id: id, object_properties: properties, position },
        ),
        Err(e) => Err(e),
    }
}

/// Validates a spawn request: the properties and position it asks for.
pub fn validate_spawn_request(spawn_object_request: &proto::SpawnObjectRequest) -> (r: Result<
    (ObjectProperties, Vec3),
    SpawnObjectError,
>)
    ensures
        r == spawn_validation(*spawn_object_request),
        r matches Ok((p, _)) ==> p.is_valid(),
{
    let position = match spawn_object_request.position {
        Some(position) => position,
        None => return Err(SpawnObjectError::InvalidPosition),
    };
    let properties = match spawn_object_request.object_properties {
        Some(properties) => properties,
        None => return Err(SpawnObjectError::InvalidObjectProperties),
    };
    let color = match properties.color {
        Some(color) => color,
        None => return Err(SpawnObjectError::InvalidObjectColor),
    };
    let size = match properties.size {
        Some(size) => size.value,
        None => ONE_BITS,
    };
    let rgba = match normalize_object_color(&color) {
        Ok(rgba) => rgba,
        Err(_) => return Err(SpawnObjectError::InvalidObjectColor),
    };
    let shape = match proto::ObjectShape::from_i32(properties.shape) {
        Some(proto::ObjectShape::Cube) => ObjectShape::Cube,
        Some(proto::ObjectShape::Sphere) => ObjectShape::Sphere,
        _ => return Err(SpawnObjectError::InvalidObjectShape),
    };
    if !is_positive(size) {
        return Err(SpawnObjectError::InvalidObjectProperties);
    }
    Ok((ObjectProperties { color: rgba, size, shape }, to_vec3(position)))
}

/// Validates a spawn request and turns it into an internal request for the
/// object with identity `object_id`.
pub fn spawn_object_request_with_id(
    spawn_object_request: &proto::SpawnObjectRequest,
    object_id: ObjectId,
) -> (r: Result<SpawnObjectRequest, SpawnObjectError>)
    ensures
        r == spawn_request_with_id(*spawn_object_request, object_id),
        r matches Ok(s) ==> s.object_properties.is_valid(),
{
    match validate_spawn_request(spawn_object_request) {
        Ok((object_properties, position)) => Ok(
            SpawnObjectRequest { object_id, object_properties, position },
        ),
        Err(e) => Err(e),
    }
}

/// Validates a spawn request and, if it is valid, turns it into an internal
/// request for an object with a fresh identity from `ids`.
pub fn spawn_object_request_to_internal_request(
    spawn_object_request: &proto::SpawnObjectRequest,
    ids: &mut IdGenerator,
) -> (r: Result<SpawnObjectRequest, SpawnObjectError>)
    ensures
        r is Ok <==> spawn_validation(*spawn_object_request) is Ok,
        match r {
            Ok(s) => {
                &&& spawn_request_with_id(*spawn_object_request, s.object_id) == r
                &&& s.object_id.uuid == final(ids).latest()
                &&& s.object_id.uuid > old(ids).latest()
            },
            Err(e) => {
                &&& final(ids).latest() == old(ids).latest()
                &&& spawn_validation(*spawn_object_request) == Err::<(ObjectProperties, Vec3), _>(e)
            },
        },
{
    let (object_properties, position) = match validate_spawn_request(spawn_object_request) {
        Ok(valid) => valid,
        Err(e) => return Err(e),
    };
    let object_id = ids.next_id();
    Ok(SpawnObjectRequest { object_id, object_properties, position })
}

/// The identity of the object that a request concerns.
pub open spec fn entry_id(entry: InternalRequest) -> nat {
    match entry {
        InternalRequest::ObjectRequest(ObjectRequest::Spawn(s)) => s.object_id.uuid as nat,
        InternalRequest::ObjectRequest(ObjectRequest::SetPosition(p)) => p.object_id.uuid as nat,
    }
}

/// `entry` is the spawn request that `request` becomes under its identity.
pub open spec fn spawn_entry_for(request: proto::SpawnObjectRequest, entry: InternalRequest) -> bool {
    match entry {
        InternalRequest::ObjectRequest(ObjectRequest::Spawn(s)) => spawn_request_with_id(
            request,
            s.object_id,
        ) == Ok::<SpawnObjectRequest, SpawnObjectError>(s),
        _ => false,
    }
}

/// `entry` is the position request that `request` becomes.
pub open spec fn set_position_entry_for(
    request: proto::SetObjectPositionRequest,
    entry: InternalRequest,
) -> bool {
    match set_position_validation(request) {
        Ok(v) => entry == InternalRequest::ObjectRequest(ObjectRequest::SetPosition(v)),
        Err(_) => false,
    }
}

/// The identity that a spawn response carries, if it carries 16 bytes.
pub open spec fn spawned_id(response: proto::SpawnObjectResponse) -> Option<nat> {
    match response.spawned_object_id {
        Some(object_id) => match object_id.uuid {
            Some(uuid) => if uuid.value@.len() == 16 {
                Some(be_value(uuid.value@))
            } else {
                None
            },
            None => None,
        },
        None => None,
    }
}

/// Every response carries an identity, each greater than those before it.
pub open spec fn ids_increasing(responses: Seq<proto::SpawnObjectResponse>) -> bool {
    &&& forall|i: int| 0 <= i < responses.len() ==> (#[trigger] spawned_id(responses[i])) is Some
    &&& forall|i: int, j: int|
        0 <= i < j < responses.len() ==> (#[trigger] spawned_id(responses[i]))->Some_0 < (
        #[trigger] spawned_id(responses[j]))->Some_0
}

/// A sub-request of a sequence failed: the position of the first one that
/// did, and why.
#[derive(Debug, Clone, Copy, PartialEq, Eq, Structural)]
pub struct SequenceError<E> {
    pub index: usize,
    pub error: E,
}

/// The network-facing service. Each call validates, appends at most one
/// request to the request list and answers without waiting for the
/// simulation. It hands out identities in increasing order.
pub struct ManageObjectServiceImpl {
    ids: IdGenerator,
}

impl ManageObjectServiceImpl {
    /// The last identity handed out, or zero.
    pub closed spec fn latest_id(&self) -> nat {
        self.ids.latest()
    }

    pub fn new() -> (r: Self)
        ensures
            r.latest_id() == 0,
    {
        ManageObjectServiceImpl { ids: IdGenerator::new() }
    }

    /// Sets the target position of an object. A valid request is appended to
    /// the request list and answered with success, whether or not an object
    /// with that identity exists; an invalid one appends nothing.
    pub fn set_object_position(
        &self,
        log: &mut InternalRequestList,
        request: &proto::SetObjectPositionRequest,
    ) -> (r: Result<proto::SetObjectPositionResponse, SetObjectPositionError>)
        requires
            old(log).well_formed(),
        ensures
            final(log).well_formed(),
            match set_position_validation(*request) {
                Ok(v) => {
                    &&& r == Ok::<_, SetObjectPositionError>(
                        (proto::SetObjectPositionResponse { success: true }),
                    )
                    &&& final(log)@ == old(log)@.push(
                        InternalRequest::ObjectRequest(ObjectRequest::SetPosition(v)),
                    )
                },
                Err(e) => {
                    &&& r == Err::<proto::SetObjectPositionResponse, _>(e)
                    &&& final(log)@ == old(log)@
                },
            },
    {
        let internal_request = match set_position_request_to_internal_request(request) {
            Ok(internal_request) => internal_request,
            Err(e) => return Err(e),
        };
        log.push(InternalRequest::ObjectRequest(ObjectRequest::SetPosition(internal_request)));
        Ok(proto::SetObjectPositionResponse { success: true })
    }

    /// Spawns an object under a fresh identity, greater than every identity
    /// handed out before. A valid request is appended to the request list and
    /// answered with that identity; a failed one appends nothing.
    pub fn spawn_object(
        &mut self,
        log: &mut InternalRequestList,
        request: &proto::SpawnObjectRequest,
    ) -> (r: Result<proto::SpawnObjectResponse, SpawnObjectError>)
        requires
            old(log).well_formed(),
        ensures
            final(log).well_formed(),
            r is Ok <==> spawn_validation(*request) is Ok,
            match r {
                Ok(response) => {
                    &&& final(self).latest_id() > old(self).latest_id()
                    &&& final(log)@.len() == old(log)@.len() + 1
                    &&& final(log)@.drop_last() == old(log)@
                    &&& spawn_entry_for(*request, final(log)@.last())
                    &&& entry_id(final(log)@.last()) == final(self).latest_id()
                    &&& spawned_id(response) == Some(final(self).latest_id())
                },
                Err(e) => {
                    &&& final(self).latest_id() == old(self).latest_id()
                    &&& final(log)@ == old(log)@
                    &&& spawn_validation(*request) == Err::<(ObjectProperties, Vec3), _>(e)
                },
            },
    {
        let internal_request = match spawn_object_request_to_internal_request(request, &mut self.ids) {
            Ok(internal_request) => internal_request,
            Err(e) => return Err(e),
        };
        let ghost before = log@;
        log.push(InternalRequest::ObjectRequest(ObjectRequest::Spawn(internal_request)));
        assert(log@.drop_last() =~= before);
        let bytes = object_id_bytes(internal_request.object_id);
        Ok(
            proto::SpawnObjectResponse {
                spawned_object_id: Some(
                    proto::ObjectId { uuid: Some(proto::Uuid { value: bytes }) },
                ),
            },
        )
    }

    /// Handles the sub-requests one after another, each as
    /// `set_object_position` does. The first one that fails ends the call:
    /// those after it are not tried, those before it stay appended, and the
    /// error names its position.
    pub fn set_object_position_sequence(
        &self,
        log: &mut InternalRequestList,
        request: &proto::SetObjectPositionSequenceRequest,
    ) -> (r: Result<proto::SetObjectPositionSequenceResponse, SequenceError<SetObjectPositionError>>)
        requires
            old(log).well_formed(),
        ensures
            final(log).well_formed(),
            final(log)@.subrange(0, old(log)@.len() as int) == old(log)@,
            match r {
                Ok(response) => {
                    &&& response.responses@.len() == request.requests@.len()
                    &&& final(log)@.len() == old(log)@.len() + request.requests@.len()
                    &&& forall|i: int|
                        0 <= i < request.requests@.len() ==> set_position_entry_for(
                            #[trigger] request.requests@[i],
                            final(log)@[old(log)@.len() + i],
                        )
                    &&& forall|i: int|
                        0 <= i < response.responses@.len() ==> (#[trigger] response.responses@[i])
                            == (proto::SetObjectPositionResponse { success: true })
                },
                Err(e) => {
                    &&& e.index < request.requests@.len()
                    &&& final(log)@.len() == old(log)@.len() + e.index
                    &&& forall|i: int|
                        0 <= i < e.index ==> set_position_entry_for(
                            #[trigger] request.requests@[i],
                            final(log)@[old(log)@.len() + i],
                        )
                    &&& set_position_validation(request.requests@[e.index as int]) == Err::<
                        SetObjectPositionRequest,
                        _,
                    >(e.error)
                },
            },
    {
        let ghost start = log@;
        let mut responses: Vec<proto::SetObjectPositionResponse> = Vec::new();
        let mut index: usize = 0;
        while index < request.requests.len()
            invariant
                index <= request.requests@.len(),
                responses@.len() == index,
                start == old(log)@,
                log.well_formed(),
                log@.len() == start.len() + index,
                log@.subrange(0, start.len() as int) == start,
                forall|i: int|
                    0 <= i < index ==> set_position_entry_for(
                        #[trigger] request.requests@[i],
                        log@[start.len() + i],
                    ),
                forall|i: int|
                    0 <= i < index ==> (#[trigger] responses@[i])
                        == (proto::SetObjectPositionResponse { success: true }),
            decreases request.requests@.len() - index,
        {
            let ghost before = log@;
            match self.set_object_position(log, &request.requests[index]) {
                Ok(response) => responses.push(response),
                Err(error) => {
                    assert(log@ == before);
                    return Err(SequenceError { index, error });
                },
            }
            assert(log@.subrange(0, start.len() as int) =~= before.subrange(0, start.len() as int));
            assert forall|i: int| 0 <= i < index + 1 implies set_position_entry_for(
                #[trigger] request.requests@[i],
                log@[start.len() + i],
            ) by {
                if i < index {
                    assert(log@[start.len() + i] == before[start.len() + i]);
                }
            }
            index = index + 1;
        }
        Ok(proto::SetObjectPositionSequenceResponse { responses })
    }

    /// Handles the sub-requests one after another, each as `spawn_object`
    /// does. The first one that fails ends the call: those after it are not
    /// tried, those before it stay appended, and the error names its
    /// position. On success the identities are distinct, in increasing order,
    /// and response `i` carries the identity of the entry of sub-request `i`.
    pub fn spawn_object_sequence(
        &mut self,
        log: &mut InternalRequestList,
        request: &proto::SpawnObjectSequenceRequest,
    ) -> (r: Result<proto::SpawnObjectSequenceResponse, SequenceError<SpawnObjectError>>)
        requires
            old(log).well_formed(),
        ensures
            final(log).well_formed(),
            final(log)@.subrange(0, old(log)@.len() as int) == old(log)@,
            final(self).latest_id() >= old(self).latest_id(),
            (forall|i: int|
                0 <= i < request.requests@.len() ==> (#[trigger] spawn_validation(
                    request.requests@[i],
                )) is Ok) ==> r is Ok,
            match r {
                Ok(response) => {
                    &&& response.responses@.len() == request.requests@.len()
                    &&& final(log)@.len() == old(log)@.len() + request.requests@.len()
                    &&& forall|i: int|
                        0 <= i < request.requests@.len() ==> spawn_entry_for(
                            #[trigger] request.requests@[i],
                            final(log)@[old(log)@.len() + i],
                        )
                    &&& forall|i: int|
                        0 <= i < response.responses@.len() ==> #[trigger] spawned_id(
                            response.responses@[i],
                        ) == Some(entry_id(final(log)@[old(log)@.len() + i]))
                    &&& ids_increasing(response.responses@)
                },
                Err(e) => {
                    &&& e.index < request.requests@.len()
                    &&& final(log)@.len() == old(log)@.len() + e.index
                    &&& forall|i: int|
                        0 <= i < e.index ==> spawn_entry_for(
                            #[trigger] request.requests@[i],
                            final(log)@[old(log)@.len() + i],
                        )
                    &&& spawn_validation(request.requests@[e.index as int]) == Err::<
                        (ObjectProperties, Vec3),
                        _,
                    >(e.error)
                },
            },
    {
        let ghost start = log@;
        let ghost first_latest = self.latest_id();
        let mut responses: Vec<proto::SpawnObjectResponse> = Vec::new();
        let mut index: usize = 0;
        while index < request.requests.len()
            invariant
                index <= request.requests@.len(),
                responses@.len() == index,
                start == old(log)@,
                log.well_formed(),
                log@.len() == start.len() + index,
                log@.subrange(0, start.len() as int) == start,
                first_latest == old(self).latest_id(),
                self.latest_id() >= first_latest,
                forall|i: int|
                    0 <= i < index ==> spawn_entry_for(
                        #[trigger] request.requests@[i],
                        log@[start.len() + i],
                    ),
                forall|i: int|
                    0 <= i < index ==> #[trigger] spawned_id(responses@[i]) == Some(
                        entry_id(log@[start.len() + i]),
                    ),
                ids_increasing(responses@),
                forall|i: int|
                    0 <= i < index ==> (#[trigger] spawned_id(responses@[i]))->Some_0
                        <= self.latest_id(),
            decreases request.requests@.len() - index,
        {
            let ghost before = log@;
            let ghost before_responses = responses@;
            let sub_request = request.requests[index];
            match self.spawn_object(log, &sub_request) {
                Ok(response) => responses.push(response),
                Err(error) => {
                    assert(log@ == before);
                    assert(self.latest_id() >= first_latest);
                    return Err(SequenceError { index, error });
                },
            }
            assert(log@.subrange(0, start.len() as int) =~= before.subrange(0, start.len() as int));
            assert forall|i: int| 0 <= i < index + 1 implies spawn_entry_for(
                #[trigger] request.requests@[i],
                log@[start.len() + i],
            ) && spawned_id(responses@[i]) == Some(entry_id(log@[start.len() + i])) by {
                if i < index {
                    assert(log@[start.len() + i] == before[start.len() + i]);
                    assert(responses@[i] == before_responses[i]);
                } else {
                    assert(log@[start.len() + i] == log@.last());
                }
            }
            index = index + 1;
        }
        Ok(proto::SpawnObjectSequenceResponse { responses })
    }
}

} // verus!
