use viewer::object::{
    ObjectId, ObjectProperties, ObjectRequest, ObjectShape, Rgba, SetObjectPositionRequest,
    SpawnObjectRequest, Vec3,
};
use viewer::proto;
use viewer::request::{dispatch, process_requests, InternalRequest, InternalRequestCursor, InternalRequestList};
use viewer::service::ManageObjectServiceImpl;
use viewer::types::ThreadSafeVecRw;
use viewer::world::World;

fn point(x: f32, y: f32, z: f32) -> Vec3 {
    Vec3::new(x.to_bits(), y.to_bits(), z.to_bits())
}

fn properties() -> ObjectProperties {
    ObjectProperties {
        color: Rgba { r: 1.0f32.to_bits(), g: 0, b: 0, a: 1.0f32.to_bits() },
        size: 1.0f32.to_bits(),
        shape: ObjectShape::Sphere,
    }
}

fn spawn(id: u128, at: Vec3) -> InternalRequest {
    InternalRequest::ObjectRequest(ObjectRequest::Spawn(SpawnObjectRequest {
        object_id: ObjectId { uuid: id },
        object_properties: properties(),
        position: at,
    }))
}

fn move_to(id: u128, at: Vec3) -> InternalRequest {
    InternalRequest::ObjectRequest(ObjectRequest::SetPosition(SetObjectPositionRequest {
        object_id: ObjectId { uuid: id },
        position: at,
    }))
}

#[test]
fn cursor_reaches_number_of_appended_requests() {
    let mut list = InternalRequestList::new();
    let mut cursor = InternalRequestCursor::new();
    let mut world = World::new();
    list.push(spawn(1, point(0.0, 0.0, 0.0)));
    list.push(spawn(2, point(1.0, 0.0, 0.0)));
    assert_eq!(process_requests(&mut cursor, &list, &mut world), 2);
    assert_eq!(cursor.current_position, 2);
    list.push(move_to(1, point(5.0, 5.0, 5.0)));
    assert_eq!(process_requests(&mut cursor, &list, &mut world), 1);
    assert_eq!(cursor.current_position, 3);
    assert_eq!(world.len(), 2);
    assert_eq!(world.objects()[0].target_position, point(5.0, 5.0, 5.0));
    assert_eq!(world.objects()[0].current_position, point(0.0, 0.0, 0.0));
}

#[test]
fn draining_again_without_appends_changes_nothing() {
    let mut list = InternalRequestList::new();
    let mut cursor = InternalRequestCursor::new();
    let mut world = World::new();
    list.push(spawn(1, point(0.0, 0.0, 0.0)));
    process_requests(&mut cursor, &list, &mut world);
    let before = world.objects().clone();
    assert_eq!(process_requests(&mut cursor, &list, &mut world), 0);
    assert_eq!(cursor.current_position, 1);
    assert_eq!(world.objects(), &before);
}

#[test]
fn empty_list_is_a_no_op() {
    let mut list = InternalRequestList::new();
    let mut cursor = InternalRequestCursor::new();
    let mut world = World::new();
    assert_eq!(process_requests(&mut cursor, &list, &mut world), 0);
    assert_eq!(cursor.current_position, 0);
    assert_eq!(world.len(), 0);
}

#[test]
fn requests_are_applied_in_order() {
    let mut cursor = InternalRequestCursor::new();
    let mut world = World::new();
    let pending = vec![
        move_to(7, point(9.0, 9.0, 9.0)),
        spawn(7, point(1.0, 1.0, 1.0)),
        move_to(7, point(2.0, 2.0, 2.0)),
        move_to(7, point(3.0, 3.0, 3.0)),
    ];
    dispatch(&mut cursor, &pending, &mut world);
    assert_eq!(cursor.current_position, 4);
    assert_eq!(world.len(), 1);
    let object = world.objects()[0];
    assert_eq!(object.target_position, point(3.0, 3.0, 3.0));
    assert_eq!(object.current_position, point(1.0, 1.0, 1.0));
}

#[test]
fn spawn_sets_current_and_target_to_the_position() {
    let mut world = World::new();
    let request = SpawnObjectRequest { object_id: ObjectId { uuid: 3 }, object_properties: properties(), position: point(1.0, 2.0, 3.0) };
    request.event_handler(&mut world);
    let object = world.objects()[0];
    assert_eq!(object.object_id, ObjectId { uuid: 3 });
    assert_eq!(object.object_properties, properties());
    assert_eq!(object.current_position, point(1.0, 2.0, 3.0));
    assert_eq!(object.target_position, point(1.0, 2.0, 3.0));
}

#[test]
fn spawn_with_a_taken_identity_is_ignored() {
    let mut world = World::new();
    let first = SpawnObjectRequest { object_id: ObjectId { uuid: 3 }, object_properties: properties(), position: point(1.0, 2.0, 3.0) };
    let second = SpawnObjectRequest { object_id: ObjectId { uuid: 3 }, object_properties: properties(), position: point(7.0, 7.0, 7.0) };
    first.event_handler(&mut world);
    second.event_handler(&mut world);
    assert_eq!(world.len(), 1);
    assert_eq!(world.objects()[0].current_position, point(1.0, 2.0, 3.0));
}

#[test]
fn position_for_unknown_identity_is_dropped() {
    let mut world = World::new();
    let spawn = SpawnObjectRequest { object_id: ObjectId { uuid: 3 }, object_properties: properties(), position: point(1.0, 2.0, 3.0) };
    spawn.event_handler(&mut world);
    let before = world.objects().clone();
    let request = SetObjectPositionRequest { object_id: ObjectId { uuid: 4 }, position: point(8.0, 8.0, 8.0) };
    request.event_handler(&mut world);
    assert_eq!(world.objects(), &before);
}

#[test]
fn unknown_identity_through_the_service_moves_nothing() {
    let mut list = InternalRequestList::new();
    let mut service = ManageObjectServiceImpl::new();
    let mut cursor = InternalRequestCursor::new();
    let mut world = World::new();
    let spawn = proto::SpawnObjectRequest {
        object_properties: Some(proto::ObjectProperties {
            shape: proto::SHAPE_CUBE,
            color: Some(proto::ObjectColor { color: Some(proto::Color::ColorEnum(proto::COLOR_GREEN)) }),
            size: None,
        }),
        position: Some(proto::Position { x: 0, y: 0, z: 0 }),
    };
    service.spawn_object(&mut list, &spawn).unwrap();
    let request = proto::SetObjectPositionRequest {
        object_id: Some(proto::ObjectId { uuid: Some(proto::Uuid { value: vec![0u8; 16] }) }),
        position: Some(proto::Position { x: 1.0f32.to_bits(), y: 0, z: 0 }),
    };
    assert!(service.set_object_position(&mut list, &request).unwrap().success);
    assert_eq!(process_requests(&mut cursor, &list, &mut world), 2);
    assert_eq!(world.len(), 1);
    assert_eq!(world.objects()[0].target_position, Vec3::new(0, 0, 0));
}

#[test]
fn returned_identity_addresses_the_spawned_object() {
    let mut list = InternalRequestList::new();
    let mut service = ManageObjectServiceImpl::new();
    let mut cursor = InternalRequestCursor::new();
    let mut world = World::new();
    let spawn = proto::SpawnObjectRequest {
        object_properties: Some(proto::ObjectProperties {
            shape: proto::SHAPE_SPHERE,
            color: Some(proto::ObjectColor { color: Some(proto::Color::ColorEnum(proto::COLOR_BLUE)) }),
            size: None,
        }),
        position: Some(proto::Position { x: 0, y: 0, z: 0 }),
    };
    let response = service.spawn_object(&mut list, &spawn).unwrap();
    let request = proto::SetObjectPositionRequest {
        object_id: response.spawned_object_id.clone(),
        position: Some(proto::Position { x: 2.0f32.to_bits(), y: 3.0f32.to_bits(), z: 4.0f32.to_bits() }),
    };
    service.set_object_position(&mut list, &request).unwrap();
    process_requests(&mut cursor, &list, &mut world);
    assert_eq!(world.objects()[0].target_position, point(2.0, 3.0, 4.0));
    assert_eq!(world.find(world.objects()[0].object_id), Some(0));
}

#[test]
fn set_current_position_moves_only_current() {
    let mut world = World::new();
    let spawn = SpawnObjectRequest { object_id: ObjectId { uuid: 3 }, object_properties: properties(), position: point(1.0, 2.0, 3.0) };
    spawn.event_handler(&mut world);
    world.set_current_position(0, point(1.5, 2.0, 3.0));
    assert_eq!(world.objects()[0].current_position, point(1.5, 2.0, 3.0));
    assert_eq!(world.objects()[0].target_position, point(1.0, 2.0, 3.0));
    assert_eq!(world.find(ObjectId { uuid: 9 }), None);
}

#[test]
fn cursor_operations() {
    let mut cursor = InternalRequestCursor::new();
    assert_eq!(cursor.current_position, 0);
    cursor.increment();
    cursor.increment();
    assert_eq!(cursor.current_position, 2);
    cursor.set(10);
    assert_eq!(cursor.current_position, 10);
    cursor.reset();
    assert_eq!(cursor.current_position, 0);
}

#[test]
fn thread_safe_vec_basics() {
    let mut v: ThreadSafeVecRw<u32> = ThreadSafeVecRw::new();
    assert_eq!(v.len(), 0);
    assert_eq!(v.get(0), None);
    v.push(10);
    v.push(20);
    v.push(30);
    v.push(40);
    assert_eq!(v.len(), 4);
    assert_eq!(v.get(1), Some(20));
    assert_eq!(v.get(4), None);
    assert_eq!(v.snapshot_from(2), vec![30, 40]);
    assert_eq!(v.snapshot_from(4), Vec::<u32>::new());
    assert_eq!(v.snapshot_from(9), Vec::<u32>::new());
    assert_eq!(v.get_reader(), &vec![10, 20, 30, 40]);
}

#[test]
fn list_grows_by_appends() {
    let mut list = InternalRequestList::new();
    assert_eq!(list.len(), 0);
    for i in 0..100u128 {
        list.push(spawn(i, point(0.0, 0.0, 0.0)));
    }
    assert_eq!(list.len(), 100);
    assert_eq!(list.requests().get(5), Some(spawn(5, point(0.0, 0.0, 0.0))));
    let mut cursor = InternalRequestCursor::new();
    let mut world = World::new();
    assert_eq!(process_requests(&mut cursor, &list, &mut world), 100);
    assert_eq!(world.len(), 100);
}
