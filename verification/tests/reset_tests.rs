use cube_scene::geom::Coord3;
use cube_scene::geom::Rotation4;
use cube_scene::geom::Transform3;
use cube_scene::reset::BodyState;
use cube_scene::reset::reset_body;
use cube_scene::reset::reset_parent_cubes;

fn tumbling_body() -> BodyState {
    BodyState {
        transform: Transform3 {
            translation: Coord3 { x: 2500, y: 750, z: -1250 },
            rotation: Rotation4 { x: 120, y: -340, z: 560, w: 740 },
            scale: Coord3 { x: 1000, y: 1000, z: 1000 },
        },
        linear_velocity: Some(Coord3 { x: -3000, y: 4500, z: 125 }),
        angular_velocity: Some(Coord3 { x: 2500, y: 3500, z: 1500 }),
    }
}

fn spawn_transform() -> Transform3 {
    Transform3 {
        translation: Coord3 { x: 0, y: 4000, z: 0 },
        rotation: Rotation4 { x: 0, y: 0, z: 0, w: 1000 },
        scale: Coord3 { x: 1000, y: 1000, z: 1000 },
    }
}

#[test]
fn reset_restores_spawn_pose_and_stops_motion() {
    let mut body = tumbling_body();
    reset_body(true, &mut body);
    assert_eq!(body.transform, spawn_transform());
    assert_eq!(body.linear_velocity, Some(Coord3 { x: 0, y: 0, z: 0 }));
    assert_eq!(body.angular_velocity, Some(Coord3 { x: 0, y: 0, z: 0 }));
}

#[test]
fn reset_does_not_invent_missing_velocities() {
    let mut body = tumbling_body();
    body.linear_velocity = None;
    body.angular_velocity = None;
    reset_body(true, &mut body);
    assert_eq!(body.transform, spawn_transform());
    assert_eq!(body.linear_velocity, None);
    assert_eq!(body.angular_velocity, None);
}

#[test]
fn reset_handles_each_velocity_on_its_own() {
    let mut body = tumbling_body();
    body.angular_velocity = None;
    reset_body(true, &mut body);
    assert_eq!(body.linear_velocity, Some(Coord3 { x: 0, y: 0, z: 0 }));
    assert_eq!(body.angular_velocity, None);

    let mut body = tumbling_body();
    body.linear_velocity = None;
    reset_body(true, &mut body);
    assert_eq!(body.linear_velocity, None);
    assert_eq!(body.angular_velocity, Some(Coord3 { x: 0, y: 0, z: 0 }));
}

#[test]
fn without_the_key_nothing_changes() {
    let mut body = tumbling_body();
    reset_body(false, &mut body);
    assert_eq!(body, tumbling_body());
}

#[test]
fn all_tagged_bodies_are_reset_together() {
    let mut second = tumbling_body();
    second.transform.translation = Coord3 { x: -9000, y: 12000, z: 3 };
    second.angular_velocity = None;

    let mut bodies = vec![tumbling_body(), second];
    reset_parent_cubes(true, &mut bodies);

    assert_eq!(bodies.len(), 2);
    assert_eq!(bodies[0].transform, spawn_transform());
    assert_eq!(bodies[0].linear_velocity, Some(Coord3 { x: 0, y: 0, z: 0 }));
    assert_eq!(bodies[0].angular_velocity, Some(Coord3 { x: 0, y: 0, z: 0 }));
    assert_eq!(bodies[1].transform, spawn_transform());
    assert_eq!(bodies[1].linear_velocity, Some(Coord3 { x: 0, y: 0, z: 0 }));
    assert_eq!(bodies[1].angular_velocity, None);
}

#[test]
fn an_unpressed_frame_leaves_the_whole_query_alone() {
    let mut bodies = vec![tumbling_body()];
    reset_parent_cubes(false, &mut bodies);
    assert_eq!(bodies, vec![tumbling_body()]);
}

#[test]
fn an_empty_query_is_fine() {
    let mut bodies: Vec<BodyState> = Vec::new();
    reset_parent_cubes(true, &mut bodies);
    assert!(bodies.is_empty());
}
