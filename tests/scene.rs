use rapier2d::dynamics::{FixedJointBuilder, GenericJoint, RigidBodyBuilder};
use rapier2d::geometry::ColliderBuilder;
use scene_graph::engine::{BodyBuilder, Engine, Joint, ListenerKind};
use scene_graph::handle::SceneHandle;
use scene_graph::physics::RawHandle;

fn builder(class: &str, name: &str, colliders: usize) -> BodyBuilder {
    let mut cs = Vec::new();
    for _ in 0..colliders {
        cs.push(ColliderBuilder::ball(0.5).build());
    }
    BodyBuilder {
        rigid: RigidBodyBuilder::dynamic().build(),
        colliders: cs,
        class: class.to_string(),
        name: name.to_string(),
        look: "circle".to_string(),
        life_step_op: "idle".to_string(),
    }
}

fn fixed_joint(body1: u64, body2: u64) -> Joint {
    let joint: GenericJoint = FixedJointBuilder::new().into();
    Joint { body1, body2, joint }
}

fn engine_with_scene(scene_id: u64) -> Engine {
    let mut engine = Engine::new();
    engine.add_scene(scene_id);
    engine
}

fn collider_handles(engine: &Engine, scene_id: u64) -> Vec<RawHandle> {
    let scene = engine.scene_mp.get(&scene_id).unwrap();
    let mut hs: Vec<RawHandle> = scene
        .physics_engine
        .collider_set
        .iter()
        .map(|(h, _)| {
            let (index, generation) = h.into_raw_parts();
            RawHandle { index, generation }
        })
        .collect();
    hs.sort_by_key(|h| (h.index, h.generation));
    hs
}

#[test]
fn bodies_and_joint_share_one_counter() {
    let mut engine = engine_with_scene(7);
    let mut scene = SceneHandle { engine: &mut engine, scene_id: 7 };
    assert_eq!(scene.add_body(builder("ship", "first", 0)), 0);
    assert_eq!(scene.add_body(builder("rock", "second", 0)), 1);
    assert_eq!(scene.add_joint(fixed_joint(0, 1)), 2);
    let first = scene.get_body(&0).unwrap();
    assert_eq!(first.class, "ship");
    assert_eq!(first.name, "first");
    assert_eq!(first.look, "circle");
    assert_eq!(first.life_step_op, "idle");
    assert!(scene.get_body(&99).is_none());
    assert_eq!(scene.get_engine().unique_id, 3);
}

#[test]
fn body_ids_strictly_increase() {
    let mut engine = engine_with_scene(1);
    let mut scene = SceneHandle { engine: &mut engine, scene_id: 1 };
    let mut last: Option<u64> = None;
    for k in 0..5usize {
        let id = scene.add_body(builder("c", &format!("b{}", k), k % 3));
        if let Some(prev) = last {
            assert!(id > prev);
        }
        assert_eq!(scene.get_body(&id).unwrap().name, format!("b{}", k));
        last = Some(id);
    }
    assert_eq!(last, Some(4));
}

#[test]
fn two_colliders_resolve_to_their_body() {
    let mut engine = engine_with_scene(3);
    let mut scene = SceneHandle { engine: &mut engine, scene_id: 3 };
    let id = scene.add_body(builder("ship", "hull", 2));
    let handles = collider_handles(scene.get_engine(), 3);
    assert_eq!(handles.len(), 2);
    for h in handles {
        assert_eq!(scene.get_body_id_of_collider(h), id);
    }
}

#[test]
fn colliders_of_later_body_resolve_to_it() {
    let mut engine = engine_with_scene(3);
    let mut scene = SceneHandle { engine: &mut engine, scene_id: 3 };
    let first = scene.add_body(builder("a", "a", 1));
    let before = collider_handles(scene.get_engine(), 3);
    let second = scene.add_body(builder("b", "b", 3));
    assert_eq!(first, 0);
    assert_eq!(second, 1);
    let after = collider_handles(scene.get_engine(), 3);
    assert_eq!(after.len(), 4);
    for h in after {
        let expected = if before.contains(&h) { first } else { second };
        assert_eq!(scene.get_body_id_of_collider(h), expected);
    }
}

#[test]
fn joint_is_stamped_with_its_id() {
    let mut engine = engine_with_scene(0);
    let mut scene = SceneHandle { engine: &mut engine, scene_id: 0 };
    let a = scene.add_body(builder("a", "a", 0));
    let b = scene.add_body(builder("b", "b", 0));
    let j = scene.add_joint(fixed_joint(a, b));
    assert!(j > a && j > b);
    let world = &scene.get_engine().scene_mp.get(&0).unwrap().physics_engine;
    let joints: Vec<u128> = world.impulse_joint_set.iter().map(|(_, jt)| jt.data.user_data).collect();
    assert_eq!(joints, vec![j as u128]);
    let next = scene.add_body(builder("c", "c", 0));
    assert_eq!(next, j + 1);
}

#[test]
fn rigid_body_is_stamped_with_body_id() {
    let mut engine = engine_with_scene(5);
    let mut scene = SceneHandle { engine: &mut engine, scene_id: 5 };
    scene.add_body(builder("a", "a", 0));
    let id = scene.add_body(builder("b", "b", 0));
    let rigid = scene.get_body(&id).unwrap().rigid;
    let world = &scene.get_engine().scene_mp.get(&5).unwrap().physics_engine;
    let h = rapier2d::dynamics::RigidBodyHandle::from_raw_parts(rigid.index, rigid.generation);
    assert_eq!(world.rigid_body_set.get(h).unwrap().user_data, id as u128);
}

#[test]
fn installed_listener_is_the_one_that_fires() {
    let mut engine = engine_with_scene(2);
    let mut scene = SceneHandle { engine: &mut engine, scene_id: 2 };
    assert_eq!(scene.listener(ListenerKind::Step), None);
    scene.set_step_listener(10);
    assert_eq!(scene.listener(ListenerKind::Step), Some(10));
    assert_eq!(scene.listener(ListenerKind::Event), None);
    assert_eq!(scene.listener(ListenerKind::Collision), None);
    assert_eq!(scene.listener(ListenerKind::Force), None);
}

#[test]
fn second_listener_replaces_first() {
    let mut engine = engine_with_scene(2);
    let mut scene = SceneHandle { engine: &mut engine, scene_id: 2 };
    scene.set_event_listener(1);
    scene.set_event_listener(2);
    assert_eq!(scene.listener(ListenerKind::Event), Some(2));
    scene.set_collision_event_handler(3);
    scene.set_collision_event_handler(4);
    assert_eq!(scene.listener(ListenerKind::Collision), Some(4));
    scene.set_force_event_handler(5);
    scene.set_force_event_handler(6);
    assert_eq!(scene.listener(ListenerKind::Force), Some(6));
    assert_eq!(scene.listener(ListenerKind::Event), Some(2));
}

#[test]
fn listeners_are_per_scene() {
    let mut engine = engine_with_scene(1);
    engine.add_scene(2);
    SceneHandle { engine: &mut engine, scene_id: 1 }.set_step_listener(8);
    let scene2 = SceneHandle { engine: &mut engine, scene_id: 2 };
    assert_eq!(scene2.listener(ListenerKind::Step), None);
    assert_eq!(scene2.scene_id(), 2);
    let scene1 = SceneHandle { engine: &mut engine, scene_id: 1 };
    assert_eq!(scene1.listener(ListenerKind::Step), Some(8));
}

#[test]
fn ids_are_engine_wide() {
    let mut engine = engine_with_scene(1);
    engine.add_scene(2);
    let a = SceneHandle { engine: &mut engine, scene_id: 1 }.add_body(builder("a", "a", 1));
    let b = SceneHandle { engine: &mut engine, scene_id: 2 }.add_body(builder("b", "b", 1));
    assert_eq!((a, b), (0, 1));
    let mut scene2 = SceneHandle { engine: &mut engine, scene_id: 2 };
    let hs = collider_handles(scene2.get_engine(), 2);
    assert_eq!(hs.len(), 1);
    assert_eq!(scene2.get_body_id_of_collider(hs[0]), 1);
}

#[test]
fn watcher_binding_overwrites() {
    let mut engine = engine_with_scene(0);
    let mut scene = SceneHandle { engine: &mut engine, scene_id: 0 };
    scene.bind_watcher(12);
    assert_eq!(scene.get_engine().watcher_binding_body_id, 12);
    scene.bind_watcher(3);
    assert_eq!(scene.get_engine().watcher_binding_body_id, 3);
    assert!(scene.get_body(&3).is_none());
}

#[test]
fn body_can_be_edited_in_place() {
    let mut engine = engine_with_scene(0);
    let mut scene = SceneHandle { engine: &mut engine, scene_id: 0 };
    let id = scene.add_body(builder("a", "old", 0));
    scene.get_body_mut(&id).unwrap().name = "new".to_string();
    assert_eq!(scene.get_body(&id).unwrap().name, "new");
    assert!(scene.get_body_mut(&77).is_none());
    scene.get_engine_mut().watcher_binding_body_id = id;
    assert_eq!(scene.get_engine().watcher_binding_body_id, id);
}
