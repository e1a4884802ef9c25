//! The engine state: the id counter, the body registry and the scene store.
use crate::physics::{
    collider_parents, joint_links, new_collider_set, new_impulse_joint_set, new_rigid_body_set,
    rigid_tags, RawHandle,
};
use rapier2d::dynamics::{GenericJoint, ImpulseJointSet, RigidBody, RigidBodySet};
use rapier2d::geometry::{Collider, ColliderSet};
use std::collections::HashMap;
use vstd::prelude::*;

verus! {

broadcast use vstd::std_specs::hash::group_hash_axioms;

/// A body as the engine records it.
pub struct Body {
    /// Application-defined category tag.
    pub class: String,
    pub name: String,
    /// Render descriptor; this library does not read it.
    pub look: String,
    /// Handle of the body in the rigid-body set of its scene.
    pub rigid: RawHandle,
    /// Per-tick behaviour descriptor; this library does not read it.
    pub life_step_op: String,
}

/// Everything needed to add one body to a scene.
pub struct BodyBuilder {
    pub rigid: RigidBody,
    pub colliders: Vec<Collider>,
    pub class: String,
    pub name: String,
    pub look: String,
    pub life_step_op: String,
}

/// A joint between two bodies, named by their engine ids.
pub struct Joint {
    pub body1: u64,
    pub body2: u64,
    pub joint: GenericJoint,
}

/// The four kinds of listener a scene can hold.
#[derive(Clone, Copy, Debug, PartialEq, Eq, Structural)]
pub enum ListenerKind {
    /// Window events.
    Event,
    /// Simulation steps.
    Step,
    /// Collision events.
    Collision,
    /// Contact-force events.
    Force,
}

/// The rapier2d sets of one scene.
pub struct PhysicsWorld {
    pub rigid_body_set: RigidBodySet,
    pub collider_set: ColliderSet,
    pub impulse_joint_set: ImpulseJointSet,
}

/// A scene: a physics world and one optional listener of each kind. A
/// listener is named by a key; whoever drives the scene maps keys to callbacks.
pub struct Scene {
    pub physics_engine: PhysicsWorld,
    pub on_event: Option<u64>,
    pub on_step: Option<u64>,
    pub on_collision_event: Option<u64>,
    pub on_force_event: Option<u64>,
}

impl Scene {
    /// The listener installed for `kind`.
    pub open spec fn slot(self, kind: ListenerKind) -> Option<u64> {
        match kind {
            ListenerKind::Event => self.on_event,
            ListenerKind::Step => self.on_step,
            ListenerKind::Collision => self.on_collision_event,
            ListenerKind::Force => self.on_force_event,
        }
    }

    /// Every collider has its parent in the scene's rigid-body set, and each
    /// rigid body carries the id of a registered body that points back at it.
    /// Every tag in the scene was issued before `next_id`.
    pub open spec fn wf(self, next_id: u64, bodies: Map<u64, Body>) -> bool {
        let rigid = rigid_tags(self.physics_engine.rigid_body_set);
        let parents = collider_parents(self.physics_engine.collider_set);
        let joints = joint_links(self.physics_engine.impulse_joint_set);
        &&& forall|c: RawHandle| #[trigger]
            parents.contains_key(c) ==> rigid.contains_key(parents[c])
        &&& forall|h: RawHandle| #[trigger]
            rigid.contains_key(h) ==> rigid[h] < next_id && bodies.contains_key(rigid[h] as u64)
                && bodies[rigid[h] as u64].rigid == h
        &&& forall|j: RawHandle| #[trigger] joints.contains_key(j) ==> joints[j].2 < next_id
    }

    /// A scene with an empty physics world and no listener.
    pub fn new() -> (r: Scene)
        ensures
            rigid_tags(r.physics_engine.rigid_body_set).dom() == Set::<RawHandle>::empty(),
            collider_parents(r.physics_engine.collider_set).dom() == Set::<RawHandle>::empty(),
            joint_links(r.physics_engine.impulse_joint_set).dom() == Set::<RawHandle>::empty(),
            r.on_event is None,
            r.on_step is None,
            r.on_collision_event is None,
            r.on_force_event is None,
    {
        Scene {
            physics_engine: PhysicsWorld {
                rigid_body_set: new_rigid_body_set(),
                collider_set: new_collider_set(),
                impulse_joint_set: new_impulse_joint_set(),
            },
            on_event: None,
            on_step: None,
            on_collision_event: None,
            on_force_event: None,
        }
    }
}

/// Process-wide state: the id counter shared by bodies and joints, every body
/// of every scene, every scene, and the body being watched.
pub struct Engine {
    pub unique_id: u64,
    pub body_mp: HashMap<u64, Body>,
    pub scene_mp: HashMap<u64, Scene>,
    pub watcher_binding_body_id: u64,
}

impl Engine {
    /// Every registered body id was issued before the counter, and every
    /// scene is well formed.
    pub open spec fn wf(self) -> bool {
        &&& forall|b: u64| #[trigger] self.body_mp@.contains_key(b) ==> b < self.unique_id
        &&& forall|s: u64| #[trigger]
            self.scene_mp@.contains_key(s) ==> self.scene_mp@[s].wf(
                self.unique_id,
                self.body_mp@,
            )
    }

    /// An engine with no scene and no body; the first id it issues is 0.
    pub fn new() -> (r: Engine)
        ensures
            r.wf(),
            r.unique_id == 0,
            r.body_mp@.dom() == Set::<u64>::empty(),
            r.scene_mp@.dom() == Set::<u64>::empty(),
            r.watcher_binding_body_id == 0,
    {
        Engine {
            unique_id: 0,
            body_mp: HashMap::new(),
            scene_mp: HashMap::new(),
            watcher_binding_body_id: 0,
        }
    }

    /// Registers an empty scene under `scene_id`, replacing any scene there.
    pub fn add_scene(&mut self, scene_id: u64)
        requires
            old(self).wf(),
        ensures
            final(self).wf(),
            final(self).unique_id == old(self).unique_id,
            final(self).body_mp@ == old(self).body_mp@,
            final(self).watcher_binding_body_id == old(self).watcher_binding_body_id,
            final(self).scene_mp@.dom() == old(self).scene_mp@.dom().insert(scene_id),
            forall|s: u64|
                s != scene_id && #[trigger] old(self).scene_mp@.contains_key(s)
                    ==> final(self).scene_mp@[s] == old(self).scene_mp@[s],
            rigid_tags(final(self).scene_mp@[scene_id].physics_engine.rigid_body_set).dom()
                == Set::<RawHandle>::empty(),
            collider_parents(final(self).scene_mp@[scene_id].physics_engine.collider_set).dom()
                == Set::<RawHandle>::empty(),
            final(self).scene_mp@[scene_id].slot(ListenerKind::Event) is None,
            final(self).scene_mp@[scene_id].slot(ListenerKind::Step) is None,
            final(self).scene_mp@[scene_id].slot(ListenerKind::Collision) is None,
            final(self).scene_mp@[scene_id].slot(ListenerKind::Force) is None,
    {
        let scene = Scene::new();
        self.scene_mp.insert(scene_id, scene);
    }
}

} // verus!
