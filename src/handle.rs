//! The scene handle: the one way to change a scene.
use crate::engine::{Body, BodyBuilder, Engine, Joint, ListenerKind};
use crate::physics::{
    collider_parent, collider_parents, insert_collider_with_parent, insert_impulse_joint,
    insert_rigid_body, joint_links, rigid_tag, rigid_tags, RawHandle,
};
use std::collections::hash_map::Entry;
use vstd::prelude::*;

verus! {

broadcast use vstd::std_specs::hash::group_hash_axioms;

/// The body id that the collider `c` of scene `sid` resolves to: the user
/// data of its parent rigid body, read as an id.
pub open spec fn body_id_of_collider(e: Engine, sid: u64, c: RawHandle) -> u64 {
    let w = e.scene_mp@[sid].physics_engine;
    rigid_tags(w.rigid_body_set)[collider_parents(w.collider_set)[c]] as u64
}

/// `e1` holds the same scenes as `e0`, and all but scene `sid` are unchanged.
pub open spec fn other_scenes_kept(e0: Engine, e1: Engine, sid: u64) -> bool {
    &&& e1.scene_mp@.dom() == e0.scene_mp@.dom()
    &&& forall|s: u64|
        s != sid && #[trigger] e0.scene_mp@.contains_key(s) ==> e1.scene_mp@[s]
            == e0.scene_mp@[s]
}

/// Scene `sid` has the same listeners in `e0` and `e1`.
pub open spec fn listeners_kept(e0: Engine, e1: Engine, sid: u64) -> bool {
    forall|k: ListenerKind| #[trigger]
        e1.scene_mp@[sid].slot(k) == e0.scene_mp@[sid].slot(k)
}

/// `e1` is `e0` after a body was added to scene `sid` under the id `id`: the
/// id is the counter of `e0`, a new rigid body of the scene carries it, and
/// every collider that the scene gained has that rigid body as its parent.
pub open spec fn body_added(e0: Engine, e1: Engine, sid: u64, id: u64) -> bool {
    let w0 = e0.scene_mp@[sid].physics_engine;
    let w1 = e1.scene_mp@[sid].physics_engine;
    let h = e1.body_mp@[id].rigid;
    &&& e0.scene_mp@.contains_key(sid)
    &&& id == e0.unique_id
    &&& e1.unique_id == id + 1
    &&& !e0.body_mp@.contains_key(id)
    &&& e1.body_mp@ == e0.body_mp@.insert(id, e1.body_mp@[id])
    &&& e1.watcher_binding_body_id == e0.watcher_binding_body_id
    &&& other_scenes_kept(e0, e1, sid)
    &&& listeners_kept(e0, e1, sid)
    &&& !rigid_tags(w0.rigid_body_set).contains_key(h)
    &&& rigid_tags(w1.rigid_body_set) == rigid_tags(w0.rigid_body_set).insert(h, id as u128)
    &&& collider_parents(w0.collider_set).submap_of(collider_parents(w1.collider_set))
    &&& forall|c: RawHandle| #[trigger]
        collider_parents(w1.collider_set).contains_key(c) && !collider_parents(
            w0.collider_set,
        ).contains_key(c) ==> collider_parents(w1.collider_set)[c] == h
    &&& joint_links(w1.impulse_joint_set) == joint_links(w0.impulse_joint_set)
}

/// `e1` is `e0` after a joint between the bodies `body1` and `body2` was added
/// to scene `sid` under the id `id`.
pub open spec fn joint_added(e0: Engine, e1: Engine, sid: u64, body1: u64, body2: u64, id: u64) -> bool {
    let w0 = e0.scene_mp@[sid].physics_engine;
    let w1 = e1.scene_mp@[sid].physics_engine;
    let link = (e0.body_mp@[body1].rigid, e0.body_mp@[body2].rigid, id as u128);
    &&& e0.scene_mp@.contains_key(sid)
    &&& id == e0.unique_id
    &&& e1.unique_id == id + 1
    &&& e1.body_mp@ == e0.body_mp@
    &&& e1.watcher_binding_body_id == e0.watcher_binding_body_id
    &&& other_scenes_kept(e0, e1, sid)
    &&& listeners_kept(e0, e1, sid)
    &&& rigid_tags(w1.rigid_body_set) == rigid_tags(w0.rigid_body_set)
    &&& collider_parents(w1.collider_set) == collider_parents(w0.collider_set)
    &&& exists|j: RawHandle|
        !joint_links(w0.impulse_joint_set).contains_key(j) && #[trigger] joint_links(
            w1.impulse_joint_set,
        ) == joint_links(w0.impulse_joint_set).insert(j, link)
}

/// `e1` is `e0` after `listener` was installed for `kind` in scene `sid`.
pub open spec fn listener_installed(
    e0: Engine,
    e1: Engine,
    sid: u64,
    kind: ListenerKind,
    listener: u64,
) -> bool {
    &&& e0.scene_mp@.contains_key(sid)
    &&& e1.unique_id == e0.unique_id
    &&& e1.body_mp@ == e0.body_mp@
    &&& e1.watcher_binding_body_id == e0.watcher_binding_body_id
    &&& other_scenes_kept(e0, e1, sid)
    &&& e1.scene_mp@[sid].physics_engine == e0.scene_mp@[sid].physics_engine
    &&& e1.scene_mp@[sid].slot(kind) == Some(listener)
    &&& forall|k: ListenerKind|
        k != kind ==> #[trigger] e1.scene_mp@[sid].slot(k) == e0.scene_mp@[sid].slot(k)
}

/// A handle over one scene of an engine.
pub struct SceneHandle<'a> {
    pub engine: &'a mut Engine,
    pub scene_id: u64,
}

impl<'a> SceneHandle<'a> {
    /// The id of the scene this handle is bound to.
    pub fn scene_id(&self) -> (r: u64)
        ensures
            r == self.scene_id,
    {
        self.scene_id
    }

    /// Adds a body to this scene and returns its new id. The rigid body is
    /// stamped with the id and each collider of the builder is attached to it.
    pub fn add_body(&mut self, body: BodyBuilder) -> (r: u64)
        requires
            old(self).engine.wf(),
            old(self).engine.scene_mp@.contains_key(old(self).scene_id),
            old(self).engine.unique_id < u64::MAX,
        ensures
            final(self).scene_id == old(self).scene_id,
            final(self).engine.wf(),
            body_added(*old(self).engine, *final(self).engine, old(self).scene_id, r),
            final(self).engine.body_mp@[r].class == body.class,
            final(self).engine.body_mp@[r].name == body.name,
            final(self).engine.body_mp@[r].look == body.look,
            final(self).engine.body_mp@[r].life_step_op == body.life_step_op,
            ({
                let c0 = collider_parents(
                    old(self).engine.scene_mp@[old(self).scene_id].physics_engine.collider_set,
                ).dom();
                let c1 = collider_parents(
                    final(self).engine.scene_mp@[old(self).scene_id].physics_engine.collider_set,
                ).dom();
                c0.finite() ==> c1.finite() && c1.len() == c0.len() + body.colliders@.len()
            }),
    {
        let sid = self.scene_id;
        let ghost e0 = *self.engine;
        let body_id = self.engine.unique_id;
        self.engine.unique_id = body_id + 1;
        let mut scene = self.engine.scene_mp.remove(&sid).unwrap();
        let ghost s0 = scene;
        let BodyBuilder { rigid, colliders, class, name, look, life_step_op } = body;
        let handle = insert_rigid_body(
            &mut scene.physics_engine.rigid_body_set,
            rigid,
            body_id as u128,
        );
        let ghost r1 = rigid_tags(scene.physics_engine.rigid_body_set);
        let ghost c0 = collider_parents(s0.physics_engine.collider_set);
        let ghost n0 = colliders@.len();
        let mut colliders = colliders;
        while colliders.len() > 0
            invariant
                colliders@.len() <= n0,
                rigid_tags(scene.physics_engine.rigid_body_set) == r1,
                r1.contains_key(handle),
                c0.submap_of(collider_parents(scene.physics_engine.collider_set)),
                forall|c: RawHandle| #[trigger]
                    collider_parents(scene.physics_engine.collider_set).contains_key(c)
                        && !c0.contains_key(c) ==> collider_parents(
                        scene.physics_engine.collider_set,
                    )[c] == handle,
                c0.dom().finite() ==> collider_parents(
                    scene.physics_engine.collider_set,
                ).dom().finite() && collider_parents(scene.physics_engine.collider_set).dom().len()
                    == c0.dom().len() + (n0 - colliders@.len()),
                joint_links(scene.physics_engine.impulse_joint_set) == joint_links(
                    s0.physics_engine.impulse_joint_set,
                ),
                scene.on_event == s0.on_event,
                scene.on_step == s0.on_step,
                scene.on_collision_event == s0.on_collision_event,
                scene.on_force_event == s0.on_force_event,
            decreases colliders@.len(),
        {
            let collider = colliders.remove(0);
            let ghost before = collider_parents(scene.physics_engine.collider_set);
            let c = insert_collider_with_parent(
                &mut scene.physics_engine.collider_set,
                collider,
                handle,
                &mut scene.physics_engine.rigid_body_set,
            );
            proof {
                let after = collider_parents(scene.physics_engine.collider_set);
                assert(after.dom() == before.dom().insert(c));
                assert forall|k: RawHandle| #[trigger] c0.contains_key(k) implies after.contains_key(
                    k,
                ) && after[k] == c0[k] by {
                    assert(before.contains_key(k));
                }
                assert forall|k: RawHandle| #[trigger]
                    after.contains_key(k) && !c0.contains_key(k) implies after[k] == handle by {
                    if k != c {
                        assert(before.contains_key(k));
                    }
                }
            }
        }
        self.engine.scene_mp.insert(sid, scene);
        self.engine.body_mp.insert(
            body_id,
            Body { class, name, look, rigid: handle, life_step_op },
        );
        proof {
            let e1 = *self.engine;
            assert(listeners_kept(e0, e1, sid));
            assert forall|s: u64| #[trigger] e1.scene_mp@.contains_key(s) implies e1.scene_mp@[s].wf(
                e1.unique_id,
                e1.body_mp@,
            ) by {
                let rig = rigid_tags(e1.scene_mp@[s].physics_engine.rigid_body_set);
                assert forall|h: RawHandle| #[trigger] rig.contains_key(h) implies rig[h]
                    < e1.unique_id && e1.body_mp@.contains_key(rig[h] as u64) && e1.body_mp@[rig[h] as u64].rigid
                    == h by {
                    if s != sid || h != handle {
                        assert(e0.scene_mp@[s].wf(e0.unique_id, e0.body_mp@));
                    }
                }
                assert(e0.scene_mp@[s].wf(e0.unique_id, e0.body_mp@));
            }
        }
        body_id
    }

    /// Adds a joint between two registered bodies of this scene and returns
    /// its new id, taken from the counter that bodies use too. The joint is
    /// stamped with the id and wakes the bodies it links.
    pub fn add_joint(&mut self, joint: Joint) -> (r: u64)
        requires
            old(self).engine.wf(),
            old(self).engine.scene_mp@.contains_key(old(self).scene_id),
            old(self).engine.unique_id < u64::MAX,
            old(self).engine.body_mp@.contains_key(joint.body1),
            old(self).engine.body_mp@.contains_key(joint.body2),
        ensures
            final(self).scene_id == old(self).scene_id,
            final(self).engine.wf(),
            joint_added(
                *old(self).engine,
                *final(self).engine,
                old(self).scene_id,
                joint.body1,
                joint.body2,
                r,
            ),
    {
        let sid = self.scene_id;
        let ghost e0 = *self.engine;
        let joint_id = self.engine.unique_id;
        self.engine.unique_id = joint_id + 1;
        let Joint { body1, body2, joint } = joint;
        let rigid1 = self.engine.body_mp.get(&body1).unwrap().rigid;
        let rigid2 = self.engine.body_mp.get(&body2).unwrap().rigid;
        let mut scene = self.engine.scene_mp.remove(&sid).unwrap();
        let ghost j0 = joint_links(scene.physics_engine.impulse_joint_set);
        let j = insert_impulse_joint(
            &mut scene.physics_engine.impulse_joint_set,
            rigid1,
            rigid2,
            joint,
            joint_id as u128,
        );
        self.engine.scene_mp.insert(sid, scene);
        proof {
            let e1 = *self.engine;
            let w1 = e1.scene_mp@[sid].physics_engine;
            assert(joint_links(w1.impulse_joint_set) == j0.insert(
                j,
                (rigid1, rigid2, joint_id as u128),
            ));
            assert(listeners_kept(e0, e1, sid));
            assert forall|s: u64| #[trigger] e1.scene_mp@.contains_key(s) implies e1.scene_mp@[s].wf(
                e1.unique_id,
                e1.body_mp@,
            ) by {
                assert(e0.scene_mp@[s].wf(e0.unique_id, e0.body_mp@));
            }
        }
        joint_id
    }

    /// Installs `listener` for `kind` in this scene, replacing the one there.
    fn install_listener(&mut self, kind: ListenerKind, listener: u64)
        requires
            old(self).engine.wf(),
            old(self).engine.scene_mp@.contains_key(old(self).scene_id),
        ensures
            final(self).scene_id == old(self).scene_id,
            final(self).engine.wf(),
            listener_installed(
                *old(self).engine,
                *final(self).engine,
                old(self).scene_id,
                kind,
                listener,
            ),
    {
        let sid = self.scene_id;
        let ghost e0 = *self.engine;
        let mut scene = self.engine.scene_mp.remove(&sid).unwrap();
        match kind {
            ListenerKind::Event => scene.on_event = Some(listener),
            ListenerKind::Step => scene.on_step = Some(listener),
            ListenerKind::Collision => scene.on_collision_event = Some(listener),
            ListenerKind::Force => scene.on_force_event = Some(listener),
        }
        self.engine.scene_mp.insert(sid, scene);
        proof {
            let e1 = *self.engine;
            assert forall|s: u64| #[trigger] e1.scene_mp@.contains_key(s) implies e1.scene_mp@[s].wf(
                e1.unique_id,
                e1.body_mp@,
            ) by {
                assert(e0.scene_mp@[s].wf(e0.unique_id, e0.body_mp@));
            }
        }
    }

    /// Installs the window-event listener of this scene, replacing any other.
    pub fn set_event_listener(&mut self, listener: u64)
        requires
            old(self).engine.wf(),
            old(self).engine.scene_mp@.contains_key(old(self).scene_id),
        ensures
            final(self).scene_id == old(self).scene_id,
            final(self).engine.wf(),
            listener_installed(
                *old(self).engine,
                *final(self).engine,
                old(self).scene_id,
                ListenerKind::Event,
                listener,
            ),
    {
        self.install_listener(ListenerKind::Event, listener);
    }

    /// Installs the step listener of this scene, replacing any other.
    pub fn set_step_listener(&mut self, listener: u64)
        requires
            old(self).engine.wf(),
            old(self).engine.scene_mp@.contains_key(old(self).scene_id),
        ensures
            final(self).scene_id == old(self).scene_id,
            final(self).engine.wf(),
            listener_installed(
                *old(self).engine,
                *final(self).engine,
                old(self).scene_id,
                ListenerKind::Step,
                listener,
            ),
    {
        self.install_listener(ListenerKind::Step, listener);
    }

    /// Records `body_id` as the body being watched; it need not exist.
    pub fn bind_watcher(&mut self, body_id: u64)
        ensures
            final(self).scene_id == old(self).scene_id,
            final(self).engine.watcher_binding_body_id == body_id,
            final(self).engine.unique_id == old(self).engine.unique_id,
            final(self).engine.body_mp == old(self).engine.body_mp,
            final(self).engine.scene_mp == old(self).engine.scene_mp,
    {
        self.engine.watcher_binding_body_id = body_id;
    }

    /// Installs the collision-event listener of this scene, replacing any other.
    pub fn set_collision_event_handler(&mut self, event_handler: u64)
        requires
            old(self).engine.wf(),
            old(self).engine.scene_mp@.contains_key(old(self).scene_id),
        ensures
            final(self).scene_id == old(self).scene_id,
            final(self).engine.wf(),
            listener_installed(
                *old(self).engine,
                *final(self).engine,
                old(self).scene_id,
                ListenerKind::Collision,
                event_handler,
            ),
    {
        self.install_listener(ListenerKind::Collision, event_handler);
    }

    /// Installs the contact-force listener of this scene, replacing any other.
    pub fn set_force_event_handler(&mut self, event_handler: u64)
        requires
            old(self).engine.wf(),
            old(self).engine.scene_mp@.contains_key(old(self).scene_id),
        ensures
            final(self).scene_id == old(self).scene_id,
            final(self).engine.wf(),
            listener_installed(
                *old(self).engine,
                *final(self).engine,
                old(self).scene_id,
                ListenerKind::Force,
                event_handler,
            ),
    {
        self.install_listener(ListenerKind::Force, event_handler);
    }

    /// The listener that an event of `kind` in this scene goes to, if any.
    pub fn listener(&self, kind: ListenerKind) -> (r: Option<u64>)
        requires
            self.engine.scene_mp@.contains_key(self.scene_id),
        ensures
            r == old(self.engine).scene_mp@[self.scene_id].slot(kind),
    {
        let scene = self.engine.scene_mp.get(&self.scene_id).unwrap();
        match kind {
            ListenerKind::Event => scene.on_event,
            ListenerKind::Step => scene.on_step,
            ListenerKind::Collision => scene.on_collision_event,
            ListenerKind::Force => scene.on_force_event,
        }
    }

    /// The engine this handle works on.
    pub fn get_engine(&self) -> (r: &Engine)
        ensures
            *r == *old(self.engine),
    {
        &self.engine
    }

    /// The engine this handle works on, to change it in place.
    pub fn get_engine_mut(&mut self) -> (r: &mut Engine)
        ensures
            *r == *old(self).engine,
            *final(self).engine == *final(r),
            final(self).scene_id == old(self).scene_id,
    {
        &mut self.engine
    }

    /// The id of the body that the collider `ch` of this scene belongs to.
    pub fn get_body_id_of_collider(&mut self, ch: RawHandle) -> (r: u64)
        requires
            old(self).engine.wf(),
            old(self).engine.scene_mp@.contains_key(old(self).scene_id),
            collider_parents(
                old(self).engine.scene_mp@[old(self).scene_id].physics_engine.collider_set,
            ).contains_key(ch),
        ensures
            *final(self).engine == *old(self).engine,
            final(self).scene_id == old(self).scene_id,
            r == body_id_of_collider(*old(self).engine, old(self).scene_id, ch),
            old(self).engine.body_mp@.contains_key(r),
    {
        let scene = self.engine.scene_mp.get(&self.scene_id).unwrap();
        proof {
            assert(scene.wf(self.engine.unique_id, self.engine.body_mp@));
        }
        let parent = collider_parent(&scene.physics_engine.collider_set, ch).unwrap();
        let tag = rigid_tag(&scene.physics_engine.rigid_body_set, parent).unwrap();
        tag as u64
    }

    /// The body registered under `id`, to change it in place; `None` if
    /// there is none.
    pub fn get_body_mut(&mut self, id: &u64) -> (r: Option<&mut Body>)
        ensures
            final(self).scene_id == old(self).scene_id,
            final(self).engine.unique_id == old(self).engine.unique_id,
            final(self).engine.scene_mp == old(self).engine.scene_mp,
            final(self).engine.watcher_binding_body_id == old(self).engine.watcher_binding_body_id,
            r is Some <==> old(self).engine.body_mp@.contains_key(*id),
            r is None ==> final(self).engine.body_mp@ == old(self).engine.body_mp@,
            r matches Some(b) ==> *b == old(self).engine.body_mp@[*id]
                && final(self).engine.body_mp@ == old(self).engine.body_mp@.insert(*id, *final(b)),
    {
        match self.engine.body_mp.entry(*id) {
            Entry::Occupied(o) => Some(o.into_mut()),
            Entry::Vacant(_) => None,
        }
    }

    /// The body registered under `id`; `None` if there is none.
    pub fn get_body(&mut self, id: &u64) -> (r: Option<&Body>)
        ensures
            *final(self).engine == *old(self).engine,
            final(self).scene_id == old(self).scene_id,
            r == (if old(self).engine.body_mp@.contains_key(*id) {
                Some(&old(self).engine.body_mp@[*id])
            } else {
                None
            }),
    {
        self.engine.body_mp.get(id)
    }
}

} // verus!
