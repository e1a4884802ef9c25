//! The physics world of a scene, as this library sees it.
//!
//! The rigid-body, collider and impulse-joint sets are rapier2d's own. Their
//! contents are described here over plain handles: a rapier handle is an arena
//! index and a generation, both `u32`.
use rapier2d::dynamics::{
    GenericJoint, ImpulseJointHandle, ImpulseJointSet, RigidBody, RigidBodyHandle, RigidBodySet,
};
use rapier2d::geometry::{Collider, ColliderHandle, ColliderSet};
use vstd::prelude::*;

verus! {

/// A handle into one of the arenas of a physics world, as its raw parts.
#[derive(Clone, Copy, Debug, PartialEq, Eq, Structural)]
pub struct RawHandle {
    pub index: u32,
    pub generation: u32,
}

#[verifier::external_type_specification]
#[verifier::external_body]
pub struct ExRigidBody(RigidBody);

#[verifier::external_type_specification]
#[verifier::external_body]
pub struct ExCollider(Collider);

#[verifier::external_type_specification]
#[verifier::external_body]
pub struct ExGenericJoint(GenericJoint);

#[verifier::external_type_specification]
#[verifier::external_body]
pub struct ExRigidBodySet(RigidBodySet);

#[verifier::external_type_specification]
#[verifier::external_body]
pub struct ExColliderSet(ColliderSet);

#[verifier::external_type_specification]
#[verifier::external_body]
pub struct ExImpulseJointSet(ImpulseJointSet);

/// The bodies of a rigid-body set: each handle with the user data of its body.
pub uninterp spec fn rigid_tags(s: RigidBodySet) -> Map<RawHandle, u128>;

/// The colliders of a collider set that have a parent body: each handle with
/// the handle of its parent.
pub uninterp spec fn collider_parents(s: ColliderSet) -> Map<RawHandle, RawHandle>;

/// The joints of an impulse-joint set: each handle with the handles of its two
/// bodies and the user data of the joint.
pub uninterp spec fn joint_links(s: ImpulseJointSet) -> Map<RawHandle, (RawHandle, RawHandle, u128)>;

/// Relies on `RigidBodySet::new`: a new set holds no body.
#[verifier::external_body]
pub(crate) fn new_rigid_body_set() -> (r: RigidBodySet)
    ensures
        rigid_tags(r).dom() == Set::<RawHandle>::empty(),
{
    RigidBodySet::new()
}

/// Relies on `ColliderSet::new`: a new set holds no collider.
#[verifier::external_body]
pub(crate) fn new_collider_set() -> (r: ColliderSet)
    ensures
        collider_parents(r).dom() == Set::<RawHandle>::empty(),
{
    ColliderSet::new()
}

/// Relies on `ImpulseJointSet::new`: a new set holds no joint.
#[verifier::external_body]
pub(crate) fn new_impulse_joint_set() -> (r: ImpulseJointSet)
    ensures
        joint_links(r).dom() == Set::<RawHandle>::empty(),
{
    ImpulseJointSet::new()
}

/// Relies on `RigidBodySet::insert`, after the body's public `user_data` field
/// is set to `tag`: the body is stored under a handle that the set did not hold.
#[verifier::external_body]
pub(crate) fn insert_rigid_body(set: &mut RigidBodySet, body: RigidBody, tag: u128) -> (h:
    RawHandle)
    ensures
        !rigid_tags(*old(set)).contains_key(h),
        rigid_tags(*final(set)) == rigid_tags(*old(set)).insert(h, tag),
{
    let mut body = body;
    body.user_data = tag;
    let (index, generation) = set.insert(body).into_raw_parts();
    RawHandle { index, generation }
}

/// Relies on `ColliderSet::insert_with_parent`: the collider is stored under a
/// new handle with `parent` as its parent. It panics when `parent` is not in
/// `bodies`; the bodies and their user data stay as they were.
#[verifier::external_body]
pub(crate) fn insert_collider_with_parent(
    set: &mut ColliderSet,
    collider: Collider,
    parent: RawHandle,
    bodies: &mut RigidBodySet,
) -> (h: RawHandle)
    requires
        rigid_tags(*old(bodies)).contains_key(parent),
    ensures
        !collider_parents(*old(set)).contains_key(h),
        collider_parents(*final(set)) == collider_parents(*old(set)).insert(h, parent),
        rigid_tags(*final(bodies)) == rigid_tags(*old(bodies)),
{
    let parent = RigidBodyHandle::from_raw_parts(parent.index, parent.generation);
    let (index, generation) = set.insert_with_parent(collider, parent, bodies).into_raw_parts();
    RawHandle { index, generation }
}

/// Relies on `ColliderSet::get` and `Collider::parent`: the parent of the
/// collider under `h`, if the set holds one there and it has a parent.
#[verifier::external_body]
pub(crate) fn collider_parent(set: &ColliderSet, h: RawHandle) -> (r: Option<RawHandle>)
    ensures
        r == (if collider_parents(*set).contains_key(h) {
            Some(collider_parents(*set)[h])
        } else {
            None
        }),
{
    let h = ColliderHandle::from_raw_parts(h.index, h.generation);
    set.get(h).and_then(|c| c.parent()).map(
        |p| {
            let (index, generation) = p.into_raw_parts();
            RawHandle { index, generation }
        },
    )
}

/// Relies on `RigidBodySet::get` and the body's public `user_data` field: the
/// user data of the body under `h`, if the set holds one there.
#[verifier::external_body]
pub(crate) fn rigid_tag(set: &RigidBodySet, h: RawHandle) -> (r: Option<u128>)
    ensures
        r == (if rigid_tags(*set).contains_key(h) {
            Some(rigid_tags(*set)[h])
        } else {
            None
        }),
{
    let h = RigidBodyHandle::from_raw_parts(h.index, h.generation);
    set.get(h).map(|b| b.user_data)
}

/// Relies on `ImpulseJointSet::insert` with `wake_up` set, after the joint's
/// public `user_data` field is set to `tag`: the joint between `body1` and
/// `body2` is stored under a handle that the set did not hold.
#[verifier::external_body]
pub(crate) fn insert_impulse_joint(
    set: &mut ImpulseJointSet,
    body1: RawHandle,
    body2: RawHandle,
    joint: GenericJoint,
    tag: u128,
) -> (h: RawHandle)
    ensures
        !joint_links(*old(set)).contains_key(h),
        joint_links(*final(set)) == joint_links(*old(set)).insert(h, (body1, body2, tag)),
{
    let mut joint = joint;
    joint.user_data = tag;
    let b1 = RigidBodyHandle::from_raw_parts(body1.index, body1.generation);
    let b2 = RigidBodyHandle::from_raw_parts(body2.index, body2.generation);
    let h: ImpulseJointHandle = set.insert(b1, b2, joint, true);
    let (index, generation) = h.into_raw_parts();
    RawHandle { index, generation }
}

} // verus!
