//! Facts about sequences of operations on a scene.
use crate::engine::{Engine, ListenerKind};
use crate::handle::{body_added, body_id_of_collider, joint_added, listener_installed};
use crate::physics::{collider_parents, joint_links, rigid_tags, RawHandle};
use vstd::prelude::*;

verus! {

/// Along a run of body additions, the `i`-th id is the first one plus `i`.
proof fn lemma_body_ids_count_up(es: Seq<Engine>, sids: Seq<u64>, ids: Seq<u64>, i: int)
    requires
        es.len() == ids.len() + 1,
        sids.len() == ids.len(),
        forall|k: int|
            0 <= k < ids.len() ==> body_added(es[k], es[k + 1], sids[k], #[trigger] ids[k]),
        0 <= i < ids.len(),
    ensures
        ids[i] == ids[0] + i,
    decreases i,
{
    if i > 0 {
        lemma_body_ids_count_up(es, sids, ids, i - 1);
        assert(body_added(es[i - 1], es[i], sids[i - 1], ids[i - 1]));
        assert(body_added(es[i], es[i + 1], sids[i], ids[i]));
    }
}

/// The ids that a run of body additions returns strictly increase, so no two
/// are equal, and after the run each of them still names the record that its
/// addition made.
pub proof fn lemma_body_ids_increase(es: Seq<Engine>, sids: Seq<u64>, ids: Seq<u64>)
    requires
        es.len() == ids.len() + 1,
        sids.len() == ids.len(),
        forall|k: int|
            0 <= k < ids.len() ==> body_added(es[k], es[k + 1], sids[k], #[trigger] ids[k]),
    ensures
        forall|i: int, j: int| 0 <= i < j < ids.len() ==> ids[i] < ids[j],
        forall|i: int|
            0 <= i < ids.len() ==> #[trigger] es.last().body_mp@.contains_key(ids[i])
                && es.last().body_mp@[ids[i]] == es[i + 1].body_mp@[ids[i]],
{
    assert forall|i: int, j: int| 0 <= i < j < ids.len() implies ids[i] < ids[j] by {
        lemma_body_ids_count_up(es, sids, ids, i);
        lemma_body_ids_count_up(es, sids, ids, j);
    }
    assert forall|i: int| 0 <= i < ids.len() implies #[trigger] es.last().body_mp@.contains_key(
        ids[i],
    ) && es.last().body_mp@[ids[i]] == es[i + 1].body_mp@[ids[i]] by {
        lemma_body_record_kept(es, sids, ids, i, ids.len() as int);
    }
}

/// The record made by the `i`-th addition of a run is unchanged in the
/// engine after the first `n` additions, for every `n` past `i`.
proof fn lemma_body_record_kept(es: Seq<Engine>, sids: Seq<u64>, ids: Seq<u64>, i: int, n: int)
    requires
        es.len() == ids.len() + 1,
        sids.len() == ids.len(),
        forall|k: int|
            0 <= k < ids.len() ==> body_added(es[k], es[k + 1], sids[k], #[trigger] ids[k]),
        0 <= i < n <= ids.len(),
    ensures
        es[n].body_mp@.contains_key(ids[i]),
        es[n].body_mp@[ids[i]] == es[i + 1].body_mp@[ids[i]],
    decreases n,
{
    assert(body_added(es[i], es[i + 1], sids[i], ids[i]));
    if n > i + 1 {
        lemma_body_record_kept(es, sids, ids, i, n - 1);
        lemma_body_ids_count_up(es, sids, ids, i);
        lemma_body_ids_count_up(es, sids, ids, n - 1);
        assert(body_added(es[n - 1], es[n], sids[n - 1], ids[n - 1]));
    }
}

/// Every collider that a body addition attached resolves to the id that the
/// addition returned, and that id names a registered body.
pub proof fn lemma_added_colliders_resolve(e0: Engine, e1: Engine, sid: u64, id: u64, c: RawHandle)
    requires
        body_added(e0, e1, sid, id),
        collider_parents(e1.scene_mp@[sid].physics_engine.collider_set).contains_key(c),
        !collider_parents(e0.scene_mp@[sid].physics_engine.collider_set).contains_key(c),
    ensures
        body_id_of_collider(e1, sid, c) == id,
        e1.body_mp@.contains_key(id),
{
    let w1 = e1.scene_mp@[sid].physics_engine;
    let h = e1.body_mp@[id].rigid;
    assert(collider_parents(w1.collider_set)[c] == h);
    assert(rigid_tags(w1.rigid_body_set)[h] == id as u128);
}

/// A joint's id is larger than every id issued before it: those of the
/// registered bodies, and the tags of the rigid bodies and joints of every scene.
pub proof fn lemma_joint_id_fresh(e0: Engine, e1: Engine, sid: u64, body1: u64, body2: u64, id: u64)
    requires
        e0.wf(),
        joint_added(e0, e1, sid, body1, body2, id),
    ensures
        forall|b: u64| #[trigger] e0.body_mp@.contains_key(b) ==> b < id,
        forall|s: u64, h: RawHandle|
            #![trigger rigid_tags(e0.scene_mp@[s].physics_engine.rigid_body_set)[h]]
            e0.scene_mp@.contains_key(s) && rigid_tags(
                e0.scene_mp@[s].physics_engine.rigid_body_set,
            ).contains_key(h) ==> rigid_tags(e0.scene_mp@[s].physics_engine.rigid_body_set)[h]
                < id,
        forall|s: u64, j: RawHandle|
            #![trigger joint_links(e0.scene_mp@[s].physics_engine.impulse_joint_set)[j]]
            e0.scene_mp@.contains_key(s) && joint_links(
                e0.scene_mp@[s].physics_engine.impulse_joint_set,
            ).contains_key(j) ==> joint_links(
                e0.scene_mp@[s].physics_engine.impulse_joint_set,
            )[j].2 < id,
{
    assert forall|s: u64, h: RawHandle|
        e0.scene_mp@.contains_key(s) && rigid_tags(
            e0.scene_mp@[s].physics_engine.rigid_body_set,
        ).contains_key(h) implies #[trigger] rigid_tags(
        e0.scene_mp@[s].physics_engine.rigid_body_set,
    )[h] < id by {
        assert(e0.scene_mp@[s].wf(e0.unique_id, e0.body_mp@));
    }
    assert forall|s: u64, j: RawHandle|
        e0.scene_mp@.contains_key(s) && joint_links(
            e0.scene_mp@[s].physics_engine.impulse_joint_set,
        ).contains_key(j) implies #[trigger] joint_links(
        e0.scene_mp@[s].physics_engine.impulse_joint_set,
    )[j].2 < id by {
        assert(e0.scene_mp@[s].wf(e0.unique_id, e0.body_mp@));
    }
}

/// Once a listener is installed for a kind, an event of that kind in that
/// scene goes to it.
pub proof fn lemma_installed_listener_fires(
    e0: Engine,
    e1: Engine,
    sid: u64,
    kind: ListenerKind,
    listener: u64,
)
    requires
        listener_installed(e0, e1, sid, kind, listener),
    ensures
        e1.scene_mp@.contains_key(sid),
        e1.scene_mp@[sid].slot(kind) == Some(listener),
{
}

/// Installing a second listener of the same kind replaces the first: events
/// of that kind go to the second alone.
pub proof fn lemma_reinstall_replaces(
    e0: Engine,
    e1: Engine,
    e2: Engine,
    sid: u64,
    kind: ListenerKind,
    first: u64,
    second: u64,
)
    requires
        listener_installed(e0, e1, sid, kind, first),
        listener_installed(e1, e2, sid, kind, second),
    ensures
        e2.scene_mp@[sid].slot(kind) == Some(second),
        first != second ==> e2.scene_mp@[sid].slot(kind) != Some(first),
{
}

} // verus!
