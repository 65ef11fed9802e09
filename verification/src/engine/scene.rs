//! Scene switching. Scenes are identified by number; the host holds the
//! current scene and a first-in-first-out queue of scenes to switch to, which
//! takes effect when the queue is drained.

use vstd::prelude::*;
use lockfree::queue::Queue;

verus! {

/// `lockfree::queue::Queue`, a first-in-first-out queue.
#[verifier::external_type_specification]
#[verifier::external_body]
#[verifier::reject_recursive_types(T)]
pub struct ExQueue<T>(Queue<T>);

/// The scene numbers held by a queue, front first.
pub uninterp spec fn queued_scenes(q: Queue<u64>) -> Seq<u64>;

/// `Queue::new`: an empty queue.
#[verifier::external_body]
fn queue_new() -> (q: Queue<u64>)
    ensures
        queued_scenes(q) == Seq::<u64>::empty(),
{
    Queue::new()
}

/// `Queue::push`: adds the item at the back.
#[verifier::external_body]
fn queue_push(q: &mut Queue<u64>, item: u64)
    ensures
        queued_scenes(*final(q)) == queued_scenes(*old(q)).push(item),
{
    q.push(item)
}

/// `<Queue as Iterator>::next`: takes the front item; `None` when the queue
/// is empty, which it then stays.
#[verifier::external_body]
fn queue_next(q: &mut Queue<u64>) -> (r: Option<u64>)
    ensures
        queued_scenes(*old(q)).len() == 0 ==> r is None && queued_scenes(*final(q))
            == queued_scenes(*old(q)),
        queued_scenes(*old(q)).len() > 0 ==> r == Some(queued_scenes(*old(q))[0])
            && queued_scenes(*final(q)) == queued_scenes(*old(q)).drop_first(),
{
    q.next()
}

/// The scene that is current after draining `pending` from a host whose
/// current scene is `current`: the last one queued, if any.
pub open spec fn drained_current(current: u64, pending: Seq<u64>) -> u64 {
    if pending.len() > 0 {
        pending.last()
    } else {
        current
    }
}

/// Holds the currently active scene, and lets new scenes be queued up to be
/// switched to as soon as possible.
pub struct SceneHost {
    current_scene: u64,
    scene_queue: Queue<u64>,
}

impl SceneHost {
    /// The current scene.
    pub closed spec fn current(&self) -> u64 {
        self.current_scene
    }

    /// The scenes waiting to be switched to, oldest first.
    pub closed spec fn pending(&self) -> Seq<u64> {
        queued_scenes(self.scene_queue)
    }

    /// A host with an initial scene and an empty queue.
    pub fn new(scene: u64) -> (r: SceneHost)
        ensures
            r.current() == scene,
            r.pending() == Seq::<u64>::empty(),
    {
        SceneHost { current_scene: scene, scene_queue: queue_new() }
    }

    /// The current scene.
    pub fn get_current(&self) -> (r: u64)
        ensures
            r == self.current(),
    {
        self.current_scene
    }

    /// Enqueue a scene, to be switched to on the next drain.
    pub fn queue_scene(&mut self, new_scene: u64)
        ensures
            final(self).pending() == old(self).pending().push(new_scene),
            final(self).current() == old(self).current(),
    {
        queue_push(&mut self.scene_queue, new_scene);
    }

    /// Flush the queue, switching to each queued scene in turn; reports
    /// whether the current scene changed hands.
    pub fn drain_queue(&mut self) -> (changed: bool)
        ensures
            changed == (old(self).pending().len() > 0),
            final(self).pending() == Seq::<u64>::empty(),
            final(self).current() == drained_current(old(self).current(), old(self).pending()),
    {
        let ghost start = queued_scenes(self.scene_queue);
        let ghost start_current = self.current_scene;
        let mut changed = false;
        loop
            invariant_except_break
                changed == (queued_scenes(self.scene_queue).len() < start.len()),
                start.subrange(start.len() - queued_scenes(self.scene_queue).len(), start.len() as int)
                    == queued_scenes(self.scene_queue),
                queued_scenes(self.scene_queue).len() <= start.len(),
                changed ==> self.current_scene == start[start.len() - queued_scenes(self.scene_queue).len() - 1],
                !changed ==> self.current_scene == start_current,
            ensures
                changed == (start.len() > 0),
                queued_scenes(self.scene_queue) == Seq::<u64>::empty(),
                self.current_scene == drained_current(start_current, start),
            decreases queued_scenes(self.scene_queue).len(),
        {
            let ghost before = queued_scenes(self.scene_queue);
            match queue_next(&mut self.scene_queue) {
                Some(scene) => {
                    changed = true;
                    self.current_scene = scene;
                    assert(start.subrange(start.len() - queued_scenes(self.scene_queue).len(), start.len() as int)
                        =~= queued_scenes(self.scene_queue));
                },
                None => {
                    break;
                },
            }
        }
        changed
    }
}

/// A queued scene becomes current at the next drain unless another scene
/// is queued after it.
pub proof fn lemma_last_queued_becomes_current(current: u64, pending: Seq<u64>, scene: u64)
    ensures
        drained_current(current, pending.push(scene)) == scene,
{
}

/// Draining with nothing queued keeps the current scene.
pub proof fn lemma_empty_drain_keeps_current(current: u64)
    ensures
        drained_current(current, Seq::<u64>::empty()) == current,
{
}

/// Whether a holder that keeps one scene object per scene number releases
/// the object numbered `index` after a drain that moved the current scene
/// from `before` to `after`: when the scene changed, every scene replaced on
/// the way (the previous one and all queued before the new one) is released,
/// and the new current one is kept.
pub fn scene_released(index: u64, before: u64, after: u64, changed: bool) -> (r: bool)
    ensures
        r == (changed && index != after && (index == before || index < after)),
{
    changed && index != after && (index == before || index < after)
}

} // verus!
