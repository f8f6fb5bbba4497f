//! Entity bookkeeping and the gameplay event bus.
use vstd::prelude::*;

verus! {

/// Identifier of an entity of the world.
#[derive(Clone, Copy, Debug, PartialEq, Eq, Hash, Structural)]
pub struct EntityId(pub usize);

/// An event of the engine or of the gameplay; scalars are `f32` bit patterns.
#[derive(Clone, Debug, PartialEq)]
pub enum EngineEvent {
    EntityCreated(EntityId),
    EntityDestroyed(EntityId),
    CollisionEnter { entity_a: EntityId, entity_b: EntityId },
    ExplosionTriggered { position: [u32; 3], radius: u32, force: u32 },
    Custom { name: String, payload: String },
}

/// The world's entities and the queue of events of the current frame.
pub struct WorldEcs {
    pub next_id: usize,
    pub entities: Vec<EntityId>,
    pub event_queue: Vec<EngineEvent>,
}

impl WorldEcs {
    /// Entities were handed out in increasing order, each below the next id.
    pub open spec fn wf(&self) -> bool {
        &&& forall|i: int, j: int|
            0 <= i < j < self.entities@.len() ==> (#[trigger] self.entities@[i]).0 < (
            #[trigger] self.entities@[j]).0
        &&& forall|i: int| 0 <= i < self.entities@.len() ==> (#[trigger] self.entities@[i]).0 < self.next_id
    }

    /// An empty world: no entity, no event, ids starting at 0.
    pub fn new() -> (r: Self)
        ensures
            r.next_id == 0,
            r.entities@ == Seq::<EntityId>::empty(),
            r.event_queue@ == Seq::<EngineEvent>::empty(),
            r.wf(),
    {
        WorldEcs { next_id: 0, entities: Vec::new(), event_queue: Vec::new() }
    }

    /// Creates an entity with the next id and announces it on the bus.
    pub fn spawn_entity(&mut self) -> (r: EntityId)
        requires
            old(self).next_id < usize::MAX,
        ensures
            r == EntityId(old(self).next_id),
            final(self).next_id == old(self).next_id + 1,
            final(self).entities@ == old(self).entities@.push(r),
            final(self).event_queue@ == old(self).event_queue@.push(EngineEvent::EntityCreated(r)),
            old(self).wf() ==> final(self).wf(),
    {
        let id = EntityId(self.next_id);
        self.next_id = self.next_id + 1;
        self.entities.push(id);
        self.event_queue.push(EngineEvent::EntityCreated(id));
        id
    }

    /// Queues an event on the bus.
    pub fn emit_event(&mut self, event: EngineEvent)
        ensures
            final(self).next_id == old(self).next_id,
            final(self).entities@ == old(self).entities@,
            final(self).event_queue@ == old(self).event_queue@.push(event),
    {
        self.event_queue.push(event);
    }

    /// Takes every queued event, in the order they were queued, and leaves the
    /// queue empty.
    pub fn drain_events(&mut self) -> (r: Vec<EngineEvent>)
        ensures
            r@ == old(self).event_queue@,
            final(self).event_queue@ == Seq::<EngineEvent>::empty(),
            final(self).next_id == old(self).next_id,
            final(self).entities@ == old(self).entities@,
    {
        let mut drained: Vec<EngineEvent> = Vec::new();
        std::mem::swap(&mut drained, &mut self.event_queue);
        drained
    }
}

impl Default for WorldEcs {
    fn default() -> (r: Self)
        ensures
            r.next_id == 0,
            r.entities@ == Seq::<EntityId>::empty(),
            r.event_queue@ == Seq::<EngineEvent>::empty(),
    {
        WorldEcs::new()
    }
}

/// In a well-formed world the entities are pairwise distinct, and the id of a
/// newly spawned entity is none of theirs.
pub proof fn lemma_entity_ids_distinct(w: &WorldEcs)
    requires
        w.wf(),
    ensures
        forall|i: int, j: int|
            0 <= i < w.entities@.len() && 0 <= j < w.entities@.len() && i != j ==> w.entities@[i]
                != w.entities@[j],
        !w.entities@.contains(EntityId(w.next_id)),
{
    assert forall|i: int, j: int|
        0 <= i < w.entities@.len() && 0 <= j < w.entities@.len() && i != j implies w.entities@[i]
        != w.entities@[j] by {
        if i < j {
            assert(w.entities@[i].0 < w.entities@[j].0);
        } else {
            assert(w.entities@[j].0 < w.entities@[i].0);
        }
    }
    if w.entities@.contains(EntityId(w.next_id)) {
        let k = choose|k: int| 0 <= k < w.entities@.len() && w.entities@[k] == EntityId(w.next_id);
        assert(w.entities@[k].0 < w.next_id);
    }
}

} // verus!
