//! The entity world: a `hecs` world plus a queue of deferred despawns, so
//! that code running while the world is being walked can ask for entities
//! to go away without invalidating the walk. The queue is applied by
//! `flush`, once per frame.

use hecs::World as HecsWorld;
use vstd::prelude::*;

verus! {

/// The `hecs` entity store, carried through opaquely.
#[verifier::external_type_specification]
#[verifier::external_body]
pub struct ExHecsWorld(HecsWorld);

/// The entities a `hecs` world contains (`World::contains`), each by its
/// `Entity::to_bits` value. Reserved entities are contained from the moment
/// they are reserved.
pub uninterp spec fn hecs_live(w: HecsWorld) -> Set<u64>;

/// The reserved entities that the world has not yet flushed into real ones:
/// contained, but not counted by `World::len`.
pub uninterp spec fn hecs_reserved(w: HecsWorld) -> Set<u64>;

/// The text of the `Name` component of each entity that carries one.
pub uninterp spec fn hecs_names(w: HecsWorld) -> Map<u64, Seq<char>>;

/// Does `bits` carry a nonzero generation (its upper 32 bits), so that
/// `Entity::from_bits` makes an entity of it?
pub open spec fn has_generation(bits: u64) -> bool {
    bits >> 32u64 != 0
}

/// `hecs::World::new`: a world with no entity, no reservation and no name.
///
/// hecs numbers its worlds from a process-wide counter and panics once that
/// counter would pass `u64::MAX`; that limit is not stated.
#[verifier::external_body]
fn hecs_world_new() -> (w: HecsWorld)
    ensures
        hecs_live(w) == Set::<u64>::empty(),
        hecs_reserved(w) == Set::<u64>::empty(),
        hecs_names(w).dom() == Set::<u64>::empty(),
{
    HecsWorld::new()
}

/// `hecs::World::spawn` with a bundle of one `Name` component. hecs first
/// flushes pending reservations into real entities (they stay contained),
/// then hands out an entity whose bits differ from those of every contained
/// entity (contained entities have distinct ids, and a freed id comes back
/// with a new generation), and whose generation half (the upper 32 bits) is
/// not zero. The new entity carries the given name. hecs counts entities in
/// a `u32` and panics when the count would overflow, hence the bound.
#[verifier::external_body]
fn hecs_spawn_name(w: &mut HecsWorld, name: Name) -> (bits: u64)
    requires
        hecs_live(*old(w)).finite(),
        hecs_live(*old(w)).len() < u32::MAX,
    ensures
        !hecs_live(*old(w)).contains(bits),
        hecs_live(*final(w)) == hecs_live(*old(w)).insert(bits),
        hecs_reserved(*final(w)) == Set::<u64>::empty(),
        hecs_names(*final(w)) == hecs_names(*old(w)).insert(bits, name.0@),
        has_generation(bits),
{
    w.spawn((name,)).to_bits().get()
}

/// `hecs::World::despawn` of the entity whose bits are given
/// (`Entity::from_bits` rebuilds it; bits with a zero generation name no
/// entity, and then no call is made). Returns whether the entity was
/// contained; it is not contained afterwards, and its components, its name
/// among them, are gone. `despawn` flushes pending reservations first.
#[verifier::external_body]
fn hecs_despawn(w: &mut HecsWorld, bits: u64) -> (found: bool)
    ensures
        found == hecs_live(*old(w)).contains(bits),
        hecs_live(*final(w)) == hecs_live(*old(w)).remove(bits),
        hecs_names(*final(w)) == hecs_names(*old(w)).remove(bits),
        has_generation(bits) ==> hecs_reserved(*final(w)) == Set::<u64>::empty(),
        !has_generation(bits) ==> hecs_reserved(*final(w)) == hecs_reserved(*old(w)),
{
    match hecs::Entity::from_bits(bits) {
        Some(e) => w.despawn(e).is_ok(),
        None => false,
    }
}

/// `hecs::World::len`: the number of entities, not counting reservations
/// that are still waiting for a flush.
#[verifier::external_body]
fn hecs_len(w: &HecsWorld) -> (n: u32)
    ensures
        n as nat == hecs_live(*w).difference(hecs_reserved(*w)).len(),
{
    w.len()
}

/// A named tag, so that scripts and the editor can refer to entities by name.
#[derive(Debug)]
pub struct Name(pub String);

/// A cheap marker component, e.g. `Tag("player")`.
#[derive(Debug)]
pub struct Tag(pub String);

impl Clone for Name {
    fn clone(&self) -> (r: Name)
        ensures
            r.0@ == self.0@,
    {
        Name(self.0.clone())
    }
}

impl Clone for Tag {
    fn clone(&self) -> (r: Tag)
        ensures
            r.0@ == self.0@,
    {
        Tag(self.0.clone())
    }
}

impl Default for Name {
    fn default() -> (r: Name)
        ensures
            r.0@ == Seq::<char>::empty(),
    {
        Name(String::new())
    }
}

impl Default for Tag {
    fn default() -> (r: Tag)
        ensures
            r.0@ == Seq::<char>::empty(),
    {
        Tag(String::new())
    }
}

/// An entity handle, as the bits of a `hecs` entity (`Entity::to_bits`).
#[derive(Clone, Copy, Debug, PartialEq, Eq, Hash, Structural)]
pub struct Entity(pub u64);

enum Command {
    Despawn(Entity),
}

/// The abstract world: the contained entities, the reserved ones among them
/// that are not yet counted, the name of each named entity, and the
/// despawns waiting for the next flush, oldest first.
pub struct WorldView {
    pub live: Set<u64>,
    pub reserved: Set<u64>,
    pub names: Map<u64, Seq<char>>,
    pub pending: Seq<u64>,
}

/// The world after a despawn request: nothing dies yet, the request queues.
pub open spec fn after_despawn(v: WorldView, e: u64) -> WorldView {
    WorldView { pending: v.pending.push(e), ..v }
}

/// Does a queue hold a handle with a generation? Despawning it makes hecs
/// flush its reservations.
pub open spec fn queue_flushes_reservations(q: Seq<u64>) -> bool {
    exists|i: int| 0 <= i < q.len() && has_generation(#[trigger] q[i])
}

/// The world after a flush: every queued entity is gone with its name, the
/// queue is empty, and reservations have become real entities if any queued
/// handle reached hecs.
pub open spec fn after_flush(v: WorldView) -> WorldView {
    WorldView {
        live: v.live.difference(v.pending.to_set()),
        reserved: if queue_flushes_reservations(v.pending) {
            Set::empty()
        } else {
            v.reserved
        },
        names: v.names.remove_keys(v.pending.to_set()),
        pending: Seq::empty(),
    }
}

/// A world with a deferred despawn queue.
pub struct World {
    inner: HecsWorld,
    pending: Vec<Command>,
}

spec fn command_target(c: Command) -> u64 {
    match c {
        Command::Despawn(e) => e.0,
    }
}

impl View for World {
    type V = WorldView;

    closed spec fn view(&self) -> WorldView {
        WorldView {
            live: hecs_live(self.inner),
            reserved: hecs_reserved(self.inner),
            names: hecs_names(self.inner),
            pending: self.pending@.map_values(|c: Command| command_target(c)),
        }
    }
}

impl Default for World {
    /// The same as `World::new`: no entities, nothing queued.
    fn default() -> (w: World)
        ensures
            w.wf(),
            w@.live == Set::<u64>::empty(),
            w@.reserved == Set::<u64>::empty(),
            w@.names.dom() == Set::<u64>::empty(),
            w@.pending == Seq::<u64>::empty(),
    {
        World::new()
    }
}

impl World {
    /// The contained set is finite, as every set of hecs entities is.
    pub open spec fn wf(&self) -> bool {
        self@.live.finite()
    }

    /// An empty world with an empty queue.
    pub fn new() -> (w: World)
        ensures
            w.wf(),
            w@.live == Set::<u64>::empty(),
            w@.reserved == Set::<u64>::empty(),
            w@.names.dom() == Set::<u64>::empty(),
            w@.pending == Seq::<u64>::empty(),
    {
        let w = World { inner: hecs_world_new(), pending: Vec::new() };
        assert(w@.pending =~= Seq::<u64>::empty());
        w
    }

    /// Spawn an entity carrying a `Name` with the given text. Returns the new
    /// entity, which was not alive before and is alive now, named `name`.
    pub fn spawn_named(&mut self, name: String) -> (e: Entity)
        requires
            old(self).wf(),
            old(self)@.live.len() < u32::MAX,
        ensures
            final(self).wf(),
            !old(self)@.live.contains(e.0),
            final(self)@.live == old(self)@.live.insert(e.0),
            final(self)@.reserved == Set::<u64>::empty(),
            final(self)@.names == old(self)@.names.insert(e.0, name@),
            final(self)@.pending == old(self)@.pending,
    {
        let bits = hecs_spawn_name(&mut self.inner, Name(name));
        Entity(bits)
    }

    /// Ask for `entity` to be despawned at the next `flush`. Nothing dies
    /// now, so walks over the world stay valid.
    pub fn despawn(&mut self, entity: Entity)
        ensures
            final(self)@ == after_despawn(old(self)@, entity.0),
    {
        self.pending.push(Command::Despawn(entity));
        assert(self@.pending =~= old(self)@.pending.push(entity.0));
    }

    /// Apply the queued despawns. Call once per frame, outside of any walk.
    /// Entities that are already gone are skipped.
    pub fn flush(&mut self)
        ensures
            old(self).wf() ==> final(self).wf(),
            final(self)@ == after_flush(old(self)@),
    {
        let mut cmds: Vec<Command> = Vec::new();
        std::mem::swap(&mut cmds, &mut self.pending);
        let ghost old_live = hecs_live(self.inner);
        let ghost old_names = hecs_names(self.inner);
        let ghost old_reserved = hecs_reserved(self.inner);
        let ghost targets = cmds@.map_values(|c: Command| command_target(c));
        assert(targets =~= old(self)@.pending);
        let n = cmds.len();
        let mut i: usize = 0;
        proof {
            assert(targets.take(0) =~= Seq::<u64>::empty());
            assert(targets.take(0).to_set() =~= Set::<u64>::empty());
            assert(old_live.difference(Set::<u64>::empty()) =~= old_live);
            assert(old_names.remove_keys(Set::<u64>::empty()) =~= old_names);
        }
        while i < n
            invariant
                n == cmds.len(),
                i <= n,
                targets == cmds@.map_values(|c: Command| command_target(c)),
                self.pending@ == Seq::<Command>::empty(),
                hecs_live(self.inner) == old_live.difference(targets.take(i as int).to_set()),
                hecs_names(self.inner) == old_names.remove_keys(targets.take(i as int).to_set()),
                hecs_reserved(self.inner) == (if queue_flushes_reservations(targets.take(i as int)) {
                    Set::<u64>::empty()
                } else {
                    old_reserved
                }),
            decreases n - i,
        {
            let ghost x = targets[i as int];
            match &cmds[i] {
                Command::Despawn(e) => {
                    let _ = hecs_despawn(&mut self.inner, e.0);
                },
            }
            proof {
                let t = targets.take(i as int);
                let t1 = targets.take(i + 1);
                assert(t1 =~= t.push(x));
                assert(t1.to_set() =~= t.to_set().insert(x)) by {
                    t.lemma_push_to_set_commute(x);
                }
                assert(old_live.difference(t.to_set()).remove(x) =~= old_live.difference(
                    t1.to_set(),
                ));
                assert(old_names.remove_keys(t.to_set()).remove(x) =~= old_names.remove_keys(
                    t1.to_set(),
                ));
                if has_generation(x) {
                    assert(t1[i as int] == x);
                    assert(queue_flushes_reservations(t1));
                } else {
                    if queue_flushes_reservations(t1) {
                        let k = choose|k: int| 0 <= k < t1.len() && has_generation(#[trigger] t1[k]);
                        assert(k < i);
                        assert(t[k] == t1[k]);
                        assert(queue_flushes_reservations(t));
                    }
                    if queue_flushes_reservations(t) {
                        let k = choose|k: int| 0 <= k < t.len() && has_generation(#[trigger] t[k]);
                        assert(t1[k] == t[k]);
                        assert(queue_flushes_reservations(t1));
                    }
                }
            }
            i += 1;
        }
        assert(targets.take(n as int) =~= targets);
        assert(self@.pending =~= Seq::<u64>::empty());
    }

    /// The underlying `hecs` world, for ad-hoc queries. hecs lets a shared
    /// reference reserve entities and borrow components mutably, so the
    /// world is taken mutably here and nothing is known of its contents once
    /// the handle is given back; the despawn queue is untouched.
    pub fn raw(&mut self) -> (r: &HecsWorld)
        ensures
            hecs_live(*r) == old(self)@.live,
            hecs_reserved(*r) == old(self)@.reserved,
            hecs_names(*r) == old(self)@.names,
            final(self)@.pending == old(self)@.pending,
    {
        &self.inner
    }

    /// The underlying `hecs` world, mutably. Do not hold it across a spawn
    /// or a flush. The queue is untouched; the entities, reservations and
    /// names are whatever the caller leaves in the `hecs` world.
    pub fn raw_mut(&mut self) -> (r: &mut HecsWorld)
        ensures
            hecs_live(*r) == old(self)@.live,
            hecs_reserved(*r) == old(self)@.reserved,
            hecs_names(*r) == old(self)@.names,
            final(self)@.live == hecs_live(*final(r)),
            final(self)@.reserved == hecs_reserved(*final(r)),
            final(self)@.names == hecs_names(*final(r)),
            final(self)@.pending == old(self)@.pending,
    {
        &mut self.inner
    }

    /// The number of entities, not counting reservations still waiting for a
    /// flush. Queued despawns still count.
    pub fn entity_count(&self) -> (n: usize)
        ensures
            n as nat == self@.live.difference(self@.reserved).len(),
    {
        hecs_len(&self.inner) as usize
    }
}

/// A despawn takes effect at the next flush: the entity is gone after it,
/// and so is its name.
pub proof fn law_despawn_then_flush_removes(v: WorldView, e: u64)
    ensures
        !after_flush(after_despawn(v, e)).live.contains(e),
        !after_flush(after_despawn(v, e)).names.dom().contains(e),
        after_flush(after_despawn(v, e)).pending == Seq::<u64>::empty(),
{
    assert(after_despawn(v, e).pending[v.pending.len() as int] == e);
}

/// A despawn request alone changes no entity: until the flush, the live set
/// (and so the entity count) and the names are what they were.
pub proof fn law_despawn_is_deferred(v: WorldView, e: u64)
    ensures
        after_despawn(v, e).live == v.live,
        after_despawn(v, e).reserved == v.reserved,
        after_despawn(v, e).names == v.names,
{
}

/// A flush touches only queued entities: every live entity that was not
/// queued survives it with its name.
pub proof fn law_flush_keeps_unqueued(v: WorldView, x: u64)
    requires
        v.live.contains(x),
        !v.pending.contains(x),
    ensures
        after_flush(v).live.contains(x),
        v.names.dom().contains(x) ==> after_flush(v).names.dom().contains(x) && after_flush(
            v,
        ).names[x] == v.names[x],
{
}

/// A flush lowers the number of contained entities by exactly the number of
/// queued entities that were contained (duplicates and already-dead
/// entities in the queue do not count). With no reservation outstanding,
/// the contained entities are the counted ones (`entity_count`), before the
/// flush and after it.
pub proof fn law_flush_count(v: WorldView)
    requires
        v.live.finite(),
    ensures
        after_flush(v).live.len() == v.live.len() - v.live.intersect(v.pending.to_set()).len(),
        v.reserved == Set::<u64>::empty() ==> {
            &&& after_flush(v).reserved == Set::<u64>::empty()
            &&& v.live.difference(v.reserved) == v.live
            &&& after_flush(v).live.difference(after_flush(v).reserved) == after_flush(v).live
        },
{
    vstd::seq_lib::seq_to_set_is_finite(v.pending);
    vstd::set_lib::lemma_set_difference_len(v.live, v.pending.to_set());
    if v.reserved == Set::<u64>::empty() {
        assert(v.live.difference(v.reserved) =~= v.live);
        assert(after_flush(v).live.difference(after_flush(v).reserved) =~= after_flush(v).live);
    }
}

/// Flushing twice is the same as flushing once.
pub proof fn law_flush_idempotent(v: WorldView)
    ensures
        after_flush(after_flush(v)) == after_flush(v),
{
    assert(Seq::<u64>::empty().to_set() =~= Set::<u64>::empty());
    assert(after_flush(v).live.difference(Set::<u64>::empty()) =~= after_flush(v).live);
    assert(after_flush(v).names.remove_keys(Set::<u64>::empty()) =~= after_flush(v).names);
}

/// Spawning adds exactly one entity to the count: the new entity was not
/// alive before.
pub proof fn law_spawn_adds_one(v: WorldView, e: u64)
    requires
        v.live.finite(),
        !v.live.contains(e),
    ensures
        v.live.insert(e).len() == v.live.len() + 1,
{
}

/// What a spawn writes, the world gives back: the new entity is alive and
/// carries the name it was spawned with, and every other name is kept.
pub proof fn law_spawn_names_entity(names: Map<u64, Seq<char>>, e: u64, name: Seq<char>, x: u64)
    ensures
        names.insert(e, name)[e] == name,
        x != e && names.dom().contains(x) ==> names.insert(e, name)[x] == names[x],
{
}

} // verus!
