//! The room registry: the one structure shared by every connection.
//!
//! [`RoomTable`] is the registry's content, a map from room id to room whose
//! operations are verified against a [`Map`] view. [`RoomsDb`] shares one
//! table between tasks behind a lock; each of its operations is one critical
//! section around one table operation.

use crate::ids::random_uuid;
use crate::table::{Keyed, KeyedTable};
use crate::topic::Topic;
use crate::utility::acquire_lock;
use std::ops::{Deref, DerefMut};
use std::sync::{Arc, Mutex};
use vstd::prelude::*;

verus! {

/// Opaque, unique token naming a room.
#[derive(Debug, Clone)]
pub struct RoomId(String);

/// Display label of a room; not unique.
#[derive(Debug, Clone)]
pub struct RoomName(String);

impl View for RoomId {
    type V = Seq<char>;

    closed spec fn view(&self) -> Seq<char> {
        self.0@
    }
}

impl View for RoomName {
    type V = Seq<char>;

    closed spec fn view(&self) -> Seq<char> {
        self.0@
    }
}

impl RoomId {
    pub fn new(id: String) -> (r: RoomId)
        ensures
            r@ == id@,
    {
        RoomId(id)
    }

    pub fn as_str(&self) -> (r: &str)
        ensures
            r@ == self@,
    {
        self.0.as_str()
    }

    pub fn duplicate(&self) -> (r: RoomId)
        ensures
            r == *self,
    {
        RoomId(self.0.clone())
    }
}

impl RoomName {
    pub fn new(name: String) -> (r: RoomName)
        ensures
            r@ == name@,
    {
        RoomName(name)
    }

    pub fn as_str(&self) -> (r: &str)
        ensures
            r@ == self@,
    {
        self.0.as_str()
    }

    pub fn duplicate(&self) -> (r: RoomName)
        ensures
            r == *self,
    {
        RoomName(self.0.clone())
    }
}


/// The request that creates a room.
#[derive(Debug, Clone)]
pub struct CreateRoom {
    room_name: RoomName,
}

impl CreateRoom {
    pub fn new(room_name: RoomName) -> (c: CreateRoom)
        ensures
            c.name() == room_name,
    {
        CreateRoom { room_name }
    }

    pub closed spec fn name(&self) -> RoomName {
        self.room_name
    }

    pub fn get_room_name(&self) -> (r: &RoomName)
        ensures
            *r == self.name(),
    {
        &self.room_name
    }
}

/// A live room: its identity and the topic its participants share.
#[derive(Clone)]
pub struct Room {
    room_id: RoomId,
    room_name: RoomName,
    sender: Topic,
}

impl Room {
    pub closed spec fn id(&self) -> RoomId {
        self.room_id
    }

    pub closed spec fn name(&self) -> RoomName {
        self.room_name
    }

    pub closed spec fn topic(&self) -> Topic {
        self.sender
    }

    /// A room named as requested, with a fresh random id and a new topic of
    /// the default capacity.
    pub fn new(create_room: CreateRoom) -> (r: Room)
        ensures
            r.name() == create_room.name(),
            r.id()@.len() == 36,
            r.topic().capacity() == crate::topic::TOPIC_CAPACITY,
    {
        Room {
            room_id: RoomId::new(random_uuid()),
            room_name: create_room.room_name,
            sender: Topic::with_default_capacity(),
        }
    }

    /// A room made of the given parts.
    pub fn from_parts(room_id: RoomId, room_name: RoomName, topic: Topic) -> (r: Room)
        ensures
            r.id() == room_id,
            r.name() == room_name,
            r.topic() == topic,
    {
        Room { room_id, room_name, sender: topic }
    }

    pub fn get_room_id(&self) -> (r: &RoomId)
        ensures
            *r == self.id(),
    {
        &self.room_id
    }

    pub fn get_room_name(&self) -> (r: &RoomName)
        ensures
            *r == self.name(),
    {
        &self.room_name
    }

    /// A handle to this room's topic.
    pub fn get_sender(&self) -> (t: Topic)
        ensures
            t == self.topic(),
    {
        self.sender.handle()
    }

    /// Another handle to the same room: same id, same name, same topic.
    pub fn duplicate(&self) -> (r: Room)
        ensures
            r == *self,
    {
        Room {
            room_id: self.room_id.duplicate(),
            room_name: self.room_name.duplicate(),
            sender: self.sender.handle(),
        }
    }
}

/// What the registry tells about a room: id and name, no topic.
#[derive(Debug, Clone)]
pub struct RoomInfo {
    room_id: RoomId,
    room_name: RoomName,
}

impl RoomInfo {
    pub closed spec fn id(&self) -> RoomId {
        self.room_id
    }

    pub closed spec fn name(&self) -> RoomName {
        self.room_name
    }

    pub fn new(room: Room) -> (r: RoomInfo)
        ensures
            r.id() == room.id(),
            r.name() == room.name(),
    {
        RoomInfo { room_id: room.room_id, room_name: room.room_name }
    }

    pub fn from_parts(room_id: RoomId, room_name: RoomName) -> (r: RoomInfo)
        ensures
            r.id() == room_id,
            r.name() == room_name,
    {
        RoomInfo { room_id, room_name }
    }

    pub fn get_room_id(&self) -> (r: &RoomId)
        ensures
            *r == self.id(),
    {
        &self.room_id
    }

    pub fn get_room_name(&self) -> (r: &RoomName)
        ensures
            *r == self.name(),
    {
        &self.room_name
    }
}

/// Why a registry operation did not go through.
#[derive(Debug, Clone, PartialEq, Eq)]
pub enum RoomError {
    /// No room with that id is registered.
    NotFound,
    /// The registry's lock was poisoned by a task that panicked inside it.
    LockError,
    /// The id drawn for a new room is already registered.
    IdTaken,
}

impl Keyed for Room {
    open spec fn key_of(&self) -> Seq<char> {
        self.id()@
    }

    fn key(&self) -> (k: &str) {
        self.room_id.as_str()
    }

    fn duplicate(&self) -> (r: Room) {
        Room::duplicate(self)
    }
}

/// The registry's content: the live rooms, each under its id, in the order
/// they were registered.
pub struct RoomTable {
    rooms: KeyedTable<Room>,
}

impl View for RoomTable {
    type V = Map<Seq<char>, Room>;

    closed spec fn view(&self) -> Map<Seq<char>, Room> {
        self.rooms@
    }
}

impl RoomTable {
    /// A table with no room.
    pub fn new() -> (t: RoomTable)
        ensures
            t@ == Map::<Seq<char>, Room>::empty(),
    {
        RoomTable { rooms: KeyedTable::new() }
    }

    /// Registers `room` under its id. An id that is already registered is
    /// refused with `IdTaken` and the table stays as it was.
    pub fn insert_room(&mut self, room: Room) -> (r: Result<(), RoomError>)
        ensures
            old(self)@.contains_key(room.id()@) ==> r == Err::<(), RoomError>(RoomError::IdTaken)
                && final(self)@ == old(self)@,
            !old(self)@.contains_key(room.id()@) ==> r == Ok::<(), RoomError>(())
                && final(self)@ == old(self)@.insert(room.id()@, room),
    {
        match self.rooms.insert_new(room) {
            Ok(()) => Ok(()),
            Err(_room) => Err(RoomError::IdTaken),
        }
    }

    /// The room registered under `id`, or `NotFound`.
    pub fn get_room(&self, id: &RoomId) -> (r: Result<Room, RoomError>)
        ensures
            match r {
                Ok(room) => self@.contains_key(id@) && room == self@[id@] && room.id()@ == id@,
                Err(e) => !self@.contains_key(id@) && e == RoomError::NotFound,
            },
    {
        match self.rooms.get(id.as_str()) {
            Some(room) => Ok(room),
            None => Err(RoomError::NotFound),
        }
    }

    /// Unregisters the room under `id` and returns it, or `NotFound` when no
    /// room has that id; then the table stays as it was.
    pub fn remove_room(&mut self, id: &RoomId) -> (r: Result<Room, RoomError>)
        ensures
            match r {
                Ok(room) => old(self)@.contains_key(id@) && room == old(self)@[id@]
                    && final(self)@ == old(self)@.remove(id@),
                Err(e) => !old(self)@.contains_key(id@) && e == RoomError::NotFound
                    && final(self)@ == old(self)@,
            },
    {
        match self.rooms.remove(id.as_str()) {
            Some(room) => Ok(room),
            None => Err(RoomError::NotFound),
        }
    }

    /// Id and name of every registered room, each once, in the order the
    /// rooms were registered.
    pub fn room_infos(&self) -> (r: Vec<RoomInfo>)
        ensures
            forall|i: int|
                0 <= i < r@.len() ==> self@.contains_key((#[trigger] r@[i]).id()@)
                    && r@[i].id() == self@[r@[i].id()@].id() && r@[i].name()
                    == self@[r@[i].id()@].name(),
            forall|k: Seq<char>|
                self@.contains_key(k) ==> exists|i: int|
                    0 <= i < r@.len() && (#[trigger] r@[i]).id()@ == k,
            forall|i: int, j: int|
                0 <= i < r@.len() && 0 <= j < r@.len() && i != j ==> (#[trigger] r@[i]).id()@
                    != (#[trigger] r@[j]).id()@,
    {
        let rooms = self.rooms.values();
        let mut out: Vec<RoomInfo> = Vec::new();
        let mut i: usize = 0;
        while i < rooms.len()
            invariant
                i <= rooms@.len(),
                out@.len() == i,
                forall|j: int|
                    0 <= j < i ==> (#[trigger] out@[j]).id() == rooms@[j].id() && out@[j].name()
                        == rooms@[j].name(),
            decreases rooms@.len() - i,
        {
            let room = &rooms[i];
            out.push(RoomInfo { room_id: room.room_id.duplicate(), room_name: room.room_name.duplicate() });
            i = i + 1;
        }
        proof {
            assert forall|i: int| 0 <= i < out@.len() implies self@.contains_key((#[trigger] out@[i]).id()@)
                && out@[i].id() == self@[out@[i].id()@].id() && out@[i].name() == self@[out@[i].id()@].name() by {
                assert(rooms@[i].key_of() == out@[i].id()@);
            }
            assert forall|k: Seq<char>| self@.contains_key(k) implies exists|i: int|
                0 <= i < out@.len() && (#[trigger] out@[i]).id()@ == k by {
                let i = choose|i: int| 0 <= i < rooms@.len() && (#[trigger] rooms@[i]).key_of() == k;
                assert(out@[i].id()@ == k);
            }
            assert forall|a: int, b: int|
                0 <= a < out@.len() && 0 <= b < out@.len() && a != b implies (#[trigger] out@[a]).id()@
                    != (#[trigger] out@[b]).id()@ by {
                assert(rooms@[a].key_of() != rooms@[b].key_of());
            }
        }
        out
    }
}

/// A completed registry operation, as seen in a history of them.
pub enum RegistryOp {
    /// `insert_room` of this room.
    Create(Room),
    /// `remove_room` of this id.
    Delete(RoomId),
}

/// The table's view after `op`, as the contracts of `insert_room` and
/// `remove_room` give it: a create of a taken id changes nothing.
pub open spec fn apply_op(m: Map<Seq<char>, Room>, op: RegistryOp) -> Map<Seq<char>, Room> {
    match op {
        RegistryOp::Create(room) => if m.contains_key(room.id()@) {
            m
        } else {
            m.insert(room.id()@, room)
        },
        RegistryOp::Delete(id) => m.remove(id@),
    }
}

/// The table's view after the operations `ops`, in order, from `start`.
pub open spec fn replay(start: Map<Seq<char>, Room>, ops: Seq<RegistryOp>) -> Map<
    Seq<char>,
    Room,
>
    decreases ops.len(),
{
    if ops.len() == 0 {
        start
    } else {
        apply_op(replay(start, ops.drop_last()), ops.last())
    }
}

pub open spec fn is_delete_of(op: RegistryOp, id: Seq<char>) -> bool {
    op matches RegistryOp::Delete(d) && d@ == id
}

pub open spec fn is_create_of(op: RegistryOp, id: Seq<char>) -> bool {
    op matches RegistryOp::Create(room) && room.id()@ == id
}

/// No delete of `id` among `ops` from index `from` on.
pub open spec fn no_delete_from(ops: Seq<RegistryOp>, id: Seq<char>, from: int) -> bool {
    forall|j: int| from <= j < ops.len() ==> !is_delete_of(#[trigger] ops[j], id)
}

/// `id` is live after `ops`: it was created (before `ops` or by one of them)
/// and no delete of it came after that create.
pub open spec fn live_after(start: Map<Seq<char>, Room>, ops: Seq<RegistryOp>, id: Seq<char>) -> bool {
    ||| (start.contains_key(id) && no_delete_from(ops, id, 0))
    ||| exists|i: int|
        0 <= i < ops.len() && is_create_of(#[trigger] ops[i], id) && no_delete_from(ops, id, i + 1)
}

/// The registry behaves as a key-value store over any history of creates
/// and deletes: a lookup of `id` finds a room exactly when `id` was created
/// and not deleted since, and the room it finds is the one that was
/// registered under `id`, before the history or by one of its creates.
pub proof fn lemma_lookup_after_history(
    start: Map<Seq<char>, Room>,
    ops: Seq<RegistryOp>,
    id: Seq<char>,
)
    ensures
        replay(start, ops).contains_key(id) <==> live_after(start, ops, id),
        replay(start, ops).contains_key(id) ==> (start.contains_key(id) && replay(start, ops)[id]
            == start[id]) || exists|i: int|
            0 <= i < ops.len() && ops[i] == RegistryOp::Create(#[trigger] replay(start, ops)[id]),
    decreases ops.len(),
{
    if ops.len() > 0 {
        let prev = ops.drop_last();
        let n = ops.len() - 1;
        lemma_lookup_after_history(start, prev, id);
        let before = replay(start, prev);
        let after = replay(start, ops);
        assert(after == apply_op(before, ops.last()));
        assert forall|j: int| 0 <= j < prev.len() implies #[trigger] prev[j] == ops[j] by {}
        if live_after(start, prev, id) {
            if start.contains_key(id) && no_delete_from(prev, id, 0) {
                if !is_delete_of(ops[n], id) {
                    assert forall|j: int| 0 <= j < ops.len() implies !is_delete_of(#[trigger] ops[j], id) by {
                        if j < n {
                            assert(prev[j] == ops[j]);
                        }
                    }
                }
            } else {
                let i = choose|i: int|
                    0 <= i < prev.len() && is_create_of(#[trigger] prev[i], id) && no_delete_from(
                        prev,
                        id,
                        i + 1,
                    );
                assert(is_create_of(ops[i], id));
                if !is_delete_of(ops[n], id) {
                    assert forall|j: int| i + 1 <= j < ops.len() implies !is_delete_of(#[trigger] ops[j], id) by {
                        if j < n {
                            assert(prev[j] == ops[j]);
                        }
                    }
                }
            }
        }
        if live_after(start, ops, id) && !is_delete_of(ops[n], id) && !is_create_of(ops[n], id) {
            if start.contains_key(id) && no_delete_from(ops, id, 0) {
                assert(no_delete_from(prev, id, 0));
            } else {
                let i = choose|i: int|
                    0 <= i < ops.len() && is_create_of(#[trigger] ops[i], id) && no_delete_from(
                        ops,
                        id,
                        i + 1,
                    );
                assert(i != n);
                assert(is_create_of(prev[i], id));
                assert(no_delete_from(prev, id, i + 1));
            }
        }
        if is_create_of(ops[n], id) {
            assert(no_delete_from(ops, id, n + 1));
        }
        if is_delete_of(ops[n], id) {
            assert(!no_delete_from(ops, id, 0));
            assert forall|i: int| 0 <= i < ops.len() && is_create_of(#[trigger] ops[i], id) implies !no_delete_from(ops, id, i + 1) by {
                assert(i != n);
                assert(is_delete_of(ops[n], id));
            }
        }
        if after.contains_key(id) && !(start.contains_key(id) && after[id] == start[id]) {
            if before.contains_key(id) && after[id] == before[id] {
                if !(start.contains_key(id) && before[id] == start[id]) {
                    let i = choose|i: int|
                        0 <= i < prev.len() && prev[i] == RegistryOp::Create(#[trigger] before[id]);
                    assert(ops[i] == RegistryOp::Create(after[id]));
                }
            } else {
                assert(ops[n] == RegistryOp::Create(after[id]));
            }
        }
    }
}

/// The rooms of `rooms`, created in that order from the table view `start`.
pub open spec fn create_all(start: Map<Seq<char>, Room>, rooms: Seq<Room>) -> Map<Seq<char>, Room>
    decreases rooms.len(),
{
    if rooms.len() == 0 {
        start
    } else {
        apply_op(create_all(start, rooms.drop_last()), RegistryOp::Create(rooms.last()))
    }
}

proof fn lemma_create_all_grows(start: Map<Seq<char>, Room>, rooms: Seq<Room>, k: int, id: Seq<char>)
    requires
        0 <= k <= rooms.len(),
        create_all(start, rooms.subrange(0, k)).contains_key(id),
    ensures
        create_all(start, rooms).contains_key(id),
    decreases rooms.len() - k,
{
    if k < rooms.len() {
        let longer = rooms.subrange(0, k + 1);
        assert(longer.drop_last() =~= rooms.subrange(0, k));
        lemma_create_all_grows(start, rooms, k + 1, id);
    } else {
        assert(rooms.subrange(0, k) =~= rooms);
    }
}

/// Creates never collide: in any run of creates, each of which registered
/// its room (its id was free when it ran), the created rooms have pairwise
/// distinct ids, however many there are.
pub proof fn lemma_created_ids_distinct(start: Map<Seq<char>, Room>, rooms: Seq<Room>)
    requires
        forall|i: int|
            0 <= i < rooms.len() ==> !(#[trigger] create_all(start, rooms.subrange(0, i))).contains_key(
                rooms[i].id()@,
            ),
    ensures
        forall|i: int, j: int|
            0 <= i < j < rooms.len() ==> (#[trigger] rooms[i]).id()@ != (#[trigger] rooms[j]).id()@,
{
    assert forall|i: int, j: int| 0 <= i < j < rooms.len() implies (#[trigger] rooms[i]).id()@
        != (#[trigger] rooms[j]).id()@ by {
        let upto = rooms.subrange(0, i + 1);
        assert(upto.drop_last() =~= rooms.subrange(0, i));
        assert(upto.last() == rooms[i]);
        assert(create_all(start, upto).contains_key(rooms[i].id()@));
        let head = rooms.subrange(0, j);
        assert(head.subrange(0, i + 1) =~= upto);
        lemma_create_all_grows(start, head, i + 1, rooms[i].id()@);
        assert(!create_all(start, rooms.subrange(0, j)).contains_key(rooms[j].id()@));
    }
}

/// The shared registry: one [`RoomTable`] behind one lock. Clones share the
/// table. Each operation holds the lock for one table operation and never
/// across any I/O; what other tasks do between two operations is open, so
/// each contract says what holds whatever the table held at that moment.
/// Since each call is one [`RoomTable`] operation made under the lock, the
/// calls are linearizable, and the registry's laws
/// ([`lemma_lookup_after_history`], [`lemma_created_ids_distinct`]) hold of
/// the history of calls in the order they took the lock.
#[derive(Clone)]
pub struct RoomsDb {
    pool: Arc<Mutex<RoomTable>>,
}

impl RoomsDb {
    /// A registry with no room.
    pub fn new() -> RoomsDb {
        RoomsDb { pool: Arc::new(Mutex::new(RoomTable::new())) }
    }

    /// The room registered under `room_id` at the moment of the call.
    pub fn get_room(&self, room_id: &RoomId) -> (r: Result<Room, RoomError>)
        ensures
            match r {
                Ok(room) => room.id()@ == room_id@,
                Err(e) => e == RoomError::NotFound || e == RoomError::LockError,
            },
    {
        let guard = match acquire_lock(&*self.pool) {
            Some(g) => g,
            None => return Err(RoomError::LockError),
        };
        let table: &RoomTable = guard.deref();
        table.get_room(room_id)
    }

    /// Makes a room named as requested, with a fresh id and a new topic, and
    /// registers it. The new room is returned whole, topic included.
    pub fn create_room(&self, room_payload: CreateRoom) -> (r: Result<Room, RoomError>)
        ensures
            match r {
                Ok(room) => room.name() == room_payload.name() && room.id()@.len() == 36
                    && room.topic().capacity() == crate::topic::TOPIC_CAPACITY,
                Err(e) => e == RoomError::IdTaken || e == RoomError::LockError,
            },
    {
        let new_room = Room::new(room_payload);
        let mut guard = match acquire_lock(&*self.pool) {
            Some(g) => g,
            None => return Err(RoomError::LockError),
        };
        let table: &mut RoomTable = guard.deref_mut();
        match table.insert_room(new_room.duplicate()) {
            Ok(()) => Ok(new_room),
            Err(e) => Err(e),
        }
    }

    /// Id and name of each room registered at the moment of the call, each
    /// once.
    pub fn get_all_room_info(&self) -> (r: Result<Vec<RoomInfo>, RoomError>)
        ensures
            match r {
                Ok(infos) => forall|i: int, j: int|
                    0 <= i < infos@.len() && 0 <= j < infos@.len() && i != j
                        ==> (#[trigger] infos@[i]).id()@ != (#[trigger] infos@[j]).id()@,
                Err(e) => e == RoomError::LockError,
            },
    {
        let guard = match acquire_lock(&*self.pool) {
            Some(g) => g,
            None => return Err(RoomError::LockError),
        };
        let table: &RoomTable = guard.deref();
        Ok(table.room_infos())
    }

    /// Unregisters the room under `room_id`. Connections that already hold
    /// its topic keep it until they end.
    pub fn delete_room(&self, room_id: RoomId) -> (r: Result<(), RoomError>)
        ensures
            r matches Err(e) ==> e == RoomError::NotFound || e == RoomError::LockError,
    {
        let mut guard = match acquire_lock(&*self.pool) {
            Some(g) => g,
            None => return Err(RoomError::LockError),
        };
        let table: &mut RoomTable = guard.deref_mut();
        match table.remove_room(&room_id) {
            Ok(_room) => Ok(()),
            Err(e) => Err(e),
        }
    }
}

} // verus!
