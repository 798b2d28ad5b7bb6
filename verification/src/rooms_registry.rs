//! The directory of rooms: one record per room identifier, rooms built on
//! demand and forgotten once nobody holds them.
use crate::engine::{construction_failure, RouterOutcome};
use crate::ids::{is_version_four, HandlerId, RoomId, RouterId};
use crate::recording::stop_plan_for;
use crate::room::{empty_room, stoppable, stopped, Closing, Room, RoomRef, RoomView, WeakRoom};
use std::collections::HashMap;
use vstd::prelude::*;

verus! {

broadcast use vstd::std_specs::hash::group_hash_axioms;

/// What the directory answers to a request for a room.
#[derive(Debug, Copy, Clone, PartialEq, Eq, Structural)]
pub enum Admission {
    /// The room exists; this is one more handle on it.
    Join(RoomRef),
    /// No room of that identifier is alive: one has to be built.
    Construct,
}

/// Every record stands under the identifier of its own room.
pub open spec fn consistent(rs: Map<RoomId, WeakRoom>) -> bool {
    forall|id: RoomId| rs.contains_key(id) ==> (#[trigger] rs[id]).id == id
}

/// The record of `id` in `rs`, if it has one.
pub open spec fn entry(rs: Map<RoomId, WeakRoom>, id: RoomId) -> Option<WeakRoom> {
    if rs.contains_key(id) {
        Some(rs[id])
    } else {
        None
    }
}

/// The handle that a request for `id` is answered with, if a room of that
/// identifier is alive.
pub open spec fn admits(rs: Map<RoomId, WeakRoom>, id: RoomId) -> Option<RoomRef> {
    if rs.contains_key(id) && rs[id].alive() {
        Some(RoomRef { id, router: rs[id].router })
    } else {
        None
    }
}

/// `rs` after a request for `id`: one more handle on the room if it is
/// alive, no change otherwise.
pub open spec fn admitted(rs: Map<RoomId, WeakRoom>, id: RoomId) -> Map<RoomId, WeakRoom> {
    if rs.contains_key(id) && rs[id].alive() {
        rs.insert(id, WeakRoom { strong: (rs[id].strong + 1) as usize, ..rs[id] })
    } else {
        rs
    }
}

/// The record of a room that has just been built: it counts the one handle
/// that its builder holds.
pub open spec fn first_record(id: RoomId, router: RouterId) -> WeakRoom {
    WeakRoom { id, router, strong: 1 }
}

/// Whether `room` is a handle on the room that `rs` records as alive.
pub open spec fn holds(rs: Map<RoomId, WeakRoom>, room: RoomRef) -> bool {
    rs.contains_key(room.id) && rs[room.id].router == room.router && rs[room.id].alive()
}

/// Whether letting go of the handle `room` closes its room: it does when
/// the handle is the last one.
pub open spec fn closes(rs: Map<RoomId, WeakRoom>, room: RoomRef) -> bool {
    holds(rs, room) && rs[room.id].strong == 1
}

/// `rs` after the handle `room` has been let go.
pub open spec fn released(rs: Map<RoomId, WeakRoom>, room: RoomRef) -> Map<RoomId, WeakRoom> {
    if holds(rs, room) {
        rs.insert(
            room.id,
            WeakRoom { strong: (rs[room.id].strong - 1) as usize, ..rs[room.id] },
        )
    } else {
        rs
    }
}

/// `rs` after the closed room `room` has asked for its record to go: the
/// record goes if it is that room's and the room is gone.
pub open spec fn forgotten(rs: Map<RoomId, WeakRoom>, room: RoomRef) -> Map<RoomId, WeakRoom> {
    if rs.contains_key(room.id) && rs[room.id].router == room.router && !rs[room.id].alive() {
        rs.remove(room.id)
    } else {
        rs
    }
}

/// The subscription through which the directory hears of a room's closing:
/// the first that the room is given.
pub open spec fn directory_listener() -> HandlerId {
    HandlerId(0)
}

/// The value of the room `id` on the router `router` as the directory
/// hands it out: empty, with the directory subscribed to its closing.
pub open spec fn recorded_room(id: RoomId, router: RouterId) -> RoomView {
    RoomView {
        close_listeners: seq![directory_listener()],
        next_handler: 1,
        ..empty_room(id, router)
    }
}

/// The directory of rooms, by room identifier. Its records do not keep a
/// room alive: a room lives as long as somebody holds a handle on it.
#[derive(Debug)]
pub struct RoomsRegistry {
    rooms: HashMap<u128, WeakRoom>,
}

impl View for RoomsRegistry {
    type V = Map<RoomId, WeakRoom>;

    closed spec fn view(&self) -> Map<RoomId, WeakRoom> {
        Map::new(|id: RoomId| self.rooms@.contains_key(id.0), |id: RoomId| self.rooms@[id.0])
    }
}

impl Default for RoomsRegistry {
    fn default() -> (registry: RoomsRegistry)
        ensures
            registry@ == Map::<RoomId, WeakRoom>::empty(),
    {
        RoomsRegistry::new()
    }
}

impl RoomsRegistry {
    #[verifier::type_invariant]
    spec fn inv(&self) -> bool {
        forall|raw: u128| self.rooms@.contains_key(raw) ==> (#[trigger] self.rooms@[raw]).id.0 == raw
    }

    /// An empty directory.
    pub fn new() -> (registry: RoomsRegistry)
        ensures
            registry@ == Map::<RoomId, WeakRoom>::empty(),
    {
        let registry = RoomsRegistry { rooms: HashMap::new() };
        assert(registry@ =~= Map::<RoomId, WeakRoom>::empty());
        registry
    }

    /// The record of `room_id`, if there is one.
    pub fn get(&self, room_id: RoomId) -> (record: Option<WeakRoom>)
        ensures
            record == entry(self@, room_id),
            consistent(self@),
    {
        proof {
            use_type_invariant(self);
        }
        match self.rooms.get(&room_id.0) {
            Some(weak) => Some(*weak),
            None => None,
        }
    }

    /// Whether a request for `room_id` can be answered: always, but for a
    /// room whose handles can be counted no further.
    pub open spec fn can_admit(&self, room_id: RoomId) -> bool {
        entry(self@, room_id) matches Some(w) ==> w.strong < usize::MAX
    }

    /// Whether a room of the identifier `room_id` is alive.
    pub fn is_live(&self, room_id: RoomId) -> (live: bool)
        ensures
            live == admits(self@, room_id).is_some(),
    {
        match self.get(room_id) {
            Some(weak) => weak.strong > 0,
            None => false,
        }
    }

    /// Whether a request for `room_id` can be answered.
    pub fn admissible(&self, room_id: RoomId) -> (can: bool)
        ensures
            can == self.can_admit(room_id),
    {
        match self.get(room_id) {
            Some(weak) => weak.strong < usize::MAX,
            None => true,
        }
    }

    /// Stores `weak` under the identifier of its room, in the place of any
    /// record that stood there.
    fn store(&mut self, weak: WeakRoom)
        ensures
            consistent(final(self)@),
            final(self)@ == old(self)@.insert(weak.id, weak),
    {
        proof {
            use_type_invariant(&*self);
        }
        let ghost before = self@;
        let mut rooms = HashMap::new();
        std::mem::swap(&mut rooms, &mut self.rooms);
        rooms.insert(weak.id.0, weak);
        self.rooms = rooms;
        assert(self@ =~= before.insert(weak.id, weak));
    }

    /// Answers a request for the room `room_id`. Where a room of that
    /// identifier is alive the answer is one more handle on it, and the
    /// directory counts that handle. Where none is alive, because there
    /// never was one or because the last handle on it is gone, a room has
    /// to be built, and the directory stays as it is until that has
    /// succeeded.
    pub fn get_or_create_room(&mut self, room_id: RoomId) -> (admission: Admission)
        requires
            old(self).can_admit(room_id),
        ensures
            consistent(final(self)@),
            final(self)@ == admitted(old(self)@, room_id),
            match admits(old(self)@, room_id) {
                Some(room) => admission == Admission::Join(room),
                None => admission == Admission::Construct,
            },
    {
        match self.get(room_id) {
            Some(found) => {
                let mut weak = found;
                match weak.upgrade() {
                    Some(room) => {
                        self.store(weak);
                        Admission::Join(room)
                    },
                    None => Admission::Construct,
                }
            },
            None => Admission::Construct,
        }
    }

    /// Builds the room `room_id` from the engine's answer and records it.
    /// Where the engine failed there is no room and the directory stays as
    /// it is. Where it succeeded the room is empty but for the directory's
    /// own subscription to its closing, which is the room's first, and its
    /// record, which counts the one handle handed out here, stands in the
    /// place of the record of the room of that identifier that is gone, if
    /// there was one. A room is built only where none of its identifier is
    /// alive: a live room is joined, never built over.
    pub fn construct_room(&mut self, room_id: RoomId, outcome: &RouterOutcome) -> (room: Result<
        Room,
        String,
    >)
        requires
            admits(old(self)@, room_id).is_none(),
        ensures
            consistent(final(self)@),
            match room {
                Ok(r) => *outcome matches RouterOutcome::Created(router) && r@ == recorded_room(
                    room_id,
                    router,
                ) && final(self)@ == old(self)@.insert(room_id, first_record(room_id, router)),
                Err(report) => Some(report@) == construction_failure(*outcome) && final(self)@
                    == old(self)@,
            },
    {
        proof {
            use_type_invariant(&*self);
        }
        let mut room = match Room::new_with_id(outcome, room_id) {
            Ok(room) => room,
            Err(report) => {
                return Err(report);
            },
        };
        self.store(room.downgrade());
        let _ = room.on_close();
        Ok(room)
    }

    /// Builds a room with a freshly generated identifier from the engine's
    /// answer and records it, as [`RoomsRegistry::construct_room`] does.
    pub fn create_room(&mut self, outcome: &RouterOutcome) -> (room: Result<Room, String>)
        ensures
            consistent(final(self)@),
            match room {
                Ok(r) => *outcome matches RouterOutcome::Created(router) && r@ == recorded_room(
                    r@.id,
                    router,
                ) && is_version_four(r@.id.0) && final(self)@ == old(self)@.insert(
                    r@.id,
                    first_record(r@.id, router),
                ),
                Err(report) => Some(report@) == construction_failure(*outcome) && final(self)@
                    == old(self)@,
            },
    {
        proof {
            use_type_invariant(&*self);
        }
        let mut room = match Room::new(outcome) {
            Ok(room) => room,
            Err(report) => {
                return Err(report);
            },
        };
        self.store(room.downgrade());
        let _ = room.on_close();
        Ok(room)
    }

    /// Lets go of one handle on a room and says whether the room closes
    /// with it: it does exactly when the handle was the last one. A handle
    /// on a room that the directory does not record as alive changes
    /// nothing.
    pub fn release(&mut self, room: RoomRef) -> (closed: bool)
        ensures
            consistent(final(self)@),
            closed == closes(old(self)@, room),
            final(self)@ == released(old(self)@, room),
    {
        match self.get(room.id) {
            Some(weak) => {
                if weak.router == room.router && weak.strong > 0 {
                    let left = WeakRoom { strong: weak.strong - 1, ..weak };
                    self.store(left);
                    left.strong == 0
                } else {
                    false
                }
            },
            None => false,
        }
    }

    /// Lets go of one handle on `room` and, where that was the last one,
    /// closes the room: its close subscriptions are handed out to be told
    /// and its recording is stopped. While another handle is left, and for
    /// a room that the directory does not record as alive, the room stays
    /// as it is and nobody is told.
    pub fn leave(&mut self, room: &mut Room) -> (closing: Option<Closing>)
        ensures
            consistent(final(self)@),
            final(self)@ == released(
                old(self)@,
                RoomRef { id: old(room)@.id, router: old(room)@.router },
            ),
            closing.is_some() == closes(
                old(self)@,
                RoomRef { id: old(room)@.id, router: old(room)@.router },
            ),
            closing.is_none() ==> final(room)@ == old(room)@,
            closing matches Some(c) ==> {
                &&& final(room)@.closed
                &&& old(room)@.closed ==> {
                    &&& c.listeners@.len() == 0
                    &&& c.stop.is_none()
                    &&& final(room)@ == old(room)@
                }
                &&& !old(room)@.closed ==> {
                    &&& c.listeners@ == old(room)@.close_listeners
                    &&& c.stop.is_some() == stoppable(old(room)@.recorder)
                    &&& (c.stop matches Some(p) ==> stop_plan_for(p, old(room)@.recorder->0))
                    &&& final(room)@ == (RoomView {
                        close_listeners: Seq::empty(),
                        closed: true,
                        recorder: stopped(old(room)@.recorder),
                        ..old(room)@
                    })
                }
            },
    {
        let handle = RoomRef { id: room.id(), router: room.router() };
        if self.release(handle) {
            Some(room.close())
        } else {
            None
        }
    }

    /// Takes the record of a closed room out of the directory. The record
    /// goes only if it is that room's own and no handle is left on it: the
    /// record of a room that has since been built under the same
    /// identifier stays.
    pub fn forget(&mut self, room: RoomRef)
        ensures
            consistent(final(self)@),
            final(self)@ == forgotten(old(self)@, room),
    {
        match self.get(room.id) {
            Some(weak) => {
                if weak.router == room.router && weak.strong == 0 {
                    proof {
                        use_type_invariant(&*self);
                    }
                    let ghost before = self@;
                    let mut rooms = HashMap::new();
                    std::mem::swap(&mut rooms, &mut self.rooms);
                    let ghost held = rooms@;
                    rooms.remove(&room.id.0);
                    assert(rooms@ == held.remove(room.id.0));
                    self.rooms = rooms;
                    assert(self@ =~= before.remove(room.id));
                }
            },
            None => {},
        }
    }
}

/// A room closes exactly once, and only with its last handle. Letting go of
/// a handle on a live room closes the room exactly when no other handle is
/// left. While another is left the room stays alive. Once it has closed,
/// the same handle closes nothing again, a request for the identifier is
/// told to build a room, and the room built then, on whatever router the
/// engine gives, is the one that later requests join.
pub proof fn lemma_closed_once_with_last_handle(
    rs: Map<RoomId, WeakRoom>,
    room: RoomRef,
    next: RouterId,
)
    requires
        holds(rs, room),
    ensures
        closes(rs, room) <==> rs[room.id].strong == 1,
        !closes(rs, room) ==> holds(released(rs, room), room),
        closes(rs, room) ==> {
            let after = released(rs, room);
            let rebuilt = after.insert(room.id, first_record(room.id, next));
            &&& !holds(after, room)
            &&& !closes(after, room)
            &&& released(after, room) == after
            &&& admits(after, room.id).is_none()
            &&& admitted(after, room.id) == after
            &&& admits(rebuilt, room.id) == Some(RoomRef { id: room.id, router: next })
        },
{
}

/// Two requests for one identifier lead to one room. Where no room of the
/// identifier is alive and the first request has built one, the second is
/// answered with a handle on that room, on the same router, and the
/// directory then counts two handles on it.
pub proof fn lemma_one_room_per_id(rs: Map<RoomId, WeakRoom>, id: RoomId, router: RouterId)
    requires
        admits(rs, id).is_none(),
    ensures
        admitted(rs, id) == rs,
        ({
            let built = rs.insert(id, first_record(id, router));
            &&& admits(built, id) == Some(RoomRef { id, router })
            &&& entry(admitted(built, id), id) == Some(WeakRoom { id, router, strong: 2 })
        }),
{
}

/// A live room's record is never taken out: only the record of a room
/// that is gone can be forgotten.
pub proof fn lemma_forget_spares_live(rs: Map<RoomId, WeakRoom>, room: RoomRef)
    requires
        admits(rs, room.id).is_some(),
    ensures
        forgotten(rs, room) == rs,
{
}

/// Rooms are kept apart: a request for one room, a handle let go of or a
/// record forgotten leaves the record of every other room as it was.
pub proof fn lemma_rooms_are_kept_apart(rs: Map<RoomId, WeakRoom>, room: RoomRef, other: RoomId)
    requires
        other != room.id,
    ensures
        entry(admitted(rs, room.id), other) == entry(rs, other),
        entry(released(rs, room), other) == entry(rs, other),
        entry(forgotten(rs, room), other) == entry(rs, other),
{
}

} // verus!
