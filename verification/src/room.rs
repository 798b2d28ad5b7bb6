//! A room: who is in it, which producers each participant has created, and
//! who has subscribed to its events.
use crate::engine::{built_router, construction_failure, RouterOutcome};
use crate::history::{lemma_listing_after_added, lemma_listing_after_removed, owned};
use crate::ids::{is_version_four, HandlerId, ParticipantId, ProducerId, RoomId, RouterId};
use crate::recording::{
    following, is_block, planned, sdp_path, sdp_text, temporary_path, texts, transcoder_args, Launch,
    PortAllocator, Recorder, RecorderState, RecorderView, StopPlan, stop_plan_for,
};
use vstd::prelude::*;

verus! {

/// Kind of a media stream.
#[derive(Debug, Copy, Clone, PartialEq, Eq, Structural, Hash)]
pub enum MediaKind {
    Audio,
    Video,
}

/// What a room keeps of a producer handle: its identifier and its kind.
#[derive(Debug, Copy, Clone, PartialEq, Eq, Structural, Hash)]
pub struct Producer {
    pub id: ProducerId,
    pub kind: MediaKind,
}

/// One participant's entry in a room.
#[derive(Debug, Clone, PartialEq, Eq)]
pub struct Client {
    pub participant_id: ParticipantId,
    pub name: String,
    pub producers: Vec<Producer>,
}

/// Mathematical value of a [`Client`].
pub struct ClientView {
    pub participant_id: ParticipantId,
    pub name: Seq<char>,
    pub producers: Seq<Producer>,
}

impl View for Client {
    type V = ClientView;

    open spec fn view(&self) -> ClientView {
        ClientView {
            participant_id: self.participant_id,
            name: self.name@,
            producers: self.producers@,
        }
    }
}

/// One line of a room's producer listing: owner, owner's name, producer.
pub type ListingView = (ParticipantId, Seq<char>, ProducerId);

/// No participant has two entries.
pub open spec fn distinct(cs: Seq<ClientView>) -> bool {
    forall|i: int, j: int|
        0 <= i < j < cs.len() ==> cs[i].participant_id != cs[j].participant_id
}

/// `i` is the place of `pid`'s entry in `cs`.
pub open spec fn is_at(cs: Seq<ClientView>, pid: ParticipantId, i: int) -> bool {
    0 <= i < cs.len() && cs[i].participant_id == pid
}

/// The place of `pid`'s entry in `cs`, if it has one.
pub open spec fn position(cs: Seq<ClientView>, pid: ParticipantId) -> Option<int> {
    if exists|i: int| is_at(cs, pid, i) {
        Some(choose|i: int| is_at(cs, pid, i))
    } else {
        None
    }
}

/// `cs` after `pid` has been given the display name `name`.
pub open spec fn named(cs: Seq<ClientView>, pid: ParticipantId, name: Seq<char>) -> Seq<
    ClientView,
> {
    match position(cs, pid) {
        Some(i) => cs.update(i, ClientView { name, ..cs[i] }),
        None => cs.push(ClientView { participant_id: pid, name, producers: Seq::empty() }),
    }
}

/// `cs` after `pid` has created the producer `p`.
pub open spec fn produced(cs: Seq<ClientView>, pid: ParticipantId, p: Producer) -> Seq<
    ClientView,
> {
    match position(cs, pid) {
        Some(i) => cs.update(i, ClientView { producers: cs[i].producers.push(p), ..cs[i] }),
        None => cs.push(
            ClientView { participant_id: pid, name: Seq::empty(), producers: seq![p] },
        ),
    }
}

/// `cs` after `pid` has left.
pub open spec fn departed(cs: Seq<ClientView>, pid: ParticipantId) -> Seq<ClientView> {
    match position(cs, pid) {
        Some(i) => cs.remove(i),
        None => cs,
    }
}

/// The display name under which `pid` is known in `cs`; empty if unknown.
pub open spec fn name_of(cs: Seq<ClientView>, pid: ParticipantId) -> Seq<char> {
    match position(cs, pid) {
        Some(i) => cs[i].name,
        None => Seq::empty(),
    }
}

/// The producers that `pid` has created in `cs`, oldest first.
pub open spec fn producers_of(cs: Seq<ClientView>, pid: ParticipantId) -> Seq<Producer> {
    match position(cs, pid) {
        Some(i) => cs[i].producers,
        None => Seq::empty(),
    }
}

/// The listing lines of one entry, in the order its producers were created.
pub open spec fn client_listing(c: ClientView) -> Seq<ListingView> {
    Seq::new(c.producers.len(), |k: int| (c.participant_id, c.name, c.producers[k].id))
}

/// Every producer of every participant: entries in joining order, each
/// entry's producers in creation order.
pub open spec fn listing(cs: Seq<ClientView>) -> Seq<ListingView>
    decreases cs.len(),
{
    if cs.len() == 0 {
        Seq::empty()
    } else {
        listing(cs.drop_last()) + client_listing(cs.last())
    }
}

/// The producer-removed events that `pid`'s departure from `cs` causes.
pub open spec fn removal_events(cs: Seq<ClientView>, pid: ParticipantId) -> Seq<
    (ParticipantId, ProducerId),
> {
    let ps = producers_of(cs, pid);
    Seq::new(ps.len(), |k: int| (pid, ps[k].id))
}

/// With distinct entries, the place of a participant is the only one.
pub proof fn lemma_position(cs: Seq<ClientView>, pid: ParticipantId, i: int)
    requires
        distinct(cs),
        is_at(cs, pid, i),
    ensures
        position(cs, pid) == Some(i),
{
    let j = choose|j: int| is_at(cs, pid, j);
    assert(is_at(cs, pid, j));
    if j < i {
        assert(cs[j].participant_id != cs[i].participant_id);
    } else if i < j {
        assert(cs[i].participant_id != cs[j].participant_id);
    }
}


/// A handle that keeps a room alive: which room, and on which router.
#[derive(Debug, Copy, Clone, PartialEq, Eq, Structural, Hash)]
pub struct RoomRef {
    pub id: RoomId,
    pub router: RouterId,
}

/// A record of a room that does not keep it alive. It counts the handles
/// that do: the room is gone once none is left, and the record then says
/// of which room it was.
#[derive(Debug, Copy, Clone, PartialEq, Eq, Structural, Hash)]
pub struct WeakRoom {
    pub id: RoomId,
    pub router: RouterId,
    /// The number of handles that keep the room alive.
    pub strong: usize,
}

impl WeakRoom {
    /// Whether the room is still there.
    pub open spec fn alive(&self) -> bool {
        self.strong > 0
    }

    /// Takes one more handle on the room, unless the room is gone.
    pub fn upgrade(&mut self) -> (room: Option<RoomRef>)
        requires
            old(self).strong < usize::MAX,
        ensures
            old(self).alive() ==> room == Some(RoomRef { id: old(self).id, router: old(self).router })
                && *final(self) == (WeakRoom { strong: (old(self).strong + 1) as usize, ..*old(self) }),
            !old(self).alive() ==> room.is_none() && *final(self) == *old(self),
    {
        if self.strong == 0 {
            return None;
        }
        self.strong = self.strong + 1;
        Some(RoomRef { id: self.id, router: self.router })
    }
}

/// The event that one new producer causes: what every subscriber is told,
/// and the subscriptions that were in place when the producer was added.
#[derive(Debug, Clone, PartialEq, Eq)]
pub struct ProducerAddEvent {
    pub participant_id: ParticipantId,
    pub name: String,
    pub producer: Producer,
    pub listeners: Vec<HandlerId>,
}

/// The events that one participant's departure causes, one per producer it
/// had created, and the subscriptions that each of them goes to.
#[derive(Debug, Clone, PartialEq, Eq)]
pub struct ProducerRemoveEvents {
    pub events: Vec<(ParticipantId, ProducerId)>,
    pub listeners: Vec<HandlerId>,
}

/// Mathematical value of a [`Room`].
pub struct RoomView {
    /// The room's identifier.
    pub id: RoomId,
    /// The engine router that was created for this room.
    pub router: RouterId,
    /// The participants' entries, in the order in which they first appeared.
    pub clients: Seq<ClientView>,
    /// Subscriptions to producer-added events, oldest first.
    pub add_listeners: Seq<HandlerId>,
    /// Subscriptions to producer-removed events, oldest first.
    pub remove_listeners: Seq<HandlerId>,
    /// Subscriptions to the room's closing that have not fired.
    pub close_listeners: Seq<HandlerId>,
    /// The number that the next subscription will carry.
    pub next_handler: u64,
    /// Whether the room has been closed.
    pub closed: bool,
    /// The room's one recorder, if a recording has been started.
    pub recorder: Option<RecorderView>,
}

/// The shared state of one call. All changes go through `&mut self`, so a
/// reader never sees an entry half updated; the caller keeps the value
/// behind whatever lock it shares it with.
#[derive(Debug)]
pub struct Room {
    id: RoomId,
    router: RouterId,
    clients: Vec<Client>,
    producer_add: Vec<HandlerId>,
    producer_remove: Vec<HandlerId>,
    close: Vec<HandlerId>,
    next_handler: u64,
    closed: bool,
    recorder: Option<Recorder>,
}

/// What closing a room leaves to do.
#[derive(Debug, PartialEq, Eq)]
pub struct Closing {
    /// The subscriptions to tell of the closing.
    pub listeners: Vec<HandlerId>,
    /// How to end the room's recording, if one was going on.
    pub stop: Option<StopPlan>,
}

/// The value of the empty room `id` on the router `router`.
pub open spec fn empty_room(id: RoomId, router: RouterId) -> RoomView {
    RoomView {
        id,
        router,
        clients: Seq::empty(),
        add_listeners: Seq::empty(),
        remove_listeners: Seq::empty(),
        close_listeners: Seq::empty(),
        next_handler: 0,
        closed: false,
        recorder: None,
    }
}

/// The value of an optional recorder.
pub open spec fn recorder_view(recorder: Option<Recorder>) -> Option<RecorderView> {
    match recorder {
        Some(r) => Some(r@),
        None => None,
    }
}

/// The first producer of kind `kind` among `ps`.
pub open spec fn first_of_kind(ps: Seq<Producer>, kind: MediaKind) -> Option<Producer>
    decreases ps.len(),
{
    if ps.len() == 0 {
        None
    } else if ps[0].kind == kind {
        Some(ps[0])
    } else {
        first_of_kind(ps.skip(1), kind)
    }
}

fn find_kind(producers: &Vec<Producer>, kind: MediaKind) -> (found: Option<&Producer>)
    ensures
        match found {
            Some(p) => first_of_kind(producers@, kind) == Some(*p),
            None => first_of_kind(producers@, kind).is_none(),
        },
{
    let mut i: usize = 0;
    assert(producers@.skip(0) =~= producers@);
    while i < producers.len()
        invariant
            i <= producers@.len(),
            first_of_kind(producers@, kind) == first_of_kind(producers@.skip(i as int), kind),
        decreases producers@.len() - i,
    {
        if producers[i].kind == kind {
            return Some(&producers[i]);
        }
        assert(producers@.skip(i as int).skip(1) =~= producers@.skip(i + 1));
        i += 1;
    }
    None
}

/// The values of a vector of entries.
pub open spec fn client_views(clients: Seq<Client>) -> Seq<ClientView> {
    Seq::new(clients.len(), |i: int| clients[i]@)
}

/// The values of the lines that a listing hands out.
pub open spec fn listing_views(lines: Seq<(ParticipantId, String, ProducerId)>) -> Seq<
    ListingView,
> {
    Seq::new(lines.len(), |k: int| (lines[k].0, lines[k].1@, lines[k].2))
}

/// `hs` without the subscription `h`.
pub open spec fn without(hs: Seq<HandlerId>, h: HandlerId) -> Seq<HandlerId> {
    hs.filter(|x: HandlerId| x != h)
}

impl View for Room {
    type V = RoomView;

    closed spec fn view(&self) -> RoomView {
        RoomView {
            id: self.id,
            router: self.router,
            clients: client_views(self.clients@),
            add_listeners: self.producer_add@,
            remove_listeners: self.producer_remove@,
            close_listeners: self.close@,
            next_handler: self.next_handler,
            closed: self.closed,
            recorder: recorder_view(self.recorder),
        }
    }
}

fn copy_handlers(handlers: &Vec<HandlerId>) -> (copy: Vec<HandlerId>)
    ensures
        copy@ == handlers@,
{
    let mut copy: Vec<HandlerId> = Vec::new();
    let mut i: usize = 0;
    while i < handlers.len()
        invariant
            i <= handlers@.len(),
            copy@ == handlers@.take(i as int),
        decreases handlers@.len() - i,
    {
        copy.push(handlers[i]);
        assert(handlers@.take(i + 1) =~= handlers@.take(i as int).push(handlers@[i as int]));
        i += 1;
    }
    assert(handlers@.take(handlers@.len() as int) =~= handlers@);
    copy
}

fn drop_handler(handlers: &Vec<HandlerId>, handler: HandlerId) -> (kept: Vec<HandlerId>)
    ensures
        kept@ == without(handlers@, handler),
{
    let mut kept: Vec<HandlerId> = Vec::new();
    let mut i: usize = 0;
    assert(handlers@.take(0) =~= Seq::<HandlerId>::empty());
    while i < handlers.len()
        invariant
            i <= handlers@.len(),
            kept@ == without(handlers@.take(i as int), handler),
        decreases handlers@.len() - i,
    {
        proof {
            let pred = |x: HandlerId| x != handler;
            assert(handlers@.take(i + 1).drop_last() =~= handlers@.take(i as int));
            assert(handlers@.take(i + 1).last() == handlers@[i as int]);
            reveal(Seq::filter);
        }
        if handlers[i] != handler {
            kept.push(handlers[i]);
        }
        i += 1;
    }
    assert(handlers@.take(handlers@.len() as int) =~= handlers@);
    kept
}

impl Room {
    #[verifier::type_invariant]
    spec fn inv(&self) -> bool {
        distinct(client_views(self.clients@))
    }

    /// Builds a room with a freshly generated identifier from the engine's
    /// answer; see [`Room::new_with_id`].
    pub fn new(outcome: &RouterOutcome) -> (room: Result<Room, String>)
        ensures
            match room {
                Ok(r) => *outcome matches RouterOutcome::Created(router) && r@ == empty_room(
                    r@.id,
                    router,
                ) && is_version_four(r@.id.0),
                Err(report) => Some(report@) == construction_failure(*outcome),
            },
    {
        Room::new_with_id(outcome, RoomId::new())
    }

    /// Builds the room `id` from the engine's answer to the request for its
    /// worker and router. Where both stand the room is empty: nobody in it,
    /// nobody subscribed, not closed, nothing recorded. Where either failed
    /// there is no room, and the report says which.
    pub fn new_with_id(outcome: &RouterOutcome, id: RoomId) -> (room: Result<Room, String>)
        ensures
            match room {
                Ok(r) => *outcome matches RouterOutcome::Created(router) && r@ == empty_room(
                    id,
                    router,
                ),
                Err(report) => Some(report@) == construction_failure(*outcome),
            },
    {
        let router = match built_router(outcome) {
            Ok(router) => router,
            Err(report) => {
                return Err(report);
            },
        };
        let room = Room {
            id,
            router,
            clients: Vec::new(),
            producer_add: Vec::new(),
            producer_remove: Vec::new(),
            close: Vec::new(),
            next_handler: 0,
            closed: false,
            recorder: None,
        };
        assert(room@.clients =~= Seq::<ClientView>::empty());
        Ok(room)
    }

    /// ID of the room.
    pub fn id(&self) -> (id: RoomId)
        ensures
            id == self@.id,
    {
        self.id
    }

    /// The router associated with this room.
    pub fn router(&self) -> (router: RouterId)
        ensures
            router == self@.router,
    {
        self.router
    }

    /// A record of this room that does not keep it alive. It counts one
    /// handle: the one that whoever built the room holds.
    pub fn downgrade(&self) -> (weak: WeakRoom)
        ensures
            weak == (WeakRoom { id: self@.id, router: self@.router, strong: 1 }),
    {
        WeakRoom { id: self.id, router: self.router, strong: 1 }
    }

    /// The subscriptions to producer-added events, oldest first.
    pub fn producer_add_listeners(&self) -> (listeners: Vec<HandlerId>)
        ensures
            listeners@ == self@.add_listeners,
    {
        copy_handlers(&self.producer_add)
    }

    /// The subscriptions to producer-removed events, oldest first.
    pub fn producer_remove_listeners(&self) -> (listeners: Vec<HandlerId>)
        ensures
            listeners@ == self@.remove_listeners,
    {
        copy_handlers(&self.producer_remove)
    }

    /// The subscriptions to the room's closing that have not fired.
    pub fn close_listeners(&self) -> (listeners: Vec<HandlerId>)
        ensures
            listeners@ == self@.close_listeners,
    {
        copy_handlers(&self.close)
    }

    /// The room's recorder, if a recording has been started.
    pub fn recorder(&self) -> (recorder: &Option<Recorder>)
        ensures
            recorder_view(*recorder) == self@.recorder,
    {
        &self.recorder
    }

    /// Whether `participant_id` has an entry in the room.
    pub fn has_participant(&self, participant_id: ParticipantId) -> (has: bool)
        ensures
            has == position(self@.clients, participant_id).is_some(),
    {
        self.find(participant_id).is_some()
    }

    /// Whether the room has been closed.
    pub fn is_closed(&self) -> (closed: bool)
        ensures
            closed == self@.closed,
    {
        self.closed
    }

    /// Where `participant_id`'s entry stands.
    fn find(&self, participant_id: ParticipantId) -> (found: Option<usize>)
        ensures
            distinct(self@.clients),
            match found {
                Some(i) => position(self@.clients, participant_id) == Some(i as int) && i
                    < self.clients@.len(),
                None => position(self@.clients, participant_id).is_none(),
            },
    {
        proof {
            use_type_invariant(self);
        }
        let mut i: usize = 0;
        while i < self.clients.len()
            invariant
                i <= self.clients@.len(),
                forall|k: int| 0 <= k < i ==> !is_at(self@.clients, participant_id, k),
                distinct(self@.clients),
            decreases self.clients@.len() - i,
        {
            if self.clients[i].participant_id == participant_id {
                proof {
                    assert(is_at(self@.clients, participant_id, i as int));
                    lemma_position(self@.clients, participant_id, i as int);
                }
                return Some(i);
            }
            i += 1;
        }
        None
    }

    /// Sets the display name of a participant, creating its entry if it has
    /// none yet.
    pub fn set_participant_name(&mut self, participant_id: ParticipantId, name: String)
        ensures
            distinct(final(self)@.clients),
            final(self)@ == (RoomView {
                clients: named(old(self)@.clients, participant_id, name@),
                ..old(self)@
            }),
    {
        let ghost before = self@.clients;
        let found = self.find(participant_id);
        let mut clients = Vec::new();
        std::mem::swap(&mut clients, &mut self.clients);
        match found {
            Some(i) => {
                let mut client = clients.remove(i);
                client.name = name;
                clients.insert(i, client);
            },
            None => {
                clients.push(Client { participant_id, name, producers: Vec::new() });
            },
        }
        proof {
            lemma_named_distinct(before, participant_id, name@);
            assert(client_views(clients@) =~= named(before, participant_id, name@));
        }
        self.clients = clients;
    }

    /// Adds a producer to the room under its owner, creating the owner's
    /// entry if it has none yet, and says whom to tell: every subscription
    /// that was in place before this call, with the owner's display name as
    /// it stands at this moment.
    pub fn add_producer(&mut self, participant_id: ParticipantId, producer: Producer) -> (event:
        ProducerAddEvent)
        ensures
            distinct(final(self)@.clients),
            final(self)@ == (RoomView {
                clients: produced(old(self)@.clients, participant_id, producer),
                ..old(self)@
            }),
            owned(final(self)@.clients).to_multiset() == owned(
                old(self)@.clients,
            ).to_multiset().insert((participant_id, producer.id)),
            event.participant_id == participant_id,
            event.name@ == name_of(old(self)@.clients, participant_id),
            event.producer == producer,
            event.listeners@ == old(self)@.add_listeners,
    {
        let ghost before = self@.clients;
        let found = self.find(participant_id);
        proof {
            lemma_listing_after_added(before, participant_id, producer);
        }
        let mut clients = Vec::new();
        std::mem::swap(&mut clients, &mut self.clients);
        let name = match found {
            Some(i) => {
                let mut client = clients.remove(i);
                client.producers.push(producer);
                let name = client.name.clone();
                clients.insert(i, client);
                name
            },
            None => {
                let mut producers = Vec::new();
                producers.push(producer);
                clients.push(Client { participant_id, name: String::new(), producers });
                String::new()
            },
        };
        proof {
            lemma_produced_distinct(before, participant_id, producer);
            assert(client_views(clients@) =~= produced(before, participant_id, producer));
        }
        self.clients = clients;
        ProducerAddEvent {
            participant_id,
            name,
            producer,
            listeners: copy_handlers(&self.producer_add),
        }
    }

    /// Removes a participant with all of its producers and says whom to
    /// tell of what: one event for each producer it had created, oldest
    /// first. Nothing changes and nothing is to be told where the
    /// participant is not in the room.
    pub fn remove_participant(&mut self, participant_id: &ParticipantId) -> (removed:
        ProducerRemoveEvents)
        ensures
            distinct(final(self)@.clients),
            final(self)@ == (RoomView {
                clients: departed(old(self)@.clients, *participant_id),
                ..old(self)@
            }),
            removed.events@ == removal_events(old(self)@.clients, *participant_id),
            removed.listeners@ == old(self)@.remove_listeners,
            position(old(self)@.clients, *participant_id).is_none() ==> final(self)@ == old(self)@
                && removed.events@.len() == 0,
            position(final(self)@.clients, *participant_id).is_none(),
            owned(final(self)@.clients).to_multiset() == owned(
                old(self)@.clients,
            ).to_multiset().filter(|t: (ParticipantId, ProducerId)| t.0 != *participant_id),
    {
        let ghost before = self@.clients;
        let found = self.find(*participant_id);
        proof {
            lemma_listing_after_removed(before, *participant_id);
        }
        let mut events: Vec<(ParticipantId, ProducerId)> = Vec::new();
        let listeners = copy_handlers(&self.producer_remove);
        match found {
            Some(i) => {
                let mut clients = Vec::new();
                std::mem::swap(&mut clients, &mut self.clients);
                let client = clients.remove(i);
                proof {
                    lemma_departed_distinct(before, *participant_id);
                    assert(client_views(clients@) =~= departed(before, *participant_id));
                }
                self.clients = clients;
                let mut k: usize = 0;
                while k < client.producers.len()
                    invariant
                        k <= client.producers@.len(),
                        events@ == Seq::new(
                            k as nat,
                            |n: int| (*participant_id, client.producers@[n].id),
                        ),
                    decreases client.producers@.len() - k,
                {
                    events.push((*participant_id, client.producers[k].id));
                    k += 1;
                    assert(events@ =~= Seq::new(
                        k as nat,
                        |n: int| (*participant_id, client.producers@[n].id),
                    ));
                }
                assert(events@ =~= removal_events(before, *participant_id));
            },
            None => {
                assert(events@ =~= removal_events(before, *participant_id));
            },
        }
        ProducerRemoveEvents { events, listeners }
    }

    /// Every producer of every participant, with its owner and the owner's
    /// display name: what a participant that has just joined needs to learn
    /// of the streams that were there before it.
    pub fn get_all_producers(&self) -> (all: Vec<(ParticipantId, String, ProducerId)>)
        ensures
            distinct(self@.clients),
            listing_views(all@) == listing(self@.clients),
    {
        proof {
            use_type_invariant(self);
        }
        let mut all: Vec<(ParticipantId, String, ProducerId)> = Vec::new();
        let mut i: usize = 0;
        assert(self@.clients.take(0) =~= Seq::<ClientView>::empty());
        assert(listing_views(all@) =~= listing(self@.clients.take(0)));
        while i < self.clients.len()
            invariant
                i <= self.clients@.len(),
                self@.clients.len() == self.clients@.len(),
                listing_views(all@) == listing(self@.clients.take(i as int)),
            decreases self.clients@.len() - i,
        {
            let client = &self.clients[i];
            let ghost base = listing(self@.clients.take(i as int));
            let mut k: usize = 0;
            assert(listing_views(all@) =~= base + client_listing(client@).take(0));
            while k < client.producers.len()
                invariant
                    k <= client.producers@.len(),
                    listing_views(all@) == base + client_listing(client@).take(k as int),
                decreases client.producers@.len() - k,
            {
                let ghost lines = listing_views(all@);
                all.push((client.participant_id, client.name.clone(), client.producers[k].id));
                proof {
                    let line = client_listing(client@)[k as int];
                    assert(listing_views(all@) =~= lines.push(line));
                    assert(client_listing(client@).take(k + 1) =~= client_listing(client@).take(
                        k as int,
                    ).push(line));
                }
                k += 1;
            }
            proof {
                let upto = self@.clients.take(i + 1);
                assert(upto.drop_last() =~= self@.clients.take(i as int));
                assert(upto.last() == client@);
                assert(client_listing(client@).take(k as int) =~= client_listing(client@));
            }
            i += 1;
        }
        assert(self@.clients.take(i as int) =~= self@.clients);
        all
    }

    /// Subscribes to producer-added events. The subscription sees every
    /// producer added after this call and none added before it.
    pub fn on_producer_add(&mut self) -> (handler: HandlerId)
        requires
            old(self)@.next_handler < u64::MAX,
        ensures
            handler == HandlerId(old(self)@.next_handler),
            final(self)@ == (RoomView {
                add_listeners: old(self)@.add_listeners.push(handler),
                next_handler: (old(self)@.next_handler + 1) as u64,
                ..old(self)@
            }),
    {
        proof {
            use_type_invariant(&*self);
        }
        let handler = HandlerId(self.next_handler);
        let mut handlers = copy_handlers(&self.producer_add);
        handlers.push(handler);
        self.producer_add = handlers;
        self.next_handler = self.next_handler + 1;
        handler
    }

    /// Subscribes to producer-removed events.
    pub fn on_producer_remove(&mut self) -> (handler: HandlerId)
        requires
            old(self)@.next_handler < u64::MAX,
        ensures
            handler == HandlerId(old(self)@.next_handler),
            final(self)@ == (RoomView {
                remove_listeners: old(self)@.remove_listeners.push(handler),
                next_handler: (old(self)@.next_handler + 1) as u64,
                ..old(self)@
            }),
    {
        proof {
            use_type_invariant(&*self);
        }
        let handler = HandlerId(self.next_handler);
        let mut handlers = copy_handlers(&self.producer_remove);
        handlers.push(handler);
        self.producer_remove = handlers;
        self.next_handler = self.next_handler + 1;
        handler
    }

    /// Subscribes to the room's closing.
    pub fn on_close(&mut self) -> (handler: HandlerId)
        requires
            old(self)@.next_handler < u64::MAX,
        ensures
            handler == HandlerId(old(self)@.next_handler),
            final(self)@ == (RoomView {
                close_listeners: old(self)@.close_listeners.push(handler),
                next_handler: (old(self)@.next_handler + 1) as u64,
                ..old(self)@
            }),
    {
        proof {
            use_type_invariant(&*self);
        }
        let handler = HandlerId(self.next_handler);
        let mut handlers = copy_handlers(&self.close);
        handlers.push(handler);
        self.close = handlers;
        self.next_handler = self.next_handler + 1;
        handler
    }

    /// Whether `count` more subscriptions can still be numbered.
    pub fn can_subscribe(&self, count: u64) -> (can: bool)
        ensures
            can == (self@.next_handler + count <= u64::MAX),
    {
        count <= u64::MAX - self.next_handler
    }

    /// Ends a subscription, whichever event it was for.
    pub fn unsubscribe(&mut self, handler: HandlerId)
        ensures
            final(self)@ == (RoomView {
                add_listeners: without(old(self)@.add_listeners, handler),
                remove_listeners: without(old(self)@.remove_listeners, handler),
                close_listeners: without(old(self)@.close_listeners, handler),
                ..old(self)@
            }),
    {
        proof {
            use_type_invariant(&*self);
        }
        let add = drop_handler(&self.producer_add, handler);
        let remove = drop_handler(&self.producer_remove, handler);
        let close = drop_handler(&self.close, handler);
        self.producer_add = add;
        self.producer_remove = remove;
        self.close = close;
    }

    /// Plans the recording of a participant under the name `output_name`:
    /// its first audio producer and its first video producer, each if there
    /// is one, on the next block of ports. Hands out the recorder, which is
    /// starting and knows of no transcoder or session description yet, and
    /// what to start the transcoder with; the room itself is not changed
    /// until the recorder is stored. Fails where the participant is not in
    /// the room.
    pub fn start_recording(
        &self,
        ports: &mut PortAllocator,
        participant_id: &ParticipantId,
        output_name: &str,
    ) -> (started: Result<(Recorder, Launch), String>)
        ensures
            started.is_ok() == position(self@.clients, *participant_id).is_some(),
            started matches Err(reason) ==> reason@ == "Invalid participant is specified."@
                && final(ports).upcoming() == old(ports).upcoming(),
            started matches Ok((recorder, launch)) ==> {
                let producers = producers_of(self@.clients, *participant_id);
                let first = old(ports).upcoming();
                &&& final(ports).upcoming() == following(first)
                &&& is_block(first)
                &&& recorder@ == (RecorderView {
                    state: RecorderState::Starting,
                    audio: match first_of_kind(producers, MediaKind::Audio) {
                        Some(p) => planned(Some(&p), MediaKind::Audio, first),
                        None => None,
                    },
                    video: match first_of_kind(producers, MediaKind::Video) {
                        Some(p) => planned(Some(&p), MediaKind::Video, first),
                        None => None,
                    },
                    port_number: first,
                    has_process: false,
                    filename: Seq::empty(),
                    sdp_filename: Seq::empty(),
                })
                &&& launch.sdp_filename@ == sdp_path(output_name@)
                &&& launch.sdp@ == sdp_text(first as nat)
                &&& launch.program@ == "ffmpeg"@
                &&& texts(launch.args@) == transcoder_args(
                    sdp_path(output_name@),
                    temporary_path(output_name@),
                )
                &&& launch.output_path@ == temporary_path(output_name@)
            },
    {
        let found = self.find(*participant_id);
        let Some(i) = found else {
            return Err("Invalid participant is specified.".to_owned());
        };
        let client = &self.clients[i];
        let audio_producer = find_kind(&client.producers, MediaKind::Audio);
        let video_producer = find_kind(&client.producers, MediaKind::Video);
        let mut new_recorder = Recorder::new(ports, audio_producer, video_producer);
        let launch = new_recorder.start_recording(output_name).unwrap();
        Ok((new_recorder, launch))
    }

    /// Stores a recorder as the room's one recorder and hands back the one
    /// that it replaces, if there was one: the room never holds two.
    pub fn set_recorder(&mut self, recorder: Recorder) -> (replaced: Option<Recorder>)
        ensures
            final(self)@ == (RoomView { recorder: Some(recorder@), ..old(self)@ }),
            recorder_view(replaced) == old(self)@.recorder,
    {
        proof {
            use_type_invariant(&*self);
        }
        let mut slot = Some(recorder);
        std::mem::swap(&mut slot, &mut self.recorder);
        slot
    }

    /// Stops the room's recording if one is going on, and says what is left
    /// to do. Succeeds with nothing to do where the room has no recorder
    /// or its recorder is not recording.
    pub fn stop_recording(&mut self) -> (plan: Option<StopPlan>)
        ensures
            plan.is_some() == stoppable(old(self)@.recorder),
            final(self)@ == (RoomView { recorder: stopped(old(self)@.recorder), ..old(self)@ }),
            plan matches Some(p) ==> stop_plan_for(p, old(self)@.recorder->0),
    {
        proof {
            use_type_invariant(&*self);
        }
        let mut slot = None;
        std::mem::swap(&mut slot, &mut self.recorder);
        let plan = match slot {
            Some(mut recorder) => {
                let plan = recorder.stop_recording();
                slot = Some(recorder);
                plan
            },
            None => None,
        };
        std::mem::swap(&mut slot, &mut self.recorder);
        plan
    }

    /// Closes the room: hands out the subscriptions to tell of it and stops
    /// its recording. Only the first call does so: a room that is closed
    /// already stays as it is and nobody is told again.
    pub fn close(&mut self) -> (closing: Closing)
        ensures
            old(self)@.closed ==> {
                &&& closing.listeners@.len() == 0
                &&& closing.stop.is_none()
                &&& final(self)@ == old(self)@
            },
            !old(self)@.closed ==> {
                &&& closing.listeners@ == old(self)@.close_listeners
                &&& closing.stop.is_some() == stoppable(old(self)@.recorder)
                &&& (closing.stop matches Some(p) ==> stop_plan_for(p, old(self)@.recorder->0))
                &&& final(self)@ == (RoomView {
                    close_listeners: Seq::empty(),
                    closed: true,
                    recorder: stopped(old(self)@.recorder),
                    ..old(self)@
                })
            },
    {
        proof {
            use_type_invariant(&*self);
        }
        if self.closed {
            return Closing { listeners: Vec::new(), stop: None };
        }
        let listeners = copy_handlers(&self.close);
        self.close = Vec::new();
        self.closed = true;
        let stop = self.stop_recording();
        Closing { listeners, stop }
    }
}

/// Whether there is a recorder and it is recording.
pub open spec fn stoppable(recorder: Option<RecorderView>) -> bool {
    recorder matches Some(r) && r.state == RecorderState::Recording
}

/// The recorder slot after a stop: a recorder that was recording is
/// stopped and has let go of its transcoder; anything else is as before.
pub open spec fn stopped(recorder: Option<RecorderView>) -> Option<RecorderView> {
    match recorder {
        Some(r) => if r.state == RecorderState::Recording {
            Some(RecorderView { state: RecorderState::Stopped, has_process: false, ..r })
        } else {
            Some(r)
        },
        None => None,
    }
}

/// Naming a participant keeps the entries distinct.
pub proof fn lemma_named_distinct(cs: Seq<ClientView>, pid: ParticipantId, name: Seq<char>)
    requires
        distinct(cs),
    ensures
        distinct(named(cs, pid, name)),
{
    let after = named(cs, pid, name);
    match position(cs, pid) {
        Some(i) => {
            assert(is_at(cs, pid, i));
        },
        None => {
            assert forall|i: int, j: int| 0 <= i < j < after.len() implies after[i].participant_id
                != after[j].participant_id by {
                if j == cs.len() {
                    assert(!is_at(cs, pid, i));
                }
            }
        },
    }
}

/// A new producer keeps the entries distinct.
pub proof fn lemma_produced_distinct(cs: Seq<ClientView>, pid: ParticipantId, p: Producer)
    requires
        distinct(cs),
    ensures
        distinct(produced(cs, pid, p)),
{
    let after = produced(cs, pid, p);
    match position(cs, pid) {
        Some(i) => {
            assert(is_at(cs, pid, i));
        },
        None => {
            assert forall|i: int, j: int| 0 <= i < j < after.len() implies after[i].participant_id
                != after[j].participant_id by {
                if j == cs.len() {
                    assert(!is_at(cs, pid, i));
                }
            }
        },
    }
}

/// A departure keeps the entries distinct and leaves no entry of the one
/// who left.
pub proof fn lemma_departed_distinct(cs: Seq<ClientView>, pid: ParticipantId)
    requires
        distinct(cs),
    ensures
        distinct(departed(cs, pid)),
        position(departed(cs, pid), pid).is_none(),
{
    let after = departed(cs, pid);
    match position(cs, pid) {
        Some(i) => {
            assert(is_at(cs, pid, i));
            assert forall|a: int, b: int| 0 <= a < b < after.len() implies after[a].participant_id
                != after[b].participant_id by {
                let a0 = if a < i { a } else { a + 1 };
                let b0 = if b < i { b } else { b + 1 };
                assert(after[a] == cs[a0]);
                assert(after[b] == cs[b0]);
            }
            assert forall|k: int| !is_at(after, pid, k) by {
                if 0 <= k < after.len() {
                    let k0 = if k < i { k } else { k + 1 };
                    assert(after[k] == cs[k0]);
                    if k0 < i {
                        assert(cs[k0].participant_id != cs[i].participant_id);
                    } else {
                        assert(cs[i].participant_id != cs[k0].participant_id);
                    }
                }
            }
        },
        None => {},
    }
}

} // verus!
