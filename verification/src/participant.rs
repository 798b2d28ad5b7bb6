//! The session of one connected participant: what it answers to each frame
//! and message, what it asks of the media engine, and what it keeps.
use crate::engine::Description;
use crate::history::lemma_listed_have_entries;
use crate::ids::{
    is_version_four, ConsumerId, HandlerId, ParticipantId, ProducerId, RoomId, TransportId,
};
use crate::room::{
    departed, listing, name_of, named, position, produced, removal_events, without, ListingView,
    MediaKind, Producer, ProducerAddEvent, ProducerRemoveEvents, Room, RoomRef, RoomView,
};
use std::collections::HashMap;
use vstd::prelude::*;
use vstd::string::*;

verus! {

broadcast use vstd::std_specs::hash::group_hash_axioms;

/// What the client needs in order to connect one of its transports.
#[derive(Debug, Clone, PartialEq, Eq)]
pub struct TransportOptions {
    pub id: TransportId,
    pub dtls_parameters: Description,
    pub ice_candidates: Description,
    pub ice_parameters: Description,
}

impl TransportOptions {
    /// A copy of the options.
    pub fn copy(&self) -> (copy: TransportOptions)
        ensures
            copy == *self,
    {
        TransportOptions {
            id: self.id,
            dtls_parameters: self.dtls_parameters.copy(),
            ice_candidates: self.ice_candidates.copy(),
            ice_parameters: self.ice_parameters.copy(),
        }
    }
}

/// The two transports of a participant.
#[derive(Debug, Clone, PartialEq, Eq)]
pub struct Transports {
    /// The one on which the participant receives.
    pub consumer: TransportOptions,
    /// The one on which the participant sends.
    pub producer: TransportOptions,
}

/// Which of a participant's transports is meant.
#[derive(Debug, Copy, Clone, PartialEq, Eq, Structural)]
pub enum Direction {
    Producer,
    Consumer,
}

/// What a session keeps of a consumer that the engine created for it.
#[derive(Debug, Clone, PartialEq, Eq)]
pub struct Consumer {
    pub id: ConsumerId,
    pub producer_id: ProducerId,
    pub kind: MediaKind,
    pub rtp_parameters: Description,
}

/// A message from the client.
#[derive(Debug, Clone, PartialEq, Eq)]
pub enum ClientMessage {
    /// The client's name and what it can receive.
    Init { name: String, rtp_capabilities: Description },
    /// Connect the sending transport.
    ConnectProducerTransport { dtls_parameters: Description },
    /// Start to send a stream.
    Produce { kind: MediaKind, rtp_parameters: Description },
    /// Connect the receiving transport.
    ConnectConsumerTransport { dtls_parameters: Description },
    /// Start to receive a producer's stream.
    Consume { producer_id: ProducerId },
    /// Let a consumer's stream flow.
    ConsumerResume { id: ConsumerId },
    /// Record this participant.
    StartRecording { output_name: String },
    /// End the room's recording.
    StopRecording,
}

/// A message to the client.
#[derive(Debug, Clone, PartialEq, Eq)]
#[allow(inconsistent_fields)]
pub enum ServerMessage {
    /// What the client needs to set itself up; sent once, first.
    Init {
        room_id: RoomId,
        consumer_transport_options: TransportOptions,
        producer_transport_options: TransportOptions,
        router_rtp_capabilities: Description,
    },
    ConnectedProducerTransport,
    ConnectedConsumerTransport,
    Produced { id: ProducerId },
    Consumed {
        id: ConsumerId,
        producer_id: ProducerId,
        kind: MediaKind,
        rtp_parameters: Description,
    },
    ProducerAdded { participant_id: ParticipantId, name: String, producer_id: ProducerId },
    ProducerRemoved { participant_id: ParticipantId, producer_id: ProducerId },
}

/// A message that the session sends to itself.
#[derive(Debug, Clone, PartialEq, Eq)]
pub enum InternalMessage {
    /// End the session.
    Stop,
    /// Keep a producer that the engine created.
    SaveProducer(Producer),
    /// Keep a consumer that the engine created.
    SaveConsumer(Consumer),
}

/// Why a connection is closed.
#[derive(Debug, Clone, PartialEq, Eq)]
pub struct CloseReason {
    pub code: u16,
    pub description: Option<String>,
}

/// One frame from the signalling channel, or the failure to read one.
#[derive(Debug, Clone, PartialEq, Eq)]
pub enum Frame {
    Ping(Vec<u8>),
    Pong(Vec<u8>),
    Text(String),
    Binary(Vec<u8>),
    Close(Option<CloseReason>),
    /// Anything else: a continuation, an empty frame, a protocol error.
    Other,
}

/// What to do with a frame.
#[derive(Debug, Clone, PartialEq, Eq)]
pub enum FrameAction {
    /// Answer a ping with its own payload.
    Pong(Vec<u8>),
    /// Nothing.
    Nothing,
    /// Parse the text as a client message and hand the result back.
    Parse(String),
    /// Report an unexpected binary frame and carry on.
    Unexpected(Vec<u8>),
    /// Close the connection for the reason given and end the session.
    Close(Option<CloseReason>),
    /// End the session.
    Stop,
}

/// What became of a text frame.
#[derive(Debug, Clone, PartialEq, Eq)]
pub enum Parsed {
    /// It was a message: put it into the session's queue.
    Dispatch(ClientMessage),
    /// It was none: report it and carry on.
    Dropped(String),
}

/// What a client message asks for.
#[derive(Debug, Clone, PartialEq, Eq)]
pub enum Action {
    /// Nothing is left to do.
    Nothing,
    /// Connect a transport with the client's parameters.
    ConnectTransport { direction: Direction, transport: TransportId, dtls_parameters: Description },
    /// Create a producer on the sending transport.
    Produce { transport: TransportId, kind: MediaKind, rtp_parameters: Description },
    /// Create a consumer on the receiving transport.
    Consume {
        transport: TransportId,
        producer_id: ProducerId,
        rtp_capabilities: Description,
        paused: bool,
    },
    /// The request cannot be served; report why and carry on.
    Rejected(String),
    /// Resume a consumer of this session.
    ResumeConsumer { id: ConsumerId, kind: MediaKind },
    /// Start to record this participant.
    StartRecording { participant_id: ParticipantId, output_name: String },
    /// Stop the room's recording.
    StopRecording { participant_id: ParticipantId },
}

/// What the engine answered to a request of the session.
#[derive(Debug, PartialEq, Eq)]
#[allow(inconsistent_fields)]
pub enum Completion {
    TransportConnected { direction: Direction, result: Result<(), String> },
    Produced { result: Result<Producer, String> },
    Consumed { result: Result<Consumer, String> },
    Resumed { result: Result<(), String> },
    RecordingStarted { result: Result<(), String> },
    RecordingStopped { result: Result<(), String> },
}

/// What follows from an answer of the engine.
#[derive(Debug, Clone, PartialEq, Eq)]
pub struct Reaction {
    /// What to tell the client.
    pub send: Option<ServerMessage>,
    /// What the session tells itself.
    pub internal: Option<InternalMessage>,
    /// What the room's subscribers are to be told.
    pub fan_out: Option<ProducerAddEvent>,
    /// The failure to report, if the engine failed.
    pub error: Option<String>,
}

/// Where a session is in its life.
#[derive(Debug, Copy, Clone, PartialEq, Eq, Structural)]
pub enum SessionState {
    Connecting,
    Active,
    Closing,
    Closed,
}

/// Mathematical value of a [`ParticipantConnection`].
pub struct SessionView {
    pub id: ParticipantId,
    pub name: Seq<char>,
    pub client_rtp_capabilities: Option<Description>,
    pub consumers: Map<u128, Consumer>,
    pub producers: Seq<Producer>,
    pub transports: Transports,
    pub room: RoomRef,
    pub attached_handlers: Seq<HandlerId>,
    pub state: SessionState,
    /// Whether the sending transport has been connected.
    pub producer_connected: bool,
    /// Whether the receiving transport has been connected.
    pub consumer_connected: bool,
}

/// The session of one participant, from its connection to its end.
#[derive(Debug)]
pub struct ParticipantConnection {
    id: ParticipantId,
    name: String,
    /// What the client can receive, once it has said so.
    client_rtp_capabilities: Option<Description>,
    /// The consumers of this session, which live as long as it keeps them.
    consumers: HashMap<u128, Consumer>,
    /// The producers of this session.
    producers: Vec<Producer>,
    transports: Transports,
    /// The room that the participant is in.
    room: RoomRef,
    /// The subscriptions to end when the session ends.
    attached_handlers: Vec<HandlerId>,
    state: SessionState,
    producer_connected: bool,
    consumer_connected: bool,
}

impl View for ParticipantConnection {
    type V = SessionView;

    closed spec fn view(&self) -> SessionView {
        SessionView {
            id: self.id,
            name: self.name@,
            client_rtp_capabilities: self.client_rtp_capabilities,
            consumers: self.consumers@,
            producers: self.producers@,
            transports: self.transports,
            room: self.room,
            attached_handlers: self.attached_handlers@,
            state: self.state,
            producer_connected: self.producer_connected,
            consumer_connected: self.consumer_connected,
        }
    }
}

/// `message` tells of the producer in the listing line `line`.
pub open spec fn tells_added(message: ServerMessage, line: ListingView) -> bool {
    message matches ServerMessage::ProducerAdded { participant_id, name, producer_id }
        && participant_id == line.0 && name@ == line.1 && producer_id == line.2
}

/// The report of a text frame that is no message.
pub open spec fn parse_failure(error: Seq<char>, text: Seq<char>) -> Seq<char> {
    "Failed to parse client message: "@ + error + "\n"@ + text
}

/// The report of a request to consume before the capabilities are known.
pub open spec fn capabilities_missing() -> Seq<char> {
    "Client should send RTP capabilities before consuming"@
}

/// The report of a transport that the engine could not create.
pub open spec fn transport_failure(direction: Direction, error: Seq<char>) -> Seq<char> {
    match direction {
        Direction::Producer => "Failed to create producer transport: "@ + error,
        Direction::Consumer => "Failed to create consumer transport: "@ + error,
    }
}

/// `room` after the subscriptions `handlers` have been ended, one by one.
pub open spec fn unsubscribed(room: RoomView, handlers: Seq<HandlerId>) -> RoomView
    decreases handlers.len(),
{
    if handlers.len() == 0 {
        room
    } else {
        let before = unsubscribed(room, handlers.drop_last());
        RoomView {
            add_listeners: without(before.add_listeners, handlers.last()),
            remove_listeners: without(before.remove_listeners, handlers.last()),
            close_listeners: without(before.close_listeners, handlers.last()),
            ..before
        }
    }
}

/// Ending subscriptions changes nothing of a room but its subscriptions.
pub proof fn lemma_unsubscribed_keeps(room: RoomView, handlers: Seq<HandlerId>)
    ensures
        unsubscribed(room, handlers) == (RoomView {
            add_listeners: unsubscribed(room, handlers).add_listeners,
            remove_listeners: unsubscribed(room, handlers).remove_listeners,
            close_listeners: unsubscribed(room, handlers).close_listeners,
            ..room
        }),
    decreases handlers.len(),
{
    if handlers.len() > 0 {
        lemma_unsubscribed_keeps(room, handlers.drop_last());
    }
}

/// Sorts a text frame by what parsing it gave: a message goes into the
/// session's queue, anything else is reported and dropped.
pub fn parsed(text: &str, outcome: Result<ClientMessage, String>) -> (parsed: Parsed)
    ensures
        match outcome {
            Ok(message) => parsed == Parsed::Dispatch(message),
            Err(error) => parsed matches Parsed::Dropped(report) && report@ == parse_failure(
                error@,
                text@,
            ),
        },
{
    match outcome {
        Ok(message) => Parsed::Dispatch(message),
        Err(error) => {
            let mut report = "Failed to parse client message: ".to_owned();
            report.append(error.as_str());
            report.append("\n");
            report.append(text);
            Parsed::Dropped(report)
        },
    }
}

/// What the participant `own` is told of a producer that `participant_id`
/// added: everything, unless the two are the same.
pub fn added_notice(
    own: ParticipantId,
    participant_id: &ParticipantId,
    name: &str,
    producer_id: ProducerId,
) -> (message: Option<ServerMessage>)
    ensures
        message.is_some() == (*participant_id != own),
        message matches Some(m) ==> tells_added(m, (*participant_id, name@, producer_id)),
{
    if own == *participant_id {
        return None;
    }
    Some(
        ServerMessage::ProducerAdded {
            participant_id: *participant_id,
            name: name.to_owned(),
            producer_id,
        },
    )
}

/// What the participant `own` is told of a producer of `participant_id`
/// that went: everything, unless the two are the same.
pub fn removed_notice(own: ParticipantId, participant_id: &ParticipantId, producer_id: ProducerId) -> (message:
    Option<ServerMessage>)
    ensures
        message == if *participant_id != own {
            Some(ServerMessage::ProducerRemoved { participant_id: *participant_id, producer_id })
        } else {
            None
        },
{
    if own == *participant_id {
        return None;
    }
    Some(ServerMessage::ProducerRemoved { participant_id: *participant_id, producer_id })
}

impl ParticipantConnection {
    /// Sets up the session of a new participant in `room` from the engine's
    /// answers to the requests for its two transports. Where both stand the
    /// session is connecting, under a freshly generated identifier, with no
    /// name, no capabilities, no producers, consumers or subscriptions, and
    /// neither transport connected.
    /// Where one failed there is no session; the sending transport's
    /// failure is reported before the receiving one's.
    pub fn new(
        room: RoomRef,
        producer_transport: Result<TransportOptions, String>,
        consumer_transport: Result<TransportOptions, String>,
    ) -> (session: Result<ParticipantConnection, String>)
        ensures
            match (producer_transport, consumer_transport) {
                (Ok(producer), Ok(consumer)) => session matches Ok(s) && s@ == (SessionView {
                    id: s@.id,
                    name: Seq::empty(),
                    client_rtp_capabilities: None,
                    consumers: Map::empty(),
                    producers: Seq::empty(),
                    transports: Transports { consumer, producer },
                    room,
                    attached_handlers: Seq::empty(),
                    state: SessionState::Connecting,
                    producer_connected: false,
                    consumer_connected: false,
                }) && is_version_four(s@.id.0),
                (Err(error), _) => session matches Err(report) && report@ == transport_failure(
                    Direction::Producer,
                    error@,
                ),
                (Ok(_), Err(error)) => session matches Err(report) && report@
                    == transport_failure(Direction::Consumer, error@),
            },
    {
        let producer = match producer_transport {
            Ok(producer) => producer,
            Err(error) => {
                let mut report = "Failed to create producer transport: ".to_owned();
                report.append(error.as_str());
                return Err(report);
            },
        };
        let consumer = match consumer_transport {
            Ok(consumer) => consumer,
            Err(error) => {
                let mut report = "Failed to create consumer transport: ".to_owned();
                report.append(error.as_str());
                return Err(report);
            },
        };
        Ok(
            ParticipantConnection {
                id: ParticipantId::new(),
                name: String::new(),
                client_rtp_capabilities: None,
                consumers: HashMap::new(),
                producers: Vec::new(),
                transports: Transports { consumer, producer },
                room,
                attached_handlers: Vec::new(),
                state: SessionState::Connecting,
                producer_connected: false,
                consumer_connected: false,
            },
        )
    }

    /// The participant's identifier.
    pub fn id(&self) -> (id: ParticipantId)
        ensures
            id == self@.id,
    {
        self.id
    }

    /// The room that the participant is in.
    pub fn room(&self) -> (room: RoomRef)
        ensures
            room == self@.room,
    {
        self.room
    }

    /// The display name that the client gave; empty before it did.
    pub fn name(&self) -> (name: &String)
        ensures
            name@ == self@.name,
    {
        &self.name
    }

    /// What the client can receive, once it has said so.
    pub fn client_rtp_capabilities(&self) -> (capabilities: &Option<Description>)
        ensures
            *capabilities == self@.client_rtp_capabilities,
    {
        &self.client_rtp_capabilities
    }

    /// The producers that the session keeps, oldest first.
    pub fn producers(&self) -> (producers: &Vec<Producer>)
        ensures
            producers@ == self@.producers,
    {
        &self.producers
    }

    /// The consumer that the session keeps under `id`, if it keeps one.
    pub fn consumer(&self, id: ConsumerId) -> (consumer: Option<&Consumer>)
        ensures
            match consumer {
                Some(c) => self@.consumers.contains_key(id.0) && *c == self@.consumers[id.0],
                None => !self@.consumers.contains_key(id.0),
            },
    {
        self.consumers.get(&id.0)
    }

    /// The subscriptions that end with the session.
    pub fn attached_handlers(&self) -> (handlers: &Vec<HandlerId>)
        ensures
            handlers@ == self@.attached_handlers,
    {
        &self.attached_handlers
    }

    /// The options of the session's two transports.
    pub fn transports(&self) -> (transports: &Transports)
        ensures
            *transports == self@.transports,
    {
        &self.transports
    }

    /// Whether the transport of the given direction has been connected.
    pub fn is_connected(&self, direction: Direction) -> (connected: bool)
        ensures
            connected == match direction {
                Direction::Producer => self@.producer_connected,
                Direction::Consumer => self@.consumer_connected,
            },
    {
        match direction {
            Direction::Producer => self.producer_connected,
            Direction::Consumer => self.consumer_connected,
        }
    }

    /// Where the session is in its life.
    pub fn state(&self) -> (state: SessionState)
        ensures
            state == self@.state,
    {
        self.state
    }

    /// Says what to tell the client of a producer that was added to the
    /// room: everything, unless the producer is the participant's own.
    pub fn producer_added(
        &self,
        participant_id: &ParticipantId,
        name: &str,
        producer_id: ProducerId,
    ) -> (message: Option<ServerMessage>)
        ensures
            message.is_some() == (*participant_id != self@.id),
            message matches Some(m) ==> tells_added(m, (*participant_id, name@, producer_id)),
    {
        added_notice(self.id, participant_id, name, producer_id)
    }

    /// Says what to tell the client of a producer that was removed from the
    /// room: everything, unless the producer was the participant's own.
    pub fn producer_removed(&self, participant_id: &ParticipantId, producer_id: ProducerId) -> (message:
        Option<ServerMessage>)
        ensures
            message == if *participant_id != self@.id {
                Some(
                    ServerMessage::ProducerRemoved { participant_id: *participant_id, producer_id },
                )
            } else {
                None
            },
    {
        removed_notice(self.id, participant_id, producer_id)
    }

    /// Makes the session active. It subscribes to the room's producer-added
    /// and producer-removed events and then says what to send to the
    /// client: first the initialisation message with both transports'
    /// options and the router's capabilities, then one producer-added
    /// message for each producer that is in the room at this moment, each
    /// exactly once and in the order of the room's listing.
    pub fn started(&mut self, room: &mut Room, router_rtp_capabilities: Description) -> (messages:
        Vec<ServerMessage>)
        requires
            old(room)@.next_handler + 2 <= u64::MAX,
        ensures
            final(room)@ == (RoomView {
                add_listeners: old(room)@.add_listeners.push(HandlerId(old(room)@.next_handler)),
                remove_listeners: old(room)@.remove_listeners.push(
                    HandlerId((old(room)@.next_handler + 1) as u64),
                ),
                next_handler: (old(room)@.next_handler + 2) as u64,
                ..old(room)@
            }),
            final(self)@ == (SessionView {
                attached_handlers: old(self)@.attached_handlers.push(
                    HandlerId(old(room)@.next_handler),
                ).push(HandlerId((old(room)@.next_handler + 1) as u64)),
                state: SessionState::Active,
                ..old(self)@
            }),
            messages@.len() == 1 + listing(old(room)@.clients).len(),
            messages@[0] == (ServerMessage::Init {
                room_id: old(self)@.room.id,
                consumer_transport_options: old(self)@.transports.consumer,
                producer_transport_options: old(self)@.transports.producer,
                router_rtp_capabilities,
            }),
            forall|k: int|
                0 <= k < listing(old(room)@.clients).len() ==> tells_added(
                    #[trigger] messages@[k + 1],
                    listing(old(room)@.clients)[k],
                ),
            position(old(room)@.clients, old(self)@.id).is_none() ==> forall|k: int|
                0 <= k < listing(old(room)@.clients).len() ==> (#[trigger] listing(
                    old(room)@.clients,
                )[k]).0 != old(self)@.id,
    {
        proof {
            if position(old(room)@.clients, old(self)@.id).is_none() {
                lemma_listed_have_entries(old(room)@.clients, old(self)@.id);
            }
        }
        let mut messages: Vec<ServerMessage> = Vec::new();
        messages.push(
            ServerMessage::Init {
                room_id: self.room.id,
                consumer_transport_options: self.transports.consumer.copy(),
                producer_transport_options: self.transports.producer.copy(),
                router_rtp_capabilities,
            },
        );
        let added = room.on_producer_add();
        self.attached_handlers.push(added);
        let removed = room.on_producer_remove();
        self.attached_handlers.push(removed);
        self.state = SessionState::Active;
        let all = room.get_all_producers();
        let ghost lines = listing(old(room)@.clients);
        let mut k: usize = 0;
        while k < all.len()
            invariant
                k <= all@.len(),
                crate::room::listing_views(all@) == lines,
                messages@.len() == 1 + k,
                messages@[0] == (ServerMessage::Init {
                    room_id: old(self)@.room.id,
                    consumer_transport_options: old(self)@.transports.consumer,
                    producer_transport_options: old(self)@.transports.producer,
                    router_rtp_capabilities,
                }),
                forall|n: int| 0 <= n < k ==> tells_added(#[trigger] messages@[n + 1], lines[n]),
            decreases all@.len() - k,
        {
            let line = &all[k];
            messages.push(
                ServerMessage::ProducerAdded {
                    participant_id: line.0,
                    name: line.1.clone(),
                    producer_id: line.2,
                },
            );
            assert(crate::room::listing_views(all@)[k as int] == (line.0, line.1@, line.2));
            k += 1;
        }
        messages
    }

    /// Says what to do with one frame from the signalling channel. A ping
    /// is answered, a pong is passed over, a text is to be parsed, a binary
    /// frame is reported. A close frame closes the connection for its
    /// reason, and it and anything else end the session.
    pub fn handle_frame(&mut self, frame: Frame) -> (action: FrameAction)
        ensures
            action == match frame {
                Frame::Ping(payload) => FrameAction::Pong(payload),
                Frame::Pong(_) => FrameAction::Nothing,
                Frame::Text(text) => FrameAction::Parse(text),
                Frame::Binary(payload) => FrameAction::Unexpected(payload),
                Frame::Close(reason) => FrameAction::Close(reason),
                Frame::Other => FrameAction::Stop,
            },
            final(self)@ == (SessionView {
                state: if frame is Close || frame is Other {
                    SessionState::Closing
                } else {
                    old(self)@.state
                },
                ..old(self)@
            }),
    {
        match frame {
            Frame::Ping(payload) => FrameAction::Pong(payload),
            Frame::Pong(_) => FrameAction::Nothing,
            Frame::Text(text) => FrameAction::Parse(text),
            Frame::Binary(payload) => FrameAction::Unexpected(payload),
            Frame::Close(reason) => {
                self.state = SessionState::Closing;
                FrameAction::Close(reason)
            },
            Frame::Other => {
                self.state = SessionState::Closing;
                FrameAction::Stop
            },
        }
    }

    /// Handles one message of the client and says what it asks of the
    /// engine. The identity message is served at once: the session keeps
    /// the name and the capabilities and the room learns the name. A
    /// request to consume before the capabilities are known is rejected
    /// and leaves the session open; a request to resume a consumer that the
    /// session does not keep asks for nothing.
    pub fn handle_client_message(&mut self, room: &mut Room, message: ClientMessage) -> (action:
        Action)
        ensures
            match message {
                ClientMessage::Init { name, rtp_capabilities } => {
                    &&& action == Action::Nothing
                    &&& final(self)@ == (SessionView {
                        name: name@,
                        client_rtp_capabilities: Some(rtp_capabilities),
                        ..old(self)@
                    })
                    &&& final(room)@ == (RoomView {
                        clients: named(old(room)@.clients, old(self)@.id, name@),
                        ..old(room)@
                    })
                },
                ClientMessage::ConnectProducerTransport { dtls_parameters } => {
                    &&& action == (Action::ConnectTransport {
                        direction: Direction::Producer,
                        transport: old(self)@.transports.producer.id,
                        dtls_parameters,
                    })
                    &&& final(self)@ == old(self)@
                    &&& final(room)@ == old(room)@
                },
                ClientMessage::Produce { kind, rtp_parameters } => {
                    &&& action == (Action::Produce {
                        transport: old(self)@.transports.producer.id,
                        kind,
                        rtp_parameters,
                    })
                    &&& final(self)@ == old(self)@
                    &&& final(room)@ == old(room)@
                },
                ClientMessage::ConnectConsumerTransport { dtls_parameters } => {
                    &&& action == (Action::ConnectTransport {
                        direction: Direction::Consumer,
                        transport: old(self)@.transports.consumer.id,
                        dtls_parameters,
                    })
                    &&& final(self)@ == old(self)@
                    &&& final(room)@ == old(room)@
                },
                ClientMessage::Consume { producer_id } => {
                    &&& match old(self)@.client_rtp_capabilities {
                        Some(rtp_capabilities) => action == (Action::Consume {
                            transport: old(self)@.transports.consumer.id,
                            producer_id,
                            rtp_capabilities,
                            paused: true,
                        }),
                        None => action matches Action::Rejected(report) && report@
                            == capabilities_missing(),
                    }
                    &&& final(self)@ == old(self)@
                    &&& final(room)@ == old(room)@
                },
                ClientMessage::ConsumerResume { id } => {
                    &&& action == if old(self)@.consumers.contains_key(id.0) {
                        Action::ResumeConsumer { id, kind: old(self)@.consumers[id.0].kind }
                    } else {
                        Action::Nothing
                    }
                    &&& final(self)@ == old(self)@
                    &&& final(room)@ == old(room)@
                },
                ClientMessage::StartRecording { output_name } => {
                    &&& action == (Action::StartRecording {
                        participant_id: old(self)@.id,
                        output_name,
                    })
                    &&& final(self)@ == old(self)@
                    &&& final(room)@ == old(room)@
                },
                ClientMessage::StopRecording => {
                    &&& action == (Action::StopRecording { participant_id: old(self)@.id })
                    &&& final(self)@ == old(self)@
                    &&& final(room)@ == old(room)@
                },
            },
    {
        match message {
            ClientMessage::Init { name, rtp_capabilities } => {
                self.client_rtp_capabilities = Some(rtp_capabilities);
                self.name = name.clone();
                room.set_participant_name(self.id, name);
                Action::Nothing
            },
            ClientMessage::ConnectProducerTransport { dtls_parameters } => Action::ConnectTransport {
                direction: Direction::Producer,
                transport: self.transports.producer.id,
                dtls_parameters,
            },
            ClientMessage::Produce { kind, rtp_parameters } => Action::Produce {
                transport: self.transports.producer.id,
                kind,
                rtp_parameters,
            },
            ClientMessage::ConnectConsumerTransport { dtls_parameters } => Action::ConnectTransport {
                direction: Direction::Consumer,
                transport: self.transports.consumer.id,
                dtls_parameters,
            },
            ClientMessage::Consume { producer_id } => {
                match &self.client_rtp_capabilities {
                    Some(rtp_capabilities) => Action::Consume {
                        transport: self.transports.consumer.id,
                        producer_id,
                        rtp_capabilities: rtp_capabilities.copy(),
                        paused: true,
                    },
                    None => Action::Rejected(
                        "Client should send RTP capabilities before consuming".to_owned(),
                    ),
                }
            },
            ClientMessage::ConsumerResume { id } => {
                match self.consumers.get(&id.0) {
                    Some(consumer) => Action::ResumeConsumer { id, kind: consumer.kind },
                    None => Action::Nothing,
                }
            },
            ClientMessage::StartRecording { output_name } => Action::StartRecording {
                participant_id: self.id,
                output_name,
            },
            ClientMessage::StopRecording => Action::StopRecording { participant_id: self.id },
        }
    }

    /// Handles one answer of the engine. A transport that connected is
    /// marked as connected; it, a producer or a consumer that was created is
    /// told to the client; a new
    /// producer is entered into the room, whose subscribers are to be told,
    /// and it and a new consumer are kept by a message of the session to
    /// itself. A failure to connect, produce or consume ends the session;
    /// a failure to resume or to start or stop a recording is only
    /// reported. Nothing is entered or kept of a request that failed.
    pub fn handle_completion(&mut self, room: &mut Room, completion: Completion) -> (reaction:
        Reaction)
        ensures
            final(self)@ == match completion {
                Completion::TransportConnected { direction: Direction::Producer, result: Ok(_) } => {
                    SessionView { producer_connected: true, ..old(self)@ }
                },
                Completion::TransportConnected { direction: Direction::Consumer, result: Ok(_) } => {
                    SessionView { consumer_connected: true, ..old(self)@ }
                },
                _ => old(self)@,
            },
            match completion {
                Completion::TransportConnected { direction, result: Ok(_) } => {
                    &&& reaction.send == Some(
                        match direction {
                            Direction::Producer => ServerMessage::ConnectedProducerTransport,
                            Direction::Consumer => ServerMessage::ConnectedConsumerTransport,
                        },
                    )
                    &&& reaction.internal.is_none()
                    &&& reaction.fan_out.is_none()
                    &&& reaction.error.is_none()
                    &&& final(room)@ == old(room)@
                },
                Completion::Produced { result: Ok(producer) } => {
                    &&& reaction.send == Some(ServerMessage::Produced { id: producer.id })
                    &&& reaction.internal == Some(InternalMessage::SaveProducer(producer))
                    &&& reaction.fan_out matches Some(event) && event.participant_id == old(self)@.id
                        && event.name@ == name_of(old(room)@.clients, old(self)@.id) && event.producer
                        == producer && event.listeners@ == old(room)@.add_listeners
                    &&& reaction.error.is_none()
                    &&& final(room)@ == (RoomView {
                        clients: produced(old(room)@.clients, old(self)@.id, producer),
                        ..old(room)@
                    })
                },
                Completion::Consumed { result: Ok(consumer) } => {
                    &&& reaction.send == Some(
                        ServerMessage::Consumed {
                            id: consumer.id,
                            producer_id: consumer.producer_id,
                            kind: consumer.kind,
                            rtp_parameters: consumer.rtp_parameters,
                        },
                    )
                    &&& reaction.internal == Some(InternalMessage::SaveConsumer(consumer))
                    &&& reaction.fan_out.is_none()
                    &&& reaction.error.is_none()
                    &&& final(room)@ == old(room)@
                },
                Completion::TransportConnected { result: Err(error), .. }
                | Completion::Produced { result: Err(error) }
                | Completion::Consumed { result: Err(error) } => {
                    &&& reaction.send.is_none()
                    &&& reaction.internal == Some(InternalMessage::Stop)
                    &&& reaction.fan_out.is_none()
                    &&& reaction.error == Some(error)
                    &&& final(room)@ == old(room)@
                },
                Completion::Resumed { result }
                | Completion::RecordingStarted { result }
                | Completion::RecordingStopped { result } => {
                    &&& reaction.send.is_none()
                    &&& reaction.internal.is_none()
                    &&& reaction.fan_out.is_none()
                    &&& reaction.error == match result {
                        Ok(_) => None,
                        Err(error) => Some(error),
                    }
                    &&& final(room)@ == old(room)@
                },
            },
    {
        match completion {
            Completion::TransportConnected { direction, result: Ok(_) } => {
                let message = match direction {
                    Direction::Producer => {
                        self.producer_connected = true;
                        ServerMessage::ConnectedProducerTransport
                    },
                    Direction::Consumer => {
                        self.consumer_connected = true;
                        ServerMessage::ConnectedConsumerTransport
                    },
                };
                Reaction { send: Some(message), internal: None, fan_out: None, error: None }
            },
            Completion::Produced { result: Ok(producer) } => {
                let event = room.add_producer(self.id, producer);
                Reaction {
                    send: Some(ServerMessage::Produced { id: producer.id }),
                    internal: Some(InternalMessage::SaveProducer(producer)),
                    fan_out: Some(event),
                    error: None,
                }
            },
            Completion::Consumed { result: Ok(consumer) } => {
                let message = ServerMessage::Consumed {
                    id: consumer.id,
                    producer_id: consumer.producer_id,
                    kind: consumer.kind,
                    rtp_parameters: consumer.rtp_parameters.copy(),
                };
                Reaction {
                    send: Some(message),
                    internal: Some(InternalMessage::SaveConsumer(consumer)),
                    fan_out: None,
                    error: None,
                }
            },
            Completion::TransportConnected { result: Err(error), .. } => Reaction {
                send: None,
                internal: Some(InternalMessage::Stop),
                fan_out: None,
                error: Some(error),
            },
            Completion::Produced { result: Err(error) } => Reaction {
                send: None,
                internal: Some(InternalMessage::Stop),
                fan_out: None,
                error: Some(error),
            },
            Completion::Consumed { result: Err(error) } => Reaction {
                send: None,
                internal: Some(InternalMessage::Stop),
                fan_out: None,
                error: Some(error),
            },
            Completion::Resumed { result } => Reaction {
                send: None,
                internal: None,
                fan_out: None,
                error: result.err(),
            },
            Completion::RecordingStarted { result } => Reaction {
                send: None,
                internal: None,
                fan_out: None,
                error: result.err(),
            },
            Completion::RecordingStopped { result } => Reaction {
                send: None,
                internal: None,
                fan_out: None,
                error: result.err(),
            },
        }
    }

    /// Handles a message of the session to itself: keeps a producer or a
    /// consumer, under its identifier and in the place of one kept under
    /// the same, or begins to close. Says whether the session is to end.
    pub fn handle_internal(&mut self, message: InternalMessage) -> (stop: bool)
        ensures
            stop == (message is Stop),
            final(self)@ == match message {
                InternalMessage::Stop => SessionView {
                    state: SessionState::Closing,
                    ..old(self)@
                },
                InternalMessage::SaveProducer(producer) => SessionView {
                    producers: old(self)@.producers.push(producer),
                    ..old(self)@
                },
                InternalMessage::SaveConsumer(consumer) => SessionView {
                    consumers: old(self)@.consumers.insert(consumer.id.0, consumer),
                    ..old(self)@
                },
            },
    {
        match message {
            InternalMessage::Stop => {
                self.state = SessionState::Closing;
                true
            },
            InternalMessage::SaveProducer(producer) => {
                self.producers.push(producer);
                false
            },
            InternalMessage::SaveConsumer(consumer) => {
                self.consumers.insert(consumer.id.0, consumer);
                false
            },
        }
    }

    /// Ends the session. The participant leaves the room with all its
    /// producers, the session's subscriptions are ended, its producers and
    /// consumers are let go, and the room's subscribers are to be told of
    /// each producer that went.
    pub fn stopped(&mut self, room: &mut Room) -> (removed: ProducerRemoveEvents)
        ensures
            removed.events@ == removal_events(old(room)@.clients, old(self)@.id),
            removed.listeners@ == old(room)@.remove_listeners,
            final(room)@ == unsubscribed(
                RoomView {
                    clients: departed(old(room)@.clients, old(self)@.id),
                    ..old(room)@
                },
                old(self)@.attached_handlers,
            ),
            final(room)@.clients == departed(old(room)@.clients, old(self)@.id),
            position(final(room)@.clients, old(self)@.id).is_none(),
            final(room)@.recorder == old(room)@.recorder,
            final(room)@.closed == old(room)@.closed,
            final(self)@ == (SessionView {
                consumers: Map::empty(),
                producers: Seq::empty(),
                attached_handlers: Seq::empty(),
                state: SessionState::Closed,
                ..old(self)@
            }),
    {
        let removed = room.remove_participant(&self.id);
        proof {
            lemma_unsubscribed_keeps(room@, self.attached_handlers@);
        }
        let ghost left = room@;
        let mut k: usize = 0;
        assert(self.attached_handlers@.take(0) =~= Seq::<HandlerId>::empty());
        while k < self.attached_handlers.len()
            invariant
                k <= self.attached_handlers@.len(),
                room@ == unsubscribed(left, self.attached_handlers@.take(k as int)),
            decreases self.attached_handlers@.len() - k,
        {
            room.unsubscribe(self.attached_handlers[k]);
            proof {
                let upto = self.attached_handlers@.take(k + 1);
                assert(upto.drop_last() =~= self.attached_handlers@.take(k as int));
                assert(upto.last() == self.attached_handlers@[k as int]);
            }
            k += 1;
        }
        assert(self.attached_handlers@.take(k as int) =~= self.attached_handlers@);
        self.attached_handlers = Vec::new();
        self.producers = Vec::new();
        self.consumers = HashMap::new();
        self.state = SessionState::Closed;
        removed
    }
}

} // verus!
