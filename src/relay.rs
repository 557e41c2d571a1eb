//! The decisions of a connection relay.
//!
//! A relay bridges one client connection to one room's topic with two
//! halves: the inbound half takes frames from the client and publishes them,
//! the outbound half takes messages from the topic and writes them to the
//! client. The waiting and the I/O belong to the caller; every decision is
//! made here: whether a connection is admitted, what each half does with
//! what it received, and how the end of one half brings down the other.

use crate::message::WsText;
use crate::rooms::{Room, RoomError};
use crate::topic::{Delivery, Topic};
use vstd::prelude::*;

verus! {

/// Why a connection is refused before any relaying starts.
#[derive(Debug, Clone, Copy, PartialEq, Eq, Structural)]
pub enum Rejection {
    /// No room has the requested id.
    RoomNotFound,
    /// No display name could be resolved for the client.
    Unauthorized,
    /// The registry could not be read.
    Internal,
}

/// What a relay holds for one admitted connection: the room it joined and
/// the name its messages are sent under.
pub struct ConnectionContext {
    room: Room,
    display_name: String,
}

impl ConnectionContext {
    pub closed spec fn room(&self) -> Room {
        self.room
    }

    pub closed spec fn display_name(&self) -> Seq<char> {
        self.display_name@
    }

    pub fn get_room(&self) -> (r: &Room)
        ensures
            *r == self.room(),
    {
        &self.room
    }

    pub fn get_display_name(&self) -> (r: &str)
        ensures
            r@ == self.display_name(),
    {
        self.display_name.as_str()
    }

    /// The room's topic, which the connection keeps even if the room is
    /// deleted while it is open.
    pub fn topic(&self) -> (t: Topic)
        ensures
            t == self.room().topic(),
    {
        self.room.get_sender()
    }
}

/// The handshake: a connection is admitted when its room was found and a
/// display name was resolved, checked in that order.
pub fn accept_connection(lookup: Result<Room, RoomError>, display_name: Option<String>) -> (r: Result<
    ConnectionContext,
    Rejection,
>)
    ensures
        lookup matches Err(e) ==> r == Err::<ConnectionContext, Rejection>(
            if e == RoomError::NotFound {
                Rejection::RoomNotFound
            } else {
                Rejection::Internal
            },
        ),
        lookup is Ok && display_name is None ==> r == Err::<ConnectionContext, Rejection>(
            Rejection::Unauthorized,
        ),
        lookup is Ok && display_name is Some ==> (r matches Ok(c) && c.room() == lookup->Ok_0
            && c.display_name() == display_name->Some_0@),
{
    match lookup {
        Err(RoomError::NotFound) => Err(Rejection::RoomNotFound),
        Err(_) => Err(Rejection::Internal),
        Ok(room) => match display_name {
            None => Err(Rejection::Unauthorized),
            Some(name) => Ok(ConnectionContext { room, display_name: name }),
        },
    }
}

/// What the inbound half received from the client.
pub enum ClientEvent {
    /// A text frame.
    Text(String),
    /// A frame of another kind (binary, ping, pong).
    NonText,
    /// The client closed the connection, or the stream ended.
    Closed,
    /// Reading from the transport failed.
    Failed,
}

/// What the inbound half does next.
pub enum InboundAction {
    /// Publish this text, under the connection's name, to the room.
    Publish(String),
    /// End the inbound half.
    Stop,
}

/// The inbound half relays text frames and ends on anything else.
pub fn inbound_step(event: ClientEvent) -> (a: InboundAction)
    ensures
        match event {
            ClientEvent::Text(t) => a == InboundAction::Publish(t),
            _ => a == InboundAction::Stop,
        },
{
    match event {
        ClientEvent::Text(t) => InboundAction::Publish(t),
        _ => InboundAction::Stop,
    }
}

/// How one publish of the inbound half went.
#[derive(Debug, Clone, Copy, PartialEq, Eq, Structural)]
pub enum PublishOutcome {
    /// The message reached the topic while this many subscribers were
    /// attached.
    Published(usize),
    /// No subscriber was attached; the message was discarded, which is
    /// still a successful publish.
    NoSubscriber,
    /// The message could not be encoded.
    Unencodable,
}

/// Publishes `text` from `user_name` to `topic`, stamped with the current
/// time and encoded as the relay's JSON envelope (see
/// [`WsText::to_json`], which is the text handed to the topic). The clock
/// always gives an instant that can be encoded, so the outcome is never
/// `Unencodable`; how many subscribers were attached is up to the topic.
pub fn publish_text(topic: &Topic, user_name: &str, text: &str) -> (o: PublishOutcome)
    ensures
        o matches PublishOutcome::Published(n) ==> n >= 1,
        !(o is Unencodable),
{
    let message = WsText::json_from_ws_message(user_name, text);
    match message.to_json() {
        None => PublishOutcome::Unencodable,
        Some(json) => {
            let n = topic.publish(json);
            if n == 0 {
                PublishOutcome::NoSubscriber
            } else {
                PublishOutcome::Published(n)
            }
        },
    }
}

/// The inbound half goes on after every publish: one that found no
/// subscriber discarded its message and still succeeded. Only a message
/// that could not be encoded ends the half.
pub fn inbound_continues(outcome: PublishOutcome) -> (go_on: bool)
    ensures
        go_on == !(outcome is Unencodable),
{
    match outcome {
        PublishOutcome::Unencodable => false,
        _ => true,
    }
}

/// What the outbound half does next.
pub enum OutboundAction {
    /// Write this message to the client.
    Forward(String),
    /// Messages were skipped because the subscriber lagged: carry on with the
    /// oldest one the topic still holds.
    Skip,
    /// Nothing to read yet: wait for the next message.
    Wait,
    /// End the outbound half.
    Stop,
}

/// The outbound half forwards every message, rides over a lag, and ends when
/// the topic closes.
pub fn outbound_step(delivery: Delivery) -> (a: OutboundAction)
    ensures
        match delivery {
            Delivery::Message(m) => a == OutboundAction::Forward(m),
            Delivery::Lagged(_) => a == OutboundAction::Skip,
            Delivery::Empty => a == OutboundAction::Wait,
            Delivery::Closed => a == OutboundAction::Stop,
        },
{
    match delivery {
        Delivery::Message(m) => OutboundAction::Forward(m),
        Delivery::Lagged(_) => OutboundAction::Skip,
        Delivery::Empty => OutboundAction::Wait,
        Delivery::Closed => OutboundAction::Stop,
    }
}

/// The outbound half goes on after a successful write and ends after a
/// failed one.
pub fn outbound_continues(write_ok: bool) -> (go_on: bool)
    ensures
        go_on == write_ok,
{
    write_ok
}

/// Where a connection stands.
#[derive(Debug, Clone, Copy, PartialEq, Eq, Structural)]
pub enum Phase {
    /// Upgrade, room lookup and name resolution are under way.
    Handshaking,
    /// Both halves run.
    Relaying,
    /// One half has ended and the other has been told to stop.
    Terminating,
    /// Both halves have ended, or the connection was refused.
    Terminated,
}

/// One of the two halves of a relay.
#[derive(Debug, Clone, Copy, PartialEq, Eq, Structural)]
pub enum Half {
    Inbound,
    Outbound,
}

/// What happened to a connection.
#[derive(Debug, Clone, Copy, PartialEq, Eq, Structural)]
pub enum RelayEvent {
    /// The handshake succeeded.
    Admitted,
    /// The handshake failed.
    Refused,
    /// This half has finished, whether cleanly, on an error, or cancelled.
    HalfEnded(Half),
}

/// What the caller must do after an event.
#[derive(Debug, Clone, Copy, PartialEq, Eq, Structural)]
pub enum RelayCommand {
    /// Start both halves.
    StartHalves,
    /// Report the refusal to the client; no half is started.
    Refuse,
    /// Cancel this half at once.
    Cancel(Half),
    /// Both halves are gone: close the connection.
    Finish,
    /// Nothing to do.
    Nothing,
}

/// The other half.
pub open spec fn other(h: Half) -> Half {
    match h {
        Half::Inbound => Half::Outbound,
        Half::Outbound => Half::Inbound,
    }
}

/// The state of a connection: its phase and which halves still run.
#[derive(Debug, Clone, Copy, PartialEq, Eq, Structural)]
pub struct RelayState {
    pub phase: Phase,
    pub inbound_running: bool,
    pub outbound_running: bool,
}

impl RelayState {
    pub open spec fn running(self, h: Half) -> bool {
        match h {
            Half::Inbound => self.inbound_running,
            Half::Outbound => self.outbound_running,
        }
    }

    /// The halves run exactly while the phase says so: both while relaying,
    /// one while terminating, none otherwise.
    pub open spec fn valid(self) -> bool {
        match self.phase {
            Phase::Relaying => self.inbound_running && self.outbound_running,
            Phase::Terminating => self.inbound_running != self.outbound_running,
            _ => !self.inbound_running && !self.outbound_running,
        }
    }

    pub open spec fn with_ended(self, h: Half) -> RelayState {
        match h {
            Half::Inbound => RelayState { inbound_running: false, ..self },
            Half::Outbound => RelayState { outbound_running: false, ..self },
        }
    }

    /// The transition of a connection on an event: the state after it and
    /// the command for the caller.
    pub open spec fn next(self, e: RelayEvent) -> (RelayState, RelayCommand) {
        match (self.phase, e) {
            (Phase::Handshaking, RelayEvent::Admitted) => (
                RelayState { phase: Phase::Relaying, inbound_running: true, outbound_running: true },
                RelayCommand::StartHalves,
            ),
            (Phase::Handshaking, RelayEvent::Refused) => (
                RelayState {
                    phase: Phase::Terminated,
                    inbound_running: false,
                    outbound_running: false,
                },
                RelayCommand::Refuse,
            ),
            (Phase::Relaying, RelayEvent::HalfEnded(h)) => (
                RelayState { phase: Phase::Terminating, ..self.with_ended(h) },
                RelayCommand::Cancel(other(h)),
            ),
            (Phase::Terminating, RelayEvent::HalfEnded(h)) => if self.running(h) {
                (
                    RelayState {
                        phase: Phase::Terminated,
                        inbound_running: false,
                        outbound_running: false,
                    },
                    RelayCommand::Finish,
                )
            } else {
                (self, RelayCommand::Nothing)
            },
            _ => (self, RelayCommand::Nothing),
        }
    }
}

/// The lifecycle of one connection.
pub struct Relay {
    state: RelayState,
}

impl View for Relay {
    type V = RelayState;

    closed spec fn view(&self) -> RelayState {
        self.state
    }
}

impl Relay {
    #[verifier::type_invariant]
    spec fn inv(&self) -> bool {
        self.state.valid()
    }

    /// A connection whose handshake is under way.
    pub fn new() -> (r: Relay)
        ensures
            r@ == (RelayState {
                phase: Phase::Handshaking,
                inbound_running: false,
                outbound_running: false,
            }),
    {
        Relay {
            state: RelayState {
                phase: Phase::Handshaking,
                inbound_running: false,
                outbound_running: false,
            },
        }
    }

    /// Where the connection stands.
    pub fn phase(&self) -> (p: Phase)
        ensures
            p == self@.phase,
            self@.valid(),
    {
        proof {
            use_type_invariant(self);
        }
        self.state.phase
    }

    /// Whether half `h` still runs.
    pub fn is_running(&self, h: Half) -> (b: bool)
        ensures
            b == self@.running(h),
    {
        match h {
            Half::Inbound => self.state.inbound_running,
            Half::Outbound => self.state.outbound_running,
        }
    }

    /// Takes the event into account and says what to do.
    pub fn step(&mut self, e: RelayEvent) -> (c: RelayCommand)
        ensures
            (final(self)@, c) == old(self)@.next(e),
            final(self)@.valid(),
    {
        proof {
            use_type_invariant(&*self);
        }
        let s = self.state;
        let (n, c) = match (s.phase, e) {
            (Phase::Handshaking, RelayEvent::Admitted) => (
                RelayState { phase: Phase::Relaying, inbound_running: true, outbound_running: true },
                RelayCommand::StartHalves,
            ),
            (Phase::Handshaking, RelayEvent::Refused) => (
                RelayState {
                    phase: Phase::Terminated,
                    inbound_running: false,
                    outbound_running: false,
                },
                RelayCommand::Refuse,
            ),
            (Phase::Relaying, RelayEvent::HalfEnded(h)) => match h {
                Half::Inbound => (
                    RelayState { phase: Phase::Terminating, inbound_running: false, ..s },
                    RelayCommand::Cancel(Half::Outbound),
                ),
                Half::Outbound => (
                    RelayState { phase: Phase::Terminating, outbound_running: false, ..s },
                    RelayCommand::Cancel(Half::Inbound),
                ),
            },
            (Phase::Terminating, RelayEvent::HalfEnded(h)) => {
                let still = match h {
                    Half::Inbound => s.inbound_running,
                    Half::Outbound => s.outbound_running,
                };
                if still {
                    (
                        RelayState {
                            phase: Phase::Terminated,
                            inbound_running: false,
                            outbound_running: false,
                        },
                        RelayCommand::Finish,
                    )
                } else {
                    (s, RelayCommand::Nothing)
                }
            },
            _ => (s, RelayCommand::Nothing),
        };
        self.state = n;
        c
    }
}

/// Every transition keeps a valid state valid.
pub proof fn lemma_next_keeps_valid(s: RelayState, e: RelayEvent)
    requires
        s.valid(),
    ensures
        s.next(e).0.valid(),
{
}

/// The halves are coupled: while relaying, the end of either half (a client
/// that disconnects, a failed write, a closed topic) cancels the other half
/// at once, and the end of that other half, the very next event of the
/// connection that matters, finishes the connection. No event after the
/// first end starts any work again.
pub proof fn lemma_half_end_stops_other(s: RelayState, h: Half, e: RelayEvent)
    requires
        s.valid(),
        s.phase == Phase::Relaying,
    ensures
        s.next(RelayEvent::HalfEnded(h)).1 == RelayCommand::Cancel(other(h)),
        s.next(RelayEvent::HalfEnded(h)).0.phase == Phase::Terminating,
        !s.next(RelayEvent::HalfEnded(h)).0.running(h),
        s.next(RelayEvent::HalfEnded(h)).0.next(RelayEvent::HalfEnded(other(h))) == (
        RelayState { phase: Phase::Terminated, inbound_running: false, outbound_running: false },
        RelayCommand::Finish,
        ),
        s.next(RelayEvent::HalfEnded(h)).0.next(e).1 != RelayCommand::StartHalves,
{
}

/// Once terminated, a connection stays terminated and asks for nothing.
pub proof fn lemma_terminated_is_final(s: RelayState, e: RelayEvent)
    requires
        s.phase == Phase::Terminated,
    ensures
        s.next(e) == (s, RelayCommand::Nothing),
{
}

} // verus!
