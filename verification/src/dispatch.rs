//! The decisions of the task that owns the device.
//!
//! That task waits on two sources: the device, and the queue into which all
//! sessions push the frames they want sent. Whatever becomes ready is handled
//! to completion. The [`Dispatcher`] holds the state that lives across those
//! events, the session table first of all, and decides for each event what is
//! to be done. Reading, parsing, building a session, serialising and writing
//! are done by the caller, which reports back what came of them.

use crate::channel::send_frame;
use crate::error::IpStackError;
use crate::flow::{Endpoint, NetworkTuple};
use crate::frame::{Frame, TcpHandshake, Transport};
use crate::framing::{Framing, Platform};
use crate::table::SessionTable;
use tokio::sync::mpsc::UnboundedSender;
use vstd::prelude::*;

verus! {

/// Why a frame went no further.
#[derive(Clone, Copy, Debug, PartialEq, Eq, Structural)]
pub enum DropReason {
    /// The stack has ended.
    Halted,
    /// The bytes read from the device are no IP packet.
    Malformed,
    /// The frame belongs to no session and its transport is not served.
    Unsupported,
    /// The frame belongs to no session and is a TCP segment that does not
    /// initiate a connection.
    NotInitiating,
}

/// What a new session is seeded with.
#[derive(Clone, Debug, PartialEq, Eq)]
pub enum SessionInit {
    /// The handshake data of the initiating segment.
    Tcp(TcpHandshake),
    /// The payload of the first datagram.
    Udp(Vec<u8>),
}

/// Everything a new session is built from, but for the sender of the shared
/// egress queue, which the caller holds.
#[derive(Clone, Debug, PartialEq, Eq)]
pub struct SessionRequest {
    pub tuple: NetworkTuple,
    pub source: Endpoint,
    pub destination: Endpoint,
    pub init: SessionInit,
    pub mtu: u16,
}

/// Where an inbound frame goes.
pub enum Route<'a> {
    /// Nowhere.
    Drop(DropReason),
    /// To the session registered for its flow.
    Forward { session: &'a UnboundedSender<Frame>, frame: Frame },
    /// To a session that is yet to be built.
    Open(SessionRequest),
}

/// What was done with an inbound frame.
#[derive(Clone, Debug, PartialEq, Eq)]
pub enum Inbound {
    Dropped(DropReason),
    /// The frame was handed to the channel of its session; `queued` is false
    /// where the session no longer listens, and the frame is lost.
    Forwarded { queued: bool },
    /// The caller is to build the session and report it with
    /// [`Dispatcher::register`].
    Open(SessionRequest),
}

/// What became of a session that the caller was asked to build.
#[derive(Clone, Copy, Debug, PartialEq, Eq, Structural)]
pub enum Registration {
    /// The session is in the table; the caller hands it to the application.
    Registered,
    /// The session could not be built; the frame that asked for it is lost.
    Failed,
    /// The flow has a session already, which stays; the new one is let go.
    Occupied,
    /// The stack has ended.
    Halted,
}

/// What is to be done with a frame that a session wants sent.
#[derive(Clone, Copy, Debug, PartialEq, Eq, Structural)]
pub enum Egress {
    /// The frame was a teardown signal. `removed` says whether the session it
    /// named was still registered. Nothing goes to the device.
    Retired { removed: bool },
    /// The frame is traffic: the caller serialises it and passes the bytes
    /// to [`Dispatcher::encapsulate`].
    Serialize,
    /// The stack has ended.
    Halted,
}

/// The state of the task that owns the device.
pub struct Dispatcher {
    sessions: SessionTable<UnboundedSender<Frame>>,
    framing: Framing,
    mtu: u16,
    fault: Option<IpStackError>,
}

/// The session that a frame opens when no session serves its flow: none for
/// a TCP segment that does not initiate, and none for an unserved transport.
pub open spec fn request_of(frame: Frame, mtu: u16) -> Option<SessionRequest> {
    match frame.transport {
        Transport::Tcp(handshake) => if handshake.spec_is_initiating() {
            Some(
                SessionRequest {
                    tuple: frame.spec_network_tuple(),
                    source: frame.source,
                    destination: frame.destination,
                    init: SessionInit::Tcp(handshake),
                    mtu,
                },
            )
        } else {
            None
        },
        Transport::Udp => Some(
            SessionRequest {
                tuple: frame.spec_network_tuple(),
                source: frame.source,
                destination: frame.destination,
                init: SessionInit::Udp(frame.payload),
                mtu,
            },
        ),
        Transport::Unsupported => None,
    }
}

/// Why a frame that no session serves opens none.
pub open spec fn refusal_of(frame: Frame) -> DropReason {
    match frame.transport {
        Transport::Tcp(_) => DropReason::NotInitiating,
        _ => DropReason::Unsupported,
    }
}

/// Where the result of parsing a device buffer goes, given the live sessions.
pub open spec fn route_of<'a>(
    sessions: Map<NetworkTuple, UnboundedSender<Frame>>,
    mtu: u16,
    parsed: Option<Frame>,
) -> Route<'a> {
    match parsed {
        None => Route::Drop(DropReason::Malformed),
        Some(frame) => if sessions.contains_key(frame.spec_network_tuple()) {
            Route::Forward { session: &sessions[frame.spec_network_tuple()], frame }
        } else {
            match request_of(frame, mtu) {
                Some(request) => Route::Open(request),
                None => Route::Drop(refusal_of(frame)),
            }
        },
    }
}

/// The live sessions after the caller has reported what came of building a
/// session for `tuple`: the new session is added where one was built and the
/// flow had none.
pub open spec fn registered(
    sessions: Map<NetworkTuple, UnboundedSender<Frame>>,
    tuple: NetworkTuple,
    built: Option<UnboundedSender<Frame>>,
) -> Map<NetworkTuple, UnboundedSender<Frame>> {
    match built {
        Some(session) => if sessions.contains_key(tuple) {
            sessions
        } else {
            sessions.insert(tuple, session)
        },
        None => sessions,
    }
}

/// The live sessions after a frame came off the egress queue: a teardown
/// signal retires the session whose flow is the reverse of the frame's own.
pub open spec fn retired(
    sessions: Map<NetworkTuple, UnboundedSender<Frame>>,
    frame: Frame,
) -> Map<NetworkTuple, UnboundedSender<Frame>> {
    if frame.spec_is_sentinel() {
        sessions.remove(frame.spec_reverse_network_tuple())
    } else {
        sessions
    }
}

impl Dispatcher {
    /// The live sessions: the sender of each session's inbound channel, by
    /// the flow it serves.
    pub closed spec fn sessions(&self) -> Map<NetworkTuple, UnboundedSender<Frame>> {
        self.sessions@
    }

    /// The fault that ended the stack, if it has ended.
    pub closed spec fn spec_fault(&self) -> Option<IpStackError> {
        self.fault
    }

    pub closed spec fn spec_framing(&self) -> Framing {
        self.framing
    }

    pub closed spec fn spec_mtu(&self) -> u16 {
        self.mtu
    }

    pub open spec fn spec_is_running(&self) -> bool {
        self.spec_fault() is None
    }

    /// Where the result of parsing a device buffer goes in this state:
    /// nowhere once the stack has ended.
    pub open spec fn spec_route(&self, parsed: Option<Frame>) -> Route<'_> {
        if self.spec_is_running() {
            route_of(self.sessions(), self.spec_mtu(), parsed)
        } else {
            Route::Drop(DropReason::Halted)
        }
    }

    /// Whether two states differ in their sessions at most.
    pub open spec fn same_course(&self, other: &Dispatcher) -> bool {
        &&& self.spec_fault() == other.spec_fault()
        &&& self.spec_framing() == other.spec_framing()
        &&& self.spec_mtu() == other.spec_mtu()
    }

    /// A running stack without sessions, for a device of `platform` opened
    /// with or without packet info, whose sessions get `mtu` as their frame
    /// size.
    pub fn new(mtu: u16, packet_info: bool, platform: Platform) -> (stack: Dispatcher)
        ensures
            stack.sessions() == Map::<NetworkTuple, UnboundedSender<Frame>>::empty(),
            stack.spec_is_running(),
            stack.spec_mtu() == mtu,
            stack.spec_framing() == (Framing { platform, packet_info }),
    {
        Dispatcher {
            sessions: SessionTable::new(),
            framing: Framing { platform, packet_info },
            mtu,
            fault: None,
        }
    }

    #[verifier::when_used_as_spec(spec_framing)]
    pub fn framing(&self) -> (framing: Framing)
        ensures
            framing == self.spec_framing(),
    {
        self.framing
    }

    #[verifier::when_used_as_spec(spec_mtu)]
    pub fn mtu(&self) -> (mtu: u16)
        ensures
            mtu == self.spec_mtu(),
    {
        self.mtu
    }

    #[verifier::when_used_as_spec(spec_fault)]
    pub fn fault(&self) -> (fault: Option<IpStackError>)
        ensures
            fault == self.spec_fault(),
    {
        self.fault
    }

    #[verifier::when_used_as_spec(spec_is_running)]
    pub fn is_running(&self) -> (running: bool)
        ensures
            running == self.spec_is_running(),
    {
        self.fault.is_none()
    }

    /// The flows that have a live session. No flow is listed twice: a flow
    /// has at most one session at any time.
    pub fn live_tuples(&self) -> (live: Vec<NetworkTuple>)
        ensures
            live@.no_duplicates(),
            live@.to_set() == self.sessions().dom(),
            live@.len() == self.sessions().len(),
    {
        self.sessions.tuples()
    }

    /// Whether a session is registered for `tuple`.
    pub fn has_session(&self, tuple: &NetworkTuple) -> (present: bool)
        ensures
            present == self.sessions().contains_key(*tuple),
    {
        self.sessions.contains(tuple)
    }

    /// Decides where the result of parsing a device buffer goes; `None`
    /// stands for bytes that could not be parsed. Nothing is sent and nothing
    /// changes.
    #[verifier::when_used_as_spec(spec_route)]
    pub fn route(&self, parsed: Option<Frame>) -> (route: Route<'_>)
        ensures
            route == self.spec_route(parsed),
    {
        if self.fault.is_some() {
            return Route::Drop(DropReason::Halted);
        }
        let frame = match parsed {
            Some(frame) => frame,
            None => {
                return Route::Drop(DropReason::Malformed);
            },
        };
        let tuple = frame.network_tuple();
        match self.sessions.lookup(&tuple) {
            Some(session) => Route::Forward { session, frame },
            None => match frame.transport {
                Transport::Tcp(handshake) => {
                    if handshake.is_initiating() {
                        Route::Open(
                            SessionRequest {
                                tuple,
                                source: frame.source,
                                destination: frame.destination,
                                init: SessionInit::Tcp(handshake),
                                mtu: self.mtu,
                            },
                        )
                    } else {
                        Route::Drop(DropReason::NotInitiating)
                    }
                },
                Transport::Udp => Route::Open(
                    SessionRequest {
                        tuple,
                        source: frame.source,
                        destination: frame.destination,
                        init: SessionInit::Udp(frame.payload),
                        mtu: self.mtu,
                    },
                ),
                Transport::Unsupported => Route::Drop(DropReason::Unsupported),
            },
        }
    }

    /// Handles the result of parsing a device buffer: a frame of a live
    /// session is pushed into that session's channel, a frame that opens a
    /// session is handed back as a request, anything else is dropped. The
    /// table is left as it is, also where the session no longer listens.
    pub fn inbound(&self, parsed: Option<Frame>) -> (action: Inbound)
        ensures
            match self.spec_route(parsed) {
                Route::Drop(reason) => action == Inbound::Dropped(reason),
                Route::Forward { .. } => action is Forwarded,
                Route::Open(request) => action == Inbound::Open(request),
            },
            parsed is None ==> action is Dropped,
    {
        match self.route(parsed) {
            Route::Drop(reason) => Inbound::Dropped(reason),
            Route::Forward { session, frame } => {
                let queued = send_frame(session, frame);
                Inbound::Forwarded { queued }
            },
            Route::Open(request) => Inbound::Open(request),
        }
    }

    /// Takes the report on a session that the caller was asked to build for
    /// `tuple`: `built` is the sender of the new session's inbound channel,
    /// or `None` where the session could not be built. The session is
    /// registered only where the stack runs and the flow has no session; no
    /// session that is registered is ever replaced.
    pub fn register(&mut self, tuple: NetworkTuple, built: Option<UnboundedSender<Frame>>) -> (outcome:
        Registration)
        ensures
            final(self).same_course(old(self)),
            final(self).sessions() == if old(self).spec_is_running() {
                registered(old(self).sessions(), tuple, built)
            } else {
                old(self).sessions()
            },
            outcome == if !old(self).spec_is_running() {
                Registration::Halted
            } else if built is None {
                Registration::Failed
            } else if old(self).sessions().contains_key(tuple) {
                Registration::Occupied
            } else {
                Registration::Registered
            },
    {
        if self.fault.is_some() {
            return Registration::Halted;
        }
        match built {
            None => Registration::Failed,
            Some(session) => {
                if self.sessions.contains(&tuple) {
                    Registration::Occupied
                } else {
                    self.sessions.insert(tuple, session);
                    Registration::Registered
                }
            },
        }
    }

    /// Handles a frame that came off the egress queue. A frame with the
    /// reserved time-to-live retires the session whose flow is the reverse of
    /// the frame's own; any other frame is to be serialised and written.
    pub fn egress(&mut self, frame: &Frame) -> (action: Egress)
        ensures
            final(self).same_course(old(self)),
            final(self).sessions() == if old(self).spec_is_running() {
                retired(old(self).sessions(), *frame)
            } else {
                old(self).sessions()
            },
            action == if !old(self).spec_is_running() {
                Egress::Halted
            } else if frame.spec_is_sentinel() {
                Egress::Retired {
                    removed: old(self).sessions().contains_key(frame.spec_reverse_network_tuple()),
                }
            } else {
                Egress::Serialize
            },
    {
        if self.fault.is_some() {
            return Egress::Halted;
        }
        if frame.is_sentinel() {
            let reverse = frame.reverse_network_tuple();
            let removed = self.sessions.remove(&reverse);
            Egress::Retired { removed }
        } else {
            Egress::Serialize
        }
    }

    /// Builds the buffer that goes to the device for a frame of traffic.
    /// `serialized` is the frame as an IP packet, or `None` where it could
    /// not be serialised. Nothing is written for such a frame, for a teardown
    /// signal, or once the stack has ended; else the packet is written with
    /// the header for the frame's address family in front.
    pub fn encapsulate(&self, frame: &Frame, serialized: Option<Vec<u8>>) -> (buffer: Option<Vec<u8>>)
        ensures
            buffer is Some <==> self.spec_is_running() && !frame.spec_is_sentinel() && serialized
                is Some,
            buffer matches Some(bytes) ==> bytes@ == self.spec_framing().framed(
                serialized->0@,
                frame.spec_family(),
            ),
    {
        if self.fault.is_some() || frame.is_sentinel() {
            return None;
        }
        match serialized {
            Some(ip_bytes) => Some(self.framing.prepend(ip_bytes, frame.family())),
            None => None,
        }
    }

    /// Ends the stack. Every session is let go, which closes its inbound
    /// channel; the first fault reported is the one that is kept.
    pub fn halt(&mut self, cause: IpStackError)
        ensures
            final(self).spec_fault() == Some(
                match old(self).spec_fault() {
                    Some(first) => first,
                    None => cause,
                },
            ),
            final(self).sessions() == Map::<NetworkTuple, UnboundedSender<Frame>>::empty(),
            final(self).spec_framing() == old(self).spec_framing(),
            final(self).spec_mtu() == old(self).spec_mtu(),
    {
        if self.fault.is_none() {
            self.fault = Some(cause);
        }
        self.sessions.clear();
    }

    /// Takes the report on a device write. A write that failed ends the
    /// stack; one that succeeded changes nothing.
    pub fn complete_write(&mut self, written: bool) -> (running: bool)
        ensures
            running == final(self).spec_is_running(),
            written ==> *final(self) == *old(self),
            !written ==> {
                &&& final(self).spec_fault() == Some(
                    match old(self).spec_fault() {
                        Some(first) => first,
                        None => IpStackError::DeviceWrite,
                    },
                )
                &&& final(self).sessions() == Map::<NetworkTuple, UnboundedSender<Frame>>::empty()
                &&& final(self).spec_framing() == old(self).spec_framing()
                &&& final(self).spec_mtu() == old(self).spec_mtu()
            },
    {
        if !written {
            self.halt(IpStackError::DeviceWrite);
        }
        self.fault.is_none()
    }
}

/// The live sessions after one device buffer was handled to completion:
/// `parsed` is what parsing gave, `built` what building the session gave
/// where one was asked for.
pub open spec fn after_inbound(
    sessions: Map<NetworkTuple, UnboundedSender<Frame>>,
    mtu: u16,
    parsed: Option<Frame>,
    built: Option<UnboundedSender<Frame>>,
) -> Map<NetworkTuple, UnboundedSender<Frame>> {
    match route_of(sessions, mtu, parsed) {
        Route::Open(request) => registered(sessions, request.tuple, built),
        _ => sessions,
    }
}

/// One event in the life of the table, with what the caller reported for it.
pub enum Event {
    /// A device buffer was read: `parsed` is what parsing gave, `built` what
    /// building a session gave where one was asked for.
    Arrival { parsed: Option<Frame>, built: Option<UnboundedSender<Frame>> },
    /// A frame came off the egress queue.
    Departure { frame: Frame },
}

/// The live sessions after one event.
pub open spec fn after_event(
    sessions: Map<NetworkTuple, UnboundedSender<Frame>>,
    mtu: u16,
    event: Event,
) -> Map<NetworkTuple, UnboundedSender<Frame>> {
    match event {
        Event::Arrival { parsed, built } => after_inbound(sessions, mtu, parsed, built),
        Event::Departure { frame } => retired(sessions, frame),
    }
}

/// The live sessions after a sequence of events, first to last.
pub open spec fn after_events(
    sessions: Map<NetworkTuple, UnboundedSender<Frame>>,
    mtu: u16,
    events: Seq<Event>,
) -> Map<NetworkTuple, UnboundedSender<Frame>>
    decreases events.len(),
{
    if events.len() == 0 {
        sessions
    } else {
        after_event(after_events(sessions, mtu, events.drop_last()), mtu, events.last())
    }
}

/// Whether `event` is the teardown signal for the session of `tuple`.
pub open spec fn retires(event: Event, tuple: NetworkTuple) -> bool {
    event matches Event::Departure { frame } && frame.spec_is_sentinel()
        && frame.spec_reverse_network_tuple() == tuple
}

/// Whether `frame` is one that opens a session for a flow that has none: a
/// TCP segment that initiates a connection, or any UDP datagram.
pub open spec fn opens_session(frame: Frame) -> bool {
    match frame.transport {
        Transport::Tcp(handshake) => handshake.spec_is_initiating(),
        Transport::Udp => true,
        Transport::Unsupported => false,
    }
}

/// Sessions are created lazily. Handling one device buffer adds a session
/// for a flow exactly when the flow had none, the buffer parsed to a frame
/// of that flow which opens a session, and the session could be built. Bytes
/// that do not parse add nothing, and no session that was live is touched.
pub proof fn lemma_lazy_creation(
    sessions: Map<NetworkTuple, UnboundedSender<Frame>>,
    mtu: u16,
    parsed: Option<Frame>,
    built: Option<UnboundedSender<Frame>>,
    tuple: NetworkTuple,
)
    ensures
        sessions.contains_key(tuple) ==> {
            &&& after_inbound(sessions, mtu, parsed, built).contains_key(tuple)
            &&& after_inbound(sessions, mtu, parsed, built)[tuple] == sessions[tuple]
        },
        !sessions.contains_key(tuple) ==> (after_inbound(sessions, mtu, parsed, built).contains_key(
            tuple,
        ) <==> {
            &&& parsed matches Some(frame)
            &&& frame.spec_network_tuple() == tuple
            &&& opens_session(frame)
            &&& built is Some
        }),
        !sessions.contains_key(tuple) && after_inbound(sessions, mtu, parsed, built).contains_key(
            tuple,
        ) ==> after_inbound(sessions, mtu, parsed, built)[tuple] == built->0,
        parsed is None ==> after_inbound(sessions, mtu, parsed, built) == sessions,
{
}

/// A flow has one session at a time. Whatever is read from the device and
/// whatever the sessions send, in any order, a flow that has a session keeps
/// that very session for as long as no teardown signal names it: no other
/// session takes its place.
pub proof fn lemma_one_session_per_flow(
    sessions: Map<NetworkTuple, UnboundedSender<Frame>>,
    mtu: u16,
    events: Seq<Event>,
    tuple: NetworkTuple,
)
    requires
        sessions.contains_key(tuple),
        forall|i: int| 0 <= i < events.len() ==> !retires(#[trigger] events[i], tuple),
    ensures
        after_events(sessions, mtu, events).contains_key(tuple),
        after_events(sessions, mtu, events)[tuple] == sessions[tuple],
    decreases events.len(),
{
    if events.len() > 0 {
        let earlier = events.drop_last();
        assert forall|i: int| 0 <= i < earlier.len() implies !retires(
            #[trigger] earlier[i],
            tuple,
        ) by {
            assert(earlier[i] == events[i]);
        }
        lemma_one_session_per_flow(sessions, mtu, earlier, tuple);
        let before = after_events(sessions, mtu, earlier);
        assert(!retires(events[events.len() - 1], tuple));
        match events.last() {
            Event::Arrival { parsed, built } => {
                lemma_lazy_creation(before, mtu, parsed, built, tuple);
            },
            Event::Departure { frame } => {},
        }
    }
}

/// A teardown signal whose own flow is the reverse of `tuple` retires the
/// session of `tuple` and no other; the same signal once more changes
/// nothing. A frame of traffic retires nothing.
pub proof fn lemma_sentinel_teardown(
    sessions: Map<NetworkTuple, UnboundedSender<Frame>>,
    tuple: NetworkTuple,
    frame: Frame,
    other: NetworkTuple,
)
    requires
        frame.spec_network_tuple() == tuple.spec_reverse(),
    ensures
        frame.spec_is_sentinel() ==> !retired(sessions, frame).contains_key(tuple),
        frame.spec_is_sentinel() && other != tuple ==> {
            &&& retired(sessions, frame).contains_key(other) == sessions.contains_key(other)
            &&& sessions.contains_key(other) ==> retired(sessions, frame)[other] == sessions[other]
        },
        retired(retired(sessions, frame), frame) == retired(sessions, frame),
        !frame.spec_is_sentinel() ==> retired(sessions, frame) == sessions,
{
    assert(frame.spec_reverse_network_tuple() == tuple);
    assert(retired(retired(sessions, frame), frame) =~= retired(sessions, frame));
}

} // verus!
