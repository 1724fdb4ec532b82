//! One subscriber's connection: what to send, and when to give up.
//!
//! A session is a small state machine. The task that owns the connection
//! waits for whichever comes first of a frame from the peer, a change on
//! the bus and a heartbeat tick, hands it to [`Session::handle`], and does
//! what the answer says. The session itself touches neither the transport
//! nor the bus.

use crate::bus::{BusView, ChangeBus};
use crate::song::Song;
use vstd::prelude::*;

verus! {

/// Where a connection stands.
#[derive(Debug, Clone, Copy, PartialEq, Eq, Structural)]
pub enum SessionState {
    /// Open: events are processed.
    Connected,
    /// Given up; the transport has yet to be released.
    Closing,
    /// The transport has been released. Nothing happens any more.
    Closed,
}

/// The kinds of frame a peer can send.
#[derive(Debug, Clone, Copy, PartialEq, Eq, Structural)]
pub enum Frame {
    Ping,
    Pong,
    Close,
    Text,
    Binary,
}

/// What woke the connection's task.
#[derive(Debug, Clone, Copy, PartialEq, Eq, Structural)]
pub enum Event {
    /// The peer sent a frame; `now` is when it arrived.
    Inbound { frame: Frame, now: u64 },
    /// The bus announced a change.
    Changed,
    /// The heartbeat timer fired at `now`.
    Heartbeat { now: u64 },
    /// Sending to or receiving from the peer failed.
    TransportFailed,
}

/// What the connection's task has to send to the peer.
#[derive(Debug)]
pub enum Reply {
    Nothing,
    Ping,
    Pong,
    Snapshot(Song),
}

/// Mathematical value of a [`Session`].
pub struct SessionView {
    pub state: SessionState,
    /// When the peer last gave a sign of life.
    pub last_liveness: u64,
    /// The version of the bus that was last sent to the peer.
    pub last_seen: u64,
    /// How long the peer may stay silent.
    pub timeout: u64,
}

impl SessionView {
    /// How long the peer has been silent at `now`.
    pub open spec fn silence(self, now: u64) -> int {
        if now >= self.last_liveness {
            now - self.last_liveness
        } else {
            0
        }
    }

    /// The peer has been silent for longer than it may.
    pub open spec fn timed_out(self, now: u64) -> bool {
        self.silence(now) > self.timeout
    }

    /// A frame arrived: a ping is a sign of life and is answered with a
    /// pong, a pong is a sign of life, a close frame ends the session, and
    /// payload frames are not part of the protocol and change nothing.
    pub open spec fn inbound(self, frame: Frame, now: u64) -> (SessionView, Reply) {
        match frame {
            Frame::Ping => (SessionView { last_liveness: now, ..self }, Reply::Pong),
            Frame::Pong => (SessionView { last_liveness: now, ..self }, Reply::Nothing),
            Frame::Close => (SessionView { state: SessionState::Closing, ..self }, Reply::Nothing),
            Frame::Text | Frame::Binary => (self, Reply::Nothing),
        }
    }

    /// The bus changed: whatever is newer than what the peer has is sent
    /// and remembered as seen.
    pub open spec fn changed(self, bus: BusView) -> (SessionView, Reply) {
        match bus.change_since(self.last_seen) {
            Some((version, value)) => (
                SessionView { last_seen: version, ..self },
                Reply::Snapshot(value),
            ),
            None => (self, Reply::Nothing),
        }
    }

    /// The heartbeat timer fired: a peer that has been silent for too long
    /// is given up, any other is pinged.
    pub open spec fn heartbeat(self, now: u64) -> (SessionView, Reply) {
        if self.timed_out(now) {
            (SessionView { state: SessionState::Closing, ..self }, Reply::Nothing)
        } else {
            (self, Reply::Ping)
        }
    }

    /// The session after one event, and what is sent in answer. Only a
    /// connected session reacts.
    pub open spec fn step(self, event: Event, bus: BusView) -> (SessionView, Reply) {
        if self.state != SessionState::Connected {
            (self, Reply::Nothing)
        } else {
            match event {
                Event::Inbound { frame, now } => self.inbound(frame, now),
                Event::Changed => self.changed(bus),
                Event::Heartbeat { now } => self.heartbeat(now),
                Event::TransportFailed => (
                    SessionView { state: SessionState::Closing, ..self },
                    Reply::Nothing,
                ),
            }
        }
    }

    /// The session after its transport has been let go, and whether this
    /// was the call that let it go.
    pub open spec fn released(self) -> (SessionView, bool) {
        if self.state == SessionState::Closed {
            (self, false)
        } else {
            (SessionView { state: SessionState::Closed, ..self }, true)
        }
    }
}

/// One subscriber's connection.
#[derive(Debug)]
pub struct Session {
    state: SessionState,
    last_liveness: u64,
    last_seen: u64,
    timeout: u64,
}

impl View for Session {
    type V = SessionView;

    closed spec fn view(&self) -> SessionView {
        SessionView {
            state: self.state,
            last_liveness: self.last_liveness,
            last_seen: self.last_seen,
            timeout: self.timeout,
        }
    }
}

impl Session {
    /// Opens a session at `now` for a peer that may stay silent for
    /// `timeout`. The second component is the first message for the peer:
    /// the value the bus holds at this moment, whatever it is.
    pub fn connect(bus: &ChangeBus, now: u64, timeout: u64) -> (res: (Session, Song))
        ensures
            res.0@ == (SessionView {
                state: SessionState::Connected,
                last_liveness: now,
                last_seen: bus@.version,
                timeout,
            }),
            res.1 == bus@.latest,
    {
        let session = Session {
            state: SessionState::Connected,
            last_liveness: now,
            last_seen: bus.version(),
            timeout,
        };
        (session, bus.snapshot().clone())
    }

    /// Where the connection stands.
    pub fn state(&self) -> (res: SessionState)
        ensures
            res == self@.state,
    {
        self.state
    }

    /// The version of the bus that was last sent to the peer.
    pub fn last_seen(&self) -> (res: u64)
        ensures
            res == self@.last_seen,
    {
        self.last_seen
    }

    /// When the peer last gave a sign of life.
    pub fn last_liveness(&self) -> (res: u64)
        ensures
            res == self@.last_liveness,
    {
        self.last_liveness
    }

    /// Takes one event and says what to send. `bus` is the bus as it stands
    /// when the event is handled; it is looked at for [`Event::Changed`]
    /// only.
    pub fn handle(&mut self, event: Event, bus: &ChangeBus) -> (reply: Reply)
        ensures
            (final(self)@, reply) == old(self)@.step(event, bus@),
    {
        if self.state != SessionState::Connected {
            return Reply::Nothing;
        }
        match event {
            Event::Inbound { frame, now } => match frame {
                Frame::Ping => {
                    self.last_liveness = now;
                    Reply::Pong
                },
                Frame::Pong => {
                    self.last_liveness = now;
                    Reply::Nothing
                },
                Frame::Close => {
                    self.state = SessionState::Closing;
                    Reply::Nothing
                },
                Frame::Text | Frame::Binary => Reply::Nothing,
            },
            Event::Changed => match bus.wait_for_change(self.last_seen) {
                Some((version, value)) => {
                    self.last_seen = version;
                    Reply::Snapshot(value.clone())
                },
                None => Reply::Nothing,
            },
            Event::Heartbeat { now } => {
                if now >= self.last_liveness && now - self.last_liveness > self.timeout {
                    self.state = SessionState::Closing;
                    Reply::Nothing
                } else {
                    Reply::Ping
                }
            },
            Event::TransportFailed => {
                self.state = SessionState::Closing;
                Reply::Nothing
            },
        }
    }

    /// Ends the session. `true` tells the caller to let go of the transport
    /// now; it is the answer of the first call only, whatever brought the
    /// session to its end.
    pub fn release(&mut self) -> (let_go: bool)
        ensures
            (final(self)@, let_go) == old(self)@.released(),
    {
        if self.state == SessionState::Closed {
            false
        } else {
            self.state = SessionState::Closed;
            true
        }
    }
}

/// A frame by which the peer shows that it is alive.
pub open spec fn is_sign_of_life(event: Event) -> bool {
    event matches Event::Inbound { frame, .. } && (frame is Ping || frame is Pong)
}

/// The session after a run of events, each handled against the bus as it
/// stood at that moment.
pub open spec fn run(s: SessionView, events: Seq<(Event, BusView)>) -> SessionView
    decreases events.len(),
{
    if events.len() == 0 {
        s
    } else {
        run(s, events.drop_last()).step(events.last().0, events.last().1).0
    }
}

/// A freshly connected peer has the bus's value already: an announcement
/// that brings no newer version sends nothing a second time.
pub proof fn lemma_first_message_is_not_repeated(bus: BusView, now: u64, timeout: u64)
    ensures
        ({
            let fresh = SessionView {
                state: SessionState::Connected,
                last_liveness: now,
                last_seen: bus.version,
                timeout,
            };
            fresh.step(Event::Changed, bus) == (fresh, Reply::Nothing)
        }),
{
}

/// A session sends each version at most once: what it sends is newer than
/// everything it has sent, and a second announcement of the same bus sends
/// nothing.
pub proof fn lemma_no_duplicate_delivery(s: SessionView, bus: BusView)
    requires
        s.state == SessionState::Connected,
    ensures
        s.step(Event::Changed, bus).1 matches Reply::Snapshot(value) ==> {
            &&& value == bus.latest
            &&& bus.version > s.last_seen
            &&& s.step(Event::Changed, bus).0.last_seen == bus.version
            &&& s.step(Event::Changed, bus).0.step(Event::Changed, bus).1 is Nothing
        },
        s.step(Event::Changed, bus).1 is Nothing ==> bus.version <= s.last_seen,
        s.step(Event::Changed, bus).0.last_seen >= s.last_seen,
{
}

/// Only a ping or a pong from the peer counts as a sign of life. Bus
/// changes, heartbeat ticks, payload frames and failures leave the time of
/// the last sign of life, and the allowed silence, as they were.
pub proof fn lemma_silence_is_kept(s: SessionView, events: Seq<(Event, BusView)>)
    requires
        forall|i: int| 0 <= i < events.len() ==> !is_sign_of_life(#[trigger] events[i].0),
    ensures
        run(s, events).last_liveness == s.last_liveness,
        run(s, events).timeout == s.timeout,
    decreases events.len(),
{
    if events.len() > 0 {
        let earlier = events.drop_last();
        assert forall|i: int| 0 <= i < earlier.len() implies !is_sign_of_life(
            #[trigger] earlier[i].0,
        ) by {
            assert(earlier[i] == events[i]);
        }
        lemma_silence_is_kept(s, earlier);
    }
}

/// A session that has left the connected state never returns to it, and
/// answers nothing.
pub proof fn lemma_closing_is_final(s: SessionView, events: Seq<(Event, BusView)>)
    requires
        s.state != SessionState::Connected,
    ensures
        run(s, events) == s,
    decreases events.len(),
{
    if events.len() > 0 {
        lemma_closing_is_final(s, events.drop_last());
    }
}

/// A silent peer is given up at the first heartbeat tick that finds its
/// silence longer than allowed, whatever else has happened in between: if
/// no ping or pong arrives, a tick at `now` with `now - last_liveness >
/// timeout` leaves the session closing or closed.
pub proof fn lemma_silent_peer_is_dropped(
    s: SessionView,
    events: Seq<(Event, BusView)>,
    bus: BusView,
    now: u64,
)
    requires
        forall|i: int| 0 <= i < events.len() ==> !is_sign_of_life(#[trigger] events[i].0),
        s.timed_out(now),
    ensures
        run(s, events).step(Event::Heartbeat { now }, bus).0.state != SessionState::Connected,
        run(s, events).step(Event::Heartbeat { now }, bus).1 is Nothing,
{
    lemma_silence_is_kept(s, events);
}

/// With heartbeat ticks at most `period` apart, a silent peer is given up
/// no later than `period` after its silence has grown longer than allowed:
/// if the tick at `tick` still found the silence within bounds and the next
/// one at `next_tick` does not, the session is given up at `next_tick`, and
/// `next_tick` lies at most `period` past the moment the bound was crossed.
pub proof fn lemma_dropped_within_one_period(
    s: SessionView,
    events: Seq<(Event, BusView)>,
    bus: BusView,
    tick: u64,
    next_tick: u64,
    period: u64,
)
    requires
        forall|i: int| 0 <= i < events.len() ==> !is_sign_of_life(#[trigger] events[i].0),
        tick <= next_tick <= tick + period,
        !s.timed_out(tick),
        s.timed_out(next_tick),
    ensures
        run(s, events).step(Event::Heartbeat { now: next_tick }, bus).0.state
            != SessionState::Connected,
        next_tick - (s.last_liveness + s.timeout) <= period,
{
    lemma_silent_peer_is_dropped(s, events, bus, next_tick);
}

/// The transport is let go exactly once: the first release of a session
/// says so, every later one does not, and a closed session stays closed
/// under every event.
pub proof fn lemma_released_once(s: SessionView, events: Seq<(Event, BusView)>)
    ensures
        s.state != SessionState::Closed ==> s.released().1,
        s.released().0.state == SessionState::Closed,
        !run(s.released().0, events).released().1,
        run(s.released().0, events) == s.released().0,
{
    lemma_closing_is_final(s.released().0, events);
}

/// What a session has sent to its peer never goes back: over any run of
/// events the version last sent only grows, and every snapshot that is
/// sent carries a version above all that were sent before it.
pub proof fn lemma_last_seen_only_grows(s: SessionView, events: Seq<(Event, BusView)>)
    ensures
        run(s, events).last_seen >= s.last_seen,
        events.len() > 0 ==> {
            let before = run(s, events.drop_last());
            let (after, reply) = before.step(events.last().0, events.last().1);
            reply is Snapshot ==> after.last_seen > before.last_seen && after.last_seen
                == events.last().1.version
        },
    decreases events.len(),
{
    if events.len() > 0 {
        lemma_last_seen_only_grows(s, events.drop_last());
    }
}

} // verus!
