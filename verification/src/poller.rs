//! The poller: what to do on each tick, and whether a poll result is news.
//!
//! The poller is a state machine. The task that drives it feeds it a tick,
//! then the outcome of whatever the poller asked for, until the poller says
//! that the tick is over. The task does the waiting and the network calls;
//! every decision is taken here: whether the access token has to be renewed
//! first, whether a failed query is tried again, and whether a snapshot
//! differs from the one published last.
//!
//! A tick runs through at most one renewal before the query, one query,
//! and, if that query fails, one forced renewal and one more query. Nothing
//! that goes wrong ends the poller: every tick comes to an end, and the
//! next one starts afresh. A tick that arrives while the one before is
//! still under way is passed over, so that no two renewals are ever under
//! way at once.

use crate::credential::{clone_text, AuthError, Credential, TokenRequest, TokenResponse};
use crate::json::{canonical_json, JsonText};
use crate::song::{same_snapshot, snapshot_view, snapshots_match, SongContent};
use vstd::prelude::*;

verus! {

/// How far the current tick has got.
#[derive(Debug, Clone, Copy, PartialEq, Eq, Structural)]
pub enum Phase {
    /// Between ticks.
    Idle,
    /// The access token had expired; its renewal is under way.
    Refreshing,
    /// The query is under way.
    Fetching,
    /// The query failed; the forced renewal is under way.
    Recovering,
    /// The one repeated query is under way.
    Retrying,
}

/// How a playback query ended.
#[derive(Debug)]
pub enum Fetched {
    /// The service answered: a track, or nothing playing. An answer that
    /// could not be decoded counts as nothing playing.
    Snapshot(Option<SongContent>),
    /// The service could not be reached or refused the query.
    Failed,
}

/// What the poller is told.
#[derive(Debug)]
pub enum PollEvent {
    /// The interval timer fired at `now`.
    Tick { now: u64 },
    /// The renewal the poller asked for ended in `outcome` at `now`.
    Refreshed { outcome: core::result::Result<TokenResponse, AuthError>, now: u64 },
    /// The query the poller asked for ended.
    Fetched(Fetched),
}

/// What the message that announces a snapshot carries.
#[derive(Debug, Clone, Copy, PartialEq, Eq, Structural)]
pub enum Payload {
    /// No payload: nothing is playing.
    Absent,
    /// The track, trimmed down to the fields of [`SongContent`].
    Compact,
    /// The document as the service sent it.
    Full,
}

/// The payload for a snapshot: none where nothing is playing, else the
/// trimmed track or the whole document, as the relay was set up.
pub open spec fn payload_for(snapshot: Option<SongContent>, compact: bool) -> Payload {
    if snapshot is None {
        Payload::Absent
    } else if compact {
        Payload::Compact
    } else {
        Payload::Full
    }
}

impl Payload {
    /// The bytes that the payload is read from: none for an absent
    /// payload, the trimmed track for a compact one, the body of the
    /// service's answer for a full one.
    pub open spec fn source(self, trimmed: Seq<u8>, body: Seq<u8>) -> Option<Seq<u8>> {
        match self {
            Payload::Absent => None,
            Payload::Compact => Some(trimmed),
            Payload::Full => Some(body),
        }
    }

    /// The text of the payload, given the trimmed track as JSON and the
    /// body of the service's answer. Bytes that turn out not to be JSON
    /// yield no payload, as if nothing were playing.
    pub fn text(self, trimmed: &[u8], body: &[u8]) -> (res: Option<JsonText>)
        ensures
            match self.source(trimmed@, body@) {
                Some(bytes) => match canonical_json(bytes) {
                    Some(text) => res matches Some(json) && json@ == text,
                    None => res is None,
                },
                None => res is None,
            },
    {
        let parsed = match self {
            Payload::Absent => {
                return None;
            },
            Payload::Compact => JsonText::parse(trimmed),
            Payload::Full => JsonText::parse(body),
        };
        match parsed {
            Ok(json) => Some(json),
            Err(_) => None,
        }
    }
}

/// What the poller wants done next.
#[derive(Debug)]
pub enum PollAction {
    /// Send this to the token endpoint and report back with
    /// [`PollEvent::Refreshed`].
    Refresh(TokenRequest),
    /// Query the playback state with this token and report back with
    /// [`PollEvent::Fetched`].
    Fetch { access_token: Option<String> },
    /// The snapshot just reported is news: publish it with this payload.
    /// The tick is over.
    Publish(Payload),
    /// The snapshot just reported is the one published last. The tick is over.
    Unchanged,
    /// Both queries of this tick failed. The tick is over.
    Skip,
    /// The event answers nothing the poller had asked for.
    Ignore,
}

/// Mathematical value of a [`Poller`].
pub struct PollerView {
    pub credential: Credential,
    /// The snapshot published last; `None` before the first publish and
    /// after "nothing playing" was published.
    pub previous: Option<SongContent>,
    pub phase: Phase,
    /// Whether subscribers get the trimmed track instead of the whole document.
    pub compact: bool,
}

impl PollerView {
    /// Start a query with the token in hand.
    pub open spec fn query(self, phase: Phase) -> (PollerView, PollAction) {
        (
            PollerView { phase, ..self },
            PollAction::Fetch { access_token: self.credential.access_token },
        )
    }

    /// Start a renewal if there is a refresh token to renew with; without
    /// one, go straight to the query with the token in hand.
    pub open spec fn renew(self, renewing: Phase, querying: Phase) -> (PollerView, PollAction) {
        match self.credential.refresh_token {
            Some(token) => (
                PollerView { phase: renewing, ..self },
                PollAction::Refresh(TokenRequest::RefreshToken { refresh_token: token }),
            ),
            None => self.query(querying),
        }
    }

    /// A tick begins: an expired token is renewed first, a good one is used
    /// as it is. While an earlier tick is under way nothing begins.
    pub open spec fn tick(self, now: u64) -> (PollerView, PollAction) {
        if self.phase != Phase::Idle {
            (self, PollAction::Ignore)
        } else if self.credential.expired_at(now) {
            self.renew(Phase::Refreshing, Phase::Fetching)
        } else {
            self.query(Phase::Fetching)
        }
    }

    /// A renewal ended: its outcome goes into the store, and the query
    /// follows whether or not a new token was obtained.
    pub open spec fn renewed(
        self,
        outcome: core::result::Result<TokenResponse, AuthError>,
        now: u64,
    ) -> (PollerView, PollAction) {
        let store = self.credential.refreshed(outcome, now);
        match self.phase {
            Phase::Refreshing => (PollerView { credential: store, ..self }).query(Phase::Fetching),
            Phase::Recovering => (PollerView { credential: store, ..self }).query(Phase::Retrying),
            _ => (self, PollAction::Ignore),
        }
    }

    /// A snapshot arrived: it is published if, and only if, it differs from
    /// the snapshot published last.
    pub open spec fn accept(self, snapshot: Option<SongContent>) -> (PollerView, PollAction) {
        if same_snapshot(snapshot_view(self.previous), snapshot_view(snapshot)) {
            (PollerView { phase: Phase::Idle, ..self }, PollAction::Unchanged)
        } else {
            (
                PollerView { previous: snapshot, phase: Phase::Idle, ..self },
                PollAction::Publish(payload_for(snapshot, self.compact)),
            )
        }
    }

    /// A query ended. A failed first query is followed by a forced renewal
    /// and one more query; a failed second query ends the tick.
    pub open spec fn fetched(self, result: Fetched) -> (PollerView, PollAction) {
        match self.phase {
            Phase::Fetching => match result {
                Fetched::Snapshot(snapshot) => self.accept(snapshot),
                Fetched::Failed => self.renew(Phase::Recovering, Phase::Retrying),
            },
            Phase::Retrying => match result {
                Fetched::Snapshot(snapshot) => self.accept(snapshot),
                Fetched::Failed => (PollerView { phase: Phase::Idle, ..self }, PollAction::Skip),
            },
            _ => (self, PollAction::Ignore),
        }
    }

    /// The poller after one event, and what it wants done.
    pub open spec fn step(self, event: PollEvent) -> (PollerView, PollAction) {
        match event {
            PollEvent::Tick { now } => self.tick(now),
            PollEvent::Refreshed { outcome, now } => self.renewed(outcome, now),
            PollEvent::Fetched(result) => self.fetched(result),
        }
    }
}

/// The poller: the credential store, the snapshot published last, and the
/// phase of the current tick.
#[derive(Debug)]
pub struct Poller {
    credential: Credential,
    previous: Option<SongContent>,
    phase: Phase,
    compact: bool,
}

impl View for Poller {
    type V = PollerView;

    closed spec fn view(&self) -> PollerView {
        PollerView {
            credential: self.credential,
            previous: self.previous,
            phase: self.phase,
            compact: self.compact,
        }
    }
}

impl Poller {
    /// A poller between ticks that has published nothing yet. With
    /// `compact` set, subscribers get the trimmed track instead of the
    /// whole document.
    pub fn new(credential: Credential, compact: bool) -> (res: Poller)
        ensures
            res@ == (PollerView { credential, previous: None, phase: Phase::Idle, compact }),
    {
        Poller { credential, previous: None, phase: Phase::Idle, compact }
    }

    /// The snapshot published last.
    pub fn last_published(&self) -> (res: &Option<SongContent>)
        ensures
            *res == self@.previous,
    {
        &self.previous
    }

    /// The credential store.
    pub fn credential(&self) -> (res: &Credential)
        ensures
            *res == self@.credential,
    {
        &self.credential
    }

    /// How far the current tick has got.
    pub fn phase(&self) -> (res: Phase)
        ensures
            res == self@.phase,
    {
        self.phase
    }

    fn query(&mut self, phase: Phase) -> (action: PollAction)
        ensures
            (final(self)@, action) == old(self)@.query(phase),
    {
        self.phase = phase;
        PollAction::Fetch { access_token: clone_text(&self.credential.access_token) }
    }

    fn renew(&mut self, renewing: Phase, querying: Phase) -> (action: PollAction)
        ensures
            (final(self)@, action) == old(self)@.renew(renewing, querying),
    {
        match self.credential.refresh_request() {
            Ok(request) => {
                self.phase = renewing;
                PollAction::Refresh(request)
            },
            Err(_) => self.query(querying),
        }
    }

    fn accept(&mut self, snapshot: Option<SongContent>) -> (action: PollAction)
        ensures
            (final(self)@, action) == old(self)@.accept(snapshot),
    {
        self.phase = Phase::Idle;
        if snapshots_match(&self.previous, &snapshot) {
            PollAction::Unchanged
        } else {
            let payload = if snapshot.is_none() {
                Payload::Absent
            } else if self.compact {
                Payload::Compact
            } else {
                Payload::Full
            };
            self.previous = snapshot;
            PollAction::Publish(payload)
        }
    }

    /// Takes one event and says what to do next.
    pub fn step(&mut self, event: PollEvent) -> (action: PollAction)
        ensures
            (final(self)@, action) == old(self)@.step(event),
    {
        match event {
            PollEvent::Tick { now } => {
                if self.phase != Phase::Idle {
                    PollAction::Ignore
                } else if self.credential.is_expired(now) {
                    self.renew(Phase::Refreshing, Phase::Fetching)
                } else {
                    self.query(Phase::Fetching)
                }
            },
            PollEvent::Refreshed { outcome, now } => match self.phase {
                Phase::Refreshing => {
                    let _ = self.credential.refresh(outcome, now);
                    self.query(Phase::Fetching)
                },
                Phase::Recovering => {
                    let _ = self.credential.refresh(outcome, now);
                    self.query(Phase::Retrying)
                },
                _ => PollAction::Ignore,
            },
            PollEvent::Fetched(result) => match self.phase {
                Phase::Fetching => match result {
                    Fetched::Snapshot(snapshot) => self.accept(snapshot),
                    Fetched::Failed => self.renew(Phase::Recovering, Phase::Retrying),
                },
                Phase::Retrying => match result {
                    Fetched::Snapshot(snapshot) => self.accept(snapshot),
                    Fetched::Failed => {
                        self.phase = Phase::Idle;
                        PollAction::Skip
                    },
                },
                _ => PollAction::Ignore,
            },
        }
    }
}

/// The poller after a run of events.
pub open spec fn run(p: PollerView, events: Seq<PollEvent>) -> PollerView
    decreases events.len(),
{
    if events.len() == 0 {
        p
    } else {
        run(p, events.drop_last()).step(events.last()).0
    }
}

/// The snapshots that a run of events had published, oldest first.
pub open spec fn broadcasts(p: PollerView, events: Seq<PollEvent>) -> Seq<Option<SongContent>>
    decreases events.len(),
{
    if events.len() == 0 {
        Seq::empty()
    } else {
        let earlier = broadcasts(p, events.drop_last());
        let (after, action) = run(p, events.drop_last()).step(events.last());
        if action is Publish {
            earlier.push(after.previous)
        } else {
            earlier
        }
    }
}

/// How many more queries the current tick can still start.
pub open spec fn queries_left(phase: Phase) -> nat {
    match phase {
        Phase::Refreshing => 2,
        Phase::Fetching => 1,
        Phase::Recovering => 1,
        Phase::Retrying => 0,
        Phase::Idle => 0,
    }
}

/// A snapshot that arrives in answer to a query is published if, and only
/// if, it differs from the snapshot published last. What is published
/// becomes the snapshot published last; what is not leaves it untouched.
pub proof fn lemma_publish_iff_changed(p: PollerView, snapshot: Option<SongContent>)
    requires
        p.phase == Phase::Fetching || p.phase == Phase::Retrying,
    ensures
        ({
            let (after, action) = p.step(PollEvent::Fetched(Fetched::Snapshot(snapshot)));
            let same = same_snapshot(snapshot_view(p.previous), snapshot_view(snapshot));
            &&& action is Publish <==> !same
            &&& action is Unchanged <==> same
            &&& action is Publish ==> {
                &&& after.previous == snapshot
                &&& action == PollAction::Publish(payload_for(snapshot, p.compact))
            }
            &&& action is Unchanged ==> after.previous == p.previous
            &&& after.phase == Phase::Idle
            &&& after.credential == p.credential
        }),
{
}

/// Nothing but a publish moves the snapshot published last, and nothing is
/// published but a snapshot that has just arrived and differs from it.
pub proof fn lemma_previous_follows_publishes(p: PollerView, event: PollEvent)
    ensures
        ({
            let (after, action) = p.step(event);
            &&& !(action is Publish) ==> after.previous == p.previous
            &&& action is Publish ==> {
                &&& event == PollEvent::Fetched(Fetched::Snapshot(after.previous))
                &&& !same_snapshot(snapshot_view(p.previous), snapshot_view(after.previous))
            }
        }),
{
}

/// Over any run of events, only changes are published: each published
/// snapshot differs from the one published before it (the first from the
/// one the run started with), and the poller always holds the snapshot it
/// published last.
pub proof fn lemma_broadcasts_are_changes(p: PollerView, events: Seq<PollEvent>)
    ensures
        ({
            let out = broadcasts(p, events);
            &&& run(p, events).previous == (if out.len() == 0 {
                p.previous
            } else {
                out.last()
            })
            &&& forall|i: int|
                0 <= i < out.len() ==> !same_snapshot(
                    snapshot_view(
                        if i == 0 {
                            p.previous
                        } else {
                            out[i - 1]
                        },
                    ),
                    snapshot_view(#[trigger] out[i]),
                )
        }),
    decreases events.len(),
{
    if events.len() > 0 {
        lemma_broadcasts_are_changes(p, events.drop_last());
        lemma_previous_follows_publishes(run(p, events.drop_last()), events.last());
    }
}

/// The event that a phase is waiting for: a tick between ticks, the
/// outcome of a renewal while one is under way, the outcome of a query
/// while one is under way.
pub open spec fn awaited(phase: Phase, event: PollEvent) -> bool {
    match phase {
        Phase::Idle => event is Tick,
        Phase::Refreshing | Phase::Recovering => event is Refreshed,
        Phase::Fetching | Phase::Retrying => event is Fetched,
    }
}

/// How many more events the current tick can take before it is over.
pub open spec fn steps_left(phase: Phase) -> nat {
    match phase {
        Phase::Refreshing => 4,
        Phase::Fetching => 3,
        Phase::Recovering => 2,
        Phase::Retrying => 1,
        Phase::Idle => 0,
    }
}

/// A renewal succeeded.
pub open spec fn is_successful_renewal(event: PollEvent) -> bool {
    event matches PollEvent::Refreshed { outcome, .. } && outcome is Ok
}

/// An event that the poller is not waiting for changes nothing and asks
/// for nothing.
pub proof fn lemma_unawaited_is_ignored(p: PollerView, event: PollEvent)
    requires
        !awaited(p.phase, event),
    ensures
        p.step(event) == (p, PollAction::Ignore),
{
}

/// Every tick comes to an end: each event that the poller is waiting for
/// during a tick brings the tick closer to its end, which is at most four
/// events away, and the poller asks for more exactly as long as the tick
/// is not over.
pub proof fn lemma_tick_ends(p: PollerView, event: PollEvent)
    requires
        awaited(p.phase, event),
    ensures
        ({
            let (after, action) = p.step(event);
            &&& p.phase != Phase::Idle ==> steps_left(after.phase) < steps_left(p.phase)
            &&& after.phase != Phase::Idle <==> (action is Fetch || action is Refresh)
            &&& after.phase == Phase::Idle <==> (action is Publish || action is Unchanged
                || action is Skip)
            &&& (after.phase == Phase::Refreshing || after.phase == Phase::Recovering)
                <==> action is Refresh
            &&& (after.phase == Phase::Fetching || after.phase == Phase::Retrying)
                <==> action is Fetch
        }),
{
}

/// Renewals are never under way side by side: while the poller waits for
/// the outcome of one, no event makes it ask for another.
pub proof fn lemma_renewals_are_serialized(p: PollerView, event: PollEvent)
    requires
        p.phase == Phase::Refreshing || p.phase == Phase::Recovering,
    ensures
        !(p.step(event).1 is Refresh),
{
}

/// A query always goes out with the token that the store holds at that
/// moment, and a renewal with the refresh token that it holds.
pub proof fn lemma_requests_use_the_store(p: PollerView, event: PollEvent)
    ensures
        ({
            let (after, action) = p.step(event);
            &&& action matches PollAction::Fetch { access_token } ==> access_token
                == after.credential.access_token
            &&& action matches PollAction::Refresh(request) ==> after.credential.refresh_token
                matches Some(token) && request == (TokenRequest::RefreshToken {
                refresh_token: token,
            })
        }),
{
}

/// A tick between ticks leads to a query: it either starts the query or
/// starts a renewal, and a renewal, however it ends, is followed by the
/// query. A token that is still good is used as it is; an expired one is
/// renewed first wherever there is something to renew it with.
pub proof fn lemma_tick_always_queries(
    p: PollerView,
    now: u64,
    outcome: core::result::Result<TokenResponse, AuthError>,
    renewed_at: u64,
)
    requires
        p.phase == Phase::Idle,
    ensures
        ({
            let (after, action) = p.step(PollEvent::Tick { now });
            &&& action is Fetch || action is Refresh
            &&& action is Refresh <==> p.credential.expired_at(now) && p.credential.refresh_token
                is Some
            &&& action is Fetch ==> action == (PollAction::Fetch {
                access_token: p.credential.access_token,
            })
            &&& action is Refresh ==> after.step(
                PollEvent::Refreshed { outcome, now: renewed_at },
            ).1 is Fetch
            &&& after.credential == p.credential
            &&& after.previous == p.previous
        }),
{
}

/// A successful renewal is used at once: the query that follows carries
/// the token that the renewal brought, and the store counts it as obtained
/// at the time of the renewal.
pub proof fn lemma_query_uses_new_token(p: PollerView, response: TokenResponse, now: u64)
    requires
        p.phase == Phase::Refreshing || p.phase == Phase::Recovering,
        p.credential.refresh_token is Some,
    ensures
        p.step(PollEvent::Refreshed { outcome: Ok(response), now }).1 == (PollAction::Fetch {
            access_token: Some(response.access_token),
        }),
        p.step(PollEvent::Refreshed { outcome: Ok(response), now }).0.credential.fetched_at
            == now,
{
}

/// A renewal that fails does not stop the poller: the query follows with
/// the token that was in hand, and the store is as it was.
pub proof fn lemma_failed_refresh_still_queries(p: PollerView, error: AuthError, failed_at: u64)
    requires
        p.phase == Phase::Refreshing || p.phase == Phase::Recovering,
    ensures
        ({
            let (after, action) = p.step(
                PollEvent::Refreshed { outcome: Err(error), now: failed_at },
            );
            &&& after.credential == p.credential
            &&& after.previous == p.previous
            &&& action == (PollAction::Fetch { access_token: p.credential.access_token })
            &&& after.phase == (if p.phase == Phase::Refreshing {
                Phase::Fetching
            } else {
                Phase::Retrying
            })
        }),
{
}

/// As long as no renewal succeeds, the store stays exactly as it is, through
/// any run of events: failed renewals, failed queries and snapshots alike.
pub proof fn lemma_store_changes_only_on_renewal(p: PollerView, events: Seq<PollEvent>)
    requires
        forall|i: int| 0 <= i < events.len() ==> !is_successful_renewal(#[trigger] events[i]),
    ensures
        run(p, events).credential == p.credential,
    decreases events.len(),
{
    if events.len() > 0 {
        let earlier = events.drop_last();
        assert forall|i: int| 0 <= i < earlier.len() implies !is_successful_renewal(
            #[trigger] earlier[i],
        ) by {
            assert(earlier[i] == events[i]);
        }
        lemma_store_changes_only_on_renewal(p, earlier);
    }
}

/// When renewals keep failing, the poller keeps going: whatever has
/// happened without a successful renewal, each tick that finds the poller
/// between ticks asks for a renewal again if the token has expired and
/// there is a refresh token, and queries with the old token otherwise.
pub proof fn lemma_exhausted_refresh_keeps_polling(
    p: PollerView,
    events: Seq<PollEvent>,
    now: u64,
)
    requires
        forall|i: int| 0 <= i < events.len() ==> !is_successful_renewal(#[trigger] events[i]),
        run(p, events).phase == Phase::Idle,
    ensures
        ({
            let action = run(p, events).step(PollEvent::Tick { now }).1;
            match p.credential.refresh_token {
                Some(token) if p.credential.expired_at(now) => action == PollAction::Refresh(
                    TokenRequest::RefreshToken { refresh_token: token },
                ),
                _ => action == (PollAction::Fetch { access_token: p.credential.access_token }),
            }
        }),
{
    lemma_store_changes_only_on_renewal(p, events);
}

/// An access token, once held, is never given up: no event leaves the
/// store without one.
pub proof fn lemma_access_token_is_never_lost(p: PollerView, event: PollEvent)
    requires
        p.credential.access_token is Some,
    ensures
        p.step(event).0.credential.access_token is Some,
{
}

/// A failed query is tried again once, and once only: each query started
/// uses up one of the queries the tick can still start, a tick starts with
/// at most two, and a second failure ends the tick without a publish.
pub proof fn lemma_retry_is_bounded(p: PollerView, event: PollEvent)
    ensures
        ({
            let (after, action) = p.step(event);
            let started: nat = if action is Fetch {
                1
            } else {
                0
            };
            &&& p.phase != Phase::Idle ==> queries_left(after.phase) + started <= queries_left(
                p.phase,
            )
            &&& p.phase == Phase::Idle ==> queries_left(after.phase) + started <= 2
        }),
        p.phase == Phase::Retrying ==> p.step(PollEvent::Fetched(Fetched::Failed)) == (
            PollerView { phase: Phase::Idle, ..p },
            PollAction::Skip,
        ),
        p.phase == Phase::Fetching ==> !(p.step(PollEvent::Fetched(Fetched::Failed)).1 is Skip),
{
}

} // verus!
