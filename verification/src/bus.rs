//! The change bus: a single slot that holds the latest snapshot and counts
//! how often it has been replaced.
//!
//! One producer publishes; any number of consumers look. There is no queue:
//! a consumer that was away for several publishes finds only the latest
//! value, and learns from the version that it missed something.

use crate::song::Song;
use vstd::prelude::*;

verus! {

/// Mathematical value of a [`ChangeBus`].
pub struct BusView {
    /// The value published last, or the absent snapshot before any publish.
    pub latest: Song,
    /// How many values have been published.
    pub version: u64,
}

impl BusView {
    /// What a consumer that has seen everything up to `since_version` is
    /// handed: the latest value with its version if anything was published
    /// since, nothing otherwise.
    pub open spec fn change_since(self, since_version: u64) -> Option<(u64, Song)> {
        if self.version > since_version {
            Some((self.version, self.latest))
        } else {
            None
        }
    }

    /// The bus after `value` has been published.
    pub open spec fn published(self, value: Song) -> BusView
        recommends
            self.version < u64::MAX,
    {
        BusView { latest: value, version: (self.version + 1) as u64 }
    }
}

/// The latest snapshot together with its version.
#[derive(Debug)]
pub struct ChangeBus {
    latest: Song,
    version: u64,
}

impl View for ChangeBus {
    type V = BusView;

    closed spec fn view(&self) -> BusView {
        BusView { latest: self.latest, version: self.version }
    }
}

impl ChangeBus {
    /// A bus on which nothing has been published yet.
    pub fn new() -> (res: ChangeBus)
        ensures
            res@.version == 0,
            res@.latest@ == (crate::song::SongView { data: None, fetched: 0 }),
    {
        ChangeBus { latest: Song::absent(), version: 0 }
    }

    /// Replaces the latest value and moves the version on by one. Value and
    /// version change together: no state of the bus pairs the new version
    /// with the old value.
    pub fn publish(&mut self, value: Song)
        requires
            old(self)@.version < u64::MAX,
        ensures
            final(self)@ == old(self)@.published(value),
    {
        self.latest = value;
        self.version = self.version + 1;
    }

    /// Publishes `value` unless the version counter has run out. Says
    /// whether the value was published; where it was not, the bus is as it
    /// was.
    pub fn try_publish(&mut self, value: Song) -> (done: bool)
        ensures
            done == (old(self)@.version < u64::MAX),
            final(self)@ == (if done {
                old(self)@.published(value)
            } else {
                old(self)@
            }),
    {
        if self.version < u64::MAX {
            self.publish(value);
            true
        } else {
            false
        }
    }

    /// The latest value, at once.
    pub fn snapshot(&self) -> (res: &Song)
        ensures
            *res == self@.latest,
    {
        &self.latest
    }

    /// How many values have been published.
    pub fn version(&self) -> (res: u64)
        ensures
            res == self@.version,
    {
        self.version
    }

    /// One look of a consumer that waits for a change: the latest value and
    /// its version if the bus has moved past `since_version`, `None` if the
    /// consumer has to go on waiting.
    pub fn wait_for_change(&self, since_version: u64) -> (res: Option<(u64, &Song)>)
        ensures
            match res {
                Some((version, value)) => self@.change_since(since_version) == Some(
                    (version, *value),
                ),
                None => self@.change_since(since_version) is None,
            },
    {
        if self.version > since_version {
            Some((self.version, &self.latest))
        } else {
            None
        }
    }
}

impl Clone for ChangeBus {
    fn clone(&self) -> (res: Self)
        ensures
            res@ == self@,
    {
        ChangeBus { latest: self.latest.clone(), version: self.version }
    }
}

/// A consumer is never handed a version it has already seen: what comes
/// back is newer than what was asked about, and asking again about the
/// version that came back yields nothing until the next publish.
pub proof fn lemma_no_redelivery(bus: BusView, since_version: u64)
    ensures
        bus.change_since(since_version) matches Some((version, value)) ==> {
            &&& version > since_version
            &&& version == bus.version
            &&& value == bus.latest
            &&& bus.change_since(version) is None
        },
{
}

/// Asking about a later version never brings back more than asking about
/// an earlier one: once a version has been seen, no question from there on
/// delivers it again.
pub proof fn lemma_seen_stays_seen(bus: BusView, seen: u64, later: u64)
    requires
        bus.change_since(seen) is None,
        seen <= later,
    ensures
        bus.change_since(later) is None,
{
}

/// Every publish is seen by every consumer that had not run ahead of the
/// bus, and what it sees is the value just published.
pub proof fn lemma_publish_wakes(bus: BusView, value: Song, since_version: u64)
    requires
        bus.version < u64::MAX,
        since_version <= bus.version,
    ensures
        bus.published(value).change_since(since_version) == Some(
            ((bus.version + 1) as u64, value),
        ),
{
}

/// Versions only grow: a publish moves the version up by exactly one.
pub proof fn lemma_version_grows(bus: BusView, value: Song)
    requires
        bus.version < u64::MAX,
    ensures
        bus.published(value).version == bus.version + 1,
        bus.published(value).latest == value,
{
}

/// The bus after a series of publishes, oldest first.
pub open spec fn published_all(bus: BusView, values: Seq<Song>) -> BusView
    decreases values.len(),
{
    if values.len() == 0 {
        bus
    } else {
        published_all(bus, values.drop_last()).published(values.last())
    }
}

/// The version counts the publishes, and the bus holds the value of the
/// last one: after any series of publishes that the counter has room for,
/// the version has grown by their number, so a consumer that looks before
/// and after never sees it go down, and the latest value is the one
/// published last.
pub proof fn lemma_version_counts_publishes(bus: BusView, values: Seq<Song>)
    requires
        bus.version + values.len() <= u64::MAX,
    ensures
        published_all(bus, values).version == bus.version + values.len(),
        published_all(bus, values).latest == (if values.len() == 0 {
            bus.latest
        } else {
            values.last()
        }),
    decreases values.len(),
{
    if values.len() > 0 {
        lemma_version_counts_publishes(bus, values.drop_last());
    }
}

} // verus!
