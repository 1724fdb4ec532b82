//! The track data model and its comparison rules.
//!
//! Every type has a mathematical view in which text is a sequence of
//! characters. `==` on the executable types compares those views, with one
//! deliberate exception: [`SongContentMetadata`] leaves the playback
//! position out, so that a track that merely advances compares equal to
//! itself.

use crate::json::JsonText;
use vstd::prelude::*;
use vstd::std_specs::cmp::PartialEqSpecImpl;
use vstd::string::StringExecFns;
use vstd::std_specs::convert::FromSpecImpl;

verus! {

/// One cover image of an album, as the upstream service lists it.
#[derive(Debug)]
pub struct Image {
    pub height: i64,
    pub url: String,
    pub width: i64,
}

/// Mathematical value of an [`Image`].
pub struct ImageView {
    pub height: i64,
    pub url: Seq<char>,
    pub width: i64,
}

impl View for Image {
    type V = ImageView;

    open spec fn view(&self) -> ImageView {
        ImageView { height: self.height, url: self.url@, width: self.width }
    }
}

impl Clone for Image {
    fn clone(&self) -> (res: Self)
        ensures
            res == *self,
    {
        Image { height: self.height, url: self.url.clone(), width: self.width }
    }
}

impl PartialEq for Image {
    fn eq(&self, other: &Self) -> (r: bool) {
        self.height == other.height && self.url == other.url && self.width == other.width
    }
}

impl PartialEqSpecImpl for Image {
    open spec fn obeys_eq_spec() -> bool {
        true
    }

    open spec fn eq_spec(&self, other: &Self) -> bool {
        self@ == other@
    }
}

/// A performer credited on a track.
#[derive(Debug)]
pub struct Artist {
    pub id: String,
    pub name: String,
}

/// Mathematical value of an [`Artist`].
pub struct ArtistView {
    pub id: Seq<char>,
    pub name: Seq<char>,
}

impl View for Artist {
    type V = ArtistView;

    open spec fn view(&self) -> ArtistView {
        ArtistView { id: self.id@, name: self.name@ }
    }
}

impl Clone for Artist {
    fn clone(&self) -> (res: Self)
        ensures
            res == *self,
    {
        Artist { id: self.id.clone(), name: self.name.clone() }
    }
}

impl PartialEq for Artist {
    fn eq(&self, other: &Self) -> (r: bool) {
        self.id == other.id && self.name == other.name
    }
}

impl PartialEqSpecImpl for Artist {
    open spec fn obeys_eq_spec() -> bool {
        true
    }

    open spec fn eq_spec(&self, other: &Self) -> bool {
        self@ == other@
    }
}

/// The album a track belongs to; `image` is the address of its tallest cover.
#[derive(Debug)]
pub struct Album {
    pub id: String,
    pub image: String,
    pub name: String,
}

/// Mathematical value of an [`Album`].
pub struct AlbumView {
    pub id: Seq<char>,
    pub image: Seq<char>,
    pub name: Seq<char>,
}

impl View for Album {
    type V = AlbumView;

    open spec fn view(&self) -> AlbumView {
        AlbumView { id: self.id@, image: self.image@, name: self.name@ }
    }
}

impl Clone for Album {
    fn clone(&self) -> (res: Self)
        ensures
            res == *self,
    {
        Album { id: self.id.clone(), image: self.image.clone(), name: self.name.clone() }
    }
}

impl PartialEq for Album {
    fn eq(&self, other: &Self) -> (r: bool) {
        self.id == other.id && self.image == other.image && self.name == other.name
    }
}

impl PartialEqSpecImpl for Album {
    open spec fn obeys_eq_spec() -> bool {
        true
    }

    open spec fn eq_spec(&self, other: &Self) -> bool {
        self@ == other@
    }
}

/// The views of a list of artists, in order.
pub open spec fn artist_views(artists: Seq<Artist>) -> Seq<ArtistView> {
    Seq::new(artists.len(), |i: int| artists[i]@)
}

/// The track itself.
#[derive(Debug)]
pub struct Item {
    pub id: String,
    pub album: Album,
    pub artists: Vec<Artist>,
    pub duration_ms: i64,
    pub name: String,
}

/// Mathematical value of an [`Item`].
pub struct ItemView {
    pub id: Seq<char>,
    pub album: AlbumView,
    pub artists: Seq<ArtistView>,
    pub duration_ms: i64,
    pub name: Seq<char>,
}

impl View for Item {
    type V = ItemView;

    open spec fn view(&self) -> ItemView {
        ItemView {
            id: self.id@,
            album: self.album@,
            artists: artist_views(self.artists@),
            duration_ms: self.duration_ms,
            name: self.name@,
        }
    }
}

/// Copies a list of artists.
fn clone_artists(artists: &Vec<Artist>) -> (res: Vec<Artist>)
    ensures
        res@ == artists@,
{
    let mut res: Vec<Artist> = Vec::new();
    let mut i: usize = 0;
    while i < artists.len()
        invariant
            i <= artists.len(),
            res@ == artists@.subrange(0, i as int),
        decreases artists.len() - i,
    {
        res.push(artists[i].clone());
        i = i + 1;
    }
    res
}

/// Whether two lists of artists hold the same artists in the same order.
fn same_artists(a: &Vec<Artist>, b: &Vec<Artist>) -> (r: bool)
    ensures
        r == (artist_views(a@) == artist_views(b@)),
{
    if a.len() != b.len() {
        assert(artist_views(a@).len() != artist_views(b@).len());
        return false;
    }
    let mut i: usize = 0;
    while i < a.len()
        invariant
            i <= a.len(),
            a.len() == b.len(),
            forall|j: int| 0 <= j < i ==> a@[j]@ == b@[j]@,
        decreases a.len() - i,
    {
        if !(a[i] == b[i]) {
            assert(artist_views(a@)[i as int] != artist_views(b@)[i as int]);
            return false;
        }
        i = i + 1;
    }
    assert(artist_views(a@) =~= artist_views(b@));
    true
}

impl Clone for Item {
    fn clone(&self) -> (res: Self)
        ensures
            res@ == self@,
    {
        Item {
            id: self.id.clone(),
            album: self.album.clone(),
            artists: clone_artists(&self.artists),
            duration_ms: self.duration_ms,
            name: self.name.clone(),
        }
    }
}

impl PartialEq for Item {
    fn eq(&self, other: &Self) -> (r: bool) {
        self.id == other.id && self.album == other.album && same_artists(
            &self.artists,
            &other.artists,
        ) && self.duration_ms == other.duration_ms && self.name == other.name
    }
}

impl PartialEqSpecImpl for Item {
    open spec fn obeys_eq_spec() -> bool {
        true
    }

    open spec fn eq_spec(&self, other: &Self) -> bool {
        self@ == other@
    }
}

/// What the upstream service says about the playback itself.
#[derive(Debug)]
pub struct SongContentMetadata {
    pub currently_playing_type: String,
    pub is_playing: bool,
    pub progress_ms: i64,
}

/// Mathematical value of a [`SongContentMetadata`].
pub struct SongContentMetadataView {
    pub currently_playing_type: Seq<char>,
    pub is_playing: bool,
    pub progress_ms: i64,
}

impl View for SongContentMetadata {
    type V = SongContentMetadataView;

    open spec fn view(&self) -> SongContentMetadataView {
        SongContentMetadataView {
            currently_playing_type: self.currently_playing_type@,
            is_playing: self.is_playing,
            progress_ms: self.progress_ms,
        }
    }
}

impl SongContentMetadataView {
    /// Equal in everything but the playback position.
    pub open spec fn same_playback(self, other: SongContentMetadataView) -> bool {
        &&& self.currently_playing_type == other.currently_playing_type
        &&& self.is_playing == other.is_playing
    }
}

impl Clone for SongContentMetadata {
    fn clone(&self) -> (res: Self)
        ensures
            res == *self,
    {
        SongContentMetadata {
            currently_playing_type: self.currently_playing_type.clone(),
            is_playing: self.is_playing,
            progress_ms: self.progress_ms,
        }
    }
}

/// The playback position is left out of the comparison: it moves on every
/// poll, and a track that only advances is still the same track.
impl PartialEq for SongContentMetadata {
    fn eq(&self, other: &Self) -> (r: bool) {
        self.currently_playing_type == other.currently_playing_type && self.is_playing
            == other.is_playing
    }
}

impl PartialEqSpecImpl for SongContentMetadata {
    open spec fn obeys_eq_spec() -> bool {
        true
    }

    open spec fn eq_spec(&self, other: &Self) -> bool {
        self@.same_playback(other@)
    }
}

/// The upstream answer in its wire shape: playback fields at the top, the
/// track nested under its own key.
#[derive(Debug)]
pub struct SongContentUnflatten {
    pub metadata: SongContentMetadata,
    pub item: Item,
}

/// The upstream answer as it is relayed: playback fields and track fields side by side.
#[derive(Debug)]
pub struct SongContent {
    pub metadata: SongContentMetadata,
    pub item: Item,
}

/// Mathematical value of a [`SongContent`] and of a [`SongContentUnflatten`].
pub struct SongContentView {
    pub metadata: SongContentMetadataView,
    pub item: ItemView,
}

impl SongContentView {
    /// The same track in the same playback state, wherever the playback
    /// position stands.
    pub open spec fn same_track(self, other: SongContentView) -> bool {
        &&& self.metadata.same_playback(other.metadata)
        &&& self.item == other.item
    }
}

impl View for SongContentUnflatten {
    type V = SongContentView;

    open spec fn view(&self) -> SongContentView {
        SongContentView { metadata: self.metadata@, item: self.item@ }
    }
}

impl View for SongContent {
    type V = SongContentView;

    open spec fn view(&self) -> SongContentView {
        SongContentView { metadata: self.metadata@, item: self.item@ }
    }
}

impl Clone for SongContentUnflatten {
    fn clone(&self) -> (res: Self)
        ensures
            res@ == self@,
    {
        SongContentUnflatten { metadata: self.metadata.clone(), item: self.item.clone() }
    }
}

impl Clone for SongContent {
    fn clone(&self) -> (res: Self)
        ensures
            res@ == self@,
    {
        SongContent { metadata: self.metadata.clone(), item: self.item.clone() }
    }
}

impl PartialEq for SongContentUnflatten {
    fn eq(&self, other: &Self) -> (r: bool) {
        self.metadata == other.metadata && self.item == other.item
    }
}

impl PartialEqSpecImpl for SongContentUnflatten {
    open spec fn obeys_eq_spec() -> bool {
        true
    }

    open spec fn eq_spec(&self, other: &Self) -> bool {
        self@.same_track(other@)
    }
}

impl PartialEq for SongContent {
    fn eq(&self, other: &Self) -> (r: bool) {
        self.metadata == other.metadata && self.item == other.item
    }
}

impl PartialEqSpecImpl for SongContent {
    open spec fn obeys_eq_spec() -> bool {
        true
    }

    open spec fn eq_spec(&self, other: &Self) -> bool {
        self@.same_track(other@)
    }
}

impl From<SongContentUnflatten> for SongContent {
    fn from(s: SongContentUnflatten) -> (res: Self) {
        Self { metadata: s.metadata, item: s.item }
    }
}

impl FromSpecImpl<SongContentUnflatten> for SongContent {
    open spec fn obeys_from_spec() -> bool {
        true
    }

    open spec fn from_spec(s: SongContentUnflatten) -> Self {
        SongContent { metadata: s.metadata, item: s.item }
    }
}

/// Whether two poll results count as the same snapshot: both report that
/// nothing is playing, or both report the same track in the same playback
/// state.
pub open spec fn same_snapshot(a: Option<SongContentView>, b: Option<SongContentView>) -> bool {
    match (a, b) {
        (None, None) => true,
        (Some(x), Some(y)) => x.same_track(y),
        _ => false,
    }
}

/// The view of a poll result.
pub open spec fn snapshot_view(s: Option<SongContent>) -> Option<SongContentView> {
    match s {
        None => None,
        Some(c) => Some(c@),
    }
}

/// Being the same snapshot is an equivalence: every snapshot is the same
/// as itself, and sameness carries over in both directions and along
/// chains.
pub proof fn lemma_same_snapshot_is_equivalence(
    a: Option<SongContentView>,
    b: Option<SongContentView>,
    c: Option<SongContentView>,
)
    ensures
        same_snapshot(a, a),
        same_snapshot(a, b) ==> same_snapshot(b, a),
        same_snapshot(a, b) && same_snapshot(b, c) ==> same_snapshot(a, c),
{
}

/// The playback position is noise: a track whose position alone has moved
/// is the same snapshot as before.
pub proof fn lemma_progress_is_noise(track: SongContentView, progress_ms: i64)
    ensures
        same_snapshot(
            Some(track),
            Some(
                SongContentView {
                    metadata: SongContentMetadataView { progress_ms, ..track.metadata },
                    ..track
                },
            ),
        ),
{
}

/// Anything but the playback position counts: two tracks that differ in
/// the kind of playback, in whether it is running, or in the track itself
/// are different snapshots, and a track is never the same snapshot as
/// "nothing playing".
pub proof fn lemma_changes_are_seen(a: SongContentView, b: SongContentView)
    ensures
        a.metadata.currently_playing_type != b.metadata.currently_playing_type ==> !same_snapshot(
            Some(a),
            Some(b),
        ),
        a.metadata.is_playing != b.metadata.is_playing ==> !same_snapshot(Some(a), Some(b)),
        a.item != b.item ==> !same_snapshot(Some(a), Some(b)),
        !same_snapshot(Some(a), None),
        !same_snapshot(None, Some(a)),
{
}

/// Decides [`same_snapshot`] on two poll results.
pub fn snapshots_match(a: &Option<SongContent>, b: &Option<SongContent>) -> (r: bool)
    ensures
        r == same_snapshot(snapshot_view(*a), snapshot_view(*b)),
{
    match (a, b) {
        (None, None) => true,
        (Some(x), Some(y)) => x == y,
        _ => false,
    }
}

/// `k` is the position of the first image of greatest height.
pub open spec fn is_first_tallest(images: Seq<Image>, k: int) -> bool {
    &&& 0 <= k < images.len()
    &&& forall|j: int| 0 <= j < images.len() ==> images[j].height <= images[k].height
    &&& forall|j: int| 0 <= j < k ==> images[j].height < images[k].height
}

/// An album came without a single cover image.
#[derive(Debug, Clone, Copy, PartialEq, Eq, Structural)]
pub struct NoImage;

impl NoImage {
    /// The text under which the failure is reported.
    pub fn message(&self) -> (res: &'static str)
        ensures
            res@ == "external_urls does not exist"@,
    {
        "external_urls does not exist"
    }
}

/// Picks the cover that stands for an album: the address of the tallest
/// image, and of the earliest one where several are equally tall. An empty
/// list has no such image.
pub fn extract_image(images: &Vec<Image>) -> (res: core::result::Result<String, NoImage>)
    ensures
        res is Err <==> images@.len() == 0,
        res matches Ok(url) ==> exists|k: int|
            is_first_tallest(images@, k) && url@ == (#[trigger] images@[k]).url@,
{
    if images.len() == 0 {
        return Err(NoImage);
    }
    let mut best: usize = 0;
    let mut i: usize = 1;
    while i < images.len()
        invariant
            1 <= i <= images.len(),
            is_first_tallest(images@.subrange(0, i as int), best as int),
        decreases images.len() - i,
    {
        if images[i].height > images[best].height {
            best = i;
        }
        i = i + 1;
    }
    assert(images@.subrange(0, i as int) =~= images@);
    Ok(images[best].url.clone())
}

/// The character that stands for a decimal digit.
pub open spec fn digit_char(d: nat) -> char {
    if d == 0 {
        '0'
    } else if d == 1 {
        '1'
    } else if d == 2 {
        '2'
    } else if d == 3 {
        '3'
    } else if d == 4 {
        '4'
    } else if d == 5 {
        '5'
    } else if d == 6 {
        '6'
    } else if d == 7 {
        '7'
    } else if d == 8 {
        '8'
    } else {
        '9'
    }
}

/// A number in decimal notation, without sign or leading zeros.
pub open spec fn decimal(n: nat) -> Seq<char>
    decreases n,
{
    if n < 10 {
        seq![digit_char(n)]
    } else {
        decimal(n / 10).push(digit_char(n % 10))
    }
}

/// The message that carries a snapshot to a subscriber: an object with the
/// payload under `data` (`null` where nothing is playing) and the time of
/// the poll under `fetched`.
pub open spec fn envelope(data: Option<Seq<char>>, fetched: nat) -> Seq<char> {
    "{\"data\":"@ + (match data {
        Some(text) => text,
        None => "null"@,
    }) + ",\"fetched\":"@ + decimal(fetched) + "}"@
}

/// The text of one decimal digit.
fn digit_text(d: u128) -> (res: &'static str)
    requires
        d < 10,
    ensures
        res@ == seq![digit_char(d as nat)],
{
    proof {
        reveal_strlit("0");
        reveal_strlit("1");
        reveal_strlit("2");
        reveal_strlit("3");
        reveal_strlit("4");
        reveal_strlit("5");
        reveal_strlit("6");
        reveal_strlit("7");
        reveal_strlit("8");
        reveal_strlit("9");
    }
    let res = if d == 0 {
        "0"
    } else if d == 1 {
        "1"
    } else if d == 2 {
        "2"
    } else if d == 3 {
        "3"
    } else if d == 4 {
        "4"
    } else if d == 5 {
        "5"
    } else if d == 6 {
        "6"
    } else if d == 7 {
        "7"
    } else if d == 8 {
        "8"
    } else {
        "9"
    };
    res
}

/// Writes `n` in decimal notation at the end of `out`.
fn push_decimal(out: &mut String, n: u128)
    ensures
        final(out)@ == old(out)@ + decimal(n as nat),
    decreases n,
{
    if n >= 10 {
        push_decimal(out, n / 10);
    }
    out.append(digit_text(n % 10));
    proof {
        if n >= 10 {
            assert(out@ =~= old(out)@ + decimal((n / 10) as nat).push(digit_char((n % 10) as nat)));
        }
    }
}

/// A snapshot as it travels to the subscribers: the payload, absent where
/// nothing is playing, and the time of the poll that produced it, in
/// milliseconds since the Unix epoch.
#[derive(Debug)]
pub struct Song {
    pub data: Option<JsonText>,
    fetched: u128,
}

/// Mathematical value of a [`Song`].
pub struct SongView {
    pub data: Option<Seq<char>>,
    pub fetched: u128,
}

impl View for Song {
    type V = SongView;

    closed spec fn view(&self) -> SongView {
        SongView {
            data: match self.data {
                Some(json) => Some(json@),
                None => None,
            },
            fetched: self.fetched,
        }
    }
}

impl Song {
    /// A snapshot with the given payload, taken at `fetched`.
    pub fn new(data: Option<JsonText>, fetched: u128) -> (res: Song)
        ensures
            res@.fetched == fetched,
            res@.data == (match data {
                Some(json) => Some(json@),
                None => None,
            }),
    {
        Song { data, fetched }
    }

    /// The snapshot that stands for "nothing has been polled yet".
    pub fn absent() -> (res: Song)
        ensures
            res@ == (SongView { data: None, fetched: 0 }),
    {
        Song { data: None, fetched: 0 }
    }

    /// When the snapshot was taken.
    pub fn fetched(&self) -> (res: u128)
        ensures
            res == self@.fetched,
    {
        self.fetched
    }

    /// The message sent to a subscriber for this snapshot.
    pub fn to_json(&self) -> (res: String)
        ensures
            res@ == envelope(self@.data, self@.fetched as nat),
    {
        let mut out = String::from_str("{\"data\":");
        match &self.data {
            Some(json) => out.append(json.as_str()),
            None => out.append("null"),
        }
        out.append(",\"fetched\":");
        push_decimal(&mut out, self.fetched);
        out.append("}");
        out
    }
}

impl Clone for Song {
    fn clone(&self) -> (res: Self)
        ensures
            res == *self,
    {
        Song {
            data: match &self.data {
                Some(json) => Some(json.clone()),
                None => None,
            },
            fetched: self.fetched,
        }
    }
}

impl PartialEq for Song {
    fn eq(&self, other: &Self) -> (r: bool) {
        let same_data = match (&self.data, &other.data) {
            (Some(a), Some(b)) => a == b,
            (None, None) => true,
            _ => false,
        };
        same_data && self.fetched == other.fetched
    }
}

impl Eq for Song {

}

impl PartialEqSpecImpl for Song {
    open spec fn obeys_eq_spec() -> bool {
        true
    }

    open spec fn eq_spec(&self, other: &Self) -> bool {
        self@ == other@
    }
}

} // verus!
