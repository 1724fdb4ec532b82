use spotify_ws::error::ProxyError;
use spotify_ws::json::JsonText;
use spotify_ws::song::{
    extract_image, snapshots_match, Album, Artist, Image, Item, NoImage, Song, SongContent,
    SongContentMetadata, SongContentUnflatten,
};

fn artist(id: &str, name: &str) -> Artist {
    Artist { id: id.to_string(), name: name.to_string() }
}

fn item(id: &str, name: &str) -> Item {
    Item {
        id: id.to_string(),
        album: Album {
            id: "album-1".to_string(),
            image: "https://img.example/640.jpg".to_string(),
            name: "First Album".to_string(),
        },
        artists: vec![artist("artist-1", "Ann"), artist("artist-2", "Bob")],
        duration_ms: 215_000,
        name: name.to_string(),
    }
}

fn metadata(kind: &str, is_playing: bool, progress_ms: i64) -> SongContentMetadata {
    SongContentMetadata { currently_playing_type: kind.to_string(), is_playing, progress_ms }
}

fn track(id: &str, name: &str, progress_ms: i64) -> SongContent {
    SongContent { metadata: metadata("track", true, progress_ms), item: item(id, name) }
}

fn image(height: i64, url: &str) -> Image {
    Image { height, url: url.to_string(), width: height }
}

#[test]
fn metadata_equality_leaves_progress_out() {
    assert!(metadata("track", true, 0) == metadata("track", true, 98_765));
    assert!(metadata("track", true, 0) != metadata("track", false, 0));
    assert!(metadata("track", true, 0) != metadata("episode", true, 0));
}

#[test]
fn content_equality_sees_everything_but_progress() {
    assert!(track("t1", "Song A", 0) == track("t1", "Song A", 1000));
    assert!(track("t1", "Song A", 0) != track("t2", "Song A", 0));
    assert!(track("t1", "Song A", 0) != track("t1", "Song B", 0));

    let mut other_album = track("t1", "Song A", 0);
    other_album.item.album.name = "Second Album".to_string();
    assert!(track("t1", "Song A", 0) != other_album);

    let mut other_length = track("t1", "Song A", 0);
    other_length.item.duration_ms = 1;
    assert!(track("t1", "Song A", 0) != other_length);
}

#[test]
fn artists_are_compared_in_order_and_in_number() {
    let mut swapped = track("t1", "Song A", 0);
    swapped.item.artists = vec![artist("artist-2", "Bob"), artist("artist-1", "Ann")];
    assert!(track("t1", "Song A", 0) != swapped);

    let mut fewer = track("t1", "Song A", 0);
    fewer.item.artists = vec![artist("artist-1", "Ann")];
    assert!(track("t1", "Song A", 0) != fewer);

    let mut renamed = track("t1", "Song A", 0);
    renamed.item.artists = vec![artist("artist-1", "Ann"), artist("artist-2", "Bobby")];
    assert!(track("t1", "Song A", 0) != renamed);

    let mut none = track("t1", "Song A", 0);
    none.item.artists = vec![];
    let mut none_too = track("t1", "Song A", 5);
    none_too.item.artists = vec![];
    assert!(none == none_too);
}

#[test]
fn plain_parts_compare_field_by_field() {
    assert!(image(640, "a") == image(640, "a"));
    assert!(image(640, "a") != image(300, "a"));
    assert!(image(640, "a") != image(640, "b"));
    assert!(
        Image { height: 1, url: "a".to_string(), width: 1 }
            != Image { height: 1, url: "a".to_string(), width: 2 }
    );
    assert!(artist("1", "Ann") == artist("1", "Ann"));
    assert!(artist("1", "Ann") != artist("2", "Ann"));
    assert!(item("t1", "Song A") == item("t1", "Song A"));
    assert!(item("t1", "Song A").album == item("t2", "Song B").album);
}

#[test]
fn clones_compare_equal_to_their_source() {
    let source = track("t1", "Song A", 42);
    let copy = source.clone();
    assert!(copy == source);
    assert_eq!(copy.metadata.progress_ms, 42);
    assert_eq!(copy.item.artists.len(), 2);
    assert_eq!(copy.item.artists[1].name, "Bob");
    assert_eq!(copy.item.album.image, "https://img.example/640.jpg");
}

#[test]
fn snapshots_match_tells_tracks_from_silence() {
    assert!(snapshots_match(&None, &None));
    assert!(!snapshots_match(&None, &Some(track("t1", "Song A", 0))));
    assert!(!snapshots_match(&Some(track("t1", "Song A", 0)), &None));
    assert!(snapshots_match(&Some(track("t1", "Song A", 0)), &Some(track("t1", "Song A", 7))));
    assert!(!snapshots_match(&Some(track("t1", "Song A", 0)), &Some(track("t2", "Song B", 0))));
}

#[test]
fn flattening_keeps_both_parts() {
    let wire = SongContentUnflatten {
        metadata: metadata("track", false, 12),
        item: item("t9", "Song Z"),
    };
    let copy = wire.clone();
    let flat = SongContent::from(wire);
    assert!(flat.metadata == copy.metadata);
    assert_eq!(flat.metadata.progress_ms, 12);
    assert!(!flat.metadata.is_playing);
    assert!(flat.item == copy.item);
    assert_eq!(flat.item.id, "t9");
}

#[test]
fn unflattened_content_compares_like_flat_content() {
    let a = SongContentUnflatten { metadata: metadata("track", true, 0), item: item("t1", "A") };
    let b = SongContentUnflatten { metadata: metadata("track", true, 9), item: item("t1", "A") };
    let c = SongContentUnflatten { metadata: metadata("track", true, 0), item: item("t2", "A") };
    assert!(a == b);
    assert!(a != c);
}

#[test]
fn extract_image_takes_the_tallest() {
    let images = vec![image(64, "small"), image(640, "large"), image(300, "medium")];
    assert_eq!(extract_image(&images), Ok("large".to_string()));
}

#[test]
fn extract_image_takes_the_first_of_equally_tall() {
    let images = vec![image(300, "first"), image(640, "second"), image(640, "third")];
    assert_eq!(extract_image(&images), Ok("second".to_string()));
    let flat = vec![image(10, "one"), image(10, "two")];
    assert_eq!(extract_image(&flat), Ok("one".to_string()));
}

#[test]
fn extract_image_handles_one_image_and_negative_heights() {
    assert_eq!(extract_image(&vec![image(0, "only")]), Ok("only".to_string()));
    let below = vec![image(-5, "low"), image(-1, "less low"), image(i64::MIN, "lowest")];
    assert_eq!(extract_image(&below), Ok("less low".to_string()));
}

#[test]
fn extract_image_fails_on_an_empty_list() {
    let none: Vec<Image> = vec![];
    assert_eq!(extract_image(&none), Err(NoImage));
    assert_eq!(NoImage.message(), "external_urls does not exist");
}

#[test]
fn absent_song_has_no_payload_and_time_zero() {
    let song = Song::absent();
    assert!(song.data.is_none());
    assert_eq!(song.fetched(), 0);
    assert_eq!(song.to_json(), "{\"data\":null,\"fetched\":0}");
}

#[test]
fn song_keeps_payload_and_time() {
    let payload = JsonText::parse(b"{\"name\":\"Song A\"}").unwrap();
    let song = Song::new(Some(payload.clone()), 1_700_000_000_123);
    assert_eq!(song.fetched(), 1_700_000_000_123);
    assert!(song.data == Some(payload));
    assert_eq!(song.to_json(), "{\"data\":{\"name\":\"Song A\"},\"fetched\":1700000000123}");
}

#[test]
fn song_without_payload_renders_null() {
    assert_eq!(Song::new(None, 7).to_json(), "{\"data\":null,\"fetched\":7}");
    assert_eq!(Song::new(None, 10).to_json(), "{\"data\":null,\"fetched\":10}");
    assert_eq!(Song::new(None, 9_999).to_json(), "{\"data\":null,\"fetched\":9999}");
    assert_eq!(Song::new(None, 10_000).to_json(), "{\"data\":null,\"fetched\":10000}");
}

#[test]
fn song_renders_the_largest_time() {
    assert_eq!(
        Song::new(None, u128::MAX).to_json(),
        "{\"data\":null,\"fetched\":340282366920938463463374607431768211455}"
    );
}

#[test]
fn song_message_is_what_the_json_printer_writes() {
    let payload = JsonText::parse(b"[1, 2.5, \"x\", null, true]").unwrap();
    let song = Song::new(Some(payload), 1_234_567_890);

    let mut object = serde_json::Map::new();
    object.insert(
        "data".to_string(),
        serde_json::from_str::<serde_json::Value>("[1,2.5,\"x\",null,true]").unwrap(),
    );
    object.insert("fetched".to_string(), serde_json::Value::from(1_234_567_890u64));
    let expected = serde_json::to_string(&serde_json::Value::Object(object)).unwrap();

    assert_eq!(song.to_json(), expected);
    assert!(serde_json::from_str::<serde_json::Value>(&song.to_json()).is_ok());
}

#[test]
fn songs_compare_by_payload_and_time() {
    let a = JsonText::parse(b"{\"a\":1}").unwrap();
    let b = JsonText::parse(b"{\"a\":2}").unwrap();
    assert!(Song::new(Some(a.clone()), 5) == Song::new(Some(a.clone()), 5));
    assert!(Song::new(Some(a.clone()), 5) != Song::new(Some(a.clone()), 6));
    assert!(Song::new(Some(a.clone()), 5) != Song::new(Some(b), 5));
    assert!(Song::new(Some(a.clone()), 5) != Song::new(None, 5));
    assert!(Song::new(None, 5) == Song::new(None, 5));
    let song = Song::new(Some(a), 5);
    assert!(song.clone() == song);
}

#[test]
fn json_text_is_reprinted_in_compact_form() {
    let text = JsonText::parse(b" { \"b\" : 1 ,\n \"a\" : [ 1 , 2 ] } ").unwrap();
    assert_eq!(text.as_str(), "{\"a\":[1,2],\"b\":1}");
}

#[test]
fn json_text_of_scalars() {
    assert_eq!(JsonText::parse(b"null").unwrap().as_str(), "null");
    assert_eq!(JsonText::parse(b" 12 ").unwrap().as_str(), "12");
    assert_eq!(JsonText::parse(b"\"a\\u0062c\"").unwrap().as_str(), "\"abc\"");
}

#[test]
fn json_text_rejects_what_is_not_json() {
    assert!(matches!(JsonText::parse(b""), Err(ProxyError::Json(_))));
    assert!(matches!(JsonText::parse(b"{"), Err(ProxyError::Json(_))));
    assert!(matches!(JsonText::parse(b"{} {}"), Err(ProxyError::Json(_))));
    assert!(matches!(JsonText::parse(&[0xff, 0xfe]), Err(ProxyError::Json(_))));
}

#[test]
fn json_text_is_the_same_however_the_input_is_spaced() {
    let a = JsonText::parse(b"{\"x\":[true,false]}").unwrap();
    let b = JsonText::parse(b"{ \"x\" : [ true , false ] }").unwrap();
    assert!(a == b);
    assert!(a != JsonText::parse(b"{\"x\":[false,true]}").unwrap());
}
