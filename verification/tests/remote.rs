use sha2::Digest;
use harmonium::artwork::remote::{
    build_cache_key, build_musicbrainz_query, canonical_mbid, cover_art_url, credit_mentions,
    escape_lucene, fetch_cover, fetch_cover_art, is_decodable_image, normalize, release_matches,
    same_release, select_release, usable_remote_identity, ArtistCreditEntry, CacheEntry,
    CoverFetch, CoverResponse, FetchAction, FetchEvent, FetchStage, MusicBrainzRelease,
    RequestRateGate, CACHE_KEY_LEN, HTTP_TIMEOUT_SECS, MAX_COVER_ART_BYTES,
    MB_RATE_INTERVAL_MILLIS,
};
use harmonium::digest::hex_bytes;
use harmonium::path::FilePath;
use harmonium::time::Duration;

const MBID: &str = "01234567-89ab-cdef-0123-456789abcdef";

/// A 1x1 transparent PNG.
fn tiny_png() -> Vec<u8> {
    vec![
        0x89, 0x50, 0x4E, 0x47, 0x0D, 0x0A, 0x1A, 0x0A, 0x00, 0x00, 0x00, 0x0D, 0x49, 0x48, 0x44,
        0x52, 0x00, 0x00, 0x00, 0x01, 0x00, 0x00, 0x00, 0x01, 0x08, 0x06, 0x00, 0x00, 0x00, 0x1F,
        0x15, 0xC4, 0x89, 0x00, 0x00, 0x00, 0x0A, 0x49, 0x44, 0x41, 0x54, 0x78, 0x9C, 0x63, 0x00,
        0x01, 0x00, 0x00, 0x05, 0x00, 0x01, 0x0D, 0x0A, 0x2D, 0xB4, 0x00, 0x00, 0x00, 0x00, 0x00,
        0x49, 0x45, 0x4E, 0x44, 0xAE, 0x42, 0x60, 0x82,
    ]
}

fn release(id: &str, title: &str, artist: &str) -> MusicBrainzRelease {
    MusicBrainzRelease {
        id: id.to_string(),
        title: Some(title.to_string()),
        artist_credit: vec![ArtistCreditEntry {
            name: Some(artist.to_string()),
            joinphrase: None,
        }],
    }
}

fn fetch() -> CoverFetch {
    fetch_cover("Pink Floyd", "The Wall", &FilePath::from_text("/cache")).expect("usable names")
}

fn path_text(path: &FilePath) -> String {
    path.to_text().expect("UTF-8 path")
}

#[test]
fn build_cache_key_is_deterministic() {
    let key1 = build_cache_key("Pink Floyd", "The Wall");
    let key2 = build_cache_key("Pink Floyd", "The Wall");
    assert_eq!(key1, key2);
    assert_eq!(key1.len(), CACHE_KEY_LEN);
}

#[test]
fn build_cache_key_differs_for_different_input() {
    let key1 = build_cache_key("Pink Floyd", "The Wall");
    let key2 = build_cache_key("Pink Floyd", "The Dark Side of the Moon");
    assert_ne!(key1, key2);
}

#[test]
fn cache_key_is_the_start_of_a_sha256_digest() {
    let mut hasher = sha2::Sha256::new();
    hasher.update(b"front-500\nArtist\nAlbum");
    let hash = hasher.finalize();
    assert_eq!(build_cache_key("Artist", "Album"), hex_bytes(&hash)[..16]);
}

#[test]
fn cover_art_url_uses_the_browser_sized_variant() {
    assert_eq!(
        cover_art_url("01234567-89ab-cdef-0123-456789abcdef"),
        Some("https://coverartarchive.org/release/01234567-89ab-cdef-0123-456789abcdef/front-500".to_string())
    );
}

#[test]
fn invalid_mbids_are_rejected_before_url_construction() {
    for mbid in [
        "release-id",
        "0123456789abcdef0123456789abcdef0123",
        "01234567-89AB-cdef-0123-456789abcdef",
        "01234567-89ab-cdef-0123-456789abcdeg",
    ] {
        assert_eq!(canonical_mbid(mbid), None);
        assert_eq!(cover_art_url(mbid), None);
    }
}

#[test]
fn multibyte_mbids_are_rejected() {
    assert_eq!(canonical_mbid("01234567-89ab-cdef-0123-456789abcd\u{e9}"), None);
    assert_eq!(canonical_mbid(MBID), Some(MBID));
}

#[test]
fn invalid_mbid_stops_before_the_network_boundary() {
    assert_eq!(fetch_cover_art("not-a-mbid"), None);
}

#[test]
fn hex_bytes_produces_valid_hex() {
    let result = hex_bytes(&[0x00, 0xff, 0xab]);
    assert_eq!(result, "00ffab");
}

#[test]
fn read_cache_returns_none_for_missing_entry() {
    let mut fetch = fetch();
    for _ in 0..2 {
        let step = fetch.advance(FetchEvent::Entry(CacheEntry::Absent));
        assert!(step.remove.is_none());
        assert!(matches!(step.action, FetchAction::ReadEntry(_)));
    }
    let step = fetch.advance(FetchEvent::Entry(CacheEntry::Absent));
    assert!(matches!(step.action, FetchAction::Search(_)));
}

#[test]
fn write_cache_then_read_cache_round_trips() {
    let data = tiny_png();
    let mut writing = fetch();
    for _ in 0..3 {
        writing.advance(FetchEvent::Entry(CacheEntry::Absent));
    }
    let step = writing.advance(FetchEvent::Releases(Some(vec![release(
        MBID,
        "The Wall",
        "Pink Floyd",
    )])));
    assert!(matches!(step.action, FetchAction::Download(_)));
    let step = writing.advance(FetchEvent::Response(Some(CoverResponse {
        success: true,
        body: Some(data.clone()),
    })));
    let (stored, bytes) = match step.action {
        FetchAction::Fetched(path, bytes) => (path, bytes),
        _ => panic!("expected a cover"),
    };
    assert_eq!(bytes, data);

    let mut reading = fetch();
    match reading.begin() {
        FetchAction::ReadEntry(path) => assert_eq!(path, stored),
        _ => panic!("expected a lookup"),
    }
    let step = reading.advance(FetchEvent::Entry(CacheEntry::Contents(bytes)));
    match step.action {
        FetchAction::Cached(bytes) => assert_eq!(bytes, data),
        _ => panic!("expected a hit"),
    }
}

#[test]
fn read_cache_rejects_and_drops_a_corrupt_entry() {
    let mut fetch = fetch();
    let first = match fetch.begin() {
        FetchAction::ReadEntry(path) => path,
        _ => panic!("expected a lookup"),
    };
    let step = fetch.advance(FetchEvent::Entry(CacheEntry::Contents(
        b"not an image".to_vec(),
    )));
    assert_eq!(step.remove, Some(first));
    assert!(matches!(step.action, FetchAction::ReadEntry(_)));
}

#[test]
fn cache_entries_are_looked_up_by_extension() {
    let mut fetch = fetch();
    let key = build_cache_key("Pink Floyd", "The Wall");
    let mut seen = Vec::new();
    let mut action = fetch.begin();
    for _ in 0..3 {
        match action {
            FetchAction::ReadEntry(path) => seen.push(path_text(&path)),
            _ => panic!("expected a lookup"),
        }
        action = fetch.advance(FetchEvent::Entry(CacheEntry::Unreadable)).action;
    }
    assert_eq!(
        seen,
        vec![
            format!("/cache/artwork/{key}.jpg"),
            format!("/cache/artwork/{key}.jpeg"),
            format!("/cache/artwork/{key}.png"),
        ]
    );
    match action {
        FetchAction::Search(query) => {
            assert_eq!(query, "artist:\"Pink Floyd\" AND release:\"The Wall\"")
        }
        _ => panic!("expected a search"),
    }
}

#[test]
fn symlinked_cache_entries_are_ignored_and_kept() {
    let mut fetch = fetch();
    let step = fetch.advance(FetchEvent::Entry(CacheEntry::Symlink));
    assert!(step.remove.is_none());
    assert_eq!(fetch.stage, FetchStage::Cache(1));
}

#[test]
fn failed_searches_and_downloads_end_without_a_cover() {
    for event in [
        FetchEvent::Releases(None),
        FetchEvent::Releases(Some(Vec::new())),
        FetchEvent::Response(None),
    ] {
        let mut fetch = fetch();
        fetch.stage = FetchStage::Search;
        assert!(matches!(fetch.advance(event).action, FetchAction::NoCover));
        assert_eq!(fetch.stage, FetchStage::Done);
    }
    for response in [
        None,
        Some(CoverResponse { success: false, body: Some(tiny_png()) }),
        Some(CoverResponse { success: true, body: None }),
        Some(CoverResponse { success: true, body: Some(vec![0; MAX_COVER_ART_BYTES + 1]) }),
    ] {
        let mut fetch = fetch();
        fetch.stage = FetchStage::Download;
        let step = fetch.advance(FetchEvent::Response(response));
        assert!(matches!(step.action, FetchAction::NoCover));
    }
}

#[test]
fn a_found_release_is_downloaded_from_the_archive() {
    let mut fetch = fetch();
    fetch.stage = FetchStage::Search;
    let step = fetch.advance(FetchEvent::Releases(Some(vec![
        release(MBID, "The Wall Live", "Pink Floyd"),
        release("release-id", "The Wall", "Pink Floyd"),
        release(MBID, "the  wall", "PINK FLOYD"),
    ])));
    match step.action {
        FetchAction::Download(url) => assert_eq!(Some(url), cover_art_url(MBID)),
        _ => panic!("expected a download"),
    }
}

#[test]
fn select_release_takes_the_first_usable_one() {
    let other = "11111111-89ab-cdef-0123-456789abcdef";
    let releases = vec![
        release("bad", "The Wall", "Pink Floyd"),
        release(other, "The Wall", "Pink Floyd"),
        release(MBID, "The Wall", "Pink Floyd"),
    ];
    assert_eq!(
        select_release(&releases, "Pink Floyd", "The Wall"),
        Some(other.to_string())
    );
    assert_eq!(select_release(&releases, "Pink", "The Wall"), None);
}

#[test]
fn fetch_cover_returns_none_for_empty_credentials() {
    let root = FilePath::from_text("/tmp/remote-fetch-none");
    let result = fetch_cover("", "", &root);
    assert!(result.is_none());
}

#[test]
fn rate_gate_reserves_distinct_slots_for_callers_that_arrive_together() {
    let mut gate = RequestRateGate::default();
    let interval = Duration::from_millis(MB_RATE_INTERVAL_MILLIS);
    for index in 0..4u64 {
        assert_eq!(
            gate.reserve(Duration::from_millis(0), interval),
            Duration::from_millis(MB_RATE_INTERVAL_MILLIS * index)
        );
    }
}

#[test]
fn rate_gate_preserves_interval_between_reserved_slots() {
    let mut gate = RequestRateGate::default();
    let interval = Duration::from_millis(MB_RATE_INTERVAL_MILLIS);
    assert_eq!(interval, Duration::from_millis(1_100));

    assert_eq!(
        gate.reserve(Duration::from_millis(0), interval),
        Duration::from_millis(0)
    );
    assert_eq!(
        gate.reserve(Duration::from_millis(100), interval),
        Duration::from_millis(1_000)
    );
    assert_eq!(
        gate.reserve(Duration::from_millis(2_200), interval),
        Duration::from_millis(0)
    );
}

#[test]
fn usable_identity_rejects_placeholders_and_blanks() {
    assert!(!usable_remote_identity("", "The Wall"));
    assert!(!usable_remote_identity("   ", "The Wall"));
    assert!(!usable_remote_identity("Pink Floyd", ""));
    assert!(!usable_remote_identity("Unknown Artist", "The Wall"));
    assert!(!usable_remote_identity("Pink Floyd", "Unknown Album"));
    assert!(!usable_remote_identity("unknown artist", "unknown album"));
    assert!(usable_remote_identity("Pink Floyd", "The Wall"));
}

#[test]
fn placeholders_are_recognised_behind_blanks_on_either_side() {
    assert!(!usable_remote_identity("  UNKNOWN ALBUM\t", "The Wall"));
    assert!(!usable_remote_identity("Pink Floyd", "\u{3000}unknown artist "));
    assert!(usable_remote_identity("Unknown Artist 2", "The Wall"));
}

#[test]
fn requests_time_out_after_ten_seconds() {
    assert_eq!(Duration::from_secs(HTTP_TIMEOUT_SECS), Duration::from_secs(10));
}

#[test]
fn musicbrainz_query_escapes_lucene_syntax_in_metadata() {
    assert_eq!(
        build_musicbrainz_query("AC/DC + The (Band)", "A: B? [Live]"),
        "artist:\"AC\\/DC \\+ The \\(Band\\)\" AND release:\"A\\: B\\? \\[Live\\]\""
    );
}

#[test]
fn escaping_touches_every_operator_and_nothing_else() {
    assert_eq!(
        escape_lucene("+-&|!(){}[]^\"~*?:\\/"),
        "\\+\\-\\&\\|\\!\\(\\)\\{\\}\\[\\]\\^\\\"\\~\\*\\?\\:\\\\\\/"
    );
    assert_eq!(escape_lucene("Sigur R\u{f3}s, 100% #1"), "Sigur R\u{f3}s, 100% #1");
}

#[test]
fn release_match_is_case_and_whitespace_insensitive() {
    assert!(same_release("The Wall", "the  wall"));
    assert!(same_release(
        "The Dark Side of the Moon",
        "the dark side of the moon"
    ));
    assert!(!same_release("Wish You Were Here", "The Wall"));
}

#[test]
fn normalize_trims_collapses_and_lowers() {
    assert_eq!(normalize("  The\t Dark\u{a0}\u{2003}SIDE \n"), "the dark side");
    assert_eq!(normalize("\u{c9}COLE"), "\u{e9}cole");
    assert_eq!(normalize(" \t "), "");
}

#[test]
fn normal_forms_depend_on_words_and_are_stable() {
    let once = normalize("\tAbbey   Road ");
    assert_eq!(once, "abbey road");
    assert_eq!(normalize(&once), once);
    for same in ["ABBEY ROAD", "abbey\nroad", "\u{3000}Abbey\u{2028}\u{2029}road"] {
        assert_eq!(normalize(same), once);
    }
    for other in ["AbbeyRoad", "Ab bey Road", "Abbey Roads", "Road Abbey", ""] {
        assert_ne!(normalize(other), once);
    }
    assert_eq!(
        normalize("\u{c9}cole\u{a0} Normale"),
        normalize(" \u{c9}cole\tNormale")
    );
}

#[test]
fn credit_mentions_requires_a_full_name_among_joiners() {
    let credit = vec![
        ArtistCreditEntry {
            name: Some("Roger Waters".into()),
            joinphrase: Some(" & ".into()),
        },
        ArtistCreditEntry {
            name: Some("Pink Floyd".into()),
            joinphrase: None,
        },
    ];
    assert!(credit_mentions(&credit, "Pink Floyd"));
    assert!(!credit_mentions(&credit, "Pink"));
    assert!(!credit_mentions(&credit, "David Gilmour"));
}

#[test]
fn blank_artists_and_nameless_credits_never_match() {
    let credit = vec![ArtistCreditEntry { name: None, joinphrase: None }];
    assert!(!credit_mentions(&credit, "Pink Floyd"));
    assert!(!credit_mentions(&credit, "  "));
    let untitled = MusicBrainzRelease {
        id: MBID.to_string(),
        title: None,
        artist_credit: vec![ArtistCreditEntry {
            name: Some("Pink Floyd".to_string()),
            joinphrase: None,
        }],
    };
    assert!(!release_matches(&untitled, "Pink Floyd", "The Wall"));
}

#[test]
fn musicbrainz_artist_credit_deserializes_from_the_actual_array_payload() {
    let payload = r#"
    {
      "releases": [
        {
          "id": "release-id",
          "title": "The Wall",
          "artist-credit": [
            {
              "name": "Pink Floyd",
              "artist": {
                "id": "artist-id",
                "name": "Pink Floyd",
                "sort-name": "Pink Floyd"
              },
              "joinphrase": ""
            }
          ]
        }
      ]
    }
    "#;

    let response: serde_json::Value = serde_json::from_str(payload).expect("valid payload");
    let found = &response["releases"][0];
    let text = |value: &serde_json::Value| value.as_str().map(str::to_string);
    let release = MusicBrainzRelease {
        id: text(&found["id"]).expect("identifier"),
        title: text(&found["title"]),
        artist_credit: found["artist-credit"]
            .as_array()
            .expect("credits")
            .iter()
            .map(|entry| ArtistCreditEntry {
                name: text(&entry["name"]),
                joinphrase: text(&entry["joinphrase"]),
            })
            .collect(),
    };
    assert!(release_matches(&release, "pink  floyd", "the wall"));
    assert!(!release_matches(&release, "Pink", "The Wall"));
    assert_eq!(release.artist_credit[0].joinphrase.as_deref(), Some(""));
}

#[test]
fn only_jpeg_and_png_files_are_covers() {
    let picture = image::DynamicImage::new_rgb8(2, 2);
    let mut jpeg = std::io::Cursor::new(Vec::new());
    picture
        .write_to(&mut jpeg, image::ImageFormat::Jpeg)
        .expect("jpeg encoding");
    assert!(is_decodable_image(&tiny_png()));
    assert!(is_decodable_image(&jpeg.into_inner()));
    assert!(!is_decodable_image(&b"GIF89a......".to_vec()));
    assert!(!is_decodable_image(&b"not an image".to_vec()));
    assert!(!is_decodable_image(&Vec::new()));
}

#[test]
fn files_cut_off_within_their_header_are_no_covers() {
    let png = tiny_png();
    for length in [8, 16, 24, 32] {
        assert!(!is_decodable_image(&png[..length].to_vec()));
    }
    assert!(!is_decodable_image(&vec![0xff, 0xd8, 0xff, 0xe0]));

    let mut fetch = fetch();
    let step = fetch.advance(FetchEvent::Entry(CacheEntry::Contents(png[..8].to_vec())));
    assert!(step.remove.is_some(), "a truncated entry is removed");
    assert_eq!(fetch.stage, FetchStage::Cache(1));
}
