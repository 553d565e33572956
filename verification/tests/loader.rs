use harmonium::artwork::loader::{
    cover_candidates, decode_source, directory_cover, embedded_picture, picture_in, resolve_source,
    ArtworkError, ArtworkSource, DecodeStep, FileAnswer, SourceAnswer, SourceStep, COVER_CANDIDATE_COUNT,
    MAX_ART_FILE_BYTES, MAX_RETAINED_SOURCE_SIZE,
};
use harmonium::artwork::remote::{FetchAction, build_cache_key};
use harmonium::config::ArtworkSource as SourceConfig;
use harmonium::metadata::TrackMetadata;
use harmonium::path::FilePath;
use image::DynamicImage;

fn encoded(width: u32, height: u32) -> Vec<u8> {
    let image = DynamicImage::new_rgba8(width, height);
    let mut buffer = std::io::Cursor::new(Vec::new());
    image
        .write_to(&mut buffer, image::ImageFormat::Png)
        .expect("png encoding");
    buffer.into_inner()
}

fn png_bytes() -> Vec<u8> {
    encoded(2, 2)
}

fn track() -> FilePath {
    FilePath::from_text("/music/song.mp3")
}

fn cache_dir() -> FilePath {
    FilePath::from_text("/tmp/harmonium-test-cache")
}

/// Which of the well-known files are among `names`.
fn present(names: &[&str]) -> Vec<bool> {
    let directory = FilePath::from_text("/music");
    cover_candidates(&directory)
        .iter()
        .map(|candidate| names.iter().any(|name| directory.join(name) == *candidate))
        .collect()
}

/// Cover file among `names` in the directory of the track.
fn cover_among(names: &[&str]) -> Option<FilePath> {
    directory_cover(&FilePath::from_text("/music"), &present(names))
}

/// Resolve a source where tags, directory and network hold what is told.
fn resolve(
    track_path: Option<&FilePath>,
    config: SourceConfig,
    metadata: Option<&TrackMetadata>,
    tags: Option<Vec<u8>>,
    files: &[&str],
    remote: Option<Vec<u8>>,
) -> Option<ArtworkSource> {
    let mut answer = SourceAnswer::Nothing;
    loop {
        answer = match resolve_source(track_path, config, metadata, &cache_dir(), answer) {
            SourceStep::ReadTags(_) => SourceAnswer::Embedded(tags.clone()),
            SourceStep::ProbeDirectory(_) => SourceAnswer::Directory(cover_among(files)),
            SourceStep::FetchCover(_) => SourceAnswer::Remote(remote.clone()),
            SourceStep::Resolved(source) => return source,
        };
    }
}

/// Decode a source whose file, if it is one, has the given contents.
fn decode(
    source: &ArtworkSource,
    contents: Result<Vec<u8>, String>,
) -> Result<DynamicImage, ArtworkError> {
    let mut answer = FileAnswer::Nothing;
    loop {
        answer = match decode_source(&track(), source, answer) {
            DecodeStep::Measure(_) => {
                FileAnswer::Size(contents.as_ref().map(|c| c.len() as u64).map_err(Clone::clone))
            }
            DecodeStep::Read(_) => FileAnswer::Contents(contents.clone()),
            DecodeStep::Done(result) => return result,
        };
    }
}

#[test]
fn directory_cover_follows_the_owner_priority_order() {
    let root = FilePath::from_text("/music");
    let mut names = vec![
        "front.png",
        "front.jpg",
        "folder.png",
        "folder.jpg",
        "cover.png",
    ];
    assert_eq!(
        cover_among(&names),
        Some(root.join("cover.png")),
        "cover.png beats folder and front variants"
    );

    names.push("cover.jpeg");
    assert_eq!(cover_among(&names), Some(root.join("cover.jpeg")));

    names.push("cover.jpg");
    assert_eq!(cover_among(&names), Some(root.join("cover.jpg")));
}

#[test]
fn directory_cover_is_none_without_candidates() {
    assert_eq!(cover_among(&["song.mp3", "notes.txt"]), None);
}

#[test]
fn candidates_are_listed_in_order() {
    let names: Vec<String> = cover_candidates(&FilePath::from_text("/music/"))
        .iter()
        .map(|path| path.to_text().expect("UTF-8 path"))
        .collect();
    assert_eq!(
        names,
        [
            "/music/cover.jpg",
            "/music/cover.jpeg",
            "/music/cover.png",
            "/music/folder.jpg",
            "/music/folder.jpeg",
            "/music/front.jpg",
            "/music/front.png",
        ]
    );
    assert_eq!(names.len(), COVER_CANDIDATE_COUNT);
}

#[test]
fn corrupt_audio_falls_through_to_the_directory_cover() {
    let track = track();
    assert_eq!(
        resolve(Some(&track), SourceConfig::All, None, None, &["folder.jpg"], None),
        Some(ArtworkSource::File(FilePath::from_text("/music/folder.jpg")))
    );
}

#[test]
fn file_source_decodes_into_an_image() {
    let track = track();
    let source = resolve(Some(&track), SourceConfig::All, None, None, &["cover.png"], None)
        .expect("cover resolves");
    let image = decode(&source, Ok(png_bytes())).expect("png decodes");

    assert_eq!(image.width(), 2);
    assert_eq!(image.height(), 2);
}

#[test]
fn local_high_resolution_cover_is_not_reduced_to_playlist_size() {
    let cover = FilePath::from_text("/music/cover.png");
    let decoded = decode(&ArtworkSource::File(cover), Ok(encoded(512, 512)))
        .expect("high-resolution cover decodes");

    assert_eq!(decoded.width(), 512);
    assert_eq!(decoded.height(), 512);
    assert!(
        decoded.width() > 144,
        "browser source must exceed playlist size"
    );
}

#[test]
fn decoded_cover_is_bounded_before_protocol_creation() {
    let decoded = decode(
        &ArtworkSource::Embedded(encoded(2_048, 1_024)),
        Err("not a file".to_string()),
    )
    .expect("bounded high-resolution cover decodes");

    assert_eq!(decoded.width(), MAX_RETAINED_SOURCE_SIZE);
    assert_eq!(decoded.height(), MAX_RETAINED_SOURCE_SIZE / 2);
}

/// A picture whose samples all differ from their neighbours.
fn gradient(width: u32, height: u32) -> DynamicImage {
    let mut picture = image::RgbaImage::new(width, height);
    for (x, y, pixel) in picture.enumerate_pixels_mut() {
        *pixel = image::Rgba([(x % 251) as u8, (y % 241) as u8, ((x ^ y) % 256) as u8, 255]);
    }
    DynamicImage::ImageRgba8(picture)
}

fn png_of(picture: &DynamicImage) -> Vec<u8> {
    let mut buffer = std::io::Cursor::new(Vec::new());
    picture
        .write_to(&mut buffer, image::ImageFormat::Png)
        .expect("png encoding");
    buffer.into_inner()
}

#[test]
fn covers_keep_their_picture() {
    // Small covers are not resampled
    for (width, height) in [(1, 1), (64, 64), (1_024, 3), (1_024, 1_024)] {
        let picture = gradient(width, height);
        let source = ArtworkSource::Embedded(png_of(&picture));
        let decoded = decode(&source, Err("not a file".to_string())).expect("cover decodes");
        assert!(decoded == picture, "{width}x{height}");
    }
    // Large ones are scaled down once
    let picture = gradient(1_100, 1_100);
    let source = ArtworkSource::Remote(png_of(&picture));
    let decoded = decode(&source, Err("not a file".to_string())).expect("cover decodes");
    let bound = MAX_RETAINED_SOURCE_SIZE;
    let expected = picture.resize(bound, bound, image::imageops::FilterType::Lanczos3);
    assert!(decoded == expected);
}

#[test]
fn corrupt_image_bytes_fail_with_the_decode_variant() {
    let track = track();
    let source = resolve(Some(&track), SourceConfig::All, None, None, &["cover.jpg"], None)
        .expect("cover resolves");
    let error =
        decode(&source, Ok(b"this is not a jpeg".to_vec())).expect_err("corrupt bytes must fail");

    assert!(
        matches!(error, ArtworkError::Decode { .. }),
        "got {error:?}"
    );
}

#[test]
fn embedded_source_decodes_without_touching_the_disk() {
    let source = ArtworkSource::Embedded(png_bytes());

    let image = match decode_source(&track(), &source, FileAnswer::Nothing) {
        DecodeStep::Done(result) => result.expect("embedded png decodes"),
        _ => panic!("no file is needed"),
    };

    assert_eq!(image.width(), 2);
}

#[test]
fn missing_cover_file_reports_the_io_variant() {
    let ghost = FilePath::from_text("/music/cover.jpg");

    let error = decode(
        &ArtworkSource::File(ghost.clone()),
        Err("No such file".to_string()),
    )
    .expect_err("a vanished file must fail");

    assert_eq!(
        error.describe(),
        "reading artwork /music/cover.jpg failed: No such file"
    );
    match error {
        ArtworkError::Io { path, .. } => assert_eq!(path, ghost),
        other => panic!("expected the Io variant, got {other:?}"),
    }
}

#[test]
fn files_that_cannot_be_read_report_the_io_variant() {
    let cover = FilePath::from_text("/music/cover.jpg");
    let source = ArtworkSource::File(cover);
    let step = decode_source(
        &track(),
        &source,
        FileAnswer::Contents(Err("denied".to_string())),
    );
    assert!(matches!(
        step,
        DecodeStep::Done(Err(ArtworkError::Io { .. }))
    ));
}

#[test]
fn oversized_cover_file_is_rejected_before_reading() {
    let source = ArtworkSource::File(FilePath::from_text("/music/cover.jpg"));

    let error = match decode_source(
        &track(),
        &source,
        FileAnswer::Size(Ok(MAX_ART_FILE_BYTES + 1)),
    ) {
        DecodeStep::Done(result) => result.expect_err("an oversized file must be refused"),
        _ => panic!("an oversized file must not be read"),
    };
    assert!(
        matches!(error, ArtworkError::Decode { .. }),
        "got {error:?}"
    );
    assert_eq!(
        error.describe(),
        "decoding artwork for /music/song.mp3 failed: cover file /music/cover.jpg is 20971521 \
         bytes, above the 20971520 byte ceiling"
    );
    assert!(matches!(
        decode_source(&track(), &source, FileAnswer::Size(Ok(MAX_ART_FILE_BYTES))),
        DecodeStep::Read(_)
    ));
}

#[test]
fn huge_declared_dimensions_are_rejected_on_the_header() {
    let png = png_bytes();

    // The IHDR width/height are bytes 16..24 after the 8-byte signature.
    let mut bomb = png;
    bomb[16..20].copy_from_slice(&16_001u32.to_be_bytes());
    bomb[20..24].copy_from_slice(&16_001u32.to_be_bytes());

    let error = decode(&ArtworkSource::Embedded(bomb), Ok(Vec::new()))
        .expect_err("huge dims must be refused");
    assert!(
        matches!(error, ArtworkError::Decode { .. }),
        "got {error:?}"
    );

    // The legitimate small PNG still decodes.
    assert_eq!(
        decode(&ArtworkSource::Embedded(png_bytes()), Ok(Vec::new()))
            .unwrap()
            .width(),
        2
    );
}

#[test]
fn metadata_source_config_only_tries_embedded() {
    let track = track();
    let result = resolve(
        Some(&track),
        SourceConfig::Metadata,
        None,
        None,
        &["cover.jpg"],
        None,
    );
    assert!(result.is_none());
}

#[test]
fn local_source_config_only_tries_directory() {
    let track = track();
    let result = resolve(
        Some(&track),
        SourceConfig::Local,
        None,
        Some(png_bytes()),
        &["cover.jpg"],
        None,
    );
    assert_eq!(
        result,
        Some(ArtworkSource::File(FilePath::from_text("/music/cover.jpg")))
    );
}

#[test]
fn remote_source_config_returns_none_without_network() {
    let track = track();
    let result = resolve(
        Some(&track),
        SourceConfig::Remote,
        None,
        Some(png_bytes()),
        &["cover.jpg"],
        Some(png_bytes()),
    );
    assert!(result.is_none());
}

#[test]
fn all_source_config_tries_embedded_then_local() {
    let track = track();
    let files = ["cover.jpg"];
    assert_eq!(
        resolve(Some(&track), SourceConfig::All, None, None, &files, None),
        Some(ArtworkSource::File(FilePath::from_text("/music/cover.jpg")))
    );
    assert_eq!(
        resolve(
            Some(&track),
            SourceConfig::All,
            None,
            Some(vec![1, 2]),
            &files,
            None
        ),
        Some(ArtworkSource::Embedded(vec![1, 2]))
    );
}

#[test]
fn stream_source_skips_local_probes_but_keeps_remote_resolution() {
    let metadata = TrackMetadata {
        artist: "Artist".to_string(),
        album: "Album".to_string(),
        ..TrackMetadata::default()
    };

    assert_eq!(
        resolve(
            None,
            SourceConfig::Metadata,
            Some(&metadata),
            Some(png_bytes()),
            &["cover.jpg"],
            Some(png_bytes())
        ),
        None,
        "streams have no embedded tag path"
    );
    assert_eq!(
        resolve(
            None,
            SourceConfig::Local,
            Some(&metadata),
            Some(png_bytes()),
            &["cover.jpg"],
            Some(png_bytes())
        ),
        None,
        "streams have no directory path"
    );
    assert!(matches!(
        resolve(
            None,
            SourceConfig::All,
            Some(&metadata),
            Some(png_bytes()),
            &["cover.jpg"],
            Some(png_bytes())
        ),
        Some(ArtworkSource::Remote(_))
    ));
    match resolve_source(
        None,
        SourceConfig::All,
        Some(&metadata),
        &cache_dir(),
        SourceAnswer::Nothing,
    ) {
        SourceStep::FetchCover(fetch) => match fetch.begin() {
            FetchAction::ReadEntry(path) => assert_eq!(
                path.to_text().expect("UTF-8 path"),
                format!(
                    "/tmp/harmonium-test-cache/artwork/{}.jpg",
                    build_cache_key("Artist", "Album")
                )
            ),
            _ => panic!("expected a lookup"),
        },
        _ => panic!("expected a fetch"),
    }
}

#[test]
fn pictures_come_from_the_primary_tag_or_else_the_first() {
    let one = || Some(vec![vec![1], vec![2]]);
    let other = || Some(vec![vec![3]]);
    assert_eq!(embedded_picture(one(), other()), Some(vec![1]));
    assert_eq!(embedded_picture(None, other()), Some(vec![3]));
    assert_eq!(embedded_picture(Some(Vec::new()), other()), None);
    assert_eq!(embedded_picture(None, None), None);
}

/// Append a metadata block of an audio file.
fn push_block(file: &mut Vec<u8>, kind: u8, content: &[u8]) {
    file.push(kind);
    file.extend_from_slice(&(content.len() as u32).to_be_bytes()[1..]);
    file.extend_from_slice(content);
}

/// An audio file whose tags hold pictures.
fn audio_file(pictures: &[&[u8]]) -> Vec<u8> {
    let mut stream = vec![0u8; 34];
    stream[0] = 0x10;
    stream[2] = 0x10;
    stream[10..14].copy_from_slice(&[0x0a, 0xc4, 0x42, 0xf0]);
    let mut file = b"fLaC".to_vec();
    push_block(&mut file, 0, &stream);
    for picture in pictures {
        let mut content = Vec::new();
        content.extend_from_slice(&3u32.to_be_bytes());
        content.extend_from_slice(&9u32.to_be_bytes());
        content.extend_from_slice(b"image/png");
        content.extend_from_slice(&[0u8; 20]);
        content.extend_from_slice(&(picture.len() as u32).to_be_bytes());
        content.extend_from_slice(picture);
        push_block(&mut file, 6, &content);
    }
    // Comments without entries end the metadata
    push_block(&mut file, 0x84, &[0u8; 8]);
    file
}

#[test]
fn tags_of_audio_files_hold_the_cover() {
    let cover = png_bytes();
    assert_eq!(picture_in(&audio_file(&[&cover])), Some(cover.clone()));
    assert_eq!(picture_in(&audio_file(&[&cover, b"other"])), Some(cover.clone()));
    assert_eq!(picture_in(&audio_file(&[])), None);
    assert_eq!(picture_in(&b"no audio file".to_vec()), None);
    assert_eq!(picture_in(&Vec::new()), None);
    assert_eq!(picture_in(&cover), None);
}
