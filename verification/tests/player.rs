use harmonium::artwork::state::{ArtworkProtocol, ResizeLifecycle};
use harmonium::artwork::protocol::Submission;
use harmonium::config::ArtworkSource as SourceConfig;
use harmonium::geometry::Size;
use harmonium::metadata::TrackMetadata;
use harmonium::path::FilePath;
use harmonium::player::app::{App, Command, Panel, Popup};
use harmonium::player::audio::{
    AudioCommand, PlayStatus, PlaybackSnapshot, PlaybackSpeed, SinkHealth, VolumePercent,
    SPEED_DEFAULT_TENTHS, SPEED_MAX_TENTHS, SPEED_MIN_TENTHS,
};
use harmonium::player::effect::Effect;
use harmonium::player::events::FrameMetrics;
use harmonium::player::lyrics::{
    lyrics_request_for, LoadOutcome, LyricsDocument, LyricsOrigin,
};
use harmonium::player::navigation::RepeatMode;
use harmonium::player::notice::{Notice, NOTIFICATIONS_CAP};
use harmonium::player::playlist::Playlist;
use harmonium::player::track::{Track, TrackLocation};
use harmonium::time::Duration;
use ratatui_image::picker::Picker;
use ratatui_image::protocol::StatefulProtocol;

fn path(text: &str) -> FilePath {
    FilePath::from_text(text)
}

fn paths(texts: &[&str]) -> Vec<FilePath> {
    texts.iter().map(|text| path(text)).collect()
}

fn local(text: &str) -> Track {
    Track::local(path(text))
}

fn queue(texts: &[&str]) -> Playlist {
    let mut playlist = Playlist::new();
    playlist.extend(texts.iter().map(|text| local(text)).collect());
    playlist
}

fn volume(value: u16) -> VolumePercent {
    VolumePercent::new(value).expect("test volume must be valid")
}

fn speed(tenths: u16) -> PlaybackSpeed {
    PlaybackSpeed::new(tenths).expect("test speed must be valid")
}

fn zero() -> Duration {
    Duration::from_secs(0)
}

fn last_note(app: &App) -> Option<String> {
    app.notifications.last().map(Notice::text)
}

#[test]
fn new_players_are_empty() {
    let app = App::new();
    assert!(app.playlist.is_empty());
    assert_eq!(app.playlist.cursor(), 0);
    assert!(app.navigation.history.is_empty());
    assert!(app.navigation.unplayed.is_empty());
    assert!(app.resume.last_track.is_none());
    assert_eq!(app.resume.position_ms, 0);
    assert!(!app.lyrics.visible && !app.lyrics.loading && app.lyrics.document.is_none());
    assert!(!app.artwork.is_enabled() && !app.artwork.has_artwork());
    assert_eq!(app.artwork.playlist_target, Size::new(14, 7));
    assert_eq!(app.settings.artwork_source, SourceConfig::All);
    assert!(app.settings.cache_dir.is_empty());
    assert_eq!((app.stream_generation, app.roll), (0, 0));
}

/// Queue /a.mp3 /b.mp3 /c.mp3 and pretend the cursor entry is playing.
fn playing_fixture(cursor: usize) -> App {
    let mut app = App::new();
    app.extend_playlist(paths(&["/a.mp3", "/b.mp3", "/c.mp3"]));
    app.playlist.select(cursor);
    app.playback.track_index = Some(cursor);
    app.playback.status = PlayStatus::Playing;
    app
}

fn audio_commands(effects: Vec<Effect>) -> Vec<AudioCommand> {
    effects
        .into_iter()
        .filter_map(|effect| match effect {
            Effect::Audio(command) => Some(command),
            _ => None,
        })
        .collect()
}

fn play(source: &str, track_index: usize) -> AudioCommand {
    AudioCommand::Play {
        source: TrackLocation::local(source),
        track_index,
        generation: None,
    }
}

fn locations(app: &App) -> Vec<String> {
    app.playlist
        .tracks()
        .iter()
        .map(Track::display_location)
        .collect()
}

fn tags(title: &str, seconds: u64) -> TrackMetadata {
    TrackMetadata {
        title: title.to_string(),
        title_tagged: true,
        artist: "A".to_string(),
        album: "B".to_string(),
        duration: Duration::from_secs(seconds),
        ..TrackMetadata::default()
    }
}

fn test_protocol() -> StatefulProtocol {
    Picker::halfblocks().new_resize_protocol(image::DynamicImage::new_rgba8(2, 2))
}

fn cover() -> Option<ArtworkProtocol> {
    Some(ArtworkProtocol::new(test_protocol()))
}

/// Entry and path of the cover that is requested among effects, if any.
fn requested_cover(effects: &[Effect]) -> Option<(usize, Option<FilePath>)> {
    effects.iter().find_map(|effect| match effect {
        Effect::LoadArtwork { track_index, path, .. } => Some((*track_index, path.clone())),
        _ => None,
    })
}

/// Entry whose lyrics are requested among effects, if any.
fn requested_lyrics(effects: &[Effect]) -> Option<usize> {
    effects.iter().find_map(|effect| match effect {
        Effect::LoadLyrics { track_index, .. } => Some(*track_index),
        _ => None,
    })
}

/// Entry and source that are made ready among effects, if any.
fn preloaded(effects: &[Effect]) -> Option<(usize, String)> {
    effects.iter().find_map(|effect| match effect {
        Effect::Audio(AudioCommand::PreloadNext { source, track_index }) => {
            Some((*track_index, source.display_location()))
        }
        _ => None,
    })
}

/// Name under which the queue is saved among effects, if at all.
fn saved_name(effects: &[Effect]) -> Option<String> {
    effects.iter().find_map(|effect| match effect {
        Effect::SaveActivePlaylist { name } => Some(name.clone()),
        _ => None,
    })
}

fn requested_tags(effects: &[Effect]) -> Vec<FilePath> {
    match effects {
        [Effect::LoadMetadata(files)] => files.clone(),
        _ => panic!("expected one request for tags"),
    }
}

#[test]
fn capability_queue_mutation_preserves_selection_viewport_invariant() {
    let mut app = App::new();
    app.set_playlist_viewport_height(1);
    app.extend_playlist(paths(&["/music/one.mp3", "/music/two.mp3"]));

    app.select_playlist_track(1);

    assert_eq!(app.playlist.cursor(), 1);
    assert_eq!(app.playlist_scroll_offset(), 1);
}

#[test]
fn stale_artwork_delivery_does_not_clear_a_newer_pending_request() {
    let mut app = App::new();
    app.artwork_loading = true;
    app.playback.track_index = Some(2);

    app.apply_artwork_loaded(0, None);
    assert!(
        app.artwork_loading,
        "a stale artwork delivery must not clear the current request"
    );
}

#[test]
fn active_popup_ref_borrows_the_popup_stored_in_state() {
    let mut app = App::new();
    app.handle_command(Command::Quit);

    let borrowed = app.active_popup_ref().expect("quit popup should be open");
    let stored = app
        .screen
        .popup
        .as_ref()
        .expect("quit popup should remain stored");

    assert!(std::ptr::eq(borrowed, stored));
}

#[test]
fn active_popup_owned_preserves_an_owned_snapshot() {
    let mut app = App::new();
    app.handle_command(Command::Quit);

    let owned = app
        .active_popup()
        .expect("quit popup should be available to owned callers");
    app.screen.popup = None;

    assert_eq!(owned, Popup::ConfirmQuit);
}

#[test]
fn quit_with_default_confirmation_opens_dialog_only() {
    let mut app = App::new();
    assert!(app.screen.confirm_quit);

    app.handle_command(Command::Quit);

    assert_eq!(app.active_popup(), Some(Popup::ConfirmQuit));
    assert!(!app.should_quit());
}

#[test]
fn quit_without_confirmation_exits_directly() {
    let mut app = App::new();
    app.screen.confirm_quit = false;

    app.handle_command(Command::Quit);

    assert!(app.should_quit());
    assert!(app.active_popup().is_none());
}

#[test]
fn confirming_quit_closes_dialog_and_exits() {
    let mut app = App::new();
    app.handle_command(Command::Quit);

    app.handle_command(Command::ConfirmQuitYes);

    assert!(app.should_quit());
    assert!(app.active_popup().is_none());
}

#[test]
fn cancelling_quit_clears_dialog_without_exiting() {
    let mut app = App::new();
    app.handle_command(Command::Quit);

    app.handle_command(Command::CancelPopup);

    assert!(!app.should_quit());
    assert!(app.active_popup().is_none());
}

#[test]
fn focus_cycles_backward_across_panels() {
    let mut app = App::new();

    app.handle_command(Command::FocusPreviousPanel);
    assert_eq!(app.active_panel(), Panel::Playlist);

    app.handle_command(Command::FocusPreviousPanel);
    assert_eq!(app.active_panel(), Panel::Browser);
}

#[test]
fn focus_commands_cycle_forward_across_panels() {
    let mut app = App::new();
    assert_eq!(app.active_panel(), Panel::Browser);
    app.handle_command(Command::FocusNextPanel);
    assert_eq!(app.active_panel(), Panel::Playlist);
    app.handle_command(Command::FocusNextPanel);
    assert_eq!(app.active_panel(), Panel::Browser);
}

#[test]
fn notification_queue_honors_the_display_cap() {
    let mut app = App::new();

    for index in 0..55 {
        app.push_notification(Notice::Other(format!("note-{index}")));
    }

    assert_eq!(app.notifications.len(), NOTIFICATIONS_CAP);
    assert_eq!(
        app.notifications.first().map(Notice::text),
        Some("note-5".to_string())
    );
}

#[test]
fn scan_completion_appends_tracks_and_requests_metadata() {
    let mut app = App::new();

    let effects = app.apply_scan_completed(
        path("/music/album"),
        paths(&["/music/a.mp3", "/music/b.flac"]),
    );

    assert_eq!(app.playlist.len(), 2);
    assert_eq!(
        requested_tags(&effects),
        paths(&["/music/a.mp3", "/music/b.flac"])
    );
    assert_eq!(
        last_note(&app),
        Some("Added 2 tracks from /music/album".to_string())
    );
}

#[test]
fn scan_completion_requests_metadata_for_entries_added_after_a_middle_duplicate() {
    let mut app = App::new();
    app.extend_playlist(paths(&["/music/a.mp3"]));

    let effects = app.apply_scan_completed(
        path("/music/album"),
        paths(&["/music/a.mp3", "/music/b.mp3", "/music/c.mp3"]),
    );

    let queued_paths: Vec<FilePath> = app
        .playlist
        .tracks()
        .iter()
        .filter_map(Track::path)
        .collect();
    assert_eq!(
        queued_paths,
        paths(&["/music/a.mp3", "/music/b.mp3", "/music/c.mp3"])
    );
    assert_eq!(
        requested_tags(&effects),
        paths(&["/music/b.mp3", "/music/c.mp3"])
    );
}

#[test]
fn scans_of_known_files_change_and_request_nothing() {
    let mut app = App::new();
    app.extend_playlist(paths(&["/music/a.mp3"]));
    app.active_playlist_name = Some("Rock".to_string());

    let effects = app.apply_scan_completed(path("/music"), paths(&["/music/./a.mp3"]));

    assert!(effects.is_empty());
    assert_eq!(app.playlist.len(), 1);
    assert_eq!(last_note(&app), Some("Added 0 tracks from /music".to_string()));
}

#[test]
fn empty_scan_completion_reports_no_supported_files() {
    let mut app = App::new();

    let effects = app.apply_scan_completed(path("/empty"), Vec::new());

    assert!(app.playlist.is_empty());
    assert!(effects.is_empty());
    assert_eq!(
        last_note(&app),
        Some("No supported audio files found".to_string())
    );
}

#[test]
fn metadata_results_attach_to_every_matching_queue_entry() {
    let mut app = App::new();
    let append = app.extend_playlist(paths(&["/dup.mp3", "/other.mp3", "/dup.mp3"]));
    assert_eq!(append.added(), 2);
    assert_eq!(append.skipped, 1, "the repeat must be skipped");

    let meta = TrackMetadata {
        title: "Snapshot".to_string(),
        title_tagged: true,
        artist: "A".to_string(),
        album: "L".to_string(),
        track_number: None,
        duration: Duration::from_secs(9),
        bitrate: None,
        sample_rate: None,
        codec: String::new(),
        format: String::new(),
        album_artist: None,
        disc_number: None,
        genre: None,
        year: None,
        composer: None,
        comment: None,
    };
    app.apply_metadata_completed(vec![(path("/dup.mp3"), meta)], 1);

    assert_eq!(app.playlist.len(), 2);
    assert_eq!(app.playlist.tracks()[0].display_name(), "Snapshot");
    assert_eq!(app.playlist.tracks()[1].display_name(), "other");
    assert_eq!(
        last_note(&app),
        Some("Metadata unavailable for 1 track".to_string())
    );
}

#[test]
fn metadata_failures_pluralize_the_status_message() {
    let mut app = App::new();

    app.apply_metadata_completed(Vec::new(), 3);
    assert_eq!(
        last_note(&app),
        Some("Metadata unavailable for 3 tracks".to_string())
    );

    app.apply_metadata_completed(Vec::new(), 0);
    assert_eq!(
        last_note(&app),
        Some("Metadata unavailable for 3 tracks".to_string()),
        "a clean batch must not notify"
    );
}

#[test]
fn late_metadata_syncs_duration_for_current_track() {
    let mut app = App::new();
    app.playlist = queue(&["/playing.mp3"]);
    app.playback.track_index = Some(0);
    app.playback.status = PlayStatus::Playing;
    assert!(app.playback.duration.is_none());

    app.apply_metadata_completed(vec![(path("/playing.mp3"), tags("Late Track", 210))], 0);

    assert_eq!(
        app.playback.duration,
        Some(Duration::from_secs(210)),
        "late metadata must update the gauge duration for the current track"
    );
}

#[test]
fn late_metadata_does_not_overwrite_existing_duration() {
    let mut app = App::new();
    app.playlist = queue(&["/playing.mp3"]);
    app.playback.track_index = Some(0);
    app.playback.duration = Some(Duration::from_secs(180));

    app.apply_metadata_completed(vec![(path("/playing.mp3"), tags("Late", 210))], 0);

    assert_eq!(
        app.playback.duration,
        Some(Duration::from_secs(180)),
        "must not overwrite duration that was already set"
    );
}

#[test]
fn metadata_apply_preserves_the_stored_playlist_order() {
    let mut app = App::new();
    app.playlist = queue(&["/music/track2.mp3", "/music/track1.mp3"]);
    let numbered = |number: u32| TrackMetadata {
        track_number: Some(number),
        ..tags(&format!("Track {number}"), 60)
    };

    app.apply_metadata_completed(
        vec![
            (path("/music/track2.mp3"), numbered(2)),
            (path("/music/track1.mp3"), numbered(1)),
        ],
        0,
    );

    assert_eq!(locations(&app), vec!["/music/track2.mp3", "/music/track1.mp3"]);
}

#[test]
fn metadata_apply_does_not_reorder_under_filename_sort() {
    let mut app = App::new();
    app.playlist = queue(&["/music/a1.mp3", "/music/a2.mp3"]);
    let numbered = |number: u32| TrackMetadata {
        track_number: Some(number),
        ..tags(&format!("Track {number}"), 60)
    };

    app.apply_metadata_completed(
        vec![
            (path("/music/a1.mp3"), numbered(2)),
            (path("/music/a2.mp3"), numbered(1)),
        ],
        0,
    );

    assert_eq!(
        locations(&app),
        vec!["/music/a1.mp3", "/music/a2.mp3"],
        "Filename strategy must ignore the metadata order"
    );
}

#[test]
fn crossfade_arms_the_following_track_only_when_enabled() {
    let mut app = playing_fixture(0);
    app.settings.crossfade_seconds = 0;
    assert!(
        preloaded(&app.begin_current_track()).is_none(),
        "0 s must not arm a crossfade"
    );

    app.settings.crossfade_seconds = 15;
    let (track_index, source) =
        preloaded(&app.begin_current_track()).expect("enabled crossfade arms next");
    assert_eq!(track_index, 1, "must preload the next entry");
    assert_eq!(source, "/b.mp3");

    assert_eq!(app.playback.track_index, Some(0));

    let mut tail = playing_fixture(2);
    tail.settings.crossfade_seconds = 15;
    assert!(
        preloaded(&tail.begin_current_track()).is_none(),
        "last track has no next to arm"
    );
}

#[test]
fn crossfade_completion_adopts_track_b_elapsed_and_preserves_follow_up_work() {
    let mut app = playing_fixture(0);
    app.settings.crossfade_seconds = 15;
    app.artwork.set_enabled(true);
    app.lyrics.visible = true;

    let metadata = TrackMetadata {
        duration: Duration::from_secs(90),
        ..TrackMetadata::default()
    };
    app.playlist
        .apply_metadata(&TrackLocation::local("/b.mp3"), &metadata);

    let elapsed = Duration::from_millis(1_250);
    let effects = app.apply_crossfade_completed(path("/album/../b.mp3"), elapsed);

    assert_eq!(app.playback.track_index, Some(1));
    assert_eq!(app.playback.elapsed, elapsed);
    assert_eq!(app.resume.position_ms, 1_250);
    assert_eq!(app.playback.duration, Some(Duration::from_secs(90)));
    assert_eq!(app.resume.last_track, Some(TrackLocation::local("/b.mp3")));
    assert_eq!(requested_cover(&effects), Some((1, Some(path("/b.mp3")))));
    assert_eq!(requested_lyrics(&effects), Some(1));
    assert_eq!(preloaded(&effects), Some((2, "/c.mp3".to_string())));
}

#[test]
fn stale_or_unknown_crossfade_completion_is_ignored() {
    let mut app = playing_fixture(0);
    app.playback.elapsed = Duration::from_secs(3);
    app.resume.position_ms = 3_000;

    let effects =
        app.apply_crossfade_completed(path("/no-longer-queued.mp3"), Duration::from_secs(1));

    assert!(effects.is_empty());
    assert_eq!(app.playback.track_index, Some(0));
    assert_eq!(app.playback.elapsed, Duration::from_secs(3));
    assert_eq!(app.resume.position_ms, 3_000);
}

#[test]
fn toggle_pause_flips_between_playing_and_paused() {
    let mut app = playing_fixture(0);

    let effects = app.handle_command(Command::TogglePause);
    assert_eq!(audio_commands(effects), vec![AudioCommand::Pause]);
    assert_eq!(app.playback.status, PlayStatus::Paused);

    let effects = app.handle_command(Command::TogglePause);
    assert_eq!(audio_commands(effects), vec![AudioCommand::Resume]);
    assert_eq!(app.playback.status, PlayStatus::Playing);
}

#[test]
fn toggle_pause_is_a_no_op_while_stopped() {
    let mut app = App::new();

    let effects = app.handle_command(Command::TogglePause);

    assert!(effects.is_empty());
    assert_eq!(app.playback.status, PlayStatus::Stopped);
}

#[test]
fn next_track_starts_the_following_entry_from_the_top() {
    let mut app = playing_fixture(0);

    let effects = app.handle_command(Command::NextTrack);

    assert_eq!(audio_commands(effects), vec![play("/b.mp3", 1)]);
    assert_eq!(app.playback.track_index, Some(1));
    assert_eq!(app.playback.status, PlayStatus::Playing);
    assert_eq!(app.playback.elapsed, zero());
    assert_eq!(app.playlist.cursor(), 1);
}

#[test]
fn next_track_at_the_tail_notifies_and_keeps_playing() {
    let mut app = playing_fixture(2);

    let effects = app.handle_command(Command::NextTrack);

    assert!(effects.is_empty());
    assert_eq!(app.playback.track_index, Some(2));
    assert_eq!(app.playback.status, PlayStatus::Playing);
    assert_eq!(last_note(&app), Some("No next track".to_string()));
}

#[test]
fn previous_track_deep_into_the_song_restarts_it() {
    let mut app = playing_fixture(1);
    app.playback.elapsed = Duration::from_secs(10);

    let effects = app.handle_command(Command::PreviousTrack);

    assert_eq!(audio_commands(effects), vec![AudioCommand::SeekTo(zero())]);
    // The queue cursor must not move on a restart
    assert_eq!(app.playlist.cursor(), 1);
    assert_eq!(app.playback.track_index, Some(1));
    assert_eq!(app.playback.elapsed, zero());
}

#[test]
fn previous_track_near_the_start_switches_to_the_predecessor() {
    let mut app = playing_fixture(2);
    app.playback.elapsed = Duration::from_secs(1);

    let effects = app.handle_command(Command::PreviousTrack);

    assert_eq!(audio_commands(effects), vec![play("/b.mp3", 1)]);
    assert_eq!(app.playlist.cursor(), 1);
}

#[test]
fn previous_track_on_the_first_entry_restarts_it() {
    let mut app = playing_fixture(0);
    app.playback.elapsed = Duration::from_secs(1);

    let effects = app.handle_command(Command::PreviousTrack);

    assert_eq!(audio_commands(effects), vec![AudioCommand::SeekTo(zero())]);
    assert_eq!(app.playlist.cursor(), 0);
}

#[test]
fn volume_steps_saturate_and_report_each_value() {
    let mut app = playing_fixture(0);
    app.playback.volume_percent = volume(98);

    let up = app.handle_command(Command::VolumeUp);
    assert_eq!(audio_commands(up), vec![AudioCommand::SetVolume(volume(100))]);
    assert_eq!(app.playback.volume_percent, volume(100));

    let pinned = app.handle_command(Command::VolumeUp);
    assert_eq!(
        audio_commands(pinned),
        vec![AudioCommand::SetVolume(volume(100))]
    );

    app.playback.volume_percent = volume(3);
    let down = app.handle_command(Command::VolumeDown);
    assert_eq!(audio_commands(down), vec![AudioCommand::SetVolume(volume(0))]);
    assert_eq!(app.playback.volume_percent, volume(0));
}

#[test]
fn volumes_and_speeds_outside_their_range_are_refused() {
    assert_eq!(VolumePercent::new(101), None);
    assert_eq!(PlaybackSpeed::new(4), None);
    assert_eq!(PlaybackSpeed::new(21), None);
}

#[test]
fn speed_steps_saturate_bounds_and_reset_returns_to_default() {
    let mut app = playing_fixture(0);
    app.playback.speed = speed(SPEED_DEFAULT_TENTHS);

    let up = app.handle_command(Command::SpeedUp);
    assert_eq!(
        audio_commands(up),
        vec![AudioCommand::SetSpeed(speed(SPEED_DEFAULT_TENTHS + 1))]
    );
    assert_eq!(app.playback.speed, speed(SPEED_DEFAULT_TENTHS + 1));

    // Saturate at the maximum: repeated presses never exceed it.
    app.playback.speed = speed(SPEED_MAX_TENTHS);
    let pinned = app.handle_command(Command::SpeedUp);
    assert_eq!(
        audio_commands(pinned),
        vec![AudioCommand::SetSpeed(speed(SPEED_MAX_TENTHS))]
    );
    assert_eq!(app.playback.speed, speed(SPEED_MAX_TENTHS));

    // Saturate at the minimum on the other side.
    app.playback.speed = speed(SPEED_MIN_TENTHS);
    let down = app.handle_command(Command::SpeedDown);
    assert_eq!(
        audio_commands(down),
        vec![AudioCommand::SetSpeed(speed(SPEED_MIN_TENTHS))]
    );
    assert_eq!(app.playback.speed, speed(SPEED_MIN_TENTHS));

    let reset = app.handle_command(Command::SpeedReset);
    assert_eq!(
        audio_commands(reset),
        vec![AudioCommand::SetSpeed(speed(SPEED_DEFAULT_TENTHS))]
    );
    assert!(app.playback.speed == speed(SPEED_DEFAULT_TENTHS));
}

#[test]
fn repeated_speed_steps_return_to_exact_unity() {
    let mut app = playing_fixture(0);

    for _ in 0..10 {
        app.handle_command(Command::SpeedUp);
    }
    for _ in 0..10 {
        app.handle_command(Command::SpeedDown);
    }

    assert_eq!(app.playback.speed, speed(SPEED_DEFAULT_TENTHS));
    assert_eq!(app.playback.speed.tenths(), 10);
}

#[test]
fn repeated_forward_seek_emits_relative_commands_without_mutating_elapsed() {
    let mut app = playing_fixture(0);
    app.playback.duration = Some(Duration::from_secs(3600));
    app.playback.elapsed = Duration::from_secs(60);

    let forward = app.handle_command(Command::SeekForward);
    assert_eq!(
        audio_commands(forward),
        vec![AudioCommand::SeekBy {
            forward: true,
            amount: Duration::from_secs(30),
        }]
    );
    assert_eq!(app.playback.elapsed, Duration::from_secs(60));

    let repeated = app.handle_command(Command::SeekForward);
    assert_eq!(
        audio_commands(repeated),
        vec![AudioCommand::SeekBy {
            forward: true,
            amount: Duration::from_secs(30),
        }]
    );
    assert_eq!(app.playback.elapsed, Duration::from_secs(60));
}

#[test]
fn repeated_backward_seek_emits_relative_commands_without_mutating_elapsed() {
    let mut app = playing_fixture(0);
    app.playback.duration = Some(Duration::from_secs(120));
    app.playback.elapsed = Duration::from_secs(30);

    let backward = app.handle_command(Command::SeekBackward);
    assert_eq!(
        audio_commands(backward),
        vec![AudioCommand::SeekBy {
            forward: false,
            amount: Duration::from_secs(5),
        }]
    );
    assert_eq!(app.playback.elapsed, Duration::from_secs(30));

    let repeated = app.handle_command(Command::SeekBackward);
    assert_eq!(
        audio_commands(repeated),
        vec![AudioCommand::SeekBy {
            forward: false,
            amount: Duration::from_secs(5),
        }]
    );
    assert_eq!(app.playback.elapsed, Duration::from_secs(30));
}

#[test]
fn stale_progress_does_not_change_the_next_relative_seek_command() {
    let mut app = playing_fixture(0);
    app.playback.duration = Some(Duration::from_secs(3600));
    app.playback.elapsed = Duration::from_secs(60);

    let first = app.handle_command(Command::SeekForward);
    assert!(matches!(
        audio_commands(first).as_slice(),
        [AudioCommand::SeekBy {
            forward: true,
            amount,
        }] if *amount == Duration::from_secs(30)
    ));

    // This snapshot was queued before the worker acknowledged the seek.
    app.apply_playback_progress(PlaybackSnapshot {
        status: PlayStatus::Playing,
        track_index: Some(0),
        elapsed: zero(),
        duration: Some(Duration::from_secs(3600)),
        sink_health: SinkHealth::Healthy,
    });

    let second = app.handle_command(Command::SeekForward);
    assert!(matches!(
        audio_commands(second).as_slice(),
        [AudioCommand::SeekBy {
            forward: true,
            amount,
        }] if *amount == Duration::from_secs(30)
    ));
}

#[test]
fn seek_without_an_active_track_stays_silent() {
    let mut app = App::new();

    let effects = app.handle_command(Command::SeekForward);

    assert!(effects.is_empty());
}

#[test]
fn play_selected_starts_the_cursor_entry() {
    let mut app = App::new();
    app.extend_playlist(paths(&["/x.flac", "/y.mp3"]));
    app.playlist.select(1);

    let effects = app.handle_command(Command::PlaySelected);

    assert_eq!(audio_commands(effects), vec![play("/y.mp3", 1)]);
    assert_eq!(app.playback.track_index, Some(1));
}

#[test]
fn play_selected_on_an_empty_queue_only_notifies() {
    let mut app = App::new();

    let effects = app.handle_command(Command::PlaySelected);

    assert!(effects.is_empty());
    assert_eq!(last_note(&app), Some("Queue is empty".to_string()));
}

#[test]
fn cycle_repeat_walks_the_owner_mode_and_reports_each_step() {
    let mut app = playing_fixture(0);

    app.handle_command(Command::CycleRepeat);
    assert_eq!(app.playback_mode.repeat(), RepeatMode::Track);

    app.handle_command(Command::CycleRepeat);
    assert_eq!(app.playback_mode.repeat(), RepeatMode::All);

    app.handle_command(Command::CycleRepeat);
    assert_eq!(app.playback_mode.repeat(), RepeatMode::Off);
    assert_eq!(last_note(&app), Some("Repeat mode: Off".to_string()));
}

#[test]
fn toggle_shuffle_flips_the_axis_and_reserves_the_playing_track() {
    let mut app = playing_fixture(1);

    let effects = app.handle_command(Command::ToggleShuffle);

    assert!(effects.is_empty(), "mode changes never touch the worker");
    assert!(app.playback_mode.shuffle());
    // The fresh pass keeps every entry drawable except the one playing
    assert!(app.navigation.unplayed_contains(0));
    assert!(!app.navigation.unplayed_contains(1));
    assert!(app.navigation.unplayed_contains(2));

    app.handle_command(Command::ToggleShuffle);
    assert!(!app.playback_mode.shuffle());
    assert_eq!(last_note(&app), Some("Shuffle off".to_string()));
}

#[test]
fn track_repeat_auto_advance_replays_the_same_entry() {
    let mut app = playing_fixture(0);
    app.handle_command(Command::CycleRepeat);

    let effects = app.apply_track_ended(0);

    assert_eq!(audio_commands(effects), vec![play("/a.mp3", 0)]);
    assert_eq!(app.playlist.cursor(), 0);
    assert_eq!(app.playback.status, PlayStatus::Playing);
}

#[test]
fn track_repeat_replays_the_playing_track_not_the_hovered_cursor() {
    let mut app = playing_fixture(0);
    app.handle_command(Command::CycleRepeat); // RepeatMode::Track
    app.playlist.select(1); // hover over Track B, don't play it

    let effects = app.apply_track_ended(0); // Track A finished

    assert_eq!(
        audio_commands(effects),
        vec![play("/a.mp3", 0)],
        "repeat-track must replay the finished playing entry, not the hovered one"
    );
    assert_eq!(app.playlist.cursor(), 0, "cursor follows playback");
    assert_eq!(app.playback.track_index, Some(0));
}

#[test]
fn repeat_all_wraps_at_the_tail_for_manual_next() {
    let mut app = playing_fixture(2);
    app.handle_command(Command::CycleRepeat);
    app.handle_command(Command::CycleRepeat);

    let effects = app.handle_command(Command::NextTrack);

    assert_eq!(audio_commands(effects), vec![play("/a.mp3", 0)]);
    assert_eq!(app.playlist.cursor(), 0);
}

#[test]
fn shuffled_manual_next_never_repeats_back_to_back() {
    for roll in [0u64, 1, 12_345, u64::MAX] {
        let mut app = App::new();
        app.roll = roll;
        app.extend_playlist(paths(&["/a.mp3", "/b.mp3", "/c.mp3", "/d.mp3"]));
        app.playlist.select(0);
        app.playback.track_index = Some(0);
        app.handle_command(Command::ToggleShuffle);

        let mut visited = Vec::new();
        for _ in 0..8 {
            let effects = app.handle_command(Command::NextTrack);
            let commands = audio_commands(effects);
            if let Some(AudioCommand::Play { track_index, .. }) = commands.first() {
                visited.push(*track_index);
            }
        }

        assert_eq!(visited.len(), 8, "shuffle plus manual skip always plays");
        for pair in visited.windows(2) {
            assert_ne!(
                pair[0], pair[1],
                "two consecutive draws repeated track {}",
                pair[0]
            );
        }
        assert!(
            visited.iter().all(|index| *index < 4),
            "every draw stayed inside the queue"
        );
    }
}

#[test]
fn shuffled_passes_end_unless_the_queue_repeats() {
    let mut app = playing_fixture(0);
    app.handle_command(Command::ToggleShuffle);
    let mut played = vec![0];
    for _ in 0..2 {
        let current = app.playback.track_index.expect("playing");
        app.apply_track_ended(current);
        played.push(app.playback.track_index.expect("playing"));
    }
    played.sort();
    assert_eq!(played, vec![0, 1, 2]);
    let current = app.playback.track_index.expect("playing");
    assert!(app.apply_track_ended(current).is_empty());
    assert_eq!(app.playback.status, PlayStatus::Stopped);
}

#[test]
fn previous_follows_the_played_history_over_sequential_fallback() {
    let mut app = playing_fixture(0);
    // Walk forward once so the trail holds entry zero then entry one
    app.apply_track_ended(0);
    // Jump back to the first entry explicitly, making the trail
    // disagree with the plain sequential predecessor
    app.playlist.select(0);
    app.playback.elapsed = zero();
    app.handle_command(Command::PlaySelected);

    let effects = app.handle_command(Command::PreviousTrack);

    // History says entry one was heard just before, sequential
    // fallback from the first entry would have restarted instead
    assert_eq!(audio_commands(effects), vec![play("/b.mp3", 1)]);
    assert_eq!(app.playlist.cursor(), 1);
}

#[test]
fn deleting_the_playing_queue_entry_emits_stop_and_clears_playback() {
    let mut app = playing_fixture(1);
    app.resume.last_track = Some(TrackLocation::local("/b.mp3"));
    app.active_playlist_name = Some("saved".to_string());
    app.playback.elapsed = Duration::from_secs(12);
    app.resume.position_ms = 12_000;

    let effects = app.handle_command(Command::DeleteQueueEntry);

    assert_eq!(saved_name(&effects), Some("saved".to_string()));
    assert_eq!(audio_commands(effects), vec![AudioCommand::Stop]);
    assert_eq!(app.playback.status, PlayStatus::Stopped);
    assert_eq!(app.playback.track_index, None);
    assert_eq!(app.resume.last_track, None);
    assert_eq!(app.resume.position_ms, 0);
    assert_eq!(app.playlist.cursor(), 1);
}

#[test]
fn deleting_another_entry_keeps_the_playing_one() {
    let mut app = playing_fixture(1);
    app.playlist.select(0);
    app.handle_command(Command::ToggleShuffle);

    let effects = app.handle_command(Command::DeleteQueueEntry);

    assert!(effects.is_empty(), "queue edits emit no worker commands");
    assert_eq!(locations(&app), vec!["/b.mp3", "/c.mp3"]);
    assert_eq!(app.playback.track_index, Some(0));
    assert_eq!(app.navigation.history_len(), 0);
    assert!(app.navigation.unplayed_contains(1));
    assert!(!app.navigation.unplayed_contains(0));
}

#[test]
fn delete_on_an_empty_queue_only_notifies() {
    let mut app = App::new();

    let effects = app.handle_command(Command::DeleteQueueEntry);

    assert!(effects.is_empty());
    assert_eq!(last_note(&app), Some("Queue is empty".to_string()));
}

#[test]
fn clearing_the_queue_lets_the_running_track_finish() {
    let mut app = playing_fixture(0);

    let effects = app.handle_command(Command::ClearQueue);

    assert!(effects.is_empty(), "clearing never commands the worker");
    assert!(app.playlist.is_empty());
    assert_eq!(app.playback.status, PlayStatus::Playing);

    // The natural completion lands on an empty queue and stops
    let ended = app.apply_track_ended(0);
    assert!(ended.is_empty());
    assert_eq!(app.playback.status, PlayStatus::Stopped);
}

#[test]
fn swap_commands_move_rows_with_the_selection_riding_along() {
    let mut app = playing_fixture(1);
    app.playlist.select(2);

    let effects = app.handle_command(Command::SwapSelectedUp);

    assert!(effects.is_empty());
    assert_eq!(app.playlist.tracks()[1].display_name(), "c");
    assert_eq!(app.playlist.cursor(), 1);
    assert_eq!(app.playback.track_index, Some(2));
    assert_eq!(app.playback.status, PlayStatus::Playing);

    app.handle_command(Command::SwapSelectedDown);
    assert_eq!(app.playlist.tracks()[2].display_name(), "c");
    assert_eq!(app.playback.track_index, Some(1));
    assert_eq!(app.playback.status, PlayStatus::Playing);

    // The bottom boundary refuses silently without breaking state
    app.handle_command(Command::SwapSelectedDown);
    assert_eq!(app.playlist.tracks()[2].display_name(), "c");
}

#[test]
fn track_completions_auto_advance_until_the_queue_runs_out() {
    let mut app = playing_fixture(0);

    let first = app.apply_track_ended(0);
    assert_eq!(audio_commands(first), vec![play("/b.mp3", 1)]);

    let second = app.apply_track_ended(1);
    assert_eq!(audio_commands(second), vec![play("/c.mp3", 2)]);

    let last = app.apply_track_ended(2);
    assert!(last.is_empty(), "the tail stops instead of wrapping");
    assert_eq!(app.playback.status, PlayStatus::Stopped);
    assert_eq!(app.playback.elapsed, zero());
}

#[test]
fn stale_track_completions_are_ignored() {
    let mut app = playing_fixture(1);

    let effects = app.apply_track_ended(0);

    assert!(effects.is_empty());
    assert_eq!(app.playback.track_index, Some(1));
    assert_eq!(app.playback.status, PlayStatus::Playing);
}

#[test]
fn track_ended_for_a_removed_track_is_a_stale_no_op() {
    let mut app = App::new();
    app.extend_playlist(paths(&["/a.mp3", "/b.mp3"]));
    app.playlist.select(0);
    app.playback.track_index = Some(0);
    app.playback.status = PlayStatus::Playing;
    app.resume.last_track = Some(TrackLocation::local("/a.mp3"));

    // The user removes the playing track from the queue while it plays.
    app.playlist.remove(0);
    app.playback.track_index = None;

    // The worker reports the track finished, but it is no longer queued.
    let effects = app.apply_track_ended(0);

    assert!(
        effects.is_empty(),
        "a removed track must not advance anything"
    );
    assert_eq!(app.playback.status, PlayStatus::Playing);
}

#[test]
fn quit_confirmation_keeps_its_dedicated_vocabulary() {
    let mut app = App::new();
    app.handle_command(Command::Quit);

    let effects = app.handle_command(Command::CursorDown);
    assert!(effects.is_empty());
    assert_eq!(app.active_popup(), Some(Popup::ConfirmQuit));

    app.handle_command(Command::ConfirmQuitYes);
    assert!(app.should_quit());
    assert_eq!(app.active_popup(), None);
}

#[test]
fn help_scrolls_within_its_rows_and_swallows_other_commands() {
    let mut app = playing_fixture(1);
    app.screen.help_rows = 15;
    app.handle_command(Command::ToggleHelp);
    assert_eq!(app.active_popup(), Some(Popup::Help { scroll: 0 }));

    app.handle_command(Command::CursorUp);
    assert_eq!(app.active_popup(), Some(Popup::Help { scroll: 0 }));
    app.handle_command(Command::CursorDown);
    assert_eq!(app.active_popup(), Some(Popup::Help { scroll: 1 }));
    app.handle_command(Command::PageDown);
    assert_eq!(app.active_popup(), Some(Popup::Help { scroll: 11 }));
    app.handle_command(Command::PageDown);
    assert_eq!(app.active_popup(), Some(Popup::Help { scroll: 14 }));
    app.handle_command(Command::CursorTop);
    assert_eq!(app.active_popup(), Some(Popup::Help { scroll: 0 }));
    app.handle_command(Command::CursorBottom);
    assert_eq!(app.active_popup(), Some(Popup::Help { scroll: 14 }));

    assert!(app.handle_command(Command::NextTrack).is_empty());
    assert_eq!(app.playback.track_index, Some(1));
    assert_eq!(app.playlist.cursor(), 1);

    app.handle_command(Command::ToggleHelp);
    assert_eq!(app.active_popup(), None);
}

#[test]
fn begin_current_track_sets_artwork_loading_for_local_tracks() {
    let mut app = App::new();
    app.artwork.set_enabled(true);
    app.artwork_loading = false;
    app.playlist = queue(&["/music/song.mp3"]);
    app.playlist.select(0);

    let effects = app.begin_current_track();
    assert!(
        requested_cover(&effects).is_some(),
        "begin_current_track must dispatch LoadArtwork when artwork is enabled"
    );
    assert!(
        app.artwork_loading,
        "the dispatch must raise the artwork_loading flag"
    );
}

#[test]
fn play_requests_artwork_only_when_the_feature_is_enabled() {
    let mut app = App::new();
    app.extend_playlist(paths(&["/x.flac", "/y.mp3"]));
    app.playlist.select(1);
    app.artwork.set_enabled(true);

    let effects = app.handle_command(Command::PlaySelected);

    assert_eq!(
        requested_cover(&effects),
        Some((1, Some(path("/y.mp3")))),
        "playing a track must also resolve its cover"
    );
    assert_eq!(audio_commands(effects).len(), 1);

    // With the feature off the very same action emits no artwork work
    let mut disabled = App::new();
    disabled.extend_playlist(paths(&["/x.flac"]));
    disabled.playlist.select(0);

    let effects = disabled.handle_command(Command::PlaySelected);
    assert_eq!(effects.len(), 1, "only the audio request may remain");
}

#[test]
fn auto_advance_requests_artwork_for_the_next_track_too() {
    let mut app = playing_fixture(0);
    app.artwork.set_enabled(true);

    let effects = app.apply_track_ended(0);

    assert_eq!(
        requested_cover(&effects),
        Some((1, Some(path("/b.mp3")))),
        "auto advance must behave like manual play"
    );
}

#[test]
fn artwork_results_are_dropped_once_the_track_moved_on() {
    let mut app = playing_fixture(1);
    app.artwork.set_enabled(true);

    // A late delivery for an entry the user already left is stale
    app.apply_artwork_loaded(0, cover());
    assert!(!app.artwork.has_artwork());
    assert_eq!(app.artwork.track_index(), None);

    // The same payload for the playing entry lands in the state
    app.apply_artwork_loaded(1, cover());
    assert!(app.artwork.has_artwork());
    assert_eq!(app.artwork.track_index(), Some(1));

    // A fresh miss clears the cell so the previous cover never sticks
    app.apply_artwork_loaded(1, None);
    assert!(!app.artwork.has_artwork());
    assert_eq!(app.artwork.track_index(), Some(1));
}

#[test]
fn artwork_keeps_track_a_visible_until_local_track_b_succeeds() {
    let mut app = playing_fixture(0);
    app.artwork.set_enabled(true);
    app.artwork.set_artwork(0, cover());
    app.playlist.select(1);

    let effects = app.begin_current_track();
    assert_eq!(requested_cover(&effects), Some((1, Some(path("/b.mp3")))));
    assert!(app.artwork.has_artwork());
    assert_eq!(app.artwork.track_index(), Some(0));
    assert!(app.artwork_loading);

    app.apply_artwork_loaded(0, cover());
    assert!(app.artwork.has_artwork());
    assert_eq!(app.artwork.track_index(), Some(0));
    assert!(app.artwork_loading);

    app.apply_artwork_loaded(1, cover());
    assert!(app.artwork.has_artwork());
    assert_eq!(app.artwork.track_index(), Some(1));
    assert!(!app.artwork_loading);
}

#[test]
fn artwork_clears_track_a_when_local_track_b_has_no_usable_art() {
    let mut app = playing_fixture(0);
    app.artwork.set_enabled(true);
    app.artwork.set_artwork(0, cover());
    app.playlist.select(1);

    let effects = app.begin_current_track();
    assert!(matches!(requested_cover(&effects), Some((1, Some(_)))));
    assert!(app.artwork.has_artwork());

    app.apply_artwork_loaded(1, None);
    assert!(!app.artwork.has_artwork());
    assert_eq!(app.artwork.track_index(), Some(1));
    assert!(!app.artwork_loading);
}

/// Queue a local track that shows its cover and a stream under the cursor.
fn stream_fixture() -> App {
    let mut stream = Track::from_stream("https://radio.example.com/live");
    stream.set_metadata(TrackMetadata {
        artist: "Artist".to_string(),
        album: "Album".to_string(),
        ..TrackMetadata::default()
    });
    let mut app = App::new();
    app.playlist.extend(vec![local("/a.mp3"), stream]);
    app.playlist.select(0);
    app.playback.track_index = Some(0);
    app.artwork.set_enabled(true);
    app.artwork.set_artwork(0, cover());
    app.playlist.select(1);
    app
}

#[test]
fn artwork_stream_request_keeps_track_a_until_remote_attempt_completes() {
    let mut app = stream_fixture();

    let effects = app.begin_current_track();
    assert_eq!(requested_cover(&effects), Some((1, None)));
    assert!(app.artwork.has_artwork());
    assert_eq!(app.artwork.track_index(), Some(0));

    app.apply_artwork_loaded(1, cover());
    assert!(app.artwork.has_artwork());
    assert_eq!(app.artwork.track_index(), Some(1));
    assert!(!app.artwork_loading);
}

#[test]
fn artwork_stream_request_clears_track_a_when_remote_art_fails() {
    let mut app = stream_fixture();

    let effects = app.begin_current_track();
    assert_eq!(requested_cover(&effects), Some((1, None)));
    assert!(app.artwork.has_artwork());
    assert!(app.artwork_loading);

    app.apply_artwork_loaded(1, None);
    assert!(!app.artwork.has_artwork());
    assert_eq!(app.artwork.track_index(), Some(1));
    assert!(!app.artwork_loading);
}

#[test]
fn restarted_streams_are_numbered_anew() {
    let mut app = stream_fixture();
    let mut numbers = Vec::new();
    for _ in 0..2 {
        match audio_commands(app.begin_current_track()).first() {
            Some(AudioCommand::Play { generation, .. }) => numbers.push(*generation),
            _ => panic!("expected a start"),
        }
    }
    assert_eq!(numbers, vec![Some(1), Some(2)]);
}

#[test]
fn stale_artwork_results_cannot_replace_a_pending_newer_track() {
    let mut app = playing_fixture(0);
    app.artwork.set_enabled(true);
    app.artwork.set_artwork(0, cover());

    app.playlist.select(1);
    app.begin_current_track();
    app.playlist.select(2);
    app.begin_current_track();

    app.apply_artwork_loaded(1, None);
    assert!(app.artwork.has_artwork());
    assert_eq!(app.artwork.track_index(), Some(0));
    assert!(app.artwork_loading);

    app.apply_artwork_loaded(2, None);
    assert!(!app.artwork.has_artwork());
    assert_eq!(app.artwork.track_index(), Some(2));
    assert!(!app.artwork_loading);
}

#[test]
fn progress_snapshots_merge_into_playback_state() {
    let mut app = playing_fixture(1);

    app.apply_playback_progress(PlaybackSnapshot {
        status: PlayStatus::Paused,
        track_index: Some(1),
        elapsed: Duration::from_secs(33),
        duration: Some(Duration::from_secs(300)),
        sink_health: SinkHealth::Lost,
    });

    assert_eq!(app.playback.status, PlayStatus::Paused);
    assert_eq!(app.playback.elapsed, Duration::from_secs(33));
    assert_eq!(app.playback.duration, Some(Duration::from_secs(300)));
    // Volume stays under command control, snapshots never touch it
    assert_eq!(app.playback.volume_percent, volume(70));
}

#[test]
fn toggle_artwork_flips_visibility_and_notifies() {
    let mut app = App::new();
    assert!(app.artwork.is_visible());

    app.handle_command(Command::ToggleArtwork);
    assert!(!app.artwork.is_visible());
    assert_eq!(last_note(&app), Some("Artwork hidden".to_string()));

    app.handle_command(Command::ToggleArtwork);
    assert!(app.artwork.is_visible());
    assert_eq!(last_note(&app), Some("Artwork visible".to_string()));
}

#[test]
fn named_playlist_autosaves_after_scan_completion() {
    let mut app = App::new();
    app.active_playlist_name = Some("Rock".to_string());

    let effects = app.apply_scan_completed(path("/music"), paths(&["/music/a.mp3"]));

    assert_eq!(
        saved_name(&effects),
        Some("Rock".to_string()),
        "a named active playlist must autosave on queue mutation"
    );
}

#[test]
fn anonymous_playlist_is_never_autosaved() {
    let mut app = App::new();
    assert_eq!(app.active_playlist_name, None);

    let effects = app.apply_scan_completed(path("/music"), paths(&["/music/a.mp3"]));

    assert!(
        saved_name(&effects).is_none(),
        "an anonymous queue must never spawn an autosave effect"
    );
}

#[test]
fn playlist_panel_navigation_scrolls_directionally() {
    let mut app = App::new();
    app.extend_playlist((0..20).map(|i| path(&format!("/m/t{i}.mp3"))).collect());
    app.screen.playlist_viewport_height = 8;
    app.screen.active_panel = Panel::Playlist;

    // Jump to the bottom: the window hugs the tail (20 - 8 = 12).
    app.handle_command(Command::CursorBottom);
    assert_eq!(app.playlist.cursor(), 19);
    assert_eq!(app.playlist_scroll_offset(), 12);

    // Climb up one row: the cursor rises within the fixed tail window.
    app.handle_command(Command::CursorUp);
    assert_eq!(app.playlist.cursor(), 18);

    // Paging up moves the cursor by a viewport-minus-one step.
    app.handle_command(Command::PageUp);
    assert!(app.playlist.cursor() < 18);
    assert_eq!(app.playlist.cursor(), 11);
    assert!(app.playlist.cursor() + 8 > app.playlist_scroll_offset());

    // Home returns to the head and re-anchors the window at zero.
    app.handle_command(Command::CursorTop);
    assert_eq!(app.playlist.cursor(), 0);
    assert_eq!(app.playlist_scroll_offset(), 0);
}

#[test]
fn stale_snapshot_index_is_remapped_to_the_playing_track() {
    // A queue already in its post-sort order; /aa is now at index 0.
    let mut app = playing_fixture(0);
    app.playlist = queue(&["/music/aa.mp3", "/music/mm.mp3", "/music/zz.mp3"]);
    app.resume.last_track = Some(TrackLocation::local("/music/aa.mp3"));
    app.playback.track_index = Some(0);

    // The worker reports the index before the sort.
    let stale = PlaybackSnapshot {
        status: PlayStatus::Playing,
        track_index: Some(2),
        elapsed: zero(),
        duration: None,
        sink_health: SinkHealth::Healthy,
    };
    app.apply_playback_progress(stale);
    assert_eq!(
        app.playback.track_index,
        Some(0),
        "stale index remapped by stable location"
    );

    // A current index (0 on /aa) stays as-is.
    let current = PlaybackSnapshot {
        status: PlayStatus::Playing,
        track_index: Some(0),
        elapsed: zero(),
        duration: None,
        sink_health: SinkHealth::Healthy,
    };
    app.apply_playback_progress(current);
    assert_eq!(app.playback.track_index, Some(0), "current index is kept");
}

#[test]
fn track_ended_after_a_reorder_advances_to_the_next_in_the_new_order() {
    let mut app = playing_fixture(0);
    app.playlist = queue(&["/music/aa.mp3", "/music/mm.mp3", "/music/zz.mp3"]);
    // aa is playing at its current index (0); the worker later reports 2.
    app.resume.last_track = Some(TrackLocation::local("/music/aa.mp3"));
    app.playback.track_index = Some(0);
    app.playlist.select(0);

    let effects = app.apply_track_ended(2);

    // Next track after aa in the new order: mm (index 1).
    match audio_commands(effects).first() {
        Some(AudioCommand::Play { source, .. }) => assert_eq!(
            source.display_location(),
            "/music/mm.mp3",
            "the queue must continue with the next track in the reordered playlist"
        ),
        _ => panic!("next track must start playing"),
    }
    assert_eq!(
        app.playback.track_index,
        Some(1),
        "playback points at the next track in the new order"
    );
}

#[test]
fn toggle_lyrics_shows_the_panel_and_requests_a_load() {
    let mut app = playing_fixture(1);
    app.artwork.set_enabled(true);

    let effects = app.handle_command(Command::ToggleLyrics);

    assert!(app.lyrics.visible);
    assert_eq!(app.active_panel(), Panel::Lyrics);
    // The load request carries the playing queue entry
    assert_eq!(requested_lyrics(&effects), Some(1));
    assert!(
        requested_cover(&effects).is_none(),
        "toggling the panel only requests lyrics; artwork loads on track start"
    );
    assert!(app.lyrics.loading);
}

#[test]
fn toggle_lyrics_hides_the_panel_without_reloading_artwork() {
    let mut app = playing_fixture(1);
    app.artwork.set_enabled(true);
    app.handle_command(Command::ToggleLyrics);
    assert!(app.lyrics.visible);

    let effects = app.handle_command(Command::ToggleLyrics);

    assert!(!app.lyrics.visible);
    assert_eq!(
        app.active_panel(),
        Panel::Browser,
        "focus returns to the browser"
    );
    assert!(
        requested_cover(&effects).is_none(),
        "hiding the panel never reloads artwork: the overlay retargets itself"
    );
}

#[test]
fn escape_hides_the_lyrics_panel_only_when_focused() {
    let mut app = playing_fixture(0);
    app.handle_command(Command::ToggleLyrics);
    let effects = app.handle_command(Command::CancelPopup);
    assert!(!app.lyrics.visible);
    assert!(
        requested_lyrics(&effects).is_none(),
        "escaping only hides, it never spawns a load"
    );

    // A popup still takes priority: esc closes it and nothing else moves.
    app.handle_command(Command::Quit);
    app.screen.popup = None;
    app.handle_command(Command::ToggleHelp);
    assert!(app.active_popup().is_some());
    app.handle_command(Command::CancelPopup);
    assert!(app.active_popup().is_none());
}

#[test]
fn load_metadata_for_queue_requests_local_tracks_with_provisional_metadata() {
    let mut app = App::new();
    let provisional = |title: &str| TrackMetadata {
        title: title.to_string(),
        title_tagged: true,
        ..TrackMetadata::default()
    };
    let mut first = local("/a.mp3");
    first.set_metadata(provisional("A"));
    let mut second = local("/b.mp3");
    second.set_metadata(provisional("B"));
    let stream = Track::from_stream("https://radio.example.com/live");
    app.playlist.extend(vec![first, second, stream]);

    let effects = app.load_metadata_for_queue();

    assert_eq!(requested_tags(&effects), paths(&["/a.mp3", "/b.mp3"]));
}

#[test]
fn load_metadata_for_queue_is_a_no_op_for_an_empty_queue() {
    let app = App::new();
    assert!(app.load_metadata_for_queue().is_empty());
}

#[test]
fn play_start_with_lyrics_visible_loads_artwork_and_lyrics() {
    let mut app = App::new();
    app.extend_playlist(paths(&["/x.flac", "/y.mp3"]));
    app.playlist.select(1);
    app.artwork.set_enabled(true);
    app.lyrics.visible = true;

    let effects = app.handle_command(Command::PlaySelected);

    assert!(
        requested_cover(&effects).is_some(),
        "artwork still loads with lyrics visible, its overlay retargets the playlist"
    );
    assert_eq!(requested_lyrics(&effects), Some(1));
}

#[test]
fn apply_lyrics_loaded_merges_the_document_for_the_playing_track() {
    let mut app = playing_fixture(1);
    app.handle_command(Command::ToggleLyrics);

    let outcome = LoadOutcome {
        document: Some(LyricsDocument::from_plain("line one\nline two")),
        origin: Some(LyricsOrigin::Local),
    };
    app.apply_lyrics_loaded(1, outcome);

    assert!(!app.lyrics.loading);
    assert_eq!(app.lyrics.origin, Some(LyricsOrigin::Local));
    assert_eq!(
        app.lyrics.document.as_ref().map(|d| d.text.as_str()),
        Some("line one\nline two")
    );
    assert_eq!(
        app.lyrics.document.as_ref().map(|d| d.lines.clone()),
        Some(vec!["line one".to_string(), "line two".to_string()])
    );
}

#[test]
fn apply_lyrics_loaded_drops_stale_resolutions() {
    let mut app = playing_fixture(1);
    app.lyrics.visible = true;
    app.lyrics.loading = true;

    let outcome = LoadOutcome {
        document: Some(LyricsDocument::from_plain("stale")),
        origin: None,
    };
    app.apply_lyrics_loaded(0, outcome);

    assert!(
        app.lyrics.loading,
        "a late delivery for a track the user left must not clear state"
    );
}

#[test]
fn lyrics_scroll_commands_clamp_within_the_document() {
    let mut app = App::new();
    app.lyrics.document = Some(LyricsDocument::from_plain(
        &(0..30)
            .map(|i| format!("row {i}"))
            .collect::<Vec<_>>()
            .join("\n"),
    ));
    app.lyrics.viewport_height = 8;
    app.screen.active_panel = Panel::Lyrics;
    app.tick_frame(FrameMetrics::new(1, 1, 8, 100));

    app.handle_command(Command::CursorDown);
    assert_eq!(app.lyrics.scroll, 1);
    app.handle_command(Command::PageDown);
    assert_eq!(app.lyrics.scroll, 1 + 6, "page step is viewport minus two");
    app.handle_command(Command::CursorBottom);
    assert_eq!(app.lyrics.scroll, 22, "bottom clamps to lines - viewport");
    app.handle_command(Command::CursorDown);
    assert_eq!(app.lyrics.scroll, 22, "past the end stays clamped");
    app.handle_command(Command::CursorTop);
    assert_eq!(app.lyrics.scroll, 0);
    app.handle_command(Command::CursorUp);
    assert_eq!(app.lyrics.scroll, 0, "up from the top is a no-op");
    app.handle_command(Command::PageUp);
    assert_eq!(app.lyrics.scroll, 0);
}

#[test]
fn lyrics_scroll_is_a_safe_no_op_without_a_document() {
    let mut app = App::new();
    app.screen.active_panel = Panel::Lyrics;
    app.handle_command(Command::CursorDown);
    assert_eq!(app.lyrics.scroll, 0);
}

#[test]
fn lyrics_scroll_clamps_against_cached_physical_rows() {
    let mut app = App::new();
    app.lyrics
        .set_document(Some(LyricsDocument::from_plain(&"x".repeat(100))));
    app.lyrics.viewport_height = 6;
    app.screen.active_panel = Panel::Lyrics;
    app.tick_frame(FrameMetrics::new(1, 1, 6, 4));

    app.handle_command(Command::CursorBottom);

    assert_eq!(app.lyrics.scroll, 19);
    let logical_lines = app
        .lyrics
        .document
        .as_ref()
        .expect("lyrics document")
        .lines
        .len();
    assert!(app.lyrics.scroll > logical_lines);
}

#[test]
fn artwork_resize_is_submitted_by_tick_not_size_queries() {
    let mut app = App::new();
    app.artwork.set_enabled(true);
    app.artwork.set_artwork(0, cover());
    assert!(matches!(app.artwork.resize_state, ResizeLifecycle::Ready));

    let _ = app.artwork.image_size(Size::new(20, 10));
    assert!(matches!(app.artwork.resize_state, ResizeLifecycle::Ready));

    let mut metrics = FrameMetrics::new(1, 1, 1, 1);
    metrics.artwork_target = Some(Size::new(20, 10));
    let request = app.tick_frame(metrics).expect("a resize request");
    app.artwork.resize_submitted(
        Submission::Accepted {
            generation: request.generation,
            target: request.target,
        },
        &mut false,
    );
    assert!(matches!(
        app.artwork.resize_state,
        ResizeLifecycle::Submitted { .. }
    ));
}

#[test]
fn focus_ring_with_lyrics_visible_walks_three_panels() {
    let mut app = playing_fixture(0);
    app.handle_command(Command::ToggleLyrics);
    assert_eq!(app.active_panel(), Panel::Lyrics);

    app.handle_command(Command::FocusNextPanel);
    assert_eq!(app.active_panel(), Panel::Playlist);
    app.handle_command(Command::FocusNextPanel);
    assert_eq!(app.active_panel(), Panel::Lyrics);
    app.handle_command(Command::FocusPreviousPanel);
    assert_eq!(app.active_panel(), Panel::Playlist);
    app.handle_command(Command::FocusPreviousPanel);
    assert_eq!(app.active_panel(), Panel::Browser);
    app.handle_command(Command::FocusPreviousPanel);
    assert_eq!(app.active_panel(), Panel::Lyrics);
}

#[test]
fn lyrics_screen_displays_title_from_metadata_when_available() {
    let mut app = App::new();
    app.extend_playlist(paths(&["/song.mp3"]));
    app.playlist.select(0);
    app.playback.track_index = Some(0);
    app.playback.status = PlayStatus::Playing;
    app.lyrics.visible = true;

    let effects = app.begin_current_track();
    assert_eq!(requested_lyrics(&effects), Some(0));
    assert_eq!(app.lyrics.display_title.as_deref(), Some("song"));
}

#[test]
fn lyrics_request_drops_unknown_metadata_placeholders() {
    let metadata = TrackMetadata {
        title: "Black".to_string(),
        title_tagged: true,
        artist: "Unknown Artist".to_string(),
        album: "Unknown Album".to_string(),
        track_number: None,
        duration: Duration::from_secs(330),
        bitrate: None,
        sample_rate: None,
        codec: "MP3".to_string(),
        format: "MP3".to_string(),
        album_artist: None,
        disc_number: None,
        genre: None,
        year: None,
        composer: None,
        comment: None,
    };

    let (request, display_title) =
        lyrics_request_for(&path("/m/Pearl Jam - Black.mp3"), Some(&metadata));

    assert_eq!(request.title.as_deref(), Some("Black"));
    assert_eq!(
        request.artist, None,
        "Unknown Artist must not reach the lookup"
    );
    assert_eq!(
        request.album, None,
        "Unknown Album must not reach the lookup"
    );
    assert_eq!(display_title, "Black");
}

#[test]
fn lyrics_request_forwards_real_metadata() {
    let metadata = TrackMetadata {
        title: "Black".to_string(),
        title_tagged: true,
        artist: "Pearl Jam".to_string(),
        album: "Ten".to_string(),
        track_number: Some(3),
        duration: Duration::from_secs(336),
        bitrate: Some(320),
        sample_rate: Some(44100),
        codec: "MP3".to_string(),
        format: "MP3".to_string(),
        album_artist: None,
        disc_number: None,
        genre: None,
        year: None,
        composer: None,
        comment: None,
    };

    let (request, _) = lyrics_request_for(&path("/m/file.mp3"), Some(&metadata));

    assert_eq!(request.artist.as_deref(), Some("Pearl Jam"));
    assert_eq!(request.album.as_deref(), Some("Ten"));
    assert_eq!(request.audio_path, path("/m/file.mp3"));
}

#[test]
fn stems_follow_file_names() {
    for (file, stem) in [
        ("/m/a.b.mp3", "a.b"),
        ("/m/.hidden", ".hidden"),
        ("/m/plain", "plain"),
        ("song.flac", "song"),
    ] {
        assert_eq!(local(file).display_name(), stem);
    }
}
