//! Commands of the user, reports of the workers, and what they do to the
//! player.
use crate::artwork::state;
use crate::artwork::state::ArtworkState;
use crate::config::ArtworkSource as SourceConfig;
use crate::metadata;
use crate::path::FilePath;
use crate::player::audio;
use crate::player::audio::{
    AudioCommand, AudioOrder, PlayStatus, PlaybackSpeed, VolumePercent, SPEED_DEFAULT_TENTHS,
    VOLUME_DEFAULT,
};
use crate::player::effect;
use crate::player::effect::{Effect, Order};
use crate::player::lyrics;
use crate::player::lyrics::{LyricsState, Motion};
use crate::player::navigation;
use crate::player::navigation::{Navigation, PlaybackMode, RepeatMode};
use crate::player::notice;
use crate::player::notice::Notice;
use crate::player::playlist;
use crate::player::playlist::Playlist;
use crate::player::track;
use crate::player::track::{Location, Track, TrackLocation};
use crate::time::Duration;
use vstd::prelude::*;

verus! {

/// Panel of the window.
#[derive(Debug, Clone, Copy, PartialEq, Eq, Structural)]
pub enum Panel {
    Browser,
    Playlist,
    /// Takes the place of the browser while it is visible.
    Lyrics,
}

/// Dialog in front of the panels.
#[derive(Debug, Clone, Copy, PartialEq, Eq, Structural)]
pub enum Popup {
    ConfirmQuit,
    Help { scroll: usize },
}

/// Command of the user.
#[derive(Debug, Clone, Copy, PartialEq, Eq, Structural)]
pub enum Command {
    Quit,
    ConfirmQuitYes,
    CancelPopup,
    ToggleHelp,
    FocusNextPanel,
    FocusPreviousPanel,
    CursorUp,
    CursorDown,
    CursorTop,
    CursorBottom,
    PageUp,
    PageDown,
    TogglePause,
    NextTrack,
    PreviousTrack,
    PlaySelected,
    VolumeUp,
    VolumeDown,
    SpeedUp,
    SpeedDown,
    SpeedReset,
    SeekForward,
    SeekBackward,
    CycleRepeat,
    ToggleShuffle,
    ToggleLyrics,
    ToggleArtwork,
    DeleteQueueEntry,
    ClearQueue,
    SwapSelectedUp,
    SwapSelectedDown,
}

/// What plays.
#[derive(Debug, Clone, Copy, PartialEq, Eq, Structural)]
pub struct Playback {
    pub status: PlayStatus,
    pub track_index: Option<usize>,
    pub elapsed: Duration,
    pub duration: Option<Duration>,
    pub volume_percent: VolumePercent,
    pub speed: PlaybackSpeed,
}

/// What is in view.
#[derive(Debug, Clone, Copy, PartialEq, Eq, Structural)]
pub struct Screen {
    pub active_panel: Panel,
    pub popup: Option<Popup>,
    pub confirm_quit: bool,
    pub should_quit: bool,
    /// Rows of the help text.
    pub help_rows: usize,
    pub playlist_viewport_height: usize,
    pub playlist_scroll_offset: usize,
}

/// Where the next session takes up.
#[derive(Debug)]
pub struct Resume {
    pub last_track: Option<TrackLocation>,
    pub position_ms: u64,
}

/// Settings that the player reads.
#[derive(Debug)]
pub struct Settings {
    /// Length of a crossfade; none if it is zero.
    pub crossfade_seconds: u16,
    pub artwork_source: SourceConfig,
    pub cache_dir: FilePath,
}

/// The player.
pub struct App {
    pub playlist: Playlist,
    pub playback: Playback,
    pub playback_mode: PlaybackMode,
    pub navigation: Navigation,
    pub resume: Resume,
    pub screen: Screen,
    pub lyrics: LyricsState,
    pub artwork: ArtworkState,
    pub artwork_loading: bool,
    pub notifications: Vec<Notice>,
    pub settings: Settings,
    pub active_playlist_name: Option<String>,
    /// Number of the last stream that was started.
    pub stream_generation: u64,
    /// Dice for the next draw of a shuffled queue.
    pub roll: u64,
}

/// Rows that a page in the help text moves.
pub const HELP_PAGE_ROWS: usize = 10;

/// Seconds after which going back restarts the track.
pub const RESTART_SECONDS: u64 = 3;

/// Step of the dice.
pub const ROLL_STEP: u64 = 0x9E37_79B9_7F4A_7C15;

/// Dice after a draw.
pub open spec fn next_roll(roll: u64) -> u64 {
    if roll + ROLL_STEP <= u64::MAX {
        (roll + ROLL_STEP) as u64
    } else {
        (roll + ROLL_STEP - u64::MAX - 1) as u64
    }
}

/// Scroll offset of a window that shows a row: as little moves as possible.
pub open spec fn anchored(offset: usize, row: usize, height: usize) -> usize {
    let rows = if height == 0 {
        1
    } else {
        height as int
    };
    if row < offset {
        row
    } else if row - offset >= rows {
        (row - rows + 1) as usize
    } else {
        offset
    }
}

/// A row that is anchored is in the window.
pub proof fn law_anchored_rows_are_visible(offset: usize, row: usize, height: usize)
    ensures
        anchored(offset, row, height) <= row,
        height > 0 ==> row < anchored(offset, row, height) + height,
        height == 0 ==> row == anchored(offset, row, height),
{
}

/// Row of a list after a move. Pages are one row shorter than the window.
pub open spec fn moved_row(row: usize, len: nat, height: usize, motion: Motion) -> usize {
    let page = if height >= 2 {
        height - 1
    } else {
        1
    };
    let last = if len > 0 {
        len - 1
    } else {
        0
    };
    let wanted = match motion {
        Motion::Up => row - 1,
        Motion::Down => row + 1,
        Motion::PageUp => row - page,
        Motion::PageDown => row + page,
        Motion::Top => 0,
        Motion::Bottom => last,
    };
    if wanted < 0 {
        0
    } else if wanted > last {
        last as usize
    } else {
        wanted as usize
    }
}

/// Panel after the next one was asked for.
pub open spec fn next_panel(panel: Panel, lyrics: bool) -> Panel {
    match panel {
        Panel::Browser => Panel::Playlist,
        Panel::Playlist => if lyrics {
            Panel::Lyrics
        } else {
            Panel::Browser
        },
        Panel::Lyrics => Panel::Playlist,
    }
}

/// Panel after the previous one was asked for.
pub open spec fn previous_panel(panel: Panel, lyrics: bool) -> Panel {
    match panel {
        Panel::Browser => if lyrics {
            Panel::Lyrics
        } else {
            Panel::Playlist
        },
        Panel::Playlist => Panel::Browser,
        Panel::Lyrics => Panel::Playlist,
    }
}

/// Where the cursor of a queue is after it was sent to an entry.
pub open spec fn with_cursor(p: Playlist, index: usize) -> Playlist {
    Playlist { cursor: index, ..p }
}

/// Generation of the stream that starts next.
pub open spec fn next_stream(generation: u64) -> u64 {
    if generation == u64::MAX {
        0
    } else {
        (generation + 1) as u64
    }
}

/// Entry that is made ready for a crossfade with the entry that starts.
pub open spec fn crossfade_target(a: App) -> Option<usize> {
    if a.settings.crossfade_seconds == 0 || a.playback_mode.shuffle
        || a.playback_mode.repeat is Track {
        None
    } else {
        navigation::following(
            a.playlist.cursor,
            a.playlist.tracks@.len(),
            a.playback_mode.repeat is All,
        )
    }
}

/// Whether lyrics are looked up for an entry.
pub open spec fn wants_lyrics(a: App, entry: Track) -> bool {
    a.lyrics.visible && entry.location is Local
}

/// Command that plays an entry.
pub open spec fn play_order(a: App, index: usize) -> Order {
    let entry = a.playlist.tracks@[index as int];
    Order::Audio(
        AudioOrder::Play {
            source: entry.location@,
            track_index: index as int,
            generation: if entry.location is Url {
                Some(next_stream(a.stream_generation))
            } else {
                None
            },
        },
    )
}

/// Request for the cover of an entry.
pub open spec fn artwork_order(a: App, index: usize) -> Order {
    let entry = a.playlist.tracks@[index as int];
    Order::LoadArtwork {
        track_index: index as int,
        path: match entry.location@ {
            Location::Local(file) => Some(file),
            Location::Url(_) => None,
        },
        metadata: metadata::optional_tags(entry.metadata),
        source_config: a.settings.artwork_source,
        cache_dir: a.settings.cache_dir@,
    }
}

/// Path of a local entry.
pub open spec fn local_path(entry: Track) -> Seq<u8> {
    match entry.location@ {
        Location::Local(file) => file,
        Location::Url(_) => Seq::empty(),
    }
}

/// Request for the lyrics of a local entry.
pub open spec fn lyrics_order(a: App, index: usize) -> Order {
    let entry = a.playlist.tracks@[index as int];
    Order::LoadLyrics {
        track_index: index as int,
        request: lyrics::lyrics_query(local_path(entry), metadata::optional_tags(entry.metadata)),
    }
}

/// What goes along with an entry that becomes the current one: its cover, its
/// lyrics, and the entry that follows it.
pub open spec fn companion_orders(a: App) -> Seq<Order> {
    let index = a.playlist.cursor;
    let cover = if a.artwork.enabled {
        seq![artwork_order(a, index)]
    } else {
        Seq::empty()
    };
    let words = if wants_lyrics(a, a.playlist.tracks@[index as int]) {
        seq![lyrics_order(a, index)]
    } else {
        Seq::empty()
    };
    let preload = match crossfade_target(a) {
        Some(next) => seq![
            Order::Audio(
                AudioOrder::PreloadNext {
                    source: a.playlist.tracks@[next as int].location@,
                    track_index: next as int,
                },
            ),
        ],
        None => Seq::empty(),
    };
    cover + words + preload
}

/// Whether a lyrics panel waits for the lyrics of an entry.
pub open spec fn awaits_lyrics(before: LyricsState, after: LyricsState, entry: Track) -> bool {
    &&& after == (LyricsState {
        loading: true,
        document: None,
        scroll: 0,
        display_title: after.display_title,
        ..before
    })
    &&& metadata::optional_text(after.display_title) == Some(
        lyrics::lyrics_title(local_path(entry), metadata::optional_tags(entry.metadata)),
    )
}

/// Entry that is left behind when another one starts.
pub open spec fn left_behind(a: App) -> Option<usize> {
    match a.playback.track_index {
        Some(index) if index < a.playlist.tracks@.len() => Some(index),
        _ => None,
    }
}

/// Whole milliseconds of a span, as far as they can be counted.
pub open spec fn whole_millis(span: Duration) -> u64 {
    if span.nanos / 1_000_000 <= u64::MAX {
        (span.nanos / 1_000_000) as u64
    } else {
        u64::MAX
    }
}

/// Whether the entry under the cursor became the current one, with the given
/// position; its history is noted unless `back` is set.
pub open spec fn adopts(before: App, after: App, elapsed: Duration, back: bool) -> bool {
    let index = before.playlist.cursor;
    let entry = before.playlist.tracks@[index as int];
    &&& after == (App {
        playback: Playback {
            status: PlayStatus::Playing,
            track_index: Some(index),
            elapsed,
            duration: track::tagged_duration(entry),
            ..before.playback
        },
        navigation: after.navigation,
        resume: after.resume,
        lyrics: after.lyrics,
        artwork_loading: before.artwork_loading || before.artwork.enabled,
        stream_generation: after.stream_generation,
        ..before
    })
    &&& after.navigation.history@ == match left_behind(before) {
        Some(previous) if !back && previous != index => before.navigation.history@.push(previous),
        _ => before.navigation.history@,
    }
    &&& after.navigation.unplayed@ == navigation::without(before.navigation.unplayed@, index)
    &&& after.resume.last_track matches Some(location) && location@ == entry.location@
    &&& after.resume.position_ms == whole_millis(elapsed)
    &&& if wants_lyrics(before, entry) {
        awaits_lyrics(before.lyrics, after.lyrics, entry)
    } else {
        after.lyrics == before.lyrics
    }
}

/// Whether the entry under the cursor started to play.
pub open spec fn begins(before: App, after: App, orders: Seq<Order>, back: bool) -> bool {
    let index = before.playlist.cursor;
    let entry = before.playlist.tracks@[index as int];
    &&& adopts(before, after, Duration { nanos: 0 }, back)
    &&& after.stream_generation == if entry.location is Url {
        next_stream(before.stream_generation)
    } else {
        before.stream_generation
    }
    &&& orders == seq![play_order(before, index)] + companion_orders(before)
}

/// Position of the current entry, however the worker numbers it: the queue may
/// have been reordered since the worker was told.
pub open spec fn current_position(a: App, reported: usize) -> Option<int> {
    match a.resume.last_track {
        Some(location) => playlist::first_at(a.playlist.tracks@, location@),
        None => Some(reported as int),
    }
}

/// Effects that save a queue that has a name.
pub open spec fn autosave(a: App) -> Seq<Order> {
    match a.active_playlist_name {
        Some(name) => seq![Order::SaveActivePlaylist(name@)],
        None => Seq::empty(),
    }
}

/// Whether a pause was toggled.
pub open spec fn toggles_pause(before: App, after: App, orders: Seq<Order>) -> bool {
    match before.playback.status {
        PlayStatus::Playing => {
            &&& after == (App {
                playback: Playback { status: PlayStatus::Paused, ..before.playback },
                ..before
            })
            &&& orders == seq![Order::Audio(AudioOrder::Pause)]
        },
        PlayStatus::Paused => {
            &&& after == (App {
                playback: Playback { status: PlayStatus::Playing, ..before.playback },
                ..before
            })
            &&& orders == seq![Order::Audio(AudioOrder::Resume)]
        },
        PlayStatus::Stopped => after == before && orders == Seq::<Order>::empty(),
    }
}

/// Whether the volume was stepped.
pub open spec fn steps_volume(before: App, after: App, orders: Seq<Order>, louder: bool) -> bool {
    let volume = audio::stepped_volume(before.playback.volume_percent, louder);
    &&& after == (App {
        playback: Playback { volume_percent: volume, ..before.playback },
        ..before
    })
    &&& orders == seq![Order::Audio(AudioOrder::SetVolume(volume))]
}

/// Whether the speed was set.
pub open spec fn sets_speed(
    before: App,
    after: App,
    orders: Seq<Order>,
    speed: PlaybackSpeed,
) -> bool {
    &&& after == (App { playback: Playback { speed, ..before.playback }, ..before })
    &&& orders == seq![Order::Audio(AudioOrder::SetSpeed(speed))]
}

/// Whether the worker was asked to seek. What plays is left to its report.
pub open spec fn seeks(before: App, after: App, orders: Seq<Order>, forward: bool) -> bool {
    &&& after == before
    &&& orders == if before.playback.track_index is Some {
        seq![
            Order::Audio(
                AudioOrder::SeekBy {
                    forward,
                    amount: Duration {
                        nanos: audio::seek_nanos(before.playback.duration) as u128,
                    },
                },
            ),
        ]
    } else {
        Seq::empty()
    }
}

/// Whether nothing happened but a message.
pub open spec fn only_notes(before: App, after: App, orders: Seq<Order>, note: Notice) -> bool {
    &&& after == (App { notifications: after.notifications, ..before })
    &&& after.notifications@ == notice::with_notice(before.notifications@, note)
    &&& orders == Seq::<Order>::empty()
}

/// Whether the entry under the cursor was played.
pub open spec fn plays_selected(before: App, after: App, orders: Seq<Order>) -> bool {
    if before.playlist.tracks@.len() == 0 {
        only_notes(before, after, orders, Notice::QueueEmpty)
    } else {
        begins(before, after, orders, false)
    }
}

/// Entry that skipping starts from: the current one, else the one under the
/// cursor.
pub open spec fn skip_origin(a: App) -> usize {
    match a.playback.track_index {
        Some(index) => index,
        None => a.playlist.cursor,
    }
}

/// Player whose dice were rolled, if its queue is shuffled.
pub open spec fn rolled(a: App) -> App {
    App {
        roll: if a.playback_mode.shuffle {
            next_roll(a.roll)
        } else {
            a.roll
        },
        ..a
    }
}

/// Player whose cursor was sent to an entry.
pub open spec fn at_entry(a: App, index: usize) -> App {
    App { playlist: with_cursor(a.playlist, index), ..a }
}

/// Whether the user skipped to the next entry.
pub open spec fn skips(before: App, after: App, orders: Seq<Order>) -> bool {
    let len = before.playlist.tracks@.len();
    if len == 0 {
        only_notes(before, after, orders, Notice::QueueEmpty)
    } else {
        match navigation::next_by_hand(
            before.playback_mode,
            before.navigation.unplayed@,
            skip_origin(before),
            len,
            before.roll,
        ) {
            Some(next) => begins(at_entry(rolled(before), next), after, orders, false),
            None => only_notes(rolled(before), after, orders, Notice::NoNextTrack),
        }
    }
}

/// Whether the current track was restarted.
pub open spec fn restarts(before: App, after: App, orders: Seq<Order>) -> bool {
    &&& after == (App {
        playback: Playback { elapsed: Duration { nanos: 0 }, ..before.playback },
        resume: after.resume,
        ..before
    })
    &&& after.resume == (Resume { position_ms: 0, ..before.resume })
    &&& orders == seq![Order::Audio(AudioOrder::SeekTo(Duration { nanos: 0 }))]
}

/// Whether the user went back: to the start of a track that played for a while,
/// else to the track before it, as it was heard or as it is queued.
pub open spec fn goes_back(before: App, after: App, orders: Seq<Order>) -> bool {
    let history = before.navigation.history@;
    match before.playback.track_index {
        None => after == before && orders == Seq::<Order>::empty(),
        Some(index) => {
            if before.playback.elapsed.nanos >= RESTART_SECONDS * 1_000_000_000 {
                restarts(before, after, orders)
            } else if history.len() > 0 {
                exists|popped: App|
                    {
                        &&& popped == (App {
                            navigation: popped.navigation,
                            ..at_entry(before, history.last())
                        })
                        &&& popped.navigation.history@ == history.drop_last()
                        &&& popped.navigation.unplayed@ == before.navigation.unplayed@
                        &&& #[trigger] begins(popped, after, orders, true)
                    }
            } else if 0 < index <= before.playlist.tracks@.len() {
                begins(at_entry(before, (index - 1) as usize), after, orders, true)
            } else {
                restarts(before, after, orders)
            }
        },
    }
}

/// Whether the repeat mode was cycled.
pub open spec fn cycles_repeat(before: App, after: App, orders: Seq<Order>) -> bool {
    let mode = navigation::cycled(before.playback_mode.repeat);
    only_notes(
        App {
            playback_mode: PlaybackMode { repeat: mode, ..before.playback_mode },
            ..before
        },
        after,
        orders,
        Notice::Repeat(mode),
    )
}

/// Whether shuffle was toggled. A new pass reserves the entry that plays.
pub open spec fn toggles_shuffle(before: App, after: App, orders: Seq<Order>) -> bool {
    let on = !before.playback_mode.shuffle;
    &&& after == (App {
        playback_mode: PlaybackMode { shuffle: on, ..before.playback_mode },
        navigation: after.navigation,
        notifications: after.notifications,
        ..before
    })
    &&& after.navigation.history@ == before.navigation.history@
    &&& after.navigation.unplayed@ == if on {
        navigation::all_but(before.playlist.tracks@.len(), before.playback.track_index)
    } else {
        Seq::empty()
    }
    &&& after.notifications@ == notice::with_notice(before.notifications@, Notice::Shuffle(on))
    &&& orders == Seq::<Order>::empty()
}

/// Whether the lyrics panel was toggled. Showing it looks up the lyrics of the
/// current track.
pub open spec fn toggles_lyrics(before: App, after: App, orders: Seq<Order>) -> bool {
    if before.lyrics.visible {
        hides_lyrics(before, after, orders)
    } else {
        let shown = App {
            lyrics: LyricsState { visible: true, ..before.lyrics },
            screen: Screen { active_panel: Panel::Lyrics, ..before.screen },
            ..before
        };
        match before.playback.track_index {
            Some(index) if index < before.playlist.tracks@.len()
                && before.playlist.tracks@[index as int].location is Local => {
                &&& after == (App { lyrics: after.lyrics, ..shown })
                &&& awaits_lyrics(
                    shown.lyrics,
                    after.lyrics,
                    before.playlist.tracks@[index as int],
                )
                &&& orders == seq![lyrics_order(before, index)]
            },
            _ => after == shown && orders == Seq::<Order>::empty(),
        }
    }
}

/// Whether the lyrics panel was hidden. The focus goes back to the browser.
pub open spec fn hides_lyrics(before: App, after: App, orders: Seq<Order>) -> bool {
    &&& after == (App {
        lyrics: LyricsState { visible: false, ..before.lyrics },
        screen: Screen {
            active_panel: if before.screen.active_panel is Lyrics {
                Panel::Browser
            } else {
                before.screen.active_panel
            },
            ..before.screen
        },
        ..before
    })
    &&& orders == Seq::<Order>::empty()
}

/// Whether artwork was shown or hidden.
pub open spec fn toggles_artwork(before: App, after: App, orders: Seq<Order>) -> bool {
    let visible = !before.artwork.visible;
    only_notes(
        App { artwork: ArtworkState { visible, ..before.artwork }, ..before },
        after,
        orders,
        Notice::Artwork(visible),
    )
}

/// Window over the queue after the queue or its cursor changed.
pub open spec fn rewound(screen: Screen, cursor: usize) -> Screen {
    Screen {
        playlist_scroll_offset: anchored(
            screen.playlist_scroll_offset,
            cursor,
            screen.playlist_viewport_height,
        ),
        ..screen
    }
}

/// Whether the history and the shuffled pass started over.
pub open spec fn renavigates(after: App, playing: Option<usize>) -> bool {
    &&& after.navigation.history@.len() == 0
    &&& after.navigation.unplayed@ == if after.playback_mode.shuffle {
        navigation::all_but(after.playlist.tracks@.len(), playing)
    } else {
        Seq::empty()
    }
}

/// Index of the current entry after an entry was removed.
pub open spec fn index_after_removal(playing: Option<usize>, removed: usize) -> Option<usize> {
    match playing {
        Some(index) => if index == removed {
            None
        } else if index > removed {
            Some((index - 1) as usize)
        } else {
            Some(index)
        },
        None => None,
    }
}

/// Whether the entry under the cursor was removed from the queue. Files are
/// never touched; the current entry is stopped.
pub open spec fn deletes(before: App, after: App, orders: Seq<Order>) -> bool {
    let removed = before.playlist.cursor;
    let len = before.playlist.tracks@.len();
    if len == 0 {
        only_notes(before, after, orders, Notice::QueueEmpty)
    } else {
        let stops = before.playback.track_index == Some(removed);
        let playing = index_after_removal(before.playback.track_index, removed);
        &&& after == (App {
            playlist: after.playlist,
            playback: if stops {
                Playback {
                    status: PlayStatus::Stopped,
                    track_index: None,
                    elapsed: Duration { nanos: 0 },
                    duration: None,
                    ..before.playback
                }
            } else {
                Playback { track_index: playing, ..before.playback }
            },
            navigation: after.navigation,
            resume: if stops {
                Resume { last_track: None, position_ms: 0 }
            } else {
                before.resume
            },
            screen: rewound(before.screen, after.playlist.cursor),
            ..before
        })
        &&& after.playlist.tracks@ == before.playlist.tracks@.remove(removed as int)
        &&& after.playlist.cursor == if removed < len - 1 {
            removed as int
        } else if len >= 2 {
            len - 2
        } else {
            0
        }
        &&& renavigates(after, playing)
        &&& orders == (if stops {
            seq![Order::Audio(AudioOrder::Stop)]
        } else {
            Seq::empty()
        }) + autosave(before)
    }
}

/// Whether the queue was cleared. The track that plays goes on to its end.
pub open spec fn clears(before: App, after: App, orders: Seq<Order>) -> bool {
    &&& after == (App {
        playlist: after.playlist,
        navigation: after.navigation,
        screen: Screen { playlist_scroll_offset: 0, ..before.screen },
        ..before
    })
    &&& after.playlist.tracks@.len() == 0
    &&& after.playlist.cursor == 0
    &&& after.navigation.history@.len() == 0
    &&& after.navigation.unplayed@.len() == 0
    &&& orders == autosave(before)
}

/// Index of the current entry after two entries changed places.
pub open spec fn index_after_swap(playing: Option<usize>, a: usize, b: usize) -> Option<usize> {
    match playing {
        Some(index) => if index == a {
            Some(b)
        } else if index == b {
            Some(a)
        } else {
            Some(index)
        },
        None => None,
    }
}

/// Whether the entry under the cursor moved by a row, with the cursor. The
/// current entry stays the current one.
pub open spec fn swaps(before: App, after: App, orders: Seq<Order>, up: bool) -> bool {
    let from = before.playlist.cursor;
    let room = if up {
        from > 0
    } else {
        from + 1 < before.playlist.tracks@.len()
    };
    if !room {
        after == before && orders == Seq::<Order>::empty()
    } else {
        let to = if up {
            (from - 1) as usize
        } else {
            (from + 1) as usize
        };
        let playing = index_after_swap(before.playback.track_index, from, to);
        &&& after == (App {
            playlist: after.playlist,
            playback: Playback { track_index: playing, ..before.playback },
            navigation: after.navigation,
            screen: rewound(before.screen, to),
            ..before
        })
        &&& after.playlist.cursor == to
        &&& after.playlist.tracks@ == playlist::swapped(
            before.playlist.tracks@,
            from as int,
            to as int,
        )
        &&& renavigates(after, playing)
        &&& orders == autosave(before)
    }
}

/// Whether a move went to the focused panel.
pub open spec fn moves(before: App, after: App, motion: Motion) -> bool {
    match before.screen.active_panel {
        Panel::Browser => after == before,
        Panel::Playlist => {
            let row = moved_row(
                before.playlist.cursor,
                before.playlist.tracks@.len(),
                before.screen.playlist_viewport_height,
                motion,
            );
            after == (App { screen: rewound(before.screen, row), ..at_entry(before, row) })
        },
        Panel::Lyrics => after == (App {
            lyrics: LyricsState {
                scroll: lyrics::scrolled(before.lyrics, motion) as usize,
                ..before.lyrics
            },
            ..before
        }),
    }
}

/// Row of the help text after a move.
pub open spec fn help_row(scroll: usize, rows: usize, motion: Motion) -> usize {
    let last = if rows > 0 {
        rows - 1
    } else {
        0
    };
    let wanted = match motion {
        Motion::Up => scroll - 1,
        Motion::Down => scroll + 1,
        Motion::PageUp => scroll - HELP_PAGE_ROWS,
        Motion::PageDown => scroll + HELP_PAGE_ROWS,
        Motion::Top => 0,
        Motion::Bottom => last,
    };
    if wanted < 0 {
        0
    } else if wanted > last {
        last as usize
    } else {
        wanted as usize
    }
}

/// Move that a command stands for, if any.
pub open spec fn motion_of(command: Command) -> Option<Motion> {
    match command {
        Command::CursorUp => Some(Motion::Up),
        Command::CursorDown => Some(Motion::Down),
        Command::CursorTop => Some(Motion::Top),
        Command::CursorBottom => Some(Motion::Bottom),
        Command::PageUp => Some(Motion::PageUp),
        Command::PageDown => Some(Motion::PageDown),
        _ => None,
    }
}

/// Player with another dialog, or none.
pub open spec fn with_popup(a: App, popup: Option<Popup>) -> App {
    App { screen: Screen { popup, ..a.screen }, ..a }
}

/// What a command does to a dialog in front of the panels. Nothing else gets
/// through to the player.
pub open spec fn in_popup(a: App, popup: Popup, command: Command) -> App {
    match (popup, command) {
        (_, Command::CancelPopup) => with_popup(a, None),
        (Popup::ConfirmQuit, Command::ConfirmQuitYes) => App {
            screen: Screen { popup: None, should_quit: true, ..a.screen },
            ..a
        },
        (Popup::Help { .. }, Command::ToggleHelp) => with_popup(a, None),
        (Popup::Help { scroll }, _) => match motion_of(command) {
            Some(motion) => with_popup(
                a,
                Some(Popup::Help { scroll: help_row(scroll, a.screen.help_rows, motion) }),
            ),
            None => a,
        },
        _ => a,
    }
}

/// Whether a command was obeyed while no dialog is open.
pub open spec fn obeys(before: App, command: Command, after: App, orders: Seq<Order>) -> bool {
    let quiet = orders == Seq::<Order>::empty();
    match command {
        Command::Quit => quiet && after == if before.screen.confirm_quit {
            with_popup(before, Some(Popup::ConfirmQuit))
        } else {
            App { screen: Screen { should_quit: true, ..before.screen }, ..before }
        },
        Command::ConfirmQuitYes => quiet && after == before,
        Command::CancelPopup => if before.lyrics.visible && before.screen.active_panel is Lyrics {
            hides_lyrics(before, after, orders)
        } else {
            quiet && after == before
        },
        Command::ToggleHelp => quiet && after == with_popup(
            before,
            Some(Popup::Help { scroll: 0 }),
        ),
        Command::FocusNextPanel => quiet && after == (App {
            screen: Screen {
                active_panel: next_panel(before.screen.active_panel, before.lyrics.visible),
                ..before.screen
            },
            ..before
        }),
        Command::FocusPreviousPanel => quiet && after == (App {
            screen: Screen {
                active_panel: previous_panel(before.screen.active_panel, before.lyrics.visible),
                ..before.screen
            },
            ..before
        }),
        Command::CursorUp => quiet && moves(before, after, Motion::Up),
        Command::CursorDown => quiet && moves(before, after, Motion::Down),
        Command::CursorTop => quiet && moves(before, after, Motion::Top),
        Command::CursorBottom => quiet && moves(before, after, Motion::Bottom),
        Command::PageUp => quiet && moves(before, after, Motion::PageUp),
        Command::PageDown => quiet && moves(before, after, Motion::PageDown),
        Command::TogglePause => toggles_pause(before, after, orders),
        Command::NextTrack => skips(before, after, orders),
        Command::PreviousTrack => goes_back(before, after, orders),
        Command::PlaySelected => plays_selected(before, after, orders),
        Command::VolumeUp => steps_volume(before, after, orders, true),
        Command::VolumeDown => steps_volume(before, after, orders, false),
        Command::SpeedUp => sets_speed(
            before,
            after,
            orders,
            audio::stepped_tenths(before.playback.speed, true),
        ),
        Command::SpeedDown => sets_speed(
            before,
            after,
            orders,
            audio::stepped_tenths(before.playback.speed, false),
        ),
        Command::SpeedReset => sets_speed(
            before,
            after,
            orders,
            PlaybackSpeed { tenths: SPEED_DEFAULT_TENTHS },
        ),
        Command::SeekForward => seeks(before, after, orders, true),
        Command::SeekBackward => seeks(before, after, orders, false),
        Command::CycleRepeat => cycles_repeat(before, after, orders),
        Command::ToggleShuffle => toggles_shuffle(before, after, orders),
        Command::ToggleLyrics => toggles_lyrics(before, after, orders),
        Command::ToggleArtwork => toggles_artwork(before, after, orders),
        Command::DeleteQueueEntry => deletes(before, after, orders),
        Command::ClearQueue => clears(before, after, orders),
        Command::SwapSelectedUp => swaps(before, after, orders, true),
        Command::SwapSelectedDown => swaps(before, after, orders, false),
    }
}

impl App {
    /// Whether the parts of the player fit together.
    pub open spec fn wf(self) -> bool {
        &&& self.playlist.wf()
        &&& self.playback.volume_percent.wf()
        &&& self.playback.speed.wf()
        &&& navigation::distinct_entries(self.navigation.unplayed@, self.playlist.tracks@.len())
        &&& forall|i: int|
            0 <= i < self.navigation.history@.len() ==> #[trigger] self.navigation.history@[i]
                < self.playlist.tracks@.len()
        &&& self.notifications@.len() <= notice::NOTIFICATIONS_CAP
    }

    /// A player with an empty queue.
    pub fn new() -> (app: Self)
        ensures
            app.wf(),
            app.playlist.tracks@.len() == 0,
            app.playlist.cursor == 0,
            app.playback == (Playback {
                status: PlayStatus::Stopped,
                track_index: None,
                elapsed: Duration { nanos: 0 },
                duration: None,
                volume_percent: VolumePercent { value: VOLUME_DEFAULT },
                speed: PlaybackSpeed { tenths: SPEED_DEFAULT_TENTHS },
            }),
            app.playback_mode == (PlaybackMode { repeat: RepeatMode::Off, shuffle: false }),
            app.navigation.history@.len() == 0,
            app.navigation.unplayed@.len() == 0,
            app.resume == (Resume { last_track: None, position_ms: 0 }),
            app.screen == (Screen {
                active_panel: Panel::Browser,
                popup: None,
                confirm_quit: true,
                should_quit: false,
                help_rows: 1,
                playlist_viewport_height: 1,
                playlist_scroll_offset: 0,
            }),
            app.lyrics == lyrics::hidden_panel(),
            app.artwork == state::initial_state(),
            !app.artwork_loading,
            app.notifications@.len() == 0,
            app.settings.crossfade_seconds == 0,
            app.settings.artwork_source == SourceConfig::All,
            app.settings.cache_dir@.len() == 0,
            app.active_playlist_name is None,
            app.stream_generation == 0,
            app.roll == 0,
    {
        let app = App {
            playlist: Playlist::new(),
            playback: Playback {
                status: PlayStatus::Stopped,
                track_index: None,
                elapsed: Duration { nanos: 0 },
                duration: None,
                volume_percent: VolumePercent { value: VOLUME_DEFAULT },
                speed: PlaybackSpeed { tenths: SPEED_DEFAULT_TENTHS },
            },
            playback_mode: PlaybackMode { repeat: RepeatMode::Off, shuffle: false },
            navigation: Navigation::new(),
            resume: Resume { last_track: None, position_ms: 0 },
            screen: Screen {
                active_panel: Panel::Browser,
                popup: None,
                confirm_quit: true,
                should_quit: false,
                help_rows: 1,
                playlist_viewport_height: 1,
                playlist_scroll_offset: 0,
            },
            lyrics: LyricsState::new(),
            artwork: ArtworkState::default(),
            artwork_loading: false,
            notifications: Vec::new(),
            settings: Settings {
                crossfade_seconds: 0,
                artwork_source: SourceConfig::All,
                cache_dir: FilePath::from_bytes(Vec::new()),
            },
            active_playlist_name: None,
            stream_generation: 0,
            roll: 0,
        };
        app
    }

    /// Add a message; the oldest one leaves when there are too many.
    pub fn push_notification(&mut self, note: Notice)
        ensures
            *final(self) == (App { notifications: final(self).notifications, ..*old(self) }),
            final(self).notifications@ == notice::with_notice(old(self).notifications@, note),
            old(self).wf() ==> final(self).wf(),
    {
        notice::push_notice(&mut self.notifications, note);
    }

    pub(crate) fn save_if_named(&self, effects: &mut Vec<Effect>)
        ensures
            effect::orders(final(effects)@) == effect::orders(old(effects)@) + autosave(*self),
    {
        let ghost before = effect::orders(effects@);
        match &self.active_playlist_name {
            Some(name) => {
                effect::add_effect(effects, Effect::SaveActivePlaylist { name: name.clone() });
                assert(effect::orders(effects@) =~= before + autosave(*self));
            },
            None => {
                assert(effect::orders(effects@) =~= before + autosave(*self));
            },
        }
    }

    fn lyrics_request(&mut self, index: usize) -> (request: Effect)
        requires
            index < old(self).playlist.tracks@.len(),
            old(self).playlist.tracks@[index as int].location is Local,
        ensures
            request@ == lyrics_order(*old(self), index),
            *final(self) == (App { lyrics: final(self).lyrics, ..*old(self) }),
            awaits_lyrics(
                old(self).lyrics,
                final(self).lyrics,
                old(self).playlist.tracks@[index as int],
            ),
    {
        let entry = &self.playlist.tracks[index];
        let tags = match &entry.metadata {
            Some(t) => Some(t),
            None => None,
        };
        let file = match &entry.location {
            TrackLocation::Local(f) => f.clone(),
            TrackLocation::Url(_) => FilePath::from_bytes(Vec::new()),
        };
        let (request, title) = lyrics::lyrics_request_for(&file, tags);
        self.lyrics.loading = true;
        self.lyrics.set_document(None);
        self.lyrics.display_title = Some(title);
        Effect::LoadLyrics { track_index: index, request }
    }

    /// Make the entry under the cursor the current one, at a position. The
    /// answer is what goes along with it.
    pub(crate) fn adopt(&mut self, elapsed: Duration, back: bool) -> (effects: Vec<Effect>)
        requires
            old(self).wf(),
            old(self).playlist.tracks@.len() > 0,
        ensures
            adopts(*old(self), *final(self), elapsed, back),
            final(self).stream_generation == old(self).stream_generation,
            effect::orders(effects@) == companion_orders(*old(self)),
            final(self).wf(),
    {
        let ghost before = *self;
        let index = self.playlist.cursor;
        let len = self.playlist.tracks.len();
        let left = match self.playback.track_index {
            Some(previous) => if previous < len && !back {
                Some(previous)
            } else {
                None
            },
            None => None,
        };
        let mut effects = effect::nothing();
        self.playback.status = PlayStatus::Playing;
        self.playback.track_index = Some(index);
        self.playback.elapsed = elapsed;
        self.playback.duration = self.playlist.tracks[index].duration();
        self.navigation.started(index, left);
        self.resume.last_track = Some(self.playlist.tracks[index].location.clone());
        self.resume.position_ms = millis_of(elapsed);
        if self.artwork.enabled {
            self.artwork_loading = true;
            let entry = &self.playlist.tracks[index];
            let tags = match &entry.metadata {
                Some(t) => Some(t.clone()),
                None => None,
            };
            effect::add_effect(
                &mut effects,
                Effect::LoadArtwork {
                    track_index: index,
                    path: entry.path(),
                    metadata: tags,
                    source_config: self.settings.artwork_source,
                    cache_dir: self.settings.cache_dir.clone(),
                },
            );
        }
        let ghost with_cover = effect::orders(effects@);
        proof {
            let cover = if before.artwork.enabled {
                seq![artwork_order(before, index)]
            } else {
                Seq::empty()
            };
            assert(with_cover =~= cover);
        }
        let local = !self.playlist.tracks[index].is_stream();
        if self.lyrics.visible && local {
            let request = self.lyrics_request(index);
            proof {
                assert(request@ == lyrics_order(before, index));
            }
            effect::add_effect(&mut effects, request);
        }
        let ghost with_words = effect::orders(effects@);
        proof {
            let words = if wants_lyrics(before, before.playlist.tracks@[index as int]) {
                seq![lyrics_order(before, index)]
            } else {
                Seq::empty()
            };
            assert(with_words =~= with_cover + words);
        }
        if self.settings.crossfade_seconds != 0 && !self.playback_mode.shuffle
            && self.playback_mode.repeat != RepeatMode::Track {
            let wrap = self.playback_mode.repeat == RepeatMode::All;
            match navigation::sequential(index, len, wrap) {
                Some(next) => {
                    let source = self.playlist.tracks[next].location.clone();
                    effect::add_effect(
                        &mut effects,
                        Effect::Audio(AudioCommand::PreloadNext { source, track_index: next }),
                    );
                },
                None => {},
            }
        }
        proof {
            assert(effect::orders(effects@) =~= companion_orders(before));
            navigation::law_without_keeps_distinct(
                before.navigation.unplayed@,
                index,
                before.playlist.tracks@.len(),
            );
        }
        effects
    }

    pub(crate) fn start(&mut self, back: bool) -> (effects: Vec<Effect>)
        requires
            old(self).wf(),
            old(self).playlist.tracks@.len() > 0,
        ensures
            begins(*old(self), *final(self), effect::orders(effects@), back),
            final(self).wf(),
    {
        let ghost before = *self;
        let index = self.playlist.cursor;
        let source = self.playlist.tracks[index].location.clone();
        let generation = if self.playlist.tracks[index].is_stream() {
            self.stream_generation = self.stream_generation.wrapping_add(1);
            Some(self.stream_generation)
        } else {
            None
        };
        let ghost numbered = *self;
        let mut effects = effect::only(
            Effect::Audio(AudioCommand::Play { source, track_index: index, generation }),
        );
        let mut companions = self.adopt(Duration { nanos: 0 }, back);
        proof {
            assert(companion_orders(numbered) == companion_orders(before));
            effect::lemma_orders_append(effects@, companions@);
        }
        effects.append(&mut companions);
        effects
    }

    /// Start the entry under the cursor.
    pub fn begin_current_track(&mut self) -> (effects: Vec<Effect>)
        requires
            old(self).wf(),
        ensures
            old(self).playlist.tracks@.len() == 0 ==> *final(self) == *old(self) && effect::orders(
                effects@,
            ) == Seq::<Order>::empty(),
            old(self).playlist.tracks@.len() > 0 ==> begins(
                *old(self),
                *final(self),
                effect::orders(effects@),
                false,
            ),
            final(self).wf(),
    {
        if self.playlist.is_empty() {
            effect::nothing()
        } else {
            self.start(false)
        }
    }

    fn play_selected(&mut self) -> (effects: Vec<Effect>)
        requires
            old(self).wf(),
        ensures
            plays_selected(*old(self), *final(self), effect::orders(effects@)),
            final(self).wf(),
    {
        if self.playlist.is_empty() {
            self.push_notification(Notice::QueueEmpty);
            effect::nothing()
        } else {
            self.start(false)
        }
    }

    fn toggle_pause(&mut self) -> (effects: Vec<Effect>)
        requires
            old(self).wf(),
        ensures
            toggles_pause(*old(self), *final(self), effect::orders(effects@)),
            final(self).wf(),
    {
        match self.playback.status {
            PlayStatus::Playing => {
                self.playback.status = PlayStatus::Paused;
                effect::only(Effect::Audio(AudioCommand::Pause))
            },
            PlayStatus::Paused => {
                self.playback.status = PlayStatus::Playing;
                effect::only(Effect::Audio(AudioCommand::Resume))
            },
            PlayStatus::Stopped => effect::nothing(),
        }
    }

    fn step_volume(&mut self, louder: bool) -> (effects: Vec<Effect>)
        requires
            old(self).wf(),
        ensures
            steps_volume(*old(self), *final(self), effect::orders(effects@), louder),
            final(self).wf(),
    {
        self.playback.volume_percent = self.playback.volume_percent.step(louder);
        effect::only(Effect::Audio(AudioCommand::SetVolume(self.playback.volume_percent)))
    }

    fn set_speed(&mut self, speed: PlaybackSpeed) -> (effects: Vec<Effect>)
        requires
            old(self).wf(),
            speed.wf(),
        ensures
            sets_speed(*old(self), *final(self), effect::orders(effects@), speed),
            final(self).wf(),
    {
        self.playback.speed = speed;
        effect::only(Effect::Audio(AudioCommand::SetSpeed(speed)))
    }

    fn seek(&self, forward: bool) -> (effects: Vec<Effect>)
        ensures
            seeks(*self, *self, effect::orders(effects@), forward),
    {
        if self.playback.track_index.is_some() {
            let amount = audio::seek_amount(self.playback.duration);
            effect::only(Effect::Audio(AudioCommand::SeekBy { forward, amount }))
        } else {
            effect::nothing()
        }
    }

    /// Roll the dice, if the queue is shuffled.
    pub(crate) fn roll_dice(&mut self)
        ensures
            *final(self) == rolled(*old(self)),
            old(self).wf() ==> final(self).wf(),
    {
        if self.playback_mode.shuffle {
            self.roll = self.roll.wrapping_add(ROLL_STEP);
        }
    }

    fn next_track(&mut self) -> (effects: Vec<Effect>)
        requires
            old(self).wf(),
        ensures
            skips(*old(self), *final(self), effect::orders(effects@)),
            final(self).wf(),
    {
        let len = self.playlist.tracks.len();
        if len == 0 {
            self.push_notification(Notice::QueueEmpty);
            return effect::nothing();
        }
        let current = match self.playback.track_index {
            Some(index) => index,
            None => self.playlist.cursor,
        };
        let next = self.navigation.next_by_hand(self.playback_mode, current, len, self.roll);
        proof {
            navigation::law_draws_stay_in_the_queue(
                self.navigation.unplayed@,
                current,
                len as nat,
                true,
                self.roll,
            );
        }
        self.roll_dice();
        match next {
            Some(index) => {
                self.playlist.cursor = index;
                self.start(false)
            },
            None => {
                self.push_notification(Notice::NoNextTrack);
                effect::nothing()
            },
        }
    }

    fn restart(&mut self) -> (effects: Vec<Effect>)
        requires
            old(self).wf(),
        ensures
            restarts(*old(self), *final(self), effect::orders(effects@)),
            final(self).wf(),
    {
        self.playback.elapsed = Duration { nanos: 0 };
        self.resume.position_ms = 0;
        effect::only(Effect::Audio(AudioCommand::SeekTo(Duration { nanos: 0 })))
    }

    fn previous_track(&mut self) -> (effects: Vec<Effect>)
        requires
            old(self).wf(),
        ensures
            goes_back(*old(self), *final(self), effect::orders(effects@)),
            final(self).wf(),
    {
        let ghost before = *self;
        let index = match self.playback.track_index {
            Some(index) => index,
            None => {
                return effect::nothing();
            },
        };
        if self.playback.elapsed.nanos >= Duration::from_secs(RESTART_SECONDS).nanos {
            return self.restart();
        }
        if self.navigation.history.len() == 0 {
            return if index > 0 && index <= self.playlist.tracks.len() {
                self.playlist.cursor = index - 1;
                self.start(true)
            } else {
                self.restart()
            };
        }
        match self.navigation.history.pop() {
            Some(previous) => {
                assert(previous == before.navigation.history@.last());
                self.playlist.cursor = previous;
                let ghost popped = *self;
                assert(popped.wf()) by {
                    assert forall|i: int| 0 <= i < popped.navigation.history@.len() implies
                        #[trigger] popped.navigation.history@[i] < popped.playlist.tracks@.len() by {
                        assert(popped.navigation.history@[i] == before.navigation.history@[i]);
                    }
                }
                let effects = self.start(true);
                proof {
                    assert(popped.navigation.history@ =~= before.navigation.history@.drop_last());
                    assert(begins(popped, *self, effect::orders(effects@), true));
                }
                effects
            },
            None => effect::nothing(),
        }
    }

    fn cycle_repeat(&mut self) -> (effects: Vec<Effect>)
        requires
            old(self).wf(),
        ensures
            cycles_repeat(*old(self), *final(self), effect::orders(effects@)),
            final(self).wf(),
    {
        let mode = self.playback_mode.repeat.cycle();
        self.playback_mode.repeat = mode;
        self.push_notification(Notice::Repeat(mode));
        effect::nothing()
    }

    fn toggle_shuffle(&mut self) -> (effects: Vec<Effect>)
        requires
            old(self).wf(),
        ensures
            toggles_shuffle(*old(self), *final(self), effect::orders(effects@)),
            final(self).wf(),
    {
        let on = !self.playback_mode.shuffle;
        self.playback_mode.shuffle = on;
        if on {
            self.navigation.begin_pass(self.playlist.tracks.len(), self.playback.track_index);
            proof {
                navigation::law_all_but_leaves_one_out(
                    self.playlist.tracks@.len(),
                    self.playback.track_index,
                );
            }
        } else {
            self.navigation.end_pass();
            assert(self.navigation.unplayed@ =~= Seq::<usize>::empty());
        }
        self.push_notification(Notice::Shuffle(on));
        effect::nothing()
    }

    fn hide_lyrics(&mut self) -> (effects: Vec<Effect>)
        requires
            old(self).wf(),
        ensures
            hides_lyrics(*old(self), *final(self), effect::orders(effects@)),
            final(self).wf(),
    {
        self.lyrics.visible = false;
        match self.screen.active_panel {
            Panel::Lyrics => {
                self.screen.active_panel = Panel::Browser;
            },
            _ => {},
        }
        effect::nothing()
    }

    fn toggle_lyrics(&mut self) -> (effects: Vec<Effect>)
        requires
            old(self).wf(),
        ensures
            toggles_lyrics(*old(self), *final(self), effect::orders(effects@)),
            final(self).wf(),
    {
        if self.lyrics.visible {
            return self.hide_lyrics();
        }
        self.lyrics.visible = true;
        self.screen.active_panel = Panel::Lyrics;
        match self.playback.track_index {
            Some(index) => if index < self.playlist.tracks.len()
                && !self.playlist.tracks[index].is_stream() {
                let request = self.lyrics_request(index);
                effect::only(request)
            } else {
                effect::nothing()
            },
            None => effect::nothing(),
        }
    }

    fn toggle_artwork(&mut self) -> (effects: Vec<Effect>)
        requires
            old(self).wf(),
        ensures
            toggles_artwork(*old(self), *final(self), effect::orders(effects@)),
            final(self).wf(),
    {
        self.artwork.toggle_visible();
        self.push_notification(Notice::Artwork(self.artwork.visible));
        effect::nothing()
    }

    /// Keep the entry under the cursor in view.
    pub(crate) fn show_cursor(&mut self)
        ensures
            *final(self) == (App {
                screen: rewound(old(self).screen, old(self).playlist.cursor),
                ..*old(self)
            }),
            old(self).wf() ==> final(self).wf(),
    {
        self.screen.playlist_scroll_offset = anchor(
            self.screen.playlist_scroll_offset,
            self.playlist.cursor,
            self.screen.playlist_viewport_height,
        );
    }

    fn renavigate(&mut self)
        requires
            old(self).playlist.wf(),
            old(self).playback.volume_percent.wf(),
            old(self).playback.speed.wf(),
            old(self).notifications@.len() <= notice::NOTIFICATIONS_CAP,
        ensures
            *final(self) == (App { navigation: final(self).navigation, ..*old(self) }),
            renavigates(*final(self), old(self).playback.track_index),
            final(self).wf(),
    {
        self.navigation.rebuild(
            self.playback_mode.shuffle,
            self.playlist.tracks.len(),
            self.playback.track_index,
        );
        proof {
            navigation::law_all_but_leaves_one_out(
                self.playlist.tracks@.len(),
                self.playback.track_index,
            );
        }
    }

    fn delete_queue_entry(&mut self) -> (effects: Vec<Effect>)
        requires
            old(self).wf(),
        ensures
            deletes(*old(self), *final(self), effect::orders(effects@)),
            final(self).wf(),
    {
        let ghost before = *self;
        if self.playlist.is_empty() {
            self.push_notification(Notice::QueueEmpty);
            return effect::nothing();
        }
        let removed = self.playlist.cursor;
        let mut effects = effect::nothing();
        self.playlist.remove(removed);
        match self.playback.track_index {
            Some(index) => {
                if index == removed {
                    self.playback.status = PlayStatus::Stopped;
                    self.playback.track_index = None;
                    self.playback.elapsed = Duration { nanos: 0 };
                    self.playback.duration = None;
                    self.resume = Resume { last_track: None, position_ms: 0 };
                    effect::add_effect(&mut effects, Effect::Audio(AudioCommand::Stop));
                    assert(effect::orders(effects@) =~= seq![Order::Audio(AudioOrder::Stop)]);
                } else if index > removed {
                    self.playback.track_index = Some(index - 1);
                }
            },
            None => {},
        }
        self.renavigate();
        self.show_cursor();
        self.save_if_named(&mut effects);
        proof {
            assert(self.navigation.history@.len() == 0);
        }
        effects
    }

    fn clear_queue(&mut self) -> (effects: Vec<Effect>)
        requires
            old(self).wf(),
        ensures
            clears(*old(self), *final(self), effect::orders(effects@)),
            final(self).wf(),
    {
        self.playlist.clear();
        self.navigation = Navigation::new();
        self.screen.playlist_scroll_offset = 0;
        let mut effects = effect::nothing();
        self.save_if_named(&mut effects);
        assert(effect::orders(effects@) =~= autosave(*old(self)));
        effects
    }

    fn swap_selected(&mut self, up: bool) -> (effects: Vec<Effect>)
        requires
            old(self).wf(),
        ensures
            swaps(*old(self), *final(self), effect::orders(effects@), up),
            final(self).wf(),
    {
        let from = self.playlist.cursor;
        let moved = self.playlist.swap_selected(up);
        let mut effects = effect::nothing();
        if !moved {
            return effects;
        }
        let to = self.playlist.cursor;
        match self.playback.track_index {
            Some(index) => {
                if index == from {
                    self.playback.track_index = Some(to);
                } else if index == to {
                    self.playback.track_index = Some(from);
                }
            },
            None => {},
        }
        self.renavigate();
        self.show_cursor();
        self.save_if_named(&mut effects);
        assert(effect::orders(effects@) =~= autosave(*old(self)));
        effects
    }

    /// Send a move to the focused panel.
    fn move_in_panel(&mut self, motion: Motion)
        requires
            old(self).wf(),
        ensures
            moves(*old(self), *final(self), motion),
            final(self).wf(),
    {
        match self.screen.active_panel {
            Panel::Browser => {},
            Panel::Playlist => {
                self.playlist.cursor = row_after(
                    self.playlist.cursor,
                    self.playlist.tracks.len(),
                    self.screen.playlist_viewport_height,
                    motion,
                );
                self.show_cursor();
            },
            Panel::Lyrics => {
                self.lyrics.scroll_by(motion);
            },
        }
    }

    fn command_in_popup(&mut self, popup: Popup, command: Command)
        requires
            old(self).wf(),
        ensures
            *final(self) == in_popup(*old(self), popup, command),
            final(self).wf(),
    {
        match command {
            Command::CancelPopup => {
                self.screen.popup = None;
                return;
            },
            _ => {},
        }
        match popup {
            Popup::ConfirmQuit => match command {
                Command::ConfirmQuitYes => {
                    self.screen.popup = None;
                    self.screen.should_quit = true;
                },
                _ => {},
            },
            Popup::Help { scroll } => match command {
                Command::ToggleHelp => {
                    self.screen.popup = None;
                },
                _ => match motion_for(command) {
                    Some(motion) => {
                        let row = help_row_after(scroll, self.screen.help_rows, motion);
                        self.screen.popup = Some(Popup::Help { scroll: row });
                    },
                    None => {},
                },
            },
        }
    }

    /// Carry out a command of the user. A dialog in front of the panels gets it
    /// first.
    pub fn handle_command(&mut self, command: Command) -> (effects: Vec<Effect>)
        requires
            old(self).wf(),
        ensures
            match old(self).screen.popup {
                Some(popup) => *final(self) == in_popup(*old(self), popup, command)
                    && effect::orders(effects@) == Seq::<Order>::empty(),
                None => obeys(*old(self), command, *final(self), effect::orders(effects@)),
            },
            final(self).wf(),
    {
        match self.screen.popup {
            Some(popup) => {
                self.command_in_popup(popup, command);
                return effect::nothing();
            },
            None => {},
        }
        match motion_for(command) {
            Some(motion) => {
                self.move_in_panel(motion);
                return effect::nothing();
            },
            None => {},
        }
        match command {
            Command::Quit => {
                if self.screen.confirm_quit {
                    self.screen.popup = Some(Popup::ConfirmQuit);
                } else {
                    self.screen.should_quit = true;
                }
                effect::nothing()
            },
            Command::CancelPopup => {
                let focused = match self.screen.active_panel {
                    Panel::Lyrics => true,
                    _ => false,
                };
                if self.lyrics.visible && focused {
                    self.hide_lyrics()
                } else {
                    effect::nothing()
                }
            },
            Command::ToggleHelp => {
                self.screen.popup = Some(Popup::Help { scroll: 0 });
                effect::nothing()
            },
            Command::FocusNextPanel => {
                self.screen.active_panel = match self.screen.active_panel {
                    Panel::Browser => Panel::Playlist,
                    Panel::Playlist => if self.lyrics.visible {
                        Panel::Lyrics
                    } else {
                        Panel::Browser
                    },
                    Panel::Lyrics => Panel::Playlist,
                };
                effect::nothing()
            },
            Command::FocusPreviousPanel => {
                self.screen.active_panel = match self.screen.active_panel {
                    Panel::Browser => if self.lyrics.visible {
                        Panel::Lyrics
                    } else {
                        Panel::Playlist
                    },
                    Panel::Playlist => Panel::Browser,
                    Panel::Lyrics => Panel::Playlist,
                };
                effect::nothing()
            },
            Command::TogglePause => self.toggle_pause(),
            Command::NextTrack => self.next_track(),
            Command::PreviousTrack => self.previous_track(),
            Command::PlaySelected => self.play_selected(),
            Command::VolumeUp => self.step_volume(true),
            Command::VolumeDown => self.step_volume(false),
            Command::SpeedUp => {
                let speed = self.playback.speed.step(true);
                self.set_speed(speed)
            },
            Command::SpeedDown => {
                let speed = self.playback.speed.step(false);
                self.set_speed(speed)
            },
            Command::SpeedReset => self.set_speed(PlaybackSpeed { tenths: SPEED_DEFAULT_TENTHS }),
            Command::SeekForward => self.seek(true),
            Command::SeekBackward => self.seek(false),
            Command::CycleRepeat => self.cycle_repeat(),
            Command::ToggleShuffle => self.toggle_shuffle(),
            Command::ToggleLyrics => self.toggle_lyrics(),
            Command::ToggleArtwork => self.toggle_artwork(),
            Command::DeleteQueueEntry => self.delete_queue_entry(),
            Command::ClearQueue => self.clear_queue(),
            Command::SwapSelectedUp => self.swap_selected(true),
            Command::SwapSelectedDown => self.swap_selected(false),
            _ => effect::nothing(),
        }
    }
}

/// Whole milliseconds of a span, as far as they can be counted.
pub fn millis_of(span: Duration) -> (millis: u64)
    ensures
        millis == whole_millis(span),
{
    let millis: u128 = span.nanos / 1_000_000;
    if millis <= u64::MAX as u128 {
        millis as u64
    } else {
        u64::MAX
    }
}

/// Scroll offset of a window that shows a row.
fn anchor(offset: usize, row: usize, height: usize) -> (moved: usize)
    ensures
        moved == anchored(offset, row, height),
{
    let rows: usize = if height == 0 {
        1
    } else {
        height
    };
    if row < offset {
        row
    } else if row - offset >= rows {
        row - rows + 1
    } else {
        offset
    }
}

/// Row of a list after a move.
fn row_after(row: usize, len: usize, height: usize, motion: Motion) -> (moved: usize)
    ensures
        moved == moved_row(row, len as nat, height, motion),
        len > 0 ==> moved < len,
        len == 0 ==> moved == 0,
{
    let page: usize = if height >= 2 {
        height - 1
    } else {
        1
    };
    let last: usize = if len > 0 {
        len - 1
    } else {
        0
    };
    let wanted: usize = match motion {
        Motion::Up => row.saturating_sub(1),
        Motion::Down => row.saturating_add(1),
        Motion::PageUp => row.saturating_sub(page),
        Motion::PageDown => row.saturating_add(page),
        Motion::Top => 0,
        Motion::Bottom => last,
    };
    if wanted > last {
        last
    } else {
        wanted
    }
}

/// Row of the help text after a move.
fn help_row_after(scroll: usize, rows: usize, motion: Motion) -> (moved: usize)
    ensures
        moved == help_row(scroll, rows, motion),
{
    let last: usize = if rows > 0 {
        rows - 1
    } else {
        0
    };
    let wanted: usize = match motion {
        Motion::Up => scroll.saturating_sub(1),
        Motion::Down => scroll.saturating_add(1),
        Motion::PageUp => scroll.saturating_sub(HELP_PAGE_ROWS),
        Motion::PageDown => scroll.saturating_add(HELP_PAGE_ROWS),
        Motion::Top => 0,
        Motion::Bottom => last,
    };
    if wanted > last {
        last
    } else {
        wanted
    }
}

/// Move that a command stands for, if any.
fn motion_for(command: Command) -> (motion: Option<Motion>)
    ensures
        motion == motion_of(command),
{
    match command {
        Command::CursorUp => Some(Motion::Up),
        Command::CursorDown => Some(Motion::Down),
        Command::CursorTop => Some(Motion::Top),
        Command::CursorBottom => Some(Motion::Bottom),
        Command::PageUp => Some(Motion::PageUp),
        Command::PageDown => Some(Motion::PageDown),
        _ => None,
    }
}

/// Skipping in a shuffled queue always plays another entry than the current
/// one, as long as there is one, and the pass never draws it again.
pub proof fn law_shuffled_skips_never_repeat(before: App, after: App, orders: Seq<Order>)
    requires
        before.wf(),
        before.playback_mode.shuffle,
        2 <= before.playlist.tracks@.len() <= usize::MAX,
        before.playback.track_index is Some,
        !before.navigation.unplayed@.contains(before.playback.track_index->0),
        skips(before, after, orders),
    ensures
        after.playback.track_index is Some,
        after.playback.track_index != before.playback.track_index,
        !after.navigation.unplayed@.contains(after.playback.track_index->0),
{
    let current = before.playback.track_index->0;
    let len = before.playlist.tracks@.len();
    let unplayed = before.navigation.unplayed@;
    navigation::law_shuffled_skip_always_plays(
        before.playback_mode,
        unplayed,
        current,
        len,
        before.roll,
    );
    navigation::law_draws_never_repeat(unplayed, current, len, before.roll);
    let next = navigation::next_by_hand(before.playback_mode, unplayed, current, len, before.roll);
    navigation::law_without_leaves_the_others(unplayed, next->0);
}

/// Going back right after a skip returns to the entry that was left.
pub proof fn law_going_back_undoes_a_skip(
    before: App,
    skipped: App,
    after: App,
    first: Seq<Order>,
    second: Seq<Order>,
)
    requires
        before.playback.track_index matches Some(current) && current < before.playlist.tracks@.len(),
        skips(before, skipped, first),
        skipped.playback.track_index != before.playback.track_index,
        goes_back(skipped, after, second),
    ensures
        after.playback.track_index == before.playback.track_index,
        after.playlist.cursor == before.playback.track_index->0,
        after.navigation.history@ == before.navigation.history@,
{
    let history = skipped.navigation.history@;
    assert(history == before.navigation.history@.push(before.playback.track_index->0));
    assert(history.drop_last() =~= before.navigation.history@);
    let popped = choose|popped: App|
        {
            &&& popped == (App {
                navigation: popped.navigation,
                ..at_entry(skipped, history.last())
            })
            &&& popped.navigation.history@ == history.drop_last()
            &&& popped.navigation.unplayed@ == skipped.navigation.unplayed@
            &&& #[trigger] begins(popped, after, second, true)
        };
    assert(begins(popped, after, second, true));
}

} // verus!
