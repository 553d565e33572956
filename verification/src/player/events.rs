//! What workers report to the player, and how its queue grows.
use crate::artwork::protocol;
use crate::artwork::protocol::ResizeRequest;
use crate::artwork::state;
use crate::artwork::state::{ArtworkProtocol, ArtworkState};
use crate::geometry::Size;
use crate::metadata;
use crate::metadata::{Tags, TrackMetadata};
use crate::path::FilePath;
use crate::player::app;
use crate::player::app::{App, Panel, Playback, Popup, Resume, Screen};
use crate::player::audio::{PlayStatus, PlaybackSnapshot};
use crate::player::effect;
use crate::player::effect::{Effect, Order};
use crate::player::lyrics::{LoadOutcome, LyricsState};
use crate::player::navigation;
use crate::player::notice;
use crate::player::notice::Notice;
use crate::player::playlist;
use crate::player::playlist::Append;
use crate::player::track;
use crate::player::track::{Location, Track, TrackLocation};
use crate::time::Duration;
use vstd::prelude::*;

verus! {

/// Whether files were appended to the queue. A shuffled pass can draw them.
pub open spec fn appends(before: App, after: App, files: Seq<FilePath>) -> bool {
    &&& after == (App { playlist: after.playlist, navigation: after.navigation, ..before })
    &&& after.playlist.tracks@ == playlist::extended(before.playlist.tracks@, files)
    &&& after.playlist.cursor == before.playlist.cursor
    &&& after.navigation.history@ == before.navigation.history@
    &&& after.navigation.unplayed@ == if before.playback_mode.shuffle {
        before.navigation.unplayed@ + navigation::gained(
            before.playlist.tracks@.len(),
            after.playlist.tracks@.len(),
        )
    } else {
        before.navigation.unplayed@
    }
}

/// Whether the files of a scan were taken in.
pub open spec fn takes_in(
    before: App,
    after: App,
    orders: Seq<Order>,
    directory: FilePath,
    files: Seq<FilePath>,
) -> bool {
    let fresh = playlist::fresh_files(before.playlist.tracks@, files);
    if files.len() == 0 {
        app::only_notes(before, after, orders, Notice::NoSupportedFiles)
    } else {
        &&& appends(before, App { notifications: before.notifications, ..after }, files)
        &&& after.notifications@ == notice::with_notice(
            before.notifications@,
            Notice::TracksAdded { count: fresh.len() as usize, directory },
        )
        &&& orders == if fresh.len() > 0 {
            seq![Order::LoadMetadata(playlist::file_views(fresh))] + app::autosave(before)
        } else {
            Seq::empty()
        }
    }
}

/// Tags that results hold for a location: the last ones count.
pub open spec fn last_tags(results: Seq<(FilePath, TrackMetadata)>, location: Location) -> Option<
    Tags,
>
    decreases results.len(),
{
    if results.len() == 0 {
        None
    } else if track::same_track(location, Location::Local(results.last().0@)) {
        Some(results.last().1@)
    } else {
        last_tags(results.drop_last(), location)
    }
}

/// Whether every entry has the tags that results hold for it.
pub open spec fn tags_applied(
    before: Seq<Track>,
    after: Seq<Track>,
    results: Seq<(FilePath, TrackMetadata)>,
) -> bool {
    &&& after.len() == before.len()
    &&& forall|i: int|
        #![trigger after[i]]
        0 <= i < before.len() ==> {
            &&& after[i].location == before[i].location
            &&& match last_tags(results, before[i].location@) {
                Some(tags) => metadata::optional_tags(after[i].metadata) == Some(tags),
                None => after[i] == before[i],
            }
        }
}

/// Length of the current track after tags arrived: a length that is known
/// already stays.
pub open spec fn duration_after_tags(
    a: App,
    results: Seq<(FilePath, TrackMetadata)>,
) -> Option<Duration> {
    match a.playback.track_index {
        Some(index) if a.playback.duration is None && index < a.playlist.tracks@.len() => {
            match last_tags(results, a.playlist.tracks@[index as int].location@) {
                Some(tags) => Some(tags.duration),
                None => None,
            }
        },
        _ => a.playback.duration,
    }
}

/// Player that stopped at the end of its queue.
pub open spec fn stopped(a: App) -> App {
    App {
        playback: Playback {
            status: PlayStatus::Stopped,
            track_index: None,
            elapsed: Duration { nanos: 0 },
            duration: None,
            ..a.playback
        },
        ..a
    }
}

/// Whether the player went on after a track ended. A report about a track that
/// is not the current one is stale.
pub open spec fn goes_on(before: App, after: App, orders: Seq<Order>, reported: usize) -> bool {
    let len = before.playlist.tracks@.len();
    match before.playback.track_index {
        Some(current) if app::current_position(before, reported) == Some(current as int) => {
            match navigation::next_by_itself(
                before.playback_mode,
                before.navigation.unplayed@,
                current,
                len,
                before.roll,
            ) {
                Some(next) if next < len => app::begins(
                    app::at_entry(app::rolled(before), next),
                    after,
                    orders,
                    false,
                ),
                _ => after == stopped(app::rolled(before)) && orders == Seq::<Order>::empty(),
            }
        },
        _ => after == before && orders == Seq::<Order>::empty(),
    }
}

/// Playback after a report of the worker. Volume and speed are left alone.
pub open spec fn after_progress(a: App, snapshot: PlaybackSnapshot) -> Playback {
    Playback {
        status: snapshot.status,
        track_index: match snapshot.track_index {
            Some(reported) => match app::current_position(a, reported) {
                Some(position) => Some(position as usize),
                None => None,
            },
            None => None,
        },
        elapsed: snapshot.elapsed,
        duration: match snapshot.duration {
            Some(length) => Some(length),
            None => a.playback.duration,
        },
        ..a.playback
    }
}

/// Files of the local entries of a queue.
pub open spec fn local_files(tracks: Seq<Track>) -> Seq<Seq<u8>>
    decreases tracks.len(),
{
    if tracks.len() == 0 {
        Seq::empty()
    } else {
        let front = local_files(tracks.drop_last());
        match tracks.last().location@ {
            Location::Local(file) => front.push(file),
            Location::Url(_) => front,
        }
    }
}

/// Sizes of the panels in a frame, and the area for artwork, if it is shown.
#[derive(Debug, Clone, Copy, PartialEq, Eq)]
pub struct FrameMetrics {
    pub browser_height: usize,
    pub playlist_height: usize,
    pub lyrics_height: usize,
    pub lyrics_width: usize,
    pub artwork_target: Option<Size>,
}

impl FrameMetrics {
    /// Sizes of the panels, without artwork.
    pub fn new(
        browser_height: usize,
        playlist_height: usize,
        lyrics_height: usize,
        lyrics_width: usize,
    ) -> (metrics: Self)
        ensures
            metrics == (FrameMetrics {
                browser_height,
                playlist_height,
                lyrics_height,
                lyrics_width,
                artwork_target: None,
            }),
    {
        FrameMetrics {
            browser_height,
            playlist_height,
            lyrics_height,
            lyrics_width,
            artwork_target: None,
        }
    }
}

impl App {
    /// Dialog in front of the panels, if any.
    pub fn active_popup(&self) -> (popup: Option<Popup>)
        ensures
            popup == self.screen.popup,
    {
        self.screen.popup
    }

    /// Dialog in front of the panels, where it is kept.
    pub fn active_popup_ref(&self) -> (popup: Option<&Popup>)
        ensures
            popup is Some == self.screen.popup is Some,
            popup matches Some(p) ==> Some(*p) == self.screen.popup,
    {
        match &self.screen.popup {
            Some(p) => Some(p),
            None => None,
        }
    }

    /// Whether the application is to end.
    pub fn should_quit(&self) -> (quit: bool)
        ensures
            quit == self.screen.should_quit,
    {
        self.screen.should_quit
    }

    /// Focused panel.
    pub fn active_panel(&self) -> (panel: Panel)
        ensures
            panel == self.screen.active_panel,
    {
        self.screen.active_panel
    }

    /// Set the height of the window over the queue.
    pub fn set_playlist_viewport_height(&mut self, height: usize)
        ensures
            *final(self) == (App {
                screen: Screen { playlist_viewport_height: height, ..old(self).screen },
                ..*old(self)
            }),
            old(self).wf() ==> final(self).wf(),
    {
        self.screen.playlist_viewport_height = height;
    }

    /// First row of the window over the queue.
    pub fn playlist_scroll_offset(&self) -> (offset: usize)
        ensures
            offset == self.screen.playlist_scroll_offset,
    {
        self.screen.playlist_scroll_offset
    }

    /// Append files that are not in the queue yet.
    pub fn extend_playlist(&mut self, files: Vec<FilePath>) -> (append: Append)
        requires
            old(self).wf(),
        ensures
            appends(*old(self), *final(self), files@),
            playlist::file_views(append.added@) == playlist::file_views(
                playlist::fresh_files(old(self).playlist.tracks@, files@),
            ),
            append.added@.len() + append.skipped == files@.len(),
            final(self).wf(),
    {
        let ghost before = *self;
        let start = self.playlist.tracks.len();
        let append = self.playlist.append_new(files);
        let end = self.playlist.tracks.len();
        proof {
            playlist::law_appending_keeps_the_queue(before.playlist.tracks@, files@);
            navigation::law_gained_entries_are_distinct(
                before.navigation.unplayed@,
                start as nat,
                end as nat,
            );
        }
        if self.playback_mode.shuffle {
            self.navigation.grow(start, end);
        }
        append
    }

    /// Send the cursor of the queue to an entry, or to the last one, and keep
    /// it in view.
    pub fn select_playlist_track(&mut self, index: usize)
        requires
            old(self).wf(),
        ensures
            ({
                let len = old(self).playlist.tracks@.len();
                let row = if index < len {
                    index
                } else if len > 0 {
                    (len - 1) as usize
                } else {
                    0
                };
                *final(self) == (App {
                    screen: app::rewound(old(self).screen, row),
                    ..app::at_entry(*old(self), row)
                })
            }),
            final(self).wf(),
    {
        self.playlist.select(index);
        self.show_cursor();
    }

    /// Take in the files of a scanned directory. Their tags are read, and a
    /// queue with a name is saved.
    pub fn apply_scan_completed(&mut self, directory: FilePath, files: Vec<FilePath>) -> (effects:
        Vec<Effect>)
        requires
            old(self).wf(),
        ensures
            takes_in(*old(self), *final(self), effect::orders(effects@), directory, files@),
            final(self).wf(),
    {
        let ghost before = *self;
        if files.len() == 0 {
            self.push_notification(Notice::NoSupportedFiles);
            return effect::nothing();
        }
        let append = self.extend_playlist(files);
        let ghost fresh = playlist::fresh_files(before.playlist.tracks@, files@);
        let count = append.added.len();
        proof {
            assert(playlist::file_views(append.added@).len() == playlist::file_views(fresh).len());
        }
        self.push_notification(Notice::TracksAdded { count, directory });
        if count > 0 {
            let mut effects = effect::only(Effect::LoadMetadata(append.added));
            self.save_if_named(&mut effects);
            effects
        } else {
            effect::nothing()
        }
    }

    /// Attach tags that were read to every entry that they are for. Entries
    /// keep their order, and a length that is known already stays.
    pub fn apply_metadata_completed(
        &mut self,
        results: Vec<(FilePath, TrackMetadata)>,
        failed: usize,
    )
        requires
            old(self).wf(),
        ensures
            *final(self) == (App {
                playlist: final(self).playlist,
                playback: Playback {
                    duration: duration_after_tags(*old(self), results@),
                    ..old(self).playback
                },
                notifications: final(self).notifications,
                ..*old(self)
            }),
            tags_applied(old(self).playlist.tracks@, final(self).playlist.tracks@, results@),
            final(self).playlist.cursor == old(self).playlist.cursor,
            failed == 0 ==> final(self).notifications == old(self).notifications,
            failed > 0 ==> final(self).notifications@ == notice::with_notice(
                old(self).notifications@,
                Notice::MetadataUnavailable(failed),
            ),
            final(self).wf(),
    {
        let ghost before = *self;
        let mut i: usize = 0;
        while i < results.len()
            invariant
                i <= results.len(),
                before.wf(),
                *self == (App { playlist: self.playlist, ..before }),
                self.playlist.cursor == before.playlist.cursor,
                tags_applied(
                    before.playlist.tracks@,
                    self.playlist.tracks@,
                    results@.take(i as int),
                ),
            decreases results.len() - i,
        {
            let ghost previous = self.playlist.tracks@;
            let location = TrackLocation::Local(results[i].0.clone());
            self.playlist.apply_metadata(&location, &results[i].1);
            proof {
                let done = results@.take(i + 1);
                assert(done.drop_last() =~= results@.take(i as int));
                assert(done.last() == results@[i as int]);
                let start = before.playlist.tracks@;
                let now = self.playlist.tracks@;
                assert forall|k: int| #![trigger now[k]] 0 <= k < start.len() implies {
                    &&& now[k].location == start[k].location
                    &&& match last_tags(done, start[k].location@) {
                        Some(tags) => metadata::optional_tags(now[k].metadata) == Some(tags),
                        None => now[k] == start[k],
                    }
                } by {
                    assert(previous[k].location == start[k].location);
                }
            }
            i += 1;
        }
        proof {
            assert(results@.take(i as int) =~= results@);
        }
        match self.playback.track_index {
            Some(index) => {
                if self.playback.duration.is_none() && index < self.playlist.tracks.len() {
                    let found = tags_for(&results, &self.playlist.tracks[index].location);
                    assert(self.playlist.tracks@[index as int].location
                        == before.playlist.tracks@[index as int].location);
                    self.playback.duration = found;
                }
            },
            None => {},
        }
        if failed > 0 {
            self.push_notification(Notice::MetadataUnavailable(failed));
        }
    }

    fn is_current(&self, reported: usize) -> (current: Option<usize>)
        ensures
            current is Some == (self.playback.track_index is Some && app::current_position(
                *self,
                reported,
            ) == Some(self.playback.track_index->0 as int)),
            current matches Some(index) ==> self.playback.track_index == Some(index),
    {
        let index = match self.playback.track_index {
            Some(index) => index,
            None => {
                return None;
            },
        };
        let position = self.position_for(reported);
        match position {
            Some(p) => if p == index {
                Some(index)
            } else {
                None
            },
            None => None,
        }
    }

    fn position_for(&self, reported: usize) -> (position: Option<usize>)
        ensures
            position is Some == app::current_position(*self, reported) is Some,
            position matches Some(p) ==> app::current_position(*self, reported) == Some(p as int),
    {
        match &self.resume.last_track {
            Some(location) => self.playlist.position_of(location),
            None => Some(reported),
        }
    }

    /// Go on after a track ended: repeat it, play another one, or stop. A
    /// report about a track that is not the current one is stale.
    pub fn apply_track_ended(&mut self, reported: usize) -> (effects: Vec<Effect>)
        requires
            old(self).wf(),
        ensures
            goes_on(*old(self), *final(self), effect::orders(effects@), reported),
            final(self).wf(),
    {
        let current = match self.is_current(reported) {
            Some(index) => index,
            None => {
                return effect::nothing();
            },
        };
        let len = self.playlist.tracks.len();
        let next = self.navigation.next_by_itself(self.playback_mode, current, len, self.roll);
        self.roll_dice();
        match next {
            Some(index) => if index < len {
                self.playlist.cursor = index;
                return self.start(false);
            },
            None => {},
        }
        self.playback.status = PlayStatus::Stopped;
        self.playback.track_index = None;
        self.playback.elapsed = Duration { nanos: 0 };
        self.playback.duration = None;
        effect::nothing()
    }

    /// Merge a report of the audio worker. Its entry is looked up by what
    /// plays, since the queue may have been reordered.
    pub fn apply_playback_progress(&mut self, snapshot: PlaybackSnapshot)
        requires
            old(self).wf(),
        ensures
            *final(self) == (App {
                playback: after_progress(*old(self), snapshot),
                resume: final(self).resume,
                ..*old(self)
            }),
            final(self).resume == (Resume {
                position_ms: if final(self).playback.track_index is Some {
                    app::whole_millis(snapshot.elapsed)
                } else {
                    old(self).resume.position_ms
                },
                ..old(self).resume
            }),
            final(self).wf(),
    {
        let index = match snapshot.track_index {
            Some(reported) => self.position_for(reported),
            None => None,
        };
        self.playback.status = snapshot.status;
        self.playback.track_index = index;
        self.playback.elapsed = snapshot.elapsed;
        match snapshot.duration {
            Some(length) => {
                self.playback.duration = Some(length);
            },
            None => {},
        }
        if index.is_some() {
            self.resume.position_ms = app::millis_of(snapshot.elapsed);
        }
    }

    /// Take over the track that a crossfade ended in, at its position. A track
    /// that is not queued any more is stale.
    pub fn apply_crossfade_completed(&mut self, file: FilePath, elapsed: Duration) -> (effects: Vec<
        Effect,
    >)
        requires
            old(self).wf(),
        ensures
            match playlist::first_at(old(self).playlist.tracks@, Location::Local(file@)) {
                Some(position) => {
                    let there = app::at_entry(*old(self), position as usize);
                    &&& app::adopts(there, *final(self), elapsed, false)
                    &&& final(self).stream_generation == old(self).stream_generation
                    &&& effect::orders(effects@) == app::companion_orders(there)
                },
                None => *final(self) == *old(self) && effect::orders(effects@)
                    == Seq::<Order>::empty(),
            },
            final(self).wf(),
    {
        let location = TrackLocation::Local(file);
        match self.playlist.position_of(&location) {
            Some(position) => {
                self.playlist.cursor = position;
                self.adopt(elapsed, false)
            },
            None => effect::nothing(),
        }
    }

    /// Show the cover that was loaded for an entry, or that there is none. A
    /// cover for an entry that is not the current one is stale. The answer is a
    /// file to remove.
    pub fn apply_artwork_loaded(&mut self, track_index: usize, cover: Option<ArtworkProtocol>) -> (
        removed: Option<FilePath>)
        ensures
            old(self).playback.track_index != Some(track_index) ==> *final(self) == *old(self)
                && removed is None,
            old(self).playback.track_index == Some(track_index) ==> {
                &&& *final(self) == (App {
                    artwork: state::with_artwork(old(self).artwork, track_index, cover),
                    artwork_loading: false,
                    ..*old(self)
                })
                &&& removed == if state::keeps_source(old(self).artwork, cover) {
                    None
                } else {
                    state::file_to_remove(old(self).artwork.external_source)
                }
            },
            old(self).wf() ==> final(self).wf(),
    {
        let current = match self.playback.track_index {
            Some(index) => index == track_index,
            None => false,
        };
        if !current {
            return None;
        }
        self.artwork_loading = false;
        self.artwork.set_artwork(track_index, cover)
    }

    /// Show the lyrics that were looked up for an entry. Lyrics for an entry
    /// that is not the current one are stale.
    pub fn apply_lyrics_loaded(&mut self, track_index: usize, outcome: LoadOutcome)
        ensures
            old(self).playback.track_index != Some(track_index) ==> *final(self) == *old(self),
            old(self).playback.track_index == Some(track_index) ==> *final(self) == (App {
                lyrics: LyricsState {
                    loading: false,
                    document: outcome.document,
                    origin: outcome.origin,
                    scroll: 0,
                    ..old(self).lyrics
                },
                ..*old(self)
            }),
            old(self).wf() ==> final(self).wf(),
    {
        let current = match self.playback.track_index {
            Some(index) => index == track_index,
            None => false,
        };
        if !current {
            return;
        }
        self.lyrics.loading = false;
        self.lyrics.origin = outcome.origin;
        self.lyrics.set_document(outcome.document);
    }

    /// Request the tags of every local entry.
    pub fn load_metadata_for_queue(&self) -> (effects: Vec<Effect>)
        ensures
            ({
                let files = local_files(self.playlist.tracks@);
                effect::orders(effects@) == if files.len() > 0 {
                    seq![Order::LoadMetadata(files)]
                } else {
                    Seq::empty()
                }
            }),
    {
        let mut files: Vec<FilePath> = Vec::new();
        let mut i: usize = 0;
        proof {
            assert(self.playlist.tracks@.take(0) =~= Seq::<Track>::empty());
            assert(playlist::file_views(files@) =~= local_files(self.playlist.tracks@.take(0)));
        }
        while i < self.playlist.tracks.len()
            invariant
                i <= self.playlist.tracks.len(),
                playlist::file_views(files@) == local_files(self.playlist.tracks@.take(i as int)),
            decreases self.playlist.tracks.len() - i,
        {
            let ghost before = files@;
            proof {
                let done = self.playlist.tracks@.take(i + 1);
                assert(done.drop_last() =~= self.playlist.tracks@.take(i as int));
                assert(done.last() == self.playlist.tracks@[i as int]);
            }
            match self.playlist.tracks[i].path() {
                Some(file) => {
                    let ghost added = file@;
                    files.push(file);
                    assert(playlist::file_views(files@) =~= playlist::file_views(before).push(
                        added,
                    ));
                },
                None => {},
            }
            i += 1;
        }
        proof {
            assert(self.playlist.tracks@.take(i as int) =~= self.playlist.tracks@);
            assert(playlist::file_views(files@).len() == files@.len());
        }
        if files.len() > 0 {
            effect::only(Effect::LoadMetadata(files))
        } else {
            effect::nothing()
        }
    }

    /// Note the sizes of a frame. The answer is a request for the resize worker,
    /// if the cover has to be encoded for the area that it is drawn in.
    pub fn tick_frame(&mut self, metrics: FrameMetrics) -> (request: Option<ResizeRequest>)
        requires
            old(self).artwork.wf(),
        ensures
            request == match metrics.artwork_target {
                Some(area) => state::request_for(old(self).artwork, area),
                None => None,
            },
            *final(self) == (App {
                screen: app::rewound(
                    Screen {
                        playlist_viewport_height: metrics.playlist_height,
                        ..old(self).screen
                    },
                    old(self).playlist.cursor,
                ),
                lyrics: LyricsState {
                    viewport_height: metrics.lyrics_height,
                    viewport_width: metrics.lyrics_width,
                    ..old(self).lyrics
                },
                artwork: final(self).artwork,
                ..*old(self)
            }),
            request is None ==> final(self).artwork == old(self).artwork,
            request is Some ==> final(self).artwork == (ArtworkState {
                protocol: Some(
                    protocol::ArtworkThreadProtocol {
                        inner: None,
                        generation: protocol::next_generation(
                            old(self).artwork.protocol->0.generation,
                        ),
                        ..old(self).artwork.protocol->0
                    },
                ),
                ..old(self).artwork
            }),
            final(self).artwork.wf(),
            old(self).wf() ==> final(self).wf(),
    {
        self.screen.playlist_viewport_height = metrics.playlist_height;
        self.show_cursor();
        self.lyrics.viewport_height = metrics.lyrics_height;
        self.lyrics.viewport_width = metrics.lyrics_width;
        match metrics.artwork_target {
            Some(area) => self.artwork.submit_resize(area),
            None => None,
        }
    }
}

/// Length that results hold for a location.
fn tags_for(results: &Vec<(FilePath, TrackMetadata)>, location: &TrackLocation) -> (length: Option<
    Duration,
>)
    ensures
        length == match last_tags(results@, location@) {
            Some(tags) => Some(tags.duration),
            None => None,
        },
{
    let mut i: usize = results.len();
    assert(results@.take(i as int) =~= results@);
    while i > 0
        invariant
            i <= results.len(),
            last_tags(results@.take(i as int), location@) == last_tags(results@, location@),
        decreases i,
    {
        let here = TrackLocation::Local(results[i - 1].0.clone());
        proof {
            assert(results@.take(i as int).drop_last() =~= results@.take(i - 1));
            assert(results@.take(i as int).last() == results@[i - 1]);
        }
        if location.same(&here) {
            return Some(results[i - 1].1.duration);
        }
        i -= 1;
    }
    None
}

} // verus!
