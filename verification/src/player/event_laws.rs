//! Promises that the player keeps about reports of its workers, its panels and
//! its dialogs.
//!
//! Each law is about the calls themselves: what a command or a report hands out
//! and what it changes.
use crate::artwork::laws as artwork_laws;
use crate::artwork::protocol::ResizeRequest;
use crate::artwork::state::{ArtworkProtocol, ArtworkState};
use crate::artwork::terminal;
use crate::metadata;
use crate::metadata::TrackMetadata;
use crate::path;
use crate::path::FilePath;
use crate::player::app::{App, Command, Popup};
use crate::player::app_laws;
use crate::player::audio::{PlaybackSnapshot, PlaybackSpeed, VolumePercent};
use crate::player::effect;
use crate::player::effect::Effect;
use crate::player::events;
use crate::player::events::FrameMetrics;
use crate::player::laws;
use crate::player::lyrics;
use crate::player::lyrics::{LoadOutcome, LyricsRequest, LyricsState, Motion};
use crate::player::navigation;
use crate::player::notice;
use crate::player::notice::Notice;
use crate::player::playlist;
use crate::player::playlist::{Append, Playlist};
use crate::player::track;
use crate::player::track::{Location, Track, TrackLocation};
use crate::text;
use crate::time::Duration;
use vstd::math;
use vstd::prelude::*;
use vstd::utf8::*;

verus! {

proof fn lemma_effects_are_counted(effects: Seq<Effect>)
    ensures
        effect::orders(effects).len() == effects.len(),
        forall|k: int|
            #![trigger effects[k]]
            0 <= k < effects.len() ==> effects[k]@ == effect::orders(effects)[k],
{
}

/// A scan of files that are not in the queue appends them all, in order, asks for
/// the tags of each, tells how many there were, and saves a queue that has a name.
/// A shuffled pass can draw every one of them.
pub proof fn law_scanned_files_are_taken_in(
    player: &mut App,
    directory: FilePath,
    files: Vec<FilePath>,
    effects: Vec<Effect>,
)
    requires
        old(player).wf(),
        call_ensures(App::apply_scan_completed, (player, directory, files), effects),
        files@.len() > 0,
        forall|k: int| 0 <= k < files@.len() ==> path::is_plain((#[trigger] files@[k])@),
        forall|i: int, k: int|
            0 <= i < old(player).playlist.tracks@.len() && 0 <= k < files@.len()
                ==> laws::is_elsewhere(
                #[trigger] old(player).playlist.tracks@[i],
                (#[trigger] files@[k])@,
            ),
        forall|j: int, k: int|
            0 <= j < k < files@.len() ==> (#[trigger] files@[j])@ != (#[trigger] files@[k])@,
    ensures
        ({
            let before = old(player).playlist.tracks@;
            let after = final(player).playlist.tracks@;
            &&& after.len() == before.len() + files@.len()
            &&& forall|i: int| 0 <= i < before.len() ==> #[trigger] after[i] == before[i]
            &&& forall|k: int|
                #![trigger files@[k]]
                0 <= k < files@.len() ==> after[before.len() + k].location
                    == TrackLocation::Local(files@[k])
            &&& effects@.len() >= 1
            &&& effects@[0] matches Effect::LoadMetadata(asked)
            &&& asked@.len() == files@.len()
            &&& forall|k: int|
                #![trigger asked@[k]]
                0 <= k < files@.len() ==> asked@[k]@ == files@[k]@
            &&& app_laws::saves_last(*old(player), effects@, 1)
            &&& final(player).notifications@.last() == (Notice::TracksAdded {
                count: files@.len() as usize,
                directory,
            })
            &&& final(player).playback == old(player).playback
            &&& final(player).playlist.cursor == old(player).playlist.cursor
            &&& old(player).playback_mode.shuffle ==> forall|e: usize|
                before.len() <= e < after.len()
                    ==> #[trigger] final(player).navigation.unplayed@.contains(e)
        }),
{
    let before = *old(player);
    let tracks = before.playlist.tracks@;
    laws::lemma_new_files_are_all_fresh(tracks, files@);
    lemma_effects_are_counted(effects@);
    assert(effects@[0]@ == effect::orders(effects@)[0]);
    let asked = effects@[0]->LoadMetadata_0@;
    assert(playlist::file_views(asked) == playlist::file_views(files@));
    assert(playlist::file_views(asked).len() == asked.len());
    assert(playlist::file_views(files@).len() == files@.len());
    assert forall|k: int| #![trigger asked[k]] 0 <= k < files@.len() implies asked[k]@
        == files@[k]@ by {
        assert(playlist::file_views(asked)[k] == playlist::file_views(files@)[k]);
    }
    if before.active_playlist_name is Some {
        assert(effects@[1]@ == effect::orders(effects@)[1]);
    }
    if before.playback_mode.shuffle {
        let old_pass = before.navigation.unplayed@;
        let pass = final(player).navigation.unplayed@;
        assert(final(player).playlist.tracks.len() == final(player).playlist.tracks@.len());
        assert forall|e: usize|
            tracks.len() <= e < final(player).playlist.tracks@.len() implies #[trigger] pass.contains(
            e,
        ) by {
            assert(pass[old_pass.len() + (e - tracks.len())] == e);
        }
    }
}

/// A scan that finds nothing says so and does nothing else.
pub proof fn law_empty_scans_only_say_so(
    player: &mut App,
    directory: FilePath,
    files: Vec<FilePath>,
    effects: Vec<Effect>,
)
    requires
        old(player).wf(),
        call_ensures(App::apply_scan_completed, (player, directory, files), effects),
        files@.len() == 0,
    ensures
        effects@.len() == 0,
        app_laws::only_says(*old(player), *final(player), Notice::NoSupportedFiles),
{
    lemma_effects_are_counted(effects@);
}

proof fn lemma_tags_of_a_file(
    results: Seq<(FilePath, TrackMetadata)>,
    file: Seq<u8>,
    at: int,
)
    requires
        path::is_plain(file),
        0 <= at < results.len(),
        results[at].0@ == file,
        forall|k: int|
            at < k < results.len() ==> path::is_plain((#[trigger] results[k]).0@) && results[k].0@
                != file,
    ensures
        events::last_tags(results, Location::Local(file)) == Some(results[at].1@),
    decreases results.len(),
{
    if at < results.len() - 1 {
        let last = results[results.len() - 1].0@;
        track::lemma_plain_files_are_told_apart(file, last);
        let front = results.drop_last();
        assert forall|k: int| at < k < front.len() implies path::is_plain(
            (#[trigger] front[k]).0@,
        ) && front[k].0@ != file by {
            assert(front[k] == results[k]);
        }
        lemma_tags_of_a_file(front, file, at);
    }
}

proof fn lemma_no_tags_for_a_file(results: Seq<(FilePath, TrackMetadata)>, entry: Track)
    requires
        forall|k: int|
            0 <= k < results.len() ==> path::is_plain((#[trigger] results[k]).0@)
                && laws::is_elsewhere(entry, results[k].0@),
    ensures
        events::last_tags(results, entry.location@) is None,
    decreases results.len(),
{
    if results.len() > 0 {
        let last = results[results.len() - 1].0@;
        assert(path::is_plain(last) && laws::is_elsewhere(entry, last));
        match entry.location {
            TrackLocation::Local(file) => {
                track::lemma_plain_files_are_told_apart(file@, last);
            },
            TrackLocation::Url(_) => {},
        }
        let front = results.drop_last();
        assert forall|k: int| 0 <= k < front.len() implies path::is_plain(
            (#[trigger] front[k]).0@,
        ) && laws::is_elsewhere(entry, front[k].0@) by {
            assert(front[k] == results[k]);
        }
        lemma_no_tags_for_a_file(front, entry);
    }
}

/// Tags that were read reach the entry of their file, and no other entry. The
/// current track learns its length from them if it had none.
pub proof fn law_read_tags_reach_their_entry(
    player: &mut App,
    results: Vec<(FilePath, TrackMetadata)>,
    failed: usize,
    i: int,
    at: int,
)
    requires
        old(player).wf(),
        call_ensures(App::apply_metadata_completed, (player, results, failed), ()),
        0 <= i < old(player).playlist.tracks@.len(),
        forall|k: int| 0 <= k < results@.len() ==> path::is_plain((#[trigger] results@[k]).0@),
    ensures
        ({
            let before = old(player).playlist.tracks@;
            let after = final(player).playlist.tracks@;
            let given = 0 <= at < results@.len() && before[i].location@ == Location::Local(
                results@[at].0@,
            ) && forall|k: int|
                at < k < results@.len() ==> (#[trigger] results@[k]).0@ != results@[at].0@;
            &&& after.len() == before.len()
            &&& after[i].location == before[i].location
            &&& given ==> after[i].metadata is Some && after[i].metadata->0@ == results@[at].1@
            &&& (forall|k: int|
                0 <= k < results@.len() ==> laws::is_elsewhere(
                    before[i],
                    (#[trigger] results@[k]).0@,
                )) ==> after[i] == before[i]
            &&& given && old(player).playback.track_index == Some(i as usize)
                && old(player).playback.duration is None ==> final(player).playback.duration
                == Some(results@[at].1.duration)
            &&& old(player).playback.duration is Some ==> final(player).playback.duration
                == old(player).playback.duration
            &&& final(player).playback.track_index == old(player).playback.track_index
            &&& failed > 0 ==> final(player).notifications@.last() == Notice::MetadataUnavailable(
                failed,
            )
            &&& failed == 0 ==> final(player).notifications == old(player).notifications
        }),
{
    let before = old(player).playlist.tracks@;
    let after = final(player).playlist.tracks@;
    assert(old(player).playlist.tracks.len() == before.len());
    assert(after[i].location == before[i].location);
    if 0 <= at < results@.len() && before[i].location@ == Location::Local(results@[at].0@)
        && forall|k: int| at < k < results@.len() ==> (#[trigger] results@[k]).0@ != results@[at].0@ {
        lemma_tags_of_a_file(results@, results@[at].0@, at);
    }
    if forall|k: int|
        0 <= k < results@.len() ==> laws::is_elsewhere(before[i], (#[trigger] results@[k]).0@) {
        lemma_no_tags_for_a_file(results@, before[i]);
    }
}

/// A report of the worker is taken over: status, position and length. Volume and
/// speed are the user's, and a length that is known is not forgotten. What plays is
/// looked up by its location, so that a queue that was reordered keeps its place.
pub proof fn law_progress_is_taken_over(
    player: &mut App,
    snapshot: PlaybackSnapshot,
    location: &TrackLocation,
    position: Option<usize>,
)
    requires
        old(player).wf(),
        call_ensures(App::apply_playback_progress, (player, snapshot), ()),
        call_ensures(Playlist::position_of, (&old(player).playlist, location), position),
    ensures
        final(player).playback.status == snapshot.status,
        final(player).playback.elapsed == snapshot.elapsed,
        snapshot.duration is Some ==> final(player).playback.duration == snapshot.duration,
        snapshot.duration is None ==> final(player).playback.duration
            == old(player).playback.duration,
        final(player).playback.volume_percent == old(player).playback.volume_percent,
        final(player).playback.speed == old(player).playback.speed,
        snapshot.track_index is None ==> final(player).playback.track_index is None,
        snapshot.track_index is Some && old(player).resume.last_track is None
            ==> final(player).playback.track_index == snapshot.track_index,
        snapshot.track_index is Some && old(player).resume.last_track is Some
            && old(player).resume.last_track->0@ == location@
            ==> final(player).playback.track_index == position,
        final(player).playback.track_index is Some && snapshot.elapsed.nanos < 1_000_000 * (
        u64::MAX as u128) ==> final(player).resume.position_ms == snapshot.elapsed.nanos
            / 1_000_000,
        final(player).playback.track_index is None ==> final(player).resume.position_ms
            == old(player).resume.position_ms,
        final(player).playlist == old(player).playlist,
{
}

/// A crossfade that ended makes its track the current one, at its position; a track
/// that is not queued any more changes nothing.
pub proof fn law_crossfades_end_in_their_track(
    player: &mut App,
    file: FilePath,
    elapsed: Duration,
    effects: Vec<Effect>,
    location: &TrackLocation,
    position: Option<usize>,
)
    requires
        old(player).wf(),
        call_ensures(App::apply_crossfade_completed, (player, file, elapsed), effects),
        location@ == Location::Local(file@),
        call_ensures(Playlist::position_of, (&old(player).playlist, location), position),
    ensures
        position is None ==> effects@.len() == 0 && *final(player) == *old(player),
        position matches Some(index) ==> {
            &&& final(player).playback.status is Playing
            &&& final(player).playback.track_index == Some(index)
            &&& final(player).playback.elapsed == elapsed
            &&& final(player).playlist.cursor == index
            &&& final(player).playlist.tracks == old(player).playlist.tracks
            &&& forall|k: int|
                0 <= k < effects@.len() ==> !(#[trigger] effects@[k] matches Effect::Audio(
                    crate::player::audio::AudioCommand::Play { .. },
                ))
        },
{
    lemma_effects_are_counted(effects@);
}

/// A cover is shown only for the track that plays, and so are lyrics; anything that
/// comes too late changes nothing.
pub proof fn law_late_loads_change_nothing(
    player: &mut App,
    index: usize,
    cover: Option<ArtworkProtocol>,
    removed: Option<FilePath>,
    reading: &mut App,
    outcome: LoadOutcome,
)
    requires
        call_ensures(App::apply_artwork_loaded, (player, index, cover), removed),
        call_ensures(App::apply_lyrics_loaded, (reading, index, outcome), ()),
    ensures
        old(player).playback.track_index != Some(index) ==> *final(player) == *old(player)
            && removed is None,
        old(player).playback.track_index == Some(index) ==> {
            &&& final(player).artwork.track_index == Some(index)
            &&& !final(player).artwork_loading
            &&& cover matches Some(c) ==> final(player).artwork.protocol == Some(c.protocol)
                && final(player).artwork.external_source == c.external_source
                && final(player).artwork.fallback_protocol == c.fallback_protocol
            &&& cover is None ==> final(player).artwork.protocol is None
                && final(player).artwork.external_source is None
            &&& final(player).playback == old(player).playback
        },
        old(reading).playback.track_index != Some(index) ==> *final(reading) == *old(reading),
        old(reading).playback.track_index == Some(index) ==> {
            &&& final(reading).lyrics.document == outcome.document
            &&& final(reading).lyrics.origin == outcome.origin
            &&& !final(reading).lyrics.loading
            &&& final(reading).lyrics.scroll == 0
            &&& final(reading).lyrics.visible == old(reading).lyrics.visible
            &&& final(reading).playback == old(reading).playback
        },
{
}

proof fn lemma_local_files_are_all_listed(tracks: Seq<Track>)
    ensures
        forall|i: int|
            0 <= i < tracks.len() && (#[trigger] tracks[i]).location is Local
                ==> events::local_files(tracks).contains(tracks[i].location->Local_0@),
        forall|k: int|
            #![trigger events::local_files(tracks)[k]]
            0 <= k < events::local_files(tracks).len() ==> exists|i: int|
                0 <= i < tracks.len() && (#[trigger] tracks[i]).location@ == Location::Local(
                    events::local_files(tracks)[k],
                ),
        events::local_files(tracks).len() <= tracks.len(),
    decreases tracks.len(),
{
    if tracks.len() > 0 {
        let front = tracks.drop_last();
        lemma_local_files_are_all_listed(front);
        let listed = events::local_files(front);
        let all = events::local_files(tracks);
        assert forall|i: int|
            0 <= i < tracks.len() && (#[trigger] tracks[i]).location is Local implies all.contains(
            tracks[i].location->Local_0@,
        ) by {
            let file = tracks[i].location->Local_0;
            if i == tracks.len() - 1 {
                assert(all[all.len() - 1] == file@);
            } else {
                assert(front[i] == tracks[i]);
                assert(listed.contains(file@));
                let k = choose|k: int| 0 <= k < listed.len() && listed[k] == file@;
                assert(all[k] == file@);
            }
        }
        assert forall|k: int| #![trigger all[k]] 0 <= k < all.len() implies exists|i: int|
            0 <= i < tracks.len() && (#[trigger] tracks[i]).location@ == Location::Local(all[k]) by {
            if k < listed.len() {
                assert(all[k] == listed[k]);
                let i = choose|i: int|
                    0 <= i < front.len() && (#[trigger] front[i]).location@ == Location::Local(
                        listed[k],
                    );
                assert(tracks[i] == front[i]);
            } else {
                assert(tracks[tracks.len() - 1].location@ == Location::Local(all[k]));
            }
        }
    }
}

/// The tags of every file in the queue are asked for, and of nothing else; a queue
/// without files asks for nothing.
pub proof fn law_the_tags_of_every_file_are_asked_for(player: &App, effects: Vec<Effect>)
    requires
        call_ensures(App::load_metadata_for_queue, (player,), effects),
    ensures
        effects@.len() <= 1,
        effects@.len() == 1 ==> effects@[0] is LoadMetadata,
        forall|i: int|
            0 <= i < player.playlist.tracks@.len() && (
            #[trigger] player.playlist.tracks@[i]).location is Local ==> effects@.len() == 1
                && playlist::file_views(effects@[0]->LoadMetadata_0@).contains(
                player.playlist.tracks@[i].location->Local_0@,
            ),
        effects@.len() == 1 ==> forall|k: int|
            #![trigger playlist::file_views(effects@[0]->LoadMetadata_0@)[k]]
            0 <= k < playlist::file_views(effects@[0]->LoadMetadata_0@).len() ==> exists|i: int|
                0 <= i < player.playlist.tracks@.len() && (
                #[trigger] player.playlist.tracks@[i]).location@ == Location::Local(
                    playlist::file_views(effects@[0]->LoadMetadata_0@)[k],
                ),
{
    let tracks = player.playlist.tracks@;
    lemma_local_files_are_all_listed(tracks);
    lemma_effects_are_counted(effects@);
    if effects@.len() == 1 {
        assert(effects@[0]@ == effect::orders(effects@)[0]);
    }
    assert forall|i: int|
        0 <= i < tracks.len() && (#[trigger] tracks[i]).location is Local implies effects@.len() == 1
        && playlist::file_views(effects@[0]->LoadMetadata_0@).contains(
        tracks[i].location->Local_0@,
    ) by {
        assert(events::local_files(tracks).contains(tracks[i].location->Local_0@));
        assert(events::local_files(tracks).len() > 0);
    }
}

/// Whether a row is in the window over the queue.
pub open spec fn in_view(player: App) -> bool {
    let offset = player.screen.playlist_scroll_offset;
    let rows = math::max(1, player.screen.playlist_viewport_height as int);
    offset <= player.playlist.cursor < offset + rows
}

/// A frame keeps the cursor in view, notes the size of the lyrics panel, and asks
/// for the cover to be encoded only if there is an area for it.
pub proof fn law_frames_keep_the_cursor_in_view(
    player: &mut App,
    metrics: FrameMetrics,
    request: Option<ResizeRequest>,
)
    requires
        call_ensures(App::tick_frame, (player, metrics), request),
    ensures
        in_view(*final(player)),
        final(player).screen.playlist_viewport_height == metrics.playlist_height,
        final(player).lyrics.viewport_height == metrics.lyrics_height,
        final(player).lyrics.viewport_width == metrics.lyrics_width,
        final(player).playlist == old(player).playlist,
        final(player).playback == old(player).playback,
        metrics.artwork_target is None ==> request is None && final(player).artwork
            == old(player).artwork,
        old(player).artwork.protocol is None ==> request is None,
{
}

/// A frame asks for a cover at hand to be encoded for the cells that it covers in
/// the area, unless it is encoded for them.
pub proof fn law_frames_ask_for_the_cells_that_are_covered(
    player: &mut App,
    metrics: FrameMetrics,
    request: Option<ResizeRequest>,
)
    requires
        call_ensures(App::tick_frame, (player, metrics), request),
        metrics.artwork_target is Some,
        old(player).artwork.protocol is Some,
        old(player).artwork.protocol->0.inner is Some,
        old(player).artwork.protocol->0.pending is None,
    ensures
        ({
            let p = old(player).artwork.protocol->0;
            let contents = terminal::protocol_contents(p.inner->0);
            let cells = artwork_laws::covered(
                p.inner->0,
                metrics.artwork_target->0,
                p.resize_target,
            );
            let target = artwork_laws::clipped(cells, p.resize_target);
            &&& request is Some == ((contents.outdated || cells != contents.area)
                && p.last_encoded_target != Some(target))
            &&& request matches Some(r) ==> r.target == target && r.protocol == p.inner->0
        }),
{
}

/// Moves in the queue go by a row, by a page that is a row shorter than the window,
/// or to an end; they stay in the queue, and the cursor stays in view.
pub proof fn law_moves_in_the_queue(player: &mut App, command: Command, effects: Vec<Effect>)
    requires
        old(player).wf(),
        old(player).screen.popup is None,
        old(player).screen.active_panel is Playlist,
        old(player).playlist.tracks@.len() > 0,
        command is CursorUp || command is CursorDown || command is CursorTop
            || command is CursorBottom || command is PageUp || command is PageDown,
        call_ensures(App::handle_command, (player, command), effects),
    ensures
        ({
            let row = old(player).playlist.cursor as int;
            let last = old(player).playlist.tracks@.len() - 1;
            let page = math::max(1, old(player).screen.playlist_viewport_height - 1);
            let now = final(player).playlist.cursor as int;
            &&& effects@.len() == 0
            &&& command is CursorUp ==> now == math::max(0, row - 1)
            &&& command is CursorDown ==> now == math::min(last, row + 1)
            &&& command is CursorTop ==> now == 0
            &&& command is CursorBottom ==> now == last
            &&& command is PageUp ==> now == math::max(0, row - page)
            &&& command is PageDown ==> now == math::min(last, row + page)
            &&& in_view(*final(player))
            &&& final(player).playlist.tracks == old(player).playlist.tracks
            &&& final(player).playback == old(player).playback
        }),
{
    lemma_effects_are_counted(effects@);
    assert(old(player).playlist.tracks.len() == old(player).playlist.tracks@.len());
}

/// Without lyrics the focus goes back and forth between the browser and the queue;
/// the lyrics panel is focused only while it is in view.
pub proof fn law_focus_goes_to_panels_in_view(
    onward: &mut App,
    ahead: Vec<Effect>,
    backward: &mut App,
    behind: Vec<Effect>,
)
    requires
        old(onward).wf(),
        old(onward).screen.popup is None,
        call_ensures(App::handle_command, (onward, Command::FocusNextPanel), ahead),
        *old(backward) == *old(onward),
        call_ensures(App::handle_command, (backward, Command::FocusPreviousPanel), behind),
    ensures
        ahead@.len() == 0 && behind@.len() == 0,
        final(onward).screen.active_panel is Lyrics ==> old(onward).lyrics.visible,
        final(backward).screen.active_panel is Lyrics ==> old(onward).lyrics.visible,
        final(onward).screen.active_panel != old(onward).screen.active_panel,
        final(backward).screen.active_panel != old(onward).screen.active_panel,
        old(onward).screen.active_panel is Browser ==> final(onward).screen.active_panel is Playlist,
        old(onward).screen.active_panel is Playlist ==> final(backward).screen.active_panel is Browser,
        old(onward).screen.active_panel is Playlist && old(onward).lyrics.visible ==> final(onward).screen.active_panel is Lyrics,
        old(onward).screen.active_panel is Browser && old(onward).lyrics.visible ==> final(backward).screen.active_panel is Lyrics,
        final(onward).playback == old(onward).playback,
        final(onward).playlist == old(onward).playlist,
{
    lemma_effects_are_counted(ahead@);
    lemma_effects_are_counted(behind@);
}

/// Quitting asks first, unless the user does not want to be asked. Only a yes to
/// that question quits; anything that cancels goes back.
pub proof fn law_quitting_asks_first(
    player: &mut App,
    effects: Vec<Effect>,
    agreeing: &mut App,
    none: Vec<Effect>,
    declining: &mut App,
    nothing: Vec<Effect>,
)
    requires
        old(player).wf(),
        old(player).screen.popup is None,
        !old(player).screen.should_quit,
        call_ensures(App::handle_command, (player, Command::Quit), effects),
        *old(agreeing) == *final(player),
        call_ensures(App::handle_command, (agreeing, Command::ConfirmQuitYes), none),
        *old(declining) == *final(player),
        call_ensures(App::handle_command, (declining, Command::CancelPopup), nothing),
        old(player).screen.confirm_quit,
    ensures
        effects@.len() == 0,
        !final(player).screen.should_quit,
        final(player).screen.popup == Some(Popup::ConfirmQuit),
        final(agreeing).screen.should_quit,
        final(agreeing).screen.popup is None,
        *final(declining) == *old(player),
{
    lemma_effects_are_counted(effects@);
}

/// A user who does not want to be asked quits at once, and a yes that nobody asked
/// for quits nothing.
pub proof fn law_quitting_without_a_question(
    player: &mut App,
    effects: Vec<Effect>,
    agreeing: &mut App,
    none: Vec<Effect>,
)
    requires
        old(player).wf(),
        old(player).screen.popup is None,
        !old(player).screen.confirm_quit,
        call_ensures(App::handle_command, (player, Command::Quit), effects),
        *old(agreeing) == *old(player),
        call_ensures(App::handle_command, (agreeing, Command::ConfirmQuitYes), none),
    ensures
        final(player).screen.should_quit,
        final(player).screen.popup is None,
        *final(agreeing) == *old(agreeing),
{
}

/// While a dialog is open, no command reaches the player behind it.
pub proof fn law_dialogs_keep_commands_away(player: &mut App, command: Command, effects: Vec<Effect>)
    requires
        old(player).wf(),
        old(player).screen.popup is Some,
        call_ensures(App::handle_command, (player, command), effects),
    ensures
        effects@.len() == 0,
        final(player).playlist == old(player).playlist,
        final(player).playback == old(player).playback,
        final(player).playback_mode == old(player).playback_mode,
        final(player).navigation == old(player).navigation,
        final(player).lyrics == old(player).lyrics,
        final(player).artwork == old(player).artwork,
        final(player).screen.active_panel == old(player).screen.active_panel,
        final(player).screen.should_quit != old(player).screen.should_quit ==> old(player).screen.popup == Some(Popup::ConfirmQuit) && command is ConfirmQuitYes,
        command is CancelPopup ==> final(player).screen.popup is None,
{
    lemma_effects_are_counted(effects@);
}

/// The help opens at its top, scrolls within its rows, and closes with the command
/// that opened it.
pub proof fn law_help_opens_scrolls_and_closes(
    player: &mut App,
    effects: Vec<Effect>,
    scrolling: &mut App,
    scroll: usize,
    command: Command,
    none: Vec<Effect>,
    closing: &mut App,
    nothing: Vec<Effect>,
)
    requires
        old(player).wf(),
        old(player).screen.popup is None,
        call_ensures(App::handle_command, (player, Command::ToggleHelp), effects),
        old(scrolling).wf(),
        old(scrolling).screen.popup == Some(Popup::Help { scroll }),
        scroll < old(scrolling).screen.help_rows,
        call_ensures(App::handle_command, (scrolling, command), none),
        *old(closing) == *final(player),
        call_ensures(App::handle_command, (closing, Command::ToggleHelp), nothing),
    ensures
        final(player).screen.popup == Some(Popup::Help { scroll: 0 }),
        *final(closing) == *old(player),
        ({
            let last = old(scrolling).screen.help_rows - 1;
            let now = final(scrolling).screen.popup;
            &&& command is CursorUp ==> now == Some(
                Popup::Help { scroll: math::max(0, scroll - 1) as usize },
            )
            &&& command is CursorDown ==> now == Some(
                Popup::Help { scroll: math::min(last, scroll + 1) as usize },
            )
            &&& command is PageUp ==> now == Some(
                Popup::Help { scroll: math::max(0, scroll - 10) as usize },
            )
            &&& command is PageDown ==> now == Some(
                Popup::Help { scroll: math::min(last, scroll + 10) as usize },
            )
            &&& command is CursorTop ==> now == Some(Popup::Help { scroll: 0 })
            &&& command is CursorBottom ==> now == Some(Popup::Help { scroll: last as usize })
            &&& command is NextTrack ==> now == Some(Popup::Help { scroll })
        }),
{
}

/// Showing the lyrics focuses them and looks up those of the file that plays;
/// hiding them gives the focus back to the browser. Streams have none.
pub proof fn law_lyrics_are_looked_up_when_shown(player: &mut App, effects: Vec<Effect>)
    requires
        old(player).wf(),
        old(player).screen.popup is None,
        call_ensures(App::handle_command, (player, Command::ToggleLyrics), effects),
    ensures
        final(player).lyrics.visible == !old(player).lyrics.visible,
        final(player).playback == old(player).playback,
        old(player).lyrics.visible ==> {
            &&& effects@.len() == 0
            &&& !(final(player).screen.active_panel is Lyrics)
            &&& final(player).lyrics.document == old(player).lyrics.document
        },
        !old(player).lyrics.visible ==> {
            let playing = old(player).playback.track_index;
            let tracks = old(player).playlist.tracks@;
            let known = playing is Some && playing->0 < tracks.len()
                && tracks[playing->0 as int].location is Local;
            &&& final(player).screen.active_panel is Lyrics
            &&& known ==> {
                &&& effects@.len() == 1
                &&& effects@[0] matches Effect::LoadLyrics { track_index, request }
                &&& track_index == playing->0
                &&& request.audio_path@ == tracks[playing->0 as int].location->Local_0@
                &&& final(player).lyrics.loading
                &&& final(player).lyrics.document is None
            }
            &&& !known ==> effects@.len() == 0
        },
{
    lemma_effects_are_counted(effects@);
    if effects@.len() == 1 {
        assert(effects@[0]@ == effect::orders(effects@)[0]);
    }
}

/// Toggling artwork twice comes back to where it was, and each time says what is
/// shown. What plays is not touched.
pub proof fn law_artwork_is_shown_and_hidden(
    player: &mut App,
    first: Vec<Effect>,
    again: &mut App,
    second: Vec<Effect>,
)
    requires
        old(player).wf(),
        old(player).screen.popup is None,
        call_ensures(App::handle_command, (player, Command::ToggleArtwork), first),
        *old(again) == *final(player),
        call_ensures(App::handle_command, (again, Command::ToggleArtwork), second),
    ensures
        first@.len() == 0 && second@.len() == 0,
        final(player).artwork.visible == !old(player).artwork.visible,
        final(again).artwork.visible == old(player).artwork.visible,
        final(player).artwork.protocol == old(player).artwork.protocol,
        final(player).artwork.enabled == old(player).artwork.enabled,
        final(player).playback == old(player).playback,
        final(player).notifications@.last() == Notice::Artwork(final(player).artwork.visible),
{
    lemma_effects_are_counted(first@);
    lemma_effects_are_counted(second@);
}

/// Messages come in order: the newest is last, at most fifty are kept, and only the
/// oldest ones leave.
pub proof fn law_the_newest_messages_are_kept(
    notes: &mut Vec<Notice>,
    note: Notice,
)
    requires
        call_ensures(notice::push_notice, (notes, note), ()),
        old(notes)@.len() <= 50,
    ensures
        final(notes)@.last() == note,
        final(notes)@.len() == math::min(50, old(notes)@.len() as int + 1),
        forall|i: int|
            0 <= i < final(notes)@.len() - 1 ==> #[trigger] final(notes)@[i] == old(notes)@[i + (
            old(notes)@.len() + 1 - final(notes)@.len())],
{
}

/// Tags that are copied say the same, word for word.
pub proof fn law_copied_tags_say_the_same(tags: &TrackMetadata, copy: TrackMetadata)
    requires
        call_ensures(TrackMetadata::clone, (tags,), copy),
    ensures
        copy.title@ == tags.title@,
        copy.title_tagged == tags.title_tagged,
        copy.artist@ == tags.artist@,
        copy.album@ == tags.album@,
        copy.track_number == tags.track_number,
        copy.duration == tags.duration,
        copy.bitrate == tags.bitrate,
        copy.sample_rate == tags.sample_rate,
        copy.codec@ == tags.codec@,
        copy.format@ == tags.format@,
        copy.album_artist is Some == tags.album_artist is Some,
        copy.album_artist matches Some(text) ==> text@ == tags.album_artist->0@,
        copy.disc_number == tags.disc_number,
        copy.genre is Some == tags.genre is Some,
        copy.genre matches Some(text) ==> text@ == tags.genre->0@,
        copy.year == tags.year,
        copy.composer is Some == tags.composer is Some,
        copy.composer matches Some(text) ==> text@ == tags.composer->0@,
        copy.comment is Some == tags.comment is Some,
        copy.comment matches Some(text) ==> text@ == tags.comment->0@,
{
}

/// Lyrics are asked for with what the tags say: a tagged title, and an artist and
/// an album unless they are empty or stand for missing ones. The title is shown
/// meanwhile.
pub proof fn law_lyrics_are_asked_for_by_name(
    file: &FilePath,
    tags: &TrackMetadata,
    asked: (LyricsRequest, String),
    plain: (LyricsRequest, String),
)
    requires
        call_ensures(lyrics::lyrics_request_for, (file, Some(tags)), asked),
        call_ensures(lyrics::lyrics_request_for, (file, None::<&TrackMetadata>), plain),
    ensures
        asked.0.audio_path@ == file@,
        asked.0.title is Some == (tags.title_tagged && tags.title@.len() > 0),
        asked.0.title matches Some(title) ==> title@ == tags.title@ && asked.1@ == tags.title@,
        asked.0.artist is Some == (tags.artist@.len() > 0 && tags.artist@ != "Unknown Artist"@),
        asked.0.artist matches Some(artist) ==> artist@ == tags.artist@,
        asked.0.album is Some == (tags.album@.len() > 0 && tags.album@ != "Unknown Album"@),
        asked.0.album matches Some(album) ==> album@ == tags.album@,
        plain.0.audio_path@ == file@,
        plain.0.title is None && plain.0.artist is None && plain.0.album is None,
        asked.0.title is None ==> asked.1@ == plain.1@,
{
}

/// Sending the cursor somewhere keeps it in the queue and in view.
pub proof fn law_selected_entries_are_in_view(player: &mut App, index: usize)
    requires
        old(player).wf(),
        call_ensures(App::select_playlist_track, (player, index), ()),
        old(player).playlist.tracks@.len() > 0,
    ensures
        final(player).playlist.cursor == math::min(
            index as int,
            old(player).playlist.tracks@.len() - 1,
        ),
        in_view(*final(player)),
        final(player).playlist.tracks == old(player).playlist.tracks,
        final(player).playback == old(player).playback,
{
    assert(old(player).playlist.tracks.len() == old(player).playlist.tracks@.len());
}

/// One track is a track, and any other number of them are tracks.
pub proof fn law_numbers_of_tracks_are_worded(one: String, many: String, count: usize)
    requires
        call_ensures(Notice::text, (&Notice::MetadataUnavailable(1),), one),
        call_ensures(Notice::text, (&Notice::MetadataUnavailable(count),), many),
        count != 1,
    ensures
        one@ == "Metadata unavailable for "@ + (text::decimal_text(1) + " track"@),
        many@ == "Metadata unavailable for "@ + (text::decimal_text(count as nat) + " tracks"@),
{
}

/// Files are taken in alike, whoever brings them: the queue is the same, and the tags
/// that are asked for are those of just the files that are new in it.
pub proof fn law_only_new_files_are_read(
    player: &mut App,
    directory: FilePath,
    files: Vec<FilePath>,
    effects: Vec<Effect>,
    other: &mut App,
    append: Append,
    queue: &mut Playlist,
    same: Append,
)
    requires
        old(player).wf(),
        files@.len() > 0,
        call_ensures(App::apply_scan_completed, (player, directory, files), effects),
        *old(other) == *old(player),
        call_ensures(App::extend_playlist, (other, files), append),
        *old(queue) == old(player).playlist,
        call_ensures(Playlist::append_new, (queue, files), same),
    ensures
        final(player).playlist.tracks@ == final(queue).tracks@,
        final(other).playlist.tracks@ == final(queue).tracks@,
        final(other).playlist.cursor == old(player).playlist.cursor,
        final(other).playback == old(player).playback,
        append.added@.len() == same.added@.len(),
        append.skipped == same.skipped,
        same.added@.len() == 0 ==> effects@.len() == 0,
        same.added@.len() > 0 ==> {
            &&& effects@.len() >= 1
            &&& effects@[0] matches Effect::LoadMetadata(asked)
            &&& asked@.len() == same.added@.len()
            &&& forall|k: int|
                #![trigger asked@[k]]
                0 <= k < asked@.len() ==> asked@[k]@ == same.added@[k]@
        },
        final(player).notifications@.last() == (Notice::TracksAdded {
            count: same.added@.len() as usize,
            directory,
        }),
{
    lemma_effects_are_counted(effects@);
    let fresh = playlist::fresh_files(old(player).playlist.tracks@, files@);
    assert(playlist::file_views(fresh).len() == fresh.len());
    assert(playlist::file_views(append.added@).len() == append.added@.len());
    assert(playlist::file_views(same.added@).len() == same.added@.len());
    if same.added@.len() > 0 {
        assert(effects@[0]@ == effect::orders(effects@)[0]);
        let asked = effects@[0]->LoadMetadata_0@;
        assert(playlist::file_views(asked).len() == asked.len());
        assert forall|k: int| #![trigger asked[k]] 0 <= k < asked.len() implies asked[k]@
            == same.added@[k]@ by {
            assert(playlist::file_views(asked)[k] == playlist::file_views(same.added@)[k]);
        }
    }
}

/// The end of a track is stale if what plays is queued elsewhere or not at all.
pub proof fn law_ends_of_other_tracks_change_nothing(
    player: &mut App,
    reported: usize,
    effects: Vec<Effect>,
    location: &TrackLocation,
    position: Option<usize>,
)
    requires
        old(player).wf(),
        call_ensures(App::apply_track_ended, (player, reported), effects),
        old(player).resume.last_track is Some,
        old(player).resume.last_track->0@ == location@,
        call_ensures(Playlist::position_of, (&old(player).playlist, location), position),
        position is None || position != old(player).playback.track_index,
    ensures
        effects@.len() == 0,
        *final(player) == *old(player),
{
    lemma_effects_are_counted(effects@);
}

/// Without a dialog, cancelling hides lyrics that are focused and does nothing else.
pub proof fn law_cancelling_hides_focused_lyrics(player: &mut App, effects: Vec<Effect>)
    requires
        old(player).wf(),
        old(player).screen.popup is None,
        call_ensures(App::handle_command, (player, Command::CancelPopup), effects),
    ensures
        effects@.len() == 0,
        final(player).playback == old(player).playback,
        ({
            let focused = old(player).lyrics.visible && old(player).screen.active_panel is Lyrics;
            &&& focused ==> !final(player).lyrics.visible
                && final(player).screen.active_panel is Browser
            &&& !focused ==> *final(player) == *old(player)
        }),
{
    lemma_effects_are_counted(effects@);
}

/// Moves go to the focused panel alone: in the lyrics they scroll, and in the
/// browser they are none of the player's business.
pub proof fn law_moves_go_to_the_focused_panel(
    player: &mut App,
    command: Command,
    motion: Motion,
    effects: Vec<Effect>,
    panel: &mut LyricsState,
)
    requires
        old(player).wf(),
        old(player).screen.popup is None,
        !(old(player).screen.active_panel is Playlist),
        command == match motion {
            Motion::Up => Command::CursorUp,
            Motion::Down => Command::CursorDown,
            Motion::PageUp => Command::PageUp,
            Motion::PageDown => Command::PageDown,
            Motion::Top => Command::CursorTop,
            Motion::Bottom => Command::CursorBottom,
        },
        call_ensures(App::handle_command, (player, command), effects),
        *old(panel) == old(player).lyrics,
        call_ensures(LyricsState::scroll_by, (panel, motion), ()),
    ensures
        effects@.len() == 0,
        final(player).playlist == old(player).playlist,
        final(player).playback == old(player).playback,
        old(player).screen.active_panel is Browser ==> *final(player) == *old(player),
        old(player).screen.active_panel is Lyrics ==> final(player).lyrics == *final(panel),
{
    lemma_effects_are_counted(effects@);
}

/// Volumes go up to a hundred percent, and speeds from a half to twice the normal
/// one.
pub proof fn law_volumes_and_speeds_have_bounds(
    percent: u16,
    volume: Option<VolumePercent>,
    tenths: u16,
    speed: Option<PlaybackSpeed>,
)
    requires
        call_ensures(VolumePercent::new, (percent,), volume),
        call_ensures(PlaybackSpeed::new, (tenths,), speed),
    ensures
        volume is Some == (percent <= 100),
        volume matches Some(v) ==> v.value == percent,
        speed is Some == (5 <= tenths <= 20),
        speed matches Some(s) ==> s.tenths == tenths,
{
}

/// An entry is a file or a stream, and holds what it was made of.
pub proof fn law_entries_are_what_they_are_made_of(
    file: FilePath,
    local: Track,
    address: &str,
    stream: Track,
    entry: &Track,
    streams: bool,
    found: Option<FilePath>,
    length: Option<Duration>,
    line: String,
)
    requires
        call_ensures(Track::local, (file,), local),
        call_ensures(Track::from_stream, (address,), stream),
        call_ensures(Track::is_stream, (entry,), streams),
        call_ensures(Track::path, (entry,), found),
        call_ensures(Track::duration, (entry,), length),
        call_ensures(Track::display_location, (entry,), line),
    ensures
        local.location == TrackLocation::Local(file) && local.metadata is None,
        stream.location is Url && stream.location->Url_0@ == address@ && stream.metadata is None,
        streams == entry.location is Url,
        found is None == streams,
        found matches Some(f) ==> f@ == entry.location->Local_0@,
        length is Some == entry.metadata is Some,
        length matches Some(span) ==> span == entry.metadata->0.duration,
        entry.location matches TrackLocation::Url(text) ==> line@ == text@,
        entry.location matches TrackLocation::Local(f) ==> valid_utf8(f@) ==> line@ == decode_utf8(
            f@,
        ),
{
}

/// A cover that was loaded reaches the artwork as it would by itself.
pub proof fn law_loaded_covers_reach_the_artwork(
    player: &mut App,
    index: usize,
    cover: Option<ArtworkProtocol>,
    removed: Option<FilePath>,
    artwork: &mut ArtworkState,
    same: Option<FilePath>,
)
    requires
        old(player).playback.track_index == Some(index),
        call_ensures(App::apply_artwork_loaded, (player, index, cover), removed),
        *old(artwork) == old(player).artwork,
        call_ensures(ArtworkState::set_artwork, (artwork, index, cover), same),
    ensures
        final(player).artwork == *final(artwork),
        removed == same,
        !final(player).artwork_loading,
{
}

/// Lyrics of a file that plays are asked for with its tags, and its title is shown
/// meanwhile.
pub proof fn law_lyrics_of_the_current_file_are_asked_for(
    player: &mut App,
    effects: Vec<Effect>,
    file: &FilePath,
    tags: Option<&TrackMetadata>,
    asked: (LyricsRequest, String),
)
    requires
        old(player).wf(),
        old(player).screen.popup is None,
        !old(player).lyrics.visible,
        old(player).playback.track_index is Some,
        old(player).playback.track_index->0 < old(player).playlist.tracks@.len(),
        ({
            let entry = old(player).playlist.tracks@[old(player).playback.track_index->0 as int];
            &&& entry.location@ == Location::Local(file@)
            &&& tags is Some == entry.metadata is Some
            &&& tags matches Some(t) ==> t@ == entry.metadata->0@
        }),
        call_ensures(App::handle_command, (player, Command::ToggleLyrics), effects),
        call_ensures(lyrics::lyrics_request_for, (file, tags), asked),
    ensures
        effects@.len() == 1,
        effects@[0] matches Effect::LoadLyrics { track_index, request } && request@ == asked.0@,
        final(player).lyrics.display_title is Some,
        final(player).lyrics.display_title->0@ == asked.1@,
{
    lemma_effects_are_counted(effects@);
    assert(effects@[0]@ == effect::orders(effects@)[0]);
}

} // verus!
