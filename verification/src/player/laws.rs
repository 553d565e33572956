//! Promises that the queue and its navigation keep.
//!
//! Each law is about the calls themselves: what a call may return and how it
//! may change the value that it is made on.
use crate::metadata;
use crate::metadata::TrackMetadata;
use crate::path;
use crate::path::FilePath;
use crate::player::navigation;
use crate::player::navigation::{Navigation, PlaybackMode, RepeatMode};
use crate::player::playlist;
use crate::player::playlist::{Append, Playlist};
use crate::player::track;
use crate::player::track::{Location, Track, TrackLocation};
use vstd::prelude::*;

verus! {

/// In a queue that is not shuffled, a track that ends is followed by the next one.
/// After the last one a queue that repeats as a whole starts over, and any other
/// one ends. A track that repeats follows itself.
pub proof fn law_tracks_follow_one_another(
    nav: &Navigation,
    mode: PlaybackMode,
    current: usize,
    len: usize,
    roll: u64,
    next: Option<usize>,
)
    requires
        call_ensures(Navigation::next_by_itself, (nav, mode, current, len, roll), next),
        current < len,
        !mode.shuffle,
    ensures
        mode.repeat is Track ==> next == Some(current),
        mode.repeat is All ==> next == Some(((current + 1) % (len as int)) as usize),
        mode.repeat is Off ==> next == if current + 1 == len {
            None
        } else {
            Some((current + 1) as usize)
        },
{
    if current + 1 == len {
        assert((current + 1) % (len as int) == 0) by (nonlinear_arith)
            requires
                current + 1 == len,
                len > 0,
        ;
    } else {
        assert((current + 1) % (len as int) == current + 1) by (nonlinear_arith)
            requires
                0 <= current + 1 < len,
        ;
    }
}

/// A queue that repeats as a whole comes back to a track after it has played
/// every other one.
pub proof fn law_repeating_queues_come_round(len: int, start: int, steps: int)
    requires
        0 <= start < len,
        0 <= steps,
    ensures
        (start + len) % len == start,
        ((start + steps) % len + 1) % len == (start + steps + 1) % len,
{
    assert((start + len) % len == start) by (nonlinear_arith)
        requires
            0 <= start < len,
    ;
    vstd::arithmetic::div_mod::lemma_add_mod_noop(start + steps, 1, len);
    if len > 1 {
        assert(1int % len == 1) by (nonlinear_arith)
            requires
                len > 1,
        ;
    }
    vstd::arithmetic::div_mod::lemma_add_mod_noop_right(1, start + steps, len);
}

/// By hand, a queue that is not shuffled goes on to the next track whatever
/// repeats, and starts over only if it repeats as a whole.
pub proof fn law_skipping_goes_to_the_next_track(
    nav: &Navigation,
    mode: PlaybackMode,
    current: usize,
    len: usize,
    roll: u64,
    next: Option<usize>,
)
    requires
        call_ensures(Navigation::next_by_hand, (nav, mode, current, len, roll), next),
        current < len,
        !mode.shuffle,
    ensures
        current + 1 < len ==> next == Some((current + 1) as usize),
        current + 1 == len ==> next == if mode.repeat is All {
            Some(0usize)
        } else {
            None
        },
{
}

/// A shuffled queue plays what its pass has not played, and each of these can be
/// next: a roll picks any of them.
pub proof fn law_shuffled_passes_play_the_unplayed(
    nav: &Navigation,
    mode: PlaybackMode,
    current: usize,
    len: usize,
    roll: u64,
    ended: Option<usize>,
    skipped: Option<usize>,
)
    requires
        call_ensures(Navigation::next_by_itself, (nav, mode, current, len, roll), ended),
        call_ensures(Navigation::next_by_hand, (nav, mode, current, len, roll), skipped),
        mode.shuffle,
        nav.unplayed@.len() > 0,
        len > 0,
    ensures
        skipped is Some,
        nav.unplayed@.contains(skipped->0),
        roll < nav.unplayed@.len() ==> skipped == Some(nav.unplayed@[roll as int]),
        !(mode.repeat is Track) ==> ended == skipped,
        mode.repeat is Track ==> ended == Some(current),
{
    let n = nav.unplayed@.len() as int;
    assert(0 <= roll as int % n < n) by (nonlinear_arith)
        requires
            n > 0,
            roll >= 0,
    ;
    if roll < n {
        assert(roll as int % n == roll) by (nonlinear_arith)
            requires
                0 <= roll < n,
        ;
    }
}

/// When a shuffled pass is over, a queue that repeats as a whole begins another
/// one with some other track, as skipping always does; a queue that does not
/// repeat ends.
pub proof fn law_shuffled_passes_begin_again(
    nav: &Navigation,
    mode: PlaybackMode,
    current: usize,
    len: usize,
    roll: u64,
    ended: Option<usize>,
    skipped: Option<usize>,
)
    requires
        call_ensures(Navigation::next_by_itself, (nav, mode, current, len, roll), ended),
        call_ensures(Navigation::next_by_hand, (nav, mode, current, len, roll), skipped),
        mode.shuffle,
        nav.unplayed@.len() == 0,
        current < len,
        len >= 2,
    ensures
        skipped is Some && skipped->0 < len && skipped->0 != current,
        mode.repeat is All ==> ended == skipped,
        mode.repeat is Off ==> ended is None,
        mode.repeat is Track ==> ended == Some(current),
{
    navigation::law_all_but_leaves_one_out(len as nat, Some(current));
    navigation::law_shuffled_skip_always_plays(mode, nav.unplayed@, current, len as nat, roll);
    navigation::law_draws_never_repeat(nav.unplayed@, current, len as nat, roll);
    navigation::law_draws_stay_in_the_queue(nav.unplayed@, current, len as nat, true, roll);
}

/// A pass begins with every entry unplayed but the reserved one, each once.
pub proof fn law_passes_begin_with_every_other_entry(
    nav: &mut Navigation,
    len: usize,
    reserved: Option<usize>,
    rebuilding: &mut Navigation,
    shuffle: bool,
)
    requires
        call_ensures(Navigation::begin_pass, (nav, len, reserved), ()),
        call_ensures(Navigation::rebuild, (rebuilding, shuffle, len, reserved), ()),
    ensures
        forall|e: usize|
            #[trigger] final(nav).unplayed@.contains(e) <==> e < len && Some(e) != reserved,
        forall|i: int, j: int|
            0 <= i < j < final(nav).unplayed@.len() ==> final(nav).unplayed@[i]
                != final(nav).unplayed@[j],
        final(nav).history@ == old(nav).history@,
        final(rebuilding).history@.len() == 0,
        shuffle ==> final(rebuilding).unplayed@ == final(nav).unplayed@,
        !shuffle ==> final(rebuilding).unplayed@.len() == 0,
{
    navigation::law_all_but_leaves_one_out(len as nat, reserved);
    let pass = final(nav).unplayed@;
    assert forall|e: usize| #[trigger] pass.contains(e) implies e < len && Some(e) != reserved by {
        let k = choose|k: int| 0 <= k < pass.len() && pass[k] == e;
        assert(navigation::all_but(len as nat, reserved)[k] == e);
    }
}

/// An entry that starts is played, and no other one is. The one that it leaves
/// behind is remembered, unless it is the same.
pub proof fn law_started_entries_are_played(
    nav: &mut Navigation,
    entry: usize,
    left: Option<usize>,
)
    requires
        call_ensures(Navigation::started, (nav, entry, left), ()),
    ensures
        !final(nav).unplayed@.contains(entry),
        forall|e: usize|
            e != entry ==> final(nav).unplayed@.contains(e)
                == #[trigger] old(nav).unplayed@.contains(e),
        left is Some && left != Some(entry) ==> final(nav).history@ == old(nav).history@.push(
            left->0,
        ),
        left is None || left == Some(entry) ==> final(nav).history@ == old(nav).history@,
{
    navigation::law_without_leaves_the_others(old(nav).unplayed@, entry);
}

/// A pass can draw every entry that the queue gains, and all that it could draw
/// before.
pub proof fn law_gained_entries_can_be_drawn(nav: &mut Navigation, from: usize, to: usize)
    requires
        call_ensures(Navigation::grow, (nav, from, to), ()),
        from <= to,
    ensures
        final(nav).unplayed@.len() == old(nav).unplayed@.len() + (to - from),
        forall|i: int|
            0 <= i < old(nav).unplayed@.len() ==> final(nav).unplayed@[i] == old(nav).unplayed@[i],
        forall|e: usize| from <= e < to ==> #[trigger] final(nav).unplayed@.contains(e),
        final(nav).history@ == old(nav).history@,
{
    assert forall|e: usize| from <= e < to implies #[trigger] final(nav).unplayed@.contains(e) by {
        assert(final(nav).unplayed@[old(nav).unplayed@.len() + (e - from)] == e);
    }
}

/// Repeat modes follow one another in a circle: off, track, all.
pub proof fn law_repeat_modes_follow_one_another(
    off: RepeatMode,
    track: RepeatMode,
    all: RepeatMode,
)
    requires
        call_ensures(RepeatMode::cycle, (RepeatMode::Off,), off),
        call_ensures(RepeatMode::cycle, (RepeatMode::Track,), track),
        call_ensures(RepeatMode::cycle, (RepeatMode::All,), all),
    ensures
        off is Track,
        track is All,
        all is Off,
{
}

/// Whether an entry is a stream, or a file with a plain path that differs from
/// another one.
pub open spec fn is_elsewhere(entry: Track, file: Seq<u8>) -> bool {
    match entry.location {
        TrackLocation::Local(other) => path::is_plain(other@) && other@ != file,
        TrackLocation::Url(_) => true,
    }
}

proof fn lemma_other_paths_are_not_held(tracks: Seq<Track>, file: Seq<u8>)
    requires
        path::is_plain(file),
        forall|i: int| 0 <= i < tracks.len() ==> is_elsewhere(#[trigger] tracks[i], file),
    ensures
        !playlist::holds(tracks, Location::Local(file)),
{
    assert forall|i: int| 0 <= i < tracks.len() implies !track::same_track(
        (#[trigger] tracks[i]).location@,
        Location::Local(file),
    ) by {
        assert(is_elsewhere(tracks[i], file));
        match tracks[i].location {
            TrackLocation::Local(other) => {
                track::lemma_plain_files_are_told_apart(other@, file);
            },
            TrackLocation::Url(_) => {},
        }
    }
}

pub proof fn lemma_new_files_are_all_fresh(tracks: Seq<Track>, files: Seq<FilePath>)
    requires
        forall|k: int| 0 <= k < files.len() ==> path::is_plain((#[trigger] files[k])@),
        forall|i: int, k: int|
            0 <= i < tracks.len() && 0 <= k < files.len() ==> is_elsewhere(
                #[trigger] tracks[i],
                (#[trigger] files[k])@,
            ),
        forall|j: int, k: int|
            0 <= j < k < files.len() ==> (#[trigger] files[j])@ != (#[trigger] files[k])@,
    ensures
        playlist::fresh_files(tracks, files) == files,
    decreases files.len(),
{
    if files.len() > 0 {
        let front = files.drop_last();
        assert forall|k: int| 0 <= k < front.len() implies path::is_plain(
            (#[trigger] front[k])@,
        ) by {
            assert(front[k] == files[k]);
        }
        assert forall|i: int, k: int| 0 <= i < tracks.len() && 0 <= k < front.len() implies
            is_elsewhere(#[trigger] tracks[i], (#[trigger] front[k])@) by {
            assert(front[k] == files[k]);
        }
        assert forall|j: int, k: int| 0 <= j < k < front.len() implies (#[trigger] front[j])@ != (
        #[trigger] front[k])@ by {
            assert(front[j] == files[j] && front[k] == files[k]);
        }
        lemma_new_files_are_all_fresh(tracks, front);
        let last = files[files.len() - 1];
        let known = tracks + front.map_values(|f: FilePath| playlist::plain_entry(f));
        assert forall|i: int| 0 <= i < known.len() implies is_elsewhere(
            #[trigger] known[i],
            last@,
        ) by {
            if i < tracks.len() {
                assert(known[i] == tracks[i]);
            } else {
                let k = i - tracks.len();
                assert(known[i] == playlist::plain_entry(front[k]));
                assert(front[k] == files[k]);
                assert(path::is_plain(files[k]@));
                assert(files[k]@ != last@);
            }
        }
        assert(path::is_plain(last@));
        lemma_other_paths_are_not_held(known, last@);
        assert(front.push(files.last()) =~= files);
    }
}

/// Files whose paths are not in the queue are all appended, in order, behind what
/// is there; nothing is skipped.
pub proof fn law_new_files_are_appended(queue: &mut Playlist, files: Vec<FilePath>, append: Append)
    requires
        call_ensures(Playlist::append_new, (queue, files), append),
        forall|k: int| 0 <= k < files@.len() ==> path::is_plain((#[trigger] files@[k])@),
        forall|i: int, k: int|
            0 <= i < old(queue).tracks@.len() && 0 <= k < files@.len() ==> is_elsewhere(
                #[trigger] old(queue).tracks@[i],
                (#[trigger] files@[k])@,
            ),
        forall|j: int, k: int|
            0 <= j < k < files@.len() ==> (#[trigger] files@[j])@ != (#[trigger] files@[k])@,
    ensures
        final(queue).tracks@.len() == old(queue).tracks@.len() + files@.len(),
        forall|i: int|
            0 <= i < old(queue).tracks@.len() ==> final(queue).tracks@[i] == old(queue).tracks@[i],
        forall|k: int|
            #![trigger files@[k]]
            0 <= k < files@.len() ==> {
                let entry = final(queue).tracks@[old(queue).tracks@.len() + k];
                &&& entry.location == TrackLocation::Local(files@[k])
                &&& entry.metadata is None
            },
        append.added@.len() == files@.len(),
        forall|k: int| #![trigger append.added@[k]] 0 <= k < files@.len() ==> append.added@[k]@
            == files@[k]@,
        append.skipped == 0,
        final(queue).cursor == old(queue).cursor,
{
    lemma_new_files_are_all_fresh(old(queue).tracks@, files@);
    let added = playlist::file_views(append.added@);
    let given = playlist::file_views(files@);
    assert(added.len() == append.added@.len() && given.len() == files@.len());
    assert forall|k: int| #![trigger append.added@[k]] 0 <= k < files@.len() implies append.added@[k]@
        == files@[k]@ by {
        assert(added[k] == given[k]);
    }
}

proof fn lemma_held_files_are_not_fresh(tracks: Seq<Track>, files: Seq<FilePath>)
    requires
        forall|k: int|
            0 <= k < files.len() ==> playlist::holds(
                tracks,
                Location::Local((#[trigger] files[k])@),
            ),
    ensures
        playlist::fresh_files(tracks, files).len() == 0,
    decreases files.len(),
{
    if files.len() > 0 {
        let front = files.drop_last();
        assert forall|k: int| 0 <= k < front.len() implies playlist::holds(
            tracks,
            Location::Local((#[trigger] front[k])@),
        ) by {
            assert(front[k] == files[k]);
        }
        lemma_held_files_are_not_fresh(tracks, front);
        let fresh = playlist::fresh_files(tracks, front);
        let known = tracks + fresh.map_values(|f: FilePath| playlist::plain_entry(f));
        assert(known =~= tracks);
        assert(playlist::holds(tracks, Location::Local(files[files.len() - 1]@)));
    }
}

/// Files that are in the queue already are skipped, and leave it as it is.
pub proof fn law_queued_files_are_skipped(
    queue: &mut Playlist,
    files: Vec<FilePath>,
    places: Seq<int>,
    append: Append,
)
    requires
        call_ensures(Playlist::append_new, (queue, files), append),
        places.len() == files@.len(),
        forall|k: int|
            #![trigger places[k]]
            0 <= k < places.len() ==> 0 <= places[k] < old(queue).tracks@.len()
                && old(queue).tracks@[places[k]].location@ == Location::Local(files@[k]@),
    ensures
        final(queue).tracks@ == old(queue).tracks@,
        final(queue).cursor == old(queue).cursor,
        append.added@.len() == 0,
        append.skipped == files@.len(),
{
    let tracks = old(queue).tracks@;
    assert forall|k: int| 0 <= k < files@.len() implies playlist::holds(
        tracks,
        Location::Local((#[trigger] files@[k])@),
    ) by {
        let i = places[k];
        assert(track::same_track(tracks[i].location@, Location::Local(files@[k]@)));
    }
    lemma_held_files_are_not_fresh(tracks, files@);
    assert(playlist::file_views(append.added@).len() == append.added@.len());
    assert(final(queue).tracks@ =~= tracks);
}

/// Tags go to the entry that they were read for, and to no file with another path
/// and no stream.
pub proof fn law_tags_go_to_their_file(
    queue: &mut Playlist,
    location: &TrackLocation,
    file: FilePath,
    tags: &TrackMetadata,
    i: int,
)
    requires
        call_ensures(Playlist::apply_metadata, (queue, location, tags), ()),
        *location == TrackLocation::Local(file),
        path::is_plain(file@),
        0 <= i < old(queue).tracks@.len(),
    ensures
        final(queue).tracks@.len() == old(queue).tracks@.len(),
        final(queue).tracks@[i].location == old(queue).tracks@[i].location,
        old(queue).tracks@[i].location@ == Location::Local(file@) ==>
            final(queue).tracks@[i].metadata is Some && final(queue).tracks@[i].metadata->0@ == tags@,
        is_elsewhere(old(queue).tracks@[i], file@) ==> final(queue).tracks@[i]
            == old(queue).tracks@[i],
        final(queue).cursor == old(queue).cursor,
{
    let entry = old(queue).tracks@[i];
    assert(final(queue).tracks@[i].location == entry.location);
    if is_elsewhere(entry, file@) {
        lemma_other_paths_are_not_held(seq![entry], file@);
        assert(seq![entry][0] == entry);
        assert(!track::same_track(entry.location@, Location::Local(file@)));
    }
}

/// An entry is found where its path first stands in the queue.
pub proof fn law_entries_are_found_by_their_path(
    queue: &Playlist,
    location: &TrackLocation,
    file: FilePath,
    position: Option<usize>,
    i: int,
)
    requires
        call_ensures(Playlist::position_of, (queue, location), position),
        *location == TrackLocation::Local(file),
        path::is_plain(file@),
        0 <= i < queue.tracks@.len(),
        queue.tracks@[i].location@ == Location::Local(file@),
        forall|k: int| 0 <= k < i ==> is_elsewhere(#[trigger] queue.tracks@[k], file@),
    ensures
        position == Some(i as usize),
{
    let tracks = queue.tracks@;
    playlist::law_first_at_is_first(tracks, Location::Local(file@));
    assert(track::same_track(tracks[i].location@, Location::Local(file@)));
    let front = tracks.take(i);
    assert forall|k: int| 0 <= k < front.len() implies is_elsewhere(#[trigger] front[k], file@) by {
        assert(front[k] == tracks[k]);
    }
    lemma_other_paths_are_not_held(front, file@);
    let found = playlist::first_at(tracks, Location::Local(file@))->0;
    if found < i {
        assert(front[found] == tracks[found]);
        assert(playlist::holds(front, Location::Local(file@)));
    }
}

/// A path that is nowhere in the queue is not found.
pub proof fn law_other_paths_are_not_found(
    queue: &Playlist,
    location: &TrackLocation,
    file: FilePath,
    position: Option<usize>,
)
    requires
        call_ensures(Playlist::position_of, (queue, location), position),
        *location == TrackLocation::Local(file),
        path::is_plain(file@),
        forall|k: int|
            0 <= k < queue.tracks@.len() ==> is_elsewhere(#[trigger] queue.tracks@[k], file@),
    ensures
        position is None,
{
    playlist::law_first_at_is_first(queue.tracks@, Location::Local(file@));
    lemma_other_paths_are_not_held(queue.tracks@, file@);
}

/// Removing an entry closes the gap and keeps every other entry in order. The
/// cursor stays in the queue.
pub proof fn law_removal_closes_the_gap(queue: &mut Playlist, index: usize)
    requires
        call_ensures(Playlist::remove, (queue, index), ()),
        index < old(queue).tracks@.len(),
        old(queue).cursor < old(queue).tracks@.len(),
    ensures
        final(queue).tracks@.len() + 1 == old(queue).tracks@.len(),
        forall|i: int|
            0 <= i < index ==> #[trigger] final(queue).tracks@[i] == old(queue).tracks@[i],
        forall|i: int|
            index <= i < final(queue).tracks@.len() ==> #[trigger] final(queue).tracks@[i]
                == old(queue).tracks@[i + 1],
        final(queue).tracks@.len() > 0 ==> final(queue).cursor < final(queue).tracks@.len(),
        old(queue).cursor < final(queue).tracks@.len() ==> final(queue).cursor
            == old(queue).cursor,
{
}

/// A swap moves the entry under the cursor by one row, with the cursor, and the
/// entry in its way to the row that it came from. At the edge nothing moves, and a
/// swap back undoes it.
pub proof fn law_swaps_move_the_selected_entry(
    queue: &mut Playlist,
    up: bool,
    moved: bool,
    back: &mut Playlist,
    undone: bool,
)
    requires
        call_ensures(Playlist::swap_selected, (queue, up), moved),
        old(queue).cursor < old(queue).tracks@.len(),
        *old(back) == *final(queue),
        call_ensures(Playlist::swap_selected, (back, !up), undone),
    ensures
        moved == if up {
            old(queue).cursor != 0
        } else {
            old(queue).cursor != old(queue).tracks@.len() - 1
        },
        moved ==> {
            let from = old(queue).cursor as int;
            let to = if up {
                from - 1
            } else {
                from + 1
            };
            &&& final(queue).cursor == to
            &&& final(queue).tracks@.len() == old(queue).tracks@.len()
            &&& final(queue).tracks@[to] == old(queue).tracks@[from]
            &&& final(queue).tracks@[from] == old(queue).tracks@[to]
            &&& forall|i: int|
                0 <= i < old(queue).tracks@.len() && i != from && i != to
                    ==> #[trigger] final(queue).tracks@[i] == old(queue).tracks@[i]
        },
        !moved ==> *final(queue) == *old(queue),
        moved ==> undone && final(back).tracks@ == old(queue).tracks@ && final(back).cursor
            == old(queue).cursor,
{
    if moved {
        assert(final(back).tracks@ =~= old(queue).tracks@);
    }
}

/// The cursor goes where it is sent, or to the last entry, and the entries stay.
pub proof fn law_selection_stays_in_the_queue(
    queue: &mut Playlist,
    index: usize,
    clearing: &mut Playlist,
    growing: &mut Playlist,
    entries: Vec<Track>,
)
    requires
        call_ensures(Playlist::select, (queue, index), ()),
        call_ensures(Playlist::clear, (clearing,), ()),
        call_ensures(Playlist::extend, (growing, entries), ()),
    ensures
        final(queue).tracks == old(queue).tracks,
        index < old(queue).tracks@.len() ==> final(queue).cursor == index,
        index >= old(queue).tracks@.len() && old(queue).tracks@.len() > 0 ==> final(queue).cursor
            == old(queue).tracks@.len() - 1,
        final(clearing).tracks@.len() == 0,
        final(clearing).cursor == 0,
        final(growing).tracks@ == old(growing).tracks@ + entries@,
        final(growing).cursor == old(growing).cursor,
{
}

} // verus!
