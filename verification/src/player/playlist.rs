//! The queue.
use crate::metadata;
use crate::metadata::{Tags, TrackMetadata};
use crate::path::FilePath;
use crate::player::track;
use crate::player::track::{Location, Track, TrackLocation};
use vstd::prelude::*;

verus! {

/// Entries to play and the one under the cursor.
#[derive(Debug, PartialEq, Eq)]
pub struct Playlist {
    pub tracks: Vec<Track>,
    pub cursor: usize,
}

/// What became of files that were to be appended.
pub struct Append {
    /// Files that are new in the queue.
    pub added: Vec<FilePath>,
    /// Files that were there already.
    pub skipped: usize,
}

impl Append {
    /// Number of files that are new in the queue.
    pub fn added(&self) -> (count: usize)
        ensures
            count == self.added@.len(),
    {
        self.added.len()
    }
}

/// Whether an entry of a queue is at a location.
pub open spec fn holds(tracks: Seq<Track>, location: Location) -> bool {
    exists|i: int|
        0 <= i < tracks.len() && track::same_track((#[trigger] tracks[i]).location@, location)
}

/// Entry for a file, without tags.
pub open spec fn plain_entry(file: FilePath) -> Track {
    Track { location: TrackLocation::Local(file), metadata: None }
}

/// Files of a list that are new to a queue, each once and in order.
pub open spec fn fresh_files(tracks: Seq<Track>, files: Seq<FilePath>) -> Seq<FilePath>
    decreases files.len(),
{
    if files.len() == 0 {
        files
    } else {
        let front = fresh_files(tracks, files.drop_last());
        if holds(
            tracks + front.map_values(|f: FilePath| plain_entry(f)),
            Location::Local(files.last()@),
        ) {
            front
        } else {
            front.push(files.last())
        }
    }
}

/// Queue after files were appended.
pub open spec fn extended(tracks: Seq<Track>, files: Seq<FilePath>) -> Seq<Track> {
    tracks + fresh_files(tracks, files).map_values(|f: FilePath| plain_entry(f))
}

/// Views of files.
pub open spec fn file_views(files: Seq<FilePath>) -> Seq<Seq<u8>> {
    files.map_values(|f: FilePath| f@)
}

/// First entry of a queue at a location.
pub open spec fn first_at(tracks: Seq<Track>, location: Location) -> Option<int>
    decreases tracks.len(),
{
    if tracks.len() == 0 {
        None
    } else {
        match first_at(tracks.drop_last(), location) {
            Some(i) => Some(i),
            None => if track::same_track(tracks.last().location@, location) {
                Some(tracks.len() - 1)
            } else {
                None
            },
        }
    }
}

/// The first entry at a location is there, and no earlier one is.
pub proof fn law_first_at_is_first(tracks: Seq<Track>, location: Location)
    ensures
        first_at(tracks, location) is Some == holds(tracks, location),
        first_at(tracks, location) matches Some(i) ==> {
            &&& 0 <= i < tracks.len()
            &&& track::same_track(tracks[i].location@, location)
            &&& forall|k: int|
                0 <= k < i ==> !track::same_track((#[trigger] tracks[k]).location@, location)
        },
    decreases tracks.len(),
{
    if tracks.len() > 0 {
        let front = tracks.drop_last();
        law_first_at_is_first(front, location);
        if holds(front, location) {
            let k = choose|k: int|
                0 <= k < front.len() && track::same_track((#[trigger] front[k]).location@, location);
            assert(track::same_track(tracks[k].location@, location));
        }
        match first_at(front, location) {
            Some(i) => {
                assert(front[i] == tracks[i]);
                assert forall|k: int| 0 <= k < i implies !track::same_track(
                    (#[trigger] tracks[k]).location@,
                    location,
                ) by {
                    assert(front[k] == tracks[k]);
                }
            },
            None => {
                assert forall|k: int| 0 <= k < front.len() implies !track::same_track(
                    (#[trigger] tracks[k]).location@,
                    location,
                ) by {
                    assert(front[k] == tracks[k]);
                }
                if track::same_track(tracks.last().location@, location) {
                    assert(holds(tracks, location)) by {
                        assert(tracks[tracks.len() - 1] == tracks.last());
                    }
                }
            },
        }
    }
}

/// Whether tags were attached to exactly the entries at a location.
pub open spec fn tags_attached(
    before: Seq<Track>,
    after: Seq<Track>,
    location: Location,
    tags: Tags,
) -> bool {
    &&& after.len() == before.len()
    &&& forall|i: int|
        #![trigger after[i]]
        0 <= i < before.len() ==> if track::same_track(before[i].location@, location) {
            &&& after[i].location == before[i].location
            &&& metadata::optional_tags(after[i].metadata) == Some(tags)
        } else {
            after[i] == before[i]
        }
}

impl Playlist {
    /// Whether the cursor is on an entry, or the queue is empty.
    pub open spec fn wf(self) -> bool {
        self.cursor < self.tracks@.len() || (self.tracks@.len() == 0 && self.cursor == 0)
    }

    /// An empty queue.
    pub fn new() -> (playlist: Self)
        ensures
            playlist.tracks@.len() == 0,
            playlist.cursor == 0,
            playlist.wf(),
    {
        Playlist { tracks: Vec::new(), cursor: 0 }
    }

    /// Number of entries.
    pub fn len(&self) -> (len: usize)
        ensures
            len == self.tracks@.len(),
    {
        self.tracks.len()
    }

    /// Whether there are no entries.
    pub fn is_empty(&self) -> (empty: bool)
        ensures
            empty == (self.tracks@.len() == 0),
    {
        self.tracks.len() == 0
    }

    /// Entry under the cursor.
    pub fn cursor(&self) -> (cursor: usize)
        ensures
            cursor == self.cursor,
    {
        self.cursor
    }

    /// Entries in order.
    pub fn tracks(&self) -> (tracks: &Vec<Track>)
        ensures
            *tracks == self.tracks,
    {
        &self.tracks
    }

    /// Move the cursor to an entry, or to the last one.
    pub fn select(&mut self, index: usize)
        ensures
            final(self).tracks == old(self).tracks,
            final(self).cursor == if index < old(self).tracks@.len() {
                index as int
            } else if old(self).tracks@.len() > 0 {
                old(self).tracks@.len() - 1
            } else {
                0
            },
            final(self).wf(),
    {
        self.cursor = if index < self.tracks.len() {
            index
        } else if self.tracks.len() > 0 {
            self.tracks.len() - 1
        } else {
            0
        };
    }

    /// Append entries as they are.
    pub fn extend(&mut self, entries: Vec<Track>)
        ensures
            final(self).tracks@ == old(self).tracks@ + entries@,
            final(self).cursor == old(self).cursor,
            old(self).wf() ==> final(self).wf(),
    {
        let mut entries = entries;
        self.tracks.append(&mut entries);
    }

    /// Position of the first entry at a location.
    pub fn position_of(&self, location: &TrackLocation) -> (position: Option<usize>)
        ensures
            position is Some == first_at(self.tracks@, location@) is Some,
            position matches Some(i) ==> first_at(self.tracks@, location@) == Some(i as int)
                && i < self.tracks@.len(),
    {
        let mut i: usize = 0;
        while i < self.tracks.len()
            invariant
                i <= self.tracks.len(),
                first_at(self.tracks@.take(i as int), location@) is None,
            decreases self.tracks.len() - i,
        {
            assert(self.tracks@.take(i + 1).drop_last() =~= self.tracks@.take(i as int));
            if self.tracks[i].location.same(location) {
                proof {
                    lemma_first_at_extends(self.tracks@, i + 1, location@);
                }
                return Some(i);
            }
            i += 1;
        }
        assert(self.tracks@.take(i as int) =~= self.tracks@);
        None
    }

    /// Append files that are not in the queue yet.
    pub fn append_new(&mut self, files: Vec<FilePath>) -> (append: Append)
        ensures
            final(self).tracks@ == extended(old(self).tracks@, files@),
            final(self).cursor == old(self).cursor,
            file_views(append.added@) == file_views(fresh_files(old(self).tracks@, files@)),
            append.added@.len() + append.skipped == files@.len(),
            old(self).wf() ==> final(self).wf(),
    {
        let ghost start = self.tracks@;
        let ghost all = files@;
        let total: usize = files.len();
        let mut waiting = files;
        let mut ordered: Vec<FilePath> = Vec::new();
        while waiting.len() > 0
            invariant
                waiting@.len() + ordered@.len() == all.len(),
                forall|k: int| 0 <= k < waiting@.len() ==> waiting@[k] == all[k],
                forall|k: int|
                    0 <= k < ordered@.len() ==> #[trigger] ordered@[k] == all[all.len() - 1 - k],
            decreases waiting@.len(),
        {
            match waiting.pop() {
                Some(file) => {
                    ordered.push(file);
                },
                None => {},
            }
        }
        let mut added: Vec<FilePath> = Vec::new();
        let mut skipped: usize = 0;
        let ghost mut done: int = 0;
        proof {
            assert(all.take(0) =~= Seq::<FilePath>::empty());
            assert(fresh_files(start, all.take(0)) =~= Seq::<FilePath>::empty());
            assert(self.tracks@ =~= extended(start, all.take(0)));
            assert(file_views(added@) =~= file_views(fresh_files(start, all.take(0))));
        }
        while ordered.len() > 0
            invariant
                0 <= done <= all.len(),
                ordered@.len() == all.len() - done,
                forall|k: int|
                    0 <= k < ordered@.len() ==> #[trigger] ordered@[k] == all[all.len() - 1 - k],
                self.tracks@ == extended(start, all.take(done)),
                self.cursor == old(self).cursor,
                file_views(added@) == file_views(fresh_files(start, all.take(done))),
                added@.len() + skipped == done,
                all.len() == total,
            decreases ordered@.len(),
        {
            match ordered.pop() {
                Some(file) => {
                    let ghost front = fresh_files(start, all.take(done));
                    let ghost added_before = added@;
                    proof {
                        assert(all.take(done + 1).drop_last() =~= all.take(done));
                        assert(all.take(done + 1).last() == file);
                        law_first_at_is_first(self.tracks@, Location::Local(file@));
                        assert(front.len() == added@.len()) by {
                            assert(file_views(front).len() == file_views(added@).len());
                        }
                    }
                    let location = TrackLocation::Local(file.clone());
                    if self.position_of(&location).is_some() {
                        skipped += 1;
                    } else {
                        let copy = file.clone();
                        let ghost copied = copy@;
                        added.push(copy);
                        self.tracks.push(Track::local(file));
                        proof {
                            assert(file_views(added@) =~= file_views(added_before).push(copied));
                            assert(file_views(front.push(file)) =~= file_views(front).push(file@));
                            assert(self.tracks@ =~= extended(start, all.take(done + 1)));
                        }
                    }
                    proof {
                        done = done + 1;
                    }
                },
                None => {},
            }
        }
        assert(all.take(done) =~= all);
        Append { added, skipped }
    }

    /// Attach tags to every entry at a location.
    pub fn apply_metadata(&mut self, location: &TrackLocation, tags: &TrackMetadata)
        ensures
            tags_attached(old(self).tracks@, final(self).tracks@, location@, tags@),
            final(self).cursor == old(self).cursor,
            old(self).wf() ==> final(self).wf(),
    {
        let ghost before = self.tracks@;
        let mut i: usize = 0;
        while i < self.tracks.len()
            invariant
                i <= self.tracks.len(),
                self.tracks@.len() == before.len(),
                self.cursor == old(self).cursor,
                forall|k: int|
                    #![trigger self.tracks@[k]]
                    0 <= k < i ==> if track::same_track(before[k].location@, location@) {
                        &&& self.tracks@[k].location == before[k].location
                        &&& metadata::optional_tags(self.tracks@[k].metadata) == Some(tags@)
                    } else {
                        self.tracks@[k] == before[k]
                    },
                forall|k: int| i <= k < before.len() ==> #[trigger] self.tracks@[k] == before[k],
            decreases self.tracks.len() - i,
        {
            if self.tracks[i].location.same(location) {
                let copy = tags.clone();
                self.tracks[i].set_metadata(copy);
            }
            i += 1;
        }
    }

    /// Remove an entry. The cursor stays on its row, or on the last one.
    pub fn remove(&mut self, index: usize)
        requires
            old(self).wf(),
            index < old(self).tracks@.len(),
        ensures
            final(self).tracks@ == old(self).tracks@.remove(index as int),
            final(self).cursor == if old(self).cursor < old(self).tracks@.len() - 1 {
                old(self).cursor as int
            } else if old(self).tracks@.len() >= 2 {
                old(self).tracks@.len() - 2
            } else {
                0
            },
            final(self).wf(),
    {
        self.tracks.remove(index);
        let row = self.cursor;
        self.select(row);
    }

    /// Remove every entry.
    pub fn clear(&mut self)
        ensures
            final(self).tracks@.len() == 0,
            final(self).cursor == 0,
            final(self).wf(),
    {
        self.tracks = Vec::new();
        self.cursor = 0;
    }

    /// Move the entry under the cursor by one row, with the cursor. The answer
    /// tells whether there was room.
    pub fn swap_selected(&mut self, up: bool) -> (moved: bool)
        requires
            old(self).wf(),
        ensures
            moved == if up {
                old(self).cursor > 0
            } else {
                old(self).cursor + 1 < old(self).tracks@.len()
            },
            !moved ==> *final(self) == *old(self),
            moved ==> final(self).cursor == if up {
                old(self).cursor - 1
            } else {
                old(self).cursor + 1
            },
            moved ==> final(self).tracks@ == swapped(
                old(self).tracks@,
                old(self).cursor as int,
                final(self).cursor as int,
            ),
            final(self).wf(),
    {
        let from = self.cursor;
        let to: usize = if up {
            if from == 0 {
                return false;
            }
            from - 1
        } else {
            if self.tracks.len() == 0 || from >= self.tracks.len() - 1 {
                return false;
            }
            from + 1
        };
        let ghost before = self.tracks@;
        let entry = self.tracks.remove(from);
        self.tracks.insert(to, entry);
        self.cursor = to;
        assert(self.tracks@ =~= swapped(before, from as int, to as int));
        true
    }
}

/// Sequence with two elements in each other's place.
pub open spec fn swapped(tracks: Seq<Track>, a: int, b: int) -> Seq<Track> {
    tracks.update(a, tracks[b]).update(b, tracks[a])
}

/// The first entry of a prefix is the first entry of the whole.
proof fn lemma_first_at_extends(tracks: Seq<Track>, n: int, location: Location)
    requires
        0 <= n <= tracks.len(),
        first_at(tracks.take(n), location) is Some,
    ensures
        first_at(tracks, location) == first_at(tracks.take(n), location),
    decreases tracks.len() - n,
{
    if n == tracks.len() {
        assert(tracks.take(n) =~= tracks);
    } else {
        assert(tracks.take(n + 1).drop_last() =~= tracks.take(n));
        lemma_first_at_extends(tracks, n + 1, location);
    }
}

/// Appending leaves the entries that are there in place, and adds no more
/// entries than there are files.
pub proof fn law_appending_keeps_the_queue(tracks: Seq<Track>, files: Seq<FilePath>)
    ensures
        extended(tracks, files).len() >= tracks.len(),
        extended(tracks, files).take(tracks.len() as int) == tracks,
        fresh_files(tracks, files).len() <= files.len(),
    decreases files.len(),
{
    assert(extended(tracks, files).take(tracks.len() as int) =~= tracks);
    if files.len() > 0 {
        law_appending_keeps_the_queue(tracks, files.drop_last());
    }
}

/// No two entries that were appended are the same track, and none of them was
/// in the queue before.
pub proof fn law_appended_files_are_distinct(tracks: Seq<Track>, files: Seq<FilePath>)
    ensures
        forall|i: int|
            #![trigger fresh_files(tracks, files)[i]]
            0 <= i < fresh_files(tracks, files).len() ==> !holds(
                tracks,
                Location::Local(fresh_files(tracks, files)[i]@),
            ),
        forall|i: int, j: int|
            #![trigger fresh_files(tracks, files)[i], fresh_files(tracks, files)[j]]
            0 <= i < j < fresh_files(tracks, files).len() ==> !track::same_track(
                Location::Local(fresh_files(tracks, files)[i]@),
                Location::Local(fresh_files(tracks, files)[j]@),
            ),
    decreases files.len(),
{
    if files.len() > 0 {
        let front = fresh_files(tracks, files.drop_last());
        law_appended_files_are_distinct(tracks, files.drop_last());
        let entries = front.map_values(|f: FilePath| plain_entry(f));
        let known = tracks + entries;
        let last = Location::Local(files.last()@);
        if !holds(known, last) {
            if holds(tracks, last) {
                let k = choose|k: int|
                    0 <= k < tracks.len() && track::same_track((#[trigger] tracks[k]).location@, last);
                assert(known[k] == tracks[k]);
                assert(holds(known, last));
            }
            assert forall|i: int| 0 <= i < front.len() implies !track::same_track(
                Location::Local((#[trigger] front[i])@),
                last,
            ) by {
                let k = tracks.len() + i;
                assert(known[k] == plain_entry(front[i]));
            }
            let all = fresh_files(tracks, files);
            assert(all == front.push(files.last()));
        }
    }
}

} // verus!
