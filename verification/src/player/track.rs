//! Queue entries.
use crate::metadata::TrackMetadata;
use crate::path;
use crate::path::FilePath;
use crate::text;
use vstd::prelude::*;

verus! {

/// Where a track comes from.
#[derive(Debug, PartialEq, Eq)]
pub enum TrackLocation {
    /// A file.
    Local(FilePath),
    /// A network stream.
    Url(String),
}

/// What a location says.
pub ghost enum Location {
    Local(Seq<u8>),
    Url(Seq<char>),
}

impl View for TrackLocation {
    type V = Location;

    open spec fn view(&self) -> Location {
        match self {
            TrackLocation::Local(file) => Location::Local(file@),
            TrackLocation::Url(address) => Location::Url(address@),
        }
    }
}

/// Segments of a path that name something, with every `..` taken back the
/// segment before it.
pub open spec fn resolved_segments(parts: Seq<Seq<u8>>) -> Seq<Seq<u8>>
    decreases parts.len(),
{
    if parts.len() == 0 {
        parts
    } else {
        let front = resolved_segments(parts.drop_last());
        if parts.last() == seq![46u8, 46u8] && front.len() > 0 && front.last() != seq![46u8, 46u8] {
            front.drop_last()
        } else {
            front.push(parts.last())
        }
    }
}

/// Segments of a path after its lone dots and its `..` were worked off.
pub open spec fn clean_segments(file: Seq<u8>) -> Seq<Seq<u8>> {
    resolved_segments(path::segments(file).filter(|s: Seq<u8>| path::names_something(s)))
}

/// Whether two locations are the same track.
pub open spec fn same_track(a: Location, b: Location) -> bool {
    match (a, b) {
        (Location::Local(x), Location::Local(y)) => path::rooted(x) == path::rooted(y)
            && clean_segments(x) == clean_segments(y),
        (Location::Url(x), Location::Url(y)) => x == y,
        _ => false,
    }
}

/// A track is the same as itself.
pub proof fn law_same_track_is_reflexive(a: Location)
    ensures
        same_track(a, a),
{
}

/// Work off the `..` of a path.
fn resolve(parts: Vec<Vec<u8>>) -> (clean: Vec<Vec<u8>>)
    ensures
        path::views(clean@) == resolved_segments(path::views(parts@)),
{
    let mut clean: Vec<Vec<u8>> = Vec::new();
    let mut i: usize = 0;
    assert(path::views(parts@).take(0) =~= Seq::<Seq<u8>>::empty());
    assert(path::views(clean@) =~= resolved_segments(path::views(parts@).take(0)));
    while i < parts.len()
        invariant
            i <= parts.len(),
            path::views(clean@) == resolved_segments(path::views(parts@).take(i as int)),
        decreases parts.len() - i,
    {
        let ghost before = clean@;
        let ghost all = path::views(parts@);
        let up = is_up(&parts[i]);
        let back = if clean.len() > 0 {
            !is_up(&clean[clean.len() - 1])
        } else {
            false
        };
        proof {
            assert(all.take(i + 1).drop_last() =~= all.take(i as int));
            assert(all.take(i + 1).last() == parts@[i as int]@);
            if before.len() > 0 {
                assert(path::views(before).last() == before.last()@);
            }
        }
        if up && back {
            clean.pop();
            assert(path::views(clean@) =~= path::views(before).drop_last());
        } else {
            let part = path::copy_bytes(&parts[i]);
            let ghost added = part@;
            clean.push(part);
            assert(path::views(clean@) =~= path::views(before).push(added));
        }
        i += 1;
    }
    assert(path::views(parts@).take(i as int) =~= path::views(parts@));
    clean
}

fn is_up(part: &Vec<u8>) -> (up: bool)
    ensures
        up == (part@ == seq![46u8, 46u8]),
{
    let up = part.len() == 2 && part[0] == 46 && part[1] == 46;
    proof {
        if up {
            assert(part@ =~= seq![46u8, 46u8]);
        }
    }
    up
}

impl Clone for TrackLocation {
    fn clone(&self) -> (copy: Self)
        ensures
            copy@ == self@,
    {
        match self {
            TrackLocation::Local(file) => TrackLocation::Local(file.clone()),
            TrackLocation::Url(address) => TrackLocation::Url(address.clone()),
        }
    }
}

impl TrackLocation {
    /// Location of a file.
    pub fn local(name: &str) -> (location: Self)
        ensures
            location@ == Location::Local(vstd::utf8::encode_utf8(name@)),
    {
        TrackLocation::Local(FilePath::from_text(name))
    }

    /// Text of the location.
    pub fn display_location(&self) -> (line: String)
        ensures
            line@ == match self@ {
                Location::Local(file) => text::displayed(file),
                Location::Url(address) => address,
            },
    {
        match self {
            TrackLocation::Local(file) => file.to_text_lossy(),
            TrackLocation::Url(address) => address.clone(),
        }
    }

    /// Whether two locations are the same track.
    pub fn same(&self, other: &TrackLocation) -> (answer: bool)
        ensures
            answer == same_track(self@, other@),
    {
        match (self, other) {
            (TrackLocation::Local(a), TrackLocation::Local(b)) => {
                let rooted_a = a.bytes.len() > 0 && a.bytes[0] == 47;
                let rooted_b = b.bytes.len() > 0 && b.bytes[0] == 47;
                let parts_a = resolve(path::named_segments(&a.bytes).1);
                let parts_b = resolve(path::named_segments(&b.bytes).1);
                rooted_a == rooted_b && path::same_segments(&parts_a, &parts_b)
            },
            (TrackLocation::Url(a), TrackLocation::Url(b)) => text::same_text(
                a.as_str(),
                b.as_str(),
            ),
            _ => false,
        }
    }
}

/// Position behind the last occurrence of a byte, or zero.
pub open spec fn after_last(bytes: Seq<u8>, byte: u8) -> int
    decreases bytes.len(),
{
    if bytes.len() == 0 {
        0
    } else if bytes.last() == byte {
        bytes.len() as int
    } else {
        after_last(bytes.drop_last(), byte)
    }
}

/// Last segment of a path.
pub open spec fn file_name(file: Seq<u8>) -> Seq<u8> {
    file.skip(after_last(file, 47u8))
}

/// File name without its extension. A dot at the start does not begin one.
pub open spec fn file_stem(file: Seq<u8>) -> Seq<u8> {
    let name = file_name(file);
    let dot = after_last(name, 46u8);
    if dot >= 2 {
        name.take(dot - 1)
    } else {
        name
    }
}

proof fn lemma_after_last(bytes: Seq<u8>, byte: u8)
    ensures
        0 <= after_last(bytes, byte) <= bytes.len(),
    decreases bytes.len(),
{
    if bytes.len() > 0 {
        lemma_after_last(bytes.drop_last(), byte);
    }
}

fn position_after_last(bytes: &Vec<u8>, byte: u8) -> (position: usize)
    ensures
        position == after_last(bytes@, byte),
        position <= bytes@.len(),
{
    let mut end: usize = bytes.len();
    assert(bytes@.take(end as int) =~= bytes@);
    while end > 0 && bytes[end - 1] != byte
        invariant
            end <= bytes.len(),
            after_last(bytes@.take(end as int), byte) == after_last(bytes@, byte),
        decreases end,
    {
        assert(bytes@.take(end as int).drop_last() =~= bytes@.take(end - 1));
        end -= 1;
    }
    proof {
        lemma_after_last(bytes@, byte);
    }
    end
}

fn copy_part(bytes: &Vec<u8>, from: usize, to: usize) -> (part: Vec<u8>)
    requires
        from <= to <= bytes.len(),
    ensures
        part@ == bytes@.subrange(from as int, to as int),
{
    let mut part: Vec<u8> = Vec::new();
    let mut i: usize = from;
    while i < to
        invariant
            from <= i <= to <= bytes.len(),
            part@ == bytes@.subrange(from as int, i as int),
        decreases to - i,
    {
        part.push(bytes[i]);
        i += 1;
    }
    part
}

/// File name of a path without its extension.
pub fn stem_of(file: &FilePath) -> (stem: FilePath)
    ensures
        stem@ == file_stem(file@),
{
    let start = position_after_last(&file.bytes, 47);
    let name = copy_part(&file.bytes, start, file.bytes.len());
    assert(name@ =~= file_name(file@));
    let dot = position_after_last(&name, 46);
    let end: usize = if dot >= 2 {
        dot - 1
    } else {
        name.len()
    };
    let stem = copy_part(&name, 0, end);
    assert(stem@ =~= file_stem(file@));
    FilePath::from_bytes(stem)
}

/// A queue entry.
#[derive(Debug, PartialEq, Eq)]
pub struct Track {
    pub location: TrackLocation,
    pub metadata: Option<TrackMetadata>,
}

/// Name that the queue shows for an entry: its tagged title, else the stem of
/// its file or its address.
pub open spec fn shown_name(track: Track) -> Seq<char> {
    if track.metadata matches Some(tags) && tags.title_tagged {
        track.metadata->0.title@
    } else {
        match track.location@ {
            Location::Local(file) => text::displayed(file_stem(file)),
            Location::Url(address) => address,
        }
    }
}

/// Length of an entry, if its tags tell.
pub open spec fn tagged_duration(track: Track) -> Option<crate::time::Duration> {
    match track.metadata {
        Some(tags) => Some(tags.duration),
        None => None,
    }
}

impl Track {
    /// Entry for a file.
    pub fn local(file: FilePath) -> (track: Self)
        ensures
            track == (Track { location: TrackLocation::Local(file), metadata: None }),
    {
        Track { location: TrackLocation::Local(file), metadata: None }
    }

    /// Entry for a network stream.
    pub fn from_stream(address: &str) -> (track: Self)
        ensures
            track.location@ == Location::Url(address@),
            track.metadata is None,
    {
        Track { location: TrackLocation::Url(address.to_string()), metadata: None }
    }

    /// Whether the entry is a network stream.
    pub fn is_stream(&self) -> (stream: bool)
        ensures
            stream == (self.location is Url),
    {
        match self.location {
            TrackLocation::Url(_) => true,
            TrackLocation::Local(_) => false,
        }
    }

    /// Attach tags.
    pub fn set_metadata(&mut self, tags: TrackMetadata)
        ensures
            *final(self) == (Track { metadata: Some(tags), ..*old(self) }),
    {
        self.metadata = Some(tags);
    }

    /// File of the entry, unless it is a stream.
    pub fn path(&self) -> (file: Option<FilePath>)
        ensures
            file is Some == self.location is Local,
            file matches Some(f) ==> self.location@ == Location::Local(f@),
    {
        match &self.location {
            TrackLocation::Local(f) => Some(f.clone()),
            TrackLocation::Url(_) => None,
        }
    }

    /// Length of the entry, if its tags tell.
    pub fn duration(&self) -> (length: Option<crate::time::Duration>)
        ensures
            length == tagged_duration(*self),
    {
        match &self.metadata {
            Some(tags) => Some(tags.duration),
            None => None,
        }
    }

    /// Name that the queue shows for the entry.
    pub fn display_name(&self) -> (name: String)
        ensures
            name@ == shown_name(*self),
    {
        match &self.metadata {
            Some(tags) => if tags.title_tagged {
                return tags.title.clone();
            },
            None => {},
        }
        match &self.location {
            TrackLocation::Local(file) => stem_of(file).to_text_lossy(),
            TrackLocation::Url(address) => address.clone(),
        }
    }

    /// Text of the entry's location.
    pub fn display_location(&self) -> (line: String)
        ensures
            line@ == match self.location@ {
                Location::Local(file) => text::displayed(file),
                Location::Url(address) => address,
            },
    {
        self.location.display_location()
    }
}

proof fn lemma_plain_segments_stay(parts: Seq<Seq<u8>>)
    requires
        forall|k: int| 0 <= k < parts.len() ==> #[trigger] parts[k] != seq![46u8, 46u8],
    ensures
        resolved_segments(parts) == parts,
    decreases parts.len(),
{
    if parts.len() > 0 {
        let front = parts.drop_last();
        assert forall|k: int| 0 <= k < front.len() implies #[trigger] front[k] != seq![
            46u8,
            46u8,
        ] by {
            assert(front[k] == parts[k]);
        }
        lemma_plain_segments_stay(front);
        assert(parts.last() == parts[parts.len() - 1]);
        assert(front.push(parts.last()) =~= parts);
    }
}

proof fn lemma_plain_paths_are_clean(file: Seq<u8>)
    requires
        path::is_plain(file),
    ensures
        clean_segments(file) == path::named(file),
{
    path::law_plain_paths_name_their_segments(file);
    let from: int = if path::rooted(file) {
        1
    } else {
        0
    };
    let parts = path::named(file);
    assert forall|k: int| 0 <= k < parts.len() implies #[trigger] parts[k] != seq![46u8, 46u8] by {
        assert(parts[k] == path::segments(file)[k + from]);
    }
    lemma_plain_segments_stay(parts);
}

/// Plain paths are the same track only if they are equal byte for byte.
pub proof fn lemma_plain_files_are_told_apart(x: Seq<u8>, y: Seq<u8>)
    requires
        path::is_plain(x),
        path::is_plain(y),
    ensures
        same_track(Location::Local(x), Location::Local(y)) == (x == y),
{
    lemma_plain_paths_are_clean(x);
    lemma_plain_paths_are_clean(y);
    if same_track(Location::Local(x), Location::Local(y)) {
        path::law_plain_paths_differ_in_their_segments(x, y);
    }
}

/// Files with plain paths are the same track only if their paths are equal byte
/// for byte, so files in different directories are different tracks.
pub proof fn law_files_with_other_paths_are_other_tracks(
    a: &TrackLocation,
    x: FilePath,
    b: &TrackLocation,
    y: FilePath,
    same: bool,
)
    requires
        call_ensures(TrackLocation::same, (a, b), same),
        *a == TrackLocation::Local(x),
        *b == TrackLocation::Local(y),
        path::is_plain(x@),
        path::is_plain(y@),
    ensures
        same == (x@ == y@),
{
    lemma_plain_files_are_told_apart(x@, y@);
}

/// A directory that is entered and left again makes no other track, and neither
/// does a lone dot or a slash at the end; any other name does, unless it leaves
/// the directory.
pub proof fn law_detours_lead_to_the_same_track(
    a: &TrackLocation,
    x: FilePath,
    name: Seq<u8>,
    b: &TrackLocation,
    y: FilePath,
    detour: bool,
    c: &TrackLocation,
    z: FilePath,
    idle: bool,
)
    requires
        *a == TrackLocation::Local(x),
        x@.len() > 0,
        !name.contains(47u8),
        name.len() > 0,
        name != seq![46u8],
        name != seq![46u8, 46u8],
        *b == TrackLocation::Local(y),
        y@ == (x@.push(47u8) + name).push(47u8) + seq![46u8, 46u8],
        call_ensures(TrackLocation::same, (a, b), detour),
        *c == TrackLocation::Local(z),
        z@ == x@.push(47u8) + name,
        call_ensures(TrackLocation::same, (a, c), idle),
    ensures
        detour,
        !idle,
{
    let up = seq![46u8, 46u8];
    assert(!up.contains(47u8));
    assert(up != seq![46u8]) by {
        assert(up.len() != seq![46u8].len());
    }
    path::law_names_are_segments(x@, name);
    path::law_names_are_segments(z@, up);
    let parts = path::named(x@);
    assert(parts.push(name).push(up).drop_last() =~= parts.push(name));
    assert(parts.push(name).drop_last() =~= parts);
    let clean = resolved_segments(parts);
    assert(clean.push(name).drop_last() =~= clean);
    assert(y@[0] == x@[0]);
    assert(z@[0] == x@[0]);
    assert(clean_segments(z@) == clean.push(name));
    assert(clean_segments(z@).len() != clean_segments(x@).len());
}

/// Streams are the same track only if their addresses are, and never the same as a
/// file.
pub proof fn law_streams_are_told_apart_by_their_address(
    a: &TrackLocation,
    b: &TrackLocation,
    same: bool,
)
    requires
        call_ensures(TrackLocation::same, (a, b), same),
        a is Url,
    ensures
        b is Local ==> !same,
        b is Url ==> same == (a->Url_0@ == b->Url_0@),
{
}

proof fn lemma_after_last_is(bytes: Seq<u8>, byte: u8, at: int)
    requires
        0 <= at <= bytes.len(),
        at > 0 ==> bytes[at - 1] == byte,
        forall|k: int| at <= k < bytes.len() ==> #[trigger] bytes[k] != byte,
    ensures
        after_last(bytes, byte) == at,
    decreases bytes.len(),
{
    if bytes.len() > at {
        assert(bytes[bytes.len() - 1] != byte);
        lemma_after_last_is(bytes.drop_last(), byte, at);
    }
}

/// The stem of a file is what stands between its last slash and its last dot; a
/// dot at the start of the name does not count.
pub proof fn law_stems_have_neither_directory_nor_extension(
    directory: Seq<u8>,
    stem: Seq<u8>,
    extension: Seq<u8>,
    file: &FilePath,
    found: FilePath,
    bare: &FilePath,
    whole: FilePath,
)
    requires
        stem.len() > 0,
        !stem.contains(47u8),
        !extension.contains(47u8),
        !extension.contains(46u8),
        file@ == directory.push(47u8) + stem.push(46u8) + extension,
        call_ensures(stem_of, (file,), found),
        !stem.drop_first().contains(46u8),
        bare@ == directory.push(47u8) + stem,
        call_ensures(stem_of, (bare,), whole),
    ensures
        found@ == stem,
        whole@ == stem,
{
    let name = stem.push(46u8) + extension;
    let start = directory.len() + 1;
    assert forall|k: int| start <= k < file@.len() implies #[trigger] file@[k] != 47u8 by {
        let j = k - start;
        assert(file@[k] == name[j]);
        if j < stem.len() {
            assert(stem.contains(stem[j]));
        } else if j > stem.len() {
            assert(extension.contains(extension[j - stem.len() - 1]));
        }
    }
    lemma_after_last_is(file@, 47u8, start as int);
    assert(file_name(file@) =~= name);
    assert forall|k: int| stem.len() + 1 <= k < name.len() implies #[trigger] name[k] != 46u8 by {
        assert(extension.contains(extension[k - stem.len() - 1]));
    }
    lemma_after_last_is(name, 46u8, (stem.len() + 1) as int);
    assert(name.take(stem.len() as int) =~= stem);
    assert forall|k: int| start <= k < bare@.len() implies #[trigger] bare@[k] != 47u8 by {
        assert(stem.contains(stem[k - start]));
    }
    lemma_after_last_is(bare@, 47u8, start as int);
    assert(file_name(bare@) =~= stem);
    assert forall|k: int| 1 <= k < stem.len() implies #[trigger] stem[k] != 46u8 by {
        assert(stem.drop_first()[k - 1] == stem[k]);
        assert(stem.drop_first().contains(stem[k]));
    }
    if stem[0] == 46u8 {
        lemma_after_last_is(stem, 46u8, 1);
    } else {
        lemma_after_last_is(stem, 46u8, 0);
    }
}

/// An entry is shown by its tagged title. Without one a stream is shown by its
/// address, and a file by something that its tags do not change.
pub proof fn law_titles_are_shown(
    entry: &Track,
    name: String,
    other: &Track,
    shown: String,
)
    requires
        call_ensures(Track::display_name, (entry,), name),
        call_ensures(Track::display_name, (other,), shown),
        entry.location@ == other.location@,
    ensures
        entry.metadata matches Some(tags) ==> tags.title_tagged ==> name@ == tags.title@,
        (entry.metadata is None || !entry.metadata->0.title_tagged) && entry.location is Url
            ==> name@ == entry.location->Url_0@,
        (entry.metadata is None || !entry.metadata->0.title_tagged) && (other.metadata is None
            || !other.metadata->0.title_tagged) ==> name@ == shown@,
{
}

} // verus!
