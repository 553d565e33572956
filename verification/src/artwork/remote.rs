//! Covers from MusicBrainz and the Cover Art Archive.
//!
//! Nothing here touches the network or the disk. [`fetch_cover`] starts a
//! fetch, and [`CoverFetch::advance`] turns each answer from outside into the
//! next question.
use crate::artwork::images;
use crate::digest;
use crate::metadata::{UNKNOWN_ALBUM, UNKNOWN_ARTIST};
use crate::path;
use crate::path::FilePath;
use crate::text;
use crate::time::{Duration, MAX_NANOS};
use crate::words;
use vstd::prelude::*;
use vstd::utf8::*;

verus! {

/// User agent that MusicBrainz asks its clients to send.
pub const USER_AGENT: &'static str = "harmonium/0.1.0 (https://github.com/harmonium/harmonium)";

/// Seconds until a request is given up.
pub const HTTP_TIMEOUT_SECS: u64 = 10;

/// Milliseconds between two requests to the music services.
pub const MB_RATE_INTERVAL_MILLIS: u64 = 1_100;

/// Release search of MusicBrainz.
pub const MB_SEARCH_URL: &'static str = "https://musicbrainz.org/ws/2/release/";

/// Base address of the Cover Art Archive.
pub const CAA_BASE_URL: &'static str = "https://coverartarchive.org/release/";

/// Picture size that is requested.
pub const CAA_FRONT_VARIANT: &'static str = "front-500";

/// Largest search answer, in bytes.
pub const MAX_MUSICBRAINZ_BODY_BYTES: usize = 2_097_152;

/// Largest cover, in bytes.
pub const MAX_COVER_ART_BYTES: usize = 10_485_760;

/// Characters of a digest that name a cache entry.
pub const CACHE_KEY_LEN: usize = 16;

/// Directory of cached covers below the cache root.
pub const ARTWORK_CACHE_SUBDIR: &'static str = "artwork";

/// Reservations of request slots.
///
/// Keeping the next free slot, not the last request, gives callers that arrive
/// together different slots before any of them waits.
#[derive(Debug)]
pub struct RequestRateGate {
    pub next_slot: Option<Duration>,
}

/// Slot that a caller gets.
pub open spec fn slot_for(next_slot: Option<Duration>, now: Duration) -> Duration {
    match next_slot {
        Some(next) if next.nanos > now.nanos => next,
        _ => now,
    }
}

impl Default for RequestRateGate {
    /// A gate without reservations.
    fn default() -> (gate: Self)
        ensures
            gate.next_slot is None,
    {
        RequestRateGate { next_slot: None }
    }
}

impl RequestRateGate {
    /// Whether the reserved slot is a span of time.
    pub open spec fn wf(self) -> bool {
        self.next_slot matches Some(next) ==> next.wf()
    }

    /// Reserve the next slot and return how long the caller has to wait for it.
    pub fn reserve(&mut self, now: Duration, interval: Duration) -> (wait: Duration)
        requires
            old(self).wf(),
            now.wf(),
            interval.wf(),
        ensures
            final(self).wf(),
            wait.nanos == slot_for(old(self).next_slot, now).nanos - now.nanos,
            final(self).next_slot is Some,
            final(self).next_slot->0.nanos == if slot_for(old(self).next_slot, now).nanos
                + interval.nanos <= MAX_NANOS {
                slot_for(old(self).next_slot, now).nanos + interval.nanos
            } else {
                MAX_NANOS as int
            },
    {
        let slot = match self.next_slot {
            Some(next) => if next.nanos > now.nanos {
                next
            } else {
                now
            },
            None => now,
        };
        self.next_slot = Some(slot.saturating_add(interval));
        slot.saturating_sub(now)
    }
}

/// Two callers of one gate never get slots closer than the interval, whenever
/// they call, unless time itself runs out.
pub proof fn law_slots_keep_their_distance(
    gate: RequestRateGate,
    after_first: RequestRateGate,
    first_now: Duration,
    second_now: Duration,
    interval: Duration,
)
    requires
        after_first.next_slot is Some,
        slot_for(gate.next_slot, first_now).nanos + interval.nanos <= MAX_NANOS,
        after_first.next_slot->0.nanos == slot_for(gate.next_slot, first_now).nanos
            + interval.nanos,
    ensures
        slot_for(after_first.next_slot, second_now).nanos >= slot_for(
            gate.next_slot,
            first_now,
        ).nanos + interval.nanos,
        slot_for(after_first.next_slot, second_now).nanos >= second_now.nanos,
{
}

/// Whether a trimmed name says something: it is neither empty nor one of the
/// placeholders for missing tags.
pub open spec fn says_something(name: Seq<char>) -> bool {
    &&& name.len() > 0
    &&& !text::same_ignoring_ascii_case(name, UNKNOWN_ARTIST@)
    &&& !text::same_ignoring_ascii_case(name, UNKNOWN_ALBUM@)
}

/// Whether a pair of names is enough to search with.
pub open spec fn usable_identity(artist: Seq<char>, album: Seq<char>) -> bool {
    says_something(text::trimmed(artist)) && says_something(text::trimmed(album))
}

fn useful(name: &Vec<char>) -> (answer: bool)
    ensures
        answer == says_something(name@),
{
    let unknown_artist = text::chars_of(UNKNOWN_ARTIST);
    let unknown_album = text::chars_of(UNKNOWN_ALBUM);
    name.len() > 0 && !text::equal_ignoring_ascii_case(name, &unknown_artist)
        && !text::equal_ignoring_ascii_case(name, &unknown_album)
}

/// Whether a pair of names is enough to search for a cover with. Missing tags
/// reach this point as placeholders or as empty names, and searching with
/// those would find some unrelated release.
pub fn usable_remote_identity(artist: &str, album: &str) -> (usable: bool)
    ensures
        usable == usable_identity(artist@, album@),
{
    let artist = text::trim(&text::chars_of(artist));
    let album = text::trim(&text::chars_of(album));
    useful(&artist) && useful(&album)
}

/// Bytes whose digest names the cache entry of a release.
pub open spec fn cache_identity(artist: Seq<char>, album: Seq<char>) -> Seq<u8> {
    encode_utf8(CAA_FRONT_VARIANT@).push(10u8) + encode_utf8(artist).push(10u8) + encode_utf8(album)
}

/// Name of the cache entry of a release.
pub open spec fn cache_key(artist: Seq<char>, album: Seq<char>) -> Seq<char> {
    digest::hex_text(digest::sha256(cache_identity(artist, album))).take(CACHE_KEY_LEN as int)
}

/// Name the cache entry of a release. The requested picture size is part of
/// the identity, so entries of another size never answer for this one.
pub fn build_cache_key(artist: &str, album: &str) -> (key: String)
    ensures
        key@ == cache_key(artist@, album@),
        key@.len() == CACHE_KEY_LEN,
{
    let mut bytes = text::bytes_of(CAA_FRONT_VARIANT);
    bytes.push(10);
    let artist_bytes = text::bytes_of(artist);
    bytes.extend_from_slice(artist_bytes.as_slice());
    bytes.push(10);
    let album_bytes = text::bytes_of(album);
    bytes.extend_from_slice(album_bytes.as_slice());
    assert(bytes@ =~= cache_identity(artist@, album@));
    let hash = digest::digest(bytes.as_slice());
    let name = digest::hex_bytes(hash.as_slice());
    let chars = text::chars_of(name.as_str());
    assert(chars@.len() == 64);
    let key = text::copy_range(&chars, 0, CACHE_KEY_LEN);
    assert(chars@.subrange(0, CACHE_KEY_LEN as int) =~= chars@.take(CACHE_KEY_LEN as int));
    text::text_of(&key)
}

/// Characters that mean something to the query parser.
pub open spec fn is_query_syntax(c: char) -> bool {
    ||| c == '+' || c == '-' || c == '&' || c == '|' || c == '!'
    ||| c == '(' || c == ')' || c == '{' || c == '}' || c == '[' || c == ']'
    ||| c == '^' || c == '"' || c == '~' || c == '*' || c == '?' || c == ':'
    ||| c == '\\' || c == '/'
}

/// A text with a backslash before every character that means something to the
/// query parser.
pub open spec fn escaped(s: Seq<char>) -> Seq<char>
    decreases s.len(),
{
    if s.len() == 0 {
        s
    } else if is_query_syntax(s.last()) {
        escaped(s.drop_last()).push('\\').push(s.last())
    } else {
        escaped(s.drop_last()).push(s.last())
    }
}

/// Text that the query parser reads: a backslash stands for the character that
/// follows it.
pub open spec fn unescaped(s: Seq<char>) -> Seq<char>
    decreases s.len(),
{
    if s.len() == 0 {
        s
    } else if s[0] == '\\' && s.len() >= 2 {
        seq![s[1]] + unescaped(s.skip(2))
    } else {
        seq![s[0]] + unescaped(s.skip(1))
    }
}

/// The query parser reads an escaped text back as it was, so tags can neither
/// close their phrase nor add operators.
pub proof fn law_escaping_preserves_the_text(s: Seq<char>)
    ensures
        unescaped(escaped(s)) == s,
{
    lemma_unescape_prefix(s, Seq::empty());
    assert(escaped(s) + Seq::<char>::empty() =~= escaped(s));
    assert(s + Seq::<char>::empty() =~= s);
}

/// An escaped prefix reads back as it was, whatever follows it.
proof fn lemma_unescape_prefix(s: Seq<char>, rest: Seq<char>)
    ensures
        unescaped(escaped(s) + rest) == s + unescaped(rest),
    decreases s.len(),
{
    if s.len() == 0 {
        assert(escaped(s) + rest =~= rest);
        assert(s + unescaped(rest) =~= unescaped(rest));
    } else {
        let front = s.drop_last();
        let c = s.last();
        let tail = if is_query_syntax(c) {
            seq!['\\', c] + rest
        } else {
            seq![c] + rest
        };
        assert(escaped(s) + rest =~= escaped(front) + tail);
        lemma_unescape_prefix(front, tail);
        if is_query_syntax(c) {
            assert(tail.skip(2) =~= rest);
        } else {
            assert(tail.skip(1) =~= rest);
        }
        assert(unescaped(tail) =~= seq![c] + unescaped(rest));
        assert(front + (seq![c] + unescaped(rest)) =~= s + unescaped(rest));
    }
}

fn query_syntax(c: char) -> (answer: bool)
    ensures
        answer == is_query_syntax(c),
{
    match c {
        '+' | '-' | '&' | '|' | '!' | '(' | ')' | '{' | '}' | '[' | ']' | '^' | '"' | '~' | '*'
        | '?' | ':' | '\\' | '/' => true,
        _ => false,
    }
}

/// Escape a text for a quoted phrase of a query.
pub fn escape_lucene(value: &str) -> (out: String)
    ensures
        out@ == escaped(value@),
{
    let chars = text::chars_of(value);
    let mut out = String::new();
    let mut i: usize = 0;
    while i < chars.len()
        invariant
            i <= chars.len(),
            chars@ == value@,
            out@ == escaped(chars@.take(i as int)),
        decreases chars.len() - i,
    {
        let c = chars[i];
        assert(chars@.take(i + 1).drop_last() =~= chars@.take(i as int));
        if query_syntax(c) {
            out.push('\\');
        }
        out.push(c);
        i += 1;
    }
    assert(chars@.take(i as int) =~= chars@);
    out
}

/// Query for a release.
pub open spec fn release_query(artist: Seq<char>, album: Seq<char>) -> Seq<char> {
    "artist:\""@ + escaped(artist) + "\" AND release:\""@ + escaped(album) + "\""@
}

/// Build the query for a release.
pub fn build_musicbrainz_query(artist: &str, album: &str) -> (query: String)
    ensures
        query@ == release_query(artist@, album@),
{
    let mut query = "artist:\"".to_string();
    query.append(escape_lucene(artist).as_str());
    query.append("\" AND release:\"");
    query.append(escape_lucene(album).as_str());
    query.append("\"");
    query
}

/// One artist that a release credits.
#[derive(Debug)]
pub struct ArtistCreditEntry {
    pub name: Option<String>,
    pub joinphrase: Option<String>,
}

/// One release of a search answer.
#[derive(Debug)]
pub struct MusicBrainzRelease {
    pub id: String,
    pub title: Option<String>,
    pub artist_credit: Vec<ArtistCreditEntry>,
}

/// A name in small letters, trimmed, with single blanks.
pub open spec fn normalized(name: Seq<char>) -> Seq<char> {
    text::lowered(text::collapsed(name))
}

/// Put a name in small letters, trimmed, with single blanks.
pub fn normalize(value: &str) -> (name: String)
    ensures
        name@ == normalized(value@),
{
    let chars = text::collapse(&text::chars_of(value));
    text::text_of(&chars).as_str().to_lowercase()
}

/// Names with the same words, whatever white space stands around and between
/// them, have the same normal form.
pub proof fn law_only_words_count(a: Seq<char>, b: Seq<char>)
    requires
        words::words(a) == words::words(b),
    ensures
        normalized(a) == normalized(b),
{
    words::law_collapsing_spaces_the_words(a);
    words::law_collapsing_spaces_the_words(b);
}

/// The normal form of an ASCII name has no white space outside and none doubled,
/// holds its words in small letters, and is its own normal form.
pub proof fn law_normal_forms_are_stable(name: Seq<char>)
    requires
        is_ascii_chars(text::collapsed(name)),
    ensures
        words::is_tidy(normalized(name)),
        words::words(normalized(name)) == words::ascii_lowered_words(words::words(name)),
        normalized(normalized(name)) == normalized(name),
{
    let plain = text::collapsed(name);
    assert(normalized(name) == words::ascii_lowered(plain));
    words::law_collapsed_texts_are_tidy(name);
    words::law_collapsing_keeps_the_words(name);
    words::law_lowering_keeps_the_words_apart(plain);
    words::law_lowering_is_idempotent(plain);
    words::law_tidy_texts_are_kept(normalized(name));
}

/// Two ASCII names have the same normal form exactly if their words are the same
/// up to the case of letters.
pub proof fn law_ascii_case_does_not_count(a: Seq<char>, b: Seq<char>)
    requires
        is_ascii_chars(text::collapsed(a)),
        is_ascii_chars(text::collapsed(b)),
    ensures
        normalized(a) == normalized(b) <==> words::ascii_lowered_words(words::words(a))
            == words::ascii_lowered_words(words::words(b)),
{
    law_normal_forms_are_stable(a);
    law_normal_forms_are_stable(b);
    words::law_tidy_texts_are_kept(normalized(a));
    words::law_tidy_texts_are_kept(normalized(b));
    words::law_collapsing_spaces_the_words(normalized(a));
    words::law_collapsing_spaces_the_words(normalized(b));
}

/// Whether two release titles agree up to case and white space.
pub fn same_release(release_title: &str, album: &str) -> (same: bool)
    ensures
        same == (normalized(release_title@) == normalized(album@)),
{
    text::same_text(normalize(release_title).as_str(), normalize(album).as_str())
}

/// Whether a credited artist has a given name.
pub open spec fn credits(entry: ArtistCreditEntry, artist: Seq<char>) -> bool {
    entry.name matches Some(name) && normalized(name@) == normalized(artist)
}

/// Whether the credits name an artist in full.
pub open spec fn mentions(credit: Seq<ArtistCreditEntry>, artist: Seq<char>) -> bool {
    &&& normalized(artist).len() > 0
    &&& exists|i: int| 0 <= i < credit.len() && credits(#[trigger] credit[i], artist)
}

/// Whether the credits name an artist in full. Joined names and parts of names
/// do not count.
pub fn credit_mentions(credit: &Vec<ArtistCreditEntry>, artist: &str) -> (found: bool)
    ensures
        found == mentions(credit@, artist@),
{
    let target = text::chars_of(normalize(artist).as_str());
    if target.len() == 0 {
        return false;
    }
    let mut i: usize = 0;
    while i < credit.len()
        invariant
            i <= credit.len(),
            target@ == normalized(artist@),
            target@.len() > 0,
            forall|k: int| 0 <= k < i ==> !credits(#[trigger] credit@[k], artist@),
        decreases credit.len() - i,
    {
        match &credit[i].name {
            Some(name) => {
                let name = text::chars_of(normalize(name.as_str()).as_str());
                if text::same_chars(&name, &target) {
                    assert(credits(credit@[i as int], artist@));
                    return true;
                }
            },
            None => {},
        }
        i += 1;
    }
    false
}

/// Whether a release is the one that was asked for.
pub open spec fn agrees(release: MusicBrainzRelease, artist: Seq<char>, album: Seq<char>) -> bool {
    &&& release.title matches Some(title)
    &&& normalized(title@) == normalized(album)
    &&& mentions(release.artist_credit@, artist)
}

/// Whether a release is the one that was asked for. The service also answers
/// with approximate hits.
pub fn release_matches(release: &MusicBrainzRelease, artist: &str, album: &str) -> (matching: bool)
    ensures
        matching == agrees(*release, artist@, album@),
{
    match &release.title {
        Some(title) => same_release(title.as_str(), album) && credit_mentions(
            &release.artist_credit,
            artist,
        ),
        None => false,
    }
}

/// Whether an identifier is a hyphenated UUID in small letters.
pub open spec fn is_canonical_mbid(mbid: Seq<char>) -> bool {
    &&& mbid.len() == 36
    &&& forall|i: int|
        0 <= i < 36 ==> if i == 8 || i == 13 || i == 18 || i == 23 {
            #[trigger] mbid[i] == '-'
        } else {
            '0' <= mbid[i] <= '9' || 'a' <= mbid[i] <= 'f'
        }
}

/// Accept only hyphenated UUIDs in small letters, which are safe inside an
/// address.
pub fn canonical_mbid(mbid: &str) -> (accepted: Option<&str>)
    ensures
        accepted is Some == is_canonical_mbid(mbid@),
        accepted matches Some(id) ==> id@ == mbid@,
{
    let chars = text::chars_of(mbid);
    if chars.len() != 36 {
        return None;
    }
    let mut i: usize = 0;
    while i < 36
        invariant
            i <= 36,
            chars@ == mbid@,
            chars@.len() == 36,
            forall|k: int|
                0 <= k < i ==> if k == 8 || k == 13 || k == 18 || k == 23 {
                    #[trigger] mbid@[k] == '-'
                } else {
                    '0' <= mbid@[k] <= '9' || 'a' <= mbid@[k] <= 'f'
                },
        decreases 36 - i,
    {
        let c = chars[i];
        assert(c == mbid@[i as int]);
        if i == 8 || i == 13 || i == 18 || i == 23 {
            if c != '-' {
                return None;
            }
        } else if !(('0' <= c && c <= '9') || ('a' <= c && c <= 'f')) {
            return None;
        }
        i += 1;
    }
    Some(mbid)
}

/// Address of the cover of a release.
pub open spec fn cover_address(mbid: Seq<char>) -> Seq<char> {
    CAA_BASE_URL@ + mbid + "/"@ + CAA_FRONT_VARIANT@
}

/// Address of the cover of a release, for a canonical identifier.
pub fn cover_art_url(mbid: &str) -> (url: Option<String>)
    ensures
        url is Some == is_canonical_mbid(mbid@),
        url matches Some(address) ==> address@ == cover_address(mbid@),
{
    match canonical_mbid(mbid) {
        Some(id) => {
            let mut address = CAA_BASE_URL.to_string();
            address.append(id);
            address.append("/");
            address.append(CAA_FRONT_VARIANT);
            Some(address)
        },
        None => None,
    }
}

/// Address to download a cover from; none for an identifier that is not
/// canonical.
pub fn fetch_cover_art(mbid: &str) -> (url: Option<String>)
    ensures
        url is Some == is_canonical_mbid(mbid@),
        url matches Some(address) ==> address@ == cover_address(mbid@),
{
    match canonical_mbid(mbid) {
        Some(id) => cover_art_url(id),
        None => None,
    }
}

/// Whether a release can be used.
pub open spec fn usable_release(
    release: MusicBrainzRelease,
    artist: Seq<char>,
    album: Seq<char>,
) -> bool {
    agrees(release, artist, album) && is_canonical_mbid(release.id@)
}

/// Identifier of the first usable release of a search answer.
pub open spec fn chosen_release(
    releases: Seq<MusicBrainzRelease>,
    artist: Seq<char>,
    album: Seq<char>,
) -> Option<Seq<char>>
    decreases releases.len(),
{
    if releases.len() == 0 {
        None
    } else if usable_release(releases[0], artist, album) {
        Some(releases[0].id@)
    } else {
        chosen_release(releases.drop_first(), artist, album)
    }
}

/// A chosen release agrees with what was asked for and has a canonical
/// identifier, and no release before it does.
pub proof fn law_chosen_release_agrees(
    releases: Seq<MusicBrainzRelease>,
    artist: Seq<char>,
    album: Seq<char>,
)
    ensures
        match chosen_release(releases, artist, album) {
            Some(id) => exists|i: int|
                0 <= i < releases.len() && id == (#[trigger] releases[i]).id@ && usable_release(
                    releases[i],
                    artist,
                    album,
                ) && forall|k: int|
                    0 <= k < i ==> !usable_release(#[trigger] releases[k], artist, album),
            None => forall|i: int|
                0 <= i < releases.len() ==> !usable_release(#[trigger] releases[i], artist, album),
        },
    decreases releases.len(),
{
    if releases.len() > 0 && !usable_release(releases[0], artist, album) {
        let rest = releases.drop_first();
        law_chosen_release_agrees(rest, artist, album);
        match chosen_release(rest, artist, album) {
            Some(id) => {
                let j = choose|j: int|
                    0 <= j < rest.len() && id == (#[trigger] rest[j]).id@ && usable_release(
                        rest[j],
                        artist,
                        album,
                    ) && forall|k: int|
                        0 <= k < j ==> !usable_release(#[trigger] rest[k], artist, album);
                assert(releases[j + 1] == rest[j]);
                assert forall|k: int| 0 <= k < j + 1 implies !usable_release(
                    #[trigger] releases[k],
                    artist,
                    album,
                ) by {
                    if k > 0 {
                        assert(releases[k] == rest[k - 1]);
                    }
                }
            },
            None => {
                assert forall|i: int| 0 <= i < releases.len() implies !usable_release(
                    #[trigger] releases[i],
                    artist,
                    album,
                ) by {
                    if i > 0 {
                        assert(releases[i] == rest[i - 1]);
                    }
                }
            },
        }
    }
}

/// Identifier of the first usable release of a search answer.
pub fn select_release(releases: &Vec<MusicBrainzRelease>, artist: &str, album: &str) -> (id: Option<
    String,
>)
    ensures
        id is Some == chosen_release(releases@, artist@, album@) is Some,
        id matches Some(mbid) ==> chosen_release(releases@, artist@, album@) == Some(mbid@)
            && is_canonical_mbid(mbid@),
{
    let mut i: usize = 0;
    assert(releases@.skip(0) =~= releases@);
    while i < releases.len()
        invariant
            i <= releases.len(),
            chosen_release(releases@.skip(i as int), artist@, album@) == chosen_release(
                releases@,
                artist@,
                album@,
            ),
        decreases releases.len() - i,
    {
        let release = &releases[i];
        assert(releases@.skip(i as int)[0] == *release);
        if release_matches(release, artist, album) && canonical_mbid(
            release.id.as_str(),
        ).is_some() {
            return Some(release.id.clone());
        }
        assert(releases@.skip(i as int).drop_first() =~= releases@.skip(i + 1));
        i += 1;
    }
    None
}

/// Extensions of cache entries, in the order in which they are looked for.
pub open spec fn entry_extension(index: int) -> Seq<char> {
    if index == 0 {
        "jpg"@
    } else if index == 1 {
        "jpeg"@
    } else {
        "png"@
    }
}

/// Path of a cache entry.
pub open spec fn entry_path(directory: Seq<u8>, key: Seq<char>, extension: Seq<char>) -> Seq<u8> {
    path::joined(directory, encode_utf8(key + "."@ + extension))
}

/// What was found at the path of a cache entry.
pub enum CacheEntry {
    /// Nothing, or nothing that can be inspected.
    Absent,
    /// A symbolic link.
    Symlink,
    /// Something that cannot be read.
    Unreadable,
    /// A file with these contents.
    Contents(Vec<u8>),
}

/// Answer to the download of a cover.
pub struct CoverResponse {
    /// Whether the status reports success.
    pub success: bool,
    /// The body, or none if it could not be read.
    pub body: Option<Vec<u8>>,
}

/// Something that happened outside.
pub enum FetchEvent {
    /// The cache entry was looked up.
    Entry(CacheEntry),
    /// The search came back; none if it failed.
    Releases(Option<Vec<MusicBrainzRelease>>),
    /// The download came back; none if it failed.
    Response(Option<CoverResponse>),
}

/// What to do outside next.
pub enum FetchAction {
    /// Look up a cache entry.
    ReadEntry(FilePath),
    /// Search for a release.
    Search(String),
    /// Download a cover.
    Download(String),
    /// The fetch is over: here is the cover, from the cache.
    Cached(Vec<u8>),
    /// The fetch is over: here is the cover, to be stored at the path.
    Fetched(FilePath, Vec<u8>),
    /// The fetch is over: there is no cover.
    NoCover,
}

/// What to do outside next, after a file was removed.
pub struct FetchStep {
    /// Corrupt cache entry to remove first.
    pub remove: Option<FilePath>,
    pub action: FetchAction,
}

/// Progress of a fetch.
#[derive(Debug, Clone, Copy, PartialEq, Eq, Structural)]
pub enum FetchStage {
    /// The cache entry with this extension is being looked up.
    Cache(usize),
    /// The search is on its way.
    Search,
    /// The download is on its way.
    Download,
    /// The fetch is over.
    Done,
}

/// A cover being fetched.
pub struct CoverFetch {
    pub artist: String,
    pub album: String,
    pub directory: FilePath,
    pub key: String,
    pub stage: FetchStage,
}

/// Whether this is a fetch of the cover of a release, with a cache below
/// `cache_dir`.
pub open spec fn fetches(
    fetch: CoverFetch,
    artist: Seq<char>,
    album: Seq<char>,
    cache_dir: Seq<u8>,
) -> bool {
    &&& fetch.artist@ == artist
    &&& fetch.album@ == album
    &&& fetch.directory@ == path::joined(cache_dir, encode_utf8(ARTWORK_CACHE_SUBDIR@))
    &&& fetch.key@ == cache_key(artist, album)
}

/// Whether bytes parse as a cover: they announce a JPEG or a PNG, and their
/// header tells the extent of a bitmap.
pub open spec fn parses(bytes: Seq<u8>) -> bool {
    images::announced_format(bytes) is Some && images::header_extent(bytes) is Some
}

/// Whether a cache entry is the cover: a regular file that parses as one. A file
/// that was cut off within its header is none.
pub open spec fn is_cover(entry: CacheEntry) -> bool {
    entry matches CacheEntry::Contents(bytes) && parses(bytes@)
}

/// Start to fetch the cover of a release, unless its names are not enough to
/// search with.
pub fn fetch_cover(artist: &str, album: &str, cache_dir: &FilePath) -> (fetch: Option<CoverFetch>)
    ensures
        fetch is Some == usable_identity(artist@, album@),
        fetch matches Some(f) ==> fetches(f, artist@, album@, cache_dir@) && f.stage
            == FetchStage::Cache(0),
{
    if !usable_remote_identity(artist, album) {
        return None;
    }
    Some(
        CoverFetch {
            artist: artist.to_string(),
            album: album.to_string(),
            directory: cache_dir.join(ARTWORK_CACHE_SUBDIR),
            key: build_cache_key(artist, album),
            stage: FetchStage::Cache(0),
        },
    )
}

/// Whether a file parses as a JPEG or a PNG. Only its header is read, and the
/// bitmap is not decoded; a file that ends before its header does is refused.
pub fn is_decodable_image(bytes: &Vec<u8>) -> (decodable: bool)
    ensures
        decodable == (images::announced_format(bytes@) is Some && images::header_extent(
            bytes@,
        ) is Some),
        decodable && images::starts_like_png(bytes@) ==> bytes@.len() >= 33,
{
    images::guess_format(bytes.as_slice()).is_some() && images::read_header_extent(
        bytes.as_slice(),
    ).is_some()
}

/// Accept a body that is not larger than its limit.
pub fn bounded_body(body: Vec<u8>, limit: usize) -> (accepted: Option<Vec<u8>>)
    ensures
        accepted == if body@.len() <= limit {
            Some(body)
        } else {
            None
        },
{
    if body.len() <= limit {
        Some(body)
    } else {
        None
    }
}

/// Whether a download delivered a cover.
pub open spec fn delivers(response: Option<CoverResponse>) -> bool {
    &&& response matches Some(r)
    &&& r.success
    &&& r.body matches Some(bytes)
    &&& bytes@.len() <= MAX_COVER_ART_BYTES
}

impl CoverFetch {
    /// Path of the cache entry with an extension.
    pub open spec fn entry(self, index: int) -> Seq<u8> {
        entry_path(self.directory@, self.key@, entry_extension(index))
    }

    /// Whether this is the same fetch, at whatever stage.
    pub open spec fn same_fetch(self, other: CoverFetch) -> bool {
        &&& self.artist@ == other.artist@
        &&& self.album@ == other.album@
        &&& self.directory@ == other.directory@
        &&& self.key@ == other.key@
    }

    /// Whether the cache entry at hand is one of those that are looked for.
    pub open spec fn wf(self) -> bool {
        self.stage matches FetchStage::Cache(index) ==> index < 3
    }

    /// Whether a cache entry was taken for what it is: the cover ends the fetch;
    /// any other file is removed; and after everything but the cover comes the
    /// next entry, or the search.
    pub open spec fn looks_up(
        self,
        index: usize,
        entry: CacheEntry,
        after: CoverFetch,
        step: FetchStep,
    ) -> bool {
        if is_cover(entry) {
            &&& step.action == FetchAction::Cached(entry->Contents_0)
            &&& step.remove is None
            &&& after.stage is Done
        } else {
            &&& step.remove is Some == entry is Contents
            &&& (step.remove matches Some(file) ==> file@ == self.entry(index as int))
            &&& if index < 2 {
                &&& after.stage == FetchStage::Cache((index + 1) as usize)
                &&& step.action matches FetchAction::ReadEntry(file)
                &&& file@ == self.entry(index + 1)
            } else {
                &&& after.stage is Search
                &&& step.action matches FetchAction::Search(query)
                &&& query@ == release_query(self.artist@, self.album@)
            }
        }
    }

    fn entry_file(&self, index: usize) -> (file: FilePath)
        ensures
            file@ == self.entry(index as int),
    {
        let extension = if index == 0 {
            "jpg"
        } else if index == 1 {
            "jpeg"
        } else {
            "png"
        };
        let mut name = self.key.clone();
        name.append(".");
        name.append(extension);
        self.directory.join(name.as_str())
    }

    /// First thing to do for a fresh fetch: look up the first cache entry.
    pub fn begin(&self) -> (action: FetchAction)
        ensures
            action matches FetchAction::ReadEntry(file) && file@ == self.entry(0),
    {
        FetchAction::ReadEntry(self.entry_file(0))
    }

    /// Go on after a cache entry was looked up.
    ///
    /// A regular file that parses as an image is the cover. Any other file is
    /// a corrupt entry and is removed; links and unreadable entries are passed
    /// over. After the last entry comes the search.
    fn after_entry(&mut self, index: usize, entry: CacheEntry) -> (step: FetchStep)
        requires
            old(self).stage == FetchStage::Cache(index),
            index < 3,
        ensures
            final(self).same_fetch(*old(self)),
            final(self).wf(),
            old(self).looks_up(index, entry, *final(self), step),
    {
        let remove = match entry {
            CacheEntry::Contents(bytes) => {
                if is_decodable_image(&bytes) {
                    self.stage = FetchStage::Done;
                    return FetchStep { remove: None, action: FetchAction::Cached(bytes) };
                }
                Some(self.entry_file(index))
            },
            _ => None,
        };
        if index < 2 {
            self.stage = FetchStage::Cache(index + 1);
            FetchStep { remove, action: FetchAction::ReadEntry(self.entry_file(index + 1)) }
        } else {
            self.stage = FetchStage::Search;
            let query = build_musicbrainz_query(self.artist.as_str(), self.album.as_str());
            FetchStep { remove, action: FetchAction::Search(query) }
        }
    }

    /// Turn an answer from outside into the next thing to do. An answer that
    /// nobody asked for ends the fetch without a cover.
    pub fn advance(&mut self, event: FetchEvent) -> (step: FetchStep)
        requires
            old(self).wf(),
        ensures
            final(self).same_fetch(*old(self)),
            final(self).wf(),
            match (old(self).stage, event) {
                (FetchStage::Cache(index), FetchEvent::Entry(entry)) => old(self).looks_up(
                    index,
                    entry,
                    *final(self),
                    step,
                ),
                (FetchStage::Search, FetchEvent::Releases(Some(releases))) => {
                    &&& step.remove is None
                    &&& match chosen_release(releases@, old(self).artist@, old(self).album@) {
                        Some(mbid) => final(self).stage is Download && (
                        step.action matches FetchAction::Download(url) && url@ == cover_address(
                            mbid,
                        )),
                        None => final(self).stage is Done && step.action is NoCover,
                    }
                },
                (FetchStage::Download, FetchEvent::Response(response)) => {
                    &&& step.remove is None
                    &&& final(self).stage is Done
                    &&& if delivers(response) {
                        step.action matches FetchAction::Fetched(file, cover) && file@ == old(
                            self,
                        ).entry(0) && response->0.body == Some(cover)
                    } else {
                        step.action is NoCover
                    }
                },
                _ => step.remove is None && step.action is NoCover && final(self).stage is Done,
            },
    {
        match (self.stage, event) {
            (FetchStage::Cache(index), FetchEvent::Entry(entry)) => self.after_entry(index, entry),
            (FetchStage::Search, FetchEvent::Releases(Some(releases))) => {
                let mbid = select_release(&releases, self.artist.as_str(), self.album.as_str());
                match mbid {
                    Some(id) => match fetch_cover_art(id.as_str()) {
                        Some(url) => {
                            self.stage = FetchStage::Download;
                            FetchStep { remove: None, action: FetchAction::Download(url) }
                        },
                        None => self.give_up(),
                    },
                    None => self.give_up(),
                }
            },
            (FetchStage::Download, FetchEvent::Response(Some(response))) => {
                self.stage = FetchStage::Done;
                let cover = match response.body {
                    Some(body) => if response.success {
                        bounded_body(body, MAX_COVER_ART_BYTES)
                    } else {
                        None
                    },
                    None => None,
                };
                match cover {
                    Some(cover) => FetchStep {
                        remove: None,
                        action: FetchAction::Fetched(self.entry_file(0), cover),
                    },
                    None => self.give_up(),
                }
            },
            _ => self.give_up(),
        }
    }

    fn give_up(&mut self) -> (step: FetchStep)
        ensures
            *final(self) == (CoverFetch { stage: FetchStage::Done, ..*old(self) }),
            step.remove is None,
            step.action is NoCover,
    {
        self.stage = FetchStage::Done;
        FetchStep { remove: None, action: FetchAction::NoCover }
    }
}

/// A cover is stored where a later fetch of the same release looks first, and
/// that fetch ends with it, as long as it parses as an image.
pub proof fn law_stored_covers_are_found(
    artist: Seq<char>,
    album: Seq<char>,
    cache_dir: Seq<u8>,
    storing: CoverFetch,
    reading: CoverFetch,
    cover: Vec<u8>,
)
    requires
        fetches(storing, artist, album, cache_dir),
        fetches(reading, artist, album, cache_dir),
        parses(cover@),
    ensures
        storing.entry(0) == reading.entry(0),
        is_cover(CacheEntry::Contents(cover)),
{
}

/// A link is never taken for a cover.
pub proof fn law_links_are_no_covers(entry: CacheEntry)
    requires
        entry is Symlink,
    ensures
        !is_cover(entry),
{
}

} // verus!
