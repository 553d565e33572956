//! Promises about covers from the network.
//!
//! Each law is about the calls themselves: what a call may return for what it
//! was given, and how two calls relate.
use crate::artwork::images;
use crate::artwork::remote;
use crate::artwork::remote::{
    CacheEntry, CoverFetch, CoverResponse, FetchAction, FetchEvent, FetchStage, FetchStep,
    MusicBrainzRelease, RequestRateGate,
};
use crate::digest;
use crate::path;
use crate::path::FilePath;
use crate::text;
use crate::time::{Duration, MAX_NANOS};
use crate::words;
use vstd::math;
use vstd::prelude::*;
use vstd::utf8::*;

verus! {

/// A caller waits until the slot that is free, and not at all if that is past. Two
/// callers in a row never go out closer together than the interval, whenever they
/// come, unless time itself runs out.
pub proof fn law_callers_keep_their_distance(
    gate: &mut RequestRateGate,
    now: Duration,
    interval: Duration,
    wait: Duration,
    again: &mut RequestRateGate,
    later: Duration,
    second: Duration,
)
    requires
        old(gate).wf(),
        now.wf(),
        later.wf(),
        interval.wf(),
        call_ensures(RequestRateGate::reserve, (gate, now, interval), wait),
        *old(again) == *final(gate),
        call_ensures(RequestRateGate::reserve, (again, later, interval), second),
        now.nanos + wait.nanos + interval.nanos <= MAX_NANOS,
    ensures
        old(gate).next_slot is None ==> wait.nanos == 0,
        old(gate).next_slot matches Some(slot) ==> wait.nanos == math::max(
            0,
            slot.nanos - now.nanos,
        ),
        later.nanos + second.nanos >= now.nanos + wait.nanos + interval.nanos,
        later.nanos >= now.nanos + wait.nanos + interval.nanos ==> second.nanos == 0,
        later.nanos + second.nanos == math::max(
            later.nanos as int,
            now.nanos + wait.nanos + interval.nanos,
        ),
{
}

/// Whether a name is one that stands for a missing one, in whatever case.
pub open spec fn is_placeholder(name: Seq<char>) -> bool {
    words::ascii_lowered(name) == words::ascii_lowered("Unknown Artist"@) || words::ascii_lowered(
        name,
    ) == words::ascii_lowered("Unknown Album"@)
}

/// A release is searched for only if both of its names say something once the white
/// space around them is gone: they are not empty and do not stand for missing
/// ones.
pub proof fn law_only_real_names_are_searched_for(
    artist: &str,
    album: &str,
    usable: bool,
    artist_chars: Vec<char>,
    album_chars: Vec<char>,
    artist_name: Vec<char>,
    album_name: Vec<char>,
    cache: &FilePath,
    fetch: Option<CoverFetch>,
)
    requires
        call_ensures(remote::usable_remote_identity, (artist, album), usable),
        artist_chars@ == artist@,
        album_chars@ == album@,
        call_ensures(text::trim, (&artist_chars,), artist_name),
        call_ensures(text::trim, (&album_chars,), album_name),
        call_ensures(remote::fetch_cover, (artist, album, cache), fetch),
    ensures
        usable == (artist_name@.len() > 0 && album_name@.len() > 0 && !is_placeholder(artist_name@)
            && !is_placeholder(album_name@)),
        fetch is Some == usable,
        fetch matches Some(f) ==> f.artist@ == artist@ && f.album@ == album@
            && f.stage == FetchStage::Cache(0),
{
}

/// Characters that the query parser does not take for themselves.
pub open spec fn is_special(c: char) -> bool {
    seq![
        '+',
        '-',
        '&',
        '|',
        '!',
        '(',
        ')',
        '{',
        '}',
        '[',
        ']',
        '^',
        '"',
        '~',
        '*',
        '?',
        ':',
        '\\',
        '/',
    ].contains(c)
}

proof fn lemma_escaped_parts(a: Seq<char>, b: Seq<char>)
    ensures
        remote::escaped(a + b) == remote::escaped(a) + remote::escaped(b),
    decreases b.len(),
{
    if b.len() == 0 {
        assert(a + b =~= a);
        assert(remote::escaped(a) + remote::escaped(b) =~= remote::escaped(a));
    } else {
        assert((a + b).drop_last() =~= a + b.drop_last());
        lemma_escaped_parts(a, b.drop_last());
        assert(remote::escaped(a + b) =~= remote::escaped(a) + remote::escaped(b));
    }
}

/// A text is escaped part by part. A character that means something to the query
/// parser gets a backslash, and every other one stays as it is.
pub proof fn law_texts_are_escaped_character_by_character(
    whole: &str,
    first: &str,
    second: &str,
    whole_out: String,
    first_out: String,
    second_out: String,
)
    requires
        whole@ == first@ + second@,
        call_ensures(remote::escape_lucene, (whole,), whole_out),
        call_ensures(remote::escape_lucene, (first,), first_out),
        call_ensures(remote::escape_lucene, (second,), second_out),
    ensures
        whole_out@ == first_out@ + second_out@,
        first@.len() == 0 ==> first_out@.len() == 0,
        first@.len() == 1 ==> first_out@ == if is_special(first@[0]) {
            seq!['\\', first@[0]]
        } else {
            seq![first@[0]]
        },
        remote::unescaped(whole_out@) == whole@,
{
    lemma_escaped_parts(first@, second@);
    remote::law_escaping_preserves_the_text(whole@);
    if first@.len() == 1 {
        let c = first@[0];
        let list = seq![
            '+',
            '-',
            '&',
            '|',
            '!',
            '(',
            ')',
            '{',
            '}',
            '[',
            ']',
            '^',
            '"',
            '~',
            '*',
            '?',
            ':',
            '\\',
            '/',
        ];
        assert(first@.drop_last() =~= Seq::<char>::empty());
        assert(remote::escaped(Seq::<char>::empty()) =~= Seq::<char>::empty());
        assert(is_special(c) == remote::is_query_syntax(c)) by {
            if remote::is_query_syntax(c) {
                assert(list[0] == '+' && list[1] == '-' && list[2] == '&' && list[3] == '|'
                    && list[4] == '!' && list[5] == '(' && list[6] == ')' && list[7] == '{'
                    && list[8] == '}' && list[9] == '[' && list[10] == ']' && list[11] == '^'
                    && list[12] == '"' && list[13] == '~' && list[14] == '*' && list[15] == '?'
                    && list[16] == ':' && list[17] == '\\' && list[18] == '/');
            }
            if list.contains(c) {
                let k = choose|k: int| 0 <= k < list.len() && list[k] == c;
                assert(0 <= k < 19);
            }
        }
        if is_special(c) {
            assert(remote::escaped(first@) =~= seq!['\\', c]);
        } else {
            assert(remote::escaped(first@) =~= seq![c]);
        }
    }
}

/// A query names the artist and the release, each as one quoted phrase.
pub proof fn law_queries_quote_both_names(
    artist: &str,
    album: &str,
    query: String,
    artist_out: String,
    album_out: String,
)
    requires
        call_ensures(remote::build_musicbrainz_query, (artist, album), query),
        call_ensures(remote::escape_lucene, (artist,), artist_out),
        call_ensures(remote::escape_lucene, (album,), album_out),
    ensures
        query@ == "artist:\""@ + artist_out@ + "\" AND release:\""@ + album_out@ + "\""@,
{
}

/// Names are normalized to their words in small letters with single blanks between
/// them; on ASCII text that says all of it.
pub proof fn law_names_are_normalized_to_small_words(value: &str, name: String)
    requires
        call_ensures(remote::normalize, (value,), name),
        is_ascii_chars(value@),
    ensures
        name@ == words::ascii_lowered(words::spaced(words::words(value@))),
        words::is_tidy(name@),
{
    words::law_collapsing_spaces_the_words(value@);
    lemma_collapsing_keeps_ascii(value@);
    remote::law_normal_forms_are_stable(value@);
}

proof fn lemma_collapsing_keeps_ascii(s: Seq<char>)
    requires
        is_ascii_chars(s),
    ensures
        is_ascii_chars(text::collapsed(s)),
    decreases s.len(),
{
    if s.len() > 0 {
        let front = s.drop_last();
        assert forall|i| 0 <= i < front.len() implies '\0' <= #[trigger] front[i] <= '\u{7f}' by {
            assert(front[i] == s[i]);
        }
        lemma_collapsing_keeps_ascii(front);
        assert(s[s.len() - 1] == s.last());
    }
}

/// Whether a release is the one that is looked for: its title is the album, and one
/// of the artists that it credits is the artist, in full.
pub open spec fn is_wanted(release: MusicBrainzRelease, artist: Seq<char>, album: Seq<char>) -> bool {
    &&& release.title is Some
    &&& remote::normalized(release.title->0@) == remote::normalized(album)
    &&& remote::normalized(artist).len() > 0
    &&& exists|i: int|
        #![trigger release.artist_credit@[i]]
        0 <= i < release.artist_credit@.len() && release.artist_credit@[i].name is Some
            && remote::normalized(release.artist_credit@[i].name->0@) == remote::normalized(artist)
}

/// Whether an identifier has the form of a UUID in small letters.
pub open spec fn is_uuid(id: Seq<char>) -> bool {
    &&& id.len() == 36
    &&& id[8] == '-' && id[13] == '-' && id[18] == '-' && id[23] == '-'
    &&& forall|i: int|
        0 <= i < 36 && i != 8 && i != 13 && i != 18 && i != 23 ==> '0' <= #[trigger] id[i] <= '9'
            || 'a' <= id[i] <= 'f'
}

/// A release matches if its title is the album and a credited artist is the artist;
/// parts of names do not count.
pub proof fn law_releases_match_by_their_full_names(
    release: &MusicBrainzRelease,
    artist: &str,
    album: &str,
    matching: bool,
)
    requires
        call_ensures(remote::release_matches, (release, artist, album), matching),
    ensures
        matching == is_wanted(*release, artist@, album@),
{
    if matching {
        let i = choose|i: int|
            0 <= i < release.artist_credit@.len() && remote::credits(
                #[trigger] release.artist_credit@[i],
                artist@,
            );
        assert(release.artist_credit@[i].name is Some);
    }
    if is_wanted(*release, artist@, album@) {
        let i = choose|i: int|
            #![trigger release.artist_credit@[i]]
            0 <= i < release.artist_credit@.len() && release.artist_credit@[i].name is Some
                && remote::normalized(release.artist_credit@[i].name->0@) == remote::normalized(
                artist@,
            );
        assert(remote::credits(release.artist_credit@[i], artist@));
    }
}

/// The cover is that of the first release that is wanted and has a proper
/// identifier; without one there is none.
pub proof fn law_the_first_wanted_release_is_chosen(
    releases: &Vec<MusicBrainzRelease>,
    artist: &str,
    album: &str,
    id: Option<String>,
    at: int,
)
    requires
        call_ensures(remote::select_release, (releases, artist, album), id),
    ensures
        0 <= at < releases@.len() && is_wanted(releases@[at], artist@, album@) && is_uuid(
            releases@[at].id@,
        ) && (forall|k: int|
            0 <= k < at ==> !(is_wanted(#[trigger] releases@[k], artist@, album@) && is_uuid(
                releases@[k].id@,
            ))) ==> id is Some && id->0@ == releases@[at].id@,
        (forall|k: int|
            0 <= k < releases@.len() ==> !(is_wanted(#[trigger] releases@[k], artist@, album@)
                && is_uuid(releases@[k].id@))) ==> id is None,
{
    remote::law_chosen_release_agrees(releases@, artist@, album@);
    assert forall|k: int| 0 <= k < releases@.len() implies remote::usable_release(
        #[trigger] releases@[k],
        artist@,
        album@,
    ) == (is_wanted(releases@[k], artist@, album@) && is_uuid(releases@[k].id@)) by {
        lemma_agreement_is_wanted(releases@[k], artist@, album@);
        lemma_canonical_is_uuid(releases@[k].id@);
    }
}

proof fn lemma_agreement_is_wanted(release: MusicBrainzRelease, artist: Seq<char>, album: Seq<char>)
    ensures
        remote::agrees(release, artist, album) == is_wanted(release, artist, album),
{
    if remote::agrees(release, artist, album) {
        let i = choose|i: int|
            0 <= i < release.artist_credit@.len() && remote::credits(
                #[trigger] release.artist_credit@[i],
                artist,
            );
        assert(release.artist_credit@[i].name is Some);
    }
    if is_wanted(release, artist, album) {
        let i = choose|i: int|
            #![trigger release.artist_credit@[i]]
            0 <= i < release.artist_credit@.len() && release.artist_credit@[i].name is Some
                && remote::normalized(release.artist_credit@[i].name->0@) == remote::normalized(
                artist,
            );
        assert(remote::credits(release.artist_credit@[i], artist));
    }
}

proof fn lemma_canonical_is_uuid(id: Seq<char>)
    ensures
        remote::is_canonical_mbid(id) == is_uuid(id),
{
    if remote::is_canonical_mbid(id) {
        assert(id[8] == '-' && id[13] == '-' && id[18] == '-' && id[23] == '-');
    }
}

/// Covers are downloaded from the archive, by a proper identifier, in one size.
pub proof fn law_covers_come_from_the_archive(
    id: &str,
    accepted: Option<&str>,
    url: Option<String>,
    address: Option<String>,
)
    requires
        call_ensures(remote::canonical_mbid, (id,), accepted),
        call_ensures(remote::cover_art_url, (id,), url),
        call_ensures(remote::fetch_cover_art, (id,), address),
    ensures
        accepted is Some == is_uuid(id@),
        accepted matches Some(same) ==> same@ == id@,
        url is Some == is_uuid(id@),
        url matches Some(text) ==> text@ == "https://coverartarchive.org/release/"@ + id@ + "/"@
            + "front-500"@,
        address is Some == url is Some,
        address matches Some(text) ==> text@ == url->0@,
{
    lemma_canonical_is_uuid(id@);
}

/// A body is accepted whole or not at all.
pub proof fn law_bodies_are_accepted_whole(body: Vec<u8>, limit: usize, accepted: Option<Vec<u8>>)
    requires
        call_ensures(remote::bounded_body, (body, limit), accepted),
    ensures
        body@.len() <= limit ==> accepted == Some(body),
        body@.len() > limit ==> accepted is None,
{
}

/// Whether a fetch is the same but for its progress.
pub open spec fn is_same_fetch(a: CoverFetch, b: CoverFetch) -> bool {
    &&& a.artist@ == b.artist@
    &&& a.album@ == b.album@
    &&& a.directory@ == b.directory@
    &&& a.key@ == b.key@
}

/// A cached file that parses as a picture is the cover, whichever entry it is, and
/// nothing else is looked at. Any other file is removed; links and unreadable
/// entries are left alone. Then the next entry is looked at, and the network is
/// asked after the third.
pub proof fn law_cached_covers_are_used(
    fetch: &mut CoverFetch,
    index: usize,
    entry: CacheEntry,
    step: FetchStep,
    query: String,
)
    requires
        old(fetch).stage == FetchStage::Cache(index),
        index < 3,
        call_ensures(CoverFetch::advance, (fetch, FetchEvent::Entry(entry)), step),
        exists|artist: &str, album: &str|
            artist@ == old(fetch).artist@ && album@ == old(fetch).album@ && #[trigger] call_ensures(
                remote::build_musicbrainz_query,
                (artist, album),
                query,
            ),
    ensures
        ({
            let good = entry is Contents && images::announced_format(entry->Contents_0@) is Some
                && images::header_extent(entry->Contents_0@) is Some;
            &&& is_same_fetch(*final(fetch), *old(fetch))
            &&& good ==> step.action == FetchAction::Cached(entry->Contents_0) && step.remove is None
                && final(fetch).stage is Done
            &&& !good ==> step.remove is Some == entry is Contents
            &&& !good && index < 2 ==> step.action is ReadEntry && final(fetch).stage
                == FetchStage::Cache((index + 1) as usize)
            &&& !good && index == 2 ==> final(fetch).stage is Search && (
            step.action matches FetchAction::Search(asked) && asked@ == query@)
        }),
{
}

/// Paths of the three cache entries of a fetch.
pub open spec fn entry_of(fetch: CoverFetch, extension: Seq<char>) -> Seq<u8> {
    path::joined(fetch.directory@, encode_utf8(fetch.key@ + "."@ + extension))
}

/// The entries are looked at in the order `jpg`, `jpeg`, `png`, a corrupt one is
/// removed where it was looked at, and a cover that was fetched is stored where the
/// next fetch looks first.
pub proof fn law_entries_are_looked_at_in_order(
    fresh: &CoverFetch,
    first: FetchAction,
    fetch: &mut CoverFetch,
    index: usize,
    entry: CacheEntry,
    step: FetchStep,
    downloading: &mut CoverFetch,
    response: CoverResponse,
    last: FetchStep,
)
    requires
        call_ensures(CoverFetch::begin, (fresh,), first),
        old(fetch).stage == FetchStage::Cache(index),
        index < 3,
        call_ensures(CoverFetch::advance, (fetch, FetchEvent::Entry(entry)), step),
        old(downloading).stage is Download,
        call_ensures(
            CoverFetch::advance,
            (downloading, FetchEvent::Response(Some(response))),
            last,
        ),
    ensures
        first matches FetchAction::ReadEntry(file) && file@ == entry_of(*fresh, "jpg"@),
        step.action matches FetchAction::ReadEntry(file) ==> file@ == entry_of(
            *old(fetch),
            if index == 0 {
                "jpeg"@
            } else {
                "png"@
            },
        ),
        step.remove matches Some(file) ==> file@ == entry_of(
            *old(fetch),
            if index == 0 {
                "jpg"@
            } else if index == 1 {
                "jpeg"@
            } else {
                "png"@
            },
        ),
        last.action matches FetchAction::Fetched(file, _) ==> file@ == entry_of(
            *old(downloading),
            "jpg"@,
        ),
{
}

/// A search that finds the release downloads its cover; one that fails or finds
/// none ends the fetch.
pub proof fn law_found_releases_are_downloaded(
    fetch: &mut CoverFetch,
    releases: Vec<MusicBrainzRelease>,
    step: FetchStep,
    artist: &str,
    album: &str,
    id: Option<String>,
    failing: &mut CoverFetch,
    failed: FetchStep,
)
    requires
        old(fetch).stage is Search,
        artist@ == old(fetch).artist@,
        album@ == old(fetch).album@,
        call_ensures(remote::select_release, (&releases, artist, album), id),
        call_ensures(
            CoverFetch::advance,
            (fetch, FetchEvent::Releases(Some(releases))),
            step,
        ),
        old(failing).stage is Search,
        call_ensures(
            CoverFetch::advance,
            (failing, FetchEvent::Releases(None::<Vec<MusicBrainzRelease>>)),
            failed,
        ),
    ensures
        is_same_fetch(*final(fetch), *old(fetch)),
        step.remove is None,
        id matches Some(mbid) ==> final(fetch).stage is Download && (
        step.action matches FetchAction::Download(url) && url@
            == "https://coverartarchive.org/release/"@ + mbid@ + "/"@ + "front-500"@),
        id is None ==> step.action is NoCover && final(fetch).stage is Done,
        failed.action is NoCover && final(failing).stage is Done,
{
}

/// A download is the cover if it succeeded and is not larger than 10 MiB; anything
/// else ends the fetch without one.
pub proof fn law_downloads_are_covers_if_they_fit(
    fetch: &mut CoverFetch,
    response: CoverResponse,
    step: FetchStep,
    failing: &mut CoverFetch,
    failed: FetchStep,
)
    requires
        old(fetch).stage is Download,
        call_ensures(CoverFetch::advance, (fetch, FetchEvent::Response(Some(response))), step),
        old(failing).stage is Download,
        call_ensures(
            CoverFetch::advance,
            (failing, FetchEvent::Response(None::<CoverResponse>)),
            failed,
        ),
    ensures
        ({
            let fits = response.success && response.body is Some && response.body->0@.len()
                <= 10 * 1024 * 1024;
            &&& fits ==> (step.action matches FetchAction::Fetched(_, cover) && cover
                == response.body->0)
            &&& !fits ==> step.action is NoCover
            &&& step.remove is None
            &&& final(fetch).stage is Done
            &&& failed.action is NoCover
            &&& final(failing).stage is Done
        }),
{
}

/// A fetch keeps its covers below the cache directory, under a name of sixteen
/// characters.
pub proof fn law_fetches_cache_below_their_directory(
    artist: &str,
    album: &str,
    cache: &FilePath,
    fetch: Option<CoverFetch>,
    key: String,
)
    requires
        call_ensures(remote::fetch_cover, (artist, album, cache), fetch),
        call_ensures(remote::build_cache_key, (artist, album), key),
        fetch is Some,
    ensures
        fetch->0.directory@ == path::joined(cache@, encode_utf8("artwork"@)),
        fetch->0.key@ == key@,
        key@.len() == 16,
{
}

/// The name of a cache entry is the start of a digest of the picture size, the
/// artist and the album.
pub proof fn law_cache_entries_are_named_by_a_digest(artist: &str, album: &str, key: String)
    requires
        call_ensures(remote::build_cache_key, (artist, album), key),
    ensures
        ({
            let line = seq![10u8];
            let identity = encode_utf8("front-500"@) + line + encode_utf8(artist@) + line
                + encode_utf8(album@);
            key@ == digest::hex_text(digest::sha256(identity)).subrange(0, 16)
        }),
{
    let line = seq![10u8];
    let identity = encode_utf8("front-500"@) + line + encode_utf8(artist@) + line + encode_utf8(
        album@,
    );
    assert(remote::cache_identity(artist@, album@) =~= identity);
    let all = digest::hex_text(digest::sha256(identity));
    assert(all.take(16) =~= all.subrange(0, 16));
}

/// Something that a fetch did not ask for ends it without a cover.
pub proof fn law_unexpected_events_end_a_fetch(
    fetch: &mut CoverFetch,
    event: FetchEvent,
    step: FetchStep,
)
    requires
        old(fetch).wf(),
        call_ensures(CoverFetch::advance, (fetch, event), step),
        match old(fetch).stage {
            FetchStage::Cache(_) => !(event is Entry),
            FetchStage::Search => !(event is Releases),
            FetchStage::Download => !(event is Response),
            FetchStage::Done => true,
        },
    ensures
        step.action is NoCover,
        step.remove is None,
        final(fetch).stage is Done,
{
}

} // verus!
