//! Lyrics of the track on display.
use crate::metadata;
use crate::metadata::{TrackMetadata, UNKNOWN_ALBUM, UNKNOWN_ARTIST};
use crate::path::FilePath;
use crate::player::track;
use crate::text;
use vstd::prelude::*;

verus! {

/// Where lyrics came from.
#[derive(Debug, Clone, Copy, PartialEq, Eq, Structural)]
pub enum LyricsOrigin {
    Local,
    Embedded,
    Remote,
}

/// A text, line by line.
pub struct LyricsDocument {
    pub text: String,
    pub lines: Vec<String>,
}

/// Lines of a text.
pub open spec fn plain_lines(s: Seq<char>) -> Seq<Seq<char>>
    decreases s.len(),
{
    if s.len() == 0 {
        seq![Seq::<char>::empty()]
    } else {
        let front = plain_lines(s.drop_last());
        if s.last() == '\n' {
            front.push(Seq::<char>::empty())
        } else {
            front.drop_last().push(front.last().push(s.last()))
        }
    }
}

/// Views of texts.
pub open spec fn line_views(lines: Seq<String>) -> Seq<Seq<char>> {
    lines.map_values(|l: String| l@)
}

impl LyricsDocument {
    /// Split a plain text into its lines.
    pub fn from_plain(plain: &str) -> (document: Self)
        ensures
            document.text@ == plain@,
            line_views(document.lines@) == plain_lines(plain@),
    {
        let chars = text::chars_of(plain);
        let mut lines: Vec<String> = Vec::new();
        let mut line = String::new();
        let mut i: usize = 0;
        proof {
            assert(chars@.take(0) =~= Seq::<char>::empty());
            assert(plain_lines(chars@.take(0)).drop_last() =~= Seq::<Seq<char>>::empty());
            assert(line_views(lines@) =~= Seq::<Seq<char>>::empty());
            assert(line@ =~= Seq::<char>::empty());
        }
        while i < chars.len()
            invariant
                i <= chars.len(),
                chars@ == plain@,
                plain_lines(chars@.take(i as int)).len() > 0,
                line_views(lines@) == plain_lines(chars@.take(i as int)).drop_last(),
                line@ == plain_lines(chars@.take(i as int)).last(),
            decreases chars.len() - i,
        {
            let c = chars[i];
            let ghost before = plain_lines(chars@.take(i as int));
            proof {
                assert(chars@.take(i + 1).drop_last() =~= chars@.take(i as int));
                assert(before.drop_last().push(before.last()) =~= before);
            }
            if c == '\n' {
                let mut fresh = String::new();
                core::mem::swap(&mut line, &mut fresh);
                let ghost kept = lines@;
                lines.push(fresh);
                proof {
                    assert(line_views(lines@) =~= line_views(kept).push(fresh@));
                    assert(plain_lines(chars@.take(i + 1)).drop_last() =~= before);
                    assert(line@ =~= Seq::<char>::empty());
                }
            } else {
                line.push(c);
                assert(plain_lines(chars@.take(i + 1)).drop_last() =~= before.drop_last());
            }
            i += 1;
        }
        let ghost kept = lines@;
        let ghost last = line@;
        lines.push(line);
        proof {
            assert(chars@.take(i as int) =~= chars@);
            assert(line_views(lines@) =~= line_views(kept).push(last));
            assert(line_views(lines@) =~= plain_lines(plain@));
        }
        LyricsDocument { text: plain.to_string(), lines }
    }
}

/// Rows that a line takes up in a panel of a given width.
pub open spec fn wrapped_rows(len: int, width: int) -> int {
    if width <= 0 || len <= 0 {
        1
    } else {
        (len - 1) / width + 1
    }
}

/// Rows that lines take up in a panel of a given width.
pub open spec fn total_rows(lines: Seq<Seq<char>>, width: int) -> int
    decreases lines.len(),
{
    if lines.len() == 0 {
        0
    } else {
        total_rows(lines.drop_last(), width) + wrapped_rows(lines.last().len() as int, width)
    }
}

/// What is asked for when lyrics are looked up.
pub struct LyricsRequest {
    pub audio_path: FilePath,
    pub title: Option<String>,
    pub artist: Option<String>,
    pub album: Option<String>,
}

/// What a request says.
pub ghost struct LyricsQuery {
    pub audio_path: Seq<u8>,
    pub title: Option<Seq<char>>,
    pub artist: Option<Seq<char>>,
    pub album: Option<Seq<char>>,
}

impl View for LyricsRequest {
    type V = LyricsQuery;

    open spec fn view(&self) -> LyricsQuery {
        LyricsQuery {
            audio_path: self.audio_path@,
            title: metadata::optional_text(self.title),
            artist: metadata::optional_text(self.artist),
            album: metadata::optional_text(self.album),
        }
    }
}

/// A name, unless it is empty or the placeholder for a missing one.
pub open spec fn real_name(name: Seq<char>, placeholder: Seq<char>) -> Option<Seq<char>> {
    if name.len() == 0 || name == placeholder {
        None
    } else {
        Some(name)
    }
}

/// Request for the lyrics of a file with optional tags.
pub open spec fn lyrics_query(file: Seq<u8>, tags: Option<metadata::Tags>) -> LyricsQuery {
    LyricsQuery {
        audio_path: file,
        title: match tags {
            Some(t) if t.title_tagged && t.title.len() > 0 => Some(t.title),
            _ => None,
        },
        artist: match tags {
            Some(t) => real_name(t.artist, UNKNOWN_ARTIST@),
            None => None,
        },
        album: match tags {
            Some(t) => real_name(t.album, UNKNOWN_ALBUM@),
            None => None,
        },
    }
}

/// Title that is shown above lyrics.
pub open spec fn lyrics_title(file: Seq<u8>, tags: Option<metadata::Tags>) -> Seq<char> {
    match lyrics_query(file, tags).title {
        Some(title) => title,
        None => text::displayed(track::file_stem(file)),
    }
}

fn named(name: &String, placeholder: &str) -> (found: Option<String>)
    ensures
        metadata::optional_text(found) == real_name(name@, placeholder@),
{
    let chars = text::chars_of(name.as_str());
    if chars.len() == 0 || text::same_text(name.as_str(), placeholder) {
        None
    } else {
        Some(name.clone())
    }
}

/// Request for the lyrics of a file, and the title to show meanwhile. Names
/// that stand for missing tags are not asked for.
pub fn lyrics_request_for(file: &FilePath, tags: Option<&TrackMetadata>) -> (asked: (
    LyricsRequest,
    String,
))
    ensures
        ({
            let said = match tags {
                Some(t) => Some(t@),
                None => None,
            };
            asked.0@ == lyrics_query(file@, said) && asked.1@ == lyrics_title(file@, said)
        }),
{
    let title = match tags {
        Some(t) => if t.title_tagged && text::chars_of(t.title.as_str()).len() > 0 {
            Some(t.title.clone())
        } else {
            None
        },
        None => None,
    };
    let artist = match tags {
        Some(t) => named(&t.artist, UNKNOWN_ARTIST),
        None => None,
    };
    let album = match tags {
        Some(t) => named(&t.album, UNKNOWN_ALBUM),
        None => None,
    };
    let shown = match &title {
        Some(t) => t.clone(),
        None => track::stem_of(file).to_text_lossy(),
    };
    (LyricsRequest { audio_path: file.clone(), title, artist, album }, shown)
}

/// What became of a lookup.
pub struct LoadOutcome {
    pub document: Option<LyricsDocument>,
    pub origin: Option<LyricsOrigin>,
}

/// Lyrics panel.
pub struct LyricsState {
    pub visible: bool,
    pub loading: bool,
    pub document: Option<LyricsDocument>,
    pub origin: Option<LyricsOrigin>,
    pub scroll: usize,
    pub viewport_height: usize,
    pub viewport_width: usize,
    pub display_title: Option<String>,
}

/// A panel that is hidden and empty.
pub open spec fn hidden_panel() -> LyricsState {
    LyricsState {
        visible: false,
        loading: false,
        document: None,
        origin: None,
        scroll: 0,
        viewport_height: 0,
        viewport_width: 0,
        display_title: None,
    }
}

/// A move in a list that is longer than its window.
#[derive(Debug, Clone, Copy, PartialEq, Eq, Structural)]
pub enum Motion {
    Up,
    Down,
    PageUp,
    PageDown,
    Top,
    Bottom,
}

/// Rows of a panel's document.
pub open spec fn document_rows(s: LyricsState) -> int {
    match s.document {
        Some(document) => total_rows(line_views(document.lines@), s.viewport_width as int),
        None => 0,
    }
}

/// Last scroll position of a panel.
pub open spec fn last_scroll(s: LyricsState) -> int {
    let spare = document_rows(s) - s.viewport_height;
    if spare <= 0 {
        0
    } else if spare >= usize::MAX {
        usize::MAX as int
    } else {
        spare
    }
}

/// Rows of a page: two rows less than the window, but at least one.
pub open spec fn page_rows(height: usize) -> int {
    if height >= 3 {
        height - 2
    } else {
        1
    }
}

/// Scroll position after a move, kept within the document.
pub open spec fn scrolled(s: LyricsState, motion: Motion) -> int {
    let wanted = match motion {
        Motion::Up => s.scroll - 1,
        Motion::Down => s.scroll + 1,
        Motion::PageUp => s.scroll - page_rows(s.viewport_height),
        Motion::PageDown => s.scroll + page_rows(s.viewport_height),
        Motion::Top => 0,
        Motion::Bottom => last_scroll(s),
    };
    if wanted < 0 {
        0
    } else if wanted > last_scroll(s) {
        last_scroll(s)
    } else {
        wanted
    }
}

fn rows_of(len: usize, width: usize) -> (rows: usize)
    ensures
        rows == wrapped_rows(len as int, width as int),
        rows >= 1,
{
    if width == 0 || len == 0 {
        1
    } else {
        assert((len - 1) as int / width as int <= len - 1) by (nonlinear_arith)
            requires
                len >= 1,
                width >= 1,
        ;
        assert((len - 1) as int / width as int >= 0) by (nonlinear_arith)
            requires
                len >= 1,
                width >= 1,
        ;
        (len - 1) / width + 1
    }
}

impl LyricsState {
    /// A hidden panel without lyrics.
    pub fn new() -> (panel: Self)
        ensures
            panel == hidden_panel(),
    {
        LyricsState {
            visible: false,
            loading: false,
            document: None,
            origin: None,
            scroll: 0,
            viewport_height: 0,
            viewport_width: 0,
            display_title: None,
        }
    }

    /// Put a document into the panel, or none, and go to its top.
    pub fn set_document(&mut self, document: Option<LyricsDocument>)
        ensures
            *final(self) == (LyricsState { document, scroll: 0, ..*old(self) }),
    {
        self.document = document;
        self.scroll = 0;
    }

    fn last_position(&self) -> (position: usize)
        ensures
            position == last_scroll(*self),
    {
        match &self.document {
            None => 0,
            Some(document) => {
                let ghost views = line_views(document.lines@);
                let width = self.viewport_width;
                let limit = self.viewport_height;
                let mut rows: usize = 0;
                let mut spare: usize = 0;
                let mut i: usize = 0;
                proof {
                    assert(views.take(0) =~= Seq::<Seq<char>>::empty());
                }
                while i < document.lines.len()
                    invariant
                        i <= document.lines.len(),
                        views == line_views(document.lines@),
                        rows <= limit,
                        spare > 0 ==> rows == limit,
                        total_rows(views.take(i as int), width as int) == rows + spare
                            || (spare == usize::MAX && total_rows(
                            views.take(i as int),
                            width as int,
                        ) - limit >= usize::MAX),
                    decreases document.lines.len() - i,
                {
                    proof {
                        assert(views.take(i + 1).drop_last() =~= views.take(i as int));
                        assert(views[i as int] == document.lines@[i as int]@);
                    }
                    let len: usize = text::chars_of(document.lines[i].as_str()).len();
                    let more = rows_of(len, width);
                    let room: usize = limit - rows;
                    if more <= room {
                        rows = rows + more;
                    } else {
                        rows = limit;
                        let extra: usize = more - room;
                        spare = if spare <= usize::MAX - extra {
                            spare + extra
                        } else {
                            usize::MAX
                        };
                    }
                    i += 1;
                }
                proof {
                    assert(views.take(i as int) =~= views);
                }
                spare
            },
        }
    }

    /// Move through the document.
    pub fn scroll_by(&mut self, motion: Motion)
        ensures
            *final(self) == (LyricsState {
                scroll: scrolled(*old(self), motion) as usize,
                ..*old(self)
            }),
            0 <= scrolled(*old(self), motion) <= last_scroll(*old(self)),
    {
        let last = self.last_position();
        let page: usize = if self.viewport_height >= 3 {
            self.viewport_height - 2
        } else {
            1
        };
        let wanted: usize = match motion {
            Motion::Up => self.scroll.saturating_sub(1),
            Motion::Down => self.scroll.saturating_add(1),
            Motion::PageUp => self.scroll.saturating_sub(page),
            Motion::PageDown => self.scroll.saturating_add(page),
            Motion::Top => 0,
            Motion::Bottom => last,
        };
        self.scroll = if wanted > last {
            last
        } else {
            wanted
        };
    }
}

/// Scrolling never leaves the document.
pub proof fn law_scrolling_stays_within_the_document(s: LyricsState, motion: Motion)
    ensures
        0 <= scrolled(s, motion) <= last_scroll(s),
{
}

/// Lines in a row, with a line feed between any two.
pub open spec fn fed(lines: Seq<Seq<char>>) -> Seq<char>
    decreases lines.len(),
{
    if lines.len() == 0 {
        Seq::empty()
    } else if lines.len() == 1 {
        lines[0]
    } else {
        fed(lines.drop_last()).push('\n') + lines.last()
    }
}

proof fn lemma_lines_make_up_the_text(s: Seq<char>)
    ensures
        fed(plain_lines(s)) == s,
        plain_lines(s).len() > 0,
        forall|k: int| 0 <= k < plain_lines(s).len() ==> !(#[trigger] plain_lines(s)[k]).contains('\n'),
    decreases s.len(),
{
    if s.len() == 0 {
        assert(fed(plain_lines(s)) =~= s);
    } else {
        let front = plain_lines(s.drop_last());
        lemma_lines_make_up_the_text(s.drop_last());
        assert(s.drop_last().push(s.last()) =~= s);
        if s.last() == '\n' {
            assert(plain_lines(s).drop_last() =~= front);
            assert(fed(plain_lines(s)) =~= s);
        } else {
            let longer = front.last().push(s.last());
            assert(plain_lines(s).drop_last() =~= front.drop_last());
            assert(fed(plain_lines(s)) =~= s);
            assert(!longer.contains('\n')) by {
                if longer.contains('\n') {
                    let i = choose|i: int| 0 <= i < longer.len() && longer[i] == '\n';
                    assert(front.last()[i] == '\n');
                    assert(front.last().contains('\n'));
                }
            }
            assert forall|k: int| 0 <= k < plain_lines(s).len() implies !(
            #[trigger] plain_lines(s)[k]).contains('\n') by {
                if k < front.len() - 1 {
                    assert(plain_lines(s)[k] == front[k]);
                }
            }
        }
    }
}

/// A document is its lines with line feeds between them, and no line holds one.
pub proof fn law_documents_are_their_lines(plain: &str, document: LyricsDocument)
    requires
        call_ensures(LyricsDocument::from_plain, (plain,), document),
    ensures
        document.text@ == plain@,
        document.lines@.len() > 0,
        fed(line_views(document.lines@)) == plain@,
        forall|k: int| 0 <= k < document.lines@.len() ==> !(#[trigger] document.lines@[k])@.contains('\n'),
{
    lemma_lines_make_up_the_text(plain@);
    let lines = line_views(document.lines@);
    assert(lines.len() == document.lines@.len());
    assert forall|k: int| 0 <= k < document.lines@.len() implies !(
    #[trigger] document.lines@[k])@.contains('\n') by {
        assert(lines[k] == document.lines@[k]@);
    }
}

/// A line takes up as many rows as its characters fill, and at least one.
pub proof fn law_lines_fill_their_rows(len: int, width: int)
    requires
        len >= 0,
        width > 0,
    ensures
        wrapped_rows(len, width) >= 1,
        len <= wrapped_rows(len, width) * width,
        len > 0 ==> (wrapped_rows(len, width) - 1) * width < len,
        len <= width ==> wrapped_rows(len, width) == 1,
{
    if len > 0 {
        let whole = (len - 1) / width;
        assert(len - 1 == whole * width + (len - 1) % width && 0 <= (len - 1) % width < width)
            by (nonlinear_arith)
            requires
                width > 0,
                whole == (len - 1) / width,
        ;
        assert((whole + 1) * width == whole * width + width) by (nonlinear_arith);
        assert(whole >= 0) by (nonlinear_arith)
            requires
                whole == (len - 1) / width,
                len >= 1,
                width > 0,
        ;
        if len <= width {
            assert(whole == 0) by (nonlinear_arith)
                requires
                    whole * width <= len - 1,
                    len <= width,
                    whole >= 0,
                    width > 0,
            ;
        }
    }
}

proof fn lemma_short_lines_take_a_row_each(lines: Seq<Seq<char>>, width: int)
    requires
        width > 0,
        forall|k: int| 0 <= k < lines.len() ==> (#[trigger] lines[k]).len() <= width,
    ensures
        total_rows(lines, width) == lines.len(),
    decreases lines.len(),
{
    if lines.len() > 0 {
        let front = lines.drop_last();
        assert forall|k: int| 0 <= k < front.len() implies (#[trigger] front[k]).len() <= width by {
            assert(front[k] == lines[k]);
        }
        lemma_short_lines_take_a_row_each(front, width);
        assert(lines[lines.len() - 1].len() <= width);
        law_lines_fill_their_rows(lines.last().len() as int, width);
    }
}

/// In a document whose lines fit the panel, a scroll goes by a line, by a page that
/// is two lines shorter than the panel, or to an end, and the last line is never
/// above the bottom of the panel.
pub proof fn law_scrolling_goes_line_by_line(panel: &mut LyricsState, motion: Motion)
    requires
        call_ensures(LyricsState::scroll_by, (panel, motion), ()),
        old(panel).document is Some,
        old(panel).viewport_width > 0,
        forall|k: int|
            0 <= k < old(panel).document->0.lines@.len() ==> (
            #[trigger] old(panel).document->0.lines@[k])@.len() <= old(panel).viewport_width,
    ensures
        ({
            let lines = old(panel).document->0.lines@.len() as int;
            let last = vstd::math::max(0, lines - old(panel).viewport_height);
            let page = vstd::math::max(1, old(panel).viewport_height - 2);
            let row = old(panel).scroll as int;
            let now = final(panel).scroll as int;
            &&& motion is Up ==> now == vstd::math::min(last, vstd::math::max(0, row - 1))
            &&& motion is Down ==> now == vstd::math::min(last, row + 1)
            &&& motion is PageUp ==> now == vstd::math::min(last, vstd::math::max(0, row - page))
            &&& motion is PageDown ==> now == vstd::math::min(last, row + page)
            &&& motion is Top ==> now == 0
            &&& motion is Bottom ==> now == last
            &&& final(panel).document == old(panel).document
            &&& final(panel).visible == old(panel).visible
        }),
{
    let document = old(panel).document->0;
    let lines = line_views(document.lines@);
    assert(document.lines.len() == document.lines@.len());
    assert(lines.len() == document.lines@.len());
    assert forall|k: int| 0 <= k < lines.len() implies (#[trigger] lines[k]).len()
        <= old(panel).viewport_width by {
        assert(lines[k] == document.lines@[k]@);
    }
    lemma_short_lines_take_a_row_each(lines, old(panel).viewport_width as int);
}

/// A new document is shown from its top.
pub proof fn law_documents_are_shown_from_their_top(
    panel: &mut LyricsState,
    document: Option<LyricsDocument>,
)
    requires
        call_ensures(LyricsState::set_document, (panel, document), ()),
    ensures
        final(panel).document == document,
        final(panel).scroll == 0,
        final(panel).visible == old(panel).visible,
{
}

/// Rows that lines fill in a panel: each one its characters rounded up to whole
/// rows, and an empty one a row too.
pub open spec fn filled_rows(lines: Seq<Seq<char>>, width: int) -> int
    decreases lines.len(),
{
    if lines.len() == 0 {
        0
    } else {
        filled_rows(lines.drop_last(), width) + vstd::math::max(
            1,
            (lines.last().len() + width - 1) / width,
        )
    }
}

proof fn lemma_rows_are_filled(lines: Seq<Seq<char>>, width: int)
    requires
        width > 0,
    ensures
        total_rows(lines, width) == filled_rows(lines, width),
        filled_rows(lines, width) >= lines.len(),
    decreases lines.len(),
{
    if lines.len() > 0 {
        lemma_rows_are_filled(lines.drop_last(), width);
        let len = lines.last().len() as int;
        if len > 0 {
            assert((len + width - 1) / width == (len - 1) / width + 1) by (nonlinear_arith)
                requires
                    width > 0,
            ;
            assert((len - 1) / width >= 0) by (nonlinear_arith)
                requires
                    len >= 1,
                    width > 0,
            ;
        } else {
            assert((width - 1) / width == 0) by (nonlinear_arith)
                requires
                    width > 0,
            ;
        }
    }
}

/// The end of a document is where its last row is at the bottom of the panel, and no
/// move goes beyond it.
pub proof fn law_the_last_row_stays_at_the_bottom(
    panel: &mut LyricsState,
    motion: Motion,
    ending: &mut LyricsState,
)
    requires
        call_ensures(LyricsState::scroll_by, (panel, motion), ()),
        *old(ending) == *old(panel),
        call_ensures(LyricsState::scroll_by, (ending, Motion::Bottom), ()),
        old(panel).document is Some,
        old(panel).viewport_width > 0,
        filled_rows(line_views(old(panel).document->0.lines@), old(panel).viewport_width as int)
            <= usize::MAX,
    ensures
        final(ending).scroll == vstd::math::max(
            0,
            filled_rows(line_views(old(panel).document->0.lines@), old(panel).viewport_width as int)
                - old(panel).viewport_height,
        ),
        final(panel).scroll <= final(ending).scroll,
{
    lemma_rows_are_filled(
        line_views(old(panel).document->0.lines@),
        old(panel).viewport_width as int,
    );
}

} // verus!
