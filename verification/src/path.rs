//! File-system paths as plain values.
//!
//! A path is the byte sequence that names a file on a Unix system. Nothing in
//! this module looks at the disk.
use crate::text;
use vstd::prelude::*;
use vstd::utf8::*;

verus! {

/// A file-system path.
#[derive(Debug, PartialEq, Eq)]
pub struct FilePath {
    pub bytes: Vec<u8>,
}

impl View for FilePath {
    type V = Seq<u8>;

    open spec fn view(&self) -> Seq<u8> {
        self.bytes@
    }
}

/// Bytes of a path read as segments between slashes.
pub open spec fn segments(path: Seq<u8>) -> Seq<Seq<u8>>
    decreases path.len(),
{
    if path.len() == 0 {
        seq![Seq::<u8>::empty()]
    } else {
        let front = segments(path.drop_last());
        if path.last() == 47u8 {
            front.push(Seq::<u8>::empty())
        } else {
            front.drop_last().push(front.last().push(path.last()))
        }
    }
}

/// Whether a segment names something: it is neither empty nor a lone dot.
pub open spec fn names_something(segment: Seq<u8>) -> bool {
    segment.len() > 0 && segment != seq![46u8]
}

/// Whether a path starts at the root.
pub open spec fn rooted(path: Seq<u8>) -> bool {
    path.len() > 0 && path[0] == 47u8
}

/// Whether a relative path starts with a lone dot.
pub open spec fn dotted(path: Seq<u8>) -> bool {
    segments(path)[0] == seq![46u8]
}

/// Segments of a path that name something.
pub open spec fn named(path: Seq<u8>) -> Seq<Seq<u8>> {
    segments(path).filter(|s: Seq<u8>| names_something(s))
}

/// Length of the part that says where a path starts: the root, or a lone dot.
pub open spec fn head_len(path: Seq<u8>) -> int {
    if rooted(path) || dotted(path) {
        1
    } else {
        0
    }
}

/// Whether a path leads to the directory of another one: it is the shortest part
/// of that path that starts at the same place and names all but the last segment.
pub open spec fn is_directory_of(directory: Seq<u8>, path: Seq<u8>) -> bool {
    &&& head_len(path) <= directory.len() <= path.len()
    &&& directory == path.take(directory.len() as int)
    &&& named(directory) == named(path).drop_last()
    &&& forall|k: int|
        head_len(path) <= k < directory.len() ==> #[trigger] named(path.take(k)) != named(directory)
}

/// Equality of two paths: they start at the same place and agree on the
/// segments that name something, so repeated and trailing slashes and inner
/// lone dots do not matter.
pub open spec fn same_location(a: Seq<u8>, b: Seq<u8>) -> bool {
    &&& rooted(a) == rooted(b)
    &&& dotted(a) == dotted(b)
    &&& named(a) == named(b)
}

/// Path of `name` seen from the directory `base`.
///
/// A rooted name replaces the base. Otherwise one slash separates the two,
/// unless the base is empty or already ends in a slash.
pub open spec fn joined(base: Seq<u8>, name: Seq<u8>) -> Seq<u8> {
    if rooted(name) {
        name
    } else if base.len() == 0 || base.last() == 47u8 {
        base + name
    } else {
        base.push(47u8) + name
    }
}

/// Paths that are equal byte for byte name the same location.
pub proof fn law_same_bytes_same_location(a: Seq<u8>)
    ensures
        same_location(a, a),
{
}

/// Equality of paths does not depend on the order of the two.
pub proof fn law_same_location_is_symmetric(a: Seq<u8>, b: Seq<u8>)
    ensures
        same_location(a, b) == same_location(b, a),
{
}

/// Whether two byte sequences are equal.
pub fn same_bytes(a: &Vec<u8>, b: &Vec<u8>) -> (same: bool)
    ensures
        same == (a@ == b@),
{
    if a.len() != b.len() {
        return false;
    }
    let mut i: usize = 0;
    while i < a.len()
        invariant
            a.len() == b.len(),
            i <= a.len(),
            forall|k: int| 0 <= k < i ==> a@[k] == b@[k],
        decreases a.len() - i,
    {
        if a[i] != b[i] {
            return false;
        }
        i += 1;
    }
    assert(a@ =~= b@);
    true
}

/// Copy a byte sequence.
pub fn copy_bytes(bytes: &Vec<u8>) -> (copy: Vec<u8>)
    ensures
        copy@ == bytes@,
{
    let mut copy: Vec<u8> = Vec::new();
    copy.extend_from_slice(bytes.as_slice());
    assert(copy@ =~= bytes@);
    copy
}

/// Views of nested byte vectors.
pub open spec fn views(parts: Seq<Vec<u8>>) -> Seq<Seq<u8>> {
    parts.map_values(|p: Vec<u8>| p@)
}

/// What one more byte does to the named segments of a path.
proof fn lemma_named_grows(path: Seq<u8>, byte: u8)
    ensures
        segments(path).len() > 0,
        ({
            let last = segments(path).last();
            let longer = path.push(byte);
            if byte == 47 {
                &&& named(longer) == named(path)
                &&& segments(longer).last() == Seq::<u8>::empty()
            } else {
                &&& segments(longer).last() == last.push(byte)
                &&& if names_something(last) {
                    &&& named(path).len() > 0
                    &&& named(path).last() == last
                    &&& named(longer) == named(path).drop_last().push(last.push(byte))
                } else if names_something(last.push(byte)) {
                    named(longer) == named(path).push(last.push(byte))
                } else {
                    named(longer) == named(path)
                }
            }
        }),
{
    lemma_segments_exist(path);
    let keep = |s: Seq<u8>| names_something(s);
    let before = segments(path);
    let longer = path.push(byte);
    let after = segments(longer);
    assert(longer.drop_last() =~= path);
    reveal(Seq::filter);
    assert(before.filter(keep) == if keep(before.last()) {
        before.drop_last().filter(keep).push(before.last())
    } else {
        before.drop_last().filter(keep)
    });
    if byte == 47 {
        assert(after.drop_last() =~= before);
    } else {
        let last = before.last();
        assert(after.drop_last() =~= before.drop_last());
        if names_something(last) {
            assert(last.push(byte).len() > 1);
            assert(last.push(byte) != seq![46u8]);
            assert(named(path).drop_last() =~= before.drop_last().filter(keep));
        }
    }
}

proof fn lemma_empty_path_names_nothing()
    ensures
        segments(Seq::<u8>::empty()) == seq![Seq::<u8>::empty()],
        named(Seq::<u8>::empty()) == Seq::<Seq<u8>>::empty(),
{
    let all = segments(Seq::<u8>::empty());
    let keep = |s: Seq<u8>| names_something(s);
    reveal(Seq::filter);
    assert(all.drop_last() =~= Seq::<Seq<u8>>::empty());
    assert(all.drop_last().filter(keep) =~= Seq::<Seq<u8>>::empty());
    assert(!keep(all.last()));
}

proof fn lemma_segments_exist(path: Seq<u8>)
    ensures
        segments(path).len() > 0,
    decreases path.len(),
{
    if path.len() > 0 {
        lemma_segments_exist(path.drop_last());
    }
}

proof fn lemma_first_segment(path: Seq<u8>)
    requires
        path.len() > 0,
    ensures
        segments(path).len() > 0,
        path[0] == 47 ==> segments(path).len() > 1 && segments(path)[0] == Seq::<u8>::empty(),
        path[0] != 47 ==> segments(path)[0].len() > 0 && segments(path)[0][0] == path[0],
    decreases path.len(),
{
    let front = path.drop_last();
    lemma_segments_exist(front);
    if path.len() > 1 {
        lemma_first_segment(front);
    } else {
        assert(front =~= Seq::<u8>::empty());
    }
}

/// Parts in a row, with one slash between any two.
pub open spec fn slashed(parts: Seq<Seq<u8>>) -> Seq<u8>
    decreases parts.len(),
{
    if parts.len() == 0 {
        Seq::empty()
    } else if parts.len() == 1 {
        parts[0]
    } else {
        slashed(parts.drop_last()).push(47u8) + parts.last()
    }
}

/// A path is its segments with slashes between them, and no segment holds a
/// slash.
pub proof fn law_segments_are_what_slashes_part(path: Seq<u8>)
    ensures
        slashed(segments(path)) == path,
        segments(path).len() > 0,
        forall|k: int|
            0 <= k < segments(path).len() ==> !(#[trigger] segments(path)[k]).contains(47u8),
    decreases path.len(),
{
    if path.len() == 0 {
        assert(slashed(segments(path)) =~= path);
    } else {
        let front = segments(path.drop_last());
        law_segments_are_what_slashes_part(path.drop_last());
        assert(path.drop_last().push(path.last()) =~= path);
        if path.last() == 47u8 {
            assert(segments(path).drop_last() =~= front);
            assert(slashed(segments(path)) =~= path);
        } else {
            let longer = front.last().push(path.last());
            assert(segments(path).drop_last() =~= front.drop_last());
            assert(slashed(segments(path)) =~= path);
            assert(!longer.contains(47u8)) by {
                if longer.contains(47u8) {
                    let i = choose|i: int| 0 <= i < longer.len() && longer[i] == 47u8;
                    assert(front.last()[i] == 47u8);
                    assert(front.last().contains(47u8));
                }
            }
            assert forall|k: int| 0 <= k < segments(path).len() implies !(
            #[trigger] segments(path)[k]).contains(47u8) by {
                if k < front.len() - 1 {
                    assert(segments(path)[k] == front[k]);
                }
            }
        }
    }
}

/// A slash and a name add one segment.
pub proof fn law_names_are_segments(path: Seq<u8>, name: Seq<u8>)
    requires
        !name.contains(47u8),
    ensures
        segments(path.push(47u8) + name) == segments(path).push(name),
        named(path.push(47u8) + name) == if name.len() == 0 || name == seq![46u8] {
            named(path)
        } else {
            named(path).push(name)
        },
    decreases name.len(),
{
    let whole = path.push(47u8) + name;
    if name.len() == 0 {
        assert(whole =~= path.push(47u8));
        assert(path.push(47u8).drop_last() =~= path);
        assert(name =~= Seq::<u8>::empty());
        assert(segments(whole) =~= segments(path).push(name));
    } else {
        let front = name.drop_last();
        assert(!front.contains(47u8)) by {
            if front.contains(47u8) {
                let i = choose|i: int| 0 <= i < front.len() && front[i] == 47u8;
                assert(name[i] == 47u8);
            }
        }
        law_names_are_segments(path, front);
        assert(whole.drop_last() =~= path.push(47u8) + front);
        assert(name.last() != 47u8) by {
            assert(name[name.len() - 1] == name.last());
        }
        assert(front.push(name.last()) =~= name);
        assert(segments(whole) =~= segments(path).push(name));
    }
    let keep = |s: Seq<u8>| names_something(s);
    reveal(Seq::filter);
    assert(segments(path).push(name).drop_last() =~= segments(path));
}

/// Whether every segment of a path stands for a file or a directory by its own
/// name: none is empty, a lone dot or `..`, but for the empty one before the root.
pub open spec fn is_plain(path: Seq<u8>) -> bool {
    forall|k: int|
        #![trigger segments(path)[k]]
        0 <= k < segments(path).len() ==> {
            ||| k == 0 && rooted(path) && segments(path).len() > 1
            ||| {
                &&& segments(path)[k].len() > 0
                &&& segments(path)[k] != seq![46u8]
                &&& segments(path)[k] != seq![46u8, 46u8]
            }
        }
}

proof fn lemma_filter_keeps_the_tail(parts: Seq<Seq<u8>>, from: int)
    requires
        from == 0 || (from == 1 && parts.len() > 0 && !names_something(parts[0])),
        forall|k: int| from <= k < parts.len() ==> names_something(#[trigger] parts[k]),
    ensures
        parts.filter(|s: Seq<u8>| names_something(s)) == parts.skip(from),
    decreases parts.len(),
{
    let keep = |s: Seq<u8>| names_something(s);
    reveal(Seq::filter);
    if parts.len() == 0 {
        assert(parts.filter(keep) =~= parts.skip(from));
    } else if parts.len() == from {
        assert(parts.drop_last() =~= Seq::<Seq<u8>>::empty());
        assert(parts.drop_last().filter(keep) =~= Seq::<Seq<u8>>::empty());
        assert(parts.last() == parts[0]);
        assert(parts.filter(keep) =~= parts.skip(from));
    } else {
        let front = parts.drop_last();
        assert forall|k: int| from <= k < front.len() implies names_something(
            #[trigger] front[k],
        ) by {
            assert(front[k] == parts[k]);
        }
        lemma_filter_keeps_the_tail(front, from);
        assert(names_something(parts[parts.len() - 1]));
        assert(parts.filter(keep) =~= parts.skip(from));
    }
}

/// A plain path names just its segments, after the root.
pub proof fn law_plain_paths_name_their_segments(path: Seq<u8>)
    requires
        is_plain(path),
    ensures
        named(path) == segments(path).skip(if rooted(path) {
            1
        } else {
            0
        }),
        !dotted(path),
        path.len() > 0,
{
    law_segments_are_what_slashes_part(path);
    let parts = segments(path);
    if path.len() == 0 {
        assert(parts[0].len() == 0);
    }
    lemma_first_segment(path);
    let from: int = if rooted(path) {
        1
    } else {
        0
    };
    assert(parts[0].len() >= 0);
    assert forall|k: int| from <= k < parts.len() implies names_something(#[trigger] parts[k]) by {
    }
    lemma_filter_keeps_the_tail(parts, from);
}

/// Plain paths that start alike and name the same segments are equal byte for
/// byte.
pub proof fn law_plain_paths_differ_in_their_segments(a: Seq<u8>, b: Seq<u8>)
    requires
        is_plain(a),
        is_plain(b),
        rooted(a) == rooted(b),
        named(a) == named(b),
    ensures
        a == b,
{
    law_plain_paths_name_their_segments(a);
    law_plain_paths_name_their_segments(b);
    law_segments_are_what_slashes_part(a);
    law_segments_are_what_slashes_part(b);
    lemma_first_segment(a);
    lemma_first_segment(b);
    let x = segments(a);
    let y = segments(b);
    if rooted(a) {
        assert(x =~= seq![Seq::<u8>::empty()] + x.skip(1));
        assert(y =~= seq![Seq::<u8>::empty()] + y.skip(1));
    } else {
        assert(x.skip(0) =~= x);
        assert(y.skip(0) =~= y);
    }
}

/// Split a path into its segments that name something; the flag says whether
/// the first segment is a lone dot.
pub fn named_segments(path: &Vec<u8>) -> (parts: (bool, Vec<Vec<u8>>))
    ensures
        parts.0 == dotted(path@),
        views(parts.1@) == named(path@),
{
    let ghost keep = |s: Seq<u8>| names_something(s);
    let mut dot = false;
    let mut first = true;
    let mut parts: Vec<Vec<u8>> = Vec::new();
    let mut current: Vec<u8> = Vec::new();
    let mut i: usize = 0;
    proof {
        assert(segments(path@.take(0)) =~= seq![Seq::<u8>::empty()]);
        assert(segments(path@.take(0)).drop_last() =~= Seq::<Seq<u8>>::empty());
        reveal(Seq::filter);
        assert(views(parts@) =~= Seq::<Seq<u8>>::empty().filter(keep));
    }
    while i < path.len()
        invariant
            i <= path.len(),
            keep == (|s: Seq<u8>| names_something(s)),
            segments(path@.take(i as int)).len() > 0,
            current@ == segments(path@.take(i as int)).last(),
            first == (segments(path@.take(i as int)).len() == 1),
            !first ==> dot == (segments(path@.take(i as int))[0] == seq![46u8]),
            views(parts@) == segments(path@.take(i as int)).drop_last().filter(keep),
        decreases path.len() - i,
    {
        let byte = path[i];
        let ghost before = segments(path@.take(i as int));
        let ghost after = segments(path@.take(i + 1));
        proof {
            assert(path@.take(i + 1).drop_last() =~= path@.take(i as int));
            assert(path@.take(i + 1).last() == byte);
        }
        if byte == 47 {
            let named = !(current.len() == 0 || (current.len() == 1 && current[0] == 46));
            if first {
                dot = current.len() == 1 && current[0] == 46;
                first = false;
                assert(dot == (current@ == seq![46u8])) by {
                    if dot {
                        assert(current@ =~= seq![46u8]);
                    }
                }
            }
            proof {
                assert(named == names_something(current@)) by {
                    if current@.len() == 1 && current@[0] == 46u8 {
                        assert(current@ =~= seq![46u8]);
                    }
                }
                assert(after.drop_last() =~= before);
                assert(before.drop_last().push(before.last()) =~= before);
                reveal(Seq::filter);
                assert(before.filter(keep) == {
                    let rest = before.drop_last().filter(keep);
                    if keep(before.last()) {
                        rest.push(before.last())
                    } else {
                        rest
                    }
                });
            }
            let mut fresh: Vec<u8> = Vec::new();
            core::mem::swap(&mut current, &mut fresh);
            if named {
                let ghost kept = parts@;
                parts.push(fresh);
                assert(views(parts@) =~= views(kept).push(fresh@));
            }
        } else {
            current.push(byte);
            assert(after.drop_last() =~= before.drop_last());
        }
        i += 1;
    }
    proof {
        assert(path@.take(i as int) =~= path@);
    }
    let ghost all = segments(path@);
    let named = !(current.len() == 0 || (current.len() == 1 && current[0] == 46));
    if first {
        dot = current.len() == 1 && current[0] == 46;
        assert(dot == (current@ == seq![46u8])) by {
            if dot {
                assert(current@ =~= seq![46u8]);
            }
        }
    }
    proof {
        assert(named == names_something(current@)) by {
            if current@.len() == 1 && current@[0] == 46u8 {
                assert(current@ =~= seq![46u8]);
            }
        }
        assert(all.drop_last().push(all.last()) =~= all);
        reveal(Seq::filter);
    }
    if named {
        let ghost kept = parts@;
        let ghost tail = current@;
        parts.push(current);
        assert(views(parts@) =~= views(kept).push(tail));
    }
    (dot, parts)
}

/// Whether two lists of segments are equal.
pub fn same_segments(a: &Vec<Vec<u8>>, b: &Vec<Vec<u8>>) -> (same: bool)
    ensures
        same == (views(a@) == views(b@)),
{
    if a.len() != b.len() {
        assert(views(a@).len() != views(b@).len());
        return false;
    }
    let mut i: usize = 0;
    while i < a.len()
        invariant
            a.len() == b.len(),
            i <= a.len(),
            forall|k: int| 0 <= k < i ==> a@[k]@ == b@[k]@,
        decreases a.len() - i,
    {
        if !same_bytes(&a[i], &b[i]) {
            assert(views(a@)[i as int] == a@[i as int]@);
            assert(views(b@)[i as int] == b@[i as int]@);
            return false;
        }
        i += 1;
    }
    assert(views(a@) =~= views(b@));
    true
}

impl FilePath {
    /// Build a path from its bytes.
    pub fn from_bytes(bytes: Vec<u8>) -> (path: Self)
        ensures
            path@ == bytes@,
    {
        FilePath { bytes }
    }

    /// Build a path from a text.
    pub fn from_text(name: &str) -> (path: Self)
        ensures
            path@ == encode_utf8(name@),
    {
        FilePath { bytes: text::bytes_of(name) }
    }

    /// Path of `name` seen from this directory.
    pub fn join(&self, name: &str) -> (path: Self)
        ensures
            path@ == joined(self@, encode_utf8(name@)),
    {
        let tail = text::bytes_of(name);
        if tail.len() > 0 && tail[0] == 47 {
            return FilePath { bytes: tail };
        }
        let mut bytes = copy_bytes(&self.bytes);
        if bytes.len() > 0 && bytes[bytes.len() - 1] != 47 {
            bytes.push(47);
        }
        let ghost base = bytes@;
        bytes.extend_from_slice(tail.as_slice());
        assert(bytes@ =~= base + tail@);
        FilePath { bytes }
    }

    /// Directory of the path: the path without its last segment. The root and the
    /// empty path have none.
    pub fn parent(&self) -> (directory: Option<Self>)
        ensures
            directory is Some == (named(self@).len() > 0 || dotted(self@)),
            directory matches Some(d) ==> if named(self@).len() > 0 {
                is_directory_of(d@, self@)
            } else {
                d@ == Seq::<u8>::empty()
            },
    {
        let path = &self.bytes;
        let dot = named_segments(path).0;
        let root = path.len() > 0 && path[0] == 47;
        let head: usize = if root || dot {
            1
        } else {
            0
        };
        proof {
            let start = path@.take(head as int);
            if path@.len() > 0 {
                lemma_first_segment(path@);
            }
            lemma_empty_path_names_nothing();
            if head == 1 {
                assert(start.drop_last() =~= Seq::<u8>::empty());
                lemma_named_grows(Seq::<u8>::empty(), path@[0]);
                assert(start =~= Seq::<u8>::empty().push(path@[0]));
            } else {
                assert(start =~= Seq::<u8>::empty());
            }
        }
        // The shortest parts that name all segments so far, and all but the last
        let mut all: usize = head;
        let mut but_last: usize = head;
        let mut count: usize = 0;
        let mut lone_dot = dot;
        let mut inside = false;
        let mut i: usize = head;
        while i < path.len()
            invariant
                head == head_len(path@),
                head <= but_last <= all <= i <= path.len(),
                segments(path@.take(i as int)).len() > 0,
                inside == names_something(segments(path@.take(i as int)).last()),
                lone_dot == (segments(path@.take(i as int)).last() == seq![46u8]),
                count == named(path@.take(i as int)).len(),
                count <= i,
                named(path@.take(all as int)) == named(path@.take(i as int)),
                forall|k: int|
                    head <= k < all ==> #[trigger] named(path@.take(k)) != named(
                        path@.take(i as int),
                    ),
                forall|k: int|
                    head <= k <= i ==> (#[trigger] named(path@.take(k))).len() <= count,
                inside ==> count > 0 && forall|k: int|
                    head <= k <= i && #[trigger] named(path@.take(k)).len() == count ==> named(
                        path@.take(k),
                    ).last().len() <= named(path@.take(i as int)).last().len(),
                count > 0 ==> named(path@.take(but_last as int)) == named(
                    path@.take(i as int),
                ).drop_last(),
                count > 0 ==> forall|k: int|
                    head <= k < but_last ==> #[trigger] named(path@.take(k)) != named(
                        path@.take(i as int),
                    ).drop_last(),
            decreases path.len() - i,
        {
            let byte = path[i];
            proof {
                lemma_named_grows(path@.take(i as int), byte);
                assert(path@.take(i as int).push(byte) =~= path@.take(i + 1));
            }
            let ghost before = segments(path@.take(i as int)).last();
            proof {
                let known = named(path@.take(i as int));
                assert(known.push(before.push(byte)).drop_last() =~= known);
                if known.len() > 0 {
                    let others = known.drop_last();
                    assert(others.push(before.push(byte)).drop_last() =~= others);
                }
                assert(seq![46u8].len() == 1);
                assert(inside ==> before.push(byte).len() > 1);
            }
            if byte == 47 {
                inside = false;
                lone_dot = false;
            } else if inside {
                all = i + 1;
            } else if byte == 46 && !lone_dot {
                proof {
                    assert(before =~= Seq::<u8>::empty());
                    assert(before.push(byte) =~= seq![46u8]);
                }
                lone_dot = true;
            } else {
                proof {
                    if before.len() == 0 {
                        assert(before.push(byte)[0] != 46u8);
                    }
                    assert(names_something(before.push(byte)));
                }
                count += 1;
                but_last = all;
                all = i + 1;
                inside = true;
                lone_dot = false;
            }
            i += 1;
        }
        proof {
            assert(path@.take(i as int) =~= path@);
        }
        if count > 0 {
            let mut kept: Vec<u8> = Vec::new();
            let mut n: usize = 0;
            while n < but_last
                invariant
                    n <= but_last <= path.len(),
                    kept@ == path@.take(n as int),
                decreases but_last - n,
            {
                kept.push(path[n]);
                n += 1;
                assert(kept@ =~= path@.take(n as int));
            }
            Some(FilePath { bytes: kept })
        } else if dot {
            Some(FilePath { bytes: Vec::new() })
        } else {
            None
        }
    }

    /// Whether the path has no bytes.
    pub fn is_empty(&self) -> (empty: bool)
        ensures
            empty == (self@.len() == 0),
    {
        self.bytes.len() == 0
    }

    /// Whether two paths name the same location.
    pub fn same_path(&self, other: &FilePath) -> (same: bool)
        ensures
            same == same_location(self@, other@),
    {
        let rooted_here = self.bytes.len() > 0 && self.bytes[0] == 47;
        let rooted_there = other.bytes.len() > 0 && other.bytes[0] == 47;
        let here = named_segments(&self.bytes);
        let there = named_segments(&other.bytes);
        rooted_here == rooted_there && here.0 == there.0 && same_segments(&here.1, &there.1)
    }

    /// Text of the path, with malformed parts replaced by `U+FFFD`.
    pub fn to_text_lossy(&self) -> (text: String)
        ensures
            text@ == text::displayed(self@),
    {
        text::text_from_utf8_lossy(self.bytes.as_slice())
    }

    /// Text of the path, if its bytes are well-formed UTF-8.
    pub fn to_text(&self) -> (text: Option<String>)
        ensures
            text is Some == valid_utf8(self@),
            text matches Some(t) ==> t@ == decode_utf8(self@),
    {
        text::text_from_utf8(self.bytes.as_slice())
    }
}

impl Clone for FilePath {
    fn clone(&self) -> (copy: Self)
        ensures
            copy@ == self@,
    {
        FilePath { bytes: copy_bytes(&self.bytes) }
    }
}

/// Plain paths are the same location only if they are equal byte for byte.
pub proof fn law_plain_locations_are_told_apart(a: &FilePath, b: &FilePath, same: bool)
    requires
        call_ensures(FilePath::same_path, (a, b), same),
        is_plain(a@),
        is_plain(b@),
    ensures
        same == (a@ == b@),
{
    if same {
        law_plain_paths_differ_in_their_segments(a@, b@);
    }
}

/// Slashes that are repeated or at the end, and lone dots between names, lead to
/// the same location; another name does not.
pub proof fn law_idle_segments_do_not_matter(
    a: &FilePath,
    name: Seq<u8>,
    b: &FilePath,
    same: bool,
)
    requires
        call_ensures(FilePath::same_path, (a, b), same),
        a@.len() > 0,
        !name.contains(47u8),
        b@ == a@.push(47u8) + name,
    ensures
        same == (name.len() == 0 || name == seq![46u8]),
{
    law_names_are_segments(a@, name);
    law_segments_are_what_slashes_part(a@);
    assert(segments(b@)[0] == segments(a@)[0]);
    assert(b@[0] == a@[0]);
    if named(a@) == named(a@).push(name) {
        assert(named(a@).len() == named(a@).push(name).len());
    }
}

/// A file lies in the directory that it was joined to.
pub proof fn law_joined_files_lie_in_their_directory(
    base: &FilePath,
    name: &str,
    file: FilePath,
    directory: Option<FilePath>,
)
    requires
        call_ensures(FilePath::join, (base, name), file),
        call_ensures(FilePath::parent, (&file,), directory),
        base@.len() > 0,
        base@.last() != 47,
        encode_utf8(name@).len() > 0,
        !encode_utf8(name@).contains(47u8),
        encode_utf8(name@) != seq![46u8],
    ensures
        file@ == base@.push(47u8) + encode_utf8(name@),
        directory is Some,
        rooted(directory->0@) == rooted(base@) || directory->0@.len() == 0,
        named(directory->0@) == named(base@),
{
    let tail = encode_utf8(name@);
    if rooted(tail) {
        assert(tail.contains(47u8));
    }
    law_names_are_segments(base@, tail);
    assert(named(file@).drop_last() =~= named(base@));
    let d = directory->0@;
    if d.len() > 0 {
        assert(d[0] == file@[0]);
        assert(file@[0] == base@[0]);
    }
}

/// Joining puts one slash between a directory and a name. A name that starts at the
/// root stands for itself, and so does any name for the empty directory.
pub proof fn law_names_are_joined_with_one_slash(base: &FilePath, name: &str, file: FilePath)
    requires
        call_ensures(FilePath::join, (base, name), file),
    ensures
        ({
            let tail = encode_utf8(name@);
            let absolute = tail.len() > 0 && tail[0] == 47;
            &&& absolute ==> file@ == tail
            &&& base@.len() == 0 ==> file@ == tail
            &&& !absolute && base@.len() > 0 && base@.last() == 47 ==> file@ == base@ + tail
            &&& !absolute && base@.len() > 0 && base@.last() != 47 ==> file@ == base@ + seq![47u8]
                + tail
        }),
{
    let tail = encode_utf8(name@);
    if base@.len() == 0 {
        assert(base@ + tail =~= tail);
    }
    assert(base@.push(47u8) + tail =~= base@ + seq![47u8] + tail);
}

/// A path is the bytes or the text that it was made of.
pub proof fn law_paths_are_what_they_are_made_of(
    bytes: Vec<u8>,
    raw: FilePath,
    name: &str,
    named_path: FilePath,
    text: Option<String>,
    empty: bool,
)
    requires
        call_ensures(FilePath::from_bytes, (bytes,), raw),
        call_ensures(FilePath::from_text, (name,), named_path),
        call_ensures(FilePath::to_text, (&raw,), text),
        call_ensures(FilePath::is_empty, (&raw,), empty),
    ensures
        raw@ == bytes@,
        named_path@ == encode_utf8(name@),
        text is Some == valid_utf8(bytes@),
        text matches Some(t) ==> t@ == decode_utf8(bytes@),
        empty == (bytes@.len() == 0),
{
}

} // verus!
