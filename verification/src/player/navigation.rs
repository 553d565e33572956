//! Which queue entry plays next.
use vstd::prelude::*;

verus! {

/// What happens when a track or the queue ends.
#[derive(Debug, Clone, Copy, PartialEq, Eq, Structural)]
pub enum RepeatMode {
    /// The queue ends.
    Off,
    /// The track starts over.
    Track,
    /// The queue starts over.
    All,
}

/// Repeat mode and shuffle, independent of each other.
#[derive(Debug, Clone, Copy, PartialEq, Eq, Structural)]
pub struct PlaybackMode {
    pub repeat: RepeatMode,
    pub shuffle: bool,
}

/// Repeat mode after a step through all of them.
pub open spec fn cycled(mode: RepeatMode) -> RepeatMode {
    match mode {
        RepeatMode::Off => RepeatMode::Track,
        RepeatMode::Track => RepeatMode::All,
        RepeatMode::All => RepeatMode::Off,
    }
}

impl RepeatMode {
    /// Step through the repeat modes.
    pub fn cycle(self) -> (next: Self)
        ensures
            next == cycled(self),
    {
        match self {
            RepeatMode::Off => RepeatMode::Track,
            RepeatMode::Track => RepeatMode::All,
            RepeatMode::All => RepeatMode::Off,
        }
    }
}

impl PlaybackMode {
    /// Repeat mode.
    pub fn repeat(&self) -> (mode: RepeatMode)
        ensures
            mode == self.repeat,
    {
        self.repeat
    }

    /// Whether the queue plays in random order.
    pub fn shuffle(&self) -> (on: bool)
        ensures
            on == self.shuffle,
    {
        self.shuffle
    }
}

/// Three steps through the repeat modes come back to the first.
pub proof fn law_repeat_modes_cycle(mode: RepeatMode)
    ensures
        cycled(cycled(cycled(mode))) == mode,
        cycled(mode) != mode,
{
}

/// Entries that were left behind, and entries that a shuffled pass has not
/// played.
pub struct Navigation {
    pub history: Vec<usize>,
    pub unplayed: Vec<usize>,
}

/// All entries of a queue but one, in order.
pub open spec fn all_but(len: nat, reserved: Option<usize>) -> Seq<usize>
    decreases len,
{
    if len == 0 {
        Seq::empty()
    } else {
        let front = all_but((len - 1) as nat, reserved);
        if reserved == Some((len - 1) as usize) {
            front
        } else {
            front.push((len - 1) as usize)
        }
    }
}

/// Entry after another one, in the order of the queue.
pub open spec fn following(current: usize, len: nat, wrap: bool) -> Option<usize> {
    if current + 1 < len {
        Some((current + 1) as usize)
    } else if wrap && len > 0 {
        Some(0)
    } else {
        None
    }
}

/// Entries that a draw can pick from: those that the pass has not played, or,
/// when a new pass may begin, all but the current one.
pub open spec fn pool(unplayed: Seq<usize>, current: usize, len: nat, refill: bool) -> Seq<usize> {
    if unplayed.len() == 0 && refill {
        all_but(len, Some(current))
    } else {
        unplayed
    }
}

/// Entry that a roll of the dice picks from a pool.
pub open spec fn drawn(pool: Seq<usize>, roll: u64) -> Option<usize> {
    if pool.len() == 0 {
        None
    } else {
        Some(pool[roll as int % (pool.len() as int)])
    }
}

/// Entry that plays when the user skips to the next one.
pub open spec fn next_by_hand(
    mode: PlaybackMode,
    unplayed: Seq<usize>,
    current: usize,
    len: nat,
    roll: u64,
) -> Option<usize> {
    if mode.shuffle {
        drawn(pool(unplayed, current, len, true), roll)
    } else {
        following(current, len, mode.repeat is All)
    }
}

/// Entry that plays when the current one ended.
pub open spec fn next_by_itself(
    mode: PlaybackMode,
    unplayed: Seq<usize>,
    current: usize,
    len: nat,
    roll: u64,
) -> Option<usize> {
    if len == 0 {
        None
    } else if mode.repeat is Track {
        Some(current)
    } else if mode.shuffle {
        drawn(pool(unplayed, current, len, mode.repeat is All), roll)
    } else {
        following(current, len, mode.repeat is All)
    }
}

/// Whether a list holds distinct entries of a queue.
pub open spec fn distinct_entries(list: Seq<usize>, len: nat) -> bool {
    &&& forall|i: int| 0 <= i < list.len() ==> #[trigger] list[i] < len
    &&& forall|i: int, j: int| 0 <= i < j < list.len() ==> list[i] != list[j]
}

/// All entries but one are distinct entries, and the one is not among them.
pub proof fn law_all_but_leaves_one_out(len: nat, reserved: Option<usize>)
    requires
        len <= usize::MAX,
    ensures
        distinct_entries(all_but(len, reserved), len),
        forall|i: int|
            0 <= i < all_but(len, reserved).len() ==> Some(#[trigger] all_but(len, reserved)[i])
                != reserved,
        forall|e: usize|
            e < len && Some(e) != reserved ==> #[trigger] all_but(len, reserved).contains(e),
    decreases len,
{
    if len > 0 {
        law_all_but_leaves_one_out((len - 1) as nat, reserved);
        let front = all_but((len - 1) as nat, reserved);
        let all = all_but(len, reserved);
        assert forall|e: usize| e < len && Some(e) != reserved implies #[trigger] all.contains(
            e,
        ) by {
            if e == len - 1 {
                assert(all[all.len() - 1] == e);
            } else {
                assert(front.contains(e));
                let k = choose|k: int| 0 <= k < front.len() && front[k] == e;
                assert(all[k] == e);
            }
        }
    }
}

/// Skipping in a shuffled queue never plays the same entry twice in a row.
pub proof fn law_draws_never_repeat(unplayed: Seq<usize>, current: usize, len: nat, roll: u64)
    requires
        len <= usize::MAX,
        !unplayed.contains(current),
    ensures
        drawn(pool(unplayed, current, len, true), roll) != Some(current),
{
    law_all_but_leaves_one_out(len, Some(current));
    let from = pool(unplayed, current, len, true);
    if from.len() > 0 {
        let k = roll as int % (from.len() as int);
        assert(0 <= k < from.len());
        if from == unplayed {
            assert(unplayed.contains(from[k]));
        }
    }
}

/// Every entry that is drawn is in the queue.
pub proof fn law_draws_stay_in_the_queue(
    unplayed: Seq<usize>,
    current: usize,
    len: nat,
    refill: bool,
    roll: u64,
)
    requires
        len <= usize::MAX,
        distinct_entries(unplayed, len),
    ensures
        drawn(pool(unplayed, current, len, refill), roll) matches Some(entry) ==> entry < len,
{
    law_all_but_leaves_one_out(len, Some(current));
    let from = pool(unplayed, current, len, refill);
    if from.len() > 0 {
        let k = roll as int % (from.len() as int);
        assert(0 <= k < from.len());
        assert(from[k] < len);
    }
}

/// A shuffled queue with two entries or more always has a next one.
pub proof fn law_shuffled_skip_always_plays(
    mode: PlaybackMode,
    unplayed: Seq<usize>,
    current: usize,
    len: nat,
    roll: u64,
)
    requires
        mode.shuffle,
        2 <= len <= usize::MAX,
    ensures
        next_by_hand(mode, unplayed, current, len, roll) is Some,
{
    law_all_but_leaves_one_out(len, Some(current));
    let other: usize = if current == 0 {
        1
    } else {
        0
    };
    assert(all_but(len, Some(current)).contains(other));
}

/// List without an entry.
pub open spec fn without(list: Seq<usize>, entry: usize) -> Seq<usize>
    decreases list.len(),
{
    if list.len() == 0 {
        list
    } else if list.last() == entry {
        without(list.drop_last(), entry)
    } else {
        without(list.drop_last(), entry).push(list.last())
    }
}

/// A list without an entry holds the others, in order.
pub proof fn law_without_leaves_the_others(list: Seq<usize>, entry: usize)
    ensures
        !without(list, entry).contains(entry),
        forall|e: usize|
            e != entry ==> without(list, entry).contains(e) == #[trigger] list.contains(e),
    decreases list.len(),
{
    if list.len() > 0 {
        let front = list.drop_last();
        law_without_leaves_the_others(front, entry);
        let kept = without(front, entry);
        let all = without(list, entry);
        assert forall|e: usize| e != entry implies all.contains(e) == #[trigger] list.contains(
            e,
        ) by {
            if list.contains(e) {
                let k = choose|k: int| 0 <= k < list.len() && list[k] == e;
                if k == list.len() - 1 {
                    assert(all[all.len() - 1] == e);
                } else {
                    assert(front[k] == e);
                    assert(front.contains(e));
                    let j = choose|j: int| 0 <= j < kept.len() && kept[j] == e;
                    assert(all[j] == e);
                }
            }
            if all.contains(e) {
                let k = choose|k: int| 0 <= k < all.len() && all[k] == e;
                if list.last() != entry && k == all.len() - 1 {
                    assert(list[list.len() - 1] == e);
                } else {
                    assert(kept[k] == e);
                    assert(kept.contains(e));
                    assert(front.contains(e));
                    let j = choose|j: int| 0 <= j < front.len() && front[j] == e;
                    assert(list[j] == e);
                }
            }
        }
        if all.contains(entry) {
            let k = choose|k: int| 0 <= k < all.len() && all[k] == entry;
            if k < kept.len() {
                assert(kept[k] == entry);
                assert(kept.contains(entry));
            }
            assert(false);
        }
    }
}

/// Entries that a queue gained.
pub open spec fn gained(from: nat, to: nat) -> Seq<usize> {
    Seq::new((to - from) as nat, |i: int| (from + i) as usize)
}

/// Entries that a queue gained are distinct from those that it had.
pub proof fn law_gained_entries_are_distinct(list: Seq<usize>, from: nat, to: nat)
    requires
        distinct_entries(list, from),
        from <= to <= usize::MAX,
    ensures
        distinct_entries(list, to),
        distinct_entries(list + gained(from, to), to),
{
}

/// Leaving an entry out keeps the others distinct entries of the queue.
pub proof fn law_without_keeps_distinct(list: Seq<usize>, entry: usize, len: nat)
    requires
        distinct_entries(list, len),
    ensures
        distinct_entries(without(list, entry), len),
        without(list, entry).len() <= list.len(),
    decreases list.len(),
{
    if list.len() > 0 {
        let front = list.drop_last();
        assert forall|i: int| 0 <= i < front.len() implies #[trigger] front[i] < len by {
            assert(front[i] == list[i]);
        }
        assert forall|i: int, j: int| 0 <= i < j < front.len() implies front[i] != front[j] by {
            assert(front[i] == list[i] && front[j] == list[j]);
        }
        law_without_keeps_distinct(front, entry, len);
        law_without_leaves_the_others(front, entry);
        let kept = without(front, entry);
        assert(list[list.len() - 1] < len);
        if list.last() != entry {
            assert forall|i: int| 0 <= i < kept.len() implies kept[i] != list.last() by {
                assert(kept.contains(kept[i]));
                if kept[i] == list.last() {
                    assert(front.contains(list.last()));
                    let k = choose|k: int| 0 <= k < front.len() && front[k] == list.last();
                    assert(list[k] == list[list.len() - 1]);
                }
            }
        }
    }
}

impl Navigation {
    /// Nothing was played yet.
    pub fn new() -> (navigation: Self)
        ensures
            navigation.history@.len() == 0,
            navigation.unplayed@.len() == 0,
    {
        Navigation { history: Vec::new(), unplayed: Vec::new() }
    }

    /// Whether a shuffled pass has not played an entry.
    pub fn unplayed_contains(&self, entry: usize) -> (found: bool)
        ensures
            found == self.unplayed@.contains(entry),
    {
        let mut i: usize = 0;
        while i < self.unplayed.len()
            invariant
                i <= self.unplayed.len(),
                forall|k: int| 0 <= k < i ==> self.unplayed@[k] != entry,
            decreases self.unplayed.len() - i,
        {
            if self.unplayed[i] == entry {
                assert(self.unplayed@.contains(entry));
                return true;
            }
            i += 1;
        }
        false
    }

    /// Number of entries that were left behind.
    pub fn history_len(&self) -> (len: usize)
        ensures
            len == self.history@.len(),
    {
        self.history.len()
    }

    /// Begin a shuffled pass over a queue, with one entry reserved.
    pub fn begin_pass(&mut self, len: usize, reserved: Option<usize>)
        ensures
            final(self).history@ == old(self).history@,
            final(self).unplayed@ == all_but(len as nat, reserved),
    {
        self.unplayed = entries_but(len, reserved);
    }

    /// End the shuffled pass.
    pub fn end_pass(&mut self)
        ensures
            final(self).history@ == old(self).history@,
            final(self).unplayed@.len() == 0,
    {
        self.unplayed = Vec::new();
    }

    /// Start over after the queue changed.
    pub fn rebuild(&mut self, shuffle: bool, len: usize, playing: Option<usize>)
        ensures
            final(self).history@.len() == 0,
            final(self).unplayed@ == if shuffle {
                all_but(len as nat, playing)
            } else {
                Seq::empty()
            },
    {
        self.history = Vec::new();
        self.unplayed = if shuffle {
            entries_but(len, playing)
        } else {
            Vec::new()
        };
        if !shuffle {
            assert(self.unplayed@ =~= Seq::<usize>::empty());
        }
    }

    /// Let a shuffled pass draw entries that the queue gained.
    pub fn grow(&mut self, from: usize, to: usize)
        requires
            from <= to,
        ensures
            final(self).history@ == old(self).history@,
            final(self).unplayed@ == old(self).unplayed@ + gained(from as nat, to as nat),
    {
        let mut next: usize = from;
        assert(self.unplayed@ =~= old(self).unplayed@ + gained(from as nat, from as nat));
        while next < to
            invariant
                from <= next <= to,
                self.history@ == old(self).history@,
                self.unplayed@ == old(self).unplayed@ + gained(from as nat, next as nat),
            decreases to - next,
        {
            self.unplayed.push(next);
            next += 1;
            assert(self.unplayed@ =~= old(self).unplayed@ + gained(from as nat, next as nat));
        }
    }

    /// Note that an entry starts, and which one it leaves behind.
    pub fn started(&mut self, entry: usize, left: Option<usize>)
        ensures
            final(self).history@ == match left {
                Some(previous) if previous != entry => old(self).history@.push(previous),
                _ => old(self).history@,
            },
            final(self).unplayed@ == without(old(self).unplayed@, entry),
    {
        match left {
            Some(previous) => if previous != entry {
                self.history.push(previous);
            },
            None => {},
        }
        let mut kept: Vec<usize> = Vec::new();
        let mut i: usize = 0;
        while i < self.unplayed.len()
            invariant
                i <= self.unplayed.len(),
                kept@ == without(self.unplayed@.take(i as int), entry),
            decreases self.unplayed.len() - i,
        {
            assert(self.unplayed@.take(i + 1).drop_last() =~= self.unplayed@.take(i as int));
            if self.unplayed[i] != entry {
                kept.push(self.unplayed[i]);
            }
            i += 1;
        }
        assert(self.unplayed@.take(i as int) =~= self.unplayed@);
        self.unplayed = kept;
    }

    /// Entry that plays when the user skips to the next one.
    pub fn next_by_hand(&self, mode: PlaybackMode, current: usize, len: usize, roll: u64) -> (next:
        Option<usize>)
        ensures
            next == next_by_hand(mode, self.unplayed@, current, len as nat, roll),
    {
        if mode.shuffle {
            self.draw(current, len, true, roll)
        } else {
            sequential(current, len, mode.repeat == RepeatMode::All)
        }
    }

    /// Entry that plays when the current one ended.
    pub fn next_by_itself(&self, mode: PlaybackMode, current: usize, len: usize, roll: u64) -> (next:
        Option<usize>)
        ensures
            next == next_by_itself(mode, self.unplayed@, current, len as nat, roll),
    {
        if len == 0 {
            None
        } else if mode.repeat == RepeatMode::Track {
            Some(current)
        } else if mode.shuffle {
            self.draw(current, len, mode.repeat == RepeatMode::All, roll)
        } else {
            sequential(current, len, mode.repeat == RepeatMode::All)
        }
    }

    fn draw(&self, current: usize, len: usize, refill: bool, roll: u64) -> (entry: Option<usize>)
        ensures
            entry == drawn(pool(self.unplayed@, current, len as nat, refill), roll),
    {
        if self.unplayed.len() == 0 && refill {
            let fresh = entries_but(len, Some(current));
            if fresh.len() == 0 {
                None
            } else {
                let k: usize = (roll % (fresh.len() as u64)) as usize;
                Some(fresh[k])
            }
        } else if self.unplayed.len() == 0 {
            None
        } else {
            let k: usize = (roll % (self.unplayed.len() as u64)) as usize;
            Some(self.unplayed[k])
        }
    }
}

/// Entry after another one, in the order of the queue.
pub fn sequential(current: usize, len: usize, wrap: bool) -> (next: Option<usize>)
    ensures
        next == following(current, len as nat, wrap),
{
    if len > 0 && current < len - 1 {
        Some(current + 1)
    } else if wrap && len > 0 {
        Some(0)
    } else {
        None
    }
}

fn entries_but(len: usize, reserved: Option<usize>) -> (entries: Vec<usize>)
    ensures
        entries@ == all_but(len as nat, reserved),
{
    let mut entries: Vec<usize> = Vec::new();
    let mut i: usize = 0;
    while i < len
        invariant
            i <= len,
            entries@ == all_but(i as nat, reserved),
        decreases len - i,
    {
        let kept = match reserved {
            Some(entry) => entry != i,
            None => true,
        };
        if kept {
            entries.push(i);
        }
        i += 1;
    }
    entries
}

} // verus!
