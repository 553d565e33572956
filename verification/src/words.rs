//! Words of a text, and what collapsing white space and lowering letters leave
//! of them.
use crate::text;
use vstd::prelude::*;
use vstd::utf8::*;

verus! {

/// Words of a text: its longest parts without white space, in order.
pub open spec fn words(s: Seq<char>) -> Seq<Seq<char>>
    decreases s.len(),
{
    if s.len() == 0 {
        Seq::empty()
    } else {
        let front = words(s.drop_last());
        if text::is_white(s.last()) {
            front
        } else if s.len() >= 2 && !text::is_white(s[s.len() - 2]) {
            front.drop_last().push(front.last().push(s.last()))
        } else {
            front.push(seq![s.last()])
        }
    }
}

/// Words in a row, with one blank between any two.
pub open spec fn spaced(list: Seq<Seq<char>>) -> Seq<char>
    decreases list.len(),
{
    if list.len() == 0 {
        Seq::empty()
    } else if list.len() == 1 {
        list[0]
    } else {
        spaced(list.drop_last()).push(' ') + list.last()
    }
}

/// Whether the only white space of a text is single blanks between words.
pub open spec fn is_tidy(s: Seq<char>) -> bool {
    forall|i: int|
        #![trigger s[i]]
        0 <= i < s.len() && text::is_white(s[i]) ==> {
            &&& s[i] == ' '
            &&& 0 < i < s.len() - 1
            &&& !text::is_white(s[i - 1])
            &&& !text::is_white(s[i + 1])
        }
}

/// Each letter of a text in its small ASCII form.
pub open spec fn ascii_lowered(s: Seq<char>) -> Seq<char> {
    s.map_values(|c: char| text::ascii_lower(c))
}

/// Each of several words in its small ASCII form.
pub open spec fn ascii_lowered_words(list: Seq<Seq<char>>) -> Seq<Seq<char>> {
    list.map_values(|word: Seq<char>| ascii_lowered(word))
}

/// Words have letters and hold no white space.
pub proof fn law_words_are_solid(s: Seq<char>)
    ensures
        s.len() > 0 && !text::is_white(s.last()) ==> words(s).len() > 0,
        forall|k: int, i: int|
            0 <= k < words(s).len() && 0 <= i < words(s)[k].len() ==> !text::is_white(
                #[trigger] words(s)[k][i],
            ),
        forall|k: int| 0 <= k < words(s).len() ==> (#[trigger] words(s)[k]).len() > 0,
    decreases s.len(),
{
    if s.len() > 0 {
        let front = s.drop_last();
        law_words_are_solid(front);
        if s.len() >= 2 {
            assert(front.last() == s[s.len() - 2]);
        }
        assert forall|k: int| 0 <= k < words(s).len() implies {
            &&& (#[trigger] words(s)[k]).len() > 0
            &&& forall|i: int|
                0 <= i < words(s)[k].len() ==> !text::is_white(#[trigger] words(s)[k][i])
        } by {
            if k < words(front).len() {
                let known = words(front)[k];
                assert(known.len() > 0);
                assert forall|i: int| 0 <= i < words(s)[k].len() implies !text::is_white(
                    #[trigger] words(s)[k][i],
                ) by {
                    if i < known.len() {
                        assert(words(s)[k][i] == known[i]);
                    }
                }
            }
        }
    }
}

proof fn lemma_spaced_is_empty(list: Seq<Seq<char>>)
    requires
        forall|k: int| 0 <= k < list.len() ==> (#[trigger] list[k]).len() > 0,
    ensures
        (spaced(list).len() == 0) == (list.len() == 0),
{
}

/// Collapsing the white space of a text leaves its words, with one blank between
/// any two.
pub proof fn law_collapsing_spaces_the_words(s: Seq<char>)
    ensures
        text::collapsed(s) == spaced(words(s)),
    decreases s.len(),
{
    if s.len() > 0 {
        let front = s.drop_last();
        let before = words(front);
        law_collapsing_spaces_the_words(front);
        law_words_are_solid(front);
        lemma_spaced_is_empty(before);
        if text::is_white(s.last()) {
        } else if s.len() >= 2 && !text::is_white(s[s.len() - 2]) {
            assert(front.last() == s[s.len() - 2]);
            assert(words(s).drop_last() =~= before.drop_last());
            assert(spaced(words(s)) =~= spaced(before).push(s.last()));
        } else {
            assert(words(s).drop_last() =~= before);
            if before.len() > 0 {
                assert(spaced(words(s)) =~= spaced(before).push(' ').push(s.last()));
            } else {
                assert(spaced(words(s)) =~= spaced(before).push(s.last()));
            }
        }
    }
}

/// Collapsing white space leaves none outside, and none doubled.
pub proof fn law_collapsed_texts_are_tidy(s: Seq<char>)
    ensures
        is_tidy(text::collapsed(s)),
    decreases s.len(),
{
    if s.len() > 0 {
        law_collapsed_texts_are_tidy(s.drop_last());
    }
}

proof fn lemma_tidy_prefix(s: Seq<char>, n: int)
    requires
        is_tidy(s),
        0 <= n <= s.len(),
    ensures
        text::collapsed(s.take(n)) == if n > 0 && text::is_white(s[n - 1]) {
            s.take(n - 1)
        } else {
            s.take(n)
        },
    decreases n,
{
    if n > 0 {
        lemma_tidy_prefix(s, n - 1);
        assert(s.take(n).drop_last() =~= s.take(n - 1));
        assert(s.take(n).last() == s[n - 1]);
        if text::is_white(s[n - 1]) {
            assert(!text::is_white(s[n - 2]));
        } else if n >= 2 && text::is_white(s[n - 2]) {
            assert(s[n - 2] == ' ' && n - 2 > 0);
            assert(s.take(n - 2).push(' ').push(s[n - 1]) =~= s.take(n));
        } else {
            assert(s.take(n - 1).push(s[n - 1]) =~= s.take(n));
        }
    }
}

/// A tidy text is left alone, so collapsing twice does no more than once.
pub proof fn law_tidy_texts_are_kept(s: Seq<char>)
    ensures
        is_tidy(s) ==> text::collapsed(s) == s,
        text::collapsed(text::collapsed(s)) == text::collapsed(s),
{
    if is_tidy(s) {
        lemma_tidy_prefix(s, s.len() as int);
        assert(s.take(s.len() as int) =~= s);
    }
    let once = text::collapsed(s);
    law_collapsed_texts_are_tidy(s);
    lemma_tidy_prefix(once, once.len() as int);
    assert(once.take(once.len() as int) =~= once);
}

/// Collapsing white space changes no word.
pub proof fn law_collapsing_keeps_the_words(s: Seq<char>)
    ensures
        words(text::collapsed(s)) == words(s),
    decreases s.len(),
{
    if s.len() > 0 {
        let front = s.drop_last();
        let kept = text::collapsed(front);
        law_collapsing_keeps_the_words(front);
        if text::is_white(s.last()) {
        } else if s.len() >= 2 && text::is_white(s[s.len() - 2]) && kept.len() > 0 {
            let parted = kept.push(' ');
            let all = parted.push(s.last());
            assert(all.drop_last() =~= parted);
            assert(parted.drop_last() =~= kept);
            assert(words(parted) == words(kept));
        } else {
            let all = kept.push(s.last());
            assert(all.drop_last() =~= kept);
            if s.len() >= 2 && !text::is_white(s[s.len() - 2]) {
                assert(kept.last() == front.last());
            }
        }
    }
}

/// Which white space separates the words of a text does not matter.
pub proof fn law_white_space_is_interchangeable(a: Seq<char>, b: Seq<char>)
    requires
        a.len() == b.len(),
        forall|i: int|
            #![trigger a[i]]
            #![trigger b[i]]
            0 <= i < a.len() ==> a[i] == b[i] || text::is_white(a[i]) && text::is_white(b[i]),
    ensures
        words(a) == words(b),
    decreases a.len(),
{
    if a.len() > 0 {
        law_white_space_is_interchangeable(a.drop_last(), b.drop_last());
        assert(a[a.len() - 1] == a.last());
        assert(b[b.len() - 1] == b.last());
        if a.len() >= 2 {
            assert(text::is_white(a[a.len() - 2]) == text::is_white(b[b.len() - 2]));
        }
    }
}

/// Lowering ASCII letters lowers each word, and makes and loses no white space.
pub proof fn law_lowering_keeps_the_words_apart(s: Seq<char>)
    ensures
        words(ascii_lowered(s)) == ascii_lowered_words(words(s)),
        is_tidy(s) ==> is_tidy(ascii_lowered(s)),
    decreases s.len(),
{
    let low = ascii_lowered(s);
    if s.len() > 0 {
        let front = s.drop_last();
        law_lowering_keeps_the_words_apart(front);
        law_words_are_solid(front);
        assert(low.drop_last() =~= ascii_lowered(front));
        if !text::is_white(s.last()) && s.len() >= 2 && !text::is_white(s[s.len() - 2]) {
            let before = words(front);
            assert(front.last() == s[s.len() - 2]);
            assert(ascii_lowered(before.last().push(s.last())) =~= ascii_lowered(
                before.last(),
            ).push(low.last()));
            assert(words(low) =~= ascii_lowered_words(words(s)));
        } else if !text::is_white(s.last()) {
            assert(ascii_lowered(seq![s.last()]) =~= seq![low.last()]);
            assert(words(low) =~= ascii_lowered_words(words(s)));
        }
    } else {
        assert(words(low) =~= ascii_lowered_words(words(s)));
    }
    if is_tidy(s) {
        assert forall|i: int| #![trigger low[i]] 0 <= i < low.len() && text::is_white(low[i]) implies {
            &&& low[i] == ' '
            &&& 0 < i < low.len() - 1
            &&& !text::is_white(low[i - 1])
            &&& !text::is_white(low[i + 1])
        } by {
            assert(text::is_white(s[i]));
        }
    }
}

/// Lowering ASCII letters twice does no more than once, and leaves a text ASCII.
pub proof fn law_lowering_is_idempotent(s: Seq<char>)
    ensures
        ascii_lowered(ascii_lowered(s)) == ascii_lowered(s),
        is_ascii_chars(s) ==> is_ascii_chars(ascii_lowered(s)),
{
    assert(ascii_lowered(ascii_lowered(s)) =~= ascii_lowered(s));
}

} // verus!
