//! Text primitives over sequences of characters.
//!
//! Every function here is specified on the mathematical view of a string, a
//! sequence of characters, so callers can reason about what they build without
//! looking at the loops that build it.
use vstd::prelude::*;
use vstd::utf8::*;

verus! {

/// The characters that carry the Unicode `White_Space` property.
pub open spec fn is_white(c: char) -> bool {
    ||| '\u{9}' <= c <= '\u{d}'
    ||| c == '\u{20}'
    ||| c == '\u{85}'
    ||| c == '\u{a0}'
    ||| c == '\u{1680}'
    ||| '\u{2000}' <= c <= '\u{200a}'
    ||| c == '\u{2028}'
    ||| c == '\u{2029}'
    ||| c == '\u{202f}'
    ||| c == '\u{205f}'
    ||| c == '\u{3000}'
}

/// `char::is_whitespace` answers whether a character has the Unicode
/// `White_Space` property, and that property is the list in [`is_white`].
pub assume_specification[ char::is_whitespace ](c: char) -> (white: bool)
    ensures
        white == is_white(c),
;

/// `String::push` appends one character to the end of the string.
pub assume_specification[ String::push ](s: &mut String, c: char)
    ensures
        final(s)@ == old(s)@.push(c),
;

/// Unicode lowercase form of a text, as `str::to_lowercase` computes it.
pub uninterp spec fn lowercase(text: Seq<char>) -> Seq<char>;

/// `str::to_lowercase` maps a text to its Unicode lowercase form. On ASCII
/// text that form replaces each letter `A` to `Z` by its small counterpart and
/// keeps everything else. Of other text it is left unsaid whether the form is its
/// own lowercase form and whether white space stays where it is.
pub assume_specification[ str::to_lowercase ](s: &str) -> (lower: String)
    ensures
        lower@ == lowercase(s@),
        is_ascii_chars(s@) ==> lower@ == s@.map_values(|c: char| ascii_lower(c)),
;

/// A text in small letters: letter by letter on ASCII text, else as Unicode
/// has it.
pub open spec fn lowered(s: Seq<char>) -> Seq<char> {
    if is_ascii_chars(s) {
        s.map_values(|c: char| ascii_lower(c))
    } else {
        lowercase(s)
    }
}

/// `String::from_utf8` accepts exactly the well-formed UTF-8 sequences and
/// returns the text that they encode.
#[verifier::external_body]
pub(crate) fn text_from_utf8(bytes: &[u8]) -> (text: Option<String>)
    ensures
        text is Some == valid_utf8(bytes@),
        text matches Some(t) ==> t@ == decode_utf8(bytes@),
{
    String::from_utf8(bytes.to_vec()).ok()
}

/// Text that `String::from_utf8_lossy` reads from a byte sequence.
pub uninterp spec fn lossy_text(bytes: Seq<u8>) -> Seq<char>;

/// `String::from_utf8_lossy` decodes well-formed UTF-8 exactly and replaces
/// malformed parts by `U+FFFD`.
#[verifier::external_body]
pub(crate) fn text_from_utf8_lossy(bytes: &[u8]) -> (text: String)
    ensures
        text@ == lossy_text(bytes@),
        valid_utf8(bytes@) ==> text@ == decode_utf8(bytes@),
{
    String::from_utf8_lossy(bytes).into_owned()
}

/// Text that stands for a byte sequence: what it encodes, or, where it is
/// malformed, what can be read of it.
pub open spec fn displayed(bytes: Seq<u8>) -> Seq<char> {
    if valid_utf8(bytes) {
        decode_utf8(bytes)
    } else {
        lossy_text(bytes)
    }
}

/// Small counterpart of an ASCII letter; every other character is itself.
pub open spec fn ascii_lower(c: char) -> char {
    if 'A' <= c <= 'Z' {
        (c as u32 + 32) as char
    } else {
        c
    }
}

/// Equality of two texts up to the case of ASCII letters.
pub open spec fn same_ignoring_ascii_case(a: Seq<char>, b: Seq<char>) -> bool {
    a.map_values(|c: char| ascii_lower(c)) == b.map_values(|c: char| ascii_lower(c))
}

/// The text without its leading white space.
pub open spec fn trimmed_start(s: Seq<char>) -> Seq<char>
    decreases s.len(),
{
    if s.len() > 0 && is_white(s[0]) {
        trimmed_start(s.drop_first())
    } else {
        s
    }
}

/// The text without its trailing white space.
pub open spec fn trimmed_end(s: Seq<char>) -> Seq<char>
    decreases s.len(),
{
    if s.len() > 0 && is_white(s.last()) {
        trimmed_end(s.drop_last())
    } else {
        s
    }
}

/// The text without leading and trailing white space.
pub open spec fn trimmed(s: Seq<char>) -> Seq<char> {
    trimmed_end(trimmed_start(s))
}

/// The text with leading and trailing white space removed and every inner run
/// of white space replaced by one blank.
pub open spec fn collapsed(s: Seq<char>) -> Seq<char>
    decreases s.len(),
{
    if s.len() == 0 {
        s
    } else if is_white(s.last()) {
        collapsed(s.drop_last())
    } else if s.len() >= 2 && is_white(s[s.len() - 2]) && collapsed(s.drop_last()).len() > 0 {
        collapsed(s.drop_last()).push(' ').push(s.last())
    } else {
        collapsed(s.drop_last()).push(s.last())
    }
}

/// Collect the characters of a text.
pub fn chars_of(text: &str) -> (chars: Vec<char>)
    ensures
        chars@ == text@,
{
    let mut chars: Vec<char> = Vec::new();
    for c in it: text.chars()
        invariant
            chars@ == it.seq().take(it.index()),
            it.seq() == text@,
    {
        chars.push(c);
    }
    chars
}

/// Build a text from characters.
pub fn text_of(chars: &Vec<char>) -> (text: String)
    ensures
        text@ == chars@,
{
    let mut text = String::new();
    let mut i: usize = 0;
    while i < chars.len()
        invariant
            i <= chars.len(),
            text@ == chars@.take(i as int),
        decreases chars.len() - i,
    {
        text.push(chars[i]);
        i += 1;
    }
    text
}

/// UTF-8 encoding of a text.
pub fn bytes_of(text: &str) -> (bytes: Vec<u8>)
    ensures
        bytes@ == encode_utf8(text@),
{
    let mut bytes: Vec<u8> = Vec::new();
    bytes.extend_from_slice(text.as_bytes());
    assert(bytes@ =~= encode_utf8(text@));
    bytes
}

/// Whether two texts are equal.
pub fn same_text(a: &str, b: &str) -> (same: bool)
    ensures
        same == (a@ == b@),
{
    same_chars(&chars_of(a), &chars_of(b))
}

/// Whether two character sequences are equal.
pub fn same_chars(a: &Vec<char>, b: &Vec<char>) -> (same: bool)
    ensures
        same == (a@ == b@),
{
    if a.len() != b.len() {
        return false;
    }
    let mut i: usize = 0;
    while i < a.len()
        invariant
            a.len() == b.len(),
            i <= a.len(),
            a@.take(i as int) == b@.take(i as int),
        decreases a.len() - i,
    {
        if a[i] != b[i] {
            return false;
        }
        assert(a@.take(i + 1) =~= b@.take(i + 1)) by {
            assert(a@.take(i + 1) =~= a@.take(i as int).push(a@[i as int]));
            assert(b@.take(i + 1) =~= b@.take(i as int).push(b@[i as int]));
        }
        i += 1;
    }
    assert(a@.take(i as int) =~= a@ && b@.take(i as int) =~= b@);
    true
}

/// Whether two character sequences are equal up to the case of ASCII letters.
pub fn equal_ignoring_ascii_case(a: &Vec<char>, b: &Vec<char>) -> (same: bool)
    ensures
        same == same_ignoring_ascii_case(a@, b@),
{
    let ghost fold = |c: char| ascii_lower(c);
    if a.len() != b.len() {
        assert(a@.map_values(fold).len() != b@.map_values(fold).len());
        return false;
    }
    let mut i: usize = 0;
    while i < a.len()
        invariant
            a.len() == b.len(),
            i <= a.len(),
            fold == (|c: char| ascii_lower(c)),
            forall|k: int| 0 <= k < i ==> ascii_lower(a@[k]) == ascii_lower(b@[k]),
        decreases a.len() - i,
    {
        if to_ascii_lower(a[i]) != to_ascii_lower(b[i]) {
            assert(a@.map_values(fold)[i as int] == ascii_lower(a@[i as int]));
            assert(b@.map_values(fold)[i as int] == ascii_lower(b@[i as int]));
            return false;
        }
        i += 1;
    }
    assert(a@.map_values(fold) =~= b@.map_values(fold));
    true
}

/// Small counterpart of an ASCII letter; every other character is itself.
pub fn to_ascii_lower(c: char) -> (lower: char)
    ensures
        lower == ascii_lower(c),
{
    if 'A' <= c && c <= 'Z' {
        ((c as u8) + 32) as char
    } else {
        c
    }
}

/// Remove leading white space.
pub fn trim_start(chars: &Vec<char>) -> (kept: Vec<char>)
    ensures
        kept@ == trimmed_start(chars@),
{
    let mut from: usize = 0;
    assert(chars@.skip(0) =~= chars@);
    while from < chars.len() && chars[from].is_whitespace()
        invariant
            from <= chars.len(),
            trimmed_start(chars@.skip(from as int)) == trimmed_start(chars@),
        decreases chars.len() - from,
    {
        assert(chars@.skip(from as int).drop_first() =~= chars@.skip(from + 1));
        from += 1;
    }
    copy_range(chars, from, chars.len())
}

/// Remove leading and trailing white space.
pub fn trim(chars: &Vec<char>) -> (kept: Vec<char>)
    ensures
        kept@ == trimmed(chars@),
{
    let start = trim_start(chars);
    let mut to: usize = start.len();
    assert(start@.take(to as int) =~= start@);
    while to > 0 && start[to - 1].is_whitespace()
        invariant
            to <= start.len(),
            trimmed_end(start@.take(to as int)) == trimmed_end(start@),
        decreases to,
    {
        assert(start@.take(to as int).drop_last() =~= start@.take(to - 1));
        to -= 1;
    }
    copy_range(&start, 0, to)
}

/// Copy a range of characters.
pub fn copy_range(chars: &Vec<char>, from: usize, to: usize) -> (part: Vec<char>)
    requires
        from <= to <= chars.len(),
    ensures
        part@ == chars@.subrange(from as int, to as int),
{
    let mut part: Vec<char> = Vec::new();
    let mut i: usize = from;
    while i < to
        invariant
            from <= i <= to <= chars.len(),
            part@ == chars@.subrange(from as int, i as int),
        decreases to - i,
    {
        part.push(chars[i]);
        i += 1;
    }
    part
}

/// Trim the text and replace every inner run of white space by one blank.
pub fn collapse(chars: &Vec<char>) -> (out: Vec<char>)
    ensures
        out@ == collapsed(chars@),
{
    let mut out: Vec<char> = Vec::new();
    let mut i: usize = 0;
    while i < chars.len()
        invariant
            i <= chars.len(),
            out@ == collapsed(chars@.take(i as int)),
        decreases chars.len() - i,
    {
        let c = chars[i];
        proof {
            assert(chars@.take(i + 1).drop_last() =~= chars@.take(i as int));
        }
        if !c.is_whitespace() {
            if i > 0 && chars[i - 1].is_whitespace() && out.len() > 0 {
                out.push(' ');
            }
            out.push(c);
        }
        i += 1;
    }
    assert(chars@.take(i as int) =~= chars@);
    out
}

/// Whether a character is a decimal digit.
pub open spec fn is_digit(c: char) -> bool {
    '0' <= c <= '9'
}

/// Number that a sequence of decimal digits denotes.
pub open spec fn digits_value(digits: Seq<char>) -> nat
    decreases digits.len(),
{
    if digits.len() == 0 {
        0
    } else {
        digits_value(digits.drop_last()) * 10 + (digits.last() as u32 - '0' as u32) as nat
    }
}

/// The digits of an unsigned number: what follows an optional plus sign.
pub open spec fn unsigned_digits(s: Seq<char>) -> Seq<char> {
    if s.len() > 0 && s[0] == '+' {
        s.drop_first()
    } else {
        s
    }
}

/// Number that an unsigned decimal denotes: an optional plus sign and at least
/// one digit, with a value of at most `max`.
pub open spec fn decimal(s: Seq<char>, max: nat) -> Option<nat> {
    let digits = unsigned_digits(s);
    if digits.len() > 0 && (forall|i: int| 0 <= i < digits.len() ==> is_digit(#[trigger] digits[i]))
        && digits_value(digits) <= max {
        Some(digits_value(digits))
    } else {
        None
    }
}

/// Longer numbers are no smaller than their prefixes.
proof fn lemma_digits_value_grows(digits: Seq<char>, n: int)
    requires
        0 <= n <= digits.len(),
        forall|i: int| 0 <= i < digits.len() ==> is_digit(#[trigger] digits[i]),
    ensures
        digits_value(digits.take(n)) <= digits_value(digits),
    decreases digits.len() - n,
{
    if n == digits.len() {
        assert(digits.take(n) =~= digits);
    } else {
        assert(digits.take(n + 1).drop_last() =~= digits.take(n));
        assert(is_digit(digits[n]));
        lemma_digits_value_grows(digits, n + 1);
    }
}

/// Read an unsigned decimal of at most `max`.
pub fn parse_decimal(chars: &Vec<char>, max: u64) -> (value: Option<u64>)
    ensures
        value is Some == decimal(chars@, max as nat) is Some,
        value matches Some(v) ==> decimal(chars@, max as nat) == Some(v as nat),
{
    let from: usize = if chars.len() > 0 && chars[0] == '+' {
        1
    } else {
        0
    };
    let ghost digits = unsigned_digits(chars@);
    assert(digits =~= chars@.skip(from as int));
    if from == chars.len() {
        return None;
    }
    let mut value: u64 = 0;
    let mut i: usize = from;
    while i < chars.len()
        invariant
            from <= i <= chars.len(),
            digits == chars@.skip(from as int),
            digits == unsigned_digits(chars@),
            forall|k: int| 0 <= k < i - from ==> is_digit(#[trigger] digits[k]),
            value == digits_value(digits.take(i - from)),
            value <= max,
        decreases chars.len() - i,
    {
        let c = chars[i];
        assert(digits[i - from] == c);
        if !(('0' <= c) && (c <= '9')) {
            return None;
        }
        let digit: u64 = c as u64 - '0' as u64;
        proof {
            assert(digits.take(i - from + 1).drop_last() =~= digits.take(i - from));
            assert(digits_value(digits.take(i - from + 1)) == value * 10 + digit);
        }
        if value > max / 10 || digit > max - value * 10 {
            proof {
                if forall|k: int| 0 <= k < digits.len() ==> is_digit(#[trigger] digits[k]) {
                    lemma_digits_value_grows(digits, i - from + 1);
                }
            }
            return None;
        }
        value = value * 10 + digit;
        i += 1;
    }
    assert(digits.take(i - from) =~= digits);
    Some(value)
}

/// Decimal digits of a number, without leading zeros.
pub open spec fn decimal_text(n: nat) -> Seq<char>
    decreases n,
{
    let digit = ('0' as u32 + n % 10) as char;
    if n < 10 {
        seq![digit]
    } else {
        decimal_text(n / 10).push(digit)
    }
}

/// Render a number in decimal digits.
pub fn decimal_chars(n: u64) -> (chars: Vec<char>)
    ensures
        chars@ == decimal_text(n as nat),
    decreases n,
{
    let digit: char = (48 + (n % 10) as u8) as char;
    if n < 10 {
        vec![digit]
    } else {
        let mut chars = decimal_chars(n / 10);
        chars.push(digit);
        chars
    }
}

/// Append characters to a text.
pub fn append_chars(s: &mut String, chars: &Vec<char>)
    ensures
        final(s)@ == old(s)@ + chars@,
{
    let mut i: usize = 0;
    assert(s@ =~= old(s)@ + chars@.take(0));
    while i < chars.len()
        invariant
            i <= chars.len(),
            s@ == old(s)@ + chars@.take(i as int),
        decreases chars.len() - i,
    {
        s.push(chars[i]);
        assert(s@ =~= old(s)@ + chars@.take(i + 1));
        i += 1;
    }
    assert(chars@.take(i as int) =~= chars@);
}

/// Append a number in decimal digits to a text.
pub fn append_decimal(s: &mut String, n: u64)
    ensures
        final(s)@ == old(s)@ + decimal_text(n as nat),
{
    append_chars(s, &decimal_chars(n));
}

/// A rendered number reads back as the same number.
pub proof fn law_decimal_text_reads_back(n: nat, max: nat)
    requires
        n <= max,
    ensures
        decimal(decimal_text(n), max) == Some(n),
{
    lemma_decimal_text_is_digits(n);
    assert(decimal_text(n)[0] != '+');
    assert(unsigned_digits(decimal_text(n)) == decimal_text(n));
}

/// A rendered number consists of digits that denote it.
pub proof fn lemma_decimal_text_is_digits(n: nat)
    ensures
        decimal_text(n).len() > 0,
        forall|i: int| 0 <= i < decimal_text(n).len() ==> is_digit(#[trigger] decimal_text(n)[i]),
        digits_value(decimal_text(n)) == n,
    decreases n,
{
    let digit = ('0' as u32 + n % 10) as char;
    assert(is_digit(digit));
    if n < 10 {
        assert(decimal_text(n).drop_last() =~= Seq::<char>::empty());
        assert(digits_value(decimal_text(n).drop_last()) == 0);
    } else {
        lemma_decimal_text_is_digits(n / 10);
        assert(decimal_text(n).drop_last() =~= decimal_text(n / 10));
    }
}

/// End of the first line: the position of the first line feed, or the end.
pub open spec fn line_end(s: Seq<char>) -> int
    decreases s.len(),
{
    if s.len() == 0 || s[0] == '\n' {
        0
    } else {
        1 + line_end(s.drop_first())
    }
}

/// First line, without its line feed and a carriage return before that.
pub open spec fn first_line(s: Seq<char>) -> Seq<char> {
    let end = line_end(s);
    if end < s.len() && end > 0 && s[end - 1] == '\r' {
        s.take(end - 1)
    } else {
        s.take(end)
    }
}

/// What follows a label on the first line that starts with it, up to white
/// space before the label.
pub open spec fn labelled(s: Seq<char>, label: Seq<char>) -> Option<Seq<char>>
    decreases s.len(),
    via labelled_decreases
{
    if s.len() == 0 {
        None
    } else {
        let line = trimmed_start(first_line(s));
        if label.is_prefix_of(line) {
            Some(line.skip(label.len() as int))
        } else if line_end(s) < s.len() {
            labelled(s.skip(line_end(s) + 1), label)
        } else {
            None
        }
    }
}

#[via_fn]
proof fn labelled_decreases(s: Seq<char>, label: Seq<char>) {
    lemma_line_end(s);
}

/// The end of the first line lies within the text, and there is no line feed
/// before it.
proof fn lemma_line_end(s: Seq<char>)
    ensures
        0 <= line_end(s) <= s.len(),
        line_end(s) < s.len() ==> s[line_end(s)] == '\n',
        forall|i: int| 0 <= i < line_end(s) ==> s[i] != '\n',
    decreases s.len(),
{
    if s.len() > 0 && s[0] != '\n' {
        let rest = s.drop_first();
        lemma_line_end(rest);
        assert forall|i: int| 0 <= i < line_end(s) implies s[i] != '\n' by {
            if i > 0 {
                assert(s[i] == rest[i - 1]);
            }
        }
    }
}

/// A position is the end of the first line if no line feed is before it and it
/// is a line feed or the end.
pub proof fn lemma_line_end_is(s: Seq<char>, end: int)
    requires
        0 <= end <= s.len(),
        forall|i: int| 0 <= i < end ==> s[i] != '\n',
        end < s.len() ==> s[end] == '\n',
    ensures
        line_end(s) == end,
    decreases s.len(),
{
    if end > 0 {
        let rest = s.drop_first();
        assert forall|i: int| 0 <= i < end - 1 implies rest[i] != '\n' by {
            assert(rest[i] == s[i + 1]);
        }
        lemma_line_end_is(rest, end - 1);
    }
}

/// Whether a character sequence starts with another.
pub fn starts_with(chars: &Vec<char>, prefix: &Vec<char>) -> (answer: bool)
    ensures
        answer == prefix@.is_prefix_of(chars@),
{
    if prefix.len() > chars.len() {
        return false;
    }
    let mut i: usize = 0;
    while i < prefix.len()
        invariant
            prefix.len() <= chars.len(),
            i <= prefix.len(),
            forall|k: int| 0 <= k < i ==> prefix@[k] == chars@[k],
        decreases prefix.len() - i,
    {
        if chars[i] != prefix[i] {
            assert(chars@.subrange(0, prefix@.len() as int)[i as int] == chars@[i as int]);
            return false;
        }
        i += 1;
    }
    assert(prefix@ =~= chars@.subrange(0, prefix@.len() as int));
    true
}

/// Find what follows a label on the first line that starts with it.
pub fn find_labelled(chars: &Vec<char>, label: &Vec<char>) -> (found: Option<Vec<char>>)
    ensures
        found is Some == labelled(chars@, label@) is Some,
        found matches Some(rest) ==> labelled(chars@, label@) == Some(rest@),
{
    let mut from: usize = 0;
    assert(chars@.skip(0) =~= chars@);
    while from < chars.len()
        invariant
            from <= chars.len(),
            labelled(chars@.skip(from as int), label@) == labelled(chars@, label@),
        decreases chars.len() - from,
    {
        let ghost here = chars@.skip(from as int);
        let mut end: usize = from;
        while end < chars.len() && chars[end] != '\n'
            invariant
                from <= end <= chars.len(),
                forall|k: int| from <= k < end ==> chars@[k] != '\n',
            decreases chars.len() - end,
        {
            end += 1;
        }
        proof {
            lemma_line_end_is(here, end - from);
        }
        let stop: usize = if end < chars.len() && end > from && chars[end - 1] == '\r' {
            end - 1
        } else {
            end
        };
        let line = copy_range(chars, from, stop);
        assert(line@ =~= first_line(here));
        let line = trim_start(&line);
        if starts_with(&line, label) {
            let rest = copy_range(&line, label.len(), line.len());
            assert(rest@ =~= line@.skip(label@.len() as int));
            return Some(rest);
        }
        if end >= chars.len() {
            return None;
        }
        assert(here.skip(line_end(here) + 1) =~= chars@.skip(end + 1));
        from = end + 1;
    }
    assert(chars@.skip(from as int).len() == 0);
    None
}

/// White space before a text that begins with something else is all that trimming
/// its start takes away.
pub proof fn lemma_trimmed_start_is(indent: Seq<char>, kept: Seq<char>)
    requires
        forall|i: int| 0 <= i < indent.len() ==> is_white(#[trigger] indent[i]),
        kept.len() > 0 ==> !is_white(kept[0]),
    ensures
        trimmed_start(indent + kept) == kept,
    decreases indent.len(),
{
    let whole = indent + kept;
    if indent.len() == 0 {
        assert(whole =~= kept);
    } else {
        assert(whole[0] == indent[0]);
        let rest = indent.drop_first();
        assert(whole.drop_first() =~= rest + kept);
        assert forall|i: int| 0 <= i < rest.len() implies is_white(#[trigger] rest[i]) by {
            assert(rest[i] == indent[i + 1]);
        }
        lemma_trimmed_start_is(rest, kept);
    }
}

/// White space behind a text that ends with something else is all that trimming
/// its end takes away.
pub proof fn lemma_trimmed_end_is(kept: Seq<char>, tail: Seq<char>)
    requires
        forall|i: int| 0 <= i < tail.len() ==> is_white(#[trigger] tail[i]),
        kept.len() > 0 ==> !is_white(kept.last()),
    ensures
        trimmed_end(kept + tail) == kept,
    decreases tail.len(),
{
    let whole = kept + tail;
    if tail.len() == 0 {
        assert(whole =~= kept);
    } else {
        assert(whole.last() == tail[tail.len() - 1]);
        let rest = tail.drop_last();
        assert(whole.drop_last() =~= kept + rest);
        assert forall|i: int| 0 <= i < rest.len() implies is_white(#[trigger] rest[i]) by {
            assert(rest[i] == tail[i]);
        }
        lemma_trimmed_end_is(kept, rest);
    }
}

/// Trimming takes the white space at both ends away and nothing else.
pub proof fn law_trimming_takes_outer_white_space(
    indent: Seq<char>,
    kept: Seq<char>,
    tail: Seq<char>,
    chars: &Vec<char>,
    out: Vec<char>,
)
    requires
        call_ensures(trim, (chars,), out),
        chars@ == indent + kept + tail,
        forall|i: int| 0 <= i < indent.len() ==> is_white(#[trigger] indent[i]),
        forall|i: int| 0 <= i < tail.len() ==> is_white(#[trigger] tail[i]),
        kept.len() > 0 ==> !is_white(kept[0]) && !is_white(kept.last()),
    ensures
        out@ == kept,
{
    if kept.len() == 0 {
        let blank = indent + tail;
        assert(chars@ =~= blank + Seq::<char>::empty());
        assert forall|i: int| 0 <= i < blank.len() implies is_white(#[trigger] blank[i]) by {
            if i >= indent.len() {
                assert(is_white(tail[i - indent.len()]));
            }
        }
        lemma_trimmed_start_is(blank, Seq::<char>::empty());
        assert(out@ =~= kept);
    } else {
        assert(chars@ =~= indent + (kept + tail));
        assert((kept + tail)[0] == kept[0]);
        lemma_trimmed_start_is(indent, kept + tail);
        lemma_trimmed_end_is(kept, tail);
    }
}

/// A number that is written is read back, as long as it is not larger than it may
/// be. It is written with digits alone, the last of which is its remainder by ten.
pub proof fn law_written_numbers_are_read_back(
    n: u64,
    chars: Vec<char>,
    max: u64,
    value: Option<u64>,
)
    requires
        call_ensures(decimal_chars, (n,), chars),
        call_ensures(parse_decimal, (&chars, max), value),
    ensures
        value == if n <= max {
            Some(n)
        } else {
            None
        },
        chars@.len() > 0,
        chars@.last() as u32 == 48 + n % 10,
        forall|i: int| 0 <= i < chars@.len() ==> '0' <= #[trigger] chars@[i] <= '9',
        n >= 10 ==> chars@[0] != '0',
{
    lemma_decimal_text_is_digits(n as nat);
    lemma_written_value(n as nat);
    if n <= max {
        law_decimal_text_reads_back(n as nat, max as nat);
    }
}

proof fn lemma_written_value(n: nat)
    ensures
        digits_value(decimal_text(n)) == n,
        decimal_text(n).len() > 0,
        unsigned_digits(decimal_text(n)) == decimal_text(n),
        decimal_text(n).last() as u32 == 48 + n % 10,
        n > 0 ==> decimal_text(n)[0] != '0',
    decreases n,
{
    lemma_decimal_text_is_digits(n);
    if n >= 10 {
        lemma_written_value(n / 10);
        assert(decimal_text(n).drop_last() =~= decimal_text(n / 10));
    }
    assert(is_digit(decimal_text(n)[0]));
}

/// Two texts are equal up to case exactly if each letter is, and the case of
/// letters outside ASCII counts.
pub proof fn law_ascii_case_is_ignored(a: &Vec<char>, b: &Vec<char>, same: bool)
    requires
        call_ensures(equal_ignoring_ascii_case, (a, b), same),
    ensures
        same ==> a@.len() == b@.len(),
        same ==> forall|i: int|
            #![trigger a@[i]]
            0 <= i < a@.len() ==> a@[i] == b@[i] || a@[i] as u32 == b@[i] as u32 + 32 || b@[i] as u32
                == a@[i] as u32 + 32,
        a@ == b@ ==> same,
        same && a@ != b@ ==> exists|i: int|
            #![trigger a@[i]]
            0 <= i < a@.len() && ('A' <= a@[i] <= 'Z' || 'A' <= b@[i] <= 'Z'),
{
    let x = a@.map_values(|c: char| ascii_lower(c));
    let y = b@.map_values(|c: char| ascii_lower(c));
    if same {
        assert(x.len() == y.len());
        assert forall|i: int| #![trigger a@[i]] 0 <= i < a@.len() implies a@[i] == b@[i]
            || a@[i] as u32 == b@[i] as u32 + 32 || b@[i] as u32 == a@[i] as u32 + 32 by {
            assert(x[i] == y[i]);
        }
        if a@ != b@ {
            if forall|i: int| #![trigger a@[i]] 0 <= i < a@.len() ==> a@[i] == b@[i] {
                assert(a@ =~= b@);
            }
            let i = choose|i: int| #![trigger a@[i]] 0 <= i < a@.len() && a@[i] != b@[i];
            assert(x[i] == y[i]);
        }
    }
}

} // verus!
