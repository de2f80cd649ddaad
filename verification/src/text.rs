//! Text primitives: words, prefixes, decimal numbers and substring search,
//! each stated over sequences of characters.

use vstd::prelude::*;

verus! {

/// The ASCII whitespace characters that separate words: space, tab, line
/// feed, form feed and carriage return.
pub open spec fn is_space(c: char) -> bool {
    c == ' ' || c == '\t' || c == '\n' || c == '\x0C' || c == '\r'
}

/// No character of `s` is whitespace.
pub open spec fn unspaced(s: Seq<char>) -> bool {
    forall|i: int| 0 <= i < s.len() ==> !is_space(#[trigger] s[i])
}

/// The maximal runs of non-whitespace characters of `s`, in order: a
/// whitespace character ends a word, any other one extends the word that its
/// predecessor belongs to, or opens a new one.
pub open spec fn words(s: Seq<char>) -> Seq<Seq<char>>
    decreases s.len(),
{
    if s.len() == 0 {
        Seq::empty()
    } else {
        let before = words(s.drop_last());
        if is_space(s.last()) {
            before
        } else if in_word(s.drop_last()) {
            before.update(before.len() - 1, before.last().push(s.last()))
        } else {
            before.push(seq![s.last()])
        }
    }
}

/// `s` ends inside a word.
pub open spec fn in_word(s: Seq<char>) -> bool {
    s.len() > 0 && !is_space(s.last())
}

/// What follows `prefix` in `text`, where `text` begins with it.
pub open spec fn stripped(text: Seq<char>, prefix: Seq<char>) -> Option<Seq<char>> {
    if prefix.is_prefix_of(text) {
        Some(text.skip(prefix.len() as int))
    } else {
        None
    }
}

/// `pattern` occurs somewhere in `text`.
pub open spec fn occurs(text: Seq<char>, pattern: Seq<char>) -> bool {
    exists|i: int| #[trigger] occurs_at(text, pattern, i)
}

/// `pattern` occurs in `text` from position `i` on.
pub open spec fn occurs_at(text: Seq<char>, pattern: Seq<char>, i: int) -> bool {
    &&& 0 <= i <= text.len() - pattern.len()
    &&& text.subrange(i, i + pattern.len()) == pattern
}

/// `c` is one of the ten decimal digits.
pub open spec fn is_digit(c: char) -> bool {
    '0' <= c <= '9'
}

/// The number that the digits of `s` write in base ten.
pub open spec fn decimal_value(s: Seq<char>) -> nat
    decreases s.len(),
{
    if s.len() == 0 {
        0
    } else {
        decimal_value(s.drop_last()) * 10 + (s.last() as nat - '0' as nat) as nat
    }
}

/// The digits of a 16-bit number: an optional plus sign, then at least one
/// digit and nothing else, for a value that fits.
pub open spec fn port_number(s: Seq<char>) -> Option<u16> {
    let digits = past_sign(s);
    if digits.len() > 0 && (forall|i: int| 0 <= i < digits.len() ==> is_digit(#[trigger] digits[i]))
        && decimal_value(digits) <= u16::MAX {
        Some(decimal_value(digits) as u16)
    } else {
        None
    }
}

/// `s` without its leading plus sign, if it has one.
pub open spec fn past_sign(s: Seq<char>) -> Seq<char> {
    if s.len() > 0 && s[0] == '+' {
        s.skip(1)
    } else {
        s
    }
}

/// The digit that writes `d`.
pub open spec fn digit_char(d: nat) -> char
    recommends
        d < 10,
{
    seq!['0', '1', '2', '3', '4', '5', '6', '7', '8', '9'][d as int]
}

/// `n` in base ten, without leading zeros.
pub open spec fn decimal(n: nat) -> Seq<char>
    decreases n,
{
    if n < 10 {
        seq![digit_char(n)]
    } else {
        decimal(n / 10).push(digit_char(n % 10))
    }
}

/// A text that may be missing, as mathematical values.
pub open spec fn optional_text(text: Option<String>) -> Option<Seq<char>> {
    match text {
        Some(text) => Some(text@),
        None => None,
    }
}

/// The characters of `text`, one after the other.
pub fn chars_of(text: &str) -> (chars: Vec<char>)
    ensures
        chars@ == text@,
{
    let mut chars: Vec<char> = Vec::new();
    for c in it: text.chars()
        invariant
            chars@ == it.seq().take(it.index() as int),
            it.seq() == text@,
    {
        chars.push(c);
    }
    chars
}

/// Whether two texts hold the same characters.
pub fn same_text(a: &str, b: &str) -> (same: bool)
    ensures
        same == (a@ == b@),
{
    a.to_owned() == b.to_owned()
}

/// Whether `c` separates words.
pub fn space(c: char) -> (yes: bool)
    ensures
        yes == is_space(c),
{
    c == ' ' || c == '\t' || c == '\n' || c == '\x0C' || c == '\r'
}

/// Where each word of `chars` begins and ends.
pub fn word_ranges(chars: &Vec<char>) -> (ranges: Vec<(usize, usize)>)
    ensures
        ranges.len() == words(chars@).len(),
        forall|k: int|
            0 <= k < ranges.len() ==> (#[trigger] ranges[k]).0 <= ranges[k].1 <= chars.len()
                && words(chars@)[k] == chars@.subrange(ranges[k].0 as int, ranges[k].1 as int),
        forall|j: int, k: int|
            0 <= j < k < ranges.len() ==> (#[trigger] ranges[j]).1 < (#[trigger] ranges[k]).0,
{
    let mut ranges: Vec<(usize, usize)> = Vec::new();
    let mut open: bool = false;
    let mut i: usize = 0;
    while i < chars.len()
        invariant
            i <= chars.len(),
            open == in_word(chars@.take(i as int)),
            ranges.len() == words(chars@.take(i as int)).len(),
            open ==> ranges.len() > 0 && ranges[ranges.len() - 1].1 == i,
            !open && ranges.len() > 0 ==> ranges[ranges.len() - 1].1 < i,
            forall|j: int, k: int|
                0 <= j < k < ranges.len() ==> (#[trigger] ranges[j]).1 < (#[trigger] ranges[k]).0,
            forall|k: int|
                0 <= k < ranges.len() ==> (#[trigger] ranges[k]).0 <= ranges[k].1 <= i
                    && words(chars@.take(i as int))[k] == chars@.subrange(
                    ranges[k].0 as int,
                    ranges[k].1 as int,
                ),
        decreases chars.len() - i,
    {
        let c = chars[i];
        assert(chars@.take(i + 1).drop_last() =~= chars@.take(i as int));
        assert(chars@.take(i + 1).last() == c);
        if space(c) {
            open = false;
        } else if open {
            let last: usize = ranges.len() - 1;
            let begin: usize = ranges[last].0;
            assert(chars@.subrange(begin as int, i + 1) =~= chars@.subrange(
                begin as int,
                i as int,
            ).push(c));
            ranges.set(last, (begin, i + 1));
        } else {
            assert(chars@.subrange(i as int, i + 1) =~= seq![c]);
            ranges.push((i, i + 1));
            open = true;
        }
        i += 1;
    }
    assert(chars@.take(i as int) =~= chars@);
    ranges
}

/// What follows `prefix` in `text`, where `text` begins with it.
pub fn strip_prefix<'a>(text: &'a str, prefix: &str) -> (rest: Option<&'a str>)
    ensures
        match rest {
            Some(tail) => stripped(text@, prefix@) == Some(tail@),
            None => stripped(text@, prefix@) is None,
        },
{
    let chars = chars_of(text);
    let wanted = chars_of(prefix);
    if chars.len() < wanted.len() {
        return None;
    }
    let mut i: usize = 0;
    while i < wanted.len()
        invariant
            i <= wanted.len() <= chars.len(),
            chars@ == text@,
            wanted@ == prefix@,
            chars@.take(i as int) == wanted@.take(i as int),
        decreases wanted.len() - i,
    {
        if chars[i] != wanted[i] {
            assert(text@[i as int] != prefix@[i as int]);
            return None;
        }
        assert(chars@.take(i + 1) =~= chars@.take(i as int).push(chars@[i as int]));
        assert(wanted@.take(i + 1) =~= wanted@.take(i as int).push(wanted@[i as int]));
        i += 1;
    }
    assert(wanted@.take(i as int) =~= prefix@);
    let tail = text.substring_char(wanted.len(), chars.len());
    assert(tail@ =~= text@.skip(prefix@.len() as int));
    Some(tail)
}

/// Whether `pattern` occurs in `text`.
pub fn contains(text: &str, pattern: &str) -> (found: bool)
    ensures
        found == occurs(text@, pattern@),
{
    let chars = chars_of(text);
    let wanted = chars_of(pattern);
    if chars.len() < wanted.len() {
        return false;
    }
    let mut i: usize = 0;
    while i <= chars.len() - wanted.len()
        invariant
            wanted.len() <= chars.len(),
            i <= chars.len() - wanted.len() + 1,
            chars@ == text@,
            wanted@ == pattern@,
            forall|k: int| 0 <= k < i ==> !#[trigger] occurs_at(text@, pattern@, k),
        decreases chars.len() + 1 - i,
    {
        if begins_at(&chars, &wanted, i) {
            return true;
        }
        if i == chars.len() - wanted.len() {
            return false;
        }
        i += 1;
    }
    false
}

/// Whether `wanted` stands in `chars` from position `at` on.
fn begins_at(chars: &Vec<char>, wanted: &Vec<char>, at: usize) -> (here: bool)
    requires
        at + wanted.len() <= chars.len(),
    ensures
        here == occurs_at(chars@, wanted@, at as int),
{
    let mut j: usize = 0;
    while j < wanted.len()
        invariant
            j <= wanted.len(),
            at + wanted.len() <= chars.len(),
            forall|k: int| 0 <= k < j ==> chars@[at + k] == #[trigger] wanted@[k],
        decreases wanted.len() - j,
    {
        if chars[at + j] != wanted[j] {
            assert(chars@.subrange(at as int, at + wanted.len())[j as int] != wanted@[j as int]);
            return false;
        }
        j += 1;
    }
    assert(chars@.subrange(at as int, at + wanted.len()) =~= wanted@);
    true
}

/// The number that the word `chars[from..to]` writes, where it is one and
/// fits into 16 bits.
pub fn read_port(chars: &Vec<char>, from: usize, to: usize) -> (port: Option<u16>)
    requires
        from <= to <= chars.len(),
    ensures
        port == port_number(chars@.subrange(from as int, to as int)),
{
    let ghost word = chars@.subrange(from as int, to as int);
    let first: usize = if from < to && chars[from] == '+' {
        from + 1
    } else {
        from
    };
    let ghost digits = chars@.subrange(first as int, to as int);
    assert(digits =~= past_sign(word));
    if first == to {
        return None;
    }
    let mut value: u32 = 0;
    let mut i: usize = first;
    while i < to
        invariant
            first <= i <= to <= chars.len(),
            word == chars@.subrange(from as int, to as int),
            digits == chars@.subrange(first as int, to as int),
            digits == past_sign(word),
            value == decimal_value(digits.take(i - first)),
            value <= u16::MAX,
            forall|k: int| 0 <= k < i - first ==> is_digit(#[trigger] digits[k]),
        decreases to - i,
    {
        let c = chars[i];
        assert(digits[i - first] == c);
        if c < '0' || c > '9' {
            return None;
        }
        assert(digits.take(i - first + 1).drop_last() =~= digits.take(i - first));
        value = value * 10 + (c as u32 - '0' as u32);
        if value > u16::MAX as u32 {
            proof {
                lemma_decimal_value_grows(digits, i - first + 1);
            }
            return None;
        }
        i += 1;
    }
    assert(digits.take(i - first) =~= digits);
    Some(value as u16)
}

/// Appends `n` in base ten to `out`.
pub fn push_decimal(out: &mut String, n: u16)
    ensures
        final(out)@ == old(out)@ + decimal(n as nat),
    decreases n,
{
    if n >= 10 {
        push_decimal(out, n / 10);
    }
    out.append(digit_text(n % 10));
    assert(out@ =~= old(out)@ + decimal(n as nat));
}

/// The digit that writes `d`, as text.
fn digit_text(d: u16) -> (text: &'static str)
    requires
        d < 10,
    ensures
        text@ == seq![digit_char(d as nat)],
{
    proof {
        reveal_strlit("0");
        reveal_strlit("1");
        reveal_strlit("2");
        reveal_strlit("3");
        reveal_strlit("4");
        reveal_strlit("5");
        reveal_strlit("6");
        reveal_strlit("7");
        reveal_strlit("8");
        reveal_strlit("9");
    }
    match d {
        0 => "0",
        1 => "1",
        2 => "2",
        3 => "3",
        4 => "4",
        5 => "5",
        6 => "6",
        7 => "7",
        8 => "8",
        _ => "9",
    }
}

/// A prefix of a number's digits never writes a larger number than all of
/// them do.
proof fn lemma_decimal_value_grows(digits: Seq<char>, n: int)
    requires
        0 <= n <= digits.len(),
    ensures
        decimal_value(digits.take(n)) <= decimal_value(digits),
    decreases digits.len() - n,
{
    if n < digits.len() {
        lemma_decimal_value_grows(digits, n + 1);
        assert(digits.take(n + 1).drop_last() =~= digits.take(n));
    } else {
        assert(digits.take(n) =~= digits);
    }
}

/// A whitespace character adds no word.
pub proof fn lemma_words_past_space(s: Seq<char>, c: char)
    requires
        is_space(c),
    ensures
        words(s.push(c)) == words(s),
{
    assert(s.push(c).drop_last() =~= s);
}

/// A run of non-whitespace characters after a word boundary is one more word.
pub proof fn lemma_words_append(s: Seq<char>, w: Seq<char>)
    requires
        !in_word(s),
        unspaced(w),
        w.len() > 0,
    ensures
        words(s + w) == words(s).push(w),
    decreases w.len(),
{
    let head = w.drop_last();
    assert((s + w).drop_last() =~= s + head);
    assert((s + w).last() == w.last() == w[w.len() - 1]);
    if head.len() == 0 {
        assert(s + head =~= s);
        assert(w =~= seq![w.last()]);
    } else {
        assert(unspaced(head)) by {
            assert forall|i: int| 0 <= i < head.len() implies !is_space(#[trigger] head[i]) by {
                assert(head[i] == w[i]);
            }
        }
        lemma_words_append(s, head);
        assert((s + head).last() == head.last() == head[head.len() - 1]);
        let before = words(s).push(head);
        assert(head.push(w.last()) =~= w);
        assert(before.update(before.len() - 1, before.last().push(w.last())) =~= words(s).push(w));
    }
}

/// Every word is a non-empty run without whitespace.
pub proof fn lemma_words_are_unspaced(s: Seq<char>)
    ensures
        forall|k: int|
            0 <= k < words(s).len() ==> (#[trigger] words(s)[k]).len() > 0 && unspaced(words(s)[k]),
        in_word(s) ==> words(s).len() > 0,
    decreases s.len(),
{
    if s.len() > 0 {
        lemma_words_are_unspaced(s.drop_last());
        let before = words(s.drop_last());
        if in_word(s.drop_last()) && !is_space(s.last()) {
            let grown = before.last().push(s.last());
            assert(unspaced(before[before.len() - 1]));
            assert(unspaced(grown));
        }
    }
}

/// The decimal digits of `n` read back as `n`, and are a single word.
pub proof fn lemma_decimal_reads_back(n: nat)
    ensures
        decimal(n).len() > 0,
        forall|i: int| 0 <= i < decimal(n).len() ==> is_digit(#[trigger] decimal(n)[i]),
        decimal_value(decimal(n)) == n,
        unspaced(decimal(n)),
        n <= u16::MAX ==> port_number(decimal(n)) == Some(n as u16),
    decreases n,
{
    reveal_with_fuel(decimal_value, 2);
    if n >= 10 {
        lemma_decimal_reads_back(n / 10);
        assert(decimal(n).drop_last() =~= decimal(n / 10));
    } else {
        assert(decimal(n).drop_last() =~= Seq::<char>::empty());
    }
    assert(is_digit(decimal(n)[0]));
}

/// Words are separated by space, tab, line feed, form feed and carriage
/// return, and by nothing else.
pub proof fn law_five_characters_separate_words(c: char, s: Seq<char>)
    ensures
        is_space(c) <==> c as u32 == 32 || c as u32 == 9 || c as u32 == 10 || c as u32 == 12
            || c as u32 == 13,
        unspaced(s) <==> forall|i: int| 0 <= i < s.len() ==> !is_space(#[trigger] s[i]),
{
}

/// Words are split at whitespace and nowhere else: a text without whitespace
/// is one word, no text has no word, and the words around a whitespace
/// character are those before it and those after it.
pub proof fn law_words_are_split_at_whitespace(a: Seq<char>, c: char, b: Seq<char>)
    requires
        is_space(c),
    ensures
        words(Seq::empty()) == Seq::<Seq<char>>::empty(),
        a.len() > 0 && unspaced(a) ==> words(a) == seq![a],
        words(a.push(c) + b) == words(a) + words(b),
    decreases b.len(),
{
    if a.len() > 0 && unspaced(a) {
        lemma_words_append(Seq::empty(), a);
        assert(Seq::<char>::empty() + a =~= a);
        assert(Seq::<Seq<char>>::empty().push(a) =~= seq![a]);
    }
    if b.len() == 0 {
        assert(a.push(c) + b =~= a.push(c));
        lemma_words_past_space(a, c);
        assert(words(a) + words(b) =~= words(a));
    } else {
        let head = b.drop_last();
        law_words_are_split_at_whitespace(a, c, head);
        lemma_words_are_unspaced(head);
        assert((a.push(c) + b).drop_last() =~= a.push(c) + head);
        assert((a.push(c) + b).last() == b.last());
        let joined = words(a) + words(head);
        if is_space(b.last()) {
        } else if in_word(head) {
            assert((a.push(c) + head).last() == head.last());
            assert(joined.last() == words(head).last());
            assert(joined.update(joined.len() - 1, joined.last().push(b.last())) =~= words(a)
                + words(b));
        } else {
            if head.len() == 0 {
                assert((a.push(c) + head).last() == c);
            } else {
                assert((a.push(c) + head).last() == head.last());
            }
            assert(joined.push(seq![b.last()]) =~= words(a) + words(b));
        }
    }
}

/// What follows a prefix is what makes the text up together with it, and a
/// text that a prefix opens always has it.
pub proof fn law_prefix_and_rest_make_the_text(text: Seq<char>, prefix: Seq<char>, rest: Seq<char>)
    ensures
        stripped(prefix + rest, prefix) == Some(rest),
        stripped(text, prefix) matches Some(tail) ==> text == prefix + tail,
{
    assert(prefix.is_prefix_of(prefix + rest));
    assert((prefix + rest).skip(prefix.len() as int) =~= rest);
    if prefix.is_prefix_of(text) {
        assert(text =~= prefix + text.skip(prefix.len() as int));
    }
}

/// A pattern is found wherever it stands in a text, and only where all its
/// characters stand there.
pub proof fn law_pattern_is_found_where_it_stands(
    before: Seq<char>,
    pattern: Seq<char>,
    after: Seq<char>,
    text: Seq<char>,
)
    ensures
        occurs(before + pattern + after, pattern),
        occurs(text, pattern) ==> exists|i: int|
            0 <= i <= text.len() - pattern.len() && #[trigger] text.subrange(i, i + pattern.len())
                == pattern,
{
    let whole = before + pattern + after;
    let i = before.len() as int;
    assert(whole.subrange(i, i + pattern.len()) =~= pattern);
    assert(occurs_at(whole, pattern, i));
    if occurs(text, pattern) {
        let i = choose|i: int| #[trigger] occurs_at(text, pattern, i);
        assert(text.subrange(i, i + pattern.len()) == pattern);
    }
}

/// Digits are read from the left in base ten.
pub proof fn law_digits_are_read_in_base_ten(s: Seq<char>, c: char)
    ensures
        is_digit(c) <==> 48 <= c as u32 <= 57,
        decimal_value(Seq::empty()) == 0,
        is_digit(c) ==> decimal_value(s.push(c)) == 10 * decimal_value(s) + (c as int - 48),
{
    assert(s.push(c).drop_last() =~= s);
}

/// A number is written by its digits in base ten, without leading zeros.
pub proof fn law_number_is_written_in_base_ten(n: nat)
    ensures
        decimal(n).len() > 0,
        forall|i: int| 0 <= i < decimal(n).len() ==> 48 <= (#[trigger] decimal(n)[i]) as u32 <= 57,
        decimal_value(decimal(n)) == n,
        decimal(n)[0] == '0' ==> n == 0 && decimal(n).len() == 1,
    decreases n,
{
    lemma_decimal_reads_back(n);
    assert forall|i: int| 0 <= i < decimal(n).len() implies 48 <= (#[trigger] decimal(n)[i]) as u32
        <= 57 by {
        assert(is_digit(decimal(n)[i]));
    }
    if n >= 10 {
        law_number_is_written_in_base_ten(n / 10);
        assert(decimal(n)[0] == decimal(n / 10)[0]);
    }
}

/// A port is read from its digits, with or without a plus sign, where it fits
/// into 16 bits; nothing else is a port.
pub proof fn law_port_is_read_from_its_digits(s: Seq<char>)
    ensures
        s.len() > 0 && (forall|i: int| 0 <= i < s.len() ==> is_digit(#[trigger] s[i])) ==> {
            &&& decimal_value(s) <= 65535 ==> port_number(s) == Some(decimal_value(s) as u16)
            &&& decimal_value(s) > 65535 ==> port_number(s) is None
            &&& port_number(seq!['+'] + s) == port_number(s)
        },
        port_number(s) is Some ==> s.len() > 0 && is_digit(s.last()) && forall|i: int|
            0 <= i < s.len() ==> is_digit(#[trigger] s[i]) || (i == 0 && s[i] == '+'),
{
    assert((seq!['+'] + s).skip(1) =~= s);
    let digits = past_sign(s);
    if port_number(s) is Some {
        assert(is_digit(digits[digits.len() - 1]));
        assert(s.last() == digits[digits.len() - 1]);
        assert forall|i: int| 0 <= i < s.len() implies is_digit(#[trigger] s[i]) || (i == 0 && s[i]
            == '+') by {
            if s[0] == '+' {
                if i > 0 {
                    assert(s[i] == digits[i - 1]);
                }
            } else {
                assert(s[i] == digits[i]);
            }
        }
    }
    if s.len() > 0 && (forall|i: int| 0 <= i < s.len() ==> is_digit(#[trigger] s[i])) {
        assert(is_digit(s[0]));
    }
}

/// A text that may be missing is shown exactly where it is there.
pub proof fn law_optional_text_is_shown(text: Option<String>)
    ensures
        match text {
            Some(text) => optional_text(Some(text)) == Some(text@),
            None => optional_text(text) is None,
        },
{
}

/// Two texts are the same exactly where their characters are, and the
/// characters of a text are all of it.
pub proof fn law_text_is_its_characters(a: &str, b: &str, same: bool, chars: Vec<char>)
    requires
        call_ensures(same_text, (a, b), same),
        call_ensures(chars_of, (a,), chars),
    ensures
        same <==> a@ == b@,
        chars@ == a@,
{
}

/// A prefix is taken off exactly where it opens the text, and a pattern is
/// found exactly where it stands in the text.
pub proof fn law_prefix_and_pattern_are_looked_for(
    text: &str,
    prefix: &str,
    rest: Option<&str>,
    found: bool,
)
    requires
        call_ensures(strip_prefix, (text, prefix), rest),
        call_ensures(contains, (text, prefix), found),
    ensures
        rest matches Some(tail) ==> text@ == prefix@ + tail@,
        rest is None ==> !prefix@.is_prefix_of(text@),
        found <==> exists|i: int|
            0 <= i <= text@.len() - prefix@.len() && #[trigger] text@.subrange(
                i,
                i + prefix@.len(),
            ) == prefix@,
{
    if let Some(tail) = rest {
        law_prefix_and_rest_make_the_text(text@, prefix@, tail@);
    }
    law_pattern_is_found_where_it_stands(Seq::empty(), prefix@, Seq::empty(), text@);
    if exists|i: int|
        0 <= i <= text@.len() - prefix@.len() && #[trigger] text@.subrange(i, i + prefix@.len())
            == prefix@ {
        let i = choose|i: int|
            0 <= i <= text@.len() - prefix@.len() && #[trigger] text@.subrange(i, i + prefix@.len())
                == prefix@;
        assert(occurs_at(text@, prefix@, i));
    }
}

/// A number is appended in base ten, and what stood there before stays.
pub proof fn law_number_is_appended(out: &mut String, n: u16)
    requires
        call_ensures(push_decimal, (out, n), ()),
    ensures
        final(out)@ == old(out)@ + decimal(n as nat),
{
}

/// The words of a text stand one after the other, apart from each other, and
/// are read where they stand.
pub proof fn law_words_stand_in_order(
    chars: &Vec<char>,
    ranges: Vec<(usize, usize)>,
    from: usize,
    to: usize,
    port: Option<u16>,
)
    requires
        from <= to <= chars@.len(),
        call_ensures(word_ranges, (chars,), ranges),
        call_ensures(read_port, (chars, from, to), port),
    ensures
        ranges@.len() == words(chars@).len(),
        forall|k: int|
            0 <= k < ranges@.len() ==> (#[trigger] ranges@[k]).0 < ranges@[k].1 <= chars@.len()
                && unspaced(chars@.subrange(ranges@[k].0 as int, ranges@[k].1 as int))
                && chars@.subrange(ranges@[k].0 as int, ranges@[k].1 as int) == words(chars@)[k],
        forall|j: int, k: int|
            0 <= j < k < ranges@.len() ==> (#[trigger] ranges@[j]).1 < (#[trigger] ranges@[k]).0,
        port == port_number(chars@.subrange(from as int, to as int)),
{
    lemma_words_are_unspaced(chars@);
    assert forall|k: int| 0 <= k < ranges@.len() implies (#[trigger] ranges@[k]).0 < ranges@[k].1
        <= chars@.len() && unspaced(
        chars@.subrange(ranges@[k].0 as int, ranges@[k].1 as int),
    ) && chars@.subrange(ranges@[k].0 as int, ranges@[k].1 as int) == words(chars@)[k] by {
        assert(words(chars@)[k].len() > 0);
    }
}

} // verus!
