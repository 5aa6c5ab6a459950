//! Text handling over the characters of a string.

use vstd::prelude::*;
#[allow(unused_imports)]
use vstd::utf8::*;

verus! {

/// `pattern` stands in `s` at character position `at`.
pub open spec fn matches_at(s: Seq<char>, pattern: Seq<char>, at: int) -> bool {
    &&& 0 <= at
    &&& at + pattern.len() <= s.len()
    &&& s.subrange(at, at + pattern.len()) == pattern
}

/// `pattern` occurs somewhere in `s`.
pub open spec fn occurs(s: Seq<char>, pattern: Seq<char>) -> bool {
    exists|at: int| matches_at(s, pattern, at)
}

/// The first place in `s`, from `from` on, where `pattern` stands.
pub open spec fn place(s: Seq<char>, pattern: Seq<char>, from: int) -> Option<int>
    decreases s.len() - from,
{
    if matches_at(s, pattern, from) {
        Some(from)
    } else if from >= s.len() {
        None
    } else {
        place(s, pattern, from + 1)
    }
}

/// `s` without the occurrences of `pattern`, taken from left to right without overlap.
pub open spec fn without(s: Seq<char>, pattern: Seq<char>) -> Seq<char>
    decreases s.len(),
{
    if pattern.len() == 0 || s.len() == 0 {
        s
    } else if matches_at(s, pattern, 0) {
        without(s.skip(pattern.len() as int), pattern)
    } else {
        seq![s[0]] + without(s.skip(1), pattern)
    }
}

/// The pieces of `s` between the separators: one more than there are separators.
pub open spec fn pieces(s: Seq<char>, separator: char) -> Seq<Seq<char>>
    decreases s.len(),
{
    if s.len() == 0 {
        seq![Seq::<char>::empty()]
    } else {
        let before = pieces(s.drop_last(), separator);
        if s.last() == separator {
            before.push(Seq::<char>::empty())
        } else {
            before.drop_last().push(before.last().push(s.last()))
        }
    }
}

/// The position of the first `c` in `s`, or the length of `s` where there is none.
pub open spec fn first_place(s: Seq<char>, c: char) -> int
    decreases s.len(),
{
    if s.len() == 0 || s[0] == c {
        0
    } else {
        1 + first_place(s.skip(1), c)
    }
}

/// What stands before and after the first `separator` in `s`.
pub open spec fn cut(s: Seq<char>, separator: char) -> Option<(Seq<char>, Seq<char>)> {
    if s.contains(separator) {
        let at = first_place(s, separator);
        Some((s.take(at), s.skip(at + 1)))
    } else {
        None
    }
}

/// The characters of each string.
pub open spec fn views(strings: Seq<String>) -> Seq<Seq<char>> {
    strings.map_values(|s: String| s@)
}

/// The Unicode characters with the White_Space property.
pub open spec fn is_white_space(c: char) -> bool {
    ||| 0x09 <= c as u32 <= 0x0d
    ||| c as u32 == 0x20
    ||| c as u32 == 0x85
    ||| c as u32 == 0xa0
    ||| c as u32 == 0x1680
    ||| 0x2000 <= c as u32 <= 0x200a
    ||| c as u32 == 0x2028
    ||| c as u32 == 0x2029
    ||| c as u32 == 0x202f
    ||| c as u32 == 0x205f
    ||| c as u32 == 0x3000
}

/// `s` without its leading white space.
pub open spec fn trimmed_start(s: Seq<char>) -> Seq<char>
    decreases s.len(),
{
    if s.len() > 0 && is_white_space(s[0]) {
        trimmed_start(s.skip(1))
    } else {
        s
    }
}

/// `s` without its trailing white space.
pub open spec fn trimmed_end(s: Seq<char>) -> Seq<char>
    decreases s.len(),
{
    if s.len() > 0 && is_white_space(s.last()) {
        trimmed_end(s.drop_last())
    } else {
        s
    }
}

/// `s` without white space at either end.
pub open spec fn trimmed(s: Seq<char>) -> Seq<char> {
    trimmed_end(trimmed_start(s))
}

/// The runs of characters in `s` that are not white space.
pub open spec fn words(s: Seq<char>) -> Seq<Seq<char>>
    decreases s.len(),
{
    if s.len() == 0 {
        Seq::empty()
    } else {
        let before = words(s.drop_last());
        if is_white_space(s.last()) {
            before
        } else if s.len() >= 2 && !is_white_space(s[s.len() - 2]) {
            before.drop_last().push(before.last().push(s.last()))
        } else {
            before.push(seq![s.last()])
        }
    }
}

/// `c` is one of the ten decimal digits.
pub open spec fn is_digit(c: char) -> bool {
    '0' <= c <= '9'
}

/// The number that a string of decimal digits writes.
pub open spec fn decimal(digits: Seq<char>) -> nat
    decreases digits.len(),
{
    if digits.len() == 0 {
        0
    } else {
        decimal(digits.drop_last()) * 10 + (digits.last() as nat - '0' as nat) as nat
    }
}

/// Every character is a decimal digit.
pub open spec fn all_digits(s: Seq<char>) -> bool {
    forall|i: int| 0 <= i < s.len() ==> is_digit(#[trigger] s[i])
}

/// `s` without the plus sign that may lead it.
pub open spec fn after_plus(s: Seq<char>) -> Seq<char> {
    if s.len() > 0 && s[0] == '+' {
        s.skip(1)
    } else {
        s
    }
}

/// The number that `s` writes as an optional plus sign and at least one decimal digit, where it
/// is at most `max`.
pub open spec fn unsigned(s: Seq<char>, max: nat) -> Option<nat> {
    let digits = after_plus(s);
    if digits.len() > 0 && all_digits(digits) && decimal(digits) <= max {
        Some(decimal(digits))
    } else {
        None
    }
}

/// The characters of `s`, one per element.
pub fn to_chars(s: &str) -> (chars: Vec<char>)
    ensures
        chars@ == s@,
{
    let mut chars: Vec<char> = Vec::new();
    for c in it: s.chars()
        invariant
            chars@ == it.seq().take(it.index() as int),
            it.seq() == s@,
    {
        chars.push(c);
    }
    chars
}

/// Whether `pattern` stands in `s` at position `at`.
fn chars_match_at(s: &Vec<char>, pattern: &Vec<char>, at: usize) -> (found: bool)
    requires
        at <= s.len(),
    ensures
        found == matches_at(s@, pattern@, at as int),
{
    if s.len() - at < pattern.len() {
        return false;
    }
    let mut i: usize = 0;
    while i < pattern.len()
        invariant
            i <= pattern.len(),
            at + pattern.len() <= s.len(),
            forall|j: int| 0 <= j < i ==> s@[at + j] == pattern@[j],
        decreases pattern.len() - i,
    {
        if s[at + i] != pattern[i] {
            assert(s@.subrange(at as int, at + pattern.len())[i as int] != pattern@[i as int]);
            return false;
        }
        i = i + 1;
    }
    assert(s@.subrange(at as int, at + pattern.len()) =~= pattern@);
    true
}

/// Whether `s` begins with `prefix`.
pub fn starts_with(s: &str, prefix: &str) -> (found: bool)
    ensures
        found == prefix@.is_prefix_of(s@),
{
    let chars = to_chars(s);
    let wanted = to_chars(prefix);
    let found = chars_match_at(&chars, &wanted, 0);
    found
}

/// Whether two strings hold the same characters.
pub fn equal(a: &str, b: &str) -> (same: bool)
    ensures
        same == (a@ == b@),
{
    let left = to_chars(a);
    let right = to_chars(b);
    if left.len() != right.len() {
        return false;
    }
    let same = chars_match_at(&left, &right, 0);
    assert(a@.subrange(0, a@.len() as int) =~= a@);
    same
}

/// Whether `s` ends with `suffix`.
pub fn ends_with(s: &str, suffix: &str) -> (found: bool)
    ensures
        found == suffix@.is_suffix_of(s@),
{
    let chars = to_chars(s);
    let wanted = to_chars(suffix);
    if chars.len() < wanted.len() {
        return false;
    }
    chars_match_at(&chars, &wanted, chars.len() - wanted.len())
}

/// The position of the first occurrence of `pattern` in `s`, in characters.
pub fn find(s: &str, pattern: &str) -> (position: Option<usize>)
    ensures
        match position {
            Some(at) => {
                &&& place(s@, pattern@, 0) == Some(at as int)
                &&& matches_at(s@, pattern@, at as int)
                &&& forall|i: int| 0 <= i < at ==> !matches_at(s@, pattern@, i)
            },
            None => {
                &&& place(s@, pattern@, 0) is None
                &&& forall|i: int| !matches_at(s@, pattern@, i)
            },
        },
{
    let chars = to_chars(s);
    let wanted = to_chars(pattern);
    let mut at: usize = 0;
    while at < chars.len()
        invariant
            chars@ == s@,
            wanted@ == pattern@,
            at <= chars.len(),
            place(s@, pattern@, 0) == place(s@, pattern@, at as int),
            forall|i: int| 0 <= i < at ==> !matches_at(s@, pattern@, i),
        decreases chars.len() - at,
    {
        if chars_match_at(&chars, &wanted, at) {
            return Some(at);
        }
        at = at + 1;
    }
    if chars_match_at(&chars, &wanted, at) {
        return Some(at);
    }
    None
}

/// Whether `pattern` occurs in `s`.
pub fn contains(s: &str, pattern: &str) -> (found: bool)
    ensures
        found == occurs(s@, pattern@),
{
    find(s, pattern).is_some()
}

/// `s` with every occurrence of `pattern` taken out.
pub fn remove_all(s: &str, pattern: &str) -> (rest: String)
    ensures
        rest@ == without(s@, pattern@),
{
    let chars = to_chars(s);
    let wanted = to_chars(pattern);
    let mut rest = String::new();
    if wanted.len() == 0 {
        rest.append(s);
        assert(Seq::<char>::empty() + s@ =~= s@);
        return rest;
    }
    let mut start: usize = 0;
    let mut at: usize = 0;
    proof {
        assert(s@.skip(0) =~= s@);
        assert(Seq::<char>::empty() + s@.subrange(0, 0) + without(s@.skip(0), pattern@)
            =~= without(s@, pattern@));
    }
    while at < chars.len()
        invariant
            chars@ == s@,
            wanted@ == pattern@,
            wanted.len() > 0,
            start <= at <= chars.len(),
            rest@ + s@.subrange(start as int, at as int) + without(s@.skip(at as int), pattern@)
                == without(s@, pattern@),
        decreases chars.len() - at,
    {
        let ghost tail = s@.skip(at as int);
        let ghost kept = s@.subrange(start as int, at as int);
        let found = chars_match_at(&chars, &wanted, at);
        assert(found == matches_at(tail, pattern@, 0)) by {
            if at + pattern@.len() <= s@.len() {
                assert(tail.subrange(0, pattern@.len() as int) =~= s@.subrange(
                    at as int,
                    at + pattern@.len(),
                ));
            }
        }
        if found {
            let ghost before = rest@;
            rest.append(s.substring_char(start, at));
            at = at + wanted.len();
            start = at;
            proof {
                assert(tail.skip(pattern@.len() as int) =~= s@.skip(at as int));
                assert(rest@ + s@.subrange(start as int, at as int) =~= before + kept);
            }
        } else {
            at = at + 1;
            proof {
                assert(tail.skip(1) =~= s@.skip(at as int));
                assert(kept + (seq![tail[0]] + without(s@.skip(at as int), pattern@))
                    =~= s@.subrange(start as int, at as int) + without(
                    s@.skip(at as int),
                    pattern@,
                ));
                assert(rest@ + kept + without(tail, pattern@) =~= rest@ + (kept + without(
                    tail,
                    pattern@,
                )));
                assert(rest@ + s@.subrange(start as int, at as int) + without(
                    s@.skip(at as int),
                    pattern@,
                ) =~= rest@ + (s@.subrange(start as int, at as int) + without(
                    s@.skip(at as int),
                    pattern@,
                )));
            }
        }
    }
    let ghost before = rest@;
    rest.append(s.substring_char(start, at));
    assert(without(s@.skip(at as int), pattern@) =~= Seq::<char>::empty());
    assert(rest@ =~= before + s@.subrange(start as int, at as int) + without(
        s@.skip(at as int),
        pattern@,
    ));
    rest
}

/// Splits `s` at every `separator`.
pub fn split(s: &str, separator: char) -> (parts: Vec<String>)
    ensures
        views(parts@) == pieces(s@, separator),
{
    let chars = to_chars(s);
    let mut parts: Vec<String> = Vec::new();
    let mut start: usize = 0;
    let mut at: usize = 0;
    assert(s@.subrange(0, 0) =~= Seq::<char>::empty());
    assert(views(parts@).push(s@.subrange(0, 0)) =~= pieces(s@.take(0), separator));
    while at < chars.len()
        invariant
            chars@ == s@,
            start <= at <= chars.len(),
            views(parts@).push(s@.subrange(start as int, at as int)) == pieces(
                s@.take(at as int),
                separator,
            ),
        decreases chars.len() - at,
    {
        let ghost before = pieces(s@.take(at as int), separator);
        let ghost held = views(parts@);
        let ghost current = s@.subrange(start as int, at as int);
        assert(s@.take(at + 1).drop_last() =~= s@.take(at as int));
        assert(before.drop_last() =~= held);
        if chars[at] == separator {
            parts.push(s.substring_char(start, at).to_owned());
            assert(views(parts@) =~= held.push(current));
            start = at + 1;
            assert(s@.subrange(start as int, at + 1) =~= Seq::<char>::empty());
        } else {
            assert(s@.subrange(start as int, at + 1) =~= current.push(s@[at as int]));
        }
        at = at + 1;
    }
    let ghost held = views(parts@);
    parts.push(s.substring_char(start, at).to_owned());
    assert(views(parts@) =~= held.push(s@.subrange(start as int, at as int)));
    assert(s@.take(at as int) =~= s@);
    parts
}

/// The first place of a character is the one before which it does not occur.
proof fn lemma_first_place(s: Seq<char>, c: char, at: int)
    requires
        0 <= at < s.len(),
        s[at] == c,
        forall|i: int| 0 <= i < at ==> s[i] != c,
    ensures
        first_place(s, c) == at,
    decreases at,
{
    if at > 0 {
        assert(s[0] != c);
        lemma_first_place(s.skip(1), c, at - 1);
    }
}

/// Splits `s` at the first `separator`, if it has one.
pub fn split_once(s: &str, separator: char) -> (parts: Option<(String, String)>)
    ensures
        match parts {
            Some((head, tail)) => cut(s@, separator) == Some((head@, tail@)),
            None => cut(s@, separator) is None,
        },
{
    let chars = to_chars(s);
    let mut at: usize = 0;
    while at < chars.len()
        invariant
            chars@ == s@,
            at <= chars.len(),
            forall|i: int| 0 <= i < at ==> s@[i] != separator,
        decreases chars.len() - at,
    {
        if chars[at] == separator {
            let head = s.substring_char(0, at).to_owned();
            let tail = s.substring_char(at + 1, chars.len()).to_owned();
            proof {
                lemma_first_place(s@, separator, at as int);
                assert(s@[at as int] == separator);
            }
            return Some((head, tail));
        }
        at = at + 1;
    }
    None
}

/// Whether `c` is white space.
pub fn white_space(c: char) -> (found: bool)
    ensures
        found == is_white_space(c),
{
    let code: u32 = c as u32;
    (0x09 <= code && code <= 0x0d) || code == 0x20 || code == 0x85 || code == 0xa0 || code == 0x1680
        || (0x2000 <= code && code <= 0x200a) || code == 0x2028 || code == 0x2029 || code == 0x202f
        || code == 0x205f || code == 0x3000
}

/// `s` without white space at either end.
pub fn trim(s: &str) -> (inner: String)
    ensures
        inner@ == trimmed(s@),
{
    let chars = to_chars(s);
    let mut start: usize = 0;
    assert(s@.skip(0) =~= s@);
    while start < chars.len() && white_space(chars[start])
        invariant
            chars@ == s@,
            start <= chars.len(),
            trimmed_start(s@.skip(start as int)) == trimmed_start(s@),
        decreases chars.len() - start,
    {
        assert(s@.skip(start as int).skip(1) =~= s@.skip(start + 1));
        start = start + 1;
    }
    let ghost rest = s@.skip(start as int);
    let mut end: usize = chars.len();
    assert(s@.subrange(start as int, end as int) =~= rest);
    while end > start && white_space(chars[end - 1])
        invariant
            chars@ == s@,
            start <= end <= chars.len(),
            trimmed_end(s@.subrange(start as int, end as int)) == trimmed_end(rest),
        decreases end,
    {
        assert(s@.subrange(start as int, end as int).drop_last() =~= s@.subrange(
            start as int,
            end - 1,
        ));
        end = end - 1;
    }
    s.substring_char(start, end).to_owned()
}

/// Adding digits to a number does not make it smaller.
proof fn lemma_decimal_grows(digits: Seq<char>, n: int)
    requires
        0 <= n <= digits.len(),
        all_digits(digits),
    ensures
        decimal(digits.take(n)) <= decimal(digits),
    decreases digits.len() - n,
{
    if n == digits.len() {
        assert(digits.take(n) =~= digits);
    } else {
        lemma_decimal_grows(digits, n + 1);
        assert(digits.take(n + 1).drop_last() =~= digits.take(n));
    }
}

/// The runs of characters in `s` that are not white space.
pub fn split_whitespace(s: &str) -> (parts: Vec<String>)
    ensures
        views(parts@) == words(s@),
{
    let chars = to_chars(s);
    let mut parts: Vec<String> = Vec::new();
    let mut start: usize = 0;
    let mut at: usize = 0;
    assert(views(parts@) =~= words(chars@.take(0)));
    while at < chars.len()
        invariant
            chars@ == s@,
            start <= at <= chars.len(),
            forall|i: int| start <= i < at ==> !is_white_space(#[trigger] chars@[i]),
            start > 0 ==> is_white_space(chars@[start - 1]),
            views(parts@) + (if start < at {
                seq![chars@.subrange(start as int, at as int)]
            } else {
                Seq::<Seq<char>>::empty()
            }) == words(chars@.take(at as int)),
        decreases chars.len() - at,
    {
        let ghost before = chars@.take(at as int);
        let ghost after = chars@.take(at + 1);
        assert(after.drop_last() =~= before);
        assert(after.last() == chars@[at as int]);
        if white_space(chars[at]) {
            if start < at {
                let ghost old_parts = parts@;
                parts.push(s.substring_char(start, at).to_owned());
                assert(views(parts@) =~= views(old_parts).push(
                    chars@.subrange(start as int, at as int),
                ));
            }
            start = at + 1;
            assert(views(parts@) + Seq::<Seq<char>>::empty() =~= words(after));
        } else {
            let ghost word = chars@.subrange(start as int, at + 1);
            if start < at {
                let ghost run = chars@.subrange(start as int, at as int);
                assert(after[after.len() - 2] == chars@[at - 1]);
                assert(words(before).last() == run);
                assert(words(before).drop_last() =~= views(parts@));
                assert(run.push(chars@[at as int]) =~= word);
                assert(views(parts@) + seq![word] =~= words(after));
            } else {
                assert(words(before) =~= views(parts@));
                assert(seq![chars@[at as int]] =~= word);
                assert(views(parts@) + seq![word] =~= words(after));
            }
        }
        at = at + 1;
    }
    assert(chars@.take(at as int) =~= chars@);
    if start < at {
        let ghost old_parts = parts@;
        parts.push(s.substring_char(start, at).to_owned());
        assert(views(parts@) =~= views(old_parts) + seq![chars@.subrange(start as int, at as int)]);
    } else {
        assert(views(parts@) + Seq::<Seq<char>>::empty() =~= views(parts@));
    }
    parts
}

/// Reads an unsigned decimal number.
pub fn parse_u64(s: &str) -> (number: Option<u64>)
    ensures
        match unsigned(s@, u64::MAX as nat) {
            Some(value) => number == Some(value as u64),
            None => number is None,
        },
{
    let chars = to_chars(s);
    let first: usize = if chars.len() > 0 && chars[0] == '+' { 1 } else { 0 };
    let ghost digits = s@.skip(first as int);
    assert(s@.skip(0) =~= s@);
    if first == chars.len() {
        return None;
    }
    let mut value: u64 = 0;
    let mut at: usize = first;
    while at < chars.len()
        invariant
            chars@ == s@,
            first <= at <= chars.len(),
            digits == s@.skip(first as int),
            digits == after_plus(s@),
            forall|i: int| 0 <= i < at - first ==> is_digit(#[trigger] digits[i]),
            value == decimal(digits.take(at - first)),
        decreases chars.len() - at,
    {
        let c = chars[at];
        assert(c == digits[at - first]);
        if c < '0' || c > '9' {
            assert(!is_digit(digits[at - first]));
            return None;
        }
        let digit: u64 = (c as u32 - '0' as u32) as u64;
        assert(digits.take(at - first + 1).drop_last() =~= digits.take(at - first));
        if value > (u64::MAX - digit) / 10 {
            proof {
                if all_digits(digits) {
                    lemma_decimal_grows(digits, at - first + 1);
                }
            }
            return None;
        }
        value = value * 10 + digit;
        at = at + 1;
    }
    assert(digits.take(at - first) =~= digits);
    Some(value)
}

/// Reads an unsigned decimal number that fits in 32 bits.
pub fn parse_u32(s: &str) -> (number: Option<u32>)
    ensures
        match unsigned(s@, u32::MAX as nat) {
            Some(value) => number == Some(value as u32),
            None => number is None,
        },
{
    match parse_u64(s) {
        Some(value) => if value <= u32::MAX as u64 {
            Some(value as u32)
        } else {
            None
        },
        None => None,
    }
}

/// Decodes bytes as UTF-8. This rests on `String::from_utf8`, of which it claims that it accepts
/// exactly the valid encodings and gives the characters that they encode.
#[verifier::external_body]
pub(crate) fn decode(bytes: Vec<u8>) -> (text: Option<String>)
    ensures
        match text {
            Some(s) => valid_utf8(bytes@) && s@ == decode_utf8(bytes@),
            None => !valid_utf8(bytes@),
        },
{
    String::from_utf8(bytes).ok()
}

/// The concatenation of two strings.
pub fn joined(head: &str, tail: &str) -> (whole: String)
    ensures
        whole@ == head@ + tail@,
{
    let mut whole = head.to_owned();
    whole.append(tail);
    whole
}

/// The first place of a pattern is the one before which it does not stand.
pub proof fn lemma_place(s: Seq<char>, pattern: Seq<char>, from: int, at: int)
    requires
        from <= at,
        matches_at(s, pattern, at),
        forall|i: int| from <= i < at ==> !matches_at(s, pattern, i),
    ensures
        place(s, pattern, from) == Some(at),
    decreases at - from,
{
    if from < at {
        assert(!matches_at(s, pattern, from));
        lemma_place(s, pattern, from + 1, at);
    }
}

/// Where a pattern does not occur, nothing is removed.
pub proof fn lemma_without_absent(s: Seq<char>, pattern: Seq<char>)
    requires
        !occurs(s, pattern),
    ensures
        without(s, pattern) == s,
    decreases s.len(),
{
    if pattern.len() > 0 && s.len() > 0 {
        let rest = s.skip(1);
        assert(!occurs(rest, pattern)) by {
            if occurs(rest, pattern) {
                let at = choose|at: int| matches_at(rest, pattern, at);
                assert(s.subrange(at + 1, at + 1 + pattern.len()) =~= rest.subrange(
                    at,
                    at + pattern.len(),
                ));
                assert(matches_at(s, pattern, at + 1));
            }
        }
        assert(!matches_at(s, pattern, 0));
        lemma_without_absent(rest, pattern);
        assert(seq![s[0]] + rest =~= s);
    }
}

/// The first separator cuts a text in two.
pub proof fn lemma_cut_at_separator(head: Seq<char>, separator: char, tail: Seq<char>)
    requires
        !head.contains(separator),
    ensures
        cut(head.push(separator) + tail, separator) == Some((head, tail)),
{
    let s = head.push(separator) + tail;
    assert(s[head.len() as int] == separator);
    assert(s.contains(separator));
    assert forall|i: int| 0 <= i < head.len() implies s[i] != separator by {
        assert(s[i] == head[i]);
        assert(head.contains(head[i]));
    }
    lemma_first_place(s, separator, head.len() as int);
    assert(s.take(head.len() as int) =~= head);
    assert(s.skip(head.len() as int + 1) =~= tail);
}

/// Some lines with a separator between each two of them.
pub open spec fn lines_joined(lines: Seq<Seq<char>>, separator: char) -> Seq<char>
    decreases lines.len(),
{
    if lines.len() == 0 {
        Seq::empty()
    } else if lines.len() == 1 {
        lines[0]
    } else {
        lines_joined(lines.drop_last(), separator).push(separator) + lines.last()
    }
}

/// Text without a separator lengthens the last piece.
proof fn lemma_pieces_lengthened(s: Seq<char>, tail: Seq<char>, separator: char)
    requires
        !tail.contains(separator),
    ensures
        pieces(s, separator).len() > 0,
        pieces(s + tail, separator) == pieces(s, separator).drop_last().push(
            pieces(s, separator).last() + tail,
        ),
    decreases s.len() + tail.len(),
{
    if tail.len() > 0 {
        let shorter = tail.drop_last();
        assert(tail[tail.len() - 1] == tail.last());
        assert(!shorter.contains(separator)) by {
            if shorter.contains(separator) {
                let i = choose|i: int| 0 <= i < shorter.len() && shorter[i] == separator;
                assert(tail[i] == separator);
            }
        }
        lemma_pieces_lengthened(s, shorter, separator);
        assert((s + tail).drop_last() =~= s + shorter);
        assert((s + tail).last() == tail.last());
        assert(tail.contains(tail.last()));
        assert(shorter.push(tail.last()) =~= tail);
        let held = pieces(s, separator);
        assert((held.last() + shorter).push(tail.last()) =~= held.last() + tail);
        assert(pieces(s + tail, separator) =~= held.drop_last().push(held.last() + tail));
    } else {
        if s.len() > 0 {
            lemma_pieces_lengthened(s.drop_last(), tail, separator);
        }
        let held = pieces(s, separator);
        assert(s + tail =~= s);
        assert(held.last() + tail =~= held.last());
        assert(held.drop_last().push(held.last()) =~= held);
    }
}

/// Splitting gives back the lines that were joined, if none of them holds the separator.
pub proof fn lemma_pieces_of_joined(lines: Seq<Seq<char>>, separator: char)
    requires
        lines.len() > 0,
        forall|i: int| 0 <= i < lines.len() ==> !(#[trigger] lines[i]).contains(separator),
    ensures
        pieces(lines_joined(lines, separator), separator) == lines,
    decreases lines.len(),
{
    if lines.len() == 1 {
        let none = Seq::<char>::empty();
        lemma_pieces_lengthened(none, lines[0], separator);
        assert(none + lines[0] =~= lines[0]);
        assert(pieces(lines[0], separator) =~= lines);
    } else {
        let before = lines.drop_last();
        lemma_pieces_of_joined(before, separator);
        let joined = lines_joined(before, separator);
        assert(joined.push(separator).drop_last() =~= joined);
        lemma_pieces_lengthened(joined.push(separator), lines.last(), separator);
        assert(lines[lines.len() - 1] == lines.last());
        assert(Seq::<char>::empty() + lines.last() =~= lines.last());
        assert(pieces(lines_joined(lines, separator), separator) =~= lines);
    }
}

} // verus!
