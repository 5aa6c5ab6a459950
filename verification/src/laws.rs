//! What the building blocks of the library do, stated of their inputs and results.

use vstd::prelude::*;

use crate::float;
use crate::float::Float;
use crate::input::capability::{Capability, CapabilitySet};
use crate::input::event::{InputValue, NativeEvent};
use crate::table::Table;
use crate::text;

verus! {

/// The characters of `pattern` stand in `s` from `at` on.
pub open spec fn stands(s: Seq<char>, pattern: Seq<char>, at: int) -> bool {
    &&& 0 <= at
    &&& at + pattern.len() <= s.len()
    &&& forall|j: int| 0 <= j < pattern.len() ==> #[trigger] s[at + j] == pattern[j]
}

/// A pattern stands where its characters do.
proof fn lemma_stands(s: Seq<char>, pattern: Seq<char>, at: int)
    ensures
        stands(s, pattern, at) == text::matches_at(s, pattern, at),
{
    if 0 <= at && at + pattern.len() <= s.len() {
        let part = s.subrange(at, at + pattern.len());
        if stands(s, pattern, at) {
            assert forall|j: int| 0 <= j < part.len() implies part[j] == pattern[j] by {
                assert(s[at + j] == pattern[j]);
            }
            assert(part =~= pattern);
        }
        if text::matches_at(s, pattern, at) {
            assert forall|j: int| 0 <= j < pattern.len() implies #[trigger] s[at + j]
                == pattern[j] by {
                assert(part[j] == s[at + j]);
            }
        }
    }
}

/// A text starts with another exactly if that stands at its beginning, and ends with it exactly if
/// that stands at its end.
pub proof fn law_beginnings_and_ends(
    s: &str,
    part: &str,
    begins: bool,
    ends: bool,
    same: bool,
)
    requires
        call_ensures(text::starts_with, (s, part), begins),
        call_ensures(text::ends_with, (s, part), ends),
        call_ensures(text::equal, (s, part), same),
    ensures
        begins <==> stands(s@, part@, 0),
        ends <==> stands(s@, part@, s@.len() - part@.len()),
        same <==> stands(s@, part@, 0) && s@.len() == part@.len(),
{
    lemma_stands(s@, part@, 0);
    lemma_stands(s@, part@, s@.len() - part@.len());
    if s@.len() == part@.len() {
        assert(s@.subrange(0, s@.len() as int) =~= s@);
    }
}

/// A pattern is found at its first place, and it is contained exactly if it has one.
pub proof fn law_first_place_is_found(
    s: &str,
    pattern: &str,
    found: Option<usize>,
    contained: bool,
    i: int,
)
    requires
        call_ensures(text::find, (s, pattern), found),
        call_ensures(text::contains, (s, pattern), contained),
    ensures
        found matches Some(at) ==> stands(s@, pattern@, at as int),
        found matches Some(at) ==> (i < at ==> !stands(s@, pattern@, i)),
        found is None ==> !stands(s@, pattern@, i),
        contained <==> found is Some,
{
    lemma_stands(s@, pattern@, i);
    if let Some(at) = found {
        lemma_stands(s@, pattern@, at as int);
        assert(text::matches_at(s@, pattern@, at as int));
    } else if contained {
        let at = choose|at: int| text::matches_at(s@, pattern@, at);
        assert(text::matches_at(s@, pattern@, at));
    }
}

/// The place of a pattern is its first one from the start on.
pub proof fn law_place_is_the_first(s: Seq<char>, pattern: Seq<char>, from: int, i: int)
    requires
        0 <= from,
    ensures
        text::place(s, pattern, from) matches Some(at) ==> {
            &&& from <= at && stands(s, pattern, at)
            &&& from <= i < at ==> !stands(s, pattern, i)
        },
        text::place(s, pattern, from) is None ==> (from <= i ==> !stands(s, pattern, i)),
    decreases s.len() - from,
{
    lemma_stands(s, pattern, from);
    lemma_stands(s, pattern, i);
    if !text::matches_at(s, pattern, from) && from < s.len() {
        law_place_is_the_first(s, pattern, from + 1, i);
    }
}

/// A text in which a pattern does not stand stays as it is when the pattern is removed. Otherwise the
/// first occurrence goes, and the rest is treated alike.
pub proof fn law_removal_takes_the_first_out(
    s: &str,
    pattern: &str,
    rest: String,
    tail: &str,
    rest_of_tail: String,
    at: int,
)
    requires
        call_ensures(text::remove_all, (s, pattern), rest),
        call_ensures(text::remove_all, (tail, pattern), rest_of_tail),
        pattern@.len() > 0,
    ensures
        (forall|i: int| !#[trigger] stands(s@, pattern@, i)) ==> rest@ == s@,
        stands(s@, pattern@, at) && (forall|i: int| 0 <= i < at ==> !#[trigger] stands(s@, pattern@, i))
            && tail@ == s@.skip(at + pattern@.len()) ==> rest@ == s@.take(at) + rest_of_tail@,
{
    if forall|i: int| !#[trigger] stands(s@, pattern@, i) {
        if text::occurs(s@, pattern@) {
            let i = choose|i: int| text::matches_at(s@, pattern@, i);
            lemma_stands(s@, pattern@, i);
        }
        text::lemma_without_absent(s@, pattern@);
    }
    if stands(s@, pattern@, at) && (forall|i: int|
        0 <= i < at ==> !#[trigger] stands(s@, pattern@, i)) && tail@ == s@.skip(
        at + pattern@.len(),
    ) {
        lemma_without_first(s@, pattern@, at);
    }
}

proof fn lemma_without_first(s: Seq<char>, pattern: Seq<char>, at: int)
    requires
        pattern.len() > 0,
        stands(s, pattern, at),
        forall|i: int| 0 <= i < at ==> !#[trigger] stands(s, pattern, i),
    ensures
        text::without(s, pattern) == s.take(at) + text::without(
            s.skip(at + pattern.len()),
            pattern,
        ),
    decreases at,
{
    lemma_stands(s, pattern, 0);
    let tail = s.skip(at + pattern.len());
    if at == 0 {
        assert(s.take(0) + text::without(tail, pattern) =~= text::without(tail, pattern));
    } else {
        let shorter = s.skip(1);
        assert(!stands(s, pattern, 0));
        assert(stands(shorter, pattern, at - 1)) by {
            assert forall|j: int| 0 <= j < pattern.len() implies #[trigger] shorter[at - 1 + j]
                == pattern[j] by {
                assert(s[at + j] == pattern[j]);
            }
        }
        assert forall|i: int| 0 <= i < at - 1 implies !#[trigger] stands(shorter, pattern, i) by {
            if stands(shorter, pattern, i) {
                assert forall|j: int| 0 <= j < pattern.len() implies #[trigger] s[i + 1 + j]
                    == pattern[j] by {
                    assert(shorter[i + j] == pattern[j]);
                }
                assert(stands(s, pattern, i + 1));
            }
        }
        lemma_without_first(shorter, pattern, at - 1);
        assert(shorter.skip(at - 1 + pattern.len()) =~= tail);
        assert(seq![s[0]] + (shorter.take(at - 1) + text::without(tail, pattern)) =~= s.take(at)
            + text::without(tail, pattern));
    }
}

/// Splitting at a separator gives pieces without it, and the pieces with the separator between them
/// give the text back.
pub proof fn law_pieces_make_up_the_text(s: &str, separator: char, parts: Vec<String>, i: int)
    requires
        call_ensures(text::split, (s, separator), parts),
    ensures
        parts@.len() > 0,
        0 <= i < parts@.len() ==> !parts@[i]@.contains(separator),
        text::lines_joined(text::views(parts@), separator) == s@,
{
    lemma_pieces(s@, separator);
    if 0 <= i < parts@.len() {
        assert(text::views(parts@)[i] == parts@[i]@);
    }
}

proof fn lemma_pieces(s: Seq<char>, separator: char)
    ensures
        text::pieces(s, separator).len() > 0,
        forall|i: int|
            0 <= i < text::pieces(s, separator).len() ==> !(#[trigger] text::pieces(
                s,
                separator,
            )[i]).contains(separator),
        text::lines_joined(text::pieces(s, separator), separator) == s,
    decreases s.len(),
{
    let after = text::pieces(s, separator);
    if s.len() > 0 {
        let shorter = s.drop_last();
        let c = s.last();
        lemma_pieces(shorter, separator);
        let before = text::pieces(shorter, separator);
        assert(shorter.push(c) =~= s);
        if c == separator {
            assert(after.drop_last() =~= before);
            assert(text::lines_joined(after, separator) =~= shorter.push(separator));
        } else {
            let longer = before.last().push(c);
            assert forall|i: int| 0 <= i < after.len() implies !(#[trigger] after[i]).contains(
                separator,
            ) by {
                if i < before.len() - 1 {
                    assert(after[i] == before[i]);
                } else if longer.contains(separator) {
                    let at = choose|at: int| 0 <= at < longer.len() && longer[at] == separator;
                    assert(before.last()[at] == separator);
                    assert(before[before.len() - 1].contains(separator));
                }
            }
            if before.len() == 1 {
                assert(text::lines_joined(after, separator) =~= s);
            } else {
                assert(after.drop_last() =~= before.drop_last());
                assert(text::lines_joined(after, separator) =~= text::lines_joined(
                    before,
                    separator,
                ).push(c));
            }
        }
    }
}

/// A text is cut at its first separator: what stands before it holds none, and both parts with the
/// separator between them give the text back. A text without a separator is not cut.
pub proof fn law_cut_at_the_first(
    s: &str,
    separator: char,
    parts: Option<(String, String)>,
)
    requires
        call_ensures(text::split_once, (s, separator), parts),
    ensures
        parts is Some <==> s@.contains(separator),
        parts matches Some((head, tail)) ==> {
            &&& !head@.contains(separator)
            &&& s@ == head@.push(separator) + tail@
        },
{
    if s@.contains(separator) {
        lemma_first_place(s@, separator);
        let at = text::first_place(s@, separator);
        let head = s@.take(at);
        if head.contains(separator) {
            let i = choose|i: int| 0 <= i < head.len() && head[i] == separator;
            assert(s@[i] == separator);
        }
        assert(s@ =~= head.push(separator) + s@.skip(at + 1));
    }
}

proof fn lemma_first_place(s: Seq<char>, c: char)
    requires
        s.contains(c),
    ensures
        0 <= text::first_place(s, c) < s.len(),
        s[text::first_place(s, c)] == c,
        forall|i: int| 0 <= i < text::first_place(s, c) ==> #[trigger] s[i] != c,
    decreases s.len(),
{
    if s[0] != c {
        let rest = s.skip(1);
        let i = choose|i: int| 0 <= i < s.len() && s[i] == c;
        assert(rest[i - 1] == c);
        lemma_first_place(rest, c);
        assert forall|i: int| 0 <= i < text::first_place(s, c) implies #[trigger] s[i] != c by {
            if i > 0 {
                assert(rest[i - 1] == s[i]);
            }
        }
    }
}

/// Every character is white space.
pub open spec fn blank(s: Seq<char>) -> bool {
    forall|i: int| 0 <= i < s.len() ==> text::is_white_space(#[trigger] s[i])
}

/// Blanks and line ends are white space, letters and signs are not.
pub proof fn law_white_space(c: char, white: bool)
    requires
        call_ensures(text::white_space, (c,), white),
    ensures
        c == ' ' || c == '\t' || c == '\n' || c == '\r' ==> white,
        '!' <= c <= '~' ==> !white,
        white <==> {
            ||| 9 <= c as u32 <= 13
            ||| c as u32 == 32 || c as u32 == 133 || c as u32 == 160
            ||| c as u32 == 5760
            ||| 8192 <= c as u32 <= 8202
            ||| c as u32 == 8232 || c as u32 == 8233 || c as u32 == 8239 || c as u32 == 8287
            ||| c as u32 == 12288
        },
{
}

/// White space is trimmed from both ends of a text, and nothing else: what is left is what stands
/// between the white space.
pub proof fn law_trimmed_text(
    s: &str,
    inner: String,
    before: Seq<char>,
    core: Seq<char>,
    after: Seq<char>,
)
    requires
        call_ensures(text::trim, (s,), inner),
        s@ == before + core + after,
        blank(before),
        blank(after),
        core.len() > 0 ==> !text::is_white_space(core[0]) && !text::is_white_space(core.last()),
    ensures
        inner@ == core,
{
    lemma_trimmed(before, core, after);
}

proof fn lemma_trimmed(before: Seq<char>, core: Seq<char>, after: Seq<char>)
    requires
        blank(before),
        blank(after),
        core.len() > 0 ==> !text::is_white_space(core[0]) && !text::is_white_space(core.last()),
    ensures
        text::trimmed(before + core + after) == core,
    decreases before.len() + after.len(),
{
    let s = before + core + after;
    if before.len() > 0 {
        let shorter = before.skip(1);
        assert(s[0] == before[0]);
        assert(s.skip(1) =~= shorter + core + after);
        assert(blank(shorter)) by {
            assert forall|i: int| 0 <= i < shorter.len() implies text::is_white_space(
                #[trigger] shorter[i],
            ) by {
                assert(before[i + 1] == shorter[i]);
            }
        }
        lemma_trimmed(shorter, core, after);
    } else if core.len() == 0 {
        assert(s =~= after);
        lemma_blank_is_trimmed(after);
        assert(core =~= Seq::<char>::empty());
    } else {
        assert(s =~= core + after);
        assert(s[0] == core[0]);
        lemma_trimmed_end(core, after);
    }
}

proof fn lemma_blank_is_trimmed(s: Seq<char>)
    requires
        blank(s),
    ensures
        text::trimmed(s) == Seq::<char>::empty(),
    decreases s.len(),
{
    if s.len() > 0 {
        let rest = s.skip(1);
        assert(text::is_white_space(s[0]));
        assert forall|i: int| 0 <= i < rest.len() implies text::is_white_space(
            #[trigger] rest[i],
        ) by {
            assert(s[i + 1] == rest[i]);
        }
        lemma_blank_is_trimmed(rest);
    } else {
        assert(s =~= Seq::<char>::empty());
    }
}

proof fn lemma_trimmed_end(core: Seq<char>, after: Seq<char>)
    requires
        blank(after),
        core.len() > 0 && !text::is_white_space(core.last()),
    ensures
        text::trimmed_end(core + after) == core,
    decreases after.len(),
{
    let s = core + after;
    if after.len() > 0 {
        let shorter = after.drop_last();
        assert(s.last() == after[after.len() - 1]);
        assert(s.drop_last() =~= core + shorter);
        assert forall|i: int| 0 <= i < shorter.len() implies text::is_white_space(
            #[trigger] shorter[i],
        ) by {
            assert(after[i] == shorter[i]);
        }
        lemma_trimmed_end(core, shorter);
    } else {
        assert(s =~= core);
    }
}

/// The words of two texts with white space between them are the words of the first and then those of
/// the second. A text without white space is one word, and an empty one is none.
pub proof fn law_words_of_a_text(
    s: &str,
    parts: Vec<String>,
    first: Seq<char>,
    gap: char,
    second: Seq<char>,
)
    requires
        call_ensures(text::split_whitespace, (s,), parts),
    ensures
        s@.len() == 0 ==> parts@.len() == 0,
        s@.len() > 0 && (forall|i: int|
            0 <= i < s@.len() ==> !text::is_white_space(#[trigger] s@[i])) ==> parts@.len() == 1
            && parts@[0]@ == s@,
        text::is_white_space(gap) && s@ == first.push(gap) + second ==> text::views(parts@)
            == text::words(first) + text::words(second),
{
    let listed = text::views(parts@);
    assert(listed.len() == parts@.len());
    if s@.len() > 0 && (forall|i: int|
        0 <= i < s@.len() ==> !text::is_white_space(#[trigger] s@[i])) {
        lemma_single_word(s@);
        assert(listed[0] == parts@[0]@);
    }
    if text::is_white_space(gap) && s@ == first.push(gap) + second {
        lemma_words_apart(first, gap, second);
    }
}

proof fn lemma_single_word(s: Seq<char>)
    requires
        s.len() > 0,
        forall|i: int| 0 <= i < s.len() ==> !text::is_white_space(#[trigger] s[i]),
    ensures
        text::words(s) == seq![s],
    decreases s.len(),
{
    reveal_with_fuel(text::words, 2);
    assert(!text::is_white_space(s[s.len() - 1]));
    if s.len() == 1 {
        assert(seq![s.last()] =~= s);
        assert(text::words(s) =~= seq![s]);
    } else {
        let shorter = s.drop_last();
        assert forall|i: int| 0 <= i < shorter.len() implies !text::is_white_space(
            #[trigger] shorter[i],
        ) by {
            assert(s[i] == shorter[i]);
        }
        lemma_single_word(shorter);
        assert(!text::is_white_space(s[s.len() - 2]));
        assert(shorter.push(s.last()) =~= s);
        assert(text::words(s) =~= seq![s]);
    }
}

/// A text that does not end with white space has a last word.
proof fn lemma_last_word(s: Seq<char>)
    requires
        s.len() > 0,
        !text::is_white_space(s.last()),
    ensures
        text::words(s).len() > 0,
{
}

proof fn lemma_words_apart(first: Seq<char>, gap: char, second: Seq<char>)
    requires
        text::is_white_space(gap),
    ensures
        text::words(first.push(gap) + second) == text::words(first) + text::words(second),
    decreases second.len(),
{
    let s = first.push(gap) + second;
    if second.len() == 0 {
        assert(s =~= first.push(gap));
        assert(first.push(gap).drop_last() =~= first);
        assert(text::words(first) + text::words(second) =~= text::words(first));
    } else {
        let shorter = second.drop_last();
        lemma_words_apart(first, gap, shorter);
        assert(s.drop_last() =~= first.push(gap) + shorter);
        assert(s.last() == second.last());
        let before = text::words(shorter);
        if text::is_white_space(second.last()) {
        } else if second.len() >= 2 && !text::is_white_space(second[second.len() - 2]) {
            assert(s[s.len() - 2] == second[second.len() - 2]);
            assert(shorter.last() == second[second.len() - 2]);
            lemma_last_word(shorter);
            let whole = text::words(first) + before;
            assert(whole.last() == before.last());
            assert(whole.drop_last() =~= text::words(first) + before.drop_last());
            assert(text::words(s) =~= text::words(first) + text::words(second));
        } else {
            if second.len() >= 2 {
                assert(s[s.len() - 2] == second[second.len() - 2]);
            } else {
                assert(s[s.len() - 2] == gap);
            }
            assert(text::words(s) =~= text::words(first) + text::words(second));
        }
    }
}

/// A decimal number grows tenfold with each digit, to which the digit is added.
pub proof fn law_decimal_number(digits: Seq<char>, c: char)
    requires
        '0' <= c <= '9',
    ensures
        text::decimal(digits.push(c)) == 10 * text::decimal(digits) + (c as int - 48),
        text::decimal(Seq::empty()) == 0,
        text::is_digit(c),
{
    assert(digits.push(c).drop_last() =~= digits);
}

/// A number is read exactly if the text is its digits, with or without a plus sign before them, and
/// it fits.
pub proof fn law_number_in_a_text(
    s: &str,
    wide: Option<u64>,
    narrow: Option<u32>,
    digits: Seq<char>,
)
    requires
        call_ensures(text::parse_u64, (s,), wide),
        call_ensures(text::parse_u32, (s,), narrow),
        s@ == digits || s@ == seq!['+'] + digits,
        digits.len() > 0 ==> digits[0] != '+',
    ensures
        ({
            let number = text::decimal(digits);
            let written = digits.len() > 0 && forall|i: int|
                0 <= i < digits.len() ==> '0' <= #[trigger] digits[i] <= '9';
            &&& wide is Some <==> written && number <= 0xffff_ffff_ffff_ffff
            &&& wide matches Some(value) ==> value == number
            &&& narrow is Some <==> written && number <= 0xffff_ffff
            &&& narrow matches Some(value) ==> value == number
        }),
{
    if s@ == digits {
        if digits.len() > 0 {
            assert(text::after_plus(s@) == digits);
        }
    } else {
        assert(s@.skip(1) =~= digits);
    }
    assert(text::after_plus(s@) == digits);
    if forall|i: int| 0 <= i < digits.len() ==> '0' <= #[trigger] digits[i] <= '9' {
        assert forall|i: int| 0 <= i < digits.len() implies text::is_digit(
            #[trigger] digits[i],
        ) by {}
    }
    if text::all_digits(digits) {
        assert forall|i: int| 0 <= i < digits.len() implies '0' <= #[trigger] digits[i] <= '9' by {
            assert(text::is_digit(digits[i]));
        }
    }
}

/// Joining puts one text behind the other, and a text is its characters.
pub proof fn law_joined_texts(head: &str, tail: &str, whole: String, chars: Vec<char>, i: int)
    requires
        call_ensures(text::joined, (head, tail), whole),
        call_ensures(text::to_chars, (head,), chars),
    ensures
        whole@.len() == head@.len() + tail@.len(),
        0 <= i < head@.len() ==> whole@[i] == head@[i],
        0 <= i < tail@.len() ==> whole@[head@.len() + i] == tail@[i],
        chars@.len() == head@.len(),
        0 <= i < head@.len() ==> chars@[i] == head@[i],
{
}

/// What was inserted last under a key is got back, and what is held under another key stays.
pub proof fn law_get_after_insert<V>(
    table: &mut Table<V>,
    key: String,
    value: V,
    name: &str,
    before: Option<&V>,
    after: Option<&V>,
)
    requires
        old(table).wf(),
        call_ensures(Table::<V>::get, (&*old(table), name), before),
        call_ensures(Table::<V>::insert, (table, key, value), ()),
        call_ensures(Table::<V>::get, (&*final(table), name), after),
    ensures
        name@ == key@ ==> (after matches Some(held) && *held == value),
        name@ != key@ ==> (before matches Some(held) ==> (after matches Some(still) && *still
            == *held)),
        name@ != key@ && before is None ==> after is None,
{
}

/// A new key comes last, and a known one keeps its place. An empty table holds nothing.
pub proof fn law_order_of_keys<V>(
    table: &mut Table<V>,
    key: String,
    value: V,
    empty: Table<V>,
    name: &str,
    held: Option<&V>,
    first: usize,
    count: usize,
)
    requires
        old(table).wf(),
        call_ensures(Table::<V>::new, (), empty),
        call_ensures(Table::<V>::get, (&empty, name), held),
        call_ensures(Table::<V>::len, (&empty,), first),
        call_ensures(Table::<V>::insert, (table, key, value), ()),
        call_ensures(Table::<V>::len, (&*final(table),), count),
    ensures
        held is None,
        first == 0,
        old(table).order().contains(key@) ==> {
            &&& final(table).order() == old(table).order()
            &&& count == old(table).order().len()
        },
        !old(table).order().contains(key@) ==> {
            &&& final(table).order() == old(table).order().push(key@)
            &&& count == old(table).order().len() + 1
        },
{
    old(table).lemma_order();
    assert(old(table).order().contains(key@) <==> old(table)@.contains_key(key@));
}

/// The entry in a place is the key of that place in the order and what is held under it.
pub proof fn law_entries_by_place<V>(
    table: Table<V>,
    at: usize,
    key: &String,
    value: &V,
    name: &str,
    held: Option<&V>,
    empty: bool,
)
    requires
        table.wf(),
        at < table.order().len(),
        call_ensures(Table::<V>::key_at, (&table, at), key),
        call_ensures(Table::<V>::value_at, (&table, at), value),
        name@ == key@,
        call_ensures(Table::<V>::get, (&table, name), held),
        call_ensures(Table::<V>::is_empty, (&table,), empty),
    ensures
        key@ == table.order()[at as int],
        held matches Some(found) && *found == *value,
        !empty,
{
    table.lemma_order();
    assert(table.order().contains(table.order()[at as int]));
}

/// A capability is in a set exactly if it was inserted: inserting adds that one and no other.
pub proof fn law_contains_after_insert(
    set: &mut CapabilitySet,
    capability: Capability,
    other: Capability,
    before: bool,
    after: bool,
    empty: CapabilitySet,
    in_empty: bool,
)
    requires
        call_ensures(CapabilitySet::contains, (&*old(set), other), before),
        call_ensures(CapabilitySet::insert, (set, capability), ()),
        call_ensures(CapabilitySet::contains, (&*final(set), other), after),
        call_ensures(CapabilitySet::new, (), empty),
        call_ensures(CapabilitySet::contains, (&empty, other), in_empty),
    ensures
        after <==> before || other == capability,
        !in_empty,
{
}

/// A duplicate holds the same capabilities, and as many.
pub proof fn law_duplicate_holds_the_same(
    set: CapabilitySet,
    copy: CapabilitySet,
    capability: Capability,
    found: bool,
    found_in_copy: bool,
    count: usize,
    count_of_copy: usize,
)
    requires
        call_ensures(CapabilitySet::duplicate, (&set,), copy),
        call_ensures(CapabilitySet::contains, (&set, capability), found),
        call_ensures(CapabilitySet::contains, (&copy, capability), found_in_copy),
        call_ensures(CapabilitySet::len, (&set,), count),
        call_ensures(CapabilitySet::len, (&copy,), count_of_copy),
    ensures
        found == found_in_copy,
        count == count_of_copy,
{
}

/// An event is made of its capability and its value.
pub proof fn law_new_event(capability: Capability, value: InputValue, event: NativeEvent)
    requires
        call_ensures(NativeEvent::new, (capability, value), event),
    ensures
        event.capability == capability && event.value == value,
{
}

/// Numbers are ordered by their patterns: without a sign upwards, with a sign downwards, and those
/// with a sign before those without, but for the two zeros. Patterns beyond infinity are no numbers.
pub proof fn law_order_of_numbers(a: Float, b: Float, less: bool, nan: bool)
    requires
        call_ensures(Float::less_than, (a, b), less),
        call_ensures(Float::not_a_number, (a,), nan),
    ensures
        ({
            let sign = 0x8000_0000_0000_0000u64;
            &&& a.bits < sign && b.bits < sign ==> (less <==> a.bits < b.bits)
            &&& a.bits >= sign && b.bits >= sign ==> (less <==> a.bits > b.bits)
            &&& a.bits >= sign && b.bits < sign ==> (less <==> a.bits != sign || b.bits != 0)
            &&& a.bits < sign && b.bits >= sign ==> !less
            &&& a.bits < sign ==> (nan <==> a.bits > 0x7ff0_0000_0000_0000)
            &&& a.bits >= sign ==> (nan <==> a.bits > 0xfff0_0000_0000_0000)
        }),
{
}

/// The greatest of some numbers is one of them, and none of them is greater.
pub proof fn law_greatest_number(
    values: Vec<Float>,
    max: Float,
    i: int,
    nan: bool,
    less: bool,
)
    requires
        call_ensures(float::maximum, (&values,), max),
        0 <= i < values@.len(),
        call_ensures(Float::not_a_number, (values@[i],), nan),
        call_ensures(Float::less_than, (max, values@[i]), less),
    ensures
        !nan ==> !less,
        !nan ==> values@.contains(max),
{
    if !nan && !values@.contains(max) {
        assert(max.bits == 0xfff0_0000_0000_0000);
        assert(values@[i].rank() <= max.rank());
        assert(values@[i].bits == max.bits);
    }
}

/// Where there is no number, the greatest is negative infinity, which comes before all others.
pub proof fn law_greatest_of_none(values: Vec<Float>, max: Float)
    requires
        call_ensures(float::maximum, (&values,), max),
        forall|i: int|
            #![trigger values@[i]]
            0 <= i < values@.len() ==> {
                ||| 0x7ff0_0000_0000_0000 < values@[i].bits < 0x8000_0000_0000_0000
                ||| values@[i].bits > 0xfff0_0000_0000_0000
            },
    ensures
        max.bits == 0xfff0_0000_0000_0000,
{
    if values@.contains(max) {
        let i = choose|i: int| 0 <= i < values@.len() && values@[i] == max;
        assert(values@[i].is_nan());
    }
}

} // verus!
