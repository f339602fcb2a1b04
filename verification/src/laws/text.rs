//! What holds of strings and numbers.

use vstd::prelude::*;

use crate::text::{
    after_prefix, all_digits, chars_less, decimal, digits_value, is_blank, is_digit,
    is_white_space, lemma_decimal_round_trip, opt_string, parsed_u64, strings, trimmed,
    trimmed_end, trimmed_start, unsigned_digits, without_end_slashes,
};

verus! {

/// Nothing of a list of strings is lost when it is taken by characters.
pub proof fn lemma_strings_are_all_there(list: Seq<String>, i: int)
    requires
        0 <= i < list.len(),
    ensures
        strings(list).len() == list.len(),
        strings(list)[i] == list[i]@,
{
}

/// An optional string is there by its characters if and only if it is there.
pub proof fn lemma_optional_string_is_there(s: Option<String>)
    ensures
        s is None <==> opt_string(s) is None,
        s matches Some(text) ==> opt_string(s) == Some(text@),
{
}

/// What is left of a trimmed string is a piece of it: all around the piece is white space, and
/// the piece neither starts nor ends with any. The ends of the piece are given.
pub proof fn lemma_trimmed_is_the_inside(s: Seq<char>) -> (ends: (int, int))
    ensures
        0 <= ends.0 <= ends.1 <= s.len(),
        trimmed(s) == s.subrange(ends.0, ends.1),
        forall|i: int| 0 <= i < ends.0 ==> is_white_space(#[trigger] s[i]),
        forall|i: int| ends.1 <= i < s.len() ==> is_white_space(#[trigger] s[i]),
        ends.0 < ends.1 ==> !is_white_space(s[ends.0]) && !is_white_space(s[ends.1 - 1]),
{
    let start = lemma_start_is_trimmed(s);
    let rest = s.skip(start);
    let count = lemma_end_is_trimmed(rest);
    assert(rest.take(count) =~= s.subrange(start, start + count));
    assert forall|i: int| start + count <= i < s.len() implies is_white_space(#[trigger] s[i]) by {
        assert(rest[i - start] == s[i]);
    }
    if count > 0 {
        assert(rest[0] == s[start]);
        assert(rest[count - 1] == s[start + count - 1]);
    }
    (start, start + count)
}

proof fn lemma_start_is_trimmed(s: Seq<char>) -> (start: int)
    ensures
        0 <= start <= s.len(),
        trimmed_start(s) == s.skip(start),
        forall|i: int| 0 <= i < start ==> is_white_space(#[trigger] s[i]),
        start < s.len() ==> !is_white_space(s[start]),
    decreases s.len(),
{
    if s.len() > 0 && is_white_space(s.first()) {
        let rest = s.drop_first();
        let start = lemma_start_is_trimmed(rest);
        assert(rest.skip(start) =~= s.skip(start + 1));
        assert forall|i: int| 0 <= i < start + 1 implies is_white_space(#[trigger] s[i]) by {
            if i > 0 {
                assert(rest[i - 1] == s[i]);
            }
        }
        start + 1
    } else {
        assert(s.skip(0) =~= s);
        0
    }
}

proof fn lemma_end_is_trimmed(s: Seq<char>) -> (count: int)
    ensures
        0 <= count <= s.len(),
        trimmed_end(s) == s.take(count),
        forall|i: int| count <= i < s.len() ==> is_white_space(#[trigger] s[i]),
        count > 0 ==> !is_white_space(s[count - 1]),
        s.len() > 0 && !is_white_space(s[0]) ==> count > 0,
    decreases s.len(),
{
    if s.len() > 0 && is_white_space(s.last()) {
        let front = s.drop_last();
        let count = lemma_end_is_trimmed(front);
        assert(front.take(count) =~= s.take(count));
        assert forall|i: int| count <= i < s.len() implies is_white_space(#[trigger] s[i]) by {
            if i < front.len() {
                assert(front[i] == s[i]);
            }
        }
        if count > 0 {
            assert(front[count - 1] == s[count - 1]);
        }
        if s.len() > 0 && !is_white_space(s[0]) {
            assert(s.len() > 1);
            assert(front[0] == s[0]);
        }
        count
    } else {
        assert(s.take(s.len() as int) =~= s);
        s.len() as int
    }
}

/// What is left of a string without its end slashes is its front; after it come only slashes,
/// and it does not end with one. The length of the front is given.
pub proof fn lemma_only_end_slashes_go(s: Seq<char>) -> (count: int)
    ensures
        0 <= count <= s.len(),
        without_end_slashes(s) == s.take(count),
        forall|i: int| count <= i < s.len() ==> #[trigger] s[i] == '/',
        count > 0 ==> s[count - 1] != '/',
    decreases s.len(),
{
    if s.len() > 0 && s.last() == '/' {
        let front = s.drop_last();
        let count = lemma_only_end_slashes_go(front);
        assert(front.take(count) =~= s.take(count));
        assert forall|i: int| count <= i < s.len() implies #[trigger] s[i] == '/' by {
            if i < front.len() {
                assert(front[i] == s[i]);
            }
        }
        count
    } else {
        assert(s.take(s.len() as int) =~= s);
        s.len() as int
    }
}

/// A string is blank if and only if it has no character that is not white space.
pub proof fn lemma_blank_has_no_ink(s: Seq<char>)
    ensures
        is_blank(s) <==> !exists|i: int| 0 <= i < s.len() && !is_white_space(#[trigger] s[i]),
{
}

/// A prefix and what follows it make up the string.
pub proof fn lemma_prefix_and_rest(s: Seq<char>, prefix: Seq<char>, rest: Seq<char>)
    ensures
        after_prefix(s, prefix) == Some(rest) <==> s == prefix + rest,
        after_prefix(s, prefix) is None <==> forall|tail: Seq<char>| s != #[trigger] (prefix + tail),
{
    assert((prefix + rest).skip(prefix.len() as int) =~= rest);
    assert((prefix + rest).subrange(0, prefix.len() as int) =~= prefix);
    if prefix.is_prefix_of(s) {
        let tail = s.skip(prefix.len() as int);
        assert(s =~= prefix + tail);
    } else {
        assert forall|tail: Seq<char>| s != #[trigger] (prefix + tail) by {
            assert((prefix + tail).subrange(0, prefix.len() as int) =~= prefix);
        }
    }
}

/// A digit at the end of digits counts as such, and what stands before it ten times.
pub proof fn lemma_digits_count_by_place(s: Seq<char>, c: char)
    requires
        '0' <= c <= '9',
    ensures
        digits_value(Seq::empty()) == 0,
        digits_value(s.push(c)) == 10 * digits_value(s) + (c as u32 - '0' as u32),
{
    assert(s.push(c).drop_last() =~= s);
}

/// A text stands for a number if and only if it is made of digits that do, with or without a
/// plus sign before them.
pub proof fn lemma_number_is_its_digits(s: Seq<char>, n: u64)
    ensures
        parsed_u64(s) == Some(n) <==> exists|digits: Seq<char>|
            {
                &&& s == digits || s == seq!['+'] + digits
                &&& digits.len() > 0
                &&& forall|i: int| 0 <= i < digits.len() ==> '0' <= #[trigger] digits[i] <= '9'
                &&& #[trigger] digits_value(digits) == n
            },
{
    let found = unsigned_digits(s);
    if s.len() > 0 && s[0] == '+' {
        assert(s =~= seq!['+'] + found);
    }
    if parsed_u64(s) == Some(n) {
        assert forall|i: int| 0 <= i < found.len() implies '0' <= #[trigger] found[i] <= '9' by {
            assert(is_digit(found[i]));
        }
        assert(digits_value(found) == n);
    }
    assert forall|digits: Seq<char>|
        {
            &&& s == digits || s == seq!['+'] + digits
            &&& digits.len() > 0
            &&& forall|i: int| 0 <= i < digits.len() ==> '0' <= #[trigger] digits[i] <= '9'
            &&& #[trigger] digits_value(digits) == n
        } implies parsed_u64(s) == Some(n) by {
        assert('0' <= digits[0] <= '9');
        if s == digits {
            assert(found == digits);
        } else {
            assert(s[0] == '+');
            assert(found =~= digits);
        }
        assert(all_digits(digits));
    }
}

/// The decimal text of a number is made of digits that stand for it, without a leading zero.
pub proof fn lemma_decimal_stands_for_the_number(n: nat)
    ensures
        decimal(n).len() > 0,
        forall|i: int| 0 <= i < decimal(n).len() ==> '0' <= #[trigger] decimal(n)[i] <= '9',
        digits_value(decimal(n)) == n,
        n > 0 ==> decimal(n)[0] != '0',
    decreases n,
{
    if n < 10 {
        assert(decimal(n).drop_last() =~= Seq::<char>::empty());
        assert(decimal(n).last() as u32 == '0' as u32 + n);
        assert(digits_value(decimal(n).drop_last()) == 0);
    } else {
        lemma_decimal_stands_for_the_number(n / 10);
        assert(decimal(n).last() as u32 == '0' as u32 + n % 10);
        assert(decimal(n).drop_last() =~= decimal(n / 10));
        assert forall|i: int| 0 <= i < decimal(n).len() implies '0' <= #[trigger] decimal(n)[i]
            <= '9' by {
            if i < decimal(n / 10).len() {
                assert(decimal(n)[i] == decimal(n / 10)[i]);
            }
        }
        assert(decimal(n)[0] == decimal(n / 10)[0]);
    }
}

/// Different numbers have different decimal texts.
pub proof fn lemma_decimal_is_injective(m: u64, n: u64)
    requires
        decimal(m as nat) == decimal(n as nat),
    ensures
        m == n,
{
    lemma_decimal_round_trip(m);
    lemma_decimal_round_trip(n);
}

/// The first place where two strings differ, or where one ends, decides which comes first.
pub proof fn lemma_first_difference_decides(a: Seq<char>, b: Seq<char>, i: int)
    requires
        0 <= i <= a.len(),
        i <= b.len(),
        forall|j: int| 0 <= j < i ==> #[trigger] a[j] == b[j],
        i < a.len() && i < b.len() ==> a[i] != b[i],
    ensures
        chars_less(a, b) <==> i < b.len() && (i == a.len() || a[i] < b[i]),
    decreases i,
{
    if i > 0 {
        assert(a[0] == b[0]);
        let rest_a = a.drop_first();
        let rest_b = b.drop_first();
        assert forall|j: int| 0 <= j < i - 1 implies #[trigger] rest_a[j] == rest_b[j] by {
            assert(a[j + 1] == b[j + 1]);
        }
        lemma_first_difference_decides(rest_a, rest_b, i - 1);
    }
}

} // verus!
