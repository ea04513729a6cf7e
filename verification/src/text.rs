//! Names as sequences of characters: suffixes, separators and decimal
//! numbers.

use vstd::prelude::*;

verus! {

/// The characters of a string.
pub(crate) fn chars_of(s: &str) -> (v: Vec<char>)
    ensures
        v@ == s@,
{
    let mut v: Vec<char> = Vec::new();
    for c in it: s.chars()
        invariant
            it.seq() == s@,
            v@ == s@.take(it.index() as int),
    {
        v.push(c);
    }
    v
}

/// Whether `pattern` stands in `name` at place `at`.
pub open spec fn occurs_at(name: Seq<char>, pattern: Seq<char>, at: int) -> bool {
    &&& 0 <= at
    &&& at + pattern.len() <= name.len()
    &&& name.subrange(at, at + pattern.len()) == pattern
}

/// Whether `name` ends with `suffix`.
pub open spec fn ends_with_spec(name: Seq<char>, suffix: Seq<char>) -> bool {
    occurs_at(name, suffix, name.len() - suffix.len())
}

/// `name` without `suffix` at its end, if it ends with it.
pub open spec fn strip_suffix_spec(name: Seq<char>, suffix: Seq<char>) -> Option<Seq<char>> {
    if ends_with_spec(name, suffix) {
        Some(name.take(name.len() - suffix.len()))
    } else {
        None
    }
}

/// The first place at or after `from` where `pattern` stands in `name`.
pub open spec fn find_from(name: Seq<char>, pattern: Seq<char>, from: int) -> Option<int>
    decreases name.len() + 1 - from,
{
    if from < 0 || from + pattern.len() > name.len() {
        None
    } else if occurs_at(name, pattern, from) {
        Some(from)
    } else {
        find_from(name, pattern, from + 1)
    }
}

/// What stands before and after the first occurrence of `pattern` in `name`.
pub open spec fn split_once_spec(name: Seq<char>, pattern: Seq<char>) -> Option<
    (Seq<char>, Seq<char>),
> {
    match find_from(name, pattern, 0) {
        Some(at) => Some((name.take(at), name.skip(at + pattern.len()))),
        None => None,
    }
}

/// The value of a decimal digit.
pub open spec fn digit_value(c: char) -> Option<int> {
    if '0' <= c && c <= '9' {
        Some(c as int - '0' as int)
    } else {
        None
    }
}

/// The number that a sequence of decimal digits writes; the empty sequence
/// writes 0, and one that holds anything but digits writes none.
pub open spec fn decimal_value(digits: Seq<char>) -> Option<int>
    decreases digits.len(),
{
    if digits.len() == 0 {
        Some(0)
    } else {
        match (decimal_value(digits.drop_last()), digit_value(digits.last())) {
            (Some(value), Some(digit)) => Some(10 * value + digit),
            _ => None,
        }
    }
}

/// The unsigned 32-bit number that `text` writes: one or more decimal
/// digits, with `+` allowed before them, that stay within the type's range.
pub open spec fn parse_u32_spec(text: Seq<char>) -> Option<u32> {
    let digits = if text.len() > 0 && text[0] == '+' {
        text.skip(1)
    } else {
        text
    };
    if digits.len() == 0 {
        None
    } else {
        match decimal_value(digits) {
            Some(value) => if value <= u32::MAX {
                Some(value as u32)
            } else {
                None
            },
            None => None,
        }
    }
}

/// A number written in digits is not negative, and no smaller than the
/// number that any of its beginnings writes.
pub proof fn lemma_decimal_value_grows(digits: Seq<char>, n: int)
    requires
        0 <= n <= digits.len(),
        decimal_value(digits) is Some,
    ensures
        decimal_value(digits.take(n)) is Some,
        0 <= decimal_value(digits.take(n))->0 <= decimal_value(digits)->0,
    decreases digits.len(),
{
    if n == digits.len() {
        assert(digits.take(n) == digits);
        if digits.len() > 0 {
            lemma_decimal_value_grows(digits.drop_last(), n - 1);
        }
    } else {
        lemma_decimal_value_grows(digits.drop_last(), n);
        assert(digits.drop_last().take(n) == digits.take(n));
    }
}

/// Strips `suffix` from the end of the part of `name` before place `end`:
/// the place where the suffix begins, if that part ends with it.
pub(crate) fn strip_suffix(name: &Vec<char>, end: usize, suffix: &str) -> (r: Option<usize>)
    requires
        end <= name@.len(),
    ensures
        match r {
            Some(rest) => rest + suffix@.len() == end && strip_suffix_spec(
                name@.take(end as int),
                suffix@,
            ) == Some(name@.take(rest as int)),
            None => strip_suffix_spec(name@.take(end as int), suffix@) is None,
        },
{
    let tail = chars_of(suffix);
    if tail.len() > end {
        return None;
    }
    let start = end - tail.len();
    if stands_at(name, end, &tail, start) {
        proof {
            assert(name@.take(end as int).take(start as int) =~= name@.take(start as int));
        }
        Some(start)
    } else {
        None
    }
}

/// Whether `pattern` stands in the part of `name` before place `end`, at
/// place `at`.
fn stands_at(name: &Vec<char>, end: usize, pattern: &Vec<char>, at: usize) -> (r: bool)
    requires
        end <= name@.len(),
        at + pattern@.len() <= end,
    ensures
        r == occurs_at(name@.take(end as int), pattern@, at as int),
{
    let ghost head = name@.take(end as int);
    let mut i: usize = 0;
    while i < pattern.len()
        invariant
            i <= pattern@.len(),
            at + pattern@.len() <= end,
            end <= name@.len(),
            head == name@.take(end as int),
            forall|j: int| 0 <= j < i ==> name@[at + j] == pattern@[j],
        decreases pattern@.len() - i,
    {
        if name[at + i] != pattern[i] {
            proof {
                let part = head.subrange(at as int, at + pattern@.len());
                assert(part[i as int] == name@[at + i]);
            }
            return false;
        }
        i = i + 1;
    }
    proof {
        assert(head.subrange(at as int, at + pattern@.len()) =~= pattern@);
    }
    true
}

/// The first place where `pattern` stands in the part of `name` before place
/// `end`.
pub(crate) fn find(name: &Vec<char>, end: usize, pattern: &str) -> (r: Option<usize>)
    requires
        end <= name@.len(),
    ensures
        match r {
            Some(at) => find_from(name@.take(end as int), pattern@, 0) == Some(at as int) && at
                + pattern@.len() <= end,
            None => find_from(name@.take(end as int), pattern@, 0) is None,
        },
{
    let wanted = chars_of(pattern);
    if wanted.len() > end {
        return None;
    }
    let last = end - wanted.len();
    let ghost head = name@.take(end as int);
    let mut at: usize = 0;
    loop
        invariant
            at <= last,
            last + wanted@.len() == end,
            end <= name@.len(),
            wanted@ == pattern@,
            head == name@.take(end as int),
            find_from(head, pattern@, 0) == find_from(head, pattern@, at as int),
        decreases last - at,
    {
        if stands_at(name, end, &wanted, at) {
            return Some(at);
        }
        if at == last {
            assert(find_from(head, pattern@, at + 1) is None);
            return None;
        }
        at = at + 1;
    }
}

/// Reads the unsigned 32-bit number that the characters of `text` from place
/// `from` to place `end` write.
pub(crate) fn parse_u32(text: &Vec<char>, from: usize, end: usize) -> (r: Option<u32>)
    requires
        from <= end <= text@.len(),
    ensures
        r == parse_u32_spec(text@.subrange(from as int, end as int)),
{
    let ghost whole = text@.subrange(from as int, end as int);
    let mut start = from;
    if start < end && text[start] == '+' {
        start = start + 1;
    }
    let ghost digits = text@.subrange(start as int, end as int);
    proof {
        if start > from {
            assert(whole.skip(1) =~= digits);
        }
    }
    if start == end {
        return None;
    }
    let ghost wanted = match decimal_value(digits) {
        Some(value) => if value <= u32::MAX {
            Some(value as u32)
        } else {
            None
        },
        None => None,
    };
    assert(parse_u32_spec(whole) == wanted);
    let mut value: u64 = 0;
    let mut i: usize = start;
    while i < end
        invariant
            start <= i <= end <= text@.len(),
            from <= end,
            digits == text@.subrange(start as int, end as int),
            parse_u32_spec(text@.subrange(from as int, end as int)) == wanted,
            wanted == match decimal_value(digits) {
                Some(value) => if value <= u32::MAX {
                    Some(value as u32)
                } else {
                    None
                },
                None => None,
            },
            decimal_value(digits.take(i - start)) == Some(value as int),
            value <= u32::MAX,
        decreases end - i,
    {
        let c = text[i];
        let ghost longer = digits.take(i - start + 1);
        proof {
            assert(longer.drop_last() =~= digits.take(i - start));
            assert(longer.last() == c);
        }
        if c < '0' || c > '9' {
            proof {
                assert(decimal_value(longer) is None);
                if decimal_value(digits) is Some {
                    lemma_decimal_value_grows(digits, i - start + 1);
                }
            }
            return None;
        }
        let digit = (c as u32 - '0' as u32) as u64;
        value = value * 10 + digit;
        proof {
            assert(digit_value(c) == Some(digit as int));
            assert(decimal_value(longer) == Some(value as int));
        }
        if value > 0xffff_ffff {
            proof {
                if decimal_value(digits) is Some {
                    lemma_decimal_value_grows(digits, i - start + 1);
                }
            }
            return None;
        }
        i = i + 1;
    }
    proof {
        assert(digits.take(i - start) =~= digits);
    }
    Some(value as u32)
}

} // verus!
