//! Small string operations shared by the rest of the crate.

use vstd::prelude::*;
use vstd::string::*;
use vstd::std_specs::iter::IteratorSpec;
use crate::json::decimal_text;

verus! {

/// `prefix` is an initial segment of `s`.
pub open spec fn has_prefix(s: Seq<char>, prefix: Seq<char>) -> bool {
    prefix.len() <= s.len() && s.subrange(0, prefix.len() as int) == prefix
}

/// The number of bytes that `s` takes in UTF-8.
pub open spec fn byte_len(s: Seq<char>) -> nat {
    vstd::utf8::encode_utf8(s).len()
}

/// `n` copies of the character `c`.
pub open spec fn repeated(c: char, n: nat) -> Seq<char> {
    Seq::new(n, |i: int| c)
}

/// Whether `s` begins with `prefix`, character by character.
pub fn starts_with(s: &str, prefix: &str) -> (r: bool)
    ensures
        r == has_prefix(s@, prefix@),
{
    broadcast use vstd::string::group_string_axioms;

    let mut rest = s.chars();
    let mut wanted = prefix.chars();
    let ghost mut matched: int = 0;
    loop
        invariant
            0 <= matched <= prefix@.len(),
            matched <= s@.len(),
            rest.obeys_prophetic_iter_laws(),
            wanted.obeys_prophetic_iter_laws(),
            rest.remaining() == s@.subrange(matched, s@.len() as int),
            wanted.remaining() == prefix@.subrange(matched, prefix@.len() as int),
            s@.subrange(0, matched) == prefix@.subrange(0, matched),
        decreases prefix@.len() - matched,
    {
        match wanted.next() {
            None => {
                assert(matched == prefix@.len());
                assert(prefix@.subrange(0, matched) =~= prefix@);
                return true;
            },
            Some(c) => {
                assert(c == prefix@[matched]);
                match rest.next() {
                    None => {
                        assert(s@.len() == matched);
                        return false;
                    },
                    Some(d) => {
                        assert(d == s@[matched]);
                        if c != d {
                            assert(!has_prefix(s@, prefix@)) by {
                                if has_prefix(s@, prefix@) {
                                    assert(s@.subrange(0, prefix@.len() as int)[matched] == prefix@[matched]);
                                }
                            }
                            return false;
                        }
                        proof {
                            assert(s@.subrange(0, matched + 1) =~= s@.subrange(0, matched).push(d));
                            assert(prefix@.subrange(0, matched + 1) =~= prefix@.subrange(
                                0,
                                matched,
                            ).push(c));
                            assert(rest.remaining() =~= s@.subrange(matched + 1, s@.len() as int));
                            assert(wanted.remaining() =~= prefix@.subrange(
                                matched + 1,
                                prefix@.len() as int,
                            ));
                            matched = matched + 1;
                        }
                    },
                }
            },
        }
    }
}

/// Whether two byte strings are the same.
pub fn same_bytes(a: &[u8], b: &[u8]) -> (same: bool)
    ensures
        same == (a@ == b@),
{
    if a.len() != b.len() {
        return false;
    }
    let mut i: usize = 0;
    while i < a.len()
        invariant
            i <= a@.len(),
            a@.len() == b@.len(),
            forall|j: int| 0 <= j < i ==> a@[j] == b@[j],
        decreases a@.len() - i,
    {
        if a[i] != b[i] {
            return false;
        }
        i = i + 1;
    }
    assert(a@ =~= b@);
    true
}

/// Whether two texts are the same: they are when their bytes are, as no two
/// texts have the same encoding.
pub fn same_text(a: &str, b: &str) -> (same: bool)
    ensures
        same == (a@ == b@),
{
    let same = same_bytes(a.as_bytes(), b.as_bytes());
    proof {
        vstd::utf8::encode_utf8_decode_utf8(a@);
        vstd::utf8::encode_utf8_decode_utf8(b@);
    }
    same
}

/// `s` without the characters `c` at its end.
pub open spec fn without_trailing(s: Seq<char>, c: char) -> Seq<char>
    decreases s.len(),
{
    if s.len() > 0 && s.last() == c {
        without_trailing(s.drop_last(), c)
    } else {
        s
    }
}

/// `s` without the characters `c` at its end.
pub fn trim_end(s: &str, c: char) -> (trimmed: String)
    ensures
        trimmed@ == without_trailing(s@, c),
{
    let mut end = s.unicode_len();
    assert(s@.subrange(0, end as int) =~= s@);
    while end > 0 && s.get_char(end - 1) == c
        invariant
            end <= s@.len(),
            without_trailing(s@, c) == without_trailing(s@.subrange(0, end as int), c),
        decreases end,
    {
        assert(s@.subrange(0, end as int).drop_last() =~= s@.subrange(0, end - 1));
        end = end - 1;
    }
    String::from_str(s.substring_char(0, end))
}

/// A quote, single or double, or a space.
pub open spec fn is_wrapping(c: char) -> bool {
    c == '\'' || c == '"' || c == ' '
}

/// `s` without the quotes and spaces at its end.
pub open spec fn without_wrapping_end(s: Seq<char>) -> Seq<char>
    decreases s.len(),
{
    if s.len() > 0 && is_wrapping(s.last()) {
        without_wrapping_end(s.drop_last())
    } else {
        s
    }
}

/// `s` without the quotes and spaces at its start.
pub open spec fn without_wrapping_start(s: Seq<char>) -> Seq<char>
    decreases s.len(),
{
    if s.len() > 0 && is_wrapping(s.first()) {
        without_wrapping_start(s.drop_first())
    } else {
        s
    }
}

/// Whether `c` is a quote, single or double, or a space.
pub fn is_wrapping_char(c: char) -> (wrapping: bool)
    ensures
        wrapping == is_wrapping(c),
{
    c == '\'' || c == '"' || c == ' '
}

/// `s` without the quotes and spaces at its start and at its end.
pub fn trim_wrapping(s: &str) -> (trimmed: String)
    ensures
        trimmed@ == without_wrapping_end(without_wrapping_start(s@)),
{
    let count = s.unicode_len();
    let mut start: usize = 0;
    assert(s@.subrange(0, count as int) =~= s@);
    while start < count && is_wrapping_char(s.get_char(start))
        invariant
            start <= count,
            count == s@.len(),
            without_wrapping_start(s@) == without_wrapping_start(
                s@.subrange(start as int, count as int),
            ),
        decreases count - start,
    {
        assert(s@.subrange(start as int, count as int).drop_first() =~= s@.subrange(
            start + 1,
            count as int,
        ));
        start = start + 1;
    }
    let ghost middle = s@.subrange(start as int, count as int);
    assert(without_wrapping_start(s@) == middle);
    let mut end = count;
    assert(middle.subrange(0, middle.len() as int) =~= middle);
    while end > start && is_wrapping_char(s.get_char(end - 1))
        invariant
            start <= end <= count,
            count == s@.len(),
            middle == s@.subrange(start as int, count as int),
            without_wrapping_end(middle) == without_wrapping_end(
                middle.subrange(0, end - start),
            ),
        decreases end,
    {
        assert(middle.subrange(0, end - start).drop_last() =~= middle.subrange(0, end - start - 1));
        assert(middle.subrange(0, end - start).last() == s@[end - 1]);
        end = end - 1;
    }
    assert(middle.subrange(0, end - start) =~= s@.subrange(start as int, end as int));
    String::from_str(s.substring_char(start, end))
}

/// The text that `str::to_lowercase` gives for `s`: each character replaced
/// by its lower-case form as Unicode defines it.
pub uninterp spec fn lowercase_of(s: Seq<char>) -> Seq<char>;

/// Trusted: `str::to_lowercase`.
#[verifier::external_body]
pub(crate) fn to_lowercase(s: &str) -> (lower: String)
    ensures
        lower@ == lowercase_of(s@),
{
    s.to_lowercase()
}

/// The decimal digit for a number below ten, as text.
fn digit(d: u64) -> (text: &'static str)
    requires
        d < 10,
    ensures
        text@ == seq![crate::json::digit_char(d as nat)],
{
    proof {
        reveal_strlit("0");
        reveal_strlit("1");
        reveal_strlit("2");
        reveal_strlit("3");
        reveal_strlit("4");
        reveal_strlit("5");
        reveal_strlit("6");
        reveal_strlit("7");
        reveal_strlit("8");
        reveal_strlit("9");
    }
    let text = if d == 0 {
        "0"
    } else if d == 1 {
        "1"
    } else if d == 2 {
        "2"
    } else if d == 3 {
        "3"
    } else if d == 4 {
        "4"
    } else if d == 5 {
        "5"
    } else if d == 6 {
        "6"
    } else if d == 7 {
        "7"
    } else if d == 8 {
        "8"
    } else {
        "9"
    };
    assert(text@ =~= seq![crate::json::digit_char(d as nat)]);
    text
}

/// A number in decimal, without leading zeros.
pub fn decimal(n: u64) -> (s: String)
    ensures
        s@ == decimal_text(n as nat),
    decreases n,
{
    if n < 10 {
        String::from_str(digit(n))
    } else {
        let mut s = decimal(n / 10);
        s.append(digit(n % 10));
        assert(s@ =~= decimal_text((n / 10) as nat).push(crate::json::digit_char((n % 10) as nat)));
        s
    }
}

/// The text `a` followed by `b`.
pub fn join2(a: &str, b: &str) -> (s: String)
    ensures
        s@ == a@ + b@,
{
    let mut s = String::from_str(a);
    s.append(b);
    s
}

/// A string of `n` zero characters.
pub fn zeros(n: usize) -> (s: String)
    ensures
        s@ == repeated('0', n as nat),
{
    let mut s = String::new();
    let mut i: usize = 0;
    while i < n
        invariant
            i <= n,
            s@ == repeated('0', i as nat),
        decreases n - i,
    {
        proof {
            reveal_strlit("0");
        }
        s.append("0");
        i = i + 1;
        assert(s@ =~= repeated('0', i as nat));
    }
    s
}

} // verus!
