//! Scanning of character strings: trimming, searching, splitting and
//! reading numbers.

use crate::text::{all_digits, digit_value, digits_value, fraction_nanos, is_digit, lemma_digits_value_prefix, nine_digits, pow10, signed_text_value, first_index, is_first_index, is_space, lemma_first_index_unique, split, strip_trailing, trim_end, trim_start, trimmed};
use vstd::prelude::*;

verus! {

/// The views of the pieces in `parts`.
pub open spec fn pieces(parts: Seq<Vec<char>>) -> Seq<Seq<char>> {
    parts.map_values(|p: Vec<char>| p@)
}

/// Whether `c` is white space.
pub fn is_whitespace(c: char) -> (r: bool)
    ensures
        r == is_space(c),
{
    let u: u32 = c as u32;
    (0x09 <= u && u <= 0x0D) || u == 0x20 || u == 0x85 || u == 0xA0 || u == 0x1680 || (0x2000 <= u
        && u <= 0x200A) || u == 0x2028 || u == 0x2029 || u == 0x202F || u == 0x205F || u == 0x3000
}

/// The characters of `v` from index `from` up to, not including, `to`.
pub fn sub_vec(v: &Vec<char>, from: usize, to: usize) -> (r: Vec<char>)
    requires
        from <= to <= v.len(),
    ensures
        r@ == v@.subrange(from as int, to as int),
{
    let mut out: Vec<char> = Vec::new();
    let mut i: usize = from;
    while i < to
        invariant
            from <= i <= to <= v.len(),
            out@ =~= v@.subrange(from as int, i as int),
        decreases to - i,
    {
        out.push(v[i]);
        i += 1;
    }
    out
}

/// `v` without the white space at its start and at its end.
pub fn trim(v: &Vec<char>) -> (r: Vec<char>)
    ensures
        r@ == trimmed(v@),
{
    let n = v.len();
    let mut start: usize = 0;
    assert(v@.skip(0) =~= v@);
    while start < n && is_whitespace(v[start])
        invariant
            start <= n == v.len(),
            trim_start(v@) == trim_start(v@.skip(start as int)),
        decreases n - start,
    {
        assert(v@.skip(start as int).drop_first() =~= v@.skip(start + 1));
        start += 1;
    }
    assert(v@.skip(start as int) =~= v@.subrange(start as int, n as int));
    let mut end: usize = n;
    while end > start && is_whitespace(v[end - 1])
        invariant
            start <= end <= n == v.len(),
            trimmed(v@) == trim_end(v@.subrange(start as int, end as int)),
        decreases end,
    {
        assert(v@.subrange(start as int, end as int).drop_last() =~= v@.subrange(
            start as int,
            end - 1,
        ));
        end -= 1;
    }
    sub_vec(v, start, end)
}

/// `v` without the run of `c` at its end.
pub fn strip_trailing_char(v: &Vec<char>, c: char) -> (r: Vec<char>)
    ensures
        r@ == strip_trailing(v@, c),
{
    let mut end: usize = v.len();
    assert(v@.take(end as int) =~= v@);
    while end > 0 && v[end - 1] == c
        invariant
            end <= v.len(),
            strip_trailing(v@, c) == strip_trailing(v@.take(end as int), c),
        decreases end,
    {
        assert(v@.take(end as int).drop_last() =~= v@.take(end - 1));
        end -= 1;
    }
    sub_vec(v, 0, end)
}

/// Where `c` first occurs in `v`; the length of `v` where it does not occur.
pub fn find_char(v: &Vec<char>, c: char) -> (i: usize)
    ensures
        i == first_index(v@, c),
        is_first_index(v@, c, i as int),
{
    let mut i: usize = 0;
    while i < v.len() && v[i] != c
        invariant
            i <= v.len(),
            forall|j: int| 0 <= j < i ==> v@[j] != c,
        decreases v.len() - i,
    {
        i += 1;
    }
    proof {
        lemma_first_index_unique(v@, c, i as int);
    }
    i
}

/// The pieces of `v` between the occurrences of `sep`.
pub fn split_chars(v: &Vec<char>, sep: char) -> (parts: Vec<Vec<char>>)
    ensures
        pieces(parts@) == split(v@, sep),
        parts.len() >= 1,
{
    let n = v.len();
    let mut parts: Vec<Vec<char>> = Vec::new();
    let mut pos: usize = 0;
    assert(v@.skip(0) =~= v@);
    assert(pieces(parts@) + split(v@.skip(0), sep) =~= split(v@, sep));
    loop
        invariant_except_break
            pos <= n == v.len(),
            split(v@, sep) == pieces(parts@) + split(v@.skip(pos as int), sep),
        ensures
            pieces(parts@) == split(v@, sep),
            parts.len() >= 1,
        decreases n - pos,
    {
        let mut j: usize = pos;
        while j < n && v[j] != sep
            invariant
                pos <= j <= n == v.len(),
                forall|k: int| pos <= k < j ==> v@[k] != sep,
            decreases n - j,
        {
            j += 1;
        }
        let ghost rest = v@.skip(pos as int);
        let ghost before = parts@;
        let piece = sub_vec(v, pos, j);
        proof {
            assert(is_first_index(rest, sep, j - pos));
            lemma_first_index_unique(rest, sep, j - pos);
        }
        parts.push(piece);
        assert(pieces(parts@) =~= pieces(before).push(piece@));
        if j == n {
            assert(rest =~= piece@);
            assert(pieces(parts@) =~= split(v@, sep));
            break;
        }
        assert(rest.take(j - pos) =~= piece@);
        assert(rest.skip(j - pos + 1) =~= v@.skip(j + 1));
        assert(split(v@, sep) =~= pieces(parts@) + split(v@.skip(j + 1), sep));
        pos = j + 1;
    }
    parts
}

/// The value of the digit `c`.
pub fn digit_to_value(c: char) -> (d: u8)
    requires
        is_digit(c),
    ensures
        d == digit_value(c),
        d <= 9,
{
    (c as u32 - 48) as u8
}

/// The integer that `v` denotes: an optional sign, then digits. `None`
/// where `v` is not of that form or the value does not fit.
pub fn parse_int(v: &Vec<char>) -> (r: Option<i64>)
    ensures
        match r {
            Some(x) => signed_text_value(v@) == Some(x as int),
            None => signed_text_value(v@) is None,
        },
{
    let n = v.len();
    if n == 0 {
        return None;
    }
    let negative = v[0] == '-';
    let signed = negative || v[0] == '+';
    let start: usize = if signed {
        1
    } else {
        0
    };
    if start == n {
        return None;
    }
    let ghost digits = v@.subrange(start as int, n as int);
    assert(digits =~= if signed {
        v@.drop_first()
    } else {
        v@
    });
    let mut acc: u64 = 0;
    let mut i: usize = start;
    assert(digits.take(0) =~= Seq::<char>::empty());
    while i < n
        invariant
            start <= i <= n == v.len(),
            n > 0,
            negative == (v@[0] == '-'),
            signed == (negative || v@[0] == '+'),
            digits == v@.subrange(start as int, n as int),
            digits == if signed {
                v@.drop_first()
            } else {
                v@
            },
            all_digits(digits.take(i - start)),
            acc == digits_value(digits.take(i - start)),
            acc <= 0x8000_0000_0000_0000,
        decreases n - i,
    {
        let c = v[i];
        if !(c >= '0' && c <= '9') {
            assert(!is_digit(digits[i - start]));
            return None;
        }
        let d: u64 = digit_to_value(c) as u64;
        let ghost longer = digits.take(i + 1 - start);
        assert(longer.drop_last() =~= digits.take(i - start));
        assert(longer.last() == c);
        assert(digits_value(longer) == acc * 10 + d);
        if acc > 922_337_203_685_477_580 || acc * 10 + d > 0x8000_0000_0000_0000 {
            proof {
                if all_digits(digits) {
                    lemma_digits_value_prefix(digits, i + 1 - start);
                }
            }
            return None;
        }
        assert forall|k: int| 0 <= k < longer.len() implies is_digit(#[trigger] longer[k]) by {
            if k < i - start {
                assert(longer[k] == digits.take(i - start)[k]);
            }
        }
        acc = acc * 10 + d;
        i += 1;
    }
    assert(digits.take(n - start) =~= digits);
    if negative {
        if acc == 0x8000_0000_0000_0000 {
            Some(i64::MIN)
        } else {
            Some(-(acc as i64))
        }
    } else if acc == 0x8000_0000_0000_0000 {
        None
    } else {
        Some(acc as i64)
    }
}

/// The nanoseconds that the fraction digits `v` denote: the first nine
/// digits, with zeros for those that are missing. `None` where `v` holds
/// anything but digits.
pub fn parse_fraction(v: &Vec<char>) -> (r: Option<i32>)
    ensures
        match r {
            Some(x) => fraction_nanos(v@) == Some(x as int) && 0 <= x <= 999_999_999,
            None => fraction_nanos(v@) is None,
        },
{
    let n = v.len();
    let mut i: usize = 0;
    while i < n
        invariant
            i <= n == v.len(),
            forall|j: int| 0 <= j < i ==> is_digit(#[trigger] v@[j]),
        decreases n - i,
    {
        let c = v[i];
        if !(c >= '0' && c <= '9') {
            return None;
        }
        i += 1;
    }
    let ghost nine = nine_digits(v@);
    let mut acc: u32 = 0;
    let mut k: usize = 0;
    assert(nine.take(0) =~= Seq::<char>::empty());
    proof {
        reveal_with_fuel(pow10, 10);
    }
    while k < 9
        invariant
            k <= 9,
            n == v.len(),
            all_digits(v@),
            nine == nine_digits(v@),
            acc == digits_value(nine.take(k as int)),
            acc < pow10(k as nat) <= pow10(9) == 1_000_000_000,
        decreases 9 - k,
    {
        let d: u32 = if k < n {
            digit_to_value(v[k]) as u32
        } else {
            0
        };
        assert(nine.take(k + 1).drop_last() =~= nine.take(k as int));
        assert(nine.take(k + 1).last() == nine[k as int]);
        assert(digit_value(nine[k as int]) == d);
        proof {
            reveal_with_fuel(pow10, 10);
        }
        acc = acc * 10 + d;
        k += 1;
    }
    assert(nine.take(9) =~= nine);
    Some(acc as i32)
}

} // verus!
