//! Verified text decoding shared by the level-description and recorded-path
//! formats: character extraction, separator splitting, and fixed-point decimal
//! numbers.

use vstd::prelude::*;
use vstd::string::StrSliceExecFns;

use crate::errors::LoadError;

verus! {

/// The characters of `s`, one by one.
pub fn str_to_chars(s: &str) -> (r: Vec<char>)
    ensures
        r@ == s@,
{
    let n: usize = s.unicode_len();
    let mut r: Vec<char> = Vec::new();
    let mut i: usize = 0;
    while i < n
        invariant
            n == s@.len(),
            i <= n,
            r@ == s@.take(i as int),
        decreases n - i,
    {
        let c = s.get_char(i);
        r.push(c);
        proof {
            assert(r@ =~= s@.take(i + 1));
        }
        i += 1;
    }
    proof {
        assert(r@ =~= s@);
    }
    r
}

/// The pieces of `s` between occurrences of `sep`: always one more piece than
/// there are separators, so an empty input yields one empty piece and a
/// trailing separator yields a trailing empty piece.
pub open spec fn spec_split(s: Seq<char>, sep: char) -> Seq<Seq<char>>
    decreases s.len(),
{
    if s.len() == 0 {
        seq![Seq::<char>::empty()]
    } else if s.last() == sep {
        spec_split(s.drop_last(), sep).push(Seq::<char>::empty())
    } else {
        let rest = spec_split(s.drop_last(), sep);
        rest.update(rest.len() - 1, rest.last().push(s.last()))
    }
}

pub proof fn lemma_split_nonempty(s: Seq<char>, sep: char)
    ensures
        spec_split(s, sep).len() >= 1,
    decreases s.len(),
{
    if s.len() > 0 {
        lemma_split_nonempty(s.drop_last(), sep);
    }
}

/// The lines of `s`: pieces between newline characters, with one trailing
/// newline at the very end of the input not opening a further empty line, and
/// no lines at all in an empty input.
pub open spec fn spec_lines(s: Seq<char>) -> Seq<Seq<char>> {
    if s.len() == 0 {
        Seq::<Seq<char>>::empty()
    } else if s.last() == '\n' {
        spec_split(s.drop_last(), '\n')
    } else {
        spec_split(s, '\n')
    }
}

/// Splits the first `n` characters of `s` on `sep`.
fn split_prefix(s: &Vec<char>, n: usize, sep: char) -> (r: Vec<Vec<char>>)
    requires
        n <= s@.len(),
    ensures
        r@.map_values(|piece: Vec<char>| piece@) == spec_split(s@.take(n as int), sep),
{
    let mut out: Vec<Vec<char>> = Vec::new();
    let mut cur: Vec<char> = Vec::new();
    let mut i: usize = 0;
    while i < n
        invariant
            n <= s@.len(),
            i <= n,
            out@.map_values(|piece: Vec<char>| piece@).push(cur@) =~= spec_split(
                s@.take(i as int),
                sep,
            ),
        decreases n - i,
    {
        proof {
            assert(s@.take(i + 1).drop_last() =~= s@.take(i as int));
            assert(s@.take(i + 1).last() == s@[i as int]);
            lemma_split_nonempty(s@.take(i as int), sep);
        }
        if s[i] == sep {
            out.push(cur);
            cur = Vec::new();
            proof {
                assert(out@.map_values(|piece: Vec<char>| piece@).push(cur@) =~= spec_split(
                    s@.take(i + 1),
                    sep,
                ));
            }
        } else {
            let ghost prev = out@.map_values(|piece: Vec<char>| piece@).push(cur@);
            cur.push(s[i]);
            proof {
                let now = out@.map_values(|piece: Vec<char>| piece@).push(cur@);
                assert(now =~= prev.update(prev.len() - 1, prev.last().push(s@[i as int])));
                assert(now =~= spec_split(s@.take(i + 1), sep));
            }
        }
        i += 1;
    }
    out.push(cur);
    proof {
        assert(out@.map_values(|piece: Vec<char>| piece@) =~= spec_split(s@.take(n as int), sep));
    }
    out
}

/// Splits `s` on `sep`, as `spec_split` describes.
pub fn split_on(s: &Vec<char>, sep: char) -> (r: Vec<Vec<char>>)
    ensures
        r@.map_values(|piece: Vec<char>| piece@) == spec_split(s@, sep),
{
    let n = s.len();
    proof {
        assert(s@.take(n as int) =~= s@);
    }
    split_prefix(s, n, sep)
}

/// Splits `s` into lines, as `spec_lines` describes.
pub fn split_lines(s: &Vec<char>) -> (r: Vec<Vec<char>>)
    ensures
        r@.map_values(|piece: Vec<char>| piece@) == spec_lines(s@),
{
    let n = s.len();
    if n == 0 {
        let r: Vec<Vec<char>> = Vec::new();
        proof {
            assert(r@.map_values(|piece: Vec<char>| piece@) =~= spec_lines(s@));
        }
        r
    } else if s[n - 1] == '\n' {
        proof {
            assert(s@.take(n - 1) =~= s@.drop_last());
        }
        split_prefix(s, n - 1, '\n')
    } else {
        proof {
            assert(s@.take(n as int) =~= s@);
        }
        split_prefix(s, n, '\n')
    }
}

/// A decimal digit.
pub open spec fn is_digit(c: char) -> bool {
    '0' <= c <= '9'
}

pub open spec fn digit_val(c: char) -> int {
    c as u32 - '0' as u32
}

/// A non-empty run of decimal digits.
pub open spec fn all_digits(s: Seq<char>) -> bool {
    &&& s.len() >= 1
    &&& forall|i: int| 0 <= i < s.len() ==> is_digit(#[trigger] s[i])
}

/// The number written by a run of decimal digits.
pub open spec fn digits_val(s: Seq<char>) -> int
    decreases s.len(),
{
    if s.len() == 0 {
        0
    } else {
        digits_val(s.drop_last()) * 10 + digit_val(s.last())
    }
}

pub proof fn lemma_digits_val_nonneg(s: Seq<char>)
    requires
        forall|i: int| 0 <= i < s.len() ==> is_digit(#[trigger] s[i]),
    ensures
        digits_val(s) >= 0,
    decreases s.len(),
{
    if s.len() > 0 {
        assert(forall|i: int|
            0 <= i < s.drop_last().len() ==> is_digit(#[trigger] s.drop_last()[i]));
        lemma_digits_val_nonneg(s.drop_last());
    }
}

/// The thousandths written by the fractional digits of a coordinate: the
/// first three fractional digits count, further digits are truncated away.
pub open spec fn frac_milli(f: Seq<char>) -> int {
    if f.len() >= 3 {
        digits_val(f.take(3))
    } else if f.len() == 2 {
        digits_val(f) * 10
    } else {
        digits_val(f) * 100
    }
}

/// The fixed-point value written by one coordinate token: an optional minus
/// sign, then decimal digits, then optionally a dot and at least one
/// fractional digit, of which the first three give the thousandths. A token
/// that does not fit this shape, or whose magnitude exceeds `COORD_LIMIT`
/// thousandths, has no value.
pub open spec fn spec_parse_coord(s: Seq<char>) -> Option<int> {
    let neg = s.len() > 0 && s[0] == '-';
    let body = if neg {
        s.skip(1)
    } else {
        s
    };
    let parts = spec_split(body, '.');
    if parts.len() == 1 && all_digits(parts[0]) {
        spec_signed_in_range(neg, digits_val(parts[0]) * 1000)
    } else if parts.len() == 2 && all_digits(parts[0]) && all_digits(parts[1]) {
        spec_signed_in_range(neg, digits_val(parts[0]) * 1000 + frac_milli(parts[1]))
    } else {
        None
    }
}

/// Applies the sign and enforces the coordinate range.
pub open spec fn spec_signed_in_range(neg: bool, magnitude: int) -> Option<int> {
    if magnitude <= crate::geom::COORD_LIMIT {
        Some(
            if neg {
                -magnitude
            } else {
                magnitude
            },
        )
    } else {
        None
    }
}

fn is_digit_exec(c: char) -> (b: bool)
    ensures
        b == is_digit(c),
{
    c >= '0' && c <= '9'
}

/// Reads a digit run as a number, reporting a failure for a token that is not
/// all digits or a value beyond `COORD_LIMIT`.
fn parse_digits(part: &Vec<char>) -> (r: Result<i64, LoadError>)
    ensures
        r matches Ok(v) ==> all_digits(part@) && v == digits_val(part@) && 0 <= v
            <= crate::geom::COORD_LIMIT,
        r is Err ==> r == Result::<i64, LoadError>::Err(LoadError::BadNumber) && (!all_digits(part@)
            || digits_val(part@) > crate::geom::COORD_LIMIT),
{
    if part.len() == 0 {
        return Err(LoadError::BadNumber);
    }
    let mut val: i64 = 0;
    let mut over: bool = false;
    let mut i: usize = 0;
    while i < part.len()
        invariant
            i <= part@.len(),
            forall|k: int| 0 <= k < i ==> is_digit(#[trigger] part@[k]),
            !over ==> val == digits_val(part@.take(i as int)) && 0 <= val
                <= crate::geom::COORD_LIMIT,
            over ==> digits_val(part@.take(i as int)) > crate::geom::COORD_LIMIT,
        decreases part@.len() - i,
    {
        let c = part[i];
        if !is_digit_exec(c) {
            return Err(LoadError::BadNumber);
        }
        let d: i64 = (c as u32 - '0' as u32) as i64;
        proof {
            assert(part@.take(i + 1).drop_last() =~= part@.take(i as int));
            assert(part@.take(i + 1).last() == part@[i as int]);
            assert(forall|k: int|
                0 <= k < part@.take(i as int).len() ==> is_digit(#[trigger] part@.take(i as int)[k]));
            lemma_digits_val_nonneg(part@.take(i as int));
        }
        if over {
            proof {
                assert(digits_val(part@.take(i + 1)) > crate::geom::COORD_LIMIT);
            }
        } else {
            let next: i64 = val * 10 + d;
            if next > crate::geom::COORD_LIMIT {
                over = true;
            } else {
                val = next;
            }
        }
        i += 1;
    }
    proof {
        assert(part@.take(part@.len() as int) =~= part@);
    }
    if over {
        return Err(LoadError::BadNumber);
    }
    Ok(val)
}

/// The thousandths written by a fractional digit run that has already been
/// checked to be all digits.
fn frac_milli_exec(f: &Vec<char>) -> (v: i64)
    requires
        all_digits(f@),
    ensures
        v == frac_milli(f@),
        0 <= v <= 999,
{
    let d0: i64 = (f[0] as u32 - '0' as u32) as i64;
    if f.len() == 1 {
        proof {
            reveal_with_fuel(digits_val, 2);
            assert(f@.drop_last() =~= Seq::<char>::empty());
        }
        d0 * 100
    } else {
        let d1: i64 = (f[1] as u32 - '0' as u32) as i64;
        if f.len() == 2 {
            proof {
                reveal_with_fuel(digits_val, 3);
                assert(f@.drop_last() =~= f@.take(1));
                assert(f@.take(1).drop_last() =~= Seq::<char>::empty());
                assert(f@.take(1).last() == f@[0]);
                assert(f@.last() == f@[1]);
            }
            d0 * 100 + d1 * 10
        } else {
            let d2: i64 = (f[2] as u32 - '0' as u32) as i64;
            proof {
                reveal_with_fuel(digits_val, 4);
                let t3 = f@.take(3);
                assert(t3.drop_last() =~= f@.take(2));
                assert(f@.take(2).drop_last() =~= f@.take(1));
                assert(f@.take(1).drop_last() =~= Seq::<char>::empty());
                assert(t3.last() == f@[2]);
                assert(f@.take(2).last() == f@[1]);
                assert(f@.take(1).last() == f@[0]);
                assert(digits_val(f@.take(1)) == digit_val(f@[0]));
                assert(digits_val(f@.take(2)) == digit_val(f@[0]) * 10 + digit_val(f@[1]));
                assert(digits_val(t3) == (digit_val(f@[0]) * 10 + digit_val(f@[1])) * 10
                    + digit_val(f@[2]));
            }
            d0 * 100 + d1 * 10 + d2
        }
    }
}

/// The thousandths of a digit run are never negative.
pub proof fn lemma_frac_milli_nonneg(f: Seq<char>)
    requires
        all_digits(f),
    ensures
        frac_milli(f) >= 0,
{
    if f.len() >= 3 {
        assert(forall|i: int| 0 <= i < f.take(3).len() ==> is_digit(#[trigger] f.take(3)[i]));
        lemma_digits_val_nonneg(f.take(3));
    } else {
        lemma_digits_val_nonneg(f);
    }
}

/// Copies the characters of `v` from `start` on.
fn chars_from(v: &Vec<char>, start: usize) -> (r: Vec<char>)
    requires
        start <= v@.len(),
    ensures
        r@ == v@.skip(start as int),
{
    let mut r: Vec<char> = Vec::new();
    let mut i: usize = start;
    while i < v.len()
        invariant
            start <= i <= v@.len(),
            r@ =~= v@.subrange(start as int, i as int),
        decreases v@.len() - i,
    {
        let c = v[i];
        r.push(c);
        i += 1;
    }
    proof {
        assert(r@ =~= v@.skip(start as int));
    }
    r
}

/// Reads one coordinate token into a fixed-point value in thousandths, as
/// `spec_parse_coord` describes; a malformed or out-of-range token is a
/// `BadNumber` load failure.
pub fn parse_coord(token: &Vec<char>) -> (r: Result<i64, LoadError>)
    ensures
        spec_parse_coord(token@) matches Some(v) ==> r == Result::<i64, LoadError>::Ok(v as i64),
        spec_parse_coord(token@) is None ==> r == Result::<i64, LoadError>::Err(
            LoadError::BadNumber,
        ),
        r matches Ok(v) ==> -crate::geom::COORD_LIMIT <= v <= crate::geom::COORD_LIMIT,
{
    let neg: bool = token.len() > 0 && token[0] == '-';
    let body: Vec<char> = if neg {
        chars_from(token, 1)
    } else {
        chars_from(token, 0)
    };
    proof {
        if !neg {
            assert(body@ =~= token@);
        }
    }
    let parts = split_on(&body, '.');
    let ghost sparts = spec_split(body@, '.');
    let magnitude: i64 = if parts.len() == 1 {
        proof {
            assert(parts@.map_values(|piece: Vec<char>| piece@)[0] == sparts[0]);
        }
        match parse_digits(&parts[0]) {
            Ok(v) => {
                if v > crate::geom::COORD_LIMIT / 1000 {
                    return Err(LoadError::BadNumber);
                }
                v * 1000
            },
            Err(e) => {
                return Err(e);
            },
        }
    } else if parts.len() == 2 {
        proof {
            assert(parts@.map_values(|piece: Vec<char>| piece@)[0] == sparts[0]);
            assert(parts@.map_values(|piece: Vec<char>| piece@)[1] == sparts[1]);
        }
        let int_part: i64 = match parse_digits(&parts[0]) {
            Ok(v) => v,
            Err(e) => {
                proof {
                    if spec_parse_coord(token@) is Some {
                        assert(all_digits(sparts[0]) && all_digits(sparts[1]));
                        lemma_frac_milli_nonneg(sparts[1]);
                        assert(digits_val(sparts[0]) * 1000 + frac_milli(sparts[1])
                            > crate::geom::COORD_LIMIT);
                        assert(false);
                    }
                }
                return Err(e);
            },
        };
        let frac_part = &parts[1];
        let mut all: bool = true;
        let mut k: usize = 0;
        while k < frac_part.len()
            invariant
                k <= frac_part@.len(),
                all ==> forall|l: int| 0 <= l < k ==> is_digit(#[trigger] frac_part@[l]),
                !all ==> !all_digits(frac_part@),
            decreases frac_part@.len() - k,
        {
            if !is_digit_exec(frac_part[k]) {
                all = false;
                proof {
                    assert(!all_digits(frac_part@));
                }
            }
            k += 1;
        }
        if !all || frac_part.len() == 0 {
            return Err(LoadError::BadNumber);
        }
        let frac: i64 = frac_milli_exec(frac_part);
        if int_part > (crate::geom::COORD_LIMIT - frac) / 1000 {
            proof {
                assert(int_part * 1000 + frac > crate::geom::COORD_LIMIT) by {
                    let lim = crate::geom::COORD_LIMIT as int;
                    assert(int_part >= (lim - frac) / 1000 + 1);
                    assert(((lim - frac) / 1000 + 1) * 1000 > lim - frac) by (nonlinear_arith);
                    assert(int_part * 1000 >= ((lim - frac) / 1000 + 1) * 1000) by (nonlinear_arith)
                        requires int_part >= (lim - frac) / 1000 + 1;
                }
            }
            return Err(LoadError::BadNumber);
        }
        proof {
            assert(int_part * 1000 + frac <= crate::geom::COORD_LIMIT) by {
                let lim = crate::geom::COORD_LIMIT as int;
                assert(int_part <= (lim - frac) / 1000);
                assert(((lim - frac) / 1000) * 1000 <= lim - frac) by (nonlinear_arith);
                assert(int_part * 1000 <= ((lim - frac) / 1000) * 1000) by (nonlinear_arith)
                    requires int_part <= (lim - frac) / 1000;
            }
        }
        int_part * 1000 + frac
    } else {
        proof {
            lemma_split_nonempty(body@, '.');
        }
        return Err(LoadError::BadNumber);
    };
    if neg {
        Ok(-magnitude)
    } else {
        Ok(magnitude)
    }
}

} // verus!
