//! Writing a recorded path back out in the external path format, and the
//! proof that decoding what was written recovers exactly the recorded
//! positions: paths survive a session round trip as plain data.

use vstd::prelude::*;
use vstd::arithmetic::div_mod::lemma_fundamental_div_mod;

use std::collections::VecDeque;

use crate::geom::COORD_LIMIT;
use crate::geom::WorldVec;
use crate::level::spec_parse_pos_line;
use crate::level::spec_parse_path;
use crate::parse::spec_lines;
use crate::parse::all_digits;
use crate::parse::digit_val;
use crate::parse::digits_val;
use crate::parse::frac_milli;
use crate::parse::is_digit;
use crate::parse::lemma_split_nonempty;
use crate::parse::spec_parse_coord;
use crate::parse::spec_split;

verus! {

/// The character of one decimal digit.
pub open spec fn spec_digit_char(d: int) -> char {
    ((48 + d) as u8) as char
}

/// The decimal digits of `n`, most significant first, with no leading zero
/// except for `n == 0` itself.
pub open spec fn spec_digits_of(n: int) -> Seq<char>
    decreases n,
{
    if n < 10 {
        seq![spec_digit_char(n)]
    } else {
        spec_digits_of(n / 10).push(spec_digit_char(n % 10))
    }
}

/// A digit character reads back as its digit.
pub proof fn lemma_digit_char_val(d: int)
    requires
        0 <= d <= 9,
    ensures
        is_digit(spec_digit_char(d)),
        digit_val(spec_digit_char(d)) == d,
{
}

/// The digits of `n` read back as `n`.
pub proof fn lemma_digits_of_val(n: int)
    requires
        n >= 0,
    ensures
        spec_digits_of(n).len() >= 1,
        forall|i: int|
            0 <= i < spec_digits_of(n).len() ==> is_digit(#[trigger] spec_digits_of(n)[i]),
        digits_val(spec_digits_of(n)) == n,
    decreases n,
{
    if n < 10 {
        reveal_with_fuel(digits_val, 2);
        lemma_digit_char_val(n);
        assert(spec_digits_of(n).drop_last() =~= Seq::<char>::empty());
        assert(spec_digits_of(n).last() == spec_digit_char(n));
    } else {
        lemma_fundamental_div_mod(n, 10);
        lemma_digits_of_val(n / 10);
        lemma_digit_char_val(n % 10);
        assert(spec_digits_of(n).drop_last() =~= spec_digits_of(n / 10));
        assert(spec_digits_of(n).last() == spec_digit_char(n % 10));
    }
}

/// A run with no separator splits into itself alone.
pub proof fn lemma_split_no_sep(s: Seq<char>, sep: char)
    requires
        forall|i: int| 0 <= i < s.len() ==> s[i] != sep,
    ensures
        spec_split(s, sep) == seq![s],
    decreases s.len(),
{
    if s.len() == 0 {
        assert(spec_split(s, sep) =~~= seq![s]);
    } else {
        assert(forall|i: int| 0 <= i < s.drop_last().len() ==> s.drop_last()[i] != sep);
        lemma_split_no_sep(s.drop_last(), sep);
        assert(spec_split(s, sep) =~~= seq![s]);
    }
}

/// Appending a separator and a separator-free piece appends exactly that
/// piece to the split.
pub proof fn lemma_split_snoc_piece(x: Seq<char>, b: Seq<char>, sep: char)
    requires
        forall|i: int| 0 <= i < b.len() ==> b[i] != sep,
    ensures
        spec_split(x + seq![sep] + b, sep) == spec_split(x, sep).push(b),
    decreases b.len(),
{
    lemma_split_nonempty(x, sep);
    if b.len() == 0 {
        let s = x + seq![sep] + b;
        assert(s.last() == sep);
        assert(s.drop_last() =~= x);
        assert(spec_split(s, sep) =~~= spec_split(x, sep).push(b));
    } else {
        let s = x + seq![sep] + b;
        assert(s.last() == b.last());
        assert(s.drop_last() =~= x + seq![sep] + b.drop_last());
        assert(forall|i: int| 0 <= i < b.drop_last().len() ==> b.drop_last()[i] != sep);
        lemma_split_snoc_piece(x, b.drop_last(), sep);
        let rest = spec_split(x, sep).push(b.drop_last());
        assert(rest.last() == b.drop_last());
        assert(rest.update(rest.len() - 1, rest.last().push(b.last())) =~~= spec_split(
            x,
            sep,
        ).push(b));
        assert(b.drop_last().push(b.last()) =~= b);
    }
}

/// The three fractional digits of a coordinate's thousandths.
pub open spec fn spec_frac3(f: int) -> Seq<char> {
    seq![
        spec_digit_char(f / 100),
        spec_digit_char((f % 100) / 10),
        spec_digit_char(f % 10),
    ]
}

/// One coordinate written back out: an optional minus sign, the whole units,
/// a dot, and exactly three fractional digits.
pub open spec fn spec_encode_coord(v: int) -> Seq<char> {
    let m = if v < 0 {
        -v
    } else {
        v
    };
    (if v < 0 {
        seq!['-']
    } else {
        Seq::<char>::empty()
    }) + spec_digits_of(m / 1000) + seq!['.'] + spec_frac3(m % 1000)
}

/// Every character of an encoded coordinate is a sign, a dot or a digit.
pub proof fn lemma_encode_coord_chars(v: int)
    requires
        -COORD_LIMIT <= v <= COORD_LIMIT,
    ensures
        forall|i: int|
            0 <= i < spec_encode_coord(v).len() ==> (#[trigger] spec_encode_coord(v)[i]) == '-'
                || spec_encode_coord(v)[i] == '.' || is_digit(spec_encode_coord(v)[i]),
{
    let m = if v < 0 {
        -v
    } else {
        v
    };
    lemma_fundamental_div_mod(m, 1000);
    lemma_digits_of_val(m / 1000);
    lemma_digit_char_val((m % 1000) / 100);
    lemma_digit_char_val(((m % 1000) % 100) / 10);
    lemma_digit_char_val((m % 1000) % 10);
    lemma_fundamental_div_mod(m % 1000, 100);
    lemma_fundamental_div_mod((m % 1000) % 100, 10);
}

/// Decoding an encoded coordinate recovers exactly the coordinate.
pub proof fn lemma_encode_coord_round_trip(v: int)
    requires
        -COORD_LIMIT <= v <= COORD_LIMIT,
    ensures
        spec_parse_coord(spec_encode_coord(v)) == Some(v),
{
    let m = if v < 0 {
        -v
    } else {
        v
    };
    let a = spec_digits_of(m / 1000);
    let f = m % 1000;
    let b = spec_frac3(f);
    let s = spec_encode_coord(v);
    lemma_fundamental_div_mod(m, 1000);
    lemma_digits_of_val(m / 1000);
    lemma_digit_char_val(f / 100);
    lemma_digit_char_val((f % 100) / 10);
    lemma_digit_char_val(f % 10);
    lemma_fundamental_div_mod(f, 100);
    lemma_fundamental_div_mod(f % 100, 10);

    let body = if v < 0 {
        s.skip(1)
    } else {
        s
    };
    assert(body =~= a + seq!['.'] + b);
    if v < 0 {
        assert(s[0] == '-');
    } else {
        assert(s[0] == a[0]);
        assert(is_digit(a[0]));
        assert(s[0] != '-');
    }

    assert(forall|i: int| 0 <= i < a.len() ==> #[trigger] a[i] != '.');
    assert(forall|i: int| 0 <= i < b.len() ==> #[trigger] b[i] != '.');
    lemma_split_no_sep(a, '.');
    lemma_split_snoc_piece(a, b, '.');
    let parts = spec_split(body, '.');
    assert(parts =~~= seq![a, b]);
    assert(parts.len() == 2);
    assert(all_digits(parts[0]));
    assert(all_digits(parts[1]));

    // The three fractional digits read back as the thousandths.
    assert(b.take(3) =~= b);
    reveal_with_fuel(digits_val, 4);
    assert(b.take(3).drop_last() =~= seq![b[0], b[1]]);
    assert(seq![b[0], b[1]].drop_last() =~= seq![b[0]]);
    assert(seq![b[0]].drop_last() =~= Seq::<char>::empty());
    assert(digits_val(b) == (digit_val(b[0]) * 10 + digit_val(b[1])) * 10 + digit_val(b[2]));
    assert((f % 100) % 10 == f % 10) by {
        vstd::arithmetic::div_mod::lemma_mod_multiples_vanish((f / 100) * 10, f % 100, 10);
        assert(100 * (f / 100) + f % 100 == f);
        assert(10 * ((f / 100) * 10) + f % 100 == f);
    }
    assert(frac_milli(b) == f);

    assert(digits_val(a) * 1000 + frac_milli(b) == m);
    assert(m <= COORD_LIMIT);
}

/// One position written back out: its three coordinates, comma-separated.
pub open spec fn spec_encode_pos_line(p: WorldVec) -> Seq<char> {
    spec_encode_coord(p.x as int) + seq![','] + spec_encode_coord(p.y as int) + seq![',']
        + spec_encode_coord(p.z as int)
}

/// Decoding an encoded position line recovers exactly the position, and the
/// line never holds a newline.
pub proof fn lemma_encode_pos_line_round_trip(p: WorldVec)
    requires
        p.in_range(),
    ensures
        spec_parse_pos_line(spec_encode_pos_line(p)) == Some(p),
        forall|i: int|
            0 <= i < spec_encode_pos_line(p).len() ==> (#[trigger] spec_encode_pos_line(p)[i])
                != '\n',
{
    let ex = spec_encode_coord(p.x as int);
    let ey = spec_encode_coord(p.y as int);
    let ez = spec_encode_coord(p.z as int);
    let line = spec_encode_pos_line(p);
    lemma_encode_coord_chars(p.x as int);
    lemma_encode_coord_chars(p.y as int);
    lemma_encode_coord_chars(p.z as int);
    assert(forall|i: int| 0 <= i < ex.len() ==> #[trigger] ex[i] != ',');
    assert(forall|i: int| 0 <= i < ey.len() ==> #[trigger] ey[i] != ',');
    assert(forall|i: int| 0 <= i < ez.len() ==> #[trigger] ez[i] != ',');
    lemma_split_no_sep(ex, ',');
    lemma_split_snoc_piece(ex, ey, ',');
    assert(ex + seq![','] + ey + seq![','] + ez =~= (ex + seq![','] + ey) + seq![','] + ez);
    lemma_split_snoc_piece(ex + seq![','] + ey, ez, ',');
    let parts = spec_split(line, ',');
    assert(parts =~~= seq![ex, ey, ez]);
    lemma_encode_coord_round_trip(p.x as int);
    lemma_encode_coord_round_trip(p.y as int);
    lemma_encode_coord_round_trip(p.z as int);
    assert(spec_parse_pos_line(line) == Some(p));
}

/// A recorded path written back out: one encoded position per line, each line
/// closed by a newline, in queue order.
pub open spec fn spec_encode_path(positions: Seq<WorldVec>) -> Seq<char>
    decreases positions.len(),
{
    if positions.len() == 0 {
        Seq::<char>::empty()
    } else {
        spec_encode_path(positions.drop_last()) + spec_encode_pos_line(positions.last())
            + seq!['\n']
    }
}

/// The lines of an encoded path are exactly the encoded position lines.
proof fn lemma_encode_path_lines(positions: Seq<WorldVec>)
    requires
        forall|i: int| 0 <= i < positions.len() ==> (#[trigger] positions[i]).in_range(),
    ensures
        spec_lines(spec_encode_path(positions)).len() == positions.len(),
        forall|i: int|
            0 <= i < positions.len() ==> #[trigger] spec_lines(spec_encode_path(positions))[i]
                == spec_encode_pos_line(positions[i]),
    decreases positions.len(),
{
    if positions.len() > 0 {
        let x = spec_encode_path(positions.drop_last());
        let line = spec_encode_pos_line(positions.last());
        let enc = spec_encode_path(positions);
        lemma_encode_pos_line_round_trip(positions.last());
        assert(enc.last() == '\n');
        assert(enc.drop_last() =~= x + line);
        let prefix = positions.drop_last();
        assert(forall|i: int| 0 <= i < prefix.len() ==> (#[trigger] prefix[i]).in_range());
        lemma_encode_path_lines(positions.drop_last());
        if positions.len() == 1 {
            assert(x =~= Seq::<char>::empty());
            assert(enc.drop_last() =~= line);
            lemma_split_no_sep(line, '\n');
            assert(spec_lines(enc) =~~= seq![line]);
        } else {
            assert(positions.drop_last().len() > 0);
            assert(x.last() == '\n');
            assert(x + line =~= x.drop_last() + seq!['\n'] + line);
            lemma_split_snoc_piece(x.drop_last(), line, '\n');
            assert(spec_lines(enc) == spec_split(x.drop_last(), '\n').push(line));
            assert(spec_lines(x) == spec_split(x.drop_last(), '\n'));
            assert(forall|i: int|
                0 <= i < positions.drop_last().len() ==> #[trigger] spec_lines(enc)[i]
                    == spec_lines(x)[i]);
        }
    }
}

/// Round trip through the external path format: decoding an encoded path
/// recovers exactly the recorded positions, in order. A captured run stored
/// as a path file therefore replays unchanged in a later session.
pub proof fn lemma_encode_path_round_trip(positions: Seq<WorldVec>)
    requires
        forall|i: int| 0 <= i < positions.len() ==> (#[trigger] positions[i]).in_range(),
    ensures
        spec_parse_path(spec_encode_path(positions)) == Some(positions),
{
    lemma_encode_path_lines(positions);
    let enc = spec_encode_path(positions);
    let lines = spec_lines(enc);
    assert forall|i: int| 0 <= i < lines.len() implies #[trigger] spec_parse_pos_line(
        lines[i],
    ) is Some by {
        lemma_encode_pos_line_round_trip(positions[i]);
    }
    assert forall|i: int| 0 <= i < lines.len() implies #[trigger] spec_parse_pos_line(
        lines[i],
    ).unwrap() == positions[i] by {
        lemma_encode_pos_line_round_trip(positions[i]);
    }
    assert(spec_parse_path(enc) matches Some(ps) && ps =~= positions);
}

/// Appends the decimal digits of `n`.
fn push_digits(n: i64, out: &mut Vec<char>)
    requires
        0 <= n,
    ensures
        final(out)@ == old(out)@ + spec_digits_of(n as int),
    decreases n,
{
    if n < 10 {
        let c: char = ((48 + n) as u8) as char;
        out.push(c);
        proof {
            assert(out@ =~= old(out)@ + spec_digits_of(n as int));
        }
    } else {
        push_digits(n / 10, out);
        let c: char = ((48 + n % 10) as u8) as char;
        out.push(c);
        proof {
            assert(out@ =~= old(out)@ + spec_digits_of(n as int));
        }
    }
}

/// Appends one coordinate in the path format.
fn push_coord(v: i64, out: &mut Vec<char>)
    requires
        -COORD_LIMIT <= v <= COORD_LIMIT,
    ensures
        final(out)@ == old(out)@ + spec_encode_coord(v as int),
{
    if v < 0 {
        out.push('-');
    }
    let m: i64 = if v < 0 {
        -v
    } else {
        v
    };
    push_digits(m / 1000, out);
    out.push('.');
    let f: i64 = m % 1000;
    proof {
        lemma_fundamental_div_mod(m as int, 1000);
        lemma_fundamental_div_mod(f as int, 100);
        lemma_fundamental_div_mod(f as int % 100, 10);
    }
    let c0: char = ((48 + f / 100) as u8) as char;
    let c1: char = ((48 + (f % 100) / 10) as u8) as char;
    let c2: char = ((48 + f % 10) as u8) as char;
    out.push(c0);
    out.push(c1);
    out.push(c2);
    proof {
        assert(out@ =~= old(out)@ + spec_encode_coord(v as int));
    }
}

/// Writes a recorded path out in the external path format, the exact inverse
/// of `parse_path`: one position per line, comma-separated fixed-point
/// coordinates, in queue order.
pub fn encode_path(values: &VecDeque<WorldVec>) -> (r: Vec<char>)
    requires
        forall|i: int| 0 <= i < values@.len() ==> (#[trigger] values@[i]).in_range(),
    ensures
        r@ == spec_encode_path(values@),
{
    let mut out: Vec<char> = Vec::new();
    let mut i: usize = 0;
    while i < values.len()
        invariant
            forall|k: int| 0 <= k < values@.len() ==> (#[trigger] values@[k]).in_range(),
            i <= values@.len(),
            out@ == spec_encode_path(values@.take(i as int)),
        decreases values@.len() - i,
    {
        let p: WorldVec = values[i];
        push_coord(p.x, &mut out);
        out.push(',');
        push_coord(p.y, &mut out);
        out.push(',');
        push_coord(p.z, &mut out);
        out.push('\n');
        proof {
            assert(values@.take(i + 1).drop_last() =~= values@.take(i as int));
            assert(values@.take(i + 1).last() == values@[i as int]);
            assert(out@ =~= spec_encode_path(values@.take(i + 1)));
        }
        i += 1;
    }
    proof {
        assert(values@.take(values@.len() as int) =~= values@);
    }
    out
}

} // verus!
