//! Byte-level text rendering used by the HTTP responses: decimal rendering
//! of sizes, escaping for JSON string values, and escaping for the
//! quoted-string in a `Content-Disposition` header.

use vstd::prelude::*;

verus! {

/// The ASCII digit for `d`, which must lie below ten.
pub open spec fn digit_byte(d: int) -> u8 {
    (48 + d) as u8
}

/// The ASCII lowercase hexadecimal digit for `d`, which must lie below sixteen.
pub open spec fn hex_digit(d: int) -> u8 {
    if d < 10 {
        (48 + d) as u8
    } else {
        (87 + d) as u8
    }
}

/// The decimal rendering of `n`, most significant digit first, no sign and
/// no leading zero (a single `0` for zero itself).
pub open spec fn dec_of(n: nat) -> Seq<u8>
    decreases n,
{
    if n < 10 {
        seq![digit_byte(n as int)]
    } else {
        dec_of(n / 10) + seq![digit_byte((n % 10) as int)]
    }
}

/// Appends the decimal rendering of `n` to `out`.
pub fn push_decimal(out: &mut Vec<u8>, n: u64)
    ensures
        final(out)@ == old(out)@ + dec_of(n as nat),
    decreases n,
{
    if n < 10 {
        out.push(48 + (n as u8));
        proof {
            assert(final(out)@ =~= old(out)@ + dec_of(n as nat));
        }
    } else {
        push_decimal(out, n / 10);
        out.push(48 + ((n % 10) as u8));
        proof {
            assert(final(out)@ =~= old(out)@ + dec_of(n as nat));
        }
    }
}

/// How one byte of a string value appears inside a JSON string literal:
/// the quote and the backslash are escaped, the common control bytes get
/// their short escapes, any other control byte becomes `\u00XX`, and every
/// remaining byte stands for itself.
pub open spec fn json_escaped_byte(b: u8) -> Seq<u8> {
    if b == 34 {
        seq![92u8, 34u8]  // \"
    } else if b == 92 {
        seq![92u8, 92u8]  // \\
    } else if b == 8 {
        seq![92u8, 98u8]  // \b
    } else if b == 9 {
        seq![92u8, 116u8]  // \t
    } else if b == 10 {
        seq![92u8, 110u8]  // \n
    } else if b == 12 {
        seq![92u8, 102u8]  // \f
    } else if b == 13 {
        seq![92u8, 114u8]  // \r
    } else if b < 32 {
        seq![92u8, 117u8, 48u8, 48u8, hex_digit(b as int / 16), hex_digit(b as int % 16)]
    } else {
        seq![b]
    }
}

/// The JSON escaping of a whole byte string.
pub open spec fn json_escaped(s: Seq<u8>) -> Seq<u8>
    decreases s.len(),
{
    if s.len() == 0 {
        Seq::empty()
    } else {
        json_escaped(s.drop_last()) + json_escaped_byte(s.last())
    }
}

/// Appends the JSON escaping of `s` to `out`.
pub fn append_json_escaped(out: &mut Vec<u8>, s: &Vec<u8>)
    ensures
        final(out)@ == old(out)@ + json_escaped(s@),
{
    let ghost complete = s@;
    let mut i: usize = 0;
    while i < s.len()
        invariant
            i <= s@.len(),
            s@ == complete,
            out@ == old(out)@ + json_escaped(s@.take(i as int)),
        decreases s@.len() - i,
    {
        let b = s[i];
        if b == 34 {
            out.push(92);
            out.push(34);
        } else if b == 92 {
            out.push(92);
            out.push(92);
        } else if b == 8 {
            out.push(92);
            out.push(98);
        } else if b == 9 {
            out.push(92);
            out.push(116);
        } else if b == 10 {
            out.push(92);
            out.push(110);
        } else if b == 12 {
            out.push(92);
            out.push(102);
        } else if b == 13 {
            out.push(92);
            out.push(114);
        } else if b < 32 {
            out.push(92);
            out.push(117);
            out.push(48);
            out.push(48);
            out.push(if b / 16 < 10 { 48 + b / 16 } else { 87 + b / 16 });
            out.push(if b % 16 < 10 { 48 + b % 16 } else { 87 + b % 16 });
        } else {
            out.push(b);
        }
        proof {
            assert(s@.take(i as int + 1).drop_last() =~= s@.take(i as int));
            assert(s@.take(i as int + 1).last() == s@[i as int]);
            assert(out@ =~= old(out)@ + json_escaped(s@.take(i as int + 1)));
        }
        i = i + 1;
    }
    proof {
        assert(s@.take(s@.len() as int) =~= s@);
    }
}

/// How one byte of a filename appears inside the quoted-string of a
/// `Content-Disposition` header: the quote and the backslash are preceded
/// by a backslash (a quoted-pair), every other byte stands for itself.
pub open spec fn quoted_escaped_byte(b: u8) -> Seq<u8> {
    if b == 34 || b == 92 {
        seq![92u8, b]
    } else {
        seq![b]
    }
}

/// The quoted-string escaping of a whole byte string.
pub open spec fn quoted_escaped(s: Seq<u8>) -> Seq<u8>
    decreases s.len(),
{
    if s.len() == 0 {
        Seq::empty()
    } else {
        quoted_escaped(s.drop_last()) + quoted_escaped_byte(s.last())
    }
}

/// Appends the quoted-string escaping of `s` to `out`.
pub fn append_quoted_escaped(out: &mut Vec<u8>, s: &Vec<u8>)
    ensures
        final(out)@ == old(out)@ + quoted_escaped(s@),
{
    let ghost complete = s@;
    let mut i: usize = 0;
    while i < s.len()
        invariant
            i <= s@.len(),
            s@ == complete,
            out@ == old(out)@ + quoted_escaped(s@.take(i as int)),
        decreases s@.len() - i,
    {
        let b = s[i];
        if b == 34 || b == 92 {
            out.push(92);
            out.push(b);
        } else {
            out.push(b);
        }
        proof {
            assert(s@.take(i as int + 1).drop_last() =~= s@.take(i as int));
            assert(s@.take(i as int + 1).last() == s@[i as int]);
            assert(out@ =~= old(out)@ + quoted_escaped(s@.take(i as int + 1)));
        }
        i = i + 1;
    }
    proof {
        assert(s@.take(s@.len() as int) =~= s@);
    }
}

/// A byte string that needs no quoted-string escaping is its own escaping.
pub proof fn lemma_quoted_escaped_plain(s: Seq<u8>)
    requires
        forall|i: int| 0 <= i < s.len() ==> s[i] != 34 && s[i] != 92,
    ensures
        quoted_escaped(s) == s,
    decreases s.len(),
{
    if s.len() == 0 {
        assert(quoted_escaped(s) =~= s);
    } else {
        lemma_quoted_escaped_plain(s.drop_last());
        assert(quoted_escaped(s) =~= s);
    }
}

} // verus!
