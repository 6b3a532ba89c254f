//! The lexical layer of the interchange format: byte classification, the
//! numeric-token grammar for coordinates, decimal index parsing, and
//! decimal rendering of fixed-point milli-unit values.
//!
//! A coordinate token is `sign? (digit+ ('.' digit*)? | '.' digit+)
//! (('e'|'E') sign? digit+)?`. Every token this grammar accepts is also
//! accepted by the host float parser at the GPU edge.

use vstd::prelude::*;

verus! {

pub const B_TAB: u8 = 9;
pub const B_LF: u8 = 10;
pub const B_VT: u8 = 11;
pub const B_FF: u8 = 12;
pub const B_CR: u8 = 13;
pub const B_SPACE: u8 = 32;
pub const B_PLUS: u8 = 43;
pub const B_MINUS: u8 = 45;
pub const B_DOT: u8 = 46;
pub const B_SLASH: u8 = 47;
pub const B_ZERO: u8 = 48;
pub const B_NINE: u8 = 57;
pub const B_UPPER_E: u8 = 69;
pub const B_LOWER_E: u8 = 101;
pub const B_LOWER_F: u8 = 102;
pub const B_LOWER_N: u8 = 110;
pub const B_LOWER_V: u8 = 118;

pub open spec fn is_digit(b: u8) -> bool {
    B_ZERO <= b <= B_NINE
}

pub open spec fn is_sign(b: u8) -> bool {
    b == B_PLUS || b == B_MINUS
}

pub open spec fn is_exp_marker(b: u8) -> bool {
    b == B_LOWER_E || b == B_UPPER_E
}

/// Every byte of `s` in `[from, to)` is a decimal digit.
pub open spec fn digits_in(s: Seq<u8>, from: int, to: int) -> bool {
    forall|j: int| from <= j < to ==> is_digit(s[j])
}

/// The end of the run of digits starting at `i`, capped at `end`.
pub open spec fn digit_end(s: Seq<u8>, i: int, end: int) -> int
    decreases end - i,
{
    if i < end && 0 <= i < s.len() && is_digit(s[i]) {
        digit_end(s, i + 1, end)
    } else {
        i
    }
}

/// The first position in `[i, end)` holding an exponent marker, or `end`.
pub open spec fn exp_marker_pos(s: Seq<u8>, i: int, end: int) -> int
    decreases end - i,
{
    if i < end && 0 <= i < s.len() && !is_exp_marker(s[i]) {
        exp_marker_pos(s, i + 1, end)
    } else {
        i
    }
}

/// `s[from..to)` is a mantissa: `digit+ ('.' digit*)? | '.' digit+`.
pub open spec fn is_mantissa(s: Seq<u8>, from: int, to: int) -> bool {
    let d = digit_end(s, from, to);
    if d == to {
        d > from
    } else if 0 <= d < s.len() && s[d] == B_DOT {
        digits_in(s, d + 1, to) && (d > from || to > d + 1)
    } else {
        false
    }
}

/// `s[from..to)` is an exponent body: `sign? digit+`.
pub open spec fn is_exp_body(s: Seq<u8>, from: int, to: int) -> bool {
    let f = if from < to && 0 <= from < s.len() && is_sign(s[from]) {
        from + 1
    } else {
        from
    };
    f < to && digits_in(s, f, to)
}

/// The whole token `s` is a numeric coordinate token.
pub open spec fn is_number(s: Seq<u8>) -> bool {
    let f: int = if s.len() > 0 && is_sign(s[0]) {
        1
    } else {
        0
    };
    let e = exp_marker_pos(s, f, s.len() as int);
    is_mantissa(s, f, e) && (e == s.len() || is_exp_body(s, e + 1, s.len() as int))
}

/// Decides the numeric-token grammar for a whole token.
pub fn is_number_token(tok: &Vec<u8>) -> (r: bool)
    ensures
        r == is_number(tok@),
{
    let n = tok.len();
    let mut i: usize = 0;
    if n > 0 && (tok[0] == B_PLUS || tok[0] == B_MINUS) {
        i = 1;
    }
    let ghost f: int = i as int;

    // Find the exponent marker, if any.
    let mut e: usize = i;
    while e < n && tok[e] != B_LOWER_E && tok[e] != B_UPPER_E
        invariant
            f <= e <= n,
            n == tok@.len(),
            exp_marker_pos(tok@, e as int, n as int) == exp_marker_pos(tok@, f, n as int),
        decreases n - e,
    {
        e = e + 1;
    }
    assert(e as int == exp_marker_pos(tok@, f, n as int));

    // Check the mantissa over [i, e).
    let mut d: usize = i;
    while d < e && tok[d] >= B_ZERO && tok[d] <= B_NINE
        invariant
            f <= d <= e <= n,
            n == tok@.len(),
            digit_end(tok@, d as int, e as int) == digit_end(tok@, f, e as int),
        decreases e - d,
    {
        d = d + 1;
    }
    assert(d as int == digit_end(tok@, f, e as int));

    let mantissa_ok: bool;
    if d == e {
        mantissa_ok = d > i;
    } else if tok[d] == B_DOT {
        let frac_ok = all_digits_range(tok, d + 1, e);
        mantissa_ok = frac_ok && (d > i || e > d + 1);
    } else {
        mantissa_ok = false;
    }
    if !mantissa_ok {
        return false;
    }
    if e == n {
        return true;
    }

    // Check the exponent body over [e + 1, n).
    let mut x: usize = e + 1;
    if x < n && (tok[x] == B_PLUS || tok[x] == B_MINUS) {
        x = x + 1;
    }
    if x == n {
        return false;
    }
    let body_ok = all_digits_range(tok, x, n);
    body_ok
}

/// The value of the decimal digit string `s`.
pub open spec fn dec_val(s: Seq<u8>) -> int
    decreases s.len(),
{
    if s.len() == 0 {
        0
    } else {
        dec_val(s.drop_last()) * 10 + (s.last() - B_ZERO)
    }
}

pub proof fn lemma_dec_val_nonneg(s: Seq<u8>)
    requires
        digits_in(s, 0, s.len() as int),
    ensures
        dec_val(s) >= 0,
    decreases s.len(),
{
    if s.len() > 0 {
        assert(digits_in(s.drop_last(), 0, s.drop_last().len() as int));
        lemma_dec_val_nonneg(s.drop_last());
    }
}

/// A longer digit prefix never has a smaller value.
pub proof fn lemma_dec_val_prefix_le(s: Seq<u8>, i: int, j: int)
    requires
        digits_in(s, 0, s.len() as int),
        0 <= i <= j <= s.len(),
    ensures
        dec_val(s.take(i)) <= dec_val(s.take(j)),
    decreases j - i,
{
    if i < j {
        lemma_dec_val_prefix_le(s, i, j - 1);
        let t = s.take(j);
        assert(t.drop_last() =~= s.take(j - 1));
        assert(digits_in(s.take(j - 1), 0, j - 1));
        lemma_dec_val_nonneg(s.take(j - 1));
    }
}

/// Parses a whole token as an unsigned decimal index. Returns the value
/// exactly when the token is a nonempty digit string whose value fits in
/// `u32`; leading zeros are allowed.
pub fn parse_index(tok: &Vec<u8>) -> (r: Option<u32>)
    ensures
        match r {
            Some(v) => tok@.len() > 0 && digits_in(tok@, 0, tok@.len() as int) && v == dec_val(
                tok@,
            ),
            None => tok@.len() == 0 || !digits_in(tok@, 0, tok@.len() as int) || dec_val(tok@)
                > u32::MAX,
        },
{
    let n = tok.len();
    if n == 0 {
        return None;
    }
    let mut val: u32 = 0;
    let mut i: usize = 0;
    while i < n
        invariant
            0 <= i <= n,
            n == tok@.len(),
            digits_in(tok@, 0, i as int),
            val == dec_val(tok@.take(i as int)),
        decreases n - i,
    {
        let b = tok[i];
        if b < B_ZERO || b > B_NINE {
            return None;
        }
        let d: u32 = (b - B_ZERO) as u32;
        if val > (u32::MAX - d) / 10 {
            // The prefix through this digit already exceeds `u32`.
            proof {
                let t = tok@.take(i + 1);
                assert(t.drop_last() =~= tok@.take(i as int));
                assert(dec_val(t) == val * 10 + d);
                assert(dec_val(t) > u32::MAX);
                if digits_in(tok@, 0, tok@.len() as int) {
                    lemma_dec_val_prefix_le(tok@, i + 1, tok@.len() as int);
                    assert(tok@.take(tok@.len() as int) =~= tok@);
                }
            }
            return None;
        }
        proof {
            let t = tok@.take(i + 1);
            assert(t.drop_last() =~= tok@.take(i as int));
        }
        val = val * 10 + d;
        i = i + 1;
    }
    proof {
        assert(tok@.take(n as int) =~= tok@);
    }
    Some(val)
}

/// The shortest decimal digit string for the nonnegative value `n`.
pub open spec fn dec_digits(n: int) -> Seq<u8>
    decreases n,
{
    if 0 <= n < 10 {
        seq![(B_ZERO + n) as u8]
    } else if n >= 10 {
        dec_digits(n / 10).push((B_ZERO + n % 10) as u8)
    } else {
        seq![]
    }
}

/// Three-digit zero-padded rendering of `r` in `[0, 1000)`.
pub open spec fn pad3(r: int) -> Seq<u8> {
    seq![(B_ZERO + r / 100) as u8, (B_ZERO + (r / 10) % 10) as u8, (B_ZERO + r % 10) as u8]
}

/// Decimal rendering of the milli-unit value `m`: `sign? digits '.' ddd`,
/// so that the token re-reads as exactly `m / 1000`. Opaque: callers
/// reason about rendered tokens only as values.
#[verifier::opaque]
pub open spec fn milli_text(m: int) -> Seq<u8> {
    let a = if m < 0 {
        -m
    } else {
        m
    };
    let sign: Seq<u8> = if m < 0 {
        seq![B_MINUS]
    } else {
        seq![]
    };
    sign + dec_digits(a / 1000) + seq![B_DOT] + pad3(a % 1000)
}

/// Renders a milli-unit fixed-point value as decimal coordinate text.
pub fn render_milli(m: i64) -> (r: Vec<u8>)
    requires
        -1_000_000_000_000_000_000 <= m <= 1_000_000_000_000_000_000,
    ensures
        r@ == milli_text(m as int),
{
    let neg = m < 0;
    let a: i64 = if m < 0 {
        -m
    } else {
        m
    };
    let q: i64 = a / 1000;
    let rem: i64 = a % 1000;

    let mut out: Vec<u8> = Vec::new();
    if neg {
        out.push(B_MINUS);
    }
    let ghost sign_part: Seq<u8> = if m < 0 {
        seq![B_MINUS]
    } else {
        seq![]
    };
    assert(out@ =~= sign_part);

    // Digits of the integer part, collected least-significant first.
    let mut tmp: Vec<u8> = Vec::new();
    let mut cur: i64 = q;
    tmp.push(B_ZERO + (cur % 10) as u8);
    cur = cur / 10;
    proof {
        if cur > 0 {
            assert(dec_digits(q as int) == dec_digits(cur as int) + tmp@.reverse());
        } else {
            assert(dec_digits(q as int) =~= tmp@.reverse());
        }
    }
    while cur > 0
        invariant
            0 <= cur,
            0 <= q,
            tmp@.len() >= 1,
            dec_digits(q as int) == if cur > 0 {
                dec_digits(cur as int) + tmp@.reverse()
            } else {
                tmp@.reverse()
            },
        decreases cur,
    {
        let ghost old_tmp = tmp@;
        let ghost old_cur = cur as int;
        tmp.push(B_ZERO + (cur % 10) as u8);
        cur = cur / 10;
        proof {
            assert(tmp@.reverse() =~= seq![(B_ZERO + old_cur % 10) as u8] + old_tmp.reverse());
            if old_cur >= 10 {
                assert(dec_digits(old_cur) == dec_digits(old_cur / 10).push(
                    (B_ZERO + old_cur % 10) as u8,
                ));
                if cur > 0 {
                    assert(dec_digits(old_cur) + old_tmp.reverse() =~= dec_digits(cur as int)
                        + tmp@.reverse());
                } else {
                    assert(dec_digits(old_cur) + old_tmp.reverse() =~= tmp@.reverse());
                }
            } else {
                assert(cur == 0);
                assert(dec_digits(old_cur) =~= seq![(B_ZERO + old_cur % 10) as u8]);
                assert(dec_digits(old_cur) + old_tmp.reverse() =~= tmp@.reverse());
            }
        }
    }

    // Reverse into the output.
    let tlen = tmp.len();
    let mut k: usize = 0;
    while k < tlen
        invariant
            0 <= k <= tlen,
            tlen == tmp@.len(),
            out@ == sign_part + tmp@.reverse().take(k as int),
        decreases tlen - k,
    {
        let ghost old_out = out@;
        out.push(tmp[tlen - 1 - k]);
        proof {
            assert(tmp@.reverse()[k as int] == tmp@[tlen - 1 - k]);
            assert(old_out.push(tmp@[tlen - 1 - k]) =~= sign_part + tmp@.reverse().take(
                k + 1,
            ));
        }
        k = k + 1;
    }
    proof {
        assert(tmp@.reverse().take(tlen as int) =~= tmp@.reverse());
        assert(out@ == sign_part + dec_digits(q as int));
    }

    out.push(B_DOT);
    out.push(B_ZERO + (rem / 100) as u8);
    out.push(B_ZERO + ((rem / 10) % 10) as u8);
    out.push(B_ZERO + (rem % 10) as u8);
    proof {
        reveal(milli_text);
        assert(out@ =~= sign_part + dec_digits(q as int) + seq![B_DOT] + pad3(rem as int));
        assert(out@ =~= milli_text(m as int));
    }
    out
}

/// Copies a byte token.
pub fn copy_bytes(src: &Vec<u8>) -> (r: Vec<u8>)
    ensures
        r@ == src@,
{
    let n = src.len();
    let mut out: Vec<u8> = Vec::new();
    let mut i: usize = 0;
    while i < n
        invariant
            0 <= i <= n,
            n == src@.len(),
            out@ == src@.take(i as int),
        decreases n - i,
    {
        out.push(src[i]);
        proof {
            assert(out@ =~= src@.take(i + 1));
        }
        i = i + 1;
    }
    proof {
        assert(src@.take(n as int) =~= src@);
    }
    out
}

/// Decides `digits_in` over `[from, to)`.
pub fn all_digits_range(tok: &Vec<u8>, from: usize, to: usize) -> (r: bool)
    requires
        from <= to <= tok@.len(),
    ensures
        r == digits_in(tok@, from as int, to as int),
{
    let mut j = from;
    while j < to
        invariant
            from <= j <= to <= tok@.len(),
            digits_in(tok@, from as int, j as int),
        decreases to - j,
    {
        if tok[j] < B_ZERO || tok[j] > B_NINE {
            return false;
        }
        j = j + 1;
    }
    true
}

} // verus!
