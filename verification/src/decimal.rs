//! Exact decimal numbers: parsing from text, addition, and rendering.
//!
//! A value is a scaled integer `mantissa / 10^scale`.  Parsing accepts an
//! optional sign, then digits with at most one decimal point and at least
//! one digit.  Numbers whose mantissa does not fit the machine word are
//! rejected rather than rounded.

use vstd::prelude::*;

use crate::template::find_from;
use crate::text::append_bytes;
use crate::text::append_range;
use crate::text::dec_digits;
use crate::text::u128_to_dec;

verus! {

/// An exact decimal number: `mantissa / 10^scale`.
#[derive(Clone, Copy, Debug, PartialEq, Eq, Structural)]
pub struct Dec {
    pub mantissa: i128,
    pub scale: u32,
}

/// The mantissa magnitude fits the machine word with room for negation.
pub open spec fn dec_wf(d: Dec) -> bool {
    -i128::MAX <= d.mantissa
}

/// The mathematical content of a `Dec`.
pub open spec fn dec_pair(d: Dec) -> (int, nat) {
    (d.mantissa as int, d.scale as nat)
}

pub open spec fn is_digit(b: u8) -> bool {
    48 <= b <= 57
}

pub open spec fn all_digits(s: Seq<u8>) -> bool {
    forall|i: int| 0 <= i < s.len() ==> is_digit(#[trigger] s[i])
}

/// The value of a digit string read in base ten.
pub open spec fn digits_val(s: Seq<u8>) -> nat
    decreases s.len(),
{
    if s.len() == 0 {
        0
    } else {
        digits_val(s.drop_last()) * 10 + ((s.last() - 48) as nat)
    }
}

pub open spec fn pow10(k: nat) -> nat
    decreases k,
{
    if k == 0 {
        1
    } else {
        10 * pow10((k - 1) as nat)
    }
}

/// The position of the first decimal point, if any.
pub open spec fn dot_pos(s: Seq<u8>) -> Option<int> {
    find_from(s, seq![46u8], 0)
}

/// An unsigned decimal numeral: digits with at most one point and at
/// least one digit.  Yields mantissa and scale.
pub open spec fn parse_unsigned(s: Seq<u8>) -> Option<(nat, nat)> {
    match dot_pos(s) {
        None => if s.len() >= 1 && all_digits(s) {
            Some((digits_val(s), 0))
        } else {
            None
        },
        Some(d) => {
            let ip = s.subrange(0, d);
            let fp = s.subrange(d + 1, s.len() as int);
            if ip.len() + fp.len() >= 1 && all_digits(ip) && all_digits(fp) {
                Some(((digits_val(ip) * pow10(fp.len()) + digits_val(fp)) as nat, fp.len()))
            } else {
                None
            }
        },
    }
}

/// A decimal numeral with an optional leading sign.
pub open spec fn parse_decimal(s: Seq<u8>) -> Option<(int, nat)> {
    if s.len() >= 1 && s[0] == 45 {
        match parse_unsigned(s.skip(1)) {
            Some((m, sc)) => Some((-(m as int), sc)),
            None => None,
        }
    } else if s.len() >= 1 && s[0] == 43 {
        match parse_unsigned(s.skip(1)) {
            Some((m, sc)) => Some((m as int, sc)),
            None => None,
        }
    } else {
        match parse_unsigned(s) {
            Some((m, sc)) => Some((m as int, sc)),
            None => None,
        }
    }
}

pub proof fn lemma_pow10_pos(k: nat)
    ensures
        pow10(k) >= 1,
    decreases k,
{
    if k > 0 {
        lemma_pow10_pos((k - 1) as nat);
    }
}

/// Reading a concatenation of digit strings scales the left part by
/// ten to the length of the right part.
pub proof fn lemma_digits_val_append(x: Seq<u8>, y: Seq<u8>)
    ensures
        digits_val(x + y) == digits_val(x) * pow10(y.len()) + digits_val(y),
    decreases y.len(),
{
    if y.len() == 0 {
        assert(x + y =~= x);
        assert(digits_val(x) * pow10(0) == digits_val(x)) by (nonlinear_arith)
            requires
                pow10(0) == 1,
        ;
    } else {
        lemma_digits_val_append(x, y.drop_last());
        assert((x + y).drop_last() =~= x + y.drop_last());
        let a = digits_val(x);
        let p = pow10((y.len() - 1) as nat);
        let b = digits_val(y.drop_last());
        let c = (y.last() - 48) as nat;
        assert(digits_val(x + y) == (a * p + b) * 10 + c);
        assert((a * p + b) * 10 == a * (10 * p) + b * 10) by (nonlinear_arith);
        assert(pow10(y.len()) == 10 * p);
        assert(digits_val(y) == b * 10 + c);
    }
}

/// A concatenation is all digits exactly when both halves are.
pub proof fn lemma_all_digits_split(ip: Seq<u8>, fp: Seq<u8>)
    ensures
        all_digits(ip + fp) <==> (all_digits(ip) && all_digits(fp)),
{
    if all_digits(ip) && all_digits(fp) {
        assert forall|j: int| 0 <= j < (ip + fp).len() implies is_digit(
            #[trigger] (ip + fp)[j],
        ) by {
            if j < ip.len() {
                assert((ip + fp)[j] == ip[j]);
            } else {
                assert((ip + fp)[j] == fp[j - ip.len()]);
            }
        }
    }
    if all_digits(ip + fp) {
        assert forall|j: int| 0 <= j < ip.len() implies is_digit(#[trigger] ip[j]) by {
            assert(ip[j] == (ip + fp)[j]);
            assert(is_digit((ip + fp)[j]));
        }
        assert forall|j: int| 0 <= j < fp.len() implies is_digit(#[trigger] fp[j]) by {
            assert(fp[j] == (ip + fp)[j + ip.len()]);
            assert(is_digit((ip + fp)[j + ip.len()]));
        }
    }
}

/// Appending digits never shrinks the value that is read.
pub proof fn lemma_digits_val_prefix(x: Seq<u8>, y: Seq<u8>)
    ensures
        digits_val(x + y) >= digits_val(x),
{
    lemma_digits_val_append(x, y);
    lemma_pow10_pos(y.len());
    assert(digits_val(x) * pow10(y.len()) >= digits_val(x)) by (nonlinear_arith)
        requires
            pow10(y.len()) >= 1,
    ;
}

pub proof fn lemma_pow10_add(a: nat, b: nat)
    ensures
        pow10(a + b) == pow10(a) * pow10(b),
    decreases a,
{
    if a == 0 {
        assert(pow10(0) * pow10(b) == pow10(b)) by (nonlinear_arith)
            requires
                pow10(0) == 1,
        ;
    } else {
        lemma_pow10_add((a - 1) as nat, b);
        assert(10 * (pow10((a - 1) as nat) * pow10(b)) == (10 * pow10((a - 1) as nat)) * pow10(b))
            by (nonlinear_arith);
        assert(pow10(a + b) == 10 * pow10((a + b - 1) as nat));
        assert(pow10(a) == 10 * pow10((a - 1) as nat));
    }
}

/// Scaling further can only push a value further out of the machine range.
proof fn lemma_scale_out_of_range(m: int, j: nat, k: nat)
    requires
        j <= k,
        m * pow10(j) > i128::MAX || m * pow10(j) < -i128::MAX,
    ensures
        m * pow10(k) > i128::MAX || m * pow10(k) < -i128::MAX,
{
    lemma_pow10_add(j, (k - j) as nat);
    lemma_pow10_pos((k - j) as nat);
    let p = pow10(j);
    let q = pow10((k - j) as nat);
    assert(m * (p * q) == (m * p) * q) by (nonlinear_arith);
    if m * p > i128::MAX {
        assert((m * p) * q >= m * p) by (nonlinear_arith)
            requires
                q >= 1,
                m * p > 0,
        ;
    } else {
        assert((m * p) * q <= m * p) by (nonlinear_arith)
            requires
                q >= 1,
                m * p < 0,
        ;
    }
}

/// The value of the digit range `s[from..to]`, or `None` when a byte is
/// not a digit or the value does not fit the mantissa word.
fn digits_value(s: &Vec<u8>, from: usize, to: usize) -> (r: Option<u128>)
    requires
        from <= to <= s@.len(),
    ensures
        match r {
            Some(v) => all_digits(s@.subrange(from as int, to as int)) && v as nat == digits_val(
                s@.subrange(from as int, to as int),
            ) && v <= i128::MAX as u128,
            None => !all_digits(s@.subrange(from as int, to as int)) || digits_val(
                s@.subrange(from as int, to as int),
            ) > i128::MAX as nat,
        },
{
    let mut acc: u128 = 0;
    let mut i: usize = from;
    while i < to
        invariant
            from <= i <= to <= s@.len(),
            all_digits(s@.subrange(from as int, i as int)),
            acc as nat == digits_val(s@.subrange(from as int, i as int)),
            acc <= i128::MAX as u128,
        decreases to - i,
    {
        let b = s[i];
        if b < 48 || b > 57 {
            proof {
                assert(!is_digit(s@.subrange(from as int, to as int)[i - from]));
            }
            return None;
        }
        let d = b - 48;
        proof {
            assert(s@.subrange(from as int, i + 1).drop_last() =~= s@.subrange(
                from as int,
                i as int,
            ));
            assert(s@.subrange(from as int, i + 1).last() == b);
        }
        if acc > i128::MAX as u128 / 10 {
            proof {
                let done = s@.subrange(from as int, i + 1);
                let rest = s@.subrange(i + 1, to as int);
                assert(s@.subrange(from as int, to as int) =~= done + rest);
                lemma_digits_val_prefix(done, rest);
            }
            return None;
        }
        let next = acc * 10 + d as u128;
        if next > i128::MAX as u128 {
            proof {
                let done = s@.subrange(from as int, i + 1);
                let rest = s@.subrange(i + 1, to as int);
                assert(s@.subrange(from as int, to as int) =~= done + rest);
                lemma_digits_val_prefix(done, rest);
            }
            return None;
        }
        acc = next;
        proof {
            assert(forall|j: int|
                0 <= j < i + 1 - from ==> is_digit(#[trigger] s@.subrange(from as int, i + 1)[j]));
        }
        i += 1;
    }
    Some(acc)
}

/// Parses the unsigned part of a numeral: mantissa and scale, or `None`
/// when the text is not a numeral or a machine word is exceeded.
fn parse_unsigned_bytes(body: &Vec<u8>) -> (r: Option<(u128, u32)>)
    ensures
        match r {
            Some((v, sc)) => parse_unsigned(body@) == Some((v as nat, sc as nat)) && v
                <= i128::MAX as u128,
            None => parse_unsigned(body@) is None || (parse_unsigned(body@) matches Some((m, sc))
                && (m > i128::MAX as nat || sc > u32::MAX)),
        },
{
    if body.len() == 0 {
        return None;
    }
    let mut dot: Vec<u8> = Vec::new();
    dot.push(46);
    proof {
        assert(dot@ =~= seq![46u8]);
    }
    match crate::template::find_occurrence(body, &dot, 0) {
        None => {
            let blen = body.len();
            proof {
                assert(body@.subrange(0, body@.len() as int) =~= body@);
            }
            match digits_value(body, 0, blen) {
                None => None,
                Some(v) => Some((v, 0)),
            }
        },
        Some(d) => {
            let blen = body.len();
            // All digits with the point removed; their value is the mantissa.
            let mut digits: Vec<u8> = Vec::new();
            append_range(&mut digits, body, 0, d);
            append_range(&mut digits, body, d + 1, blen);
            let ghost ip = body@.subrange(0, d as int);
            let ghost fp = body@.subrange(d + 1, body@.len() as int);
            proof {
                assert(digits@ =~= ip + fp);
            }
            if digits.len() == 0 {
                // The numeral is a lone point.
                return None;
            }
            let frac_len = blen - (d + 1);
            if frac_len > u32::MAX as usize {
                return None;
            }
            let dlen = digits.len();
            let got = digits_value(&digits, 0, dlen);
            proof {
                assert(digits@.subrange(0, digits@.len() as int) =~= digits@);
                lemma_digits_val_append(ip, fp);
                lemma_all_digits_split(ip, fp);
            }
            match got {
                None => None,
                Some(v) => Some((v, frac_len as u32)),
            }
        },
    }
}

/// Parses a decimal numeral, or `None` when the text is not one or its
/// mantissa or scale does not fit the machine words.
pub fn parse_decimal_bytes(s: &Vec<u8>) -> (r: Option<Dec>)
    ensures
        match r {
            Some(d) => parse_decimal(s@) == Some((d.mantissa as int, d.scale as nat)) && dec_wf(d),
            None => parse_decimal(s@) is None || (parse_decimal(s@) matches Some((m, sc)) && (m
                > i128::MAX || m < -i128::MAX || sc > u32::MAX)),
        },
{
    let mut neg = false;
    let mut start: usize = 0;
    if s.len() >= 1 {
        let b0 = s[0];
        if b0 == 45 {
            neg = true;
            start = 1;
        } else if b0 == 43 {
            start = 1;
        }
    }
    // The numeral after the sign.
    let mut body: Vec<u8> = Vec::new();
    let n = s.len();
    append_range(&mut body, s, start, n);
    proof {
        assert(body@ =~= s@.skip(start as int));
        if start == 0 {
            assert(s@.skip(0) =~= s@);
        }
    }
    match parse_unsigned_bytes(&body) {
        None => None,
        Some((v, sc)) => {
            let mantissa: i128 = if neg {
                -(v as i128)
            } else {
                v as i128
            };
            Some(Dec { mantissa, scale: sc })
        },
    }
}

/// The exact sum of two scaled integers, on the larger scale.
pub open spec fn dec_add_pair(a: (int, nat), b: (int, nat)) -> (int, nat) {
    if a.1 >= b.1 {
        (a.0 + b.0 * pow10((a.1 - b.1) as nat), a.1)
    } else {
        (a.0 * pow10((b.1 - a.1) as nat) + b.0, b.1)
    }
}

/// Both aligned mantissas and their sum fit the machine word.
pub open spec fn dec_add_in_range(a: (int, nat), b: (int, nat)) -> bool {
    if a.1 >= b.1 {
        let bm = b.0 * pow10((a.1 - b.1) as nat);
        -i128::MAX <= bm <= i128::MAX && -i128::MAX <= a.0 + bm <= i128::MAX
    } else {
        let am = a.0 * pow10((b.1 - a.1) as nat);
        -i128::MAX <= am <= i128::MAX && -i128::MAX <= am + b.0 <= i128::MAX
    }
}

/// `m` scaled by ten to the `k`, or `None` when that leaves the machine
/// range.
fn scale_up(m: i128, k: u32) -> (r: Option<i128>)
    requires
        -i128::MAX <= m,
    ensures
        match r {
            Some(v) => v as int == m * pow10(k as nat) && -i128::MAX <= v,
            None => m * pow10(k as nat) > i128::MAX || m * pow10(k as nat) < -i128::MAX,
        },
{
    let mut cur = m;
    let mut j: u32 = 0;
    proof {
        assert(m * pow10(0) == m) by (nonlinear_arith)
            requires
                pow10(0) == 1,
        ;
    }
    while j < k
        invariant
            j <= k,
            -i128::MAX <= m,
            -i128::MAX <= cur,
            cur as int == m * pow10(j as nat),
        decreases k - j,
    {
        if cur > i128::MAX / 10 || cur < -(i128::MAX / 10) {
            proof {
                assert(cur * 10 > i128::MAX || cur * 10 < -i128::MAX);
                assert(m * pow10((j + 1) as nat) == (m * pow10(j as nat)) * 10) by (nonlinear_arith)
                    requires
                        pow10((j + 1) as nat) == 10 * pow10(j as nat),
                ;
                lemma_scale_out_of_range(m as int, (j + 1) as nat, k as nat);
            }
            return None;
        }
        proof {
            assert(m * pow10((j + 1) as nat) == (m * pow10(j as nat)) * 10) by (nonlinear_arith)
                requires
                    pow10((j + 1) as nat) == 10 * pow10(j as nat),
            ;
        }
        cur = cur * 10;
        j += 1;
    }
    Some(cur)
}

/// Adds two decimals exactly, or `None` when an aligned mantissa or the
/// sum leaves the machine range.
pub fn dec_add(a: Dec, b: Dec) -> (r: Option<Dec>)
    requires
        dec_wf(a),
        dec_wf(b),
    ensures
        r is Some <==> dec_add_in_range(dec_pair(a), dec_pair(b)),
        r matches Some(d) ==> dec_pair(d) == dec_add_pair(dec_pair(a), dec_pair(b)) && dec_wf(d),
{
    let (base, addend) = if a.scale >= b.scale {
        (a, b)
    } else {
        (b, a)
    };
    let k = base.scale - addend.scale;
    match scale_up(addend.mantissa, k) {
        None => None,
        Some(aligned) => {
            match base.mantissa.checked_add(aligned) {
                None => None,
                Some(sum) => {
                    if sum == i128::MIN {
                        None
                    } else {
                        Some(Dec { mantissa: sum, scale: base.scale })
                    }
                },
            }
        },
    }
}

/// `k` zero digits.
pub open spec fn zeros(k: nat) -> Seq<u8> {
    Seq::new(k, |i| 48u8)
}

/// The canonical text of the non-negative value `n / 10^sc`: trailing
/// fraction zeros dropped, no point when the fraction is empty, a zero
/// before the point when the integer part is empty.
pub open spec fn render_scaled(n: nat, sc: nat) -> Seq<u8>
    decreases sc,
{
    if sc > 0 && n % 10 == 0 {
        render_scaled(n / 10, (sc - 1) as nat)
    } else if sc == 0 {
        dec_digits(n)
    } else {
        let d = dec_digits(n);
        if d.len() > sc {
            d.subrange(0, d.len() - sc) + seq![46u8] + d.subrange(d.len() - sc, d.len() as int)
        } else {
            seq![48u8, 46u8] + zeros((sc - d.len()) as nat) + d
        }
    }
}

/// The canonical text of `m / 10^sc`, with a sign for negative values.
pub open spec fn render_dec(m: int, sc: nat) -> Seq<u8> {
    if m < 0 {
        seq![45u8] + render_scaled((-m) as nat, sc)
    } else {
        render_scaled(m as nat, sc)
    }
}

/// Writes a decimal in its canonical text form.
pub fn render_dec_bytes(d: Dec) -> (r: Vec<u8>)
    requires
        dec_wf(d),
    ensures
        r@ == render_dec(d.mantissa as int, d.scale as nat),
{
    let neg = d.mantissa < 0;
    let mut n: u128 = if neg {
        (-d.mantissa) as u128
    } else {
        d.mantissa as u128
    };
    let mut sc: u32 = d.scale;
    let ghost n0 = n as nat;
    let ghost sc0 = sc as nat;
    while sc > 0 && n % 10 == 0
        invariant
            render_scaled(n as nat, sc as nat) == render_scaled(n0, sc0),
        decreases sc,
    {
        n = n / 10;
        sc = sc - 1;
    }
    let digits = u128_to_dec(n);
    let mut out: Vec<u8> = Vec::new();
    if neg {
        out.push(45);
    }
    let ghost head: Seq<u8> = if neg {
        seq![45u8]
    } else {
        Seq::<u8>::empty()
    };
    proof {
        assert(out@ =~= head);
    }
    if sc == 0 {
        append_bytes(&mut out, &digits);
    } else {
        let dlen = digits.len();
        if dlen > sc as usize {
            append_range(&mut out, &digits, 0, dlen - sc as usize);
            out.push(46);
            append_range(&mut out, &digits, dlen - sc as usize, dlen);
            proof {
                assert(out@ =~= head + (digits@.subrange(0, dlen - sc as int) + seq![46u8]
                    + digits@.subrange(dlen - sc as int, dlen as int)));
            }
        } else {
            out.push(48);
            out.push(46);
            let pad = sc as usize - dlen;
            let mut t: usize = 0;
            proof {
                assert(out@ =~= head + seq![48u8, 46u8] + zeros(0));
            }
            while t < pad
                invariant
                    t <= pad,
                    out@ == head + seq![48u8, 46u8] + zeros(t as nat),
                decreases pad - t,
            {
                out.push(48);
                proof {
                    assert(out@ =~= head + seq![48u8, 46u8] + zeros((t + 1) as nat));
                }
                t += 1;
            }
            append_bytes(&mut out, &digits);
            proof {
                assert(out@ =~= head + (seq![48u8, 46u8] + zeros(pad as nat) + digits@));
            }
        }
    }
    out
}

} // verus!
