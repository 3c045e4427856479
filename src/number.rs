//! Decimal text of the numbers the wire carries: unsigned integers, and
//! fixed-point reals written with a decimal point and at most nine
//! fractional digits (trailing zeros dropped, at least one kept).
use vstd::prelude::*;
use crate::model::FIXED_ONE;

verus! {

pub open spec fn pow10(n: nat) -> nat
    decreases n,
{
    if n == 0 {
        1
    } else {
        10 * pow10((n - 1) as nat)
    }
}

pub open spec fn is_digit(c: char) -> bool {
    '0' <= c && c <= '9'
}

pub open spec fn digit_char(d: int) -> char {
    (48 + d) as char
}

pub open spec fn all_digits(t: Seq<char>) -> bool {
    forall|i: int| 0 <= i < t.len() ==> is_digit(#[trigger] t[i])
}

/// Shortest decimal text of `n`.
pub open spec fn digits_of(n: nat) -> Seq<char>
    decreases n,
{
    if n < 10 {
        seq![digit_char(n as int)]
    } else {
        digits_of(n / 10).push(digit_char((n % 10) as int))
    }
}

/// The `w` last decimal digits of `f`, with leading zeros.
pub open spec fn padded(f: nat, w: nat) -> Seq<char>
    decreases w,
{
    if w == 0 {
        Seq::empty()
    } else {
        padded(f / 10, (w - 1) as nat).push(digit_char((f % 10) as int))
    }
}

/// A `w`-digit fraction `f` with its trailing zeros dropped, one digit kept.
pub open spec fn trimmed(f: nat, w: nat) -> (nat, nat)
    decreases w,
{
    if w > 1 && f % 10 == 0 {
        trimmed(f / 10, (w - 1) as nat)
    } else {
        (f, w)
    }
}

pub open spec fn abs(x: int) -> nat {
    if x < 0 {
        (-x) as nat
    } else {
        x as nat
    }
}

/// Text of a fixed-point value: optional `-`, the integer part, `.`, and the
/// fractional digits without trailing zeros (`3.5`, `-0.25`, `2.0`).
pub open spec fn fixed_text(x: int) -> Seq<char> {
    let m = abs(x);
    let sign = if x < 0 {
        seq!['-']
    } else {
        Seq::<char>::empty()
    };
    let fw = trimmed(m % (FIXED_ONE as nat), 9);
    sign + digits_of(m / (FIXED_ONE as nat)) + seq!['.'] + padded(fw.0, fw.1)
}

/// Value of a run of decimal digits.
pub open spec fn digits_value(t: Seq<char>) -> nat
    decreases t.len(),
{
    if t.len() == 0 {
        0
    } else {
        digits_value(t.drop_last()) * 10 + (t.last() as int - 48) as nat
    }
}

/// Digits without a superfluous leading zero.
pub open spec fn canonical_digits(t: Seq<char>) -> bool {
    t.len() > 0 && all_digits(t) && (t.len() == 1 || t[0] != '0')
}

/// End of the run of digits that starts at `i`.
pub open spec fn digit_run_end(t: Seq<char>, i: int) -> int
    decreases t.len() - i,
{
    if 0 <= i < t.len() && is_digit(t[i]) {
        digit_run_end(t, i + 1)
    } else {
        i
    }
}

/// An unsigned 32-bit integer in decimal: canonical digits, in range.
pub open spec fn parse_u32(t: Seq<char>) -> Option<u32> {
    if canonical_digits(t) && t.len() <= 10 && digits_value(t) <= u32::MAX {
        Some(digits_value(t) as u32)
    } else {
        None
    }
}

/// A fixed-point value in decimal: optional `-`, canonical integer digits
/// (ten at most), then optionally `.` and one to nine digits; in range.
pub open spec fn parse_fixed(t: Seq<char>) -> Option<i64> {
    let start: int = if t.len() > 0 && t[0] == '-' {
        1
    } else {
        0
    };
    let int_end = digit_run_end(t, start);
    let int_part = t.subrange(start, int_end);
    let frac = if int_end < t.len() {
        t.subrange(int_end + 1, t.len() as int)
    } else {
        Seq::<char>::empty()
    };
    let well_formed = canonical_digits(int_part) && int_part.len() <= 10 && (int_end == t.len()
        || (t[int_end] == '.' && 1 <= frac.len() <= 9 && all_digits(frac)));
    let magnitude = digits_value(int_part) * FIXED_ONE + digits_value(frac) * pow10(
        (9 - frac.len()) as nat,
    );
    let value = if start == 1 {
        -magnitude
    } else {
        magnitude
    };
    if well_formed && i64::MIN <= value <= i64::MAX {
        Some(value as i64)
    } else {
        None
    }
}

// ---- lemmas ----

pub proof fn lemma_pow10_values()
    ensures
        pow10(9) == 1000000000,
        pow10(10) == 10000000000,
        pow10(19) == 10000000000000000000,
{
    assert(pow10(0) == 1);
    assert(pow10(1) == 10);
    assert(pow10(2) == 100);
    assert(pow10(3) == 1000);
    assert(pow10(4) == 10000);
    assert(pow10(5) == 100000);
    assert(pow10(6) == 1000000);
    assert(pow10(7) == 10000000);
    assert(pow10(8) == 100000000);
    assert(pow10(9) == 1000000000);
    assert(pow10(10) == 10000000000);
    assert(pow10(11) == 100000000000);
    assert(pow10(12) == 1000000000000);
    assert(pow10(13) == 10000000000000);
    assert(pow10(14) == 100000000000000);
    assert(pow10(15) == 1000000000000000);
    assert(pow10(16) == 10000000000000000);
    assert(pow10(17) == 100000000000000000);
    assert(pow10(18) == 1000000000000000000);
    assert(pow10(19) == 10000000000000000000);
}

pub proof fn lemma_pow10_pos(n: nat)
    ensures
        pow10(n) >= 1,
    decreases n,
{
    if n > 0 {
        lemma_pow10_pos((n - 1) as nat);
    }
}

/// The shortest decimal text of `n` is canonical, reads back as `n`, and has
/// at most `k` digits when `n < 10^k`.
pub proof fn lemma_digits_of(n: nat, k: nat)
    ensures
        canonical_digits(digits_of(n)),
        digits_value(digits_of(n)) == n,
        n < pow10(k) && k >= 1 ==> digits_of(n).len() <= k,
        n >= 10 ==> digits_of(n).len() >= 2,
    decreases n,
{
    if n < 10 {
        assert(digit_char(n as int) as int == 48 + n);
        assert(digits_of(n) == seq![digit_char(n as int)]);
        assert(digits_of(n).drop_last() == Seq::<char>::empty());
        assert(digits_value(Seq::<char>::empty()) == 0);
        assert(digits_value(digits_of(n)) == digits_value(Seq::<char>::empty()) * 10 + (
        digit_char(n as int) as int - 48) as nat);
    } else {
        let k1: nat = if k >= 1 { (k - 1) as nat } else { 0 };
        lemma_digits_of(n / 10, k1);
        let d = digits_of(n / 10);
        let t = digits_of(n);
        assert(t == d.push(digit_char((n % 10) as int)));
        assert(t.drop_last() == d);
        assert forall|i: int| 0 <= i < t.len() implies is_digit(#[trigger] t[i]) by {
            if i < d.len() {
                assert(t[i] == d[i]);
            }
        }
        assert(t[0] == d[0]);
        assert(digit_char((n % 10) as int) as int == 48 + n % 10);
        assert(t.last() == digit_char((n % 10) as int));
        assert(n == (n / 10) * 10 + n % 10);
        assert(digits_value(t) == digits_value(d) * 10 + (t.last() as int - 48) as nat);
        if n / 10 < 10 {
            assert(d == seq![digit_char((n / 10) as int)]);
        }
        if n < pow10(k) && k >= 1 {
            if k1 == 0 {
                assert(pow10(1) == 10 * pow10(0));
                assert(false);
            }
            assert(pow10(k) == 10 * pow10(k1));
        }
    }
}

/// `w` padded digits of `f < 10^w` read back as `f`.
pub proof fn lemma_padded(f: nat, w: nat)
    requires
        f < pow10(w),
    ensures
        padded(f, w).len() == w,
        all_digits(padded(f, w)),
        digits_value(padded(f, w)) == f,
    decreases w,
{
    if w > 0 {
        let w1 = (w - 1) as nat;
        assert(pow10(w) == 10 * pow10(w1));
        lemma_padded(f / 10, w1);
        let p = padded(f / 10, w1);
        let t = padded(f, w);
        assert(t.drop_last() == p);
        assert forall|i: int| 0 <= i < t.len() implies is_digit(#[trigger] t[i]) by {
            if i < p.len() {
                assert(t[i] == p[i]);
            }
        }
    } else {
        assert(f == 0);
    }
}

/// Dropping trailing zeros keeps the value once scaled back.
pub proof fn lemma_trimmed(f: nat, w: nat)
    requires
        f < pow10(w),
        w >= 1,
    ensures
        1 <= trimmed(f, w).1 <= w,
        trimmed(f, w).0 < pow10(trimmed(f, w).1),
        trimmed(f, w).0 * pow10((w - trimmed(f, w).1) as nat) == f,
    decreases w,
{
    if w > 1 && f % 10 == 0 {
        let w1 = (w - 1) as nat;
        assert(pow10(w) == 10 * pow10(w1));
        lemma_trimmed(f / 10, w1);
        let (g, v) = trimmed(f / 10, w1);
        assert(trimmed(f, w) == trimmed(f / 10, w1));
        assert(f == 10 * (f / 10));
        assert(pow10((w - v) as nat) == 10 * pow10((w1 - v) as nat));
        assert(g * pow10((w - v) as nat) == 10 * (g * pow10((w1 - v) as nat))) by (nonlinear_arith)
            requires
                pow10((w - v) as nat) == 10 * pow10((w1 - v) as nat),
        ;
        assert(g * pow10((w1 - v) as nat) == f / 10);
        assert(g * pow10((w - v) as nat) == f);
    } else {
        assert(trimmed(f, w) == (f, w));
        assert(pow10(0) == 1);
        assert((w - w) as nat == 0);
        assert(f * pow10(0) == f);
    }
}

pub proof fn lemma_digits_value_bound(t: Seq<char>)
    requires
        all_digits(t),
    ensures
        digits_value(t) < pow10(t.len()),
    decreases t.len(),
{
    if t.len() > 0 {
        let d = t.drop_last();
        assert(all_digits(d)) by {
            assert forall|i: int| 0 <= i < d.len() implies is_digit(#[trigger] d[i]) by {
                assert(d[i] == t[i]);
            }
        }
        lemma_digits_value_bound(d);
        assert(is_digit(t[t.len() - 1]));
        assert(pow10(t.len()) == 10 * pow10(d.len()));
    }
}

/// The digit run that starts at `i` ends where the digits `a` placed there end.
pub proof fn lemma_digit_run_end(t: Seq<char>, i: int, n: int)
    requires
        0 <= i <= n <= t.len(),
        forall|j: int| i <= j < n ==> is_digit(#[trigger] t[j]),
        n == t.len() || !is_digit(t[n]),
    ensures
        digit_run_end(t, i) == n,
    decreases n - i,
{
    if i < n {
        lemma_digit_run_end(t, i + 1, n);
    }
}

/// Unsigned integers read back from their text.
pub proof fn lemma_u32_round_trip(n: u32)
    ensures
        parse_u32(digits_of(n as nat)) == Some(n),
{
    lemma_pow10_values();
    lemma_digits_of(n as nat, 10);
}

/// Fixed-point values read back from their text.
pub proof fn lemma_fixed_round_trip(x: i64)
    ensures
        parse_fixed(fixed_text(x as int)) == Some(x),
{
    let m = abs(x as int);
    let q = m / (FIXED_ONE as nat);
    let r = m % (FIXED_ONE as nat);
    lemma_pow10_values();
    lemma_pow10_values();
    lemma_trimmed(r, 9);
    let (f, w) = trimmed(r, 9);
    lemma_padded(f, w);
    lemma_digits_of(q, 10);
    let sign = if x < 0 {
        seq!['-']
    } else {
        Seq::<char>::empty()
    };
    let ds = digits_of(q);
    let fr = padded(f, w);
    let t = fixed_text(x as int);
    assert(t == sign + ds + seq!['.'] + fr);
    let start: int = sign.len() as int;
    let int_end = start + ds.len();
    assert(t.len() > 0 && t[0] == '-' <==> x < 0) by {
        if x >= 0 {
            assert(t[0] == ds[0]);
        }
    }
    assert forall|j: int| start <= j < int_end implies is_digit(#[trigger] t[j]) by {
        assert(t[j] == ds[j - start]);
    }
    assert(t[int_end] == '.');
    lemma_digit_run_end(t, start, int_end);
    assert(t.subrange(start, int_end) == ds);
    assert(t.subrange(int_end + 1, t.len() as int) == fr);
    assert(r < pow10(9));
    vstd::arithmetic::div_mod::lemma_fundamental_div_mod(m as int, 1000000000);
    assert(m == q * 1000000000 + r);
    assert(f * pow10((9 - w) as nat) == r);
}

// ---- executable ----

pub(crate) fn push_digits(out: &mut Vec<char>, n: u64)
    ensures
        final(out)@ == old(out)@ + digits_of(n as nat),
    decreases n,
{
    if n >= 10 {
        push_digits(out, n / 10);
    }
    out.push(((48 + n % 10) as u8) as char);
}

fn push_padded(out: &mut Vec<char>, f: u64, w: u64)
    ensures
        final(out)@ == old(out)@ + padded(f as nat, w as nat),
    decreases w,
{
    if w > 0 {
        push_padded(out, f / 10, w - 1);
        out.push(((48 + f % 10) as u8) as char);
    }
}

/// Decimal text of `n`.
pub fn u32_text(n: u32) -> (r: Vec<char>)
    ensures
        r@ == digits_of(n as nat),
{
    let mut r: Vec<char> = Vec::new();
    push_digits(&mut r, n as u64);
    r
}

/// Decimal text of the fixed-point value `x`.
pub fn fixed_text_exec(x: i64) -> (r: Vec<char>)
    ensures
        r@ == fixed_text(x as int),
{
    let m: u64 = if x < 0 {
        (-(x as i128)) as u64
    } else {
        x as u64
    };
    let mut r: Vec<char> = Vec::new();
    if x < 0 {
        r.push('-');
    }
    push_digits(&mut r, m / (FIXED_ONE as u64));
    r.push('.');
    let mut f: u64 = m % (FIXED_ONE as u64);
    let mut w: u64 = 9;
    while w > 1 && f % 10 == 0
        invariant
            1 <= w <= 9,
            trimmed(f as nat, w as nat) == trimmed(abs(x as int) % (FIXED_ONE as nat), 9),
        decreases w,
    {
        f = f / 10;
        w = w - 1;
    }
    push_padded(&mut r, f, w);
    r
}

/// Value of the digits `t[lo..hi]`, all digits and at most nineteen.
fn digits_value_exec(t: &Vec<char>, lo: usize, hi: usize) -> (r: u64)
    requires
        lo <= hi <= t@.len(),
        hi - lo <= 19,
        all_digits(t@.subrange(lo as int, hi as int)),
    ensures
        r == digits_value(t@.subrange(lo as int, hi as int)),
{
    let mut acc: u64 = 0;
    let mut i: usize = lo;
    proof { lemma_pow10_values(); }
    while i < hi
        invariant
            lo <= i <= hi <= t@.len(),
            hi - lo <= 19,
            all_digits(t@.subrange(lo as int, hi as int)),
            acc == digits_value(t@.subrange(lo as int, i as int)),
            acc < pow10((i - lo) as nat),
            pow10(19) == 10000000000000000000,
        decreases hi - i,
    {
        let ghost s = t@.subrange(lo as int, i as int + 1);
        assert(s.drop_last() == t@.subrange(lo as int, i as int));
        assert(t@[i as int] == t@.subrange(lo as int, hi as int)[i - lo]);
        let d = t[i] as u64 - 48;
        assert(pow10((i + 1 - lo) as nat) == 10 * pow10((i - lo) as nat));
        assert(pow10((i + 1 - lo) as nat) <= pow10(19)) by {
            lemma_pow10_mono((i + 1 - lo) as nat, 19);
        }
        acc = acc * 10 + d;
        i = i + 1;
    }
    acc
}

pub proof fn lemma_pow10_mono(a: nat, b: nat)
    requires
        a <= b,
    ensures
        pow10(a) <= pow10(b),
    decreases b,
{
    if a < b {
        lemma_pow10_mono(a, (b - 1) as nat);
        lemma_pow10_pos((b - 1) as nat);
    }
}

fn digit_run_end_exec(t: &Vec<char>, i: usize) -> (r: usize)
    requires
        i <= t@.len(),
    ensures
        r == digit_run_end(t@, i as int),
        i <= r <= t@.len(),
        r < t@.len() ==> !is_digit(t@[r as int]),
        forall|j: int| i <= j < r ==> is_digit(#[trigger] t@[j]),
{
    let mut j: usize = i;
    while j < t.len() && '0' <= t[j] && t[j] <= '9'
        invariant
            i <= j <= t@.len(),
            digit_run_end(t@, j as int) == digit_run_end(t@, i as int),
            forall|k: int| i <= k < j ==> is_digit(#[trigger] t@[k]),
        decreases t@.len() - j,
    {
        j = j + 1;
    }
    j
}

fn all_digits_exec(t: &Vec<char>, lo: usize, hi: usize) -> (r: bool)
    requires
        lo <= hi <= t@.len(),
    ensures
        r == all_digits(t@.subrange(lo as int, hi as int)),
{
    let e = digit_run_end_exec(t, lo);
    if e >= hi {
        assert forall|k: int| 0 <= k < hi - lo implies is_digit(
            #[trigger] t@.subrange(lo as int, hi as int)[k],
        ) by {
            assert(t@.subrange(lo as int, hi as int)[k] == t@[lo + k]);
        }
        true
    } else {
        assert(!is_digit(t@.subrange(lo as int, hi as int)[e - lo]));
        false
    }
}

/// Reads an unsigned 32-bit integer.
pub fn parse_u32_exec(t: &Vec<char>) -> (r: Option<u32>)
    ensures
        r == parse_u32(t@),
{
    let n = t.len();
    if n == 0 || n > 10 || !all_digits_exec(t, 0, n) {
        assert(t@.subrange(0, n as int) == t@);
        return None;
    }
    assert(t@.subrange(0, n as int) == t@);
    if n > 1 && t[0] == '0' {
        return None;
    }
    let v = digits_value_exec(t, 0, n);
    if v > u32::MAX as u64 {
        None
    } else {
        Some(v as u32)
    }
}

/// Reads a fixed-point value.
pub fn parse_fixed_exec(t: &Vec<char>) -> (r: Option<i64>)
    ensures
        r == parse_fixed(t@),
{
    let n = t.len();
    let start: usize = if n > 0 && t[0] == '-' {
        1
    } else {
        0
    };
    let int_end = digit_run_end_exec(t, start);
    let ghost int_part = t@.subrange(start as int, int_end as int);
    assert(all_digits(int_part)) by {
        assert forall|k: int| 0 <= k < int_part.len() implies is_digit(#[trigger] int_part[k]) by {
            assert(int_part[k] == t@[start + k]);
        }
    }
    let int_len = int_end - start;
    if int_len == 0 || int_len > 10 || (int_len > 1 && t[start] == '0') {
        assert(int_len > 0 ==> int_part[0] == t@[start as int]);
        return None;
    }
    let frac_start: usize = if int_end < n {
        int_end + 1
    } else {
        n
    };
    let frac_len = n - frac_start;
    if int_end < n {
        if t[int_end] != '.' || frac_len < 1 || frac_len > 9 || !all_digits_exec(t, frac_start, n) {
            return None;
        }
    }
    let ghost frac = t@.subrange(frac_start as int, n as int);
    assert(int_end == n ==> frac == Seq::<char>::empty());
    let int_value = digits_value_exec(t, start, int_end);
    let frac_value = digits_value_exec(t, frac_start, n);
    let mut scale: u64 = 1;
    let mut k: usize = frac_len;
    while k < 9
        invariant
            frac_len <= k <= 9,
            scale == pow10((k - frac_len) as nat),
        decreases 9 - k,
    {
        proof {
            lemma_pow10_values();
        }
        assert(pow10((k + 1 - frac_len) as nat) == 10 * pow10((k - frac_len) as nat));
        assert(scale * 10 <= 1000000000) by {
            lemma_pow10_mono((k + 1 - frac_len) as nat, 9);
        }
        scale = scale * 10;
        k = k + 1;
    }
    proof {
        lemma_digits_value_bound(int_part);
        lemma_pow10_mono(int_part.len(), 10);
        lemma_pow10_values();
        lemma_digits_value_bound(frac);
        lemma_pow10_mono(frac.len(), 9);
        lemma_pow10_mono((9 - frac_len) as nat, 9);
        lemma_pow10_values();
        assert(frac_value * scale <= 1000000000 * 1000000000) by (nonlinear_arith)
            requires
                frac_value < 1000000000,
                scale <= 1000000000,
        ;
    }
    let magnitude: i128 = int_value as i128 * 1_000_000_000 + frac_value as i128 * scale as i128;
    let value: i128 = if start == 1 {
        -magnitude
    } else {
        magnitude
    };
    if value < i64::MIN as i128 || value > i64::MAX as i128 {
        None
    } else {
        Some(value as i64)
    }
}

} // verus!
