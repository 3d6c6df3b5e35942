//! Decimal rendering of integers, as Rust's `{}` and `{:05}` formats write them.

use vstd::prelude::*;
use vstd::string::*;

verus! {

/// The character of a decimal digit.
pub open spec fn digit_char(d: int) -> char {
    if d == 0 { '0' }
    else if d == 1 { '1' }
    else if d == 2 { '2' }
    else if d == 3 { '3' }
    else if d == 4 { '4' }
    else if d == 5 { '5' }
    else if d == 6 { '6' }
    else if d == 7 { '7' }
    else if d == 8 { '8' }
    else { '9' }
}

/// The decimal digits of `n`, most significant first, without leading zeros.
pub open spec fn digits(n: nat) -> Seq<char>
    decreases n,
{
    if n < 10 {
        seq![digit_char(n as int)]
    } else {
        digits(n / 10).push(digit_char((n % 10) as int))
    }
}

/// `n` as `{}` writes it.
pub open spec fn decimal(n: int) -> Seq<char> {
    if n < 0 {
        seq!['-'] + digits((-n) as nat)
    } else {
        digits(n as nat)
    }
}

/// `count` zeros.
pub open spec fn zeros(count: int) -> Seq<char> {
    Seq::new(if count > 0 { count as nat } else { 0 }, |i: int| '0')
}

/// `n` as `{:05}` writes it: sign first, then zeros up to a width of five.
pub open spec fn zero_padded5(n: int) -> Seq<char> {
    let sign: Seq<char> = if n < 0 { seq!['-'] } else { seq![] };
    let ds = digits(if n < 0 { (-n) as nat } else { n as nat });
    sign + zeros(5 - sign.len() - ds.len()) + ds
}

/// Ten to the power `k`.
pub open spec fn pow10(k: nat) -> nat
    decreases k,
{
    if k == 0 { 1 } else { 10 * pow10((k - 1) as nat) }
}

pub proof fn lemma_digits_bound(n: nat, k: nat)
    requires
        k >= 1,
        n < pow10(k),
    ensures
        1 <= digits(n).len() <= k,
    decreases n,
{
    if n >= 10 {
        assert(k != 1);
        lemma_digits_bound(n / 10, (k - 1) as nat);
    }
}

pub proof fn lemma_digits_len_u64(n: u64)
    ensures
        1 <= digits(n as nat).len() <= 20,
{
    reveal_with_fuel(pow10, 21);
    assert(pow10(20) == 100_000_000_000_000_000_000nat);
    lemma_digits_bound(n as nat, 20);
}

fn digit_str(d: u64) -> (r: &'static str)
    requires
        d < 10,
    ensures
        r@ == seq![digit_char(d as int)],
{
    if d == 0 {
        proof { reveal_strlit("0"); }
        "0"
    } else if d == 1 {
        proof { reveal_strlit("1"); }
        "1"
    } else if d == 2 {
        proof { reveal_strlit("2"); }
        "2"
    } else if d == 3 {
        proof { reveal_strlit("3"); }
        "3"
    } else if d == 4 {
        proof { reveal_strlit("4"); }
        "4"
    } else if d == 5 {
        proof { reveal_strlit("5"); }
        "5"
    } else if d == 6 {
        proof { reveal_strlit("6"); }
        "6"
    } else if d == 7 {
        proof { reveal_strlit("7"); }
        "7"
    } else if d == 8 {
        proof { reveal_strlit("8"); }
        "8"
    } else {
        proof { reveal_strlit("9"); }
        "9"
    }
}

/// Appends the decimal digits of `n` to `out`.
pub fn push_digits(out: &mut String, n: u64)
    ensures
        final(out)@ == old(out)@ + digits(n as nat),
    decreases n,
{
    if n < 10 {
        out.append(digit_str(n));
    } else {
        push_digits(out, n / 10);
        out.append(digit_str(n % 10));
        assert(digits(n as nat) == digits((n / 10) as nat).push(digit_char((n % 10) as int)));
    }
}

/// Appends `n` as `{}` writes it.
pub fn push_decimal(out: &mut String, n: i64)
    ensures
        final(out)@ == old(out)@ + decimal(n as int),
{
    if n < 0 {
        proof { reveal_strlit("-"); }
        out.append("-");
        let m: u64 = if n == i64::MIN { 9_223_372_036_854_775_808u64 } else { (-n) as u64 };
        assert(m as int == -(n as int));
        push_digits(out, m);
        assert(old(out)@ + seq!['-'] + digits(m as nat) == old(out)@ + (seq!['-'] + digits(m as nat)));
    } else {
        push_digits(out, n as u64);
    }
}

/// The number of decimal digits of `n`.
fn digit_count(n: u64) -> (r: usize)
    ensures
        r as int == digits(n as nat).len(),
    decreases n,
{
    if n < 10 {
        1
    } else {
        let c = digit_count(n / 10);
        proof { lemma_digits_len_u64(n / 10); }
        c + 1
    }
}

/// Appends `n` as `{:05}` writes it.
pub fn push_zero_padded5(out: &mut String, n: i64)
    ensures
        final(out)@ == old(out)@ + zero_padded5(n as int),
{
    let neg = n < 0;
    let m: u64 = if n == i64::MIN { 9_223_372_036_854_775_808u64 } else if neg { (-n) as u64 } else { n as u64 };
    let ghost sign: Seq<char> = if neg { seq!['-'] } else { seq![] };
    let ghost start = out@;
    if neg {
        proof { reveal_strlit("-"); }
        out.append("-");
    }
    assert(out@ == start + sign);
    let sign_len: usize = if neg { 1 } else { 0 };
    proof { lemma_digits_len_u64(m); }
    let width = sign_len + digit_count(m);
    let pad: usize = if width < 5 { 5 - width } else { 0 };
    let mut j: usize = 0;
    proof { reveal_strlit("0"); }
    while j < pad
        invariant
            j <= pad,
            out@ == start + sign + zeros(j as int),
        decreases pad - j,
    {
        proof { reveal_strlit("0"); }
        out.append("0");
        assert(zeros(j + 1) =~= zeros(j as int).push('0'));
        assert(start + sign + zeros(j as int) + seq!['0'] =~= start + sign + zeros(j + 1));
        j = j + 1;
    }
    assert(zeros(5 - sign.len() - digits(m as nat).len()) =~= zeros(pad as int));
    push_digits(out, m);
    assert(out@ == start + (sign + zeros(5 - sign.len() - digits(m as nat).len()) + digits(m as nat)));
}

/// Whether two texts hold the same characters.
pub fn same_text(a: &str, b: &str) -> (r: bool)
    ensures
        r == (a@ == b@),
{
    let n = a.unicode_len();
    if n != b.unicode_len() {
        return false;
    }
    let mut i: usize = 0;
    while i < n
        invariant
            n == a@.len(),
            n == b@.len(),
            i <= n,
            forall|j: int| 0 <= j < i ==> a@[j] == b@[j],
        decreases n - i,
    {
        if a.get_char(i) != b.get_char(i) {
            return false;
        }
        i = i + 1;
    }
    assert(a@ =~= b@);
    true
}

} // verus!
