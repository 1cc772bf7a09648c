use vstd::prelude::*;

verus! {

/// The character of a decimal digit.
pub open spec fn digit_char(d: nat) -> char {
    if d == 0 { '0' } else if d == 1 { '1' } else if d == 2 { '2' } else if d == 3 { '3' }
    else if d == 4 { '4' } else if d == 5 { '5' } else if d == 6 { '6' } else if d == 7 { '7' }
    else if d == 8 { '8' } else { '9' }
}

pub open spec fn is_digit(c: char) -> bool {
    48 <= c as u32 && c as u32 <= 57
}

/// The value of a digit character.
pub open spec fn digit_value(c: char) -> nat {
    (c as u32 - 48) as nat
}

/// A natural number written in decimal, without leading zeros.
pub open spec fn decimal(n: nat) -> Seq<char>
    decreases n,
{
    if n < 10 {
        seq![digit_char(n)]
    } else {
        decimal(n / 10).push(digit_char(n % 10))
    }
}

/// An integer written in decimal, with a minus sign when negative.
pub open spec fn int_text(n: int) -> Seq<char> {
    if n < 0 {
        seq!['-'] + decimal((-n) as nat)
    } else {
        decimal(n as nat)
    }
}

/// The value of a run of digits, read from the left.
pub open spec fn digits_value(s: Seq<char>) -> nat
    decreases s.len(),
{
    if s.len() == 0 {
        0
    } else {
        digits_value(s.drop_last()) * 10 + digit_value(s.last())
    }
}

pub proof fn lemma_digit_char(d: nat)
    requires
        d < 10,
    ensures
        is_digit(digit_char(d)),
        digit_value(digit_char(d)) == d,
{
}

/// Every character of a decimal numeral is a digit, and reading it back
/// gives the number.
pub proof fn lemma_decimal(n: nat)
    ensures
        decimal(n).len() >= 1,
        forall|i: int| 0 <= i < decimal(n).len() ==> is_digit(#[trigger] decimal(n)[i]),
        digits_value(decimal(n)) == n,
    decreases n,
{
    if n < 10 {
        lemma_digit_char(n);
        assert(decimal(n).drop_last() =~= Seq::<char>::empty());
        assert(digits_value(Seq::<char>::empty()) == 0);
        assert(decimal(n).last() == digit_char(n));
    } else {
        lemma_decimal(n / 10);
        lemma_digit_char(n % 10);
        assert(decimal(n).drop_last() =~= decimal(n / 10));
        vstd::arithmetic::div_mod::lemma_fundamental_div_mod(n as int, 10);
        assert(decimal(n).last() == digit_char(n % 10));
        assert(digits_value(decimal(n)) == digits_value(decimal(n / 10)) * 10 + n % 10);
    }
}

/// A prefix of a digit run never reads larger than the whole run.
pub proof fn lemma_prefix_value(s: Seq<char>, k: int)
    requires
        0 <= k <= s.len(),
    ensures
        digits_value(s.take(k)) <= digits_value(s),
    decreases s.len() - k,
{
    if k < s.len() {
        lemma_prefix_value(s, k + 1);
        assert(s.take(k + 1).drop_last() =~= s.take(k));
    } else {
        assert(s.take(k) =~= s);
    }
}

/// The text of one decimal digit.
fn digit_str(d: u64) -> (r: &'static str)
    requires
        d < 10,
    ensures
        r@ == seq![digit_char(d as nat)],
{
    proof {
        reveal_strlit("0");
        reveal_strlit("1");
        reveal_strlit("2");
        reveal_strlit("3");
        reveal_strlit("4");
        reveal_strlit("5");
        reveal_strlit("6");
        reveal_strlit("7");
        reveal_strlit("8");
        reveal_strlit("9");
    }
    let r = if d == 0 { "0" } else if d == 1 { "1" } else if d == 2 { "2" } else if d == 3 { "3" }
    else if d == 4 { "4" } else if d == 5 { "5" } else if d == 6 { "6" } else if d == 7 { "7" }
    else if d == 8 { "8" } else { "9" };
    assert(r@ =~= seq![digit_char(d as nat)]);
    r
}

/// Appends `n` in decimal.
pub fn push_decimal(out: &mut String, n: u64)
    ensures
        final(out)@ == old(out)@ + decimal(n as nat),
    decreases n,
{
    if n >= 10 {
        push_decimal(out, n / 10);
    }
    out.append(digit_str(n % 10));
    proof {
        if n >= 10 {
            assert(final(out)@ =~= old(out)@ + decimal(n as nat));
        } else {
            assert(final(out)@ =~= old(out)@ + decimal(n as nat));
        }
    }
}

/// Appends `n` in decimal, with a minus sign when negative.
pub fn push_int(out: &mut String, n: i64)
    ensures
        final(out)@ == old(out)@ + int_text(n as int),
{
    if n < 0 {
        proof {
            reveal_strlit("-");
        }
        out.append("-");
        let m: u64 = (-(n as i128)) as u64;
        push_decimal(out, m);
        assert(final(out)@ =~= old(out)@ + int_text(n as int));
    } else {
        push_decimal(out, n as u64);
    }
}

/// One more than the largest `i64`: the largest magnitude an `i64` holds.
pub const MAGNITUDE_LIMIT: u64 = 0x8000_0000_0000_0000;

/// `lit` stands in `s` at `pos`.
pub open spec fn text_at(s: Seq<char>, pos: int, lit: Seq<char>) -> bool {
    0 <= pos && pos + lit.len() <= s.len() && s.subrange(pos, pos + lit.len()) == lit
}

/// The integer `v` is written in `s` at `pos`, and no digit follows it.
pub open spec fn int_at(s: Seq<char>, pos: int, v: int) -> bool {
    &&& text_at(s, pos, int_text(v))
    &&& (pos + int_text(v).len() == s.len() || !is_digit(s[pos + int_text(v).len()]))
}

/// Whether `lit` stands in `s` at `pos`.
pub fn has_at(s: &str, n: usize, pos: usize, lit: &str) -> (r: bool)
    requires
        n == s@.len(),
        pos <= n,
    ensures
        r == text_at(s@, pos as int, lit@),
{
    let m = lit.unicode_len();
    if m > n - pos {
        return false;
    }
    let mut i: usize = 0;
    while i < m
        invariant
            m == lit@.len(),
            n == s@.len(),
            pos + m <= n,
            i <= m,
            forall|j: int| 0 <= j < i ==> s@[pos + j] == lit@[j],
        decreases m - i,
    {
        if s.get_char(pos + i) != lit.get_char(i) {
            assert(s@.subrange(pos as int, pos + m)[i as int] != lit@[i as int]);
            return false;
        }
        i = i + 1;
    }
    assert(s@.subrange(pos as int, pos + m) =~= lit@);
    true
}

/// A character that stands in a JSON string as it is: no quote, no
/// backslash, no control character.
pub open spec fn plain_char(c: char) -> bool {
    c != '"' && c != '\\' && c as u32 >= 32
}

/// The end of the run of plain characters that starts at `pos`.
pub fn scan_plain(s: &str, n: usize, pos: usize) -> (e: usize)
    requires
        n == s@.len(),
        pos <= n,
    ensures
        pos <= e <= n,
        forall|j: int| pos <= j < e ==> plain_char(#[trigger] s@[j]),
        e < n ==> !plain_char(s@[e as int]),
{
    let mut e = pos;
    while e < n
        invariant
            n == s@.len(),
            pos <= e <= n,
            forall|j: int| pos <= j < e ==> plain_char(#[trigger] s@[j]),
        decreases n - e,
    {
        let c = s.get_char(e);
        if c == '"' || c == '\\' || (c as u32) < 32 {
            return e;
        }
        e = e + 1;
    }
    e
}

/// The end of the run of digits that starts at `pos`.
pub fn scan_digits(s: &str, n: usize, pos: usize) -> (e: usize)
    requires
        n == s@.len(),
        pos <= n,
    ensures
        pos <= e <= n,
        forall|j: int| pos <= j < e ==> is_digit(s@[j]),
        e < n ==> !is_digit(s@[e as int]),
{
    let mut e = pos;
    while e < n
        invariant
            n == s@.len(),
            pos <= e <= n,
            forall|j: int| pos <= j < e ==> is_digit(s@[j]),
        decreases n - e,
    {
        let c = s.get_char(e);
        let cu = c as u32;
        if !(48 <= cu && cu <= 57) {
            return e;
        }
        e = e + 1;
    }
    e
}

/// Where `v` stands at `pos`: its digits start at `d0` and run to the end
/// of its text, and they read as its magnitude.
pub proof fn lemma_int_at(s: Seq<char>, pos: int, v: int)
    requires
        int_at(s, pos, v),
    ensures
        v < 0 ==> pos < s.len() && s[pos] == '-',
        v >= 0 ==> pos < s.len() && is_digit(s[pos]),
        ({
            let d0 = if v < 0 { pos + 1 } else { pos };
            let e = pos + int_text(v).len();
            &&& forall|j: int| d0 <= j < e ==> is_digit(#[trigger] s[j])
            &&& d0 < e
            &&& s.subrange(d0, e) == decimal(if v < 0 { (-v) as nat } else { v as nat })
            &&& digits_value(s.subrange(d0, e)) == if v < 0 { -v } else { v }
        }),
{
    let m: nat = if v < 0 { (-v) as nat } else { v as nat };
    lemma_decimal(m);
    let d0 = if v < 0 { pos + 1 } else { pos };
    let e = pos + int_text(v).len();
    assert(s.subrange(pos, e) == int_text(v));
    assert(s.subrange(d0, e) =~= s.subrange(pos, e).subrange(d0 - pos, e - pos));
    assert(int_text(v).subrange(d0 - pos, e - pos) =~= decimal(m));
    assert forall|j: int| d0 <= j < e implies is_digit(#[trigger] s[j]) by {
        assert(s[j] == decimal(m)[j - d0]);
    }
    if v < 0 {
        assert(s[pos] == s.subrange(pos, e)[0]);
    } else {
        assert(s[pos] == decimal(m)[0]);
    }
}

/// Only one integer is written at a place.
pub proof fn lemma_int_unique(s: Seq<char>, pos: int, v: int, w: int)
    requires
        int_at(s, pos, v),
        int_at(s, pos, w),
    ensures
        v == w,
{
    lemma_int_at(s, pos, v);
    lemma_int_at(s, pos, w);
    let ev = pos + int_text(v).len();
    let ew = pos + int_text(w).len();
    if ev < ew {
        assert(is_digit(s[ev]));
    }
    if ew < ev {
        assert(is_digit(s[ew]));
    }
}

/// Reads the integer written at `pos` (an optional minus sign, then a run
/// of digits) when it is canonical and fits in an `i64`.
pub fn read_int(s: &str, n: usize, pos: usize) -> (r: Option<(i64, usize)>)
    requires
        n == s@.len(),
        pos <= n,
    ensures
        r matches Some((v, e)) ==> pos <= e <= n && e == pos + int_text(v as int).len()
            && int_at(s@, pos as int, v as int),
        forall|v: i64| int_at(s@, pos as int, v as int) ==> r == Some((v, (pos + int_text(v as int).len()) as usize)),
{
    let neg = pos < n && s.get_char(pos) == '-';
    let d0: usize = if neg { pos + 1 } else { pos };
    let e = scan_digits(s, n, d0);
    let ghost run = s@.subrange(d0 as int, e as int);
    proof {
        assert forall|v: i64| int_at(s@, pos as int, v as int) implies (v < 0 <==> neg) && e == pos + int_text(v as int).len()
            && digits_value(run) == (if v < 0 { -v } else { v as int }) by {
            lemma_int_at(s@, pos as int, v as int);
            let ee = pos + int_text(v as int).len();
            if e < ee {
                assert(is_digit(s@[e as int]));
            }
            if e > ee {
                assert(is_digit(s@[ee]));
            }
        }
    }
    if e == d0 {
        return None;
    }
    let limit: u64 = MAGNITUDE_LIMIT;
    let mut acc: u64 = 0;
    let mut i = d0;
    while i < e
        invariant
            n == s@.len(),
            d0 <= i <= e <= n,
            run == s@.subrange(d0 as int, e as int),
            forall|j: int| d0 <= j < e ==> is_digit(s@[j]),
            acc == digits_value(s@.subrange(d0 as int, i as int)),
            acc <= limit,
            limit == MAGNITUDE_LIMIT,
            d0 == (if neg { pos + 1 } else { pos as int }),
            forall|v: i64| int_at(s@, pos as int, v as int) ==> (v < 0 <==> neg) && e == pos + int_text(v as int).len()
                && digits_value(run) == (if v < 0 { -v } else { v as int }),
        decreases e - i,
    {
        let c = s.get_char(i);
        assert(is_digit(c));
        let d: u64 = (c as u32 - 48) as u64;
        assert(d <= 9);
        assert(s@.subrange(d0 as int, i + 1).drop_last() =~= s@.subrange(d0 as int, i as int));
        assert(s@.subrange(d0 as int, i + 1).last() == c);
        let ghost next = digits_value(s@.subrange(d0 as int, i + 1));
        assert(next == acc * 10 + d);
        if acc > (limit - d) / 10 {
            proof {
                assert(next > 0x8000_0000_0000_0000) by (nonlinear_arith)
                    requires
                        next == acc * 10 + d,
                        acc > (limit - d) / 10,
                        limit == MAGNITUDE_LIMIT,
                        d <= 9,
                ;
                assert(run.take(i + 1 - d0) =~= s@.subrange(d0 as int, i + 1));
                lemma_prefix_value(run, i + 1 - d0);
            }
            return None;
        }
        assert(acc * 10 + d <= limit) by (nonlinear_arith)
            requires
                acc <= (limit - d) / 10,
                d <= 9,
                limit == MAGNITUDE_LIMIT,
        ;
        acc = acc * 10 + d;
        i = i + 1;
    }
    assert(s@.subrange(d0 as int, i as int) =~= run);
    let v: i64 = if neg {
        (-(acc as i128)) as i64
    } else {
        if acc == limit {
            return None;
        }
        acc as i64
    };
    let mut t = String::new();
    push_int(&mut t, v);
    let seg = s.substring_char(pos, e);
    let seg = seg.to_owned();
    if t == seg {
        Some((v, e))
    } else {
        proof {
            assert forall|w: i64| int_at(s@, pos as int, w as int) implies false by {
                lemma_int_at(s@, pos as int, w as int);
                assert(w as int == v as int);
            }
        }
        None
    }
}

} // verus!
