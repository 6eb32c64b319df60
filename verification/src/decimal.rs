//! Decimal numbers in text: reading an unsigned integer the way `u64::from_str`
//! does, and writing one (optionally zero-padded, as `{:0w}` does).

use vstd::prelude::*;

verus! {

/// Whether `c` is an ASCII digit.
pub open spec fn is_digit(c: char) -> bool {
    '0' <= c && c <= '9'
}

/// The value of the digit `c`.
pub open spec fn digit_value(c: char) -> nat {
    (c as int - '0' as int) as nat
}

/// The digit character for `d < 10`.
pub open spec fn digit_char(d: nat) -> char {
    (d + '0' as nat) as char
}

/// Whether every character of `s` is a digit.
pub open spec fn all_digits(s: Seq<char>) -> bool {
    forall|i: int| 0 <= i < s.len() ==> #[trigger] is_digit(s[i])
}

/// The number the digits `s` spell, most significant first (0 for no digits).
pub open spec fn digits_value(s: Seq<char>) -> nat
    decreases s.len(),
{
    if s.len() == 0 {
        0
    } else {
        digits_value(s.drop_last()) * 10 + digit_value(s.last())
    }
}

/// What `u64::from_str` gives for `s`: an optional `+` followed by at least one
/// digit and nothing else, whose value fits in 64 bits.
pub open spec fn parse_u64_spec(s: Seq<char>) -> Option<u64> {
    let d = if s.len() > 0 && s[0] == '+' { s.drop_first() } else { s };
    if d.len() > 0 && all_digits(d) && digits_value(d) <= u64::MAX {
        Some(digits_value(d) as u64)
    } else {
        None
    }
}

/// The decimal digits of `n`, without leading zeros ("0" for zero).
pub open spec fn decimal(n: nat) -> Seq<char>
    decreases n,
{
    if n < 10 {
        seq![digit_char(n)]
    } else {
        decimal(n / 10).push(digit_char(n % 10))
    }
}

/// `s` with zeros in front, up to `width` characters.
pub open spec fn zero_pad(s: Seq<char>, width: nat) -> Seq<char> {
    if s.len() >= width {
        s
    } else {
        Seq::new((width - s.len()) as nat, |i: int| '0') + s
    }
}

proof fn lemma_digits_value_push(s: Seq<char>, c: char)
    ensures
        digits_value(s.push(c)) == digits_value(s) * 10 + digit_value(c),
{
    assert(s.push(c).drop_last() =~= s);
}

proof fn lemma_decimal_digits(n: nat)
    ensures
        all_digits(decimal(n)),
        digits_value(decimal(n)) == n,
        decimal(n).len() >= 1,
        n > 0 ==> decimal(n)[0] != '0',
    decreases n,
{
    if n < 10 {
        assert(digits_value(decimal(n)) == digits_value(decimal(n).drop_last()) * 10 + digit_value(decimal(n).last()));
        assert(decimal(n).drop_last() =~= Seq::<char>::empty());
    } else {
        lemma_decimal_digits(n / 10);
        lemma_digits_value_push(decimal(n / 10), digit_char(n % 10));
        let s = decimal(n);
        assert forall|i: int| 0 <= i < s.len() implies #[trigger] is_digit(s[i]) by {
            if i < s.len() - 1 {
                assert(s[i] == decimal(n / 10)[i]);
            }
        }
        assert(s[0] == decimal(n / 10)[0]);
    }
}

/// Reads a decimal `u64` from `s` exactly as `u64::from_str` does.
pub fn parse_u64(s: &str) -> (r: Option<u64>)
    ensures
        r == parse_u64_spec(s@),
{
    let mut chars: Vec<char> = Vec::new();
    for c in it: s.chars()
        invariant
            chars@ == it.seq().take(it.index() as int),
    {
        chars.push(c);
    }
    assert(chars@ == s@);
    let start: usize = if chars.len() > 0 && chars[0] == '+' { 1 } else { 0 };
    let ghost d = if s@.len() > 0 && s@[0] == '+' { s@.drop_first() } else { s@ };
    assert(d =~= chars@.subrange(start as int, chars@.len() as int));
    if start >= chars.len() {
        return None;
    }
    let mut acc: u64 = 0;
    let mut i: usize = start;
    let mut overflow = false;
    while i < chars.len()
        invariant
            start <= i <= chars.len(),
            d == chars@.subrange(start as int, chars@.len() as int),
            d == (if s@.len() > 0 && s@[0] == '+' { s@.drop_first() } else { s@ }),
            forall|j: int| 0 <= j < i - start ==> #[trigger] is_digit(d[j]),
            !overflow ==> acc == digits_value(d.take(i - start)),
            overflow ==> digits_value(d.take(i - start)) > u64::MAX,
        decreases chars.len() - i,
    {
        let c = chars[i];
        assert(d[i - start] == c);
        if c < '0' || c > '9' {
            assert(!is_digit(d[i - start]));
            assert(!all_digits(d));
            return None;
        }
        let dv = (c as u32 - '0' as u32) as u64;
        proof {
            assert(d.take(i - start + 1) =~= d.take(i - start).push(c));
            lemma_digits_value_push(d.take(i - start), c);
        }
        if !overflow {
            if acc > (u64::MAX - dv) / 10 {
                overflow = true;
                assert(acc * 10 + dv > u64::MAX) by (nonlinear_arith)
                    requires
                        acc > (u64::MAX - dv) / 10,
                        dv <= 9,
                ;
            } else {
                assert(acc * 10 + dv <= u64::MAX) by (nonlinear_arith)
                    requires
                        acc <= (u64::MAX - dv) / 10,
                        dv <= 9,
                ;
                acc = acc * 10 + dv;
            }
        }
        i = i + 1;
    }
    assert(d.take(d.len() as int) =~= d);
    if overflow {
        None
    } else {
        Some(acc)
    }
}

/// The decimal digits of `n` (`n.to_string()`).
pub fn u64_to_decimal(n: u64) -> (r: String)
    ensures
        r@ == decimal(n as nat),
{
    let mut rev: Vec<char> = Vec::new();
    let mut m: u64 = n;
    let ghost mut done: Seq<char> = Seq::empty();
    // `rev` holds the lowest digits of `n`, least significant first.
    while m >= 10
        invariant
            decimal(n as nat) == decimal(m as nat) + done,
            rev@ == done.reverse(),
        decreases m,
    {
        let c = ((m % 10) as u32 + ('0' as u32)) as u8 as char;
        assert(c == digit_char((m % 10) as nat));
        rev.push(c);
        proof {
            assert(decimal(m as nat) == decimal((m / 10) as nat).push(c));
            assert(decimal(m as nat) + done =~= decimal((m / 10) as nat) + (seq![c] + done));
            done = seq![c] + done;
            assert(rev@ =~= done.reverse());
        }
        m = m / 10;
    }
    let c = ((m as u32) + ('0' as u32)) as u8 as char;
    assert(c == digit_char(m as nat));
    rev.push(c);
    proof {
        assert(decimal(m as nat) =~= seq![c]);
        done = seq![c] + done;
        assert(rev@ =~= done.reverse());
    }
    assert(done == decimal(n as nat));
    let mut s = String::new();
    let mut k: usize = rev.len();
    while k > 0
        invariant
            k <= rev.len(),
            rev@ == done.reverse(),
            s@ == done.take((rev.len() - k) as int),
        decreases k,
    {
        k = k - 1;
        crate::text::push_char(&mut s, rev[k]);
        assert(done.take((rev.len() - k) as int) =~= done.take((rev.len() - k - 1) as int).push(rev@[k as int]));
    }
    assert(done.take(rev.len() as int) =~= done);
    s
}

/// The decimal digits of `n`, zero-padded to `width` characters (`{:0width}`).
pub fn u64_to_padded(n: u64, width: usize) -> (r: String)
    ensures
        r@ == zero_pad(decimal(n as nat), width as nat),
{
    let digits = u64_to_decimal(n);
    let len = crate::text::chars_of(digits.as_str()).len();
    if len >= width {
        return digits;
    }
    let mut s = String::new();
    let mut i: usize = 0;
    while i < width - len
        invariant
            i <= width - len,
            s@ == Seq::new(i as nat, |j: int| '0'),
        decreases width - len - i,
    {
        crate::text::push_char(&mut s, '0');
        assert(s@ =~= Seq::new((i + 1) as nat, |j: int| '0'));
        i = i + 1;
    }
    crate::text::concat(s.as_str(), digits.as_str())
}

// ---------------------------------------------------------------- laws

/// Reading back what was written gives the number again, for every `u64`.
pub proof fn law_parse_after_format(n: u64)
    ensures
        parse_u64_spec(decimal(n as nat)) == Some(n),
{
    lemma_decimal_digits(n as nat);
    let s = decimal(n as nat);
    assert(is_digit(s[0]));
}

/// A number as read and as written spell the same value: the digits after an
/// optional `+` in the text read, and the digits written for the result.
pub proof fn law_format_after_parse(s: Seq<char>, n: u64)
    requires
        parse_u64_spec(s) == Some(n),
    ensures
        all_digits(decimal(n as nat)),
        digits_value(decimal(n as nat)) == digits_value(
            if s.len() > 0 && s[0] == '+' { s.drop_first() } else { s },
        ),
{
    lemma_decimal_digits(n as nat);
}

/// Zero padding never shortens a number and keeps its value.
pub proof fn law_zero_pad_keeps_value(n: u64, width: nat)
    ensures
        zero_pad(decimal(n as nat), width).len() >= width,
        digits_value(zero_pad(decimal(n as nat), width)) == n,
{
    lemma_decimal_digits(n as nat);
    let s = decimal(n as nat);
    if s.len() < width {
        lemma_zeros_value(s, (width - s.len()) as nat);
    }
}

proof fn lemma_zeros_value(s: Seq<char>, k: nat)
    ensures
        digits_value(Seq::new(k, |i: int| '0') + s) == digits_value(s),
    decreases s.len(),
{
    let z = Seq::new(k, |i: int| '0');
    if s.len() == 0 {
        assert(z + s =~= z);
        lemma_zeros_only(k);
    } else {
        lemma_zeros_value(s.drop_last(), k);
        assert((z + s).drop_last() =~= z + s.drop_last());
        assert((z + s).last() == s.last());
    }
}

proof fn lemma_zeros_only(k: nat)
    ensures
        digits_value(Seq::new(k, |i: int| '0')) == 0,
    decreases k,
{
    if k > 0 {
        lemma_zeros_only((k - 1) as nat);
        assert(Seq::new(k, |i: int| '0').drop_last() =~= Seq::new((k - 1) as nat, |i: int| '0'));
    }
}

} // verus!
