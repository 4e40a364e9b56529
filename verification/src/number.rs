//! Whole numbers and their decimal text.

use vstd::prelude::*;

verus! {

/// Whether `c` is one of `0` to `9`.
pub open spec fn is_digit(c: char) -> bool {
    '0' <= c <= '9'
}

/// The value of the decimal digit `c`.
pub open spec fn digit_value(c: char) -> int {
    c as int - '0' as int
}

/// Whether every character of `s` is a decimal digit.
pub open spec fn all_digits(s: Seq<char>) -> bool {
    forall|i: int| 0 <= i < s.len() ==> is_digit(#[trigger] s[i])
}

/// The number that the digits `s` stand for.
pub open spec fn digits_value(s: Seq<char>) -> int
    decreases s.len(),
{
    if s.len() == 0 {
        0
    } else {
        digits_value(s.drop_last()) * 10 + digit_value(s.last())
    }
}

/// The digits of a number's text: what is left once a sign is taken off.
pub open spec fn unsigned_part(s: Seq<char>) -> Seq<char> {
    if s.len() > 0 && (s[0] == '-' || s[0] == '+') {
        s.skip(1)
    } else {
        s
    }
}

/// The number that `s` stands for, sign and all.
pub open spec fn signed_value(s: Seq<char>) -> int {
    if s.len() > 0 && s[0] == '-' {
        -digits_value(unsigned_part(s))
    } else {
        digits_value(unsigned_part(s))
    }
}

/// What `s` reads as, as a whole number from `lo` to `hi`: an optional sign
/// and at least one digit, with nothing around them.
pub open spec fn read_int(s: Seq<char>, lo: int, hi: int) -> Option<int> {
    if unsigned_part(s).len() > 0 && all_digits(unsigned_part(s)) && lo <= signed_value(s) <= hi {
        Some(signed_value(s))
    } else {
        None
    }
}

proof fn lemma_digits_value_step(s: Seq<char>, i: int)
    requires
        0 <= i < s.len(),
    ensures
        digits_value(s.take(i + 1)) == digits_value(s.take(i)) * 10 + digit_value(s[i]),
{
    assert(s.take(i + 1).drop_last() == s.take(i));
}

/// Reads `s` as a whole number from `lo` to `hi`.
fn read_within(s: &str, lo: i64, hi: i64) -> (r: Option<i64>)
    ensures
        match r {
            Some(n) => read_int(s@, lo as int, hi as int) == Some(n as int),
            None => read_int(s@, lo as int, hi as int) is None,
        },
{
    let v: Vec<char> = crate::text::chars_of(s);
    let negative: bool = v.len() > 0 && v[0] == '-';
    let from: usize = if v.len() > 0 && (v[0] == '-' || v[0] == '+') {
        1
    } else {
        0
    };
    let ghost body = unsigned_part(s@);
    assert(body == s@.skip(from as int));
    if v.len() == from {
        return None;
    }
    let mut acc: i128 = 0;
    let mut huge: bool = false;
    let mut i: usize = from;
    assert(body.take(0) == Seq::<char>::empty());
    while i < v.len()
        invariant
            v@ == s@,
            from <= i <= v.len(),
            body == s@.skip(from as int),
            body == unsigned_part(s@),
            all_digits(body.take(i - from)),
            0 <= acc <= 0x1_0000_0000_0000_0000,
            !huge ==> acc == digits_value(body.take(i - from)),
            huge ==> digits_value(body.take(i - from)) > 0x1_0000_0000_0000_0000,
        decreases v.len() - i,
    {
        let c: char = v[i];
        assert(c == body[i - from]);
        if c < '0' || c > '9' {
            assert(!is_digit(body[i - from]));
            return None;
        }
        proof {
            lemma_digits_value_step(body, i - from);
            assert(body.take(i + 1 - from) == body.take(i - from).push(c));
        }
        let next: i128 = acc * 10 + (c as u32 as i128 - 48);
        if huge || next > 0x1_0000_0000_0000_0000 {
            huge = true;
        } else {
            acc = next;
        }
        i = i + 1;
    }
    assert(body.take(body.len() as int) == body);
    if huge {
        return None;
    }
    let value: i128 = if negative {
        -acc
    } else {
        acc
    };
    if lo as i128 <= value && value <= hi as i128 {
        Some(value as i64)
    } else {
        None
    }
}

/// Reads `s` as an `i16`.
pub fn read_i16(s: &str) -> (r: Option<i16>)
    ensures
        match r {
            Some(n) => read_int(s@, i16::MIN as int, i16::MAX as int) == Some(n as int),
            None => read_int(s@, i16::MIN as int, i16::MAX as int) is None,
        },
{
    match read_within(s, -32768, 32767) {
        Some(n) => Some(n as i16),
        None => None,
    }
}

/// Reads `s` as an `i32`.
pub fn read_i32(s: &str) -> (r: Option<i32>)
    ensures
        match r {
            Some(n) => read_int(s@, i32::MIN as int, i32::MAX as int) == Some(n as int),
            None => read_int(s@, i32::MIN as int, i32::MAX as int) is None,
        },
{
    match read_within(s, -2147483648, 2147483647) {
        Some(n) => Some(n as i32),
        None => None,
    }
}

/// Reads `s` as an `i64`.
pub fn read_i64(s: &str) -> (r: Option<i64>)
    ensures
        match r {
            Some(n) => read_int(s@, i64::MIN as int, i64::MAX as int) == Some(n as int),
            None => read_int(s@, i64::MIN as int, i64::MAX as int) is None,
        },
{
    read_within(s, i64::MIN, i64::MAX)
}

/// The digit that stands for `d`.
pub open spec fn digit_char(d: int) -> char {
    (48 + d) as char
}

/// The decimal digits of `n`, without leading zeros.
pub open spec fn nat_text(n: nat) -> Seq<char>
    decreases n,
{
    if n < 10 {
        seq![digit_char(n as int)]
    } else {
        nat_text(n / 10).push(digit_char((n % 10) as int))
    }
}

/// The decimal text of `n`.
pub open spec fn int_text(n: int) -> Seq<char> {
    if n < 0 {
        seq!['-'] + nat_text((-n) as nat)
    } else {
        nat_text(n as nat)
    }
}

/// Appends the decimal digits of `n` to `out`.
pub fn push_nat(out: &mut String, n: u128)
    ensures
        final(out)@ == old(out)@ + nat_text(n as nat),
    decreases n,
{
    if n >= 10 {
        push_nat(out, n / 10);
    }
    let d: u8 = (n % 10) as u8;
    assert(nat_text(n as nat).last() == digit_char(d as int));
    out.push((48u8 + d) as char);
    assert(out@ == old(out)@ + nat_text(n as nat));
}

/// The decimal text of `n`.
pub fn decimal(n: i64) -> (r: String)
    ensures
        r@ == int_text(n as int),
{
    let mut out: String = String::new();
    if n < 0 {
        out.push('-');
        push_nat(&mut out, (-(n as i128)) as u128);
    } else {
        push_nat(&mut out, n as u128);
    }
    out
}

proof fn lemma_nat_text(n: nat)
    ensures
        nat_text(n).len() > 0,
        all_digits(nat_text(n)),
        digits_value(nat_text(n)) == n,
    decreases n,
{
    if n < 10 {
        assert(nat_text(n).drop_last() == Seq::<char>::empty());
        assert(nat_text(n).last() == digit_char(n as int));
        assert(digits_value(Seq::<char>::empty()) == 0);
    } else {
        lemma_nat_text(n / 10);
        assert(nat_text(n).drop_last() == nat_text(n / 10));
        assert(nat_text(n).last() == digit_char((n % 10) as int));
    }
}

/// The text of a number that is not negative begins with a digit.
pub proof fn lemma_first_digit(n: nat)
    ensures
        nat_text(n).len() > 0,
        is_digit(nat_text(n)[0]),
{
    lemma_nat_text(n);
}

/// Reading back the text of a number gives the number.
pub proof fn text_reads_back(n: int, lo: int, hi: int)
    requires
        lo <= n <= hi,
    ensures
        read_int(int_text(n), lo, hi) == Some(n),
{
    let s = int_text(n);
    if n < 0 {
        lemma_nat_text((-n) as nat);
        assert(s.skip(1) == nat_text((-n) as nat));
    } else {
        lemma_nat_text(n as nat);
        assert(is_digit(s[0]));
    }
}

/// The text of a number has no white space at either end.
pub proof fn numbers_have_bare_ends(n: int)
    ensures
        crate::text::bare(int_text(n)),
{
    let m = if n < 0 {
        (-n) as nat
    } else {
        n as nat
    };
    lemma_nat_text(m);
    let s = int_text(n);
    assert(is_digit(nat_text(m)[nat_text(m).len() - 1]));
    assert(s.last() == nat_text(m).last());
    if n >= 0 {
        assert(is_digit(s[0]));
    }
}

/// Zeros before a number do not change it.
pub proof fn leading_zeros_count_for_nothing(zeros: Seq<char>, n: nat, hi: int)
    requires
        forall|i: int| 0 <= i < zeros.len() ==> #[trigger] zeros[i] == '0',
        n <= hi,
    ensures
        read_int(zeros + nat_text(n), 0, hi) == Some(n as int),
{
    lemma_nat_text(n);
    let s = zeros + nat_text(n);
    lemma_zeros_before(zeros, nat_text(n));
    assert forall|i: int| 0 <= i < s.len() implies is_digit(#[trigger] s[i]) by {
        if i >= zeros.len() {
            assert(s[i] == nat_text(n)[i - zeros.len()]);
        } else {
            assert(s[i] == zeros[i]);
        }
    }
    assert(is_digit(s[0]));
    assert(unsigned_part(s) == s);
}

proof fn lemma_zeros_before(z: Seq<char>, s: Seq<char>)
    requires
        forall|i: int| 0 <= i < z.len() ==> #[trigger] z[i] == '0',
    ensures
        digits_value(z + s) == digits_value(s),
    decreases z.len() + s.len(),
{
    if s.len() > 0 {
        assert((z + s).drop_last() == z + s.drop_last());
        lemma_zeros_before(z, s.drop_last());
    } else if z.len() > 0 {
        assert(z + s == z);
        let init = z.drop_last();
        assert forall|i: int| 0 <= i < init.len() implies #[trigger] init[i] == '0' by {
            assert(init[i] == z[i]);
        }
        lemma_zeros_before(init, s);
        assert(init + s == init);
        assert(z.last() == '0');
    } else {
        assert(z + s == s);
    }
}

} // verus!
