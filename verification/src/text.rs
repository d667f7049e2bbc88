//! Text helpers: decimal and binary rendering of integers, and parsing of
//! decimal integers with the rules of Rust's `FromStr` for integer types.

use vstd::prelude::*;

verus! {

/// Appends one character to a string: `String::push` from std.
#[verifier::external_body]
pub(crate) fn push_char(s: &mut String, c: char)
    ensures
        final(s)@ == old(s)@.push(c),
{
    s.push(c);
}

/// The character of a decimal digit `d < 10`.
pub open spec fn digit_char(d: nat) -> char {
    (48 + d) as char
}

/// Whether `c` is an ASCII decimal digit.
pub open spec fn is_digit(c: char) -> bool {
    '0' <= c && c <= '9'
}

/// The numeric value of an ASCII digit.
pub open spec fn digit_value(c: char) -> int {
    c as int - 48
}

/// Decimal digits of a natural number, most significant first, no leading zeros.
pub open spec fn nat_digits(n: nat) -> Seq<char>
    decreases n,
{
    if n < 10 {
        seq![digit_char(n)]
    } else {
        nat_digits(n / 10).push(digit_char(n % 10))
    }
}

/// The decimal text of an integer, as `Display` writes it.
pub open spec fn int_text(n: int) -> Seq<char> {
    if n < 0 {
        seq!['-'] + nat_digits((-n) as nat)
    } else {
        nat_digits(n as nat)
    }
}

/// Whether every character of `s` is an ASCII digit.
pub open spec fn all_digits(s: Seq<char>) -> bool {
    forall|i: int| 0 <= i < s.len() ==> #[trigger] is_digit(s[i])
}

/// The value of a string of decimal digits.
pub open spec fn digits_value(s: Seq<char>) -> int
    decreases s.len(),
{
    if s.len() == 0 {
        0
    } else {
        digits_value(s.drop_last()) * 10 + digit_value(s.last())
    }
}

/// What Rust's `FromStr` for an integer type reads from `s`, before the range
/// of the type is checked: an optional sign (`-` only where `signed`) and one
/// or more ASCII digits, nothing else.
pub open spec fn parse_int_spec(s: Seq<char>, signed: bool) -> Option<int> {
    if s.len() == 0 {
        None
    } else if (s[0] == '+' || s[0] == '-') && s.len() == 1 {
        None
    } else if s[0] == '+' {
        if all_digits(s.drop_first()) {
            Some(digits_value(s.drop_first()))
        } else {
            None
        }
    } else if s[0] == '-' && signed {
        if all_digits(s.drop_first()) {
            Some(-digits_value(s.drop_first()))
        } else {
            None
        }
    } else if all_digits(s) {
        Some(digits_value(s))
    } else {
        None
    }
}

/// What `FromStr` gives for a type whose values are `lo..=hi`.
pub open spec fn parse_in_range(s: Seq<char>, signed: bool, lo: int, hi: int) -> Option<int> {
    match parse_int_spec(s, signed) {
        Some(v) => if lo <= v <= hi { Some(v) } else { None },
        None => None,
    }
}

/// Appends the decimal digits of `n`.
fn push_digits(s: &mut String, n: u64)
    ensures
        final(s)@ == old(s)@ + nat_digits(n as nat),
    decreases n,
{
    if n >= 10 {
        push_digits(s, n / 10);
    }
    let d: u8 = (n % 10) as u8;
    let c: char = (48u8 + d) as char;
    push_char(s, c);
    proof {
        assert(nat_digits(n as nat) == if n < 10 { seq![digit_char(n as nat)] } else {
            nat_digits((n / 10) as nat).push(digit_char((n % 10) as nat))
        });
        if n < 10 {
            assert(old(s)@.push(c) =~= old(s)@ + nat_digits(n as nat));
        } else {
            assert(final(s)@ =~= old(s)@ + nat_digits(n as nat));
        }
    }
}


/// The decimal text of a `u64`.
pub fn u64_to_text(n: u64) -> (s: String)
    ensures
        s@ == int_text(n as int),
{
    let mut s = String::new();
    push_digits(&mut s, n);
    assert(s@ =~= nat_digits(n as nat));
    s
}

/// The decimal text of an `i64`, as `i64::to_string` writes it.
pub fn i64_to_text(n: i64) -> (s: String)
    ensures
        s@ == int_text(n as int),
{
    let mut s = String::new();
    if n < 0 {
        push_char(&mut s, '-');
        let m: u64 = (0i128 - n as i128) as u64;
        push_digits(&mut s, m);
        assert(s@ =~= seq!['-'] + nat_digits((-n) as nat));
    } else {
        push_digits(&mut s, n as u64);
        assert(s@ =~= nat_digits(n as nat));
    }
    s
}

/// Appends the decimal text of an `i64`.
pub fn push_i64(s: &mut String, n: i64)
    ensures
        final(s)@ == old(s)@ + int_text(n as int),
{
    if n < 0 {
        push_char(s, '-');
        let m: u64 = (0i128 - n as i128) as u64;
        push_digits(s, m);
        assert(final(s)@ =~= old(s)@ + (seq!['-'] + nat_digits((-n) as nat)));
    } else {
        push_digits(s, n as u64);
    }
}

/// Appends every character of `t`.
pub fn push_str(s: &mut String, t: &str)
    ensures
        final(s)@ == old(s)@ + t@,
{
    let ghost start = s@;
    let n = t.unicode_len();
    let mut i: usize = 0;
    while i < n
        invariant
            n == t@.len(),
            i <= n,
            s@ == start + t@.subrange(0, i as int),
        decreases n - i,
    {
        let c = t.get_char(i);
        push_char(s, c);
        i = i + 1;
        assert(s@ =~= start + t@.subrange(0, i as int));
    }
    assert(t@.subrange(0, n as int) =~= t@);
}

/// A string holding a copy of `t`.
pub fn text_of(t: &str) -> (s: String)
    ensures
        s@ == t@,
{
    let mut s = String::new();
    push_str(&mut s, t);
    assert(s@ =~= t@);
    s
}

/// Whether two strings hold the same characters.
pub fn same_text(a: &str, b: &str) -> (r: bool)
    ensures
        r == (a@ == b@),
{
    let n = a.unicode_len();
    let m = b.unicode_len();
    if n != m {
        return false;
    }
    let mut i: usize = 0;
    while i < n
        invariant
            n == a@.len(),
            m == b@.len(),
            n == m,
            i <= n,
            forall|j: int| 0 <= j < i ==> a@[j] == b@[j],
        decreases n - i,
    {
        if a.get_char(i) != b.get_char(i) {
            return false;
        }
        i = i + 1;
    }
    assert(a@ =~= b@);
    true
}

/// Whether `s` begins with `prefix`.
pub fn starts_with_text(s: &str, prefix: &str) -> (r: bool)
    ensures
        r == (prefix@.len() <= s@.len() && s@.subrange(0, prefix@.len() as int) == prefix@),
{
    let n = s.unicode_len();
    let m = prefix.unicode_len();
    if m > n {
        return false;
    }
    let mut i: usize = 0;
    while i < m
        invariant
            n == s@.len(),
            m == prefix@.len(),
            m <= n,
            i <= m,
            forall|j: int| 0 <= j < i ==> s@[j] == prefix@[j],
        decreases m - i,
    {
        if s.get_char(i) != prefix.get_char(i) {
            assert(s@.subrange(0, m as int)[i as int] != prefix@[i as int]);
            return false;
        }
        i = i + 1;
    }
    assert(s@.subrange(0, m as int) =~= prefix@);
    true
}


/// Binary digits of a natural number, most significant first, no leading zeros.
pub open spec fn bin_digits(n: nat) -> Seq<char>
    decreases n,
{
    if n < 2 {
        seq![digit_char(n)]
    } else {
        bin_digits(n / 2).push(digit_char(n % 2))
    }
}

/// `s` padded on the left with `c` up to `width` characters.
pub open spec fn pad_left(s: Seq<char>, width: nat, c: char) -> Seq<char> {
    if s.len() >= width {
        s
    } else {
        Seq::new((width - s.len()) as nat, |i: int| c) + s
    }
}

/// The bits of an `i32` read as an unsigned 32-bit number (two's complement),
/// which is what the `{:b}` format of `i32` prints.
pub open spec fn i32_bits_value(n: i32) -> nat {
    if n < 0 {
        (n + 0x1_0000_0000) as nat
    } else {
        n as nat
    }
}

/// Appends the binary digits of `n`.
fn push_bin_digits(s: &mut String, n: u64)
    ensures
        final(s)@ == old(s)@ + bin_digits(n as nat),
    decreases n,
{
    if n >= 2 {
        push_bin_digits(s, n / 2);
    }
    let d: u8 = (n % 2) as u8;
    let c: char = (48u8 + d) as char;
    push_char(s, c);
    proof {
        if n < 2 {
            assert(old(s)@.push(c) =~= old(s)@ + bin_digits(n as nat));
        } else {
            assert(final(s)@ =~= old(s)@ + bin_digits(n as nat));
        }
    }
}

/// Appends `count` copies of `c`.
fn push_repeat(s: &mut String, c: char, count: usize)
    ensures
        final(s)@ == old(s)@ + Seq::new(count as nat, |i: int| c),
{
    let ghost start = s@;
    let mut k: usize = 0;
    while k < count
        invariant
            k <= count,
            s@ == start + Seq::new(k as nat, |i: int| c),
        decreases count - k,
    {
        push_char(s, c);
        k = k + 1;
        assert(s@ =~= start + Seq::new(k as nat, |i: int| c));
    }
}

/// The binary text of an `i32`, padded with zeros to at least `width`
/// characters: what `format!("{:0width$b}", n)` writes.
pub fn i32_to_binary_text(n: i32, width: usize) -> (s: String)
    ensures
        s@ == pad_left(bin_digits(i32_bits_value(n)), width as nat, '0'),
{
    let v: u64 = if n < 0 { (n as i64 + 0x1_0000_0000i64) as u64 } else { n as u64 };
    let mut digits = String::new();
    push_bin_digits(&mut digits, v);
    assert(digits@ =~= bin_digits(v as nat));
    let len = digits.unicode_len();
    if len >= width {
        return digits;
    }
    let mut s = String::new();
    push_repeat(&mut s, '0', width - len);
    push_str(&mut s, digits.as_str());
    assert(s@ =~= pad_left(bin_digits(i32_bits_value(n)), width as nat, '0'));
    s
}

/// The decimal text of `n`, padded with zeros to at least `width` characters:
/// what `format!("{:0width$}", n)` writes for an unsigned number.
pub fn u64_to_padded_text(n: u64, width: usize) -> (s: String)
    ensures
        s@ == pad_left(nat_digits(n as nat), width as nat, '0'),
{
    let digits = u64_to_text(n);
    let len = digits.unicode_len();
    if len >= width {
        return digits;
    }
    let mut s = String::new();
    push_repeat(&mut s, '0', width - len);
    push_str(&mut s, digits.as_str());
    assert(s@ =~= pad_left(nat_digits(n as nat), width as nat, '0'));
    s
}

/// A bound on the magnitudes that [`parse_wide`] reports.
pub open spec fn wide_bound() -> int {
    0x1_0000_0000_0000_0000
}

proof fn lemma_digits_value_step(s: Seq<char>, k: int)
    requires
        0 <= k < s.len(),
    ensures
        digits_value(s.subrange(0, k + 1)) == digits_value(s.subrange(0, k)) * 10 + digit_value(s[k]),
{
    assert(s.subrange(0, k + 1).drop_last() =~= s.subrange(0, k));
}

/// A string of digits is worth at least each of its prefixes.
proof fn lemma_digits_value_prefix(s: Seq<char>, k: int)
    requires
        0 <= k <= s.len(),
        all_digits(s),
    ensures
        digits_value(s) >= digits_value(s.subrange(0, k)),
        digits_value(s.subrange(0, k)) >= 0,
    decreases s.len(),
{
    if s.len() == 0 {
        assert(s.subrange(0, k) =~= s);
    } else if k == s.len() {
        assert(s.subrange(0, k) =~= s);
        lemma_digits_value_nonneg(s);
    } else {
        let t = s.drop_last();
        assert(all_digits(t)) by {
            assert forall|i: int| 0 <= i < t.len() implies #[trigger] is_digit(t[i]) by {
                assert(is_digit(s[i]));
            }
        }
        lemma_digits_value_prefix(t, k);
        assert(t.subrange(0, k) =~= s.subrange(0, k));
        assert(is_digit(s[s.len() - 1]));
        lemma_digits_value_nonneg(t);
    }
}

proof fn lemma_digits_value_nonneg(s: Seq<char>)
    requires
        all_digits(s),
    ensures
        digits_value(s) >= 0,
    decreases s.len(),
{
    if s.len() > 0 {
        let t = s.drop_last();
        assert(all_digits(t)) by {
            assert forall|i: int| 0 <= i < t.len() implies #[trigger] is_digit(t[i]) by {
                assert(is_digit(s[i]));
            }
        }
        lemma_digits_value_nonneg(t);
        assert(is_digit(s[s.len() - 1]));
    }
}

/// Reads the sign and digits of `s` as `FromStr` does; `None` where `FromStr`
/// fails for every integer type, or where the magnitude exceeds `2^64`.
fn parse_wide(s: &str, signed: bool) -> (r: Option<i128>)
    ensures
        match parse_int_spec(s@, signed) {
            Some(v) => if -wide_bound() <= v <= wide_bound() {
                r == Some(v as i128)
            } else {
                r is None
            },
            None => r is None,
        },
{
    let n = s.unicode_len();
    if n == 0 {
        return None;
    }
    let c0 = s.get_char(0);
    if (c0 == '+' || c0 == '-') && n == 1 {
        return None;
    }
    let negative = c0 == '-' && signed;
    let start: usize = if c0 == '+' || negative { 1 } else { 0 };
    let ghost body = s@.subrange(start as int, n as int);
    proof {
        if start == 1 {
            assert(body =~= s@.drop_first());
        } else {
            assert(body =~= s@);
        }
    }
    let mut acc: i128 = 0;
    let mut i: usize = start;
    while i < n
        invariant
            n == s@.len(),
            start <= i <= n,
            start <= 1,
            n >= 1,
            c0 == s@[0],
            !((c0 == '+' || c0 == '-') && n == 1),
            negative == (c0 == '-' && signed),
            start == (if c0 == '+' || negative { 1usize } else { 0usize }),
            start == 1 ==> body == s@.drop_first(),
            start == 0 ==> body == s@,
            body == s@.subrange(start as int, n as int),
            forall|j: int| 0 <= j < i - start ==> #[trigger] is_digit(body[j]),
            acc as int == digits_value(body.subrange(0, i - start)),
            0 <= acc <= wide_bound(),
        decreases n - i,
    {
        let c = s.get_char(i);
        if c < '0' || c > '9' {
            assert(!is_digit(body[i - start]));
            return None;
        }
        let d: i128 = (c as u32 - 48u32) as i128;
        proof {
            lemma_digits_value_step(body, i - start);
        }
        acc = acc * 10 + d;
        i = i + 1;
        if acc > 0x1_0000_0000_0000_0000i128 {
            proof {
                if all_digits(body) {
                    lemma_digits_value_prefix(body, i - start);
                }
            }
            return None;
        }
    }
    assert(body.subrange(0, n - start) =~= body);
    assert(all_digits(body));
    if negative {
        Some(-acc)
    } else {
        Some(acc)
    }
}

/// `i64::from_str`.
pub fn parse_i64(s: &str) -> (r: Option<i64>)
    ensures
        r == match parse_in_range(s@, true, i64::MIN as int, i64::MAX as int) {
            Some(v) => Some(v as i64),
            None => None::<i64>,
        },
{
    match parse_wide(s, true) {
        Some(v) => if -0x8000_0000_0000_0000i128 <= v && v <= 0x7fff_ffff_ffff_ffffi128 {
            Some(v as i64)
        } else {
            None
        },
        None => None,
    }
}

/// `i32::from_str`.
pub fn parse_i32(s: &str) -> (r: Option<i32>)
    ensures
        r == match parse_in_range(s@, true, i32::MIN as int, i32::MAX as int) {
            Some(v) => Some(v as i32),
            None => None::<i32>,
        },
{
    match parse_wide(s, true) {
        Some(v) => if -0x8000_0000i128 <= v && v <= 0x7fff_ffffi128 {
            Some(v as i32)
        } else {
            None
        },
        None => None,
    }
}

/// `u16::from_str`.
pub fn parse_u16(s: &str) -> (r: Option<u16>)
    ensures
        r == match parse_in_range(s@, false, 0, u16::MAX as int) {
            Some(v) => Some(v as u16),
            None => None::<u16>,
        },
{
    match parse_wide(s, false) {
        Some(v) => if 0 <= v && v <= 0xffffi128 {
            Some(v as u16)
        } else {
            None
        },
        None => None,
    }
}

/// `u32::from_str`.
pub fn parse_u32(s: &str) -> (r: Option<u32>)
    ensures
        r == match parse_in_range(s@, false, 0, u32::MAX as int) {
            Some(v) => Some(v as u32),
            None => None::<u32>,
        },
{
    match parse_wide(s, false) {
        Some(v) => if 0 <= v && v <= 0xffff_ffffi128 {
            Some(v as u32)
        } else {
            None
        },
        None => None,
    }
}


pub proof fn lemma_nat_digits(n: nat)
    ensures
        all_digits(nat_digits(n)),
        digits_value(nat_digits(n)) == n,
        nat_digits(n).len() >= 1,
    decreases n,
{
    let s = nat_digits(n);
    if n < 10 {
        assert(s.drop_last() =~= Seq::<char>::empty());
        assert(digit_char(n) as int == 48 + n);
        assert(digits_value(s.drop_last()) == 0);
        assert(is_digit(s[0]));
    } else {
        lemma_nat_digits(n / 10);
        let t = nat_digits(n / 10);
        assert(s.drop_last() =~= t);
        assert(digit_char(n % 10) as int == 48 + n % 10);
        assert(s.last() == digit_char(n % 10));
        assert(digits_value(s) == digits_value(t) * 10 + digit_value(s.last()));
        assert forall|i: int| 0 <= i < s.len() implies #[trigger] is_digit(s[i]) by {
            if i < t.len() {
                assert(is_digit(t[i]));
            }
        }
    }
}

/// Reading back the decimal text of an integer gives that integer: what
/// `i64_to_text` writes, `parse_i64` reads back unchanged, and the same holds of
/// the unsigned readers for numbers that are not negative.
pub proof fn law_text_reads_back(n: int)
    ensures
        parse_int_spec(int_text(n), true) == Some(n),
        n >= 0 ==> parse_int_spec(int_text(n), false) == Some(n),
        i64::MIN <= n <= i64::MAX ==> parse_in_range(int_text(n), true, i64::MIN as int, i64::MAX as int) == Some(n),
        i32::MIN <= n <= i32::MAX ==> parse_in_range(int_text(n), true, i32::MIN as int, i32::MAX as int) == Some(n),
        0 <= n <= u32::MAX ==> parse_in_range(int_text(n), false, 0, u32::MAX as int) == Some(n),
{
    if n < 0 {
        let m = (-n) as nat;
        lemma_nat_digits(m);
        let s = int_text(n);
        assert(s.drop_first() =~= nat_digits(m));
        assert(is_digit(nat_digits(m)[0]));
    } else {
        lemma_nat_digits(n as nat);
        assert(is_digit(nat_digits(n as nat)[0]));
    }
}

} // verus!
