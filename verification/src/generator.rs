//! Random secrets: verification codes, session tokens and API tokens.

use vstd::prelude::*;
use rand::RngExt;
use crate::text::{
    push_char, u64_to_padded_text, pad_left, nat_digits, all_digits, is_digit, lemma_nat_digits,
};

verus! {

/// A lowercase hexadecimal digit.
pub open spec fn is_lower_hex(c: char) -> bool {
    ('0' <= c && c <= '9') || ('a' <= c && c <= 'f')
}

/// The character of a hexadecimal digit `d < 16`, lowercase.
pub open spec fn hex_digit(d: nat) -> char {
    if d < 10 {
        (48 + d) as char
    } else {
        (87 + d) as char
    }
}

/// The lowercase hexadecimal text of some bytes, two digits per byte.
pub open spec fn hex_text(b: Seq<u8>) -> Seq<char>
    decreases b.len(),
{
    if b.len() == 0 {
        Seq::empty()
    } else {
        hex_text(b.drop_last()) + seq![hex_digit((b.last() / 16) as nat), hex_digit((b.last() % 16) as nat)]
    }
}

/// The text of a UUID in hyphenated lowercase form: 36 characters, dashes at
/// places 8, 13, 18 and 23, lowercase hexadecimal digits elsewhere.
pub open spec fn uuid_shape(s: Seq<char>) -> bool {
    &&& s.len() == 36
    &&& forall|i: int| 0 <= i < 36 ==> #[trigger] uuid_char_ok(s, i)
}

/// Whether the character at `i` fits the hyphenated form.
pub open spec fn uuid_char_ok(s: Seq<char>, i: int) -> bool {
    if i == 8 || i == 13 || i == 18 || i == 23 {
        s[i] == '-'
    } else {
        is_lower_hex(s[i])
    }
}

/// `s` without any occurrence of `c`.
pub open spec fn without_char(s: Seq<char>, c: char) -> Seq<char>
    decreases s.len(),
{
    if s.len() == 0 {
        Seq::empty()
    } else {
        let r = without_char(s.drop_last(), c);
        if s.last() == c {
            r
        } else {
            r.push(s.last())
        }
    }
}

/// Whether every character of `s` is a lowercase hexadecimal digit.
pub open spec fn all_lower_hex(s: Seq<char>) -> bool {
    forall|i: int| 0 <= i < s.len() ==> #[trigger] is_lower_hex(s[i])
}

/// A number below a million, from rand's thread generator
/// (`rand::rng().random_range(0..1_000_000)`); the range is all that rand
/// promises of it.
#[verifier::external_body]
fn random_below_million() -> (n: u32)
    ensures
        n < 1_000_000,
{
    rand::rng().random_range(0..1_000_000u32)
}

/// A random byte from rand's thread generator (`rand::rng().random::<u8>()`).
#[verifier::external_body]
fn random_byte() -> u8 {
    rand::rng().random::<u8>()
}

/// The text of a new random UUID (uuid's `Uuid::new_v4().to_string()`), which
/// uuid writes in hyphenated lowercase form.
#[verifier::external_body]
fn random_uuid_text() -> (s: String)
    ensures
        uuid_shape(s@),
{
    uuid::Uuid::new_v4().to_string()
}

/// hex's `encode`: two lowercase hexadecimal digits per byte, in order.
#[verifier::external_body]
fn hex_encode(bytes: &[u8]) -> (s: String)
    ensures
        s@ == hex_text(bytes@),
{
    hex::encode(bytes)
}

/// Ten to the power `k`.
pub open spec fn pow10(k: nat) -> nat
    decreases k,
{
    if k == 0 {
        1
    } else {
        10 * pow10((k - 1) as nat)
    }
}

proof fn lemma_digits_len(n: nat, k: nat)
    requires
        k >= 1,
        n < pow10(k),
    ensures
        nat_digits(n).len() <= k,
    decreases k,
{
    if n >= 10 {
        assert(k >= 2) by {
            if k == 1 {
                assert(pow10(1) == 10 * pow10(0));
            }
        }
        assert(pow10(k) == 10 * pow10((k - 1) as nat));
        lemma_digits_len(n / 10, (k - 1) as nat);
    }
}

/// The text of a six-digit verification code with value `n`.
pub open spec fn code_text(n: nat) -> Seq<char> {
    pad_left(nat_digits(n), 6, '0')
}

/// A verification code has six ASCII digits.
pub proof fn law_code_text_is_six_digits(n: nat)
    requires
        n < 1_000_000,
    ensures
        code_text(n).len() == 6,
        all_digits(code_text(n)),
{
    reveal_with_fuel(pow10, 7);
    lemma_digits_len(n, 6);
    lemma_nat_digits(n);
    let d = nat_digits(n);
    let s = code_text(n);
    if d.len() < 6 {
        let z = Seq::new((6 - d.len()) as nat, |i: int| '0');
        assert(s == z + d);
        assert forall|i: int| 0 <= i < s.len() implies #[trigger] is_digit(s[i]) by {
            if i < z.len() {
                assert(s[i] == '0');
            } else {
                assert(s[i] == d[i - z.len()]);
            }
        }
    }
}

/// The dashes among the first `k` places of a hyphenated UUID.
spec fn dashes_before(k: int) -> int {
    (if k > 8 { 1int } else { 0int }) + (if k > 13 { 1int } else { 0int }) + (if k > 18 { 1int } else { 0int })
        + (if k > 23 { 1int } else { 0int })
}

proof fn lemma_uuid_prefix(u: Seq<char>, k: int)
    requires
        uuid_shape(u),
        0 <= k <= 36,
    ensures
        without_char(u.subrange(0, k), '-').len() == k - dashes_before(k),
        all_lower_hex(without_char(u.subrange(0, k), '-')),
    decreases k,
{
    if k > 0 {
        lemma_uuid_prefix(u, k - 1);
        let p = u.subrange(0, k);
        assert(p.drop_last() =~= u.subrange(0, k - 1));
        assert(uuid_char_ok(u, k - 1));
        let r = without_char(u.subrange(0, k - 1), '-');
        if p.last() != '-' {
            assert forall|i: int| 0 <= i < r.len() + 1 implies #[trigger] is_lower_hex(r.push(p.last())[i]) by {
                if i < r.len() {
                    assert(is_lower_hex(r[i]));
                }
            }
        }
    } else {
        assert(u.subrange(0, 0) =~= Seq::<char>::empty());
    }
}

/// With its dashes taken out, a hyphenated UUID is 32 lowercase hexadecimal digits.
pub proof fn law_uuid_without_dashes(u: Seq<char>)
    requires
        uuid_shape(u),
    ensures
        without_char(u, '-').len() == 32,
        all_lower_hex(without_char(u, '-')),
{
    lemma_uuid_prefix(u, 36);
    assert(u.subrange(0, 36) =~= u);
}

/// Hexadecimal text has two lowercase digits per byte.
pub proof fn law_hex_text(b: Seq<u8>)
    ensures
        hex_text(b).len() == 2 * b.len(),
        all_lower_hex(hex_text(b)),
    decreases b.len(),
{
    if b.len() > 0 {
        law_hex_text(b.drop_last());
        let r = hex_text(b.drop_last());
        let hi = (b.last() / 16) as nat;
        let lo = (b.last() % 16) as nat;
        assert(hex_digit(hi) as int == if hi < 10 { 48 + hi } else { 87 + hi });
        assert(hex_digit(lo) as int == if lo < 10 { 48 + lo } else { 87 + lo });
        let s = hex_text(b);
        assert forall|i: int| 0 <= i < s.len() implies #[trigger] is_lower_hex(s[i]) by {
            if i < r.len() {
                assert(s[i] == r[i]);
            }
        }
    }
}

/// `t` with every `c` taken out.
fn remove_char(t: &str, c: char) -> (s: String)
    ensures
        s@ == without_char(t@, c),
{
    let mut s = String::new();
    let n = t.unicode_len();
    let mut i: usize = 0;
    while i < n
        invariant
            n == t@.len(),
            i <= n,
            s@ == without_char(t@.subrange(0, i as int), c),
        decreases n - i,
    {
        let x = t.get_char(i);
        assert(t@.subrange(0, i + 1).drop_last() =~= t@.subrange(0, i as int));
        if x != c {
            push_char(&mut s, x);
        }
        i = i + 1;
    }
    assert(t@.subrange(0, n as int) =~= t@);
    s
}

/// A session token in the form of a random UUID, hyphenated and lowercase.
pub fn new_uuid_token() -> (s: String)
    ensures
        uuid_shape(s@),
{
    random_uuid_text()
}

/// The maker of random secrets.
pub struct Generator;

impl Generator {
    /// A verification code: six decimal digits, zero-padded, of a random number
    /// below a million.
    pub fn verification_code() -> (s: String)
        ensures
            exists|n: nat| n < 1_000_000 && s@ == code_text(n),
            s@.len() == 6,
            all_digits(s@),
    {
        let n = random_below_million();
        let s = u64_to_padded_text(n as u64, 6);
        proof {
            law_code_text_is_six_digits(n as nat);
        }
        s
    }

    /// A session token: a random UUID without its dashes, 32 lowercase
    /// hexadecimal digits.
    pub fn new_session_token() -> (s: String)
        ensures
            exists|u: Seq<char>| uuid_shape(u) && s@ == without_char(u, '-'),
            s@.len() == 32,
            all_lower_hex(s@),
    {
        let u = random_uuid_text();
        let s = remove_char(u.as_str(), '-');
        proof {
            law_uuid_without_dashes(u@);
        }
        s
    }

    /// An API token: eight random bytes in lowercase hexadecimal, 16 digits.
    pub fn api_token() -> (s: String)
        ensures
            exists|b: Seq<u8>| b.len() == 8 && s@ == hex_text(b),
            s@.len() == 16,
            all_lower_hex(s@),
    {
        let mut bytes: Vec<u8> = Vec::new();
        let mut k: usize = 0;
        while k < 8
            invariant
                k <= 8,
                bytes@.len() == k,
            decreases 8 - k,
        {
            bytes.push(random_byte());
            k = k + 1;
        }
        let s = hex_encode(bytes.as_slice());
        proof {
            law_hex_text(bytes@);
        }
        s
    }
}

} // verus!
