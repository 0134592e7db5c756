//! Byte-string helpers for the account service: ASCII case folding (the
//! game-account store keys usernames case-normalized to upper case),
//! alphanumeric filtering for usernames derived from email addresses, and
//! decimal rendering/parsing of account identity keys.
//!
//! Case folding and the alphanumeric filter are deliberately ASCII-only:
//! game-client credentials live in the ASCII range, and the legacy digest
//! must be reproduced byte for byte, so bytes outside `a..=z` pass through
//! every fold unchanged rather than following locale- or Unicode-dependent
//! rules.

use vstd::prelude::*;
use vstd::string::StrSliceExecFns;
use vstd::utf8::encode_utf8;
use vstd::utf8::is_ascii_chars;
use vstd::utf8::is_ascii_chars_encode_utf8;

verus! {

/// The UTF-8 bytes of a character string.
pub open spec fn str_bytes(s: Seq<char>) -> Seq<u8> {
    encode_utf8(s)
}

pub fn string_bytes(s: &String) -> (r: Vec<u8>)
    ensures
        r@ == str_bytes(s@),
{
    s.as_str().as_bytes_vec()
}

/// Whether a byte is an ASCII letter or digit.
pub open spec fn is_alnum_byte(b: u8) -> bool {
    (48 <= b && b <= 57) || (65 <= b && b <= 90) || (97 <= b && b <= 122)
}

/// Whether every byte of a string is an ASCII letter or digit.
pub open spec fn is_alnum_bytes(s: Seq<u8>) -> bool {
    forall|i: int| 0 <= i < s.len() ==> is_alnum_byte(#[trigger] s[i])
}

/// Whether a character is an ASCII letter or digit.
pub open spec fn is_alnum_char(c: char) -> bool {
    ('0' <= c && c <= '9') || ('A' <= c && c <= 'Z') || ('a' <= c && c <= 'z')
}

/// Whether every character of a string is an ASCII letter or digit.
pub open spec fn is_alnum_chars(s: Seq<char>) -> bool {
    forall|i: int| 0 <= i < s.len() ==> is_alnum_char(#[trigger] s[i])
}

/// Whether every byte of a string is ASCII.
pub open spec fn is_ascii_bytes(s: Seq<u8>) -> bool {
    forall|i: int| 0 <= i < s.len() ==> #[trigger] s[i] < 128
}

/// The characters that a string of ASCII bytes spells.
pub open spec fn ascii_chars(s: Seq<u8>) -> Seq<char> {
    s.map_values(|b: u8| b as char)
}

/// Relies on `String::from_utf8_lossy`: a string of ASCII bytes decodes to
/// exactly the characters those bytes spell.
#[verifier::external_body]
pub fn bytes_to_string(v: &Vec<u8>) -> (r: String)
    ensures
        is_ascii_bytes(v@) ==> r@ == ascii_chars(v@),
{
    String::from_utf8_lossy(v.as_slice()).into_owned()
}

/// ASCII upper-casing of one byte; bytes outside `a..=z` are unchanged.
pub open spec fn upper_byte(b: u8) -> u8 {
    if 97 <= b && b <= 122 {
        (b - 32) as u8
    } else {
        b
    }
}

/// ASCII upper-casing of a byte string.
pub open spec fn upper_bytes(s: Seq<u8>) -> Seq<u8> {
    s.map_values(|b: u8| upper_byte(b))
}

pub fn to_upper_bytes(v: &Vec<u8>) -> (r: Vec<u8>)
    ensures
        r@ == upper_bytes(v@),
{
    let mut r: Vec<u8> = Vec::new();
    let mut i: usize = 0;
    while i < v.len()
        invariant
            i <= v.len(),
            r@ == upper_bytes(v@.take(i as int)),
        decreases v.len() - i,
    {
        let b = v[i];
        if 97 <= b && b <= 122 {
            r.push(b - 32);
        } else {
            r.push(b);
        }
        i = i + 1;
        proof {
            assert(v@.take(i as int).drop_last() =~= v@.take(i - 1));
            assert(r@ =~= upper_bytes(v@.take(i as int)));
        }
    }
    proof {
        assert(v@.take(v@.len() as int) =~= v@);
    }
    r
}

/// Spelling ASCII bytes as characters and encoding them back yields the
/// original bytes.
pub proof fn lemma_ascii_bytes_roundtrip(b: Seq<u8>)
    requires
        is_ascii_bytes(b),
    ensures
        str_bytes(ascii_chars(b)) == b,
        is_ascii_chars(ascii_chars(b)),
{
    let chars = ascii_chars(b);
    assert forall|i: int| 0 <= i < chars.len() implies '\0' <= #[trigger] chars[i]
        <= '\u{7f}' by {
        assert(b[i] < 128);
    }
    assert(is_ascii_chars(chars));
    is_ascii_chars_encode_utf8(chars);
    assert(str_bytes(chars) =~= b);
}

/// Alphanumeric bytes are ASCII, and spell alphanumeric characters.
pub proof fn lemma_alnum_bytes_chars(b: Seq<u8>)
    requires
        is_alnum_bytes(b),
    ensures
        is_ascii_bytes(b),
        is_alnum_chars(ascii_chars(b)),
        ascii_chars(b).len() == b.len(),
{
    assert forall|i: int| 0 <= i < b.len() implies #[trigger] b[i] < 128 by {
        assert(is_alnum_byte(b[i]));
    }
    assert forall|i: int| 0 <= i < ascii_chars(b).len() implies is_alnum_char(
        #[trigger] ascii_chars(b)[i],
    ) by {
        assert(is_alnum_byte(b[i]));
    }
}

/// The subsequence of ASCII letters and digits, in order.
pub open spec fn alnum_only(s: Seq<u8>) -> Seq<u8> {
    s.filter(|b: u8| is_alnum_byte(b))
}

/// Folding the case of an alphanumeric string keeps it alphanumeric.
pub proof fn lemma_upper_alnum(s: Seq<u8>)
    requires
        is_alnum_bytes(s),
    ensures
        is_alnum_bytes(upper_bytes(s)),
{
    assert forall|i: int| 0 <= i < upper_bytes(s).len() implies is_alnum_byte(
        #[trigger] upper_bytes(s)[i],
    ) by {
        assert(is_alnum_byte(s[i]));
    }
}

pub fn filter_alnum(v: &Vec<u8>) -> (r: Vec<u8>)
    ensures
        r@ == alnum_only(v@),
        is_alnum_bytes(r@),
{
    let mut r: Vec<u8> = Vec::new();
    let mut i: usize = 0;
    while i < v.len()
        invariant
            i <= v.len(),
            r@ == alnum_only(v@.take(i as int)),
            is_alnum_bytes(r@),
        decreases v.len() - i,
    {
        let b = v[i];
        if (48 <= b && b <= 57) || (65 <= b && b <= 90) || (97 <= b && b <= 122) {
            r.push(b);
        }
        i = i + 1;
        proof {
            reveal(Seq::filter);
            assert(v@.take(i as int).drop_last() =~= v@.take(i - 1));
            assert(v@.take(i as int).last() == v@[i - 1]);
        }
    }
    proof {
        assert(v@.take(v@.len() as int) =~= v@);
    }
    r
}

/// The local part of an email address: everything before the first `@`, or
/// the whole string when there is none.
pub open spec fn local_part(s: Seq<u8>) -> Seq<u8>
    decreases s.len(),
{
    if s.len() == 0 {
        s
    } else if s[0] == 64 {
        Seq::empty()
    } else {
        seq![s[0]] + local_part(s.drop_first())
    }
}

proof fn lemma_local_part_prefix(s: Seq<u8>, j: int)
    requires
        0 <= j <= s.len(),
        forall|k: int| 0 <= k < j ==> s[k] != 64,
        j == s.len() || s[j] == 64,
    ensures
        local_part(s) == s.take(j),
    decreases j,
{
    if j == 0 {
        assert(s.take(0) =~= Seq::empty());
        if s.len() != 0 {
            assert(s[0] == 64);
        }
    } else {
        assert(s[0] != 64);
        lemma_local_part_prefix(s.drop_first(), j - 1);
        assert(s.take(j) =~= seq![s[0]] + s.drop_first().take(j - 1));
    }
}

pub fn email_local_part(v: &Vec<u8>) -> (r: Vec<u8>)
    ensures
        r@ == local_part(v@),
{
    let mut j: usize = 0;
    while j < v.len() && v[j] != 64
        invariant
            j <= v.len(),
            forall|k: int| 0 <= k < j ==> v@[k] != 64,
        decreases v.len() - j,
    {
        j = j + 1;
    }
    let mut r: Vec<u8> = Vec::new();
    let mut i: usize = 0;
    while i < j
        invariant
            i <= j <= v@.len(),
            r@ == v@.take(i as int),
        decreases j - i,
    {
        r.push(v[i]);
        proof {
            assert(v@.take(i + 1) =~= v@.take(i as int).push(v@[i as int]));
        }
        i = i + 1;
    }
    proof {
        lemma_local_part_prefix(v@, j as int);
    }
    r
}

/// The decimal digits of a number, most significant first.
pub open spec fn dec_bytes(n: nat) -> Seq<u8>
    decreases n,
{
    if n < 10 {
        seq![(48 + n) as u8]
    } else {
        dec_bytes(n / 10) + seq![(48 + (n % 10)) as u8]
    }
}

/// The decimal digits of a number, as characters.
pub open spec fn dec_chars(n: nat) -> Seq<char> {
    ascii_chars(dec_bytes(n))
}

pub proof fn lemma_dec_bytes_digits(n: nat)
    ensures
        forall|i: int| 0 <= i < dec_bytes(n).len() ==> 48 <= #[trigger] dec_bytes(n)[i] <= 57,
    decreases n,
{
    if n >= 10 {
        lemma_dec_bytes_digits(n / 10);
        assert forall|i: int| 0 <= i < dec_bytes(n).len() implies 48 <= #[trigger] dec_bytes(
            n,
        )[i] <= 57 by {
            if i < dec_bytes(n / 10).len() {
                assert(dec_bytes(n)[i] == dec_bytes(n / 10)[i]);
            } else {
                assert(dec_bytes(n)[i] == (48 + (n % 10)) as u8);
            }
        }
    }
}

pub fn u64_to_dec(n: u64) -> (r: Vec<u8>)
    ensures
        r@ == dec_bytes(n as nat),
    decreases n,
{
    let mut r: Vec<u8>;
    if n < 10 {
        r = Vec::new();
        r.push(48 + (n as u8));
    } else {
        r = u64_to_dec(n / 10);
        r.push(48 + ((n % 10) as u8));
    }
    proof {
        assert(r@ =~= dec_bytes(n as nat));
    }
    r
}

/// The digits of a number are worth that number.
pub proof fn lemma_dec_value_of_dec_bytes(n: nat)
    ensures
        dec_value(dec_bytes(n)) == n,
        dec_bytes(n).len() >= 1,
    decreases n,
{
    if n < 10 {
        let s = dec_bytes(n);
        assert(s.drop_last() =~= Seq::<u8>::empty());
        assert(dec_value(s.drop_last()) == 0);
        assert(s.last() == (48 + n) as u8);
    } else {
        lemma_dec_value_of_dec_bytes(n / 10);
        assert(dec_bytes(n).drop_last() =~= dec_bytes(n / 10));
        assert(dec_bytes(n).last() == (48 + (n % 10)) as u8);
        assert((48 + (n % 10)) as u8 == 48 + (n % 10));
        assert(dec_value(dec_bytes(n)) == dec_value(dec_bytes(n).drop_last()) * 10 + dec_bytes(
            n,
        ).last() - 48);
        assert(dec_value(dec_bytes(n)) == (n / 10) * 10 + n % 10);
        assert(n / 10 * 10 + n % 10 == n) by (nonlinear_arith);
    }
}

/// Parsing the rendered decimal digits of a number gives the number back.
pub proof fn lemma_parse_of_rendered(n: u64)
    ensures
        spec_parse_u64(str_bytes(dec_chars(n as nat))) == Some(n),
{
    let b = dec_bytes(n as nat);
    lemma_dec_bytes_digits(n as nat);
    assert forall|i: int| 0 <= i < b.len() implies #[trigger] b[i] < 128 by {
        assert(48 <= b[i] <= 57);
    }
    lemma_ascii_bytes_roundtrip(b);
    lemma_dec_value_of_dec_bytes(n as nat);
}

/// The value of a string of decimal digits.
pub open spec fn dec_value(s: Seq<u8>) -> int
    decreases s.len(),
{
    if s.len() == 0 {
        0
    } else {
        dec_value(s.drop_last()) * 10 + s.last() - 48
    }
}

/// Whether a string is one or more decimal digits.
pub open spec fn is_dec_digits(s: Seq<u8>) -> bool {
    s.len() > 0 && forall|i: int| 0 <= i < s.len() ==> 48 <= #[trigger] s[i] <= 57
}

/// What parsing a string as a decimal identity key yields: the value of its
/// digits, or nothing when the string is not all digits or does not fit.
pub open spec fn spec_parse_u64(s: Seq<u8>) -> Option<u64> {
    if is_dec_digits(s) && dec_value(s) <= u64::MAX {
        Some(dec_value(s) as u64)
    } else {
        None
    }
}

proof fn lemma_dec_value_nonneg(s: Seq<u8>)
    requires
        forall|i: int| 0 <= i < s.len() ==> 48 <= #[trigger] s[i] <= 57,
    ensures
        dec_value(s) >= 0,
    decreases s.len(),
{
    if s.len() > 0 {
        lemma_dec_value_nonneg(s.drop_last());
    }
}

proof fn lemma_dec_value_prefix_le(s: Seq<u8>, j: int)
    requires
        forall|i: int| 0 <= i < s.len() ==> 48 <= #[trigger] s[i] <= 57,
        0 <= j <= s.len(),
    ensures
        dec_value(s.take(j)) <= dec_value(s),
    decreases s.len() - j,
{
    if j < s.len() {
        lemma_dec_value_prefix_le(s, j + 1);
        let t = s.take(j + 1);
        assert(t.drop_last() =~= s.take(j));
        lemma_dec_value_nonneg(s.take(j));
        assert(dec_value(s.take(j)) <= dec_value(t));
    } else {
        assert(s.take(j) =~= s);
    }
}

pub fn parse_u64(v: &Vec<u8>) -> (r: Option<u64>)
    ensures
        r == spec_parse_u64(v@),
{
    if v.len() == 0 {
        return None;
    }
    let mut acc: u64 = 0;
    let mut i: usize = 0;
    while i < v.len()
        invariant
            0 <= i <= v@.len(),
            forall|k: int| 0 <= k < i ==> 48 <= #[trigger] v@[k] <= 57,
            acc == dec_value(v@.take(i as int)),
        decreases v.len() - i,
    {
        let b = v[i];
        if b < 48 || b > 57 {
            proof {
                assert(!is_dec_digits(v@));
            }
            return None;
        }
        let d = (b - 48) as u64;
        if acc > (u64::MAX - d) / 10 {
            proof {
                let t = v@.take(i + 1);
                assert(t.drop_last() =~= v@.take(i as int));
                assert(t.last() == v@[i as int]);
                assert(dec_value(t) == acc * 10 + d > u64::MAX) by {
                    assert(acc >= (u64::MAX - d) / 10 + 1);
                    assert(((u64::MAX - d) / 10 + 1) * 10 == (u64::MAX - d) / 10 * 10 + 10);
                    assert((u64::MAX - d) / 10 * 10 + 10 > u64::MAX - d) by (nonlinear_arith);
                    assert(acc * 10 >= ((u64::MAX - d) / 10 + 1) * 10) by (nonlinear_arith)
                        requires
                            acc >= (u64::MAX - d) / 10 + 1,
                    ;
                }
                if is_dec_digits(v@) {
                    lemma_dec_value_prefix_le(v@, i + 1);
                }
            }
            return None;
        }
        proof {
            let t = v@.take(i + 1);
            assert(t.drop_last() =~= v@.take(i as int));
            assert(t.last() == v@[i as int]);
            assert(acc * 10 + d <= u64::MAX) by {
                assert(acc <= (u64::MAX - d) / 10);
                assert(acc * 10 <= (u64::MAX - d) / 10 * 10) by (nonlinear_arith)
                    requires
                        acc <= (u64::MAX - d) / 10,
                ;
                assert((u64::MAX - d) / 10 * 10 <= u64::MAX - d) by (nonlinear_arith);
            }
        }
        acc = acc * 10 + d;
        i = i + 1;
    }
    proof {
        assert(v@.take(v@.len() as int) =~= v@);
        lemma_dec_value_nonneg(v@);
    }
    Some(acc)
}

pub fn concat_bytes(a: &Vec<u8>, b: &Vec<u8>) -> (r: Vec<u8>)
    ensures
        r@ == a@ + b@,
{
    let mut r: Vec<u8> = Vec::new();
    let mut i: usize = 0;
    while i < a.len()
        invariant
            i <= a.len(),
            r@ == a@.take(i as int),
        decreases a.len() - i,
    {
        r.push(a[i]);
        proof {
            assert(a@.take(i + 1) =~= a@.take(i as int).push(a@[i as int]));
        }
        i = i + 1;
    }
    proof {
        assert(a@.take(a@.len() as int) =~= a@);
    }
    let mut j: usize = 0;
    while j < b.len()
        invariant
            j <= b.len(),
            r@ == a@ + b@.take(j as int),
        decreases b.len() - j,
    {
        r.push(b[j]);
        proof {
            assert(a@ + b@.take(j + 1) =~= (a@ + b@.take(j as int)).push(b@[j as int]));
        }
        j = j + 1;
    }
    proof {
        assert(a@ + b@.take(b@.len() as int) =~= a@ + b@);
    }
    r
}

pub fn bytes_eq(a: &Vec<u8>, b: &Vec<u8>) -> (r: bool)
    ensures
        r == (a@ == b@),
{
    if a.len() != b.len() {
        return false;
    }
    let mut i: usize = 0;
    while i < a.len()
        invariant
            i <= a.len(),
            a@.len() == b@.len(),
            forall|j: int| 0 <= j < i ==> a@[j] == b@[j],
        decreases a.len() - i,
    {
        if a[i] != b[i] {
            return false;
        }
        i = i + 1;
    }
    proof {
        assert(a@ =~= b@);
    }
    true
}

} // verus!
