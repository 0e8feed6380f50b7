//! Verified text construction: decimal renderings of integers, lower-case
//! hex encoding of bytes, and the fixed decimal rendering of the per-mille
//! network-quality value. Every outbound body and canonical message is
//! assembled from these, so their contracts pin the exact character
//! sequences produced.

use vstd::prelude::*;
use vstd::string::StringExecFns;
use vstd::string::StrSliceExecFns;

verus! {

/// Whether `p` occurs in `h` starting at position `i`.
pub open spec fn spec_match_at(h: Seq<char>, p: Seq<char>, i: int) -> bool {
    0 <= i && i + p.len() <= h.len() && h.subrange(i, i + p.len()) == p
}

/// Whether `p` occurs anywhere in `h` as a contiguous run.
pub open spec fn spec_str_contains(h: Seq<char>, p: Seq<char>) -> bool {
    exists|i: int| #![trigger h.subrange(i, i + p.len())] spec_match_at(h, p, i)
}

/// Whether `h` begins with `p`.
pub open spec fn spec_starts_with(h: Seq<char>, p: Seq<char>) -> bool {
    spec_match_at(h, p, 0)
}

/// Character-exact string equality.
pub fn str_eq(a: &str, b: &str) -> (r: bool)
    ensures
        r == (a@ == b@),
{
    let alen = a.unicode_len();
    let blen = b.unicode_len();
    if alen != blen {
        proof {
            if a@ == b@ {
                assert(a@.len() == b@.len());
            }
        }
        return false;
    }
    let mut i: usize = 0;
    while i < alen
        invariant
            alen == a@.len(),
            blen == b@.len(),
            alen == blen,
            i <= alen,
            forall|j: int| 0 <= j < i ==> a@[j] == b@[j],
        decreases alen - i,
    {
        if a.get_char(i) != b.get_char(i) {
            proof {
                if a@ == b@ {
                    assert(a@[i as int] == b@[i as int]);
                }
            }
            return false;
        }
        i = i + 1;
    }
    proof {
        assert(a@ =~= b@);
    }
    true
}

/// Whether `p` occurs in `h` at position `at`.
fn str_match_at(h: &str, p: &str, at: usize, hlen: usize, plen: usize) -> (r: bool)
    requires
        hlen == h@.len(),
        plen == p@.len(),
        at + plen <= hlen,
    ensures
        r == spec_match_at(h@, p@, at as int),
{
    let mut j: usize = 0;
    while j < plen
        invariant
            hlen == h@.len(),
            plen == p@.len(),
            at + plen <= hlen,
            j <= plen,
            forall|k: int| 0 <= k < j ==> h@[at + k] == p@[k],
        decreases plen - j,
    {
        if h.get_char(at + j) != p.get_char(j) {
            proof {
                if spec_match_at(h@, p@, at as int) {
                    assert(h@.subrange(at as int, at + p@.len())[j as int] == p@[j as int]);
                }
            }
            return false;
        }
        j = j + 1;
    }
    proof {
        assert(h@.subrange(at as int, at + p@.len()) =~= p@);
    }
    true
}

/// Substring search; finds `p` as a contiguous run of characters in `h`.
pub fn str_contains(h: &str, p: &str) -> (r: bool)
    ensures
        r == spec_str_contains(h@, p@),
{
    let hlen = h.unicode_len();
    let plen = p.unicode_len();
    if plen > hlen {
        proof {
            assert(!spec_str_contains(h@, p@)) by {
                if spec_str_contains(h@, p@) {
                    let i = choose|i: int|
                        #![trigger h@.subrange(i, i + p@.len())]
                        spec_match_at(h@, p@, i);
                    assert(i + p@.len() <= h@.len());
                }
            }
        }
        return false;
    }
    if plen == 0 {
        proof {
            assert(h@.subrange(0, 0) =~= p@);
            assert(spec_match_at(h@, p@, 0));
        }
        return true;
    }
    let mut i: usize = 0;
    while i <= hlen - plen
        invariant
            hlen == h@.len(),
            plen == p@.len(),
            1 <= plen <= hlen,
            i <= hlen - plen + 1,
            forall|k: int|
                #![trigger h@.subrange(k, k + p@.len())]
                0 <= k < i ==> !spec_match_at(h@, p@, k),
        decreases hlen - plen - i + 1,
    {
        if str_match_at(h, p, i, hlen, plen) {
            proof {
                assert(spec_str_contains(h@, p@)) by {
                    assert(spec_match_at(h@, p@, i as int));
                    assert(h@.subrange(i as int, i + p@.len()) == p@);
                }
            }
            return true;
        }
        i = i + 1;
    }
    proof {
        assert(!spec_str_contains(h@, p@)) by {
            if spec_str_contains(h@, p@) {
                let k = choose|k: int|
                    #![trigger h@.subrange(k, k + p@.len())]
                    spec_match_at(h@, p@, k);
                assert(!spec_match_at(h@, p@, k));
            }
        }
    }
    false
}

/// Prefix test; whether `h` begins with `p`.
pub fn str_starts_with(h: &str, p: &str) -> (r: bool)
    ensures
        r == spec_starts_with(h@, p@),
{
    let hlen = h.unicode_len();
    let plen = p.unicode_len();
    if plen > hlen {
        return false;
    }
    str_match_at(h, p, 0, hlen, plen)
}

/// Whether no character of `s` is `c`.
pub open spec fn seq_free_of(s: Seq<char>, c: char) -> bool {
    forall|i: int| 0 <= i < s.len() ==> #[trigger] s[i] != c
}

/// Splitting at a separator is unambiguous: where neither left part
/// contains the separator, equal joined strings have equal parts.
pub proof fn lemma_sep_split(
    sep: char,
    x1: Seq<char>,
    y1: Seq<char>,
    x2: Seq<char>,
    y2: Seq<char>,
)
    requires
        seq_free_of(x1, sep),
        seq_free_of(x2, sep),
        x1 + seq![sep] + y1 == x2 + seq![sep] + y2,
    ensures
        x1 == x2,
        y1 == y2,
{
    let c = x1 + seq![sep] + y1;
    assert(c.len() == x1.len() + 1 + y1.len());
    assert((x2 + seq![sep] + y2).len() == x2.len() + 1 + y2.len());
    if x1.len() < x2.len() {
        assert(c[x1.len() as int] == sep);
        assert(c[x1.len() as int] == x2[x1.len() as int]);
        assert(false);
    }
    if x2.len() < x1.len() {
        assert(c[x2.len() as int] == sep);
        assert(c[x2.len() as int] == x1[x2.len() as int]);
        assert(false);
    }
    assert forall|i: int| 0 <= i < x1.len() implies x1[i] == x2[i] by {
        assert((x1 + seq![sep] + y1)[i] == x1[i]);
        assert((x2 + seq![sep] + y2)[i] == x2[i]);
    }
    assert(x1 =~= x2);
    assert forall|i: int| 0 <= i < y1.len() implies y1[i] == y2[i] by {
        assert((x1 + seq![sep] + y1)[x1.len() + 1 + i] == y1[i]);
        assert((x2 + seq![sep] + y2)[x2.len() + 1 + i] == y2[i]);
    }
    assert(y1 =~= y2);
}

/// Equal strings with an equal prefix have equal remainders.
pub proof fn lemma_prefix_strip(p: Seq<char>, a: Seq<char>, b: Seq<char>)
    requires
        p + a == p + b,
    ensures
        a == b,
{
    assert((p + a).len() == p.len() + a.len());
    assert((p + b).len() == p.len() + b.len());
    assert forall|i: int| 0 <= i < a.len() implies a[i] == b[i] by {
        assert((p + a)[p.len() + i] == a[i]);
        assert((p + b)[p.len() + i] == b[i]);
    }
    assert(a =~= b);
}

/// Equal strings with an equal suffix have equal stems.
pub proof fn lemma_suffix_strip(a: Seq<char>, b: Seq<char>, s: Seq<char>)
    requires
        a + s == b + s,
    ensures
        a == b,
{
    assert((a + s).len() == a.len() + s.len());
    assert((b + s).len() == b.len() + s.len());
    assert forall|i: int| 0 <= i < a.len() implies a[i] == b[i] by {
        assert((a + s)[i] == a[i]);
        assert((b + s)[i] == b[i]);
    }
    assert(a =~= b);
}

/// Concatenation keeps freedom from a character.
pub proof fn lemma_concat_free_of(a: Seq<char>, b: Seq<char>, c: char)
    requires
        seq_free_of(a, c),
        seq_free_of(b, c),
    ensures
        seq_free_of(a + b, c),
{
    assert((a + b).len() == a.len() + b.len());
    assert forall|i: int| 0 <= i < (a + b).len() implies #[trigger] (a + b)[i] != c by {
        if i < a.len() {
            assert((a + b)[i] == a[i]);
        } else {
            assert((a + b)[i] == b[i - a.len()]);
        }
    }
}

/// Every character of a decimal rendering is a digit.
pub proof fn lemma_dec_u64_chars(n: nat)
    ensures
        forall|i: int|
            0 <= i < spec_dec_u64(n).len() ==> '0' <= #[trigger] spec_dec_u64(n)[i] <= '9',
    decreases n,
{
    if n >= 10 {
        lemma_dec_u64_chars(n / 10);
        assert(forall|i: int|
            0 <= i < spec_dec_u64(n).len() - 1 ==> #[trigger] spec_dec_u64(n)[i] == spec_dec_u64(
                n / 10,
            )[i]);
    }
}

/// A decimal rendering is never empty, and it has one digit exactly
/// for values below ten.
pub proof fn lemma_dec_u64_len(n: nat)
    ensures
        spec_dec_u64(n).len() >= 1,
        n < 10 <==> spec_dec_u64(n).len() == 1,
    decreases n,
{
    if n >= 10 {
        lemma_dec_u64_len(n / 10);
    }
}

/// Distinct values have distinct decimal renderings.
pub proof fn lemma_dec_u64_injective(a: nat, b: nat)
    requires
        spec_dec_u64(a) == spec_dec_u64(b),
    ensures
        a == b,
    decreases a,
{
    lemma_dec_u64_len(a);
    lemma_dec_u64_len(b);
    if a < 10 && b < 10 {
        assert(spec_dec_u64(a)[0] == spec_digit(a));
        assert(spec_dec_u64(b)[0] == spec_digit(b));
    } else if a >= 10 && b >= 10 {
        lemma_dec_u64_len(a / 10);
        lemma_dec_u64_len(b / 10);
        assert(spec_dec_u64(a).last() == spec_digit(a % 10));
        assert(spec_dec_u64(b).last() == spec_digit(b % 10));
        assert(spec_dec_u64(a).drop_last() =~= spec_dec_u64(a / 10));
        assert(spec_dec_u64(b).drop_last() =~= spec_dec_u64(b / 10));
        lemma_dec_u64_injective(a / 10, b / 10);
        assert(a % 10 == b % 10);
        assert(a == 10 * (a / 10) + a % 10);
        assert(b == 10 * (b / 10) + b % 10);
    }
}

/// The first character tells a sign: a signed rendering starts with
/// the minus sign exactly for negative values, else with a digit.
pub proof fn lemma_dec_i64_sign(n: int)
    ensures
        spec_dec_i64(n).len() >= 1,
        n < 0 <==> spec_dec_i64(n)[0] == '-',
{
    if n >= 0 {
        lemma_dec_u64_len(n as nat);
        lemma_dec_u64_chars(n as nat);
        assert('0' <= spec_dec_i64(n)[0] <= '9');
    } else {
        lemma_dec_u64_len((-n) as nat);
    }
}

/// Distinct signed values have distinct renderings.
pub proof fn lemma_dec_i64_injective(a: int, b: int)
    requires
        spec_dec_i64(a) == spec_dec_i64(b),
    ensures
        a == b,
{
    lemma_dec_i64_sign(a);
    lemma_dec_i64_sign(b);
    if a >= 0 && b >= 0 {
        lemma_dec_u64_injective(a as nat, b as nat);
    } else if a < 0 && b < 0 {
        assert(spec_dec_u64((-a) as nat) =~= spec_dec_i64(a).drop_first());
        assert(spec_dec_u64((-b) as nat) =~= spec_dec_i64(b).drop_first());
        lemma_dec_u64_injective((-a) as nat, (-b) as nat);
    }
}

/// No decimal rendering contains `c` unless `c` is a digit or, for a
/// negative value, the minus sign.
pub proof fn lemma_dec_i64_free_of(n: int, c: char)
    requires
        c != '-',
        !('0' <= c <= '9'),
    ensures
        seq_free_of(spec_dec_i64(n), c),
{
    if n >= 0 {
        lemma_dec_u64_chars(n as nat);
    } else {
        lemma_dec_u64_chars((-n) as nat);
    }
}

/// No unsigned decimal rendering contains a non-digit.
pub proof fn lemma_dec_u64_free_of(n: nat, c: char)
    requires
        !('0' <= c <= '9'),
    ensures
        seq_free_of(spec_dec_u64(n), c),
{
    lemma_dec_u64_chars(n);
}

/// Every character of a quality rendering is a digit or the point.
pub proof fn lemma_quality_chars(q: nat)
    ensures
        forall|i: int|
            0 <= i < spec_quality_str(q).len() ==> ('0' <= #[trigger] spec_quality_str(q)[i]
                <= '9' || spec_quality_str(q)[i] == '.'),
{
    lemma_dec_u64_chars(q / 1000);
    lemma_dec_u64_len(q / 1000);
}

/// Distinct quality values have distinct renderings.
pub proof fn lemma_quality_injective(q1: nat, q2: nat)
    requires
        spec_quality_str(q1) == spec_quality_str(q2),
    ensures
        q1 == q2,
{
    lemma_dec_u64_chars(q1 / 1000);
    lemma_dec_u64_chars(q2 / 1000);
    lemma_dec_u64_len(q1 / 1000);
    lemma_dec_u64_len(q2 / 1000);
    // Split each rendering at the point: the integer parts carry no
    // point, so they coincide, and so do the fraction digits.
    let f1 = quality_frac_digits(q1);
    let f2 = quality_frac_digits(q2);
    assert(spec_quality_str(q1) =~= spec_dec_u64(q1 / 1000) + seq!['.'] + f1);
    assert(spec_quality_str(q2) =~= spec_dec_u64(q2 / 1000) + seq!['.'] + f2);
    lemma_sep_split('.', spec_dec_u64(q1 / 1000), f1, spec_dec_u64(q2 / 1000), f2);
    lemma_dec_u64_injective(q1 / 1000, q2 / 1000);
    lemma_quality_frac_injective(q1, q2);
    assert(q1 == 1000 * (q1 / 1000) + q1 % 1000);
    assert(q2 == 1000 * (q2 / 1000) + q2 % 1000);
}

/// The fraction digits of a quality rendering, after the point.
pub open spec fn quality_frac_digits(q: nat) -> Seq<char> {
    let frac = q % 1000;
    let d1 = frac / 100;
    let d2 = (frac / 10) % 10;
    let d3 = frac % 10;
    if frac == 0 {
        seq!['0']
    } else if d3 != 0 {
        seq![spec_digit(d1), spec_digit(d2), spec_digit(d3)]
    } else if d2 != 0 {
        seq![spec_digit(d1), spec_digit(d2)]
    } else {
        seq![spec_digit(d1)]
    }
}

proof fn lemma_quality_frac_injective(q1: nat, q2: nat)
    requires
        quality_frac_digits(q1) == quality_frac_digits(q2),
    ensures
        q1 % 1000 == q2 % 1000,
{
    let frac1 = q1 % 1000;
    let frac2 = q2 % 1000;
    assert(frac1 == 100 * (frac1 / 100) + 10 * ((frac1 / 10) % 10) + frac1 % 10);
    assert(frac2 == 100 * (frac2 / 100) + 10 * ((frac2 / 10) % 10) + frac2 % 10);
    let s1 = quality_frac_digits(q1);
    let s2 = quality_frac_digits(q2);
    if s1.len() == 3 {
        assert(s1[0] == s2[0] && s1[1] == s2[1] && s1[2] == s2[2]);
    } else if s1.len() == 2 {
        assert(s1[0] == s2[0] && s1[1] == s2[1]);
    } else {
        assert(s1[0] == s2[0]);
    }
}

/// Whether a string can stand inside a JSON string literal unescaped:
/// no quote, no backslash, no control character.
pub open spec fn spec_json_plain(s: Seq<char>) -> bool {
    forall|i: int| 0 <= i < s.len() ==> #[trigger] s[i] != '"' && s[i] != '\\' && s[i] as int >= 32
}

/// Tests whether a string needs no JSON escaping.
pub fn is_json_plain(s: &str) -> (r: bool)
    ensures
        r == spec_json_plain(s@),
{
    let len = s.unicode_len();
    let mut i: usize = 0;
    while i < len
        invariant
            len == s@.len(),
            i <= len,
            forall|j: int| 0 <= j < i ==> #[trigger] s@[j] != '"' && s@[j] != '\\' && s@[j] as int >= 32,
        decreases len - i,
    {
        let c = s.get_char(i);
        if c == '"' || c == '\\' || (c as u32) < 32 {
            return false;
        }
        i = i + 1;
    }
    true
}

/// Appends the bytes of `src` to `dst`.
pub fn append_bytes(dst: &mut Vec<u8>, src: &[u8])
    ensures
        final(dst)@ == old(dst)@ + src@,
{
    let mut i: usize = 0;
    while i < src.len()
        invariant
            i <= src@.len(),
            dst@ == old(dst)@ + src@.take(i as int),
        decreases src@.len() - i,
    {
        dst.push(src[i]);
        proof {
            assert(old(dst)@ + src@.take(i + 1) =~= (old(dst)@ + src@.take(i as int)).push(
                src@[i as int],
            ));
        }
        i = i + 1;
    }
    proof {
        assert(src@.take(src@.len() as int) =~= src@);
        assert(dst@ =~= old(dst)@ + src@);
    }
}

/// The decimal digit character for `d` (only meaningful below ten).
pub open spec fn spec_digit(d: nat) -> char {
    if d == 0 {
        '0'
    } else if d == 1 {
        '1'
    } else if d == 2 {
        '2'
    } else if d == 3 {
        '3'
    } else if d == 4 {
        '4'
    } else if d == 5 {
        '5'
    } else if d == 6 {
        '6'
    } else if d == 7 {
        '7'
    } else if d == 8 {
        '8'
    } else {
        '9'
    }
}

/// The usual decimal rendering of `n`, without sign or padding.
pub open spec fn spec_dec_u64(n: nat) -> Seq<char>
    decreases n,
{
    if n < 10 {
        seq![spec_digit(n)]
    } else {
        spec_dec_u64(n / 10) + seq![spec_digit(n % 10)]
    }
}

/// The decimal rendering of a signed value: a minus sign for negatives,
/// then the rendering of the magnitude.
pub open spec fn spec_dec_i64(n: int) -> Seq<char> {
    if n >= 0 {
        spec_dec_u64(n as nat)
    } else {
        seq!['-'] + spec_dec_u64((-n) as nat)
    }
}

/// Appends the digit character for `d` to `s`.
fn push_digit(s: &mut String, d: u64)
    requires
        d < 10,
    ensures
        final(s)@ == old(s)@ + seq![spec_digit(d as nat)],
{
    proof {
        reveal_strlit("0");
        reveal_strlit("1");
        reveal_strlit("2");
        reveal_strlit("3");
        reveal_strlit("4");
        reveal_strlit("5");
        reveal_strlit("6");
        reveal_strlit("7");
        reveal_strlit("8");
        reveal_strlit("9");
    }
    match d {
        0 => s.append("0"),
        1 => s.append("1"),
        2 => s.append("2"),
        3 => s.append("3"),
        4 => s.append("4"),
        5 => s.append("5"),
        6 => s.append("6"),
        7 => s.append("7"),
        8 => s.append("8"),
        _ => s.append("9"),
    }
    proof {
        assert(s@ =~= old(s)@ + seq![spec_digit(d as nat)]);
    }
}

/// Appends the decimal rendering of `n` to `s`.
pub fn push_u64(s: &mut String, n: u64)
    ensures
        final(s)@ == old(s)@ + spec_dec_u64(n as nat),
    decreases n,
{
    if n < 10 {
        push_digit(s, n);
    } else {
        push_u64(s, n / 10);
        push_digit(s, n % 10);
        proof {
            assert(s@ =~= old(s)@ + spec_dec_u64(n as nat));
        }
    }
}

/// The decimal rendering of `n` as a fresh string.
pub fn u64_to_string(n: u64) -> (r: String)
    ensures
        r@ == spec_dec_u64(n as nat),
{
    let mut s = String::new();
    push_u64(&mut s, n);
    proof {
        assert(s@ =~= spec_dec_u64(n as nat));
    }
    s
}

/// Appends the signed decimal rendering of `n` to `s`.
pub fn push_i64(s: &mut String, n: i64)
    ensures
        final(s)@ == old(s)@ + spec_dec_i64(n as int),
{
    if n >= 0 {
        push_u64(s, n as u64);
    } else {
        proof {
            reveal_strlit("-");
        }
        s.append("-");
        let mag: u64 = (-(n as i128)) as u64;
        push_u64(s, mag);
        proof {
            assert(s@ =~= old(s)@ + spec_dec_i64(n as int));
        }
    }
}

/// The signed decimal rendering of `n` as a fresh string.
pub fn i64_to_string(n: i64) -> (r: String)
    ensures
        r@ == spec_dec_i64(n as int),
{
    let mut s = String::new();
    push_i64(&mut s, n);
    proof {
        assert(s@ =~= spec_dec_i64(n as int));
    }
    s
}

/// The lower-case hex digit character for `d` (only meaningful below 16).
pub open spec fn spec_hex_digit(d: nat) -> char {
    if d < 10 {
        spec_digit(d)
    } else if d == 10 {
        'a'
    } else if d == 11 {
        'b'
    } else if d == 12 {
        'c'
    } else if d == 13 {
        'd'
    } else if d == 14 {
        'e'
    } else {
        'f'
    }
}

/// Lower-case hex encoding of a byte sequence, two digits per byte.
pub open spec fn spec_hex(bytes: Seq<u8>) -> Seq<char>
    decreases bytes.len(),
{
    if bytes.len() == 0 {
        Seq::empty()
    } else {
        seq![
            spec_hex_digit((bytes[0] / 16) as nat),
            spec_hex_digit((bytes[0] % 16) as nat),
        ] + spec_hex(bytes.drop_first())
    }
}

/// Appends the hex digit character for `d` to `s`.
fn push_hex_digit(s: &mut String, d: u64)
    requires
        d < 16,
    ensures
        final(s)@ == old(s)@ + seq![spec_hex_digit(d as nat)],
{
    if d < 10 {
        push_digit(s, d);
    } else {
        proof {
            reveal_strlit("a");
            reveal_strlit("b");
            reveal_strlit("c");
            reveal_strlit("d");
            reveal_strlit("e");
            reveal_strlit("f");
        }
        match d {
            10 => s.append("a"),
            11 => s.append("b"),
            12 => s.append("c"),
            13 => s.append("d"),
            14 => s.append("e"),
            _ => s.append("f"),
        }
        proof {
            assert(s@ =~= old(s)@ + seq![spec_hex_digit(d as nat)]);
        }
    }
}

/// The lower-case hex rendering of `bytes`, two digits per byte.
pub fn to_hex(bytes: &Vec<u8>) -> (r: String)
    ensures
        r@ == spec_hex(bytes@),
{
    let mut s = String::new();
    let mut i: usize = 0;
    proof {
        assert(bytes@.skip(0) =~= bytes@);
    }
    while i < bytes.len()
        invariant
            i <= bytes@.len(),
            spec_hex(bytes@) == s@ + spec_hex(bytes@.skip(i as int)),
        decreases bytes@.len() - i,
    {
        let b = bytes[i];
        push_hex_digit(&mut s, (b / 16) as u64);
        push_hex_digit(&mut s, (b % 16) as u64);
        proof {
            assert(bytes@.skip(i as int).drop_first() =~= bytes@.skip(i as int + 1));
            assert(spec_hex(bytes@) =~= s@ + spec_hex(bytes@.skip(i as int + 1)));
        }
        i = i + 1;
    }
    proof {
        assert(spec_hex(bytes@.skip(bytes@.len() as int)) =~= Seq::<char>::empty());
        assert(s@ =~= spec_hex(bytes@));
    }
    s
}

/// The wire rendering of a per-mille quality value as a decimal fraction:
/// integer part, a point, then the thousandths with trailing zeros
/// trimmed, always keeping at least one fraction digit. A whole number
/// is thus rendered with a single trailing zero digit.
pub open spec fn spec_quality_str(q: nat) -> Seq<char> {
    let frac = q % 1000;
    let d1 = frac / 100;
    let d2 = (frac / 10) % 10;
    let d3 = frac % 10;
    if frac == 0 {
        spec_dec_u64(q / 1000) + seq!['.', '0']
    } else if d3 != 0 {
        spec_dec_u64(q / 1000) + seq!['.', spec_digit(d1), spec_digit(d2), spec_digit(d3)]
    } else if d2 != 0 {
        spec_dec_u64(q / 1000) + seq!['.', spec_digit(d1), spec_digit(d2)]
    } else {
        spec_dec_u64(q / 1000) + seq!['.', spec_digit(d1)]
    }
}

/// Appends the decimal-fraction rendering of the per-mille value `q`.
pub fn push_quality(s: &mut String, q: u64)
    ensures
        final(s)@ == old(s)@ + spec_quality_str(q as nat),
{
    push_u64(s, q / 1000);
    proof {
        reveal_strlit(".");
    }
    s.append(".");
    let frac = q % 1000;
    if frac == 0 {
        push_digit(s, 0);
    } else {
        let d1 = frac / 100;
        let d2 = (frac / 10) % 10;
        let d3 = frac % 10;
        if d3 != 0 {
            push_digit(s, d1);
            push_digit(s, d2);
            push_digit(s, d3);
        } else if d2 != 0 {
            push_digit(s, d1);
            push_digit(s, d2);
        } else {
            push_digit(s, d1);
        }
    }
    proof {
        assert(s@ =~= old(s)@ + spec_quality_str(q as nat));
    }
}

} // verus!
