//! Verified text utilities shared by the error taxonomy and the value
//! layer: substring search over host strings, and formatting of 64-bit
//! magnitudes in an arbitrary radix from 2 to 36 (lowercase digits,
//! no leading zeros, a leading `-` for negative values).

use vstd::prelude::*;
use vstd::arithmetic::div_mod::lemma_div_is_strictly_smaller;
use vstd::arithmetic::div_mod::lemma_fundamental_div_mod;

verus! {

/// `needle` occurs contiguously somewhere inside `haystack`.
pub open spec fn spec_contains(haystack: Seq<char>, needle: Seq<char>) -> bool {
    exists|i: int|
        0 <= i && i + needle.len() <= haystack.len() && #[trigger] haystack.subrange(
            i,
            i + needle.len() as int,
        ) == needle
}

/// Whether `needle` matches `haystack` starting at position `at`.
fn match_at(haystack: &str, needle: &str, at: usize) -> (r: bool)
    requires
        at + needle@.len() <= haystack@.len(),
    ensures
        r == (haystack@.subrange(at as int, at as int + needle@.len() as int) == needle@),
{
    let h_len = haystack.unicode_len();
    let n_len = needle.unicode_len();
    let mut j: usize = 0;
    while j < n_len
        invariant
            at + n_len <= h_len,
            h_len == haystack@.len(),
            n_len == needle@.len(),
            j <= n_len,
            forall|k: int| 0 <= k < j ==> haystack@[at + k] == needle@[k],
        decreases n_len - j,
    {
        if haystack.get_char(at + j) != needle.get_char(j) {
            proof {
                let sub = haystack@.subrange(at as int, at as int + needle@.len() as int);
                assert(sub[j as int] == haystack@[at + j]);
            }
            return false;
        }
        j += 1;
    }
    proof {
        assert(haystack@.subrange(at as int, at as int + needle@.len() as int) =~= needle@);
    }
    true
}

/// Substring search: does `haystack` contain `needle`?
pub fn str_contains(haystack: &str, needle: &str) -> (r: bool)
    ensures
        r == spec_contains(haystack@, needle@),
{
    let h_len = haystack.unicode_len();
    let n_len = needle.unicode_len();
    if n_len > h_len {
        return false;
    }
    if n_len == 0 {
        proof {
            assert(haystack@.subrange(0, 0 + needle@.len() as int) =~= needle@);
        }
        return true;
    }
    let mut i: usize = 0;
    while i <= h_len - n_len
        invariant
            1 <= n_len <= h_len,
            h_len == haystack@.len(),
            n_len == needle@.len(),
            i <= h_len - n_len + 1,
            forall|k: int|
                0 <= k < i ==> #[trigger] haystack@.subrange(k, k + needle@.len() as int)
                    != needle@,
        decreases h_len - n_len - i + 1,
    {
        if match_at(haystack, needle, i) {
            assert(spec_contains(haystack@, needle@));
            return true;
        }
        i += 1;
    }
    false
}

/// The lowercase digit character for a value below 36.
pub open spec fn digit_char(d: int) -> char {
    if d == 0 { '0' } else if d == 1 { '1' } else if d == 2 { '2' } else if d == 3 { '3' }
    else if d == 4 { '4' } else if d == 5 { '5' } else if d == 6 { '6' } else if d == 7 { '7' }
    else if d == 8 { '8' } else if d == 9 { '9' } else if d == 10 { 'a' } else if d == 11 { 'b' }
    else if d == 12 { 'c' } else if d == 13 { 'd' } else if d == 14 { 'e' } else if d == 15 { 'f' }
    else if d == 16 { 'g' } else if d == 17 { 'h' } else if d == 18 { 'i' } else if d == 19 { 'j' }
    else if d == 20 { 'k' } else if d == 21 { 'l' } else if d == 22 { 'm' } else if d == 23 { 'n' }
    else if d == 24 { 'o' } else if d == 25 { 'p' } else if d == 26 { 'q' } else if d == 27 { 'r' }
    else if d == 28 { 's' } else if d == 29 { 't' } else if d == 30 { 'u' } else if d == 31 { 'v' }
    else if d == 32 { 'w' } else if d == 33 { 'x' } else if d == 34 { 'y' } else { 'z' }
}

/// One-character string slice for a digit value below 36.
fn digit_str(d: u64) -> (r: &'static str)
    requires
        d < 36,
    ensures
        r@ == seq![digit_char(d as int)],
{
    let out: &'static str = match d {
        0 => "0", 1 => "1", 2 => "2", 3 => "3", 4 => "4", 5 => "5", 6 => "6", 7 => "7",
        8 => "8", 9 => "9", 10 => "a", 11 => "b", 12 => "c", 13 => "d", 14 => "e", 15 => "f",
        16 => "g", 17 => "h", 18 => "i", 19 => "j", 20 => "k", 21 => "l", 22 => "m", 23 => "n",
        24 => "o", 25 => "p", 26 => "q", 27 => "r", 28 => "s", 29 => "t", 30 => "u", 31 => "v",
        32 => "w", 33 => "x", 34 => "y", _ => "z",
    };
    proof {
        reveal_strlit("0"); reveal_strlit("1"); reveal_strlit("2"); reveal_strlit("3");
        reveal_strlit("4"); reveal_strlit("5"); reveal_strlit("6"); reveal_strlit("7");
        reveal_strlit("8"); reveal_strlit("9"); reveal_strlit("a"); reveal_strlit("b");
        reveal_strlit("c"); reveal_strlit("d"); reveal_strlit("e"); reveal_strlit("f");
        reveal_strlit("g"); reveal_strlit("h"); reveal_strlit("i"); reveal_strlit("j");
        reveal_strlit("k"); reveal_strlit("l"); reveal_strlit("m"); reveal_strlit("n");
        reveal_strlit("o"); reveal_strlit("p"); reveal_strlit("q"); reveal_strlit("r");
        reveal_strlit("s"); reveal_strlit("t"); reveal_strlit("u"); reveal_strlit("v");
        reveal_strlit("w"); reveal_strlit("x"); reveal_strlit("y"); reveal_strlit("z");
        assert(out@ =~= seq![digit_char(d as int)]);
    }
    out
}

/// The digits of `n` in base `radix`, most significant first; empty for 0.
pub open spec fn radix_digits(n: nat, radix: nat) -> Seq<char>
    recommends
        2 <= radix,
    decreases n,
    when radix >= 2
    via radix_digits_decreases
{
    if n == 0 {
        Seq::empty()
    } else {
        radix_digits(n / radix, radix).push(digit_char((n % radix) as int))
    }
}

#[via_fn]
proof fn radix_digits_decreases(n: nat, radix: nat) {
    if n > 0 {
        lemma_div_is_strictly_smaller(n as int, radix as int);
    }
}

/// The canonical string for a signed magnitude in base `radix`:
/// `"0"` for zero, otherwise the digits with a `-` prefix when negative.
pub open spec fn spec_radix_string(negative: bool, magnitude: nat, radix: nat) -> Seq<char> {
    if magnitude == 0 {
        seq!['0']
    } else if negative {
        seq!['-'] + radix_digits(magnitude, radix)
    } else {
        radix_digits(magnitude, radix)
    }
}

/// A positive magnitude yields at least one digit, and the leading digit
/// is neither `'0'` nor `'-'`.
proof fn lemma_radix_digits_leading(n: nat, radix: nat)
    requires
        n > 0,
        2 <= radix <= 36,
    ensures
        radix_digits(n, radix).len() > 0,
        radix_digits(n, radix)[0] != '0',
        radix_digits(n, radix)[0] != '-',
    decreases n,
{
    let q = n / radix;
    lemma_div_is_strictly_smaller(n as int, radix as int);
    if q > 0 {
        lemma_radix_digits_leading(q, radix);
        assert(radix_digits(n, radix)[0] == radix_digits(q, radix)[0]);
    } else {
        lemma_fundamental_div_mod(n as int, radix as int);
        assert(n % radix == n);
        assert(radix_digits(q, radix) =~= Seq::<char>::empty());
        assert(radix_digits(n, radix)[0] == digit_char(n as int));
        assert(1 <= n < 36);
        assert(digit_char(n as int) != '0');
        assert(digit_char(n as int) != '-');
    }
}

/// The radix string is canonical: never empty, `"0"` exactly for a zero
/// magnitude, a leading `-` exactly when a nonzero value is negative,
/// and no leading zero digit.
pub proof fn lemma_radix_string_canonical(negative: bool, magnitude: nat, radix: nat)
    requires
        2 <= radix <= 36,
    ensures
        spec_radix_string(negative, magnitude, radix).len() > 0,
        magnitude == 0 ==> spec_radix_string(negative, magnitude, radix) == seq!['0'],
        magnitude > 0 ==> ((spec_radix_string(negative, magnitude, radix)[0] == '-') == negative),
        magnitude > 0 && !negative ==> spec_radix_string(negative, magnitude, radix)[0] != '0',
        magnitude > 0 && negative ==> spec_radix_string(negative, magnitude, radix)[1] != '0',
{
    if magnitude > 0 {
        lemma_radix_digits_leading(magnitude, radix);
        if negative {
            let s = seq!['-'] + radix_digits(magnitude, radix);
            assert(s[0] == '-');
            assert(s[1] == radix_digits(magnitude, radix)[0]);
        }
    }
}

/// The digit characters of a digit-value sequence, reversed.
spec fn rev_digit_chars(ds: Seq<u64>) -> Seq<char> {
    Seq::new(ds.len(), |i: int| digit_char(ds[ds.len() - 1 - i] as int))
}

/// Format a sign-and-magnitude 64-bit value in the given radix.
pub fn format_radix(negative: bool, magnitude: u64, radix: u32) -> (s: String)
    requires
        2 <= radix <= 36,
    ensures
        s@ == spec_radix_string(negative, magnitude as nat, radix as nat),
{
    let r = radix as u64;
    let mut rev: Vec<u64> = Vec::new();
    let mut n = magnitude;
    while n > 0
        invariant
            2 <= r <= 36,
            r == radix,
            radix_digits(magnitude as nat, r as nat) =~= radix_digits(n as nat, r as nat)
                + rev_digit_chars(rev@),
            forall|k: int| 0 <= k < rev@.len() ==> rev@[k] < 36,
        decreases n,
    {
        let d = n % r;
        let n2 = n / r;
        proof {
            lemma_div_is_strictly_smaller(n as int, r as int);
            let ds = rev@;
            assert(rev_digit_chars(ds.push(d)) =~= seq![digit_char(d as int)]
                + rev_digit_chars(ds));
            assert(radix_digits(n as nat, r as nat) == radix_digits(
                n2 as nat,
                r as nat,
            ).push(digit_char(d as int)));
            assert(radix_digits(n2 as nat, r as nat).push(digit_char(d as int))
                =~= radix_digits(n2 as nat, r as nat) + seq![digit_char(d as int)]);
            assert(radix_digits(n2 as nat, r as nat) + (seq![digit_char(d as int)]
                + rev_digit_chars(ds)) =~= (radix_digits(n2 as nat, r as nat) + seq![
                digit_char(d as int),
            ]) + rev_digit_chars(ds));
        }
        rev.push(d);
        n = n2;
    }
    let mut s = String::new();
    if magnitude == 0 {
        s.append("0");
        proof {
            reveal_strlit("0");
            assert(s@ =~= spec_radix_string(negative, magnitude as nat, radix as nat));
        }
        return s;
    }
    let ghost prefix: Seq<char> = if negative { seq!['-'] } else { Seq::empty() };
    if negative {
        s.append("-");
        proof {
            reveal_strlit("-");
            assert(s@ =~= prefix);
        }
    }
    let mut k = rev.len();
    while k > 0
        invariant
            k <= rev@.len(),
            forall|j: int| 0 <= j < rev@.len() ==> rev@[j] < 36,
            radix_digits(magnitude as nat, radix as nat) =~= rev_digit_chars(rev@),
            s@ =~= prefix + rev_digit_chars(rev@).subrange(0, rev@.len() - k),
        decreases k,
    {
        k -= 1;
        let d = rev[k];
        s.append(digit_str(d));
        proof {
            let chars = rev_digit_chars(rev@);
            assert(chars[rev@.len() - 1 - k] == digit_char(rev@[k as int] as int));
            assert(chars.subrange(0, rev@.len() - k) =~= chars.subrange(
                0,
                rev@.len() - k - 1,
            ).push(chars[rev@.len() - 1 - k]));
            assert(s@ =~= prefix + chars.subrange(0, rev@.len() - k));
        }
    }
    proof {
        assert(rev_digit_chars(rev@).subrange(0, rev@.len() as int) =~= rev_digit_chars(rev@));
        assert(s@ =~= spec_radix_string(negative, magnitude as nat, radix as nat));
    }
    s
}

} // verus!
