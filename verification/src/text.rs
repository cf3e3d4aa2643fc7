//! Verified character-level string utilities.
//!
//! Strings are modelled by their view, a `Seq<char>`; every function here is
//! specified against that view, walking strings one character at a time.

use vstd::prelude::*;
use vstd::string::StrSliceExecFns;
use vstd::string::StringExecFns;

verus! {

/// `p` is a prefix of `s`.
pub open spec fn spec_starts_with(s: Seq<char>, p: Seq<char>) -> bool {
    p.len() <= s.len() && s.subrange(0, p.len() as int) == p
}

/// `p` is a suffix of `s`.
pub open spec fn spec_ends_with(s: Seq<char>, p: Seq<char>) -> bool {
    p.len() <= s.len() && s.subrange(s.len() - p.len(), s.len() as int) == p
}

/// `n` occurs in `s` at position `i`.
pub open spec fn spec_match_at(s: Seq<char>, n: Seq<char>, i: int) -> bool {
    0 <= i && i + n.len() <= s.len() && s.subrange(i, i + n.len()) == n
}

/// `n` occurs somewhere in `s`.
pub open spec fn spec_contains(s: Seq<char>, n: Seq<char>) -> bool {
    exists|i: int| spec_match_at(s, n, i)
}

/// The number of characters in `s`.
pub fn str_chars_len(s: &str) -> (n: usize)
    ensures
        n == s@.len(),
{
    s.unicode_len()
}

/// Character-for-character string equality.
pub fn eq_str(a: &str, b: &str) -> (r: bool)
    ensures
        r == (a@ == b@),
{
    let na = a.unicode_len();
    let nb = b.unicode_len();
    if na != nb {
        return false;
    }
    let mut i: usize = 0;
    while i < na
        invariant
            i <= na,
            na == a@.len(),
            na == b@.len(),
            forall|k: int| 0 <= k < i ==> a@[k] == b@[k],
        decreases na - i,
    {
        if a.get_char(i) != b.get_char(i) {
            return false;
        }
        i += 1;
    }
    proof {
        assert(a@ =~= b@);
    }
    true
}

/// Whether `p` is a prefix of `s`.
pub fn starts_with(s: &str, p: &str) -> (r: bool)
    ensures
        r == spec_starts_with(s@, p@),
{
    let np = p.unicode_len();
    let ns = s.unicode_len();
    if np > ns {
        return false;
    }
    let mut i: usize = 0;
    while i < np
        invariant
            i <= np,
            np == p@.len(),
            ns == s@.len(),
            np <= ns,
            forall|k: int| 0 <= k < i ==> s@[k] == p@[k],
        decreases np - i,
    {
        if s.get_char(i) != p.get_char(i) {
            proof {
                assert(s@.subrange(0, np as int)[i as int] == s@[i as int]);
            }
            return false;
        }
        i += 1;
    }
    proof {
        assert(s@.subrange(0, np as int) =~= p@);
    }
    true
}

/// Whether `p` is a suffix of `s`.
pub fn ends_with(s: &str, p: &str) -> (r: bool)
    ensures
        r == spec_ends_with(s@, p@),
{
    let np = p.unicode_len();
    let ns = s.unicode_len();
    if np > ns {
        return false;
    }
    let off = ns - np;
    let mut i: usize = 0;
    while i < np
        invariant
            i <= np,
            np == p@.len(),
            ns == s@.len(),
            np <= ns,
            off == ns - np,
            forall|k: int| 0 <= k < i ==> s@[off + k] == p@[k],
        decreases np - i,
    {
        if s.get_char(off + i) != p.get_char(i) {
            proof {
                assert(s@.subrange(ns - np, ns as int)[i as int] == s@[off + i]);
            }
            return false;
        }
        i += 1;
    }
    proof {
        assert(s@.subrange(ns - np, ns as int) =~= p@);
    }
    true
}

/// The first position at or after `from` where `c` occurs in `s`, if any.
pub fn index_of_char(s: &str, c: char, from: usize) -> (r: Option<usize>)
    requires
        from <= s@.len(),
    ensures
        match r {
            Some(j) => from <= j < s@.len() && s@[j as int] == c && forall|k: int|
                from <= k < j ==> s@[k] != c,
            None => forall|k: int| from <= k < s@.len() ==> s@[k] != c,
        },
{
    let n = s.unicode_len();
    let mut i: usize = from;
    while i < n
        invariant
            from <= i <= n,
            n == s@.len(),
            forall|k: int| from <= k < i ==> s@[k] != c,
        decreases n - i,
    {
        if s.get_char(i) == c {
            return Some(i);
        }
        i += 1;
    }
    None
}

/// A fresh `String` holding the characters of `s` from `from` (inclusive)
/// to `to` (exclusive).
pub fn substring_copy(s: &str, from: usize, to: usize) -> (r: String)
    requires
        from <= to <= s@.len(),
    ensures
        r@ == s@.subrange(from as int, to as int),
{
    let sub = s.substring_char(from, to);
    sub.to_owned()
}

/// The concatenation of `a` and `b`.
pub fn concat2(a: &str, b: &str) -> (r: String)
    ensures
        r@ == a@ + b@,
{
    let mut r = a.to_owned();
    r.append(b);
    r
}

/// The concatenation of `a`, `b` and `c`.
pub fn concat3(a: &str, b: &str, c: &str) -> (r: String)
    ensures
        r@ == a@ + b@ + c@,
{
    let mut r = a.to_owned();
    r.append(b);
    r.append(c);
    r
}

/// Whether `n` occurs in `s` starting at position `i`.
pub fn match_at(s: &str, n: &str, i: usize) -> (r: bool)
    requires
        i <= s@.len(),
    ensures
        r == spec_match_at(s@, n@, i as int),
{
    let nn = n.unicode_len();
    let ns = s.unicode_len();
    if nn > ns - i {
        return false;
    }
    let mut k: usize = 0;
    while k < nn
        invariant
            k <= nn,
            nn == n@.len(),
            ns == s@.len(),
            i + nn <= ns,
            forall|j: int| 0 <= j < k ==> s@[i + j] == n@[j],
        decreases nn - k,
    {
        if s.get_char(i + k) != n.get_char(k) {
            proof {
                assert(s@.subrange(i as int, i + nn)[k as int] == s@[i + k]);
            }
            return false;
        }
        k += 1;
    }
    proof {
        assert(s@.subrange(i as int, i + nn) =~= n@);
    }
    true
}

/// The first position at or after `from` where `n` occurs in `s`, if any.
pub fn find_sub(s: &str, n: &str, from: usize) -> (r: Option<usize>)
    requires
        from <= s@.len(),
    ensures
        match r {
            Some(j) => from <= j && spec_match_at(s@, n@, j as int) && forall|k: int|
                from <= k < j ==> !spec_match_at(s@, n@, k),
            None => forall|k: int| from <= k ==> !spec_match_at(s@, n@, k),
        },
{
    let ns = s.unicode_len();
    let nn = n.unicode_len();
    if nn == 0 {
        proof {
            assert(s@.subrange(from as int, from as int) =~= n@);
        }
        return Some(from);
    }
    if nn > ns {
        return None;
    }
    let limit = ns - nn;
    if from > limit {
        return None;
    }
    let mut i: usize = from;
    while i <= limit
        invariant
            from <= i <= limit + 1,
            limit == ns - nn,
            nn == n@.len(),
            ns == s@.len(),
            1 <= nn <= ns,
            forall|k: int| from <= k < i ==> !spec_match_at(s@, n@, k),
        decreases limit + 1 - i,
    {
        if match_at(s, n, i) {
            return Some(i);
        }
        i += 1;
    }
    None
}

/// Whether `n` occurs anywhere in `s`.
pub fn contains_sub(s: &str, n: &str) -> (r: bool)
    ensures
        r == spec_contains(s@, n@),
{
    match find_sub(s, n, 0) {
        Some(_) => true,
        None => false,
    }
}

/// A character's code point with ASCII upper-case letters folded to lower
/// case.
pub open spec fn spec_fold_ascii(c: char) -> int {
    if 65 <= c as u32 && c as u32 <= 90 {
        c as u32 + 32
    } else {
        c as u32 as int
    }
}

/// Equality of two strings up to ASCII case.
pub open spec fn spec_eq_ignore_ascii_case(a: Seq<char>, b: Seq<char>) -> bool {
    a.len() == b.len() && forall|i: int|
        0 <= i < a.len() ==> spec_fold_ascii(a[i]) == spec_fold_ascii(b[i])
}

/// Compare two strings for equality up to ASCII case.
pub fn eq_ignore_ascii_case(a: &str, b: &str) -> (r: bool)
    ensures
        r == spec_eq_ignore_ascii_case(a@, b@),
{
    let na = a.unicode_len();
    let nb = b.unicode_len();
    if na != nb {
        return false;
    }
    let mut i: usize = 0;
    while i < na
        invariant
            i <= na,
            na == a@.len(),
            na == b@.len(),
            forall|k: int| 0 <= k < i ==> spec_fold_ascii(a@[k]) == spec_fold_ascii(b@[k]),
        decreases na - i,
    {
        let ca = a.get_char(i) as u32;
        let cb = b.get_char(i) as u32;
        let fa = if 65 <= ca && ca <= 90 {
            ca + 32
        } else {
            ca
        };
        let fb = if 65 <= cb && cb <= 90 {
            cb + 32
        } else {
            cb
        };
        if fa != fb {
            return false;
        }
        i += 1;
    }
    true
}

/// `c` is a decimal digit.
pub open spec fn spec_is_digit(c: char) -> bool {
    48 <= c as u32 && c as u32 <= 57
}

/// The numeric value of a digit character.
pub open spec fn spec_digit_val(c: char) -> int {
    c as u32 - 48
}

/// Every character of `s` is a decimal digit.
pub open spec fn spec_all_digits(s: Seq<char>) -> bool {
    forall|i: int| 0 <= i < s.len() ==> spec_is_digit(s[i])
}

/// The integer denoted by a digit sequence, most significant digit first.
pub open spec fn spec_dec_value(s: Seq<char>) -> int
    decreases s.len(),
{
    if s.len() == 0 {
        0
    } else {
        spec_dec_value(s.drop_last()) * 10 + spec_digit_val(s.last())
    }
}

/// What parsing `s` as an unsigned 8-bit decimal number yields: a value for a
/// non-empty, all-digit string denoting at most 255, and nothing otherwise.
pub open spec fn spec_parse_u8(s: Seq<char>) -> Option<u8> {
    if s.len() > 0 && spec_all_digits(s) && spec_dec_value(s) <= 255 {
        Some(spec_dec_value(s) as u8)
    } else {
        None
    }
}

proof fn lemma_dec_prefix(s: Seq<char>, i: int)
    requires
        0 <= i < s.len(),
    ensures
        spec_dec_value(s.subrange(0, i + 1)) == spec_dec_value(s.subrange(0, i)) * 10
            + spec_digit_val(s[i]),
{
    assert(s.subrange(0, i + 1).drop_last() =~= s.subrange(0, i));
    assert(s.subrange(0, i + 1).last() == s[i]);
}

/// Parse `s` as a decimal `u8`; out-of-range or non-digit input yields `None`.
pub fn parse_u8_dec(s: &str) -> (r: Option<u8>)
    ensures
        r == spec_parse_u8(s@),
{
    let n = s.unicode_len();
    if n == 0 {
        return None;
    }
    let mut val: u32 = 0;
    let mut over: bool = false;
    let mut i: usize = 0;
    while i < n
        invariant
            0 < n == s@.len(),
            i <= n,
            spec_all_digits(s@.subrange(0, i as int)),
            !over ==> val == spec_dec_value(s@.subrange(0, i as int)) && val <= 255,
            over ==> spec_dec_value(s@.subrange(0, i as int)) > 255,
        decreases n - i,
    {
        let c = s.get_char(i);
        let u = c as u32;
        if u < 48 || u > 57 {
            assert(!spec_is_digit(s@[i as int]));
            return None;
        }
        let d = u - 48;
        proof {
            lemma_dec_prefix(s@, i as int);
            assert(s@.subrange(0, i as int).push(s@[i as int]) =~= s@.subrange(0, i + 1));
        }
        if !over {
            val = val * 10 + d;
            if val > 255 {
                over = true;
            }
        }
        i += 1;
    }
    proof {
        assert(s@.subrange(0, n as int) =~= s@);
    }
    if over {
        None
    } else {
        Some(val as u8)
    }
}

/// A one-character string for the digit `d`.
fn digit_str(d: u8) -> (r: &'static str)
    requires
        d < 10,
    ensures
        r@.len() == 1,
        spec_is_digit(r@[0]),
        spec_digit_val(r@[0]) == d as int,
{
    if d == 0 {
        let s = "0";
        proof { reveal_strlit("0"); }
        s
    } else if d == 1 {
        let s = "1";
        proof { reveal_strlit("1"); }
        s
    } else if d == 2 {
        let s = "2";
        proof { reveal_strlit("2"); }
        s
    } else if d == 3 {
        let s = "3";
        proof { reveal_strlit("3"); }
        s
    } else if d == 4 {
        let s = "4";
        proof { reveal_strlit("4"); }
        s
    } else if d == 5 {
        let s = "5";
        proof { reveal_strlit("5"); }
        s
    } else if d == 6 {
        let s = "6";
        proof { reveal_strlit("6"); }
        s
    } else if d == 7 {
        let s = "7";
        proof { reveal_strlit("7"); }
        s
    } else if d == 8 {
        let s = "8";
        proof { reveal_strlit("8"); }
        s
    } else {
        let s = "9";
        proof { reveal_strlit("9"); }
        s
    }
}

/// Render `v` in decimal, without leading zeros.
pub fn u8_to_dec_string(v: u8) -> (r: String)
    ensures
        r@.len() > 0,
        spec_all_digits(r@),
        spec_dec_value(r@) == v as int,
        r@.len() > 1 ==> spec_digit_val(r@[0]) != 0,
{
    let hundreds = v / 100;
    let tens = (v / 10) % 10;
    let units = v % 10;
    proof {
        assert(hundreds * 100 + tens * 10 + units == v) by (nonlinear_arith)
            requires
                hundreds == v / 100,
                tens == (v / 10) % 10,
                units == v % 10,
                v < 256,
        ;
    }
    if v >= 100 {
        let a = digit_str(hundreds);
        let b = digit_str(tens);
        let c = digit_str(units);
        let r = concat3(a, b, c);
        proof {
            assert(r@.len() == 3);
            assert(r@[0] == a@[0] && r@[1] == b@[0] && r@[2] == c@[0]);
            assert(r@.drop_last() =~= r@.subrange(0, 2));
            assert(r@.subrange(0, 2).drop_last() =~= r@.subrange(0, 1));
            assert(r@.subrange(0, 1).drop_last() =~= Seq::<char>::empty());
            assert(r@.subrange(0, 1).last() == r@[0]);
            assert(r@.subrange(0, 2).last() == r@[1]);
            assert(spec_dec_value(Seq::<char>::empty()) == 0);
            assert(spec_dec_value(r@.subrange(0, 1)) == hundreds as int);
            assert(spec_dec_value(r@.subrange(0, 2)) == hundreds * 10 + tens);
            assert(spec_dec_value(r@) == (hundreds * 10 + tens) * 10 + units);
            assert(spec_dec_value(r@) == v as int);
        }
        r
    } else if v >= 10 {
        let b = digit_str(tens);
        let c = digit_str(units);
        let r = concat2(b, c);
        proof {
            assert(r@.len() == 2);
            assert(r@[0] == b@[0] && r@[1] == c@[0]);
            assert(r@.drop_last() =~= r@.subrange(0, 1));
            assert(r@.subrange(0, 1).drop_last() =~= Seq::<char>::empty());
            assert(r@.subrange(0, 1).last() == r@[0]);
            assert(spec_dec_value(Seq::<char>::empty()) == 0);
            assert(spec_dec_value(r@.subrange(0, 1)) == tens as int);
            assert(spec_dec_value(r@) == tens * 10 + units);
            assert(spec_dec_value(r@) == v as int);
        }
        r
    } else {
        let r = digit_str(units).to_owned();
        proof {
            assert(r@.drop_last() =~= Seq::<char>::empty());
            assert(spec_dec_value(Seq::<char>::empty()) == 0);
            assert(spec_dec_value(r@) == v as int);
        }
        r
    }
}

/// Code-point-wise lexicographic order on character sequences.
pub open spec fn spec_str_le(a: Seq<char>, b: Seq<char>) -> bool
    decreases a.len(),
{
    if a.len() == 0 {
        true
    } else if b.len() == 0 {
        false
    } else if (a[0] as u32) < (b[0] as u32) {
        true
    } else if (a[0] as u32) > (b[0] as u32) {
        false
    } else {
        spec_str_le(a.drop_first(), b.drop_first())
    }
}

/// Lexicographic order is reflexive.
pub proof fn lemma_str_le_refl(a: Seq<char>)
    ensures
        spec_str_le(a, a),
    decreases a.len(),
{
    if a.len() > 0 {
        lemma_str_le_refl(a.drop_first());
    }
}

/// Lexicographic order is total: two sequences always compare one way.
pub proof fn lemma_str_le_total(a: Seq<char>, b: Seq<char>)
    ensures
        spec_str_le(a, b) || spec_str_le(b, a),
    decreases a.len(),
{
    if a.len() > 0 && b.len() > 0 && (a[0] as u32) == (b[0] as u32) {
        lemma_str_le_total(a.drop_first(), b.drop_first());
    }
}

/// Lexicographic order is transitive.
pub proof fn lemma_str_le_trans(a: Seq<char>, b: Seq<char>, c: Seq<char>)
    requires
        spec_str_le(a, b),
        spec_str_le(b, c),
    ensures
        spec_str_le(a, c),
    decreases a.len(),
{
    if a.len() > 0 && b.len() > 0 && c.len() > 0 {
        if (a[0] as u32) == (b[0] as u32) && (b[0] as u32) == (c[0] as u32) {
            lemma_str_le_trans(a.drop_first(), b.drop_first(), c.drop_first());
        }
    }
}

/// Whether `a` comes at or before `b` in code-point order.
pub fn str_le(a: &str, b: &str) -> (r: bool)
    ensures
        r == spec_str_le(a@, b@),
{
    let na = a.unicode_len();
    let nb = b.unicode_len();
    proof {
        assert(a@.subrange(0, na as int) =~= a@);
        assert(b@.subrange(0, nb as int) =~= b@);
    }
    let mut i: usize = 0;
    while i < na && i < nb
        invariant
            na == a@.len(),
            nb == b@.len(),
            i <= na,
            i <= nb,
            spec_str_le(a@, b@) == spec_str_le(
                a@.subrange(i as int, na as int),
                b@.subrange(i as int, nb as int),
            ),
        decreases na - i,
    {
        let ca = a.get_char(i) as u32;
        let cb = b.get_char(i) as u32;
        proof {
            assert(a@.subrange(i as int, na as int)[0] == a@[i as int]);
            assert(b@.subrange(i as int, nb as int)[0] == b@[i as int]);
            assert(a@.subrange(i as int, na as int).drop_first() =~= a@.subrange(
                i + 1,
                na as int,
            ));
            assert(b@.subrange(i as int, nb as int).drop_first() =~= b@.subrange(
                i + 1,
                nb as int,
            ));
        }
        if ca < cb {
            return true;
        }
        if ca > cb {
            return false;
        }
        i += 1;
    }
    proof {
        if i >= na {
            assert(a@.subrange(i as int, na as int).len() == 0);
        } else {
            assert(b@.subrange(i as int, nb as int).len() == 0);
            assert(a@.subrange(i as int, na as int).len() > 0);
        }
    }
    na <= nb
}

/// The result of replacing every occurrence of `n` in `s` with `rep`,
/// scanning left to right.
pub open spec fn spec_replace(s: Seq<char>, n: Seq<char>, rep: Seq<char>) -> Seq<char>
    decreases s.len(),
{
    if n.len() == 0 || s.len() < n.len() {
        s
    } else if s.subrange(0, n.len() as int) == n {
        rep + spec_replace(s.subrange(n.len() as int, s.len() as int), n, rep)
    } else {
        seq![s[0]] + spec_replace(s.subrange(1, s.len() as int), n, rep)
    }
}

proof fn lemma_replace_skip_char(s: Seq<char>, n: Seq<char>, rep: Seq<char>)
    requires
        s.len() > 0,
        n.len() > 0,
        !(s.len() >= n.len() && s.subrange(0, n.len() as int) == n),
    ensures
        spec_replace(s, n, rep) == seq![s[0]] + spec_replace(
            s.subrange(1, s.len() as int),
            n,
            rep,
        ),
{
    if s.len() < n.len() {
        assert(spec_replace(s, n, rep) == s);
        assert(s.subrange(1, s.len() as int).len() < n.len());
        assert(spec_replace(s.subrange(1, s.len() as int), n, rep) == s.subrange(
            1,
            s.len() as int,
        ));
        assert(seq![s[0]] + s.subrange(1, s.len() as int) =~= s);
    }
}

/// Replace every occurrence of `n` in `s` with `rep`, scanning left to right.
pub fn replace_all(s: &str, n: &str, rep: &str) -> (r: String)
    requires
        n@.len() > 0,
    ensures
        r@ == spec_replace(s@, n@, rep@),
{
    let ns = s.unicode_len();
    let nn = n.unicode_len();
    let mut out = String::new();
    proof {
        assert(s@.subrange(0, ns as int) =~= s@);
        assert(Seq::<char>::empty() + spec_replace(s@, n@, rep@) =~= spec_replace(s@, n@, rep@));
    }
    let mut i: usize = 0;
    while i < ns
        invariant
            i <= ns,
            ns == s@.len(),
            nn == n@.len(),
            nn > 0,
            out@ + spec_replace(s@.subrange(i as int, ns as int), n@, rep@) == spec_replace(
                s@,
                n@,
                rep@,
            ),
        decreases ns - i,
    {
        let ghost tail = s@.subrange(i as int, ns as int);
        let ghost out_before = out@;
        if match_at(s, n, i) {
            out.append(rep);
            proof {
                assert(tail.subrange(0, nn as int) =~= s@.subrange(i as int, i + nn));
                assert(tail.subrange(nn as int, tail.len() as int) =~= s@.subrange(
                    i + nn,
                    ns as int,
                ));
                assert(spec_replace(tail, n@, rep@) == rep@ + spec_replace(
                    s@.subrange(i + nn, ns as int),
                    n@,
                    rep@,
                ));
                assert(out_before + rep@ + spec_replace(s@.subrange(i + nn, ns as int), n@, rep@)
                    =~= out_before + spec_replace(tail, n@, rep@));
            }
            i += nn;
        } else {
            let piece = s.substring_char(i, i + 1);
            out.append(piece);
            proof {
                if tail.len() >= nn {
                    assert(tail.subrange(0, nn as int) =~= s@.subrange(i as int, i + nn));
                }
                lemma_replace_skip_char(tail, n@, rep@);
                assert(tail.subrange(1, tail.len() as int) =~= s@.subrange(i + 1, ns as int));
                assert(piece@ =~= seq![s@[i as int]]);
                assert(out_before + piece@ + spec_replace(s@.subrange(i + 1, ns as int), n@, rep@)
                    =~= out_before + spec_replace(tail, n@, rep@));
            }
            i += 1;
        }
    }
    proof {
        assert(s@.subrange(ns as int, ns as int).len() == 0);
        assert(out@ + spec_replace(s@.subrange(ns as int, ns as int), n@, rep@) =~= out@);
    }
    out
}

} // verus!
