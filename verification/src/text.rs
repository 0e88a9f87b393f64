//! Verified text utilities: decimal parsing and character-level string
//! predicates used by the detail assembly.

use vstd::prelude::*;

verus! {

/// Whether `c` is a decimal digit.
pub open spec fn is_digit(c: char) -> bool {
    48 <= c as u32 <= 57
}

/// Whether every character of `s` is a decimal digit.
pub open spec fn all_digits(s: Seq<char>) -> bool {
    forall|i: int| 0 <= i < s.len() ==> is_digit(#[trigger] s[i])
}

/// The number a digit sequence denotes, most significant digit first.
pub open spec fn digits_val(s: Seq<char>) -> int
    decreases s.len(),
{
    if s.len() == 0 {
        0
    } else {
        digits_val(s.drop_last()) * 10 + (s.last() as u32 - 48)
    }
}

/// What parsing `s` as a decimal `u64` yields: the denoted number for a
/// nonempty all-digit sequence that fits, nothing otherwise.
pub open spec fn parsed_u64(s: Seq<char>) -> Option<u64> {
    if s.len() > 0 && all_digits(s) && digits_val(s) <= u64::MAX {
        Some(digits_val(s) as u64)
    } else {
        None
    }
}

/// Digit sequences denote non-negative numbers.
proof fn lemma_digits_val_nonneg(s: Seq<char>)
    requires
        all_digits(s),
    ensures
        digits_val(s) >= 0,
    decreases s.len(),
{
    if s.len() > 0 {
        assert(all_digits(s.drop_last())) by {
            assert(forall|i: int| 0 <= i < s.len() - 1 ==> s.drop_last()[i] == s[i]);
        }
        lemma_digits_val_nonneg(s.drop_last());
    }
}

/// A digit sequence denotes at least what any of its prefixes denotes.
proof fn lemma_digits_val_prefix_le(s: Seq<char>, n: int)
    requires
        all_digits(s),
        0 <= n <= s.len(),
    ensures
        digits_val(s.subrange(0, n)) <= digits_val(s),
    decreases s.len() - n,
{
    if n < s.len() {
        lemma_digits_val_prefix_le(s, n + 1);
        let p = s.subrange(0, n);
        let q = s.subrange(0, n + 1);
        assert(q.drop_last() =~= p);
        assert(all_digits(p)) by {
            assert(forall|i: int| 0 <= i < n ==> p[i] == s[i]);
        }
        lemma_digits_val_nonneg(p);
        assert(digits_val(q) == digits_val(p) * 10 + (q.last() as u32 - 48));
        assert(digits_val(p) * 10 >= digits_val(p)) by (nonlinear_arith)
            requires
                digits_val(p) >= 0,
        ;
    } else {
        assert(s.subrange(0, n) =~= s);
    }
}

/// Parses a nonempty decimal digit string into a `u64`, exactly as
/// `parsed_u64` says: anything empty, non-numeric or out of range yields
/// nothing.
pub fn parse_u64(s: &str) -> (r: Option<u64>)
    ensures
        r == parsed_u64(s@),
{
    let n = s.unicode_len();
    if n == 0 {
        return None;
    }
    let mut acc: u64 = 0;
    let mut i: usize = 0;
    proof {
        assert(s@.subrange(0, 0) =~= Seq::<char>::empty());
    }
    while i < n
        invariant
            i <= n,
            n == s@.len(),
            n > 0,
            acc == digits_val(s@.subrange(0, i as int)),
            all_digits(s@.subrange(0, i as int)),
        decreases n - i,
    {
        let c = s.get_char(i);
        let cv = c as u32;
        if cv < 48 || cv > 57 {
            proof {
                assert(!is_digit(s@[i as int]));
            }
            return None;
        }
        let d = (cv - 48) as u64;
        proof {
            assert(s@.subrange(0, i as int + 1).drop_last() =~= s@.subrange(0, i as int));
            assert(forall|j: int|
                0 <= j < i + 1 ==> s@.subrange(0, i as int + 1)[j] == s@[j]);
        }
        proof {
            assert(acc <= (u64::MAX - d) / 10 ==> acc * 10 + d <= u64::MAX) by (nonlinear_arith)
                requires
                    0 <= d <= 9,
                    acc >= 0,
            ;
        }
        if acc > (u64::MAX - d) / 10 {
            // the value denoted so far already overflows, so the whole
            // string denotes more than u64::MAX
            proof {
                let q = s@.subrange(0, i as int + 1);
                assert(digits_val(q) == acc * 10 + d);
                assert(acc * 10 + d > u64::MAX) by (nonlinear_arith)
                    requires
                        acc > (u64::MAX - d) / 10,
                        0 <= d <= 9,
                        acc >= 0,
                ;
                if all_digits(s@) {
                    lemma_digits_val_prefix_le(s@, i as int + 1);
                }
            }
            return None;
        }
        acc = acc * 10 + d;
        i += 1;
    }
    proof {
        assert(s@.subrange(0, n as int) =~= s@);
    }
    Some(acc)
}

/// Character-for-character equality of two string slices.
pub fn str_eq(a: &str, b: &str) -> (r: bool)
    ensures
        r == (a@ == b@),
{
    let alen = a.unicode_len();
    let blen = b.unicode_len();
    if alen != blen {
        return false;
    }
    let mut i: usize = 0;
    while i < alen
        invariant
            i <= alen,
            alen == a@.len(),
            alen == b@.len(),
            forall|j: int| 0 <= j < i ==> a@[j] == b@[j],
        decreases alen - i,
    {
        if a.get_char(i) != b.get_char(i) {
            return false;
        }
        i += 1;
    }
    proof {
        assert(a@ =~= b@);
    }
    true
}

/// Whether `p` is a prefix of `n`.
pub open spec fn is_char_prefix(p: Seq<char>, n: Seq<char>) -> bool {
    p.len() <= n.len() && n.subrange(0, p.len() as int) == p
}

/// Whether `sfx` is a suffix of `n`.
pub open spec fn is_char_suffix(sfx: Seq<char>, n: Seq<char>) -> bool {
    sfx.len() <= n.len() && n.subrange(n.len() - sfx.len(), n.len() as int) == sfx
}

/// Whether the string starts with the given prefix.
pub fn starts_with_chars(n: &str, p: &str) -> (r: bool)
    ensures
        r == is_char_prefix(p@, n@),
{
    let plen = p.unicode_len();
    let nlen = n.unicode_len();
    if plen > nlen {
        return false;
    }
    let mut i: usize = 0;
    while i < plen
        invariant
            i <= plen <= nlen,
            plen == p@.len(),
            nlen == n@.len(),
            forall|j: int| 0 <= j < i ==> n@[j] == p@[j],
        decreases plen - i,
    {
        if n.get_char(i) != p.get_char(i) {
            proof {
                assert(n@.subrange(0, p@.len() as int)[i as int] == n@[i as int]);
            }
            return false;
        }
        i += 1;
    }
    proof {
        assert(n@.subrange(0, p@.len() as int) =~= p@);
    }
    true
}

/// Whether the string ends with the given suffix.
pub fn ends_with_chars(n: &str, sfx: &str) -> (r: bool)
    ensures
        r == is_char_suffix(sfx@, n@),
{
    let slen = sfx.unicode_len();
    let nlen = n.unicode_len();
    if slen > nlen {
        return false;
    }
    let off = nlen - slen;
    let mut i: usize = 0;
    while i < slen
        invariant
            i <= slen <= nlen,
            slen == sfx@.len(),
            nlen == n@.len(),
            off == nlen - slen,
            forall|j: int| 0 <= j < i ==> n@[off + j] == sfx@[j],
        decreases slen - i,
    {
        if n.get_char(off + i) != sfx.get_char(i) {
            proof {
                assert(n@.subrange(n@.len() - sfx@.len(), n@.len() as int)[i as int] == n@[
                    off + i
                ]);
            }
            return false;
        }
        i += 1;
    }
    proof {
        assert(n@.subrange(n@.len() - sfx@.len(), n@.len() as int) =~= sfx@);
    }
    true
}

/// Whether `needle` occurs contiguously anywhere in `hay`.
pub open spec fn has_substring(hay: Seq<char>, needle: Seq<char>) -> bool {
    exists|i: int|
        0 <= i <= hay.len() - needle.len() && #[trigger] hay.subrange(i, i + needle.len())
            == needle
}

/// Whether the string contains the given substring, by scanning every
/// starting offset.
pub fn contains_chars(hay: &str, needle: &str) -> (r: bool)
    ensures
        r == has_substring(hay@, needle@),
{
    let nlen = needle.unicode_len();
    let hlen = hay.unicode_len();
    if nlen > hlen {
        return false;
    }
    if nlen == 0 {
        proof {
            assert(hay@.subrange(0, 0 + needle@.len() as int) =~= needle@);
        }
        return true;
    }
    let mut start: usize = 0;
    while start <= hlen - nlen
        invariant
            nlen <= hlen,
            nlen == needle@.len(),
            hlen == hay@.len(),
            1 <= nlen,
            start <= hlen - nlen + 1,
            forall|i: int|
                0 <= i < start ==> #[trigger] hay@.subrange(i, i + needle@.len()) != needle@,
        decreases hlen - start,
    {
        let mut j: usize = 0;
        let mut matched = true;
        while j < nlen
            invariant_except_break
                j <= nlen,
                matched,
                nlen == needle@.len(),
                hlen == hay@.len(),
                start + nlen <= hlen,
                forall|k: int| 0 <= k < j ==> hay@[start + k] == needle@[k],
            ensures
                matched ==> forall|k: int| 0 <= k < nlen ==> hay@[start + k] == needle@[k],
                !matched ==> hay@.subrange(start as int, start as int + needle@.len()) != needle@,
            decreases nlen - j,
        {
            if hay.get_char(start + j) != needle.get_char(j) {
                matched = false;
                proof {
                    assert(hay@.subrange(start as int, start as int + needle@.len())[j as int]
                        == hay@[start + j]);
                    assert(hay@.subrange(start as int, start as int + needle@.len()) != needle@);
                }
                break;
            }
            j += 1;
        }
        if matched {
            proof {
                assert(hay@.subrange(start as int, start as int + needle@.len()) =~= needle@);
            }
            return true;
        }
        start += 1;
    }
    false
}

} // verus!
