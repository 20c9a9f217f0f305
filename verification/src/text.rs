//! Verified text utilities: substring search, suffix tests, pattern
//! replacement, decimal rendering and separator joins, used by the path
//! mapper, the rule evaluator and the launch command builder.

use vstd::prelude::*;

verus! {

/// Relies on std's `String::push`: appends the character to the end of
/// the string.
pub assume_specification[ String::push ](s: &mut String, ch: char)
    ensures
        final(s)@ == old(s)@.push(ch),
;

/// The pattern `p` occurs in `s` starting at index `i`.
pub open spec fn has_substring_at(s: Seq<char>, p: Seq<char>, i: int) -> bool {
    0 <= i && i + p.len() <= s.len() && s.subrange(i, i + p.len()) == p
}

/// The pattern `p` occurs somewhere in `s`.
pub open spec fn has_substring(s: Seq<char>, p: Seq<char>) -> bool {
    exists|i: int| has_substring_at(s, p, i)
}

/// `p` is a suffix of `s`.
pub open spec fn suffix_of(p: Seq<char>, s: Seq<char>) -> bool {
    p.len() <= s.len() && s.subrange(s.len() - p.len(), s.len() as int) == p
}

/// Character-for-character equality of two string slices.
pub fn str_eq(a: &str, b: &str) -> (r: bool)
    ensures
        r == (a@ == b@),
{
    let alen = a.unicode_len();
    let blen = b.unicode_len();
    if alen != blen {
        return false;
    }
    let mut i: usize = 0;
    while i < alen
        invariant
            i <= alen,
            alen == a@.len(),
            alen == b@.len(),
            forall|j: int| 0 <= j < i ==> a@[j] == b@[j],
        decreases alen - i,
    {
        if a.get_char(i) != b.get_char(i) {
            return false;
        }
        i += 1;
    }
    proof {
        assert(a@ =~= b@);
    }
    true
}

/// Whether `suffix` ends `s`.
pub fn ends_with_str(s: &str, suffix: &str) -> (r: bool)
    ensures
        r == suffix_of(suffix@, s@),
{
    let slen = s.unicode_len();
    let plen = suffix.unicode_len();
    if plen > slen {
        return false;
    }
    let start = slen - plen;
    let mut i: usize = 0;
    while i < plen
        invariant
            i <= plen,
            plen <= slen,
            start == slen - plen,
            slen == s@.len(),
            plen == suffix@.len(),
            forall|j: int| 0 <= j < i ==> s@[start + j] == suffix@[j],
        decreases plen - i,
    {
        if s.get_char(start + i) != suffix.get_char(i) {
            proof {
                if suffix_of(suffix@, s@) {
                    assert(s@.subrange(s@.len() - suffix@.len(), s@.len() as int)[i as int]
                        == s@[start + i]);
                }
            }
            return false;
        }
        i += 1;
    }
    proof {
        assert(s@.subrange(s@.len() - suffix@.len(), s@.len() as int) =~= suffix@);
    }
    true
}

/// Whether the pattern `p` occurs in `s` starting exactly at index `i`.
fn matches_at(s: &str, p: &str, i: usize) -> (r: bool)
    requires
        i + p@.len() <= s@.len(),
    ensures
        r == has_substring_at(s@, p@, i as int),
{
    let slen = s.unicode_len();
    let plen = p.unicode_len();
    let mut j: usize = 0;
    while j < plen
        invariant
            j <= plen,
            plen == p@.len(),
            slen == s@.len(),
            i + plen <= s@.len(),
            forall|k: int| 0 <= k < j ==> s@[i + k] == p@[k],
        decreases plen - j,
    {
        if s.get_char(i + j) != p.get_char(j) {
            proof {
                if has_substring_at(s@, p@, i as int) {
                    assert(s@.subrange(i as int, i + p@.len())[j as int] == s@[i + j]);
                }
            }
            return false;
        }
        j += 1;
    }
    proof {
        assert(s@.subrange(i as int, i + p@.len()) =~= p@);
    }
    true
}

/// Whether the pattern `p` occurs anywhere in `s`.
pub fn contains_str(s: &str, p: &str) -> (r: bool)
    ensures
        r == has_substring(s@, p@),
{
    let slen = s.unicode_len();
    let plen = p.unicode_len();
    if plen == 0 {
        proof {
            assert(s@.subrange(0, 0) =~= p@);
            assert(has_substring_at(s@, p@, 0));
        }
        return true;
    }
    if plen > slen {
        proof {
            if has_substring(s@, p@) {
                let i = choose|i: int| has_substring_at(s@, p@, i);
                assert(i + p@.len() <= s@.len());
            }
        }
        return false;
    }
    let mut i: usize = 0;
    while i <= slen - plen
        invariant
            0 < plen <= slen,
            slen == s@.len(),
            plen == p@.len(),
            i <= slen - plen + 1,
            forall|k: int| 0 <= k < i ==> !has_substring_at(s@, p@, k),
        decreases slen - plen + 1 - i,
    {
        if matches_at(s, p, i) {
            return true;
        }
        i += 1;
    }
    proof {
        if has_substring(s@, p@) {
            let k = choose|k: int| has_substring_at(s@, p@, k);
            assert(k <= slen - plen);
        }
    }
    false
}

/// A concatenation contains its middle part as a substring.
pub proof fn lemma_concat_contains_middle(x: Seq<char>, p: Seq<char>, y: Seq<char>)
    ensures
        has_substring(x + p + y, p),
{
    let s = x + p + y;
    assert(s.subrange(x.len() as int, x.len() as int + p.len() as int) =~= p);
    assert(has_substring_at(s, p, x.len() as int));
}

/// Result of replacing, left to right, every occurrence of `pat` in `s`
/// with `rep`.
pub open spec fn replace_all_spec(s: Seq<char>, pat: Seq<char>, rep: Seq<char>) -> Seq<char>
    decreases s.len(),
{
    if pat.len() == 0 {
        s
    } else if s.len() == 0 {
        Seq::empty()
    } else if pat.len() <= s.len() && s.subrange(0, pat.len() as int) == pat {
        rep + replace_all_spec(s.skip(pat.len() as int), pat, rep)
    } else {
        seq![s[0]] + replace_all_spec(s.skip(1), pat, rep)
    }
}

/// Replaces every occurrence of `pat` in `s` with `rep`, scanning left to
/// right.
pub fn replace_all(s: &str, pat: &str, rep: &str) -> (r: String)
    requires
        pat@.len() > 0,
    ensures
        r@ == replace_all_spec(s@, pat@, rep@),
{
    let slen = s.unicode_len();
    let plen = pat.unicode_len();
    let mut out = String::new();
    let mut i: usize = 0;
    proof {
        assert(s@.skip(0) =~= s@);
    }
    while i < slen
        invariant
            i <= slen,
            slen == s@.len(),
            plen == pat@.len(),
            plen > 0,
            out@ + replace_all_spec(s@.skip(i as int), pat@, rep@)
                == replace_all_spec(s@, pat@, rep@),
        decreases slen - i,
    {
        let ghost tail = s@.skip(i as int);
        if plen <= slen - i && matches_at(s, pat, i) {
            proof {
                assert(tail.subrange(0, pat@.len() as int) =~= s@.subrange(
                    i as int,
                    i + pat@.len(),
                ));
                assert(tail.skip(plen as int) =~= s@.skip(i + plen));
                assert(replace_all_spec(tail, pat@, rep@) == rep@ + replace_all_spec(
                    s@.skip(i + plen),
                    pat@,
                    rep@,
                ));
            }
            out.append(rep);
            proof {
                assert(out@ + replace_all_spec(s@.skip(i + plen), pat@, rep@)
                    =~= replace_all_spec(s@, pat@, rep@));
            }
            i += plen;
        } else {
            proof {
                if plen <= tail.len() && tail.subrange(0, pat@.len() as int) == pat@ {
                    assert(s@.subrange(i as int, i + pat@.len()) =~= tail.subrange(
                        0,
                        pat@.len() as int,
                    ));
                    assert(has_substring_at(s@, pat@, i as int));
                }
                assert(tail.skip(1) =~= s@.skip(i as int + 1));
                assert(replace_all_spec(tail, pat@, rep@) == seq![tail[0]] + replace_all_spec(
                    s@.skip(i as int + 1),
                    pat@,
                    rep@,
                ));
            }
            let c = s.get_char(i);
            out.push(c);
            proof {
                assert(out@ + replace_all_spec(s@.skip(i as int + 1), pat@, rep@)
                    =~= replace_all_spec(s@, pat@, rep@));
            }
            i += 1;
        }
    }
    proof {
        assert(s@.skip(slen as int) =~= Seq::<char>::empty());
        assert(out@ =~= replace_all_spec(s@, pat@, rep@));
    }
    out
}

/// The decimal digit character for `d`.
pub open spec fn dec_digit(d: int) -> char {
    if d == 0 {
        '0'
    } else if d == 1 {
        '1'
    } else if d == 2 {
        '2'
    } else if d == 3 {
        '3'
    } else if d == 4 {
        '4'
    } else if d == 5 {
        '5'
    } else if d == 6 {
        '6'
    } else if d == 7 {
        '7'
    } else if d == 8 {
        '8'
    } else {
        '9'
    }
}

/// The decimal rendering of a non-negative integer, most significant
/// digit first.
pub open spec fn dec_str_of(n: int) -> Seq<char>
    decreases n,
{
    if n < 10 {
        seq![dec_digit(n)]
    } else {
        dec_str_of(n / 10).push(dec_digit(n % 10))
    }
}

fn digit_char(d: u64) -> (c: char)
    requires
        d < 10,
    ensures
        c == dec_digit(d as int),
{
    if d == 0 {
        '0'
    } else if d == 1 {
        '1'
    } else if d == 2 {
        '2'
    } else if d == 3 {
        '3'
    } else if d == 4 {
        '4'
    } else if d == 5 {
        '5'
    } else if d == 6 {
        '6'
    } else if d == 7 {
        '7'
    } else if d == 8 {
        '8'
    } else {
        '9'
    }
}

fn push_dec(out: &mut String, n: u64)
    ensures
        final(out)@ == old(out)@ + dec_str_of(n as int),
    decreases n,
{
    if n < 10 {
        let c = digit_char(n);
        out.push(c);
        proof {
            assert(old(out)@.push(dec_digit(n as int)) =~= old(out)@ + dec_str_of(n as int));
        }
    } else {
        push_dec(out, n / 10);
        let c = digit_char(n % 10);
        out.push(c);
        proof {
            assert((old(out)@ + dec_str_of(n as int / 10)).push(dec_digit(n as int % 10))
                =~= old(out)@ + dec_str_of(n as int));
        }
    }
}

/// Renders `n` in decimal.
pub fn u64_to_dec(n: u64) -> (r: String)
    ensures
        r@ == dec_str_of(n as int),
{
    let mut out = String::new();
    push_dec(&mut out, n);
    proof {
        assert(out@ =~= dec_str_of(n as int));
    }
    out
}

/// The elements of `parts` joined with `sep` between consecutive
/// elements.
pub open spec fn join_spec(parts: Seq<Seq<char>>, sep: Seq<char>) -> Seq<char>
    decreases parts.len(),
{
    if parts.len() == 0 {
        Seq::empty()
    } else if parts.len() == 1 {
        parts[0]
    } else {
        parts[0] + sep + join_spec(parts.skip(1), sep)
    }
}

proof fn lemma_join_snoc(parts: Seq<Seq<char>>, sep: Seq<char>, x: Seq<char>)
    ensures
        parts.len() == 0 ==> join_spec(parts.push(x), sep) == x,
        parts.len() > 0 ==> join_spec(parts.push(x), sep) == join_spec(parts, sep) + sep + x,
    decreases parts.len(),
{
    if parts.len() == 0 {
        assert(parts.push(x)[0] == x);
    } else if parts.len() == 1 {
        assert(parts.push(x).skip(1) =~= seq![x]);
        assert(join_spec(seq![x], sep) == x);
        assert(parts.push(x)[0] == parts[0]);
        assert(join_spec(parts.push(x), sep) == parts[0] + sep + x);
    } else {
        assert(parts.push(x).skip(1) =~= parts.skip(1).push(x));
        lemma_join_snoc(parts.skip(1), sep, x);
        assert(parts[0] + sep + (join_spec(parts.skip(1), sep) + sep + x)
            =~= (parts[0] + sep + join_spec(parts.skip(1), sep)) + sep + x);
    }
}

/// Joins the strings in `parts` with the separator `sep`.
pub fn join_strs(parts: &Vec<String>, sep: &str) -> (r: String)
    ensures
        r@ == join_spec(parts.deep_view(), sep@),
{
    let mut out = String::new();
    let mut i: usize = 0;
    while i < parts.len()
        invariant
            i <= parts.len(),
            i == 0 ==> out@ == Seq::<char>::empty(),
            i > 0 ==> out@ == join_spec(parts.deep_view().take(i as int), sep@),
        decreases parts.len() - i,
    {
        proof {
            assert(parts.deep_view().take(i as int).push(parts.deep_view()[i as int])
                =~= parts.deep_view().take(i as int + 1));
            lemma_join_snoc(parts.deep_view().take(i as int), sep@, parts.deep_view()[i as int]);
        }
        if i > 0 {
            out.append(sep);
        }
        out.append(parts[i].as_str());
        i += 1;
    }
    proof {
        if parts.len() == 0 {
            assert(parts.deep_view().len() == 0);
        } else {
            assert(parts.deep_view().take(parts.len() as int) =~= parts.deep_view());
        }
    }
    out
}

} // verus!
