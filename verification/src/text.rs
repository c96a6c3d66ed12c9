//! Character-level string utilities used by every part of the control plane.
//!
//! Strings are specified through their views, `Seq<char>`. The spec functions here give the
//! meaning of the `str` operations the control plane relies on (prefix tests, repeated
//! trimming, replacement, ASCII case mapping), and each executable function is proved
//! against them.

use vstd::prelude::*;

verus! {

/// Appends one character to a string.
///
/// Trusted: `String::push` from std, which vstd does not specify; its documentation says it
/// appends the given char to the end of the string.
#[verifier::external_body]
pub fn push_char(s: &mut String, c: char)
    ensures
        final(s)@ == old(s)@.push(c),
{
    s.push(c);
}

/// The characters of `s`, in order.
pub fn to_chars(s: &str) -> (v: Vec<char>)
    ensures
        v@ == s@,
{
    let mut v: Vec<char> = Vec::new();
    for c in it: s.chars()
        invariant
            v@ == it.seq().take(it.index()),
            it.seq() == s@,
    {
        v.push(c);
    }
    v
}

/// The string made of `v[from..to]`.
pub fn string_from_range(v: &Vec<char>, from: usize, to: usize) -> (s: String)
    requires
        from <= to <= v@.len(),
    ensures
        s@ == v@.subrange(from as int, to as int),
{
    let mut s = String::new();
    let mut i: usize = from;
    while i < to
        invariant
            from <= i <= to <= v@.len(),
            s@ == v@.subrange(from as int, i as int),
        decreases to - i,
    {
        push_char(&mut s, v[i]);
        i = i + 1;
    }
    s
}

/// The concatenation of `a` and `b`.
pub fn concat2(a: &str, b: &str) -> (s: String)
    ensures
        s@ == a@ + b@,
{
    String::from_str(a).concat(b)
}

/// The concatenation of `a`, `b` and `c`.
pub fn concat3(a: &str, b: &str, c: &str) -> (s: String)
    ensures
        s@ == a@ + b@ + c@,
{
    String::from_str(a).concat(b).concat(c)
}

/// The concatenation of `a`, `b`, `c` and `d`.
pub fn concat4(a: &str, b: &str, c: &str, d: &str) -> (s: String)
    ensures
        s@ == a@ + b@ + c@ + d@,
{
    String::from_str(a).concat(b).concat(c).concat(d)
}

/// A copy of `s`.
pub fn copy_str(s: &str) -> (r: String)
    ensures
        r@ == s@,
{
    String::from_str(s)
}

/// A copy of an optional string.
pub fn copy_opt(o: &Option<String>) -> (r: Option<String>)
    ensures
        opt_view(r) == opt_view(*o),
{
    match o {
        Some(s) => Some(copy_str(s.as_str())),
        None => None,
    }
}

/// The view of an optional string.
pub open spec fn opt_view(o: Option<String>) -> Option<Seq<char>> {
    match o {
        Some(s) => Some(s@),
        None => None,
    }
}

/// Whether `s` begins with `p`.
pub open spec fn has_prefix(s: Seq<char>, p: Seq<char>) -> bool {
    p.len() <= s.len() && s.take(p.len() as int) == p
}

/// Whether `s` ends with `p`.
pub open spec fn has_suffix(s: Seq<char>, p: Seq<char>) -> bool {
    p.len() <= s.len() && s.skip(s.len() - p.len()) == p
}

/// Whether `p` occurs in `s` at position `at`.
pub open spec fn occurs_at(s: Seq<char>, at: int, p: Seq<char>) -> bool {
    0 <= at && at + p.len() <= s.len() && s.subrange(at, at + p.len()) == p
}

/// Whether `p` occurs anywhere in `s`.
pub open spec fn contains(s: Seq<char>, p: Seq<char>) -> bool {
    exists|i: int| occurs_at(s, i, p)
}

/// `s` with every leading occurrence of `p` removed, as `str::trim_start_matches` does with a
/// string pattern (an empty pattern removes nothing).
pub open spec fn trim_start_matches(s: Seq<char>, p: Seq<char>) -> Seq<char>
    decreases s.len(),
{
    if p.len() > 0 && has_prefix(s, p) {
        trim_start_matches(s.skip(p.len() as int), p)
    } else {
        s
    }
}

/// `s` with every trailing occurrence of `p` removed, as `str::trim_end_matches` does with a
/// string pattern (an empty pattern removes nothing).
pub open spec fn trim_end_matches(s: Seq<char>, p: Seq<char>) -> Seq<char>
    decreases s.len(),
{
    if p.len() > 0 && has_suffix(s, p) {
        trim_end_matches(s.take(s.len() - p.len()), p)
    } else {
        s
    }
}

/// `s` with each non-overlapping occurrence of `from`, scanning from the left, replaced by
/// `to`, as `str::replace` does for a non-empty pattern.
pub open spec fn replace_all(s: Seq<char>, from: Seq<char>, to: Seq<char>) -> Seq<char>
    decreases s.len(),
{
    if from.len() == 0 || s.len() < from.len() {
        s
    } else if has_prefix(s, from) {
        to + replace_all(s.skip(from.len() as int), from, to)
    } else {
        seq![s[0]] + replace_all(s.skip(1), from, to)
    }
}

/// Whether `v[at..]` begins with `p`.
pub fn occurs_at_exec(v: &Vec<char>, at: usize, p: &Vec<char>) -> (b: bool)
    requires
        at <= v@.len(),
    ensures
        b == occurs_at(v@, at as int, p@),
{
    if p.len() > v.len() - at {
        return false;
    }
    let n = v.len();
    let mut j: usize = 0;
    while j < p.len()
        invariant
            n == v@.len(),
            at + p@.len() <= v@.len(),
            j <= p@.len(),
            forall|k: int| 0 <= k < j ==> v@[at + k] == p@[k],
        decreases p.len() - j,
    {
        if v[at + j] != p[j] {
            assert(v@.subrange(at as int, at + p@.len())[j as int] != p@[j as int]);
            return false;
        }
        j = j + 1;
    }
    assert(v@.subrange(at as int, at + p@.len()) =~= p@);
    true
}

/// Whether `s` begins with `p` (`str::starts_with`).
pub fn starts_with(s: &str, p: &str) -> (b: bool)
    ensures
        b == has_prefix(s@, p@),
{
    let v = to_chars(s);
    let pv = to_chars(p);
    let r = occurs_at_exec(&v, 0, &pv);
    proof {
        if r {
            assert(v@.take(pv@.len() as int) =~= v@.subrange(0, pv@.len() as int));
        } else if has_prefix(s@, p@) {
            assert(v@.take(pv@.len() as int) =~= v@.subrange(0, pv@.len() as int));
        }
    }
    r
}

/// Whether `s` ends with `p` (`str::ends_with`).
pub fn ends_with(s: &str, p: &str) -> (b: bool)
    ensures
        b == has_suffix(s@, p@),
{
    let v = to_chars(s);
    let pv = to_chars(p);
    if pv.len() > v.len() {
        return false;
    }
    let at = v.len() - pv.len();
    let r = occurs_at_exec(&v, at, &pv);
    proof {
        assert(v@.skip(at as int) =~= v@.subrange(at as int, v@.len() as int));
    }
    r
}

/// Whether `s` equals `t` character for character.
pub fn str_eq(s: &str, t: &str) -> (b: bool)
    ensures
        b == (s@ == t@),
{
    let v = to_chars(s);
    let w = to_chars(t);
    if v.len() != w.len() {
        return false;
    }
    let r = occurs_at_exec(&v, 0, &w);
    proof {
        assert(v@.subrange(0, w@.len() as int) =~= v@);
    }
    r
}


/// `str::trim_start_matches` with a string pattern.
pub fn trim_start_str(s: &str, p: &str) -> (r: String)
    ensures
        r@ == trim_start_matches(s@, p@),
{
    let v = to_chars(s);
    let pv = to_chars(p);
    let n = v.len();
    let mut i: usize = 0;
    assert(v@.skip(0) =~= v@);
    if pv.len() > 0 {
        while occurs_at_exec(&v, i, &pv)
            invariant
                n == v@.len(),
                i <= v@.len(),
                pv@.len() > 0,
                trim_start_matches(v@.skip(i as int), pv@) == trim_start_matches(v@, pv@),
            decreases v@.len() - i,
        {
            proof {
                let rest = v@.skip(i as int);
                assert(rest.take(pv@.len() as int) =~= v@.subrange(i as int, i + pv@.len()));
                assert(rest.skip(pv@.len() as int) =~= v@.skip(i + pv@.len()));
            }
            i = i + pv.len();
        }
        proof {
            let rest = v@.skip(i as int);
            if has_prefix(rest, pv@) {
                assert(rest.take(pv@.len() as int) =~= v@.subrange(i as int, i + pv@.len()));
            }
        }
    } else {
        assert(v@.skip(0) =~= v@);
    }
    let r = string_from_range(&v, i, v.len());
    assert(v@.subrange(i as int, v@.len() as int) =~= v@.skip(i as int));
    r
}

/// `str::trim_end_matches` with a string pattern.
pub fn trim_end_str(s: &str, p: &str) -> (r: String)
    ensures
        r@ == trim_end_matches(s@, p@),
{
    let v = to_chars(s);
    let pv = to_chars(p);
    let mut e: usize = v.len();
    assert(v@.take(v@.len() as int) =~= v@);
    if pv.len() > 0 {
        while pv.len() <= e && occurs_at_exec(&v, e - pv.len(), &pv)
            invariant
                e <= v@.len(),
                pv@.len() > 0,
                trim_end_matches(v@.take(e as int), pv@) == trim_end_matches(v@, pv@),
            decreases e,
        {
            proof {
                let rest = v@.take(e as int);
                assert(rest.skip(rest.len() - pv@.len()) =~= v@.subrange(e - pv@.len(), e as int));
                assert(rest.take(rest.len() - pv@.len()) =~= v@.take(e - pv@.len()));
            }
            e = e - pv.len();
        }
        proof {
            let rest = v@.take(e as int);
            if has_suffix(rest, pv@) {
                assert(rest.skip(rest.len() - pv@.len()) =~= v@.subrange(e - pv@.len(), e as int));
            }
        }
    } else {
        assert(v@.take(v@.len() as int) =~= v@);
    }
    let r = string_from_range(&v, 0, e);
    assert(v@.subrange(0, e as int) =~= v@.take(e as int));
    r
}

/// `str::replace` with a non-empty string pattern.
pub fn replace_str(s: &str, from: &str, to: &str) -> (r: String)
    requires
        from@.len() > 0,
    ensures
        r@ == replace_all(s@, from@, to@),
{
    let v = to_chars(s);
    let fv = to_chars(from);
    let mut out = String::new();
    let mut i: usize = 0;
    assert(v@.skip(0) =~= v@);
    while i < v.len()
        invariant
            i <= v@.len(),
            fv@ == from@,
            fv@.len() > 0,
            out@ + replace_all(v@.skip(i as int), fv@, to@) == replace_all(v@, fv@, to@),
        decreases v@.len() - i,
    {
        let rest = Ghost(v@.skip(i as int));
        if fv.len() <= v.len() - i && occurs_at_exec(&v, i, &fv) {
            proof {
                assert(rest@.take(fv@.len() as int) =~= v@.subrange(i as int, i + fv@.len()));
                assert(rest@.skip(fv@.len() as int) =~= v@.skip(i + fv@.len()));
            }
            out.append(to);
            i = i + fv.len();
        } else {
            proof {
                if fv@.len() <= rest@.len() && has_prefix(rest@, fv@) {
                    assert(rest@.take(fv@.len() as int) =~= v@.subrange(i as int, i + fv@.len()));
                }
                assert(rest@.skip(1) =~= v@.skip(i + 1));
                if rest@.len() < fv@.len() {
                    assert(replace_all(rest@, fv@, to@) == rest@);
                    lemma_replace_short(rest@.skip(1), fv@, to@);
                    assert(rest@ =~= seq![rest@[0]] + rest@.skip(1));
                }
            }
            push_char(&mut out, v[i]);
            i = i + 1;
        }
    }
    proof {
        assert(v@.skip(i as int) =~= Seq::<char>::empty());
    }
    out
}

/// A string shorter than the pattern is left unchanged by replacement.
pub proof fn lemma_replace_short(s: Seq<char>, from: Seq<char>, to: Seq<char>)
    requires
        s.len() < from.len(),
    ensures
        replace_all(s, from, to) == s,
{
}

/// Replacement leaves a string without occurrences of the pattern unchanged.
pub proof fn lemma_replace_absent(s: Seq<char>, from: Seq<char>, to: Seq<char>)
    requires
        !contains(s, from),
    ensures
        replace_all(s, from, to) == s,
    decreases s.len(),
{
    if from.len() == 0 || s.len() < from.len() {
    } else {
        if has_prefix(s, from) {
            assert(s.subrange(0, from.len() as int) =~= s.take(from.len() as int));
            assert(occurs_at(s, 0, from));
        }
        assert forall|i: int| !occurs_at(s.skip(1), i, from) by {
            if occurs_at(s.skip(1), i, from) {
                assert(s.skip(1).subrange(i, i + from.len()) =~= s.subrange(i + 1, i + 1 + from.len()));
                assert(occurs_at(s, i + 1, from));
            }
        }
        lemma_replace_absent(s.skip(1), from, to);
        assert(s =~= seq![s[0]] + s.skip(1));
    }
}

/// Whether `p` occurs in `s` (`str::contains` with a string pattern).
pub fn contains_str(s: &str, p: &str) -> (b: bool)
    ensures
        b == contains(s@, p@),
{
    let v = to_chars(s);
    let pv = to_chars(p);
    let mut i: usize = 0;
    while i < v.len()
        invariant
            i <= v@.len(),
            v@ == s@,
            pv@ == p@,
            forall|k: int| 0 <= k < i ==> !occurs_at(v@, k, pv@),
        decreases v@.len() - i,
    {
        if occurs_at_exec(&v, i, &pv) {
            assert(occurs_at(s@, i as int, p@));
            return true;
        }
        i = i + 1;
    }
    let r = occurs_at_exec(&v, i, &pv);
    proof {
        assert forall|k: int| !occurs_at(v@, k, pv@) || k == i by {
            if occurs_at(v@, k, pv@) && k > i {
                assert(false);
            }
        }
    }
    r
}

/// Whether `c` is an ASCII letter or digit (`char::is_ascii_alphanumeric`).
pub open spec fn is_ascii_alnum(c: char) -> bool {
    ('0' <= c && c <= '9') || ('a' <= c && c <= 'z') || ('A' <= c && c <= 'Z')
}

/// `c` with an ASCII capital letter mapped to its small letter.
pub open spec fn ascii_lower(c: char) -> char {
    if 'A' <= c && c <= 'Z' {
        ((c as u32) + 32) as char
    } else {
        c
    }
}

/// `c` with an ASCII small letter mapped to its capital letter.
pub open spec fn ascii_upper(c: char) -> char {
    if 'a' <= c && c <= 'z' {
        ((c as u32) - 32) as char
    } else {
        c
    }
}

/// `char::to_ascii_lowercase`.
pub fn lower_char(c: char) -> (r: char)
    ensures
        r == ascii_lower(c),
{
    if 'A' <= c && c <= 'Z' {
        ((c as u8) + 32) as char
    } else {
        c
    }
}

/// `char::to_ascii_uppercase`.
pub fn upper_char(c: char) -> (r: char)
    ensures
        r == ascii_upper(c),
{
    if 'a' <= c && c <= 'z' {
        ((c as u8) - 32) as char
    } else {
        c
    }
}

/// `char::is_ascii_alphanumeric`.
pub fn is_alnum_char(c: char) -> (b: bool)
    ensures
        b == is_ascii_alnum(c),
{
    ('0' <= c && c <= '9') || ('a' <= c && c <= 'z') || ('A' <= c && c <= 'Z')
}

/// `str::to_ascii_uppercase`.
pub fn to_ascii_uppercase(s: &str) -> (r: String)
    ensures
        r@ == s@.map_values(|c: char| ascii_upper(c)),
{
    let v = to_chars(s);
    let mut out = String::new();
    let mut i: usize = 0;
    while i < v.len()
        invariant
            i <= v@.len(),
            v@ == s@,
            out@ == v@.take(i as int).map_values(|c: char| ascii_upper(c)),
        decreases v@.len() - i,
    {
        let u = upper_char(v[i]);
        push_char(&mut out, u);
        proof {
            assert(v@.take(i + 1).map_values(|c: char| ascii_upper(c))
                =~= v@.take(i as int).map_values(|c: char| ascii_upper(c)).push(u));
        }
        i = i + 1;
    }
    assert(v@.take(i as int) =~= v@);
    out
}

} // verus!
