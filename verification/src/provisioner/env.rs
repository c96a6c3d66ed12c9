//! Rendering a tenant's `.env` file from the upstream example.

use vstd::prelude::*;
use crate::text::{concat2, concat3, has_prefix, occurs_at_exec, push_char, string_from_range, to_chars};

verus! {

/// The index of the first newline in `s`, or `s.len()` when there is none.
pub open spec fn first_newline(s: Seq<char>) -> int
    decreases s.len(),
{
    if s.len() == 0 {
        0
    } else if s[0] == '\n' {
        0
    } else {
        1 + first_newline(s.skip(1))
    }
}

/// `first_newline` is the first index that holds a newline, or the length.
pub proof fn lemma_first_newline(s: Seq<char>, k: int)
    requires
        0 <= k <= s.len(),
        forall|j: int| 0 <= j < k ==> s[j] != '\n',
        k == s.len() || s[k] == '\n',
    ensures
        first_newline(s) == k,
    decreases k,
{
    if k > 0 {
        assert(s[0] != '\n');
        lemma_first_newline(s.skip(1), k - 1);
    }
}

/// `first_newline` never exceeds the length.
pub proof fn lemma_first_newline_bound(s: Seq<char>)
    ensures
        0 <= first_newline(s) <= s.len(),
    decreases s.len(),
{
    if s.len() > 0 && s[0] != '\n' {
        lemma_first_newline_bound(s.skip(1));
    }
}

/// A line without the carriage return that ended it.
pub open spec fn strip_cr(l: Seq<char>) -> Seq<char> {
    if l.len() > 0 && l.last() == '\r' {
        l.drop_last()
    } else {
        l
    }
}

/// The lines of `s`, as `str::lines` gives them: split at each `\n`, a `\r` just before a
/// `\n` dropped, and no empty line after a final `\n`.
pub open spec fn str_lines(s: Seq<char>) -> Seq<Seq<char>>
    decreases s.len(),
{
    if s.len() == 0 {
        seq![]
    } else {
        let i = first_newline(s);
        proof {
            lemma_first_newline_bound(s);
        }
        if i >= s.len() {
            seq![s]
        } else {
            seq![strip_cr(s.take(i))] + str_lines(s.skip(i + 1))
        }
    }
}

/// How one line comes out of `set_env`: a line that assigns `key` is replaced by
/// `key=value`; every line ends with `\n`.
pub open spec fn env_line(l: Seq<char>, key: Seq<char>, value: Seq<char>) -> Seq<char> {
    if has_prefix(l, key + "="@) {
        key + "="@ + value + seq!['\n']
    } else {
        l + seq!['\n']
    }
}

/// The lines rendered one after the other.
pub open spec fn render_lines(ls: Seq<Seq<char>>, key: Seq<char>, value: Seq<char>) -> Seq<char>
    decreases ls.len(),
{
    if ls.len() == 0 {
        seq![]
    } else {
        render_lines(ls.drop_last(), key, value) + env_line(ls.last(), key, value)
    }
}

/// Whether one of the lines assigns `key`.
pub open spec fn assigns_key(ls: Seq<Seq<char>>, key: Seq<char>) -> bool {
    exists|i: int| 0 <= i < ls.len() && has_prefix(#[trigger] ls[i], key + "="@)
}

/// `content` with `key` set to `value`: every line that assigns `key` is replaced, the
/// other lines are kept in order, and `key=value` is appended when no line assigned `key`.
pub open spec fn set_env_of(content: Seq<char>, key: Seq<char>, value: Seq<char>) -> Seq<char> {
    let ls = str_lines(content);
    render_lines(ls, key, value) + if assigns_key(ls, key) {
        Seq::<char>::empty()
    } else {
        key + "="@ + value + seq!['\n']
    }
}

/// Whether `s` holds no newline.
pub open spec fn no_newline(s: Seq<char>) -> bool {
    forall|j: int| 0 <= j < s.len() ==> s[j] != '\n'
}

/// The lines that `set_env` writes for the input lines `ls`, as they read back: a line that
/// assigns `key` becomes `key=value`, any other line stays, each without a carriage return
/// before its line break.
pub open spec fn set_lines(ls: Seq<Seq<char>>, key: Seq<char>, value: Seq<char>) -> Seq<Seq<char>> {
    ls.map_values(|l: Seq<char>| strip_cr(if has_prefix(l, key + "="@) { key + "="@ + value } else { l }))
}

/// No index before `first_newline` holds a newline.
proof fn lemma_first_newline_prefix(s: Seq<char>)
    ensures
        forall|j: int| 0 <= j < first_newline(s) ==> s[j] != '\n',
    decreases s.len(),
{
    if s.len() > 0 && s[0] != '\n' {
        lemma_first_newline_bound(s);
        lemma_first_newline_prefix(s.skip(1));
        assert forall|j: int| 0 <= j < first_newline(s) implies s[j] != '\n' by {
            if j > 0 {
                assert(s[j] == s.skip(1)[j - 1]);
            }
        }
    }
}

/// The lines of a text hold no newline.
proof fn lemma_lines_no_newline(s: Seq<char>)
    ensures
        forall|i: int| 0 <= i < str_lines(s).len() ==> no_newline(#[trigger] str_lines(s)[i]),
    decreases s.len(),
{
    if s.len() > 0 {
        let i = first_newline(s);
        lemma_first_newline_bound(s);
        lemma_first_newline_prefix(s);
        if i < s.len() {
            lemma_lines_no_newline(s.skip(i + 1));
            let x = s.take(i);
            assert(no_newline(strip_cr(x))) by {
                assert forall|j: int| 0 <= j < strip_cr(x).len() implies strip_cr(x)[j] != '\n' by {
                    assert(strip_cr(x)[j] == x[j]);
                }
            }
            assert forall|k: int| 0 <= k < str_lines(s).len() implies no_newline(#[trigger] str_lines(s)[k]) by {
                if k > 0 {
                    assert(str_lines(s)[k] == str_lines(s.skip(i + 1))[k - 1]);
                }
            }
        }
    }
}

/// A line followed by a line break starts the lines of a text.
proof fn lemma_lines_cons(x: Seq<char>, rest: Seq<char>)
    requires
        no_newline(x),
    ensures
        str_lines(x + seq!['\n'] + rest) == seq![strip_cr(x)] + str_lines(rest),
{
    let s = x + seq!['\n'] + rest;
    lemma_first_newline(s, x.len() as int);
    assert(s.take(x.len() as int) =~= x);
    assert(s.skip(x.len() as int + 1) =~= rest);
}

/// `render_lines` read from the front.
proof fn lemma_render_lines_front(ls: Seq<Seq<char>>, key: Seq<char>, value: Seq<char>)
    requires
        ls.len() > 0,
    ensures
        render_lines(ls, key, value) == env_line(ls[0], key, value) + render_lines(ls.skip(1), key, value),
    decreases ls.len(),
{
    if ls.len() == 1 {
        assert(ls.drop_last() =~= Seq::<Seq<char>>::empty());
        assert(ls.skip(1) =~= Seq::<Seq<char>>::empty());
        assert(render_lines(ls.drop_last(), key, value) == Seq::<char>::empty());
        assert(render_lines(ls.skip(1), key, value) == Seq::<char>::empty());
        assert(ls.last() == ls[0]);
        assert(render_lines(ls, key, value) =~= env_line(ls[0], key, value) + render_lines(ls.skip(1), key, value));
    } else {
        lemma_render_lines_front(ls.drop_last(), key, value);
        assert(ls.drop_last().skip(1) =~= ls.skip(1).drop_last());
        assert(ls.drop_last()[0] == ls[0]);
        assert(ls.skip(1).last() == ls.last());
        assert(render_lines(ls, key, value) =~= env_line(ls[0], key, value) + render_lines(ls.skip(1), key, value));
    }
}

/// Reading back what `render_lines` wrote, followed by `tail`.
proof fn lemma_render_lines_read(ls: Seq<Seq<char>>, key: Seq<char>, value: Seq<char>, tail: Seq<char>)
    requires
        forall|i: int| 0 <= i < ls.len() ==> no_newline(#[trigger] ls[i]),
        no_newline(key),
        no_newline(value),
    ensures
        str_lines(render_lines(ls, key, value) + tail) == set_lines(ls, key, value) + str_lines(tail),
    decreases ls.len(),
{
    reveal_strlit("=");
    if ls.len() == 0 {
        assert(render_lines(ls, key, value) + tail =~= tail);
        assert(set_lines(ls, key, value) + str_lines(tail) =~= str_lines(tail));
    } else {
        let rest = ls.skip(1);
        lemma_render_lines_front(ls, key, value);
        assert forall|i: int| 0 <= i < rest.len() implies no_newline(#[trigger] rest[i]) by {
            assert(rest[i] == ls[i + 1]);
        }
        lemma_render_lines_read(rest, key, value, tail);
        let l = ls[0];
        assert(no_newline(l));
        let content = if has_prefix(l, key + "="@) { key + "="@ + value } else { l };
        assert(no_newline(content)) by {
            if has_prefix(l, key + "="@) {
                assert forall|j: int| 0 <= j < content.len() implies content[j] != '\n' by {
                    if j < key.len() {
                        assert(content[j] == key[j]);
                    } else if j > key.len() {
                        assert(content[j] == value[j - key.len() - 1]);
                    }
                }
            }
        }
        assert(env_line(l, key, value) =~= content + seq!['\n']);
        lemma_lines_cons(content, render_lines(rest, key, value) + tail);
        assert(render_lines(ls, key, value) + tail =~= content + seq!['\n'] + (render_lines(rest, key, value) + tail));
        assert(set_lines(ls, key, value) =~= seq![strip_cr(content)] + set_lines(rest, key, value));
        assert(set_lines(ls, key, value) + str_lines(tail) =~= seq![strip_cr(content)] + (set_lines(rest, key, value) + str_lines(tail)));
    }
}

/// Setting a key and reading the file back: among the lines of `set_env`'s result the key
/// is assigned, and every line that assigns it assigns exactly the new value. This holds for
/// keys and values without line breaks whose value does not end in a carriage return (a
/// trailing carriage return is read as part of the line break).
pub proof fn law_set_env_then_read(content: Seq<char>, key: Seq<char>, value: Seq<char>)
    requires
        no_newline(key),
        no_newline(value),
        !(value.len() > 0 && value.last() == '\r'),
    ensures
        ({
            let ls = str_lines(set_env_of(content, key, value));
            &&& exists|i: int| 0 <= i < ls.len() && ls[i] == key + "="@ + value
            &&& forall|i: int| 0 <= i < ls.len() && has_prefix(#[trigger] ls[i], key + "="@) ==> ls[i] == key + "="@ + value
        }),
{
    reveal_strlit("=");
    let ls0 = str_lines(content);
    let kv = key + "="@ + value;
    let assigned = assigns_key(ls0, key);
    let tail = if assigned { Seq::<char>::empty() } else { kv + seq!['\n'] };
    lemma_lines_no_newline(content);
    lemma_render_lines_read(ls0, key, value, tail);
    assert(no_newline(kv)) by {
        assert forall|j: int| 0 <= j < kv.len() implies kv[j] != '\n' by {
            if j < key.len() {
                assert(kv[j] == key[j]);
            } else if j > key.len() {
                assert(kv[j] == value[j - key.len() - 1]);
            }
        }
    }
    assert(strip_cr(kv) == kv) by {
        if value.len() > 0 {
            assert(kv.last() == value.last());
        } else {
            assert(kv.last() == '=');
        }
    }
    let tail_lines = if assigned { Seq::<Seq<char>>::empty() } else { seq![kv] };
    assert(str_lines(tail) == tail_lines) by {
        if !assigned {
            lemma_lines_cons(kv, Seq::<char>::empty());
            assert(kv + seq!['\n'] + Seq::<char>::empty() =~= tail);
        }
    }
    let out = set_lines(ls0, key, value) + tail_lines;
    assert(str_lines(set_env_of(content, key, value)) == out);
    let sl = set_lines(ls0, key, value);
    if assigned {
        let i0 = choose|i: int| 0 <= i < ls0.len() && has_prefix(#[trigger] ls0[i], key + "="@);
        assert(out[i0] == sl[i0]);
        assert(out[i0] == kv);
    } else {
        assert(out[sl.len() as int] == kv);
    }
    assert forall|i: int| 0 <= i < out.len() && has_prefix(#[trigger] out[i], key + "="@) implies out[i] == kv by {
        if i < sl.len() {
            assert(out[i] == sl[i]);
            let l = ls0[i];
            if !has_prefix(l, key + "="@) {
                let p = key + "="@;
                assert(sl[i] == strip_cr(l));
                assert(strip_cr(l).len() <= l.len());
                assert(strip_cr(l).take(p.len() as int) =~= l.take(p.len() as int));
                assert(false);
            }
        } else {
            assert(out[i] == tail_lines[i - sl.len()]);
        }
    }
}

/// Whether `s` holds no carriage return.
pub open spec fn no_cr(s: Seq<char>) -> bool {
    forall|j: int| 0 <= j < s.len() ==> s[j] != '\r'
}

/// The lines of a text without carriage returns hold none.
proof fn lemma_lines_no_cr(s: Seq<char>)
    requires
        no_cr(s),
    ensures
        forall|i: int| 0 <= i < str_lines(s).len() ==> no_cr(#[trigger] str_lines(s)[i]),
    decreases s.len(),
{
    if s.len() > 0 {
        let i = first_newline(s);
        lemma_first_newline_bound(s);
        if i < s.len() {
            let rest = s.skip(i + 1);
            assert(no_cr(rest)) by {
                assert forall|j: int| 0 <= j < rest.len() implies #[trigger] rest[j] != '\r' by {
                    assert(rest[j] == s[i + 1 + j]);
                }
            }
            lemma_lines_no_cr(s.skip(i + 1));
            let x = s.take(i);
            assert(no_cr(strip_cr(x))) by {
                assert forall|j: int| 0 <= j < strip_cr(x).len() implies strip_cr(x)[j] != '\r' by {
                    assert(strip_cr(x)[j] == s[j]);
                }
            }
            assert forall|k: int| 0 <= k < str_lines(s).len() implies no_cr(#[trigger] str_lines(s)[k]) by {
                if k > 0 {
                    assert(str_lines(s)[k] == str_lines(s.skip(i + 1))[k - 1]);
                }
            }
        }
    }
}

/// `render_lines` of two runs of lines is the rendering of each, one after the other.
proof fn lemma_render_lines_concat(a: Seq<Seq<char>>, b: Seq<Seq<char>>, key: Seq<char>, value: Seq<char>)
    ensures
        render_lines(a + b, key, value) == render_lines(a, key, value) + render_lines(b, key, value),
    decreases b.len(),
{
    if b.len() == 0 {
        assert(a + b =~= a);
        assert(render_lines(a, key, value) + render_lines(b, key, value) =~= render_lines(a, key, value));
    } else {
        lemma_render_lines_concat(a, b.drop_last(), key, value);
        assert((a + b).drop_last() =~= a + b.drop_last());
        assert((a + b).last() == b.last());
        assert(render_lines(a + b, key, value) =~= render_lines(a, key, value) + render_lines(b, key, value));
    }
}

/// Two runs of lines that render alike line by line render alike.
proof fn lemma_render_lines_pointwise(a: Seq<Seq<char>>, b: Seq<Seq<char>>, key: Seq<char>, value: Seq<char>)
    requires
        a.len() == b.len(),
        forall|i: int| 0 <= i < a.len() ==> env_line(#[trigger] a[i], key, value) == env_line(b[i], key, value),
    ensures
        render_lines(a, key, value) == render_lines(b, key, value),
    decreases a.len(),
{
    if a.len() > 0 {
        assert forall|i: int| 0 <= i < a.drop_last().len() implies env_line(#[trigger] a.drop_last()[i], key, value)
            == env_line(b.drop_last()[i], key, value) by {
            assert(a.drop_last()[i] == a[i] && b.drop_last()[i] == b[i]);
        }
        lemma_render_lines_pointwise(a.drop_last(), b.drop_last(), key, value);
        assert(env_line(a.last(), key, value) == env_line(b.last(), key, value)) by {
            assert(a.last() == a[a.len() - 1] && b.last() == b[b.len() - 1]);
        }
    }
}

/// Setting a key twice is setting it to the second value: the last write wins (and setting
/// the same value twice changes nothing more). This holds for texts without carriage
/// returns and keys and values without line breaks or carriage returns.
pub proof fn law_set_env_last_write_wins(content: Seq<char>, key: Seq<char>, v1: Seq<char>, v2: Seq<char>)
    requires
        no_cr(content),
        no_newline(key),
        no_newline(v1),
        no_newline(v2),
        no_cr(v1),
    ensures
        set_env_of(set_env_of(content, key, v1), key, v2) == set_env_of(content, key, v2),
{
    reveal_strlit("=");
    let ls = str_lines(content);
    let kv1 = key + "="@ + v1;
    let p = key + "="@;
    let assigned = assigns_key(ls, key);
    let tail1 = if assigned { Seq::<char>::empty() } else { kv1 + seq!['\n'] };
    let s1 = set_env_of(content, key, v1);
    assert(s1 == render_lines(ls, key, v1) + tail1);
    lemma_lines_no_newline(content);
    lemma_lines_no_cr(content);
    lemma_render_lines_read(ls, key, v1, tail1);
    assert(no_newline(kv1)) by {
        assert forall|j: int| 0 <= j < kv1.len() implies kv1[j] != '\n' by {
            if j < key.len() {
                assert(kv1[j] == key[j]);
            } else if j > key.len() {
                assert(kv1[j] == v1[j - key.len() - 1]);
            }
        }
    }
    assert(strip_cr(kv1) == kv1) by {
        if v1.len() > 0 {
            assert(kv1.last() == v1[v1.len() - 1]);
        } else {
            assert(kv1.last() == '=');
        }
    }
    assert(has_prefix(kv1, p)) by {
        assert(kv1.take(p.len() as int) =~= p);
    }
    let sl = set_lines(ls, key, v1);
    let tail_lines = if assigned { Seq::<Seq<char>>::empty() } else { seq![kv1] };
    assert(str_lines(tail1) == tail_lines) by {
        if !assigned {
            lemma_lines_cons(kv1, Seq::<char>::empty());
            assert(kv1 + seq!['\n'] + Seq::<char>::empty() =~= tail1);
        }
    }
    let ls1 = sl + tail_lines;
    assert(str_lines(s1) == ls1);
    // every line of `sl` renders with the second value as the input line does
    assert forall|i: int| 0 <= i < sl.len() implies env_line(#[trigger] sl[i], key, v2) == env_line(ls[i], key, v2) by {
        let l = ls[i];
        assert(no_cr(l));
        if has_prefix(l, p) {
            assert(sl[i] == kv1);
        } else {
            assert(strip_cr(l) == l) by {
                if l.len() > 0 {
                    assert(l.last() == l[l.len() - 1]);
                }
            }
            assert(sl[i] == l);
        }
    }
    lemma_render_lines_pointwise(sl, ls, key, v2);
    lemma_render_lines_concat(sl, tail_lines, key, v2);
    // the key is assigned after the first write
    assert(assigns_key(ls1, key)) by {
        if assigned {
            let i0 = choose|i: int| 0 <= i < ls.len() && has_prefix(#[trigger] ls[i], key + "="@);
            assert(ls1[i0] == sl[i0]);
            assert(sl[i0] == strip_cr(kv1));
        } else {
            assert(ls1[sl.len() as int] == kv1);
        }
    }
    if !assigned {
        assert(tail_lines.drop_last() =~= Seq::<Seq<char>>::empty());
        assert(render_lines(tail_lines.drop_last(), key, v2) == Seq::<char>::empty());
        assert(tail_lines.last() == kv1);
        assert(render_lines(tail_lines, key, v2) =~= env_line(kv1, key, v2));
    }
    assert(set_env_of(s1, key, v2) == render_lines(ls1, key, v2));
    assert(set_env_of(s1, key, v2) =~= set_env_of(content, key, v2));
}

/// Whether `s` holds no `=`.
pub open spec fn no_equals(s: Seq<char>) -> bool {
    forall|j: int| 0 <= j < s.len() ==> s[j] != '='
}

/// Whether, among the lines of `text`, `key` is assigned and every line that assigns it
/// assigns `value`.
pub open spec fn reads_back(text: Seq<char>, key: Seq<char>, value: Seq<char>) -> bool {
    let ls = str_lines(text);
    &&& exists|i: int| 0 <= i < ls.len() && ls[i] == key + "="@ + value
    &&& forall|i: int| 0 <= i < ls.len() && has_prefix(#[trigger] ls[i], key + "="@) ==> ls[i] == key + "="@ + value
}

/// An assignment of one key never assigns another, for keys without `=`.
proof fn lemma_other_key(k1: Seq<char>, k: Seq<char>, v: Seq<char>)
    requires
        no_equals(k1),
        no_equals(k),
        k1 != k,
    ensures
        !has_prefix(k + "="@ + v, k1 + "="@),
{
    reveal_strlit("=");
    let kv = k + "="@ + v;
    let p = k1 + "="@;
    if has_prefix(kv, p) {
        assert(kv.take(p.len() as int) == p);
        if k.len() == k1.len() {
            assert forall|j: int| 0 <= j < k.len() implies k[j] == k1[j] by {
                assert(kv.take(p.len() as int)[j] == kv[j]);
                assert(p[j] == k1[j]);
            }
            assert(k =~= k1);
        } else if k.len() < k1.len() {
            let j = k.len() as int;
            assert(kv.take(p.len() as int)[j] == kv[j]);
            assert(kv[j] == '=');
            assert(p[j] == k1[j]);
        } else {
            let j = k1.len() as int;
            assert(kv.take(p.len() as int)[j] == kv[j]);
            assert(kv[j] == k[j]);
            assert(p[j] == '=');
        }
    }
}

/// A line whose carriage return was dropped assigns a key only if the line did.
proof fn lemma_strip_cr_prefix(x: Seq<char>, p: Seq<char>)
    requires
        has_prefix(strip_cr(x), p),
    ensures
        has_prefix(x, p),
{
    assert(strip_cr(x).take(p.len() as int) =~= x.take(p.len() as int));
}

/// Setting one key leaves what another key reads back as it was (keys without `=`).
pub proof fn lemma_set_env_keeps_other(text: Seq<char>, k1: Seq<char>, v1: Seq<char>, key: Seq<char>, value: Seq<char>)
    requires
        reads_back(text, k1, v1),
        no_equals(k1),
        no_equals(key),
        k1 != key,
        no_newline(key),
        no_newline(value),
        !(v1.len() > 0 && v1.last() == '\r'),
    ensures
        reads_back(set_env_of(text, key, value), k1, v1),
{
    reveal_strlit("=");
    let ls = str_lines(text);
    let kv = key + "="@ + value;
    let kv1 = k1 + "="@ + v1;
    let p1 = k1 + "="@;
    let assigned = assigns_key(ls, key);
    let tail = if assigned { Seq::<char>::empty() } else { kv + seq!['\n'] };
    lemma_lines_no_newline(text);
    lemma_render_lines_read(ls, key, value, tail);
    assert(no_newline(kv)) by {
        assert forall|j: int| 0 <= j < kv.len() implies kv[j] != '\n' by {
            if j < key.len() {
                assert(kv[j] == key[j]);
            } else if j > key.len() {
                assert(kv[j] == value[j - key.len() - 1]);
            }
        }
    }
    let tail_lines = if assigned { Seq::<Seq<char>>::empty() } else { seq![strip_cr(kv)] };
    assert(str_lines(tail) == tail_lines) by {
        if !assigned {
            lemma_lines_cons(kv, Seq::<char>::empty());
            assert(kv + seq!['\n'] + Seq::<char>::empty() =~= tail);
        }
    }
    let sl = set_lines(ls, key, value);
    let out = sl + tail_lines;
    assert(str_lines(set_env_of(text, key, value)) == out);
    lemma_other_key(k1, key, value);
    lemma_other_key(key, k1, v1);
    assert(strip_cr(kv1) == kv1) by {
        if v1.len() > 0 {
            assert(kv1.last() == v1[v1.len() - 1]);
        } else {
            assert(kv1.last() == '=');
        }
    }
    let i0 = choose|i: int| 0 <= i < ls.len() && ls[i] == kv1;
    assert(out[i0] == sl[i0]);
    assert(out[i0] == kv1);
    assert forall|i: int| 0 <= i < out.len() && has_prefix(#[trigger] out[i], p1) implies out[i] == kv1 by {
        if i < sl.len() {
            let l = ls[i];
            assert(out[i] == sl[i]);
            if has_prefix(l, key + "="@) {
                lemma_strip_cr_prefix(kv, p1);
            } else {
                lemma_strip_cr_prefix(l, p1);
                assert(l == kv1);
            }
        } else {
            assert(out[i] == strip_cr(kv));
            lemma_strip_cr_prefix(kv, p1);
        }
    }
}

/// Sets `key` to `value` in the dotenv-style `content` (see `set_env_of`).
pub fn set_env(content: &str, key: &str, value: &str) -> (out: String)
    ensures
        out@ == set_env_of(content@, key@, value@),
{
    let v = to_chars(content);
    let n = v.len();
    let prefix = concat2(key, "=");
    let pv = to_chars(prefix.as_str());
    let mut assignment = concat3(key, "=", value);
    push_char(&mut assignment, '\n');
    let mut out = String::new();
    let mut replaced = false;
    let mut start: usize = 0;
    let mut i: usize = 0;
    let ghost mut done: Seq<Seq<char>> = seq![];
    assert(v@.skip(0) =~= v@);
    while i < n
        invariant
            n == v@.len(),
            v@ == content@,
            pv@ == key@ + "="@,
            assignment@ == key@ + "="@ + value@ + seq!['\n'],
            start <= i <= n,
            forall|j: int| start <= j < i ==> v@[j] != '\n',
            str_lines(v@) == done + str_lines(v@.skip(start as int)),
            out@ == render_lines(done, key@, value@),
            replaced == assigns_key(done, key@),
        decreases n - i,
    {
        if v[i] == '\n' {
            let end: usize = if i > start && v[i - 1] == '\r' { i - 1 } else { i };
            let ghost line = v@.subrange(start as int, end as int);
            proof {
                let s = v@.skip(start as int);
                lemma_first_newline(s, i - start);
                assert(s.take(i - start) =~= v@.subrange(start as int, i as int));
                assert(strip_cr(s.take(i - start)) =~= line);
                assert(s.skip(i - start + 1) =~= v@.skip(i + 1));
                assert(str_lines(s) == seq![line] + str_lines(v@.skip(i + 1)));
            }
            let matched = pv.len() <= end - start && occurs_at_exec(&v, start, &pv);
            proof {
                assert(has_prefix(line, key@ + "="@) == matched) by {
                    if pv@.len() <= end - start {
                        assert(line.take(pv@.len() as int) =~= v@.subrange(start as int, start + pv@.len()));
                    }
                }
            }
            if matched {
                out.append(assignment.as_str());
                replaced = true;
            } else {
                let l = string_from_range(&v, start, end);
                out.append(l.as_str());
                push_char(&mut out, '\n');
            }
            proof {
                let old_done = done;
                done = done.push(line);
                assert(done.drop_last() =~= old_done);
                assert(done + str_lines(v@.skip(i + 1)) =~= old_done + (seq![line] + str_lines(v@.skip(i + 1))));
                assert(assigns_key(done, key@) == (assigns_key(old_done, key@) || has_prefix(line, key@ + "="@))) by {
                    if has_prefix(line, key@ + "="@) {
                        assert(has_prefix(done[old_done.len() as int], key@ + "="@));
                    }
                    if assigns_key(done, key@) && !has_prefix(line, key@ + "="@) {
                        let k = choose|k: int| 0 <= k < done.len() && has_prefix(#[trigger] done[k], key@ + "="@);
                        assert(k < old_done.len());
                        assert(old_done[k] == done[k]);
                    }
                    if assigns_key(old_done, key@) {
                        let k = choose|k: int| 0 <= k < old_done.len() && has_prefix(#[trigger] old_done[k], key@ + "="@);
                        assert(done[k] == old_done[k]);
                    }
                }
            }
            start = i + 1;
        }
        i = i + 1;
    }
    if start < n {
        let ghost line = v@.subrange(start as int, n as int);
        proof {
            let s = v@.skip(start as int);
            lemma_first_newline(s, n - start);
            assert(s =~= line);
            assert(str_lines(s) == seq![line]);
        }
        let matched = pv.len() <= n - start && occurs_at_exec(&v, start, &pv);
        proof {
            assert(has_prefix(line, key@ + "="@) == matched) by {
                if pv@.len() <= n - start {
                    assert(line.take(pv@.len() as int) =~= v@.subrange(start as int, start + pv@.len()));
                }
            }
        }
        if matched {
            out.append(assignment.as_str());
            replaced = true;
        } else {
            let l = string_from_range(&v, start, n);
            out.append(l.as_str());
            push_char(&mut out, '\n');
        }
        proof {
            let old_done = done;
            done = done.push(line);
            assert(done.drop_last() =~= old_done);
            assert(assigns_key(done, key@) == (assigns_key(old_done, key@) || has_prefix(line, key@ + "="@))) by {
                if has_prefix(line, key@ + "="@) {
                    assert(has_prefix(done[old_done.len() as int], key@ + "="@));
                }
                if assigns_key(done, key@) && !has_prefix(line, key@ + "="@) {
                    let k = choose|k: int| 0 <= k < done.len() && has_prefix(#[trigger] done[k], key@ + "="@);
                    assert(k < old_done.len());
                    assert(old_done[k] == done[k]);
                }
                if assigns_key(old_done, key@) {
                    let k = choose|k: int| 0 <= k < old_done.len() && has_prefix(#[trigger] old_done[k], key@ + "="@);
                    assert(done[k] == old_done[k]);
                }
            }
        }
    } else {
        assert(v@.skip(start as int) =~= Seq::<char>::empty());
    }
    assert(str_lines(v@) =~= done);
    if !replaced {
        out.append(assignment.as_str());
    }
    out
}

} // verus!
