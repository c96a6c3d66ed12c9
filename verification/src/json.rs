//! JSON text of strings, written the way `serde_json` writes them.

use vstd::prelude::*;
use crate::text::{push_char, to_chars};
use crate::billing::hex::hex_digit;

verus! {

/// How one character appears inside a JSON string: quote and backslash escaped, the
/// control characters that have a short escape given it, the other control characters as
/// `\u00XX` with lower-case hexadecimal digits, and everything else as it is.
pub open spec fn json_char(c: char) -> Seq<char> {
    let u = c as u32;
    if c == '"' {
        seq!['\\', '"']
    } else if c == '\\' {
        seq!['\\', '\\']
    } else if u == 0x08 {
        seq!['\\', 'b']
    } else if u == 0x09 {
        seq!['\\', 't']
    } else if u == 0x0A {
        seq!['\\', 'n']
    } else if u == 0x0C {
        seq!['\\', 'f']
    } else if u == 0x0D {
        seq!['\\', 'r']
    } else if u < 0x20 {
        seq!['\\', 'u', '0', '0', hex_digit((u / 16) as u8), hex_digit((u % 16) as u8)]
    } else {
        seq![c]
    }
}

/// The characters of `s` as they appear inside a JSON string.
pub open spec fn json_chars(s: Seq<char>) -> Seq<char>
    decreases s.len(),
{
    if s.len() == 0 {
        seq![]
    } else {
        json_chars(s.drop_last()) + json_char(s.last())
    }
}

/// The JSON string literal of `s`.
pub open spec fn json_string_of(s: Seq<char>) -> Seq<char> {
    seq!['"'] + json_chars(s) + seq!['"']
}

fn hex(n: u8) -> (c: char)
    requires
        n < 16,
    ensures
        c == hex_digit(n),
{
    if n < 10 {
        (('0' as u8) + n) as char
    } else {
        (('a' as u8) + n - 10) as char
    }
}

/// Appends the JSON form of `c` (see `json_char`).
fn push_json_char(out: &mut String, c: char)
    ensures
        final(out)@ == old(out)@ + json_char(c),
{
    let u = c as u32;
    if c == '"' {
        push_char(out, '\\');
        push_char(out, '"');
    } else if c == '\\' {
        push_char(out, '\\');
        push_char(out, '\\');
    } else if u == 0x08 {
        push_char(out, '\\');
        push_char(out, 'b');
    } else if u == 0x09 {
        push_char(out, '\\');
        push_char(out, 't');
    } else if u == 0x0A {
        push_char(out, '\\');
        push_char(out, 'n');
    } else if u == 0x0C {
        push_char(out, '\\');
        push_char(out, 'f');
    } else if u == 0x0D {
        push_char(out, '\\');
        push_char(out, 'r');
    } else if u < 0x20 {
        push_char(out, '\\');
        push_char(out, 'u');
        push_char(out, '0');
        push_char(out, '0');
        push_char(out, hex((u / 16) as u8));
        push_char(out, hex((u % 16) as u8));
    } else {
        push_char(out, c);
    }
    assert(out@ =~= old(out)@ + json_char(c));
}

/// The JSON string literal of `s` (see `json_string_of`).
pub fn json_string(s: &str) -> (j: String)
    ensures
        j@ == json_string_of(s@),
{
    let v = to_chars(s);
    let mut out = String::new();
    push_char(&mut out, '"');
    let mut i: usize = 0;
    assert(v@.take(0) =~= Seq::<char>::empty());
    while i < v.len()
        invariant
            i <= v@.len(),
            v@ == s@,
            out@ == seq!['"'] + json_chars(v@.take(i as int)),
        decreases v@.len() - i,
    {
        push_json_char(&mut out, v[i]);
        proof {
            assert(v@.take(i + 1).drop_last() =~= v@.take(i as int));
            assert(out@ =~= seq!['"'] + json_chars(v@.take(i + 1)));
        }
        i = i + 1;
    }
    assert(v@.take(i as int) =~= v@);
    push_char(&mut out, '"');
    out
}

/// Whether a character stands for itself inside a JSON string: not a quote, not a
/// backslash, not a control character.
pub open spec fn json_plain(c: char) -> bool {
    c != '"' && c != '\\' && (c as u32) >= 0x20
}

/// JSON string literals are well formed: text made of characters that stand for themselves
/// is only put in quotes, and the escaped form of any text holds no control character and
/// no quote that is not escaped (every quote inside follows a backslash).
pub proof fn law_json_string_literal(s: Seq<char>)
    ensures
        (forall|j: int| 0 <= j < s.len() ==> json_plain(#[trigger] s[j])) ==> json_chars(s) == s
            && json_string_of(s) == seq!['"'] + s + seq!['"'],
        forall|j: int| 0 <= j < json_chars(s).len() ==> (#[trigger] json_chars(s)[j] as u32) >= 0x20,
        forall|j: int| 0 <= j < json_chars(s).len() && #[trigger] json_chars(s)[j] == '"' ==> j > 0 && json_chars(s)[j - 1] == '\\',
    decreases s.len(),
{
    if s.len() > 0 {
        let p = s.drop_last();
        law_json_string_literal(p);
        let c = s.last();
        let a = json_chars(p);
        let b = json_char(c);
        assert(json_chars(s) == a + b);
        let u = c as u32;
        if u < 0x20 && !(u == 0x08 || u == 0x09 || u == 0x0A || u == 0x0C || u == 0x0D) {
            let h1 = hex_digit((u / 16) as u8);
            let h2 = hex_digit((u % 16) as u8);
            assert((h1 as u32) >= 0x30 && (h2 as u32) >= 0x30);
        }
        assert forall|j: int| 0 <= j < b.len() implies (#[trigger] b[j] as u32) >= 0x20 && (b[j] == '"' ==> j > 0 && b[j - 1] == '\\') by {
            if u < 0x20 && !(u == 0x08 || u == 0x09 || u == 0x0A || u == 0x0C || u == 0x0D) {
                let h1 = hex_digit((u / 16) as u8);
                let h2 = hex_digit((u % 16) as u8);
                assert(b == seq!['\\', 'u', '0', '0', h1, h2]);
            }
        }
        assert forall|j: int| 0 <= j < json_chars(s).len() implies (#[trigger] json_chars(s)[j] as u32) >= 0x20 by {
            if j >= a.len() {
                assert(json_chars(s)[j] == b[j - a.len()]);
            } else {
                assert(json_chars(s)[j] == a[j]);
            }
        }
        assert forall|j: int| 0 <= j < json_chars(s).len() && #[trigger] json_chars(s)[j] == '"' implies j > 0 && json_chars(s)[j - 1] == '\\' by {
            if j >= a.len() {
                assert(json_chars(s)[j] == b[j - a.len()]);
                if j > a.len() {
                    assert(json_chars(s)[j - 1] == b[j - 1 - a.len()]);
                } else {
                    assert(b[0] == '"');
                    assert(false);
                }
            } else {
                assert(json_chars(s)[j] == a[j]);
                assert(json_chars(s)[j - 1] == a[j - 1]);
            }
        }
        if forall|j: int| 0 <= j < s.len() ==> json_plain(#[trigger] s[j]) {
            assert forall|j: int| 0 <= j < p.len() implies json_plain(#[trigger] p[j]) by {
                assert(p[j] == s[j]);
            }
            assert(json_plain(s[s.len() - 1]));
            assert(b == seq![c]);
            assert(json_chars(p) == p);
            assert(json_chars(s) =~= s);
        }
    } else {
        assert(json_chars(s) =~= s);
    }
}

} // verus!
