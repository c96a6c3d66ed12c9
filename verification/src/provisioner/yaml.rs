//! A YAML document as the provisioner reads and edits it, with the ordered-mapping
//! operations of `serde_yaml`.

use vstd::prelude::*;
use crate::text::{copy_str, str_eq};

verus! {

/// A YAML value. Mappings keep their entries in order; numbers are kept as their text.
pub enum Yaml {
    Null,
    Bool(bool),
    Number(String),
    Str(String),
    Sequence(Vec<Yaml>),
    Mapping(Vec<(Yaml, Yaml)>),
    Tagged(String, Box<Yaml>),
}

/// The mathematical value of a `Yaml`.
pub enum YamlView {
    Null,
    Bool(bool),
    Number(Seq<char>),
    Str(Seq<char>),
    Sequence(Seq<YamlView>),
    Mapping(Seq<(YamlView, YamlView)>),
    Tagged(Seq<char>, Box<YamlView>),
}

/// The view of a YAML value.
pub open spec fn yaml_view(y: Yaml) -> YamlView
    decreases y,
{
    match y {
        Yaml::Null => YamlView::Null,
        Yaml::Bool(b) => YamlView::Bool(b),
        Yaml::Number(n) => YamlView::Number(n@),
        Yaml::Str(s) => YamlView::Str(s@),
        Yaml::Sequence(v) => YamlView::Sequence(yaml_seq_view(v@)),
        Yaml::Mapping(v) => YamlView::Mapping(yaml_entries_view(v@)),
        Yaml::Tagged(t, b) => YamlView::Tagged(t@, Box::new(yaml_view(*b))),
    }
}

/// The views of a sequence of YAML values.
pub open spec fn yaml_seq_view(s: Seq<Yaml>) -> Seq<YamlView>
    decreases s,
{
    if s.len() == 0 {
        seq![]
    } else {
        yaml_seq_view(s.drop_last()).push(yaml_view(s.last()))
    }
}

/// The views of the entries of a mapping.
pub open spec fn yaml_entries_view(s: Seq<(Yaml, Yaml)>) -> Seq<(YamlView, YamlView)>
    decreases s,
{
    if s.len() == 0 {
        seq![]
    } else {
        yaml_entries_view(s.drop_last()).push((yaml_view(s.last().0), yaml_view(s.last().1)))
    }
}

impl View for Yaml {
    type V = YamlView;

    open spec fn view(&self) -> YamlView {
        yaml_view(*self)
    }
}


/// The views of a sequence, element by element.
pub proof fn lemma_seq_view(s: Seq<Yaml>)
    ensures
        yaml_seq_view(s).len() == s.len(),
        forall|i: int| 0 <= i < s.len() ==> #[trigger] yaml_seq_view(s)[i] == yaml_view(s[i]),
    decreases s.len(),
{
    if s.len() > 0 {
        lemma_seq_view(s.drop_last());
    }
}

/// The views of a mapping's entries, entry by entry.
pub proof fn lemma_entries_view(s: Seq<(Yaml, Yaml)>)
    ensures
        yaml_entries_view(s).len() == s.len(),
        forall|i: int| 0 <= i < s.len() ==> #[trigger] yaml_entries_view(s)[i] == (yaml_view(s[i].0), yaml_view(s[i].1)),
    decreases s.len(),
{
    if s.len() > 0 {
        lemma_entries_view(s.drop_last());
    }
}

/// A deep copy of a YAML value.
#[verifier::loop_isolation(false)]
pub fn clone_yaml(y: &Yaml) -> (r: Yaml)
    ensures
        r@ == y@,
    decreases y,
{
    match y {
        Yaml::Null => Yaml::Null,
        Yaml::Bool(b) => Yaml::Bool(*b),
        Yaml::Number(n) => Yaml::Number(copy_str(n.as_str())),
        Yaml::Str(s) => Yaml::Str(copy_str(s.as_str())),
        Yaml::Sequence(v) => {
            let mut out: Vec<Yaml> = Vec::new();
            let mut i: usize = 0;
            while i < v.len()
                invariant
                    i <= v@.len(),
                    out@.len() == i,
                    forall|k: int| 0 <= k < i ==> (#[trigger] out@[k])@ == v@[k]@,
                decreases v@.len() - i,
            {
                assert(decreases_to!(*y => (*y)->Sequence_0));
                assert(decreases_to!((*y)->Sequence_0 => (*y)->Sequence_0@));
                assert(decreases_to!((*y)->Sequence_0@ => (*y)->Sequence_0@[i as int]));
                let c = clone_yaml(&v[i]);
                out.push(c);
                i = i + 1;
            }
            proof {
                lemma_seq_view(out@);
                lemma_seq_view(v@);
                assert(yaml_seq_view(out@) =~= yaml_seq_view(v@));
            }
            Yaml::Sequence(out)
        },
        Yaml::Mapping(v) => {
            let mut out: Vec<(Yaml, Yaml)> = Vec::new();
            let mut i: usize = 0;
            while i < v.len()
                invariant
                    i <= v@.len(),
                    out@.len() == i,
                    forall|k: int| 0 <= k < i ==> (#[trigger] out@[k]).0@ == v@[k].0@ && out@[k].1@ == v@[k].1@,
                decreases v@.len() - i,
            {
                assert(decreases_to!(*y => (*y)->Mapping_0));
                assert(decreases_to!((*y)->Mapping_0 => (*y)->Mapping_0@));
                assert(decreases_to!((*y)->Mapping_0@ => (*y)->Mapping_0@[i as int]));
                assert(decreases_to!((*y)->Mapping_0@[i as int] => (*y)->Mapping_0@[i as int].0));
                assert(decreases_to!((*y)->Mapping_0@[i as int] => (*y)->Mapping_0@[i as int].1));
                let a = clone_yaml(&v[i].0);
                let b = clone_yaml(&v[i].1);
                out.push((a, b));
                i = i + 1;
            }
            proof {
                lemma_entries_view(out@);
                lemma_entries_view(v@);
                assert(yaml_entries_view(out@) =~= yaml_entries_view(v@));
            }
            Yaml::Mapping(out)
        },
        Yaml::Tagged(t, b) => Yaml::Tagged(copy_str(t.as_str()), Box::new(clone_yaml(b))),
    }
}

/// The index of the entry whose key is the string `k`, if any.
pub open spec fn key_index(m: Seq<(YamlView, YamlView)>, k: Seq<char>) -> Option<int>
    decreases m.len(),
{
    if m.len() == 0 {
        None
    } else {
        match key_index(m.drop_last(), k) {
            Some(i) => Some(i),
            None => if m.last().0 == YamlView::Str(k) { Some(m.len() - 1) } else { None },
        }
    }
}

/// `key_index` finds the first entry with the key, and only such an entry.
pub proof fn lemma_key_index(m: Seq<(YamlView, YamlView)>, k: Seq<char>)
    ensures
        key_index(m, k) matches Some(i) ==> 0 <= i < m.len() && m[i].0 == YamlView::Str(k)
            && forall|j: int| 0 <= j < i ==> m[j].0 != YamlView::Str(k),
        key_index(m, k) is None ==> forall|j: int| 0 <= j < m.len() ==> m[j].0 != YamlView::Str(k),
    decreases m.len(),
{
    if m.len() > 0 {
        let p = m.drop_last();
        lemma_key_index(p, k);
        assert forall|j: int| 0 <= j < p.len() implies p[j] == m[j] by {}
    }
}

/// The value of the entry with key `k`, if any.
pub open spec fn map_get(m: Seq<(YamlView, YamlView)>, k: Seq<char>) -> Option<YamlView> {
    match key_index(m, k) {
        Some(i) => Some(m[i].1),
        None => None,
    }
}

/// The mapping with `k` set to `v`: an existing entry keeps its place and gets the new
/// value; a new entry goes last (`serde_yaml::Mapping::insert`).
pub open spec fn map_insert(m: Seq<(YamlView, YamlView)>, k: Seq<char>, v: YamlView) -> Seq<(YamlView, YamlView)> {
    match key_index(m, k) {
        Some(i) => m.update(i, (m[i].0, v)),
        None => m.push((YamlView::Str(k), v)),
    }
}

/// The mapping without the entry with key `k`; the last entry takes its place
/// (`serde_yaml::Mapping::remove`, which is `swap_remove`).
pub open spec fn map_remove(m: Seq<(YamlView, YamlView)>, k: Seq<char>) -> Seq<(YamlView, YamlView)> {
    match key_index(m, k) {
        Some(i) => m.update(i, m.last()).drop_last(),
        None => m,
    }
}

/// Whether no two entries of a mapping have the same key, as in a parsed YAML mapping.
pub open spec fn unique_keys(m: Seq<(YamlView, YamlView)>) -> bool {
    forall|i: int, j: int| 0 <= i < m.len() && 0 <= j < m.len() && i != j ==> m[i].0 != m[j].0
}

/// Whether a YAML value is well formed as a parsed document is: no mapping, at any depth,
/// has the same key twice.
pub open spec fn yaml_wf(y: YamlView) -> bool
    decreases y,
{
    match y {
        YamlView::Sequence(items) => forall|i: int| 0 <= i < items.len() ==> yaml_wf(#[trigger] items[i]),
        YamlView::Mapping(m) => unique_keys(m) && forall|i: int| 0 <= i < m.len() ==> yaml_wf(#[trigger] m[i].0)
            && yaml_wf(m[i].1),
        YamlView::Tagged(_, b) => yaml_wf(*b),
        _ => true,
    }
}

/// A value read from a well-formed mapping is well formed.
pub proof fn lemma_map_get_wf(m: Seq<(YamlView, YamlView)>, k: Seq<char>)
    requires
        yaml_wf(YamlView::Mapping(m)),
    ensures
        map_get(m, k) matches Some(v) ==> yaml_wf(v),
{
    lemma_key_index(m, k);
    if key_index(m, k) is Some {
        let i = key_index(m, k)->0;
        assert(yaml_wf(m[i].0));
    }
}

/// The first index whose key is `k` is what `key_index` finds.
pub proof fn lemma_key_index_is(m: Seq<(YamlView, YamlView)>, k: Seq<char>, i: int)
    requires
        0 <= i < m.len(),
        m[i].0 == YamlView::Str(k),
        forall|j: int| 0 <= j < i ==> m[j].0 != YamlView::Str(k),
    ensures
        key_index(m, k) == Some(i),
{
    lemma_key_index(m, k);
}

/// No entry has the key `k`, so `key_index` finds none.
proof fn lemma_key_index_none(m: Seq<(YamlView, YamlView)>, k: Seq<char>)
    requires
        forall|j: int| 0 <= j < m.len() ==> m[j].0 != YamlView::Str(k),
    ensures
        key_index(m, k) is None,
{
    lemma_key_index(m, k);
}

/// Reading the key just set gives the new value.
pub proof fn lemma_map_get_insert_same(m: Seq<(YamlView, YamlView)>, k: Seq<char>, v: YamlView)
    ensures
        map_get(map_insert(m, k, v), k) == Some(v),
{
    lemma_key_index(m, k);
    match key_index(m, k) {
        Some(i) => {
            let m2 = m.update(i, (m[i].0, v));
            lemma_key_index_is(m2, k, i);
        },
        None => {
            let m2 = m.push((YamlView::Str(k), v));
            lemma_key_index_is(m2, k, m.len() as int);
        },
    }
}

/// Setting one key leaves the value of another as it was.
pub proof fn lemma_map_get_insert_other(m: Seq<(YamlView, YamlView)>, k: Seq<char>, k2: Seq<char>, v: YamlView)
    requires
        k != k2,
    ensures
        map_get(map_insert(m, k2, v), k) == map_get(m, k),
{
    lemma_key_index(m, k);
    lemma_key_index(m, k2);
    let m2 = map_insert(m, k2, v);
    assert(m2.len() >= m.len());
    assert forall|j: int| 0 <= j < m.len() implies m2[j].0 == m[j].0 && (m[j].0 != YamlView::Str(k2) ==> m2[j] == m[j]) by {}
    assert(m2.len() > m.len() ==> m2[m.len() as int].0 == YamlView::Str(k2));
    assert(YamlView::Str(k) != YamlView::Str(k2));
    match key_index(m, k) {
        Some(i) => {
            lemma_key_index_is(m2, k, i);
        },
        None => {
            lemma_key_index_none(m2, k);
        },
    }
}

/// With keys unique, removing one key leaves the value of another as it was.
pub proof fn lemma_map_get_remove_other(m: Seq<(YamlView, YamlView)>, k: Seq<char>, k2: Seq<char>)
    requires
        k != k2,
        unique_keys(m),
    ensures
        map_get(map_remove(m, k2), k) == map_get(m, k),
{
    lemma_key_index(m, k);
    lemma_key_index(m, k2);
    assert(YamlView::Str(k) != YamlView::Str(k2));
    match key_index(m, k2) {
        None => {},
        Some(i) => {
            let n = m.len() as int;
            let m2 = m.update(i, m.last()).drop_last();
            assert(m2.len() == n - 1);
            assert forall|x: int| 0 <= x < n - 1 implies #[trigger] m2[x] == (if x == i { m[n - 1] } else { m[x] }) by {}
            match key_index(m, k) {
                Some(j) => {
                    assert(j != i);
                    if j < n - 1 {
                        assert forall|x: int| 0 <= x < j implies m2[x].0 != YamlView::Str(k) by {
                            if x == i {
                                assert(m[n - 1].0 != m[j].0);
                            }
                        }
                        lemma_key_index_is(m2, k, j);
                    } else {
                        assert(i < j);
                        assert forall|x: int| 0 <= x < i implies m2[x].0 != YamlView::Str(k) by {}
                        lemma_key_index_is(m2, k, i);
                    }
                },
                None => {
                    assert forall|x: int| 0 <= x < m2.len() implies m2[x].0 != YamlView::Str(k) by {}
                    lemma_key_index_none(m2, k);
                },
            }
        },
    }
}

/// A removed key is gone, in a mapping whose keys are unique.
pub proof fn lemma_map_get_remove_same(m: Seq<(YamlView, YamlView)>, k: Seq<char>)
    requires
        unique_keys(m),
    ensures
        map_get(map_remove(m, k), k) is None,
{
    lemma_key_index(m, k);
    match key_index(m, k) {
        None => {},
        Some(i) => {
            let n = m.len() as int;
            let m2 = m.update(i, m.last()).drop_last();
            assert forall|x: int| 0 <= x < m2.len() implies m2[x].0 != YamlView::Str(k) by {
                if x == i {
                    assert(m[n - 1].0 != m[i].0);
                } else {
                    assert(m2[x] == m[x]);
                    assert(m[x].0 != m[i].0);
                }
            }
            lemma_key_index_none(m2, k);
        },
    }
}

/// Setting a key keeps the keys unique.
pub proof fn lemma_insert_unique(m: Seq<(YamlView, YamlView)>, k: Seq<char>, v: YamlView)
    requires
        unique_keys(m),
    ensures
        unique_keys(map_insert(m, k, v)),
{
    lemma_key_index(m, k);
    let m2 = map_insert(m, k, v);
    assert forall|a: int, b: int| 0 <= a < m2.len() && 0 <= b < m2.len() && a != b implies m2[a].0 != m2[b].0 by {
        if a < m.len() && b < m.len() {
            assert(m2[a].0 == m[a].0 && m2[b].0 == m[b].0);
        }
    }
}

/// Whether `y` is the string `k`.
fn is_str_key(y: &Yaml, k: &str) -> (b: bool)
    ensures
        b == (y@ == YamlView::Str(k@)),
{
    match y {
        Yaml::Str(s) => str_eq(s.as_str(), k),
        _ => false,
    }
}

/// The index of the entry with key `k` (see `key_index`).
pub fn find_key(m: &Vec<(Yaml, Yaml)>, k: &str) -> (r: Option<usize>)
    ensures
        match r {
            Some(i) => key_index(yaml_entries_view(m@), k@) == Some(i as int) && i < m@.len(),
            None => key_index(yaml_entries_view(m@), k@) is None,
        },
{
    let ghost mv = yaml_entries_view(m@);
    proof {
        lemma_entries_view(m@);
        lemma_key_index(mv, k@);
    }
    let mut i: usize = 0;
    while i < m.len()
        invariant
            i <= m@.len(),
            mv == yaml_entries_view(m@),
            mv.len() == m@.len(),
            forall|j: int| 0 <= j < m@.len() ==> #[trigger] mv[j] == (yaml_view(m@[j].0), yaml_view(m@[j].1)),
            forall|j: int| 0 <= j < i ==> mv[j].0 != YamlView::Str(k@),
        decreases m@.len() - i,
    {
        if is_str_key(&m[i].0, k) {
            proof {
                lemma_key_index(mv, k@);
                if key_index(mv, k@) is None {
                    assert(mv[i as int].0 == YamlView::Str(k@));
                } else {
                    let j = key_index(mv, k@)->0;
                    if j > i {
                        assert(mv[i as int].0 == YamlView::Str(k@));
                    }
                }
            }
            return Some(i);
        }
        i = i + 1;
    }
    proof {
        lemma_key_index(mv, k@);
    }
    None
}

/// Sets `k` to `v` (see `map_insert`).
pub fn insert_key(m: &mut Vec<(Yaml, Yaml)>, k: &str, v: Yaml)
    ensures
        yaml_entries_view(final(m)@) == map_insert(yaml_entries_view(old(m)@), k@, v@),
{
    proof {
        lemma_entries_view(m@);
    }
    match find_key(m, k) {
        Some(i) => {
            let key = clone_yaml(&m[i].0);
            m.set(i, (key, v));
            proof {
                lemma_entries_view(m@);
                assert(yaml_entries_view(m@) =~= map_insert(yaml_entries_view(old(m)@), k@, v@));
            }
        },
        None => {
            m.push((Yaml::Str(copy_str(k)), v));
            proof {
                lemma_entries_view(m@);
                assert(yaml_entries_view(m@) =~= map_insert(yaml_entries_view(old(m)@), k@, v@));
            }
        },
    }
}

/// Removes the entry with key `k` (see `map_remove`).
pub fn remove_key(m: &mut Vec<(Yaml, Yaml)>, k: &str)
    ensures
        yaml_entries_view(final(m)@) == map_remove(yaml_entries_view(old(m)@), k@),
{
    proof {
        lemma_entries_view(m@);
    }
    match find_key(m, k) {
        Some(i) => {
            let _ = m.swap_remove(i);
            proof {
                lemma_entries_view(m@);
                assert(yaml_entries_view(m@) =~= map_remove(yaml_entries_view(old(m)@), k@));
            }
        },
        None => {},
    }
}

/// The value of the entry with key `k`, if any (see `map_get`).
pub fn get_key<'a>(m: &'a Vec<(Yaml, Yaml)>, k: &str) -> (r: Option<&'a Yaml>)
    ensures
        match r {
            Some(y) => map_get(yaml_entries_view(m@), k@) == Some(y@),
            None => map_get(yaml_entries_view(m@), k@) is None,
        },
{
    proof {
        lemma_entries_view(m@);
    }
    match find_key(m, k) {
        Some(i) => Some(&m[i].1),
        None => None,
    }
}

} // verus!
