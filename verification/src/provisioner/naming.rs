//! Names and locations derived from a tenant id.

use vstd::prelude::*;
use crate::text::{
    ascii_lower, concat2, concat4, copy_str, is_alnum_char, is_ascii_alnum, lower_char, push_char,
    string_from_range, to_chars, trim_end_matches, trim_end_str, trim_start_matches,
    trim_start_str,
};

verus! {

/// `http://{tenant_id}.{base_domain}`.
pub open spec fn gateway_url_of(base_domain: Seq<char>, tenant_id: Seq<char>) -> Seq<char> {
    "http://"@ + tenant_id + "."@ + base_domain
}

/// The base domain with leading dots and trailing slashes removed.
pub open spec fn trimmed_domain(base_domain: Seq<char>) -> Seq<char> {
    trim_end_matches(trim_start_matches(base_domain, "."@), "/"@)
}

/// The URL of a tenant's API gateway.
pub fn tenant_gateway_url(base_domain: &str, tenant_id: &str) -> (url: String)
    ensures
        url@ == gateway_url_of(base_domain@, tenant_id@),
{
    concat4("http://", tenant_id, ".", base_domain)
}

/// The URL of a tenant's console: the tenant host's root, under the base domain with leading
/// dots and trailing slashes removed.
pub fn tenant_console_url(base_domain: &str, tenant_id: &str) -> (url: String)
    ensures
        url@ == gateway_url_of(trimmed_domain(base_domain@), tenant_id@),
{
    let a = trim_start_str(base_domain, ".");
    let b = trim_end_str(a.as_str(), "/");
    tenant_gateway_url(b.as_str(), tenant_id)
}

/// POSIX path joining, as `Path::join` does on Unix: an absolute `part` replaces `base`;
/// otherwise a separator is put between them unless `base` is empty or already ends with one.
pub open spec fn path_join(base: Seq<char>, part: Seq<char>) -> Seq<char> {
    if part.len() > 0 && part[0] == '/' {
        part
    } else if base.len() == 0 || base.last() == '/' {
        base + part
    } else {
        base + seq!['/'] + part
    }
}

/// `path_join` on strings.
pub fn join_path(base: &str, part: &str) -> (p: String)
    ensures
        p@ == path_join(base@, part@),
{
    let pv = to_chars(part);
    let bv = to_chars(base);
    if pv.len() > 0 && pv[0] == '/' {
        return copy_str(part);
    }
    if bv.len() == 0 || bv[bv.len() - 1] == '/' {
        concat2(base, part)
    } else {
        let mut s = copy_str(base);
        push_char(&mut s, '/');
        s.append(part);
        s
    }
}

/// The directory that holds a tenant's Supabase stack: `{tenants_dir}/{tenant_id}/supabase`.
pub fn tenant_supabase_path(tenants_dir: &str, tenant_id: &str) -> (p: String)
    ensures
        p@ == path_join(path_join(tenants_dir@, tenant_id@), "supabase"@),
{
    let root = join_path(tenants_dir, tenant_id);
    join_path(root.as_str(), "supabase")
}

/// The ASCII letters and digits of `s`, in order, in lower case.
pub open spec fn slug_of(s: Seq<char>) -> Seq<char>
    decreases s.len(),
{
    if s.len() == 0 {
        seq![]
    } else if is_ascii_alnum(s.last()) {
        slug_of(s.drop_last()).push(ascii_lower(s.last()))
    } else {
        slug_of(s.drop_last())
    }
}

/// The slug of a tenant id: its ASCII letters and digits in lower case.
pub fn tenant_slug(tenant_id: &str) -> (slug: String)
    ensures
        slug@ == slug_of(tenant_id@),
{
    let v = to_chars(tenant_id);
    let mut out = String::new();
    let mut i: usize = 0;
    assert(v@.take(0) =~= Seq::<char>::empty());
    while i < v.len()
        invariant
            i <= v@.len(),
            v@ == tenant_id@,
            out@ == slug_of(v@.take(i as int)),
        decreases v@.len() - i,
    {
        let c = v[i];
        proof {
            assert(v@.take(i + 1).drop_last() =~= v@.take(i as int));
        }
        if is_alnum_char(c) {
            let l = lower_char(c);
            push_char(&mut out, l);
        }
        i = i + 1;
    }
    assert(v@.take(i as int) =~= v@);
    out
}

/// The short prefix of a tenant's container names: `t` and the first ten characters of the
/// slug.
pub open spec fn prefix_of(tenant_id: Seq<char>) -> Seq<char> {
    let slug = slug_of(tenant_id);
    seq!['t'] + (if slug.len() <= 10 { slug } else { slug.take(10) })
}

/// Whether `c` is an ASCII digit or small letter.
pub open spec fn lower_alnum(c: char) -> bool {
    ('0' <= c && c <= '9') || ('a' <= c && c <= 'z')
}

/// Tenant names are safe names: a slug holds only ASCII digits and small letters and is
/// no longer than the tenant id, and an id made of those alone is its own slug; the
/// container prefix is `t` and at most ten such characters.
pub proof fn law_tenant_names(tenant_id: Seq<char>)
    ensures
        forall|j: int| 0 <= j < slug_of(tenant_id).len() ==> lower_alnum(#[trigger] slug_of(tenant_id)[j]),
        slug_of(tenant_id).len() <= tenant_id.len(),
        (forall|j: int| 0 <= j < tenant_id.len() ==> lower_alnum(#[trigger] tenant_id[j])) ==> slug_of(tenant_id) == tenant_id,
        prefix_of(tenant_id).len() <= 11,
        prefix_of(tenant_id)[0] == 't',
        forall|j: int| 1 <= j < prefix_of(tenant_id).len() ==> lower_alnum(#[trigger] prefix_of(tenant_id)[j]),
    decreases tenant_id.len(),
{
    let s = tenant_id;
    if s.len() > 0 {
        let p = s.drop_last();
        law_tenant_names(p);
        let t = slug_of(p);
        let c = s.last();
        if is_ascii_alnum(c) {
            let l = ascii_lower(c);
            assert(lower_alnum(l));
            assert forall|j: int| 0 <= j < t.push(l).len() implies lower_alnum(#[trigger] t.push(l)[j]) by {
                if j < t.len() {
                    assert(t.push(l)[j] == t[j]);
                }
            }
        }
        if forall|j: int| 0 <= j < s.len() ==> lower_alnum(#[trigger] s[j]) {
            assert forall|j: int| 0 <= j < p.len() implies lower_alnum(#[trigger] p[j]) by {
                assert(p[j] == s[j]);
            }
            assert(lower_alnum(s[s.len() - 1]));
            assert(ascii_lower(c) == c);
            assert(slug_of(s) =~= s);
        }
    }
    let slug = slug_of(s);
    let short = if slug.len() <= 10 { slug } else { slug.take(10) };
    assert forall|j: int| 1 <= j < prefix_of(s).len() implies lower_alnum(#[trigger] prefix_of(s)[j]) by {
        assert(prefix_of(s)[j] == short[j - 1]);
        assert(short[j - 1] == slug[j - 1]);
    }
}

/// `t` followed by the first ten characters of the tenant's slug.
pub fn tenant_prefix(tenant_id: &str) -> (prefix: String)
    ensures
        prefix@ == prefix_of(tenant_id@),
{
    let slug = tenant_slug(tenant_id);
    let v = to_chars(slug.as_str());
    let n: usize = if v.len() <= 10 { v.len() } else { 10 };
    let short = string_from_range(&v, 0, n);
    let mut out = String::new();
    push_char(&mut out, 't');
    out.append(short.as_str());
    proof {
        if v@.len() <= 10 {
            assert(v@.subrange(0, n as int) =~= v@);
        } else {
            assert(v@.subrange(0, n as int) =~= v@.take(10));
        }
        assert(out@ =~= seq!['t'] + short@);
    }
    out
}

/// The name of the container that runs a tenant's Kong gateway.
pub fn tenant_kong_container_name(tenant_id: &str) -> (name: String)
    ensures
        name@ == prefix_of(tenant_id@) + "-supabase-kong"@,
{
    let p = tenant_prefix(tenant_id);
    p.concat("-supabase-kong")
}

/// The Compose project name of a tenant's stack: `tenant_{slug}`.
pub fn compose_project_name(tenant_id: &str) -> (name: String)
    ensures
        name@ == "tenant_"@ + slug_of(tenant_id@),
{
    let slug = tenant_slug(tenant_id);
    concat2("tenant_", slug.as_str())
}

/// The tenant id that the tenant's Realtime service runs under: `realtime-{prefix}`.
pub fn realtime_tenant_id(tenant_id: &str) -> (id: String)
    ensures
        id@ == "realtime-"@ + prefix_of(tenant_id@),
{
    let p = tenant_prefix(tenant_id);
    concat2("realtime-", p.as_str())
}

} // verus!
