//! Adapting the upstream Supabase Compose file to one tenant: its own project name, its own
//! container names, the shared edge network for its gateway, no host ports, and Realtime
//! running under the tenant's id.

use vstd::prelude::*;
use crate::text::{concat2, concat3, contains_str, copy_str, lemma_replace_absent, replace_all, replace_str, str_eq};
use crate::provisioner::naming::{prefix_of, slug_of, tenant_prefix, tenant_slug};
use crate::provisioner::yaml::{
    clone_yaml, get_key, insert_key, lemma_entries_view, lemma_seq_view, map_get, map_insert,
    map_remove, remove_key, yaml_entries_view, yaml_seq_view, yaml_view, Yaml, YamlView,
};

verus! {

/// Why a Compose file could not be adapted.
#[derive(PartialEq, Eq, Structural)]
pub enum ComposeError {
    /// The document is not a mapping.
    DocNotMap,
    /// Its `networks` is not a mapping.
    NetworksNotMap,
    /// It has no `services` mapping.
    MissingServices,
    /// A service is not a mapping.
    ServiceNotMap,
}

impl ComposeError {
    /// The error's message.
    pub fn message(&self) -> (m: String)
        ensures
            m@ == match *self {
                ComposeError::DocNotMap => "compose doc not a map"@,
                ComposeError::NetworksNotMap => "networks not a map"@,
                ComposeError::MissingServices => "compose missing services map"@,
                ComposeError::ServiceNotMap => "service entry not a map"@,
            },
    {
        match self {
            ComposeError::DocNotMap => copy_str("compose doc not a map"),
            ComposeError::NetworksNotMap => copy_str("networks not a map"),
            ComposeError::MissingServices => copy_str("compose missing services map"),
            ComposeError::ServiceNotMap => copy_str("service entry not a map"),
        }
    }
}

/// The document with the string `key` set to `value`, if it is a mapping.
pub open spec fn set_string_of(doc: YamlView, key: Seq<char>, value: Seq<char>) -> YamlView {
    match doc {
        YamlView::Mapping(m) => YamlView::Mapping(map_insert(m, key, YamlView::Str(value))),
        _ => doc,
    }
}

/// Sets `key` to the string `value` in a mapping document; other documents are unchanged.
pub fn set_yaml_string(doc: Yaml, key: &str, value: &str) -> (r: Yaml)
    ensures
        r@ == set_string_of(doc@, key@, value@),
{
    match doc {
        Yaml::Mapping(mut m) => {
            insert_key(&mut m, key, Yaml::Str(copy_str(value)));
            Yaml::Mapping(m)
        },
        other => other,
    }
}

/// The external network entry `edge`, named after the Docker network.
pub open spec fn edge_network_of(network: Seq<char>) -> YamlView {
    YamlView::Mapping(seq![
        (YamlView::Str("external"@), YamlView::Bool(true)),
        (YamlView::Str("name"@), YamlView::Str(network)),
    ])
}

/// The document with the external network `edge` declared under `networks` (created empty
/// first when missing).
pub open spec fn with_edge_network(doc: YamlView, network: Seq<char>) -> Result<YamlView, ComposeError> {
    match doc {
        YamlView::Mapping(m) => {
            let m1 = if map_get(m, "networks"@) is None {
                map_insert(m, "networks"@, YamlView::Mapping(seq![]))
            } else {
                m
            };
            match map_get(m1, "networks"@) {
                Some(YamlView::Mapping(n)) => Ok(YamlView::Mapping(map_insert(m1, "networks"@,
                    YamlView::Mapping(map_insert(n, "edge"@, edge_network_of(network)))))),
                _ => Err(ComposeError::NetworksNotMap),
            }
        },
        _ => Err(ComposeError::DocNotMap),
    }
}

/// Declares the external network `edge` (see `with_edge_network`).
pub fn ensure_edge_network(doc: Yaml, docker_edge_network: &str) -> (r: Result<Yaml, ComposeError>)
    ensures
        match r {
            Ok(d) => with_edge_network(doc@, docker_edge_network@) == Ok::<YamlView, ComposeError>(d@),
            Err(e) => with_edge_network(doc@, docker_edge_network@) == Err::<YamlView, ComposeError>(e),
        },
{
    let mut top = match doc {
        Yaml::Mapping(m) => m,
        _ => return Err(ComposeError::DocNotMap),
    };
    if get_key(&top, "networks").is_none() {
        insert_key(&mut top, "networks", Yaml::Mapping(Vec::new()));
        proof {
            lemma_entries_view(Seq::<(Yaml, Yaml)>::empty());
        }
    }
    let mut n = match get_key(&top, "networks") {
        Some(Yaml::Mapping(n)) => clone_entries(n),
        _ => return Err(ComposeError::NetworksNotMap),
    };
    let mut edge: Vec<(Yaml, Yaml)> = Vec::new();
    edge.push((Yaml::Str(copy_str("external")), Yaml::Bool(true)));
    edge.push((Yaml::Str(copy_str("name")), Yaml::Str(copy_str(docker_edge_network))));
    proof {
        lemma_entries_view(edge@);
        assert(yaml_entries_view(edge@) =~= seq![
            (YamlView::Str("external"@), YamlView::Bool(true)),
            (YamlView::Str("name"@), YamlView::Str(docker_edge_network@)),
        ]);
    }
    insert_key(&mut n, "edge", Yaml::Mapping(edge));
    insert_key(&mut top, "networks", Yaml::Mapping(n));
    Ok(Yaml::Mapping(top))
}

/// A copy of a mapping's entries.
fn clone_entries(m: &Vec<(Yaml, Yaml)>) -> (r: Vec<(Yaml, Yaml)>)
    ensures
        yaml_entries_view(r@) == yaml_entries_view(m@),
{
    let mut out: Vec<(Yaml, Yaml)> = Vec::new();
    let mut i: usize = 0;
    while i < m.len()
        invariant
            i <= m@.len(),
            out@.len() == i,
            forall|k: int| 0 <= k < i ==> (#[trigger] out@[k]).0@ == m@[k].0@ && out@[k].1@ == m@[k].1@,
        decreases m@.len() - i,
    {
        let a = clone_yaml(&m[i].0);
        let b = clone_yaml(&m[i].1);
        out.push((a, b));
        i = i + 1;
    }
    proof {
        lemma_entries_view(out@);
        lemma_entries_view(m@);
        assert(yaml_entries_view(out@) =~= yaml_entries_view(m@));
    }
    out
}


/// A volume entry without its SELinux relabel suffixes: every `:z`, then every `:Z`, is
/// dropped from a string entry.
pub open spec fn strip_relabel(item: YamlView) -> YamlView {
    match item {
        YamlView::Str(s) => YamlView::Str(replace_all(replace_all(s, ":z"@, ""@), ":Z"@, ""@)),
        _ => item,
    }
}

/// A healthcheck test entry with `realtime-dev` replaced by the tenant's Realtime id.
pub open spec fn retarget_test(item: YamlView, realtime_tenant_id: Seq<char>) -> YamlView {
    match item {
        YamlView::Str(s) => YamlView::Str(replace_all(s, "realtime-dev"@, realtime_tenant_id)),
        _ => item,
    }
}

/// Realtime's healthcheck with its test command pointed at the tenant's Realtime id.
pub open spec fn realtime_healthcheck_of(hc: YamlView, realtime_tenant_id: Seq<char>) -> YamlView {
    match hc {
        YamlView::Mapping(h) => match map_get(h, "test"@) {
            Some(YamlView::Sequence(items)) => YamlView::Mapping(map_insert(h, "test"@, YamlView::Sequence(
                Seq::new(items.len(), |i: int| retarget_test(items[i], realtime_tenant_id))))),
            _ => hc,
        },
        _ => hc,
    }
}

/// A service's name as text (empty when the key is not a string).
pub open spec fn service_name(key: YamlView) -> Seq<char> {
    match key {
        YamlView::Str(s) => s,
        _ => Seq::<char>::empty(),
    }
}

/// One service adapted to the tenant: Realtime's container is named after the tenant's
/// Realtime id and any other container gets the tenant prefix (on its own name, or on the
/// service name); Kong and Supavisor publish no host ports; volume entries lose their
/// relabel suffixes; Realtime's healthcheck targets the tenant; Kong joins the `default`
/// and `edge` networks.
pub open spec fn patched_service(key: YamlView, svc: Seq<(YamlView, YamlView)>, tprefix: Seq<char>, rtid: Seq<char>) -> Seq<(YamlView, YamlView)> {
    let name = service_name(key);
    let s1 = if name == "realtime"@ {
        map_insert(svc, "container_name"@, YamlView::Str(rtid + ".supabase-realtime"@))
    } else {
        match map_get(svc, "container_name"@) {
            Some(YamlView::Str(existing)) => map_insert(svc, "container_name"@, YamlView::Str(tprefix + "-"@ + existing)),
            _ => map_insert(svc, "container_name"@, YamlView::Str(tprefix + "-"@ + name)),
        }
    };
    let s2 = if name == "kong"@ || name == "supavisor"@ { map_remove(s1, "ports"@) } else { s1 };
    let s3 = match map_get(s2, "volumes"@) {
        Some(YamlView::Sequence(items)) => map_insert(s2, "volumes"@, YamlView::Sequence(
            Seq::new(items.len(), |i: int| strip_relabel(items[i])))),
        _ => s2,
    };
    let s4 = if name == "realtime"@ {
        match map_get(s3, "healthcheck"@) {
            Some(hc) => map_insert(s3, "healthcheck"@, realtime_healthcheck_of(hc, rtid)),
            None => s3,
        }
    } else {
        s3
    };
    if name == "kong"@ {
        map_insert(s4, "networks"@, YamlView::Sequence(seq![YamlView::Str("default"@), YamlView::Str("edge"@)]))
    } else {
        s4
    }
}

/// Whether every service is a mapping.
pub open spec fn all_services_are_maps(svcs: Seq<(YamlView, YamlView)>) -> bool {
    forall|i: int| 0 <= i < svcs.len() ==> (#[trigger] svcs[i]).1 is Mapping
}

/// Every service adapted to the tenant, in order.
pub open spec fn patched_services(svcs: Seq<(YamlView, YamlView)>, tprefix: Seq<char>, rtid: Seq<char>) -> Seq<(YamlView, YamlView)> {
    Seq::new(svcs.len(), |i: int| (svcs[i].0, YamlView::Mapping(patched_service(svcs[i].0, svcs[i].1->Mapping_0, tprefix, rtid))))
}

/// The upstream Compose document adapted to the tenant: named `tenant-{slug}`, with the
/// external `edge` network, and every service adapted (see `patched_service`).
pub open spec fn patched_compose(doc: YamlView, tenant_id: Seq<char>, network: Seq<char>, rtid: Seq<char>) -> Result<YamlView, ComposeError> {
    let named = set_string_of(doc, "name"@, "tenant-"@ + slug_of(tenant_id));
    match with_edge_network(named, network) {
        Err(e) => Err(e),
        Ok(YamlView::Mapping(top)) => match map_get(top, "services"@) {
            Some(YamlView::Mapping(svcs)) => if all_services_are_maps(svcs) {
                Ok(YamlView::Mapping(map_insert(top, "services"@, YamlView::Mapping(patched_services(svcs, prefix_of(tenant_id), rtid)))))
            } else {
                Err(ComposeError::ServiceNotMap)
            },
            _ => Err(ComposeError::MissingServices),
        },
        Ok(_) => Err(ComposeError::DocNotMap),
    }
}

/// The string entries of `items` mapped by `f`-like edits: the relabel suffixes dropped.
fn strip_relabels(items: &Vec<Yaml>) -> (r: Vec<Yaml>)
    ensures
        yaml_seq_view(r@) == Seq::new(yaml_seq_view(items@).len(), |i: int| strip_relabel(yaml_seq_view(items@)[i])),
{
    proof {
        lemma_seq_view(items@);
        reveal_strlit(":z");
        reveal_strlit(":Z");
    }
    let mut out: Vec<Yaml> = Vec::new();
    let mut i: usize = 0;
    while i < items.len()
        invariant
            i <= items@.len(),
            out@.len() == i,
            yaml_seq_view(items@).len() == items@.len(),
            forall|k: int| 0 <= k < items@.len() ==> #[trigger] yaml_seq_view(items@)[k] == yaml_view(items@[k]),
            forall|k: int| 0 <= k < i ==> (#[trigger] out@[k])@ == strip_relabel(items@[k]@),
        decreases items@.len() - i,
    {
        proof {
            reveal_strlit(":z");
            reveal_strlit(":Z");
        }
        let next = match &items[i] {
            Yaml::Str(s) => {
                let a = replace_str(s.as_str(), ":z", "");
                Yaml::Str(replace_str(a.as_str(), ":Z", ""))
            },
            other => clone_yaml(other),
        };
        out.push(next);
        i = i + 1;
    }
    proof {
        lemma_seq_view(out@);
        assert(yaml_seq_view(out@) =~= Seq::new(yaml_seq_view(items@).len(), |i: int| strip_relabel(yaml_seq_view(items@)[i])));
    }
    out
}

/// Points Realtime's healthcheck at the tenant's Realtime id (see
/// `realtime_healthcheck_of`).
pub fn patch_realtime_healthcheck(healthcheck: &Yaml, realtime_tenant_id: &str) -> (r: Yaml)
    ensures
        r@ == realtime_healthcheck_of(healthcheck@, realtime_tenant_id@),
{
    proof {
        reveal_strlit("realtime-dev");
    }
    match healthcheck {
        Yaml::Mapping(h) => {
            match get_key(h, "test") {
                Some(Yaml::Sequence(items)) => {
                    proof {
                        lemma_seq_view(items@);
                    }
                    let mut out: Vec<Yaml> = Vec::new();
                    let mut i: usize = 0;
                    while i < items.len()
                        invariant
                            i <= items@.len(),
                            out@.len() == i,
                            forall|k: int| 0 <= k < i ==> (#[trigger] out@[k])@ == retarget_test(items@[k]@, realtime_tenant_id@),
                        decreases items@.len() - i,
                    {
                        proof {
                            reveal_strlit("realtime-dev");
                        }
                        let next = match &items[i] {
                            Yaml::Str(s) => {
                                if contains_str(s.as_str(), "realtime-dev") {
                                    Yaml::Str(replace_str(s.as_str(), "realtime-dev", realtime_tenant_id))
                                } else {
                                    proof {
                                        lemma_replace_absent(s@, "realtime-dev"@, realtime_tenant_id@);
                                    }
                                    Yaml::Str(copy_str(s.as_str()))
                                }
                            },
                            other => clone_yaml(other),
                        };
                        out.push(next);
                        i = i + 1;
                    }
                    proof {
                        lemma_seq_view(out@);
                        assert(yaml_seq_view(out@) =~= Seq::new(yaml_seq_view(items@).len(),
                            |i: int| retarget_test(yaml_seq_view(items@)[i], realtime_tenant_id@)));
                    }
                    let mut h2 = clone_entries(h);
                    insert_key(&mut h2, "test", Yaml::Sequence(out));
                    Yaml::Mapping(h2)
                },
                _ => clone_yaml(healthcheck),
            }
        },
        _ => clone_yaml(healthcheck),
    }
}

/// Adapts one service to the tenant (see `patched_service`).
fn patch_service(key: &Yaml, svc: Vec<(Yaml, Yaml)>, tprefix: &str, rtid: &str) -> (r: Vec<(Yaml, Yaml)>)
    ensures
        yaml_entries_view(r@) == patched_service(key@, yaml_entries_view(svc@), tprefix@, rtid@),
{
    let mut svc = svc;
    let name: String = match key {
        Yaml::Str(s) => copy_str(s.as_str()),
        _ => String::new(),
    };
    assert(name@ == service_name(key@));
    let is_realtime = str_eq(name.as_str(), "realtime");
    let is_kong = str_eq(name.as_str(), "kong");
    let is_supavisor = str_eq(name.as_str(), "supavisor");
    if is_realtime {
        insert_key(&mut svc, "container_name", Yaml::Str(concat2(rtid, ".supabase-realtime")));
    } else {
        let existing: Option<String> = match get_key(&svc, "container_name") {
            Some(Yaml::Str(e)) => Some(copy_str(e.as_str())),
            _ => None,
        };
        match existing {
            Some(e) => insert_key(&mut svc, "container_name", Yaml::Str(concat3(tprefix, "-", e.as_str()))),
            None => insert_key(&mut svc, "container_name", Yaml::Str(concat3(tprefix, "-", name.as_str()))),
        }
    }
    let ghost s1 = yaml_entries_view(svc@);
    if is_kong || is_supavisor {
        remove_key(&mut svc, "ports");
    }
    let ghost s2 = yaml_entries_view(svc@);
    let volumes: Option<Vec<Yaml>> = match get_key(&svc, "volumes") {
        Some(Yaml::Sequence(items)) => Some(strip_relabels(items)),
        _ => None,
    };
    match volumes {
        Some(v) => insert_key(&mut svc, "volumes", Yaml::Sequence(v)),
        None => {},
    }
    let ghost s3 = yaml_entries_view(svc@);
    if is_realtime {
        let hc: Option<Yaml> = match get_key(&svc, "healthcheck") {
            Some(h) => Some(patch_realtime_healthcheck(h, rtid)),
            None => None,
        };
        match hc {
            Some(h) => insert_key(&mut svc, "healthcheck", h),
            None => {},
        }
    }
    if is_kong {
        let mut nets: Vec<Yaml> = Vec::new();
        nets.push(Yaml::Str(copy_str("default")));
        nets.push(Yaml::Str(copy_str("edge")));
        proof {
            lemma_seq_view(nets@);
            assert(yaml_seq_view(nets@) =~= seq![YamlView::Str("default"@), YamlView::Str("edge"@)]);
        }
        insert_key(&mut svc, "networks", Yaml::Sequence(nets));
    }
    svc
}

/// Adapts the upstream Compose document to a tenant (see `patched_compose`). The base
/// domain plays no part in it.
#[verifier::loop_isolation(false)]
pub fn patch_supabase_compose_for_tenant(
    doc: Yaml,
    tenant_id: &str,
    base_domain: &str,
    docker_edge_network: &str,
    realtime_tenant_id: &str,
) -> (r: Result<Yaml, ComposeError>)
    ensures
        match r {
            Ok(d) => patched_compose(doc@, tenant_id@, docker_edge_network@, realtime_tenant_id@) == Ok::<YamlView, ComposeError>(d@),
            Err(e) => patched_compose(doc@, tenant_id@, docker_edge_network@, realtime_tenant_id@) == Err::<YamlView, ComposeError>(e),
        },
{
    let tprefix = tenant_prefix(tenant_id);
    let tslug = tenant_slug(tenant_id);
    let name = concat2("tenant-", tslug.as_str());
    let doc = set_yaml_string(doc, "name", name.as_str());
    let doc = match ensure_edge_network(doc, docker_edge_network) {
        Ok(d) => d,
        Err(e) => return Err(e),
    };
    let mut top = match doc {
        Yaml::Mapping(m) => m,
        _ => return Err(ComposeError::DocNotMap),
    };
    let svcs = match get_key(&top, "services") {
        Some(Yaml::Mapping(s)) => clone_entries(s),
        _ => return Err(ComposeError::MissingServices),
    };
    let ghost sv = yaml_entries_view(svcs@);
    proof {
        lemma_entries_view(svcs@);
    }
    let mut out: Vec<(Yaml, Yaml)> = Vec::new();
    let mut i: usize = 0;
    while i < svcs.len()
        invariant
            i <= svcs@.len(),
            sv == yaml_entries_view(svcs@),
            sv.len() == svcs@.len(),
            forall|k: int| 0 <= k < svcs@.len() ==> #[trigger] sv[k] == (yaml_view(svcs@[k].0), yaml_view(svcs@[k].1)),
            out@.len() == i,
            forall|k: int| 0 <= k < i ==> (#[trigger] sv[k]).1 is Mapping,
            forall|k: int| 0 <= k < i ==> (#[trigger] out@[k]).0@ == sv[k].0
                && out@[k].1@ == YamlView::Mapping(patched_service(sv[k].0, sv[k].1->Mapping_0, tprefix@, realtime_tenant_id@)),
        decreases svcs@.len() - i,
    {
        let entry = match &svcs[i].1 {
            Yaml::Mapping(m) => {
                let patched = patch_service(&svcs[i].0, clone_entries(m), tprefix.as_str(), realtime_tenant_id);
                (clone_yaml(&svcs[i].0), Yaml::Mapping(patched))
            },
            _ => {
                assert(!(sv[i as int].1 is Mapping));
                assert(!all_services_are_maps(sv));
                return Err(ComposeError::ServiceNotMap);
            },
        };
        out.push(entry);
        i = i + 1;
    }
    proof {
        lemma_entries_view(out@);
        assert(all_services_are_maps(sv));
        assert(yaml_entries_view(out@) =~= patched_services(sv, tprefix@, realtime_tenant_id@));
    }
    insert_key(&mut top, "services", Yaml::Mapping(out));
    Ok(Yaml::Mapping(top))
}

} // verus!
