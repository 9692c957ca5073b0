//! Severity of secret, scope and drift findings, and the cross-cluster
//! persona scope check.

use vstd::prelude::*;
use crate::cluster::{ClusterKind, cluster_label};
use crate::error::CommandResult;
use crate::sorting::{insert_sorted, lemma_insert_sorted_at, sort_by};
use crate::text::{
    cat3, cat5, chars_of, contains, contains_chars, decimal, decimal_string, lower, lower_chars, own,
    str_eq, string_of, text_less, text_less_exec,
};

verus! {

/// Severity ladder of every finding; `Critical` blocks a deploy.
#[derive(Debug, Clone, Copy, PartialEq, Eq, Hash, Structural)]
pub enum SecretSeverity {
    Critical,
    High,
    Medium,
    Low,
}

pub open spec fn severity_label(s: SecretSeverity) -> Seq<char> {
    match s {
        SecretSeverity::Critical => "critical"@,
        SecretSeverity::High => "high"@,
        SecretSeverity::Medium => "medium"@,
        SecretSeverity::Low => "low"@,
    }
}

pub open spec fn severity_rank(s: SecretSeverity) -> u8 {
    match s {
        SecretSeverity::Critical => 0,
        SecretSeverity::High => 1,
        SecretSeverity::Medium => 2,
        SecretSeverity::Low => 3,
    }
}

impl SecretSeverity {
    pub fn as_str(self) -> (s: &'static str)
        ensures
            s@ == severity_label(self),
    {
        match self {
            SecretSeverity::Critical => "critical",
            SecretSeverity::High => "high",
            SecretSeverity::Medium => "medium",
            SecretSeverity::Low => "low",
        }
    }

    /// 0 for the most severe; lower ranks sort first.
    pub fn rank(self) -> (r: u8)
        ensures
            r == severity_rank(self),
    {
        match self {
            SecretSeverity::Critical => 0,
            SecretSeverity::High => 1,
            SecretSeverity::Medium => 2,
            SecretSeverity::Low => 3,
        }
    }
}

/// The mistake shape a scope warning reports.
#[derive(Debug, Clone, Copy, PartialEq, Eq, Structural)]
pub enum ScopeWarningKind {
    /// The same pubkey on two or more clusters.
    CrossClusterReuse,
    /// A devnet/localnet persona labelled mainnet or prod.
    MainnetLabelOnNonMainnet,
    /// An imported persona on mainnet-fork or devnet.
    SuspectedRealKeyOnForkOrDevnet,
}

pub open spec fn rule_id_of(k: ScopeWarningKind) -> Seq<char> {
    match k {
        ScopeWarningKind::CrossClusterReuse => "scope_cross_cluster_reuse"@,
        ScopeWarningKind::MainnetLabelOnNonMainnet => "scope_mainnet_label_on_devnet"@,
        ScopeWarningKind::SuspectedRealKeyOnForkOrDevnet => "scope_suspected_real_key_on_fork_or_devnet"@,
    }
}

impl ScopeWarningKind {
    pub fn rule_id(self) -> (s: &'static str)
        ensures
            s@ == rule_id_of(self),
    {
        match self {
            ScopeWarningKind::CrossClusterReuse => "scope_cross_cluster_reuse",
            ScopeWarningKind::MainnetLabelOnNonMainnet => "scope_mainnet_label_on_devnet",
            ScopeWarningKind::SuspectedRealKeyOnForkOrDevnet => "scope_suspected_real_key_on_fork_or_devnet",
        }
    }
}

/// A keypair persona registered on one cluster.
#[derive(Debug, Clone)]
pub struct Persona {
    pub name: String,
    pub cluster: ClusterKind,
    pub pubkey: String,
    pub keypair_path: String,
    pub created_at_ms: u64,
    pub note: Option<String>,
}

#[derive(Debug, Clone)]
pub struct ScopeWarning {
    pub kind: ScopeWarningKind,
    pub severity: SecretSeverity,
    pub persona: String,
    pub cluster: ClusterKind,
    pub related_clusters: Vec<ClusterKind>,
    pub pubkey: String,
    pub message: String,
    pub remediation: String,
}

#[derive(Debug, Clone)]
pub struct ScopeCheckReport {
    pub warnings: Vec<ScopeWarning>,
    pub personas_inspected: u32,
    /// Whether at least one warning is critical.
    pub blocks_deploy: bool,
}

/// The note of a persona, the empty text when it has none.
pub open spec fn note_text(p: Persona) -> Seq<char> {
    match p.note {
        Some(n) => n@,
        None => Seq::empty(),
    }
}

/// Lower-cased name, a space, and lower-cased note.
pub open spec fn label_haystack(p: Persona) -> Seq<char> {
    lower(p.name@) + " "@ + lower(note_text(p))
}

/// Whether the persona's name or note reads as mainnet or production.
pub open spec fn mainnet_labelled(p: Persona) -> bool {
    let h = label_haystack(p);
    contains(h, "mainnet"@) || contains(h, "prod"@) || contains(h, "production"@) || contains(h, "authority-mainnet"@)
}

/// Whether the persona's note reads as an imported real key.
pub open spec fn import_noted(p: Persona) -> bool {
    contains(lower(note_text(p)), "import"@) || contains(lower(note_text(p)), "real "@)
}

pub open spec fn label_message(p: Persona) -> Seq<char> {
    "Persona '"@ + p.name@ + "' is flagged as mainnet/prod but lives on "@ + cluster_label(p.cluster) + "."@
}

pub open spec fn import_message(p: Persona) -> Seq<char> {
    "Persona '"@ + p.name@ + "' looks imported and sits on a non-local cluster."@
}

/// The note of `p`, lower-cased, as characters.
fn lowered_note(p: &Persona) -> (r: Vec<char>)
    ensures
        r@ == lower(note_text(*p)),
{
    match &p.note {
        Some(n) => {
            let v = chars_of(n.as_str());
            lower_chars(&v)
        },
        None => {
            let v: Vec<char> = Vec::new();
            assert(v@ =~= lower(Seq::<char>::empty()));
            v
        },
    }
}

/// The mainnet-label warning for `p`, when it is off mainnet and labelled
/// mainnet or prod.
pub fn label_warning(p: &Persona) -> (r: Option<ScopeWarning>)
    ensures
        r is Some <==> (p.cluster != ClusterKind::Mainnet && mainnet_labelled(*p)),
        r matches Some(w) ==> {
            &&& w.kind == ScopeWarningKind::MainnetLabelOnNonMainnet
            &&& w.severity == SecretSeverity::High
            &&& w.persona@ == p.name@
            &&& w.cluster == p.cluster
            &&& w.related_clusters@ == seq![ClusterKind::Mainnet]
            &&& w.pubkey@ == p.pubkey@
            &&& w.message@ == label_message(*p)
            &&& w.remediation@ == "Rename the persona or generate a dedicated keypair for this cluster."@
        },
{
    if p.cluster == ClusterKind::Mainnet {
        return None;
    }
    let name = chars_of(p.name.as_str());
    let mut hay = lower_chars(&name);
    hay.push(' ');
    let mut note = lowered_note(p);
    hay.append(&mut note);
    proof {
        reveal_strlit(" ");
        assert(hay@ =~= label_haystack(*p));
    }
    let n1 = chars_of("mainnet");
    let n2 = chars_of("prod");
    let n3 = chars_of("production");
    let n4 = chars_of("authority-mainnet");
    let flagged = contains_chars(&hay, &n1) || contains_chars(&hay, &n2) || contains_chars(&hay, &n3)
        || contains_chars(&hay, &n4);
    if !flagged {
        return None;
    }
    let message = cat5(
        "Persona '",
        p.name.as_str(),
        "' is flagged as mainnet/prod but lives on ",
        p.cluster.as_str(),
        ".",
    );
    Some(
        ScopeWarning {
            kind: ScopeWarningKind::MainnetLabelOnNonMainnet,
            severity: SecretSeverity::High,
            persona: own(p.name.as_str()),
            cluster: p.cluster,
            related_clusters: vec![ClusterKind::Mainnet],
            pubkey: own(p.pubkey.as_str()),
            message,
            remediation: own("Rename the persona or generate a dedicated keypair for this cluster."),
        },
    )
}

/// The imported-key warning for `p`, when it is on mainnet-fork or devnet
/// and its note mentions an import or a real key.
pub fn imported_on_fork_warning(p: &Persona) -> (r: Option<ScopeWarning>)
    ensures
        r is Some <==> ((p.cluster == ClusterKind::MainnetFork || p.cluster == ClusterKind::Devnet)
            && import_noted(*p)),
        r matches Some(w) ==> {
            &&& w.kind == ScopeWarningKind::SuspectedRealKeyOnForkOrDevnet
            &&& w.severity == SecretSeverity::Medium
            &&& w.persona@ == p.name@
            &&& w.cluster == p.cluster
            &&& w.related_clusters@.len() == 0
            &&& w.pubkey@ == p.pubkey@
            &&& w.message@ == import_message(*p)
            &&& w.remediation@ == "Restrict imported keypairs to localnet / mainnet-fork; use freshly-generated keys on devnet."@
        },
{
    if !(p.cluster == ClusterKind::MainnetFork || p.cluster == ClusterKind::Devnet) {
        return None;
    }
    let note = lowered_note(p);
    let n1 = chars_of("import");
    let n2 = chars_of("real ");
    if !(contains_chars(&note, &n1) || contains_chars(&note, &n2)) {
        return None;
    }
    let message = cat3("Persona '", p.name.as_str(), "' looks imported and sits on a non-local cluster.");
    Some(
        ScopeWarning {
            kind: ScopeWarningKind::SuspectedRealKeyOnForkOrDevnet,
            severity: SecretSeverity::Medium,
            persona: own(p.name.as_str()),
            cluster: p.cluster,
            related_clusters: Vec::new(),
            pubkey: own(p.pubkey.as_str()),
            message,
            remediation: own(
                "Restrict imported keypairs to localnet / mainnet-fork; use freshly-generated keys on devnet.",
            ),
        },
    )
}

} // verus!

verus! {

// ------------------------------------------------------------- scope check

/// What a warning says, as plain values.
pub type WarningView = (
    ScopeWarningKind,
    SecretSeverity,
    Seq<char>,
    ClusterKind,
    Seq<ClusterKind>,
    Seq<char>,
    Seq<char>,
    Seq<char>,
);

pub open spec fn warning_view(w: ScopeWarning) -> WarningView {
    (
        w.kind,
        w.severity,
        w.persona@,
        w.cluster,
        w.related_clusters@,
        w.pubkey@,
        w.message@,
        w.remediation@,
    )
}

/// Personas ordered by pubkey.
pub open spec fn persona_less() -> spec_fn(Persona, Persona) -> bool {
    |a: Persona, b: Persona| text_less(a.pubkey@, b.pubkey@)
}

/// Warnings ordered by severity rank, then persona name, then rule id.
pub open spec fn warning_less() -> spec_fn(WarningView, WarningView) -> bool {
    |a: WarningView, b: WarningView|
        severity_rank(a.1) < severity_rank(b.1) || (severity_rank(a.1) == severity_rank(b.1)
            && text_less(a.2, b.2)) || (severity_rank(a.1) == severity_rank(b.1) && a.2 == b.2
            && text_less(rule_id_of(a.0), rule_id_of(b.0)))
}

/// Whether some persona of `ps` holds `key` on cluster `c`.
pub open spec fn key_on(ps: Seq<Persona>, key: Seq<char>, c: ClusterKind) -> bool {
    exists|i: int| 0 <= i < ps.len() && ps[i].pubkey@ == key && ps[i].cluster == c
}

pub open spec fn cluster_if(b: bool, c: ClusterKind) -> Seq<ClusterKind> {
    if b {
        seq![c]
    } else {
        seq![]
    }
}

/// The clusters holding `key`, in cluster order, without `except`.
pub open spec fn key_clusters(ps: Seq<Persona>, key: Seq<char>, except: Option<ClusterKind>) -> Seq<
    ClusterKind,
> {
    cluster_if(key_on(ps, key, ClusterKind::Localnet) && except != Some(ClusterKind::Localnet), ClusterKind::Localnet)
        + cluster_if(key_on(ps, key, ClusterKind::MainnetFork) && except != Some(ClusterKind::MainnetFork), ClusterKind::MainnetFork)
        + cluster_if(key_on(ps, key, ClusterKind::Devnet) && except != Some(ClusterKind::Devnet), ClusterKind::Devnet)
        + cluster_if(key_on(ps, key, ClusterKind::Mainnet) && except != Some(ClusterKind::Mainnet), ClusterKind::Mainnet)
}

/// The labels of `cs`, joined by `, `.
pub open spec fn joined_labels(cs: Seq<ClusterKind>) -> Seq<char>
    decreases cs.len(),
{
    if cs.len() == 0 {
        seq![]
    } else if cs.len() == 1 {
        cluster_label(cs[0])
    } else {
        cluster_label(cs[0]) + ", "@ + joined_labels(cs.drop_first())
    }
}

pub open spec fn reuse_remediation() -> Seq<char> {
    "Generate a fresh keypair per cluster. Never share a mainnet authority with devnet or localnet personas."@
}

/// The cross-cluster warning for persona `q` among `ps`.
pub open spec fn reuse_view(ps: Seq<Persona>, q: Persona) -> WarningView {
    let cs = key_clusters(ps, q.pubkey@, None);
    (
        ScopeWarningKind::CrossClusterReuse,
        if key_on(ps, q.pubkey@, ClusterKind::Mainnet) {
            SecretSeverity::Critical
        } else {
            SecretSeverity::High
        },
        q.name@,
        q.cluster,
        key_clusters(ps, q.pubkey@, Some(q.cluster)),
        q.pubkey@,
        "Pubkey "@ + q.pubkey@ + " is registered on "@ + decimal(cs.len()) + " different cluster(s): "@
            + joined_labels(cs),
        reuse_remediation(),
    )
}

/// One cross-cluster warning per persona of `t` whose pubkey personas of
/// `all` hold on two or more different clusters, in the order of `t`.
pub open spec fn reuse_views(all: Seq<Persona>, t: Seq<Persona>) -> Seq<WarningView>
    decreases t.len(),
{
    if t.len() == 0 {
        seq![]
    } else {
        reuse_views(all, t.drop_last()) + if key_clusters(all, t.last().pubkey@, None).len() >= 2 {
            seq![reuse_view(all, t.last())]
        } else {
            seq![]
        }
    }
}

pub open spec fn label_view(p: Persona) -> Seq<WarningView> {
    if p.cluster != ClusterKind::Mainnet && mainnet_labelled(p) {
        seq![(
            ScopeWarningKind::MainnetLabelOnNonMainnet,
            SecretSeverity::High,
            p.name@,
            p.cluster,
            seq![ClusterKind::Mainnet],
            p.pubkey@,
            label_message(p),
            "Rename the persona or generate a dedicated keypair for this cluster."@,
        )]
    } else {
        seq![]
    }
}

pub open spec fn import_view(p: Persona) -> Seq<WarningView> {
    if (p.cluster == ClusterKind::MainnetFork || p.cluster == ClusterKind::Devnet) && import_noted(p) {
        seq![(
            ScopeWarningKind::SuspectedRealKeyOnForkOrDevnet,
            SecretSeverity::Medium,
            p.name@,
            p.cluster,
            seq![],
            p.pubkey@,
            import_message(p),
            "Restrict imported keypairs to localnet / mainnet-fork; use freshly-generated keys on devnet."@,
        )]
    } else {
        seq![]
    }
}

/// The label and import warnings of each persona of `t`, in order.
pub open spec fn persona_views(t: Seq<Persona>) -> Seq<WarningView>
    decreases t.len(),
{
    if t.len() == 0 {
        seq![]
    } else {
        persona_views(t.drop_last()) + label_view(t.last()) + import_view(t.last())
    }
}

/// Every persona of the cluster registries, registry by registry.
pub open spec fn flatten(regs: Seq<Seq<Persona>>) -> Seq<Persona>
    decreases regs.len(),
{
    if regs.len() == 0 {
        seq![]
    } else {
        flatten(regs.drop_last()) + regs.last()
    }
}

/// The number of personas inspected: each registry's size as `u32`,
/// summed without passing `u32::MAX`.
pub open spec fn inspected(regs: Seq<Seq<Persona>>) -> u32
    decreases regs.len(),
{
    if regs.len() == 0 {
        0
    } else {
        let s = inspected(regs.drop_last()) + (regs.last().len() as u32);
        if s > u32::MAX {
            u32::MAX
        } else {
            s as u32
        }
    }
}

/// The warnings of a scope check over `regs`.
pub open spec fn scope_warnings(regs: Seq<Seq<Persona>>) -> Seq<WarningView> {
    let t = sort_by(flatten(regs), persona_less());
    sort_by(reuse_views(t, t) + persona_views(t), warning_less())
}

} // verus!

verus! {

/// The views of a run of warnings.
pub open spec fn views(ws: Seq<ScopeWarning>) -> Seq<WarningView> {
    ws.map_values(|w: ScopeWarning| warning_view(w))
}

/// The persona lists of the registries.
pub open spec fn registry_views(regs: Seq<Vec<Persona>>) -> Seq<Seq<Persona>> {
    regs.map_values(|v: Vec<Persona>| v@)
}

fn flatten_registries(regs: Vec<Vec<Persona>>) -> (r: (Vec<Persona>, u32))
    ensures
        r.0@ == flatten(registry_views(regs@)),
        r.1 == inspected(registry_views(regs@)),
{
    let ghost all = registry_views(regs@);
    let ghost src = regs@;
    let n = regs.len();
    let mut rest = regs;
    let mut out: Vec<Persona> = Vec::new();
    let mut total: u32 = 0;
    let mut i: usize = 0;
    while i < n
        invariant
            n == all.len(),
            i <= n,
            all == registry_views(src),
            rest@ == src.subrange(i as int, n as int),
            out@ == flatten(all.subrange(0, i as int)),
            total == inspected(all.subrange(0, i as int)),
        decreases n - i,
    {
        let mut v = rest.remove(0);
        proof {
            assert(all.subrange(0, i + 1).drop_last() =~= all.subrange(0, i as int));
            assert(v == src[i as int]);
            assert(v@ == all[i as int]);
        }
        let len = v.len() as u32;
        total = if total as u64 + len as u64 > u32::MAX as u64 {
            u32::MAX
        } else {
            total + len
        };
        out.append(&mut v);
        i = i + 1;
    }
    proof {
        assert(all.subrange(0, n as int) =~= all);
    }
    (out, total)
}

fn sort_personas(v: Vec<Persona>) -> (out: Vec<Persona>)
    ensures
        out@ == sort_by(v@, persona_less()),
{
    let ghost all = v@;
    let n = v.len();
    let mut rest = v;
    let mut out: Vec<Persona> = Vec::new();
    let mut i: usize = 0;
    while i < n
        invariant
            n == all.len(),
            i <= n,
            rest@ == all.subrange(i as int, n as int),
            out@ == sort_by(all.subrange(0, i as int), persona_less()),
        decreases n - i,
    {
        let x = rest.remove(0);
        proof {
            assert(all.subrange(0, i + 1).drop_last() =~= all.subrange(0, i as int));
            assert(x == all[i as int]);
        }
        let mut p: usize = 0;
        while p < out.len() && !text_less_exec(x.pubkey.as_str(), out[p].pubkey.as_str())
            invariant
                p <= out.len(),
                forall|j: int| 0 <= j < p ==> !(persona_less())(x, #[trigger] out@[j]),
            decreases out.len() - p,
        {
            p = p + 1;
        }
        proof {
            lemma_insert_sorted_at(out@, x, persona_less(), p as int);
        }
        out.insert(p, x);
        i = i + 1;
    }
    proof {
        assert(all.subrange(0, n as int) =~= all);
    }
    out
}

fn key_on_exec(t: &Vec<Persona>, key: &str, c: ClusterKind) -> (r: bool)
    ensures
        r == key_on(t@, key@, c),
{
    let mut i: usize = 0;
    while i < t.len()
        invariant
            i <= t.len(),
            forall|k: int| 0 <= k < i ==> !(t@[k].pubkey@ == key@ && t@[k].cluster == c),
        decreases t.len() - i,
    {
        if t[i].cluster == c && str_eq(t[i].pubkey.as_str(), key) {
            return true;
        }
        i = i + 1;
    }
    false
}

fn key_clusters_exec(t: &Vec<Persona>, key: &str, except: Option<ClusterKind>) -> (cs: Vec<ClusterKind>)
    ensures
        cs@ == key_clusters(t@, key@, except),
{
    let mut cs: Vec<ClusterKind> = Vec::new();
    if key_on_exec(t, key, ClusterKind::Localnet) && except != Some(ClusterKind::Localnet) {
        cs.push(ClusterKind::Localnet);
    }
    if key_on_exec(t, key, ClusterKind::MainnetFork) && except != Some(ClusterKind::MainnetFork) {
        cs.push(ClusterKind::MainnetFork);
    }
    if key_on_exec(t, key, ClusterKind::Devnet) && except != Some(ClusterKind::Devnet) {
        cs.push(ClusterKind::Devnet);
    }
    if key_on_exec(t, key, ClusterKind::Mainnet) && except != Some(ClusterKind::Mainnet) {
        cs.push(ClusterKind::Mainnet);
    }
    assert(cs@ =~= key_clusters(t@, key@, except));
    cs
}

fn join_labels(cs: &Vec<ClusterKind>, i: usize) -> (s: String)
    requires
        i <= cs.len(),
    ensures
        s@ == joined_labels(cs@.subrange(i as int, cs@.len() as int)),
    decreases cs.len() - i,
{
    if i == cs.len() {
        let s = String::new();
        assert(s@ =~= joined_labels(cs@.subrange(i as int, cs@.len() as int)));
        s
    } else if i + 1 == cs.len() {
        own(cs[i].as_str())
    } else {
        let rest = join_labels(cs, i + 1);
        proof {
            assert(cs@.subrange(i as int, cs@.len() as int).drop_first() =~= cs@.subrange(
                i + 1,
                cs@.len() as int,
            ));
        }
        cat3(cs[i].as_str(), ", ", rest.as_str())
    }
}

fn reuse_warning(t: &Vec<Persona>, q: &Persona) -> (w: ScopeWarning)
    ensures
        warning_view(w) == reuse_view(t@, *q),
{
    let cs = key_clusters_exec(t, q.pubkey.as_str(), None);
    let related = key_clusters_exec(t, q.pubkey.as_str(), Some(q.cluster));
    let severity = if key_on_exec(t, q.pubkey.as_str(), ClusterKind::Mainnet) {
        SecretSeverity::Critical
    } else {
        SecretSeverity::High
    };
    let count = decimal_string(cs.len() as u64);
    let joined = join_labels(&cs, 0);
    proof {
        assert(cs@.subrange(0, cs@.len() as int) =~= cs@);
    }
    let head = cat3("Pubkey ", q.pubkey.as_str(), " is registered on ");
    let message = cat5(head.as_str(), count.as_str(), " different cluster(s): ", joined.as_str(), "");
    proof {
        reveal_strlit("");
        assert(message@ =~= "Pubkey "@ + q.pubkey@ + " is registered on "@ + decimal(cs@.len()) + " different cluster(s): "@ + joined_labels(cs@));
    }
    ScopeWarning {
        kind: ScopeWarningKind::CrossClusterReuse,
        severity,
        persona: own(q.name.as_str()),
        cluster: q.cluster,
        related_clusters: related,
        pubkey: own(q.pubkey.as_str()),
        message,
        remediation: own(
            "Generate a fresh keypair per cluster. Never share a mainnet authority with devnet or localnet personas.",
        ),
    }
}

fn reuse_warnings(t: &Vec<Persona>) -> (ws: Vec<ScopeWarning>)
    ensures
        views(ws@) == reuse_views(t@, t@),
{
    let mut ws: Vec<ScopeWarning> = Vec::new();
    let mut i: usize = 0;
    while i < t.len()
        invariant
            i <= t.len(),
            views(ws@) == reuse_views(t@, t@.subrange(0, i as int)),
        decreases t.len() - i,
    {
        proof {
            assert(t@.subrange(0, i + 1).drop_last() =~= t@.subrange(0, i as int));
        }
        let ghost before = ws@;
        if key_clusters_exec(t, t[i].pubkey.as_str(), None).len() >= 2 {
            let w = reuse_warning(t, &t[i]);
            ws.push(w);
            assert(views(ws@) =~= views(before) + seq![warning_view(w)]);
        } else {
            assert(views(ws@) =~= views(before) + Seq::<WarningView>::empty());
        }
        i = i + 1;
    }
    assert(t@.subrange(0, t@.len() as int) =~= t@);
    ws
}

fn persona_warnings(t: &Vec<Persona>) -> (ws: Vec<ScopeWarning>)
    ensures
        views(ws@) == persona_views(t@),
{
    let mut ws: Vec<ScopeWarning> = Vec::new();
    let mut i: usize = 0;
    while i < t.len()
        invariant
            i <= t.len(),
            views(ws@) == persona_views(t@.subrange(0, i as int)),
        decreases t.len() - i,
    {
        proof {
            assert(t@.subrange(0, i + 1).drop_last() =~= t@.subrange(0, i as int));
        }
        let ghost before = ws@;
        match label_warning(&t[i]) {
            Some(w) => {
                ws.push(w);
                assert(views(ws@) =~= views(before) + label_view(t@[i as int]));
            },
            None => {
                assert(views(ws@) =~= views(before) + label_view(t@[i as int]));
            },
        }
        let ghost mid = ws@;
        match imported_on_fork_warning(&t[i]) {
            Some(w) => {
                assert(w.related_clusters@ =~= Seq::<ClusterKind>::empty());
                ws.push(w);
                assert(views(ws@) =~= views(mid) + import_view(t@[i as int]));
            },
            None => {
                assert(views(ws@) =~= views(mid) + import_view(t@[i as int]));
            },
        }
        i = i + 1;
    }
    assert(t@.subrange(0, t@.len() as int) =~= t@);
    ws
}

} // verus!

verus! {

fn warning_before(a: &ScopeWarning, b: &ScopeWarning) -> (r: bool)
    ensures
        r == (warning_less())(warning_view(*a), warning_view(*b)),
{
    let ra = a.severity.rank();
    let rb = b.severity.rank();
    if ra != rb {
        return ra < rb;
    }
    if !str_eq(a.persona.as_str(), b.persona.as_str()) {
        return text_less_exec(a.persona.as_str(), b.persona.as_str());
    }
    proof {
        crate::text::lemma_text_less_irreflexive(a.persona@);
    }
    text_less_exec(a.kind.rule_id(), b.kind.rule_id())
}

fn sort_warnings(v: Vec<ScopeWarning>) -> (out: Vec<ScopeWarning>)
    ensures
        views(out@) == sort_by(views(v@), warning_less()),
{
    let ghost all = views(v@);
    let ghost src = v@;
    let n = v.len();
    let mut rest = v;
    let mut out: Vec<ScopeWarning> = Vec::new();
    let mut i: usize = 0;
    while i < n
        invariant
            n == src.len(),
            all == views(src),
            i <= n,
            rest@ == src.subrange(i as int, n as int),
            views(out@) == sort_by(all.subrange(0, i as int), warning_less()),
        decreases n - i,
    {
        let x = rest.remove(0);
        proof {
            assert(all.subrange(0, i + 1).drop_last() =~= all.subrange(0, i as int));
            assert(x == src[i as int]);
        }
        let mut p: usize = 0;
        while p < out.len() && !warning_before(&x, &out[p])
            invariant
                p <= out.len(),
                forall|j: int| 0 <= j < p ==> !(warning_less())(warning_view(x), #[trigger] views(out@)[j]),
            decreases out.len() - p,
        {
            p = p + 1;
        }
        let ghost before = out@;
        proof {
            lemma_insert_sorted_at(views(out@), warning_view(x), warning_less(), p as int);
        }
        out.insert(p, x);
        assert(views(out@) =~= views(before).insert(p as int, warning_view(x)));
        i = i + 1;
    }
    proof {
        assert(all.subrange(0, n as int) =~= all);
    }
    out
}

fn any_critical(ws: &Vec<ScopeWarning>) -> (r: bool)
    ensures
        r == exists|i: int| 0 <= i < ws@.len() && (#[trigger] views(ws@)[i]).1 == SecretSeverity::Critical,
{
    let mut i: usize = 0;
    while i < ws.len()
        invariant
            i <= ws.len(),
            forall|k: int| 0 <= k < i ==> (#[trigger] views(ws@)[k]).1 != SecretSeverity::Critical,
        decreases ws.len() - i,
    {
        if ws[i].severity == SecretSeverity::Critical {
            assert(views(ws@)[i as int].1 == SecretSeverity::Critical);
            return true;
        }
        i = i + 1;
    }
    false
}

/// The cross-cluster scope check over the persona registries, one list per
/// cluster in cluster order: reused pubkeys, mainnet labels off mainnet and
/// imported keys on forks, ordered by severity, persona and rule.
pub fn check_scope(registries: Vec<Vec<Persona>>) -> (r: CommandResult<ScopeCheckReport>)
    ensures
        r matches Ok(report) && {
            &&& views(report.warnings@) == scope_warnings(registry_views(registries@))
            &&& report.personas_inspected == inspected(registry_views(registries@))
            &&& report.blocks_deploy == exists|i: int|
                0 <= i < report.warnings@.len() && (#[trigger] scope_warnings(
                    registry_views(registries@),
                )[i]).1 == SecretSeverity::Critical
        },
{
    let (all, total) = flatten_registries(registries);
    let t = sort_personas(all);
    let mut warnings = reuse_warnings(&t);
    let mut more = persona_warnings(&t);
    let ghost first_part = warnings@;
    let ghost second_part = more@;
    warnings.append(&mut more);
    assert(views(warnings@) =~= views(first_part) + views(second_part));
    let sorted = sort_warnings(warnings);
    let blocks_deploy = any_critical(&sorted);
    Ok(ScopeCheckReport { warnings: sorted, personas_inspected: total, blocks_deploy })
}

} // verus!

verus! {

/// A persona on mainnet-fork or devnet whose note, lower-cased, mentions
/// `import` or `real ` draws exactly one suspected-real-key warning, of
/// medium severity, naming the persona and its cluster.
pub proof fn law_imported_or_real_key_on_fork_is_flagged(p: Persona)
    requires
        p.cluster == ClusterKind::MainnetFork || p.cluster == ClusterKind::Devnet,
        p.note matches Some(n) && (contains(lower(n@), "import"@) || contains(lower(n@), "real "@)),
    ensures
        import_view(p).len() == 1,
        import_view(p)[0].0 == ScopeWarningKind::SuspectedRealKeyOnForkOrDevnet,
        import_view(p)[0].1 == SecretSeverity::Medium,
        import_view(p)[0].2 == p.name@,
        import_view(p)[0].3 == p.cluster,
{
}

/// A persona on localnet or mainnet draws no suspected-real-key warning,
/// whatever its note says.
pub proof fn law_local_and_mainnet_keys_are_not_suspected(p: Persona)
    requires
        p.cluster == ClusterKind::Localnet || p.cluster == ClusterKind::Mainnet,
    ensures
        import_view(p).len() == 0,
{
}

} // verus!
