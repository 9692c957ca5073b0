//! Cross-cluster program drift: each probe records what one cluster holds
//! for a program, and the probes of a program classify as in sync,
//! drifting, partially deployed or inconclusive.

use vstd::prelude::*;
use crate::cluster::ClusterKind;
use crate::codec::{
    base58_encode, base64_standard_decode, decode_base64_standard, encode_base58, hex, le_value,
    read_le_u64, sha256, sha256_hex,
};
use crate::text::{cat2, chars_eq, chars_of, own, str_eq};
use crate::error::{user_fixable_is, CommandError, CommandResult};

verus! {

/// Where the bytes of a program start inside its ProgramData account.
pub const PROGRAMDATA_DATA_OFFSET: usize = 45;

#[derive(Debug, Clone, Copy, PartialEq, Eq, Structural)]
pub enum DriftStatus {
    /// Every cluster has the same program bytes.
    InSync,
    /// At least two clusters have different bytes.
    Drift,
    /// The program is missing on at least one cluster.
    PartiallyDeployed,
    /// The lookup could not complete.
    Inconclusive,
}

pub open spec fn drift_label(s: DriftStatus) -> Seq<char> {
    match s {
        DriftStatus::InSync => "in_sync"@,
        DriftStatus::Drift => "drift"@,
        DriftStatus::PartiallyDeployed => "partially_deployed"@,
        DriftStatus::Inconclusive => "inconclusive"@,
    }
}

impl DriftStatus {
    pub fn as_str(self) -> (s: &'static str)
        ensures
            s@ == drift_label(self),
    {
        match self {
            DriftStatus::InSync => "in_sync",
            DriftStatus::Drift => "drift",
            DriftStatus::PartiallyDeployed => "partially_deployed",
            DriftStatus::Inconclusive => "inconclusive",
        }
    }
}

/// What one cluster holds for one program.
#[derive(Debug, Clone)]
pub struct DriftProbe {
    pub cluster: ClusterKind,
    pub rpc_url: String,
    pub program_data_sha256: Option<String>,
    pub program_data_length: Option<u64>,
    pub upgrade_authority: Option<String>,
    pub last_deployed_slot: Option<u64>,
    pub error: Option<String>,
}

/// A program that the drift check follows.
#[derive(Debug, Clone)]
pub struct TrackedProgram {
    pub label: String,
    pub program_id: String,
}

#[derive(Debug, Clone)]
pub struct DriftEntry {
    pub program: TrackedProgram,
    pub status: DriftStatus,
    pub probes: Vec<DriftProbe>,
    pub summary: String,
}

#[derive(Debug, Clone)]
pub struct DriftReport {
    pub entries: Vec<DriftEntry>,
    pub clusters_checked: Vec<ClusterKind>,
    pub duration_ms: u64,
    pub has_drift: bool,
}

/// A request for a drift check.
#[derive(Debug, Clone)]
pub struct DriftCheckRequest {
    /// Programs to check beside the built-in registry.
    pub additional: Vec<TrackedProgram>,
    /// The clusters to check; empty means every cluster.
    pub clusters: Vec<ClusterKind>,
    /// URL overrides per cluster, at most one per cluster.
    pub rpc_urls: Vec<(ClusterKind, String)>,
    pub skip_builtins: bool,
    pub timeout_ms: Option<u64>,
}

/// The program was not found on the probe's cluster.
pub open spec fn is_missing(p: DriftProbe) -> bool {
    p.error matches Some(e) && e@ == "program_not_found"@
}

/// The lookup failed for another reason.
pub open spec fn is_failed(p: DriftProbe) -> bool {
    p.error is Some && !is_missing(p)
}

/// The lookup succeeded and reported a hash.
pub open spec fn is_present(p: DriftProbe) -> bool {
    p.error is None && p.program_data_sha256 is Some
}

pub open spec fn hash_of(p: DriftProbe) -> Seq<char> {
    p.program_data_sha256->0@
}

/// The status of a program from its probes: inconclusive where a lookup
/// could not complete on some cluster; else partially deployed where one
/// cluster lacks the program and another has it; else in sync where every
/// cluster that has it holds the same bytes; else drifting.
pub open spec fn drift_status(ps: Seq<DriftProbe>) -> DriftStatus {
    let any_failed = exists|i: int| 0 <= i < ps.len() && #[trigger] is_failed(ps[i]);
    let any_missing = exists|i: int| 0 <= i < ps.len() && #[trigger] is_missing(ps[i]);
    let any_present = exists|i: int| 0 <= i < ps.len() && #[trigger] is_present(ps[i]);
    let one_hash = forall|i: int, j: int|
        0 <= i < ps.len() && 0 <= j < ps.len() && #[trigger] is_present(ps[i]) && #[trigger] is_present(ps[j])
            ==> hash_of(ps[i]) == hash_of(ps[j]);
    if any_failed {
        DriftStatus::Inconclusive
    } else if any_missing && any_present {
        DriftStatus::PartiallyDeployed
    } else if one_hash {
        DriftStatus::InSync
    } else {
        DriftStatus::Drift
    }
}

/// Classifies the probes of one program.
pub fn classify(probes: &[DriftProbe]) -> (s: DriftStatus)
    ensures
        s == drift_status(probes@),
{
    let ghost ps = probes@;
    let not_found = chars_of("program_not_found");
    let mut any_failed = false;
    let mut any_missing = false;
    let mut first: Option<Vec<char>> = None;
    let mut differs = false;
    let mut i: usize = 0;
    let ghost mut first_at: int = 0;
    while i < probes.len()
        invariant
            ps == probes@,
            i <= probes.len(),
            not_found@ == "program_not_found"@,
            any_failed == exists|k: int| 0 <= k < i && #[trigger] is_failed(ps[k]),
            any_missing == exists|k: int| 0 <= k < i && #[trigger] is_missing(ps[k]),
            first is None <==> !exists|k: int| 0 <= k < i && #[trigger] is_present(ps[k]),
            first is Some ==> 0 <= first_at < i && is_present(ps[first_at]) && first->0@ == hash_of(ps[first_at]),
            differs == exists|k: int| 0 <= k < i && #[trigger] is_present(ps[k]) && first is Some && hash_of(ps[k]) != first->0@,
        decreases probes.len() - i,
    {
        let p = &probes[i];
        let ghost old_failed = any_failed;
        let ghost old_missing = any_missing;
        let ghost old_first = first;
        match &p.error {
            Some(e) => {
                let ev = chars_of(e.as_str());
                if chars_eq(&ev, &not_found) {
                    any_missing = true;
                } else {
                    any_failed = true;
                }
            },
            None => {
                match &p.program_data_sha256 {
                    Some(h) => {
                        let hv = chars_of(h.as_str());
                        match &first {
                            None => {
                                proof {
                                    first_at = i as int;
                                }
                                first = Some(hv);
                            },
                            Some(f) => {
                                if !chars_eq(&hv, f) {
                                    differs = true;
                                }
                            },
                        }
                    },
                    None => {},
                }
            },
        }
        proof {
            let n = i as int;
            assert(ps[n] == *p);
            assert(any_failed == (old_failed || is_failed(ps[n])));
            assert(any_missing == (old_missing || is_missing(ps[n])));
            assert((first is None) == (old_first is None && !is_present(ps[n])));
            if is_failed(ps[n]) {
                assert(exists|k: int| 0 <= k < n + 1 && #[trigger] is_failed(ps[k]));
            }
            if is_missing(ps[n]) {
                assert(exists|k: int| 0 <= k < n + 1 && #[trigger] is_missing(ps[k]));
            }
            if is_present(ps[n]) {
                assert(exists|k: int| 0 <= k < n + 1 && #[trigger] is_present(ps[k]));
            }
        }
        i = i + 1;
    }
    let ghost any_present = exists|k: int| 0 <= k < ps.len() && #[trigger] is_present(ps[k]);
    let ghost one_hash = forall|a: int, b: int|
        0 <= a < ps.len() && 0 <= b < ps.len() && #[trigger] is_present(ps[a]) && #[trigger] is_present(ps[b])
            ==> hash_of(ps[a]) == hash_of(ps[b]);
    proof {
        if differs {
            let k = choose|k: int| 0 <= k < ps.len() && #[trigger] is_present(ps[k]) && first is Some && hash_of(ps[k]) != first->0@;
            assert(is_present(ps[first_at]));
            assert(!one_hash);
        } else if first is Some {
            assert forall|a: int, b: int|
                0 <= a < ps.len() && 0 <= b < ps.len() && #[trigger] is_present(ps[a]) && #[trigger] is_present(ps[b])
                implies hash_of(ps[a]) == hash_of(ps[b]) by {
                assert(hash_of(ps[a]) == first->0@);
                assert(hash_of(ps[b]) == first->0@);
            }
        }
    }
    if any_failed {
        return DriftStatus::Inconclusive;
    }
    if any_missing && first.is_some() {
        return DriftStatus::PartiallyDeployed;
    }
    if !differs {
        return DriftStatus::InSync;
    }
    DriftStatus::Drift
}

/// A probe of `cluster` at `url` with nothing recorded yet.
pub fn empty_probe(cluster: ClusterKind, url: &str) -> (p: DriftProbe)
    ensures
        p.cluster == cluster,
        p.rpc_url@ == url@,
        p.program_data_sha256 is None,
        p.program_data_length is None,
        p.upgrade_authority is None,
        p.last_deployed_slot is None,
        p.error is None,
{
    DriftProbe {
        cluster,
        rpc_url: crate::text::own(url),
        program_data_sha256: None,
        program_data_length: None,
        upgrade_authority: None,
        last_deployed_slot: None,
        error: None,
    }
}

/// The text of an optional string.
pub open spec fn text_of(o: Option<String>) -> Option<Seq<char>> {
    match o {
        Some(s) => Some(s@),
        None => None,
    }
}

/// Records the bytes of a non-upgradeable program, whose base64 `data`
/// lives in the program account itself.
pub fn finalize_with_account(probe: DriftProbe, data: &str) -> (p: DriftProbe)
    ensures
        p.cluster == probe.cluster,
        p.rpc_url == probe.rpc_url,
        p.upgrade_authority == probe.upgrade_authority,
        p.last_deployed_slot == probe.last_deployed_slot,
        match base64_standard_decode(data@) {
            Some(bytes) => {
                &&& p.program_data_length == Some(bytes.len() as u64)
                &&& text_of(p.program_data_sha256) == Some(hex(sha256(bytes)))
                &&& p.error == probe.error
            },
            None => {
                &&& p.program_data_length == probe.program_data_length
                &&& p.program_data_sha256 == probe.program_data_sha256
                &&& p.error matches Some(e) && crate::text::starts_with(e@, "program_data_decode: "@)
            },
        },
{
    let mut probe = probe;
    match decode_base64_standard(data) {
        Ok(bytes) => {
            probe.program_data_length = Some(bytes.len() as u64);
            probe.program_data_sha256 = Some(sha256_hex(bytes.as_slice()));
        },
        Err(err) => {
            let e = cat2("program_data_decode: ", err.as_str());
            assert(e@.subrange(0, "program_data_decode: "@.len() as int) =~= "program_data_decode: "@);
            probe.error = Some(e);
        },
    }
    probe
}

/// Records the bytes of an upgradeable program from its ProgramData
/// account: a 4-byte tag, the last deployed slot (8 bytes, little endian),
/// an authority flag byte, the optional 32-byte authority, then the program.
pub fn finalize_with_programdata(probe: DriftProbe, data: &str) -> (p: DriftProbe)
    ensures
        p.cluster == probe.cluster,
        p.rpc_url == probe.rpc_url,
        match base64_standard_decode(data@) {
            Some(b) => if b.len() < 45 {
                &&& text_of(p.error) == Some(
                    "programdata_header_short: "@ + crate::text::decimal(b.len()) + " bytes, want >= 45"@,
                )
                &&& p.program_data_sha256 == probe.program_data_sha256
                &&& p.program_data_length == probe.program_data_length
                &&& p.last_deployed_slot == probe.last_deployed_slot
                &&& p.upgrade_authority == probe.upgrade_authority
            } else {
                &&& p.error == probe.error
                &&& text_of(p.program_data_sha256) == Some(hex(sha256(b.subrange(45, b.len() as int))))
                &&& p.program_data_length == Some((b.len() - 45) as u64)
                &&& p.last_deployed_slot == Some(le_value(b.subrange(4, 12)) as u64)
                &&& text_of(p.upgrade_authority) == if b[12] == 1 {
                    Some(base58_encode(b.subrange(13, 45)))
                } else {
                    None
                }
            },
            None => {
                &&& p.error matches Some(e) && crate::text::starts_with(e@, "programdata_decode: "@)
                &&& p.program_data_sha256 == probe.program_data_sha256
                &&& p.program_data_length == probe.program_data_length
                &&& p.last_deployed_slot == probe.last_deployed_slot
                &&& p.upgrade_authority == probe.upgrade_authority
            },
        },
{
    let mut probe = probe;
    let bytes = match decode_base64_standard(data) {
        Ok(v) => v,
        Err(err) => {
            let e = cat2("programdata_decode: ", err.as_str());
            assert(e@.subrange(0, "programdata_decode: "@.len() as int) =~= "programdata_decode: "@);
            probe.error = Some(e);
            return probe;
        },
    };
    if bytes.len() < PROGRAMDATA_DATA_OFFSET {
        let n = crate::text::decimal_string(bytes.len() as u64);
        probe.error = Some(crate::text::cat3("programdata_header_short: ", n.as_str(), " bytes, want >= 45"));
        return probe;
    }
    let slot = read_le_u64(bytes.as_slice(), 4);
    let authority = if bytes[12] == 1 {
        let mut key: Vec<u8> = Vec::new();
        let mut k: usize = 13;
        while k < 45
            invariant
                13 <= k <= 45 <= bytes.len(),
                key@ == bytes@.subrange(13, k as int),
            decreases 45 - k,
        {
            key.push(bytes[k]);
            k = k + 1;
            assert(key@ =~= bytes@.subrange(13, k as int));
        }
        Some(encode_base58(key.as_slice()))
    } else {
        None
    };
    let mut program: Vec<u8> = Vec::new();
    let mut k: usize = PROGRAMDATA_DATA_OFFSET;
    while k < bytes.len()
        invariant
            45 <= k <= bytes.len(),
            program@ == bytes@.subrange(45, k as int),
        decreases bytes.len() - k,
    {
        program.push(bytes[k]);
        k = k + 1;
        assert(program@ =~= bytes@.subrange(45, k as int));
    }
    probe.program_data_sha256 = Some(sha256_hex(program.as_slice()));
    probe.program_data_length = Some(program.len() as u64);
    probe.last_deployed_slot = Some(slot);
    probe.upgrade_authority = authority;
    probe
}

} // verus!

verus! {

/// The owner of upgradeable programs: their bytes live in a separate
/// ProgramData account.
pub const BPF_UPGRADEABLE_LOADER: &'static str = "BPFLoaderUpgradeab1e11111111111111111111111";

/// An account as `getAccountInfo` answers it: its owner, where named, and
/// the base64 text of its data (empty where absent).
#[derive(Debug, Clone)]
pub struct RpcAccount {
    pub owner: Option<String>,
    pub data: String,
}

/// Where a probe stands after an answer.
#[derive(Debug, Clone)]
pub enum ProbeStep {
    /// The probe is complete.
    Done(DriftProbe),
    /// The program is upgradeable: its ProgramData account at `address`
    /// must be read next.
    FetchProgramData { probe: DriftProbe, address: String },
}

pub open spec fn error_is(p: DriftProbe, probe: DriftProbe, message: Seq<char>) -> bool {
    &&& p.cluster == probe.cluster
    &&& p.rpc_url == probe.rpc_url
    &&& p.program_data_sha256 == probe.program_data_sha256
    &&& p.program_data_length == probe.program_data_length
    &&& p.upgrade_authority == probe.upgrade_authority
    &&& p.last_deployed_slot == probe.last_deployed_slot
    &&& text_of(p.error) == Some(message)
}

fn with_error(probe: DriftProbe, message: String) -> (p: DriftProbe)
    ensures
        error_is(p, probe, message@),
{
    let mut probe = probe;
    probe.error = Some(message);
    probe
}

/// Starts probing `cluster` at `url`: a probe without an RPC endpoint is
/// done at once.
pub fn start_probe(cluster: ClusterKind, url: &str) -> (r: Option<DriftProbe>)
    ensures
        url@.len() == 0 ==> (r matches Some(p) && p.cluster == cluster && p.rpc_url@ == url@ && text_of(p.error)
            == Some("rpc_url_missing"@) && p.program_data_sha256 is None && p.program_data_length is None
            && p.upgrade_authority is None && p.last_deployed_slot is None),
        url@.len() > 0 ==> r is None,
{
    if url.unicode_len() == 0 {
        let p = empty_probe(cluster, url);
        return Some(with_error(p, crate::text::own("rpc_url_missing")));
    }
    None
}

/// What a probe makes of the program account: an RPC failure, a missing
/// account or owner end it; a program of another loader is read from the
/// account itself; an upgradeable one points at its ProgramData account
/// (bytes 4 to 36 of its state, in base58).
pub fn probe_program_account(probe: DriftProbe, answer: Result<Option<RpcAccount>, String>) -> (r: ProbeStep)
    ensures
        match answer {
            Err(m) => r matches ProbeStep::Done(p) && error_is(p, probe, "rpc: "@ + m@),
            Ok(None) => r matches ProbeStep::Done(p) && error_is(p, probe, "program_not_found"@),
            Ok(Some(acc)) => match acc.owner {
                None => r matches ProbeStep::Done(p) && error_is(p, probe, "program_owner_missing"@),
                Some(o) => if o@ != BPF_UPGRADEABLE_LOADER@ {
                    r matches ProbeStep::Done(p) && p.cluster == probe.cluster && match base64_standard_decode(acc.data@) {
                        Some(bytes) => p.program_data_length == Some(bytes.len() as u64) && text_of(
                            p.program_data_sha256,
                        ) == Some(hex(sha256(bytes))) && p.error == probe.error,
                        None => p.error is Some,
                    }
                } else {
                    match base64_standard_decode(acc.data@) {
                        None => r matches ProbeStep::Done(p) && p.error matches Some(e) && crate::text::starts_with(
                            e@,
                            "program_data_decode: "@,
                        ),
                        Some(b) => if b.len() < 36 {
                            r matches ProbeStep::Done(p) && error_is(p, probe, "program_state_too_short"@)
                        } else {
                            r matches ProbeStep::FetchProgramData { probe: q, address } && q == probe && address@
                                == base58_encode(b.subrange(4, 36))
                        },
                    }
                },
            },
        },
{
    let acc = match answer {
        Err(m) => {
            return ProbeStep::Done(with_error(probe, cat2("rpc: ", m.as_str())));
        },
        Ok(None) => {
            return ProbeStep::Done(with_error(probe, crate::text::own("program_not_found")));
        },
        Ok(Some(acc)) => acc,
    };
    let owner = match &acc.owner {
        None => {
            return ProbeStep::Done(with_error(probe, crate::text::own("program_owner_missing")));
        },
        Some(o) => o,
    };
    if !str_eq(owner.as_str(), BPF_UPGRADEABLE_LOADER) {
        return ProbeStep::Done(finalize_with_account(probe, acc.data.as_str()));
    }
    let decoded = match decode_base64_standard(acc.data.as_str()) {
        Ok(v) => v,
        Err(err) => {
            let e = cat2("program_data_decode: ", err.as_str());
            assert(e@.subrange(0, "program_data_decode: "@.len() as int) =~= "program_data_decode: "@);
            return ProbeStep::Done(with_error(probe, e));
        },
    };
    if decoded.len() < 36 {
        return ProbeStep::Done(with_error(probe, crate::text::own("program_state_too_short")));
    }
    let mut key: Vec<u8> = Vec::new();
    let mut k: usize = 4;
    while k < 36
        invariant
            4 <= k <= 36 <= decoded.len(),
            key@ == decoded@.subrange(4, k as int),
        decreases 36 - k,
    {
        key.push(decoded[k]);
        k = k + 1;
        assert(key@ =~= decoded@.subrange(4, k as int));
    }
    ProbeStep::FetchProgramData { probe, address: encode_base58(key.as_slice()) }
}

/// What a probe makes of the ProgramData account: an RPC failure or a
/// missing account end it; otherwise its header and bytes are recorded.
pub fn probe_programdata_account(probe: DriftProbe, answer: Result<Option<RpcAccount>, String>) -> (p: DriftProbe)
    ensures
        match answer {
            Err(m) => error_is(p, probe, "rpc_programdata: "@ + m@),
            Ok(None) => error_is(p, probe, "programdata_not_found"@),
            Ok(Some(acc)) => p.cluster == probe.cluster && p.rpc_url == probe.rpc_url && match base64_standard_decode(
                acc.data@,
            ) {
                Some(b) => if b.len() < 45 {
                    text_of(p.error) == Some(
                        "programdata_header_short: "@ + crate::text::decimal(b.len()) + " bytes, want >= 45"@,
                    )
                } else {
                    &&& p.error == probe.error
                    &&& text_of(p.program_data_sha256) == Some(hex(sha256(b.subrange(45, b.len() as int))))
                    &&& p.program_data_length == Some((b.len() - 45) as u64)
                    &&& p.last_deployed_slot == Some(le_value(b.subrange(4, 12)) as u64)
                    &&& text_of(p.upgrade_authority) == if b[12] == 1 {
                        Some(base58_encode(b.subrange(13, 45)))
                    } else {
                        None
                    }
                },
                None => p.error matches Some(e) && crate::text::starts_with(e@, "programdata_decode: "@),
            },
        },
{
    match answer {
        Err(m) => with_error(probe, cat2("rpc_programdata: ", m.as_str())),
        Ok(None) => with_error(probe, crate::text::own("programdata_not_found")),
        Ok(Some(acc)) => finalize_with_programdata(probe, acc.data.as_str()),
    }
}

} // verus!

verus! {

/// The hashes that the probes report, in probe order.
pub open spec fn reported_hashes(ps: Seq<DriftProbe>) -> Seq<Seq<char>>
    decreases ps.len(),
{
    if ps.len() == 0 {
        seq![]
    } else {
        let r = reported_hashes(ps.drop_last());
        match ps.last().program_data_sha256 {
            Some(h) => r.push(h@),
            None => r,
        }
    }
}

/// The labels of the clusters whose probe reports hash `h`, in probe order.
pub open spec fn clusters_reporting(ps: Seq<DriftProbe>, h: Seq<char>) -> Seq<Seq<char>>
    decreases ps.len(),
{
    if ps.len() == 0 {
        seq![]
    } else {
        let r = clusters_reporting(ps.drop_last(), h);
        if ps.last().program_data_sha256 matches Some(x) && x@ == h {
            r.push(crate::cluster::cluster_label(ps.last().cluster))
        } else {
            r
        }
    }
}

/// The first eight characters of a hash.
pub open spec fn short_hash(h: Seq<char>) -> Seq<char> {
    if h.len() <= 8 {
        h
    } else {
        h.take(8)
    }
}

/// One group of a drift summary: the clusters that share hash `h`.
pub open spec fn drift_group(ps: Seq<DriftProbe>, h: Seq<char>) -> Seq<char> {
    crate::lines::join(clusters_reporting(ps, h), "+"@) + ": "@ + short_hash(h) + "…"@
}

/// The groups of a drift summary, one per distinct hash in text order.
pub open spec fn drift_groups(ps: Seq<DriftProbe>) -> Seq<Seq<char>> {
    crate::sorting::sorted_set(reported_hashes(ps)).map_values(|h: Seq<char>| drift_group(ps, h))
}

/// The sentence that the report shows for a program.
pub open spec fn summary_text(label: Seq<char>, ps: Seq<DriftProbe>, status: DriftStatus) -> Seq<char> {
    match status {
        DriftStatus::InSync => label + " has identical bytes across "@
            + crate::text::decimal(reported_hashes(ps).len()) + " cluster(s)."@,
        DriftStatus::Drift => label + " drifts: "@ + crate::lines::join(drift_groups(ps), " | "@),
        DriftStatus::PartiallyDeployed => label
            + " is missing on at least one cluster — deploy before cross-cluster work."@,
        DriftStatus::Inconclusive => label + " lookups failed. Check RPC health and try again."@,
    }
}

fn reported_hash_list(probes: &[DriftProbe]) -> (r: Vec<String>)
    ensures
        crate::sorting::string_views(r@) == reported_hashes(probes@),
{
    let mut out: Vec<String> = Vec::new();
    let mut i: usize = 0;
    while i < probes.len()
        invariant
            i <= probes.len(),
            crate::sorting::string_views(out@) == reported_hashes(probes@.subrange(0, i as int)),
        decreases probes.len() - i,
    {
        proof {
            assert(probes@.subrange(0, i + 1).drop_last() =~= probes@.subrange(0, i as int));
        }
        let ghost before = out@;
        match &probes[i].program_data_sha256 {
            Some(h) => {
                out.push(crate::text::own(h.as_str()));
                assert(crate::sorting::string_views(out@) =~= crate::sorting::string_views(before).push(h@));
            },
            None => {},
        }
        i = i + 1;
    }
    proof {
        assert(probes@.subrange(0, probes@.len() as int) =~= probes@);
    }
    out
}

fn clusters_reporting_list(probes: &[DriftProbe], h: &str) -> (r: Vec<String>)
    ensures
        crate::sorting::string_views(r@) == clusters_reporting(probes@, h@),
{
    let mut out: Vec<String> = Vec::new();
    let mut i: usize = 0;
    while i < probes.len()
        invariant
            i <= probes.len(),
            crate::sorting::string_views(out@) == clusters_reporting(probes@.subrange(0, i as int), h@),
        decreases probes.len() - i,
    {
        proof {
            assert(probes@.subrange(0, i + 1).drop_last() =~= probes@.subrange(0, i as int));
        }
        let ghost before = out@;
        match &probes[i].program_data_sha256 {
            Some(x) => {
                if str_eq(x.as_str(), h) {
                    out.push(crate::text::own(probes[i].cluster.as_str()));
                    assert(crate::sorting::string_views(out@) =~= crate::sorting::string_views(before).push(
                        crate::cluster::cluster_label(probes@[i as int].cluster),
                    ));
                }
            },
            None => {},
        }
        i = i + 1;
    }
    proof {
        assert(probes@.subrange(0, probes@.len() as int) =~= probes@);
    }
    out
}

fn short_hash_text(h: &str) -> (r: String)
    ensures
        r@ == short_hash(h@),
{
    let v = chars_of(h);
    let n: usize = if v.len() <= 8 { v.len() } else { 8 };
    let s = crate::text::string_of_range(&v, 0, n);
    assert(s@ =~= short_hash(h@));
    s
}

/// The sentence that the report shows for a program, from its probes and
/// its status.
pub fn summarise(program: &TrackedProgram, probes: &[DriftProbe], status: DriftStatus) -> (r: String)
    ensures
        r@ == summary_text(program.label@, probes@, status),
{
    let label = program.label.as_str();
    match status {
        DriftStatus::InSync => {
            let hs = reported_hash_list(probes);
            let n = crate::text::decimal_string(hs.len() as u64);
            let head = crate::text::cat3(label, " has identical bytes across ", n.as_str());
            cat2(head.as_str(), " cluster(s).")
        },
        DriftStatus::Drift => {
            let hs = reported_hash_list(probes);
            let sorted = crate::sorting::sorted_set_of(hs);
            let ghost want = drift_groups(probes@);
            let mut groups: Vec<String> = Vec::new();
            let mut k: usize = 0;
            while k < sorted.len()
                invariant
                    k <= sorted.len(),
                    crate::sorting::string_views(sorted@) == crate::sorting::sorted_set(reported_hashes(probes@)),
                    want == drift_groups(probes@),
                    crate::sorting::string_views(groups@) == want.subrange(0, k as int),
                decreases sorted.len() - k,
            {
                let cl = clusters_reporting_list(probes, sorted[k].as_str());
                let joined = crate::dispatch::join_texts(&cl, 0, "+");
                let short = short_hash_text(sorted[k].as_str());
                let head = crate::text::cat3(joined.as_str(), ": ", short.as_str());
                let g = cat2(head.as_str(), "…");
                proof {
                    assert(crate::sorting::string_views(cl@).subrange(0, cl@.len() as int)
                        =~= crate::sorting::string_views(cl@));
                    assert(crate::sorting::string_views(sorted@)[k as int] == sorted@[k as int]@);
                    assert(g@ == want[k as int]);
                }
                let ghost before = groups@;
                groups.push(g);
                assert(crate::sorting::string_views(groups@) =~= crate::sorting::string_views(before).push(g@));
                assert(want.len() == sorted@.len());
                assert(crate::sorting::string_views(groups@) =~= want.subrange(0, k + 1));
                k = k + 1;
            }
            let all = crate::dispatch::join_texts(&groups, 0, " | ");
            proof {
                assert(want.len() == sorted@.len());
                assert(crate::sorting::string_views(groups@).subrange(0, groups@.len() as int) =~= want);
            }
            crate::text::cat3(label, " drifts: ", all.as_str())
        },
        DriftStatus::PartiallyDeployed => cat2(
            label,
            " is missing on at least one cluster — deploy before cross-cluster work.",
        ),
        DriftStatus::Inconclusive => cat2(label, " lookups failed. Check RPC health and try again."),
    }
}

} // verus!

verus! {

/// Label and id of a tracked program.
pub type ProgramView = (Seq<char>, Seq<char>);

pub open spec fn program_view(p: TrackedProgram) -> ProgramView {
    (p.label@, p.program_id@)
}

pub open spec fn program_views(ps: Seq<TrackedProgram>) -> Seq<ProgramView> {
    ps.map_values(|p: TrackedProgram| program_view(p))
}

/// The programs a check covers: the built-in registry unless skipped, then
/// the request's own.
pub open spec fn drift_targets_of(request: DriftCheckRequest, builtins: Seq<TrackedProgram>) -> Seq<ProgramView> {
    (if request.skip_builtins {
        Seq::empty()
    } else {
        program_views(builtins)
    }) + program_views(request.additional@)
}

pub open spec fn no_programs_message() -> Seq<char> {
    "Drift check needs at least one tracked program. Pass `additional` or unset `skip_builtins`."@
}

fn copy_program(p: &TrackedProgram) -> (r: TrackedProgram)
    ensures
        program_view(r) == program_view(*p),
{
    TrackedProgram { label: own(p.label.as_str()), program_id: own(p.program_id.as_str()) }
}

/// The programs that a drift check covers, given the built-in registry; an
/// error where there are none.
pub fn drift_targets(request: &DriftCheckRequest, builtins: Vec<TrackedProgram>) -> (r: CommandResult<
    Vec<TrackedProgram>,
>)
    ensures
        drift_targets_of(*request, builtins@).len() == 0 ==> (r matches Err(e) && user_fixable_is(
            e,
            "solana_drift_no_programs"@,
            no_programs_message(),
        )),
        drift_targets_of(*request, builtins@).len() > 0 ==> (r matches Ok(v) && program_views(v@)
            == drift_targets_of(*request, builtins@)),
{
    let mut targets: Vec<TrackedProgram> = if request.skip_builtins {
        Vec::new()
    } else {
        builtins
    };
    let ghost head = program_views(targets@);
    let mut i: usize = 0;
    while i < request.additional.len()
        invariant
            i <= request.additional.len(),
            program_views(targets@) == head + program_views(request.additional@).subrange(0, i as int),
        decreases request.additional.len() - i,
    {
        let ghost before = targets@;
        targets.push(copy_program(&request.additional[i]));
        assert(program_views(targets@) =~= program_views(before).push(program_view(request.additional@[i as int])));
        assert(program_views(targets@) =~= head + program_views(request.additional@).subrange(0, i + 1));
        i = i + 1;
    }
    assert(program_views(request.additional@).subrange(0, request.additional@.len() as int)
        =~= program_views(request.additional@));
    assert(head =~= (if request.skip_builtins {
        Seq::empty()
    } else {
        program_views(builtins@)
    }));
    if targets.len() == 0 {
        return Err(
            CommandError::user_fixable(
                "solana_drift_no_programs",
                "Drift check needs at least one tracked program. Pass `additional` or unset `skip_builtins`.",
            ),
        );
    }
    Ok(targets)
}

/// The clusters a check asks for: those of the request, or every cluster.
pub open spec fn drift_clusters_of(request: DriftCheckRequest) -> Seq<ClusterKind> {
    if request.clusters@.len() == 0 {
        crate::cluster::all_clusters()
    } else {
        request.clusters@
    }
}

/// The clusters that a drift check asks for.
pub fn drift_clusters(request: &DriftCheckRequest) -> (r: Vec<ClusterKind>)
    ensures
        r@ == drift_clusters_of(*request),
{
    if request.clusters.len() == 0 {
        return ClusterKind::all();
    }
    let mut out: Vec<ClusterKind> = Vec::new();
    let mut i: usize = 0;
    while i < request.clusters.len()
        invariant
            i <= request.clusters.len(),
            out@ == request.clusters@.subrange(0, i as int),
        decreases request.clusters.len() - i,
    {
        out.push(request.clusters[i]);
        assert(out@ =~= request.clusters@.subrange(0, i + 1));
        i = i + 1;
    }
    assert(request.clusters@.subrange(0, request.clusters@.len() as int) =~= request.clusters@);
    out
}

/// The URL that the request sets for cluster `c`: the first override of it.
pub open spec fn override_url(ov: Seq<(ClusterKind, String)>, c: ClusterKind) -> Option<Seq<char>>
    decreases ov.len(),
{
    if ov.len() == 0 {
        None
    } else if ov[0].0 == c {
        Some(ov[0].1@)
    } else {
        override_url(ov.drop_first(), c)
    }
}

/// The URL for the cluster at a position: its override, else the healthy
/// endpoint that the router picked for it.
pub open spec fn resolved_url(ov: Seq<(ClusterKind, String)>, c: ClusterKind, healthy: Option<String>) -> Option<
    Seq<char>,
> {
    match override_url(ov, c) {
        Some(u) => Some(u),
        None => match healthy {
            Some(h) => Some(h@),
            None => None,
        },
    }
}

/// The clusters that got a URL, in order, each with its URL.
pub open spec fn reachable(cs: Seq<ClusterKind>, ov: Seq<(ClusterKind, String)>, hs: Seq<Option<String>>) -> Seq<
    (ClusterKind, Seq<char>),
>
    decreases cs.len(),
{
    if cs.len() == 0 {
        seq![]
    } else {
        let r = reachable(cs.drop_last(), ov, hs);
        match resolved_url(ov, cs.last(), hs[cs.len() - 1]) {
            Some(u) => r.push((cs.last(), u)),
            None => r,
        }
    }
}

/// The last position of `pairs` that holds cluster `c`, or -1.
pub open spec fn last_at(pairs: Seq<(ClusterKind, Seq<char>)>, c: ClusterKind) -> int
    decreases pairs.len(),
{
    if pairs.len() == 0 {
        -1
    } else if pairs.last().0 == c {
        pairs.len() - 1
    } else {
        last_at(pairs.drop_last(), c)
    }
}

/// The checked clusters and the URL each is probed at: where a cluster was
/// asked for twice, the URL that resolved last serves both.
pub open spec fn probe_plan_is(
    cs: Seq<ClusterKind>,
    ov: Seq<(ClusterKind, String)>,
    hs: Seq<Option<String>>,
    checked: Seq<ClusterKind>,
    urls: Seq<Seq<char>>,
) -> bool {
    let pairs = reachable(cs, ov, hs);
    &&& checked.len() == pairs.len()
    &&& urls.len() == pairs.len()
    &&& forall|i: int| 0 <= i < pairs.len() ==> #[trigger] checked[i] == pairs[i].0
    &&& forall|i: int| 0 <= i < pairs.len() ==> #[trigger] urls[i] == pairs[last_at(pairs, pairs[i].0)].1
}

proof fn lemma_last_at(pairs: Seq<(ClusterKind, Seq<char>)>, c: ClusterKind, j: int)
    requires
        0 <= j < pairs.len(),
        pairs[j].0 == c,
        forall|k: int| j < k < pairs.len() ==> (#[trigger] pairs[k]).0 != c,
    ensures
        last_at(pairs, c) == j,
    decreases pairs.len(),
{
    if j < pairs.len() - 1 {
        assert(pairs.last() == pairs[pairs.len() - 1]);
        let t = pairs.drop_last();
        assert forall|k: int| j < k < t.len() implies (#[trigger] t[k]).0 != c by {
            assert(t[k] == pairs[k]);
        }
        lemma_last_at(t, c, j);
    }
}

fn override_for(ov: &Vec<(ClusterKind, String)>, c: ClusterKind) -> (r: Option<String>)
    ensures
        crate::text::owned_text(r) == override_url(ov@, c),
{
    let mut i: usize = 0;
    assert(ov@.subrange(0, ov@.len() as int) =~= ov@);
    while i < ov.len()
        invariant
            i <= ov.len(),
            override_url(ov@, c) == override_url(ov@.subrange(i as int, ov@.len() as int), c),
        decreases ov.len() - i,
    {
        let ghost t = ov@.subrange(i as int, ov@.len() as int);
        assert(t.drop_first() =~= ov@.subrange(i + 1, ov@.len() as int));
        assert(t[0] == ov@[i as int]);
        if ov[i].0 == c {
            return Some(own(ov[i].1.as_str()));
        }
        i = i + 1;
    }
    None
}

/// The clusters that a check probes and the URL each is probed at, given
/// the endpoint that the router picked for each asked cluster (`healthy`,
/// position by position).
pub fn plan_probes(clusters: &Vec<ClusterKind>, request: &DriftCheckRequest, healthy: &Vec<Option<String>>) -> (r: (
    Vec<ClusterKind>,
    Vec<String>,
))
    requires
        healthy.len() == clusters.len(),
    ensures
        probe_plan_is(clusters@, request.rpc_urls@, healthy@, r.0@, crate::sorting::string_views(r.1@)),
{
    let ghost ov = request.rpc_urls@;
    let mut checked: Vec<ClusterKind> = Vec::new();
    let mut found: Vec<String> = Vec::new();
    let mut i: usize = 0;
    while i < clusters.len()
        invariant
            i <= clusters.len() == healthy.len(),
            ov == request.rpc_urls@,
            checked.len() == found.len(),
            forall|k: int| 0 <= k < checked.len() ==> #[trigger] reachable(clusters@.subrange(0, i as int), ov, healthy@)[k]
                == (checked@[k], found@[k]@),
            reachable(clusters@.subrange(0, i as int), ov, healthy@).len() == checked.len(),
        decreases clusters.len() - i,
    {
        let c = clusters[i];
        let ghost cs1 = clusters@.subrange(0, i + 1);
        proof {
            assert(cs1.drop_last() =~= clusters@.subrange(0, i as int));
            assert(cs1.last() == c);
        }
        let url: Option<String> = match override_for(&request.rpc_urls, c) {
            Some(u) => Some(u),
            None => match &healthy[i] {
                Some(h) => Some(own(h.as_str())),
                None => None,
            },
        };
        match url {
            Some(u) => {
                checked.push(c);
                found.push(u);
            },
            None => {},
        }
        i = i + 1;
    }
    proof {
        assert(clusters@.subrange(0, clusters@.len() as int) =~= clusters@);
    }
    let ghost pairs = reachable(clusters@, ov, healthy@);
    let mut urls: Vec<String> = Vec::new();
    let n = checked.len();
    let mut i: usize = 0;
    while i < n
        invariant
            i <= n == checked.len() == found.len(),
            pairs == reachable(clusters@, request.rpc_urls@, healthy@),
            pairs.len() == n,
            forall|k: int| 0 <= k < n ==> #[trigger] pairs[k] == (checked@[k], found@[k]@),
            urls.len() == i,
            forall|a: int| 0 <= a < i ==> #[trigger] crate::sorting::string_views(urls@)[a]
                == pairs[last_at(pairs, pairs[a].0)].1,
        decreases n - i,
    {
        let c = checked[i];
        let mut j: usize = n - 1;
        while j > i && checked[j] != c
            invariant
                i <= j < n == checked.len(),
                checked@[i as int] == c,
                forall|k: int| j < k < n ==> checked@[k] != c,
            decreases j,
        {
            j = j - 1;
        }
        let ghost before = urls@;
        urls.push(own(found[j].as_str()));
        proof {
            assert(checked@[j as int] == c);
            assert(pairs[j as int] == (checked@[j as int], found@[j as int]@));
            assert(pairs[i as int] == (checked@[i as int], found@[i as int]@));
            assert forall|k: int| j < k < pairs.len() implies (#[trigger] pairs[k]).0 != c by {
                assert(pairs[k] == (checked@[k], found@[k]@));
            }
            lemma_last_at(pairs, c, j as int);
            assert forall|a: int| 0 <= a < i + 1 implies #[trigger] crate::sorting::string_views(urls@)[a]
                == pairs[last_at(pairs, pairs[a].0)].1 by {
                if a < i {
                    assert(crate::sorting::string_views(urls@)[a] == crate::sorting::string_views(before)[a]);
                } else {
                    assert(crate::sorting::string_views(urls@)[a] == found@[j as int]@);
                }
            }
        }
        i = i + 1;
    }
    proof {
        assert forall|k: int| 0 <= k < pairs.len() implies #[trigger] checked@[k] == pairs[k].0 by {
            assert(pairs[k] == (checked@[k], found@[k]@));
        }
        assert(crate::sorting::string_views(urls@).len() == pairs.len());
        assert(checked@.len() == pairs.len());
    }
    (checked, urls)
}

} // verus!

verus! {

/// Label, program id, status, probes and summary of a report entry.
pub type DriftEntryView = (Seq<char>, Seq<char>, DriftStatus, Seq<DriftProbe>, Seq<char>);

pub open spec fn entry_view(e: DriftEntry) -> DriftEntryView {
    (e.program.label@, e.program.program_id@, e.status, e.probes@, e.summary@)
}

pub open spec fn entry_views(es: Seq<DriftEntry>) -> Seq<DriftEntryView> {
    es.map_values(|e: DriftEntry| entry_view(e))
}

/// The entry of a program with its probes: their status and summary.
pub open spec fn entry_of(p: TrackedProgram, ps: Seq<DriftProbe>) -> DriftEntryView {
    (p.label@, p.program_id@, drift_status(ps), ps, summary_text(p.label@, ps, drift_status(ps)))
}

/// Entries in label order.
pub open spec fn entry_less() -> spec_fn(DriftEntryView, DriftEntryView) -> bool {
    |a: DriftEntryView, b: DriftEntryView| crate::text::text_less(a.0, b.0)
}

/// The entries of a report, one per program, sorted by label (programs
/// with one label keep their order).
pub open spec fn report_entries(programs: Seq<TrackedProgram>, probes: Seq<Vec<DriftProbe>>) -> Seq<DriftEntryView> {
    crate::sorting::sort_by(
        Seq::new(programs.len(), |i: int| entry_of(programs[i], probes[i]@)),
        entry_less(),
    )
}

/// The report of a drift check, from each program's probes (in the order of
/// the checked clusters), the clusters checked and the time it took.
pub fn assemble_drift_report(
    programs: Vec<TrackedProgram>,
    probes: Vec<Vec<DriftProbe>>,
    clusters_checked: Vec<ClusterKind>,
    duration_ms: u64,
) -> (r: DriftReport)
    requires
        programs.len() == probes.len(),
    ensures
        entry_views(r.entries@) == report_entries(programs@, probes@),
        r.clusters_checked@ == clusters_checked@,
        r.duration_ms == duration_ms,
        r.has_drift == exists|i: int|
            0 <= i < probes@.len() && drift_status(#[trigger] probes@[i]@) == DriftStatus::Drift,
{
    let ghost progs = programs@;
    let ghost pss = probes@;
    let ghost unsorted = Seq::new(progs.len(), |i: int| entry_of(progs[i], pss[i]@));
    let n = programs.len();
    let mut prog_rest = programs;
    let mut probe_rest = probes;
    let mut built: Vec<DriftEntry> = Vec::new();
    let mut had_drift = false;
    let mut i: usize = 0;
    while i < n
        invariant
            n == progs.len() == pss.len(),
            unsorted == Seq::new(progs.len(), |k: int| entry_of(progs[k], pss[k]@)),
            i <= n,
            prog_rest@ == progs.subrange(i as int, n as int),
            probe_rest@ == pss.subrange(i as int, n as int),
            entry_views(built@) == unsorted.subrange(0, i as int),
            had_drift == exists|k: int| 0 <= k < i && drift_status(#[trigger] pss[k]@) == DriftStatus::Drift,
        decreases n - i,
    {
        let program = prog_rest.remove(0);
        let ps = probe_rest.remove(0);
        proof {
            assert(program == progs[i as int]);
            assert(ps == pss[i as int]);
        }
        let status = classify(ps.as_slice());
        let summary = summarise(&program, ps.as_slice(), status);
        if status == DriftStatus::Drift {
            had_drift = true;
        }
        let ghost before = built@;
        built.push(DriftEntry { program, status, probes: ps, summary });
        assert(entry_views(built@) =~= entry_views(before).push(unsorted[i as int]));
        assert(entry_views(built@) =~= unsorted.subrange(0, i + 1));
        i = i + 1;
    }
    assert(unsorted.subrange(0, n as int) =~= unsorted);
    let ghost all = entry_views(built@);
    let ghost src = built@;
    let mut rest = built;
    let mut out: Vec<DriftEntry> = Vec::new();
    let mut i: usize = 0;
    while i < n
        invariant
            n == src.len(),
            all == entry_views(src),
            i <= n,
            rest@ == src.subrange(i as int, n as int),
            entry_views(out@) == crate::sorting::sort_by(all.subrange(0, i as int), entry_less()),
        decreases n - i,
    {
        let x = rest.remove(0);
        proof {
            assert(all.subrange(0, i + 1).drop_last() =~= all.subrange(0, i as int));
            assert(x == src[i as int]);
        }
        let mut p: usize = 0;
        while p < out.len() && !crate::text::text_less_exec(x.program.label.as_str(), out[p].program.label.as_str())
            invariant
                p <= out.len(),
                forall|j: int| 0 <= j < p ==> !(entry_less())(entry_view(x), #[trigger] entry_views(out@)[j]),
            decreases out.len() - p,
        {
            p = p + 1;
        }
        let ghost before = out@;
        proof {
            crate::sorting::lemma_insert_sorted_at(entry_views(out@), entry_view(x), entry_less(), p as int);
        }
        out.insert(p, x);
        assert(entry_views(out@) =~= entry_views(before).insert(p as int, entry_view(x)));
        i = i + 1;
    }
    proof {
        assert(all.subrange(0, n as int) =~= all);
    }
    DriftReport { entries: out, clusters_checked, duration_ms, has_drift: had_drift }
}

} // verus!

verus! {

/// Probes that all found the program with one hash are in sync.
pub proof fn law_identical_hashes_are_in_sync(ps: Seq<DriftProbe>, h: Seq<char>)
    requires
        ps.len() > 0,
        forall|i: int| 0 <= i < ps.len() ==> #[trigger] is_present(ps[i]) && hash_of(ps[i]) == h,
    ensures
        drift_status(ps) == DriftStatus::InSync,
{
    assert(is_present(ps[0]));
    assert forall|i: int| 0 <= i < ps.len() implies !#[trigger] is_failed(ps[i]) by {
        assert(is_present(ps[i]));
    }
    assert forall|i: int| 0 <= i < ps.len() implies !#[trigger] is_missing(ps[i]) by {
        assert(is_present(ps[i]));
    }
    assert forall|a: int, b: int|
        0 <= a < ps.len() && 0 <= b < ps.len() && #[trigger] is_present(ps[a]) && #[trigger] is_present(ps[b])
        implies hash_of(ps[a]) == hash_of(ps[b]) by {
        assert(hash_of(ps[a]) == h);
        assert(hash_of(ps[b]) == h);
    }
}

/// Where one cluster lacks the program and another has it, and every lookup
/// completed, the program is partially deployed.
pub proof fn law_missing_beside_present_is_partial(ps: Seq<DriftProbe>, i: int, j: int)
    requires
        0 <= i < ps.len(),
        0 <= j < ps.len(),
        is_missing(ps[i]),
        is_present(ps[j]),
        forall|k: int| 0 <= k < ps.len() ==> !#[trigger] is_failed(ps[k]),
    ensures
        drift_status(ps) == DriftStatus::PartiallyDeployed,
{
}

/// A lookup that could not complete on one cluster makes the check
/// inconclusive, whatever the other clusters hold.
pub proof fn law_failed_lookup_is_inconclusive(ps: Seq<DriftProbe>, i: int)
    requires
        0 <= i < ps.len(),
        is_failed(ps[i]),
    ensures
        drift_status(ps) == DriftStatus::Inconclusive,
{
}

} // verus!
