//! The Solana clusters that the workbench can talk to.

use vstd::prelude::*;

verus! {

/// A Solana cluster. The declaration order is the order in which the
/// workbench lists clusters.
#[derive(Debug, Clone, Copy, PartialEq, Eq, PartialOrd, Ord, Hash, Structural)]
pub enum ClusterKind {
    Localnet,
    MainnetFork,
    Devnet,
    Mainnet,
}

/// Every cluster, in declaration order.
pub open spec fn all_clusters() -> Seq<ClusterKind> {
    seq![ClusterKind::Localnet, ClusterKind::MainnetFork, ClusterKind::Devnet, ClusterKind::Mainnet]
}

/// The position of a cluster in declaration order.
pub open spec fn cluster_rank(c: ClusterKind) -> int {
    match c {
        ClusterKind::Localnet => 0,
        ClusterKind::MainnetFork => 1,
        ClusterKind::Devnet => 2,
        ClusterKind::Mainnet => 3,
    }
}

pub open spec fn cluster_label(c: ClusterKind) -> Seq<char> {
    match c {
        ClusterKind::Localnet => "localnet"@,
        ClusterKind::MainnetFork => "mainnet_fork"@,
        ClusterKind::Devnet => "devnet"@,
        ClusterKind::Mainnet => "mainnet"@,
    }
}

impl ClusterKind {
    /// Every cluster, in declaration order.
    pub fn all() -> (v: Vec<ClusterKind>)
        ensures
            v@ == all_clusters(),
    {
        let v = vec![ClusterKind::Localnet, ClusterKind::MainnetFork, ClusterKind::Devnet, ClusterKind::Mainnet];
        assert(v@ =~= all_clusters());
        v
    }

    pub fn as_str(self) -> (s: &'static str)
        ensures
            s@ == cluster_label(self),
    {
        match self {
            ClusterKind::Localnet => "localnet",
            ClusterKind::MainnetFork => "mainnet_fork",
            ClusterKind::Devnet => "devnet",
            ClusterKind::Mainnet => "mainnet",
        }
    }
}

/// Whether `c` is one of `v`.
pub fn cluster_in(v: &[ClusterKind], c: ClusterKind) -> (r: bool)
    ensures
        r == v@.contains(c),
{
    let mut i: usize = 0;
    while i < v.len()
        invariant
            i <= v.len(),
            forall|k: int| 0 <= k < i ==> v@[k] != c,
        decreases v.len() - i,
    {
        if v[i] == c {
            assert(v@[i as int] == c);
            return true;
        }
        i = i + 1;
    }
    false
}

} // verus!
