//! Which peers are remembered across runs.

use vstd::prelude::*;

use crate::app::peers::{PeerHandle, PeerRegistryState, PeerState, PeerTarget};
use crate::text::{opt_clone, str_eq};

verus! {

/// How a remembered peer is reached.
#[derive(Debug, PartialEq, Eq)]
pub enum PeerTargetSnapshot {
    SocketPath { path: String },
    Ssh { destination: String, session: Option<String> },
}

/// A peer as it is remembered.
#[derive(Debug, PartialEq, Eq)]
pub struct PeerSnapshot {
    pub name: String,
    /// The label, when it is not the one derived from the target.
    pub label: Option<String>,
    pub target: PeerTargetSnapshot,
}

/// The contents of a [`PeerSnapshot`].
pub struct SnapshotView {
    pub name: Seq<char>,
    pub label: Option<Seq<char>>,
    pub target: crate::app::peers::TargetView,
}

impl PeerTargetSnapshot {
    /// The target this remembers.
    pub open spec fn target(self) -> crate::app::peers::TargetView {
        match self {
            PeerTargetSnapshot::SocketPath { path } => crate::app::peers::TargetView::SocketPath(
                path@,
            ),
            PeerTargetSnapshot::Ssh {
                destination,
                session,
            } => crate::app::peers::TargetView::Ssh {
                destination: destination@,
                session: crate::text::opt_view(session),
            },
        }
    }
}

impl View for PeerSnapshot {
    type V = SnapshotView;

    open spec fn view(&self) -> SnapshotView {
        SnapshotView {
            name: self.name@,
            label: crate::text::opt_view(self.label),
            target: self.target.target(),
        }
    }
}

/// The contents of a list of snapshots.
pub open spec fn snapshots_view(snapshots: Seq<PeerSnapshot>) -> Seq<SnapshotView> {
    snapshots.map_values(|s: PeerSnapshot| s@)
}

/// What is remembered of a peer: its name, how to reach it, and a label the user
/// changed.
pub open spec fn snapshot_of(peer: crate::app::peers::PeerView) -> SnapshotView {
    SnapshotView {
        name: peer.handle,
        label: if peer.label != peer.target.description() {
            Some(peer.label)
        } else {
            None
        },
        target: peer.target,
    }
}

/// A peer as it comes back: disconnected, with nothing learned, under the name,
/// target and label that were remembered.
pub open spec fn restored_peer(snapshot: SnapshotView) -> crate::app::peers::PeerView {
    crate::app::peers::PeerView {
        label: match snapshot.label {
            Some(label) => label,
            None => snapshot.target.description(),
        },
        ..crate::app::peers::PeerView::fresh(snapshot.name, snapshot.target)
    }
}

/// The registry a list of snapshots comes back as. A snapshot whose name or
/// target an earlier one has is dropped.
pub open spec fn restored(snapshots: Seq<SnapshotView>) -> Seq<crate::app::peers::PeerView>
    decreases snapshots.len(),
{
    if snapshots.len() == 0 {
        Seq::empty()
    } else {
        let before = restored(snapshots.drop_last());
        let last = snapshots.last();
        if crate::search::any(before, crate::app::peers::has_handle(last.name))
            || crate::search::any(before, crate::app::peers::has_target(last.target)) {
            before
        } else {
            before.push(restored_peer(last))
        }
    }
}

fn target_snapshot(target: &PeerTarget) -> (r: PeerTargetSnapshot)
    ensures
        r.target() == target@,
{
    match target {
        PeerTarget::SocketPath(path) => PeerTargetSnapshot::SocketPath { path: path.clone() },
        PeerTarget::Ssh { destination, session } => PeerTargetSnapshot::Ssh {
            destination: destination.clone(),
            session: opt_clone(session),
        },
    }
}

fn target_of(snapshot: &PeerTargetSnapshot) -> (r: PeerTarget)
    ensures
        r@ == snapshot.target(),
{
    match snapshot {
        PeerTargetSnapshot::SocketPath { path } => PeerTarget::SocketPath(path.clone()),
        PeerTargetSnapshot::Ssh { destination, session } => PeerTarget::Ssh {
            destination: destination.clone(),
            session: opt_clone(session),
        },
    }
}

fn peer_snapshot(peer: &PeerState) -> (r: PeerSnapshot)
    ensures
        r@ == snapshot_of(peer@),
{
    // The default label is derived from the target, so only a label the user
    // actually changed is worth storing.
    let label = if str_eq(peer.label.as_str(), peer.target.describe().as_str()) {
        None
    } else {
        Some(peer.label.clone())
    };
    PeerSnapshot {
        name: peer.handle.as_str().to_owned(),
        label,
        target: target_snapshot(&peer.target),
    }
}

/// Converts configured peers into their persisted form.
///
/// Only how to reach a peer is stored. Connection state and enumerated
/// workspaces are left out: they describe a live connection and are rebuilt by
/// reconnecting, so persisting them would restore stale claims about a peer that
/// may now be unreachable or a different server entirely.
pub fn peer_snapshots(peers: &PeerRegistryState) -> (r: Vec<PeerSnapshot>)
    ensures
        snapshots_view(r@) == peers@.map_values(|p| snapshot_of(p)),
{
    let list = peers.iter();
    let mut out: Vec<PeerSnapshot> = Vec::new();
    let mut i: usize = 0;
    while i < list.len()
        invariant
            i <= list.len(),
            out@.len() == i,
            forall|j: int| 0 <= j < i ==> (#[trigger] out@[j])@ == snapshot_of(list@[j]@),
        decreases list.len() - i,
    {
        out.push(peer_snapshot(&list[i]));
        i += 1;
    }
    assert(snapshots_view(out@) =~= peers@.map_values(|p| snapshot_of(p)));
    out
}

/// Rebuilds the configured peer set from a snapshot.
///
/// Every restored peer starts disconnected. A duplicate in the snapshot means
/// that the file was edited by hand; the first is kept and the rest dropped
/// rather than failing the whole restore.
pub fn restore_peers(snapshots: &Vec<PeerSnapshot>) -> (r: PeerRegistryState)
    ensures
        r@ == restored(snapshots_view(snapshots@)),
        crate::app::peers::consistent(r@),
{
    let mut peers = PeerRegistryState::default();
    let ghost all = snapshots_view(snapshots@);
    let mut i: usize = 0;
    while i < snapshots.len()
        invariant
            i <= snapshots.len(),
            all == snapshots_view(snapshots@),
            peers@ == restored(all.take(i as int)),
            crate::app::peers::consistent(peers@),
        decreases snapshots.len() - i,
    {
        let snapshot = &snapshots[i];
        let ghost before = peers@;
        let handle = PeerHandle::new(snapshot.name.as_str());
        let target = target_of(&snapshot.target);
        let added = peers.add(handle.clone(), target);
        assert(all.take(i as int + 1).drop_last() =~= all.take(i as int));
        assert(all.take(i as int + 1).last() == snapshot@);
        if added.is_ok() {
            proof {
                crate::search::lemma_first(before, crate::app::peers::has_handle(handle@), 0);
                crate::search::lemma_first_is(
                    peers@,
                    crate::app::peers::has_handle(handle@),
                    0,
                    before.len() as int,
                );
            }
            let ghost pushed = peers@;
            match (&snapshot.label, peers.get_mut(&handle)) {
                (Some(label), Some(peer)) => {
                    peer.label = label.clone();
                },
                _ => {},
            }
            assert(peers@ =~= before.push(restored_peer(snapshot@)));
            assert(crate::app::peers::consistent(peers@)) by {
                assert(forall|j: int|
                    0 <= j < before.len() ==> pushed[j] == before[j] && peers@[j] == before[j]);
                let last = before.len() as int;
                assert(peers@[last].handle == pushed[last].handle);
                assert(peers@[last].target == pushed[last].target);
            }
        }
        i += 1;
    }
    assert(all.take(i as int) =~= all);
    peers
}

proof fn lemma_restores_prefix(peers: Seq<crate::app::peers::PeerView>, n: int)
    requires
        crate::app::peers::told_apart(peers),
        0 <= n <= peers.len(),
    ensures
        restored(peers.map_values(|p| snapshot_of(p)).take(n)) == peers.map_values(
            |p| restored_peer(snapshot_of(p)),
        ).take(n),
    decreases n,
{
    let snapshots = peers.map_values(|p| snapshot_of(p));
    let back = peers.map_values(|p| restored_peer(snapshot_of(p)));
    if n > 0 {
        lemma_restores_prefix(peers, n - 1);
        assert(snapshots.take(n).drop_last() =~= snapshots.take(n - 1));
        let before = back.take(n - 1);
        let last = snapshots[n - 1];
        crate::search::lemma_first(before, crate::app::peers::has_handle(last.name), 0);
        crate::search::lemma_first(before, crate::app::peers::has_target(last.target), 0);
        assert forall|j: int| 0 <= j < n - 1 implies (#[trigger] before[j]).handle != last.name
            && !crate::app::peers::same_target(before[j].target, last.target) by {
            assert(before[j].handle == peers[j].handle && before[j].target == peers[j].target);
            assert(peers[j].handle != peers[n - 1].handle);
            assert(!crate::app::peers::same_target(peers[j].target, peers[n - 1].target));
        }
        assert(back.take(n) =~= before.push(back[n - 1]));
    } else {
        assert(snapshots.take(0) =~= Seq::empty());
        assert(back.take(0) =~= Seq::empty());
    }
}

/// Saving the peers and restoring them brings back every one, in order, under
/// its name, target and label, disconnected and with nothing learned.
pub proof fn law_peers_survive_a_restart(peers: Seq<crate::app::peers::PeerView>)
    requires
        crate::app::peers::told_apart(peers),
    ensures
        restored(peers.map_values(|p| snapshot_of(p))) == peers.map_values(
            |p: crate::app::peers::PeerView|
                crate::app::peers::PeerView {
                    label: p.label,
                    ..crate::app::peers::PeerView::fresh(p.handle, p.target)
                },
        ),
{
    lemma_restores_prefix(peers, peers.len() as int);
    let snapshots = peers.map_values(|p| snapshot_of(p));
    let back = peers.map_values(|p| restored_peer(snapshot_of(p)));
    assert(snapshots.take(peers.len() as int) =~= snapshots);
    assert(back.take(peers.len() as int) =~= back);
    assert(back =~= peers.map_values(
        |p: crate::app::peers::PeerView|
            crate::app::peers::PeerView {
                label: p.label,
                ..crate::app::peers::PeerView::fresh(p.handle, p.target)
            },
    ));
}

} // verus!
