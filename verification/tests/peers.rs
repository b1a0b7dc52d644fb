//! The registry of peers.

use herdr::api::schema::workspaces::{AgentStatus, WorkspaceInfo};
use herdr::app::peers::{
    is_peer_id, prefix_peer_id, split_peer_id, AddPeerError, PeerConnectionState, PeerHandle,
    PeerIdentity, PeerRegistryState, PeerTarget, SetIdentity,
};


fn target(name: &str) -> PeerTarget {
    PeerTarget::SocketPath(format!("/tmp/{name}.sock"))
}

fn identity(instance_id: &str) -> PeerIdentity {
    PeerIdentity {
        instance_id: instance_id.to_string(),
        version: Some("0.7.5".into()),
        protocol: Some(20),
    }
}

fn workspace(id: &str) -> WorkspaceInfo {
    WorkspaceInfo {
        workspace_id: id.to_string(),
        number: 1,
        label: id.to_string(),
        focused: false,
        pane_count: 1,
        tab_count: 1,
        active_tab_id: format!("{id}:t1"),
        agent_status: AgentStatus::Unknown,
        tokens: Vec::new(),
        worktree: None,
    }
}

#[test]
fn add_rejects_duplicate_handles_and_targets() {
    let mut registry = PeerRegistryState::default();
    registry
        .add(PeerHandle::new("alpha"), target("a"))
        .expect("first add");

    assert_eq!(
        registry.add(PeerHandle::new("alpha"), target("b")),
        Err(AddPeerError::DuplicateHandle)
    );
    assert_eq!(
        registry.add(PeerHandle::new("beta"), target("a")),
        Err(AddPeerError::DuplicateTarget {
            handle: PeerHandle::new("alpha")
        })
    );
    assert_eq!(registry.iter().len(), 1);
    assert!(registry.assert_invariants_for_test());
}

#[test]
fn contradictory_identities_are_told() {
    let mut registry = PeerRegistryState::default();
    let handle = PeerHandle::new("alpha");
    registry.add(PeerHandle::new("alpha"), target("a")).expect("first add");
    assert!(registry.identities_hold());
    // Connected, and nobody knows to whom.
    registry.set_connection(&handle, PeerConnectionState::Connected);
    assert!(!registry.identities_hold());
}

#[test]
fn new_peer_starts_connecting_and_stale() {
    let mut registry = PeerRegistryState::default();
    registry
        .add(PeerHandle::new("alpha"), target("a"))
        .expect("add");

    let peer = registry.get(&PeerHandle::new("alpha")).expect("peer");
    assert_eq!(peer.connection, PeerConnectionState::Connecting);
    assert!(peer.is_stale());
    assert!(peer.workspaces.is_empty());
    assert_eq!(peer.label, "/tmp/a.sock");
}

#[test]
fn set_connection_reports_only_real_transitions() {
    let mut registry = PeerRegistryState::default();
    let handle = PeerHandle::new("alpha");
    registry.add(handle.clone(), target("a")).expect("add");

    assert!(registry.set_connection(&handle, PeerConnectionState::Connected));
    assert!(!registry.set_connection(&handle, PeerConnectionState::Connected));
    assert!(registry.set_connection(
        &handle,
        PeerConnectionState::Reconnecting {
            attempt: 1,
            message: "boom".into()
        }
    ));
    assert!(
        !registry.set_connection(&PeerHandle::new("missing"), PeerConnectionState::Connected)
    );
}

#[test]
fn workspaces_survive_disconnect_and_render_stale() {
    let mut registry = PeerRegistryState::default();
    let handle = PeerHandle::new("alpha");
    registry.add(handle.clone(), target("a")).expect("add");
    registry.set_identity(&handle, identity("aaaaaaaaaaaaaaaaaaaaaaaaaaaaaaaa"));
    registry.set_connection(&handle, PeerConnectionState::Connected);
    registry.set_workspaces(&handle, vec![workspace("w1")]);

    registry.set_connection(
        &handle,
        PeerConnectionState::Reconnecting {
            attempt: 2,
            message: "boom".into(),
        },
    );

    let peer = registry.get(&handle).expect("peer");
    assert_eq!(
        peer.workspaces.len(),
        1,
        "last enumeration must be retained"
    );
    assert!(peer.is_stale());
    assert_eq!(peer.instance_id(), Some("aaaaaaaaaaaaaaaaaaaaaaaaaaaaaaaa"));
}

/// `add` rejects duplicate handles and duplicate targets, but both are
/// checked before any identity is known. Two different targets that reach
/// the same server therefore used to both store its instance id — a state
/// the test-only invariant declares impossible, and one where every
/// namespaced id silently routes to whichever peer was added first.
#[test]
fn a_second_peer_reaching_the_same_server_is_refused() {
    let mut registry = PeerRegistryState::default();
    let local = PeerHandle::new("local");
    let remote = PeerHandle::new("remote");
    registry.add(local.clone(), target("a")).expect("add local");
    registry
        .add(remote.clone(), target("b"))
        .expect("add remote");

    let same_server = "aaaaaaaaaaaaaaaaaaaaaaaaaaaaaaaa";
    assert_eq!(
        registry.set_identity(&local, identity(same_server)),
        SetIdentity::Recorded { replaced: None }
    );
    assert_eq!(
        registry.set_identity(&remote, identity(same_server)),
        SetIdentity::Duplicate {
            held_by: local.clone()
        }
    );

    assert_eq!(
        registry.get(&remote).expect("peer").instance_id(),
        None,
        "a refused identity must not be stored"
    );
    assert!(registry.assert_invariants_for_test());
}

/// Reporting the same id again for the peer that already holds it is a
/// heartbeat, not a duplicate.
#[test]
fn a_peer_repeating_its_own_instance_id_is_not_a_duplicate() {
    let mut registry = PeerRegistryState::default();
    let handle = PeerHandle::new("alpha");
    registry.add(handle.clone(), target("a")).expect("add");
    let id = "aaaaaaaaaaaaaaaaaaaaaaaaaaaaaaaa";
    registry.set_identity(&handle, identity(id));
    assert_eq!(
        registry.set_identity(&handle, identity(id)),
        SetIdentity::Unchanged
    );
}

#[test]
fn identity_change_drops_workspaces_from_the_previous_server() {
    let mut registry = PeerRegistryState::default();
    let handle = PeerHandle::new("alpha");
    registry.add(handle.clone(), target("a")).expect("add");
    registry.set_identity(&handle, identity("aaaaaaaaaaaaaaaaaaaaaaaaaaaaaaaa"));
    registry.set_workspaces(&handle, vec![workspace("w1")]);

    assert_eq!(
        registry.set_identity(&handle, identity("bbbbbbbbbbbbbbbbbbbbbbbbbbbbbbbb")),
        SetIdentity::Recorded {
            replaced: Some("aaaaaaaaaaaaaaaaaaaaaaaaaaaaaaaa".to_string())
        },
        "a replacement has to be reported: state bound to the old id lives elsewhere"
    );

    let peer = registry.get(&handle).expect("peer");
    assert!(
        peer.workspaces.is_empty(),
        "workspaces from the replaced server must not be shown"
    );
    assert_eq!(peer.instance_id(), Some("bbbbbbbbbbbbbbbbbbbbbbbbbbbbbbbb"));
    assert!(registry.assert_invariants_for_test());
}

#[test]
fn identity_refresh_for_the_same_server_keeps_workspaces() {
    let mut registry = PeerRegistryState::default();
    let handle = PeerHandle::new("alpha");
    registry.add(handle.clone(), target("a")).expect("add");
    registry.set_identity(&handle, identity("aaaaaaaaaaaaaaaaaaaaaaaaaaaaaaaa"));
    registry.set_workspaces(&handle, vec![workspace("w1")]);

    assert_eq!(
        registry.set_identity(&handle, identity("aaaaaaaaaaaaaaaaaaaaaaaaaaaaaaaa")),
        SetIdentity::Unchanged
    );
    assert_eq!(registry.get(&handle).expect("peer").workspaces.len(), 1);
}

#[test]
fn peer_ids_round_trip_through_the_namespace() {
    let instance = "0123456789abcdef0123456789abcdef";
    let prefixed = prefix_peer_id(instance, "w1:p3");
    assert_eq!(prefixed, format!("{instance}:w1:p3"));
    assert_eq!(split_peer_id(&prefixed), Some((instance, "w1:p3")));
    assert!(is_peer_id(&prefixed));
}

#[test]
fn local_ids_are_never_mistaken_for_peer_ids() {
    // Local ids are `w` plus uppercase base32, so they cannot present a
    // leading lowercase-hex segment of instance-id length.
    for id in ["w1", "w1:p3", "w13A:t2", "p_7", "7", ""] {
        assert!(!is_peer_id(id), "{id} must stay local");
        assert!(split_peer_id(id).is_none(), "{id} must stay local");
    }
    // Right shape, wrong alphabet or length.
    assert!(split_peer_id("0123456789ABCDEF0123456789ABCDEF:w1").is_none());
    assert!(split_peer_id("0123:w1").is_none());
    assert!(split_peer_id("0123456789abcdef0123456789abcdef:").is_none());
}

#[test]
fn enumeration_is_namespaced_on_ingest() {
    let mut registry = PeerRegistryState::default();
    let handle = PeerHandle::new("alpha");
    registry.add(handle.clone(), target("a")).expect("add");
    registry.set_identity(&handle, identity("0123456789abcdef0123456789abcdef"));

    assert!(registry.set_workspaces(&handle, vec![workspace("w1")]));

    let stored = &registry.get(&handle).expect("peer").workspaces[0];
    assert_eq!(stored.workspace_id, "0123456789abcdef0123456789abcdef:w1");
    assert_eq!(
        stored.active_tab_id,
        "0123456789abcdef0123456789abcdef:w1:t1"
    );
}

#[test]
fn enumeration_without_an_identity_is_dropped() {
    let mut registry = PeerRegistryState::default();
    let handle = PeerHandle::new("alpha");
    registry.add(handle.clone(), target("a")).expect("add");

    // No identity yet, so there is no namespace to prefix with.
    assert!(!registry.set_workspaces(&handle, vec![workspace("w1")]));
    assert!(registry.get(&handle).expect("peer").workspaces.is_empty());
}

#[test]
fn resolve_peer_id_routes_to_the_owning_peer_and_strips() {
    let mut registry = PeerRegistryState::default();
    let alpha = PeerHandle::new("alpha");
    let beta = PeerHandle::new("beta");
    registry.add(alpha.clone(), target("a")).expect("add alpha");
    registry.add(beta.clone(), target("b")).expect("add beta");
    registry.set_identity(&alpha, identity("aaaaaaaaaaaaaaaaaaaaaaaaaaaaaaaa"));
    registry.set_identity(&beta, identity("bbbbbbbbbbbbbbbbbbbbbbbbbbbbbbbb"));

    let (peer, local) = registry
        .resolve_peer_id("bbbbbbbbbbbbbbbbbbbbbbbbbbbbbbbb:w2:p1")
        .expect("routes to beta");
    assert_eq!(peer.handle, beta);
    assert_eq!(local, "w2:p1", "the peer only knows its own local id");

    assert!(registry
        .resolve_peer_id("cccccccccccccccccccccccccccccccc:w1")
        .is_none());
    assert!(registry.resolve_peer_id("w1").is_none());
    assert!(registry.assert_invariants_for_test());
}

#[test]
fn remove_drops_the_peer_and_keeps_order() {
    let mut registry = PeerRegistryState::default();
    for name in ["a", "b", "c"] {
        registry
            .add(PeerHandle::new(name), target(name))
            .expect("add");
    }

    let removed = registry.remove(&PeerHandle::new("b")).expect("removed");
    assert_eq!(removed.handle, PeerHandle::new("b"));
    let order: Vec<&str> = registry.iter().iter().map(|peer| peer.handle.as_str()).collect();
    assert_eq!(order, vec!["a", "c"]);
    assert!(registry.remove(&PeerHandle::new("b")).is_none());
}

#[test]
fn a_duplicate_target_is_told_with_the_peer_that_holds_it() {
    let held = AddPeerError::DuplicateTarget { handle: PeerHandle::new("alpha") };
    assert!(held.message().contains("alpha"));
    assert!(!AddPeerError::DuplicateHandle.message().is_empty());
}

#[test]
fn an_unknown_peer_learns_nothing() {
    let mut registry = PeerRegistryState::default();
    let handle = PeerHandle::new("missing");
    assert_eq!(
        registry.set_identity(&handle, identity("aaaaaaaaaaaaaaaaaaaaaaaaaaaaaaaa")),
        SetIdentity::Unchanged
    );
    assert!(!registry.set_workspaces(&handle, vec![workspace("w1")]));
    assert!(!registry.set_transport_socket(&handle, "/tmp/bridge.sock".to_string()));
}

#[test]
fn an_enumerated_id_routes_back_to_its_peer() {
    let mut registry = PeerRegistryState::default();
    for (name, id) in [("a", "a"), ("b", "b")] {
        let handle = PeerHandle::new(name);
        registry.add(handle.clone(), target(name)).expect("add");
        registry.set_identity(&handle, identity(&id.repeat(32)));
        registry.set_workspaces(&handle, vec![workspace("w7")]);
    }
    for name in ["a", "b"] {
        let listed = registry
            .get(&PeerHandle::new(name))
            .expect("peer")
            .workspaces[0]
            .workspace_id
            .clone();
        let (peer, local) = registry.resolve_peer_id(&listed).expect("routes back");
        assert_eq!(peer.handle.as_str(), name);
        assert_eq!(local, "w7");
    }
}

#[test]
fn an_ssh_peer_is_reached_through_its_bridge() {
    let mut registry = PeerRegistryState::default();
    let handle = PeerHandle::new("far");
    registry
        .add(
            handle.clone(),
            PeerTarget::Ssh { destination: "me@box".to_string(), session: None },
        )
        .expect("add");
    assert_eq!(registry.get(&handle).expect("peer").api_socket(), None);
    assert!(registry.set_transport_socket(&handle, "/tmp/bridge.sock".to_string()));
    assert_eq!(registry.get(&handle).expect("peer").api_socket(), Some("/tmp/bridge.sock"));
    assert_eq!(
        registry.get(&handle).expect("peer").connection.label(),
        "connecting"
    );
}

#[test]
fn another_spelling_of_a_socket_is_the_same_target() {
    let mut registry = PeerRegistryState::default();
    let socket = |path: &str| PeerTarget::SocketPath(path.to_string());
    registry.add(PeerHandle::new("alpha"), socket("/tmp/a.sock")).expect("first add");
    for spelled in ["/tmp//a.sock", "/tmp/./a.sock", "/tmp/a.sock/", "//tmp/a.sock"] {
        assert_eq!(
            registry.add(PeerHandle::new("beta"), socket(spelled)),
            Err(AddPeerError::DuplicateTarget { handle: PeerHandle::new("alpha") })
        );
    }
    assert_eq!(socket("/tmp//a.sock"), socket("/tmp/a.sock"));
    // What leads a relative path counts, and so does going up.
    for (n, spelled) in ["tmp/a.sock", "./tmp/a.sock", "/tmp/b/../a.sock"].iter().enumerate() {
        registry.add(PeerHandle::new(&format!("p{n}")), socket(spelled)).expect("another path");
    }
    // A destination is no path.
    let ssh = |destination: &str| PeerTarget::Ssh {
        destination: destination.to_string(),
        session: None,
    };
    assert_ne!(ssh("host//a"), ssh("host/a"));
}

#[test]
fn another_spelling_of_a_transport_socket_is_no_change() {
    let mut registry = PeerRegistryState::default();
    let handle = PeerHandle::new("far");
    registry
        .add(handle.clone(), PeerTarget::Ssh { destination: "host".into(), session: None })
        .expect("add");
    assert!(registry.set_transport_socket(&handle, "/tmp/bridge.sock".to_string()));
    assert!(!registry.set_transport_socket(&handle, "/tmp//bridge.sock".to_string()));
    assert_eq!(registry.get(&handle).expect("peer").api_socket(), Some("/tmp/bridge.sock"));
    assert!(registry.set_transport_socket(&handle, "/tmp/other.sock".to_string()));
}

#[test]
fn a_copied_registry_is_one_of_its_own() {
    let mut registry = PeerRegistryState::default();
    let handle = PeerHandle::new("a");
    registry.add(handle.clone(), target("a")).expect("add");
    registry.set_identity(&handle, identity(&"a".repeat(32)));
    registry.set_workspaces(&handle, vec![workspace("w7")]);
    let kept = registry.clone();
    assert_eq!(kept, registry);
    registry.remove(&handle).expect("removed");
    assert_eq!(kept.get(&handle).expect("kept").workspaces.len(), 1);
}

#[test]
fn peers_known_alike_are_equal_however_their_paths_are_spelled() {
    let mut near = PeerRegistryState::default();
    let mut respelled = PeerRegistryState::default();
    let handle = PeerHandle::new("far");
    for (registry, socket) in [(&mut near, "/tmp/b.sock"), (&mut respelled, "/tmp//b.sock")] {
        registry
            .add(handle.clone(), PeerTarget::Ssh { destination: "host".into(), session: None })
            .expect("add");
        registry.set_transport_socket(&handle, socket.to_string());
    }
    assert_eq!(near, respelled);
    respelled.set_connection(&handle, PeerConnectionState::Connected);
    assert_ne!(near, respelled);

    // The order of tokens does not count.
    let tokens = |list: &[(&str, &str)]| WorkspaceInfo {
        tokens: list.iter().map(|(k, v)| (k.to_string(), v.to_string())).collect(),
        ..workspace("w1")
    };
    assert_eq!(tokens(&[("a", "1"), ("b", "2")]), tokens(&[("b", "2"), ("a", "1")]));
    assert_ne!(tokens(&[("a", "1")]), tokens(&[("a", "2")]));
}
