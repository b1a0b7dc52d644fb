//! The id of a server, and what is kept of a session.

use herdr::app::peers::{PeerHandle, PeerRegistryState, PeerTarget};
use herdr::app::session::{SessionSaveJob, SessionSaver, SESSION_SAVE_RETRY_MS};
use herdr::app::state::App;
use herdr::instance_id::{
    active, file_text, generate, hex_of, is_instance_id, next_id_step, parse, Entropy, IdEvent, IdStep,
    INSTANCE_ID_LEN,
};
use herdr::persist::{peer_snapshots, restore_peers, PeerSnapshot, PeerTargetSnapshot};
use herdr::public_id::public_workspace_number;

fn entropy(nanos: u128) -> Entropy {
    Entropy { word0: 1, word1: 2, word2: 3, word3: 4, pid: 5, nanos }
}

#[test]
fn generated_ids_are_lowercase_hex_and_distinct() {
    let first = generate(&entropy(1));
    let second = generate(&entropy(2));
    assert_eq!(first.len(), INSTANCE_ID_LEN);
    assert_eq!(parse(&first).as_deref(), Some(first.as_str()));
    assert_ne!(first, second);
}

#[test]
fn generated_ids_never_look_like_workspace_ids() {
    // Local workspace ids are `w` + uppercase base32, so the two alphabets must
    // not overlap.
    let id = generate(&entropy(1));
    assert!(!id.starts_with('w'));
    assert!(public_workspace_number(&id).is_none());
}

#[test]
fn an_id_is_the_head_of_a_digest() {
    // The first half of the SHA-256 of the seed, in hex.
    let mut seed = b"herdr:instance-id:v1".to_vec();
    for word in [1u64, 2, 3, 4] {
        seed.extend_from_slice(&word.to_le_bytes());
    }
    seed.extend_from_slice(&5u32.to_le_bytes());
    seed.extend_from_slice(&7u128.to_le_bytes());
    let digest = <sha2::Sha256 as sha2::Digest>::digest(&seed);
    let expected: String = digest[..16].iter().map(|byte| format!("{byte:02x}")).collect();
    assert_eq!(generate(&entropy(7)), expected);
    assert_eq!(hex_of(&vec![0x0f, 0xa0, 0xff], 2), "0fa0");
}

#[test]
fn parse_rejects_malformed_ids() {
    assert!(parse("").is_none());
    assert!(parse("abc").is_none());
    assert!(parse(&"A".repeat(INSTANCE_ID_LEN)).is_none());
    assert!(parse(&"0".repeat(INSTANCE_ID_LEN + 1)).is_none());
    assert!(parse(&"g".repeat(INSTANCE_ID_LEN)).is_none());
    assert_eq!(
        parse(&format!("  {}\n", "0".repeat(INSTANCE_ID_LEN))).as_deref(),
        Some("0".repeat(INSTANCE_ID_LEN).as_str())
    );
    assert!(is_instance_id(&"0".repeat(INSTANCE_ID_LEN)));
    assert!(!is_instance_id(" "));
}

/// A directory: the id file, and the one beside it.
#[derive(Default)]
struct Dir {
    file: Option<String>,
    beside: Option<String>,
}

fn holding(text: &str) -> Dir {
    Dir { file: Some(text.to_string()), beside: None }
}

/// Establishes an id in a directory.
fn load_or_create_in(dir: &mut Dir, entropy: &Entropy) -> Option<String> {
    let mut step = IdStep::Read;
    for _ in 0..10 {
        let event = match &step {
            IdStep::Read | IdStep::ReadLocked => IdEvent::Contents(dir.file.clone()),
            IdStep::ReadExisting { .. } => IdEvent::Contents(dir.file.clone()),
            IdStep::Lock => IdEvent::Succeeded,
            IdStep::Create { candidate } => {
                if dir.file.is_some() {
                    IdEvent::AlreadyExists
                } else {
                    dir.file = Some(file_text(candidate));
                    IdEvent::Succeeded
                }
            }
            IdStep::WriteBeside { candidate } => {
                dir.beside = Some(file_text(candidate));
                IdEvent::Succeeded
            }
            IdStep::Replace { .. } => {
                dir.file = dir.beside.take();
                IdEvent::Succeeded
            }
            IdStep::Discard => {
                dir.beside = None;
                IdEvent::Succeeded
            }
            IdStep::Done { id } => return Some(id.clone()),
            IdStep::Failed => return None,
        };
        step = next_id_step(step, event, entropy);
    }
    panic!("no id after ten steps");
}

#[test]
fn load_or_create_persists_and_reuses_the_same_id() {
    let mut dir = Dir::default();
    let first = load_or_create_in(&mut dir, &entropy(1)).expect("create instance id");
    let second = load_or_create_in(&mut dir, &entropy(2)).expect("reuse instance id");
    assert_eq!(first, second);
    assert_eq!(dir.file.expect("a file").trim(), first);
}

#[test]
fn load_or_create_replaces_unusable_contents() {
    let mut dir = holding("not-an-instance-id\n");
    let id = load_or_create_in(&mut dir, &entropy(1)).expect("replace instance id");
    assert_eq!(parse(&id).as_deref(), Some(id.as_str()));
    assert_eq!(dir.file.expect("a file").trim(), id);
    assert_eq!(dir.beside, None);
}

/// One that establishes an id, one step at a time.
struct Worker {
    step: IdStep,
    entropy: Entropy,
}

impl Worker {
    /// Takes a step unless it needs the lock while another holds it. Returns
    /// whether it has an id.
    fn turn(&mut self, me: usize, file: &mut String, beside: &mut String, lock: &mut Option<usize>) -> bool {
        let event = match &self.step {
            IdStep::Read | IdStep::ReadLocked | IdStep::ReadExisting { .. } => {
                IdEvent::Contents(Some(file.clone()))
            }
            IdStep::Lock if lock.is_some() => return false,
            IdStep::Lock => {
                *lock = Some(me);
                IdEvent::Succeeded
            }
            IdStep::Create { .. } => IdEvent::AlreadyExists,
            IdStep::WriteBeside { candidate } => {
                *beside = file_text(candidate);
                IdEvent::Succeeded
            }
            IdStep::Replace { .. } => {
                *file = std::mem::take(beside);
                IdEvent::Succeeded
            }
            IdStep::Discard => unreachable!("nothing fails"),
            IdStep::Done { .. } | IdStep::Failed => {
                if *lock == Some(me) {
                    *lock = None;
                }
                return true;
            }
        };
        let step = std::mem::replace(&mut self.step, IdStep::Failed);
        self.step = next_id_step(step, event, &self.entropy);
        false
    }

    fn id(self) -> String {
        match self.step {
            IdStep::Done { id } => id,
            _ => panic!("repair instance id"),
        }
    }
}

#[test]
fn concurrent_repair_returns_the_single_persisted_id() {
    // Every way two of them can take turns over their first twelve steps.
    for turns in 0u32..4096 {
        let mut file = "invalid\n".to_string();
        let mut beside = String::new();
        let mut lock = None;
        let mut workers =
            [1, 2].map(|nanos| Worker { step: IdStep::Read, entropy: entropy(nanos) });
        for turn in 0..12 {
            let me = (turns >> turn & 1) as usize;
            workers[me].turn(me, &mut file, &mut beside, &mut lock);
        }
        let mut ended = 0;
        while ended < 2 {
            ended = 0;
            for (me, worker) in workers.iter_mut().enumerate() {
                ended += usize::from(worker.turn(me, &mut file, &mut beside, &mut lock));
            }
        }
        let ids = workers.map(Worker::id);
        assert_eq!(ids[0], ids[1]);
        assert_eq!(ids[0], file.trim());
        assert!(beside.is_empty());
    }
}

#[test]
fn an_id_is_established_once() {
    // What was there is kept as it was.
    let kept = format!("  {}", "0a".repeat(16));
    let mut dir = holding(&kept);
    let id = load_or_create_in(&mut dir, &entropy(1)).expect("an id");
    assert_eq!(id, kept.trim());
    assert_eq!(dir.file.as_deref(), Some(kept.as_str()));

    // One that found nothing and then waited for the lock takes what it finds.
    let mut dir = holding("junk");
    let first = load_or_create_in(&mut dir, &entropy(1)).expect("an id");
    let waiting = next_id_step(IdStep::Read, IdEvent::Contents(None), &entropy(2));
    assert!(matches!(waiting, IdStep::Lock));
    let locked = next_id_step(waiting, IdEvent::Succeeded, &entropy(2));
    match next_id_step(locked, IdEvent::Contents(dir.file.clone()), &entropy(2)) {
        IdStep::Done { id } => assert_eq!(id, first),
        _ => panic!("the id that is there"),
    }
    assert_eq!(load_or_create_in(&mut dir, &entropy(3)).as_deref(), Some(first.as_str()));
    assert_eq!(dir.file, Some(format!("{first}\n")));
}

#[test]
fn an_id_that_cannot_be_written_is_none() {
    for (step, event) in [
        (IdStep::Lock, IdEvent::Refused),
        (IdStep::Create { candidate: "c".to_string() }, IdEvent::Refused),
        (IdStep::WriteBeside { candidate: "c".to_string() }, IdEvent::Refused),
        (IdStep::Discard, IdEvent::Succeeded),
    ] {
        assert!(matches!(next_id_step(step, event, &entropy(1)), IdStep::Failed));
    }
    // What could not be put in place is not left beside.
    let replace = IdStep::Replace { candidate: "c".to_string() };
    assert!(matches!(
        next_id_step(replace, IdEvent::Refused, &entropy(1)),
        IdStep::Discard
    ));
}

#[test]
fn the_active_id_is_the_first_one() {
    let mut remembered = None;
    assert_eq!(active(&mut remembered, Some("a".to_string())).as_deref(), Some("a"));
    assert_eq!(active(&mut remembered, Some("b".to_string())).as_deref(), Some("a"));
    let mut remembered = None;
    assert_eq!(active(&mut remembered, None), None);
    assert_eq!(active(&mut remembered, Some("b".to_string())), None);
}

fn snapshot(name: &str, path: &str) -> PeerSnapshot {
    PeerSnapshot {
        name: name.to_string(),
        label: None,
        target: PeerTargetSnapshot::SocketPath { path: path.to_string() },
    }
}

#[test]
fn peers_survive_a_restart() {
    let mut peers = PeerRegistryState::default();
    peers
        .add(PeerHandle::new("a"), PeerTarget::SocketPath("/tmp/a.sock".into()))
        .expect("added");
    peers
        .add(
            PeerHandle::new("b"),
            PeerTarget::Ssh { destination: "box".into(), session: Some("work".into()) },
        )
        .expect("added");
    let kept = peer_snapshots(&peers);
    assert_eq!(kept.len(), 2);
    let restored = restore_peers(&kept);
    assert_eq!(peer_snapshots(&restored), kept);
    assert_eq!(restored.iter().len(), 2);
    assert!(restored.assert_invariants_for_test());
    // A snapshot that names a peer twice restores it once.
    let restored = restore_peers(&vec![snapshot("a", "/tmp/a.sock"), snapshot("a", "/tmp/b.sock")]);
    assert_eq!(restored.iter().len(), 1);
    // And so does one that names a socket twice, however it is spelled.
    let restored =
        restore_peers(&vec![snapshot("a", "/tmp/a.sock"), snapshot("b", "/tmp//./a.sock")]);
    assert_eq!(restored.iter().len(), 1);
}

#[test]
fn a_session_without_anything_is_cleared() {
    let mut app = App::default();
    let mut saver = SessionSaver::new(false, 1000, true);
    assert_eq!(saver.capture_session_save_job(&app), SessionSaveJob::Clear);
    app.state
        .peers
        .add(PeerHandle::new("a"), PeerTarget::SocketPath("/tmp/a.sock".into()))
        .expect("added");
    assert_eq!(saver.capture_session_save_job(&app), SessionSaveJob::Save { history: true });

    // A change is saved after a while, and only one save runs at a time.
    app.state.session_dirty = true;
    saver.sync_session_save_schedule(&mut app.state, 5);
    assert!(!app.state.session_dirty);
    assert_eq!(saver.deadline, Some(1005));
    assert_eq!(
        saver.start_background_session_save(&app, 1005, false),
        Some(SessionSaveJob::Save { history: true })
    );
    assert_eq!(saver.deadline, None);
    assert_eq!(saver.start_background_session_save(&app, 1006, false), None);
    assert_eq!(saver.deadline, Some(1006 + SESSION_SAVE_RETRY_MS));
    assert_eq!(
        saver.start_background_session_save(&app, 2000, true),
        Some(SessionSaveJob::Save { history: true })
    );
    saver.save_ended();
    assert_eq!(saver.save_session_now(&app), Some(SessionSaveJob::Save { history: true }));

    let mut off = SessionSaver::new(true, 1000, true);
    off.schedule_session_save(5);
    assert_eq!(off.deadline, None);
    assert_eq!(off.start_background_session_save(&app, 5, true), None);
    assert_eq!(off.save_session_now(&app), None);
}
