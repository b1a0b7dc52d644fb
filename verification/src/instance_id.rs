//! Durable identity for a server instance.
//!
//! Workspace, terminal and pane ids are only unique inside one server process.
//! Federating two servers needs a stable name to namespace the other side's ids
//! by, and the instance id is that name: 128 bits in lowercase hex, generated
//! once per session and stored beside the session's other data.

use sha2::Digest;
use vstd::prelude::*;
use vstd::string::*;

use crate::text::{chars_of, trim};

verus! {

/// Name of the file that holds the id.
pub const INSTANCE_ID_FILE: &'static str = "instance-id";

/// Name of the file locked while an id is being established.
pub const INSTANCE_ID_LOCK_FILE: &'static str = ".instance-id.lock";

/// How many digest bytes an id is made of.
pub const INSTANCE_ID_BYTES: usize = 16;

/// Length of an id in characters.
pub const INSTANCE_ID_LEN: usize = 32;

/// A lowercase hexadecimal digit.
pub open spec fn is_hex_digit(c: char) -> bool {
    ('0' <= c <= '9') || ('a' <= c <= 'f')
}

/// The shape of an instance id: 32 lowercase hexadecimal digits.
pub open spec fn instance_id_shape(s: Seq<char>) -> bool {
    s.len() == INSTANCE_ID_LEN && forall|i: int| 0 <= i < s.len() ==> is_hex_digit(#[trigger] s[i])
}

/// The hexadecimal digit for a value below 16.
pub open spec fn hex_digit(n: int) -> char {
    if n < 10 {
        ('0' as int + n) as char
    } else {
        ('a' as int + (n - 10)) as char
    }
}

/// `bytes` in lowercase hex, two digits per byte, high digit first.
pub open spec fn hex(bytes: Seq<u8>) -> Seq<char> {
    Seq::new(
        2 * bytes.len(),
        |i: int|
            if i % 2 == 0 {
                hex_digit(bytes[i / 2] as int / 16)
            } else {
                hex_digit(bytes[i / 2] as int % 16)
            },
    )
}

/// The SHA-256 digest of `data`.
pub uninterp spec fn sha256(data: Seq<u8>) -> Seq<u8>;

/// What an id is derived from: four words of operating-system randomness, the
/// process id and the time since the epoch.
pub struct Entropy {
    pub word0: u64,
    pub word1: u64,
    pub word2: u64,
    pub word3: u64,
    pub pid: u32,
    pub nanos: u128,
}

impl Entropy {
    /// The bytes that are hashed: a versioned tag, then every part in
    /// little-endian order.
    pub open spec fn preimage(self) -> Seq<u8> {
        "herdr:instance-id:v1".spec_bytes() + vstd::bytes::spec_u64_to_le_bytes(self.word0)
            + vstd::bytes::spec_u64_to_le_bytes(self.word1) + vstd::bytes::spec_u64_to_le_bytes(
            self.word2,
        ) + vstd::bytes::spec_u64_to_le_bytes(self.word3) + vstd::bytes::spec_u32_to_le_bytes(
            self.pid,
        ) + vstd::bytes::spec_u128_to_le_bytes(self.nanos)
    }

    /// The id derived from this entropy.
    pub open spec fn id(self) -> Seq<char> {
        hex(sha256(self.preimage()).take(INSTANCE_ID_BYTES as int))
    }
}

/// `sha2::Sha256::digest`: the SHA-256 digest of the bytes, which is always 32
/// bytes long.
#[verifier::external_body]
fn sha256_digest(data: &[u8]) -> (digest: Vec<u8>)
    ensures
        digest@ == sha256(data@),
        digest@.len() == 32,
{
    sha2::Sha256::digest(data).to_vec()
}

fn hex_char(n: u8) -> (c: char)
    requires
        n < 16,
    ensures
        c == hex_digit(n as int),
        is_hex_digit(c),
{
    if n < 10 {
        (48 + n) as char
    } else {
        (97 + (n - 10)) as char
    }
}

/// The lowercase hex form of the first `count` bytes of `bytes`.
pub fn hex_of(bytes: &Vec<u8>, count: usize) -> (r: String)
    requires
        count <= bytes.len(),
    ensures
        r@ == hex(bytes@.take(count as int)),
        forall|i: int| 0 <= i < r@.len() ==> is_hex_digit(#[trigger] r@[i]),
{
    let mut id = String::new();
    let mut i: usize = 0;
    while i < count
        invariant
            i <= count <= bytes.len(),
            id@ == hex(bytes@.take(i as int)),
            forall|j: int| 0 <= j < id@.len() ==> is_hex_digit(#[trigger] id@[j]),
        decreases count - i,
    {
        let byte = bytes[i];
        let ghost before = id@;
        id.push(hex_char(byte / 16));
        id.push(hex_char(byte % 16));
        i += 1;
        assert(id@ =~= hex(bytes@.take(i as int))) by {
            let longer = hex(bytes@.take(i as int));
            assert(id@.len() == longer.len());
            assert forall|j: int| 0 <= j < id@.len() implies id@[j] == longer[j] by {
                if j < before.len() {
                    assert(id@[j] == before[j]);
                    assert(bytes@.take(i as int - 1)[j / 2] == bytes@.take(i as int)[j / 2]);
                }
            }
        }
    }
    id
}

fn append_all(out: &mut Vec<u8>, more: &[u8])
    ensures
        final(out)@ == old(out)@ + more@,
{
    let mut i: usize = 0;
    while i < more.len()
        invariant
            i <= more.len(),
            out@ == old(out)@ + more@.take(i as int),
        decreases more.len() - i,
    {
        out.push(more[i]);
        i += 1;
        assert(more@.take(i as int) == more@.take(i as int - 1).push(more@[i as int - 1]));
    }
    assert(more@.take(i as int) == more@);
}

/// Whether `value` has the shape of an instance id.
///
/// Used at the peer id boundary to tell a namespaced id apart from a local one
/// without consulting the peer registry.
pub fn is_instance_id(value: &str) -> (r: bool)
    ensures
        r == instance_id_shape(value@),
{
    let chars = chars_of(value);
    if chars.len() != INSTANCE_ID_LEN {
        return false;
    }
    let mut i: usize = 0;
    while i < chars.len()
        invariant
            chars@ == value@,
            i <= chars.len(),
            forall|j: int| 0 <= j < i ==> is_hex_digit(#[trigger] value@[j]),
        decreases chars.len() - i,
    {
        let c = chars[i];
        if !(('0' <= c && c <= '9') || ('a' <= c && c <= 'f')) {
            assert(!is_hex_digit(value@[i as int]));
            return false;
        }
        i += 1;
    }
    true
}

/// The id stored in a file with the contents `raw`, if it holds one.
pub fn parse(raw: &str) -> (r: Option<String>)
    ensures
        match r {
            Some(id) => id@ == crate::text::trimmed(raw@) && instance_id_shape(id@),
            None => !instance_id_shape(crate::text::trimmed(raw@)),
        },
{
    let trimmed = trim(raw);
    if is_instance_id(trimmed) {
        Some(trimmed.to_owned())
    } else {
        None
    }
}

/// Derives an id from `entropy`.
pub fn generate(entropy: &Entropy) -> (id: String)
    ensures
        id@ == entropy.id(),
        instance_id_shape(id@),
{
    let mut data: Vec<u8> = Vec::new();
    append_all(&mut data, "herdr:instance-id:v1".as_bytes());
    append_all(&mut data, vstd::bytes::u64_to_le_bytes(entropy.word0).as_slice());
    append_all(&mut data, vstd::bytes::u64_to_le_bytes(entropy.word1).as_slice());
    append_all(&mut data, vstd::bytes::u64_to_le_bytes(entropy.word2).as_slice());
    append_all(&mut data, vstd::bytes::u64_to_le_bytes(entropy.word3).as_slice());
    append_all(&mut data, vstd::bytes::u32_to_le_bytes(entropy.pid).as_slice());
    append_all(&mut data, vstd::bytes::u128_to_le_bytes(entropy.nanos).as_slice());
    assert(data@ == entropy.preimage());
    let digest = sha256_digest(data.as_slice());
    hex_of(&digest, INSTANCE_ID_BYTES)
}

/// Where establishing an id on disk stands.
pub enum IdStep {
    /// Read the id file.
    Read,
    /// Create the directory and take the lock file's lock.
    Lock,
    /// Read the id file again, now that the lock is held.
    ReadLocked,
    /// Create the id file, failing if it is there, and write `candidate`.
    Create { candidate: String },
    /// The file appeared in between: read what it holds.
    ReadExisting { candidate: String },
    /// The file is unusable: write `candidate` to another file beside it.
    WriteBeside { candidate: String },
    /// Put the file beside it, which holds `candidate`, in its place.
    Replace { candidate: String },
    /// Remove the file beside it, which could not be put in its place.
    Discard,
    /// The id is established.
    Done { id: String },
    /// It can be neither read nor written.
    Failed,
}

/// What came of the last step.
pub enum IdEvent {
    /// The file's contents, or `None` when it could not be read.
    Contents(Option<String>),
    /// The action succeeded.
    Succeeded,
    /// The file to be created is there already.
    AlreadyExists,
    /// The action failed.
    Refused,
}

/// The contents of an [`IdStep`].
pub enum IdStepView {
    Read,
    Lock,
    ReadLocked,
    Create(Seq<char>),
    ReadExisting(Seq<char>),
    WriteBeside(Seq<char>),
    Replace(Seq<char>),
    Discard,
    Done(Seq<char>),
    Failed,
}

/// The contents of an [`IdEvent`].
pub enum IdEventView {
    Contents(Option<Seq<char>>),
    Succeeded,
    AlreadyExists,
    Refused,
}

impl View for IdStep {
    type V = IdStepView;

    open spec fn view(&self) -> IdStepView {
        match self {
            IdStep::Read => IdStepView::Read,
            IdStep::Lock => IdStepView::Lock,
            IdStep::ReadLocked => IdStepView::ReadLocked,
            IdStep::Create { candidate } => IdStepView::Create(candidate@),
            IdStep::ReadExisting { candidate } => IdStepView::ReadExisting(candidate@),
            IdStep::WriteBeside { candidate } => IdStepView::WriteBeside(candidate@),
            IdStep::Replace { candidate } => IdStepView::Replace(candidate@),
            IdStep::Discard => IdStepView::Discard,
            IdStep::Done { id } => IdStepView::Done(id@),
            IdStep::Failed => IdStepView::Failed,
        }
    }
}

impl View for IdEvent {
    type V = IdEventView;

    open spec fn view(&self) -> IdEventView {
        match self {
            IdEvent::Contents(raw) => IdEventView::Contents(crate::text::opt_view(*raw)),
            IdEvent::Succeeded => IdEventView::Succeeded,
            IdEvent::AlreadyExists => IdEventView::AlreadyExists,
            IdEvent::Refused => IdEventView::Refused,
        }
    }
}

/// The id in what a read brought, if there is one.
pub open spec fn valid_contents(event: IdEventView) -> Option<Seq<char>> {
    match event {
        IdEventView::Contents(Some(raw)) if instance_id_shape(crate::text::trimmed(raw)) => Some(
            crate::text::trimmed(raw),
        ),
        _ => None,
    }
}

/// What comes after a step, when `fresh` is the id to establish where none is.
pub open spec fn step_after(step: IdStepView, event: IdEventView, fresh: Seq<char>) -> IdStepView {
    match step {
        IdStepView::Read => match valid_contents(event) {
            Some(id) => IdStepView::Done(id),
            None => IdStepView::Lock,
        },
        IdStepView::Lock => if event is Succeeded {
            IdStepView::ReadLocked
        } else {
            IdStepView::Failed
        },
        IdStepView::ReadLocked => match valid_contents(event) {
            Some(id) => IdStepView::Done(id),
            None => IdStepView::Create(fresh),
        },
        IdStepView::Create(candidate) => match event {
            IdEventView::Succeeded => IdStepView::Done(candidate),
            IdEventView::AlreadyExists => IdStepView::ReadExisting(candidate),
            _ => IdStepView::Failed,
        },
        IdStepView::ReadExisting(candidate) => match valid_contents(event) {
            Some(id) => IdStepView::Done(id),
            None => IdStepView::WriteBeside(candidate),
        },
        IdStepView::WriteBeside(candidate) => if event is Succeeded {
            IdStepView::Replace(candidate)
        } else {
            IdStepView::Failed
        },
        IdStepView::Replace(candidate) => if event is Succeeded {
            IdStepView::Done(candidate)
        } else {
            IdStepView::Discard
        },
        IdStepView::Discard => IdStepView::Failed,
        IdStepView::Done(id) => IdStepView::Done(id),
        IdStepView::Failed => IdStepView::Failed,
    }
}

fn valid_id(event: IdEvent) -> (r: Option<String>)
    ensures
        crate::text::opt_view(r) == valid_contents(event@),
{
    match event {
        IdEvent::Contents(Some(raw)) => parse(raw.as_str()),
        _ => None,
    }
}

/// What to do next when establishing an id.
///
/// A usable id found on disk always wins, whether it was there at first, appeared
/// while the lock was awaited, or was written by another process between the
/// read and the create. Only an unusable file is replaced.
pub fn next_id_step(step: IdStep, event: IdEvent, entropy: &Entropy) -> (r: IdStep)
    ensures
        r@ == step_after(step@, event@, entropy.id()),
        step@.usable() ==> r@.usable(),
{
    match step {
        IdStep::Read => match valid_id(event) {
            Some(id) => IdStep::Done { id },
            None => IdStep::Lock,
        },
        IdStep::Lock => match event {
            IdEvent::Succeeded => IdStep::ReadLocked,
            _ => IdStep::Failed,
        },
        IdStep::ReadLocked => match valid_id(event) {
            Some(id) => IdStep::Done { id },
            None => IdStep::Create { candidate: generate(entropy) },
        },
        IdStep::Create { candidate } => match event {
            IdEvent::Succeeded => IdStep::Done { id: candidate },
            IdEvent::AlreadyExists => IdStep::ReadExisting { candidate },
            _ => IdStep::Failed,
        },
        IdStep::ReadExisting { candidate } => match valid_id(event) {
            Some(id) => IdStep::Done { id },
            None => IdStep::WriteBeside { candidate },
        },
        IdStep::WriteBeside { candidate } => match event {
            IdEvent::Succeeded => IdStep::Replace { candidate },
            _ => IdStep::Failed,
        },
        IdStep::Replace { candidate } => match event {
            IdEvent::Succeeded => IdStep::Done { id: candidate },
            _ => IdStep::Discard,
        },
        IdStep::Discard => IdStep::Failed,
        IdStep::Done { id } => IdStep::Done { id },
        IdStep::Failed => IdStep::Failed,
    }
}

impl IdStepView {
    /// Every id a step carries has the shape of one.
    pub open spec fn usable(self) -> bool {
        match self {
            IdStepView::Create(id) => instance_id_shape(id),
            IdStepView::ReadExisting(id) => instance_id_shape(id),
            IdStepView::WriteBeside(id) => instance_id_shape(id),
            IdStepView::Replace(id) => instance_id_shape(id),
            IdStepView::Done(id) => instance_id_shape(id),
            _ => true,
        }
    }

    /// How many steps can still follow.
    pub open spec fn left(self) -> nat {
        match self {
            IdStepView::Read => 8,
            IdStepView::Lock => 7,
            IdStepView::ReadLocked => 6,
            IdStepView::Create(_) => 5,
            IdStepView::ReadExisting(_) => 4,
            IdStepView::WriteBeside(_) => 3,
            IdStepView::Replace(_) => 2,
            IdStepView::Discard => 1,
            _ => 0,
        }
    }
}

/// What a file is, if it is there.
pub enum IdFile {
    Missing,
    /// A file whose contents are not text.
    Unreadable,
    Holds(Seq<char>),
}

/// The directory an id is kept in: the id file, and the one that is written beside
/// it when it has to be replaced.
pub struct IdDir {
    pub file: IdFile,
    pub beside: IdFile,
}

/// What a file that is written for an id holds.
pub open spec fn written(id: Seq<char>) -> IdFile {
    IdFile::Holds(id.push('\n'))
}

/// The contents of a file that is written for `id`.
pub fn file_text(id: &str) -> (r: String)
    ensures
        written(id@) == IdFile::Holds(r@),
{
    let mut text = id.to_owned();
    text.push('\n');
    text
}

/// What comes of a step in a directory that nobody else changes and that can be
/// written to, and what stands in it then.
pub open spec fn answered(dir: IdDir, step: IdStepView) -> (IdEventView, IdDir) {
    match step {
        IdStepView::Create(candidate) => if dir.file is Missing {
            (IdEventView::Succeeded, IdDir { file: written(candidate), ..dir })
        } else {
            (IdEventView::AlreadyExists, dir)
        },
        IdStepView::WriteBeside(candidate) => (
            IdEventView::Succeeded,
            IdDir { beside: written(candidate), ..dir },
        ),
        IdStepView::Replace(_) => (
            IdEventView::Succeeded,
            IdDir { file: dir.beside, beside: IdFile::Missing },
        ),
        IdStepView::Discard => (IdEventView::Succeeded, IdDir { beside: IdFile::Missing, ..dir }),
        IdStepView::Lock => (IdEventView::Succeeded, dir),
        _ => (
            IdEventView::Contents(
                match dir.file {
                    IdFile::Holds(raw) => Some(raw),
                    _ => None,
                },
            ),
            dir,
        ),
    }
}

/// Where the steps from this one on end in such a directory, and what stands in it
/// then.
pub open spec fn established(dir: IdDir, step: IdStepView, fresh: Seq<char>) -> (
    IdStepView,
    IdDir,
)
    decreases step.left(),
{
    if step.left() == 0 {
        (step, dir)
    } else {
        let (event, after) = answered(dir, step);
        established(after, step_after(step, event, fresh), fresh)
    }
}

/// The id a file holds, if it holds one.
pub open spec fn id_in(file: IdFile) -> Option<Seq<char>> {
    match file {
        IdFile::Holds(raw) => valid_contents(IdEventView::Contents(Some(raw))),
        _ => None,
    }
}

/// The id of this process's session, remembered from the first time it was
/// asked for.
///
/// `established` is what establishing it brings; it counts only while nothing is
/// remembered. `None` means that this server cannot be federated, not that it
/// cannot run.
pub fn active(remembered: &mut Option<Option<String>>, established: Option<String>) -> (r: Option<
    String,
>)
    ensures
        *old(remembered) is Some ==> *final(remembered) == *old(remembered),
        *old(remembered) is None ==> *final(remembered) == Some(established),
        *final(remembered) == Some(r),
{
    match remembered {
        Some(id) => crate::text::opt_clone(id),
        None => {
            let id = crate::text::opt_clone(&established);
            *remembered = Some(established);
            id
        },
    }
}

/// An id reads back from its file, with or without the newline that is written
/// behind it.
pub proof fn law_id_reads_back_from_its_file(id: Seq<char>)
    requires
        instance_id_shape(id),
    ensures
        crate::text::trimmed(id) == id,
        crate::text::trimmed(id.push('\n')) == id,
{
    assert(is_hex_digit(id[0]) && is_hex_digit(id.last()));
    crate::text::lemma_trim_fixed(id);
    let line = id.push('\n');
    assert(line[0] == id[0]);
    assert(crate::text::trim_start(line) == line);
    assert(line.drop_last() == id);
}

/// Establishing an id ends with one, which the file then holds. An id that was
/// there is kept and the directory is left as it was; anything else is replaced by
/// the fresh id, and no file is left beside. Whoever establishes the id after that
/// gets the same one and leaves the directory alone: from the start, and also when
/// it had seen what was there before and only waited for the lock.
pub proof fn law_an_id_is_established_once(dir: IdDir, first: Seq<char>, second: Seq<char>)
    requires
        instance_id_shape(first),
        instance_id_shape(second),
    ensures
        ({
            let id = match id_in(dir.file) {
                Some(id) => id,
                None => first,
            };
            let (end, after) = established(dir, IdStepView::Read, first);
            &&& end == IdStepView::Done(id)
            &&& instance_id_shape(id)
            &&& id_in(after.file) == Some(id)
            &&& id_in(dir.file) is Some ==> after == dir
            &&& id_in(dir.file) is None ==> after.file == written(first)
            &&& after.beside == if id_in(dir.file) is Some || dir.file is Missing {
                dir.beside
            } else {
                IdFile::Missing
            }
            &&& established(after, IdStepView::Read, second) == (end, after)
            &&& established(after, IdStepView::Lock, second) == (end, after)
        }),
{
    reveal_with_fuel(established, 9);
    law_id_reads_back_from_its_file(first);
}

/// A replacement that cannot be put in place ends without an id and leaves neither
/// a file beside nor another id file than before.
pub proof fn law_a_failed_replacement_leaves_nothing(
    dir: IdDir,
    candidate: Seq<char>,
    fresh: Seq<char>,
)
    ensures
        ({
            let next = step_after(IdStepView::Replace(candidate), IdEventView::Refused, fresh);
            established(dir, next, fresh) == (
                IdStepView::Failed,
                IdDir { beside: IdFile::Missing, ..dir },
            )
        }),
{
    reveal_with_fuel(established, 3);
}

} // verus!
