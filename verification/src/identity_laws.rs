//! What holds of paths, numbers, pairs, instance ids and remembered peers.

use vstd::prelude::*;

use crate::instance_id::{Entropy, IdEvent, IdStep};
use crate::paths::{counts, parts_from, path_parts};
use crate::persist::PeerSnapshot;

verus! {

/// The text is one part of a path: not empty, not a dot, and without a separator.
pub open spec fn is_part(text: Seq<char>) -> bool {
    &&& text.len() > 0
    &&& text != seq!['.']
    &&& forall|i: int| 0 <= i < text.len() ==> #[trigger] text[i] != '/'
}

/// The path that leads to a name in a directory.
pub open spec fn joined(dir: Seq<char>, name: Seq<char>) -> Seq<char> {
    dir + seq!['/'] + name
}

proof fn lemma_joined(dir: Seq<char>, name: Seq<char>, from: int)
    requires
        is_part(name),
        0 <= from <= dir.len(),
    ensures
        parts_from(joined(dir, name), from) == parts_from(dir, from).push(name),
    decreases dir.len() - from,
{
    let s = joined(dir, name);
    let n = dir.len() as int;
    crate::text::lemma_find_from(dir, '/', from);
    let to = crate::text::find_from(dir, '/', from);
    assert forall|j: int| from <= j < to implies s[j] != '/' by {
        assert(s[j] == dir[j]);
    }
    assert(s[to] == '/');
    crate::text::lemma_find_is(s, '/', from, to);
    assert(s.subrange(from, to) =~= dir.subrange(from, to));
    if to < n {
        lemma_joined(dir, name, to + 1);
    } else {
        assert forall|j: int| n + 1 <= j < s.len() implies s[j] != '/' by {
            assert(s[j] == name[j - n - 1]);
        }
        crate::text::lemma_find_is(s, '/', n + 1, s.len() as int);
        assert(s.subrange(n + 1, s.len() as int) =~= name);
        assert(parts_from(s, n + 1) =~= seq![name]);
    }
    assert(parts_from(s, from) =~= parts_from(dir, from).push(name));
}

proof fn lemma_more_separators(dir: Seq<char>, from: int)
    requires
        0 <= from <= dir.len(),
    ensures
        parts_from(dir + seq!['/'], from) == parts_from(dir, from),
    decreases dir.len() - from,
{
    let s = dir + seq!['/'];
    let n = dir.len() as int;
    crate::text::lemma_find_from(dir, '/', from);
    let to = crate::text::find_from(dir, '/', from);
    assert forall|j: int| from <= j < to implies s[j] != '/' by {
        assert(s[j] == dir[j]);
    }
    assert(s[to] == '/');
    crate::text::lemma_find_is(s, '/', from, to);
    assert(s.subrange(from, to) =~= dir.subrange(from, to));
    if to < n {
        lemma_more_separators(dir, to + 1);
    } else {
        crate::text::lemma_find_is(s, '/', n + 1, n + 1);
        assert(s.subrange(n + 1, n + 1).len() == 0);
        assert(parts_from(s, n + 1) =~= Seq::empty());
    }
    assert(parts_from(s, from) =~= parts_from(dir, from));
}

/// Two paths are the same when their directories are and their names are equal; a
/// separator at the end makes no other path.
pub proof fn law_paths_are_the_same_part_by_part(
    a: &str,
    b: &str,
    whole: bool,
    x: &str,
    y: &str,
    dirs: bool,
    m: Seq<char>,
    n: Seq<char>,
)
    requires
        call_ensures(crate::paths::same_path, (a, b), whole),
        call_ensures(crate::paths::same_path, (x, y), dirs),
        x@.len() > 0,
        y@.len() > 0,
    ensures
        is_part(m) && is_part(n) && a@ == joined(x@, m) && b@ == joined(y@, n) ==> whole == (dirs
            && m == n),
        a@ == x@ + seq!['/'] && b@ == y@ ==> whole == dirs,
        a@ == b@ ==> whole,
{
    if is_part(m) && is_part(n) && a@ == joined(x@, m) && b@ == joined(y@, n) {
        lemma_joined(x@, m, 0);
        lemma_joined(y@, n, 0);
        assert(path_parts(a@) =~= path_parts(x@).push(m));
        assert(path_parts(b@) =~= path_parts(y@).push(n));
        if whole {
            assert(path_parts(a@).last() == m && path_parts(b@).last() == n);
            assert(path_parts(a@).drop_last() =~= path_parts(x@));
            assert(path_parts(b@).drop_last() =~= path_parts(y@));
        }
    }
    if a@ == x@ + seq!['/'] && b@ == y@ {
        lemma_more_separators(x@, 0);
        assert(path_parts(a@) =~= path_parts(x@));
    }
}

/// A path from the root is no path from elsewhere, and bare names are the same only
/// when they are equal.
pub proof fn law_roots_and_names_are_told_apart(a: &str, b: &str, r: bool)
    requires
        call_ensures(crate::paths::same_path, (a, b), r),
    ensures
        is_part(a@) && is_part(b@) ==> r == (a@ == b@),
        is_part(b@) && a@ == seq!['/'] + b@ ==> !r,
        is_part(b@) && b@[0] != '.' && a@ == seq!['.', '/'] + b@ ==> !r,
{
    lemma_bare(a@);
    lemma_bare(b@);
    if is_part(b@) && a@ == seq!['/'] + b@ {
        assert(joined(Seq::empty(), b@) =~= a@);
        lemma_joined(Seq::empty(), b@, 0);
        assert(a@[0] == '/');
        assert(path_parts(a@)[0] == seq!['/']);
        assert(seq!['/'][0] == '/');
    }
    if is_part(b@) && b@[0] != '.' && a@ == seq!['.', '/'] + b@ {
        assert(a@[0] == '.' && a@[1] == '/');
        assert(path_parts(a@)[0] == seq!['.']);
    }
}

proof fn lemma_bare(s: Seq<char>)
    ensures
        is_part(s) ==> path_parts(s).len() >= 1 && path_parts(s)[0] == s,
        is_part(s) ==> path_parts(s) == seq![s],
{
    if is_part(s) {
        crate::text::lemma_find_is(s, '/', 0, s.len() as int);
        assert(s.subrange(0, s.len() as int) =~= s);
        assert(counts(s));
        assert(s[0] != '/');
        if s.len() == 1 && s[0] == '.' {
            assert(s =~= seq!['.']);
        }
        assert(path_parts(s) =~= seq![s]);
    }
}

/// Optional paths are the same when both are none or both are the same path.
pub proof fn law_optional_paths_are_the_same_as_paths(
    a: Option<String>,
    b: Option<String>,
    x: &str,
    y: &str,
    r: bool,
    paths: bool,
)
    requires
        call_ensures(crate::paths::same_optional_path, (&a, &b), r),
        call_ensures(crate::paths::same_path, (x, y), paths),
    ensures
        a is None && b is None ==> r,
        a is Some != b is Some ==> !r,
        a is Some && b is Some && a->0@ == x@ && b->0@ == y@ ==> r == paths,
{
}

/// A number reads back from its numeral, and only what is written of the symbols is
/// one.
pub proof fn law_written_numbers_read_back(n: usize, text: String, s: &str, r: Option<usize>)
    requires
        call_ensures(crate::public_id::encode_public_number, (n,), text),
        call_ensures(crate::public_id::decode_public_number, (s,), r),
    ensures
        s@ == text@ ==> r == Some(n),
        s@.len() == 0 ==> r == Some(0usize),
        s@.len() == 1 && s@[0] == '1' ==> r == Some(1usize),
        s@.len() == 1 && s@[0] == '9' ==> r == Some(9usize),
        s@.len() == 1 && s@[0] == 'A' ==> r == Some(10usize),
        s@.len() == 1 && s@[0] == 'H' ==> r == Some(17usize),
        s@.len() == 1 && s@[0] == 'J' ==> r == Some(18usize),
        s@.len() == 1 && s@[0] == 'M' ==> r == Some(20usize),
        s@.len() == 1 && s@[0] == 'P' ==> r == Some(22usize),
        s@.len() == 1 && s@[0] == 'Z' ==> r == Some(32usize),
        forall|i: int|
            0 <= i < s@.len() && (#[trigger] s@[i] == '0' || s@[i] == 'I' || s@[i] == 'L' || s@[i]
                == 'O' || !('1' <= s@[i] <= 'Z')) ==> r is None,
{
    crate::public_id::law_numerals_round_trip(n as nat);
    reveal_with_fuel(crate::public_id::number_of, 3);
    if s@.len() == 1 {
        assert(s@.drop_last().len() == 0);
        assert(s@.last() == s@[0]);
    }
}

/// A pane's id is its workspace's id, a mark and its number, and gives them back.
pub proof fn law_a_pane_id_gives_back_its_parts(
    workspace: &str,
    n: usize,
    id: String,
    target: &str,
    r: Option<String>,
    number: String,
)
    requires
        call_ensures(crate::public_id::public_pane_id_for_number, (workspace, n), id),
        call_ensures(crate::public_id::encode_public_number, (n,), number),
        call_ensures(crate::public_id::peer_workspace_of_pane_id, (target,), r),
        workspace@.len() > 0,
        !workspace@.contains(':'),
    ensures
        id@ == workspace@ + ":p"@ + number@,
        target@ == id@ && n >= 1 ==> r is Some && r->0@ == workspace@,
        !target@.contains(':') ==> r is None,
{
    if n >= 1 {
        assert forall|i: int| 0 <= i < workspace@.len() implies workspace@[i] != ':' by {
            if workspace@[i] == ':' {
                assert(workspace@.contains(':'));
            }
        }
        crate::public_id::law_pane_ids_name_their_workspace(workspace@, n as nat);
    }
    crate::text::lemma_find_from(target@, ':', 0);
    if crate::text::find_from(target@, ':', 0) < target@.len() {
        assert(target@.contains(':'));
    }
}

/// Of the pairs of one name the last counts, and a name without a pair has no text.
pub proof fn law_the_last_pair_counts(
    pairs: &Vec<(String, String)>,
    key: &str,
    r: Option<&String>,
    i: int,
)
    requires
        call_ensures(crate::pairs::lookup, (pairs, key), r),
    ensures
        0 <= i < pairs@.len() && (pairs@[i]).0@ == key@ && (forall|j: int|
            i < j < pairs@.len() ==> (#[trigger] pairs@[j]).0@ != key@) ==> r is Some && r->0@ == (
        pairs@[i]).1@,
        (forall|j: int| 0 <= j < pairs@.len() ==> (#[trigger] pairs@[j]).0@ != key@) ==> r is None,
{
    if 0 <= i < pairs@.len() && (pairs@[i]).0@ == key@ && (forall|j: int|
        i < j < pairs@.len() ==> (#[trigger] pairs@[j]).0@ != key@) {
        lemma_last_pair(pairs@, key@, i);
    }
    if forall|j: int| 0 <= j < pairs@.len() ==> (#[trigger] pairs@[j]).0@ != key@ {
        lemma_no_pair(pairs@, key@);
    }
}

proof fn lemma_last_pair(pairs: Seq<(String, String)>, key: Seq<char>, i: int)
    requires
        0 <= i < pairs.len(),
        (pairs[i]).0@ == key,
        forall|j: int| i < j < pairs.len() ==> (#[trigger] pairs[j]).0@ != key,
    ensures
        crate::pairs::pairs_view(pairs).contains_key(key),
        crate::pairs::pairs_view(pairs)[key] == (pairs[i]).1@,
    decreases pairs.len(),
{
    if i < pairs.len() - 1 {
        assert(pairs[pairs.len() - 1].0@ != key);
        let less = pairs.drop_last();
        assert forall|j: int| i < j < less.len() implies (#[trigger] less[j]).0@ != key by {
            assert(less[j] == pairs[j]);
        }
        lemma_last_pair(less, key, i);
    }
}

proof fn lemma_no_pair(pairs: Seq<(String, String)>, key: Seq<char>)
    requires
        forall|j: int| 0 <= j < pairs.len() ==> (#[trigger] pairs[j]).0@ != key,
    ensures
        !crate::pairs::pairs_view(pairs).contains_key(key),
    decreases pairs.len(),
{
    if pairs.len() > 0 {
        assert(pairs[pairs.len() - 1].0@ != key);
        let less = pairs.drop_last();
        assert forall|j: int| 0 <= j < less.len() implies (#[trigger] less[j]).0@ != key by {
            assert(less[j] == pairs[j]);
        }
        lemma_no_pair(less, key);
    }
}

/// An instance id is thirty-two small hexadecimal digits, and what is generated is
/// one.
pub proof fn law_instance_ids_are_small_hex(value: &str, r: bool, entropy: Entropy, id: String)
    requires
        call_ensures(crate::instance_id::is_instance_id, (value,), r),
        call_ensures(crate::instance_id::generate, (&entropy,), id),
    ensures
        r == (value@.len() == 32 && forall|i: int|
            0 <= i < value@.len() ==> ('0' <= #[trigger] value@[i] <= '9') || ('a' <= value@[i]
                <= 'f')),
        id@ == value@ ==> r,
{
}

/// Each byte is written as two digits, the higher first.
pub proof fn law_bytes_are_written_high_digit_first(
    bytes: &Vec<u8>,
    count: usize,
    r: String,
    i: int,
)
    requires
        call_ensures(crate::instance_id::hex_of, (bytes, count), r),
        0 <= i < count <= bytes@.len(),
    ensures
        r@.len() == 2 * count,
        hex_value(r@[2 * i]) * 16 + hex_value(r@[2 * i + 1]) == bytes@[i],
{
    let taken = bytes@.take(count as int);
    assert(taken[i] == bytes@[i]);
    assert((2 * i) / 2 == i && (2 * i) % 2 == 0);
    assert((2 * i + 1) / 2 == i && (2 * i + 1) % 2 == 1);
    let b = bytes@[i] as int;
    assert(r@[2 * i] == crate::instance_id::hex_digit(b / 16));
    assert(r@[2 * i + 1] == crate::instance_id::hex_digit(b % 16));
}

/// What a hexadecimal digit counts.
pub open spec fn hex_value(c: char) -> int {
    if '0' <= c <= '9' {
        c as int - '0' as int
    } else {
        c as int - 'a' as int + 10
    }
}

/// A usable id on disk always wins; a fresh one is made only under the lock, and
/// nothing is put in place of a file before it was found unusable.
pub proof fn law_a_usable_id_on_disk_wins(
    step: IdStep,
    event: IdEvent,
    entropy: Entropy,
    r: IdStep,
    raw: Seq<char>,
)
    requires
        call_ensures(crate::instance_id::next_id_step, (step, event, &entropy), r),
    ensures
        (step is Read || step is ReadLocked || step is ReadExisting) && (
        event matches IdEvent::Contents(Some(text)) && text@ == raw)
            && crate::instance_id::instance_id_shape(crate::text::trimmed(raw)) ==> r is Done
            && r->Done_id@ == crate::text::trimmed(raw),
        r is Create ==> step is ReadLocked,
        r is ReadLocked ==> step is Lock && event is Succeeded,
        r is Lock ==> step is Read,
        r is ReadExisting ==> step is Create && event is AlreadyExists,
        r is WriteBeside ==> step is ReadExisting,
        r is Replace ==> step is WriteBeside && event is Succeeded,
        r is Discard ==> step is Replace && !(event is Succeeded),
        step is Create && event is Succeeded ==> r is Done && r->Done_id@
            == step->Create_candidate@,
        step is Replace && event is Succeeded ==> r is Done && r->Done_id@
            == step->Replace_candidate@,
        step is WriteBeside && event is Succeeded ==> r->Replace_candidate@
            == step->WriteBeside_candidate@,
        step is Lock && !(event is Succeeded) ==> r is Failed,
        step is Discard ==> r is Failed,
{
}

/// Restored peers have different names and targets; a snapshot that is the only one
/// of its name and target comes back.
pub proof fn law_the_first_snapshot_is_kept(
    snapshots: &Vec<PeerSnapshot>,
    r: crate::app::peers::PeerRegistryState,
)
    requires
        call_ensures(crate::persist::restore_peers, (snapshots,), r),
    ensures
        snapshots@.len() == 0 ==> r@.len() == 0,
        snapshots@.len() > 0 ==> r@.len() > 0 && r@[0].handle == snapshots@[0].name@
            && r@[0].target == snapshots@[0].target.target() && (snapshots@[0].label is Some
            ==> r@[0].label == snapshots@[0].label->0@),
        r@.len() <= snapshots@.len(),
{
    let views = crate::persist::snapshots_view(snapshots@);
    assert(views.len() == snapshots@.len());
    lemma_restored(views);
    if views.len() > 0 {
        assert(views[0] == snapshots@[0]@);
    }
}

proof fn lemma_restored(views: Seq<crate::persist::SnapshotView>)
    ensures
        crate::persist::restored(views).len() <= views.len(),
        views.len() > 0 ==> crate::persist::restored(views).len() > 0 && crate::persist::restored(
            views,
        )[0] == crate::persist::restored_peer(views[0]),
    decreases views.len(),
{
    if views.len() > 0 {
        let less = views.drop_last();
        lemma_restored(less);
        let before = crate::persist::restored(less);
        if less.len() > 0 {
            assert(less[0] == views[0]);
        } else {
            let last = views.last();
            crate::search::lemma_any(before, crate::app::peers::has_handle(last.name));
            crate::search::lemma_any(before, crate::app::peers::has_target(last.target));
            assert(before.len() == 0);
        }
    }
}

} // verus!
