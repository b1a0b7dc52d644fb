//! Picker over hidden peers, so a hidden peer can always be brought back.
//!
//! A peer is hidden for the session, by the configuration, or both. Showing it
//! again undoes both; the configuration is rewritten by its owner.

use vstd::prelude::*;

use crate::app::state::{App, AppState, Mode};
use crate::browser::keys::{KeyCode, KeyEvent};
use crate::search::take_where;
use crate::text::{str_eq, str_precedes};

verus! {

/// A hidden peer.
#[derive(Debug, PartialEq, Eq)]
pub struct HiddenPeerEntry {
    pub peer: String,
    /// Whether the configuration hides it.
    pub permanent: bool,
}

/// The picker while it is open.
#[derive(Debug, PartialEq, Eq)]
pub struct HiddenPeersState {
    pub entries: Vec<HiddenPeerEntry>,
    pub selected: usize,
    pub error: Option<String>,
}

/// What the configuration is to say once a peer is shown again.
#[derive(Debug, PartialEq, Eq)]
pub struct HiddenWrite {
    /// The peer that is shown again.
    pub peer: String,
    /// The peers that stay hidden.
    pub peers: Vec<String>,
}

/// The text is this one.
pub open spec fn is_text(text: Seq<char>) -> spec_fn(String) -> bool {
    |s: String| s@ == text
}

/// The peers are hidden by this list.
pub open spec fn hides(list: Seq<String>, peer: Seq<char>) -> bool {
    exists|i: int| 0 <= i < list.len() && (#[trigger] list[i])@ == peer
}

/// Each peer comes before the next.
pub open spec fn in_order(entries: Seq<HiddenPeerEntry>) -> bool {
    forall|i: int, j: int|
        0 <= i < j < entries.len() ==> crate::text::precedes(
            (#[trigger] entries[i]).peer@,
            (#[trigger] entries[j]).peer@,
        )
}

/// The entries hold this peer.
pub open spec fn holds(entries: Seq<HiddenPeerEntry>, peer: Seq<char>) -> bool {
    exists|i: int| 0 <= i < entries.len() && (#[trigger] entries[i]).peer@ == peer
}

/// The entries are exactly the peers the two lists hide, in order and each once;
/// one that the configuration hides is marked.
pub open spec fn lists_hidden(
    entries: Seq<HiddenPeerEntry>,
    session: Seq<String>,
    config: Seq<String>,
) -> bool {
    &&& in_order(entries)
    &&& forall|i: int|
        0 <= i < entries.len() ==> (hides(session, (#[trigger] entries[i]).peer@) || hides(
            config,
            entries[i].peer@,
        )) && entries[i].permanent == hides(config, entries[i].peer@)
    &&& forall|peer: Seq<char>|
        (hides(session, peer) || hides(config, peer)) ==> #[trigger] holds(entries, peer)
}

/// Two lists of the same hidden peers are the same.
pub proof fn law_hidden_peers_have_one_listing(
    a: Seq<HiddenPeerEntry>,
    b: Seq<HiddenPeerEntry>,
    session: Seq<String>,
    config: Seq<String>,
)
    requires
        lists_hidden(a, session, config),
        lists_hidden(b, session, config),
    ensures
        a.len() == b.len(),
        forall|i: int|
            0 <= i < a.len() ==> (#[trigger] a[i]).peer@ == b[i].peer@ && a[i].permanent
                == b[i].permanent,
{
    lemma_same_prefix(a, b, session, config, a.len() as int);
    lemma_same_prefix(b, a, session, config, b.len() as int);
}

proof fn lemma_same_prefix(
    a: Seq<HiddenPeerEntry>,
    b: Seq<HiddenPeerEntry>,
    session: Seq<String>,
    config: Seq<String>,
    n: int,
)
    requires
        lists_hidden(a, session, config),
        lists_hidden(b, session, config),
        0 <= n <= a.len(),
    ensures
        n <= b.len(),
        forall|i: int|
            0 <= i < n ==> (#[trigger] a[i]).peer@ == b[i].peer@ && a[i].permanent
                == b[i].permanent,
    decreases n,
{
    if n > 0 {
        lemma_same_prefix(a, b, session, config, n - 1);
        let x = a[n - 1].peer@;
        assert(holds(b, x));
        let k = choose|k: int| 0 <= k < b.len() && (#[trigger] b[k]).peer@ == x;
        crate::text::lemma_precedes_total(x, x);
        if k < n - 1 {
            assert(a[k].peer@ == x);
            assert(crate::text::precedes(a[k].peer@, a[n - 1].peer@));
        } else if k > n - 1 {
            let y = b[n - 1].peer@;
            assert(crate::text::precedes(y, x));
            assert(holds(a, y));
            let m = choose|m: int| 0 <= m < a.len() && (#[trigger] a[m]).peer@ == y;
            crate::text::lemma_precedes_total(y, y);
            crate::text::lemma_precedes_total(x, y);
            if m < n - 1 {
                assert(b[m].peer@ == y);
                assert(crate::text::precedes(b[m].peer@, b[n - 1].peer@));
            } else if m > n - 1 {
                assert(crate::text::precedes(x, y));
            }
        }
    }
}

/// The entries with one more peer among them.
pub open spec fn adds(
    before: Seq<HiddenPeerEntry>,
    after: Seq<HiddenPeerEntry>,
    peer: Seq<char>,
    permanent: bool,
) -> bool {
    &&& in_order(after)
    &&& forall|p: Seq<char>| #[trigger]
        holds(after, p) == (holds(before, p) || p == peer)
    &&& forall|i: int|
        0 <= i < after.len() ==> flag_of(before, after[i].peer@, peer, permanent) == (
        #[trigger] after[i]).permanent
}

/// Whether a peer is marked once another was added.
pub open spec fn flag_of(
    before: Seq<HiddenPeerEntry>,
    p: Seq<char>,
    peer: Seq<char>,
    permanent: bool,
) -> bool {
    marked(before, p) || (p == peer && permanent)
}

/// An entry of this peer is marked.
pub open spec fn marked(entries: Seq<HiddenPeerEntry>, peer: Seq<char>) -> bool {
    exists|i: int|
        0 <= i < entries.len() && (#[trigger] entries[i]).peer@ == peer && entries[i].permanent
}

fn add_entry(entries: &mut Vec<HiddenPeerEntry>, peer: &str, permanent: bool)
    requires
        in_order(old(entries)@),
    ensures
        adds(old(entries)@, final(entries)@, peer@, permanent),
{
    let ghost before = entries@;
    let mut at: usize = 0;
    while at < entries.len() && str_precedes(entries[at].peer.as_str(), peer)
        invariant
            entries@ == before,
            at <= entries@.len(),
            forall|i: int|
                0 <= i < at ==> crate::text::precedes((#[trigger] before[i]).peer@, peer@),
        decreases entries@.len() - at,
    {
        at += 1;
    }
    proof {
        assert forall|i: int| 0 <= i < at implies (#[trigger] before[i]).peer@ != peer@ by {
            crate::text::lemma_precedes_total(peer@, peer@);
        }
    }
    if at < entries.len() && str_eq(entries[at].peer.as_str(), peer) {
        if permanent {
            entries[at].permanent = true;
        }
        proof {
            let flagged = before[at as int].permanent || permanent;
            assert(entries@ =~= before.update(
                at as int,
                (HiddenPeerEntry { permanent: flagged, ..before[at as int] }),
            ));
            lemma_marks(before, entries@, at as int, peer@, permanent);
        }
    } else {
        entries.insert(at, HiddenPeerEntry { peer: peer.to_owned(), permanent });
        proof {
            if at < before.len() {
                crate::text::lemma_precedes_total(before[at as int].peer@, peer@);
            }
            lemma_inserts(before, entries@, at as int, peer@, permanent);
        }
    }
}

proof fn lemma_marks(
    before: Seq<HiddenPeerEntry>,
    after: Seq<HiddenPeerEntry>,
    at: int,
    peer: Seq<char>,
    permanent: bool,
)
    requires
        in_order(before),
        0 <= at < before.len(),
        before[at].peer@ == peer,
        after == before.update(
            at,
            (HiddenPeerEntry { permanent: before[at].permanent || permanent, ..before[at] }),
        ),
    ensures
        adds(before, after, peer, permanent),
{
    assert forall|p: Seq<char>| #[trigger]
        holds(after, p) == (holds(before, p) || p == peer) by {
        if holds(after, p) {
            let i = choose|i: int| 0 <= i < after.len() && (#[trigger] after[i]).peer@ == p;
            assert(before[i].peer@ == p);
        }
        if holds(before, p) {
            let i = choose|i: int| 0 <= i < before.len() && (#[trigger] before[i]).peer@ == p;
            assert(after[i].peer@ == p);
        }
        if p == peer {
            assert(after[at].peer@ == p);
        }
    }
    assert forall|i: int| 0 <= i < after.len() implies flag_of(
        before,
        after[i].peer@,
        peer,
        permanent,
    ) == (#[trigger] after[i]).permanent by {
        lemma_marked_at(before, i);
        if i != at {
            lemma_order_differs(before, i, at);
        }
    }
    assert(in_order(after)) by {
        assert forall|i: int, j: int| 0 <= i < j < after.len() implies crate::text::precedes(
            (#[trigger] after[i]).peer@,
            (#[trigger] after[j]).peer@,
        ) by {
            assert(crate::text::precedes(before[i].peer@, before[j].peer@));
        }
    }
}

proof fn lemma_order_differs(entries: Seq<HiddenPeerEntry>, i: int, j: int)
    requires
        in_order(entries),
        0 <= i < entries.len(),
        0 <= j < entries.len(),
        i != j,
    ensures
        entries[i].peer@ != entries[j].peer@,
{
    crate::text::lemma_precedes_total(entries[i].peer@, entries[i].peer@);
    if i < j {
        assert(crate::text::precedes(entries[i].peer@, entries[j].peer@));
    } else {
        assert(crate::text::precedes(entries[j].peer@, entries[i].peer@));
    }
}

proof fn lemma_marked_at(entries: Seq<HiddenPeerEntry>, i: int)
    requires
        in_order(entries),
        0 <= i < entries.len(),
    ensures
        marked(entries, entries[i].peer@) == entries[i].permanent,
{
    if marked(entries, entries[i].peer@) {
        let k = choose|k: int|
            0 <= k < entries.len() && (#[trigger] entries[k]).peer@ == entries[i].peer@
                && entries[k].permanent;
        if k != i {
            lemma_order_differs(entries, k, i);
        }
    }
}

proof fn lemma_inserts(
    before: Seq<HiddenPeerEntry>,
    after: Seq<HiddenPeerEntry>,
    at: int,
    peer: Seq<char>,
    permanent: bool,
)
    requires
        in_order(before),
        0 <= at <= before.len(),
        after.len() == before.len() + 1,
        after == before.insert(at, after[at]),
        after[at].peer@ == peer,
        after[at].permanent == permanent,
        forall|i: int|
            0 <= i < at ==> crate::text::precedes((#[trigger] before[i]).peer@, peer),
        at < before.len() ==> crate::text::precedes(peer, before[at].peer@),
    ensures
        adds(before, after, peer, permanent),
{
    assert forall|i: int| at <= i < before.len() implies crate::text::precedes(
        peer,
        (#[trigger] before[i]).peer@,
    ) by {
        if i > at {
            assert(crate::text::precedes(before[at].peer@, before[i].peer@));
            crate::text::lemma_precedes_transitive(peer, before[at].peer@, before[i].peer@);
        }
    }
    assert forall|i: int| 0 <= i < before.len() implies (#[trigger] before[i]).peer@ != peer by {
        crate::text::lemma_precedes_total(peer, peer);
        assert(i < at || crate::text::precedes(peer, before[i].peer@));
    }
    assert(in_order(after)) by {
        assert forall|i: int, j: int| 0 <= i < j < after.len() implies crate::text::precedes(
            (#[trigger] after[i]).peer@,
            (#[trigger] after[j]).peer@,
        ) by {
            let x = if i < at {
                i
            } else {
                i - 1
            };
            let y = if j < at {
                j
            } else {
                j - 1
            };
            if i != at {
                assert(after[i] == before[x]);
            }
            if j != at {
                assert(after[j] == before[y]);
            }
            if i != at && j != at {
                assert(crate::text::precedes(before[x].peer@, before[y].peer@));
            }
        }
    }
    assert forall|p: Seq<char>| #[trigger]
        holds(after, p) == (holds(before, p) || p == peer) by {
        if holds(after, p) && p != peer {
            let i = choose|i: int| 0 <= i < after.len() && (#[trigger] after[i]).peer@ == p;
            if i < at {
                assert(before[i].peer@ == p);
            } else {
                assert(before[i - 1].peer@ == p);
            }
        }
        if holds(before, p) {
            let i = choose|i: int| 0 <= i < before.len() && (#[trigger] before[i]).peer@ == p;
            if i < at {
                assert(after[i].peer@ == p);
            } else {
                assert(after[i + 1].peer@ == p);
            }
        }
        if p == peer {
            assert(after[at].peer@ == p);
        }
    }
    assert forall|i: int| 0 <= i < after.len() implies flag_of(
        before,
        after[i].peer@,
        peer,
        permanent,
    ) == (#[trigger] after[i]).permanent by {
        if i == at {
            assert(!marked(before, peer));
        } else {
            let x = if i < at {
                i
            } else {
                i - 1
            };
            assert(after[i] == before[x]);
            lemma_marked_at(before, x);
        }
    }
}

/// The entries hold what the first peers of a list hide, and what they held
/// before.
pub open spec fn holds_up_to(
    base: Seq<HiddenPeerEntry>,
    entries: Seq<HiddenPeerEntry>,
    list: Seq<String>,
    permanent: bool,
) -> bool {
    &&& in_order(entries)
    &&& forall|p: Seq<char>| #[trigger] holds(entries, p) == (holds(base, p) || hides(list, p))
    &&& forall|i: int|
        0 <= i < entries.len() ==> (#[trigger] entries[i]).permanent == (marked(
            base,
            entries[i].peer@,
        ) || (permanent && hides(list, entries[i].peer@)))
}

proof fn lemma_hides_one_more(list: Seq<String>, i: int, p: Seq<char>)
    requires
        0 <= i < list.len(),
    ensures
        hides(list.take(i + 1), p) == (hides(list.take(i), p) || p == list[i]@),
{
    let more = list.take(i + 1);
    let less = list.take(i);
    if hides(less, p) {
        let k = choose|k: int| 0 <= k < less.len() && (#[trigger] less[k])@ == p;
        assert(more[k]@ == p);
    }
    if p == list[i]@ {
        assert(more[i]@ == p);
    }
    if hides(more, p) && p != list[i]@ {
        let k = choose|k: int| 0 <= k < more.len() && (#[trigger] more[k])@ == p;
        assert(less[k]@ == p);
    }
}

fn add_entries(entries: &mut Vec<HiddenPeerEntry>, list: &Vec<String>, permanent: bool)
    requires
        in_order(old(entries)@),
    ensures
        holds_up_to(old(entries)@, final(entries)@, list@, permanent),
{
    let ghost base = entries@;
    let mut i: usize = 0;
    proof {
        assert forall|k: int| 0 <= k < base.len() implies (#[trigger] base[k]).permanent == (
        marked(base, base[k].peer@) || (permanent && hides(list@.take(0), base[k].peer@))) by {
            lemma_marked_at(base, k);
        }
    }
    while i < list.len()
        invariant
            i <= list@.len(),
            holds_up_to(base, entries@, list@.take(i as int), permanent),
        decreases list@.len() - i,
    {
        let ghost mid = entries@;
        add_entry(entries, list[i].as_str(), permanent);
        let ghost less = list@.take(i as int);
        let ghost more = list@.take(i + 1);
        let ghost added = list@[i as int]@;
        proof {
            assert forall|p: Seq<char>| #[trigger]
                holds(entries@, p) == (holds(base, p) || hides(more, p)) by {
                lemma_hides_one_more(list@, i as int, p);
                assert(holds(mid, p) == (holds(base, p) || hides(less, p)));
            }
            assert forall|k: int| 0 <= k < entries@.len() implies (
            #[trigger] entries@[k]).permanent == (marked(base, entries@[k].peer@) || (permanent
                && hides(more, entries@[k].peer@))) by {
                let p = entries@[k].peer@;
                lemma_hides_one_more(list@, i as int, p);
                assert(flag_of(mid, p, added, permanent) == entries@[k].permanent);
                assert(holds(entries@, p));
                assert(holds(mid, p) || p == added);
                if holds(mid, p) {
                    let m = choose|m: int| 0 <= m < mid.len() && (#[trigger] mid[m]).peer@ == p;
                    lemma_marked_at(mid, m);
                } else {
                    assert(!marked(mid, p)) by {
                        if marked(mid, p) {
                            let m = choose|m: int|
                                0 <= m < mid.len() && (#[trigger] mid[m]).peer@ == p
                                    && mid[m].permanent;
                            assert(holds(mid, p));
                        }
                    }
                    assert(!holds(base, p));
                    assert(!marked(base, p)) by {
                        if marked(base, p) {
                            let m = choose|m: int|
                                0 <= m < base.len() && (#[trigger] base[m]).peer@ == p
                                    && base[m].permanent;
                            assert(holds(base, p));
                        }
                    }
                }
            }
        }
        i += 1;
    }
    assert(list@.take(i as int) =~= list@);
}

/// Only the picker and the mode changed.
pub open spec fn changes_hidden_picker(before: App, after: App) -> bool {
    after == (App {
        state: AppState {
            hidden_peers_picker: after.state.hidden_peers_picker,
            mode: after.state.mode,
            ..before.state
        },
        ..before
    })
}

/// The picker is closed.
pub open spec fn closes_hidden_picker(before: App, after: App) -> bool {
    &&& changes_hidden_picker(before, after)
    &&& after.state.hidden_peers_picker is None
    &&& after.state.mode == crate::app::peer_picker::mode_behind(before.state.active)
}

/// No peer is hidden.
pub open spec fn none_hidden(state: AppState) -> bool {
    state.hidden_peers@.len() == 0 && state.hidden_peers_config@.len() == 0
}

/// The picker shows what is hidden now, or is closed when nothing is.
pub open spec fn refreshes(before: App, after: App) -> bool {
    if none_hidden(before.state) {
        closes_hidden_picker(before, after)
    } else {
        &&& changes_hidden_picker(before, after)
        &&& after.state.mode == before.state.mode
        &&& match before.state.hidden_peers_picker {
            None => after.state.hidden_peers_picker is None,
            Some(picker) => {
                &&& after.state.hidden_peers_picker is Some
                &&& after.state.hidden_peers_picker->0.error is None
                &&& lists_hidden(
                    after.state.hidden_peers_picker->0.entries@,
                    before.state.hidden_peers@,
                    before.state.hidden_peers_config@,
                )
                &&& after.state.hidden_peers_picker->0.selected == clamped(
                    picker.selected,
                    after.state.hidden_peers_picker->0.entries@.len(),
                )
            },
        }
    }
}

/// The nearest position there is.
pub open spec fn clamped(at: usize, len: nat) -> usize {
    if at < len {
        at
    } else if len > 0 {
        (len - 1) as usize
    } else {
        0
    }
}

/// The entry the selection is on.
pub open spec fn selected_entry(picker: Option<HiddenPeersState>) -> Option<HiddenPeerEntry> {
    match picker {
        Some(picker) => if picker.selected < picker.entries@.len() {
            Some(picker.entries@[picker.selected as int])
        } else {
            None
        },
        None => None,
    }
}

/// The peer is no longer hidden for the session.
pub open spec fn shown_for_session(before: App, after: App, peer: Seq<char>) -> bool {
    &&& after.state.hidden_peers@ == before.state.hidden_peers@.filter(
        crate::search::lacks(is_text(peer)),
    )
    &&& after == (App {
        state: AppState {
            hidden_peers: after.state.hidden_peers,
            session_dirty: true,
            ..before.state
        },
        ..before
    })
}

/// The peer is no longer hidden by the configuration.
pub open spec fn shown_by_config(before: App, after: App, peer: Seq<char>) -> bool {
    &&& after.state.hidden_peers_config@ == before.state.hidden_peers_config@.filter(
        crate::search::lacks(is_text(peer)),
    )
    &&& after == (App {
        state: AppState { hidden_peers_config: after.state.hidden_peers_config, ..before.state },
        ..before
    })
}

/// What showing the selected peer again comes to. A peer the configuration hides
/// waits for the configuration to be written.
pub open spec fn unhides(before: App, after: App, write: Option<HiddenWrite>) -> bool {
    match selected_entry(before.state.hidden_peers_picker) {
        None => after == before && write is None,
        Some(entry) => if entry.permanent {
            &&& shown_for_session(before, after, entry.peer@)
            &&& write is Some
            &&& write->0.peer@ == entry.peer@
            &&& write->0.peers@ == before.state.hidden_peers_config@.filter(
                crate::search::lacks(is_text(entry.peer@)),
            )
        } else {
            &&& write is None
            &&& exists|mid: App| #[trigger]
                shown_for_session(before, mid, entry.peer@) && refreshes(mid, after)
        },
    }
}

fn kept_texts(list: &Vec<String>, gone: &str) -> (r: Vec<String>)
    ensures
        r@ == list@.filter(crate::search::lacks(is_text(gone@))),
{
    let ghost p = crate::search::lacks(is_text(gone@));
    let mut out: Vec<String> = Vec::new();
    let mut i: usize = 0;
    proof {
        reveal(Seq::filter);
        assert(list@.take(0) =~= Seq::empty());
    }
    while i < list.len()
        invariant
            p == crate::search::lacks(is_text(gone@)),
            i <= list@.len(),
            out@ == list@.take(i as int).filter(p),
        decreases list@.len() - i,
    {
        proof {
            crate::search::lemma_filter_step(list@, p, i as int);
        }
        if !str_eq(list[i].as_str(), gone) {
            out.push(list[i].clone());
        }
        i += 1;
    }
    assert(list@.take(i as int) =~= list@);
    out
}

impl AppState {
    /// The hidden peers, in order and each once.
    pub fn hidden_peer_entries(&self) -> (r: Vec<HiddenPeerEntry>)
        ensures
            lists_hidden(r@, self.hidden_peers@, self.hidden_peers_config@),
    {
        let mut entries: Vec<HiddenPeerEntry> = Vec::new();
        let ghost none = entries@;
        add_entries(&mut entries, &self.hidden_peers, false);
        let ghost session = entries@;
        add_entries(&mut entries, &self.hidden_peers_config, true);
        proof {
            assert forall|p: Seq<char>| !holds(none, p) && !marked(none, p) by {}
            assert forall|p: Seq<char>| !marked(session, p) by {}
            assert forall|i: int| 0 <= i < entries@.len() implies (hides(
                self.hidden_peers@,
                (#[trigger] entries@[i]).peer@,
            ) || hides(self.hidden_peers_config@, entries@[i].peer@)) && entries@[i].permanent
                == hides(self.hidden_peers_config@, entries@[i].peer@) by {
                let p = entries@[i].peer@;
                assert(holds(entries@, p));
                assert(holds(session, p) == (holds(none, p) || hides(self.hidden_peers@, p)));
            }
            assert forall|p: Seq<char>|
                (hides(self.hidden_peers@, p) || hides(
                    self.hidden_peers_config@,
                    p,
                )) implies #[trigger] holds(entries@, p) by {
                assert(holds(session, p) == (holds(none, p) || hides(self.hidden_peers@, p)));
            }
        }
        entries
    }
}

impl App {
    /// Opens the picker, or says that there is nothing to pick.
    pub fn open_hidden_peers_picker(&mut self)
        ensures
            if none_hidden(old(self).state) {
                crate::app::state::reports(
                    *old(self),
                    *final(self),
                    "no hidden peers"@,
                    "nothing to unhide"@,
                )
            } else {
                &&& changes_hidden_picker(*old(self), *final(self))
                &&& final(self).state.mode == Mode::UnhidePeers
                &&& final(self).state.hidden_peers_picker is Some
                &&& lists_hidden(
                    final(self).state.hidden_peers_picker->0.entries@,
                    old(self).state.hidden_peers@,
                    old(self).state.hidden_peers_config@,
                )
                &&& final(self).state.hidden_peers_picker->0.selected == 0
                &&& final(self).state.hidden_peers_picker->0.error is None
            },
    {
        let entries = self.state.hidden_peer_entries();
        proof {
            lemma_none_listed(self.state, entries@);
        }
        if entries.len() == 0 {
            self.report_action_outcome("no hidden peers".to_owned(), "nothing to unhide");
            return;
        }
        self.state.hidden_peers_picker = Some(
            HiddenPeersState { entries, selected: 0, error: None },
        );
        self.state.mode = Mode::UnhidePeers;
    }

    /// Closes the picker.
    pub fn close_hidden_peers_picker(&mut self)
        ensures
            closes_hidden_picker(*old(self), *final(self)),
    {
        self.state.hidden_peers_picker = None;
        self.state.mode = self.mode_behind_dialog();
    }

    /// Takes a key for the picker.
    pub fn handle_hidden_peers_key(&mut self, key: KeyEvent) -> (r: Option<HiddenWrite>)
        ensures
            match key.code {
                KeyCode::Esc => r is None && closes_hidden_picker(*old(self), *final(self)),
                KeyCode::Enter => unhides(*old(self), *final(self), r),
                _ => {
                    &&& r is None
                    &&& changes_hidden_picker(*old(self), *final(self))
                    &&& final(self).state.mode == old(self).state.mode
                    &&& final(self).state.hidden_peers_picker == match old(
                        self,
                    ).state.hidden_peers_picker {
                        Some(picker) => Some(
                            HiddenPeersState {
                                selected: match key.code {
                                    KeyCode::Up => if picker.selected > 0 {
                                        (picker.selected - 1) as usize
                                    } else {
                                        0
                                    },
                                    KeyCode::Down => if picker.selected < usize::MAX {
                                        clamped(
                                            (picker.selected + 1) as usize,
                                            picker.entries@.len(),
                                        )
                                    } else {
                                        clamped(picker.selected, picker.entries@.len())
                                    },
                                    _ => picker.selected,
                                },
                                ..picker
                            },
                        ),
                        None => None,
                    }
                },
            },
    {
        match key.code {
            KeyCode::Esc => {
                self.close_hidden_peers_picker();
                return None;
            },
            KeyCode::Enter => {
                return self.unhide_selected_peer();
            },
            _ => {},
        }
        if let Some(picker) = &mut self.state.hidden_peers_picker {
            match key.code {
                KeyCode::Up => {
                    if picker.selected > 0 {
                        picker.selected = picker.selected - 1;
                    }
                },
                KeyCode::Down => {
                    let len = picker.entries.len();
                    if picker.selected < usize::MAX {
                        picker.selected = nearest(picker.selected + 1, len);
                    } else {
                        picker.selected = nearest(picker.selected, len);
                    }
                },
                _ => {},
            }
        }
        None
    }

    /// Shows the selected peer again. A peer the configuration hides needs the
    /// configuration written; what came of that is handed to
    /// [`App::hidden_peers_written`].
    pub fn unhide_selected_peer(&mut self) -> (r: Option<HiddenWrite>)
        ensures
            unhides(*old(self), *final(self), r),
    {
        let picker = match &self.state.hidden_peers_picker {
            Some(picker) => picker,
            None => {
                return None;
            },
        };
        if picker.selected >= picker.entries.len() {
            return None;
        }
        let peer = picker.entries[picker.selected].peer.clone();
        let permanent = picker.entries[picker.selected].permanent;
        let gone = &peer;
        let same = |s: &String| -> (b: bool)
            ensures
                b == is_text(gone@)(*s),
            { str_eq(s.as_str(), gone.as_str()) };
        take_where(&mut self.state.hidden_peers, same, Ghost(is_text(peer@)));
        self.state.session_dirty = true;
        let ghost mid = *self;
        assert(shown_for_session(*old(self), mid, peer@));
        if permanent {
            let peers = kept_texts(&self.state.hidden_peers_config, peer.as_str());
            return Some(HiddenWrite { peer, peers });
        }
        self.refresh_hidden_peers();
        None
    }

    /// Goes on once the configuration was written, or says why it was not.
    pub fn hidden_peers_written(&mut self, peer: &str, written: Result<(), String>)
        ensures
            match written {
                Ok(_) => exists|mid: App| #[trigger]
                    shown_by_config(*old(self), mid, peer@) && refreshes(mid, *final(self)),
                Err(error) => {
                    &&& changes_hidden_picker(*old(self), *final(self))
                    &&& final(self).state.mode == old(self).state.mode
                    &&& final(self).state.hidden_peers_picker == match old(
                        self,
                    ).state.hidden_peers_picker {
                        Some(picker) => Some(HiddenPeersState { error: Some(error), ..picker }),
                        None => None,
                    }
                },
            },
    {
        match written {
            Ok(_) => {
                let same = |s: &String| -> (b: bool)
                    ensures
                        b == is_text(peer@)(*s),
                    { str_eq(s.as_str(), peer) };
                take_where(&mut self.state.hidden_peers_config, same, Ghost(is_text(peer@)));
                let ghost mid = *self;
                assert(shown_by_config(*old(self), mid, peer@));
                self.refresh_hidden_peers();
            },
            Err(error) => {
                if let Some(picker) = &mut self.state.hidden_peers_picker {
                    picker.error = Some(error);
                }
            },
        }
    }

    fn refresh_hidden_peers(&mut self)
        ensures
            refreshes(*old(self), *final(self)),
    {
        let entries = self.state.hidden_peer_entries();
        proof {
            lemma_none_listed(self.state, entries@);
        }
        if entries.len() == 0 {
            self.close_hidden_peers_picker();
            return;
        }
        if let Some(picker) = &mut self.state.hidden_peers_picker {
            picker.selected = nearest(picker.selected, entries.len());
            picker.entries = entries;
            picker.error = None;
        }
    }
}

proof fn lemma_none_listed(state: AppState, entries: Seq<HiddenPeerEntry>)
    requires
        lists_hidden(entries, state.hidden_peers@, state.hidden_peers_config@),
    ensures
        (entries.len() == 0) == none_hidden(state),
{
    if state.hidden_peers@.len() > 0 {
        assert(hides(state.hidden_peers@, state.hidden_peers@[0]@));
        assert(holds(entries, state.hidden_peers@[0]@));
    }
    if state.hidden_peers_config@.len() > 0 {
        assert(hides(state.hidden_peers_config@, state.hidden_peers_config@[0]@));
        assert(holds(entries, state.hidden_peers_config@[0]@));
    }
    if entries.len() > 0 {
        assert(hides(state.hidden_peers@, entries[0].peer@) || hides(
            state.hidden_peers_config@,
            entries[0].peer@,
        ));
    }
}

fn nearest(at: usize, len: usize) -> (r: usize)
    ensures
        r == clamped(at, len as nat),
{
    if at < len {
        at
    } else if len > 0 {
        len - 1
    } else {
        0
    }
}

} // verus!
