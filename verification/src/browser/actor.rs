//! What a browser pane's actor does next: which commands it applies together, how
//! long it waits for the next frame, and what it reports.

use std::collections::hash_map::DefaultHasher;
use std::collections::VecDeque;
use std::hash::Hasher;

use vstd::prelude::*;
use vstd::std_specs::hash::DefaultHasherAdditionalSpecFns;

use crate::app::state::PaneId;
use crate::browser::command::BrowserCommand;
use crate::events::AppEvent;

verus! {

/// Time between captures while the page is changing, in milliseconds.
pub const POLL_INTERVAL_MS: u64 = 200;

/// The longest time between captures, in milliseconds. Each poll is a run of a
/// program plus a file written and read back, so an idle page must not be polled
/// at the full rate forever.
pub const POLL_INTERVAL_MAX_MS: u64 = 2000;

/// Consecutive failed captures before the session is treated as gone. A single
/// failure is normal while the page is loading, but a session whose browser died
/// fails every capture.
pub const MAX_CONSECUTIVE_SCREENSHOT_FAILURES: u32 = 5;

/// How many commands one batch holds at most. Without a bound a held-down key
/// would keep the next frame from being captured.
pub const MAX_BATCHED_COMMANDS: usize = 32;

/// What tells one frame from another: the hash of its length and its bytes.
pub open spec fn fingerprint(data: Seq<u8>) -> u64 {
    DefaultHasher::spec_finish(
        seq![vstd::bytes::spec_u64_to_le_bytes(data.len() as u64), data],
    )
}

/// Cheap identity of a frame, so that an unchanged page costs nothing beyond the
/// poll itself.
pub fn frame_fingerprint(data: &[u8]) -> (r: u64)
    ensures
        r == fingerprint(data@),
{
    let mut hasher = DefaultHasher::new();
    let length = vstd::bytes::u64_to_le_bytes(data.len() as u64);
    hasher.write(length.as_slice());
    hasher.write(data);
    assert(hasher@ =~= seq![vstd::bytes::spec_u64_to_le_bytes(data@.len() as u64), data@]);
    hasher.finish()
}

/// A batch after one more command: text joins text, and everything else follows.
pub open spec fn joined(
    batch: Seq<crate::browser::command::CommandView>,
    next: crate::browser::command::CommandView,
) -> Seq<crate::browser::command::CommandView> {
    if batch.len() > 0 && batch.last() is TypeText && next is TypeText {
        batch.drop_last().push(
            crate::browser::command::CommandView::TypeText(
                batch.last()->TypeText_0 + next->TypeText_0,
            ),
        )
    } else {
        batch.push(next)
    }
}

/// A command and those queued behind it, with adjacent texts merged.
pub open spec fn merged(
    first: crate::browser::command::CommandView,
    queued: Seq<crate::browser::command::CommandView>,
) -> Seq<crate::browser::command::CommandView>
    decreases queued.len(),
{
    if queued.len() == 0 {
        seq![first]
    } else {
        joined(merged(first, queued.drop_last()), queued.last())
    }
}

/// The batch is a command with the first `taken` commands of the queue, and the
/// rest stays queued. All are taken unless the batch is full, and none is taken
/// once it is.
pub open spec fn batches(
    batch: Seq<crate::browser::command::CommandView>,
    taken: int,
    first: crate::browser::command::CommandView,
    queued: Seq<crate::browser::command::CommandView>,
) -> bool {
    &&& 0 <= taken <= queued.len()
    &&& batch == merged(first, queued.take(taken))
    &&& batch.len() == MAX_BATCHED_COMMANDS || (taken == queued.len() && batch.len()
        < MAX_BATCHED_COMMANDS)
    &&& forall|i: int|
        0 <= i < taken ==> (#[trigger] merged(first, queued.take(i))).len() < MAX_BATCHED_COMMANDS
}

fn join(batch: &mut Vec<BrowserCommand>, next: BrowserCommand)
    requires
        old(batch)@.len() < usize::MAX,
    ensures
        crate::browser::command::commands_view(final(batch)@) == joined(
            crate::browser::command::commands_view(old(batch)@),
            next@,
        ),
{
    let ghost before = crate::browser::command::commands_view(batch@);
    let ghost view = next@;
    let n: usize = batch.len();
    if n > 0 {
        if let BrowserCommand::TypeText(text) = &next {
            let extended = match &batch[n - 1] {
                BrowserCommand::TypeText(pending) => {
                    let mut all = pending.clone();
                    all.append(text.as_str());
                    Some(all)
                },
                _ => None,
            };
            if let Some(all) = extended {
                batch.pop();
                batch.push(BrowserCommand::TypeText(all));
                assert(crate::browser::command::commands_view(batch@) =~= joined(before, view));
                return;
            }
        }
        assert(before.last() == batch@.last()@);
    }
    batch.push(next);
    assert(crate::browser::command::commands_view(batch@) =~= joined(before, view));
}

/// Takes everything already queued behind `first` and merges adjacent texts into
/// single commands.
///
/// Only text merges. Reordering anything else would change meaning: a click
/// between two keystrokes moves focus, and a pressed Enter between them submits.
pub fn coalesce(first: BrowserCommand, queue: &mut VecDeque<BrowserCommand>) -> (r: Vec<
    BrowserCommand,
>)
    ensures
        exists|taken: int|
            #![trigger old(queue)@.skip(taken)]
            batches(
                crate::browser::command::commands_view(r@),
                taken,
                first@,
                crate::browser::command::commands_view(old(queue)@),
            ) && final(queue)@ == old(queue)@.skip(taken),
{
    let mut batch: Vec<BrowserCommand> = Vec::new();
    let ghost view = first@;
    let ghost all = queue@;
    let ghost queued = crate::browser::command::commands_view(all);
    batch.push(first);
    let mut taken: Ghost<int> = Ghost(0);
    assert(queued.take(0) =~= Seq::empty());
    assert(crate::browser::command::commands_view(batch@) =~= merged(view, queued.take(0)));
    assert(all.skip(0) =~= all);
    while batch.len() < MAX_BATCHED_COMMANDS
        invariant
            queued == crate::browser::command::commands_view(all),
            0 <= taken@ <= all.len(),
            queue@ == all.skip(taken@),
            crate::browser::command::commands_view(batch@) == merged(view, queued.take(taken@)),
            batch@.len() <= MAX_BATCHED_COMMANDS,
            forall|i: int|
                0 <= i < taken@ ==> (#[trigger] merged(view, queued.take(i))).len()
                    < MAX_BATCHED_COMMANDS,
        ensures
            batch@.len() == MAX_BATCHED_COMMANDS || taken@ == all.len(),
        decreases queue@.len(),
    {
        let next = match queue.pop_front() {
            Some(next) => next,
            None => {
                break;
            },
        };
        proof {
            assert(merged(view, queued.take(taken@)).len() == batch@.len());
            assert(queued.take(taken@ + 1).drop_last() =~= queued.take(taken@));
            assert(queued.take(taken@ + 1).last() == next@);
            taken@ = taken@ + 1;
        }
        let ghost before = batch@;
        join(&mut batch, next);
        assert(batch@.len() == crate::browser::command::commands_view(batch@).len());
        assert(before.len() == crate::browser::command::commands_view(before).len());
        assert(queue@ =~= all.skip(taken@));
    }
    assert(batches(crate::browser::command::commands_view(batch@), taken@, view, queued));
    batch
}

/// What a page sees of a command: a text arrives character by character.
pub open spec fn strokes_of(command: crate::browser::command::CommandView) -> Seq<
    crate::browser::command::CommandView,
> {
    match command {
        crate::browser::command::CommandView::TypeText(text) => text.map_values(
            |c: char| crate::browser::command::CommandView::TypeText(seq![c]),
        ),
        _ => seq![command],
    }
}

/// What a page sees of a list of commands.
pub open spec fn strokes(commands: Seq<crate::browser::command::CommandView>) -> Seq<
    crate::browser::command::CommandView,
>
    decreases commands.len(),
{
    if commands.len() == 0 {
        Seq::empty()
    } else {
        strokes(commands.drop_last()) + strokes_of(commands.last())
    }
}

/// Merging changes nothing the page sees: every character and every other command
/// comes through, once and in order.
pub proof fn law_merging_keeps_what_the_page_sees(
    first: crate::browser::command::CommandView,
    queued: Seq<crate::browser::command::CommandView>,
)
    ensures
        strokes(merged(first, queued)) == strokes(seq![first] + queued),
        merged(first, queued).len() >= 1,
    decreases queued.len(),
{
    let one = seq![first];
    if queued.len() == 0 {
        assert(one + queued =~= one);
    } else {
        let shorter = merged(first, queued.drop_last());
        law_merging_keeps_what_the_page_sees(first, queued.drop_last());
        assert((one + queued).drop_last() =~= one + queued.drop_last());
        let next = queued.last();
        let longer = joined(shorter, next);
        if shorter.last() is TypeText && next is TypeText {
            assert(longer.drop_last() =~= shorter.drop_last());
            let a = shorter.last()->TypeText_0;
            let b = next->TypeText_0;
            let both = strokes_of(longer.last());
            let apart = strokes_of(shorter.last()) + strokes_of(next);
            assert(shorter.last() == crate::browser::command::CommandView::TypeText(a));
            assert(next == crate::browser::command::CommandView::TypeText(b));
            assert(longer.last() == crate::browser::command::CommandView::TypeText(a + b));
            assert(both =~= apart);
            assert(strokes(longer) =~= strokes(shorter) + strokes_of(next));
        } else {
            assert(longer.drop_last() =~= shorter);
        }
    }
}

/// No two adjacent commands of a batch are texts: a burst of typing is one
/// command.
pub proof fn law_merged_texts_are_never_adjacent(
    first: crate::browser::command::CommandView,
    queued: Seq<crate::browser::command::CommandView>,
)
    ensures
        forall|i: int|
            0 < i < merged(first, queued).len() ==> !(merged(first, queued)[i - 1] is TypeText
                && (#[trigger] merged(first, queued)[i]) is TypeText),
    decreases queued.len(),
{
    if queued.len() > 0 {
        law_merged_texts_are_never_adjacent(first, queued.drop_last());
        law_merging_keeps_what_the_page_sees(first, queued.drop_last());
        let shorter = merged(first, queued.drop_last());
        let longer = merged(first, queued);
        assert forall|i: int| 0 < i < longer.len() implies !(longer[i - 1] is TypeText && (
        #[trigger] longer[i]) is TypeText) by {
            if i < shorter.len() {
                assert(!(shorter[i - 1] is TypeText && shorter[i] is TypeText));
            }
        }
    }
}

/// The wait after one more unchanged or failed capture: twice as long, up to the
/// ceiling.
pub open spec fn after_idle(interval: u64) -> u64 {
    if 2 * interval > POLL_INTERVAL_MAX_MS {
        POLL_INTERVAL_MAX_MS
    } else {
        (2 * interval) as u64
    }
}

/// The wait after one more unchanged or failed capture.
pub fn backed_off(interval: u64) -> (r: u64)
    ensures
        r == after_idle(interval),
{
    if interval > POLL_INTERVAL_MAX_MS / 2 {
        POLL_INTERVAL_MAX_MS
    } else {
        interval * 2
    }
}

/// Waiting longer never passes the ceiling, and reaches it: from the full rate,
/// four idle captures in a row are enough.
pub proof fn law_idle_polling_slows_down_to_the_ceiling(interval: u64)
    requires
        interval >= POLL_INTERVAL_MS,
    ensures
        after_idle(interval) <= POLL_INTERVAL_MAX_MS,
        interval < POLL_INTERVAL_MAX_MS ==> after_idle(interval) > interval,
        after_idle(after_idle(after_idle(after_idle(interval)))) == POLL_INTERVAL_MAX_MS,
{
}

/// Whether so many failures in a row mean that the browser is gone, and not just
/// busy.
pub fn session_looks_dead(consecutive_failures: u32) -> (r: bool)
    ensures
        r == (consecutive_failures >= MAX_CONSECUTIVE_SCREENSHOT_FAILURES),
{
    consecutive_failures >= MAX_CONSECUTIVE_SCREENSHOT_FAILURES
}

/// How an actor polls.
#[derive(Debug, PartialEq, Eq)]
pub struct Poll {
    /// How long to wait for a command before the next capture, in milliseconds.
    /// Grows while frames stay the same, and is reset by input and by change.
    pub interval_ms: u64,
    /// The last frame that was reported.
    pub last_frame: Option<u64>,
    pub consecutive_failures: u32,
}

/// What a capture leads to.
#[derive(Debug, PartialEq, Eq)]
pub enum Captured {
    /// Nothing to report.
    Quiet,
    /// A new frame is to be reported; once nobody listens, the actor stops.
    Report(AppEvent),
    /// The session is gone: this is to be reported, and the actor stops.
    Stop(AppEvent),
}

impl Poll {
    /// The wait stays between the full rate and the ceiling.
    pub open spec fn well_formed(self) -> bool {
        POLL_INTERVAL_MS <= self.interval_ms <= POLL_INTERVAL_MAX_MS
    }

    /// How many failures there are after one more.
    pub open spec fn failures_after(self) -> u32 {
        if self.consecutive_failures == u32::MAX {
            u32::MAX
        } else {
            (self.consecutive_failures + 1) as u32
        }
    }

    pub fn new() -> (r: Self)
        ensures
            r.well_formed(),
            r == (Poll {
                interval_ms: POLL_INTERVAL_MS,
                last_frame: None,
                consecutive_failures: 0,
            }),
    {
        Poll { interval_ms: POLL_INTERVAL_MS, last_frame: None, consecutive_failures: 0 }
    }

    /// Input landed: polls at the full rate, so that its effect shows without
    /// waiting out an idle interval.
    pub fn received(&mut self)
        ensures
            *final(self) == (Poll { interval_ms: POLL_INTERVAL_MS, ..*old(self) }),
            final(self).well_formed(),
    {
        self.interval_ms = POLL_INTERVAL_MS;
    }

    /// Takes in what a capture came to.
    pub fn captured(&mut self, pane_id: PaneId, result: Result<Vec<u8>, String>) -> (r: Captured)
        requires
            old(self).well_formed(),
        ensures
            final(self).well_formed(),
            match result {
                Ok(data) => {
                    let seen = Some(fingerprint(data@));
                    if old(self).last_frame == seen {
                        &&& r == Captured::Quiet
                        &&& *final(self) == (Poll {
                            interval_ms: after_idle(old(self).interval_ms),
                            last_frame: seen,
                            consecutive_failures: 0,
                        })
                    } else {
                        &&& r == Captured::Report(AppEvent::BrowserFrame { pane_id, data })
                        &&& *final(self) == (Poll {
                            interval_ms: POLL_INTERVAL_MS,
                            last_frame: seen,
                            consecutive_failures: 0,
                        })
                    }
                },
                Err(reason) => {
                    &&& *final(self) == (Poll {
                        interval_ms: after_idle(old(self).interval_ms),
                        last_frame: old(self).last_frame,
                        consecutive_failures: old(self).failures_after(),
                    })
                    &&& r == if old(self).failures_after() >= MAX_CONSECUTIVE_SCREENSHOT_FAILURES {
                        Captured::Stop(AppEvent::BrowserDaemonExited { pane_id, reason })
                    } else {
                        Captured::Quiet
                    }
                },
            },
    {
        match result {
            Ok(data) => {
                self.consecutive_failures = 0;
                let seen: u64 = frame_fingerprint(data.as_slice());
                let unchanged = match self.last_frame {
                    Some(last) => last == seen,
                    None => false,
                };
                if unchanged {
                    self.interval_ms = backed_off(self.interval_ms);
                    return Captured::Quiet;
                }
                self.last_frame = Some(seen);
                self.interval_ms = POLL_INTERVAL_MS;
                Captured::Report(AppEvent::BrowserFrame { pane_id, data })
            },
            Err(reason) => {
                self.interval_ms = backed_off(self.interval_ms);
                self.consecutive_failures = self.consecutive_failures.saturating_add(1);
                if session_looks_dead(self.consecutive_failures) {
                    Captured::Stop(AppEvent::BrowserDaemonExited { pane_id, reason })
                } else {
                    Captured::Quiet
                }
            },
        }
    }
}

/// What is reported when the session could not be opened; the actor then stops.
pub fn opened(pane_id: PaneId, result: Result<(), String>) -> (r: Option<AppEvent>)
    ensures
        r == match result {
            Ok(_) => None::<AppEvent>,
            Err(reason) => Some(AppEvent::BrowserDaemonExited { pane_id, reason }),
        },
{
    match result {
        Ok(_) => None,
        Err(reason) => Some(AppEvent::BrowserDaemonExited { pane_id, reason }),
    }
}

} // verus!
