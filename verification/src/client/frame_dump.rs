//! What a client was sent, and what it wrote to the terminal it runs in.
//!
//! A capture of a terminal holds cells, and nothing about the cursor: its shape
//! and visibility travel as escape sequences that the terminal takes in. One
//! record per frame holds both the cursor that was sent and the cursor escapes
//! that were written for it.

use vstd::prelude::*;

verus! {

/// The variable that names the file to write to. Nothing is written without it.
pub const DUMP_PATH_ENV: &'static str = "HERDR_CLIENT_FRAME_DUMP";

/// A cursor as it was sent.
#[derive(Debug, Clone, Copy, PartialEq, Eq, Structural)]
pub struct CursorState {
    pub x: u16,
    pub y: u16,
    pub visible: bool,
    /// The parameter of the sequence that sets the shape, 0 when none was set.
    pub shape: u8,
}

/// What is recorded of a frame.
#[derive(Debug, PartialEq, Eq)]
pub struct FrameRecord {
    /// Frames since this client started.
    pub seq: u64,
    pub width: u16,
    pub height: u16,
    /// Whether the cursor is painted into cells. The terminal's own cursor is then
    /// kept hidden.
    pub draw_host_cursor: bool,
    /// The cursor as it was sent.
    pub cursor: Option<CursorState>,
    /// The shapes that were written. A shape that stays the same is written once.
    pub emitted_decscusr: Vec<u16>,
    /// Whether the cursor was last shown or hidden.
    pub emitted_show: Option<bool>,
}

/// An escape sequence begins here: escape and an opening bracket.
pub open spec fn is_csi(bytes: Seq<u8>, i: int) -> bool {
    0 <= i && i + 1 < bytes.len() && bytes[i] == 0x1b && bytes[i + 1] == 0x5b
}

/// The first place at or after `from` where an escape sequence begins, or the
/// length.
pub open spec fn next_csi(bytes: Seq<u8>, from: int) -> int
    decreases bytes.len() - from,
{
    if from >= bytes.len() {
        bytes.len() as int
    } else if is_csi(bytes, from) {
        from
    } else {
        next_csi(bytes, from + 1)
    }
}

pub open spec fn is_digit(b: u8) -> bool {
    0x30 <= b <= 0x39
}

/// The first place at or after `from` that holds no digit.
pub open spec fn digits_end(bytes: Seq<u8>, from: int) -> int
    decreases bytes.len() - from,
{
    if 0 <= from < bytes.len() && is_digit(bytes[from]) {
        digits_end(bytes, from + 1)
    } else {
        from
    }
}

/// The number these digits write; 0 without any.
pub open spec fn digits_value(digits: Seq<u8>) -> nat
    decreases digits.len(),
{
    if digits.len() == 0 {
        0
    } else {
        10 * digits_value(digits.drop_last()) + (digits.last() - 0x30) as nat
    }
}

/// A number as far as it can be held.
pub open spec fn held(n: nat) -> u16 {
    if n > u16::MAX {
        u16::MAX
    } else {
        n as u16
    }
}

/// The shape a sequence sets whose parameters begin here: a number, a space and
/// a `q`. Any other sequence sets none.
pub open spec fn shape_at(bytes: Seq<u8>, start: int) -> Option<u16> {
    let end = digits_end(bytes, start);
    if end + 1 < bytes.len() && bytes[end] == 0x20 && bytes[end + 1] == 0x71 {
        Some(held(digits_value(bytes.subrange(start, end))))
    } else {
        None
    }
}

/// The shapes that are set from here on, in order.
pub open spec fn shapes(bytes: Seq<u8>, from: int) -> Seq<u16>
    decreases bytes.len() - from,
{
    if from >= bytes.len() {
        Seq::empty()
    } else if is_csi(bytes, from) && shape_at(bytes, from + 2) is Some {
        seq![shape_at(bytes, from + 2)->0] + shapes(bytes, from + 1)
    } else {
        shapes(bytes, from + 1)
    }
}

/// Whether a sequence shows or hides the cursor whose parameters begin here.
pub open spec fn visibility_at(bytes: Seq<u8>, start: int) -> Option<bool> {
    if start + 3 < bytes.len() && bytes[start] == 0x3f && bytes[start + 1] == 0x32 && bytes[start
        + 2] == 0x35 {
        if bytes[start + 3] == 0x68 {
            Some(true)
        } else if bytes[start + 3] == 0x6c {
            Some(false)
        } else {
            None
        }
    } else {
        None
    }
}

/// Whether the cursor is last shown or hidden from here on.
pub open spec fn last_visibility(bytes: Seq<u8>, from: int) -> Option<bool>
    decreases bytes.len() - from,
{
    if from >= bytes.len() {
        None
    } else {
        let after = last_visibility(bytes, from + 1);
        if after is Some {
            after
        } else if is_csi(bytes, from) {
            visibility_at(bytes, from + 2)
        } else {
            None
        }
    }
}

proof fn lemma_next_csi(bytes: Seq<u8>, from: int)
    requires
        0 <= from <= bytes.len(),
    ensures
        from <= next_csi(bytes, from) <= bytes.len(),
        next_csi(bytes, from) < bytes.len() ==> is_csi(bytes, next_csi(bytes, from)),
        shapes(bytes, from) == shapes(bytes, next_csi(bytes, from)),
        last_visibility(bytes, from) == last_visibility(bytes, next_csi(bytes, from)),
    decreases bytes.len() - from,
{
    if from < bytes.len() && !is_csi(bytes, from) {
        lemma_next_csi(bytes, from + 1);
    }
}

/// What follows an escape is not one, so the search goes on behind it.
proof fn lemma_past_csi(bytes: Seq<u8>, at: int)
    requires
        is_csi(bytes, at),
    ensures
        shapes(bytes, at + 1) == shapes(bytes, at + 2),
        last_visibility(bytes, at + 1) == last_visibility(bytes, at + 2),
{
    assert(!is_csi(bytes, at + 1));
}

/// The place just behind the next beginning of an escape sequence, at or after
/// `from`.
fn find_csi(bytes: &[u8], from: usize) -> (r: Option<usize>)
    requires
        from <= bytes@.len(),
    ensures
        match r {
            Some(start) => next_csi(bytes@, from as int) + 2 == start && start <= bytes@.len()
                && is_csi(bytes@, start - 2),
            None => next_csi(bytes@, from as int) == bytes@.len(),
        },
{
    let n: usize = bytes.len();
    let mut i: usize = from;
    while i < n
        invariant
            n == bytes@.len(),
            from <= i <= n,
            next_csi(bytes@, from as int) == next_csi(bytes@, i as int),
        decreases n - i,
    {
        if i < n - 1 && bytes[i] == 0x1b && bytes[i + 1] == 0x5b {
            return Some(i + 2);
        }
        i += 1;
    }
    None
}

fn read_shape(bytes: &[u8], start: usize) -> (r: Option<u16>)
    requires
        start <= bytes@.len(),
    ensures
        r == shape_at(bytes@, start as int),
{
    let n: usize = bytes.len();
    let mut j: usize = start;
    let mut param: u16 = 0;
    assert(bytes@.subrange(start as int, start as int) =~= Seq::empty());
    while j < n && 0x30 <= bytes[j] && bytes[j] <= 0x39
        invariant
            n == bytes@.len(),
            start <= j <= n,
            digits_end(bytes@, start as int) == digits_end(bytes@, j as int),
            param == held(digits_value(bytes@.subrange(start as int, j as int))),
        decreases n - j,
    {
        let digit: u16 = (bytes[j] - 0x30) as u16;
        let ghost read = bytes@.subrange(start as int, j as int);
        let ghost more = bytes@.subrange(start as int, j + 1);
        assert(more.drop_last() =~= read);
        assert(more.last() == bytes@[j as int]);
        let wide: u32 = param as u32 * 10 + digit as u32;
        param = if wide > u16::MAX as u32 {
            u16::MAX
        } else {
            wide as u16
        };
        j += 1;
    }
    if j < n && n - j > 1 && bytes[j] == 0x20 && bytes[j + 1] == 0x71 {
        Some(param)
    } else {
        None
    }
}

/// Every shape the bytes set, in order.
pub fn scan_decscusr(bytes: &[u8]) -> (r: Vec<u16>)
    ensures
        r@ == shapes(bytes@, 0),
{
    let mut found: Vec<u16> = Vec::new();
    let mut i: usize = 0;
    assert(found@ + shapes(bytes@, 0) =~= shapes(bytes@, 0));
    loop
        invariant
            i <= bytes@.len(),
            found@ + shapes(bytes@, i as int) == shapes(bytes@, 0),
        ensures
            found@ == shapes(bytes@, 0),
        decreases bytes@.len() - i,
    {
        proof {
            lemma_next_csi(bytes@, i as int);
        }
        let start = match find_csi(bytes, i) {
            Some(start) => start,
            None => {
                assert(found@ + shapes(bytes@, bytes@.len() as int) =~= found@);
                break;
            },
        };
        let ghost before = found@;
        proof {
            lemma_past_csi(bytes@, start - 2);
        }
        match read_shape(bytes, start) {
            Some(shape) => {
                found.push(shape);
                assert(found@ + shapes(bytes@, start as int) =~= before + (seq![shape] + shapes(
                    bytes@,
                    start as int,
                )));
            },
            None => {},
        }
        i = start;
    }
    found
}

fn read_visibility(bytes: &[u8], start: usize) -> (r: Option<bool>)
    requires
        start <= bytes@.len(),
    ensures
        r == visibility_at(bytes@, start as int),
{
    let n: usize = bytes.len();
    if n - start > 3 && bytes[start] == 0x3f && bytes[start + 1] == 0x32 && bytes[start + 2]
        == 0x35 {
        if bytes[start + 3] == 0x68 {
            Some(true)
        } else if bytes[start + 3] == 0x6c {
            Some(false)
        } else {
            None
        }
    } else {
        None
    }
}

/// Whether the bytes last showed (`true`) or hid (`false`) the cursor.
pub fn scan_cursor_visibility(bytes: &[u8]) -> (r: Option<bool>)
    ensures
        r == last_visibility(bytes@, 0),
{
    let mut last: Option<bool> = None;
    let mut i: usize = 0;
    loop
        invariant
            i <= bytes@.len(),
            last_visibility(bytes@, 0) == if last_visibility(bytes@, i as int) is Some {
                last_visibility(bytes@, i as int)
            } else {
                last
            },
        ensures
            last == last_visibility(bytes@, 0),
        decreases bytes@.len() - i,
    {
        proof {
            lemma_next_csi(bytes@, i as int);
        }
        let start = match find_csi(bytes, i) {
            Some(start) => start,
            None => {
                break;
            },
        };
        proof {
            lemma_past_csi(bytes@, start - 2);
        }
        let here = read_visibility(bytes, start);
        if here.is_some() {
            last = here;
        }
        i = start;
    }
    last
}

/// What is known of the records so far.
#[derive(Debug, PartialEq, Eq)]
pub struct FrameDump {
    pub seq: u64,
}

impl FrameDump {
    pub fn new() -> (r: Self)
        ensures
            r.seq == 0,
    {
        FrameDump { seq: 0 }
    }

    /// The record of one more frame.
    pub fn record(
        &mut self,
        width: u16,
        height: u16,
        source_cursor: Option<CursorState>,
        draw_host_cursor: bool,
        encoded: &[u8],
    ) -> (r: FrameRecord)
        ensures
            final(self).seq == if old(self).seq == u64::MAX {
                u64::MAX
            } else {
                (old(self).seq + 1) as u64
            },
            r.seq == final(self).seq,
            r.width == width,
            r.height == height,
            r.draw_host_cursor == draw_host_cursor,
            r.cursor == source_cursor,
            r.emitted_decscusr@ == shapes(encoded@, 0),
            r.emitted_show == last_visibility(encoded@, 0),
    {
        self.seq = self.seq.saturating_add(1);
        FrameRecord {
            seq: self.seq,
            width,
            height,
            draw_host_cursor,
            cursor: source_cursor,
            emitted_decscusr: scan_decscusr(encoded),
            emitted_show: scan_cursor_visibility(encoded),
        }
    }
}

} // verus!
