//! What holds of the records of a client's frames.

use vstd::prelude::*;

use crate::client::frame_dump::{last_visibility, shapes, FrameDump, FrameRecord};

verus! {

/// Escape and an opening bracket stand here.
pub open spec fn opens(bytes: Seq<u8>, i: int) -> bool {
    0 <= i && i + 1 < bytes.len() && bytes[i] == 0x1b && bytes[i + 1] == 0x5b
}

/// The sequence that sets the cursor's shape to a number of one digit stands here.
pub open spec fn sets_shape(bytes: Seq<u8>, i: int, digit: int) -> bool {
    &&& opens(bytes, i)
    &&& i + 4 < bytes.len()
    &&& 0 <= digit <= 9
    &&& bytes[i + 2] == 0x30 + digit
    &&& bytes[i + 3] == 0x20
    &&& bytes[i + 4] == 0x71
}

/// The sequence that shows the cursor stands here.
pub open spec fn shows(bytes: Seq<u8>, i: int) -> bool {
    &&& opens(bytes, i)
    &&& i + 5 < bytes.len()
    &&& bytes[i + 2] == 0x3f
    &&& bytes[i + 3] == 0x32
    &&& bytes[i + 4] == 0x35
    &&& bytes[i + 5] == 0x68
}

/// The sequence that hides the cursor stands here.
pub open spec fn hides(bytes: Seq<u8>, i: int) -> bool {
    &&& opens(bytes, i)
    &&& i + 5 < bytes.len()
    &&& bytes[i + 2] == 0x3f
    &&& bytes[i + 3] == 0x32
    &&& bytes[i + 4] == 0x35
    &&& bytes[i + 5] == 0x6c
}

proof fn lemma_shape_seen(bytes: Seq<u8>, from: int, i: int, digit: int)
    requires
        0 <= from <= i,
        sets_shape(bytes, i, digit),
    ensures
        shapes(bytes, from).contains(digit as u16),
    decreases i - from,
{
    let rest = shapes(bytes, from + 1);
    if from < i {
        lemma_shape_seen(bytes, from + 1, i, digit);
        let k = choose|k: int| 0 <= k < rest.len() && rest[k] == digit as u16;
        if shapes(bytes, from).len() > rest.len() {
            assert(shapes(bytes, from)[k + 1] == rest[k]);
        } else {
            assert(shapes(bytes, from)[k] == rest[k]);
        }
    } else {
        reveal_with_fuel(crate::client::frame_dump::digits_end, 3);
        reveal_with_fuel(crate::client::frame_dump::digits_value, 3);
        let own = bytes.subrange(i + 2, i + 3);
        assert(own.len() == 1 && own.last() == bytes[i + 2]);
        assert(own.drop_last().len() == 0);
        assert(crate::client::frame_dump::digits_value(own) == digit);
        assert(shapes(bytes, from)[0] == digit as u16);
    }
}

proof fn lemma_no_shape(bytes: Seq<u8>, from: int)
    requires
        0 <= from,
        forall|i: int| from <= i < bytes.len() ==> !opens(bytes, i),
    ensures
        shapes(bytes, from).len() == 0,
        last_visibility(bytes, from) is None,
    decreases bytes.len() - from,
{
    if from < bytes.len() {
        assert(!opens(bytes, from));
        lemma_no_shape(bytes, from + 1);
    }
}

/// Every shape that is written is seen, and where nothing is written none is.
pub proof fn law_every_shape_is_seen(bytes: &[u8], r: Vec<u16>, i: int, digit: int)
    requires
        call_ensures(crate::client::frame_dump::scan_decscusr, (bytes,), r),
    ensures
        sets_shape(bytes@, i, digit) ==> r@.contains(digit as u16),
        (forall|j: int| 0 <= j < bytes@.len() ==> !opens(bytes@, j)) ==> r@.len() == 0,
{
    if sets_shape(bytes@, i, digit) {
        lemma_shape_seen(bytes@, 0, i, digit);
    }
    if forall|j: int| 0 <= j < bytes@.len() ==> !opens(bytes@, j) {
        lemma_no_shape(bytes@, 0);
    }
}

proof fn lemma_nothing_after(bytes: Seq<u8>, from: int)
    requires
        0 <= from,
        forall|j: int| from <= j < bytes.len() ==> !shows(bytes, j) && !hides(bytes, j),
    ensures
        last_visibility(bytes, from) is None,
    decreases bytes.len() - from,
{
    if from < bytes.len() {
        assert(!shows(bytes, from) && !hides(bytes, from));
        lemma_nothing_after(bytes, from + 1);
    }
}

proof fn lemma_last_seen(bytes: Seq<u8>, from: int, i: int)
    requires
        0 <= from <= i,
        shows(bytes, i) || hides(bytes, i),
        forall|j: int| i < j < bytes.len() ==> !shows(bytes, j) && !hides(bytes, j),
    ensures
        last_visibility(bytes, from) == Some(shows(bytes, i)),
    decreases i - from,
{
    if from < i {
        lemma_last_seen(bytes, from + 1, i);
    } else {
        lemma_nothing_after(bytes, i + 1);
    }
}

/// The last sequence that shows or hides the cursor counts, and none where there is
/// none.
pub proof fn law_the_last_visibility_counts(bytes: &[u8], r: Option<bool>, i: int)
    requires
        call_ensures(crate::client::frame_dump::scan_cursor_visibility, (bytes,), r),
        forall|j: int| i < j < bytes@.len() ==> !shows(bytes@, j) && !hides(bytes@, j),
    ensures
        shows(bytes@, i) ==> r == Some(true),
        hides(bytes@, i) ==> r == Some(false),
        i < 0 ==> r is None,
{
    if shows(bytes@, i) || hides(bytes@, i) {
        lemma_last_seen(bytes@, 0, i);
    }
    if i < 0 {
        lemma_nothing_after(bytes@, 0);
    }
}

/// Frames are counted from one, and a record holds what it is given.
pub proof fn law_frames_are_counted(
    width: u16,
    height: u16,
    cursor: Option<crate::client::frame_dump::CursorState>,
    drawn: bool,
    encoded: &[u8],
    i: int,
    digit: int,
)
    ensures
        forall|r: FrameDump| #[trigger] call_ensures(FrameDump::new, (), r) ==> r.seq == 0,
        forall|dump: &mut FrameDump, r: FrameRecord| #[trigger]
            call_ensures(FrameDump::record, (dump, width, height, cursor, drawn, encoded), r) ==> {
                &&& (*dump).seq < u64::MAX ==> r.seq == (*dump).seq + 1
                &&& (*final(dump)).seq == r.seq
                &&& r.width == width && r.height == height
                &&& r.cursor == cursor
                &&& r.draw_host_cursor == drawn
                &&& sets_shape(encoded@, i, digit) ==> r.emitted_decscusr@.contains(digit as u16)
            },
{
    if sets_shape(encoded@, i, digit) {
        lemma_shape_seen(encoded@, 0, i, digit);
    }
}

} // verus!
