//! What is recorded of the frames a client wrote.

use herdr::client::frame_dump::{
    scan_cursor_visibility, scan_decscusr, CursorState, FrameDump, DUMP_PATH_ENV,
};


#[test]
fn decscusr_is_found_among_the_other_csi_sequences_of_a_frame() {
    // A realistic frame prefix: SGR, a cursor move, the shape, then show.
    let bytes = b"\x1b[0m\x1b[12;5H\x1b[6 q\x1b[?25h";
    assert_eq!(scan_decscusr(bytes), vec![6]);
    assert_eq!(scan_cursor_visibility(bytes), Some(true));
}

/// `CSI 0 SP q` is the sequence that resets the shape, and telling it from
/// "no DECSCUSR at all" is the entire reason this scanner exists.
#[test]
fn a_shape_reset_is_recorded_rather_than_read_as_absent() {
    assert_eq!(scan_decscusr(b"\x1b[0 q"), vec![0]);
    assert!(scan_decscusr(b"\x1b[0m\x1b[2J").is_empty());
}

#[test]
fn the_last_visibility_change_in_a_frame_wins() {
    assert_eq!(scan_cursor_visibility(b"\x1b[?25l\x1b[?25h"), Some(true));
    assert_eq!(scan_cursor_visibility(b"\x1b[?25h\x1b[?25l"), Some(false));
    assert_eq!(scan_cursor_visibility(b"\x1b[0m"), None);
}

/// A CSI that runs off the end of the buffer must not read past it.
#[test]
fn a_truncated_sequence_is_not_a_panic() {
    assert!(scan_decscusr(b"\x1b[").is_empty());
    assert!(scan_decscusr(b"\x1b[6").is_empty());
    assert!(scan_decscusr(b"\x1b[6 ").is_empty());
    assert!(scan_cursor_visibility(b"\x1b[?2").is_none());
}

#[test]
fn a_shape_that_is_too_large_is_held_at_the_top() {
    assert_eq!(scan_decscusr(b"\x1b[99999999 q"), vec![65535]);
    assert_eq!(scan_decscusr(b"\x1b[ q\x1b[12 q"), vec![0, 12]);
}

#[test]
fn a_record_counts_and_carries_both_halves() {
    let mut dump = FrameDump::new();
    let cursor = CursorState { x: 3, y: 4, visible: true, shape: 6 };
    let first = dump.record(80, 24, Some(cursor), false, b"\x1b[6 q\x1b[?25h");
    assert_eq!(first.seq, 1);
    assert_eq!((first.width, first.height), (80, 24));
    assert_eq!(first.cursor, Some(cursor));
    assert_eq!(first.emitted_decscusr, vec![6]);
    assert_eq!(first.emitted_show, Some(true));
    let second = dump.record(80, 24, None, true, b"");
    assert_eq!(second.seq, 2);
    assert!(second.draw_host_cursor);
    assert!(second.emitted_decscusr.is_empty());
    assert_eq!(second.emitted_show, None);
    assert_eq!(DUMP_PATH_ENV, "HERDR_CLIENT_FRAME_DUMP");
}
