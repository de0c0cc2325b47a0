use mega::keys::{EscapeSeq, Key, BACKSPACE, ENTER, ESCAPE};

#[test]
fn plain_byte_decodes_to_itself() {
    assert_eq!(Key::decode(b'a', &[]), Key::Char(b'a'));
    assert_eq!(Key::decode(0, &[]), Key::Char(0));
    assert_eq!(Key::decode(255, &[]), Key::Char(255));
    assert_eq!(Key::decode(BACKSPACE, &[]), Key::Char(127));
    assert_eq!(Key::decode(ENTER, &[]), Key::Char(13));
}

#[test]
fn plain_byte_ignores_what_follows() {
    assert_eq!(Key::decode(b'a', b"[A"), Key::Char(b'a'));
}

#[test]
fn arrows_decode_from_csi_letters() {
    assert_eq!(Key::decode(ESCAPE, b"[A"), Key::Special(EscapeSeq::UpArrow));
    assert_eq!(Key::decode(ESCAPE, b"[B"), Key::Special(EscapeSeq::DownArrow));
    assert_eq!(Key::decode(ESCAPE, b"[C"), Key::Special(EscapeSeq::RightArrow));
    assert_eq!(Key::decode(ESCAPE, b"[D"), Key::Special(EscapeSeq::LeftArrow));
}

#[test]
fn home_and_end_decode_from_every_encoding() {
    assert_eq!(Key::decode(ESCAPE, b"[H"), Key::Special(EscapeSeq::Home));
    assert_eq!(Key::decode(ESCAPE, b"[F"), Key::Special(EscapeSeq::End));
    assert_eq!(Key::decode(ESCAPE, b"OH"), Key::Special(EscapeSeq::Home));
    assert_eq!(Key::decode(ESCAPE, b"OF"), Key::Special(EscapeSeq::End));
    assert_eq!(Key::decode(ESCAPE, b"[1~"), Key::Special(EscapeSeq::Home));
    assert_eq!(Key::decode(ESCAPE, b"[7~"), Key::Special(EscapeSeq::Home));
    assert_eq!(Key::decode(ESCAPE, b"[4~"), Key::Special(EscapeSeq::End));
    assert_eq!(Key::decode(ESCAPE, b"[8~"), Key::Special(EscapeSeq::End));
}

#[test]
fn delete_and_paging_decode_from_digits() {
    assert_eq!(Key::decode(ESCAPE, b"[3~"), Key::Special(EscapeSeq::Delete));
    assert_eq!(Key::decode(ESCAPE, b"[5~"), Key::Special(EscapeSeq::PageUp));
    assert_eq!(Key::decode(ESCAPE, b"[6~"), Key::Special(EscapeSeq::PageDown));
}

#[test]
fn unknown_sequences_decode_to_escape() {
    assert_eq!(Key::decode(ESCAPE, &[]), Key::Special(EscapeSeq::Escape));
    assert_eq!(Key::decode(ESCAPE, b"["), Key::Special(EscapeSeq::Escape));
    assert_eq!(Key::decode(ESCAPE, b"[Z"), Key::Special(EscapeSeq::Escape));
    assert_eq!(Key::decode(ESCAPE, b"[2~"), Key::Special(EscapeSeq::Escape));
    assert_eq!(Key::decode(ESCAPE, b"[9~"), Key::Special(EscapeSeq::Escape));
    assert_eq!(Key::decode(ESCAPE, b"[3"), Key::Special(EscapeSeq::Escape));
    assert_eq!(Key::decode(ESCAPE, b"[3x"), Key::Special(EscapeSeq::Escape));
    assert_eq!(Key::decode(ESCAPE, b"OA"), Key::Special(EscapeSeq::Escape));
    assert_eq!(Key::decode(ESCAPE, b"O"), Key::Special(EscapeSeq::Escape));
    assert_eq!(Key::decode(ESCAPE, b"xyz"), Key::Special(EscapeSeq::Escape));
    assert_eq!(Key::decode(ESCAPE, &[ESCAPE]), Key::Special(EscapeSeq::Escape));
}

#[test]
fn letter_wins_over_a_trailing_tilde() {
    assert_eq!(Key::decode(ESCAPE, b"[A~"), Key::Special(EscapeSeq::UpArrow));
}

#[test]
fn only_three_bytes_of_the_tail_count() {
    assert_eq!(Key::decode(ESCAPE, b"[5~[6~"), Key::Special(EscapeSeq::PageUp));
}

#[test]
fn only_escape_starts_a_sequence() {
    assert!(Key::starts_sequence(0x1b));
    assert!(!Key::starts_sequence(b'['));
    assert!(!Key::starts_sequence(0));
}

#[test]
fn control_masks_to_five_bits() {
    assert_eq!(Key::Char(b'q').control(), Key::Char(17));
    assert_eq!(Key::Char(b's').control(), Key::Char(19));
    assert_eq!(Key::Char(b'l').control(), Key::Char(12));
    assert_eq!(Key::Char(b'h').control(), Key::Char(8));
    assert_eq!(Key::Char(b'Q').control(), Key::Char(17));
    assert_eq!(Key::Char(0xff).control(), Key::Char(0x1f));
}

#[test]
fn control_leaves_named_keys_alone() {
    assert_eq!(
        Key::Special(EscapeSeq::Home).control(),
        Key::Special(EscapeSeq::Home)
    );
    assert_eq!(
        Key::Special(EscapeSeq::Escape).control(),
        Key::Special(EscapeSeq::Escape)
    );
}

#[test]
fn next_reads_keys_one_after_the_other() {
    let input = b"a\x1b[3~b";
    assert_eq!(Key::next(input, 0), Some((Key::Char(b'a'), 1)));
    assert_eq!(
        Key::next(input, 1),
        Some((Key::Special(EscapeSeq::Delete), 5))
    );
    assert_eq!(Key::next(input, 5), Some((Key::Char(b'b'), 6)));
    assert_eq!(Key::next(input, 6), None);
    assert_eq!(Key::next(input, 9), None);
}

#[test]
fn next_takes_three_bytes_after_escape() {
    assert_eq!(
        Key::next(b"\x1b[3~x", 0),
        Some((Key::Special(EscapeSeq::Delete), 4))
    );
    assert_eq!(
        Key::next(b"\x1b[Axy", 0),
        Some((Key::Special(EscapeSeq::UpArrow), 4))
    );
}

#[test]
fn next_at_a_lone_escape_gives_escape() {
    assert_eq!(
        Key::next(b"\x1b", 0),
        Some((Key::Special(EscapeSeq::Escape), 1))
    );
    assert_eq!(
        Key::next(b"ab\x1b[", 2),
        Some((Key::Special(EscapeSeq::Escape), 4))
    );
}

#[test]
fn next_on_empty_input_is_none() {
    assert_eq!(Key::next(b"", 0), None);
}
