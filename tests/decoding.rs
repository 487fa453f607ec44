use emv::decode::{decode_all, decode_at, Decoder};
use emv::event::{Decoded, Event, Key};

fn keys(input: &[u8]) -> Vec<Event> {
    decode_all(input).into_iter().map(|d| d.event).collect()
}

#[test]
fn esc_bracket_a_is_up() {
    let r = decode_all(&[0x1b, b'[', b'A']);
    assert_eq!(r, vec![Decoded { event: Event::Key(Key::Up), len: 3 }]);
}

#[test]
fn ctrl_right_sequence() {
    let r = decode_all(b"\x1b[1;5C");
    assert_eq!(r, vec![Decoded { event: Event::Key(Key::CtrlRight), len: 6 }]);
}

#[test]
fn bare_esc_at_end_is_esc() {
    let r = decode_all(&[0x1b]);
    assert_eq!(r, vec![Decoded { event: Event::Key(Key::Esc), len: 1 }]);
}

#[test]
fn esc_followed_by_esc() {
    assert_eq!(keys(&[0x1b, 0x1b]), vec![Event::Key(Key::Esc), Event::Key(Key::Esc)]);
}

#[test]
fn printable_and_control_bytes() {
    assert_eq!(
        keys(b"a~ \x01\x00\t\r\n\x7f\x1a\x1c"),
        vec![
            Event::Key(Key::Char('a')),
            Event::Key(Key::Char('~')),
            Event::Key(Key::Char(' ')),
            Event::Key(Key::Ctrl('a')),
            Event::Key(Key::Null),
            Event::Key(Key::Ctrl('i')),
            Event::Key(Key::Ctrl('m')),
            Event::Key(Key::Ctrl('j')),
            Event::Key(Key::Backspace),
            Event::Key(Key::Ctrl('z')),
            Event::Key(Key::Ctrl('4')),
        ]
    );
}

#[test]
fn every_control_letter_is_ctrl() {
    for b in 0x01u8..=0x1a {
        assert_eq!(keys(&[b]), vec![Event::Key(Key::Ctrl((b | 0x60) as char))]);
    }
    assert_eq!(keys(&[0x11]), vec![Event::Key(Key::Ctrl('q'))]);
    assert_eq!(keys(&[0x1f]), vec![Event::Key(Key::Ctrl('7'))]);
}

#[test]
fn alt_modified_characters() {
    assert_eq!(keys(b"\x1bx"), vec![Event::Key(Key::Alt('x'))]);
    assert_eq!(keys(b"\x1b["), vec![Event::Key(Key::Alt('['))]);
    assert_eq!(keys(b"\x1bO"), vec![Event::Key(Key::Alt('O'))]);
}

#[test]
fn arrow_and_navigation_keys() {
    assert_eq!(
        keys(b"\x1b[A\x1b[B\x1b[C\x1b[D\x1b[H\x1b[F\x1b[Z"),
        vec![
            Event::Key(Key::Up),
            Event::Key(Key::Down),
            Event::Key(Key::Right),
            Event::Key(Key::Left),
            Event::Key(Key::Home),
            Event::Key(Key::End),
            Event::Key(Key::BackTab),
        ]
    );
}

#[test]
fn modified_arrows() {
    assert_eq!(
        keys(b"\x1b[1;2A\x1b[1;3B\x1b[1;5D\x1b[1;2C\x1b[1;5H\x1b[1;5F"),
        vec![
            Event::Key(Key::ShiftUp),
            Event::Key(Key::AltDown),
            Event::Key(Key::CtrlLeft),
            Event::Key(Key::ShiftRight),
            Event::Key(Key::CtrlHome),
            Event::Key(Key::CtrlEnd),
        ]
    );
}

#[test]
fn tilde_keys() {
    assert_eq!(
        keys(b"\x1b[1~\x1b[2~\x1b[3~\x1b[4~\x1b[5~\x1b[6~\x1b[7~\x1b[8~"),
        vec![
            Event::Key(Key::Home),
            Event::Key(Key::Insert),
            Event::Key(Key::Delete),
            Event::Key(Key::End),
            Event::Key(Key::PageUp),
            Event::Key(Key::PageDown),
            Event::Key(Key::Home),
            Event::Key(Key::End),
        ]
    );
}

#[test]
fn function_keys() {
    assert_eq!(
        keys(b"\x1bOP\x1bOS\x1b[15~\x1b[17~\x1b[19~\x1b[20~\x1b[21~\x1b[23~\x1b[24~"),
        vec![
            Event::Key(Key::F(1)),
            Event::Key(Key::F(4)),
            Event::Key(Key::F(5)),
            Event::Key(Key::F(6)),
            Event::Key(Key::F(8)),
            Event::Key(Key::F(9)),
            Event::Key(Key::F(10)),
            Event::Key(Key::F(11)),
            Event::Key(Key::F(12)),
        ]
    );
}

#[test]
fn mouse_report() {
    let r = decode_all(b"\x1b[M abq");
    assert_eq!(
        r,
        vec![
            Decoded { event: Event::Mouse(b"\x1b[M ab".to_vec()), len: 6 },
            Decoded { event: Event::Key(Key::Char('q')), len: 1 },
        ]
    );
}

#[test]
fn unknown_sequences_are_kept() {
    assert_eq!(keys(b"\x1b[99~"), vec![Event::Unsupported(b"\x1b[99~".to_vec())]);
    assert_eq!(keys(b"\x1bOx"), vec![Event::Unsupported(b"\x1bOx".to_vec())]);
    assert_eq!(keys(b"\x1b[1;"), vec![Event::Unsupported(b"\x1b[1;".to_vec())]);
    assert_eq!(keys(&[0xc3]), vec![Event::Unsupported(vec![0xc3])]);
    assert_eq!(
        keys(b"\x1b[M a"),
        vec![Event::Unsupported(b"\x1b[M a".to_vec())]
    );
    assert_eq!(
        keys(b"\x1b[1\x01"),
        vec![Event::Unsupported(b"\x1b[1".to_vec()), Event::Key(Key::Ctrl('a'))]
    );
}

#[test]
fn no_byte_is_lost() {
    let input: Vec<u8> = b"ab\x1b[A\x1b[1;5C\x1b\x1b[99~\xff\x1bOP\x1b[M xyz\x1b[1;".to_vec();
    let r = decode_all(&input);
    let total: usize = r.iter().map(|d| d.len).sum();
    assert_eq!(total, input.len());
    let mut pos = 0;
    for d in &r {
        match &d.event {
            Event::Unsupported(b) | Event::Mouse(b) => {
                assert_eq!(&b[..], &input[pos..pos + d.len]);
            }
            Event::Key(_) => {}
        }
        pos += d.len;
    }
}

#[test]
fn empty_input_has_no_events() {
    assert!(decode_all(&[]).is_empty());
}

#[test]
fn decode_at_offset() {
    let input = b"x\x1b[B";
    assert_eq!(decode_at(input, 1), Decoded { event: Event::Key(Key::Down), len: 3 });
}

#[test]
fn decoder_takes_events_in_order() {
    let mut d = Decoder::new();
    assert_eq!(d.next_event(), None);
    d.feed(b"q\x1b[");
    d.feed(b"A");
    assert_eq!(d.next_event(), Some(Decoded { event: Event::Key(Key::Char('q')), len: 1 }));
    assert_eq!(d.next_event(), Some(Decoded { event: Event::Key(Key::Up), len: 3 }));
    assert_eq!(d.next_event(), None);
    d.feed(&[0x1b]);
    assert_eq!(d.next_event(), Some(Decoded { event: Event::Key(Key::Esc), len: 1 }));
    assert_eq!(d.next_event(), None);
}

#[test]
fn application_mode_navigation_keys() {
    assert_eq!(
        keys(b"\x1bOA\x1bOB\x1bOC\x1bOD\x1bOH\x1bOF\x1bOQ\x1bOR"),
        vec![
            Event::Key(Key::Up),
            Event::Key(Key::Down),
            Event::Key(Key::Right),
            Event::Key(Key::Left),
            Event::Key(Key::Home),
            Event::Key(Key::End),
            Event::Key(Key::F(2)),
            Event::Key(Key::F(3)),
        ]
    );
    assert_eq!(keys(b"\x1bOZ"), vec![Event::Unsupported(b"\x1bOZ".to_vec())]);
}

#[test]
fn sequence_split_across_reads() {
    let mut d = Decoder::new();
    d.feed(b"\x1b[");
    assert!(d.awaits_more());
    assert_eq!(d.next_complete_event(), None);
    d.feed(b"A");
    assert!(!d.awaits_more());
    assert_eq!(d.next_complete_event(), Some(Decoded { event: Event::Key(Key::Up), len: 3 }));
    assert_eq!(d.next_complete_event(), None);
    d.feed(b"\x1b[1;");
    assert_eq!(d.next_complete_event(), None);
    d.feed(b"5C");
    assert_eq!(
        d.next_complete_event(),
        Some(Decoded { event: Event::Key(Key::CtrlRight), len: 6 })
    );
}

#[test]
fn waiting_prefixes() {
    let mut d = Decoder::new();
    d.feed(&[0x1b]);
    assert!(d.awaits_more());
    assert_eq!(d.next_complete_event(), None);
    assert_eq!(d.next_event(), Some(Decoded { event: Event::Key(Key::Esc), len: 1 }));
    d.feed(b"\x1bO");
    assert!(d.awaits_more());
    d.feed(b"P");
    assert_eq!(d.next_complete_event(), Some(Decoded { event: Event::Key(Key::F(1)), len: 3 }));
    d.feed(b"\x1b[M a");
    assert!(d.awaits_more());
    d.feed(b"b");
    assert_eq!(
        d.next_complete_event(),
        Some(Decoded { event: Event::Mouse(b"\x1b[M ab".to_vec()), len: 6 })
    );
    d.feed(b"\x1bx");
    assert!(!d.awaits_more());
    assert_eq!(d.next_complete_event(), Some(Decoded { event: Event::Key(Key::Alt('x')), len: 2 }));
    d.feed(b"\x1b[1\x01");
    assert!(!d.awaits_more());
    assert_eq!(
        d.next_complete_event(),
        Some(Decoded { event: Event::Unsupported(b"\x1b[1".to_vec()), len: 3 })
    );
}
