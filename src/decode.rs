//! Decoding of the raw input byte stream into [`Event`]s.
//!
//! The decoder works on a window of bytes that has already been read. Each
//! step looks at the front of the window and yields one event together with
//! the number of bytes it consumed; every byte is consumed by exactly one
//! event, and bytes that match no known pattern come back unchanged inside
//! `Unsupported`.

use vstd::prelude::*;
use crate::event::{Decoded, Event, EventModel, Key};

verus! {

pub const ESC: u8 = 0x1b;

/// A parameter byte of a control sequence (`0`..`9`, `:`, `;`, `<`..`?`).
pub open spec fn is_param(b: u8) -> bool {
    0x30 <= b && b <= 0x3f
}

/// A final byte of a control sequence.
pub open spec fn is_final(b: u8) -> bool {
    0x40 <= b && b <= 0x7e
}

/// Index of the first byte at or after `i` that is not a parameter byte.
pub open spec fn param_end(s: Seq<u8>, i: int) -> int
    decreases s.len() - i,
{
    if 0 <= i && i < s.len() && is_param(s[i]) {
        param_end(s, i + 1)
    } else {
        i
    }
}

/// Key for a single control byte (other than ESC and DEL): the null byte is
/// `Null`; every other byte is Ctrl with the character whose low bits it
/// keeps, so 0x01..=0x1A are `Ctrl('a')`..`Ctrl('z')` (Tab is `Ctrl('i')`,
/// line feed `Ctrl('j')`, carriage return `Ctrl('m')`) and 0x1C..=0x1F are
/// `Ctrl('4')`..`Ctrl('7')`.
pub open spec fn control_key(b: u8) -> Key {
    if b == 0 {
        Key::Null
    } else if 0x01 <= b && b <= 0x1a {
        Key::Ctrl(((b + 0x60) as u8) as char)
    } else {
        Key::Ctrl(((b + 0x18) as u8) as char)
    }
}

/// Key of `ESC [ f` with no parameters.
pub open spec fn plain_csi_key(f: u8) -> Option<Key> {
    if f == 0x41 {
        Some(Key::Up)
    } else if f == 0x42 {
        Some(Key::Down)
    } else if f == 0x43 {
        Some(Key::Right)
    } else if f == 0x44 {
        Some(Key::Left)
    } else if f == 0x48 {
        Some(Key::Home)
    } else if f == 0x46 {
        Some(Key::End)
    } else if f == 0x5a {
        Some(Key::BackTab)
    } else {
        None
    }
}

/// Key of `ESC O f`: F1 to F4, and the arrows, Home and End as sent in
/// application cursor mode.
pub open spec fn ss3_key(f: u8) -> Option<Key> {
    if 0x50 <= f && f <= 0x53 {
        Some(Key::F((f - 0x4f) as u8))
    } else if f == 0x5a {
        None
    } else {
        plain_csi_key(f)
    }
}

/// Key of `ESC [ 1 ; m f`: modifier digit `m` (2 Shift, 3 Alt, 5 Ctrl).
pub open spec fn modified_key(m: u8, f: u8) -> Option<Key> {
    if m == 0x32 {
        if f == 0x41 { Some(Key::ShiftUp) }
        else if f == 0x42 { Some(Key::ShiftDown) }
        else if f == 0x43 { Some(Key::ShiftRight) }
        else if f == 0x44 { Some(Key::ShiftLeft) }
        else { None }
    } else if m == 0x33 {
        if f == 0x41 { Some(Key::AltUp) }
        else if f == 0x42 { Some(Key::AltDown) }
        else if f == 0x43 { Some(Key::AltRight) }
        else if f == 0x44 { Some(Key::AltLeft) }
        else { None }
    } else if m == 0x35 {
        if f == 0x41 { Some(Key::CtrlUp) }
        else if f == 0x42 { Some(Key::CtrlDown) }
        else if f == 0x43 { Some(Key::CtrlRight) }
        else if f == 0x44 { Some(Key::CtrlLeft) }
        else if f == 0x48 { Some(Key::CtrlHome) }
        else if f == 0x46 { Some(Key::CtrlEnd) }
        else { None }
    } else {
        None
    }
}

/// Key of `ESC [ d ~` with one digit `d`.
pub open spec fn tilde_key1(d: u8) -> Option<Key> {
    if d == 0x31 || d == 0x37 {
        Some(Key::Home)
    } else if d == 0x32 {
        Some(Key::Insert)
    } else if d == 0x33 {
        Some(Key::Delete)
    } else if d == 0x34 || d == 0x38 {
        Some(Key::End)
    } else if d == 0x35 {
        Some(Key::PageUp)
    } else if d == 0x36 {
        Some(Key::PageDown)
    } else {
        None
    }
}

/// Key of `ESC [ d e ~` with two digits: the function keys.
pub open spec fn tilde_key2(d: u8, e: u8) -> Option<Key> {
    if d == 0x31 {
        if 0x31 <= e && e <= 0x35 {
            Some(Key::F((e - 0x30) as u8))
        } else if 0x37 <= e && e <= 0x39 {
            Some(Key::F((e - 0x31) as u8))
        } else {
            None
        }
    } else if d == 0x32 {
        if e == 0x30 { Some(Key::F(9)) }
        else if e == 0x31 { Some(Key::F(10)) }
        else if e == 0x33 { Some(Key::F(11)) }
        else if e == 0x34 { Some(Key::F(12)) }
        else { None }
    } else {
        None
    }
}

/// Key of a complete control sequence `s[0..=p]` whose parameters are
/// `s[2..p]` and whose final byte is `s[p]`.
pub open spec fn csi_key(s: Seq<u8>, p: int) -> Option<Key> {
    let f = s[p];
    if p == 2 {
        plain_csi_key(f)
    } else if f == 0x7e && p == 3 {
        tilde_key1(s[2])
    } else if f == 0x7e && p == 4 {
        tilde_key2(s[2], s[3])
    } else if p == 5 && s[2] == 0x31 && s[3] == 0x3b {
        modified_key(s[4], f)
    } else {
        None
    }
}

/// Decoding of input that begins with `ESC [`, at least three bytes long.
pub open spec fn csi_spec(s: Seq<u8>) -> (EventModel, nat) {
    let p = param_end(s, 2);
    if p < s.len() && is_final(s[p]) {
        if p == 2 && s[2] == 0x4d {
            if s.len() >= 6 {
                (EventModel::Mouse(s.take(6)), 6)
            } else {
                (EventModel::Unsupported(s), s.len())
            }
        } else {
            match csi_key(s, p) {
                Some(k) => (EventModel::Key(k), (p + 1) as nat),
                None => (EventModel::Unsupported(s.take(p + 1)), (p + 1) as nat),
            }
        }
    } else {
        (EventModel::Unsupported(s.take(p)), p as nat)
    }
}

/// Decoding of input that begins with ESC.
pub open spec fn esc_spec(s: Seq<u8>) -> (EventModel, nat) {
    if s.len() == 1 {
        (EventModel::Key(Key::Esc), 1)
    } else if s[1] == 0x5b {
        if s.len() == 2 {
            (EventModel::Key(Key::Alt('[')), 2)
        } else {
            csi_spec(s)
        }
    } else if s[1] == 0x4f {
        if s.len() == 2 {
            (EventModel::Key(Key::Alt('O')), 2)
        } else {
            match ss3_key(s[2]) {
                Some(k) => (EventModel::Key(k), 3),
                None => (EventModel::Unsupported(s.take(3)), 3),
            }
        }
    } else if 0x20 <= s[1] && s[1] <= 0x7e {
        (EventModel::Key(Key::Alt(s[1] as char)), 2)
    } else {
        (EventModel::Key(Key::Esc), 1)
    }
}

/// The first event of the non-empty input `s`, and how many bytes it takes.
pub open spec fn decode_spec(s: Seq<u8>) -> (EventModel, nat) {
    let b = s[0];
    if b == ESC {
        esc_spec(s)
    } else if b == 0x7f {
        (EventModel::Key(Key::Backspace), 1)
    } else if b < 0x20 {
        (EventModel::Key(control_key(b)), 1)
    } else if b < 0x7f {
        (EventModel::Key(Key::Char(b as char)), 1)
    } else {
        (EventModel::Unsupported(s.take(1)), 1)
    }
}

/// The number of bytes that [`decode_spec`] consumes is at least one and at
/// most what is there.
pub proof fn lemma_decode_len(s: Seq<u8>)
    requires
        s.len() > 0,
    ensures
        1 <= decode_spec(s).1 <= s.len(),
{
    if s[0] == ESC && s.len() > 2 && s[1] == 0x5b {
        lemma_param_end(s, 2);
    }
}

/// `param_end` stops at the first byte that is not a parameter byte.
pub proof fn lemma_param_end(s: Seq<u8>, i: int)
    requires
        0 <= i <= s.len(),
    ensures
        i <= param_end(s, i) <= s.len(),
        forall|k: int| i <= k < param_end(s, i) ==> is_param(#[trigger] s[k]),
        param_end(s, i) < s.len() ==> !is_param(s[param_end(s, i)]),
    decreases s.len() - i,
{
    if i < s.len() && is_param(s[i]) {
        lemma_param_end(s, i + 1);
    }
}

fn copy_range(buf: &[u8], from: usize, to: usize) -> (r: Vec<u8>)
    requires
        from <= to <= buf@.len(),
    ensures
        r@ == buf@.subrange(from as int, to as int),
{
    let mut r: Vec<u8> = Vec::new();
    let mut i: usize = from;
    while i < to
        invariant
            from <= i <= to <= buf@.len(),
            r@ == buf@.subrange(from as int, i as int),
        decreases to - i,
    {
        r.push(buf[i]);
        i = i + 1;
        assert(r@ =~= buf@.subrange(from as int, i as int));
    }
    r
}

fn control_key_exec(b: u8) -> (r: Key)
    requires
        b < 0x20,
    ensures
        r == control_key(b),
{
    if b == 0 {
        Key::Null
    } else if 0x01 <= b && b <= 0x1a {
        Key::Ctrl((b + 0x60) as char)
    } else {
        Key::Ctrl((b + 0x18) as char)
    }
}

fn plain_csi_key_exec(f: u8) -> (r: Option<Key>)
    ensures
        r == plain_csi_key(f),
{
    if f == 0x41 {
        Some(Key::Up)
    } else if f == 0x42 {
        Some(Key::Down)
    } else if f == 0x43 {
        Some(Key::Right)
    } else if f == 0x44 {
        Some(Key::Left)
    } else if f == 0x48 {
        Some(Key::Home)
    } else if f == 0x46 {
        Some(Key::End)
    } else if f == 0x5a {
        Some(Key::BackTab)
    } else {
        None
    }
}

fn modified_key_exec(m: u8, f: u8) -> (r: Option<Key>)
    ensures
        r == modified_key(m, f),
{
    if m == 0x32 {
        if f == 0x41 { Some(Key::ShiftUp) }
        else if f == 0x42 { Some(Key::ShiftDown) }
        else if f == 0x43 { Some(Key::ShiftRight) }
        else if f == 0x44 { Some(Key::ShiftLeft) }
        else { None }
    } else if m == 0x33 {
        if f == 0x41 { Some(Key::AltUp) }
        else if f == 0x42 { Some(Key::AltDown) }
        else if f == 0x43 { Some(Key::AltRight) }
        else if f == 0x44 { Some(Key::AltLeft) }
        else { None }
    } else if m == 0x35 {
        if f == 0x41 { Some(Key::CtrlUp) }
        else if f == 0x42 { Some(Key::CtrlDown) }
        else if f == 0x43 { Some(Key::CtrlRight) }
        else if f == 0x44 { Some(Key::CtrlLeft) }
        else if f == 0x48 { Some(Key::CtrlHome) }
        else if f == 0x46 { Some(Key::CtrlEnd) }
        else { None }
    } else {
        None
    }
}

fn tilde_key1_exec(d: u8) -> (r: Option<Key>)
    ensures
        r == tilde_key1(d),
{
    if d == 0x31 || d == 0x37 {
        Some(Key::Home)
    } else if d == 0x32 {
        Some(Key::Insert)
    } else if d == 0x33 {
        Some(Key::Delete)
    } else if d == 0x34 || d == 0x38 {
        Some(Key::End)
    } else if d == 0x35 {
        Some(Key::PageUp)
    } else if d == 0x36 {
        Some(Key::PageDown)
    } else {
        None
    }
}

fn tilde_key2_exec(d: u8, e: u8) -> (r: Option<Key>)
    ensures
        r == tilde_key2(d, e),
{
    if d == 0x31 {
        if 0x31 <= e && e <= 0x35 {
            Some(Key::F(e - 0x30))
        } else if 0x37 <= e && e <= 0x39 {
            Some(Key::F(e - 0x31))
        } else {
            None
        }
    } else if d == 0x32 {
        if e == 0x30 { Some(Key::F(9)) }
        else if e == 0x31 { Some(Key::F(10)) }
        else if e == 0x33 { Some(Key::F(11)) }
        else if e == 0x34 { Some(Key::F(12)) }
        else { None }
    } else {
        None
    }
}

/// Index, relative to `start`, of the first byte after `ESC [` and its
/// parameter bytes.
fn scan_params(buf: &[u8], start: usize) -> (p: usize)
    requires
        start + 2 <= buf@.len(),
    ensures
        p as int == param_end(buf@.skip(start as int), 2),
        2 <= p <= buf@.len() - start,
{
    let ghost s = buf@.skip(start as int);
    let n = buf.len() - start;
    let mut p: usize = 2;
    while p < n && 0x30 <= buf[start + p] && buf[start + p] <= 0x3f
        invariant
            n == s.len(),
            start + n == buf@.len(),
            buf@.len() == buf.len(),
            s == buf@.skip(start as int),
            2 <= p <= n,
            param_end(s, p as int) == param_end(s, 2),
        decreases n - p,
    {
        p = p + 1;
    }
    p
}

/// Decodes a control sequence `ESC [ ...` that starts at `start`.
fn decode_csi(buf: &[u8], start: usize) -> (r: Decoded)
    requires
        start + 2 < buf@.len(),
        buf@[start as int] == ESC,
        buf@[start + 1] == 0x5b,
    ensures
        (r.event@, r.len as nat) == csi_spec(buf@.skip(start as int)),
{
    let ghost s = buf@.skip(start as int);
    let n = buf.len() - start;
    proof {
        lemma_param_end(s, 2);
    }
    let p = scan_params(buf, start);
    if p < n && 0x40 <= buf[start + p] && buf[start + p] <= 0x7e {
        let f = buf[start + p];
        if p == 2 && f == 0x4d {
            if n >= 6 {
                let v = copy_range(buf, start, start + 6);
                assert(v@ =~= s.take(6));
                Decoded { event: Event::Mouse(v), len: 6 }
            } else {
                let v = copy_range(buf, start, buf.len());
                assert(v@ =~= s);
                Decoded { event: Event::Unsupported(v), len: n }
            }
        } else {
            let k = if p == 2 {
                plain_csi_key_exec(f)
            } else if f == 0x7e && p == 3 {
                tilde_key1_exec(buf[start + 2])
            } else if f == 0x7e && p == 4 {
                tilde_key2_exec(buf[start + 2], buf[start + 3])
            } else if p == 5 && buf[start + 2] == 0x31 && buf[start + 3] == 0x3b {
                modified_key_exec(buf[start + 4], f)
            } else {
                None
            };
            assert(k == csi_key(s, p as int));
            match k {
                Some(k) => Decoded { event: Event::Key(k), len: p + 1 },
                None => {
                    let v = copy_range(buf, start, start + p + 1);
                    assert(v@ =~= s.take(p + 1));
                    Decoded { event: Event::Unsupported(v), len: p + 1 }
                },
            }
        }
    } else {
        let v = copy_range(buf, start, start + p);
        assert(v@ =~= s.take(p as int));
        Decoded { event: Event::Unsupported(v), len: p }
    }
}

/// Decodes the event at the front of `buf[start..]`.
pub fn decode_at(buf: &[u8], start: usize) -> (r: Decoded)
    requires
        start < buf@.len(),
    ensures
        (r.event@, r.len as nat) == decode_spec(buf@.skip(start as int)),
        1 <= r.len <= buf@.len() - start,
{
    let ghost s = buf@.skip(start as int);
    proof {
        lemma_decode_len(s);
    }
    let n = buf.len() - start;
    let b = buf[start];
    if b == ESC {
        if n == 1 {
            Decoded { event: Event::Key(Key::Esc), len: 1 }
        } else if buf[start + 1] == 0x5b {
            if n == 2 {
                Decoded { event: Event::Key(Key::Alt('[')), len: 2 }
            } else {
                decode_csi(buf, start)
            }
        } else if buf[start + 1] == 0x4f {
            if n == 2 {
                Decoded { event: Event::Key(Key::Alt('O')), len: 2 }
            } else {
                let c = buf[start + 2];
                let k = if 0x50 <= c && c <= 0x53 {
                    Some(Key::F(c - 0x4f))
                } else if c == 0x5a {
                    None
                } else {
                    plain_csi_key_exec(c)
                };
                match k {
                    Some(k) => Decoded { event: Event::Key(k), len: 3 },
                    None => {
                        let v = copy_range(buf, start, start + 3);
                        assert(v@ =~= s.take(3));
                        Decoded { event: Event::Unsupported(v), len: 3 }
                    },
                }
            }
        } else {
            let c = buf[start + 1];
            if 0x20 <= c && c <= 0x7e {
                Decoded { event: Event::Key(Key::Alt(c as char)), len: 2 }
            } else {
                Decoded { event: Event::Key(Key::Esc), len: 1 }
            }
        }
    } else if b == 0x7f {
        Decoded { event: Event::Key(Key::Backspace), len: 1 }
    } else if b < 0x20 {
        Decoded { event: Event::Key(control_key_exec(b)), len: 1 }
    } else if b < 0x7f {
        Decoded { event: Event::Key(Key::Char(b as char)), len: 1 }
    } else {
        let v = copy_range(buf, start, start + 1);
        assert(v@ =~= s.take(1));
        Decoded { event: Event::Unsupported(v), len: 1 }
    }
}

/// All events of the input `s`, in order, each with the number of bytes it
/// was decoded from.
pub open spec fn decode_seq(s: Seq<u8>) -> Seq<(EventModel, nat)>
    decreases s.len(),
{
    if s.len() == 0 {
        Seq::empty()
    } else {
        let d = decode_spec(s);
        if 1 <= d.1 <= s.len() {
            seq![d] + decode_seq(s.skip(d.1 as int))
        } else {
            Seq::empty()
        }
    }
}

/// Total number of bytes consumed by a sequence of decoded events.
pub open spec fn total_len(ds: Seq<(EventModel, nat)>) -> nat
    decreases ds.len(),
{
    if ds.len() == 0 {
        0
    } else {
        ds[0].1 + total_len(ds.skip(1))
    }
}

/// The bytes that a decoded event carries, where it carries any.
pub open spec fn payload(e: EventModel) -> Option<Seq<u8>> {
    match e {
        EventModel::Key(_) => None,
        EventModel::Mouse(b) => Some(b),
        EventModel::Unsupported(b) => Some(b),
    }
}

/// An event that carries bytes carries exactly the bytes it was decoded from.
pub proof fn lemma_payload_is_input(s: Seq<u8>)
    requires
        s.len() > 0,
    ensures
        payload(decode_spec(s).0) is Some ==> payload(decode_spec(s).0) == Some(
            s.take(decode_spec(s).1 as int),
        ),
{
    lemma_decode_len(s);
    if s[0] == ESC && s.len() > 2 && s[1] == 0x5b {
        lemma_param_end(s, 2);
        let p = param_end(s, 2);
        if p < s.len() && is_final(s[p]) && p == 2 && s[2] == 0x4d && s.len() < 6 {
            assert(s.take(s.len() as int) =~= s);
        }
    }
}

/// No input is lost: the events decoded from any byte sequence account for
/// every one of its bytes.
pub proof fn lemma_no_data_loss(s: Seq<u8>)
    ensures
        total_len(decode_seq(s)) == s.len(),
    decreases s.len(),
{
    if s.len() > 0 {
        lemma_decode_len(s);
        let d = decode_spec(s);
        let rest = s.skip(d.1 as int);
        lemma_no_data_loss(rest);
        let ds = decode_seq(s);
        assert(ds.skip(1) =~= decode_seq(rest));
    }
}

/// The bytes that each event of [`decode_seq`] was decoded from, in order.
pub open spec fn segments(s: Seq<u8>) -> Seq<Seq<u8>>
    decreases s.len(),
{
    if s.len() == 0 {
        Seq::empty()
    } else {
        let d = decode_spec(s);
        if 1 <= d.1 <= s.len() {
            seq![s.take(d.1 as int)] + segments(s.skip(d.1 as int))
        } else {
            Seq::empty()
        }
    }
}

/// Every byte of the input lies in exactly one event, in order: the bytes
/// the events were decoded from, put together, are the input; each event
/// took as many bytes as its length says; and an event that carries bytes
/// carries exactly those it was decoded from.
pub proof fn lemma_segments_cover(s: Seq<u8>)
    ensures
        segments(s).flatten() == s,
        segments(s).len() == decode_seq(s).len(),
        forall|i: int|
            0 <= i < segments(s).len() ==> (#[trigger] segments(s)[i]).len() == decode_seq(
                s,
            )[i].1,
        forall|i: int|
            0 <= i < segments(s).len() && (payload(#[trigger] decode_seq(s)[i].0) is Some)
                ==> payload(decode_seq(s)[i].0) == Some(segments(s)[i]),
    decreases s.len(),
{
    if s.len() == 0 {
        assert(segments(s).flatten() =~= s);
    } else {
        lemma_decode_len(s);
        lemma_payload_is_input(s);
        let n = decode_spec(s).1 as int;
        let rest = s.skip(n);
        lemma_segments_cover(rest);
        let seg = segments(s);
        let ds = decode_seq(s);
        assert(seg.drop_first() =~= segments(rest));
        assert(ds.skip(1) =~= decode_seq(rest));
        assert(seg.flatten() == seg.first() + seg.drop_first().flatten());
        assert(s.take(n) + rest =~= s);
        assert forall|i: int| 0 < i < seg.len() implies (#[trigger] seg[i]).len() == ds[i].1 by {
            assert(seg[i] == segments(rest)[i - 1]);
            assert(ds[i] == decode_seq(rest)[i - 1]);
        }
        assert forall|i: int|
            0 < i < seg.len() && (payload(#[trigger] ds[i].0) is Some) implies payload(ds[i].0)
                == Some(seg[i]) by {
            assert(seg[i] == segments(rest)[i - 1]);
            assert(ds[i] == decode_seq(rest)[i - 1]);
        }
    }
}

/// Decodes the whole of `buf` into events, treating its end as the end of
/// the input (so a lone trailing ESC is the Esc key).
pub fn decode_all(buf: &[u8]) -> (r: Vec<Decoded>)
    ensures
        r@.map_values(|d: Decoded| (d.event@, d.len as nat)) == decode_seq(buf@),
        total_len(r@.map_values(|d: Decoded| (d.event@, d.len as nat))) == buf@.len(),
{
    let mut r: Vec<Decoded> = Vec::new();
    let mut i: usize = 0;
    assert(buf@.skip(0) =~= buf@);
    assert(r@.map_values(|d: Decoded| (d.event@, d.len as nat)) + decode_seq(buf@) =~= decode_seq(
        buf@,
    ));
    while i < buf.len()
        invariant
            i <= buf@.len(),
            r@.map_values(|d: Decoded| (d.event@, d.len as nat)) + decode_seq(buf@.skip(i as int))
                == decode_seq(buf@),
        decreases buf@.len() - i,
    {
        let d = decode_at(buf, i);
        let ghost rest = buf@.skip(i as int);
        let ghost head = (d.event@, d.len as nat);
        let ghost before = r@.map_values(|d: Decoded| (d.event@, d.len as nat));
        assert(rest.skip(d.len as int) =~= buf@.skip(i + d.len));
        assert(decode_seq(rest) == seq![head] + decode_seq(buf@.skip(i + d.len)));
        let n = d.len;
        r.push(d);
        i = i + n;
        assert(r@.map_values(|d: Decoded| (d.event@, d.len as nat)) =~= before.push(head));
        assert(before.push(head) + decode_seq(buf@.skip(i as int)) =~= before + (seq![head]
            + decode_seq(buf@.skip(i as int))));
    }
    assert(buf@.skip(i as int) =~= Seq::<u8>::empty());
    assert(r@.map_values(|d: Decoded| (d.event@, d.len as nat)) + Seq::empty() =~= r@.map_values(
        |d: Decoded| (d.event@, d.len as nat),
    ));
    proof {
        lemma_no_data_loss(buf@);
    }
    r
}

/// `s` is the start of a known sequence that more input would complete: a
/// lone ESC, `ESC O`, `ESC [` with parameter bytes and no final byte yet, or
/// a mouse report short of its six bytes.
pub open spec fn awaits_more(s: Seq<u8>) -> bool {
    &&& s.len() >= 1
    &&& s[0] == ESC
    &&& {
        ||| s.len() == 1
        ||| s[1] == 0x4f && s.len() == 2
        ||| s[1] == 0x5b && (s.len() == 2 || param_end(s, 2) == s.len() || (s[2] == 0x4d
            && s.len() < 6))
    }
}

fn awaits_more_exec(buf: &[u8]) -> (r: bool)
    ensures
        r == awaits_more(buf@),
{
    let n = buf.len();
    if n == 0 || buf[0] != ESC {
        return false;
    }
    if n == 1 {
        return true;
    }
    if buf[1] == 0x4f {
        return n == 2;
    }
    if buf[1] != 0x5b {
        return false;
    }
    if n == 2 {
        return true;
    }
    assert(buf@.skip(0) =~= buf@);
    let p = scan_params(buf, 0);
    p == n || (buf[2] == 0x4d && n < 6)
}

/// A decoder over input that arrives in pieces: bytes are fed as they are
/// read, and events are taken from the front one at a time.
pub struct Decoder {
    pending: Vec<u8>,
}

impl View for Decoder {
    type V = Seq<u8>;

    /// The bytes fed and not yet decoded.
    closed spec fn view(&self) -> Seq<u8> {
        self.pending@
    }
}

impl Decoder {
    /// A decoder with nothing pending.
    pub fn new() -> (r: Decoder)
        ensures
            r@ == Seq::<u8>::empty(),
    {
        Decoder { pending: Vec::new() }
    }

    /// Appends freshly read bytes to what is pending.
    pub fn feed(&mut self, bytes: &[u8])
        ensures
            final(self)@ == old(self)@ + bytes@,
    {
        let mut i: usize = 0;
        while i < bytes.len()
            invariant
                i <= bytes@.len(),
                self@ == old(self)@ + bytes@.take(i as int),
            decreases bytes@.len() - i,
        {
            self.pending.push(bytes[i]);
            i = i + 1;
            assert(self@ =~= old(self)@ + bytes@.take(i as int));
        }
        assert(bytes@.take(i as int) =~= bytes@);
    }

    /// Whether what is pending is the start of a sequence that more input
    /// would complete.
    pub fn awaits_more(&self) -> (r: bool)
        ensures
            r == awaits_more(self@),
    {
        awaits_more_exec(self.pending.as_slice())
    }

    /// Takes the next event off the front of what is pending, unless what is
    /// pending may still grow into a longer sequence: then, as when nothing
    /// is pending, `None`, and the bytes stay for the next feed (or for
    /// `next_event` once the input is known to have paused or ended).
    pub fn next_complete_event(&mut self) -> (r: Option<Decoded>)
        ensures
            old(self)@.len() == 0 || awaits_more(old(self)@) ==> r is None && final(self)@ == old(
                self,
            )@,
            old(self)@.len() > 0 && !awaits_more(old(self)@) ==> r is Some && (
            r->Some_0.event@,
            r->Some_0.len as nat,
            ) == decode_spec(old(self)@) && final(self)@ == old(self)@.skip(r->Some_0.len as int),
    {
        if self.awaits_more() {
            return None;
        }
        self.next_event()
    }

    /// Takes the next event off the front of what is pending, treating the
    /// end of what is pending as the end of the input; `None` when nothing
    /// is pending.
    pub fn next_event(&mut self) -> (r: Option<Decoded>)
        ensures
            old(self)@.len() == 0 ==> r is None && final(self)@ == old(self)@,
            old(self)@.len() > 0 ==> r is Some && (r->Some_0.event@, r->Some_0.len as nat)
                == decode_spec(old(self)@) && final(self)@ == old(self)@.skip(
                r->Some_0.len as int,
            ),
    {
        if self.pending.len() == 0 {
            return None;
        }
        let d = decode_at(self.pending.as_slice(), 0);
        assert(self.pending@.skip(0) =~= self.pending@);
        let rest = copy_range(self.pending.as_slice(), d.len, self.pending.len());
        assert(rest@ =~= old(self)@.skip(d.len as int));
        self.pending = rest;
        Some(d)
    }
}

} // verus!
