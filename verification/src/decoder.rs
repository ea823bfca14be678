//! The key decoder: it turns the bytes that a terminal sends, one at a time,
//! into key events.
//!
//! A control byte of the command table is an event by itself. The escape byte
//! starts a sequence that is read to its end and then looked up; one that the
//! table of keys does not hold decodes to nothing. Every other byte is text:
//! an ASCII value is an event by itself, and the bytes of a longer UTF-8
//! encoding are kept until the scalar value is whole.

use vstd::prelude::*;
use vstd::utf8::*;
use crate::keys::{command_of_byte, control_command, ControlCommand, EscapeSequence, KeyEvent, ESC};

verus! {

/// `char::from_u32` of the standard library: the `char` with the given
/// number where that number is a Unicode scalar value, and `None` where it
/// is not.
pub assume_specification[ char::from_u32 ](i: u32) -> (r: Option<char>)
    ensures
        r == (if is_scalar(i) {
            Some(i as char)
        } else {
            None::<char>
        }),
;

/// What one byte made of the decoder.
#[derive(Clone, Copy, Debug, PartialEq, Eq, Structural)]
pub enum Decoded {
    /// The byte belongs to a sequence that is not whole yet.
    Pending,
    /// The byte completed a keystroke.
    Event(KeyEvent),
    /// The byte completed a sequence that stands for no key, or can be part
    /// of none: it has no effect.
    Discarded,
}

// ---------------------------------------------------------------------------
// Escape sequences
// ---------------------------------------------------------------------------
/// The byte `[`, which opens a control sequence behind the escape byte.
pub const CSI_OPEN: u8 = 0x5b;

/// The byte `O`, which opens a single-shift sequence behind the escape byte.
pub const SS3_OPEN: u8 = 0x4f;

/// A byte that can follow the escape byte.
pub open spec fn is_escape_body(b: u8) -> bool {
    0x20 <= b <= 0x7e
}

/// A parameter or intermediate byte of a control sequence.
pub open spec fn is_csi_middle(b: u8) -> bool {
    0x20 <= b <= 0x3f
}

/// A byte that ends a control sequence.
pub open spec fn is_csi_final(b: u8) -> bool {
    0x40 <= b <= 0x7e
}

/// `p` is a whole escape sequence: the escape byte and one further byte; or,
/// behind `ESC O`, one byte more; or, behind `ESC [`, any number of parameter
/// and intermediate bytes and a final byte.
pub open spec fn escape_complete(p: Seq<u8>) -> bool {
    &&& p.len() >= 2
    &&& p[0] == ESC
    &&& if p[1] == CSI_OPEN {
        &&& p.len() >= 3
        &&& forall|i: int| 2 <= i < p.len() - 1 ==> is_csi_middle(#[trigger] p[i])
        &&& is_csi_final(p[p.len() - 1])
    } else if p[1] == SS3_OPEN {
        p.len() == 3 && is_escape_body(p[2])
    } else {
        p.len() == 2 && is_escape_body(p[1])
    }
}

/// `p` is the start of an escape sequence that needs at least one more byte.
pub open spec fn escape_partial(p: Seq<u8>) -> bool {
    &&& p.len() >= 1
    &&& p[0] == ESC
    &&& p.len() >= 2 ==> if p[1] == CSI_OPEN {
        forall|i: int| 2 <= i < p.len() ==> is_csi_middle(#[trigger] p[i])
    } else {
        p[1] == SS3_OPEN && p.len() == 2
    }
}

/// The table of keys: the key that a whole escape sequence stands for.
pub open spec fn escape_meaning(p: Seq<u8>) -> Option<EscapeSequence> {
    if p.len() == 3 && p[0] == ESC && (p[1] == CSI_OPEN || p[1] == SS3_OPEN) {
        if p[2] == 0x41 {
            Some(EscapeSequence::Up)
        } else if p[2] == 0x42 {
            Some(EscapeSequence::Down)
        } else if p[2] == 0x43 {
            Some(EscapeSequence::Right)
        } else if p[2] == 0x44 {
            Some(EscapeSequence::Left)
        } else if p[2] == 0x48 {
            Some(EscapeSequence::Home)
        } else if p[2] == 0x46 {
            Some(EscapeSequence::End)
        } else {
            None
        }
    } else if p.len() == 4 && p[0] == ESC && p[1] == CSI_OPEN && p[3] == 0x7e {
        if p[2] == 0x31 || p[2] == 0x37 {
            Some(EscapeSequence::Home)
        } else if p[2] == 0x33 {
            Some(EscapeSequence::Delete)
        } else if p[2] == 0x34 || p[2] == 0x38 {
            Some(EscapeSequence::End)
        } else {
            None
        }
    } else {
        None
    }
}

/// Looks a whole escape sequence up in the table of keys.
pub fn escape_sequence(p: &Vec<u8>) -> (key: Option<EscapeSequence>)
    ensures
        key == escape_meaning(p@),
{
    if p.len() == 3 && p[0] == ESC && (p[1] == CSI_OPEN || p[1] == SS3_OPEN) {
        let last = p[2];
        if last == 0x41 {
            Some(EscapeSequence::Up)
        } else if last == 0x42 {
            Some(EscapeSequence::Down)
        } else if last == 0x43 {
            Some(EscapeSequence::Right)
        } else if last == 0x44 {
            Some(EscapeSequence::Left)
        } else if last == 0x48 {
            Some(EscapeSequence::Home)
        } else if last == 0x46 {
            Some(EscapeSequence::End)
        } else {
            None
        }
    } else if p.len() == 4 && p[0] == ESC && p[1] == CSI_OPEN && p[3] == 0x7e {
        let digit = p[2];
        if digit == 0x31 || digit == 0x37 {
            Some(EscapeSequence::Home)
        } else if digit == 0x33 {
            Some(EscapeSequence::Delete)
        } else if digit == 0x34 || digit == 0x38 {
            Some(EscapeSequence::End)
        } else {
            None
        }
    } else {
        None
    }
}

// ---------------------------------------------------------------------------
// Scalar values in UTF-8
// ---------------------------------------------------------------------------
/// The UTF-8 encoding of one scalar value.
pub open spec fn encoding(c: char) -> Seq<u8> {
    encode_scalar(c as u32)
}

/// `p` is the whole encoding of one scalar value.
pub open spec fn scalar_complete(p: Seq<u8>) -> bool {
    valid_first_scalar(p) && length_of_first_scalar(p) == p.len()
}

/// The scalar value that `p` encodes, where `p` is a whole encoding.
pub open spec fn scalar_of(p: Seq<u8>) -> char {
    decode_first_scalar(p) as char
}

/// `p` is the start of the encoding of some scalar value, with more to come.
pub open spec fn scalar_partial(p: Seq<u8>) -> bool {
    exists|c: char| scalar_begins(p, c)
}

/// The encoding of `c` starts with `p` and is longer than `p`.
pub open spec fn scalar_begins(p: Seq<u8>, c: char) -> bool {
    p.len() < encoding(c).len() && encoding(c).take(p.len() as int) == p
}

/// How many bytes an encoding has that starts with `lead`; 0 where no
/// encoding of two or more bytes starts with it.
pub open spec fn encoded_width(lead: u8) -> int {
    if 0xc2 <= lead <= 0xdf {
        2
    } else if 0xe0 <= lead <= 0xef {
        3
    } else if 0xf0 <= lead <= 0xf4 {
        4
    } else {
        0
    }
}

/// The second byte of an encoding that starts with `lead` may be `b`: it
/// is a continuation byte, and the value is neither encoded in more bytes
/// than it needs nor a surrogate nor above the last scalar value.
pub open spec fn second_byte_fits(lead: u8, b: u8) -> bool {
    if lead == 0xe0 {
        0xa0 <= b <= 0xbf
    } else if lead == 0xed {
        0x80 <= b <= 0x9f
    } else if lead == 0xf0 {
        0x90 <= b <= 0xbf
    } else if lead == 0xf4 {
        0x80 <= b <= 0x8f
    } else {
        0x80 <= b <= 0xbf
    }
}

/// What the decoder tests byte by byte: `p` is not longer than an encoding
/// that starts with its first byte, its second byte fits the first, and the
/// bytes after it are continuation bytes.
pub open spec fn fits_scalar(p: Seq<u8>) -> bool {
    &&& 1 <= p.len() <= encoded_width(p[0])
    &&& p.len() >= 2 ==> second_byte_fits(p[0], p[1])
    &&& forall|i: int| 2 <= i < p.len() ==> is_continuation_byte(#[trigger] p[i])
}

proof fn lemma_bits_width_2(b1: u8, b2: u8)
    by (bit_vector)
    requires
        is_leading_byte_width_2(b1),
        is_continuation_byte(b2),
    ensures
        not_overlong_encoding(codepoint_width_2(b1, b2), 2) <==> b1 >= 0xc2,
        codepoint_width_2(b1, b2) <= 0x7ff,
{
}

proof fn lemma_bits_width_3(b1: u8, b2: u8, b3: u8)
    by (bit_vector)
    requires
        is_leading_byte_width_3(b1),
        is_continuation_byte(b2),
        is_continuation_byte(b3),
    ensures
        not_overlong_encoding(codepoint_width_3(b1, b2, b3), 3) <==> (b1 != 0xe0 || b2 >= 0xa0),
        not_surrogate(codepoint_width_3(b1, b2, b3)) <==> (b1 != 0xed || b2 <= 0x9f),
        codepoint_width_3(b1, b2, b3) <= 0xffff,
{
}

proof fn lemma_bits_width_4(b1: u8, b2: u8, b3: u8, b4: u8)
    by (bit_vector)
    requires
        is_leading_byte_width_4(b1),
        is_continuation_byte(b2),
        is_continuation_byte(b3),
        is_continuation_byte(b4),
    ensures
        not_overlong_encoding(codepoint_width_4(b1, b2, b3, b4), 4) <==> ((b1 == 0xf0 && b2
            >= 0x90) || (0xf1 <= b1 && b1 <= 0xf3) || (b1 == 0xf4 && b2 <= 0x8f)),
{
}

/// The byte-by-byte test decides whether `p` is a whole encoding of two or
/// more bytes.
pub proof fn lemma_scalar_complete_by_bytes(p: Seq<u8>)
    requires
        p.len() >= 1,
        p[0] >= 0x80,
    ensures
        scalar_complete(p) <==> (fits_scalar(p) && p.len() == encoded_width(p[0])),
        scalar_complete(p) ==> is_scalar(decode_first_scalar(p)),
{
    let b1 = p[0];
    if is_leading_byte_width_2(b1) {
        if p.len() >= 2 && is_continuation_byte(p[1]) {
            lemma_bits_width_2(b1, p[1]);
        }
    } else if is_leading_byte_width_3(b1) {
        if p.len() >= 3 && is_continuation_byte(p[1]) && is_continuation_byte(p[2]) {
            lemma_bits_width_3(b1, p[1], p[2]);
        }
    } else if is_leading_byte_width_4(b1) {
        if p.len() >= 4 && is_continuation_byte(p[1]) && is_continuation_byte(p[2])
            && is_continuation_byte(p[3]) {
            lemma_bits_width_4(b1, p[1], p[2], p[3]);
        }
    }
}

/// The encoding of a scalar value is a whole encoding, and it encodes that
/// value.
pub proof fn lemma_encoding_is_complete(c: char)
    ensures
        scalar_complete(encoding(c)),
        scalar_of(encoding(c)) == c,
        1 <= encoding(c).len() <= 4,
{
    let chars = seq![c];
    reveal_with_fuel(encode_utf8, 2);
    assert(chars.drop_first() =~= Seq::<char>::empty());
    assert(encode_utf8(chars) =~= encoding(c));
    encode_utf8_first_scalar(chars);
    char_u32_cast(c, c as u32);
}

/// A whole encoding is the encoding of the scalar value it encodes.
pub proof fn lemma_complete_is_encoding(p: Seq<u8>)
    requires
        scalar_complete(p),
    ensures
        encoding(scalar_of(p)) == p,
{
    assert(pop_first_scalar(p) =~= Seq::<u8>::empty());
    reveal_with_fuel(valid_utf8, 2);
    assert(valid_utf8(p));
    decode_utf8_first_scalar(p);
    assert(take_first_scalar(p) =~= p);
}

/// The least byte that can stand second behind `lead`.
spec fn least_second(lead: u8) -> u8 {
    if lead == 0xe0 {
        0xa0
    } else if lead == 0xf0 {
        0x90
    } else {
        0x80
    }
}

/// `p`, filled up to the width that its first byte asks for.
spec fn filled(p: Seq<u8>) -> Seq<u8> {
    Seq::new(
        encoded_width(p[0]) as nat,
        |i: int|
            if i < p.len() {
                p[i]
            } else if i == 1 {
                least_second(p[0])
            } else {
                0x80u8
            },
    )
}

/// The byte-by-byte test decides whether `p` starts an encoding and needs
/// more bytes.
pub proof fn lemma_scalar_partial_by_bytes(p: Seq<u8>)
    requires
        p.len() >= 1,
    ensures
        scalar_partial(p) <==> (fits_scalar(p) && p.len() < encoded_width(p[0])),
{
    if scalar_partial(p) {
        let c = choose|c: char| scalar_begins(p, c);
        let e = encoding(c);
        lemma_encoding_is_complete(c);
        assert(e[0] == p[0]) by {
            assert(e.take(p.len() as int)[0] == p[0]);
        }
        assert(e[0] >= 0x80);
        lemma_scalar_complete_by_bytes(e);
        assert forall|i: int| 0 <= i < p.len() implies p[i] == e[i] by {
            assert(e.take(p.len() as int)[i] == p[i]);
        }
        assert(fits_scalar(p));
    }
    if fits_scalar(p) && p.len() < encoded_width(p[0]) {
        let q = filled(p);
        assert(fits_scalar(q));
        lemma_scalar_complete_by_bytes(q);
        lemma_complete_is_encoding(q);
        let c = scalar_of(q);
        assert(encoding(c).take(p.len() as int) =~= p);
        assert(scalar_begins(p, c));
    }
}

// ---------------------------------------------------------------------------
// The decoder
// ---------------------------------------------------------------------------
/// What a byte means to a decoder that holds no unfinished sequence.
pub open spec fn decode_fresh(byte: u8, buffer_empty: bool) -> (Seq<u8>, Decoded) {
    if byte == ESC {
        (seq![byte], Decoded::Pending)
    } else if command_of_byte(byte) is Some {
        let cmd = command_of_byte(byte)->0;
        if cmd == ControlCommand::DeleteForward && buffer_empty {
            (Seq::empty(), Decoded::Event(KeyEvent::Eof))
        } else {
            (Seq::empty(), Decoded::Event(KeyEvent::Control(cmd)))
        }
    } else if byte < 0x80 {
        (Seq::empty(), Decoded::Event(KeyEvent::Printable(byte as char)))
    } else if scalar_partial(seq![byte]) {
        (seq![byte], Decoded::Pending)
    } else {
        (Seq::empty(), Decoded::Discarded)
    }
}

/// What a byte means to a decoder that holds the unfinished sequence
/// `pending`: the bytes it holds afterwards, and what the byte made.
///
/// A byte that continues the sequence completes it or is kept with it. A
/// byte that cannot continue it ends it without effect and is read as the
/// first byte of something new.
pub open spec fn decode_step(pending: Seq<u8>, byte: u8, buffer_empty: bool) -> (
    Seq<u8>,
    Decoded,
) {
    let p = pending.push(byte);
    if pending.len() > 0 && escape_complete(p) {
        match escape_meaning(p) {
            Some(key) => (Seq::empty(), Decoded::Event(KeyEvent::Escape(key))),
            None => (Seq::empty(), Decoded::Discarded),
        }
    } else if pending.len() > 0 && escape_partial(p) {
        (p, Decoded::Pending)
    } else if pending.len() > 0 && pending[0] >= 0x80 && scalar_complete(p) {
        (Seq::empty(), Decoded::Event(KeyEvent::Printable(scalar_of(p))))
    } else if pending.len() > 0 && scalar_partial(p) {
        (p, Decoded::Pending)
    } else {
        decode_fresh(byte, buffer_empty)
    }
}

/// Whether `b` may stand second behind `lead` in an encoding.
fn second_fits(lead: u8, b: u8) -> (r: bool)
    ensures
        r == second_byte_fits(lead, b),
{
    if lead == 0xe0 {
        0xa0 <= b && b <= 0xbf
    } else if lead == 0xed {
        0x80 <= b && b <= 0x9f
    } else if lead == 0xf0 {
        0x90 <= b && b <= 0xbf
    } else if lead == 0xf4 {
        0x80 <= b && b <= 0x8f
    } else {
        0x80 <= b && b <= 0xbf
    }
}

/// The number that the bytes of a whole encoding of two to four bytes hold.
fn assemble(p: &Vec<u8>) -> (v: u32)
    requires
        2 <= p.len() <= 4,
        p[0] >= 0x80,
        scalar_complete(p@),
    ensures
        v == decode_first_scalar(p@),
{
    proof {
        lemma_scalar_complete_by_bytes(p@);
    }
    let b1 = p[0];
    let b2 = p[1];
    if p.len() == 2 {
        (((b1 & 0x1f) as u32) << 6) | ((b2 & 0x3f) as u32)
    } else if p.len() == 3 {
        let b3 = p[2];
        (((b1 & 0x0f) as u32) << 12) | (((b2 & 0x3f) as u32) << 6) | ((b3 & 0x3f) as u32)
    } else {
        let b3 = p[2];
        let b4 = p[3];
        (((b1 & 0x07) as u32) << 18) | (((b2 & 0x3f) as u32) << 12) | (((b3 & 0x3f) as u32) << 6)
            | ((b4 & 0x3f) as u32)
    }
}

/// The key decoder. It holds the bytes of a sequence that is not whole yet.
pub struct KeyDecoder {
    pending: Vec<u8>,
}

impl View for KeyDecoder {
    type V = Seq<u8>;

    closed spec fn view(&self) -> Seq<u8> {
        self.pending@
    }
}

/// The bytes that a decoder may hold: none, or the start of an escape
/// sequence, or the start of the encoding of a scalar value.
pub open spec fn pending_valid(pending: Seq<u8>) -> bool {
    pending.len() == 0 || escape_partial(pending) || scalar_partial(pending)
}

impl KeyDecoder {
    /// The invariant of the type.
    pub open spec fn wf(&self) -> bool {
        pending_valid(self@)
    }

    /// A decoder that holds nothing.
    pub fn new() -> (d: KeyDecoder)
        ensures
            d.wf(),
            d@ == Seq::<u8>::empty(),
    {
        KeyDecoder { pending: Vec::new() }
    }

    /// Whether the decoder holds no unfinished sequence.
    pub fn is_idle(&self) -> (b: bool)
        ensures
            b == (self@.len() == 0),
    {
        self.pending.len() == 0
    }

    /// Drops an unfinished sequence, as a driver does when the rest of it
    /// does not arrive in time.
    pub fn reset(&mut self)
        ensures
            final(self).wf(),
            final(self)@ == Seq::<u8>::empty(),
    {
        self.pending.clear();
    }

    /// Reads `byte` with no unfinished sequence held.
    fn feed_fresh(&mut self, byte: u8, buffer_empty: bool) -> (out: Decoded)
        requires
            old(self)@.len() == 0,
        ensures
            final(self).wf(),
            (final(self)@, out) == decode_fresh(byte, buffer_empty),
    {
        proof {
            lemma_scalar_partial_by_bytes(seq![byte]);
        }
        if byte == ESC {
            self.pending.push(byte);
            assert(self.pending@ =~= seq![byte]);
            return Decoded::Pending;
        }
        match control_command(byte) {
            Some(cmd) => {
                if cmd == ControlCommand::DeleteForward && buffer_empty {
                    Decoded::Event(KeyEvent::Eof)
                } else {
                    Decoded::Event(KeyEvent::Control(cmd))
                }
            },
            None => {
                if byte < 0x80 {
                    Decoded::Event(KeyEvent::Printable(byte as char))
                } else if 0xc2 <= byte && byte <= 0xf4 {
                    self.pending.push(byte);
                    assert(self.pending@ =~= seq![byte]);
                    Decoded::Pending
                } else {
                    Decoded::Discarded
                }
            },
        }
    }

    /// Reads the next byte of the input. `buffer_empty` says whether the line
    /// being edited is empty, on which the meaning of byte 4 depends.
    pub fn feed(&mut self, byte: u8, buffer_empty: bool) -> (out: Decoded)
        requires
            old(self).wf(),
        ensures
            final(self).wf(),
            (final(self)@, out) == decode_step(old(self)@, byte, buffer_empty),
    {
        let n = self.pending.len();
        let ghost before = self.pending@;
        let ghost p = before.push(byte);
        if n > 0 {
            let lead = self.pending[0];
            proof {
                lemma_scalar_partial_by_bytes(before);
                lemma_scalar_partial_by_bytes(p);
                if lead >= 0x80 {
                    lemma_scalar_complete_by_bytes(p);
                }
            }
            if lead == ESC {
                let continues = if n == 1 {
                    0x20 <= byte && byte <= 0x7e
                } else if self.pending[1] == CSI_OPEN {
                    0x20 <= byte && byte <= 0x7e
                } else {
                    n == 2 && 0x20 <= byte && byte <= 0x7e
                };
                if continues {
                    self.pending.push(byte);
                    let whole = if n == 1 {
                        byte != CSI_OPEN && byte != SS3_OPEN
                    } else if self.pending[1] == CSI_OPEN {
                        byte >= 0x40
                    } else {
                        true
                    };
                    if whole {
                        let key = escape_sequence(&self.pending);
                        self.pending.clear();
                        assert(escape_complete(p));
                        return match key {
                            Some(k) => Decoded::Event(KeyEvent::Escape(k)),
                            None => Decoded::Discarded,
                        };
                    } else {
                        assert(escape_partial(p));
                        assert(!escape_complete(p));
                        return Decoded::Pending;
                    }
                }
                assert(!escape_complete(p));
                assert(!escape_partial(p));
            } else {
                let continues = if n == 1 {
                    second_fits(lead, byte)
                } else {
                    0x80 <= byte && byte <= 0xbf
                };
                let width: usize = if lead < 0xe0 {
                    2
                } else if lead < 0xf0 {
                    3
                } else {
                    4
                };
                if continues {
                    self.pending.push(byte);
                    assert(fits_scalar(p));
                    if n + 1 == width {
                        let v = assemble(&self.pending);
                        self.pending.clear();
                        return match char::from_u32(v) {
                            Some(ch) => Decoded::Event(KeyEvent::Printable(ch)),
                            // Not reached: a whole encoding holds a scalar value.
                            None => Decoded::Discarded,
                        };
                    } else {
                        return Decoded::Pending;
                    }
                }
                assert(!fits_scalar(p));
            }
            self.pending.clear();
        }
        self.feed_fresh(byte, buffer_empty)
    }
}

// ---------------------------------------------------------------------------
// What holds of every decoder
// ---------------------------------------------------------------------------
proof fn lemma_ascii_encoding(byte: u8)
    by (bit_vector)
    requires
        byte < 0x80,
    ensures
        has_width_1_encoding(byte as u32),
        leading_byte_width_1(byte as u32) == byte,
{
}

/// A byte of the command table is decoded as its command at once, whatever
/// unfinished sequence the decoder holds, and nothing of that sequence
/// stays.
pub proof fn lemma_command_byte_preempts(pending: Seq<u8>, byte: u8, buffer_empty: bool)
    requires
        pending_valid(pending),
        command_of_byte(byte) is Some,
    ensures
        decode_step(pending, byte, buffer_empty) == decode_fresh(byte, buffer_empty),
        decode_step(pending, byte, buffer_empty).0 == Seq::<u8>::empty(),
        decode_step(pending, byte, buffer_empty).1 == Decoded::Event(
            if command_of_byte(byte) == Some(ControlCommand::DeleteForward) && buffer_empty {
                KeyEvent::Eof
            } else {
                KeyEvent::Control(command_of_byte(byte)->0)
            },
        ),
{
    let p = pending.push(byte);
    if pending.len() > 0 {
        lemma_scalar_partial_by_bytes(p);
        if pending[0] >= 0x80 {
            lemma_scalar_complete_by_bytes(p);
        }
        assert(p[p.len() - 1] == byte);
        if p.len() >= 3 {
            assert(!fits_scalar(p));
        }
    }
}

/// The decoder assembles every scalar value of two or more bytes from its
/// encoding: each byte but the last is kept, and the last one gives the
/// scalar value as a printable event and leaves nothing behind.
pub proof fn lemma_decoder_assembles_scalar(c: char, k: int, buffer_empty: bool)
    requires
        c as u32 >= 0x80,
        0 <= k < encoding(c).len(),
    ensures
        decode_step(encoding(c).take(k), encoding(c)[k], buffer_empty) == (if k + 1 < encoding(
            c,
        ).len() {
            (encoding(c).take(k + 1), Decoded::Pending)
        } else {
            (Seq::<u8>::empty(), Decoded::Event(KeyEvent::Printable(c)))
        }),
        pending_valid(encoding(c).take(k)),
{
    let e = encoding(c);
    lemma_encoding_is_complete(c);
    assert(e.len() >= 2);
    assert(e[0] >= 0x80);
    lemma_scalar_complete_by_bytes(e);
    let pending = e.take(k);
    let p = pending.push(e[k]);
    assert(p =~= e.take(k + 1));
    assert(e.take(e.len() as int) =~= e);
    lemma_scalar_partial_by_bytes(p);
    if k > 0 {
        assert(pending[0] == e[0]);
        assert(p[0] == e[0]);
        assert(scalar_begins(pending, c));
        lemma_scalar_complete_by_bytes(p);
        if k + 1 < e.len() {
            assert(scalar_begins(p, c));
        }
    } else {
        assert(pending =~= Seq::<u8>::empty());
        assert(p =~= seq![e[0]]);
        assert(scalar_begins(p, c));
    }
}

/// No printable event comes out before a scalar value is whole: the bytes
/// that the decoder held, and the byte that made the event, are the
/// encoding of the scalar value; or the byte alone is.
pub proof fn lemma_printable_is_whole_scalar(
    pending: Seq<u8>,
    byte: u8,
    buffer_empty: bool,
    ch: char,
)
    requires
        decode_step(pending, byte, buffer_empty).1 == Decoded::Event(KeyEvent::Printable(ch)),
    ensures
        decode_step(pending, byte, buffer_empty).0 == Seq::<u8>::empty(),
        encoding(ch) == pending.push(byte) || encoding(ch) == seq![byte],
{
    let p = pending.push(byte);
    if pending.len() > 0 && escape_complete(p) {
    } else if pending.len() > 0 && escape_partial(p) {
    } else if pending.len() > 0 && pending[0] >= 0x80 && scalar_complete(p) {
        lemma_complete_is_encoding(p);
    } else if pending.len() > 0 && scalar_partial(p) {
    } else {
        assert(byte < 0x80);
        lemma_ascii_encoding(byte);
        assert(ch as u32 == byte as u32);
        assert(encoding(ch) =~= seq![byte]);
    }
}

/// What the decoder holds after a byte is again the start of a sequence,
/// or nothing.
pub proof fn lemma_decode_step_keeps_valid(pending: Seq<u8>, byte: u8, buffer_empty: bool)
    ensures
        pending_valid(decode_step(pending, byte, buffer_empty).0),
{
    let fresh = decode_fresh(byte, buffer_empty).0;
    assert(fresh.len() == 0 || fresh == seq![byte]);
}

/// A scalar value that is typed as text: its encoding does not start with
/// the escape byte or with a byte of the command table.
pub open spec fn is_text(c: char) -> bool {
    c as u32 >= 0x80 || (c as u32 != ESC && command_of_byte(c as u8) is None)
}

/// The decoder gives every scalar value that is text back from its
/// encoding: fed to a decoder that holds nothing, each byte but the last is
/// kept, and the last one gives the scalar value as a printable event and
/// leaves nothing behind.
pub proof fn lemma_decoder_reads_text(c: char, k: int, buffer_empty: bool)
    requires
        is_text(c),
        0 <= k < encoding(c).len(),
    ensures
        decode_step(encoding(c).take(k), encoding(c)[k], buffer_empty) == (if k + 1 < encoding(
            c,
        ).len() {
            (encoding(c).take(k + 1), Decoded::Pending)
        } else {
            (Seq::<u8>::empty(), Decoded::Event(KeyEvent::Printable(c)))
        }),
{
    if c as u32 >= 0x80 {
        lemma_decoder_assembles_scalar(c, k, buffer_empty);
    } else {
        let byte = c as u8;
        lemma_ascii_encoding(byte);
        assert(encoding(c) =~= seq![byte]);
        assert(encoding(c).take(0) =~= Seq::<u8>::empty());
        assert(byte as char == c);
    }
}

} // verus!
