use vstd::prelude::*;
use crate::constants::HEADER_LEN;
use crate::packet::hdr::be_u16;
use crate::error::ConvertBytesErr;
use crate::packet::message::{message_failure, parse_message, Message};

verus! {

#[verifier::external_type_specification]
#[verifier::external_body]
pub struct ExBytesMut(bytes::BytesMut);

/// The bytes a `BytesMut` holds, in order.
pub uninterp spec fn bytes_of(b: bytes::BytesMut) -> Seq<u8>;

/// Relies on `BytesMut::with_capacity`: the new buffer holds no bytes (it
/// allocates through `Vec::with_capacity`, which panics past `isize::MAX`).
pub assume_specification[ bytes::BytesMut::with_capacity ](capacity: usize) -> (r:
    bytes::BytesMut)
    requires
        capacity <= isize::MAX,
    ensures
        bytes_of(r) == Seq::<u8>::empty(),
;

/// Relies on `BytesMut::len`: the number of bytes held.
pub assume_specification[ bytes::BytesMut::len ](b: &bytes::BytesMut) -> (r: usize)
    ensures
        r == bytes_of(*b).len(),
;

/// Relies on `BytesMut::extend_from_slice`: the bytes of `extend` are
/// appended (its `reserve` panics when the length would pass `isize::MAX`).
pub assume_specification[ bytes::BytesMut::extend_from_slice ](
    b: &mut bytes::BytesMut,
    extend: &[u8],
)
    requires
        bytes_of(*old(b)).len() + extend@.len() <= isize::MAX,
    ensures
        bytes_of(*final(b)) == bytes_of(*old(b)) + extend@,
;

/// Relies on `BytesMut::split_to`: the first `at` bytes are returned and the
/// rest stay behind (it panics when `at` passes the length).
pub assume_specification[ bytes::BytesMut::split_to ](b: &mut bytes::BytesMut, at: usize) -> (r:
    bytes::BytesMut)
    requires
        at <= bytes_of(*old(b)).len(),
    ensures
        bytes_of(r) == bytes_of(*old(b)).subrange(0, at as int),
        bytes_of(*final(b)) == bytes_of(*old(b)).subrange(at as int, bytes_of(*old(b)).len() as int),
;

/// Relies on `BytesMut`'s `Deref`: the slice of the bytes held.
pub assume_specification[ <bytes::BytesMut as core::ops::Deref>::deref ](b: &bytes::BytesMut) -> (r:
    &[u8])
    ensures
        r@ == bytes_of(*b),
;

/// The message length that the header at the front of `b` declares, once
/// the whole header has arrived.
pub open spec fn declared_len(b: Seq<u8>) -> Option<nat> {
    if b.len() < HEADER_LEN {
        None
    } else {
        Some(be_u16(b[16], b[17]) as nat)
    }
}

/// The length of the complete message at the front of `b`: known once the
/// header has arrived, complete once every declared byte has.
pub open spec fn frame_len(b: Seq<u8>) -> Option<nat> {
    match declared_len(b) {
        Some(n) => if n <= b.len() {
            Some(n)
        } else {
            None
        },
        None => None,
    }
}

/// The complete messages that can be taken from the front of `b`, one after
/// another, in order.
pub open spec fn frames_of(b: Seq<u8>) -> Seq<Seq<u8>>
    decreases b.len(),
{
    match frame_len(b) {
        Some(n) => if n > 0 {
            seq![b.subrange(0, n as int)] + frames_of(b.subrange(n as int, b.len() as int))
        } else {
            Seq::empty()
        },
        None => Seq::empty(),
    }
}

/// What stays of `b` once `frames_of(b)` has been taken.
pub open spec fn rest_of(b: Seq<u8>) -> Seq<u8>
    decreases b.len(),
{
    match frame_len(b) {
        Some(n) => if n > 0 {
            rest_of(b.subrange(n as int, b.len() as int))
        } else {
            b
        },
        None => b,
    }
}

/// The messages taken when the chunks `cs` arrive one at a time, on a buffer
/// that holds `r`, and every complete message is taken after each chunk.
pub open spec fn frames_fed(r: Seq<u8>, cs: Seq<Seq<u8>>) -> Seq<Seq<u8>>
    decreases cs.len(),
{
    if cs.len() == 0 {
        Seq::empty()
    } else {
        frames_of(r + cs[0]) + frames_fed(rest_of(r + cs[0]), cs.drop_first())
    }
}

/// Capacity the receive buffer starts with.
pub const INITIAL_CAPACITY: usize = 150;

/// The receiving side of one established transport: the bytes read from the
/// stream that have not yet been taken as a whole message.
#[derive(Debug)]
pub struct Connection {
    buf: bytes::BytesMut,
}

impl View for Connection {
    type V = Seq<u8>;

    closed spec fn view(&self) -> Seq<u8> {
        bytes_of(self.buf)
    }
}

impl Connection {
    /// A transport with nothing received yet.
    pub fn new() -> (r: Connection)
        ensures
            r@ == Seq::<u8>::empty(),
    {
        Connection { buf: bytes::BytesMut::with_capacity(INITIAL_CAPACITY) }
    }

    /// Appends bytes read from the stream. Refused, leaving the buffer as it
    /// was, when the buffer would outgrow `isize::MAX` bytes.
    pub fn extend_from_slice(&mut self, data: &[u8]) -> (r: bool)
        ensures
            r == (old(self)@.len() + data@.len() <= isize::MAX),
            r ==> final(self)@ == old(self)@ + data@,
            !r ==> final(self)@ == old(self)@,
    {
        let held = self.buf.len();
        if held > isize::MAX as usize || data.len() > isize::MAX as usize - held {
            return false;
        }
        self.buf.extend_from_slice(data);
        true
    }

    /// The length declared by the header at the front of the buffer, once
    /// the whole header has arrived.
    fn get_idx_message_separator(&self) -> (r: Option<usize>)
        ensures
            match declared_len(self@) {
                Some(n) => r == Some(n as usize),
                None => r is None,
            },
    {
        if self.buf.len() < HEADER_LEN {
            return None;
        }
        let bytes: &[u8] = core::ops::Deref::deref(&self.buf);
        Some(crate::packet::hdr::read_u16(bytes, 16) as usize)
    }

    /// Takes the complete message at the front of the buffer, if every byte
    /// of it has arrived; otherwise leaves the buffer as it is.
    fn split_buffer_at_message_separator(&mut self) -> (r: Option<bytes::BytesMut>)
        ensures
            match frame_len(old(self)@) {
                Some(n) => r matches Some(f) && bytes_of(f) == old(self)@.subrange(0, n as int)
                    && final(self)@ == old(self)@.subrange(n as int, old(self)@.len() as int),
                None => r is None && final(self)@ == old(self)@,
            },
    {
        let idx = match self.get_idx_message_separator() {
            Some(i) => i,
            None => return None,
        };
        if self.buf.len() < idx {
            return None;
        }
        Some(self.buf.split_to(idx))
    }

    /// Takes the complete message at the front of the buffer, if every byte
    /// of it has arrived, and decodes it; an incomplete one stays in the
    /// buffer and gives `None`.
    pub fn take_message(&mut self) -> (r: Option<Result<Message, ConvertBytesErr>>)
        ensures
            match frame_len(old(self)@) {
                Some(n) => {
                    let frame = old(self)@.subrange(0, n as int);
                    &&& final(self)@ == old(self)@.subrange(n as int, old(self)@.len() as int)
                    &&& match r {
                        Some(Ok(m)) => parse_message(frame) == Some(m@),
                        Some(Err(e)) => parse_message(frame) is None && e.reason
                            == message_failure(frame),
                        None => false,
                    }
                },
                None => r is None && final(self)@ == old(self)@,
            },
    {
        let frame = match self.split_buffer_at_message_separator() {
            Some(f) => f,
            None => return None,
        };
        Some(Message::decode(core::ops::Deref::deref(&frame)))
    }

    /// Takes the complete message at the front of the buffer and decodes it.
    /// A frame that does not decode is dropped and gives `None`; an
    /// incomplete one stays in the buffer.
    pub fn get_message(&mut self) -> (r: Option<Message>)
        ensures
            match frame_len(old(self)@) {
                Some(n) => {
                    &&& final(self)@ == old(self)@.subrange(n as int, old(self)@.len() as int)
                    &&& match parse_message(old(self)@.subrange(0, n as int)) {
                        Some(v) => r matches Some(m) && m@ == v,
                        None => r is None,
                    }
                },
                None => r is None && final(self)@ == old(self)@,
            },
    {
        match self.take_message() {
            Some(Ok(m)) => Some(m),
            _ => None,
        }
    }
}

/// A complete message at the front of `b` stays the same complete message
/// whatever arrives after it.
pub proof fn lemma_frame_prefix(b: Seq<u8>, c: Seq<u8>)
    ensures
        frame_len(b) is Some ==> frame_len(b + c) == frame_len(b),
{
    if frame_len(b) is Some {
        assert((b + c)[16] == b[16]);
        assert((b + c)[17] == b[17]);
    }
}

/// Nothing complete is left in what stays after taking every message.
pub proof fn lemma_rest_has_no_frame(b: Seq<u8>)
    ensures
        frames_of(rest_of(b)) == Seq::<Seq<u8>>::empty(),
    decreases b.len(),
{
    if let Some(n) = frame_len(b) {
        if n > 0 {
            lemma_rest_has_no_frame(b.subrange(n as int, b.len() as int));
        }
    }
}

/// Taking messages from `a + c` gives those of `a`, then those of what stays
/// of `a` followed by `c`.
pub proof fn lemma_frames_split(a: Seq<u8>, c: Seq<u8>)
    ensures
        frames_of(a + c) == frames_of(a) + frames_of(rest_of(a) + c),
        rest_of(a + c) == rest_of(rest_of(a) + c),
    decreases a.len(),
{
    lemma_frame_prefix(a, c);
    match frame_len(a) {
        Some(n) => {
            if n > 0 {
                let tail = a.subrange(n as int, a.len() as int);
                lemma_frames_split(tail, c);
                assert((a + c).subrange(n as int, (a + c).len() as int) =~= tail + c);
                assert((a + c).subrange(0, n as int) =~= a.subrange(0, n as int));
                assert(frames_of(a + c) =~= frames_of(a) + frames_of(rest_of(a) + c));
            } else {
                assert(frames_of(a) + frames_of(rest_of(a) + c) =~= frames_of(a + c));
            }
        },
        None => {
            assert(frames_of(a) + frames_of(rest_of(a) + c) =~= frames_of(a + c));
        },
    }
}

/// Framing does not depend on how the stream is cut: feeding the chunks `cs`
/// one at a time, and taking every complete message after each, gives the
/// same messages, in the same order, and leaves the same bytes, as feeding
/// the whole stream at once.
pub proof fn lemma_chunking(cs: Seq<Seq<u8>>)
    ensures
        frames_fed(Seq::empty(), cs) == frames_of(cs.flatten()),
{
    lemma_chunking_from(Seq::empty(), cs);
    assert(Seq::<u8>::empty() + cs.flatten() =~= cs.flatten());
}

proof fn lemma_chunking_from(r: Seq<u8>, cs: Seq<Seq<u8>>)
    requires
        frames_of(r) == Seq::<Seq<u8>>::empty(),
    ensures
        frames_fed(r, cs) == frames_of(r + cs.flatten()),
    decreases cs.len(),
{
    if cs.len() == 0 {
        assert(r + cs.flatten() =~= r);
    } else {
        let a = r + cs[0];
        lemma_rest_has_no_frame(a);
        lemma_chunking_from(rest_of(a), cs.drop_first());
        lemma_frames_split(a, cs.drop_first().flatten());
        assert(cs.flatten() =~= cs[0] + cs.drop_first().flatten());
        assert(r + cs.flatten() =~= a + cs.drop_first().flatten());
    }
}

} // verus!
