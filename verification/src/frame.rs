//! The wire format of the local side: a four-byte length, then that many
//! payload bytes, frame after frame.
//!
//! The byte order of the length is fixed per deployment. [`writer`] and
//! [`reader`] use little-endian order, which is the order of the machines
//! the local peer runs on; [`FrameWriter::new`] and [`FrameReader::new`]
//! take either order.

use crate::error::TransportError;
use vstd::arithmetic::div_mod::lemma_fundamental_div_mod_converse;
use vstd::prelude::*;

verus! {

/// The byte order of a frame's length prefix.
#[derive(Clone, Copy, Debug, PartialEq, Eq, Structural)]
pub enum ByteOrder {
    /// Most significant byte first.
    BigEndian,
    /// Least significant byte first.
    LittleEndian,
}

/// The number of bytes in a length prefix.
pub const PREFIX_LEN: usize = 4;

/// The longest payload a length prefix can announce.
pub const MAX_PAYLOAD: usize = 0xffff_ffff;

/// The four bytes that announce a payload of `len` bytes.
pub open spec fn length_prefix(len: nat, order: ByteOrder) -> Seq<u8>
    recommends
        len <= MAX_PAYLOAD,
{
    let b0 = (len % 256) as u8;
    let b1 = ((len / 0x100) % 256) as u8;
    let b2 = ((len / 0x1_0000) % 256) as u8;
    let b3 = ((len / 0x100_0000) % 256) as u8;
    match order {
        ByteOrder::LittleEndian => seq![b0, b1, b2, b3],
        ByteOrder::BigEndian => seq![b3, b2, b1, b0],
    }
}

/// The payload length that the first four bytes of `bytes` announce.
pub open spec fn announced_len(bytes: Seq<u8>, order: ByteOrder) -> nat
    recommends
        bytes.len() >= PREFIX_LEN,
{
    match order {
        ByteOrder::LittleEndian => (bytes[0] + 0x100 * bytes[1] + 0x1_0000 * bytes[2] + 0x100_0000
            * bytes[3]) as nat,
        ByteOrder::BigEndian => (bytes[3] + 0x100 * bytes[2] + 0x1_0000 * bytes[1] + 0x100_0000
            * bytes[0]) as nat,
    }
}

/// One frame on the wire: the length prefix, then the payload unchanged.
pub open spec fn frame_bytes(payload: Seq<u8>, order: ByteOrder) -> Seq<u8>
    recommends
        payload.len() <= MAX_PAYLOAD,
{
    length_prefix(payload.len(), order) + payload
}

/// The frames of `payloads` on the wire, one after the other.
pub open spec fn stream_bytes(payloads: Seq<Seq<u8>>, order: ByteOrder) -> Seq<u8>
    decreases payloads.len(),
{
    if payloads.len() == 0 {
        Seq::empty()
    } else {
        stream_bytes(payloads.drop_last(), order) + frame_bytes(payloads.last(), order)
    }
}

/// Whether `bytes` begin with a complete frame.
pub open spec fn has_frame(bytes: Seq<u8>, order: ByteOrder) -> bool {
    bytes.len() >= PREFIX_LEN && bytes.len() - PREFIX_LEN >= announced_len(bytes, order)
}

/// The payload of the frame that `bytes` begin with.
pub open spec fn first_payload(bytes: Seq<u8>, order: ByteOrder) -> Seq<u8>
    recommends
        has_frame(bytes, order),
{
    bytes.subrange(PREFIX_LEN as int, PREFIX_LEN + announced_len(bytes, order))
}

/// What follows the frame that `bytes` begin with.
pub open spec fn after_first(bytes: Seq<u8>, order: ByteOrder) -> Seq<u8>
    recommends
        has_frame(bytes, order),
{
    bytes.subrange(PREFIX_LEN + announced_len(bytes, order), bytes.len() as int)
}

/// The payloads of all complete frames in `bytes`, in their order on the wire.
pub open spec fn decoded(bytes: Seq<u8>, order: ByteOrder) -> Seq<Seq<u8>>
    decreases bytes.len(),
{
    if has_frame(bytes, order) {
        seq![first_payload(bytes, order)] + decoded(after_first(bytes, order), order)
    } else {
        Seq::empty()
    }
}

/// The bytes left over once every complete frame is taken from `bytes`.
pub open spec fn residue(bytes: Seq<u8>, order: ByteOrder) -> Seq<u8>
    decreases bytes.len(),
{
    if has_frame(bytes, order) {
        residue(after_first(bytes, order), order)
    } else {
        bytes
    }
}

/// How a stream ends that holds `bytes` when its source closes: on a frame
/// boundary it is closed, inside a frame it is truncated.
pub open spec fn end_signal(bytes: Seq<u8>, order: ByteOrder) -> TransportError {
    if residue(bytes, order).len() == 0 {
        TransportError::Closed
    } else {
        TransportError::Truncated
    }
}

/// A length prefix has four bytes and announces the length it was made for.
pub proof fn lemma_prefix_round_trip(len: nat, order: ByteOrder)
    requires
        len <= MAX_PAYLOAD,
    ensures
        length_prefix(len, order).len() == PREFIX_LEN,
        announced_len(length_prefix(len, order), order) == len,
        forall|rest: Seq<u8>| #[trigger]
            announced_len(length_prefix(len, order) + rest, order) == len,
{
    let head = length_prefix(len, order);
    assert forall|rest: Seq<u8>| #[trigger] announced_len(head + rest, order) == len by {
        let all = head + rest;
        assert(all[0] == head[0] && all[1] == head[1] && all[2] == head[2] && all[3] == head[3]);
    }
}

/// Four digits in base 256 are recovered from the number they spell.
proof fn lemma_digits(d0: int, d1: int, d2: int, d3: int)
    requires
        0 <= d0 < 256,
        0 <= d1 < 256,
        0 <= d2 < 256,
        0 <= d3 < 256,
    ensures
        ({
            let n = d0 + 0x100 * d1 + 0x1_0000 * d2 + 0x100_0000 * d3;
            &&& 0 <= n <= MAX_PAYLOAD
            &&& n % 256 == d0
            &&& (n / 0x100) % 256 == d1
            &&& (n / 0x1_0000) % 256 == d2
            &&& (n / 0x100_0000) % 256 == d3
        }),
{
    let n = d0 + 0x100 * d1 + 0x1_0000 * d2 + 0x100_0000 * d3;
    let q1 = d1 + 0x100 * d2 + 0x1_0000 * d3;
    let q2 = d2 + 0x100 * d3;
    lemma_fundamental_div_mod_converse(n, 0x100, q1, d0);
    lemma_fundamental_div_mod_converse(q1, 0x100, q2, d1);
    lemma_fundamental_div_mod_converse(n, 0x1_0000, q2, d0 + 0x100 * d1);
    lemma_fundamental_div_mod_converse(q2, 0x100, d3, d2);
    lemma_fundamental_div_mod_converse(n, 0x100_0000, d3, d0 + 0x100 * d1 + 0x1_0000 * d2);
    lemma_fundamental_div_mod_converse(d3, 0x100, 0, d3);
}

/// The first four bytes of a stream are the prefix of the length they announce.
pub proof fn lemma_prefix_of_announced(bytes: Seq<u8>, order: ByteOrder)
    requires
        bytes.len() >= PREFIX_LEN,
    ensures
        announced_len(bytes, order) <= MAX_PAYLOAD,
        length_prefix(announced_len(bytes, order), order) == bytes.subrange(0, PREFIX_LEN as int),
{
    match order {
        ByteOrder::LittleEndian => lemma_digits(
            bytes[0] as int,
            bytes[1] as int,
            bytes[2] as int,
            bytes[3] as int,
        ),
        ByteOrder::BigEndian => lemma_digits(
            bytes[3] as int,
            bytes[2] as int,
            bytes[1] as int,
            bytes[0] as int,
        ),
    }
}

/// A stream that begins with a complete frame is that frame, then the rest.
pub proof fn lemma_split_first(bytes: Seq<u8>, order: ByteOrder)
    requires
        has_frame(bytes, order),
    ensures
        first_payload(bytes, order).len() <= MAX_PAYLOAD,
        frame_bytes(first_payload(bytes, order), order) + after_first(bytes, order) == bytes,
        after_first(bytes, order).len() < bytes.len(),
{
    lemma_prefix_of_announced(bytes, order);
}

/// A frame followed by anything decodes to its payload, then to what the rest
/// decodes to.
pub proof fn lemma_frame_then_rest(payload: Seq<u8>, rest: Seq<u8>, order: ByteOrder)
    requires
        payload.len() <= MAX_PAYLOAD,
    ensures
        has_frame(frame_bytes(payload, order) + rest, order),
        first_payload(frame_bytes(payload, order) + rest, order) == payload,
        after_first(frame_bytes(payload, order) + rest, order) == rest,
        decoded(frame_bytes(payload, order) + rest, order) == seq![payload] + decoded(rest, order),
        residue(frame_bytes(payload, order) + rest, order) == residue(rest, order),
{
    lemma_prefix_round_trip(payload.len(), order);
    let head = length_prefix(payload.len(), order);
    let all = frame_bytes(payload, order) + rest;
    assert(all =~= head + (payload + rest));
    assert(first_payload(all, order) =~= payload);
    assert(after_first(all, order) =~= rest);
}

/// Decoding the frame of a payload gives back the payload and nothing else,
/// for every payload a prefix can announce, the empty one included.
pub proof fn law_frame_round_trip(payload: Seq<u8>, order: ByteOrder)
    requires
        payload.len() <= MAX_PAYLOAD,
    ensures
        frame_bytes(payload, order).len() == PREFIX_LEN + payload.len(),
        frame_bytes(payload, order).subrange(0, PREFIX_LEN as int) == length_prefix(
            payload.len(),
            order,
        ),
        has_frame(frame_bytes(payload, order), order),
        first_payload(frame_bytes(payload, order), order) == payload,
        after_first(frame_bytes(payload, order), order) == Seq::<u8>::empty(),
        decoded(frame_bytes(payload, order), order) == seq![payload],
        end_signal(frame_bytes(payload, order), order) == TransportError::Closed,
{
    lemma_prefix_round_trip(payload.len(), order);
    lemma_frame_then_rest(payload, Seq::empty(), order);
    assert(frame_bytes(payload, order) + Seq::<u8>::empty() =~= frame_bytes(payload, order));
    assert(seq![payload] + Seq::<Seq<u8>>::empty() =~= seq![payload]);
}

/// Frames followed by anything decode to their payloads in the order they
/// were written, then to what the rest decodes to.
pub proof fn lemma_stream_then_rest(payloads: Seq<Seq<u8>>, rest: Seq<u8>, order: ByteOrder)
    requires
        forall|i: int| 0 <= i < payloads.len() ==> (#[trigger] payloads[i]).len() <= MAX_PAYLOAD,
    ensures
        decoded(stream_bytes(payloads, order) + rest, order) == payloads + decoded(rest, order),
        residue(stream_bytes(payloads, order) + rest, order) == residue(rest, order),
    decreases payloads.len(),
{
    if payloads.len() == 0 {
        assert(stream_bytes(payloads, order) + rest =~= rest);
        assert(payloads + decoded(rest, order) =~= decoded(rest, order));
    } else {
        let front = payloads.drop_last();
        let last = payloads.last();
        let tail = frame_bytes(last, order) + rest;
        lemma_stream_then_rest(front, tail, order);
        lemma_frame_then_rest(last, rest, order);
        assert(stream_bytes(payloads, order) + rest =~= stream_bytes(front, order) + tail);
        assert(front + (seq![last] + decoded(rest, order)) =~= payloads + decoded(rest, order));
    }
}

/// A stream of frames decodes to exactly the payloads it was written from, in
/// the order they were written, and ends on a frame boundary.
pub proof fn law_stream_round_trip(payloads: Seq<Seq<u8>>, order: ByteOrder)
    requires
        forall|i: int| 0 <= i < payloads.len() ==> (#[trigger] payloads[i]).len() <= MAX_PAYLOAD,
    ensures
        decoded(stream_bytes(payloads, order), order) == payloads,
        residue(stream_bytes(payloads, order), order) == Seq::<u8>::empty(),
        end_signal(stream_bytes(payloads, order), order) == TransportError::Closed,
{
    lemma_stream_then_rest(payloads, Seq::empty(), order);
    assert(stream_bytes(payloads, order) + Seq::<u8>::empty() =~= stream_bytes(payloads, order));
}

/// Writes the length prefix for a payload of `len` bytes at the end of `out`.
fn push_prefix(out: &mut Vec<u8>, len: u32, order: ByteOrder)
    ensures
        final(out)@ == old(out)@ + length_prefix(len as nat, order),
{
    let b0 = (len % 256) as u8;
    let b1 = ((len / 0x100) % 256) as u8;
    let b2 = ((len / 0x1_0000) % 256) as u8;
    let b3 = ((len / 0x100_0000) % 256) as u8;
    match order {
        ByteOrder::LittleEndian => {
            out.push(b0);
            out.push(b1);
            out.push(b2);
            out.push(b3);
        },
        ByteOrder::BigEndian => {
            out.push(b3);
            out.push(b2);
            out.push(b1);
            out.push(b0);
        },
    }
}

/// Copies `bytes` to the end of `out`.
fn push_all(out: &mut Vec<u8>, bytes: &[u8])
    ensures
        final(out)@ == old(out)@ + bytes@,
{
    let mut i: usize = 0;
    while i < bytes.len()
        invariant
            i <= bytes.len(),
            out@ == old(out)@ + bytes@.subrange(0, i as int),
        decreases bytes.len() - i,
    {
        out.push(bytes[i]);
        i += 1;
    }
}

/// Reads the payload length that the four bytes of `bytes` from `at` on announce.
fn read_prefix(bytes: &Vec<u8>, at: usize, order: ByteOrder) -> (len: usize)
    requires
        at <= bytes.len(),
        bytes.len() - at >= PREFIX_LEN,
    ensures
        len == announced_len(bytes@.subrange(at as int, bytes.len() as int), order),
        len <= MAX_PAYLOAD,
{
    let b0 = bytes[at] as u32;
    let b1 = bytes[at + 1] as u32;
    let b2 = bytes[at + 2] as u32;
    let b3 = bytes[at + 3] as u32;
    let len = match order {
        ByteOrder::LittleEndian => b0 + 0x100 * b1 + 0x1_0000 * b2 + 0x100_0000 * b3,
        ByteOrder::BigEndian => b3 + 0x100 * b2 + 0x1_0000 * b1 + 0x100_0000 * b0,
    };
    len as usize
}

/// Encodes one frame: the length prefix in `order`, then the payload.
///
/// A payload longer than a prefix can announce cannot be framed and is
/// refused as a failed write.
pub fn encode_frame(payload: &[u8], order: ByteOrder) -> (framed: Result<Vec<u8>, TransportError>)
    ensures
        match framed {
            Ok(bytes) => payload@.len() <= MAX_PAYLOAD && bytes@ == frame_bytes(payload@, order),
            Err(e) => payload@.len() > MAX_PAYLOAD && e == TransportError::WriteFailed,
        },
{
    if payload.len() > MAX_PAYLOAD {
        return Err(TransportError::WriteFailed);
    }
    let mut bytes: Vec<u8> = Vec::new();
    push_prefix(&mut bytes, payload.len() as u32, order);
    push_all(&mut bytes, payload);
    Ok(bytes)
}

/// The encoding half of the local transport.
#[derive(Clone, Copy, Debug)]
pub struct FrameWriter {
    order: ByteOrder,
}

impl FrameWriter {
    /// The byte order of the length prefixes this writer produces.
    pub closed spec fn spec_order(&self) -> ByteOrder {
        self.order
    }

    /// A writer whose length prefixes are in `order`.
    pub fn new(order: ByteOrder) -> (w: FrameWriter)
        ensures
            w.spec_order() == order,
    {
        FrameWriter { order }
    }

    /// The byte order of the length prefixes this writer produces.
    #[verifier::when_used_as_spec(spec_order)]
    pub fn order(&self) -> (order: ByteOrder)
        ensures
            order == self.spec_order(),
    {
        self.order
    }

    /// Encodes one frame for the byte sink; see [`encode_frame`].
    pub fn encode(&self, payload: &[u8]) -> (framed: Result<Vec<u8>, TransportError>)
        ensures
            match framed {
                Ok(bytes) => payload@.len() <= MAX_PAYLOAD && bytes@ == frame_bytes(
                    payload@,
                    self.spec_order(),
                ),
                Err(e) => payload@.len() > MAX_PAYLOAD && e == TransportError::WriteFailed,
            },
    {
        encode_frame(payload, self.order)
    }
}

/// The encoder for the local output: four-byte little-endian length prefixes.
pub fn writer() -> (w: FrameWriter)
    ensures
        w.spec_order() == ByteOrder::LittleEndian,
{
    FrameWriter::new(ByteOrder::LittleEndian)
}

/// The decoding half of the local transport: it is fed the bytes as they
/// arrive from the source and hands out the frames they complete, in order.
#[derive(Debug)]
pub struct FrameReader {
    order: ByteOrder,
    buffer: Vec<u8>,
}

/// What a [`FrameReader`] stands for: its byte order and the bytes it was fed
/// and has not yet handed out as frames.
pub struct FrameReaderView {
    pub order: ByteOrder,
    pub pending: Seq<u8>,
}

impl View for FrameReader {
    type V = FrameReaderView;

    closed spec fn view(&self) -> FrameReaderView {
        FrameReaderView { order: self.order, pending: self.buffer@ }
    }
}

impl FrameReader {
    /// A reader that expects length prefixes in `order` and holds no bytes.
    pub fn new(order: ByteOrder) -> (r: FrameReader)
        ensures
            r@.order == order,
            r@.pending == Seq::<u8>::empty(),
    {
        FrameReader { order, buffer: Vec::new() }
    }

    /// The byte order of the length prefixes this reader expects.
    pub fn order(&self) -> (order: ByteOrder)
        ensures
            order == self@.order,
    {
        self.order
    }

    /// The number of bytes fed and not yet handed out.
    pub fn pending_len(&self) -> (len: usize)
        ensures
            len == self@.pending.len(),
    {
        self.buffer.len()
    }

    /// Takes in the bytes that the source delivered next.
    pub fn feed(&mut self, bytes: &[u8])
        ensures
            final(self)@.order == old(self)@.order,
            final(self)@.pending == old(self)@.pending + bytes@,
    {
        push_all(&mut self.buffer, bytes);
    }

    /// Whether the bytes held begin with a complete frame.
    pub fn has_next(&self) -> (ready: bool)
        ensures
            ready == has_frame(self@.pending, self@.order),
    {
        if self.buffer.len() < PREFIX_LEN {
            return false;
        }
        let len = read_prefix(&self.buffer, 0, self.order);
        self.buffer.len() - PREFIX_LEN >= len
    }

    /// Hands out the payload of the next complete frame, if the bytes held
    /// begin with one, and keeps what follows it. Otherwise nothing changes.
    pub fn next_frame(&mut self) -> (frame: Option<Vec<u8>>)
        ensures
            final(self)@.order == old(self)@.order,
            match frame {
                Some(payload) => {
                    &&& has_frame(old(self)@.pending, old(self)@.order)
                    &&& payload@ == first_payload(old(self)@.pending, old(self)@.order)
                    &&& final(self)@.pending == after_first(old(self)@.pending, old(self)@.order)
                },
                None => {
                    &&& !has_frame(old(self)@.pending, old(self)@.order)
                    &&& final(self)@.pending == old(self)@.pending
                },
            },
    {
        if !self.has_next() {
            return None;
        }
        let len = read_prefix(&self.buffer, 0, self.order);
        let rest = self.buffer.split_off(PREFIX_LEN + len);
        let payload = self.buffer.split_off(PREFIX_LEN);
        self.buffer = rest;
        Some(payload)
    }

    /// The signal with which the stream ends if its source closes now:
    /// `Closed` when the bytes held are complete frames and nothing more,
    /// `Truncated` when they end inside a frame.
    pub fn finish(&self) -> (signal: TransportError)
        ensures
            signal == end_signal(self@.pending, self@.order),
    {
        let total = self.buffer.len();
        let mut at: usize = 0;
        assert(self.buffer@.subrange(0, total as int) =~= self.buffer@);
        loop
            invariant
                total == self.buffer.len(),
                at <= total,
                residue(self@.pending, self@.order) == residue(
                    self.buffer@.subrange(at as int, total as int),
                    self@.order,
                ),
            ensures
                !has_frame(self.buffer@.subrange(at as int, total as int), self@.order),
            decreases total - at,
        {
            if total - at < PREFIX_LEN {
                break;
            }
            let len = read_prefix(&self.buffer, at, self.order);
            if total - at - PREFIX_LEN < len {
                break;
            }
            proof {
                let tail = self.buffer@.subrange(at as int, total as int);
                assert(after_first(tail, self.order) =~= self.buffer@.subrange(
                    at + PREFIX_LEN + len,
                    total as int,
                ));
            }
            at = at + PREFIX_LEN + len;
        }
        if at == total {
            TransportError::Closed
        } else {
            TransportError::Truncated
        }
    }
}

/// The decoder for the local input: four-byte little-endian length prefixes.
pub fn reader() -> (r: FrameReader)
    ensures
        r@.order == ByteOrder::LittleEndian,
        r@.pending == Seq::<u8>::empty(),
{
    FrameReader::new(ByteOrder::LittleEndian)
}

} // verus!
