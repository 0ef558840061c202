//! Fixed-layout binary codec for the protocol structures.
//!
//! Every structure has a fixed size on the wire and every integer field
//! is laid down at its natural width, least significant byte first.  The
//! spec functions `*_to_bytes` and `*_of_bytes` are the reference layout;
//! the executable encoders and decoders are proved against them, and the
//! round-trip lemmas show the two directions are inverses.

use vstd::prelude::*;

verus! {

/// Errors of the codec and of response assembly.
#[derive(Clone, Copy, Debug, PartialEq, Eq, Structural)]
pub enum ProtocolError {
    /// The buffer being decoded is shorter than the fixed layout,
    /// or a mode list is not a whole number of records.
    Truncated,
    /// An encoded mode list would exceed the control transfer's
    /// response-size budget.
    ResponseTooLong,
}

// ---------------------------------------------------------------------------
// Little-endian field layout
// ---------------------------------------------------------------------------

/// The two bytes of `v`, least significant first.
pub open spec fn u16_le(v: u16) -> Seq<u8> {
    seq![(v & 0xff) as u8, ((v >> 8) & 0xff) as u8]
}

/// The four bytes of `v`, least significant first.
pub open spec fn u32_le(v: u32) -> Seq<u8> {
    seq![
        (v & 0xff) as u8,
        ((v >> 8) & 0xff) as u8,
        ((v >> 16) & 0xff) as u8,
        ((v >> 24) & 0xff) as u8,
    ]
}

/// The value whose little-endian bytes are `b0, b1`.
pub open spec fn u16_from_le(b0: u8, b1: u8) -> u16 {
    (b0 as u16) | ((b1 as u16) << 8)
}

/// The value whose little-endian bytes are `b0, b1, b2, b3`.
pub open spec fn u32_from_le(b0: u8, b1: u8, b2: u8, b3: u8) -> u32 {
    (b0 as u32) | ((b1 as u32) << 8) | ((b2 as u32) << 16) | ((b3 as u32) << 24)
}

pub proof fn lemma_u16_le_round_trip(v: u16)
    ensures
        u16_from_le(u16_le(v)[0], u16_le(v)[1]) == v,
{
    assert(((((v & 0xff) as u8) as u16) | (((((v >> 8) & 0xff) as u8) as u16) << 8)) == v)
        by (bit_vector);
}

pub proof fn lemma_u32_le_round_trip(v: u32)
    ensures
        u32_from_le(u32_le(v)[0], u32_le(v)[1], u32_le(v)[2], u32_le(v)[3]) == v,
{
    assert(((((v & 0xff) as u8) as u32) | (((((v >> 8) & 0xff) as u8) as u32) << 8) | (((((v
        >> 16) & 0xff) as u8) as u32) << 16) | (((((v >> 24) & 0xff) as u8) as u32) << 24)) == v)
        by (bit_vector);
}

/// Appends the two little-endian bytes of `v`.
pub(crate) fn push_u16_le(out: &mut Vec<u8>, v: u16)
    ensures
        final(out)@ == old(out)@ + u16_le(v),
{
    out.push((v & 0xff) as u8);
    out.push(((v >> 8) & 0xff) as u8);
    assert(out@ =~= old(out)@ + u16_le(v));
}

/// Appends the four little-endian bytes of `v`.
pub(crate) fn push_u32_le(out: &mut Vec<u8>, v: u32)
    ensures
        final(out)@ == old(out)@ + u32_le(v),
{
    out.push((v & 0xff) as u8);
    out.push(((v >> 8) & 0xff) as u8);
    out.push(((v >> 16) & 0xff) as u8);
    out.push(((v >> 24) & 0xff) as u8);
    assert(out@ =~= old(out)@ + u32_le(v));
}

/// Reads the little-endian value at `off`.
pub(crate) fn read_u16_le(b: &Vec<u8>, off: usize) -> (r: u16)
    requires
        off + 2 <= b.len(),
    ensures
        r == u16_from_le(b@[off as int], b@[off + 1]),
{
    (b[off] as u16) | ((b[off + 1] as u16) << 8)
}

/// Reads the little-endian value at `off`.
pub(crate) fn read_u32_le(b: &Vec<u8>, off: usize) -> (r: u32)
    requires
        off + 4 <= b.len(),
    ensures
        r == u32_from_le(b@[off as int], b@[off + 1], b@[off + 2], b@[off + 3]),
{
    (b[off] as u32) | ((b[off + 1] as u32) << 8) | ((b[off + 2] as u32) << 16) | ((b[off + 3]
        as u32) << 24)
}

// ---------------------------------------------------------------------------
// Display mode records
// ---------------------------------------------------------------------------

/// One display timing mode, 24 bytes on the wire.
#[derive(Clone, Copy, Debug, PartialEq, Eq, Structural)]
pub struct DisplayMode {
    pub clock: u32,
    pub hdisplay: u16,
    pub hsync_start: u16,
    pub hsync_end: u16,
    pub htotal: u16,
    pub vdisplay: u16,
    pub vsync_start: u16,
    pub vsync_end: u16,
    pub vtotal: u16,
    pub flags: u32,
}

/// Wire layout of one mode record.
pub open spec fn mode_to_bytes(m: DisplayMode) -> Seq<u8> {
    u32_le(m.clock) + u16_le(m.hdisplay) + u16_le(m.hsync_start) + u16_le(m.hsync_end) + u16_le(
        m.htotal,
    ) + u16_le(m.vdisplay) + u16_le(m.vsync_start) + u16_le(m.vsync_end) + u16_le(m.vtotal)
        + u32_le(m.flags)
}

/// The mode record whose first 24 bytes are `s`.
pub open spec fn mode_of_bytes(s: Seq<u8>) -> DisplayMode {
    DisplayMode {
        clock: u32_from_le(s[0], s[1], s[2], s[3]),
        hdisplay: u16_from_le(s[4], s[5]),
        hsync_start: u16_from_le(s[6], s[7]),
        hsync_end: u16_from_le(s[8], s[9]),
        htotal: u16_from_le(s[10], s[11]),
        vdisplay: u16_from_le(s[12], s[13]),
        vsync_start: u16_from_le(s[14], s[15]),
        vsync_end: u16_from_le(s[16], s[17]),
        vtotal: u16_from_le(s[18], s[19]),
        flags: u32_from_le(s[20], s[21], s[22], s[23]),
    }
}

/// Decoding the encoding of a mode record gives the record back.
pub proof fn lemma_mode_round_trip(m: DisplayMode)
    ensures
        mode_of_bytes(mode_to_bytes(m)) == m,
{
    let s = mode_to_bytes(m);
    lemma_u32_le_round_trip(m.clock);
    lemma_u16_le_round_trip(m.hdisplay);
    lemma_u16_le_round_trip(m.hsync_start);
    lemma_u16_le_round_trip(m.hsync_end);
    lemma_u16_le_round_trip(m.htotal);
    lemma_u16_le_round_trip(m.vdisplay);
    lemma_u16_le_round_trip(m.vsync_start);
    lemma_u16_le_round_trip(m.vsync_end);
    lemma_u16_le_round_trip(m.vtotal);
    lemma_u32_le_round_trip(m.flags);
    assert(mode_of_bytes(s) == m);
}

impl DisplayMode {
    /// Appends this record's 24 wire bytes.
    pub fn encode_into(&self, out: &mut Vec<u8>)
        ensures
            final(out)@ == old(out)@ + mode_to_bytes(*self),
    {
        push_u32_le(out, self.clock);
        push_u16_le(out, self.hdisplay);
        push_u16_le(out, self.hsync_start);
        push_u16_le(out, self.hsync_end);
        push_u16_le(out, self.htotal);
        push_u16_le(out, self.vdisplay);
        push_u16_le(out, self.vsync_start);
        push_u16_le(out, self.vsync_end);
        push_u16_le(out, self.vtotal);
        push_u32_le(out, self.flags);
        assert(out@ =~= old(out)@ + mode_to_bytes(*self));
    }

    /// Decodes the record beginning at `off`.
    pub fn decode_at(b: &Vec<u8>, off: usize) -> (m: DisplayMode)
        requires
            off + 24 <= b.len(),
        ensures
            m == mode_of_bytes(b@.subrange(off as int, off + 24)),
    {
        let m = DisplayMode {
            clock: read_u32_le(b, off),
            hdisplay: read_u16_le(b, off + 4),
            hsync_start: read_u16_le(b, off + 6),
            hsync_end: read_u16_le(b, off + 8),
            htotal: read_u16_le(b, off + 10),
            vdisplay: read_u16_le(b, off + 12),
            vsync_start: read_u16_le(b, off + 14),
            vsync_end: read_u16_le(b, off + 16),
            vtotal: read_u16_le(b, off + 18),
            flags: read_u32_le(b, off + 20),
        };
        proof {
            let s = b@.subrange(off as int, off + 24);
            assert forall|i: int| 0 <= i < 24 implies s[i] == b@[off + i] by {}
        }
        m
    }
}

// ---------------------------------------------------------------------------
// Display mode sequences
// ---------------------------------------------------------------------------

/// Wire layout of a mode list: the records, concatenated.
pub open spec fn modes_to_bytes(ms: Seq<DisplayMode>) -> Seq<u8>
    decreases ms.len(),
{
    if ms.len() == 0 {
        Seq::empty()
    } else {
        modes_to_bytes(ms.drop_last()) + mode_to_bytes(ms.last())
    }
}

/// The mode list carried by `s`, one record per 24 bytes.
pub open spec fn modes_of_bytes(s: Seq<u8>) -> Seq<DisplayMode>
    decreases s.len(),
{
    if s.len() < 24 {
        Seq::empty()
    } else {
        modes_of_bytes(s.subrange(0, s.len() - 24)).push(
            mode_of_bytes(s.subrange(s.len() - 24, s.len() as int)),
        )
    }
}

pub proof fn lemma_modes_to_bytes_len(ms: Seq<DisplayMode>)
    ensures
        modes_to_bytes(ms).len() == 24 * ms.len(),
    decreases ms.len(),
{
    if ms.len() > 0 {
        lemma_modes_to_bytes_len(ms.drop_last());
    }
}

/// Encoding a mode list and decoding the bytes gives the list back,
/// and the encoding is exactly 24 bytes per record.
pub proof fn lemma_modes_round_trip(ms: Seq<DisplayMode>)
    ensures
        modes_to_bytes(ms).len() == 24 * ms.len(),
        modes_of_bytes(modes_to_bytes(ms)) == ms,
    decreases ms.len(),
{
    lemma_modes_to_bytes_len(ms);
    if ms.len() == 0 {
        assert(modes_of_bytes(modes_to_bytes(ms)) =~= ms);
    } else {
        let prefix = modes_to_bytes(ms.drop_last());
        let tail = mode_to_bytes(ms.last());
        let s = prefix + tail;
        lemma_modes_round_trip(ms.drop_last());
        lemma_mode_round_trip(ms.last());
        lemma_modes_to_bytes_len(ms.drop_last());
        assert(s.subrange(0, s.len() - 24) =~= prefix);
        assert(s.subrange(s.len() - 24, s.len() as int) =~= tail);
        assert(ms.drop_last().push(ms.last()) =~= ms);
    }
}

/// Encodes a mode list: each record exactly 24 bytes, concatenated.
pub fn encode_modes(modes: &Vec<DisplayMode>) -> (r: Vec<u8>)
    ensures
        r@ == modes_to_bytes(modes@),
        r@.len() == 24 * modes@.len(),
{
    let mut out: Vec<u8> = Vec::new();
    let mut i: usize = 0;
    while i < modes.len()
        invariant
            i <= modes@.len(),
            out@ == modes_to_bytes(modes@.subrange(0, i as int)),
        decreases modes@.len() - i,
    {
        let m = modes[i];
        m.encode_into(&mut out);
        proof {
            assert(modes@.subrange(0, i + 1).drop_last() =~= modes@.subrange(0, i as int));
            assert(modes@.subrange(0, i + 1).last() == modes@[i as int]);
        }
        i += 1;
    }
    proof {
        assert(modes@.subrange(0, modes@.len() as int) =~= modes@);
        lemma_modes_to_bytes_len(modes@);
    }
    out
}

/// Decodes a mode list; the buffer must be a whole number of records.
pub fn decode_modes(b: &Vec<u8>) -> (r: Result<Vec<DisplayMode>, ProtocolError>)
    ensures
        r is Ok <==> b@.len() % 24 == 0,
        r matches Ok(v) ==> v@ == modes_of_bytes(b@) && 24 * v@.len() == b@.len(),
        r is Err ==> r == Err::<Vec<DisplayMode>, ProtocolError>(ProtocolError::Truncated),
{
    if b.len() % 24 != 0 {
        return Err(ProtocolError::Truncated);
    }
    let mut out: Vec<DisplayMode> = Vec::new();
    let mut i: usize = 0;
    while i < b.len()
        invariant
            i <= b@.len(),
            i % 24 == 0,
            b@.len() % 24 == 0,
            out@ == modes_of_bytes(b@.subrange(0, i as int)),
            24 * out@.len() == i,
        decreases b@.len() - i,
    {
        proof {
            assert((b@.len() - i) % 24 == 0) by (nonlinear_arith)
                requires
                    i % 24 == 0,
                    b@.len() % 24 == 0,
            ;
        }
        let m = DisplayMode::decode_at(b, i);
        out.push(m);
        proof {
            let s = b@.subrange(0, i + 24);
            assert(s.subrange(0, s.len() - 24) =~= b@.subrange(0, i as int));
            assert(s.subrange(s.len() - 24, s.len() as int) =~= b@.subrange(i as int, i + 24));
        }
        i += 24;
    }
    proof {
        assert(i == b@.len());
        assert(b@.subrange(0, b@.len() as int) =~= b@);
    }
    Ok(out)
}

// ---------------------------------------------------------------------------
// Display descriptor
// ---------------------------------------------------------------------------

/// The device capability descriptor, 30 bytes on the wire.
#[derive(Clone, Copy, Debug, PartialEq, Eq, Structural)]
pub struct DisplayDescriptor {
    pub magic: u32,
    pub version: u8,
    pub flags: u32,
    pub compression: u8,
    pub max_buffer_size: u32,
    pub min_width: u32,
    pub max_width: u32,
    pub min_height: u32,
    pub max_height: u32,
}

/// Wire layout of the display descriptor.
pub open spec fn descriptor_to_bytes(d: DisplayDescriptor) -> Seq<u8> {
    u32_le(d.magic) + seq![d.version] + u32_le(d.flags) + seq![d.compression] + u32_le(
        d.max_buffer_size,
    ) + u32_le(d.min_width) + u32_le(d.max_width) + u32_le(d.min_height) + u32_le(d.max_height)
}

/// The descriptor whose first 30 bytes are `s`.
pub open spec fn descriptor_of_bytes(s: Seq<u8>) -> DisplayDescriptor {
    DisplayDescriptor {
        magic: u32_from_le(s[0], s[1], s[2], s[3]),
        version: s[4],
        flags: u32_from_le(s[5], s[6], s[7], s[8]),
        compression: s[9],
        max_buffer_size: u32_from_le(s[10], s[11], s[12], s[13]),
        min_width: u32_from_le(s[14], s[15], s[16], s[17]),
        max_width: u32_from_le(s[18], s[19], s[20], s[21]),
        min_height: u32_from_le(s[22], s[23], s[24], s[25]),
        max_height: u32_from_le(s[26], s[27], s[28], s[29]),
    }
}

/// Decoding the encoding of a descriptor gives the descriptor back.
pub proof fn lemma_descriptor_round_trip(d: DisplayDescriptor)
    ensures
        descriptor_to_bytes(d).len() == 30,
        descriptor_of_bytes(descriptor_to_bytes(d)) == d,
{
    lemma_u32_le_round_trip(d.magic);
    lemma_u32_le_round_trip(d.flags);
    lemma_u32_le_round_trip(d.max_buffer_size);
    lemma_u32_le_round_trip(d.min_width);
    lemma_u32_le_round_trip(d.max_width);
    lemma_u32_le_round_trip(d.min_height);
    lemma_u32_le_round_trip(d.max_height);
    assert(descriptor_of_bytes(descriptor_to_bytes(d)) == d);
}

impl DisplayDescriptor {
    /// Encodes the descriptor: always exactly 30 bytes.
    pub fn encode(&self) -> (r: Vec<u8>)
        ensures
            r@ == descriptor_to_bytes(*self),
            r@.len() == 30,
    {
        let mut out: Vec<u8> = Vec::new();
        push_u32_le(&mut out, self.magic);
        out.push(self.version);
        push_u32_le(&mut out, self.flags);
        out.push(self.compression);
        push_u32_le(&mut out, self.max_buffer_size);
        push_u32_le(&mut out, self.min_width);
        push_u32_le(&mut out, self.max_width);
        push_u32_le(&mut out, self.min_height);
        push_u32_le(&mut out, self.max_height);
        assert(out@ =~= descriptor_to_bytes(*self));
        out
    }

    /// Decodes a descriptor; a buffer shorter than the fixed layout is
    /// rejected, never silently truncated.
    pub fn decode(b: &Vec<u8>) -> (r: Result<DisplayDescriptor, ProtocolError>)
        ensures
            r is Ok <==> b@.len() >= 30,
            r matches Ok(d) ==> d == descriptor_of_bytes(b@),
            r == Err::<DisplayDescriptor, ProtocolError>(ProtocolError::Truncated) <==> b@.len()
                < 30,
    {
        if b.len() < 30 {
            return Err(ProtocolError::Truncated);
        }
        Ok(
            DisplayDescriptor {
                magic: read_u32_le(b, 0),
                version: b[4],
                flags: read_u32_le(b, 5),
                compression: b[9],
                max_buffer_size: read_u32_le(b, 10),
                min_width: read_u32_le(b, 14),
                max_width: read_u32_le(b, 18),
                min_height: read_u32_le(b, 22),
                max_height: read_u32_le(b, 26),
            },
        )
    }
}

// ---------------------------------------------------------------------------
// Buffer-update header
// ---------------------------------------------------------------------------

/// A buffer-update header: the rectangle being updated, the declared
/// uncompressed byte length, the compression tag (0 = none), and the
/// compressed byte length when compression is active.  25 bytes on the
/// wire.
#[derive(Clone, Copy, Debug, PartialEq, Eq, Structural)]
pub struct SetBuffer {
    pub x: u32,
    pub y: u32,
    pub width: u32,
    pub height: u32,
    pub length: u32,
    pub compression: u8,
    pub compressed_length: u32,
}

/// Wire layout of the buffer-update header.
pub open spec fn set_buffer_to_bytes(s: SetBuffer) -> Seq<u8> {
    u32_le(s.x) + u32_le(s.y) + u32_le(s.width) + u32_le(s.height) + u32_le(s.length) + seq![
        s.compression,
    ] + u32_le(s.compressed_length)
}

/// The header whose first 25 bytes are `b`.
pub open spec fn set_buffer_of_bytes(b: Seq<u8>) -> SetBuffer {
    SetBuffer {
        x: u32_from_le(b[0], b[1], b[2], b[3]),
        y: u32_from_le(b[4], b[5], b[6], b[7]),
        width: u32_from_le(b[8], b[9], b[10], b[11]),
        height: u32_from_le(b[12], b[13], b[14], b[15]),
        length: u32_from_le(b[16], b[17], b[18], b[19]),
        compression: b[20],
        compressed_length: u32_from_le(b[21], b[22], b[23], b[24]),
    }
}

/// Decoding the encoding of a buffer-update header gives the header
/// back, for arbitrary field values.
pub proof fn lemma_set_buffer_round_trip(s: SetBuffer)
    ensures
        set_buffer_to_bytes(s).len() == 25,
        set_buffer_of_bytes(set_buffer_to_bytes(s)) == s,
{
    lemma_u32_le_round_trip(s.x);
    lemma_u32_le_round_trip(s.y);
    lemma_u32_le_round_trip(s.width);
    lemma_u32_le_round_trip(s.height);
    lemma_u32_le_round_trip(s.length);
    lemma_u32_le_round_trip(s.compressed_length);
    assert(set_buffer_of_bytes(set_buffer_to_bytes(s)) == s);
}

impl SetBuffer {
    /// Encodes the header: always exactly 25 bytes.
    pub fn encode(&self) -> (r: Vec<u8>)
        ensures
            r@ == set_buffer_to_bytes(*self),
            r@.len() == 25,
    {
        let mut out: Vec<u8> = Vec::new();
        push_u32_le(&mut out, self.x);
        push_u32_le(&mut out, self.y);
        push_u32_le(&mut out, self.width);
        push_u32_le(&mut out, self.height);
        push_u32_le(&mut out, self.length);
        out.push(self.compression);
        push_u32_le(&mut out, self.compressed_length);
        assert(out@ =~= set_buffer_to_bytes(*self));
        out
    }

    /// Decodes a header from a received payload; a payload shorter than
    /// the fixed layout is rejected, never silently truncated.
    pub fn decode(b: &Vec<u8>) -> (r: Result<SetBuffer, ProtocolError>)
        ensures
            r is Ok <==> b@.len() >= 25,
            r matches Ok(s) ==> s == set_buffer_of_bytes(b@),
            r == Err::<SetBuffer, ProtocolError>(ProtocolError::Truncated) <==> b@.len() < 25,
    {
        if b.len() < 25 {
            return Err(ProtocolError::Truncated);
        }
        Ok(
            SetBuffer {
                x: read_u32_le(b, 0),
                y: read_u32_le(b, 4),
                width: read_u32_le(b, 8),
                height: read_u32_le(b, 12),
                length: read_u32_le(b, 16),
                compression: b[20],
                compressed_length: read_u32_le(b, 21),
            },
        )
    }
}

// ---------------------------------------------------------------------------
// Connector descriptor
// ---------------------------------------------------------------------------

/// One connector record in a connector-list reply, 5 bytes on the wire.
#[derive(Clone, Copy, Debug, PartialEq, Eq, Structural)]
pub struct ConnectorDescriptor {
    pub connector_type: u8,
    pub flags: u32,
}

/// Wire layout of one connector record.
pub open spec fn connector_to_bytes(c: ConnectorDescriptor) -> Seq<u8> {
    seq![c.connector_type] + u32_le(c.flags)
}

impl ConnectorDescriptor {
    /// Encodes the connector record: always exactly 5 bytes.
    pub fn encode(&self) -> (r: Vec<u8>)
        ensures
            r@ == connector_to_bytes(*self),
            r@.len() == 5,
    {
        let mut out: Vec<u8> = Vec::new();
        out.push(self.connector_type);
        push_u32_le(&mut out, self.flags);
        assert(out@ =~= connector_to_bytes(*self));
        out
    }
}

} // verus!
