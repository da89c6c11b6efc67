//! The fixed 4-byte request header that names a device:
//! `[address, controller, port, mux/segment flags]`.
//!
//! The flags byte is zero where no multiplexer is interposed; otherwise its
//! top bit is set, bits 6..4 hold the mux identifier and bits 3..0 the
//! segment identifier.

use vstd::prelude::*;
use crate::types::{Controller, Mux, PortIndex, ResponseCode, Segment};

verus! {

/// A device identity without the server: address, controller, port and
/// optional (mux, segment).
pub type I2cMessage = (u8, Controller, PortIndex, Option<(Mux, Segment)>);

/// Conversion of a value to and from its wire form.
pub trait Marshal<T>: Sized {
    fn marshal(&self) -> T;

    fn unmarshal(val: &T) -> Result<Self, ResponseCode>;
}

/// The flags byte for an optional (mux, segment).
pub open spec fn mux_flags(m: Option<(Mux, Segment)>) -> u8 {
    match m {
        None => 0,
        Some((mux, seg)) => 0x80u8 | (mux.spec_id() << 4u8) | seg.spec_id(),
    }
}

/// The header of a device identity.
pub open spec fn encode_spec(m: I2cMessage) -> Seq<u8> {
    seq![m.0, m.1.spec_id(), (m.2).0, mux_flags(m.3)]
}

/// The mux identifier field of a flags byte.
pub open spec fn mux_field(f: u8) -> u8 {
    (f & 0x70u8) >> 4u8
}

/// The segment identifier field of a flags byte.
pub open spec fn segment_field(f: u8) -> u8 {
    f & 0x0fu8
}

/// What a header decodes to: the device identity, or the field that is out
/// of range, checked in the order controller, mux, segment.
pub open spec fn decode_spec(h: Seq<u8>) -> Result<I2cMessage, ResponseCode>
    recommends
        h.len() == 4,
{
    match Controller::spec_from_u8(h[1]) {
        None => Err(ResponseCode::BadController),
        Some(c) => if h[3] == 0 {
            Ok((h[0], c, PortIndex(h[2]), None))
        } else {
            match Mux::spec_from_u8(mux_field(h[3])) {
                None => Err(ResponseCode::BadMux),
                Some(mux) => match Segment::spec_from_u8(segment_field(h[3])) {
                    None => Err(ResponseCode::BadSegment),
                    Some(seg) => Ok((h[0], c, PortIndex(h[2]), Some((mux, seg)))),
                },
            }
        },
    }
}

/// Encodes a device identity as its header. The segment field has four
/// bits, so the sixteenth segment does not fit: its header decodes to
/// another mux or to `BadSegment` (see `lemma_header_round_trip`).
pub fn encode_header(m: &I2cMessage) -> (r: [u8; 4])
    ensures
        r@ == encode_spec(*m),
{
    let flags: u8 = match m.3 {
        Some((mux, seg)) => 0x80u8 | (mux.id() << 4u8) | seg.id(),
        None => 0,
    };
    let r = [m.0, m.1.id(), (m.2).0, flags];
    assert(r@ =~= encode_spec(*m));
    r
}

/// Decodes a header; each out-of-range field has its own error.
pub fn decode_header(h: &[u8; 4]) -> (r: Result<I2cMessage, ResponseCode>)
    ensures
        r == decode_spec(h@),
{
    let c = match Controller::from_u8(h[1]) {
        Some(c) => c,
        None => return Err(ResponseCode::BadController),
    };
    if h[3] == 0 {
        return Ok((h[0], c, PortIndex(h[2]), None));
    }
    let mux = match Mux::from_u8((h[3] & 0x70u8) >> 4u8) {
        Some(m) => m,
        None => return Err(ResponseCode::BadMux),
    };
    let seg = match Segment::from_u8(h[3] & 0x0fu8) {
        Some(s) => s,
        None => return Err(ResponseCode::BadSegment),
    };
    Ok((h[0], c, PortIndex(h[2]), Some((mux, seg))))
}

impl Marshal<[u8; 4]> for I2cMessage {
    fn marshal(&self) -> (r: [u8; 4])
        ensures
            r@ == encode_spec(*self),
    {
        encode_header(self)
    }

    fn unmarshal(val: &[u8; 4]) -> (r: Result<Self, ResponseCode>)
        ensures
            r == decode_spec(val@),
    {
        decode_header(val)
    }
}

/// Decoding an encoded identity gives it back, wherever its segment fits
/// the four bits of the flags byte (every segment but the sixteenth).
pub proof fn lemma_header_round_trip(m: I2cMessage)
    requires
        m.3 matches Some((mux, seg)) ==> seg != Segment::S16,
    ensures
        decode_spec(encode_spec(m)) == Ok::<I2cMessage, ResponseCode>(m),
{
    let h = encode_spec(m);
    assert(h[1] == m.1.spec_id());
    if let Some((mux, seg)) = m.3 {
        let a = mux.spec_id();
        let b = seg.spec_id();
        assert(1 <= a <= 5);
        assert(1 <= b <= 15);
        assert(((0x80u8 | (a << 4u8) | b) & 0x70u8) >> 4u8 == a
            && (0x80u8 | (a << 4u8) | b) & 0x0fu8 == b
            && (0x80u8 | (a << 4u8) | b) != 0) by (bit_vector)
            requires
                1 <= a <= 5,
                1 <= b <= 15,
        ;
        assert(Mux::spec_from_u8(a) == Some(mux));
        assert(Segment::spec_from_u8(b) == Some(seg));
    }
    assert(Controller::spec_from_u8(m.1.spec_id()) == Some(m.1));
}

/// A header whose controller, mux or segment field is out of range decodes
/// to the error that names that field.
pub proof fn lemma_header_rejects(h: Seq<u8>)
    requires
        h.len() == 4,
    ensures
        h[1] >= 8 ==> decode_spec(h) == Err::<I2cMessage, ResponseCode>(ResponseCode::BadController),
        h[1] < 8 && h[3] != 0 && (mux_field(h[3]) == 0 || mux_field(h[3]) > 5) ==> decode_spec(h)
            == Err::<I2cMessage, ResponseCode>(ResponseCode::BadMux),
        h[1] < 8 && h[3] != 0 && 1 <= mux_field(h[3]) <= 5 && segment_field(h[3]) == 0
            ==> decode_spec(h) == Err::<I2cMessage, ResponseCode>(ResponseCode::BadSegment),
{
}

} // verus!
