//! The connection identifier in a packet's header.
//!
//! A KCP packet starts with a header of [`HEADER_LEN`] bytes whose first
//! field is the connection identifier, four bytes in little-endian order.
//! The value 0 asks the server to choose an identifier.

use vstd::prelude::*;

verus! {

/// Length of the KCP packet header in bytes.
pub const HEADER_LEN: usize = 24;

/// Width of the identifier field at the start of the header.
pub const CONV_LEN: usize = 4;

/// The identifier that asks the server to assign one.
pub const CONV_UNASSIGNED: u32 = 0;

/// The identifier that the first four bytes of `bytes` spell, little end first.
pub open spec fn conv_of(bytes: Seq<u8>) -> u32
    recommends
        bytes.len() >= CONV_LEN,
{
    (bytes[0] as int + 256 * (bytes[1] as int) + 65536 * (bytes[2] as int) + 16777216 * (
    bytes[3] as int)) as u32
}

/// The four bytes that spell `conv`, little end first.
pub open spec fn conv_bytes(conv: u32) -> Seq<u8> {
    seq![
        (conv % 256) as u8,
        ((conv / 256) % 256) as u8,
        ((conv / 65536) % 256) as u8,
        (conv / 16777216) as u8,
    ]
}

/// `bytes` with its identifier field replaced by `conv`.
pub open spec fn with_conv(bytes: Seq<u8>, conv: u32) -> Seq<u8>
    recommends
        bytes.len() >= CONV_LEN,
{
    conv_bytes(conv) + bytes.skip(4)
}

/// What a packet says about its connection: nothing if it is too short to
/// hold a header, else the identifier in its first field.
pub open spec fn parsed_conv(packet: Seq<u8>) -> Option<u32> {
    if packet.len() < HEADER_LEN {
        None
    } else {
        Some(conv_of(packet))
    }
}

/// Calls `kcp::get_conv`, which reads the first four bytes of the buffer as a
/// little-endian `u32`. It panics on a buffer shorter than the KCP header, so
/// such buffers are excluded here.
#[verifier::external_body]
fn get_conv(buf: &[u8]) -> (conv: u32)
    requires
        buf@.len() >= HEADER_LEN,
    ensures
        conv == conv_of(buf@),
{
    kcp::get_conv(buf)
}

/// Calls `kcp::set_conv`, which overwrites the first four bytes of the buffer
/// with `conv` in little-endian order and leaves the rest as it was. It panics
/// on a buffer shorter than the KCP header, so such buffers are excluded here.
#[verifier::external_body]
fn set_conv(buf: &mut Vec<u8>, conv: u32)
    requires
        old(buf)@.len() >= HEADER_LEN,
    ensures
        final(buf)@ == with_conv(old(buf)@, conv),
{
    kcp::set_conv(buf.as_mut_slice(), conv)
}

/// Reads the connection identifier of a packet. A packet too short to hold a
/// full header has none.
pub fn parse_conv(packet: &[u8]) -> (r: Option<u32>)
    ensures
        r == parsed_conv(packet@),
{
    if packet.len() < HEADER_LEN {
        None
    } else {
        Some(get_conv(packet))
    }
}

/// Writes `conv` into the identifier field of a packet, in place. A packet too
/// short to hold a full header is left untouched and `false` is returned.
pub fn assign_conv(packet: &mut Vec<u8>, conv: u32) -> (done: bool)
    ensures
        done == (old(packet)@.len() >= HEADER_LEN),
        done ==> final(packet)@ == with_conv(old(packet)@, conv),
        !done ==> final(packet)@ == old(packet)@,
{
    if packet.len() < HEADER_LEN {
        false
    } else {
        set_conv(packet, conv);
        true
    }
}

/// Writing an identifier and reading it back gives the identifier written,
/// and the packet keeps its length and everything behind the field.
pub proof fn lemma_with_conv(bytes: Seq<u8>, conv: u32)
    requires
        bytes.len() >= CONV_LEN,
    ensures
        with_conv(bytes, conv).len() == bytes.len(),
        conv_of(with_conv(bytes, conv)) == conv,
        forall|i: int| 4 <= i < bytes.len() ==> with_conv(bytes, conv)[i] == bytes[i],
{
    let w = with_conv(bytes, conv);
    assert(w[0] == (conv % 256) as u8);
    assert(w[1] == ((conv / 256) % 256) as u8);
    assert(w[2] == ((conv / 65536) % 256) as u8);
    assert(w[3] == (conv / 16777216) as u8);
}

} // verus!
