//! The two fields of a KCP segment header that the sessions are routed by.

use vstd::prelude::*;

verus! {

/// Bytes in the header of a KCP segment.
pub const KCP_OVERHEAD: usize = 24;

/// The little-endian 32-bit number that starts at `offset`.
pub open spec fn le_u32(bytes: Seq<u8>, offset: int) -> nat {
    (bytes[offset] + 0x100 * bytes[offset + 1] + 0x1_0000 * bytes[offset + 2] + 0x100_0000
        * bytes[offset + 3]) as nat
}

/// The four bytes of `value`, least significant first.
pub open spec fn le_bytes(value: u32) -> Seq<u8> {
    seq![
        (value % 0x100) as u8,
        (value / 0x100 % 0x100) as u8,
        (value / 0x1_0000 % 0x100) as u8,
        (value / 0x100_0000) as u8,
    ]
}

/// The conversation number that a packet carries.
pub open spec fn conv_of(packet: Seq<u8>) -> nat {
    le_u32(packet, 0)
}

/// The sequence number that a packet carries.
pub open spec fn sn_of(packet: Seq<u8>) -> nat {
    le_u32(packet, 12)
}

/// The packet with its conversation number replaced by `conv`.
pub open spec fn with_conv(packet: Seq<u8>, conv: u32) -> Seq<u8> {
    le_bytes(conv) + packet.skip(4)
}

/// A packet long enough to hold a segment header.
pub open spec fn has_header(packet: Seq<u8>) -> bool {
    packet.len() >= KCP_OVERHEAD
}

/// `kcp::get_conv`: the little-endian number in the first four bytes. It panics
/// on a packet shorter than a header.
#[verifier::external_body]
pub(crate) fn get_conv(packet: &Vec<u8>) -> (conv: u32)
    requires
        has_header(packet@),
    ensures
        conv == conv_of(packet@),
{
    kcp::get_conv(packet)
}

/// `kcp::get_sn`: the little-endian number in bytes 12 to 15. It panics on a
/// packet shorter than a header.
#[verifier::external_body]
pub(crate) fn get_sn(packet: &Vec<u8>) -> (sn: u32)
    requires
        has_header(packet@),
    ensures
        sn == sn_of(packet@),
{
    kcp::get_sn(packet)
}

/// `kcp::set_conv`: writes `conv`, little-endian, over the first four bytes and
/// leaves the rest. It panics on a packet shorter than a header.
#[verifier::external_body]
pub(crate) fn set_conv(packet: &mut Vec<u8>, conv: u32)
    requires
        has_header(old(packet)@),
    ensures
        final(packet)@ == with_conv(old(packet)@, conv),
{
    kcp::set_conv(packet, conv)
}

/// Where the two numbers stand in a packet, least significant byte first, and how long
/// a packet is at least.
pub proof fn numbers_stand_in_the_header(packet: Seq<u8>)
    ensures
        has_header(packet) <==> packet.len() >= 24,
        conv_of(packet) == packet[0] + 0x100 * packet[1] + 0x1_0000 * packet[2] + 0x100_0000
            * packet[3],
        sn_of(packet) == packet[12] + 0x100 * packet[13] + 0x1_0000 * packet[14] + 0x100_0000
            * packet[15],
{
}

/// A conversation number that is written into a packet stands in its first four bytes,
/// least significant byte first, and all other bytes stay as they are.
pub proof fn stamping_writes_four_bytes(packet: Seq<u8>, conv: u32)
    requires
        packet.len() >= 4,
    ensures
        ({
            let stamped = with_conv(packet, conv);
            &&& stamped.len() == packet.len()
            &&& conv == stamped[0] + 0x100 * stamped[1] + 0x1_0000 * stamped[2] + 0x100_0000
                * stamped[3]
            &&& forall|i: int| 4 <= i < packet.len() ==> #[trigger] stamped[i] == packet[i]
        }),
{
}

/// Writing a conversation number and reading it back gives that number; the
/// sequence number and the length are those of the packet before.
pub proof fn stamped_packet_reads_back(packet: Seq<u8>, conv: u32)
    requires
        has_header(packet),
    ensures
        conv_of(with_conv(packet, conv)) == conv,
        sn_of(with_conv(packet, conv)) == sn_of(packet),
        with_conv(packet, conv).len() == packet.len(),
        with_conv(packet, conv).skip(4) == packet.skip(4),
{
    let stamped = with_conv(packet, conv);
    assert(forall|i: int| 4 <= i < packet.len() ==> stamped[i] == packet[i]);
}

/// Writing the conversation number that a packet already carries changes
/// nothing.
pub proof fn stamping_own_conv_changes_nothing(packet: Seq<u8>, conv: u32)
    requires
        has_header(packet),
        conv_of(packet) == conv,
    ensures
        with_conv(packet, conv) == packet,
{
    assert(with_conv(packet, conv) =~= packet);
}

} // verus!
