//! Packets.
use crate::ibc::height::{RawHeight, TimeoutHeight};
use crate::ibc::identifier::{ChannelId, PortId};
use vstd::prelude::*;

verus! {

/// A packet on its way from one chain to another.
#[derive(Debug)]
pub struct Packet {
    /// The number of the packet on its channel.
    pub sequence: u64,
    /// The port on the sending chain.
    pub source_port: PortId,
    /// The channel on the sending chain.
    pub source_channel: ChannelId,
    /// The port on the receiving chain.
    pub destination_port: PortId,
    /// The channel on the receiving chain.
    pub destination_channel: ChannelId,
    /// The opaque payload.
    pub data: Vec<u8>,
    /// The height of the receiving chain at which the packet times out.
    pub timeout_height: TimeoutHeight,
    /// The time of the receiving chain, in nanoseconds, at which the packet times out; zero when
    /// it does not time out by time.
    pub timeout_timestamp: u64,
}

/// What a packet holds.
#[verifier::ext_equal]
pub struct PacketView {
    pub sequence: u64,
    pub source_port: Seq<char>,
    pub source_channel: Seq<char>,
    pub destination_port: Seq<char>,
    pub destination_channel: Seq<char>,
    pub data: Seq<u8>,
    pub timeout_height: RawHeight,
    pub timeout_timestamp: u64,
}

impl View for Packet {
    type V = PacketView;

    open spec fn view(&self) -> PacketView {
        PacketView {
            sequence: self.sequence,
            source_port: self.source_port@,
            source_channel: self.source_channel@,
            destination_port: self.destination_port@,
            destination_channel: self.destination_channel@,
            data: self.data@,
            timeout_height: crate::ibc::height::raw_timeout(self.timeout_height),
            timeout_timestamp: self.timeout_timestamp,
        }
    }
}

/// A packet is known by its number, its two ends, its payload and its two timeouts.
pub proof fn law_packet_is_its_parts(packet: Packet)
    ensures
        packet@.sequence == packet.sequence,
        packet@.source_port == packet.source_port@,
        packet@.source_channel == packet.source_channel@,
        packet@.destination_port == packet.destination_port@,
        packet@.destination_channel == packet.destination_channel@,
        packet@.data == packet.data@,
        packet@.timeout_height == (match packet.timeout_height {
            TimeoutHeight::Never => RawHeight { revision_number: 0, revision_height: 0 },
            TimeoutHeight::At(height) => height@,
        }),
        packet@.timeout_timestamp == packet.timeout_timestamp,
{
}

} // verus!
