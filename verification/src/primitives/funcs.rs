//! Packets as chains report them, and the keys under which chains store their state.
use crate::ibc::height::{is_raw_timeout, TimeoutHeight};
use crate::ibc::identifier::{is_channel_id, is_port_id, ChannelId, PortId};
use crate::ibc::packet::{Packet, PacketView};
use crate::packets::types::PacketInfo;
use vstd::prelude::*;
use vstd::utf8::{encode_utf8, encode_utf8_decode_utf8};

verus! {

/// Whether what a chain reports of a packet makes a packet: its identifiers and its timeout height
/// are valid.
pub open spec fn is_packet(info: PacketInfo) -> bool {
    &&& is_port_id(info.source_port@)
    &&& is_channel_id(info.source_channel@)
    &&& is_port_id(info.destination_port@)
    &&& is_channel_id(info.destination_channel@)
    &&& is_raw_timeout(info.timeout_height)
}

/// The packet that a chain reports.
pub open spec fn packet_of(info: PacketInfo) -> PacketView {
    PacketView {
        sequence: info.sequence,
        source_port: info.source_port@,
        source_channel: info.source_channel@,
        destination_port: info.destination_port@,
        destination_channel: info.destination_channel@,
        data: info.data@,
        timeout_height: info.timeout_height,
        timeout_timestamp: info.timeout_timestamp,
    }
}

/// The packet that a chain reports.
pub fn packet_info_to_packet(packet_info: &PacketInfo) -> (packet: Packet)
    requires
        is_packet(*packet_info),
    ensures
        packet@ == packet_of(*packet_info),
{
    let source_port = match PortId::from_str(packet_info.source_port.as_str()) {
        Ok(id) => id,
        Err(_) => vstd::pervasive::unreached(),
    };
    let source_channel = match ChannelId::from_str(packet_info.source_channel.as_str()) {
        Ok(id) => id,
        Err(_) => vstd::pervasive::unreached(),
    };
    let destination_port = match PortId::from_str(packet_info.destination_port.as_str()) {
        Ok(id) => id,
        Err(_) => vstd::pervasive::unreached(),
    };
    let destination_channel = match ChannelId::from_str(packet_info.destination_channel.as_str()) {
        Ok(id) => id,
        Err(_) => vstd::pervasive::unreached(),
    };
    let timeout_height = match TimeoutHeight::from_raw(packet_info.timeout_height) {
        Ok(timeout) => timeout,
        Err(_) => vstd::pervasive::unreached(),
    };
    let packet = Packet {
        sequence: packet_info.sequence,
        source_port,
        source_channel,
        destination_port,
        destination_channel,
        data: packet_info.data.clone(),
        timeout_height,
        timeout_timestamp: packet_info.timeout_timestamp,
    };
    assert(packet@ =~= packet_of(*packet_info));
    packet
}

/// The packet that a chain reports, where it is one.
pub fn try_packet_info_to_packet(packet_info: &PacketInfo) -> (packet: Option<Packet>)
    ensures
        packet is Some <==> is_packet(*packet_info),
        packet is Some ==> packet->0@ == packet_of(*packet_info),
{
    if PortId::from_str(packet_info.source_port.as_str()).is_ok()
        && ChannelId::from_str(packet_info.source_channel.as_str()).is_ok()
        && PortId::from_str(packet_info.destination_port.as_str()).is_ok()
        && ChannelId::from_str(packet_info.destination_channel.as_str()).is_ok()
        && TimeoutHeight::from_raw(packet_info.timeout_height).is_ok() {
        Some(packet_info_to_packet(packet_info))
    } else {
        None
    }
}

/// The store key of a path: the chain's prefix, then the path.
pub open spec fn store_key(prefix: Seq<u8>, path: Seq<char>) -> Seq<u8> {
    prefix + encode_utf8(path)
}

/// Puts a chain's prefix before a path.
pub fn apply_prefix(mut commitment_prefix: Vec<u8>, path: String) -> (key: Vec<u8>)
    ensures
        key@ == store_key(commitment_prefix@, path@),
{
    let bytes = path.as_str().as_bytes();
    commitment_prefix.extend_from_slice(bytes);
    commitment_prefix
}

/// Under one prefix, different paths have different keys.
pub proof fn law_store_key_is_injective(prefix: Seq<u8>, path: Seq<char>, other: Seq<char>)
    requires
        store_key(prefix, path) == store_key(prefix, other),
    ensures
        path == other,
{
    let n = prefix.len() as int;
    assert(encode_utf8(path) =~= store_key(prefix, path).skip(n));
    assert(encode_utf8(other) =~= store_key(prefix, other).skip(n));
    encode_utf8_decode_utf8(path);
    encode_utf8_decode_utf8(other);
}

/// A packet has what the chain reported of it, each part in its place.
pub proof fn law_packet_has_what_was_reported(info: PacketInfo)
    ensures
        packet_of(info).sequence == info.sequence,
        packet_of(info).source_port == info.source_port@,
        packet_of(info).source_channel == info.source_channel@,
        packet_of(info).destination_port == info.destination_port@,
        packet_of(info).destination_channel == info.destination_channel@,
        packet_of(info).data == info.data@,
        packet_of(info).timeout_height == info.timeout_height,
        packet_of(info).timeout_timestamp == info.timeout_timestamp,
{
}

/// What a chain reports is a packet exactly where its four identifiers are valid and its timeout
/// height is not a zero block in a later revision.
pub proof fn law_reports_with_valid_parts_are_packets(info: PacketInfo)
    ensures
        is_packet(info) <==> {
            &&& is_port_id(info.source_port@)
            &&& is_channel_id(info.source_channel@)
            &&& is_port_id(info.destination_port@)
            &&& is_channel_id(info.destination_channel@)
            &&& info.timeout_height.revision_height > 0 || info.timeout_height.revision_number == 0
        },
{
}

/// A store key is the prefix followed by the bytes of the path, and nothing else.
pub proof fn law_store_key_is_prefix_and_path(prefix: Seq<u8>, path: Seq<char>)
    ensures
        store_key(prefix, path).len() == prefix.len() + encode_utf8(path).len(),
        store_key(prefix, path).take(prefix.len() as int) == prefix,
        store_key(prefix, path).skip(prefix.len() as int) == encode_utf8(path),
{
    assert(store_key(prefix, path).take(prefix.len() as int) =~= prefix);
    assert(store_key(prefix, path).skip(prefix.len() as int) =~= encode_utf8(path));
}

} // verus!
