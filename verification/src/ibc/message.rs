//! The protobuf encodings of the messages that the relayer sends.
use crate::ibc::any::{Any, AnyView};
use crate::ibc::height::RawHeight;
use crate::ibc::packet::{Packet, PacketView};
use vstd::prelude::*;

verus! {

/// A packet as it is written on the wire.
pub struct RawPacket {
    pub sequence: u64,
    pub source_port: String,
    pub source_channel: String,
    pub destination_port: String,
    pub destination_channel: String,
    pub data: Vec<u8>,
    pub timeout_height: RawHeight,
    pub timeout_timestamp: u64,
}

impl View for RawPacket {
    type V = PacketView;

    open spec fn view(&self) -> PacketView {
        PacketView {
            sequence: self.sequence,
            source_port: self.source_port@,
            source_channel: self.source_channel@,
            destination_port: self.destination_port@,
            destination_channel: self.destination_channel@,
            data: self.data@,
            timeout_height: self.timeout_height,
            timeout_timestamp: self.timeout_timestamp,
        }
    }
}

impl Packet {
    /// The packet as it is written on the wire.
    pub fn into_raw(self) -> (raw: RawPacket)
        ensures
            raw@ == self@,
    {
        RawPacket {
            sequence: self.sequence,
            source_port: self.source_port.as_str().to_string(),
            source_channel: self.source_channel.as_str().to_string(),
            destination_port: self.destination_port.as_str().to_string(),
            destination_channel: self.destination_channel.as_str().to_string(),
            data: self.data,
            timeout_height: self.timeout_height.raw(),
            timeout_timestamp: self.timeout_timestamp,
        }
    }
}

/// The protobuf encoding of a message that hands over a packet.
pub uninterp spec fn recv_packet_bytes(
    packet: PacketView,
    proof: Seq<u8>,
    proof_height: RawHeight,
    signer: Seq<char>,
) -> Seq<u8>;

/// The protobuf encoding of a message that acknowledges a packet.
pub uninterp spec fn acknowledgement_bytes(
    packet: PacketView,
    acknowledgement: Seq<u8>,
    proof: Seq<u8>,
    proof_height: RawHeight,
    signer: Seq<char>,
) -> Seq<u8>;

/// The protobuf encoding of a message that times a packet out.
pub uninterp spec fn timeout_bytes(
    packet: PacketView,
    proof_unreceived: Seq<u8>,
    proof_height: RawHeight,
    next_sequence_recv: u64,
    signer: Seq<char>,
) -> Seq<u8>;

/// The protobuf encoding of a message that times a packet out on a closed channel.
pub uninterp spec fn timeout_on_close_bytes(
    packet: PacketView,
    proof_unreceived: Seq<u8>,
    proof_close: Seq<u8>,
    proof_height: RawHeight,
    next_sequence_recv: u64,
    signer: Seq<char>,
) -> Seq<u8>;

/// The protobuf encoding of a message that updates a client.
pub uninterp spec fn update_client_bytes(
    client_id: Seq<char>,
    header: AnyView,
    signer: Seq<char>,
) -> Seq<u8>;

/// The protobuf encoding of a message that creates a client.
pub uninterp spec fn create_client_bytes(
    client_state: AnyView,
    consensus_state: AnyView,
    signer: Seq<char>,
) -> Seq<u8>;

/// The protobuf encoding of a message that opens a connection.
pub uninterp spec fn connection_open_init_bytes(
    client_id: Seq<char>,
    counterparty_client_id: Seq<char>,
    counterparty_connection_id: Seq<char>,
    counterparty_prefix: Seq<u8>,
    version_identifier: Seq<char>,
    version_features: Seq<Seq<char>>,
    delay_period: u64,
    signer: Seq<char>,
) -> Seq<u8>;

/// The protobuf encoding of a message that opens a channel.
pub uninterp spec fn channel_open_init_bytes(
    port_id: Seq<char>,
    state: i32,
    ordering: i32,
    counterparty_port: Seq<char>,
    counterparty_channel: Seq<char>,
    connection_hops: Seq<Seq<char>>,
    version: Seq<char>,
    signer: Seq<char>,
) -> Seq<u8>;

/// The texts of some strings.
pub open spec fn texts(strings: Seq<String>) -> Seq<Seq<char>> {
    strings.map_values(|s: String| s@)
}

/// `prost`'s `encode_to_vec` on `ibc_proto`'s `MsgRecvPacket`: the encoding is determined by the
/// packet, its proof and the signer.
#[verifier::external_body]
pub(crate) fn encode_recv_packet(
    p: RawPacket,
    proof: Vec<u8>,
    height: RawHeight,
    signer: String,
) -> (bytes: Vec<u8>)
    ensures
        bytes@ == recv_packet_bytes(p@, proof@, height, signer@),
{
    let timeout_height = Some(ibc_proto::ibc::core::client::v1::Height {
        revision_number: p.timeout_height.revision_number, revision_height: p.timeout_height.revision_height });
    let packet = ibc_proto::ibc::core::channel::v1::Packet { sequence: p.sequence, source_port: p.source_port,
        source_channel: p.source_channel, destination_port: p.destination_port,
        destination_channel: p.destination_channel, data: p.data, timeout_height,
        timeout_timestamp: p.timeout_timestamp };
    let proof_height = Some(ibc_proto::ibc::core::client::v1::Height {
        revision_number: height.revision_number, revision_height: height.revision_height });
    prost::Message::encode_to_vec(&ibc_proto::ibc::core::channel::v1::MsgRecvPacket {
        packet: Some(packet), proof_commitment: proof, proof_height, signer })
}

/// `prost`'s `encode_to_vec` on `ibc_proto`'s `MsgAcknowledgement`: the encoding is determined by
/// the packet, its acknowledgement, the proof and the signer.
#[verifier::external_body]
pub(crate) fn encode_acknowledgement(
    p: RawPacket,
    acknowledgement: Vec<u8>,
    proof: Vec<u8>,
    height: RawHeight,
    signer: String,
) -> (bytes: Vec<u8>)
    ensures
        bytes@ == acknowledgement_bytes(p@, acknowledgement@, proof@, height, signer@),
{
    let timeout_height = Some(ibc_proto::ibc::core::client::v1::Height {
        revision_number: p.timeout_height.revision_number, revision_height: p.timeout_height.revision_height });
    let packet = ibc_proto::ibc::core::channel::v1::Packet { sequence: p.sequence, source_port: p.source_port,
        source_channel: p.source_channel, destination_port: p.destination_port,
        destination_channel: p.destination_channel, data: p.data, timeout_height,
        timeout_timestamp: p.timeout_timestamp };
    let proof_height = Some(ibc_proto::ibc::core::client::v1::Height {
        revision_number: height.revision_number, revision_height: height.revision_height });
    prost::Message::encode_to_vec(&ibc_proto::ibc::core::channel::v1::MsgAcknowledgement {
        packet: Some(packet), acknowledgement, proof_acked: proof, proof_height, signer })
}

/// `prost`'s `encode_to_vec` on `ibc_proto`'s `MsgTimeout`: the encoding is determined by the
/// packet, the proof, the next sequence to be received and the signer.
#[verifier::external_body]
pub(crate) fn encode_timeout(
    p: RawPacket,
    proof_unreceived: Vec<u8>,
    height: RawHeight,
    next_sequence_recv: u64,
    signer: String,
) -> (bytes: Vec<u8>)
    ensures
        bytes@ == timeout_bytes(p@, proof_unreceived@, height, next_sequence_recv, signer@),
{
    let timeout_height = Some(ibc_proto::ibc::core::client::v1::Height {
        revision_number: p.timeout_height.revision_number, revision_height: p.timeout_height.revision_height });
    let packet = ibc_proto::ibc::core::channel::v1::Packet { sequence: p.sequence, source_port: p.source_port,
        source_channel: p.source_channel, destination_port: p.destination_port,
        destination_channel: p.destination_channel, data: p.data, timeout_height,
        timeout_timestamp: p.timeout_timestamp };
    let proof_height = Some(ibc_proto::ibc::core::client::v1::Height {
        revision_number: height.revision_number, revision_height: height.revision_height });
    prost::Message::encode_to_vec(&ibc_proto::ibc::core::channel::v1::MsgTimeout {
        packet: Some(packet), proof_unreceived, proof_height, next_sequence_recv, signer })
}

/// `prost`'s `encode_to_vec` on `ibc_proto`'s `MsgTimeoutOnClose`: the encoding is determined by
/// the packet, the two proofs, the next sequence to be received and the signer.
#[verifier::external_body]
pub(crate) fn encode_timeout_on_close(
    p: RawPacket,
    proof_unreceived: Vec<u8>,
    proof_close: Vec<u8>,
    height: RawHeight,
    next_sequence_recv: u64,
    signer: String,
) -> (bytes: Vec<u8>)
    ensures
        bytes@ == timeout_on_close_bytes(
            p@,
            proof_unreceived@,
            proof_close@,
            height,
            next_sequence_recv,
            signer@,
        ),
{
    let timeout_height = Some(ibc_proto::ibc::core::client::v1::Height {
        revision_number: p.timeout_height.revision_number, revision_height: p.timeout_height.revision_height });
    let packet = ibc_proto::ibc::core::channel::v1::Packet { sequence: p.sequence, source_port: p.source_port,
        source_channel: p.source_channel, destination_port: p.destination_port,
        destination_channel: p.destination_channel, data: p.data, timeout_height,
        timeout_timestamp: p.timeout_timestamp };
    let proof_height = Some(ibc_proto::ibc::core::client::v1::Height {
        revision_number: height.revision_number, revision_height: height.revision_height });
    prost::Message::encode_to_vec(&ibc_proto::ibc::core::channel::v1::MsgTimeoutOnClose {
        packet: Some(packet), proof_unreceived, proof_close, proof_height, next_sequence_recv, signer })
}

/// `prost`'s `encode_to_vec` on `ibc_proto`'s `MsgUpdateClient`: the encoding is determined by the
/// client, the header and the signer.
#[verifier::external_body]
pub(crate) fn encode_update_client(client_id: String, header: Any, signer: String) -> (bytes: Vec<
    u8,
>)
    ensures
        bytes@ == update_client_bytes(client_id@, header@, signer@),
{
    let header = Some(ibc_proto::google::protobuf::Any {
        type_url: header.type_url,
        value: header.value,
    });
    let msg = ibc_proto::ibc::core::client::v1::MsgUpdateClient { client_id, header, signer };
    prost::Message::encode_to_vec(&msg)
}

/// `prost`'s `encode_to_vec` on `ibc_proto`'s `MsgCreateClient`: the encoding is determined by the
/// two states and the signer.
#[verifier::external_body]
pub(crate) fn encode_create_client(client: Any, consensus: Any, signer: String) -> (bytes: Vec<u8>)
    ensures
        bytes@ == create_client_bytes(client@, consensus@, signer@),
{
    let client_state = Some(ibc_proto::google::protobuf::Any {
        type_url: client.type_url,
        value: client.value,
    });
    let consensus_state = Some(ibc_proto::google::protobuf::Any {
        type_url: consensus.type_url,
        value: consensus.value,
    });
    prost::Message::encode_to_vec(&ibc_proto::ibc::core::client::v1::MsgCreateClient {
        client_state, consensus_state, signer })
}

/// The version of a connection.
pub struct ConnectionVersion {
    pub identifier: String,
    pub features: Vec<String>,
}

/// `Version::default` of `ibc_relayer_types`' connections: version 1, for ordered and for unordered
/// channels.
#[verifier::external_body]
pub(crate) fn default_connection_version() -> (version: ConnectionVersion)
    ensures
        version.identifier@ == "1"@,
        texts(version.features@) == seq!["ORDER_ORDERED"@, "ORDER_UNORDERED"@],
{
    let version = ibc_relayer_types::core::ics03_connection::version::Version::default();
    let version = ibc_proto::ibc::core::connection::v1::Version::from(version);
    ConnectionVersion { identifier: version.identifier, features: version.features }
}

/// `prost`'s `encode_to_vec` on `ibc_proto`'s `MsgConnectionOpenInit`: the encoding is determined by
/// the client, the counterparty's client, connection and prefix, the version, the delay and the
/// signer.
#[verifier::external_body]
pub(crate) fn encode_connection_open_init(
    client_id: String,
    counterparty_client_id: String,
    connection_id: String,
    key_prefix: Vec<u8>,
    version: ConnectionVersion,
    delay_period: u64,
    signer: String,
) -> (bytes: Vec<u8>)
    ensures
        bytes@ == connection_open_init_bytes(
            client_id@,
            counterparty_client_id@,
            connection_id@,
            key_prefix@,
            version.identifier@,
            texts(version.features@),
            delay_period,
            signer@,
        ),
{
    let prefix = Some(ibc_proto::ibc::core::commitment::v1::MerklePrefix { key_prefix });
    let counterparty = Some(ibc_proto::ibc::core::connection::v1::Counterparty {
        client_id: counterparty_client_id,
        connection_id,
        prefix,
    });
    let version = Some(ibc_proto::ibc::core::connection::v1::Version {
        identifier: version.identifier,
        features: version.features,
    });
    prost::Message::encode_to_vec(&ibc_proto::ibc::core::connection::v1::MsgConnectionOpenInit {
        client_id, counterparty, version, delay_period, signer })
}

/// A channel end that a handshake begins with, as it is written on the wire.
pub struct NewChannel {
    pub state: i32,
    pub ordering: i32,
    pub counterparty_port: String,
    pub counterparty_channel: String,
    pub connection_hops: Vec<String>,
    pub version: String,
}

/// `prost`'s `encode_to_vec` on `ibc_proto`'s `MsgChannelOpenInit`: the encoding is determined by
/// the port, the channel's state, ordering, counterparty, connections and version, and the signer.
#[verifier::external_body]
pub(crate) fn encode_channel_open_init(port_id: String, new: NewChannel, signer: String) -> (bytes:
    Vec<u8>)
    ensures
        bytes@ == channel_open_init_bytes(
            port_id@,
            new.state,
            new.ordering,
            new.counterparty_port@,
            new.counterparty_channel@,
            texts(new.connection_hops@),
            new.version@,
            signer@,
        ),
{
    let counterparty = Some(ibc_proto::ibc::core::channel::v1::Counterparty {
        port_id: new.counterparty_port,
        channel_id: new.counterparty_channel,
    });
    let channel = Some(ibc_proto::ibc::core::channel::v1::Channel {
        state: new.state,
        ordering: new.ordering,
        counterparty,
        connection_hops: new.connection_hops,
        version: new.version,
    });
    prost::Message::encode_to_vec(&ibc_proto::ibc::core::channel::v1::MsgChannelOpenInit {
        port_id, channel, signer })
}

/// On the wire a packet has its own parts.
pub proof fn law_packet_on_the_wire_is_its_parts(packet: RawPacket)
    ensures
        packet@.sequence == packet.sequence,
        packet@.source_port == packet.source_port@,
        packet@.source_channel == packet.source_channel@,
        packet@.destination_port == packet.destination_port@,
        packet@.destination_channel == packet.destination_channel@,
        packet@.data == packet.data@,
        packet@.timeout_height == packet.timeout_height,
        packet@.timeout_timestamp == packet.timeout_timestamp,
{
}

/// Texts keep their number and their order.
pub proof fn law_texts_keep_their_order(strings: Seq<String>)
    ensures
        texts(strings).len() == strings.len(),
        forall|i: int| 0 <= i < strings.len() ==> #[trigger] texts(strings)[i] == strings[i]@,
{
}

} // verus!
