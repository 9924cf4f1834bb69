//! The messages that carry packets, acknowledgements and timeouts to a chain.
use crate::error::Error;
use crate::ibc::any::{Any, AnyView};
use crate::ibc::channel::{ChannelEnd, Order, State};
use crate::ibc::height::{Height, RawHeight};
use crate::ibc::message::{
    acknowledgement_bytes, encode_acknowledgement, encode_recv_packet, encode_timeout,
    encode_timeout_on_close, recv_packet_bytes, timeout_bytes, timeout_on_close_bytes,
};
use crate::ibc::packet::{Packet, PacketView};
use crate::ibc::text::decimal;
use crate::packets::utils::{get_key_path, key_path, KeyPathType};
use crate::primitives::funcs::{apply_prefix, store_key};
use vstd::prelude::*;
use vstd::utf8::encode_utf8;

verus! {

/// A query for the proof of what a chain keeps, as of a height, under a key.
#[derive(Debug)]
pub struct ProofQuery {
    pub at: Height,
    pub key: Vec<u8>,
}

/// What a query for a proof asks for.
#[verifier::ext_equal]
pub struct ProofQueryView {
    pub at: RawHeight,
    pub key: Seq<u8>,
}

impl View for ProofQuery {
    type V = ProofQueryView;

    open spec fn view(&self) -> ProofQueryView {
        ProofQueryView { at: self.at@, key: self.key@ }
    }
}

/// The state of the sink that proves that a packet has not been received: the next sequence to be
/// received on an ordered channel, the missing receipt on any other.
pub open spec fn unreceived_key(ordering: Order) -> KeyPathType {
    if ordering == Order::Ordered {
        KeyPathType::SeqRecv
    } else {
        KeyPathType::ReceiptPath
    }
}

/// The message that times a packet out.
pub open spec fn timeout_message(
    packet: PacketView,
    proof_unreceived: Seq<u8>,
    proof_height: RawHeight,
    next_sequence_recv: u64,
    signer: Seq<char>,
) -> AnyView {
    AnyView {
        type_url: "/ibc.core.channel.v1.MsgTimeout"@,
        value: timeout_bytes(packet, proof_unreceived, proof_height, next_sequence_recv, signer),
    }
}

/// The message that times a packet out on a closed channel.
pub open spec fn timeout_on_close_message(
    packet: PacketView,
    proof_unreceived: Seq<u8>,
    proof_closed: Seq<u8>,
    proof_height: RawHeight,
    next_sequence_recv: u64,
    signer: Seq<char>,
) -> AnyView {
    AnyView {
        type_url: "/ibc.core.channel.v1.MsgTimeoutOnClose"@,
        value: timeout_on_close_bytes(
            packet,
            proof_unreceived,
            proof_closed,
            proof_height,
            next_sequence_recv,
            signer,
        ),
    }
}

/// The message that hands a packet over.
pub open spec fn recv_message(
    packet: PacketView,
    proof: Seq<u8>,
    proof_height: RawHeight,
    signer: Seq<char>,
) -> AnyView {
    AnyView {
        type_url: "/ibc.core.channel.v1.MsgRecvPacket"@,
        value: recv_packet_bytes(packet, proof, proof_height, signer),
    }
}

/// The message that acknowledges a packet.
pub open spec fn ack_message(
    packet: PacketView,
    ack: Seq<u8>,
    proof: Seq<u8>,
    proof_height: RawHeight,
    signer: Seq<char>,
) -> AnyView {
    AnyView {
        type_url: "/ibc.core.channel.v1.MsgAcknowledgement"@,
        value: acknowledgement_bytes(packet, ack, proof, proof_height, signer),
    }
}

/// A timeout message in the making. The sink is to be asked for the proof that the packet has not
/// been received.
#[derive(Debug)]
pub struct TimeoutMessage {
    query: ProofQuery,
    packet: Packet,
    closed: bool,
    prefix: Vec<u8>,
    next_sequence_recv: u64,
    signer: String,
}

/// What a timeout message in the making holds.
#[verifier::ext_equal]
pub struct TimeoutMessageView {
    /// The query for the proof, to be put to the sink.
    pub query: ProofQueryView,
    /// The packet that has timed out.
    pub packet: PacketView,
    /// Whether the sink has closed the channel.
    pub closed: bool,
    /// The prefix of the sink's keys.
    pub prefix: Seq<u8>,
    /// The next sequence that the sink receives.
    pub next_sequence_recv: u64,
    /// The account that signs the message.
    pub signer: Seq<char>,
}

impl View for TimeoutMessage {
    type V = TimeoutMessageView;

    closed spec fn view(&self) -> TimeoutMessageView {
        TimeoutMessageView {
            query: self.query@,
            packet: self.packet@,
            closed: self.closed,
            prefix: self.prefix@,
            next_sequence_recv: self.next_sequence_recv,
            signer: self.signer@,
        }
    }
}

/// A timeout message on a closed channel in the making. The sink is to be asked for the proof that
/// the channel is closed.
#[derive(Debug)]
pub struct TimeoutOnCloseMessage {
    query: ProofQuery,
    packet: Packet,
    proof_unreceived: Vec<u8>,
    next_sequence_recv: u64,
    signer: String,
}

/// What a timeout message on a closed channel in the making holds.
#[verifier::ext_equal]
pub struct TimeoutOnCloseMessageView {
    /// The query for the proof, to be put to the sink.
    pub query: ProofQueryView,
    /// The packet that has timed out.
    pub packet: PacketView,
    /// The proof that the packet has not been received.
    pub proof_unreceived: Seq<u8>,
    /// The next sequence that the sink receives.
    pub next_sequence_recv: u64,
    /// The account that signs the message.
    pub signer: Seq<char>,
}

impl View for TimeoutOnCloseMessage {
    type V = TimeoutOnCloseMessageView;

    closed spec fn view(&self) -> TimeoutOnCloseMessageView {
        TimeoutOnCloseMessageView {
            query: self.query@,
            packet: self.packet@,
            proof_unreceived: self.proof_unreceived@,
            next_sequence_recv: self.next_sequence_recv,
            signer: self.signer@,
        }
    }
}

/// A timeout message after the first proof.
#[derive(Debug)]
pub enum TimeoutStep {
    /// The message is ready.
    Ready(Any),
    /// The channel is closed, which is to be proved too.
    ProveClosed(TimeoutOnCloseMessage),
}

/// Begins the message that times a packet out at the source, which signs it: the proof that the
/// sink has not received the packet comes first.
pub fn construct_timeout_message(
    source_account: String,
    sink_prefix: Vec<u8>,
    sink_channel_end: &ChannelEnd,
    packet: Packet,
    next_sequence_recv: u64,
    proof_height: Height,
) -> (message: TimeoutMessage)
    ensures
        message@ == (TimeoutMessageView {
            query: ProofQueryView {
                at: proof_height@,
                key: store_key(
                    sink_prefix@,
                    key_path(unreceived_key(sink_channel_end.ordering), packet@),
                ),
            },
            packet: packet@,
            closed: sink_channel_end.state == State::Closed,
            prefix: sink_prefix@,
            next_sequence_recv,
            signer: source_account@,
        }),
{
    let kind = match sink_channel_end.ordering {
        Order::Ordered => KeyPathType::SeqRecv,
        _ => KeyPathType::ReceiptPath,
    };
    let closed: bool = match sink_channel_end.state {
        State::Closed => true,
        _ => false,
    };
    let key = apply_prefix(sink_prefix.clone(), get_key_path(kind, &packet));
    TimeoutMessage {
        query: ProofQuery { at: proof_height, key },
        packet,
        closed,
        prefix: sink_prefix,
        next_sequence_recv,
        signer: source_account,
    }
}

impl TimeoutMessage {
    /// The query for the proof.
    pub fn query(&self) -> (query: &ProofQuery)
        ensures
            query@ == self@.query,
    {
        &self.query
    }

    /// Takes in the proof that the packet has not been received. An empty proof is refused.
    pub fn on_proof(self, proof_unreceived: Vec<u8>) -> (next: Result<TimeoutStep, Error>)
        ensures
            next is Err <==> proof_unreceived@.len() == 0,
            next is Err ==> next->Err_0 == Error::EmptyProof,
            next is Ok ==> (next->Ok_0 is ProveClosed <==> self@.closed),
            next is Ok && !self@.closed ==> next->Ok_0->Ready_0@ == timeout_message(
                self@.packet,
                proof_unreceived@,
                self@.query.at,
                self@.next_sequence_recv,
                self@.signer,
            ),
            next is Ok && self@.closed ==> next->Ok_0->ProveClosed_0@ == (
            TimeoutOnCloseMessageView {
                query: ProofQueryView {
                    at: self@.query.at,
                    key: store_key(
                        self@.prefix,
                        key_path(KeyPathType::ChannelPath, self@.packet),
                    ),
                },
                packet: self@.packet,
                proof_unreceived: proof_unreceived@,
                next_sequence_recv: self@.next_sequence_recv,
                signer: self@.signer,
            }),
    {
        if proof_unreceived.len() == 0 {
            Err(Error::EmptyProof)
        } else if self.closed {
            let path = get_key_path(KeyPathType::ChannelPath, &self.packet);
            let key = apply_prefix(self.prefix, path);
            Ok(
                TimeoutStep::ProveClosed(
                    TimeoutOnCloseMessage {
                        query: ProofQuery { at: self.query.at, key },
                        packet: self.packet,
                        proof_unreceived,
                        next_sequence_recv: self.next_sequence_recv,
                        signer: self.signer,
                    },
                ),
            )
        } else {
            let value = encode_timeout(
                self.packet.into_raw(),
                proof_unreceived,
                self.query.at.raw(),
                self.next_sequence_recv,
                self.signer,
            );
            let type_url = "/ibc.core.channel.v1.MsgTimeout".to_string();
            Ok(TimeoutStep::Ready(Any { type_url, value }))
        }
    }
}

impl TimeoutOnCloseMessage {
    /// The query for the proof.
    pub fn query(&self) -> (query: &ProofQuery)
        ensures
            query@ == self@.query,
    {
        &self.query
    }

    /// Takes in the proof that the channel is closed. An empty proof is refused.
    pub fn on_proof(self, proof_closed: Vec<u8>) -> (message: Result<Any, Error>)
        ensures
            message is Err <==> proof_closed@.len() == 0,
            message is Err ==> message->Err_0 == Error::EmptyProof,
            message is Ok ==> message->Ok_0@ == timeout_on_close_message(
                self@.packet,
                self@.proof_unreceived,
                proof_closed@,
                self@.query.at,
                self@.next_sequence_recv,
                self@.signer,
            ),
    {
        if proof_closed.len() == 0 {
            return Err(Error::EmptyProof);
        }
        let value = encode_timeout_on_close(
            self.packet.into_raw(),
            self.proof_unreceived,
            proof_closed,
            self.query.at.raw(),
            self.next_sequence_recv,
            self.signer,
        );
        let type_url = "/ibc.core.channel.v1.MsgTimeoutOnClose".to_string();
        Ok(Any { type_url, value })
    }
}

/// A message that hands a packet over in the making. The source is to be asked for the proof.
#[derive(Debug)]
pub struct RecvMessage {
    query: ProofQuery,
    packet: Packet,
    signer: String,
}

/// What a message that hands a packet over in the making holds.
#[verifier::ext_equal]
pub struct RecvMessageView {
    /// The query for the proof, to be put to the source.
    pub query: ProofQueryView,
    /// The packet that is handed over.
    pub packet: PacketView,
    /// The account that signs the message.
    pub signer: Seq<char>,
}

impl View for RecvMessage {
    type V = RecvMessageView;

    closed spec fn view(&self) -> RecvMessageView {
        RecvMessageView {
            query: self.query@,
            packet: self.packet@,
            signer: self.signer@,
        }
    }
}

impl RecvMessage {
    /// The query for the proof.
    pub fn query(&self) -> (query: &ProofQuery)
        ensures
            query@ == self@.query,
    {
        &self.query
    }

    /// Takes in the proof that the source has sent the packet.
    pub fn on_proof(self, proof: Vec<u8>) -> (message: Any)
        requires
            proof@.len() > 0,
        ensures
            message@ == recv_message(self@.packet, proof@, self@.query.at, self@.signer),
    {
        let value = encode_recv_packet(
            self.packet.into_raw(),
            proof,
            self.query.at.raw(),
            self.signer,
        );
        Any { type_url: "/ibc.core.channel.v1.MsgRecvPacket".to_string(), value }
    }
}

/// Begins the message that hands a packet over to the sink, which signs it: the source has to prove
/// its commitment to the packet.
pub fn construct_recv_message(
    source_prefix: Vec<u8>,
    sink_account: String,
    packet: Packet,
    proof_height: Height,
) -> (message: RecvMessage)
    ensures
        message@ == (RecvMessageView {
            query: ProofQueryView {
                at: proof_height@,
                key: store_key(
                    source_prefix@,
                    key_path(KeyPathType::CommitmentPath, packet@),
                ),
            },
            packet: packet@,
            signer: sink_account@,
        }),
{
    let path = get_key_path(KeyPathType::CommitmentPath, &packet);
    let key = apply_prefix(source_prefix, path);
    RecvMessage { query: ProofQuery { at: proof_height, key }, packet, signer: sink_account }
}

/// An acknowledgement message in the making. The source is to be asked for the proof.
#[derive(Debug)]
pub struct AckMessage {
    query: ProofQuery,
    packet: Packet,
    ack: Vec<u8>,
    signer: String,
}

/// What an acknowledgement message in the making holds.
#[verifier::ext_equal]
pub struct AckMessageView {
    /// The query for the proof, to be put to the source.
    pub query: ProofQueryView,
    /// The packet that is acknowledged.
    pub packet: PacketView,
    /// The acknowledgement.
    pub ack: Seq<u8>,
    /// The account that signs the message.
    pub signer: Seq<char>,
}

impl View for AckMessage {
    type V = AckMessageView;

    closed spec fn view(&self) -> AckMessageView {
        AckMessageView {
            query: self.query@,
            packet: self.packet@,
            ack: self.ack@,
            signer: self.signer@,
        }
    }
}

impl AckMessage {
    /// The query for the proof.
    pub fn query(&self) -> (query: &ProofQuery)
        ensures
            query@ == self@.query,
    {
        &self.query
    }

    /// Takes in the proof that the source has written the acknowledgement.
    pub fn on_proof(self, proof: Vec<u8>) -> (message: Any)
        requires
            proof@.len() > 0,
        ensures
            message@ == ack_message(
                self@.packet,
                self@.ack,
                proof@,
                self@.query.at,
                self@.signer,
            ),
    {
        let value = encode_acknowledgement(
            self.packet.into_raw(),
            self.ack,
            proof,
            self.query.at.raw(),
            self.signer,
        );
        Any { type_url: "/ibc.core.channel.v1.MsgAcknowledgement".to_string(), value }
    }
}

/// Begins the message that acknowledges a packet to the sink, which signs it: the source has to
/// prove that it has written the acknowledgement.
pub fn construct_ack_message(
    source_prefix: Vec<u8>,
    sink_account: String,
    packet: Packet,
    ack: Vec<u8>,
    proof_height: Height,
) -> (message: AckMessage)
    ensures
        message@ == (AckMessageView {
            query: ProofQueryView {
                at: proof_height@,
                key: store_key(source_prefix@, key_path(KeyPathType::AcksPath, packet@)),
            },
            packet: packet@,
            ack: ack@,
            signer: sink_account@,
        }),
{
    let path = get_key_path(KeyPathType::AcksPath, &packet);
    let key = apply_prefix(source_prefix, path);
    AckMessage { query: ProofQuery { at: proof_height, key }, packet, ack, signer: sink_account }
}

/// The proof of non-receipt and the proof of closing are asked for under different keys, for any
/// packet and any chain.
pub proof fn law_timeout_proofs_have_different_keys(
    prefix: Seq<u8>,
    ordering: Order,
    packet: PacketView,
)
    ensures
        store_key(prefix, key_path(unreceived_key(ordering), packet)) != store_key(
            prefix,
            key_path(KeyPathType::ChannelPath, packet),
        ),
{
    crate::packets::utils::law_key_paths_of_kinds_differ(
        unreceived_key(ordering),
        packet,
        KeyPathType::ChannelPath,
        packet,
    );
    if store_key(prefix, key_path(unreceived_key(ordering), packet)) == store_key(
        prefix,
        key_path(KeyPathType::ChannelPath, packet),
    ) {
        crate::primitives::funcs::law_store_key_is_injective(
            prefix,
            key_path(unreceived_key(ordering), packet),
            key_path(KeyPathType::ChannelPath, packet),
        );
    }
}

/// That a packet has not been received is proved, on an ordered channel, by the next sequence that
/// the destination expects, and on any other by the missing receipt of that packet.
pub proof fn law_non_receipt_is_proved_at_the_destination(
    prefix: Seq<u8>,
    ordering: Order,
    packet: PacketView,
)
    ensures
        ({
            let end = packet.destination_port + "/channels/"@ + packet.destination_channel;
            let path = if ordering is Ordered {
                "nextSequenceRecv/ports/"@ + end
            } else {
                "receipts/ports/"@ + end + "/sequences/"@ + decimal(packet.sequence as nat)
            };
            store_key(prefix, key_path(unreceived_key(ordering), packet)) == prefix + encode_utf8(
                path,
            )
        }),
{
    crate::packets::utils::law_key_path_is_that_of_the_keeping_side(packet);
    let end = packet.destination_port + "/channels/"@ + packet.destination_channel;
    assert("nextSequenceRecv/ports/"@ + packet.destination_port + "/channels/"@
        + packet.destination_channel =~= "nextSequenceRecv/ports/"@ + end);
    assert("receipts/ports/"@ + packet.destination_port + "/channels/"@
        + packet.destination_channel + "/sequences/"@ + decimal(packet.sequence as nat)
        =~= "receipts/ports/"@ + end + "/sequences/"@ + decimal(packet.sequence as nat));
}

/// The messages of a packet hold the packet, the proofs, their height, the next sequence and the
/// signer that they are made with, and have the types of the channel module.
pub proof fn law_packet_messages_hold_their_parts(
    packet: PacketView,
    proof: Seq<u8>,
    other_proof: Seq<u8>,
    proof_height: RawHeight,
    next_sequence_recv: u64,
    signer: Seq<char>,
)
    ensures
        timeout_message(packet, proof, proof_height, next_sequence_recv, signer).type_url
            == "/ibc.core.channel.v1.MsgTimeout"@,
        timeout_message(packet, proof, proof_height, next_sequence_recv, signer).value
            == timeout_bytes(packet, proof, proof_height, next_sequence_recv, signer),
        timeout_on_close_message(
            packet,
            proof,
            other_proof,
            proof_height,
            next_sequence_recv,
            signer,
        ).type_url == "/ibc.core.channel.v1.MsgTimeoutOnClose"@,
        timeout_on_close_message(
            packet,
            proof,
            other_proof,
            proof_height,
            next_sequence_recv,
            signer,
        ).value == timeout_on_close_bytes(
            packet,
            proof,
            other_proof,
            proof_height,
            next_sequence_recv,
            signer,
        ),
        recv_message(packet, proof, proof_height, signer).type_url
            == "/ibc.core.channel.v1.MsgRecvPacket"@,
        recv_message(packet, proof, proof_height, signer).value == recv_packet_bytes(
            packet,
            proof,
            proof_height,
            signer,
        ),
        ack_message(packet, other_proof, proof, proof_height, signer).type_url
            == "/ibc.core.channel.v1.MsgAcknowledgement"@,
        ack_message(packet, other_proof, proof, proof_height, signer).value
            == acknowledgement_bytes(packet, other_proof, proof, proof_height, signer),
{
}

/// A query for a proof is known by its height and its key.
pub proof fn law_proof_query_is_its_parts(query: ProofQuery)
    ensures
        query@.at == query.at@,
        query@.key == query.key@,
{
}

} // verus!
