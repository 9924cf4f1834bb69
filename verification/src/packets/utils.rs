//! Keys, proofs and messages for single packets.
use crate::ibc::identifier::no_separator;
use crate::ibc::packet::{Packet, PacketView};
use crate::ibc::path::{
    ack_path, acks_text, channel_end_path, channel_ends_text, commitment_path, commitments_text,
    receipt_path, receipts_text, seq_recv_path, seq_recvs_text,
};
use crate::ibc::text::{decimal, law_decimal_is_injective};
use vstd::prelude::*;

verus! {

/// The kinds of state that a chain keeps for a packet or its channel.
#[derive(Clone, Copy, Debug, PartialEq, Eq, Structural)]
pub enum KeyPathType {
    /// The next sequence that the receiving channel expects.
    SeqRecv,
    /// The receipt of the packet.
    ReceiptPath,
    /// The commitment to the packet.
    CommitmentPath,
    /// The acknowledgement of the packet.
    AcksPath,
    /// The receiving channel end.
    ChannelPath,
}

/// The path of a piece of state that belongs to a packet.
pub open spec fn key_path(kind: KeyPathType, packet: PacketView) -> Seq<char> {
    match kind {
        KeyPathType::SeqRecv => seq_recv_path(packet.destination_port, packet.destination_channel),
        KeyPathType::ReceiptPath => receipt_path(
            packet.destination_port,
            packet.destination_channel,
            packet.sequence,
        ),
        KeyPathType::CommitmentPath => commitment_path(
            packet.source_port,
            packet.source_channel,
            packet.sequence,
        ),
        KeyPathType::AcksPath => ack_path(
            packet.source_port,
            packet.source_channel,
            packet.sequence,
        ),
        KeyPathType::ChannelPath => channel_end_path(
            packet.destination_port,
            packet.destination_channel,
        ),
    }
}

/// The path under which the given state of a packet is stored.
pub fn get_key_path(key_path_type: KeyPathType, packet: &Packet) -> (path: String)
    ensures
        path@ == key_path(key_path_type, packet@),
{
    match key_path_type {
        KeyPathType::SeqRecv => seq_recvs_text(
            &packet.destination_port,
            &packet.destination_channel,
        ),
        KeyPathType::ReceiptPath => receipts_text(
            &packet.destination_port,
            &packet.destination_channel,
            packet.sequence,
        ),
        KeyPathType::CommitmentPath => commitments_text(
            &packet.source_port,
            &packet.source_channel,
            packet.sequence,
        ),
        KeyPathType::AcksPath => acks_text(
            &packet.source_port,
            &packet.source_channel,
            packet.sequence,
        ),
        KeyPathType::ChannelPath => channel_ends_text(
            &packet.destination_port,
            &packet.destination_channel,
        ),
    }
}

/// Whether the identifiers of a packet are free of path separators, as those of every packet are.
pub open spec fn plain_identifiers(packet: PacketView) -> bool {
    &&& no_separator(packet.source_port)
    &&& no_separator(packet.source_channel)
    &&& no_separator(packet.destination_port)
    &&& no_separator(packet.destination_channel)
}

/// The port, the channel and, where the state is kept for each packet, the sequence that a key
/// path is made of.
pub open spec fn key_subject(kind: KeyPathType, packet: PacketView) -> (
    Seq<char>,
    Seq<char>,
    Option<u64>,
) {
    match kind {
        KeyPathType::SeqRecv | KeyPathType::ChannelPath => (
            packet.destination_port,
            packet.destination_channel,
            None,
        ),
        KeyPathType::ReceiptPath => (
            packet.destination_port,
            packet.destination_channel,
            Some(packet.sequence),
        ),
        KeyPathType::CommitmentPath | KeyPathType::AcksPath => (
            packet.source_port,
            packet.source_channel,
            Some(packet.sequence),
        ),
    }
}

proof fn lemma_split_at_separator(a: Seq<char>, x: Seq<char>, b: Seq<char>, y: Seq<char>)
    requires
        no_separator(a),
        no_separator(b),
        x.len() > 0,
        y.len() > 0,
        x[0] == '/',
        y[0] == '/',
        a + x == b + y,
    ensures
        a == b,
        x == y,
{
    if a.len() < b.len() {
        assert((a + x)[a.len() as int] == '/');
        assert((b + y)[a.len() as int] == b[a.len() as int]);
    } else if b.len() < a.len() {
        assert((b + y)[b.len() as int] == '/');
        assert((a + x)[b.len() as int] == a[b.len() as int]);
    }
    assert(a.len() == b.len());
    assert(a =~= (a + x).take(a.len() as int));
    assert(b =~= (b + y).take(a.len() as int));
    assert(x =~= (a + x).skip(a.len() as int));
    assert(y =~= (b + y).skip(a.len() as int));
}

proof fn lemma_same_prefix(p: Seq<char>, x: Seq<char>, y: Seq<char>)
    requires
        p + x == p + y,
    ensures
        x == y,
{
    assert(x =~= (p + x).skip(p.len() as int));
    assert(y =~= (p + y).skip(p.len() as int));
}

/// The path below the kind of state: port, channel and sequence.
spec fn path_tail(subject: (Seq<char>, Seq<char>, Option<u64>)) -> Seq<char> {
    subject.0 + ("/channels/"@ + (subject.1 + (match subject.2 {
        Some(sequence) => "/sequences/"@ + decimal(sequence as nat),
        None => Seq::empty(),
    })))
}

spec fn path_head(kind: KeyPathType) -> Seq<char> {
    match kind {
        KeyPathType::SeqRecv => "nextSequenceRecv/ports/"@,
        KeyPathType::ReceiptPath => "receipts/ports/"@,
        KeyPathType::CommitmentPath => "commitments/ports/"@,
        KeyPathType::AcksPath => "acks/ports/"@,
        KeyPathType::ChannelPath => "channelEnds/ports/"@,
    }
}

proof fn lemma_key_path_parts(kind: KeyPathType, packet: PacketView)
    ensures
        key_path(kind, packet) == path_head(kind) + path_tail(key_subject(kind, packet)),
{
    assert(key_path(kind, packet) =~= path_head(kind) + path_tail(key_subject(kind, packet)));
}

proof fn lemma_path_tail_is_injective(
    a: (Seq<char>, Seq<char>, Option<u64>),
    b: (Seq<char>, Seq<char>, Option<u64>),
)
    requires
        no_separator(a.0),
        no_separator(a.1),
        no_separator(b.0),
        no_separator(b.1),
        a.2 is Some == b.2 is Some,
        path_tail(a) == path_tail(b),
    ensures
        a == b,
{
    reveal_strlit("/channels/");
    reveal_strlit("/sequences/");
    let end_a = match a.2 {
        Some(sequence) => "/sequences/"@ + decimal(sequence as nat),
        None => Seq::empty(),
    };
    let end_b = match b.2 {
        Some(sequence) => "/sequences/"@ + decimal(sequence as nat),
        None => Seq::empty(),
    };
    lemma_split_at_separator(
        a.0,
        "/channels/"@ + (a.1 + end_a),
        b.0,
        "/channels/"@ + (b.1 + end_b),
    );
    lemma_same_prefix("/channels/"@, a.1 + end_a, b.1 + end_b);
    if a.2 is Some {
        lemma_split_at_separator(a.1, end_a, b.1, end_b);
        lemma_same_prefix("/sequences/"@, decimal(a.2->0 as nat), decimal(b.2->0 as nat));
        law_decimal_is_injective(a.2->0 as nat, b.2->0 as nat);
    } else {
        assert(a.1 + end_a =~= a.1);
        assert(b.1 + end_b =~= b.1);
    }
}

/// Different kinds of state never share a path.
pub proof fn law_key_paths_of_kinds_differ(
    kind: KeyPathType,
    packet: PacketView,
    other_kind: KeyPathType,
    other: PacketView,
)
    requires
        kind != other_kind,
    ensures
        key_path(kind, packet) != key_path(other_kind, other),
{
    reveal_strlit("nextSequenceRecv/ports/");
    reveal_strlit("receipts/ports/");
    reveal_strlit("commitments/ports/");
    reveal_strlit("acks/ports/");
    reveal_strlit("channelEnds/ports/");
    lemma_key_path_parts(kind, packet);
    lemma_key_path_parts(other_kind, other);
    let p = key_path(kind, packet);
    let q = key_path(other_kind, other);
    assert(p[0] == path_head(kind)[0] && p[1] == path_head(kind)[1]);
    assert(q[0] == path_head(other_kind)[0] && q[1] == path_head(other_kind)[1]);
}

/// Two packets have the same path for a kind of state only where they share the port, the channel
/// and, for state kept for each packet, the sequence.
pub proof fn law_key_path_is_injective(kind: KeyPathType, packet: PacketView, other: PacketView)
    requires
        plain_identifiers(packet),
        plain_identifiers(other),
        key_path(kind, packet) == key_path(kind, other),
    ensures
        key_subject(kind, packet) == key_subject(kind, other),
{
    lemma_key_path_parts(kind, packet);
    lemma_key_path_parts(kind, other);
    lemma_same_prefix(
        path_head(kind),
        path_tail(key_subject(kind, packet)),
        path_tail(key_subject(kind, other)),
    );
    lemma_path_tail_is_injective(key_subject(kind, packet), key_subject(kind, other));
}

/// The commitment to a packet and its acknowledgement are kept for the packet's source: their paths
/// are those of the source's port and channel and of the packet's number, whatever the destination.
/// The receipt is kept for the destination's port and channel and the packet's number, and the next
/// sequence and the channel end for the destination's port and channel alone.
pub proof fn law_key_path_is_that_of_the_keeping_side(packet: PacketView)
    ensures
        key_path(KeyPathType::CommitmentPath, packet) == "commitments/ports/"@ + packet.source_port
            + "/channels/"@ + packet.source_channel + "/sequences/"@ + decimal(
            packet.sequence as nat,
        ),
        key_path(KeyPathType::AcksPath, packet) == "acks/ports/"@ + packet.source_port
            + "/channels/"@ + packet.source_channel + "/sequences/"@ + decimal(
            packet.sequence as nat,
        ),
        key_path(KeyPathType::ReceiptPath, packet) == "receipts/ports/"@ + packet.destination_port
            + "/channels/"@ + packet.destination_channel + "/sequences/"@ + decimal(
            packet.sequence as nat,
        ),
        key_path(KeyPathType::SeqRecv, packet) == "nextSequenceRecv/ports/"@
            + packet.destination_port + "/channels/"@ + packet.destination_channel,
        key_path(KeyPathType::ChannelPath, packet) == "channelEnds/ports/"@
            + packet.destination_port + "/channels/"@ + packet.destination_channel,
{
}

/// Packets that agree on the source's port and channel and on the number have one path for their
/// commitments and one for their acknowledgements, whatever their destinations, and only such
/// packets have.
pub proof fn law_source_paths_know_the_source(packet: PacketView, other: PacketView)
    requires
        plain_identifiers(packet),
        plain_identifiers(other),
    ensures
        ({
            let same = packet.source_port == other.source_port && packet.source_channel
                == other.source_channel && packet.sequence == other.sequence;
            &&& same <==> key_path(KeyPathType::CommitmentPath, packet) == key_path(
                KeyPathType::CommitmentPath,
                other,
            )
            &&& same <==> key_path(KeyPathType::AcksPath, packet) == key_path(
                KeyPathType::AcksPath,
                other,
            )
        }),
{
    if key_path(KeyPathType::CommitmentPath, packet) == key_path(
        KeyPathType::CommitmentPath,
        other,
    ) {
        law_key_path_is_injective(KeyPathType::CommitmentPath, packet, other);
    }
    if key_path(KeyPathType::AcksPath, packet) == key_path(KeyPathType::AcksPath, other) {
        law_key_path_is_injective(KeyPathType::AcksPath, packet, other);
    }
}

/// Packets that agree on the destination's port and channel have one path for the next sequence and
/// one for the channel end, whatever their sources, and only such packets have. Their receipts have
/// one path exactly where their numbers agree too.
pub proof fn law_destination_paths_know_the_destination(packet: PacketView, other: PacketView)
    requires
        plain_identifiers(packet),
        plain_identifiers(other),
    ensures
        ({
            let same = packet.destination_port == other.destination_port
                && packet.destination_channel == other.destination_channel;
            &&& same <==> key_path(KeyPathType::SeqRecv, packet) == key_path(
                KeyPathType::SeqRecv,
                other,
            )
            &&& same <==> key_path(KeyPathType::ChannelPath, packet) == key_path(
                KeyPathType::ChannelPath,
                other,
            )
            &&& same && packet.sequence == other.sequence <==> key_path(
                KeyPathType::ReceiptPath,
                packet,
            ) == key_path(KeyPathType::ReceiptPath, other)
        }),
{
    if key_path(KeyPathType::SeqRecv, packet) == key_path(KeyPathType::SeqRecv, other) {
        law_key_path_is_injective(KeyPathType::SeqRecv, packet, other);
    }
    if key_path(KeyPathType::ChannelPath, packet) == key_path(KeyPathType::ChannelPath, other) {
        law_key_path_is_injective(KeyPathType::ChannelPath, packet, other);
    }
    if key_path(KeyPathType::ReceiptPath, packet) == key_path(KeyPathType::ReceiptPath, other) {
        law_key_path_is_injective(KeyPathType::ReceiptPath, packet, other);
    }
}

} // verus!
