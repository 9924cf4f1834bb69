//! The paths under which a chain stores its provable state.
use crate::ibc::height::Height;
use crate::ibc::identifier::{ChannelId, ClientId, ConnectionId, PortId};
use crate::ibc::text::decimal;
use vstd::prelude::*;

verus! {

/// The path of a channel's next sequence to be received.
pub open spec fn seq_recv_path(port: Seq<char>, channel: Seq<char>) -> Seq<char> {
    "nextSequenceRecv/ports/"@ + port + "/channels/"@ + channel
}

/// The path of a channel end.
pub open spec fn channel_end_path(port: Seq<char>, channel: Seq<char>) -> Seq<char> {
    "channelEnds/ports/"@ + port + "/channels/"@ + channel
}

/// The path of the receipt of a packet.
pub open spec fn receipt_path(port: Seq<char>, channel: Seq<char>, sequence: u64) -> Seq<char> {
    "receipts/ports/"@ + port + "/channels/"@ + channel + "/sequences/"@ + decimal(sequence as nat)
}

/// The path of the commitment to a packet.
pub open spec fn commitment_path(port: Seq<char>, channel: Seq<char>, sequence: u64) -> Seq<char> {
    "commitments/ports/"@ + port + "/channels/"@ + channel + "/sequences/"@ + decimal(
        sequence as nat,
    )
}

/// The path of the acknowledgement of a packet.
pub open spec fn ack_path(port: Seq<char>, channel: Seq<char>, sequence: u64) -> Seq<char> {
    "acks/ports/"@ + port + "/channels/"@ + channel + "/sequences/"@ + decimal(sequence as nat)
}

/// The path of the state of a client.
pub open spec fn client_state_path(client: Seq<char>) -> Seq<char> {
    "clients/"@ + client + "/clientState"@
}

/// The path of the consensus state that a client keeps for a height.
pub open spec fn consensus_state_path(client: Seq<char>, epoch: u64, height: u64) -> Seq<char> {
    "clients/"@ + client + "/consensusStates/"@ + decimal(epoch as nat) + "-"@ + decimal(
        height as nat,
    )
}

/// The path of a connection.
pub open spec fn connection_path(connection: Seq<char>) -> Seq<char> {
    "connections/"@ + connection
}

/// The text of `ibc_relayer_types`' `SeqRecvsPath`.
#[verifier::external_body]
pub(crate) fn seq_recvs_text(port: &PortId, channel: &ChannelId) -> (text: String)
    ensures
        text@ == seq_recv_path(port@, channel@),
{
    let port = port.as_str().parse().unwrap();
    let channel = channel.as_str().parse().unwrap();
    format!("{}", ibc_relayer_types::core::ics24_host::path::SeqRecvsPath(port, channel))
}

/// The text of `ibc_relayer_types`' `ChannelEndsPath`.
#[verifier::external_body]
pub(crate) fn channel_ends_text(port: &PortId, channel: &ChannelId) -> (text: String)
    ensures
        text@ == channel_end_path(port@, channel@),
{
    let port = port.as_str().parse().unwrap();
    let channel = channel.as_str().parse().unwrap();
    format!("{}", ibc_relayer_types::core::ics24_host::path::ChannelEndsPath(port, channel))
}

/// The text of `ibc_relayer_types`' `ReceiptsPath`.
#[verifier::external_body]
pub(crate) fn receipts_text(port: &PortId, channel: &ChannelId, sequence: u64) -> (text: String)
    ensures
        text@ == receipt_path(port@, channel@, sequence),
{
    let port_id = port.as_str().parse().unwrap();
    let channel_id = channel.as_str().parse().unwrap();
    let path = ibc_relayer_types::core::ics24_host::path::ReceiptsPath {
        port_id,
        channel_id,
        sequence: sequence.into(),
    };
    format!("{}", path)
}

/// The text of `ibc_relayer_types`' `CommitmentsPath`.
#[verifier::external_body]
pub(crate) fn commitments_text(port: &PortId, channel: &ChannelId, sequence: u64) -> (text: String)
    ensures
        text@ == commitment_path(port@, channel@, sequence),
{
    let port_id = port.as_str().parse().unwrap();
    let channel_id = channel.as_str().parse().unwrap();
    let path = ibc_relayer_types::core::ics24_host::path::CommitmentsPath {
        port_id,
        channel_id,
        sequence: sequence.into(),
    };
    format!("{}", path)
}

/// The text of `ibc_relayer_types`' `AcksPath`.
#[verifier::external_body]
pub(crate) fn acks_text(port: &PortId, channel: &ChannelId, sequence: u64) -> (text: String)
    ensures
        text@ == ack_path(port@, channel@, sequence),
{
    let port_id = port.as_str().parse().unwrap();
    let channel_id = channel.as_str().parse().unwrap();
    let path = ibc_relayer_types::core::ics24_host::path::AcksPath {
        port_id,
        channel_id,
        sequence: sequence.into(),
    };
    format!("{}", path)
}

/// The text of `ibc_relayer_types`' `ClientStatePath`.
#[verifier::external_body]
pub(crate) fn client_state_text(client: &ClientId) -> (text: String)
    ensures
        text@ == client_state_path(client@),
{
    let client_id = client.as_str().parse().unwrap();
    format!("{}", ibc_relayer_types::core::ics24_host::path::ClientStatePath(client_id))
}

/// The text of `ibc_relayer_types`' `ClientConsensusStatePath`.
#[verifier::external_body]
pub(crate) fn consensus_state_text(client: &ClientId, height: &Height) -> (text: String)
    ensures
        text@ == consensus_state_path(
            client@,
            height@.revision_number,
            height@.revision_height,
        ),
{
    let client_id = client.as_str().parse().unwrap();
    let (epoch, height) = (height.revision_number(), height.revision_height());
    let path = ibc_relayer_types::core::ics24_host::path::ClientConsensusStatePath {
        client_id,
        epoch,
        height,
    };
    format!("{}", path)
}

/// The text of `ibc_relayer_types`' `ConnectionsPath`.
#[verifier::external_body]
pub(crate) fn connections_text(connection: &ConnectionId) -> (text: String)
    ensures
        text@ == connection_path(connection@),
{
    let connection_id = connection.as_str().parse().unwrap();
    format!("{}", ibc_relayer_types::core::ics24_host::path::ConnectionsPath(connection_id))
}

/// The paths of clients, of their consensus states, of connections and of channel ends are those of
/// the host requirements, with the identifiers and numbers in their places.
pub proof fn law_paths_hold_their_subjects(
    client: Seq<char>,
    connection: Seq<char>,
    port: Seq<char>,
    channel: Seq<char>,
    epoch: u64,
    height: u64,
)
    ensures
        client_state_path(client) == "clients/"@ + client + "/clientState"@,
        consensus_state_path(client, epoch, height) == "clients/"@ + client
            + "/consensusStates/"@ + decimal(epoch as nat) + "-"@ + decimal(height as nat),
        connection_path(connection) == "connections/"@ + connection,
        channel_end_path(port, channel) == "channelEnds/ports/"@ + port + "/channels/"@ + channel,
{
}

} // verus!
