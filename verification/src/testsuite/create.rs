//! Creating clients, connections and channels.
use crate::cosmos::events::IbcEvent;
use crate::ibc::any::{Any, AnyView};
use crate::ibc::channel::{order_number, state_number, Order, State};
use crate::ibc::identifier::{ChannelId, ClientId, ConnectionId, PortId};
use crate::ibc::message::{
    channel_open_init_bytes, connection_open_init_bytes, create_client_bytes,
    default_connection_version, encode_channel_open_init, encode_connection_open_init,
    encode_create_client, texts, NewChannel,
};
use vstd::prelude::*;

verus! {

/// How long the completion of a handshake is waited for, in seconds.
pub const HANDSHAKE_TIMEOUT_SECONDS: u64 = 900;

/// The message that creates a client.
pub open spec fn create_client_message(
    client_state: AnyView,
    consensus_state: AnyView,
    signer: Seq<char>,
) -> AnyView {
    AnyView {
        type_url: "/ibc.core.client.v1.MsgCreateClient"@,
        value: create_client_bytes(client_state, consensus_state, signer),
    }
}

/// The message that begins the handshake of a connection: the counterparty's connection is not
/// known yet, and the version is the one of every connection.
pub open spec fn connection_open_init_message(
    client_id: Seq<char>,
    counterparty_client_id: Seq<char>,
    counterparty_prefix: Seq<u8>,
    delay_period: u64,
    signer: Seq<char>,
) -> AnyView {
    AnyView {
        type_url: "/ibc.core.connection.v1.MsgConnectionOpenInit"@,
        value: connection_open_init_bytes(
            client_id,
            counterparty_client_id,
            Seq::empty(),
            counterparty_prefix,
            "1"@,
            seq!["ORDER_ORDERED"@, "ORDER_UNORDERED"@],
            delay_period,
            signer,
        ),
    }
}

/// The message that begins the handshake of a channel over one connection: the channel's state is
/// that of a handshake that has begun, and the counterparty has the same port and no channel yet.
pub open spec fn channel_open_init_message(
    port_id: Seq<char>,
    order: Order,
    connection_id: Seq<char>,
    version: Seq<char>,
    signer: Seq<char>,
) -> AnyView {
    AnyView {
        type_url: "/ibc.core.channel.v1.MsgChannelOpenInit"@,
        value: channel_open_init_bytes(
            port_id,
            state_number(State::Init),
            order_number(order),
            port_id,
            Seq::empty(),
            seq![connection_id],
            version,
            signer,
        ),
    }
}

/// The states with which a client of a chain begins.
#[derive(Debug)]
pub struct ClientStates {
    pub client_state: Any,
    pub consensus_state: Any,
}

/// The messages that create a client of each chain on the other one.
#[derive(Debug)]
pub struct CreateClients {
    /// The message for the first chain, which creates a client of the second one.
    pub for_a: Any,
    /// The message for the second chain, which creates a client of the first one.
    pub for_b: Any,
}

fn create_client(states: ClientStates, signer: String) -> (message: Any)
    ensures
        message@ == create_client_message(
            states.client_state@,
            states.consensus_state@,
            signer@,
        ),
{
    let value = encode_create_client(states.client_state, states.consensus_state, signer);
    Any { type_url: "/ibc.core.client.v1.MsgCreateClient".to_string(), value }
}

/// The messages that create a client of each of two chains on the other one, which signs it.
pub fn create_clients(
    states_a: ClientStates,
    states_b: ClientStates,
    account_a: String,
    account_b: String,
) -> (messages: CreateClients)
    ensures
        messages.for_a@ == create_client_message(
            states_b.client_state@,
            states_b.consensus_state@,
            account_a@,
        ),
        messages.for_b@ == create_client_message(
            states_a.client_state@,
            states_a.consensus_state@,
            account_b@,
        ),
{
    CreateClients {
        for_a: create_client(states_b, account_a),
        for_b: create_client(states_a, account_b),
    }
}

/// The message that begins the handshake of a connection on the first one of two chains, with a
/// delay in nanoseconds. A delay of more than 64 bits loses the higher ones.
///
/// The clients are those that the chains give as their own: `client_id_a` is the first chain's
/// client, which lives on the second chain, and `client_id_b` is the second chain's client, which
/// lives on the first chain. The message names the first as its client and the second as the
/// counterparty's.
pub fn create_connection(
    client_id_a: &ClientId,
    client_id_b: &ClientId,
    prefix_b: Vec<u8>,
    delay_period: u128,
    account_a: String,
) -> (message: Any)
    ensures
        message@ == connection_open_init_message(
            client_id_a@,
            client_id_b@,
            prefix_b@,
            (delay_period % 0x1_0000_0000_0000_0000) as u64,
            account_a@,
        ),
{
    let value = encode_connection_open_init(
        client_id_a.as_str().to_string(),
        client_id_b.as_str().to_string(),
        String::new(),
        prefix_b,
        default_connection_version(),
        (delay_period % 0x1_0000_0000_0000_0000) as u64,
        account_a,
    );
    Any { type_url: "/ibc.core.connection.v1.MsgConnectionOpenInit".to_string(), value }
}

/// The message that begins the handshake of a channel over a connection of the first one of two
/// chains.
pub fn create_channel(
    connection_id: &ConnectionId,
    port_id: &PortId,
    version: String,
    order: Order,
    account_a: String,
) -> (message: Any)
    ensures
        message@ == channel_open_init_message(
            port_id@,
            order,
            connection_id@,
            version@,
            account_a@,
        ),
{
    let mut connection_hops: Vec<String> = Vec::new();
    connection_hops.push(connection_id.as_str().to_string());
    let channel = NewChannel {
        state: State::Init.number(),
        ordering: order.number(),
        counterparty_port: port_id.as_str().to_string(),
        counterparty_channel: String::new(),
        connection_hops,
        version,
    };
    assert(texts(channel.connection_hops@) =~= seq![connection_id@]);
    let value = encode_channel_open_init(port_id.as_str().to_string(), channel, account_a);
    Any { type_url: "/ibc.core.channel.v1.MsgChannelOpenInit".to_string(), value }
}

/// The clients of two chains, each on the other chain.
#[derive(Debug)]
pub struct ChainClients {
    /// The first chain's client on the second chain.
    pub of_a: ClientId,
    /// The second chain's client on the first chain.
    pub of_b: ClientId,
}

/// The clients of two chains, from the client that was created on the first chain and the one that
/// was created on the second: what was created on a chain is the client of the other one.
pub fn created_clients(created_on_a: ClientId, created_on_b: ClientId) -> (clients: ChainClients)
    ensures
        clients.of_a == created_on_b,
        clients.of_b == created_on_a,
{
    ChainClients { of_a: created_on_b, of_b: created_on_a }
}

/// What an event is waited for.
#[derive(Clone, Copy, Debug, PartialEq, Eq, Structural)]
pub enum Awaited {
    NewBlock,
    OpenConfirmConnection,
    OpenConfirmChannel,
    AcknowledgePacket,
    /// A timeout, on an open or on a closed channel.
    Timeout,
}

/// Whether an event is the one that is waited for.
pub open spec fn is_awaited(awaited: Awaited, event: IbcEvent) -> bool {
    match awaited {
        Awaited::NewBlock => event is NewBlock,
        Awaited::OpenConfirmConnection => event is OpenConfirmConnection,
        Awaited::OpenConfirmChannel => event is OpenConfirmChannel,
        Awaited::AcknowledgePacket => event is AcknowledgePacket,
        Awaited::Timeout => event is TimeoutPacket || event is TimeoutOnClosePacket,
    }
}

impl Awaited {
    /// Whether an event is the one that is waited for.
    pub fn accepts(&self, event: &IbcEvent) -> (accepted: bool)
        ensures
            accepted == is_awaited(*self, *event),
    {
        match (self, event) {
            (Awaited::NewBlock, IbcEvent::NewBlock) => true,
            (
                Awaited::OpenConfirmConnection,
                IbcEvent::OpenConfirmConnection { .. },
            ) => true,
            (Awaited::OpenConfirmChannel, IbcEvent::OpenConfirmChannel { .. }) => true,
            (Awaited::AcknowledgePacket, IbcEvent::AcknowledgePacket) => true,
            (Awaited::Timeout, IbcEvent::TimeoutPacket) => true,
            (Awaited::Timeout, IbcEvent::TimeoutOnClosePacket) => true,
            _ => false,
        }
    }
}

/// The two ends of a connection, from the event on the second chain that completes its handshake:
/// the one on the first chain, then the one on the second.
pub fn connection_ids(event: IbcEvent) -> (ids: (ConnectionId, ConnectionId))
    requires
        event matches IbcEvent::OpenConfirmConnection {
            connection_id,
            counterparty_connection_id,
        } && connection_id is Some && counterparty_connection_id is Some,
    ensures
        event == (IbcEvent::OpenConfirmConnection {
            connection_id: Some(ids.1),
            counterparty_connection_id: Some(ids.0),
        }),
{
    match event {
        IbcEvent::OpenConfirmConnection {
            connection_id: Some(id_b),
            counterparty_connection_id: Some(id_a),
        } => (id_a, id_b),
        _ => vstd::pervasive::unreached(),
    }
}

/// The two ends of a channel, from the event on the second chain that completes its handshake: the
/// one on the first chain, then the one on the second.
pub fn channel_ids(event: IbcEvent) -> (ids: (ChannelId, ChannelId))
    requires
        event matches IbcEvent::OpenConfirmChannel { channel_id, counterparty_channel_id }
            && channel_id is Some && counterparty_channel_id is Some,
    ensures
        event == (IbcEvent::OpenConfirmChannel {
            channel_id: Some(ids.1),
            counterparty_channel_id: Some(ids.0),
        }),
{
    match event {
        IbcEvent::OpenConfirmChannel {
            channel_id: Some(id_b),
            counterparty_channel_id: Some(id_a),
        } => (id_a, id_b),
        _ => vstd::pervasive::unreached(),
    }
}

/// The messages that begin a client, a connection and a channel hold what they are made with. A new
/// connection names no connection on the other chain yet and offers the default version. A new
/// channel is in the first state of the handshake, runs over one connection and names, on the other
/// chain, the same port and no channel yet.
pub proof fn law_handshake_messages_hold_their_parts(
    state: AnyView,
    consensus: AnyView,
    client_id: Seq<char>,
    counterparty_client_id: Seq<char>,
    prefix: Seq<u8>,
    delay_period: u64,
    port_id: Seq<char>,
    order: Order,
    connection_id: Seq<char>,
    version: Seq<char>,
    signer: Seq<char>,
)
    ensures
        create_client_message(state, consensus, signer).type_url
            == "/ibc.core.client.v1.MsgCreateClient"@,
        create_client_message(state, consensus, signer).value == create_client_bytes(
            state,
            consensus,
            signer,
        ),
        connection_open_init_message(
            client_id,
            counterparty_client_id,
            prefix,
            delay_period,
            signer,
        ).type_url == "/ibc.core.connection.v1.MsgConnectionOpenInit"@,
        connection_open_init_message(
            client_id,
            counterparty_client_id,
            prefix,
            delay_period,
            signer,
        ).value == connection_open_init_bytes(
            client_id,
            counterparty_client_id,
            Seq::empty(),
            prefix,
            "1"@,
            seq!["ORDER_ORDERED"@, "ORDER_UNORDERED"@],
            delay_period,
            signer,
        ),
        channel_open_init_message(port_id, order, connection_id, version, signer).type_url
            == "/ibc.core.channel.v1.MsgChannelOpenInit"@,
        channel_open_init_message(port_id, order, connection_id, version, signer).value
            == channel_open_init_bytes(
            port_id,
            1,
            match order {
                Order::Uninitialized => 0,
                Order::Unordered => 1,
                Order::Ordered => 2,
            },
            port_id,
            Seq::empty(),
            seq![connection_id],
            version,
            signer,
        ),
{
}

/// An event is waited for by its kind alone, and a timeout is one on an open or a closed channel.
/// The completion of a handshake is given fifteen minutes.
pub proof fn law_events_are_awaited_by_their_kind(event: IbcEvent)
    ensures
        is_awaited(Awaited::NewBlock, event) <==> event is NewBlock,
        is_awaited(Awaited::OpenConfirmConnection, event) <==> event is OpenConfirmConnection,
        is_awaited(Awaited::OpenConfirmChannel, event) <==> event is OpenConfirmChannel,
        is_awaited(Awaited::AcknowledgePacket, event) <==> event is AcknowledgePacket,
        is_awaited(Awaited::Timeout, event) <==> event is TimeoutPacket
            || event is TimeoutOnClosePacket,
        HANDSHAKE_TIMEOUT_SECONDS == 15 * 60,
{
}

} // verus!
