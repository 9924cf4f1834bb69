//! Setting up two chains with a channel between them.
use crate::cosmos::client::{CosmosClient, CosmosClientConfig};
use crate::cosmos::events::IbcEvent;
use crate::error::Error;
use crate::ibc::any::Any;
use crate::ibc::channel::{channel_end_of, ChannelEnd, ChannelEndView, Order, RawChannel, State};
use crate::ibc::height::{Height, RawHeight};
use crate::ibc::identifier::{
    is_channel_id, is_connection_id, ChannelId, ClientId, ConnectionId, PortId,
};
use crate::testsuite::create::{
    channel_ids, channel_open_init_message, connection_ids, connection_open_init_message,
    create_channel, create_connection, ChainClients,
};
use vstd::prelude::*;

verus! {

/// The version of the channels that tokens are transferred over.
pub fn transfer_version() -> (version: String)
    ensures
        version@ == "ics20-1"@,
{
    "ics20-1".to_string()
}

/// One of two local chains.
#[derive(Clone, Copy, Debug, PartialEq, Eq, Structural)]
pub enum LocalChain {
    A,
    B,
}

impl LocalChain {
    /// The configuration of the client of a local chain with a signing account.
    pub fn config(&self, account: String) -> (config: CosmosClientConfig)
        ensures
            self is A ==> {
                &&& config.name@ == "chain_a"@
                &&& config.rpc_url@ == "http://127.0.0.1:27030"@
                &&& config.grpc_url@ == "http://127.0.0.1:27032"@
                &&& config.websocket_url@ == "ws://127.0.0.1:27030/websocket"@
                &&& config.chain_id@ == "ibc-0"@
            },
            self is B ==> {
                &&& config.name@ == "chain_b"@
                &&& config.rpc_url@ == "http://127.0.0.1:27040"@
                &&& config.grpc_url@ == "http://127.0.0.1:27042"@
                &&& config.websocket_url@ == "ws://127.0.0.1:27040/websocket"@
                &&& config.chain_id@ == "ibc-1"@
            },
            config.client_id is Some && config.client_id->0@ == "7-tendermint"@,
            config.connection_id is None,
            config.account_prefix@ == "cosmos"@,
            config.store_prefix@ == "ibc"@,
            config.account == account,
    {
        let (name, rpc_url, grpc_url, websocket_url, chain_id) = match self {
            LocalChain::A => (
                "chain_a".to_string(),
                "http://127.0.0.1:27030".to_string(),
                "http://127.0.0.1:27032".to_string(),
                "ws://127.0.0.1:27030/websocket".to_string(),
                "ibc-0".to_string(),
            ),
            LocalChain::B => (
                "chain_b".to_string(),
                "http://127.0.0.1:27040".to_string(),
                "http://127.0.0.1:27042".to_string(),
                "ws://127.0.0.1:27040/websocket".to_string(),
                "ibc-1".to_string(),
            ),
        };
        CosmosClientConfig {
            name,
            rpc_url,
            grpc_url,
            websocket_url,
            chain_id,
            client_id: Some("7-tendermint".to_string()),
            connection_id: None,
            account_prefix: "cosmos".to_string(),
            store_prefix: "ibc".to_string(),
            account,
        }
    }
}

/// Gives two chains their clients on each other.
pub fn take_over(chain_a: &mut CosmosClient, chain_b: &mut CosmosClient, clients: ChainClients)
    ensures
        *final(chain_a) == (CosmosClient { client_id: Some(clients.of_a), ..*old(chain_a) }),
        *final(chain_b) == (CosmosClient { client_id: Some(clients.of_b), ..*old(chain_b) }),
{
    chain_a.set_client_id(clients.of_a);
    chain_b.set_client_id(clients.of_b);
}

/// Takes over the clients that two chains already have of each other, where both have one: each
/// chain's client is the first one on the other chain. Otherwise clients have to be created.
pub fn setup_clients(
    chain_a: &mut CosmosClient,
    chain_b: &mut CosmosClient,
    clients_on_a: &Vec<ClientId>,
    clients_on_b: &Vec<ClientId>,
) -> (set_up: bool)
    ensures
        set_up <==> clients_on_a@.len() > 0 && clients_on_b@.len() > 0,
        set_up ==> *final(chain_a) == (CosmosClient {
            client_id: Some(clients_on_b@[0]),
            ..*old(chain_a)
        }),
        set_up ==> *final(chain_b) == (CosmosClient {
            client_id: Some(clients_on_a@[0]),
            ..*old(chain_b)
        }),
        !set_up ==> *final(chain_a) == *old(chain_a) && *final(chain_b) == *old(chain_b),
{
    if clients_on_a.len() > 0 && clients_on_b.len() > 0 {
        let clients = ChainClients { of_a: clients_on_b[0].clone(), of_b: clients_on_a[0].clone() };
        take_over(chain_a, chain_b, clients);
        true
    } else {
        false
    }
}

/// A channel of a connection.
#[derive(Debug)]
pub struct ListedChannel {
    pub channel_id: String,
    pub port_id: String,
}

/// A channel that tokens are transferred over, with its two ends and the first chain's connection.
#[derive(Debug)]
pub struct TransferChannel {
    pub channel_a: ChannelId,
    pub channel_b: ChannelId,
    pub connection_a: ConnectionId,
}

/// Where the set-up of a channel stands.
#[derive(Debug)]
enum SetupState {
    Connections,
    Connection { index: usize },
    Channels { index: usize },
    Channel { index: usize, channels: Vec<ListedChannel>, position: usize },
    Connect,
    Open { connection_a: ConnectionId },
    Done { channel: TransferChannel },
    Failed { error: Error },
}

/// Where the set-up of a channel stands.
#[verifier::ext_equal]
pub enum SetupStateView {
    /// The first chain's connections are asked for.
    Connections,
    /// The end of a connection is asked for.
    Connection { index: nat },
    /// The channels of a connection with the wanted delay are asked for.
    Channels { index: nat },
    /// The end of a channel of that connection is asked for. Channels are pairs of a channel and a
    /// port.
    Channel { index: nat, channels: Seq<(Seq<char>, Seq<char>)>, position: nat },
    /// Nothing fits: a connection is opened.
    Connect,
    /// A channel is opened over a new connection.
    Open { connection_a: Seq<char> },
    /// The channel is there.
    Done { channel_a: Seq<char>, channel_b: Seq<char>, connection_a: Seq<char> },
    /// The first chain's answers cannot be used.
    Failed { error: Error },
}

/// What is set up.
#[derive(Debug)]
struct Plan {
    at: Height,
    client_id_a: ClientId,
    client_id_b: ClientId,
    prefix_b: Vec<u8>,
    account_a: String,
    connection_delay: u128,
}

/// The set-up of a channel between two chains.
#[derive(Debug)]
pub struct TransferSetup {
    plan: Plan,
    connections: Vec<String>,
    state: SetupState,
}

/// What the set-up of a channel holds.
#[verifier::ext_equal]
pub struct TransferSetupView {
    /// The height of the first chain as of which it is asked.
    pub at: RawHeight,
    /// The first chain's client, which lives on the second chain. A new connection is opened with
    /// it.
    pub client_id_a: Seq<char>,
    /// The second chain's client, which lives on the first chain. Its connections are asked for,
    /// and it is the counterparty's client of a new connection.
    pub client_id_b: Seq<char>,
    /// The second chain's store prefix.
    pub prefix_b: Seq<u8>,
    /// The account on the first chain that signs.
    pub account_a: Seq<char>,
    /// The wanted delay, in nanoseconds.
    pub connection_delay: u128,
    /// The first chain's connections.
    pub connections: Seq<Seq<char>>,
    pub state: SetupStateView,
}

/// The identifiers of listed channels and their ports.
pub open spec fn channel_list(channels: Seq<ListedChannel>) -> Seq<(Seq<char>, Seq<char>)> {
    channels.map_values(|channel: ListedChannel| (channel.channel_id@, channel.port_id@))
}

impl SetupState {
    spec fn state_view(self) -> SetupStateView {
        match self {
            SetupState::Connections => SetupStateView::Connections,
            SetupState::Connection { index } => SetupStateView::Connection { index: index as nat },
            SetupState::Channels { index } => SetupStateView::Channels { index: index as nat },
            SetupState::Channel { index, channels, position } => SetupStateView::Channel {
                index: index as nat,
                channels: channel_list(channels@),
                position: position as nat,
            },
            SetupState::Connect => SetupStateView::Connect,
            SetupState::Open { connection_a } => SetupStateView::Open {
                connection_a: connection_a@,
            },
            SetupState::Done { channel } => SetupStateView::Done {
                channel_a: channel.channel_a@,
                channel_b: channel.channel_b@,
                connection_a: channel.connection_a@,
            },
            SetupState::Failed { error } => SetupStateView::Failed { error },
        }
    }
}

impl View for TransferSetup {
    type V = TransferSetupView;

    closed spec fn view(&self) -> TransferSetupView {
        TransferSetupView {
            at: self.plan.at@,
            client_id_a: self.plan.client_id_a@,
            client_id_b: self.plan.client_id_b@,
            prefix_b: self.plan.prefix_b@,
            account_a: self.plan.account_a@,
            connection_delay: self.plan.connection_delay,
            connections: self.connections@.map_values(|id: String| id@),
            state: self.state.state_view(),
        }
    }
}

/// The state once the connections before the given one are ruled out.
pub open spec fn at_connection(connections: Seq<Seq<char>>, index: nat) -> SetupStateView {
    if index >= connections.len() {
        SetupStateView::Connect
    } else if is_connection_id(connections[index as int]) {
        SetupStateView::Connection { index }
    } else {
        SetupStateView::Failed { error: Error::InvalidIdentifier }
    }
}

/// The state once the channels of a connection before the given one are ruled out.
pub open spec fn at_channel(
    connections: Seq<Seq<char>>,
    index: nat,
    channels: Seq<(Seq<char>, Seq<char>)>,
    position: nat,
) -> SetupStateView {
    if position >= channels.len() {
        at_connection(connections, index + 1)
    } else if is_channel_id(channels[position as int].0) {
        SetupStateView::Channel { index, channels, position }
    } else {
        SetupStateView::Failed { error: Error::InvalidIdentifier }
    }
}

/// The state after the delay of a connection, in nanoseconds.
pub open spec fn after_delay(
    connections: Seq<Seq<char>>,
    connection_delay: u128,
    index: nat,
    delay_period: u64,
) -> SetupStateView {
    if delay_period == connection_delay {
        SetupStateView::Channels { index }
    } else {
        at_connection(connections, index + 1)
    }
}

/// Whether a channel is an open one of the token transfer application.
pub open spec fn is_open_transfer(channel: RawChannel, port_id: Seq<char>) -> bool {
    channel_end_of(channel) is Some && channel_end_of(channel)->0.state == State::Open && port_id
        == "transfer"@
}

/// An open channel that was found: its end on the second chain and its connection are those that
/// its channel end names.
pub open spec fn found_channel(channel_id: Seq<char>, end: ChannelEndView) -> SetupStateView {
    if end.counterparty_channel is None {
        SetupStateView::Failed { error: Error::CounterpartyChannelMissing }
    } else if end.connection_hops.len() == 0 {
        SetupStateView::Failed { error: Error::ConnectionHopMissing }
    } else {
        SetupStateView::Done {
            channel_a: channel_id,
            channel_b: end.counterparty_channel->0,
            connection_a: end.connection_hops[0],
        }
    }
}

/// The state after a channel end.
pub open spec fn after_channel_end(
    connections: Seq<Seq<char>>,
    index: nat,
    channels: Seq<(Seq<char>, Seq<char>)>,
    position: nat,
    channel: RawChannel,
) -> SetupStateView {
    let (channel_id, port_id) = channels[position as int];
    if channel_end_of(channel) is None {
        SetupStateView::Failed { error: Error::ChannelDecode }
    } else if is_open_transfer(channel, port_id) {
        found_channel(channel_id, channel_end_of(channel)->0)
    } else {
        at_channel(connections, index, channels, position + 1)
    }
}

/// Whether an event completes the handshake of a connection and names both its ends.
pub open spec fn completes_connection(event: IbcEvent) -> bool {
    event matches IbcEvent::OpenConfirmConnection { connection_id, counterparty_connection_id }
        && connection_id is Some && counterparty_connection_id is Some
}

/// Whether an event completes the handshake of a channel and names both its ends.
pub open spec fn completes_channel(event: IbcEvent) -> bool {
    event matches IbcEvent::OpenConfirmChannel { channel_id, counterparty_channel_id }
        && channel_id is Some && counterparty_channel_id is Some
}

/// The state after the event that completes the handshake of the connection: the first chain's
/// connection is the counterparty of the second chain's.
pub open spec fn after_connection_event(event: IbcEvent) -> SetupStateView {
    SetupStateView::Open {
        connection_a: event->OpenConfirmConnection_counterparty_connection_id->0@,
    }
}

/// The state after the event that completes the handshake of the channel: the first chain's
/// channel is the counterparty of the second chain's.
pub open spec fn after_channel_event(connection_a: Seq<char>, event: IbcEvent) -> SetupStateView {
    SetupStateView::Done {
        channel_a: event->OpenConfirmChannel_counterparty_channel_id->0@,
        channel_b: event->OpenConfirmChannel_channel_id->0@,
        connection_a,
    }
}

/// The message that begins the handshake of the channel that tokens are transferred over: an
/// unordered one of the token transfer application.
pub fn open_transfer_channel(connection_id: &ConnectionId, account_a: String) -> (message: Any)
    ensures
        message@ == channel_open_init_message(
            "transfer"@,
            Order::Unordered,
            connection_id@,
            "ics20-1"@,
            account_a@,
        ),
{
    create_channel(
        connection_id,
        &PortId::transfer(),
        transfer_version(),
        Order::Unordered,
        account_a,
    )
}

/// What the set-up of a channel asks for or has brought about.
#[derive(Debug)]
pub enum SetupStep {
    /// The first chain is asked, as of a height, for the connections of a client.
    AskConnections { height: u32, client_id: String },
    /// The first chain is asked for a connection end.
    AskConnection { at: Height, connection_id: ConnectionId },
    /// The first chain is asked for the channels of a connection.
    AskChannels { at: Height, connection_id: ConnectionId },
    /// The first chain is asked for a channel end.
    AskChannel { at: Height, channel_id: ChannelId, port_id: PortId },
    /// The message goes to the first chain; the event on the second chain that completes the
    /// handshake of a connection is waited for.
    OpenConnection(Any),
    /// The message goes to the first chain; the event on the second chain that completes the
    /// handshake of a channel is waited for.
    OpenChannel(Any),
    /// The channel is there.
    Done(TransferChannel),
    /// The first chain's answers cannot be used.
    Failed(Error),
}

/// Begins the set-up of a connection with a delay, in nanoseconds, and of a channel for token
/// transfers on it. An open transfer channel on a connection with the delay is taken as it is;
/// where there is none, the connection and the channel are opened.
///
/// `client_id_a` is the first chain's client, which lives on the second chain; `client_id_b` is the
/// second chain's client, which lives on the first chain. The connections of the second one are
/// looked through, and a new connection is opened with the first one, as `create_connection` does.
pub fn setup_connection_and_channel(
    latest_height: Height,
    client_id_a: ClientId,
    client_id_b: ClientId,
    prefix_b: Vec<u8>,
    account_a: String,
    connection_delay: u128,
) -> (setup: TransferSetup)
    ensures
        setup@ == (TransferSetupView {
            at: latest_height@,
            client_id_a: client_id_a@,
            client_id_b: client_id_b@,
            prefix_b: prefix_b@,
            account_a: account_a@,
            connection_delay,
            connections: Seq::empty(),
            state: SetupStateView::Connections,
        }),
{
    let plan = Plan {
        at: latest_height,
        client_id_a,
        client_id_b,
        prefix_b,
        account_a,
        connection_delay,
    };
    let setup = TransferSetup { plan, connections: Vec::new(), state: SetupState::Connections };
    assert(setup@.connections =~= Seq::empty());
    setup
}

fn go_to_connection(connections: &Vec<String>, index: usize) -> (state: SetupState)
    ensures
        state.state_view() == at_connection(
            connections@.map_values(|id: String| id@),
            index as nat,
        ),
        state_fits(state, *connections),
{
    if index >= connections.len() {
        SetupState::Connect
    } else if ConnectionId::from_str(connections[index].as_str()).is_ok() {
        SetupState::Connection { index }
    } else {
        SetupState::Failed { error: Error::InvalidIdentifier }
    }
}

fn go_to_channel(
    connections: &Vec<String>,
    index: usize,
    channels: Vec<ListedChannel>,
    position: usize,
) -> (state: SetupState)
    requires
        index < connections.len(),
        is_connection_id(connections@[index as int]@),
    ensures
        state.state_view() == at_channel(
            connections@.map_values(|id: String| id@),
            index as nat,
            channel_list(channels@),
            position as nat,
        ),
        state_fits(state, *connections),
{
    if position >= channels.len() {
        go_to_connection(connections, index + 1)
    } else if ChannelId::from_str(channels[position].channel_id.as_str()).is_ok() {
        SetupState::Channel { index, channels, position }
    } else {
        SetupState::Failed { error: Error::InvalidIdentifier }
    }
}

/// Whether a state is within the connections and the channels that it is about, whose identifiers
/// are valid.
spec fn state_fits(state: SetupState, connections: Vec<String>) -> bool {
    match state {
        SetupState::Connection { index } | SetupState::Channels { index } => index
            < connections.len() && is_connection_id(connections@[index as int]@),
        SetupState::Channel { index, channels, position } => {
            &&& index < connections.len() && is_connection_id(connections@[index as int]@)
            &&& position < channels.len() && is_channel_id(channels@[position as int].channel_id@)
        },
        _ => true,
    }
}

impl TransferSetup {
    #[verifier::type_invariant]
    spec fn fits(self) -> bool {
        state_fits(self.state, self.connections)
    }

    /// What is to be done next, or what has come of the set-up.
    pub fn step(&self) -> (step: SetupStep)
        ensures
            match self@.state {
                SetupStateView::Connections => {
                    &&& step matches SetupStep::AskConnections { height, client_id }
                    &&& height == self@.at.revision_height as u32
                    &&& client_id@ == self@.client_id_b
                },
                SetupStateView::Connection { index } => {
                    &&& step matches SetupStep::AskConnection { at, connection_id }
                    &&& at@ == self@.at
                    &&& connection_id@ == self@.connections[index as int]
                },
                SetupStateView::Channels { index } => {
                    &&& step matches SetupStep::AskChannels { at, connection_id }
                    &&& at@ == self@.at
                    &&& connection_id@ == self@.connections[index as int]
                },
                SetupStateView::Channel { index, channels, position } => {
                    &&& step matches SetupStep::AskChannel { at, channel_id, port_id }
                    &&& at@ == self@.at
                    &&& channel_id@ == channels[position as int].0
                    &&& port_id@ == "transfer"@
                },
                SetupStateView::Connect => {
                    &&& step matches SetupStep::OpenConnection(message)
                    &&& message@ == connection_open_init_message(
                        self@.client_id_a,
                        self@.client_id_b,
                        self@.prefix_b,
                        (self@.connection_delay % 0x1_0000_0000_0000_0000) as u64,
                        self@.account_a,
                    )
                },
                SetupStateView::Open { connection_a } => {
                    &&& step matches SetupStep::OpenChannel(message)
                    &&& message@ == channel_open_init_message(
                        "transfer"@,
                        Order::Unordered,
                        connection_a,
                        "ics20-1"@,
                        self@.account_a,
                    )
                },
                SetupStateView::Done { channel_a, channel_b, connection_a } => {
                    &&& step matches SetupStep::Done(channel)
                    &&& channel.channel_a@ == channel_a
                    &&& channel.channel_b@ == channel_b
                    &&& channel.connection_a@ == connection_a
                },
                SetupStateView::Failed { error } => step == SetupStep::Failed(error),
            },
    {
        proof {
            use_type_invariant(self);
        }
        match &self.state {
            SetupState::Connections => SetupStep::AskConnections {
                height: self.plan.at.revision_height() as u32,
                client_id: self.plan.client_id_b.as_str().to_string(),
            },
            SetupState::Connection { index } => SetupStep::AskConnection {
                at: self.plan.at,
                connection_id: self.connection_id(*index),
            },
            SetupState::Channels { index } => SetupStep::AskChannels {
                at: self.plan.at,
                connection_id: self.connection_id(*index),
            },
            SetupState::Channel { index, channels, position } => SetupStep::AskChannel {
                at: self.plan.at,
                channel_id: listed_channel_id(&channels[*position]),
                port_id: PortId::transfer(),
            },
            SetupState::Connect => SetupStep::OpenConnection(
                create_connection(
                    &self.plan.client_id_a,
                    &self.plan.client_id_b,
                    self.plan.prefix_b.clone(),
                    self.plan.connection_delay,
                    self.plan.account_a.clone(),
                ),
            ),
            SetupState::Open { connection_a } => SetupStep::OpenChannel(
                open_transfer_channel(connection_a, self.plan.account_a.clone()),
            ),
            SetupState::Done { channel } => SetupStep::Done(
                TransferChannel {
                    channel_a: channel.channel_a.clone(),
                    channel_b: channel.channel_b.clone(),
                    connection_a: channel.connection_a.clone(),
                },
            ),
            SetupState::Failed { error } => SetupStep::Failed(*error),
        }
    }

    fn connection_id(&self, index: usize) -> (connection_id: ConnectionId)
        requires
            index < self.connections@.len(),
            is_connection_id(self.connections@[index as int]@),
        ensures
            connection_id@ == self.connections@[index as int]@,
    {
        match ConnectionId::from_str(self.connections[index].as_str()) {
            Ok(connection_id) => connection_id,
            Err(_) => vstd::pervasive::unreached(),
        }
    }

    /// Takes in the first chain's connections.
    pub fn on_connections(self, connections: Vec<String>) -> (setup: TransferSetup)
        requires
            self@.state is Connections,
        ensures
            setup@ == (TransferSetupView {
                connections: connections@.map_values(|id: String| id@),
                state: at_connection(connections@.map_values(|id: String| id@), 0),
                ..self@
            }),
    {
        let state = go_to_connection(&connections, 0);
        TransferSetup { plan: self.plan, connections, state }
    }

    /// Takes in the delay of the connection, in nanoseconds.
    pub fn on_connection_end(self, delay_period: u64) -> (setup: TransferSetup)
        requires
            self@.state is Connection,
        ensures
            setup@ == (TransferSetupView {
                state: after_delay(
                    self@.connections,
                    self@.connection_delay,
                    self@.state->Connection_index,
                    delay_period,
                ),
                ..self@
            }),
    {
        proof {
            use_type_invariant(&self);
        }
        let index: usize = match self.state {
            SetupState::Connection { index } => index,
            _ => vstd::pervasive::unreached(),
        };
        let state = if delay_period as u128 == self.plan.connection_delay {
            SetupState::Channels { index }
        } else {
            go_to_connection(&self.connections, index + 1)
        };
        TransferSetup { plan: self.plan, connections: self.connections, state }
    }

    /// Takes in the channels of the connection.
    pub fn on_channels(self, channels: Vec<ListedChannel>) -> (setup: TransferSetup)
        requires
            self@.state is Channels,
        ensures
            setup@ == (TransferSetupView {
                state: at_channel(
                    self@.connections,
                    self@.state->Channels_index,
                    channel_list(channels@),
                    0,
                ),
                ..self@
            }),
    {
        proof {
            use_type_invariant(&self);
        }
        let index: usize = match self.state {
            SetupState::Channels { index } => index,
            _ => vstd::pervasive::unreached(),
        };
        let state = go_to_channel(&self.connections, index, channels, 0);
        TransferSetup { plan: self.plan, connections: self.connections, state }
    }

    /// Takes in the end of the channel on the first chain.
    pub fn on_channel_end(self, channel: &RawChannel) -> (setup: TransferSetup)
        requires
            self@.state is Channel,
        ensures
            setup@ == (TransferSetupView {
                state: after_channel_end(
                    self@.connections,
                    self@.state->Channel_index,
                    self@.state->Channel_channels,
                    self@.state->Channel_position,
                    *channel,
                ),
                ..self@
            }),
    {
        proof {
            use_type_invariant(&self);
        }
        let TransferSetup { plan, connections, state } = self;
        let state = match state {
            SetupState::Channel { index, channels, position } => match ChannelEnd::from_raw(
                channel,
            ) {
                Err(error) => SetupState::Failed { error },
                Ok(end) => {
                    let open: bool = match end.state {
                        State::Open => true,
                        _ => false,
                    };
                    if open && channels[position].port_id == "transfer".to_string() {
                        take_found(listed_channel_id(&channels[position]), end)
                    } else {
                        go_to_channel(&connections, index, channels, position + 1)
                    }
                },
            },
            _ => vstd::pervasive::unreached(),
        };
        TransferSetup { plan, connections, state }
    }

    /// Takes in the event on the second chain that completes the handshake of the connection.
    pub fn on_connection_event(self, event: IbcEvent) -> (setup: TransferSetup)
        requires
            self@.state is Connect,
            completes_connection(event),
        ensures
            setup@ == (TransferSetupView { state: after_connection_event(event), ..self@ }),
    {
        let (connection_a, _) = connection_ids(event);
        TransferSetup {
            plan: self.plan,
            connections: self.connections,
            state: SetupState::Open { connection_a },
        }
    }

    /// Takes in the event on the second chain that completes the handshake of the channel.
    pub fn on_channel_event(self, event: IbcEvent) -> (setup: TransferSetup)
        requires
            self@.state is Open,
            completes_channel(event),
        ensures
            setup@ == (TransferSetupView {
                state: after_channel_event(self@.state->Open_connection_a, event),
                ..self@
            }),
    {
        let connection_a = match self.state {
            SetupState::Open { connection_a } => connection_a,
            _ => vstd::pervasive::unreached(),
        };
        let (channel_a, channel_b) = channel_ids(event);
        TransferSetup {
            plan: self.plan,
            connections: self.connections,
            state: SetupState::Done {
                channel: TransferChannel { channel_a, channel_b, connection_a },
            },
        }
    }
}

fn listed_channel_id(listed: &ListedChannel) -> (channel_id: ChannelId)
    requires
        is_channel_id(listed.channel_id@),
    ensures
        channel_id@ == listed.channel_id@,
{
    match ChannelId::from_str(listed.channel_id.as_str()) {
        Ok(channel_id) => channel_id,
        Err(_) => vstd::pervasive::unreached(),
    }
}

fn take_found(channel_a: ChannelId, end: ChannelEnd) -> (state: SetupState)
    ensures
        state.state_view() == found_channel(channel_a@, end@),
        state is Done || state is Failed,
{
    match end.counterparty_channel {
        None => SetupState::Failed { error: Error::CounterpartyChannelMissing },
        Some(channel_b) => if end.connection_hops.len() == 0 {
            SetupState::Failed { error: Error::ConnectionHopMissing }
        } else {
            let connection_a = end.connection_hops[0].clone();
            SetupState::Done { channel: TransferChannel { channel_a, channel_b, connection_a } }
        },
    }
}

/// What the two chains answer to the set-up of a channel.
pub struct SetupAnswers {
    /// The first chain's connections.
    pub connections: Seq<Seq<char>>,
    /// The delays of the connections.
    pub delays: spec_fn(nat) -> u64,
    /// The channels of the connections.
    pub channels: spec_fn(nat) -> Seq<(Seq<char>, Seq<char>)>,
    /// The ends of the channels of the connections.
    pub ends: spec_fn(nat, nat) -> RawChannel,
    /// The event that completes the handshake of a new connection.
    pub connected: IbcEvent,
    /// The event that completes the handshake of a new channel.
    pub opened: IbcEvent,
}

/// The state after the answer to what a state asks for.
pub open spec fn setup_next(
    connection_delay: u128,
    answers: SetupAnswers,
    state: SetupStateView,
) -> SetupStateView {
    match state {
        SetupStateView::Connections => at_connection(answers.connections, 0),
        SetupStateView::Connection { index } => after_delay(
            answers.connections,
            connection_delay,
            index,
            (answers.delays)(index),
        ),
        SetupStateView::Channels { index } => at_channel(
            answers.connections,
            index,
            (answers.channels)(index),
            0,
        ),
        SetupStateView::Channel { index, channels, position } => after_channel_end(
            answers.connections,
            index,
            channels,
            position,
            (answers.ends)(index, position),
        ),
        SetupStateView::Connect => after_connection_event(answers.connected),
        SetupStateView::Open { connection_a } => after_channel_event(connection_a, answers.opened),
        SetupStateView::Done { .. } | SetupStateView::Failed { .. } => state,
    }
}

/// The state after a number of answers.
pub open spec fn setup_after(
    connection_delay: u128,
    answers: SetupAnswers,
    state: SetupStateView,
    steps: nat,
) -> SetupStateView
    decreases steps,
{
    if steps == 0 {
        state
    } else {
        setup_after(
            connection_delay,
            answers,
            setup_next(connection_delay, answers, state),
            (steps - 1) as nat,
        )
    }
}

/// Whether a channel of a connection is one that the set-up takes: the connection has the wanted
/// delay, and the channel is an open one of the token transfer application.
pub open spec fn fits_setup(
    connection_delay: u128,
    answers: SetupAnswers,
    index: nat,
    position: nat,
) -> bool {
    (answers.delays)(index) == connection_delay && is_open_transfer(
        (answers.ends)(index, position),
        (answers.channels)(index)[position as int].1,
    )
}

/// Whether the set-up can go by a channel of a connection: the channel's identifier is valid and
/// its end readable, and the channel is not one that the set-up takes.
pub open spec fn goes_by_channel(
    connection_delay: u128,
    answers: SetupAnswers,
    index: nat,
    position: nat,
) -> bool {
    is_channel_id((answers.channels)(index)[position as int].0) && channel_end_of(
        (answers.ends)(index, position),
    ) is Some && !fits_setup(connection_delay, answers, index, position)
}

/// Whether the set-up can go by a connection: its identifier is valid, and its delay is another
/// one or the set-up can go by all of its channels.
pub open spec fn goes_by_connection(
    connection_delay: u128,
    answers: SetupAnswers,
    index: nat,
) -> bool {
    is_connection_id(answers.connections[index as int]) && ((answers.delays)(index)
        == connection_delay ==> forall|position: nat|
        position < (answers.channels)(index).len() ==> #[trigger] goes_by_channel(
            connection_delay,
            answers,
            index,
            position,
        ))
}

proof fn lemma_setup_after_sum(
    connection_delay: u128,
    answers: SetupAnswers,
    state: SetupStateView,
    first: nat,
    second: nat,
)
    ensures
        setup_after(connection_delay, answers, state, first + second) == setup_after(
            connection_delay,
            answers,
            setup_after(connection_delay, answers, state, first),
            second,
        ),
    decreases first,
{
    if first > 0 {
        lemma_setup_after_sum(
            connection_delay,
            answers,
            setup_next(connection_delay, answers, state),
            (first - 1) as nat,
            second,
        );
        assert((first - 1) as nat + second == (first + second - 1) as nat);
    }
}

/// From the channels of a connection, the set-up comes to any one of them if it can go by those
/// before it.
proof fn lemma_reaches_channel(
    connection_delay: u128,
    answers: SetupAnswers,
    index: nat,
    position: nat,
) -> (steps: nat)
    requires
        position <= (answers.channels)(index).len(),
        forall|earlier: nat|
            earlier < position ==> #[trigger] goes_by_channel(
                connection_delay,
                answers,
                index,
                earlier,
            ),
        (answers.delays)(index) == connection_delay,
    ensures
        setup_after(connection_delay, answers, SetupStateView::Channels { index }, steps)
            == at_channel(answers.connections, index, (answers.channels)(index), position),
    decreases position,
{
    let start = SetupStateView::Channels { index };
    if position == 0 {
        reveal_with_fuel(setup_after, 2);
        1
    } else {
        let earlier = (position - 1) as nat;
        let steps = lemma_reaches_channel(connection_delay, answers, index, earlier);
        assert(goes_by_channel(connection_delay, answers, index, earlier));
        lemma_setup_after_sum(connection_delay, answers, start, steps, 1);
        reveal_with_fuel(setup_after, 2);
        steps + 1
    }
}

/// The set-up comes to any one of the connections if it can go by those before it.
proof fn lemma_reaches_connection(
    connection_delay: u128,
    answers: SetupAnswers,
    index: nat,
) -> (steps: nat)
    requires
        index <= answers.connections.len(),
        forall|earlier: nat|
            earlier < index ==> #[trigger] goes_by_connection(connection_delay, answers, earlier),
    ensures
        setup_after(connection_delay, answers, SetupStateView::Connections, steps)
            == at_connection(answers.connections, index),
    decreases index,
{
    let start = SetupStateView::Connections;
    if index == 0 {
        reveal_with_fuel(setup_after, 2);
        1
    } else {
        let earlier = (index - 1) as nat;
        let steps = lemma_reaches_connection(connection_delay, answers, earlier);
        assert(goes_by_connection(connection_delay, answers, earlier));
        lemma_setup_after_sum(connection_delay, answers, start, steps, 1);
        reveal_with_fuel(setup_after, 2);
        if (answers.delays)(earlier) == connection_delay {
            let all = (answers.channels)(earlier).len();
            let more = lemma_reaches_channel(connection_delay, answers, earlier, all);
            lemma_setup_after_sum(connection_delay, answers, start, steps + 1, more);
            steps + 1 + more
        } else {
            steps + 1
        }
    }
}

/// Where no open transfer channel on a connection with the wanted delay is there, the set-up opens
/// a connection and a channel, and ends with the ends that the two completion events name.
pub proof fn law_new_channel_is_opened(
    connection_delay: u128,
    answers: SetupAnswers,
) -> (steps: nat)
    requires
        forall|index: nat|
            index < answers.connections.len() ==> #[trigger] goes_by_connection(
                connection_delay,
                answers,
                index,
            ),
        completes_connection(answers.connected),
        completes_channel(answers.opened),
    ensures
        steps >= 2,
        setup_after(
            connection_delay,
            answers,
            SetupStateView::Connections,
            (steps - 2) as nat,
        ) is Connect,
        setup_after(connection_delay, answers, SetupStateView::Connections, steps) == (
        SetupStateView::Done {
            channel_a: answers.opened->OpenConfirmChannel_counterparty_channel_id->0@,
            channel_b: answers.opened->OpenConfirmChannel_channel_id->0@,
            connection_a: answers.connected->OpenConfirmConnection_counterparty_connection_id->0@,
        }),
{
    let start = SetupStateView::Connections;
    let steps = lemma_reaches_connection(connection_delay, answers, answers.connections.len());
    lemma_setup_after_sum(connection_delay, answers, start, steps, 2);
    reveal_with_fuel(setup_after, 3);
    steps + 2
}

/// Where an open transfer channel on a connection with the wanted delay is there, the set-up ends
/// with the first one: with its identifier, with the channel on the other chain that its end names
/// and with the first connection that its end names.
pub proof fn law_first_open_channel_is_taken(
    connection_delay: u128,
    answers: SetupAnswers,
    index: nat,
    position: nat,
) -> (steps: nat)
    requires
        index < answers.connections.len(),
        position < (answers.channels)(index).len(),
        is_connection_id(answers.connections[index as int]),
        is_channel_id((answers.channels)(index)[position as int].0),
        fits_setup(connection_delay, answers, index, position),
        forall|earlier: nat|
            earlier < index ==> #[trigger] goes_by_connection(connection_delay, answers, earlier),
        forall|earlier: nat|
            earlier < position ==> #[trigger] goes_by_channel(
                connection_delay,
                answers,
                index,
                earlier,
            ),
    ensures
        setup_after(connection_delay, answers, SetupStateView::Connections, steps)
            == found_channel(
            (answers.channels)(index)[position as int].0,
            channel_end_of((answers.ends)(index, position))->0,
        ),
{
    let start = SetupStateView::Connections;
    let steps = lemma_reaches_connection(connection_delay, answers, index);
    lemma_setup_after_sum(connection_delay, answers, start, steps, 1);
    let more = lemma_reaches_channel(connection_delay, answers, index, position);
    reveal_with_fuel(setup_after, 2);
    lemma_setup_after_sum(connection_delay, answers, start, steps + 1, more);
    lemma_setup_after_sum(connection_delay, answers, start, steps + 1 + more, 1);
    steps + 1 + more + 1
}

/// A set-up that is done stays as it is, whatever the number of further answers.
pub proof fn law_finished_setup_stays(
    connection_delay: u128,
    answers: SetupAnswers,
    state: SetupStateView,
    steps: nat,
)
    requires
        state is Done || state is Failed,
    ensures
        setup_after(connection_delay, answers, state, steps) == state,
    decreases steps,
{
    if steps > 0 {
        law_finished_setup_stays(connection_delay, answers, state, (steps - 1) as nat);
    }
}

/// Where nothing can be taken, because no connection with the wanted delay has an open channel on
/// the transfer port, a connection is opened and a channel on it, and the set-up ends with the ends
/// that the two completion events name as the counterparties and as their own.
pub proof fn law_setup_opens_where_nothing_is_open(
    connection_delay: u128,
    answers: SetupAnswers,
    id_a: ConnectionId,
    id_b: ConnectionId,
    channel_a: ChannelId,
    channel_b: ChannelId,
) -> (steps: nat)
    requires
        forall|index: nat|
            index < answers.connections.len() ==> is_connection_id(
                #[trigger] answers.connections[index as int],
            ),
        forall|index: nat, position: nat|
            index < answers.connections.len() && (answers.delays)(index) == connection_delay
                && position < (answers.channels)(index).len() ==> {
                let (channel_id, port_id) = (answers.channels)(index)[position as int];
                let end = channel_end_of(#[trigger] (answers.ends)(index, position));
                &&& is_channel_id(channel_id)
                &&& end is Some
                &&& !(end->0.state is Open) || port_id != "transfer"@
            },
        answers.connected == (IbcEvent::OpenConfirmConnection {
            connection_id: Some(id_b),
            counterparty_connection_id: Some(id_a),
        }),
        answers.opened == (IbcEvent::OpenConfirmChannel {
            channel_id: Some(channel_b),
            counterparty_channel_id: Some(channel_a),
        }),
    ensures
        steps >= 2,
        setup_after(
            connection_delay,
            answers,
            SetupStateView::Connections,
            (steps - 2) as nat,
        ) is Connect,
        setup_after(connection_delay, answers, SetupStateView::Connections, steps) == (
        SetupStateView::Done {
            channel_a: channel_a@,
            channel_b: channel_b@,
            connection_a: id_a@,
        }),
{
    assert forall|index: nat|
        index < answers.connections.len() implies #[trigger] goes_by_connection(
        connection_delay,
        answers,
        index,
    ) by {
        assert(is_connection_id(answers.connections[index as int]));
        if (answers.delays)(index) == connection_delay {
            assert forall|position: nat|
                position < (answers.channels)(index).len() implies #[trigger] goes_by_channel(
                connection_delay,
                answers,
                index,
                position,
            ) by {
                let end = (answers.ends)(index, position);
                assert(channel_end_of(end) is Some);
            }
        }
    }
    law_new_channel_is_opened(connection_delay, answers)
}

/// Where a connection with the wanted delay has an open channel on the transfer port, the set-up
/// ends with the first such channel, the channel on the other chain that its end names and the first
/// connection that its end names.
pub proof fn law_setup_takes_what_is_open(
    connection_delay: u128,
    answers: SetupAnswers,
    index: nat,
    position: nat,
) -> (steps: nat)
    requires
        index < answers.connections.len(),
        position < (answers.channels)(index).len(),
        forall|earlier: nat|
            earlier <= index ==> is_connection_id(#[trigger] answers.connections[earlier as int]),
        (answers.delays)(index) == connection_delay,
        is_channel_id((answers.channels)(index)[position as int].0),
        (answers.channels)(index)[position as int].1 == "transfer"@,
        channel_end_of((answers.ends)(index, position)) is Some,
        channel_end_of((answers.ends)(index, position))->0.state is Open,
        channel_end_of((answers.ends)(index, position))->0.counterparty_channel is Some,
        channel_end_of((answers.ends)(index, position))->0.connection_hops.len() > 0,
        forall|i: nat, p: nat|
            i <= index && (answers.delays)(i) == connection_delay && p < (answers.channels)(i).len()
                && (i == index ==> p < position) ==> {
                let (channel_id, port_id) = (answers.channels)(i)[p as int];
                let end = channel_end_of(#[trigger] (answers.ends)(i, p));
                &&& is_channel_id(channel_id)
                &&& end is Some
                &&& !(end->0.state is Open) || port_id != "transfer"@
            },
    ensures
        setup_after(connection_delay, answers, SetupStateView::Connections, steps) == ({
            let end = channel_end_of((answers.ends)(index, position))->0;
            SetupStateView::Done {
                channel_a: (answers.channels)(index)[position as int].0,
                channel_b: end.counterparty_channel->0,
                connection_a: end.connection_hops[0],
            }
        }),
{
    assert(is_connection_id(answers.connections[index as int]));
    assert forall|earlier: nat|
        earlier < index implies #[trigger] goes_by_connection(
        connection_delay,
        answers,
        earlier,
    ) by {
        assert(is_connection_id(answers.connections[earlier as int]));
        if (answers.delays)(earlier) == connection_delay {
            assert forall|p: nat|
                p < (answers.channels)(earlier).len() implies #[trigger] goes_by_channel(
                connection_delay,
                answers,
                earlier,
                p,
            ) by {
                let end = (answers.ends)(earlier, p);
                assert(channel_end_of(end) is Some);
            }
        }
    }
    assert forall|earlier: nat|
        earlier < position implies #[trigger] goes_by_channel(
        connection_delay,
        answers,
        index,
        earlier,
    ) by {
        let end = (answers.ends)(index, earlier);
        assert(channel_end_of(end) is Some);
    }
    law_first_open_channel_is_taken(connection_delay, answers, index, position)
}

/// The set-up fails at the first identifier that is not valid and at the first channel end that
/// cannot be read, and at an open channel whose end names no channel on the other chain or no
/// connection.
pub proof fn law_setup_fails_on_unusable_answers(
    connections: Seq<Seq<char>>,
    index: nat,
    channels: Seq<(Seq<char>, Seq<char>)>,
    position: nat,
    channel: RawChannel,
    channel_id: Seq<char>,
    end: ChannelEndView,
)
    ensures
        index < connections.len() && !is_connection_id(connections[index as int])
            ==> at_connection(connections, index) == (SetupStateView::Failed {
            error: Error::InvalidIdentifier,
        }),
        position < channels.len() && !is_channel_id(channels[position as int].0) ==> at_channel(
            connections,
            index,
            channels,
            position,
        ) == (SetupStateView::Failed { error: Error::InvalidIdentifier }),
        channel_end_of(channel) is None ==> after_channel_end(
            connections,
            index,
            channels,
            position,
            channel,
        ) == (SetupStateView::Failed { error: Error::ChannelDecode }),
        end.counterparty_channel is None ==> found_channel(channel_id, end) == (
        SetupStateView::Failed { error: Error::CounterpartyChannelMissing }),
        end.counterparty_channel is Some && end.connection_hops.len() == 0 ==> found_channel(
            channel_id,
            end,
        ) == (SetupStateView::Failed { error: Error::ConnectionHopMissing }),
{
}

/// An event completes a handshake where it is the one of that handshake and names both ends. Listed
/// channels keep their order.
pub proof fn law_completion_events_name_both_ends(event: IbcEvent, channels: Seq<ListedChannel>)
    ensures
        completes_connection(event) <==> event is OpenConfirmConnection
            && event->OpenConfirmConnection_connection_id is Some
            && event->OpenConfirmConnection_counterparty_connection_id is Some,
        completes_channel(event) <==> event is OpenConfirmChannel
            && event->OpenConfirmChannel_channel_id is Some
            && event->OpenConfirmChannel_counterparty_channel_id is Some,
        channel_list(channels).len() == channels.len(),
        forall|i: int|
            0 <= i < channels.len() ==> #[trigger] channel_list(channels)[i] == (
                channels[i].channel_id@,
                channels[i].port_id@,
            ),
{
}

} // verus!
