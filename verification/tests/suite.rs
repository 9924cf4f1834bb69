use hyperspace_light::cosmos::client::CosmosClient;
use hyperspace_light::cosmos::events::IbcEvent;
use hyperspace_light::cosmos::provider::Coin;
use hyperspace_light::error::Error;
use hyperspace_light::ibc::any::Any;
use hyperspace_light::ibc::channel::{Order, RawChannel, RawCounterparty};
use hyperspace_light::ibc::height::{Height, TimeoutHeight};
use hyperspace_light::ibc::identifier::{ChannelId, ClientId, ConnectionId, PortId};
use hyperspace_light::testsuite::create::{
    channel_ids, connection_ids, create_channel, create_clients, create_connection,
    created_clients, Awaited, ClientStates,
};
use hyperspace_light::testsuite::setup::{
    open_transfer_channel, setup_clients, setup_connection_and_channel, take_over,
    transfer_version, ListedChannel, LocalChain, SetupStep, TransferChannel,
    TransferSetup,
};
use hyperspace_light::testsuite::tests::{
    assert_send_transfer, ibc_messaging_with_connection_delay, parse_amount, send_transfer,
    timeout_height_reached, CONNECTION_DELAY_SECONDS,
};
use ibc_proto::protobuf::Protobuf;
use ibc_relayer_types::tx_msg::Msg;
use std::str::FromStr;
use std::time::Duration;

type TheirClient = ibc_relayer_types::core::ics24_host::identifier::ClientId;
type TheirConnection = ibc_relayer_types::core::ics24_host::identifier::ConnectionId;
type TheirPort = ibc_relayer_types::core::ics24_host::identifier::PortId;
type TheirPrefix = ibc_relayer_types::core::ics23_commitment::commitment::CommitmentPrefix;

fn signer(text: &str) -> ibc_relayer_types::signer::Signer {
    ibc_relayer_types::signer::Signer::from_str(text).unwrap()
}

fn any(n: u8) -> Any {
    Any { type_url: format!("/state{}", n), value: vec![n] }
}

fn their_any(n: u8) -> ibc_proto::google::protobuf::Any {
    ibc_proto::google::protobuf::Any { type_url: format!("/state{}", n), value: vec![n] }
}

#[test]
fn each_chain_gets_a_client_of_the_other() {
    let messages = create_clients(
        ClientStates { client_state: any(1), consensus_state: any(2) },
        ClientStates { client_state: any(3), consensus_state: any(4) },
        "account_a".to_string(),
        "account_b".to_string(),
    );
    let theirs = |client: u8, consensus: u8, account: &str| {
        ibc_relayer_types::core::ics02_client::msgs::create_client::MsgCreateClient {
            client_state: their_any(client),
            consensus_state: their_any(consensus),
            signer: signer(account),
        }
    };
    let for_a = theirs(3, 4, "account_a");
    assert_eq!(messages.for_a.type_url, for_a.type_url());
    assert_eq!(messages.for_a.value, for_a.encode_vec().unwrap());
    let for_b = theirs(1, 2, "account_b");
    assert_eq!(messages.for_b.value, for_b.encode_vec().unwrap());
    assert_ne!(messages.for_a.value, messages.for_b.value);
}

#[test]
fn connection_handshake_begins_with_the_encoded_message() {
    for delay in [Duration::from_secs(300), Duration::new(20_000_000_000, 5)] {
        let message = create_connection(
            &ClientId::from_str("07-tendermint-0").unwrap(),
            &ClientId::from_str("07-tendermint-1").unwrap(),
            b"ibc".to_vec(),
            delay.as_nanos(),
            "account_a".to_string(),
        );
        let theirs = ibc_relayer_types::core::ics03_connection::msgs::conn_open_init::MsgConnectionOpenInit {
            client_id: TheirClient::from_str("07-tendermint-0").unwrap(),
            counterparty: ibc_relayer_types::core::ics03_connection::connection::Counterparty::new(
                TheirClient::from_str("07-tendermint-1").unwrap(),
                None,
                TheirPrefix::try_from(b"ibc".to_vec()).unwrap(),
            ),
            version: Some(Default::default()),
            delay_period: delay,
            signer: signer("account_a"),
        }
        .to_any();
        assert_eq!(message.type_url, theirs.type_url);
        assert_eq!(message.value, theirs.value);
    }
}

#[test]
fn channel_handshake_begins_with_the_encoded_message() {
    for (order, their_order) in [
        (Order::Unordered, ibc_relayer_types::core::ics04_channel::channel::Order::Unordered),
        (Order::Ordered, ibc_relayer_types::core::ics04_channel::channel::Order::Ordered),
    ] {
        let message = create_channel(
            &ConnectionId::from_str("connection-3").unwrap(),
            &PortId::transfer(),
            transfer_version(),
            order,
            "account_a".to_string(),
        );
        let channel = ibc_relayer_types::core::ics04_channel::channel::ChannelEnd::new(
            ibc_relayer_types::core::ics04_channel::channel::State::Init,
            their_order,
            ibc_relayer_types::core::ics04_channel::channel::Counterparty::new(
                TheirPort::transfer(),
                None,
            ),
            vec![TheirConnection::from_str("connection-3").unwrap()],
            ibc_relayer_types::core::ics04_channel::version::Version::new(
                ibc_relayer_types::applications::transfer::VERSION.to_string(),
            ),
        );
        let theirs =
            ibc_relayer_types::core::ics04_channel::msgs::chan_open_init::MsgChannelOpenInit::new(
                TheirPort::transfer(),
                channel,
                signer("account_a"),
            )
            .to_any();
        assert_eq!(message.type_url, theirs.type_url);
        assert_eq!(message.value, theirs.value);
    }
}

fn events() -> Vec<IbcEvent> {
    vec![
        IbcEvent::NewBlock,
        IbcEvent::OpenConfirmConnection { connection_id: None, counterparty_connection_id: None },
        IbcEvent::OpenConfirmChannel { channel_id: None, counterparty_channel_id: None },
        IbcEvent::AcknowledgePacket,
        IbcEvent::TimeoutPacket,
        IbcEvent::TimeoutOnClosePacket,
        IbcEvent::CreateClient { client_id: ClientId::from_str("07-tendermint-0").unwrap() },
        IbcEvent::Other,
    ]
}

#[test]
fn awaited_events_are_told_apart() {
    let accepted = |awaited: Awaited| -> Vec<usize> {
        events()
            .iter()
            .enumerate()
            .filter(|(_, event)| awaited.accepts(event))
            .map(|(i, _)| i)
            .collect()
    };
    assert_eq!(accepted(Awaited::NewBlock), vec![0]);
    assert_eq!(accepted(Awaited::OpenConfirmConnection), vec![1]);
    assert_eq!(accepted(Awaited::OpenConfirmChannel), vec![2]);
    assert_eq!(accepted(Awaited::AcknowledgePacket), vec![3]);
    assert_eq!(accepted(Awaited::Timeout), vec![4, 5]);
}

#[test]
fn handshake_events_name_both_ends() {
    let (a, b) = connection_ids(IbcEvent::OpenConfirmConnection {
        connection_id: Some(ConnectionId::from_str("connection-2").unwrap()),
        counterparty_connection_id: Some(ConnectionId::from_str("connection-1").unwrap()),
    });
    assert_eq!((a.as_str(), b.as_str()), ("connection-1", "connection-2"));
    let (a, b) = channel_ids(IbcEvent::OpenConfirmChannel {
        channel_id: Some(ChannelId::from_str("channel-2").unwrap()),
        counterparty_channel_id: Some(ChannelId::from_str("channel-1").unwrap()),
    });
    assert_eq!((a.as_str(), b.as_str()), ("channel-1", "channel-2"));
}

fn chains() -> (CosmosClient, CosmosClient) {
    (
        CosmosClient::new(LocalChain::A.config("a".to_string())).unwrap(),
        CosmosClient::new(LocalChain::B.config("b".to_string())).unwrap(),
    )
}

fn clients(texts: &[&str]) -> Vec<ClientId> {
    texts.iter().map(|text| ClientId::from_str(text).unwrap()).collect()
}

#[test]
fn existing_clients_are_taken_over_from_the_other_chain() {
    let (mut a, mut b) = chains();
    assert!(setup_clients(
        &mut a,
        &mut b,
        &clients(&["07-tendermint-1", "07-tendermint-2"]),
        &clients(&["07-tendermint-3"]),
    ));
    assert_eq!(a.client_id().as_str(), "07-tendermint-3");
    assert_eq!(b.client_id().as_str(), "07-tendermint-1");
    let (mut a, mut b) = chains();
    assert!(!setup_clients(&mut a, &mut b, &clients(&[]), &clients(&["07-tendermint-3"])));
    assert!(!setup_clients(&mut a, &mut b, &clients(&["07-tendermint-3"]), &clients(&[])));
    assert_eq!(a.client_id().as_str(), "07-tendermint-0");
    assert_eq!(b.client_id().as_str(), "07-tendermint-0");
}

#[test]
fn local_chains_have_their_addresses() {
    let (a, b) = chains();
    assert_eq!(a.rpc_url, "http://127.0.0.1:27030");
    assert_eq!(a.grpc_url, "http://127.0.0.1:27032");
    assert_eq!(a.websocket_url, "ws://127.0.0.1:27030/websocket");
    assert_eq!(a.chain_id, "ibc-0");
    assert_eq!(b.name(), "chain_b");
    assert_eq!(b.rpc_url, "http://127.0.0.1:27040");
    assert_eq!(b.grpc_url, "http://127.0.0.1:27042");
    assert_eq!(b.websocket_url, "ws://127.0.0.1:27040/websocket");
    assert_eq!(b.chain_id, "ibc-1");
    assert_eq!(b.account_prefix, "cosmos");
    assert_eq!(b.connection_prefix(), b"ibc".to_vec());
}

#[test]
fn created_clients_belong_to_the_other_chain() {
    let created_on_a = ClientId::from_str("07-tendermint-4").unwrap();
    let created_on_b = ClientId::from_str("07-tendermint-9").unwrap();
    let clients = created_clients(created_on_a, created_on_b);
    assert_eq!(clients.of_a.as_str(), "07-tendermint-9");
    assert_eq!(clients.of_b.as_str(), "07-tendermint-4");
    let (mut a, mut b) = chains();
    take_over(&mut a, &mut b, clients);
    assert_eq!(a.client_id().as_str(), "07-tendermint-9");
    assert_eq!(b.client_id().as_str(), "07-tendermint-4");
    assert_eq!(a.name(), "chain_a");
    assert_eq!(b.name(), "chain_b");
}

fn setup() -> TransferSetup {
    setup_connection_and_channel(
        Height::new(1, 0x1_0000_0007).unwrap(),
        ClientId::from_str("07-tendermint-0").unwrap(),
        ClientId::from_str("07-tendermint-1").unwrap(),
        b"ibc".to_vec(),
        "account_a".to_string(),
        300,
    )
}

fn texts(texts: &[&str]) -> Vec<String> {
    texts.iter().map(|text| text.to_string()).collect()
}

fn listed(channels: &[(&str, &str)]) -> Vec<ListedChannel> {
    channels
        .iter()
        .map(|(channel_id, port_id)| ListedChannel {
            channel_id: channel_id.to_string(),
            port_id: port_id.to_string(),
        })
        .collect()
}

fn channel(state: i32) -> RawChannel {
    RawChannel {
        state,
        ordering: 1,
        counterparty: Some(RawCounterparty {
            port_id: "transfer".to_string(),
            channel_id: "channel-7".to_string(),
        }),
        connection_hops: vec!["connection-3".to_string(), "connection-4".to_string()],
        version: "ics20-1".to_string(),
    }
}

fn asked_connection(setup: &TransferSetup) -> String {
    match setup.step() {
        SetupStep::AskConnection { at, connection_id } => {
            assert_eq!(at, Height::new(1, 0x1_0000_0007).unwrap());
            connection_id.as_str().to_string()
        }
        step => panic!("a connection is asked for: {:?}", step),
    }
}

fn asked_channel(setup: &TransferSetup) -> String {
    match setup.step() {
        SetupStep::AskChannel { at, channel_id, port_id } => {
            assert_eq!(at, Height::new(1, 0x1_0000_0007).unwrap());
            assert_eq!(port_id.as_str(), "transfer");
            channel_id.as_str().to_string()
        }
        step => panic!("a channel is asked for: {:?}", step),
    }
}

fn failure(setup: &TransferSetup) -> Error {
    match setup.step() {
        SetupStep::Failed(error) => error,
        step => panic!("the set-up fails: {:?}", step),
    }
}

#[test]
fn connections_of_the_second_client_are_asked_for() {
    match setup().step() {
        SetupStep::AskConnections { height, client_id } => {
            assert_eq!(height, 7);
            assert_eq!(client_id, "07-tendermint-1");
        }
        step => panic!("connections are asked for: {:?}", step),
    }
}

#[test]
fn connections_with_another_delay_are_ruled_out() {
    let setup = setup().on_connections(texts(&["connection-0", "connection-1", "bad"]));
    assert_eq!(asked_connection(&setup), "connection-0");
    let setup = setup.on_connection_end(299);
    assert_eq!(asked_connection(&setup), "connection-1");
    let setup = setup.on_connection_end(300);
    match setup.step() {
        SetupStep::AskChannels { at, connection_id } => {
            assert_eq!(at, Height::new(1, 0x1_0000_0007).unwrap());
            assert_eq!(connection_id.as_str(), "connection-1");
        }
        step => panic!("the channels are asked for: {:?}", step),
    }
    assert_eq!(failure(&setup.on_channels(vec![])), Error::InvalidIdentifier);
}

#[test]
fn first_open_transfer_channel_is_taken() {
    let setup = setup()
        .on_connections(texts(&["connection-0"]))
        .on_connection_end(300)
        .on_channels(listed(&[
            ("channel-0", "transfer"),
            ("channel-1", "oracle"),
            ("channel-2", "transfer"),
            ("channel-3", "transfer"),
        ]));
    assert_eq!(asked_channel(&setup), "channel-0");
    let setup = setup.on_channel_end(&channel(4));
    assert_eq!(asked_channel(&setup), "channel-1");
    let setup = setup.on_channel_end(&channel(3));
    assert_eq!(asked_channel(&setup), "channel-2");
    match setup.on_channel_end(&channel(3)).step() {
        SetupStep::Done(found) => {
            assert_eq!(found.channel_a.as_str(), "channel-2");
            assert_eq!(found.channel_b.as_str(), "channel-7");
            assert_eq!(found.connection_a.as_str(), "connection-3");
        }
        step => panic!("the channel is there: {:?}", step),
    }
}

#[test]
fn unusable_channels_fail_the_setup() {
    let at = |channels: &[(&str, &str)]| {
        setup()
            .on_connections(texts(&["connection-0"]))
            .on_connection_end(300)
            .on_channels(listed(channels))
    };
    assert_eq!(failure(&at(&[("c", "transfer")])), Error::InvalidIdentifier);
    let open = || at(&[("channel-0", "transfer")]);
    assert_eq!(failure(&open().on_channel_end(&channel(9))), Error::ChannelDecode);
    let mut no_counterparty = channel(3);
    no_counterparty.counterparty = Some(RawCounterparty {
        port_id: "transfer".to_string(),
        channel_id: String::new(),
    });
    assert_eq!(
        failure(&open().on_channel_end(&no_counterparty)),
        Error::CounterpartyChannelMissing
    );
    let mut no_hop = channel(3);
    no_hop.connection_hops = vec![];
    assert_eq!(failure(&open().on_channel_end(&no_hop)), Error::ConnectionHopMissing);
}

#[test]
fn connection_and_channel_are_opened_where_none_fits() {
    let found_nothing = [
        setup().on_connections(vec![]),
        setup().on_connections(texts(&["connection-0"])).on_connection_end(0),
        setup()
            .on_connections(texts(&["connection-0"]))
            .on_connection_end(300)
            .on_channels(listed(&[("channel-0", "transfer")]))
            .on_channel_end(&channel(2)),
    ];
    for setup in found_nothing {
        let expected = create_connection(
            &ClientId::from_str("07-tendermint-0").unwrap(),
            &ClientId::from_str("07-tendermint-1").unwrap(),
            b"ibc".to_vec(),
            300,
            "account_a".to_string(),
        );
        match setup.step() {
            SetupStep::OpenConnection(message) => {
                assert_eq!(message.type_url, expected.type_url);
                assert_eq!(message.value, expected.value);
            }
            step => panic!("a connection is opened: {:?}", step),
        }
        let setup = setup.on_connection_event(IbcEvent::OpenConfirmConnection {
            connection_id: Some(ConnectionId::from_str("connection-8").unwrap()),
            counterparty_connection_id: Some(ConnectionId::from_str("connection-5").unwrap()),
        });
        let expected = open_transfer_channel(
            &ConnectionId::from_str("connection-5").unwrap(),
            "account_a".to_string(),
        );
        match setup.step() {
            SetupStep::OpenChannel(message) => {
                assert_eq!(message.type_url, expected.type_url);
                assert_eq!(message.value, expected.value);
            }
            step => panic!("a channel is opened: {:?}", step),
        }
        let setup = setup.on_channel_event(IbcEvent::OpenConfirmChannel {
            channel_id: Some(ChannelId::from_str("channel-8").unwrap()),
            counterparty_channel_id: Some(ChannelId::from_str("channel-5").unwrap()),
        });
        match setup.step() {
            SetupStep::Done(opened) => {
                assert_eq!(opened.channel_a.as_str(), "channel-5");
                assert_eq!(opened.channel_b.as_str(), "channel-8");
                assert_eq!(opened.connection_a.as_str(), "connection-5");
            }
            step => panic!("the channel is there: {:?}", step),
        }
    }
}

#[test]
fn transfer_channel_is_unordered() {
    let ours = open_transfer_channel(
        &ConnectionId::from_str("connection-3").unwrap(),
        "account_a".to_string(),
    );
    let expected = create_channel(
        &ConnectionId::from_str("connection-3").unwrap(),
        &PortId::transfer(),
        "ics20-1".to_string(),
        Order::Unordered,
        "account_a".to_string(),
    );
    assert_eq!(ours.value, expected.value);
    let ordered = create_channel(
        &ConnectionId::from_str("connection-3").unwrap(),
        &PortId::transfer(),
        "ics20-1".to_string(),
        Order::Ordered,
        "account_a".to_string(),
    );
    assert_ne!(ours.value, ordered.value);
}

#[test]
fn amounts_are_parsed() {
    assert_eq!(parse_amount("0".to_string()), 0);
    assert_eq!(parse_amount("+0012".to_string()), 12);
    assert_eq!(parse_amount(u128::MAX.to_string()), u128::MAX);
}

#[test]
fn transfer_sends_a_fifth_with_two_timeouts() {
    let (previous_balance, message) = send_transfer(
        Coin { denom: "stake".to_string(), amount: "1004".to_string() },
        ChannelId::from_str("channel-5").unwrap(),
        "sender".to_string(),
        "receiver".to_string(),
        &Height::new(2, 30).unwrap(),
        Some(5),
    );
    assert_eq!(previous_balance, 1004);
    assert_eq!(message.source_port.as_str(), "transfer");
    assert_eq!(message.source_channel.as_str(), "channel-5");
    assert_eq!(message.token.denom, "stake");
    assert_eq!(message.token.amount, "200");
    assert_eq!(message.sender, "sender");
    assert_eq!(message.receiver, "receiver");
    assert_eq!(message.timeout_height, TimeoutHeight::At(Height::new(2, 2030).unwrap()));
    assert_eq!(message.timeout_timestamp, Some(36_000_000_000_005));
    assert!(!timeout_height_reached(2029, &message.timeout_height));
    assert!(timeout_height_reached(2030, &message.timeout_height));
    assert!(timeout_height_reached(0, &TimeoutHeight::Never));
}

#[test]
fn balance_has_to_fall_by_a_tenth() {
    assert!(assert_send_transfer(90, 100));
    assert!(!assert_send_transfer(91, 100));
    assert!(assert_send_transfer(0, 0));
    assert!(assert_send_transfer(9, 11));
    assert!(!assert_send_transfer(10, 11));
}

#[test]
fn missing_time_stays_missing() {
    for (latest, timeout) in [(None, None), (Some(0), Some(36_000_000_000_000))] {
        let (_, message) = send_transfer(
            Coin { denom: "stake".to_string(), amount: "1004".to_string() },
            ChannelId::from_str("channel-5").unwrap(),
            "sender".to_string(),
            "receiver".to_string(),
            &Height::new(2, 30).unwrap(),
            latest,
        );
        assert_eq!(message.timeout_timestamp, timeout);
    }
    let none = ibc_relayer_types::timestamp::Timestamp::none();
    assert_eq!((none + Duration::from_secs(36_000)).unwrap(), none);
    let epoch = ibc_relayer_types::timestamp::Timestamp::from(tendermint::Time::unix_epoch());
    assert_eq!(
        (epoch + Duration::from_secs(36_000)).unwrap().nanoseconds(),
        36_000_000_000_000
    );
}

#[test]
fn each_chain_relays_its_end_of_the_channel() {
    let whitelists = ibc_messaging_with_connection_delay(TransferChannel {
        channel_a: ChannelId::from_str("channel-1").unwrap(),
        channel_b: ChannelId::from_str("channel-2").unwrap(),
        connection_a: ConnectionId::from_str("connection-3").unwrap(),
    });
    let texts = |channels: &Vec<(ChannelId, PortId)>| -> Vec<(String, String)> {
        channels
            .iter()
            .map(|(channel, port)| (channel.as_str().to_string(), port.as_str().to_string()))
            .collect()
    };
    assert_eq!(
        texts(&whitelists.for_a),
        vec![("channel-1".to_string(), "transfer".to_string())]
    );
    assert_eq!(
        texts(&whitelists.for_b),
        vec![("channel-2".to_string(), "transfer".to_string())]
    );
    assert_eq!(CONNECTION_DELAY_SECONDS, 60 * 5);
}

#[test]
fn transfer_is_seen_in_the_balance() {
    for balance in [0u128, 5, 6, 9, 10, 99, 1004] {
        let (previous_balance, message) = send_transfer(
            Coin { denom: "stake".to_string(), amount: balance.to_string() },
            ChannelId::from_str("channel-5").unwrap(),
            "sender".to_string(),
            "receiver".to_string(),
            &Height::new(2, 30).unwrap(),
            Some(5),
        );
        let left = previous_balance - parse_amount(message.token.amount);
        assert!(assert_send_transfer(left, previous_balance));
    }
}
