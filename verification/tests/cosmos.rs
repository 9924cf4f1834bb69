use hyperspace_light::cosmos::client::{
    proved_value, AbciAnswer, CosmosClient, CosmosClientConfig, LightBlock, StorePath, Validator,
    ValidatorSet,
};
use hyperspace_light::cosmos::events::{
    events_of_report, ibc_subscriptions, msg_update_client, query_latest_ibc_events, EventScan,
    EventsSinceClient, IbcEvent, ObservedEvent, Report, ReportData, Subscription, TypedEvent,
};
use hyperspace_light::cosmos::provider::{
    latest_height, Coin, CreatedClientStep, DeliveredTx, IdentifiedConnection, Proved,
    TransactionId,
};
use hyperspace_light::cosmos::tx::{
    broadcast_tx, confirm_tx, first_found, search_step, simulate_tx, tx_query, tx_search,
    ConfirmStep, SearchStep, TxOutcome,
};
use hyperspace_light::error::Error;
use hyperspace_light::ibc::any::Any;
use hyperspace_light::ibc::decode::{client_latest_height, consensus_reply, ConsensusReply};
use hyperspace_light::ibc::height::{Height, RawHeight};
use hyperspace_light::ibc::identifier::{ChannelId, ClientId, ConnectionId, PortId};
use hyperspace_light::ibc::tendermint::{tendermint_height, BlockHeader, ProofOp};
use hyperspace_light::primitives::traits::UpdateType;
use ibc_proto::protobuf::Protobuf;
use ibc_relayer_types::tx_msg::Msg;
use std::str::FromStr;
use std::time::Duration;

fn config(store_prefix: &str) -> CosmosClientConfig {
    CosmosClientConfig {
        name: "chain".to_string(),
        rpc_url: "http://127.0.0.1:1".to_string(),
        grpc_url: "http://127.0.0.1:2".to_string(),
        websocket_url: "ws://127.0.0.1:3".to_string(),
        chain_id: "ibc-7".to_string(),
        client_id: Some("07-tendermint-55".to_string()),
        connection_id: Some("connection-5".to_string()),
        account_prefix: "cosmos".to_string(),
        store_prefix: store_prefix.to_string(),
        account: "cosmos1account".to_string(),
    }
}

fn client() -> CosmosClient {
    CosmosClient::new(config("ibc")).unwrap()
}

fn client_id(text: &str) -> ClientId {
    ClientId::from_str(text).unwrap()
}

#[test]
fn new_client_has_the_first_client_id_and_no_connection() {
    let client = client();
    assert_eq!(client.name(), "chain");
    assert_eq!(client.client_id().as_str(), "07-tendermint-0");
    assert!(client.connection_id.is_none());
    assert_eq!(client.connection_prefix(), b"ibc".to_vec());
    assert!(client.channel_whitelist().is_empty());
    assert_eq!(client.chain_id, "ibc-7");
    assert_eq!(client.account, "cosmos1account");
    assert_eq!(client.client_type(), "07-tendermint");
    assert_eq!(client.block_max_weight(), 2097152);
    assert_eq!(
        ibc_relayer_types::core::ics24_host::identifier::ClientId::new(
            ibc_relayer_types::core::ics02_client::client_type::ClientType::Tendermint,
            0
        )
        .unwrap()
        .to_string(),
        client.client_id().as_str()
    );
}

#[test]
fn empty_store_prefix_is_refused() {
    assert_eq!(CosmosClient::new(config("")).unwrap_err(), Error::EmptyPrefix);
}

#[test]
fn client_takes_other_ids_and_channels() {
    let mut client = client();
    client.set_client_id(client_id("07-tendermint-3"));
    assert_eq!(client.client_id().as_str(), "07-tendermint-3");
    assert_eq!(client.name(), "chain");
    client.set_channel_whitelist(vec![(
        ChannelId::from_str("channel-0").unwrap(),
        PortId::transfer(),
    )]);
    let channels = client.channel_whitelist();
    assert_eq!(channels.len(), 1);
    assert_eq!(channels[0].0.as_str(), "channel-0");
    assert_eq!(channels[0].1.as_str(), "transfer");
    client.connection_id = Some(ConnectionId::from_str("connection-4").unwrap());
    assert_eq!(client.connection_id().as_str(), "connection-4");
}

fn validator(n: u8) -> Validator {
    Validator {
        address: vec![n; 20],
        pub_key: vec![n; 32],
        power: 10,
        name: None,
        proposer_priority: n as i64,
    }
}

fn validators(ids: &[u8], total_voting_power: u64) -> ValidatorSet<u8> {
    ValidatorSet {
        payload: ids.len() as u8,
        validators: ids.iter().map(|n| validator(*n)).collect(),
        proposer: ids.first().map(|n| validator(*n)),
        total_voting_power,
    }
}

fn update_type(now: ValidatorSet<u8>, next: ValidatorSet<u8>) -> UpdateType {
    let latest = LightBlock { signed_header: "latest", validators: now, next_validators: next };
    let trusted = LightBlock {
        signed_header: "trusted",
        validators: validators(&[9, 9, 9], 1),
        next_validators: validators(&[], 0),
    };
    let height = Height::new(0, 4).unwrap();
    let (header, update_type) = client().msg_update_client_header(latest, trusted, height);
    assert_eq!(header.signed_header, "latest");
    assert_eq!(header.trusted_height, height);
    assert_eq!(header.trusted_validator_set.payload, 3);
    update_type
}

#[test]
fn update_is_optional_where_validators_stay() {
    assert_eq!(update_type(validators(&[1, 2], 20), validators(&[1, 2], 20)), UpdateType::Optional);
    assert_eq!(update_type(validators(&[1, 2], 20), validators(&[1, 3], 20)), UpdateType::Mandatory);
    assert_eq!(update_type(validators(&[1, 2], 20), validators(&[1], 20)), UpdateType::Mandatory);
    assert_eq!(update_type(validators(&[1, 2], 20), validators(&[1, 2], 21)), UpdateType::Mandatory);
    let mut named = validators(&[1, 2], 20);
    named.validators[1].name = Some("x".to_string());
    assert_eq!(update_type(validators(&[1, 2], 20), named), UpdateType::Mandatory);
    let mut without_proposer = validators(&[1, 2], 20);
    without_proposer.proposer = None;
    assert_eq!(update_type(validators(&[1, 2], 20), without_proposer), UpdateType::Mandatory);
}

#[test]
fn tendermint_blocks_are_signed_numbers() {
    for block in [0u64, 1, i64::MAX as u64, i64::MAX as u64 + 1, u64::MAX] {
        let theirs = tendermint::block::Height::try_from(block);
        assert_eq!(tendermint_height(block).ok(), theirs.ok().map(|height| height.value()));
        assert_eq!(
            client().query_timestamp_at(block).is_err(),
            block > i64::MAX as u64
        );
    }
    let height = Height::new(0, u64::MAX).unwrap();
    assert_eq!(client().trusted_block(&height).unwrap_err(), Error::HeightOverflow);
    assert_eq!(client().trusted_block(&Height::new(0, 8).unwrap()), Ok(8));
}

#[test]
fn proof_query_goes_to_the_store() {
    let request = client()
        .query_tendermint_proof(vec![1, 2], &Height::new(0, 8).unwrap())
        .unwrap();
    assert_eq!(
        request.path,
        ibc_relayer_types::core::ics24_host::IBC_QUERY_PATH
    );
    assert_eq!(request.path, format!("store/{}/key", ibc_relayer_types::keys::STORE_KEY));
    assert_eq!(request.data, vec![1, 2]);
    assert_eq!(request.height, Some(8));
    assert!(request.prove);
    let too_high = Height::new(0, u64::MAX).unwrap();
    assert_eq!(
        client().query_tendermint_proof(vec![], &too_high).unwrap_err(),
        Error::HeightOverflow
    );
}

fn answer(code: u32, proof: Option<Vec<Vec<u8>>>) -> AbciAnswer {
    AbciAnswer {
        code,
        value: vec![7],
        proof: proof.map(|ops| {
            ops.into_iter()
                .map(|data| ProofOp { field_type: "ics23:iavl".to_string(), key: vec![1], data })
                .collect()
        }),
    }
}

fn commitment_proof() -> Vec<u8> {
    let proof = ibc_proto::ics23::CommitmentProof {
        proof: Some(ibc_proto::ics23::commitment_proof::Proof::Exist(
            ibc_proto::ics23::ExistenceProof {
                key: vec![1, 2],
                value: vec![3],
                leaf: None,
                path: vec![],
            },
        )),
    };
    prost::Message::encode_to_vec(&proof)
}

#[test]
fn proof_of_an_answer_is_encoded() {
    let (value, proof) =
        answer(0, Some(vec![commitment_proof(), commitment_proof()])).try_into_proof().unwrap().unwrap();
    assert_eq!(value, vec![7]);
    let theirs = ibc_proto::ibc::core::commitment::v1::MerkleProof {
        proofs: vec![
            prost::Message::decode(commitment_proof().as_slice()).unwrap(),
            prost::Message::decode(commitment_proof().as_slice()).unwrap(),
        ],
    };
    assert_eq!(proof, prost::Message::encode_to_vec(&theirs));
    assert_ne!(proof, commitment_proof());
    let (_, direct) = answer(0, Some(vec![commitment_proof()])).into_proof().unwrap();
    assert!(direct.len() < proof.len());
}

#[test]
fn answers_without_a_usable_proof_are_refused() {
    let refused = |answer: AbciAnswer| answer.try_into_proof().unwrap().unwrap_err();
    assert_eq!(refused(answer(1, Some(vec![commitment_proof()]))), Error::QueryFailed);
    assert_eq!(refused(answer(1, Some(vec![vec![0xff]]))), Error::QueryFailed);
    assert_eq!(refused(answer(0, None)), Error::ProofMissing);
    assert_eq!(refused(answer(0, Some(vec![]))), Error::EmptyProof);
    assert!(answer(0, Some(vec![vec![0xff]])).try_into_proof().is_none());
    assert_eq!(proved_value(vec![1], vec![]).unwrap_err(), Error::EmptyProof);
    assert_eq!(proved_value(vec![1], vec![2]).unwrap(), (vec![1], vec![2]));
    assert!(answer(0, None).succeeded().is_ok());
    assert_eq!(answer(4, None).succeeded().unwrap_err(), Error::QueryFailed);
}

#[test]
fn accounts_are_decoded() {
    let account = ibc_proto::cosmos::auth::v1beta1::BaseAccount {
        address: "cosmos1account".to_string(),
        pub_key: None,
        account_number: 12,
        sequence: 34,
    };
    let any = |value| Some(Any { type_url: "/cosmos.auth.v1beta1.BaseAccount".to_string(), value });
    let found = client().query_account(any(prost::Message::encode_to_vec(&account))).unwrap();
    assert_eq!(found.address, "cosmos1account");
    assert_eq!(found.account_number, 12);
    assert_eq!(found.sequence, 34);
    assert!(found.pub_key.is_none());
    assert_eq!(client().query_account(None).unwrap_err(), Error::AccountMissing);
    assert_eq!(client().query_account(any(vec![0xff])).unwrap_err(), Error::AccountDecode);
    let submission = client().submit(vec![Any { type_url: "/m".to_string(), value: vec![1] }]);
    assert_eq!(submission.account(), "cosmos1account");
    let request = client().sign_request(submission, &found);
    assert_eq!(request.messages.len(), 1);
    assert_eq!(request.sequence, 34);
    assert_eq!(request.account_number, 12);
    assert_eq!(request.chain_id, "ibc-7");
    assert_eq!(request.fee.amount.len(), 1);
    assert_eq!(request.fee.amount[0].denom, "stake");
    assert_eq!(request.fee.amount[0].amount, "4000");
    assert_eq!(request.fee.gas_limit, 400000);
    assert_eq!(request.fee.payer, "");
    assert_eq!(request.fee.granter, "");
}

#[test]
fn unprovable_paths_are_queried_without_proof() {
    let path = |provable| StorePath { text: "ports/p".to_string(), provable };
    let height = Height::new(0, 6).unwrap();
    assert_eq!(client().query(path(false), &height, true).unwrap_err(), Error::NotProvable);
    let request = client().query(path(false), &height, false).unwrap();
    assert_eq!(request.data, b"ports/p".to_vec());
    assert_eq!(request.height, Some(6));
    assert!(!request.prove);
    assert_eq!(request.path, "store/ibc/key");
    assert!(client().query(path(true), &height, true).unwrap().prove);
    let too_high = Height::new(0, u64::MAX).unwrap();
    assert_eq!(client().query(path(false), &too_high, true).unwrap_err(), Error::HeightOverflow);
}

#[test]
fn store_queries_have_the_host_paths_as_keys() {
    let at = Height::new(3, 30).unwrap();
    let query =
        client().query_client_consensus(at, &client_id("07-tendermint-2"), &Height::new(4, 40).unwrap());
    assert_eq!(query.client_id, "07-tendermint-2");
    assert_eq!((query.revision_number, query.revision_height), (4, 40));
    assert!(!query.latest_height);
    assert_eq!(query.proof.key, b"clients/07-tendermint-2/consensusStates/4-40".to_vec());
    assert_eq!(query.proof.at, at);
    assert!(query.proof.prove);
    let query = client().query_client_state(at, &client_id("07-tendermint-2"));
    assert_eq!(query.proof.key, b"clients/07-tendermint-2/clientState".to_vec());
    let connection = ConnectionId::from_str("connection-4").unwrap();
    let query = client().query_connection_end(at, &connection);
    assert_eq!(query.connection_id, "connection-4");
    assert_eq!(query.proof.key, b"connections/connection-4".to_vec());
    let channel = ChannelId::from_str("channel-4").unwrap();
    let query = client().query_channel_end(at, &channel, &PortId::transfer());
    assert_eq!(query.channel_id, "channel-4");
    assert_eq!(query.port_id, "transfer");
    assert_eq!(query.proof.key, b"channelEnds/ports/transfer/channels/channel-4".to_vec());
    let query = client().query_proof(at, &vec![vec![1], vec![2]]);
    assert_eq!(query.key, vec![1]);
    assert!(query.prove);
    let proved = Proved { value: Some(5), proof: vec![], proof_height: None }.with_proof(vec![9]);
    assert_eq!(proved.value, Some(5));
    assert_eq!(proved.proof, vec![9]);
}

#[test]
fn latest_height_is_in_the_revision_of_the_network() {
    let (height, time) = client().latest_height_and_timestamp(false, "ibc-10", 5, 77).unwrap();
    assert_eq!(height.raw(), RawHeight { revision_number: 10, revision_height: 5 });
    assert_eq!(time, 77);
    assert_eq!(
        client().latest_height_and_timestamp(true, "ibc-10", 5, 77).unwrap_err(),
        Error::NodeSyncing
    );
    assert_eq!(
        client().latest_height_and_timestamp(false, "ibc-10", 0, 77).unwrap_err(),
        Error::ZeroHeight
    );
    assert_eq!(latest_height(true, 3, 0, ()).unwrap_err(), Error::NodeSyncing);
    assert_eq!(latest_height(false, 3, 4, ()).unwrap().0, Height::new(3, 4).unwrap());
}

#[test]
fn revisions_of_chains_are_at_the_end_of_their_names() {
    let revision = |network: &str| {
        client().latest_height_and_timestamp(false, network, 1, ()).unwrap().0.revision_number()
    };
    assert_eq!(revision("cosmos-hub-97"), 97);
    assert_eq!(revision("testnet-helloworld-2"), 2);
    assert_eq!(revision("chain--a-0"), 0);
    assert_eq!(revision("chainA"), 0);
    assert_eq!(revision("a-1"), 0);
    assert_eq!(revision("ab-1"), 1);
    assert_eq!(revision("ab--1"), 0);
    assert_eq!(revision("ab-01"), 0);
    assert_eq!(revision("ab-"), 0);
    assert_eq!(revision("\u{e9}-1"), 1);
    assert_eq!(revision("\n\n-3"), 3);
    assert_eq!(revision("ab-\u{661}"), 0);
    assert_eq!(revision("ab-18446744073709551615"), u64::MAX);
    assert_eq!(revision("ab-18446744073709551616"), 0);
}

#[test]
fn answers_with_identifiers_are_filtered() {
    let texts = vec!["07-tendermint-0".to_string(), "x".to_string(), "07-tendermint-1".to_string()];
    let found: Vec<String> =
        client().query_clients(&texts).iter().map(|id| id.as_str().to_string()).collect();
    assert_eq!(found, vec!["07-tendermint-0", "07-tendermint-1"]);
    let pairs = vec![
        ("channel-0".to_string(), "transfer".to_string()),
        ("channel-1".to_string(), "p".to_string()),
        ("c".to_string(), "transfer".to_string()),
        ("channel-2".to_string(), "oracle".to_string()),
    ];
    let found: Vec<(String, String)> = client()
        .query_channels(&pairs)
        .iter()
        .map(|(channel, port)| (channel.as_str().to_string(), port.as_str().to_string()))
        .collect();
    assert_eq!(found, vec![pairs[0].clone(), pairs[3].clone()]);
}

#[test]
fn connections_are_those_of_the_client() {
    let connection = |id: &str, client_id: &str| IdentifiedConnection {
        payload: id.len(),
        id: id.to_string(),
        client_id: client_id.to_string(),
    };
    let found = client().query_connection_using_client(
        &"07-tendermint-1".to_string(),
        vec![
            connection("connection-0", "07-tendermint-0"),
            connection("connection-1", "07-tendermint-1"),
            connection("connection-20", "07-tendermint-1"),
        ],
    );
    let ids: Vec<&str> = found.iter().map(|connection| connection.id.as_str()).collect();
    assert_eq!(ids, vec!["connection-1", "connection-20"]);
    assert_eq!(found[1].payload, 13);
}

fn coin(denom: &str, amount: &str) -> Option<Coin> {
    Some(Coin { denom: denom.to_string(), amount: amount.to_string() })
}

#[test]
fn balances_are_amounts_of_denominations() {
    let client = client();
    assert_eq!(client.balance_denom(), "stake");
    let found = client.query_ibc_balance(coin("stake", "00120")).unwrap();
    assert_eq!(found.len(), 1);
    assert_eq!(found[0].denom, "stake");
    assert_eq!(found[0].amount, "120");
    assert_eq!(client.query_ibc_balance(None).unwrap_err(), Error::BalanceMissing);
    let amount = |text: &str| {
        client
            .try_query_ibc_balance(coin("transfer/channel-0/stake", text))
            .map(|balances| balances.unwrap()[0].amount.clone())
    };
    assert_eq!(amount("7"), Some("7".to_string()));
    assert_eq!(amount(""), Some("0".to_string()));
    assert_eq!(amount("+7"), None);
    assert_eq!(amount("7a"), None);
    let limit = "115792089237316195423570985008687907853269984665640564039457584007913129639935";
    assert_eq!(amount(limit), Some(limit.to_string()));
    assert_eq!(
        amount("115792089237316195423570985008687907853269984665640564039457584007913129639936"),
        None
    );
    assert!(client.try_query_ibc_balance(coin("", "7")).is_none());
    assert!(client.try_query_ibc_balance(coin("transfer/stake", "7")).is_none());
    assert!(client.try_query_ibc_balance(None).unwrap().is_err());
}

#[test]
fn initial_client_state_has_the_fixed_parameters() {
    let initial = client().initialize_client_state(Height::new(7, 70).unwrap());
    assert_eq!(initial.height(), Height::new(7, 70).unwrap());
    let state = initial.client_state();
    assert_eq!(client_latest_height(state), Ok(Height::new(7, 70).unwrap()));
    let theirs = ibc_relayer_types::clients::ics07_tendermint::client_state::ClientState::try_from(
        ibc_proto::google::protobuf::Any {
            type_url: state.type_url.clone(),
            value: state.value.clone(),
        },
    )
    .unwrap();
    assert_eq!(theirs.chain_id.to_string(), "ibc-7");
    assert_eq!(
        theirs.trust_level,
        ibc_relayer_types::core::ics02_client::trust_threshold::TrustThreshold::ONE_THIRD
    );
    assert_eq!(theirs.trusting_period, Duration::from_secs(64000));
    assert_eq!(theirs.unbonding_period, Duration::from_secs(128000));
    assert_eq!(theirs.max_clock_drift, Duration::from_secs(15));
    assert_eq!(theirs.upgrade_path, vec!["upgrade", "upgradedIBCState"]);
    assert!(theirs.allow_update.after_expiry);
    assert!(theirs.allow_update.after_misbehaviour);
    assert!(theirs.frozen_height.is_none());
}

#[test]
fn initial_consensus_state_is_that_of_the_header() {
    for (seconds, nanoseconds, hash) in [
        (1_600_000_000, 7, vec![9u8; 32]),
        (0, 0, vec![]),
        (-62_135_596_800, 999_999_999, vec![1u8; 32]),
        (253_402_300_799, 999_999_999, vec![2u8; 32]),
    ] {
        let states = client().initialize_client_state(Height::new(7, 70).unwrap()).on_light_block(
            BlockHeader {
                app_hash: vec![3, 4],
                seconds,
                nanoseconds,
                next_validators_hash: hash.clone(),
            },
        );
        let theirs = ibc_proto::google::protobuf::Any::from(
            ibc_relayer_types::clients::ics07_tendermint::consensus_state::ConsensusState::new(
                vec![3u8, 4].into(),
                tendermint::Time::from_unix_timestamp(seconds, nanoseconds).unwrap(),
                tendermint::Hash::try_from(hash).unwrap(),
            ),
        );
        assert_eq!(states.consensus_state.type_url, theirs.type_url);
        assert_eq!(states.consensus_state.value, theirs.value);
        assert_eq!(client_latest_height(&states.client_state), Ok(Height::new(7, 70).unwrap()));
        let reply = consensus_reply(Some(states.consensus_state));
        if seconds == 1_600_000_000 {
            assert_eq!(reply, Some(ConsensusReply::At(1_600_000_000_000_000_007)));
        } else if seconds == 0 {
            assert_eq!(reply, Some(ConsensusReply::At(0)));
        } else {
            assert_eq!(reply, None);
        }
    }
    for seconds in [-62_135_596_801, 253_402_300_800] {
        assert!(tendermint::Time::from_unix_timestamp(seconds, 0).is_err());
    }
}

#[test]
fn transactions_are_looked_for_by_their_hash() {
    match tx_query("AB12".to_string()) {
        Subscription::Equal { key, value } => assert_eq!(
            tendermint_rpc::query::Query::eq(key, value).to_string(),
            "tx.hash = 'AB12'"
        ),
        Subscription::NewBlock => panic!("a transaction is looked for"),
    }
    let search = tx_search("AB12".to_string());
    assert!(matches!(
        search.query,
        Subscription::Equal { key, value } if key == "tx.hash" && value == "AB12"
    ));
    assert!(!search.prove);
    assert_eq!((search.page, search.per_page), (1, 1));
    assert!(search.ascending);
    assert_eq!(first_found(vec![5, 6]), Some(5));
    assert_eq!(first_found::<u8>(vec![]), None);
}

#[test]
fn transactions_are_looked_for_in_time() {
    assert!(matches!(search_step(Some(1), u128::MAX), SearchStep::Found(1)));
    assert!(matches!(
        search_step::<u8>(None, 30_000_000_000),
        SearchStep::Sleep { millis: 300 }
    ));
    assert!(matches!(search_step::<u8>(None, 30_000_000_001), SearchStep::TimedOut));
}

#[test]
fn transactions_are_confirmed_where_they_succeeded() {
    let found = |code| Some(TxOutcome { hash: "h", code });
    match confirm_tx(found(0), 0) {
        ConfirmStep::Confirmed(id) => assert_eq!(id.hash, "h"),
        _ => panic!("the transaction succeeded"),
    }
    assert!(matches!(confirm_tx(found(5), 0), ConfirmStep::Failed { code: 5 }));
    assert!(matches!(confirm_tx::<u8>(None, 1), ConfirmStep::Sleep { millis: 300 }));
    assert!(matches!(
        confirm_tx::<u8>(None, 31_999_999_999),
        ConfirmStep::TimedOut { seconds: 31 }
    ));
    assert_eq!(broadcast_tx("h").hash, "h");
    assert_eq!(TransactionId { hash: "h" }.clone().hash, "h");
}

#[test]
fn what_is_simulated_is_broadcast() {
    let simulation = simulate_tx("tx", vec![1, 2, 3]);
    assert_eq!(*simulation.tx(), Some("tx"));
    assert_eq!(*simulation.tx_bytes(), vec![1, 2, 3]);
    assert_eq!(simulation.succeeded().into_broadcast(), vec![1, 2, 3]);
}

fn created(n: u8) -> Option<IbcEvent> {
    Some(IbcEvent::CreateClient { client_id: client_id(&format!("07-tendermint-{}", n)) })
}

#[test]
fn created_client_is_the_only_one_of_its_transaction() {
    let look = |code, events| {
        client().query_client_id_from_tx_hash(Some(DeliveredTx { code, events }), 0)
    };
    match look(0, vec![None, Some(IbcEvent::Other), created(4), Some(IbcEvent::NewBlock)]) {
        CreatedClientStep::Created { client_id } => assert_eq!(client_id.as_str(), "07-tendermint-4"),
        _ => panic!("one client was created"),
    }
    assert!(matches!(look(0, vec![None]), CreatedClientStep::WrongCount { found: 0 }));
    assert!(matches!(
        look(0, vec![created(1), created(2)]),
        CreatedClientStep::WrongCount { found: 2 }
    ));
    assert!(matches!(look(9, vec![created(1)]), CreatedClientStep::Failed { code: 9 }));
    assert!(matches!(
        client().query_client_id_from_tx_hash(None, 5),
        CreatedClientStep::Sleep { millis: 300 }
    ));
    assert!(matches!(
        client().query_client_id_from_tx_hash(None, u128::MAX),
        CreatedClientStep::TimedOut
    ));
}

fn since(client_height: Height) -> EventsSinceClient {
    query_latest_ibc_events(client_id("07-tendermint-1"), Height::new(1, 9).unwrap())
        .on_client_height(client_height)
}

#[test]
fn events_after_the_client_height_are_scanned() {
    let height = Height::new(2, 4).unwrap();
    let mut scan: EventScan<u32> = since(height).on_latest_block(7);
    let mut asked = vec![];
    while let Some(block) = scan.block() {
        asked.push(block);
        match block {
            5 => scan.on_block(Some(vec![vec![Some(1), None, Some(2)], vec![], vec![Some(3)]])),
            6 => scan.on_block(None),
            _ => scan.on_block(Some(vec![vec![None, Some(4)]])),
        }
    }
    assert_eq!(asked, vec![5, 6, 7]);
    let found = scan.finish();
    let events: Vec<u32> = found.iter().map(|event| event.event).collect();
    assert_eq!(events, vec![1, 2, 3, 4]);
    assert!(found.iter().all(|event| event.height == height));
    let scan: EventScan<u32> = since(height).on_latest_block(4);
    assert_eq!(scan.block(), None);
    assert!(scan.finish().is_empty());
}

#[test]
fn latest_events_are_those_since_the_client_state() {
    let begin = || query_latest_ibc_events(client_id("07-tendermint-1"), Height::new(1, 9).unwrap());
    assert_eq!(begin().client_id().as_str(), "07-tendermint-1");
    assert_eq!(begin().at(), Height::new(1, 9).unwrap());
    let initial = client().initialize_client_state(Height::new(7, 70).unwrap());
    let since = begin().on_client_state(Some(initial.client_state().clone())).unwrap();
    assert_eq!(since.client_height(), Height::new(7, 70).unwrap());
    assert_eq!(begin().on_client_state(None).unwrap_err(), Error::ClientStateMissing);
    let broken = Any { type_url: "/x".to_string(), value: vec![] };
    assert_eq!(begin().on_client_state(Some(broken)).unwrap_err(), Error::ClientStateDecode);
}

#[test]
fn update_message_is_the_encoded_message() {
    let header = Any { type_url: "/h".to_string(), value: vec![1, 2] };
    let any = msg_update_client(&client_id("07-tendermint-1"), header, "cosmos1signer".to_string());
    let theirs = ibc_relayer_types::core::ics02_client::msgs::update_client::MsgUpdateClient {
        client_id: ibc_relayer_types::core::ics24_host::identifier::ClientId::from_str(
            "07-tendermint-1",
        )
        .unwrap(),
        header: ibc_proto::google::protobuf::Any { type_url: "/h".to_string(), value: vec![1, 2] },
        signer: ibc_relayer_types::signer::Signer::from_str("cosmos1signer").unwrap(),
    };
    assert_eq!(any.type_url, theirs.type_url());
    assert_eq!(any.value, theirs.encode_vec().unwrap());
}

fn typed(event: u32, kind: &str) -> Option<TypedEvent<u32>> {
    Some(TypedEvent {
        event,
        is_client: kind == "client",
        is_connection: kind == "connection",
        is_channel: kind == "channel",
    })
}

fn tx_events(query: &str) -> Vec<u32> {
    let report = Report {
        query: query.to_string(),
        data: ReportData::Tx {
            height: 12,
            events: vec![
                typed(1, "client"),
                None,
                typed(2, "connection"),
                typed(3, "channel"),
                typed(4, "client"),
                typed(5, "none"),
            ],
        },
    };
    client()
        .ibc_events(report)
        .into_iter()
        .map(|event| {
            assert_eq!(event.height, Height::new(7, 12).unwrap());
            match event.event {
                ObservedEvent::Reported(event) => event,
                ObservedEvent::NewBlock => panic!("no block was reported"),
            }
        })
        .collect()
}

#[test]
fn transactions_report_the_events_of_their_subscription() {
    assert_eq!(tx_events("message.module = 'ibc_client'"), vec![1, 4]);
    assert_eq!(tx_events("message.module = 'ibc_connection'"), vec![2]);
    assert_eq!(tx_events("message.module = 'ibc_channel'"), vec![3]);
    assert_eq!(tx_events("tm.event = 'NewBlock'"), Vec::<u32>::new());
}

#[test]
fn blocks_are_reported_to_their_subscription() {
    let report = |query: &str| Report::<u32> {
        query: query.to_string(),
        data: ReportData::NewBlock(Some(13)),
    };
    let events = client().ibc_events(report("tm.event = 'NewBlock'"));
    assert_eq!(events.len(), 1);
    assert!(matches!(events[0].event, ObservedEvent::NewBlock));
    assert_eq!(events[0].height, Height::new(7, 13).unwrap());
    assert_eq!(client().ibc_events(report("message.module = 'ibc_client'")).len(), 0);
    let other = Report::<u32> { query: String::new(), data: ReportData::Other };
    assert_eq!(client().ibc_events(other).len(), 0);
    let events = events_of_report(3, report("tm.event = 'NewBlock'"));
    assert_eq!(events[0].height, Height::new(3, 13).unwrap());
}

#[test]
fn subscriptions_have_the_queries_of_the_node() {
    let texts: Vec<String> = ibc_subscriptions()
        .into_iter()
        .map(|subscription| match subscription {
            Subscription::NewBlock => tendermint_rpc::query::Query::from(
                tendermint_rpc::query::EventType::NewBlock,
            )
            .to_string(),
            Subscription::Equal { key, value } => {
                tendermint_rpc::query::Query::eq(key, value).to_string()
            }
        })
        .collect();
    assert_eq!(
        texts,
        vec![
            "tm.event = 'NewBlock'",
            "message.module = 'ibc_client'",
            "message.module = 'ibc_connection'",
            "message.module = 'ibc_channel'",
        ]
    );
}

#[test]
fn scans_compose() {
    let results = |block: u64| match block % 3 {
        0 => None,
        1 => Some(vec![vec![Some(block), None], vec![Some(block + 100)]]),
        _ => Some(vec![vec![None], vec![], vec![Some(block)]]),
    };
    let scan = |from: u64, to: u64| -> Vec<u64> {
        let mut scan: EventScan<u64> = since(Height::new(0, from).unwrap()).on_latest_block(to);
        while let Some(block) = scan.block() {
            scan.on_block(results(block));
        }
        scan.finish().into_iter().map(|event| event.event).collect()
    };
    for middle in 1..=12 {
        let mut parts = scan(1, middle);
        parts.extend(scan(middle, 12));
        assert_eq!(parts, scan(1, 12));
    }
}
