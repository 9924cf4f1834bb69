use hyperspace_light::error::Error;
use hyperspace_light::ibc::any::Any;
use hyperspace_light::ibc::channel::{RawChannel, RawCounterparty};
use hyperspace_light::ibc::decode::{
    client_latest_height, consensus_reply, consensus_time_reply, periods_in_range, ConsensusReply,
};
use hyperspace_light::ibc::height::{Height, RawHeight};
use hyperspace_light::ibc::identifier::{ChannelId, ClientId, PortId};
use hyperspace_light::packets::types::PacketInfo;
use hyperspace_light::primitives::search::{find_suitable_proof_height_for_client, SearchStep};
use hyperspace_light::primitives::timeouts::{
    query_maximum_height_for_timeout_proofs, MaximumTimeoutHeight, PacketTimeout,
};
use hyperspace_light::primitives::undelivered::{
    query_undelivered_acks, query_undelivered_sequences, DeliveryQuery,
};

fn client() -> ClientId {
    ClientId::from_str("07-tendermint-0").unwrap()
}

fn run(start: u64, end: u64, target: Option<u64>, answers: &[ConsensusReply]) -> (Option<u64>, usize) {
    let at = Height::new(2, 99).unwrap();
    let mut search = find_suitable_proof_height_for_client(
        &at,
        &client(),
        &Height::new(1, start).unwrap(),
        target,
        &Height::new(1, end).unwrap(),
    );
    let mut asked = 0;
    loop {
        match search.step() {
            SearchStep::Done(found) => {
                return (
                    found.map(|height| {
                        assert_eq!(height.revision_number(), 1);
                        height.revision_height()
                    }),
                    asked,
                )
            }
            SearchStep::Query { at, client_id, consensus_height } => {
                assert_eq!(at, Height::new(2, 99).unwrap());
                assert_eq!(client_id.as_str(), "07-tendermint-0");
                assert_eq!(consensus_height.revision_number(), 1);
                asked += 1;
                let height = consensus_height.revision_height();
                assert!(start <= height && height <= end);
                search.on_consensus(answers[height as usize]);
            }
        }
    }
}

fn first(start: u64, end: u64, target: u64, answers: &[ConsensusReply]) -> Option<u64> {
    (start..=end).find(|h| match answers[*h as usize] {
        ConsensusReply::At(time) => time >= target,
        _ => false,
    })
}

#[test]
fn search_for_a_time_finds_the_first_height() {
    // Every pattern of missing states over eight heights, with growing times.
    for missing in 0u32..256 {
        let answers: Vec<ConsensusReply> = (0..9u64)
            .map(|h| {
                if h > 0 && missing & (1 << (h - 1)) != 0 {
                    ConsensusReply::Missing
                } else {
                    ConsensusReply::At(h * 10)
                }
            })
            .collect();
        for start in 1..=8 {
            for end in 1..=8 {
                for target in [0, 5, 10, 35, 40, 75, 80, 81] {
                    let (found, asked) = run(start, end, Some(target), &answers);
                    assert_eq!(found, first(start, end, target, &answers));
                    assert!(asked as u64 <= 2 * 8 + 2);
                }
            }
        }
    }
}

#[test]
fn search_without_a_time_finds_the_first_state() {
    let mut answers = vec![ConsensusReply::Missing; 10];
    assert_eq!(run(1, 9, None, &answers), (None, 9));
    answers[6] = ConsensusReply::At(0);
    assert_eq!(run(1, 9, None, &answers), (Some(6), 6));
    answers[4] = ConsensusReply::Unreadable;
    assert_eq!(run(1, 9, None, &answers).0, Some(4));
    assert_eq!(run(7, 9, None, &answers).0, None);
    assert_eq!(run(5, 4, None, &answers), (None, 0));
}

#[test]
fn unreadable_state_ends_the_search_for_a_time() {
    let mut answers: Vec<ConsensusReply> = (0..10u64).map(ConsensusReply::At).collect();
    answers[5] = ConsensusReply::Unreadable;
    assert_eq!(run(1, 9, Some(3), &answers), (None, 1));
}

#[test]
fn unreadable_start_of_a_range_without_a_middle_is_passed_over() {
    let answers = [
        ConsensusReply::Missing,
        ConsensusReply::Unreadable,
        ConsensusReply::Missing,
        ConsensusReply::At(30),
        ConsensusReply::At(40),
    ];
    assert_eq!(run(1, 4, Some(30), &answers).0, Some(3));
    assert_eq!(run(1, 4, Some(35), &answers).0, Some(4));
}

#[test]
fn found_height_is_suitable_even_where_times_run_backwards() {
    let times = [0u64, 9, 1, 8, 2, 7, 3, 6];
    let answers: Vec<ConsensusReply> = times.iter().map(|t| ConsensusReply::At(*t)).collect();
    for target in 0..10 {
        if let Some(found) = run(1, 7, Some(target), &answers).0 {
            assert!(times[found as usize] >= target);
        }
    }
}

fn consensus_state(seconds: i64) -> Any {
    let state = ibc_relayer_types::clients::ics07_tendermint::consensus_state::ConsensusState::new(
        vec![1u8; 32].into(),
        tendermint::Time::from_unix_timestamp(seconds, 0).unwrap(),
        tendermint::Hash::Sha256([7; 32]),
    );
    let any = ibc_proto::google::protobuf::Any::from(state);
    Any { type_url: any.type_url, value: any.value }
}

#[test]
fn consensus_states_are_read() {
    assert_eq!(
        consensus_reply(Some(consensus_state(1_600_000_000))),
        Some(ConsensusReply::At(1_600_000_000_000_000_000))
    );
    assert_eq!(consensus_reply(Some(consensus_state(0))), Some(ConsensusReply::At(0)));
    assert_eq!(consensus_reply(Some(consensus_state(-1))), None);
    assert_eq!(consensus_reply(None), Some(ConsensusReply::Unreadable));
    let mut state = consensus_state(5);
    state.type_url = "/x".to_string();
    assert_eq!(consensus_reply(Some(state)), Some(ConsensusReply::Unreadable));
    assert_eq!(consensus_time_reply(None), Some(ConsensusReply::Unreadable));
    assert_eq!(consensus_time_reply(Some(None)), None);
    assert_eq!(consensus_time_reply(Some(Some(7))), Some(ConsensusReply::At(7)));
    assert_eq!(
        consensus_time_reply(Some(Some(u64::MAX as u128))),
        Some(ConsensusReply::At(u64::MAX))
    );
    assert_eq!(consensus_time_reply(Some(Some(u64::MAX as u128 + 1))), None);
}

fn client_state(trusting: i64, unbonding: Option<i64>, drift: Option<i64>) -> Any {
    let period = |seconds| ibc_proto::google::protobuf::Duration { seconds, nanos: 0 };
    #[allow(deprecated)]
    let state = ibc_proto::ibc::lightclients::tendermint::v1::ClientState {
        chain_id: "ibc-0".to_string(),
        trust_level: Some(ibc_proto::ibc::lightclients::tendermint::v1::Fraction {
            numerator: 1,
            denominator: 3,
        }),
        trusting_period: Some(period(trusting)),
        unbonding_period: unbonding.map(period),
        max_clock_drift: drift.map(period),
        frozen_height: None,
        latest_height: Some(ibc_proto::ibc::core::client::v1::Height {
            revision_number: 0,
            revision_height: 40,
        }),
        proof_specs: vec![],
        upgrade_path: vec!["upgrade".to_string()],
        allow_update_after_expiry: true,
        allow_update_after_misbehaviour: true,
    };
    Any {
        type_url: "/ibc.lightclients.tendermint.v1.ClientState".to_string(),
        value: prost::Message::encode_to_vec(&state),
    }
}

#[test]
fn periods_out_of_range_are_refused() {
    let state = client_state(3, Some(5), Some(6));
    assert_eq!(client_latest_height(&state), Ok(Height::new(0, 40).unwrap()));
    for seconds in [i64::MIN, i64::MIN + 1, i64::MIN + 2, i64::MIN + 3, -1] {
        let states = [
            client_state(seconds, Some(5), Some(6)),
            client_state(3, Some(seconds), Some(6)),
            client_state(3, Some(5), Some(seconds)),
        ];
        for state in states {
            assert_eq!(client_latest_height(&state), Err(Error::ClientStateDecode));
        }
    }
    assert!(periods_in_range(None));
    assert!(periods_in_range(Some((None, None, None))));
    assert!(periods_in_range(Some((Some(i64::MIN + 3), Some(-1), Some(i64::MAX)))));
    assert!(!periods_in_range(Some((Some(i64::MIN + 2), None, None))));
    assert!(!periods_in_range(Some((None, Some(i64::MIN), None))));
    assert!(!periods_in_range(Some((None, None, Some(i64::MIN + 1)))));
}

#[test]
fn client_states_of_other_kinds_are_refused() {
    let broken = Any { type_url: "/x".to_string(), value: vec![] };
    assert_eq!(client_latest_height(&broken).unwrap_err(), Error::ClientStateDecode);
}

#[test]
fn search_without_a_time_does_not_read_states() {
    let height = Height::new(1, 5).unwrap();
    let begin = |target| {
        find_suitable_proof_height_for_client(&height, &client(), &height, target, &height)
    };
    assert_eq!(
        begin(None).reply(Some(consensus_state(-1))),
        Some(ConsensusReply::Unreadable)
    );
    assert_eq!(begin(None).reply(None), Some(ConsensusReply::Unreadable));
    assert_eq!(begin(Some(1)).reply(Some(consensus_state(-1))), None);
    assert_eq!(begin(Some(1)).reply(None), Some(ConsensusReply::Unreadable));
    assert_eq!(
        begin(Some(1)).reply(Some(consensus_state(2))),
        Some(ConsensusReply::At(2_000_000_000))
    );
}

fn channel(ordering: i32, channel_id: &str) -> RawChannel {
    RawChannel {
        state: 3,
        ordering,
        counterparty: Some(RawCounterparty {
            port_id: "oracle".to_string(),
            channel_id: channel_id.to_string(),
        }),
        connection_hops: vec!["connection-0".to_string()],
        version: String::new(),
    }
}

fn heights() -> (Height, Height) {
    (Height::new(0, 10).unwrap(), Height::new(1, 20).unwrap())
}

fn ids() -> (ChannelId, PortId) {
    (ChannelId::from_str("channel-0").unwrap(), PortId::transfer())
}

#[test]
fn unordered_channel_is_asked_for_unreceived_packets() {
    let (source, sink) = heights();
    let (channel_id, port_id) = ids();
    let search = query_undelivered_sequences(source, sink, channel_id, port_id);
    assert_eq!(search.query().at, source);
    assert_eq!(search.query().channel_id.as_str(), "channel-0");
    assert_eq!(search.query().port_id.as_str(), "transfer");
    let sent = search.on_channel(Some(channel(1, "channel-7"))).unwrap();
    assert_eq!(sent.query().at, source);
    match sent.on_commitments(vec![1, 2, 3]).unwrap() {
        DeliveryQuery::Unreceived(query) => {
            assert_eq!(query.at, sink);
            assert_eq!(query.channel_id.as_str(), "channel-7");
            assert_eq!(query.port_id.as_str(), "oracle");
            assert_eq!(query.seqs, vec![1, 2, 3]);
        }
        DeliveryQuery::NextSequence(_) => panic!("the channel is unordered"),
    }
}

#[test]
fn ordered_channel_has_delivered_what_comes_before_the_next_sequence() {
    let (source, sink) = heights();
    let (channel_id, port_id) = ids();
    let sent = query_undelivered_sequences(source, sink, channel_id, port_id)
        .on_channel(Some(channel(2, "channel-7")))
        .unwrap();
    match sent.on_commitments(vec![9, 3, 4, 5, 1, 4]).unwrap() {
        DeliveryQuery::NextSequence(search) => {
            assert_eq!(search.query().at, sink);
            assert_eq!(search.query().channel_id.as_str(), "channel-7");
            assert_eq!(search.query().port_id.as_str(), "oracle");
            assert_eq!(search.on_next_sequence(4), vec![9, 4, 5, 4]);
        }
        DeliveryQuery::Unreceived(_) => panic!("the channel is ordered"),
    }
}

#[test]
fn undelivered_sequences_need_a_channel_with_a_counterparty() {
    let begin = || {
        let (source, sink) = heights();
        let (channel_id, port_id) = ids();
        query_undelivered_sequences(source, sink, channel_id, port_id)
    };
    assert_eq!(begin().on_channel(None).unwrap_err(), Error::ChannelMissing);
    assert_eq!(begin().on_channel(Some(channel(9, "channel-7"))).unwrap_err(), Error::ChannelDecode);
    let sent = begin().on_channel(Some(channel(1, ""))).unwrap();
    assert_eq!(sent.on_commitments(vec![]).unwrap_err(), Error::CounterpartyChannelMissing);
}

#[test]
fn unseen_acknowledgements_are_asked_for_at_the_counterparty() {
    let begin = || {
        let (source, sink) = heights();
        let (channel_id, port_id) = ids();
        query_undelivered_acks(source, sink, channel_id, port_id)
    };
    let query = begin()
        .on_channel(Some(channel(2, "channel-7")))
        .unwrap()
        .on_acknowledgements(vec![6, 8])
        .unwrap();
    assert_eq!(query.at, heights().1);
    assert_eq!(query.channel_id.as_str(), "channel-7");
    assert_eq!(query.port_id.as_str(), "oracle");
    assert_eq!(query.seqs, vec![6, 8]);
    assert_eq!(begin().on_channel(None).unwrap_err(), Error::ChannelMissing);
    let acks = begin().on_channel(Some(channel(2, ""))).unwrap();
    assert_eq!(acks.on_acknowledgements(vec![]).unwrap_err(), Error::CounterpartyChannelMissing);
}

fn packet(timeout_height: u64, timeout_timestamp: u64) -> PacketInfo {
    PacketInfo {
        height: 1,
        sequence: 1,
        source_port: "transfer".to_string(),
        source_channel: "channel-0".to_string(),
        destination_port: "transfer".to_string(),
        destination_channel: "channel-1".to_string(),
        channel_order: String::new(),
        data: vec![],
        timeout_height: RawHeight { revision_number: 0, revision_height: timeout_height },
        timeout_timestamp,
        ack: None,
    }
}

fn maximum() -> MaximumTimeoutHeight {
    query_maximum_height_for_timeout_proofs(heights().0, heights().1, client(), vec![])
}

#[test]
fn maximum_timeout_height_is_the_highest_bound() {
    let mut search = maximum();
    let late = packet(50, 100);
    assert_eq!(search.on_creation_time(&late, 100), PacketTimeout::Elapsed);
    let early = packet(70, 100);
    assert_eq!(search.on_creation_time(&early, 40), PacketTimeout::Left(60));
    search.on_block_delay(&early, 59);
    let other = packet(55, 100);
    assert_eq!(search.on_creation_time(&other, 0), PacketTimeout::Left(100));
    search.on_block_delay(&other, 1000);
    assert_eq!(search.finish(), Some(60));
    let mut search = maximum();
    search.on_block_delay(&packet(u64::MAX, 1), u64::MAX);
    assert_eq!(search.finish(), Some(u64::MAX));
    assert_eq!(maximum().finish(), None);
}

#[test]
fn maximum_timeout_height_needs_the_client_state() {
    let mut search = maximum();
    search.on_block_delay(&packet(50, 1), 5);
    assert_eq!(search.on_client_state(Some(client_state(3, Some(5), Some(6)))), Some(40));
    assert_eq!(search.finish(), Some(6));
    let broken = Any { type_url: "/x".to_string(), value: vec![1] };
    for state in [None, Some(broken), Some(client_state(i64::MIN, None, None))] {
        let mut search = maximum();
        search.on_block_delay(&packet(50, 1), 5);
        assert_eq!(search.on_client_state(state), None);
        search.on_block_delay(&packet(70, 1), 60);
        assert_eq!(search.finish(), None);
    }
}

#[test]
fn maximum_timeout_height_is_missing_where_a_query_fails() {
    let mut search = maximum();
    assert_eq!(search.on_creation_time(&packet(50, 100), 100), PacketTimeout::Elapsed);
    search.on_failure();
    assert_eq!(search.finish(), None);
}

#[test]
fn maximum_timeout_height_asks_at_the_latest_heights() {
    let channels = vec![ids(), (ChannelId::from_str("channel-4").unwrap(), PortId::transfer())];
    let mut search =
        query_maximum_height_for_timeout_proofs(heights().0, heights().1, client(), channels);
    let query = search.client_query();
    assert_eq!(query.at, heights().0);
    assert_eq!(query.client_id.as_str(), "07-tendermint-0");
    let (undelivered, packets) = search.next_channel().unwrap();
    assert_eq!(undelivered.query().at, heights().0);
    assert_eq!(undelivered.query().channel_id.as_str(), "channel-0");
    assert_eq!(undelivered.query().port_id.as_str(), "transfer");
    let sent = undelivered.on_channel(Some(channel(1, "channel-7"))).unwrap();
    match sent.on_commitments(vec![1]).unwrap() {
        DeliveryQuery::Unreceived(query) => assert_eq!(query.at, heights().1),
        DeliveryQuery::NextSequence(_) => panic!("the channel is unordered"),
    }
    let query = packets.on_undelivered(vec![4, 2]);
    assert_eq!(query.channel_id.as_str(), "channel-0");
    assert_eq!(query.port_id.as_str(), "transfer");
    assert_eq!(query.seqs, vec![4, 2]);
    let (undelivered, packets) = search.next_channel().unwrap();
    assert_eq!(undelivered.query().channel_id.as_str(), "channel-4");
    assert_eq!(packets.on_undelivered(vec![]).channel_id.as_str(), "channel-4");
    assert!(search.next_channel().is_none());
}

#[test]
fn no_channel_is_asked_about_after_a_failure() {
    let mut search =
        query_maximum_height_for_timeout_proofs(heights().0, heights().1, client(), vec![ids()]);
    search.on_failure();
    assert!(search.next_channel().is_none());
    assert_eq!(search.finish(), None);
}
