use hyperspace_light::ibc::any::Any;
use hyperspace_light::ibc::height::Height;
use hyperspace_light::primitives::traits::UpdateType;
use hyperspace_light::queue::flush_message_batch;
use hyperspace_light::relay::{process_finality_event, UpdateWait, WaitStep};

fn message(n: u8) -> Any {
    Any { type_url: format!("/m{}", n), value: vec![n] }
}

fn messages(n: u8) -> Vec<Any> {
    (0..n).map(message).collect()
}

fn sizes(batches: &[Vec<Any>]) -> Vec<usize> {
    batches.iter().map(|batch| batch.len()).collect()
}

#[test]
fn light_messages_are_sent_at_once() {
    assert_eq!(sizes(&flush_message_batch(messages(5), 99, 100)), vec![5]);
    assert_eq!(sizes(&flush_message_batch(messages(0), 0, 100)), vec![0]);
}

#[test]
fn heavy_messages_are_sent_in_batches() {
    assert_eq!(sizes(&flush_message_batch(messages(5), 100, 100)), vec![2, 2, 1]);
    assert_eq!(sizes(&flush_message_batch(messages(4), 199, 100)), vec![2, 2]);
    assert_eq!(sizes(&flush_message_batch(messages(9), 200, 100)), vec![4, 4, 1]);
    assert_eq!(sizes(&flush_message_batch(messages(9), 350, 100)), vec![5, 4]);
    assert_eq!(sizes(&flush_message_batch(messages(0), 350, 100)), Vec::<usize>::new());
}

#[test]
fn batches_are_the_chunks_of_the_messages() {
    for n in 0..20u8 {
        for weight in [100u64, 199, 200, 300, 1000] {
            let ratio = (weight / 100) as usize;
            let chunk = if ratio == 1 { ratio * 2 } else { ratio + 2 };
            let wanted: Vec<Vec<u8>> = (0..n)
                .collect::<Vec<u8>>()
                .chunks(chunk)
                .map(|batch| batch.to_vec())
                .collect();
            let found: Vec<Vec<u8>> = flush_message_batch(messages(n), weight, 100)
                .iter()
                .map(|batch| batch.iter().map(|any| any.value[0]).collect())
                .collect();
            assert_eq!(found, wanted);
        }
    }
}

#[test]
fn only_authority_changes_are_mandatory() {
    assert!(UpdateType::Optional.is_optional());
    assert!(!UpdateType::Mandatory.is_optional());
}

#[test]
fn timeouts_are_flushed_to_the_source_where_there_are_any() {
    let height = Height::new(0, 5).unwrap();
    let relay = process_finality_event(messages(2), messages(3), height, true);
    assert_eq!(relay.timeouts.unwrap().len(), 3);
    let relay = process_finality_event(messages(2), vec![], height, false);
    assert!(relay.timeouts.is_none());
}

#[test]
fn messages_wait_for_the_height_of_their_proofs() {
    let height = Height::new(1, 5).unwrap();
    let wait = process_finality_event(messages(2), vec![], height, true).wait;
    let wait = match wait.on_source_height(&Height::new(1, 4).unwrap()) {
        WaitStep::Sleep { millis, wait } => {
            assert_eq!(millis, 2000);
            wait
        }
        WaitStep::FetchUpdate(_) => panic!("the source is not there yet"),
    };
    let wait = match wait.on_source_height(&Height::new(0, 9).unwrap()) {
        WaitStep::Sleep { wait, .. } => wait,
        WaitStep::FetchUpdate(_) => panic!("the source is in an earlier revision"),
    };
    match wait.on_source_height(&height) {
        WaitStep::Sleep { .. } => panic!("the source is there"),
        WaitStep::FetchUpdate(wait) => {
            let sent = wait.on_update(Some((message(99), UpdateType::Optional))).unwrap();
            assert_eq!(sent.len(), 3);
        }
    }
}

fn at_once(messages: Vec<Any>, packet_events: bool) -> UpdateWait {
    let height = Height::new(1, 5).unwrap();
    match process_finality_event(messages, vec![], height, packet_events)
        .wait
        .on_source_height(&height)
    {
        WaitStep::FetchUpdate(wait) => wait,
        WaitStep::Sleep { .. } => panic!("the source is there"),
    }
}

#[test]
fn update_is_skipped_only_where_nothing_is_new() {
    for optional in [true, false] {
        for packet_events in [true, false] {
            for count in [0u8, 3] {
                let wait = at_once(messages(count), packet_events);
                let update_type =
                    if optional { UpdateType::Optional } else { UpdateType::Mandatory };
                let sent = wait.on_update(Some((message(99), update_type)));
                assert_eq!(sent.is_none(), optional && !packet_events && count == 0);
                if let Some(sent) = sent {
                    assert_eq!(sent[0].value, vec![99]);
                    assert_eq!(sent.len(), count as usize + 1);
                    for i in 0..count {
                        assert_eq!(sent[i as usize + 1].value, vec![i]);
                    }
                }
            }
        }
    }
    let wait = at_once(messages(1), true);
    assert!(wait.on_update(None).is_none());
}
