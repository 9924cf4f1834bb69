//! The events of a chain.
use crate::cosmos::client::CosmosClient;
use crate::error::Error;
use crate::ibc::any::{Any, AnyView};
use crate::ibc::decode::{client_latest_height, readable_client_height};
use crate::ibc::height::{Height, RawHeight};
use crate::ibc::identifier::{ChannelId, ClientId, ConnectionId};
use crate::ibc::message::{encode_update_client, update_client_bytes};
use crate::ibc::tendermint::{
    chain_revision, chain_version, equality_query, equality_query_text,
    lemma_plain_text_is_not_escaped, new_block_query_text, MAX_BLOCK,
};
use vstd::prelude::*;

verus! {

/// What the relayer reads from an event.
#[derive(Debug)]
pub enum IbcEvent {
    /// A block was made.
    NewBlock,
    /// A client was created.
    CreateClient { client_id: ClientId },
    /// The handshake of a connection was completed.
    OpenConfirmConnection {
        connection_id: Option<ConnectionId>,
        counterparty_connection_id: Option<ConnectionId>,
    },
    /// The handshake of a channel was completed.
    OpenConfirmChannel {
        channel_id: Option<ChannelId>,
        counterparty_channel_id: Option<ChannelId>,
    },
    /// A packet was acknowledged.
    AcknowledgePacket,
    /// A packet timed out.
    TimeoutPacket,
    /// A packet timed out on a closed channel.
    TimeoutOnClosePacket,
    /// Any other event.
    Other,
}

/// An event and the height that it is dealt with at.
#[derive(Debug)]
pub struct IbcEventWithHeight<E> {
    pub event: E,
    pub height: Height,
}

/// The events among what a transaction reported: what is no IBC event is left out.
pub open spec fn tx_events<E>(tx: Seq<Option<E>>) -> Seq<E>
    decreases tx.len(),
{
    if tx.len() == 0 {
        Seq::empty()
    } else {
        match tx.last() {
            Some(event) => tx_events(tx.drop_last()).push(event),
            None => tx_events(tx.drop_last()),
        }
    }
}

/// The events of transactions, one after the other.
pub open spec fn txs_events<E>(txs: Seq<Vec<Option<E>>>) -> Seq<E>
    decreases txs.len(),
{
    if txs.len() == 0 {
        Seq::empty()
    } else {
        txs_events(txs.drop_last()) + tx_events(txs.last()@)
    }
}

/// The events of a block, which may have no transaction results.
pub open spec fn block_events<E>(txs: Option<Vec<Vec<Option<E>>>>) -> Seq<E> {
    match txs {
        Some(txs) => txs_events(txs@),
        None => Seq::empty(),
    }
}

/// The events of the blocks with the numbers `from` to `to`.
pub open spec fn blocks_events<E>(
    from: int,
    to: int,
    blocks: spec_fn(int) -> Option<Vec<Vec<Option<E>>>>,
) -> Seq<E>
    decreases to - from + 1,
{
    if to < from {
        Seq::empty()
    } else {
        blocks_events(from, to - 1, blocks) + block_events(blocks(to))
    }
}

/// Events with the height that they are dealt with at.
pub open spec fn at_height<E>(events: Seq<E>, height: Height) -> Seq<IbcEventWithHeight<E>> {
    events.map_values(|event: E| IbcEventWithHeight { event, height })
}

/// The beginning of the query for the latest events. The counterparty is to be asked, as of its
/// latest height, for a client state.
#[derive(Debug)]
pub struct LatestEvents {
    at: Height,
    client_id: ClientId,
}

/// What the query for the latest events begins with.
#[verifier::ext_equal]
pub struct LatestEventsView {
    /// The height as of which the client state is asked for.
    pub at: RawHeight,
    /// The client that is asked about.
    pub client_id: Seq<char>,
}

impl View for LatestEvents {
    type V = LatestEventsView;

    closed spec fn view(&self) -> LatestEventsView {
        LatestEventsView { at: self.at@, client_id: self.client_id@ }
    }
}

/// The query for the latest events once the client is known. The number of the block that has
/// become final is to be given.
#[derive(Debug)]
pub struct EventsSinceClient {
    client_height: Height,
}

impl View for EventsSinceClient {
    type V = RawHeight;

    /// The latest height of the client.
    closed spec fn view(&self) -> RawHeight {
        self.client_height@
    }
}

/// A scan of the blocks that the client does not know yet. The results of one block after the
/// other are to be asked for.
#[derive(Debug)]
pub struct EventScan<E> {
    client_height: Height,
    next: u64,
    latest: u64,
    events: Vec<IbcEventWithHeight<E>>,
}

/// What a scan of blocks holds.
#[verifier::ext_equal]
pub struct EventScanView<E> {
    /// The latest height of the client.
    pub client_height: Height,
    /// The block that is asked for next.
    pub next: u64,
    /// The last block that is asked for.
    pub latest: u64,
    /// The events found so far.
    pub events: Seq<IbcEventWithHeight<E>>,
}

impl<E> View for EventScan<E> {
    type V = EventScanView<E>;

    closed spec fn view(&self) -> EventScanView<E> {
        EventScanView {
            client_height: self.client_height,
            next: self.next,
            latest: self.latest,
            events: self.events@,
        }
    }
}

/// Begins the query for the events that the counterparty's client does not know yet.
pub fn query_latest_ibc_events(
    counterparty_client_id: ClientId,
    latest_counterparty_height: Height,
) -> (query: LatestEvents)
    ensures
        query@ == (LatestEventsView {
            at: latest_counterparty_height@,
            client_id: counterparty_client_id@,
        }),
{
    LatestEvents { at: latest_counterparty_height, client_id: counterparty_client_id }
}

impl LatestEvents {
    /// The height as of which the client state is asked for.
    pub fn at(&self) -> (at: Height)
        ensures
            at@ == self@.at,
    {
        self.at
    }

    /// The client that is asked about.
    pub fn client_id(&self) -> (client_id: &ClientId)
        ensures
            client_id@ == self@.client_id,
    {
        &self.client_id
    }

    /// Takes in the latest height of the client.
    pub fn on_client_height(self, client_height: Height) -> (next: EventsSinceClient)
        ensures
            next@ == client_height@,
    {
        EventsSinceClient { client_height }
    }

    /// Takes in the client state.
    pub fn on_client_state(self, client_state: Option<Any>) -> (next: Result<
        EventsSinceClient,
        Error,
    >)
        ensures
            client_state is None ==> next == Err::<EventsSinceClient, Error>(
                Error::ClientStateMissing,
            ),
            client_state is Some ==> {
                let height = readable_client_height(
                    client_state->0.type_url@,
                    client_state->0.value@,
                );
                &&& next is Ok <==> height is Some
                &&& next is Ok ==> height == Some(next->Ok_0@)
                &&& next is Err ==> next->Err_0 == Error::ClientStateDecode
            },
    {
        match client_state {
            None => Err(Error::ClientStateMissing),
            Some(state) => match client_latest_height(&state) {
                Ok(client_height) => Ok(self.on_client_height(client_height)),
                Err(error) => Err(error),
            },
        }
    }
}

impl EventsSinceClient {
    /// The latest height of the client.
    pub fn client_height(&self) -> (height: Height)
        ensures
            height@ == self@,
    {
        self.client_height
    }

    /// Takes in the number of the block that has become final. The blocks after the client's
    /// latest one, up to and with that block, are scanned.
    pub fn on_latest_block<E>(self, latest: u64) -> (scan: EventScan<E>)
        requires
            latest <= MAX_BLOCK,
            self@.revision_height < u64::MAX,
        ensures
            scan@.client_height@ == self@,
            scan@.next == self@.revision_height + 1,
            scan@.latest == latest,
            scan@.events == Seq::<IbcEventWithHeight<E>>::empty(),
    {
        EventScan {
            client_height: self.client_height,
            next: self.client_height.revision_height() + 1,
            latest,
            events: Vec::new(),
        }
    }
}

fn push_tx_events<E>(
    events: &mut Vec<IbcEventWithHeight<E>>,
    tx: Vec<Option<E>>,
    height: Height,
)
    ensures
        final(events)@ == old(events)@ + at_height(tx_events(tx@), height),
{
    let ghost all = tx@;
    let ghost before = events@;
    assert(all.take(0) =~= Seq::empty());
    assert(events@ =~= before + at_height(tx_events(all.take(0)), height));
    for event in iter: tx.into_iter()
        invariant
            iter.seq() == all,
            events@ == before + at_height(tx_events(all.take(iter.index())), height),
    {
        proof {
            let i = iter.index();
            assert(all.take(i + 1).drop_last() =~= all.take(i));
            assert(all.take(i + 1).last() == all[i]);
        }
        match event {
            Some(event) => {
                events.push(IbcEventWithHeight { event, height });
                assert(events@ =~= before + at_height(
                    tx_events(all.take(iter.index())).push(event),
                    height,
                ));
            },
            None => {},
        }
    }
    assert(all.take(all.len() as int) =~= all);
}

impl<E> EventScan<E> {
    /// The block whose results are asked for next, while there is one.
    pub fn block(&self) -> (block: Option<u64>)
        ensures
            block == (if self@.next <= self@.latest {
                Some(self@.next)
            } else {
                None
            }),
    {
        if self.next <= self.latest {
            Some(self.next)
        } else {
            None
        }
    }

    /// Takes in the transaction results of the block that was asked for: for each transaction,
    /// what it reported, with the IBC event that it is, where it is one. The events are dealt with
    /// at the client's height.
    pub fn on_block(&mut self, txs: Option<Vec<Vec<Option<E>>>>)
        requires
            old(self)@.next <= old(self)@.latest <= MAX_BLOCK,
        ensures
            final(self)@ == (EventScanView {
                next: (old(self)@.next + 1) as u64,
                events: old(self)@.events + at_height(
                    block_events(txs),
                    old(self)@.client_height,
                ),
                ..old(self)@
            }),
    {
        let ghost before = self.events@;
        let height: Height = self.client_height;
        match txs {
            None => {
                assert(self.events@ =~= before + at_height(block_events(txs), height));
            },
            Some(txs) => {
                let ghost all = txs@;
                assert(all.take(0) =~= Seq::empty());
                assert(self.events@ =~= before + at_height(txs_events(all.take(0)), height));
                for tx in iter: txs.into_iter()
                    invariant
                        iter.seq() == all,
                        self.client_height == old(self).client_height,
                        self.latest == old(self).latest,
                        self.next == old(self).next,
                        self.events@ == before + at_height(
                            txs_events(all.take(iter.index())),
                            height,
                        ),
                {
                    proof {
                        let i = iter.index();
                        assert(all.take(i + 1).drop_last() =~= all.take(i));
                        assert(all.take(i + 1).last() == all[i]);
                    }
                    push_tx_events(&mut self.events, tx, height);
                    assert(self.events@ =~= before + at_height(
                        txs_events(all.take(iter.index())) + tx_events(tx@),
                        height,
                    ));
                }
                assert(all.take(all.len() as int) =~= all);
            },
        }
        self.next = self.next + 1;
    }

    /// The events of the blocks that were scanned.
    pub fn finish(self) -> (events: Vec<IbcEventWithHeight<E>>)
        ensures
            events@ == self@.events,
    {
        self.events
    }
}

/// Scans compose: a scan up to a block and one from the block after it find together what one
/// scan finds, so that no event is missed and none is found twice.
pub proof fn law_scans_compose<E>(
    from: int,
    middle: int,
    to: int,
    blocks: spec_fn(int) -> Option<Vec<Vec<Option<E>>>>,
)
    requires
        from - 1 <= middle <= to,
    ensures
        blocks_events(from, middle, blocks) + blocks_events(middle + 1, to, blocks)
            == blocks_events(from, to, blocks),
    decreases to - middle,
{
    if middle < to {
        law_scans_compose(from, middle, to - 1, blocks);
        assert(blocks_events(from, middle, blocks) + blocks_events(middle + 1, to, blocks)
            =~= blocks_events(from, middle, blocks) + blocks_events(middle + 1, to - 1, blocks)
            + block_events(blocks(to)));
    } else {
        assert(blocks_events(from, middle, blocks) + blocks_events(middle + 1, to, blocks)
            =~= blocks_events(from, to, blocks));
    }
}

/// What a scan has found in the end, from the block that it asks for next on, where the results of
/// blocks are those of the given function.
pub open spec fn scan_outcome<E>(
    next: int,
    latest: int,
    events: Seq<IbcEventWithHeight<E>>,
    height: Height,
    blocks: spec_fn(int) -> Option<Vec<Vec<Option<E>>>>,
) -> Seq<IbcEventWithHeight<E>>
    decreases latest - next + 1,
{
    if next > latest {
        events
    } else {
        scan_outcome(
            next + 1,
            latest,
            events + at_height(block_events(blocks(next)), height),
            height,
            blocks,
        )
    }
}

/// A scan finds, besides what it has found already, exactly the events of the blocks from the next
/// one to the latest one, in their order.
pub proof fn law_scan_finds_every_event<E>(
    next: int,
    latest: int,
    events: Seq<IbcEventWithHeight<E>>,
    height: Height,
    blocks: spec_fn(int) -> Option<Vec<Vec<Option<E>>>>,
)
    ensures
        scan_outcome(next, latest, events, height, blocks) == events + at_height(
            blocks_events(next, latest, blocks),
            height,
        ),
    decreases latest - next + 1,
{
    if next > latest {
        assert(events + at_height(blocks_events(next, latest, blocks), height) =~= events);
    } else {
        let found = events + at_height(block_events(blocks(next)), height);
        law_scan_finds_every_event(next + 1, latest, found, height, blocks);
        law_scans_compose(next, next, latest, blocks);
        assert(blocks_events(next, next - 1, blocks) =~= Seq::empty());
        assert(blocks_events(next, next, blocks) =~= block_events(blocks(next)));
        assert(found + at_height(blocks_events(next + 1, latest, blocks), height) =~= events
            + at_height(blocks_events(next, latest, blocks), height));
    }
}

/// The message that updates a client with a header.
pub open spec fn update_client_message(
    client_id: Seq<char>,
    header: AnyView,
    signer: Seq<char>,
) -> AnyView {
    AnyView {
        type_url: "/ibc.core.client.v1.MsgUpdateClient"@,
        value: update_client_bytes(client_id, header, signer),
    }
}

/// The message that updates the chain's client on the counterparty, which signs it.
pub fn msg_update_client(client_id: &ClientId, header: Any, signer: String) -> (message: Any)
    ensures
        message@ == update_client_message(client_id@, header@, signer@),
{
    let value = encode_update_client(client_id.as_str().to_string(), header, signer);
    Any { type_url: "/ibc.core.client.v1.MsgUpdateClient".to_string(), value }
}

/// An IBC event that a transaction reported, and what kinds of event it is one of.
#[derive(Debug)]
pub struct TypedEvent<E> {
    pub event: E,
    pub is_client: bool,
    pub is_connection: bool,
    pub is_channel: bool,
}

/// What a node reports to a subscriber.
#[derive(Debug)]
pub enum ReportData<E> {
    /// A block with a number, where the block came along.
    NewBlock(Option<u64>),
    /// A transaction in a block, with what it reported: the IBC events among it.
    Tx { height: i64, events: Vec<Option<TypedEvent<E>>> },
    /// Anything else.
    Other,
}

/// A report of a node to a subscriber.
#[derive(Debug)]
pub struct Report<E> {
    /// The query that the subscriber gave.
    pub query: String,
    pub data: ReportData<E>,
}

/// An event as a subscriber sees it.
#[derive(Debug)]
pub enum ObservedEvent<E> {
    /// A block was made.
    NewBlock,
    /// An IBC event was reported.
    Reported(E),
}

/// What a node is asked to report.
#[derive(Debug)]
pub enum Subscription {
    /// New blocks.
    NewBlock,
    /// The events with a value under a key.
    Equal { key: String, value: String },
}

/// The text of the query of a subscription.
pub open spec fn subscription_query(subscription: Subscription) -> Seq<char> {
    match subscription {
        Subscription::NewBlock => "tm.event = 'NewBlock'"@,
        Subscription::Equal { key, value } => equality_query(key@, value@),
    }
}

/// What the relayer subscribes to: new blocks and the events of the client, the connection and the
/// channel module.
pub fn ibc_subscriptions() -> (subscriptions: Vec<Subscription>)
    ensures
        subscriptions@.map_values(|subscription: Subscription| subscription_query(subscription))
            == seq![
            "tm.event = 'NewBlock'"@,
            equality_query("message.module"@, "ibc_client"@),
            equality_query("message.module"@, "ibc_connection"@),
            equality_query("message.module"@, "ibc_channel"@),
        ],
{
    let mut subscriptions: Vec<Subscription> = Vec::new();
    subscriptions.push(Subscription::NewBlock);
    subscriptions.push(
        Subscription::Equal { key: "message.module".to_string(), value: "ibc_client".to_string() },
    );
    subscriptions.push(
        Subscription::Equal {
            key: "message.module".to_string(),
            value: "ibc_connection".to_string(),
        },
    );
    subscriptions.push(
        Subscription::Equal { key: "message.module".to_string(), value: "ibc_channel".to_string() },
    );
    assert(subscriptions@.map_values(
        |subscription: Subscription| subscription_query(subscription),
    ) =~= seq![
        "tm.event = 'NewBlock'"@,
        equality_query("message.module"@, "ibc_client"@),
        equality_query("message.module"@, "ibc_connection"@),
        equality_query("message.module"@, "ibc_channel"@),
    ]);
    subscriptions
}

/// Whether an event is one of those that a query is about.
pub open spec fn answers_query<E>(query: Seq<char>, event: TypedEvent<E>) -> bool {
    ||| query == equality_query("message.module"@, "ibc_client"@) && event.is_client
    ||| query == equality_query("message.module"@, "ibc_connection"@) && event.is_connection
    ||| query == equality_query("message.module"@, "ibc_channel"@) && event.is_channel
}

/// The IBC events of a transaction that its subscription is about.
pub open spec fn observed_events<E>(
    query: Seq<char>,
    events: Seq<Option<TypedEvent<E>>>,
) -> Seq<ObservedEvent<E>>
    decreases events.len(),
{
    if events.len() == 0 {
        Seq::empty()
    } else {
        let before = observed_events(query, events.drop_last());
        match events.last() {
            Some(typed) if answers_query(query, typed) => before.push(
                ObservedEvent::Reported(typed.event),
            ),
            _ => before,
        }
    }
}

/// Whether a report needs a height: it is a block for the subscription to blocks, or a
/// transaction.
pub open spec fn needs_height<E>(report: Report<E>) -> bool {
    match report.data {
        ReportData::NewBlock(_) => report.query@ == "tm.event = 'NewBlock'"@,
        ReportData::Tx { .. } => true,
        ReportData::Other => false,
    }
}

/// The block number of a report.
pub open spec fn report_block<E>(report: Report<E>) -> Option<u64> {
    match report.data {
        ReportData::NewBlock(block) => block,
        ReportData::Tx { height, .. } => Some(height as u64),
        ReportData::Other => None,
    }
}

/// The events in a report: the block that was made, or those IBC events of a transaction that its
/// subscription is about.
pub open spec fn report_events<E>(report: Report<E>) -> Seq<ObservedEvent<E>> {
    match report.data {
        ReportData::NewBlock(_) => if needs_height(report) {
            seq![ObservedEvent::NewBlock]
        } else {
            Seq::empty()
        },
        ReportData::Tx { events, .. } => observed_events(report.query@, events@),
        ReportData::Other => Seq::empty(),
    }
}

/// The events in a report of a node of a chain with a revision, with their height.
pub fn events_of_report<E>(revision_number: u64, report: Report<E>) -> (events: Vec<
    IbcEventWithHeight<ObservedEvent<E>>,
>)
    requires
        needs_height(report) ==> report_block(report) is Some && report_block(report)->0 != 0,
    ensures
        events@.map_values(|event: IbcEventWithHeight<ObservedEvent<E>>| event.event)
            == report_events(report),
        forall|i: int|
            0 <= i < events@.len() ==> (#[trigger] events@[i]).height@ == (RawHeight {
                revision_number,
                revision_height: report_block(report)->0,
            }),
{
    let ghost bare = |event: IbcEventWithHeight<ObservedEvent<E>>| event.event;
    let mut events: Vec<IbcEventWithHeight<ObservedEvent<E>>> = Vec::new();
    let query: String = report.query;
    match report.data {
        ReportData::NewBlock(block) => {
            if query == new_block_query_text() {
                let block: u64 = match block {
                    Some(block) => block,
                    None => vstd::pervasive::unreached(),
                };
                let height: Height = match Height::new(revision_number, block) {
                    Ok(height) => height,
                    Err(_) => vstd::pervasive::unreached(),
                };
                events.push(IbcEventWithHeight { event: ObservedEvent::NewBlock, height });
            }
            assert(events@.map_values(bare) =~= report_events(report));
        },
        ReportData::Tx { height: block, events: reported } => {
            let height: Height = match Height::new(revision_number, block as u64) {
                Ok(height) => height,
                Err(_) => vstd::pervasive::unreached(),
            };
            let client: bool = query == equality_query_text("message.module", "ibc_client");
            let connection: bool = query == equality_query_text(
                "message.module",
                "ibc_connection",
            );
            let channel: bool = query == equality_query_text("message.module", "ibc_channel");
            let ghost all = reported@;
            assert(all.take(0) =~= Seq::empty());
            assert(events@.map_values(bare) =~= observed_events(query@, all.take(0)));
            for typed in iter: reported.into_iter()
                invariant
                    iter.seq() == all,
                    client == (query@ == equality_query("message.module"@, "ibc_client"@)),
                    connection == (query@ == equality_query(
                        "message.module"@,
                        "ibc_connection"@,
                    )),
                    channel == (query@ == equality_query("message.module"@, "ibc_channel"@)),
                    bare == |event: IbcEventWithHeight<ObservedEvent<E>>| event.event,
                    events@.map_values(bare) == observed_events(query@, all.take(iter.index())),
                    forall|j: int|
                        0 <= j < events@.len() ==> (#[trigger] events@[j]).height == height,
            {
                let ghost before = events@;
                proof {
                    let i = iter.index();
                    assert(all.take(i + 1).drop_last() =~= all.take(i));
                    assert(all.take(i + 1).last() == all[i]);
                }
                match typed {
                    Some(typed) => {
                        if (client && typed.is_client) || (connection && typed.is_connection) || (
                        channel && typed.is_channel) {
                            events.push(
                                IbcEventWithHeight {
                                    event: ObservedEvent::Reported(typed.event),
                                    height,
                                },
                            );
                            assert(events@.map_values(bare) =~= before.map_values(bare).push(
                                ObservedEvent::Reported(typed.event),
                            ));
                        }
                    },
                    None => {},
                }
            }
            assert(all.take(all.len() as int) =~= all);
        },
        ReportData::Other => {
            assert(events@.map_values(bare) =~= report_events(report));
        },
    }
    events
}

impl CosmosClient {
    /// The events in a report of a node of the chain, with their height in the chain's revision.
    pub fn ibc_events<E>(&self, report: Report<E>) -> (events: Vec<
        IbcEventWithHeight<ObservedEvent<E>>,
    >)
        requires
            needs_height(report) ==> report_block(report) is Some && report_block(report)->0 != 0,
        ensures
            events@.map_values(|event: IbcEventWithHeight<ObservedEvent<E>>| event.event)
                == report_events(report),
            forall|i: int|
                0 <= i < events@.len() ==> (#[trigger] events@[i]).height@ == (RawHeight {
                    revision_number: chain_revision(self.chain_id@),
                    revision_height: report_block(report)->0,
                }),
    {
        events_of_report(chain_version(self.chain_id.as_str()), report)
    }
}

/// The queries of the relayer's subscriptions are four different texts.
pub proof fn law_subscriptions_differ()
    ensures
        ({
            let module = "message.module"@;
            let client = equality_query(module, "ibc_client"@);
            let connection = equality_query(module, "ibc_connection"@);
            let channel = equality_query(module, "ibc_channel"@);
            let block = "tm.event = 'NewBlock'"@;
            &&& block != client && block != connection && block != channel
            &&& client != connection && client != channel && connection != channel
        }),
{
    reveal_strlit("message.module");
    reveal_strlit("ibc_client");
    reveal_strlit("ibc_connection");
    reveal_strlit("ibc_channel");
    reveal_strlit("tm.event = 'NewBlock'");
    reveal_strlit(" = '");
    reveal_strlit("'");
    lemma_plain_text_is_not_escaped("ibc_client"@);
    lemma_plain_text_is_not_escaped("ibc_connection"@);
    lemma_plain_text_is_not_escaped("ibc_channel"@);
    let module = "message.module"@;
    let client = equality_query(module, "ibc_client"@);
    let connection = equality_query(module, "ibc_connection"@);
    let channel = equality_query(module, "ibc_channel"@);
    assert(client[0] == 'm' && connection[0] == 'm' && channel[0] == 'm');
    assert("tm.event = 'NewBlock'"@[0] == 't');
    assert(client[23] == 'l' && connection[23] == 'o' && channel[23] == 'h');
}

/// The events of one transaction are exactly what it reported that is an IBC event, all of it and in
/// the order of the reports, however many reports there are.
pub proof fn law_events_of_a_transaction<E>(tx: Seq<Option<E>>)
    ensures
        tx_events(tx) == tx.filter(|report: Option<E>| report is Some).map_values(
            |report: Option<E>| report->0,
        ),
    decreases tx.len(),
{
    let is_event = |report: Option<E>| report is Some;
    let bare = |report: Option<E>| report->0;
    reveal(Seq::filter);
    if tx.len() > 0 {
        law_events_of_a_transaction(tx.drop_last());
        assert(tx.filter(is_event).map_values(bare) =~= if tx.last() is Some {
            tx.drop_last().filter(is_event).map_values(bare).push(tx.last()->0)
        } else {
            tx.drop_last().filter(is_event).map_values(bare)
        });
    } else {
        assert(tx.filter(is_event).map_values(bare) =~= Seq::empty());
    }
}

/// The events of a block are the IBC events among the reports of all its transactions, one
/// transaction after the other; a block without transaction results has none.
pub proof fn law_events_of_a_block<E>(txs: Vec<Vec<Option<E>>>)
    ensures
        block_events(Some(txs)) == txs@.map_values(
            |tx: Vec<Option<E>>| tx@,
        ).flatten().filter(|report: Option<E>| report is Some).map_values(
            |report: Option<E>| report->0,
        ),
        block_events(None::<Vec<Vec<Option<E>>>>) == Seq::<E>::empty(),
{
    lemma_events_of_transactions(txs@);
}

proof fn lemma_events_of_transactions<E>(txs: Seq<Vec<Option<E>>>)
    ensures
        txs_events(txs) == txs.map_values(|tx: Vec<Option<E>>| tx@).flatten().filter(
            |report: Option<E>| report is Some,
        ).map_values(|report: Option<E>| report->0),
    decreases txs.len(),
{
    let reports = |tx: Vec<Option<E>>| tx@;
    let is_event = |report: Option<E>| report is Some;
    let bare = |report: Option<E>| report->0;
    if txs.len() == 0 {
        reveal(Seq::filter);
        assert(txs.map_values(reports).flatten().filter(is_event).map_values(bare)
            =~= Seq::empty());
    } else {
        let before = txs.drop_last();
        lemma_events_of_transactions(before);
        law_events_of_a_transaction(txs.last()@);
        assert(txs.map_values(reports) =~= before.map_values(reports).push(txs.last()@));
        before.map_values(reports).lemma_flatten_push(txs.last()@);
        Seq::filter_distributes_over_add(
            before.map_values(reports).flatten(),
            txs.last()@,
            is_event,
        );
        assert(txs.map_values(reports).flatten().filter(is_event).map_values(bare)
            =~= before.map_values(reports).flatten().filter(is_event).map_values(bare)
            + txs.last()@.filter(is_event).map_values(bare));
    }
}

/// No event of a block is lost: whatever a transaction of the block reported that is an IBC event
/// is among the block's events.
pub proof fn law_no_event_is_lost<E>(txs: Vec<Vec<Option<E>>>, i: int, j: int)
    requires
        0 <= i < txs@.len(),
        0 <= j < txs@[i]@.len(),
        txs@[i]@[j] is Some,
    ensures
        block_events(Some(txs)).contains(txs@[i]@[j]->0),
{
    lemma_no_event_is_lost(txs@, i, j);
}

proof fn lemma_no_event_is_lost<E>(txs: Seq<Vec<Option<E>>>, i: int, j: int)
    requires
        0 <= i < txs.len(),
        0 <= j < txs[i]@.len(),
        txs[i]@[j] is Some,
    ensures
        txs_events(txs).contains(txs[i]@[j]->0),
    decreases txs.len(),
{
    let event = txs[i]@[j]->0;
    let before = txs_events(txs.drop_last());
    let after = tx_events(txs.last()@);
    if i == txs.len() - 1 {
        lemma_event_is_kept(txs[i]@, j);
        let k = after.index_of(event);
        assert((before + after)[before.len() + k] == event);
    } else {
        lemma_no_event_is_lost(txs.drop_last(), i, j);
        let k = before.index_of(event);
        assert((before + after)[k] == event);
    }
}

proof fn lemma_event_is_kept<E>(tx: Seq<Option<E>>, j: int)
    requires
        0 <= j < tx.len(),
        tx[j] is Some,
    ensures
        tx_events(tx).contains(tx[j]->0),
    decreases tx.len(),
{
    let before = tx_events(tx.drop_last());
    if j == tx.len() - 1 {
        assert(before.push(tx[j]->0)[before.len() as int] == tx[j]->0);
    } else {
        lemma_event_is_kept(tx.drop_last(), j);
        let k = before.index_of(tx[j]->0);
        assert(tx_events(tx)[k] == tx[j]->0);
    }
}

/// Events keep their order and their number where they are given the height that they are dealt
/// with at, and all of them are given that height.
pub proof fn law_events_are_dealt_with_at_one_height<E>(events: Seq<E>, height: Height)
    ensures
        at_height(events, height).len() == events.len(),
        forall|i: int|
            0 <= i < events.len() ==> (#[trigger] at_height(events, height)[i]).event == events[i]
                && at_height(events, height)[i].height == height,
{
}

/// A scan of one block finds the events of that block.
pub proof fn law_scan_of_one_block<E>(
    block: int,
    blocks: spec_fn(int) -> Option<Vec<Vec<Option<E>>>>,
)
    ensures
        blocks_events(block, block, blocks) == block_events(blocks(block)),
        blocks_events(block, block - 1, blocks) == Seq::<E>::empty(),
{
    assert(blocks_events(block, block - 1, blocks) =~= Seq::<E>::empty());
    assert(blocks_events(block, block, blocks) =~= block_events(blocks(block)));
}

/// What a subscriber sees of a transaction are exactly those of its IBC events that the query is
/// about, in their order: those of the client, the connection or the channel module.
pub proof fn law_observed_events_are_those_of_the_module<E>(
    query: Seq<char>,
    events: Seq<Option<TypedEvent<E>>>,
)
    ensures
        observed_events(query, events) == events.filter(
            |report: Option<TypedEvent<E>>|
                report is Some && ((query == "message.module = 'ibc_client'"@
                    && report->0.is_client) || (query == "message.module = 'ibc_connection'"@
                    && report->0.is_connection) || (query == "message.module = 'ibc_channel'"@
                    && report->0.is_channel)),
        ).map_values(
            |report: Option<TypedEvent<E>>| ObservedEvent::Reported(report->0.event),
        ),
    decreases events.len(),
{
    let wanted = |report: Option<TypedEvent<E>>|
        report is Some && ((query == "message.module = 'ibc_client'"@ && report->0.is_client) || (
        query == "message.module = 'ibc_connection'"@ && report->0.is_connection) || (query
            == "message.module = 'ibc_channel'"@ && report->0.is_channel));
    let seen = |report: Option<TypedEvent<E>>| ObservedEvent::Reported(report->0.event);
    lemma_module_queries();
    reveal(Seq::filter);
    if events.len() > 0 {
        let before = events.drop_last();
        law_observed_events_are_those_of_the_module(query, before);
        assert(events.filter(wanted).map_values(seen) =~= if wanted(events.last()) {
            before.filter(wanted).map_values(seen).push(seen(events.last()))
        } else {
            before.filter(wanted).map_values(seen)
        });
    } else {
        assert(events.filter(wanted).map_values(seen) =~= Seq::empty());
    }
}

proof fn lemma_module_queries()
    ensures
        equality_query("message.module"@, "ibc_client"@) == "message.module = 'ibc_client'"@,
        equality_query("message.module"@, "ibc_connection"@)
            == "message.module = 'ibc_connection'"@,
        equality_query("message.module"@, "ibc_channel"@) == "message.module = 'ibc_channel'"@,
{
    reveal_strlit("message.module");
    reveal_strlit("ibc_client");
    reveal_strlit("ibc_connection");
    reveal_strlit("ibc_channel");
    reveal_strlit(" = '");
    reveal_strlit("'");
    reveal_strlit("message.module = 'ibc_client'");
    reveal_strlit("message.module = 'ibc_connection'");
    reveal_strlit("message.module = 'ibc_channel'");
    lemma_plain_text_is_not_escaped("ibc_client"@);
    lemma_plain_text_is_not_escaped("ibc_connection"@);
    lemma_plain_text_is_not_escaped("ibc_channel"@);
    assert(equality_query("message.module"@, "ibc_client"@) =~= "message.module = 'ibc_client'"@);
    assert(equality_query("message.module"@, "ibc_connection"@)
        =~= "message.module = 'ibc_connection'"@);
    assert(equality_query("message.module"@, "ibc_channel"@)
        =~= "message.module = 'ibc_channel'"@);
}

/// A block that a node reports is one event, and only to those who asked for blocks. Its height is
/// the number of the block. The height of a transaction's events is that of the transaction. What is
/// neither reports nothing.
pub proof fn law_reports_are_seen<E>(report: Report<E>)
    ensures
        report.data is NewBlock ==> report_events(report) == (if report.query@
            == "tm.event = 'NewBlock'"@ {
            seq![ObservedEvent::<E>::NewBlock]
        } else {
            Seq::empty()
        }),
        report.data is NewBlock ==> report_block(report) == report.data->NewBlock_0,
        report.data is Tx ==> report_events(report) == observed_events(
            report.query@,
            report.data->events@,
        ),
        report.data is Tx ==> report_block(report) == Some(report.data->height as u64),
        report.data is Other ==> report_events(report).len() == 0,
        needs_height(report) <==> report.data is Tx || (report.data is NewBlock && report.query@
            == "tm.event = 'NewBlock'"@),
{
}

/// A subscription is written as the query for new blocks or as the key and the value that it is
/// about.
pub proof fn law_subscriptions_are_written_out(key: String, value: String)
    requires
        forall|i: int| 0 <= i < value@.len() ==> #[trigger] value@[i] != '\\' && value@[i] != '\'',
    ensures
        subscription_query(Subscription::NewBlock) == "tm.event = 'NewBlock'"@,
        subscription_query(Subscription::Equal { key, value }) == key@ + " = '"@ + value@ + "'"@,
{
    lemma_plain_text_is_not_escaped(value@);
}

/// The message that updates a client holds the client, the header and the signer.
pub proof fn law_update_message_holds_its_parts(
    client_id: Seq<char>,
    header: AnyView,
    signer: Seq<char>,
)
    ensures
        update_client_message(client_id, header, signer).type_url
            == "/ibc.core.client.v1.MsgUpdateClient"@,
        update_client_message(client_id, header, signer).value == update_client_bytes(
            client_id,
            header,
            signer,
        ),
{
}

} // verus!
