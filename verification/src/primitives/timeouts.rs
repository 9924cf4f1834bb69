//! The highest height of the sink at which a packet of the source times out.
use crate::ibc::any::Any;
use crate::ibc::decode::{client_latest_height, readable_client_height};
use crate::ibc::height::{Height, RawHeight};
use crate::ibc::identifier::{ChannelId, ClientId, PortId};
use crate::packets::types::PacketInfo;
use crate::primitives::undelivered::{
    query_undelivered_sequences, ChannelQueryView, UndeliveredSequences, UndeliveredSequencesView,
};
use vstd::prelude::*;

verus! {

/// The time, in nanoseconds, that a packet has from the creation of its client state on.
pub open spec fn timeout_period(packet: PacketInfo, created: u64) -> u64 {
    if packet.timeout_timestamp > created {
        (packet.timeout_timestamp - created) as u64
    } else {
        0
    }
}

/// The height up to which a packet can be waited for: its timeout height, or, where that comes
/// sooner, the block after as many blocks as its time allows for.
pub open spec fn timeout_bound(packet: PacketInfo, created: u64, block_delay: u64) -> u64 {
    let timeout = packet.timeout_height.revision_height;
    if timeout_period(packet, created) == 0 || timeout < block_delay + 1 {
        timeout
    } else {
        (block_delay + 1) as u64
    }
}

/// The higher one of a height, if there is one, and another.
pub open spec fn higher(a: Option<u64>, b: u64) -> Option<u64> {
    match a {
        Some(height) if height >= b => a,
        _ => Some(b),
    }
}

/// The highest one of the given heights.
pub open spec fn highest(heights: Seq<u64>) -> Option<u64>
    decreases heights.len(),
{
    if heights.len() == 0 {
        None
    } else {
        higher(highest(heights.drop_last()), heights.last())
    }
}

/// The highest one of some heights is one of them, and none is higher. There is none only where
/// there are no heights.
pub proof fn law_highest_is_the_maximum(heights: Seq<u64>)
    ensures
        highest(heights) is None <==> heights.len() == 0,
        highest(heights) is Some ==> heights.contains(highest(heights)->0),
        forall|i: int|
            0 <= i < heights.len() ==> highest(heights) is Some && #[trigger] heights[i]
                <= highest(heights)->0,
    decreases heights.len(),
{
    if heights.len() > 0 {
        let rest = heights.drop_last();
        law_highest_is_the_maximum(rest);
        assert(heights[heights.len() - 1] == heights.last());
        if highest(heights) == highest(rest) && rest.len() > 0 {
            let i = rest.index_of(highest(rest)->0);
            assert(heights[i] == highest(rest)->0);
        }
        assert forall|i: int| 0 <= i < heights.len() implies #[trigger] heights[i] <= highest(
            heights,
        )->0 by {
            if i < rest.len() {
                assert(rest[i] == heights[i]);
            }
        }
    }
}

/// Taking in one height after the other gives the highest one.
pub proof fn law_highest_takes_in_one_more(heights: Seq<u64>, height: u64)
    ensures
        highest(heights.push(height)) == higher(highest(heights), height),
{
    assert(heights.push(height).drop_last() =~= heights);
}

/// A packet is never waited for beyond its timeout height.
pub proof fn law_timeout_bound_respects_timeout_height(
    packet: PacketInfo,
    created: u64,
    block_delay: u64,
)
    ensures
        timeout_bound(packet, created, block_delay) <= packet.timeout_height.revision_height,
{
}

/// The search for the highest height at which one of the source's undelivered packets times out on
/// the sink. For each whitelisted channel the undelivered packets are searched for. For each of
/// them the source is asked for the state of the sink's client and the sink for the time of that
/// client's latest block.
#[derive(Debug)]
pub struct MaximumTimeoutHeight {
    source_height: Height,
    sink_height: Height,
    sink_client_id: ClientId,
    channels: Vec<(ChannelId, PortId)>,
    asked: usize,
    maximum: Option<u64>,
    failed: bool,
}

/// What the search for the highest timeout height holds.
#[verifier::ext_equal]
pub struct MaximumTimeoutHeightView {
    /// The latest height of the source.
    pub source_height: RawHeight,
    /// The latest height of the sink.
    pub sink_height: RawHeight,
    /// The sink's client on the source.
    pub sink_client_id: Seq<char>,
    /// The source's whitelisted channels and their ports.
    pub channels: Seq<(Seq<char>, Seq<char>)>,
    /// How many of them have been asked about.
    pub asked: nat,
    /// The highest timeout height among the packets taken in so far.
    pub maximum: Option<u64>,
    /// Whether something that was asked for could not be had.
    pub failed: bool,
}

impl View for MaximumTimeoutHeight {
    type V = MaximumTimeoutHeightView;

    closed spec fn view(&self) -> MaximumTimeoutHeightView {
        MaximumTimeoutHeightView {
            source_height: self.source_height@,
            sink_height: self.sink_height@,
            sink_client_id: self.sink_client_id@,
            channels: whitelist(self.channels@),
            asked: self.asked as nat,
            maximum: self.maximum,
            failed: self.failed,
        }
    }
}

/// A query for the state of a client, as of a height.
#[derive(Debug)]
pub struct ClientQuery {
    pub at: Height,
    pub client_id: ClientId,
}

/// The identifiers of whitelisted channels and their ports.
pub open spec fn whitelist(channels: Seq<(ChannelId, PortId)>) -> Seq<(Seq<char>, Seq<char>)> {
    channels.map_values(|channel: (ChannelId, PortId)| (channel.0@, channel.1@))
}

/// A whitelisted channel of the source whose undelivered packets are searched for. Once they are
/// found, the source is asked for them.
#[derive(Debug)]
pub struct ChannelPackets {
    channel_id: ChannelId,
    port_id: PortId,
}

impl View for ChannelPackets {
    type V = (Seq<char>, Seq<char>);

    /// The channel and its port.
    closed spec fn view(&self) -> (Seq<char>, Seq<char>) {
        (self.channel_id@, self.port_id@)
    }
}

/// A query for the packets with the given sequences that a channel has sent.
#[derive(Debug)]
pub struct PacketsQuery {
    pub channel_id: ChannelId,
    pub port_id: PortId,
    pub seqs: Vec<u64>,
}

impl ChannelPackets {
    /// Takes in the sequences that have not been delivered: the packets with these sequences are
    /// asked for, on the same channel.
    pub fn on_undelivered(self, undelivered: Vec<u64>) -> (query: PacketsQuery)
        ensures
            query.channel_id@ == self@.0,
            query.port_id@ == self@.1,
            query.seqs == undelivered,
    {
        PacketsQuery { channel_id: self.channel_id, port_id: self.port_id, seqs: undelivered }
    }
}

/// Begins the search for the highest height at which one of the source's undelivered packets
/// times out on the sink, with the latest heights of the two.
pub fn query_maximum_height_for_timeout_proofs(
    source_height: Height,
    sink_height: Height,
    sink_client_id: ClientId,
    channel_whitelist: Vec<(ChannelId, PortId)>,
) -> (search: MaximumTimeoutHeight)
    ensures
        search@ == (MaximumTimeoutHeightView {
            source_height: source_height@,
            sink_height: sink_height@,
            sink_client_id: sink_client_id@,
            channels: whitelist(channel_whitelist@),
            asked: 0,
            maximum: highest(Seq::empty()),
            failed: false,
        }),
{
    MaximumTimeoutHeight {
        source_height,
        sink_height,
        sink_client_id,
        channels: channel_whitelist,
        asked: 0,
        maximum: None,
        failed: false,
    }
}

/// The search with one more timeout height taken in.
pub open spec fn with_height(
    search: MaximumTimeoutHeightView,
    height: u64,
) -> MaximumTimeoutHeightView {
    MaximumTimeoutHeightView { maximum: higher(search.maximum, height), ..search }
}

/// What is to be done about a packet once the time of its client state is known.
#[derive(Clone, Copy, Debug, PartialEq, Eq, Structural)]
pub enum PacketTimeout {
    /// Its time is up: its timeout height has been taken in.
    Elapsed,
    /// It has this many nanoseconds left, whose number of blocks is to be given.
    Left(u64),
}

impl MaximumTimeoutHeight {
    /// Goes on to the next whitelisted channel of the source, while there is one and nothing has
    /// failed: the search for its undelivered packets, and the channel that the packets are asked
    /// for on.
    pub fn next_channel(&mut self) -> (next: Option<(UndeliveredSequences, ChannelPackets)>)
        ensures
            next is Some <==> old(self)@.asked < old(self)@.channels.len() && !old(self)@.failed,
            next is None ==> final(self)@ == old(self)@,
            next is Some ==> {
                let (search, packets) = next->0;
                let (channel_id, port_id) = old(self)@.channels[old(self)@.asked as int];
                &&& search@ == (UndeliveredSequencesView {
                    query: ChannelQueryView {
                        at: old(self)@.source_height,
                        channel_id,
                        port_id,
                    },
                    sink_height: old(self)@.sink_height,
                })
                &&& packets@ == (channel_id, port_id)
                &&& final(self)@ == (MaximumTimeoutHeightView {
                    asked: old(self)@.asked + 1,
                    ..old(self)@
                })
            },
    {
        if self.failed || self.asked >= self.channels.len() {
            return None;
        }
        let channel_id = self.channels[self.asked].0.clone();
        let port_id = self.channels[self.asked].1.clone();
        let search = query_undelivered_sequences(
            self.source_height,
            self.sink_height,
            self.channels[self.asked].0.clone(),
            self.channels[self.asked].1.clone(),
        );
        self.asked = self.asked + 1;
        Some((search, ChannelPackets { channel_id, port_id }))
    }

    /// The query, for the source, for the state of the sink's client. It is put for each packet.
    pub fn client_query(&self) -> (query: ClientQuery)
        ensures
            query.at@ == self@.source_height,
            query.client_id@ == self@.sink_client_id,
    {
        ClientQuery { at: self.source_height, client_id: self.sink_client_id.clone() }
    }

    /// Takes in that something that was asked for could not be had.
    pub fn on_failure(&mut self)
        ensures
            final(self)@ == (MaximumTimeoutHeightView { failed: true, ..old(self)@ }),
    {
        self.failed = true;
    }

    /// Takes in the state of the sink's client. What is to be asked for next is the time of the
    /// client's latest block on the sink. A client state that is missing or cannot be read fails.
    pub fn on_client_state(&mut self, client_state: Option<Any>) -> (block: Option<u64>)
        ensures
            block == match client_state {
                None => None::<u64>,
                Some(state) => match readable_client_height(state.type_url@, state.value@) {
                    None => None,
                    Some(height) => Some(height.revision_height),
                },
            },
            block is Some ==> final(self)@ == old(self)@,
            block is None ==> final(self)@ == (MaximumTimeoutHeightView {
                failed: true,
                ..old(self)@
            }),
    {
        match client_state {
            None => {
                self.on_failure();
                None
            },
            Some(state) => match client_latest_height(&state) {
                Ok(height) => Some(height.revision_height()),
                Err(_) => {
                    self.on_failure();
                    None
                },
            },
        }
    }

    /// Takes in the time of the client's latest block for a packet.
    pub fn on_creation_time(&mut self, packet: &PacketInfo, created: u64) -> (left: PacketTimeout)
        ensures
            left is Elapsed <==> timeout_period(*packet, created) == 0,
            left is Left ==> left->Left_0 == timeout_period(*packet, created),
            left is Left ==> final(self)@ == old(self)@,
            left is Elapsed ==> forall|block_delay: u64|
                final(self)@ == with_height(
                    old(self)@,
                    #[trigger] timeout_bound(*packet, created, block_delay),
                ),
            left is Elapsed ==> final(self)@ == with_height(
                old(self)@,
                packet.timeout_height.revision_height,
            ),
    {
        let period: u64 = packet.timeout_timestamp.saturating_sub(created);
        if period == 0 {
            self.take_in(packet.timeout_height.revision_height);
            PacketTimeout::Elapsed
        } else {
            PacketTimeout::Left(period)
        }
    }

    /// Takes in how many blocks the sink makes in the time that a packet has left.
    pub fn on_block_delay(&mut self, packet: &PacketInfo, block_delay: u64)
        ensures
            forall|created: u64|
                timeout_period(*packet, created) != 0 ==> final(self)@ == with_height(
                    old(self)@,
                    #[trigger] timeout_bound(*packet, created, block_delay),
                ),
            final(self)@ == with_height(
                old(self)@,
                if packet.timeout_height.revision_height < block_delay + 1 {
                    packet.timeout_height.revision_height
                } else {
                    (block_delay + 1) as u64
                },
            ),
    {
        let approx_height: u64 = block_delay.saturating_add(1);
        if packet.timeout_height.revision_height < approx_height {
            self.take_in(packet.timeout_height.revision_height);
        } else {
            self.take_in(approx_height);
        }
    }

    /// The highest timeout height, where there was a packet and nothing failed.
    pub fn finish(self) -> (maximum: Option<u64>)
        ensures
            maximum == (if self@.failed {
                None
            } else {
                self@.maximum
            }),
    {
        if self.failed {
            None
        } else {
            self.maximum
        }
    }

    fn take_in(&mut self, height: u64)
        ensures
            final(self)@ == with_height(old(self)@, height),
    {
        self.maximum = match self.maximum {
            Some(maximum) => if maximum >= height {
                Some(maximum)
            } else {
                Some(height)
            },
            None => Some(height),
        };
    }
}

/// The search with some timeout heights taken in, one after the other.
pub open spec fn with_heights(
    search: MaximumTimeoutHeightView,
    heights: Seq<u64>,
) -> MaximumTimeoutHeightView
    decreases heights.len(),
{
    if heights.len() == 0 {
        search
    } else {
        with_height(with_heights(search, heights.drop_last()), heights.last())
    }
}

/// A search that has taken in the timeout heights of all packets holds the highest one of them, and
/// nothing else has changed: what has failed stays failed.
pub proof fn law_search_holds_the_highest_timeout(
    search: MaximumTimeoutHeightView,
    heights: Seq<u64>,
)
    requires
        search.maximum is None,
    ensures
        with_heights(search, heights) == (MaximumTimeoutHeightView {
            maximum: highest(heights),
            ..search
        }),
    decreases heights.len(),
{
    if heights.len() > 0 {
        law_search_holds_the_highest_timeout(search, heights.drop_last());
    }
}

/// A packet's time is up exactly where its timeout time is not after the given one; otherwise the
/// time that it has left is what is missing until its timeout time.
pub proof fn law_time_left_ends_at_the_timeout(packet: PacketInfo, created: u64)
    ensures
        timeout_period(packet, created) == 0 <==> packet.timeout_timestamp <= created,
        packet.timeout_timestamp > created ==> created + timeout_period(packet, created)
            == packet.timeout_timestamp,
{
}

/// A packet whose time is up is waited for up to its timeout height. Any other packet is waited for
/// up to the lower one of its timeout height and the block after those that its time allows for.
pub proof fn law_timeout_bound_is_the_earlier_limit(
    packet: PacketInfo,
    created: u64,
    block_delay: u64,
)
    ensures
        ({
            let bound = timeout_bound(packet, created, block_delay);
            let limit = packet.timeout_height.revision_height;
            &&& packet.timeout_timestamp <= created ==> bound == limit
            &&& packet.timeout_timestamp > created ==> {
                &&& bound <= limit
                &&& bound <= block_delay + 1
                &&& bound == limit || bound == block_delay + 1
            }
        }),
{
}

/// Taking in a timeout height raises the highest one to it where it is higher, and changes nothing
/// else.
pub proof fn law_taking_in_a_height_keeps_the_higher_one(
    search: MaximumTimeoutHeightView,
    height: u64,
)
    ensures
        ({
            let after = with_height(search, height);
            &&& after.maximum is Some
            &&& after.maximum->0 >= height
            &&& search.maximum is Some ==> after.maximum->0 >= search.maximum->0
            &&& after.maximum == Some(height) || after.maximum == search.maximum
            &&& after.source_height == search.source_height
            &&& after.sink_height == search.sink_height
            &&& after.sink_client_id == search.sink_client_id
            &&& after.channels == search.channels
            &&& after.asked == search.asked
            &&& after.failed == search.failed
        }),
{
}

/// The whitelist is asked about channel by channel: all channels, each with its port, in order.
pub proof fn law_whitelist_is_taken_as_it_is(channels: Seq<(ChannelId, PortId)>)
    ensures
        whitelist(channels).len() == channels.len(),
        forall|i: int|
            0 <= i < channels.len() ==> #[trigger] whitelist(channels)[i] == (
                channels[i].0@,
                channels[i].1@,
            ),
{
}

} // verus!
