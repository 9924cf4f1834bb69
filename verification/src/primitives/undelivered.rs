//! Finding the packets and acknowledgements that the other chain has not seen yet.
use crate::error::Error;
use crate::ibc::channel::{channel_end_of, ChannelEnd, ChannelEndView, Order, RawChannel};
use crate::ibc::height::{Height, RawHeight};
use crate::ibc::identifier::{ChannelId, PortId};
use vstd::prelude::*;

verus! {

/// A query for what a chain keeps, as of a height, for a channel.
#[derive(Debug)]
pub struct ChannelQuery {
    pub at: Height,
    pub channel_id: ChannelId,
    pub port_id: PortId,
}

/// What a query about a channel asks for.
#[verifier::ext_equal]
pub struct ChannelQueryView {
    pub at: RawHeight,
    pub channel_id: Seq<char>,
    pub port_id: Seq<char>,
}

impl View for ChannelQuery {
    type V = ChannelQueryView;

    open spec fn view(&self) -> ChannelQueryView {
        ChannelQueryView {
            at: self.at@,
            channel_id: self.channel_id@,
            port_id: self.port_id@,
        }
    }
}

/// A query, as of a height, for those of the given sequences that a channel has not seen.
#[derive(Debug)]
pub struct SequencesQuery {
    pub at: Height,
    pub channel_id: ChannelId,
    pub port_id: PortId,
    pub seqs: Vec<u64>,
}

/// Why a channel end in an answer cannot be used, if so.
pub open spec fn channel_answer_error(channel: Option<RawChannel>) -> Option<Error> {
    match channel {
        None => Some(Error::ChannelMissing),
        Some(raw) => if channel_end_of(raw) is Some {
            None
        } else {
            Some(Error::ChannelDecode)
        },
    }
}

fn read_channel_answer(channel: Option<RawChannel>) -> (end: Result<ChannelEnd, Error>)
    ensures
        end is Err <==> channel_answer_error(channel) is Some,
        end is Err ==> channel_answer_error(channel) == Some(end->Err_0),
        end is Ok ==> channel_end_of(channel->0) == Some(end->Ok_0@),
{
    match channel {
        None => Err(Error::ChannelMissing),
        Some(raw) => ChannelEnd::from_raw(&raw),
    }
}

/// The search for packets that the source has sent and the sink has not received. The source's
/// channel end is to be asked for.
#[derive(Debug)]
pub struct UndeliveredSequences {
    query: ChannelQuery,
    sink_height: Height,
}

/// What the search for undelivered packets holds.
#[verifier::ext_equal]
pub struct UndeliveredSequencesView {
    /// The query for the channel end, to be put to the source.
    pub query: ChannelQueryView,
    /// The height as of which the sink is asked later.
    pub sink_height: RawHeight,
}

impl View for UndeliveredSequences {
    type V = UndeliveredSequencesView;

    closed spec fn view(&self) -> UndeliveredSequencesView {
        UndeliveredSequencesView {
            query: self.query@,
            sink_height: self.sink_height@,
        }
    }
}

/// The search once the channel end is known. The source's packet commitments are to be asked for.
#[derive(Debug)]
pub struct SentSequences {
    query: ChannelQuery,
    channel_end: ChannelEnd,
    sink_height: Height,
}

/// What the search for undelivered packets holds once the channel end is known.
#[verifier::ext_equal]
pub struct SentSequencesView {
    /// The query for the packet commitments, to be put to the source.
    pub query: ChannelQueryView,
    /// The source's channel end.
    pub channel_end: ChannelEndView,
    /// The height as of which the sink is asked later.
    pub sink_height: RawHeight,
}

impl View for SentSequences {
    type V = SentSequencesView;

    closed spec fn view(&self) -> SentSequencesView {
        SentSequencesView {
            query: self.query@,
            channel_end: self.channel_end@,
            sink_height: self.sink_height@,
        }
    }
}

/// What the sink is asked about the packets that the source has sent.
#[derive(Debug)]
pub enum DeliveryQuery {
    /// Which of them have not been received; the answer is the result.
    Unreceived(SequencesQuery),
    /// Which sequence the channel receives next.
    NextSequence(ReceivedInOrder),
}

/// Sent packets of a channel that delivers in order. The next sequence to be received is to be
/// asked for.
#[derive(Debug)]
pub struct ReceivedInOrder {
    query: ChannelQuery,
    seqs: Vec<u64>,
}

/// What the search for undelivered packets holds once the sent ones are known.
#[verifier::ext_equal]
pub struct ReceivedInOrderView {
    /// The query for the next sequence to be received, to be put to the sink.
    pub query: ChannelQueryView,
    /// The sequences that the source has sent.
    pub seqs: Seq<u64>,
}

impl View for ReceivedInOrder {
    type V = ReceivedInOrderView;

    closed spec fn view(&self) -> ReceivedInOrderView {
        ReceivedInOrderView {
            query: self.query@,
            seqs: self.seqs@,
        }
    }
}

/// Begins the search for packets that have been sent out from the source to the sink and are not
/// delivered, on ordered and on unordered channels.
pub fn query_undelivered_sequences(
    source_height: Height,
    sink_height: Height,
    channel_id: ChannelId,
    port_id: PortId,
) -> (search: UndeliveredSequences)
    ensures
        search@.query == (ChannelQueryView {
            at: source_height@,
            channel_id: channel_id@,
            port_id: port_id@,
        }),
        search@.sink_height == sink_height@,
{
    UndeliveredSequences {
        query: ChannelQuery { at: source_height, channel_id, port_id },
        sink_height,
    }
}

impl UndeliveredSequences {
    /// The query to be put next.
    pub fn query(&self) -> (query: &ChannelQuery)
        ensures
            query@ == self@.query,
    {
        &self.query
    }

    /// Takes in the channel end. The packet commitments of the same channel are asked for next.
    pub fn on_channel(self, channel: Option<RawChannel>) -> (next: Result<SentSequences, Error>)
        ensures
            next is Err <==> channel_answer_error(channel) is Some,
            next is Err ==> channel_answer_error(channel) == Some(next->Err_0),
            next is Ok ==> {
                &&& channel_end_of(channel->0) == Some(next->Ok_0@.channel_end)
                &&& next->Ok_0@.query == self@.query
                &&& next->Ok_0@.sink_height == self@.sink_height
            },
    {
        match read_channel_answer(channel) {
            Err(error) => Err(error),
            Ok(channel_end) => Ok(
                SentSequences { query: self.query, channel_end, sink_height: self.sink_height },
            ),
        }
    }
}

impl SentSequences {
    /// The query to be put next.
    pub fn query(&self) -> (query: &ChannelQuery)
        ensures
            query@ == self@.query,
    {
        &self.query
    }

    /// Takes in the sequences with a packet commitment. The sink is asked about them at its end
    /// of the channel: for the unreceived ones where the channel is unordered, for the next
    /// sequence to be received otherwise.
    pub fn on_commitments(self, seqs: Vec<u64>) -> (next: Result<DeliveryQuery, Error>)
        ensures
            next is Err <==> self@.channel_end.counterparty_channel is None,
            next is Err ==> next->Err_0 == Error::CounterpartyChannelMissing,
            next is Ok ==> (next->Ok_0 is Unreceived <==> self@.channel_end.ordering
                == Order::Unordered),
            next is Ok ==> match next->Ok_0 {
                DeliveryQuery::Unreceived(query) => {
                    &&& query.at@ == self@.sink_height
                    &&& self@.channel_end.counterparty_channel == Some(query.channel_id@)
                    &&& query.port_id@ == self@.channel_end.counterparty_port
                    &&& query.seqs == seqs
                },
                DeliveryQuery::NextSequence(search) => {
                    &&& search@.query.at == self@.sink_height
                    &&& self@.channel_end.counterparty_channel == Some(search@.query.channel_id)
                    &&& search@.query.port_id == self@.channel_end.counterparty_port
                    &&& search@.seqs == seqs@
                },
            },
    {
        let at = self.sink_height;
        let port_id = self.channel_end.counterparty_port;
        match self.channel_end.counterparty_channel {
            None => Err(Error::CounterpartyChannelMissing),
            Some(channel_id) => match self.channel_end.ordering {
                Order::Unordered => Ok(
                    DeliveryQuery::Unreceived(SequencesQuery { at, channel_id, port_id, seqs }),
                ),
                _ => Ok(
                    DeliveryQuery::NextSequence(
                        ReceivedInOrder { query: ChannelQuery { at, channel_id, port_id }, seqs },
                    ),
                ),
            },
        }
    }
}

/// Of the given sequences, those that come at or after the next one to be received.
pub open spec fn not_before(seqs: Seq<u64>, next: u64) -> Seq<u64> {
    seqs.filter(|seq: u64| seq >= next)
}

impl ReceivedInOrder {
    /// The query to be put next.
    pub fn query(&self) -> (query: &ChannelQuery)
        ensures
            query@ == self@.query,
    {
        &self.query
    }

    /// Takes in the next sequence to be received. What comes before it has been delivered; the
    /// rest has not.
    pub fn on_next_sequence(self, next_sequence_receive: u64) -> (undelivered: Vec<u64>)
        ensures
            undelivered@ == not_before(self@.seqs, next_sequence_receive),
    {
        let mut undelivered: Vec<u64> = Vec::new();
        let mut i: usize = 0;
        assert(self.seqs@.take(0) =~= Seq::<u64>::empty());
        assert(not_before(self.seqs@.take(0), next_sequence_receive) =~= Seq::<u64>::empty()) by {
            reveal(Seq::filter);
        }
        while i < self.seqs.len()
            invariant
                i <= self.seqs.len(),
                undelivered@ == not_before(self.seqs@.take(i as int), next_sequence_receive),
            decreases self.seqs.len() - i,
        {
            let seq: u64 = self.seqs[i];
            proof {
                assert(self.seqs@.take(i + 1).drop_last() =~= self.seqs@.take(i as int));
                reveal(Seq::filter);
            }
            if seq >= next_sequence_receive {
                undelivered.push(seq);
            }
            i += 1;
        }
        assert(self.seqs@.take(i as int) =~= self.seqs@);
        undelivered
    }
}

/// On a channel that delivers in order, a sent packet is undelivered exactly where it comes at or
/// after the next sequence to be received.
pub proof fn law_undelivered_in_order(seqs: Seq<u64>, next: u64, seq: u64)
    ensures
        not_before(seqs, next).contains(seq) <==> seqs.contains(seq) && seq >= next,
    decreases seqs.len(),
{
    reveal(Seq::filter);
    if seqs.len() > 0 {
        let rest = seqs.drop_last();
        law_undelivered_in_order(rest, next, seq);
        let kept = not_before(rest, next);
        assert(seqs =~= rest.push(seqs.last()));
        assert(rest.push(seqs.last()).contains(seq) <==> rest.contains(seq) || seq == seqs.last())
            by {
            if rest.contains(seq) {
                let i = rest.index_of(seq);
                assert(rest.push(seqs.last())[i] == seq);
            }
            if seq == seqs.last() {
                assert(rest.push(seqs.last())[rest.len() as int] == seq);
            }
        }
        assert(kept.push(seqs.last()).contains(seq) <==> kept.contains(seq) || seq == seqs.last())
            by {
            if kept.contains(seq) {
                let i = kept.index_of(seq);
                assert(kept.push(seqs.last())[i] == seq);
            }
            if seq == seqs.last() {
                assert(kept.push(seqs.last())[kept.len() as int] == seq);
            }
        }
    }
}

/// The search for acknowledgements on the source that the sink has not seen. The source's channel
/// end is to be asked for.
#[derive(Debug)]
pub struct UndeliveredAcks {
    query: ChannelQuery,
    sink_height: Height,
}

/// What the search for unseen acknowledgements holds.
#[verifier::ext_equal]
pub struct UndeliveredAcksView {
    /// The query for the channel end, to be put to the source.
    pub query: ChannelQueryView,
    /// The height as of which the sink is asked later.
    pub sink_height: RawHeight,
}

impl View for UndeliveredAcks {
    type V = UndeliveredAcksView;

    closed spec fn view(&self) -> UndeliveredAcksView {
        UndeliveredAcksView {
            query: self.query@,
            sink_height: self.sink_height@,
        }
    }
}

/// The search once the channel end is known. The source's packet acknowledgements are to be asked
/// for.
#[derive(Debug)]
pub struct WrittenAcks {
    query: ChannelQuery,
    channel_end: ChannelEnd,
    sink_height: Height,
}

/// What the search for unseen acknowledgements holds once the channel end is known.
#[verifier::ext_equal]
pub struct WrittenAcksView {
    /// The query for the packet acknowledgements, to be put to the source.
    pub query: ChannelQueryView,
    /// The source's channel end.
    pub channel_end: ChannelEndView,
    /// The height as of which the sink is asked later.
    pub sink_height: RawHeight,
}

impl View for WrittenAcks {
    type V = WrittenAcksView;

    closed spec fn view(&self) -> WrittenAcksView {
        WrittenAcksView {
            query: self.query@,
            channel_end: self.channel_end@,
            sink_height: self.sink_height@,
        }
    }
}

/// Begins the search for packet acknowledgements on the source that have not been seen by the
/// sink.
pub fn query_undelivered_acks(
    source_height: Height,
    sink_height: Height,
    channel_id: ChannelId,
    port_id: PortId,
) -> (search: UndeliveredAcks)
    ensures
        search@.query == (ChannelQueryView {
            at: source_height@,
            channel_id: channel_id@,
            port_id: port_id@,
        }),
        search@.sink_height == sink_height@,
{
    UndeliveredAcks {
        query: ChannelQuery { at: source_height, channel_id, port_id },
        sink_height,
    }
}

impl UndeliveredAcks {
    /// The query to be put next.
    pub fn query(&self) -> (query: &ChannelQuery)
        ensures
            query@ == self@.query,
    {
        &self.query
    }

    /// Takes in the channel end. The acknowledgements of the same channel are asked for next.
    pub fn on_channel(self, channel: Option<RawChannel>) -> (next: Result<WrittenAcks, Error>)
        ensures
            next is Err <==> channel_answer_error(channel) is Some,
            next is Err ==> channel_answer_error(channel) == Some(next->Err_0),
            next is Ok ==> {
                &&& channel_end_of(channel->0) == Some(next->Ok_0@.channel_end)
                &&& next->Ok_0@.query == self@.query
                &&& next->Ok_0@.sink_height == self@.sink_height
            },
    {
        match read_channel_answer(channel) {
            Err(error) => Err(error),
            Ok(channel_end) => Ok(
                WrittenAcks { query: self.query, channel_end, sink_height: self.sink_height },
            ),
        }
    }
}

impl WrittenAcks {
    /// The query to be put next.
    pub fn query(&self) -> (query: &ChannelQuery)
        ensures
            query@ == self@.query,
    {
        &self.query
    }

    /// Takes in the acknowledged sequences. The sink is asked, at its end of the channel, which
    /// of their acknowledgements it has not seen; its answer is the result.
    pub fn on_acknowledgements(self, seqs: Vec<u64>) -> (next: Result<SequencesQuery, Error>)
        ensures
            next is Err <==> self@.channel_end.counterparty_channel is None,
            next is Err ==> next->Err_0 == Error::CounterpartyChannelMissing,
            next is Ok ==> {
                &&& next->Ok_0.at@ == self@.sink_height
                &&& self@.channel_end.counterparty_channel == Some(next->Ok_0.channel_id@)
                &&& next->Ok_0.port_id@ == self@.channel_end.counterparty_port
                &&& next->Ok_0.seqs == seqs
            },
    {
        match self.channel_end.counterparty_channel {
            None => Err(Error::CounterpartyChannelMissing),
            Some(channel_id) => Ok(
                SequencesQuery {
                    at: self.sink_height,
                    channel_id,
                    port_id: self.channel_end.counterparty_port,
                    seqs,
                },
            ),
        }
    }
}

/// Whether a sent packet is undelivered does not depend on the other ones, and undelivered packets
/// keep their order and their number.
pub proof fn law_undelivered_packets_are_found_one_by_one(
    seqs: Seq<u64>,
    more: Seq<u64>,
    next: u64,
    seq: u64,
)
    ensures
        not_before(seqs + more, next) == not_before(seqs, next) + not_before(more, next),
        not_before(Seq::empty(), next) == Seq::<u64>::empty(),
        seq >= next ==> not_before(seq![seq], next) == seq![seq],
        seq < next ==> not_before(seq![seq], next) == Seq::<u64>::empty(),
{
    Seq::filter_distributes_over_add(seqs, more, |seq: u64| seq >= next);
    reveal_with_fuel(Seq::filter, 2);
    assert(seq![seq].drop_last() =~= Seq::empty());
    assert(not_before(seq![seq], next) =~= if seq >= next {
        seq![seq]
    } else {
        Seq::empty()
    });
    assert(not_before(Seq::empty(), next) =~= Seq::<u64>::empty());
}

/// An answer with a channel is used exactly where the channel is a channel end; an answer without
/// one is refused as missing.
pub proof fn law_channel_answers(channel: RawChannel)
    ensures
        channel_answer_error(None) == Some(Error::ChannelMissing),
        channel_answer_error(Some(channel)) is None <==> channel_end_of(channel) is Some,
        channel_end_of(channel) is None ==> channel_answer_error(Some(channel)) == Some(
            Error::ChannelDecode,
        ),
{
}

/// A query about a channel is known by its height, its channel and its port.
pub proof fn law_channel_query_is_its_parts(query: ChannelQuery)
    ensures
        query@.at == query.at@,
        query@.channel_id == query.channel_id@,
        query@.port_id == query.port_id@,
{
}

} // verus!
