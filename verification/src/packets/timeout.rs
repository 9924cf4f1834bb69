//! The height at which the timeout of a packet can be proved.
use crate::ibc::any::Any;
use crate::ibc::decode::{client_latest_height, readable_client_height, ConsensusReply};
use crate::ibc::height::{raw_timeout, Height, RawHeight, TimeoutHeight};
use crate::ibc::identifier::ClientId;
use crate::ibc::packet::Packet;
use crate::primitives::search::{
    find_suitable_proof_height_for_client, law_first_height_at_or_after_a_time,
    law_found_height_is_suitable, search_begin, search_outcome, ProofHeightSearch,
};
use vstd::prelude::*;

verus! {

/// The beginning of the search for the proof height of a packet's timeout. The source is to be
/// asked, as of the height at which the packet was created, for the state of the sink's client.
#[derive(Debug)]
pub struct TimeoutProof {
    at: Height,
    client_id: ClientId,
    source_height: Height,
    latest_client_height: Height,
    timeout_height: Height,
    timeout_timestamp: u64,
}

/// What the search for the proof height of a packet's timeout holds.
#[verifier::ext_equal]
pub struct TimeoutProofView {
    /// The height as of which the client state is asked for.
    pub at: RawHeight,
    /// The sink's client on the source.
    pub client_id: Seq<char>,
    /// The height as of which consensus states are asked for later.
    pub source_height: RawHeight,
    /// The latest height of the client.
    pub latest_client_height: RawHeight,
    /// The height at which the packet times out.
    pub timeout_height: RawHeight,
    /// The time at which the packet times out.
    pub timeout_timestamp: u64,
}

impl View for TimeoutProof {
    type V = TimeoutProofView;

    closed spec fn view(&self) -> TimeoutProofView {
        TimeoutProofView {
            at: self.at@,
            client_id: self.client_id@,
            source_height: self.source_height@,
            latest_client_height: self.latest_client_height@,
            timeout_height: self.timeout_height@,
            timeout_timestamp: self.timeout_timestamp,
        }
    }
}

/// The search once the client state is known. The sink is to be asked for the time of a block.
#[derive(Debug)]
pub struct TimeoutProofTime {
    block: u64,
    search: TimeoutProof,
}

/// What the search holds once the client state is known.
#[verifier::ext_equal]
pub struct TimeoutProofTimeView {
    /// The block whose time is asked for.
    pub block: u64,
    /// The search so far.
    pub search: TimeoutProofView,
}

impl View for TimeoutProofTime {
    type V = TimeoutProofTimeView;

    closed spec fn view(&self) -> TimeoutProofTimeView {
        TimeoutProofTimeView { block: self.block, search: self.search@ }
    }
}

/// The search once the time of the client's block is known. The number of blocks that the sink
/// makes in a period is to be given.
#[derive(Debug)]
pub struct TimeoutProofPeriod {
    period: u64,
    search: TimeoutProofTime,
}

/// What the search holds once the time of the client's block is known.
#[verifier::ext_equal]
pub struct TimeoutProofPeriodView {
    /// The period, in nanoseconds.
    pub period: u64,
    /// The search so far.
    pub search: TimeoutProofTimeView,
}

impl View for TimeoutProofPeriod {
    type V = TimeoutProofPeriodView;

    closed spec fn view(&self) -> TimeoutProofPeriodView {
        TimeoutProofPeriodView { period: self.period, search: self.search@ }
    }
}

/// The block from which on the timeout may be provable: the packet's timeout height, or, where
/// that comes later, the block that the sink is expected to make one block before the packet's
/// timeout time.
pub open spec fn timeout_search_start(
    timeout_height: u64,
    client_height: u64,
    block_delay: u64,
) -> int {
    let blocks = if block_delay == 0 {
        0
    } else {
        block_delay - 1
    };
    if client_height + blocks < timeout_height {
        timeout_height as int
    } else {
        client_height + blocks
    }
}

/// Begins the search for the height at which the timeout of a packet can be proved to the source.
/// A packet that does not time out by height has none.
pub fn get_timeout_proof_height(
    sink_client_id: &ClientId,
    source_height: Height,
    latest_client_height_on_source: Height,
    packet: &Packet,
    packet_creation_height: u64,
) -> (search: Option<TimeoutProof>)
    requires
        packet.timeout_height is At ==> packet_creation_height != 0,
    ensures
        search is None <==> packet.timeout_height is Never,
        search is Some ==> search->0@ == (TimeoutProofView {
            at: RawHeight {
                revision_number: source_height@.revision_number,
                revision_height: packet_creation_height,
            },
            client_id: sink_client_id@,
            source_height: source_height@,
            latest_client_height: latest_client_height_on_source@,
            timeout_height: raw_timeout(packet.timeout_height),
            timeout_timestamp: packet.timeout_timestamp,
        }),
{
    match packet.timeout_height {
        TimeoutHeight::Never => None,
        TimeoutHeight::At(timeout_height) => {
            match Height::new(source_height.revision_number(), packet_creation_height) {
                Ok(at) => Some(
                    TimeoutProof {
                        at,
                        client_id: sink_client_id.clone(),
                        source_height,
                        latest_client_height: latest_client_height_on_source,
                        timeout_height,
                        timeout_timestamp: packet.timeout_timestamp,
                    },
                ),
                Err(_) => vstd::pervasive::unreached(),
            }
        },
    }
}

impl TimeoutProof {
    /// The height as of which the client state is asked for.
    pub fn at(&self) -> (at: Height)
        ensures
            at@ == self@.at,
    {
        self.at
    }

    /// The client whose state is asked for.
    pub fn client_id(&self) -> (client_id: &ClientId)
        ensures
            client_id@ == self@.client_id,
    {
        &self.client_id
    }

    /// Takes in the latest height of the client. The sink is asked for the time of that block.
    pub fn on_client_height(self, height: &Height) -> (next: TimeoutProofTime)
        ensures
            next@ == (TimeoutProofTimeView { block: height@.revision_height, search: self@ }),
    {
        TimeoutProofTime { block: height.revision_height(), search: self }
    }

    /// Takes in the client state. The sink is asked for the time of the client's latest block. An
    /// unreadable client state ends the search.
    pub fn on_client_state(self, client_state: Any) -> (next: Option<TimeoutProofTime>)
        ensures
            next is Some <==> readable_client_height(client_state.type_url@, client_state.value@)
                is Some,
            next is Some ==> {
                let height = readable_client_height(client_state.type_url@, client_state.value@)->0;
                next->0@ == (TimeoutProofTimeView {
                    block: height.revision_height,
                    search: self@,
                })
            },
    {
        match client_latest_height(&client_state) {
            Ok(height) => Some(self.on_client_height(&height)),
            Err(_) => None,
        }
    }
}

impl TimeoutProofTime {
    #[verifier::type_invariant]
    spec fn is_a_block(self) -> bool {
        self.block != 0
    }

    /// The block whose time is asked for.
    pub fn block(&self) -> (block: u64)
        ensures
            block == self@.block,
            block != 0,
    {
        proof {
            use_type_invariant(self);
        }
        self.block
    }

    /// The time at which the packet times out.
    pub fn timeout_timestamp(&self) -> (timestamp: u64)
        ensures
            timestamp == self@.search.timeout_timestamp,
    {
        self.search.timeout_timestamp
    }

    /// Takes in the time of the client's latest block.
    pub fn on_timestamp(self, created: u64) -> (next: TimeoutProofPeriod)
        requires
            created <= self@.search.timeout_timestamp,
        ensures
            next@ == (TimeoutProofPeriodView {
                period: (self@.search.timeout_timestamp - created) as u64,
                search: self@,
            }),
    {
        TimeoutProofPeriod { period: self.search.timeout_timestamp - created, search: self }
    }
}

impl TimeoutProofPeriod {
    /// The period, in nanoseconds, whose number of blocks is to be given.
    pub fn period(&self) -> (period: u64)
        ensures
            period == self@.period,
    {
        self.period
    }

    /// The client's latest block.
    pub fn block(&self) -> (block: u64)
        ensures
            block == self@.search.block,
            block != 0,
    {
        self.search.block()
    }

    /// Takes in the number of blocks that the sink makes in the period. What is left is a search
    /// for the first height of the client, from the expected one on, whose time is not before the
    /// packet's timeout.
    pub fn on_block_delay(self, block_delay: u64) -> (next: ProofHeightSearch)
        requires
            self@.search.block + block_delay - 1 <= u64::MAX,
        ensures
            next@.at == self@.search.search.source_height,
            next@.client_id == self@.search.search.client_id,
            next@.revision_number == self@.search.search.timeout_height.revision_number,
            next@.target == Some(self@.search.search.timeout_timestamp),
            next@.state == search_begin(
                timeout_search_start(
                    self@.search.search.timeout_height.revision_height,
                    self@.search.block,
                    block_delay,
                ) as u64,
                self@.search.search.latest_client_height.revision_height,
                Some(self@.search.search.timeout_timestamp),
            ),
    {
        proof {
            use_type_invariant(&self.search);
        }
        let timeout_height: Height = self.search.search.timeout_height;
        let start: u64 = self.search.block + block_delay.saturating_sub(1);
        let start_height: Height = if start < timeout_height.revision_height() {
            timeout_height
        } else {
            match Height::new(timeout_height.revision_number(), start) {
                Ok(height) => height,
                Err(_) => vstd::pervasive::unreached(),
            }
        };
        find_suitable_proof_height_for_client(
            &self.search.search.source_height,
            &self.search.search.client_id,
            &start_height,
            Some(self.search.search.timeout_timestamp),
            &self.search.search.latest_client_height,
        )
    }
}

/// A height at which a timeout can be proved is one at which the packet has timed out: it is not
/// before the packet's timeout height, and the time of its consensus state is not before the
/// packet's timeout time.
pub proof fn law_timeout_is_proved_after_timeout(
    timeout_height: u64,
    timeout_timestamp: u64,
    client_height: u64,
    block_delay: u64,
    latest_client_height: u64,
    answers: spec_fn(u64) -> ConsensusReply,
)
    requires
        timeout_height > 0,
        timeout_search_start(timeout_height, client_height, block_delay) <= u64::MAX,
    ensures
        ({
            let start = timeout_search_start(timeout_height, client_height, block_delay) as u64;
            let found = search_outcome(
                search_begin(start, latest_client_height, Some(timeout_timestamp)),
                Some(timeout_timestamp),
                answers,
            );
            found is Some ==> {
                &&& timeout_height <= found->0 <= latest_client_height
                &&& answers(found->0) is At
                &&& answers(found->0)->At_0 >= timeout_timestamp
            }
        }),
{
    let start = timeout_search_start(timeout_height, client_height, block_delay) as u64;
    law_found_height_is_suitable(start, latest_client_height, Some(timeout_timestamp), answers);
}

/// The search for the height of a timeout proof begins at the later one of two blocks: the packet's
/// timeout height, and the block that the sink is expected to make one block before the packet's
/// timeout time, counted from the client's latest block.
pub proof fn law_timeout_search_starts_at_the_later_block(
    timeout_height: u64,
    client_height: u64,
    block_delay: u64,
)
    ensures
        ({
            let start = timeout_search_start(timeout_height, client_height, block_delay);
            &&& start >= timeout_height
            &&& start >= client_height
            &&& start >= client_height + block_delay - 1
            &&& start == timeout_height || start == client_height + block_delay - 1 || (block_delay
                == 0 && start == client_height)
        }),
{
}

/// A timeout that can be proved is found: where the consensus states that the source keeps can be
/// read and their times do not run backwards, the search ends with the first height, from the later
/// one of the packet's timeout height and the expected block on and up to the client's latest
/// height, whose time is at or after the packet's timeout time. It ends without a height only where
/// there is none.
pub proof fn law_provable_timeout_is_found(
    timeout_height: u64,
    timeout_timestamp: u64,
    client_height: u64,
    block_delay: u64,
    latest_client_height: u64,
    first: u64,
    answers: spec_fn(u64) -> ConsensusReply,
)
    requires
        timeout_height > 0,
        first >= timeout_height,
        first >= client_height,
        first >= client_height + block_delay - 1,
        first == timeout_height || first == client_height + block_delay - 1 || (block_delay == 0
            && first == client_height),
        forall|h: u64|
            first <= h <= latest_client_height ==> #[trigger] answers(h) !is Unreadable,
        forall|h: u64, k: u64|
            first <= h <= k <= latest_client_height && #[trigger] answers(h) is At
                && #[trigger] answers(k) is At ==> answers(h)->At_0 <= answers(k)->At_0,
    ensures
        match search_outcome(
            search_begin(
                timeout_search_start(timeout_height, client_height, block_delay) as u64,
                latest_client_height,
                Some(timeout_timestamp),
            ),
            Some(timeout_timestamp),
            answers,
        ) {
            Some(found) => {
                &&& first <= found <= latest_client_height
                &&& answers(found) is At && answers(found)->At_0 >= timeout_timestamp
                &&& forall|h: u64|
                    first <= h < found && #[trigger] answers(h) is At ==> answers(h)->At_0
                        < timeout_timestamp
            },
            None => forall|h: u64|
                first <= h <= latest_client_height && #[trigger] answers(h) is At
                    ==> answers(h)->At_0 < timeout_timestamp,
        },
{
    assert(timeout_search_start(timeout_height, client_height, block_delay) == first);
    law_first_height_at_or_after_a_time(first, latest_client_height, timeout_timestamp, answers);
}

} // verus!
