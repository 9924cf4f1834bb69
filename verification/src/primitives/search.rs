//! The search for a height at which a client can prove what the relayer needs.
use crate::ibc::any::Any;
use crate::ibc::decode::{
    consensus_reply, consensus_reply_of, consensus_state_time, ConsensusReply,
};
use crate::ibc::height::{Height, RawHeight};
use crate::ibc::identifier::ClientId;
use vstd::prelude::*;

verus! {

/// Where a search stands. Heights are block numbers of one revision.
#[derive(Clone, Copy, Debug, PartialEq, Eq, Structural)]
pub enum SearchState {
    /// Any consensus state will do: heights are asked one after the other.
    Linear { next: u64, end: u64 },
    /// The middle of a range of more than two heights is asked.
    Middle { start: u64, end: u64, known: Option<u64> },
    /// The middle of the range has no consensus state: the start of the range is asked.
    First { start: u64, end: u64, known: Option<u64> },
    /// At most two heights are left: the lower one is asked.
    Lower { start: u64, end: u64, known: Option<u64> },
    /// The lower one will not do and the upper one has not been asked yet.
    Upper { end: u64 },
    /// The search is over.
    Done { found: Option<u64> },
}

/// The middle of a range.
pub open spec fn middle(start: u64, end: u64) -> u64 {
    (start + (end - start) / 2) as u64
}

/// The height that is asked next.
pub open spec fn probe(state: SearchState) -> Option<u64> {
    match state {
        SearchState::Linear { next, .. } => Some(next),
        SearchState::Middle { start, end, .. } => Some(middle(start, end)),
        SearchState::First { start, .. } => Some(start),
        SearchState::Lower { start, .. } => Some(start),
        SearchState::Upper { end } => Some(end),
        SearchState::Done { .. } => None,
    }
}

/// The search over a range, given the lowest height above it that is known to do.
pub open spec fn narrowed(start: u64, end: u64, known: Option<u64>) -> SearchState {
    if end - start > 1 {
        SearchState::Middle { start, end, known }
    } else {
        SearchState::Lower { start, end, known }
    }
}

/// The first state of a search.
pub open spec fn search_begin(start: u64, end: u64, target: Option<u64>) -> SearchState {
    if start > end {
        SearchState::Done { found: None }
    } else if target is None {
        SearchState::Linear { next: start, end }
    } else {
        narrowed(start, end, None)
    }
}

/// Whether the answer for a height makes the height a suitable one: there is a consensus state,
/// and it is not older than the time to match.
pub open spec fn suits(reply: ConsensusReply, target: Option<u64>) -> bool {
    match target {
        None => reply !is Missing,
        Some(time) => reply is At && reply->At_0 >= time,
    }
}

/// The state after an answer for the height that was asked. An unreadable consensus state ends a
/// search for a time without a result, except at the start of a range whose middle has none.
pub open spec fn search_next(
    state: SearchState,
    target: Option<u64>,
    reply: ConsensusReply,
) -> SearchState {
    match state {
        SearchState::Linear { next, end } => if suits(reply, target) {
            SearchState::Done { found: Some(next) }
        } else if next < end {
            SearchState::Linear { next: (next + 1) as u64, end }
        } else {
            SearchState::Done { found: None }
        },
        SearchState::Done { .. } => state,
        SearchState::First { start, end, known } => if suits(reply, target) {
            SearchState::Done { found: Some(start) }
        } else {
            narrowed((start + 1) as u64, end, known)
        },
        _ => if reply is Unreadable {
            SearchState::Done { found: None }
        } else {
            match state {
                SearchState::Middle { start, end, known } => if reply is Missing {
                    SearchState::First { start, end, known }
                } else if suits(reply, target) {
                    narrowed(start, middle(start, end), Some(middle(start, end)))
                } else {
                    narrowed((middle(start, end) + 1) as u64, end, known)
                },
                SearchState::Lower { start, end, known } => if suits(reply, target) {
                    SearchState::Done { found: Some(start) }
                } else if known is None && start < end {
                    SearchState::Upper { end }
                } else {
                    SearchState::Done { found: known }
                },
                SearchState::Upper { end } => if suits(reply, target) {
                    SearchState::Done { found: Some(end) }
                } else {
                    SearchState::Done { found: None }
                },
                _ => state,
            }
        },
    }
}

/// Whether a state can come up in a search.
pub open spec fn search_wf(state: SearchState) -> bool {
    match state {
        SearchState::Linear { next, end } => 0 < next <= end,
        SearchState::Middle { start, end, known } | SearchState::First { start, end, known } => {
            0 < start && start + 1 < end && known != Some(0u64)
        },
        SearchState::Lower { start, end, known } => {
            0 < start <= end <= start + 1 && known != Some(0u64)
        },
        SearchState::Upper { end } => 0 < end,
        SearchState::Done { found } => found != Some(0u64),
    }
}

/// A bound on the number of answers that a search still takes in.
pub open spec fn search_remaining(state: SearchState) -> int {
    match state {
        SearchState::Linear { next, end } => end - next + 1,
        SearchState::Middle { start, end, .. } => 2 * (end - start) + 2,
        SearchState::First { start, end, .. } => 2 * (end - start) + 1,
        SearchState::Lower { .. } => 2,
        SearchState::Upper { .. } => 1,
        SearchState::Done { .. } => 0,
    }
}

/// What a search finds from a state on where the answers are those of the given function.
pub open spec fn search_outcome(
    state: SearchState,
    target: Option<u64>,
    answers: spec_fn(u64) -> ConsensusReply,
) -> Option<u64>
    decreases search_remaining(state),
{
    if state is Done {
        state->found
    } else if search_wf(state) {
        search_outcome(search_next(state, target, answers(probe(state)->0)), target, answers)
    } else {
        None
    }
}

/// Whether a result is the first suitable height of a range, or there is none and it says so.
pub open spec fn is_first_suitable(
    found: Option<u64>,
    start: u64,
    end: u64,
    target: Option<u64>,
    answers: spec_fn(u64) -> ConsensusReply,
) -> bool {
    match found {
        Some(height) => {
            &&& start <= height <= end
            &&& suits(answers(height), target)
            &&& forall|h: u64|
                start <= h < height ==> !suits(#[trigger] answers(h), target)
        },
        None => forall|h: u64| start <= h <= end ==> !suits(#[trigger] answers(h), target),
    }
}

/// Whether the consensus states in a range are readable and their times do not run backwards.
/// Heights without a consensus state may lie among them.
pub open spec fn times_grow(
    start: u64,
    end: u64,
    answers: spec_fn(u64) -> ConsensusReply,
) -> bool {
    &&& forall|h: u64| start <= h <= end ==> #[trigger] answers(h) !is Unreadable
    &&& forall|h: u64, k: u64|
        start <= h <= k <= end && #[trigger] answers(h) is At && #[trigger] answers(k) is At
            ==> answers(h)->At_0 <= answers(k)->At_0
}

/// The range of heights that a state still covers, and the suitable height known above it.
spec fn search_covers(
    state: SearchState,
    start: u64,
    end: u64,
    target: Option<u64>,
    answers: spec_fn(u64) -> ConsensusReply,
) -> bool {
    match state {
        SearchState::Linear { next, end: e } => {
            &&& target is None
            &&& start <= next && e == end
            &&& forall|h: u64| start <= h < next ==> !suits(#[trigger] answers(h), target)
        },
        SearchState::Middle { start: s, end: e, known }
        | SearchState::First { start: s, end: e, known }
        | SearchState::Lower { start: s, end: e, known } => {
            &&& target is Some
            &&& start <= s && e <= end
            &&& forall|h: u64| start <= h < s ==> !suits(#[trigger] answers(h), target)
            &&& known is None ==> e == end
            &&& known is Some ==> known == Some(e) && suits(answers(e), target)
        },
        SearchState::Upper { end: e } => {
            &&& target is Some
            &&& start < e && e == end
            &&& forall|h: u64| start <= h < e ==> !suits(#[trigger] answers(h), target)
        },
        SearchState::Done { found } => is_first_suitable(found, start, end, target, answers),
    }
}

proof fn lemma_search_covers(
    state: SearchState,
    start: u64,
    end: u64,
    target: Option<u64>,
    answers: spec_fn(u64) -> ConsensusReply,
)
    requires
        search_wf(state),
        search_covers(state, start, end, target, answers),
        target is Some ==> times_grow(start, end, answers),
    ensures
        is_first_suitable(
            search_outcome(state, target, answers),
            start,
            end,
            target,
            answers,
        ),
    decreases search_remaining(state),
{
    if state !is Done {
        let next = search_next(state, target, answers(probe(state)->0));
        lemma_search_covers(next, start, end, target, answers);
    }
}

/// Without a time to match, the search finds the first height for which the client keeps a
/// consensus state, whatever the chain answers.
pub proof fn law_search_without_time_finds_the_first_state(
    start: u64,
    end: u64,
    answers: spec_fn(u64) -> ConsensusReply,
)
    requires
        start > 0,
    ensures
        is_first_suitable(
            search_outcome(search_begin(start, end, None), None, answers),
            start,
            end,
            None,
            answers,
        ),
{
    lemma_search_covers(search_begin(start, end, None), start, end, None, answers);
}

/// With a time to match, the search finds the first height whose consensus state is not older,
/// where the times of consensus states grow with their heights, however many heights the client
/// keeps no state for.
pub proof fn law_search_for_time_finds_the_first_height(
    start: u64,
    end: u64,
    time: u64,
    answers: spec_fn(u64) -> ConsensusReply,
)
    requires
        start > 0,
        times_grow(start, end, answers),
    ensures
        is_first_suitable(
            search_outcome(search_begin(start, end, Some(time)), Some(time), answers),
            start,
            end,
            Some(time),
            answers,
        ),
{
    lemma_search_covers(search_begin(start, end, Some(time)), start, end, Some(time), answers);
}

/// Whether all that a state holds as found lies in a range and is suitable.
spec fn search_sound(
    state: SearchState,
    start: u64,
    end: u64,
    target: Option<u64>,
    answers: spec_fn(u64) -> ConsensusReply,
) -> bool {
    match state {
        SearchState::Linear { next, end: e } => start <= next && e <= end,
        SearchState::Middle { start: s, end: e, known }
        | SearchState::First { start: s, end: e, known }
        | SearchState::Lower { start: s, end: e, known } => {
            &&& start <= s && e <= end
            &&& known is Some ==> start <= known->0 <= end && suits(answers(known->0), target)
        },
        SearchState::Upper { end: e } => start <= e <= end,
        SearchState::Done { found } => found is Some ==> start <= found->0 <= end && suits(
            answers(found->0),
            target,
        ),
    }
}

proof fn lemma_search_sound(
    state: SearchState,
    start: u64,
    end: u64,
    target: Option<u64>,
    answers: spec_fn(u64) -> ConsensusReply,
)
    requires
        search_wf(state),
        search_sound(state, start, end, target, answers),
    ensures
        search_outcome(state, target, answers) is Some ==> start <= search_outcome(
            state,
            target,
            answers,
        )->0 <= end && suits(answers(search_outcome(state, target, answers)->0), target),
    decreases search_remaining(state),
{
    if state !is Done {
        let next = search_next(state, target, answers(probe(state)->0));
        lemma_search_sound(next, start, end, target, answers);
    }
}

/// Whatever the chain answers, a height that the search finds lies in the range and is suitable.
pub proof fn law_found_height_is_suitable(
    start: u64,
    end: u64,
    target: Option<u64>,
    answers: spec_fn(u64) -> ConsensusReply,
)
    requires
        start > 0,
    ensures
        search_outcome(search_begin(start, end, target), target, answers) is Some ==> {
            let found = search_outcome(search_begin(start, end, target), target, answers)->0;
            start <= found <= end && suits(answers(found), target)
        },
{
    lemma_search_sound(search_begin(start, end, target), start, end, target, answers);
}

/// What a search asks for or has found.
#[derive(Debug)]
pub enum SearchStep {
    /// The chain is to be asked, as of a height, for the consensus state that a client keeps for
    /// a height.
    Query { at: Height, client_id: ClientId, consensus_height: Height },
    /// The search is over, with the height that was found.
    Done(Option<Height>),
}

/// A search for the first height of a client with a suitable consensus state.
#[derive(Debug)]
pub struct ProofHeightSearch {
    at: Height,
    client_id: ClientId,
    revision_number: u64,
    target: Option<u64>,
    state: SearchState,
}

/// What a search holds.
pub struct ProofHeightSearchView {
    pub at: RawHeight,
    pub client_id: Seq<char>,
    pub revision_number: u64,
    pub target: Option<u64>,
    pub state: SearchState,
}

impl View for ProofHeightSearch {
    type V = ProofHeightSearchView;

    closed spec fn view(&self) -> ProofHeightSearchView {
        ProofHeightSearchView {
            at: self.at@,
            client_id: self.client_id@,
            revision_number: self.revision_number,
            target: self.target,
            state: self.state,
        }
    }
}

fn narrow(start: u64, end: u64, known: Option<u64>) -> (state: SearchState)
    requires
        start <= end,
    ensures
        state == narrowed(start, end, known),
{
    if end - start > 1 {
        SearchState::Middle { start, end, known }
    } else {
        SearchState::Lower { start, end, known }
    }
}

/// Begins the search for the first client height, from the given one up to the client's latest,
/// whose consensus state is not older than the time to match. Without a time to match, any
/// consensus state will do.
pub fn find_suitable_proof_height_for_client(
    at: &Height,
    client_id: &ClientId,
    start_height: &Height,
    timestamp_to_match: Option<u64>,
    latest_client_height: &Height,
) -> (search: ProofHeightSearch)
    ensures
        search@.at == at@,
        search@.client_id == client_id@,
        search@.revision_number == start_height@.revision_number,
        search@.target == timestamp_to_match,
        search@.state == search_begin(
            start_height@.revision_height,
            latest_client_height@.revision_height,
            timestamp_to_match,
        ),
        search_wf(search@.state),
{
    let start: u64 = start_height.revision_height();
    let end: u64 = latest_client_height.revision_height();
    let state = if start > end {
        SearchState::Done { found: None }
    } else if timestamp_to_match.is_none() {
        SearchState::Linear { next: start, end }
    } else {
        narrow(start, end, None)
    };
    ProofHeightSearch {
        at: *at,
        client_id: client_id.clone(),
        revision_number: start_height.revision_number(),
        target: timestamp_to_match,
        state,
    }
}

impl ProofHeightSearch {
    #[verifier::type_invariant]
    spec fn valid(self) -> bool {
        search_wf(self.state) && (self.state is Linear || self.state is Done || self.target is Some)
    }

    /// What the search asks for next, or what it has found.
    pub fn step(&self) -> (step: SearchStep)
        ensures
            step is Query <==> probe(self@.state) is Some,
            step is Query ==> step->at@ == self@.at && step->client_id@ == self@.client_id,
            step is Query ==> step->consensus_height@ == (RawHeight {
                revision_number: self@.revision_number,
                revision_height: probe(self@.state)->0,
            }),
            step is Done ==> (step->Done_0 is Some <==> self@.state->found is Some),
            step is Done && step->Done_0 is Some ==> step->Done_0->0@ == (RawHeight {
                revision_number: self@.revision_number,
                revision_height: self@.state->found->0,
            }),
    {
        proof {
            use_type_invariant(self);
        }
        let block: u64 = match self.state {
            SearchState::Linear { next, .. } => next,
            SearchState::Middle { start, end, .. } => start + (end - start) / 2,
            SearchState::First { start, .. } => start,
            SearchState::Lower { start, .. } => start,
            SearchState::Upper { end } => end,
            SearchState::Done { found } => {
                return match found {
                    None => SearchStep::Done(None),
                    Some(block) => match Height::new(self.revision_number, block) {
                        Ok(height) => SearchStep::Done(Some(height)),
                        Err(_) => SearchStep::Done(None),
                    },
                };
            },
        };
        match Height::new(self.revision_number, block) {
            Ok(height) => SearchStep::Query {
                at: self.at,
                client_id: self.client_id.clone(),
                consensus_height: height,
            },
            Err(_) => SearchStep::Done(None),
        }
    }

    /// How the chain's answer with or without a consensus state counts. Without a time to match,
    /// the state is not read. There is no count for a time that is no number of nanoseconds of 64
    /// bits.
    pub fn reply(&self, state: Option<Any>) -> (reply: Option<ConsensusReply>)
        ensures
            self@.target is None ==> reply == Some(ConsensusReply::Unreadable),
            self@.target is Some ==> reply == match state {
                None => Some(ConsensusReply::Unreadable),
                Some(state) => consensus_reply_of(
                    consensus_state_time(state.type_url@, state.value@),
                ),
            },
    {
        match self.target {
            None => Some(ConsensusReply::Unreadable),
            Some(_) => consensus_reply(state),
        }
    }

    /// Takes in the answer for the height that was asked. A search that is over stays as it is.
    pub fn on_consensus(&mut self, reply: ConsensusReply)
        ensures
            final(self)@.at == old(self)@.at,
            final(self)@.client_id == old(self)@.client_id,
            final(self)@.revision_number == old(self)@.revision_number,
            final(self)@.target == old(self)@.target,
            final(self)@.state == search_next(old(self)@.state, old(self)@.target, reply),
            search_wf(final(self)@.state),
            old(self)@.state is Done || search_remaining(final(self)@.state) < search_remaining(
                old(self)@.state,
            ),
    {
        proof {
            use_type_invariant(&*self);
        }
        let suitable: bool = match self.target {
            None => match reply {
                ConsensusReply::Missing => false,
                _ => true,
            },
            Some(time) => match reply {
                ConsensusReply::At(at) => at >= time,
                _ => false,
            },
        };
        let missing: bool = match reply {
            ConsensusReply::Missing => true,
            _ => false,
        };
        let unreadable: bool = match reply {
            ConsensusReply::Unreadable => true,
            _ => false,
        };
        let next_state: SearchState = match self.state {
            SearchState::Linear { next, end } => if suitable {
                SearchState::Done { found: Some(next) }
            } else if next < end {
                SearchState::Linear { next: next + 1, end }
            } else {
                SearchState::Done { found: None }
            },
            SearchState::Done { found } => SearchState::Done { found },
            SearchState::Middle { start, end, known } => {
                let mid: u64 = start + (end - start) / 2;
                if unreadable {
                    SearchState::Done { found: None }
                } else if missing {
                    SearchState::First { start, end, known }
                } else if suitable {
                    narrow(start, mid, Some(mid))
                } else {
                    narrow(mid + 1, end, known)
                }
            },
            SearchState::First { start, end, known } => if suitable {
                SearchState::Done { found: Some(start) }
            } else {
                narrow(start + 1, end, known)
            },
            SearchState::Lower { start, end, known } => if unreadable {
                SearchState::Done { found: None }
            } else if suitable {
                SearchState::Done { found: Some(start) }
            } else if known.is_none() && start < end {
                SearchState::Upper { end }
            } else {
                SearchState::Done { found: known }
            },
            SearchState::Upper { end } => if suitable {
                SearchState::Done { found: Some(end) }
            } else {
                SearchState::Done { found: None }
            },
        };
        self.state = next_state;
    }
}

/// With a time to match, where every consensus state in the range can be read and their times do
/// not run backwards, the height that is found is the first one of the range with a consensus state
/// at or after the time. None is found exactly where there is no such height.
pub proof fn law_first_height_at_or_after_a_time(
    start: u64,
    end: u64,
    time: u64,
    answers: spec_fn(u64) -> ConsensusReply,
)
    requires
        start > 0,
        forall|h: u64| start <= h <= end ==> #[trigger] answers(h) !is Unreadable,
        forall|h: u64, k: u64|
            start <= h <= k <= end && #[trigger] answers(h) is At && #[trigger] answers(k) is At
                ==> answers(h)->At_0 <= answers(k)->At_0,
    ensures
        match search_outcome(search_begin(start, end, Some(time)), Some(time), answers) {
            Some(found) => {
                &&& start <= found <= end
                &&& answers(found) is At && answers(found)->At_0 >= time
                &&& forall|h: u64|
                    start <= h < found && #[trigger] answers(h) is At ==> answers(h)->At_0 < time
            },
            None => forall|h: u64|
                start <= h <= end && #[trigger] answers(h) is At ==> answers(h)->At_0 < time,
        },
{
    law_search_for_time_finds_the_first_height(start, end, time, answers);
    let found = search_outcome(search_begin(start, end, Some(time)), Some(time), answers);
    assert forall|h: u64|
        start <= h <= end && (found is Some ==> h < found->0) && #[trigger] answers(
            h,
        ) is At implies answers(h)->At_0 < time by {
        assert(!suits(answers(h), Some(time)));
    }
}

/// Without a time to match, the height that is found is the first one of the range for which the
/// chain answers, whatever it answers. None is found exactly where it never answers.
pub proof fn law_first_height_with_an_answer(
    start: u64,
    end: u64,
    answers: spec_fn(u64) -> ConsensusReply,
)
    requires
        start > 0,
    ensures
        match search_outcome(search_begin(start, end, None), None, answers) {
            Some(found) => {
                &&& start <= found <= end
                &&& answers(found) !is Missing
                &&& forall|h: u64| start <= h < found ==> #[trigger] answers(h) is Missing
            },
            None => forall|h: u64| start <= h <= end ==> #[trigger] answers(h) is Missing,
        },
{
    law_search_without_time_finds_the_first_state(start, end, answers);
    let found = search_outcome(search_begin(start, end, None), None, answers);
    assert forall|h: u64| start <= h <= end && (found is Some ==> h < found->0) implies #[trigger] answers(
        h,
    ) is Missing by {
        assert(!suits(answers(h), None));
    }
}

/// Whatever the chain answers, a height that is found for a time lies in the range and has a
/// consensus state at or after the time.
pub proof fn law_found_height_is_late_enough(
    start: u64,
    end: u64,
    time: u64,
    answers: spec_fn(u64) -> ConsensusReply,
)
    requires
        start > 0,
    ensures
        search_outcome(search_begin(start, end, Some(time)), Some(time), answers) is Some ==> {
            let found = search_outcome(
                search_begin(start, end, Some(time)),
                Some(time),
                answers,
            )->0;
            start <= found <= end && answers(found) is At && answers(found)->At_0 >= time
        },
{
    law_found_height_is_suitable(start, end, Some(time), answers);
}

/// An unreadable answer counts as a missing one where the start of a range is asked because its
/// middle has no state. Anywhere else it ends a search for a time without a result.
pub proof fn law_unreadable_answers(state: SearchState, time: u64)
    ensures
        state is First ==> search_next(state, Some(time), ConsensusReply::Unreadable)
            == search_next(state, Some(time), ConsensusReply::Missing),
        state is Middle || state is Lower || state is Upper ==> search_next(
            state,
            Some(time),
            ConsensusReply::Unreadable,
        ) == (SearchState::Done { found: None }),
{
}

/// How a search for a time begins: it is over where the range is empty, asks for the middle where
/// the range has more than two heights, and for the lower end otherwise. Without a time it begins at
/// the start of the range.
pub proof fn law_search_begins_in_its_range(start: u64, end: u64, time: u64)
    ensures
        start > end ==> search_begin(start, end, Some(time)) == (SearchState::Done { found: None })
            && search_begin(start, end, None) == (SearchState::Done { found: None }),
        start <= end ==> search_begin(start, end, None) == (SearchState::Linear {
            next: start,
            end,
        }),
        start + 1 < end ==> search_begin(start, end, Some(time)) == (SearchState::Middle {
            start,
            end,
            known: None,
        }),
        start <= end <= start + 1 ==> search_begin(start, end, Some(time)) == (SearchState::Lower {
            start,
            end,
            known: None,
        }),
{
}

/// A search for a time halves its range: it asks for the middle, goes on below it where the time
/// there is late enough, which is then known to do, and above it where it is too early. A middle
/// without a state makes it ask for the start of the range.
pub proof fn law_search_halves_its_range(
    start: u64,
    end: u64,
    known: Option<u64>,
    time: u64,
    at: u64,
)
    requires
        start + 1 < end,
    ensures
        ({
            let state = SearchState::Middle { start, end, known };
            let middle = probe(state)->0;
            let late = search_next(state, Some(time), ConsensusReply::At(at));
            &&& probe(state) is Some
            &&& 2 * middle <= start + end < 2 * middle + 2
            &&& at >= time ==> late == (if middle > start + 1 {
                SearchState::Middle { start, end: middle, known: Some(middle) }
            } else {
                SearchState::Lower { start, end: middle, known: Some(middle) }
            })
            &&& at < time ==> late == (if end > middle + 2 {
                SearchState::Middle { start: (middle + 1) as u64, end, known }
            } else {
                SearchState::Lower { start: (middle + 1) as u64, end, known }
            })
            &&& search_next(state, Some(time), ConsensusReply::Missing) == (SearchState::First {
                start,
                end,
                known,
            })
        }),
{
}

/// Where the start of a range is asked, it is found where its time is late enough, and left out of
/// the range otherwise.
pub proof fn law_search_leaves_out_an_unsuitable_start(
    start: u64,
    end: u64,
    known: Option<u64>,
    time: u64,
    reply: ConsensusReply,
)
    requires
        start + 1 < end,
    ensures
        ({
            let state = SearchState::First { start, end, known };
            let next = search_next(state, Some(time), reply);
            &&& probe(state) == Some(start)
            &&& reply is At && reply->At_0 >= time ==> next == (SearchState::Done {
                found: Some(start),
            })
            &&& !(reply is At && reply->At_0 >= time) ==> next == (if end > start + 2 {
                SearchState::Middle { start: (start + 1) as u64, end, known }
            } else {
                SearchState::Lower { start: (start + 1) as u64, end, known }
            })
        }),
{
}

/// With at most two heights left, the lower one is found where its time is late enough. Otherwise
/// what is known to do is found, and where nothing is known, the upper one is asked.
pub proof fn law_search_ends_with_two_heights(
    start: u64,
    end: u64,
    known: Option<u64>,
    time: u64,
    reply: ConsensusReply,
)
    requires
        reply !is Unreadable,
    ensures
        ({
            let lower = SearchState::Lower { start, end, known };
            let upper = SearchState::Upper { end };
            let suitable = reply is At && reply->At_0 >= time;
            &&& probe(lower) == Some(start)
            &&& probe(upper) == Some(end)
            &&& search_next(lower, Some(time), reply) == (if suitable {
                SearchState::Done { found: Some(start) }
            } else if known is None && start < end {
                SearchState::Upper { end }
            } else {
                SearchState::Done { found: known }
            })
            &&& search_next(upper, Some(time), reply) == (SearchState::Done {
                found: if suitable {
                    Some(end)
                } else {
                    None
                },
            })
        }),
{
}

} // verus!
