//! Whether the delay of a connection has passed.
use crate::ibc::height::{Height, RawHeight};
use crate::ibc::identifier::ClientId;
use vstd::prelude::*;

verus! {

/// The chain on which the delay has to have passed.
#[derive(Clone, Copy, Debug, PartialEq, Eq, Structural)]
pub enum VerifyDelayOn {
    Source,
    Sink,
}

/// What the check of a delay begins with. The chain on which the delay has to have passed is to be
/// asked when, and at which height, a client was updated to a height.
#[derive(Debug)]
pub struct DelayCheck {
    on: VerifyDelayOn,
    client_id: ClientId,
    client_height: Height,
    current_time: Option<u64>,
    current_height: Height,
    connection_delay: u128,
}

/// What the check of a delay holds.
#[verifier::ext_equal]
pub struct DelayCheckView {
    /// The chain that is asked.
    pub on: VerifyDelayOn,
    /// The other chain's client on it.
    pub client_id: Seq<char>,
    /// The height of the client.
    pub client_height: RawHeight,
    /// The latest time of the chain that is asked, in nanoseconds, where the chain has one.
    pub current_time: Option<u64>,
    /// The latest height of the chain that is asked.
    pub current_height: RawHeight,
    /// The delay of the connection, in nanoseconds.
    pub connection_delay: u128,
}

impl View for DelayCheck {
    type V = DelayCheckView;

    closed spec fn view(&self) -> DelayCheckView {
        DelayCheckView {
            on: self.on,
            client_id: self.client_id@,
            client_height: self.client_height@,
            current_time: self.current_time,
            current_height: self.current_height@,
            connection_delay: self.connection_delay,
        }
    }
}

/// When a client was updated on a chain.
#[derive(Clone, Copy, Debug, PartialEq, Eq, Structural)]
pub struct ClientUpdate {
    pub height: Height,
    /// The time, in nanoseconds.
    pub time: u64,
}

/// The check once the client's update is known. The number of blocks that the chain makes during
/// the delay is to be given.
#[derive(Debug)]
pub struct DelayAfterUpdate {
    check: DelayCheck,
    update: ClientUpdate,
}

/// What the check of a delay holds once the client's update is known.
#[verifier::ext_equal]
pub struct DelayAfterUpdateView {
    /// The check so far.
    pub check: DelayCheckView,
    /// The update of the client.
    pub update: ClientUpdate,
}

impl View for DelayAfterUpdate {
    type V = DelayAfterUpdateView;

    closed spec fn view(&self) -> DelayAfterUpdateView {
        DelayAfterUpdateView { check: self.check@, update: self.update }
    }
}

/// What decides whether a delay has passed.
#[derive(Clone, Copy, Debug, PartialEq, Eq, Structural)]
pub struct ElapsedDelay {
    /// The chain's latest time, where it has one.
    pub current_time: Option<u64>,
    pub current_height: Height,
    pub client_update_time: u64,
    pub client_update_height: Height,
    pub delay_period_time: u128,
    pub delay_period_blocks: u64,
}

/// Begins the check whether the delay of a connection has passed since a client was updated to
/// the height of a proof: the sink's client on the source, or the source's client on the sink.
pub fn verify_delay_passed(
    source_client_id: &ClientId,
    sink_client_id: &ClientId,
    source_timestamp: Option<u64>,
    source_height: Height,
    sink_timestamp: Option<u64>,
    sink_height: Height,
    connection_delay: u128,
    proof_height: Height,
    verify_delay_on: VerifyDelayOn,
) -> (check: DelayCheck)
    ensures
        check@.on == verify_delay_on,
        check@.client_height == proof_height@,
        check@.connection_delay == connection_delay,
        verify_delay_on is Source ==> {
            &&& check@.client_id == sink_client_id@
            &&& check@.current_time == source_timestamp
            &&& check@.current_height == source_height@
        },
        verify_delay_on is Sink ==> {
            &&& check@.client_id == source_client_id@
            &&& check@.current_time == sink_timestamp
            &&& check@.current_height == sink_height@
        },
{
    match verify_delay_on {
        VerifyDelayOn::Source => DelayCheck {
            on: verify_delay_on,
            client_id: sink_client_id.clone(),
            client_height: proof_height,
            current_time: source_timestamp,
            current_height: source_height,
            connection_delay,
        },
        VerifyDelayOn::Sink => DelayCheck {
            on: verify_delay_on,
            client_id: source_client_id.clone(),
            client_height: proof_height,
            current_time: sink_timestamp,
            current_height: sink_height,
            connection_delay,
        },
    }
}

/// Whether the delay has passed: it has not where the chain does not know the client's update, and
/// otherwise the comparison of times and heights decides.
pub fn delay_passed<E>(elapsed: Option<Result<bool, E>>) -> (passed: Result<bool, E>)
    ensures
        elapsed is None ==> passed == Ok::<bool, E>(false),
        elapsed is Some ==> passed == elapsed->0,
{
    match elapsed {
        None => Ok(false),
        Some(elapsed) => elapsed,
    }
}

impl DelayCheck {
    /// The chain that is asked.
    pub fn on(&self) -> (on: VerifyDelayOn)
        ensures
            on == self@.on,
    {
        self.on
    }

    /// The client whose update is asked for.
    pub fn client_id(&self) -> (client_id: &ClientId)
        ensures
            client_id@ == self@.client_id,
    {
        &self.client_id
    }

    /// The height of the client whose update is asked for.
    pub fn client_height(&self) -> (height: Height)
        ensures
            height@ == self@.client_height,
    {
        self.client_height
    }

    /// Takes in when the client was updated. Where the chain does not know, the delay has not
    /// passed and there is nothing more to check.
    pub fn on_update(self, update: Option<ClientUpdate>) -> (next: Option<DelayAfterUpdate>)
        ensures
            next is Some <==> update is Some,
            next is Some ==> next->0@ == (DelayAfterUpdateView {
                check: self@,
                update: update->0,
            }),
    {
        match update {
            None => None,
            Some(update) => Some(DelayAfterUpdate { check: self, update }),
        }
    }
}

impl DelayAfterUpdate {
    /// Takes in how many blocks the chain makes during the delay.
    pub fn on_block_delay(self, block_delay: u64) -> (elapsed: ElapsedDelay)
        ensures
            elapsed.current_time == self@.check.current_time,
            elapsed.current_height@ == self@.check.current_height,
            elapsed.client_update_time == self@.update.time,
            elapsed.client_update_height == self@.update.height,
            elapsed.delay_period_time == self@.check.connection_delay,
            elapsed.delay_period_blocks == block_delay,
    {
        ElapsedDelay {
            current_time: self.check.current_time,
            current_height: self.check.current_height,
            client_update_time: self.update.time,
            client_update_height: self.update.height,
            delay_period_time: self.check.connection_delay,
            delay_period_blocks: block_delay,
        }
    }
}

} // verus!
