//! Reading what chains answer.
use crate::error::Error;
use crate::ibc::any::Any;
use crate::ibc::height::{Height, RawHeight};
use vstd::prelude::*;

verus! {

/// The seconds of the trusting period, the unbonding period and the clock drift in the protobuf
/// encoding of a Tendermint client state, each where it is there; none where the bytes are no such
/// encoding.
pub uninterp spec fn client_state_seconds(value: Seq<u8>) -> Option<
    (Option<i64>, Option<i64>, Option<i64>),
>;

/// The latest height in the encoding of a Tendermint client state; none where the encoding is not
/// one of a client state.
pub uninterp spec fn client_state_height(type_url: Seq<char>, value: Seq<u8>) -> Option<RawHeight>;

/// The least number of seconds whose negation is a number of seconds too, whatever its nanoseconds
/// carry over.
pub const LEAST_SECONDS: i64 = -0x7fff_ffff_ffff_fffd;

/// Whether a period with some seconds, where it is there, can be negated.
pub open spec fn period_converts(seconds: Option<i64>) -> bool {
    seconds is Some ==> seconds->0 >= LEAST_SECONDS
}

/// Whether the periods of a client state, where the bytes encode one, can be negated.
pub open spec fn periods_convert(
    seconds: Option<(Option<i64>, Option<i64>, Option<i64>)>,
) -> bool {
    match seconds {
        None => true,
        Some((trusting, unbonding, drift)) => period_converts(trusting) && period_converts(
            unbonding,
        ) && period_converts(drift),
    }
}

/// The latest height of the client whose state has an encoding; none where it is not the encoding
/// of a client state or its periods are out of range.
pub open spec fn readable_client_height(type_url: Seq<char>, value: Seq<u8>) -> Option<RawHeight> {
    if periods_convert(client_state_seconds(value)) {
        client_state_height(type_url, value)
    } else {
        None
    }
}

/// The time in the encoding of a Tendermint consensus state, in nanoseconds since the Unix epoch:
/// none where the encoding is not one of a consensus state, and no number of nanoseconds where the
/// time lies before the epoch.
pub uninterp spec fn consensus_state_time(type_url: Seq<char>, value: Seq<u8>) -> Option<
    Option<u128>,
>;

/// `prost`'s `decode` for `ibc_proto`'s `ClientState`, and the seconds of its three periods: they
/// are determined by the bytes.
#[verifier::external_body]
fn decode_client_seconds(state: &Any) -> (seconds: Option<
    (Option<i64>, Option<i64>, Option<i64>),
>)
    ensures
        seconds == client_state_seconds(state.value@),
{
    let state: ibc_proto::ibc::lightclients::tendermint::v1::ClientState = prost::Message::decode(
        state.value.as_slice(),
    ).ok()?;
    Some((
        state.trusting_period.map(|period| period.seconds),
        state.unbonding_period.map(|period| period.seconds),
        state.max_clock_drift.map(|period| period.seconds),
    ))
}

/// `ClientState::try_from` of `ibc_relayer_types`, on `ibc_proto`'s `Any`, and the latest height
/// of the state: the height is determined by the message. A message of another type is refused,
/// and a client state's height is never zero. The conversion of a period negates its seconds where
/// they are negative, so that they must not be the least ones.
#[verifier::external_body]
fn decode_client_height(state: &Any) -> (height: Option<RawHeight>)
    requires
        periods_convert(client_state_seconds(state.value@)),
    ensures
        height == client_state_height(state.type_url@, state.value@),
        height is Some ==> height->0.revision_height != 0,
        state.type_url@ != "/ibc.lightclients.tendermint.v1.ClientState"@ ==> height is None,
{
    let any = ibc_proto::google::protobuf::Any {
        type_url: state.type_url.clone(),
        value: state.value.clone(),
    };
    let state = ibc_relayer_types::clients::ics07_tendermint::client_state::ClientState::try_from(
        any,
    ).ok()?;
    Some(RawHeight {
        revision_number: state.latest_height().revision_number(),
        revision_height: state.latest_height().revision_height(),
    })
}

/// `ConsensusState::try_from` of `ibc_relayer_types`, on `ibc_proto`'s `Any`, and the time of the
/// state, measured from the Unix epoch: the time is determined by the message. A message of
/// another type is refused.
#[verifier::external_body]
fn decode_consensus_time(state: &Any) -> (time: Option<Option<u128>>)
    ensures
        time == consensus_state_time(state.type_url@, state.value@),
        state.type_url@ != "/ibc.lightclients.tendermint.v1.ConsensusState"@ ==> time is None,
{
    let any = ibc_proto::google::protobuf::Any {
        type_url: state.type_url.clone(),
        value: state.value.clone(),
    };
    let state =
        ibc_relayer_types::clients::ics07_tendermint::consensus_state::ConsensusState::try_from(
        any,
    ).ok()?;
    let since_epoch = state.timestamp.duration_since(tendermint::Time::unix_epoch());
    Some(since_epoch.ok().map(|duration| duration.as_nanos()))
}

fn period_in_range(seconds: Option<i64>) -> (in_range: bool)
    ensures
        in_range == period_converts(seconds),
{
    match seconds {
        None => true,
        Some(seconds) => seconds >= LEAST_SECONDS,
    }
}

/// Whether the periods of a client state, where the bytes encode one, can be negated.
pub fn periods_in_range(seconds: Option<(Option<i64>, Option<i64>, Option<i64>)>) -> (in_range:
    bool)
    ensures
        in_range == periods_convert(seconds),
{
    match seconds {
        None => true,
        Some((trusting, unbonding, drift)) => period_in_range(trusting) && period_in_range(
            unbonding,
        ) && period_in_range(drift),
    }
}

/// The latest height of a client, read from its state. A state with a period out of range is
/// refused as one that cannot be read.
pub fn client_latest_height(state: &Any) -> (height: Result<Height, Error>)
    ensures
        height is Ok <==> readable_client_height(state.type_url@, state.value@) is Some,
        height is Ok ==> readable_client_height(state.type_url@, state.value@) == Some(height->Ok_0@),
        height is Err ==> height->Err_0 == Error::ClientStateDecode,
        state.type_url@ != "/ibc.lightclients.tendermint.v1.ClientState"@ ==> height is Err,
{
    if !periods_in_range(decode_client_seconds(state)) {
        return Err(Error::ClientStateDecode);
    }
    match decode_client_height(state) {
        Some(raw) => match Height::new(raw.revision_number, raw.revision_height) {
            Ok(height) => Ok(height),
            Err(_) => Err(Error::ClientStateDecode),
        },
        None => Err(Error::ClientStateDecode),
    }
}

/// What a chain answers when it is asked for the consensus state that a client keeps for a height.
#[derive(Clone, Copy, Debug, PartialEq, Eq, Structural)]
pub enum ConsensusReply {
    /// The client keeps no consensus state for the height.
    Missing,
    /// There is an answer, but no time was read from it.
    Unreadable,
    /// The consensus state has this time, in nanoseconds.
    At(u64),
}

/// How a chain's answer with or without a consensus state counts. There is no count for a time
/// that is no number of nanoseconds of 64 bits.
pub open spec fn consensus_reply_of(time: Option<Option<u128>>) -> Option<ConsensusReply> {
    match time {
        None => Some(ConsensusReply::Unreadable),
        Some(None) => None,
        Some(Some(nanoseconds)) => if nanoseconds <= u64::MAX {
            Some(ConsensusReply::At(nanoseconds as u64))
        } else {
            None
        },
    }
}

/// Counts a time read from a consensus state.
pub fn consensus_time_reply(time: Option<Option<u128>>) -> (reply: Option<ConsensusReply>)
    ensures
        reply == consensus_reply_of(time),
{
    match time {
        None => Some(ConsensusReply::Unreadable),
        Some(None) => None,
        Some(Some(nanoseconds)) => if nanoseconds <= u64::MAX as u128 {
            Some(ConsensusReply::At(nanoseconds as u64))
        } else {
            None
        },
    }
}

/// Counts a chain's answer to the query for a consensus state: an answer without a state is
/// unreadable.
pub fn consensus_reply(state: Option<Any>) -> (reply: Option<ConsensusReply>)
    ensures
        reply == match state {
            None => Some(ConsensusReply::Unreadable),
            Some(state) => consensus_reply_of(
                consensus_state_time(state.type_url@, state.value@),
            ),
        },
{
    match state {
        None => Some(ConsensusReply::Unreadable),
        Some(state) => consensus_time_reply(decode_consensus_time(&state)),
    }
}

/// The height of a client is read from its state as it is, unless one of the state's periods has so
/// few seconds that they cannot be negated.
pub proof fn law_height_is_read_where_periods_are_in_range(
    type_url: Seq<char>,
    value: Seq<u8>,
    trusting: Option<i64>,
    unbonding: Option<i64>,
    drift: Option<i64>,
)
    requires
        client_state_seconds(value) == Some((trusting, unbonding, drift)),
    ensures
        ({
            let least = i64::MIN + 3;
            let out_of_range = (trusting is Some && trusting->0 < least) || (unbonding is Some
                && unbonding->0 < least) || (drift is Some && drift->0 < least);
            readable_client_height(type_url, value) == (if out_of_range {
                None
            } else {
                client_state_height(type_url, value)
            })
        }),
{
}

/// Where the bytes encode no client state, what reading them gives stands as it is.
pub proof fn law_other_bytes_are_read_as_they_are(type_url: Seq<char>, value: Seq<u8>)
    requires
        client_state_seconds(value) is None,
    ensures
        readable_client_height(type_url, value) == client_state_height(type_url, value),
{
}

/// A time that is read counts as itself where it is a number of nanoseconds of 64 bits, and does not
/// count otherwise. Where no time is read, the answer is unreadable.
pub proof fn law_times_count_as_themselves(nanoseconds: u128)
    ensures
        nanoseconds <= u64::MAX ==> consensus_reply_of(Some(Some(nanoseconds))) == Some(
            ConsensusReply::At(nanoseconds as u64),
        ),
        nanoseconds > u64::MAX ==> consensus_reply_of(Some(Some(nanoseconds))) is None,
        consensus_reply_of(Some(None)) is None,
        consensus_reply_of(None) == Some(ConsensusReply::Unreadable),
{
}

} // verus!
