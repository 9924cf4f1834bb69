//! Sending tokens from one chain to the other.
use crate::cosmos::provider::Coin;
use crate::ibc::height::{raw_timeout, Height, RawHeight, TimeoutHeight};
use crate::ibc::identifier::{ChannelId, PortId};
use crate::ibc::text::{decimal, decimal_text, parse_unsigned, unsigned_number};
use crate::testsuite::setup::TransferChannel;
use vstd::prelude::*;

verus! {

/// How many blocks a transfer may take.
pub const HEIGHT_OFFSET: u64 = 2000;

/// How long a transfer may take, in nanoseconds.
pub const TIME_OFFSET_NANOS: u64 = 36_000_000_000_000;

/// The delay of the connection that a packet is sent over with a delay, in seconds.
pub const CONNECTION_DELAY_SECONDS: u64 = 300;

/// How long an acknowledgement or a timeout is waited for, in seconds.
pub const PACKET_TIMEOUT_SECONDS: u64 = 1200;

/// How long a timeout height is waited for, in seconds.
pub const TIMEOUT_HEIGHT_SECONDS: u64 = 600;

/// A transfer of tokens.
#[derive(Debug)]
pub struct MsgTransfer {
    pub source_port: PortId,
    pub source_channel: ChannelId,
    pub token: Coin,
    pub sender: String,
    pub receiver: String,
    pub timeout_height: TimeoutHeight,
    /// The time at which the transfer times out, in nanoseconds; none where it does not time out
    /// by time.
    pub timeout_timestamp: Option<u64>,
}

/// The channels that two chains relay.
#[derive(Debug)]
pub struct ChannelWhitelists {
    pub for_a: Vec<(ChannelId, PortId)>,
    pub for_b: Vec<(ChannelId, PortId)>,
}

/// The channels that two chains relay while a packet is sent over a channel between them: each its
/// own end of that channel, on the transfer port, and no other.
pub fn ibc_messaging_with_connection_delay(channel: TransferChannel) -> (whitelists:
    ChannelWhitelists)
    ensures
        whitelists.for_a@.len() == 1,
        whitelists.for_a@[0].0 == channel.channel_a,
        whitelists.for_a@[0].1@ == "transfer"@,
        whitelists.for_b@.len() == 1,
        whitelists.for_b@[0].0 == channel.channel_b,
        whitelists.for_b@[0].1@ == "transfer"@,
{
    let mut for_a: Vec<(ChannelId, PortId)> = Vec::new();
    for_a.push((channel.channel_a, PortId::transfer()));
    let mut for_b: Vec<(ChannelId, PortId)> = Vec::new();
    for_b.push((channel.channel_b, PortId::transfer()));
    ChannelWhitelists { for_a, for_b }
}

/// The number that a text is.
pub fn parse_amount(amount: String) -> (number: u128)
    requires
        unsigned_number(amount@) is Some,
    ensures
        unsigned_number(amount@) == Some(number),
{
    match parse_unsigned(amount.as_str()) {
        Some(number) => number,
        None => vstd::pervasive::unreached(),
    }
}

/// The amount that is sent of a balance: 20% of it.
pub open spec fn transfer_amount(balance: u128) -> u128 {
    balance / 5
}

/// The time at which a transfer times out that is sent at a time.
pub open spec fn timeout_after(latest_timestamp: Option<u64>) -> Option<u64> {
    match latest_timestamp {
        Some(time) => Some((time + TIME_OFFSET_NANOS) as u64),
        None => None,
    }
}

/// The transfer of 20% of the funds of the first chain's signer to the second chain's signer,
/// after the balance that the first one had before. It times out some blocks and some time after
/// the second chain's latest block. Where the chain has no latest time, the transfer does not time
/// out by time: a missing time stays missing, and is not the time zero.
pub fn send_transfer(
    balance: Coin,
    channel_id: ChannelId,
    sender: String,
    receiver: String,
    latest_height: &Height,
    latest_timestamp: Option<u64>,
) -> (transfer: (u128, MsgTransfer))
    requires
        unsigned_number(balance.amount@) is Some,
        latest_height@.revision_height + HEIGHT_OFFSET <= u64::MAX,
        latest_timestamp is Some ==> latest_timestamp->0 + TIME_OFFSET_NANOS <= u64::MAX,
    ensures
        unsigned_number(balance.amount@) == Some(transfer.0),
        ({
            let message = transfer.1;
            &&& message.source_port@ == "transfer"@
            &&& message.source_channel == channel_id
            &&& message.token.denom == balance.denom
            &&& message.token.amount@ == decimal(transfer_amount(transfer.0) as nat)
            &&& message.sender == sender
            &&& message.receiver == receiver
            &&& message.timeout_height is At
            &&& raw_timeout(message.timeout_height) == (RawHeight {
                revision_number: latest_height@.revision_number,
                revision_height: (latest_height@.revision_height + HEIGHT_OFFSET) as u64,
            })
            &&& message.timeout_timestamp == timeout_after(latest_timestamp)
        }),
{
    let previous_balance: u128 = parse_amount(balance.amount);
    let block: u64 = latest_height.revision_height() + HEIGHT_OFFSET;
    let timeout_height = match Height::new(latest_height.revision_number(), block) {
        Ok(height) => TimeoutHeight::At(height),
        Err(_) => vstd::pervasive::unreached(),
    };
    let message = MsgTransfer {
        source_port: PortId::transfer(),
        source_channel: channel_id,
        token: Coin { denom: balance.denom, amount: decimal_text(previous_balance / 5) },
        sender,
        receiver,
        timeout_height,
        timeout_timestamp: match latest_timestamp {
            Some(time) => Some(time + TIME_OFFSET_NANOS),
            None => None,
        },
    };
    (previous_balance, message)
}

/// Whether a balance is at most nine tenths of an earlier one.
pub open spec fn has_fallen(new_amount: int, previous_balance: u128) -> bool {
    new_amount <= (previous_balance * 90) / 100
}

/// Whether a balance has fallen to nine tenths of an earlier one or less.
pub fn assert_send_transfer(new_amount: u128, previous_balance: u128) -> (fell: bool)
    requires
        previous_balance * 90 <= u128::MAX,
    ensures
        fell == has_fallen(new_amount as int, previous_balance),
{
    new_amount <= (previous_balance * 90) / 100
}

/// Whether a chain with a block has reached a timeout height.
pub fn timeout_height_reached(block_number: u64, timeout_height: &TimeoutHeight) -> (reached: bool)
    ensures
        reached <==> block_number >= raw_timeout(*timeout_height).revision_height,
{
    block_number >= timeout_height.raw().revision_height
}

/// A transfer never sends more than the sender has, and it leaves at least four fifths.
pub proof fn law_transfer_is_covered(balance: u128)
    ensures
        transfer_amount(balance) * 5 <= balance,
        balance - transfer_amount(balance) >= transfer_amount(balance) * 4,
{
}

/// What is left of a balance after a transfer has fallen far enough to pass for one. Balances
/// of one to four are left out: nothing is sent of them.
pub proof fn law_transfer_is_seen_in_the_balance(balance: u128)
    requires
        balance == 0 || balance >= 5,
    ensures
        has_fallen(balance - transfer_amount(balance), balance),
{
}

/// What is sent of a balance is a fifth of it, rounded down.
pub proof fn law_a_fifth_is_sent(balance: u128)
    ensures
        5 * transfer_amount(balance) <= balance < 5 * transfer_amount(balance) + 5,
{
}

/// A transfer times out ten hours after the latest time, and not by time where there is none. Its
/// acknowledgement or timeout is given twenty minutes, and its timeout height ten.
pub proof fn law_transfer_times_out_after_ten_hours(latest_timestamp: Option<u64>)
    requires
        latest_timestamp is Some ==> latest_timestamp->0 + 36_000_000_000_000 <= u64::MAX,
    ensures
        timeout_after(latest_timestamp) is Some <==> latest_timestamp is Some,
        latest_timestamp is Some ==> timeout_after(latest_timestamp)->0 == latest_timestamp->0
            + 36_000_000_000_000,
        PACKET_TIMEOUT_SECONDS == 20 * 60,
        TIMEOUT_HEIGHT_SECONDS == 10 * 60,
{
}

/// A balance has fallen far enough exactly where a tenth of the earlier one or more is gone.
pub proof fn law_fallen_balance_has_lost_a_tenth(new_amount: int, previous_balance: u128)
    ensures
        has_fallen(new_amount, previous_balance) <==> 10 * new_amount <= 9 * previous_balance,
{
}

} // verus!
