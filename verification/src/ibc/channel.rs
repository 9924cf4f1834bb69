//! Channel ends.
use crate::error::Error;
use crate::ibc::identifier::{
    is_channel_id, is_connection_id, is_port_id, ChannelId, ConnectionId, PortId,
};
use vstd::prelude::*;

verus! {

/// The other end of a channel as it is written on the wire.
#[derive(Debug)]
pub struct RawCounterparty {
    /// The port on the other chain.
    pub port_id: String,
    /// The channel on the other chain; empty while it is not known.
    pub channel_id: String,
}

/// A channel end as it is written on the wire.
#[derive(Debug)]
pub struct RawChannel {
    /// The number of the channel's state.
    pub state: i32,
    /// The number of the channel's ordering.
    pub ordering: i32,
    /// The other end of the channel.
    pub counterparty: Option<RawCounterparty>,
    /// The connections that the channel runs over.
    pub connection_hops: Vec<String>,
    /// The version agreed on in the handshake.
    pub version: String,
}

/// How far the handshake of a channel has come.
#[derive(Clone, Copy, Debug, PartialEq, Eq, Structural)]
pub enum State {
    Uninitialized,
    Init,
    TryOpen,
    Open,
    Closed,
}

/// Whether a channel delivers its packets in order.
#[derive(Clone, Copy, Debug, PartialEq, Eq, Structural)]
pub enum Order {
    Uninitialized,
    Unordered,
    Ordered,
}

/// A channel end.
#[derive(Debug)]
pub struct ChannelEnd {
    /// How far the handshake has come.
    pub state: State,
    /// Whether packets are delivered in order.
    pub ordering: Order,
    /// The port on the other chain.
    pub counterparty_port: PortId,
    /// The channel on the other chain, once it is known.
    pub counterparty_channel: Option<ChannelId>,
    /// The connections that the channel runs over.
    pub connection_hops: Vec<ConnectionId>,
}

/// What a channel end holds.
#[verifier::ext_equal]
pub struct ChannelEndView {
    pub state: State,
    pub ordering: Order,
    pub counterparty_port: Seq<char>,
    pub counterparty_channel: Option<Seq<char>>,
    pub connection_hops: Seq<Seq<char>>,
}

impl View for ChannelEnd {
    type V = ChannelEndView;

    open spec fn view(&self) -> ChannelEndView {
        ChannelEndView {
            state: self.state,
            ordering: self.ordering,
            counterparty_port: self.counterparty_port@,
            counterparty_channel: match self.counterparty_channel {
                Some(channel) => Some(channel@),
                None => None,
            },
            connection_hops: self.connection_hops@.map_values(|hop: ConnectionId| hop@),
        }
    }
}

/// The state with a number.
pub open spec fn state_of(number: i32) -> Option<State> {
    if number == 0 {
        Some(State::Uninitialized)
    } else if number == 1 {
        Some(State::Init)
    } else if number == 2 {
        Some(State::TryOpen)
    } else if number == 3 {
        Some(State::Open)
    } else if number == 4 {
        Some(State::Closed)
    } else {
        None
    }
}

/// The number of a state.
pub open spec fn state_number(state: State) -> i32 {
    match state {
        State::Uninitialized => 0,
        State::Init => 1,
        State::TryOpen => 2,
        State::Open => 3,
        State::Closed => 4,
    }
}

/// The ordering with a number.
pub open spec fn order_of(number: i32) -> Option<Order> {
    if number == 0 {
        Some(Order::Uninitialized)
    } else if number == 1 {
        Some(Order::Unordered)
    } else if number == 2 {
        Some(Order::Ordered)
    } else {
        None
    }
}

/// The number of an ordering.
pub open spec fn order_number(order: Order) -> i32 {
    match order {
        Order::Uninitialized => 0,
        Order::Unordered => 1,
        Order::Ordered => 2,
    }
}

/// Whether the other end of a channel on the wire is readable: a port, and a channel or none.
pub open spec fn readable_counterparty(port: Seq<char>, channel: Seq<char>) -> bool {
    is_port_id(port) && (channel.len() == 0 || is_channel_id(channel))
}

/// The channel end that a channel on the wire stands for. An uninitialized channel stands for the
/// default channel end, whatever its other fields hold.
pub open spec fn channel_end_of(raw: RawChannel) -> Option<ChannelEndView> {
    if raw.state == 0 {
        Some(
            ChannelEndView {
                state: State::Uninitialized,
                ordering: Order::Unordered,
                counterparty_port: "defaultPort"@,
                counterparty_channel: None,
                connection_hops: Seq::empty(),
            },
        )
    } else if state_of(raw.state) is Some && order_of(raw.ordering) is Some
        && raw.counterparty is Some && readable_counterparty(
        raw.counterparty->0.port_id@,
        raw.counterparty->0.channel_id@,
    ) && (forall|i: int|
        0 <= i < raw.connection_hops@.len() ==> is_connection_id(
            #[trigger] raw.connection_hops@[i]@,
        )) {
        Some(
            ChannelEndView {
                state: state_of(raw.state)->0,
                ordering: order_of(raw.ordering)->0,
                counterparty_port: raw.counterparty->0.port_id@,
                counterparty_channel: if raw.counterparty->0.channel_id@.len() == 0 {
                    None
                } else {
                    Some(raw.counterparty->0.channel_id@)
                },
                connection_hops: raw.connection_hops@.map_values(|hop: String| hop@),
            },
        )
    } else {
        None
    }
}

/// `ChannelEnd::try_from` of `ibc_relayer_types`, on `ibc_proto`'s `Channel`: it accepts exactly
/// the channels that stand for a channel end, and gives that channel end; here by the numbers of
/// its state and ordering and the texts of the other end and of the connections, which are
/// identifiers.
#[verifier::external_body]
fn decode_channel(raw: &RawChannel) -> (end: Option<
    (i32, i32, String, Option<String>, Vec<String>),
>)
    ensures
        end is Some <==> channel_end_of(*raw) is Some,
        end is Some ==> {
            let view = channel_end_of(*raw)->0;
            let (state, ordering, port, channel, hops) = end->0;
            &&& state_of(state) == Some(view.state)
            &&& order_of(ordering) == Some(view.ordering)
            &&& port@ == view.counterparty_port
            &&& is_port_id(port@)
            &&& channel is Some <==> view.counterparty_channel is Some
            &&& channel is Some ==> channel->0@ == view.counterparty_channel->0
            &&& channel is Some ==> is_channel_id(channel->0@)
            &&& hops@.map_values(|hop: String| hop@) == view.connection_hops
            &&& forall|i: int| 0 <= i < hops@.len() ==> is_connection_id(#[trigger] hops@[i]@)
        },
{
    let counterparty = raw.counterparty.as_ref().map(|c| ibc_proto::ibc::core::channel::v1::Counterparty {
        port_id: c.port_id.clone(), channel_id: c.channel_id.clone() });
    let raw = ibc_proto::ibc::core::channel::v1::Channel {
        state: raw.state, ordering: raw.ordering, counterparty,
        connection_hops: raw.connection_hops.clone(), version: raw.version.clone() };
    let end = ibc_relayer_types::core::ics04_channel::channel::ChannelEnd::try_from(raw).ok()?;
    let hops = end.connection_hops.iter().map(|hop| hop.to_string()).collect();
    Some((end.state as i32, end.ordering as i32, end.remote.port_id.to_string(),
        end.remote.channel_id.map(|c| c.to_string()), hops))
}

impl State {
    /// The state with a number.
    pub fn from_i32(number: i32) -> (state: Option<State>)
        ensures
            state == state_of(number),
    {
        match number {
            0 => Some(State::Uninitialized),
            1 => Some(State::Init),
            2 => Some(State::TryOpen),
            3 => Some(State::Open),
            4 => Some(State::Closed),
            _ => None,
        }
    }

    /// The number of the state.
    pub fn number(&self) -> (number: i32)
        ensures
            number == state_number(*self),
            state_of(number) == Some(*self),
    {
        match self {
            State::Uninitialized => 0,
            State::Init => 1,
            State::TryOpen => 2,
            State::Open => 3,
            State::Closed => 4,
        }
    }
}

impl Order {
    /// The ordering with a number.
    pub fn from_i32(number: i32) -> (order: Option<Order>)
        ensures
            order == order_of(number),
    {
        match number {
            0 => Some(Order::Uninitialized),
            1 => Some(Order::Unordered),
            2 => Some(Order::Ordered),
            _ => None,
        }
    }

    /// The number of the ordering.
    pub fn number(&self) -> (number: i32)
        ensures
            number == order_number(*self),
            order_of(number) == Some(*self),
    {
        match self {
            Order::Uninitialized => 0,
            Order::Unordered => 1,
            Order::Ordered => 2,
        }
    }
}

fn read_hops(texts: &Vec<String>) -> (hops: Vec<ConnectionId>)
    requires
        forall|i: int| 0 <= i < texts@.len() ==> is_connection_id(#[trigger] texts@[i]@),
    ensures
        hops@.map_values(|hop: ConnectionId| hop@) == texts@.map_values(|hop: String| hop@),
{
    let ghost view = |hop: ConnectionId| hop@;
    let ghost text_view = |hop: String| hop@;
    let mut hops: Vec<ConnectionId> = Vec::new();
    let mut i: usize = 0;
    assert(hops@.map_values(view) =~= texts@.take(0).map_values(text_view));
    while i < texts.len()
        invariant
            i <= texts.len(),
            forall|j: int| 0 <= j < texts@.len() ==> is_connection_id(#[trigger] texts@[j]@),
            view == |hop: ConnectionId| hop@,
            text_view == |hop: String| hop@,
            hops@.map_values(view) == texts@.take(i as int).map_values(text_view),
        decreases texts.len() - i,
    {
        let ghost before = hops@;
        assert(is_connection_id(texts@[i as int]@));
        match ConnectionId::from_str(texts[i].as_str()) {
            Ok(hop) => {
                hops.push(hop);
                assert(hops@.map_values(view) =~= before.map_values(view).push(hop@));
                assert(texts@.take(i + 1).map_values(text_view) =~= texts@.take(
                    i as int,
                ).map_values(text_view).push(hop@));
            },
            Err(_) => vstd::pervasive::unreached(),
        }
        i += 1;
    }
    assert(texts@.take(i as int) =~= texts@);
    hops
}

impl ChannelEnd {
    /// Reads a channel end from the wire.
    pub fn from_raw(raw: &RawChannel) -> (end: Result<ChannelEnd, Error>)
        ensures
            end is Ok <==> channel_end_of(*raw) is Some,
            end is Ok ==> end->Ok_0@ == channel_end_of(*raw)->0,
            end is Err ==> end->Err_0 == Error::ChannelDecode,
    {
        match decode_channel(raw) {
            None => Err(Error::ChannelDecode),
            Some((state, ordering, port, channel, hops)) => {
                let state = match State::from_i32(state) {
                    Some(state) => state,
                    None => {
                        return Err(Error::ChannelDecode);
                    },
                };
                let ordering = match Order::from_i32(ordering) {
                    Some(ordering) => ordering,
                    None => {
                        return Err(Error::ChannelDecode);
                    },
                };
                let counterparty_port = match PortId::from_str(port.as_str()) {
                    Ok(port) => port,
                    Err(_) => {
                        return Err(Error::ChannelDecode);
                    },
                };
                let counterparty_channel = match channel {
                    None => None,
                    Some(text) => match ChannelId::from_str(text.as_str()) {
                        Ok(channel) => Some(channel),
                        Err(_) => {
                            return Err(Error::ChannelDecode);
                        },
                    },
                };
                let connection_hops = read_hops(&hops);
                let end = ChannelEnd {
                    state,
                    ordering,
                    counterparty_port,
                    counterparty_channel,
                    connection_hops,
                };
                assert(end@ =~= channel_end_of(*raw)->0);
                Ok(end)
            },
        }
    }
}

/// The states of a channel are numbered from zero in the order of the handshake, and no other number
/// is a state.
pub proof fn law_states_have_their_numbers(state: State, number: i32)
    ensures
        state_of(state_number(state)) == Some(state),
        state_of(number) is Some <==> 0 <= number <= 4,
        state_of(number) is Some ==> state_number(state_of(number)->0) == number,
        state_number(state) == 0 <==> state is Uninitialized,
        state_number(state) == 1 <==> state is Init,
        state_number(state) == 2 <==> state is TryOpen,
        state_number(state) == 3 <==> state is Open,
        state_number(state) == 4 <==> state is Closed,
{
}

/// The orderings of a channel are numbered from zero, and no other number is an ordering.
pub proof fn law_orderings_have_their_numbers(order: Order, number: i32)
    ensures
        order_of(order_number(order)) == Some(order),
        order_of(number) is Some <==> 0 <= number <= 2,
        order_of(number) is Some ==> order_number(order_of(number)->0) == number,
        order_number(order) == 0 <==> order is Uninitialized,
        order_number(order) == 1 <==> order is Unordered,
        order_number(order) == 2 <==> order is Ordered,
{
}

/// A channel on the wire whose handshake has begun is a channel end exactly where its numbers are
/// those of a state and an ordering and its identifiers are valid. The channel end has what the
/// wire has.
pub proof fn law_channel_end_is_what_the_wire_has(raw: RawChannel)
    requires
        raw.state != 0,
    ensures
        channel_end_of(raw) is Some <==> {
            &&& 1 <= raw.state <= 4
            &&& 0 <= raw.ordering <= 2
            &&& raw.counterparty is Some
            &&& is_port_id(raw.counterparty->0.port_id@)
            &&& raw.counterparty->0.channel_id@.len() == 0 || is_channel_id(
                raw.counterparty->0.channel_id@,
            )
            &&& forall|i: int|
                0 <= i < raw.connection_hops@.len() ==> is_connection_id(
                    #[trigger] raw.connection_hops@[i]@,
                )
        },
        channel_end_of(raw) is Some ==> {
            let end = channel_end_of(raw)->0;
            let channel = raw.counterparty->0.channel_id@;
            &&& state_number(end.state) == raw.state
            &&& order_number(end.ordering) == raw.ordering
            &&& end.counterparty_port == raw.counterparty->0.port_id@
            &&& end.counterparty_channel is None <==> channel.len() == 0
            &&& channel.len() > 0 ==> end.counterparty_channel == Some(channel)
            &&& end.connection_hops.len() == raw.connection_hops@.len()
            &&& forall|i: int|
                0 <= i < end.connection_hops.len() ==> #[trigger] end.connection_hops[i]
                    == raw.connection_hops@[i]@
        },
{
}

/// A channel on the wire whose handshake has not begun is the channel end without a counterparty
/// and without connections, whatever else it holds.
pub proof fn law_uninitialized_channel_is_empty(raw: RawChannel)
    requires
        raw.state == 0,
    ensures
        channel_end_of(raw) is Some,
        channel_end_of(raw)->0.state is Uninitialized,
        channel_end_of(raw)->0.ordering is Unordered,
        channel_end_of(raw)->0.counterparty_port == "defaultPort"@,
        channel_end_of(raw)->0.counterparty_channel is None,
        channel_end_of(raw)->0.connection_hops.len() == 0,
{
}

/// A channel end is known by its parts.
pub proof fn law_channel_end_is_its_parts(end: ChannelEnd)
    ensures
        end@.state == end.state,
        end@.ordering == end.ordering,
        end@.counterparty_port == end.counterparty_port@,
        end@.counterparty_channel is Some <==> end.counterparty_channel is Some,
        end.counterparty_channel is Some ==> end@.counterparty_channel == Some(
            end.counterparty_channel->0@,
        ),
        end@.connection_hops.len() == end.connection_hops@.len(),
        forall|i: int|
            0 <= i < end.connection_hops@.len() ==> #[trigger] end@.connection_hops[i]
                == end.connection_hops@[i]@,
{
}

} // verus!
