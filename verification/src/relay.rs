//! What the relayer does about a finality event of a chain.
use crate::ibc::any::Any;
use crate::ibc::height::{height_before, Height, RawHeight};
use crate::primitives::traits::UpdateType;
use vstd::prelude::*;

verus! {

/// How long the relayer waits before it asks the source for its height again, in milliseconds.
pub const HEIGHT_BACKOFF_MILLIS: u64 = 2000;

/// What the relayer sends to the sink once the source has reached the height of the proofs.
#[derive(Debug)]
pub struct ProofWait {
    proof_height: Height,
    messages: Vec<Any>,
    packet_events: bool,
}

/// What waits for the height of the proofs.
#[verifier::ext_equal]
pub struct ProofWaitView {
    /// The height that the source has to reach.
    pub proof_height: RawHeight,
    /// The messages for the sink.
    pub messages: Seq<Any>,
    /// Whether the source had packet events.
    pub packet_events: bool,
}

impl View for ProofWait {
    type V = ProofWaitView;

    closed spec fn view(&self) -> ProofWaitView {
        ProofWaitView {
            proof_height: self.proof_height@,
            messages: self.messages@,
            packet_events: self.packet_events,
        }
    }
}

/// What the relayer does while it waits for the height of the proofs.
#[derive(Debug)]
pub enum WaitStep {
    /// It sleeps for some milliseconds and then asks the source for its height again.
    Sleep { millis: u64, wait: ProofWait },
    /// It asks the source for the client update.
    FetchUpdate(UpdateWait),
}

/// The messages for the sink, which a client update goes before.
#[derive(Debug)]
pub struct UpdateWait {
    messages: Vec<Any>,
    packet_events: bool,
}

/// What waits for the client update.
#[verifier::ext_equal]
pub struct UpdateWaitView {
    /// The messages for the sink.
    pub messages: Seq<Any>,
    /// Whether the source had packet events.
    pub packet_events: bool,
}

impl View for UpdateWait {
    type V = UpdateWaitView;

    closed spec fn view(&self) -> UpdateWaitView {
        UpdateWaitView { messages: self.messages@, packet_events: self.packet_events }
    }
}

/// A finality event whose IBC events have been turned into messages.
#[derive(Debug)]
pub struct FinalityRelay {
    /// The timeouts to be flushed to the source first, where there are any.
    pub timeouts: Option<Vec<Any>>,
    /// What is to be done afterwards.
    pub wait: ProofWait,
}

/// Plans what is sent about a finality event: timeouts go to the source at once, messages for the
/// sink wait for the source to reach the height of their proofs.
pub fn process_finality_event(
    messages: Vec<Any>,
    timeouts: Vec<Any>,
    proof_height_ref: Height,
    packet_events: bool,
) -> (relay: FinalityRelay)
    ensures
        relay.timeouts is None <==> timeouts@.len() == 0,
        relay.timeouts is Some ==> relay.timeouts->0 == timeouts,
        relay.wait@ == (ProofWaitView {
            proof_height: proof_height_ref@,
            messages: messages@,
            packet_events,
        }),
{
    FinalityRelay {
        timeouts: if timeouts.len() == 0 {
            None
        } else {
            Some(timeouts)
        },
        wait: ProofWait { proof_height: proof_height_ref, messages, packet_events },
    }
}

impl ProofWait {
    /// Takes in the latest height of the source.
    pub fn on_source_height(self, latest: &Height) -> (step: WaitStep)
        ensures
            step is Sleep <==> height_before(latest@, self@.proof_height),
            step is Sleep ==> step->millis == HEIGHT_BACKOFF_MILLIS && step->wait@ == self@,
            step is FetchUpdate ==> step->FetchUpdate_0@ == (UpdateWaitView {
                messages: self@.messages,
                packet_events: self@.packet_events,
            }),
    {
        if latest.is_before(&self.proof_height) {
            WaitStep::Sleep { millis: HEIGHT_BACKOFF_MILLIS, wait: self }
        } else {
            WaitStep::FetchUpdate(
                UpdateWait { messages: self.messages, packet_events: self.packet_events },
            )
        }
    }
}

/// Whether there is nothing to send about a finality event: the client update may be left out, the
/// source had no packet events and there are no messages. An update is sent where packet messages
/// exist but were held back by a connection delay, even if it is optional.
pub open spec fn nothing_to_send(
    update_type: UpdateType,
    packet_events: bool,
    messages: Seq<Any>,
) -> bool {
    update_type is Optional && !packet_events && messages.len() == 0
}

/// A client update is sent where it changes the authorities, where the source had packet events
/// and where there are messages. Only where none of these holds is nothing sent.
pub proof fn law_only_idle_events_are_skipped(
    update_type: UpdateType,
    packet_events: bool,
    messages: Seq<Any>,
)
    ensures
        update_type is Mandatory ==> !nothing_to_send(update_type, packet_events, messages),
        packet_events ==> !nothing_to_send(update_type, packet_events, messages),
        messages.len() > 0 ==> !nothing_to_send(update_type, packet_events, messages),
        !(update_type is Mandatory) && !packet_events && messages.len() == 0 ==> nothing_to_send(
            update_type,
            packet_events,
            messages,
        ),
{
}

impl UpdateWait {
    /// Takes in the client update, where the source could make one. The result is what is flushed
    /// to the sink: the client update, then the messages.
    pub fn on_update(self, update: Option<(Any, UpdateType)>) -> (messages: Option<Vec<Any>>)
        ensures
            messages is Some <==> update is Some && !nothing_to_send(
                (update->0).1,
                self@.packet_events,
                self@.messages,
            ),
            messages is Some ==> messages->0@ == seq![(update->0).0] + self@.messages,
    {
        match update {
            None => None,
            Some((msg_update_client, update_type)) => {
                let mut messages = self.messages;
                if update_type.is_optional() && !self.packet_events && messages.len() == 0 {
                    None
                } else {
                    messages.insert(0, msg_update_client);
                    assert(messages@ =~= seq![msg_update_client] + self.messages@);
                    Some(messages)
                }
            },
        }
    }
}

} // verus!
