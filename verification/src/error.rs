//! The reasons for which a step of the relayer fails.
use vstd::prelude::*;

verus! {

/// A failure of one of the library's steps.
#[derive(Clone, Copy, Debug, PartialEq, Eq, Structural)]
pub enum Error {
    /// A text is not an identifier of the wanted kind.
    InvalidIdentifier,
    /// A height has a zero block number.
    ZeroHeight,
    /// A chain answered without the client state that it was asked for.
    ClientStateMissing,
    /// A client state cannot be read.
    ClientStateDecode,
    /// A chain answered without the channel end that it was asked for.
    ChannelMissing,
    /// A channel end does not name the channel on the other chain.
    CounterpartyChannelMissing,
    /// A block number is too large for the chain.
    HeightOverflow,
    /// A chain's store prefix is empty.
    EmptyPrefix,
    /// A query failed on the chain.
    QueryFailed,
    /// What is stored under a path cannot be proved.
    NotProvable,
    /// A chain answered without the proof that it was asked for.
    ProofMissing,
    /// A chain does not know the account.
    AccountMissing,
    /// An account cannot be read.
    AccountDecode,
    /// A node is still catching up with its chain.
    NodeSyncing,
    /// An account has no balance in the denomination.
    BalanceMissing,
    /// A proof is empty.
    EmptyProof,
    /// A channel end names no connection.
    ConnectionHopMissing,
    /// A channel end cannot be read.
    ChannelDecode,
}

} // verus!
