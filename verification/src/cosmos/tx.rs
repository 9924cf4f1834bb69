//! Transactions.
use crate::cosmos::events::{subscription_query, Subscription};
use crate::cosmos::provider::TransactionId;
use crate::ibc::tendermint::equality_query;
use vstd::prelude::*;

verus! {

/// How long the relayer looks for a transaction before it gives up, in milliseconds.
pub const SEARCH_TIMEOUT_MILLIS: u64 = 30000;

/// How long the relayer waits before it looks for a transaction again, in milliseconds.
pub const SEARCH_BACKOFF_MILLIS: u64 = 300;

/// The query for the transaction with a hash, in its text.
pub fn tx_query(hash: String) -> (query: Subscription)
    ensures
        subscription_query(query) == equality_query("tx.hash"@, hash@),
{
    Subscription::Equal { key: "tx.hash".to_string(), value: hash }
}

/// What a node is asked in one look for a transaction.
#[derive(Debug)]
pub struct TxSearch {
    pub query: Subscription,
    /// Whether the transactions are to be proved.
    pub prove: bool,
    /// The page of results that is asked for, counted from one.
    pub page: u32,
    /// How many results a page has.
    pub per_page: u8,
    /// Whether the results come in the order of their blocks.
    pub ascending: bool,
}

/// One look for the transaction with a hash: the first one that the query gives, without a proof.
pub fn tx_search(hash: String) -> (search: TxSearch)
    ensures
        subscription_query(search.query) == equality_query("tx.hash"@, hash@),
        !search.prove,
        search.page == 1,
        search.per_page == 1,
        search.ascending,
{
    TxSearch { query: tx_query(hash), prove: false, page: 1, per_page: 1, ascending: true }
}

/// What one look for a transaction gave: the first one of the results, where there is one.
pub fn first_found<T>(txs: Vec<T>) -> (found: Option<T>)
    ensures
        found == (if txs@.len() == 0 {
            None
        } else {
            Some(txs@[0])
        }),
{
    let mut txs = txs;
    if txs.len() == 0 {
        None
    } else {
        Some(txs.remove(0))
    }
}

/// Whether a search that has taken some nanoseconds has taken too long.
pub open spec fn search_timed_out(elapsed: u128) -> bool {
    elapsed > SEARCH_TIMEOUT_MILLIS * 1_000_000
}

/// The search for a transaction, after one look.
#[derive(Debug)]
pub enum SearchStep<T> {
    /// The relayer sleeps for some milliseconds and looks again.
    Sleep { millis: u64 },
    /// The transaction was not found in time.
    TimedOut,
    /// The transaction was found.
    Found(T),
}

/// Takes in what one look for a transaction gave, after some nanoseconds of looking.
pub fn search_step<T>(found: Option<T>, elapsed: u128) -> (step: SearchStep<T>)
    ensures
        found is Some ==> step == SearchStep::Found(found->0),
        found is None && search_timed_out(elapsed) ==> step == SearchStep::<T>::TimedOut,
        found is None && !search_timed_out(elapsed) ==> step == (SearchStep::<T>::Sleep {
            millis: SEARCH_BACKOFF_MILLIS,
        }),
{
    match found {
        Some(found) => SearchStep::Found(found),
        None => if elapsed > SEARCH_TIMEOUT_MILLIS as u128 * 1_000_000 {
            SearchStep::TimedOut
        } else {
            SearchStep::Sleep { millis: SEARCH_BACKOFF_MILLIS }
        },
    }
}

/// A signed transaction that is to be simulated: both as a value, for chains that simulate that,
/// and in bytes, for chains that simulate those.
#[derive(Debug)]
pub struct Simulation<Tx> {
    tx: Option<Tx>,
    tx_bytes: Vec<u8>,
}

/// What is to be simulated.
#[verifier::ext_equal]
pub struct SimulationView<Tx> {
    pub tx: Option<Tx>,
    pub tx_bytes: Seq<u8>,
}

impl<Tx> View for Simulation<Tx> {
    type V = SimulationView<Tx>;

    closed spec fn view(&self) -> SimulationView<Tx> {
        SimulationView { tx: self.tx, tx_bytes: self.tx_bytes@ }
    }
}

/// A signed transaction whose simulation succeeded.
#[derive(Debug)]
pub struct Simulated {
    tx_bytes: Vec<u8>,
}

impl View for Simulated {
    type V = Seq<u8>;

    closed spec fn view(&self) -> Seq<u8> {
        self.tx_bytes@
    }
}

/// Asks for the simulation of a signed transaction.
pub fn simulate_tx<Tx>(tx: Tx, tx_bytes: Vec<u8>) -> (simulation: Simulation<Tx>)
    ensures
        simulation@ == (SimulationView { tx: Some(tx), tx_bytes: tx_bytes@ }),
{
    Simulation { tx: Some(tx), tx_bytes }
}

impl<Tx> Simulation<Tx> {
    /// The transaction as a value.
    pub fn tx(&self) -> (tx: &Option<Tx>)
        ensures
            *tx == self@.tx,
    {
        &self.tx
    }

    /// The transaction in bytes.
    pub fn tx_bytes(&self) -> (tx_bytes: &Vec<u8>)
        ensures
            tx_bytes@ == self@.tx_bytes,
    {
        &self.tx_bytes
    }

    /// Takes in that the simulation succeeded.
    pub fn succeeded(self) -> (simulated: Simulated)
        ensures
            simulated@ == self@.tx_bytes,
    {
        Simulated { tx_bytes: self.tx_bytes }
    }
}

impl Simulated {
    /// The bytes that are broadcast: those that were simulated.
    pub fn into_broadcast(self) -> (tx_bytes: Vec<u8>)
        ensures
            tx_bytes@ == self@,
    {
        self.tx_bytes
    }
}

/// The identifier of a transaction that a node has accepted under a hash.
pub fn broadcast_tx<Hash>(hash: Hash) -> (id: TransactionId<Hash>)
    ensures
        id.hash == hash,
{
    TransactionId { hash }
}

/// A transaction in a block.
#[derive(Debug)]
pub struct TxOutcome<Hash> {
    pub hash: Hash,
    /// Zero where the transaction succeeded.
    pub code: u32,
}

/// The confirmation of a transaction, after one look for it.
#[derive(Debug)]
pub enum ConfirmStep<Hash> {
    /// The relayer sleeps for some milliseconds and looks again.
    Sleep { millis: u64 },
    /// The transaction was not found in time: after this many seconds.
    TimedOut { seconds: u128 },
    /// The transaction failed.
    Failed { code: u32 },
    /// The transaction succeeded.
    Confirmed(TransactionId<Hash>),
}

/// Takes in what one look for a transaction that has been sent gave, after some nanoseconds of
/// looking. A transaction is confirmed once it is found and has succeeded.
pub fn confirm_tx<Hash>(found: Option<TxOutcome<Hash>>, elapsed: u128) -> (step: ConfirmStep<Hash>)
    ensures
        found is None && search_timed_out(elapsed) ==> step == (ConfirmStep::<Hash>::TimedOut {
            seconds: (elapsed / 1_000_000_000) as u128,
        }),
        found is None && !search_timed_out(elapsed) ==> step == (ConfirmStep::<Hash>::Sleep {
            millis: SEARCH_BACKOFF_MILLIS,
        }),
        found is Some && found->0.code != 0 ==> step == (ConfirmStep::<Hash>::Failed {
            code: found->0.code,
        }),
        found is Some && found->0.code == 0 ==> step == ConfirmStep::Confirmed(
            TransactionId { hash: found->0.hash },
        ),
{
    match search_step(found, elapsed) {
        SearchStep::Sleep { millis } => ConfirmStep::Sleep { millis },
        SearchStep::TimedOut => ConfirmStep::TimedOut { seconds: elapsed / 1_000_000_000 },
        SearchStep::Found(outcome) => if outcome.code != 0 {
            ConfirmStep::Failed { code: outcome.code }
        } else {
            ConfirmStep::Confirmed(TransactionId { hash: outcome.hash })
        },
    }
}

/// The relayer gives a transaction thirty seconds: a search has taken too long exactly where more
/// nanoseconds than that have passed.
pub proof fn law_search_times_out_after_thirty_seconds(elapsed: u128)
    ensures
        search_timed_out(elapsed) <==> elapsed > 30_000_000_000,
{
}

} // verus!
