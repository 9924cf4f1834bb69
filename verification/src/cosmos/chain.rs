//! Submitting messages to a Cosmos chain.
use crate::cosmos::client::CosmosClient;
use crate::cosmos::provider::Coin;
use crate::ibc::any::Any;
use crate::ibc::tendermint::BaseAccount;
use vstd::prelude::*;

verus! {

/// The weight that a block of a Cosmos chain takes.
pub const BLOCK_MAX_WEIGHT: u64 = 2097152;

/// The gas that a transaction may use.
pub const GAS_LIMIT: u64 = 400000;

/// What a transaction pays.
#[derive(Debug)]
pub struct Fee {
    pub amount: Vec<Coin>,
    pub gas_limit: u64,
    pub payer: String,
    pub granter: String,
}

/// The fee of every transaction: 4000 stake for the gas limit, paid by the signer.
pub open spec fn is_default_fee(fee: Fee) -> bool {
    &&& fee.amount@.len() == 1
    &&& fee.amount@[0].denom@ == "stake"@
    &&& fee.amount@[0].amount@ == "4000"@
    &&& fee.gas_limit == GAS_LIMIT
    &&& fee.payer@.len() == 0
    &&& fee.granter@.len() == 0
}

/// Messages on their way to the chain. The chain is to be asked for the account of the signer.
#[derive(Debug)]
pub struct Submission {
    messages: Vec<Any>,
    account: String,
}

/// What is submitted.
#[verifier::ext_equal]
pub struct SubmissionView {
    pub messages: Seq<Any>,
    /// The account that signs.
    pub account: Seq<char>,
}

impl View for Submission {
    type V = SubmissionView;

    closed spec fn view(&self) -> SubmissionView {
        SubmissionView { messages: self.messages@, account: self.account@ }
    }
}

impl Submission {
    /// The account that signs, which the chain is asked for.
    pub fn account(&self) -> (account: &str)
        ensures
            account@ == self@.account,
    {
        self.account.as_str()
    }
}

/// Messages of which a transaction is to be made and signed.
#[derive(Debug)]
pub struct SignRequest {
    pub messages: Vec<Any>,
    /// The sequence of the signer's account.
    pub sequence: u64,
    /// The number of the signer's account.
    pub account_number: u64,
    pub fee: Fee,
    pub chain_id: String,
}

impl CosmosClient {
    /// The name of the chain.
    pub fn name(&self) -> (name: &str)
        ensures
            name@ == self.name@,
    {
        self.name.as_str()
    }

    /// The weight that a block of the chain takes.
    pub fn block_max_weight(&self) -> (weight: u64)
        ensures
            weight == BLOCK_MAX_WEIGHT,
            weight != 0,
    {
        BLOCK_MAX_WEIGHT
    }

    /// Begins to submit messages to the chain.
    pub fn submit(&self, messages: Vec<Any>) -> (submission: Submission)
        ensures
            submission@ == (SubmissionView { messages: messages@, account: self.account@ }),
    {
        Submission { messages, account: self.account.clone() }
    }

    /// Takes in the signer's account.
    pub fn sign_request(&self, submission: Submission, account: &BaseAccount) -> (request:
        SignRequest)
        ensures
            request.messages@ == submission@.messages,
            request.sequence == account.sequence,
            request.account_number == account.account_number,
            is_default_fee(request.fee),
            request.chain_id == self.chain_id,
    {
        let mut amount: Vec<Coin> = Vec::new();
        amount.push(Coin { denom: "stake".to_string(), amount: "4000".to_string() });
        let fee = Fee {
            amount,
            gas_limit: GAS_LIMIT,
            payer: String::new(),
            granter: String::new(),
        };
        SignRequest {
            messages: submission.messages,
            sequence: account.sequence,
            account_number: account.account_number,
            fee,
            chain_id: self.chain_id.clone(),
        }
    }
}

/// The default fee is one amount, of 4000 stake, for gas of 400000, and names neither a payer nor a
/// granter.
pub proof fn law_default_fee_is_fixed(fee: Fee)
    ensures
        is_default_fee(fee) <==> {
            &&& fee.amount@.len() == 1
            &&& fee.amount@[0].denom@ == "stake"@
            &&& fee.amount@[0].amount@ == "4000"@
            &&& fee.gas_limit == 400_000
            &&& fee.payer@ == Seq::<char>::empty()
            &&& fee.granter@ == Seq::<char>::empty()
        },
{
    assert(fee.payer@.len() == 0 ==> fee.payer@ =~= Seq::empty());
    assert(fee.granter@.len() == 0 ==> fee.granter@ =~= Seq::empty());
}

} // verus!
