//! A client of a Cosmos chain: what it is told, and what it asks the chain for.
use crate::error::Error;
use crate::ibc::any::Any;
use crate::ibc::height::Height;
use crate::ibc::identifier::{ChannelId, ClientId, ConnectionId, PortId};
use crate::ibc::tendermint::{
    base_account, decode_base_account, merkle_proof, merkle_proof_bytes, proof_data,
    tendermint_height, BaseAccount, ProofOp, MAX_BLOCK,
};
use crate::primitives::traits::UpdateType;
use vstd::prelude::*;
use vstd::utf8::encode_utf8;

verus! {

/// Config options for [`CosmosClient`].
#[derive(Debug)]
pub struct CosmosClientConfig {
    /// Chain name
    pub name: String,
    /// rpc url for cosmos
    pub rpc_url: String,
    /// grpc url for cosmos
    pub grpc_url: String,
    /// websocket url for cosmos
    pub websocket_url: String,
    /// Cosmos chain Id
    pub chain_id: String,
    /// Light client id on counterparty chain
    pub client_id: Option<String>,
    /// Connection Id
    pub connection_id: Option<String>,
    /// Account prefix
    pub account_prefix: String,
    /// Store prefix
    pub store_prefix: String,
    /// The account that signs transactions
    pub account: String,
}

/// This is responsible for:
/// 1. Tracking a cosmos light client on a counter-party chain, advancing this light
/// client state as new finality proofs are observed.
/// 2. Submitting new IBC messages to this cosmos.
#[derive(Debug)]
pub struct CosmosClient {
    /// Chain name
    pub name: String,
    /// Chain rpc address
    pub rpc_url: String,
    /// Chain grpc address
    pub grpc_url: String,
    /// Websocket chain address
    pub websocket_url: String,
    /// Chain Id
    pub chain_id: String,
    /// Light client id on counterparty chain
    pub client_id: Option<ClientId>,
    /// Connection Id
    pub connection_id: Option<ConnectionId>,
    /// The account that signs transactions
    pub account: String,
    /// Account prefix
    pub account_prefix: String,
    /// Reference to commitment
    pub commitment_prefix: Vec<u8>,
    /// Channels cleared for packet relay
    pub channel_whitelist: Vec<(ChannelId, PortId)>,
}

impl CosmosClient {
    /// Initializes a [`CosmosClient`] given a [`CosmosClientConfig`]. Until it is told another
    /// one, the client takes the first Tendermint client of the counterparty for its own. An empty
    /// store prefix is refused.
    pub fn new(config: CosmosClientConfig) -> (client: Result<CosmosClient, Error>)
        ensures
            client is Err <==> config.store_prefix@.len() == 0,
            client is Err ==> client->Err_0 == Error::EmptyPrefix,
            client is Ok ==> {
                let c = client->Ok_0;
                &&& c.name == config.name
                &&& c.rpc_url == config.rpc_url
                &&& c.grpc_url == config.grpc_url
                &&& c.websocket_url == config.websocket_url
                &&& c.chain_id == config.chain_id
                &&& c.client_id is Some && c.client_id->0@ == "07-tendermint-0"@
                &&& c.connection_id is None
                &&& c.account == config.account
                &&& c.account_prefix == config.account_prefix
                &&& c.commitment_prefix@ == encode_utf8(config.store_prefix@)
                &&& c.channel_whitelist@.len() == 0
            },
    {
        proof {
            reveal_strlit("07-tendermint-0");
            vstd::utf8::encode_utf8_decode_utf8(config.store_prefix@);
            vstd::utf8::encode_utf8_decode_utf8(Seq::empty());
        }
        let client_id = match ClientId::from_str("07-tendermint-0") {
            Ok(id) => id,
            Err(_) => vstd::pervasive::unreached(),
        };
        let commitment_prefix = config.store_prefix.as_str().as_bytes_vec();
        if commitment_prefix.len() == 0 {
            assert(encode_utf8(Seq::<char>::empty()) =~= Seq::<u8>::empty());
            assert(commitment_prefix@ =~= Seq::<u8>::empty());
            return Err(Error::EmptyPrefix);
        }
        Ok(
            CosmosClient {
                name: config.name,
                rpc_url: config.rpc_url,
                grpc_url: config.grpc_url,
                websocket_url: config.websocket_url,
                chain_id: config.chain_id,
                client_id: Some(client_id),
                connection_id: None,
                account: config.account,
                account_prefix: config.account_prefix,
                commitment_prefix,
                channel_whitelist: Vec::new(),
            },
        )
    }

    /// The chain's light client on the counterparty.
    pub fn client_id(&self) -> (id: ClientId)
        requires
            self.client_id is Some,
        ensures
            self.client_id == Some(id),
    {
        match &self.client_id {
            Some(id) => id.clone(),
            None => vstd::pervasive::unreached(),
        }
    }

    /// Sets the chain's light client on the counterparty.
    pub fn set_client_id(&mut self, client_id: ClientId)
        ensures
            *final(self) == (CosmosClient { client_id: Some(client_id), ..*old(self) }),
    {
        self.client_id = Some(client_id);
    }

    /// The connection of the chain.
    pub fn connection_id(&self) -> (id: ConnectionId)
        requires
            self.connection_id is Some,
        ensures
            self.connection_id == Some(id),
    {
        match &self.connection_id {
            Some(id) => id.clone(),
            None => vstd::pervasive::unreached(),
        }
    }

    /// The prefix of the chain's keys.
    pub fn connection_prefix(&self) -> (prefix: Vec<u8>)
        ensures
            prefix@ == self.commitment_prefix@,
    {
        self.commitment_prefix.clone()
    }

    /// The channels cleared for packet relay.
    pub fn channel_whitelist(&self) -> (channels: Vec<(ChannelId, PortId)>)
        ensures
            channels@ == self.channel_whitelist@,
    {
        let mut channels: Vec<(ChannelId, PortId)> = Vec::new();
        let mut i: usize = 0;
        while i < self.channel_whitelist.len()
            invariant
                i <= self.channel_whitelist.len(),
                channels@ == self.channel_whitelist@.take(i as int),
            decreases self.channel_whitelist.len() - i,
        {
            let (channel, port) = &self.channel_whitelist[i];
            channels.push((channel.clone(), port.clone()));
            assert(channels@ =~= self.channel_whitelist@.take(i + 1));
            i += 1;
        }
        assert(self.channel_whitelist@.take(i as int) =~= self.channel_whitelist@);
        channels
    }

    /// Sets the channels cleared for packet relay.
    pub fn set_channel_whitelist(&mut self, channel_whitelist: Vec<(ChannelId, PortId)>)
        ensures
            *final(self) == (CosmosClient { channel_whitelist, ..*old(self) }),
    {
        self.channel_whitelist = channel_whitelist;
    }
}

impl Clone for CosmosClient {
    fn clone(&self) -> (copy: Self)
        ensures
            copy.name == self.name,
            copy.rpc_url == self.rpc_url,
            copy.grpc_url == self.grpc_url,
            copy.websocket_url == self.websocket_url,
            copy.chain_id == self.chain_id,
            copy.client_id == self.client_id,
            copy.connection_id == self.connection_id,
            copy.account == self.account,
            copy.account_prefix == self.account_prefix,
            copy.commitment_prefix@ == self.commitment_prefix@,
            copy.channel_whitelist@ == self.channel_whitelist@,
    {
        CosmosClient {
            name: self.name.clone(),
            rpc_url: self.rpc_url.clone(),
            grpc_url: self.grpc_url.clone(),
            websocket_url: self.websocket_url.clone(),
            chain_id: self.chain_id.clone(),
            client_id: match &self.client_id {
                Some(id) => Some(id.clone()),
                None => None,
            },
            connection_id: match &self.connection_id {
                Some(id) => Some(id.clone()),
                None => None,
            },
            account: self.account.clone(),
            account_prefix: self.account_prefix.clone(),
            commitment_prefix: self.commitment_prefix.clone(),
            channel_whitelist: self.channel_whitelist(),
        }
    }
}

/// A validator of a chain.
#[derive(Debug)]
pub struct Validator {
    pub address: Vec<u8>,
    pub pub_key: Vec<u8>,
    pub power: u64,
    pub name: Option<String>,
    pub proposer_priority: i64,
}

/// What a validator is.
#[verifier::ext_equal]
pub struct ValidatorView {
    pub address: Seq<u8>,
    pub pub_key: Seq<u8>,
    pub power: u64,
    pub name: Option<Seq<char>>,
    pub proposer_priority: i64,
}

impl View for Validator {
    type V = ValidatorView;

    open spec fn view(&self) -> ValidatorView {
        ValidatorView {
            address: self.address@,
            pub_key: self.pub_key@,
            power: self.power,
            name: match self.name {
                Some(name) => Some(name@),
                None => None,
            },
            proposer_priority: self.proposer_priority,
        }
    }
}

/// The validators of a chain, with the value that they were read from.
#[derive(Debug)]
pub struct ValidatorSet<P> {
    pub payload: P,
    pub validators: Vec<Validator>,
    pub proposer: Option<Validator>,
    pub total_voting_power: u64,
}

/// What a set of validators is.
#[verifier::ext_equal]
pub struct ValidatorSetView {
    pub validators: Seq<ValidatorView>,
    pub proposer: Option<ValidatorView>,
    pub total_voting_power: u64,
}

impl<P> View for ValidatorSet<P> {
    type V = ValidatorSetView;

    open spec fn view(&self) -> ValidatorSetView {
        ValidatorSetView {
            validators: self.validators@.map_values(|validator: Validator| validator@),
            proposer: match self.proposer {
                Some(validator) => Some(validator@),
                None => None,
            },
            total_voting_power: self.total_voting_power,
        }
    }
}

fn same_bytes(a: &Vec<u8>, b: &Vec<u8>) -> (same: bool)
    ensures
        same == (a@ == b@),
{
    if a.len() != b.len() {
        return false;
    }
    let mut i: usize = 0;
    while i < a.len()
        invariant
            i <= a.len(),
            a.len() == b.len(),
            forall|j: int| 0 <= j < i ==> a@[j] == b@[j],
        decreases a.len() - i,
    {
        if a[i] != b[i] {
            return false;
        }
        i += 1;
    }
    assert(a@ =~= b@);
    true
}

impl Validator {
    /// Whether two validators are the same.
    pub fn same(&self, other: &Validator) -> (same: bool)
        ensures
            same == (self@ == other@),
    {
        let same_name: bool = match (&self.name, &other.name) {
            (Some(a), Some(b)) => *a == *b,
            (None, None) => true,
            _ => false,
        };
        let same: bool = same_bytes(&self.address, &other.address) && same_bytes(
            &self.pub_key,
            &other.pub_key,
        ) && self.power == other.power && same_name && self.proposer_priority
            == other.proposer_priority;
        assert(same ==> self@ =~= other@);
        same
    }
}

impl<P> ValidatorSet<P> {
    /// Whether two sets of validators are the same.
    pub fn same(&self, other: &ValidatorSet<P>) -> (same: bool)
        ensures
            same == (self@ == other@),
    {
        let same_proposer: bool = match (&self.proposer, &other.proposer) {
            (Some(a), Some(b)) => a.same(b),
            (None, None) => true,
            _ => false,
        };
        assert(self@.validators.len() == self.validators@.len());
        assert(other@.validators.len() == other.validators@.len());
        if !same_proposer || self.total_voting_power != other.total_voting_power
            || self.validators.len() != other.validators.len() {
            return false;
        }
        let mut i: usize = 0;
        while i < self.validators.len()
            invariant
                i <= self.validators.len(),
                self.validators.len() == other.validators.len(),
                forall|j: int| 0 <= j < i ==> self@.validators[j] == other@.validators[j],
            decreases self.validators.len() - i,
        {
            let same: bool = self.validators[i].same(&other.validators[i]);
            assert(self@.validators[i as int] == self.validators@[i as int]@);
            assert(other@.validators[i as int] == other.validators@[i as int]@);
            if !same {
                return false;
            }
            i += 1;
        }
        assert(self@.validators =~= other@.validators);
        true
    }
}

/// A block of a chain, as a light client sees it.
#[derive(Debug)]
pub struct LightBlock<S, P> {
    pub signed_header: S,
    pub validators: ValidatorSet<P>,
    pub next_validators: ValidatorSet<P>,
}

/// What a light client is updated with.
#[derive(Debug)]
pub struct Header<S, P> {
    pub signed_header: S,
    pub validator_set: ValidatorSet<P>,
    pub trusted_height: Height,
    pub trusted_validator_set: ValidatorSet<P>,
}

/// A query to the application of a chain.
#[derive(Debug)]
pub struct AbciRequest {
    pub path: String,
    pub data: Vec<u8>,
    /// The block as of which the query is answered; the latest one where there is none.
    pub height: Option<u64>,
    pub prove: bool,
}

/// The answer of the application of a chain.
#[derive(Debug)]
pub struct AbciAnswer {
    /// Zero where the query succeeded.
    pub code: u32,
    pub value: Vec<u8>,
    pub proof: Option<Vec<ProofOp>>,
}

/// Whether the proof in an answer, if there is one, is made of commitment proofs.
pub open spec fn proof_is_readable(answer: AbciAnswer) -> bool {
    answer.code == 0 && answer.proof is Some ==> merkle_proof_bytes(
        proof_data(answer.proof->0@),
    ) is Some
}

/// The encoding of the proof in an answer.
pub open spec fn answer_proof(answer: AbciAnswer) -> Seq<u8> {
    merkle_proof_bytes(proof_data(answer.proof->0@))->0
}

/// A value and the encoding of its proof. An empty proof is refused.
pub fn proved_value(value: Vec<u8>, proof: Vec<u8>) -> (result: Result<(Vec<u8>, Vec<u8>), Error>)
    ensures
        result is Ok <==> proof@.len() > 0,
        result is Ok ==> result->Ok_0 == (value, proof),
        result is Err ==> result->Err_0 == Error::EmptyProof,
{
    if proof.len() == 0 {
        Err(Error::EmptyProof)
    } else {
        Ok((value, proof))
    }
}

impl AbciAnswer {
    /// The value in the answer, and the encoding of its proof. A failed query is refused, and so
    /// are a missing and an empty proof.
    pub fn into_proof(self) -> (result: Result<(Vec<u8>, Vec<u8>), Error>)
        requires
            proof_is_readable(self),
        ensures
            result is Err && result->Err_0 == Error::QueryFailed <==> self.code != 0,
            result is Err && result->Err_0 == Error::ProofMissing <==> self.code == 0
                && self.proof is None,
            result is Err && result->Err_0 == Error::EmptyProof <==> self.code == 0 && self.proof
                is Some && answer_proof(self).len() == 0,
            result is Ok <==> self.code == 0 && self.proof is Some && answer_proof(self).len() > 0,
            result is Ok ==> {
                let (value, proof) = result->Ok_0;
                value == self.value && proof@ == answer_proof(self)
            },
    {
        if self.code != 0 {
            return Err(Error::QueryFailed);
        }
        match self.proof {
            None => Err(Error::ProofMissing),
            Some(ops) => match merkle_proof(&ops) {
                None => vstd::pervasive::unreached(),
                Some(bytes) => proved_value(self.value, bytes),
            },
        }
    }

    /// As [`AbciAnswer::into_proof`], where the proof is made of commitment proofs.
    pub fn try_into_proof(self) -> (result: Option<Result<(Vec<u8>, Vec<u8>), Error>>)
        ensures
            result is Some <==> proof_is_readable(self),
            result is Some && result->0 is Ok <==> proof_is_readable(self) && self.code == 0
                && self.proof is Some && answer_proof(self).len() > 0,
            result is Some && result->0 is Ok ==> {
                let (value, proof) = result->0->Ok_0;
                value == self.value && proof@ == answer_proof(self)
            },
            result is Some && result->0 is Err ==> result->0->Err_0 == (if self.code != 0 {
                Error::QueryFailed
            } else if self.proof is None {
                Error::ProofMissing
            } else {
                Error::EmptyProof
            }),
    {
        let readable: bool = self.code != 0 || match &self.proof {
            None => true,
            Some(ops) => merkle_proof(ops).is_some(),
        };
        if readable {
            Some(self.into_proof())
        } else {
            None
        }
    }
}

/// A path of a chain's store.
#[derive(Debug)]
pub struct StorePath {
    pub text: String,
    /// Whether what is stored under the path can be proved.
    pub provable: bool,
}

impl CosmosClient {
    /// The block that is to be fetched besides the latest one for the update of a client that
    /// trusts a height.
    pub fn trusted_block(&self, trusted_height: &Height) -> (block: Result<u64, Error>)
        ensures
            block is Ok <==> trusted_height@.revision_height <= MAX_BLOCK,
            block is Ok ==> block->Ok_0 == trusted_height@.revision_height,
            block is Err ==> block->Err_0 == Error::HeightOverflow,
    {
        tendermint_height(trusted_height.revision_height())
    }

    /// The header that takes a client from a height that it trusts to the latest block. The update
    /// may be left out exactly where the latest block does not change the validators.
    pub fn msg_update_client_header<S, P>(
        &self,
        latest: LightBlock<S, P>,
        trusted: LightBlock<S, P>,
        trusted_height: Height,
    ) -> (update: (Header<S, P>, UpdateType))
        ensures
            update.0.signed_header == latest.signed_header,
            update.0.validator_set == latest.validators,
            update.0.trusted_height == trusted_height,
            update.0.trusted_validator_set == trusted.validators,
            update.1 is Optional <==> latest.validators@ == latest.next_validators@,
    {
        let update_type = if latest.validators.same(&latest.next_validators) {
            UpdateType::Optional
        } else {
            UpdateType::Mandatory
        };
        (
            Header {
                signed_header: latest.signed_header,
                validator_set: latest.validators,
                trusted_height,
                trusted_validator_set: trusted.validators,
            },
            update_type,
        )
    }

    /// The query for the proof of what the chain keeps under a key, as of a height.
    pub fn query_tendermint_proof(&self, key: Vec<u8>, height: &Height) -> (request: Result<
        AbciRequest,
        Error,
    >)
        ensures
            request is Ok <==> height@.revision_height <= MAX_BLOCK,
            request is Err ==> request->Err_0 == Error::HeightOverflow,
            request is Ok ==> {
                &&& request->Ok_0.path@ == "store/ibc/key"@
                &&& request->Ok_0.data == key
                &&& request->Ok_0.height == Some(height@.revision_height)
                &&& request->Ok_0.prove
            },
    {
        match tendermint_height(height.revision_height()) {
            Err(error) => Err(error),
            Ok(block) => Ok(
                AbciRequest {
                    path: "store/ibc/key".to_string(),
                    data: key,
                    height: Some(block),
                    prove: true,
                },
            ),
        }
    }

    /// The account in a chain's answer to the query for it.
    pub fn query_account(&self, account: Option<Any>) -> (result: Result<BaseAccount, Error>)
        ensures
            account is None ==> result is Err && result->Err_0 == Error::AccountMissing,
            account is Some ==> {
                &&& result is Ok <==> base_account(account->0.value@) is Some
                &&& result is Ok ==> base_account(account->0.value@) == Some(result->Ok_0@)
                &&& result is Err ==> result->Err_0 == Error::AccountDecode
            },
    {
        match account {
            None => Err(Error::AccountMissing),
            Some(account) => match decode_base_account(&account.value) {
                None => Err(Error::AccountDecode),
                Some(account) => Ok(account),
            },
        }
    }

    /// The query for what a chain keeps under a path, as of a height, with a proof or without one.
    pub fn query(&self, data: StorePath, height_query: &Height, prove: bool) -> (request: Result<
        AbciRequest,
        Error,
    >)
        ensures
            request is Err && request->Err_0 == Error::HeightOverflow
                <==> height_query@.revision_height > MAX_BLOCK,
            request is Err && request->Err_0 == Error::NotProvable
                <==> height_query@.revision_height <= MAX_BLOCK && !data.provable && prove,
            request is Ok <==> height_query@.revision_height <= MAX_BLOCK && (data.provable
                || !prove),
            request is Ok ==> {
                &&& request->Ok_0.path@ == "store/ibc/key"@
                &&& request->Ok_0.data@ == encode_utf8(data.text@)
                &&& request->Ok_0.height == Some(height_query@.revision_height)
                &&& request->Ok_0.prove == prove
            },
    {
        let block: u64 = match tendermint_height(height_query.revision_height()) {
            Ok(block) => block,
            Err(error) => {
                return Err(error);
            },
        };
        if !data.provable && prove {
            return Err(Error::NotProvable);
        }
        Ok(
            AbciRequest {
                path: "store/ibc/key".to_string(),
                data: data.text.as_str().as_bytes_vec(),
                height: Some(block),
                prove,
            },
        )
    }
}

impl AbciAnswer {
    /// The answer, where the query succeeded.
    pub fn succeeded(self) -> (result: Result<AbciAnswer, Error>)
        ensures
            result is Ok <==> self.code == 0,
            result is Ok ==> result->Ok_0 == self,
            result is Err ==> result->Err_0 == Error::QueryFailed,
    {
        if self.code != 0 {
            Err(Error::QueryFailed)
        } else {
            Ok(self)
        }
    }
}

/// Two validators are the same exactly where their addresses, keys, powers, names and priorities
/// are.
pub proof fn law_validators_are_known_by_all_their_parts(a: Validator, b: Validator)
    ensures
        a@ == b@ <==> {
            &&& a.address@ == b.address@
            &&& a.pub_key@ == b.pub_key@
            &&& a.power == b.power
            &&& a.name is Some <==> b.name is Some
            &&& a.name is Some && b.name is Some ==> a.name->0@ == b.name->0@
            &&& a.proposer_priority == b.proposer_priority
        },
{
}

/// Two sets of validators are the same exactly where they have the same validators in the same
/// order, the same proposer and the same total power.
pub proof fn law_validator_sets_are_known_by_all_their_parts<P>(
    a: ValidatorSet<P>,
    b: ValidatorSet<P>,
)
    ensures
        a@ == b@ <==> {
            &&& a.validators@.len() == b.validators@.len()
            &&& forall|i: int|
                0 <= i < a.validators@.len() ==> (#[trigger] a.validators@[i])@
                    == b.validators@[i]@
            &&& a.proposer is Some <==> b.proposer is Some
            &&& a.proposer is Some && b.proposer is Some ==> a.proposer->0@ == b.proposer->0@
            &&& a.total_voting_power == b.total_voting_power
        },
{
    let view = |validator: Validator| validator@;
    if a@ == b@ {
        assert(a@.validators.len() == a.validators@.len());
        assert(b@.validators.len() == b.validators@.len());
        assert forall|i: int| 0 <= i < a.validators@.len() implies (#[trigger] a.validators@[i])@
            == b.validators@[i]@ by {
            assert(a@.validators[i] == a.validators@[i]@);
            assert(b@.validators[i] == b.validators@[i]@);
        }
    }
    if a.validators@.len() == b.validators@.len() && (forall|i: int|
        0 <= i < a.validators@.len() ==> (#[trigger] a.validators@[i])@ == b.validators@[i]@) {
        assert(a@.validators =~= b@.validators);
    }
}

/// The proof in an answer is read from the data of all its operations. It matters only where the
/// query succeeded and a proof came along.
pub proof fn law_proofs_are_read_from_all_operations(answer: AbciAnswer)
    requires
        answer.proof is Some,
    ensures
        ({
            let data = answer.proof->0@.map_values(|op: ProofOp| op.data@);
            &&& answer_proof(answer) == merkle_proof_bytes(data)->0
            &&& answer.code == 0 ==> (proof_is_readable(answer) <==> merkle_proof_bytes(data)
                is Some)
            &&& answer.code != 0 ==> proof_is_readable(answer)
        }),
{
}

} // verus!
