//! What the relayer asks a Cosmos chain for, and how it reads the answers.
use crate::cosmos::client::CosmosClient;
use crate::cosmos::events::IbcEvent;
use crate::cosmos::tx::{search_step, search_timed_out, SearchStep, SEARCH_BACKOFF_MILLIS};
use crate::error::Error;
use crate::ibc::any::{Any, AnyView};
use crate::ibc::decode::{consensus_state_time, readable_client_height};
use crate::ibc::height::{Height, RawHeight};
use crate::ibc::identifier::{
    is_channel_id, is_client_id, is_port_id, ChannelId, ClientId, ConnectionId, PortId,
};
use crate::ibc::path::{
    channel_end_path, channel_ends_text, client_state_path, client_state_text, connection_path,
    connections_text, consensus_state_path, consensus_state_text,
};
use crate::ibc::tendermint::{
    amount_text, chain_revision, chain_version, client_state_bytes, consensus_state_bytes,
    denomination_text, encode_client_state, encode_consensus_state, header_time, is_amount,
    is_denomination, tendermint_height, valid_header, BlockHeader, ClientParameters,
    ClientParametersView, MAX_BLOCK,
};
use crate::ibc::text::{decimal, decimal_value, law_digits_count_by_tens};
use crate::testsuite::create::ClientStates;
use vstd::prelude::*;
use vstd::utf8::encode_utf8;

verus! {

/// The finality of a block of a chain.
#[derive(Debug)]
pub enum FinalityEvent<Header> {
    /// A block that Tendermint has made final.
    Tendermint(Header),
}

impl<Header: Clone> Clone for FinalityEvent<Header> {
    fn clone(&self) -> (copy: Self)
        ensures
            cloned(self->Tendermint_0, copy->Tendermint_0),
    {
        match self {
            FinalityEvent::Tendermint(header) => FinalityEvent::Tendermint(header.clone()),
        }
    }
}

/// The identifier of a transaction.
#[derive(Debug)]
pub struct TransactionId<Hash> {
    pub hash: Hash,
}

impl<Hash: Clone> Clone for TransactionId<Hash> {
    fn clone(&self) -> (copy: Self)
        ensures
            cloned(self.hash, copy.hash),
    {
        TransactionId { hash: self.hash.clone() }
    }
}

/// A query for what a chain keeps under a key, as of a height.
#[derive(Debug)]
pub struct PathQuery {
    pub key: Vec<u8>,
    pub at: Height,
    pub prove: bool,
}

/// The query for the consensus state that a client keeps for a height.
#[derive(Debug)]
pub struct ConsensusStateQuery {
    pub client_id: String,
    pub revision_number: u64,
    pub revision_height: u64,
    pub latest_height: bool,
    /// The query for the proof.
    pub proof: PathQuery,
}

/// The query for the state of a client.
#[derive(Debug)]
pub struct ClientStateQuery {
    pub client_id: String,
    /// The query for the proof.
    pub proof: PathQuery,
}

/// The query for a connection end.
#[derive(Debug)]
pub struct ConnectionQuery {
    pub connection_id: String,
    /// The query for the proof.
    pub proof: PathQuery,
}

/// The query for a channel end.
#[derive(Debug)]
pub struct ChannelEndQuery {
    pub channel_id: String,
    pub port_id: String,
    /// The query for the proof.
    pub proof: PathQuery,
}

/// What a chain keeps, with a proof.
#[derive(Debug)]
pub struct Proved<T> {
    pub value: Option<T>,
    pub proof: Vec<u8>,
    pub proof_height: Option<RawHeight>,
}

impl<T> Proved<T> {
    /// Puts another proof in place of the one that came along.
    pub fn with_proof(self, proof: Vec<u8>) -> (proved: Proved<T>)
        ensures
            proved.value == self.value,
            proved.proof == proof,
            proved.proof_height == self.proof_height,
    {
        Proved { value: self.value, proof, proof_height: self.proof_height }
    }
}

/// A balance of an account: an amount of tokens of a denomination.
#[derive(Debug)]
pub struct Coin {
    pub denom: String,
    pub amount: String,
}

/// The denomination that balances are asked for.
pub open spec fn balance_denom() -> Seq<char> {
    "stake"@
}

/// A connection of a chain, with the value that it was read from.
#[derive(Debug)]
pub struct IdentifiedConnection<P> {
    pub payload: P,
    pub id: String,
    pub client_id: String,
}

/// The delivered transaction that a search found.
#[derive(Debug)]
pub struct DeliveredTx {
    /// Zero where the transaction succeeded.
    pub code: u32,
    /// What the transaction reported: the IBC events among it.
    pub events: Vec<Option<IbcEvent>>,
}

/// The clients that a transaction created.
pub open spec fn clients_created(events: Seq<Option<IbcEvent>>) -> Seq<ClientId>
    decreases events.len(),
{
    if events.len() == 0 {
        Seq::empty()
    } else {
        match events.last() {
            Some(IbcEvent::CreateClient { client_id }) => clients_created(events.drop_last()).push(
                client_id,
            ),
            _ => clients_created(events.drop_last()),
        }
    }
}

/// The search for the client that a transaction created, after one look for the transaction.
#[derive(Debug)]
pub enum CreatedClientStep {
    /// The relayer sleeps for some milliseconds and looks for the transaction again.
    Sleep { millis: u64 },
    /// The transaction was not found in time.
    TimedOut,
    /// The transaction failed.
    Failed { code: u32 },
    /// The transaction did not create exactly one client.
    WrongCount { found: usize },
    /// The client that was created.
    Created { client_id: ClientId },
}

fn collect_created_clients(events: &Vec<Option<IbcEvent>>) -> (clients: Vec<ClientId>)
    ensures
        clients@ == clients_created(events@),
{
    let mut clients: Vec<ClientId> = Vec::new();
    let mut i: usize = 0;
    assert(events@.take(0) =~= Seq::empty());
    while i < events.len()
        invariant
            i <= events.len(),
            clients@ == clients_created(events@.take(i as int)),
        decreases events.len() - i,
    {
        assert(events@.take(i + 1).drop_last() =~= events@.take(i as int));
        assert(events@.take(i + 1).last() == events@[i as int]);
        match &events[i] {
            Some(IbcEvent::CreateClient { client_id }) => {
                clients.push(client_id.clone());
            },
            _ => {},
        }
        i += 1;
    }
    assert(events@.take(i as int) =~= events@);
    clients
}

/// The client identifiers among some texts.
pub open spec fn client_ids(texts: Seq<String>) -> Seq<Seq<char>>
    decreases texts.len(),
{
    if texts.len() == 0 {
        Seq::empty()
    } else if is_client_id(texts.last()@) {
        client_ids(texts.drop_last()).push(texts.last()@)
    } else {
        client_ids(texts.drop_last())
    }
}

/// The pairs of a channel and a port identifier among some pairs of texts.
pub open spec fn channel_ids(texts: Seq<(String, String)>) -> Seq<(Seq<char>, Seq<char>)>
    decreases texts.len(),
{
    if texts.len() == 0 {
        Seq::empty()
    } else if is_channel_id(texts.last().0@) && is_port_id(texts.last().1@) {
        channel_ids(texts.drop_last()).push((texts.last().0@, texts.last().1@))
    } else {
        channel_ids(texts.drop_last())
    }
}

/// The connections among some that belong to a client.
pub open spec fn connections_of<P>(
    connections: Seq<IdentifiedConnection<P>>,
    client_id: Seq<char>,
) -> Seq<IdentifiedConnection<P>>
    decreases connections.len(),
{
    if connections.len() == 0 {
        Seq::empty()
    } else if connections.last().client_id@ == client_id {
        connections_of(connections.drop_last(), client_id).push(connections.last())
    } else {
        connections_of(connections.drop_last(), client_id)
    }
}

/// Whether a balance in an answer, if there is one, is an amount of a denomination.
pub open spec fn balance_is_readable(balance: Option<Coin>) -> bool {
    balance is Some ==> is_denomination(balance->0.denom@) && is_amount(balance->0.amount@)
}

/// The parameters of a new client of a chain.
pub open spec fn initial_parameters(
    chain_id: Seq<char>,
    latest_height: RawHeight,
) -> ClientParametersView {
    ClientParametersView {
        chain_id,
        trusting_period: 64000,
        unbonding_period: 128000,
        max_clock_drift: 15,
        latest_height,
        upgrade_path: seq!["upgrade"@, "upgradedIBCState"@],
        allow_after_expiry: true,
        allow_after_misbehaviour: true,
    }
}

/// What the status of a node says of the latest height and time of its chain, whose revision is
/// known.
pub open spec fn latest_of<T>(
    latest: Result<(Height, T), Error>,
    catching_up: bool,
    revision_number: u64,
    latest_block_height: u64,
    latest_block_time: T,
) -> bool {
    if catching_up {
        latest is Err && latest->Err_0 == Error::NodeSyncing
    } else if latest_block_height == 0 {
        latest is Err && latest->Err_0 == Error::ZeroHeight
    } else {
        latest is Ok && {
            let (height, time) = latest->Ok_0;
            height@ == (RawHeight { revision_number, revision_height: latest_block_height }) && time
                == latest_block_time
        }
    }
}

/// The latest height and time of a chain with a revision. A node that is still catching up is
/// refused.
pub fn latest_height<T>(
    catching_up: bool,
    revision_number: u64,
    latest_block_height: u64,
    latest_block_time: T,
) -> (latest: Result<(Height, T), Error>)
    ensures
        latest_of(
            latest,
            catching_up,
            revision_number,
            latest_block_height,
            latest_block_time,
        ),
{
    if catching_up {
        return Err(Error::NodeSyncing);
    }
    match Height::new(revision_number, latest_block_height) {
        Ok(height) => Ok((height, latest_block_time)),
        Err(error) => Err(error),
    }
}

/// A client of a chain that begins at a height. The block at that height is to be verified, from
/// that same height on.
#[derive(Debug)]
pub struct InitialClient {
    height: Height,
    client_state: Any,
}

/// What a client begins with.
#[verifier::ext_equal]
pub struct InitialClientView {
    /// The height of the block that is to be verified.
    pub height: RawHeight,
    /// The client's state.
    pub client_state: AnyView,
}

impl View for InitialClient {
    type V = InitialClientView;

    closed spec fn view(&self) -> InitialClientView {
        InitialClientView { height: self.height@, client_state: self.client_state@ }
    }
}

impl InitialClient {
    /// The height of the block that is to be verified, which is also the one that is trusted.
    pub fn height(&self) -> (height: Height)
        ensures
            height@ == self@.height,
    {
        self.height
    }

    /// The client's state.
    pub fn client_state(&self) -> (client_state: &Any)
        ensures
            client_state@ == self@.client_state,
    {
        &self.client_state
    }

    /// Takes in the header of the verified block. Its root, its time and the hash of its next
    /// validators make the consensus state. Reading that gives the time back.
    pub fn on_light_block(self, header: BlockHeader) -> (states: ClientStates)
        requires
            valid_header(header@),
        ensures
            states.client_state@ == self@.client_state,
            states.consensus_state.type_url@
                == "/ibc.lightclients.tendermint.v1.ConsensusState"@,
            states.consensus_state.value@ == consensus_state_bytes(header@),
            consensus_state_time(
                states.consensus_state.type_url@,
                states.consensus_state.value@,
            ) == Some(header_time(header@)),
    {
        match encode_consensus_state(header) {
            None => vstd::pervasive::unreached(),
            Some(value) => ClientStates {
                client_state: self.client_state,
                consensus_state: Any {
                    type_url: "/ibc.lightclients.tendermint.v1.ConsensusState".to_string(),
                    value,
                },
            },
        }
    }
}

impl CosmosClient {
    /// The query for the consensus state that a client keeps for a height, with a proof as of
    /// another.
    pub fn query_client_consensus(
        &self,
        at: Height,
        client_id: &ClientId,
        consensus_height: &Height,
    ) -> (query: ConsensusStateQuery)
        ensures
            query.client_id@ == client_id@,
            query.revision_number == consensus_height@.revision_number,
            query.revision_height == consensus_height@.revision_height,
            !query.latest_height,
            query.proof.at == at,
            query.proof.prove,
            query.proof.key@ == encode_utf8(
                consensus_state_path(
                    client_id@,
                    consensus_height@.revision_number,
                    consensus_height@.revision_height,
                ),
            ),
    {
        let path = consensus_state_text(client_id, consensus_height);
        ConsensusStateQuery {
            client_id: client_id.as_str().to_string(),
            revision_number: consensus_height.revision_number(),
            revision_height: consensus_height.revision_height(),
            latest_height: false,
            proof: PathQuery { key: path.as_str().as_bytes_vec(), at, prove: true },
        }
    }

    /// The query for the state of a client, with a proof as of a height.
    pub fn query_client_state(&self, at: Height, client_id: &ClientId) -> (query: ClientStateQuery)
        ensures
            query.client_id@ == client_id@,
            query.proof.at == at,
            query.proof.prove,
            query.proof.key@ == encode_utf8(client_state_path(client_id@)),
    {
        let path = client_state_text(client_id);
        ClientStateQuery {
            client_id: client_id.as_str().to_string(),
            proof: PathQuery { key: path.as_str().as_bytes_vec(), at, prove: true },
        }
    }

    /// The query for a connection end, with a proof as of a height.
    pub fn query_connection_end(&self, at: Height, connection_id: &ConnectionId) -> (query:
        ConnectionQuery)
        ensures
            query.connection_id@ == connection_id@,
            query.proof.at == at,
            query.proof.prove,
            query.proof.key@ == encode_utf8(connection_path(connection_id@)),
    {
        let path = connections_text(connection_id);
        ConnectionQuery {
            connection_id: connection_id.as_str().to_string(),
            proof: PathQuery { key: path.as_str().as_bytes_vec(), at, prove: true },
        }
    }

    /// The query for a channel end, with a proof as of a height.
    pub fn query_channel_end(&self, at: Height, channel_id: &ChannelId, port_id: &PortId) -> (query:
        ChannelEndQuery)
        ensures
            query.channel_id@ == channel_id@,
            query.port_id@ == port_id@,
            query.proof.at == at,
            query.proof.prove,
            query.proof.key@ == encode_utf8(channel_end_path(port_id@, channel_id@)),
    {
        let path = channel_ends_text(port_id, channel_id);
        ChannelEndQuery {
            channel_id: channel_id.as_str().to_string(),
            port_id: port_id.as_str().to_string(),
            proof: PathQuery { key: path.as_str().as_bytes_vec(), at, prove: true },
        }
    }

    /// The query for the proof of what the chain keeps under the first one of some keys.
    pub fn query_proof(&self, at: Height, keys: &Vec<Vec<u8>>) -> (query: PathQuery)
        requires
            keys@.len() > 0,
        ensures
            query.key@ == keys@[0]@,
            query.at == at,
            query.prove,
    {
        PathQuery { key: keys[0].clone(), at, prove: true }
    }

    /// The latest height and time of the chain, from the status of a node: the name of its
    /// network, its latest block and that block's time. A node that is still catching up is
    /// refused.
    pub fn latest_height_and_timestamp<T>(
        &self,
        catching_up: bool,
        network: &str,
        latest_block_height: u64,
        latest_block_time: T,
    ) -> (latest: Result<(Height, T), Error>)
        ensures
            latest_of(
                latest,
                catching_up,
                chain_revision(network@),
                latest_block_height,
                latest_block_time,
            ),
    {
        latest_height(
            catching_up,
            chain_version(network),
            latest_block_height,
            latest_block_time,
        )
    }

    /// The block whose time is asked for.
    pub fn query_timestamp_at(&self, block_number: u64) -> (block: Result<u64, Error>)
        ensures
            block is Ok <==> block_number <= MAX_BLOCK,
            block is Ok ==> block->Ok_0 == block_number,
            block is Err ==> block->Err_0 == Error::HeightOverflow,
    {
        tendermint_height(block_number)
    }

    /// The clients of the chain, from the identifiers in its answer. What is no client identifier
    /// is left out.
    pub fn query_clients(&self, ids: &Vec<String>) -> (clients: Vec<ClientId>)
        ensures
            clients@.map_values(|id: ClientId| id@) == client_ids(ids@),
    {
        let ghost texts = |id: ClientId| id@;
        let mut clients: Vec<ClientId> = Vec::new();
        let mut i: usize = 0;
        assert(ids@.take(0) =~= Seq::empty());
        assert(clients@.map_values(texts) =~= client_ids(ids@.take(0)));
        while i < ids.len()
            invariant
                i <= ids.len(),
                texts == |id: ClientId| id@,
                clients@.map_values(texts) == client_ids(ids@.take(i as int)),
            decreases ids.len() - i,
        {
            let ghost before = clients@;
            assert(ids@.take(i + 1).drop_last() =~= ids@.take(i as int));
            assert(ids@.take(i + 1).last() == ids@[i as int]);
            match ClientId::from_str(ids[i].as_str()) {
                Ok(id) => {
                    clients.push(id);
                    assert(clients@.map_values(texts) =~= before.map_values(texts).push(id@));
                },
                Err(_) => {},
            }
            i += 1;
        }
        assert(ids@.take(i as int) =~= ids@);
        clients
    }

    /// The channels of the chain, from the channel and port identifiers in its answer. What is no
    /// pair of a channel and a port identifier is left out.
    pub fn query_channels(&self, ids: &Vec<(String, String)>) -> (channels: Vec<
        (ChannelId, PortId),
    >)
        ensures
            channels@.map_values(|ids: (ChannelId, PortId)| (ids.0@, ids.1@)) == channel_ids(ids@),
    {
        let ghost texts = |ids: (ChannelId, PortId)| (ids.0@, ids.1@);
        let mut channels: Vec<(ChannelId, PortId)> = Vec::new();
        let mut i: usize = 0;
        assert(ids@.take(0) =~= Seq::empty());
        assert(channels@.map_values(texts) =~= channel_ids(ids@.take(0)));
        while i < ids.len()
            invariant
                i <= ids.len(),
                texts == |ids: (ChannelId, PortId)| (ids.0@, ids.1@),
                channels@.map_values(texts) == channel_ids(ids@.take(i as int)),
            decreases ids.len() - i,
        {
            let ghost before = channels@;
            assert(ids@.take(i + 1).drop_last() =~= ids@.take(i as int));
            assert(ids@.take(i + 1).last() == ids@[i as int]);
            let (channel, port) = &ids[i];
            match (ChannelId::from_str(channel.as_str()), PortId::from_str(port.as_str())) {
                (Ok(channel), Ok(port)) => {
                    channels.push((channel, port));
                    assert(channels@.map_values(texts) =~= before.map_values(texts).push(
                        (channel@, port@),
                    ));
                },
                _ => {},
            }
            i += 1;
        }
        assert(ids@.take(i as int) =~= ids@);
        channels
    }

    /// The connections of a client, from the connections in the chain's answer.
    pub fn query_connection_using_client<P>(
        &self,
        client_id: &String,
        connections: Vec<IdentifiedConnection<P>>,
    ) -> (found: Vec<IdentifiedConnection<P>>)
        ensures
            found@ == connections_of(connections@, client_id@),
    {
        let ghost all = connections@;
        let mut found: Vec<IdentifiedConnection<P>> = Vec::new();
        assert(all.take(0) =~= Seq::empty());
        for connection in iter: connections.into_iter()
            invariant
                iter.seq() == all,
                found@ == connections_of(all.take(iter.index()), client_id@),
        {
            proof {
                let i = iter.index();
                assert(all.take(i + 1).drop_last() =~= all.take(i));
                assert(all.take(i + 1).last() == all[i]);
            }
            if connection.client_id == *client_id {
                found.push(connection);
            }
        }
        assert(all.take(all.len() as int) =~= all);
        found
    }

    /// The denomination that balances are asked for.
    pub fn balance_denom(&self) -> (denom: String)
        ensures
            denom@ == balance_denom(),
    {
        "stake".to_string()
    }

    /// The balance in the chain's answer to the query for it: the amount without leading zeros. A
    /// missing balance is refused.
    pub fn query_ibc_balance(&self, balance: Option<Coin>) -> (balances: Result<Vec<Coin>, Error>)
        requires
            balance_is_readable(balance),
        ensures
            balances is Ok <==> balance is Some,
            balances is Err ==> balances->Err_0 == Error::BalanceMissing,
            balances is Ok ==> {
                &&& balances->Ok_0@.len() == 1
                &&& balances->Ok_0@[0].denom@ == balance->0.denom@
                &&& balances->Ok_0@[0].amount@ == decimal(decimal_value(balance->0.amount@))
            },
    {
        match balance {
            None => Err(Error::BalanceMissing),
            Some(coin) => {
                let denom = match denomination_text(coin.denom.as_str()) {
                    Some(denom) => denom,
                    None => vstd::pervasive::unreached(),
                };
                let amount = match amount_text(coin.amount.as_str()) {
                    Some(amount) => amount,
                    None => vstd::pervasive::unreached(),
                };
                let mut balances: Vec<Coin> = Vec::new();
                balances.push(Coin { denom, amount });
                Ok(balances)
            },
        }
    }

    /// As [`CosmosClient::query_ibc_balance`], where the balance is an amount of a denomination.
    pub fn try_query_ibc_balance(&self, balance: Option<Coin>) -> (balances: Option<
        Result<Vec<Coin>, Error>,
    >)
        ensures
            balances is Some <==> balance_is_readable(balance),
            balances is Some ==> {
                &&& balances->0 is Ok <==> balance is Some
                &&& balances->0 is Err ==> balances->0->Err_0 == Error::BalanceMissing
                &&& balances->0 is Ok ==> {
                    &&& balances->0->Ok_0@.len() == 1
                    &&& balances->0->Ok_0@[0].denom@ == balance->0.denom@
                    &&& balances->0->Ok_0@[0].amount@ == decimal(
                        decimal_value(balance->0.amount@),
                    )
                }
            },
    {
        let readable: bool = match &balance {
            None => true,
            Some(coin) => denomination_text(coin.denom.as_str()).is_some() && amount_text(
                coin.amount.as_str(),
            ).is_some(),
        };
        if readable {
            Some(self.query_ibc_balance(balance))
        } else {
            None
        }
    }

    /// The type of the chain's client.
    pub fn client_type(&self) -> (client_type: String)
        ensures
            client_type@ == "07-tendermint"@,
    {
        "07-tendermint".to_string()
    }

    /// The state with which a client of the chain begins at a height, the latest one of the chain.
    /// The block at that height is to be verified against it. Reading the state gives the height
    /// back.
    pub fn initialize_client_state(&self, latest_height: Height) -> (client: InitialClient)
        ensures
            client@.height == latest_height@,
            client@.client_state.type_url == "/ibc.lightclients.tendermint.v1.ClientState"@,
            client@.client_state.value == client_state_bytes(
                initial_parameters(self.chain_id@, latest_height@),
            ),
            readable_client_height(
                client@.client_state.type_url,
                client@.client_state.value,
            ) == Some(latest_height@),
    {
        let mut upgrade_path: Vec<String> = Vec::new();
        upgrade_path.push("upgrade".to_string());
        upgrade_path.push("upgradedIBCState".to_string());
        let parameters = ClientParameters {
            chain_id: self.chain_id.clone(),
            trusting_period: 64000,
            unbonding_period: 128000,
            max_clock_drift: 15,
            latest_height,
            upgrade_path,
            allow_after_expiry: true,
            allow_after_misbehaviour: true,
        };
        assert(parameters@ =~= initial_parameters(self.chain_id@, latest_height@)) by {
            assert(parameters@.upgrade_path =~= seq!["upgrade"@, "upgradedIBCState"@]);
        }
        match encode_client_state(parameters) {
            None => vstd::pervasive::unreached(),
            Some(value) => InitialClient {
                height: latest_height,
                client_state: Any {
                    type_url: "/ibc.lightclients.tendermint.v1.ClientState".to_string(),
                    value,
                },
            },
        }
    }

    /// One look for the transaction that is to have created a client, after some nanoseconds of
    /// looking: the client, where the transaction was found, succeeded and created exactly one.
    pub fn query_client_id_from_tx_hash(&self, found: Option<DeliveredTx>, elapsed: u128) -> (step:
        CreatedClientStep)
        ensures
            found is None ==> step == (if search_timed_out(elapsed) {
                CreatedClientStep::TimedOut
            } else {
                CreatedClientStep::Sleep { millis: SEARCH_BACKOFF_MILLIS }
            }),
            found is Some ==> ({
                let clients = clients_created(found->0.events@);
                step == (if found->0.code != 0 {
                    CreatedClientStep::Failed { code: found->0.code }
                } else if clients.len() != 1 {
                    CreatedClientStep::WrongCount { found: clients.len() as usize }
                } else {
                    CreatedClientStep::Created { client_id: clients[0] }
                })
            }),
    {
        match search_step(found, elapsed) {
            SearchStep::Sleep { millis } => CreatedClientStep::Sleep { millis },
            SearchStep::TimedOut => CreatedClientStep::TimedOut,
            SearchStep::Found(tx) => {
                if tx.code != 0 {
                    return CreatedClientStep::Failed { code: tx.code };
                }
                let clients = collect_created_clients(&tx.events);
                if clients.len() != 1 {
                    CreatedClientStep::WrongCount { found: clients.len() }
                } else {
                    CreatedClientStep::Created { client_id: clients[0].clone() }
                }
            },
        }
    }
}

/// The clients that a transaction created are those of its reports that say so, all of them and in
/// order.
pub proof fn law_created_clients_are_those_reported(events: Seq<Option<IbcEvent>>)
    ensures
        clients_created(events) == events.filter(
            |report: Option<IbcEvent>| report is Some && report->0 is CreateClient,
        ).map_values(|report: Option<IbcEvent>| report->0->client_id),
    decreases events.len(),
{
    let creates = |report: Option<IbcEvent>| report is Some && report->0 is CreateClient;
    let client = |report: Option<IbcEvent>| report->0->client_id;
    reveal(Seq::filter);
    if events.len() > 0 {
        let before = events.drop_last();
        law_created_clients_are_those_reported(before);
        assert(events.filter(creates).map_values(client) =~= if creates(events.last()) {
            before.filter(creates).map_values(client).push(client(events.last()))
        } else {
            before.filter(creates).map_values(client)
        });
    } else {
        assert(events.filter(creates).map_values(client) =~= Seq::empty());
    }
}

/// The clients of a chain are those of the texts in its answer that are client identifiers, all of
/// them and in order.
pub proof fn law_clients_are_the_valid_identifiers(texts: Seq<String>)
    ensures
        client_ids(texts) == texts.map_values(|text: String| text@).filter(
            |text: Seq<char>| is_client_id(text),
        ),
    decreases texts.len(),
{
    let chars = |text: String| text@;
    let valid = |text: Seq<char>| is_client_id(text);
    reveal(Seq::filter);
    if texts.len() > 0 {
        let before = texts.drop_last();
        law_clients_are_the_valid_identifiers(before);
        assert(texts.map_values(chars).drop_last() =~= before.map_values(chars));
        assert(texts.map_values(chars).last() == texts.last()@);
    } else {
        assert(texts.map_values(chars) =~= Seq::empty());
    }
}

/// The channels of a chain are those of the pairs in its answer whose texts are a channel and a port
/// identifier, all of them and in order.
pub proof fn law_channels_are_the_valid_pairs(texts: Seq<(String, String)>)
    ensures
        channel_ids(texts) == texts.map_values(|pair: (String, String)| (pair.0@, pair.1@)).filter(
            |pair: (Seq<char>, Seq<char>)| is_channel_id(pair.0) && is_port_id(pair.1),
        ),
    decreases texts.len(),
{
    let chars = |pair: (String, String)| (pair.0@, pair.1@);
    let valid = |pair: (Seq<char>, Seq<char>)| is_channel_id(pair.0) && is_port_id(pair.1);
    reveal(Seq::filter);
    if texts.len() > 0 {
        let before = texts.drop_last();
        law_channels_are_the_valid_pairs(before);
        assert(texts.map_values(chars).drop_last() =~= before.map_values(chars));
        assert(texts.map_values(chars).last() == (texts.last().0@, texts.last().1@));
    } else {
        assert(texts.map_values(chars) =~= Seq::empty());
    }
}

/// The connections of a client are those in the answer that name it, all of them and in order.
pub proof fn law_connections_are_those_of_the_client<P>(
    connections: Seq<IdentifiedConnection<P>>,
    client_id: Seq<char>,
)
    ensures
        connections_of(connections, client_id) == connections.filter(
            |connection: IdentifiedConnection<P>| connection.client_id@ == client_id,
        ),
    decreases connections.len(),
{
    reveal(Seq::filter);
    if connections.len() > 0 {
        law_connections_are_those_of_the_client(connections.drop_last(), client_id);
    } else {
        assert(connections =~= Seq::empty());
    }
}

/// A new client of a chain is one of that chain at that height, trusts for 64000 seconds out of the
/// 128000 for which validators are bound, allows for clocks that are 15 seconds apart and may be
/// updated after its expiry and after misbehaviour.
pub proof fn law_new_clients_have_fixed_parameters(chain_id: Seq<char>, latest_height: RawHeight)
    ensures
        ({
            let parameters = initial_parameters(chain_id, latest_height);
            &&& parameters.chain_id == chain_id
            &&& parameters.latest_height == latest_height
            &&& parameters.trusting_period == 64_000
            &&& parameters.unbonding_period == 128_000
            &&& parameters.max_clock_drift == 15
            &&& parameters.upgrade_path.len() == 2
            &&& parameters.upgrade_path[0] == "upgrade"@
            &&& parameters.upgrade_path[1] == "upgradedIBCState"@
            &&& parameters.allow_after_expiry
            &&& parameters.allow_after_misbehaviour
        }),
{
}

/// The latest height and time of a chain are the block and the time that a node reports, in the
/// chain's revision. A node that is catching up is refused, and so is a block with the number zero.
pub proof fn law_latest_height_is_the_reported_block<T>(
    latest: Result<(Height, T), Error>,
    catching_up: bool,
    revision_number: u64,
    latest_block_height: u64,
    latest_block_time: T,
)
    requires
        latest_of(latest, catching_up, revision_number, latest_block_height, latest_block_time),
    ensures
        latest is Ok <==> !catching_up && latest_block_height > 0,
        latest is Ok ==> {
            let (height, time) = latest->Ok_0;
            &&& height@.revision_number == revision_number
            &&& height@.revision_height == latest_block_height
            &&& time == latest_block_time
        },
        latest is Err ==> latest->Err_0 == (if catching_up {
            Error::NodeSyncing
        } else {
            Error::ZeroHeight
        }),
{
}

/// A balance in an answer is read where it is an amount of a denomination: where its amount is made
/// of digits alone and has no more than 256 bits.
pub proof fn law_readable_balances(balance: Coin)
    ensures
        balance_denom() == "stake"@,
        balance_is_readable(None),
        balance_is_readable(Some(balance)) <==> {
            &&& is_denomination(balance.denom@)
            &&& forall|i: int|
                0 <= i < balance.amount@.len() ==> #[trigger] balance.amount@[i] >= '0'
                    && balance.amount@[i] <= '9'
            &&& decimal_value(balance.amount@)
                < 0x1_0000_0000_0000_0000_0000_0000_0000_0000_0000_0000_0000_0000_0000_0000_0000_0000nat
        },
{
    if is_amount(balance.amount@) {
        assert forall|i: int| 0 <= i < balance.amount@.len() implies #[trigger] balance.amount@[i]
            >= '0' && balance.amount@[i] <= '9' by {
            law_digits_count_by_tens(Seq::empty(), balance.amount@[i]);
        }
    }
}

} // verus!
