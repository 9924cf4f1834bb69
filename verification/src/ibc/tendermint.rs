//! What Tendermint chains and their applications write down: chain identifiers, event queries,
//! proofs, accounts, balances and client states.
use crate::error::Error;
use crate::ibc::any::{Any, AnyView};
use crate::ibc::decode::{client_state_height, client_state_seconds, consensus_state_time};
use crate::ibc::height::{Height, RawHeight};
use crate::ibc::text::{decimal, decimal_value, is_digit, is_digits};
use std::str::FromStr;
use vstd::prelude::*;
use vstd::utf8::encode_utf8;

verus! {

/// The largest block number of a Tendermint chain.
pub const MAX_BLOCK: u64 = 0x7fff_ffff_ffff_ffff;

/// Takes a number as the number of a Tendermint block, which is a signed number of 64 bits.
pub fn tendermint_height(block: u64) -> (height: Result<u64, Error>)
    ensures
        height is Ok <==> block <= MAX_BLOCK,
        height is Ok ==> height->Ok_0 == block,
        height is Err ==> height->Err_0 == Error::HeightOverflow,
{
    if block <= MAX_BLOCK {
        Ok(block)
    } else {
        Err(Error::HeightOverflow)
    }
}

/// Whether the bytes of a chain identifier end, from the given place on, in a hyphen and a revision:
/// a number without leading zeros, behind a name of two bytes or more that does not end in a hyphen.
pub open spec fn revision_follows(bytes: Seq<u8>, i: int) -> bool {
    &&& 2 <= i < bytes.len() - 1
    &&& bytes[i - 1] != '-' as u8
    &&& bytes[i] == '-' as u8
    &&& is_digits(ascii_text(bytes.skip(i + 1)))
    &&& bytes[i + 1] != '0' as u8
}

/// Bytes as the characters with their numbers.
pub open spec fn ascii_text(bytes: Seq<u8>) -> Seq<char> {
    bytes.map_values(|byte: u8| byte as char)
}

/// The revision of the chain with an identifier: the one at its end, where there is one and it is a
/// number of 64 bits, and zero otherwise.
pub open spec fn chain_revision(chain_id: Seq<char>) -> u64 {
    let bytes = encode_utf8(chain_id);
    if exists|i: int| revision_follows(bytes, i) {
        let i = choose|i: int| revision_follows(bytes, i);
        let revision = decimal_value(ascii_text(bytes.skip(i + 1)));
        if revision <= u64::MAX {
            revision as u64
        } else {
            0
        }
    } else {
        0
    }
}

/// Where a revision follows in a chain identifier, it is the chain's revision, or zero where it is
/// too large.
pub proof fn law_revision_is_at_the_end(chain_id: Seq<char>, i: int)
    requires
        revision_follows(encode_utf8(chain_id), i),
    ensures
        ({
            let revision = decimal_value(ascii_text(encode_utf8(chain_id).skip(i + 1)));
            chain_revision(chain_id) as nat == if revision <= u64::MAX {
                revision
            } else {
                0
            }
        }),
{
    let bytes = encode_utf8(chain_id);
    let k = choose|k: int| revision_follows(bytes, k);
    if i < k {
        assert(ascii_text(bytes.skip(i + 1))[k - i - 1] == '-');
    } else if k < i {
        assert(ascii_text(bytes.skip(k + 1))[i - k - 1] == '-');
    }
}

/// `ChainId::chain_version` of `ibc_relayer_types`: the revision at the end of the identifier, where
/// that is there and is a number of 64 bits, and zero otherwise.
#[verifier::external_body]
pub(crate) fn chain_version(chain_id: &str) -> (version: u64)
    ensures
        version == chain_revision(chain_id@),
{
    ibc_relayer_types::core::ics24_host::identifier::ChainId::chain_version(chain_id)
}

/// A text with a backslash before each quote and each backslash.
pub open spec fn escaped(s: Seq<char>) -> Seq<char>
    decreases s.len(),
{
    if s.len() == 0 {
        Seq::empty()
    } else if s.last() == '\\' || s.last() == '\'' {
        escaped(s.drop_last()).push('\\').push(s.last())
    } else {
        escaped(s.drop_last()).push(s.last())
    }
}

/// The text of the query for events with a value under a key.
pub open spec fn equality_query(key: Seq<char>, value: Seq<char>) -> Seq<char> {
    key + " = '"@ + escaped(value) + "'"@
}

/// A text without quotes and backslashes is its own escaped text.
pub proof fn lemma_plain_text_is_not_escaped(s: Seq<char>)
    requires
        forall|i: int| 0 <= i < s.len() ==> #[trigger] s[i] != '\\' && s[i] != '\'',
    ensures
        escaped(s) == s,
    decreases s.len(),
{
    if s.len() > 0 {
        lemma_plain_text_is_not_escaped(s.drop_last());
        assert(escaped(s) =~= s);
    } else {
        assert(escaped(s) =~= s);
    }
}

/// `Query::eq` of `tendermint_rpc`, on a text, and the text of the query.
#[verifier::external_body]
pub(crate) fn equality_query_text(key: &str, value: &str) -> (text: String)
    ensures
        text@ == equality_query(key@, value@),
{
    tendermint_rpc::query::Query::eq(key, value).to_string()
}

/// `Query::from` of `tendermint_rpc`, on the event type of new blocks, and the text of the query.
#[verifier::external_body]
pub(crate) fn new_block_query_text() -> (text: String)
    ensures
        text@ == "tm.event = 'NewBlock'"@,
{
    tendermint_rpc::query::Query::from(tendermint_rpc::query::EventType::NewBlock).to_string()
}

/// One operation of a Tendermint proof.
#[derive(Debug)]
pub struct ProofOp {
    pub field_type: String,
    pub key: Vec<u8>,
    pub data: Vec<u8>,
}

/// The data of the operations of a proof.
pub open spec fn proof_data(ops: Seq<ProofOp>) -> Seq<Seq<u8>> {
    ops.map_values(|op: ProofOp| op.data@)
}

/// The encoding of the Merkle proof that a Tendermint proof with the given data stands for; none
/// where the data are not commitment proofs.
pub uninterp spec fn merkle_proof_bytes(data: Seq<Seq<u8>>) -> Option<Seq<u8>>;

/// `convert_tm_to_ics_merkle_proof` of `ibc_relayer_types`, and the protobuf encoding of its
/// result: the encoding is determined by the data of the operations. A proof without operations
/// has an empty encoding.
#[verifier::external_body]
pub(crate) fn merkle_proof(ops: &Vec<ProofOp>) -> (bytes: Option<Vec<u8>>)
    ensures
        bytes is Some <==> merkle_proof_bytes(proof_data(ops@)) is Some,
        bytes is Some ==> merkle_proof_bytes(proof_data(ops@)) == Some(bytes->0@),
        ops@.len() == 0 ==> bytes is Some && bytes->0@.len() == 0,
{
    let ops = ops.iter().map(|op| tendermint::merkle::proof::ProofOp {
        field_type: op.field_type.clone(),
        key: op.key.clone(),
        data: op.data.clone(),
    });
    let proof = tendermint::merkle::proof::Proof { ops: ops.collect() };
    let proof = ibc_relayer_types::core::ics23_commitment::merkle::convert_tm_to_ics_merkle_proof(
        &proof,
    ).ok()?;
    let proof = ibc_proto::ibc::core::commitment::v1::MerkleProof::from(proof);
    Some(prost::Message::encode_to_vec(&proof))
}

/// An account of a chain.
#[derive(Debug)]
pub struct BaseAccount {
    pub address: String,
    pub pub_key: Option<Any>,
    pub account_number: u64,
    pub sequence: u64,
}

/// What an account holds.
#[verifier::ext_equal]
pub struct BaseAccountView {
    pub address: Seq<char>,
    pub pub_key: Option<AnyView>,
    pub account_number: u64,
    pub sequence: u64,
}

impl View for BaseAccount {
    type V = BaseAccountView;

    open spec fn view(&self) -> BaseAccountView {
        BaseAccountView {
            address: self.address@,
            pub_key: match self.pub_key {
                Some(key) => Some(key@),
                None => None,
            },
            account_number: self.account_number,
            sequence: self.sequence,
        }
    }
}

/// The account with an encoding; none where the bytes are not the encoding of an account.
pub uninterp spec fn base_account(bytes: Seq<u8>) -> Option<BaseAccountView>;

/// `prost`'s `decode` for `ibc_proto`'s `BaseAccount`: the account is determined by the bytes.
#[verifier::external_body]
pub(crate) fn decode_base_account(bytes: &Vec<u8>) -> (account: Option<BaseAccount>)
    ensures
        account is Some <==> base_account(bytes@) is Some,
        account is Some ==> base_account(bytes@) == Some(account->0@),
{
    let account: ibc_proto::cosmos::auth::v1beta1::BaseAccount = prost::Message::decode(
        bytes.as_slice(),
    ).ok()?;
    let pub_key = account.pub_key.map(|key| Any { type_url: key.type_url, value: key.value });
    Some(BaseAccount {
        address: account.address,
        pub_key,
        account_number: account.account_number,
        sequence: account.sequence,
    })
}

/// The number 2 to the power of 256.
pub open spec fn amount_limit() -> nat {
    0x1_0000_0000_0000_0000_0000_0000_0000_0000_0000_0000_0000_0000_0000_0000_0000_0000nat
}

/// Whether a text is an amount of tokens: digits only, and of fewer than 257 bits. A text without
/// digits is the amount zero.
pub open spec fn is_amount(s: Seq<char>) -> bool {
    (forall|i: int| 0 <= i < s.len() ==> is_digit(#[trigger] s[i])) && decimal_value(s)
        < amount_limit()
}

/// `Amount::from_str` of `ibc_relayer_types`, and the text of the amount: the number without
/// leading zeros.
#[verifier::external_body]
pub(crate) fn amount_text(s: &str) -> (text: Option<String>)
    ensures
        text is Some <==> is_amount(s@),
        text is Some ==> text->0@ == decimal(decimal_value(s@)),
{
    let amount = ibc_relayer_types::applications::transfer::Amount::from_str(s).ok()?;
    Some(amount.to_string())
}

/// The texts that are denominations of tokens.
pub uninterp spec fn is_denomination(s: Seq<char>) -> bool;

/// `PrefixedDenom::from_str` of `ibc_relayer_types`, and the text of the denomination, which is
/// the one it was read from.
#[verifier::external_body]
pub(crate) fn denomination_text(s: &str) -> (text: Option<String>)
    ensures
        text is Some <==> is_denomination(s@),
        text is Some ==> text->0@ == s@,
{
    let denom = ibc_relayer_types::applications::transfer::PrefixedDenom::from_str(s).ok()?;
    Some(denom.to_string())
}

/// What a new client of a chain is told, besides the default trust level and proof formats.
#[derive(Debug)]
pub struct ClientParameters {
    pub chain_id: String,
    /// Periods in seconds.
    pub trusting_period: u64,
    pub unbonding_period: u64,
    pub max_clock_drift: u64,
    pub latest_height: Height,
    pub upgrade_path: Vec<String>,
    pub allow_after_expiry: bool,
    pub allow_after_misbehaviour: bool,
}

/// What client parameters hold.
#[verifier::ext_equal]
pub struct ClientParametersView {
    pub chain_id: Seq<char>,
    pub trusting_period: u64,
    pub unbonding_period: u64,
    pub max_clock_drift: u64,
    pub latest_height: RawHeight,
    pub upgrade_path: Seq<Seq<char>>,
    pub allow_after_expiry: bool,
    pub allow_after_misbehaviour: bool,
}

impl View for ClientParameters {
    type V = ClientParametersView;

    open spec fn view(&self) -> ClientParametersView {
        ClientParametersView {
            chain_id: self.chain_id@,
            trusting_period: self.trusting_period,
            unbonding_period: self.unbonding_period,
            max_clock_drift: self.max_clock_drift,
            latest_height: self.latest_height@,
            upgrade_path: self.upgrade_path@.map_values(|part: String| part@),
            allow_after_expiry: self.allow_after_expiry,
            allow_after_misbehaviour: self.allow_after_misbehaviour,
        }
    }
}

/// Whether a client can have the given parameters: it trusts for some time, and for less time than
/// validators are bound.
pub open spec fn valid_client(parameters: ClientParametersView) -> bool {
    0 < parameters.trusting_period < parameters.unbonding_period
}

/// The protobuf encoding of the client state with the given parameters.
pub uninterp spec fn client_state_bytes(parameters: ClientParametersView) -> Seq<u8>;

/// `ClientState::new` of `ibc_relayer_types`, with the crate's default trust level and proof
/// specifications, and the encoding of the state: it is determined by the parameters, and refused
/// where a client cannot have them. For periods of at most 32 bits, reading the encoding gives the
/// periods and the latest height back.
#[verifier::external_body]
pub(crate) fn encode_client_state(p: ClientParameters) -> (bytes: Option<Vec<u8>>)
    ensures
        bytes is Some <==> valid_client(p@),
        bytes is Some ==> bytes->0@ == client_state_bytes(p@),
        bytes is Some && p.trusting_period <= u32::MAX && p.unbonding_period <= u32::MAX
            && p.max_clock_drift <= u32::MAX ==> client_state_height(
            "/ibc.lightclients.tendermint.v1.ClientState"@,
            bytes->0@,
        ) == Some(p.latest_height@),
        bytes is Some && p.trusting_period <= u32::MAX && p.unbonding_period <= u32::MAX
            && p.max_clock_drift <= u32::MAX ==> client_state_seconds(bytes->0@) == Some(
            (
                Some(p.trusting_period as i64),
                Some(p.unbonding_period as i64),
                Some(p.max_clock_drift as i64),
            ),
        ),
{
    let height = ibc_relayer_types::Height::new(p.latest_height.revision_number(), p.latest_height.revision_height());
    let state = ibc_relayer_types::clients::ics07_tendermint::client_state::ClientState::new(
        ibc_relayer_types::core::ics24_host::identifier::ChainId::from(p.chain_id), Default::default(),
        std::time::Duration::from_secs(p.trusting_period), std::time::Duration::from_secs(p.unbonding_period),
        std::time::Duration::from_secs(p.max_clock_drift), height.ok()?, Default::default(), p.upgrade_path,
        ibc_relayer_types::clients::ics07_tendermint::client_state::AllowUpdate {
            after_expiry: p.allow_after_expiry, after_misbehaviour: p.allow_after_misbehaviour });
    Some(ibc_proto::google::protobuf::Any::from(state.ok()?).value)
}

/// What a client is told of a block that it begins with.
#[derive(Debug)]
pub struct BlockHeader {
    /// The root of the chain's state after the block before.
    pub app_hash: Vec<u8>,
    /// The time of the block: the seconds since the Unix epoch and the nanoseconds beyond them.
    pub seconds: i64,
    pub nanoseconds: u32,
    /// The hash of the validators of the next block; empty where there is none.
    pub next_validators_hash: Vec<u8>,
}

/// What a client is told of a block.
#[verifier::ext_equal]
pub struct BlockHeaderView {
    pub app_hash: Seq<u8>,
    pub seconds: i64,
    pub nanoseconds: u32,
    pub next_validators_hash: Seq<u8>,
}

impl View for BlockHeader {
    type V = BlockHeaderView;

    open spec fn view(&self) -> BlockHeaderView {
        BlockHeaderView {
            app_hash: self.app_hash@,
            seconds: self.seconds,
            nanoseconds: self.nanoseconds,
            next_validators_hash: self.next_validators_hash@,
        }
    }
}

/// The first second of the year 1.
pub const FIRST_SECOND: i64 = -62_135_596_800;

/// The last second of the year 9999.
pub const LAST_SECOND: i64 = 253_402_300_799;

/// Whether a block can have a header: its time lies in the years 1 to 9999, and the hash is one of
/// SHA-256 or empty.
pub open spec fn valid_header(header: BlockHeaderView) -> bool {
    &&& FIRST_SECOND <= header.seconds <= LAST_SECOND
    &&& header.nanoseconds < 1_000_000_000
    &&& header.next_validators_hash.len() == 0 || header.next_validators_hash.len() == 32
}

/// The time of a block in nanoseconds since the Unix epoch; none where it lies before the epoch.
pub open spec fn header_time(header: BlockHeaderView) -> Option<u128> {
    if header.seconds >= 0 {
        Some((header.seconds * 1_000_000_000 + header.nanoseconds) as u128)
    } else {
        None
    }
}

/// The protobuf encoding of the consensus state that a header stands for.
pub uninterp spec fn consensus_state_bytes(header: BlockHeaderView) -> Seq<u8>;

/// `ConsensusState::new` of `ibc_relayer_types`, on a time made by `Time::from_unix_timestamp` and
/// a hash made by `Hash::from_bytes` of `tendermint`, and the encoding of the state: it is
/// determined by the header, and refused where a block cannot have it. Reading the encoding gives
/// the time back.
#[verifier::external_body]
pub(crate) fn encode_consensus_state(header: BlockHeader) -> (bytes: Option<Vec<u8>>)
    ensures
        bytes is Some <==> valid_header(header@),
        bytes is Some ==> bytes->0@ == consensus_state_bytes(header@),
        bytes is Some ==> consensus_state_time(
            "/ibc.lightclients.tendermint.v1.ConsensusState"@,
            bytes->0@,
        ) == Some(header_time(header@)),
{
    let time = tendermint::Time::from_unix_timestamp(header.seconds, header.nanoseconds).ok()?;
    let hash = tendermint::Hash::from_bytes(
        tendermint::hash::Algorithm::Sha256,
        &header.next_validators_hash,
    ).ok()?;
    let state = ibc_relayer_types::clients::ics07_tendermint::consensus_state::ConsensusState::new(
        header.app_hash.into(),
        time,
        hash,
    );
    Some(ibc_proto::google::protobuf::Any::from(state).value)
}

/// The data of the operations of a proof keep their number and their order.
pub proof fn law_proof_data_keep_their_order(ops: Seq<ProofOp>)
    ensures
        proof_data(ops).len() == ops.len(),
        forall|i: int| 0 <= i < ops.len() ==> #[trigger] proof_data(ops)[i] == ops[i].data@,
{
}

/// Escaping goes character by character: quotes and backslashes get a backslash before them, and
/// every other character stays as it is.
pub proof fn law_escaping_goes_by_characters(a: Seq<char>, b: Seq<char>, c: char)
    ensures
        escaped(a + b) == escaped(a) + escaped(b),
        escaped(Seq::empty()) == Seq::<char>::empty(),
        c == '\\' || c == '\'' ==> escaped(seq![c]) == seq!['\\', c],
        c != '\\' && c != '\'' ==> escaped(seq![c]) == seq![c],
    decreases b.len(),
{
    assert(seq![c].drop_last() =~= Seq::empty());
    assert(escaped(seq![c].drop_last()) =~= Seq::<char>::empty());
    assert(escaped(seq![c]) =~= if c == '\\' || c == '\'' {
        seq!['\\', c]
    } else {
        seq![c]
    });
    if b.len() == 0 {
        assert(a + b =~= a);
        assert(escaped(a) + escaped(b) =~= escaped(a));
    } else {
        law_escaping_goes_by_characters(a, b.drop_last(), c);
        assert((a + b).drop_last() =~= a + b.drop_last());
        assert(escaped(a + b) =~= escaped(a) + escaped(b));
    }
}

/// The query for a value without quotes and backslashes is the key, an equals sign and the value in
/// quotes.
pub proof fn law_query_holds_key_and_value(key: Seq<char>, value: Seq<char>)
    requires
        forall|i: int| 0 <= i < value.len() ==> #[trigger] value[i] != '\\' && value[i] != '\'',
    ensures
        equality_query(key, value) == key + " = '"@ + value + "'"@,
{
    lemma_plain_text_is_not_escaped(value);
}

/// The time of a block is its seconds and its nanoseconds together, where it is not before the Unix
/// epoch.
pub proof fn law_header_time_is_its_seconds_and_nanoseconds(header: BlockHeaderView)
    ensures
        header_time(header) is None <==> header.seconds < 0,
        header.seconds >= 0 ==> header_time(header)->0 == header.seconds * 1_000_000_000
            + header.nanoseconds,
{
}

/// The blocks of a Tendermint chain are numbered with signed numbers of 64 bits.
pub proof fn law_block_numbers_are_signed(block: u64)
    ensures
        block <= MAX_BLOCK <==> block <= i64::MAX,
{
}

/// An account, the parameters of a client and the header of a block are known by their parts.
pub proof fn law_records_are_their_parts(
    account: BaseAccount,
    parameters: ClientParameters,
    header: BlockHeader,
)
    ensures
        account@.address == account.address@,
        account@.pub_key is Some <==> account.pub_key is Some,
        account.pub_key is Some ==> account@.pub_key->0.type_url == account.pub_key->0.type_url@
            && account@.pub_key->0.value == account.pub_key->0.value@,
        account@.account_number == account.account_number,
        account@.sequence == account.sequence,
        parameters@.chain_id == parameters.chain_id@,
        parameters@.trusting_period == parameters.trusting_period,
        parameters@.unbonding_period == parameters.unbonding_period,
        parameters@.max_clock_drift == parameters.max_clock_drift,
        parameters@.latest_height == parameters.latest_height@,
        parameters@.upgrade_path == parameters.upgrade_path@.map_values(|part: String| part@),
        parameters@.allow_after_expiry == parameters.allow_after_expiry,
        parameters@.allow_after_misbehaviour == parameters.allow_after_misbehaviour,
        header@.app_hash == header.app_hash@,
        header@.seconds == header.seconds,
        header@.nanoseconds == header.nanoseconds,
        header@.next_validators_hash == header.next_validators_hash@,
{
}

} // verus!
