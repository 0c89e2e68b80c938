//! The flat records for every protocol message, and the tagged union over
//! them that the codec carries.
//!
//! Each record holds plain scalars, strings and byte vectors. A record is
//! `valid` when every variable-length field fits the bound its wire type
//! allows; the translator in `translate` enforces exactly these bounds.

use vstd::prelude::*;

verus! {

use vstd::string::StringSliceAdditionalSpecFns;

/// Byte length of a string when encoded as UTF-8, as the wire measures it.
pub open spec fn str_bytes_len(s: Seq<char>) -> nat {
    vstd::utf8::encode_utf8(s).len()
}

/// Exact byte length of a string's UTF-8 encoding.
pub fn string_byte_len(s: &String) -> (r: usize)
    ensures
        r == str_bytes_len(s@),
{
    let st = s.as_str();
    let bytes = st.as_bytes_vec();
    proof {
        assert(st.spec_bytes() == vstd::utf8::encode_utf8(s@));
    }
    bytes.len()
}

/// Largest byte length of a length-prefixed string field.
pub const MAX_STR0255: usize = 255;

/// Largest byte length of a short byte-vector field.
pub const MAX_B0255: usize = 255;

/// Largest byte length of an extranonce-sized byte-vector field.
pub const MAX_B032: usize = 32;

/// Largest byte length of a medium byte-vector field.
pub const MAX_B064K: usize = 65535;

/// Largest byte length of a transaction-sized byte-vector field.
pub const MAX_B016M: usize = 16777215;

/// Exact byte length of a 256-bit hash or target field.
pub const U256_LEN: usize = 32;

/// Largest entry count of a short sequence field.
pub const MAX_SEQ0255: usize = 255;

/// Largest entry count of a medium sequence field.
pub const MAX_SEQ064K: usize = 65535;

/// Largest discriminant of the sub-protocol field in a connection setup.
pub const MAX_PROTOCOL: u8 = 3;

/// A hash list holds at most 255 entries, each exactly 32 bytes.
pub open spec fn valid_hash_list(l: Seq<Seq<u8>>) -> bool {
    l.len() <= MAX_SEQ0255 && forall|i: int| 0 <= i < l.len() ==> (#[trigger] l[i]).len()
        == U256_LEN
}

/// A long hash list holds at most 65535 entries, each exactly 32 bytes.
pub open spec fn valid_long_hash_list(l: Seq<Seq<u8>>) -> bool {
    l.len() <= MAX_SEQ064K && forall|i: int| 0 <= i < l.len() ==> (#[trigger] l[i]).len()
        == U256_LEN
}

/// A transaction list holds at most 65535 entries, each within the
/// transaction size bound.
pub open spec fn valid_tx_list(l: Seq<Seq<u8>>) -> bool {
    l.len() <= MAX_SEQ064K && forall|i: int| 0 <= i < l.len() ==> (#[trigger] l[i]).len()
        <= MAX_B016M
}

// ---------------------------------------------------------------------------
// common messages
// ---------------------------------------------------------------------------

/// Opens a connection, declaring the sub-protocol and endpoint identity.
#[derive(Clone, Debug, PartialEq)]
pub struct SetupConnection {
    pub protocol: u8,
    pub min_version: u16,
    pub max_version: u16,
    pub flags: u32,
    pub endpoint_host: String,
    pub endpoint_port: u16,
    pub vendor: String,
    pub hardware_version: String,
    pub firmware: String,
    pub device_id: String,
}

impl SetupConnection {
    /// Every variable-length field fits its wire bound.
    pub open spec fn valid(self) -> bool {
        &&& self.protocol <= MAX_PROTOCOL
        &&& str_bytes_len(self.endpoint_host@) <= MAX_STR0255
        &&& str_bytes_len(self.vendor@) <= MAX_STR0255
        &&& str_bytes_len(self.hardware_version@) <= MAX_STR0255
        &&& str_bytes_len(self.firmware@) <= MAX_STR0255
        &&& str_bytes_len(self.device_id@) <= MAX_STR0255
    }
}

/// Accepts a connection setup.
#[derive(Clone, Debug, PartialEq)]
pub struct SetupConnectionSuccess {
    pub used_version: u16,
    pub flags: u32,
}

/// Rejects a connection setup.
#[derive(Clone, Debug, PartialEq)]
pub struct SetupConnectionError {
    pub flags: u32,
    pub error_code: String,
}

impl SetupConnectionError {
    /// Every variable-length field fits its wire bound.
    pub open spec fn valid(self) -> bool {
        str_bytes_len(self.error_code@) <= MAX_STR0255
    }
}

/// Announces that a channel now terminates at another endpoint.
#[derive(Clone, Debug, PartialEq)]
pub struct ChannelEndpointChanged {
    pub channel_id: u32,
}

/// Asks the peer to reconnect elsewhere.
#[derive(Clone, Debug, PartialEq)]
pub struct Reconnect {
    pub new_host: String,
    pub new_port: u16,
}

impl Reconnect {
    /// Every variable-length field fits its wire bound.
    pub open spec fn valid(self) -> bool {
        str_bytes_len(self.new_host@) <= MAX_STR0255
    }
}

// ---------------------------------------------------------------------------
// mining messages
// ---------------------------------------------------------------------------

/// Requests a Standard channel.
///
/// `nominal_hash_rate` carries the raw bit pattern of the 32-bit
/// floating-point field the wire defines; this engine never interprets it.
#[derive(Clone, Debug, PartialEq)]
pub struct OpenStandardMiningChannel {
    pub request_id: u32,
    pub user_identity: String,
    pub nominal_hash_rate: u32,
    pub max_target: Vec<u8>,
}

impl OpenStandardMiningChannel {
    /// Every variable-length field fits its wire bound.
    pub open spec fn valid(self) -> bool {
        &&& str_bytes_len(self.user_identity@) <= MAX_STR0255
        &&& self.max_target@.len() == U256_LEN
    }
}

/// Grants a Standard channel.
#[derive(Clone, Debug, PartialEq)]
pub struct OpenStandardMiningChannelSuccess {
    pub request_id: u32,
    pub channel_id: u32,
    pub target: Vec<u8>,
    pub extranonce_prefix: Vec<u8>,
    pub group_channel_id: u32,
}

impl OpenStandardMiningChannelSuccess {
    /// Every variable-length field fits its wire bound.
    pub open spec fn valid(self) -> bool {
        &&& self.target@.len() == U256_LEN
        &&& self.extranonce_prefix@.len() <= MAX_B032
    }
}

/// Requests an Extended channel.
///
/// `nominal_hash_rate` carries the raw bit pattern of the 32-bit
/// floating-point field the wire defines; this engine never interprets it.
#[derive(Clone, Debug, PartialEq)]
pub struct OpenExtendedMiningChannel {
    pub request_id: u32,
    pub user_identity: String,
    pub nominal_hash_rate: u32,
    pub max_target: Vec<u8>,
    pub min_extranonce_size: u16,
}

impl OpenExtendedMiningChannel {
    /// Every variable-length field fits its wire bound.
    pub open spec fn valid(self) -> bool {
        &&& str_bytes_len(self.user_identity@) <= MAX_STR0255
        &&& self.max_target@.len() == U256_LEN
    }
}

/// Grants an Extended channel.
#[derive(Clone, Debug, PartialEq)]
pub struct OpenExtendedMiningChannelSuccess {
    pub request_id: u32,
    pub channel_id: u32,
    pub target: Vec<u8>,
    pub extranonce_size: u16,
    pub extranonce_prefix: Vec<u8>,
}

impl OpenExtendedMiningChannelSuccess {
    /// Every variable-length field fits its wire bound.
    pub open spec fn valid(self) -> bool {
        &&& self.target@.len() == U256_LEN
        &&& self.extranonce_prefix@.len() <= MAX_B032
    }
}

/// Rejects a channel request.
#[derive(Clone, Debug, PartialEq)]
pub struct OpenMiningChannelError {
    pub request_id: u32,
    pub error_code: String,
}

impl OpenMiningChannelError {
    /// Every variable-length field fits its wire bound.
    pub open spec fn valid(self) -> bool {
        str_bytes_len(self.error_code@) <= MAX_STR0255
    }
}

/// Notifies the server of a changed hashrate or requested ceiling.
///
/// `nominal_hash_rate` carries the raw bit pattern of the 32-bit
/// floating-point field the wire defines; this engine never interprets it.
#[derive(Clone, Debug, PartialEq)]
pub struct UpdateChannel {
    pub channel_id: u32,
    pub nominal_hash_rate: u32,
    pub maximum_target: Vec<u8>,
}

impl UpdateChannel {
    /// Every variable-length field fits its wire bound.
    pub open spec fn valid(self) -> bool {
        self.maximum_target@.len() == U256_LEN
    }
}

/// Rejects a channel update.
#[derive(Clone, Debug, PartialEq)]
pub struct UpdateChannelError {
    pub channel_id: u32,
    pub error_code: String,
}

impl UpdateChannelError {
    /// Every variable-length field fits its wire bound.
    pub open spec fn valid(self) -> bool {
        str_bytes_len(self.error_code@) <= MAX_STR0255
    }
}

/// Closes a channel.
#[derive(Clone, Debug, PartialEq)]
pub struct CloseChannel {
    pub channel_id: u32,
    pub reason_code: String,
}

impl CloseChannel {
    /// Every variable-length field fits its wire bound.
    pub open spec fn valid(self) -> bool {
        str_bytes_len(self.reason_code@) <= MAX_STR0255
    }
}

/// Rotates a channel's extranonce prefix.
#[derive(Clone, Debug, PartialEq)]
pub struct SetExtranoncePrefix {
    pub channel_id: u32,
    pub extranonce_prefix: Vec<u8>,
}

impl SetExtranoncePrefix {
    /// Every variable-length field fits its wire bound.
    pub open spec fn valid(self) -> bool {
        self.extranonce_prefix@.len() <= MAX_B032
    }
}

/// A share submitted on a Standard channel.
#[derive(Clone, Debug, PartialEq)]
pub struct SubmitSharesStandard {
    pub channel_id: u32,
    pub sequence_number: u32,
    pub job_id: u32,
    pub nonce: u32,
    pub ntime: u32,
    pub version: u32,
}

/// A share submitted on an Extended channel, carrying the rolled extranonce.
#[derive(Clone, Debug, PartialEq)]
pub struct SubmitSharesExtended {
    pub channel_id: u32,
    pub sequence_number: u32,
    pub job_id: u32,
    pub nonce: u32,
    pub ntime: u32,
    pub version: u32,
    pub extranonce: Vec<u8>,
}

impl SubmitSharesExtended {
    /// Every variable-length field fits its wire bound.
    pub open spec fn valid(self) -> bool {
        self.extranonce@.len() <= MAX_B032
    }
}

/// Acknowledges a batch of accepted shares.
#[derive(Clone, Debug, PartialEq)]
pub struct SubmitSharesSuccess {
    pub channel_id: u32,
    pub last_sequence_number: u32,
    pub new_submits_accepted_count: u32,
    pub new_shares_sum: u64,
}

/// Rejects a submitted share.
#[derive(Clone, Debug, PartialEq)]
pub struct SubmitSharesError {
    pub channel_id: u32,
    pub sequence_number: u32,
    pub error_code: String,
}

impl SubmitSharesError {
    /// Every variable-length field fits its wire bound.
    pub open spec fn valid(self) -> bool {
        str_bytes_len(self.error_code@) <= MAX_STR0255
    }
}

/// A job for a Standard channel, with a precomputed merkle root.
#[derive(Clone, Debug, PartialEq)]
pub struct NewMiningJob {
    pub channel_id: u32,
    pub job_id: u32,
    pub min_ntime: Option<u32>,
    pub version: u32,
    pub merkle_root: Vec<u8>,
}

impl NewMiningJob {
    /// Every variable-length field fits its wire bound.
    pub open spec fn valid(self) -> bool {
        self.merkle_root@.len() == U256_LEN
    }
}

/// A job for an Extended or Group channel, with the coinbase split around
/// the extranonce.
#[derive(Clone, Debug, PartialEq)]
pub struct NewExtendedMiningJob {
    pub channel_id: u32,
    pub job_id: u32,
    pub min_ntime: Option<u32>,
    pub version: u32,
    pub version_rolling_allowed: bool,
    pub merkle_path: Vec<Vec<u8>>,
    pub coinbase_tx_prefix: Vec<u8>,
    pub coinbase_tx_suffix: Vec<u8>,
}

impl NewExtendedMiningJob {
    /// Every variable-length field fits its wire bound.
    pub open spec fn valid(self) -> bool {
        &&& valid_hash_list(self.merkle_path.deep_view())
        &&& self.coinbase_tx_prefix@.len() <= MAX_B064K
        &&& self.coinbase_tx_suffix@.len() <= MAX_B064K
    }
}

/// Binds a channel's future job to a new chain tip.
#[derive(Clone, Debug, PartialEq)]
pub struct SetNewPrevHashMining {
    pub channel_id: u32,
    pub job_id: u32,
    pub prev_hash: Vec<u8>,
    pub min_ntime: u32,
    pub nbits: u32,
}

impl SetNewPrevHashMining {
    /// Every variable-length field fits its wire bound.
    pub open spec fn valid(self) -> bool {
        self.prev_hash@.len() == U256_LEN
    }
}

/// Declares a custom job for an Extended channel, bypassing the template
/// pipeline.
#[derive(Clone, Debug, PartialEq)]
pub struct SetCustomMiningJob {
    pub channel_id: u32,
    pub request_id: u32,
    pub mining_job_token: Vec<u8>,
    pub version: u32,
    pub prev_hash: Vec<u8>,
    pub min_ntime: u32,
    pub nbits: u32,
    pub coinbase_tx_version: u32,
    pub coinbase_prefix: Vec<u8>,
    pub coinbase_tx_input_nsequence: u32,
    pub coinbase_tx_outputs: Vec<u8>,
    pub coinbase_tx_locktime: u32,
    pub merkle_path: Vec<Vec<u8>>,
}

impl SetCustomMiningJob {
    /// Every variable-length field fits its wire bound.
    pub open spec fn valid(self) -> bool {
        &&& self.mining_job_token@.len() <= MAX_B0255
        &&& self.prev_hash@.len() == U256_LEN
        &&& self.coinbase_prefix@.len() <= MAX_B0255
        &&& self.coinbase_tx_outputs@.len() <= MAX_B064K
        &&& valid_hash_list(self.merkle_path.deep_view())
    }
}

/// Accepts a custom job.
#[derive(Clone, Debug, PartialEq)]
pub struct SetCustomMiningJobSuccess {
    pub channel_id: u32,
    pub request_id: u32,
    pub job_id: u32,
}

/// Rejects a custom job.
#[derive(Clone, Debug, PartialEq)]
pub struct SetCustomMiningJobError {
    pub channel_id: u32,
    pub request_id: u32,
    pub error_code: String,
}

impl SetCustomMiningJobError {
    /// Every variable-length field fits its wire bound.
    pub open spec fn valid(self) -> bool {
        str_bytes_len(self.error_code@) <= MAX_STR0255
    }
}

/// Lowers or raises a channel's target ceiling.
#[derive(Clone, Debug, PartialEq)]
pub struct SetTarget {
    pub channel_id: u32,
    pub maximum_target: Vec<u8>,
}

impl SetTarget {
    /// Every variable-length field fits its wire bound.
    pub open spec fn valid(self) -> bool {
        self.maximum_target@.len() == U256_LEN
    }
}

/// Declares which Standard channels a Group channel aggregates.
#[derive(Clone, Debug, PartialEq)]
pub struct SetGroupChannel {
    pub group_channel_id: u32,
    pub channel_ids: Vec<u32>,
}

impl SetGroupChannel {
    /// Every variable-length field fits its wire bound.
    pub open spec fn valid(self) -> bool {
        self.channel_ids@.len() <= MAX_SEQ064K
    }
}

// ---------------------------------------------------------------------------
// job declaration messages
// ---------------------------------------------------------------------------

/// Requests a token for declaring jobs.
#[derive(Clone, Debug, PartialEq)]
pub struct AllocateMiningJobToken {
    pub user_identifier: String,
    pub request_id: u32,
}

impl AllocateMiningJobToken {
    /// Every variable-length field fits its wire bound.
    pub open spec fn valid(self) -> bool {
        str_bytes_len(self.user_identifier@) <= MAX_STR0255
    }
}

/// Grants a job-declaration token.
#[derive(Clone, Debug, PartialEq)]
pub struct AllocateMiningJobTokenSuccess {
    pub request_id: u32,
    pub mining_job_token: Vec<u8>,
    pub coinbase_tx_outputs: Vec<u8>,
}

impl AllocateMiningJobTokenSuccess {
    /// Every variable-length field fits its wire bound.
    pub open spec fn valid(self) -> bool {
        &&& self.mining_job_token@.len() <= MAX_B0255
        &&& self.coinbase_tx_outputs@.len() <= MAX_B064K
    }
}

/// Declares a full job to the pool.
#[derive(Clone, Debug, PartialEq)]
pub struct DeclareMiningJob {
    pub request_id: u32,
    pub mining_job_token: Vec<u8>,
    pub version: u32,
    pub coinbase_tx_prefix: Vec<u8>,
    pub coinbase_tx_suffix: Vec<u8>,
    pub tx_ids_list: Vec<Vec<u8>>,
    pub excess_data: Vec<u8>,
}

impl DeclareMiningJob {
    /// Every variable-length field fits its wire bound.
    pub open spec fn valid(self) -> bool {
        &&& self.mining_job_token@.len() <= MAX_B0255
        &&& self.coinbase_tx_prefix@.len() <= MAX_B064K
        &&& self.coinbase_tx_suffix@.len() <= MAX_B064K
        &&& valid_long_hash_list(self.tx_ids_list.deep_view())
        &&& self.excess_data@.len() <= MAX_B064K
    }
}

/// Accepts a declared job.
#[derive(Clone, Debug, PartialEq)]
pub struct DeclareMiningJobSuccess {
    pub request_id: u32,
    pub new_mining_job_token: Vec<u8>,
}

impl DeclareMiningJobSuccess {
    /// Every variable-length field fits its wire bound.
    pub open spec fn valid(self) -> bool {
        self.new_mining_job_token@.len() <= MAX_B0255
    }
}

/// Rejects a declared job.
#[derive(Clone, Debug, PartialEq)]
pub struct DeclareMiningJobError {
    pub request_id: u32,
    pub error_code: String,
    pub error_details: Vec<u8>,
}

impl DeclareMiningJobError {
    /// Every variable-length field fits its wire bound.
    pub open spec fn valid(self) -> bool {
        &&& str_bytes_len(self.error_code@) <= MAX_STR0255
        &&& self.error_details@.len() <= MAX_B064K
    }
}

/// Asks for transactions the pool does not know.
#[derive(Clone, Debug, PartialEq)]
pub struct ProvideMissingTransactions {
    pub request_id: u32,
    pub unknown_tx_position_list: Vec<u16>,
}

impl ProvideMissingTransactions {
    /// Every variable-length field fits its wire bound.
    pub open spec fn valid(self) -> bool {
        self.unknown_tx_position_list@.len() <= MAX_SEQ064K
    }
}

/// Supplies the requested transactions.
#[derive(Clone, Debug, PartialEq)]
pub struct ProvideMissingTransactionsSuccess {
    pub request_id: u32,
    pub transaction_list: Vec<Vec<u8>>,
}

impl ProvideMissingTransactionsSuccess {
    /// Every variable-length field fits its wire bound.
    pub open spec fn valid(self) -> bool {
        valid_tx_list(self.transaction_list.deep_view())
    }
}

/// Pushes a block solution found against a declared job.
#[derive(Clone, Debug, PartialEq)]
pub struct PushSolution {
    pub extranonce: Vec<u8>,
    pub prev_hash: Vec<u8>,
    pub nonce: u32,
    pub ntime: u32,
    pub nbits: u32,
    pub version: u32,
}

impl PushSolution {
    /// Every variable-length field fits its wire bound.
    pub open spec fn valid(self) -> bool {
        &&& self.extranonce@.len() <= MAX_B032
        &&& self.prev_hash@.len() == U256_LEN
    }
}

// ---------------------------------------------------------------------------
// template distribution messages
// ---------------------------------------------------------------------------

/// Declares the size and sigop budget for extra coinbase outputs.
#[derive(Clone, Debug, PartialEq)]
pub struct CoinbaseOutputConstraints {
    pub coinbase_output_max_additional_size: u32,
    pub coinbase_output_max_additional_sigops: u16,
}

/// A new block template from the template provider.
#[derive(Clone, Debug, PartialEq)]
pub struct NewTemplate {
    pub template_id: u64,
    pub future_template: bool,
    pub version: u32,
    pub coinbase_tx_version: u32,
    pub coinbase_prefix: Vec<u8>,
    pub coinbase_tx_input_sequence: u32,
    pub coinbase_tx_value_remaining: u64,
    pub coinbase_tx_outputs_count: u32,
    pub coinbase_tx_outputs: Vec<u8>,
    pub coinbase_tx_locktime: u32,
    pub merkle_path: Vec<Vec<u8>>,
}

impl NewTemplate {
    /// Every variable-length field fits its wire bound.
    pub open spec fn valid(self) -> bool {
        &&& self.coinbase_prefix@.len() <= MAX_B0255
        &&& self.coinbase_tx_outputs@.len() <= MAX_B064K
        &&& valid_hash_list(self.merkle_path.deep_view())
    }
}

/// A new chain tip from the template provider.
#[derive(Clone, Debug, PartialEq)]
pub struct SetNewPrevHashTemplateDistribution {
    pub template_id: u64,
    pub prev_hash: Vec<u8>,
    pub header_timestamp: u32,
    pub nbits: u32,
    pub target: Vec<u8>,
}

impl SetNewPrevHashTemplateDistribution {
    /// Every variable-length field fits its wire bound.
    pub open spec fn valid(self) -> bool {
        &&& self.prev_hash@.len() == U256_LEN
        &&& self.target@.len() == U256_LEN
    }
}

/// Asks for a template's transaction data.
#[derive(Clone, Debug, PartialEq)]
pub struct RequestTransactionData {
    pub template_id: u64,
}

/// Supplies a template's transaction data.
#[derive(Clone, Debug, PartialEq)]
pub struct RequestTransactionDataSuccess {
    pub template_id: u64,
    pub excess_data: Vec<u8>,
    pub transaction_list: Vec<Vec<u8>>,
}

impl RequestTransactionDataSuccess {
    /// Every variable-length field fits its wire bound.
    pub open spec fn valid(self) -> bool {
        &&& self.excess_data@.len() <= MAX_B064K
        &&& valid_tx_list(self.transaction_list.deep_view())
    }
}

/// Rejects a transaction-data request.
#[derive(Clone, Debug, PartialEq)]
pub struct RequestTransactionDataError {
    pub template_id: u64,
    pub error_code: String,
}

impl RequestTransactionDataError {
    /// Every variable-length field fits its wire bound.
    pub open spec fn valid(self) -> bool {
        str_bytes_len(self.error_code@) <= MAX_STR0255
    }
}

/// Submits a solved block to the template provider.
#[derive(Clone, Debug, PartialEq)]
pub struct SubmitSolution {
    pub template_id: u64,
    pub version: u32,
    pub header_timestamp: u32,
    pub header_nonce: u32,
    pub coinbase_tx: Vec<u8>,
}

impl SubmitSolution {
    /// Every variable-length field fits its wire bound.
    pub open spec fn valid(self) -> bool {
        self.coinbase_tx@.len() <= MAX_B064K
    }
}

// ---------------------------------------------------------------------------
// the tagged union and the translation failures
// ---------------------------------------------------------------------------

/// One protocol message of any sub-protocol, as the codec boundary sees it.
#[derive(Clone, Debug, PartialEq)]
pub enum Sv2Message {
    SetupConnection(SetupConnection),
    SetupConnectionSuccess(SetupConnectionSuccess),
    SetupConnectionError(SetupConnectionError),
    ChannelEndpointChanged(ChannelEndpointChanged),
    Reconnect(Reconnect),
    OpenStandardMiningChannel(OpenStandardMiningChannel),
    OpenStandardMiningChannelSuccess(OpenStandardMiningChannelSuccess),
    OpenExtendedMiningChannel(OpenExtendedMiningChannel),
    OpenExtendedMiningChannelSuccess(OpenExtendedMiningChannelSuccess),
    OpenMiningChannelError(OpenMiningChannelError),
    UpdateChannel(UpdateChannel),
    UpdateChannelError(UpdateChannelError),
    CloseChannel(CloseChannel),
    SetExtranoncePrefix(SetExtranoncePrefix),
    SubmitSharesStandard(SubmitSharesStandard),
    SubmitSharesExtended(SubmitSharesExtended),
    SubmitSharesSuccess(SubmitSharesSuccess),
    SubmitSharesError(SubmitSharesError),
    NewMiningJob(NewMiningJob),
    NewExtendedMiningJob(NewExtendedMiningJob),
    SetNewPrevHashMining(SetNewPrevHashMining),
    SetCustomMiningJob(SetCustomMiningJob),
    SetCustomMiningJobSuccess(SetCustomMiningJobSuccess),
    SetCustomMiningJobError(SetCustomMiningJobError),
    SetTarget(SetTarget),
    SetGroupChannel(SetGroupChannel),
    AllocateMiningJobToken(AllocateMiningJobToken),
    AllocateMiningJobTokenSuccess(AllocateMiningJobTokenSuccess),
    DeclareMiningJob(DeclareMiningJob),
    DeclareMiningJobSuccess(DeclareMiningJobSuccess),
    DeclareMiningJobError(DeclareMiningJobError),
    ProvideMissingTransactions(ProvideMissingTransactions),
    ProvideMissingTransactionsSuccess(ProvideMissingTransactionsSuccess),
    PushSolution(PushSolution),
    CoinbaseOutputConstraints(CoinbaseOutputConstraints),
    NewTemplate(NewTemplate),
    SetNewPrevHashTemplateDistribution(SetNewPrevHashTemplateDistribution),
    RequestTransactionData(RequestTransactionData),
    RequestTransactionDataSuccess(RequestTransactionDataSuccess),
    RequestTransactionDataError(RequestTransactionDataError),
    SubmitSolution(SubmitSolution),
}

impl Sv2Message {
    /// Every variable-length field of the carried record fits its wire bound.
    pub open spec fn valid(self) -> bool {
        match self {
            Sv2Message::SetupConnection(m) => m.valid(),
            Sv2Message::SetupConnectionSuccess(_) => true,
            Sv2Message::SetupConnectionError(m) => m.valid(),
            Sv2Message::ChannelEndpointChanged(_) => true,
            Sv2Message::Reconnect(m) => m.valid(),
            Sv2Message::OpenStandardMiningChannel(m) => m.valid(),
            Sv2Message::OpenStandardMiningChannelSuccess(m) => m.valid(),
            Sv2Message::OpenExtendedMiningChannel(m) => m.valid(),
            Sv2Message::OpenExtendedMiningChannelSuccess(m) => m.valid(),
            Sv2Message::OpenMiningChannelError(m) => m.valid(),
            Sv2Message::UpdateChannel(m) => m.valid(),
            Sv2Message::UpdateChannelError(m) => m.valid(),
            Sv2Message::CloseChannel(m) => m.valid(),
            Sv2Message::SetExtranoncePrefix(m) => m.valid(),
            Sv2Message::SubmitSharesStandard(_) => true,
            Sv2Message::SubmitSharesExtended(m) => m.valid(),
            Sv2Message::SubmitSharesSuccess(_) => true,
            Sv2Message::SubmitSharesError(m) => m.valid(),
            Sv2Message::NewMiningJob(m) => m.valid(),
            Sv2Message::NewExtendedMiningJob(m) => m.valid(),
            Sv2Message::SetNewPrevHashMining(m) => m.valid(),
            Sv2Message::SetCustomMiningJob(m) => m.valid(),
            Sv2Message::SetCustomMiningJobSuccess(_) => true,
            Sv2Message::SetCustomMiningJobError(m) => m.valid(),
            Sv2Message::SetTarget(m) => m.valid(),
            Sv2Message::SetGroupChannel(m) => m.valid(),
            Sv2Message::AllocateMiningJobToken(m) => m.valid(),
            Sv2Message::AllocateMiningJobTokenSuccess(m) => m.valid(),
            Sv2Message::DeclareMiningJob(m) => m.valid(),
            Sv2Message::DeclareMiningJobSuccess(m) => m.valid(),
            Sv2Message::DeclareMiningJobError(m) => m.valid(),
            Sv2Message::ProvideMissingTransactions(m) => m.valid(),
            Sv2Message::ProvideMissingTransactionsSuccess(m) => m.valid(),
            Sv2Message::PushSolution(m) => m.valid(),
            Sv2Message::CoinbaseOutputConstraints(_) => true,
            Sv2Message::NewTemplate(m) => m.valid(),
            Sv2Message::SetNewPrevHashTemplateDistribution(m) => m.valid(),
            Sv2Message::RequestTransactionData(_) => true,
            Sv2Message::RequestTransactionDataSuccess(m) => m.valid(),
            Sv2Message::RequestTransactionDataError(m) => m.valid(),
            Sv2Message::SubmitSolution(m) => m.valid(),
        }
    }
}

/// Why a message could not be translated for the wire.
#[derive(Clone, Copy, PartialEq, Eq, Structural, Debug)]
pub enum Sv2MessageError {
    /// The sub-protocol discriminant is not one the protocol defines.
    FailedToConvertProtocol,
    /// A string field exceeds its wire bound.
    FailedToSerializeString,
    /// A byte-vector or sequence field breaks its wire bound.
    FailedToSerializeByteArray,
}

} // verus!
