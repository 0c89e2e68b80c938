//! The message translator: the bidirectional mapping between the flat
//! records at the system boundary and the engine's internal tagged
//! representation, grouped by sub-protocol.
//!
//! The decode direction (`inner_to_sv2_message`) is total. The encode
//! direction (`sv2_message_to_inner`) enforces every wire bound and fails
//! closed: it returns a message exactly when every variable-length field
//! fits, and names the first kind of field that does not.

use vstd::prelude::*;

verus! {

use crate::messages::{
    str_bytes_len, string_byte_len, valid_hash_list, valid_long_hash_list, valid_tx_list,
    AllocateMiningJobToken, AllocateMiningJobTokenSuccess, ChannelEndpointChanged, CloseChannel,
    CoinbaseOutputConstraints, DeclareMiningJob, DeclareMiningJobError, DeclareMiningJobSuccess,
    NewExtendedMiningJob, NewMiningJob, NewTemplate, OpenExtendedMiningChannel,
    OpenExtendedMiningChannelSuccess, OpenMiningChannelError, OpenStandardMiningChannel,
    OpenStandardMiningChannelSuccess, ProvideMissingTransactions,
    ProvideMissingTransactionsSuccess, PushSolution, Reconnect, RequestTransactionData,
    RequestTransactionDataError, RequestTransactionDataSuccess, SetCustomMiningJob,
    SetCustomMiningJobError, SetCustomMiningJobSuccess, SetExtranoncePrefix, SetGroupChannel,
    SetNewPrevHashMining, SetNewPrevHashTemplateDistribution, SetTarget, SetupConnection,
    SetupConnectionError, SetupConnectionSuccess, SubmitSharesError, SubmitSharesExtended,
    SubmitSharesStandard, SubmitSharesSuccess, SubmitSolution, Sv2Message, Sv2MessageError,
    UpdateChannel, UpdateChannelError, MAX_B016M, MAX_B0255, MAX_B032, MAX_B064K, MAX_PROTOCOL,
    MAX_SEQ0255, MAX_SEQ064K, MAX_STR0255, U256_LEN,
};


/// The connection setup and lifecycle messages, as one tagged group.
#[derive(Clone, Debug, PartialEq)]
pub enum CommonMessages {
    SetupConnection(SetupConnection),
    SetupConnectionSuccess(SetupConnectionSuccess),
    SetupConnectionError(SetupConnectionError),
    ChannelEndpointChanged(ChannelEndpointChanged),
    Reconnect(Reconnect),
}

/// The mining channel and share messages, as one tagged group.
#[derive(Clone, Debug, PartialEq)]
pub enum Mining {
    OpenStandardMiningChannel(OpenStandardMiningChannel),
    OpenStandardMiningChannelSuccess(OpenStandardMiningChannelSuccess),
    OpenExtendedMiningChannel(OpenExtendedMiningChannel),
    OpenExtendedMiningChannelSuccess(OpenExtendedMiningChannelSuccess),
    OpenMiningChannelError(OpenMiningChannelError),
    UpdateChannel(UpdateChannel),
    UpdateChannelError(UpdateChannelError),
    CloseChannel(CloseChannel),
    SetExtranoncePrefix(SetExtranoncePrefix),
    SubmitSharesStandard(SubmitSharesStandard),
    SubmitSharesExtended(SubmitSharesExtended),
    SubmitSharesSuccess(SubmitSharesSuccess),
    SubmitSharesError(SubmitSharesError),
    NewMiningJob(NewMiningJob),
    NewExtendedMiningJob(NewExtendedMiningJob),
    SetNewPrevHash(SetNewPrevHashMining),
    SetCustomMiningJob(SetCustomMiningJob),
    SetCustomMiningJobSuccess(SetCustomMiningJobSuccess),
    SetCustomMiningJobError(SetCustomMiningJobError),
    SetTarget(SetTarget),
    SetGroupChannel(SetGroupChannel),
}

/// The job declaration messages, as one tagged group.
#[derive(Clone, Debug, PartialEq)]
pub enum JobDeclaration {
    AllocateMiningJobToken(AllocateMiningJobToken),
    AllocateMiningJobTokenSuccess(AllocateMiningJobTokenSuccess),
    DeclareMiningJob(DeclareMiningJob),
    DeclareMiningJobSuccess(DeclareMiningJobSuccess),
    DeclareMiningJobError(DeclareMiningJobError),
    ProvideMissingTransactions(ProvideMissingTransactions),
    ProvideMissingTransactionsSuccess(ProvideMissingTransactionsSuccess),
    PushSolution(PushSolution),
}

/// The template distribution messages, as one tagged group.
#[derive(Clone, Debug, PartialEq)]
pub enum TemplateDistribution {
    CoinbaseOutputConstraints(CoinbaseOutputConstraints),
    NewTemplate(NewTemplate),
    SetNewPrevHash(SetNewPrevHashTemplateDistribution),
    RequestTransactionData(RequestTransactionData),
    RequestTransactionDataSuccess(RequestTransactionDataSuccess),
    RequestTransactionDataError(RequestTransactionDataError),
    SubmitSolution(SubmitSolution),
}

/// The internal representation: one message of any sub-protocol.
#[derive(Clone, Debug, PartialEq)]
pub enum AnyMessage {
    Common(CommonMessages),
    Mining(Mining),
    JobDeclaration(JobDeclaration),
    TemplateDistribution(TemplateDistribution),
}

/// The internal form of a boundary message: the same record, grouped
/// under its sub-protocol.
pub open spec fn inner_of(m: Sv2Message) -> AnyMessage {
    match m {
        Sv2Message::SetupConnection(x) => AnyMessage::Common(CommonMessages::SetupConnection(x)),
        Sv2Message::SetupConnectionSuccess(x) => AnyMessage::Common(CommonMessages::SetupConnectionSuccess(x)),
        Sv2Message::SetupConnectionError(x) => AnyMessage::Common(CommonMessages::SetupConnectionError(x)),
        Sv2Message::ChannelEndpointChanged(x) => AnyMessage::Common(CommonMessages::ChannelEndpointChanged(x)),
        Sv2Message::Reconnect(x) => AnyMessage::Common(CommonMessages::Reconnect(x)),
        Sv2Message::OpenStandardMiningChannel(x) => AnyMessage::Mining(Mining::OpenStandardMiningChannel(x)),
        Sv2Message::OpenStandardMiningChannelSuccess(x) => AnyMessage::Mining(Mining::OpenStandardMiningChannelSuccess(x)),
        Sv2Message::OpenExtendedMiningChannel(x) => AnyMessage::Mining(Mining::OpenExtendedMiningChannel(x)),
        Sv2Message::OpenExtendedMiningChannelSuccess(x) => AnyMessage::Mining(Mining::OpenExtendedMiningChannelSuccess(x)),
        Sv2Message::OpenMiningChannelError(x) => AnyMessage::Mining(Mining::OpenMiningChannelError(x)),
        Sv2Message::UpdateChannel(x) => AnyMessage::Mining(Mining::UpdateChannel(x)),
        Sv2Message::UpdateChannelError(x) => AnyMessage::Mining(Mining::UpdateChannelError(x)),
        Sv2Message::CloseChannel(x) => AnyMessage::Mining(Mining::CloseChannel(x)),
        Sv2Message::SetExtranoncePrefix(x) => AnyMessage::Mining(Mining::SetExtranoncePrefix(x)),
        Sv2Message::SubmitSharesStandard(x) => AnyMessage::Mining(Mining::SubmitSharesStandard(x)),
        Sv2Message::SubmitSharesExtended(x) => AnyMessage::Mining(Mining::SubmitSharesExtended(x)),
        Sv2Message::SubmitSharesSuccess(x) => AnyMessage::Mining(Mining::SubmitSharesSuccess(x)),
        Sv2Message::SubmitSharesError(x) => AnyMessage::Mining(Mining::SubmitSharesError(x)),
        Sv2Message::NewMiningJob(x) => AnyMessage::Mining(Mining::NewMiningJob(x)),
        Sv2Message::NewExtendedMiningJob(x) => AnyMessage::Mining(Mining::NewExtendedMiningJob(x)),
        Sv2Message::SetNewPrevHashMining(x) => AnyMessage::Mining(Mining::SetNewPrevHash(x)),
        Sv2Message::SetCustomMiningJob(x) => AnyMessage::Mining(Mining::SetCustomMiningJob(x)),
        Sv2Message::SetCustomMiningJobSuccess(x) => AnyMessage::Mining(Mining::SetCustomMiningJobSuccess(x)),
        Sv2Message::SetCustomMiningJobError(x) => AnyMessage::Mining(Mining::SetCustomMiningJobError(x)),
        Sv2Message::SetTarget(x) => AnyMessage::Mining(Mining::SetTarget(x)),
        Sv2Message::SetGroupChannel(x) => AnyMessage::Mining(Mining::SetGroupChannel(x)),
        Sv2Message::AllocateMiningJobToken(x) => AnyMessage::JobDeclaration(JobDeclaration::AllocateMiningJobToken(x)),
        Sv2Message::AllocateMiningJobTokenSuccess(x) => AnyMessage::JobDeclaration(JobDeclaration::AllocateMiningJobTokenSuccess(x)),
        Sv2Message::DeclareMiningJob(x) => AnyMessage::JobDeclaration(JobDeclaration::DeclareMiningJob(x)),
        Sv2Message::DeclareMiningJobSuccess(x) => AnyMessage::JobDeclaration(JobDeclaration::DeclareMiningJobSuccess(x)),
        Sv2Message::DeclareMiningJobError(x) => AnyMessage::JobDeclaration(JobDeclaration::DeclareMiningJobError(x)),
        Sv2Message::ProvideMissingTransactions(x) => AnyMessage::JobDeclaration(JobDeclaration::ProvideMissingTransactions(x)),
        Sv2Message::ProvideMissingTransactionsSuccess(x) => AnyMessage::JobDeclaration(JobDeclaration::ProvideMissingTransactionsSuccess(x)),
        Sv2Message::PushSolution(x) => AnyMessage::JobDeclaration(JobDeclaration::PushSolution(x)),
        Sv2Message::CoinbaseOutputConstraints(x) => AnyMessage::TemplateDistribution(TemplateDistribution::CoinbaseOutputConstraints(x)),
        Sv2Message::NewTemplate(x) => AnyMessage::TemplateDistribution(TemplateDistribution::NewTemplate(x)),
        Sv2Message::SetNewPrevHashTemplateDistribution(x) => AnyMessage::TemplateDistribution(TemplateDistribution::SetNewPrevHash(x)),
        Sv2Message::RequestTransactionData(x) => AnyMessage::TemplateDistribution(TemplateDistribution::RequestTransactionData(x)),
        Sv2Message::RequestTransactionDataSuccess(x) => AnyMessage::TemplateDistribution(TemplateDistribution::RequestTransactionDataSuccess(x)),
        Sv2Message::RequestTransactionDataError(x) => AnyMessage::TemplateDistribution(TemplateDistribution::RequestTransactionDataError(x)),
        Sv2Message::SubmitSolution(x) => AnyMessage::TemplateDistribution(TemplateDistribution::SubmitSolution(x)),
    }
}

/// The boundary form of an internal message: the same record, flattened.
pub open spec fn outer_of(m: AnyMessage) -> Sv2Message {
    match m {
        AnyMessage::Common(CommonMessages::SetupConnection(x)) => Sv2Message::SetupConnection(x),
        AnyMessage::Common(CommonMessages::SetupConnectionSuccess(x)) => Sv2Message::SetupConnectionSuccess(x),
        AnyMessage::Common(CommonMessages::SetupConnectionError(x)) => Sv2Message::SetupConnectionError(x),
        AnyMessage::Common(CommonMessages::ChannelEndpointChanged(x)) => Sv2Message::ChannelEndpointChanged(x),
        AnyMessage::Common(CommonMessages::Reconnect(x)) => Sv2Message::Reconnect(x),
        AnyMessage::Mining(Mining::OpenStandardMiningChannel(x)) => Sv2Message::OpenStandardMiningChannel(x),
        AnyMessage::Mining(Mining::OpenStandardMiningChannelSuccess(x)) => Sv2Message::OpenStandardMiningChannelSuccess(x),
        AnyMessage::Mining(Mining::OpenExtendedMiningChannel(x)) => Sv2Message::OpenExtendedMiningChannel(x),
        AnyMessage::Mining(Mining::OpenExtendedMiningChannelSuccess(x)) => Sv2Message::OpenExtendedMiningChannelSuccess(x),
        AnyMessage::Mining(Mining::OpenMiningChannelError(x)) => Sv2Message::OpenMiningChannelError(x),
        AnyMessage::Mining(Mining::UpdateChannel(x)) => Sv2Message::UpdateChannel(x),
        AnyMessage::Mining(Mining::UpdateChannelError(x)) => Sv2Message::UpdateChannelError(x),
        AnyMessage::Mining(Mining::CloseChannel(x)) => Sv2Message::CloseChannel(x),
        AnyMessage::Mining(Mining::SetExtranoncePrefix(x)) => Sv2Message::SetExtranoncePrefix(x),
        AnyMessage::Mining(Mining::SubmitSharesStandard(x)) => Sv2Message::SubmitSharesStandard(x),
        AnyMessage::Mining(Mining::SubmitSharesExtended(x)) => Sv2Message::SubmitSharesExtended(x),
        AnyMessage::Mining(Mining::SubmitSharesSuccess(x)) => Sv2Message::SubmitSharesSuccess(x),
        AnyMessage::Mining(Mining::SubmitSharesError(x)) => Sv2Message::SubmitSharesError(x),
        AnyMessage::Mining(Mining::NewMiningJob(x)) => Sv2Message::NewMiningJob(x),
        AnyMessage::Mining(Mining::NewExtendedMiningJob(x)) => Sv2Message::NewExtendedMiningJob(x),
        AnyMessage::Mining(Mining::SetNewPrevHash(x)) => Sv2Message::SetNewPrevHashMining(x),
        AnyMessage::Mining(Mining::SetCustomMiningJob(x)) => Sv2Message::SetCustomMiningJob(x),
        AnyMessage::Mining(Mining::SetCustomMiningJobSuccess(x)) => Sv2Message::SetCustomMiningJobSuccess(x),
        AnyMessage::Mining(Mining::SetCustomMiningJobError(x)) => Sv2Message::SetCustomMiningJobError(x),
        AnyMessage::Mining(Mining::SetTarget(x)) => Sv2Message::SetTarget(x),
        AnyMessage::Mining(Mining::SetGroupChannel(x)) => Sv2Message::SetGroupChannel(x),
        AnyMessage::JobDeclaration(JobDeclaration::AllocateMiningJobToken(x)) => Sv2Message::AllocateMiningJobToken(x),
        AnyMessage::JobDeclaration(JobDeclaration::AllocateMiningJobTokenSuccess(x)) => Sv2Message::AllocateMiningJobTokenSuccess(x),
        AnyMessage::JobDeclaration(JobDeclaration::DeclareMiningJob(x)) => Sv2Message::DeclareMiningJob(x),
        AnyMessage::JobDeclaration(JobDeclaration::DeclareMiningJobSuccess(x)) => Sv2Message::DeclareMiningJobSuccess(x),
        AnyMessage::JobDeclaration(JobDeclaration::DeclareMiningJobError(x)) => Sv2Message::DeclareMiningJobError(x),
        AnyMessage::JobDeclaration(JobDeclaration::ProvideMissingTransactions(x)) => Sv2Message::ProvideMissingTransactions(x),
        AnyMessage::JobDeclaration(JobDeclaration::ProvideMissingTransactionsSuccess(x)) => Sv2Message::ProvideMissingTransactionsSuccess(x),
        AnyMessage::JobDeclaration(JobDeclaration::PushSolution(x)) => Sv2Message::PushSolution(x),
        AnyMessage::TemplateDistribution(TemplateDistribution::CoinbaseOutputConstraints(x)) => Sv2Message::CoinbaseOutputConstraints(x),
        AnyMessage::TemplateDistribution(TemplateDistribution::NewTemplate(x)) => Sv2Message::NewTemplate(x),
        AnyMessage::TemplateDistribution(TemplateDistribution::SetNewPrevHash(x)) => Sv2Message::SetNewPrevHashTemplateDistribution(x),
        AnyMessage::TemplateDistribution(TemplateDistribution::RequestTransactionData(x)) => Sv2Message::RequestTransactionData(x),
        AnyMessage::TemplateDistribution(TemplateDistribution::RequestTransactionDataSuccess(x)) => Sv2Message::RequestTransactionDataSuccess(x),
        AnyMessage::TemplateDistribution(TemplateDistribution::RequestTransactionDataError(x)) => Sv2Message::RequestTransactionDataError(x),
        AnyMessage::TemplateDistribution(TemplateDistribution::SubmitSolution(x)) => Sv2Message::SubmitSolution(x),
    }
}

/// The sub-protocol discriminant, where a message carries one, is defined.
pub open spec fn msg_protocol_ok(m: Sv2Message) -> bool {
    match m {
        Sv2Message::SetupConnection(x) => x.protocol <= MAX_PROTOCOL,
        _ => true,
    }
}

/// Every byte-vector and sequence field fits its wire bound.
pub open spec fn msg_bytes_ok(m: Sv2Message) -> bool {
    match m {
        Sv2Message::SetupConnection(_) => true,
        Sv2Message::SetupConnectionSuccess(_) => true,
        Sv2Message::SetupConnectionError(_) => true,
        Sv2Message::ChannelEndpointChanged(_) => true,
        Sv2Message::Reconnect(_) => true,
        Sv2Message::OpenStandardMiningChannel(x) => x.max_target@.len() == U256_LEN,
        Sv2Message::OpenStandardMiningChannelSuccess(x) => {
            &&& x.target@.len() == U256_LEN
            &&& x.extranonce_prefix@.len() <= MAX_B032
        },
        Sv2Message::OpenExtendedMiningChannel(x) => x.max_target@.len() == U256_LEN,
        Sv2Message::OpenExtendedMiningChannelSuccess(x) => {
            &&& x.target@.len() == U256_LEN
            &&& x.extranonce_prefix@.len() <= MAX_B032
        },
        Sv2Message::OpenMiningChannelError(_) => true,
        Sv2Message::UpdateChannel(x) => x.maximum_target@.len() == U256_LEN,
        Sv2Message::UpdateChannelError(_) => true,
        Sv2Message::CloseChannel(_) => true,
        Sv2Message::SetExtranoncePrefix(x) => x.extranonce_prefix@.len() <= MAX_B032,
        Sv2Message::SubmitSharesStandard(_) => true,
        Sv2Message::SubmitSharesExtended(x) => x.extranonce@.len() <= MAX_B032,
        Sv2Message::SubmitSharesSuccess(_) => true,
        Sv2Message::SubmitSharesError(_) => true,
        Sv2Message::NewMiningJob(x) => x.merkle_root@.len() == U256_LEN,
        Sv2Message::NewExtendedMiningJob(x) => {
            &&& valid_hash_list(x.merkle_path.deep_view())
            &&& x.coinbase_tx_prefix@.len() <= MAX_B064K
            &&& x.coinbase_tx_suffix@.len() <= MAX_B064K
        },
        Sv2Message::SetNewPrevHashMining(x) => x.prev_hash@.len() == U256_LEN,
        Sv2Message::SetCustomMiningJob(x) => {
            &&& x.mining_job_token@.len() <= MAX_B0255
            &&& x.prev_hash@.len() == U256_LEN
            &&& x.coinbase_prefix@.len() <= MAX_B0255
            &&& x.coinbase_tx_outputs@.len() <= MAX_B064K
            &&& valid_hash_list(x.merkle_path.deep_view())
        },
        Sv2Message::SetCustomMiningJobSuccess(_) => true,
        Sv2Message::SetCustomMiningJobError(_) => true,
        Sv2Message::SetTarget(x) => x.maximum_target@.len() == U256_LEN,
        Sv2Message::SetGroupChannel(x) => x.channel_ids@.len() <= MAX_SEQ064K,
        Sv2Message::AllocateMiningJobToken(_) => true,
        Sv2Message::AllocateMiningJobTokenSuccess(x) => {
            &&& x.mining_job_token@.len() <= MAX_B0255
            &&& x.coinbase_tx_outputs@.len() <= MAX_B064K
        },
        Sv2Message::DeclareMiningJob(x) => {
            &&& x.mining_job_token@.len() <= MAX_B0255
            &&& x.coinbase_tx_prefix@.len() <= MAX_B064K
            &&& x.coinbase_tx_suffix@.len() <= MAX_B064K
            &&& valid_long_hash_list(x.tx_ids_list.deep_view())
            &&& x.excess_data@.len() <= MAX_B064K
        },
        Sv2Message::DeclareMiningJobSuccess(x) => x.new_mining_job_token@.len() <= MAX_B0255,
        Sv2Message::DeclareMiningJobError(x) => x.error_details@.len() <= MAX_B064K,
        Sv2Message::ProvideMissingTransactions(x) => x.unknown_tx_position_list@.len() <= MAX_SEQ064K,
        Sv2Message::ProvideMissingTransactionsSuccess(x) => valid_tx_list(x.transaction_list.deep_view()),
        Sv2Message::PushSolution(x) => {
            &&& x.extranonce@.len() <= MAX_B032
            &&& x.prev_hash@.len() == U256_LEN
        },
        Sv2Message::CoinbaseOutputConstraints(_) => true,
        Sv2Message::NewTemplate(x) => {
            &&& x.coinbase_prefix@.len() <= MAX_B0255
            &&& x.coinbase_tx_outputs@.len() <= MAX_B064K
            &&& valid_hash_list(x.merkle_path.deep_view())
        },
        Sv2Message::SetNewPrevHashTemplateDistribution(x) => {
            &&& x.prev_hash@.len() == U256_LEN
            &&& x.target@.len() == U256_LEN
        },
        Sv2Message::RequestTransactionData(_) => true,
        Sv2Message::RequestTransactionDataSuccess(x) => {
            &&& x.excess_data@.len() <= MAX_B064K
            &&& valid_tx_list(x.transaction_list.deep_view())
        },
        Sv2Message::RequestTransactionDataError(_) => true,
        Sv2Message::SubmitSolution(x) => x.coinbase_tx@.len() <= MAX_B064K,
    }
}

/// Every string field fits its wire bound.
pub open spec fn msg_strings_ok(m: Sv2Message) -> bool {
    match m {
        Sv2Message::SetupConnection(x) => {
            &&& str_bytes_len(x.endpoint_host@) <= MAX_STR0255
            &&& str_bytes_len(x.vendor@) <= MAX_STR0255
            &&& str_bytes_len(x.hardware_version@) <= MAX_STR0255
            &&& str_bytes_len(x.firmware@) <= MAX_STR0255
            &&& str_bytes_len(x.device_id@) <= MAX_STR0255
        },
        Sv2Message::SetupConnectionSuccess(_) => true,
        Sv2Message::SetupConnectionError(x) => str_bytes_len(x.error_code@) <= MAX_STR0255,
        Sv2Message::ChannelEndpointChanged(_) => true,
        Sv2Message::Reconnect(x) => str_bytes_len(x.new_host@) <= MAX_STR0255,
        Sv2Message::OpenStandardMiningChannel(x) => str_bytes_len(x.user_identity@) <= MAX_STR0255,
        Sv2Message::OpenStandardMiningChannelSuccess(_) => true,
        Sv2Message::OpenExtendedMiningChannel(x) => str_bytes_len(x.user_identity@) <= MAX_STR0255,
        Sv2Message::OpenExtendedMiningChannelSuccess(_) => true,
        Sv2Message::OpenMiningChannelError(x) => str_bytes_len(x.error_code@) <= MAX_STR0255,
        Sv2Message::UpdateChannel(_) => true,
        Sv2Message::UpdateChannelError(x) => str_bytes_len(x.error_code@) <= MAX_STR0255,
        Sv2Message::CloseChannel(x) => str_bytes_len(x.reason_code@) <= MAX_STR0255,
        Sv2Message::SetExtranoncePrefix(_) => true,
        Sv2Message::SubmitSharesStandard(_) => true,
        Sv2Message::SubmitSharesExtended(_) => true,
        Sv2Message::SubmitSharesSuccess(_) => true,
        Sv2Message::SubmitSharesError(x) => str_bytes_len(x.error_code@) <= MAX_STR0255,
        Sv2Message::NewMiningJob(_) => true,
        Sv2Message::NewExtendedMiningJob(_) => true,
        Sv2Message::SetNewPrevHashMining(_) => true,
        Sv2Message::SetCustomMiningJob(_) => true,
        Sv2Message::SetCustomMiningJobSuccess(_) => true,
        Sv2Message::SetCustomMiningJobError(x) => str_bytes_len(x.error_code@) <= MAX_STR0255,
        Sv2Message::SetTarget(_) => true,
        Sv2Message::SetGroupChannel(_) => true,
        Sv2Message::AllocateMiningJobToken(x) => str_bytes_len(x.user_identifier@) <= MAX_STR0255,
        Sv2Message::AllocateMiningJobTokenSuccess(_) => true,
        Sv2Message::DeclareMiningJob(_) => true,
        Sv2Message::DeclareMiningJobSuccess(_) => true,
        Sv2Message::DeclareMiningJobError(x) => str_bytes_len(x.error_code@) <= MAX_STR0255,
        Sv2Message::ProvideMissingTransactions(_) => true,
        Sv2Message::ProvideMissingTransactionsSuccess(_) => true,
        Sv2Message::PushSolution(_) => true,
        Sv2Message::CoinbaseOutputConstraints(_) => true,
        Sv2Message::NewTemplate(_) => true,
        Sv2Message::SetNewPrevHashTemplateDistribution(_) => true,
        Sv2Message::RequestTransactionData(_) => true,
        Sv2Message::RequestTransactionDataSuccess(_) => true,
        Sv2Message::RequestTransactionDataError(x) => str_bytes_len(x.error_code@) <= MAX_STR0255,
        Sv2Message::SubmitSolution(_) => true,
    }
}

/// Checks a hash list: at most 255 entries, each exactly 32 bytes.
fn check_hash_list(l: &Vec<Vec<u8>>) -> (r: bool)
    ensures
        r == valid_hash_list(l.deep_view()),
{
    if l.len() > MAX_SEQ0255 {
        return false;
    }
    let mut i: usize = 0;
    while i < l.len()
        invariant
            i <= l@.len(),
            l@.len() <= MAX_SEQ0255,
            forall|k: int| 0 <= k < i ==> (#[trigger] l.deep_view()[k]).len() == U256_LEN,
        decreases l@.len() - i,
    {
        if l[i].len() != U256_LEN {
            proof {
                assert(l.deep_view()[i as int] == l@[i as int]@);
            }
            return false;
        }
        proof {
            assert(l.deep_view()[i as int] == l@[i as int]@);
        }
        i = i + 1;
    }
    true
}

/// Checks a long hash list: at most 65535 entries, each exactly 32 bytes.
fn check_long_hash_list(l: &Vec<Vec<u8>>) -> (r: bool)
    ensures
        r == valid_long_hash_list(l.deep_view()),
{
    if l.len() > MAX_SEQ064K {
        return false;
    }
    let mut i: usize = 0;
    while i < l.len()
        invariant
            i <= l@.len(),
            l@.len() <= MAX_SEQ064K,
            forall|k: int| 0 <= k < i ==> (#[trigger] l.deep_view()[k]).len() == U256_LEN,
        decreases l@.len() - i,
    {
        if l[i].len() != U256_LEN {
            proof {
                assert(l.deep_view()[i as int] == l@[i as int]@);
            }
            return false;
        }
        proof {
            assert(l.deep_view()[i as int] == l@[i as int]@);
        }
        i = i + 1;
    }
    true
}

/// Checks a transaction list: at most 65535 entries, each within the
/// transaction size bound.
fn check_tx_list(l: &Vec<Vec<u8>>) -> (r: bool)
    ensures
        r == valid_tx_list(l.deep_view()),
{
    if l.len() > MAX_SEQ064K {
        return false;
    }
    let mut i: usize = 0;
    while i < l.len()
        invariant
            i <= l@.len(),
            l@.len() <= MAX_SEQ064K,
            forall|k: int| 0 <= k < i ==> (#[trigger] l.deep_view()[k]).len() <= MAX_B016M,
        decreases l@.len() - i,
    {
        if l[i].len() > MAX_B016M {
            proof {
                assert(l.deep_view()[i as int] == l@[i as int]@);
            }
            return false;
        }
        proof {
            assert(l.deep_view()[i as int] == l@[i as int]@);
        }
        i = i + 1;
    }
    true
}

/// Translates a boundary message into the internal representation,
/// enforcing every wire bound.
///
/// Succeeds exactly on valid messages. On failure the error names the first
/// offending field kind: the sub-protocol discriminant, then byte-vector
/// and sequence fields, then string fields.
pub fn sv2_message_to_inner(m: Sv2Message) -> (r: Result<AnyMessage, Sv2MessageError>)
    ensures
        r is Ok <==> m.valid(),
        r is Ok ==> r->Ok_0 == inner_of(m),
        r == Result::<AnyMessage, Sv2MessageError>::Err(Sv2MessageError::FailedToConvertProtocol)
            <==> !msg_protocol_ok(m),
        r == Result::<AnyMessage, Sv2MessageError>::Err(Sv2MessageError::FailedToSerializeByteArray)
            <==> msg_protocol_ok(m) && !msg_bytes_ok(m),
        r == Result::<AnyMessage, Sv2MessageError>::Err(Sv2MessageError::FailedToSerializeString)
            <==> msg_protocol_ok(m) && msg_bytes_ok(m) && !msg_strings_ok(m),
{
    match m {
        Sv2Message::SetupConnection(x) => {
            if x.protocol > MAX_PROTOCOL {
                return Err(Sv2MessageError::FailedToConvertProtocol);
            }
            if string_byte_len(&x.endpoint_host) > MAX_STR0255 {
                return Err(Sv2MessageError::FailedToSerializeString);
            }
            if string_byte_len(&x.vendor) > MAX_STR0255 {
                return Err(Sv2MessageError::FailedToSerializeString);
            }
            if string_byte_len(&x.hardware_version) > MAX_STR0255 {
                return Err(Sv2MessageError::FailedToSerializeString);
            }
            if string_byte_len(&x.firmware) > MAX_STR0255 {
                return Err(Sv2MessageError::FailedToSerializeString);
            }
            if string_byte_len(&x.device_id) > MAX_STR0255 {
                return Err(Sv2MessageError::FailedToSerializeString);
            }
            Ok(AnyMessage::Common(CommonMessages::SetupConnection(x)))
        },
        Sv2Message::SetupConnectionSuccess(x) => {
            Ok(AnyMessage::Common(CommonMessages::SetupConnectionSuccess(x)))
        },
        Sv2Message::SetupConnectionError(x) => {
            if string_byte_len(&x.error_code) > MAX_STR0255 {
                return Err(Sv2MessageError::FailedToSerializeString);
            }
            Ok(AnyMessage::Common(CommonMessages::SetupConnectionError(x)))
        },
        Sv2Message::ChannelEndpointChanged(x) => {
            Ok(AnyMessage::Common(CommonMessages::ChannelEndpointChanged(x)))
        },
        Sv2Message::Reconnect(x) => {
            if string_byte_len(&x.new_host) > MAX_STR0255 {
                return Err(Sv2MessageError::FailedToSerializeString);
            }
            Ok(AnyMessage::Common(CommonMessages::Reconnect(x)))
        },
        Sv2Message::OpenStandardMiningChannel(x) => {
            if x.max_target.len() != U256_LEN {
                return Err(Sv2MessageError::FailedToSerializeByteArray);
            }
            if string_byte_len(&x.user_identity) > MAX_STR0255 {
                return Err(Sv2MessageError::FailedToSerializeString);
            }
            Ok(AnyMessage::Mining(Mining::OpenStandardMiningChannel(x)))
        },
        Sv2Message::OpenStandardMiningChannelSuccess(x) => {
            if x.target.len() != U256_LEN {
                return Err(Sv2MessageError::FailedToSerializeByteArray);
            }
            if x.extranonce_prefix.len() > MAX_B032 {
                return Err(Sv2MessageError::FailedToSerializeByteArray);
            }
            Ok(AnyMessage::Mining(Mining::OpenStandardMiningChannelSuccess(x)))
        },
        Sv2Message::OpenExtendedMiningChannel(x) => {
            if x.max_target.len() != U256_LEN {
                return Err(Sv2MessageError::FailedToSerializeByteArray);
            }
            if string_byte_len(&x.user_identity) > MAX_STR0255 {
                return Err(Sv2MessageError::FailedToSerializeString);
            }
            Ok(AnyMessage::Mining(Mining::OpenExtendedMiningChannel(x)))
        },
        Sv2Message::OpenExtendedMiningChannelSuccess(x) => {
            if x.target.len() != U256_LEN {
                return Err(Sv2MessageError::FailedToSerializeByteArray);
            }
            if x.extranonce_prefix.len() > MAX_B032 {
                return Err(Sv2MessageError::FailedToSerializeByteArray);
            }
            Ok(AnyMessage::Mining(Mining::OpenExtendedMiningChannelSuccess(x)))
        },
        Sv2Message::OpenMiningChannelError(x) => {
            if string_byte_len(&x.error_code) > MAX_STR0255 {
                return Err(Sv2MessageError::FailedToSerializeString);
            }
            Ok(AnyMessage::Mining(Mining::OpenMiningChannelError(x)))
        },
        Sv2Message::UpdateChannel(x) => {
            if x.maximum_target.len() != U256_LEN {
                return Err(Sv2MessageError::FailedToSerializeByteArray);
            }
            Ok(AnyMessage::Mining(Mining::UpdateChannel(x)))
        },
        Sv2Message::UpdateChannelError(x) => {
            if string_byte_len(&x.error_code) > MAX_STR0255 {
                return Err(Sv2MessageError::FailedToSerializeString);
            }
            Ok(AnyMessage::Mining(Mining::UpdateChannelError(x)))
        },
        Sv2Message::CloseChannel(x) => {
            if string_byte_len(&x.reason_code) > MAX_STR0255 {
                return Err(Sv2MessageError::FailedToSerializeString);
            }
            Ok(AnyMessage::Mining(Mining::CloseChannel(x)))
        },
        Sv2Message::SetExtranoncePrefix(x) => {
            if x.extranonce_prefix.len() > MAX_B032 {
                return Err(Sv2MessageError::FailedToSerializeByteArray);
            }
            Ok(AnyMessage::Mining(Mining::SetExtranoncePrefix(x)))
        },
        Sv2Message::SubmitSharesStandard(x) => {
            Ok(AnyMessage::Mining(Mining::SubmitSharesStandard(x)))
        },
        Sv2Message::SubmitSharesExtended(x) => {
            if x.extranonce.len() > MAX_B032 {
                return Err(Sv2MessageError::FailedToSerializeByteArray);
            }
            Ok(AnyMessage::Mining(Mining::SubmitSharesExtended(x)))
        },
        Sv2Message::SubmitSharesSuccess(x) => {
            Ok(AnyMessage::Mining(Mining::SubmitSharesSuccess(x)))
        },
        Sv2Message::SubmitSharesError(x) => {
            if string_byte_len(&x.error_code) > MAX_STR0255 {
                return Err(Sv2MessageError::FailedToSerializeString);
            }
            Ok(AnyMessage::Mining(Mining::SubmitSharesError(x)))
        },
        Sv2Message::NewMiningJob(x) => {
            if x.merkle_root.len() != U256_LEN {
                return Err(Sv2MessageError::FailedToSerializeByteArray);
            }
            Ok(AnyMessage::Mining(Mining::NewMiningJob(x)))
        },
        Sv2Message::NewExtendedMiningJob(x) => {
            if !check_hash_list(&x.merkle_path) {
                return Err(Sv2MessageError::FailedToSerializeByteArray);
            }
            if x.coinbase_tx_prefix.len() > MAX_B064K {
                return Err(Sv2MessageError::FailedToSerializeByteArray);
            }
            if x.coinbase_tx_suffix.len() > MAX_B064K {
                return Err(Sv2MessageError::FailedToSerializeByteArray);
            }
            Ok(AnyMessage::Mining(Mining::NewExtendedMiningJob(x)))
        },
        Sv2Message::SetNewPrevHashMining(x) => {
            if x.prev_hash.len() != U256_LEN {
                return Err(Sv2MessageError::FailedToSerializeByteArray);
            }
            Ok(AnyMessage::Mining(Mining::SetNewPrevHash(x)))
        },
        Sv2Message::SetCustomMiningJob(x) => {
            if x.mining_job_token.len() > MAX_B0255 {
                return Err(Sv2MessageError::FailedToSerializeByteArray);
            }
            if x.prev_hash.len() != U256_LEN {
                return Err(Sv2MessageError::FailedToSerializeByteArray);
            }
            if x.coinbase_prefix.len() > MAX_B0255 {
                return Err(Sv2MessageError::FailedToSerializeByteArray);
            }
            if x.coinbase_tx_outputs.len() > MAX_B064K {
                return Err(Sv2MessageError::FailedToSerializeByteArray);
            }
            if !check_hash_list(&x.merkle_path) {
                return Err(Sv2MessageError::FailedToSerializeByteArray);
            }
            Ok(AnyMessage::Mining(Mining::SetCustomMiningJob(x)))
        },
        Sv2Message::SetCustomMiningJobSuccess(x) => {
            Ok(AnyMessage::Mining(Mining::SetCustomMiningJobSuccess(x)))
        },
        Sv2Message::SetCustomMiningJobError(x) => {
            if string_byte_len(&x.error_code) > MAX_STR0255 {
                return Err(Sv2MessageError::FailedToSerializeString);
            }
            Ok(AnyMessage::Mining(Mining::SetCustomMiningJobError(x)))
        },
        Sv2Message::SetTarget(x) => {
            if x.maximum_target.len() != U256_LEN {
                return Err(Sv2MessageError::FailedToSerializeByteArray);
            }
            Ok(AnyMessage::Mining(Mining::SetTarget(x)))
        },
        Sv2Message::SetGroupChannel(x) => {
            if x.channel_ids.len() > MAX_SEQ064K {
                return Err(Sv2MessageError::FailedToSerializeByteArray);
            }
            Ok(AnyMessage::Mining(Mining::SetGroupChannel(x)))
        },
        Sv2Message::AllocateMiningJobToken(x) => {
            if string_byte_len(&x.user_identifier) > MAX_STR0255 {
                return Err(Sv2MessageError::FailedToSerializeString);
            }
            Ok(AnyMessage::JobDeclaration(JobDeclaration::AllocateMiningJobToken(x)))
        },
        Sv2Message::AllocateMiningJobTokenSuccess(x) => {
            if x.mining_job_token.len() > MAX_B0255 {
                return Err(Sv2MessageError::FailedToSerializeByteArray);
            }
            if x.coinbase_tx_outputs.len() > MAX_B064K {
                return Err(Sv2MessageError::FailedToSerializeByteArray);
            }
            Ok(AnyMessage::JobDeclaration(JobDeclaration::AllocateMiningJobTokenSuccess(x)))
        },
        Sv2Message::DeclareMiningJob(x) => {
            if x.mining_job_token.len() > MAX_B0255 {
                return Err(Sv2MessageError::FailedToSerializeByteArray);
            }
            if x.coinbase_tx_prefix.len() > MAX_B064K {
                return Err(Sv2MessageError::FailedToSerializeByteArray);
            }
            if x.coinbase_tx_suffix.len() > MAX_B064K {
                return Err(Sv2MessageError::FailedToSerializeByteArray);
            }
            if !check_long_hash_list(&x.tx_ids_list) {
                return Err(Sv2MessageError::FailedToSerializeByteArray);
            }
            if x.excess_data.len() > MAX_B064K {
                return Err(Sv2MessageError::FailedToSerializeByteArray);
            }
            Ok(AnyMessage::JobDeclaration(JobDeclaration::DeclareMiningJob(x)))
        },
        Sv2Message::DeclareMiningJobSuccess(x) => {
            if x.new_mining_job_token.len() > MAX_B0255 {
                return Err(Sv2MessageError::FailedToSerializeByteArray);
            }
            Ok(AnyMessage::JobDeclaration(JobDeclaration::DeclareMiningJobSuccess(x)))
        },
        Sv2Message::DeclareMiningJobError(x) => {
            if x.error_details.len() > MAX_B064K {
                return Err(Sv2MessageError::FailedToSerializeByteArray);
            }
            if string_byte_len(&x.error_code) > MAX_STR0255 {
                return Err(Sv2MessageError::FailedToSerializeString);
            }
            Ok(AnyMessage::JobDeclaration(JobDeclaration::DeclareMiningJobError(x)))
        },
        Sv2Message::ProvideMissingTransactions(x) => {
            if x.unknown_tx_position_list.len() > MAX_SEQ064K {
                return Err(Sv2MessageError::FailedToSerializeByteArray);
            }
            Ok(AnyMessage::JobDeclaration(JobDeclaration::ProvideMissingTransactions(x)))
        },
        Sv2Message::ProvideMissingTransactionsSuccess(x) => {
            if !check_tx_list(&x.transaction_list) {
                return Err(Sv2MessageError::FailedToSerializeByteArray);
            }
            Ok(AnyMessage::JobDeclaration(JobDeclaration::ProvideMissingTransactionsSuccess(x)))
        },
        Sv2Message::PushSolution(x) => {
            if x.extranonce.len() > MAX_B032 {
                return Err(Sv2MessageError::FailedToSerializeByteArray);
            }
            if x.prev_hash.len() != U256_LEN {
                return Err(Sv2MessageError::FailedToSerializeByteArray);
            }
            Ok(AnyMessage::JobDeclaration(JobDeclaration::PushSolution(x)))
        },
        Sv2Message::CoinbaseOutputConstraints(x) => {
            Ok(AnyMessage::TemplateDistribution(TemplateDistribution::CoinbaseOutputConstraints(x)))
        },
        Sv2Message::NewTemplate(x) => {
            if x.coinbase_prefix.len() > MAX_B0255 {
                return Err(Sv2MessageError::FailedToSerializeByteArray);
            }
            if x.coinbase_tx_outputs.len() > MAX_B064K {
                return Err(Sv2MessageError::FailedToSerializeByteArray);
            }
            if !check_hash_list(&x.merkle_path) {
                return Err(Sv2MessageError::FailedToSerializeByteArray);
            }
            Ok(AnyMessage::TemplateDistribution(TemplateDistribution::NewTemplate(x)))
        },
        Sv2Message::SetNewPrevHashTemplateDistribution(x) => {
            if x.prev_hash.len() != U256_LEN {
                return Err(Sv2MessageError::FailedToSerializeByteArray);
            }
            if x.target.len() != U256_LEN {
                return Err(Sv2MessageError::FailedToSerializeByteArray);
            }
            Ok(AnyMessage::TemplateDistribution(TemplateDistribution::SetNewPrevHash(x)))
        },
        Sv2Message::RequestTransactionData(x) => {
            Ok(AnyMessage::TemplateDistribution(TemplateDistribution::RequestTransactionData(x)))
        },
        Sv2Message::RequestTransactionDataSuccess(x) => {
            if x.excess_data.len() > MAX_B064K {
                return Err(Sv2MessageError::FailedToSerializeByteArray);
            }
            if !check_tx_list(&x.transaction_list) {
                return Err(Sv2MessageError::FailedToSerializeByteArray);
            }
            Ok(AnyMessage::TemplateDistribution(TemplateDistribution::RequestTransactionDataSuccess(x)))
        },
        Sv2Message::RequestTransactionDataError(x) => {
            if string_byte_len(&x.error_code) > MAX_STR0255 {
                return Err(Sv2MessageError::FailedToSerializeString);
            }
            Ok(AnyMessage::TemplateDistribution(TemplateDistribution::RequestTransactionDataError(x)))
        },
        Sv2Message::SubmitSolution(x) => {
            if x.coinbase_tx.len() > MAX_B064K {
                return Err(Sv2MessageError::FailedToSerializeByteArray);
            }
            Ok(AnyMessage::TemplateDistribution(TemplateDistribution::SubmitSolution(x)))
        },
    }
}

/// Translates an internal message back to its boundary form. Total: every
/// internal message kind maps to exactly one boundary message.
pub fn inner_to_sv2_message(inner: AnyMessage) -> (r: Sv2Message)
    ensures
        r == outer_of(inner),
{
    match inner {
        AnyMessage::Common(CommonMessages::SetupConnection(x)) => Sv2Message::SetupConnection(x),
        AnyMessage::Common(CommonMessages::SetupConnectionSuccess(x)) => Sv2Message::SetupConnectionSuccess(x),
        AnyMessage::Common(CommonMessages::SetupConnectionError(x)) => Sv2Message::SetupConnectionError(x),
        AnyMessage::Common(CommonMessages::ChannelEndpointChanged(x)) => Sv2Message::ChannelEndpointChanged(x),
        AnyMessage::Common(CommonMessages::Reconnect(x)) => Sv2Message::Reconnect(x),
        AnyMessage::Mining(Mining::OpenStandardMiningChannel(x)) => Sv2Message::OpenStandardMiningChannel(x),
        AnyMessage::Mining(Mining::OpenStandardMiningChannelSuccess(x)) => Sv2Message::OpenStandardMiningChannelSuccess(x),
        AnyMessage::Mining(Mining::OpenExtendedMiningChannel(x)) => Sv2Message::OpenExtendedMiningChannel(x),
        AnyMessage::Mining(Mining::OpenExtendedMiningChannelSuccess(x)) => Sv2Message::OpenExtendedMiningChannelSuccess(x),
        AnyMessage::Mining(Mining::OpenMiningChannelError(x)) => Sv2Message::OpenMiningChannelError(x),
        AnyMessage::Mining(Mining::UpdateChannel(x)) => Sv2Message::UpdateChannel(x),
        AnyMessage::Mining(Mining::UpdateChannelError(x)) => Sv2Message::UpdateChannelError(x),
        AnyMessage::Mining(Mining::CloseChannel(x)) => Sv2Message::CloseChannel(x),
        AnyMessage::Mining(Mining::SetExtranoncePrefix(x)) => Sv2Message::SetExtranoncePrefix(x),
        AnyMessage::Mining(Mining::SubmitSharesStandard(x)) => Sv2Message::SubmitSharesStandard(x),
        AnyMessage::Mining(Mining::SubmitSharesExtended(x)) => Sv2Message::SubmitSharesExtended(x),
        AnyMessage::Mining(Mining::SubmitSharesSuccess(x)) => Sv2Message::SubmitSharesSuccess(x),
        AnyMessage::Mining(Mining::SubmitSharesError(x)) => Sv2Message::SubmitSharesError(x),
        AnyMessage::Mining(Mining::NewMiningJob(x)) => Sv2Message::NewMiningJob(x),
        AnyMessage::Mining(Mining::NewExtendedMiningJob(x)) => Sv2Message::NewExtendedMiningJob(x),
        AnyMessage::Mining(Mining::SetNewPrevHash(x)) => Sv2Message::SetNewPrevHashMining(x),
        AnyMessage::Mining(Mining::SetCustomMiningJob(x)) => Sv2Message::SetCustomMiningJob(x),
        AnyMessage::Mining(Mining::SetCustomMiningJobSuccess(x)) => Sv2Message::SetCustomMiningJobSuccess(x),
        AnyMessage::Mining(Mining::SetCustomMiningJobError(x)) => Sv2Message::SetCustomMiningJobError(x),
        AnyMessage::Mining(Mining::SetTarget(x)) => Sv2Message::SetTarget(x),
        AnyMessage::Mining(Mining::SetGroupChannel(x)) => Sv2Message::SetGroupChannel(x),
        AnyMessage::JobDeclaration(JobDeclaration::AllocateMiningJobToken(x)) => Sv2Message::AllocateMiningJobToken(x),
        AnyMessage::JobDeclaration(JobDeclaration::AllocateMiningJobTokenSuccess(x)) => Sv2Message::AllocateMiningJobTokenSuccess(x),
        AnyMessage::JobDeclaration(JobDeclaration::DeclareMiningJob(x)) => Sv2Message::DeclareMiningJob(x),
        AnyMessage::JobDeclaration(JobDeclaration::DeclareMiningJobSuccess(x)) => Sv2Message::DeclareMiningJobSuccess(x),
        AnyMessage::JobDeclaration(JobDeclaration::DeclareMiningJobError(x)) => Sv2Message::DeclareMiningJobError(x),
        AnyMessage::JobDeclaration(JobDeclaration::ProvideMissingTransactions(x)) => Sv2Message::ProvideMissingTransactions(x),
        AnyMessage::JobDeclaration(JobDeclaration::ProvideMissingTransactionsSuccess(x)) => Sv2Message::ProvideMissingTransactionsSuccess(x),
        AnyMessage::JobDeclaration(JobDeclaration::PushSolution(x)) => Sv2Message::PushSolution(x),
        AnyMessage::TemplateDistribution(TemplateDistribution::CoinbaseOutputConstraints(x)) => Sv2Message::CoinbaseOutputConstraints(x),
        AnyMessage::TemplateDistribution(TemplateDistribution::NewTemplate(x)) => Sv2Message::NewTemplate(x),
        AnyMessage::TemplateDistribution(TemplateDistribution::SetNewPrevHash(x)) => Sv2Message::SetNewPrevHashTemplateDistribution(x),
        AnyMessage::TemplateDistribution(TemplateDistribution::RequestTransactionData(x)) => Sv2Message::RequestTransactionData(x),
        AnyMessage::TemplateDistribution(TemplateDistribution::RequestTransactionDataSuccess(x)) => Sv2Message::RequestTransactionDataSuccess(x),
        AnyMessage::TemplateDistribution(TemplateDistribution::RequestTransactionDataError(x)) => Sv2Message::RequestTransactionDataError(x),
        AnyMessage::TemplateDistribution(TemplateDistribution::SubmitSolution(x)) => Sv2Message::SubmitSolution(x),
    }
}

/// Translating a boundary message in and back out returns it unchanged.
///
/// With `sv2_message_to_inner`'s contract this says the translator loses
/// nothing: every valid message survives the round trip to the internal
/// representation bit for bit.
pub proof fn lemma_translate_round_trip(m: Sv2Message)
    ensures
        outer_of(inner_of(m)) == m,
{
}

/// Translating an internal message out and back in returns it unchanged,
/// whenever the boundary form is valid.
pub proof fn lemma_translate_round_trip_inner(i: AnyMessage)
    ensures
        inner_of(outer_of(i)) == i,
{
}

} // verus!
