//! The Standard channel engine: one miner, one job stream, shares
//! validated against a fixed merkle root per job.

use vstd::prelude::*;

verus! {

use crate::chain_tip::ChainTip;
use crate::coinbase::{
    build_coinbase_tx, build_header, build_script_sig, coinbase_tx_bytes, copy_byte_list,
    copy_bytes, concat_bytes, header_bytes, merkle_root, merkle_root_of, script_sig_of, sha256d,
    sha256d_of,
};
use crate::jobs::{StandardJobStore, Sv2ExtendedJob, Sv2ExtendedJobOrigin, Sv2StandardJob};
use crate::messages::{
    NewTemplate, SetNewPrevHashTemplateDistribution, SubmitSharesStandard, Sv2Message,
    Sv2MessageError,
};
use crate::share_accounting::{ShareAccounting, ShareValidationError, ShareValidationResult};
use crate::target::{hash_rate_to_target, le_val, pow2_256, Target};
use crate::translate::sv2_message_to_inner;
use crate::txout::TxOutput;
use crate::{MAX_FUTURE_BLOCK_TIME, NON_ROLLABLE_VERSION_MASK, POOL_TAG_MAX_LEN};

/// Failures of the Standard channel engine.
#[derive(Clone, Copy, PartialEq, Eq, Structural, Debug)]
pub enum Sv2ServerStandardChannelError {
    /// A construction parameter was out of range.
    FailedToCreateStandardChannel,
    /// The supplied maximum target is not exactly 32 bytes.
    BadMaxTarget,
    /// The state guarding a channel was unusable.
    LockError,
    /// The update's parameters were out of range.
    FailedToUpdateChannel,
    /// The event did not carry a template message.
    MessageIsNotNewTemplate,
    /// The event did not carry a prev-hash message.
    MessageIsNotSetNewPrevHash,
    /// The submission did not carry a Standard share message.
    MessageIsNotSubmitSharesStandard,
    /// The event did not carry a Standard job message.
    MessageIsNotNewMiningJob,
    /// The prev-hash event could not be applied.
    FailedToProcessNewPrevHash,
    /// A field of the event broke its wire bound.
    FailedToConvertMessage(Sv2MessageError),
    /// The template event could not be applied.
    FailedToProcessNewTemplate,
    /// The share was rejected; the reason is inside.
    ShareValidationError(ShareValidationError),
    /// No job is active on the channel.
    FailedToGetActiveJob,
    /// The group job could not be installed on this channel.
    FailedToProcessGroupChannelJob,
}

/// A server-side Standard channel: target state, share accounting and the
/// job store, mutated by template, prev-hash and share events.
pub struct Sv2StandardChannelServer {
    channel_id: u32,
    user_identity: String,
    extranonce_prefix: Vec<u8>,
    max_target: Target,
    target: Target,
    nominal_hashrate: u64,
    expected_share_per_minute: u64,
    hashes_per_share: u64,
    pool_tag: Vec<u8>,
    share_accounting: ShareAccounting,
    job_store: StandardJobStore,
    chain_tip: Option<ChainTip>,
    next_job_id: u32,
}

/// The expected hashes between shares for a device of hashrate `h` that
/// should find a share `spm` times a minute; zero when `spm` is zero.
pub open spec fn hashes_per_share_of(h: u64, spm: u64) -> int {
    if spm == 0 {
        0
    } else {
        (h * 60) / (spm as int)
    }
}

impl Sv2StandardChannelServer {
    /// The channel's id.
    pub closed spec fn channel_id(&self) -> u32 {
        self.channel_id
    }

    /// The miner identity the channel was opened for.
    pub closed spec fn user_identity_view(&self) -> Seq<char> {
        self.user_identity@
    }

    /// The extranonce prefix embedded in every job's coinbase.
    pub closed spec fn extranonce_prefix_view(&self) -> Seq<u8> {
        self.extranonce_prefix@
    }

    /// The ceiling the target never exceeds.
    pub closed spec fn max_target(&self) -> Target {
        self.max_target
    }

    /// The target shares must meet.
    pub closed spec fn target(&self) -> Target {
        self.target
    }

    /// The expected hashes between shares at the current hashrate.
    pub closed spec fn hashes_per_share(&self) -> u64 {
        self.hashes_per_share
    }

    /// The hashrate the channel last declared, in hashes per second.
    pub closed spec fn nominal_hashrate(&self) -> u64 {
        self.nominal_hashrate
    }

    /// The share frequency the pool expects, in shares per minute.
    pub closed spec fn expected_share_per_minute(&self) -> u64 {
        self.expected_share_per_minute
    }

    /// The pool tag bytes embedded in every coinbase scriptSig.
    pub closed spec fn pool_tag_view(&self) -> Seq<u8> {
        self.pool_tag@
    }

    /// The sequence numbers of every accepted share.
    pub closed spec fn seen(&self) -> Set<u32> {
        self.share_accounting.seen()
    }

    /// How many shares were accepted.
    pub closed spec fn accepted(&self) -> u32 {
        self.share_accounting.accepted()
    }

    /// The accumulated work of the accepted shares.
    pub closed spec fn work_sum(&self) -> u64 {
        self.share_accounting.work_sum()
    }

    /// The sequence number of the share accepted last.
    pub closed spec fn last_sequence_number(&self) -> u32 {
        self.share_accounting.last_sequence_number()
    }

    /// How many accepted shares trigger a batch acknowledgement.
    pub closed spec fn batch_size(&self) -> u32 {
        self.share_accounting.batch_size()
    }

    /// Accepted shares since the last batch acknowledgement.
    pub closed spec fn since_last_ack(&self) -> u32 {
        self.share_accounting.since_last_ack()
    }

    /// The future jobs, oldest first.
    pub closed spec fn future_jobs(&self) -> Seq<Sv2StandardJob> {
        self.job_store.future()
    }

    /// The active job, if one is bound to the chain tip.
    pub closed spec fn active_job(&self) -> Option<Sv2StandardJob> {
        self.job_store.active()
    }

    /// The retained past jobs, oldest first.
    pub closed spec fn past_jobs(&self) -> Seq<Sv2StandardJob> {
        self.job_store.past()
    }

    /// The ids of jobs evicted from the past window.
    pub closed spec fn stale_ids(&self) -> Seq<u32> {
        self.job_store.stale_ids()
    }

    /// The chain tip shares are validated against, if one arrived.
    pub closed spec fn chain_tip(&self) -> Option<ChainTip> {
        self.chain_tip
    }

    /// The id the next created job will carry.
    pub closed spec fn next_job_id(&self) -> u32 {
        self.next_job_id
    }

    /// The job a share with this id is validated against, if any: the
    /// active job when its id matches, else the first matching past job.
    pub open spec fn lookup_job(&self, job_id: u32) -> Option<Sv2StandardJob> {
        match self.active_job() {
            Some(a) if a.job_id == job_id => Some(a),
            _ => {
                let f = crate::jobs::first_std_with_id(self.past_jobs(), job_id);
                if f == -1 {
                    None
                } else {
                    Some(self.past_jobs()[f])
                }
            },
        }
    }

    /// The channel's invariant: the target never exceeds its ceiling, the
    /// work model is positive, and every job a share can resolve to carries
    /// a bound time and a 32-byte merkle root.
    pub open spec fn wf(&self) -> bool {
        &&& self.target().val() <= self.max_target().val()
        &&& self.hashes_per_share() >= 1
        &&& self.pool_tag_view().len() <= POOL_TAG_MAX_LEN
        &&& self.extranonce_prefix_view().len() <= 32
        &&& match self.chain_tip() {
            Some(t) => t.prev_hash@.len() == 32,
            None => true,
        }
        &&& match self.active_job() {
            Some(j) => j.min_ntime is Some && j.merkle_root@.len() == 32,
            None => true,
        }
        &&& forall|i: int|
            0 <= i < self.past_jobs().len() ==> (#[trigger] self.past_jobs()[i]).min_ntime is Some
                && self.past_jobs()[i].merkle_root@.len() == 32
        &&& forall|i: int|
            0 <= i < self.future_jobs().len() ==> (#[trigger] self.future_jobs()[i]).merkle_root@.len()
                == 32
    }

    /// The proof-of-work hash of a share against a job, under the channel's
    /// chain tip.
    pub open spec fn share_hash_of(&self, j: Sv2StandardJob, share: SubmitSharesStandard) -> Seq<
        u8,
    > {
        sha256d_of(
            header_bytes(
                share.version,
                self.chain_tip()->0.prev_hash@,
                j.merkle_root@,
                share.ntime,
                self.chain_tip()->0.nbits,
                share.nonce,
            ),
        )
    }

    /// Why this share would be rejected in the current state, if it would:
    /// the validation ladder, first failing rung first.
    pub open spec fn share_error_of(&self, share: SubmitSharesStandard) -> Option<
        ShareValidationError,
    > {
        match self.lookup_job(share.job_id) {
            None => if self.stale_ids().contains(share.job_id) {
                Some(ShareValidationError::Stale)
            } else {
                Some(ShareValidationError::InvalidJobId)
            },
            Some(j) => match self.chain_tip() {
                None => Some(ShareValidationError::NoChainTip),
                Some(tip) => {
                    let mn = j.min_ntime->0;
                    if share.ntime < mn || share.ntime > mn + MAX_FUTURE_BLOCK_TIME {
                        Some(ShareValidationError::Invalid)
                    } else if share.version & NON_ROLLABLE_VERSION_MASK != j.version
                        & NON_ROLLABLE_VERSION_MASK {
                        Some(ShareValidationError::Invalid)
                    } else if le_val(self.share_hash_of(j, share)) > self.target().val() {
                        Some(ShareValidationError::DoesNotMeetTarget)
                    } else if self.seen().contains(share.sequence_number) {
                        Some(ShareValidationError::DuplicateShare)
                    } else {
                        None
                    }
                },
            },
        }
    }

    /// True iff this share's hash also meets the network target, solving a
    /// block.
    pub open spec fn share_finds_block(&self, share: SubmitSharesStandard) -> bool {
        le_val(self.share_hash_of(self.lookup_job(share.job_id)->0, share)) <= self.chain_tip()->0
            .network_target.val()
    }

    /// How accepting one share moves the channel: the sequence number is
    /// recorded, the counters advance (saturating at their type bounds),
    /// and everything else stays.
    pub open spec fn accept_transition(
        pre: Self,
        post: Self,
        share: SubmitSharesStandard,
    ) -> bool {
        &&& post.seen() == pre.seen().insert(share.sequence_number)
        &&& post.accepted() == if pre.accepted() < u32::MAX {
            pre.accepted() + 1
        } else {
            u32::MAX as int
        }
        &&& post.work_sum() == if pre.work_sum() + pre.hashes_per_share() <= u64::MAX {
            pre.work_sum() + pre.hashes_per_share()
        } else {
            u64::MAX as int
        }
        &&& post.last_sequence_number() == share.sequence_number
        &&& post.since_last_ack() == if pre.since_last_ack() + 1 >= pre.batch_size() {
            0
        } else {
            pre.since_last_ack() + 1
        }
        &&& post.batch_size() == pre.batch_size()
        &&& post.target() == pre.target()
        &&& post.max_target() == pre.max_target()
        &&& post.hashes_per_share() == pre.hashes_per_share()
        &&& post.future_jobs() == pre.future_jobs()
        &&& post.active_job() == pre.active_job()
        &&& post.past_jobs() == pre.past_jobs()
        &&& post.stale_ids() == pre.stale_ids()
        &&& post.chain_tip() == pre.chain_tip()
        &&& post.channel_id() == pre.channel_id()
        &&& post.user_identity_view() == pre.user_identity_view()
        &&& post.extranonce_prefix_view() == pre.extranonce_prefix_view()
        &&& post.pool_tag_view() == pre.pool_tag_view()
        &&& post.next_job_id() == pre.next_job_id()
    }

    /// Opens a Standard channel.
    ///
    /// The initial target is derived from the declared hashrate and the
    /// expected share frequency, clamped to the requested ceiling, so it
    /// never exceeds `max_target`.
    pub fn new(
        channel_id: u32,
        user_identity: String,
        extranonce_prefix: Vec<u8>,
        max_target: Vec<u8>,
        nominal_hashrate: u64,
        share_batch_size: u32,
        expected_share_per_minute: u64,
        pool_tag_string: String,
    ) -> (r: Result<Self, Sv2ServerStandardChannelError>)
        ensures
            r is Ok <==> max_target@.len() == 32 && 1 <= hashes_per_share_of(
                nominal_hashrate,
                expected_share_per_minute,
            ) <= u64::MAX && le_val(max_target@) > 0 && extranonce_prefix@.len() <= 32
                && crate::messages::str_bytes_len(pool_tag_string@) <= POOL_TAG_MAX_LEN,
            r == Result::<Self, Sv2ServerStandardChannelError>::Err(
                Sv2ServerStandardChannelError::BadMaxTarget,
            ) <==> max_target@.len() != 32,
            r == Result::<Self, Sv2ServerStandardChannelError>::Err(
                Sv2ServerStandardChannelError::FailedToCreateStandardChannel,
            ) <==> max_target@.len() == 32 && !(1 <= hashes_per_share_of(
                nominal_hashrate,
                expected_share_per_minute,
            ) <= u64::MAX && le_val(max_target@) > 0 && extranonce_prefix@.len() <= 32
                && crate::messages::str_bytes_len(pool_tag_string@) <= POOL_TAG_MAX_LEN),
            r is Ok ==> {
                let c = r->Ok_0;
                &&& c.wf()
                &&& c.channel_id() == channel_id
                &&& c.user_identity_view() == user_identity@
                &&& c.extranonce_prefix_view() == extranonce_prefix@
                &&& c.max_target().val() == le_val(max_target@)
                &&& c.hashes_per_share() == hashes_per_share_of(
                    nominal_hashrate,
                    expected_share_per_minute,
                )
                &&& c.target().val() == if pow2_256() / (c.hashes_per_share() + 1) - 1 <= le_val(
                    max_target@,
                ) {
                    pow2_256() / (c.hashes_per_share() + 1) - 1
                } else {
                    le_val(max_target@)
                }
                &&& c.target().val() <= c.max_target().val()
                &&& c.seen() == Set::<u32>::empty()
                &&& c.accepted() == 0
                &&& c.work_sum() == 0
                &&& c.batch_size() == share_batch_size
                &&& c.future_jobs().len() == 0
                &&& c.active_job() is None
                &&& c.past_jobs().len() == 0
                &&& c.stale_ids().len() == 0
                &&& c.chain_tip() is None
                &&& c.next_job_id() == 1
            },
    {
        if max_target.len() != 32 {
            return Err(Sv2ServerStandardChannelError::BadMaxTarget);
        }
        if expected_share_per_minute == 0 {
            return Err(Sv2ServerStandardChannelError::FailedToCreateStandardChannel);
        }
        let prod: u128 = nominal_hashrate as u128 * 60;
        let hs128: u128 = prod / expected_share_per_minute as u128;
        if hs128 == 0 || hs128 > u64::MAX as u128 {
            return Err(Sv2ServerStandardChannelError::FailedToCreateStandardChannel);
        }
        let hashes_per_share = hs128 as u64;
        let max_t = Target::from_le_bytes(&max_target);
        if max_t.is_zero_target() {
            return Err(Sv2ServerStandardChannelError::FailedToCreateStandardChannel);
        }
        if extranonce_prefix.len() > 32 {
            return Err(Sv2ServerStandardChannelError::FailedToCreateStandardChannel);
        }
        let pool_tag = pool_tag_string.as_str().as_bytes_vec();
        if pool_tag.len() > POOL_TAG_MAX_LEN {
            return Err(Sv2ServerStandardChannelError::FailedToCreateStandardChannel);
        }
        let computed = hash_rate_to_target(hashes_per_share);
        let target = computed.min_of(&max_t);
        proof {
            crate::target::lemma_le_val_nonneg(max_target@);
        }
        Ok(
            Sv2StandardChannelServer {
                channel_id,
                user_identity,
                extranonce_prefix,
                max_target: max_t,
                target,
                nominal_hashrate,
                expected_share_per_minute,
                hashes_per_share,
                pool_tag,
                share_accounting: ShareAccounting::new(share_batch_size),
                job_store: StandardJobStore::new(),
                chain_tip: None,
                next_job_id: 1,
            },
        )
    }

    /// Recomputes the target for a new hashrate, optionally under a new
    /// ceiling, which must not exceed the current one: a request above the
    /// channel's configured maximum target is rejected. Succeeds or fails
    /// atomically: on failure nothing changes.
    pub fn update_channel(
        &mut self,
        nominal_hashrate: u64,
        requested_max_target: Option<Vec<u8>>,
    ) -> (r: Result<(), Sv2ServerStandardChannelError>)
        requires
            old(self).wf(),
        ensures
            final(self).wf(),
            r is Ok <==> {
                let mt_val = match requested_max_target {
                    Some(t) => le_val(t@),
                    None => old(self).max_target().val(),
                };
                &&& !(requested_max_target matches Some(t) && t@.len() != 32)
                &&& 1 <= hashes_per_share_of(
                    nominal_hashrate,
                    old(self).expected_share_per_minute(),
                ) <= u64::MAX
                &&& mt_val > 0
                &&& mt_val <= old(self).max_target().val()
            },
            r == Result::<(), Sv2ServerStandardChannelError>::Err(
                Sv2ServerStandardChannelError::BadMaxTarget,
            ) <==> (requested_max_target matches Some(t) && t@.len() != 32),
            r == Result::<(), Sv2ServerStandardChannelError>::Err(
                Sv2ServerStandardChannelError::FailedToUpdateChannel,
            ) <==> {
                let mt_val = match requested_max_target {
                    Some(t) => le_val(t@),
                    None => old(self).max_target().val(),
                };
                &&& !(requested_max_target matches Some(t) && t@.len() != 32)
                &&& !(1 <= hashes_per_share_of(
                    nominal_hashrate,
                    old(self).expected_share_per_minute(),
                ) <= u64::MAX && mt_val > 0 && mt_val <= old(self).max_target().val())
            },
            r is Err ==> *final(self) == *old(self),
            r is Ok ==> {
                let mt_val = match requested_max_target {
                    Some(t) => le_val(t@),
                    None => old(self).max_target().val(),
                };
                let hs = hashes_per_share_of(
                    nominal_hashrate,
                    old(self).expected_share_per_minute(),
                );
                &&& final(self).max_target().val() == mt_val
                &&& final(self).hashes_per_share() == hs
                &&& final(self).target().val() == if pow2_256() / (hs + 1) - 1 <= mt_val {
                    pow2_256() / (hs + 1) - 1
                } else {
                    mt_val
                }
                &&& final(self).target().val() <= final(self).max_target().val()
                &&& final(self).max_target().val() <= old(self).max_target().val()
                &&& final(self).seen() == old(self).seen()
                &&& final(self).accepted() == old(self).accepted()
                &&& final(self).work_sum() == old(self).work_sum()
                &&& final(self).future_jobs() == old(self).future_jobs()
                &&& final(self).active_job() == old(self).active_job()
                &&& final(self).past_jobs() == old(self).past_jobs()
                &&& final(self).stale_ids() == old(self).stale_ids()
                &&& final(self).chain_tip() == old(self).chain_tip()
                &&& final(self).channel_id() == old(self).channel_id()
                &&& final(self).next_job_id() == old(self).next_job_id()
            },
    {
        let max_t: Target = match &requested_max_target {
            Some(t) => {
                if t.len() != 32 {
                    return Err(Sv2ServerStandardChannelError::BadMaxTarget);
                }
                Target::from_le_bytes(t)
            },
            None => self.max_target,
        };
        if self.expected_share_per_minute == 0 {
            return Err(Sv2ServerStandardChannelError::FailedToUpdateChannel);
        }
        let prod: u128 = nominal_hashrate as u128 * 60;
        let hs128: u128 = prod / self.expected_share_per_minute as u128;
        if hs128 == 0 || hs128 > u64::MAX as u128 {
            return Err(Sv2ServerStandardChannelError::FailedToUpdateChannel);
        }
        let hashes_per_share = hs128 as u64;
        if max_t.is_zero_target() {
            return Err(Sv2ServerStandardChannelError::FailedToUpdateChannel);
        }
        if !max_t.le(&self.max_target) {
            return Err(Sv2ServerStandardChannelError::FailedToUpdateChannel);
        }
        proof {
            match requested_max_target {
                Some(t) => crate::target::lemma_le_val_nonneg(t@),
                None => {},
            }
        }
        let computed = hash_rate_to_target(hashes_per_share);
        let target = computed.min_of(&max_t);
        self.max_target = max_t;
        self.target = target;
        self.nominal_hashrate = nominal_hashrate;
        self.hashes_per_share = hashes_per_share;
        Ok(())
    }
}

/// The per-field equality of two templates, over views.
pub open spec fn template_views_eq(a: NewTemplate, b: NewTemplate) -> bool {
    &&& a.template_id == b.template_id
    &&& a.future_template == b.future_template
    &&& a.version == b.version
    &&& a.coinbase_tx_version == b.coinbase_tx_version
    &&& a.coinbase_prefix@ == b.coinbase_prefix@
    &&& a.coinbase_tx_input_sequence == b.coinbase_tx_input_sequence
    &&& a.coinbase_tx_value_remaining == b.coinbase_tx_value_remaining
    &&& a.coinbase_tx_outputs_count == b.coinbase_tx_outputs_count
    &&& a.coinbase_tx_outputs@ == b.coinbase_tx_outputs@
    &&& a.coinbase_tx_locktime == b.coinbase_tx_locktime
    &&& a.merkle_path.deep_view() == b.merkle_path.deep_view()
}

/// Copies a template record.
fn copy_template(t: &NewTemplate) -> (r: NewTemplate)
    ensures
        template_views_eq(r, *t),
{
    NewTemplate {
        template_id: t.template_id,
        future_template: t.future_template,
        version: t.version,
        coinbase_tx_version: t.coinbase_tx_version,
        coinbase_prefix: copy_bytes(&t.coinbase_prefix),
        coinbase_tx_input_sequence: t.coinbase_tx_input_sequence,
        coinbase_tx_value_remaining: t.coinbase_tx_value_remaining,
        coinbase_tx_outputs_count: t.coinbase_tx_outputs_count,
        coinbase_tx_outputs: copy_bytes(&t.coinbase_tx_outputs),
        coinbase_tx_locktime: t.coinbase_tx_locktime,
        merkle_path: copy_byte_list(&t.merkle_path),
    }
}

/// The fields a Standard job derived from a template must hold: its
/// coinbase is assembled from the template, the pool tag, the channel's
/// extranonce prefix and the reward outputs, and its merkle root folds the
/// coinbase's transaction id up the template's merkle path.
pub open spec fn std_job_fields(
    j: Sv2StandardJob,
    job_id: u32,
    channel_id: u32,
    t: NewTemplate,
    extranonce_prefix: Seq<u8>,
    tag: Seq<u8>,
    outputs: Vec<TxOutput>,
    min_ntime: Option<u32>,
) -> bool {
    let script = script_sig_of(t.coinbase_prefix@, tag, extranonce_prefix);
    let cb = coinbase_tx_bytes(
        t.coinbase_tx_version,
        script,
        t.coinbase_tx_input_sequence,
        outputs@,
        t.coinbase_tx_locktime,
    );
    &&& j.job_id == job_id
    &&& j.channel_id == channel_id
    &&& j.template == t
    &&& j.extranonce_prefix@ == extranonce_prefix
    &&& j.coinbase_outputs == outputs
    &&& j.coinbase_ser@ == cb
    &&& j.merkle_root@ == merkle_root_of(sha256d_of(cb), t.merkle_path.deep_view())
    &&& j.min_ntime == min_ntime
    &&& j.version == t.version
}

impl Sv2StandardChannelServer {
    /// What stays untouched when a template or prev-hash event only adds or
    /// promotes jobs: identity, targets, accounting and the work model.
    pub open spec fn non_job_state_eq(pre: Self, post: Self) -> bool {
        &&& post.channel_id() == pre.channel_id()
        &&& post.user_identity_view() == pre.user_identity_view()
        &&& post.extranonce_prefix_view() == pre.extranonce_prefix_view()
        &&& post.pool_tag_view() == pre.pool_tag_view()
        &&& post.max_target() == pre.max_target()
        &&& post.target() == pre.target()
        &&& post.hashes_per_share() == pre.hashes_per_share()
        &&& post.seen() == pre.seen()
        &&& post.accepted() == pre.accepted()
        &&& post.work_sum() == pre.work_sum()
        &&& post.last_sequence_number() == pre.last_sequence_number()
        &&& post.batch_size() == pre.batch_size()
        &&& post.since_last_ack() == pre.since_last_ack()
    }

    /// Applies a new template: builds a job from it and the pool's reward
    /// outputs. A future template queues a future job; a non-future
    /// template immediately becomes the active job under the current chain
    /// tip.
    pub fn on_new_template(
        &mut self,
        template: NewTemplate,
        coinbase_reward_outputs: Vec<TxOutput>,
    ) -> (r: Result<(), Sv2ServerStandardChannelError>)
        requires
            old(self).wf(),
        ensures
            final(self).wf(),
            r == Result::<(), Sv2ServerStandardChannelError>::Err(
                Sv2ServerStandardChannelError::FailedToConvertMessage(
                    Sv2MessageError::FailedToSerializeByteArray,
                ),
            ) <==> !Sv2Message::NewTemplate(template).valid(),
            r == Result::<(), Sv2ServerStandardChannelError>::Err(
                Sv2ServerStandardChannelError::FailedToProcessNewTemplate,
            ) <==> Sv2Message::NewTemplate(template).valid() && (old(self).next_job_id()
                == u32::MAX || (!template.future_template && old(self).chain_tip() is None)),
            r is Err ==> *final(self) == *old(self),
            r is Ok <==> Sv2Message::NewTemplate(template).valid() && old(self).next_job_id()
                != u32::MAX && (template.future_template || old(self).chain_tip() is Some),
            r is Ok ==> {
                &&& Self::non_job_state_eq(*old(self), *final(self))
                &&& final(self).chain_tip() == old(self).chain_tip()
                &&& final(self).next_job_id() == old(self).next_job_id() + 1
                &&& if template.future_template {
                    &&& final(self).future_jobs().len() == old(self).future_jobs().len() + 1
                    &&& final(self).future_jobs().subrange(
                        0,
                        old(self).future_jobs().len() as int,
                    ) == old(self).future_jobs()
                    &&& std_job_fields(
                        final(self).future_jobs().last(),
                        old(self).next_job_id(),
                        old(self).channel_id(),
                        template,
                        old(self).extranonce_prefix_view(),
                        old(self).pool_tag_view(),
                        coinbase_reward_outputs,
                        None,
                    )
                    &&& final(self).active_job() == old(self).active_job()
                    &&& final(self).past_jobs() == old(self).past_jobs()
                    &&& final(self).stale_ids() == old(self).stale_ids()
                } else {
                    &&& final(self).future_jobs() == old(self).future_jobs()
                    &&& final(self).active_job() is Some
                    &&& std_job_fields(
                        final(self).active_job()->0,
                        old(self).next_job_id(),
                        old(self).channel_id(),
                        template,
                        old(self).extranonce_prefix_view(),
                        old(self).pool_tag_view(),
                        coinbase_reward_outputs,
                        Some(old(self).chain_tip()->0.min_ntime),
                    )
                    &&& ({
                        let mid = match old(self).active_job() {
                            Some(a) => old(self).past_jobs().push(a),
                            None => old(self).past_jobs(),
                        };
                        if mid.len() > crate::jobs::MAX_PAST_JOBS {
                            &&& final(self).past_jobs() == mid.subrange(1, mid.len() as int)
                            &&& final(self).stale_ids() == old(self).stale_ids().push(
                                mid[0].job_id,
                            )
                        } else {
                            &&& final(self).past_jobs() == mid
                            &&& final(self).stale_ids() == old(self).stale_ids()
                        }
                    })
                }
            },
    {
        let msg = Sv2Message::NewTemplate(template);
        let inner = match sv2_message_to_inner(msg) {
            Ok(i) => i,
            Err(e) => {
                return Err(Sv2ServerStandardChannelError::FailedToConvertMessage(e));
            },
        };
        let t = match inner {
            crate::translate::AnyMessage::TemplateDistribution(
                crate::translate::TemplateDistribution::NewTemplate(t),
            ) => t,
            _ => {
                return Err(Sv2ServerStandardChannelError::MessageIsNotNewTemplate);
            },
        };
        if self.next_job_id == u32::MAX {
            return Err(Sv2ServerStandardChannelError::FailedToProcessNewTemplate);
        }
        let min_ntime: Option<u32> = if t.future_template {
            None
        } else {
            match &self.chain_tip {
                Some(tip) => Some(tip.min_ntime),
                None => {
                    return Err(Sv2ServerStandardChannelError::FailedToProcessNewTemplate);
                },
            }
        };
        let script_sig = build_script_sig(
            &t.coinbase_prefix,
            &self.pool_tag,
            &self.extranonce_prefix,
        );
        let coinbase_ser = build_coinbase_tx(
            t.coinbase_tx_version,
            &script_sig,
            t.coinbase_tx_input_sequence,
            &coinbase_reward_outputs,
            t.coinbase_tx_locktime,
        );
        let txid = sha256d(&coinbase_ser);
        let mroot = merkle_root(txid, &t.merkle_path);
        let job_id = self.next_job_id;
        self.next_job_id = self.next_job_id + 1;
        let future = t.future_template;
        let version = t.version;
        let job = Sv2StandardJob {
            job_id,
            channel_id: self.channel_id,
            template: t,
            extranonce_prefix: copy_bytes(&self.extranonce_prefix),
            coinbase_outputs: coinbase_reward_outputs,
            merkle_root: mroot,
            min_ntime,
            coinbase_ser,
            version,
        };
        if future {
            self.job_store.insert_future(job);
        } else {
            self.job_store.set_active(job);
        }
        Ok(())
    }

    /// Promotes the future job matching the event's template to active and
    /// installs the event's chain context as the channel's tip.
    ///
    /// When no future job matches, nothing changes.
    pub fn on_set_new_prev_hash(&mut self, set_new_prev_hash: SetNewPrevHashTemplateDistribution) -> (r:
        Result<(), Sv2ServerStandardChannelError>)
        requires
            old(self).wf(),
        ensures
            final(self).wf(),
            r == Result::<(), Sv2ServerStandardChannelError>::Err(
                Sv2ServerStandardChannelError::FailedToConvertMessage(
                    Sv2MessageError::FailedToSerializeByteArray,
                ),
            ) <==> !Sv2Message::SetNewPrevHashTemplateDistribution(set_new_prev_hash).valid(),
            r == Result::<(), Sv2ServerStandardChannelError>::Err(
                Sv2ServerStandardChannelError::FailedToProcessNewPrevHash,
            ) <==> Sv2Message::SetNewPrevHashTemplateDistribution(set_new_prev_hash).valid()
                && (forall|i: int|
                0 <= i < old(self).future_jobs().len() ==> (#[trigger] old(
                    self,
                ).future_jobs()[i]).template.template_id != set_new_prev_hash.template_id),
            r is Ok <==> Sv2Message::SetNewPrevHashTemplateDistribution(set_new_prev_hash).valid()
                && (exists|i: int|
                0 <= i < old(self).future_jobs().len() && (#[trigger] old(
                    self,
                ).future_jobs()[i]).template.template_id == set_new_prev_hash.template_id),
            r is Err ==> *final(self) == *old(self),
            r is Ok ==> {
                let f = crate::jobs::first_std_with_template(
                    old(self).future_jobs(),
                    set_new_prev_hash.template_id,
                );
                &&& Self::non_job_state_eq(*old(self), *final(self))
                &&& final(self).next_job_id() == old(self).next_job_id()
                &&& 0 <= f < old(self).future_jobs().len()
                &&& old(self).future_jobs()[f].template.template_id
                    == set_new_prev_hash.template_id
                &&& final(self).future_jobs() == old(self).future_jobs().remove(f)
                &&& final(self).active_job() == Some(
                    Sv2StandardJob {
                        min_ntime: Some(set_new_prev_hash.header_timestamp),
                        ..old(self).future_jobs()[f]
                    },
                )
                &&& ({
                    let mid = match old(self).active_job() {
                        Some(a) => old(self).past_jobs().push(a),
                        None => old(self).past_jobs(),
                    };
                    if mid.len() > crate::jobs::MAX_PAST_JOBS {
                        &&& final(self).past_jobs() == mid.subrange(1, mid.len() as int)
                        &&& final(self).stale_ids() == old(self).stale_ids().push(mid[0].job_id)
                    } else {
                        &&& final(self).past_jobs() == mid
                        &&& final(self).stale_ids() == old(self).stale_ids()
                    }
                })
                &&& final(self).chain_tip() matches Some(tip) && tip.prev_hash@
                    == set_new_prev_hash.prev_hash@ && tip.nbits == set_new_prev_hash.nbits
                    && tip.min_ntime == set_new_prev_hash.header_timestamp
                    && tip.network_target.val() == le_val(set_new_prev_hash.target@)
            },
    {
        let msg = Sv2Message::SetNewPrevHashTemplateDistribution(set_new_prev_hash);
        let inner = match sv2_message_to_inner(msg) {
            Ok(i) => i,
            Err(e) => {
                return Err(Sv2ServerStandardChannelError::FailedToConvertMessage(e));
            },
        };
        let m = match inner {
            crate::translate::AnyMessage::TemplateDistribution(
                crate::translate::TemplateDistribution::SetNewPrevHash(m),
            ) => m,
            _ => {
                return Err(Sv2ServerStandardChannelError::MessageIsNotSetNewPrevHash);
            },
        };
        let promoted = self.job_store.promote(m.template_id, m.header_timestamp);
        if !promoted {
            return Err(Sv2ServerStandardChannelError::FailedToProcessNewPrevHash);
        }
        let network_target = Target::from_le_bytes(&m.target);
        self.chain_tip = Some(
            ChainTip {
                prev_hash: m.prev_hash,
                nbits: m.nbits,
                min_ntime: m.header_timestamp,
                network_target,
            },
        );
        Ok(())
    }

    /// Validates a submitted share against the active and past jobs, the
    /// chain tip and the channel target, and folds an accepted share into
    /// the accounting.
    ///
    /// The rejection ladder is exactly `share_error_of`; a rejected share
    /// leaves the channel unchanged.
    pub fn validate_share(&mut self, share: SubmitSharesStandard) -> (r: Result<
        ShareValidationResult,
        Sv2ServerStandardChannelError,
    >)
        requires
            old(self).wf(),
        ensures
            final(self).wf(),
            r is Err <==> old(self).share_error_of(share) is Some,
            r is Err ==> r->Err_0 == Sv2ServerStandardChannelError::ShareValidationError(
                old(self).share_error_of(share)->0,
            ) && *final(self) == *old(self),
            r is Ok ==> Self::accept_transition(*old(self), *final(self), share),
            r is Ok ==> ((r->Ok_0 matches ShareValidationResult::BlockFound(tid, cb)) <==> old(
                self,
            ).share_finds_block(share)),
            r is Ok && old(self).share_finds_block(share) ==> (r->Ok_0 matches
                ShareValidationResult::BlockFound(tid, cb) && tid == Some(
                old(self).lookup_job(share.job_id)->0.template.template_id,
            ) && cb@ == old(self).lookup_job(share.job_id)->0.coinbase_ser@),
            r is Ok && !old(self).share_finds_block(share) ==> r->Ok_0 == (if old(
                self,
            ).since_last_ack() + 1 >= old(self).batch_size() {
                ShareValidationResult::ValidWithAcknowledgement(
                    share.sequence_number,
                    final(self).accepted(),
                    final(self).work_sum(),
                )
            } else {
                ShareValidationResult::Valid
            }),
    {
        let jid = share.job_id;
        let j_version: u32;
        let j_mn: u32;
        let j_merkle: Vec<u8>;
        let j_tid: u64;
        let j_cb: Vec<u8>;
        match self.job_store.get_job(jid) {
            None => {
                if self.job_store.is_stale(jid) {
                    return Err(
                        Sv2ServerStandardChannelError::ShareValidationError(
                            ShareValidationError::Stale,
                        ),
                    );
                } else {
                    return Err(
                        Sv2ServerStandardChannelError::ShareValidationError(
                            ShareValidationError::InvalidJobId,
                        ),
                    );
                }
            },
            Some(job) => {
                proof {
                    crate::jobs::lemma_first_std_with_id(self.past_jobs(), jid);
                }
                j_version = job.version;
                j_mn = match job.min_ntime {
                    Some(m) => m,
                    None => {
                        proof {
                            assert(false);
                        }
                        0
                    },
                };
                j_merkle = copy_bytes(&job.merkle_root);
                j_tid = job.template.template_id;
                j_cb = copy_bytes(&job.coinbase_ser);
            },
        }
        let tip_prev: Vec<u8>;
        let tip_nbits: u32;
        let tip_net: Target;
        match &self.chain_tip {
            Some(tip) => {
                tip_prev = copy_bytes(&tip.prev_hash);
                tip_nbits = tip.nbits;
                tip_net = tip.network_target;
            },
            None => {
                return Err(
                    Sv2ServerStandardChannelError::ShareValidationError(
                        ShareValidationError::NoChainTip,
                    ),
                );
            },
        }
        if share.ntime < j_mn || share.ntime as u64 > j_mn as u64 + MAX_FUTURE_BLOCK_TIME as u64 {
            return Err(
                Sv2ServerStandardChannelError::ShareValidationError(ShareValidationError::Invalid),
            );
        }
        if share.version & NON_ROLLABLE_VERSION_MASK != j_version & NON_ROLLABLE_VERSION_MASK {
            return Err(
                Sv2ServerStandardChannelError::ShareValidationError(ShareValidationError::Invalid),
            );
        }
        let header = build_header(
            share.version,
            &tip_prev,
            &j_merkle,
            share.ntime,
            tip_nbits,
            share.nonce,
        );
        let hash = sha256d(&header);
        let hash_t = Target::from_le_bytes(&hash);
        if !hash_t.le(&self.target) {
            return Err(
                Sv2ServerStandardChannelError::ShareValidationError(
                    ShareValidationError::DoesNotMeetTarget,
                ),
            );
        }
        if self.share_accounting.is_seen(share.sequence_number) {
            return Err(
                Sv2ServerStandardChannelError::ShareValidationError(
                    ShareValidationError::DuplicateShare,
                ),
            );
        }
        let work = self.hashes_per_share;
        let ack = self.share_accounting.record_share(share.sequence_number, work);
        if hash_t.le(&tip_net) {
            return Ok(ShareValidationResult::BlockFound(Some(j_tid), j_cb));
        }
        match ack {
            Some((last_seq, count, ws)) => Ok(
                ShareValidationResult::ValidWithAcknowledgement(last_seq, count, ws),
            ),
            None => Ok(ShareValidationResult::Valid),
        }
    }
}

impl Sv2StandardChannelServer {
    /// Installs a group channel's job on this channel.
    ///
    /// The group job's coinbase, reassembled around this channel's
    /// extranonce prefix padded with zeros to the job's full extranonce
    /// length, becomes the active Standard job; its merkle root folds the
    /// reassembled coinbase's id up the group job's merkle path.
    pub fn on_group_channel_job(&mut self, extended_job: &Sv2ExtendedJob) -> (r: Result<
        (),
        Sv2ServerStandardChannelError,
    >)
        requires
            old(self).wf(),
        ensures
            final(self).wf(),
            r is Err ==> *final(self) == *old(self) && r->Err_0
                == Sv2ServerStandardChannelError::FailedToProcessGroupChannelJob,
            r is Err <==> (extended_job.template_id_opt() is None || (extended_job.min_ntime
                is None && old(self).chain_tip() is None) || old(self).extranonce_prefix_view().len()
                > extended_job.full_extranonce_len || old(self).next_job_id() == u32::MAX),
            r is Ok ==> {
                let t = extended_job.origin->NewTemplate_0;
                let padded = old(self).extranonce_prefix_view() + Seq::new(
                    (extended_job.full_extranonce_len - old(
                        self,
                    ).extranonce_prefix_view().len()) as nat,
                    |i: int| 0u8,
                );
                let cb = extended_job.coinbase_tx_prefix@ + padded
                    + extended_job.coinbase_tx_suffix@;
                let mn = match extended_job.min_ntime {
                    Some(m) => m,
                    None => old(self).chain_tip()->0.min_ntime,
                };
                &&& Self::non_job_state_eq(*old(self), *final(self))
                &&& final(self).chain_tip() == old(self).chain_tip()
                &&& final(self).next_job_id() == old(self).next_job_id() + 1
                &&& final(self).future_jobs() == old(self).future_jobs()
                &&& final(self).active_job() matches Some(j) && {
                    &&& j.job_id == old(self).next_job_id()
                    &&& j.channel_id == old(self).channel_id()
                    &&& template_views_eq(j.template, t)
                    &&& j.extranonce_prefix@ == padded
                    &&& j.coinbase_ser@ == cb
                    &&& j.merkle_root@ == merkle_root_of(
                        sha256d_of(cb),
                        extended_job.merkle_path.deep_view(),
                    )
                    &&& j.min_ntime == Some(mn)
                    &&& j.version == extended_job.version
                }
                &&& ({
                    let mid = match old(self).active_job() {
                        Some(a) => old(self).past_jobs().push(a),
                        None => old(self).past_jobs(),
                    };
                    if mid.len() > crate::jobs::MAX_PAST_JOBS {
                        &&& final(self).past_jobs() == mid.subrange(1, mid.len() as int)
                        &&& final(self).stale_ids() == old(self).stale_ids().push(mid[0].job_id)
                    } else {
                        &&& final(self).past_jobs() == mid
                        &&& final(self).stale_ids() == old(self).stale_ids()
                    }
                })
            },
    {
        let t: &NewTemplate = match &extended_job.origin {
            Sv2ExtendedJobOrigin::NewTemplate(t) => t,
            Sv2ExtendedJobOrigin::SetCustomMiningJob(_) => {
                return Err(Sv2ServerStandardChannelError::FailedToProcessGroupChannelJob);
            },
        };
        let mn: u32 = match extended_job.min_ntime {
            Some(m) => m,
            None => match &self.chain_tip {
                Some(tip) => tip.min_ntime,
                None => {
                    return Err(Sv2ServerStandardChannelError::FailedToProcessGroupChannelJob);
                },
            },
        };
        if self.extranonce_prefix.len() > extended_job.full_extranonce_len {
            return Err(Sv2ServerStandardChannelError::FailedToProcessGroupChannelJob);
        }
        if self.next_job_id == u32::MAX {
            return Err(Sv2ServerStandardChannelError::FailedToProcessGroupChannelJob);
        }
        let mut padded = copy_bytes(&self.extranonce_prefix);
        let pad_len = extended_job.full_extranonce_len - self.extranonce_prefix.len();
        let mut z: usize = 0;
        let ghost base = padded@;
        while z < pad_len
            invariant
                z <= pad_len,
                padded@ == base + Seq::new(z as nat, |i: int| 0u8),
            decreases pad_len - z,
        {
            padded.push(0);
            z = z + 1;
            proof {
                assert(padded@ =~= base + Seq::new(z as nat, |i: int| 0u8));
            }
        }
        let with_ext = concat_bytes(&extended_job.coinbase_tx_prefix, &padded);
        let coinbase_ser = concat_bytes(&with_ext, &extended_job.coinbase_tx_suffix);
        proof {
            assert(coinbase_ser@ =~= extended_job.coinbase_tx_prefix@ + padded@
                + extended_job.coinbase_tx_suffix@);
        }
        let txid = sha256d(&coinbase_ser);
        let mroot = merkle_root(txid, &extended_job.merkle_path);
        let job_id = self.next_job_id;
        self.next_job_id = self.next_job_id + 1;
        let job = Sv2StandardJob {
            job_id,
            channel_id: self.channel_id,
            template: copy_template(t),
            extranonce_prefix: padded,
            coinbase_outputs: Vec::new(),
            merkle_root: mroot,
            min_ntime: Some(mn),
            coinbase_ser,
            version: extended_job.version,
        };
        self.job_store.set_active(job);
        Ok(())
    }

    /// The channel's id.
    pub fn get_channel_id(&self) -> (r: u32)
        ensures
            r == self.channel_id(),
    {
        self.channel_id
    }

    /// The channel target as 32 little-endian bytes.
    pub fn get_target(&self) -> (r: Vec<u8>)
        ensures
            r@.len() == 32,
            le_val(r@) == self.target().val(),
    {
        self.target.to_le_bytes()
    }

    /// The extranonce prefix embedded in every job's coinbase.
    pub fn get_extranonce_prefix(&self) -> (r: &Vec<u8>)
        ensures
            r@ == self.extranonce_prefix_view(),
    {
        &self.extranonce_prefix
    }

    /// The active job, or a failure when none is bound yet.
    pub fn get_active_job(&self) -> (r: Result<&Sv2StandardJob, Sv2ServerStandardChannelError>)
        ensures
            match r {
                Ok(j) => self.active_job() == Some(*j),
                Err(e) => self.active_job() is None && e
                    == Sv2ServerStandardChannelError::FailedToGetActiveJob,
            },
    {
        match self.job_store.get_active_job() {
            Some(j) => Ok(j),
            None => Err(Sv2ServerStandardChannelError::FailedToGetActiveJob),
        }
    }

    /// The future jobs, oldest first.
    pub fn get_future_jobs(&self) -> (r: &Vec<Sv2StandardJob>)
        ensures
            r@ == self.future_jobs(),
    {
        self.job_store.get_future_jobs()
    }

    /// The retained past jobs, oldest first.
    pub fn get_past_jobs(&self) -> (r: &Vec<Sv2StandardJob>)
        ensures
            r@ == self.past_jobs(),
    {
        self.job_store.get_past_jobs()
    }

    /// The pairs of template id and future job id, oldest job first.
    pub fn get_future_template_to_job_id(&self) -> (r: Vec<(u64, u32)>)
        ensures
            r@.len() == self.future_jobs().len(),
            forall|i: int|
                0 <= i < r@.len() ==> #[trigger] r@[i] == (
                    self.future_jobs()[i].template.template_id,
                    self.future_jobs()[i].job_id,
                ),
    {
        self.job_store.get_future_template_to_job_id()
    }
}

/// The channel target never exceeds the configured ceiling: for every
/// well-formed channel, whatever hashrate and ceiling produced it, the
/// target stays at or below the maximum target.
pub proof fn lemma_target_within_ceiling(c: Sv2StandardChannelServer)
    requires
        c.wf(),
    ensures
        c.target().val() <= c.max_target().val(),
{
}

/// A share whose recomputed hash is numerically greater than the channel
/// target is rejected as `DoesNotMeetTarget`; with `validate_share`'s
/// contract this forces an error result and an unchanged channel, so the
/// accepted count stays where it was.
pub proof fn lemma_share_above_target_rejected(
    c: Sv2StandardChannelServer,
    share: SubmitSharesStandard,
)
    requires
        c.wf(),
        c.lookup_job(share.job_id) is Some,
        c.chain_tip() is Some,
        c.lookup_job(share.job_id)->0.min_ntime->0 <= share.ntime <= c.lookup_job(
            share.job_id,
        )->0.min_ntime->0 + MAX_FUTURE_BLOCK_TIME,
        share.version & NON_ROLLABLE_VERSION_MASK == c.lookup_job(share.job_id)->0.version
            & NON_ROLLABLE_VERSION_MASK,
        le_val(c.share_hash_of(c.lookup_job(share.job_id)->0, share)) > c.target().val(),
    ensures
        c.share_error_of(share) == Some(ShareValidationError::DoesNotMeetTarget),
{
}

/// Submitting the same sequence number twice: once a share is accepted,
/// resubmitting it finds its sequence number recorded and nothing else
/// changed, so `validate_share`'s contract forces `DuplicateShare` the
/// second time, with the accepted count moved exactly once.
pub proof fn lemma_duplicate_share_rejected(
    pre: Sv2StandardChannelServer,
    mid: Sv2StandardChannelServer,
    share: SubmitSharesStandard,
)
    requires
        pre.wf(),
        pre.share_error_of(share) is None,
        Sv2StandardChannelServer::accept_transition(pre, mid, share),
    ensures
        mid.share_error_of(share) == Some(ShareValidationError::DuplicateShare),
        pre.accepted() < u32::MAX ==> mid.accepted() == pre.accepted() + 1,
{
}

} // verus!
