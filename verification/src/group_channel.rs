//! The Group channel engine: a set of Standard channels sharing one
//! Extended-shaped job stream. The group builds one job per template and
//! each member installs it without re-deriving a coinbase.

use vstd::prelude::*;

verus! {

use crate::chain_tip::ChainTip;
use crate::coinbase::{build_cb_prefix, build_cb_suffix, build_script_head, copy_byte_list};
use crate::jobs::{ExtendedJobStore, Sv2ExtendedJob, Sv2ExtendedJobOrigin};
use crate::messages::{
    NewExtendedMiningJob, NewTemplate, SetNewPrevHashTemplateDistribution, Sv2Message,
    Sv2MessageError,
};
use crate::target::{le_val, Target};
use crate::translate::sv2_message_to_inner;
use crate::txout::TxOutput;
use crate::{FULL_EXTRANONCE_LEN, POOL_TAG_MAX_LEN};


/// The fields a group job derived from a template must hold: the whole
/// 32-byte extranonce space is left to the members, version rolling is
/// allowed, and the coinbase is split like any Extended job's.
pub open spec fn group_job_fields(
    j: Sv2ExtendedJob,
    job_id: u32,
    channel_id: u32,
    t: NewTemplate,
    tag: Seq<u8>,
    outputs: Vec<TxOutput>,
    min_ntime: Option<u32>,
) -> bool {
    crate::extended_channel::ext_job_fields(
        j,
        job_id,
        channel_id,
        t,
        Seq::<u8>::empty(),
        tag,
        outputs,
        min_ntime,
        true,
        FULL_EXTRANONCE_LEN as nat,
    )
}

/// Failures of the Group channel engine.
#[derive(Clone, Copy, PartialEq, Eq, Structural, Debug)]
pub enum Sv2ServerGroupChannelError {
    /// The state guarding a channel was unusable.
    LockError,
    /// No job is active on the group.
    FailedToGetActiveJob,
    /// The event did not carry an Extended job message.
    MessageIsNotNewExtendedMiningJob,
    /// The event did not carry a template message.
    MessageIsNotNewTemplate,
    /// The event did not carry a prev-hash message.
    MessageIsNotSetNewPrevHash,
    /// The template event could not be applied.
    FailedToProcessNewTemplate,
    /// A field of the event broke its wire bound.
    FailedToConvertMessage(Sv2MessageError),
    /// The prev-hash event could not be applied.
    FailedToProcessNewPrevHash,
}

/// A server-side Group channel: its member Standard channel ids and the
/// shared Extended-shaped job stream.
pub struct Sv2GroupChannelServer {
    group_channel_id: u32,
    standard_channel_ids: Vec<u32>,
    pool_tag: Vec<u8>,
    job_store: ExtendedJobStore,
    chain_tip: Option<ChainTip>,
    next_job_id: u32,
}

impl Sv2GroupChannelServer {
    /// The group's id.
    pub closed spec fn group_channel_id(&self) -> u32 {
        self.group_channel_id
    }

    /// The member Standard channel ids, in insertion order.
    pub closed spec fn members(&self) -> Seq<u32> {
        self.standard_channel_ids@
    }

    /// The member Standard channel ids as a set.
    pub open spec fn members_set(&self) -> Set<u32> {
        self.members().to_set()
    }

    /// The pool tag bytes embedded in every coinbase scriptSig.
    pub closed spec fn pool_tag_view(&self) -> Seq<u8> {
        self.pool_tag@
    }

    /// The future jobs, oldest first.
    pub closed spec fn future_jobs(&self) -> Seq<Sv2ExtendedJob> {
        self.job_store.future()
    }

    /// The active job, if one is bound to the chain tip.
    pub closed spec fn active_job(&self) -> Option<Sv2ExtendedJob> {
        self.job_store.active()
    }

    /// The retained past jobs, oldest first.
    pub closed spec fn past_jobs(&self) -> Seq<Sv2ExtendedJob> {
        self.job_store.past()
    }

    /// The chain tip, if one arrived.
    pub closed spec fn chain_tip(&self) -> Option<ChainTip> {
        self.chain_tip
    }

    /// The id the next created job will carry.
    pub closed spec fn next_job_id(&self) -> u32 {
        self.next_job_id
    }

    /// The group's invariant: member ids are unique and the pool tag fits
    /// a single push.
    pub open spec fn wf(&self) -> bool {
        &&& self.pool_tag_view().len() <= POOL_TAG_MAX_LEN
        &&& forall|i: int, k: int|
            0 <= i < k < self.members().len() ==> self.members()[i] != self.members()[k]
    }

    /// Opens a Group channel.
    ///
    /// Fails exactly when the pool tag exceeds a single push opcode.
    pub fn new(channel_id: u32, pool_tag_string: String) -> (r: Result<
        Self,
        Sv2ServerGroupChannelError,
    >)
        ensures
            r is Err <==> crate::messages::str_bytes_len(pool_tag_string@) > POOL_TAG_MAX_LEN,
            r is Err ==> r->Err_0 == Sv2ServerGroupChannelError::FailedToConvertMessage(
                Sv2MessageError::FailedToSerializeString,
            ),
            r is Ok ==> {
                let c = r->Ok_0;
                &&& c.wf()
                &&& c.group_channel_id() == channel_id
                &&& c.members().len() == 0
                &&& c.pool_tag_view() == vstd::utf8::encode_utf8(pool_tag_string@)
                &&& c.future_jobs().len() == 0
                &&& c.active_job() is None
                &&& c.past_jobs().len() == 0
                &&& c.chain_tip() is None
                &&& c.next_job_id() == 1
            },
    {
        let pool_tag = pool_tag_string.as_str().as_bytes_vec();
        if pool_tag.len() > POOL_TAG_MAX_LEN {
            return Err(
                Sv2ServerGroupChannelError::FailedToConvertMessage(
                    Sv2MessageError::FailedToSerializeString,
                ),
            );
        }
        Ok(
            Sv2GroupChannelServer {
                group_channel_id: channel_id,
                standard_channel_ids: Vec::new(),
                pool_tag,
                job_store: ExtendedJobStore::new(),
                chain_tip: None,
                next_job_id: 1,
            },
        )
    }

    /// Adds a member Standard channel id; adding a present id changes
    /// nothing.
    pub fn add_standard_channel_id(&mut self, standard_channel_id: u32) -> (r: Result<
        (),
        Sv2ServerGroupChannelError,
    >)
        requires
            old(self).wf(),
        ensures
            final(self).wf(),
            r is Ok,
            final(self).members_set() == old(self).members_set().insert(standard_channel_id),
            final(self).group_channel_id() == old(self).group_channel_id(),
            final(self).future_jobs() == old(self).future_jobs(),
            final(self).active_job() == old(self).active_job(),
            final(self).past_jobs() == old(self).past_jobs(),
            final(self).chain_tip() == old(self).chain_tip(),
            final(self).next_job_id() == old(self).next_job_id(),
            final(self).pool_tag_view() == old(self).pool_tag_view(),
    {
        let mut i: usize = 0;
        while i < self.standard_channel_ids.len()
            invariant
                i <= self.standard_channel_ids@.len(),
                *self == *old(self),
                old(self).wf(),
                forall|k: int|
                    0 <= k < i ==> self.standard_channel_ids@[k] != standard_channel_id,
            decreases self.standard_channel_ids@.len() - i,
        {
            if self.standard_channel_ids[i] == standard_channel_id {
                proof {
                    assert(self.standard_channel_ids@.contains(standard_channel_id));
                    assert(self.members_set() =~= self.members_set().insert(
                        standard_channel_id,
                    ));
                }
                return Ok(());
            }
            i = i + 1;
        }
        proof {
            if self.standard_channel_ids@.contains(standard_channel_id) {
                let k = choose|k: int|
                    0 <= k < self.standard_channel_ids@.len()
                        && self.standard_channel_ids@[k] == standard_channel_id;
            }
            assert(!self.standard_channel_ids@.contains(standard_channel_id));
        }
        let ghost oldseq = self.standard_channel_ids@;
        self.standard_channel_ids.push(standard_channel_id);
        proof {
            let newseq = self.standard_channel_ids@;
            assert forall|a: u32| #[trigger] newseq.contains(a) == (oldseq.contains(a) || a
                == standard_channel_id) by {
                if newseq.contains(a) {
                    let k = choose|k: int| 0 <= k < newseq.len() && newseq[k] == a;
                    if k < oldseq.len() {
                        assert(oldseq[k] == a);
                        assert(oldseq.contains(a));
                    }
                }
                if oldseq.contains(a) {
                    let k = choose|k: int| 0 <= k < oldseq.len() && oldseq[k] == a;
                    assert(newseq[k] == a);
                    assert(newseq.contains(a));
                }
                if a == standard_channel_id {
                    assert(newseq[newseq.len() - 1] == a);
                    assert(newseq.contains(a));
                }
            }
            assert(newseq.to_set() =~= oldseq.to_set().insert(standard_channel_id));
            assert forall|x: int, y: int|
                0 <= x < y < newseq.len() implies newseq[x] != newseq[y] by {
                assert(old(self).members() == oldseq);
                if y < oldseq.len() {
                    assert(old(self).members()[x] != old(self).members()[y]);
                    assert(newseq[x] == oldseq[x] && newseq[y] == oldseq[y]);
                } else {
                    assert(newseq[y] == standard_channel_id);
                    assert(newseq[x] == oldseq[x]);
                    if newseq[x] == standard_channel_id {
                        assert(oldseq.contains(standard_channel_id));
                    }
                }
            }
        }
        Ok(())
    }

    /// Removes a member Standard channel id; removing an absent id changes
    /// nothing.
    pub fn remove_standard_channel_id(&mut self, standard_channel_id: u32) -> (r: Result<
        (),
        Sv2ServerGroupChannelError,
    >)
        requires
            old(self).wf(),
        ensures
            final(self).wf(),
            r is Ok,
            final(self).members_set() == old(self).members_set().remove(standard_channel_id),
            final(self).group_channel_id() == old(self).group_channel_id(),
            final(self).future_jobs() == old(self).future_jobs(),
            final(self).active_job() == old(self).active_job(),
            final(self).past_jobs() == old(self).past_jobs(),
            final(self).chain_tip() == old(self).chain_tip(),
            final(self).next_job_id() == old(self).next_job_id(),
            final(self).pool_tag_view() == old(self).pool_tag_view(),
    {
        let mut i: usize = 0;
        while i < self.standard_channel_ids.len()
            invariant
                i <= self.standard_channel_ids@.len(),
                *self == *old(self),
                old(self).wf(),
                forall|k: int|
                    0 <= k < i ==> self.standard_channel_ids@[k] != standard_channel_id,
            decreases self.standard_channel_ids@.len() - i,
        {
            if self.standard_channel_ids[i] == standard_channel_id {
                let ghost oldseq = self.standard_channel_ids@;
                self.standard_channel_ids.remove(i);
                proof {
                    let newseq = self.standard_channel_ids@;
                    assert forall|a: u32| #[trigger] newseq.contains(a) == (oldseq.contains(a)
                        && a != standard_channel_id) by {
                        if newseq.contains(a) {
                            let k = choose|k: int| 0 <= k < newseq.len() && newseq[k] == a;
                            let ok = if k < i { k } else { k + 1 };
                            assert(oldseq[ok] == a);
                            assert(oldseq.contains(a));
                            if a == standard_channel_id {
                                assert(ok != i);
                                assert(oldseq[i as int] == standard_channel_id);
                                assert(old(self).members() == oldseq);
                                if ok < i {
                                    assert(old(self).members()[ok] != old(
                                        self,
                                    ).members()[i as int]);
                                } else {
                                    assert(old(self).members()[i as int] != old(
                                        self,
                                    ).members()[ok]);
                                }
                                assert(false);
                            }
                        }
                        if oldseq.contains(a) && a != standard_channel_id {
                            let k = choose|k: int| 0 <= k < oldseq.len() && oldseq[k] == a;
                            assert(k != i);
                            if k < i {
                                assert(newseq[k] == a);
                            } else {
                                assert(newseq[k - 1] == a);
                            }
                            assert(newseq.contains(a));
                        }
                    }
                    assert(newseq.to_set() =~= oldseq.to_set().remove(standard_channel_id));
                    assert forall|x: int, y: int|
                        0 <= x < y < newseq.len() implies newseq[x] != newseq[y] by {
                        let ox = if x < i { x } else { x + 1 };
                        let oy = if y < i { y } else { y + 1 };
                        assert(old(self).members() == oldseq);
                        assert(old(self).members()[ox] != old(self).members()[oy]);
                        assert(newseq[x] == oldseq[ox]);
                        assert(newseq[y] == oldseq[oy]);
                    }
                }
                return Ok(());
            }
            i = i + 1;
        }
        proof {
            if self.standard_channel_ids@.to_set().contains(standard_channel_id) {
                let k = choose|k: int|
                    0 <= k < self.standard_channel_ids@.len()
                        && self.standard_channel_ids@[k] == standard_channel_id;
            }
            assert(self.members_set() =~= self.members_set().remove(standard_channel_id));
        }
        Ok(())
    }

    /// Applies a new template: builds an Extended-shaped group job whose
    /// extranonce space is the whole 32 bytes, to be fanned out to every
    /// member.
    #[verifier::rlimit(100)]
    pub fn on_new_template(
        &mut self,
        template: NewTemplate,
        coinbase_reward_outputs: Vec<TxOutput>,
    ) -> (r: Result<(), Sv2ServerGroupChannelError>)
        requires
            old(self).wf(),
        ensures
            final(self).wf(),
            r == Result::<(), Sv2ServerGroupChannelError>::Err(
                Sv2ServerGroupChannelError::FailedToConvertMessage(
                    Sv2MessageError::FailedToSerializeByteArray,
                ),
            ) <==> !Sv2Message::NewTemplate(template).valid(),
            r == Result::<(), Sv2ServerGroupChannelError>::Err(
                Sv2ServerGroupChannelError::FailedToProcessNewTemplate,
            ) <==> Sv2Message::NewTemplate(template).valid() && (old(self).next_job_id()
                == u32::MAX || (!template.future_template && old(self).chain_tip() is None)),
            r is Err ==> *final(self) == *old(self),
            r is Ok <==> Sv2Message::NewTemplate(template).valid() && old(self).next_job_id()
                != u32::MAX && (template.future_template || old(self).chain_tip() is Some),
            r is Ok ==> {
                &&& final(self).members() == old(self).members()
                &&& final(self).chain_tip() == old(self).chain_tip()
                &&& final(self).next_job_id() == old(self).next_job_id() + 1
                &&& if template.future_template {
                    &&& final(self).future_jobs().len() == old(self).future_jobs().len() + 1
                    &&& final(self).future_jobs().subrange(
                        0,
                        old(self).future_jobs().len() as int,
                    ) == old(self).future_jobs()
                    &&& group_job_fields(
                        final(self).future_jobs().last(),
                        old(self).next_job_id(),
                        old(self).group_channel_id(),
                        template,
                        old(self).pool_tag_view(),
                        coinbase_reward_outputs,
                        None,
                    )
                    &&& final(self).active_job() == old(self).active_job()
                    &&& final(self).past_jobs() == old(self).past_jobs()
                } else {
                    &&& final(self).future_jobs() == old(self).future_jobs()
                    &&& final(self).active_job() is Some
                    &&& group_job_fields(
                        final(self).active_job()->0,
                        old(self).next_job_id(),
                        old(self).group_channel_id(),
                        template,
                        old(self).pool_tag_view(),
                        coinbase_reward_outputs,
                        Some(old(self).chain_tip()->0.min_ntime),
                    )
                }
            },
    {
        let msg = Sv2Message::NewTemplate(template);
        let inner = match sv2_message_to_inner(msg) {
            Ok(i) => i,
            Err(e) => {
                return Err(Sv2ServerGroupChannelError::FailedToConvertMessage(e));
            },
        };
        let t = match inner {
            crate::translate::AnyMessage::TemplateDistribution(
                crate::translate::TemplateDistribution::NewTemplate(t),
            ) => t,
            _ => {
                return Err(Sv2ServerGroupChannelError::MessageIsNotNewTemplate);
            },
        };
        if self.next_job_id == u32::MAX {
            return Err(Sv2ServerGroupChannelError::FailedToProcessNewTemplate);
        }
        let min_ntime: Option<u32> = if t.future_template {
            None
        } else {
            match &self.chain_tip {
                Some(tip) => Some(tip.min_ntime),
                None => {
                    return Err(Sv2ServerGroupChannelError::FailedToProcessNewTemplate);
                },
            }
        };
        let script_head = build_script_head(
            &t.coinbase_prefix,
            &self.pool_tag,
            FULL_EXTRANONCE_LEN as u8,
        );
        let script_len: usize = t.coinbase_prefix.len() + 1 + self.pool_tag.len() + 1
            + FULL_EXTRANONCE_LEN;
        let cb_tx_prefix = build_cb_prefix(t.coinbase_tx_version, &script_head, script_len);
        let cb_tx_suffix = build_cb_suffix(
            t.coinbase_tx_input_sequence,
            &coinbase_reward_outputs,
            t.coinbase_tx_locktime,
        );
        let merkle_path = copy_byte_list(&t.merkle_path);
        let job_id = self.next_job_id;
        self.next_job_id = self.next_job_id + 1;
        let future = t.future_template;
        let version = t.version;
        let job = Sv2ExtendedJob {
            job_id,
            channel_id: self.group_channel_id,
            origin: Sv2ExtendedJobOrigin::NewTemplate(t),
            extranonce_prefix: Vec::new(),
            coinbase_outputs: coinbase_reward_outputs,
            version,
            version_rolling_allowed: true,
            merkle_path,
            coinbase_tx_prefix: cb_tx_prefix,
            coinbase_tx_suffix: cb_tx_suffix,
            min_ntime,
            full_extranonce_len: FULL_EXTRANONCE_LEN,
        };
        proof {
            assert(job.extranonce_prefix@ =~= Seq::<u8>::empty());
        }
        if future {
            self.job_store.insert_future(job);
        } else {
            self.job_store.set_active(job);
        }
        proof {
            assert(self.members() == old(self).members());
            assert forall|x: int, y: int|
                0 <= x < y < self.members().len() implies self.members()[x]
                != self.members()[y] by {
                assert(old(self).members()[x] != old(self).members()[y]);
            }
        }
        Ok(())
    }

    /// Promotes the future job matching the event's template to active and
    /// installs the event's chain context as the group's tip.
    ///
    /// When no future job matches, nothing changes.
    #[verifier::rlimit(100)]
    pub fn on_set_new_prev_hash(&mut self, set_new_prev_hash: SetNewPrevHashTemplateDistribution) -> (r:
        Result<(), Sv2ServerGroupChannelError>)
        requires
            old(self).wf(),
        ensures
            final(self).wf(),
            r == Result::<(), Sv2ServerGroupChannelError>::Err(
                Sv2ServerGroupChannelError::FailedToConvertMessage(
                    Sv2MessageError::FailedToSerializeByteArray,
                ),
            ) <==> !Sv2Message::SetNewPrevHashTemplateDistribution(set_new_prev_hash).valid(),
            r == Result::<(), Sv2ServerGroupChannelError>::Err(
                Sv2ServerGroupChannelError::FailedToProcessNewPrevHash,
            ) <==> Sv2Message::SetNewPrevHashTemplateDistribution(set_new_prev_hash).valid()
                && (forall|i: int|
                0 <= i < old(self).future_jobs().len() ==> (#[trigger] old(
                    self,
                ).future_jobs()[i]).template_id_opt() != Some(set_new_prev_hash.template_id)),
            r is Ok <==> Sv2Message::SetNewPrevHashTemplateDistribution(set_new_prev_hash).valid()
                && (exists|i: int|
                0 <= i < old(self).future_jobs().len() && (#[trigger] old(
                    self,
                ).future_jobs()[i]).template_id_opt() == Some(set_new_prev_hash.template_id)),
            r is Err ==> *final(self) == *old(self),
            r is Ok ==> {
                let f = crate::jobs::first_ext_with_template(
                    old(self).future_jobs(),
                    set_new_prev_hash.template_id,
                );
                &&& final(self).members() == old(self).members()
                &&& final(self).next_job_id() == old(self).next_job_id()
                &&& 0 <= f < old(self).future_jobs().len()
                &&& final(self).future_jobs() == old(self).future_jobs().remove(f)
                &&& final(self).active_job() == Some(
                    Sv2ExtendedJob {
                        min_ntime: Some(set_new_prev_hash.header_timestamp),
                        ..old(self).future_jobs()[f]
                    },
                )
                &&& final(self).chain_tip() matches Some(tip) && tip.prev_hash@
                    == set_new_prev_hash.prev_hash@ && tip.nbits == set_new_prev_hash.nbits
                    && tip.min_ntime == set_new_prev_hash.header_timestamp
                    && tip.network_target.val() == le_val(set_new_prev_hash.target@)
            },
    {
        let msg = Sv2Message::SetNewPrevHashTemplateDistribution(set_new_prev_hash);
        let inner = match sv2_message_to_inner(msg) {
            Ok(i) => i,
            Err(e) => {
                return Err(Sv2ServerGroupChannelError::FailedToConvertMessage(e));
            },
        };
        let m = match inner {
            crate::translate::AnyMessage::TemplateDistribution(
                crate::translate::TemplateDistribution::SetNewPrevHash(m),
            ) => m,
            _ => {
                return Err(Sv2ServerGroupChannelError::MessageIsNotSetNewPrevHash);
            },
        };
        let promoted = self.job_store.promote(m.template_id, m.header_timestamp);
        if !promoted {
            return Err(Sv2ServerGroupChannelError::FailedToProcessNewPrevHash);
        }
        let network_target = Target::from_le_bytes(&m.target);
        self.chain_tip = Some(
            ChainTip {
                prev_hash: m.prev_hash,
                nbits: m.nbits,
                min_ntime: m.header_timestamp,
                network_target,
            },
        );
        proof {
            assert(self.members() == old(self).members());
            assert forall|x: int, y: int|
                0 <= x < y < self.members().len() implies self.members()[x]
                != self.members()[y] by {
                assert(old(self).members()[x] != old(self).members()[y]);
            }
        }
        Ok(())
    }

    /// The group's id.
    pub fn get_group_channel_id(&self) -> (r: u32)
        ensures
            r == self.group_channel_id(),
    {
        self.group_channel_id
    }

    /// The member Standard channel ids, in insertion order.
    pub fn get_standard_channel_ids(&self) -> (r: &Vec<u32>)
        ensures
            r@ == self.members(),
    {
        &self.standard_channel_ids
    }

    /// The active job as the wire message announcing it, or a failure when
    /// none is bound yet.
    pub fn get_active_job(&self) -> (r: Result<NewExtendedMiningJob, Sv2ServerGroupChannelError>)
        ensures
            match r {
                Ok(m) => self.active_job() matches Some(j) && m.channel_id == j.channel_id
                    && m.job_id == j.job_id && m.min_ntime == j.min_ntime && m.version
                    == j.version && m.version_rolling_allowed == j.version_rolling_allowed
                    && m.merkle_path.deep_view() == j.merkle_path.deep_view()
                    && m.coinbase_tx_prefix@ == j.coinbase_tx_prefix@ && m.coinbase_tx_suffix@
                    == j.coinbase_tx_suffix@,
                Err(e) => self.active_job() is None && e
                    == Sv2ServerGroupChannelError::FailedToGetActiveJob,
            },
    {
        match self.job_store.get_active_job() {
            Some(j) => Ok(j.get_job_message()),
            None => Err(Sv2ServerGroupChannelError::FailedToGetActiveJob),
        }
    }

    /// The future jobs, oldest first.
    pub fn get_future_jobs(&self) -> (r: &Vec<Sv2ExtendedJob>)
        ensures
            r@ == self.future_jobs(),
    {
        self.job_store.get_future_jobs()
    }

    /// The pairs of template id and future job id, oldest job first.
    pub fn get_future_template_to_job_id(&self) -> (r: Vec<(u64, u32)>)
        ensures
            r@ == crate::jobs::future_template_pairs(self.future_jobs()),
    {
        self.job_store.get_future_template_to_job_id()
    }
}

} // verus!
