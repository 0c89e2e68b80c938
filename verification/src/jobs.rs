//! Jobs and the per-channel job store.
//!
//! A store partitions a channel's jobs into future jobs (waiting for a
//! matching chain tip), at most one active job, and a bounded window of
//! past jobs kept so that late shares against a just-superseded job can
//! still be validated. Jobs evicted from the window leave their id behind,
//! so a share against one is reported stale rather than unknown.

use vstd::prelude::*;

verus! {

use crate::coinbase::copy_bytes;
use crate::coinbase::copy_byte_list;
use crate::messages::{NewExtendedMiningJob, NewMiningJob, NewTemplate, SetCustomMiningJob};
use crate::txout::TxOutput;

/// How many past jobs a store retains under the current chain tip. The
/// retention policy is a fixed count, chosen so the immediately-prior job
/// always stays validatable.
pub const MAX_PAST_JOBS: usize = 4;

/// A job offered on a Standard channel: the merkle root is fixed at
/// creation, so the miner only rolls the header fields.
pub struct Sv2StandardJob {
    /// The id under which shares reference this job.
    pub job_id: u32,
    /// The channel this job was created for.
    pub channel_id: u32,
    /// The template this job was derived from.
    pub template: NewTemplate,
    /// The extranonce prefix embedded in the coinbase.
    pub extranonce_prefix: Vec<u8>,
    /// The reward outputs appended to the coinbase.
    pub coinbase_outputs: Vec<TxOutput>,
    /// The 32-byte merkle root shares commit to.
    pub merkle_root: Vec<u8>,
    /// The earliest header time a share may use; none while the job is
    /// future.
    pub min_ntime: Option<u32>,
    /// The serialized coinbase transaction.
    pub coinbase_ser: Vec<u8>,
    /// The header version the job advertises.
    pub version: u32,
}

impl Sv2StandardJob {
    /// The id under which shares reference this job.
    pub fn get_job_id(&self) -> (r: u32)
        ensures
            r == self.job_id,
    {
        self.job_id
    }

    /// The job as the wire message announcing it.
    pub fn get_job_message(&self) -> (r: NewMiningJob)
        ensures
            r.channel_id == self.channel_id,
            r.job_id == self.job_id,
            r.min_ntime == self.min_ntime,
            r.version == self.version,
            r.merkle_root@ == self.merkle_root@,
    {
        NewMiningJob {
            channel_id: self.channel_id,
            job_id: self.job_id,
            min_ntime: self.min_ntime,
            version: self.version,
            merkle_root: copy_bytes(&self.merkle_root),
        }
    }

    /// The template this job was derived from.
    pub fn get_template(&self) -> (r: &NewTemplate)
        ensures
            r == &self.template,
    {
        &self.template
    }

    /// The extranonce prefix embedded in the coinbase.
    pub fn get_extranonce_prefix(&self) -> (r: &Vec<u8>)
        ensures
            r == &self.extranonce_prefix,
    {
        &self.extranonce_prefix
    }

    /// The reward outputs appended to the coinbase.
    pub fn get_coinbase_outputs(&self) -> (r: &Vec<TxOutput>)
        ensures
            r == &self.coinbase_outputs,
    {
        &self.coinbase_outputs
    }
}

/// Where an Extended job came from.
pub enum Sv2ExtendedJobOrigin {
    /// Derived from a block template.
    NewTemplate(NewTemplate),
    /// Declared by the miner or pool, bypassing the template pipeline.
    SetCustomMiningJob(SetCustomMiningJob),
}

/// A job offered on an Extended or Group channel: the miner rolls its own
/// extranonce, so the coinbase travels split around the extranonce bytes.
pub struct Sv2ExtendedJob {
    /// The id under which shares reference this job.
    pub job_id: u32,
    /// The channel this job was created for.
    pub channel_id: u32,
    /// Where this job came from.
    pub origin: Sv2ExtendedJobOrigin,
    /// The extranonce prefix the full extranonce must start with.
    pub extranonce_prefix: Vec<u8>,
    /// The reward outputs appended to the coinbase.
    pub coinbase_outputs: Vec<TxOutput>,
    /// The header version the job advertises.
    pub version: u32,
    /// Whether shares may roll the version bits.
    pub version_rolling_allowed: bool,
    /// The merkle path folded over the coinbase transaction id.
    pub merkle_path: Vec<Vec<u8>>,
    /// The serialized coinbase up to the full extranonce.
    pub coinbase_tx_prefix: Vec<u8>,
    /// The serialized coinbase after the full extranonce.
    pub coinbase_tx_suffix: Vec<u8>,
    /// The earliest header time a share may use; none while the job is
    /// future.
    pub min_ntime: Option<u32>,
    /// How many bytes the full extranonce holds.
    pub full_extranonce_len: usize,
}

impl Sv2ExtendedJob {
    /// The id under which shares reference this job.
    pub fn get_job_id(&self) -> (r: u32)
        ensures
            r == self.job_id,
    {
        self.job_id
    }

    /// The job as the wire message announcing it.
    pub fn get_job_message(&self) -> (r: NewExtendedMiningJob)
        ensures
            r.channel_id == self.channel_id,
            r.job_id == self.job_id,
            r.min_ntime == self.min_ntime,
            r.version == self.version,
            r.version_rolling_allowed == self.version_rolling_allowed,
            r.merkle_path.deep_view() == self.merkle_path.deep_view(),
            r.coinbase_tx_prefix@ == self.coinbase_tx_prefix@,
            r.coinbase_tx_suffix@ == self.coinbase_tx_suffix@,
    {
        NewExtendedMiningJob {
            channel_id: self.channel_id,
            job_id: self.job_id,
            min_ntime: self.min_ntime,
            version: self.version,
            version_rolling_allowed: self.version_rolling_allowed,
            merkle_path: copy_byte_list(&self.merkle_path),
            coinbase_tx_prefix: copy_bytes(&self.coinbase_tx_prefix),
            coinbase_tx_suffix: copy_bytes(&self.coinbase_tx_suffix),
        }
    }

    /// Where this job came from.
    pub fn get_job_origin(&self) -> (r: &Sv2ExtendedJobOrigin)
        ensures
            r == &self.origin,
    {
        &self.origin
    }

    /// The id of the template this job was derived from, if it was.
    pub open spec fn template_id_opt(&self) -> Option<u64> {
        match self.origin {
            Sv2ExtendedJobOrigin::NewTemplate(t) => Some(t.template_id),
            Sv2ExtendedJobOrigin::SetCustomMiningJob(_) => None,
        }
    }

    /// The extranonce prefix the full extranonce must start with.
    pub fn get_extranonce_prefix(&self) -> (r: &Vec<u8>)
        ensures
            r == &self.extranonce_prefix,
    {
        &self.extranonce_prefix
    }

    /// The reward outputs appended to the coinbase.
    pub fn get_coinbase_outputs(&self) -> (r: &Vec<TxOutput>)
        ensures
            r == &self.coinbase_outputs,
    {
        &self.coinbase_outputs
    }
}

// ---------------------------------------------------------------------------
// the store for Standard jobs
// ---------------------------------------------------------------------------

/// The first index in `s` of a job with this id, or -1.
pub open spec fn first_std_with_id(s: Seq<Sv2StandardJob>, id: u32) -> int
    decreases s.len(),
{
    if s.len() == 0 {
        -1
    } else if s[0].job_id == id {
        0
    } else {
        let r = first_std_with_id(s.drop_first(), id);
        if r == -1 {
            -1
        } else {
            r + 1
        }
    }
}

/// What `first_std_with_id` finds: -1 means no match, otherwise the least
/// matching index.
pub proof fn lemma_first_std_with_id(s: Seq<Sv2StandardJob>, id: u32)
    ensures
        first_std_with_id(s, id) == -1 ==> forall|i: int|
            0 <= i < s.len() ==> (#[trigger] s[i]).job_id != id,
        first_std_with_id(s, id) != -1 ==> {
            let f = first_std_with_id(s, id);
            &&& 0 <= f < s.len()
            &&& s[f].job_id == id
            &&& forall|i: int| 0 <= i < f ==> (#[trigger] s[i]).job_id != id
        },
    decreases s.len(),
{
    if s.len() > 0 && s[0].job_id != id {
        lemma_first_std_with_id(s.drop_first(), id);
        let r = first_std_with_id(s.drop_first(), id);
        if r == -1 {
            assert forall|i: int| 0 <= i < s.len() implies (#[trigger] s[i]).job_id != id by {
                if i > 0 {
                    assert(s.drop_first()[i - 1] == s[i]);
                }
            }
        } else {
            assert(s[r + 1] == s.drop_first()[r]);
            assert forall|i: int| 0 <= i < r + 1 implies (#[trigger] s[i]).job_id != id by {
                if i > 0 {
                    assert(s.drop_first()[i - 1] == s[i]);
                }
            }
        }
    }
}

/// The first index in `s` of a job derived from this template, or -1.
pub open spec fn first_std_with_template(s: Seq<Sv2StandardJob>, template_id: u64) -> int
    decreases s.len(),
{
    if s.len() == 0 {
        -1
    } else if s[0].template.template_id == template_id {
        0
    } else {
        let r = first_std_with_template(s.drop_first(), template_id);
        if r == -1 {
            -1
        } else {
            r + 1
        }
    }
}

/// What `first_std_with_template` finds.
pub proof fn lemma_first_std_with_template(s: Seq<Sv2StandardJob>, template_id: u64)
    ensures
        first_std_with_template(s, template_id) == -1 ==> forall|i: int|
            0 <= i < s.len() ==> (#[trigger] s[i]).template.template_id != template_id,
        first_std_with_template(s, template_id) != -1 ==> {
            let f = first_std_with_template(s, template_id);
            &&& 0 <= f < s.len()
            &&& s[f].template.template_id == template_id
            &&& forall|i: int|
                0 <= i < f ==> (#[trigger] s[i]).template.template_id != template_id
        },
    decreases s.len(),
{
    if s.len() > 0 && s[0].template.template_id != template_id {
        lemma_first_std_with_template(s.drop_first(), template_id);
        let r = first_std_with_template(s.drop_first(), template_id);
        if r == -1 {
            assert forall|i: int|
                0 <= i < s.len() implies (#[trigger] s[i]).template.template_id != template_id by {
                if i > 0 {
                    assert(s.drop_first()[i - 1] == s[i]);
                }
            }
        } else {
            assert(s[r + 1] == s.drop_first()[r]);
            assert forall|i: int|
                0 <= i < r + 1 implies (#[trigger] s[i]).template.template_id != template_id by {
                if i > 0 {
                    assert(s.drop_first()[i - 1] == s[i]);
                }
            }
        }
    }
}

/// The job store of a Standard channel.
pub struct StandardJobStore {
    future: Vec<Sv2StandardJob>,
    active: Option<Sv2StandardJob>,
    past: Vec<Sv2StandardJob>,
    stale_ids: Vec<u32>,
}

impl StandardJobStore {
    /// The future jobs, oldest first.
    pub closed spec fn future(&self) -> Seq<Sv2StandardJob> {
        self.future@
    }

    /// The active job, if one is bound to the chain tip.
    pub closed spec fn active(&self) -> Option<Sv2StandardJob> {
        self.active
    }

    /// The retained past jobs, oldest first.
    pub closed spec fn past(&self) -> Seq<Sv2StandardJob> {
        self.past@
    }

    /// The ids of jobs evicted from the past window.
    pub closed spec fn stale_ids(&self) -> Seq<u32> {
        self.stale_ids@
    }

    /// The job a share with this id is validated against: the active job,
    /// else the first matching past job.
    pub open spec fn lookup(&self, job_id: u32) -> Option<Sv2StandardJob> {
        match self.active() {
            Some(a) if a.job_id == job_id => Some(a),
            _ => {
                let f = first_std_with_id(self.past(), job_id);
                if f == -1 {
                    None
                } else {
                    Some(self.past()[f])
                }
            },
        }
    }

    /// An empty store.
    pub fn new() -> (r: StandardJobStore)
        ensures
            r.future() == Seq::<Sv2StandardJob>::empty(),
            r.active() is None,
            r.past() == Seq::<Sv2StandardJob>::empty(),
            r.stale_ids() == Seq::<u32>::empty(),
    {
        let r = StandardJobStore { future: Vec::new(), active: None, past: Vec::new(), stale_ids: Vec::new() };
        proof {
            assert(r.future() =~= Seq::<Sv2StandardJob>::empty());
            assert(r.past() =~= Seq::<Sv2StandardJob>::empty());
            assert(r.stale_ids() =~= Seq::<u32>::empty());
        }
        r
    }

    /// Adds a job to the future set.
    pub fn insert_future(&mut self, job: Sv2StandardJob)
        ensures
            final(self).future() == old(self).future().push(job),
            final(self).active() == old(self).active(),
            final(self).past() == old(self).past(),
            final(self).stale_ids() == old(self).stale_ids(),
    {
        self.future.push(job);
    }

    /// Retires the active job, if any, into the past window, evicting the
    /// oldest past job to the stale ids when the window overflows.
    fn retire_active(&mut self)
        ensures
            final(self).future() == old(self).future(),
            final(self).active() is None,
            ({
                let mid = match old(self).active() {
                    Some(a) => old(self).past().push(a),
                    None => old(self).past(),
                };
                if mid.len() > MAX_PAST_JOBS {
                    &&& final(self).past() == mid.subrange(1, mid.len() as int)
                    &&& final(self).stale_ids() == old(self).stale_ids().push(mid[0].job_id)
                } else {
                    &&& final(self).past() == mid
                    &&& final(self).stale_ids() == old(self).stale_ids()
                }
            }),
    {
        let active = self.active.take();
        match active {
            Some(a) => {
                self.past.push(a);
            },
            None => {},
        }
        if self.past.len() > MAX_PAST_JOBS {
            let evicted = self.past.remove(0);
            self.stale_ids.push(evicted.job_id);
        }
    }

    /// Installs a job as the active one; the previous active job, if any,
    /// moves into the past window.
    pub fn set_active(&mut self, job: Sv2StandardJob)
        ensures
            final(self).future() == old(self).future(),
            final(self).active() == Some(job),
            ({
                let mid = match old(self).active() {
                    Some(a) => old(self).past().push(a),
                    None => old(self).past(),
                };
                if mid.len() > MAX_PAST_JOBS {
                    &&& final(self).past() == mid.subrange(1, mid.len() as int)
                    &&& final(self).stale_ids() == old(self).stale_ids().push(mid[0].job_id)
                } else {
                    &&& final(self).past() == mid
                    &&& final(self).stale_ids() == old(self).stale_ids()
                }
            }),
    {
        self.retire_active();
        self.active = Some(job);
    }

    /// Promotes the first future job derived from this template: it leaves
    /// the future set, receives `min_ntime`, and becomes active; the
    /// previous active job retires into the past window.
    ///
    /// Returns `false`, changing nothing, when no future job matches.
    pub fn promote(&mut self, template_id: u64, min_ntime: u32) -> (promoted: bool)
        ensures
            !promoted ==> {
                &&& *final(self) == *old(self)
                &&& forall|i: int|
                    0 <= i < old(self).future().len() ==> (#[trigger] old(
                        self,
                    ).future()[i]).template.template_id != template_id
            },
            promoted ==> {
                let f = first_std_with_template(old(self).future(), template_id);
                &&& 0 <= f < old(self).future().len()
                &&& old(self).future()[f].template.template_id == template_id
                &&& final(self).future() == old(self).future().remove(f)
                &&& final(self).active() == Some(
                    Sv2StandardJob { min_ntime: Some(min_ntime), ..old(self).future()[f] },
                )
                &&& ({
                    let mid = match old(self).active() {
                        Some(a) => old(self).past().push(a),
                        None => old(self).past(),
                    };
                    if mid.len() > MAX_PAST_JOBS {
                        &&& final(self).past() == mid.subrange(1, mid.len() as int)
                        &&& final(self).stale_ids() == old(self).stale_ids().push(mid[0].job_id)
                    } else {
                        &&& final(self).past() == mid
                        &&& final(self).stale_ids() == old(self).stale_ids()
                    }
                })
            },
    {
        let mut i: usize = 0;
        while i < self.future.len()
            invariant
                i <= self.future@.len(),
                *self == *old(self),
                forall|k: int|
                    0 <= k < i ==> (#[trigger] self.future@[k]).template.template_id
                        != template_id,
            decreases self.future@.len() - i,
        {
            if self.future[i].template.template_id == template_id {
                proof {
                    lemma_first_std_with_template(self.future@, template_id);
                }
                let mut job = self.future.remove(i);
                job.min_ntime = Some(min_ntime);
                self.retire_active();
                self.active = Some(job);
                return true;
            }
            i = i + 1;
        }
        proof {
            lemma_first_std_with_template(self.future@, template_id);
        }
        false
    }

    /// The job a share with this id is validated against, if any.
    pub fn get_job(&self, job_id: u32) -> (r: Option<&Sv2StandardJob>)
        ensures
            match r {
                Some(j) => self.lookup(job_id) == Some(*j),
                None => self.lookup(job_id) is None,
            },
    {
        proof {
            lemma_first_std_with_id(self.past@, job_id);
        }
        match &self.active {
            Some(a) => {
                if a.get_job_id() == job_id {
                    return Some(a);
                }
            },
            None => {},
        }
        let mut i: usize = 0;
        while i < self.past.len()
            invariant
                i <= self.past@.len(),
                match self.active() {
                    Some(a) => a.job_id != job_id,
                    None => true,
                },
                forall|k: int| 0 <= k < i ==> (#[trigger] self.past@[k]).job_id != job_id,
                first_std_with_id(self.past@, job_id) != -1 ==> {
                    let f = first_std_with_id(self.past@, job_id);
                    &&& 0 <= f < self.past@.len()
                    &&& self.past@[f].job_id == job_id
                    &&& forall|k: int| 0 <= k < f ==> (#[trigger] self.past@[k]).job_id != job_id
                },
                first_std_with_id(self.past@, job_id) == -1 ==> forall|k: int|
                    0 <= k < self.past@.len() ==> (#[trigger] self.past@[k]).job_id != job_id,
            decreases self.past@.len() - i,
        {
            if self.past[i].get_job_id() == job_id {
                return Some(&self.past[i]);
            }
            i = i + 1;
        }
        None
    }

    /// True iff a share with this id must be reported stale: its job was
    /// evicted from the past window and no retained job carries the id.
    pub fn is_stale(&self, job_id: u32) -> (r: bool)
        ensures
            r == (self.lookup(job_id) is None && self.stale_ids().contains(job_id)),
    {
        match self.get_job(job_id) {
            Some(_) => false,
            None => {
                let mut i: usize = 0;
                while i < self.stale_ids.len()
                    invariant
                        i <= self.stale_ids@.len(),
                        self.lookup(job_id) is None,
                        forall|k: int| 0 <= k < i ==> self.stale_ids@[k] != job_id,
                    decreases self.stale_ids@.len() - i,
                {
                    if self.stale_ids[i] == job_id {
                        proof {
                            assert(self.stale_ids@.contains(job_id));
                        }
                        return true;
                    }
                    i = i + 1;
                }
                proof {
                    if self.stale_ids@.contains(job_id) {
                        let k = choose|k: int|
                            0 <= k < self.stale_ids@.len() && self.stale_ids@[k] == job_id;
                    }
                }
                false
            },
        }
    }

    /// The future jobs, for propagation to the connection layer.
    pub fn get_future_jobs(&self) -> (r: &Vec<Sv2StandardJob>)
        ensures
            r@ == self.future(),
    {
        &self.future
    }

    /// The active job, if any.
    pub fn get_active_job(&self) -> (r: Option<&Sv2StandardJob>)
        ensures
            match r {
                Some(j) => self.active() == Some(*j),
                None => self.active() is None,
            },
    {
        match &self.active {
            Some(a) => Some(a),
            None => None,
        }
    }

    /// The past jobs, oldest first.
    pub fn get_past_jobs(&self) -> (r: &Vec<Sv2StandardJob>)
        ensures
            r@ == self.past(),
    {
        &self.past
    }

    /// The pairs of template id and future job id, oldest job first.
    pub fn get_future_template_to_job_id(&self) -> (r: Vec<(u64, u32)>)
        ensures
            r@.len() == self.future().len(),
            forall|i: int|
                0 <= i < r@.len() ==> #[trigger] r@[i] == (
                    self.future()[i].template.template_id,
                    self.future()[i].job_id,
                ),
    {
        let mut out: Vec<(u64, u32)> = Vec::new();
        let mut i: usize = 0;
        while i < self.future.len()
            invariant
                i <= self.future@.len(),
                out@.len() == i,
                forall|k: int|
                    0 <= k < i ==> #[trigger] out@[k] == (
                        self.future@[k].template.template_id,
                        self.future@[k].job_id,
                    ),
            decreases self.future@.len() - i,
        {
            let tid = self.future[i].template.template_id;
            let jid = self.future[i].job_id;
            out.push((tid, jid));
            i = i + 1;
        }
        out
    }
}

// ---------------------------------------------------------------------------
// the store for Extended jobs
// ---------------------------------------------------------------------------

/// The first index in `s` of a job with this id, or -1.
pub open spec fn first_ext_with_id(s: Seq<Sv2ExtendedJob>, id: u32) -> int
    decreases s.len(),
{
    if s.len() == 0 {
        -1
    } else if s[0].job_id == id {
        0
    } else {
        let r = first_ext_with_id(s.drop_first(), id);
        if r == -1 {
            -1
        } else {
            r + 1
        }
    }
}

/// What `first_ext_with_id` finds: -1 means no match, otherwise the least
/// matching index.
pub proof fn lemma_first_ext_with_id(s: Seq<Sv2ExtendedJob>, id: u32)
    ensures
        first_ext_with_id(s, id) == -1 ==> forall|i: int|
            0 <= i < s.len() ==> (#[trigger] s[i]).job_id != id,
        first_ext_with_id(s, id) != -1 ==> {
            let f = first_ext_with_id(s, id);
            &&& 0 <= f < s.len()
            &&& s[f].job_id == id
            &&& forall|i: int| 0 <= i < f ==> (#[trigger] s[i]).job_id != id
        },
    decreases s.len(),
{
    if s.len() > 0 && s[0].job_id != id {
        lemma_first_ext_with_id(s.drop_first(), id);
        let r = first_ext_with_id(s.drop_first(), id);
        if r == -1 {
            assert forall|i: int| 0 <= i < s.len() implies (#[trigger] s[i]).job_id != id by {
                if i > 0 {
                    assert(s.drop_first()[i - 1] == s[i]);
                }
            }
        } else {
            assert(s[r + 1] == s.drop_first()[r]);
            assert forall|i: int| 0 <= i < r + 1 implies (#[trigger] s[i]).job_id != id by {
                if i > 0 {
                    assert(s.drop_first()[i - 1] == s[i]);
                }
            }
        }
    }
}

/// The first index in `s` of a job derived from this template, or -1.
pub open spec fn first_ext_with_template(s: Seq<Sv2ExtendedJob>, template_id: u64) -> int
    decreases s.len(),
{
    if s.len() == 0 {
        -1
    } else if s[0].template_id_opt() == Some(template_id) {
        0
    } else {
        let r = first_ext_with_template(s.drop_first(), template_id);
        if r == -1 {
            -1
        } else {
            r + 1
        }
    }
}

/// What `first_ext_with_template` finds.
pub proof fn lemma_first_ext_with_template(s: Seq<Sv2ExtendedJob>, template_id: u64)
    ensures
        first_ext_with_template(s, template_id) == -1 ==> forall|i: int|
            0 <= i < s.len() ==> (#[trigger] s[i]).template_id_opt() != Some(template_id),
        first_ext_with_template(s, template_id) != -1 ==> {
            let f = first_ext_with_template(s, template_id);
            &&& 0 <= f < s.len()
            &&& s[f].template_id_opt() == Some(template_id)
            &&& forall|i: int|
                0 <= i < f ==> (#[trigger] s[i]).template_id_opt() != Some(template_id)
        },
    decreases s.len(),
{
    if s.len() > 0 && s[0].template_id_opt() != Some(template_id) {
        lemma_first_ext_with_template(s.drop_first(), template_id);
        let r = first_ext_with_template(s.drop_first(), template_id);
        if r == -1 {
            assert forall|i: int|
                0 <= i < s.len() implies (#[trigger] s[i]).template_id_opt() != Some(template_id) by {
                if i > 0 {
                    assert(s.drop_first()[i - 1] == s[i]);
                }
            }
        } else {
            assert(s[r + 1] == s.drop_first()[r]);
            assert forall|i: int|
                0 <= i < r + 1 implies (#[trigger] s[i]).template_id_opt() != Some(template_id) by {
                if i > 0 {
                    assert(s.drop_first()[i - 1] == s[i]);
                }
            }
        }
    }
}

/// The template-to-job-id pairs of the template-derived jobs in `s`, in
/// order.
pub open spec fn future_template_pairs(s: Seq<Sv2ExtendedJob>) -> Seq<(u64, u32)>
    decreases s.len(),
{
    if s.len() == 0 {
        Seq::empty()
    } else {
        let rest = future_template_pairs(s.drop_last());
        match s.last().template_id_opt() {
            Some(t) => rest.push((t, s.last().job_id)),
            None => rest,
        }
    }
}

/// The job store of an Extended or Group channel.
pub struct ExtendedJobStore {
    future: Vec<Sv2ExtendedJob>,
    active: Option<Sv2ExtendedJob>,
    past: Vec<Sv2ExtendedJob>,
    stale_ids: Vec<u32>,
}

impl ExtendedJobStore {
    /// The future jobs, oldest first.
    pub closed spec fn future(&self) -> Seq<Sv2ExtendedJob> {
        self.future@
    }

    /// The active job, if one is bound to the chain tip.
    pub closed spec fn active(&self) -> Option<Sv2ExtendedJob> {
        self.active
    }

    /// The retained past jobs, oldest first.
    pub closed spec fn past(&self) -> Seq<Sv2ExtendedJob> {
        self.past@
    }

    /// The ids of jobs evicted from the past window.
    pub closed spec fn stale_ids(&self) -> Seq<u32> {
        self.stale_ids@
    }

    /// The job a share with this id is validated against: the active job,
    /// else the first matching past job.
    pub open spec fn lookup(&self, job_id: u32) -> Option<Sv2ExtendedJob> {
        match self.active() {
            Some(a) if a.job_id == job_id => Some(a),
            _ => {
                let f = first_ext_with_id(self.past(), job_id);
                if f == -1 {
                    None
                } else {
                    Some(self.past()[f])
                }
            },
        }
    }

    /// An empty store.
    pub fn new() -> (r: ExtendedJobStore)
        ensures
            r.future() == Seq::<Sv2ExtendedJob>::empty(),
            r.active() is None,
            r.past() == Seq::<Sv2ExtendedJob>::empty(),
            r.stale_ids() == Seq::<u32>::empty(),
    {
        let r = ExtendedJobStore { future: Vec::new(), active: None, past: Vec::new(), stale_ids: Vec::new() };
        proof {
            assert(r.future() =~= Seq::<Sv2ExtendedJob>::empty());
            assert(r.past() =~= Seq::<Sv2ExtendedJob>::empty());
            assert(r.stale_ids() =~= Seq::<u32>::empty());
        }
        r
    }

    /// Adds a job to the future set.
    pub fn insert_future(&mut self, job: Sv2ExtendedJob)
        ensures
            final(self).future() == old(self).future().push(job),
            final(self).active() == old(self).active(),
            final(self).past() == old(self).past(),
            final(self).stale_ids() == old(self).stale_ids(),
    {
        self.future.push(job);
    }

    /// Retires the active job, if any, into the past window, evicting the
    /// oldest past job to the stale ids when the window overflows.
    fn retire_active(&mut self)
        ensures
            final(self).future() == old(self).future(),
            final(self).active() is None,
            ({
                let mid = match old(self).active() {
                    Some(a) => old(self).past().push(a),
                    None => old(self).past(),
                };
                if mid.len() > MAX_PAST_JOBS {
                    &&& final(self).past() == mid.subrange(1, mid.len() as int)
                    &&& final(self).stale_ids() == old(self).stale_ids().push(mid[0].job_id)
                } else {
                    &&& final(self).past() == mid
                    &&& final(self).stale_ids() == old(self).stale_ids()
                }
            }),
    {
        let active = self.active.take();
        match active {
            Some(a) => {
                self.past.push(a);
            },
            None => {},
        }
        if self.past.len() > MAX_PAST_JOBS {
            let evicted = self.past.remove(0);
            self.stale_ids.push(evicted.job_id);
        }
    }

    /// Installs a job as the active one; the previous active job, if any,
    /// moves into the past window.
    pub fn set_active(&mut self, job: Sv2ExtendedJob)
        ensures
            final(self).future() == old(self).future(),
            final(self).active() == Some(job),
            ({
                let mid = match old(self).active() {
                    Some(a) => old(self).past().push(a),
                    None => old(self).past(),
                };
                if mid.len() > MAX_PAST_JOBS {
                    &&& final(self).past() == mid.subrange(1, mid.len() as int)
                    &&& final(self).stale_ids() == old(self).stale_ids().push(mid[0].job_id)
                } else {
                    &&& final(self).past() == mid
                    &&& final(self).stale_ids() == old(self).stale_ids()
                }
            }),
    {
        self.retire_active();
        self.active = Some(job);
    }

    /// Promotes the first future job derived from this template: it leaves
    /// the future set, receives `min_ntime`, and becomes active; the
    /// previous active job retires into the past window.
    ///
    /// Returns `false`, changing nothing, when no future job matches.
    pub fn promote(&mut self, template_id: u64, min_ntime: u32) -> (promoted: bool)
        ensures
            !promoted ==> {
                &&& *final(self) == *old(self)
                &&& forall|i: int|
                    0 <= i < old(self).future().len() ==> (#[trigger] old(
                        self,
                    ).future()[i]).template_id_opt() != Some(template_id)
            },
            promoted ==> {
                let f = first_ext_with_template(old(self).future(), template_id);
                &&& 0 <= f < old(self).future().len()
                &&& old(self).future()[f].template_id_opt() == Some(template_id)
                &&& final(self).future() == old(self).future().remove(f)
                &&& final(self).active() == Some(
                    Sv2ExtendedJob { min_ntime: Some(min_ntime), ..old(self).future()[f] },
                )
                &&& ({
                    let mid = match old(self).active() {
                        Some(a) => old(self).past().push(a),
                        None => old(self).past(),
                    };
                    if mid.len() > MAX_PAST_JOBS {
                        &&& final(self).past() == mid.subrange(1, mid.len() as int)
                        &&& final(self).stale_ids() == old(self).stale_ids().push(mid[0].job_id)
                    } else {
                        &&& final(self).past() == mid
                        &&& final(self).stale_ids() == old(self).stale_ids()
                    }
                })
            },
    {
        let mut i: usize = 0;
        while i < self.future.len()
            invariant
                i <= self.future@.len(),
                *self == *old(self),
                forall|k: int|
                    0 <= k < i ==> (#[trigger] self.future@[k]).template_id_opt() != Some(
                        template_id,
                    ),
            decreases self.future@.len() - i,
        {
            let is_match = match &self.future[i].origin {
                Sv2ExtendedJobOrigin::NewTemplate(t) => t.template_id == template_id,
                Sv2ExtendedJobOrigin::SetCustomMiningJob(_) => false,
            };
            if is_match {
                proof {
                    lemma_first_ext_with_template(self.future@, template_id);
                }
                let mut job = self.future.remove(i);
                job.min_ntime = Some(min_ntime);
                self.retire_active();
                self.active = Some(job);
                return true;
            }
            i = i + 1;
        }
        proof {
            lemma_first_ext_with_template(self.future@, template_id);
        }
        false
    }

    /// The job a share with this id is validated against, if any.
    pub fn get_job(&self, job_id: u32) -> (r: Option<&Sv2ExtendedJob>)
        ensures
            match r {
                Some(j) => self.lookup(job_id) == Some(*j),
                None => self.lookup(job_id) is None,
            },
    {
        proof {
            lemma_first_ext_with_id(self.past@, job_id);
        }
        match &self.active {
            Some(a) => {
                if a.get_job_id() == job_id {
                    return Some(a);
                }
            },
            None => {},
        }
        let mut i: usize = 0;
        while i < self.past.len()
            invariant
                i <= self.past@.len(),
                match self.active() {
                    Some(a) => a.job_id != job_id,
                    None => true,
                },
                forall|k: int| 0 <= k < i ==> (#[trigger] self.past@[k]).job_id != job_id,
                first_ext_with_id(self.past@, job_id) != -1 ==> {
                    let f = first_ext_with_id(self.past@, job_id);
                    &&& 0 <= f < self.past@.len()
                    &&& self.past@[f].job_id == job_id
                    &&& forall|k: int| 0 <= k < f ==> (#[trigger] self.past@[k]).job_id != job_id
                },
                first_ext_with_id(self.past@, job_id) == -1 ==> forall|k: int|
                    0 <= k < self.past@.len() ==> (#[trigger] self.past@[k]).job_id != job_id,
            decreases self.past@.len() - i,
        {
            if self.past[i].get_job_id() == job_id {
                return Some(&self.past[i]);
            }
            i = i + 1;
        }
        None
    }

    /// True iff a share with this id must be reported stale: its job was
    /// evicted from the past window and no retained job carries the id.
    pub fn is_stale(&self, job_id: u32) -> (r: bool)
        ensures
            r == (self.lookup(job_id) is None && self.stale_ids().contains(job_id)),
    {
        match self.get_job(job_id) {
            Some(_) => false,
            None => {
                let mut i: usize = 0;
                while i < self.stale_ids.len()
                    invariant
                        i <= self.stale_ids@.len(),
                        self.lookup(job_id) is None,
                        forall|k: int| 0 <= k < i ==> self.stale_ids@[k] != job_id,
                    decreases self.stale_ids@.len() - i,
                {
                    if self.stale_ids[i] == job_id {
                        proof {
                            assert(self.stale_ids@.contains(job_id));
                        }
                        return true;
                    }
                    i = i + 1;
                }
                proof {
                    if self.stale_ids@.contains(job_id) {
                        let k = choose|k: int|
                            0 <= k < self.stale_ids@.len() && self.stale_ids@[k] == job_id;
                    }
                }
                false
            },
        }
    }

    /// The future jobs, for propagation to the connection layer.
    pub fn get_future_jobs(&self) -> (r: &Vec<Sv2ExtendedJob>)
        ensures
            r@ == self.future(),
    {
        &self.future
    }

    /// The active job, if any.
    pub fn get_active_job(&self) -> (r: Option<&Sv2ExtendedJob>)
        ensures
            match r {
                Some(j) => self.active() == Some(*j),
                None => self.active() is None,
            },
    {
        match &self.active {
            Some(a) => Some(a),
            None => None,
        }
    }

    /// The past jobs, oldest first.
    pub fn get_past_jobs(&self) -> (r: &Vec<Sv2ExtendedJob>)
        ensures
            r@ == self.past(),
    {
        &self.past
    }

    /// The pairs of template id and future job id, oldest job first, for
    /// the template-derived future jobs.
    pub fn get_future_template_to_job_id(&self) -> (r: Vec<(u64, u32)>)
        ensures
            r@ == future_template_pairs(self.future()),
    {
        let mut out: Vec<(u64, u32)> = Vec::new();
        let mut i: usize = 0;
        proof {
            assert(self.future@.subrange(0, 0) =~= Seq::<Sv2ExtendedJob>::empty());
        }
        while i < self.future.len()
            invariant
                i <= self.future@.len(),
                out@ == future_template_pairs(self.future@.subrange(0, i as int)),
            decreases self.future@.len() - i,
        {
            match &self.future[i].origin {
                Sv2ExtendedJobOrigin::NewTemplate(t) => {
                    let tid = t.template_id;
                    let jid = self.future[i].job_id;
                    out.push((tid, jid));
                },
                Sv2ExtendedJobOrigin::SetCustomMiningJob(_) => {},
            }
            i = i + 1;
            proof {
                let pre = self.future@.subrange(0, i - 1);
                let cur = self.future@.subrange(0, i as int);
                assert(cur.drop_last() =~= pre);
                assert(cur.last() == self.future@[i - 1]);
            }
        }
        proof {
            assert(self.future@.subrange(0, self.future@.len() as int) =~= self.future@);
        }
        out
    }
}

} // verus!
