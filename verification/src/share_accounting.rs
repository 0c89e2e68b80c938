//! Per-channel share accounting: sequence-number bookkeeping, duplicate
//! detection, accepted-share counters and batch acknowledgement.

use vstd::prelude::*;

verus! {

/// The outcome of a successfully validated share.
#[derive(Clone, Debug, PartialEq)]
pub enum ShareValidationResult {
    /// The share is accepted.
    Valid,
    /// The share is accepted and completes an acknowledgement batch; carries
    /// the last sequence number, the accepted count and the work sum since
    /// the last acknowledgement.
    ValidWithAcknowledgement(u32, u32, u64),
    /// The share solves a block; carries the origin template id (none for a
    /// custom job) and the serialized coinbase transaction.
    BlockFound(Option<u64>, Vec<u8>),
}

/// Why a share was rejected.
#[derive(Clone, Copy, PartialEq, Eq, Structural, Debug)]
pub enum ShareValidationError {
    /// The share's time or version contradicts the job it references.
    Invalid,
    /// The referenced job was evicted from the retained past jobs.
    Stale,
    /// The referenced job id was never issued on this channel.
    InvalidJobId,
    /// The share's hash is numerically above the channel target.
    DoesNotMeetTarget,
    /// The share rolled the version, which this channel forbids.
    VersionRollingNotAllowed,
    /// A share with this sequence number was already accepted.
    DuplicateShare,
    /// The job's coinbase could not be assembled.
    InvalidCoinbase,
    /// No chain tip has been set on the channel yet.
    NoChainTip,
}

/// The accepted-share state of one channel.
pub struct ShareAccounting {
    last_share_sequence_number: u32,
    shares_accepted: u32,
    share_work_sum: u64,
    share_batch_size: u32,
    shares_since_last_ack: u32,
    seen_sequence_numbers: Vec<u32>,
}

impl ShareAccounting {
    /// The sequence numbers of every accepted share.
    pub closed spec fn seen(&self) -> Set<u32> {
        self.seen_sequence_numbers@.to_set()
    }

    /// How many shares have been accepted.
    pub closed spec fn accepted(&self) -> u32 {
        self.shares_accepted
    }

    /// The sum of the work of every accepted share.
    pub closed spec fn work_sum(&self) -> u64 {
        self.share_work_sum
    }

    /// The sequence number of the share accepted last.
    pub closed spec fn last_sequence_number(&self) -> u32 {
        self.last_share_sequence_number
    }

    /// How many accepted shares trigger a batch acknowledgement.
    pub closed spec fn batch_size(&self) -> u32 {
        self.share_batch_size
    }

    /// Accepted shares since the last batch acknowledgement.
    pub closed spec fn since_last_ack(&self) -> u32 {
        self.shares_since_last_ack
    }

    /// Fresh accounting: nothing seen, nothing accepted.
    pub fn new(share_batch_size: u32) -> (r: ShareAccounting)
        ensures
            r.seen() == Set::<u32>::empty(),
            r.accepted() == 0,
            r.work_sum() == 0,
            r.last_sequence_number() == 0,
            r.batch_size() == share_batch_size,
            r.since_last_ack() == 0,
    {
        let r = ShareAccounting {
            last_share_sequence_number: 0,
            shares_accepted: 0,
            share_work_sum: 0,
            share_batch_size,
            shares_since_last_ack: 0,
            seen_sequence_numbers: Vec::new(),
        };
        proof {
            assert(r.seen_sequence_numbers@.to_set() =~= Set::<u32>::empty());
        }
        r
    }

    /// True iff a share with this sequence number was already accepted.
    pub fn is_seen(&self, sequence_number: u32) -> (r: bool)
        ensures
            r == self.seen().contains(sequence_number),
    {
        let mut i: usize = 0;
        while i < self.seen_sequence_numbers.len()
            invariant
                i <= self.seen_sequence_numbers@.len(),
                forall|k: int|
                    0 <= k < i ==> self.seen_sequence_numbers@[k] != sequence_number,
            decreases self.seen_sequence_numbers@.len() - i,
        {
            if self.seen_sequence_numbers[i] == sequence_number {
                proof {
                    assert(self.seen_sequence_numbers@.contains(sequence_number));
                }
                return true;
            }
            i = i + 1;
        }
        proof {
            if self.seen_sequence_numbers@.to_set().contains(sequence_number) {
                let k = choose|k: int|
                    0 <= k < self.seen_sequence_numbers@.len()
                        && self.seen_sequence_numbers@[k] == sequence_number;
            }
        }
        false
    }

    /// Folds an accepted share into the counters.
    ///
    /// Returns the acknowledgement triple (last sequence number, accepted
    /// count, work sum) when this share completes a batch. The counters
    /// saturate at their type bounds.
    pub fn record_share(&mut self, sequence_number: u32, work: u64) -> (ack: Option<
        (u32, u32, u64),
    >)
        requires
            !old(self).seen().contains(sequence_number),
        ensures
            final(self).seen() == old(self).seen().insert(sequence_number),
            final(self).accepted() == if old(self).accepted() < u32::MAX {
                old(self).accepted() + 1
            } else {
                u32::MAX as int
            },
            final(self).work_sum() == if old(self).work_sum() + work <= u64::MAX {
                old(self).work_sum() + work
            } else {
                u64::MAX as int
            },
            final(self).last_sequence_number() == sequence_number,
            final(self).batch_size() == old(self).batch_size(),
            ack is Some <==> old(self).since_last_ack() + 1 >= old(self).batch_size(),
            ack is Some ==> {
                &&& ack->0 == (
                    sequence_number,
                    final(self).accepted(),
                    final(self).work_sum(),
                )
                &&& final(self).since_last_ack() == 0
            },
            ack is None ==> final(self).since_last_ack() == old(self).since_last_ack() + 1,
    {
        self.seen_sequence_numbers.push(sequence_number);
        proof {
            let oldseq = old(self).seen_sequence_numbers@;
            let newseq = self.seen_sequence_numbers@;
            assert forall|a: u32| #[trigger] newseq.contains(a) == (oldseq.contains(a) || a
                == sequence_number) by {
                if newseq.contains(a) {
                    let i = choose|i: int| 0 <= i < newseq.len() && newseq[i] == a;
                    if i < oldseq.len() {
                        assert(oldseq[i] == a);
                        assert(oldseq.contains(a));
                    }
                }
                if oldseq.contains(a) {
                    let i = choose|i: int| 0 <= i < oldseq.len() && oldseq[i] == a;
                    assert(newseq[i] == a);
                    assert(newseq.contains(a));
                }
                if a == sequence_number {
                    assert(newseq[newseq.len() - 1] == a);
                    assert(newseq.contains(a));
                }
            }
            assert(newseq.to_set() =~= oldseq.to_set().insert(sequence_number));
        }
        self.last_share_sequence_number = sequence_number;
        if self.shares_accepted < u32::MAX {
            self.shares_accepted = self.shares_accepted + 1;
        }
        if work <= u64::MAX - self.share_work_sum {
            self.share_work_sum = self.share_work_sum + work;
        } else {
            self.share_work_sum = u64::MAX;
        }
        if self.shares_since_last_ack >= u32::MAX - 1 || self.shares_since_last_ack + 1
            >= self.share_batch_size {
            self.shares_since_last_ack = 0;
            Some((self.last_share_sequence_number, self.shares_accepted, self.share_work_sum))
        } else {
            self.shares_since_last_ack = self.shares_since_last_ack + 1;
            None
        }
    }
}

} // verus!
