//! Timelock policy: seven offsets from the moment a leg is deployed.
use vstd::prelude::*;

verus! {

/// The stages of a swap whose start a timelock fixes.
#[derive(Clone, Copy, Debug, PartialEq, Eq, Structural)]
pub enum TimelockStage {
    SrcWithdrawal,
    SrcPublicWithdrawal,
    SrcCancellation,
    SrcPublicCancellation,
    DstWithdrawal,
    DstPublicWithdrawal,
    DstCancellation,
}

/// The same stages, under the name the destination leg uses.
pub type Stage = TimelockStage;

/// The deployment time of a leg and the offset of each stage from it.
#[derive(Clone, Copy, Debug, PartialEq, Eq, Structural)]
pub struct Timelocks {
    pub deployed_at: u64,
    pub src_withdrawal: u64,
    pub src_public_withdrawal: u64,
    pub src_cancellation: u64,
    pub src_public_cancellation: u64,
    pub dst_withdrawal: u64,
    pub dst_public_withdrawal: u64,
    pub dst_cancellation: u64,
}

impl Default for Timelocks {
    fn default() -> (r: Self)
        ensures
            r == Timelocks::default_spec(),
    {
        Timelocks {
            deployed_at: 0,
            src_withdrawal: 0,
            src_public_withdrawal: 0,
            src_cancellation: 0,
            src_public_cancellation: 0,
            dst_withdrawal: 0,
            dst_public_withdrawal: 0,
            dst_cancellation: 0,
        }
    }
}

impl Timelocks {
    /// Every offset and the deployment time at zero.
    pub open spec fn default_spec() -> Timelocks {
        Timelocks {
            deployed_at: 0,
            src_withdrawal: 0,
            src_public_withdrawal: 0,
            src_cancellation: 0,
            src_public_cancellation: 0,
            dst_withdrawal: 0,
            dst_public_withdrawal: 0,
            dst_cancellation: 0,
        }
    }

    /// The offset of `stage` from the deployment time.
    pub open spec fn offset(self, stage: TimelockStage) -> u64 {
        match stage {
            TimelockStage::SrcWithdrawal => self.src_withdrawal,
            TimelockStage::SrcPublicWithdrawal => self.src_public_withdrawal,
            TimelockStage::SrcCancellation => self.src_cancellation,
            TimelockStage::SrcPublicCancellation => self.src_public_cancellation,
            TimelockStage::DstWithdrawal => self.dst_withdrawal,
            TimelockStage::DstPublicWithdrawal => self.dst_public_withdrawal,
            TimelockStage::DstCancellation => self.dst_cancellation,
        }
    }

    /// The moment at which `stage` starts.
    pub open spec fn stage_start(self, stage: TimelockStage) -> int {
        self.deployed_at + self.offset(stage)
    }

    /// Every stage start is a representable timestamp.
    pub open spec fn fits(self) -> bool {
        forall|s: TimelockStage| #[trigger] self.stage_start(s) <= u64::MAX
    }

    /// The ordering that a well-formed swap requires of its offsets.
    pub open spec fn is_valid(self) -> bool {
        &&& self.src_withdrawal < self.src_public_withdrawal
        &&& self.src_public_withdrawal < self.src_cancellation
        &&& self.src_cancellation < self.src_public_cancellation
        &&& self.dst_withdrawal < self.dst_public_withdrawal
        &&& self.dst_public_withdrawal < self.dst_cancellation
    }

    /// Sets the deployment timestamp, keeping the offsets.
    pub fn set_deployed_at(&mut self, timestamp: u64)
        ensures
            *final(self) == (Timelocks { deployed_at: timestamp, ..*old(self) }),
    {
        self.deployed_at = timestamp;
    }

    /// The moment from which stuck funds may be rescued.
    pub fn rescue_start(&self, rescue_delay: u64) -> (r: u64)
        requires
            self.deployed_at + rescue_delay <= u64::MAX,
        ensures
            r == self.deployed_at + rescue_delay,
    {
        self.deployed_at + rescue_delay
    }

    /// The moment at which `stage` starts.
    pub fn get(&self, stage: TimelockStage) -> (r: u64)
        requires
            self.stage_start(stage) <= u64::MAX,
        ensures
            r == self.stage_start(stage),
    {
        match stage {
            TimelockStage::SrcWithdrawal => self.deployed_at + self.src_withdrawal,
            TimelockStage::SrcPublicWithdrawal => self.deployed_at + self.src_public_withdrawal,
            TimelockStage::SrcCancellation => self.deployed_at + self.src_cancellation,
            TimelockStage::SrcPublicCancellation => self.deployed_at
                + self.src_public_cancellation,
            TimelockStage::DstWithdrawal => self.deployed_at + self.dst_withdrawal,
            TimelockStage::DstPublicWithdrawal => self.deployed_at + self.dst_public_withdrawal,
            TimelockStage::DstCancellation => self.deployed_at + self.dst_cancellation,
        }
    }

    /// Whether every stage start is a representable timestamp.
    pub fn check_fits(&self) -> (r: bool)
        ensures
            r == self.fits(),
    {
        let m = u64::MAX - self.deployed_at;
        let ok = self.src_withdrawal <= m && self.src_public_withdrawal <= m
            && self.src_cancellation <= m && self.src_public_cancellation <= m
            && self.dst_withdrawal <= m && self.dst_public_withdrawal <= m
            && self.dst_cancellation <= m;
        proof {
            if !ok {
                if self.src_withdrawal > m {
                    assert(self.stage_start(TimelockStage::SrcWithdrawal) > u64::MAX);
                } else if self.src_public_withdrawal > m {
                    assert(self.stage_start(TimelockStage::SrcPublicWithdrawal) > u64::MAX);
                } else if self.src_cancellation > m {
                    assert(self.stage_start(TimelockStage::SrcCancellation) > u64::MAX);
                } else if self.src_public_cancellation > m {
                    assert(self.stage_start(TimelockStage::SrcPublicCancellation) > u64::MAX);
                } else if self.dst_withdrawal > m {
                    assert(self.stage_start(TimelockStage::DstWithdrawal) > u64::MAX);
                } else if self.dst_public_withdrawal > m {
                    assert(self.stage_start(TimelockStage::DstPublicWithdrawal) > u64::MAX);
                } else {
                    assert(self.stage_start(TimelockStage::DstCancellation) > u64::MAX);
                }
            } else {
                assert forall|s: TimelockStage| #[trigger] self.stage_start(s) <= u64::MAX by {
                    match s {
                        _ => {},
                    }
                }
            }
        }
        ok
    }
}

/// For valid timelocks, the stages of each leg start in the order
/// withdrawal, public withdrawal, cancellation (and, on the source leg,
/// public cancellation), each strictly after the one before.
pub proof fn lemma_stages_ordered(t: Timelocks)
    requires
        t.is_valid(),
    ensures
        t.stage_start(TimelockStage::SrcWithdrawal) < t.stage_start(
            TimelockStage::SrcPublicWithdrawal,
        ),
        t.stage_start(TimelockStage::SrcPublicWithdrawal) < t.stage_start(
            TimelockStage::SrcCancellation,
        ),
        t.stage_start(TimelockStage::SrcCancellation) < t.stage_start(
            TimelockStage::SrcPublicCancellation,
        ),
        t.stage_start(TimelockStage::DstWithdrawal) < t.stage_start(
            TimelockStage::DstPublicWithdrawal,
        ),
        t.stage_start(TimelockStage::DstPublicWithdrawal) < t.stage_start(
            TimelockStage::DstCancellation,
        ),
{
}

} // verus!
