//! Severity of a battery level against three thresholds.
use vstd::prelude::*;
use crate::model::BatLvl;

verus! {

/// Event priority, from least to most severe.
#[derive(Clone, Copy, Debug, PartialEq, Eq, PartialOrd, Ord, Hash, Structural)]
pub enum EvPriority {
    Low,
    Normal,
    High,
}

/// The three levels at or below which a battery reading is reported.
#[derive(Clone, Copy, Debug)]
pub struct PriorityThreshold {
    /// At or below it a reading is of low priority.
    pub low: BatLvl,
    /// At or below it a reading is of normal priority.
    pub normal: BatLvl,
    /// At or below it a reading is of high priority.
    pub high: BatLvl,
}

impl PriorityThreshold {
    /// The thresholds are ordered: `high <= normal <= low`.
    pub open spec fn ordered(self) -> bool {
        self.high@ <= self.normal@ && self.normal@ <= self.low@
    }

    /// The priority of a reading at `lvl`, the most severe threshold first.
    pub open spec fn classify(self, lvl: nat) -> Option<EvPriority> {
        if lvl <= self.high@ {
            Some(EvPriority::High)
        } else if lvl <= self.normal@ {
            Some(EvPriority::Normal)
        } else if lvl <= self.low@ {
            Some(EvPriority::Low)
        } else {
            None
        }
    }

    /// Thresholds from the low, very low and critical levels, or `None`
    /// where they are not ordered `critical <= very_low <= low`.
    pub fn checked(low: BatLvl, very_low: BatLvl, critical: BatLvl) -> (r: Option<
        PriorityThreshold,
    >)
        ensures
            r is Some <==> (critical@ <= very_low@ && very_low@ <= low@),
            r matches Some(t) ==> t.low == low && t.normal == very_low && t.high == critical,
    {
        if critical.get() <= very_low.get() && very_low.get() <= low.get() {
            Some(PriorityThreshold { low, normal: very_low, high: critical })
        } else {
            None
        }
    }

    /// The priority of a reading at `lvl`; `None` where no notice is due.
    pub fn priority(&self, lvl: BatLvl) -> (r: Option<EvPriority>)
        ensures
            r == self.classify(lvl@),
    {
        let l = lvl.get();
        if l <= self.high.get() {
            return Some(EvPriority::High);
        }
        if l <= self.normal.get() {
            return Some(EvPriority::Normal);
        }
        if l <= self.low.get() {
            return Some(EvPriority::Low);
        }
        None
    }
}

/// With ordered thresholds each level falls in exactly one band: high at or
/// below the critical level, normal above it up to the very low level, low
/// above that up to the low level, and no priority above the low level.
pub proof fn lemma_classify_bands(t: PriorityThreshold, lvl: nat)
    requires
        t.ordered(),
    ensures
        t.classify(lvl) == Some(EvPriority::High) <==> lvl <= t.high@,
        t.classify(lvl) == Some(EvPriority::Normal) <==> (t.high@ < lvl && lvl <= t.normal@),
        t.classify(lvl) == Some(EvPriority::Low) <==> (t.normal@ < lvl && lvl <= t.low@),
        t.classify(lvl) is None <==> t.low@ < lvl,
{
}

} // verus!
