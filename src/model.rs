//! The shared vocabulary of battery and adapter events.
use vstd::prelude::*;

verus! {

/// The largest battery level, in percent.
pub const MAX_LEVEL: u8 = 100;

/// A battery level in percent, never above 100.
#[derive(Clone, Copy, Debug, PartialEq, Eq, PartialOrd, Ord, Hash, Structural)]
pub struct BatLvl {
    value: u8,
}

impl View for BatLvl {
    type V = nat;

    closed spec fn view(&self) -> nat {
        self.value as nat
    }
}

impl BatLvl {
    #[verifier::type_invariant]
    spec fn in_range(self) -> bool {
        self.value <= 100
    }

    /// The level `value`, or `None` where it exceeds 100.
    pub fn new(value: u8) -> (r: Option<BatLvl>)
        ensures
            value <= 100 <==> r is Some,
            r matches Some(l) ==> l@ == value as nat,
    {
        if value <= MAX_LEVEL {
            Some(BatLvl { value })
        } else {
            None
        }
    }

    /// The level as a number.
    pub fn get(&self) -> (r: u8)
        ensures
            r as nat == self@,
            r <= 100,
    {
        proof {
            use_type_invariant(self);
        }
        self.value
    }
}

/// Whether the AC adapter feeds the host.
#[derive(Clone, Copy, Debug, PartialEq, Eq, Hash, Structural)]
pub enum AdapterStatus {
    Connected,
    Disconnected,
}

/// One observed change of the battery or of the adapter.
#[derive(Clone, Copy, Debug, PartialEq, Eq, Hash, Structural)]
pub enum BatEvent {
    Adapter(AdapterStatus),
    Battery(BatLvl),
}

/// The event source that a run of the monitor uses.
#[derive(Clone, Copy, Debug, PartialEq, Eq, Hash, Structural)]
pub enum Backend {
    Udev,
    Polling,
    Acpi,
}

} // verus!
