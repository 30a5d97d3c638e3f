//! The decisions of the device-event source: which kernel device events
//! concern the watched battery and adapter, and what they say.
use vstd::prelude::*;
use crate::error::{DecodeError, Error, ParseError};
use crate::model::{AdapterStatus, BatEvent, BatLvl};
use crate::parse::{level_of_text, parse_level};
use crate::polling::bytes_equal;

verus! {

/// A kernel device event of the `power_supply` subsystem, with the
/// properties that the source reads.
#[derive(Clone, Debug)]
pub struct UdevEvent {
    /// Whether the event is a change of the device.
    pub is_change: bool,
    /// The device's path in sysfs.
    pub syspath: Vec<u8>,
    /// The `POWER_SUPPLY_CAPACITY` property, if the event carries it.
    pub capacity: Option<Vec<u8>>,
    /// The `POWER_SUPPLY_ONLINE` property, if the event carries it.
    pub online: Option<Vec<u8>>,
}

/// The level that a capacity property gives, or the error.
pub open spec fn capacity_outcome(p: Option<Vec<u8>>) -> Result<nat, Error> {
    match p {
        None => Err(Error::Decode(DecodeError::MissingProperty)),
        Some(t) => match level_of_text(t@) {
            Some(v) => Ok(v),
            None => Err(Error::Parse(ParseError::InvalidLevel)),
        },
    }
}

/// The adapter state that an online property gives: "1" is connected, any
/// other value disconnected.
pub open spec fn online_outcome(p: Option<Vec<u8>>) -> Result<AdapterStatus, Error> {
    match p {
        None => Err(Error::Decode(DecodeError::MissingProperty)),
        Some(t) => if t@ == seq![49u8] {
            Ok(AdapterStatus::Connected)
        } else {
            Ok(AdapterStatus::Disconnected)
        },
    }
}

/// Reads the battery level from a capacity property.
pub fn extract_battery_cap(capacity: &Option<Vec<u8>>) -> (r: Result<BatLvl, Error>)
    ensures
        match capacity_outcome(*capacity) {
            Ok(v) => r matches Ok(l) && l@ == v,
            Err(e) => r == Err::<BatLvl, Error>(e),
        },
{
    match capacity {
        None => Err(Error::Decode(DecodeError::MissingProperty)),
        Some(t) => match parse_level(t.as_slice()) {
            Ok(l) => Ok(l),
            Err(e) => Err(Error::Parse(e)),
        },
    }
}

/// Reads the adapter state from an online property.
pub fn handle_adapter(online: &Option<Vec<u8>>) -> (r: Result<AdapterStatus, Error>)
    ensures
        r == online_outcome(*online),
{
    match online {
        None => Err(Error::Decode(DecodeError::MissingProperty)),
        Some(t) => {
            if t.len() == 1 && t[0] == 49u8 {
                assert(t@ =~= seq![49u8]);
                Ok(AdapterStatus::Connected)
            } else {
                proof {
                    if t@ == seq![49u8] {
                        assert(t@[0] == 49u8);
                    }
                }
                Ok(AdapterStatus::Disconnected)
            }
        },
    }
}

/// The state of the device-event source: the watched paths, and the level
/// read when the source started, until it has been reported.
#[derive(Debug)]
pub struct UdevStream {
    pub battery_path: Vec<u8>,
    pub adapter_path: Vec<u8>,
    pub first_lvl: Option<BatLvl>,
}

impl UdevStream {
    /// A source that watches the two paths; `capacity` is the battery's
    /// capacity property at start, whose level is reported first.
    pub fn new(battery_path: Vec<u8>, adapter_path: Vec<u8>, capacity: &Option<Vec<u8>>) -> (r:
        Result<UdevStream, Error>)
        ensures
            match capacity_outcome(*capacity) {
                Ok(v) => r matches Ok(s) && s.battery_path@ == battery_path@ && s.adapter_path@
                    == adapter_path@ && (s.first_lvl matches Some(l) && l@ == v),
                Err(e) => r matches Err(f) && f == e,
            },
    {
        match extract_battery_cap(capacity) {
            Ok(l) => Ok(UdevStream { battery_path, adapter_path, first_lvl: Some(l) }),
            Err(e) => Err(e),
        }
    }

    /// The level read at start, the first time only.
    pub fn take_first(&mut self) -> (r: Option<BatEvent>)
        ensures
            match old(self).first_lvl {
                Some(l) => r == Some(BatEvent::Battery(l)),
                None => r is None,
            },
            final(self).first_lvl is None,
            final(self).battery_path == old(self).battery_path,
            final(self).adapter_path == old(self).adapter_path,
    {
        match self.first_lvl.take() {
            Some(l) => Some(BatEvent::Battery(l)),
            None => None,
        }
    }

    /// What a device event says: nothing unless it is a change of the
    /// battery or of the adapter; else the battery's level or the adapter's
    /// state, where the event carries it.
    pub fn handle_event(&self, event: &UdevEvent) -> (r: Result<Option<BatEvent>, Error>)
        ensures
            !event.is_change ==> r == Ok::<Option<BatEvent>, Error>(None),
            event.is_change && event.syspath@ == self.battery_path@ ==> match capacity_outcome(
                event.capacity,
            ) {
                Ok(v) => r matches Ok(Some(BatEvent::Battery(l))) && l@ == v,
                Err(e) => r == Err::<Option<BatEvent>, Error>(e),
            },
            event.is_change && event.syspath@ != self.battery_path@ && event.syspath@
                == self.adapter_path@ ==> match online_outcome(event.online) {
                Ok(st) => r == Ok::<Option<BatEvent>, Error>(Some(BatEvent::Adapter(st))),
                Err(e) => r == Err::<Option<BatEvent>, Error>(e),
            },
            event.is_change && event.syspath@ != self.battery_path@ && event.syspath@
                != self.adapter_path@ ==> r == Ok::<Option<BatEvent>, Error>(None),
    {
        if !event.is_change {
            return Ok(None);
        }
        if bytes_equal(event.syspath.as_slice(), self.battery_path.as_slice()) {
            match extract_battery_cap(&event.capacity) {
                Ok(l) => Ok(Some(BatEvent::Battery(l))),
                Err(e) => Err(e),
            }
        } else if bytes_equal(event.syspath.as_slice(), self.adapter_path.as_slice()) {
            match handle_adapter(&event.online) {
                Ok(st) => Ok(Some(BatEvent::Adapter(st))),
                Err(e) => Err(e),
            }
        } else {
            Ok(None)
        }
    }
}

} // verus!
