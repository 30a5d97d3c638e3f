//! The errors of the library, one taxonomy for all event sources.
use vstd::prelude::*;

verus! {

/// Unexpected content of a sysfs attribute or of a device property.
#[derive(Clone, Copy, Debug, PartialEq, Eq, Structural)]
pub enum ParseError {
    /// The bytes are not valid UTF-8.
    NotUtf8,
    /// The text does not end in a newline.
    MissingNewline,
    /// The text is not a decimal battery level from 0 to 100.
    InvalidLevel,
}

/// A malformed kernel message or attribute.
#[derive(Clone, Copy, Debug, PartialEq, Eq, Structural)]
pub enum DecodeError {
    /// A generic-netlink command that the ACPI family does not define.
    UnknownCommand(u8),
    /// An attribute kind that the ACPI family does not define.
    UnknownAttribute(u16),
    /// The attribute list is not a well-formed sequence of attributes.
    MalformedAttributes,
    /// An ACPI event record whose length is not that of the record.
    RecordLength(usize),
    /// The device class of an ACPI event has no NUL terminator.
    DeviceClassNotTerminated,
    /// The device class of an ACPI event is not valid UTF-8.
    DeviceClassNotUtf8,
    /// A device event lacks a property that it must carry.
    MissingProperty,
}

/// Any failure of an event source; each one ends the source's stream.
#[derive(Clone, Copy, Debug, PartialEq, Eq, Structural)]
pub enum Error {
    /// The generic-netlink reply names no id for the ACPI event family.
    FamilyNotFound,
    /// The generic-netlink reply names no id for the ACPI multicast group.
    GroupNotFound,
    /// A kernel message or device event could not be decoded.
    Decode(DecodeError),
    /// A sysfs attribute or device property held unexpected text.
    Parse(ParseError),
}

} // verus!
