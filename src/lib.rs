//! Battery monitoring core: battery and adapter events, their severity, and
//! the decoding and decision logic of the event sources.
pub mod model;
pub mod priority;
pub mod dispatch;
pub mod error;
pub mod parse;
pub mod polling;
pub mod acpi;
pub mod acpi_ids;
pub mod udev;
pub mod notif;
pub mod args;
