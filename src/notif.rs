//! What a notice says: its summary, its text and its urgency.
use vstd::prelude::*;
use crate::dispatch::Notification;
use crate::model::{AdapterStatus, BatEvent};
use crate::priority::EvPriority;

verus! {

/// How long a desktop notice stays on screen, in seconds.
pub const NOTIFICATION_TIMEOUT_SECS: u64 = 5;

/// The urgency of a desktop notice.
#[derive(Clone, Copy, Debug, PartialEq, Eq, Structural)]
pub enum Urgency {
    Low,
    Normal,
    Critical,
}

/// The decimal digits of `n`, without sign or leading zeros.
pub open spec fn decimal_chars(n: nat) -> Seq<char>
    decreases n,
{
    if n < 10 {
        seq![(48 + n) as char]
    } else {
        decimal_chars(n / 10) + seq![(48 + n % 10) as char]
    }
}

/// Relies on `ToString` for `u8`, through its `Display`: the decimal digits
/// of the number, without sign or leading zeros.
#[verifier::external_body]
fn decimal_string(n: u8) -> (r: String)
    ensures
        r@ == decimal_chars(n as nat),
{
    n.to_string()
}

/// The text of a battery notice: `text`, the level, then a percent sign.
fn percent_message(text: &str, lvl: u8) -> (r: String)
    ensures
        r@ == text@ + decimal_chars(lvl as nat) + seq!['%'],
{
    let mut out = String::from_str(text);
    let digits = decimal_string(lvl);
    out.append(digits.as_str());
    out.append("%");
    proof {
        reveal_strlit("%");
    }
    out
}

/// The summary, text and urgency of a notice.
#[derive(Clone, Debug)]
pub struct EvInfo {
    pub summary: &'static str,
    pub body: String,
    pub urgency: Urgency,
}

impl EvInfo {
    /// What a notice of `notif` says: a battery notice gives the level and
    /// is as urgent as its priority; an adapter notice is of low urgency.
    pub fn from_notification(notif: Notification) -> (r: EvInfo)
        ensures
            match notif.event {
                BatEvent::Battery(l) => match notif.priority {
                    EvPriority::Low => r.summary@ == "Low Battery"@ && r.body@ == "Battery level is low at "@
                        + decimal_chars(l@) + seq!['%'] && r.urgency == Urgency::Low,
                    EvPriority::Normal => r.summary@ == "Low Battery"@ && r.body@
                        == "Battery level is low at "@ + decimal_chars(l@) + seq!['%'] && r.urgency
                        == Urgency::Normal,
                    EvPriority::High => r.summary@ == "Critical Battery"@ && r.body@
                        == "Battery level is critical at "@ + decimal_chars(l@) + seq!['%']
                        && r.urgency == Urgency::Critical,
                },
                BatEvent::Adapter(AdapterStatus::Connected) => r.summary@ == "AC Adapter Connected"@
                    && r.body@ == "AC Adapter has been connected"@ && r.urgency == Urgency::Low,
                BatEvent::Adapter(AdapterStatus::Disconnected) => r.summary@
                    == "AC Adapter Disconnected"@ && r.body@ == "AC Adapter has been disconnected"@
                    && r.urgency == Urgency::Low,
            },
    {
        match notif.event {
            BatEvent::Battery(lvl) => match notif.priority {
                EvPriority::Low => EvInfo {
                    summary: "Low Battery",
                    body: percent_message("Battery level is low at ", lvl.get()),
                    urgency: Urgency::Low,
                },
                EvPriority::Normal => EvInfo {
                    summary: "Low Battery",
                    body: percent_message("Battery level is low at ", lvl.get()),
                    urgency: Urgency::Normal,
                },
                EvPriority::High => EvInfo {
                    summary: "Critical Battery",
                    body: percent_message("Battery level is critical at ", lvl.get()),
                    urgency: Urgency::Critical,
                },
            },
            BatEvent::Adapter(AdapterStatus::Connected) => EvInfo {
                summary: "AC Adapter Connected",
                body: "AC Adapter has been connected".to_owned(),
                urgency: Urgency::Low,
            },
            BatEvent::Adapter(AdapterStatus::Disconnected) => EvInfo {
                summary: "AC Adapter Disconnected",
                body: "AC Adapter has been disconnected".to_owned(),
                urgency: Urgency::Low,
            },
        }
    }
}

/// A sink that shows each notice on the desktop, under an application name.
#[derive(Clone, Debug)]
pub struct NotifyConsumer {
    pub appname: String,
}

impl NotifyConsumer {
    pub fn new(appname: String) -> (r: NotifyConsumer)
        ensures
            r.appname@ == appname@,
    {
        NotifyConsumer { appname }
    }
}

/// A sink that prints each notice on standard output.
#[derive(Clone, Copy, Debug, Default)]
pub struct LoggerNotifier;

} // verus!
