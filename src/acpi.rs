//! The ACPI event family of generic netlink: its commands, its attributes,
//! the fixed layout of an event record, and what each event means for the
//! battery and the adapter.
use vstd::prelude::*;
use vstd::utf8::valid_utf8;
use crate::error::DecodeError;
use crate::model::{AdapterStatus, BatEvent};
use crate::parse::utf8_ok;

verus! {

const ACPI_GENL_CMD_UNSPEC: u8 = 0;
const ACPI_GENL_CMD_EVENT: u8 = 1;

const ACPI_GENL_ATTR_UNSPEC: u16 = 0;
const ACPI_GENL_ATTR_EVENT: u16 = 1;

/// The length of an event record: a 20-byte device class, a 15-byte bus id,
/// one byte of padding, then the 4-byte kind and the 4-byte data.
pub const RECORD_LEN: usize = 44;
/// The length of the device class field.
pub const DEVICE_CLASS_LEN: usize = 20;
const KIND_OFFSET: usize = 36;
const DATA_OFFSET: usize = 40;

/// A command of the ACPI event family.
#[derive(Clone, Copy, Debug, PartialEq, Eq, Structural)]
pub enum AcpiGenlCmd {
    Unspec,
    Event,
}

impl AcpiGenlCmd {
    /// The command's number on the wire.
    pub open spec fn to_u8_spec(self) -> u8 {
        match self {
            AcpiGenlCmd::Unspec => 0u8,
            AcpiGenlCmd::Event => 1u8,
        }
    }

    /// The command's number on the wire.
    pub fn to_u8(self) -> (r: u8)
        ensures
            r == self.to_u8_spec(),
    {
        match self {
            AcpiGenlCmd::Unspec => ACPI_GENL_CMD_UNSPEC,
            AcpiGenlCmd::Event => ACPI_GENL_CMD_EVENT,
        }
    }

    /// The command with number `value`, which must be 0 or 1.
    pub fn from_u8(value: u8) -> (r: Result<AcpiGenlCmd, DecodeError>)
        ensures
            value == 0 ==> r == Ok::<AcpiGenlCmd, DecodeError>(AcpiGenlCmd::Unspec),
            value == 1 ==> r == Ok::<AcpiGenlCmd, DecodeError>(AcpiGenlCmd::Event),
            value > 1 ==> r == Err::<AcpiGenlCmd, DecodeError>(DecodeError::UnknownCommand(value)),
    {
        match value {
            ACPI_GENL_CMD_UNSPEC => Ok(AcpiGenlCmd::Unspec),
            ACPI_GENL_CMD_EVENT => Ok(AcpiGenlCmd::Event),
            _ => Err(DecodeError::UnknownCommand(value)),
        }
    }
}

/// An ACPI hardware event: the class of the device that raised it, and two
/// numbers whose meaning depends on the class.
#[derive(Clone, Debug)]
pub struct AcpiGenlEvent {
    /// The device class, without its NUL terminator; valid UTF-8.
    pub device_class: Vec<u8>,
    pub kind: u32,
    pub data: u32,
}

/// The index of the first NUL byte of `s` in `[i, end)`, or `end` where
/// there is none.
pub open spec fn find_nul(s: Seq<u8>, i: int, end: int) -> int
    decreases end - i,
{
    if i >= end {
        end
    } else if s[i] == 0 {
        i
    } else {
        find_nul(s, i + 1, end)
    }
}

/// The unsigned number that four bytes write, least significant byte first.
pub open spec fn u32_le(b0: u8, b1: u8, b2: u8, b3: u8) -> nat {
    b0 as nat + b1 as nat * 256 + b2 as nat * 65536 + b3 as nat * 16777216
}

/// The unsigned number that four bytes write, most significant byte first.
pub open spec fn u32_be(b0: u8, b1: u8, b2: u8, b3: u8) -> nat {
    u32_le(b3, b2, b1, b0)
}

/// Whether `v` is what the four bytes of `s` from `at` write in the host's
/// byte order, which is either least or most significant byte first.
pub open spec fn host_u32_at(s: Seq<u8>, at: int, v: u32) -> bool {
    v as nat == u32_le(s[at], s[at + 1], s[at + 2], s[at + 3]) || v as nat == u32_be(
        s[at],
        s[at + 1],
        s[at + 2],
        s[at + 3],
    )
}

/// The device class of an event record, or why the record is malformed; its
/// kind and data are the host-order numbers at bytes 36 and 40.
pub open spec fn decode_record(rec: Seq<u8>) -> Result<Seq<u8>, DecodeError> {
    if rec.len() != 44 {
        Err(DecodeError::RecordLength(rec.len() as usize))
    } else {
        let end = find_nul(rec, 0, 20);
        if end == 20 {
            Err(DecodeError::DeviceClassNotTerminated)
        } else if !valid_utf8(rec.subrange(0, end)) {
            Err(DecodeError::DeviceClassNotUtf8)
        } else {
            Ok(rec.subrange(0, end))
        }
    }
}

/// Relies on `u32::from_ne_bytes`: the number that four bytes write in the
/// host's byte order.
#[verifier::external_body]
fn u32_from_ne(b0: u8, b1: u8, b2: u8, b3: u8) -> (r: u32)
    ensures
        r as nat == u32_le(b0, b1, b2, b3) || r as nat == u32_be(b0, b1, b2, b3),
{
    u32::from_ne_bytes([b0, b1, b2, b3])
}

/// The number that four bytes from `at` write in the host's byte order.
fn read_u32(rec: &[u8], at: usize) -> (r: u32)
    requires
        at + 4 <= rec@.len(),
    ensures
        host_u32_at(rec@, at as int, r),
{
    u32_from_ne(rec[at], rec[at + 1], rec[at + 2], rec[at + 3])
}

impl AcpiGenlEvent {
    /// The class of the device that raised the event.
    pub fn device_class(&self) -> (r: &[u8])
        ensures
            r@ == self.device_class@,
    {
        self.device_class.as_slice()
    }

    /// Decodes an event record; fails where its length is not that of a
    /// record, or its device class has no NUL within its 20 bytes, or is not
    /// valid UTF-8.
    pub fn try_from_bytes(rec: &[u8]) -> (r: Result<AcpiGenlEvent, DecodeError>)
        ensures
            match decode_record(rec@) {
                Ok(class) => r matches Ok(ev) && ev.device_class@ == class && host_u32_at(
                    rec@,
                    36,
                    ev.kind,
                ) && host_u32_at(rec@, 40, ev.data),
                Err(e) => r matches Err(f) && f == e,
            },
    {
        if rec.len() != RECORD_LEN {
            return Err(DecodeError::RecordLength(rec.len()));
        }
        let mut end: usize = 0;
        while end < DEVICE_CLASS_LEN && rec[end] != 0
            invariant
                rec@.len() == 44,
                0 <= end <= 20,
                find_nul(rec@, end as int, 20) == find_nul(rec@, 0, 20),
            decreases 20 - end,
        {
            end = end + 1;
        }
        if end == DEVICE_CLASS_LEN {
            return Err(DecodeError::DeviceClassNotTerminated);
        }
        let class = vstd::slice::slice_subrange(rec, 0, end);
        if !utf8_ok(class) {
            return Err(DecodeError::DeviceClassNotUtf8);
        }
        Ok(AcpiGenlEvent {
            device_class: vstd::slice::slice_to_vec(class),
            kind: read_u32(rec, KIND_OFFSET),
            data: read_u32(rec, DATA_OFFSET),
        })
    }
}

/// Names what netlink_packet_utils's attribute iterator yields for a buffer:
/// the kind and value of each well-formed attribute in order, and whether
/// the buffer ended in a malformed one.
pub uninterp spec fn nla_split(b: Seq<u8>) -> (Seq<(u16, Seq<u8>)>, bool);

/// Relies on netlink_packet_utils::nla::NlasIterator to walk the attributes
/// of a buffer; each one is handed on as its kind and value.
#[verifier::external_body]
fn split_nlas(buf: &[u8]) -> (r: (Vec<(u16, Vec<u8>)>, bool))
    ensures
        r.1 == nla_split(buf@).1,
        r.0@.len() == nla_split(buf@).0.len(),
        buf@.len() == 0 ==> r.0@.len() == 0 && !r.1,
        forall|i: int|
            0 <= i < r.0@.len() ==> #[trigger] r.0@[i].0 == nla_split(buf@).0[i].0 && r.0@[i].1@
                == nla_split(buf@).0[i].1,
{
    let mut attrs = Vec::new();
    for nla in netlink_packet_utils::nla::NlasIterator::new(buf) {
        match nla {
            Ok(n) => attrs.push((n.kind(), n.value().to_vec())),
            Err(_) => return (attrs, true),
        }
    }
    (attrs, false)
}

/// An attribute of an ACPI event message.
#[derive(Clone, Debug)]
pub enum AcpiGenlAttr {
    Unspec(Vec<u8>),
    Event(AcpiGenlEvent),
}

/// The error, if any, of decoding an attribute of kind `kind`.
pub open spec fn attr_error(kind: u16, value: Seq<u8>) -> Option<DecodeError> {
    if kind == 0 {
        None
    } else if kind == 1 {
        match decode_record(value) {
            Ok(_) => None,
            Err(e) => Some(e),
        }
    } else {
        Some(DecodeError::UnknownAttribute(kind))
    }
}

/// Whether `a` is what an attribute of kind `kind` decodes to.
pub open spec fn attr_matches(a: AcpiGenlAttr, kind: u16, value: Seq<u8>) -> bool {
    if kind == 0 {
        a matches AcpiGenlAttr::Unspec(v) && v@ == value
    } else {
        match decode_record(value) {
            Ok(class) => a matches AcpiGenlAttr::Event(ev) && ev.device_class@ == class
                && host_u32_at(value, 36, ev.kind) && host_u32_at(value, 40, ev.data),
            Err(_) => false,
        }
    }
}

/// The first error of decoding a list of attributes, if any: that of the
/// first attribute that fails, else that of a malformed end.
pub open spec fn first_attr_error(recs: Seq<(u16, Seq<u8>)>, malformed: bool) -> Option<
    DecodeError,
>
    decreases recs.len(),
{
    if recs.len() == 0 {
        if malformed {
            Some(DecodeError::MalformedAttributes)
        } else {
            None
        }
    } else {
        match attr_error(recs[0].0, recs[0].1) {
            Some(e) => Some(e),
            None => first_attr_error(recs.drop_first(), malformed),
        }
    }
}

impl AcpiGenlAttr {
    /// Decodes an attribute from its kind and value.
    pub fn parse(kind: u16, value: &[u8]) -> (r: Result<AcpiGenlAttr, DecodeError>)
        ensures
            match attr_error(kind, value@) {
                Some(e) => r matches Err(f) && f == e,
                None => r matches Ok(a) && attr_matches(a, kind, value@),
            },
    {
        if kind == ACPI_GENL_ATTR_UNSPEC {
            Ok(AcpiGenlAttr::Unspec(vstd::slice::slice_to_vec(value)))
        } else if kind == ACPI_GENL_ATTR_EVENT {
            match AcpiGenlEvent::try_from_bytes(value) {
                Ok(ev) => Ok(AcpiGenlAttr::Event(ev)),
                Err(e) => Err(e),
            }
        } else {
            Err(DecodeError::UnknownAttribute(kind))
        }
    }
}

/// Decodes the attribute list of an ACPI event message.
pub fn parse_nlas(buf: &[u8]) -> (r: Result<Vec<AcpiGenlAttr>, DecodeError>)
    ensures
        match first_attr_error(nla_split(buf@).0, nla_split(buf@).1) {
            Some(e) => r matches Err(f) && f == e,
            None => r matches Ok(v) && v@.len() == nla_split(buf@).0.len() && forall|i: int|
                0 <= i < v@.len() ==> attr_matches(
                    #[trigger] v@[i],
                    nla_split(buf@).0[i].0,
                    nla_split(buf@).0[i].1,
                ),
        },
{
    let (recs, malformed) = split_nlas(buf);
    let ghost model = nla_split(buf@).0;
    let mut out: Vec<AcpiGenlAttr> = Vec::new();
    let mut i: usize = 0;
    assert(model.subrange(0, model.len() as int) =~= model);
    while i < recs.len()
        invariant
            0 <= i <= recs@.len(),
            recs@.len() == model.len(),
            malformed == nla_split(buf@).1,
            model == nla_split(buf@).0,
            forall|j: int|
                0 <= j < recs@.len() ==> #[trigger] recs@[j].0 == model[j].0 && recs@[j].1@
                    == model[j].1,
            first_attr_error(model, malformed) == first_attr_error(
                model.subrange(i as int, model.len() as int),
                malformed,
            ),
            out@.len() == i,
            forall|j: int| 0 <= j < i ==> attr_matches(#[trigger] out@[j], model[j].0, model[j].1),
        decreases recs@.len() - i,
    {
        let ghost rest = model.subrange(i as int, model.len() as int);
        assert(rest[0] == model[i as int]);
        assert(rest.drop_first() =~= model.subrange(i + 1, model.len() as int));
        match AcpiGenlAttr::parse(recs[i].0, recs[i].1.as_slice()) {
            Ok(a) => out.push(a),
            Err(e) => return Err(e),
        }
        i = i + 1;
    }
    assert(model.subrange(i as int, model.len() as int) =~= Seq::<(u16, Seq<u8>)>::empty());
    if malformed {
        return Err(DecodeError::MalformedAttributes);
    }
    Ok(out)
}

/// A message of the ACPI event family: its command and its attributes.
#[derive(Clone, Debug)]
pub struct AcpiGenl {
    pub cmd: AcpiGenlCmd,
    pub nlas: Vec<AcpiGenlAttr>,
}

impl AcpiGenl {
    /// Decodes a message from the command of its generic-netlink header and
    /// its payload; the command is checked first.
    pub fn parse_with_param(buf: &[u8], cmd: u8) -> (r: Result<AcpiGenl, DecodeError>)
        ensures
            cmd > 1 ==> r == Err::<AcpiGenl, DecodeError>(DecodeError::UnknownCommand(cmd)),
            cmd <= 1 ==> match first_attr_error(nla_split(buf@).0, nla_split(buf@).1) {
                Some(e) => r matches Err(f) && f == e,
                None => r matches Ok(m) && m.cmd.to_u8_spec() == cmd && m.nlas@.len()
                    == nla_split(buf@).0.len() && forall|i: int|
                    0 <= i < m.nlas@.len() ==> attr_matches(
                        #[trigger] m.nlas@[i],
                        nla_split(buf@).0[i].0,
                        nla_split(buf@).0[i].1,
                    ),
            },
    {
        let cmd = match AcpiGenlCmd::from_u8(cmd) {
            Ok(c) => c,
            Err(e) => return Err(e),
        };
        match parse_nlas(buf) {
            Ok(nlas) => Ok(AcpiGenl { cmd, nlas }),
            Err(e) => Err(e),
        }
    }
}

/// The bit of the multicast group `group` in a socket's group mask; group 0
/// has none.
pub fn group_bitmap(group: u32) -> (r: u32)
    requires
        group <= 32,
    ensures
        group == 0 ==> r == 0,
        group > 0 ==> r == 1u32 << ((group - 1) as u32),
{
    if group != 0 {
        1u32 << (group - 1)
    } else {
        0
    }
}

/// What an ACPI event asks of the event source.
#[derive(Clone, Copy, Debug, PartialEq, Eq, Structural)]
pub enum AcpiAction {
    /// Report this event.
    Report(BatEvent),
    /// The battery's state changed: read its level afresh.
    RefreshBattery,
}

/// The device class "ac_adapter".
pub open spec fn ac_adapter_class() -> Seq<u8> {
    seq![97u8, 99u8, 95u8, 97u8, 100u8, 97u8, 112u8, 116u8, 101u8, 114u8]
}

/// The device class "battery".
pub open spec fn battery_class() -> Seq<u8> {
    seq![98u8, 97u8, 116u8, 116u8, 101u8, 114u8, 121u8]
}

/// What an event of device class `class` and data `data` asks: an adapter
/// event (connected where the data is 1), a fresh battery reading whatever
/// the event carries, or nothing for any other class.
pub open spec fn action_of(class: Seq<u8>, data: u32) -> Option<AcpiAction> {
    if class == ac_adapter_class() {
        Some(
            AcpiAction::Report(
                BatEvent::Adapter(
                    if data == 1 {
                        AdapterStatus::Connected
                    } else {
                        AdapterStatus::Disconnected
                    },
                ),
            ),
        )
    } else if class == battery_class() {
        Some(AcpiAction::RefreshBattery)
    } else {
        None
    }
}

/// A battery event never takes its level from the event: whatever its kind
/// and data, it asks for a fresh reading of the battery.
pub proof fn lemma_battery_event_ignores_payload(ev1: AcpiGenlEvent, ev2: AcpiGenlEvent)
    requires
        ev1.device_class@ == battery_class(),
        ev2.device_class@ == battery_class(),
    ensures
        action_of(ev1.device_class@, ev1.data) == Some(AcpiAction::RefreshBattery),
        action_of(ev1.device_class@, ev1.data) == action_of(ev2.device_class@, ev2.data),
{
    assert(battery_class() != ac_adapter_class()) by {
        assert(battery_class()[0] != ac_adapter_class()[0]);
    }
}

fn is_ac_adapter(c: &[u8]) -> (r: bool)
    ensures
        r == (c@ == ac_adapter_class()),
{
    let r = c.len() == 10 && c[0] == 97u8 && c[1] == 99u8 && c[2] == 95u8 && c[3] == 97u8 && c[4]
        == 100u8 && c[5] == 97u8 && c[6] == 112u8 && c[7] == 116u8 && c[8] == 101u8 && c[9]
        == 114u8;
    proof {
        if r {
            assert(c@ =~= ac_adapter_class());
        }
        if c@ == ac_adapter_class() {
            assert(c@[9] == 114u8);
        }
    }
    r
}

fn is_battery(c: &[u8]) -> (r: bool)
    ensures
        r == (c@ == battery_class()),
{
    let r = c.len() == 7 && c[0] == 98u8 && c[1] == 97u8 && c[2] == 116u8 && c[3] == 116u8 && c[4]
        == 101u8 && c[5] == 114u8 && c[6] == 121u8;
    proof {
        if r {
            assert(c@ =~= battery_class());
        }
        if c@ == battery_class() {
            assert(c@[6] == 121u8);
        }
    }
    r
}

impl AcpiGenlEvent {
    /// What this event asks of the event source, if anything.
    pub fn action(&self) -> (r: Option<AcpiAction>)
        ensures
            r == action_of(self.device_class@, self.data),
    {
        let class = self.device_class.as_slice();
        if is_ac_adapter(class) {
            if self.data == 1 {
                Some(AcpiAction::Report(BatEvent::Adapter(AdapterStatus::Connected)))
            } else {
                Some(AcpiAction::Report(BatEvent::Adapter(AdapterStatus::Disconnected)))
            }
        } else if is_battery(class) {
            Some(AcpiAction::RefreshBattery)
        } else {
            None
        }
    }
}

/// What an attribute asks of the event source: only events ask anything.
pub open spec fn attr_action(a: AcpiGenlAttr) -> Option<AcpiAction> {
    match a {
        AcpiGenlAttr::Event(ev) => action_of(ev.device_class@, ev.data),
        AcpiGenlAttr::Unspec(_) => None,
    }
}

/// The index of the first attribute from `i` on that asks something, or the
/// length of `s` where none does.
pub open spec fn first_action_from(s: Seq<AcpiGenlAttr>, i: int) -> int
    decreases s.len() - i,
{
    if i >= s.len() {
        s.len() as int
    } else if attr_action(s[i]) is Some {
        i
    } else {
        first_action_from(s, i + 1)
    }
}

proof fn lemma_first_action_bounds(s: Seq<AcpiGenlAttr>, i: int)
    requires
        0 <= i <= s.len(),
    ensures
        i <= first_action_from(s, i) <= s.len(),
        first_action_from(s, i) < s.len() ==> attr_action(s[first_action_from(s, i)]) is Some,
    decreases s.len() - i,
{
    if i < s.len() && attr_action(s[i]) is None {
        lemma_first_action_bounds(s, i + 1);
    }
}

/// The decisions of the ACPI event source: which messages belong to the ACPI
/// event family, and which of their attributes become events.
#[derive(Debug)]
pub struct AcpiStream {
    /// The id of the ACPI event family.
    pub family_id: u16,
    /// The attributes of the last message of the family.
    pub pending: Vec<AcpiGenlAttr>,
    /// The index of the first attribute of `pending` not yet looked at.
    pub next: usize,
}

impl AcpiStream {
    pub open spec fn wf(&self) -> bool {
        self.next <= self.pending@.len()
    }

    /// A source for the family `family_id`, with nothing pending.
    pub fn new(family_id: u16) -> (r: AcpiStream)
        ensures
            r.wf(),
            r.family_id == family_id,
            r.pending@.len() == 0,
    {
        AcpiStream { family_id, pending: Vec::new(), next: 0 }
    }

    /// Takes a message of the family `family_id`; one of another family is
    /// ignored.
    pub fn on_message(&mut self, family_id: u16, msg: AcpiGenl)
        requires
            old(self).wf(),
        ensures
            final(self).wf(),
            final(self).family_id == old(self).family_id,
            family_id == old(self).family_id ==> final(self).pending@ == msg.nlas@
                && final(self).next == 0,
            family_id != old(self).family_id ==> final(self).pending@ == old(self).pending@
                && final(self).next == old(self).next,
    {
        if family_id == self.family_id {
            self.pending = msg.nlas;
            self.next = 0;
        }
    }

    /// The next thing that the pending attributes ask, in their order; where
    /// none is left, the pending attributes are dropped.
    pub fn next_buf(&mut self) -> (r: Option<AcpiAction>)
        requires
            old(self).wf(),
        ensures
            final(self).wf(),
            final(self).family_id == old(self).family_id,
            first_action_from(old(self).pending@, old(self).next as int) < old(self).pending@.len()
                ==> r == attr_action(
                old(self).pending@[first_action_from(old(self).pending@, old(self).next as int)],
            ),
            first_action_from(old(self).pending@, old(self).next as int) < old(self).pending@.len()
                ==> r is Some,
            first_action_from(old(self).pending@, old(self).next as int) < old(self).pending@.len()
                ==> final(self).pending@ == old(self).pending@,
            first_action_from(old(self).pending@, old(self).next as int) < old(self).pending@.len()
                ==> final(self).next == first_action_from(old(self).pending@, old(self).next as int)
                + 1,
            first_action_from(old(self).pending@, old(self).next as int) >= old(self).pending@.len()
                ==> r is None && final(self).pending@.len() == 0,
    {
        proof {
            lemma_first_action_bounds(self.pending@, self.next as int);
        }
        let ghost k = first_action_from(self.pending@, self.next as int);
        let mut i = self.next;
        let mut found: Option<AcpiAction> = None;
        while found.is_none() && i < self.pending.len()
            invariant
                self.next <= i <= self.pending@.len(),
                self.pending@ == old(self).pending@,
                self.next == old(self).next,
                self.family_id == old(self).family_id,
                found is None ==> first_action_from(self.pending@, i as int) == k,
                found is Some ==> i >= 1 && k == i - 1 && found == attr_action(
                    self.pending@[k],
                ),
            decreases self.pending@.len() - i + (if found is None { 1int } else { 0 }),
        {
            let act = match &self.pending[i] {
                AcpiGenlAttr::Event(ev) => ev.action(),
                AcpiGenlAttr::Unspec(_) => None,
            };
            assert(act == attr_action(self.pending@[i as int]));
            found = act;
            i = i + 1;
        }
        if found.is_some() {
            self.next = i;
            return found;
        }
        self.pending = Vec::new();
        self.next = 0;
        None
    }
}

} // verus!
