//! What a CEC device decides from the data the kernel hands it: framing
//! messages to send, reading received ones, interpreting events, poll
//! results and connector data, and filling in the logical address request.

use vstd::prelude::*;

use crate::address::{LogicalAddress, LogicalAddressType, PhysicalAddress};
use crate::codec::{result_view, slice_from};
use crate::error::{invalid_value, Error, ErrorView, Range, RangeView};
use crate::message::Message;
use crate::operand::buffer::{BoundedBufferOperand, BufferOperand};
use crate::operand::scalar::VendorId;
use crate::sys::{cec_connector_info, cec_event, cec_log_addrs, cec_msg, header};
use vstd::string::StringSliceAdditionalSpecFns;
use vstd::utf8::{
    encode_utf8_valid_utf8, is_char_boundary, length_of_first_scalar, pop_first_scalar, valid_utf8,
};

verus! {

broadcast use vstd::array::group_array_axioms;

/// A received message and what came with it.
#[derive(Clone, Copy, Debug, PartialEq, Eq, Hash)]
pub struct Envelope {
    /// The message.
    pub message: Message,
    /// The logical address of the sender.
    pub initiator: LogicalAddress,
    /// The logical address the message was sent to.
    pub destination: LogicalAddress,
    /// When the message was received, in nanoseconds.
    pub timestamp: u64,
}

/// A physical pin that can be monitored.
#[derive(Clone, Copy, Debug, PartialEq, Eq, Structural, Hash)]
pub enum Pin {
    /// The CEC data pin.
    Cec,
    /// The hot plug detect pin.
    HotPlugDetect,
    /// The +5 V power pin.
    Power5V,
}

/// The logic level of a pin.
#[derive(Clone, Copy, Debug, PartialEq, Eq, Structural, Hash)]
pub enum PinState {
    Low,
    High,
}

/// A change of the logic level of a pin.
#[derive(Clone, Copy, Debug, PartialEq, Eq, Structural, Hash)]
pub struct PinEvent {
    /// The pin.
    pub pin: Pin,
    /// Its new level.
    pub state: PinState,
}

/// What polling the kernel queues found.
#[derive(Clone, Copy, Debug, PartialEq, Eq, Structural, Hash)]
pub enum PollStatus {
    Nothing,
    Destroyed,
    GotEvent,
    GotMessage,
    GotAll,
}

impl PollStatus {
    /// Whether a message is waiting.
    pub fn got_message(&self) -> (r: bool)
        ensures
            r == (*self is GotMessage || *self is GotAll),
    {
        match self {
            PollStatus::GotMessage | PollStatus::GotAll => true,
            _ => false,
        }
    }

    /// Whether an event is waiting.
    pub fn got_event(&self) -> (r: bool)
        ensures
            r == (*self is GotEvent || *self is GotAll),
    {
        match self {
            PollStatus::GotEvent | PollStatus::GotAll => true,
            _ => false,
        }
    }
}

/// One message or event taken from the kernel.
#[derive(Clone, Copy, Debug, PartialEq, Eq, Hash)]
pub enum PollResult {
    /// A received message.
    Message(Envelope),
    /// A monitored pin changed its level.
    PinEvent(PinEvent),
    /// The queue was full and this many messages were lost.
    LostMessages(u32),
    /// The state of the device changed; its addresses are to be read again.
    StateChange,
}

/// The connector tied to an adapter.
#[derive(Clone, Copy, Debug, PartialEq, Eq, Hash)]
pub enum ConnectorInfo {
    /// No connector.
    NoConnector,
    /// A DRM connector.
    DrmConnector {
        /// The DRM card number.
        card_no: u32,
        /// The DRM connector ID.
        connector_id: u32,
    },
    /// A connector of a type this library does not know.
    Unknown { ty: u32, data: [u32; 16] },
}

impl ConnectorInfo {
    /// The connector that the kernel's connector data describe.
    pub fn from_raw(info: &cec_connector_info) -> (r: ConnectorInfo)
        ensures
            info.ty == crate::sys::CEC_CONNECTOR_TYPE_NO_CONNECTOR ==> r == ConnectorInfo::NoConnector,
            info.ty == crate::sys::CEC_CONNECTOR_TYPE_DRM ==> r == (ConnectorInfo::DrmConnector {
                card_no: info.data[0],
                connector_id: info.data[1],
            }),
            info.ty != crate::sys::CEC_CONNECTOR_TYPE_NO_CONNECTOR && info.ty != crate::sys::CEC_CONNECTOR_TYPE_DRM
                ==> r == (ConnectorInfo::Unknown { ty: info.ty, data: info.data }),
    {
        if info.ty == crate::sys::CEC_CONNECTOR_TYPE_NO_CONNECTOR {
            ConnectorInfo::NoConnector
        } else if info.ty == crate::sys::CEC_CONNECTOR_TYPE_DRM {
            let drm = info.drm();
            ConnectorInfo::DrmConnector { card_no: drm.card_no, connector_id: drm.connector_id }
        } else {
            ConnectorInfo::Unknown { ty: info.ty, data: info.data }
        }
    }
}

/// The poll bit of readable data: a message is waiting.
pub const POLLIN: u16 = 0x1;

/// The poll bit of urgent data: an event is waiting.
pub const POLLPRI: u16 = 0x2;

/// The poll bit of a hang-up: the device is gone.
pub const POLLHUP: u16 = 0x10;

/// The status that a poll reports: `ready` descriptors were ready, and the
/// device's returned events are `revents`, if any.
pub open spec fn spec_poll_status(ready: i32, revents: Option<u16>) -> Result<PollStatus, ErrorView> {
    if ready == 0 {
        Err(ErrorView::Timeout)
    } else {
        match revents {
            None => Ok(PollStatus::Nothing),
            Some(flags) => if flags & POLLHUP == POLLHUP {
                Ok(PollStatus::Destroyed)
            } else if flags & (POLLIN | POLLPRI) == (POLLIN | POLLPRI) {
                Ok(PollStatus::GotAll)
            } else if flags & POLLIN == POLLIN {
                Ok(PollStatus::GotMessage)
            } else if flags & POLLPRI == POLLPRI {
                Ok(PollStatus::GotEvent)
            } else {
                Err(ErrorView::UnknownError("Polling error encountered"@))
            },
        }
    }
}

impl PollStatus {
    /// The status that a poll reports, from the number of ready descriptors
    /// and the device's returned events: none ready is a timeout, and events
    /// that name none of the expected conditions are an error.
    pub fn from_poll(ready: i32, revents: Option<u16>) -> (r: Result<PollStatus, Error>)
        ensures
            result_view(r) == spec_poll_status(ready, revents),
    {
        if ready == 0 {
            return Err(Error::Timeout);
        }
        match revents {
            None => Ok(PollStatus::Nothing),
            Some(flags) => {
                if flags & POLLHUP == POLLHUP {
                    Ok(PollStatus::Destroyed)
                } else if flags & (POLLIN | POLLPRI) == (POLLIN | POLLPRI) {
                    Ok(PollStatus::GotAll)
                } else if flags & POLLIN == POLLIN {
                    Ok(PollStatus::GotMessage)
                } else if flags & POLLPRI == POLLPRI {
                    Ok(PollStatus::GotEvent)
                } else {
                    Err(Error::UnknownError("Polling error encountered".to_owned()))
                }
            },
        }
    }
}

/// What an event of the kernel reports: the result it gives, or an error for
/// an event of an unknown kind.
pub open spec fn spec_event_result(ev: cec_event) -> Result<PollResult, ErrorView> {
    if ev.event == crate::sys::CEC_EVENT_STATE_CHANGE {
        Ok(PollResult::StateChange)
    } else if ev.event == crate::sys::CEC_EVENT_LOST_MSGS {
        Ok(PollResult::LostMessages(ev.data[0]))
    } else if ev.event == crate::sys::CEC_EVENT_PIN_CEC_LOW {
        Ok(PollResult::PinEvent(PinEvent { pin: Pin::Cec, state: PinState::Low }))
    } else if ev.event == crate::sys::CEC_EVENT_PIN_CEC_HIGH {
        Ok(PollResult::PinEvent(PinEvent { pin: Pin::Cec, state: PinState::High }))
    } else if ev.event == crate::sys::CEC_EVENT_PIN_HPD_LOW {
        Ok(PollResult::PinEvent(PinEvent { pin: Pin::HotPlugDetect, state: PinState::Low }))
    } else if ev.event == crate::sys::CEC_EVENT_PIN_HPD_HIGH {
        Ok(PollResult::PinEvent(PinEvent { pin: Pin::HotPlugDetect, state: PinState::High }))
    } else if ev.event == crate::sys::CEC_EVENT_PIN_5V_LOW {
        Ok(PollResult::PinEvent(PinEvent { pin: Pin::Power5V, state: PinState::Low }))
    } else if ev.event == crate::sys::CEC_EVENT_PIN_5V_HIGH {
        Ok(PollResult::PinEvent(PinEvent { pin: Pin::Power5V, state: PinState::High }))
    } else {
        Err(ErrorView::SystemError)
    }
}

/// The result that a dequeued event reports. A state change asks the
/// caller to read the device's logical addresses again.
pub fn event_result(ev: &cec_event) -> (r: Result<PollResult, Error>)
    ensures
        result_view(r) == spec_event_result(*ev),
{
    if ev.event == crate::sys::CEC_EVENT_STATE_CHANGE {
        Ok(PollResult::StateChange)
    } else if ev.event == crate::sys::CEC_EVENT_LOST_MSGS {
        Ok(PollResult::LostMessages(ev.lost_msgs().lost_msgs))
    } else if ev.event == crate::sys::CEC_EVENT_PIN_CEC_LOW {
        Ok(PollResult::PinEvent(PinEvent { pin: Pin::Cec, state: PinState::Low }))
    } else if ev.event == crate::sys::CEC_EVENT_PIN_CEC_HIGH {
        Ok(PollResult::PinEvent(PinEvent { pin: Pin::Cec, state: PinState::High }))
    } else if ev.event == crate::sys::CEC_EVENT_PIN_HPD_LOW {
        Ok(PollResult::PinEvent(PinEvent { pin: Pin::HotPlugDetect, state: PinState::Low }))
    } else if ev.event == crate::sys::CEC_EVENT_PIN_HPD_HIGH {
        Ok(PollResult::PinEvent(PinEvent { pin: Pin::HotPlugDetect, state: PinState::High }))
    } else if ev.event == crate::sys::CEC_EVENT_PIN_5V_LOW {
        Ok(PollResult::PinEvent(PinEvent { pin: Pin::Power5V, state: PinState::Low }))
    } else if ev.event == crate::sys::CEC_EVENT_PIN_5V_HIGH {
        Ok(PollResult::PinEvent(PinEvent { pin: Pin::Power5V, state: PinState::High }))
    } else {
        Err(Error::SystemError)
    }
}

/// A poll in which no descriptor was ready timed out. Otherwise a hang-up
/// (bit 0x10) means the device is gone; readable data (bit 0x1) together
/// with urgent data (bit 0x2) means a message and an event wait; readable
/// data alone, a message; urgent data alone, an event.
pub proof fn lemma_poll_status(ready: i32, flags: u16)
    ensures
        spec_poll_status(0, Some(flags)) == Err::<PollStatus, ErrorView>(ErrorView::Timeout),
        ready != 0 ==> spec_poll_status(ready, None) == Ok::<PollStatus, ErrorView>(PollStatus::Nothing),
        ready != 0 && flags & 0x10u16 == 0x10u16 ==> spec_poll_status(ready, Some(flags)) == Ok::<
            PollStatus,
            ErrorView,
        >(PollStatus::Destroyed),
        ready != 0 && flags & 0x10u16 == 0 && flags & 0x1u16 == 0x1u16 && flags & 0x2u16 == 0x2u16
            ==> spec_poll_status(ready, Some(flags)) == Ok::<PollStatus, ErrorView>(PollStatus::GotAll),
        ready != 0 && flags & 0x10u16 == 0 && flags & 0x1u16 == 0x1u16 && flags & 0x2u16 == 0
            ==> spec_poll_status(ready, Some(flags)) == Ok::<PollStatus, ErrorView>(PollStatus::GotMessage),
        ready != 0 && flags & 0x10u16 == 0 && flags & 0x1u16 == 0 && flags & 0x2u16 == 0x2u16
            ==> spec_poll_status(ready, Some(flags)) == Ok::<PollStatus, ErrorView>(PollStatus::GotEvent),
{
    assert(0x1u16 | 0x2u16 == 0x3u16) by (bit_vector);
    assert(POLLIN | POLLPRI == 0x3u16);
    assert(flags & 0x3u16 == 0x3u16 <==> (flags & 0x1u16 == 0x1u16 && flags & 0x2u16 == 0x2u16)) by (bit_vector);
}

/// The kernel's events map to results by their numbers: 1 a state change,
/// 2 lost messages with their count, 3 and 4 the CEC pin going low and
/// high, 5 and 6 the hot plug detect pin, 7 and 8 the +5 V pin; any other
/// number is an error.
pub proof fn lemma_event_result(ev: cec_event)
    ensures
        ev.event == 1 ==> spec_event_result(ev) == Ok::<PollResult, ErrorView>(PollResult::StateChange),
        ev.event == 2 ==> spec_event_result(ev) == Ok::<PollResult, ErrorView>(PollResult::LostMessages(ev.data[0])),
        ev.event == 3 ==> spec_event_result(ev) == Ok::<PollResult, ErrorView>(
            PollResult::PinEvent((PinEvent { pin: Pin::Cec, state: PinState::Low })),
        ),
        ev.event == 4 ==> spec_event_result(ev) == Ok::<PollResult, ErrorView>(
            PollResult::PinEvent((PinEvent { pin: Pin::Cec, state: PinState::High })),
        ),
        ev.event == 5 ==> spec_event_result(ev) == Ok::<PollResult, ErrorView>(
            PollResult::PinEvent((PinEvent { pin: Pin::HotPlugDetect, state: PinState::Low })),
        ),
        ev.event == 6 ==> spec_event_result(ev) == Ok::<PollResult, ErrorView>(
            PollResult::PinEvent((PinEvent { pin: Pin::HotPlugDetect, state: PinState::High })),
        ),
        ev.event == 7 ==> spec_event_result(ev) == Ok::<PollResult, ErrorView>(
            PollResult::PinEvent((PinEvent { pin: Pin::Power5V, state: PinState::Low })),
        ),
        ev.event == 8 ==> spec_event_result(ev) == Ok::<PollResult, ErrorView>(
            PollResult::PinEvent((PinEvent { pin: Pin::Power5V, state: PinState::High })),
        ),
        (ev.event == 0 || ev.event > 8) ==> spec_event_result(ev) == Err::<PollResult, ErrorView>(
            ErrorView::SystemError,
        ),
{
}

/// The logical address a device sends from: its first claimed address, or
/// the unregistered address when it claims none or the first is unknown.
pub open spec fn spec_tx_address(log_addrs: cec_log_addrs) -> LogicalAddress {
    if log_addrs.num_log_addrs > 0 {
        match LogicalAddress::from_code(log_addrs.log_addr[0]) {
            Some(a) => a,
            None => LogicalAddress::UnregisteredOrBroadcast,
        }
    } else {
        LogicalAddress::UnregisteredOrBroadcast
    }
}

/// The logical address a device sends from, given its logical addresses.
pub fn tx_address(log_addrs: &cec_log_addrs) -> (r: LogicalAddress)
    ensures
        r == spec_tx_address(*log_addrs),
{
    if log_addrs.num_log_addrs > 0 {
        match LogicalAddress::try_from_u8(log_addrs.log_addr[0]) {
            Ok(a) => a,
            Err(_) => LogicalAddress::UNREGISTERED,
        }
    } else {
        LogicalAddress::UNREGISTERED
    }
}

/// The payload of a kernel message holding `bytes` after its header byte
/// `first`: at most fifteen of them, the rest of the sixteen bytes zero.
pub open spec fn framed_payload(first: u8, bytes: Seq<u8>) -> Seq<u8> {
    let n = if bytes.len() < 15 {
        bytes.len() as int
    } else {
        15
    };
    Seq::new(16, |i: int| if i == 0 { first } else if i <= n { bytes[i - 1] } else { 0u8 })
}

/// The kernel message that sends `message` from `initiator` to
/// `destination`: the header, then the encoding of the message, cut to the
/// fifteen bytes that a frame holds.
pub fn frame_message(message: &Message, initiator: LogicalAddress, destination: LogicalAddress) -> (r: cec_msg)
    ensures
        r.len == (if message.spec_bytes().len() < 15 { message.spec_bytes().len() } else { 15 }) + 1,
        r.msg@ == framed_payload(header(initiator.code(), destination.code()), message.spec_bytes()),
        r.timeout == 0 && r.reply == 0 && r.sequence == 0 && r.flags == 0,
        r.rx_status == 0 && r.tx_status == 0,
{
    let mut raw = cec_msg::new(initiator.to_u8(), destination.to_u8());
    let bytes = message.to_bytes();
    let n = if bytes.len() < 15 { bytes.len() } else { 15 };
    raw.len = (n + 1) as u32;
    let mut i: usize = 0;
    while i < n
        invariant
            n <= 15,
            n <= bytes@.len(),
            bytes@ == message.spec_bytes(),
            i <= n,
            raw.msg@.len() == 16,
            raw.msg@[0] == header(initiator.code(), destination.code()),
            forall|j: int| 1 <= j <= i ==> raw.msg@[j] == bytes@[j - 1],
            forall|j: int| i < j < 16 ==> raw.msg@[j] == 0u8,
            raw.len == n + 1,
            raw.timeout == 0 && raw.reply == 0 && raw.sequence == 0 && raw.flags == 0,
            raw.rx_status == 0 && raw.tx_status == 0,
        decreases n - i,
    {
        raw.msg[i + 1] = bytes[i];
        i = i + 1;
    }
    proof {
        assert(raw.msg@ =~= framed_payload(header(initiator.code(), destination.code()), message.spec_bytes()));
    }
    raw
}

/// The receive status bit of a receive that timed out.
pub open spec fn rx_timed_out(raw: cec_msg) -> bool {
    raw.rx_status & crate::sys::CEC_RX_STATUS_TIMEOUT != 0
}

/// What a received kernel message holds: a timeout, invalid data for a
/// length beyond fifteen, or the envelope of the decoded message.
pub open spec fn spec_envelope(raw: cec_msg) -> Result<Envelope, ErrorView> {
    if rx_timed_out(raw) {
        Err(ErrorView::Timeout)
    } else if raw.len > 15 {
        Err(ErrorView::InvalidData)
    } else {
        match Message::spec_parse(raw.msg@.subrange(1, raw.len as int)) {
            Err(e) => Err(e),
            Ok(message) => Ok(
                Envelope {
                    message,
                    initiator: LogicalAddress::from_code(raw.msg[0] >> 4u8).unwrap(),
                    destination: LogicalAddress::from_code(raw.msg[0] & 0xfu8).unwrap(),
                    timestamp: raw.rx_ts,
                },
            ),
        }
    }
}

/// A received message comes from the logical address held by the high four
/// bits of its first byte and goes to the one held by the low four bits.
pub proof fn lemma_envelope_addresses(raw: cec_msg, initiator: LogicalAddress, destination: LogicalAddress)
    requires
        raw.msg[0] == initiator.code() * 16 + destination.code(),
    ensures
        (spec_envelope(raw) matches Ok(env) ==> env.initiator == initiator && env.destination == destination),
{
    let h = raw.msg[0];
    let i = initiator.code();
    let d = destination.code();
    assert(i < 16 && d < 16);
    assert(h >> 4u8 == i && h & 0xfu8 == d) by (bit_vector)
        requires
            i < 16 && d < 16 && h == i * 16 + d,
    ;
    initiator.lemma_code(0);
    destination.lemma_code(0);
}

/// Reading back a frame that carries `message`, short enough for one
/// frame, from `initiator` to `destination` gives that message, that
/// initiator and that destination.
pub proof fn lemma_frame_envelope(
    raw: cec_msg,
    message: Message,
    initiator: LogicalAddress,
    destination: LogicalAddress,
)
    requires
        message.spec_wf(),
        message.spec_bytes().len() < 15,
        raw.len == message.spec_bytes().len() + 1,
        raw.msg@ == framed_payload(header(initiator.code(), destination.code()), message.spec_bytes()),
        !rx_timed_out(raw),
    ensures
        spec_envelope(raw) == Ok::<Envelope, ErrorView>(
            (Envelope { message, initiator, destination, timestamp: raw.rx_ts }),
        ),
{
    let i = initiator.code();
    let d = destination.code();
    assert(i < 16 && d < 16);
    crate::sys::lemma_header();
    assert(raw.msg[0] == header(i, d));
    assert(header(i, d) >> 4u8 == i);
    assert(header(i, d) & 0xfu8 == d);
    initiator.lemma_code(0);
    destination.lemma_code(0);
    assert(raw.msg@.subrange(1, raw.len as int) =~= message.spec_bytes() + Seq::<u8>::empty());
    crate::message::lemma_message_roundtrip(message, Seq::<u8>::empty());
}

/// The envelope of a received kernel message, whose length must be at least
/// one unless the receive timed out.
pub fn envelope_of(raw: &cec_msg) -> (r: Result<Envelope, Error>)
    requires
        rx_timed_out(*raw) || raw.len >= 1,
    ensures
        result_view(r) == spec_envelope(*raw),
{
    if raw.rx_status & crate::sys::CEC_RX_STATUS_TIMEOUT != 0 {
        return Err(Error::Timeout);
    }
    if raw.len > 15 {
        return Err(Error::InvalidData);
    }
    let all: &[u8] = &raw.msg;
    let bytes = &all[1..raw.len as usize];
    proof {
        crate::sys::lemma_header();
        LogicalAddress::lemma_all_codes();
    }
    let initiator = match LogicalAddress::try_from_u8(raw.msg[0] >> 4) {
        Ok(a) => a,
        Err(e) => return Err(e),
    };
    let destination = match LogicalAddress::try_from_u8(raw.msg[0] & 0xf) {
        Ok(a) => a,
        Err(e) => return Err(e),
    };
    let message = match Message::try_from_bytes(bytes) {
        Ok(m) => m,
        Err(e) => return Err(e),
    };
    Ok(Envelope { message, initiator, destination, timestamp: raw.rx_ts })
}

/// The logical addresses that a device has claimed: the first
/// `num_log_addrs`, each of which must be a known address.
pub fn logical_addresses(log_addrs: &cec_log_addrs) -> (r: Result<Vec<LogicalAddress>, Error>)
    requires
        log_addrs.num_log_addrs <= 4,
    ensures
        r matches Ok(v) ==> v@.len() == log_addrs.num_log_addrs && forall|i: int|
            0 <= i < v@.len() ==> LogicalAddress::from_code(log_addrs.log_addr[i]) == Some(#[trigger] v@[i]),
        r is Err <==> exists|i: int|
            0 <= i < log_addrs.num_log_addrs && LogicalAddress::from_code(#[trigger] log_addrs.log_addr[i]) is None,
        r matches Err(e) ==> exists|i: int|
            {
                &&& 0 <= i < log_addrs.num_log_addrs
                &&& LogicalAddress::from_code(#[trigger] log_addrs.log_addr[i]) is None
                &&& forall|j: int| 0 <= j < i ==> LogicalAddress::from_code(log_addrs.log_addr[j]) is Some
                &&& e@ == invalid_value("LogicalAddress"@, log_addrs.log_addr[i] as nat)
            },
{
    let mut v: Vec<LogicalAddress> = Vec::new();
    let n = log_addrs.num_log_addrs as usize;
    let mut i: usize = 0;
    while i < n
        invariant
            n == log_addrs.num_log_addrs,
            n <= 4,
            i <= n,
            v@.len() == i,
            forall|j: int| 0 <= j < i ==> LogicalAddress::from_code(log_addrs.log_addr[j]) == Some(#[trigger] v@[j]),
        decreases n - i,
    {
        match LogicalAddress::try_from_u8(log_addrs.log_addr[i]) {
            Ok(a) => v.push(a),
            Err(e) => {
                assert(LogicalAddress::from_code(log_addrs.log_addr[i as int]) is None);
                assert forall|j: int| 0 <= j < i implies LogicalAddress::from_code(log_addrs.log_addr[j]) is Some by {
                    assert(LogicalAddress::from_code(log_addrs.log_addr[j]) == Some(v@[j]));
                }
                return Err(e);
            },
        }
        i = i + 1;
    }
    proof {
        assert forall|j: int|
            0 <= j < log_addrs.num_log_addrs implies LogicalAddress::from_code(
            #[trigger] log_addrs.log_addr[j],
        ) is Some by {
            assert(LogicalAddress::from_code(log_addrs.log_addr[j]) == Some(v@[j]));
        }
    }
    Ok(v)
}

/// The primary device type byte of a logical address type: its primary
/// device type, or `0xFF` for a type that has none.
pub open spec fn primary_type_byte(ty: LogicalAddressType) -> u8 {
    match ty.spec_primary_device_type() {
        Some(p) => p.code(),
        None => 0xffu8,
    }
}

/// Records the logical address types that a device is to claim: the type
/// and primary device type of each, in order. At most four can be claimed;
/// more are reported as out of range and leave the request unchanged. The
/// number to claim is left for the caller to set.
pub fn request_logical_addresses(log_addrs: &mut cec_log_addrs, types: &[LogicalAddressType]) -> (r: Result<
    (),
    Error,
>)
    ensures
        r is Ok <==> types@.len() <= 4,
        r matches Err(e) ==> e@ == (ErrorView::OutOfRange {
            expected: RangeView::AtMost(4),
            got: types@.len() as usize,
            quantity: "logical addresses"@,
        }) && *final(log_addrs) == *old(log_addrs),
        r is Ok ==> forall|i: int|
            0 <= i < 4 ==> (#[trigger] final(log_addrs).log_addr_type[i]) == (if i < types@.len() {
                types@[i].code()
            } else {
                old(log_addrs).log_addr_type[i]
            }) && final(log_addrs).primary_device_type[i] == (if i < types@.len() {
                primary_type_byte(types@[i])
            } else {
                old(log_addrs).primary_device_type[i]
            }),
        r is Ok ==> final(log_addrs).num_log_addrs == old(log_addrs).num_log_addrs,
        r is Ok ==> final(log_addrs).log_addr == old(log_addrs).log_addr,
        r is Ok ==> final(log_addrs).vendor_id == old(log_addrs).vendor_id,
        r is Ok ==> final(log_addrs).osd_name == old(log_addrs).osd_name,
{
    match Range::AtMost(4).check(types.len(), "logical addresses") {
        Ok(()) => {},
        Err(e) => return Err(e),
    }
    let mut i: usize = 0;
    while i < types.len()
        invariant
            types@.len() <= 4,
            i <= types@.len(),
            forall|j: int|
                0 <= j < 4 ==> (#[trigger] log_addrs.log_addr_type[j]) == (if j < i {
                    types@[j].code()
                } else {
                    old(log_addrs).log_addr_type[j]
                }),
            forall|j: int|
                0 <= j < 4 ==> (#[trigger] log_addrs.primary_device_type[j]) == (if j < i {
                    primary_type_byte(types@[j])
                } else {
                    old(log_addrs).primary_device_type[j]
                }),
            log_addrs.num_log_addrs == old(log_addrs).num_log_addrs,
            log_addrs.log_addr == old(log_addrs).log_addr,
            log_addrs.vendor_id == old(log_addrs).vendor_id,
            log_addrs.osd_name == old(log_addrs).osd_name,
        decreases types@.len() - i,
    {
        let ty = types[i];
        log_addrs.log_addr_type[i] = ty.to_u8();
        let byte = match ty.primary_device_type() {
            Some(p) => p.to_u8(),
            None => 0xff,
        };
        assert(byte == primary_type_byte(types@[i as int]));
        log_addrs.primary_device_type[i] = byte;
        i = i + 1;
    }
    Ok(())
}

/// Records the on-screen name of a device: its UTF-8 bytes, which must fit
/// in fourteen, go into the first fourteen bytes of the name field, padded
/// with zeros. The name is returned as the operand of the message that
/// announces it; a longer name is reported as too many bytes and leaves the
/// request unchanged.
pub fn request_osd_name(log_addrs: &mut cec_log_addrs, name: &str) -> (r: Result<BufferOperand, Error>)
    ensures
        r is Ok <==> name.spec_bytes().len() <= 14,
        r matches Ok(b) ==> b == BufferOperand::of_items(name.spec_bytes()) && final(log_addrs).osd_name@
            == b.buffer@.push(old(log_addrs).osd_name[14]),
        r matches Err(e) ==> e@ == (ErrorView::OutOfRange {
            expected: RangeView::AtMost(14),
            got: name.spec_bytes().len() as usize,
            quantity: "bytes"@,
        }) && *final(log_addrs) == *old(log_addrs),
        final(log_addrs).log_addr == old(log_addrs).log_addr,
        final(log_addrs).num_log_addrs == old(log_addrs).num_log_addrs,
        final(log_addrs).vendor_id == old(log_addrs).vendor_id,
{
    let buffer = match BufferOperand::try_from_str(name) {
        Ok(b) => b,
        Err(e) => return Err(e),
    };
    let mut i: usize = 0;
    while i < 14
        invariant
            i <= 14,
            forall|j: int| 0 <= j < i ==> log_addrs.osd_name@[j] == buffer.buffer@[j],
            forall|j: int| i <= j < 15 ==> log_addrs.osd_name@[j] == old(log_addrs).osd_name@[j],
            log_addrs.log_addr == old(log_addrs).log_addr,
            log_addrs.num_log_addrs == old(log_addrs).num_log_addrs,
            log_addrs.vendor_id == old(log_addrs).vendor_id,
        decreases 14 - i,
    {
        log_addrs.osd_name[i] = buffer.buffer[i];
        i = i + 1;
    }
    proof {
        assert(log_addrs.osd_name@ =~= buffer.buffer@.push(old(log_addrs).osd_name[14]));
    }
    Ok(buffer)
}

/// In valid UTF-8, every index `i` has a character boundary no more than
/// three bytes before it: no character takes more than four bytes.
proof fn lemma_boundary_near(bytes: Seq<u8>, i: int) -> (b: int)
    requires
        valid_utf8(bytes),
        0 <= i <= bytes.len(),
    ensures
        i - 3 <= b <= i,
        0 <= b,
        is_char_boundary(bytes, b),
    decreases bytes.len(),
{
    if i < 4 {
        0
    } else {
        let l = length_of_first_scalar(bytes);
        let tail = pop_first_scalar(bytes);
        assert(1 <= l <= 4);
        assert(l <= bytes.len());
        assert(tail.len() == bytes.len() - l);
        let b2 = lemma_boundary_near(tail, i - l);
        assert(is_char_boundary(bytes, b2 + l));
        b2 + l
    }
}

/// An on-screen name cut to fit the fourteen bytes that the name field
/// holds: a name of at most fourteen bytes is kept whole; a longer one is
/// cut at the last character boundary at or before its fourteenth byte,
/// which, since no character takes more than four bytes, is never before the
/// eleventh.
pub fn trimmed_osd_name(name: &str) -> (r: &str)
    ensures
        r.spec_bytes().len() <= 14,
        name.spec_bytes().len() <= 14 ==> r@ == name@,
        name.spec_bytes().len() > 14 ==> exists|k: int|
            {
                &&& 11 <= k <= 14
                &&& is_char_boundary(name.spec_bytes(), k)
                &&& forall|j: int| k < j <= 14 ==> !is_char_boundary(name.spec_bytes(), j)
                &&& r.spec_bytes() == name.spec_bytes().subrange(0, k)
            },
{
    if name.as_bytes().len() <= 14 {
        return name;
    }
    let ghost bytes = name.spec_bytes();
    proof {
        encode_utf8_valid_utf8(name@);
        let b = lemma_boundary_near(bytes, 14);
    }
    let mut i: usize = 14;
    while i > 10 && !name.is_char_boundary(i)
        invariant
            10 <= i <= 14,
            bytes == name.spec_bytes(),
            valid_utf8(bytes),
            bytes.len() > 14,
            exists|b: int| 11 <= b <= 14 && is_char_boundary(bytes, b),
            forall|j: int| i < j <= 14 ==> !is_char_boundary(bytes, j),
        decreases i,
    {
        i = i - 1;
    }
    proof {
        if i == 10 {
            let b = choose|b: int| 11 <= b <= 14 && is_char_boundary(bytes, b);
            assert(!is_char_boundary(bytes, b));
        }
    }
    let (head, _) = name.split_at(i);
    head
}

/// The kernel vendor ID of an optional vendor ID: the identifier, or the
/// value that names no vendor.
pub fn sys_vendor_id(vendor_id: Option<VendorId>) -> (r: crate::sys::VendorId)
    ensures
        r.0 == (match vendor_id {
            Some(v) => v.value(),
            None => crate::sys::CEC_VENDOR_ID_NONE,
        }),
{
    match vendor_id {
        Some(v) => crate::sys::VendorId(v.to_u32()),
        None => crate::sys::VendorId(crate::sys::CEC_VENDOR_ID_NONE),
    }
}

/// The messages that make a device the active source, and where each goes:
/// `<Text View On>` or `<Image View On>` to the TV, then `<Active Source>`
/// with the device's physical address to everyone.
pub fn activate_source_messages(address: PhysicalAddress, text_view: bool) -> (r: Vec<(Message, LogicalAddress)>)
    ensures
        r@.len() == 2,
        r@[0] == (if text_view { Message::TextViewOn } else { Message::ImageViewOn }, LogicalAddress::Tv),
        r@[1] == (Message::ActiveSource { address }, LogicalAddress::UnregisteredOrBroadcast),
{
    let mut v = Vec::new();
    if text_view {
        v.push((Message::TextViewOn, LogicalAddress::Tv));
    } else {
        v.push((Message::ImageViewOn, LogicalAddress::Tv));
    }
    v.push((Message::ActiveSource { address }, LogicalAddress::BROADCAST));
    v
}

} // verus!
