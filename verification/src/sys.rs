//! The data structures of the kernel's CEC interface, as plain values, and
//! the helpers that read and fill them.

use vstd::prelude::*;

verus! {

broadcast use vstd::array::group_array_axioms;

/// The largest size of a CEC message, in bytes.
pub const CEC_MAX_MSG_SIZE: usize = 16;

/// The largest number of logical addresses of an adapter.
pub const CEC_MAX_LOG_ADDRS: usize = 4;

/// The transmit status bit of a successful transmission.
pub const CEC_TX_STATUS_OK: u8 = 1;

/// The receive status bit of a successful reception.
pub const CEC_RX_STATUS_OK: u8 = 1;

/// The receive status bit of a reception that timed out.
pub const CEC_RX_STATUS_TIMEOUT: u8 = 2;

/// The receive status bit of a reply that was a feature abort.
pub const CEC_RX_STATUS_FEATURE_ABORT: u8 = 4;

/// The vendor ID that names no vendor.
pub const CEC_VENDOR_ID_NONE: u32 = 0xffff_ffff;

/// The logical address of the first backup device.
pub const CEC_LOG_ADDR_BACKUP_1: u8 = 12;

/// The logical address of a specific-use device.
pub const CEC_LOG_ADDR_SPECIFIC: u8 = 14;

/// The unregistered logical address.
pub const CEC_LOG_ADDR_UNREGISTERED: u8 = 15;

/// The primary device type of a TV.
pub const CEC_OP_PRIM_DEVTYPE_TV: u8 = 0;

/// The primary device type of a switch.
pub const CEC_OP_PRIM_DEVTYPE_SWITCH: u8 = 6;

/// The primary device type of a processor.
pub const CEC_OP_PRIM_DEVTYPE_PROCESSOR: u8 = 7;

/// The flag of a device that supports only CDC messages.
pub const CEC_LOG_ADDRS_FL_CDC_ONLY: u32 = 4;

/// The connector type of an adapter with no connector.
pub const CEC_CONNECTOR_TYPE_NO_CONNECTOR: u32 = 0;

/// The connector type of an adapter tied to a DRM connector.
pub const CEC_CONNECTOR_TYPE_DRM: u32 = 1;

/// The event of a change of the adapter's state.
pub const CEC_EVENT_STATE_CHANGE: u32 = 1;

/// The event of lost messages.
pub const CEC_EVENT_LOST_MSGS: u32 = 2;

/// The event of the CEC pin going low.
pub const CEC_EVENT_PIN_CEC_LOW: u32 = 3;

/// The event of the CEC pin going high.
pub const CEC_EVENT_PIN_CEC_HIGH: u32 = 4;

/// The event of the hot plug detect pin going low.
pub const CEC_EVENT_PIN_HPD_LOW: u32 = 5;

/// The event of the hot plug detect pin going high.
pub const CEC_EVENT_PIN_HPD_HIGH: u32 = 6;

/// The event of the 5 V pin going low.
pub const CEC_EVENT_PIN_5V_LOW: u32 = 7;

/// The event of the 5 V pin going high.
pub const CEC_EVENT_PIN_5V_HIGH: u32 = 8;

/// The header byte of a message from `initiator` to `destination`.
pub open spec fn header(initiator: u8, destination: u8) -> u8 {
    ((initiator << 4u8) | destination) as u8
}

/// The two halves of a header byte read back.
pub proof fn lemma_header()
    by (bit_vector)
    ensures
        forall|i: u8, d: u8| #![auto] i < 16 && d < 16 ==> (header(i, d) >> 4u8) == i,
        forall|i: u8, d: u8| #![auto] i < 16 && d < 16 ==> (header(i, d) & 0xfu8) == d,
        forall|h: u8| #![auto] (h >> 4u8) < 16 && (h & 0xfu8) < 16,
{
}

/// The header byte holds the initiator in its high four bits and the
/// destination in its low four bits.
pub proof fn lemma_header_value(initiator: u8, destination: u8)
    requires
        initiator < 16,
        destination < 16,
    ensures
        header(initiator, destination) == initiator * 16 + destination,
{
    assert(((initiator << 4u8) | destination) as u8 == initiator * 16 + destination) by (bit_vector)
        requires
            initiator < 16 && destination < 16,
    ;
}

/// A message whose first byte is sixteen times `initiator` plus
/// `destination` comes from `initiator` and goes to `destination`.
pub proof fn lemma_message_addresses(m: cec_msg, initiator: u8, destination: u8)
    requires
        initiator < 16,
        destination < 16,
        m.msg[0] == initiator * 16 + destination,
    ensures
        m.spec_initiator() == initiator,
        m.spec_destination() == destination,
{
    let h = m.msg[0];
    assert(h >> 4u8 == initiator && h & 0xfu8 == destination) by (bit_vector)
        requires
            initiator < 16 && destination < 16 && h == initiator * 16 + destination,
    ;
}

/// A CEC message, as the kernel transmits and receives it.
#[allow(non_camel_case_types)]
#[derive(Clone, Copy, Debug)]
pub struct cec_msg {
    /// When the transmission finished, in nanoseconds.
    pub tx_ts: u64,
    /// When the message was received, in nanoseconds.
    pub rx_ts: u64,
    /// The length of the message, in bytes.
    pub len: u32,
    /// The timeout of a receive, or of the wait for a reply, in milliseconds.
    pub timeout: u32,
    /// The sequence number that the framework gives a transmitted message.
    pub sequence: u32,
    /// The flags of the message.
    pub flags: u32,
    /// The message: its header byte, then its opcode and operands.
    pub msg: [u8; 16],
    /// The opcode of the reply to wait for, if not zero.
    pub reply: u8,
    /// The receive status bits.
    pub rx_status: u8,
    /// The transmit status bits.
    pub tx_status: u8,
    /// The number of lost arbitrations.
    pub tx_arb_lost_cnt: u8,
    /// The number of missing acknowledgements.
    pub tx_nack_cnt: u8,
    /// The number of low drives detected.
    pub tx_low_drive_cnt: u8,
    /// The number of errors.
    pub tx_error_cnt: u8,
}

/// The payload of a message of all zeros but its first byte `first`.
pub open spec fn payload_with_header(first: u8) -> Seq<u8> {
    Seq::new(16, |i: int| if i == 0 { first } else { 0u8 })
}

impl cec_msg {
    /// The logical address of the sender.
    pub open spec fn spec_initiator(&self) -> u8 {
        self.msg[0] >> 4u8
    }

    /// The logical address of the receiver.
    pub open spec fn spec_destination(&self) -> u8 {
        self.msg[0] & 0xfu8
    }

    /// The logical address of the sender.
    pub fn initiator(&self) -> (r: u8)
        ensures
            r == self.spec_initiator(),
    {
        self.msg[0] >> 4
    }

    /// The logical address of the receiver.
    pub fn destination(&self) -> (r: u8)
        ensures
            r == self.spec_destination(),
    {
        self.msg[0] & 0xf
    }

    /// The opcode of the message; none for a poll.
    pub fn opcode(&self) -> (r: Option<u8>)
        ensures
            r == (if self.len > 1 { Some(self.msg[1]) } else { None::<u8> }),
    {
        if self.len > 1 {
            Some(self.msg[1])
        } else {
            None
        }
    }

    /// Whether the message is broadcast.
    pub fn is_broadcast(&self) -> (r: bool)
        ensures
            r == (self.msg[0] & 0xfu8 == 0xfu8),
    {
        (self.msg[0] & 0xf) == 0xf
    }

    /// A poll message from `initiator` to `destination`: all zero but the
    /// header and a length of one.
    pub fn new(initiator: u8, destination: u8) -> (r: cec_msg)
        ensures
            r.len == 1,
            r.msg@ == payload_with_header(header(initiator, destination)),
            r.tx_ts == 0 && r.rx_ts == 0 && r.timeout == 0 && r.sequence == 0 && r.flags == 0,
            r.reply == 0 && r.rx_status == 0 && r.tx_status == 0,
            r.tx_arb_lost_cnt == 0 && r.tx_nack_cnt == 0 && r.tx_low_drive_cnt == 0 && r.tx_error_cnt == 0,
            initiator < 16 && destination < 16 ==> r.spec_initiator() == initiator && r.spec_destination()
                == destination,
    {
        let mut msg = cec_msg {
            tx_ts: 0,
            rx_ts: 0,
            len: 1,
            timeout: 0,
            sequence: 0,
            flags: 0,
            msg: [0; 16],
            reply: 0,
            rx_status: 0,
            tx_status: 0,
            tx_arb_lost_cnt: 0,
            tx_nack_cnt: 0,
            tx_low_drive_cnt: 0,
            tx_error_cnt: 0,
        };
        msg.msg[0] = (initiator << 4) | destination;
        proof {
            lemma_header();
            assert(msg.msg@ =~= payload_with_header(header(initiator, destination)));
        }
        msg
    }

    /// The message with its timeout set to `timeout_ms`.
    pub fn with_timeout(self, timeout_ms: u32) -> (r: cec_msg)
        ensures
            r == (cec_msg { timeout: timeout_ms, ..self }),
    {
        let mut r = self;
        r.timeout = timeout_ms;
        r
    }

    /// An empty message for a receive that waits `timeout_ms`.
    pub fn from_timeout(timeout_ms: u32) -> (r: cec_msg)
        ensures
            r.len == 0,
            r.timeout == timeout_ms,
            r.msg@ == payload_with_header(0),
            r.tx_ts == 0 && r.rx_ts == 0 && r.sequence == 0 && r.flags == 0,
            r.reply == 0 && r.rx_status == 0 && r.tx_status == 0,
            r.tx_arb_lost_cnt == 0 && r.tx_nack_cnt == 0 && r.tx_low_drive_cnt == 0 && r.tx_error_cnt == 0,
    {
        let r = cec_msg {
            tx_ts: 0,
            rx_ts: 0,
            len: 0,
            timeout: timeout_ms,
            sequence: 0,
            flags: 0,
            msg: [0; 16],
            reply: 0,
            rx_status: 0,
            tx_status: 0,
            tx_arb_lost_cnt: 0,
            tx_nack_cnt: 0,
            tx_low_drive_cnt: 0,
            tx_error_cnt: 0,
        };
        proof {
            assert(r.msg@ =~= payload_with_header(0));
        }
        r
    }

    /// Addresses the message as a reply to `orig`: its initiator becomes the
    /// destination and its destination the initiator; the reply opcode and
    /// the timeout are cleared.
    pub fn set_reply_to(&mut self, orig: &cec_msg)
        ensures
            final(self).msg@ == old(self).msg@.update(0, header(orig.spec_destination(), orig.spec_initiator())),
            final(self).spec_initiator() == orig.spec_destination(),
            final(self).spec_destination() == orig.spec_initiator(),
            final(self).reply == 0,
            final(self).timeout == 0,
            final(self).len == old(self).len,
            final(self).tx_ts == old(self).tx_ts && final(self).rx_ts == old(self).rx_ts,
            final(self).sequence == old(self).sequence && final(self).flags == old(self).flags,
            final(self).rx_status == old(self).rx_status && final(self).tx_status == old(self).tx_status,
            final(self).tx_arb_lost_cnt == old(self).tx_arb_lost_cnt,
            final(self).tx_nack_cnt == old(self).tx_nack_cnt,
            final(self).tx_low_drive_cnt == old(self).tx_low_drive_cnt,
            final(self).tx_error_cnt == old(self).tx_error_cnt,
    {
        let d = orig.destination();
        let i = orig.initiator();
        proof {
            lemma_header();
        }
        self.msg[0] = (d << 4) | i;
        proof {
            assert(orig.msg[0] >> 4u8 < 16 && orig.msg[0] & 0xfu8 < 16);
            assert(self.msg[0] == header(d, i));
            assert(header(d, i) >> 4u8 == d && header(d, i) & 0xfu8 == i);
        }
        self.reply = 0;
        self.timeout = 0;
    }

    /// Whether the message holds the result of an earlier transmit that did
    /// not block.
    pub fn recv_is_tx_result(&self) -> (r: bool)
        ensures
            r == (self.sequence != 0 && self.tx_status != 0 && self.rx_status == 0),
    {
        self.sequence != 0 && self.tx_status != 0 && self.rx_status == 0
    }

    /// Whether the message holds the reply to an earlier transmit that did
    /// not block.
    pub fn recv_is_rx_result(&self) -> (r: bool)
        ensures
            r == (self.sequence != 0 && self.tx_status == 0 && self.rx_status != 0),
    {
        self.sequence != 0 && self.tx_status == 0 && self.rx_status != 0
    }

    /// Whether the statuses report success: some status is set, each set
    /// status has its success bit, and the reply was no feature abort.
    pub open spec fn spec_status_is_ok(&self) -> bool {
        &&& (self.tx_status == 0 || self.tx_status & CEC_TX_STATUS_OK != 0)
        &&& (self.rx_status == 0 || self.rx_status & CEC_RX_STATUS_OK != 0)
        &&& (self.tx_status != 0 || self.rx_status != 0)
        &&& self.rx_status & CEC_RX_STATUS_FEATURE_ABORT == 0
    }

    /// Whether the statuses report success.
    pub fn status_is_ok(&self) -> (r: bool)
        ensures
            r == self.spec_status_is_ok(),
    {
        if self.tx_status != 0 && (self.tx_status & CEC_TX_STATUS_OK) == 0 {
            return false;
        }
        if self.rx_status != 0 && (self.rx_status & CEC_RX_STATUS_OK) == 0 {
            return false;
        }
        if self.tx_status == 0 && self.rx_status == 0 {
            return false;
        }
        (self.rx_status & CEC_RX_STATUS_FEATURE_ABORT) == 0
    }
}

/// A vendor ID of the kernel interface: a 24-bit identifier, or the value
/// that names no vendor.
#[derive(Clone, Copy, Debug, PartialEq, Eq, Structural)]
pub struct VendorId(pub u32);

impl VendorId {
    /// Whether the value names no vendor.
    pub fn is_none(self) -> (r: bool)
        ensures
            r == (self.0 == CEC_VENDOR_ID_NONE),
    {
        self.0 == CEC_VENDOR_ID_NONE
    }

    /// Whether the value is a 24-bit identifier.
    pub fn is_valid(self) -> (r: bool)
        ensures
            r == (self.0 < 0x100_0000),
    {
        self.0 < 0x100_0000
    }

    /// The vendor ID of `val`, which must be a 24-bit identifier or the
    /// value that names no vendor.
    pub fn try_from_u32(val: u32) -> (r: Result<VendorId, ()>)
        ensures
            r is Ok <==> (val < 0x100_0000 || val == CEC_VENDOR_ID_NONE),
            r matches Ok(v) ==> v.0 == val,
    {
        if val < 0x100_0000 || val == CEC_VENDOR_ID_NONE {
            Ok(VendorId(val))
        } else {
            Err(())
        }
    }
}

impl Default for VendorId {
    fn default() -> (r: VendorId)
        ensures
            r.0 == CEC_VENDOR_ID_NONE,
    {
        VendorId(CEC_VENDOR_ID_NONE)
    }
}

impl From<VendorId> for u32 {
    fn from(val: VendorId) -> (r: u32) {
        val.0
    }
}

impl vstd::std_specs::convert::FromSpecImpl<VendorId> for u32 {
    open spec fn obeys_from_spec() -> bool {
        true
    }

    open spec fn from_spec(val: VendorId) -> u32 {
        val.0
    }
}

/// The capabilities of an adapter.
#[allow(non_camel_case_types)]
#[derive(Clone, Copy, Debug)]
pub struct cec_caps {
    /// The name of the driver.
    pub driver: [u8; 32],
    /// The name of the device.
    pub name: [u8; 32],
    /// The number of logical addresses the adapter can claim.
    pub available_log_addrs: u32,
    /// The capability bits.
    pub capabilities: u32,
    /// The version of the framework.
    pub version: u32,
}

/// The logical addresses of an adapter, and what it claims them as.
#[allow(non_camel_case_types)]
#[derive(Clone, Copy, Debug)]
pub struct cec_log_addrs {
    /// The claimed logical addresses.
    pub log_addr: [u8; 4],
    /// The mask of the claimed logical addresses.
    pub log_addr_mask: u16,
    /// The CEC version that the adapter implements.
    pub cec_version: u8,
    /// How many logical addresses to claim.
    pub num_log_addrs: u8,
    /// The vendor ID of the device.
    pub vendor_id: VendorId,
    /// The flags.
    pub flags: u32,
    /// The on-screen name of the device.
    pub osd_name: [u8; 15],
    /// The primary device type of each logical address.
    pub primary_device_type: [u8; 4],
    /// The type of each logical address.
    pub log_addr_type: [u8; 4],
    /// All the device types that each logical address represents.
    pub all_device_types: [u8; 4],
    /// The features of each logical address.
    pub features: [[u8; 12]; 4],
}

impl cec_log_addrs {
    /// Whether the device is a second TV: its first logical address is 14
    /// or 15 and its primary device type is a TV.
    pub fn is_2nd_tv(&self) -> (r: bool)
        ensures
            r == (self.num_log_addrs != 0 && self.log_addr[0] >= CEC_LOG_ADDR_SPECIFIC
                && self.primary_device_type[0] == CEC_OP_PRIM_DEVTYPE_TV),
    {
        self.num_log_addrs != 0 && self.log_addr[0] >= CEC_LOG_ADDR_SPECIFIC && self.primary_device_type[0]
            == CEC_OP_PRIM_DEVTYPE_TV
    }

    /// Whether the device is a processor: its first logical address is 12 to
    /// 15 and its primary device type is a processor.
    pub fn is_processor(&self) -> (r: bool)
        ensures
            r == (self.num_log_addrs != 0 && self.log_addr[0] >= CEC_LOG_ADDR_BACKUP_1
                && self.primary_device_type[0] == CEC_OP_PRIM_DEVTYPE_PROCESSOR),
    {
        self.num_log_addrs != 0 && self.log_addr[0] >= CEC_LOG_ADDR_BACKUP_1 && self.primary_device_type[0]
            == CEC_OP_PRIM_DEVTYPE_PROCESSOR
    }

    /// Whether the device is a switch: one unregistered logical address, the
    /// primary device type of a switch, and no CDC-only flag.
    pub fn is_switch(&self) -> (r: bool)
        ensures
            r == (self.num_log_addrs == 1 && self.log_addr[0] == CEC_LOG_ADDR_UNREGISTERED
                && self.primary_device_type[0] == CEC_OP_PRIM_DEVTYPE_SWITCH && self.flags
                & CEC_LOG_ADDRS_FL_CDC_ONLY != CEC_LOG_ADDRS_FL_CDC_ONLY),
    {
        self.num_log_addrs == 1 && self.log_addr[0] == CEC_LOG_ADDR_UNREGISTERED && self.primary_device_type[0]
            == CEC_OP_PRIM_DEVTYPE_SWITCH && (self.flags & CEC_LOG_ADDRS_FL_CDC_ONLY) != CEC_LOG_ADDRS_FL_CDC_ONLY
    }

    /// Whether the device supports only CDC: one unregistered logical
    /// address, the primary device type of a switch, and the CDC-only flag.
    pub fn is_cdc_only(&self) -> (r: bool)
        ensures
            r == (self.num_log_addrs == 1 && self.log_addr[0] == CEC_LOG_ADDR_UNREGISTERED
                && self.primary_device_type[0] == CEC_OP_PRIM_DEVTYPE_SWITCH && self.flags
                & CEC_LOG_ADDRS_FL_CDC_ONLY == CEC_LOG_ADDRS_FL_CDC_ONLY),
    {
        self.num_log_addrs == 1 && self.log_addr[0] == CEC_LOG_ADDR_UNREGISTERED && self.primary_device_type[0]
            == CEC_OP_PRIM_DEVTYPE_SWITCH && (self.flags & CEC_LOG_ADDRS_FL_CDC_ONLY) == CEC_LOG_ADDRS_FL_CDC_ONLY
    }
}

/// The DRM connector tied to an adapter.
#[allow(non_camel_case_types)]
#[derive(Clone, Copy, Debug, Default, PartialEq, Eq, Structural)]
pub struct cec_drm_connector_info {
    /// The DRM card number.
    pub card_no: u32,
    /// The DRM connector ID.
    pub connector_id: u32,
}

/// The connector tied to an adapter: its type, and its data as the sixteen
/// words the kernel fills in (a DRM connector in the first two).
#[allow(non_camel_case_types)]
#[derive(Clone, Copy, Debug)]
pub struct cec_connector_info {
    /// The connector type.
    pub ty: u32,
    /// The connector data.
    pub data: [u32; 16],
}

impl Default for cec_connector_info {
    fn default() -> (r: cec_connector_info)
        ensures
            r.ty == CEC_CONNECTOR_TYPE_NO_CONNECTOR,
            forall|k: int| 0 <= k < 16 ==> r.data[k] == 0,
    {
        cec_connector_info { ty: CEC_CONNECTOR_TYPE_NO_CONNECTOR, data: [0; 16] }
    }
}

impl cec_connector_info {
    /// The data read as a DRM connector.
    pub fn drm(&self) -> (r: cec_drm_connector_info)
        ensures
            r.card_no == self.data[0],
            r.connector_id == self.data[1],
    {
        cec_drm_connector_info { card_no: self.data[0], connector_id: self.data[1] }
    }
}

/// The state of an adapter after it changed.
#[allow(non_camel_case_types)]
#[derive(Clone, Copy, Debug)]
pub struct cec_event_state_change {
    /// The physical address.
    pub phys_addr: u16,
    /// The mask of the logical addresses.
    pub log_addr_mask: u16,
    /// Whether connector information is available.
    pub have_conn_info: u16,
}

/// How many messages were lost.
#[allow(non_camel_case_types)]
#[derive(Clone, Copy, Debug)]
pub struct cec_event_lost_msgs {
    /// The number of lost messages.
    pub lost_msgs: u32,
}

/// An event of an adapter: its kind, flags and data as the sixteen words
/// the kernel fills in.
#[allow(non_camel_case_types)]
#[derive(Clone, Copy, Debug)]
pub struct cec_event {
    /// When the event was sent, in nanoseconds.
    pub ts: u64,
    /// The kind of the event.
    pub event: u32,
    /// The flags of the event.
    pub flags: u32,
    /// The event data.
    pub data: [u32; 16],
}

impl Default for cec_event {
    fn default() -> (r: cec_event)
        ensures
            r.ts == 0,
            r.event == 0,
            r.flags == 0,
            forall|k: int| 0 <= k < 16 ==> r.data[k] == 0,
    {
        cec_event { ts: 0, event: 0, flags: 0, data: [0; 16] }
    }
}

impl cec_event {
    /// The data read as a count of lost messages.
    pub fn lost_msgs(&self) -> (r: cec_event_lost_msgs)
        ensures
            r.lost_msgs == self.data[0],
    {
        cec_event_lost_msgs { lost_msgs: self.data[0] }
    }
}

/// A CEC message as the kernel's structure lays it out, with its fields
/// kept private: built by [`CecMessage::new`] and read by its methods.
#[derive(Clone, Copy, Debug)]
pub struct CecMessage {
    tx_ts: u64,
    rx_ts: u64,
    len: u32,
    timeout: u32,
    sequence: u32,
    flags: u32,
    msg: [u8; 16],
    reply: u8,
    rx_status: u8,
    tx_status: u8,
    tx_arb_lost_cnt: u8,
    tx_nack_cnt: u8,
    tx_low_drive_cnt: u8,
    tx_error_cnt: u8,
}

impl View for CecMessage {
    type V = cec_msg;

    closed spec fn view(&self) -> cec_msg {
        cec_msg {
            tx_ts: self.tx_ts,
            rx_ts: self.rx_ts,
            len: self.len,
            timeout: self.timeout,
            sequence: self.sequence,
            flags: self.flags,
            msg: self.msg,
            reply: self.reply,
            rx_status: self.rx_status,
            tx_status: self.tx_status,
            tx_arb_lost_cnt: self.tx_arb_lost_cnt,
            tx_nack_cnt: self.tx_nack_cnt,
            tx_low_drive_cnt: self.tx_low_drive_cnt,
            tx_error_cnt: self.tx_error_cnt,
        }
    }
}

impl CecMessage {
    /// The logical address of the sender.
    pub fn initiator(&self) -> (r: u8)
        ensures
            r == self@.spec_initiator(),
    {
        self.msg[0] >> 4
    }

    /// The logical address of the receiver.
    pub fn destination(&self) -> (r: u8)
        ensures
            r == self@.spec_destination(),
    {
        self.msg[0] & 0xf
    }

    /// The opcode of the message; none for a poll.
    pub fn opcode(&self) -> (r: Option<u8>)
        ensures
            r == (if self@.len > 1 { Some(self@.msg[1]) } else { None::<u8> }),
    {
        if self.len > 1 {
            Some(self.msg[1])
        } else {
            None
        }
    }

    /// Whether the message is broadcast.
    pub fn is_broadcast(&self) -> (r: bool)
        ensures
            r == (self@.msg[0] & 0xfu8 == 0xfu8),
    {
        (self.msg[0] & 0xf) == 0xf
    }

    /// A poll message from `initiator` to `destination`: all zero but the
    /// header and a length of one.
    pub fn new(initiator: u8, destination: u8) -> (r: CecMessage)
        ensures
            r@.len == 1,
            r@.msg@ == payload_with_header(header(initiator, destination)),
            r@.tx_ts == 0 && r@.rx_ts == 0 && r@.timeout == 0 && r@.sequence == 0 && r@.flags == 0,
            r@.reply == 0 && r@.rx_status == 0 && r@.tx_status == 0,
            r@.tx_arb_lost_cnt == 0 && r@.tx_nack_cnt == 0 && r@.tx_low_drive_cnt == 0 && r@.tx_error_cnt
                == 0,
            initiator < 16 && destination < 16 ==> r@.spec_initiator() == initiator && r@.spec_destination()
                == destination,
    {
        let mut msg = CecMessage {
            tx_ts: 0,
            rx_ts: 0,
            len: 1,
            timeout: 0,
            sequence: 0,
            flags: 0,
            msg: [0; 16],
            reply: 0,
            rx_status: 0,
            tx_status: 0,
            tx_arb_lost_cnt: 0,
            tx_nack_cnt: 0,
            tx_low_drive_cnt: 0,
            tx_error_cnt: 0,
        };
        msg.msg[0] = (initiator << 4) | destination;
        proof {
            lemma_header();
            assert(msg.msg@ =~= payload_with_header(header(initiator, destination)));
        }
        msg
    }

    /// Addresses the message as a reply to `orig`, swapping its initiator and
    /// destination, and clears the reply opcode and the timeout.
    fn set_reply_to(&mut self, orig: &CecMessage)
        ensures
            final(self)@.spec_initiator() == orig@.spec_destination(),
            final(self)@.spec_destination() == orig@.spec_initiator(),
            final(self)@.reply == 0,
            final(self)@.timeout == 0,
    {
        let d = orig.destination();
        let i = orig.initiator();
        proof {
            lemma_header();
        }
        self.msg[0] = (d << 4) | i;
        proof {
            assert(orig@.msg[0] >> 4u8 < 16 && orig@.msg[0] & 0xfu8 < 16);
            assert(self.msg[0] == header(d, i));
            assert(header(d, i) >> 4u8 == d && header(d, i) & 0xfu8 == i);
        }
        self.reply = 0;
        self.timeout = 0;
    }

    /// Whether the message holds the result of an earlier transmit that did
    /// not block.
    fn recv_is_tx_result(&self) -> (r: bool)
        ensures
            r == (self@.sequence != 0 && self@.tx_status != 0 && self@.rx_status == 0),
    {
        self.sequence != 0 && self.tx_status != 0 && self.rx_status == 0
    }

    /// Whether the message holds the reply to an earlier transmit that did
    /// not block.
    fn recv_is_rx_result(&self) -> (r: bool)
        ensures
            r == (self@.sequence != 0 && self@.tx_status == 0 && self@.rx_status != 0),
    {
        self.sequence != 0 && self.tx_status == 0 && self.rx_status != 0
    }

    /// Whether the statuses report success.
    fn status_is_ok(&self) -> (r: bool)
        ensures
            r == self@.spec_status_is_ok(),
    {
        if self.tx_status != 0 && (self.tx_status & CEC_TX_STATUS_OK) == 0 {
            return false;
        }
        if self.rx_status != 0 && (self.rx_status & CEC_RX_STATUS_OK) == 0 {
            return false;
        }
        if self.tx_status == 0 && self.rx_status == 0 {
            return false;
        }
        (self.rx_status & CEC_RX_STATUS_FEATURE_ABORT) == 0
    }
}

} // verus!
