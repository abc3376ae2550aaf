//! The decisions of a system CEC service: how it answers the messages a
//! device receives, what it makes of a change of the device's state, how it
//! picks the device's physical address, and how long it keeps trying to
//! release the device's logical addresses. Each is a function from the
//! service's state and what happened to its next state and what to do; the
//! service itself performs the I/O.

use vstd::prelude::*;

use crate::address::{LogicalAddress, PhysicalAddress};
use crate::device::Envelope;
use crate::error::str_equal;
use crate::message::{Message, Opcode};
use crate::operand::codes::{AbortReason, PowerStatus, UiCommand};

verus! {

/// How many times the service asks again for logical addresses that the
/// kernel did not grant, before it gives up until the next change.
pub const LOG_ADDR_RETRIES: i32 = 20;

/// How many times the service tries to release a busy device's logical
/// addresses before it reports the failure.
pub const CLEAR_ATTEMPTS: u8 = 5;

/// What the service remembers of a device between messages: the remote
/// control button held down, whether the device is the active source, and
/// whether it has asked the TV to wake and waits for it.
#[derive(Clone, Copy, Debug, PartialEq, Eq, Structural)]
pub struct DeviceTaskState {
    pub active_key: Option<UiCommand>,
    pub active: bool,
    pub awaiting_wake: bool,
}

impl DeviceTaskState {
    /// The state of a device that the service has just taken up.
    pub fn new() -> (r: DeviceTaskState)
        ensures
            r == (DeviceTaskState { active_key: None, active: false, awaiting_wake: false }),
    {
        DeviceTaskState { active_key: None, active: false, awaiting_wake: false }
    }
}

/// What the service does about a received message: the reply to send, the
/// key to release and the key to press on its input device, whether to put
/// the system to sleep, and whether to hand the message to the handler that
/// a client registered for its opcode.
#[derive(Clone, Copy, Debug, PartialEq, Eq)]
pub struct MessageAction {
    pub reply: Option<(Message, LogicalAddress)>,
    pub key_up: Option<UiCommand>,
    pub key_down: Option<UiCommand>,
    pub suspend: bool,
    pub forward_to_handler: bool,
}

/// Doing nothing.
pub open spec fn no_action() -> MessageAction {
    MessageAction { reply: None, key_up: None, key_down: None, suspend: false, forward_to_handler: false }
}

/// Sending `message` to `to`, and nothing else.
pub open spec fn reply_action(message: Message, to: LogicalAddress) -> MessageAction {
    MessageAction {
        reply: Some((message, to)),
        key_up: None,
        key_down: None,
        suspend: false,
        forward_to_handler: false,
    }
}

/// What the service does with a message that it does not answer itself:
/// one sent to the device alone goes to the registered handler, or, with
/// none, is refused as an unrecognized opcode; a broadcast one is ignored.
pub open spec fn unhandled_action(has_handler: bool, envelope: Envelope) -> MessageAction {
    if envelope.destination != LogicalAddress::UnregisteredOrBroadcast {
        if has_handler {
            MessageAction {
                reply: None,
                key_up: None,
                key_down: None,
                suspend: false,
                forward_to_handler: true,
            }
        } else {
            reply_action(
                Message::FeatureAbort {
                    opcode: envelope.message.spec_opcode(),
                    abort_reason: AbortReason::UnrecognizedOp,
                },
                envelope.initiator,
            )
        }
    } else {
        no_action()
    }
}

/// How the service answers a received message, given the device's own
/// physical address, whether the configuration lets other devices put the
/// system to sleep, and whether a client registered a handler for the
/// message's opcode.
pub open spec fn spec_decide_message(
    state: DeviceTaskState,
    this_address: PhysicalAddress,
    allow_standby: bool,
    has_handler: bool,
    envelope: Envelope,
) -> (DeviceTaskState, MessageAction) {
    match envelope.message {
        Message::GiveDevicePowerStatus => (
            state,
            reply_action(Message::ReportPowerStatus { status: PowerStatus::On }, envelope.initiator),
        ),
        Message::UserControlPressed { ui_command } => (
            DeviceTaskState { active_key: Some(ui_command), ..state },
            MessageAction {
                reply: None,
                key_up: state.active_key,
                key_down: Some(ui_command),
                suspend: false,
                forward_to_handler: false,
            },
        ),
        Message::UserControlReleased => match state.active_key {
            Some(key) => (
                DeviceTaskState { active_key: None, ..state },
                MessageAction {
                    reply: None,
                    key_up: Some(key),
                    key_down: None,
                    suspend: false,
                    forward_to_handler: false,
                },
            ),
            None => (state, no_action()),
        },
        Message::SetStreamPath { address } => if address == this_address {
            (
                state,
                reply_action(
                    Message::ActiveSource { address: this_address },
                    LogicalAddress::UnregisteredOrBroadcast,
                ),
            )
        } else {
            (state, no_action())
        },
        Message::Standby => if allow_standby {
            (
                state,
                MessageAction {
                    reply: None,
                    key_up: None,
                    key_down: None,
                    suspend: true,
                    forward_to_handler: false,
                },
            )
        } else {
            (state, unhandled_action(has_handler, envelope))
        },
        Message::RoutingChange { new_address, .. } => if new_address == this_address {
            (DeviceTaskState { awaiting_wake: false, active: true, ..state }, no_action())
        } else {
            (DeviceTaskState { active: false, ..state }, no_action())
        },
        Message::RequestActiveSource => if state.awaiting_wake || state.active {
            (
                state,
                reply_action(
                    Message::ActiveSource { address: this_address },
                    LogicalAddress::UnregisteredOrBroadcast,
                ),
            )
        } else {
            (state, unhandled_action(has_handler, envelope))
        },
        _ => (state, unhandled_action(has_handler, envelope)),
    }
}

/// What the service does with a message that it does not answer itself.
fn decide_unhandled(has_handler: bool, envelope: &Envelope) -> (r: MessageAction)
    ensures
        r == unhandled_action(has_handler, *envelope),
{
    if envelope.destination != LogicalAddress::UnregisteredOrBroadcast {
        if has_handler {
            MessageAction {
                reply: None,
                key_up: None,
                key_down: None,
                suspend: false,
                forward_to_handler: true,
            }
        } else {
            let reply = Message::FeatureAbort {
                opcode: envelope.message.opcode(),
                abort_reason: AbortReason::UnrecognizedOp,
            };
            MessageAction {
                reply: Some((reply, envelope.initiator)),
                key_up: None,
                key_down: None,
                suspend: false,
                forward_to_handler: false,
            }
        }
    } else {
        MessageAction { reply: None, key_up: None, key_down: None, suspend: false, forward_to_handler: false }
    }
}

/// How the service answers a received message: it reports being on when
/// asked for its power status; it presses and releases the keys of its input
/// device as remote control buttons are pressed and released, releasing a
/// held key before pressing another; it announces itself as the active
/// source when a Set Stream Path names its address, and when asked for the
/// active source while it is active or waits for the TV to wake; it puts the
/// system to sleep on Standby when the configuration allows it; it becomes
/// active, and stops waiting, when a Routing Change leads to its address,
/// and inactive when one leads elsewhere. Any other message sent to the
/// device alone goes to the handler registered for its opcode, or is refused
/// as an unrecognized opcode.
pub fn decide_message(
    state: DeviceTaskState,
    this_address: PhysicalAddress,
    allow_standby: bool,
    has_handler: bool,
    envelope: &Envelope,
) -> (r: (DeviceTaskState, MessageAction))
    ensures
        r == spec_decide_message(state, this_address, allow_standby, has_handler, *envelope),
{
    let nothing = MessageAction {
        reply: None,
        key_up: None,
        key_down: None,
        suspend: false,
        forward_to_handler: false,
    };
    match envelope.message {
        Message::GiveDevicePowerStatus => {
            let reply = Message::ReportPowerStatus { status: PowerStatus::On };
            (
                state,
                MessageAction {
                    reply: Some((reply, envelope.initiator)),
                    key_up: None,
                    key_down: None,
                    suspend: false,
                    forward_to_handler: false,
                },
            )
        },
        Message::UserControlPressed { ui_command } => (
            DeviceTaskState {
                active_key: Some(ui_command),
                active: state.active,
                awaiting_wake: state.awaiting_wake,
            },
            MessageAction {
                reply: None,
                key_up: state.active_key,
                key_down: Some(ui_command),
                suspend: false,
                forward_to_handler: false,
            },
        ),
        Message::UserControlReleased => match state.active_key {
            Some(key) => (
                DeviceTaskState { active_key: None, active: state.active, awaiting_wake: state.awaiting_wake },
                MessageAction {
                    reply: None,
                    key_up: Some(key),
                    key_down: None,
                    suspend: false,
                    forward_to_handler: false,
                },
            ),
            None => (state, nothing),
        },
        Message::SetStreamPath { address } => {
            if address == this_address {
                let reply = Message::ActiveSource { address: this_address };
                (
                    state,
                    MessageAction {
                        reply: Some((reply, LogicalAddress::BROADCAST)),
                        key_up: None,
                        key_down: None,
                        suspend: false,
                        forward_to_handler: false,
                    },
                )
            } else {
                (state, nothing)
            }
        },
        Message::Standby => {
            if allow_standby {
                (
                    state,
                    MessageAction {
                        reply: None,
                        key_up: None,
                        key_down: None,
                        suspend: true,
                        forward_to_handler: false,
                    },
                )
            } else {
                (state, decide_unhandled(has_handler, envelope))
            }
        },
        Message::RoutingChange { new_address, .. } => {
            if new_address == this_address {
                (DeviceTaskState { active_key: state.active_key, active: true, awaiting_wake: false }, nothing)
            } else {
                (
                    DeviceTaskState {
                        active_key: state.active_key,
                        active: false,
                        awaiting_wake: state.awaiting_wake,
                    },
                    nothing,
                )
            }
        },
        Message::RequestActiveSource => {
            if state.awaiting_wake || state.active {
                let reply = Message::ActiveSource { address: this_address };
                (
                    state,
                    MessageAction {
                        reply: Some((reply, LogicalAddress::BROADCAST)),
                        key_up: None,
                        key_down: None,
                        suspend: false,
                        forward_to_handler: false,
                    },
                )
            } else {
                (state, decide_unhandled(has_handler, envelope))
            }
        },
        _ => (state, decide_unhandled(has_handler, envelope)),
    }
}

/// Whether answering `message` needs the device's physical address: a Set
/// Stream Path or Routing Change is compared with it, and a Request Active
/// Source is answered with it while the device is active or waits for the
/// TV to wake.
pub open spec fn spec_needs_physical_address(state: DeviceTaskState, message: Message) -> bool {
    match message {
        Message::SetStreamPath { .. } => true,
        Message::RoutingChange { .. } => true,
        Message::RequestActiveSource => state.awaiting_wake || state.active,
        _ => false,
    }
}

/// Whether answering `message` needs the device's physical address; where it
/// does not, [`decide_message`] does not read the address it is given.
pub fn needs_physical_address(state: DeviceTaskState, message: &Message) -> (r: bool)
    ensures
        r == spec_needs_physical_address(state, *message),
{
    match message {
        Message::SetStreamPath { .. } => true,
        Message::RoutingChange { .. } => true,
        Message::RequestActiveSource => state.awaiting_wake || state.active,
        _ => false,
    }
}

/// Where the address is not needed, the decision is the same whatever
/// address is given.
pub proof fn lemma_address_unused(
    state: DeviceTaskState,
    a: PhysicalAddress,
    b: PhysicalAddress,
    allow_standby: bool,
    has_handler: bool,
    envelope: Envelope,
)
    requires
        !spec_needs_physical_address(state, envelope.message),
    ensures
        spec_decide_message(state, a, allow_standby, has_handler, envelope) == spec_decide_message(
            state,
            b,
            allow_standby,
            has_handler,
            envelope,
        ),
{
}

/// While the device waits for the TV to wake, or is the active source, a
/// Request Active Source is answered with an Active Source that carries the
/// device's own physical address, sent to every device, and nothing else
/// is done.
pub proof fn lemma_request_active_source_answered(
    state: DeviceTaskState,
    this_address: PhysicalAddress,
    allow_standby: bool,
    has_handler: bool,
    envelope: Envelope,
)
    requires
        envelope.message == Message::RequestActiveSource,
        state.awaiting_wake || state.active,
    ensures
        ({
            let (next, action) = spec_decide_message(state, this_address, allow_standby, has_handler, envelope);
            &&& next == state
            &&& action.reply == Some(
                (Message::ActiveSource { address: this_address }, LogicalAddress::UnregisteredOrBroadcast),
            )
            &&& action.key_up is None && action.key_down is None
            &&& !action.suspend && !action.forward_to_handler
        }),
{
}

/// A device that neither waits for the TV to wake nor is the active source
/// does not announce itself when asked for the active source.
pub proof fn lemma_request_active_source_not_answered(
    state: DeviceTaskState,
    this_address: PhysicalAddress,
    allow_standby: bool,
    has_handler: bool,
    envelope: Envelope,
)
    requires
        envelope.message == Message::RequestActiveSource,
        !state.awaiting_wake && !state.active,
    ensures
        ({
            let (next, action) = spec_decide_message(state, this_address, allow_standby, has_handler, envelope);
            &&& next == state
            &&& !(action.reply matches Some((Message::ActiveSource { .. }, _)))
        }),
{
}

/// A request for the power status is answered, to its sender, with the
/// status On; nothing else changes.
pub proof fn lemma_power_status_answered(
    state: DeviceTaskState,
    this_address: PhysicalAddress,
    allow_standby: bool,
    has_handler: bool,
    envelope: Envelope,
)
    requires
        envelope.message == Message::GiveDevicePowerStatus,
    ensures
        ({
            let (next, action) = spec_decide_message(state, this_address, allow_standby, has_handler, envelope);
            &&& next == state
            &&& action.reply == Some(
                (Message::ReportPowerStatus { status: PowerStatus::On }, envelope.initiator),
            )
            &&& action.key_up is None && action.key_down is None
            &&& !action.suspend && !action.forward_to_handler
        }),
{
}

/// A pressed remote key is pressed on the input device and becomes the
/// held key; the key held before, if any, is released first.
pub proof fn lemma_key_pressed(
    state: DeviceTaskState,
    this_address: PhysicalAddress,
    allow_standby: bool,
    has_handler: bool,
    envelope: Envelope,
    key: UiCommand,
)
    requires
        envelope.message == (Message::UserControlPressed { ui_command: key }),
    ensures
        ({
            let (next, action) = spec_decide_message(state, this_address, allow_standby, has_handler, envelope);
            &&& next.active_key == Some(key)
            &&& next.active == state.active && next.awaiting_wake == state.awaiting_wake
            &&& action.key_down == Some(key)
            &&& action.key_up == state.active_key
            &&& action.reply is None && !action.suspend && !action.forward_to_handler
        }),
{
}

/// A released remote key releases the held key, if any, and leaves no key
/// held.
pub proof fn lemma_key_released(
    state: DeviceTaskState,
    this_address: PhysicalAddress,
    allow_standby: bool,
    has_handler: bool,
    envelope: Envelope,
)
    requires
        envelope.message == Message::UserControlReleased,
    ensures
        ({
            let (next, action) = spec_decide_message(state, this_address, allow_standby, has_handler, envelope);
            &&& next.active_key is None
            &&& next.active == state.active && next.awaiting_wake == state.awaiting_wake
            &&& action.key_up == state.active_key
            &&& action.key_down is None
            &&& action.reply is None && !action.suspend && !action.forward_to_handler
        }),
{
}

/// A Set Stream Path to the device's own address is answered with an
/// Active Source for that address, sent to every device; one to another
/// address is not answered.
pub proof fn lemma_set_stream_path(
    state: DeviceTaskState,
    this_address: PhysicalAddress,
    allow_standby: bool,
    has_handler: bool,
    envelope: Envelope,
    address: PhysicalAddress,
)
    requires
        envelope.message == (Message::SetStreamPath { address }),
    ensures
        ({
            let (next, action) = spec_decide_message(state, this_address, allow_standby, has_handler, envelope);
            &&& next == state
            &&& address == this_address ==> action.reply == Some(
                (Message::ActiveSource { address: this_address }, LogicalAddress::UnregisteredOrBroadcast),
            )
            &&& address != this_address ==> action.reply is None
            &&& !action.suspend && !action.forward_to_handler
        }),
{
}

/// A Standby puts the system to sleep exactly when the configuration
/// allows other devices to do so.
pub proof fn lemma_standby(
    state: DeviceTaskState,
    this_address: PhysicalAddress,
    allow_standby: bool,
    has_handler: bool,
    envelope: Envelope,
)
    requires
        envelope.message == Message::Standby,
    ensures
        ({
            let (next, action) = spec_decide_message(state, this_address, allow_standby, has_handler, envelope);
            &&& next == state
            &&& action.suspend == allow_standby
            &&& allow_standby ==> action.reply is None && !action.forward_to_handler
        }),
{
}

/// A Routing Change that leads to the device's own address makes it the
/// active source and ends its wait for the TV; one that leads elsewhere
/// makes it inactive. Neither is answered.
pub proof fn lemma_routing_change(
    state: DeviceTaskState,
    this_address: PhysicalAddress,
    allow_standby: bool,
    has_handler: bool,
    envelope: Envelope,
    original_address: PhysicalAddress,
    new_address: PhysicalAddress,
)
    requires
        envelope.message == (Message::RoutingChange { original_address, new_address }),
    ensures
        ({
            let (next, action) = spec_decide_message(state, this_address, allow_standby, has_handler, envelope);
            &&& next.active == (new_address == this_address)
            &&& new_address == this_address ==> !next.awaiting_wake
            &&& new_address != this_address ==> next.awaiting_wake == state.awaiting_wake
            &&& next.active_key == state.active_key
            &&& action.reply is None && action.key_up is None && action.key_down is None
            &&& !action.suspend && !action.forward_to_handler
        }),
{
}

/// A message that the service does not answer itself goes, when sent to the
/// device alone, to the handler registered for its opcode, or without one
/// is refused to its sender as an unrecognized opcode; sent to every
/// device, it is ignored.
pub proof fn lemma_unhandled_message(
    state: DeviceTaskState,
    this_address: PhysicalAddress,
    allow_standby: bool,
    has_handler: bool,
    envelope: Envelope,
)
    requires
        !(envelope.message is GiveDevicePowerStatus),
        !(envelope.message is UserControlPressed),
        !(envelope.message is UserControlReleased),
        !(envelope.message is SetStreamPath),
        !(envelope.message is Standby),
        !(envelope.message is RoutingChange),
        !(envelope.message is RequestActiveSource),
    ensures
        ({
            let (next, action) = spec_decide_message(state, this_address, allow_standby, has_handler, envelope);
            &&& next == state
            &&& envelope.destination == LogicalAddress::UnregisteredOrBroadcast ==> action.reply is None
                && !action.forward_to_handler
            &&& envelope.destination != LogicalAddress::UnregisteredOrBroadcast && has_handler ==> action.reply is None
                && action.forward_to_handler
            &&& envelope.destination != LogicalAddress::UnregisteredOrBroadcast && !has_handler ==> action.reply == Some(
                (
                    Message::FeatureAbort {
                        opcode: envelope.message.spec_opcode(),
                        abort_reason: AbortReason::UnrecognizedOp,
                    },
                    envelope.initiator,
                ),
            )
            &&& action.key_up is None && action.key_down is None && !action.suspend
        }),
{
}

/// The reply to a Standby that the system failed to act on: the message is
/// refused, the system not being in a state to go to sleep.
pub fn standby_failed_reply(opcode: Opcode, initiator: LogicalAddress) -> (r: (Message, LogicalAddress))
    ensures
        r == (Message::FeatureAbort { opcode, abort_reason: AbortReason::IncorrectMode }, initiator),
{
    (Message::FeatureAbort { opcode, abort_reason: AbortReason::IncorrectMode }, initiator)
}

/// What a handler that a client registered for an opcode answered about a
/// message handed to it.
#[derive(Clone, Copy, Debug, PartialEq, Eq, Structural)]
pub enum HandlerReply {
    /// The handler took care of the message.
    Handled,
    /// The handler refused the message, with the code of an abort reason.
    Refused(u8),
    /// The call to the handler failed.
    Failed,
    /// The handler did not answer in time.
    TimedOut,
}

/// The reason to refuse a message that a handler answered with `reply`:
/// none when it was handled, the reason the handler gave when it refused (an
/// unknown code counting as undetermined), and undetermined when the call
/// failed or took too long.
pub open spec fn spec_abort_reason(reply: HandlerReply) -> Option<AbortReason> {
    match reply {
        HandlerReply::Handled => None,
        HandlerReply::Refused(code) => match AbortReason::from_code(code) {
            Some(reason) => Some(reason),
            None => Some(AbortReason::Undetermined),
        },
        HandlerReply::Failed => Some(AbortReason::Undetermined),
        HandlerReply::TimedOut => Some(AbortReason::Undetermined),
    }
}

/// A handler's refusal with the code of an abort reason refuses the message
/// for that reason, and one with a code of no reason refuses it as
/// undetermined; a handled message is not refused, and a failed or late call
/// refuses it as undetermined.
pub proof fn lemma_abort_reason(reason: AbortReason, code: u8)
    ensures
        spec_abort_reason(HandlerReply::Refused(reason.code())) == Some(reason),
        AbortReason::from_code(code) is None ==> spec_abort_reason(HandlerReply::Refused(code)) == Some(
            AbortReason::Undetermined,
        ),
        spec_abort_reason(HandlerReply::Handled) is None,
        spec_abort_reason(HandlerReply::Failed) == Some(AbortReason::Undetermined),
        spec_abort_reason(HandlerReply::TimedOut) == Some(AbortReason::Undetermined),
{
    reason.lemma_code(code);
}

/// A handler that a client registered for an opcode, known by the bus name
/// of the client.
#[derive(Clone, Debug)]
pub struct MessageHandler {
    pub bus_name: String,
}

impl MessageHandler {
    /// The handler of the client with bus name `bus_name`.
    pub fn new(bus_name: String) -> (r: MessageHandler)
        ensures
            r.bus_name@ == bus_name@,
    {
        MessageHandler { bus_name }
    }

    /// Whether the handler belongs to the client with bus name `name`.
    pub fn is_name(&self, name: &str) -> (r: bool)
        ensures
            r == (self.bus_name@ == name@),
    {
        str_equal(self.bus_name.as_str(), name)
    }

    /// The reason to refuse a message that the handler answered with
    /// `reply`, if it is to be refused.
    pub fn handle_reply(&self, reply: HandlerReply) -> (r: Option<AbortReason>)
        ensures
            r == spec_abort_reason(reply),
    {
        match reply {
            HandlerReply::Handled => None,
            HandlerReply::Refused(code) => match AbortReason::try_from_u8(code) {
                Ok(reason) => Some(reason),
                Err(_) => Some(AbortReason::Undetermined),
            },
            HandlerReply::Failed => Some(AbortReason::Undetermined),
            HandlerReply::TimedOut => Some(AbortReason::Undetermined),
        }
    }

    /// The reply to send for a message with opcode `opcode` from `initiator`
    /// that the handler answered with `reply`: a refusal, with the reason,
    /// sent back to the initiator, unless the handler took care of it.
    pub fn handle(&self, opcode: Opcode, initiator: LogicalAddress, reply: HandlerReply) -> (r: Option<
        (Message, LogicalAddress),
    >)
        ensures
            r == (match spec_abort_reason(reply) {
                Some(abort_reason) => Some((Message::FeatureAbort { opcode, abort_reason }, initiator)),
                None => None,
            }),
    {
        match self.handle_reply(reply) {
            Some(abort_reason) => Some((Message::FeatureAbort { opcode, abort_reason }, initiator)),
            None => None,
        }
    }
}

/// The identifiers of a device that the service last published: its
/// physical address, its vendor ID (-1 for none) and its logical addresses.
#[derive(Clone, Debug)]
pub struct CachedIds {
    pub phys_addr: u16,
    pub vendor_id: i32,
    pub log_addrs: Vec<u8>,
}

/// What the service does after the device's state changed: which changes to
/// announce, how many more times to ask for logical addresses, and whether
/// to configure the device again.
#[derive(Clone, Copy, Debug, PartialEq, Eq, Structural)]
pub struct StateChangeActions {
    pub phys_addr_changed: bool,
    pub vendor_id_changed: bool,
    pub log_addrs_changed: bool,
    pub log_addr_try: i32,
    pub reconfigure: bool,
}

/// What the service does after a state change, from what it published before
/// and what the device now reports: each identifier that differs is
/// announced. When the logical addresses changed, an empty new set renews
/// the budget of retries. When they did not, and the device has no logical
/// address but a physical one, and retries are left, one is spent to
/// configure the device again.
pub open spec fn spec_state_change(
    old_phys_addr: u16,
    old_vendor_id: i32,
    old_log_addrs: Seq<u8>,
    phys_addr: u16,
    log_addrs: Seq<u8>,
    vendor_id: i32,
    log_addr_try: i32,
) -> StateChangeActions {
    let log_addrs_changed = old_log_addrs != log_addrs;
    let retry = !log_addrs_changed && log_addrs.len() == 0 && phys_addr != 0xFFFF && log_addr_try > 0;
    StateChangeActions {
        phys_addr_changed: old_phys_addr != phys_addr,
        vendor_id_changed: old_vendor_id != vendor_id,
        log_addrs_changed,
        log_addr_try: if log_addrs_changed && log_addrs.len() == 0 {
            LOG_ADDR_RETRIES
        } else if retry {
            (log_addr_try - 1) as i32
        } else {
            log_addr_try
        },
        reconfigure: retry,
    }
}

/// Reporting again the identifiers already published announces nothing.
/// The device is then configured again exactly when it has no logical
/// address, has a physical one and retries are left, and each time one
/// retry is spent; otherwise the retries left stay as they were.
pub proof fn lemma_state_change_unchanged(phys_addr: u16, vendor_id: i32, log_addrs: Seq<u8>, log_addr_try: i32)
    ensures
        ({
            let a = spec_state_change(phys_addr, vendor_id, log_addrs, phys_addr, log_addrs, vendor_id, log_addr_try);
            &&& !a.phys_addr_changed && !a.vendor_id_changed && !a.log_addrs_changed
            &&& a.reconfigure == (log_addrs.len() == 0 && phys_addr != 0xFFFF && log_addr_try > 0)
            &&& a.reconfigure ==> a.log_addr_try == log_addr_try - 1
            &&& !a.reconfigure ==> a.log_addr_try == log_addr_try
        }),
{
}

/// Each identifier that differs from the one published is announced, and
/// only those. A change of the logical addresses configures nothing again;
/// when they changed to none, the budget of retries is renewed to twenty,
/// and otherwise it stays.
pub proof fn lemma_state_change_announced(
    old_phys_addr: u16,
    old_vendor_id: i32,
    old_log_addrs: Seq<u8>,
    phys_addr: u16,
    log_addrs: Seq<u8>,
    vendor_id: i32,
    log_addr_try: i32,
)
    ensures
        ({
            let a = spec_state_change(
                old_phys_addr,
                old_vendor_id,
                old_log_addrs,
                phys_addr,
                log_addrs,
                vendor_id,
                log_addr_try,
            );
            &&& a.phys_addr_changed == (old_phys_addr != phys_addr)
            &&& a.vendor_id_changed == (old_vendor_id != vendor_id)
            &&& a.log_addrs_changed == (old_log_addrs != log_addrs)
            &&& a.log_addrs_changed ==> !a.reconfigure
            &&& a.log_addrs_changed && log_addrs.len() == 0 ==> a.log_addr_try == 20
            &&& a.log_addrs_changed && log_addrs.len() != 0 ==> a.log_addr_try == log_addr_try
        }),
{
}

/// Whether two byte strings are equal.
fn bytes_equal(a: &[u8], b: &[u8]) -> (r: bool)
    ensures
        r == (a@ == b@),
{
    if a.len() != b.len() {
        return false;
    }
    let mut i: usize = 0;
    while i < a.len()
        invariant
            a@.len() == b@.len(),
            i <= a@.len(),
            forall|j: int| 0 <= j < i ==> a@[j] == b@[j],
        decreases a@.len() - i,
    {
        if a[i] != b[i] {
            return false;
        }
        i = i + 1;
    }
    assert(a@ =~= b@);
    true
}

/// What the service does after a state change, and what it then has
/// published: the identifiers the device now reports.
pub fn decide_state_change(
    cache: CachedIds,
    phys_addr: u16,
    log_addrs: Vec<u8>,
    vendor_id: i32,
    log_addr_try: i32,
) -> (r: (CachedIds, StateChangeActions))
    ensures
        r.0.phys_addr == phys_addr,
        r.0.vendor_id == vendor_id,
        r.0.log_addrs@ == log_addrs@,
        r.1 == spec_state_change(
            cache.phys_addr,
            cache.vendor_id,
            cache.log_addrs@,
            phys_addr,
            log_addrs@,
            vendor_id,
            log_addr_try,
        ),
{
    let log_addrs_changed = !bytes_equal(cache.log_addrs.as_slice(), log_addrs.as_slice());
    let retry = !log_addrs_changed && log_addrs.len() == 0 && phys_addr != 0xFFFF && log_addr_try > 0;
    let tries = if log_addrs_changed && log_addrs.len() == 0 {
        LOG_ADDR_RETRIES
    } else if retry {
        log_addr_try - 1
    } else {
        log_addr_try
    };
    let actions = StateChangeActions {
        phys_addr_changed: cache.phys_addr != phys_addr,
        vendor_id_changed: cache.vendor_id != vendor_id,
        log_addrs_changed,
        log_addr_try: tries,
        reconfigure: retry,
    };
    (CachedIds { phys_addr, vendor_id, log_addrs }, actions)
}

/// The physical address to give a device that lets its address be set:
/// the one its display's EDID announces, else the configured fallback, else
/// the address of no connection. A device that sets its own address is
/// given none.
pub fn choose_physical_address(
    has_phys_caps: bool,
    from_edid: Option<PhysicalAddress>,
    fallback: Option<PhysicalAddress>,
) -> (r: Option<PhysicalAddress>)
    ensures
        r == (if !has_phys_caps {
            None
        } else {
            match from_edid {
                Some(pa) => Some(pa),
                None => match fallback {
                    Some(pa) => Some(pa),
                    None => Some(PhysicalAddress(0xFFFF)),
                },
            }
        }),
{
    if !has_phys_caps {
        return None;
    }
    match from_edid {
        Some(pa) => Some(pa),
        None => match fallback {
            Some(pa) => Some(pa),
            None => Some(PhysicalAddress(0xFFFF)),
        },
    }
}

/// What to do after an attempt to release a device's logical addresses.
#[derive(Clone, Copy, Debug, PartialEq, Eq, Structural)]
pub enum RetryAction {
    /// The addresses were released.
    Done,
    /// The device was busy: wait, then try again.
    Retry,
    /// The device was still busy at the last attempt: report the failure.
    GiveUp,
    /// The attempt failed otherwise: report the failure.
    Fail,
}

/// What to do after attempt number `attempt` (from 0) to release a device's
/// logical addresses, which `failed` or not, because the device was `busy`
/// or otherwise: a busy device is tried again up to five attempts in all.
pub fn clear_retry_step(attempt: u8, busy: bool, failed: bool) -> (r: RetryAction)
    requires
        attempt < CLEAR_ATTEMPTS,
    ensures
        r == (if !failed {
            RetryAction::Done
        } else if !busy {
            RetryAction::Fail
        } else if attempt + 1 == CLEAR_ATTEMPTS {
            RetryAction::GiveUp
        } else {
            RetryAction::Retry
        }),
{
    if !failed {
        RetryAction::Done
    } else if !busy {
        RetryAction::Fail
    } else if attempt + 1 == CLEAR_ATTEMPTS {
        RetryAction::GiveUp
    } else {
        RetryAction::Retry
    }
}


/// How many times the service tries to make a device the active source when
/// the system wakes.
pub const WAKE_TRIES: u32 = 2;

/// What the service asks of its devices as the system sleeps and wakes, or
/// when its configuration is reloaded.
#[derive(Clone, Copy, Debug, PartialEq, Eq, Structural)]
pub enum SystemMessage {
    /// Wake the TV and become the active source.
    Wake,
    /// Give up being the active source, and put the TV to sleep if
    /// `standby_tv`.
    Standby { standby_tv: bool },
    /// Configure the devices again.
    ReloadConfig,
}

/// The message that the service sends its devices when the login manager
/// announces that the system goes to sleep (`sleep`) or has woken: on sleep,
/// to stand by, putting the TV to sleep as the configuration's `suspend_tv`
/// says; on waking, to wake the TV if the configuration's `wake_tv` asks
/// for it, and nothing otherwise.
pub fn sleep_message(sleep: bool, wake_tv: bool, suspend_tv: bool) -> (r: Option<SystemMessage>)
    ensures
        r == (if sleep {
            Some(SystemMessage::Standby { standby_tv: suspend_tv })
        } else if wake_tv {
            Some(SystemMessage::Wake)
        } else {
            None
        }),
{
    if sleep {
        Some(SystemMessage::Standby { standby_tv: suspend_tv })
    } else if wake_tv {
        Some(SystemMessage::Wake)
    } else {
        None
    }
}

/// The messages that a device sends, in order, when the system goes to
/// sleep: it tells the TV that it is no longer the active source, and then,
/// if `standby_tv`, puts the TV to sleep.
pub fn system_standby_messages(address: PhysicalAddress, standby_tv: bool) -> (r: Vec<
    (Message, LogicalAddress),
>)
    ensures
        r@.len() == (if standby_tv {
            2int
        } else {
            1int
        }),
        r@[0] == (Message::InactiveSource { address }, LogicalAddress::Tv),
        standby_tv ==> r@[1] == (Message::Standby, LogicalAddress::Tv),
{
    let mut messages = Vec::new();
    messages.push((Message::InactiveSource { address }, LogicalAddress::Tv));
    if standby_tv {
        messages.push((Message::Standby, LogicalAddress::Tv));
    }
    messages
}

/// What came of the last step of waking the TV.
#[derive(Clone, Copy, Debug, PartialEq, Eq, Structural)]
pub enum WakeEvent {
    /// Announcing the device as the active source succeeded.
    Activated,
    /// The announcement failed: the device has no logical address.
    NoLogicalAddress,
    /// The announcement failed: the device is gone.
    Disconnected,
    /// The announcement failed otherwise.
    Failed,
    /// Configuring the device again succeeded.
    Reconfigured,
    /// Configuring the device again failed: the device is gone.
    ReconfigureDisconnected,
    /// Configuring the device again failed otherwise.
    ReconfigureFailed,
}

/// What to do next while waking the TV.
#[derive(Clone, Copy, Debug, PartialEq, Eq, Structural)]
pub enum WakeAction {
    /// The TV answered: the device is the active source.
    Done,
    /// Configure the device again, within the same attempt.
    Reconfigure,
    /// Try again, after the wake delay if `delay`.
    Retry { delay: bool },
    /// Stop trying, after the wake delay if `delay`: the TV did not answer.
    GiveUp { delay: bool },
    /// Stop waiting and report that the device is gone.
    Fail,
}

/// The end of attempt `attempt`: another attempt while tries are left, else
/// giving up; after the wake delay if `delay`.
pub open spec fn next_wake_attempt(attempt: u32, delay: bool) -> WakeAction {
    if attempt + 1 < WAKE_TRIES {
        WakeAction::Retry { delay }
    } else {
        WakeAction::GiveUp { delay }
    }
}

/// One step of waking the TV, in attempt number `attempt` (from 0), from
/// what came of the last step and whether the device still waits for the
/// TV, which the device stops doing when the TV turns to it: the new waiting
/// flag and what to do next. A successful announcement ends the wake once
/// the device no longer waits, and otherwise ends the attempt; a lost
/// logical address is configured again, after which the attempt ends at
/// once; a lost device ends the wait with a failure; any other failure ends
/// the attempt.
pub open spec fn spec_wake_step(attempt: u32, event: WakeEvent, awaiting_wake: bool) -> (bool, WakeAction) {
    match event {
        WakeEvent::Activated => if !awaiting_wake {
            (awaiting_wake, WakeAction::Done)
        } else {
            (awaiting_wake, next_wake_attempt(attempt, true))
        },
        WakeEvent::NoLogicalAddress => (awaiting_wake, WakeAction::Reconfigure),
        WakeEvent::Reconfigured => (awaiting_wake, next_wake_attempt(attempt, false)),
        WakeEvent::ReconfigureDisconnected => (false, WakeAction::Fail),
        WakeEvent::ReconfigureFailed => (awaiting_wake, next_wake_attempt(attempt, true)),
        WakeEvent::Disconnected => (false, WakeAction::Fail),
        WakeEvent::Failed => (awaiting_wake, next_wake_attempt(attempt, true)),
    }
}

/// One step of waking the TV, as [`spec_wake_step`] describes.
pub fn wake_step(attempt: u32, event: WakeEvent, awaiting_wake: bool) -> (r: (bool, WakeAction))
    requires
        attempt < WAKE_TRIES,
    ensures
        r == spec_wake_step(attempt, event, awaiting_wake),
{
    let next = |delay: bool| -> (a: WakeAction)
        ensures
            a == next_wake_attempt(attempt, delay),
        {
            if attempt + 1 < WAKE_TRIES {
                WakeAction::Retry { delay }
            } else {
                WakeAction::GiveUp { delay }
            }
        };
    match event {
        WakeEvent::Activated => {
            if !awaiting_wake {
                (awaiting_wake, WakeAction::Done)
            } else {
                (awaiting_wake, next(true))
            }
        },
        WakeEvent::NoLogicalAddress => (awaiting_wake, WakeAction::Reconfigure),
        WakeEvent::Reconfigured => (awaiting_wake, next(false)),
        WakeEvent::ReconfigureDisconnected => (false, WakeAction::Fail),
        WakeEvent::ReconfigureFailed => (awaiting_wake, next(true)),
        WakeEvent::Disconnected => (false, WakeAction::Fail),
        WakeEvent::Failed => (awaiting_wake, next(true)),
    }
}


/// Waking the TV makes at most two attempts: only the first attempt may be
/// followed by another. It is done only once an announcement succeeded and
/// the device no longer waits; a lost logical address is configured again
/// within the attempt; a lost device ends the wait with a failure. The
/// device keeps waiting otherwise, and an attempt that ends waits the wake
/// delay unless it ended on a successful configuration.
pub proof fn lemma_wake_step(attempt: u32, event: WakeEvent, awaiting_wake: bool)
    ensures
        ({
            let (waiting, action) = spec_wake_step(attempt, event, awaiting_wake);
            &&& action is Retry ==> attempt == 0
            &&& (action is Done) == (event is Activated && !awaiting_wake)
            &&& (action is Reconfigure) == (event is NoLogicalAddress)
            &&& (action is Fail) == (event is Disconnected || event is ReconfigureDisconnected)
            &&& action is Fail ==> !waiting
            &&& !(action is Fail) ==> waiting == awaiting_wake
            &&& (action matches WakeAction::Retry { delay } ==> delay == !(event is Reconfigured))
            &&& (action matches WakeAction::GiveUp { delay } ==> delay == !(event is Reconfigured))
            &&& (action is Retry || action is GiveUp) ==> (action is Retry) == (attempt == 0)
        }),
{
}

/// The key code mapped to the UI command code `code` among `entries`: that
/// of the first entry for it.
pub open spec fn lookup_key(entries: Seq<(u8, u16)>, code: u8) -> Option<u16>
    decreases entries.len(),
{
    if entries.len() == 0 {
        None
    } else if entries[0].0 == code {
        Some(entries[0].1)
    } else {
        lookup_key(entries.drop_first(), code)
    }
}

/// Whether no UI command code has two entries.
pub open spec fn codes_unique(entries: Seq<(u8, u16)>) -> bool {
    forall|i: int, j: int| 0 <= i < j < entries.len() ==> entries[i].0 != entries[j].0
}

/// With codes unique, an entry's code maps to the entry's key.
proof fn lemma_lookup_found(entries: Seq<(u8, u16)>, i: int)
    requires
        codes_unique(entries),
        0 <= i < entries.len(),
    ensures
        lookup_key(entries, entries[i].0) == Some(entries[i].1),
    decreases entries.len(),
{
    if i > 0 {
        let rest = entries.drop_first();
        assert(rest[i - 1] == entries[i]);
        lemma_lookup_found(rest, i - 1);
    }
}

/// A code that no entry has maps to no key.
proof fn lemma_lookup_absent(entries: Seq<(u8, u16)>, code: u8)
    requires
        forall|i: int| 0 <= i < entries.len() ==> entries[i].0 != code,
    ensures
        lookup_key(entries, code) is None,
    decreases entries.len(),
{
    if entries.len() > 0 {
        let rest = entries.drop_first();
        assert forall|i: int| 0 <= i < rest.len() implies rest[i].0 != code by {
            assert(rest[i] == entries[i + 1]);
        }
        lemma_lookup_absent(rest, code);
    }
}

/// The mapping of remote control buttons, by UI command code, to the key
/// codes that the service presses on its input device; a button has at most
/// one key.
#[derive(Debug)]
pub struct KeyMap {
    entries: Vec<(u8, u16)>,
}

impl KeyMap {
    #[verifier::type_invariant]
    spec fn inv(self) -> bool {
        codes_unique(self.entries@)
    }

    /// The key code mapped to the UI command code `code`, if any.
    pub closed spec fn spec_key(self, code: u8) -> Option<u16> {
        lookup_key(self.entries@, code)
    }

    /// The mapping of no button.
    pub fn new() -> (r: KeyMap)
        ensures
            forall|code: u8| r.spec_key(code) is None,
    {
        KeyMap { entries: Vec::new() }
    }

    /// The key code mapped to the UI command code `code`, if any.
    pub fn get(&self, code: u8) -> (r: Option<u16>)
        ensures
            r == self.spec_key(code),
    {
        let n = self.entries.len();
        let mut i: usize = 0;
        assert(self.entries@.subrange(0, n as int) =~= self.entries@);
        while i < n
            invariant
                n == self.entries@.len(),
                i <= n,
                lookup_key(self.entries@, code) == lookup_key(self.entries@.subrange(i as int, n as int), code),
            decreases n - i,
        {
            let (c, key) = self.entries[i];
            if c == code {
                return Some(key);
            }
            assert(self.entries@.subrange(i as int, n as int).drop_first() =~= self.entries@.subrange(
                i + 1,
                n as int,
            ));
            i = i + 1;
        }
        None
    }

    /// The key code mapped to the remote control button `command`, if any.
    pub fn key_for(&self, command: UiCommand) -> (r: Option<u16>)
        ensures
            r == self.spec_key(command.code()),
    {
        self.get(command.to_u8())
    }

    /// Maps the UI command code `code` to the key code `key`, in place of
    /// any key it was mapped to; the other buttons keep theirs.
    pub fn insert(&mut self, code: u8, key: u16)
        ensures
            forall|c: u8|
                #![trigger final(self).spec_key(c)]
                final(self).spec_key(c) == if c == code {
                    Some(key)
                } else {
                    old(self).spec_key(c)
                },
    {
        proof {
            use_type_invariant(&*self);
        }
        let ghost before = self.entries@;
        let n = self.entries.len();
        let mut i: usize = 0;
        while i < n
            invariant
                n == self.entries@.len(),
                self.entries@ == before,
                i <= n,
                forall|j: int| 0 <= j < i ==> before[j].0 != code,
            ensures
                i <= n,
                i < n ==> before[i as int].0 == code,
                forall|j: int| 0 <= j < i ==> before[j].0 != code,
            decreases n - i,
        {
            if self.entries[i].0 == code {
                break;
            }
            i = i + 1;
        }
        let mut entries = Vec::new();
        core::mem::swap(&mut entries, &mut self.entries);
        assert(entries@ == before);
        if i < n {
            entries.set(i, (code, key));
            assert(entries@ == before.update(i as int, (code, key)));
        } else {
            entries.push((code, key));
            assert(entries@ == before.push((code, key)));
        }
        let ghost after = entries@;
        proof {
            assert(codes_unique(after)) by {
                assert forall|a: int, b: int| 0 <= a < b < after.len() implies after[a].0 != after[b].0 by {
                    if i < n {
                        assert(after[a].0 == before[a].0);
                        assert(after[b].0 == before[b].0);
                    } else {
                        if b == n {
                            assert(before[a].0 != code);
                        } else {
                            assert(after[a] == before[a] && after[b] == before[b]);
                        }
                    }
                }
            }
            assert forall|c: u8|
                lookup_key(after, c) == if c == code {
                    Some(key)
                } else {
                    lookup_key(before, c)
                } by {
                if c == code {
                    let k: int = if i < n { i as int } else { n as int };
                    lemma_lookup_found(after, k);
                } else if exists|j: int| 0 <= j < before.len() && before[j].0 == c {
                    let j = choose|j: int| 0 <= j < before.len() && before[j].0 == c;
                    lemma_lookup_found(before, j);
                    if i < n {
                        assert(j != i);
                    }
                    assert(after[j] == before[j]);
                    lemma_lookup_found(after, j);
                } else {
                    lemma_lookup_absent(before, c);
                    assert forall|j: int| 0 <= j < after.len() implies after[j].0 != c by {
                        if j < before.len() && j != i {
                            assert(after[j] == before[j]);
                        }
                    }
                    lemma_lookup_absent(after, c);
                }
            }
        }
        self.entries = entries;
    }
}

} // verus!
