use linux_cec::address::{LogicalAddress, PhysicalAddress};
use linux_cec::daemon::{
    choose_physical_address, clear_retry_step, decide_message, decide_state_change,
    needs_physical_address, sleep_message, standby_failed_reply, system_standby_messages,
    wake_step, CachedIds, DeviceTaskState, HandlerReply, KeyMap, MessageHandler, RetryAction,
    SystemMessage, WakeAction, WakeEvent, LOG_ADDR_RETRIES,
};
use linux_cec::device::Envelope;
use linux_cec::message::{Message, Opcode};
use linux_cec::operand::codes::{AbortReason, PowerStatus, UiCommand};

const HERE: PhysicalAddress = PhysicalAddress(0x1000);

fn envelope(message: Message, destination: LogicalAddress) -> Envelope {
    Envelope { message, initiator: LogicalAddress::Tv, destination, timestamp: 0 }
}

fn idle() -> DeviceTaskState {
    DeviceTaskState::new()
}

#[test]
fn test_power_status_reply() {
    let (state, action) = decide_message(
        idle(),
        HERE,
        false,
        false,
        &envelope(Message::GiveDevicePowerStatus, LogicalAddress::PlaybackDevice1),
    );
    assert_eq!(state, idle());
    assert_eq!(
        action.reply,
        Some((Message::ReportPowerStatus { status: PowerStatus::On }, LogicalAddress::Tv))
    );
}

#[test]
fn test_keys() {
    let pressed = |c| envelope(Message::UserControlPressed { ui_command: c }, LogicalAddress::PlaybackDevice1);
    let (state, action) = decide_message(idle(), HERE, false, false, &pressed(UiCommand::Up));
    assert_eq!(state.active_key, Some(UiCommand::Up));
    assert_eq!((action.key_up, action.key_down), (None, Some(UiCommand::Up)));

    let (state, action) = decide_message(state, HERE, false, false, &pressed(UiCommand::Down));
    assert_eq!(state.active_key, Some(UiCommand::Down));
    assert_eq!((action.key_up, action.key_down), (Some(UiCommand::Up), Some(UiCommand::Down)));

    let released = envelope(Message::UserControlReleased, LogicalAddress::PlaybackDevice1);
    let (state, action) = decide_message(state, HERE, false, false, &released);
    assert_eq!(state.active_key, None);
    assert_eq!((action.key_up, action.key_down), (Some(UiCommand::Down), None));

    let (state, action) = decide_message(state, HERE, false, false, &released);
    assert_eq!(state, idle());
    assert_eq!(action.key_up, None);
}

#[test]
fn test_stream_path_and_routing() {
    let to_us = envelope(Message::SetStreamPath { address: HERE }, LogicalAddress::UnregisteredOrBroadcast);
    let (_, action) = decide_message(idle(), HERE, false, false, &to_us);
    assert_eq!(
        action.reply,
        Some((Message::ActiveSource { address: HERE }, LogicalAddress::UnregisteredOrBroadcast))
    );
    let elsewhere = envelope(
        Message::SetStreamPath { address: PhysicalAddress(0x2000) },
        LogicalAddress::UnregisteredOrBroadcast,
    );
    assert_eq!(decide_message(idle(), HERE, false, false, &elsewhere).1.reply, None);

    let waiting = DeviceTaskState { active_key: None, active: false, awaiting_wake: true };
    let routed = envelope(
        Message::RoutingChange { original_address: PhysicalAddress(0), new_address: HERE },
        LogicalAddress::UnregisteredOrBroadcast,
    );
    let (state, _) = decide_message(waiting, HERE, false, false, &routed);
    assert!(state.active && !state.awaiting_wake);
    let away = envelope(
        Message::RoutingChange { original_address: HERE, new_address: PhysicalAddress(0x2000) },
        LogicalAddress::UnregisteredOrBroadcast,
    );
    let (state, _) = decide_message(state, HERE, false, false, &away);
    assert!(!state.active);
}

#[test]
fn test_request_active_source() {
    let request = envelope(Message::RequestActiveSource, LogicalAddress::UnregisteredOrBroadcast);
    assert_eq!(decide_message(idle(), HERE, false, false, &request).1.reply, None);
    let active = DeviceTaskState { active_key: None, active: true, awaiting_wake: false };
    assert_eq!(
        decide_message(active, HERE, false, false, &request).1.reply,
        Some((Message::ActiveSource { address: HERE }, LogicalAddress::UnregisteredOrBroadcast))
    );
    assert!(needs_physical_address(active, &Message::RequestActiveSource));
    assert!(!needs_physical_address(idle(), &Message::RequestActiveSource));
    assert!(!needs_physical_address(idle(), &Message::Standby));
}

#[test]
fn test_standby_and_unhandled() {
    let standby = envelope(Message::Standby, LogicalAddress::PlaybackDevice1);
    assert!(decide_message(idle(), HERE, true, false, &standby).1.suspend);
    let refused = decide_message(idle(), HERE, false, false, &standby).1;
    assert!(!refused.suspend);
    assert_eq!(
        refused.reply,
        Some((
            Message::FeatureAbort { opcode: Opcode::Standby, abort_reason: AbortReason::UnrecognizedOp },
            LogicalAddress::Tv
        ))
    );
    assert!(decide_message(idle(), HERE, false, true, &standby).1.forward_to_handler);
    let broadcast = envelope(Message::Standby, LogicalAddress::UnregisteredOrBroadcast);
    assert_eq!(decide_message(idle(), HERE, false, false, &broadcast).1.reply, None);
    assert_eq!(
        standby_failed_reply(Opcode::Standby, LogicalAddress::Tv),
        (
            Message::FeatureAbort { opcode: Opcode::Standby, abort_reason: AbortReason::IncorrectMode },
            LogicalAddress::Tv
        )
    );
}

#[test]
fn test_handler_replies() {
    let handler = MessageHandler::new(String::from(":1.42"));
    assert!(handler.is_name(":1.42"));
    assert!(!handler.is_name(":1.43"));
    assert_eq!(handler.handle_reply(HandlerReply::Handled), None);
    assert_eq!(handler.handle_reply(HandlerReply::Refused(u8::from(AbortReason::Refused))), Some(AbortReason::Refused));
    assert_eq!(handler.handle_reply(HandlerReply::Refused(0x77)), Some(AbortReason::Undetermined));
    assert_eq!(handler.handle_reply(HandlerReply::Failed), Some(AbortReason::Undetermined));
    assert_eq!(
        handler.handle(Opcode::Play, LogicalAddress::Tv, HandlerReply::TimedOut),
        Some((
            Message::FeatureAbort { opcode: Opcode::Play, abort_reason: AbortReason::Undetermined },
            LogicalAddress::Tv
        ))
    );
    assert_eq!(handler.handle(Opcode::Play, LogicalAddress::Tv, HandlerReply::Handled), None);
}

#[test]
fn test_state_change() {
    let cache = CachedIds { phys_addr: 0x1000, vendor_id: -1, log_addrs: vec![4] };
    let (cache, actions) = decide_state_change(cache, 0x2000, vec![4], 0x000C03, 7);
    assert!(actions.phys_addr_changed && actions.vendor_id_changed && !actions.log_addrs_changed);
    assert!(!actions.reconfigure);
    assert_eq!(actions.log_addr_try, 7);
    assert_eq!((cache.phys_addr, cache.vendor_id), (0x2000, 0x000C03));

    let (cache, actions) = decide_state_change(cache, 0x2000, vec![], 0x000C03, 7);
    assert!(actions.log_addrs_changed && !actions.phys_addr_changed);
    assert_eq!(actions.log_addr_try, LOG_ADDR_RETRIES);

    let (cache, actions) = decide_state_change(cache, 0x2000, vec![], 0x000C03, 7);
    assert!(actions.reconfigure);
    assert_eq!(actions.log_addr_try, 6);

    let (_, actions) = decide_state_change(cache, 0xFFFF, vec![], 0x000C03, 7);
    assert!(!actions.reconfigure);
}

#[test]
fn test_physical_address_choice() {
    let edid = Some(PhysicalAddress(0x1000));
    let fallback = Some(PhysicalAddress(0x2000));
    assert_eq!(choose_physical_address(false, edid, fallback), None);
    assert_eq!(choose_physical_address(true, edid, fallback), edid);
    assert_eq!(choose_physical_address(true, None, fallback), fallback);
    assert_eq!(choose_physical_address(true, None, None), Some(PhysicalAddress(0xFFFF)));
}

#[test]
fn test_clear_retries() {
    assert_eq!(clear_retry_step(0, false, false), RetryAction::Done);
    assert_eq!(clear_retry_step(0, false, true), RetryAction::Fail);
    assert_eq!(clear_retry_step(3, true, true), RetryAction::Retry);
    assert_eq!(clear_retry_step(4, true, true), RetryAction::GiveUp);
}

#[test]
fn test_system_message_standby() {
    assert_eq!(
        system_standby_messages(HERE, true),
        vec![
            (Message::InactiveSource { address: HERE }, LogicalAddress::Tv),
            (Message::Standby, LogicalAddress::Tv),
        ]
    );
    assert_eq!(
        system_standby_messages(HERE, false),
        vec![(Message::InactiveSource { address: HERE }, LogicalAddress::Tv)]
    );
}

#[test]
fn test_sleep_message() {
    assert_eq!(sleep_message(true, true, false), Some(SystemMessage::Standby { standby_tv: false }));
    assert_eq!(sleep_message(true, false, true), Some(SystemMessage::Standby { standby_tv: true }));
    assert_eq!(sleep_message(false, true, true), Some(SystemMessage::Wake));
    assert_eq!(sleep_message(false, false, true), None);
}

#[test]
fn test_wake_steps() {
    assert_eq!(wake_step(0, WakeEvent::Activated, false), (false, WakeAction::Done));
    assert_eq!(wake_step(0, WakeEvent::Activated, true), (true, WakeAction::Retry { delay: true }));
    assert_eq!(wake_step(1, WakeEvent::Activated, true), (true, WakeAction::GiveUp { delay: true }));
    assert_eq!(wake_step(0, WakeEvent::NoLogicalAddress, true), (true, WakeAction::Reconfigure));
    assert_eq!(wake_step(0, WakeEvent::Reconfigured, true), (true, WakeAction::Retry { delay: false }));
    assert_eq!(wake_step(1, WakeEvent::Reconfigured, true), (true, WakeAction::GiveUp { delay: false }));
    assert_eq!(wake_step(0, WakeEvent::ReconfigureFailed, true), (true, WakeAction::Retry { delay: true }));
    assert_eq!(wake_step(0, WakeEvent::ReconfigureDisconnected, true), (false, WakeAction::Fail));
    assert_eq!(wake_step(1, WakeEvent::Disconnected, true), (false, WakeAction::Fail));
    assert_eq!(wake_step(0, WakeEvent::Failed, true), (true, WakeAction::Retry { delay: true }));
}

#[test]
fn test_key_map() {
    let mut keys = KeyMap::new();
    assert_eq!(keys.key_for(UiCommand::Up), None);
    keys.insert(u8::from(UiCommand::Up), 103);
    keys.insert(u8::from(UiCommand::Down), 108);
    assert_eq!(keys.key_for(UiCommand::Up), Some(103));
    assert_eq!(keys.get(u8::from(UiCommand::Down)), Some(108));
    keys.insert(u8::from(UiCommand::Up), 115);
    assert_eq!(keys.key_for(UiCommand::Up), Some(115));
    assert_eq!(keys.key_for(UiCommand::Down), Some(108));
    assert_eq!(keys.key_for(UiCommand::Select), None);
}
