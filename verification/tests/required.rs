use linux_cec::address::PhysicalAddress;
use linux_cec::cdc::{
    CdcErrorCode, EncFunctionalityState, HecFunctionalityState, HecState, HostFunctionalityState,
};
use linux_cec::codec::OperandEncodable;
use linux_cec::message::{Message, Opcode};
use linux_cec::mode::{CecFollowerModes, CecInitiatorModes};
use linux_cec::operand::buffer::{BoundedBufferOperand, BufferOperand};
use linux_cec::operand::codes::MediaInfo;
use std::str::FromStr;
use linux_cec::operand::scalar::{BcdByte, Delay};
use linux_cec::operand::service::{ChannelId, RecordSource};
use linux_cec::operand::timer::{NotProgrammedErrorInfo, TimerProgrammedInfo, TimerStatusData};
use linux_cec::{Error, FollowerMode, InitiatorMode};

#[test]
fn cdc_test_opcode() {
    assert_eq!(
        linux_cec::cdc::Message::HecReportState {
            physical_address: PhysicalAddress(0x1234),
            state: HecState::new()
                .with_cdc_error(CdcErrorCode::NoError)
                .with_enc_functionality(EncFunctionalityState::Inactive)
                .with_host_functionality(HostFunctionalityState::Active)
                .with_hec_functionality(HecFunctionalityState::ActivationField),
            field: None,
        }
        .opcode(),
        linux_cec::cdc::Opcode::HecReportState
    );
    assert_eq!(
        linux_cec::cdc::Message::HecSetState {
            terminating_address1: PhysicalAddress(0x1234),
            terminating_address2: PhysicalAddress(0x5678),
            state: true,
            terminating_addresses: BoundedBufferOperand::default(),
        }
        .opcode(),
        linux_cec::cdc::Opcode::HecSetState
    );
}

#[test]
fn ioctls_test_from() {
    assert_eq!(CecInitiatorModes::NoInitiator, InitiatorMode::Disabled.into());
    assert_eq!(CecInitiatorModes::Initiator, InitiatorMode::Enabled.into());
    assert_eq!(CecInitiatorModes::ExclusiveInitiator, InitiatorMode::Exclusive.into());

    assert_eq!(CecFollowerModes::NoFollower, FollowerMode::Disabled.into());
    assert_eq!(CecFollowerModes::Follower, FollowerMode::Enabled.into());
    assert_eq!(CecFollowerModes::ExclusiveFollower, FollowerMode::Exclusive.into());
    assert_eq!(CecFollowerModes::ExclusiveFollowerPassthru, FollowerMode::ExclusivePassthru.into());
    assert_eq!(CecFollowerModes::MonitorPin, FollowerMode::MonitorPin.into());
    assert_eq!(CecFollowerModes::Monitor, FollowerMode::Monitor.into());
    assert_eq!(CecFollowerModes::MonitorAll, FollowerMode::MonitorAll.into());
}

#[test]
fn message_test_opcode() {
    assert_eq!(Message::RecordOn { source: RecordSource::Own }.opcode(), Opcode::RecordOn);
    assert_eq!(
        Message::SetTimerProgramTitle { title: BufferOperand::from_str("12345678901234").unwrap() }
            .opcode(),
        Opcode::SetTimerProgramTitle
    );
}

#[test]
fn test_encode_out_of_range() {
    let mut buf = Vec::new();
    Delay(0).to_bytes(&mut buf);
    assert_eq!(&buf, &[0]);

    let mut buf = Vec::new();
    Delay(255).to_bytes(&mut buf);
    assert_eq!(&buf, &[255]);
}

#[test]
fn test_into_u8() {
    assert_eq!(u8::from(BcdByte::<0, 99>(0x12)), 12u8);
}

#[test]
fn test_decode_ignored_bytes() {
    assert_eq!(ChannelId::try_from_bytes(&[0x01 << 2, 0x56, 0x12, 0x34]), Ok(ChannelId::OnePart(0x1234)))
}

#[test]
fn test_decode_reserved_duration_underfull() {
    assert_eq!(
        TimerStatusData::try_from_bytes(&[0x0E, 0x01]),
        Ok(TimerStatusData {
            overlap_warning: false,
            media_info: MediaInfo::UnprotectedMedia,
            programmed_info: TimerProgrammedInfo::NotProgrammed(NotProgrammedErrorInfo::Duplicate {
                duration_available: None
            }),
        })
    );
}

#[test]
fn ioctls_test_try_into() {
    assert_eq!(Ok(InitiatorMode::Disabled), CecInitiatorModes::NoInitiator.try_into());
    assert_eq!(Ok(InitiatorMode::Enabled), CecInitiatorModes::Initiator.try_into());
    assert_eq!(Ok(InitiatorMode::Exclusive), CecInitiatorModes::ExclusiveInitiator.try_into());
    assert_eq!(
        <_ as TryInto<InitiatorMode>>::try_into(CecInitiatorModes::Invalid(256)),
        Err(Error::InvalidValueForType { ty: "CecInitiatorModes", value: String::from("256") })
    );

    assert_eq!(Ok(FollowerMode::Disabled), CecFollowerModes::NoFollower.try_into());
    assert_eq!(Ok(FollowerMode::Enabled), CecFollowerModes::Follower.try_into());
    assert_eq!(Ok(FollowerMode::Exclusive), CecFollowerModes::ExclusiveFollower.try_into());
    assert_eq!(
        Ok(FollowerMode::ExclusivePassthru),
        CecFollowerModes::ExclusiveFollowerPassthru.try_into()
    );
    assert_eq!(Ok(FollowerMode::MonitorPin), CecFollowerModes::MonitorPin.try_into());
    assert_eq!(Ok(FollowerMode::Monitor), CecFollowerModes::Monitor.try_into());
    assert_eq!(Ok(FollowerMode::MonitorAll), CecFollowerModes::MonitorAll.try_into());
    assert_eq!(
        <_ as TryInto<FollowerMode>>::try_into(CecFollowerModes::Invalid(256)),
        Err(Error::InvalidValueForType { ty: "CecFollowerModes", value: String::from("256") })
    );
}
