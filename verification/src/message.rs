//! CEC messages: their opcodes, their operands, and their byte encoding.

use vstd::prelude::*;

use crate::address::PhysicalAddress;
use crate::codec::{
    lemma_parse_at_suffix, lemma_word, lemma_word_arith, parse_at, parse_code, parse_field, result_view, OperandEncodable,
};
use crate::error::{invalid_value, short_input, Error, ErrorView, Range, RangeView};
use crate::operand::bitfield::{AudioFormatIdAndCode, AudioStatus, LatencyFlags};
use crate::operand::buffer::{BoundedBufferOperand, BufferOperand};
use crate::operand::codes::{
    AbortReason, AudioRate, DayOfMonth, DeckControlMode, DeckInfo, DisplayControl, MenuRequestType, MenuState,
    MonthOfYear, PlayMode, PowerStatus, PrimaryDeviceType, RecordStatusInfo, StatusRequest, TimerClearedStatusData,
    UiCommand, Version,
};
use crate::operand::features::{DeviceFeatures, RcProfile};
use crate::operand::flags::{AllDeviceTypes, RecordingSequence};
use crate::operand::scalar::{Delay, VendorId};
use crate::operand::service::{
    AnalogueServiceId, DigitalServiceId, Duration, ExternalSource, RecordSource, Time, TunerDeviceInfo,
};
use crate::operand::timer::TimerStatusData;

pub use crate::cdc::Message as CdcMessage;

verus! {

/// The opcode of a CEC message.
#[derive(Clone, Copy, Debug, PartialEq, Eq, Structural, Hash)]
pub enum Opcode {
    ActiveSource,
    ImageViewOn,
    TextViewOn,
    InactiveSource,
    RequestActiveSource,
    RoutingChange,
    RoutingInformation,
    SetStreamPath,
    Standby,
    RecordOff,
    RecordOn,
    RecordStatus,
    RecordTvScreen,
    ClearAnalogueTimer,
    ClearDigitalTimer,
    ClearExtTimer,
    SetAnalogueTimer,
    SetDigitalTimer,
    SetExtTimer,
    SetTimerProgramTitle,
    TimerClearedStatus,
    TimerStatus,
    CecVersion,
    GetCecVersion,
    GivePhysicalAddr,
    GetMenuLanguage,
    ReportPhysicalAddr,
    SetMenuLanguage,
    DeckControl,
    DeckStatus,
    GiveDeckStatus,
    Play,
    GiveTunerDeviceStatus,
    SelectAnalogueService,
    SelectDigitalService,
    TunerDeviceStatus,
    TunerStepDecrement,
    TunerStepIncrement,
    DeviceVendorId,
    GiveDeviceVendorId,
    VendorCommand,
    VendorCommandWithId,
    VendorRemoteButtonDown,
    VendorRemoteButtonUp,
    SetOsdString,
    GiveOsdName,
    SetOsdName,
    MenuRequest,
    MenuStatus,
    UserControlPressed,
    UserControlReleased,
    GiveDevicePowerStatus,
    ReportPowerStatus,
    FeatureAbort,
    Abort,
    GiveAudioStatus,
    GiveSystemAudioModeStatus,
    ReportAudioStatus,
    ReportShortAudioDescriptor,
    RequestShortAudioDescriptor,
    SetSystemAudioMode,
    SystemAudioModeRequest,
    SystemAudioModeStatus,
    SetAudioRate,
    InitiateArc,
    ReportArcInitiated,
    ReportArcTerminated,
    RequestArcInitiation,
    RequestArcTermination,
    TerminateArc,
    CdcMessage,
    ReportFeatures,
    GiveFeatures,
    RequestCurrentLatency,
    ReportCurrentLatency,
}

impl Opcode {
    /// The byte that encodes the value.
    pub open spec fn code(self) -> u8 {
        match self {
            Opcode::ActiveSource => 0x82u8,
            Opcode::ImageViewOn => 0x04u8,
            Opcode::TextViewOn => 0x0du8,
            Opcode::InactiveSource => 0x9du8,
            Opcode::RequestActiveSource => 0x85u8,
            Opcode::RoutingChange => 0x80u8,
            Opcode::RoutingInformation => 0x81u8,
            Opcode::SetStreamPath => 0x86u8,
            Opcode::Standby => 0x36u8,
            Opcode::RecordOff => 0x0bu8,
            Opcode::RecordOn => 0x09u8,
            Opcode::RecordStatus => 0x0au8,
            Opcode::RecordTvScreen => 0x0fu8,
            Opcode::ClearAnalogueTimer => 0x33u8,
            Opcode::ClearDigitalTimer => 0x99u8,
            Opcode::ClearExtTimer => 0xa1u8,
            Opcode::SetAnalogueTimer => 0x34u8,
            Opcode::SetDigitalTimer => 0x97u8,
            Opcode::SetExtTimer => 0xa2u8,
            Opcode::SetTimerProgramTitle => 0x67u8,
            Opcode::TimerClearedStatus => 0x43u8,
            Opcode::TimerStatus => 0x35u8,
            Opcode::CecVersion => 0x9eu8,
            Opcode::GetCecVersion => 0x9fu8,
            Opcode::GivePhysicalAddr => 0x83u8,
            Opcode::GetMenuLanguage => 0x91u8,
            Opcode::ReportPhysicalAddr => 0x84u8,
            Opcode::SetMenuLanguage => 0x32u8,
            Opcode::DeckControl => 0x42u8,
            Opcode::DeckStatus => 0x1bu8,
            Opcode::GiveDeckStatus => 0x1au8,
            Opcode::Play => 0x41u8,
            Opcode::GiveTunerDeviceStatus => 0x08u8,
            Opcode::SelectAnalogueService => 0x92u8,
            Opcode::SelectDigitalService => 0x93u8,
            Opcode::TunerDeviceStatus => 0x07u8,
            Opcode::TunerStepDecrement => 0x06u8,
            Opcode::TunerStepIncrement => 0x05u8,
            Opcode::DeviceVendorId => 0x87u8,
            Opcode::GiveDeviceVendorId => 0x8cu8,
            Opcode::VendorCommand => 0x89u8,
            Opcode::VendorCommandWithId => 0xa0u8,
            Opcode::VendorRemoteButtonDown => 0x8au8,
            Opcode::VendorRemoteButtonUp => 0x8bu8,
            Opcode::SetOsdString => 0x64u8,
            Opcode::GiveOsdName => 0x46u8,
            Opcode::SetOsdName => 0x47u8,
            Opcode::MenuRequest => 0x8du8,
            Opcode::MenuStatus => 0x8eu8,
            Opcode::UserControlPressed => 0x44u8,
            Opcode::UserControlReleased => 0x45u8,
            Opcode::GiveDevicePowerStatus => 0x8fu8,
            Opcode::ReportPowerStatus => 0x90u8,
            Opcode::FeatureAbort => 0x00u8,
            Opcode::Abort => 0xffu8,
            Opcode::GiveAudioStatus => 0x71u8,
            Opcode::GiveSystemAudioModeStatus => 0x7du8,
            Opcode::ReportAudioStatus => 0x7au8,
            Opcode::ReportShortAudioDescriptor => 0xa3u8,
            Opcode::RequestShortAudioDescriptor => 0xa4u8,
            Opcode::SetSystemAudioMode => 0x72u8,
            Opcode::SystemAudioModeRequest => 0x70u8,
            Opcode::SystemAudioModeStatus => 0x7eu8,
            Opcode::SetAudioRate => 0x9au8,
            Opcode::InitiateArc => 0xc0u8,
            Opcode::ReportArcInitiated => 0xc1u8,
            Opcode::ReportArcTerminated => 0xc2u8,
            Opcode::RequestArcInitiation => 0xc3u8,
            Opcode::RequestArcTermination => 0xc4u8,
            Opcode::TerminateArc => 0xc5u8,
            Opcode::CdcMessage => 0xf8u8,
            Opcode::ReportFeatures => 0xa6u8,
            Opcode::GiveFeatures => 0xa5u8,
            Opcode::RequestCurrentLatency => 0xa7u8,
            Opcode::ReportCurrentLatency => 0xa8u8,
        }
    }

    /// Each value and the byte that encodes it.
    pub proof fn lemma_code_table()
        ensures
            Opcode::ActiveSource.code() == 0x82u8,
            Opcode::ImageViewOn.code() == 0x04u8,
            Opcode::TextViewOn.code() == 0x0du8,
            Opcode::InactiveSource.code() == 0x9du8,
            Opcode::RequestActiveSource.code() == 0x85u8,
            Opcode::RoutingChange.code() == 0x80u8,
            Opcode::RoutingInformation.code() == 0x81u8,
            Opcode::SetStreamPath.code() == 0x86u8,
            Opcode::Standby.code() == 0x36u8,
            Opcode::RecordOff.code() == 0x0bu8,
            Opcode::RecordOn.code() == 0x09u8,
            Opcode::RecordStatus.code() == 0x0au8,
            Opcode::RecordTvScreen.code() == 0x0fu8,
            Opcode::ClearAnalogueTimer.code() == 0x33u8,
            Opcode::ClearDigitalTimer.code() == 0x99u8,
            Opcode::ClearExtTimer.code() == 0xa1u8,
            Opcode::SetAnalogueTimer.code() == 0x34u8,
            Opcode::SetDigitalTimer.code() == 0x97u8,
            Opcode::SetExtTimer.code() == 0xa2u8,
            Opcode::SetTimerProgramTitle.code() == 0x67u8,
            Opcode::TimerClearedStatus.code() == 0x43u8,
            Opcode::TimerStatus.code() == 0x35u8,
            Opcode::CecVersion.code() == 0x9eu8,
            Opcode::GetCecVersion.code() == 0x9fu8,
            Opcode::GivePhysicalAddr.code() == 0x83u8,
            Opcode::GetMenuLanguage.code() == 0x91u8,
            Opcode::ReportPhysicalAddr.code() == 0x84u8,
            Opcode::SetMenuLanguage.code() == 0x32u8,
            Opcode::DeckControl.code() == 0x42u8,
            Opcode::DeckStatus.code() == 0x1bu8,
            Opcode::GiveDeckStatus.code() == 0x1au8,
            Opcode::Play.code() == 0x41u8,
            Opcode::GiveTunerDeviceStatus.code() == 0x08u8,
            Opcode::SelectAnalogueService.code() == 0x92u8,
            Opcode::SelectDigitalService.code() == 0x93u8,
            Opcode::TunerDeviceStatus.code() == 0x07u8,
            Opcode::TunerStepDecrement.code() == 0x06u8,
            Opcode::TunerStepIncrement.code() == 0x05u8,
            Opcode::DeviceVendorId.code() == 0x87u8,
            Opcode::GiveDeviceVendorId.code() == 0x8cu8,
            Opcode::VendorCommand.code() == 0x89u8,
            Opcode::VendorCommandWithId.code() == 0xa0u8,
            Opcode::VendorRemoteButtonDown.code() == 0x8au8,
            Opcode::VendorRemoteButtonUp.code() == 0x8bu8,
            Opcode::SetOsdString.code() == 0x64u8,
            Opcode::GiveOsdName.code() == 0x46u8,
            Opcode::SetOsdName.code() == 0x47u8,
            Opcode::MenuRequest.code() == 0x8du8,
            Opcode::MenuStatus.code() == 0x8eu8,
            Opcode::UserControlPressed.code() == 0x44u8,
            Opcode::UserControlReleased.code() == 0x45u8,
            Opcode::GiveDevicePowerStatus.code() == 0x8fu8,
            Opcode::ReportPowerStatus.code() == 0x90u8,
            Opcode::FeatureAbort.code() == 0x00u8,
            Opcode::Abort.code() == 0xffu8,
            Opcode::GiveAudioStatus.code() == 0x71u8,
            Opcode::GiveSystemAudioModeStatus.code() == 0x7du8,
            Opcode::ReportAudioStatus.code() == 0x7au8,
            Opcode::ReportShortAudioDescriptor.code() == 0xa3u8,
            Opcode::RequestShortAudioDescriptor.code() == 0xa4u8,
            Opcode::SetSystemAudioMode.code() == 0x72u8,
            Opcode::SystemAudioModeRequest.code() == 0x70u8,
            Opcode::SystemAudioModeStatus.code() == 0x7eu8,
            Opcode::SetAudioRate.code() == 0x9au8,
            Opcode::InitiateArc.code() == 0xc0u8,
            Opcode::ReportArcInitiated.code() == 0xc1u8,
            Opcode::ReportArcTerminated.code() == 0xc2u8,
            Opcode::RequestArcInitiation.code() == 0xc3u8,
            Opcode::RequestArcTermination.code() == 0xc4u8,
            Opcode::TerminateArc.code() == 0xc5u8,
            Opcode::CdcMessage.code() == 0xf8u8,
            Opcode::ReportFeatures.code() == 0xa6u8,
            Opcode::GiveFeatures.code() == 0xa5u8,
            Opcode::RequestCurrentLatency.code() == 0xa7u8,
            Opcode::ReportCurrentLatency.code() == 0xa8u8,
    {
    }

    /// The value that the byte `b` encodes, if any.
    pub open spec fn from_code(b: u8) -> Option<Opcode> {
        match b {
            0x82u8 => Some(Opcode::ActiveSource),
            0x04u8 => Some(Opcode::ImageViewOn),
            0x0du8 => Some(Opcode::TextViewOn),
            0x9du8 => Some(Opcode::InactiveSource),
            0x85u8 => Some(Opcode::RequestActiveSource),
            0x80u8 => Some(Opcode::RoutingChange),
            0x81u8 => Some(Opcode::RoutingInformation),
            0x86u8 => Some(Opcode::SetStreamPath),
            0x36u8 => Some(Opcode::Standby),
            0x0bu8 => Some(Opcode::RecordOff),
            0x09u8 => Some(Opcode::RecordOn),
            0x0au8 => Some(Opcode::RecordStatus),
            0x0fu8 => Some(Opcode::RecordTvScreen),
            0x33u8 => Some(Opcode::ClearAnalogueTimer),
            0x99u8 => Some(Opcode::ClearDigitalTimer),
            0xa1u8 => Some(Opcode::ClearExtTimer),
            0x34u8 => Some(Opcode::SetAnalogueTimer),
            0x97u8 => Some(Opcode::SetDigitalTimer),
            0xa2u8 => Some(Opcode::SetExtTimer),
            0x67u8 => Some(Opcode::SetTimerProgramTitle),
            0x43u8 => Some(Opcode::TimerClearedStatus),
            0x35u8 => Some(Opcode::TimerStatus),
            0x9eu8 => Some(Opcode::CecVersion),
            0x9fu8 => Some(Opcode::GetCecVersion),
            0x83u8 => Some(Opcode::GivePhysicalAddr),
            0x91u8 => Some(Opcode::GetMenuLanguage),
            0x84u8 => Some(Opcode::ReportPhysicalAddr),
            0x32u8 => Some(Opcode::SetMenuLanguage),
            0x42u8 => Some(Opcode::DeckControl),
            0x1bu8 => Some(Opcode::DeckStatus),
            0x1au8 => Some(Opcode::GiveDeckStatus),
            0x41u8 => Some(Opcode::Play),
            0x08u8 => Some(Opcode::GiveTunerDeviceStatus),
            0x92u8 => Some(Opcode::SelectAnalogueService),
            0x93u8 => Some(Opcode::SelectDigitalService),
            0x07u8 => Some(Opcode::TunerDeviceStatus),
            0x06u8 => Some(Opcode::TunerStepDecrement),
            0x05u8 => Some(Opcode::TunerStepIncrement),
            0x87u8 => Some(Opcode::DeviceVendorId),
            0x8cu8 => Some(Opcode::GiveDeviceVendorId),
            0x89u8 => Some(Opcode::VendorCommand),
            0xa0u8 => Some(Opcode::VendorCommandWithId),
            0x8au8 => Some(Opcode::VendorRemoteButtonDown),
            0x8bu8 => Some(Opcode::VendorRemoteButtonUp),
            0x64u8 => Some(Opcode::SetOsdString),
            0x46u8 => Some(Opcode::GiveOsdName),
            0x47u8 => Some(Opcode::SetOsdName),
            0x8du8 => Some(Opcode::MenuRequest),
            0x8eu8 => Some(Opcode::MenuStatus),
            0x44u8 => Some(Opcode::UserControlPressed),
            0x45u8 => Some(Opcode::UserControlReleased),
            0x8fu8 => Some(Opcode::GiveDevicePowerStatus),
            0x90u8 => Some(Opcode::ReportPowerStatus),
            0x00u8 => Some(Opcode::FeatureAbort),
            0xffu8 => Some(Opcode::Abort),
            0x71u8 => Some(Opcode::GiveAudioStatus),
            0x7du8 => Some(Opcode::GiveSystemAudioModeStatus),
            0x7au8 => Some(Opcode::ReportAudioStatus),
            0xa3u8 => Some(Opcode::ReportShortAudioDescriptor),
            0xa4u8 => Some(Opcode::RequestShortAudioDescriptor),
            0x72u8 => Some(Opcode::SetSystemAudioMode),
            0x70u8 => Some(Opcode::SystemAudioModeRequest),
            0x7eu8 => Some(Opcode::SystemAudioModeStatus),
            0x9au8 => Some(Opcode::SetAudioRate),
            0xc0u8 => Some(Opcode::InitiateArc),
            0xc1u8 => Some(Opcode::ReportArcInitiated),
            0xc2u8 => Some(Opcode::ReportArcTerminated),
            0xc3u8 => Some(Opcode::RequestArcInitiation),
            0xc4u8 => Some(Opcode::RequestArcTermination),
            0xc5u8 => Some(Opcode::TerminateArc),
            0xf8u8 => Some(Opcode::CdcMessage),
            0xa6u8 => Some(Opcode::ReportFeatures),
            0xa5u8 => Some(Opcode::GiveFeatures),
            0xa7u8 => Some(Opcode::RequestCurrentLatency),
            0xa8u8 => Some(Opcode::ReportCurrentLatency),
            _ => None,
        }
    }

    /// The byte that encodes the value.
    pub fn to_u8(self) -> (r: u8)
        ensures
            r == self.code(),
    {
        match self {
            Opcode::ActiveSource => 0x82,
            Opcode::ImageViewOn => 0x04,
            Opcode::TextViewOn => 0x0d,
            Opcode::InactiveSource => 0x9d,
            Opcode::RequestActiveSource => 0x85,
            Opcode::RoutingChange => 0x80,
            Opcode::RoutingInformation => 0x81,
            Opcode::SetStreamPath => 0x86,
            Opcode::Standby => 0x36,
            Opcode::RecordOff => 0x0b,
            Opcode::RecordOn => 0x09,
            Opcode::RecordStatus => 0x0a,
            Opcode::RecordTvScreen => 0x0f,
            Opcode::ClearAnalogueTimer => 0x33,
            Opcode::ClearDigitalTimer => 0x99,
            Opcode::ClearExtTimer => 0xa1,
            Opcode::SetAnalogueTimer => 0x34,
            Opcode::SetDigitalTimer => 0x97,
            Opcode::SetExtTimer => 0xa2,
            Opcode::SetTimerProgramTitle => 0x67,
            Opcode::TimerClearedStatus => 0x43,
            Opcode::TimerStatus => 0x35,
            Opcode::CecVersion => 0x9e,
            Opcode::GetCecVersion => 0x9f,
            Opcode::GivePhysicalAddr => 0x83,
            Opcode::GetMenuLanguage => 0x91,
            Opcode::ReportPhysicalAddr => 0x84,
            Opcode::SetMenuLanguage => 0x32,
            Opcode::DeckControl => 0x42,
            Opcode::DeckStatus => 0x1b,
            Opcode::GiveDeckStatus => 0x1a,
            Opcode::Play => 0x41,
            Opcode::GiveTunerDeviceStatus => 0x08,
            Opcode::SelectAnalogueService => 0x92,
            Opcode::SelectDigitalService => 0x93,
            Opcode::TunerDeviceStatus => 0x07,
            Opcode::TunerStepDecrement => 0x06,
            Opcode::TunerStepIncrement => 0x05,
            Opcode::DeviceVendorId => 0x87,
            Opcode::GiveDeviceVendorId => 0x8c,
            Opcode::VendorCommand => 0x89,
            Opcode::VendorCommandWithId => 0xa0,
            Opcode::VendorRemoteButtonDown => 0x8a,
            Opcode::VendorRemoteButtonUp => 0x8b,
            Opcode::SetOsdString => 0x64,
            Opcode::GiveOsdName => 0x46,
            Opcode::SetOsdName => 0x47,
            Opcode::MenuRequest => 0x8d,
            Opcode::MenuStatus => 0x8e,
            Opcode::UserControlPressed => 0x44,
            Opcode::UserControlReleased => 0x45,
            Opcode::GiveDevicePowerStatus => 0x8f,
            Opcode::ReportPowerStatus => 0x90,
            Opcode::FeatureAbort => 0x00,
            Opcode::Abort => 0xff,
            Opcode::GiveAudioStatus => 0x71,
            Opcode::GiveSystemAudioModeStatus => 0x7d,
            Opcode::ReportAudioStatus => 0x7a,
            Opcode::ReportShortAudioDescriptor => 0xa3,
            Opcode::RequestShortAudioDescriptor => 0xa4,
            Opcode::SetSystemAudioMode => 0x72,
            Opcode::SystemAudioModeRequest => 0x70,
            Opcode::SystemAudioModeStatus => 0x7e,
            Opcode::SetAudioRate => 0x9a,
            Opcode::InitiateArc => 0xc0,
            Opcode::ReportArcInitiated => 0xc1,
            Opcode::ReportArcTerminated => 0xc2,
            Opcode::RequestArcInitiation => 0xc3,
            Opcode::RequestArcTermination => 0xc4,
            Opcode::TerminateArc => 0xc5,
            Opcode::CdcMessage => 0xf8,
            Opcode::ReportFeatures => 0xa6,
            Opcode::GiveFeatures => 0xa5,
            Opcode::RequestCurrentLatency => 0xa7,
            Opcode::ReportCurrentLatency => 0xa8,
        }
    }

    /// The value that the byte `b` encodes; a byte that encodes none is
    /// reported as an invalid value for this type.
    pub fn try_from_u8(b: u8) -> (r: Result<Opcode, Error>)
        ensures
            r matches Ok(v) ==> Self::from_code(b) == Some(v),
            r matches Err(e) ==> Self::from_code(b) is None && e@ == invalid_value("Opcode"@, b as nat),
            r is Ok <==> Self::from_code(b) is Some,
    {
        match b {
            0x82 => Ok(Opcode::ActiveSource),
            0x04 => Ok(Opcode::ImageViewOn),
            0x0d => Ok(Opcode::TextViewOn),
            0x9d => Ok(Opcode::InactiveSource),
            0x85 => Ok(Opcode::RequestActiveSource),
            0x80 => Ok(Opcode::RoutingChange),
            0x81 => Ok(Opcode::RoutingInformation),
            0x86 => Ok(Opcode::SetStreamPath),
            0x36 => Ok(Opcode::Standby),
            0x0b => Ok(Opcode::RecordOff),
            0x09 => Ok(Opcode::RecordOn),
            0x0a => Ok(Opcode::RecordStatus),
            0x0f => Ok(Opcode::RecordTvScreen),
            0x33 => Ok(Opcode::ClearAnalogueTimer),
            0x99 => Ok(Opcode::ClearDigitalTimer),
            0xa1 => Ok(Opcode::ClearExtTimer),
            0x34 => Ok(Opcode::SetAnalogueTimer),
            0x97 => Ok(Opcode::SetDigitalTimer),
            0xa2 => Ok(Opcode::SetExtTimer),
            0x67 => Ok(Opcode::SetTimerProgramTitle),
            0x43 => Ok(Opcode::TimerClearedStatus),
            0x35 => Ok(Opcode::TimerStatus),
            0x9e => Ok(Opcode::CecVersion),
            0x9f => Ok(Opcode::GetCecVersion),
            0x83 => Ok(Opcode::GivePhysicalAddr),
            0x91 => Ok(Opcode::GetMenuLanguage),
            0x84 => Ok(Opcode::ReportPhysicalAddr),
            0x32 => Ok(Opcode::SetMenuLanguage),
            0x42 => Ok(Opcode::DeckControl),
            0x1b => Ok(Opcode::DeckStatus),
            0x1a => Ok(Opcode::GiveDeckStatus),
            0x41 => Ok(Opcode::Play),
            0x08 => Ok(Opcode::GiveTunerDeviceStatus),
            0x92 => Ok(Opcode::SelectAnalogueService),
            0x93 => Ok(Opcode::SelectDigitalService),
            0x07 => Ok(Opcode::TunerDeviceStatus),
            0x06 => Ok(Opcode::TunerStepDecrement),
            0x05 => Ok(Opcode::TunerStepIncrement),
            0x87 => Ok(Opcode::DeviceVendorId),
            0x8c => Ok(Opcode::GiveDeviceVendorId),
            0x89 => Ok(Opcode::VendorCommand),
            0xa0 => Ok(Opcode::VendorCommandWithId),
            0x8a => Ok(Opcode::VendorRemoteButtonDown),
            0x8b => Ok(Opcode::VendorRemoteButtonUp),
            0x64 => Ok(Opcode::SetOsdString),
            0x46 => Ok(Opcode::GiveOsdName),
            0x47 => Ok(Opcode::SetOsdName),
            0x8d => Ok(Opcode::MenuRequest),
            0x8e => Ok(Opcode::MenuStatus),
            0x44 => Ok(Opcode::UserControlPressed),
            0x45 => Ok(Opcode::UserControlReleased),
            0x8f => Ok(Opcode::GiveDevicePowerStatus),
            0x90 => Ok(Opcode::ReportPowerStatus),
            0x00 => Ok(Opcode::FeatureAbort),
            0xff => Ok(Opcode::Abort),
            0x71 => Ok(Opcode::GiveAudioStatus),
            0x7d => Ok(Opcode::GiveSystemAudioModeStatus),
            0x7a => Ok(Opcode::ReportAudioStatus),
            0xa3 => Ok(Opcode::ReportShortAudioDescriptor),
            0xa4 => Ok(Opcode::RequestShortAudioDescriptor),
            0x72 => Ok(Opcode::SetSystemAudioMode),
            0x70 => Ok(Opcode::SystemAudioModeRequest),
            0x7e => Ok(Opcode::SystemAudioModeStatus),
            0x9a => Ok(Opcode::SetAudioRate),
            0xc0 => Ok(Opcode::InitiateArc),
            0xc1 => Ok(Opcode::ReportArcInitiated),
            0xc2 => Ok(Opcode::ReportArcTerminated),
            0xc3 => Ok(Opcode::RequestArcInitiation),
            0xc4 => Ok(Opcode::RequestArcTermination),
            0xc5 => Ok(Opcode::TerminateArc),
            0xf8 => Ok(Opcode::CdcMessage),
            0xa6 => Ok(Opcode::ReportFeatures),
            0xa5 => Ok(Opcode::GiveFeatures),
            0xa7 => Ok(Opcode::RequestCurrentLatency),
            0xa8 => Ok(Opcode::ReportCurrentLatency),
            _ => Err(Error::invalid_value("Opcode", b)),
        }
    }

    /// Decoding the code of a value gives the value back, and a byte
    /// decodes only to a value of which it is the code.
    pub proof fn lemma_code(self, b: u8)
        ensures
            Self::from_code(self.code()) == Some(self),
            Self::from_code(b) matches Some(v) ==> v.code() == b,
    {
    }
}

impl From<Opcode> for u8 {
    fn from(v: Opcode) -> (r: u8) {
        v.to_u8()
    }
}

impl vstd::std_specs::convert::FromSpecImpl<Opcode> for u8 {
    open spec fn obeys_from_spec() -> bool {
        true
    }

    open spec fn from_spec(v: Opcode) -> u8 {
        v.code()
    }
}

impl OperandEncodable for Opcode {
    open spec fn spec_bytes(&self) -> Seq<u8> {
        seq![self.code()]
    }

    open spec fn spec_parse(bytes: Seq<u8>) -> Result<Self, ErrorView> {
        parse_code(bytes, |b: u8| Self::from_code(b), "Opcode"@)
    }

    open spec fn spec_wf(&self) -> bool {
        true
    }

    open spec fn spec_expected_len() -> RangeView {
        RangeView::AtLeast(1)
    }

    open spec fn spec_self_delimiting() -> bool {
        true
    }

    fn to_bytes(&self, buf: &mut Vec<u8>) {
        buf.push(self.to_u8());
    }

    fn try_from_bytes(bytes: &[u8]) -> (r: Result<Self, Error>) {
        if bytes.len() < 1 {
            return Err(Error::short_input(1, bytes.len()));
        }
        Self::try_from_u8(bytes[0])
    }

    fn len(&self) -> (r: usize) {
        1
    }

    fn expected_len() -> (r: Range) {
        Range::AtLeast(1)
    }

    proof fn lemma_roundtrip(&self, rest: Seq<u8>) {
        self.lemma_code(0);
        assert((self.spec_bytes() + rest)[0] == self.code());
    }

    proof fn lemma_parse_len(bytes: Seq<u8>) {
    }
}

/// A CEC message: an opcode and the operands that it takes.
#[derive(Clone, Copy, Debug, PartialEq, Eq, Hash)]
pub enum Message {
    ActiveSource { address: PhysicalAddress },
    ImageViewOn,
    TextViewOn,
    InactiveSource { address: PhysicalAddress },
    RequestActiveSource,
    RoutingChange { original_address: PhysicalAddress, new_address: PhysicalAddress },
    RoutingInformation { address: PhysicalAddress },
    SetStreamPath { address: PhysicalAddress },
    Standby,
    RecordOff,
    RecordOn { source: RecordSource },
    RecordStatus { status: RecordStatusInfo },
    RecordTvScreen,
    ClearAnalogueTimer { day_of_month: DayOfMonth, month_of_year: MonthOfYear, start_time: Time, duration: Duration, recording_sequence: RecordingSequence, service_id: AnalogueServiceId },
    ClearDigitalTimer { day_of_month: DayOfMonth, month_of_year: MonthOfYear, start_time: Time, duration: Duration, recording_sequence: RecordingSequence, service_id: DigitalServiceId },
    ClearExtTimer { day_of_month: DayOfMonth, month_of_year: MonthOfYear, start_time: Time, duration: Duration, recording_sequence: RecordingSequence, external_source: ExternalSource },
    SetAnalogueTimer { day_of_month: DayOfMonth, month_of_year: MonthOfYear, start_time: Time, duration: Duration, recording_sequence: RecordingSequence, service_id: AnalogueServiceId },
    SetDigitalTimer { day_of_month: DayOfMonth, month_of_year: MonthOfYear, start_time: Time, duration: Duration, recording_sequence: RecordingSequence, service_id: DigitalServiceId },
    SetExtTimer { day_of_month: DayOfMonth, month_of_year: MonthOfYear, start_time: Time, duration: Duration, recording_sequence: RecordingSequence, external_source: ExternalSource },
    SetTimerProgramTitle { title: BufferOperand },
    TimerClearedStatus { status: TimerClearedStatusData },
    TimerStatus { status: TimerStatusData },
    CecVersion { version: Version },
    GetCecVersion,
    GivePhysicalAddr,
    GetMenuLanguage,
    ReportPhysicalAddr { physical_address: PhysicalAddress, device_type: PrimaryDeviceType },
    SetMenuLanguage { language: [u8; 3] },
    DeckControl { mode: DeckControlMode },
    DeckStatus { info: DeckInfo },
    GiveDeckStatus { request: StatusRequest },
    Play { mode: PlayMode },
    GiveTunerDeviceStatus { request: StatusRequest },
    SelectAnalogueService { service_id: AnalogueServiceId },
    SelectDigitalService { service_id: DigitalServiceId },
    TunerDeviceStatus { info: TunerDeviceInfo },
    TunerStepDecrement,
    TunerStepIncrement,
    DeviceVendorId { vendor_id: VendorId },
    GiveDeviceVendorId,
    VendorCommand { command: BufferOperand },
    VendorCommandWithId { vendor_id: VendorId, vendor_specific_data: BoundedBufferOperand<11, u8> },
    VendorRemoteButtonDown { rc_code: BufferOperand },
    VendorRemoteButtonUp,
    SetOsdString { display_control: DisplayControl, osd_string: BoundedBufferOperand<13, u8> },
    GiveOsdName,
    SetOsdName { name: BufferOperand },
    MenuRequest { request_type: MenuRequestType },
    MenuStatus { state: MenuState },
    UserControlPressed { ui_command: UiCommand },
    UserControlReleased,
    GiveDevicePowerStatus,
    ReportPowerStatus { status: PowerStatus },
    FeatureAbort { opcode: Opcode, abort_reason: AbortReason },
    Abort,
    GiveAudioStatus,
    GiveSystemAudioModeStatus,
    ReportAudioStatus { status: AudioStatus },
    ReportShortAudioDescriptor { descriptors: BoundedBufferOperand<4, [u8; 3]> },
    RequestShortAudioDescriptor { descriptors: BoundedBufferOperand<4, AudioFormatIdAndCode> },
    SetSystemAudioMode { status: bool },
    SystemAudioModeRequest { physical_address: PhysicalAddress },
    SystemAudioModeStatus { system_audio_status: bool },
    SetAudioRate { audio_rate: AudioRate },
    InitiateArc,
    ReportArcInitiated,
    ReportArcTerminated,
    RequestArcInitiation,
    RequestArcTermination,
    TerminateArc,
    CdcMessage { initiator: PhysicalAddress, message: CdcMessage },
    ReportFeatures { version: Version, device_types: AllDeviceTypes, rc_profile: RcProfile, dev_features: DeviceFeatures },
    GiveFeatures,
    RequestCurrentLatency { physical_address: PhysicalAddress },
    ReportCurrentLatency { physical_address: PhysicalAddress, video_latency: Delay, flags: LatencyFlags, audio_output_delay: Option<Delay> },
}

impl Message {
    /// The opcode of the message.
    pub open spec fn spec_opcode(self) -> Opcode {
        match self {
            Message::ActiveSource { .. } => Opcode::ActiveSource,
            Message::ImageViewOn => Opcode::ImageViewOn,
            Message::TextViewOn => Opcode::TextViewOn,
            Message::InactiveSource { .. } => Opcode::InactiveSource,
            Message::RequestActiveSource => Opcode::RequestActiveSource,
            Message::RoutingChange { .. } => Opcode::RoutingChange,
            Message::RoutingInformation { .. } => Opcode::RoutingInformation,
            Message::SetStreamPath { .. } => Opcode::SetStreamPath,
            Message::Standby => Opcode::Standby,
            Message::RecordOff => Opcode::RecordOff,
            Message::RecordOn { .. } => Opcode::RecordOn,
            Message::RecordStatus { .. } => Opcode::RecordStatus,
            Message::RecordTvScreen => Opcode::RecordTvScreen,
            Message::ClearAnalogueTimer { .. } => Opcode::ClearAnalogueTimer,
            Message::ClearDigitalTimer { .. } => Opcode::ClearDigitalTimer,
            Message::ClearExtTimer { .. } => Opcode::ClearExtTimer,
            Message::SetAnalogueTimer { .. } => Opcode::SetAnalogueTimer,
            Message::SetDigitalTimer { .. } => Opcode::SetDigitalTimer,
            Message::SetExtTimer { .. } => Opcode::SetExtTimer,
            Message::SetTimerProgramTitle { .. } => Opcode::SetTimerProgramTitle,
            Message::TimerClearedStatus { .. } => Opcode::TimerClearedStatus,
            Message::TimerStatus { .. } => Opcode::TimerStatus,
            Message::CecVersion { .. } => Opcode::CecVersion,
            Message::GetCecVersion => Opcode::GetCecVersion,
            Message::GivePhysicalAddr => Opcode::GivePhysicalAddr,
            Message::GetMenuLanguage => Opcode::GetMenuLanguage,
            Message::ReportPhysicalAddr { .. } => Opcode::ReportPhysicalAddr,
            Message::SetMenuLanguage { .. } => Opcode::SetMenuLanguage,
            Message::DeckControl { .. } => Opcode::DeckControl,
            Message::DeckStatus { .. } => Opcode::DeckStatus,
            Message::GiveDeckStatus { .. } => Opcode::GiveDeckStatus,
            Message::Play { .. } => Opcode::Play,
            Message::GiveTunerDeviceStatus { .. } => Opcode::GiveTunerDeviceStatus,
            Message::SelectAnalogueService { .. } => Opcode::SelectAnalogueService,
            Message::SelectDigitalService { .. } => Opcode::SelectDigitalService,
            Message::TunerDeviceStatus { .. } => Opcode::TunerDeviceStatus,
            Message::TunerStepDecrement => Opcode::TunerStepDecrement,
            Message::TunerStepIncrement => Opcode::TunerStepIncrement,
            Message::DeviceVendorId { .. } => Opcode::DeviceVendorId,
            Message::GiveDeviceVendorId => Opcode::GiveDeviceVendorId,
            Message::VendorCommand { .. } => Opcode::VendorCommand,
            Message::VendorCommandWithId { .. } => Opcode::VendorCommandWithId,
            Message::VendorRemoteButtonDown { .. } => Opcode::VendorRemoteButtonDown,
            Message::VendorRemoteButtonUp => Opcode::VendorRemoteButtonUp,
            Message::SetOsdString { .. } => Opcode::SetOsdString,
            Message::GiveOsdName => Opcode::GiveOsdName,
            Message::SetOsdName { .. } => Opcode::SetOsdName,
            Message::MenuRequest { .. } => Opcode::MenuRequest,
            Message::MenuStatus { .. } => Opcode::MenuStatus,
            Message::UserControlPressed { .. } => Opcode::UserControlPressed,
            Message::UserControlReleased => Opcode::UserControlReleased,
            Message::GiveDevicePowerStatus => Opcode::GiveDevicePowerStatus,
            Message::ReportPowerStatus { .. } => Opcode::ReportPowerStatus,
            Message::FeatureAbort { .. } => Opcode::FeatureAbort,
            Message::Abort => Opcode::Abort,
            Message::GiveAudioStatus => Opcode::GiveAudioStatus,
            Message::GiveSystemAudioModeStatus => Opcode::GiveSystemAudioModeStatus,
            Message::ReportAudioStatus { .. } => Opcode::ReportAudioStatus,
            Message::ReportShortAudioDescriptor { .. } => Opcode::ReportShortAudioDescriptor,
            Message::RequestShortAudioDescriptor { .. } => Opcode::RequestShortAudioDescriptor,
            Message::SetSystemAudioMode { .. } => Opcode::SetSystemAudioMode,
            Message::SystemAudioModeRequest { .. } => Opcode::SystemAudioModeRequest,
            Message::SystemAudioModeStatus { .. } => Opcode::SystemAudioModeStatus,
            Message::SetAudioRate { .. } => Opcode::SetAudioRate,
            Message::InitiateArc => Opcode::InitiateArc,
            Message::ReportArcInitiated => Opcode::ReportArcInitiated,
            Message::ReportArcTerminated => Opcode::ReportArcTerminated,
            Message::RequestArcInitiation => Opcode::RequestArcInitiation,
            Message::RequestArcTermination => Opcode::RequestArcTermination,
            Message::TerminateArc => Opcode::TerminateArc,
            Message::CdcMessage { .. } => Opcode::CdcMessage,
            Message::ReportFeatures { .. } => Opcode::ReportFeatures,
            Message::GiveFeatures => Opcode::GiveFeatures,
            Message::RequestCurrentLatency { .. } => Opcode::RequestCurrentLatency,
            Message::ReportCurrentLatency { .. } => Opcode::ReportCurrentLatency,
        }
    }

    /// The encoding of the operands of the message, one after the other.
    pub open spec fn spec_operand_bytes(self) -> Seq<u8> {
        match self {
            Message::ActiveSource { address } => address.spec_bytes(),
            Message::ImageViewOn => Seq::empty(),
            Message::TextViewOn => Seq::empty(),
            Message::InactiveSource { address } => address.spec_bytes(),
            Message::RequestActiveSource => Seq::empty(),
            Message::RoutingChange { original_address, new_address } => original_address.spec_bytes() + new_address.spec_bytes(),
            Message::RoutingInformation { address } => address.spec_bytes(),
            Message::SetStreamPath { address } => address.spec_bytes(),
            Message::Standby => Seq::empty(),
            Message::RecordOff => Seq::empty(),
            Message::RecordOn { source } => source.spec_bytes(),
            Message::RecordStatus { status } => status.spec_bytes(),
            Message::RecordTvScreen => Seq::empty(),
            Message::ClearAnalogueTimer { day_of_month, month_of_year, start_time, duration, recording_sequence, service_id } => day_of_month.spec_bytes() + month_of_year.spec_bytes() + start_time.spec_bytes() + duration.spec_bytes() + recording_sequence.spec_bytes() + service_id.spec_bytes(),
            Message::ClearDigitalTimer { day_of_month, month_of_year, start_time, duration, recording_sequence, service_id } => day_of_month.spec_bytes() + month_of_year.spec_bytes() + start_time.spec_bytes() + duration.spec_bytes() + recording_sequence.spec_bytes() + service_id.spec_bytes(),
            Message::ClearExtTimer { day_of_month, month_of_year, start_time, duration, recording_sequence, external_source } => day_of_month.spec_bytes() + month_of_year.spec_bytes() + start_time.spec_bytes() + duration.spec_bytes() + recording_sequence.spec_bytes() + external_source.spec_bytes(),
            Message::SetAnalogueTimer { day_of_month, month_of_year, start_time, duration, recording_sequence, service_id } => day_of_month.spec_bytes() + month_of_year.spec_bytes() + start_time.spec_bytes() + duration.spec_bytes() + recording_sequence.spec_bytes() + service_id.spec_bytes(),
            Message::SetDigitalTimer { day_of_month, month_of_year, start_time, duration, recording_sequence, service_id } => day_of_month.spec_bytes() + month_of_year.spec_bytes() + start_time.spec_bytes() + duration.spec_bytes() + recording_sequence.spec_bytes() + service_id.spec_bytes(),
            Message::SetExtTimer { day_of_month, month_of_year, start_time, duration, recording_sequence, external_source } => day_of_month.spec_bytes() + month_of_year.spec_bytes() + start_time.spec_bytes() + duration.spec_bytes() + recording_sequence.spec_bytes() + external_source.spec_bytes(),
            Message::SetTimerProgramTitle { title } => title.spec_bytes(),
            Message::TimerClearedStatus { status } => status.spec_bytes(),
            Message::TimerStatus { status } => status.spec_bytes(),
            Message::CecVersion { version } => version.spec_bytes(),
            Message::GetCecVersion => Seq::empty(),
            Message::GivePhysicalAddr => Seq::empty(),
            Message::GetMenuLanguage => Seq::empty(),
            Message::ReportPhysicalAddr { physical_address, device_type } => physical_address.spec_bytes() + device_type.spec_bytes(),
            Message::SetMenuLanguage { language } => language.spec_bytes(),
            Message::DeckControl { mode } => mode.spec_bytes(),
            Message::DeckStatus { info } => info.spec_bytes(),
            Message::GiveDeckStatus { request } => request.spec_bytes(),
            Message::Play { mode } => mode.spec_bytes(),
            Message::GiveTunerDeviceStatus { request } => request.spec_bytes(),
            Message::SelectAnalogueService { service_id } => service_id.spec_bytes(),
            Message::SelectDigitalService { service_id } => service_id.spec_bytes(),
            Message::TunerDeviceStatus { info } => info.spec_bytes(),
            Message::TunerStepDecrement => Seq::empty(),
            Message::TunerStepIncrement => Seq::empty(),
            Message::DeviceVendorId { vendor_id } => vendor_id.spec_bytes(),
            Message::GiveDeviceVendorId => Seq::empty(),
            Message::VendorCommand { command } => command.spec_bytes(),
            Message::VendorCommandWithId { vendor_id, vendor_specific_data } => vendor_id.spec_bytes() + vendor_specific_data.spec_bytes(),
            Message::VendorRemoteButtonDown { rc_code } => rc_code.spec_bytes(),
            Message::VendorRemoteButtonUp => Seq::empty(),
            Message::SetOsdString { display_control, osd_string } => display_control.spec_bytes() + osd_string.spec_bytes(),
            Message::GiveOsdName => Seq::empty(),
            Message::SetOsdName { name } => name.spec_bytes(),
            Message::MenuRequest { request_type } => request_type.spec_bytes(),
            Message::MenuStatus { state } => state.spec_bytes(),
            Message::UserControlPressed { ui_command } => ui_command.spec_bytes(),
            Message::UserControlReleased => Seq::empty(),
            Message::GiveDevicePowerStatus => Seq::empty(),
            Message::ReportPowerStatus { status } => status.spec_bytes(),
            Message::FeatureAbort { opcode, abort_reason } => opcode.spec_bytes() + abort_reason.spec_bytes(),
            Message::Abort => Seq::empty(),
            Message::GiveAudioStatus => Seq::empty(),
            Message::GiveSystemAudioModeStatus => Seq::empty(),
            Message::ReportAudioStatus { status } => status.spec_bytes(),
            Message::ReportShortAudioDescriptor { descriptors } => descriptors.spec_bytes(),
            Message::RequestShortAudioDescriptor { descriptors } => descriptors.spec_bytes(),
            Message::SetSystemAudioMode { status } => status.spec_bytes(),
            Message::SystemAudioModeRequest { physical_address } => physical_address.spec_bytes(),
            Message::SystemAudioModeStatus { system_audio_status } => system_audio_status.spec_bytes(),
            Message::SetAudioRate { audio_rate } => audio_rate.spec_bytes(),
            Message::InitiateArc => Seq::empty(),
            Message::ReportArcInitiated => Seq::empty(),
            Message::ReportArcTerminated => Seq::empty(),
            Message::RequestArcInitiation => Seq::empty(),
            Message::RequestArcTermination => Seq::empty(),
            Message::TerminateArc => Seq::empty(),
            Message::CdcMessage { initiator, message } => initiator.spec_bytes() + message.spec_bytes(),
            Message::ReportFeatures { version, device_types, rc_profile, dev_features } => version.spec_bytes() + device_types.spec_bytes() + rc_profile.spec_bytes() + dev_features.spec_bytes(),
            Message::GiveFeatures => Seq::empty(),
            Message::RequestCurrentLatency { physical_address } => physical_address.spec_bytes(),
            Message::ReportCurrentLatency { physical_address, video_latency, flags, audio_output_delay } => physical_address.spec_bytes() + video_latency.spec_bytes() + flags.spec_bytes() + audio_output_delay.spec_bytes(),
        }
    }

    /// The encoding of the message: its opcode, then its operands.
    pub open spec fn spec_bytes(self) -> Seq<u8> {
        seq![self.spec_opcode().code()] + self.spec_operand_bytes()
    }

    /// Whether every operand of the message is well formed.
    #[verifier::opaque]
    pub open spec fn spec_wf(self) -> bool {
        match self {
            Message::ActiveSource { address } => address.spec_wf(),
            Message::InactiveSource { address } => address.spec_wf(),
            Message::RoutingChange { original_address, new_address } => original_address.spec_wf() && new_address.spec_wf(),
            Message::RoutingInformation { address } => address.spec_wf(),
            Message::SetStreamPath { address } => address.spec_wf(),
            Message::RecordOn { source } => source.spec_wf(),
            Message::RecordStatus { status } => status.spec_wf(),
            Message::ClearAnalogueTimer { day_of_month, month_of_year, start_time, duration, recording_sequence, service_id } => day_of_month.spec_wf() && month_of_year.spec_wf() && start_time.spec_wf() && duration.spec_wf() && recording_sequence.spec_wf() && service_id.spec_wf(),
            Message::ClearDigitalTimer { day_of_month, month_of_year, start_time, duration, recording_sequence, service_id } => day_of_month.spec_wf() && month_of_year.spec_wf() && start_time.spec_wf() && duration.spec_wf() && recording_sequence.spec_wf() && service_id.spec_wf(),
            Message::ClearExtTimer { day_of_month, month_of_year, start_time, duration, recording_sequence, external_source } => day_of_month.spec_wf() && month_of_year.spec_wf() && start_time.spec_wf() && duration.spec_wf() && recording_sequence.spec_wf() && external_source.spec_wf(),
            Message::SetAnalogueTimer { day_of_month, month_of_year, start_time, duration, recording_sequence, service_id } => day_of_month.spec_wf() && month_of_year.spec_wf() && start_time.spec_wf() && duration.spec_wf() && recording_sequence.spec_wf() && service_id.spec_wf(),
            Message::SetDigitalTimer { day_of_month, month_of_year, start_time, duration, recording_sequence, service_id } => day_of_month.spec_wf() && month_of_year.spec_wf() && start_time.spec_wf() && duration.spec_wf() && recording_sequence.spec_wf() && service_id.spec_wf(),
            Message::SetExtTimer { day_of_month, month_of_year, start_time, duration, recording_sequence, external_source } => day_of_month.spec_wf() && month_of_year.spec_wf() && start_time.spec_wf() && duration.spec_wf() && recording_sequence.spec_wf() && external_source.spec_wf(),
            Message::SetTimerProgramTitle { title } => title.spec_wf(),
            Message::TimerClearedStatus { status } => status.spec_wf(),
            Message::TimerStatus { status } => status.spec_wf(),
            Message::CecVersion { version } => version.spec_wf(),
            Message::ReportPhysicalAddr { physical_address, device_type } => physical_address.spec_wf() && device_type.spec_wf(),
            Message::SetMenuLanguage { language } => language.spec_wf(),
            Message::DeckControl { mode } => mode.spec_wf(),
            Message::DeckStatus { info } => info.spec_wf(),
            Message::GiveDeckStatus { request } => request.spec_wf(),
            Message::Play { mode } => mode.spec_wf(),
            Message::GiveTunerDeviceStatus { request } => request.spec_wf(),
            Message::SelectAnalogueService { service_id } => service_id.spec_wf(),
            Message::SelectDigitalService { service_id } => service_id.spec_wf(),
            Message::TunerDeviceStatus { info } => info.spec_wf(),
            Message::DeviceVendorId { vendor_id } => vendor_id.spec_wf(),
            Message::VendorCommand { command } => command.spec_wf(),
            Message::VendorCommandWithId { vendor_id, vendor_specific_data } => vendor_id.spec_wf() && vendor_specific_data.spec_wf(),
            Message::VendorRemoteButtonDown { rc_code } => rc_code.spec_wf(),
            Message::SetOsdString { display_control, osd_string } => display_control.spec_wf() && osd_string.spec_wf(),
            Message::SetOsdName { name } => name.spec_wf(),
            Message::MenuRequest { request_type } => request_type.spec_wf(),
            Message::MenuStatus { state } => state.spec_wf(),
            Message::UserControlPressed { ui_command } => ui_command.spec_wf(),
            Message::ReportPowerStatus { status } => status.spec_wf(),
            Message::FeatureAbort { opcode, abort_reason } => opcode.spec_wf() && abort_reason.spec_wf(),
            Message::ReportAudioStatus { status } => status.spec_wf(),
            Message::ReportShortAudioDescriptor { descriptors } => descriptors.spec_wf(),
            Message::RequestShortAudioDescriptor { descriptors } => descriptors.spec_wf(),
            Message::SetSystemAudioMode { status } => status.spec_wf(),
            Message::SystemAudioModeRequest { physical_address } => physical_address.spec_wf(),
            Message::SystemAudioModeStatus { system_audio_status } => system_audio_status.spec_wf(),
            Message::SetAudioRate { audio_rate } => audio_rate.spec_wf(),
            Message::CdcMessage { initiator, message } => initiator.spec_wf() && message.spec_wf(),
            Message::ReportFeatures { version, device_types, rc_profile, dev_features } => version.spec_wf() && device_types.spec_wf() && rc_profile.spec_wf() && dev_features.spec_wf(),
            Message::RequestCurrentLatency { physical_address } => physical_address.spec_wf(),
            Message::ReportCurrentLatency { physical_address, video_latency, flags, audio_output_delay } => physical_address.spec_wf() && video_latency.spec_wf() && flags.spec_wf() && audio_output_delay.spec_wf(),
            _ => true,
        }
    }

    /// Whether decoding the message ignores the bytes that follow it: its
    /// last operand, if any, ignores them.
    #[verifier::opaque]
    pub open spec fn spec_self_delimiting(self) -> bool {
        match self {
            Message::ClearExtTimer { .. } => false,
            Message::SetExtTimer { .. } => false,
            Message::SetTimerProgramTitle { .. } => false,
            Message::TimerStatus { .. } => false,
            Message::TunerDeviceStatus { .. } => false,
            Message::VendorCommand { .. } => false,
            Message::VendorCommandWithId { .. } => false,
            Message::VendorRemoteButtonDown { .. } => false,
            Message::SetOsdString { .. } => false,
            Message::SetOsdName { .. } => false,
            Message::ReportShortAudioDescriptor { .. } => false,
            Message::RequestShortAudioDescriptor { .. } => false,
            Message::CdcMessage { .. } => false,
            Message::ReportCurrentLatency { .. } => false,
            _ => true,
        }
    }

    /// Decodes a message from `bytes`: its opcode, then its operands.
    #[verifier::opaque]
    pub open spec fn spec_parse(bytes: Seq<u8>) -> Result<Message, ErrorView> {
        if bytes.len() < 1 {
            Err(short_input(1, 0))
        } else {
            match Opcode::from_code(bytes[0]) {
                None => Err(invalid_value("Opcode"@, bytes[0] as nat)),
                Some(op) => match op {
                    Opcode::ActiveSource => parse_active_source(bytes),
                    Opcode::ImageViewOn => Ok(Message::ImageViewOn),
                    Opcode::TextViewOn => Ok(Message::TextViewOn),
                    Opcode::InactiveSource => parse_inactive_source(bytes),
                    Opcode::RequestActiveSource => Ok(Message::RequestActiveSource),
                    Opcode::RoutingChange => parse_routing_change(bytes),
                    Opcode::RoutingInformation => parse_routing_information(bytes),
                    Opcode::SetStreamPath => parse_set_stream_path(bytes),
                    Opcode::Standby => Ok(Message::Standby),
                    Opcode::RecordOff => Ok(Message::RecordOff),
                    Opcode::RecordOn => parse_record_on(bytes),
                    Opcode::RecordStatus => parse_record_status(bytes),
                    Opcode::RecordTvScreen => Ok(Message::RecordTvScreen),
                    Opcode::ClearAnalogueTimer => parse_clear_analogue_timer(bytes),
                    Opcode::ClearDigitalTimer => parse_clear_digital_timer(bytes),
                    Opcode::ClearExtTimer => parse_clear_ext_timer(bytes),
                    Opcode::SetAnalogueTimer => parse_set_analogue_timer(bytes),
                    Opcode::SetDigitalTimer => parse_set_digital_timer(bytes),
                    Opcode::SetExtTimer => parse_set_ext_timer(bytes),
                    Opcode::SetTimerProgramTitle => parse_set_timer_program_title(bytes),
                    Opcode::TimerClearedStatus => parse_timer_cleared_status(bytes),
                    Opcode::TimerStatus => parse_timer_status(bytes),
                    Opcode::CecVersion => parse_cec_version(bytes),
                    Opcode::GetCecVersion => Ok(Message::GetCecVersion),
                    Opcode::GivePhysicalAddr => Ok(Message::GivePhysicalAddr),
                    Opcode::GetMenuLanguage => Ok(Message::GetMenuLanguage),
                    Opcode::ReportPhysicalAddr => parse_report_physical_addr(bytes),
                    Opcode::SetMenuLanguage => parse_set_menu_language(bytes),
                    Opcode::DeckControl => parse_deck_control(bytes),
                    Opcode::DeckStatus => parse_deck_status(bytes),
                    Opcode::GiveDeckStatus => parse_give_deck_status(bytes),
                    Opcode::Play => parse_play(bytes),
                    Opcode::GiveTunerDeviceStatus => parse_give_tuner_device_status(bytes),
                    Opcode::SelectAnalogueService => parse_select_analogue_service(bytes),
                    Opcode::SelectDigitalService => parse_select_digital_service(bytes),
                    Opcode::TunerDeviceStatus => parse_tuner_device_status(bytes),
                    Opcode::TunerStepDecrement => Ok(Message::TunerStepDecrement),
                    Opcode::TunerStepIncrement => Ok(Message::TunerStepIncrement),
                    Opcode::DeviceVendorId => parse_device_vendor_id(bytes),
                    Opcode::GiveDeviceVendorId => Ok(Message::GiveDeviceVendorId),
                    Opcode::VendorCommand => parse_vendor_command(bytes),
                    Opcode::VendorCommandWithId => parse_vendor_command_with_id(bytes),
                    Opcode::VendorRemoteButtonDown => parse_vendor_remote_button_down(bytes),
                    Opcode::VendorRemoteButtonUp => Ok(Message::VendorRemoteButtonUp),
                    Opcode::SetOsdString => parse_set_osd_string(bytes),
                    Opcode::GiveOsdName => Ok(Message::GiveOsdName),
                    Opcode::SetOsdName => parse_set_osd_name(bytes),
                    Opcode::MenuRequest => parse_menu_request(bytes),
                    Opcode::MenuStatus => parse_menu_status(bytes),
                    Opcode::UserControlPressed => parse_user_control_pressed(bytes),
                    Opcode::UserControlReleased => Ok(Message::UserControlReleased),
                    Opcode::GiveDevicePowerStatus => Ok(Message::GiveDevicePowerStatus),
                    Opcode::ReportPowerStatus => parse_report_power_status(bytes),
                    Opcode::FeatureAbort => parse_feature_abort(bytes),
                    Opcode::Abort => Ok(Message::Abort),
                    Opcode::GiveAudioStatus => Ok(Message::GiveAudioStatus),
                    Opcode::GiveSystemAudioModeStatus => Ok(Message::GiveSystemAudioModeStatus),
                    Opcode::ReportAudioStatus => parse_report_audio_status(bytes),
                    Opcode::ReportShortAudioDescriptor => parse_report_short_audio_descriptor(bytes),
                    Opcode::RequestShortAudioDescriptor => parse_request_short_audio_descriptor(bytes),
                    Opcode::SetSystemAudioMode => parse_set_system_audio_mode(bytes),
                    Opcode::SystemAudioModeRequest => parse_system_audio_mode_request(bytes),
                    Opcode::SystemAudioModeStatus => parse_system_audio_mode_status(bytes),
                    Opcode::SetAudioRate => parse_set_audio_rate(bytes),
                    Opcode::InitiateArc => Ok(Message::InitiateArc),
                    Opcode::ReportArcInitiated => Ok(Message::ReportArcInitiated),
                    Opcode::ReportArcTerminated => Ok(Message::ReportArcTerminated),
                    Opcode::RequestArcInitiation => Ok(Message::RequestArcInitiation),
                    Opcode::RequestArcTermination => Ok(Message::RequestArcTermination),
                    Opcode::TerminateArc => Ok(Message::TerminateArc),
                    Opcode::CdcMessage => parse_cdc_message(bytes),
                    Opcode::ReportFeatures => parse_report_features(bytes),
                    Opcode::GiveFeatures => Ok(Message::GiveFeatures),
                    Opcode::RequestCurrentLatency => parse_request_current_latency(bytes),
                    Opcode::ReportCurrentLatency => parse_report_current_latency(bytes),
                },
            }
        }
    }

    /// The opcode of the message.
    pub fn opcode(&self) -> (r: Opcode)
        ensures
            r == self.spec_opcode(),
    {
        match self {
            Message::ActiveSource { .. } => Opcode::ActiveSource,
            Message::ImageViewOn => Opcode::ImageViewOn,
            Message::TextViewOn => Opcode::TextViewOn,
            Message::InactiveSource { .. } => Opcode::InactiveSource,
            Message::RequestActiveSource => Opcode::RequestActiveSource,
            Message::RoutingChange { .. } => Opcode::RoutingChange,
            Message::RoutingInformation { .. } => Opcode::RoutingInformation,
            Message::SetStreamPath { .. } => Opcode::SetStreamPath,
            Message::Standby => Opcode::Standby,
            Message::RecordOff => Opcode::RecordOff,
            Message::RecordOn { .. } => Opcode::RecordOn,
            Message::RecordStatus { .. } => Opcode::RecordStatus,
            Message::RecordTvScreen => Opcode::RecordTvScreen,
            Message::ClearAnalogueTimer { .. } => Opcode::ClearAnalogueTimer,
            Message::ClearDigitalTimer { .. } => Opcode::ClearDigitalTimer,
            Message::ClearExtTimer { .. } => Opcode::ClearExtTimer,
            Message::SetAnalogueTimer { .. } => Opcode::SetAnalogueTimer,
            Message::SetDigitalTimer { .. } => Opcode::SetDigitalTimer,
            Message::SetExtTimer { .. } => Opcode::SetExtTimer,
            Message::SetTimerProgramTitle { .. } => Opcode::SetTimerProgramTitle,
            Message::TimerClearedStatus { .. } => Opcode::TimerClearedStatus,
            Message::TimerStatus { .. } => Opcode::TimerStatus,
            Message::CecVersion { .. } => Opcode::CecVersion,
            Message::GetCecVersion => Opcode::GetCecVersion,
            Message::GivePhysicalAddr => Opcode::GivePhysicalAddr,
            Message::GetMenuLanguage => Opcode::GetMenuLanguage,
            Message::ReportPhysicalAddr { .. } => Opcode::ReportPhysicalAddr,
            Message::SetMenuLanguage { .. } => Opcode::SetMenuLanguage,
            Message::DeckControl { .. } => Opcode::DeckControl,
            Message::DeckStatus { .. } => Opcode::DeckStatus,
            Message::GiveDeckStatus { .. } => Opcode::GiveDeckStatus,
            Message::Play { .. } => Opcode::Play,
            Message::GiveTunerDeviceStatus { .. } => Opcode::GiveTunerDeviceStatus,
            Message::SelectAnalogueService { .. } => Opcode::SelectAnalogueService,
            Message::SelectDigitalService { .. } => Opcode::SelectDigitalService,
            Message::TunerDeviceStatus { .. } => Opcode::TunerDeviceStatus,
            Message::TunerStepDecrement => Opcode::TunerStepDecrement,
            Message::TunerStepIncrement => Opcode::TunerStepIncrement,
            Message::DeviceVendorId { .. } => Opcode::DeviceVendorId,
            Message::GiveDeviceVendorId => Opcode::GiveDeviceVendorId,
            Message::VendorCommand { .. } => Opcode::VendorCommand,
            Message::VendorCommandWithId { .. } => Opcode::VendorCommandWithId,
            Message::VendorRemoteButtonDown { .. } => Opcode::VendorRemoteButtonDown,
            Message::VendorRemoteButtonUp => Opcode::VendorRemoteButtonUp,
            Message::SetOsdString { .. } => Opcode::SetOsdString,
            Message::GiveOsdName => Opcode::GiveOsdName,
            Message::SetOsdName { .. } => Opcode::SetOsdName,
            Message::MenuRequest { .. } => Opcode::MenuRequest,
            Message::MenuStatus { .. } => Opcode::MenuStatus,
            Message::UserControlPressed { .. } => Opcode::UserControlPressed,
            Message::UserControlReleased => Opcode::UserControlReleased,
            Message::GiveDevicePowerStatus => Opcode::GiveDevicePowerStatus,
            Message::ReportPowerStatus { .. } => Opcode::ReportPowerStatus,
            Message::FeatureAbort { .. } => Opcode::FeatureAbort,
            Message::Abort => Opcode::Abort,
            Message::GiveAudioStatus => Opcode::GiveAudioStatus,
            Message::GiveSystemAudioModeStatus => Opcode::GiveSystemAudioModeStatus,
            Message::ReportAudioStatus { .. } => Opcode::ReportAudioStatus,
            Message::ReportShortAudioDescriptor { .. } => Opcode::ReportShortAudioDescriptor,
            Message::RequestShortAudioDescriptor { .. } => Opcode::RequestShortAudioDescriptor,
            Message::SetSystemAudioMode { .. } => Opcode::SetSystemAudioMode,
            Message::SystemAudioModeRequest { .. } => Opcode::SystemAudioModeRequest,
            Message::SystemAudioModeStatus { .. } => Opcode::SystemAudioModeStatus,
            Message::SetAudioRate { .. } => Opcode::SetAudioRate,
            Message::InitiateArc => Opcode::InitiateArc,
            Message::ReportArcInitiated => Opcode::ReportArcInitiated,
            Message::ReportArcTerminated => Opcode::ReportArcTerminated,
            Message::RequestArcInitiation => Opcode::RequestArcInitiation,
            Message::RequestArcTermination => Opcode::RequestArcTermination,
            Message::TerminateArc => Opcode::TerminateArc,
            Message::CdcMessage { .. } => Opcode::CdcMessage,
            Message::ReportFeatures { .. } => Opcode::ReportFeatures,
            Message::GiveFeatures => Opcode::GiveFeatures,
            Message::RequestCurrentLatency { .. } => Opcode::RequestCurrentLatency,
            Message::ReportCurrentLatency { .. } => Opcode::ReportCurrentLatency,
        }
    }

    /// Decodes a message from `bytes`.
    pub fn try_from_bytes(bytes: &[u8]) -> (r: Result<Message, Error>)
        ensures
            result_view(r) == Self::spec_parse(bytes@),
    {
        proof {
            reveal(Message::spec_parse);
        }
        if bytes.len() < 1 {
            return Err(Error::short_input(1, 0));
        }
        let op = match Opcode::try_from_u8(bytes[0]) {
            Ok(op) => op,
            Err(e) => return Err(e),
        };
        match op {
            Opcode::ActiveSource => read_active_source(bytes),
            Opcode::ImageViewOn => Ok(Message::ImageViewOn),
            Opcode::TextViewOn => Ok(Message::TextViewOn),
            Opcode::InactiveSource => read_inactive_source(bytes),
            Opcode::RequestActiveSource => Ok(Message::RequestActiveSource),
            Opcode::RoutingChange => read_routing_change(bytes),
            Opcode::RoutingInformation => read_routing_information(bytes),
            Opcode::SetStreamPath => read_set_stream_path(bytes),
            Opcode::Standby => Ok(Message::Standby),
            Opcode::RecordOff => Ok(Message::RecordOff),
            Opcode::RecordOn => read_record_on(bytes),
            Opcode::RecordStatus => read_record_status(bytes),
            Opcode::RecordTvScreen => Ok(Message::RecordTvScreen),
            Opcode::ClearAnalogueTimer => read_clear_analogue_timer(bytes),
            Opcode::ClearDigitalTimer => read_clear_digital_timer(bytes),
            Opcode::ClearExtTimer => read_clear_ext_timer(bytes),
            Opcode::SetAnalogueTimer => read_set_analogue_timer(bytes),
            Opcode::SetDigitalTimer => read_set_digital_timer(bytes),
            Opcode::SetExtTimer => read_set_ext_timer(bytes),
            Opcode::SetTimerProgramTitle => read_set_timer_program_title(bytes),
            Opcode::TimerClearedStatus => read_timer_cleared_status(bytes),
            Opcode::TimerStatus => read_timer_status(bytes),
            Opcode::CecVersion => read_cec_version(bytes),
            Opcode::GetCecVersion => Ok(Message::GetCecVersion),
            Opcode::GivePhysicalAddr => Ok(Message::GivePhysicalAddr),
            Opcode::GetMenuLanguage => Ok(Message::GetMenuLanguage),
            Opcode::ReportPhysicalAddr => read_report_physical_addr(bytes),
            Opcode::SetMenuLanguage => read_set_menu_language(bytes),
            Opcode::DeckControl => read_deck_control(bytes),
            Opcode::DeckStatus => read_deck_status(bytes),
            Opcode::GiveDeckStatus => read_give_deck_status(bytes),
            Opcode::Play => read_play(bytes),
            Opcode::GiveTunerDeviceStatus => read_give_tuner_device_status(bytes),
            Opcode::SelectAnalogueService => read_select_analogue_service(bytes),
            Opcode::SelectDigitalService => read_select_digital_service(bytes),
            Opcode::TunerDeviceStatus => read_tuner_device_status(bytes),
            Opcode::TunerStepDecrement => Ok(Message::TunerStepDecrement),
            Opcode::TunerStepIncrement => Ok(Message::TunerStepIncrement),
            Opcode::DeviceVendorId => read_device_vendor_id(bytes),
            Opcode::GiveDeviceVendorId => Ok(Message::GiveDeviceVendorId),
            Opcode::VendorCommand => read_vendor_command(bytes),
            Opcode::VendorCommandWithId => read_vendor_command_with_id(bytes),
            Opcode::VendorRemoteButtonDown => read_vendor_remote_button_down(bytes),
            Opcode::VendorRemoteButtonUp => Ok(Message::VendorRemoteButtonUp),
            Opcode::SetOsdString => read_set_osd_string(bytes),
            Opcode::GiveOsdName => Ok(Message::GiveOsdName),
            Opcode::SetOsdName => read_set_osd_name(bytes),
            Opcode::MenuRequest => read_menu_request(bytes),
            Opcode::MenuStatus => read_menu_status(bytes),
            Opcode::UserControlPressed => read_user_control_pressed(bytes),
            Opcode::UserControlReleased => Ok(Message::UserControlReleased),
            Opcode::GiveDevicePowerStatus => Ok(Message::GiveDevicePowerStatus),
            Opcode::ReportPowerStatus => read_report_power_status(bytes),
            Opcode::FeatureAbort => read_feature_abort(bytes),
            Opcode::Abort => Ok(Message::Abort),
            Opcode::GiveAudioStatus => Ok(Message::GiveAudioStatus),
            Opcode::GiveSystemAudioModeStatus => Ok(Message::GiveSystemAudioModeStatus),
            Opcode::ReportAudioStatus => read_report_audio_status(bytes),
            Opcode::ReportShortAudioDescriptor => read_report_short_audio_descriptor(bytes),
            Opcode::RequestShortAudioDescriptor => read_request_short_audio_descriptor(bytes),
            Opcode::SetSystemAudioMode => read_set_system_audio_mode(bytes),
            Opcode::SystemAudioModeRequest => read_system_audio_mode_request(bytes),
            Opcode::SystemAudioModeStatus => read_system_audio_mode_status(bytes),
            Opcode::SetAudioRate => read_set_audio_rate(bytes),
            Opcode::InitiateArc => Ok(Message::InitiateArc),
            Opcode::ReportArcInitiated => Ok(Message::ReportArcInitiated),
            Opcode::ReportArcTerminated => Ok(Message::ReportArcTerminated),
            Opcode::RequestArcInitiation => Ok(Message::RequestArcInitiation),
            Opcode::RequestArcTermination => Ok(Message::RequestArcTermination),
            Opcode::TerminateArc => Ok(Message::TerminateArc),
            Opcode::CdcMessage => read_cdc_message(bytes),
            Opcode::ReportFeatures => read_report_features(bytes),
            Opcode::GiveFeatures => Ok(Message::GiveFeatures),
            Opcode::RequestCurrentLatency => read_request_current_latency(bytes),
            Opcode::ReportCurrentLatency => read_report_current_latency(bytes),
        }
    }

    /// The encoding of the message.
    #[verifier::spinoff_prover]
    pub fn to_bytes(&self) -> (r: Vec<u8>)
        ensures
            r@ == self.spec_bytes(),
    {
        let mut out: Vec<u8> = Vec::new();
        out.push(self.opcode().to_u8());
        match self {
            Message::ActiveSource { address } => write_active_source(address, &mut out),
            Message::ImageViewOn => {},
            Message::TextViewOn => {},
            Message::InactiveSource { address } => write_inactive_source(address, &mut out),
            Message::RequestActiveSource => {},
            Message::RoutingChange { original_address, new_address } => write_routing_change(original_address, new_address, &mut out),
            Message::RoutingInformation { address } => write_routing_information(address, &mut out),
            Message::SetStreamPath { address } => write_set_stream_path(address, &mut out),
            Message::Standby => {},
            Message::RecordOff => {},
            Message::RecordOn { source } => write_record_on(source, &mut out),
            Message::RecordStatus { status } => write_record_status(status, &mut out),
            Message::RecordTvScreen => {},
            Message::ClearAnalogueTimer { day_of_month, month_of_year, start_time, duration, recording_sequence, service_id } => write_clear_analogue_timer(day_of_month, month_of_year, start_time, duration, recording_sequence, service_id, &mut out),
            Message::ClearDigitalTimer { day_of_month, month_of_year, start_time, duration, recording_sequence, service_id } => write_clear_digital_timer(day_of_month, month_of_year, start_time, duration, recording_sequence, service_id, &mut out),
            Message::ClearExtTimer { day_of_month, month_of_year, start_time, duration, recording_sequence, external_source } => write_clear_ext_timer(day_of_month, month_of_year, start_time, duration, recording_sequence, external_source, &mut out),
            Message::SetAnalogueTimer { day_of_month, month_of_year, start_time, duration, recording_sequence, service_id } => write_set_analogue_timer(day_of_month, month_of_year, start_time, duration, recording_sequence, service_id, &mut out),
            Message::SetDigitalTimer { day_of_month, month_of_year, start_time, duration, recording_sequence, service_id } => write_set_digital_timer(day_of_month, month_of_year, start_time, duration, recording_sequence, service_id, &mut out),
            Message::SetExtTimer { day_of_month, month_of_year, start_time, duration, recording_sequence, external_source } => write_set_ext_timer(day_of_month, month_of_year, start_time, duration, recording_sequence, external_source, &mut out),
            Message::SetTimerProgramTitle { title } => write_set_timer_program_title(title, &mut out),
            Message::TimerClearedStatus { status } => write_timer_cleared_status(status, &mut out),
            Message::TimerStatus { status } => write_timer_status(status, &mut out),
            Message::CecVersion { version } => write_cec_version(version, &mut out),
            Message::GetCecVersion => {},
            Message::GivePhysicalAddr => {},
            Message::GetMenuLanguage => {},
            Message::ReportPhysicalAddr { physical_address, device_type } => write_report_physical_addr(physical_address, device_type, &mut out),
            Message::SetMenuLanguage { language } => write_set_menu_language(language, &mut out),
            Message::DeckControl { mode } => write_deck_control(mode, &mut out),
            Message::DeckStatus { info } => write_deck_status(info, &mut out),
            Message::GiveDeckStatus { request } => write_give_deck_status(request, &mut out),
            Message::Play { mode } => write_play(mode, &mut out),
            Message::GiveTunerDeviceStatus { request } => write_give_tuner_device_status(request, &mut out),
            Message::SelectAnalogueService { service_id } => write_select_analogue_service(service_id, &mut out),
            Message::SelectDigitalService { service_id } => write_select_digital_service(service_id, &mut out),
            Message::TunerDeviceStatus { info } => write_tuner_device_status(info, &mut out),
            Message::TunerStepDecrement => {},
            Message::TunerStepIncrement => {},
            Message::DeviceVendorId { vendor_id } => write_device_vendor_id(vendor_id, &mut out),
            Message::GiveDeviceVendorId => {},
            Message::VendorCommand { command } => write_vendor_command(command, &mut out),
            Message::VendorCommandWithId { vendor_id, vendor_specific_data } => write_vendor_command_with_id(vendor_id, vendor_specific_data, &mut out),
            Message::VendorRemoteButtonDown { rc_code } => write_vendor_remote_button_down(rc_code, &mut out),
            Message::VendorRemoteButtonUp => {},
            Message::SetOsdString { display_control, osd_string } => write_set_osd_string(display_control, osd_string, &mut out),
            Message::GiveOsdName => {},
            Message::SetOsdName { name } => write_set_osd_name(name, &mut out),
            Message::MenuRequest { request_type } => write_menu_request(request_type, &mut out),
            Message::MenuStatus { state } => write_menu_status(state, &mut out),
            Message::UserControlPressed { ui_command } => write_user_control_pressed(ui_command, &mut out),
            Message::UserControlReleased => {},
            Message::GiveDevicePowerStatus => {},
            Message::ReportPowerStatus { status } => write_report_power_status(status, &mut out),
            Message::FeatureAbort { opcode, abort_reason } => write_feature_abort(opcode, abort_reason, &mut out),
            Message::Abort => {},
            Message::GiveAudioStatus => {},
            Message::GiveSystemAudioModeStatus => {},
            Message::ReportAudioStatus { status } => write_report_audio_status(status, &mut out),
            Message::ReportShortAudioDescriptor { descriptors } => write_report_short_audio_descriptor(descriptors, &mut out),
            Message::RequestShortAudioDescriptor { descriptors } => write_request_short_audio_descriptor(descriptors, &mut out),
            Message::SetSystemAudioMode { status } => write_set_system_audio_mode(status, &mut out),
            Message::SystemAudioModeRequest { physical_address } => write_system_audio_mode_request(physical_address, &mut out),
            Message::SystemAudioModeStatus { system_audio_status } => write_system_audio_mode_status(system_audio_status, &mut out),
            Message::SetAudioRate { audio_rate } => write_set_audio_rate(audio_rate, &mut out),
            Message::InitiateArc => {},
            Message::ReportArcInitiated => {},
            Message::ReportArcTerminated => {},
            Message::RequestArcInitiation => {},
            Message::RequestArcTermination => {},
            Message::TerminateArc => {},
            Message::CdcMessage { initiator, message } => write_cdc_message(initiator, message, &mut out),
            Message::ReportFeatures { version, device_types, rc_profile, dev_features } => write_report_features(version, device_types, rc_profile, dev_features, &mut out),
            Message::GiveFeatures => {},
            Message::RequestCurrentLatency { physical_address } => write_request_current_latency(physical_address, &mut out),
            Message::ReportCurrentLatency { physical_address, video_latency, flags, audio_output_delay } => write_report_current_latency(physical_address, video_latency, flags, audio_output_delay, &mut out),
        }
        out
    }

    /// The length of the encoding of the message.
    pub fn len(&self) -> (r: usize)
        ensures
            r == self.spec_bytes().len(),
    {
        self.to_bytes().len()
    }
}

/// Appends the encodings of the operands of `ActiveSource`.
fn write_active_source(address: &PhysicalAddress, out: &mut Vec<u8>)
    ensures
        final(out)@ == old(out)@ + (address.spec_bytes()),
{
    OperandEncodable::to_bytes(address, out);
    proof {
        assert(final(out)@ =~= old(out)@ + (address.spec_bytes()));
    }
}

/// Decodes the operands of `ActiveSource` from `bytes`, whose first byte is its opcode.
pub open spec fn parse_active_source(bytes: Seq<u8>) -> Result<Message, ErrorView> {
    match parse_at::<PhysicalAddress>(bytes, 1) {
        Err(e) => Err(e),
        Ok(address) => {
            Ok(Message::ActiveSource { address })
        },
    }
}

/// Decodes the operands of `ActiveSource` from `bytes`, whose first byte is its opcode.
fn read_active_source(bytes: &[u8]) -> (r: Result<Message, Error>)
    requires
        bytes@.len() >= 1,
    ensures
        result_view(r) == parse_active_source(bytes@),
{
    let off: usize = 1;
    let address = match parse_field::<PhysicalAddress>(bytes, off) {
        Ok(v) => v,
        Err(e) => return Err(e),
    };
    Ok(Message::ActiveSource { address })
}

/// The encoding of `ActiveSource`, followed by `rest`, decodes back to it.
proof fn lemma_fields_active_source(address: PhysicalAddress, rest: Seq<u8>)
    requires
        address.spec_wf(),
    ensures
        parse_active_source(Message::ActiveSource { address }.spec_bytes() + rest) == Ok::<Message, ErrorView>(Message::ActiveSource { address }),
{
    let m = Message::ActiveSource { address };
    let all = m.spec_bytes() + rest;
    let s1 = rest;
    let s0 = address.spec_bytes() + s1;
    assert(all.subrange(1, all.len() as int) =~= s0);
    let o0: int = 1int;
    lemma_parse_at_suffix(all, o0, address, s1);
}

/// Appends the encodings of the operands of `InactiveSource`.
fn write_inactive_source(address: &PhysicalAddress, out: &mut Vec<u8>)
    ensures
        final(out)@ == old(out)@ + (address.spec_bytes()),
{
    OperandEncodable::to_bytes(address, out);
    proof {
        assert(final(out)@ =~= old(out)@ + (address.spec_bytes()));
    }
}

/// Decodes the operands of `InactiveSource` from `bytes`, whose first byte is its opcode.
pub open spec fn parse_inactive_source(bytes: Seq<u8>) -> Result<Message, ErrorView> {
    match parse_at::<PhysicalAddress>(bytes, 1) {
        Err(e) => Err(e),
        Ok(address) => {
            Ok(Message::InactiveSource { address })
        },
    }
}

/// Decodes the operands of `InactiveSource` from `bytes`, whose first byte is its opcode.
fn read_inactive_source(bytes: &[u8]) -> (r: Result<Message, Error>)
    requires
        bytes@.len() >= 1,
    ensures
        result_view(r) == parse_inactive_source(bytes@),
{
    let off: usize = 1;
    let address = match parse_field::<PhysicalAddress>(bytes, off) {
        Ok(v) => v,
        Err(e) => return Err(e),
    };
    Ok(Message::InactiveSource { address })
}

/// The encoding of `InactiveSource`, followed by `rest`, decodes back to it.
proof fn lemma_fields_inactive_source(address: PhysicalAddress, rest: Seq<u8>)
    requires
        address.spec_wf(),
    ensures
        parse_inactive_source(Message::InactiveSource { address }.spec_bytes() + rest) == Ok::<Message, ErrorView>(Message::InactiveSource { address }),
{
    let m = Message::InactiveSource { address };
    let all = m.spec_bytes() + rest;
    let s1 = rest;
    let s0 = address.spec_bytes() + s1;
    assert(all.subrange(1, all.len() as int) =~= s0);
    let o0: int = 1int;
    lemma_parse_at_suffix(all, o0, address, s1);
}

/// Appends the encodings of the operands of `RoutingChange`.
fn write_routing_change(original_address: &PhysicalAddress, new_address: &PhysicalAddress, out: &mut Vec<u8>)
    ensures
        final(out)@ == old(out)@ + (original_address.spec_bytes() + new_address.spec_bytes()),
{
    OperandEncodable::to_bytes(original_address, out);
    OperandEncodable::to_bytes(new_address, out);
    proof {
        assert(final(out)@ =~= old(out)@ + (original_address.spec_bytes() + new_address.spec_bytes()));
    }
}

/// Decodes the operands of `RoutingChange` from `bytes`, whose first byte is its opcode.
pub open spec fn parse_routing_change(bytes: Seq<u8>) -> Result<Message, ErrorView> {
    match parse_at::<PhysicalAddress>(bytes, 1) {
        Err(e) => Err(e),
        Ok(original_address) => {
            let off1: int = (1 + original_address.spec_bytes().len()) as int;
            match parse_at::<PhysicalAddress>(bytes, off1) {
                Err(e) => Err(e),
                Ok(new_address) => {
                    Ok(Message::RoutingChange { original_address, new_address })
                },
            }
        },
    }
}

/// Decodes the operands of `RoutingChange` from `bytes`, whose first byte is its opcode.
fn read_routing_change(bytes: &[u8]) -> (r: Result<Message, Error>)
    requires
        bytes@.len() >= 1,
    ensures
        result_view(r) == parse_routing_change(bytes@),
{
    let off: usize = 1;
    let original_address = match parse_field::<PhysicalAddress>(bytes, off) {
        Ok(v) => v,
        Err(e) => return Err(e),
    };
    let off = off + OperandEncodable::len(&original_address);
    let new_address = match parse_field::<PhysicalAddress>(bytes, off) {
        Ok(v) => v,
        Err(e) => return Err(e),
    };
    Ok(Message::RoutingChange { original_address, new_address })
}

/// The encoding of `RoutingChange`, followed by `rest`, decodes back to it.
proof fn lemma_fields_routing_change(original_address: PhysicalAddress, new_address: PhysicalAddress, rest: Seq<u8>)
    requires
        original_address.spec_wf(),
        new_address.spec_wf(),
    ensures
        parse_routing_change(Message::RoutingChange { original_address, new_address }.spec_bytes() + rest) == Ok::<Message, ErrorView>(Message::RoutingChange { original_address, new_address }),
{
    let m = Message::RoutingChange { original_address, new_address };
    let all = m.spec_bytes() + rest;
    let s2 = rest;
    let s1 = new_address.spec_bytes() + s2;
    let s0 = original_address.spec_bytes() + s1;
    assert(all.subrange(1, all.len() as int) =~= s0);
    let o0: int = 1int;
    lemma_parse_at_suffix(all, o0, original_address, s1);
    let o1: int = (o0 + original_address.spec_bytes().len()) as int;
    assert(all.subrange(o1, all.len() as int) =~= s1);
    lemma_parse_at_suffix(all, o1, new_address, s2);
}

/// Appends the encodings of the operands of `RoutingInformation`.
fn write_routing_information(address: &PhysicalAddress, out: &mut Vec<u8>)
    ensures
        final(out)@ == old(out)@ + (address.spec_bytes()),
{
    OperandEncodable::to_bytes(address, out);
    proof {
        assert(final(out)@ =~= old(out)@ + (address.spec_bytes()));
    }
}

/// Decodes the operands of `RoutingInformation` from `bytes`, whose first byte is its opcode.
pub open spec fn parse_routing_information(bytes: Seq<u8>) -> Result<Message, ErrorView> {
    match parse_at::<PhysicalAddress>(bytes, 1) {
        Err(e) => Err(e),
        Ok(address) => {
            Ok(Message::RoutingInformation { address })
        },
    }
}

/// Decodes the operands of `RoutingInformation` from `bytes`, whose first byte is its opcode.
fn read_routing_information(bytes: &[u8]) -> (r: Result<Message, Error>)
    requires
        bytes@.len() >= 1,
    ensures
        result_view(r) == parse_routing_information(bytes@),
{
    let off: usize = 1;
    let address = match parse_field::<PhysicalAddress>(bytes, off) {
        Ok(v) => v,
        Err(e) => return Err(e),
    };
    Ok(Message::RoutingInformation { address })
}

/// The encoding of `RoutingInformation`, followed by `rest`, decodes back to it.
proof fn lemma_fields_routing_information(address: PhysicalAddress, rest: Seq<u8>)
    requires
        address.spec_wf(),
    ensures
        parse_routing_information(Message::RoutingInformation { address }.spec_bytes() + rest) == Ok::<Message, ErrorView>(Message::RoutingInformation { address }),
{
    let m = Message::RoutingInformation { address };
    let all = m.spec_bytes() + rest;
    let s1 = rest;
    let s0 = address.spec_bytes() + s1;
    assert(all.subrange(1, all.len() as int) =~= s0);
    let o0: int = 1int;
    lemma_parse_at_suffix(all, o0, address, s1);
}

/// Appends the encodings of the operands of `SetStreamPath`.
fn write_set_stream_path(address: &PhysicalAddress, out: &mut Vec<u8>)
    ensures
        final(out)@ == old(out)@ + (address.spec_bytes()),
{
    OperandEncodable::to_bytes(address, out);
    proof {
        assert(final(out)@ =~= old(out)@ + (address.spec_bytes()));
    }
}

/// Decodes the operands of `SetStreamPath` from `bytes`, whose first byte is its opcode.
pub open spec fn parse_set_stream_path(bytes: Seq<u8>) -> Result<Message, ErrorView> {
    match parse_at::<PhysicalAddress>(bytes, 1) {
        Err(e) => Err(e),
        Ok(address) => {
            Ok(Message::SetStreamPath { address })
        },
    }
}

/// Decodes the operands of `SetStreamPath` from `bytes`, whose first byte is its opcode.
fn read_set_stream_path(bytes: &[u8]) -> (r: Result<Message, Error>)
    requires
        bytes@.len() >= 1,
    ensures
        result_view(r) == parse_set_stream_path(bytes@),
{
    let off: usize = 1;
    let address = match parse_field::<PhysicalAddress>(bytes, off) {
        Ok(v) => v,
        Err(e) => return Err(e),
    };
    Ok(Message::SetStreamPath { address })
}

/// The encoding of `SetStreamPath`, followed by `rest`, decodes back to it.
proof fn lemma_fields_set_stream_path(address: PhysicalAddress, rest: Seq<u8>)
    requires
        address.spec_wf(),
    ensures
        parse_set_stream_path(Message::SetStreamPath { address }.spec_bytes() + rest) == Ok::<Message, ErrorView>(Message::SetStreamPath { address }),
{
    let m = Message::SetStreamPath { address };
    let all = m.spec_bytes() + rest;
    let s1 = rest;
    let s0 = address.spec_bytes() + s1;
    assert(all.subrange(1, all.len() as int) =~= s0);
    let o0: int = 1int;
    lemma_parse_at_suffix(all, o0, address, s1);
}

/// Appends the encodings of the operands of `RecordOn`.
fn write_record_on(source: &RecordSource, out: &mut Vec<u8>)
    ensures
        final(out)@ == old(out)@ + (source.spec_bytes()),
{
    OperandEncodable::to_bytes(source, out);
    proof {
        assert(final(out)@ =~= old(out)@ + (source.spec_bytes()));
    }
}

/// Decodes the operands of `RecordOn` from `bytes`, whose first byte is its opcode.
pub open spec fn parse_record_on(bytes: Seq<u8>) -> Result<Message, ErrorView> {
    match parse_at::<RecordSource>(bytes, 1) {
        Err(e) => Err(e),
        Ok(source) => {
            Ok(Message::RecordOn { source })
        },
    }
}

/// Decodes the operands of `RecordOn` from `bytes`, whose first byte is its opcode.
fn read_record_on(bytes: &[u8]) -> (r: Result<Message, Error>)
    requires
        bytes@.len() >= 1,
    ensures
        result_view(r) == parse_record_on(bytes@),
{
    let off: usize = 1;
    let source = match parse_field::<RecordSource>(bytes, off) {
        Ok(v) => v,
        Err(e) => return Err(e),
    };
    Ok(Message::RecordOn { source })
}

/// The encoding of `RecordOn`, followed by `rest`, decodes back to it.
proof fn lemma_fields_record_on(source: RecordSource, rest: Seq<u8>)
    requires
        source.spec_wf(),
    ensures
        parse_record_on(Message::RecordOn { source }.spec_bytes() + rest) == Ok::<Message, ErrorView>(Message::RecordOn { source }),
{
    let m = Message::RecordOn { source };
    let all = m.spec_bytes() + rest;
    let s1 = rest;
    let s0 = source.spec_bytes() + s1;
    assert(all.subrange(1, all.len() as int) =~= s0);
    let o0: int = 1int;
    lemma_parse_at_suffix(all, o0, source, s1);
}

/// Appends the encodings of the operands of `RecordStatus`.
fn write_record_status(status: &RecordStatusInfo, out: &mut Vec<u8>)
    ensures
        final(out)@ == old(out)@ + (status.spec_bytes()),
{
    OperandEncodable::to_bytes(status, out);
    proof {
        assert(final(out)@ =~= old(out)@ + (status.spec_bytes()));
    }
}

/// Decodes the operands of `RecordStatus` from `bytes`, whose first byte is its opcode.
pub open spec fn parse_record_status(bytes: Seq<u8>) -> Result<Message, ErrorView> {
    match parse_at::<RecordStatusInfo>(bytes, 1) {
        Err(e) => Err(e),
        Ok(status) => {
            Ok(Message::RecordStatus { status })
        },
    }
}

/// Decodes the operands of `RecordStatus` from `bytes`, whose first byte is its opcode.
fn read_record_status(bytes: &[u8]) -> (r: Result<Message, Error>)
    requires
        bytes@.len() >= 1,
    ensures
        result_view(r) == parse_record_status(bytes@),
{
    let off: usize = 1;
    let status = match parse_field::<RecordStatusInfo>(bytes, off) {
        Ok(v) => v,
        Err(e) => return Err(e),
    };
    Ok(Message::RecordStatus { status })
}

/// The encoding of `RecordStatus`, followed by `rest`, decodes back to it.
proof fn lemma_fields_record_status(status: RecordStatusInfo, rest: Seq<u8>)
    requires
        status.spec_wf(),
    ensures
        parse_record_status(Message::RecordStatus { status }.spec_bytes() + rest) == Ok::<Message, ErrorView>(Message::RecordStatus { status }),
{
    let m = Message::RecordStatus { status };
    let all = m.spec_bytes() + rest;
    let s1 = rest;
    let s0 = status.spec_bytes() + s1;
    assert(all.subrange(1, all.len() as int) =~= s0);
    let o0: int = 1int;
    lemma_parse_at_suffix(all, o0, status, s1);
}

/// Appends the encodings of the operands of `ClearAnalogueTimer`.
fn write_clear_analogue_timer(day_of_month: &DayOfMonth, month_of_year: &MonthOfYear, start_time: &Time, duration: &Duration, recording_sequence: &RecordingSequence, service_id: &AnalogueServiceId, out: &mut Vec<u8>)
    ensures
        final(out)@ == old(out)@ + (day_of_month.spec_bytes() + month_of_year.spec_bytes() + start_time.spec_bytes() + duration.spec_bytes() + recording_sequence.spec_bytes() + service_id.spec_bytes()),
{
    OperandEncodable::to_bytes(day_of_month, out);
    OperandEncodable::to_bytes(month_of_year, out);
    OperandEncodable::to_bytes(start_time, out);
    OperandEncodable::to_bytes(duration, out);
    OperandEncodable::to_bytes(recording_sequence, out);
    OperandEncodable::to_bytes(service_id, out);
    proof {
        assert(final(out)@ =~= old(out)@ + (day_of_month.spec_bytes() + month_of_year.spec_bytes() + start_time.spec_bytes() + duration.spec_bytes() + recording_sequence.spec_bytes() + service_id.spec_bytes()));
    }
}

/// Decodes the operands of `ClearAnalogueTimer` from `bytes`, whose first byte is its opcode.
pub open spec fn parse_clear_analogue_timer(bytes: Seq<u8>) -> Result<Message, ErrorView> {
    match parse_at::<DayOfMonth>(bytes, 1) {
        Err(e) => Err(e),
        Ok(day_of_month) => {
            let off1: int = (1 + day_of_month.spec_bytes().len()) as int;
            match parse_at::<MonthOfYear>(bytes, off1) {
                Err(e) => Err(e),
                Ok(month_of_year) => {
                    let off2: int = (off1 + month_of_year.spec_bytes().len()) as int;
                    match parse_at::<Time>(bytes, off2) {
                        Err(e) => Err(e),
                        Ok(start_time) => {
                            let off3: int = (off2 + start_time.spec_bytes().len()) as int;
                            match parse_at::<Duration>(bytes, off3) {
                                Err(e) => Err(e),
                                Ok(duration) => {
                                    let off4: int = (off3 + duration.spec_bytes().len()) as int;
                                    match parse_at::<RecordingSequence>(bytes, off4) {
                                        Err(e) => Err(e),
                                        Ok(recording_sequence) => {
                                            let off5: int = (off4 + recording_sequence.spec_bytes().len()) as int;
                                            match parse_at::<AnalogueServiceId>(bytes, off5) {
                                                Err(e) => Err(e),
                                                Ok(service_id) => {
                                                    Ok(Message::ClearAnalogueTimer { day_of_month, month_of_year, start_time, duration, recording_sequence, service_id })
                                                },
                                            }
                                        },
                                    }
                                },
                            }
                        },
                    }
                },
            }
        },
    }
}

/// Decodes the operands of `ClearAnalogueTimer` from `bytes`, whose first byte is its opcode.
fn read_clear_analogue_timer(bytes: &[u8]) -> (r: Result<Message, Error>)
    requires
        bytes@.len() >= 1,
    ensures
        result_view(r) == parse_clear_analogue_timer(bytes@),
{
    let off: usize = 1;
    let day_of_month = match parse_field::<DayOfMonth>(bytes, off) {
        Ok(v) => v,
        Err(e) => return Err(e),
    };
    let off = off + OperandEncodable::len(&day_of_month);
    let month_of_year = match parse_field::<MonthOfYear>(bytes, off) {
        Ok(v) => v,
        Err(e) => return Err(e),
    };
    let off = off + OperandEncodable::len(&month_of_year);
    let start_time = match parse_field::<Time>(bytes, off) {
        Ok(v) => v,
        Err(e) => return Err(e),
    };
    let off = off + OperandEncodable::len(&start_time);
    let duration = match parse_field::<Duration>(bytes, off) {
        Ok(v) => v,
        Err(e) => return Err(e),
    };
    let off = off + OperandEncodable::len(&duration);
    let recording_sequence = match parse_field::<RecordingSequence>(bytes, off) {
        Ok(v) => v,
        Err(e) => return Err(e),
    };
    let off = off + OperandEncodable::len(&recording_sequence);
    let service_id = match parse_field::<AnalogueServiceId>(bytes, off) {
        Ok(v) => v,
        Err(e) => return Err(e),
    };
    Ok(Message::ClearAnalogueTimer { day_of_month, month_of_year, start_time, duration, recording_sequence, service_id })
}

/// The encoding of `ClearAnalogueTimer`, followed by `rest`, decodes back to it.
#[verifier::rlimit(60)]
proof fn lemma_fields_clear_analogue_timer(day_of_month: DayOfMonth, month_of_year: MonthOfYear, start_time: Time, duration: Duration, recording_sequence: RecordingSequence, service_id: AnalogueServiceId, rest: Seq<u8>)
    requires
        day_of_month.spec_wf(),
        month_of_year.spec_wf(),
        start_time.spec_wf(),
        duration.spec_wf(),
        recording_sequence.spec_wf(),
        service_id.spec_wf(),
    ensures
        parse_clear_analogue_timer(Message::ClearAnalogueTimer { day_of_month, month_of_year, start_time, duration, recording_sequence, service_id }.spec_bytes() + rest) == Ok::<Message, ErrorView>(Message::ClearAnalogueTimer { day_of_month, month_of_year, start_time, duration, recording_sequence, service_id }),
{
    let m = Message::ClearAnalogueTimer { day_of_month, month_of_year, start_time, duration, recording_sequence, service_id };
    let all = m.spec_bytes() + rest;
    let s6 = rest;
    let s5 = service_id.spec_bytes() + s6;
    let s4 = recording_sequence.spec_bytes() + s5;
    let s3 = duration.spec_bytes() + s4;
    let s2 = start_time.spec_bytes() + s3;
    let s1 = month_of_year.spec_bytes() + s2;
    let s0 = day_of_month.spec_bytes() + s1;
    assert(all.subrange(1, all.len() as int) =~= s0);
    let o0: int = 1int;
    lemma_parse_at_suffix(all, o0, day_of_month, s1);
    let o1: int = (o0 + day_of_month.spec_bytes().len()) as int;
    assert(all.subrange(o1, all.len() as int) =~= s1);
    lemma_parse_at_suffix(all, o1, month_of_year, s2);
    let o2: int = (o1 + month_of_year.spec_bytes().len()) as int;
    assert(all.subrange(o2, all.len() as int) =~= s2);
    lemma_parse_at_suffix(all, o2, start_time, s3);
    let o3: int = (o2 + start_time.spec_bytes().len()) as int;
    assert(all.subrange(o3, all.len() as int) =~= s3);
    lemma_parse_at_suffix(all, o3, duration, s4);
    let o4: int = (o3 + duration.spec_bytes().len()) as int;
    assert(all.subrange(o4, all.len() as int) =~= s4);
    lemma_parse_at_suffix(all, o4, recording_sequence, s5);
    let o5: int = (o4 + recording_sequence.spec_bytes().len()) as int;
    assert(all.subrange(o5, all.len() as int) =~= s5);
    lemma_parse_at_suffix(all, o5, service_id, s6);
}

/// Appends the encodings of the operands of `ClearDigitalTimer`.
fn write_clear_digital_timer(day_of_month: &DayOfMonth, month_of_year: &MonthOfYear, start_time: &Time, duration: &Duration, recording_sequence: &RecordingSequence, service_id: &DigitalServiceId, out: &mut Vec<u8>)
    ensures
        final(out)@ == old(out)@ + (day_of_month.spec_bytes() + month_of_year.spec_bytes() + start_time.spec_bytes() + duration.spec_bytes() + recording_sequence.spec_bytes() + service_id.spec_bytes()),
{
    OperandEncodable::to_bytes(day_of_month, out);
    OperandEncodable::to_bytes(month_of_year, out);
    OperandEncodable::to_bytes(start_time, out);
    OperandEncodable::to_bytes(duration, out);
    OperandEncodable::to_bytes(recording_sequence, out);
    OperandEncodable::to_bytes(service_id, out);
    proof {
        assert(final(out)@ =~= old(out)@ + (day_of_month.spec_bytes() + month_of_year.spec_bytes() + start_time.spec_bytes() + duration.spec_bytes() + recording_sequence.spec_bytes() + service_id.spec_bytes()));
    }
}

/// Decodes the operands of `ClearDigitalTimer` from `bytes`, whose first byte is its opcode.
pub open spec fn parse_clear_digital_timer(bytes: Seq<u8>) -> Result<Message, ErrorView> {
    match parse_at::<DayOfMonth>(bytes, 1) {
        Err(e) => Err(e),
        Ok(day_of_month) => {
            let off1: int = (1 + day_of_month.spec_bytes().len()) as int;
            match parse_at::<MonthOfYear>(bytes, off1) {
                Err(e) => Err(e),
                Ok(month_of_year) => {
                    let off2: int = (off1 + month_of_year.spec_bytes().len()) as int;
                    match parse_at::<Time>(bytes, off2) {
                        Err(e) => Err(e),
                        Ok(start_time) => {
                            let off3: int = (off2 + start_time.spec_bytes().len()) as int;
                            match parse_at::<Duration>(bytes, off3) {
                                Err(e) => Err(e),
                                Ok(duration) => {
                                    let off4: int = (off3 + duration.spec_bytes().len()) as int;
                                    match parse_at::<RecordingSequence>(bytes, off4) {
                                        Err(e) => Err(e),
                                        Ok(recording_sequence) => {
                                            let off5: int = (off4 + recording_sequence.spec_bytes().len()) as int;
                                            match parse_at::<DigitalServiceId>(bytes, off5) {
                                                Err(e) => Err(e),
                                                Ok(service_id) => {
                                                    Ok(Message::ClearDigitalTimer { day_of_month, month_of_year, start_time, duration, recording_sequence, service_id })
                                                },
                                            }
                                        },
                                    }
                                },
                            }
                        },
                    }
                },
            }
        },
    }
}

/// Decodes the operands of `ClearDigitalTimer` from `bytes`, whose first byte is its opcode.
fn read_clear_digital_timer(bytes: &[u8]) -> (r: Result<Message, Error>)
    requires
        bytes@.len() >= 1,
    ensures
        result_view(r) == parse_clear_digital_timer(bytes@),
{
    let off: usize = 1;
    let day_of_month = match parse_field::<DayOfMonth>(bytes, off) {
        Ok(v) => v,
        Err(e) => return Err(e),
    };
    let off = off + OperandEncodable::len(&day_of_month);
    let month_of_year = match parse_field::<MonthOfYear>(bytes, off) {
        Ok(v) => v,
        Err(e) => return Err(e),
    };
    let off = off + OperandEncodable::len(&month_of_year);
    let start_time = match parse_field::<Time>(bytes, off) {
        Ok(v) => v,
        Err(e) => return Err(e),
    };
    let off = off + OperandEncodable::len(&start_time);
    let duration = match parse_field::<Duration>(bytes, off) {
        Ok(v) => v,
        Err(e) => return Err(e),
    };
    let off = off + OperandEncodable::len(&duration);
    let recording_sequence = match parse_field::<RecordingSequence>(bytes, off) {
        Ok(v) => v,
        Err(e) => return Err(e),
    };
    let off = off + OperandEncodable::len(&recording_sequence);
    let service_id = match parse_field::<DigitalServiceId>(bytes, off) {
        Ok(v) => v,
        Err(e) => return Err(e),
    };
    Ok(Message::ClearDigitalTimer { day_of_month, month_of_year, start_time, duration, recording_sequence, service_id })
}

/// The encoding of `ClearDigitalTimer`, followed by `rest`, decodes back to it.
#[verifier::rlimit(60)]
proof fn lemma_fields_clear_digital_timer(day_of_month: DayOfMonth, month_of_year: MonthOfYear, start_time: Time, duration: Duration, recording_sequence: RecordingSequence, service_id: DigitalServiceId, rest: Seq<u8>)
    requires
        day_of_month.spec_wf(),
        month_of_year.spec_wf(),
        start_time.spec_wf(),
        duration.spec_wf(),
        recording_sequence.spec_wf(),
        service_id.spec_wf(),
    ensures
        parse_clear_digital_timer(Message::ClearDigitalTimer { day_of_month, month_of_year, start_time, duration, recording_sequence, service_id }.spec_bytes() + rest) == Ok::<Message, ErrorView>(Message::ClearDigitalTimer { day_of_month, month_of_year, start_time, duration, recording_sequence, service_id }),
{
    let m = Message::ClearDigitalTimer { day_of_month, month_of_year, start_time, duration, recording_sequence, service_id };
    let all = m.spec_bytes() + rest;
    let s6 = rest;
    let s5 = service_id.spec_bytes() + s6;
    let s4 = recording_sequence.spec_bytes() + s5;
    let s3 = duration.spec_bytes() + s4;
    let s2 = start_time.spec_bytes() + s3;
    let s1 = month_of_year.spec_bytes() + s2;
    let s0 = day_of_month.spec_bytes() + s1;
    assert(all.subrange(1, all.len() as int) =~= s0);
    let o0: int = 1int;
    lemma_parse_at_suffix(all, o0, day_of_month, s1);
    let o1: int = (o0 + day_of_month.spec_bytes().len()) as int;
    assert(all.subrange(o1, all.len() as int) =~= s1);
    lemma_parse_at_suffix(all, o1, month_of_year, s2);
    let o2: int = (o1 + month_of_year.spec_bytes().len()) as int;
    assert(all.subrange(o2, all.len() as int) =~= s2);
    lemma_parse_at_suffix(all, o2, start_time, s3);
    let o3: int = (o2 + start_time.spec_bytes().len()) as int;
    assert(all.subrange(o3, all.len() as int) =~= s3);
    lemma_parse_at_suffix(all, o3, duration, s4);
    let o4: int = (o3 + duration.spec_bytes().len()) as int;
    assert(all.subrange(o4, all.len() as int) =~= s4);
    lemma_parse_at_suffix(all, o4, recording_sequence, s5);
    let o5: int = (o4 + recording_sequence.spec_bytes().len()) as int;
    assert(all.subrange(o5, all.len() as int) =~= s5);
    lemma_parse_at_suffix(all, o5, service_id, s6);
}

/// Appends the encodings of the operands of `ClearExtTimer`.
fn write_clear_ext_timer(day_of_month: &DayOfMonth, month_of_year: &MonthOfYear, start_time: &Time, duration: &Duration, recording_sequence: &RecordingSequence, external_source: &ExternalSource, out: &mut Vec<u8>)
    ensures
        final(out)@ == old(out)@ + (day_of_month.spec_bytes() + month_of_year.spec_bytes() + start_time.spec_bytes() + duration.spec_bytes() + recording_sequence.spec_bytes() + external_source.spec_bytes()),
{
    OperandEncodable::to_bytes(day_of_month, out);
    OperandEncodable::to_bytes(month_of_year, out);
    OperandEncodable::to_bytes(start_time, out);
    OperandEncodable::to_bytes(duration, out);
    OperandEncodable::to_bytes(recording_sequence, out);
    OperandEncodable::to_bytes(external_source, out);
    proof {
        assert(final(out)@ =~= old(out)@ + (day_of_month.spec_bytes() + month_of_year.spec_bytes() + start_time.spec_bytes() + duration.spec_bytes() + recording_sequence.spec_bytes() + external_source.spec_bytes()));
    }
}

/// Decodes the operands of `ClearExtTimer` from `bytes`, whose first byte is its opcode.
pub open spec fn parse_clear_ext_timer(bytes: Seq<u8>) -> Result<Message, ErrorView> {
    match parse_at::<DayOfMonth>(bytes, 1) {
        Err(e) => Err(e),
        Ok(day_of_month) => {
            let off1: int = (1 + day_of_month.spec_bytes().len()) as int;
            match parse_at::<MonthOfYear>(bytes, off1) {
                Err(e) => Err(e),
                Ok(month_of_year) => {
                    let off2: int = (off1 + month_of_year.spec_bytes().len()) as int;
                    match parse_at::<Time>(bytes, off2) {
                        Err(e) => Err(e),
                        Ok(start_time) => {
                            let off3: int = (off2 + start_time.spec_bytes().len()) as int;
                            match parse_at::<Duration>(bytes, off3) {
                                Err(e) => Err(e),
                                Ok(duration) => {
                                    let off4: int = (off3 + duration.spec_bytes().len()) as int;
                                    match parse_at::<RecordingSequence>(bytes, off4) {
                                        Err(e) => Err(e),
                                        Ok(recording_sequence) => {
                                            let off5: int = (off4 + recording_sequence.spec_bytes().len()) as int;
                                            match parse_at::<ExternalSource>(bytes, off5) {
                                                Err(e) => Err(e),
                                                Ok(external_source) => {
                                                    Ok(Message::ClearExtTimer { day_of_month, month_of_year, start_time, duration, recording_sequence, external_source })
                                                },
                                            }
                                        },
                                    }
                                },
                            }
                        },
                    }
                },
            }
        },
    }
}

/// Decodes the operands of `ClearExtTimer` from `bytes`, whose first byte is its opcode.
fn read_clear_ext_timer(bytes: &[u8]) -> (r: Result<Message, Error>)
    requires
        bytes@.len() >= 1,
    ensures
        result_view(r) == parse_clear_ext_timer(bytes@),
{
    let off: usize = 1;
    let day_of_month = match parse_field::<DayOfMonth>(bytes, off) {
        Ok(v) => v,
        Err(e) => return Err(e),
    };
    let off = off + OperandEncodable::len(&day_of_month);
    let month_of_year = match parse_field::<MonthOfYear>(bytes, off) {
        Ok(v) => v,
        Err(e) => return Err(e),
    };
    let off = off + OperandEncodable::len(&month_of_year);
    let start_time = match parse_field::<Time>(bytes, off) {
        Ok(v) => v,
        Err(e) => return Err(e),
    };
    let off = off + OperandEncodable::len(&start_time);
    let duration = match parse_field::<Duration>(bytes, off) {
        Ok(v) => v,
        Err(e) => return Err(e),
    };
    let off = off + OperandEncodable::len(&duration);
    let recording_sequence = match parse_field::<RecordingSequence>(bytes, off) {
        Ok(v) => v,
        Err(e) => return Err(e),
    };
    let off = off + OperandEncodable::len(&recording_sequence);
    let external_source = match parse_field::<ExternalSource>(bytes, off) {
        Ok(v) => v,
        Err(e) => return Err(e),
    };
    Ok(Message::ClearExtTimer { day_of_month, month_of_year, start_time, duration, recording_sequence, external_source })
}

/// The encoding of `ClearExtTimer`, followed by `rest`, decodes back to it.
#[verifier::rlimit(60)]
proof fn lemma_fields_clear_ext_timer(day_of_month: DayOfMonth, month_of_year: MonthOfYear, start_time: Time, duration: Duration, recording_sequence: RecordingSequence, external_source: ExternalSource, rest: Seq<u8>)
    requires
        day_of_month.spec_wf(),
        month_of_year.spec_wf(),
        start_time.spec_wf(),
        duration.spec_wf(),
        recording_sequence.spec_wf(),
        external_source.spec_wf(),
        rest.len() == 0,
    ensures
        parse_clear_ext_timer(Message::ClearExtTimer { day_of_month, month_of_year, start_time, duration, recording_sequence, external_source }.spec_bytes() + rest) == Ok::<Message, ErrorView>(Message::ClearExtTimer { day_of_month, month_of_year, start_time, duration, recording_sequence, external_source }),
{
    let m = Message::ClearExtTimer { day_of_month, month_of_year, start_time, duration, recording_sequence, external_source };
    let all = m.spec_bytes() + rest;
    let s6 = rest;
    let s5 = external_source.spec_bytes() + s6;
    let s4 = recording_sequence.spec_bytes() + s5;
    let s3 = duration.spec_bytes() + s4;
    let s2 = start_time.spec_bytes() + s3;
    let s1 = month_of_year.spec_bytes() + s2;
    let s0 = day_of_month.spec_bytes() + s1;
    assert(all.subrange(1, all.len() as int) =~= s0);
    let o0: int = 1int;
    lemma_parse_at_suffix(all, o0, day_of_month, s1);
    let o1: int = (o0 + day_of_month.spec_bytes().len()) as int;
    assert(all.subrange(o1, all.len() as int) =~= s1);
    lemma_parse_at_suffix(all, o1, month_of_year, s2);
    let o2: int = (o1 + month_of_year.spec_bytes().len()) as int;
    assert(all.subrange(o2, all.len() as int) =~= s2);
    lemma_parse_at_suffix(all, o2, start_time, s3);
    let o3: int = (o2 + start_time.spec_bytes().len()) as int;
    assert(all.subrange(o3, all.len() as int) =~= s3);
    lemma_parse_at_suffix(all, o3, duration, s4);
    let o4: int = (o3 + duration.spec_bytes().len()) as int;
    assert(all.subrange(o4, all.len() as int) =~= s4);
    lemma_parse_at_suffix(all, o4, recording_sequence, s5);
    let o5: int = (o4 + recording_sequence.spec_bytes().len()) as int;
    assert(all.subrange(o5, all.len() as int) =~= s5);
    lemma_parse_at_suffix(all, o5, external_source, s6);
}

/// Appends the encodings of the operands of `SetAnalogueTimer`.
fn write_set_analogue_timer(day_of_month: &DayOfMonth, month_of_year: &MonthOfYear, start_time: &Time, duration: &Duration, recording_sequence: &RecordingSequence, service_id: &AnalogueServiceId, out: &mut Vec<u8>)
    ensures
        final(out)@ == old(out)@ + (day_of_month.spec_bytes() + month_of_year.spec_bytes() + start_time.spec_bytes() + duration.spec_bytes() + recording_sequence.spec_bytes() + service_id.spec_bytes()),
{
    OperandEncodable::to_bytes(day_of_month, out);
    OperandEncodable::to_bytes(month_of_year, out);
    OperandEncodable::to_bytes(start_time, out);
    OperandEncodable::to_bytes(duration, out);
    OperandEncodable::to_bytes(recording_sequence, out);
    OperandEncodable::to_bytes(service_id, out);
    proof {
        assert(final(out)@ =~= old(out)@ + (day_of_month.spec_bytes() + month_of_year.spec_bytes() + start_time.spec_bytes() + duration.spec_bytes() + recording_sequence.spec_bytes() + service_id.spec_bytes()));
    }
}

/// Decodes the operands of `SetAnalogueTimer` from `bytes`, whose first byte is its opcode.
pub open spec fn parse_set_analogue_timer(bytes: Seq<u8>) -> Result<Message, ErrorView> {
    match parse_at::<DayOfMonth>(bytes, 1) {
        Err(e) => Err(e),
        Ok(day_of_month) => {
            let off1: int = (1 + day_of_month.spec_bytes().len()) as int;
            match parse_at::<MonthOfYear>(bytes, off1) {
                Err(e) => Err(e),
                Ok(month_of_year) => {
                    let off2: int = (off1 + month_of_year.spec_bytes().len()) as int;
                    match parse_at::<Time>(bytes, off2) {
                        Err(e) => Err(e),
                        Ok(start_time) => {
                            let off3: int = (off2 + start_time.spec_bytes().len()) as int;
                            match parse_at::<Duration>(bytes, off3) {
                                Err(e) => Err(e),
                                Ok(duration) => {
                                    let off4: int = (off3 + duration.spec_bytes().len()) as int;
                                    match parse_at::<RecordingSequence>(bytes, off4) {
                                        Err(e) => Err(e),
                                        Ok(recording_sequence) => {
                                            let off5: int = (off4 + recording_sequence.spec_bytes().len()) as int;
                                            match parse_at::<AnalogueServiceId>(bytes, off5) {
                                                Err(e) => Err(e),
                                                Ok(service_id) => {
                                                    Ok(Message::SetAnalogueTimer { day_of_month, month_of_year, start_time, duration, recording_sequence, service_id })
                                                },
                                            }
                                        },
                                    }
                                },
                            }
                        },
                    }
                },
            }
        },
    }
}

/// Decodes the operands of `SetAnalogueTimer` from `bytes`, whose first byte is its opcode.
fn read_set_analogue_timer(bytes: &[u8]) -> (r: Result<Message, Error>)
    requires
        bytes@.len() >= 1,
    ensures
        result_view(r) == parse_set_analogue_timer(bytes@),
{
    let off: usize = 1;
    let day_of_month = match parse_field::<DayOfMonth>(bytes, off) {
        Ok(v) => v,
        Err(e) => return Err(e),
    };
    let off = off + OperandEncodable::len(&day_of_month);
    let month_of_year = match parse_field::<MonthOfYear>(bytes, off) {
        Ok(v) => v,
        Err(e) => return Err(e),
    };
    let off = off + OperandEncodable::len(&month_of_year);
    let start_time = match parse_field::<Time>(bytes, off) {
        Ok(v) => v,
        Err(e) => return Err(e),
    };
    let off = off + OperandEncodable::len(&start_time);
    let duration = match parse_field::<Duration>(bytes, off) {
        Ok(v) => v,
        Err(e) => return Err(e),
    };
    let off = off + OperandEncodable::len(&duration);
    let recording_sequence = match parse_field::<RecordingSequence>(bytes, off) {
        Ok(v) => v,
        Err(e) => return Err(e),
    };
    let off = off + OperandEncodable::len(&recording_sequence);
    let service_id = match parse_field::<AnalogueServiceId>(bytes, off) {
        Ok(v) => v,
        Err(e) => return Err(e),
    };
    Ok(Message::SetAnalogueTimer { day_of_month, month_of_year, start_time, duration, recording_sequence, service_id })
}

/// The encoding of `SetAnalogueTimer`, followed by `rest`, decodes back to it.
#[verifier::rlimit(60)]
proof fn lemma_fields_set_analogue_timer(day_of_month: DayOfMonth, month_of_year: MonthOfYear, start_time: Time, duration: Duration, recording_sequence: RecordingSequence, service_id: AnalogueServiceId, rest: Seq<u8>)
    requires
        day_of_month.spec_wf(),
        month_of_year.spec_wf(),
        start_time.spec_wf(),
        duration.spec_wf(),
        recording_sequence.spec_wf(),
        service_id.spec_wf(),
    ensures
        parse_set_analogue_timer(Message::SetAnalogueTimer { day_of_month, month_of_year, start_time, duration, recording_sequence, service_id }.spec_bytes() + rest) == Ok::<Message, ErrorView>(Message::SetAnalogueTimer { day_of_month, month_of_year, start_time, duration, recording_sequence, service_id }),
{
    let m = Message::SetAnalogueTimer { day_of_month, month_of_year, start_time, duration, recording_sequence, service_id };
    let all = m.spec_bytes() + rest;
    let s6 = rest;
    let s5 = service_id.spec_bytes() + s6;
    let s4 = recording_sequence.spec_bytes() + s5;
    let s3 = duration.spec_bytes() + s4;
    let s2 = start_time.spec_bytes() + s3;
    let s1 = month_of_year.spec_bytes() + s2;
    let s0 = day_of_month.spec_bytes() + s1;
    assert(all.subrange(1, all.len() as int) =~= s0);
    let o0: int = 1int;
    lemma_parse_at_suffix(all, o0, day_of_month, s1);
    let o1: int = (o0 + day_of_month.spec_bytes().len()) as int;
    assert(all.subrange(o1, all.len() as int) =~= s1);
    lemma_parse_at_suffix(all, o1, month_of_year, s2);
    let o2: int = (o1 + month_of_year.spec_bytes().len()) as int;
    assert(all.subrange(o2, all.len() as int) =~= s2);
    lemma_parse_at_suffix(all, o2, start_time, s3);
    let o3: int = (o2 + start_time.spec_bytes().len()) as int;
    assert(all.subrange(o3, all.len() as int) =~= s3);
    lemma_parse_at_suffix(all, o3, duration, s4);
    let o4: int = (o3 + duration.spec_bytes().len()) as int;
    assert(all.subrange(o4, all.len() as int) =~= s4);
    lemma_parse_at_suffix(all, o4, recording_sequence, s5);
    let o5: int = (o4 + recording_sequence.spec_bytes().len()) as int;
    assert(all.subrange(o5, all.len() as int) =~= s5);
    lemma_parse_at_suffix(all, o5, service_id, s6);
}

/// Appends the encodings of the operands of `SetDigitalTimer`.
fn write_set_digital_timer(day_of_month: &DayOfMonth, month_of_year: &MonthOfYear, start_time: &Time, duration: &Duration, recording_sequence: &RecordingSequence, service_id: &DigitalServiceId, out: &mut Vec<u8>)
    ensures
        final(out)@ == old(out)@ + (day_of_month.spec_bytes() + month_of_year.spec_bytes() + start_time.spec_bytes() + duration.spec_bytes() + recording_sequence.spec_bytes() + service_id.spec_bytes()),
{
    OperandEncodable::to_bytes(day_of_month, out);
    OperandEncodable::to_bytes(month_of_year, out);
    OperandEncodable::to_bytes(start_time, out);
    OperandEncodable::to_bytes(duration, out);
    OperandEncodable::to_bytes(recording_sequence, out);
    OperandEncodable::to_bytes(service_id, out);
    proof {
        assert(final(out)@ =~= old(out)@ + (day_of_month.spec_bytes() + month_of_year.spec_bytes() + start_time.spec_bytes() + duration.spec_bytes() + recording_sequence.spec_bytes() + service_id.spec_bytes()));
    }
}

/// Decodes the operands of `SetDigitalTimer` from `bytes`, whose first byte is its opcode.
pub open spec fn parse_set_digital_timer(bytes: Seq<u8>) -> Result<Message, ErrorView> {
    match parse_at::<DayOfMonth>(bytes, 1) {
        Err(e) => Err(e),
        Ok(day_of_month) => {
            let off1: int = (1 + day_of_month.spec_bytes().len()) as int;
            match parse_at::<MonthOfYear>(bytes, off1) {
                Err(e) => Err(e),
                Ok(month_of_year) => {
                    let off2: int = (off1 + month_of_year.spec_bytes().len()) as int;
                    match parse_at::<Time>(bytes, off2) {
                        Err(e) => Err(e),
                        Ok(start_time) => {
                            let off3: int = (off2 + start_time.spec_bytes().len()) as int;
                            match parse_at::<Duration>(bytes, off3) {
                                Err(e) => Err(e),
                                Ok(duration) => {
                                    let off4: int = (off3 + duration.spec_bytes().len()) as int;
                                    match parse_at::<RecordingSequence>(bytes, off4) {
                                        Err(e) => Err(e),
                                        Ok(recording_sequence) => {
                                            let off5: int = (off4 + recording_sequence.spec_bytes().len()) as int;
                                            match parse_at::<DigitalServiceId>(bytes, off5) {
                                                Err(e) => Err(e),
                                                Ok(service_id) => {
                                                    Ok(Message::SetDigitalTimer { day_of_month, month_of_year, start_time, duration, recording_sequence, service_id })
                                                },
                                            }
                                        },
                                    }
                                },
                            }
                        },
                    }
                },
            }
        },
    }
}

/// Decodes the operands of `SetDigitalTimer` from `bytes`, whose first byte is its opcode.
fn read_set_digital_timer(bytes: &[u8]) -> (r: Result<Message, Error>)
    requires
        bytes@.len() >= 1,
    ensures
        result_view(r) == parse_set_digital_timer(bytes@),
{
    let off: usize = 1;
    let day_of_month = match parse_field::<DayOfMonth>(bytes, off) {
        Ok(v) => v,
        Err(e) => return Err(e),
    };
    let off = off + OperandEncodable::len(&day_of_month);
    let month_of_year = match parse_field::<MonthOfYear>(bytes, off) {
        Ok(v) => v,
        Err(e) => return Err(e),
    };
    let off = off + OperandEncodable::len(&month_of_year);
    let start_time = match parse_field::<Time>(bytes, off) {
        Ok(v) => v,
        Err(e) => return Err(e),
    };
    let off = off + OperandEncodable::len(&start_time);
    let duration = match parse_field::<Duration>(bytes, off) {
        Ok(v) => v,
        Err(e) => return Err(e),
    };
    let off = off + OperandEncodable::len(&duration);
    let recording_sequence = match parse_field::<RecordingSequence>(bytes, off) {
        Ok(v) => v,
        Err(e) => return Err(e),
    };
    let off = off + OperandEncodable::len(&recording_sequence);
    let service_id = match parse_field::<DigitalServiceId>(bytes, off) {
        Ok(v) => v,
        Err(e) => return Err(e),
    };
    Ok(Message::SetDigitalTimer { day_of_month, month_of_year, start_time, duration, recording_sequence, service_id })
}

/// The encoding of `SetDigitalTimer`, followed by `rest`, decodes back to it.
#[verifier::rlimit(60)]
proof fn lemma_fields_set_digital_timer(day_of_month: DayOfMonth, month_of_year: MonthOfYear, start_time: Time, duration: Duration, recording_sequence: RecordingSequence, service_id: DigitalServiceId, rest: Seq<u8>)
    requires
        day_of_month.spec_wf(),
        month_of_year.spec_wf(),
        start_time.spec_wf(),
        duration.spec_wf(),
        recording_sequence.spec_wf(),
        service_id.spec_wf(),
    ensures
        parse_set_digital_timer(Message::SetDigitalTimer { day_of_month, month_of_year, start_time, duration, recording_sequence, service_id }.spec_bytes() + rest) == Ok::<Message, ErrorView>(Message::SetDigitalTimer { day_of_month, month_of_year, start_time, duration, recording_sequence, service_id }),
{
    let m = Message::SetDigitalTimer { day_of_month, month_of_year, start_time, duration, recording_sequence, service_id };
    let all = m.spec_bytes() + rest;
    let s6 = rest;
    let s5 = service_id.spec_bytes() + s6;
    let s4 = recording_sequence.spec_bytes() + s5;
    let s3 = duration.spec_bytes() + s4;
    let s2 = start_time.spec_bytes() + s3;
    let s1 = month_of_year.spec_bytes() + s2;
    let s0 = day_of_month.spec_bytes() + s1;
    assert(all.subrange(1, all.len() as int) =~= s0);
    let o0: int = 1int;
    lemma_parse_at_suffix(all, o0, day_of_month, s1);
    let o1: int = (o0 + day_of_month.spec_bytes().len()) as int;
    assert(all.subrange(o1, all.len() as int) =~= s1);
    lemma_parse_at_suffix(all, o1, month_of_year, s2);
    let o2: int = (o1 + month_of_year.spec_bytes().len()) as int;
    assert(all.subrange(o2, all.len() as int) =~= s2);
    lemma_parse_at_suffix(all, o2, start_time, s3);
    let o3: int = (o2 + start_time.spec_bytes().len()) as int;
    assert(all.subrange(o3, all.len() as int) =~= s3);
    lemma_parse_at_suffix(all, o3, duration, s4);
    let o4: int = (o3 + duration.spec_bytes().len()) as int;
    assert(all.subrange(o4, all.len() as int) =~= s4);
    lemma_parse_at_suffix(all, o4, recording_sequence, s5);
    let o5: int = (o4 + recording_sequence.spec_bytes().len()) as int;
    assert(all.subrange(o5, all.len() as int) =~= s5);
    lemma_parse_at_suffix(all, o5, service_id, s6);
}

/// Appends the encodings of the operands of `SetExtTimer`.
fn write_set_ext_timer(day_of_month: &DayOfMonth, month_of_year: &MonthOfYear, start_time: &Time, duration: &Duration, recording_sequence: &RecordingSequence, external_source: &ExternalSource, out: &mut Vec<u8>)
    ensures
        final(out)@ == old(out)@ + (day_of_month.spec_bytes() + month_of_year.spec_bytes() + start_time.spec_bytes() + duration.spec_bytes() + recording_sequence.spec_bytes() + external_source.spec_bytes()),
{
    OperandEncodable::to_bytes(day_of_month, out);
    OperandEncodable::to_bytes(month_of_year, out);
    OperandEncodable::to_bytes(start_time, out);
    OperandEncodable::to_bytes(duration, out);
    OperandEncodable::to_bytes(recording_sequence, out);
    OperandEncodable::to_bytes(external_source, out);
    proof {
        assert(final(out)@ =~= old(out)@ + (day_of_month.spec_bytes() + month_of_year.spec_bytes() + start_time.spec_bytes() + duration.spec_bytes() + recording_sequence.spec_bytes() + external_source.spec_bytes()));
    }
}

/// Decodes the operands of `SetExtTimer` from `bytes`, whose first byte is its opcode.
pub open spec fn parse_set_ext_timer(bytes: Seq<u8>) -> Result<Message, ErrorView> {
    match parse_at::<DayOfMonth>(bytes, 1) {
        Err(e) => Err(e),
        Ok(day_of_month) => {
            let off1: int = (1 + day_of_month.spec_bytes().len()) as int;
            match parse_at::<MonthOfYear>(bytes, off1) {
                Err(e) => Err(e),
                Ok(month_of_year) => {
                    let off2: int = (off1 + month_of_year.spec_bytes().len()) as int;
                    match parse_at::<Time>(bytes, off2) {
                        Err(e) => Err(e),
                        Ok(start_time) => {
                            let off3: int = (off2 + start_time.spec_bytes().len()) as int;
                            match parse_at::<Duration>(bytes, off3) {
                                Err(e) => Err(e),
                                Ok(duration) => {
                                    let off4: int = (off3 + duration.spec_bytes().len()) as int;
                                    match parse_at::<RecordingSequence>(bytes, off4) {
                                        Err(e) => Err(e),
                                        Ok(recording_sequence) => {
                                            let off5: int = (off4 + recording_sequence.spec_bytes().len()) as int;
                                            match parse_at::<ExternalSource>(bytes, off5) {
                                                Err(e) => Err(e),
                                                Ok(external_source) => {
                                                    Ok(Message::SetExtTimer { day_of_month, month_of_year, start_time, duration, recording_sequence, external_source })
                                                },
                                            }
                                        },
                                    }
                                },
                            }
                        },
                    }
                },
            }
        },
    }
}

/// Decodes the operands of `SetExtTimer` from `bytes`, whose first byte is its opcode.
fn read_set_ext_timer(bytes: &[u8]) -> (r: Result<Message, Error>)
    requires
        bytes@.len() >= 1,
    ensures
        result_view(r) == parse_set_ext_timer(bytes@),
{
    let off: usize = 1;
    let day_of_month = match parse_field::<DayOfMonth>(bytes, off) {
        Ok(v) => v,
        Err(e) => return Err(e),
    };
    let off = off + OperandEncodable::len(&day_of_month);
    let month_of_year = match parse_field::<MonthOfYear>(bytes, off) {
        Ok(v) => v,
        Err(e) => return Err(e),
    };
    let off = off + OperandEncodable::len(&month_of_year);
    let start_time = match parse_field::<Time>(bytes, off) {
        Ok(v) => v,
        Err(e) => return Err(e),
    };
    let off = off + OperandEncodable::len(&start_time);
    let duration = match parse_field::<Duration>(bytes, off) {
        Ok(v) => v,
        Err(e) => return Err(e),
    };
    let off = off + OperandEncodable::len(&duration);
    let recording_sequence = match parse_field::<RecordingSequence>(bytes, off) {
        Ok(v) => v,
        Err(e) => return Err(e),
    };
    let off = off + OperandEncodable::len(&recording_sequence);
    let external_source = match parse_field::<ExternalSource>(bytes, off) {
        Ok(v) => v,
        Err(e) => return Err(e),
    };
    Ok(Message::SetExtTimer { day_of_month, month_of_year, start_time, duration, recording_sequence, external_source })
}

/// The encoding of `SetExtTimer`, followed by `rest`, decodes back to it.
#[verifier::rlimit(60)]
proof fn lemma_fields_set_ext_timer(day_of_month: DayOfMonth, month_of_year: MonthOfYear, start_time: Time, duration: Duration, recording_sequence: RecordingSequence, external_source: ExternalSource, rest: Seq<u8>)
    requires
        day_of_month.spec_wf(),
        month_of_year.spec_wf(),
        start_time.spec_wf(),
        duration.spec_wf(),
        recording_sequence.spec_wf(),
        external_source.spec_wf(),
        rest.len() == 0,
    ensures
        parse_set_ext_timer(Message::SetExtTimer { day_of_month, month_of_year, start_time, duration, recording_sequence, external_source }.spec_bytes() + rest) == Ok::<Message, ErrorView>(Message::SetExtTimer { day_of_month, month_of_year, start_time, duration, recording_sequence, external_source }),
{
    let m = Message::SetExtTimer { day_of_month, month_of_year, start_time, duration, recording_sequence, external_source };
    let all = m.spec_bytes() + rest;
    let s6 = rest;
    let s5 = external_source.spec_bytes() + s6;
    let s4 = recording_sequence.spec_bytes() + s5;
    let s3 = duration.spec_bytes() + s4;
    let s2 = start_time.spec_bytes() + s3;
    let s1 = month_of_year.spec_bytes() + s2;
    let s0 = day_of_month.spec_bytes() + s1;
    assert(all.subrange(1, all.len() as int) =~= s0);
    let o0: int = 1int;
    lemma_parse_at_suffix(all, o0, day_of_month, s1);
    let o1: int = (o0 + day_of_month.spec_bytes().len()) as int;
    assert(all.subrange(o1, all.len() as int) =~= s1);
    lemma_parse_at_suffix(all, o1, month_of_year, s2);
    let o2: int = (o1 + month_of_year.spec_bytes().len()) as int;
    assert(all.subrange(o2, all.len() as int) =~= s2);
    lemma_parse_at_suffix(all, o2, start_time, s3);
    let o3: int = (o2 + start_time.spec_bytes().len()) as int;
    assert(all.subrange(o3, all.len() as int) =~= s3);
    lemma_parse_at_suffix(all, o3, duration, s4);
    let o4: int = (o3 + duration.spec_bytes().len()) as int;
    assert(all.subrange(o4, all.len() as int) =~= s4);
    lemma_parse_at_suffix(all, o4, recording_sequence, s5);
    let o5: int = (o4 + recording_sequence.spec_bytes().len()) as int;
    assert(all.subrange(o5, all.len() as int) =~= s5);
    lemma_parse_at_suffix(all, o5, external_source, s6);
}

/// Appends the encodings of the operands of `SetTimerProgramTitle`.
fn write_set_timer_program_title(title: &BufferOperand, out: &mut Vec<u8>)
    ensures
        final(out)@ == old(out)@ + (title.spec_bytes()),
{
    OperandEncodable::to_bytes(title, out);
    proof {
        assert(final(out)@ =~= old(out)@ + (title.spec_bytes()));
    }
}

/// Decodes the operands of `SetTimerProgramTitle` from `bytes`, whose first byte is its opcode.
pub open spec fn parse_set_timer_program_title(bytes: Seq<u8>) -> Result<Message, ErrorView> {
    match parse_at::<BufferOperand>(bytes, 1) {
        Err(e) => Err(e),
        Ok(title) => {
            Ok(Message::SetTimerProgramTitle { title })
        },
    }
}

/// Decodes the operands of `SetTimerProgramTitle` from `bytes`, whose first byte is its opcode.
fn read_set_timer_program_title(bytes: &[u8]) -> (r: Result<Message, Error>)
    requires
        bytes@.len() >= 1,
    ensures
        result_view(r) == parse_set_timer_program_title(bytes@),
{
    let off: usize = 1;
    let title = match parse_field::<BufferOperand>(bytes, off) {
        Ok(v) => v,
        Err(e) => return Err(e),
    };
    Ok(Message::SetTimerProgramTitle { title })
}

/// The encoding of `SetTimerProgramTitle`, followed by `rest`, decodes back to it.
proof fn lemma_fields_set_timer_program_title(title: BufferOperand, rest: Seq<u8>)
    requires
        title.spec_wf(),
        rest.len() == 0,
    ensures
        parse_set_timer_program_title(Message::SetTimerProgramTitle { title }.spec_bytes() + rest) == Ok::<Message, ErrorView>(Message::SetTimerProgramTitle { title }),
{
    let m = Message::SetTimerProgramTitle { title };
    let all = m.spec_bytes() + rest;
    let s1 = rest;
    let s0 = title.spec_bytes() + s1;
    assert(all.subrange(1, all.len() as int) =~= s0);
    let o0: int = 1int;
    lemma_parse_at_suffix(all, o0, title, s1);
}

/// Appends the encodings of the operands of `TimerClearedStatus`.
fn write_timer_cleared_status(status: &TimerClearedStatusData, out: &mut Vec<u8>)
    ensures
        final(out)@ == old(out)@ + (status.spec_bytes()),
{
    OperandEncodable::to_bytes(status, out);
    proof {
        assert(final(out)@ =~= old(out)@ + (status.spec_bytes()));
    }
}

/// Decodes the operands of `TimerClearedStatus` from `bytes`, whose first byte is its opcode.
pub open spec fn parse_timer_cleared_status(bytes: Seq<u8>) -> Result<Message, ErrorView> {
    match parse_at::<TimerClearedStatusData>(bytes, 1) {
        Err(e) => Err(e),
        Ok(status) => {
            Ok(Message::TimerClearedStatus { status })
        },
    }
}

/// Decodes the operands of `TimerClearedStatus` from `bytes`, whose first byte is its opcode.
fn read_timer_cleared_status(bytes: &[u8]) -> (r: Result<Message, Error>)
    requires
        bytes@.len() >= 1,
    ensures
        result_view(r) == parse_timer_cleared_status(bytes@),
{
    let off: usize = 1;
    let status = match parse_field::<TimerClearedStatusData>(bytes, off) {
        Ok(v) => v,
        Err(e) => return Err(e),
    };
    Ok(Message::TimerClearedStatus { status })
}

/// The encoding of `TimerClearedStatus`, followed by `rest`, decodes back to it.
proof fn lemma_fields_timer_cleared_status(status: TimerClearedStatusData, rest: Seq<u8>)
    requires
        status.spec_wf(),
    ensures
        parse_timer_cleared_status(Message::TimerClearedStatus { status }.spec_bytes() + rest) == Ok::<Message, ErrorView>(Message::TimerClearedStatus { status }),
{
    let m = Message::TimerClearedStatus { status };
    let all = m.spec_bytes() + rest;
    let s1 = rest;
    let s0 = status.spec_bytes() + s1;
    assert(all.subrange(1, all.len() as int) =~= s0);
    let o0: int = 1int;
    lemma_parse_at_suffix(all, o0, status, s1);
}

/// Appends the encodings of the operands of `TimerStatus`.
fn write_timer_status(status: &TimerStatusData, out: &mut Vec<u8>)
    ensures
        final(out)@ == old(out)@ + (status.spec_bytes()),
{
    OperandEncodable::to_bytes(status, out);
    proof {
        assert(final(out)@ =~= old(out)@ + (status.spec_bytes()));
    }
}

/// Decodes the operands of `TimerStatus` from `bytes`, whose first byte is its opcode.
pub open spec fn parse_timer_status(bytes: Seq<u8>) -> Result<Message, ErrorView> {
    match parse_at::<TimerStatusData>(bytes, 1) {
        Err(e) => Err(e),
        Ok(status) => {
            Ok(Message::TimerStatus { status })
        },
    }
}

/// Decodes the operands of `TimerStatus` from `bytes`, whose first byte is its opcode.
fn read_timer_status(bytes: &[u8]) -> (r: Result<Message, Error>)
    requires
        bytes@.len() >= 1,
    ensures
        result_view(r) == parse_timer_status(bytes@),
{
    let off: usize = 1;
    let status = match parse_field::<TimerStatusData>(bytes, off) {
        Ok(v) => v,
        Err(e) => return Err(e),
    };
    Ok(Message::TimerStatus { status })
}

/// The encoding of `TimerStatus`, followed by `rest`, decodes back to it.
proof fn lemma_fields_timer_status(status: TimerStatusData, rest: Seq<u8>)
    requires
        status.spec_wf(),
        rest.len() == 0,
    ensures
        parse_timer_status(Message::TimerStatus { status }.spec_bytes() + rest) == Ok::<Message, ErrorView>(Message::TimerStatus { status }),
{
    let m = Message::TimerStatus { status };
    let all = m.spec_bytes() + rest;
    let s1 = rest;
    let s0 = status.spec_bytes() + s1;
    assert(all.subrange(1, all.len() as int) =~= s0);
    let o0: int = 1int;
    lemma_parse_at_suffix(all, o0, status, s1);
}

/// Appends the encodings of the operands of `CecVersion`.
fn write_cec_version(version: &Version, out: &mut Vec<u8>)
    ensures
        final(out)@ == old(out)@ + (version.spec_bytes()),
{
    OperandEncodable::to_bytes(version, out);
    proof {
        assert(final(out)@ =~= old(out)@ + (version.spec_bytes()));
    }
}

/// Decodes the operands of `CecVersion` from `bytes`, whose first byte is its opcode.
pub open spec fn parse_cec_version(bytes: Seq<u8>) -> Result<Message, ErrorView> {
    match parse_at::<Version>(bytes, 1) {
        Err(e) => Err(e),
        Ok(version) => {
            Ok(Message::CecVersion { version })
        },
    }
}

/// Decodes the operands of `CecVersion` from `bytes`, whose first byte is its opcode.
fn read_cec_version(bytes: &[u8]) -> (r: Result<Message, Error>)
    requires
        bytes@.len() >= 1,
    ensures
        result_view(r) == parse_cec_version(bytes@),
{
    let off: usize = 1;
    let version = match parse_field::<Version>(bytes, off) {
        Ok(v) => v,
        Err(e) => return Err(e),
    };
    Ok(Message::CecVersion { version })
}

/// The encoding of `CecVersion`, followed by `rest`, decodes back to it.
proof fn lemma_fields_cec_version(version: Version, rest: Seq<u8>)
    requires
        version.spec_wf(),
    ensures
        parse_cec_version(Message::CecVersion { version }.spec_bytes() + rest) == Ok::<Message, ErrorView>(Message::CecVersion { version }),
{
    let m = Message::CecVersion { version };
    let all = m.spec_bytes() + rest;
    let s1 = rest;
    let s0 = version.spec_bytes() + s1;
    assert(all.subrange(1, all.len() as int) =~= s0);
    let o0: int = 1int;
    lemma_parse_at_suffix(all, o0, version, s1);
}

/// Appends the encodings of the operands of `ReportPhysicalAddr`.
fn write_report_physical_addr(physical_address: &PhysicalAddress, device_type: &PrimaryDeviceType, out: &mut Vec<u8>)
    ensures
        final(out)@ == old(out)@ + (physical_address.spec_bytes() + device_type.spec_bytes()),
{
    OperandEncodable::to_bytes(physical_address, out);
    OperandEncodable::to_bytes(device_type, out);
    proof {
        assert(final(out)@ =~= old(out)@ + (physical_address.spec_bytes() + device_type.spec_bytes()));
    }
}

/// Decodes the operands of `ReportPhysicalAddr` from `bytes`, whose first byte is its opcode.
pub open spec fn parse_report_physical_addr(bytes: Seq<u8>) -> Result<Message, ErrorView> {
    match parse_at::<PhysicalAddress>(bytes, 1) {
        Err(e) => Err(e),
        Ok(physical_address) => {
            let off1: int = (1 + physical_address.spec_bytes().len()) as int;
            match parse_at::<PrimaryDeviceType>(bytes, off1) {
                Err(e) => Err(e),
                Ok(device_type) => {
                    Ok(Message::ReportPhysicalAddr { physical_address, device_type })
                },
            }
        },
    }
}

/// Decodes the operands of `ReportPhysicalAddr` from `bytes`, whose first byte is its opcode.
fn read_report_physical_addr(bytes: &[u8]) -> (r: Result<Message, Error>)
    requires
        bytes@.len() >= 1,
    ensures
        result_view(r) == parse_report_physical_addr(bytes@),
{
    let off: usize = 1;
    let physical_address = match parse_field::<PhysicalAddress>(bytes, off) {
        Ok(v) => v,
        Err(e) => return Err(e),
    };
    let off = off + OperandEncodable::len(&physical_address);
    let device_type = match parse_field::<PrimaryDeviceType>(bytes, off) {
        Ok(v) => v,
        Err(e) => return Err(e),
    };
    Ok(Message::ReportPhysicalAddr { physical_address, device_type })
}

/// The encoding of `ReportPhysicalAddr`, followed by `rest`, decodes back to it.
proof fn lemma_fields_report_physical_addr(physical_address: PhysicalAddress, device_type: PrimaryDeviceType, rest: Seq<u8>)
    requires
        physical_address.spec_wf(),
        device_type.spec_wf(),
    ensures
        parse_report_physical_addr(Message::ReportPhysicalAddr { physical_address, device_type }.spec_bytes() + rest) == Ok::<Message, ErrorView>(Message::ReportPhysicalAddr { physical_address, device_type }),
{
    let m = Message::ReportPhysicalAddr { physical_address, device_type };
    let all = m.spec_bytes() + rest;
    let s2 = rest;
    let s1 = device_type.spec_bytes() + s2;
    let s0 = physical_address.spec_bytes() + s1;
    assert(all.subrange(1, all.len() as int) =~= s0);
    let o0: int = 1int;
    lemma_parse_at_suffix(all, o0, physical_address, s1);
    let o1: int = (o0 + physical_address.spec_bytes().len()) as int;
    assert(all.subrange(o1, all.len() as int) =~= s1);
    lemma_parse_at_suffix(all, o1, device_type, s2);
}

/// Appends the encodings of the operands of `SetMenuLanguage`.
fn write_set_menu_language(language: &[u8; 3], out: &mut Vec<u8>)
    ensures
        final(out)@ == old(out)@ + (language.spec_bytes()),
{
    OperandEncodable::to_bytes(language, out);
    proof {
        assert(final(out)@ =~= old(out)@ + (language.spec_bytes()));
    }
}

/// Decodes the operands of `SetMenuLanguage` from `bytes`, whose first byte is its opcode.
pub open spec fn parse_set_menu_language(bytes: Seq<u8>) -> Result<Message, ErrorView> {
    match parse_at::<[u8; 3]>(bytes, 1) {
        Err(e) => Err(e),
        Ok(language) => {
            Ok(Message::SetMenuLanguage { language })
        },
    }
}

/// Decodes the operands of `SetMenuLanguage` from `bytes`, whose first byte is its opcode.
fn read_set_menu_language(bytes: &[u8]) -> (r: Result<Message, Error>)
    requires
        bytes@.len() >= 1,
    ensures
        result_view(r) == parse_set_menu_language(bytes@),
{
    let off: usize = 1;
    let language = match parse_field::<[u8; 3]>(bytes, off) {
        Ok(v) => v,
        Err(e) => return Err(e),
    };
    Ok(Message::SetMenuLanguage { language })
}

/// The encoding of `SetMenuLanguage`, followed by `rest`, decodes back to it.
proof fn lemma_fields_set_menu_language(language: [u8; 3], rest: Seq<u8>)
    requires
        language.spec_wf(),
    ensures
        parse_set_menu_language(Message::SetMenuLanguage { language }.spec_bytes() + rest) == Ok::<Message, ErrorView>(Message::SetMenuLanguage { language }),
{
    let m = Message::SetMenuLanguage { language };
    let all = m.spec_bytes() + rest;
    let s1 = rest;
    let s0 = language.spec_bytes() + s1;
    assert(all.subrange(1, all.len() as int) =~= s0);
    let o0: int = 1int;
    lemma_parse_at_suffix(all, o0, language, s1);
}

/// Appends the encodings of the operands of `DeckControl`.
fn write_deck_control(mode: &DeckControlMode, out: &mut Vec<u8>)
    ensures
        final(out)@ == old(out)@ + (mode.spec_bytes()),
{
    OperandEncodable::to_bytes(mode, out);
    proof {
        assert(final(out)@ =~= old(out)@ + (mode.spec_bytes()));
    }
}

/// Decodes the operands of `DeckControl` from `bytes`, whose first byte is its opcode.
pub open spec fn parse_deck_control(bytes: Seq<u8>) -> Result<Message, ErrorView> {
    match parse_at::<DeckControlMode>(bytes, 1) {
        Err(e) => Err(e),
        Ok(mode) => {
            Ok(Message::DeckControl { mode })
        },
    }
}

/// Decodes the operands of `DeckControl` from `bytes`, whose first byte is its opcode.
fn read_deck_control(bytes: &[u8]) -> (r: Result<Message, Error>)
    requires
        bytes@.len() >= 1,
    ensures
        result_view(r) == parse_deck_control(bytes@),
{
    let off: usize = 1;
    let mode = match parse_field::<DeckControlMode>(bytes, off) {
        Ok(v) => v,
        Err(e) => return Err(e),
    };
    Ok(Message::DeckControl { mode })
}

/// The encoding of `DeckControl`, followed by `rest`, decodes back to it.
proof fn lemma_fields_deck_control(mode: DeckControlMode, rest: Seq<u8>)
    requires
        mode.spec_wf(),
    ensures
        parse_deck_control(Message::DeckControl { mode }.spec_bytes() + rest) == Ok::<Message, ErrorView>(Message::DeckControl { mode }),
{
    let m = Message::DeckControl { mode };
    let all = m.spec_bytes() + rest;
    let s1 = rest;
    let s0 = mode.spec_bytes() + s1;
    assert(all.subrange(1, all.len() as int) =~= s0);
    let o0: int = 1int;
    lemma_parse_at_suffix(all, o0, mode, s1);
}

/// Appends the encodings of the operands of `DeckStatus`.
fn write_deck_status(info: &DeckInfo, out: &mut Vec<u8>)
    ensures
        final(out)@ == old(out)@ + (info.spec_bytes()),
{
    OperandEncodable::to_bytes(info, out);
    proof {
        assert(final(out)@ =~= old(out)@ + (info.spec_bytes()));
    }
}

/// Decodes the operands of `DeckStatus` from `bytes`, whose first byte is its opcode.
pub open spec fn parse_deck_status(bytes: Seq<u8>) -> Result<Message, ErrorView> {
    match parse_at::<DeckInfo>(bytes, 1) {
        Err(e) => Err(e),
        Ok(info) => {
            Ok(Message::DeckStatus { info })
        },
    }
}

/// Decodes the operands of `DeckStatus` from `bytes`, whose first byte is its opcode.
fn read_deck_status(bytes: &[u8]) -> (r: Result<Message, Error>)
    requires
        bytes@.len() >= 1,
    ensures
        result_view(r) == parse_deck_status(bytes@),
{
    let off: usize = 1;
    let info = match parse_field::<DeckInfo>(bytes, off) {
        Ok(v) => v,
        Err(e) => return Err(e),
    };
    Ok(Message::DeckStatus { info })
}

/// The encoding of `DeckStatus`, followed by `rest`, decodes back to it.
proof fn lemma_fields_deck_status(info: DeckInfo, rest: Seq<u8>)
    requires
        info.spec_wf(),
    ensures
        parse_deck_status(Message::DeckStatus { info }.spec_bytes() + rest) == Ok::<Message, ErrorView>(Message::DeckStatus { info }),
{
    let m = Message::DeckStatus { info };
    let all = m.spec_bytes() + rest;
    let s1 = rest;
    let s0 = info.spec_bytes() + s1;
    assert(all.subrange(1, all.len() as int) =~= s0);
    let o0: int = 1int;
    lemma_parse_at_suffix(all, o0, info, s1);
}

/// Appends the encodings of the operands of `GiveDeckStatus`.
fn write_give_deck_status(request: &StatusRequest, out: &mut Vec<u8>)
    ensures
        final(out)@ == old(out)@ + (request.spec_bytes()),
{
    OperandEncodable::to_bytes(request, out);
    proof {
        assert(final(out)@ =~= old(out)@ + (request.spec_bytes()));
    }
}

/// Decodes the operands of `GiveDeckStatus` from `bytes`, whose first byte is its opcode.
pub open spec fn parse_give_deck_status(bytes: Seq<u8>) -> Result<Message, ErrorView> {
    match parse_at::<StatusRequest>(bytes, 1) {
        Err(e) => Err(e),
        Ok(request) => {
            Ok(Message::GiveDeckStatus { request })
        },
    }
}

/// Decodes the operands of `GiveDeckStatus` from `bytes`, whose first byte is its opcode.
fn read_give_deck_status(bytes: &[u8]) -> (r: Result<Message, Error>)
    requires
        bytes@.len() >= 1,
    ensures
        result_view(r) == parse_give_deck_status(bytes@),
{
    let off: usize = 1;
    let request = match parse_field::<StatusRequest>(bytes, off) {
        Ok(v) => v,
        Err(e) => return Err(e),
    };
    Ok(Message::GiveDeckStatus { request })
}

/// The encoding of `GiveDeckStatus`, followed by `rest`, decodes back to it.
proof fn lemma_fields_give_deck_status(request: StatusRequest, rest: Seq<u8>)
    requires
        request.spec_wf(),
    ensures
        parse_give_deck_status(Message::GiveDeckStatus { request }.spec_bytes() + rest) == Ok::<Message, ErrorView>(Message::GiveDeckStatus { request }),
{
    let m = Message::GiveDeckStatus { request };
    let all = m.spec_bytes() + rest;
    let s1 = rest;
    let s0 = request.spec_bytes() + s1;
    assert(all.subrange(1, all.len() as int) =~= s0);
    let o0: int = 1int;
    lemma_parse_at_suffix(all, o0, request, s1);
}

/// Appends the encodings of the operands of `Play`.
fn write_play(mode: &PlayMode, out: &mut Vec<u8>)
    ensures
        final(out)@ == old(out)@ + (mode.spec_bytes()),
{
    OperandEncodable::to_bytes(mode, out);
    proof {
        assert(final(out)@ =~= old(out)@ + (mode.spec_bytes()));
    }
}

/// Decodes the operands of `Play` from `bytes`, whose first byte is its opcode.
pub open spec fn parse_play(bytes: Seq<u8>) -> Result<Message, ErrorView> {
    match parse_at::<PlayMode>(bytes, 1) {
        Err(e) => Err(e),
        Ok(mode) => {
            Ok(Message::Play { mode })
        },
    }
}

/// Decodes the operands of `Play` from `bytes`, whose first byte is its opcode.
fn read_play(bytes: &[u8]) -> (r: Result<Message, Error>)
    requires
        bytes@.len() >= 1,
    ensures
        result_view(r) == parse_play(bytes@),
{
    let off: usize = 1;
    let mode = match parse_field::<PlayMode>(bytes, off) {
        Ok(v) => v,
        Err(e) => return Err(e),
    };
    Ok(Message::Play { mode })
}

/// The encoding of `Play`, followed by `rest`, decodes back to it.
proof fn lemma_fields_play(mode: PlayMode, rest: Seq<u8>)
    requires
        mode.spec_wf(),
    ensures
        parse_play(Message::Play { mode }.spec_bytes() + rest) == Ok::<Message, ErrorView>(Message::Play { mode }),
{
    let m = Message::Play { mode };
    let all = m.spec_bytes() + rest;
    let s1 = rest;
    let s0 = mode.spec_bytes() + s1;
    assert(all.subrange(1, all.len() as int) =~= s0);
    let o0: int = 1int;
    lemma_parse_at_suffix(all, o0, mode, s1);
}

/// Appends the encodings of the operands of `GiveTunerDeviceStatus`.
fn write_give_tuner_device_status(request: &StatusRequest, out: &mut Vec<u8>)
    ensures
        final(out)@ == old(out)@ + (request.spec_bytes()),
{
    OperandEncodable::to_bytes(request, out);
    proof {
        assert(final(out)@ =~= old(out)@ + (request.spec_bytes()));
    }
}

/// Decodes the operands of `GiveTunerDeviceStatus` from `bytes`, whose first byte is its opcode.
pub open spec fn parse_give_tuner_device_status(bytes: Seq<u8>) -> Result<Message, ErrorView> {
    match parse_at::<StatusRequest>(bytes, 1) {
        Err(e) => Err(e),
        Ok(request) => {
            Ok(Message::GiveTunerDeviceStatus { request })
        },
    }
}

/// Decodes the operands of `GiveTunerDeviceStatus` from `bytes`, whose first byte is its opcode.
fn read_give_tuner_device_status(bytes: &[u8]) -> (r: Result<Message, Error>)
    requires
        bytes@.len() >= 1,
    ensures
        result_view(r) == parse_give_tuner_device_status(bytes@),
{
    let off: usize = 1;
    let request = match parse_field::<StatusRequest>(bytes, off) {
        Ok(v) => v,
        Err(e) => return Err(e),
    };
    Ok(Message::GiveTunerDeviceStatus { request })
}

/// The encoding of `GiveTunerDeviceStatus`, followed by `rest`, decodes back to it.
proof fn lemma_fields_give_tuner_device_status(request: StatusRequest, rest: Seq<u8>)
    requires
        request.spec_wf(),
    ensures
        parse_give_tuner_device_status(Message::GiveTunerDeviceStatus { request }.spec_bytes() + rest) == Ok::<Message, ErrorView>(Message::GiveTunerDeviceStatus { request }),
{
    let m = Message::GiveTunerDeviceStatus { request };
    let all = m.spec_bytes() + rest;
    let s1 = rest;
    let s0 = request.spec_bytes() + s1;
    assert(all.subrange(1, all.len() as int) =~= s0);
    let o0: int = 1int;
    lemma_parse_at_suffix(all, o0, request, s1);
}

/// Appends the encodings of the operands of `SelectAnalogueService`.
fn write_select_analogue_service(service_id: &AnalogueServiceId, out: &mut Vec<u8>)
    ensures
        final(out)@ == old(out)@ + (service_id.spec_bytes()),
{
    OperandEncodable::to_bytes(service_id, out);
    proof {
        assert(final(out)@ =~= old(out)@ + (service_id.spec_bytes()));
    }
}

/// Decodes the operands of `SelectAnalogueService` from `bytes`, whose first byte is its opcode.
pub open spec fn parse_select_analogue_service(bytes: Seq<u8>) -> Result<Message, ErrorView> {
    match parse_at::<AnalogueServiceId>(bytes, 1) {
        Err(e) => Err(e),
        Ok(service_id) => {
            Ok(Message::SelectAnalogueService { service_id })
        },
    }
}

/// Decodes the operands of `SelectAnalogueService` from `bytes`, whose first byte is its opcode.
fn read_select_analogue_service(bytes: &[u8]) -> (r: Result<Message, Error>)
    requires
        bytes@.len() >= 1,
    ensures
        result_view(r) == parse_select_analogue_service(bytes@),
{
    let off: usize = 1;
    let service_id = match parse_field::<AnalogueServiceId>(bytes, off) {
        Ok(v) => v,
        Err(e) => return Err(e),
    };
    Ok(Message::SelectAnalogueService { service_id })
}

/// The encoding of `SelectAnalogueService`, followed by `rest`, decodes back to it.
proof fn lemma_fields_select_analogue_service(service_id: AnalogueServiceId, rest: Seq<u8>)
    requires
        service_id.spec_wf(),
    ensures
        parse_select_analogue_service(Message::SelectAnalogueService { service_id }.spec_bytes() + rest) == Ok::<Message, ErrorView>(Message::SelectAnalogueService { service_id }),
{
    let m = Message::SelectAnalogueService { service_id };
    let all = m.spec_bytes() + rest;
    let s1 = rest;
    let s0 = service_id.spec_bytes() + s1;
    assert(all.subrange(1, all.len() as int) =~= s0);
    let o0: int = 1int;
    lemma_parse_at_suffix(all, o0, service_id, s1);
}

/// Appends the encodings of the operands of `SelectDigitalService`.
fn write_select_digital_service(service_id: &DigitalServiceId, out: &mut Vec<u8>)
    ensures
        final(out)@ == old(out)@ + (service_id.spec_bytes()),
{
    OperandEncodable::to_bytes(service_id, out);
    proof {
        assert(final(out)@ =~= old(out)@ + (service_id.spec_bytes()));
    }
}

/// Decodes the operands of `SelectDigitalService` from `bytes`, whose first byte is its opcode.
pub open spec fn parse_select_digital_service(bytes: Seq<u8>) -> Result<Message, ErrorView> {
    match parse_at::<DigitalServiceId>(bytes, 1) {
        Err(e) => Err(e),
        Ok(service_id) => {
            Ok(Message::SelectDigitalService { service_id })
        },
    }
}

/// Decodes the operands of `SelectDigitalService` from `bytes`, whose first byte is its opcode.
fn read_select_digital_service(bytes: &[u8]) -> (r: Result<Message, Error>)
    requires
        bytes@.len() >= 1,
    ensures
        result_view(r) == parse_select_digital_service(bytes@),
{
    let off: usize = 1;
    let service_id = match parse_field::<DigitalServiceId>(bytes, off) {
        Ok(v) => v,
        Err(e) => return Err(e),
    };
    Ok(Message::SelectDigitalService { service_id })
}

/// The encoding of `SelectDigitalService`, followed by `rest`, decodes back to it.
proof fn lemma_fields_select_digital_service(service_id: DigitalServiceId, rest: Seq<u8>)
    requires
        service_id.spec_wf(),
    ensures
        parse_select_digital_service(Message::SelectDigitalService { service_id }.spec_bytes() + rest) == Ok::<Message, ErrorView>(Message::SelectDigitalService { service_id }),
{
    let m = Message::SelectDigitalService { service_id };
    let all = m.spec_bytes() + rest;
    let s1 = rest;
    let s0 = service_id.spec_bytes() + s1;
    assert(all.subrange(1, all.len() as int) =~= s0);
    let o0: int = 1int;
    lemma_parse_at_suffix(all, o0, service_id, s1);
}

/// Appends the encodings of the operands of `TunerDeviceStatus`.
fn write_tuner_device_status(info: &TunerDeviceInfo, out: &mut Vec<u8>)
    ensures
        final(out)@ == old(out)@ + (info.spec_bytes()),
{
    OperandEncodable::to_bytes(info, out);
    proof {
        assert(final(out)@ =~= old(out)@ + (info.spec_bytes()));
    }
}

/// Decodes the operands of `TunerDeviceStatus` from `bytes`, whose first byte is its opcode.
pub open spec fn parse_tuner_device_status(bytes: Seq<u8>) -> Result<Message, ErrorView> {
    match parse_at::<TunerDeviceInfo>(bytes, 1) {
        Err(e) => Err(e),
        Ok(info) => {
            Ok(Message::TunerDeviceStatus { info })
        },
    }
}

/// Decodes the operands of `TunerDeviceStatus` from `bytes`, whose first byte is its opcode.
fn read_tuner_device_status(bytes: &[u8]) -> (r: Result<Message, Error>)
    requires
        bytes@.len() >= 1,
    ensures
        result_view(r) == parse_tuner_device_status(bytes@),
{
    let off: usize = 1;
    let info = match parse_field::<TunerDeviceInfo>(bytes, off) {
        Ok(v) => v,
        Err(e) => return Err(e),
    };
    Ok(Message::TunerDeviceStatus { info })
}

/// The encoding of `TunerDeviceStatus`, followed by `rest`, decodes back to it.
proof fn lemma_fields_tuner_device_status(info: TunerDeviceInfo, rest: Seq<u8>)
    requires
        info.spec_wf(),
        rest.len() == 0,
    ensures
        parse_tuner_device_status(Message::TunerDeviceStatus { info }.spec_bytes() + rest) == Ok::<Message, ErrorView>(Message::TunerDeviceStatus { info }),
{
    let m = Message::TunerDeviceStatus { info };
    let all = m.spec_bytes() + rest;
    let s1 = rest;
    let s0 = info.spec_bytes() + s1;
    assert(all.subrange(1, all.len() as int) =~= s0);
    let o0: int = 1int;
    lemma_parse_at_suffix(all, o0, info, s1);
}

/// Appends the encodings of the operands of `DeviceVendorId`.
fn write_device_vendor_id(vendor_id: &VendorId, out: &mut Vec<u8>)
    ensures
        final(out)@ == old(out)@ + (vendor_id.spec_bytes()),
{
    OperandEncodable::to_bytes(vendor_id, out);
    proof {
        assert(final(out)@ =~= old(out)@ + (vendor_id.spec_bytes()));
    }
}

/// Decodes the operands of `DeviceVendorId` from `bytes`, whose first byte is its opcode.
pub open spec fn parse_device_vendor_id(bytes: Seq<u8>) -> Result<Message, ErrorView> {
    match parse_at::<VendorId>(bytes, 1) {
        Err(e) => Err(e),
        Ok(vendor_id) => {
            Ok(Message::DeviceVendorId { vendor_id })
        },
    }
}

/// Decodes the operands of `DeviceVendorId` from `bytes`, whose first byte is its opcode.
fn read_device_vendor_id(bytes: &[u8]) -> (r: Result<Message, Error>)
    requires
        bytes@.len() >= 1,
    ensures
        result_view(r) == parse_device_vendor_id(bytes@),
{
    let off: usize = 1;
    let vendor_id = match parse_field::<VendorId>(bytes, off) {
        Ok(v) => v,
        Err(e) => return Err(e),
    };
    Ok(Message::DeviceVendorId { vendor_id })
}

/// The encoding of `DeviceVendorId`, followed by `rest`, decodes back to it.
proof fn lemma_fields_device_vendor_id(vendor_id: VendorId, rest: Seq<u8>)
    requires
        vendor_id.spec_wf(),
    ensures
        parse_device_vendor_id(Message::DeviceVendorId { vendor_id }.spec_bytes() + rest) == Ok::<Message, ErrorView>(Message::DeviceVendorId { vendor_id }),
{
    let m = Message::DeviceVendorId { vendor_id };
    let all = m.spec_bytes() + rest;
    let s1 = rest;
    let s0 = vendor_id.spec_bytes() + s1;
    assert(all.subrange(1, all.len() as int) =~= s0);
    let o0: int = 1int;
    lemma_parse_at_suffix(all, o0, vendor_id, s1);
}

/// Appends the encodings of the operands of `VendorCommand`.
fn write_vendor_command(command: &BufferOperand, out: &mut Vec<u8>)
    ensures
        final(out)@ == old(out)@ + (command.spec_bytes()),
{
    OperandEncodable::to_bytes(command, out);
    proof {
        assert(final(out)@ =~= old(out)@ + (command.spec_bytes()));
    }
}

/// Decodes the operands of `VendorCommand` from `bytes`, whose first byte is its opcode.
pub open spec fn parse_vendor_command(bytes: Seq<u8>) -> Result<Message, ErrorView> {
    match parse_at::<BufferOperand>(bytes, 1) {
        Err(e) => Err(e),
        Ok(command) => {
            Ok(Message::VendorCommand { command })
        },
    }
}

/// Decodes the operands of `VendorCommand` from `bytes`, whose first byte is its opcode.
fn read_vendor_command(bytes: &[u8]) -> (r: Result<Message, Error>)
    requires
        bytes@.len() >= 1,
    ensures
        result_view(r) == parse_vendor_command(bytes@),
{
    let off: usize = 1;
    let command = match parse_field::<BufferOperand>(bytes, off) {
        Ok(v) => v,
        Err(e) => return Err(e),
    };
    Ok(Message::VendorCommand { command })
}

/// The encoding of `VendorCommand`, followed by `rest`, decodes back to it.
proof fn lemma_fields_vendor_command(command: BufferOperand, rest: Seq<u8>)
    requires
        command.spec_wf(),
        rest.len() == 0,
    ensures
        parse_vendor_command(Message::VendorCommand { command }.spec_bytes() + rest) == Ok::<Message, ErrorView>(Message::VendorCommand { command }),
{
    let m = Message::VendorCommand { command };
    let all = m.spec_bytes() + rest;
    let s1 = rest;
    let s0 = command.spec_bytes() + s1;
    assert(all.subrange(1, all.len() as int) =~= s0);
    let o0: int = 1int;
    lemma_parse_at_suffix(all, o0, command, s1);
}

/// Appends the encodings of the operands of `VendorCommandWithId`.
fn write_vendor_command_with_id(vendor_id: &VendorId, vendor_specific_data: &BoundedBufferOperand<11, u8>, out: &mut Vec<u8>)
    ensures
        final(out)@ == old(out)@ + (vendor_id.spec_bytes() + vendor_specific_data.spec_bytes()),
{
    OperandEncodable::to_bytes(vendor_id, out);
    OperandEncodable::to_bytes(vendor_specific_data, out);
    proof {
        assert(final(out)@ =~= old(out)@ + (vendor_id.spec_bytes() + vendor_specific_data.spec_bytes()));
    }
}

/// Decodes the operands of `VendorCommandWithId` from `bytes`, whose first byte is its opcode.
pub open spec fn parse_vendor_command_with_id(bytes: Seq<u8>) -> Result<Message, ErrorView> {
    match parse_at::<VendorId>(bytes, 1) {
        Err(e) => Err(e),
        Ok(vendor_id) => {
            let off1: int = (1 + vendor_id.spec_bytes().len()) as int;
            match parse_at::<BoundedBufferOperand<11, u8>>(bytes, off1) {
                Err(e) => Err(e),
                Ok(vendor_specific_data) => {
                    Ok(Message::VendorCommandWithId { vendor_id, vendor_specific_data })
                },
            }
        },
    }
}

/// Decodes the operands of `VendorCommandWithId` from `bytes`, whose first byte is its opcode.
fn read_vendor_command_with_id(bytes: &[u8]) -> (r: Result<Message, Error>)
    requires
        bytes@.len() >= 1,
    ensures
        result_view(r) == parse_vendor_command_with_id(bytes@),
{
    let off: usize = 1;
    let vendor_id = match parse_field::<VendorId>(bytes, off) {
        Ok(v) => v,
        Err(e) => return Err(e),
    };
    let off = off + OperandEncodable::len(&vendor_id);
    let vendor_specific_data = match parse_field::<BoundedBufferOperand<11, u8>>(bytes, off) {
        Ok(v) => v,
        Err(e) => return Err(e),
    };
    Ok(Message::VendorCommandWithId { vendor_id, vendor_specific_data })
}

/// The encoding of `VendorCommandWithId`, followed by `rest`, decodes back to it.
proof fn lemma_fields_vendor_command_with_id(vendor_id: VendorId, vendor_specific_data: BoundedBufferOperand<11, u8>, rest: Seq<u8>)
    requires
        vendor_id.spec_wf(),
        vendor_specific_data.spec_wf(),
        rest.len() == 0,
    ensures
        parse_vendor_command_with_id(Message::VendorCommandWithId { vendor_id, vendor_specific_data }.spec_bytes() + rest) == Ok::<Message, ErrorView>(Message::VendorCommandWithId { vendor_id, vendor_specific_data }),
{
    let m = Message::VendorCommandWithId { vendor_id, vendor_specific_data };
    let all = m.spec_bytes() + rest;
    let s2 = rest;
    let s1 = vendor_specific_data.spec_bytes() + s2;
    let s0 = vendor_id.spec_bytes() + s1;
    assert(all.subrange(1, all.len() as int) =~= s0);
    let o0: int = 1int;
    lemma_parse_at_suffix(all, o0, vendor_id, s1);
    let o1: int = (o0 + vendor_id.spec_bytes().len()) as int;
    assert(all.subrange(o1, all.len() as int) =~= s1);
    lemma_parse_at_suffix(all, o1, vendor_specific_data, s2);
}

/// Appends the encodings of the operands of `VendorRemoteButtonDown`.
fn write_vendor_remote_button_down(rc_code: &BufferOperand, out: &mut Vec<u8>)
    ensures
        final(out)@ == old(out)@ + (rc_code.spec_bytes()),
{
    OperandEncodable::to_bytes(rc_code, out);
    proof {
        assert(final(out)@ =~= old(out)@ + (rc_code.spec_bytes()));
    }
}

/// Decodes the operands of `VendorRemoteButtonDown` from `bytes`, whose first byte is its opcode.
pub open spec fn parse_vendor_remote_button_down(bytes: Seq<u8>) -> Result<Message, ErrorView> {
    match parse_at::<BufferOperand>(bytes, 1) {
        Err(e) => Err(e),
        Ok(rc_code) => {
            Ok(Message::VendorRemoteButtonDown { rc_code })
        },
    }
}

/// Decodes the operands of `VendorRemoteButtonDown` from `bytes`, whose first byte is its opcode.
fn read_vendor_remote_button_down(bytes: &[u8]) -> (r: Result<Message, Error>)
    requires
        bytes@.len() >= 1,
    ensures
        result_view(r) == parse_vendor_remote_button_down(bytes@),
{
    let off: usize = 1;
    let rc_code = match parse_field::<BufferOperand>(bytes, off) {
        Ok(v) => v,
        Err(e) => return Err(e),
    };
    Ok(Message::VendorRemoteButtonDown { rc_code })
}

/// The encoding of `VendorRemoteButtonDown`, followed by `rest`, decodes back to it.
proof fn lemma_fields_vendor_remote_button_down(rc_code: BufferOperand, rest: Seq<u8>)
    requires
        rc_code.spec_wf(),
        rest.len() == 0,
    ensures
        parse_vendor_remote_button_down(Message::VendorRemoteButtonDown { rc_code }.spec_bytes() + rest) == Ok::<Message, ErrorView>(Message::VendorRemoteButtonDown { rc_code }),
{
    let m = Message::VendorRemoteButtonDown { rc_code };
    let all = m.spec_bytes() + rest;
    let s1 = rest;
    let s0 = rc_code.spec_bytes() + s1;
    assert(all.subrange(1, all.len() as int) =~= s0);
    let o0: int = 1int;
    lemma_parse_at_suffix(all, o0, rc_code, s1);
}

/// Appends the encodings of the operands of `SetOsdString`.
fn write_set_osd_string(display_control: &DisplayControl, osd_string: &BoundedBufferOperand<13, u8>, out: &mut Vec<u8>)
    ensures
        final(out)@ == old(out)@ + (display_control.spec_bytes() + osd_string.spec_bytes()),
{
    OperandEncodable::to_bytes(display_control, out);
    OperandEncodable::to_bytes(osd_string, out);
    proof {
        assert(final(out)@ =~= old(out)@ + (display_control.spec_bytes() + osd_string.spec_bytes()));
    }
}

/// Decodes the operands of `SetOsdString` from `bytes`, whose first byte is its opcode.
pub open spec fn parse_set_osd_string(bytes: Seq<u8>) -> Result<Message, ErrorView> {
    match parse_at::<DisplayControl>(bytes, 1) {
        Err(e) => Err(e),
        Ok(display_control) => {
            let off1: int = (1 + display_control.spec_bytes().len()) as int;
            match parse_at::<BoundedBufferOperand<13, u8>>(bytes, off1) {
                Err(e) => Err(e),
                Ok(osd_string) => {
                    Ok(Message::SetOsdString { display_control, osd_string })
                },
            }
        },
    }
}

/// Decodes the operands of `SetOsdString` from `bytes`, whose first byte is its opcode.
fn read_set_osd_string(bytes: &[u8]) -> (r: Result<Message, Error>)
    requires
        bytes@.len() >= 1,
    ensures
        result_view(r) == parse_set_osd_string(bytes@),
{
    let off: usize = 1;
    let display_control = match parse_field::<DisplayControl>(bytes, off) {
        Ok(v) => v,
        Err(e) => return Err(e),
    };
    let off = off + OperandEncodable::len(&display_control);
    let osd_string = match parse_field::<BoundedBufferOperand<13, u8>>(bytes, off) {
        Ok(v) => v,
        Err(e) => return Err(e),
    };
    Ok(Message::SetOsdString { display_control, osd_string })
}

/// The encoding of `SetOsdString`, followed by `rest`, decodes back to it.
proof fn lemma_fields_set_osd_string(display_control: DisplayControl, osd_string: BoundedBufferOperand<13, u8>, rest: Seq<u8>)
    requires
        display_control.spec_wf(),
        osd_string.spec_wf(),
        rest.len() == 0,
    ensures
        parse_set_osd_string(Message::SetOsdString { display_control, osd_string }.spec_bytes() + rest) == Ok::<Message, ErrorView>(Message::SetOsdString { display_control, osd_string }),
{
    let m = Message::SetOsdString { display_control, osd_string };
    let all = m.spec_bytes() + rest;
    let s2 = rest;
    let s1 = osd_string.spec_bytes() + s2;
    let s0 = display_control.spec_bytes() + s1;
    assert(all.subrange(1, all.len() as int) =~= s0);
    let o0: int = 1int;
    lemma_parse_at_suffix(all, o0, display_control, s1);
    let o1: int = (o0 + display_control.spec_bytes().len()) as int;
    assert(all.subrange(o1, all.len() as int) =~= s1);
    lemma_parse_at_suffix(all, o1, osd_string, s2);
}

/// Appends the encodings of the operands of `SetOsdName`.
fn write_set_osd_name(name: &BufferOperand, out: &mut Vec<u8>)
    ensures
        final(out)@ == old(out)@ + (name.spec_bytes()),
{
    OperandEncodable::to_bytes(name, out);
    proof {
        assert(final(out)@ =~= old(out)@ + (name.spec_bytes()));
    }
}

/// Decodes the operands of `SetOsdName` from `bytes`, whose first byte is its opcode.
pub open spec fn parse_set_osd_name(bytes: Seq<u8>) -> Result<Message, ErrorView> {
    match parse_at::<BufferOperand>(bytes, 1) {
        Err(e) => Err(e),
        Ok(name) => {
            Ok(Message::SetOsdName { name })
        },
    }
}

/// Decodes the operands of `SetOsdName` from `bytes`, whose first byte is its opcode.
fn read_set_osd_name(bytes: &[u8]) -> (r: Result<Message, Error>)
    requires
        bytes@.len() >= 1,
    ensures
        result_view(r) == parse_set_osd_name(bytes@),
{
    let off: usize = 1;
    let name = match parse_field::<BufferOperand>(bytes, off) {
        Ok(v) => v,
        Err(e) => return Err(e),
    };
    Ok(Message::SetOsdName { name })
}

/// The encoding of `SetOsdName`, followed by `rest`, decodes back to it.
proof fn lemma_fields_set_osd_name(name: BufferOperand, rest: Seq<u8>)
    requires
        name.spec_wf(),
        rest.len() == 0,
    ensures
        parse_set_osd_name(Message::SetOsdName { name }.spec_bytes() + rest) == Ok::<Message, ErrorView>(Message::SetOsdName { name }),
{
    let m = Message::SetOsdName { name };
    let all = m.spec_bytes() + rest;
    let s1 = rest;
    let s0 = name.spec_bytes() + s1;
    assert(all.subrange(1, all.len() as int) =~= s0);
    let o0: int = 1int;
    lemma_parse_at_suffix(all, o0, name, s1);
}

/// Appends the encodings of the operands of `MenuRequest`.
fn write_menu_request(request_type: &MenuRequestType, out: &mut Vec<u8>)
    ensures
        final(out)@ == old(out)@ + (request_type.spec_bytes()),
{
    OperandEncodable::to_bytes(request_type, out);
    proof {
        assert(final(out)@ =~= old(out)@ + (request_type.spec_bytes()));
    }
}

/// Decodes the operands of `MenuRequest` from `bytes`, whose first byte is its opcode.
pub open spec fn parse_menu_request(bytes: Seq<u8>) -> Result<Message, ErrorView> {
    match parse_at::<MenuRequestType>(bytes, 1) {
        Err(e) => Err(e),
        Ok(request_type) => {
            Ok(Message::MenuRequest { request_type })
        },
    }
}

/// Decodes the operands of `MenuRequest` from `bytes`, whose first byte is its opcode.
fn read_menu_request(bytes: &[u8]) -> (r: Result<Message, Error>)
    requires
        bytes@.len() >= 1,
    ensures
        result_view(r) == parse_menu_request(bytes@),
{
    let off: usize = 1;
    let request_type = match parse_field::<MenuRequestType>(bytes, off) {
        Ok(v) => v,
        Err(e) => return Err(e),
    };
    Ok(Message::MenuRequest { request_type })
}

/// The encoding of `MenuRequest`, followed by `rest`, decodes back to it.
proof fn lemma_fields_menu_request(request_type: MenuRequestType, rest: Seq<u8>)
    requires
        request_type.spec_wf(),
    ensures
        parse_menu_request(Message::MenuRequest { request_type }.spec_bytes() + rest) == Ok::<Message, ErrorView>(Message::MenuRequest { request_type }),
{
    let m = Message::MenuRequest { request_type };
    let all = m.spec_bytes() + rest;
    let s1 = rest;
    let s0 = request_type.spec_bytes() + s1;
    assert(all.subrange(1, all.len() as int) =~= s0);
    let o0: int = 1int;
    lemma_parse_at_suffix(all, o0, request_type, s1);
}

/// Appends the encodings of the operands of `MenuStatus`.
fn write_menu_status(state: &MenuState, out: &mut Vec<u8>)
    ensures
        final(out)@ == old(out)@ + (state.spec_bytes()),
{
    OperandEncodable::to_bytes(state, out);
    proof {
        assert(final(out)@ =~= old(out)@ + (state.spec_bytes()));
    }
}

/// Decodes the operands of `MenuStatus` from `bytes`, whose first byte is its opcode.
pub open spec fn parse_menu_status(bytes: Seq<u8>) -> Result<Message, ErrorView> {
    match parse_at::<MenuState>(bytes, 1) {
        Err(e) => Err(e),
        Ok(state) => {
            Ok(Message::MenuStatus { state })
        },
    }
}

/// Decodes the operands of `MenuStatus` from `bytes`, whose first byte is its opcode.
fn read_menu_status(bytes: &[u8]) -> (r: Result<Message, Error>)
    requires
        bytes@.len() >= 1,
    ensures
        result_view(r) == parse_menu_status(bytes@),
{
    let off: usize = 1;
    let state = match parse_field::<MenuState>(bytes, off) {
        Ok(v) => v,
        Err(e) => return Err(e),
    };
    Ok(Message::MenuStatus { state })
}

/// The encoding of `MenuStatus`, followed by `rest`, decodes back to it.
proof fn lemma_fields_menu_status(state: MenuState, rest: Seq<u8>)
    requires
        state.spec_wf(),
    ensures
        parse_menu_status(Message::MenuStatus { state }.spec_bytes() + rest) == Ok::<Message, ErrorView>(Message::MenuStatus { state }),
{
    let m = Message::MenuStatus { state };
    let all = m.spec_bytes() + rest;
    let s1 = rest;
    let s0 = state.spec_bytes() + s1;
    assert(all.subrange(1, all.len() as int) =~= s0);
    let o0: int = 1int;
    lemma_parse_at_suffix(all, o0, state, s1);
}

/// Appends the encodings of the operands of `UserControlPressed`.
fn write_user_control_pressed(ui_command: &UiCommand, out: &mut Vec<u8>)
    ensures
        final(out)@ == old(out)@ + (ui_command.spec_bytes()),
{
    OperandEncodable::to_bytes(ui_command, out);
    proof {
        assert(final(out)@ =~= old(out)@ + (ui_command.spec_bytes()));
    }
}

/// Decodes the operands of `UserControlPressed` from `bytes`, whose first byte is its opcode.
pub open spec fn parse_user_control_pressed(bytes: Seq<u8>) -> Result<Message, ErrorView> {
    match parse_at::<UiCommand>(bytes, 1) {
        Err(e) => Err(e),
        Ok(ui_command) => {
            Ok(Message::UserControlPressed { ui_command })
        },
    }
}

/// Decodes the operands of `UserControlPressed` from `bytes`, whose first byte is its opcode.
fn read_user_control_pressed(bytes: &[u8]) -> (r: Result<Message, Error>)
    requires
        bytes@.len() >= 1,
    ensures
        result_view(r) == parse_user_control_pressed(bytes@),
{
    let off: usize = 1;
    let ui_command = match parse_field::<UiCommand>(bytes, off) {
        Ok(v) => v,
        Err(e) => return Err(e),
    };
    Ok(Message::UserControlPressed { ui_command })
}

/// The encoding of `UserControlPressed`, followed by `rest`, decodes back to it.
proof fn lemma_fields_user_control_pressed(ui_command: UiCommand, rest: Seq<u8>)
    requires
        ui_command.spec_wf(),
    ensures
        parse_user_control_pressed(Message::UserControlPressed { ui_command }.spec_bytes() + rest) == Ok::<Message, ErrorView>(Message::UserControlPressed { ui_command }),
{
    let m = Message::UserControlPressed { ui_command };
    let all = m.spec_bytes() + rest;
    let s1 = rest;
    let s0 = ui_command.spec_bytes() + s1;
    assert(all.subrange(1, all.len() as int) =~= s0);
    let o0: int = 1int;
    lemma_parse_at_suffix(all, o0, ui_command, s1);
}

/// Appends the encodings of the operands of `ReportPowerStatus`.
fn write_report_power_status(status: &PowerStatus, out: &mut Vec<u8>)
    ensures
        final(out)@ == old(out)@ + (status.spec_bytes()),
{
    OperandEncodable::to_bytes(status, out);
    proof {
        assert(final(out)@ =~= old(out)@ + (status.spec_bytes()));
    }
}

/// Decodes the operands of `ReportPowerStatus` from `bytes`, whose first byte is its opcode.
pub open spec fn parse_report_power_status(bytes: Seq<u8>) -> Result<Message, ErrorView> {
    match parse_at::<PowerStatus>(bytes, 1) {
        Err(e) => Err(e),
        Ok(status) => {
            Ok(Message::ReportPowerStatus { status })
        },
    }
}

/// Decodes the operands of `ReportPowerStatus` from `bytes`, whose first byte is its opcode.
fn read_report_power_status(bytes: &[u8]) -> (r: Result<Message, Error>)
    requires
        bytes@.len() >= 1,
    ensures
        result_view(r) == parse_report_power_status(bytes@),
{
    let off: usize = 1;
    let status = match parse_field::<PowerStatus>(bytes, off) {
        Ok(v) => v,
        Err(e) => return Err(e),
    };
    Ok(Message::ReportPowerStatus { status })
}

/// The encoding of `ReportPowerStatus`, followed by `rest`, decodes back to it.
proof fn lemma_fields_report_power_status(status: PowerStatus, rest: Seq<u8>)
    requires
        status.spec_wf(),
    ensures
        parse_report_power_status(Message::ReportPowerStatus { status }.spec_bytes() + rest) == Ok::<Message, ErrorView>(Message::ReportPowerStatus { status }),
{
    let m = Message::ReportPowerStatus { status };
    let all = m.spec_bytes() + rest;
    let s1 = rest;
    let s0 = status.spec_bytes() + s1;
    assert(all.subrange(1, all.len() as int) =~= s0);
    let o0: int = 1int;
    lemma_parse_at_suffix(all, o0, status, s1);
}

/// Appends the encodings of the operands of `FeatureAbort`.
fn write_feature_abort(opcode: &Opcode, abort_reason: &AbortReason, out: &mut Vec<u8>)
    ensures
        final(out)@ == old(out)@ + (opcode.spec_bytes() + abort_reason.spec_bytes()),
{
    OperandEncodable::to_bytes(opcode, out);
    OperandEncodable::to_bytes(abort_reason, out);
    proof {
        assert(final(out)@ =~= old(out)@ + (opcode.spec_bytes() + abort_reason.spec_bytes()));
    }
}

/// Decodes the operands of `FeatureAbort` from `bytes`, whose first byte is its opcode.
pub open spec fn parse_feature_abort(bytes: Seq<u8>) -> Result<Message, ErrorView> {
    match parse_at::<Opcode>(bytes, 1) {
        Err(e) => Err(e),
        Ok(opcode) => {
            let off1: int = (1 + opcode.spec_bytes().len()) as int;
            match parse_at::<AbortReason>(bytes, off1) {
                Err(e) => Err(e),
                Ok(abort_reason) => {
                    Ok(Message::FeatureAbort { opcode, abort_reason })
                },
            }
        },
    }
}

/// Decodes the operands of `FeatureAbort` from `bytes`, whose first byte is its opcode.
fn read_feature_abort(bytes: &[u8]) -> (r: Result<Message, Error>)
    requires
        bytes@.len() >= 1,
    ensures
        result_view(r) == parse_feature_abort(bytes@),
{
    let off: usize = 1;
    let opcode = match parse_field::<Opcode>(bytes, off) {
        Ok(v) => v,
        Err(e) => return Err(e),
    };
    let off = off + OperandEncodable::len(&opcode);
    let abort_reason = match parse_field::<AbortReason>(bytes, off) {
        Ok(v) => v,
        Err(e) => return Err(e),
    };
    Ok(Message::FeatureAbort { opcode, abort_reason })
}

/// The encoding of `FeatureAbort`, followed by `rest`, decodes back to it.
proof fn lemma_fields_feature_abort(opcode: Opcode, abort_reason: AbortReason, rest: Seq<u8>)
    requires
        opcode.spec_wf(),
        abort_reason.spec_wf(),
    ensures
        parse_feature_abort(Message::FeatureAbort { opcode, abort_reason }.spec_bytes() + rest) == Ok::<Message, ErrorView>(Message::FeatureAbort { opcode, abort_reason }),
{
    let m = Message::FeatureAbort { opcode, abort_reason };
    let all = m.spec_bytes() + rest;
    let s2 = rest;
    let s1 = abort_reason.spec_bytes() + s2;
    let s0 = opcode.spec_bytes() + s1;
    assert(all.subrange(1, all.len() as int) =~= s0);
    let o0: int = 1int;
    lemma_parse_at_suffix(all, o0, opcode, s1);
    let o1: int = (o0 + opcode.spec_bytes().len()) as int;
    assert(all.subrange(o1, all.len() as int) =~= s1);
    lemma_parse_at_suffix(all, o1, abort_reason, s2);
}

/// Appends the encodings of the operands of `ReportAudioStatus`.
fn write_report_audio_status(status: &AudioStatus, out: &mut Vec<u8>)
    ensures
        final(out)@ == old(out)@ + (status.spec_bytes()),
{
    OperandEncodable::to_bytes(status, out);
    proof {
        assert(final(out)@ =~= old(out)@ + (status.spec_bytes()));
    }
}

/// Decodes the operands of `ReportAudioStatus` from `bytes`, whose first byte is its opcode.
pub open spec fn parse_report_audio_status(bytes: Seq<u8>) -> Result<Message, ErrorView> {
    match parse_at::<AudioStatus>(bytes, 1) {
        Err(e) => Err(e),
        Ok(status) => {
            Ok(Message::ReportAudioStatus { status })
        },
    }
}

/// Decodes the operands of `ReportAudioStatus` from `bytes`, whose first byte is its opcode.
fn read_report_audio_status(bytes: &[u8]) -> (r: Result<Message, Error>)
    requires
        bytes@.len() >= 1,
    ensures
        result_view(r) == parse_report_audio_status(bytes@),
{
    let off: usize = 1;
    let status = match parse_field::<AudioStatus>(bytes, off) {
        Ok(v) => v,
        Err(e) => return Err(e),
    };
    Ok(Message::ReportAudioStatus { status })
}

/// The encoding of `ReportAudioStatus`, followed by `rest`, decodes back to it.
proof fn lemma_fields_report_audio_status(status: AudioStatus, rest: Seq<u8>)
    requires
        status.spec_wf(),
    ensures
        parse_report_audio_status(Message::ReportAudioStatus { status }.spec_bytes() + rest) == Ok::<Message, ErrorView>(Message::ReportAudioStatus { status }),
{
    let m = Message::ReportAudioStatus { status };
    let all = m.spec_bytes() + rest;
    let s1 = rest;
    let s0 = status.spec_bytes() + s1;
    assert(all.subrange(1, all.len() as int) =~= s0);
    let o0: int = 1int;
    lemma_parse_at_suffix(all, o0, status, s1);
}

/// Appends the encodings of the operands of `ReportShortAudioDescriptor`.
fn write_report_short_audio_descriptor(descriptors: &BoundedBufferOperand<4, [u8; 3]>, out: &mut Vec<u8>)
    ensures
        final(out)@ == old(out)@ + (descriptors.spec_bytes()),
{
    OperandEncodable::to_bytes(descriptors, out);
    proof {
        assert(final(out)@ =~= old(out)@ + (descriptors.spec_bytes()));
    }
}

/// Decodes the operands of `ReportShortAudioDescriptor` from `bytes`, whose first byte is its opcode.
pub open spec fn parse_report_short_audio_descriptor(bytes: Seq<u8>) -> Result<Message, ErrorView> {
    match parse_at::<BoundedBufferOperand<4, [u8; 3]>>(bytes, 1) {
        Err(e) => Err(e),
        Ok(descriptors) => {
            Ok(Message::ReportShortAudioDescriptor { descriptors })
        },
    }
}

/// Decodes the operands of `ReportShortAudioDescriptor` from `bytes`, whose first byte is its opcode.
fn read_report_short_audio_descriptor(bytes: &[u8]) -> (r: Result<Message, Error>)
    requires
        bytes@.len() >= 1,
    ensures
        result_view(r) == parse_report_short_audio_descriptor(bytes@),
{
    let off: usize = 1;
    let descriptors = match parse_field::<BoundedBufferOperand<4, [u8; 3]>>(bytes, off) {
        Ok(v) => v,
        Err(e) => return Err(e),
    };
    Ok(Message::ReportShortAudioDescriptor { descriptors })
}

/// The encoding of `ReportShortAudioDescriptor`, followed by `rest`, decodes back to it.
proof fn lemma_fields_report_short_audio_descriptor(descriptors: BoundedBufferOperand<4, [u8; 3]>, rest: Seq<u8>)
    requires
        descriptors.spec_wf(),
        rest.len() == 0,
    ensures
        parse_report_short_audio_descriptor(Message::ReportShortAudioDescriptor { descriptors }.spec_bytes() + rest) == Ok::<Message, ErrorView>(Message::ReportShortAudioDescriptor { descriptors }),
{
    let m = Message::ReportShortAudioDescriptor { descriptors };
    let all = m.spec_bytes() + rest;
    let s1 = rest;
    let s0 = descriptors.spec_bytes() + s1;
    assert(all.subrange(1, all.len() as int) =~= s0);
    let o0: int = 1int;
    lemma_parse_at_suffix(all, o0, descriptors, s1);
}

/// Appends the encodings of the operands of `RequestShortAudioDescriptor`.
fn write_request_short_audio_descriptor(descriptors: &BoundedBufferOperand<4, AudioFormatIdAndCode>, out: &mut Vec<u8>)
    ensures
        final(out)@ == old(out)@ + (descriptors.spec_bytes()),
{
    OperandEncodable::to_bytes(descriptors, out);
    proof {
        assert(final(out)@ =~= old(out)@ + (descriptors.spec_bytes()));
    }
}

/// Decodes the operands of `RequestShortAudioDescriptor` from `bytes`, whose first byte is its opcode.
pub open spec fn parse_request_short_audio_descriptor(bytes: Seq<u8>) -> Result<Message, ErrorView> {
    match parse_at::<BoundedBufferOperand<4, AudioFormatIdAndCode>>(bytes, 1) {
        Err(e) => Err(e),
        Ok(descriptors) => {
            Ok(Message::RequestShortAudioDescriptor { descriptors })
        },
    }
}

/// Decodes the operands of `RequestShortAudioDescriptor` from `bytes`, whose first byte is its opcode.
fn read_request_short_audio_descriptor(bytes: &[u8]) -> (r: Result<Message, Error>)
    requires
        bytes@.len() >= 1,
    ensures
        result_view(r) == parse_request_short_audio_descriptor(bytes@),
{
    let off: usize = 1;
    let descriptors = match parse_field::<BoundedBufferOperand<4, AudioFormatIdAndCode>>(bytes, off) {
        Ok(v) => v,
        Err(e) => return Err(e),
    };
    Ok(Message::RequestShortAudioDescriptor { descriptors })
}

/// The encoding of `RequestShortAudioDescriptor`, followed by `rest`, decodes back to it.
proof fn lemma_fields_request_short_audio_descriptor(descriptors: BoundedBufferOperand<4, AudioFormatIdAndCode>, rest: Seq<u8>)
    requires
        descriptors.spec_wf(),
        rest.len() == 0,
    ensures
        parse_request_short_audio_descriptor(Message::RequestShortAudioDescriptor { descriptors }.spec_bytes() + rest) == Ok::<Message, ErrorView>(Message::RequestShortAudioDescriptor { descriptors }),
{
    let m = Message::RequestShortAudioDescriptor { descriptors };
    let all = m.spec_bytes() + rest;
    let s1 = rest;
    let s0 = descriptors.spec_bytes() + s1;
    assert(all.subrange(1, all.len() as int) =~= s0);
    let o0: int = 1int;
    lemma_parse_at_suffix(all, o0, descriptors, s1);
}

/// Appends the encodings of the operands of `SetSystemAudioMode`.
fn write_set_system_audio_mode(status: &bool, out: &mut Vec<u8>)
    ensures
        final(out)@ == old(out)@ + (status.spec_bytes()),
{
    OperandEncodable::to_bytes(status, out);
    proof {
        assert(final(out)@ =~= old(out)@ + (status.spec_bytes()));
    }
}

/// Decodes the operands of `SetSystemAudioMode` from `bytes`, whose first byte is its opcode.
pub open spec fn parse_set_system_audio_mode(bytes: Seq<u8>) -> Result<Message, ErrorView> {
    match parse_at::<bool>(bytes, 1) {
        Err(e) => Err(e),
        Ok(status) => {
            Ok(Message::SetSystemAudioMode { status })
        },
    }
}

/// Decodes the operands of `SetSystemAudioMode` from `bytes`, whose first byte is its opcode.
fn read_set_system_audio_mode(bytes: &[u8]) -> (r: Result<Message, Error>)
    requires
        bytes@.len() >= 1,
    ensures
        result_view(r) == parse_set_system_audio_mode(bytes@),
{
    let off: usize = 1;
    let status = match parse_field::<bool>(bytes, off) {
        Ok(v) => v,
        Err(e) => return Err(e),
    };
    Ok(Message::SetSystemAudioMode { status })
}

/// The encoding of `SetSystemAudioMode`, followed by `rest`, decodes back to it.
proof fn lemma_fields_set_system_audio_mode(status: bool, rest: Seq<u8>)
    requires
        status.spec_wf(),
    ensures
        parse_set_system_audio_mode(Message::SetSystemAudioMode { status }.spec_bytes() + rest) == Ok::<Message, ErrorView>(Message::SetSystemAudioMode { status }),
{
    let m = Message::SetSystemAudioMode { status };
    let all = m.spec_bytes() + rest;
    let s1 = rest;
    let s0 = status.spec_bytes() + s1;
    assert(all.subrange(1, all.len() as int) =~= s0);
    let o0: int = 1int;
    lemma_parse_at_suffix(all, o0, status, s1);
}

/// Appends the encodings of the operands of `SystemAudioModeRequest`.
fn write_system_audio_mode_request(physical_address: &PhysicalAddress, out: &mut Vec<u8>)
    ensures
        final(out)@ == old(out)@ + (physical_address.spec_bytes()),
{
    OperandEncodable::to_bytes(physical_address, out);
    proof {
        assert(final(out)@ =~= old(out)@ + (physical_address.spec_bytes()));
    }
}

/// Decodes the operands of `SystemAudioModeRequest` from `bytes`, whose first byte is its opcode.
pub open spec fn parse_system_audio_mode_request(bytes: Seq<u8>) -> Result<Message, ErrorView> {
    match parse_at::<PhysicalAddress>(bytes, 1) {
        Err(e) => Err(e),
        Ok(physical_address) => {
            Ok(Message::SystemAudioModeRequest { physical_address })
        },
    }
}

/// Decodes the operands of `SystemAudioModeRequest` from `bytes`, whose first byte is its opcode.
fn read_system_audio_mode_request(bytes: &[u8]) -> (r: Result<Message, Error>)
    requires
        bytes@.len() >= 1,
    ensures
        result_view(r) == parse_system_audio_mode_request(bytes@),
{
    let off: usize = 1;
    let physical_address = match parse_field::<PhysicalAddress>(bytes, off) {
        Ok(v) => v,
        Err(e) => return Err(e),
    };
    Ok(Message::SystemAudioModeRequest { physical_address })
}

/// The encoding of `SystemAudioModeRequest`, followed by `rest`, decodes back to it.
proof fn lemma_fields_system_audio_mode_request(physical_address: PhysicalAddress, rest: Seq<u8>)
    requires
        physical_address.spec_wf(),
    ensures
        parse_system_audio_mode_request(Message::SystemAudioModeRequest { physical_address }.spec_bytes() + rest) == Ok::<Message, ErrorView>(Message::SystemAudioModeRequest { physical_address }),
{
    let m = Message::SystemAudioModeRequest { physical_address };
    let all = m.spec_bytes() + rest;
    let s1 = rest;
    let s0 = physical_address.spec_bytes() + s1;
    assert(all.subrange(1, all.len() as int) =~= s0);
    let o0: int = 1int;
    lemma_parse_at_suffix(all, o0, physical_address, s1);
}

/// Appends the encodings of the operands of `SystemAudioModeStatus`.
fn write_system_audio_mode_status(system_audio_status: &bool, out: &mut Vec<u8>)
    ensures
        final(out)@ == old(out)@ + (system_audio_status.spec_bytes()),
{
    OperandEncodable::to_bytes(system_audio_status, out);
    proof {
        assert(final(out)@ =~= old(out)@ + (system_audio_status.spec_bytes()));
    }
}

/// Decodes the operands of `SystemAudioModeStatus` from `bytes`, whose first byte is its opcode.
pub open spec fn parse_system_audio_mode_status(bytes: Seq<u8>) -> Result<Message, ErrorView> {
    match parse_at::<bool>(bytes, 1) {
        Err(e) => Err(e),
        Ok(system_audio_status) => {
            Ok(Message::SystemAudioModeStatus { system_audio_status })
        },
    }
}

/// Decodes the operands of `SystemAudioModeStatus` from `bytes`, whose first byte is its opcode.
fn read_system_audio_mode_status(bytes: &[u8]) -> (r: Result<Message, Error>)
    requires
        bytes@.len() >= 1,
    ensures
        result_view(r) == parse_system_audio_mode_status(bytes@),
{
    let off: usize = 1;
    let system_audio_status = match parse_field::<bool>(bytes, off) {
        Ok(v) => v,
        Err(e) => return Err(e),
    };
    Ok(Message::SystemAudioModeStatus { system_audio_status })
}

/// The encoding of `SystemAudioModeStatus`, followed by `rest`, decodes back to it.
proof fn lemma_fields_system_audio_mode_status(system_audio_status: bool, rest: Seq<u8>)
    requires
        system_audio_status.spec_wf(),
    ensures
        parse_system_audio_mode_status(Message::SystemAudioModeStatus { system_audio_status }.spec_bytes() + rest) == Ok::<Message, ErrorView>(Message::SystemAudioModeStatus { system_audio_status }),
{
    let m = Message::SystemAudioModeStatus { system_audio_status };
    let all = m.spec_bytes() + rest;
    let s1 = rest;
    let s0 = system_audio_status.spec_bytes() + s1;
    assert(all.subrange(1, all.len() as int) =~= s0);
    let o0: int = 1int;
    lemma_parse_at_suffix(all, o0, system_audio_status, s1);
}

/// Appends the encodings of the operands of `SetAudioRate`.
fn write_set_audio_rate(audio_rate: &AudioRate, out: &mut Vec<u8>)
    ensures
        final(out)@ == old(out)@ + (audio_rate.spec_bytes()),
{
    OperandEncodable::to_bytes(audio_rate, out);
    proof {
        assert(final(out)@ =~= old(out)@ + (audio_rate.spec_bytes()));
    }
}

/// Decodes the operands of `SetAudioRate` from `bytes`, whose first byte is its opcode.
pub open spec fn parse_set_audio_rate(bytes: Seq<u8>) -> Result<Message, ErrorView> {
    match parse_at::<AudioRate>(bytes, 1) {
        Err(e) => Err(e),
        Ok(audio_rate) => {
            Ok(Message::SetAudioRate { audio_rate })
        },
    }
}

/// Decodes the operands of `SetAudioRate` from `bytes`, whose first byte is its opcode.
fn read_set_audio_rate(bytes: &[u8]) -> (r: Result<Message, Error>)
    requires
        bytes@.len() >= 1,
    ensures
        result_view(r) == parse_set_audio_rate(bytes@),
{
    let off: usize = 1;
    let audio_rate = match parse_field::<AudioRate>(bytes, off) {
        Ok(v) => v,
        Err(e) => return Err(e),
    };
    Ok(Message::SetAudioRate { audio_rate })
}

/// The encoding of `SetAudioRate`, followed by `rest`, decodes back to it.
proof fn lemma_fields_set_audio_rate(audio_rate: AudioRate, rest: Seq<u8>)
    requires
        audio_rate.spec_wf(),
    ensures
        parse_set_audio_rate(Message::SetAudioRate { audio_rate }.spec_bytes() + rest) == Ok::<Message, ErrorView>(Message::SetAudioRate { audio_rate }),
{
    let m = Message::SetAudioRate { audio_rate };
    let all = m.spec_bytes() + rest;
    let s1 = rest;
    let s0 = audio_rate.spec_bytes() + s1;
    assert(all.subrange(1, all.len() as int) =~= s0);
    let o0: int = 1int;
    lemma_parse_at_suffix(all, o0, audio_rate, s1);
}

/// Appends the encodings of the operands of `CdcMessage`.
fn write_cdc_message(initiator: &PhysicalAddress, message: &CdcMessage, out: &mut Vec<u8>)
    ensures
        final(out)@ == old(out)@ + (initiator.spec_bytes() + message.spec_bytes()),
{
    OperandEncodable::to_bytes(initiator, out);
    OperandEncodable::to_bytes(message, out);
    proof {
        assert(final(out)@ =~= old(out)@ + (initiator.spec_bytes() + message.spec_bytes()));
    }
}

/// Decodes the operands of `CdcMessage` from `bytes`, whose first byte is its opcode.
pub open spec fn parse_cdc_message(bytes: Seq<u8>) -> Result<Message, ErrorView> {
    match parse_at::<PhysicalAddress>(bytes, 1) {
        Err(e) => Err(e),
        Ok(initiator) => {
            let off1: int = (1 + initiator.spec_bytes().len()) as int;
            match parse_at::<CdcMessage>(bytes, off1) {
                Err(e) => Err(e),
                Ok(message) => {
                    Ok(Message::CdcMessage { initiator, message })
                },
            }
        },
    }
}

/// Decodes the operands of `CdcMessage` from `bytes`, whose first byte is its opcode.
fn read_cdc_message(bytes: &[u8]) -> (r: Result<Message, Error>)
    requires
        bytes@.len() >= 1,
    ensures
        result_view(r) == parse_cdc_message(bytes@),
{
    let off: usize = 1;
    let initiator = match parse_field::<PhysicalAddress>(bytes, off) {
        Ok(v) => v,
        Err(e) => return Err(e),
    };
    let off = off + OperandEncodable::len(&initiator);
    let message = match parse_field::<CdcMessage>(bytes, off) {
        Ok(v) => v,
        Err(e) => return Err(e),
    };
    Ok(Message::CdcMessage { initiator, message })
}

/// The encoding of `CdcMessage`, followed by `rest`, decodes back to it.
proof fn lemma_fields_cdc_message(initiator: PhysicalAddress, message: CdcMessage, rest: Seq<u8>)
    requires
        initiator.spec_wf(),
        message.spec_wf(),
        rest.len() == 0,
    ensures
        parse_cdc_message(Message::CdcMessage { initiator, message }.spec_bytes() + rest) == Ok::<Message, ErrorView>(Message::CdcMessage { initiator, message }),
{
    let m = Message::CdcMessage { initiator, message };
    let all = m.spec_bytes() + rest;
    let s2 = rest;
    let s1 = message.spec_bytes() + s2;
    let s0 = initiator.spec_bytes() + s1;
    assert(all.subrange(1, all.len() as int) =~= s0);
    let o0: int = 1int;
    lemma_parse_at_suffix(all, o0, initiator, s1);
    let o1: int = (o0 + initiator.spec_bytes().len()) as int;
    assert(all.subrange(o1, all.len() as int) =~= s1);
    lemma_parse_at_suffix(all, o1, message, s2);
}

/// Appends the encodings of the operands of `ReportFeatures`.
fn write_report_features(version: &Version, device_types: &AllDeviceTypes, rc_profile: &RcProfile, dev_features: &DeviceFeatures, out: &mut Vec<u8>)
    ensures
        final(out)@ == old(out)@ + (version.spec_bytes() + device_types.spec_bytes() + rc_profile.spec_bytes() + dev_features.spec_bytes()),
{
    OperandEncodable::to_bytes(version, out);
    OperandEncodable::to_bytes(device_types, out);
    OperandEncodable::to_bytes(rc_profile, out);
    OperandEncodable::to_bytes(dev_features, out);
    proof {
        assert(final(out)@ =~= old(out)@ + (version.spec_bytes() + device_types.spec_bytes() + rc_profile.spec_bytes() + dev_features.spec_bytes()));
    }
}

/// Decodes the operands of `ReportFeatures` from `bytes`, whose first byte is its opcode.
pub open spec fn parse_report_features(bytes: Seq<u8>) -> Result<Message, ErrorView> {
    match parse_at::<Version>(bytes, 1) {
        Err(e) => Err(e),
        Ok(version) => {
            let off1: int = (1 + version.spec_bytes().len()) as int;
            match parse_at::<AllDeviceTypes>(bytes, off1) {
                Err(e) => Err(e),
                Ok(device_types) => {
                    let off2: int = (off1 + device_types.spec_bytes().len()) as int;
                    match parse_at::<RcProfile>(bytes, off2) {
                        Err(e) => Err(e),
                        Ok(rc_profile) => {
                            let off3: int = (off2 + rc_profile.spec_bytes().len()) as int;
                            match parse_at::<DeviceFeatures>(bytes, off3) {
                                Err(e) => Err(e),
                                Ok(dev_features) => {
                                    Ok(Message::ReportFeatures { version, device_types, rc_profile, dev_features })
                                },
                            }
                        },
                    }
                },
            }
        },
    }
}

/// Decodes the operands of `ReportFeatures` from `bytes`, whose first byte is its opcode.
fn read_report_features(bytes: &[u8]) -> (r: Result<Message, Error>)
    requires
        bytes@.len() >= 1,
    ensures
        result_view(r) == parse_report_features(bytes@),
{
    let off: usize = 1;
    let version = match parse_field::<Version>(bytes, off) {
        Ok(v) => v,
        Err(e) => return Err(e),
    };
    let off = off + OperandEncodable::len(&version);
    let device_types = match parse_field::<AllDeviceTypes>(bytes, off) {
        Ok(v) => v,
        Err(e) => return Err(e),
    };
    let off = off + OperandEncodable::len(&device_types);
    let rc_profile = match parse_field::<RcProfile>(bytes, off) {
        Ok(v) => v,
        Err(e) => return Err(e),
    };
    let off = off + OperandEncodable::len(&rc_profile);
    let dev_features = match parse_field::<DeviceFeatures>(bytes, off) {
        Ok(v) => v,
        Err(e) => return Err(e),
    };
    Ok(Message::ReportFeatures { version, device_types, rc_profile, dev_features })
}

/// The encoding of `ReportFeatures`, followed by `rest`, decodes back to it.
#[verifier::rlimit(60)]
proof fn lemma_fields_report_features(version: Version, device_types: AllDeviceTypes, rc_profile: RcProfile, dev_features: DeviceFeatures, rest: Seq<u8>)
    requires
        version.spec_wf(),
        device_types.spec_wf(),
        rc_profile.spec_wf(),
        dev_features.spec_wf(),
    ensures
        parse_report_features(Message::ReportFeatures { version, device_types, rc_profile, dev_features }.spec_bytes() + rest) == Ok::<Message, ErrorView>(Message::ReportFeatures { version, device_types, rc_profile, dev_features }),
{
    let m = Message::ReportFeatures { version, device_types, rc_profile, dev_features };
    let all = m.spec_bytes() + rest;
    let s4 = rest;
    let s3 = dev_features.spec_bytes() + s4;
    let s2 = rc_profile.spec_bytes() + s3;
    let s1 = device_types.spec_bytes() + s2;
    let s0 = version.spec_bytes() + s1;
    assert(all.subrange(1, all.len() as int) =~= s0);
    let o0: int = 1int;
    lemma_parse_at_suffix(all, o0, version, s1);
    let o1: int = (o0 + version.spec_bytes().len()) as int;
    assert(all.subrange(o1, all.len() as int) =~= s1);
    lemma_parse_at_suffix(all, o1, device_types, s2);
    let o2: int = (o1 + device_types.spec_bytes().len()) as int;
    assert(all.subrange(o2, all.len() as int) =~= s2);
    lemma_parse_at_suffix(all, o2, rc_profile, s3);
    let o3: int = (o2 + rc_profile.spec_bytes().len()) as int;
    assert(all.subrange(o3, all.len() as int) =~= s3);
    lemma_parse_at_suffix(all, o3, dev_features, s4);
}

/// Appends the encodings of the operands of `RequestCurrentLatency`.
fn write_request_current_latency(physical_address: &PhysicalAddress, out: &mut Vec<u8>)
    ensures
        final(out)@ == old(out)@ + (physical_address.spec_bytes()),
{
    OperandEncodable::to_bytes(physical_address, out);
    proof {
        assert(final(out)@ =~= old(out)@ + (physical_address.spec_bytes()));
    }
}

/// Decodes the operands of `RequestCurrentLatency` from `bytes`, whose first byte is its opcode.
pub open spec fn parse_request_current_latency(bytes: Seq<u8>) -> Result<Message, ErrorView> {
    match parse_at::<PhysicalAddress>(bytes, 1) {
        Err(e) => Err(e),
        Ok(physical_address) => {
            Ok(Message::RequestCurrentLatency { physical_address })
        },
    }
}

/// Decodes the operands of `RequestCurrentLatency` from `bytes`, whose first byte is its opcode.
fn read_request_current_latency(bytes: &[u8]) -> (r: Result<Message, Error>)
    requires
        bytes@.len() >= 1,
    ensures
        result_view(r) == parse_request_current_latency(bytes@),
{
    let off: usize = 1;
    let physical_address = match parse_field::<PhysicalAddress>(bytes, off) {
        Ok(v) => v,
        Err(e) => return Err(e),
    };
    Ok(Message::RequestCurrentLatency { physical_address })
}

/// The encoding of `RequestCurrentLatency`, followed by `rest`, decodes back to it.
proof fn lemma_fields_request_current_latency(physical_address: PhysicalAddress, rest: Seq<u8>)
    requires
        physical_address.spec_wf(),
    ensures
        parse_request_current_latency(Message::RequestCurrentLatency { physical_address }.spec_bytes() + rest) == Ok::<Message, ErrorView>(Message::RequestCurrentLatency { physical_address }),
{
    let m = Message::RequestCurrentLatency { physical_address };
    let all = m.spec_bytes() + rest;
    let s1 = rest;
    let s0 = physical_address.spec_bytes() + s1;
    assert(all.subrange(1, all.len() as int) =~= s0);
    let o0: int = 1int;
    lemma_parse_at_suffix(all, o0, physical_address, s1);
}

/// Appends the encodings of the operands of `ReportCurrentLatency`.
fn write_report_current_latency(physical_address: &PhysicalAddress, video_latency: &Delay, flags: &LatencyFlags, audio_output_delay: &Option<Delay>, out: &mut Vec<u8>)
    ensures
        final(out)@ == old(out)@ + (physical_address.spec_bytes() + video_latency.spec_bytes() + flags.spec_bytes() + audio_output_delay.spec_bytes()),
{
    OperandEncodable::to_bytes(physical_address, out);
    OperandEncodable::to_bytes(video_latency, out);
    OperandEncodable::to_bytes(flags, out);
    OperandEncodable::to_bytes(audio_output_delay, out);
    proof {
        assert(final(out)@ =~= old(out)@ + (physical_address.spec_bytes() + video_latency.spec_bytes() + flags.spec_bytes() + audio_output_delay.spec_bytes()));
    }
}

/// Decodes the operands of `ReportCurrentLatency` from `bytes`, whose first byte is its opcode.
pub open spec fn parse_report_current_latency(bytes: Seq<u8>) -> Result<Message, ErrorView> {
    match parse_at::<PhysicalAddress>(bytes, 1) {
        Err(e) => Err(e),
        Ok(physical_address) => {
            let off1: int = (1 + physical_address.spec_bytes().len()) as int;
            match parse_at::<Delay>(bytes, off1) {
                Err(e) => Err(e),
                Ok(video_latency) => {
                    let off2: int = (off1 + video_latency.spec_bytes().len()) as int;
                    match parse_at::<LatencyFlags>(bytes, off2) {
                        Err(e) => Err(e),
                        Ok(flags) => {
                            let off3: int = (off2 + flags.spec_bytes().len()) as int;
                            match parse_at::<Option<Delay>>(bytes, off3) {
                                Err(e) => Err(e),
                                Ok(audio_output_delay) => {
                                    Ok(Message::ReportCurrentLatency { physical_address, video_latency, flags, audio_output_delay })
                                },
                            }
                        },
                    }
                },
            }
        },
    }
}

/// Decodes the operands of `ReportCurrentLatency` from `bytes`, whose first byte is its opcode.
fn read_report_current_latency(bytes: &[u8]) -> (r: Result<Message, Error>)
    requires
        bytes@.len() >= 1,
    ensures
        result_view(r) == parse_report_current_latency(bytes@),
{
    let off: usize = 1;
    let physical_address = match parse_field::<PhysicalAddress>(bytes, off) {
        Ok(v) => v,
        Err(e) => return Err(e),
    };
    let off = off + OperandEncodable::len(&physical_address);
    let video_latency = match parse_field::<Delay>(bytes, off) {
        Ok(v) => v,
        Err(e) => return Err(e),
    };
    let off = off + OperandEncodable::len(&video_latency);
    let flags = match parse_field::<LatencyFlags>(bytes, off) {
        Ok(v) => v,
        Err(e) => return Err(e),
    };
    let off = off + OperandEncodable::len(&flags);
    let audio_output_delay = match parse_field::<Option<Delay>>(bytes, off) {
        Ok(v) => v,
        Err(e) => return Err(e),
    };
    Ok(Message::ReportCurrentLatency { physical_address, video_latency, flags, audio_output_delay })
}

/// The encoding of `ReportCurrentLatency`, followed by `rest`, decodes back to it.
#[verifier::rlimit(60)]
proof fn lemma_fields_report_current_latency(physical_address: PhysicalAddress, video_latency: Delay, flags: LatencyFlags, audio_output_delay: Option<Delay>, rest: Seq<u8>)
    requires
        physical_address.spec_wf(),
        video_latency.spec_wf(),
        flags.spec_wf(),
        audio_output_delay.spec_wf(),
        rest.len() == 0,
    ensures
        parse_report_current_latency(Message::ReportCurrentLatency { physical_address, video_latency, flags, audio_output_delay }.spec_bytes() + rest) == Ok::<Message, ErrorView>(Message::ReportCurrentLatency { physical_address, video_latency, flags, audio_output_delay }),
{
    let m = Message::ReportCurrentLatency { physical_address, video_latency, flags, audio_output_delay };
    let all = m.spec_bytes() + rest;
    let s4 = rest;
    let s3 = audio_output_delay.spec_bytes() + s4;
    let s2 = flags.spec_bytes() + s3;
    let s1 = video_latency.spec_bytes() + s2;
    let s0 = physical_address.spec_bytes() + s1;
    assert(all.subrange(1, all.len() as int) =~= s0);
    let o0: int = 1int;
    lemma_parse_at_suffix(all, o0, physical_address, s1);
    let o1: int = (o0 + physical_address.spec_bytes().len()) as int;
    assert(all.subrange(o1, all.len() as int) =~= s1);
    lemma_parse_at_suffix(all, o1, video_latency, s2);
    let o2: int = (o1 + video_latency.spec_bytes().len()) as int;
    assert(all.subrange(o2, all.len() as int) =~= s2);
    lemma_parse_at_suffix(all, o2, flags, s3);
    let o3: int = (o2 + flags.spec_bytes().len()) as int;
    assert(all.subrange(o3, all.len() as int) =~= s3);
    lemma_parse_at_suffix(all, o3, audio_output_delay, s4);
}

/// A message whose first byte is the opcode of `ActiveSource` decodes as one.
proof fn lemma_dispatch_active_source(bytes: Seq<u8>)
    requires
        bytes.len() >= 1,
        bytes[0] == Opcode::ActiveSource.code(),
    ensures
        Message::spec_parse(bytes) == parse_active_source(bytes),
{
    reveal(Message::spec_parse);
    Opcode::ActiveSource.lemma_code(0);
}

/// The encoding of a `ActiveSource`, followed by `rest`, decodes back to it.
proof fn lemma_roundtrip_active_source(m: Message, rest: Seq<u8>)
    requires
        m is ActiveSource,
        m.spec_wf(),
        m.spec_self_delimiting() || rest.len() == 0,
    ensures
        Message::spec_parse(m.spec_bytes() + rest) == Ok::<Message, ErrorView>(m),
{
    reveal(Message::spec_wf);
    reveal(Message::spec_self_delimiting);
    let all = m.spec_bytes() + rest;
    assert(all[0] == Opcode::ActiveSource.code());
    lemma_dispatch_active_source(all);
    match m {
        Message::ActiveSource { address } => lemma_fields_active_source(address, rest),
        _ => {},
    }
}

/// A message whose first byte is the opcode of `ImageViewOn` decodes as one.
proof fn lemma_dispatch_image_view_on(bytes: Seq<u8>)
    requires
        bytes.len() >= 1,
        bytes[0] == Opcode::ImageViewOn.code(),
    ensures
        Message::spec_parse(bytes) == Ok::<Message, ErrorView>(Message::ImageViewOn),
{
    reveal(Message::spec_parse);
    Opcode::ImageViewOn.lemma_code(0);
}

/// The encoding of a `ImageViewOn`, followed by `rest`, decodes back to it.
proof fn lemma_roundtrip_image_view_on(m: Message, rest: Seq<u8>)
    requires
        m is ImageViewOn,
        m.spec_wf(),
        m.spec_self_delimiting() || rest.len() == 0,
    ensures
        Message::spec_parse(m.spec_bytes() + rest) == Ok::<Message, ErrorView>(m),
{
    reveal(Message::spec_wf);
    reveal(Message::spec_self_delimiting);
    let all = m.spec_bytes() + rest;
    assert(all[0] == Opcode::ImageViewOn.code());
    lemma_dispatch_image_view_on(all);
}

/// A message whose first byte is the opcode of `TextViewOn` decodes as one.
proof fn lemma_dispatch_text_view_on(bytes: Seq<u8>)
    requires
        bytes.len() >= 1,
        bytes[0] == Opcode::TextViewOn.code(),
    ensures
        Message::spec_parse(bytes) == Ok::<Message, ErrorView>(Message::TextViewOn),
{
    reveal(Message::spec_parse);
    Opcode::TextViewOn.lemma_code(0);
}

/// The encoding of a `TextViewOn`, followed by `rest`, decodes back to it.
proof fn lemma_roundtrip_text_view_on(m: Message, rest: Seq<u8>)
    requires
        m is TextViewOn,
        m.spec_wf(),
        m.spec_self_delimiting() || rest.len() == 0,
    ensures
        Message::spec_parse(m.spec_bytes() + rest) == Ok::<Message, ErrorView>(m),
{
    reveal(Message::spec_wf);
    reveal(Message::spec_self_delimiting);
    let all = m.spec_bytes() + rest;
    assert(all[0] == Opcode::TextViewOn.code());
    lemma_dispatch_text_view_on(all);
}

/// A message whose first byte is the opcode of `InactiveSource` decodes as one.
proof fn lemma_dispatch_inactive_source(bytes: Seq<u8>)
    requires
        bytes.len() >= 1,
        bytes[0] == Opcode::InactiveSource.code(),
    ensures
        Message::spec_parse(bytes) == parse_inactive_source(bytes),
{
    reveal(Message::spec_parse);
    Opcode::InactiveSource.lemma_code(0);
}

/// The encoding of a `InactiveSource`, followed by `rest`, decodes back to it.
proof fn lemma_roundtrip_inactive_source(m: Message, rest: Seq<u8>)
    requires
        m is InactiveSource,
        m.spec_wf(),
        m.spec_self_delimiting() || rest.len() == 0,
    ensures
        Message::spec_parse(m.spec_bytes() + rest) == Ok::<Message, ErrorView>(m),
{
    reveal(Message::spec_wf);
    reveal(Message::spec_self_delimiting);
    let all = m.spec_bytes() + rest;
    assert(all[0] == Opcode::InactiveSource.code());
    lemma_dispatch_inactive_source(all);
    match m {
        Message::InactiveSource { address } => lemma_fields_inactive_source(address, rest),
        _ => {},
    }
}

/// A message whose first byte is the opcode of `RequestActiveSource` decodes as one.
proof fn lemma_dispatch_request_active_source(bytes: Seq<u8>)
    requires
        bytes.len() >= 1,
        bytes[0] == Opcode::RequestActiveSource.code(),
    ensures
        Message::spec_parse(bytes) == Ok::<Message, ErrorView>(Message::RequestActiveSource),
{
    reveal(Message::spec_parse);
    Opcode::RequestActiveSource.lemma_code(0);
}

/// The encoding of a `RequestActiveSource`, followed by `rest`, decodes back to it.
proof fn lemma_roundtrip_request_active_source(m: Message, rest: Seq<u8>)
    requires
        m is RequestActiveSource,
        m.spec_wf(),
        m.spec_self_delimiting() || rest.len() == 0,
    ensures
        Message::spec_parse(m.spec_bytes() + rest) == Ok::<Message, ErrorView>(m),
{
    reveal(Message::spec_wf);
    reveal(Message::spec_self_delimiting);
    let all = m.spec_bytes() + rest;
    assert(all[0] == Opcode::RequestActiveSource.code());
    lemma_dispatch_request_active_source(all);
}

/// A message whose first byte is the opcode of `RoutingChange` decodes as one.
proof fn lemma_dispatch_routing_change(bytes: Seq<u8>)
    requires
        bytes.len() >= 1,
        bytes[0] == Opcode::RoutingChange.code(),
    ensures
        Message::spec_parse(bytes) == parse_routing_change(bytes),
{
    reveal(Message::spec_parse);
    Opcode::RoutingChange.lemma_code(0);
}

/// The encoding of a `RoutingChange`, followed by `rest`, decodes back to it.
proof fn lemma_roundtrip_routing_change(m: Message, rest: Seq<u8>)
    requires
        m is RoutingChange,
        m.spec_wf(),
        m.spec_self_delimiting() || rest.len() == 0,
    ensures
        Message::spec_parse(m.spec_bytes() + rest) == Ok::<Message, ErrorView>(m),
{
    reveal(Message::spec_wf);
    reveal(Message::spec_self_delimiting);
    let all = m.spec_bytes() + rest;
    assert(all[0] == Opcode::RoutingChange.code());
    lemma_dispatch_routing_change(all);
    match m {
        Message::RoutingChange { original_address, new_address } => lemma_fields_routing_change(original_address, new_address, rest),
        _ => {},
    }
}

/// A message whose first byte is the opcode of `RoutingInformation` decodes as one.
proof fn lemma_dispatch_routing_information(bytes: Seq<u8>)
    requires
        bytes.len() >= 1,
        bytes[0] == Opcode::RoutingInformation.code(),
    ensures
        Message::spec_parse(bytes) == parse_routing_information(bytes),
{
    reveal(Message::spec_parse);
    Opcode::RoutingInformation.lemma_code(0);
}

/// The encoding of a `RoutingInformation`, followed by `rest`, decodes back to it.
proof fn lemma_roundtrip_routing_information(m: Message, rest: Seq<u8>)
    requires
        m is RoutingInformation,
        m.spec_wf(),
        m.spec_self_delimiting() || rest.len() == 0,
    ensures
        Message::spec_parse(m.spec_bytes() + rest) == Ok::<Message, ErrorView>(m),
{
    reveal(Message::spec_wf);
    reveal(Message::spec_self_delimiting);
    let all = m.spec_bytes() + rest;
    assert(all[0] == Opcode::RoutingInformation.code());
    lemma_dispatch_routing_information(all);
    match m {
        Message::RoutingInformation { address } => lemma_fields_routing_information(address, rest),
        _ => {},
    }
}

/// A message whose first byte is the opcode of `SetStreamPath` decodes as one.
proof fn lemma_dispatch_set_stream_path(bytes: Seq<u8>)
    requires
        bytes.len() >= 1,
        bytes[0] == Opcode::SetStreamPath.code(),
    ensures
        Message::spec_parse(bytes) == parse_set_stream_path(bytes),
{
    reveal(Message::spec_parse);
    Opcode::SetStreamPath.lemma_code(0);
}

/// The encoding of a `SetStreamPath`, followed by `rest`, decodes back to it.
proof fn lemma_roundtrip_set_stream_path(m: Message, rest: Seq<u8>)
    requires
        m is SetStreamPath,
        m.spec_wf(),
        m.spec_self_delimiting() || rest.len() == 0,
    ensures
        Message::spec_parse(m.spec_bytes() + rest) == Ok::<Message, ErrorView>(m),
{
    reveal(Message::spec_wf);
    reveal(Message::spec_self_delimiting);
    let all = m.spec_bytes() + rest;
    assert(all[0] == Opcode::SetStreamPath.code());
    lemma_dispatch_set_stream_path(all);
    match m {
        Message::SetStreamPath { address } => lemma_fields_set_stream_path(address, rest),
        _ => {},
    }
}

/// A message whose first byte is the opcode of `Standby` decodes as one.
proof fn lemma_dispatch_standby(bytes: Seq<u8>)
    requires
        bytes.len() >= 1,
        bytes[0] == Opcode::Standby.code(),
    ensures
        Message::spec_parse(bytes) == Ok::<Message, ErrorView>(Message::Standby),
{
    reveal(Message::spec_parse);
    Opcode::Standby.lemma_code(0);
}

/// The encoding of a `Standby`, followed by `rest`, decodes back to it.
proof fn lemma_roundtrip_standby(m: Message, rest: Seq<u8>)
    requires
        m is Standby,
        m.spec_wf(),
        m.spec_self_delimiting() || rest.len() == 0,
    ensures
        Message::spec_parse(m.spec_bytes() + rest) == Ok::<Message, ErrorView>(m),
{
    reveal(Message::spec_wf);
    reveal(Message::spec_self_delimiting);
    let all = m.spec_bytes() + rest;
    assert(all[0] == Opcode::Standby.code());
    lemma_dispatch_standby(all);
}

/// A message whose first byte is the opcode of `RecordOff` decodes as one.
proof fn lemma_dispatch_record_off(bytes: Seq<u8>)
    requires
        bytes.len() >= 1,
        bytes[0] == Opcode::RecordOff.code(),
    ensures
        Message::spec_parse(bytes) == Ok::<Message, ErrorView>(Message::RecordOff),
{
    reveal(Message::spec_parse);
    Opcode::RecordOff.lemma_code(0);
}

/// The encoding of a `RecordOff`, followed by `rest`, decodes back to it.
proof fn lemma_roundtrip_record_off(m: Message, rest: Seq<u8>)
    requires
        m is RecordOff,
        m.spec_wf(),
        m.spec_self_delimiting() || rest.len() == 0,
    ensures
        Message::spec_parse(m.spec_bytes() + rest) == Ok::<Message, ErrorView>(m),
{
    reveal(Message::spec_wf);
    reveal(Message::spec_self_delimiting);
    let all = m.spec_bytes() + rest;
    assert(all[0] == Opcode::RecordOff.code());
    lemma_dispatch_record_off(all);
}

/// A message whose first byte is the opcode of `RecordOn` decodes as one.
proof fn lemma_dispatch_record_on(bytes: Seq<u8>)
    requires
        bytes.len() >= 1,
        bytes[0] == Opcode::RecordOn.code(),
    ensures
        Message::spec_parse(bytes) == parse_record_on(bytes),
{
    reveal(Message::spec_parse);
    Opcode::RecordOn.lemma_code(0);
}

/// The encoding of a `RecordOn`, followed by `rest`, decodes back to it.
proof fn lemma_roundtrip_record_on(m: Message, rest: Seq<u8>)
    requires
        m is RecordOn,
        m.spec_wf(),
        m.spec_self_delimiting() || rest.len() == 0,
    ensures
        Message::spec_parse(m.spec_bytes() + rest) == Ok::<Message, ErrorView>(m),
{
    reveal(Message::spec_wf);
    reveal(Message::spec_self_delimiting);
    let all = m.spec_bytes() + rest;
    assert(all[0] == Opcode::RecordOn.code());
    lemma_dispatch_record_on(all);
    match m {
        Message::RecordOn { source } => lemma_fields_record_on(source, rest),
        _ => {},
    }
}

/// A message whose first byte is the opcode of `RecordStatus` decodes as one.
proof fn lemma_dispatch_record_status(bytes: Seq<u8>)
    requires
        bytes.len() >= 1,
        bytes[0] == Opcode::RecordStatus.code(),
    ensures
        Message::spec_parse(bytes) == parse_record_status(bytes),
{
    reveal(Message::spec_parse);
    Opcode::RecordStatus.lemma_code(0);
}

/// The encoding of a `RecordStatus`, followed by `rest`, decodes back to it.
proof fn lemma_roundtrip_record_status(m: Message, rest: Seq<u8>)
    requires
        m is RecordStatus,
        m.spec_wf(),
        m.spec_self_delimiting() || rest.len() == 0,
    ensures
        Message::spec_parse(m.spec_bytes() + rest) == Ok::<Message, ErrorView>(m),
{
    reveal(Message::spec_wf);
    reveal(Message::spec_self_delimiting);
    let all = m.spec_bytes() + rest;
    assert(all[0] == Opcode::RecordStatus.code());
    lemma_dispatch_record_status(all);
    match m {
        Message::RecordStatus { status } => lemma_fields_record_status(status, rest),
        _ => {},
    }
}

/// A message whose first byte is the opcode of `RecordTvScreen` decodes as one.
proof fn lemma_dispatch_record_tv_screen(bytes: Seq<u8>)
    requires
        bytes.len() >= 1,
        bytes[0] == Opcode::RecordTvScreen.code(),
    ensures
        Message::spec_parse(bytes) == Ok::<Message, ErrorView>(Message::RecordTvScreen),
{
    reveal(Message::spec_parse);
    Opcode::RecordTvScreen.lemma_code(0);
}

/// The encoding of a `RecordTvScreen`, followed by `rest`, decodes back to it.
proof fn lemma_roundtrip_record_tv_screen(m: Message, rest: Seq<u8>)
    requires
        m is RecordTvScreen,
        m.spec_wf(),
        m.spec_self_delimiting() || rest.len() == 0,
    ensures
        Message::spec_parse(m.spec_bytes() + rest) == Ok::<Message, ErrorView>(m),
{
    reveal(Message::spec_wf);
    reveal(Message::spec_self_delimiting);
    let all = m.spec_bytes() + rest;
    assert(all[0] == Opcode::RecordTvScreen.code());
    lemma_dispatch_record_tv_screen(all);
}

/// A message whose first byte is the opcode of `ClearAnalogueTimer` decodes as one.
proof fn lemma_dispatch_clear_analogue_timer(bytes: Seq<u8>)
    requires
        bytes.len() >= 1,
        bytes[0] == Opcode::ClearAnalogueTimer.code(),
    ensures
        Message::spec_parse(bytes) == parse_clear_analogue_timer(bytes),
{
    reveal(Message::spec_parse);
    Opcode::ClearAnalogueTimer.lemma_code(0);
}

/// The encoding of a `ClearAnalogueTimer`, followed by `rest`, decodes back to it.
proof fn lemma_roundtrip_clear_analogue_timer(m: Message, rest: Seq<u8>)
    requires
        m is ClearAnalogueTimer,
        m.spec_wf(),
        m.spec_self_delimiting() || rest.len() == 0,
    ensures
        Message::spec_parse(m.spec_bytes() + rest) == Ok::<Message, ErrorView>(m),
{
    reveal(Message::spec_wf);
    reveal(Message::spec_self_delimiting);
    let all = m.spec_bytes() + rest;
    assert(all[0] == Opcode::ClearAnalogueTimer.code());
    lemma_dispatch_clear_analogue_timer(all);
    match m {
        Message::ClearAnalogueTimer { day_of_month, month_of_year, start_time, duration, recording_sequence, service_id } => lemma_fields_clear_analogue_timer(day_of_month, month_of_year, start_time, duration, recording_sequence, service_id, rest),
        _ => {},
    }
}

/// A message whose first byte is the opcode of `ClearDigitalTimer` decodes as one.
proof fn lemma_dispatch_clear_digital_timer(bytes: Seq<u8>)
    requires
        bytes.len() >= 1,
        bytes[0] == Opcode::ClearDigitalTimer.code(),
    ensures
        Message::spec_parse(bytes) == parse_clear_digital_timer(bytes),
{
    reveal(Message::spec_parse);
    Opcode::ClearDigitalTimer.lemma_code(0);
}

/// The encoding of a `ClearDigitalTimer`, followed by `rest`, decodes back to it.
proof fn lemma_roundtrip_clear_digital_timer(m: Message, rest: Seq<u8>)
    requires
        m is ClearDigitalTimer,
        m.spec_wf(),
        m.spec_self_delimiting() || rest.len() == 0,
    ensures
        Message::spec_parse(m.spec_bytes() + rest) == Ok::<Message, ErrorView>(m),
{
    reveal(Message::spec_wf);
    reveal(Message::spec_self_delimiting);
    let all = m.spec_bytes() + rest;
    assert(all[0] == Opcode::ClearDigitalTimer.code());
    lemma_dispatch_clear_digital_timer(all);
    match m {
        Message::ClearDigitalTimer { day_of_month, month_of_year, start_time, duration, recording_sequence, service_id } => lemma_fields_clear_digital_timer(day_of_month, month_of_year, start_time, duration, recording_sequence, service_id, rest),
        _ => {},
    }
}

/// A message whose first byte is the opcode of `ClearExtTimer` decodes as one.
proof fn lemma_dispatch_clear_ext_timer(bytes: Seq<u8>)
    requires
        bytes.len() >= 1,
        bytes[0] == Opcode::ClearExtTimer.code(),
    ensures
        Message::spec_parse(bytes) == parse_clear_ext_timer(bytes),
{
    reveal(Message::spec_parse);
    Opcode::ClearExtTimer.lemma_code(0);
}

/// The encoding of a `ClearExtTimer`, followed by `rest`, decodes back to it.
proof fn lemma_roundtrip_clear_ext_timer(m: Message, rest: Seq<u8>)
    requires
        m is ClearExtTimer,
        m.spec_wf(),
        m.spec_self_delimiting() || rest.len() == 0,
    ensures
        Message::spec_parse(m.spec_bytes() + rest) == Ok::<Message, ErrorView>(m),
{
    reveal(Message::spec_wf);
    reveal(Message::spec_self_delimiting);
    let all = m.spec_bytes() + rest;
    assert(all[0] == Opcode::ClearExtTimer.code());
    lemma_dispatch_clear_ext_timer(all);
    match m {
        Message::ClearExtTimer { day_of_month, month_of_year, start_time, duration, recording_sequence, external_source } => lemma_fields_clear_ext_timer(day_of_month, month_of_year, start_time, duration, recording_sequence, external_source, rest),
        _ => {},
    }
}

/// A message whose first byte is the opcode of `SetAnalogueTimer` decodes as one.
proof fn lemma_dispatch_set_analogue_timer(bytes: Seq<u8>)
    requires
        bytes.len() >= 1,
        bytes[0] == Opcode::SetAnalogueTimer.code(),
    ensures
        Message::spec_parse(bytes) == parse_set_analogue_timer(bytes),
{
    reveal(Message::spec_parse);
    Opcode::SetAnalogueTimer.lemma_code(0);
}

/// The encoding of a `SetAnalogueTimer`, followed by `rest`, decodes back to it.
proof fn lemma_roundtrip_set_analogue_timer(m: Message, rest: Seq<u8>)
    requires
        m is SetAnalogueTimer,
        m.spec_wf(),
        m.spec_self_delimiting() || rest.len() == 0,
    ensures
        Message::spec_parse(m.spec_bytes() + rest) == Ok::<Message, ErrorView>(m),
{
    reveal(Message::spec_wf);
    reveal(Message::spec_self_delimiting);
    let all = m.spec_bytes() + rest;
    assert(all[0] == Opcode::SetAnalogueTimer.code());
    lemma_dispatch_set_analogue_timer(all);
    match m {
        Message::SetAnalogueTimer { day_of_month, month_of_year, start_time, duration, recording_sequence, service_id } => lemma_fields_set_analogue_timer(day_of_month, month_of_year, start_time, duration, recording_sequence, service_id, rest),
        _ => {},
    }
}

/// A message whose first byte is the opcode of `SetDigitalTimer` decodes as one.
proof fn lemma_dispatch_set_digital_timer(bytes: Seq<u8>)
    requires
        bytes.len() >= 1,
        bytes[0] == Opcode::SetDigitalTimer.code(),
    ensures
        Message::spec_parse(bytes) == parse_set_digital_timer(bytes),
{
    reveal(Message::spec_parse);
    Opcode::SetDigitalTimer.lemma_code(0);
}

/// The encoding of a `SetDigitalTimer`, followed by `rest`, decodes back to it.
proof fn lemma_roundtrip_set_digital_timer(m: Message, rest: Seq<u8>)
    requires
        m is SetDigitalTimer,
        m.spec_wf(),
        m.spec_self_delimiting() || rest.len() == 0,
    ensures
        Message::spec_parse(m.spec_bytes() + rest) == Ok::<Message, ErrorView>(m),
{
    reveal(Message::spec_wf);
    reveal(Message::spec_self_delimiting);
    let all = m.spec_bytes() + rest;
    assert(all[0] == Opcode::SetDigitalTimer.code());
    lemma_dispatch_set_digital_timer(all);
    match m {
        Message::SetDigitalTimer { day_of_month, month_of_year, start_time, duration, recording_sequence, service_id } => lemma_fields_set_digital_timer(day_of_month, month_of_year, start_time, duration, recording_sequence, service_id, rest),
        _ => {},
    }
}

/// A message whose first byte is the opcode of `SetExtTimer` decodes as one.
proof fn lemma_dispatch_set_ext_timer(bytes: Seq<u8>)
    requires
        bytes.len() >= 1,
        bytes[0] == Opcode::SetExtTimer.code(),
    ensures
        Message::spec_parse(bytes) == parse_set_ext_timer(bytes),
{
    reveal(Message::spec_parse);
    Opcode::SetExtTimer.lemma_code(0);
}

/// The encoding of a `SetExtTimer`, followed by `rest`, decodes back to it.
proof fn lemma_roundtrip_set_ext_timer(m: Message, rest: Seq<u8>)
    requires
        m is SetExtTimer,
        m.spec_wf(),
        m.spec_self_delimiting() || rest.len() == 0,
    ensures
        Message::spec_parse(m.spec_bytes() + rest) == Ok::<Message, ErrorView>(m),
{
    reveal(Message::spec_wf);
    reveal(Message::spec_self_delimiting);
    let all = m.spec_bytes() + rest;
    assert(all[0] == Opcode::SetExtTimer.code());
    lemma_dispatch_set_ext_timer(all);
    match m {
        Message::SetExtTimer { day_of_month, month_of_year, start_time, duration, recording_sequence, external_source } => lemma_fields_set_ext_timer(day_of_month, month_of_year, start_time, duration, recording_sequence, external_source, rest),
        _ => {},
    }
}

/// A message whose first byte is the opcode of `SetTimerProgramTitle` decodes as one.
proof fn lemma_dispatch_set_timer_program_title(bytes: Seq<u8>)
    requires
        bytes.len() >= 1,
        bytes[0] == Opcode::SetTimerProgramTitle.code(),
    ensures
        Message::spec_parse(bytes) == parse_set_timer_program_title(bytes),
{
    reveal(Message::spec_parse);
    Opcode::SetTimerProgramTitle.lemma_code(0);
}

/// The encoding of a `SetTimerProgramTitle`, followed by `rest`, decodes back to it.
proof fn lemma_roundtrip_set_timer_program_title(m: Message, rest: Seq<u8>)
    requires
        m is SetTimerProgramTitle,
        m.spec_wf(),
        m.spec_self_delimiting() || rest.len() == 0,
    ensures
        Message::spec_parse(m.spec_bytes() + rest) == Ok::<Message, ErrorView>(m),
{
    reveal(Message::spec_wf);
    reveal(Message::spec_self_delimiting);
    let all = m.spec_bytes() + rest;
    assert(all[0] == Opcode::SetTimerProgramTitle.code());
    lemma_dispatch_set_timer_program_title(all);
    match m {
        Message::SetTimerProgramTitle { title } => lemma_fields_set_timer_program_title(title, rest),
        _ => {},
    }
}

/// A message whose first byte is the opcode of `TimerClearedStatus` decodes as one.
proof fn lemma_dispatch_timer_cleared_status(bytes: Seq<u8>)
    requires
        bytes.len() >= 1,
        bytes[0] == Opcode::TimerClearedStatus.code(),
    ensures
        Message::spec_parse(bytes) == parse_timer_cleared_status(bytes),
{
    reveal(Message::spec_parse);
    Opcode::TimerClearedStatus.lemma_code(0);
}

/// The encoding of a `TimerClearedStatus`, followed by `rest`, decodes back to it.
proof fn lemma_roundtrip_timer_cleared_status(m: Message, rest: Seq<u8>)
    requires
        m is TimerClearedStatus,
        m.spec_wf(),
        m.spec_self_delimiting() || rest.len() == 0,
    ensures
        Message::spec_parse(m.spec_bytes() + rest) == Ok::<Message, ErrorView>(m),
{
    reveal(Message::spec_wf);
    reveal(Message::spec_self_delimiting);
    let all = m.spec_bytes() + rest;
    assert(all[0] == Opcode::TimerClearedStatus.code());
    lemma_dispatch_timer_cleared_status(all);
    match m {
        Message::TimerClearedStatus { status } => lemma_fields_timer_cleared_status(status, rest),
        _ => {},
    }
}

/// A message whose first byte is the opcode of `TimerStatus` decodes as one.
proof fn lemma_dispatch_timer_status(bytes: Seq<u8>)
    requires
        bytes.len() >= 1,
        bytes[0] == Opcode::TimerStatus.code(),
    ensures
        Message::spec_parse(bytes) == parse_timer_status(bytes),
{
    reveal(Message::spec_parse);
    Opcode::TimerStatus.lemma_code(0);
}

/// The encoding of a `TimerStatus`, followed by `rest`, decodes back to it.
proof fn lemma_roundtrip_timer_status(m: Message, rest: Seq<u8>)
    requires
        m is TimerStatus,
        m.spec_wf(),
        m.spec_self_delimiting() || rest.len() == 0,
    ensures
        Message::spec_parse(m.spec_bytes() + rest) == Ok::<Message, ErrorView>(m),
{
    reveal(Message::spec_wf);
    reveal(Message::spec_self_delimiting);
    let all = m.spec_bytes() + rest;
    assert(all[0] == Opcode::TimerStatus.code());
    lemma_dispatch_timer_status(all);
    match m {
        Message::TimerStatus { status } => lemma_fields_timer_status(status, rest),
        _ => {},
    }
}

/// A message whose first byte is the opcode of `CecVersion` decodes as one.
proof fn lemma_dispatch_cec_version(bytes: Seq<u8>)
    requires
        bytes.len() >= 1,
        bytes[0] == Opcode::CecVersion.code(),
    ensures
        Message::spec_parse(bytes) == parse_cec_version(bytes),
{
    reveal(Message::spec_parse);
    Opcode::CecVersion.lemma_code(0);
}

/// The encoding of a `CecVersion`, followed by `rest`, decodes back to it.
proof fn lemma_roundtrip_cec_version(m: Message, rest: Seq<u8>)
    requires
        m is CecVersion,
        m.spec_wf(),
        m.spec_self_delimiting() || rest.len() == 0,
    ensures
        Message::spec_parse(m.spec_bytes() + rest) == Ok::<Message, ErrorView>(m),
{
    reveal(Message::spec_wf);
    reveal(Message::spec_self_delimiting);
    let all = m.spec_bytes() + rest;
    assert(all[0] == Opcode::CecVersion.code());
    lemma_dispatch_cec_version(all);
    match m {
        Message::CecVersion { version } => lemma_fields_cec_version(version, rest),
        _ => {},
    }
}

/// A message whose first byte is the opcode of `GetCecVersion` decodes as one.
proof fn lemma_dispatch_get_cec_version(bytes: Seq<u8>)
    requires
        bytes.len() >= 1,
        bytes[0] == Opcode::GetCecVersion.code(),
    ensures
        Message::spec_parse(bytes) == Ok::<Message, ErrorView>(Message::GetCecVersion),
{
    reveal(Message::spec_parse);
    Opcode::GetCecVersion.lemma_code(0);
}

/// The encoding of a `GetCecVersion`, followed by `rest`, decodes back to it.
proof fn lemma_roundtrip_get_cec_version(m: Message, rest: Seq<u8>)
    requires
        m is GetCecVersion,
        m.spec_wf(),
        m.spec_self_delimiting() || rest.len() == 0,
    ensures
        Message::spec_parse(m.spec_bytes() + rest) == Ok::<Message, ErrorView>(m),
{
    reveal(Message::spec_wf);
    reveal(Message::spec_self_delimiting);
    let all = m.spec_bytes() + rest;
    assert(all[0] == Opcode::GetCecVersion.code());
    lemma_dispatch_get_cec_version(all);
}

/// A message whose first byte is the opcode of `GivePhysicalAddr` decodes as one.
proof fn lemma_dispatch_give_physical_addr(bytes: Seq<u8>)
    requires
        bytes.len() >= 1,
        bytes[0] == Opcode::GivePhysicalAddr.code(),
    ensures
        Message::spec_parse(bytes) == Ok::<Message, ErrorView>(Message::GivePhysicalAddr),
{
    reveal(Message::spec_parse);
    Opcode::GivePhysicalAddr.lemma_code(0);
}

/// The encoding of a `GivePhysicalAddr`, followed by `rest`, decodes back to it.
proof fn lemma_roundtrip_give_physical_addr(m: Message, rest: Seq<u8>)
    requires
        m is GivePhysicalAddr,
        m.spec_wf(),
        m.spec_self_delimiting() || rest.len() == 0,
    ensures
        Message::spec_parse(m.spec_bytes() + rest) == Ok::<Message, ErrorView>(m),
{
    reveal(Message::spec_wf);
    reveal(Message::spec_self_delimiting);
    let all = m.spec_bytes() + rest;
    assert(all[0] == Opcode::GivePhysicalAddr.code());
    lemma_dispatch_give_physical_addr(all);
}

/// A message whose first byte is the opcode of `GetMenuLanguage` decodes as one.
proof fn lemma_dispatch_get_menu_language(bytes: Seq<u8>)
    requires
        bytes.len() >= 1,
        bytes[0] == Opcode::GetMenuLanguage.code(),
    ensures
        Message::spec_parse(bytes) == Ok::<Message, ErrorView>(Message::GetMenuLanguage),
{
    reveal(Message::spec_parse);
    Opcode::GetMenuLanguage.lemma_code(0);
}

/// The encoding of a `GetMenuLanguage`, followed by `rest`, decodes back to it.
proof fn lemma_roundtrip_get_menu_language(m: Message, rest: Seq<u8>)
    requires
        m is GetMenuLanguage,
        m.spec_wf(),
        m.spec_self_delimiting() || rest.len() == 0,
    ensures
        Message::spec_parse(m.spec_bytes() + rest) == Ok::<Message, ErrorView>(m),
{
    reveal(Message::spec_wf);
    reveal(Message::spec_self_delimiting);
    let all = m.spec_bytes() + rest;
    assert(all[0] == Opcode::GetMenuLanguage.code());
    lemma_dispatch_get_menu_language(all);
}

/// A message whose first byte is the opcode of `ReportPhysicalAddr` decodes as one.
proof fn lemma_dispatch_report_physical_addr(bytes: Seq<u8>)
    requires
        bytes.len() >= 1,
        bytes[0] == Opcode::ReportPhysicalAddr.code(),
    ensures
        Message::spec_parse(bytes) == parse_report_physical_addr(bytes),
{
    reveal(Message::spec_parse);
    Opcode::ReportPhysicalAddr.lemma_code(0);
}

/// The encoding of a `ReportPhysicalAddr`, followed by `rest`, decodes back to it.
proof fn lemma_roundtrip_report_physical_addr(m: Message, rest: Seq<u8>)
    requires
        m is ReportPhysicalAddr,
        m.spec_wf(),
        m.spec_self_delimiting() || rest.len() == 0,
    ensures
        Message::spec_parse(m.spec_bytes() + rest) == Ok::<Message, ErrorView>(m),
{
    reveal(Message::spec_wf);
    reveal(Message::spec_self_delimiting);
    let all = m.spec_bytes() + rest;
    assert(all[0] == Opcode::ReportPhysicalAddr.code());
    lemma_dispatch_report_physical_addr(all);
    match m {
        Message::ReportPhysicalAddr { physical_address, device_type } => lemma_fields_report_physical_addr(physical_address, device_type, rest),
        _ => {},
    }
}

/// A message whose first byte is the opcode of `SetMenuLanguage` decodes as one.
proof fn lemma_dispatch_set_menu_language(bytes: Seq<u8>)
    requires
        bytes.len() >= 1,
        bytes[0] == Opcode::SetMenuLanguage.code(),
    ensures
        Message::spec_parse(bytes) == parse_set_menu_language(bytes),
{
    reveal(Message::spec_parse);
    Opcode::SetMenuLanguage.lemma_code(0);
}

/// The encoding of a `SetMenuLanguage`, followed by `rest`, decodes back to it.
proof fn lemma_roundtrip_set_menu_language(m: Message, rest: Seq<u8>)
    requires
        m is SetMenuLanguage,
        m.spec_wf(),
        m.spec_self_delimiting() || rest.len() == 0,
    ensures
        Message::spec_parse(m.spec_bytes() + rest) == Ok::<Message, ErrorView>(m),
{
    reveal(Message::spec_wf);
    reveal(Message::spec_self_delimiting);
    let all = m.spec_bytes() + rest;
    assert(all[0] == Opcode::SetMenuLanguage.code());
    lemma_dispatch_set_menu_language(all);
    match m {
        Message::SetMenuLanguage { language } => lemma_fields_set_menu_language(language, rest),
        _ => {},
    }
}

/// A message whose first byte is the opcode of `DeckControl` decodes as one.
proof fn lemma_dispatch_deck_control(bytes: Seq<u8>)
    requires
        bytes.len() >= 1,
        bytes[0] == Opcode::DeckControl.code(),
    ensures
        Message::spec_parse(bytes) == parse_deck_control(bytes),
{
    reveal(Message::spec_parse);
    Opcode::DeckControl.lemma_code(0);
}

/// The encoding of a `DeckControl`, followed by `rest`, decodes back to it.
proof fn lemma_roundtrip_deck_control(m: Message, rest: Seq<u8>)
    requires
        m is DeckControl,
        m.spec_wf(),
        m.spec_self_delimiting() || rest.len() == 0,
    ensures
        Message::spec_parse(m.spec_bytes() + rest) == Ok::<Message, ErrorView>(m),
{
    reveal(Message::spec_wf);
    reveal(Message::spec_self_delimiting);
    let all = m.spec_bytes() + rest;
    assert(all[0] == Opcode::DeckControl.code());
    lemma_dispatch_deck_control(all);
    match m {
        Message::DeckControl { mode } => lemma_fields_deck_control(mode, rest),
        _ => {},
    }
}

/// A message whose first byte is the opcode of `DeckStatus` decodes as one.
proof fn lemma_dispatch_deck_status(bytes: Seq<u8>)
    requires
        bytes.len() >= 1,
        bytes[0] == Opcode::DeckStatus.code(),
    ensures
        Message::spec_parse(bytes) == parse_deck_status(bytes),
{
    reveal(Message::spec_parse);
    Opcode::DeckStatus.lemma_code(0);
}

/// The encoding of a `DeckStatus`, followed by `rest`, decodes back to it.
proof fn lemma_roundtrip_deck_status(m: Message, rest: Seq<u8>)
    requires
        m is DeckStatus,
        m.spec_wf(),
        m.spec_self_delimiting() || rest.len() == 0,
    ensures
        Message::spec_parse(m.spec_bytes() + rest) == Ok::<Message, ErrorView>(m),
{
    reveal(Message::spec_wf);
    reveal(Message::spec_self_delimiting);
    let all = m.spec_bytes() + rest;
    assert(all[0] == Opcode::DeckStatus.code());
    lemma_dispatch_deck_status(all);
    match m {
        Message::DeckStatus { info } => lemma_fields_deck_status(info, rest),
        _ => {},
    }
}

/// A message whose first byte is the opcode of `GiveDeckStatus` decodes as one.
proof fn lemma_dispatch_give_deck_status(bytes: Seq<u8>)
    requires
        bytes.len() >= 1,
        bytes[0] == Opcode::GiveDeckStatus.code(),
    ensures
        Message::spec_parse(bytes) == parse_give_deck_status(bytes),
{
    reveal(Message::spec_parse);
    Opcode::GiveDeckStatus.lemma_code(0);
}

/// The encoding of a `GiveDeckStatus`, followed by `rest`, decodes back to it.
proof fn lemma_roundtrip_give_deck_status(m: Message, rest: Seq<u8>)
    requires
        m is GiveDeckStatus,
        m.spec_wf(),
        m.spec_self_delimiting() || rest.len() == 0,
    ensures
        Message::spec_parse(m.spec_bytes() + rest) == Ok::<Message, ErrorView>(m),
{
    reveal(Message::spec_wf);
    reveal(Message::spec_self_delimiting);
    let all = m.spec_bytes() + rest;
    assert(all[0] == Opcode::GiveDeckStatus.code());
    lemma_dispatch_give_deck_status(all);
    match m {
        Message::GiveDeckStatus { request } => lemma_fields_give_deck_status(request, rest),
        _ => {},
    }
}

/// A message whose first byte is the opcode of `Play` decodes as one.
proof fn lemma_dispatch_play(bytes: Seq<u8>)
    requires
        bytes.len() >= 1,
        bytes[0] == Opcode::Play.code(),
    ensures
        Message::spec_parse(bytes) == parse_play(bytes),
{
    reveal(Message::spec_parse);
    Opcode::Play.lemma_code(0);
}

/// The encoding of a `Play`, followed by `rest`, decodes back to it.
proof fn lemma_roundtrip_play(m: Message, rest: Seq<u8>)
    requires
        m is Play,
        m.spec_wf(),
        m.spec_self_delimiting() || rest.len() == 0,
    ensures
        Message::spec_parse(m.spec_bytes() + rest) == Ok::<Message, ErrorView>(m),
{
    reveal(Message::spec_wf);
    reveal(Message::spec_self_delimiting);
    let all = m.spec_bytes() + rest;
    assert(all[0] == Opcode::Play.code());
    lemma_dispatch_play(all);
    match m {
        Message::Play { mode } => lemma_fields_play(mode, rest),
        _ => {},
    }
}

/// A message whose first byte is the opcode of `GiveTunerDeviceStatus` decodes as one.
proof fn lemma_dispatch_give_tuner_device_status(bytes: Seq<u8>)
    requires
        bytes.len() >= 1,
        bytes[0] == Opcode::GiveTunerDeviceStatus.code(),
    ensures
        Message::spec_parse(bytes) == parse_give_tuner_device_status(bytes),
{
    reveal(Message::spec_parse);
    Opcode::GiveTunerDeviceStatus.lemma_code(0);
}

/// The encoding of a `GiveTunerDeviceStatus`, followed by `rest`, decodes back to it.
proof fn lemma_roundtrip_give_tuner_device_status(m: Message, rest: Seq<u8>)
    requires
        m is GiveTunerDeviceStatus,
        m.spec_wf(),
        m.spec_self_delimiting() || rest.len() == 0,
    ensures
        Message::spec_parse(m.spec_bytes() + rest) == Ok::<Message, ErrorView>(m),
{
    reveal(Message::spec_wf);
    reveal(Message::spec_self_delimiting);
    let all = m.spec_bytes() + rest;
    assert(all[0] == Opcode::GiveTunerDeviceStatus.code());
    lemma_dispatch_give_tuner_device_status(all);
    match m {
        Message::GiveTunerDeviceStatus { request } => lemma_fields_give_tuner_device_status(request, rest),
        _ => {},
    }
}

/// A message whose first byte is the opcode of `SelectAnalogueService` decodes as one.
proof fn lemma_dispatch_select_analogue_service(bytes: Seq<u8>)
    requires
        bytes.len() >= 1,
        bytes[0] == Opcode::SelectAnalogueService.code(),
    ensures
        Message::spec_parse(bytes) == parse_select_analogue_service(bytes),
{
    reveal(Message::spec_parse);
    Opcode::SelectAnalogueService.lemma_code(0);
}

/// The encoding of a `SelectAnalogueService`, followed by `rest`, decodes back to it.
proof fn lemma_roundtrip_select_analogue_service(m: Message, rest: Seq<u8>)
    requires
        m is SelectAnalogueService,
        m.spec_wf(),
        m.spec_self_delimiting() || rest.len() == 0,
    ensures
        Message::spec_parse(m.spec_bytes() + rest) == Ok::<Message, ErrorView>(m),
{
    reveal(Message::spec_wf);
    reveal(Message::spec_self_delimiting);
    let all = m.spec_bytes() + rest;
    assert(all[0] == Opcode::SelectAnalogueService.code());
    lemma_dispatch_select_analogue_service(all);
    match m {
        Message::SelectAnalogueService { service_id } => lemma_fields_select_analogue_service(service_id, rest),
        _ => {},
    }
}

/// A message whose first byte is the opcode of `SelectDigitalService` decodes as one.
proof fn lemma_dispatch_select_digital_service(bytes: Seq<u8>)
    requires
        bytes.len() >= 1,
        bytes[0] == Opcode::SelectDigitalService.code(),
    ensures
        Message::spec_parse(bytes) == parse_select_digital_service(bytes),
{
    reveal(Message::spec_parse);
    Opcode::SelectDigitalService.lemma_code(0);
}

/// The encoding of a `SelectDigitalService`, followed by `rest`, decodes back to it.
proof fn lemma_roundtrip_select_digital_service(m: Message, rest: Seq<u8>)
    requires
        m is SelectDigitalService,
        m.spec_wf(),
        m.spec_self_delimiting() || rest.len() == 0,
    ensures
        Message::spec_parse(m.spec_bytes() + rest) == Ok::<Message, ErrorView>(m),
{
    reveal(Message::spec_wf);
    reveal(Message::spec_self_delimiting);
    let all = m.spec_bytes() + rest;
    assert(all[0] == Opcode::SelectDigitalService.code());
    lemma_dispatch_select_digital_service(all);
    match m {
        Message::SelectDigitalService { service_id } => lemma_fields_select_digital_service(service_id, rest),
        _ => {},
    }
}

/// A message whose first byte is the opcode of `TunerDeviceStatus` decodes as one.
proof fn lemma_dispatch_tuner_device_status(bytes: Seq<u8>)
    requires
        bytes.len() >= 1,
        bytes[0] == Opcode::TunerDeviceStatus.code(),
    ensures
        Message::spec_parse(bytes) == parse_tuner_device_status(bytes),
{
    reveal(Message::spec_parse);
    Opcode::TunerDeviceStatus.lemma_code(0);
}

/// The encoding of a `TunerDeviceStatus`, followed by `rest`, decodes back to it.
proof fn lemma_roundtrip_tuner_device_status(m: Message, rest: Seq<u8>)
    requires
        m is TunerDeviceStatus,
        m.spec_wf(),
        m.spec_self_delimiting() || rest.len() == 0,
    ensures
        Message::spec_parse(m.spec_bytes() + rest) == Ok::<Message, ErrorView>(m),
{
    reveal(Message::spec_wf);
    reveal(Message::spec_self_delimiting);
    let all = m.spec_bytes() + rest;
    assert(all[0] == Opcode::TunerDeviceStatus.code());
    lemma_dispatch_tuner_device_status(all);
    match m {
        Message::TunerDeviceStatus { info } => lemma_fields_tuner_device_status(info, rest),
        _ => {},
    }
}

/// A message whose first byte is the opcode of `TunerStepDecrement` decodes as one.
proof fn lemma_dispatch_tuner_step_decrement(bytes: Seq<u8>)
    requires
        bytes.len() >= 1,
        bytes[0] == Opcode::TunerStepDecrement.code(),
    ensures
        Message::spec_parse(bytes) == Ok::<Message, ErrorView>(Message::TunerStepDecrement),
{
    reveal(Message::spec_parse);
    Opcode::TunerStepDecrement.lemma_code(0);
}

/// The encoding of a `TunerStepDecrement`, followed by `rest`, decodes back to it.
proof fn lemma_roundtrip_tuner_step_decrement(m: Message, rest: Seq<u8>)
    requires
        m is TunerStepDecrement,
        m.spec_wf(),
        m.spec_self_delimiting() || rest.len() == 0,
    ensures
        Message::spec_parse(m.spec_bytes() + rest) == Ok::<Message, ErrorView>(m),
{
    reveal(Message::spec_wf);
    reveal(Message::spec_self_delimiting);
    let all = m.spec_bytes() + rest;
    assert(all[0] == Opcode::TunerStepDecrement.code());
    lemma_dispatch_tuner_step_decrement(all);
}

/// A message whose first byte is the opcode of `TunerStepIncrement` decodes as one.
proof fn lemma_dispatch_tuner_step_increment(bytes: Seq<u8>)
    requires
        bytes.len() >= 1,
        bytes[0] == Opcode::TunerStepIncrement.code(),
    ensures
        Message::spec_parse(bytes) == Ok::<Message, ErrorView>(Message::TunerStepIncrement),
{
    reveal(Message::spec_parse);
    Opcode::TunerStepIncrement.lemma_code(0);
}

/// The encoding of a `TunerStepIncrement`, followed by `rest`, decodes back to it.
proof fn lemma_roundtrip_tuner_step_increment(m: Message, rest: Seq<u8>)
    requires
        m is TunerStepIncrement,
        m.spec_wf(),
        m.spec_self_delimiting() || rest.len() == 0,
    ensures
        Message::spec_parse(m.spec_bytes() + rest) == Ok::<Message, ErrorView>(m),
{
    reveal(Message::spec_wf);
    reveal(Message::spec_self_delimiting);
    let all = m.spec_bytes() + rest;
    assert(all[0] == Opcode::TunerStepIncrement.code());
    lemma_dispatch_tuner_step_increment(all);
}

/// A message whose first byte is the opcode of `DeviceVendorId` decodes as one.
proof fn lemma_dispatch_device_vendor_id(bytes: Seq<u8>)
    requires
        bytes.len() >= 1,
        bytes[0] == Opcode::DeviceVendorId.code(),
    ensures
        Message::spec_parse(bytes) == parse_device_vendor_id(bytes),
{
    reveal(Message::spec_parse);
    Opcode::DeviceVendorId.lemma_code(0);
}

/// The encoding of a `DeviceVendorId`, followed by `rest`, decodes back to it.
proof fn lemma_roundtrip_device_vendor_id(m: Message, rest: Seq<u8>)
    requires
        m is DeviceVendorId,
        m.spec_wf(),
        m.spec_self_delimiting() || rest.len() == 0,
    ensures
        Message::spec_parse(m.spec_bytes() + rest) == Ok::<Message, ErrorView>(m),
{
    reveal(Message::spec_wf);
    reveal(Message::spec_self_delimiting);
    let all = m.spec_bytes() + rest;
    assert(all[0] == Opcode::DeviceVendorId.code());
    lemma_dispatch_device_vendor_id(all);
    match m {
        Message::DeviceVendorId { vendor_id } => lemma_fields_device_vendor_id(vendor_id, rest),
        _ => {},
    }
}

/// A message whose first byte is the opcode of `GiveDeviceVendorId` decodes as one.
proof fn lemma_dispatch_give_device_vendor_id(bytes: Seq<u8>)
    requires
        bytes.len() >= 1,
        bytes[0] == Opcode::GiveDeviceVendorId.code(),
    ensures
        Message::spec_parse(bytes) == Ok::<Message, ErrorView>(Message::GiveDeviceVendorId),
{
    reveal(Message::spec_parse);
    Opcode::GiveDeviceVendorId.lemma_code(0);
}

/// The encoding of a `GiveDeviceVendorId`, followed by `rest`, decodes back to it.
proof fn lemma_roundtrip_give_device_vendor_id(m: Message, rest: Seq<u8>)
    requires
        m is GiveDeviceVendorId,
        m.spec_wf(),
        m.spec_self_delimiting() || rest.len() == 0,
    ensures
        Message::spec_parse(m.spec_bytes() + rest) == Ok::<Message, ErrorView>(m),
{
    reveal(Message::spec_wf);
    reveal(Message::spec_self_delimiting);
    let all = m.spec_bytes() + rest;
    assert(all[0] == Opcode::GiveDeviceVendorId.code());
    lemma_dispatch_give_device_vendor_id(all);
}

/// A message whose first byte is the opcode of `VendorCommand` decodes as one.
proof fn lemma_dispatch_vendor_command(bytes: Seq<u8>)
    requires
        bytes.len() >= 1,
        bytes[0] == Opcode::VendorCommand.code(),
    ensures
        Message::spec_parse(bytes) == parse_vendor_command(bytes),
{
    reveal(Message::spec_parse);
    Opcode::VendorCommand.lemma_code(0);
}

/// The encoding of a `VendorCommand`, followed by `rest`, decodes back to it.
proof fn lemma_roundtrip_vendor_command(m: Message, rest: Seq<u8>)
    requires
        m is VendorCommand,
        m.spec_wf(),
        m.spec_self_delimiting() || rest.len() == 0,
    ensures
        Message::spec_parse(m.spec_bytes() + rest) == Ok::<Message, ErrorView>(m),
{
    reveal(Message::spec_wf);
    reveal(Message::spec_self_delimiting);
    let all = m.spec_bytes() + rest;
    assert(all[0] == Opcode::VendorCommand.code());
    lemma_dispatch_vendor_command(all);
    match m {
        Message::VendorCommand { command } => lemma_fields_vendor_command(command, rest),
        _ => {},
    }
}

/// A message whose first byte is the opcode of `VendorCommandWithId` decodes as one.
proof fn lemma_dispatch_vendor_command_with_id(bytes: Seq<u8>)
    requires
        bytes.len() >= 1,
        bytes[0] == Opcode::VendorCommandWithId.code(),
    ensures
        Message::spec_parse(bytes) == parse_vendor_command_with_id(bytes),
{
    reveal(Message::spec_parse);
    Opcode::VendorCommandWithId.lemma_code(0);
}

/// The encoding of a `VendorCommandWithId`, followed by `rest`, decodes back to it.
proof fn lemma_roundtrip_vendor_command_with_id(m: Message, rest: Seq<u8>)
    requires
        m is VendorCommandWithId,
        m.spec_wf(),
        m.spec_self_delimiting() || rest.len() == 0,
    ensures
        Message::spec_parse(m.spec_bytes() + rest) == Ok::<Message, ErrorView>(m),
{
    reveal(Message::spec_wf);
    reveal(Message::spec_self_delimiting);
    let all = m.spec_bytes() + rest;
    assert(all[0] == Opcode::VendorCommandWithId.code());
    lemma_dispatch_vendor_command_with_id(all);
    match m {
        Message::VendorCommandWithId { vendor_id, vendor_specific_data } => lemma_fields_vendor_command_with_id(vendor_id, vendor_specific_data, rest),
        _ => {},
    }
}

/// A message whose first byte is the opcode of `VendorRemoteButtonDown` decodes as one.
proof fn lemma_dispatch_vendor_remote_button_down(bytes: Seq<u8>)
    requires
        bytes.len() >= 1,
        bytes[0] == Opcode::VendorRemoteButtonDown.code(),
    ensures
        Message::spec_parse(bytes) == parse_vendor_remote_button_down(bytes),
{
    reveal(Message::spec_parse);
    Opcode::VendorRemoteButtonDown.lemma_code(0);
}

/// The encoding of a `VendorRemoteButtonDown`, followed by `rest`, decodes back to it.
proof fn lemma_roundtrip_vendor_remote_button_down(m: Message, rest: Seq<u8>)
    requires
        m is VendorRemoteButtonDown,
        m.spec_wf(),
        m.spec_self_delimiting() || rest.len() == 0,
    ensures
        Message::spec_parse(m.spec_bytes() + rest) == Ok::<Message, ErrorView>(m),
{
    reveal(Message::spec_wf);
    reveal(Message::spec_self_delimiting);
    let all = m.spec_bytes() + rest;
    assert(all[0] == Opcode::VendorRemoteButtonDown.code());
    lemma_dispatch_vendor_remote_button_down(all);
    match m {
        Message::VendorRemoteButtonDown { rc_code } => lemma_fields_vendor_remote_button_down(rc_code, rest),
        _ => {},
    }
}

/// A message whose first byte is the opcode of `VendorRemoteButtonUp` decodes as one.
proof fn lemma_dispatch_vendor_remote_button_up(bytes: Seq<u8>)
    requires
        bytes.len() >= 1,
        bytes[0] == Opcode::VendorRemoteButtonUp.code(),
    ensures
        Message::spec_parse(bytes) == Ok::<Message, ErrorView>(Message::VendorRemoteButtonUp),
{
    reveal(Message::spec_parse);
    Opcode::VendorRemoteButtonUp.lemma_code(0);
}

/// The encoding of a `VendorRemoteButtonUp`, followed by `rest`, decodes back to it.
proof fn lemma_roundtrip_vendor_remote_button_up(m: Message, rest: Seq<u8>)
    requires
        m is VendorRemoteButtonUp,
        m.spec_wf(),
        m.spec_self_delimiting() || rest.len() == 0,
    ensures
        Message::spec_parse(m.spec_bytes() + rest) == Ok::<Message, ErrorView>(m),
{
    reveal(Message::spec_wf);
    reveal(Message::spec_self_delimiting);
    let all = m.spec_bytes() + rest;
    assert(all[0] == Opcode::VendorRemoteButtonUp.code());
    lemma_dispatch_vendor_remote_button_up(all);
}

/// A message whose first byte is the opcode of `SetOsdString` decodes as one.
proof fn lemma_dispatch_set_osd_string(bytes: Seq<u8>)
    requires
        bytes.len() >= 1,
        bytes[0] == Opcode::SetOsdString.code(),
    ensures
        Message::spec_parse(bytes) == parse_set_osd_string(bytes),
{
    reveal(Message::spec_parse);
    Opcode::SetOsdString.lemma_code(0);
}

/// The encoding of a `SetOsdString`, followed by `rest`, decodes back to it.
proof fn lemma_roundtrip_set_osd_string(m: Message, rest: Seq<u8>)
    requires
        m is SetOsdString,
        m.spec_wf(),
        m.spec_self_delimiting() || rest.len() == 0,
    ensures
        Message::spec_parse(m.spec_bytes() + rest) == Ok::<Message, ErrorView>(m),
{
    reveal(Message::spec_wf);
    reveal(Message::spec_self_delimiting);
    let all = m.spec_bytes() + rest;
    assert(all[0] == Opcode::SetOsdString.code());
    lemma_dispatch_set_osd_string(all);
    match m {
        Message::SetOsdString { display_control, osd_string } => lemma_fields_set_osd_string(display_control, osd_string, rest),
        _ => {},
    }
}

/// A message whose first byte is the opcode of `GiveOsdName` decodes as one.
proof fn lemma_dispatch_give_osd_name(bytes: Seq<u8>)
    requires
        bytes.len() >= 1,
        bytes[0] == Opcode::GiveOsdName.code(),
    ensures
        Message::spec_parse(bytes) == Ok::<Message, ErrorView>(Message::GiveOsdName),
{
    reveal(Message::spec_parse);
    Opcode::GiveOsdName.lemma_code(0);
}

/// The encoding of a `GiveOsdName`, followed by `rest`, decodes back to it.
proof fn lemma_roundtrip_give_osd_name(m: Message, rest: Seq<u8>)
    requires
        m is GiveOsdName,
        m.spec_wf(),
        m.spec_self_delimiting() || rest.len() == 0,
    ensures
        Message::spec_parse(m.spec_bytes() + rest) == Ok::<Message, ErrorView>(m),
{
    reveal(Message::spec_wf);
    reveal(Message::spec_self_delimiting);
    let all = m.spec_bytes() + rest;
    assert(all[0] == Opcode::GiveOsdName.code());
    lemma_dispatch_give_osd_name(all);
}

/// A message whose first byte is the opcode of `SetOsdName` decodes as one.
proof fn lemma_dispatch_set_osd_name(bytes: Seq<u8>)
    requires
        bytes.len() >= 1,
        bytes[0] == Opcode::SetOsdName.code(),
    ensures
        Message::spec_parse(bytes) == parse_set_osd_name(bytes),
{
    reveal(Message::spec_parse);
    Opcode::SetOsdName.lemma_code(0);
}

/// The encoding of a `SetOsdName`, followed by `rest`, decodes back to it.
proof fn lemma_roundtrip_set_osd_name(m: Message, rest: Seq<u8>)
    requires
        m is SetOsdName,
        m.spec_wf(),
        m.spec_self_delimiting() || rest.len() == 0,
    ensures
        Message::spec_parse(m.spec_bytes() + rest) == Ok::<Message, ErrorView>(m),
{
    reveal(Message::spec_wf);
    reveal(Message::spec_self_delimiting);
    let all = m.spec_bytes() + rest;
    assert(all[0] == Opcode::SetOsdName.code());
    lemma_dispatch_set_osd_name(all);
    match m {
        Message::SetOsdName { name } => lemma_fields_set_osd_name(name, rest),
        _ => {},
    }
}

/// A message whose first byte is the opcode of `MenuRequest` decodes as one.
proof fn lemma_dispatch_menu_request(bytes: Seq<u8>)
    requires
        bytes.len() >= 1,
        bytes[0] == Opcode::MenuRequest.code(),
    ensures
        Message::spec_parse(bytes) == parse_menu_request(bytes),
{
    reveal(Message::spec_parse);
    Opcode::MenuRequest.lemma_code(0);
}

/// The encoding of a `MenuRequest`, followed by `rest`, decodes back to it.
proof fn lemma_roundtrip_menu_request(m: Message, rest: Seq<u8>)
    requires
        m is MenuRequest,
        m.spec_wf(),
        m.spec_self_delimiting() || rest.len() == 0,
    ensures
        Message::spec_parse(m.spec_bytes() + rest) == Ok::<Message, ErrorView>(m),
{
    reveal(Message::spec_wf);
    reveal(Message::spec_self_delimiting);
    let all = m.spec_bytes() + rest;
    assert(all[0] == Opcode::MenuRequest.code());
    lemma_dispatch_menu_request(all);
    match m {
        Message::MenuRequest { request_type } => lemma_fields_menu_request(request_type, rest),
        _ => {},
    }
}

/// A message whose first byte is the opcode of `MenuStatus` decodes as one.
proof fn lemma_dispatch_menu_status(bytes: Seq<u8>)
    requires
        bytes.len() >= 1,
        bytes[0] == Opcode::MenuStatus.code(),
    ensures
        Message::spec_parse(bytes) == parse_menu_status(bytes),
{
    reveal(Message::spec_parse);
    Opcode::MenuStatus.lemma_code(0);
}

/// The encoding of a `MenuStatus`, followed by `rest`, decodes back to it.
proof fn lemma_roundtrip_menu_status(m: Message, rest: Seq<u8>)
    requires
        m is MenuStatus,
        m.spec_wf(),
        m.spec_self_delimiting() || rest.len() == 0,
    ensures
        Message::spec_parse(m.spec_bytes() + rest) == Ok::<Message, ErrorView>(m),
{
    reveal(Message::spec_wf);
    reveal(Message::spec_self_delimiting);
    let all = m.spec_bytes() + rest;
    assert(all[0] == Opcode::MenuStatus.code());
    lemma_dispatch_menu_status(all);
    match m {
        Message::MenuStatus { state } => lemma_fields_menu_status(state, rest),
        _ => {},
    }
}

/// A message whose first byte is the opcode of `UserControlPressed` decodes as one.
proof fn lemma_dispatch_user_control_pressed(bytes: Seq<u8>)
    requires
        bytes.len() >= 1,
        bytes[0] == Opcode::UserControlPressed.code(),
    ensures
        Message::spec_parse(bytes) == parse_user_control_pressed(bytes),
{
    reveal(Message::spec_parse);
    Opcode::UserControlPressed.lemma_code(0);
}

/// The encoding of a `UserControlPressed`, followed by `rest`, decodes back to it.
proof fn lemma_roundtrip_user_control_pressed(m: Message, rest: Seq<u8>)
    requires
        m is UserControlPressed,
        m.spec_wf(),
        m.spec_self_delimiting() || rest.len() == 0,
    ensures
        Message::spec_parse(m.spec_bytes() + rest) == Ok::<Message, ErrorView>(m),
{
    reveal(Message::spec_wf);
    reveal(Message::spec_self_delimiting);
    let all = m.spec_bytes() + rest;
    assert(all[0] == Opcode::UserControlPressed.code());
    lemma_dispatch_user_control_pressed(all);
    match m {
        Message::UserControlPressed { ui_command } => lemma_fields_user_control_pressed(ui_command, rest),
        _ => {},
    }
}

/// A message whose first byte is the opcode of `UserControlReleased` decodes as one.
proof fn lemma_dispatch_user_control_released(bytes: Seq<u8>)
    requires
        bytes.len() >= 1,
        bytes[0] == Opcode::UserControlReleased.code(),
    ensures
        Message::spec_parse(bytes) == Ok::<Message, ErrorView>(Message::UserControlReleased),
{
    reveal(Message::spec_parse);
    Opcode::UserControlReleased.lemma_code(0);
}

/// The encoding of a `UserControlReleased`, followed by `rest`, decodes back to it.
proof fn lemma_roundtrip_user_control_released(m: Message, rest: Seq<u8>)
    requires
        m is UserControlReleased,
        m.spec_wf(),
        m.spec_self_delimiting() || rest.len() == 0,
    ensures
        Message::spec_parse(m.spec_bytes() + rest) == Ok::<Message, ErrorView>(m),
{
    reveal(Message::spec_wf);
    reveal(Message::spec_self_delimiting);
    let all = m.spec_bytes() + rest;
    assert(all[0] == Opcode::UserControlReleased.code());
    lemma_dispatch_user_control_released(all);
}

/// A message whose first byte is the opcode of `GiveDevicePowerStatus` decodes as one.
proof fn lemma_dispatch_give_device_power_status(bytes: Seq<u8>)
    requires
        bytes.len() >= 1,
        bytes[0] == Opcode::GiveDevicePowerStatus.code(),
    ensures
        Message::spec_parse(bytes) == Ok::<Message, ErrorView>(Message::GiveDevicePowerStatus),
{
    reveal(Message::spec_parse);
    Opcode::GiveDevicePowerStatus.lemma_code(0);
}

/// The encoding of a `GiveDevicePowerStatus`, followed by `rest`, decodes back to it.
proof fn lemma_roundtrip_give_device_power_status(m: Message, rest: Seq<u8>)
    requires
        m is GiveDevicePowerStatus,
        m.spec_wf(),
        m.spec_self_delimiting() || rest.len() == 0,
    ensures
        Message::spec_parse(m.spec_bytes() + rest) == Ok::<Message, ErrorView>(m),
{
    reveal(Message::spec_wf);
    reveal(Message::spec_self_delimiting);
    let all = m.spec_bytes() + rest;
    assert(all[0] == Opcode::GiveDevicePowerStatus.code());
    lemma_dispatch_give_device_power_status(all);
}

/// A message whose first byte is the opcode of `ReportPowerStatus` decodes as one.
proof fn lemma_dispatch_report_power_status(bytes: Seq<u8>)
    requires
        bytes.len() >= 1,
        bytes[0] == Opcode::ReportPowerStatus.code(),
    ensures
        Message::spec_parse(bytes) == parse_report_power_status(bytes),
{
    reveal(Message::spec_parse);
    Opcode::ReportPowerStatus.lemma_code(0);
}

/// The encoding of a `ReportPowerStatus`, followed by `rest`, decodes back to it.
proof fn lemma_roundtrip_report_power_status(m: Message, rest: Seq<u8>)
    requires
        m is ReportPowerStatus,
        m.spec_wf(),
        m.spec_self_delimiting() || rest.len() == 0,
    ensures
        Message::spec_parse(m.spec_bytes() + rest) == Ok::<Message, ErrorView>(m),
{
    reveal(Message::spec_wf);
    reveal(Message::spec_self_delimiting);
    let all = m.spec_bytes() + rest;
    assert(all[0] == Opcode::ReportPowerStatus.code());
    lemma_dispatch_report_power_status(all);
    match m {
        Message::ReportPowerStatus { status } => lemma_fields_report_power_status(status, rest),
        _ => {},
    }
}

/// A message whose first byte is the opcode of `FeatureAbort` decodes as one.
proof fn lemma_dispatch_feature_abort(bytes: Seq<u8>)
    requires
        bytes.len() >= 1,
        bytes[0] == Opcode::FeatureAbort.code(),
    ensures
        Message::spec_parse(bytes) == parse_feature_abort(bytes),
{
    reveal(Message::spec_parse);
    Opcode::FeatureAbort.lemma_code(0);
}

/// The encoding of a `FeatureAbort`, followed by `rest`, decodes back to it.
proof fn lemma_roundtrip_feature_abort(m: Message, rest: Seq<u8>)
    requires
        m is FeatureAbort,
        m.spec_wf(),
        m.spec_self_delimiting() || rest.len() == 0,
    ensures
        Message::spec_parse(m.spec_bytes() + rest) == Ok::<Message, ErrorView>(m),
{
    reveal(Message::spec_wf);
    reveal(Message::spec_self_delimiting);
    let all = m.spec_bytes() + rest;
    assert(all[0] == Opcode::FeatureAbort.code());
    lemma_dispatch_feature_abort(all);
    match m {
        Message::FeatureAbort { opcode, abort_reason } => lemma_fields_feature_abort(opcode, abort_reason, rest),
        _ => {},
    }
}

/// A message whose first byte is the opcode of `Abort` decodes as one.
proof fn lemma_dispatch_abort(bytes: Seq<u8>)
    requires
        bytes.len() >= 1,
        bytes[0] == Opcode::Abort.code(),
    ensures
        Message::spec_parse(bytes) == Ok::<Message, ErrorView>(Message::Abort),
{
    reveal(Message::spec_parse);
    Opcode::Abort.lemma_code(0);
}

/// The encoding of a `Abort`, followed by `rest`, decodes back to it.
proof fn lemma_roundtrip_abort(m: Message, rest: Seq<u8>)
    requires
        m is Abort,
        m.spec_wf(),
        m.spec_self_delimiting() || rest.len() == 0,
    ensures
        Message::spec_parse(m.spec_bytes() + rest) == Ok::<Message, ErrorView>(m),
{
    reveal(Message::spec_wf);
    reveal(Message::spec_self_delimiting);
    let all = m.spec_bytes() + rest;
    assert(all[0] == Opcode::Abort.code());
    lemma_dispatch_abort(all);
}

/// A message whose first byte is the opcode of `GiveAudioStatus` decodes as one.
proof fn lemma_dispatch_give_audio_status(bytes: Seq<u8>)
    requires
        bytes.len() >= 1,
        bytes[0] == Opcode::GiveAudioStatus.code(),
    ensures
        Message::spec_parse(bytes) == Ok::<Message, ErrorView>(Message::GiveAudioStatus),
{
    reveal(Message::spec_parse);
    Opcode::GiveAudioStatus.lemma_code(0);
}

/// The encoding of a `GiveAudioStatus`, followed by `rest`, decodes back to it.
proof fn lemma_roundtrip_give_audio_status(m: Message, rest: Seq<u8>)
    requires
        m is GiveAudioStatus,
        m.spec_wf(),
        m.spec_self_delimiting() || rest.len() == 0,
    ensures
        Message::spec_parse(m.spec_bytes() + rest) == Ok::<Message, ErrorView>(m),
{
    reveal(Message::spec_wf);
    reveal(Message::spec_self_delimiting);
    let all = m.spec_bytes() + rest;
    assert(all[0] == Opcode::GiveAudioStatus.code());
    lemma_dispatch_give_audio_status(all);
}

/// A message whose first byte is the opcode of `GiveSystemAudioModeStatus` decodes as one.
proof fn lemma_dispatch_give_system_audio_mode_status(bytes: Seq<u8>)
    requires
        bytes.len() >= 1,
        bytes[0] == Opcode::GiveSystemAudioModeStatus.code(),
    ensures
        Message::spec_parse(bytes) == Ok::<Message, ErrorView>(Message::GiveSystemAudioModeStatus),
{
    reveal(Message::spec_parse);
    Opcode::GiveSystemAudioModeStatus.lemma_code(0);
}

/// The encoding of a `GiveSystemAudioModeStatus`, followed by `rest`, decodes back to it.
proof fn lemma_roundtrip_give_system_audio_mode_status(m: Message, rest: Seq<u8>)
    requires
        m is GiveSystemAudioModeStatus,
        m.spec_wf(),
        m.spec_self_delimiting() || rest.len() == 0,
    ensures
        Message::spec_parse(m.spec_bytes() + rest) == Ok::<Message, ErrorView>(m),
{
    reveal(Message::spec_wf);
    reveal(Message::spec_self_delimiting);
    let all = m.spec_bytes() + rest;
    assert(all[0] == Opcode::GiveSystemAudioModeStatus.code());
    lemma_dispatch_give_system_audio_mode_status(all);
}

/// A message whose first byte is the opcode of `ReportAudioStatus` decodes as one.
proof fn lemma_dispatch_report_audio_status(bytes: Seq<u8>)
    requires
        bytes.len() >= 1,
        bytes[0] == Opcode::ReportAudioStatus.code(),
    ensures
        Message::spec_parse(bytes) == parse_report_audio_status(bytes),
{
    reveal(Message::spec_parse);
    Opcode::ReportAudioStatus.lemma_code(0);
}

/// The encoding of a `ReportAudioStatus`, followed by `rest`, decodes back to it.
proof fn lemma_roundtrip_report_audio_status(m: Message, rest: Seq<u8>)
    requires
        m is ReportAudioStatus,
        m.spec_wf(),
        m.spec_self_delimiting() || rest.len() == 0,
    ensures
        Message::spec_parse(m.spec_bytes() + rest) == Ok::<Message, ErrorView>(m),
{
    reveal(Message::spec_wf);
    reveal(Message::spec_self_delimiting);
    let all = m.spec_bytes() + rest;
    assert(all[0] == Opcode::ReportAudioStatus.code());
    lemma_dispatch_report_audio_status(all);
    match m {
        Message::ReportAudioStatus { status } => lemma_fields_report_audio_status(status, rest),
        _ => {},
    }
}

/// A message whose first byte is the opcode of `ReportShortAudioDescriptor` decodes as one.
proof fn lemma_dispatch_report_short_audio_descriptor(bytes: Seq<u8>)
    requires
        bytes.len() >= 1,
        bytes[0] == Opcode::ReportShortAudioDescriptor.code(),
    ensures
        Message::spec_parse(bytes) == parse_report_short_audio_descriptor(bytes),
{
    reveal(Message::spec_parse);
    Opcode::ReportShortAudioDescriptor.lemma_code(0);
}

/// The encoding of a `ReportShortAudioDescriptor`, followed by `rest`, decodes back to it.
proof fn lemma_roundtrip_report_short_audio_descriptor(m: Message, rest: Seq<u8>)
    requires
        m is ReportShortAudioDescriptor,
        m.spec_wf(),
        m.spec_self_delimiting() || rest.len() == 0,
    ensures
        Message::spec_parse(m.spec_bytes() + rest) == Ok::<Message, ErrorView>(m),
{
    reveal(Message::spec_wf);
    reveal(Message::spec_self_delimiting);
    let all = m.spec_bytes() + rest;
    assert(all[0] == Opcode::ReportShortAudioDescriptor.code());
    lemma_dispatch_report_short_audio_descriptor(all);
    match m {
        Message::ReportShortAudioDescriptor { descriptors } => lemma_fields_report_short_audio_descriptor(descriptors, rest),
        _ => {},
    }
}

/// A message whose first byte is the opcode of `RequestShortAudioDescriptor` decodes as one.
proof fn lemma_dispatch_request_short_audio_descriptor(bytes: Seq<u8>)
    requires
        bytes.len() >= 1,
        bytes[0] == Opcode::RequestShortAudioDescriptor.code(),
    ensures
        Message::spec_parse(bytes) == parse_request_short_audio_descriptor(bytes),
{
    reveal(Message::spec_parse);
    Opcode::RequestShortAudioDescriptor.lemma_code(0);
}

/// The encoding of a `RequestShortAudioDescriptor`, followed by `rest`, decodes back to it.
proof fn lemma_roundtrip_request_short_audio_descriptor(m: Message, rest: Seq<u8>)
    requires
        m is RequestShortAudioDescriptor,
        m.spec_wf(),
        m.spec_self_delimiting() || rest.len() == 0,
    ensures
        Message::spec_parse(m.spec_bytes() + rest) == Ok::<Message, ErrorView>(m),
{
    reveal(Message::spec_wf);
    reveal(Message::spec_self_delimiting);
    let all = m.spec_bytes() + rest;
    assert(all[0] == Opcode::RequestShortAudioDescriptor.code());
    lemma_dispatch_request_short_audio_descriptor(all);
    match m {
        Message::RequestShortAudioDescriptor { descriptors } => lemma_fields_request_short_audio_descriptor(descriptors, rest),
        _ => {},
    }
}

/// A message whose first byte is the opcode of `SetSystemAudioMode` decodes as one.
proof fn lemma_dispatch_set_system_audio_mode(bytes: Seq<u8>)
    requires
        bytes.len() >= 1,
        bytes[0] == Opcode::SetSystemAudioMode.code(),
    ensures
        Message::spec_parse(bytes) == parse_set_system_audio_mode(bytes),
{
    reveal(Message::spec_parse);
    Opcode::SetSystemAudioMode.lemma_code(0);
}

/// The encoding of a `SetSystemAudioMode`, followed by `rest`, decodes back to it.
proof fn lemma_roundtrip_set_system_audio_mode(m: Message, rest: Seq<u8>)
    requires
        m is SetSystemAudioMode,
        m.spec_wf(),
        m.spec_self_delimiting() || rest.len() == 0,
    ensures
        Message::spec_parse(m.spec_bytes() + rest) == Ok::<Message, ErrorView>(m),
{
    reveal(Message::spec_wf);
    reveal(Message::spec_self_delimiting);
    let all = m.spec_bytes() + rest;
    assert(all[0] == Opcode::SetSystemAudioMode.code());
    lemma_dispatch_set_system_audio_mode(all);
    match m {
        Message::SetSystemAudioMode { status } => lemma_fields_set_system_audio_mode(status, rest),
        _ => {},
    }
}

/// A message whose first byte is the opcode of `SystemAudioModeRequest` decodes as one.
proof fn lemma_dispatch_system_audio_mode_request(bytes: Seq<u8>)
    requires
        bytes.len() >= 1,
        bytes[0] == Opcode::SystemAudioModeRequest.code(),
    ensures
        Message::spec_parse(bytes) == parse_system_audio_mode_request(bytes),
{
    reveal(Message::spec_parse);
    Opcode::SystemAudioModeRequest.lemma_code(0);
}

/// The encoding of a `SystemAudioModeRequest`, followed by `rest`, decodes back to it.
proof fn lemma_roundtrip_system_audio_mode_request(m: Message, rest: Seq<u8>)
    requires
        m is SystemAudioModeRequest,
        m.spec_wf(),
        m.spec_self_delimiting() || rest.len() == 0,
    ensures
        Message::spec_parse(m.spec_bytes() + rest) == Ok::<Message, ErrorView>(m),
{
    reveal(Message::spec_wf);
    reveal(Message::spec_self_delimiting);
    let all = m.spec_bytes() + rest;
    assert(all[0] == Opcode::SystemAudioModeRequest.code());
    lemma_dispatch_system_audio_mode_request(all);
    match m {
        Message::SystemAudioModeRequest { physical_address } => lemma_fields_system_audio_mode_request(physical_address, rest),
        _ => {},
    }
}

/// A message whose first byte is the opcode of `SystemAudioModeStatus` decodes as one.
proof fn lemma_dispatch_system_audio_mode_status(bytes: Seq<u8>)
    requires
        bytes.len() >= 1,
        bytes[0] == Opcode::SystemAudioModeStatus.code(),
    ensures
        Message::spec_parse(bytes) == parse_system_audio_mode_status(bytes),
{
    reveal(Message::spec_parse);
    Opcode::SystemAudioModeStatus.lemma_code(0);
}

/// The encoding of a `SystemAudioModeStatus`, followed by `rest`, decodes back to it.
proof fn lemma_roundtrip_system_audio_mode_status(m: Message, rest: Seq<u8>)
    requires
        m is SystemAudioModeStatus,
        m.spec_wf(),
        m.spec_self_delimiting() || rest.len() == 0,
    ensures
        Message::spec_parse(m.spec_bytes() + rest) == Ok::<Message, ErrorView>(m),
{
    reveal(Message::spec_wf);
    reveal(Message::spec_self_delimiting);
    let all = m.spec_bytes() + rest;
    assert(all[0] == Opcode::SystemAudioModeStatus.code());
    lemma_dispatch_system_audio_mode_status(all);
    match m {
        Message::SystemAudioModeStatus { system_audio_status } => lemma_fields_system_audio_mode_status(system_audio_status, rest),
        _ => {},
    }
}

/// A message whose first byte is the opcode of `SetAudioRate` decodes as one.
proof fn lemma_dispatch_set_audio_rate(bytes: Seq<u8>)
    requires
        bytes.len() >= 1,
        bytes[0] == Opcode::SetAudioRate.code(),
    ensures
        Message::spec_parse(bytes) == parse_set_audio_rate(bytes),
{
    reveal(Message::spec_parse);
    Opcode::SetAudioRate.lemma_code(0);
}

/// The encoding of a `SetAudioRate`, followed by `rest`, decodes back to it.
proof fn lemma_roundtrip_set_audio_rate(m: Message, rest: Seq<u8>)
    requires
        m is SetAudioRate,
        m.spec_wf(),
        m.spec_self_delimiting() || rest.len() == 0,
    ensures
        Message::spec_parse(m.spec_bytes() + rest) == Ok::<Message, ErrorView>(m),
{
    reveal(Message::spec_wf);
    reveal(Message::spec_self_delimiting);
    let all = m.spec_bytes() + rest;
    assert(all[0] == Opcode::SetAudioRate.code());
    lemma_dispatch_set_audio_rate(all);
    match m {
        Message::SetAudioRate { audio_rate } => lemma_fields_set_audio_rate(audio_rate, rest),
        _ => {},
    }
}

/// A message whose first byte is the opcode of `InitiateArc` decodes as one.
proof fn lemma_dispatch_initiate_arc(bytes: Seq<u8>)
    requires
        bytes.len() >= 1,
        bytes[0] == Opcode::InitiateArc.code(),
    ensures
        Message::spec_parse(bytes) == Ok::<Message, ErrorView>(Message::InitiateArc),
{
    reveal(Message::spec_parse);
    Opcode::InitiateArc.lemma_code(0);
}

/// The encoding of a `InitiateArc`, followed by `rest`, decodes back to it.
proof fn lemma_roundtrip_initiate_arc(m: Message, rest: Seq<u8>)
    requires
        m is InitiateArc,
        m.spec_wf(),
        m.spec_self_delimiting() || rest.len() == 0,
    ensures
        Message::spec_parse(m.spec_bytes() + rest) == Ok::<Message, ErrorView>(m),
{
    reveal(Message::spec_wf);
    reveal(Message::spec_self_delimiting);
    let all = m.spec_bytes() + rest;
    assert(all[0] == Opcode::InitiateArc.code());
    lemma_dispatch_initiate_arc(all);
}

/// A message whose first byte is the opcode of `ReportArcInitiated` decodes as one.
proof fn lemma_dispatch_report_arc_initiated(bytes: Seq<u8>)
    requires
        bytes.len() >= 1,
        bytes[0] == Opcode::ReportArcInitiated.code(),
    ensures
        Message::spec_parse(bytes) == Ok::<Message, ErrorView>(Message::ReportArcInitiated),
{
    reveal(Message::spec_parse);
    Opcode::ReportArcInitiated.lemma_code(0);
}

/// The encoding of a `ReportArcInitiated`, followed by `rest`, decodes back to it.
proof fn lemma_roundtrip_report_arc_initiated(m: Message, rest: Seq<u8>)
    requires
        m is ReportArcInitiated,
        m.spec_wf(),
        m.spec_self_delimiting() || rest.len() == 0,
    ensures
        Message::spec_parse(m.spec_bytes() + rest) == Ok::<Message, ErrorView>(m),
{
    reveal(Message::spec_wf);
    reveal(Message::spec_self_delimiting);
    let all = m.spec_bytes() + rest;
    assert(all[0] == Opcode::ReportArcInitiated.code());
    lemma_dispatch_report_arc_initiated(all);
}

/// A message whose first byte is the opcode of `ReportArcTerminated` decodes as one.
proof fn lemma_dispatch_report_arc_terminated(bytes: Seq<u8>)
    requires
        bytes.len() >= 1,
        bytes[0] == Opcode::ReportArcTerminated.code(),
    ensures
        Message::spec_parse(bytes) == Ok::<Message, ErrorView>(Message::ReportArcTerminated),
{
    reveal(Message::spec_parse);
    Opcode::ReportArcTerminated.lemma_code(0);
}

/// The encoding of a `ReportArcTerminated`, followed by `rest`, decodes back to it.
proof fn lemma_roundtrip_report_arc_terminated(m: Message, rest: Seq<u8>)
    requires
        m is ReportArcTerminated,
        m.spec_wf(),
        m.spec_self_delimiting() || rest.len() == 0,
    ensures
        Message::spec_parse(m.spec_bytes() + rest) == Ok::<Message, ErrorView>(m),
{
    reveal(Message::spec_wf);
    reveal(Message::spec_self_delimiting);
    let all = m.spec_bytes() + rest;
    assert(all[0] == Opcode::ReportArcTerminated.code());
    lemma_dispatch_report_arc_terminated(all);
}

/// A message whose first byte is the opcode of `RequestArcInitiation` decodes as one.
proof fn lemma_dispatch_request_arc_initiation(bytes: Seq<u8>)
    requires
        bytes.len() >= 1,
        bytes[0] == Opcode::RequestArcInitiation.code(),
    ensures
        Message::spec_parse(bytes) == Ok::<Message, ErrorView>(Message::RequestArcInitiation),
{
    reveal(Message::spec_parse);
    Opcode::RequestArcInitiation.lemma_code(0);
}

/// The encoding of a `RequestArcInitiation`, followed by `rest`, decodes back to it.
proof fn lemma_roundtrip_request_arc_initiation(m: Message, rest: Seq<u8>)
    requires
        m is RequestArcInitiation,
        m.spec_wf(),
        m.spec_self_delimiting() || rest.len() == 0,
    ensures
        Message::spec_parse(m.spec_bytes() + rest) == Ok::<Message, ErrorView>(m),
{
    reveal(Message::spec_wf);
    reveal(Message::spec_self_delimiting);
    let all = m.spec_bytes() + rest;
    assert(all[0] == Opcode::RequestArcInitiation.code());
    lemma_dispatch_request_arc_initiation(all);
}

/// A message whose first byte is the opcode of `RequestArcTermination` decodes as one.
proof fn lemma_dispatch_request_arc_termination(bytes: Seq<u8>)
    requires
        bytes.len() >= 1,
        bytes[0] == Opcode::RequestArcTermination.code(),
    ensures
        Message::spec_parse(bytes) == Ok::<Message, ErrorView>(Message::RequestArcTermination),
{
    reveal(Message::spec_parse);
    Opcode::RequestArcTermination.lemma_code(0);
}

/// The encoding of a `RequestArcTermination`, followed by `rest`, decodes back to it.
proof fn lemma_roundtrip_request_arc_termination(m: Message, rest: Seq<u8>)
    requires
        m is RequestArcTermination,
        m.spec_wf(),
        m.spec_self_delimiting() || rest.len() == 0,
    ensures
        Message::spec_parse(m.spec_bytes() + rest) == Ok::<Message, ErrorView>(m),
{
    reveal(Message::spec_wf);
    reveal(Message::spec_self_delimiting);
    let all = m.spec_bytes() + rest;
    assert(all[0] == Opcode::RequestArcTermination.code());
    lemma_dispatch_request_arc_termination(all);
}

/// A message whose first byte is the opcode of `TerminateArc` decodes as one.
proof fn lemma_dispatch_terminate_arc(bytes: Seq<u8>)
    requires
        bytes.len() >= 1,
        bytes[0] == Opcode::TerminateArc.code(),
    ensures
        Message::spec_parse(bytes) == Ok::<Message, ErrorView>(Message::TerminateArc),
{
    reveal(Message::spec_parse);
    Opcode::TerminateArc.lemma_code(0);
}

/// The encoding of a `TerminateArc`, followed by `rest`, decodes back to it.
proof fn lemma_roundtrip_terminate_arc(m: Message, rest: Seq<u8>)
    requires
        m is TerminateArc,
        m.spec_wf(),
        m.spec_self_delimiting() || rest.len() == 0,
    ensures
        Message::spec_parse(m.spec_bytes() + rest) == Ok::<Message, ErrorView>(m),
{
    reveal(Message::spec_wf);
    reveal(Message::spec_self_delimiting);
    let all = m.spec_bytes() + rest;
    assert(all[0] == Opcode::TerminateArc.code());
    lemma_dispatch_terminate_arc(all);
}

/// A message whose first byte is the opcode of `CdcMessage` decodes as one.
proof fn lemma_dispatch_cdc_message(bytes: Seq<u8>)
    requires
        bytes.len() >= 1,
        bytes[0] == Opcode::CdcMessage.code(),
    ensures
        Message::spec_parse(bytes) == parse_cdc_message(bytes),
{
    reveal(Message::spec_parse);
    Opcode::CdcMessage.lemma_code(0);
}

/// The encoding of a `CdcMessage`, followed by `rest`, decodes back to it.
proof fn lemma_roundtrip_cdc_message(m: Message, rest: Seq<u8>)
    requires
        m is CdcMessage,
        m.spec_wf(),
        m.spec_self_delimiting() || rest.len() == 0,
    ensures
        Message::spec_parse(m.spec_bytes() + rest) == Ok::<Message, ErrorView>(m),
{
    reveal(Message::spec_wf);
    reveal(Message::spec_self_delimiting);
    let all = m.spec_bytes() + rest;
    assert(all[0] == Opcode::CdcMessage.code());
    lemma_dispatch_cdc_message(all);
    match m {
        Message::CdcMessage { initiator, message } => lemma_fields_cdc_message(initiator, message, rest),
        _ => {},
    }
}

/// A message whose first byte is the opcode of `ReportFeatures` decodes as one.
proof fn lemma_dispatch_report_features(bytes: Seq<u8>)
    requires
        bytes.len() >= 1,
        bytes[0] == Opcode::ReportFeatures.code(),
    ensures
        Message::spec_parse(bytes) == parse_report_features(bytes),
{
    reveal(Message::spec_parse);
    Opcode::ReportFeatures.lemma_code(0);
}

/// The encoding of a `ReportFeatures`, followed by `rest`, decodes back to it.
proof fn lemma_roundtrip_report_features(m: Message, rest: Seq<u8>)
    requires
        m is ReportFeatures,
        m.spec_wf(),
        m.spec_self_delimiting() || rest.len() == 0,
    ensures
        Message::spec_parse(m.spec_bytes() + rest) == Ok::<Message, ErrorView>(m),
{
    reveal(Message::spec_wf);
    reveal(Message::spec_self_delimiting);
    let all = m.spec_bytes() + rest;
    assert(all[0] == Opcode::ReportFeatures.code());
    lemma_dispatch_report_features(all);
    match m {
        Message::ReportFeatures { version, device_types, rc_profile, dev_features } => lemma_fields_report_features(version, device_types, rc_profile, dev_features, rest),
        _ => {},
    }
}

/// A message whose first byte is the opcode of `GiveFeatures` decodes as one.
proof fn lemma_dispatch_give_features(bytes: Seq<u8>)
    requires
        bytes.len() >= 1,
        bytes[0] == Opcode::GiveFeatures.code(),
    ensures
        Message::spec_parse(bytes) == Ok::<Message, ErrorView>(Message::GiveFeatures),
{
    reveal(Message::spec_parse);
    Opcode::GiveFeatures.lemma_code(0);
}

/// The encoding of a `GiveFeatures`, followed by `rest`, decodes back to it.
proof fn lemma_roundtrip_give_features(m: Message, rest: Seq<u8>)
    requires
        m is GiveFeatures,
        m.spec_wf(),
        m.spec_self_delimiting() || rest.len() == 0,
    ensures
        Message::spec_parse(m.spec_bytes() + rest) == Ok::<Message, ErrorView>(m),
{
    reveal(Message::spec_wf);
    reveal(Message::spec_self_delimiting);
    let all = m.spec_bytes() + rest;
    assert(all[0] == Opcode::GiveFeatures.code());
    lemma_dispatch_give_features(all);
}

/// A message whose first byte is the opcode of `RequestCurrentLatency` decodes as one.
proof fn lemma_dispatch_request_current_latency(bytes: Seq<u8>)
    requires
        bytes.len() >= 1,
        bytes[0] == Opcode::RequestCurrentLatency.code(),
    ensures
        Message::spec_parse(bytes) == parse_request_current_latency(bytes),
{
    reveal(Message::spec_parse);
    Opcode::RequestCurrentLatency.lemma_code(0);
}

/// The encoding of a `RequestCurrentLatency`, followed by `rest`, decodes back to it.
proof fn lemma_roundtrip_request_current_latency(m: Message, rest: Seq<u8>)
    requires
        m is RequestCurrentLatency,
        m.spec_wf(),
        m.spec_self_delimiting() || rest.len() == 0,
    ensures
        Message::spec_parse(m.spec_bytes() + rest) == Ok::<Message, ErrorView>(m),
{
    reveal(Message::spec_wf);
    reveal(Message::spec_self_delimiting);
    let all = m.spec_bytes() + rest;
    assert(all[0] == Opcode::RequestCurrentLatency.code());
    lemma_dispatch_request_current_latency(all);
    match m {
        Message::RequestCurrentLatency { physical_address } => lemma_fields_request_current_latency(physical_address, rest),
        _ => {},
    }
}

/// A message whose first byte is the opcode of `ReportCurrentLatency` decodes as one.
proof fn lemma_dispatch_report_current_latency(bytes: Seq<u8>)
    requires
        bytes.len() >= 1,
        bytes[0] == Opcode::ReportCurrentLatency.code(),
    ensures
        Message::spec_parse(bytes) == parse_report_current_latency(bytes),
{
    reveal(Message::spec_parse);
    Opcode::ReportCurrentLatency.lemma_code(0);
}

/// The encoding of a `ReportCurrentLatency`, followed by `rest`, decodes back to it.
proof fn lemma_roundtrip_report_current_latency(m: Message, rest: Seq<u8>)
    requires
        m is ReportCurrentLatency,
        m.spec_wf(),
        m.spec_self_delimiting() || rest.len() == 0,
    ensures
        Message::spec_parse(m.spec_bytes() + rest) == Ok::<Message, ErrorView>(m),
{
    reveal(Message::spec_wf);
    reveal(Message::spec_self_delimiting);
    let all = m.spec_bytes() + rest;
    assert(all[0] == Opcode::ReportCurrentLatency.code());
    lemma_dispatch_report_current_latency(all);
    match m {
        Message::ReportCurrentLatency { physical_address, video_latency, flags, audio_output_delay } => lemma_fields_report_current_latency(physical_address, video_latency, flags, audio_output_delay, rest),
        _ => {},
    }
}

/// Every well-formed message decodes from its own encoding, and, where
/// decoding ignores what follows a message, from its encoding followed by
/// any bytes.
pub proof fn lemma_message_roundtrip(m: Message, rest: Seq<u8>)
    requires
        m.spec_wf(),
        m.spec_self_delimiting() || rest.len() == 0,
    ensures
        Message::spec_parse(m.spec_bytes() + rest) == Ok::<Message, ErrorView>(m),
{
    match m {
        Message::ActiveSource { .. } => lemma_roundtrip_active_source(m, rest),
        Message::ImageViewOn => lemma_roundtrip_image_view_on(m, rest),
        Message::TextViewOn => lemma_roundtrip_text_view_on(m, rest),
        Message::InactiveSource { .. } => lemma_roundtrip_inactive_source(m, rest),
        Message::RequestActiveSource => lemma_roundtrip_request_active_source(m, rest),
        Message::RoutingChange { .. } => lemma_roundtrip_routing_change(m, rest),
        Message::RoutingInformation { .. } => lemma_roundtrip_routing_information(m, rest),
        Message::SetStreamPath { .. } => lemma_roundtrip_set_stream_path(m, rest),
        Message::Standby => lemma_roundtrip_standby(m, rest),
        Message::RecordOff => lemma_roundtrip_record_off(m, rest),
        Message::RecordOn { .. } => lemma_roundtrip_record_on(m, rest),
        Message::RecordStatus { .. } => lemma_roundtrip_record_status(m, rest),
        Message::RecordTvScreen => lemma_roundtrip_record_tv_screen(m, rest),
        Message::ClearAnalogueTimer { .. } => lemma_roundtrip_clear_analogue_timer(m, rest),
        Message::ClearDigitalTimer { .. } => lemma_roundtrip_clear_digital_timer(m, rest),
        Message::ClearExtTimer { .. } => lemma_roundtrip_clear_ext_timer(m, rest),
        Message::SetAnalogueTimer { .. } => lemma_roundtrip_set_analogue_timer(m, rest),
        Message::SetDigitalTimer { .. } => lemma_roundtrip_set_digital_timer(m, rest),
        Message::SetExtTimer { .. } => lemma_roundtrip_set_ext_timer(m, rest),
        Message::SetTimerProgramTitle { .. } => lemma_roundtrip_set_timer_program_title(m, rest),
        Message::TimerClearedStatus { .. } => lemma_roundtrip_timer_cleared_status(m, rest),
        Message::TimerStatus { .. } => lemma_roundtrip_timer_status(m, rest),
        Message::CecVersion { .. } => lemma_roundtrip_cec_version(m, rest),
        Message::GetCecVersion => lemma_roundtrip_get_cec_version(m, rest),
        Message::GivePhysicalAddr => lemma_roundtrip_give_physical_addr(m, rest),
        Message::GetMenuLanguage => lemma_roundtrip_get_menu_language(m, rest),
        Message::ReportPhysicalAddr { .. } => lemma_roundtrip_report_physical_addr(m, rest),
        Message::SetMenuLanguage { .. } => lemma_roundtrip_set_menu_language(m, rest),
        Message::DeckControl { .. } => lemma_roundtrip_deck_control(m, rest),
        Message::DeckStatus { .. } => lemma_roundtrip_deck_status(m, rest),
        Message::GiveDeckStatus { .. } => lemma_roundtrip_give_deck_status(m, rest),
        Message::Play { .. } => lemma_roundtrip_play(m, rest),
        Message::GiveTunerDeviceStatus { .. } => lemma_roundtrip_give_tuner_device_status(m, rest),
        Message::SelectAnalogueService { .. } => lemma_roundtrip_select_analogue_service(m, rest),
        Message::SelectDigitalService { .. } => lemma_roundtrip_select_digital_service(m, rest),
        Message::TunerDeviceStatus { .. } => lemma_roundtrip_tuner_device_status(m, rest),
        Message::TunerStepDecrement => lemma_roundtrip_tuner_step_decrement(m, rest),
        Message::TunerStepIncrement => lemma_roundtrip_tuner_step_increment(m, rest),
        Message::DeviceVendorId { .. } => lemma_roundtrip_device_vendor_id(m, rest),
        Message::GiveDeviceVendorId => lemma_roundtrip_give_device_vendor_id(m, rest),
        Message::VendorCommand { .. } => lemma_roundtrip_vendor_command(m, rest),
        Message::VendorCommandWithId { .. } => lemma_roundtrip_vendor_command_with_id(m, rest),
        Message::VendorRemoteButtonDown { .. } => lemma_roundtrip_vendor_remote_button_down(m, rest),
        Message::VendorRemoteButtonUp => lemma_roundtrip_vendor_remote_button_up(m, rest),
        Message::SetOsdString { .. } => lemma_roundtrip_set_osd_string(m, rest),
        Message::GiveOsdName => lemma_roundtrip_give_osd_name(m, rest),
        Message::SetOsdName { .. } => lemma_roundtrip_set_osd_name(m, rest),
        Message::MenuRequest { .. } => lemma_roundtrip_menu_request(m, rest),
        Message::MenuStatus { .. } => lemma_roundtrip_menu_status(m, rest),
        Message::UserControlPressed { .. } => lemma_roundtrip_user_control_pressed(m, rest),
        Message::UserControlReleased => lemma_roundtrip_user_control_released(m, rest),
        Message::GiveDevicePowerStatus => lemma_roundtrip_give_device_power_status(m, rest),
        Message::ReportPowerStatus { .. } => lemma_roundtrip_report_power_status(m, rest),
        Message::FeatureAbort { .. } => lemma_roundtrip_feature_abort(m, rest),
        Message::Abort => lemma_roundtrip_abort(m, rest),
        Message::GiveAudioStatus => lemma_roundtrip_give_audio_status(m, rest),
        Message::GiveSystemAudioModeStatus => lemma_roundtrip_give_system_audio_mode_status(m, rest),
        Message::ReportAudioStatus { .. } => lemma_roundtrip_report_audio_status(m, rest),
        Message::ReportShortAudioDescriptor { .. } => lemma_roundtrip_report_short_audio_descriptor(m, rest),
        Message::RequestShortAudioDescriptor { .. } => lemma_roundtrip_request_short_audio_descriptor(m, rest),
        Message::SetSystemAudioMode { .. } => lemma_roundtrip_set_system_audio_mode(m, rest),
        Message::SystemAudioModeRequest { .. } => lemma_roundtrip_system_audio_mode_request(m, rest),
        Message::SystemAudioModeStatus { .. } => lemma_roundtrip_system_audio_mode_status(m, rest),
        Message::SetAudioRate { .. } => lemma_roundtrip_set_audio_rate(m, rest),
        Message::InitiateArc => lemma_roundtrip_initiate_arc(m, rest),
        Message::ReportArcInitiated => lemma_roundtrip_report_arc_initiated(m, rest),
        Message::ReportArcTerminated => lemma_roundtrip_report_arc_terminated(m, rest),
        Message::RequestArcInitiation => lemma_roundtrip_request_arc_initiation(m, rest),
        Message::RequestArcTermination => lemma_roundtrip_request_arc_termination(m, rest),
        Message::TerminateArc => lemma_roundtrip_terminate_arc(m, rest),
        Message::CdcMessage { .. } => lemma_roundtrip_cdc_message(m, rest),
        Message::ReportFeatures { .. } => lemma_roundtrip_report_features(m, rest),
        Message::GiveFeatures => lemma_roundtrip_give_features(m, rest),
        Message::RequestCurrentLatency { .. } => lemma_roundtrip_request_current_latency(m, rest),
        Message::ReportCurrentLatency { .. } => lemma_roundtrip_report_current_latency(m, rest),
    }
}

/// A Routing Change is sent as its opcode 0x80, then the original address
/// and then the new address, each high byte first.
pub proof fn lemma_routing_change_bytes(original_address: PhysicalAddress, new_address: PhysicalAddress)
    ensures
        (Message::RoutingChange { original_address, new_address }).spec_bytes() == seq![
            0x80u8,
            (original_address.0 / 256) as u8,
            (original_address.0 % 256) as u8,
            (new_address.0 / 256) as u8,
            (new_address.0 % 256) as u8,
        ],
{
    lemma_word_arith(original_address.0, 0, 0);
    lemma_word_arith(new_address.0, 0, 0);
    let m = Message::RoutingChange { original_address, new_address };
    assert(m.spec_bytes() =~= seq![
        0x80u8,
        (original_address.0 / 256) as u8,
        (original_address.0 % 256) as u8,
        (new_address.0 / 256) as u8,
        (new_address.0 % 256) as u8,
    ]);
}

/// Decoding the opcode 0x80 and four bytes `a`, `b`, `c`, `d` gives a
/// Routing Change from the address whose bytes are `a` and `b`, high byte
/// first, to the address whose bytes are `c` and `d`.
pub proof fn lemma_routing_change_parse(a: u8, b: u8, c: u8, d: u8)
    ensures
        Message::spec_parse(seq![0x80u8, a, b, c, d]) == Ok::<Message, ErrorView>(
            (Message::RoutingChange {
                original_address: PhysicalAddress((a * 256 + b) as u16),
                new_address: PhysicalAddress((c * 256 + d) as u16),
            }),
        ),
{
    lemma_word_arith(0, a, b);
    lemma_word_arith(0, c, d);
    lemma_word(0, a, b);
    lemma_word(0, c, d);
    let m = Message::RoutingChange {
        original_address: PhysicalAddress((a * 256 + b) as u16),
        new_address: PhysicalAddress((c * 256 + d) as u16),
    };
    reveal(Message::spec_wf);
    assert(m.spec_bytes() + Seq::<u8>::empty() =~= seq![0x80u8, a, b, c, d]);
    lemma_message_roundtrip(m, Seq::<u8>::empty());
}

/// A Routing Change cut short is refused for want of bytes, counted from
/// the opcode on: with one operand byte the original address needs three
/// bytes in all; with two or three, the new address needs five.
pub proof fn lemma_routing_change_short(a: u8, b: u8, c: u8)
    ensures
        Message::spec_parse(seq![0x80u8, a]) == Err::<Message, ErrorView>(
            ErrorView::OutOfRange { expected: RangeView::AtLeast(3), got: 2, quantity: "bytes"@ },
        ),
        Message::spec_parse(seq![0x80u8, a, b]) == Err::<Message, ErrorView>(
            ErrorView::OutOfRange { expected: RangeView::AtLeast(5), got: 3, quantity: "bytes"@ },
        ),
        Message::spec_parse(seq![0x80u8, a, b, c]) == Err::<Message, ErrorView>(
            ErrorView::OutOfRange { expected: RangeView::AtLeast(5), got: 4, quantity: "bytes"@ },
        ),
{
    let s1 = seq![0x80u8, a];
    let s2 = seq![0x80u8, a, b];
    let s3 = seq![0x80u8, a, b, c];
    lemma_dispatch_routing_change(s1);
    lemma_dispatch_routing_change(s2);
    lemma_dispatch_routing_change(s3);
    assert(s1.subrange(1, 2).len() == 1);
    assert(s2.subrange(1, 3) =~= seq![a, b]);
    assert(s2.subrange(3, 3).len() == 0);
    assert(s3.subrange(1, 4) =~= seq![a, b, c]);
    assert(s3.subrange(3, 4).len() == 1);
}

/// The messages of one touch play, routing control and standby are each sent as
/// the byte of the opcode, then the operands in the order in which the message
/// lists them.
pub proof fn lemma_routing_layout(m: Message)
    ensures
        (m matches Message::ActiveSource { address } ==> m.spec_bytes() == seq![0x82u8] + address.spec_bytes()),
        (m is ImageViewOn ==> m.spec_bytes() == seq![0x04u8]),
        (m is TextViewOn ==> m.spec_bytes() == seq![0x0du8]),
        (m matches Message::InactiveSource { address } ==> m.spec_bytes() == seq![0x9du8] + address.spec_bytes()),
        (m is RequestActiveSource ==> m.spec_bytes() == seq![0x85u8]),
        (m matches Message::RoutingChange { original_address, new_address } ==> m.spec_bytes() == seq![0x80u8] + (original_address.spec_bytes() + new_address.spec_bytes())),
        (m matches Message::RoutingInformation { address } ==> m.spec_bytes() == seq![0x81u8] + address.spec_bytes()),
        (m matches Message::SetStreamPath { address } ==> m.spec_bytes() == seq![0x86u8] + address.spec_bytes()),
        (m is Standby ==> m.spec_bytes() == seq![0x36u8]),
{
    match m {
        Message::ActiveSource { .. } => {},
        Message::ImageViewOn => {},
        Message::TextViewOn => {},
        Message::InactiveSource { .. } => {},
        Message::RequestActiveSource => {},
        Message::RoutingChange { .. } => {},
        Message::RoutingInformation { .. } => {},
        Message::SetStreamPath { .. } => {},
        Message::Standby => {},
        _ => {},
    }
}

/// The messages of one touch record are each sent as the byte of the opcode,
/// then the operands in the order in which the message lists them.
pub proof fn lemma_recording_layout(m: Message)
    ensures
        (m is RecordOff ==> m.spec_bytes() == seq![0x0bu8]),
        (m matches Message::RecordOn { source } ==> m.spec_bytes() == seq![0x09u8] + source.spec_bytes()),
        (m matches Message::RecordStatus { status } ==> m.spec_bytes() == seq![0x0au8] + status.spec_bytes()),
        (m is RecordTvScreen ==> m.spec_bytes() == seq![0x0fu8]),
{
    match m {
        Message::RecordOff => {},
        Message::RecordOn { .. } => {},
        Message::RecordStatus { .. } => {},
        Message::RecordTvScreen => {},
        _ => {},
    }
}

/// The messages of timer programming are each sent as the byte of the opcode,
/// then the operands in the order in which the message lists them.
pub proof fn lemma_timer_layout(m: Message)
    ensures
        (m matches Message::ClearAnalogueTimer { day_of_month, month_of_year, start_time, duration, recording_sequence, service_id } ==> m.spec_bytes() == seq![0x33u8] + (day_of_month.spec_bytes() + month_of_year.spec_bytes() + start_time.spec_bytes() + duration.spec_bytes() + recording_sequence.spec_bytes() + service_id.spec_bytes())),
        (m matches Message::ClearDigitalTimer { day_of_month, month_of_year, start_time, duration, recording_sequence, service_id } ==> m.spec_bytes() == seq![0x99u8] + (day_of_month.spec_bytes() + month_of_year.spec_bytes() + start_time.spec_bytes() + duration.spec_bytes() + recording_sequence.spec_bytes() + service_id.spec_bytes())),
        (m matches Message::ClearExtTimer { day_of_month, month_of_year, start_time, duration, recording_sequence, external_source } ==> m.spec_bytes() == seq![0xa1u8] + (day_of_month.spec_bytes() + month_of_year.spec_bytes() + start_time.spec_bytes() + duration.spec_bytes() + recording_sequence.spec_bytes() + external_source.spec_bytes())),
        (m matches Message::SetAnalogueTimer { day_of_month, month_of_year, start_time, duration, recording_sequence, service_id } ==> m.spec_bytes() == seq![0x34u8] + (day_of_month.spec_bytes() + month_of_year.spec_bytes() + start_time.spec_bytes() + duration.spec_bytes() + recording_sequence.spec_bytes() + service_id.spec_bytes())),
        (m matches Message::SetDigitalTimer { day_of_month, month_of_year, start_time, duration, recording_sequence, service_id } ==> m.spec_bytes() == seq![0x97u8] + (day_of_month.spec_bytes() + month_of_year.spec_bytes() + start_time.spec_bytes() + duration.spec_bytes() + recording_sequence.spec_bytes() + service_id.spec_bytes())),
        (m matches Message::SetExtTimer { day_of_month, month_of_year, start_time, duration, recording_sequence, external_source } ==> m.spec_bytes() == seq![0xa2u8] + (day_of_month.spec_bytes() + month_of_year.spec_bytes() + start_time.spec_bytes() + duration.spec_bytes() + recording_sequence.spec_bytes() + external_source.spec_bytes())),
        (m matches Message::SetTimerProgramTitle { title } ==> m.spec_bytes() == seq![0x67u8] + title.spec_bytes()),
        (m matches Message::TimerClearedStatus { status } ==> m.spec_bytes() == seq![0x43u8] + status.spec_bytes()),
        (m matches Message::TimerStatus { status } ==> m.spec_bytes() == seq![0x35u8] + status.spec_bytes()),
{
    match m {
        Message::ClearAnalogueTimer { .. } => {},
        Message::ClearDigitalTimer { .. } => {},
        Message::ClearExtTimer { .. } => {},
        Message::SetAnalogueTimer { .. } => {},
        Message::SetDigitalTimer { .. } => {},
        Message::SetExtTimer { .. } => {},
        Message::SetTimerProgramTitle { .. } => {},
        Message::TimerClearedStatus { .. } => {},
        Message::TimerStatus { .. } => {},
        _ => {},
    }
}

/// The messages of system information are each sent as the byte of the opcode,
/// then the operands in the order in which the message lists them.
pub proof fn lemma_system_information_layout(m: Message)
    ensures
        (m matches Message::CecVersion { version } ==> m.spec_bytes() == seq![0x9eu8] + version.spec_bytes()),
        (m is GetCecVersion ==> m.spec_bytes() == seq![0x9fu8]),
        (m is GivePhysicalAddr ==> m.spec_bytes() == seq![0x83u8]),
        (m is GetMenuLanguage ==> m.spec_bytes() == seq![0x91u8]),
        (m matches Message::ReportPhysicalAddr { physical_address, device_type } ==> m.spec_bytes() == seq![0x84u8] + (physical_address.spec_bytes() + device_type.spec_bytes())),
        (m matches Message::SetMenuLanguage { language } ==> m.spec_bytes() == seq![0x32u8] + language.spec_bytes()),
{
    match m {
        Message::CecVersion { .. } => {},
        Message::GetCecVersion => {},
        Message::GivePhysicalAddr => {},
        Message::GetMenuLanguage => {},
        Message::ReportPhysicalAddr { .. } => {},
        Message::SetMenuLanguage { .. } => {},
        _ => {},
    }
}

/// The messages of deck control and tuner control are each sent as the byte of
/// the opcode, then the operands in the order in which the message lists them.
pub proof fn lemma_deck_tuner_layout(m: Message)
    ensures
        (m matches Message::DeckControl { mode } ==> m.spec_bytes() == seq![0x42u8] + mode.spec_bytes()),
        (m matches Message::DeckStatus { info } ==> m.spec_bytes() == seq![0x1bu8] + info.spec_bytes()),
        (m matches Message::GiveDeckStatus { request } ==> m.spec_bytes() == seq![0x1au8] + request.spec_bytes()),
        (m matches Message::Play { mode } ==> m.spec_bytes() == seq![0x41u8] + mode.spec_bytes()),
        (m matches Message::GiveTunerDeviceStatus { request } ==> m.spec_bytes() == seq![0x08u8] + request.spec_bytes()),
        (m matches Message::SelectAnalogueService { service_id } ==> m.spec_bytes() == seq![0x92u8] + service_id.spec_bytes()),
        (m matches Message::SelectDigitalService { service_id } ==> m.spec_bytes() == seq![0x93u8] + service_id.spec_bytes()),
        (m matches Message::TunerDeviceStatus { info } ==> m.spec_bytes() == seq![0x07u8] + info.spec_bytes()),
        (m is TunerStepDecrement ==> m.spec_bytes() == seq![0x06u8]),
        (m is TunerStepIncrement ==> m.spec_bytes() == seq![0x05u8]),
{
    match m {
        Message::DeckControl { .. } => {},
        Message::DeckStatus { .. } => {},
        Message::GiveDeckStatus { .. } => {},
        Message::Play { .. } => {},
        Message::GiveTunerDeviceStatus { .. } => {},
        Message::SelectAnalogueService { .. } => {},
        Message::SelectDigitalService { .. } => {},
        Message::TunerDeviceStatus { .. } => {},
        Message::TunerStepDecrement => {},
        Message::TunerStepIncrement => {},
        _ => {},
    }
}

/// The vendor specific messages are each sent as the byte of the opcode, then
/// the operands in the order in which the message lists them.
pub proof fn lemma_vendor_layout(m: Message)
    ensures
        (m matches Message::DeviceVendorId { vendor_id } ==> m.spec_bytes() == seq![0x87u8] + vendor_id.spec_bytes()),
        (m is GiveDeviceVendorId ==> m.spec_bytes() == seq![0x8cu8]),
        (m matches Message::VendorCommand { command } ==> m.spec_bytes() == seq![0x89u8] + command.spec_bytes()),
        (m matches Message::VendorCommandWithId { vendor_id, vendor_specific_data } ==> m.spec_bytes() == seq![0xa0u8] + (vendor_id.spec_bytes() + vendor_specific_data.spec_bytes())),
        (m matches Message::VendorRemoteButtonDown { rc_code } ==> m.spec_bytes() == seq![0x8au8] + rc_code.spec_bytes()),
        (m is VendorRemoteButtonUp ==> m.spec_bytes() == seq![0x8bu8]),
{
    match m {
        Message::DeviceVendorId { .. } => {},
        Message::GiveDeviceVendorId => {},
        Message::VendorCommand { .. } => {},
        Message::VendorCommandWithId { .. } => {},
        Message::VendorRemoteButtonDown { .. } => {},
        Message::VendorRemoteButtonUp => {},
        _ => {},
    }
}

/// The messages of on-screen display, menu control and remote control
/// passthrough are each sent as the byte of the opcode, then the operands in
/// the order in which the message lists them.
pub proof fn lemma_osd_menu_remote_layout(m: Message)
    ensures
        (m matches Message::SetOsdString { display_control, osd_string } ==> m.spec_bytes() == seq![0x64u8] + (display_control.spec_bytes() + osd_string.spec_bytes())),
        (m is GiveOsdName ==> m.spec_bytes() == seq![0x46u8]),
        (m matches Message::SetOsdName { name } ==> m.spec_bytes() == seq![0x47u8] + name.spec_bytes()),
        (m matches Message::MenuRequest { request_type } ==> m.spec_bytes() == seq![0x8du8] + request_type.spec_bytes()),
        (m matches Message::MenuStatus { state } ==> m.spec_bytes() == seq![0x8eu8] + state.spec_bytes()),
        (m matches Message::UserControlPressed { ui_command } ==> m.spec_bytes() == seq![0x44u8] + ui_command.spec_bytes()),
        (m is UserControlReleased ==> m.spec_bytes() == seq![0x45u8]),
{
    match m {
        Message::SetOsdString { .. } => {},
        Message::GiveOsdName => {},
        Message::SetOsdName { .. } => {},
        Message::MenuRequest { .. } => {},
        Message::MenuStatus { .. } => {},
        Message::UserControlPressed { .. } => {},
        Message::UserControlReleased => {},
        _ => {},
    }
}

/// The messages of power status and general protocol are each sent as the byte
/// of the opcode, then the operands in the order in which the message lists
/// them.
pub proof fn lemma_power_general_layout(m: Message)
    ensures
        (m is GiveDevicePowerStatus ==> m.spec_bytes() == seq![0x8fu8]),
        (m matches Message::ReportPowerStatus { status } ==> m.spec_bytes() == seq![0x90u8] + status.spec_bytes()),
        (m matches Message::FeatureAbort { opcode, abort_reason } ==> m.spec_bytes() == seq![0x00u8] + (opcode.spec_bytes() + abort_reason.spec_bytes())),
        (m is Abort ==> m.spec_bytes() == seq![0xffu8]),
{
    match m {
        Message::GiveDevicePowerStatus => {},
        Message::ReportPowerStatus { .. } => {},
        Message::FeatureAbort { .. } => {},
        Message::Abort => {},
        _ => {},
    }
}

/// The messages of system audio control, audio rate control and audio return
/// channel control are each sent as the byte of the opcode, then the operands
/// in the order in which the message lists them.
pub proof fn lemma_audio_layout(m: Message)
    ensures
        (m is GiveAudioStatus ==> m.spec_bytes() == seq![0x71u8]),
        (m is GiveSystemAudioModeStatus ==> m.spec_bytes() == seq![0x7du8]),
        (m matches Message::ReportAudioStatus { status } ==> m.spec_bytes() == seq![0x7au8] + status.spec_bytes()),
        (m matches Message::ReportShortAudioDescriptor { descriptors } ==> m.spec_bytes() == seq![0xa3u8] + descriptors.spec_bytes()),
        (m matches Message::RequestShortAudioDescriptor { descriptors } ==> m.spec_bytes() == seq![0xa4u8] + descriptors.spec_bytes()),
        (m matches Message::SetSystemAudioMode { status } ==> m.spec_bytes() == seq![0x72u8] + status.spec_bytes()),
        (m matches Message::SystemAudioModeRequest { physical_address } ==> m.spec_bytes() == seq![0x70u8] + physical_address.spec_bytes()),
        (m matches Message::SystemAudioModeStatus { system_audio_status } ==> m.spec_bytes() == seq![0x7eu8] + system_audio_status.spec_bytes()),
        (m matches Message::SetAudioRate { audio_rate } ==> m.spec_bytes() == seq![0x9au8] + audio_rate.spec_bytes()),
        (m is InitiateArc ==> m.spec_bytes() == seq![0xc0u8]),
        (m is ReportArcInitiated ==> m.spec_bytes() == seq![0xc1u8]),
        (m is ReportArcTerminated ==> m.spec_bytes() == seq![0xc2u8]),
        (m is RequestArcInitiation ==> m.spec_bytes() == seq![0xc3u8]),
        (m is RequestArcTermination ==> m.spec_bytes() == seq![0xc4u8]),
        (m is TerminateArc ==> m.spec_bytes() == seq![0xc5u8]),
{
    match m {
        Message::GiveAudioStatus => {},
        Message::GiveSystemAudioModeStatus => {},
        Message::ReportAudioStatus { .. } => {},
        Message::ReportShortAudioDescriptor { .. } => {},
        Message::RequestShortAudioDescriptor { .. } => {},
        Message::SetSystemAudioMode { .. } => {},
        Message::SystemAudioModeRequest { .. } => {},
        Message::SystemAudioModeStatus { .. } => {},
        Message::SetAudioRate { .. } => {},
        Message::InitiateArc => {},
        Message::ReportArcInitiated => {},
        Message::ReportArcTerminated => {},
        Message::RequestArcInitiation => {},
        Message::RequestArcTermination => {},
        Message::TerminateArc => {},
        _ => {},
    }
}

/// The messages that carry CDC messages, features and latency are each sent as
/// the byte of the opcode, then the operands in the order in which the message
/// lists them.
pub proof fn lemma_extension_layout(m: Message)
    ensures
        (m matches Message::CdcMessage { initiator, message } ==> m.spec_bytes() == seq![0xf8u8] + (initiator.spec_bytes() + message.spec_bytes())),
        (m matches Message::ReportFeatures { version, device_types, rc_profile, dev_features } ==> m.spec_bytes() == seq![0xa6u8] + (version.spec_bytes() + device_types.spec_bytes() + rc_profile.spec_bytes() + dev_features.spec_bytes())),
        (m is GiveFeatures ==> m.spec_bytes() == seq![0xa5u8]),
        (m matches Message::RequestCurrentLatency { physical_address } ==> m.spec_bytes() == seq![0xa7u8] + physical_address.spec_bytes()),
        (m matches Message::ReportCurrentLatency { physical_address, video_latency, flags, audio_output_delay } ==> m.spec_bytes() == seq![0xa8u8] + (physical_address.spec_bytes() + video_latency.spec_bytes() + flags.spec_bytes() + audio_output_delay.spec_bytes())),
{
    match m {
        Message::CdcMessage { .. } => {},
        Message::ReportFeatures { .. } => {},
        Message::GiveFeatures => {},
        Message::RequestCurrentLatency { .. } => {},
        Message::ReportCurrentLatency { .. } => {},
        _ => {},
    }
}

} // verus!
