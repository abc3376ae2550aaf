//! The status of a recording timer, as reported by a recorder.

use vstd::prelude::*;

use crate::codec::{parse_at, parse_field, OperandEncodable};
use crate::error::{invalid_value, short_input, Error, ErrorView, Range, RangeView};
use crate::operand::codes::MediaInfo;
use crate::operand::service::Duration;

verus! {

/// The outcome of programming a timer that was programmed.
#[derive(Clone, Copy, Debug, PartialEq, Eq, Hash)]
pub enum ProgrammedInfo {
    EnoughSpace,
    NotEnoughSpace { duration_available: Option<Duration> },
    MayNotBeEnoughSpace { duration_available: Option<Duration> },
    NoneAvailable,
}

/// The reason a timer was not programmed.
#[derive(Clone, Copy, Debug, PartialEq, Eq, Hash)]
pub enum NotProgrammedErrorInfo {
    NoFreeTimer,
    DateOutOfRange,
    RecordingSequenceError,
    InvalidExternalPlug,
    InvalidExternalPhysicalAddress,
    CaUnsupported,
    InsufficientCaEntitlements,
    ResolutionUnsupported,
    ParentalLock,
    ClockFailure,
    Duplicate { duration_available: Option<Duration> },
}

/// Whether a timer was programmed, and the details of either outcome.
#[derive(Clone, Copy, Debug, PartialEq, Eq, Hash)]
pub enum TimerProgrammedInfo {
    Programmed(ProgrammedInfo),
    NotProgrammed(NotProgrammedErrorInfo),
}

impl TimerProgrammedInfo {
    /// The low four bits of the status byte.
    pub open spec fn code(self) -> u8 {
        match self {
            TimerProgrammedInfo::Programmed(p) => match p {
                ProgrammedInfo::EnoughSpace => 0x08,
                ProgrammedInfo::NotEnoughSpace { .. } => 0x09,
                ProgrammedInfo::MayNotBeEnoughSpace { .. } => 0x0b,
                ProgrammedInfo::NoneAvailable => 0x0a,
            },
            TimerProgrammedInfo::NotProgrammed(n) => match n {
                NotProgrammedErrorInfo::NoFreeTimer => 0x01,
                NotProgrammedErrorInfo::DateOutOfRange => 0x02,
                NotProgrammedErrorInfo::RecordingSequenceError => 0x03,
                NotProgrammedErrorInfo::InvalidExternalPlug => 0x04,
                NotProgrammedErrorInfo::InvalidExternalPhysicalAddress => 0x05,
                NotProgrammedErrorInfo::CaUnsupported => 0x06,
                NotProgrammedErrorInfo::InsufficientCaEntitlements => 0x07,
                NotProgrammedErrorInfo::ResolutionUnsupported => 0x08,
                NotProgrammedErrorInfo::ParentalLock => 0x09,
                NotProgrammedErrorInfo::ClockFailure => 0x0a,
                NotProgrammedErrorInfo::Duplicate { .. } => 0x0e,
            },
        }
    }

    /// Each outcome and the low four bits that encode it.
    pub proof fn lemma_code_table(self)
        ensures
            (self matches TimerProgrammedInfo::Programmed(ProgrammedInfo::EnoughSpace) ==> self.code() == 0x08),
            (self matches TimerProgrammedInfo::Programmed(ProgrammedInfo::NotEnoughSpace { .. }) ==> self.code() == 0x09),
            (self matches TimerProgrammedInfo::Programmed(ProgrammedInfo::MayNotBeEnoughSpace { .. }) ==> self.code() == 0x0b),
            (self matches TimerProgrammedInfo::Programmed(ProgrammedInfo::NoneAvailable) ==> self.code() == 0x0a),
            (self matches TimerProgrammedInfo::NotProgrammed(NotProgrammedErrorInfo::NoFreeTimer) ==> self.code() == 0x01),
            (self matches TimerProgrammedInfo::NotProgrammed(NotProgrammedErrorInfo::DateOutOfRange) ==> self.code() == 0x02),
            (self matches TimerProgrammedInfo::NotProgrammed(NotProgrammedErrorInfo::RecordingSequenceError) ==> self.code() == 0x03),
            (self matches TimerProgrammedInfo::NotProgrammed(NotProgrammedErrorInfo::InvalidExternalPlug) ==> self.code() == 0x04),
            (self matches TimerProgrammedInfo::NotProgrammed(NotProgrammedErrorInfo::InvalidExternalPhysicalAddress) ==> self.code() == 0x05),
            (self matches TimerProgrammedInfo::NotProgrammed(NotProgrammedErrorInfo::CaUnsupported) ==> self.code() == 0x06),
            (self matches TimerProgrammedInfo::NotProgrammed(NotProgrammedErrorInfo::InsufficientCaEntitlements) ==> self.code() == 0x07),
            (self matches TimerProgrammedInfo::NotProgrammed(NotProgrammedErrorInfo::ResolutionUnsupported) ==> self.code() == 0x08),
            (self matches TimerProgrammedInfo::NotProgrammed(NotProgrammedErrorInfo::ParentalLock) ==> self.code() == 0x09),
            (self matches TimerProgrammedInfo::NotProgrammed(NotProgrammedErrorInfo::ClockFailure) ==> self.code() == 0x0a),
            (self matches TimerProgrammedInfo::NotProgrammed(NotProgrammedErrorInfo::Duplicate { .. }) ==> self.code() == 0x0e),
    {
    }

    /// The available duration that follows the status byte, if any.
    pub open spec fn duration(self) -> Option<Duration> {
        match self {
            TimerProgrammedInfo::Programmed(ProgrammedInfo::NotEnoughSpace { duration_available }) => duration_available,
            TimerProgrammedInfo::Programmed(ProgrammedInfo::MayNotBeEnoughSpace { duration_available }) => duration_available,
            TimerProgrammedInfo::NotProgrammed(NotProgrammedErrorInfo::Duplicate { duration_available }) => duration_available,
            _ => None,
        }
    }

    /// The outcome of the code `code`, with `duration` for the outcomes that
    /// carry one.
    pub open spec fn from_code(programmed: bool, code: u8, duration: Option<Duration>) -> Option<
        TimerProgrammedInfo,
    > {
        if programmed {
            match code {
                0x08u8 => Some(TimerProgrammedInfo::Programmed(ProgrammedInfo::EnoughSpace)),
                0x09u8 => Some(
                    TimerProgrammedInfo::Programmed(
                        ProgrammedInfo::NotEnoughSpace { duration_available: duration },
                    ),
                ),
                0x0bu8 => Some(
                    TimerProgrammedInfo::Programmed(
                        ProgrammedInfo::MayNotBeEnoughSpace { duration_available: duration },
                    ),
                ),
                0x0au8 => Some(TimerProgrammedInfo::Programmed(ProgrammedInfo::NoneAvailable)),
                _ => None,
            }
        } else {
            match code {
                0x01u8 => Some(TimerProgrammedInfo::NotProgrammed(NotProgrammedErrorInfo::NoFreeTimer)),
                0x02u8 => Some(TimerProgrammedInfo::NotProgrammed(NotProgrammedErrorInfo::DateOutOfRange)),
                0x03u8 => Some(
                    TimerProgrammedInfo::NotProgrammed(NotProgrammedErrorInfo::RecordingSequenceError),
                ),
                0x04u8 => Some(TimerProgrammedInfo::NotProgrammed(NotProgrammedErrorInfo::InvalidExternalPlug)),
                0x05u8 => Some(
                    TimerProgrammedInfo::NotProgrammed(
                        NotProgrammedErrorInfo::InvalidExternalPhysicalAddress,
                    ),
                ),
                0x06u8 => Some(TimerProgrammedInfo::NotProgrammed(NotProgrammedErrorInfo::CaUnsupported)),
                0x07u8 => Some(
                    TimerProgrammedInfo::NotProgrammed(NotProgrammedErrorInfo::InsufficientCaEntitlements),
                ),
                0x08u8 => Some(TimerProgrammedInfo::NotProgrammed(NotProgrammedErrorInfo::ResolutionUnsupported)),
                0x09u8 => Some(TimerProgrammedInfo::NotProgrammed(NotProgrammedErrorInfo::ParentalLock)),
                0x0au8 => Some(TimerProgrammedInfo::NotProgrammed(NotProgrammedErrorInfo::ClockFailure)),
                0x0eu8 => Some(
                    TimerProgrammedInfo::NotProgrammed(
                        NotProgrammedErrorInfo::Duplicate { duration_available: duration },
                    ),
                ),
                _ => None,
            }
        }
    }

    /// Whether the outcome of the code carries an available duration.
    pub open spec fn code_has_duration(programmed: bool, code: u8) -> bool {
        if programmed {
            code == 0x09 || code == 0x0b
        } else {
            code == 0x0e
        }
    }
}

/// The status of a timer: an overlap warning, the media present, and whether
/// and how the timer was programmed.
#[derive(Clone, Copy, Debug, PartialEq, Eq, Hash)]
pub struct TimerStatusData {
    pub overlap_warning: bool,
    pub media_info: MediaInfo,
    pub programmed_info: TimerProgrammedInfo,
}

/// The status byte of an overlap warning `w`, a media code `m`, a
/// programmed flag `p` and an outcome code `c`.
pub open spec fn status_byte(w: bool, m: u8, p: bool, c: u8) -> u8 {
    ((if w { 0x80u8 } else { 0u8 }) | (m << 5u8) | (if p { 0x10u8 } else { 0u8 }) | c) as u8
}

/// The fields of a status byte read back from it.
pub proof fn lemma_status_bits()
    by (bit_vector)
    ensures
        forall|w: bool, m: u8, p: bool, c: u8|
            m <= 3 && c <= 15 ==> {
                &&& (#[trigger] status_byte(w, m, p, c) & 0x80u8 == 0x80u8) == w
                &&& ((status_byte(w, m, p, c) >> 5u8) & 3u8) == m
                &&& (status_byte(w, m, p, c) & 0x10u8 == 0x10u8) == p
                &&& (status_byte(w, m, p, c) & 0xfu8) == c
            },
{
}

impl TimerStatusData {
    /// The status byte.
    pub open spec fn head(self) -> u8 {
        status_byte(
            self.overlap_warning,
            self.media_info.code(),
            self.programmed_info is Programmed,
            self.programmed_info.code(),
        )
    }
}

impl OperandEncodable for TimerStatusData {
    open spec fn spec_bytes(&self) -> Seq<u8> {
        seq![self.head()] + self.programmed_info.duration().spec_bytes()
    }

    open spec fn spec_parse(bytes: Seq<u8>) -> Result<TimerStatusData, ErrorView> {
        if bytes.len() < 1 {
            Err(short_input(1, bytes.len() as usize))
        } else {
            let byte = bytes[0];
            let media = ((byte >> 5u8) & 3u8) as u8;
            let programmed = byte & 0x10u8 == 0x10u8;
            let code = (byte & 0xfu8) as u8;
            match MediaInfo::from_code(media) {
                None => Err(invalid_value("MediaInfo"@, media as nat)),
                Some(media_info) => {
                    let duration = if TimerProgrammedInfo::code_has_duration(programmed, code) && bytes.len()
                        >= 3 {
                        match parse_at::<Duration>(bytes, 1) {
                            Ok(d) => Ok(Some(d)),
                            Err(e) => Err(e),
                        }
                    } else {
                        Ok(None)
                    };
                    match TimerProgrammedInfo::from_code(programmed, code, None) {
                        None => Err(
                            invalid_value(
                                if programmed {
                                    "ProgrammedInfo"@
                                } else {
                                    "NotProgrammedErrorInfo"@
                                },
                                code as nat,
                            ),
                        ),
                        Some(_) => match duration {
                            Err(e) => Err(e),
                            Ok(d) => Ok(
                                TimerStatusData {
                                    overlap_warning: byte & 0x80u8 == 0x80u8,
                                    media_info,
                                    programmed_info: TimerProgrammedInfo::from_code(programmed, code, d).unwrap(),
                                },
                            ),
                        },
                    }
                },
            }
        }
    }

    open spec fn spec_wf(&self) -> bool {
        match self.programmed_info.duration() {
            Some(d) => d.spec_wf(),
            None => true,
        }
    }

    open spec fn spec_expected_len() -> RangeView {
        RangeView::AtLeast(1)
    }

    open spec fn spec_self_delimiting() -> bool {
        false
    }

    fn to_bytes(&self, buf: &mut Vec<u8>) {
        let warning: u8 = if self.overlap_warning { 0x80 } else { 0 };
        let media = self.media_info.to_u8();
        let (flag, code, duration): (u8, u8, Option<Duration>) = match self.programmed_info {
            TimerProgrammedInfo::Programmed(p) => match p {
                ProgrammedInfo::EnoughSpace => (0x10, 0x08, None),
                ProgrammedInfo::NotEnoughSpace { duration_available } => (0x10, 0x09, duration_available),
                ProgrammedInfo::MayNotBeEnoughSpace { duration_available } => (0x10, 0x0b, duration_available),
                ProgrammedInfo::NoneAvailable => (0x10, 0x0a, None),
            },
            TimerProgrammedInfo::NotProgrammed(n) => match n {
                NotProgrammedErrorInfo::NoFreeTimer => (0, 0x01, None),
                NotProgrammedErrorInfo::DateOutOfRange => (0, 0x02, None),
                NotProgrammedErrorInfo::RecordingSequenceError => (0, 0x03, None),
                NotProgrammedErrorInfo::InvalidExternalPlug => (0, 0x04, None),
                NotProgrammedErrorInfo::InvalidExternalPhysicalAddress => (0, 0x05, None),
                NotProgrammedErrorInfo::CaUnsupported => (0, 0x06, None),
                NotProgrammedErrorInfo::InsufficientCaEntitlements => (0, 0x07, None),
                NotProgrammedErrorInfo::ResolutionUnsupported => (0, 0x08, None),
                NotProgrammedErrorInfo::ParentalLock => (0, 0x09, None),
                NotProgrammedErrorInfo::ClockFailure => (0, 0x0a, None),
                NotProgrammedErrorInfo::Duplicate { duration_available } => (0, 0x0e, duration_available),
            },
        };
        let byte = warning | (media << 5) | flag | code;
        buf.push(byte);
        duration.to_bytes(buf);
        proof {
            assert(byte == self.head());
            assert(final(buf)@ =~= old(buf)@ + self.spec_bytes());
        }
    }

    fn try_from_bytes(bytes: &[u8]) -> (r: Result<TimerStatusData, Error>) {
        if bytes.len() < 1 {
            return Err(Error::short_input(1, bytes.len()));
        }
        let byte = bytes[0];
        let media_info = match MediaInfo::try_from_u8((byte >> 5) & 3) {
            Ok(m) => m,
            Err(e) => return Err(e),
        };
        let overlap_warning = byte & 0x80 == 0x80;
        let programmed = byte & 0x10 == 0x10;
        let code = byte & 0xf;
        let programmed_info = if programmed {
            TimerProgrammedInfo::Programmed(
                match code {
                    0x08 => ProgrammedInfo::EnoughSpace,
                    0x09 => ProgrammedInfo::NotEnoughSpace {
                        duration_available: match Self::available_duration(bytes) {
                            Ok(d) => d,
                            Err(e) => return Err(e),
                        },
                    },
                    0x0b => ProgrammedInfo::MayNotBeEnoughSpace {
                        duration_available: match Self::available_duration(bytes) {
                            Ok(d) => d,
                            Err(e) => return Err(e),
                        },
                    },
                    0x0a => ProgrammedInfo::NoneAvailable,
                    _ => return Err(Error::invalid_value("ProgrammedInfo", code)),
                },
            )
        } else {
            TimerProgrammedInfo::NotProgrammed(
                match code {
                    0x01 => NotProgrammedErrorInfo::NoFreeTimer,
                    0x02 => NotProgrammedErrorInfo::DateOutOfRange,
                    0x03 => NotProgrammedErrorInfo::RecordingSequenceError,
                    0x04 => NotProgrammedErrorInfo::InvalidExternalPlug,
                    0x05 => NotProgrammedErrorInfo::InvalidExternalPhysicalAddress,
                    0x06 => NotProgrammedErrorInfo::CaUnsupported,
                    0x07 => NotProgrammedErrorInfo::InsufficientCaEntitlements,
                    0x08 => NotProgrammedErrorInfo::ResolutionUnsupported,
                    0x09 => NotProgrammedErrorInfo::ParentalLock,
                    0x0a => NotProgrammedErrorInfo::ClockFailure,
                    0x0e => NotProgrammedErrorInfo::Duplicate {
                        duration_available: match Self::available_duration(bytes) {
                            Ok(d) => d,
                            Err(e) => return Err(e),
                        },
                    },
                    _ => return Err(Error::invalid_value("NotProgrammedErrorInfo", code)),
                },
            )
        };
        Ok(TimerStatusData { overlap_warning, media_info, programmed_info })
    }

    fn len(&self) -> (r: usize) {
        match self.programmed_info {
            TimerProgrammedInfo::Programmed(ProgrammedInfo::NotEnoughSpace { duration_available })
            | TimerProgrammedInfo::Programmed(ProgrammedInfo::MayNotBeEnoughSpace { duration_available })
            | TimerProgrammedInfo::NotProgrammed(NotProgrammedErrorInfo::Duplicate { duration_available }) => {
                if duration_available.is_some() {
                    3
                } else {
                    1
                }
            },
            _ => 1,
        }
    }

    fn expected_len() -> (r: Range) {
        Range::AtLeast(1)
    }

    proof fn lemma_roundtrip(&self, rest: Seq<u8>) {
        let all = self.spec_bytes() + rest;
        let p = self.programmed_info;
        self.media_info.lemma_code(0);
        lemma_status_bits();
        let w = self.overlap_warning;
        let m = self.media_info.code();
        let pr = p is Programmed;
        let c = p.code();
        let b = status_byte(w, m, pr, c);
        assert(b == self.head());
        assert(all[0] == b);
        assert((b & 0x80u8 == 0x80u8) == w);
        assert(((b >> 5u8) & 3u8) == m);
        assert((b & 0x10u8 == 0x10u8) == pr);
        assert((b & 0xfu8) == c);
        match p.duration() {
            Some(d) => {
                crate::codec::lemma_parse_at_encoding(seq![b], d, rest);
                assert(all =~= seq![b] + d.spec_bytes() + rest);
            },
            None => {
                assert(all.len() == 1);
            },
        }
    }

    proof fn lemma_parse_len(bytes: Seq<u8>) {
        if bytes.len() >= 3 {
            Duration::lemma_parse_len(bytes.subrange(1, bytes.len() as int));
        }
    }
}

impl TimerStatusData {
    /// The duration that follows the status byte: decoded when at least two
    /// bytes follow it, else none.
    fn available_duration(bytes: &[u8]) -> (r: Result<Option<Duration>, Error>)
        requires
            bytes@.len() >= 1,
        ensures
            bytes@.len() < 3 ==> r == Ok::<Option<Duration>, Error>(None),
            bytes@.len() >= 3 ==> crate::codec::result_view(r) == (match parse_at::<Duration>(bytes@, 1) {
                Ok(d) => Ok(Some(d)),
                Err(e) => Err(e),
            }),
    {
        if bytes.len() >= 3 {
            match parse_field::<Duration>(bytes, 1) {
                Ok(d) => Ok(Some(d)),
                Err(e) => Err(e),
            }
        } else {
            Ok(None)
        }
    }
}

} // verus!
