//! The message handling mode of a device, as the kernel encodes it: the
//! initiator mode in the low four bits, the follower mode in the next four.

use vstd::prelude::*;

use crate::address::{FollowerMode, InitiatorMode};
use crate::error::{decimal, u32_decimal, Error, ErrorView};

verus! {

/// The initiator modes of the kernel interface, in four bits.
#[derive(Clone, Copy, Debug, PartialEq, Eq, Structural)]
pub enum CecInitiatorModes {
    NoInitiator,
    Initiator,
    ExclusiveInitiator,
    /// A value that names no mode.
    Invalid(u32),
}

impl CecInitiatorModes {
    /// The bits of the value.
    pub open spec fn spec_into_bits(self) -> u32 {
        match self {
            CecInitiatorModes::NoInitiator => 0,
            CecInitiatorModes::Initiator => 1,
            CecInitiatorModes::ExclusiveInitiator => 2,
            CecInitiatorModes::Invalid(x) => x,
        }
    }

    /// The value of the low four bits of `bits`.
    pub open spec fn spec_from_bits(bits: u32) -> CecInitiatorModes {
        let x = (bits & 0xfu32) as u32;
        if x == 0 {
            CecInitiatorModes::NoInitiator
        } else if x == 1 {
            CecInitiatorModes::Initiator
        } else if x == 2 {
            CecInitiatorModes::ExclusiveInitiator
        } else {
            CecInitiatorModes::Invalid(x)
        }
    }

    /// The bits of the value.
    pub fn into_bits(self) -> (r: u32)
        ensures
            r == self.spec_into_bits(),
    {
        match self {
            CecInitiatorModes::NoInitiator => 0,
            CecInitiatorModes::Initiator => 1,
            CecInitiatorModes::ExclusiveInitiator => 2,
            CecInitiatorModes::Invalid(x) => x,
        }
    }

    /// The value of the low four bits of `bits`.
    pub fn from_bits(bits: u32) -> (r: CecInitiatorModes)
        ensures
            r == Self::spec_from_bits(bits),
    {
        let x = bits & 0xf;
        if x == 0 {
            CecInitiatorModes::NoInitiator
        } else if x == 1 {
            CecInitiatorModes::Initiator
        } else if x == 2 {
            CecInitiatorModes::ExclusiveInitiator
        } else {
            CecInitiatorModes::Invalid(x)
        }
    }
}

/// The kernel's initiator mode of an initiator mode.
pub open spec fn initiator_modes_of(mode: InitiatorMode) -> CecInitiatorModes {
    match mode {
        InitiatorMode::Disabled => CecInitiatorModes::NoInitiator,
        InitiatorMode::Enabled => CecInitiatorModes::Initiator,
        InitiatorMode::Exclusive => CecInitiatorModes::ExclusiveInitiator,
    }
}

/// Converting an initiator mode to the kernel's and back gives it back: the
/// kernel mode of a mode is never invalid, and no two modes share one.
pub proof fn lemma_initiator_mode_roundtrip(a: InitiatorMode, b: InitiatorMode)
    ensures
        !(initiator_modes_of(a) is Invalid),
        initiator_modes_of(a) == initiator_modes_of(b) ==> a == b,
{
}

/// The kernel numbers of the initiator modes: 0 for none, 1 for an
/// initiator, 2 for an exclusive one; a disabled initiator has none, an
/// enabled one is an initiator, an exclusive one an exclusive initiator.
/// Any four bits read back as the mode whose number they hold.
pub proof fn lemma_initiator_mode_numbers(bits: u32)
    ensures
        initiator_modes_of(InitiatorMode::Disabled).spec_into_bits() == 0,
        initiator_modes_of(InitiatorMode::Enabled).spec_into_bits() == 1,
        initiator_modes_of(InitiatorMode::Exclusive).spec_into_bits() == 2,
        CecInitiatorModes::spec_from_bits(bits).spec_into_bits() == bits & 0xfu32,
{
}

impl From<InitiatorMode> for CecInitiatorModes {
    fn from(mode: InitiatorMode) -> (r: CecInitiatorModes) {
        match mode {
            InitiatorMode::Disabled => CecInitiatorModes::NoInitiator,
            InitiatorMode::Enabled => CecInitiatorModes::Initiator,
            InitiatorMode::Exclusive => CecInitiatorModes::ExclusiveInitiator,
        }
    }
}

impl vstd::std_specs::convert::FromSpecImpl<InitiatorMode> for CecInitiatorModes {
    open spec fn obeys_from_spec() -> bool {
        true
    }

    open spec fn from_spec(mode: InitiatorMode) -> CecInitiatorModes {
        initiator_modes_of(mode)
    }
}

impl InitiatorMode {
    /// The initiator mode of a kernel initiator mode; a value that names no
    /// mode is reported as an invalid value.
    pub fn try_from_modes(mode: CecInitiatorModes) -> (r: Result<InitiatorMode, Error>)
        ensures
            r is Ok <==> !(mode is Invalid),
            r matches Ok(m) ==> initiator_modes_of(m) == mode,
            r matches Err(e) ==> (mode matches CecInitiatorModes::Invalid(x) && e@ == (ErrorView::InvalidValueForType {
                ty: "CecInitiatorModes"@,
                value: decimal(x as nat),
            })),
    {
        match mode {
            CecInitiatorModes::NoInitiator => Ok(InitiatorMode::Disabled),
            CecInitiatorModes::Initiator => Ok(InitiatorMode::Enabled),
            CecInitiatorModes::ExclusiveInitiator => Ok(InitiatorMode::Exclusive),
            CecInitiatorModes::Invalid(x) => Err(
                Error::InvalidValueForType { ty: "CecInitiatorModes", value: u32_decimal(x) },
            ),
        }
    }
}

impl TryFrom<CecInitiatorModes> for InitiatorMode {
    type Error = Error;

    fn try_from(mode: CecInitiatorModes) -> (r: Result<InitiatorMode, Error>)
        ensures
            r is Ok <==> !(mode is Invalid),
            r matches Ok(m) ==> initiator_modes_of(m) == mode,
            r matches Err(e) ==> (mode matches CecInitiatorModes::Invalid(x) && e@ == (ErrorView::InvalidValueForType {
                ty: "CecInitiatorModes"@,
                value: decimal(x as nat),
            })),
    {
        InitiatorMode::try_from_modes(mode)
    }
}

/// Verus asks for this spec beside the `TryFrom` impl above. It is not
/// used: `obeys_try_from_spec` is false, so no proof reads `try_from_spec`;
/// what `try_from` returns is stated by the `ensures` of the impl's
/// `try_from`, whose errors carry a text or a range that a spec value here
/// cannot stand for.
impl vstd::std_specs::convert::TryFromSpecImpl<CecInitiatorModes> for InitiatorMode {
    open spec fn obeys_try_from_spec() -> bool {
        false
    }

    open spec fn try_from_spec(mode: CecInitiatorModes) -> Result<InitiatorMode, Error> {
        Err(Error::InvalidData)
    }
}

/// The follower modes of the kernel interface, in four bits.
#[derive(Clone, Copy, Debug, PartialEq, Eq, Structural)]
pub enum CecFollowerModes {
    NoFollower,
    Follower,
    ExclusiveFollower,
    ExclusiveFollowerPassthru,
    MonitorPin,
    Monitor,
    MonitorAll,
    /// A value that names no mode.
    Invalid(u32),
}

impl CecFollowerModes {
    /// The bits of the value.
    pub open spec fn spec_into_bits(self) -> u32 {
        match self {
            CecFollowerModes::NoFollower => 0,
            CecFollowerModes::Follower => 1,
            CecFollowerModes::ExclusiveFollower => 2,
            CecFollowerModes::ExclusiveFollowerPassthru => 3,
            CecFollowerModes::MonitorPin => 0xd,
            CecFollowerModes::Monitor => 0xe,
            CecFollowerModes::MonitorAll => 0xf,
            CecFollowerModes::Invalid(x) => x,
        }
    }

    /// The value of the low four bits of `bits`.
    pub open spec fn spec_from_bits(bits: u32) -> CecFollowerModes {
        let x = (bits & 0xfu32) as u32;
        if x == 0 {
            CecFollowerModes::NoFollower
        } else if x == 1 {
            CecFollowerModes::Follower
        } else if x == 2 {
            CecFollowerModes::ExclusiveFollower
        } else if x == 3 {
            CecFollowerModes::ExclusiveFollowerPassthru
        } else if x == 0xd {
            CecFollowerModes::MonitorPin
        } else if x == 0xe {
            CecFollowerModes::Monitor
        } else if x == 0xf {
            CecFollowerModes::MonitorAll
        } else {
            CecFollowerModes::Invalid(x)
        }
    }

    /// The bits of the value.
    pub fn into_bits(self) -> (r: u32)
        ensures
            r == self.spec_into_bits(),
    {
        match self {
            CecFollowerModes::NoFollower => 0,
            CecFollowerModes::Follower => 1,
            CecFollowerModes::ExclusiveFollower => 2,
            CecFollowerModes::ExclusiveFollowerPassthru => 3,
            CecFollowerModes::MonitorPin => 0xd,
            CecFollowerModes::Monitor => 0xe,
            CecFollowerModes::MonitorAll => 0xf,
            CecFollowerModes::Invalid(x) => x,
        }
    }

    /// The value of the low four bits of `bits`.
    pub fn from_bits(bits: u32) -> (r: CecFollowerModes)
        ensures
            r == Self::spec_from_bits(bits),
    {
        let x = bits & 0xf;
        if x == 0 {
            CecFollowerModes::NoFollower
        } else if x == 1 {
            CecFollowerModes::Follower
        } else if x == 2 {
            CecFollowerModes::ExclusiveFollower
        } else if x == 3 {
            CecFollowerModes::ExclusiveFollowerPassthru
        } else if x == 0xd {
            CecFollowerModes::MonitorPin
        } else if x == 0xe {
            CecFollowerModes::Monitor
        } else if x == 0xf {
            CecFollowerModes::MonitorAll
        } else {
            CecFollowerModes::Invalid(x)
        }
    }
}

/// The kernel's follower mode of a follower mode.
pub open spec fn follower_modes_of(mode: FollowerMode) -> CecFollowerModes {
    match mode {
        FollowerMode::Disabled => CecFollowerModes::NoFollower,
        FollowerMode::Enabled => CecFollowerModes::Follower,
        FollowerMode::Exclusive => CecFollowerModes::ExclusiveFollower,
        FollowerMode::ExclusivePassthru => CecFollowerModes::ExclusiveFollowerPassthru,
        FollowerMode::MonitorPin => CecFollowerModes::MonitorPin,
        FollowerMode::Monitor => CecFollowerModes::Monitor,
        FollowerMode::MonitorAll => CecFollowerModes::MonitorAll,
    }
}

/// Converting a follower mode to the kernel's and back gives it back: the
/// kernel mode of a mode is never invalid, and no two modes share one.
pub proof fn lemma_follower_mode_roundtrip(a: FollowerMode, b: FollowerMode)
    ensures
        !(follower_modes_of(a) is Invalid),
        follower_modes_of(a) == follower_modes_of(b) ==> a == b,
{
}

/// The kernel numbers of the follower modes: 0 for none, 1 for a
/// follower, 2 for an exclusive one, 3 for an exclusive one in passthrough,
/// 0xd for monitoring the pin, 0xe for monitoring and 0xf for monitoring
/// all messages. Any four bits read back as the mode whose number they hold.
pub proof fn lemma_follower_mode_numbers(bits: u32)
    ensures
        follower_modes_of(FollowerMode::Disabled).spec_into_bits() == 0,
        follower_modes_of(FollowerMode::Enabled).spec_into_bits() == 1,
        follower_modes_of(FollowerMode::Exclusive).spec_into_bits() == 2,
        follower_modes_of(FollowerMode::ExclusivePassthru).spec_into_bits() == 3,
        follower_modes_of(FollowerMode::MonitorPin).spec_into_bits() == 0xd,
        follower_modes_of(FollowerMode::Monitor).spec_into_bits() == 0xe,
        follower_modes_of(FollowerMode::MonitorAll).spec_into_bits() == 0xf,
        CecFollowerModes::spec_from_bits(bits).spec_into_bits() == bits & 0xfu32,
{
}

impl From<FollowerMode> for CecFollowerModes {
    fn from(mode: FollowerMode) -> (r: CecFollowerModes) {
        match mode {
            FollowerMode::Disabled => CecFollowerModes::NoFollower,
            FollowerMode::Enabled => CecFollowerModes::Follower,
            FollowerMode::Exclusive => CecFollowerModes::ExclusiveFollower,
            FollowerMode::ExclusivePassthru => CecFollowerModes::ExclusiveFollowerPassthru,
            FollowerMode::MonitorPin => CecFollowerModes::MonitorPin,
            FollowerMode::Monitor => CecFollowerModes::Monitor,
            FollowerMode::MonitorAll => CecFollowerModes::MonitorAll,
        }
    }
}

impl vstd::std_specs::convert::FromSpecImpl<FollowerMode> for CecFollowerModes {
    open spec fn obeys_from_spec() -> bool {
        true
    }

    open spec fn from_spec(mode: FollowerMode) -> CecFollowerModes {
        follower_modes_of(mode)
    }
}

impl FollowerMode {
    /// The follower mode of a kernel follower mode; a value that names no
    /// mode is reported as an invalid value.
    pub fn try_from_modes(mode: CecFollowerModes) -> (r: Result<FollowerMode, Error>)
        ensures
            r is Ok <==> !(mode is Invalid),
            r matches Ok(m) ==> follower_modes_of(m) == mode,
            r matches Err(e) ==> (mode matches CecFollowerModes::Invalid(x) && e@ == (ErrorView::InvalidValueForType {
                ty: "CecFollowerModes"@,
                value: decimal(x as nat),
            })),
    {
        match mode {
            CecFollowerModes::NoFollower => Ok(FollowerMode::Disabled),
            CecFollowerModes::Follower => Ok(FollowerMode::Enabled),
            CecFollowerModes::ExclusiveFollower => Ok(FollowerMode::Exclusive),
            CecFollowerModes::ExclusiveFollowerPassthru => Ok(FollowerMode::ExclusivePassthru),
            CecFollowerModes::MonitorPin => Ok(FollowerMode::MonitorPin),
            CecFollowerModes::Monitor => Ok(FollowerMode::Monitor),
            CecFollowerModes::MonitorAll => Ok(FollowerMode::MonitorAll),
            CecFollowerModes::Invalid(x) => Err(
                Error::InvalidValueForType { ty: "CecFollowerModes", value: u32_decimal(x) },
            ),
        }
    }
}

impl TryFrom<CecFollowerModes> for FollowerMode {
    type Error = Error;

    fn try_from(mode: CecFollowerModes) -> (r: Result<FollowerMode, Error>)
        ensures
            r is Ok <==> !(mode is Invalid),
            r matches Ok(m) ==> follower_modes_of(m) == mode,
            r matches Err(e) ==> (mode matches CecFollowerModes::Invalid(x) && e@ == (ErrorView::InvalidValueForType {
                ty: "CecFollowerModes"@,
                value: decimal(x as nat),
            })),
    {
        FollowerMode::try_from_modes(mode)
    }
}

/// Verus asks for this spec beside the `TryFrom` impl above. It is not
/// used: `obeys_try_from_spec` is false, so no proof reads `try_from_spec`;
/// what `try_from` returns is stated by the `ensures` of the impl's
/// `try_from`, whose errors carry a text or a range that a spec value here
/// cannot stand for.
impl vstd::std_specs::convert::TryFromSpecImpl<CecFollowerModes> for FollowerMode {
    open spec fn obeys_try_from_spec() -> bool {
        false
    }

    open spec fn try_from_spec(mode: CecFollowerModes) -> Result<FollowerMode, Error> {
        Err(Error::InvalidData)
    }
}

/// The mode word: the initiator mode in bits 0 to 3, the follower mode in
/// bits 4 to 7, the rest reserved.
#[derive(Clone, Copy, Debug, PartialEq, Eq, Structural)]
pub struct CecMessageHandlingMode(pub u32);

/// The mode fields of a word read back after one is replaced.
pub proof fn lemma_mode_fields()
    by (bit_vector)
    ensures
        forall|w: u32, v: u32| #![auto] v <= 0xf ==> ((w & !0xfu32) | v) & 0xfu32 == v,
        forall|w: u32, v: u32| #![auto] v <= 0xf ==> (((w & !0xfu32) | v) >> 4u32) & 0xfu32 == (w >> 4u32) & 0xfu32,
        forall|w: u32, v: u32| #![auto] v <= 0xf ==> (((w & !0xf0u32) | (v << 4u32)) >> 4u32) & 0xfu32 == v,
        forall|w: u32, v: u32| #![auto] v <= 0xf ==> ((w & !0xf0u32) | (v << 4u32)) & 0xfu32 == w & 0xfu32,
{
}

impl CecMessageHandlingMode {
    /// The initiator mode.
    pub open spec fn spec_initiator(self) -> CecInitiatorModes {
        CecInitiatorModes::spec_from_bits(self.0)
    }

    /// The follower mode.
    pub open spec fn spec_follower(self) -> CecFollowerModes {
        CecFollowerModes::spec_from_bits(self.0 >> 4u32)
    }

    /// The initiator mode.
    pub fn initiator(&self) -> (r: CecInitiatorModes)
        ensures
            r == self.spec_initiator(),
    {
        CecInitiatorModes::from_bits(self.0)
    }

    /// The follower mode.
    pub fn follower(&self) -> (r: CecFollowerModes)
        ensures
            r == self.spec_follower(),
    {
        CecFollowerModes::from_bits(self.0 >> 4)
    }

    /// The word with its initiator mode replaced by `mode`, whose bits must
    /// fit in four; the follower mode and the reserved bits are kept.
    pub fn with_initiator(self, mode: CecInitiatorModes) -> (r: CecMessageHandlingMode)
        requires
            mode.spec_into_bits() <= 0xf,
        ensures
            r.0 == (self.0 & !0xfu32) | mode.spec_into_bits(),
            r.spec_follower() == self.spec_follower(),
            !(mode is Invalid) ==> r.spec_initiator() == mode,
    {
        let v = mode.into_bits();
        proof {
            lemma_mode_fields();
        }
        CecMessageHandlingMode((self.0 & !0xf) | v)
    }

    /// The word with its follower mode replaced by `mode`, whose bits must
    /// fit in four; the initiator mode and the reserved bits are kept.
    pub fn with_follower(self, mode: CecFollowerModes) -> (r: CecMessageHandlingMode)
        requires
            mode.spec_into_bits() <= 0xf,
        ensures
            r.0 == (self.0 & !0xf0u32) | (mode.spec_into_bits() << 4u32),
            r.spec_initiator() == self.spec_initiator(),
            !(mode is Invalid) ==> r.spec_follower() == mode,
    {
        let v = mode.into_bits();
        proof {
            lemma_mode_fields();
        }
        CecMessageHandlingMode((self.0 & !0xf0) | (v << 4))
    }
}

impl From<u32> for CecMessageHandlingMode {
    fn from(bits: u32) -> (r: CecMessageHandlingMode) {
        CecMessageHandlingMode(bits)
    }
}

impl vstd::std_specs::convert::FromSpecImpl<u32> for CecMessageHandlingMode {
    open spec fn obeys_from_spec() -> bool {
        true
    }

    open spec fn from_spec(bits: u32) -> CecMessageHandlingMode {
        CecMessageHandlingMode(bits)
    }
}

impl From<CecMessageHandlingMode> for u32 {
    fn from(mode: CecMessageHandlingMode) -> (r: u32) {
        mode.0
    }
}

impl vstd::std_specs::convert::FromSpecImpl<CecMessageHandlingMode> for u32 {
    open spec fn obeys_from_spec() -> bool {
        true
    }

    open spec fn from_spec(mode: CecMessageHandlingMode) -> u32 {
        mode.0
    }
}

} // verus!
