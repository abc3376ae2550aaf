//! The feature operands of a device: its device features and its remote
//! control profile, each a fixed byte followed by up to fourteen more.

use vstd::prelude::*;

use crate::codec::{result_view, OperandEncodable};
use crate::error::{invalid_value, Error, ErrorView};
use crate::operand::buffer::{BoundedBufferOperand, TaggedLengthBuffer, TaggedParam};
use crate::operand::codes::RcProfileId;
use crate::operand::flags::{DeviceFeatures1, RcProfileSource};

verus! {

broadcast use vstd::array::group_array_axioms;

impl TaggedParam for DeviceFeatures1 {
    open spec fn spec_into_u8(self) -> u8 {
        self.bits
    }

    open spec fn spec_try_from_u8(b: u8) -> Result<DeviceFeatures1, ErrorView> {
        Ok(DeviceFeatures1 { bits: b })
    }

    fn into_u8(self) -> (r: u8) {
        self.bits
    }

    fn try_from_u8(b: u8) -> (r: Result<DeviceFeatures1, Error>) {
        Ok(DeviceFeatures1::from_bits_retain(b))
    }
}

impl From<DeviceFeatures1> for u8 {
    fn from(flags: DeviceFeatures1) -> (r: u8) {
        flags.bits()
    }
}

impl vstd::std_specs::convert::FromSpecImpl<DeviceFeatures1> for u8 {
    open spec fn obeys_from_spec() -> bool {
        true
    }

    open spec fn from_spec(flags: DeviceFeatures1) -> u8 {
        flags.bits
    }
}

impl TryFrom<u8> for DeviceFeatures1 {
    type Error = Error;

    fn try_from(flags: u8) -> (r: Result<DeviceFeatures1, Error>)
        ensures
            r == Ok::<DeviceFeatures1, Error>(DeviceFeatures1 { bits: flags }),
    {
        Ok(DeviceFeatures1::from_bits_retain(flags))
    }
}

impl vstd::std_specs::convert::TryFromSpecImpl<u8> for DeviceFeatures1 {
    open spec fn obeys_try_from_spec() -> bool {
        true
    }

    open spec fn try_from_spec(flags: u8) -> Result<DeviceFeatures1, Error> {
        Ok(DeviceFeatures1 { bits: flags })
    }
}

/// The extra bytes in use of a buffer of fourteen bytes.
fn used_bytes(b: &BoundedBufferOperand<14, u8>) -> (r: &[u8])
    ensures
        r@ == b.items(),
{
    let count = if b.len <= 14 { b.len } else { 14 };
    let all: &[u8] = &b.buffer;
    &all[0..count]
}

/// A buffer of fourteen bytes built from `extra` keeps at most the bytes it
/// was given.
proof fn lemma_buffer_items(extra: Seq<u8>)
    ensures
        BoundedBufferOperand::<14, u8>::spec_parse(extra) matches Ok(b) ==> b.items().len() <= extra.len(),
{
    BoundedBufferOperand::<14, u8>::lemma_parse_len(extra);
    if let Ok(b) = BoundedBufferOperand::<14, u8>::spec_parse(extra) {
        crate::operand::buffer::lemma_encode_all_len(b.items());
    }
}

/// The features of a device: the first byte of flags, and up to fourteen
/// more bytes.
#[derive(Clone, Copy, Debug, PartialEq, Eq, Hash)]
pub struct DeviceFeatures {
    pub device_features_1: DeviceFeatures1,
    pub device_features_n: BoundedBufferOperand<14, u8>,
}

impl DeviceFeatures {
    /// The features with the first byte `device_features_1` and no more.
    pub fn new(device_features_1: DeviceFeatures1) -> (r: DeviceFeatures)
        ensures
            r.device_features_1 == device_features_1,
            r.device_features_n == BoundedBufferOperand::<14, u8>::of_items(Seq::empty()),
    {
        DeviceFeatures { device_features_1, device_features_n: BoundedBufferOperand::new() }
    }
}

impl TaggedLengthBuffer for DeviceFeatures {
    type FixedParam = DeviceFeatures1;

    open spec fn spec_fixed_param(&self) -> DeviceFeatures1 {
        self.device_features_1
    }

    open spec fn spec_extra_params(&self) -> Seq<u8> {
        self.device_features_n.items()
    }

    open spec fn spec_new(first: DeviceFeatures1, extra: Seq<u8>) -> Result<DeviceFeatures, ErrorView> {
        match BoundedBufferOperand::<14, u8>::spec_parse(extra) {
            Ok(b) => Ok(DeviceFeatures { device_features_1: first, device_features_n: b }),
            Err(e) => Err(e),
        }
    }

    fn try_new(first: DeviceFeatures1, extra: &[u8]) -> (r: Result<DeviceFeatures, Error>) {
        match BoundedBufferOperand::<14, u8>::try_from_bytes(extra) {
            Ok(b) => Ok(DeviceFeatures { device_features_1: first, device_features_n: b }),
            Err(e) => Err(e),
        }
    }

    fn fixed_param(&self) -> (r: DeviceFeatures1) {
        self.device_features_1
    }

    fn extra_params(&self) -> (r: &[u8]) {
        used_bytes(&self.device_features_n)
    }

    proof fn lemma_new_extra(first: DeviceFeatures1, extra: Seq<u8>) {
        lemma_buffer_items(extra);
    }
}

/// The first byte of a remote control profile: the profile of a TV, or the
/// menus that a source device offers.
#[derive(Clone, Copy, Debug, PartialEq, Eq, Structural, Hash)]
pub enum RcProfile1 {
    Source(RcProfileSource),
    Tv { id: RcProfileId },
}

impl TaggedParam for RcProfile1 {
    open spec fn spec_into_u8(self) -> u8 {
        match self {
            RcProfile1::Source(source) => source.bits,
            RcProfile1::Tv { id } => id.code(),
        }
    }

    open spec fn spec_try_from_u8(b: u8) -> Result<RcProfile1, ErrorView> {
        let flags = (b & 0x7fu8) as u8;
        if flags & 0x40u8 == 0x40u8 {
            Ok(RcProfile1::Source(RcProfileSource { bits: flags }))
        } else {
            let id = (flags & 0xfu8) as u8;
            match RcProfileId::from_code(id) {
                Some(id) => Ok(RcProfile1::Tv { id }),
                None => Err(invalid_value("RcProfileId"@, id as nat)),
            }
        }
    }

    fn into_u8(self) -> (r: u8) {
        match self {
            RcProfile1::Source(source) => source.bits(),
            RcProfile1::Tv { id } => id.to_u8(),
        }
    }

    fn try_from_u8(b: u8) -> (r: Result<RcProfile1, Error>) {
        let flags = b & 0x7f;
        if flags & 0x40 == 0x40 {
            Ok(RcProfile1::Source(RcProfileSource::from_bits_retain(flags)))
        } else {
            match RcProfileId::try_from_u8(flags & 0xf) {
                Ok(id) => Ok(RcProfile1::Tv { id }),
                Err(e) => Err(e),
            }
        }
    }
}

impl From<RcProfile1> for u8 {
    fn from(profile: RcProfile1) -> (r: u8) {
        profile.into_u8()
    }
}

impl vstd::std_specs::convert::FromSpecImpl<RcProfile1> for u8 {
    open spec fn obeys_from_spec() -> bool {
        true
    }

    open spec fn from_spec(profile: RcProfile1) -> u8 {
        profile.spec_into_u8()
    }
}

impl TryFrom<u8> for RcProfile1 {
    type Error = Error;

    fn try_from(flags: u8) -> (r: Result<RcProfile1, Error>)
        ensures
            result_view(r) == <RcProfile1 as TaggedParam>::spec_try_from_u8(flags),
    {
        <RcProfile1 as TaggedParam>::try_from_u8(flags)
    }
}

/// Verus asks for this spec beside the `TryFrom` impl above. It is not
/// used: `obeys_try_from_spec` is false, so no proof reads `try_from_spec`;
/// what `try_from` returns is stated by the `ensures` of the impl's
/// `try_from`, whose errors carry a text or a range that a spec value here
/// cannot stand for.
impl vstd::std_specs::convert::TryFromSpecImpl<u8> for RcProfile1 {
    open spec fn obeys_try_from_spec() -> bool {
        false
    }

    open spec fn try_from_spec(flags: u8) -> Result<RcProfile1, Error> {
        Err(Error::InvalidData)
    }
}

/// The remote control profile of a device: the first byte, and up to
/// fourteen more bytes.
#[derive(Clone, Copy, Debug, PartialEq, Eq, Hash)]
pub struct RcProfile {
    pub rc_profile_1: RcProfile1,
    pub rc_profile_n: BoundedBufferOperand<14, u8>,
}

impl RcProfile {
    /// The profile with the first byte `rc_profile_1` and no more.
    pub fn new(rc_profile_1: RcProfile1) -> (r: RcProfile)
        ensures
            r.rc_profile_1 == rc_profile_1,
            r.rc_profile_n == BoundedBufferOperand::<14, u8>::of_items(Seq::empty()),
    {
        RcProfile { rc_profile_1, rc_profile_n: BoundedBufferOperand::new() }
    }
}

impl TaggedLengthBuffer for RcProfile {
    type FixedParam = RcProfile1;

    open spec fn spec_fixed_param(&self) -> RcProfile1 {
        self.rc_profile_1
    }

    open spec fn spec_extra_params(&self) -> Seq<u8> {
        self.rc_profile_n.items()
    }

    open spec fn spec_new(first: RcProfile1, extra: Seq<u8>) -> Result<RcProfile, ErrorView> {
        match BoundedBufferOperand::<14, u8>::spec_parse(extra) {
            Ok(b) => Ok(RcProfile { rc_profile_1: first, rc_profile_n: b }),
            Err(e) => Err(e),
        }
    }

    fn try_new(first: RcProfile1, extra: &[u8]) -> (r: Result<RcProfile, Error>) {
        match BoundedBufferOperand::<14, u8>::try_from_bytes(extra) {
            Ok(b) => Ok(RcProfile { rc_profile_1: first, rc_profile_n: b }),
            Err(e) => Err(e),
        }
    }

    fn fixed_param(&self) -> (r: RcProfile1) {
        self.rc_profile_1
    }

    fn extra_params(&self) -> (r: &[u8]) {
        used_bytes(&self.rc_profile_n)
    }

    proof fn lemma_new_extra(first: RcProfile1, extra: Seq<u8>) {
        lemma_buffer_items(extra);
    }
}

} // verus!
