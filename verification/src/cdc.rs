//! Capability discovery and control (CDC): the messages that HDMI devices
//! exchange about the HDMI Ethernet channel and hot plug detection, carried
//! inside CEC messages.

use vstd::prelude::*;

use crate::address::PhysicalAddress;
use crate::codec::{
    array_of, hi_byte, lemma_array_of, lemma_parse_at_suffix, lemma_word, lemma_word_arith, lo_byte, parse_at, parse_code,
    parse_field, result_view, OperandEncodable,
};
use crate::error::{invalid_value, short_input, Error, ErrorView, Range, RangeView};
use crate::operand::buffer::BoundedBufferOperand;

verus! {

broadcast use vstd::array::group_array_axioms;

/// The bits of `b` at offset `o` under the mask `m`.
pub open spec fn get_bits(b: u8, o: u8, m: u8) -> u8 {
    ((b >> o) & m) as u8
}

/// `b` with the bits at offset `o` under the mask `m` replaced by `v`.
pub open spec fn put_bits(b: u8, o: u8, m: u8, v: u8) -> u8 {
    ((b & !(m << o)) | ((v & m) << o)) as u8
}

/// Whether a field of mask `m` at offset `o` lies within a byte: two bits or
/// four.
pub open spec fn field_fits(o: u8, m: u8) -> bool {
    (m == 3 && o <= 6) || (m == 15 && o <= 4)
}

/// The width of a field of mask `m`.
pub open spec fn field_width(m: u8) -> u8 {
    if m == 3 {
        2
    } else {
        4
    }
}

/// A field reads back what was written to it, the other fields of the byte
/// keep their bits, and a value within a mask is unchanged by it.
pub proof fn lemma_bits()
    by (bit_vector)
    ensures
        forall|b: u8, o: u8, m: u8, v: u8|
            field_fits(o, m) && v <= m ==> #[trigger] get_bits(put_bits(b, o, m, v), o, m) == v,
        forall|b: u8, o: u8, m: u8, v: u8, o2: u8, m2: u8|
            field_fits(o, m) && field_fits(o2, m2) && (o2 >= o + field_width(m) || o >= o2 + field_width(m2))
                ==> #[trigger] get_bits(put_bits(b, o, m, v), o2, m2) == get_bits(b, o2, m2),
        forall|x: u8, m: u8| (m == 3 || m == 15) && x <= m ==> #[trigger] (x & m) == x,
{
}

/// The error code of a CDC reply, in two bits.
#[derive(Clone, Copy, Debug, PartialEq, Eq, Structural, Hash)]
pub enum CdcErrorCode {
    NoError,
    InitiatorNotCapable,
    InitiatorIncapableState,
    Other,
}

impl CdcErrorCode {
    /// The bits of the value.
    pub open spec fn spec_into_bits(self) -> u8 {
        match self {
            CdcErrorCode::NoError => 0,
            CdcErrorCode::InitiatorNotCapable => 1,
            CdcErrorCode::InitiatorIncapableState => 2,
            CdcErrorCode::Other => 3,
        }
    }

    /// The value of the low bits of `bits`.
    pub open spec fn spec_from_bits(bits: u8) -> CdcErrorCode {
        let x = (bits & 3u8) as u8;
        if x == 0 {
            CdcErrorCode::NoError
        } else if x == 1 {
            CdcErrorCode::InitiatorNotCapable
        } else if x == 2 {
            CdcErrorCode::InitiatorIncapableState
        } else {
            CdcErrorCode::Other
        }
    }

    /// Whether the value is one that its bits hold and decode back to.
    pub open spec fn spec_canonical(self) -> bool {
        true
    }

    /// The bits of the value.
    pub fn into_bits(self) -> (r: u8)
        ensures
            r == self.spec_into_bits(),
    {
        match self {
            CdcErrorCode::NoError => 0,
            CdcErrorCode::InitiatorNotCapable => 1,
            CdcErrorCode::InitiatorIncapableState => 2,
            CdcErrorCode::Other => 3,
        }
    }

    /// The value of the low bits of `bits`.
    pub fn from_bits(bits: u8) -> (r: CdcErrorCode)
        ensures
            r == Self::spec_from_bits(bits),
    {
        let x = bits & 3;
        if x == 0 {
            CdcErrorCode::NoError
        } else if x == 1 {
            CdcErrorCode::InitiatorNotCapable
        } else if x == 2 {
            CdcErrorCode::InitiatorIncapableState
        } else {
            CdcErrorCode::Other
        }
    }

    /// A value that its bits hold decodes back from them.
    pub proof fn lemma_bits(self)
        requires
            self.spec_canonical(),
        ensures
            self.spec_into_bits() <= 3,
            Self::spec_from_bits(self.spec_into_bits()) == self,
    {
        lemma_bits();
    }
}

/// The state of a host or external network functionality, in two bits.
#[derive(Clone, Copy, Debug, PartialEq, Eq, Structural, Hash)]
pub enum FunctionalityState {
    NotSupported,
    Inactive,
    Active,
    /// A value that names none of the others.
    Invalid(u8),
}

impl FunctionalityState {
    /// The bits of the value.
    pub open spec fn spec_into_bits(self) -> u8 {
        match self {
            FunctionalityState::NotSupported => 0,
            FunctionalityState::Inactive => 1,
            FunctionalityState::Active => 2,
            FunctionalityState::Invalid(x) => x,
        }
    }

    /// The value of the low bits of `bits`.
    pub open spec fn spec_from_bits(bits: u8) -> FunctionalityState {
        let x = (bits & 3u8) as u8;
        if x == 0 {
            FunctionalityState::NotSupported
        } else if x == 1 {
            FunctionalityState::Inactive
        } else if x == 2 {
            FunctionalityState::Active
        } else {
            FunctionalityState::Invalid(x)
        }
    }

    /// Whether the value is one that its bits hold and decode back to.
    pub open spec fn spec_canonical(self) -> bool {
        match self {
            FunctionalityState::Invalid(x) => x <= 3 && x != 0 && x != 1 && x != 2,
            _ => true,
        }
    }

    /// The bits of the value.
    pub fn into_bits(self) -> (r: u8)
        ensures
            r == self.spec_into_bits(),
    {
        match self {
            FunctionalityState::NotSupported => 0,
            FunctionalityState::Inactive => 1,
            FunctionalityState::Active => 2,
            FunctionalityState::Invalid(x) => x,
        }
    }

    /// The value of the low bits of `bits`.
    pub fn from_bits(bits: u8) -> (r: FunctionalityState)
        ensures
            r == Self::spec_from_bits(bits),
    {
        let x = bits & 3;
        if x == 0 {
            FunctionalityState::NotSupported
        } else if x == 1 {
            FunctionalityState::Inactive
        } else if x == 2 {
            FunctionalityState::Active
        } else {
            FunctionalityState::Invalid(x)
        }
    }

    /// A value that its bits hold decodes back from them.
    pub proof fn lemma_bits(self)
        requires
            self.spec_canonical(),
        ensures
            self.spec_into_bits() <= 3,
            Self::spec_from_bits(self.spec_into_bits()) == self,
    {
        lemma_bits();
    }
}

/// The state of the external network connection functionality.
pub type EncFunctionalityState = FunctionalityState;

/// The state of the host functionality.
pub type HostFunctionalityState = FunctionalityState;

/// The state of the HDMI Ethernet channel functionality, in two bits.
#[derive(Clone, Copy, Debug, PartialEq, Eq, Structural, Hash)]
pub enum HecFunctionalityState {
    NotSupported,
    Inactive,
    Active,
    ActivationField,
}

impl HecFunctionalityState {
    /// The bits of the value.
    pub open spec fn spec_into_bits(self) -> u8 {
        match self {
            HecFunctionalityState::NotSupported => 0,
            HecFunctionalityState::Inactive => 1,
            HecFunctionalityState::Active => 2,
            HecFunctionalityState::ActivationField => 3,
        }
    }

    /// The value of the low bits of `bits`.
    pub open spec fn spec_from_bits(bits: u8) -> HecFunctionalityState {
        let x = (bits & 3u8) as u8;
        if x == 0 {
            HecFunctionalityState::NotSupported
        } else if x == 1 {
            HecFunctionalityState::Inactive
        } else if x == 2 {
            HecFunctionalityState::Active
        } else {
            HecFunctionalityState::ActivationField
        }
    }

    /// Whether the value is one that its bits hold and decode back to.
    pub open spec fn spec_canonical(self) -> bool {
        true
    }

    /// The bits of the value.
    pub fn into_bits(self) -> (r: u8)
        ensures
            r == self.spec_into_bits(),
    {
        match self {
            HecFunctionalityState::NotSupported => 0,
            HecFunctionalityState::Inactive => 1,
            HecFunctionalityState::Active => 2,
            HecFunctionalityState::ActivationField => 3,
        }
    }

    /// The value of the low bits of `bits`.
    pub fn from_bits(bits: u8) -> (r: HecFunctionalityState)
        ensures
            r == Self::spec_from_bits(bits),
    {
        let x = bits & 3;
        if x == 0 {
            HecFunctionalityState::NotSupported
        } else if x == 1 {
            HecFunctionalityState::Inactive
        } else if x == 2 {
            HecFunctionalityState::Active
        } else {
            HecFunctionalityState::ActivationField
        }
    }

    /// A value that its bits hold decodes back from them.
    pub proof fn lemma_bits(self)
        requires
            self.spec_canonical(),
        ensures
            self.spec_into_bits() <= 3,
            Self::spec_from_bits(self.spec_into_bits()) == self,
    {
        lemma_bits();
    }
}

/// The error code of a hot plug detect reply, in four bits.
#[derive(Clone, Copy, Debug, PartialEq, Eq, Structural, Hash)]
pub enum HpdErrorCode {
    NoError,
    InitiatorNotCapable,
    InitiatorIncapableState,
    Other,
    NoVideo,
    /// A value that names none of the others.
    Invalid(u8),
}

impl HpdErrorCode {
    /// The bits of the value.
    pub open spec fn spec_into_bits(self) -> u8 {
        match self {
            HpdErrorCode::NoError => 0,
            HpdErrorCode::InitiatorNotCapable => 1,
            HpdErrorCode::InitiatorIncapableState => 2,
            HpdErrorCode::Other => 3,
            HpdErrorCode::NoVideo => 4,
            HpdErrorCode::Invalid(x) => x,
        }
    }

    /// The value of the low bits of `bits`.
    pub open spec fn spec_from_bits(bits: u8) -> HpdErrorCode {
        let x = (bits & 15u8) as u8;
        if x == 0 {
            HpdErrorCode::NoError
        } else if x == 1 {
            HpdErrorCode::InitiatorNotCapable
        } else if x == 2 {
            HpdErrorCode::InitiatorIncapableState
        } else if x == 3 {
            HpdErrorCode::Other
        } else if x == 4 {
            HpdErrorCode::NoVideo
        } else {
            HpdErrorCode::Invalid(x)
        }
    }

    /// Whether the value is one that its bits hold and decode back to.
    pub open spec fn spec_canonical(self) -> bool {
        match self {
            HpdErrorCode::Invalid(x) => x <= 15 && x != 0 && x != 1 && x != 2 && x != 3 && x != 4,
            _ => true,
        }
    }

    /// The bits of the value.
    pub fn into_bits(self) -> (r: u8)
        ensures
            r == self.spec_into_bits(),
    {
        match self {
            HpdErrorCode::NoError => 0,
            HpdErrorCode::InitiatorNotCapable => 1,
            HpdErrorCode::InitiatorIncapableState => 2,
            HpdErrorCode::Other => 3,
            HpdErrorCode::NoVideo => 4,
            HpdErrorCode::Invalid(x) => x,
        }
    }

    /// The value of the low bits of `bits`.
    pub fn from_bits(bits: u8) -> (r: HpdErrorCode)
        ensures
            r == Self::spec_from_bits(bits),
    {
        let x = bits & 15;
        if x == 0 {
            HpdErrorCode::NoError
        } else if x == 1 {
            HpdErrorCode::InitiatorNotCapable
        } else if x == 2 {
            HpdErrorCode::InitiatorIncapableState
        } else if x == 3 {
            HpdErrorCode::Other
        } else if x == 4 {
            HpdErrorCode::NoVideo
        } else {
            HpdErrorCode::Invalid(x)
        }
    }

    /// A value that its bits hold decodes back from them.
    pub proof fn lemma_bits(self)
        requires
            self.spec_canonical(),
        ensures
            self.spec_into_bits() <= 15,
            Self::spec_from_bits(self.spec_into_bits()) == self,
    {
        lemma_bits();
    }
}

/// A hot plug detect state, in four bits.
#[derive(Clone, Copy, Debug, PartialEq, Eq, Structural, Hash)]
pub enum HpdState {
    CpAndEdidDisable,
    CpAndEdidEnable,
    CpAndEdidDisableEnable,
    EdidDisable,
    EdidEnable,
    EdidDisableEnable,
    /// A value that names none of the others.
    Invalid(u8),
}

impl HpdState {
    /// The bits of the value.
    pub open spec fn spec_into_bits(self) -> u8 {
        match self {
            HpdState::CpAndEdidDisable => 0,
            HpdState::CpAndEdidEnable => 1,
            HpdState::CpAndEdidDisableEnable => 2,
            HpdState::EdidDisable => 3,
            HpdState::EdidEnable => 4,
            HpdState::EdidDisableEnable => 5,
            HpdState::Invalid(x) => x,
        }
    }

    /// The value of the low bits of `bits`.
    pub open spec fn spec_from_bits(bits: u8) -> HpdState {
        let x = (bits & 15u8) as u8;
        if x == 0 {
            HpdState::CpAndEdidDisable
        } else if x == 1 {
            HpdState::CpAndEdidEnable
        } else if x == 2 {
            HpdState::CpAndEdidDisableEnable
        } else if x == 3 {
            HpdState::EdidDisable
        } else if x == 4 {
            HpdState::EdidEnable
        } else if x == 5 {
            HpdState::EdidDisableEnable
        } else {
            HpdState::Invalid(x)
        }
    }

    /// Whether the value is one that its bits hold and decode back to.
    pub open spec fn spec_canonical(self) -> bool {
        match self {
            HpdState::Invalid(x) => x <= 15 && x != 0 && x != 1 && x != 2 && x != 3 && x != 4 && x != 5,
            _ => true,
        }
    }

    /// The bits of the value.
    pub fn into_bits(self) -> (r: u8)
        ensures
            r == self.spec_into_bits(),
    {
        match self {
            HpdState::CpAndEdidDisable => 0,
            HpdState::CpAndEdidEnable => 1,
            HpdState::CpAndEdidDisableEnable => 2,
            HpdState::EdidDisable => 3,
            HpdState::EdidEnable => 4,
            HpdState::EdidDisableEnable => 5,
            HpdState::Invalid(x) => x,
        }
    }

    /// The value of the low bits of `bits`.
    pub fn from_bits(bits: u8) -> (r: HpdState)
        ensures
            r == Self::spec_from_bits(bits),
    {
        let x = bits & 15;
        if x == 0 {
            HpdState::CpAndEdidDisable
        } else if x == 1 {
            HpdState::CpAndEdidEnable
        } else if x == 2 {
            HpdState::CpAndEdidDisableEnable
        } else if x == 3 {
            HpdState::EdidDisable
        } else if x == 4 {
            HpdState::EdidEnable
        } else if x == 5 {
            HpdState::EdidDisableEnable
        } else {
            HpdState::Invalid(x)
        }
    }

    /// A value that its bits hold decodes back from them.
    pub proof fn lemma_bits(self)
        requires
            self.spec_canonical(),
        ensures
            self.spec_into_bits() <= 15,
            Self::spec_from_bits(self.spec_into_bits()) == self,
    {
        lemma_bits();
    }
}

/// The state of the HDMI Ethernet channel of a device: the error code and three functionality states, two bits each.
#[derive(Clone, Copy, Debug, PartialEq, Eq, Structural, Hash)]
pub struct HecState(pub u8);

impl HecState {
    /// The field `cdc_error`.
    pub open spec fn spec_cdc_error(self) -> CdcErrorCode {
        CdcErrorCode::spec_from_bits(get_bits(self.0, 0, 3))
    }

    /// The value with its field `cdc_error` replaced by `value`.
    pub open spec fn with_cdc_error_spec(self, value: CdcErrorCode) -> HecState {
        HecState(put_bits(self.0, 0, 3, value.spec_into_bits()))
    }

    /// The field `enc_functionality`.
    pub open spec fn spec_enc_functionality(self) -> FunctionalityState {
        FunctionalityState::spec_from_bits(get_bits(self.0, 2, 3))
    }

    /// The value with its field `enc_functionality` replaced by `value`.
    pub open spec fn with_enc_functionality_spec(self, value: FunctionalityState) -> HecState {
        HecState(put_bits(self.0, 2, 3, value.spec_into_bits()))
    }

    /// The field `host_functionality`.
    pub open spec fn spec_host_functionality(self) -> FunctionalityState {
        FunctionalityState::spec_from_bits(get_bits(self.0, 4, 3))
    }

    /// The value with its field `host_functionality` replaced by `value`.
    pub open spec fn with_host_functionality_spec(self, value: FunctionalityState) -> HecState {
        HecState(put_bits(self.0, 4, 3, value.spec_into_bits()))
    }

    /// The field `hec_functionality`.
    pub open spec fn spec_hec_functionality(self) -> HecFunctionalityState {
        HecFunctionalityState::spec_from_bits(get_bits(self.0, 6, 3))
    }

    /// The value with its field `hec_functionality` replaced by `value`.
    pub open spec fn with_hec_functionality_spec(self, value: HecFunctionalityState) -> HecState {
        HecState(put_bits(self.0, 6, 3, value.spec_into_bits()))
    }

    /// All fields zero.
    pub fn new() -> (r: HecState)
        ensures
            r.0 == 0,
    {
        HecState(0)
    }

    /// The value packed in `bits`.
    pub fn from_bits(bits: u8) -> (r: HecState)
        ensures
            r.0 == bits,
    {
        HecState(bits)
    }

    /// The packed byte.
    pub fn into_bits(self) -> (r: u8)
        ensures
            r == self.0,
    {
        self.0
    }

    /// The field `cdc_error`.
    pub fn cdc_error(&self) -> (r: CdcErrorCode)
        ensures
            r == self.spec_cdc_error(),
    {
        CdcErrorCode::from_bits((self.0 >> 0) & 3)
    }

    /// The value with its field `cdc_error` replaced by `value`, which must fit in
    /// the field; the other fields are kept.
    pub fn with_cdc_error(self, value: CdcErrorCode) -> (r: HecState)
        requires
            value.spec_into_bits() <= 3,
        ensures
            r == self.with_cdc_error_spec(value),
            value.spec_canonical() ==> r.spec_cdc_error() == value,
            r.spec_enc_functionality() == self.spec_enc_functionality(),
            r.spec_host_functionality() == self.spec_host_functionality(),
            r.spec_hec_functionality() == self.spec_hec_functionality(),
    {
        proof {
            lemma_bits();
            if value.spec_canonical() {
                value.lemma_bits();
            }
        }
        let v = value.into_bits();
        let r = HecState((self.0 & !(3u8 << 0u8)) | ((v & 3) << 0u8));
        proof {
            assert(r.0 == put_bits(self.0, 0, 3, v));
            assert(get_bits(put_bits(self.0, 0, 3, v), 0, 3) == v);
            assert(get_bits(put_bits(self.0, 0, 3, v), 2, 3) == get_bits(self.0, 2, 3));
            assert(get_bits(put_bits(self.0, 0, 3, v), 4, 3) == get_bits(self.0, 4, 3));
            assert(get_bits(put_bits(self.0, 0, 3, v), 6, 3) == get_bits(self.0, 6, 3));
        }
        r
    }

    /// Replaces the field `cdc_error` by `value`, which must fit in the field.
    pub fn set_cdc_error(&mut self, value: CdcErrorCode)
        requires
            value.spec_into_bits() <= 3,
        ensures
            *final(self) == old(self).with_cdc_error_spec(value),
    {
        *self = self.with_cdc_error(value);
    }

    /// The field `enc_functionality`.
    pub fn enc_functionality(&self) -> (r: FunctionalityState)
        ensures
            r == self.spec_enc_functionality(),
    {
        FunctionalityState::from_bits((self.0 >> 2) & 3)
    }

    /// The value with its field `enc_functionality` replaced by `value`, which must fit in
    /// the field; the other fields are kept.
    pub fn with_enc_functionality(self, value: FunctionalityState) -> (r: HecState)
        requires
            value.spec_into_bits() <= 3,
        ensures
            r == self.with_enc_functionality_spec(value),
            value.spec_canonical() ==> r.spec_enc_functionality() == value,
            r.spec_cdc_error() == self.spec_cdc_error(),
            r.spec_host_functionality() == self.spec_host_functionality(),
            r.spec_hec_functionality() == self.spec_hec_functionality(),
    {
        proof {
            lemma_bits();
            if value.spec_canonical() {
                value.lemma_bits();
            }
        }
        let v = value.into_bits();
        let r = HecState((self.0 & !(3u8 << 2u8)) | ((v & 3) << 2u8));
        proof {
            assert(r.0 == put_bits(self.0, 2, 3, v));
            assert(get_bits(put_bits(self.0, 2, 3, v), 2, 3) == v);
            assert(get_bits(put_bits(self.0, 2, 3, v), 0, 3) == get_bits(self.0, 0, 3));
            assert(get_bits(put_bits(self.0, 2, 3, v), 4, 3) == get_bits(self.0, 4, 3));
            assert(get_bits(put_bits(self.0, 2, 3, v), 6, 3) == get_bits(self.0, 6, 3));
        }
        r
    }

    /// Replaces the field `enc_functionality` by `value`, which must fit in the field.
    pub fn set_enc_functionality(&mut self, value: FunctionalityState)
        requires
            value.spec_into_bits() <= 3,
        ensures
            *final(self) == old(self).with_enc_functionality_spec(value),
    {
        *self = self.with_enc_functionality(value);
    }

    /// The field `host_functionality`.
    pub fn host_functionality(&self) -> (r: FunctionalityState)
        ensures
            r == self.spec_host_functionality(),
    {
        FunctionalityState::from_bits((self.0 >> 4) & 3)
    }

    /// The value with its field `host_functionality` replaced by `value`, which must fit in
    /// the field; the other fields are kept.
    pub fn with_host_functionality(self, value: FunctionalityState) -> (r: HecState)
        requires
            value.spec_into_bits() <= 3,
        ensures
            r == self.with_host_functionality_spec(value),
            value.spec_canonical() ==> r.spec_host_functionality() == value,
            r.spec_cdc_error() == self.spec_cdc_error(),
            r.spec_enc_functionality() == self.spec_enc_functionality(),
            r.spec_hec_functionality() == self.spec_hec_functionality(),
    {
        proof {
            lemma_bits();
            if value.spec_canonical() {
                value.lemma_bits();
            }
        }
        let v = value.into_bits();
        let r = HecState((self.0 & !(3u8 << 4u8)) | ((v & 3) << 4u8));
        proof {
            assert(r.0 == put_bits(self.0, 4, 3, v));
            assert(get_bits(put_bits(self.0, 4, 3, v), 4, 3) == v);
            assert(get_bits(put_bits(self.0, 4, 3, v), 0, 3) == get_bits(self.0, 0, 3));
            assert(get_bits(put_bits(self.0, 4, 3, v), 2, 3) == get_bits(self.0, 2, 3));
            assert(get_bits(put_bits(self.0, 4, 3, v), 6, 3) == get_bits(self.0, 6, 3));
        }
        r
    }

    /// Replaces the field `host_functionality` by `value`, which must fit in the field.
    pub fn set_host_functionality(&mut self, value: FunctionalityState)
        requires
            value.spec_into_bits() <= 3,
        ensures
            *final(self) == old(self).with_host_functionality_spec(value),
    {
        *self = self.with_host_functionality(value);
    }

    /// The field `hec_functionality`.
    pub fn hec_functionality(&self) -> (r: HecFunctionalityState)
        ensures
            r == self.spec_hec_functionality(),
    {
        HecFunctionalityState::from_bits((self.0 >> 6) & 3)
    }

    /// The value with its field `hec_functionality` replaced by `value`, which must fit in
    /// the field; the other fields are kept.
    pub fn with_hec_functionality(self, value: HecFunctionalityState) -> (r: HecState)
        requires
            value.spec_into_bits() <= 3,
        ensures
            r == self.with_hec_functionality_spec(value),
            value.spec_canonical() ==> r.spec_hec_functionality() == value,
            r.spec_cdc_error() == self.spec_cdc_error(),
            r.spec_enc_functionality() == self.spec_enc_functionality(),
            r.spec_host_functionality() == self.spec_host_functionality(),
    {
        proof {
            lemma_bits();
            if value.spec_canonical() {
                value.lemma_bits();
            }
        }
        let v = value.into_bits();
        let r = HecState((self.0 & !(3u8 << 6u8)) | ((v & 3) << 6u8));
        proof {
            assert(r.0 == put_bits(self.0, 6, 3, v));
            assert(get_bits(put_bits(self.0, 6, 3, v), 6, 3) == v);
            assert(get_bits(put_bits(self.0, 6, 3, v), 0, 3) == get_bits(self.0, 0, 3));
            assert(get_bits(put_bits(self.0, 6, 3, v), 2, 3) == get_bits(self.0, 2, 3));
            assert(get_bits(put_bits(self.0, 6, 3, v), 4, 3) == get_bits(self.0, 4, 3));
        }
        r
    }

    /// Replaces the field `hec_functionality` by `value`, which must fit in the field.
    pub fn set_hec_functionality(&mut self, value: HecFunctionalityState)
        requires
            value.spec_into_bits() <= 3,
        ensures
            *final(self) == old(self).with_hec_functionality_spec(value),
    {
        *self = self.with_hec_functionality(value);
    }

}

impl Default for HecState {
    fn default() -> (r: HecState)
        ensures
            r.0 == 0,
    {
        HecState(0)
    }
}

impl From<u8> for HecState {
    fn from(bits: u8) -> (r: HecState) {
        HecState(bits)
    }
}

impl vstd::std_specs::convert::FromSpecImpl<u8> for HecState {
    open spec fn obeys_from_spec() -> bool {
        true
    }

    open spec fn from_spec(bits: u8) -> HecState {
        HecState(bits)
    }
}

impl From<HecState> for u8 {
    fn from(v: HecState) -> (r: u8) {
        v.0
    }
}

impl vstd::std_specs::convert::FromSpecImpl<HecState> for u8 {
    open spec fn obeys_from_spec() -> bool {
        true
    }

    open spec fn from_spec(v: HecState) -> u8 {
        v.0
    }
}

impl OperandEncodable for HecState {
    open spec fn spec_bytes(&self) -> Seq<u8> {
        seq![self.0]
    }

    open spec fn spec_parse(bytes: Seq<u8>) -> Result<HecState, ErrorView> {
        if bytes.len() < 1 {
            Err(short_input(1, bytes.len() as usize))
        } else {
            Ok(HecState(bytes[0]))
        }
    }

    open spec fn spec_wf(&self) -> bool {
        true
    }

    open spec fn spec_expected_len() -> RangeView {
        RangeView::AtLeast(1)
    }

    open spec fn spec_self_delimiting() -> bool {
        true
    }

    fn to_bytes(&self, buf: &mut Vec<u8>) {
        buf.push(self.0);
    }

    fn try_from_bytes(bytes: &[u8]) -> (r: Result<HecState, Error>) {
        if bytes.len() < 1 {
            Err(Error::short_input(1, bytes.len()))
        } else {
            Ok(HecState(bytes[0]))
        }
    }

    fn len(&self) -> (r: usize) {
        1
    }

    fn expected_len() -> (r: Range) {
        Range::AtLeast(1)
    }

    proof fn lemma_roundtrip(&self, rest: Seq<u8>) {
        assert((self.spec_bytes() + rest)[0] == self.0);
    }

    proof fn lemma_parse_len(bytes: Seq<u8>) {
    }
}

/// A hot plug detect state for an input port: the state in the low four bits, the port in the high four.
#[derive(Clone, Copy, Debug, PartialEq, Eq, Structural, Hash)]
pub struct InputPortHpdState(pub u8);

impl InputPortHpdState {
    /// The field `state`.
    pub open spec fn spec_state(self) -> HpdState {
        HpdState::spec_from_bits(get_bits(self.0, 0, 15))
    }

    /// The value with its field `state` replaced by `value`.
    pub open spec fn with_state_spec(self, value: HpdState) -> InputPortHpdState {
        InputPortHpdState(put_bits(self.0, 0, 15, value.spec_into_bits()))
    }

    /// The field `input_port`.
    pub open spec fn spec_input_port(self) -> usize {
        get_bits(self.0, 4, 15) as usize
    }

    /// The value with its field `input_port` replaced by `value`.
    pub open spec fn with_input_port_spec(self, value: usize) -> InputPortHpdState {
        InputPortHpdState(put_bits(self.0, 4, 15, value as u8))
    }

    /// All fields zero.
    pub fn new() -> (r: InputPortHpdState)
        ensures
            r.0 == 0,
    {
        InputPortHpdState(0)
    }

    /// The value packed in `bits`.
    pub fn from_bits(bits: u8) -> (r: InputPortHpdState)
        ensures
            r.0 == bits,
    {
        InputPortHpdState(bits)
    }

    /// The packed byte.
    pub fn into_bits(self) -> (r: u8)
        ensures
            r == self.0,
    {
        self.0
    }

    /// The field `state`.
    pub fn state(&self) -> (r: HpdState)
        ensures
            r == self.spec_state(),
    {
        HpdState::from_bits((self.0 >> 0) & 15)
    }

    /// The value with its field `state` replaced by `value`, which must fit in
    /// the field; the other fields are kept.
    pub fn with_state(self, value: HpdState) -> (r: InputPortHpdState)
        requires
            value.spec_into_bits() <= 15,
        ensures
            r == self.with_state_spec(value),
            value.spec_canonical() ==> r.spec_state() == value,
            r.spec_input_port() == self.spec_input_port(),
    {
        proof {
            lemma_bits();
            if value.spec_canonical() {
                value.lemma_bits();
            }
        }
        let v = value.into_bits();
        let r = InputPortHpdState((self.0 & !(15u8 << 0u8)) | ((v & 15) << 0u8));
        proof {
            assert(r.0 == put_bits(self.0, 0, 15, v));
            assert(get_bits(put_bits(self.0, 0, 15, v), 0, 15) == v);
            assert(get_bits(put_bits(self.0, 0, 15, v), 4, 15) == get_bits(self.0, 4, 15));
        }
        r
    }

    /// Replaces the field `state` by `value`, which must fit in the field.
    pub fn set_state(&mut self, value: HpdState)
        requires
            value.spec_into_bits() <= 15,
        ensures
            *final(self) == old(self).with_state_spec(value),
    {
        *self = self.with_state(value);
    }

    /// The field `input_port`.
    pub fn input_port(&self) -> (r: usize)
        ensures
            r == self.spec_input_port(),
    {
        ((self.0 >> 4) & 15) as usize
    }

    /// The value with its field `input_port` replaced by `value`, which must fit in
    /// the field; the other fields are kept.
    pub fn with_input_port(self, value: usize) -> (r: InputPortHpdState)
        requires
            value <= 15,
        ensures
            r == self.with_input_port_spec(value),
            r.spec_input_port() == value,
            r.spec_state() == self.spec_state(),
    {
        proof {
            lemma_bits();
        }
        let v = value as u8;
        let r = InputPortHpdState((self.0 & !(15u8 << 4u8)) | ((v & 15) << 4u8));
        proof {
            assert(r.0 == put_bits(self.0, 4, 15, v));
            assert(get_bits(put_bits(self.0, 4, 15, v), 4, 15) == v);
            assert(get_bits(put_bits(self.0, 4, 15, v), 0, 15) == get_bits(self.0, 0, 15));
        }
        r
    }

    /// Replaces the field `input_port` by `value`, which must fit in the field.
    pub fn set_input_port(&mut self, value: usize)
        requires
            value <= 15,
        ensures
            *final(self) == old(self).with_input_port_spec(value),
    {
        *self = self.with_input_port(value);
    }

}

impl Default for InputPortHpdState {
    fn default() -> (r: InputPortHpdState)
        ensures
            r.0 == 0,
    {
        InputPortHpdState(0)
    }
}

impl From<u8> for InputPortHpdState {
    fn from(bits: u8) -> (r: InputPortHpdState) {
        InputPortHpdState(bits)
    }
}

impl vstd::std_specs::convert::FromSpecImpl<u8> for InputPortHpdState {
    open spec fn obeys_from_spec() -> bool {
        true
    }

    open spec fn from_spec(bits: u8) -> InputPortHpdState {
        InputPortHpdState(bits)
    }
}

impl From<InputPortHpdState> for u8 {
    fn from(v: InputPortHpdState) -> (r: u8) {
        v.0
    }
}

impl vstd::std_specs::convert::FromSpecImpl<InputPortHpdState> for u8 {
    open spec fn obeys_from_spec() -> bool {
        true
    }

    open spec fn from_spec(v: InputPortHpdState) -> u8 {
        v.0
    }
}

impl OperandEncodable for InputPortHpdState {
    open spec fn spec_bytes(&self) -> Seq<u8> {
        seq![self.0]
    }

    open spec fn spec_parse(bytes: Seq<u8>) -> Result<InputPortHpdState, ErrorView> {
        if bytes.len() < 1 {
            Err(short_input(1, bytes.len() as usize))
        } else {
            Ok(InputPortHpdState(bytes[0]))
        }
    }

    open spec fn spec_wf(&self) -> bool {
        true
    }

    open spec fn spec_expected_len() -> RangeView {
        RangeView::AtLeast(1)
    }

    open spec fn spec_self_delimiting() -> bool {
        true
    }

    fn to_bytes(&self, buf: &mut Vec<u8>) {
        buf.push(self.0);
    }

    fn try_from_bytes(bytes: &[u8]) -> (r: Result<InputPortHpdState, Error>) {
        if bytes.len() < 1 {
            Err(Error::short_input(1, bytes.len()))
        } else {
            Ok(InputPortHpdState(bytes[0]))
        }
    }

    fn len(&self) -> (r: usize) {
        1
    }

    fn expected_len() -> (r: Range) {
        Range::AtLeast(1)
    }

    proof fn lemma_roundtrip(&self, rest: Seq<u8>) {
        assert((self.spec_bytes() + rest)[0] == self.0);
    }

    proof fn lemma_parse_len(bytes: Seq<u8>) {
    }
}

/// A reported hot plug detect state: the error code in the low four bits, the state in the high four.
#[derive(Clone, Copy, Debug, PartialEq, Eq, Structural, Hash)]
pub struct HpdStateErrorCode(pub u8);

impl HpdStateErrorCode {
    /// The field `error_code`.
    pub open spec fn spec_error_code(self) -> HpdErrorCode {
        HpdErrorCode::spec_from_bits(get_bits(self.0, 0, 15))
    }

    /// The value with its field `error_code` replaced by `value`.
    pub open spec fn with_error_code_spec(self, value: HpdErrorCode) -> HpdStateErrorCode {
        HpdStateErrorCode(put_bits(self.0, 0, 15, value.spec_into_bits()))
    }

    /// The field `state`.
    pub open spec fn spec_state(self) -> HpdState {
        HpdState::spec_from_bits(get_bits(self.0, 4, 15))
    }

    /// The value with its field `state` replaced by `value`.
    pub open spec fn with_state_spec(self, value: HpdState) -> HpdStateErrorCode {
        HpdStateErrorCode(put_bits(self.0, 4, 15, value.spec_into_bits()))
    }

    /// All fields zero.
    pub fn new() -> (r: HpdStateErrorCode)
        ensures
            r.0 == 0,
    {
        HpdStateErrorCode(0)
    }

    /// The value packed in `bits`.
    pub fn from_bits(bits: u8) -> (r: HpdStateErrorCode)
        ensures
            r.0 == bits,
    {
        HpdStateErrorCode(bits)
    }

    /// The packed byte.
    pub fn into_bits(self) -> (r: u8)
        ensures
            r == self.0,
    {
        self.0
    }

    /// The field `error_code`.
    pub fn error_code(&self) -> (r: HpdErrorCode)
        ensures
            r == self.spec_error_code(),
    {
        HpdErrorCode::from_bits((self.0 >> 0) & 15)
    }

    /// The value with its field `error_code` replaced by `value`, which must fit in
    /// the field; the other fields are kept.
    pub fn with_error_code(self, value: HpdErrorCode) -> (r: HpdStateErrorCode)
        requires
            value.spec_into_bits() <= 15,
        ensures
            r == self.with_error_code_spec(value),
            value.spec_canonical() ==> r.spec_error_code() == value,
            r.spec_state() == self.spec_state(),
    {
        proof {
            lemma_bits();
            if value.spec_canonical() {
                value.lemma_bits();
            }
        }
        let v = value.into_bits();
        let r = HpdStateErrorCode((self.0 & !(15u8 << 0u8)) | ((v & 15) << 0u8));
        proof {
            assert(r.0 == put_bits(self.0, 0, 15, v));
            assert(get_bits(put_bits(self.0, 0, 15, v), 0, 15) == v);
            assert(get_bits(put_bits(self.0, 0, 15, v), 4, 15) == get_bits(self.0, 4, 15));
        }
        r
    }

    /// Replaces the field `error_code` by `value`, which must fit in the field.
    pub fn set_error_code(&mut self, value: HpdErrorCode)
        requires
            value.spec_into_bits() <= 15,
        ensures
            *final(self) == old(self).with_error_code_spec(value),
    {
        *self = self.with_error_code(value);
    }

    /// The field `state`.
    pub fn state(&self) -> (r: HpdState)
        ensures
            r == self.spec_state(),
    {
        HpdState::from_bits((self.0 >> 4) & 15)
    }

    /// The value with its field `state` replaced by `value`, which must fit in
    /// the field; the other fields are kept.
    pub fn with_state(self, value: HpdState) -> (r: HpdStateErrorCode)
        requires
            value.spec_into_bits() <= 15,
        ensures
            r == self.with_state_spec(value),
            value.spec_canonical() ==> r.spec_state() == value,
            r.spec_error_code() == self.spec_error_code(),
    {
        proof {
            lemma_bits();
            if value.spec_canonical() {
                value.lemma_bits();
            }
        }
        let v = value.into_bits();
        let r = HpdStateErrorCode((self.0 & !(15u8 << 4u8)) | ((v & 15) << 4u8));
        proof {
            assert(r.0 == put_bits(self.0, 4, 15, v));
            assert(get_bits(put_bits(self.0, 4, 15, v), 4, 15) == v);
            assert(get_bits(put_bits(self.0, 4, 15, v), 0, 15) == get_bits(self.0, 0, 15));
        }
        r
    }

    /// Replaces the field `state` by `value`, which must fit in the field.
    pub fn set_state(&mut self, value: HpdState)
        requires
            value.spec_into_bits() <= 15,
        ensures
            *final(self) == old(self).with_state_spec(value),
    {
        *self = self.with_state(value);
    }

}

impl Default for HpdStateErrorCode {
    fn default() -> (r: HpdStateErrorCode)
        ensures
            r.0 == 0,
    {
        HpdStateErrorCode(0)
    }
}

impl From<u8> for HpdStateErrorCode {
    fn from(bits: u8) -> (r: HpdStateErrorCode) {
        HpdStateErrorCode(bits)
    }
}

impl vstd::std_specs::convert::FromSpecImpl<u8> for HpdStateErrorCode {
    open spec fn obeys_from_spec() -> bool {
        true
    }

    open spec fn from_spec(bits: u8) -> HpdStateErrorCode {
        HpdStateErrorCode(bits)
    }
}

impl From<HpdStateErrorCode> for u8 {
    fn from(v: HpdStateErrorCode) -> (r: u8) {
        v.0
    }
}

impl vstd::std_specs::convert::FromSpecImpl<HpdStateErrorCode> for u8 {
    open spec fn obeys_from_spec() -> bool {
        true
    }

    open spec fn from_spec(v: HpdStateErrorCode) -> u8 {
        v.0
    }
}

impl OperandEncodable for HpdStateErrorCode {
    open spec fn spec_bytes(&self) -> Seq<u8> {
        seq![self.0]
    }

    open spec fn spec_parse(bytes: Seq<u8>) -> Result<HpdStateErrorCode, ErrorView> {
        if bytes.len() < 1 {
            Err(short_input(1, bytes.len() as usize))
        } else {
            Ok(HpdStateErrorCode(bytes[0]))
        }
    }

    open spec fn spec_wf(&self) -> bool {
        true
    }

    open spec fn spec_expected_len() -> RangeView {
        RangeView::AtLeast(1)
    }

    open spec fn spec_self_delimiting() -> bool {
        true
    }

    fn to_bytes(&self, buf: &mut Vec<u8>) {
        buf.push(self.0);
    }

    fn try_from_bytes(bytes: &[u8]) -> (r: Result<HpdStateErrorCode, Error>) {
        if bytes.len() < 1 {
            Err(Error::short_input(1, bytes.len()))
        } else {
            Ok(HpdStateErrorCode(bytes[0]))
        }
    }

    fn len(&self) -> (r: usize) {
        1
    }

    fn expected_len() -> (r: Range) {
        Range::AtLeast(1)
    }

    proof fn lemma_roundtrip(&self, rest: Seq<u8>) {
        assert((self.spec_bytes() + rest)[0] == self.0);
    }

    proof fn lemma_parse_len(bytes: Seq<u8>) {
    }
}

/// The bit `i` of a 16-bit word, set when `b` is.
pub open spec fn bit_of(b: bool, i: u16) -> u16 {
    if b {
        (1u16 << i) as u16
    } else {
        0u16
    }
}

/// The bit `i` of a 16-bit word, set when `b` is.
fn bit(b: bool, i: u16) -> (r: u16)
    requires
        i < 16,
    ensures
        r == bit_of(b, i),
{
    if b {
        1u16 << i
    } else {
        0
    }
}

/// Whether the bit `i` of `w` is set.
pub open spec fn bit_set(w: u16, i: u16) -> bool {
    (w >> i) & 1u16 == 1u16
}

/// The word of the first `n` flags of `input`: flag `i` in bit `i`.
pub open spec fn input_word(input: Seq<bool>, n: nat) -> u16
    decreases n,
{
    if n == 0 {
        0
    } else {
        (input_word(input, (n - 1) as nat) | bit_of(input[n - 1], (n - 1) as u16)) as u16
    }
}

/// Setting one bit above the others keeps them, and the bit reads back.
proof fn lemma_bit_step()
    by (bit_vector)
    ensures
        forall|x: u16, b: bool, k: u16, i: u16|
            k < 15 && x < (1u16 << k) && i <= k ==> (#[trigger] bit_set((x | bit_of(b, k)) as u16, i) == (if i
                == k {
                b
            } else {
                bit_set(x, i)
            })),
        forall|x: u16, b: bool, k: u16| k < 15 && x < (1u16 << k) ==> #[trigger] (x | bit_of(b, k)) < (1u16 << (
        (k + 1) as u16)),
        forall|x: u16, b: bool| x < (1u16 << 14u16) ==> ((#[trigger] (x | bit_of(b, 14u16)) & 0x4000u16) != 0) == b,
{
}

/// The bits of the word of the first `n` flags are those flags.
proof fn lemma_input_word(input: Seq<bool>, n: nat)
    requires
        n <= 14,
        n <= input.len(),
    ensures
        input_word(input, n) < (1u16 << (n as u16)),
        forall|i: int| 0 <= i < n ==> #[trigger] bit_set(input_word(input, n), i as u16) == input[i],
    decreases n,
{
    lemma_bit_step();
    if n == 0 {
        assert(0u16 < (1u16 << 0u16)) by (bit_vector);
    } else {
        let k = (n - 1) as nat;
        lemma_input_word(input, k);
        let x = input_word(input, k);
        assert(input_word(input, n) == (x | bit_of(input[k as int], k as u16)) as u16);
        assert forall|i: int| 0 <= i < n implies #[trigger] bit_set(input_word(input, n), i as u16) == input[i] by {
            assert(bit_set((x | bit_of(input[k as int], k as u16)) as u16, i as u16) == (if i == k {
                input[k as int]
            } else {
                bit_set(x, i as u16)
            }));
        }
    }
}

/// The HDMI Ethernet channel state of the fourteen inputs and the output of
/// a device, one bit each in a 16-bit word.
#[derive(Clone, Copy, Debug, PartialEq, Eq, Hash)]
pub struct HecField {
    pub input: [bool; 14],
    pub output: bool,
}

impl HecField {
    /// The word of the flags: input `i` in bit `i`, the output in bit 14.
    pub open spec fn word(self) -> u16 {
        (input_word(self.input@, 14) | bit_of(self.output, 14)) as u16
    }

    /// The flags of a word.
    pub open spec fn of_word(w: u16) -> HecField {
        HecField { input: array_of(Seq::new(14, |i: int| bit_set(w, i as u16)), false), output: w & 0x4000u16 != 0 }
    }
}

/// The bits below the output bit of a word read through it.
proof fn lemma_output_bit()
    by (bit_vector)
    ensures
        forall|x: u16, b: bool, i: u16| x < (1u16 << 14u16) && i < 14 ==> #[trigger] bit_set((x | bit_of(b, 14u16)) as u16, i) == bit_set(x, i),
{
}

impl OperandEncodable for HecField {
    open spec fn spec_bytes(&self) -> Seq<u8> {
        seq![hi_byte(self.word()), lo_byte(self.word())]
    }

    open spec fn spec_parse(bytes: Seq<u8>) -> Result<HecField, ErrorView> {
        match u16::spec_parse(bytes) {
            Ok(w) => Ok(HecField::of_word(w)),
            Err(e) => Err(e),
        }
    }

    open spec fn spec_wf(&self) -> bool {
        true
    }

    open spec fn spec_expected_len() -> RangeView {
        RangeView::AtLeast(2)
    }

    open spec fn spec_self_delimiting() -> bool {
        true
    }

    fn to_bytes(&self, buf: &mut Vec<u8>) {
        let mut w: u16 = 0;
        let mut idx: usize = 0;
        while idx < 14
            invariant
                idx <= 14,
                self.input@.len() == 14,
                w == input_word(self.input@, idx as nat),
            decreases 14 - idx,
        {
            w = w | bit(self.input[idx], idx as u16);
            idx = idx + 1;
        }
        let w = w | bit(self.output, 14);
        OperandEncodable::to_bytes(&w, buf);
    }

    fn try_from_bytes(bytes: &[u8]) -> (r: Result<HecField, Error>) {
        let w = match <u16 as OperandEncodable>::try_from_bytes(bytes) {
            Ok(w) => w,
            Err(e) => return Err(e),
        };
        let mut input = [false; 14];
        let mut idx: usize = 0;
        while idx < 14
            invariant
                idx <= 14,
                input@.len() == 14,
                forall|j: int| 0 <= j < idx ==> input@[j] == bit_set(w, j as u16),
            decreases 14 - idx,
        {
            input[idx] = (w >> (idx as u16)) & 1 == 1;
            idx = idx + 1;
        }
        proof {
            let s = Seq::new(14, |i: int| bit_set(w, i as u16));
            assert(input@ =~= s);
            lemma_array_of::<bool, 14>(s, false, input);
        }
        Ok(HecField { input, output: (w & 0x4000) != 0 })
    }

    fn len(&self) -> (r: usize) {
        2
    }

    fn expected_len() -> (r: Range) {
        Range::AtLeast(2)
    }

    proof fn lemma_roundtrip(&self, rest: Seq<u8>) {
        let w = self.word();
        let all = self.spec_bytes() + rest;
        assert(all[0] == hi_byte(w) && all[1] == lo_byte(w));
        lemma_word(w, 0, 0);
        lemma_input_word(self.input@, 14);
        lemma_bit_step();
        lemma_output_bit();
        let x = input_word(self.input@, 14);
        assert((1u16 << (14 as u16)) == (1u16 << 14u16));
        let s = Seq::new(14, |i: int| bit_set(w, i as u16));
        assert forall|i: int| 0 <= i < 14 implies s[i] == self.input@[i] by {
            assert(bit_set((x | bit_of(self.output, 14u16)) as u16, i as u16) == bit_set(x, i as u16));
        }
        assert(s =~= self.input@);
        lemma_array_of::<bool, 14>(s, false, self.input);
    }

    proof fn lemma_parse_len(bytes: Seq<u8>) {
    }
}

/// The opcode of a CDC message.
#[derive(Clone, Copy, Debug, PartialEq, Eq, Structural, Hash)]
pub enum Opcode {
    HecInquireState,
    HecReportState,
    HecSetStateAdjacent,
    HecSetState,
    HecRequestDeactivation,
    HecNotifyAlive,
    HecDiscover,
    HpdSetState,
    HpdReportState,
}

impl Opcode {
    /// The byte that encodes the value.
    pub open spec fn code(self) -> u8 {
        match self {
            Opcode::HecInquireState => 0x00u8,
            Opcode::HecReportState => 0x01u8,
            Opcode::HecSetStateAdjacent => 0x02u8,
            Opcode::HecSetState => 0x03u8,
            Opcode::HecRequestDeactivation => 0x04u8,
            Opcode::HecNotifyAlive => 0x05u8,
            Opcode::HecDiscover => 0x06u8,
            Opcode::HpdSetState => 0x10u8,
            Opcode::HpdReportState => 0x11u8,
        }
    }

    /// Each value and the byte that encodes it.
    pub proof fn lemma_code_table()
        ensures
            Opcode::HecInquireState.code() == 0x00u8,
            Opcode::HecReportState.code() == 0x01u8,
            Opcode::HecSetStateAdjacent.code() == 0x02u8,
            Opcode::HecSetState.code() == 0x03u8,
            Opcode::HecRequestDeactivation.code() == 0x04u8,
            Opcode::HecNotifyAlive.code() == 0x05u8,
            Opcode::HecDiscover.code() == 0x06u8,
            Opcode::HpdSetState.code() == 0x10u8,
            Opcode::HpdReportState.code() == 0x11u8,
    {
    }

    /// The value that the byte `b` encodes, if any.
    pub open spec fn from_code(b: u8) -> Option<Opcode> {
        match b {
            0x00u8 => Some(Opcode::HecInquireState),
            0x01u8 => Some(Opcode::HecReportState),
            0x02u8 => Some(Opcode::HecSetStateAdjacent),
            0x03u8 => Some(Opcode::HecSetState),
            0x04u8 => Some(Opcode::HecRequestDeactivation),
            0x05u8 => Some(Opcode::HecNotifyAlive),
            0x06u8 => Some(Opcode::HecDiscover),
            0x10u8 => Some(Opcode::HpdSetState),
            0x11u8 => Some(Opcode::HpdReportState),
            _ => None,
        }
    }

    /// The byte that encodes the value.
    pub fn to_u8(self) -> (r: u8)
        ensures
            r == self.code(),
    {
        match self {
            Opcode::HecInquireState => 0x00,
            Opcode::HecReportState => 0x01,
            Opcode::HecSetStateAdjacent => 0x02,
            Opcode::HecSetState => 0x03,
            Opcode::HecRequestDeactivation => 0x04,
            Opcode::HecNotifyAlive => 0x05,
            Opcode::HecDiscover => 0x06,
            Opcode::HpdSetState => 0x10,
            Opcode::HpdReportState => 0x11,
        }
    }

    /// The value that the byte `b` encodes; a byte that encodes none is
    /// reported as an invalid value for this type.
    pub fn try_from_u8(b: u8) -> (r: Result<Opcode, Error>)
        ensures
            r matches Ok(v) ==> Self::from_code(b) == Some(v),
            r matches Err(e) ==> Self::from_code(b) is None && e@ == invalid_value("Opcode"@, b as nat),
            r is Ok <==> Self::from_code(b) is Some,
    {
        match b {
            0x00 => Ok(Opcode::HecInquireState),
            0x01 => Ok(Opcode::HecReportState),
            0x02 => Ok(Opcode::HecSetStateAdjacent),
            0x03 => Ok(Opcode::HecSetState),
            0x04 => Ok(Opcode::HecRequestDeactivation),
            0x05 => Ok(Opcode::HecNotifyAlive),
            0x06 => Ok(Opcode::HecDiscover),
            0x10 => Ok(Opcode::HpdSetState),
            0x11 => Ok(Opcode::HpdReportState),
            _ => Err(Error::invalid_value("Opcode", b)),
        }
    }

    /// Decoding the code of a value gives the value back, and a byte
    /// decodes only to a value of which it is the code.
    pub proof fn lemma_code(self, b: u8)
        ensures
            Self::from_code(self.code()) == Some(self),
            Self::from_code(b) matches Some(v) ==> v.code() == b,
    {
    }
}

impl From<Opcode> for u8 {
    fn from(v: Opcode) -> (r: u8) {
        v.to_u8()
    }
}

impl vstd::std_specs::convert::FromSpecImpl<Opcode> for u8 {
    open spec fn obeys_from_spec() -> bool {
        true
    }

    open spec fn from_spec(v: Opcode) -> u8 {
        v.code()
    }
}

impl OperandEncodable for Opcode {
    open spec fn spec_bytes(&self) -> Seq<u8> {
        seq![self.code()]
    }

    open spec fn spec_parse(bytes: Seq<u8>) -> Result<Self, ErrorView> {
        parse_code(bytes, |b: u8| Self::from_code(b), "Opcode"@)
    }

    open spec fn spec_wf(&self) -> bool {
        true
    }

    open spec fn spec_expected_len() -> RangeView {
        RangeView::AtLeast(1)
    }

    open spec fn spec_self_delimiting() -> bool {
        true
    }

    fn to_bytes(&self, buf: &mut Vec<u8>) {
        buf.push(self.to_u8());
    }

    fn try_from_bytes(bytes: &[u8]) -> (r: Result<Self, Error>) {
        if bytes.len() < 1 {
            return Err(Error::short_input(1, bytes.len()));
        }
        Self::try_from_u8(bytes[0])
    }

    fn len(&self) -> (r: usize) {
        1
    }

    fn expected_len() -> (r: Range) {
        Range::AtLeast(1)
    }

    proof fn lemma_roundtrip(&self, rest: Seq<u8>) {
        self.lemma_code(0);
        assert((self.spec_bytes() + rest)[0] == self.code());
    }

    proof fn lemma_parse_len(bytes: Seq<u8>) {
    }
}

/// A CDC message: an opcode and the operands that it takes.
#[derive(Clone, Copy, Debug, PartialEq, Eq, Hash)]
pub enum Message {
    HecInquireState { terminating_address1: PhysicalAddress, terminating_address2: PhysicalAddress },
    HecReportState { physical_address: PhysicalAddress, state: HecState, field: Option<HecField> },
    HecSetStateAdjacent { terminating_address: PhysicalAddress, state: bool },
    HecSetState { terminating_address1: PhysicalAddress, terminating_address2: PhysicalAddress, state: bool, terminating_addresses: BoundedBufferOperand<3, PhysicalAddress> },
    HecRequestDeactivation { terminating_address1: PhysicalAddress, terminating_address2: PhysicalAddress, terminating_address3: PhysicalAddress },
    HecNotifyAlive,
    HecDiscover,
    HpdSetState(InputPortHpdState),
    HpdReportState(HpdStateErrorCode),
}

impl Message {
    /// The opcode of the message.
    pub open spec fn spec_opcode(self) -> Opcode {
        match self {
            Message::HecInquireState { .. } => Opcode::HecInquireState,
            Message::HecReportState { .. } => Opcode::HecReportState,
            Message::HecSetStateAdjacent { .. } => Opcode::HecSetStateAdjacent,
            Message::HecSetState { .. } => Opcode::HecSetState,
            Message::HecRequestDeactivation { .. } => Opcode::HecRequestDeactivation,
            Message::HecNotifyAlive => Opcode::HecNotifyAlive,
            Message::HecDiscover => Opcode::HecDiscover,
            Message::HpdSetState(..) => Opcode::HpdSetState,
            Message::HpdReportState(..) => Opcode::HpdReportState,
        }
    }

    /// The encoding of the operands of the message, one after the other.
    pub open spec fn spec_operand_bytes(self) -> Seq<u8> {
        match self {
            Message::HecInquireState { terminating_address1, terminating_address2 } => terminating_address1.spec_bytes() + terminating_address2.spec_bytes(),
            Message::HecReportState { physical_address, state, field } => physical_address.spec_bytes() + state.spec_bytes() + field.spec_bytes(),
            Message::HecSetStateAdjacent { terminating_address, state } => terminating_address.spec_bytes() + state.spec_bytes(),
            Message::HecSetState { terminating_address1, terminating_address2, state, terminating_addresses } => terminating_address1.spec_bytes() + terminating_address2.spec_bytes() + state.spec_bytes() + terminating_addresses.spec_bytes(),
            Message::HecRequestDeactivation { terminating_address1, terminating_address2, terminating_address3 } => terminating_address1.spec_bytes() + terminating_address2.spec_bytes() + terminating_address3.spec_bytes(),
            Message::HecNotifyAlive => Seq::empty(),
            Message::HecDiscover => Seq::empty(),
            Message::HpdSetState(value) => value.spec_bytes(),
            Message::HpdReportState(value) => value.spec_bytes(),
        }
    }

    /// The encoding of the message: its opcode, then its operands.
    pub open spec fn spec_message_bytes(self) -> Seq<u8> {
        seq![self.spec_opcode().code()] + self.spec_operand_bytes()
    }

    /// Whether every operand of the message is well formed.
    #[verifier::opaque]
    pub open spec fn spec_message_wf(self) -> bool {
        match self {
            Message::HecInquireState { terminating_address1, terminating_address2 } => terminating_address1.spec_wf() && terminating_address2.spec_wf(),
            Message::HecReportState { physical_address, state, field } => physical_address.spec_wf() && state.spec_wf() && field.spec_wf(),
            Message::HecSetStateAdjacent { terminating_address, state } => terminating_address.spec_wf() && state.spec_wf(),
            Message::HecSetState { terminating_address1, terminating_address2, state, terminating_addresses } => terminating_address1.spec_wf() && terminating_address2.spec_wf() && state.spec_wf() && terminating_addresses.spec_wf(),
            Message::HecRequestDeactivation { terminating_address1, terminating_address2, terminating_address3 } => terminating_address1.spec_wf() && terminating_address2.spec_wf() && terminating_address3.spec_wf(),
            Message::HpdSetState(value) => value.spec_wf(),
            Message::HpdReportState(value) => value.spec_wf(),
            _ => true,
        }
    }

    /// Whether decoding the message ignores the bytes that follow it: its
    /// last operand, if any, ignores them.
    #[verifier::opaque]
    pub open spec fn spec_message_self_delimiting(self) -> bool {
        match self {
            Message::HecReportState { .. } => false,
            Message::HecSetState { .. } => false,
            _ => true,
        }
    }

    /// Decodes a message from `bytes`: its opcode, then its operands.
    #[verifier::opaque]
    pub open spec fn spec_message_parse(bytes: Seq<u8>) -> Result<Message, ErrorView> {
        if bytes.len() < 1 {
            Err(short_input(1, 0))
        } else {
            match Opcode::from_code(bytes[0]) {
                None => Err(invalid_value("Opcode"@, bytes[0] as nat)),
                Some(op) => match op {
                    Opcode::HecInquireState => parse_hec_inquire_state(bytes),
                    Opcode::HecReportState => parse_hec_report_state(bytes),
                    Opcode::HecSetStateAdjacent => parse_hec_set_state_adjacent(bytes),
                    Opcode::HecSetState => parse_hec_set_state(bytes),
                    Opcode::HecRequestDeactivation => parse_hec_request_deactivation(bytes),
                    Opcode::HecNotifyAlive => Ok(Message::HecNotifyAlive),
                    Opcode::HecDiscover => Ok(Message::HecDiscover),
                    Opcode::HpdSetState => parse_hpd_set_state(bytes),
                    Opcode::HpdReportState => parse_hpd_report_state(bytes),
                },
            }
        }
    }

    /// The opcode of the message.
    pub fn opcode(&self) -> (r: Opcode)
        ensures
            r == self.spec_opcode(),
    {
        match self {
            Message::HecInquireState { .. } => Opcode::HecInquireState,
            Message::HecReportState { .. } => Opcode::HecReportState,
            Message::HecSetStateAdjacent { .. } => Opcode::HecSetStateAdjacent,
            Message::HecSetState { .. } => Opcode::HecSetState,
            Message::HecRequestDeactivation { .. } => Opcode::HecRequestDeactivation,
            Message::HecNotifyAlive => Opcode::HecNotifyAlive,
            Message::HecDiscover => Opcode::HecDiscover,
            Message::HpdSetState(..) => Opcode::HpdSetState,
            Message::HpdReportState(..) => Opcode::HpdReportState,
        }
    }

    /// Decodes a message from `bytes`.
    pub fn try_from_bytes(bytes: &[u8]) -> (r: Result<Message, Error>)
        ensures
            result_view(r) == Self::spec_message_parse(bytes@),
    {
        proof {
            reveal(Message::spec_message_parse);
        }
        if bytes.len() < 1 {
            return Err(Error::short_input(1, 0));
        }
        let op = match Opcode::try_from_u8(bytes[0]) {
            Ok(op) => op,
            Err(e) => return Err(e),
        };
        match op {
            Opcode::HecInquireState => read_hec_inquire_state(bytes),
            Opcode::HecReportState => read_hec_report_state(bytes),
            Opcode::HecSetStateAdjacent => read_hec_set_state_adjacent(bytes),
            Opcode::HecSetState => read_hec_set_state(bytes),
            Opcode::HecRequestDeactivation => read_hec_request_deactivation(bytes),
            Opcode::HecNotifyAlive => Ok(Message::HecNotifyAlive),
            Opcode::HecDiscover => Ok(Message::HecDiscover),
            Opcode::HpdSetState => read_hpd_set_state(bytes),
            Opcode::HpdReportState => read_hpd_report_state(bytes),
        }
    }

    /// The encoding of the message.
    #[verifier::spinoff_prover]
    pub fn to_bytes(&self) -> (r: Vec<u8>)
        ensures
            r@ == self.spec_message_bytes(),
    {
        let mut out: Vec<u8> = Vec::new();
        out.push(self.opcode().to_u8());
        match self {
            Message::HecInquireState { terminating_address1, terminating_address2 } => write_hec_inquire_state(terminating_address1, terminating_address2, &mut out),
            Message::HecReportState { physical_address, state, field } => write_hec_report_state(physical_address, state, field, &mut out),
            Message::HecSetStateAdjacent { terminating_address, state } => write_hec_set_state_adjacent(terminating_address, state, &mut out),
            Message::HecSetState { terminating_address1, terminating_address2, state, terminating_addresses } => write_hec_set_state(terminating_address1, terminating_address2, state, terminating_addresses, &mut out),
            Message::HecRequestDeactivation { terminating_address1, terminating_address2, terminating_address3 } => write_hec_request_deactivation(terminating_address1, terminating_address2, terminating_address3, &mut out),
            Message::HecNotifyAlive => {},
            Message::HecDiscover => {},
            Message::HpdSetState(value) => write_hpd_set_state(value, &mut out),
            Message::HpdReportState(value) => write_hpd_report_state(value, &mut out),
        }
        out
    }

    /// The length of the encoding of the message.
    pub fn len(&self) -> (r: usize)
        ensures
            r == self.spec_message_bytes().len(),
    {
        self.to_bytes().len()
    }
}

/// Appends the encodings of the operands of `HecInquireState`.
fn write_hec_inquire_state(terminating_address1: &PhysicalAddress, terminating_address2: &PhysicalAddress, out: &mut Vec<u8>)
    ensures
        final(out)@ == old(out)@ + (terminating_address1.spec_bytes() + terminating_address2.spec_bytes()),
{
    OperandEncodable::to_bytes(terminating_address1, out);
    OperandEncodable::to_bytes(terminating_address2, out);
    proof {
        assert(final(out)@ =~= old(out)@ + (terminating_address1.spec_bytes() + terminating_address2.spec_bytes()));
    }
}

/// Decodes the operands of `HecInquireState` from `bytes`, whose first byte is its opcode.
pub open spec fn parse_hec_inquire_state(bytes: Seq<u8>) -> Result<Message, ErrorView> {
    if bytes.len() < 5 {
        Err(short_input(5, bytes.len() as usize))
    } else {
        match parse_at::<PhysicalAddress>(bytes, 1) {
            Err(e) => Err(e),
            Ok(terminating_address1) => {
                let off1: int = (1 + terminating_address1.spec_bytes().len()) as int;
                match parse_at::<PhysicalAddress>(bytes, off1) {
                    Err(e) => Err(e),
                    Ok(terminating_address2) => {
                        Ok(Message::HecInquireState { terminating_address1, terminating_address2 })
                    },
                }
            },
        }
    }
}

/// Decodes the operands of `HecInquireState` from `bytes`, whose first byte is its opcode.
fn read_hec_inquire_state(bytes: &[u8]) -> (r: Result<Message, Error>)
    requires
        bytes@.len() >= 1,
    ensures
        result_view(r) == parse_hec_inquire_state(bytes@),
{
    if bytes.len() < 5 {
        return Err(Error::short_input(5, bytes.len()));
    }
    let off: usize = 1;
    let terminating_address1 = match parse_field::<PhysicalAddress>(bytes, off) {
        Ok(v) => v,
        Err(e) => return Err(e),
    };
    let off = off + OperandEncodable::len(&terminating_address1);
    let terminating_address2 = match parse_field::<PhysicalAddress>(bytes, off) {
        Ok(v) => v,
        Err(e) => return Err(e),
    };
    Ok(Message::HecInquireState { terminating_address1, terminating_address2 })
}

/// The encoding of `HecInquireState`, followed by `rest`, decodes back to it.
proof fn lemma_fields_hec_inquire_state(terminating_address1: PhysicalAddress, terminating_address2: PhysicalAddress, rest: Seq<u8>)
    requires
        terminating_address1.spec_wf(),
        terminating_address2.spec_wf(),
    ensures
        parse_hec_inquire_state(Message::HecInquireState { terminating_address1, terminating_address2 }.spec_message_bytes() + rest) == Ok::<Message, ErrorView>(Message::HecInquireState { terminating_address1, terminating_address2 }),
{
    let m = Message::HecInquireState { terminating_address1, terminating_address2 };
    let all = m.spec_message_bytes() + rest;
    let s2 = rest;
    let s1 = terminating_address2.spec_bytes() + s2;
    let s0 = terminating_address1.spec_bytes() + s1;
    assert(all.subrange(1, all.len() as int) =~= s0);
    let o0: int = 1int;
    lemma_parse_at_suffix(all, o0, terminating_address1, s1);
    let o1: int = (o0 + terminating_address1.spec_bytes().len()) as int;
    assert(all.subrange(o1, all.len() as int) =~= s1);
    lemma_parse_at_suffix(all, o1, terminating_address2, s2);
}

/// Appends the encodings of the operands of `HecReportState`.
fn write_hec_report_state(physical_address: &PhysicalAddress, state: &HecState, field: &Option<HecField>, out: &mut Vec<u8>)
    ensures
        final(out)@ == old(out)@ + (physical_address.spec_bytes() + state.spec_bytes() + field.spec_bytes()),
{
    OperandEncodable::to_bytes(physical_address, out);
    OperandEncodable::to_bytes(state, out);
    OperandEncodable::to_bytes(field, out);
    proof {
        assert(final(out)@ =~= old(out)@ + (physical_address.spec_bytes() + state.spec_bytes() + field.spec_bytes()));
    }
}

/// Decodes the operands of `HecReportState` from `bytes`, whose first byte is its opcode.
pub open spec fn parse_hec_report_state(bytes: Seq<u8>) -> Result<Message, ErrorView> {
    if bytes.len() < 4 {
        Err(short_input(4, bytes.len() as usize))
    } else {
        match parse_at::<PhysicalAddress>(bytes, 1) {
            Err(e) => Err(e),
            Ok(physical_address) => {
                let off1: int = (1 + physical_address.spec_bytes().len()) as int;
                match parse_at::<HecState>(bytes, off1) {
                    Err(e) => Err(e),
                    Ok(state) => {
                        let off2: int = (off1 + state.spec_bytes().len()) as int;
                        match parse_at::<Option<HecField>>(bytes, off2) {
                            Err(e) => Err(e),
                            Ok(field) => {
                                Ok(Message::HecReportState { physical_address, state, field })
                            },
                        }
                    },
                }
            },
        }
    }
}

/// Decodes the operands of `HecReportState` from `bytes`, whose first byte is its opcode.
fn read_hec_report_state(bytes: &[u8]) -> (r: Result<Message, Error>)
    requires
        bytes@.len() >= 1,
    ensures
        result_view(r) == parse_hec_report_state(bytes@),
{
    if bytes.len() < 4 {
        return Err(Error::short_input(4, bytes.len()));
    }
    let off: usize = 1;
    let physical_address = match parse_field::<PhysicalAddress>(bytes, off) {
        Ok(v) => v,
        Err(e) => return Err(e),
    };
    let off = off + OperandEncodable::len(&physical_address);
    let state = match parse_field::<HecState>(bytes, off) {
        Ok(v) => v,
        Err(e) => return Err(e),
    };
    let off = off + OperandEncodable::len(&state);
    let field = match parse_field::<Option<HecField>>(bytes, off) {
        Ok(v) => v,
        Err(e) => return Err(e),
    };
    Ok(Message::HecReportState { physical_address, state, field })
}

/// The encoding of `HecReportState`, followed by `rest`, decodes back to it.
proof fn lemma_fields_hec_report_state(physical_address: PhysicalAddress, state: HecState, field: Option<HecField>, rest: Seq<u8>)
    requires
        physical_address.spec_wf(),
        state.spec_wf(),
        field.spec_wf(),
        rest.len() == 0,
    ensures
        parse_hec_report_state(Message::HecReportState { physical_address, state, field }.spec_message_bytes() + rest) == Ok::<Message, ErrorView>(Message::HecReportState { physical_address, state, field }),
{
    let m = Message::HecReportState { physical_address, state, field };
    let all = m.spec_message_bytes() + rest;
    let s3 = rest;
    let s2 = field.spec_bytes() + s3;
    let s1 = state.spec_bytes() + s2;
    let s0 = physical_address.spec_bytes() + s1;
    assert(all.subrange(1, all.len() as int) =~= s0);
    let o0: int = 1int;
    lemma_parse_at_suffix(all, o0, physical_address, s1);
    let o1: int = (o0 + physical_address.spec_bytes().len()) as int;
    assert(all.subrange(o1, all.len() as int) =~= s1);
    lemma_parse_at_suffix(all, o1, state, s2);
    let o2: int = (o1 + state.spec_bytes().len()) as int;
    assert(all.subrange(o2, all.len() as int) =~= s2);
    lemma_parse_at_suffix(all, o2, field, s3);
}

/// Appends the encodings of the operands of `HecSetStateAdjacent`.
fn write_hec_set_state_adjacent(terminating_address: &PhysicalAddress, state: &bool, out: &mut Vec<u8>)
    ensures
        final(out)@ == old(out)@ + (terminating_address.spec_bytes() + state.spec_bytes()),
{
    OperandEncodable::to_bytes(terminating_address, out);
    OperandEncodable::to_bytes(state, out);
    proof {
        assert(final(out)@ =~= old(out)@ + (terminating_address.spec_bytes() + state.spec_bytes()));
    }
}

/// Decodes the operands of `HecSetStateAdjacent` from `bytes`, whose first byte is its opcode.
pub open spec fn parse_hec_set_state_adjacent(bytes: Seq<u8>) -> Result<Message, ErrorView> {
    if bytes.len() < 4 {
        Err(short_input(4, bytes.len() as usize))
    } else {
        match parse_at::<PhysicalAddress>(bytes, 1) {
            Err(e) => Err(e),
            Ok(terminating_address) => {
                let off1: int = (1 + terminating_address.spec_bytes().len()) as int;
                match parse_at::<bool>(bytes, off1) {
                    Err(e) => Err(e),
                    Ok(state) => {
                        Ok(Message::HecSetStateAdjacent { terminating_address, state })
                    },
                }
            },
        }
    }
}

/// Decodes the operands of `HecSetStateAdjacent` from `bytes`, whose first byte is its opcode.
fn read_hec_set_state_adjacent(bytes: &[u8]) -> (r: Result<Message, Error>)
    requires
        bytes@.len() >= 1,
    ensures
        result_view(r) == parse_hec_set_state_adjacent(bytes@),
{
    if bytes.len() < 4 {
        return Err(Error::short_input(4, bytes.len()));
    }
    let off: usize = 1;
    let terminating_address = match parse_field::<PhysicalAddress>(bytes, off) {
        Ok(v) => v,
        Err(e) => return Err(e),
    };
    let off = off + OperandEncodable::len(&terminating_address);
    let state = match parse_field::<bool>(bytes, off) {
        Ok(v) => v,
        Err(e) => return Err(e),
    };
    Ok(Message::HecSetStateAdjacent { terminating_address, state })
}

/// The encoding of `HecSetStateAdjacent`, followed by `rest`, decodes back to it.
proof fn lemma_fields_hec_set_state_adjacent(terminating_address: PhysicalAddress, state: bool, rest: Seq<u8>)
    requires
        terminating_address.spec_wf(),
        state.spec_wf(),
    ensures
        parse_hec_set_state_adjacent(Message::HecSetStateAdjacent { terminating_address, state }.spec_message_bytes() + rest) == Ok::<Message, ErrorView>(Message::HecSetStateAdjacent { terminating_address, state }),
{
    let m = Message::HecSetStateAdjacent { terminating_address, state };
    let all = m.spec_message_bytes() + rest;
    let s2 = rest;
    let s1 = state.spec_bytes() + s2;
    let s0 = terminating_address.spec_bytes() + s1;
    assert(all.subrange(1, all.len() as int) =~= s0);
    let o0: int = 1int;
    lemma_parse_at_suffix(all, o0, terminating_address, s1);
    let o1: int = (o0 + terminating_address.spec_bytes().len()) as int;
    assert(all.subrange(o1, all.len() as int) =~= s1);
    lemma_parse_at_suffix(all, o1, state, s2);
}

/// Appends the encodings of the operands of `HecSetState`.
fn write_hec_set_state(terminating_address1: &PhysicalAddress, terminating_address2: &PhysicalAddress, state: &bool, terminating_addresses: &BoundedBufferOperand<3, PhysicalAddress>, out: &mut Vec<u8>)
    ensures
        final(out)@ == old(out)@ + (terminating_address1.spec_bytes() + terminating_address2.spec_bytes() + state.spec_bytes() + terminating_addresses.spec_bytes()),
{
    OperandEncodable::to_bytes(terminating_address1, out);
    OperandEncodable::to_bytes(terminating_address2, out);
    OperandEncodable::to_bytes(state, out);
    OperandEncodable::to_bytes(terminating_addresses, out);
    proof {
        assert(final(out)@ =~= old(out)@ + (terminating_address1.spec_bytes() + terminating_address2.spec_bytes() + state.spec_bytes() + terminating_addresses.spec_bytes()));
    }
}

/// Decodes the operands of `HecSetState` from `bytes`, whose first byte is its opcode.
pub open spec fn parse_hec_set_state(bytes: Seq<u8>) -> Result<Message, ErrorView> {
    if bytes.len() < 6 {
        Err(short_input(6, bytes.len() as usize))
    } else {
        match parse_at::<PhysicalAddress>(bytes, 1) {
            Err(e) => Err(e),
            Ok(terminating_address1) => {
                let off1: int = (1 + terminating_address1.spec_bytes().len()) as int;
                match parse_at::<PhysicalAddress>(bytes, off1) {
                    Err(e) => Err(e),
                    Ok(terminating_address2) => {
                        let off2: int = (off1 + terminating_address2.spec_bytes().len()) as int;
                        match parse_at::<bool>(bytes, off2) {
                            Err(e) => Err(e),
                            Ok(state) => {
                                let off3: int = (off2 + state.spec_bytes().len()) as int;
                                match parse_at::<BoundedBufferOperand<3, PhysicalAddress>>(bytes, off3) {
                                    Err(e) => Err(e),
                                    Ok(terminating_addresses) => {
                                        Ok(Message::HecSetState { terminating_address1, terminating_address2, state, terminating_addresses })
                                    },
                                }
                            },
                        }
                    },
                }
            },
        }
    }
}

/// Decodes the operands of `HecSetState` from `bytes`, whose first byte is its opcode.
fn read_hec_set_state(bytes: &[u8]) -> (r: Result<Message, Error>)
    requires
        bytes@.len() >= 1,
    ensures
        result_view(r) == parse_hec_set_state(bytes@),
{
    if bytes.len() < 6 {
        return Err(Error::short_input(6, bytes.len()));
    }
    let off: usize = 1;
    let terminating_address1 = match parse_field::<PhysicalAddress>(bytes, off) {
        Ok(v) => v,
        Err(e) => return Err(e),
    };
    let off = off + OperandEncodable::len(&terminating_address1);
    let terminating_address2 = match parse_field::<PhysicalAddress>(bytes, off) {
        Ok(v) => v,
        Err(e) => return Err(e),
    };
    let off = off + OperandEncodable::len(&terminating_address2);
    let state = match parse_field::<bool>(bytes, off) {
        Ok(v) => v,
        Err(e) => return Err(e),
    };
    let off = off + OperandEncodable::len(&state);
    let terminating_addresses = match parse_field::<BoundedBufferOperand<3, PhysicalAddress>>(bytes, off) {
        Ok(v) => v,
        Err(e) => return Err(e),
    };
    Ok(Message::HecSetState { terminating_address1, terminating_address2, state, terminating_addresses })
}

/// The encoding of `HecSetState`, followed by `rest`, decodes back to it.
#[verifier::rlimit(60)]
proof fn lemma_fields_hec_set_state(terminating_address1: PhysicalAddress, terminating_address2: PhysicalAddress, state: bool, terminating_addresses: BoundedBufferOperand<3, PhysicalAddress>, rest: Seq<u8>)
    requires
        terminating_address1.spec_wf(),
        terminating_address2.spec_wf(),
        state.spec_wf(),
        terminating_addresses.spec_wf(),
        rest.len() == 0,
    ensures
        parse_hec_set_state(Message::HecSetState { terminating_address1, terminating_address2, state, terminating_addresses }.spec_message_bytes() + rest) == Ok::<Message, ErrorView>(Message::HecSetState { terminating_address1, terminating_address2, state, terminating_addresses }),
{
    let m = Message::HecSetState { terminating_address1, terminating_address2, state, terminating_addresses };
    let all = m.spec_message_bytes() + rest;
    let s4 = rest;
    let s3 = terminating_addresses.spec_bytes() + s4;
    let s2 = state.spec_bytes() + s3;
    let s1 = terminating_address2.spec_bytes() + s2;
    let s0 = terminating_address1.spec_bytes() + s1;
    assert(all.subrange(1, all.len() as int) =~= s0);
    let o0: int = 1int;
    lemma_parse_at_suffix(all, o0, terminating_address1, s1);
    let o1: int = (o0 + terminating_address1.spec_bytes().len()) as int;
    assert(all.subrange(o1, all.len() as int) =~= s1);
    lemma_parse_at_suffix(all, o1, terminating_address2, s2);
    let o2: int = (o1 + terminating_address2.spec_bytes().len()) as int;
    assert(all.subrange(o2, all.len() as int) =~= s2);
    lemma_parse_at_suffix(all, o2, state, s3);
    let o3: int = (o2 + state.spec_bytes().len()) as int;
    assert(all.subrange(o3, all.len() as int) =~= s3);
    lemma_parse_at_suffix(all, o3, terminating_addresses, s4);
}

/// Appends the encodings of the operands of `HecRequestDeactivation`.
fn write_hec_request_deactivation(terminating_address1: &PhysicalAddress, terminating_address2: &PhysicalAddress, terminating_address3: &PhysicalAddress, out: &mut Vec<u8>)
    ensures
        final(out)@ == old(out)@ + (terminating_address1.spec_bytes() + terminating_address2.spec_bytes() + terminating_address3.spec_bytes()),
{
    OperandEncodable::to_bytes(terminating_address1, out);
    OperandEncodable::to_bytes(terminating_address2, out);
    OperandEncodable::to_bytes(terminating_address3, out);
    proof {
        assert(final(out)@ =~= old(out)@ + (terminating_address1.spec_bytes() + terminating_address2.spec_bytes() + terminating_address3.spec_bytes()));
    }
}

/// Decodes the operands of `HecRequestDeactivation` from `bytes`, whose first byte is its opcode.
pub open spec fn parse_hec_request_deactivation(bytes: Seq<u8>) -> Result<Message, ErrorView> {
    if bytes.len() < 7 {
        Err(short_input(7, bytes.len() as usize))
    } else {
        match parse_at::<PhysicalAddress>(bytes, 1) {
            Err(e) => Err(e),
            Ok(terminating_address1) => {
                let off1: int = (1 + terminating_address1.spec_bytes().len()) as int;
                match parse_at::<PhysicalAddress>(bytes, off1) {
                    Err(e) => Err(e),
                    Ok(terminating_address2) => {
                        let off2: int = (off1 + terminating_address2.spec_bytes().len()) as int;
                        match parse_at::<PhysicalAddress>(bytes, off2) {
                            Err(e) => Err(e),
                            Ok(terminating_address3) => {
                                Ok(Message::HecRequestDeactivation { terminating_address1, terminating_address2, terminating_address3 })
                            },
                        }
                    },
                }
            },
        }
    }
}

/// Decodes the operands of `HecRequestDeactivation` from `bytes`, whose first byte is its opcode.
fn read_hec_request_deactivation(bytes: &[u8]) -> (r: Result<Message, Error>)
    requires
        bytes@.len() >= 1,
    ensures
        result_view(r) == parse_hec_request_deactivation(bytes@),
{
    if bytes.len() < 7 {
        return Err(Error::short_input(7, bytes.len()));
    }
    let off: usize = 1;
    let terminating_address1 = match parse_field::<PhysicalAddress>(bytes, off) {
        Ok(v) => v,
        Err(e) => return Err(e),
    };
    let off = off + OperandEncodable::len(&terminating_address1);
    let terminating_address2 = match parse_field::<PhysicalAddress>(bytes, off) {
        Ok(v) => v,
        Err(e) => return Err(e),
    };
    let off = off + OperandEncodable::len(&terminating_address2);
    let terminating_address3 = match parse_field::<PhysicalAddress>(bytes, off) {
        Ok(v) => v,
        Err(e) => return Err(e),
    };
    Ok(Message::HecRequestDeactivation { terminating_address1, terminating_address2, terminating_address3 })
}

/// The encoding of `HecRequestDeactivation`, followed by `rest`, decodes back to it.
proof fn lemma_fields_hec_request_deactivation(terminating_address1: PhysicalAddress, terminating_address2: PhysicalAddress, terminating_address3: PhysicalAddress, rest: Seq<u8>)
    requires
        terminating_address1.spec_wf(),
        terminating_address2.spec_wf(),
        terminating_address3.spec_wf(),
    ensures
        parse_hec_request_deactivation(Message::HecRequestDeactivation { terminating_address1, terminating_address2, terminating_address3 }.spec_message_bytes() + rest) == Ok::<Message, ErrorView>(Message::HecRequestDeactivation { terminating_address1, terminating_address2, terminating_address3 }),
{
    let m = Message::HecRequestDeactivation { terminating_address1, terminating_address2, terminating_address3 };
    let all = m.spec_message_bytes() + rest;
    let s3 = rest;
    let s2 = terminating_address3.spec_bytes() + s3;
    let s1 = terminating_address2.spec_bytes() + s2;
    let s0 = terminating_address1.spec_bytes() + s1;
    assert(all.subrange(1, all.len() as int) =~= s0);
    let o0: int = 1int;
    lemma_parse_at_suffix(all, o0, terminating_address1, s1);
    let o1: int = (o0 + terminating_address1.spec_bytes().len()) as int;
    assert(all.subrange(o1, all.len() as int) =~= s1);
    lemma_parse_at_suffix(all, o1, terminating_address2, s2);
    let o2: int = (o1 + terminating_address2.spec_bytes().len()) as int;
    assert(all.subrange(o2, all.len() as int) =~= s2);
    lemma_parse_at_suffix(all, o2, terminating_address3, s3);
}

/// Appends the encodings of the operands of `HpdSetState`.
fn write_hpd_set_state(value: &InputPortHpdState, out: &mut Vec<u8>)
    ensures
        final(out)@ == old(out)@ + (value.spec_bytes()),
{
    OperandEncodable::to_bytes(value, out);
    proof {
        assert(final(out)@ =~= old(out)@ + (value.spec_bytes()));
    }
}

/// Decodes the operands of `HpdSetState` from `bytes`, whose first byte is its opcode.
pub open spec fn parse_hpd_set_state(bytes: Seq<u8>) -> Result<Message, ErrorView> {
    if bytes.len() < 2 {
        Err(short_input(2, bytes.len() as usize))
    } else {
        match parse_at::<InputPortHpdState>(bytes, 1) {
            Err(e) => Err(e),
            Ok(value) => {
                Ok(Message::HpdSetState(value))
            },
        }
    }
}

/// Decodes the operands of `HpdSetState` from `bytes`, whose first byte is its opcode.
fn read_hpd_set_state(bytes: &[u8]) -> (r: Result<Message, Error>)
    requires
        bytes@.len() >= 1,
    ensures
        result_view(r) == parse_hpd_set_state(bytes@),
{
    if bytes.len() < 2 {
        return Err(Error::short_input(2, bytes.len()));
    }
    let off: usize = 1;
    let value = match parse_field::<InputPortHpdState>(bytes, off) {
        Ok(v) => v,
        Err(e) => return Err(e),
    };
    Ok(Message::HpdSetState(value))
}

/// The encoding of `HpdSetState`, followed by `rest`, decodes back to it.
proof fn lemma_fields_hpd_set_state(value: InputPortHpdState, rest: Seq<u8>)
    requires
        value.spec_wf(),
    ensures
        parse_hpd_set_state(Message::HpdSetState(value).spec_message_bytes() + rest) == Ok::<Message, ErrorView>(Message::HpdSetState(value)),
{
    let m = Message::HpdSetState(value);
    let all = m.spec_message_bytes() + rest;
    let s1 = rest;
    let s0 = value.spec_bytes() + s1;
    assert(all.subrange(1, all.len() as int) =~= s0);
    let o0: int = 1int;
    lemma_parse_at_suffix(all, o0, value, s1);
}

/// Appends the encodings of the operands of `HpdReportState`.
fn write_hpd_report_state(value: &HpdStateErrorCode, out: &mut Vec<u8>)
    ensures
        final(out)@ == old(out)@ + (value.spec_bytes()),
{
    OperandEncodable::to_bytes(value, out);
    proof {
        assert(final(out)@ =~= old(out)@ + (value.spec_bytes()));
    }
}

/// Decodes the operands of `HpdReportState` from `bytes`, whose first byte is its opcode.
pub open spec fn parse_hpd_report_state(bytes: Seq<u8>) -> Result<Message, ErrorView> {
    if bytes.len() < 2 {
        Err(short_input(2, bytes.len() as usize))
    } else {
        match parse_at::<HpdStateErrorCode>(bytes, 1) {
            Err(e) => Err(e),
            Ok(value) => {
                Ok(Message::HpdReportState(value))
            },
        }
    }
}

/// Decodes the operands of `HpdReportState` from `bytes`, whose first byte is its opcode.
fn read_hpd_report_state(bytes: &[u8]) -> (r: Result<Message, Error>)
    requires
        bytes@.len() >= 1,
    ensures
        result_view(r) == parse_hpd_report_state(bytes@),
{
    if bytes.len() < 2 {
        return Err(Error::short_input(2, bytes.len()));
    }
    let off: usize = 1;
    let value = match parse_field::<HpdStateErrorCode>(bytes, off) {
        Ok(v) => v,
        Err(e) => return Err(e),
    };
    Ok(Message::HpdReportState(value))
}

/// The encoding of `HpdReportState`, followed by `rest`, decodes back to it.
proof fn lemma_fields_hpd_report_state(value: HpdStateErrorCode, rest: Seq<u8>)
    requires
        value.spec_wf(),
    ensures
        parse_hpd_report_state(Message::HpdReportState(value).spec_message_bytes() + rest) == Ok::<Message, ErrorView>(Message::HpdReportState(value)),
{
    let m = Message::HpdReportState(value);
    let all = m.spec_message_bytes() + rest;
    let s1 = rest;
    let s0 = value.spec_bytes() + s1;
    assert(all.subrange(1, all.len() as int) =~= s0);
    let o0: int = 1int;
    lemma_parse_at_suffix(all, o0, value, s1);
}

/// A message whose first byte is the opcode of `HecInquireState` decodes as one.
proof fn lemma_dispatch_hec_inquire_state(bytes: Seq<u8>)
    requires
        bytes.len() >= 1,
        bytes[0] == Opcode::HecInquireState.code(),
    ensures
        Message::spec_message_parse(bytes) == parse_hec_inquire_state(bytes),
{
    reveal(Message::spec_message_parse);
    Opcode::HecInquireState.lemma_code(0);
}

/// The encoding of a `HecInquireState`, followed by `rest`, decodes back to it.
proof fn lemma_roundtrip_hec_inquire_state(m: Message, rest: Seq<u8>)
    requires
        m is HecInquireState,
        m.spec_message_wf(),
        m.spec_message_self_delimiting() || rest.len() == 0,
    ensures
        Message::spec_message_parse(m.spec_message_bytes() + rest) == Ok::<Message, ErrorView>(m),
{
    reveal(Message::spec_message_wf);
    reveal(Message::spec_message_self_delimiting);
    let all = m.spec_message_bytes() + rest;
    assert(all[0] == Opcode::HecInquireState.code());
    lemma_dispatch_hec_inquire_state(all);
    match m {
        Message::HecInquireState { terminating_address1, terminating_address2 } => lemma_fields_hec_inquire_state(terminating_address1, terminating_address2, rest),
        _ => {},
    }
}

/// A message whose first byte is the opcode of `HecReportState` decodes as one.
proof fn lemma_dispatch_hec_report_state(bytes: Seq<u8>)
    requires
        bytes.len() >= 1,
        bytes[0] == Opcode::HecReportState.code(),
    ensures
        Message::spec_message_parse(bytes) == parse_hec_report_state(bytes),
{
    reveal(Message::spec_message_parse);
    Opcode::HecReportState.lemma_code(0);
}

/// The encoding of a `HecReportState`, followed by `rest`, decodes back to it.
proof fn lemma_roundtrip_hec_report_state(m: Message, rest: Seq<u8>)
    requires
        m is HecReportState,
        m.spec_message_wf(),
        m.spec_message_self_delimiting() || rest.len() == 0,
    ensures
        Message::spec_message_parse(m.spec_message_bytes() + rest) == Ok::<Message, ErrorView>(m),
{
    reveal(Message::spec_message_wf);
    reveal(Message::spec_message_self_delimiting);
    let all = m.spec_message_bytes() + rest;
    assert(all[0] == Opcode::HecReportState.code());
    lemma_dispatch_hec_report_state(all);
    match m {
        Message::HecReportState { physical_address, state, field } => lemma_fields_hec_report_state(physical_address, state, field, rest),
        _ => {},
    }
}

/// A message whose first byte is the opcode of `HecSetStateAdjacent` decodes as one.
proof fn lemma_dispatch_hec_set_state_adjacent(bytes: Seq<u8>)
    requires
        bytes.len() >= 1,
        bytes[0] == Opcode::HecSetStateAdjacent.code(),
    ensures
        Message::spec_message_parse(bytes) == parse_hec_set_state_adjacent(bytes),
{
    reveal(Message::spec_message_parse);
    Opcode::HecSetStateAdjacent.lemma_code(0);
}

/// The encoding of a `HecSetStateAdjacent`, followed by `rest`, decodes back to it.
proof fn lemma_roundtrip_hec_set_state_adjacent(m: Message, rest: Seq<u8>)
    requires
        m is HecSetStateAdjacent,
        m.spec_message_wf(),
        m.spec_message_self_delimiting() || rest.len() == 0,
    ensures
        Message::spec_message_parse(m.spec_message_bytes() + rest) == Ok::<Message, ErrorView>(m),
{
    reveal(Message::spec_message_wf);
    reveal(Message::spec_message_self_delimiting);
    let all = m.spec_message_bytes() + rest;
    assert(all[0] == Opcode::HecSetStateAdjacent.code());
    lemma_dispatch_hec_set_state_adjacent(all);
    match m {
        Message::HecSetStateAdjacent { terminating_address, state } => lemma_fields_hec_set_state_adjacent(terminating_address, state, rest),
        _ => {},
    }
}

/// A message whose first byte is the opcode of `HecSetState` decodes as one.
proof fn lemma_dispatch_hec_set_state(bytes: Seq<u8>)
    requires
        bytes.len() >= 1,
        bytes[0] == Opcode::HecSetState.code(),
    ensures
        Message::spec_message_parse(bytes) == parse_hec_set_state(bytes),
{
    reveal(Message::spec_message_parse);
    Opcode::HecSetState.lemma_code(0);
}

/// The encoding of a `HecSetState`, followed by `rest`, decodes back to it.
proof fn lemma_roundtrip_hec_set_state(m: Message, rest: Seq<u8>)
    requires
        m is HecSetState,
        m.spec_message_wf(),
        m.spec_message_self_delimiting() || rest.len() == 0,
    ensures
        Message::spec_message_parse(m.spec_message_bytes() + rest) == Ok::<Message, ErrorView>(m),
{
    reveal(Message::spec_message_wf);
    reveal(Message::spec_message_self_delimiting);
    let all = m.spec_message_bytes() + rest;
    assert(all[0] == Opcode::HecSetState.code());
    lemma_dispatch_hec_set_state(all);
    match m {
        Message::HecSetState { terminating_address1, terminating_address2, state, terminating_addresses } => lemma_fields_hec_set_state(terminating_address1, terminating_address2, state, terminating_addresses, rest),
        _ => {},
    }
}

/// A message whose first byte is the opcode of `HecRequestDeactivation` decodes as one.
proof fn lemma_dispatch_hec_request_deactivation(bytes: Seq<u8>)
    requires
        bytes.len() >= 1,
        bytes[0] == Opcode::HecRequestDeactivation.code(),
    ensures
        Message::spec_message_parse(bytes) == parse_hec_request_deactivation(bytes),
{
    reveal(Message::spec_message_parse);
    Opcode::HecRequestDeactivation.lemma_code(0);
}

/// The encoding of a `HecRequestDeactivation`, followed by `rest`, decodes back to it.
proof fn lemma_roundtrip_hec_request_deactivation(m: Message, rest: Seq<u8>)
    requires
        m is HecRequestDeactivation,
        m.spec_message_wf(),
        m.spec_message_self_delimiting() || rest.len() == 0,
    ensures
        Message::spec_message_parse(m.spec_message_bytes() + rest) == Ok::<Message, ErrorView>(m),
{
    reveal(Message::spec_message_wf);
    reveal(Message::spec_message_self_delimiting);
    let all = m.spec_message_bytes() + rest;
    assert(all[0] == Opcode::HecRequestDeactivation.code());
    lemma_dispatch_hec_request_deactivation(all);
    match m {
        Message::HecRequestDeactivation { terminating_address1, terminating_address2, terminating_address3 } => lemma_fields_hec_request_deactivation(terminating_address1, terminating_address2, terminating_address3, rest),
        _ => {},
    }
}

/// A message whose first byte is the opcode of `HecNotifyAlive` decodes as one.
proof fn lemma_dispatch_hec_notify_alive(bytes: Seq<u8>)
    requires
        bytes.len() >= 1,
        bytes[0] == Opcode::HecNotifyAlive.code(),
    ensures
        Message::spec_message_parse(bytes) == Ok::<Message, ErrorView>(Message::HecNotifyAlive),
{
    reveal(Message::spec_message_parse);
    Opcode::HecNotifyAlive.lemma_code(0);
}

/// The encoding of a `HecNotifyAlive`, followed by `rest`, decodes back to it.
proof fn lemma_roundtrip_hec_notify_alive(m: Message, rest: Seq<u8>)
    requires
        m is HecNotifyAlive,
        m.spec_message_wf(),
        m.spec_message_self_delimiting() || rest.len() == 0,
    ensures
        Message::spec_message_parse(m.spec_message_bytes() + rest) == Ok::<Message, ErrorView>(m),
{
    reveal(Message::spec_message_wf);
    reveal(Message::spec_message_self_delimiting);
    let all = m.spec_message_bytes() + rest;
    assert(all[0] == Opcode::HecNotifyAlive.code());
    lemma_dispatch_hec_notify_alive(all);
}

/// A message whose first byte is the opcode of `HecDiscover` decodes as one.
proof fn lemma_dispatch_hec_discover(bytes: Seq<u8>)
    requires
        bytes.len() >= 1,
        bytes[0] == Opcode::HecDiscover.code(),
    ensures
        Message::spec_message_parse(bytes) == Ok::<Message, ErrorView>(Message::HecDiscover),
{
    reveal(Message::spec_message_parse);
    Opcode::HecDiscover.lemma_code(0);
}

/// The encoding of a `HecDiscover`, followed by `rest`, decodes back to it.
proof fn lemma_roundtrip_hec_discover(m: Message, rest: Seq<u8>)
    requires
        m is HecDiscover,
        m.spec_message_wf(),
        m.spec_message_self_delimiting() || rest.len() == 0,
    ensures
        Message::spec_message_parse(m.spec_message_bytes() + rest) == Ok::<Message, ErrorView>(m),
{
    reveal(Message::spec_message_wf);
    reveal(Message::spec_message_self_delimiting);
    let all = m.spec_message_bytes() + rest;
    assert(all[0] == Opcode::HecDiscover.code());
    lemma_dispatch_hec_discover(all);
}

/// A message whose first byte is the opcode of `HpdSetState` decodes as one.
proof fn lemma_dispatch_hpd_set_state(bytes: Seq<u8>)
    requires
        bytes.len() >= 1,
        bytes[0] == Opcode::HpdSetState.code(),
    ensures
        Message::spec_message_parse(bytes) == parse_hpd_set_state(bytes),
{
    reveal(Message::spec_message_parse);
    Opcode::HpdSetState.lemma_code(0);
}

/// The encoding of a `HpdSetState`, followed by `rest`, decodes back to it.
proof fn lemma_roundtrip_hpd_set_state(m: Message, rest: Seq<u8>)
    requires
        m is HpdSetState,
        m.spec_message_wf(),
        m.spec_message_self_delimiting() || rest.len() == 0,
    ensures
        Message::spec_message_parse(m.spec_message_bytes() + rest) == Ok::<Message, ErrorView>(m),
{
    reveal(Message::spec_message_wf);
    reveal(Message::spec_message_self_delimiting);
    let all = m.spec_message_bytes() + rest;
    assert(all[0] == Opcode::HpdSetState.code());
    lemma_dispatch_hpd_set_state(all);
    match m {
        Message::HpdSetState(value) => lemma_fields_hpd_set_state(value, rest),
        _ => {},
    }
}

/// A message whose first byte is the opcode of `HpdReportState` decodes as one.
proof fn lemma_dispatch_hpd_report_state(bytes: Seq<u8>)
    requires
        bytes.len() >= 1,
        bytes[0] == Opcode::HpdReportState.code(),
    ensures
        Message::spec_message_parse(bytes) == parse_hpd_report_state(bytes),
{
    reveal(Message::spec_message_parse);
    Opcode::HpdReportState.lemma_code(0);
}

/// The encoding of a `HpdReportState`, followed by `rest`, decodes back to it.
proof fn lemma_roundtrip_hpd_report_state(m: Message, rest: Seq<u8>)
    requires
        m is HpdReportState,
        m.spec_message_wf(),
        m.spec_message_self_delimiting() || rest.len() == 0,
    ensures
        Message::spec_message_parse(m.spec_message_bytes() + rest) == Ok::<Message, ErrorView>(m),
{
    reveal(Message::spec_message_wf);
    reveal(Message::spec_message_self_delimiting);
    let all = m.spec_message_bytes() + rest;
    assert(all[0] == Opcode::HpdReportState.code());
    lemma_dispatch_hpd_report_state(all);
    match m {
        Message::HpdReportState(value) => lemma_fields_hpd_report_state(value, rest),
        _ => {},
    }
}

/// Every well-formed message decodes from its own encoding, and, where
/// decoding ignores what follows a message, from its encoding followed by
/// any bytes.
pub proof fn lemma_message_roundtrip(m: Message, rest: Seq<u8>)
    requires
        m.spec_message_wf(),
        m.spec_message_self_delimiting() || rest.len() == 0,
    ensures
        Message::spec_message_parse(m.spec_message_bytes() + rest) == Ok::<Message, ErrorView>(m),
{
    match m {
        Message::HecInquireState { .. } => lemma_roundtrip_hec_inquire_state(m, rest),
        Message::HecReportState { .. } => lemma_roundtrip_hec_report_state(m, rest),
        Message::HecSetStateAdjacent { .. } => lemma_roundtrip_hec_set_state_adjacent(m, rest),
        Message::HecSetState { .. } => lemma_roundtrip_hec_set_state(m, rest),
        Message::HecRequestDeactivation { .. } => lemma_roundtrip_hec_request_deactivation(m, rest),
        Message::HecNotifyAlive => lemma_roundtrip_hec_notify_alive(m, rest),
        Message::HecDiscover => lemma_roundtrip_hec_discover(m, rest),
        Message::HpdSetState(..) => lemma_roundtrip_hpd_set_state(m, rest),
        Message::HpdReportState(..) => lemma_roundtrip_hpd_report_state(m, rest),
    }
}

/// A decoded `HecInquireState` is encoded in no more bytes than were read.
proof fn lemma_parse_len_hec_inquire_state(bytes: Seq<u8>)
    requires
        bytes.len() >= 1,
    ensures
        parse_hec_inquire_state(bytes) matches Ok(m) ==> m.spec_message_bytes().len() <= bytes.len(),
{
    PhysicalAddress::lemma_parse_len(bytes.subrange(1 as int, bytes.len() as int));
    if let Ok(terminating_address1) = parse_at::<PhysicalAddress>(bytes, 1 as int) {
        let off1: int = (1 + terminating_address1.spec_bytes().len()) as int;
        PhysicalAddress::lemma_parse_len(bytes.subrange(off1 as int, bytes.len() as int));
        if let Ok(terminating_address2) = parse_at::<PhysicalAddress>(bytes, off1 as int) {
            let m = Message::HecInquireState { terminating_address1, terminating_address2 };
            assert(m.spec_message_bytes().len() == 1 + terminating_address1.spec_bytes().len() + terminating_address2.spec_bytes().len());
        }
    }
}

/// A decoded `HecReportState` is encoded in no more bytes than were read.
proof fn lemma_parse_len_hec_report_state(bytes: Seq<u8>)
    requires
        bytes.len() >= 1,
    ensures
        parse_hec_report_state(bytes) matches Ok(m) ==> m.spec_message_bytes().len() <= bytes.len(),
{
    PhysicalAddress::lemma_parse_len(bytes.subrange(1 as int, bytes.len() as int));
    if let Ok(physical_address) = parse_at::<PhysicalAddress>(bytes, 1 as int) {
        let off1: int = (1 + physical_address.spec_bytes().len()) as int;
        HecState::lemma_parse_len(bytes.subrange(off1 as int, bytes.len() as int));
        if let Ok(state) = parse_at::<HecState>(bytes, off1 as int) {
            let off2: int = (off1 + state.spec_bytes().len()) as int;
            <Option<HecField>>::lemma_parse_len(bytes.subrange(off2 as int, bytes.len() as int));
            if let Ok(field) = parse_at::<Option<HecField>>(bytes, off2 as int) {
                let m = Message::HecReportState { physical_address, state, field };
                assert(m.spec_message_bytes().len() == 1 + physical_address.spec_bytes().len() + state.spec_bytes().len() + field.spec_bytes().len());
            }
        }
    }
}

/// A decoded `HecSetStateAdjacent` is encoded in no more bytes than were read.
proof fn lemma_parse_len_hec_set_state_adjacent(bytes: Seq<u8>)
    requires
        bytes.len() >= 1,
    ensures
        parse_hec_set_state_adjacent(bytes) matches Ok(m) ==> m.spec_message_bytes().len() <= bytes.len(),
{
    PhysicalAddress::lemma_parse_len(bytes.subrange(1 as int, bytes.len() as int));
    if let Ok(terminating_address) = parse_at::<PhysicalAddress>(bytes, 1 as int) {
        let off1: int = (1 + terminating_address.spec_bytes().len()) as int;
        bool::lemma_parse_len(bytes.subrange(off1 as int, bytes.len() as int));
        if let Ok(state) = parse_at::<bool>(bytes, off1 as int) {
            let m = Message::HecSetStateAdjacent { terminating_address, state };
            assert(m.spec_message_bytes().len() == 1 + terminating_address.spec_bytes().len() + state.spec_bytes().len());
        }
    }
}

/// A decoded `HecSetState` is encoded in no more bytes than were read.
proof fn lemma_parse_len_hec_set_state(bytes: Seq<u8>)
    requires
        bytes.len() >= 1,
    ensures
        parse_hec_set_state(bytes) matches Ok(m) ==> m.spec_message_bytes().len() <= bytes.len(),
{
    PhysicalAddress::lemma_parse_len(bytes.subrange(1 as int, bytes.len() as int));
    if let Ok(terminating_address1) = parse_at::<PhysicalAddress>(bytes, 1 as int) {
        let off1: int = (1 + terminating_address1.spec_bytes().len()) as int;
        PhysicalAddress::lemma_parse_len(bytes.subrange(off1 as int, bytes.len() as int));
        if let Ok(terminating_address2) = parse_at::<PhysicalAddress>(bytes, off1 as int) {
            let off2: int = (off1 + terminating_address2.spec_bytes().len()) as int;
            bool::lemma_parse_len(bytes.subrange(off2 as int, bytes.len() as int));
            if let Ok(state) = parse_at::<bool>(bytes, off2 as int) {
                let off3: int = (off2 + state.spec_bytes().len()) as int;
                <BoundedBufferOperand<3, PhysicalAddress>>::lemma_parse_len(bytes.subrange(off3 as int, bytes.len() as int));
                if let Ok(terminating_addresses) = parse_at::<BoundedBufferOperand<3, PhysicalAddress>>(bytes, off3 as int) {
                    let m = Message::HecSetState { terminating_address1, terminating_address2, state, terminating_addresses };
                    assert(m.spec_message_bytes().len() == 1 + terminating_address1.spec_bytes().len() + terminating_address2.spec_bytes().len() + state.spec_bytes().len() + terminating_addresses.spec_bytes().len());
                }
            }
        }
    }
}

/// A decoded `HecRequestDeactivation` is encoded in no more bytes than were read.
proof fn lemma_parse_len_hec_request_deactivation(bytes: Seq<u8>)
    requires
        bytes.len() >= 1,
    ensures
        parse_hec_request_deactivation(bytes) matches Ok(m) ==> m.spec_message_bytes().len() <= bytes.len(),
{
    PhysicalAddress::lemma_parse_len(bytes.subrange(1 as int, bytes.len() as int));
    if let Ok(terminating_address1) = parse_at::<PhysicalAddress>(bytes, 1 as int) {
        let off1: int = (1 + terminating_address1.spec_bytes().len()) as int;
        PhysicalAddress::lemma_parse_len(bytes.subrange(off1 as int, bytes.len() as int));
        if let Ok(terminating_address2) = parse_at::<PhysicalAddress>(bytes, off1 as int) {
            let off2: int = (off1 + terminating_address2.spec_bytes().len()) as int;
            PhysicalAddress::lemma_parse_len(bytes.subrange(off2 as int, bytes.len() as int));
            if let Ok(terminating_address3) = parse_at::<PhysicalAddress>(bytes, off2 as int) {
                let m = Message::HecRequestDeactivation { terminating_address1, terminating_address2, terminating_address3 };
                assert(m.spec_message_bytes().len() == 1 + terminating_address1.spec_bytes().len() + terminating_address2.spec_bytes().len() + terminating_address3.spec_bytes().len());
            }
        }
    }
}

/// A decoded `HpdSetState` is encoded in no more bytes than were read.
proof fn lemma_parse_len_hpd_set_state(bytes: Seq<u8>)
    requires
        bytes.len() >= 1,
    ensures
        parse_hpd_set_state(bytes) matches Ok(m) ==> m.spec_message_bytes().len() <= bytes.len(),
{
    InputPortHpdState::lemma_parse_len(bytes.subrange(1 as int, bytes.len() as int));
    if let Ok(value) = parse_at::<InputPortHpdState>(bytes, 1 as int) {
        let m = Message::HpdSetState(value);
        assert(m.spec_message_bytes().len() == 1 + value.spec_bytes().len());
    }
}

/// A decoded `HpdReportState` is encoded in no more bytes than were read.
proof fn lemma_parse_len_hpd_report_state(bytes: Seq<u8>)
    requires
        bytes.len() >= 1,
    ensures
        parse_hpd_report_state(bytes) matches Ok(m) ==> m.spec_message_bytes().len() <= bytes.len(),
{
    HpdStateErrorCode::lemma_parse_len(bytes.subrange(1 as int, bytes.len() as int));
    if let Ok(value) = parse_at::<HpdStateErrorCode>(bytes, 1 as int) {
        let m = Message::HpdReportState(value);
        assert(m.spec_message_bytes().len() == 1 + value.spec_bytes().len());
    }
}

impl OperandEncodable for Message {
    open spec fn spec_bytes(&self) -> Seq<u8> {
        self.spec_message_bytes()
    }

    open spec fn spec_parse(bytes: Seq<u8>) -> Result<Message, ErrorView> {
        Message::spec_message_parse(bytes)
    }

    open spec fn spec_wf(&self) -> bool {
        self.spec_message_wf()
    }

    open spec fn spec_expected_len() -> RangeView {
        RangeView::AtLeast(1)
    }

    open spec fn spec_self_delimiting() -> bool {
        false
    }

    fn to_bytes(&self, buf: &mut Vec<u8>) {
        let bytes = Message::to_bytes(self);
        let ghost start = buf@;
        let mut i: usize = 0;
        while i < bytes.len()
            invariant
                i <= bytes@.len(),
                buf@ == start + bytes@.take(i as int),
            decreases bytes@.len() - i,
        {
            buf.push(bytes[i]);
            proof {
                assert(bytes@.take(i + 1) =~= bytes@.take(i as int).push(bytes@[i as int]));
            }
            i = i + 1;
        }
        proof {
            assert(bytes@.take(bytes@.len() as int) =~= bytes@);
        }
    }

    fn try_from_bytes(bytes: &[u8]) -> (r: Result<Message, Error>) {
        Message::try_from_bytes(bytes)
    }

    fn len(&self) -> (r: usize) {
        Message::len(self)
    }

    fn expected_len() -> (r: Range) {
        Range::AtLeast(1)
    }

    proof fn lemma_roundtrip(&self, rest: Seq<u8>) {
        lemma_message_roundtrip(*self, rest);
    }

    proof fn lemma_parse_len(bytes: Seq<u8>) {
        reveal(Message::spec_message_parse);
        if bytes.len() >= 1 {
            if let Some(op) = Opcode::from_code(bytes[0]) {
                match op {

                    Opcode::HecInquireState => lemma_parse_len_hec_inquire_state(bytes),
                    Opcode::HecReportState => lemma_parse_len_hec_report_state(bytes),
                    Opcode::HecSetStateAdjacent => lemma_parse_len_hec_set_state_adjacent(bytes),
                    Opcode::HecSetState => lemma_parse_len_hec_set_state(bytes),
                    Opcode::HecRequestDeactivation => lemma_parse_len_hec_request_deactivation(bytes),
                    Opcode::HpdSetState => lemma_parse_len_hpd_set_state(bytes),
                    Opcode::HpdReportState => lemma_parse_len_hpd_report_state(bytes),
                    _ => {},
                }
            }
        }
    }
}

/// An HEC Request Deactivation is sent as its opcode 0x04, then the first,
/// the second and the third terminating address, each high byte first.
pub proof fn lemma_hec_request_deactivation_bytes(
    terminating_address1: PhysicalAddress,
    terminating_address2: PhysicalAddress,
    terminating_address3: PhysicalAddress,
)
    ensures
        (Message::HecRequestDeactivation { terminating_address1, terminating_address2, terminating_address3 }).spec_message_bytes()
            == seq![
            0x04u8,
            (terminating_address1.0 / 256) as u8,
            (terminating_address1.0 % 256) as u8,
            (terminating_address2.0 / 256) as u8,
            (terminating_address2.0 % 256) as u8,
            (terminating_address3.0 / 256) as u8,
            (terminating_address3.0 % 256) as u8,
        ],
{
    lemma_word_arith(terminating_address1.0, 0, 0);
    lemma_word_arith(terminating_address2.0, 0, 0);
    lemma_word_arith(terminating_address3.0, 0, 0);
    let m = Message::HecRequestDeactivation { terminating_address1, terminating_address2, terminating_address3 };
    assert(m.spec_message_bytes() =~= seq![
        0x04u8,
        (terminating_address1.0 / 256) as u8,
        (terminating_address1.0 % 256) as u8,
        (terminating_address2.0 / 256) as u8,
        (terminating_address2.0 % 256) as u8,
        (terminating_address3.0 / 256) as u8,
        (terminating_address3.0 % 256) as u8,
    ]);
}

/// Decoding the opcode 0x04 and six bytes gives an HEC Request
/// Deactivation whose first terminating address is held by the first two
/// bytes, high byte first, its second by the next two and its third by the
/// last two.
pub proof fn lemma_hec_request_deactivation_parse(a: u8, b: u8, c: u8, d: u8, e: u8, f: u8)
    ensures
        Message::spec_message_parse(seq![0x04u8, a, b, c, d, e, f]) == Ok::<Message, ErrorView>(
            (Message::HecRequestDeactivation {
                terminating_address1: PhysicalAddress((a * 256 + b) as u16),
                terminating_address2: PhysicalAddress((c * 256 + d) as u16),
                terminating_address3: PhysicalAddress((e * 256 + f) as u16),
            }),
        ),
{
    lemma_word_arith(0, a, b);
    lemma_word_arith(0, c, d);
    lemma_word_arith(0, e, f);
    lemma_word(0, a, b);
    lemma_word(0, c, d);
    lemma_word(0, e, f);
    let m = Message::HecRequestDeactivation {
        terminating_address1: PhysicalAddress((a * 256 + b) as u16),
        terminating_address2: PhysicalAddress((c * 256 + d) as u16),
        terminating_address3: PhysicalAddress((e * 256 + f) as u16),
    };
    reveal(Message::spec_message_wf);
    assert(m.spec_message_bytes() + Seq::<u8>::empty() =~= seq![0x04u8, a, b, c, d, e, f]);
    lemma_message_roundtrip(m, Seq::<u8>::empty());
}

/// Every CDC message is sent as the byte of its opcode, then its operands
/// in the order in which the message lists them.
pub proof fn lemma_message_layout(m: Message)
    ensures
        (m matches Message::HecInquireState { terminating_address1, terminating_address2 } ==> m.spec_message_bytes() == seq![0x00u8] + terminating_address1.spec_bytes() + terminating_address2.spec_bytes()),
        (m matches Message::HecReportState { physical_address, state, field } ==> m.spec_message_bytes() == seq![0x01u8] + physical_address.spec_bytes() + state.spec_bytes() + field.spec_bytes()),
        (m matches Message::HecSetStateAdjacent { terminating_address, state } ==> m.spec_message_bytes() == seq![0x02u8] + terminating_address.spec_bytes() + state.spec_bytes()),
        (m matches Message::HecSetState { terminating_address1, terminating_address2, state, terminating_addresses } ==> m.spec_message_bytes() == seq![0x03u8] + terminating_address1.spec_bytes() + terminating_address2.spec_bytes() + state.spec_bytes() + terminating_addresses.spec_bytes()),
        (m matches Message::HecRequestDeactivation { terminating_address1, terminating_address2, terminating_address3 } ==> m.spec_message_bytes() == seq![0x04u8] + terminating_address1.spec_bytes() + terminating_address2.spec_bytes() + terminating_address3.spec_bytes()),
        (m is HecNotifyAlive ==> m.spec_message_bytes() == seq![0x05u8]),
        (m is HecDiscover ==> m.spec_message_bytes() == seq![0x06u8]),
        (m matches Message::HpdSetState(value) ==> m.spec_message_bytes() == seq![0x10u8] + value.spec_bytes()),
        (m matches Message::HpdReportState(value) ==> m.spec_message_bytes() == seq![0x11u8] + value.spec_bytes()),
{
}

} // verus!
