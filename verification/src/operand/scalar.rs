//! The one-byte operands with a range or an inner structure, and vendor IDs.

use vstd::prelude::*;

use crate::codec::{array_of, lemma_array_of, OperandEncodable};
use crate::error::{short_input, Error, ErrorView, Range, RangeView};
use vstd::string::{StringExecFns, StringSliceAdditionalSpecFns};

verus! {

broadcast use vstd::array::group_array_axioms;

/// A 24-bit organizationally unique identifier of a device's vendor, most
/// significant byte first.
#[derive(Clone, Copy, Debug, PartialEq, Eq, Hash)]
pub struct VendorId(pub [u8; 3]);

impl VendorId {
    /// The 24-bit value of the identifier.
    pub open spec fn value(self) -> u32 {
        ((self.0[0] as u32) << 16u32) | ((self.0[1] as u32) << 8u32) | (self.0[2] as u32)
    }

    /// The first byte of the identifier is its most significant and the
    /// last its least.
    pub proof fn lemma_value(self)
        ensures
            self.value() == self.0[0] * 65536 + self.0[1] * 256 + self.0[2],
    {
        let a = self.0[0];
        let b = self.0[1];
        let c = self.0[2];
        assert(((a as u32) << 16u32) | ((b as u32) << 8u32) | (c as u32) == a * 65536 + b * 256 + c)
            by (bit_vector);
    }

    /// The 24-bit value of the identifier.
    pub fn to_u32(&self) -> (r: u32)
        ensures
            r == self.value(),
            r < 0x100_0000,
    {
        let a = self.0[0];
        let b = self.0[1];
        let c = self.0[2];
        assert(((a as u32) << 16u32) | ((b as u32) << 8u32) | (c as u32) < 0x100_0000u32)
            by (bit_vector);
        ((a as u32) << 16u32) | ((b as u32) << 8u32) | (c as u32)
    }

    /// The identifier of a 24-bit value.
    pub fn from_u24(v: u32) -> (r: VendorId)
        requires
            v < 0x100_0000,
        ensures
            r.value() == v,
    {
        let a = ((v >> 16u32) & 0xFFu32) as u8;
        let b = ((v >> 8u32) & 0xFFu32) as u8;
        let c = (v & 0xFFu32) as u8;
        let r = VendorId([a, b, c]);
        assert(v < 0x100_0000u32 ==> ((((v >> 16u32) & 0xFFu32) as u8 as u32) << 16u32) | ((((
        v >> 8u32) & 0xFFu32) as u8 as u32) << 8u32) | (((v & 0xFFu32) as u8) as u32) == v)
            by (bit_vector);
        r
    }
}

/// The value of a hexadecimal digit, of either case.
pub open spec fn hex_digit_value(c: u8) -> Option<u8> {
    if 0x30 <= c <= 0x39 {
        Some((c - 0x30) as u8)
    } else if 0x61 <= c <= 0x66 {
        Some((c - 0x61 + 10) as u8)
    } else if 0x41 <= c <= 0x46 {
        Some((c - 0x41 + 10) as u8)
    } else {
        None
    }
}

/// The byte that a two-character group of a vendor ID stands for: two
/// hexadecimal digits, or a plus sign and one digit, as
/// `u8::from_str_radix` reads them in base 16.
pub open spec fn vendor_id_group(a: u8, b: u8) -> Option<u8> {
    if a == 0x2B {
        hex_digit_value(b)
    } else {
        match (hex_digit_value(a), hex_digit_value(b)) {
            (Some(h), Some(l)) => Some((h * 16 + l) as u8),
            _ => None,
        }
    }
}

/// The vendor ID written as three groups of two characters separated by
/// hyphens, such as `00-0c-03`, if the text has that form.
pub open spec fn parse_vendor_id(text: Seq<u8>) -> Option<VendorId> {
    if text.len() != 8 || text[2] != 0x2D || text[5] != 0x2D {
        None
    } else {
        match (
            vendor_id_group(text[0], text[1]),
            vendor_id_group(text[3], text[4]),
            vendor_id_group(text[6], text[7]),
        ) {
            (Some(a), Some(b), Some(c)) => Some(VendorId([a, b, c])),
            _ => None,
        }
    }
}

/// The value of the hexadecimal digit `c`, if it is one.
fn hex_digit(c: u8) -> (r: Option<u8>)
    ensures
        r == hex_digit_value(c),
{
    if 0x30 <= c && c <= 0x39 {
        Some(c - 0x30)
    } else if 0x61 <= c && c <= 0x66 {
        Some(c - 0x61 + 10)
    } else if 0x41 <= c && c <= 0x46 {
        Some(c - 0x41 + 10)
    } else {
        None
    }
}

/// The byte that a two-character group stands for, if it is one.
fn group_value(a: u8, b: u8) -> (r: Option<u8>)
    ensures
        r == vendor_id_group(a, b),
{
    if a == 0x2B {
        return hex_digit(b);
    }
    match (hex_digit(a), hex_digit(b)) {
        (Some(h), Some(l)) => Some(h * 16 + l),
        _ => None,
    }
}

/// The lowercase hexadecimal digit of `d < 16`.
pub open spec fn hex_char(d: u8) -> char {
    if d < 10 {
        (0x30 + d) as char
    } else {
        (0x61 + d - 10) as char
    }
}

/// A byte as two lowercase hexadecimal digits.
pub open spec fn hex_pair(b: u8) -> Seq<char> {
    seq![hex_char(b >> 4u8), hex_char(b & 0xFu8)]
}

/// Appends the lowercase hexadecimal digit of `d < 16`.
pub(crate) fn push_hex_digit(s: &mut String, d: u8)
    requires
        d < 16,
    ensures
        final(s)@ == old(s)@.push(hex_char(d)),
{
    let digit = match d {
        0 => "0",
        1 => "1",
        2 => "2",
        3 => "3",
        4 => "4",
        5 => "5",
        6 => "6",
        7 => "7",
        8 => "8",
        9 => "9",
        10 => "a",
        11 => "b",
        12 => "c",
        13 => "d",
        14 => "e",
        _ => "f",
    };
    proof {
        reveal_strlit("0");
        reveal_strlit("1");
        reveal_strlit("2");
        reveal_strlit("3");
        reveal_strlit("4");
        reveal_strlit("5");
        reveal_strlit("6");
        reveal_strlit("7");
        reveal_strlit("8");
        reveal_strlit("9");
        reveal_strlit("a");
        reveal_strlit("b");
        reveal_strlit("c");
        reveal_strlit("d");
        reveal_strlit("e");
        reveal_strlit("f");
    }
    s.append(digit);
}

impl VendorId {
    /// Reads a vendor ID written as three groups of two hexadecimal digits
    /// separated by hyphens, such as `00-0c-03`; any other text is invalid
    /// data.
    pub fn try_from_str(text: &str) -> (r: Result<VendorId, Error>)
        ensures
            r matches Ok(v) ==> parse_vendor_id(text.spec_bytes()) == Some(v),
            r is Err ==> parse_vendor_id(text.spec_bytes()) is None && r == Err::<VendorId, Error>(
                Error::InvalidData,
            ),
    {
        let t = text.as_bytes();
        if t.len() != 8 || t[2] != 0x2D || t[5] != 0x2D {
            return Err(Error::InvalidData);
        }
        match (group_value(t[0], t[1]), group_value(t[3], t[4]), group_value(t[6], t[7])) {
            (Some(a), Some(b), Some(c)) => Ok(VendorId([a, b, c])),
            _ => Err(Error::InvalidData),
        }
    }

    /// The identifier as three pairs of lowercase hexadecimal digits
    /// separated by hyphens, such as `00-0c-03`.
    pub open spec fn text(self) -> Seq<char> {
        hex_pair(self.0[0]) + seq!['-'] + hex_pair(self.0[1]) + seq!['-'] + hex_pair(self.0[2])
    }

    /// The identifier as three pairs of lowercase hexadecimal digits
    /// separated by hyphens, such as `00-0c-03`.
    pub fn to_string(&self) -> (r: String)
        ensures
            r@ == self.text(),
    {
        let mut s = String::new();
        let mut i: usize = 0;
        while i < 3
            invariant
                i <= 3,
                s@ == (if i == 0 {
                    Seq::<char>::empty()
                } else if i == 1 {
                    hex_pair(self.0[0])
                } else if i == 2 {
                    hex_pair(self.0[0]) + seq!['-'] + hex_pair(self.0[1])
                } else {
                    self.text()
                }),
            decreases 3 - i,
        {
            if i > 0 {
                proof {
                    reveal_strlit("-");
                }
                s.append("-");
            }
            let b = self.0[i];
            assert(b >> 4u8 < 16 && b & 0xFu8 < 16) by (bit_vector);
            push_hex_digit(&mut s, b >> 4);
            push_hex_digit(&mut s, b & 0xF);
            i = i + 1;
        }
        s
    }
}

/// A hexadecimal digit written by [`hex_char`] reads back as its value.
proof fn lemma_hex_digit_roundtrip(d: u8)
    requires
        d < 16,
    ensures
        hex_digit_value(hex_char(d) as u8) == Some(d),
        hex_char(d) as u8 != 0x2B,
{
}

/// A byte written as two hexadecimal digits reads back as the byte.
proof fn lemma_hex_pair_roundtrip(b: u8)
    ensures
        vendor_id_group(hex_pair(b)[0] as u8, hex_pair(b)[1] as u8) == Some(b),
{
    assert(b >> 4u8 < 16 && b & 0xFu8 < 16) by (bit_vector);
    assert((b >> 4u8) * 16 + (b & 0xFu8) == b) by (bit_vector);
    lemma_hex_digit_roundtrip(b >> 4u8);
    lemma_hex_digit_roundtrip(b & 0xFu8);
}

/// The text that [`VendorId::to_string`] writes is read back by
/// [`VendorId::try_from_str`] as the same vendor ID.
pub proof fn lemma_vendor_id_text_roundtrip(v: VendorId)
    ensures
        parse_vendor_id(v.text().map_values(|c: char| c as u8)) == Some(v),
{
    let t = v.text().map_values(|c: char| c as u8);
    lemma_hex_pair_roundtrip(v.0[0]);
    lemma_hex_pair_roundtrip(v.0[1]);
    lemma_hex_pair_roundtrip(v.0[2]);
    assert(t.len() == 8);
    assert(t[0] == hex_pair(v.0[0])[0] as u8 && t[1] == hex_pair(v.0[0])[1] as u8);
    assert(t[2] == 0x2D);
    assert(t[3] == hex_pair(v.0[1])[0] as u8 && t[4] == hex_pair(v.0[1])[1] as u8);
    assert(t[5] == 0x2D);
    assert(t[6] == hex_pair(v.0[2])[0] as u8 && t[7] == hex_pair(v.0[2])[1] as u8);
    assert([v.0[0], v.0[1], v.0[2]]@ =~= v.0@);
    assert([v.0[0], v.0[1], v.0[2]] == v.0);
}

impl core::str::FromStr for VendorId {
    type Err = Error;

    fn from_str(text: &str) -> (r: Result<VendorId, Error>)
        ensures
            r matches Ok(v) ==> parse_vendor_id(text.spec_bytes()) == Some(v),
            r is Err ==> parse_vendor_id(text.spec_bytes()) is None && r == Err::<VendorId, Error>(
                Error::InvalidData,
            ),
    {
        VendorId::try_from_str(text)
    }
}

impl VendorId {
    /// The vendor ID of a kernel vendor ID: none for the value that names no
    /// vendor, the identifier for a 24-bit value, and invalid data otherwise.
    pub fn try_from_sys(vendor_id: crate::sys::VendorId) -> (r: Result<Option<VendorId>, Error>)
        ensures
            vendor_id.0 == crate::sys::CEC_VENDOR_ID_NONE ==> r == Ok::<Option<VendorId>, Error>(None),
            vendor_id.0 < 0x100_0000 ==> (r matches Ok(Some(v)) && v.value() == vendor_id.0),
            vendor_id.0 != crate::sys::CEC_VENDOR_ID_NONE && vendor_id.0 >= 0x100_0000 ==> r matches Err(
                Error::InvalidData,
            ),
    {
        if vendor_id.is_none() {
            Ok(None)
        } else if vendor_id.is_valid() {
            Ok(Some(VendorId::from_u24(vendor_id.0)))
        } else {
            Err(Error::InvalidData)
        }
    }
}

impl From<VendorId> for crate::sys::VendorId {
    fn from(val: VendorId) -> (r: crate::sys::VendorId) {
        crate::sys::VendorId(val.to_u32())
    }
}

impl vstd::std_specs::convert::FromSpecImpl<VendorId> for crate::sys::VendorId {
    open spec fn obeys_from_spec() -> bool {
        true
    }

    open spec fn from_spec(val: VendorId) -> crate::sys::VendorId {
        crate::sys::VendorId(val.value())
    }
}

impl OperandEncodable for VendorId {
    open spec fn spec_bytes(&self) -> Seq<u8> {
        self.0@
    }

    open spec fn spec_parse(bytes: Seq<u8>) -> Result<VendorId, ErrorView> {
        match <[u8; 3]>::spec_parse(bytes) {
            Ok(a) => Ok(VendorId(a)),
            Err(e) => Err(e),
        }
    }

    open spec fn spec_wf(&self) -> bool {
        true
    }

    open spec fn spec_expected_len() -> RangeView {
        RangeView::AtLeast(3)
    }

    open spec fn spec_self_delimiting() -> bool {
        true
    }

    fn to_bytes(&self, buf: &mut Vec<u8>) {
        self.0.to_bytes(buf);
    }

    fn try_from_bytes(bytes: &[u8]) -> (r: Result<VendorId, Error>) {
        match <[u8; 3]>::try_from_bytes(bytes) {
            Ok(a) => Ok(VendorId(a)),
            Err(e) => Err(e),
        }
    }

    fn len(&self) -> (r: usize) {
        3
    }

    fn expected_len() -> (r: Range) {
        Range::AtLeast(3)
    }

    proof fn lemma_roundtrip(&self, rest: Seq<u8>) {
        self.0.lemma_roundtrip(rest);
    }

    proof fn lemma_parse_len(bytes: Seq<u8>) {
        <[u8; 3]>::lemma_parse_len(bytes);
    }
}

/// A delay in units of 2 ms: valid values are 1 to 251.
#[derive(Clone, Copy, Debug, PartialEq, Eq, Structural, Hash)]
pub struct Delay(pub u8);

/// The error for a value `got` outside `min ..= max`.
pub open spec fn out_of_interval(min: usize, max: usize, got: usize, quantity: Seq<char>) -> ErrorView {
    ErrorView::OutOfRange { expected: RangeView::Interval { min, max }, got, quantity }
}

impl Delay {
    /// Whether the delay lies in 1 to 251.
    pub open spec fn spec_is_valid(self) -> bool {
        1 <= self.0 <= 251
    }

    /// Whether the delay lies in 1 to 251.
    pub fn is_valid(&self) -> (r: bool)
        ensures
            r == self.spec_is_valid(),
    {
        Range::Interval { min: 1, max: 251 }.check(self.0 as usize, "value").is_ok()
    }

    /// The delay of `val`, which must lie in 1 to 251.
    pub fn try_from_u8(val: u8) -> (r: Result<Delay, Error>)
        ensures
            r is Ok <==> 1 <= val <= 251,
            r matches Ok(d) ==> d.0 == val,
            r matches Err(e) ==> e@ == out_of_interval(1, 251, val as usize, "value"@),
    {
        match (Range::Interval { min: 1, max: 251 }).check(val as usize, "value") {
            Ok(()) => Ok(Delay(val)),
            Err(e) => Err(e),
        }
    }
}

impl From<Delay> for u8 {
    fn from(d: Delay) -> (r: u8) {
        d.0
    }
}

impl TryFrom<u8> for Delay {
    type Error = Error;

    fn try_from(val: u8) -> (r: Result<Delay, Error>)
        ensures
            r is Ok <==> 1 <= val <= 251,
            r matches Ok(d) ==> d.0 == val,
            r matches Err(e) ==> e@ == out_of_interval(1, 251, val as usize, "value"@),
    {
        Delay::try_from_u8(val)
    }
}

/// Verus asks for this spec beside the `TryFrom` impl above. It is not
/// used: `obeys_try_from_spec` is false, so no proof reads `try_from_spec`;
/// what `try_from` returns is stated by the `ensures` of the impl's
/// `try_from`, whose errors carry a text or a range that a spec value here
/// cannot stand for.
impl vstd::std_specs::convert::TryFromSpecImpl<u8> for Delay {
    open spec fn obeys_try_from_spec() -> bool {
        false
    }

    open spec fn try_from_spec(val: u8) -> Result<Delay, Error> {
        Err(Error::InvalidData)
    }
}

impl vstd::std_specs::convert::FromSpecImpl<Delay> for u8 {
    open spec fn obeys_from_spec() -> bool {
        true
    }

    open spec fn from_spec(d: Delay) -> u8 {
        d.0
    }
}

impl OperandEncodable for Delay {
    open spec fn spec_bytes(&self) -> Seq<u8> {
        seq![self.0]
    }

    open spec fn spec_parse(bytes: Seq<u8>) -> Result<Delay, ErrorView> {
        if bytes.len() < 1 {
            Err(short_input(1, bytes.len() as usize))
        } else if 1 <= bytes[0] <= 251 {
            Ok(Delay(bytes[0]))
        } else {
            Err(out_of_interval(1, 251, bytes[0] as usize, "value"@))
        }
    }

    open spec fn spec_wf(&self) -> bool {
        self.spec_is_valid()
    }

    open spec fn spec_expected_len() -> RangeView {
        RangeView::AtLeast(1)
    }

    open spec fn spec_self_delimiting() -> bool {
        true
    }

    fn to_bytes(&self, buf: &mut Vec<u8>) {
        buf.push(self.0);
    }

    fn try_from_bytes(bytes: &[u8]) -> (r: Result<Delay, Error>) {
        if bytes.len() < 1 {
            Err(Error::short_input(1, bytes.len()))
        } else {
            Delay::try_from_u8(bytes[0])
        }
    }

    fn len(&self) -> (r: usize) {
        1
    }

    fn expected_len() -> (r: Range) {
        Range::AtLeast(1)
    }

    proof fn lemma_roundtrip(&self, rest: Seq<u8>) {
        assert((self.spec_bytes() + rest)[0] == self.0);
    }

    proof fn lemma_parse_len(bytes: Seq<u8>) {
    }
}

/// A byte holding a two-digit binary-coded decimal number between `MIN` and
/// `MAX`: the tens in the high four bits, the units in the low four.
#[derive(Clone, Copy, Debug, PartialEq, Eq, Hash)]
pub struct BcdByte<const MIN: u8, const MAX: u8>(pub u8);

/// A number of hours in a duration, 0 to 99.
pub type DurationHours = BcdByte<0, 99>;

/// An hour of the day, 0 to 23.
pub type Hour = BcdByte<0, 23>;

/// A minute of the hour, 0 to 59.
pub type Minute = BcdByte<0, 59>;

/// The number that a binary-coded decimal byte stands for.
pub open spec fn bcd_value(b: u8) -> u8 {
    ((b >> 4u8) * 10 + (b & 0xFu8)) as u8
}

/// The two halves of a byte are at most 15 each.
pub proof fn lemma_nibbles(b: u8)
    ensures
        b >> 4u8 <= 15,
        b & 0xFu8 <= 15,
{
    assert(b >> 4u8 <= 15) by (bit_vector);
    assert(b & 0xFu8 <= 15) by (bit_vector);
}

/// The tens of a byte shifted into the high four bits leave room for the
/// units, and for a number below 100 they are the tens times 16.
pub proof fn lemma_bcd_encode(byte: u8)
    ensures
        (byte / 10u8) << 4u8 <= 240,
        byte <= 99 ==> (byte / 10u8) << 4u8 == (byte / 10u8) * 16,
{
    let t = byte / 10u8;
    assert((t << 4u8) <= 240) by (bit_vector);
    assert(t < 10 ==> (t << 4u8) == t * 16) by (bit_vector);
}

impl<const MIN: u8, const MAX: u8> BcdByte<MIN, MAX> {
    /// The number that the byte stands for.
    pub open spec fn value(self) -> u8 {
        bcd_value(self.0)
    }

    /// The byte of the number `byte`, which must lie between `MIN` and `MAX`.
    pub fn try_from_u8(byte: u8) -> (r: Result<BcdByte<MIN, MAX>, Error>)
        ensures
            r is Ok <==> MIN <= byte <= MAX,
            r matches Ok(b) ==> b.0 == ((byte / 10) << 4u8) + byte % 10,
            r matches Err(e) ==> e@ == out_of_interval(MIN as usize, MAX as usize, byte as usize, "value"@),
    {
        match (Range::Interval { min: MIN as usize, max: MAX as usize }).check(byte as usize, "value") {
            Ok(()) => {
                proof {
                    lemma_bcd_encode(byte);
                }
                Ok(BcdByte(((byte / 10) << 4) + (byte % 10)))
            },
            Err(e) => Err(e),
        }
    }
}

impl<const MIN: u8, const MAX: u8> From<BcdByte<MIN, MAX>> for u8 {
    fn from(bcd: BcdByte<MIN, MAX>) -> (r: u8) {
        proof {
            lemma_nibbles(bcd.0);
        }
        (bcd.0 >> 4) * 10 + (bcd.0 & 0xF)
    }
}

impl<const MIN: u8, const MAX: u8> TryFrom<u8> for BcdByte<MIN, MAX> {
    type Error = Error;

    fn try_from(byte: u8) -> (r: Result<BcdByte<MIN, MAX>, Error>)
        ensures
            r is Ok <==> MIN <= byte <= MAX,
            r matches Ok(b) ==> b.0 == ((byte / 10) << 4u8) + byte % 10,
            r matches Err(e) ==> e@ == out_of_interval(MIN as usize, MAX as usize, byte as usize, "value"@),
    {
        BcdByte::try_from_u8(byte)
    }
}

/// Verus asks for this spec beside the `TryFrom` impl above. It is not
/// used: `obeys_try_from_spec` is false, so no proof reads `try_from_spec`;
/// what `try_from` returns is stated by the `ensures` of the impl's
/// `try_from`, whose errors carry a text or a range that a spec value here
/// cannot stand for.
impl<const MIN: u8, const MAX: u8> vstd::std_specs::convert::TryFromSpecImpl<u8> for BcdByte<MIN, MAX> {
    open spec fn obeys_try_from_spec() -> bool {
        false
    }

    open spec fn try_from_spec(byte: u8) -> Result<BcdByte<MIN, MAX>, Error> {
        Err(Error::InvalidData)
    }
}

impl<const MIN: u8, const MAX: u8> vstd::std_specs::convert::FromSpecImpl<BcdByte<MIN, MAX>> for u8 {
    open spec fn obeys_from_spec() -> bool {
        true
    }

    open spec fn from_spec(bcd: BcdByte<MIN, MAX>) -> u8 {
        bcd_value(bcd.0)
    }
}

impl<const MIN: u8, const MAX: u8> OperandEncodable for BcdByte<MIN, MAX> {
    open spec fn spec_bytes(&self) -> Seq<u8> {
        seq![self.0]
    }

    open spec fn spec_parse(bytes: Seq<u8>) -> Result<BcdByte<MIN, MAX>, ErrorView> {
        if bytes.len() < 1 {
            Err(short_input(1, bytes.len() as usize))
        } else if bytes[0] & 0xFu8 > 9 {
            Err(out_of_interval(0, 9, (bytes[0] & 0xFu8) as usize, "low bits"@))
        } else if bytes[0] >> 4u8 > 9 {
            Err(out_of_interval(0, 9, (bytes[0] >> 4u8) as usize, "high bits"@))
        } else if !(MIN <= bcd_value(bytes[0]) <= MAX) {
            Err(out_of_interval(MIN as usize, MAX as usize, bcd_value(bytes[0]) as usize, "value"@))
        } else {
            Ok(BcdByte(bytes[0]))
        }
    }

    open spec fn spec_wf(&self) -> bool {
        &&& self.0 & 0xFu8 <= 9
        &&& self.0 >> 4u8 <= 9
        &&& MIN <= self.value() <= MAX
    }

    open spec fn spec_expected_len() -> RangeView {
        RangeView::AtLeast(1)
    }

    open spec fn spec_self_delimiting() -> bool {
        true
    }

    fn to_bytes(&self, buf: &mut Vec<u8>) {
        buf.push(self.0);
    }

    fn try_from_bytes(bytes: &[u8]) -> (r: Result<BcdByte<MIN, MAX>, Error>) {
        if bytes.len() < 1 {
            return Err(Error::short_input(1, bytes.len()));
        }
        let byte = bytes[0];
        match (Range::Interval { min: 0, max: 9 }).check((byte & 0xF) as usize, "low bits") {
            Ok(()) => {},
            Err(e) => return Err(e),
        }
        match (Range::Interval { min: 0, max: 9 }).check((byte >> 4) as usize, "high bits") {
            Ok(()) => {},
            Err(e) => return Err(e),
        }
        proof {
            lemma_nibbles(byte);
        }
        let value = (byte >> 4) * 10 + (byte & 0xF);
        match (Range::Interval { min: MIN as usize, max: MAX as usize }).check(value as usize, "value") {
            Ok(()) => {},
            Err(e) => return Err(e),
        }
        Ok(BcdByte(byte))
    }

    fn len(&self) -> (r: usize) {
        1
    }

    fn expected_len() -> (r: Range) {
        Range::AtLeast(1)
    }

    proof fn lemma_roundtrip(&self, rest: Seq<u8>) {
        assert((self.spec_bytes() + rest)[0] == self.0);
    }

    proof fn lemma_parse_len(bytes: Seq<u8>) {
    }
}

} // verus!
