//! The byte encoding of CEC operands: the [`OperandEncodable`] trait, the
//! helpers that decode a field at an offset, and the encodings of the
//! primitive operand types.

use vstd::prelude::*;

use crate::error::{offset_result, short_input, invalid_value, Error, ErrorView, Range, RangeView};

verus! {

broadcast use vstd::array::group_array_axioms;

/// A decoding result with its error taken by its view.
pub open spec fn result_view<T>(r: Result<T, Error>) -> Result<T, ErrorView> {
    match r {
        Ok(v) => Ok(v),
        Err(e) => Err(e@),
    }
}

/// A value that can be written to and read from the operand bytes of a CEC
/// message.
pub trait OperandEncodable: Sized {
    /// The bytes that encode the value.
    spec fn spec_bytes(&self) -> Seq<u8>;

    /// What decoding `bytes` gives: a value, or the error that is reported.
    spec fn spec_parse(bytes: Seq<u8>) -> Result<Self, ErrorView>;

    /// Whether the value is well formed, that is, decodes back from its own
    /// encoding.
    spec fn spec_wf(&self) -> bool;

    /// The lengths that a decodable input may have.
    spec fn spec_expected_len() -> RangeView;

    /// Whether decoding ignores the bytes that follow an encoding.
    spec fn spec_self_delimiting() -> bool;

    /// Appends the encoding of the value to `buf`.
    fn to_bytes(&self, buf: &mut Vec<u8>)
        ensures
            final(buf)@ == old(buf)@ + self.spec_bytes(),
    ;

    /// Decodes a value from the start of `bytes`.
    fn try_from_bytes(bytes: &[u8]) -> (r: Result<Self, Error>)
        ensures
            result_view(r) == Self::spec_parse(bytes@),
    ;

    /// The length of the encoding of the value (which a `usize` holds for
    /// every value that fits in memory).
    fn len(&self) -> (r: usize)
        ensures
            self.spec_bytes().len() <= usize::MAX ==> r == self.spec_bytes().len(),
    ;

    /// The lengths that a decodable input may have.
    fn expected_len() -> (r: Range)
        ensures
            r@ == Self::spec_expected_len(),
    ;

    /// A well-formed value decodes from its own encoding, and, where decoding
    /// ignores what follows an encoding, from its encoding followed by any
    /// bytes.
    proof fn lemma_roundtrip(&self, rest: Seq<u8>)
        requires
            self.spec_wf(),
            Self::spec_self_delimiting() || rest.len() == 0,
        ensures
            Self::spec_parse(self.spec_bytes() + rest) == Ok::<Self, ErrorView>(*self),
    ;

    /// A decoded value is encoded in no more bytes than were read.
    proof fn lemma_parse_len(bytes: Seq<u8>)
        ensures
            Self::spec_parse(bytes) matches Ok(v) ==> v.spec_bytes().len() <= bytes.len(),
    ;
}

/// Decodes one byte through the code table `f` of the type named `ty`.
pub open spec fn parse_code<T>(bytes: Seq<u8>, f: spec_fn(u8) -> Option<T>, ty: Seq<char>) -> Result<
    T,
    ErrorView,
> {
    if bytes.len() < 1 {
        Err(short_input(1, bytes.len() as usize))
    } else {
        match f(bytes[0]) {
            Some(v) => Ok(v),
            None => Err(invalid_value(ty, bytes[0] as nat)),
        }
    }
}

/// Decodes a `T` from the bytes that start at `off`; a shortage of bytes is
/// reported as seen from the start of `bytes`.
pub open spec fn parse_at<T: OperandEncodable>(bytes: Seq<u8>, off: int) -> Result<T, ErrorView> {
    offset_result(T::spec_parse(bytes.subrange(off, bytes.len() as int)), off as usize)
}

/// The bytes of `bytes` from `off` on.
pub fn slice_from(bytes: &[u8], off: usize) -> (r: &[u8])
    requires
        off <= bytes@.len(),
    ensures
        r@ == bytes@.subrange(off as int, bytes@.len() as int),
{
    &bytes[off..bytes.len()]
}

/// Decodes a `T` from the bytes that start at `off`.
pub fn parse_field<T: OperandEncodable>(bytes: &[u8], off: usize) -> (r: Result<T, Error>)
    requires
        off <= bytes@.len(),
    ensures
        result_view(r) == parse_at::<T>(bytes@, off as int),
        r matches Ok(v) ==> off + v.spec_bytes().len() <= bytes@.len(),
{
    let sub = slice_from(bytes, off);
    proof {
        T::lemma_parse_len(sub@);
    }
    match T::try_from_bytes(sub) {
        Ok(v) => Ok(v),
        Err(e) => Err(e.add_offset(off)),
    }
}

/// A value encoded at `prefix.len()` decodes there, whatever precedes it,
/// under the conditions of [`OperandEncodable::lemma_roundtrip`].
pub proof fn lemma_parse_at_encoding<T: OperandEncodable>(prefix: Seq<u8>, v: T, rest: Seq<u8>)
    requires
        v.spec_wf(),
        T::spec_self_delimiting() || rest.len() == 0,
    ensures
        parse_at::<T>(prefix + v.spec_bytes() + rest, prefix.len() as int) == Ok::<T, ErrorView>(v),
{
    let all = prefix + v.spec_bytes() + rest;
    assert(all.subrange(prefix.len() as int, all.len() as int) =~= v.spec_bytes() + rest);
    v.lemma_roundtrip(rest);
}

/// A value whose encoding, followed by `after`, makes up the bytes of `all`
/// from `off` on decodes at `off`.
pub proof fn lemma_parse_at_suffix<T: OperandEncodable>(all: Seq<u8>, off: int, v: T, after: Seq<u8>)
    requires
        0 <= off <= all.len(),
        all.subrange(off, all.len() as int) == v.spec_bytes() + after,
        v.spec_wf(),
        T::spec_self_delimiting() || after.len() == 0,
    ensures
        parse_at::<T>(all, off) == Ok::<T, ErrorView>(v),
{
    v.lemma_roundtrip(after);
}

/// The high byte of a 16-bit value.
pub open spec fn hi_byte(v: u16) -> u8 {
    (v >> 8u16) as u8
}

/// The low byte of a 16-bit value.
pub open spec fn lo_byte(v: u16) -> u8 {
    (v & 0xffu16) as u8
}

/// The 16-bit value of a high and a low byte.
pub open spec fn word(hi: u8, lo: u8) -> u16 {
    ((hi as u16) << 8u16) | (lo as u16)
}

/// Splitting a 16-bit value into its bytes and joining them gives it back,
/// and joining two bytes and splitting the result gives them back.
pub proof fn lemma_word(v: u16, hi: u8, lo: u8)
    ensures
        word(hi_byte(v), lo_byte(v)) == v,
        hi_byte(word(hi, lo)) == hi,
        lo_byte(word(hi, lo)) == lo,
{
    assert(((((v >> 8u16) as u8) as u16) << 8u16) | (((v & 0xffu16) as u8) as u16) == v)
        by (bit_vector);
    assert(((((hi as u16) << 8u16) | (lo as u16)) >> 8u16) as u8 == hi) by (bit_vector);
    assert(((((hi as u16) << 8u16) | (lo as u16)) & 0xffu16) as u8 == lo) by (bit_vector);
}

/// The high byte of a 16-bit value is its quotient by 256 and the low byte
/// its remainder; two bytes join to the high one times 256 plus the low one.
pub proof fn lemma_word_arith(v: u16, hi: u8, lo: u8)
    ensures
        hi_byte(v) == (v / 256) as u8,
        lo_byte(v) == (v % 256) as u8,
        word(hi, lo) == (hi * 256 + lo) as u16,
{
    assert((v >> 8u16) as u8 == (v / 256u16) as u8) by (bit_vector);
    assert((v & 0xffu16) as u8 == (v % 256u16) as u8) by (bit_vector);
    assert(((hi as u16) << 8u16) | (lo as u16) == (hi * 256 + lo) as u16) by (bit_vector);
}

/// The high byte of a 16-bit value.
pub fn hi_byte_of(v: u16) -> (r: u8)
    ensures
        r == hi_byte(v),
{
    (v >> 8u16) as u8
}

/// The low byte of a 16-bit value.
pub fn lo_byte_of(v: u16) -> (r: u8)
    ensures
        r == lo_byte(v),
{
    (v & 0xffu16) as u8
}

/// The 16-bit value of a high and a low byte.
pub fn word_of(hi: u8, lo: u8) -> (r: u16)
    ensures
        r == word(hi, lo),
{
    ((hi as u16) << 8u16) | (lo as u16)
}

impl OperandEncodable for u8 {
    open spec fn spec_bytes(&self) -> Seq<u8> {
        seq![*self]
    }

    open spec fn spec_parse(bytes: Seq<u8>) -> Result<u8, ErrorView> {
        if bytes.len() < 1 {
            Err(short_input(1, bytes.len() as usize))
        } else {
            Ok(bytes[0])
        }
    }

    open spec fn spec_wf(&self) -> bool {
        true
    }

    open spec fn spec_expected_len() -> RangeView {
        RangeView::AtLeast(1)
    }

    open spec fn spec_self_delimiting() -> bool {
        true
    }

    fn to_bytes(&self, buf: &mut Vec<u8>) {
        buf.push(*self);
    }

    fn try_from_bytes(bytes: &[u8]) -> (r: Result<u8, Error>) {
        if bytes.len() < 1 {
            Err(Error::short_input(1, bytes.len()))
        } else {
            Ok(bytes[0])
        }
    }

    fn len(&self) -> (r: usize) {
        1
    }

    fn expected_len() -> (r: Range) {
        Range::AtLeast(1)
    }

    proof fn lemma_roundtrip(&self, rest: Seq<u8>) {
        assert((self.spec_bytes() + rest)[0] == *self);
    }

    proof fn lemma_parse_len(bytes: Seq<u8>) {
    }
}

impl OperandEncodable for u16 {
    open spec fn spec_bytes(&self) -> Seq<u8> {
        seq![hi_byte(*self), lo_byte(*self)]
    }

    open spec fn spec_parse(bytes: Seq<u8>) -> Result<u16, ErrorView> {
        if bytes.len() < 2 {
            Err(short_input(2, bytes.len() as usize))
        } else {
            Ok(word(bytes[0], bytes[1]))
        }
    }

    open spec fn spec_wf(&self) -> bool {
        true
    }

    open spec fn spec_expected_len() -> RangeView {
        RangeView::AtLeast(2)
    }

    open spec fn spec_self_delimiting() -> bool {
        true
    }

    fn to_bytes(&self, buf: &mut Vec<u8>) {
        buf.push(hi_byte_of(*self));
        buf.push(lo_byte_of(*self));
        proof {
            assert(final(buf)@ =~= old(buf)@ + self.spec_bytes());
        }
    }

    fn try_from_bytes(bytes: &[u8]) -> (r: Result<u16, Error>) {
        if bytes.len() < 2 {
            Err(Error::short_input(2, bytes.len()))
        } else {
            Ok(word_of(bytes[0], bytes[1]))
        }
    }

    fn len(&self) -> (r: usize) {
        2
    }

    fn expected_len() -> (r: Range) {
        Range::AtLeast(2)
    }

    proof fn lemma_roundtrip(&self, rest: Seq<u8>) {
        lemma_word(*self, 0, 0);
        let all = self.spec_bytes() + rest;
        assert(all[0] == hi_byte(*self));
        assert(all[1] == lo_byte(*self));
    }

    proof fn lemma_parse_len(bytes: Seq<u8>) {
    }
}

impl OperandEncodable for bool {
    open spec fn spec_bytes(&self) -> Seq<u8> {
        seq![if *self { 1u8 } else { 0u8 }]
    }

    open spec fn spec_parse(bytes: Seq<u8>) -> Result<bool, ErrorView> {
        if bytes.len() < 1 {
            Err(short_input(1, bytes.len() as usize))
        } else {
            Ok(bytes[0] != 0)
        }
    }

    open spec fn spec_wf(&self) -> bool {
        true
    }

    open spec fn spec_expected_len() -> RangeView {
        RangeView::AtLeast(1)
    }

    open spec fn spec_self_delimiting() -> bool {
        true
    }

    fn to_bytes(&self, buf: &mut Vec<u8>) {
        buf.push(if *self { 1 } else { 0 });
    }

    fn try_from_bytes(bytes: &[u8]) -> (r: Result<bool, Error>) {
        if bytes.len() < 1 {
            Err(Error::short_input(1, bytes.len()))
        } else {
            Ok(bytes[0] != 0)
        }
    }

    fn len(&self) -> (r: usize) {
        1
    }

    fn expected_len() -> (r: Range) {
        Range::AtLeast(1)
    }

    proof fn lemma_roundtrip(&self, rest: Seq<u8>) {
        assert((self.spec_bytes() + rest)[0] == (if *self { 1u8 } else { 0u8 }));
    }

    proof fn lemma_parse_len(bytes: Seq<u8>) {
    }
}

/// The array `base` with its first `k` items replaced by those of `s`.
pub open spec fn array_prefix<T, const N: usize>(base: [T; N], s: Seq<T>, k: nat) -> [T; N]
    decreases k,
{
    if k == 0 {
        base
    } else {
        vstd::array::spec_array_update(array_prefix(base, s, (k - 1) as nat), k - 1, s[k - 1])
    }
}

/// The array of `N` items whose items are `s`, for `s` of length `N`.
pub open spec fn array_of<T: Copy, const N: usize>(s: Seq<T>, fill: T) -> [T; N] {
    array_prefix(vstd::array::spec_array_fill_for_copy_type::<T, N>(fill), s, N as nat)
}

/// Replacing the first `k` items of `base` by those of `s` gives the items
/// of `s` followed by the rest of `base`.
pub proof fn lemma_array_prefix<T, const N: usize>(base: [T; N], s: Seq<T>, k: nat)
    requires
        k <= N,
        k <= s.len(),
    ensures
        array_prefix(base, s, k)@ =~= s.take(k as int) + base@.skip(k as int),
    decreases k,
{
    vstd::array::array_len_matches_n(&base);
    if k > 0 {
        lemma_array_prefix(base, s, (k - 1) as nat);
        let prev = array_prefix(base, s, (k - 1) as nat);
        vstd::array::axiom_spec_array_update(prev, k - 1, s[k - 1]);
    }
}

/// The array of a sequence of `N` items has those items; an array is the
/// array of its own items.
pub proof fn lemma_array_of<T: Copy, const N: usize>(s: Seq<T>, fill: T, a: [T; N])
    ensures
        s.len() == N ==> array_of::<T, N>(s, fill)@ == s,
        array_of::<T, N>(a@, fill) == a,
{
    let base = vstd::array::spec_array_fill_for_copy_type::<T, N>(fill);
    vstd::array::array_len_matches_n(&base);
    vstd::array::array_len_matches_n(&a);
    if s.len() == N {
        lemma_array_prefix(base, s, N as nat);
        assert(s.take(N as int) + base@.skip(N as int) =~= s);
    }
    lemma_array_prefix(base, a@, N as nat);
    assert(a@.take(N as int) + base@.skip(N as int) =~= a@);
    let b = array_of::<T, N>(a@, fill);
    vstd::array::array_len_matches_n(&b);
    assert(b =~= a);
}

impl<const N: usize> OperandEncodable for [u8; N] {
    open spec fn spec_bytes(&self) -> Seq<u8> {
        self@
    }

    open spec fn spec_parse(bytes: Seq<u8>) -> Result<[u8; N], ErrorView> {
        if bytes.len() < N {
            Err(short_input(N, bytes.len() as usize))
        } else {
            Ok(array_of::<u8, N>(bytes.take(N as int), 0))
        }
    }

    open spec fn spec_wf(&self) -> bool {
        true
    }

    open spec fn spec_expected_len() -> RangeView {
        RangeView::AtLeast(N)
    }

    open spec fn spec_self_delimiting() -> bool {
        true
    }

    fn to_bytes(&self, buf: &mut Vec<u8>) {
        let ghost start = buf@;
        let mut i: usize = 0;
        while i < N
            invariant
                i <= N,
                self@.len() == N,
                buf@ =~= start + self@.take(i as int),
            decreases N - i,
        {
            buf.push(self[i]);
            proof {
                assert(self@.take(i + 1) =~= self@.take(i as int).push(self@[i as int]));
            }
            i = i + 1;
        }
        proof {
            assert(self@.take(N as int) =~= self@);
        }
    }

    fn try_from_bytes(bytes: &[u8]) -> (r: Result<[u8; N], Error>) {
        if bytes.len() < N {
            return Err(Error::short_input(N, bytes.len()));
        }
        let mut a: [u8; N] = vstd::array::array_fill_for_copy_types::<u8, N>(0);
        let mut i: usize = 0;
        while i < N
            invariant
                i <= N,
                N <= bytes@.len(),
                a@.len() == N,
                forall|j: int| 0 <= j < i ==> a@[j] == bytes@[j],
            decreases N - i,
        {
            a[i] = bytes[i];
            i = i + 1;
        }
        proof {
            assert(a@ =~= bytes@.take(N as int));
            lemma_array_of::<u8, N>(a@, 0, a);
        }
        Ok(a)
    }

    fn len(&self) -> (r: usize) {
        N
    }

    fn expected_len() -> (r: Range) {
        Range::AtLeast(N)
    }

    proof fn lemma_roundtrip(&self, rest: Seq<u8>) {
        vstd::array::array_len_matches_n(self);
        assert((self@ + rest).take(N as int) =~= self@);
        lemma_array_of::<u8, N>(self@, 0, *self);
    }

    proof fn lemma_parse_len(bytes: Seq<u8>) {
        if bytes.len() >= N {
            let a = array_of::<u8, N>(bytes.take(N as int), 0);
            lemma_array_of::<u8, N>(bytes.take(N as int), 0, a);
        }
    }
}

impl<T: OperandEncodable> OperandEncodable for Option<T> {
    open spec fn spec_bytes(&self) -> Seq<u8> {
        match self {
            Some(v) => v.spec_bytes(),
            None => Seq::empty(),
        }
    }

    open spec fn spec_parse(bytes: Seq<u8>) -> Result<Option<T>, ErrorView> {
        if bytes.len() < 1 {
            Ok(None)
        } else {
            match T::spec_parse(bytes) {
                Ok(v) => Ok(Some(v)),
                Err(e) => Err(e),
            }
        }
    }

    open spec fn spec_wf(&self) -> bool {
        match self {
            Some(v) => v.spec_wf() && v.spec_bytes().len() > 0,
            None => true,
        }
    }

    open spec fn spec_expected_len() -> RangeView {
        RangeView::AtLeast(0)
    }

    open spec fn spec_self_delimiting() -> bool {
        false
    }

    fn to_bytes(&self, buf: &mut Vec<u8>) {
        match self {
            Some(v) => v.to_bytes(buf),
            None => {
                proof {
                    assert(final(buf)@ =~= old(buf)@ + self.spec_bytes());
                }
            },
        }
    }

    fn try_from_bytes(bytes: &[u8]) -> (r: Result<Option<T>, Error>) {
        if bytes.len() < 1 {
            Ok(None)
        } else {
            match T::try_from_bytes(bytes) {
                Ok(v) => Ok(Some(v)),
                Err(e) => Err(e),
            }
        }
    }

    fn len(&self) -> (r: usize) {
        match self {
            Some(v) => v.len(),
            None => 0,
        }
    }

    fn expected_len() -> (r: Range) {
        Range::AtLeast(0)
    }

    proof fn lemma_roundtrip(&self, rest: Seq<u8>) {
        match self {
            Some(v) => {
                v.lemma_roundtrip(rest);
            },
            None => {
                assert(self.spec_bytes() + rest =~= rest);
            },
        }
    }

    proof fn lemma_parse_len(bytes: Seq<u8>) {
        T::lemma_parse_len(bytes);
    }
}

} // verus!
