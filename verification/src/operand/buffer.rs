//! Operands made of a run of values: bounded buffers, and the buffers whose
//! length is marked by the top bit of each byte.

use vstd::prelude::*;

use crate::codec::{array_of, lemma_array_of, lemma_parse_at_encoding, parse_at, parse_field, result_view, slice_from, OperandEncodable};
use crate::error::short_input;
use vstd::string::StringSliceAdditionalSpecFns;
use crate::error::{Error, ErrorView, Range, RangeView};

verus! {

broadcast use vstd::array::group_array_axioms;

/// A value whose every encoding has the same number of bytes.
pub trait FixedWidthOperand: OperandEncodable + Copy {
    /// The number of bytes of each encoding.
    spec fn spec_width() -> nat;

    /// The value that fills the unused places of a buffer.
    spec fn spec_fill() -> Self;

    /// The number of bytes of each encoding.
    fn width() -> (r: usize)
        ensures
            r == Self::spec_width(),
            r >= 1,
    ;

    /// The value that fills the unused places of a buffer.
    fn fill() -> (r: Self)
        ensures
            r == Self::spec_fill(),
    ;

    /// Every value is encoded in the same number of bytes.
    proof fn lemma_width(&self)
        ensures
            self.spec_bytes().len() == Self::spec_width(),
            Self::spec_width() >= 1,
    ;
}

impl FixedWidthOperand for u8 {
    open spec fn spec_width() -> nat {
        1
    }

    open spec fn spec_fill() -> u8 {
        0
    }

    fn width() -> (r: usize) {
        1
    }

    fn fill() -> (r: u8) {
        0
    }

    proof fn lemma_width(&self) {
    }
}

impl FixedWidthOperand for u16 {
    open spec fn spec_width() -> nat {
        2
    }

    open spec fn spec_fill() -> u16 {
        0
    }

    fn width() -> (r: usize) {
        2
    }

    fn fill() -> (r: u16) {
        0
    }

    proof fn lemma_width(&self) {
    }
}

impl FixedWidthOperand for [u8; 3] {
    open spec fn spec_width() -> nat {
        3
    }

    open spec fn spec_fill() -> [u8; 3] {
        [0u8, 0u8, 0u8]
    }

    fn width() -> (r: usize) {
        3
    }

    fn fill() -> (r: [u8; 3]) {
        [0u8, 0u8, 0u8]
    }

    proof fn lemma_width(&self) {
        vstd::array::array_len_matches_n(self);
    }
}

impl FixedWidthOperand for crate::operand::bitfield::AudioFormatIdAndCode {
    open spec fn spec_width() -> nat {
        1
    }

    open spec fn spec_fill() -> crate::operand::bitfield::AudioFormatIdAndCode {
        crate::operand::bitfield::AudioFormatIdAndCode(0)
    }

    fn width() -> (r: usize) {
        1
    }

    fn fill() -> (r: crate::operand::bitfield::AudioFormatIdAndCode) {
        crate::operand::bitfield::AudioFormatIdAndCode(0)
    }

    proof fn lemma_width(&self) {
    }
}

impl FixedWidthOperand for crate::address::PhysicalAddress {
    open spec fn spec_width() -> nat {
        2
    }

    open spec fn spec_fill() -> crate::address::PhysicalAddress {
        crate::address::PhysicalAddress(0xffff)
    }

    fn width() -> (r: usize) {
        2
    }

    fn fill() -> (r: crate::address::PhysicalAddress) {
        crate::address::PhysicalAddress(0xffff)
    }

    proof fn lemma_width(&self) {
    }
}

/// The encodings of `items`, one after the other.
pub open spec fn encode_all<T: OperandEncodable>(items: Seq<T>) -> Seq<u8>
    decreases items.len(),
{
    if items.len() == 0 {
        Seq::empty()
    } else {
        encode_all(items.drop_last()) + items.last().spec_bytes()
    }
}

/// The first `n` values of width `w` decoded one after the other from the
/// start of `bytes`, or the first error.
pub open spec fn parse_run<T: OperandEncodable>(bytes: Seq<u8>, n: nat, w: nat) -> Result<Seq<T>, ErrorView>
    decreases n,
{
    if n == 0 {
        Ok(Seq::empty())
    } else {
        match parse_run::<T>(bytes, (n - 1) as nat, w) {
            Err(e) => Err(e),
            Ok(s) => match parse_at::<T>(bytes, (n - 1) * w) {
                Ok(v) => Ok(s.push(v)),
                Err(e) => Err(e),
            },
        }
    }
}

/// How many values of width `w` a buffer of capacity `cap` reads from `len`
/// bytes: as many as fit, up to the capacity.
pub open spec fn run_len(cap: nat, len: nat, w: nat) -> nat {
    if len / w < cap {
        len / w
    } else {
        cap
    }
}

/// One more multiple of `w`.
pub proof fn lemma_mul_step(n: int, w: int)
    by (nonlinear_arith)
    ensures
        (n + 1) * w == n * w + w,
{
}

/// Multiples of a positive `w` grow with the multiplier.
pub proof fn lemma_mul_mono(a: int, b: int, w: int)
    by (nonlinear_arith)
    requires
        0 <= a <= b,
        w >= 0,
    ensures
        a * w <= b * w,
{
}

/// The quotient of `len` by `w` is the `count` whose multiple fits in `len`
/// while the next does not.
pub proof fn lemma_div_count(count: int, len: int, w: int)
    by (nonlinear_arith)
    requires
        w >= 1,
        count >= 0,
        count * w <= len,
        len < (count + 1) * w,
    ensures
        len / w == count,
{
}

/// The next multiple still fits when the quotient is larger.
pub proof fn lemma_div_more(count: int, len: int, w: int)
    by (nonlinear_arith)
    requires
        w >= 1,
        count >= 0,
        len >= 0,
        (count + 1) * w <= len,
    ensures
        len / w >= count + 1,
{
}

/// The quotient of a multiple.
pub proof fn lemma_div_multiple(n: int, w: int)
    by (nonlinear_arith)
    requires
        w >= 1,
        n >= 0,
    ensures
        (n * w) / w == n,
{
}

/// The encodings of values of one width take that width each.
pub proof fn lemma_encode_all_len<T: FixedWidthOperand>(items: Seq<T>)
    ensures
        encode_all(items).len() == items.len() * T::spec_width(),
    decreases items.len(),
{
    if items.len() > 0 {
        lemma_encode_all_len(items.drop_last());
        items.last().lemma_width();
        lemma_mul_step(items.len() - 1, T::spec_width() as int);
    }
}

/// The encodings of two runs one after the other are those of the joined run.
pub proof fn lemma_encode_all_concat<T: OperandEncodable>(a: Seq<T>, b: Seq<T>)
    ensures
        encode_all(a + b) == encode_all(a) + encode_all(b),
    decreases b.len(),
{
    if b.len() == 0 {
        assert(a + b =~= a);
        assert(encode_all(a) + encode_all(b) =~= encode_all(a));
    } else {
        lemma_encode_all_concat(a, b.drop_last());
        assert((a + b).drop_last() =~= a + b.drop_last());
        assert((a + b).last() == b.last());
        assert(encode_all(a + b) =~= encode_all(a) + encode_all(b));
    }
}

/// An error in decoding a run stops it: decoding more values reports the
/// same error.
pub proof fn lemma_parse_run_err<T: OperandEncodable>(bytes: Seq<u8>, k: nat, m: nat, w: nat)
    requires
        k <= m,
        parse_run::<T>(bytes, k, w) is Err,
    ensures
        parse_run::<T>(bytes, m, w) == parse_run::<T>(bytes, k, w),
    decreases m,
{
    if m > k {
        lemma_parse_run_err::<T>(bytes, k, (m - 1) as nat, w);
    }
}

/// A decoded run has as many values as were asked for.
pub proof fn lemma_parse_run_len<T: OperandEncodable>(bytes: Seq<u8>, n: nat, w: nat)
    ensures
        parse_run::<T>(bytes, n, w) matches Ok(s) ==> s.len() == n,
    decreases n,
{
    if n > 0 {
        lemma_parse_run_len::<T>(bytes, (n - 1) as nat, w);
    }
}

/// The encodings of well-formed values, followed by anything, decode back to
/// the values.
pub proof fn lemma_parse_run_encoding<T: FixedWidthOperand>(items: Seq<T>, rest: Seq<u8>, k: nat)
    requires
        k <= items.len(),
        forall|i: int| 0 <= i < items.len() ==> (#[trigger] items[i]).spec_wf(),
        T::spec_self_delimiting(),
    ensures
        parse_run::<T>(encode_all(items) + rest, k, T::spec_width()) == Ok::<Seq<T>, ErrorView>(
            items.take(k as int),
        ),
    decreases k,
{
    let w = T::spec_width();
    let bytes = encode_all(items) + rest;
    if k > 0 {
        let j = (k - 1) as int;
        lemma_parse_run_encoding(items, rest, (k - 1) as nat);
        let before = items.take(j);
        let after = items.skip(j + 1);
        assert(items =~= before + seq![items[j]] + after);
        lemma_encode_all_concat(before + seq![items[j]], after);
        lemma_encode_all_concat(before, seq![items[j]]);
        assert(encode_all(seq![items[j]]) =~= items[j].spec_bytes()) by {
            assert(seq![items[j]].drop_last() =~= Seq::<T>::empty());
            reveal_with_fuel(encode_all, 2);
        }
        lemma_encode_all_len(before);
        assert(bytes =~= encode_all(before) + items[j].spec_bytes() + (encode_all(after) + rest));
        lemma_parse_at_encoding(encode_all(before), items[j], encode_all(after) + rest);
        assert(encode_all(before).len() == j * w);
        assert(parse_at::<T>(bytes, j * w) == Ok::<T, ErrorView>(items[j]));
        assert(parse_run::<T>(bytes, (k - 1) as nat, w) == Ok::<Seq<T>, ErrorView>(before));
        assert(items.take(k as int) =~= before.push(items[j]));
    } else {
        assert(items.take(0) =~= Seq::<T>::empty());
    }
}

/// A multiple of `w` by the quotient of `len` by `w` is at most `len`.
pub proof fn lemma_div_mul_le(len: int, w: int)
    by (nonlinear_arith)
    requires
        w >= 1,
        len >= 0,
    ensures
        (len / w) * w <= len,
        len / w >= 0,
{
}

/// The items of a run `items` followed by the fill value up to `cap` places.
pub open spec fn filled<T: FixedWidthOperand>(items: Seq<T>, cap: nat) -> Seq<T> {
    items + Seq::new((cap - items.len()) as nat, |i: int| T::spec_fill())
}

/// Decodes up to `cap` values of `T` one after the other from the start of
/// `bytes`, as many as the bytes hold whole.
pub fn parse_items<T: FixedWidthOperand>(bytes: &[u8], cap: usize) -> (r: Result<Vec<T>, Error>)
    ensures
        match r {
            Ok(v) => parse_run::<T>(bytes@, run_len(cap as nat, bytes@.len(), T::spec_width()), T::spec_width())
                == Ok::<Seq<T>, ErrorView>(v@),
            Err(e) => parse_run::<T>(bytes@, run_len(cap as nat, bytes@.len(), T::spec_width()), T::spec_width())
                == Err::<Seq<T>, ErrorView>(e@),
        },
{
    let w = T::width();
    let mut items: Vec<T> = Vec::new();
    let mut offset: usize = 0;
    while items.len() < cap && w <= bytes.len() - offset
        invariant
            w == T::spec_width(),
            w >= 1,
            offset <= bytes@.len(),
            items@.len() <= cap,
            offset == items@.len() * w,
            parse_run::<T>(bytes@, items@.len() as nat, w as nat) == Ok::<Seq<T>, ErrorView>(items@),
        decreases cap - items@.len(),
    {
        let ghost count = items@.len();
        proof {
            lemma_mul_step(count as int, w as int);
            lemma_parse_run_len::<T>(bytes@, count as nat, w as nat);
        }
        let v = match parse_field::<T>(bytes, offset) {
            Ok(v) => v,
            Err(e) => {
                proof {
                    lemma_div_more(count as int, bytes@.len() as int, w as int);
                    lemma_parse_run_err::<T>(
                        bytes@,
                        (count + 1) as nat,
                        run_len(cap as nat, bytes@.len(), w as nat),
                        w as nat,
                    );
                }
                return Err(e);
            },
        };
        items.push(v);
        offset = offset + w;
    }
    proof {
        let count = items@.len();
        lemma_mul_step(count as int, w as int);
        if count < cap {
            lemma_div_count(count as int, bytes@.len() as int, w as int);
        } else {
            lemma_div_more_or_eq(count as int, bytes@.len() as int, w as int);
        }
    }
    Ok(items)
}

/// A count whose multiple fits has a quotient at least as large.
pub proof fn lemma_div_more_or_eq(count: int, len: int, w: int)
    by (nonlinear_arith)
    requires
        w >= 1,
        count >= 0,
        len >= 0,
        count * w <= len,
    ensures
        len / w >= count,
{
}

/// A buffer of up to `S` values, of which the first `len` are in use.
#[derive(Clone, Copy, Debug, PartialEq, Eq, Hash)]
pub struct BoundedBufferOperand<const S: usize, T: FixedWidthOperand> {
    /// The places of the buffer.
    pub buffer: [T; S],
    /// The number of places in use.
    pub len: usize,
}

/// A buffer of up to fourteen bytes.
pub type BufferOperand = BoundedBufferOperand<14, u8>;

/// The array of `S` places holding `items` and then the fill value.
fn array_of_items<const S: usize, T: FixedWidthOperand>(items: &Vec<T>) -> (r: [T; S])
    requires
        items@.len() <= S,
    ensures
        r@ == filled(items@, S as nat),
{
    let mut a: [T; S] = vstd::array::array_fill_for_copy_types::<T, S>(T::fill());
    let mut i: usize = 0;
    while i < items.len()
        invariant
            items@.len() <= S,
            i <= items@.len(),
            a@.len() == S,
            forall|j: int| 0 <= j < i ==> a@[j] == items@[j],
            forall|j: int| i <= j < S ==> a@[j] == T::spec_fill(),
        decreases items@.len() - i,
    {
        a[i] = items[i];
        i = i + 1;
    }
    assert(a@ =~= filled(items@, S as nat));
    a
}

impl<const S: usize, T: FixedWidthOperand> BoundedBufferOperand<S, T> {
    /// The number of places in use, at most the capacity.
    pub open spec fn count(self) -> nat {
        if self.len <= S {
            self.len as nat
        } else {
            S as nat
        }
    }

    /// The values in use.
    pub open spec fn items(self) -> Seq<T> {
        self.buffer@.take(self.count() as int)
    }

    /// The buffer holding `items` and then the fill value.
    pub open spec fn of_items(items: Seq<T>) -> Self {
        BoundedBufferOperand { buffer: array_of(filled(items, S as nat), T::spec_fill()), len: items.len() as usize }
    }

    /// An empty buffer.
    pub fn new() -> (r: Self)
        ensures
            r.len == 0,
            r == Self::of_items(Seq::empty()),
    {
        let items: Vec<T> = Vec::new();
        let buffer = array_of_items::<S, T>(&items);
        proof {
            lemma_array_of::<T, S>(filled(items@, S as nat), T::spec_fill(), buffer);
        }
        BoundedBufferOperand { buffer, len: 0 }
    }

    /// The buffer holding the values of `arr`, which must fit; a longer
    /// slice is reported as too many elements.
    pub fn try_from_slice(arr: &[T]) -> (r: Result<Self, Error>)
        ensures
            r is Ok <==> arr@.len() <= S,
            r matches Ok(b) ==> b == Self::of_items(arr@),
            r matches Err(e) ==> e@ == (ErrorView::OutOfRange {
                expected: RangeView::AtMost(S),
                got: arr@.len() as usize,
                quantity: "elements"@,
            }),
    {
        match Range::AtMost(S).check(arr.len(), "elements") {
            Ok(()) => {},
            Err(e) => return Err(e),
        }
        let mut items: Vec<T> = Vec::new();
        let mut i: usize = 0;
        while i < arr.len()
            invariant
                i <= arr@.len(),
                items@ == arr@.take(i as int),
            decreases arr@.len() - i,
        {
            items.push(arr[i]);
            i = i + 1;
            proof {
                assert(items@ =~= arr@.take(i as int));
            }
        }
        proof {
            assert(arr@.take(arr@.len() as int) =~= arr@);
        }
        let buffer = array_of_items::<S, T>(&items);
        proof {
            lemma_array_of::<T, S>(filled(items@, S as nat), T::spec_fill(), buffer);
        }
        Ok(BoundedBufferOperand { buffer, len: items.len() })
    }
}

impl<const S: usize> BoundedBufferOperand<S, u8> {
    /// The buffer holding the UTF-8 bytes of `s`, which must fit; a longer
    /// string is reported as too many bytes.
    pub fn try_from_str(s: &str) -> (r: Result<Self, Error>)
        ensures
            r is Ok <==> s.spec_bytes().len() <= S,
            r matches Ok(b) ==> b == Self::of_items(s.spec_bytes()),
            r matches Err(e) ==> e@ == (ErrorView::OutOfRange {
                expected: RangeView::AtMost(S),
                got: s.spec_bytes().len() as usize,
                quantity: "bytes"@,
            }),
    {
        let bytes = s.as_bytes();
        match Range::AtMost(S).check(bytes.len(), "bytes") {
            Ok(()) => {},
            Err(e) => return Err(e),
        }
        let mut items: Vec<u8> = Vec::new();
        let mut i: usize = 0;
        while i < bytes.len()
            invariant
                i <= bytes@.len(),
                items@ == bytes@.take(i as int),
            decreases bytes@.len() - i,
        {
            items.push(bytes[i]);
            i = i + 1;
            proof {
                assert(items@ =~= bytes@.take(i as int));
            }
        }
        proof {
            assert(bytes@.take(bytes@.len() as int) =~= bytes@);
        }
        let buffer = array_of_items::<S, u8>(&items);
        proof {
            lemma_array_of::<u8, S>(filled(items@, S as nat), 0u8, buffer);
        }
        Ok(BoundedBufferOperand { buffer, len: items.len() })
    }
}

impl<'a, const S: usize, T: FixedWidthOperand> TryFrom<&'a [T]> for BoundedBufferOperand<S, T> {
    type Error = Error;

    fn try_from(arr: &'a [T]) -> (r: Result<Self, Error>)
        ensures
            r is Ok <==> arr@.len() <= S,
            r matches Ok(b) ==> b == Self::of_items(arr@),
            r matches Err(e) ==> e@ == (ErrorView::OutOfRange {
                expected: RangeView::AtMost(S),
                got: arr@.len() as usize,
                quantity: "elements"@,
            }),
    {
        Self::try_from_slice(arr)
    }
}

/// Verus asks for this spec beside the `TryFrom` impl above. It is not
/// used: `obeys_try_from_spec` is false, so no proof reads `try_from_spec`;
/// what `try_from` returns is stated by the `ensures` of the impl's
/// `try_from`, whose errors carry a text or a range that a spec value here
/// cannot stand for.
impl<'a, const S: usize, T: FixedWidthOperand> vstd::std_specs::convert::TryFromSpecImpl<&'a [T]> for BoundedBufferOperand<S, T> {
    open spec fn obeys_try_from_spec() -> bool {
        false
    }

    open spec fn try_from_spec(arr: &'a [T]) -> Result<Self, Error> {
        Err(Error::InvalidData)
    }
}

impl<const S: usize> core::str::FromStr for BoundedBufferOperand<S, u8> {
    type Err = Error;

    fn from_str(s: &str) -> (r: Result<Self, Error>)
        ensures
            r is Ok <==> s.spec_bytes().len() <= S,
            r matches Ok(b) ==> b == Self::of_items(s.spec_bytes()),
            r matches Err(e) ==> e@ == (ErrorView::OutOfRange {
                expected: RangeView::AtMost(S),
                got: s.spec_bytes().len() as usize,
                quantity: "bytes"@,
            }),
    {
        Self::try_from_str(s)
    }
}

impl<const S: usize, T: FixedWidthOperand> Default for BoundedBufferOperand<S, T> {
    fn default() -> (r: Self)
        ensures
            r.len == 0,
            r == Self::of_items(Seq::empty()),
    {
        Self::new()
    }
}

impl<const S: usize, T: FixedWidthOperand> OperandEncodable for BoundedBufferOperand<S, T> {
    open spec fn spec_bytes(&self) -> Seq<u8> {
        encode_all(self.items())
    }

    open spec fn spec_parse(bytes: Seq<u8>) -> Result<Self, ErrorView> {
        match parse_run::<T>(bytes, run_len(S as nat, bytes.len(), T::spec_width()), T::spec_width()) {
            Ok(items) => Ok(Self::of_items(items)),
            Err(e) => Err(e),
        }
    }

    open spec fn spec_wf(&self) -> bool {
        &&& self.len <= S
        &&& T::spec_self_delimiting()
        &&& forall|i: int| 0 <= i < self.len ==> (#[trigger] self.buffer@[i]).spec_wf()
        &&& forall|i: int| self.len <= i < S ==> #[trigger] self.buffer@[i] == T::spec_fill()
    }

    open spec fn spec_expected_len() -> RangeView {
        RangeView::AtLeast(0)
    }

    open spec fn spec_self_delimiting() -> bool {
        false
    }

    fn to_bytes(&self, buf: &mut Vec<u8>) {
        let count = if self.len <= S { self.len } else { S };
        let ghost start = buf@;
        let ghost items = self.items();
        let mut i: usize = 0;
        while i < count
            invariant
                count == self.count(),
                count <= S,
                self.buffer@.len() == S,
                items == self.items(),
                i <= count,
                buf@ == start + encode_all(items.take(i as int)),
            decreases count - i,
        {
            self.buffer[i].to_bytes(buf);
            proof {
                assert(items.take(i + 1).drop_last() =~= items.take(i as int));
                assert(items.take(i + 1).last() == self.buffer@[i as int]);
                assert(buf@ =~= start + encode_all(items.take(i + 1)));
            }
            i = i + 1;
        }
        proof {
            assert(items.take(count as int) =~= items);
        }
    }

    fn try_from_bytes(bytes: &[u8]) -> (r: Result<Self, Error>) {
        let items = match parse_items::<T>(bytes, S) {
            Ok(items) => items,
            Err(e) => return Err(e),
        };
        proof {
            lemma_parse_run_len::<T>(bytes@, run_len(S as nat, bytes@.len(), T::spec_width()), T::spec_width());
        }
        let buffer = array_of_items::<S, T>(&items);
        proof {
            lemma_array_of::<T, S>(filled(items@, S as nat), T::spec_fill(), buffer);
        }
        Ok(BoundedBufferOperand { buffer, len: items.len() })
    }

    fn len(&self) -> (r: usize) {
        let count = if self.len <= S { self.len } else { S };
        proof {
            lemma_encode_all_len(self.items());
        }
        match count.checked_mul(T::width()) {
            Some(n) => n,
            None => usize::MAX,
        }
    }

    fn expected_len() -> (r: Range) {
        Range::AtLeast(0)
    }

    proof fn lemma_roundtrip(&self, rest: Seq<u8>) {
        let w = T::spec_width();
        let items = self.items();
        let bytes = self.spec_bytes() + rest;
        assert(rest.len() == 0);
        assert(bytes =~= encode_all(items));
        T::spec_fill().lemma_width();
        lemma_encode_all_len(items);
        lemma_div_multiple(self.len as int, w as int);
        assert(run_len(S as nat, bytes.len(), w) == self.len);
        assert forall|i: int| 0 <= i < items.len() implies (#[trigger] items[i]).spec_wf() by {
            assert(items[i] == self.buffer@[i]);
        }
        lemma_parse_run_encoding(items, rest, self.len as nat);
        assert(items.take(self.len as int) =~= items);
        assert(filled(items, S as nat) =~= self.buffer@);
        lemma_array_of::<T, S>(self.buffer@, T::spec_fill(), self.buffer);
    }

    proof fn lemma_parse_len(bytes: Seq<u8>) {
        let w = T::spec_width();
        let n = run_len(S as nat, bytes.len(), w);
        lemma_parse_run_len::<T>(bytes, n, w);
        T::spec_fill().lemma_width();
        if let Ok(items) = parse_run::<T>(bytes, n, w) {
            let b = Self::of_items(items);
            lemma_array_of::<T, S>(filled(items, S as nat), T::spec_fill(), b.buffer);
            assert(b.items() =~= items);
            lemma_encode_all_len(items);
            lemma_div_mul_le(bytes.len() as int, w as int);
            lemma_mul_mono(n as int, (bytes.len() / w) as int, w as int);
        }
    }
}

/// The fixed parameter of a tagged-length buffer: a value held in the low
/// seven bits of its first byte.
pub trait TaggedParam: Sized + Copy {
    /// The byte of the value.
    spec fn spec_into_u8(self) -> u8;

    /// The value of the byte `b`, or the error that is reported.
    spec fn spec_try_from_u8(b: u8) -> Result<Self, ErrorView>;

    /// The byte of the value.
    fn into_u8(self) -> (r: u8)
        ensures
            r == self.spec_into_u8(),
    ;

    /// The value of the byte `b`.
    fn try_from_u8(b: u8) -> (r: Result<Self, Error>)
        ensures
            result_view(r) == Self::spec_try_from_u8(b),
    ;
}

/// An operand of a fixed parameter followed by a run of extra bytes, where
/// the top bit of each byte tells whether another follows.
pub trait TaggedLengthBuffer: Sized {
    /// The type of the fixed parameter.
    type FixedParam: TaggedParam;

    /// The fixed parameter.
    spec fn spec_fixed_param(&self) -> Self::FixedParam;

    /// The extra bytes, seven bits each.
    spec fn spec_extra_params(&self) -> Seq<u8>;

    /// The value built from a fixed parameter and extra bytes, or the error
    /// that is reported.
    spec fn spec_new(first: Self::FixedParam, extra: Seq<u8>) -> Result<Self, ErrorView>;

    /// Builds a value from a fixed parameter and extra bytes.
    fn try_new(first: Self::FixedParam, extra: &[u8]) -> (r: Result<Self, Error>)
        ensures
            result_view(r) == Self::spec_new(first, extra@),
    ;

    /// The fixed parameter.
    fn fixed_param(&self) -> (r: Self::FixedParam)
        ensures
            r == self.spec_fixed_param(),
    ;

    /// The extra bytes.
    fn extra_params(&self) -> (r: &[u8])
        ensures
            r@ == self.spec_extra_params(),
    ;

    /// A value built from extra bytes keeps no more of them than it was
    /// given.
    proof fn lemma_new_extra(first: Self::FixedParam, extra: Seq<u8>)
        ensures
            Self::spec_new(first, extra) matches Ok(v) ==> v.spec_extra_params().len() <= extra.len(),
    ;
}

/// The extra bytes of a run whose bytes continue while their top bit is set,
/// seven bits each: up to and including the first byte with the top bit
/// clear, or to the end.
pub open spec fn continuation(s: Seq<u8>) -> Seq<u8>
    decreases s.len(),
{
    if s.len() == 0 {
        Seq::empty()
    } else if s[0] & 0x80u8 == 0 {
        seq![(s[0] & 0x7fu8) as u8]
    } else {
        seq![(s[0] & 0x7fu8) as u8] + continuation(s.drop_first())
    }
}

/// The extra bytes that follow the first byte of `bytes`: none unless its top
/// bit is set.
pub open spec fn tagged_extra(bytes: Seq<u8>) -> Seq<u8> {
    if bytes[0] & 0x80u8 == 0x80u8 {
        continuation(bytes.drop_first())
    } else {
        Seq::empty()
    }
}

/// The encoding of a first byte `head` and extra bytes `extra`: every byte
/// but the last has its top bit set.
pub open spec fn tagged_bytes(head: u8, extra: Seq<u8>) -> Seq<u8> {
    if extra.len() == 0 {
        seq![(head & 0x7fu8) as u8]
    } else {
        seq![(head | 0x80u8) as u8] + extra.drop_last().map_values(|b: u8| (b | 0x80u8) as u8) + seq![
            (extra.last() & 0x7fu8) as u8,
        ]
    }
}

/// The top bit of a byte, set and cleared.
pub proof fn lemma_top_bit()
    by (bit_vector)
    ensures
        forall|b: u8| #![auto] ((b | 0x80u8) & 0x80u8) == 0x80u8,
        forall|b: u8| #![auto] b < 0x80 ==> ((b | 0x80u8) & 0x7fu8) == b,
        forall|b: u8| #![auto] ((b & 0x7fu8) & 0x80u8) == 0,
        forall|b: u8| #![auto] b < 0x80 ==> (b & 0x7fu8) == b,
        forall|b: u8| #![auto] ((b & 0x7fu8) & 0x7fu8) == (b & 0x7fu8),
        forall|b: u8| #![auto] (b & 0x7fu8) < 0x80,
{
}

/// Extra bytes below `0x80` written with continuation bits read back,
/// whatever follows them.
pub proof fn lemma_continuation(extra: Seq<u8>, rest: Seq<u8>)
    requires
        extra.len() > 0,
        forall|i: int| 0 <= i < extra.len() ==> #[trigger] extra[i] < 0x80,
    ensures
        continuation(
            extra.drop_last().map_values(|b: u8| (b | 0x80u8) as u8) + seq![(extra.last() & 0x7fu8) as u8]
                + rest,
        ) == extra,
    decreases extra.len(),
{
    lemma_top_bit();
    let s = extra.drop_last().map_values(|b: u8| (b | 0x80u8) as u8) + seq![(extra.last() & 0x7fu8) as u8] + rest;
    if extra.len() == 1 {
        assert(s[0] == (extra[0] & 0x7fu8) as u8);
        assert(seq![(s[0] & 0x7fu8) as u8] =~= extra);
    } else {
        let tail = extra.drop_first();
        assert(s[0] == (extra[0] | 0x80u8) as u8);
        assert(s.drop_first() =~= tail.drop_last().map_values(|b: u8| (b | 0x80u8) as u8) + seq![
            (tail.last() & 0x7fu8) as u8,
        ] + rest);
        lemma_continuation(tail, rest);
        assert(seq![(s[0] & 0x7fu8) as u8] + tail =~= extra);
    }
}

/// Every byte that a run yields is below `0x80`.
pub proof fn lemma_continuation_small(s: Seq<u8>)
    ensures
        forall|i: int| 0 <= i < continuation(s).len() ==> #[trigger] continuation(s)[i] < 0x80,
        continuation(s).len() <= s.len(),
    decreases s.len(),
{
    lemma_top_bit();
    if s.len() > 0 && s[0] & 0x80u8 != 0 {
        lemma_continuation_small(s.drop_first());
        let c = continuation(s);
        assert forall|i: int| 0 <= i < c.len() implies #[trigger] c[i] < 0x80 by {
            if i > 0 {
                assert(c[i] == continuation(s.drop_first())[i - 1]);
            }
        }
    }
}

/// The extra bytes that follow the first byte of `bytes`, seven bits each.
pub fn read_extra(bytes: &[u8]) -> (r: Vec<u8>)
    requires
        bytes@.len() >= 1,
    ensures
        r@ == tagged_extra(bytes@),
{
    let mut extra: Vec<u8> = Vec::new();
    if bytes[0] & 0x80 == 0x80 {
        let mut offset: usize = 1;
        let mut done = false;
        while !done && offset < bytes.len()
            invariant
                1 <= offset <= bytes@.len(),
                done ==> extra@ == continuation(bytes@.drop_first()),
                !done ==> extra@ + continuation(bytes@.skip(offset as int)) == continuation(bytes@.drop_first()),
            decreases bytes@.len() - offset + (if done { 0int } else { 1int }),
        {
            let byte = bytes[offset];
            let ghost s = bytes@.skip(offset as int);
            proof {
                assert(s[0] == byte);
                assert(s.drop_first() =~= bytes@.skip(offset + 1));
            }
            extra.push(byte & 0x7f);
            if byte & 0x80 == 0 {
                done = true;
                proof {
                    assert(continuation(s) =~= seq![(byte & 0x7fu8) as u8]);
                }
            } else {
                offset = offset + 1;
            }
        }
        proof {
            if !done {
                assert(bytes@.skip(offset as int) =~= Seq::<u8>::empty());
            }
            assert(bytes@.skip(1) =~= bytes@.drop_first());
        }
    }
    extra
}

/// Decodes a tagged-length buffer from the start of `bytes`.
pub open spec fn tagged_parse<U: TaggedLengthBuffer>(bytes: Seq<u8>) -> Result<U, ErrorView> {
    if bytes.len() < 1 {
        Err(short_input(1, bytes.len() as usize))
    } else {
        match U::FixedParam::spec_try_from_u8((bytes[0] & 0x7fu8) as u8) {
            Err(e) => Err(e),
            Ok(first) => U::spec_new(first, tagged_extra(bytes)),
        }
    }
}

/// The bits that the tagged encoding sets and keeps.
proof fn lemma_tag_bits()
    by (bit_vector)
    ensures
        forall|b: u8| #![auto] ((b | 0x80u8) & 0x80u8) == 0x80u8,
        forall|b: u8| #![auto] ((b | 0x80u8) & 0x7fu8) == (b & 0x7fu8),
        forall|b: u8| #![auto] ((b & 0x7fu8) & 0x80u8) == 0,
        forall|b: u8| #![auto] ((b & 0x7fu8) & 0x7fu8) == (b & 0x7fu8),
{
}

/// The shape of the encoding of a tagged-length value with first byte
/// `head` and extra bytes `extra`: one byte more than the extra bytes, the
/// low seven bits of each byte carrying the first byte and then each extra
/// byte in order, and the top bit set on every byte but the last.
pub proof fn lemma_tagged_bytes_shape(head: u8, extra: Seq<u8>)
    ensures
        tagged_bytes(head, extra).len() == 1 + extra.len(),
        tagged_bytes(head, extra)[0] & 0x7fu8 == head & 0x7fu8,
        forall|i: int| 0 <= i < extra.len() ==> #[trigger] tagged_bytes(head, extra)[i + 1] & 0x7fu8
            == extra[i] & 0x7fu8,
        forall|i: int| 0 <= i < extra.len() ==> #[trigger] tagged_bytes(head, extra)[i] & 0x80u8 == 0x80u8,
        tagged_bytes(head, extra)[extra.len() as int] & 0x80u8 == 0,
{
    lemma_tag_bits();
    let out = tagged_bytes(head, extra);
    if extra.len() > 0 {
        let n = extra.len() as int;
        assert forall|i: int| 0 <= i < n implies #[trigger] out[i + 1] & 0x7fu8 == extra[i] & 0x7fu8 by {
            if i < n - 1 {
                assert(out[i + 1] == (extra[i] | 0x80u8) as u8);
            } else {
                assert(out[i + 1] == (extra.last() & 0x7fu8) as u8);
            }
        }
        assert forall|i: int| 0 <= i < n implies #[trigger] out[i] & 0x80u8 == 0x80u8 by {
            if i > 0 {
                assert(out[i] == (extra[i - 1] | 0x80u8) as u8);
            }
        }
        assert(out[n] == (extra.last() & 0x7fu8) as u8);
    }
}

impl<U: TaggedLengthBuffer> OperandEncodable for U {
    open spec fn spec_bytes(&self) -> Seq<u8> {
        tagged_bytes(self.spec_fixed_param().spec_into_u8(), self.spec_extra_params())
    }

    open spec fn spec_parse(bytes: Seq<u8>) -> Result<U, ErrorView> {
        tagged_parse::<U>(bytes)
    }

    open spec fn spec_wf(&self) -> bool {
        let first = self.spec_fixed_param();
        let extra = self.spec_extra_params();
        &&& first.spec_into_u8() < 0x80
        &&& U::FixedParam::spec_try_from_u8(first.spec_into_u8()) == Ok::<U::FixedParam, ErrorView>(first)
        &&& forall|i: int| 0 <= i < extra.len() ==> #[trigger] extra[i] < 0x80
        &&& U::spec_new(first, extra) == Ok::<U, ErrorView>(*self)
    }

    open spec fn spec_expected_len() -> RangeView {
        RangeView::AtLeast(1)
    }

    open spec fn spec_self_delimiting() -> bool {
        true
    }

    fn to_bytes(&self, buf: &mut Vec<u8>) {
        let head = self.fixed_param().into_u8();
        let extra = self.extra_params();
        if extra.len() > 0 {
            buf.push(head | 0x80);
            let ghost start = buf@;
            let mut i: usize = 0;
            while i < extra.len() - 1
                invariant
                    i <= extra@.len() - 1,
                    extra@.len() > 0,
                    buf@ == start + extra@.take(i as int).map_values(|b: u8| (b | 0x80u8) as u8),
                decreases extra@.len() - 1 - i,
            {
                buf.push(extra[i] | 0x80);
                proof {
                    assert(extra@.take(i + 1).map_values(|b: u8| (b | 0x80u8) as u8) =~= extra@.take(
                        i as int,
                    ).map_values(|b: u8| (b | 0x80u8) as u8).push((extra@[i as int] | 0x80u8) as u8));
                }
                i = i + 1;
            }
            buf.push(extra[extra.len() - 1] & 0x7f);
            proof {
                assert(extra@.take(i as int) =~= extra@.drop_last());
                assert(final(buf)@ =~= old(buf)@ + self.spec_bytes());
            }
        } else {
            buf.push(head & 0x7f);
            proof {
                assert(final(buf)@ =~= old(buf)@ + self.spec_bytes());
            }
        }
    }

    fn try_from_bytes(bytes: &[u8]) -> (r: Result<U, Error>) {
        if bytes.len() < 1 {
            return Err(Error::short_input(1, bytes.len()));
        }
        let first = match U::FixedParam::try_from_u8(bytes[0] & 0x7f) {
            Ok(v) => v,
            Err(e) => return Err(e),
        };
        let extra = read_extra(bytes);
        U::try_new(first, extra.as_slice())
    }

    fn len(&self) -> (r: usize) {
        let extra = self.extra_params();
        if extra.len() < usize::MAX {
            1 + extra.len()
        } else {
            usize::MAX
        }
    }

    fn expected_len() -> (r: Range) {
        Range::AtLeast(1)
    }

    proof fn lemma_roundtrip(&self, rest: Seq<u8>) {
        let first = self.spec_fixed_param();
        let extra = self.spec_extra_params();
        let head = first.spec_into_u8();
        let all = self.spec_bytes() + rest;
        lemma_top_bit();
        if extra.len() == 0 {
            assert(all[0] == (head & 0x7fu8) as u8);
            assert(tagged_extra(all) =~= extra);
        } else {
            assert(all[0] == (head | 0x80u8) as u8);
            assert(all.drop_first() =~= extra.drop_last().map_values(|b: u8| (b | 0x80u8) as u8) + seq![
                (extra.last() & 0x7fu8) as u8,
            ] + rest);
            lemma_continuation(extra, rest);
        }
    }

    proof fn lemma_parse_len(bytes: Seq<u8>) {
        if bytes.len() >= 1 {
            if let Ok(first) = U::FixedParam::spec_try_from_u8((bytes[0] & 0x7fu8) as u8) {
                let extra = tagged_extra(bytes);
                U::lemma_new_extra(first, extra);
                lemma_continuation_small(bytes.drop_first());
                if let Ok(v) = U::spec_new(first, extra) {
                    let e = v.spec_extra_params();
                    assert(v.spec_bytes().len() == 1 + e.len());
                }
            }
        }
    }
}

} // verus!
