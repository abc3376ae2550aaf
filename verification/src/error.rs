//! Errors and the ranges that describe what an error expected.

use tinyvec::ArrayVec;
use vstd::prelude::*;
use vstd::string::StringExecFns;

verus! {

/// The list type held by [`Range::Only`].
#[verifier::external_type_specification]
#[verifier::external_body]
#[verifier::reject_recursive_types(A)]
pub struct ExArrayVec<A>(ArrayVec<A>);

/// The values held by an `ArrayVec` of up to four lengths, in order.
pub uninterp spec fn only_items(v: ArrayVec<[usize; 4]>) -> Seq<usize>;

/// `ArrayVec::new`: the new vector holds no item.
#[verifier::external_body]
fn only_new() -> (r: ArrayVec<[usize; 4]>)
    ensures
        only_items(r) == Seq::<usize>::empty(),
{
    ArrayVec::new()
}

/// `ArrayVec::push`: appends `x`; it panics when the four slots are taken,
/// so a caller must leave room.
#[verifier::external_body]
fn only_push(v: &mut ArrayVec<[usize; 4]>, x: usize)
    requires
        only_items(*old(v)).len() < 4,
    ensures
        only_items(*final(v)) == only_items(*old(v)).push(x),
{
    v.push(x)
}

/// `ArrayVec::len`: the number of items held.
#[verifier::external_body]
fn only_len(v: &ArrayVec<[usize; 4]>) -> (r: usize)
    ensures
        r == only_items(*v).len(),
        r <= 4,
{
    v.len()
}

/// `ArrayVec::as_slice` followed by indexing: the item at `i`.
#[verifier::external_body]
fn only_get(v: &ArrayVec<[usize; 4]>, i: usize) -> (r: usize)
    requires
        i < only_items(*v).len(),
    ensures
        r == only_items(*v)[i as int],
{
    v.as_slice()[i]
}

/// `ArrayVec::clone`: a copy holding the same items.
#[verifier::external_body]
fn only_clone(v: &ArrayVec<[usize; 4]>) -> (r: ArrayVec<[usize; 4]>)
    ensures
        only_items(r) == only_items(*v),
{
    v.clone()
}

/// The error that parsing a name reports when no variant has that name.
#[verifier::external_type_specification]
#[verifier::external_body]
pub struct ExParseError(strum::ParseError);

/// `strum::ParseError::VariantNotFound`: the error for a name that no
/// variant has. Nothing is stated of the value.
#[verifier::external_body]
pub(crate) fn variant_not_found() -> (r: strum::ParseError) {
    strum::ParseError::VariantNotFound
}

/// `str == str`: true exactly when both strings hold the same characters.
#[verifier::external_body]
pub(crate) fn str_equal(a: &str, b: &str) -> (r: bool)
    ensures
        r == (a@ == b@),
{
    a == b
}

/// The character of a decimal digit `d < 10`.
pub open spec fn decimal_digit(d: nat) -> char {
    (48 + d) as char
}

/// The decimal representation of `n`, most significant digit first, as
/// `Display` writes an unsigned integer.
pub open spec fn decimal(n: nat) -> Seq<char>
    decreases n,
{
    if n < 10 {
        seq![decimal_digit(n)]
    } else {
        decimal(n / 10).push(decimal_digit(n % 10))
    }
}

/// Appends the decimal digit `d < 10`.
fn push_decimal_digit(s: &mut String, d: u64)
    requires
        d < 10,
    ensures
        final(s)@ == old(s)@.push(decimal_digit(d as nat)),
{
    let digit = match d {
        0 => "0",
        1 => "1",
        2 => "2",
        3 => "3",
        4 => "4",
        5 => "5",
        6 => "6",
        7 => "7",
        8 => "8",
        _ => "9",
    };
    proof {
        reveal_strlit("0");
        reveal_strlit("1");
        reveal_strlit("2");
        reveal_strlit("3");
        reveal_strlit("4");
        reveal_strlit("5");
        reveal_strlit("6");
        reveal_strlit("7");
        reveal_strlit("8");
        reveal_strlit("9");
    }
    s.append(digit);
}

/// Appends the decimal representation of `n`.
fn push_decimal(s: &mut String, n: u64)
    ensures
        final(s)@ == old(s)@ + decimal(n as nat),
    decreases n,
{
    if n >= 10 {
        push_decimal(s, n / 10);
    }
    push_decimal_digit(s, n % 10);
    proof {
        if n < 10 {
            assert(old(s)@.push(decimal_digit(n as nat)) =~= old(s)@ + decimal(n as nat));
        } else {
            assert(decimal(n as nat) == decimal((n / 10) as nat).push(decimal_digit((n % 10) as nat)));
            assert(final(s)@ =~= old(s)@ + decimal(n as nat));
        }
    }
}

/// The decimal representation of `n`, as `to_string` writes an unsigned
/// integer.
fn decimal_string(n: u64) -> (r: String)
    ensures
        r@ == decimal(n as nat),
{
    let mut s = String::new();
    push_decimal(&mut s, n);
    assert(s@ =~= decimal(n as nat));
    s
}

/// The decimal representation of `v`.
pub(crate) fn u8_decimal(v: u8) -> (r: String)
    ensures
        r@ == decimal(v as nat),
{
    decimal_string(v as u64)
}

/// The decimal representation of `v`.
pub(crate) fn u32_decimal(v: u32) -> (r: String)
    ensures
        r@ == decimal(v as nat),
{
    decimal_string(v as u64)
}

/// The decimal representation of `v`.
fn usize_decimal(v: usize) -> (r: String)
    ensures
        r@ == decimal(v as nat),
{
    decimal_string(v as u64)
}

/// The decimal representations of the values of `list`, separated by a
/// comma and a space.
pub open spec fn decimal_list(list: Seq<usize>) -> Seq<char>
    decreases list.len(),
{
    if list.len() == 0 {
        Seq::empty()
    } else if list.len() == 1 {
        decimal(list[0] as nat)
    } else {
        decimal_list(list.drop_last()) + ", "@ + decimal(list.last() as nat)
    }
}

/// A set of admissible values for a quantity, as reported in
/// [`Error::OutOfRange`].
#[derive(Debug, PartialEq, Eq)]
pub enum Range {
    AtMost(usize),
    AtLeast(usize),
    Exact(usize),
    Only(ArrayVec<[usize; 4]>),
    Interval { min: usize, max: usize },
}

/// The mathematical content of a [`Range`].
pub enum RangeView {
    AtMost(usize),
    AtLeast(usize),
    Exact(usize),
    Only(Seq<usize>),
    Interval { min: usize, max: usize },
}

impl RangeView {
    /// Whether `val` lies in the range.
    pub open spec fn admits(self, val: usize) -> bool {
        match self {
            RangeView::AtMost(max) => val <= max,
            RangeView::AtLeast(min) => val >= min,
            RangeView::Exact(x) => val == x,
            RangeView::Only(list) => list.contains(val),
            RangeView::Interval { min, max } => min <= val && val <= max,
        }
    }

    /// The range in words, such as `at most 14` or `between 1 and 251`.
    pub open spec fn text(self) -> Seq<char> {
        match self {
            RangeView::AtMost(max) => "at most "@ + decimal(max as nat),
            RangeView::AtLeast(min) => "at least "@ + decimal(min as nat),
            RangeView::Exact(x) => decimal(x as nat),
            RangeView::Only(list) => "one of "@ + decimal_list(list),
            RangeView::Interval { min, max } => "between "@ + decimal(min as nat) + " and "@ + decimal(
                max as nat,
            ),
        }
    }

    /// Every bound of the range moved by `rhs`, wrapping as `usize` addition
    /// wraps.
    pub open spec fn shifted(self, rhs: usize) -> RangeView {
        match self {
            RangeView::AtMost(max) => RangeView::AtMost(max.wrapping_add(rhs)),
            RangeView::AtLeast(min) => RangeView::AtLeast(min.wrapping_add(rhs)),
            RangeView::Exact(x) => RangeView::Exact(x.wrapping_add(rhs)),
            RangeView::Only(list) => RangeView::Only(list.map_values(|v: usize| v.wrapping_add(rhs))),
            RangeView::Interval { min, max } => RangeView::Interval {
                min: min.wrapping_add(rhs),
                max: max.wrapping_add(rhs),
            },
        }
    }
}

impl View for Range {
    type V = RangeView;

    open spec fn view(&self) -> RangeView {
        match self {
            Range::AtMost(max) => RangeView::AtMost(*max),
            Range::AtLeast(min) => RangeView::AtLeast(*min),
            Range::Exact(x) => RangeView::Exact(*x),
            Range::Only(list) => RangeView::Only(only_items(*list)),
            Range::Interval { min, max } => RangeView::Interval { min: *min, max: *max },
        }
    }
}

impl Range {
    /// A range of the listed values, `Range::Only` with two items.
    pub fn only_two(a: usize, b: usize) -> (r: Range)
        ensures
            r@ == RangeView::Only(seq![a, b]),
    {
        let mut list = only_new();
        only_push(&mut list, a);
        only_push(&mut list, b);
        proof {
            assert(only_items(list) =~= seq![a, b]);
        }
        Range::Only(list)
    }

    /// The range in words, such as `at most 14`, `one of 2, 4` or
    /// `between 1 and 251`.
    pub fn to_string(&self) -> (r: String)
        ensures
            r@ == self@.text(),
    {
        match self {
            Range::AtMost(max) => {
                let mut s = String::from_str("at most ");
                s.append(usize_decimal(*max).as_str());
                s
            },
            Range::AtLeast(min) => {
                let mut s = String::from_str("at least ");
                s.append(usize_decimal(*min).as_str());
                s
            },
            Range::Exact(x) => usize_decimal(*x),
            Range::Only(list) => {
                let n = only_len(list);
                let mut joined = String::new();
                let mut i: usize = 0;
                while i < n
                    invariant
                        n == only_items(*list).len(),
                        i <= n,
                        joined@ == decimal_list(only_items(*list).take(i as int)),
                    decreases n - i,
                {
                    let v = only_get(list, i);
                    proof {
                        let t = only_items(*list).take(i + 1);
                        assert(t.drop_last() =~= only_items(*list).take(i as int));
                        assert(t.last() == v);
                    }
                    if i > 0 {
                        joined.append(", ");
                    }
                    joined.append(usize_decimal(v).as_str());
                    i = i + 1;
                }
                proof {
                    assert(only_items(*list).take(n as int) =~= only_items(*list));
                }
                let mut s = String::from_str("one of ");
                s.append(joined.as_str());
                s
            },
            Range::Interval { min, max } => {
                let mut s = String::from_str("between ");
                s.append(usize_decimal(*min).as_str());
                s.append(" and ");
                s.append(usize_decimal(*max).as_str());
                s
            },
        }
    }

    /// Whether `val` lies in the range.
    pub fn admits(&self, val: usize) -> (r: bool)
        ensures
            r == self@.admits(val),
    {
        match self {
            Range::AtMost(max) => val <= *max,
            Range::AtLeast(min) => val >= *min,
            Range::Exact(x) => val == *x,
            Range::Only(list) => {
                let n = only_len(list);
                let mut i: usize = 0;
                while i < n
                    invariant
                        self@ == RangeView::Only(only_items(*list)),
                        n == only_items(*list).len(),
                        i <= n,
                        forall|j: int| 0 <= j < i ==> only_items(*list)[j] != val,
                    decreases n - i,
                {
                    if only_get(list, i) == val {
                        proof {
                            assert(only_items(*list)[i as int] == val);
                        }
                        return true;
                    }
                    i = i + 1;
                }
                false
            },
            Range::Interval { min, max } => *min <= val && val <= *max,
        }
    }

    /// Succeeds when `val` lies in the range; otherwise reports
    /// [`Error::OutOfRange`] with this range, `val` and `quantity`.
    pub fn check(self, val: usize, quantity: &'static str) -> (r: Result<(), Error>)
        ensures
            r is Ok <==> self@.admits(val),
            r matches Err(e) ==> e@ == (ErrorView::OutOfRange {
                expected: self@,
                got: val,
                quantity: quantity@,
            }),
    {
        if self.admits(val) {
            Ok(())
        } else {
            Err(Error::OutOfRange { expected: self, got: val, quantity })
        }
    }

    /// Every bound of the range moved by `rhs` (wrapping on overflow, as
    /// `usize` addition does in release builds).
    pub fn add(self, rhs: usize) -> (r: Range)
        ensures
            r@ == self@.shifted(rhs),
    {
        match self {
            Range::AtMost(max) => Range::AtMost(max.wrapping_add(rhs)),
            Range::AtLeast(min) => Range::AtLeast(min.wrapping_add(rhs)),
            Range::Exact(x) => Range::Exact(x.wrapping_add(rhs)),
            Range::Only(list) => {
                let n = only_len(&list);
                let mut out = only_new();
                let mut i: usize = 0;
                while i < n
                    invariant
                        n == only_items(list).len(),
                        n <= 4,
                        i <= n,
                        only_items(out) =~= only_items(list).take(i as int).map_values(
                            |v: usize| v.wrapping_add(rhs),
                        ),
                    decreases n - i,
                {
                    let v = only_get(&list, i);
                    only_push(&mut out, v.wrapping_add(rhs));
                    proof {
                        assert(only_items(list).take(i + 1) =~= only_items(list).take(
                            i as int,
                        ).push(v));
                    }
                    i = i + 1;
                }
                proof {
                    assert(only_items(list).take(n as int) =~= only_items(list));
                }
                Range::Only(out)
            },
            Range::Interval { min, max } => Range::Interval {
                min: min.wrapping_add(rhs),
                max: max.wrapping_add(rhs),
            },
        }
    }
}

impl Clone for Range {
    fn clone(&self) -> (r: Range)
        ensures
            r@ == self@,
    {
        match self {
            Range::AtMost(max) => Range::AtMost(*max),
            Range::AtLeast(min) => Range::AtLeast(*min),
            Range::Exact(x) => Range::Exact(*x),
            Range::Only(list) => Range::Only(only_clone(list)),
            Range::Interval { min, max } => Range::Interval { min: *min, max: *max },
        }
    }
}

/// The receive error codes of the kernel interface.
#[derive(Clone, Copy, Debug, PartialEq, Eq)]
pub enum RxError {
    Timeout,
    FeatureAbort,
    Aborted,
}

/// The transmit error codes of the kernel interface.
#[derive(Clone, Copy, Debug, PartialEq, Eq)]
pub enum TxError {
    ArbLost,
    Nack,
    LowDrive,
    UnknownError,
    MaxRetries,
    Aborted,
    Timeout,
}

/// A set of common errors.
#[derive(Debug, PartialEq)]
pub enum Error {
    /// A value of a given `quantity` was outside of the `expected` range.
    OutOfRange { expected: Range, got: usize, quantity: &'static str },
    /// Got a `value` for a given type that was invalid for that `ty`.
    InvalidValueForType { ty: &'static str, value: String },
    /// Got generic invalid data.
    InvalidData,
    /// A timeout occurred.
    Timeout,
    /// A request was aborted.
    Abort,
    /// A generic system error occurred.
    SystemError,
    /// An unhandled system error, by its errno code.
    Errno(i32),
    /// An error while transmitting a message.
    TxError(TxError),
    /// An error while receiving a message.
    RxError(RxError),
    /// An error that does not map to any of the other error types.
    UnknownError(String),
}

impl Clone for Error {
    fn clone(&self) -> (r: Error)
        ensures
            r@ == self@,
    {
        match self {
            Error::OutOfRange { expected, got, quantity } => Error::OutOfRange {
                expected: expected.clone(),
                got: *got,
                quantity: *quantity,
            },
            Error::InvalidValueForType { ty, value } => Error::InvalidValueForType {
                ty: *ty,
                value: value.clone(),
            },
            Error::InvalidData => Error::InvalidData,
            Error::Timeout => Error::Timeout,
            Error::Abort => Error::Abort,
            Error::SystemError => Error::SystemError,
            Error::Errno(n) => Error::Errno(*n),
            Error::TxError(e) => Error::TxError(*e),
            Error::RxError(e) => Error::RxError(*e),
            Error::UnknownError(s) => Error::UnknownError(s.clone()),
        }
    }
}

/// The mathematical content of an [`Error`].
pub enum ErrorView {
    OutOfRange { expected: RangeView, got: usize, quantity: Seq<char> },
    InvalidValueForType { ty: Seq<char>, value: Seq<char> },
    InvalidData,
    Timeout,
    Abort,
    SystemError,
    Errno(i32),
    TxError(TxError),
    RxError(RxError),
    UnknownError(Seq<char>),
}

impl View for Error {
    type V = ErrorView;

    open spec fn view(&self) -> ErrorView {
        match self {
            Error::OutOfRange { expected, got, quantity } => ErrorView::OutOfRange {
                expected: expected@,
                got: *got,
                quantity: quantity@,
            },
            Error::InvalidValueForType { ty, value } => ErrorView::InvalidValueForType {
                ty: ty@,
                value: value@,
            },
            Error::InvalidData => ErrorView::InvalidData,
            Error::Timeout => ErrorView::Timeout,
            Error::Abort => ErrorView::Abort,
            Error::SystemError => ErrorView::SystemError,
            Error::Errno(n) => ErrorView::Errno(*n),
            Error::TxError(e) => ErrorView::TxError(*e),
            Error::RxError(e) => ErrorView::RxError(*e),
            Error::UnknownError(s) => ErrorView::UnknownError(s@),
        }
    }
}

/// The error for a byte string of `got` bytes where at least `min` were needed.
pub open spec fn short_input(min: usize, got: usize) -> ErrorView {
    ErrorView::OutOfRange { expected: RangeView::AtLeast(min), got, quantity: "bytes"@ }
}

/// The error for a byte `value` that names no variant of the type `ty`.
pub open spec fn invalid_value(ty: Seq<char>, value: nat) -> ErrorView {
    ErrorView::InvalidValueForType { ty, value: decimal(value) }
}

impl ErrorView {
    /// The error as seen from `offset` bytes earlier in the input: a shortage
    /// of bytes has both its bounds and its count moved by `offset`; every
    /// other error is unchanged.
    pub open spec fn offset_by(self, offset: usize) -> ErrorView {
        match self {
            ErrorView::OutOfRange { expected, got, quantity } => if quantity == "bytes"@ {
                ErrorView::OutOfRange {
                    expected: expected.shifted(offset),
                    got: got.wrapping_add(offset),
                    quantity,
                }
            } else {
                self
            },
            _ => self,
        }
    }
}

/// Lifts an error of a nested parse to its place `offset` bytes into the
/// enclosing input.
pub open spec fn offset_result<T>(r: Result<T, ErrorView>, offset: usize) -> Result<T, ErrorView> {
    match r {
        Ok(v) => Ok(v),
        Err(e) => Err(e.offset_by(offset)),
    }
}

impl Error {
    /// The error as seen from `offset` bytes earlier in the input: a shortage
    /// of bytes has both its bounds and its count moved by `offset`; every
    /// other error is returned unchanged.
    pub fn add_offset(self, offset: usize) -> (r: Error)
        ensures
            r@ == self@.offset_by(offset),
    {
        match self {
            Error::OutOfRange { expected, got, quantity } => {
                if str_equal(quantity, "bytes") {
                    Error::OutOfRange {
                        expected: expected.add(offset),
                        got: got.wrapping_add(offset),
                        quantity,
                    }
                } else {
                    Error::OutOfRange { expected, got, quantity }
                }
            },
            _ => self,
        }
    }

    /// The shortage error: at least `min` bytes were needed and `got` were given.
    pub fn short_input(min: usize, got: usize) -> (r: Error)
        ensures
            r@ == short_input(min, got),
    {
        Error::OutOfRange { expected: Range::AtLeast(min), got, quantity: "bytes" }
    }

    /// The error for a byte value that names no variant of the type `ty`.
    pub fn invalid_value(ty: &'static str, value: u8) -> (r: Error)
        ensures
            r@ == invalid_value(ty@, value as nat),
    {
        Error::InvalidValueForType { ty, value: u8_decimal(value) }
    }
}

} // verus!
