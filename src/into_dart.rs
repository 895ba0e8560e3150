//! The encoding of native values into messages.
use vstd::prelude::*;

use crate::dart_array::DartArray;
use crate::ffi::{
    DartCObject, DartCObjectValue, DartNativeExternalTypedData, DartNativeTypedData,
    DartTypedDataType, DartValue, TypedElements, ZeroCopyBuffer,
};
use vstd::slice::slice_to_vec;
use vstd::utf8::{encode_utf8, is_ascii_chars, is_ascii_chars_encode_utf8};

verus! {

/// A value that can be sent to an isolate: it encodes into exactly one
/// message, and the encoding cannot fail.
pub trait IntoDart: Sized {
    /// The content of the message that the value encodes into.
    spec fn dart_view(&self) -> DartValue;

    /// Consumes the value and builds its message.
    fn into_dart(self) -> (r: DartCObject)
        ensures
            r@ == self.dart_view(),
    ;
}

/// An [`IntoDart`] value that is not a primitive with a typed-data form. A
/// `Vec` of such values encodes as an array of messages, whereas a `Vec` of
/// primitives encodes as one typed buffer.
pub trait IntoDartExceptPrimitive: IntoDart {

}

impl IntoDart for DartCObject {
    open spec fn dart_view(&self) -> DartValue {
        self@
    }

    fn into_dart(self) -> (r: DartCObject) {
        self
    }
}

impl IntoDartExceptPrimitive for DartCObject {

}

/// The unit value encodes as null.
impl IntoDart for () {
    open spec fn dart_view(&self) -> DartValue {
        DartValue::Null
    }

    fn into_dart(self) -> (r: DartCObject) {
        DartCObject { value: DartCObjectValue::Null }
    }
}

impl IntoDartExceptPrimitive for () {

}

impl IntoDart for bool {
    open spec fn dart_view(&self) -> DartValue {
        DartValue::Bool(*self)
    }

    fn into_dart(self) -> (r: DartCObject) {
        DartCObject { value: DartCObjectValue::Bool(self) }
    }
}

impl IntoDartExceptPrimitive for bool {

}

impl IntoDart for i32 {
    open spec fn dart_view(&self) -> DartValue {
        DartValue::Int32(*self)
    }

    fn into_dart(self) -> (r: DartCObject) {
        DartCObject { value: DartCObjectValue::Int32(self) }
    }
}

impl IntoDart for i64 {
    open spec fn dart_view(&self) -> DartValue {
        DartValue::Int64(*self)
    }

    fn into_dart(self) -> (r: DartCObject) {
        DartCObject { value: DartCObjectValue::Int64(self) }
    }
}

/// The bytes that a string message carries for the UTF-8 text `b`: the text
/// itself, or, where it holds a nul byte and so has no nul-terminated form,
/// the empty string. This fallback is a deliberate loss of information.
pub open spec fn text_payload(b: Seq<u8>) -> Seq<u8> {
    if b.contains(0u8) {
        Seq::empty()
    } else {
        b
    }
}

/// Whether `b` holds a nul byte.
fn has_nul(b: &Vec<u8>) -> (r: bool)
    ensures
        r == b@.contains(0u8),
{
    let mut i: usize = 0;
    while i < b.len()
        invariant
            i <= b@.len(),
            forall|j: int| 0 <= j < i ==> b@[j] != 0u8,
        decreases b@.len() - i,
    {
        if b[i] == 0u8 {
            assert(b@[i as int] == 0u8);
            return true;
        }
        i = i + 1;
    }
    false
}

/// Encodes a text as a string message, with the empty-string fallback for a
/// text that holds a nul byte.
pub fn text_into_dart(s: &str) -> (r: DartCObject)
    ensures
        r@ == DartValue::Str(text_payload(encode_utf8(s@))),
{
    let bytes = slice_to_vec(s.as_bytes());
    if has_nul(&bytes) {
        DartCObject { value: DartCObjectValue::Str(Vec::new()) }
    } else {
        DartCObject { value: DartCObjectValue::Str(bytes) }
    }
}

impl IntoDart for String {
    open spec fn dart_view(&self) -> DartValue {
        DartValue::Str(text_payload(encode_utf8(self@)))
    }

    fn into_dart(self) -> (r: DartCObject) {
        text_into_dart(self.as_str())
    }
}

impl IntoDartExceptPrimitive for String {

}

impl<'a> IntoDart for &'a str {
    open spec fn dart_view(&self) -> DartValue {
        DartValue::Str(text_payload(encode_utf8((*self)@)))
    }

    fn into_dart(self) -> (r: DartCObject) {
        text_into_dart(self)
    }
}

impl<'a> IntoDartExceptPrimitive for &'a str {

}

impl<T: IntoDart> IntoDart for Result<T, String> {
    /// A success encodes its value; a failure collapses to the string of its
    /// description.
    open spec fn dart_view(&self) -> DartValue {
        match self {
            Ok(v) => v.dart_view(),
            Err(e) => e.dart_view(),
        }
    }

    fn into_dart(self) -> (r: DartCObject) {
        match self {
            Ok(v) => v.into_dart(),
            Err(e) => e.into_dart(),
        }
    }
}

impl<T: IntoDart> IntoDartExceptPrimitive for Result<T, String> {

}

/// The character of a decimal digit.
pub open spec fn digit_char(d: nat) -> char {
    if d == 0 {
        '0'
    } else if d == 1 {
        '1'
    } else if d == 2 {
        '2'
    } else if d == 3 {
        '3'
    } else if d == 4 {
        '4'
    } else if d == 5 {
        '5'
    } else if d == 6 {
        '6'
    } else if d == 7 {
        '7'
    } else if d == 8 {
        '8'
    } else {
        '9'
    }
}

/// The decimal digits of `n`, most significant first, without leading zeros.
pub open spec fn decimal_digits(n: nat) -> Seq<char>
    decreases n,
{
    if n < 10 {
        seq![digit_char(n)]
    } else {
        decimal_digits(n / 10).push(digit_char(n % 10))
    }
}

/// The canonical decimal rendering of an integer: a minus sign for a negative
/// one, then its digits.
pub open spec fn decimal(x: int) -> Seq<char> {
    if x < 0 {
        seq!['-'] + decimal_digits((-x) as nat)
    } else {
        decimal_digits(x as nat)
    }
}

/// Relies on `ToString` through the standard library's `Display` of `i128`,
/// which writes the integer in decimal.
#[verifier::external_body]
fn i128_to_decimal(x: i128) -> (r: String)
    ensures
        r@ == decimal(x as int),
{
    x.to_string()
}

/// Relies on `ToString` through the standard library's `Display` of `u128`,
/// which writes the integer in decimal.
#[verifier::external_body]
fn u128_to_decimal(x: u128) -> (r: String)
    ensures
        r@ == decimal(x as int),
{
    x.to_string()
}

impl IntoDart for i128 {
    /// No slot holds 128 bits: the value travels as its decimal string.
    open spec fn dart_view(&self) -> DartValue {
        DartValue::Str(text_payload(encode_utf8(decimal(*self as int))))
    }

    fn into_dart(self) -> (r: DartCObject) {
        i128_to_decimal(self).into_dart()
    }
}

impl IntoDart for u128 {
    /// No slot holds 128 bits: the value travels as its decimal string.
    open spec fn dart_view(&self) -> DartValue {
        DartValue::Str(text_payload(encode_utf8(decimal(*self as int))))
    }

    fn into_dart(self) -> (r: DartCObject) {
        u128_to_decimal(self).into_dart()
    }
}

impl IntoDart for i8 {
    /// Widened into the 32-bit slot.
    open spec fn dart_view(&self) -> DartValue {
        DartValue::Int32(*self as i32)
    }

    fn into_dart(self) -> (r: DartCObject) {
        DartCObject { value: DartCObjectValue::Int32(self as i32) }
    }
}

impl IntoDart for i16 {
    /// Widened into the 32-bit slot.
    open spec fn dart_view(&self) -> DartValue {
        DartValue::Int32(*self as i32)
    }

    fn into_dart(self) -> (r: DartCObject) {
        DartCObject { value: DartCObjectValue::Int32(self as i32) }
    }
}

impl IntoDart for u8 {
    /// Widened into the 32-bit slot.
    open spec fn dart_view(&self) -> DartValue {
        DartValue::Int32(*self as i32)
    }

    fn into_dart(self) -> (r: DartCObject) {
        DartCObject { value: DartCObjectValue::Int32(self as i32) }
    }
}

impl IntoDart for u16 {
    /// Widened into the 32-bit slot.
    open spec fn dart_view(&self) -> DartValue {
        DartValue::Int32(*self as i32)
    }

    fn into_dart(self) -> (r: DartCObject) {
        DartCObject { value: DartCObjectValue::Int32(self as i32) }
    }
}

impl IntoDart for u32 {
    /// Carried in the 32-bit slot with its bit pattern: a value above
    /// `i32::MAX` reads as negative there.
    open spec fn dart_view(&self) -> DartValue {
        DartValue::Int32(*self as i32)
    }

    fn into_dart(self) -> (r: DartCObject) {
        DartCObject { value: DartCObjectValue::Int32(self as i32) }
    }
}

impl IntoDart for u64 {
    /// Carried in the 64-bit slot with its bit pattern: a value above
    /// `i64::MAX` reads as negative there.
    open spec fn dart_view(&self) -> DartValue {
        DartValue::Int64(*self as i64)
    }

    fn into_dart(self) -> (r: DartCObject) {
        DartCObject { value: DartCObjectValue::Int64(self as i64) }
    }
}

impl IntoDart for usize {
    /// Carried in the 64-bit slot with its bit pattern; an address travels
    /// this way as an opaque token.
    open spec fn dart_view(&self) -> DartValue {
        DartValue::Int64(*self as i64)
    }

    fn into_dart(self) -> (r: DartCObject) {
        DartCObject { value: DartCObjectValue::Int64(self as i64) }
    }
}

impl IntoDart for isize {
    /// Carried in the 64-bit slot.
    open spec fn dart_view(&self) -> DartValue {
        DartValue::Int64(*self as i64)
    }

    fn into_dart(self) -> (r: DartCObject) {
        DartCObject { value: DartCObjectValue::Int64(self as i64) }
    }
}

/// Every integer of at most 32 bits travels in the 32-bit slot, and reading
/// the slot back with the source's signedness gives the integer again.
pub proof fn lemma_int32_slot_round_trip(a: i8, b: i16, c: i32, d: u8, e: u16, f: u32)
    ensures
        a.dart_view() is Int32 && a.dart_view()->Int32_0 as i8 == a,
        b.dart_view() is Int32 && b.dart_view()->Int32_0 as i16 == b,
        c.dart_view() is Int32 && c.dart_view()->Int32_0 == c,
        d.dart_view() is Int32 && d.dart_view()->Int32_0 as u8 == d,
        e.dart_view() is Int32 && e.dart_view()->Int32_0 as u16 == e,
        f.dart_view() is Int32 && f.dart_view()->Int32_0 as u32 == f,
{
    assert((f as i32) as u32 == f) by (bit_vector);
}

/// Every 64-bit integer travels in the 64-bit slot, and reading the slot back
/// with the source's signedness gives the integer again.
pub proof fn lemma_int64_slot_round_trip(a: i64, b: u64)
    ensures
        a.dart_view() is Int64 && a.dart_view()->Int64_0 == a,
        b.dart_view() is Int64 && b.dart_view()->Int64_0 as u64 == b,
{
    assert((b as i64) as u64 == b) by (bit_vector);
}

/// The digits of a decimal rendering are ASCII and none is a nul byte.
proof fn lemma_decimal_digits_plain(n: nat)
    ensures
        is_ascii_chars(decimal_digits(n)),
        forall|i: int| 0 <= i < decimal_digits(n).len() ==> '0' <= #[trigger] decimal_digits(n)[i] <= '9',
    decreases n,
{
    if n >= 10 {
        lemma_decimal_digits_plain(n / 10);
    }
}

/// The UTF-8 bytes of a decimal rendering hold no nul byte.
proof fn lemma_decimal_has_no_nul(x: int)
    ensures
        !encode_utf8(decimal(x)).contains(0u8),
{
    let d = decimal(x);
    lemma_decimal_digits_plain(if x < 0 { (-x) as nat } else { x as nat });
    assert(is_ascii_chars(d));
    assert(forall|i: int| 0 <= i < d.len() ==> d[i] == '-' || '0' <= #[trigger] d[i] <= '9');
    is_ascii_chars_encode_utf8(d);
    assert forall|i: int| 0 <= i < encode_utf8(d).len() implies #[trigger] encode_utf8(d)[i] != 0u8 by {
        assert(d[i] as u8 == encode_utf8(d)[i]);
    }
}

/// A 128-bit integer travels as a string, and the string is exactly the
/// canonical decimal rendering of the integer.
pub proof fn lemma_int128_as_decimal(a: i128, b: u128)
    ensures
        a.dart_view() == DartValue::Str(encode_utf8(decimal(a as int))),
        b.dart_view() == DartValue::Str(encode_utf8(decimal(b as int))),
{
    lemma_decimal_has_no_nul(a as int);
    lemma_decimal_has_no_nul(b as int);
}

impl<T: IntoDart> IntoDart for Option<T> {
    /// Absence encodes as null.
    open spec fn dart_view(&self) -> DartValue {
        match self {
            Some(v) => v.dart_view(),
            None => DartValue::Null,
        }
    }

    fn into_dart(self) -> (r: DartCObject) {
        match self {
            Some(v) => v.into_dart(),
            None => ().into_dart(),
        }
    }
}

impl<T: IntoDart> IntoDartExceptPrimitive for Option<T> {

}

impl<T: IntoDartExceptPrimitive> IntoDart for Vec<T> {
    /// A sequence of non-primitive values encodes as an array of their
    /// messages, in order.
    open spec fn dart_view(&self) -> DartValue {
        DartValue::Array(self@.map_values(|x: T| x.dart_view()))
    }

    fn into_dart(self) -> (r: DartCObject) {
        DartArray::from_vec(self).into_dart()
    }
}

impl<T: IntoDartExceptPrimitive> IntoDartExceptPrimitive for Vec<T> {

}

/// A primitive element type with a typed-data form.
pub trait DartTypedDataTypeTrait: Sized + Copy {
    /// The element type tag of a buffer of `Self`.
    spec fn spec_typed_data_type() -> DartTypedDataType;

    /// The element's value, as the model of a typed buffer holds it.
    spec fn element_value(&self) -> int;

    fn dart_typed_data_type() -> (r: DartTypedDataType)
        ensures
            r == Self::spec_typed_data_type(),
    ;

    /// Tags an exact allocation of elements with their element type.
    fn into_typed_elements(b: Box<[Self]>) -> (r: TypedElements)
        ensures
            r.element_type() == Self::spec_typed_data_type(),
            r.elements() == b@.map_values(|x: Self| x.element_value()),
    ;
}

/// The elements of a typed buffer built from `s`.
pub open spec fn typed_elements_of<T: DartTypedDataTypeTrait>(s: Seq<T>) -> Seq<int> {
    s.map_values(|x: T| x.element_value())
}

/// Relies on `Vec::into_boxed_slice`: the same elements, in one allocation
/// without spare capacity.
#[verifier::external_body]
fn into_exact_allocation<T>(v: Vec<T>) -> (r: Box<[T]>)
    ensures
        r@ == v@,
{
    v.into_boxed_slice()
}

/// The copy strategy: the elements move into an owned buffer of exactly their
/// length, which the message's teardown reclaims.
pub fn vec_to_dart_native_typed_data<T: DartTypedDataTypeTrait>(v: Vec<T>) -> (r: DartCObject)
    ensures
        r@ == DartValue::TypedData(T::spec_typed_data_type(), typed_elements_of(v@)),
        typed_elements_of(v@).len() == v@.len(),
{
    let values = T::into_typed_elements(into_exact_allocation(v));
    DartCObject { value: DartCObjectValue::TypedData(DartNativeTypedData { values }) }
}

/// The zero-copy strategy: the allocation, shrunk to its length, is handed
/// over without duplicating it; from then on only its release callback
/// reclaims it.
pub fn vec_to_dart_native_external_typed_data<T: DartTypedDataTypeTrait>(v: Vec<T>) -> (r:
    DartCObject)
    ensures
        r@ == DartValue::ExternalTypedData(T::spec_typed_data_type(), typed_elements_of(v@)),
        typed_elements_of(v@).len() == v@.len(),
{
    let data = T::into_typed_elements(into_exact_allocation(v));
    DartCObject {
        value: DartCObjectValue::ExternalTypedData(DartNativeExternalTypedData::new(data)),
    }
}

impl<T: DartTypedDataTypeTrait> IntoDart for ZeroCopyBuffer<Vec<T>> {
    open spec fn dart_view(&self) -> DartValue {
        DartValue::ExternalTypedData(T::spec_typed_data_type(), typed_elements_of(self.0@))
    }

    fn into_dart(self) -> (r: DartCObject) {
        vec_to_dart_native_external_typed_data(self.0)
    }
}

impl<T: DartTypedDataTypeTrait> IntoDartExceptPrimitive for ZeroCopyBuffer<Vec<T>> {

}

impl DartTypedDataTypeTrait for i8 {
    open spec fn spec_typed_data_type() -> DartTypedDataType {
        DartTypedDataType::Int8
    }

    open spec fn element_value(&self) -> int {
        *self as int
    }

    fn dart_typed_data_type() -> (r: DartTypedDataType) {
        DartTypedDataType::Int8
    }

    fn into_typed_elements(b: Box<[i8]>) -> (r: TypedElements) {
        let r = TypedElements::Int8(b);
        assert(r.elements() =~= b@.map_values(|x: i8| x.element_value()));
        r
    }
}

impl IntoDart for Vec<i8> {
    /// A sequence of primitives encodes as one typed buffer.
    open spec fn dart_view(&self) -> DartValue {
        DartValue::TypedData(DartTypedDataType::Int8, typed_elements_of(self@))
    }

    fn into_dart(self) -> (r: DartCObject) {
        vec_to_dart_native_typed_data(self)
    }
}

impl DartTypedDataTypeTrait for u8 {
    open spec fn spec_typed_data_type() -> DartTypedDataType {
        DartTypedDataType::Uint8
    }

    open spec fn element_value(&self) -> int {
        *self as int
    }

    fn dart_typed_data_type() -> (r: DartTypedDataType) {
        DartTypedDataType::Uint8
    }

    fn into_typed_elements(b: Box<[u8]>) -> (r: TypedElements) {
        let r = TypedElements::Uint8(b);
        assert(r.elements() =~= b@.map_values(|x: u8| x.element_value()));
        r
    }
}

impl IntoDart for Vec<u8> {
    /// A sequence of primitives encodes as one typed buffer.
    open spec fn dart_view(&self) -> DartValue {
        DartValue::TypedData(DartTypedDataType::Uint8, typed_elements_of(self@))
    }

    fn into_dart(self) -> (r: DartCObject) {
        vec_to_dart_native_typed_data(self)
    }
}

impl DartTypedDataTypeTrait for i16 {
    open spec fn spec_typed_data_type() -> DartTypedDataType {
        DartTypedDataType::Int16
    }

    open spec fn element_value(&self) -> int {
        *self as int
    }

    fn dart_typed_data_type() -> (r: DartTypedDataType) {
        DartTypedDataType::Int16
    }

    fn into_typed_elements(b: Box<[i16]>) -> (r: TypedElements) {
        let r = TypedElements::Int16(b);
        assert(r.elements() =~= b@.map_values(|x: i16| x.element_value()));
        r
    }
}

impl IntoDart for Vec<i16> {
    /// A sequence of primitives encodes as one typed buffer.
    open spec fn dart_view(&self) -> DartValue {
        DartValue::TypedData(DartTypedDataType::Int16, typed_elements_of(self@))
    }

    fn into_dart(self) -> (r: DartCObject) {
        vec_to_dart_native_typed_data(self)
    }
}

impl DartTypedDataTypeTrait for u16 {
    open spec fn spec_typed_data_type() -> DartTypedDataType {
        DartTypedDataType::Uint16
    }

    open spec fn element_value(&self) -> int {
        *self as int
    }

    fn dart_typed_data_type() -> (r: DartTypedDataType) {
        DartTypedDataType::Uint16
    }

    fn into_typed_elements(b: Box<[u16]>) -> (r: TypedElements) {
        let r = TypedElements::Uint16(b);
        assert(r.elements() =~= b@.map_values(|x: u16| x.element_value()));
        r
    }
}

impl IntoDart for Vec<u16> {
    /// A sequence of primitives encodes as one typed buffer.
    open spec fn dart_view(&self) -> DartValue {
        DartValue::TypedData(DartTypedDataType::Uint16, typed_elements_of(self@))
    }

    fn into_dart(self) -> (r: DartCObject) {
        vec_to_dart_native_typed_data(self)
    }
}

impl DartTypedDataTypeTrait for i32 {
    open spec fn spec_typed_data_type() -> DartTypedDataType {
        DartTypedDataType::Int32
    }

    open spec fn element_value(&self) -> int {
        *self as int
    }

    fn dart_typed_data_type() -> (r: DartTypedDataType) {
        DartTypedDataType::Int32
    }

    fn into_typed_elements(b: Box<[i32]>) -> (r: TypedElements) {
        let r = TypedElements::Int32(b);
        assert(r.elements() =~= b@.map_values(|x: i32| x.element_value()));
        r
    }
}

impl IntoDart for Vec<i32> {
    /// A sequence of primitives encodes as one typed buffer.
    open spec fn dart_view(&self) -> DartValue {
        DartValue::TypedData(DartTypedDataType::Int32, typed_elements_of(self@))
    }

    fn into_dart(self) -> (r: DartCObject) {
        vec_to_dart_native_typed_data(self)
    }
}

impl DartTypedDataTypeTrait for u32 {
    open spec fn spec_typed_data_type() -> DartTypedDataType {
        DartTypedDataType::Uint32
    }

    open spec fn element_value(&self) -> int {
        *self as int
    }

    fn dart_typed_data_type() -> (r: DartTypedDataType) {
        DartTypedDataType::Uint32
    }

    fn into_typed_elements(b: Box<[u32]>) -> (r: TypedElements) {
        let r = TypedElements::Uint32(b);
        assert(r.elements() =~= b@.map_values(|x: u32| x.element_value()));
        r
    }
}

impl IntoDart for Vec<u32> {
    /// A sequence of primitives encodes as one typed buffer.
    open spec fn dart_view(&self) -> DartValue {
        DartValue::TypedData(DartTypedDataType::Uint32, typed_elements_of(self@))
    }

    fn into_dart(self) -> (r: DartCObject) {
        vec_to_dart_native_typed_data(self)
    }
}

impl DartTypedDataTypeTrait for i64 {
    open spec fn spec_typed_data_type() -> DartTypedDataType {
        DartTypedDataType::Int64
    }

    open spec fn element_value(&self) -> int {
        *self as int
    }

    fn dart_typed_data_type() -> (r: DartTypedDataType) {
        DartTypedDataType::Int64
    }

    fn into_typed_elements(b: Box<[i64]>) -> (r: TypedElements) {
        let r = TypedElements::Int64(b);
        assert(r.elements() =~= b@.map_values(|x: i64| x.element_value()));
        r
    }
}

impl IntoDart for Vec<i64> {
    /// A sequence of primitives encodes as one typed buffer.
    open spec fn dart_view(&self) -> DartValue {
        DartValue::TypedData(DartTypedDataType::Int64, typed_elements_of(self@))
    }

    fn into_dart(self) -> (r: DartCObject) {
        vec_to_dart_native_typed_data(self)
    }
}

impl DartTypedDataTypeTrait for u64 {
    open spec fn spec_typed_data_type() -> DartTypedDataType {
        DartTypedDataType::Uint64
    }

    open spec fn element_value(&self) -> int {
        *self as int
    }

    fn dart_typed_data_type() -> (r: DartTypedDataType) {
        DartTypedDataType::Uint64
    }

    fn into_typed_elements(b: Box<[u64]>) -> (r: TypedElements) {
        let r = TypedElements::Uint64(b);
        assert(r.elements() =~= b@.map_values(|x: u64| x.element_value()));
        r
    }
}

impl IntoDart for Vec<u64> {
    /// A sequence of primitives encodes as one typed buffer.
    open spec fn dart_view(&self) -> DartValue {
        DartValue::TypedData(DartTypedDataType::Uint64, typed_elements_of(self@))
    }

    fn into_dart(self) -> (r: DartCObject) {
        vec_to_dart_native_typed_data(self)
    }
}


impl<A: IntoDart> IntoDart for (A,) {
    /// An array of the elements' messages, in position order.
    open spec fn dart_view(&self) -> DartValue {
        DartValue::Array(seq![self.0.dart_view()])
    }

    fn into_dart(self) -> (r: DartCObject) {
        let (a,) = self;
        let mut children: Vec<DartCObject> = Vec::new();
        children.push(a.into_dart());
        let ghost cs = children@;
        let r = DartArray::from_vec(children).into_dart();
        assert(cs.map_values(|x: DartCObject| x.dart_view()) =~= seq![self.0.dart_view()]);
        r
    }
}

impl<A: IntoDart> IntoDartExceptPrimitive for (A,) {

}

impl<A: IntoDart, B: IntoDart> IntoDart for (A, B) {
    /// An array of the elements' messages, in position order.
    open spec fn dart_view(&self) -> DartValue {
        DartValue::Array(seq![self.0.dart_view(), self.1.dart_view()])
    }

    fn into_dart(self) -> (r: DartCObject) {
        let (a, b) = self;
        let mut children: Vec<DartCObject> = Vec::new();
        children.push(a.into_dart());
        children.push(b.into_dart());
        let ghost cs = children@;
        let r = DartArray::from_vec(children).into_dart();
        assert(cs.map_values(|x: DartCObject| x.dart_view()) =~= seq![self.0.dart_view(), self.1.dart_view()]);
        r
    }
}

impl<A: IntoDart, B: IntoDart> IntoDartExceptPrimitive for (A, B) {

}

impl<A: IntoDart, B: IntoDart, C: IntoDart> IntoDart for (A, B, C) {
    /// An array of the elements' messages, in position order.
    open spec fn dart_view(&self) -> DartValue {
        DartValue::Array(seq![self.0.dart_view(), self.1.dart_view(), self.2.dart_view()])
    }

    fn into_dart(self) -> (r: DartCObject) {
        let (a, b, c) = self;
        let mut children: Vec<DartCObject> = Vec::new();
        children.push(a.into_dart());
        children.push(b.into_dart());
        children.push(c.into_dart());
        let ghost cs = children@;
        let r = DartArray::from_vec(children).into_dart();
        assert(cs.map_values(|x: DartCObject| x.dart_view()) =~= seq![self.0.dart_view(), self.1.dart_view(), self.2.dart_view()]);
        r
    }
}

impl<A: IntoDart, B: IntoDart, C: IntoDart> IntoDartExceptPrimitive for (A, B, C) {

}

impl<A: IntoDart, B: IntoDart, C: IntoDart, D: IntoDart> IntoDart for (A, B, C, D) {
    /// An array of the elements' messages, in position order.
    open spec fn dart_view(&self) -> DartValue {
        DartValue::Array(seq![self.0.dart_view(), self.1.dart_view(), self.2.dart_view(), self.3.dart_view()])
    }

    fn into_dart(self) -> (r: DartCObject) {
        let (a, b, c, d) = self;
        let mut children: Vec<DartCObject> = Vec::new();
        children.push(a.into_dart());
        children.push(b.into_dart());
        children.push(c.into_dart());
        children.push(d.into_dart());
        let ghost cs = children@;
        let r = DartArray::from_vec(children).into_dart();
        assert(cs.map_values(|x: DartCObject| x.dart_view()) =~= seq![self.0.dart_view(), self.1.dart_view(), self.2.dart_view(), self.3.dart_view()]);
        r
    }
}

impl<A: IntoDart, B: IntoDart, C: IntoDart, D: IntoDart> IntoDartExceptPrimitive for (A, B, C, D) {

}

impl<A: IntoDart, B: IntoDart, C: IntoDart, D: IntoDart, E: IntoDart> IntoDart for (A, B, C, D, E) {
    /// An array of the elements' messages, in position order.
    open spec fn dart_view(&self) -> DartValue {
        DartValue::Array(seq![self.0.dart_view(), self.1.dart_view(), self.2.dart_view(), self.3.dart_view(), self.4.dart_view()])
    }

    fn into_dart(self) -> (r: DartCObject) {
        let (a, b, c, d, e) = self;
        let mut children: Vec<DartCObject> = Vec::new();
        children.push(a.into_dart());
        children.push(b.into_dart());
        children.push(c.into_dart());
        children.push(d.into_dart());
        children.push(e.into_dart());
        let ghost cs = children@;
        let r = DartArray::from_vec(children).into_dart();
        assert(cs.map_values(|x: DartCObject| x.dart_view()) =~= seq![self.0.dart_view(), self.1.dart_view(), self.2.dart_view(), self.3.dart_view(), self.4.dart_view()]);
        r
    }
}

impl<A: IntoDart, B: IntoDart, C: IntoDart, D: IntoDart, E: IntoDart> IntoDartExceptPrimitive for (A, B, C, D, E) {

}

impl<A: IntoDart, B: IntoDart, C: IntoDart, D: IntoDart, E: IntoDart, F: IntoDart> IntoDart for (A, B, C, D, E, F) {
    /// An array of the elements' messages, in position order.
    open spec fn dart_view(&self) -> DartValue {
        DartValue::Array(seq![self.0.dart_view(), self.1.dart_view(), self.2.dart_view(), self.3.dart_view(), self.4.dart_view(), self.5.dart_view()])
    }

    fn into_dart(self) -> (r: DartCObject) {
        let (a, b, c, d, e, f) = self;
        let mut children: Vec<DartCObject> = Vec::new();
        children.push(a.into_dart());
        children.push(b.into_dart());
        children.push(c.into_dart());
        children.push(d.into_dart());
        children.push(e.into_dart());
        children.push(f.into_dart());
        let ghost cs = children@;
        let r = DartArray::from_vec(children).into_dart();
        assert(cs.map_values(|x: DartCObject| x.dart_view()) =~= seq![self.0.dart_view(), self.1.dart_view(), self.2.dart_view(), self.3.dart_view(), self.4.dart_view(), self.5.dart_view()]);
        r
    }
}

impl<A: IntoDart, B: IntoDart, C: IntoDart, D: IntoDart, E: IntoDart, F: IntoDart> IntoDartExceptPrimitive for (A, B, C, D, E, F) {

}

impl<A: IntoDart, B: IntoDart, C: IntoDart, D: IntoDart, E: IntoDart, F: IntoDart, G: IntoDart> IntoDart for (A, B, C, D, E, F, G) {
    /// An array of the elements' messages, in position order.
    open spec fn dart_view(&self) -> DartValue {
        DartValue::Array(seq![self.0.dart_view(), self.1.dart_view(), self.2.dart_view(), self.3.dart_view(), self.4.dart_view(), self.5.dart_view(), self.6.dart_view()])
    }

    fn into_dart(self) -> (r: DartCObject) {
        let (a, b, c, d, e, f, g) = self;
        let mut children: Vec<DartCObject> = Vec::new();
        children.push(a.into_dart());
        children.push(b.into_dart());
        children.push(c.into_dart());
        children.push(d.into_dart());
        children.push(e.into_dart());
        children.push(f.into_dart());
        children.push(g.into_dart());
        let ghost cs = children@;
        let r = DartArray::from_vec(children).into_dart();
        assert(cs.map_values(|x: DartCObject| x.dart_view()) =~= seq![self.0.dart_view(), self.1.dart_view(), self.2.dart_view(), self.3.dart_view(), self.4.dart_view(), self.5.dart_view(), self.6.dart_view()]);
        r
    }
}

impl<A: IntoDart, B: IntoDart, C: IntoDart, D: IntoDart, E: IntoDart, F: IntoDart, G: IntoDart> IntoDartExceptPrimitive for (A, B, C, D, E, F, G) {

}

impl<A: IntoDart, B: IntoDart, C: IntoDart, D: IntoDart, E: IntoDart, F: IntoDart, G: IntoDart, H: IntoDart> IntoDart for (A, B, C, D, E, F, G, H) {
    /// An array of the elements' messages, in position order.
    open spec fn dart_view(&self) -> DartValue {
        DartValue::Array(seq![self.0.dart_view(), self.1.dart_view(), self.2.dart_view(), self.3.dart_view(), self.4.dart_view(), self.5.dart_view(), self.6.dart_view(), self.7.dart_view()])
    }

    fn into_dart(self) -> (r: DartCObject) {
        let (a, b, c, d, e, f, g, h) = self;
        let mut children: Vec<DartCObject> = Vec::new();
        children.push(a.into_dart());
        children.push(b.into_dart());
        children.push(c.into_dart());
        children.push(d.into_dart());
        children.push(e.into_dart());
        children.push(f.into_dart());
        children.push(g.into_dart());
        children.push(h.into_dart());
        let ghost cs = children@;
        let r = DartArray::from_vec(children).into_dart();
        assert(cs.map_values(|x: DartCObject| x.dart_view()) =~= seq![self.0.dart_view(), self.1.dart_view(), self.2.dart_view(), self.3.dart_view(), self.4.dart_view(), self.5.dart_view(), self.6.dart_view(), self.7.dart_view()]);
        r
    }
}

impl<A: IntoDart, B: IntoDart, C: IntoDart, D: IntoDart, E: IntoDart, F: IntoDart, G: IntoDart, H: IntoDart> IntoDartExceptPrimitive for (A, B, C, D, E, F, G, H) {

}

impl<A: IntoDart, B: IntoDart, C: IntoDart, D: IntoDart, E: IntoDart, F: IntoDart, G: IntoDart, H: IntoDart, I: IntoDart> IntoDart for (A, B, C, D, E, F, G, H, I) {
    /// An array of the elements' messages, in position order.
    open spec fn dart_view(&self) -> DartValue {
        DartValue::Array(seq![self.0.dart_view(), self.1.dart_view(), self.2.dart_view(), self.3.dart_view(), self.4.dart_view(), self.5.dart_view(), self.6.dart_view(), self.7.dart_view(), self.8.dart_view()])
    }

    fn into_dart(self) -> (r: DartCObject) {
        let (a, b, c, d, e, f, g, h, i) = self;
        let mut children: Vec<DartCObject> = Vec::new();
        children.push(a.into_dart());
        children.push(b.into_dart());
        children.push(c.into_dart());
        children.push(d.into_dart());
        children.push(e.into_dart());
        children.push(f.into_dart());
        children.push(g.into_dart());
        children.push(h.into_dart());
        children.push(i.into_dart());
        let ghost cs = children@;
        let r = DartArray::from_vec(children).into_dart();
        assert(cs.map_values(|x: DartCObject| x.dart_view()) =~= seq![self.0.dart_view(), self.1.dart_view(), self.2.dart_view(), self.3.dart_view(), self.4.dart_view(), self.5.dart_view(), self.6.dart_view(), self.7.dart_view(), self.8.dart_view()]);
        r
    }
}

impl<A: IntoDart, B: IntoDart, C: IntoDart, D: IntoDart, E: IntoDart, F: IntoDart, G: IntoDart, H: IntoDart, I: IntoDart> IntoDartExceptPrimitive for (A, B, C, D, E, F, G, H, I) {

}

impl<A: IntoDart, B: IntoDart, C: IntoDart, D: IntoDart, E: IntoDart, F: IntoDart, G: IntoDart, H: IntoDart, I: IntoDart, J: IntoDart> IntoDart for (A, B, C, D, E, F, G, H, I, J) {
    /// An array of the elements' messages, in position order.
    open spec fn dart_view(&self) -> DartValue {
        DartValue::Array(seq![self.0.dart_view(), self.1.dart_view(), self.2.dart_view(), self.3.dart_view(), self.4.dart_view(), self.5.dart_view(), self.6.dart_view(), self.7.dart_view(), self.8.dart_view(), self.9.dart_view()])
    }

    fn into_dart(self) -> (r: DartCObject) {
        let (a, b, c, d, e, f, g, h, i, j) = self;
        let mut children: Vec<DartCObject> = Vec::new();
        children.push(a.into_dart());
        children.push(b.into_dart());
        children.push(c.into_dart());
        children.push(d.into_dart());
        children.push(e.into_dart());
        children.push(f.into_dart());
        children.push(g.into_dart());
        children.push(h.into_dart());
        children.push(i.into_dart());
        children.push(j.into_dart());
        let ghost cs = children@;
        let r = DartArray::from_vec(children).into_dart();
        assert(cs.map_values(|x: DartCObject| x.dart_view()) =~= seq![self.0.dart_view(), self.1.dart_view(), self.2.dart_view(), self.3.dart_view(), self.4.dart_view(), self.5.dart_view(), self.6.dart_view(), self.7.dart_view(), self.8.dart_view(), self.9.dart_view()]);
        r
    }
}

impl<A: IntoDart, B: IntoDart, C: IntoDart, D: IntoDart, E: IntoDart, F: IntoDart, G: IntoDart, H: IntoDart, I: IntoDart, J: IntoDart> IntoDartExceptPrimitive for (A, B, C, D, E, F, G, H, I, J) {

}

impl<T: DartTypedDataTypeTrait, const N: usize> IntoDart for ZeroCopyBuffer<[T; N]> {
    open spec fn dart_view(&self) -> DartValue {
        DartValue::ExternalTypedData(T::spec_typed_data_type(), typed_elements_of(self.0@))
    }

    fn into_dart(self) -> (r: DartCObject) {
        vec_to_dart_native_external_typed_data(slice_to_vec(self.0.as_slice()))
    }
}

impl<T: DartTypedDataTypeTrait, const N: usize> IntoDartExceptPrimitive for ZeroCopyBuffer<[T; N]> {

}

/// The bit pattern of a 32-bit float, as an element of a `Float32` buffer.
#[derive(Copy, Clone, Debug)]
pub struct Float32Bits(pub u32);

/// The bit pattern of a 64-bit float: a double on its own, an element of a
/// `Float64` buffer in a sequence.
#[derive(Copy, Clone, Debug)]
pub struct Float64Bits(pub u64);

impl IntoDart for Float64Bits {
    open spec fn dart_view(&self) -> DartValue {
        DartValue::Double(self.0)
    }

    fn into_dart(self) -> (r: DartCObject) {
        DartCObject { value: DartCObjectValue::Double(self.0) }
    }
}

impl DartTypedDataTypeTrait for Float32Bits {
    open spec fn spec_typed_data_type() -> DartTypedDataType {
        DartTypedDataType::Float32
    }

    open spec fn element_value(&self) -> int {
        self.0 as int
    }

    fn dart_typed_data_type() -> (r: DartTypedDataType) {
        DartTypedDataType::Float32
    }

    fn into_typed_elements(b: Box<[Float32Bits]>) -> (r: TypedElements) {
        let r = TypedElements::Float32(b);
        assert(r.elements() =~= b@.map_values(|x: Float32Bits| x.element_value()));
        r
    }
}

impl DartTypedDataTypeTrait for Float64Bits {
    open spec fn spec_typed_data_type() -> DartTypedDataType {
        DartTypedDataType::Float64
    }

    open spec fn element_value(&self) -> int {
        self.0 as int
    }

    fn dart_typed_data_type() -> (r: DartTypedDataType) {
        DartTypedDataType::Float64
    }

    fn into_typed_elements(b: Box<[Float64Bits]>) -> (r: TypedElements) {
        let r = TypedElements::Float64(b);
        assert(r.elements() =~= b@.map_values(|x: Float64Bits| x.element_value()));
        r
    }
}

impl<const N: usize> IntoDart for [i8; N] {
    /// A fixed array of primitives encodes as one typed buffer.
    open spec fn dart_view(&self) -> DartValue {
        DartValue::TypedData(DartTypedDataType::Int8, typed_elements_of(self@))
    }

    fn into_dart(self) -> (r: DartCObject) {
        vec_to_dart_native_typed_data(slice_to_vec(self.as_slice()))
    }
}

impl<const N: usize> IntoDart for [u8; N] {
    /// A fixed array of primitives encodes as one typed buffer.
    open spec fn dart_view(&self) -> DartValue {
        DartValue::TypedData(DartTypedDataType::Uint8, typed_elements_of(self@))
    }

    fn into_dart(self) -> (r: DartCObject) {
        vec_to_dart_native_typed_data(slice_to_vec(self.as_slice()))
    }
}

impl<const N: usize> IntoDart for [i16; N] {
    /// A fixed array of primitives encodes as one typed buffer.
    open spec fn dart_view(&self) -> DartValue {
        DartValue::TypedData(DartTypedDataType::Int16, typed_elements_of(self@))
    }

    fn into_dart(self) -> (r: DartCObject) {
        vec_to_dart_native_typed_data(slice_to_vec(self.as_slice()))
    }
}

impl<const N: usize> IntoDart for [u16; N] {
    /// A fixed array of primitives encodes as one typed buffer.
    open spec fn dart_view(&self) -> DartValue {
        DartValue::TypedData(DartTypedDataType::Uint16, typed_elements_of(self@))
    }

    fn into_dart(self) -> (r: DartCObject) {
        vec_to_dart_native_typed_data(slice_to_vec(self.as_slice()))
    }
}

impl<const N: usize> IntoDart for [i32; N] {
    /// A fixed array of primitives encodes as one typed buffer.
    open spec fn dart_view(&self) -> DartValue {
        DartValue::TypedData(DartTypedDataType::Int32, typed_elements_of(self@))
    }

    fn into_dart(self) -> (r: DartCObject) {
        vec_to_dart_native_typed_data(slice_to_vec(self.as_slice()))
    }
}

impl<const N: usize> IntoDart for [u32; N] {
    /// A fixed array of primitives encodes as one typed buffer.
    open spec fn dart_view(&self) -> DartValue {
        DartValue::TypedData(DartTypedDataType::Uint32, typed_elements_of(self@))
    }

    fn into_dart(self) -> (r: DartCObject) {
        vec_to_dart_native_typed_data(slice_to_vec(self.as_slice()))
    }
}

impl<const N: usize> IntoDart for [i64; N] {
    /// A fixed array of primitives encodes as one typed buffer.
    open spec fn dart_view(&self) -> DartValue {
        DartValue::TypedData(DartTypedDataType::Int64, typed_elements_of(self@))
    }

    fn into_dart(self) -> (r: DartCObject) {
        vec_to_dart_native_typed_data(slice_to_vec(self.as_slice()))
    }
}

impl<const N: usize> IntoDart for [u64; N] {
    /// A fixed array of primitives encodes as one typed buffer.
    open spec fn dart_view(&self) -> DartValue {
        DartValue::TypedData(DartTypedDataType::Uint64, typed_elements_of(self@))
    }

    fn into_dart(self) -> (r: DartCObject) {
        vec_to_dart_native_typed_data(slice_to_vec(self.as_slice()))
    }
}

impl IntoDart for Vec<Float32Bits> {
    /// A sequence of float bit patterns encodes as one typed buffer.
    open spec fn dart_view(&self) -> DartValue {
        DartValue::TypedData(DartTypedDataType::Float32, typed_elements_of(self@))
    }

    fn into_dart(self) -> (r: DartCObject) {
        vec_to_dart_native_typed_data(self)
    }
}

impl<const N: usize> IntoDart for [Float32Bits; N] {
    /// A fixed array of primitives encodes as one typed buffer.
    open spec fn dart_view(&self) -> DartValue {
        DartValue::TypedData(DartTypedDataType::Float32, typed_elements_of(self@))
    }

    fn into_dart(self) -> (r: DartCObject) {
        vec_to_dart_native_typed_data(slice_to_vec(self.as_slice()))
    }
}

impl IntoDart for Vec<Float64Bits> {
    /// A sequence of float bit patterns encodes as one typed buffer.
    open spec fn dart_view(&self) -> DartValue {
        DartValue::TypedData(DartTypedDataType::Float64, typed_elements_of(self@))
    }

    fn into_dart(self) -> (r: DartCObject) {
        vec_to_dart_native_typed_data(self)
    }
}

impl<const N: usize> IntoDart for [Float64Bits; N] {
    /// A fixed array of primitives encodes as one typed buffer.
    open spec fn dart_view(&self) -> DartValue {
        DartValue::TypedData(DartTypedDataType::Float64, typed_elements_of(self@))
    }

    fn into_dart(self) -> (r: DartCObject) {
        vec_to_dart_native_typed_data(slice_to_vec(self.as_slice()))
    }
}

impl<T: IntoDartExceptPrimitive + Copy, const N: usize> IntoDart for [T; N] {
    /// A fixed array of non-primitive values encodes as an array of their
    /// messages, in order.
    open spec fn dart_view(&self) -> DartValue {
        DartValue::Array(self@.map_values(|x: T| x.dart_view()))
    }

    fn into_dart(self) -> (r: DartCObject) {
        DartArray::from_vec(slice_to_vec(self.as_slice())).into_dart()
    }
}

impl<T: IntoDartExceptPrimitive + Copy, const N: usize> IntoDartExceptPrimitive for [T; N] {

}

impl IntoDartExceptPrimitive for Vec<i8> {

}

impl<const N: usize> IntoDartExceptPrimitive for [i8; N] {

}

impl IntoDartExceptPrimitive for Vec<u8> {

}

impl<const N: usize> IntoDartExceptPrimitive for [u8; N] {

}

impl IntoDartExceptPrimitive for Vec<i16> {

}

impl<const N: usize> IntoDartExceptPrimitive for [i16; N] {

}

impl IntoDartExceptPrimitive for Vec<u16> {

}

impl<const N: usize> IntoDartExceptPrimitive for [u16; N] {

}

impl IntoDartExceptPrimitive for Vec<i32> {

}

impl<const N: usize> IntoDartExceptPrimitive for [i32; N] {

}

impl IntoDartExceptPrimitive for Vec<u32> {

}

impl<const N: usize> IntoDartExceptPrimitive for [u32; N] {

}

impl IntoDartExceptPrimitive for Vec<i64> {

}

impl<const N: usize> IntoDartExceptPrimitive for [i64; N] {

}

impl IntoDartExceptPrimitive for Vec<u64> {

}

impl<const N: usize> IntoDartExceptPrimitive for [u64; N] {

}

impl IntoDartExceptPrimitive for Vec<Float32Bits> {

}

impl<const N: usize> IntoDartExceptPrimitive for [Float32Bits; N] {

}

impl IntoDartExceptPrimitive for Vec<Float64Bits> {

}

impl<const N: usize> IntoDartExceptPrimitive for [Float64Bits; N] {

}

} // verus!
