//! The message representation exchanged with the Dart VM, and its model.
use vstd::prelude::*;

use crate::into_dart::{Float32Bits, Float64Bits};

verus! {

broadcast use {vstd::seq::group_seq_axioms, vstd::std_specs::vec::group_vec_axioms};

/// A port is used to send or receive inter-isolate messages.
pub type DartPort = i64;

/// Element type of a typed-data buffer, as the Dart VM numbers them.
#[derive(Copy, Clone, PartialEq, Eq, Debug, Structural)]
pub enum DartTypedDataType {
    ByteData,
    Int8,
    Uint8,
    Uint8Clamped,
    Int16,
    Uint16,
    Int32,
    Uint32,
    Int64,
    Uint64,
    Float32,
    Float64,
    Float32x4,
    Invalid,
}

impl DartTypedDataType {
    /// The number that the Dart VM's native object ABI gives the element
    /// type.
    pub fn discriminant(&self) -> (r: i32)
        ensures
            r == self.spec_discriminant(),
    {
        match self {
            DartTypedDataType::ByteData => 0,
            DartTypedDataType::Int8 => 1,
            DartTypedDataType::Uint8 => 2,
            DartTypedDataType::Uint8Clamped => 3,
            DartTypedDataType::Int16 => 4,
            DartTypedDataType::Uint16 => 5,
            DartTypedDataType::Int32 => 6,
            DartTypedDataType::Uint32 => 7,
            DartTypedDataType::Int64 => 8,
            DartTypedDataType::Uint64 => 9,
            DartTypedDataType::Float32 => 10,
            DartTypedDataType::Float64 => 11,
            DartTypedDataType::Float32x4 => 12,
            DartTypedDataType::Invalid => 13,
        }
    }

    pub open spec fn spec_discriminant(&self) -> i32 {
        match self {
            DartTypedDataType::ByteData => 0,
            DartTypedDataType::Int8 => 1,
            DartTypedDataType::Uint8 => 2,
            DartTypedDataType::Uint8Clamped => 3,
            DartTypedDataType::Int16 => 4,
            DartTypedDataType::Uint16 => 5,
            DartTypedDataType::Int32 => 6,
            DartTypedDataType::Uint32 => 7,
            DartTypedDataType::Int64 => 8,
            DartTypedDataType::Uint64 => 9,
            DartTypedDataType::Float32 => 10,
            DartTypedDataType::Float64 => 11,
            DartTypedDataType::Float32x4 => 12,
            DartTypedDataType::Invalid => 13,
        }
    }
}

/// The type tag of a [`DartCObject`].
#[derive(Copy, Clone, PartialEq, Eq, Debug, Structural)]
pub enum DartCObjectType {
    DartNull,
    DartBool,
    DartInt32,
    DartInt64,
    DartDouble,
    DartString,
    DartArray,
    DartTypedData,
    DartExternalTypedData,
    DartSendPort,
    DartCapability,
    DartNativePointer,
    DartUnsupported,
    DartNumberOfTypes,
}

impl DartCObjectType {
    /// The 4-byte discriminant that the Dart VM's native object ABI uses.
    pub fn discriminant(&self) -> (r: i32)
        ensures
            r == self.spec_discriminant(),
    {
        match self {
            DartCObjectType::DartNull => 0,
            DartCObjectType::DartBool => 1,
            DartCObjectType::DartInt32 => 2,
            DartCObjectType::DartInt64 => 3,
            DartCObjectType::DartDouble => 4,
            DartCObjectType::DartString => 5,
            DartCObjectType::DartArray => 6,
            DartCObjectType::DartTypedData => 7,
            DartCObjectType::DartExternalTypedData => 8,
            DartCObjectType::DartSendPort => 9,
            DartCObjectType::DartCapability => 10,
            DartCObjectType::DartNativePointer => 11,
            DartCObjectType::DartUnsupported => 12,
            DartCObjectType::DartNumberOfTypes => 13,
        }
    }

    pub open spec fn spec_discriminant(&self) -> i32 {
        match self {
            DartCObjectType::DartNull => 0,
            DartCObjectType::DartBool => 1,
            DartCObjectType::DartInt32 => 2,
            DartCObjectType::DartInt64 => 3,
            DartCObjectType::DartDouble => 4,
            DartCObjectType::DartString => 5,
            DartCObjectType::DartArray => 6,
            DartCObjectType::DartTypedData => 7,
            DartCObjectType::DartExternalTypedData => 8,
            DartCObjectType::DartSendPort => 9,
            DartCObjectType::DartCapability => 10,
            DartCObjectType::DartNativePointer => 11,
            DartCObjectType::DartUnsupported => 12,
            DartCObjectType::DartNumberOfTypes => 13,
        }
    }
}

/// The abstract content of a message: what the receiving isolate rebuilds.
///
/// Typed-data elements are given as integers: the element's value for the
/// integer element types, its IEEE bit pattern for the float ones.
pub enum DartValue {
    Null,
    Bool(bool),
    Int32(i32),
    Int64(i64),
    Double(u64),
    Str(Seq<u8>),
    Array(Seq<DartValue>),
    TypedData(DartTypedDataType, Seq<int>),
    ExternalTypedData(DartTypedDataType, Seq<int>),
    SendPort(i64, i64),
    Capability(i64),
    NativePointer(isize, isize),
    Unsupported,
}

/// A native send port as the Dart VM describes it.
#[derive(Copy, Clone, Debug)]
pub struct DartNativeSendPort {
    pub id: DartPort,
    pub origin_id: DartPort,
}

/// A capability as the Dart VM describes it.
#[derive(Copy, Clone, Debug)]
pub struct DartNativeCapability {
    pub id: i64,
}

/// A native pointer handed to the VM, with the size it reports to the
/// garbage collector. The referenced resource is reclaimed by the VM's
/// finalizer, never by the message teardown.
#[derive(Copy, Clone, Debug)]
pub struct DartNativePointer {
    pub ptr: isize,
    pub size: isize,
}

/// The elements of a typed buffer, one variant per element type. Each buffer
/// is a single exact allocation of `length × element width` bytes: a boxed
/// slice carries no spare capacity. Float elements are held as their bit
/// patterns.
pub enum TypedElements {
    Int8(Box<[i8]>),
    Uint8(Box<[u8]>),
    Int16(Box<[i16]>),
    Uint16(Box<[u16]>),
    Int32(Box<[i32]>),
    Uint32(Box<[u32]>),
    Int64(Box<[i64]>),
    Uint64(Box<[u64]>),
    Float32(Box<[Float32Bits]>),
    Float64(Box<[Float64Bits]>),
}

impl TypedElements {
    /// The element type of the buffer.
    pub open spec fn element_type(self) -> DartTypedDataType {
        match self {
            TypedElements::Int8(_) => DartTypedDataType::Int8,
            TypedElements::Uint8(_) => DartTypedDataType::Uint8,
            TypedElements::Int16(_) => DartTypedDataType::Int16,
            TypedElements::Uint16(_) => DartTypedDataType::Uint16,
            TypedElements::Int32(_) => DartTypedDataType::Int32,
            TypedElements::Uint32(_) => DartTypedDataType::Uint32,
            TypedElements::Int64(_) => DartTypedDataType::Int64,
            TypedElements::Uint64(_) => DartTypedDataType::Uint64,
            TypedElements::Float32(_) => DartTypedDataType::Float32,
            TypedElements::Float64(_) => DartTypedDataType::Float64,
        }
    }

    /// The elements of the buffer, in order.
    pub open spec fn elements(self) -> Seq<int> {
        match self {
            TypedElements::Int8(b) => b@.map_values(|x: i8| x as int),
            TypedElements::Uint8(b) => b@.map_values(|x: u8| x as int),
            TypedElements::Int16(b) => b@.map_values(|x: i16| x as int),
            TypedElements::Uint16(b) => b@.map_values(|x: u16| x as int),
            TypedElements::Int32(b) => b@.map_values(|x: i32| x as int),
            TypedElements::Uint32(b) => b@.map_values(|x: u32| x as int),
            TypedElements::Int64(b) => b@.map_values(|x: i64| x as int),
            TypedElements::Uint64(b) => b@.map_values(|x: u64| x as int),
            TypedElements::Float32(b) => b@.map_values(|x: Float32Bits| x.0 as int),
            TypedElements::Float64(b) => b@.map_values(|x: Float64Bits| x.0 as int),
        }
    }

    /// The element type of the buffer.
    pub fn ty(&self) -> (r: DartTypedDataType)
        ensures
            r == self.element_type(),
    {
        match self {
            TypedElements::Int8(_) => DartTypedDataType::Int8,
            TypedElements::Uint8(_) => DartTypedDataType::Uint8,
            TypedElements::Int16(_) => DartTypedDataType::Int16,
            TypedElements::Uint16(_) => DartTypedDataType::Uint16,
            TypedElements::Int32(_) => DartTypedDataType::Int32,
            TypedElements::Uint32(_) => DartTypedDataType::Uint32,
            TypedElements::Int64(_) => DartTypedDataType::Int64,
            TypedElements::Uint64(_) => DartTypedDataType::Uint64,
            TypedElements::Float32(_) => DartTypedDataType::Float32,
            TypedElements::Float64(_) => DartTypedDataType::Float64,
        }
    }

    /// The number of elements (not bytes) in the buffer.
    pub fn length(&self) -> (r: usize)
        ensures
            r == self.elements().len(),
    {
        match self {
            TypedElements::Int8(b) => b.len(),
            TypedElements::Uint8(b) => b.len(),
            TypedElements::Int16(b) => b.len(),
            TypedElements::Uint16(b) => b.len(),
            TypedElements::Int32(b) => b.len(),
            TypedElements::Uint32(b) => b.len(),
            TypedElements::Int64(b) => b.len(),
            TypedElements::Uint64(b) => b.len(),
            TypedElements::Float32(b) => b.len(),
            TypedElements::Float64(b) => b.len(),
        }
    }
}

/// Typed data in the copy form: the buffer stays owned by the message and is
/// reclaimed by its teardown.
pub struct DartNativeTypedData {
    pub values: TypedElements,
}

/// Typed data in the zero-copy form: the buffer's storage belongs to the
/// receiver from the moment of transfer, and is reclaimed only through
/// [`DartNativeExternalTypedData::release`], never by the message teardown.
pub struct DartNativeExternalTypedData {
    data: TypedElements,
}

impl DartNativeExternalTypedData {
    /// The transferred buffer.
    pub closed spec fn buffer(self) -> TypedElements {
        self.data
    }

    /// Hands an exact allocation over to the zero-copy form.
    pub fn new(data: TypedElements) -> (r: Self)
        ensures
            r.buffer() == data,
    {
        DartNativeExternalTypedData { data }
    }

    /// The element type that the release callback is bound to.
    pub fn ty(&self) -> (r: DartTypedDataType)
        ensures
            r == self.buffer().element_type(),
    {
        self.data.ty()
    }

    /// The length in elements; it is also the token handed to the release
    /// callback.
    pub fn length(&self) -> (r: usize)
        ensures
            r == self.buffer().elements().len(),
    {
        self.data.length()
    }

    /// Read access to the transferred elements, for the receiver.
    pub fn data(&self) -> (r: &TypedElements)
        ensures
            *r == self.buffer(),
    {
        &self.data
    }

    /// Transfers the buffer to the receiver, whose finalizer reclaims it from
    /// then on.
    pub fn into_buffer(self) -> (r: TypedElements)
        ensures
            r == self.buffer(),
    {
        self.data
    }

    /// The release callback: reclaims the whole allocation and returns the
    /// number of elements reclaimed. It takes the payload by value, so it runs
    /// at most once per buffer.
    pub fn release(self) -> (reclaimed: usize)
        ensures
            reclaimed == self.buffer().elements().len(),
    {
        self.data.length()
    }
}

/// The children of an array message; each child is a heap allocation of its
/// own, owned by its slot.
pub struct DartNativeArray {
    pub values: Vec<Box<DartCObject>>,
}

/// The payload of a message. The variant is the message's type tag, so a
/// payload can never be read under another tag.
pub enum DartCObjectValue {
    Null,
    Bool(bool),
    Int32(i32),
    Int64(i64),
    /// The bit pattern of a double.
    Double(u64),
    /// The bytes of a string, without the nul terminator; none of them is 0.
    Str(Vec<u8>),
    Array(DartNativeArray),
    TypedData(DartNativeTypedData),
    ExternalTypedData(DartNativeExternalTypedData),
    SendPort(DartNativeSendPort),
    Capability(DartNativeCapability),
    NativePointer(DartNativePointer),
    Unsupported,
}

/// One message: a payload, tagged by its variant.
pub struct DartCObject {
    pub value: DartCObjectValue,
}

impl DartCObject {
    /// The message's content; an array's children in order.
    pub open spec fn view(self) -> DartValue
        decreases self, 1nat,
    {
        match self.value {
            DartCObjectValue::Null => DartValue::Null,
            DartCObjectValue::Bool(b) => DartValue::Bool(b),
            DartCObjectValue::Int32(i) => DartValue::Int32(i),
            DartCObjectValue::Int64(i) => DartValue::Int64(i),
            DartCObjectValue::Double(d) => DartValue::Double(d),
            DartCObjectValue::Str(s) => DartValue::Str(s@),
            DartCObjectValue::Array(a) => DartValue::Array(
                children_view(a.values@, a.values@.len() as nat),
            ),
            DartCObjectValue::TypedData(t) => DartValue::TypedData(
                t.values.element_type(),
                t.values.elements(),
            ),
            DartCObjectValue::ExternalTypedData(e) => DartValue::ExternalTypedData(
                e.buffer().element_type(),
                e.buffer().elements(),
            ),
            DartCObjectValue::SendPort(p) => DartValue::SendPort(p.id, p.origin_id),
            DartCObjectValue::Capability(c) => DartValue::Capability(c.id),
            DartCObjectValue::NativePointer(p) => DartValue::NativePointer(p.ptr, p.size),
            DartCObjectValue::Unsupported => DartValue::Unsupported,
        }
    }

    /// The message's type tag.
    pub fn ty(&self) -> (r: DartCObjectType)
        ensures
            r == tag_of(self@),
    {
        match &self.value {
            DartCObjectValue::Null => DartCObjectType::DartNull,
            DartCObjectValue::Bool(_) => DartCObjectType::DartBool,
            DartCObjectValue::Int32(_) => DartCObjectType::DartInt32,
            DartCObjectValue::Int64(_) => DartCObjectType::DartInt64,
            DartCObjectValue::Double(_) => DartCObjectType::DartDouble,
            DartCObjectValue::Str(_) => DartCObjectType::DartString,
            DartCObjectValue::Array(_) => DartCObjectType::DartArray,
            DartCObjectValue::TypedData(_) => DartCObjectType::DartTypedData,
            DartCObjectValue::ExternalTypedData(_) => DartCObjectType::DartExternalTypedData,
            DartCObjectValue::SendPort(_) => DartCObjectType::DartSendPort,
            DartCObjectValue::Capability(_) => DartCObjectType::DartCapability,
            DartCObjectValue::NativePointer(_) => DartCObjectType::DartNativePointer,
            DartCObjectValue::Unsupported => DartCObjectType::DartUnsupported,
        }
    }
}

/// The type tag of a message with the given content.
pub open spec fn tag_of(v: DartValue) -> DartCObjectType {
    match v {
        DartValue::Null => DartCObjectType::DartNull,
        DartValue::Bool(_) => DartCObjectType::DartBool,
        DartValue::Int32(_) => DartCObjectType::DartInt32,
        DartValue::Int64(_) => DartCObjectType::DartInt64,
        DartValue::Double(_) => DartCObjectType::DartDouble,
        DartValue::Str(_) => DartCObjectType::DartString,
        DartValue::Array(_) => DartCObjectType::DartArray,
        DartValue::TypedData(_, _) => DartCObjectType::DartTypedData,
        DartValue::ExternalTypedData(_, _) => DartCObjectType::DartExternalTypedData,
        DartValue::SendPort(_, _) => DartCObjectType::DartSendPort,
        DartValue::Capability(_) => DartCObjectType::DartCapability,
        DartValue::NativePointer(_, _) => DartCObjectType::DartNativePointer,
        DartValue::Unsupported => DartCObjectType::DartUnsupported,
    }
}

/// The contents of the first `n` children of an array payload.
pub open spec fn children_view(s: Seq<Box<DartCObject>>, n: nat) -> Seq<DartValue>
    decreases s, 0nat, n,
{
    if n == 0 || n > s.len() {
        Seq::empty()
    } else {
        children_view(s, (n - 1) as nat).push((*s[n - 1]).view())
    }
}

/// `children_view` has one entry per child, in order.
pub proof fn lemma_children_view(s: Seq<Box<DartCObject>>, n: nat)
    requires
        n <= s.len(),
    ensures
        children_view(s, n).len() == n,
        forall|i: int| 0 <= i < n ==> #[trigger] children_view(s, n)[i] == (*s[i])@,
    decreases n,
{
    if n > 0 {
        lemma_children_view(s, (n - 1) as nat);
    }
}

/// An array message is larger than each of its children.
proof fn lemma_child_decreases(cv: Seq<DartValue>, i: int)
    requires
        0 <= i < cv.len(),
    ensures
        decreases_to!(DartValue::Array(cv) => cv[i]),
{
    let v = DartValue::Array(cv);
    assert(decreases_to!(v => v->Array_0));
    assert(decreases_to!(cv => cv[i]));
}

/// The number of heap blocks that a message owns locally and that its
/// teardown reclaims: one per string, one per array pointer block (plus what
/// its children own), one per copy-form buffer. Zero-copy buffers belong to
/// their release callback, and the other payloads own nothing.
pub open spec fn owned_blocks(v: DartValue) -> nat
    decreases v, 1nat,
{
    match v {
        DartValue::Str(_) => 1,
        DartValue::Array(s) => 1 + blocks_of(s, s.len()),
        DartValue::TypedData(_, _) => 1,
        _ => 0,
    }
}

/// The blocks owned by the first `n` messages of `s`.
pub open spec fn blocks_of(s: Seq<DartValue>, n: nat) -> nat
    decreases s, 0nat, n,
{
    if n == 0 || n > s.len() {
        0
    } else {
        blocks_of(s, (n - 1) as nat) + owned_blocks(s[n - 1])
    }
}

/// The number of zero-copy buffers in a message, each of which still awaits
/// its release callback.
pub open spec fn external_buffers(v: DartValue) -> nat
    decreases v, 1nat,
{
    match v {
        DartValue::Array(s) => externals_of(s, s.len()),
        DartValue::ExternalTypedData(_, _) => 1,
        _ => 0,
    }
}

/// The zero-copy buffers in the first `n` messages of `s`.
pub open spec fn externals_of(s: Seq<DartValue>, n: nat) -> nat
    decreases s, 0nat, n,
{
    if n == 0 || n > s.len() {
        0
    } else {
        externals_of(s, (n - 1) as nat) + external_buffers(s[n - 1])
    }
}

/// What a teardown did: the blocks it reclaimed, and the zero-copy payloads
/// it met, untouched, for their release callback.
pub struct Teardown {
    pub freed_blocks: usize,
    pub pending_release: Vec<DartNativeExternalTypedData>,
}

/// `n`, or `usize::MAX` where `n` exceeds it.
pub open spec fn capped(n: nat) -> nat {
    if n <= usize::MAX {
        n
    } else {
        usize::MAX as nat
    }
}

/// Tears a message down: reclaims every block that it owns, children first,
/// and hands back the zero-copy payloads without freeing them. The count of
/// reclaimed blocks saturates at `usize::MAX`.
pub fn run_destructors(obj: DartCObject) -> (t: Teardown)
    ensures
        t.freed_blocks == capped(owned_blocks(obj@)),
        t.pending_release@.len() == external_buffers(obj@),
    decreases obj@,
{
    let ghost whole = obj@;
    match obj.value {
        DartCObjectValue::Str(_) => Teardown { freed_blocks: 1, pending_release: Vec::new() },
        DartCObjectValue::TypedData(_) => Teardown {
            freed_blocks: 1,
            pending_release: Vec::new(),
        },
        DartCObjectValue::ExternalTypedData(e) => {
            let mut pending_release = Vec::new();
            pending_release.push(e);
            Teardown { freed_blocks: 0, pending_release }
        },
        DartCObjectValue::Array(a) => {
            let ghost orig = a.values@;
            let ghost n = orig.len() as nat;
            let ghost cv = children_view(orig, n);
            proof {
                lemma_children_view(orig, n);
            }
            let mut values = a.values;
            let mut freed: usize = 1;
            let mut pending_release: Vec<DartNativeExternalTypedData> = Vec::new();
            while values.len() > 0
                invariant
                    whole == DartValue::Array(cv),
                    whole == obj@,
                    cv.len() == n,
                    n == orig.len(),
                    forall|i: int| 0 <= i < n ==> #[trigger] cv[i] == (*orig[i])@,
                    values@.len() <= n,
                    forall|i: int| 0 <= i < values@.len() ==> #[trigger] values@[i] == orig[i],
                    blocks_of(cv, values@.len() as nat) <= blocks_of(cv, n),
                    freed == capped((1 + blocks_of(cv, n) - blocks_of(cv, values@.len() as nat)) as nat),
                    pending_release@.len() + externals_of(cv, values@.len() as nat) == externals_of(cv, n),
                decreases values@.len(),
            {
                let ghost k = values@.len();
                let child = values.pop().unwrap();
                proof {
                    assert(cv[k - 1] == (*child)@);
                    lemma_child_decreases(cv, (k - 1) as int);
                    assert(blocks_of(cv, k as nat) == blocks_of(cv, (k - 1) as nat) + owned_blocks(cv[k - 1]));
                    assert(externals_of(cv, k as nat) == externals_of(cv, (k - 1) as nat) + external_buffers(cv[k - 1]));
                }
                let mut t = run_destructors(*child);
                freed = freed.saturating_add(t.freed_blocks);
                pending_release.append(&mut t.pending_release);
            }
            assert(blocks_of(cv, 0) == 0);
            Teardown { freed_blocks: freed, pending_release }
        },
        _ => Teardown { freed_blocks: 0, pending_release: Vec::new() },
    }
}

/// What discarding an unsent message did.
pub struct Discarded {
    /// The blocks that the teardown reclaimed (saturating at `usize::MAX`).
    pub freed_blocks: usize,
    /// The zero-copy buffers whose release callback ran.
    pub released_buffers: usize,
}

/// Discards a message that was never transferred: tears it down, then runs
/// the release callback of each of its zero-copy buffers, once each, since no
/// receiver ever will.
pub fn discard(obj: DartCObject) -> (d: Discarded)
    ensures
        d.freed_blocks == capped(owned_blocks(obj@)),
        d.released_buffers == external_buffers(obj@),
{
    let mut t = run_destructors(obj);
    let total = t.pending_release.len();
    let mut released: usize = 0;
    while t.pending_release.len() > 0
        invariant
            released + t.pending_release@.len() == total,
            t.freed_blocks == capped(owned_blocks(obj@)),
            total == external_buffers(obj@),
        decreases t.pending_release@.len(),
    {
        let e = t.pending_release.pop().unwrap();
        let _ = e.release();
        released = released + 1;
    }
    Discarded { freed_blocks: t.freed_blocks, released_buffers: released }
}

/// Wrapping a buffer in this struct sends it as external typed data: its
/// storage is handed to the receiver without a copy.
#[derive(Debug, Clone)]
pub struct ZeroCopyBuffer<T>(pub T);

} // verus!
