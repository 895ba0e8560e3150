//! 16-byte unique identifiers, which travel as raw bytes.
use vstd::prelude::*;

use crate::ffi::{DartCObject, DartTypedDataType, DartValue};
use crate::into_dart::{typed_elements_of, IntoDart};

verus! {

/// A 16-byte unique identifier, held as its bytes in network order.
#[derive(Copy, Clone, Debug)]
pub struct Uuid {
    bytes: [u8; 16],
}

impl Uuid {
    pub closed spec fn spec_bytes(&self) -> Seq<u8> {
        self.bytes@
    }

    /// The identifier with the given bytes.
    pub fn from_bytes(bytes: [u8; 16]) -> (r: Self)
        ensures
            r.spec_bytes() == bytes@,
    {
        Uuid { bytes }
    }

    /// The identifier's bytes.
    pub fn as_bytes(&self) -> (r: [u8; 16])
        ensures
            r@ == self.spec_bytes(),
    {
        self.bytes
    }

    /// The identifier's bytes as a vector.
    fn to_vec(&self) -> (r: Vec<u8>)
        ensures
            r@ == self.spec_bytes(),
    {
        let mut v: Vec<u8> = Vec::new();
        let mut i: usize = 0;
        while i < 16
            invariant
                i <= 16,
                self.bytes@.len() == 16,
                v@ == self.bytes@.subrange(0, i as int),
            decreases 16 - i,
        {
            v.push(self.bytes[i]);
            i = i + 1;
            assert(v@ =~= self.bytes@.subrange(0, i as int));
        }
        assert(v@ =~= self.bytes@);
        v
    }
}

/// The bytes of a sequence of identifiers, concatenated in order: byte `k`
/// is byte `k % 16` of identifier `k / 16`.
pub open spec fn concat_uuids(ids: Seq<Uuid>) -> Seq<u8> {
    Seq::new(16 * ids.len(), |k: int| ids[k / 16].spec_bytes()[k % 16])
}

/// A sequence of `n` identifiers travels as one byte buffer of `16 * n` bytes,
/// and cutting it into `n` windows of 16 bytes, in order, gives back each
/// identifier's bytes in the original order.
pub proof fn lemma_uuids_rechunk(ids: Seq<Uuid>)
    ensures
        concat_uuids(ids).len() == 16 * ids.len(),
        forall|i: int, j: int|
            0 <= i < ids.len() && 0 <= j < 16 ==> concat_uuids(ids).subrange(16 * i, 16 * i + 16)[j]
                == #[trigger] ids[i].spec_bytes()[j],
{
    assert forall|i: int, j: int| 0 <= i < ids.len() && 0 <= j < 16 implies concat_uuids(ids).subrange(
        16 * i,
        16 * i + 16,
    )[j] == #[trigger] ids[i].spec_bytes()[j] by {
        let k = 16 * i + j;
        assert(k / 16 == i && k % 16 == j && k < 16 * ids.len()) by (nonlinear_arith)
            requires
                k == 16 * i + j,
                0 <= j < 16,
                0 <= i < ids.len(),
        ;
    }
}

impl IntoDart for Uuid {
    /// An identifier travels as a typed buffer of its 16 bytes.
    open spec fn dart_view(&self) -> DartValue {
        DartValue::TypedData(DartTypedDataType::Uint8, typed_elements_of(self.spec_bytes()))
    }

    fn into_dart(self) -> (r: DartCObject) {
        self.to_vec().into_dart()
    }
}

impl IntoDart for Vec<Uuid> {
    /// A sequence of identifiers travels as one byte buffer holding all of
    /// their bytes, not as an array of buffers: the receiver re-chunks it
    /// into windows of 16 bytes.
    open spec fn dart_view(&self) -> DartValue {
        DartValue::TypedData(DartTypedDataType::Uint8, typed_elements_of(concat_uuids(self@)))
    }

    fn into_dart(self) -> (r: DartCObject) {
        let ghost ids = self@;
        let mut buffer: Vec<u8> = Vec::new();
        let mut i: usize = 0;
        while i < self.len()
            invariant
                ids == self@,
                i <= ids.len(),
                buffer@.len() == 16 * i,
                forall|k: int| 0 <= k < buffer@.len() ==> #[trigger] buffer@[k] == ids[k / 16].spec_bytes()[k % 16],
            decreases ids.len() - i,
        {
            let bytes = self[i].as_bytes();
            let mut j: usize = 0;
            while j < 16
                invariant
                    ids == self@,
                    i < ids.len(),
                    j <= 16,
                    bytes@ == ids[i as int].spec_bytes(),
                    bytes@.len() == 16,
                    buffer@.len() == 16 * i + j,
                    forall|k: int| 0 <= k < buffer@.len() ==> #[trigger] buffer@[k] == ids[k / 16].spec_bytes()[k % 16],
                decreases 16 - j,
            {
                proof {
                    let k = 16 * i + j;
                    assert(k / 16 == i && k % 16 == j) by (nonlinear_arith)
                        requires k == 16 * i + j, 0 <= j < 16, 0 <= i;
                }
                buffer.push(bytes[j]);
                j = j + 1;
            }
            i = i + 1;
        }
        assert(buffer@ =~= concat_uuids(ids));
        buffer.into_dart()
    }
}

} // verus!
