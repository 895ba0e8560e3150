//! Timestamps and durations, which travel as signed microsecond counts, the
//! unit of the Dart VM's `DateTime` and `Duration`.
use vstd::prelude::*;

use crate::ffi::{DartCObject, DartTypedDataType, DartValue};
use crate::into_dart::{typed_elements_of, IntoDart, IntoDartExceptPrimitive};

verus! {

/// An instant, as microseconds since the Unix epoch. The receiver rebuilds it
/// with `DateTime.fromMicrosecondsSinceEpoch`.
#[derive(Copy, Clone, Debug)]
pub struct Timestamp {
    pub micros_since_epoch: i64,
}

/// A signed span of time in microseconds, or `None` where the span does not
/// fit 64 bits of microseconds. The receiver rebuilds it with
/// `Duration(microseconds: ...)`.
#[derive(Copy, Clone, Debug)]
pub struct Duration {
    pub micros: Option<i64>,
}

impl IntoDart for Timestamp {
    open spec fn dart_view(&self) -> DartValue {
        DartValue::Int64(self.micros_since_epoch)
    }

    fn into_dart(self) -> (r: DartCObject) {
        self.micros_since_epoch.into_dart()
    }
}

impl IntoDart for Duration {
    /// A span out of range travels as null.
    open spec fn dart_view(&self) -> DartValue {
        match self.micros {
            Some(m) => DartValue::Int64(m),
            None => DartValue::Null,
        }
    }

    fn into_dart(self) -> (r: DartCObject) {
        self.micros.into_dart()
    }
}

impl IntoDartExceptPrimitive for Duration {

}

/// The microsecond counts of a sequence of timestamps, in order.
pub open spec fn micros_of(s: Seq<Timestamp>) -> Seq<i64> {
    s.map_values(|t: Timestamp| t.micros_since_epoch)
}

impl IntoDart for Vec<Timestamp> {
    /// A sequence of timestamps travels as one typed buffer of 64-bit
    /// microsecond counts.
    open spec fn dart_view(&self) -> DartValue {
        DartValue::TypedData(DartTypedDataType::Int64, typed_elements_of(micros_of(self@)))
    }

    fn into_dart(self) -> (r: DartCObject) {
        let mut counts: Vec<i64> = Vec::new();
        let mut i: usize = 0;
        while i < self.len()
            invariant
                i <= self@.len(),
                counts@ == micros_of(self@).subrange(0, i as int),
            decreases self@.len() - i,
        {
            counts.push(self[i].micros_since_epoch);
            i = i + 1;
            assert(counts@ =~= micros_of(self@).subrange(0, i as int));
        }
        assert(counts@ =~= micros_of(self@));
        counts.into_dart()
    }
}

} // verus!
