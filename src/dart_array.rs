//! Building the owned child array of an array message.
use vstd::prelude::*;

use crate::ffi::{
    blocks_of, children_view, lemma_children_view, owned_blocks, DartCObject, DartCObjectValue,
    DartNativeArray, DartValue,
};
use crate::into_dart::IntoDart;

verus! {

/// The children of an array message under construction: one heap-allocated
/// message per element.
pub struct DartArray {
    inner: Vec<Box<DartCObject>>,
}

impl DartArray {
    /// The contents of the children, in order.
    pub open spec fn view(self) -> Seq<DartValue> {
        children_view(self.inner_seq(), self.inner_seq().len() as nat)
    }

    pub closed spec fn inner_seq(self) -> Seq<Box<DartCObject>> {
        self.inner@
    }

    /// Encodes every element of `v`, consuming each exactly once; the k-th
    /// child is the encoding of the k-th element.
    pub fn from_vec<T: IntoDart>(v: Vec<T>) -> (r: DartArray)
        ensures
            r@ == v@.map_values(|x: T| x.dart_view()),
    {
        let ghost src = v@;
        let ghost n = src.len();
        let mut rest = v;
        let mut reversed: Vec<T> = Vec::new();
        while rest.len() > 0
            invariant
                n == src.len(),
                rest@ == src.subrange(0, rest@.len() as int),
                rest@.len() + reversed@.len() == n,
                forall|i: int| 0 <= i < reversed@.len() ==> #[trigger] reversed@[i] == src[n - 1 - i],
            decreases rest@.len(),
        {
            let x = rest.pop().unwrap();
            reversed.push(x);
        }
        let mut inner: Vec<Box<DartCObject>> = Vec::new();
        while reversed.len() > 0
            invariant
                n == src.len(),
                inner@.len() + reversed@.len() == n,
                forall|i: int| 0 <= i < reversed@.len() ==> #[trigger] reversed@[i] == src[n - 1 - i],
                forall|j: int| 0 <= j < inner@.len() ==> (*#[trigger] inner@[j])@ == src[j].dart_view(),
            decreases reversed@.len(),
        {
            let x = reversed.pop().unwrap();
            inner.push(Box::new(x.into_dart()));
        }
        proof {
            lemma_children_view(inner@, n as nat);
        }
        let r = DartArray { inner };
        assert(r@ =~= src.map_values(|x: T| x.dart_view()));
        r
    }

    /// The number of children.
    pub fn len(&self) -> (r: usize)
        ensures
            r == self@.len(),
    {
        proof {
            lemma_children_view(self.inner@, self.inner@.len() as nat);
        }
        self.inner.len()
    }
}

impl IntoDart for DartArray {
    open spec fn dart_view(&self) -> DartValue {
        DartValue::Array(self@)
    }

    /// Moves the children into an array message; the message's teardown
    /// reclaims them.
    fn into_dart(self) -> (r: DartCObject) {
        DartCObject { value: DartCObjectValue::Array(DartNativeArray { values: self.inner }) }
    }
}

/// The number of strings in the first `n` rows.
pub open spec fn strings_in(rows: Seq<Vec<String>>, n: nat) -> nat
    decreases n,
{
    if n == 0 || n > rows.len() {
        0
    } else {
        strings_in(rows, (n - 1) as nat) + rows[n - 1]@.len()
    }
}

proof fn lemma_string_row_blocks(row: Seq<String>, m: nat)
    requires
        m <= row.len(),
    ensures
        blocks_of(row.map_values(|s: String| s.dart_view()), m) == m,
    decreases m,
{
    let s = row.map_values(|x: String| x.dart_view());
    if m > 0 {
        lemma_string_row_blocks(row, (m - 1) as nat);
        assert(s[m - 1] is Str);
        assert(blocks_of(s, m) == blocks_of(s, (m - 1) as nat) + owned_blocks(s[m - 1]));
    }
}

proof fn lemma_rows_blocks(rows: Seq<Vec<String>>, m: nat)
    requires
        m <= rows.len(),
    ensures
        blocks_of(rows.map_values(|r: Vec<String>| r.dart_view()), m) == m + strings_in(rows, m),
    decreases m,
{
    if m > 0 {
        lemma_rows_blocks(rows, (m - 1) as nat);
        let row = rows[m - 1];
        lemma_string_row_blocks(row@, row@.len());
        let s = rows.map_values(|r: Vec<String>| r.dart_view());
        assert(s[m - 1] == DartValue::Array(row@.map_values(|x: String| x.dart_view())));
        assert(blocks_of(s, m) == blocks_of(s, (m - 1) as nat) + owned_blocks(s[m - 1]));
    }
}

/// The message of an array of arrays of strings owns one block per string,
/// one pointer block per inner array and the outer pointer block, and nothing
/// else: tearing it down (`run_destructors`) reclaims every block that its
/// encoding allocated.
pub proof fn lemma_nested_string_arrays_teardown(rows: Vec<Vec<String>>)
    ensures
        owned_blocks(rows.dart_view()) == 1 + rows@.len() + strings_in(rows@, rows@.len()),
{
    lemma_rows_blocks(rows@, rows@.len());
}

} // verus!
