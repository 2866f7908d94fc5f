//! Byte-comparison filters over account data, as the RPC node applies them
//! when it lists or streams the accounts of a program.

use vstd::prelude::*;

verus! {

/// Keep only accounts whose data holds `value` at `offset`.
#[derive(Clone, Debug)]
pub struct AccountFilter {
    pub offset: usize,
    pub value: Vec<u8>,
}

impl View for AccountFilter {
    type V = (int, Seq<u8>);

    open spec fn view(&self) -> (int, Seq<u8>) {
        (self.offset as int, self.value@)
    }
}

/// The filters of a list, by their views.
pub open spec fn filters_view(fs: Seq<AccountFilter>) -> Seq<(int, Seq<u8>)> {
    fs.map_values(|f: AccountFilter| f@)
}

/// Whether account data holds the filter's bytes at the filter's offset.
pub open spec fn filter_matches(f: (int, Seq<u8>), data: Seq<u8>) -> bool {
    &&& 0 <= f.0
    &&& f.0 + f.1.len() <= data.len()
    &&& data.subrange(f.0, f.0 + f.1.len()) == f.1
}

/// Whether account data passes every filter of a list.
pub open spec fn all_filters_match(fs: Seq<(int, Seq<u8>)>, data: Seq<u8>) -> bool {
    forall|i: int| 0 <= i < fs.len() ==> #[trigger] filter_matches(fs[i], data)
}

/// A filter on the bytes of a slice.
pub fn bytes_filter(offset: usize, value: &[u8]) -> (f: AccountFilter)
    ensures
        f@ == (offset as int, value@),
{
    AccountFilter { offset, value: vstd::slice::slice_to_vec(value) }
}

/// A filter on a single byte.
pub fn byte_filter(offset: usize, value: u8) -> (f: AccountFilter)
    ensures
        f@ == (offset as int, seq![value]),
{
    let mut v: Vec<u8> = Vec::new();
    v.push(value);
    AccountFilter { offset, value: v }
}


/// Passing a concatenation of filter lists is passing both lists.
pub proof fn lemma_all_match_concat(a: Seq<(int, Seq<u8>)>, b: Seq<(int, Seq<u8>)>, data: Seq<u8>)
    ensures
        all_filters_match(a + b, data) <==> (all_filters_match(a, data) && all_filters_match(b, data)),
{
    if all_filters_match(a + b, data) {
        assert forall|i: int| 0 <= i < a.len() implies #[trigger] filter_matches(a[i], data) by {
            assert((a + b)[i] == a[i]);
        }
        assert forall|i: int| 0 <= i < b.len() implies #[trigger] filter_matches(b[i], data) by {
            assert((a + b)[a.len() + i] == b[i]);
        }
    }
    if all_filters_match(a, data) && all_filters_match(b, data) {
        assert forall|i: int| 0 <= i < (a + b).len() implies #[trigger] filter_matches((a + b)[i], data) by {
            if i < a.len() {
                assert((a + b)[i] == a[i]);
            } else {
                assert((a + b)[i] == b[i - a.len()]);
            }
        }
    }
}

/// Passing a one-filter list is passing that filter.
pub proof fn lemma_all_match_single(f: (int, Seq<u8>), data: Seq<u8>)
    ensures
        all_filters_match(seq![f], data) <==> filter_matches(f, data),
{
    if filter_matches(f, data) {
        assert forall|i: int| 0 <= i < seq![f].len() implies #[trigger] filter_matches(seq![f][i], data) by {
            assert(seq![f][i] == f);
        }
    }
    if all_filters_match(seq![f], data) {
        assert(filter_matches(seq![f][0], data));
    }
}

/// A one-byte filter matches where the data holds that byte at the offset.
pub proof fn lemma_byte_filter_matches(offset: int, b: u8, data: Seq<u8>)
    requires
        0 <= offset,
    ensures
        filter_matches((offset, seq![b]), data) <==> (offset < data.len() && data[offset] == b),
{
    if offset < data.len() && data[offset] == b {
        assert(data.subrange(offset, offset + 1) =~= seq![b]);
    }
    if filter_matches((offset, seq![b]), data) {
        assert(data.subrange(offset, offset + 1)[0] == data[offset]);
    }
}

} // verus!
