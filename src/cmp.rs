use core::cmp::Ordering;

use vstd::prelude::*;
use vstd::utf8::*;

use crate::buf::MaybeUtf8Buf;
use crate::slice::MaybeUtf8Slice;

verus! {

/// Unsigned lexicographic order of two byte sequences; a proper prefix comes
/// first.
pub open spec fn lex_cmp(a: Seq<u8>, b: Seq<u8>) -> Ordering
    decreases a.len(),
{
    if a.len() == 0 {
        if b.len() == 0 {
            Ordering::Equal
        } else {
            Ordering::Less
        }
    } else if b.len() == 0 {
        Ordering::Greater
    } else if a[0] < b[0] {
        Ordering::Less
    } else if a[0] > b[0] {
        Ordering::Greater
    } else {
        lex_cmp(a.drop_first(), b.drop_first())
    }
}

/// Two byte sequences are equal in the order exactly when they are the same.
pub proof fn lemma_lex_cmp_equal(a: Seq<u8>, b: Seq<u8>)
    ensures
        (lex_cmp(a, b) == Ordering::Equal) == (a == b),
    decreases a.len(),
{
    if a.len() == 0 && b.len() == 0 {
        assert(a =~= b);
    } else if a.len() > 0 && b.len() > 0 && a[0] == b[0] {
        lemma_lex_cmp_equal(a.drop_first(), b.drop_first());
        if a.drop_first() == b.drop_first() {
            assert(a =~= b) by {
                assert forall|i: int| 0 <= i < a.len() implies a[i] == b[i] by {
                    if i > 0 {
                        assert(a[i] == a.drop_first()[i - 1]);
                        assert(b[i] == b.drop_first()[i - 1]);
                    }
                }
            }
        }
    }
}

/// Compares two byte slices in unsigned lexicographic order.
pub(crate) fn compare_bytes(a: &[u8], b: &[u8]) -> (r: Ordering)
    ensures
        r == lex_cmp(a@, b@),
{
    let mut i: usize = 0;
    assert(a@.subrange(0, a@.len() as int) =~= a@);
    assert(b@.subrange(0, b@.len() as int) =~= b@);
    while i < a.len() && i < b.len()
        invariant
            i <= a@.len(),
            i <= b@.len(),
            lex_cmp(a@, b@) == lex_cmp(
                a@.subrange(i as int, a@.len() as int),
                b@.subrange(i as int, b@.len() as int),
            ),
        decreases a@.len() - i,
    {
        if a[i] < b[i] {
            return Ordering::Less;
        } else if a[i] > b[i] {
            return Ordering::Greater;
        }
        proof {
            let ra = a@.subrange(i as int, a@.len() as int);
            let rb = b@.subrange(i as int, b@.len() as int);
            assert(ra.drop_first() =~= a@.subrange(i + 1, a@.len() as int));
            assert(rb.drop_first() =~= b@.subrange(i + 1, b@.len() as int));
        }
        i = i + 1;
    }
    if a.len() == b.len() {
        Ordering::Equal
    } else if i == a.len() {
        Ordering::Less
    } else {
        Ordering::Greater
    }
}

/// Whether two byte slices hold the same bytes.
pub(crate) fn same_bytes(a: &[u8], b: &[u8]) -> (r: bool)
    ensures
        r == (a@ == b@),
{
    proof {
        lemma_lex_cmp_equal(a@, b@);
    }
    match compare_bytes(a, b) {
        Ordering::Equal => true,
        _ => false,
    }
}

impl PartialEq for MaybeUtf8Buf {
    fn eq(&self, other: &MaybeUtf8Buf) -> (r: bool) {
        same_bytes(self.as_bytes(), other.as_bytes())
    }
}

impl vstd::std_specs::cmp::PartialEqSpecImpl for MaybeUtf8Buf {
    open spec fn obeys_eq_spec() -> bool {
        true
    }

    open spec fn eq_spec(&self, other: &MaybeUtf8Buf) -> bool {
        self@.bytes() == other@.bytes()
    }
}

impl PartialOrd for MaybeUtf8Buf {
    fn partial_cmp(&self, other: &MaybeUtf8Buf) -> (r: Option<Ordering>) {
        Some(compare_bytes(self.as_bytes(), other.as_bytes()))
    }
}

impl vstd::std_specs::cmp::PartialOrdSpecImpl for MaybeUtf8Buf {
    open spec fn obeys_partial_cmp_spec() -> bool {
        true
    }

    open spec fn partial_cmp_spec(&self, other: &MaybeUtf8Buf) -> Option<Ordering> {
        Some(lex_cmp(self@.bytes(), other@.bytes()))
    }
}

impl<'b> PartialEq<MaybeUtf8Slice<'b>> for MaybeUtf8Buf {
    fn eq(&self, other: &MaybeUtf8Slice<'b>) -> (r: bool) {
        same_bytes(self.as_bytes(), other.as_bytes())
    }
}

impl<'b> vstd::std_specs::cmp::PartialEqSpecImpl<MaybeUtf8Slice<'b>> for MaybeUtf8Buf {
    open spec fn obeys_eq_spec() -> bool {
        true
    }

    open spec fn eq_spec(&self, other: &MaybeUtf8Slice<'b>) -> bool {
        self@.bytes() == other@.bytes()
    }
}

impl<'b> PartialOrd<MaybeUtf8Slice<'b>> for MaybeUtf8Buf {
    fn partial_cmp(&self, other: &MaybeUtf8Slice<'b>) -> (r: Option<Ordering>) {
        Some(compare_bytes(self.as_bytes(), other.as_bytes()))
    }
}

impl<'b> vstd::std_specs::cmp::PartialOrdSpecImpl<MaybeUtf8Slice<'b>> for MaybeUtf8Buf {
    open spec fn obeys_partial_cmp_spec() -> bool {
        true
    }

    open spec fn partial_cmp_spec(&self, other: &MaybeUtf8Slice<'b>) -> Option<Ordering> {
        Some(lex_cmp(self@.bytes(), other@.bytes()))
    }
}

impl<'b> PartialEq<&'b str> for MaybeUtf8Buf {
    fn eq(&self, other: &&'b str) -> (r: bool) {
        same_bytes(self.as_bytes(), other.as_bytes())
    }
}

impl<'b> vstd::std_specs::cmp::PartialEqSpecImpl<&'b str> for MaybeUtf8Buf {
    open spec fn obeys_eq_spec() -> bool {
        true
    }

    open spec fn eq_spec(&self, other: &&'b str) -> bool {
        self@.bytes() == encode_utf8(other@)
    }
}

impl<'b> PartialOrd<&'b str> for MaybeUtf8Buf {
    fn partial_cmp(&self, other: &&'b str) -> (r: Option<Ordering>) {
        Some(compare_bytes(self.as_bytes(), other.as_bytes()))
    }
}

impl<'b> vstd::std_specs::cmp::PartialOrdSpecImpl<&'b str> for MaybeUtf8Buf {
    open spec fn obeys_partial_cmp_spec() -> bool {
        true
    }

    open spec fn partial_cmp_spec(&self, other: &&'b str) -> Option<Ordering> {
        Some(lex_cmp(self@.bytes(), encode_utf8(other@)))
    }
}

impl<'b> PartialEq<&'b [u8]> for MaybeUtf8Buf {
    fn eq(&self, other: &&'b [u8]) -> (r: bool) {
        same_bytes(self.as_bytes(), *other)
    }
}

impl<'b> vstd::std_specs::cmp::PartialEqSpecImpl<&'b [u8]> for MaybeUtf8Buf {
    open spec fn obeys_eq_spec() -> bool {
        true
    }

    open spec fn eq_spec(&self, other: &&'b [u8]) -> bool {
        self@.bytes() == other@
    }
}

impl<'b> PartialOrd<&'b [u8]> for MaybeUtf8Buf {
    fn partial_cmp(&self, other: &&'b [u8]) -> (r: Option<Ordering>) {
        Some(compare_bytes(self.as_bytes(), *other))
    }
}

impl<'b> vstd::std_specs::cmp::PartialOrdSpecImpl<&'b [u8]> for MaybeUtf8Buf {
    open spec fn obeys_partial_cmp_spec() -> bool {
        true
    }

    open spec fn partial_cmp_spec(&self, other: &&'b [u8]) -> Option<Ordering> {
        Some(lex_cmp(self@.bytes(), other@))
    }
}

impl<'a> PartialEq<MaybeUtf8Buf> for MaybeUtf8Slice<'a> {
    fn eq(&self, other: &MaybeUtf8Buf) -> (r: bool) {
        same_bytes(self.as_bytes(), other.as_bytes())
    }
}

impl<'a> vstd::std_specs::cmp::PartialEqSpecImpl<MaybeUtf8Buf> for MaybeUtf8Slice<'a> {
    open spec fn obeys_eq_spec() -> bool {
        true
    }

    open spec fn eq_spec(&self, other: &MaybeUtf8Buf) -> bool {
        self@.bytes() == other@.bytes()
    }
}

impl<'a> PartialOrd<MaybeUtf8Buf> for MaybeUtf8Slice<'a> {
    fn partial_cmp(&self, other: &MaybeUtf8Buf) -> (r: Option<Ordering>) {
        Some(compare_bytes(self.as_bytes(), other.as_bytes()))
    }
}

impl<'a> vstd::std_specs::cmp::PartialOrdSpecImpl<MaybeUtf8Buf> for MaybeUtf8Slice<'a> {
    open spec fn obeys_partial_cmp_spec() -> bool {
        true
    }

    open spec fn partial_cmp_spec(&self, other: &MaybeUtf8Buf) -> Option<Ordering> {
        Some(lex_cmp(self@.bytes(), other@.bytes()))
    }
}

impl<'a, 'b> PartialEq<MaybeUtf8Slice<'b>> for MaybeUtf8Slice<'a> {
    fn eq(&self, other: &MaybeUtf8Slice<'b>) -> (r: bool) {
        same_bytes(self.as_bytes(), other.as_bytes())
    }
}

impl<'a, 'b> vstd::std_specs::cmp::PartialEqSpecImpl<MaybeUtf8Slice<'b>> for MaybeUtf8Slice<'a> {
    open spec fn obeys_eq_spec() -> bool {
        true
    }

    open spec fn eq_spec(&self, other: &MaybeUtf8Slice<'b>) -> bool {
        self@.bytes() == other@.bytes()
    }
}

impl<'a, 'b> PartialOrd<MaybeUtf8Slice<'b>> for MaybeUtf8Slice<'a> {
    fn partial_cmp(&self, other: &MaybeUtf8Slice<'b>) -> (r: Option<Ordering>) {
        Some(compare_bytes(self.as_bytes(), other.as_bytes()))
    }
}

impl<'a, 'b> vstd::std_specs::cmp::PartialOrdSpecImpl<MaybeUtf8Slice<'b>> for MaybeUtf8Slice<'a> {
    open spec fn obeys_partial_cmp_spec() -> bool {
        true
    }

    open spec fn partial_cmp_spec(&self, other: &MaybeUtf8Slice<'b>) -> Option<Ordering> {
        Some(lex_cmp(self@.bytes(), other@.bytes()))
    }
}

impl<'a, 'b> PartialEq<&'b str> for MaybeUtf8Slice<'a> {
    fn eq(&self, other: &&'b str) -> (r: bool) {
        same_bytes(self.as_bytes(), other.as_bytes())
    }
}

impl<'a, 'b> vstd::std_specs::cmp::PartialEqSpecImpl<&'b str> for MaybeUtf8Slice<'a> {
    open spec fn obeys_eq_spec() -> bool {
        true
    }

    open spec fn eq_spec(&self, other: &&'b str) -> bool {
        self@.bytes() == encode_utf8(other@)
    }
}

impl<'a, 'b> PartialOrd<&'b str> for MaybeUtf8Slice<'a> {
    fn partial_cmp(&self, other: &&'b str) -> (r: Option<Ordering>) {
        Some(compare_bytes(self.as_bytes(), other.as_bytes()))
    }
}

impl<'a, 'b> vstd::std_specs::cmp::PartialOrdSpecImpl<&'b str> for MaybeUtf8Slice<'a> {
    open spec fn obeys_partial_cmp_spec() -> bool {
        true
    }

    open spec fn partial_cmp_spec(&self, other: &&'b str) -> Option<Ordering> {
        Some(lex_cmp(self@.bytes(), encode_utf8(other@)))
    }
}

impl<'a, 'b> PartialEq<&'b [u8]> for MaybeUtf8Slice<'a> {
    fn eq(&self, other: &&'b [u8]) -> (r: bool) {
        same_bytes(self.as_bytes(), *other)
    }
}

impl<'a, 'b> vstd::std_specs::cmp::PartialEqSpecImpl<&'b [u8]> for MaybeUtf8Slice<'a> {
    open spec fn obeys_eq_spec() -> bool {
        true
    }

    open spec fn eq_spec(&self, other: &&'b [u8]) -> bool {
        self@.bytes() == other@
    }
}

impl<'a, 'b> PartialOrd<&'b [u8]> for MaybeUtf8Slice<'a> {
    fn partial_cmp(&self, other: &&'b [u8]) -> (r: Option<Ordering>) {
        Some(compare_bytes(self.as_bytes(), *other))
    }
}

impl<'a, 'b> vstd::std_specs::cmp::PartialOrdSpecImpl<&'b [u8]> for MaybeUtf8Slice<'a> {
    open spec fn obeys_partial_cmp_spec() -> bool {
        true
    }

    open spec fn partial_cmp_spec(&self, other: &&'b [u8]) -> Option<Ordering> {
        Some(lex_cmp(self@.bytes(), other@))
    }
}

impl Eq for MaybeUtf8Buf {

}

impl<'a> Eq for MaybeUtf8Slice<'a> {

}

} // verus!
