//! Byte strings, and lists of them.
use vstd::prelude::*;

verus! {

/// The contents of a vector of byte strings.
pub open spec fn byte_strings(list: Seq<Vec<u8>>) -> Seq<Seq<u8>> {
    list.map_values(|bytes: Vec<u8>| bytes@)
}

/// The byte strings without those that equal the given one.
pub open spec fn without(list: Seq<Seq<u8>>, gone: Seq<u8>) -> Seq<Seq<u8>> {
    list.filter(|bytes: Seq<u8>| bytes != gone)
}

/// Taking one more byte string into account.
proof fn lemma_without_next(list: Seq<Seq<u8>>, gone: Seq<u8>, k: int)
    requires
        0 <= k < list.len(),
    ensures
        without(list.take(k + 1), gone) == if list[k] != gone {
            without(list.take(k), gone).push(list[k])
        } else {
            without(list.take(k), gone)
        },
{
    reveal(Seq::filter);
    assert(list.take(k + 1).drop_last() =~= list.take(k));
}

/// A copy of a byte string.
pub fn copy_bytes(bytes: &Vec<u8>) -> (copy: Vec<u8>)
    ensures
        copy@ == bytes@,
{
    let copy = bytes.clone();
    assert(copy@ =~= bytes@);
    copy
}

/// A copy of a list of byte strings.
pub fn copy_list(list: &Vec<Vec<u8>>) -> (copy: Vec<Vec<u8>>)
    ensures
        byte_strings(copy@) == byte_strings(list@),
{
    let mut copy: Vec<Vec<u8>> = Vec::new();
    let mut i: usize = 0;
    while i < list.len()
        invariant
            i <= list@.len(),
            copy@.len() == i,
            forall|j: int| 0 <= j < i ==> #[trigger] copy@[j]@ == list@[j]@,
        decreases list@.len() - i,
    {
        copy.push(copy_bytes(&list[i]));
        i += 1;
    }
    assert(byte_strings(copy@) =~= byte_strings(list@));
    copy
}

/// Whether two byte strings are equal.
pub fn same_bytes(left: &Vec<u8>, right: &Vec<u8>) -> (same: bool)
    ensures
        same == (left@ == right@),
{
    let same = *left == *right;
    assert(same ==> left@ =~= right@);
    same
}

/// Removes every byte string that equals the given one, and keeps the others in their order.
pub fn remove_bytes(list: &mut Vec<Vec<u8>>, gone: &Vec<u8>)
    ensures
        byte_strings(final(list)@) == without(byte_strings(old(list)@), gone@),
{
    let ghost all = byte_strings(list@);
    let ghost mut seen: int = 0;
    let mut i: usize = 0;
    proof {
        reveal(Seq::filter);
        assert(without(all.take(0), gone@) =~= Seq::<Seq<u8>>::empty());
        assert(byte_strings(list@) =~= Seq::<Seq<u8>>::empty() + all.skip(0));
    }
    while i < list.len()
        invariant
            0 <= seen <= all.len(),
            i == without(all.take(seen), gone@).len(),
            byte_strings(list@) == without(all.take(seen), gone@) + all.skip(seen),
        decreases list@.len() - i,
    {
        let ghost kept = without(all.take(seen), gone@);
        let ghost before = list@;
        assert(byte_strings(before).len() == before.len());
        assert(byte_strings(before)[i as int] == all[seen]);
        proof {
            lemma_without_next(all, gone@, seen);
        }
        if same_bytes(&list[i], gone) {
            list.remove(i);
            assert(byte_strings(list@) =~= kept + all.skip(seen + 1)) by {
                assert forall|j: int| 0 <= j < list@.len() implies byte_strings(list@)[j] == (kept
                    + all.skip(seen + 1))[j] by {
                    if j < i {
                        assert(byte_strings(before)[j] == kept[j]);
                    } else {
                        assert(byte_strings(before)[j + 1] == all.skip(seen)[j + 1 - i]);
                    }
                }
            }
        } else {
            i += 1;
            assert(kept + all.skip(seen) =~= kept.push(all[seen]) + all.skip(seen + 1));
        }
        proof {
            seen = seen + 1;
        }
    }
    assert(seen == all.len());
    assert(all.take(seen) =~= all);
    assert(all.skip(seen) =~= Seq::<Seq<u8>>::empty());
    assert(byte_strings(list@) =~= without(all, gone@));
}

/// A vector of byte strings stands for their contents, one by one.
pub proof fn law_contents(list: Seq<Vec<u8>>)
    ensures
        byte_strings(list).len() == list.len(),
        forall|i: int| 0 <= i < list.len() ==> #[trigger] byte_strings(list)[i] == list[i]@,
{
}

/// Of a list, exactly those byte strings are left out that equal the given one: there are none in
/// an empty list, and one more at the end of a list is kept there if and only if it is another one.
pub proof fn law_only_equal_ones_are_left_out(list: Seq<Seq<u8>>, next: Seq<u8>, gone: Seq<u8>)
    ensures
        without(Seq::empty(), gone).len() == 0,
        next == gone ==> without(list.push(next), gone) == without(list, gone),
        next != gone ==> without(list.push(next), gone) == without(list, gone).push(next),
{
    reveal(Seq::filter);
    assert(list.push(next).drop_last() =~= list);
}

} // verus!
