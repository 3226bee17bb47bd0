//! Helpers on instruction buffers: inserting, appending and replacing
//! elements in place, and membership.
use vstd::prelude::*;
use vstd::std_specs::cmp::PartialEqSpec;

verus! {

/// Why a buffer edit was refused.
#[derive(Clone, Copy, Debug, PartialEq, Eq, Structural)]
pub enum EditError {
    /// The position lies past the end of the buffer.
    OutOfRange,
}

/// `src` inserted into `dst` before position `idx`.
pub open spec fn inserted<T>(dst: Seq<T>, src: Seq<T>, idx: int) -> Seq<T> {
    dst.take(idx) + src + dst.skip(idx)
}

/// Inserts `src` into `dst` before position `idx`; inserting nothing always
/// succeeds, otherwise `idx` must not lie past the end.
pub fn insert<T: Copy>(dst: &mut Vec<T>, src: &[T], idx: usize) -> (r: Result<(), EditError>)
    ensures
        src@.len() == 0 ==> r is Ok && final(dst)@ == old(dst)@,
        src@.len() > 0 && idx <= old(dst)@.len() ==> r is Ok && final(dst)@ == inserted(old(dst)@, src@, idx as int),
        src@.len() > 0 && idx > old(dst)@.len() ==> r == Err::<(), EditError>(EditError::OutOfRange) && final(dst)@
            == old(dst)@,
{
    if src.len() == 0 {
        return Ok(());
    }
    if idx > dst.len() {
        return Err(EditError::OutOfRange);
    }
    let ghost d0 = dst@;
    let mut i: usize = 0;
    while i < src.len()
        invariant
            i <= src@.len(),
            idx <= d0.len(),
            dst@ == d0.take(idx as int) + src@.take(i as int) + d0.skip(idx as int),
        decreases src@.len() - i,
    {
        let n = dst.len();
        assert(idx + i <= n);
        dst.insert(idx + i, src[i]);
        assert(dst@ =~= d0.take(idx as int) + src@.take(i + 1) + d0.skip(idx as int));
        i = i + 1;
    }
    assert(src@.take(i as int) =~= src@);
    Ok(())
}

/// Appends `src` to the end of `dst`.
pub fn append<T: Copy>(dst: &mut Vec<T>, src: &[T]) -> (r: Result<(), EditError>)
    ensures
        r is Ok,
        final(dst)@ == old(dst)@ + src@,
{
    let len = dst.len();
    let r = insert(dst, src, len);
    assert(old(dst)@.take(len as int) =~= old(dst)@);
    assert(old(dst)@.skip(len as int) =~= Seq::<T>::empty());
    assert(inserted(old(dst)@, src@, len as int) =~= old(dst)@ + src@);
    r
}

/// Replaces the four-byte instruction at byte `idx` by the instructions in
/// `replacement`; an empty replacement removes it.
pub fn replace_insn(ori: &mut Vec<u8>, replacement: &[u8], idx: usize) -> (r: Result<(), EditError>)
    requires
        idx + 4 <= old(ori)@.len(),
        replacement@.len() == 0 || replacement@.len() >= 4,
    ensures
        r is Ok,
        final(ori)@ == old(ori)@.take(idx as int) + replacement@ + old(ori)@.skip(idx + 4),
{
    let ghost o = ori@;
    let total = ori.len();
    assert(idx + 4 <= total);
    if replacement.len() == 0 {
        let mut k: usize = 0;
        while k < 4
            invariant
                k <= 4,
                idx + 4 <= o.len(),
                ori@ == o.take(idx as int) + o.skip(idx + k),
            decreases 4 - k,
        {
            ori.remove(idx);
            assert(ori@ =~= o.take(idx as int) + o.skip(idx + k + 1));
            k = k + 1;
        }
        assert(replacement@ =~= Seq::<u8>::empty());
        assert(ori@ =~= o.take(idx as int) + replacement@ + o.skip(idx + 4));
        Ok(())
    } else {
        let mut k: usize = 0;
        while k < 4
            invariant
                k <= 4,
                idx + 4 <= o.len(),
                replacement@.len() >= 4,
                ori@.len() == o.len(),
                forall|m: int| 0 <= m < o.len() && !(idx <= m < idx + k) ==> ori@[m] == o[m],
                forall|m: int| 0 <= m < k ==> ori@[idx + m] == replacement@[m],
            decreases 4 - k,
        {
            let n = ori.len();
            assert(idx + k < n);
            ori.set(idx + k, replacement[k]);
            k = k + 1;
        }
        let n = ori.len();
        assert(idx + 4 <= n);
        let tail = slice_from(replacement, 4);
        let ghost mid = ori@;
        let _ = insert(ori, tail, idx + 4);
        proof {
            assert(mid.take(idx + 4) =~= o.take(idx as int) + replacement@.take(4));
            assert(mid.skip(idx + 4) =~= o.skip(idx + 4));
            assert(replacement@ =~= replacement@.take(4) + tail@);
            if tail@.len() == 0 {
                assert(mid =~= mid.take(idx + 4) + mid.skip(idx + 4));
            }
        }
        assert(ori@ =~= o.take(idx as int) + replacement@ + o.skip(idx + 4));
        Ok(())
    }
}

fn slice_from(s: &[u8], from: usize) -> (r: &[u8])
    requires
        from <= s@.len(),
    ensures
        r@ == s@.skip(from as int),
{
    let (_, tail) = s.split_at(from);
    assert(tail@ =~= s@.skip(from as int));
    tail
}

/// Whether `elem` occurs in `set`.
pub fn check_in<T: PartialEq + Eq>(set: &Vec<T>, elem: &T) -> (r: bool)
    ensures
        T::obeys_eq_spec() ==> (r <==> exists|i: int| 0 <= i < set@.len() && set@[i].eq_spec(elem)),
{
    let mut i: usize = 0;
    while i < set.len()
        invariant
            i <= set@.len(),
            T::obeys_eq_spec() ==> forall|k: int| 0 <= k < i ==> !set@[k].eq_spec(elem),
        decreases set@.len() - i,
    {
        if set[i] == *elem {
            return true;
        }
        i = i + 1;
    }
    false
}

} // verus!
