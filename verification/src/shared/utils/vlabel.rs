//! Labels that tie an original pc to an offset in laid-out code.
use vstd::prelude::*;

verus! {

/// The code for `original_pc` begins at byte `offset`.
#[derive(Clone, Copy, Debug, PartialEq, Eq, Structural)]
pub struct VLabel {
    pub original_pc: u64,
    pub offset: usize,
}

/// Labels in insertion order.
#[derive(Debug, PartialEq, Eq)]
pub struct VLabels {
    entries: Vec<VLabel>,
}

/// The offset of the first label for `pc`.
pub open spec fn first_offset(s: Seq<VLabel>, pc: u64) -> Option<usize>
    decreases s.len(),
{
    if s.len() == 0 {
        None
    } else if s[0].original_pc == pc {
        Some(s[0].offset)
    } else {
        first_offset(s.subrange(1, s.len() as int), pc)
    }
}

/// The pc of the first label at `offset`.
pub open spec fn first_pc(s: Seq<VLabel>, offset: usize) -> Option<u64>
    decreases s.len(),
{
    if s.len() == 0 {
        None
    } else if s[0].offset == offset {
        Some(s[0].original_pc)
    } else {
        first_pc(s.subrange(1, s.len() as int), offset)
    }
}

impl VLabels {
    pub closed spec fn view(&self) -> Seq<VLabel> {
        self.entries@
    }

    pub fn from_entries(entries: Vec<VLabel>) -> (r: Self)
        ensures
            r.view() == entries@,
    {
        VLabels { entries }
    }

    /// Adds a label after the others.
    pub fn insert(&mut self, original_pc: u64, offset: usize)
        ensures
            final(self).view() == old(self).view().push(VLabel { original_pc, offset }),
    {
        self.entries.push(VLabel { original_pc, offset });
    }

    /// The offset of the first label for `original_pc`.
    pub fn offset_for_pc(&self, original_pc: u64) -> (r: Option<usize>)
        ensures
            r == first_offset(self.view(), original_pc),
    {
        let s = &self.entries;
        let mut i: usize = 0;
        assert(s@.subrange(0, s@.len() as int) =~= s@);
        while i < s.len()
            invariant
                i <= s@.len(),
                s@ == self.view(),
                first_offset(s@, original_pc) == first_offset(s@.subrange(i as int, s@.len() as int), original_pc),
            decreases s@.len() - i,
        {
            let ghost rest = s@.subrange(i as int, s@.len() as int);
            assert(rest.subrange(1, rest.len() as int) =~= s@.subrange(i as int + 1, s@.len() as int));
            assert(rest[0] == s@[i as int]);
            if s[i].original_pc == original_pc {
                return Some(s[i].offset);
            }
            i = i + 1;
        }
        None
    }

    /// The pc of the first label at `offset`.
    pub fn pc_for_offset(&self, offset: usize) -> (r: Option<u64>)
        ensures
            r == first_pc(self.view(), offset),
    {
        let s = &self.entries;
        let mut i: usize = 0;
        assert(s@.subrange(0, s@.len() as int) =~= s@);
        while i < s.len()
            invariant
                i <= s@.len(),
                s@ == self.view(),
                first_pc(s@, offset) == first_pc(s@.subrange(i as int, s@.len() as int), offset),
            decreases s@.len() - i,
        {
            let ghost rest = s@.subrange(i as int, s@.len() as int);
            assert(rest.subrange(1, rest.len() as int) =~= s@.subrange(i as int + 1, s@.len() as int));
            assert(rest[0] == s@[i as int]);
            if s[i].offset == offset {
                return Some(s[i].original_pc);
            }
            i = i + 1;
        }
        None
    }

    /// The labels, in insertion order.
    pub fn entries(&self) -> (r: &[VLabel])
        ensures
            r@ == self.view(),
    {
        self.entries.as_slice()
    }
}

/// After inserting a label for a pc that had none, looking the pc up finds
/// the new offset; lookups of other pcs are unchanged.
pub proof fn lemma_insert_then_lookup(s: Seq<VLabel>, pc: u64, offset: usize, other: u64)
    requires
        first_offset(s, pc) is None,
    ensures
        first_offset(s.push(VLabel { original_pc: pc, offset }), pc) == Some(offset),
        other != pc ==> first_offset(s.push(VLabel { original_pc: pc, offset }), other) == first_offset(s, other),
    decreases s.len(),
{
    let w = s.push(VLabel { original_pc: pc, offset });
    if s.len() > 0 {
        let t = s.subrange(1, s.len() as int);
        assert(w.subrange(1, w.len() as int) =~= t.push(VLabel { original_pc: pc, offset }));
        assert(w[0] == s[0]);
        assert(s[0].original_pc != pc);
        lemma_insert_then_lookup(t, pc, offset, other);
        if other != pc && s[0].original_pc != other {
            assert(first_offset(w, other) == first_offset(t.push(VLabel { original_pc: pc, offset }), other));
            assert(first_offset(s, other) == first_offset(t, other));
        }
    } else {
        assert(w.subrange(1, 1) =~= Seq::<VLabel>::empty());
        assert(w[0] == VLabel { original_pc: pc, offset });
        if other != pc {
            assert(first_offset(w, other) == first_offset(w.subrange(1, 1), other));
        }
    }
}

} // verus!
