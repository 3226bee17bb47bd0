//! Code held in memory at a base address, read as a translator reads it.
use vstd::prelude::*;

use crate::shared::arm64::ir;
use crate::shared::trans::input::{CodeProvider, CodeReadError};
use crate::shared::trans::input;

verus! {

/// Code bytes mapped from `base` on.
#[derive(Debug)]
pub struct MockCodeProvider {
    base: u64,
    bytes: Vec<u8>,
}

impl MockCodeProvider {
    pub fn new(base: u64, bytes: Vec<u8>) -> (r: MockCodeProvider)
        ensures
            r.spec_base() == base,
            r.spec_bytes() == bytes@,
    {
        MockCodeProvider { base, bytes }
    }

    pub closed spec fn spec_base(&self) -> u64 {
        self.base
    }

    pub closed spec fn spec_bytes(&self) -> Seq<u8> {
        self.bytes@
    }

    /// The mapped bytes by address.
    pub open spec fn code_map(&self) -> Map<u64, u8> {
        Map::new(
            |a: u64| self.spec_base() <= a && (a - self.spec_base()) < self.spec_bytes().len(),
            |a: u64| self.spec_bytes()[a - self.spec_base()],
        )
    }
}

impl CodeProvider for MockCodeProvider {
    open spec fn spec_code(self) -> Map<u64, u8> {
        self.code_map()
    }

    /// Copies the bytes from `pc` on; refused when any of them lies outside
    /// the mapped bytes.
    fn read_exact(&self, pc: u64, dst: &mut [u8]) -> (r: Result<(), CodeReadError>)
        ensures
            r is Ok <==> forall|k: int|
                0 <= k < old(dst)@.len() ==> self.spec_code().contains_key(#[trigger] ir::wrap_add(pc, k)),
            r is Err ==> r == Err::<(), CodeReadError>(CodeReadError::Unmapped { pc, len: old(dst)@.len() as usize }),
    {
        let n = dst.len();
        if copy_mapped(self.base, &self.bytes, pc, dst) {
            proof {
                assert forall|k: int| 0 <= k < dst@.len() implies self.spec_code().contains_key(
                    #[trigger] ir::wrap_add(pc, k),
                ) && dst@[k] == self.spec_code()[ir::wrap_add(pc, k)] by {
                    assert(holds_at(self.base, self.bytes@, ir::wrap_add(pc, k), dst@[k]));
                }
                assert(input::reads_code(self.spec_code(), pc, dst@));
            }
            Ok(())
        } else {
            proof {
                let k = choose|k: int|
                    0 <= k < old(dst)@.len() && !#[trigger] mapped(self.base, self.bytes@, ir::wrap_add(pc, k));
                assert(!self.spec_code().contains_key(ir::wrap_add(pc, k)));
            }
            Err(CodeReadError::Unmapped { pc, len: n })
        }
    }
}

/// `a` lies in the `len` bytes mapped from `base` and `bytes[a - base] == b`.
pub open spec fn holds_at(base: u64, bytes: Seq<u8>, a: u64, b: u8) -> bool {
    &&& base <= a
    &&& a - base < bytes.len()
    &&& bytes[a - base] == b
}

/// `a` lies in the `len` bytes mapped from `base`.
pub open spec fn mapped(base: u64, bytes: Seq<u8>, a: u64) -> bool {
    base <= a && a - base < bytes.len()
}

/// Copies `dst.len()` bytes from address `pc` on out of `bytes` mapped at
/// `base`; false when one of the addresses is not mapped.
fn copy_mapped(base: u64, bytes: &Vec<u8>, pc: u64, dst: &mut [u8]) -> (ok: bool)
    ensures
        final(dst)@.len() == old(dst)@.len(),
        ok <==> forall|k: int| 0 <= k < old(dst)@.len() ==> #[trigger] mapped(base, bytes@, ir::wrap_add(pc, k)),
        ok ==> forall|k: int|
            0 <= k < old(dst)@.len() ==> #[trigger] holds_at(base, bytes@, ir::wrap_add(pc, k), final(dst)@[k]),
{
    let n = dst.len();
    let mut i: usize = 0;
    while i < n
        invariant
            n == dst@.len(),
            dst@.len() == old(dst)@.len(),
            i <= n,
            forall|k: int| 0 <= k < i ==> #[trigger] holds_at(base, bytes@, ir::wrap_add(pc, k), dst@[k]),
        decreases n - i,
    {
        proof {
            ir::lemma_wrapping_add(pc, i as u64);
        }
        let addr = pc.wrapping_add(i as u64);
        if addr < base || addr - base >= bytes.len() as u64 {
            proof {
                assert(!mapped(base, bytes@, ir::wrap_add(pc, i as int)));
            }
            return false;
        }
        dst[i] = bytes[(addr - base) as usize];
        i = i + 1;
    }
    proof {
        assert forall|k: int| 0 <= k < old(dst)@.len() implies #[trigger] mapped(base, bytes@, ir::wrap_add(pc, k)) by {
            assert(holds_at(base, bytes@, ir::wrap_add(pc, k), dst@[k]));
        }
    }
    true
}

} // verus!
