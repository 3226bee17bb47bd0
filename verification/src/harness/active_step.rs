//! Side-by-side stepping of original and translated code: the per-step
//! records, and the register and memory comparisons between the two sides.
use vstd::prelude::*;

use super::model::{Flags, HaltReason, MachineState, MachineView};
use super::trace::TraceFragment;
use crate::shared::trans::cfg::RuntimeExitReason;

verus! {

/// Where a translated instruction came from: its offset in the fragment and
/// the original pc it stands for, if any.
#[derive(Clone, Copy, Debug, PartialEq, Eq, Structural)]
pub struct ActiveStepOrigin {
    pub offset: usize,
    pub ori_pc: Option<u64>,
}

impl ActiveStepOrigin {
    /// The origin of each instruction of a laid-out fragment, in order.
    pub fn from_trace_fragment(fragment: &TraceFragment) -> (r: Vec<ActiveStepOrigin>)
        ensures
            r@.len() == fragment.insns@.len(),
            forall|i: int|
                0 <= i < r@.len() ==> r@[i] == (ActiveStepOrigin {
                    offset: fragment.insns@[i].offset,
                    ori_pc: fragment.insns@[i].ori_pc,
                }),
    {
        let mut r: Vec<ActiveStepOrigin> = Vec::new();
        let mut i: usize = 0;
        while i < fragment.insns.len()
            invariant
                i <= fragment.insns@.len(),
                r@.len() == i,
                forall|k: int|
                    0 <= k < i ==> r@[k] == (ActiveStepOrigin {
                        offset: fragment.insns@[k].offset,
                        ori_pc: fragment.insns@[k].ori_pc,
                    }),
            decreases fragment.insns@.len() - i,
        {
            r.push(ActiveStepOrigin { offset: fragment.insns[i].offset, ori_pc: fragment.insns[i].ori_pc });
            i = i + 1;
        }
        r
    }
}

/// The state before and after the latest step of one side.
#[derive(Debug, PartialEq, Eq)]
pub struct StateSnapshot {
    pub previous: MachineState,
    pub current: MachineState,
}

/// The original side of an active step.
#[derive(Debug, PartialEq, Eq)]
pub struct OriginalSideState {
    pub pc: u64,
    pub next_pc: Option<u64>,
    pub executed: bool,
    pub runtime_exit: Option<RuntimeExitReason>,
    pub halt_reason: Option<HaltReason>,
    pub resumed_at: Option<u64>,
    pub state: MachineState,
}

/// Whether an active step moved one translated instruction or one group of
/// translated instructions that stands for one original instruction.
#[derive(Clone, Copy, Debug, PartialEq, Eq, Structural)]
pub enum ActiveStepKind {
    TranslatedInstruction,
    OriginalGroup,
}

/// The original side ended at another pc than the translated side expected.
#[derive(Clone, Copy, Debug, PartialEq, Eq, Structural)]
pub struct OriginalPcMismatch {
    pub expected_pc: u64,
    pub actual_pc: u64,
}

/// A value shown in a register comparison.
#[derive(Clone, Copy, Debug, PartialEq, Eq, Structural)]
pub enum ComparisonValue {
    U64(u64),
    Flags(Flags),
}

/// One register of the two sides.
#[derive(Clone, Debug, PartialEq, Eq)]
pub struct RegisterComparisonRow {
    pub name: String,
    pub original: ComparisonValue,
    pub translated: ComparisonValue,
    pub equal: bool,
}

/// The display name of general register `reg`.
pub open spec fn x_name(reg: int) -> Seq<char> {
    if reg == 0 { "x0"@ } else if reg == 1 { "x1"@ } else if reg == 2 { "x2"@ } else if reg == 3 { "x3"@ }
    else if reg == 4 { "x4"@ } else if reg == 5 { "x5"@ } else if reg == 6 { "x6"@ } else if reg == 7 { "x7"@ }
    else if reg == 8 { "x8"@ } else if reg == 9 { "x9"@ } else if reg == 10 { "x10"@ } else if reg == 11 { "x11"@ }
    else if reg == 12 { "x12"@ } else if reg == 13 { "x13"@ } else if reg == 14 { "x14"@ } else if reg == 15 { "x15"@ }
    else if reg == 16 { "x16"@ } else if reg == 17 { "x17"@ } else if reg == 18 { "x18"@ } else if reg == 19 { "x19"@ }
    else if reg == 20 { "x20"@ } else if reg == 21 { "x21"@ } else if reg == 22 { "x22"@ } else if reg == 23 { "x23"@ }
    else if reg == 24 { "x24"@ } else if reg == 25 { "x25"@ } else if reg == 26 { "x26"@ } else if reg == 27 { "x27"@ }
    else if reg == 28 { "x28"@ } else if reg == 29 { "x29"@ } else { "x30"@ }
}

fn x_name_string(reg: u8) -> (r: String)
    requires
        reg < 31,
    ensures
        r@ == x_name(reg as int),
{
    let s = match reg {
        0 => "x0", 1 => "x1", 2 => "x2", 3 => "x3", 4 => "x4", 5 => "x5", 6 => "x6", 7 => "x7",
        8 => "x8", 9 => "x9", 10 => "x10", 11 => "x11", 12 => "x12", 13 => "x13", 14 => "x14",
        15 => "x15", 16 => "x16", 17 => "x17", 18 => "x18", 19 => "x19", 20 => "x20", 21 => "x21",
        22 => "x22", 23 => "x23", 24 => "x24", 25 => "x25", 26 => "x26", 27 => "x27", 28 => "x28",
        29 => "x29", _ => "x30",
    };
    s.to_owned()
}

/// Row `i` of the register comparison: x0..x30, then sp, then the flags.
pub open spec fn register_row_ok(row: RegisterComparisonRow, i: int, o: MachineView, t: MachineView) -> bool {
    if i < 31 {
        &&& row.name@ == x_name(i)
        &&& row.original == ComparisonValue::U64(o.x_at(i))
        &&& row.translated == ComparisonValue::U64(t.x_at(i))
        &&& row.equal == (o.x_at(i) == t.x_at(i))
    } else if i == 31 {
        &&& row.name@ == "sp"@
        &&& row.original == ComparisonValue::U64(o.sp)
        &&& row.translated == ComparisonValue::U64(t.sp)
        &&& row.equal == (o.sp == t.sp)
    } else {
        &&& row.name@ == "NZCV"@
        &&& row.original == ComparisonValue::Flags(o.flags)
        &&& row.translated == ComparisonValue::Flags(t.flags)
        &&& row.equal == (o.flags == t.flags)
    }
}

/// Compares the registers of two states: x0..x30, sp and NZCV, in that order.
pub fn register_comparison(original: &MachineState, translated: &MachineState) -> (r: Vec<
    RegisterComparisonRow,
>)
    ensures
        r@.len() == 33,
        forall|i: int| 0 <= i < 33 ==> register_row_ok(#[trigger] r@[i], i, original@, translated@),
{
    let mut rows: Vec<RegisterComparisonRow> = Vec::new();
    let mut reg: u8 = 0;
    while reg < 31
        invariant
            reg <= 31,
            rows@.len() == reg,
            forall|i: int| 0 <= i < reg ==> register_row_ok(#[trigger] rows@[i], i, original@, translated@),
        decreases 31 - reg,
    {
        let original_value = original.read_x(reg);
        let translated_value = translated.read_x(reg);
        rows.push(
            RegisterComparisonRow {
                name: x_name_string(reg),
                original: ComparisonValue::U64(original_value),
                translated: ComparisonValue::U64(translated_value),
                equal: original_value == translated_value,
            },
        );
        reg = reg + 1;
    }
    rows.push(
        RegisterComparisonRow {
            name: "sp".to_owned(),
            original: ComparisonValue::U64(original.sp()),
            translated: ComparisonValue::U64(translated.sp()),
            equal: original.sp() == translated.sp(),
        },
    );
    let of = original.flags();
    let tf = translated.flags();
    rows.push(
        RegisterComparisonRow {
            name: "NZCV".to_owned(),
            original: ComparisonValue::Flags(of),
            translated: ComparisonValue::Flags(tf),
            equal: of == tf,
        },
    );
    rows
}

/// One changed byte of the two sides.
#[derive(Clone, Copy, Debug, PartialEq, Eq, Structural)]
pub struct MemoryComparisonRow {
    pub addr: u64,
    pub before: Option<u8>,
    pub original: Option<u8>,
    pub translated: Option<u8>,
    pub original_changed: bool,
    pub translated_changed: bool,
    pub equal: bool,
}

/// The byte stored at `a`, if any.
pub open spec fn stored(m: Map<u64, u8>, a: u64) -> Option<u8> {
    if m.contains_key(a) {
        Some(m[a])
    } else {
        None
    }
}

/// A byte some side ever stored, outside the ignored ranges, that one of
/// the runs changed.
pub open spec fn reported(a: u64, i: MachineView, o: MachineView, t: MachineView, ranges: Seq<(u64, u64)>) -> bool {
    &&& (i.mem.contains_key(a) || o.mem.contains_key(a) || t.mem.contains_key(a))
    &&& !super::model::in_ranges(a, ranges)
    &&& (stored(i.mem, a) != stored(o.mem, a) || stored(i.mem, a) != stored(t.mem, a))
}

/// The comparison row for address `a`.
pub open spec fn memory_row(a: u64, i: MachineView, o: MachineView, t: MachineView) -> MemoryComparisonRow {
    MemoryComparisonRow {
        addr: a,
        before: stored(i.mem, a),
        original: stored(o.mem, a),
        translated: stored(t.mem, a),
        original_changed: stored(i.mem, a) != stored(o.mem, a),
        translated_changed: stored(i.mem, a) != stored(t.mem, a),
        equal: stored(o.mem, a) == stored(t.mem, a),
    }
}

pub open spec fn strictly_increasing(s: Seq<u64>) -> bool {
    forall|i: int, j: int| 0 <= i < j < s.len() ==> s[i] < s[j]
}

/// Merges two strictly increasing lists into the strictly increasing list of
/// their union.
pub(crate) fn sorted_union(a: &Vec<u64>, b: &Vec<u64>) -> (r: Vec<u64>)
    requires
        strictly_increasing(a@),
        strictly_increasing(b@),
    ensures
        strictly_increasing(r@),
        forall|x: u64| r@.contains(x) <==> (a@.contains(x) || b@.contains(x)),
{
    let mut r: Vec<u64> = Vec::new();
    let mut i: usize = 0;
    let mut j: usize = 0;
    while i < a.len() || j < b.len()
        invariant
            i <= a@.len(),
            j <= b@.len(),
            strictly_increasing(a@),
            strictly_increasing(b@),
            strictly_increasing(r@),
            forall|x: u64| r@.contains(x) <==> (a@.subrange(0, i as int).contains(x) || b@.subrange(0, j as int).contains(x)),
            r@.len() > 0 ==> (i < a@.len() ==> r@.last() < a@[i as int]) && (j < b@.len() ==> r@.last() < b@[j as int]),
        decreases a@.len() + b@.len() - i - j,
    {
        let ghost old_r = r@;
        let ghost oi = i;
        let ghost oj = j;
        if j >= b.len() || (i < a.len() && a[i] < b[j]) {
            r.push(a[i]);
            i = i + 1;
        } else if i >= a.len() || b[j] < a[i] {
            r.push(b[j]);
            j = j + 1;
        } else {
            r.push(a[i]);
            i = i + 1;
            j = j + 1;
        }
        proof {
            assert forall|x: u64| r@.contains(x) <==> (a@.subrange(0, i as int).contains(x) || b@.subrange(0, j as int).contains(x)) by {
                if r@.contains(x) {
                    let k = choose|k: int| 0 <= k < r@.len() && r@[k] == x;
                    if k < old_r.len() {
                        assert(old_r.contains(x));
                        if a@.subrange(0, oi as int).contains(x) {
                            let m = choose|m: int| 0 <= m < oi && a@.subrange(0, oi as int)[m] == x;
                            assert(a@.subrange(0, i as int)[m] == x);
                        } else {
                            let m = choose|m: int| 0 <= m < oj && b@.subrange(0, oj as int)[m] == x;
                            assert(b@.subrange(0, j as int)[m] == x);
                        }
                    } else {
                        if i > oi {
                            assert(a@.subrange(0, i as int)[oi as int] == a@[oi as int]);
                        }
                        if j > oj {
                            assert(b@.subrange(0, j as int)[oj as int] == b@[oj as int]);
                        }
                    }
                }
                if a@.subrange(0, i as int).contains(x) {
                    let m = choose|m: int| 0 <= m < i && a@.subrange(0, i as int)[m] == x;
                    if m < oi {
                        assert(a@.subrange(0, oi as int)[m] == x);
                        assert(old_r.contains(x));
                        let k = choose|k: int| 0 <= k < old_r.len() && old_r[k] == x;
                        assert(r@[k] == x);
                    } else {
                        assert(r@[old_r.len() as int] == x);
                    }
                }
                if b@.subrange(0, j as int).contains(x) {
                    let m = choose|m: int| 0 <= m < j && b@.subrange(0, j as int)[m] == x;
                    if m < oj {
                        assert(b@.subrange(0, oj as int)[m] == x);
                        assert(old_r.contains(x));
                        let k = choose|k: int| 0 <= k < old_r.len() && old_r[k] == x;
                        assert(r@[k] == x);
                    } else {
                        assert(r@[old_r.len() as int] == x);
                    }
                }
            }
        }
    }
    proof {
        assert(a@.subrange(0, i as int) =~= a@);
        assert(b@.subrange(0, j as int) =~= b@);
    }
    r
}

/// The bytes that either run changed against the initial state, outside the
/// ignored ranges, in increasing address order: exactly the reported
/// addresses, each with its row.
pub fn memory_comparison(
    initial: &MachineState,
    original: &MachineState,
    translated: &MachineState,
    ignored_ranges: &[(u64, u64)],
) -> (r: Vec<MemoryComparisonRow>)
    ensures
        forall|i: int, j: int| 0 <= i < j < r@.len() ==> r@[i].addr < r@[j].addr,
        forall|i: int|
            0 <= i < r@.len() ==> reported(r@[i].addr, initial@, original@, translated@, ignored_ranges@)
                && r@[i] == memory_row(r@[i].addr, initial@, original@, translated@),
        forall|a: u64|
            reported(a, initial@, original@, translated@, ignored_ranges@) ==> exists|i: int|
                0 <= i < r@.len() && r@[i].addr == a,
{
    let ia = initial.memory().addrs();
    let oa = original.memory().addrs();
    let ta = translated.memory().addrs();
    let io = sorted_union(&ia, &oa);
    let addrs = sorted_union(&io, &ta);
    let mut rows: Vec<MemoryComparisonRow> = Vec::new();
    let mut k: usize = 0;
    while k < addrs.len()
        invariant
            k <= addrs@.len(),
            strictly_increasing(addrs@),
            forall|x: u64| addrs@.contains(x) <==> (initial@.mem.contains_key(x) || original@.mem.contains_key(x) || translated@.mem.contains_key(x)),
            forall|i: int, j: int| 0 <= i < j < rows@.len() ==> rows@[i].addr < rows@[j].addr,
            forall|i: int|
                0 <= i < rows@.len() ==> reported(rows@[i].addr, initial@, original@, translated@, ignored_ranges@)
                    && rows@[i] == memory_row(rows@[i].addr, initial@, original@, translated@),
            k < addrs@.len() ==> forall|i: int| 0 <= i < rows@.len() ==> rows@[i].addr < addrs@[k as int],
            forall|m: int| 0 <= m < k && reported(#[trigger] addrs@[m], initial@, original@, translated@, ignored_ranges@)
                ==> exists|i: int| 0 <= i < rows@.len() && rows@[i].addr == addrs@[m],
        decreases addrs@.len() - k,
    {
        let addr = addrs[k];
        let ghost old_rows = rows@;
        assert(addrs@.contains(addr));
        if !super::model::addr_in_ranges(addr, ignored_ranges) {
            let before = initial.memory().get(addr);
            let original_value = original.memory().get(addr);
            let translated_value = translated.memory().get(addr);
            let original_changed = before != original_value;
            let translated_changed = before != translated_value;
            if original_changed || translated_changed {
                rows.push(
                    MemoryComparisonRow {
                        addr,
                        before,
                        original: original_value,
                        translated: translated_value,
                        original_changed,
                        translated_changed,
                        equal: original_value == translated_value,
                    },
                );
                proof {
                    assert(rows@[rows@.len() - 1].addr == addrs@[k as int]);
                }
            }
        }
        proof {
            if k + 1 < addrs@.len() {
                assert(addrs@[k as int] < addrs@[k + 1]);
            }
            assert forall|m: int| 0 <= m < k + 1 && reported(#[trigger] addrs@[m], initial@, original@, translated@, ignored_ranges@)
                implies exists|i: int| 0 <= i < rows@.len() && rows@[i].addr == addrs@[m] by {
                if m < k {
                    let i = choose|i: int| 0 <= i < old_rows.len() && old_rows[i].addr == addrs@[m];
                    assert(rows@[i] == old_rows[i]);
                } else {
                    assert(rows@[rows@.len() - 1].addr == addrs@[m]);
                }
            }
        }
        k = k + 1;
    }
    proof {
        assert forall|a: u64| reported(a, initial@, original@, translated@, ignored_ranges@) implies exists|i: int|
            0 <= i < rows@.len() && rows@[i].addr == a by {
            assert(addrs@.contains(a));
            let m = choose|m: int| 0 <= m < addrs@.len() && addrs@[m] == a;
        }
    }
    rows
}

} // verus!
