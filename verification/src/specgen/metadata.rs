//! Which roles the fields of an instruction form play: read or written
//! registers, memory bases and offsets, branch targets, flags.
use vstd::prelude::*;
use vstd::string::{StrSliceExecFns, StringExecFns, StringSliceAdditionalSpecFns};

use super::model::{AsmOperand, FieldSlice, OperandRoleSpec};
use super::subset::{lowercase, to_lowercase};
use crate::harness::explorer::trim;

verus! {

/// Text order: the first differing character decides, and a proper prefix
/// comes first.
pub open spec fn text_lt(a: Seq<char>, b: Seq<char>) -> bool
    decreases a.len(),
{
    if a.len() == 0 {
        b.len() > 0
    } else if b.len() == 0 {
        false
    } else if a[0] != b[0] {
        (a[0] as int) < (b[0] as int)
    } else {
        text_lt(a.drop_first(), b.drop_first())
    }
}

proof fn lemma_text_lt_irreflexive(a: Seq<char>)
    ensures
        !text_lt(a, a),
    decreases a.len(),
{
    if a.len() > 0 {
        lemma_text_lt_irreflexive(a.drop_first());
    }
}

proof fn lemma_text_lt_transitive(a: Seq<char>, b: Seq<char>, c: Seq<char>)
    requires
        text_lt(a, b),
        text_lt(b, c),
    ensures
        text_lt(a, c),
    decreases a.len(),
{
    if a.len() > 0 && b.len() > 0 && c.len() > 0 && a[0] == b[0] && b[0] == c[0] {
        lemma_text_lt_transitive(a.drop_first(), b.drop_first(), c.drop_first());
    }
}

proof fn lemma_text_lt_total(a: Seq<char>, b: Seq<char>)
    requires
        a != b,
    ensures
        text_lt(a, b) || text_lt(b, a),
    decreases a.len(),
{
    if a.len() == 0 && b.len() == 0 {
        assert(a =~= b);
    } else if a.len() > 0 && b.len() > 0 && a[0] == b[0] {
        if a.drop_first() == b.drop_first() {
            assert(a =~= seq![a[0]] + a.drop_first());
            assert(b =~= seq![b[0]] + b.drop_first());
            assert(a =~= b);
        }
        lemma_text_lt_total(a.drop_first(), b.drop_first());
    } else if a.len() > 0 && b.len() > 0 {
        assert((a[0] as int) != (b[0] as int));
    }
}

proof fn lemma_text_lt_skip(a: Seq<char>, b: Seq<char>, i: int)
    requires
        0 <= i <= a.len(),
        i <= b.len(),
        a.take(i) == b.take(i),
    ensures
        text_lt(a, b) == text_lt(a.skip(i), b.skip(i)),
    decreases i,
{
    if i > 0 {
        assert(a[0] == a.take(i)[0]);
        assert(b[0] == b.take(i)[0]);
        assert(a.drop_first().take(i - 1) =~= a.take(i).drop_first());
        assert(b.drop_first().take(i - 1) =~= b.take(i).drop_first());
        lemma_text_lt_skip(a.drop_first(), b.drop_first(), i - 1);
        assert(a.drop_first().skip(i - 1) =~= a.skip(i));
        assert(b.drop_first().skip(i - 1) =~= b.skip(i));
    } else {
        assert(a.skip(0) =~= a);
        assert(b.skip(0) =~= b);
    }
}

/// How two texts compare.
#[derive(Clone, Copy, Debug, PartialEq, Eq, Structural)]
pub enum TextOrder {
    Before,
    Same,
    After,
}

/// Compares two texts character by character.
pub fn text_order(a: &str, b: &str) -> (r: TextOrder)
    ensures
        r == TextOrder::Before <==> text_lt(a@, b@),
        r == TextOrder::Same <==> a@ == b@,
        r == TextOrder::After <==> text_lt(b@, a@),
{
    let na = a.unicode_len();
    let nb = b.unicode_len();
    let mut i: usize = 0;
    while i < na && i < nb
        invariant
            na == a@.len(),
            nb == b@.len(),
            i <= na,
            i <= nb,
            a@.take(i as int) == b@.take(i as int),
        decreases na - i,
    {
        let ca = a.get_char(i);
        let cb = b.get_char(i);
        if ca != cb {
            proof {
                lemma_text_lt_skip(a@, b@, i as int);
                lemma_text_lt_skip(b@, a@, i as int);
                assert(a@.skip(i as int)[0] == ca);
                assert(b@.skip(i as int)[0] == cb);
            }
            if (ca as u32) < (cb as u32) {
                return TextOrder::Before;
            } else {
                return TextOrder::After;
            }
        }
        assert(a@.take(i + 1) =~= a@.take(i as int).push(ca));
        assert(b@.take(i + 1) =~= b@.take(i as int).push(cb));
        i = i + 1;
    }
    proof {
        lemma_text_lt_skip(a@, b@, i as int);
        lemma_text_lt_skip(b@, a@, i as int);
        lemma_text_lt_irreflexive(a@);
    }
    if na == nb {
        assert(a@ =~= a@.take(i as int));
        assert(b@ =~= b@.take(i as int));
        TextOrder::Same
    } else if na < nb {
        proof {
            if a@ == b@ {
                assert(a@.len() == b@.len());
            }
        }
        TextOrder::Before
    } else {
        proof {
            if a@ == b@ {
                assert(a@.len() == b@.len());
            }
        }
        TextOrder::After
    }
}

/// Whether two texts are the same.
pub fn same_text(a: &str, b: &str) -> (r: bool)
    ensures
        r == (a@ == b@),
{
    match text_order(a, b) {
        TextOrder::Same => true,
        _ => false,
    }
}

/// A role as text: its kind, its field and its width.
pub open spec fn role_of(t: (String, String, String)) -> (Seq<char>, Seq<char>, Seq<char>) {
    (t.0@, t.1@, t.2@)
}

/// Roles in order of kind, then field, then width.
pub open spec fn role_lt(a: (Seq<char>, Seq<char>, Seq<char>), b: (Seq<char>, Seq<char>, Seq<char>)) -> bool {
    ||| text_lt(a.0, b.0)
    ||| a.0 == b.0 && text_lt(a.1, b.1)
    ||| a.0 == b.0 && a.1 == b.1 && text_lt(a.2, b.2)
}

proof fn lemma_role_lt_irreflexive(a: (Seq<char>, Seq<char>, Seq<char>))
    ensures
        !role_lt(a, a),
{
    lemma_text_lt_irreflexive(a.0);
    lemma_text_lt_irreflexive(a.1);
    lemma_text_lt_irreflexive(a.2);
}

proof fn lemma_role_lt_transitive(
    a: (Seq<char>, Seq<char>, Seq<char>),
    b: (Seq<char>, Seq<char>, Seq<char>),
    c: (Seq<char>, Seq<char>, Seq<char>),
)
    requires
        role_lt(a, b),
        role_lt(b, c),
    ensures
        role_lt(a, c),
{
    if text_lt(a.0, b.0) && text_lt(b.0, c.0) {
        lemma_text_lt_transitive(a.0, b.0, c.0);
    }
    if a.0 == b.0 && b.0 == c.0 && text_lt(a.1, b.1) && text_lt(b.1, c.1) {
        lemma_text_lt_transitive(a.1, b.1, c.1);
    }
    if a.0 == b.0 && b.0 == c.0 && a.1 == b.1 && b.1 == c.1 && text_lt(a.2, b.2) && text_lt(b.2, c.2) {
        lemma_text_lt_transitive(a.2, b.2, c.2);
    }
}

proof fn lemma_role_lt_total(a: (Seq<char>, Seq<char>, Seq<char>), b: (Seq<char>, Seq<char>, Seq<char>))
    requires
        a != b,
    ensures
        role_lt(a, b) || role_lt(b, a),
{
    if a.0 != b.0 {
        lemma_text_lt_total(a.0, b.0);
    } else if a.1 != b.1 {
        lemma_text_lt_total(a.1, b.1);
    } else {
        if a.2 == b.2 {
            assert(a == b);
        }
        lemma_text_lt_total(a.2, b.2);
    }
}

/// Compares two roles.
fn role_order(a: &(String, String, String), k: &str, f: &str, w: &str) -> (r: TextOrder)
    ensures
        r == TextOrder::Before <==> role_lt(role_of(*a), (k@, f@, w@)),
        r == TextOrder::Same <==> role_of(*a) == (k@, f@, w@),
        r == TextOrder::After <==> role_lt((k@, f@, w@), role_of(*a)),
{
    proof {
        lemma_text_lt_irreflexive(k@);
        lemma_text_lt_irreflexive(f@);
        lemma_text_lt_irreflexive(w@);
    }
    match text_order(a.0.as_str(), k) {
        TextOrder::Same => {},
        o => {
            proof {
                if text_lt(a.0@, k@) {
                    if text_lt(k@, a.0@) {
                        lemma_text_lt_transitive(a.0@, k@, a.0@);
                        lemma_text_lt_irreflexive(a.0@);
                    }
                }
            }
            return o;
        },
    }
    match text_order(a.1.as_str(), f) {
        TextOrder::Same => {},
        o => {
            proof {
                if text_lt(a.1@, f@) {
                    if text_lt(f@, a.1@) {
                        lemma_text_lt_transitive(a.1@, f@, a.1@);
                        lemma_text_lt_irreflexive(a.1@);
                    }
                }
            }
            return o;
        },
    }
    let o = text_order(a.2.as_str(), w);
    proof {
        if text_lt(a.2@, w@) {
            if text_lt(w@, a.2@) {
                lemma_text_lt_transitive(a.2@, w@, a.2@);
                lemma_text_lt_irreflexive(a.2@);
            }
        }
    }
    o
}

/// Every role comes before the ones after it.
pub open spec fn roles_sorted(s: Seq<(Seq<char>, Seq<char>, Seq<char>)>) -> bool {
    forall|i: int, j: int| 0 <= i < j < s.len() ==> role_lt(s[i], s[j])
}

/// A set of roles, kept in order.
pub struct RoleSet {
    items: Vec<(String, String, String)>,
}

impl RoleSet {
    /// The roles in order.
    pub closed spec fn seq(&self) -> Seq<(Seq<char>, Seq<char>, Seq<char>)> {
        self.items@.map_values(|t: (String, String, String)| role_of(t))
    }

    pub closed spec fn wf(&self) -> bool {
        roles_sorted(self.seq())
    }

    /// The roles as a set.
    pub open spec fn spec_set(&self) -> Set<(Seq<char>, Seq<char>, Seq<char>)> {
        self.seq().to_set()
    }

    pub fn new() -> (r: Self)
        ensures
            r.wf(),
            r.seq() == Seq::<(Seq<char>, Seq<char>, Seq<char>)>::empty(),
            r.spec_set() == Set::<(Seq<char>, Seq<char>, Seq<char>)>::empty(),
    {
        let r = RoleSet { items: Vec::new() };
        assert(r.seq() =~= Seq::<(Seq<char>, Seq<char>, Seq<char>)>::empty());
        assert(r.spec_set() =~= Set::<(Seq<char>, Seq<char>, Seq<char>)>::empty());
        r
    }

    pub fn len(&self) -> (r: usize)
        ensures
            r == self.seq().len(),
    {
        self.items.len()
    }

    /// The role at position `i` of the order.
    pub fn get(&self, i: usize) -> (r: &(String, String, String))
        requires
            i < self.seq().len(),
        ensures
            role_of(*r) == self.seq()[i as int],
    {
        &self.items[i]
    }

    proof fn lemma_wf_distinct(&self)
        requires
            self.wf(),
        ensures
            forall|i: int, j: int| 0 <= i < self.seq().len() && 0 <= j < self.seq().len() && i != j ==> self.seq()[i] != self.seq()[j],
    {
        assert forall|i: int, j: int| 0 <= i < self.seq().len() && 0 <= j < self.seq().len() && i != j implies self.seq()[i] != self.seq()[j] by {
            lemma_role_lt_irreflexive(self.seq()[i]);
        }
    }

    /// Where `(k, f, w)` stands or would stand: the first position whose role
    /// does not come before it.
    fn position(&self, k: &str, f: &str, w: &str) -> (r: usize)
        requires
            self.wf(),
        ensures
            r <= self.seq().len(),
            forall|i: int| 0 <= i < r ==> role_lt(#[trigger] self.seq()[i], (k@, f@, w@)),
            r < self.seq().len() ==> !role_lt(self.seq()[r as int], (k@, f@, w@)),
    {
        let mut i: usize = 0;
        while i < self.items.len()
            invariant
                i <= self.seq().len(),
                self.seq().len() == self.items@.len(),
                forall|j: int| 0 <= j < i ==> role_lt(#[trigger] self.seq()[j], (k@, f@, w@)),
            decreases self.items@.len() - i,
        {
            match role_order(&self.items[i], k, f, w) {
                TextOrder::Before => {},
                _ => {
                    return i;
                },
            }
            i = i + 1;
        }
        i
    }

    /// Whether the set holds `(k, f, w)`.
    pub fn contains(&self, k: &str, f: &str, w: &str) -> (r: bool)
        requires
            self.wf(),
        ensures
            r == self.spec_set().contains((k@, f@, w@)),
    {
        let i = self.position(k, f, w);
        let r = i < self.items.len() && same_role(&self.items[i], k, f, w);
        proof {
            if self.spec_set().contains((k@, f@, w@)) {
                let j = choose|j: int| 0 <= j < self.seq().len() && self.seq()[j] == (k@, f@, w@);
                lemma_role_lt_irreflexive((k@, f@, w@));
                if j >= i {
                    if j > i {
                        assert(role_lt(self.seq()[i as int], self.seq()[j]));
                        if self.seq()[i as int] != (k@, f@, w@) {
                            lemma_role_lt_total(self.seq()[i as int], (k@, f@, w@));
                        }
                    }
                }
            }
            if r {
                assert(self.seq()[i as int] == (k@, f@, w@));
            }
        }
        r
    }

    /// Adds `(k, f, w)`.
    pub fn insert(&mut self, k: &str, f: &str, w: &str)
        requires
            old(self).wf(),
        ensures
            final(self).wf(),
            final(self).spec_set() == old(self).spec_set().insert((k@, f@, w@)),
    {
        let i = self.position(k, f, w);
        if i < self.items.len() && same_role(&self.items[i], k, f, w) {
            proof {
                assert(self.spec_set().contains((k@, f@, w@)));
                assert(self.spec_set().insert((k@, f@, w@)) =~= self.spec_set());
            }
            return;
        }
        let ghost o = self.seq();
        let x = (String::from_str(k), String::from_str(f), String::from_str(w));
        self.items.insert(i, x);
        proof {
            let x = (k@, f@, w@);
            assert(self.seq() =~= o.insert(i as int, x));
            if (i as int) < o.len() {
                lemma_role_lt_total(o[i as int], x);
            }
            assert forall|a: int, b: int| 0 <= a < b < self.seq().len() implies role_lt(self.seq()[a], self.seq()[b]) by {
                if b < i {
                } else if b == i {
                } else if a < i {
                    lemma_role_lt_transitive(o[a], x, o[i as int]);
                    if b - 1 > i {
                        lemma_role_lt_transitive(o[a], o[i as int], o[b - 1]);
                    }
                } else if a == i {
                    if b - 1 > i {
                        lemma_role_lt_transitive(x, o[i as int], o[b - 1]);
                    }
                } else {
                }
            }
            assert(self.spec_set() =~= o.to_set().insert(x)) by {
                assert forall|y| self.spec_set().contains(y) <==> o.to_set().insert(x).contains(y) by {
                    if self.spec_set().contains(y) {
                        let k2 = choose|k2: int| 0 <= k2 < self.seq().len() && self.seq()[k2] == y;
                        if k2 < i {
                            assert(o[k2] == y);
                        } else if k2 > i {
                            assert(o[k2 - 1] == y);
                        }
                    }
                    if o.to_set().contains(y) {
                        let k2 = choose|k2: int| 0 <= k2 < o.len() && o[k2] == y;
                        if k2 < i {
                            assert(self.seq()[k2] == y);
                        } else {
                            assert(self.seq()[k2 + 1] == y);
                        }
                    }
                    if y == x {
                        assert(self.seq()[i as int] == x);
                    }
                }
            }
        }
    }

    /// Drops `(k, f, w)`, if the set holds it.
    pub fn remove(&mut self, k: &str, f: &str, w: &str)
        requires
            old(self).wf(),
        ensures
            final(self).wf(),
            final(self).spec_set() == old(self).spec_set().remove((k@, f@, w@)),
    {
        let i = self.position(k, f, w);
        let ghost o = self.seq();
        proof {
            self.lemma_wf_distinct();
        }
        if i < self.items.len() && same_role(&self.items[i], k, f, w) {
            self.items.remove(i);
            proof {
                let x = (k@, f@, w@);
                assert(self.seq() =~= o.remove(i as int));
                assert forall|a: int, b: int| 0 <= a < b < self.seq().len() implies role_lt(self.seq()[a], self.seq()[b]) by {
                    if a < i && b >= i {
                        assert(role_lt(o[a], o[b + 1]));
                    } else if a >= i {
                        assert(role_lt(o[a + 1], o[b + 1]));
                    }
                }
                assert forall|y| self.spec_set().contains(y) <==> o.to_set().remove(x).contains(y) by {
                    if self.spec_set().contains(y) {
                        let k2 = choose|k2: int| 0 <= k2 < self.seq().len() && self.seq()[k2] == y;
                        if k2 < i {
                            assert(o[k2] == y);
                        } else {
                            assert(o[k2 + 1] == y);
                        }
                    }
                    if o.to_set().remove(x).contains(y) {
                        let k2 = choose|k2: int| 0 <= k2 < o.len() && o[k2] == y;
                        if k2 < i {
                            assert(self.seq()[k2] == y);
                        } else {
                            assert(self.seq()[k2 - 1] == y);
                        }
                    }
                }
                assert(self.spec_set() =~= o.to_set().remove(x));
            }
        } else {
            proof {
                let x = (k@, f@, w@);
                if o.to_set().contains(x) {
                    let j = choose|j: int| 0 <= j < o.len() && o[j] == x;
                    lemma_role_lt_irreflexive(x);
                    if j > i {
                        assert(role_lt(o[i as int], o[j]));
                        if o[i as int] != x {
                            lemma_role_lt_total(o[i as int], x);
                        }
                    }
                }
                assert(o.to_set().remove(x) =~= o.to_set());
            }
        }
    }
}

/// The role a write of the link register becomes.
pub open spec fn link_write() -> (Seq<char>, Seq<char>, Seq<char>) {
    ("ImplicitRegWrite"@, "x30"@, "X64"@)
}

/// Whether a role writes the link register by name.
pub open spec fn writes_link(t: (Seq<char>, Seq<char>, Seq<char>)) -> bool {
    t.0 == "RegWrite"@ && t.1 == "x30"@
}

/// Writes of the link register become its implicit write.
pub open spec fn link_writes_merged(roles: Set<(Seq<char>, Seq<char>, Seq<char>)>) -> Set<(Seq<char>, Seq<char>, Seq<char>)> {
    let kept = roles.filter(|t: (Seq<char>, Seq<char>, Seq<char>)| !writes_link(t));
    if exists|t: (Seq<char>, Seq<char>, Seq<char>)| roles.contains(t) && writes_link(t) {
        kept.insert(link_write())
    } else {
        kept
    }
}

/// Whether `roles` gives the kind and field of `t` some known width.
pub open spec fn known_width(roles: Set<(Seq<char>, Seq<char>, Seq<char>)>, t: (Seq<char>, Seq<char>, Seq<char>)) -> bool {
    exists|w: Seq<char>| w != "Unknown"@ && roles.contains((t.0, t.1, w))
}

/// A role of unknown width is dropped where the same kind and field has a
/// known width.
pub open spec fn unknown_widths_dropped(
    roles: Set<(Seq<char>, Seq<char>, Seq<char>)>,
    s: Set<(Seq<char>, Seq<char>, Seq<char>)>,
) -> Set<(Seq<char>, Seq<char>, Seq<char>)> {
    s.filter(|t: (Seq<char>, Seq<char>, Seq<char>)| !(t.2 == "Unknown"@ && known_width(roles, t)))
}

/// Whether `t` reads or writes a register that `s` also reads and writes.
pub open spec fn covered_by_read_write(s: Set<(Seq<char>, Seq<char>, Seq<char>)>, t: (Seq<char>, Seq<char>, Seq<char>)) -> bool {
    (t.0 == "RegRead"@ || t.0 == "RegWrite"@) && s.contains(("RegReadWrite"@, t.1, t.2))
}

/// Roles made consistent: a write of the link register by name becomes its
/// implicit write; a role of unknown width gives way to the same role with
/// a known one; a read and a write of a register that is read and written
/// give way to that.
pub open spec fn spec_simplify(roles: Set<(Seq<char>, Seq<char>, Seq<char>)>) -> Set<(Seq<char>, Seq<char>, Seq<char>)> {
    let s2 = unknown_widths_dropped(roles, link_writes_merged(roles));
    s2.filter(|t: (Seq<char>, Seq<char>, Seq<char>)| !covered_by_read_write(s2, t))
}

/// Whether one of the first `n` pairs is `(f, w)`.
pub open spec fn pair_listed(rw: Seq<(String, String)>, n: int, f: Seq<char>, w: Seq<char>) -> bool {
    exists|k: int| 0 <= k < n && rw[k].0@ == f && rw[k].1@ == w
}

/// Whether one of the first `m` roles reads and writes `(f, w)`.
pub open spec fn read_write_listed(s: Seq<(Seq<char>, Seq<char>, Seq<char>)>, m: int, f: Seq<char>, w: Seq<char>) -> bool {
    exists|k: int| 0 <= k < m && s[k] == ("RegReadWrite"@, f, w)
}

/// Makes a set of roles consistent (see `spec_simplify`).
pub fn simplify_roles(roles: &RoleSet) -> (r: RoleSet)
    requires
        roles.wf(),
    ensures
        r.wf(),
        r.spec_set() == spec_simplify(roles.spec_set()),
{
    let ghost all = roles.spec_set();
    let mut s = RoleSet::new();
    let mut writes_lr = false;
    let mut i: usize = 0;
    while i < roles.len()
        invariant
            roles.wf(),
            s.wf(),
            all == roles.spec_set(),
            i <= roles.seq().len(),
            writes_lr == exists|k: int| 0 <= k < i && writes_link(#[trigger] roles.seq()[k]),
            forall|y: (Seq<char>, Seq<char>, Seq<char>)| #[trigger] s.spec_set().contains(y) <==> (!writes_link(y) && exists|k: int| 0 <= k < i && roles.seq()[k] == y),
        decreases roles.seq().len() - i,
    {
        let t = roles.get(i);
        let ghost tv = roles.seq()[i as int];
        if same_text(t.0.as_str(), "RegWrite") && same_text(t.1.as_str(), "x30") {
            writes_lr = true;
        } else {
            s.insert(t.0.as_str(), t.1.as_str(), t.2.as_str());
        }
        proof {
            assert forall|y: (Seq<char>, Seq<char>, Seq<char>)| #[trigger] s.spec_set().contains(y) <==> (!writes_link(y) && exists|k: int| 0 <= k < i + 1 && roles.seq()[k] == y) by {
                if exists|k: int| 0 <= k < i + 1 && roles.seq()[k] == y {
                    let k = choose|k: int| 0 <= k < i + 1 && roles.seq()[k] == y;
                    if k < i {
                        assert(exists|k2: int| 0 <= k2 < i && roles.seq()[k2] == y);
                    }
                }
                if y == tv {
                    assert(0 <= i < i + 1 && roles.seq()[i as int] == y);
                }
            }
            if writes_link(tv) {
                assert(0 <= i < i + 1 && writes_link(roles.seq()[i as int]));
            }
            if exists|k: int| 0 <= k < i + 1 && writes_link(#[trigger] roles.seq()[k]) {
                let k = choose|k: int| 0 <= k < i + 1 && writes_link(#[trigger] roles.seq()[k]);
                if k < i {
                    assert(exists|k2: int| 0 <= k2 < i && writes_link(#[trigger] roles.seq()[k2]));
                }
            }
        }
        i = i + 1;
    }
    if writes_lr {
        s.insert("ImplicitRegWrite", "x30", "X64");
    }
    proof {
        let s1 = link_writes_merged(all);
        if writes_lr {
            let k = choose|k: int| 0 <= k < i && writes_link(#[trigger] roles.seq()[k]);
            assert(all.contains(roles.seq()[k]));
        } else {
            if exists|t: (Seq<char>, Seq<char>, Seq<char>)| all.contains(t) && writes_link(t) {
                let t = choose|t: (Seq<char>, Seq<char>, Seq<char>)| all.contains(t) && writes_link(t);
                let k = choose|k: int| 0 <= k < roles.seq().len() && roles.seq()[k] == t;
                assert(writes_link(roles.seq()[k]));
            }
        }
        assert(s.spec_set() =~= s1);
    }
    let ghost s1 = s.spec_set();
    let mut j: usize = 0;
    while j < roles.len()
        invariant
            roles.wf(),
            s.wf(),
            all == roles.spec_set(),
            s1 == link_writes_merged(all),
            j <= roles.seq().len(),
            forall|y: (Seq<char>, Seq<char>, Seq<char>)| #[trigger] s.spec_set().contains(y) <==> (s1.contains(y) && !(y.2 == "Unknown"@ && exists|k: int| 0 <= k < j && roles.seq()[k].2 != "Unknown"@ && roles.seq()[k].0 == y.0 && roles.seq()[k].1 == y.1)),
        decreases roles.seq().len() - j,
    {
        let t = roles.get(j);
        let ghost tv = roles.seq()[j as int];
        if !same_text(t.2.as_str(), "Unknown") {
            s.remove(t.0.as_str(), t.1.as_str(), "Unknown");
        }
        proof {
            assert forall|y: (Seq<char>, Seq<char>, Seq<char>)| #[trigger] s.spec_set().contains(y) <==> (s1.contains(y) && !(y.2 == "Unknown"@ && exists|k: int| 0 <= k < j + 1 && roles.seq()[k].2 != "Unknown"@ && roles.seq()[k].0 == y.0 && roles.seq()[k].1 == y.1)) by {
                if exists|k: int| 0 <= k < j + 1 && roles.seq()[k].2 != "Unknown"@ && roles.seq()[k].0 == y.0 && roles.seq()[k].1 == y.1 {
                    let k = choose|k: int| 0 <= k < j + 1 && roles.seq()[k].2 != "Unknown"@ && roles.seq()[k].0 == y.0 && roles.seq()[k].1 == y.1;
                    if k < j {
                        assert(exists|k2: int| 0 <= k2 < j && roles.seq()[k2].2 != "Unknown"@ && roles.seq()[k2].0 == y.0 && roles.seq()[k2].1 == y.1);
                    }
                }
                if tv.2 != "Unknown"@ && tv.0 == y.0 && tv.1 == y.1 {
                    assert(0 <= j < j + 1 && roles.seq()[j as int].2 != "Unknown"@ && roles.seq()[j as int].0 == y.0 && roles.seq()[j as int].1 == y.1);
                }
            }
        }
        j = j + 1;
    }
    proof {
        assert forall|y: (Seq<char>, Seq<char>, Seq<char>)| y.2 == "Unknown"@ implies known_width(all, y) == exists|k: int| 0 <= k < roles.seq().len() && roles.seq()[k].2 != "Unknown"@ && roles.seq()[k].0 == y.0 && roles.seq()[k].1 == y.1 by {
            if known_width(all, y) {
                let w = choose|w: Seq<char>| w != "Unknown"@ && all.contains((y.0, y.1, w));
                let k = choose|k: int| 0 <= k < roles.seq().len() && roles.seq()[k] == (y.0, y.1, w);
                assert(roles.seq()[k].2 != "Unknown"@ && roles.seq()[k].0 == y.0 && roles.seq()[k].1 == y.1);
            }
            if exists|k: int| 0 <= k < roles.seq().len() && roles.seq()[k].2 != "Unknown"@ && roles.seq()[k].0 == y.0 && roles.seq()[k].1 == y.1 {
                let k = choose|k: int| 0 <= k < roles.seq().len() && roles.seq()[k].2 != "Unknown"@ && roles.seq()[k].0 == y.0 && roles.seq()[k].1 == y.1;
                assert(all.contains(roles.seq()[k]));
                assert(roles.seq()[k] == (y.0, y.1, roles.seq()[k].2));
            }
        }
        assert(s.spec_set() =~= unknown_widths_dropped(all, s1));
    }
    let ghost s2 = s.spec_set();
    let mut rw: Vec<(String, String)> = Vec::new();
    let mut m: usize = 0;
    while m < s.len()
        invariant
            s.wf(),
            s2 == s.spec_set(),
            m <= s.seq().len(),
            rw@.len() <= m,
            forall|f: Seq<char>, w: Seq<char>| #[trigger] pair_listed(rw@, rw@.len() as int, f, w) <==> read_write_listed(s.seq(), m as int, f, w),
        decreases s.seq().len() - m,
    {
        let t = s.get(m);
        let ghost tv = s.seq()[m as int];
        let ghost before = rw@;
        if same_text(t.0.as_str(), "RegReadWrite") {
            rw.push((t.1.clone(), t.2.clone()));
        }
        proof {
            assert forall|f: Seq<char>, w: Seq<char>| #[trigger] pair_listed(rw@, rw@.len() as int, f, w) <==> read_write_listed(s.seq(), m + 1, f, w) by {
                if pair_listed(rw@, rw@.len() as int, f, w) {
                    let k = choose|k: int| 0 <= k < rw@.len() && rw@[k].0@ == f && rw@[k].1@ == w;
                    if k < before.len() {
                        assert(before[k] == rw@[k]);
                        assert(pair_listed(before, before.len() as int, f, w));
                        let k2 = choose|k2: int| 0 <= k2 < m && s.seq()[k2] == ("RegReadWrite"@, f, w);
                        assert(0 <= k2 < m + 1 && s.seq()[k2] == ("RegReadWrite"@, f, w));
                    } else {
                        assert(s.seq()[m as int] == ("RegReadWrite"@, f, w));
                    }
                }
                if read_write_listed(s.seq(), m + 1, f, w) {
                    let k = choose|k: int| 0 <= k < m + 1 && s.seq()[k] == ("RegReadWrite"@, f, w);
                    if k < m {
                        assert(read_write_listed(s.seq(), m as int, f, w));
                        assert(pair_listed(before, before.len() as int, f, w));
                        let k2 = choose|k2: int| 0 <= k2 < before.len() && before[k2].0@ == f && before[k2].1@ == w;
                        assert(rw@[k2] == before[k2]);
                    } else {
                        assert(rw@[before.len() as int].0@ == f && rw@[before.len() as int].1@ == w);
                    }
                }
            }
        }
        m = m + 1;
    }
    proof {
        assert forall|f: Seq<char>, w: Seq<char>| #[trigger] pair_listed(rw@, rw@.len() as int, f, w) <==> s2.contains(("RegReadWrite"@, f, w)) by {
            if s2.contains(("RegReadWrite"@, f, w)) {
                let k = choose|k: int| 0 <= k < s.seq().len() && s.seq()[k] == ("RegReadWrite"@, f, w);
                assert(read_write_listed(s.seq(), m as int, f, w));
            }
            if read_write_listed(s.seq(), m as int, f, w) {
                let k = choose|k: int| 0 <= k < m && s.seq()[k] == ("RegReadWrite"@, f, w);
                assert(s.seq().to_set().contains(s.seq()[k]));
            }
        }
    }
    let mut n: usize = 0;
    while n < rw.len()
        invariant
            s.wf(),
            n <= rw@.len(),
            forall|f: Seq<char>, w: Seq<char>| #[trigger] pair_listed(rw@, rw@.len() as int, f, w) <==> s2.contains(("RegReadWrite"@, f, w)),
            forall|y: (Seq<char>, Seq<char>, Seq<char>)| #[trigger] s.spec_set().contains(y) <==> (s2.contains(y) && !((y.0 == "RegRead"@ || y.0 == "RegWrite"@) && pair_listed(rw@, n as int, y.1, y.2))),
        decreases rw@.len() - n,
    {
        s.remove("RegRead", rw[n].0.as_str(), rw[n].1.as_str());
        s.remove("RegWrite", rw[n].0.as_str(), rw[n].1.as_str());
        proof {
            assert forall|y: (Seq<char>, Seq<char>, Seq<char>)| #[trigger] s.spec_set().contains(y) <==> (s2.contains(y) && !((y.0 == "RegRead"@ || y.0 == "RegWrite"@) && pair_listed(rw@, n + 1, y.1, y.2))) by {
                if pair_listed(rw@, n + 1, y.1, y.2) {
                    let k = choose|k: int| 0 <= k < n + 1 && rw@[k].0@ == y.1 && rw@[k].1@ == y.2;
                    if k < n {
                        assert(pair_listed(rw@, n as int, y.1, y.2));
                    }
                }
                if rw@[n as int].0@ == y.1 && rw@[n as int].1@ == y.2 {
                    assert(pair_listed(rw@, n + 1, y.1, y.2));
                }
                if pair_listed(rw@, n as int, y.1, y.2) {
                    let k = choose|k: int| 0 <= k < n && rw@[k].0@ == y.1 && rw@[k].1@ == y.2;
                    assert(pair_listed(rw@, n + 1, y.1, y.2));
                }
            }
        }
        n = n + 1;
    }
    proof {
        assert forall|y: (Seq<char>, Seq<char>, Seq<char>)| s.spec_set().contains(y) <==> s2.filter(|t: (Seq<char>, Seq<char>, Seq<char>)| !covered_by_read_write(s2, t)).contains(y) by {
            assert(pair_listed(rw@, rw@.len() as int, y.1, y.2) <==> s2.contains(("RegReadWrite"@, y.1, y.2)));
        }
        assert(s.spec_set() =~= s2.filter(|t: (Seq<char>, Seq<char>, Seq<char>)| !covered_by_read_write(s2, t)));
    }
    s
}

/// Whether `p` occurs in `s` starting at `i`.
pub open spec fn occurs_at(s: Seq<char>, p: Seq<char>, i: int) -> bool {
    0 <= i && i + p.len() <= s.len() && s.subrange(i, i + p.len()) == p
}

/// Whether `p` occurs in `s`, as `str::contains` tells.
pub open spec fn has_text(s: Seq<char>, p: Seq<char>) -> bool {
    exists|i: int| occurs_at(s, p, i)
}

/// Whether `s` begins with `p`, as `str::starts_with` tells.
pub open spec fn begins_with(s: Seq<char>, p: Seq<char>) -> bool {
    occurs_at(s, p, 0)
}

fn occurs_at_exec(s: &Vec<char>, p: &Vec<char>, i: usize) -> (r: bool)
    requires
        i <= s@.len(),
    ensures
        r == occurs_at(s@, p@, i as int),
{
    if p.len() > s.len() - i {
        return false;
    }
    let mut k: usize = 0;
    while k < p.len()
        invariant
            k <= p@.len(),
            s@.len() == s.len(),
            i <= s@.len(),
            i + p@.len() <= s@.len(),
            forall|m: int| 0 <= m < k ==> s@[i + m] == p@[m],
        decreases p@.len() - k,
    {
        if s[i + k] != p[k] {
            proof {
                if s@.subrange(i as int, i + p@.len()) == p@ {
                    assert(s@.subrange(i as int, i + p@.len())[k as int] == s@[i + k]);
                }
            }
            return false;
        }
        k = k + 1;
    }
    assert(s@.subrange(i as int, i + p@.len()) =~= p@);
    true
}

/// Whether `p` occurs in `s`.
pub fn contains_text(s: &str, p: &str) -> (r: bool)
    ensures
        r == has_text(s@, p@),
{
    let cs = crate::harness::explorer::chars_of(s);
    let cp = crate::harness::explorer::chars_of(p);
    if cp.len() > cs.len() {
        return false;
    }
    let last = cs.len() - cp.len();
    let mut i: usize = 0;
    loop
        invariant
            cs@ == s@,
            cp@ == p@,
            last == cs@.len() - cp@.len(),
            i <= last,
            forall|j: int| 0 <= j < i ==> !#[trigger] occurs_at(s@, p@, j),
        decreases last - i,
    {
        if occurs_at_exec(&cs, &cp, i) {
            return true;
        }
        if i == last {
            proof {
                assert forall|j: int| !#[trigger] occurs_at(s@, p@, j) by {
                    if j > i {
                        assert(j + p@.len() > s@.len());
                    }
                }
            }
            return false;
        }
        i = i + 1;
    }
}

/// Whether `s` begins with `p`.
pub fn starts_with_text(s: &str, p: &str) -> (r: bool)
    ensures
        r == begins_with(s@, p@),
{
    let cs = crate::harness::explorer::chars_of(s);
    let cp = crate::harness::explorer::chars_of(p);
    occurs_at_exec(&cs, &cp, 0)
}

/// A character with ASCII upper-case letters folded to lower case.
pub open spec fn ascii_fold(c: char) -> char {
    if 'A' <= c && c <= 'Z' {
        ((c as u32) + 32) as char
    } else {
        c
    }
}

/// Whether two texts are equal when ASCII letters are compared without
/// regard to case, as `str::eq_ignore_ascii_case` tells.
pub open spec fn same_ignoring_ascii_case(a: Seq<char>, b: Seq<char>) -> bool {
    a.len() == b.len() && forall|i: int| 0 <= i < a.len() ==> ascii_fold(#[trigger] a[i]) == ascii_fold(b[i])
}

fn fold_char(c: char) -> (r: u32)
    ensures
        r == ascii_fold(c) as u32,
{
    if 'A' <= c && c <= 'Z' {
        (c as u32) + 32
    } else {
        c as u32
    }
}

/// Compares two texts without regard to the case of ASCII letters.
pub fn eq_ignore_ascii_case(a: &str, b: &str) -> (r: bool)
    ensures
        r == same_ignoring_ascii_case(a@, b@),
{
    let ca = crate::harness::explorer::chars_of(a);
    let cb = crate::harness::explorer::chars_of(b);
    if ca.len() != cb.len() {
        return false;
    }
    let mut i: usize = 0;
    while i < ca.len()
        invariant
            ca@ == a@,
            cb@ == b@,
            ca@.len() == cb@.len(),
            i <= ca@.len(),
            forall|k: int| 0 <= k < i ==> ascii_fold(#[trigger] a@[k]) == ascii_fold(b@[k]),
        decreases ca@.len() - i,
    {
        if fold_char(ca[i]) != fold_char(cb[i]) {
            return false;
        }
        i = i + 1;
    }
    true
}

/// A match of a regular expression: the byte offset in the text where it
/// ends, and the text of each group, the whole match first; none for a
/// group that took no part in the match.
#[derive(Clone, Debug)]
pub struct RegexMatch {
    pub end: usize,
    pub groups: Vec<Option<String>>,
}

pub open spec fn match_view(m: RegexMatch) -> (usize, Seq<Option<Seq<char>>>) {
    (
        m.end,
        m.groups@.map_values(
            |g: Option<String>|
                match g {
                    Some(t) => Some(t@),
                    None => None,
                },
        ),
    )
}

/// The matches `regex::Regex::captures_iter` yields for `pattern` over
/// `text`, in order; none where `regex::Regex::new` refuses the pattern.
pub uninterp spec fn regex_matches(pattern: Seq<char>, text: Seq<char>) -> Option<Seq<(usize, Seq<Option<Seq<char>>>)>>;

/// Compiles `pattern` with `regex::Regex::new` and lists the matches of
/// `Regex::captures_iter` over `text`. The result is claimed to be the
/// named one, match for match; nothing is claimed of what the matches are.
#[verifier::external_body]
fn regex_captures(pattern: &str, text: &str) -> (r: Option<Vec<RegexMatch>>)
    ensures
        r.is_some() == regex_matches(pattern@, text@).is_some(),
        r.is_some() ==> r.unwrap()@.map_values(|m: RegexMatch| match_view(m)) == regex_matches(pattern@, text@).unwrap(),
{
    let re = regex::Regex::new(pattern).ok()?;
    Some(
        re.captures_iter(text).map(
            |c| RegexMatch {
                end: c.get(0).map_or(0, |m| m.end()),
                groups: c.iter().map(|g| g.map(|m| m.as_str().to_string())).collect(),
            },
        ).collect(),
    )
}

/// What `regex::Regex::is_match` says of `pattern` over the bytes
/// `start..end` of `text`; none where the pattern is refused or the range
/// does not cut the text at character boundaries.
pub uninterp spec fn regex_found_in(pattern: Seq<char>, text: Seq<char>, start: usize, end: usize) -> Option<bool>;

/// Compiles `pattern` and asks `Regex::is_match` of the bytes `start..end`
/// of `text`. The result is claimed to be the named one.
#[verifier::external_body]
fn regex_is_match_in(pattern: &str, text: &str, start: usize, end: usize) -> (r: Option<bool>)
    ensures
        r == regex_found_in(pattern@, text@, start, end),
{
    let re = regex::Regex::new(pattern).ok()?;
    Some(re.is_match(text.get(start..end)?))
}

#[verifier::external_type_specification]
#[verifier::external_body]
#[verifier::reject_recursive_types(K)]
#[verifier::reject_recursive_types(V)]
#[verifier::reject_recursive_types(S)]
pub struct ExIndexMap<K, V, S>(indexmap::IndexMap<K, V, S>);

/// What a map of documentation variables holds: each key's text to its
/// value's text.
pub uninterp spec fn docvar_entries(m: indexmap::IndexMap<String, String>) -> Map<Seq<char>, Seq<char>>;

/// `IndexMap::get`: the value stored under `key`, where there is one.
#[verifier::external_body]
fn docvar_get<'a>(m: &'a indexmap::IndexMap<String, String>, key: &str) -> (r: Option<&'a String>)
    ensures
        match r {
            Some(v) => docvar_entries(*m).contains_key(key@) && v@ == docvar_entries(*m)[key@],
            None => !docvar_entries(*m).contains_key(key@),
        },
{
    m.get(key)
}

/// `IndexMap::contains_key`: whether `key` has a value.
#[verifier::external_body]
fn docvar_has(m: &indexmap::IndexMap<String, String>, key: &str) -> (r: bool)
    ensures
        r == docvar_entries(*m).contains_key(key@),
{
    m.contains_key(key)
}

/// The value of a documentation variable, if set.
pub open spec fn docvar(d: Map<Seq<char>, Seq<char>>, k: Seq<char>) -> Option<Seq<char>> {
    if d.contains_key(k) {
        Some(d[k])
    } else {
        None
    }
}

/// The value of a documentation variable, or the empty text.
pub open spec fn docvar_or_empty(d: Map<Seq<char>, Seq<char>>, k: Seq<char>) -> Seq<char> {
    match docvar(d, k) {
        Some(v) => v,
        None => seq![],
    }
}

fn docvar_text(m: &indexmap::IndexMap<String, String>, key: &str) -> (r: String)
    ensures
        r@ == docvar_or_empty(docvar_entries(*m), key@),
{
    match docvar_get(m, key) {
        Some(v) => v.clone(),
        None => String::new(),
    }
}

/// The width an operand's register has: 32 or 64 bits where the form's
/// data type or register type, the operand's hover text (in lower case) or
/// its syntax say so, unknown otherwise.
pub open spec fn spec_operand_width(d: Map<Seq<char>, Seq<char>>, hover: Seq<char>, text: Seq<char>) -> Seq<char> {
    let datatype = docvar(d, "datatype"@);
    let reg_type = docvar_or_empty(d, "reg-type"@);
    if datatype == Some("32"@) || begins_with(reg_type, "32-"@) || has_text(hover, "32-bit"@) || begins_with(text, "<W"@) {
        "W32"@
    } else if datatype == Some("64"@) || begins_with(reg_type, "64-"@) || has_text(hover, "64-bit"@) || begins_with(
        text,
        "<X"@,
    ) {
        "X64"@
    } else {
        "Unknown"@
    }
}

/// The hover text of an operand in lower case, or nothing.
pub open spec fn lowered_hover(operand: Option<AsmOperand>) -> Seq<char> {
    match operand {
        Some(o) => lowercase(o.hover@),
        None => seq![],
    }
}

pub open spec fn operand_text(operand: Option<AsmOperand>) -> Seq<char> {
    match operand {
        Some(o) => o.text@,
        None => seq![],
    }
}

fn same_opt_text(a: &Option<&String>, b: &str) -> (r: bool)
    ensures
        r == match a {
            Some(t) => t@ == b@,
            None => false,
        },
{
    match a {
        Some(t) => same_text(t.as_str(), b),
        None => false,
    }
}

/// The width of an operand's register (see `spec_operand_width`).
pub fn operand_width(docvars: &indexmap::IndexMap<String, String>, operand: Option<&AsmOperand>) -> (r: String)
    ensures
        r@ == spec_operand_width(
            docvar_entries(*docvars),
            lowered_hover(match operand { Some(o) => Some(*o), None => None }),
            operand_text(match operand { Some(o) => Some(*o), None => None }),
        ),
{
    let datatype = docvar_get(docvars, "datatype");
    let reg_type = docvar_text(docvars, "reg-type");
    let hover = match operand {
        Some(o) => to_lowercase(o.hover.as_str()),
        None => String::new(),
    };
    let text = match operand {
        Some(o) => o.text.clone(),
        None => String::new(),
    };
    proof {
        let d = docvar_entries(*docvars);
        assert(match datatype { Some(t) => docvar(d, "datatype"@) == Some(t@), None => docvar(d, "datatype"@).is_none() });
    }
    if same_opt_text(&datatype, "32") || starts_with_text(reg_type.as_str(), "32-") || contains_text(hover.as_str(), "32-bit")
        || starts_with_text(text.as_str(), "<W") {
        return String::from_str("W32");
    }
    if same_opt_text(&datatype, "64") || starts_with_text(reg_type.as_str(), "64-") || contains_text(hover.as_str(), "64-bit")
        || starts_with_text(text.as_str(), "<X") {
        return String::from_str("X64");
    }
    String::from_str("Unknown")
}

/// `let <var> ... = UInt(<field>)` in decode pseudocode.
pub const LET_PATTERN: &'static str = r"\blet\s+(\w+)\b[^=]*=\s*UInt\((\w+)\)";

/// `var <var> ... = UInt(<field>)` in decode pseudocode.
pub const VAR_PATTERN: &'static str = r"\bvar\s+(\w+)\b[^=]*=\s*UInt\((\w+)\)";

/// A register accessor such as `X(n)`, `W{..}(t)` or `SP(n)`.
pub const ACCESSOR_PATTERN: &'static str = r"\b(?:X|W|SP)\s*(?:\{[^}]*\})?\((\w+)\)";

/// A register accessor such as `X[n]` or `W[t, 32]`.
pub const BRACKET_PATTERN: &'static str = r"\b(?:X|W|SP)\[([^\],\]]+)(?:,[^\]]*)?\]";

/// An assignment right after an accessor.
pub const ASSIGN_PATTERN: &'static str = r"^\s*=";

/// Where an operand's hover text names its encoding field.
pub const ENCODED_PATTERN: &'static str = r#"encoded (?:as|in) (?:the )?"([^"]+)" field"#;

/// Group `i` of a match, where it took part.
pub open spec fn group_of(m: (usize, Seq<Option<Seq<char>>>), i: int) -> Option<Seq<char>> {
    if 0 <= i < m.1.len() {
        m.1[i]
    } else {
        None
    }
}

fn group_text(m: &RegexMatch, i: usize) -> (r: Option<&String>)
    ensures
        match r {
            Some(t) => group_of(match_view(*m), i as int) == Some(t@),
            None => group_of(match_view(*m), i as int).is_none(),
        },
{
    if i < m.groups.len() {
        match &m.groups[i] {
            Some(t) => Some(t),
            None => None,
        }
    } else {
        None
    }
}

pub open spec fn views_of(ms: Seq<RegexMatch>) -> Seq<(usize, Seq<Option<Seq<char>>>)> {
    ms.map_values(|m: RegexMatch| match_view(m))
}

/// The (variable, field) pairs that matches bind, in order; none where a
/// match lacks either group.
pub open spec fn bound_pairs(ms: Seq<(usize, Seq<Option<Seq<char>>>)>) -> Option<Seq<(Seq<char>, Seq<char>)>>
    decreases ms.len(),
{
    if ms.len() == 0 {
        Some(seq![])
    } else {
        match (bound_pairs(ms.drop_last()), group_of(ms.last(), 1), group_of(ms.last(), 2)) {
            (Some(p), Some(a), Some(b)) => Some(p.push((a, b))),
            _ => None,
        }
    }
}

proof fn lemma_bound_pairs_prefix(ms: Seq<(usize, Seq<Option<Seq<char>>>)>, i: int)
    requires
        0 <= i <= ms.len(),
        bound_pairs(ms.take(i)).is_none(),
    ensures
        bound_pairs(ms).is_none(),
    decreases ms.len() - i,
{
    if i == ms.len() {
        assert(ms.take(i) =~= ms);
    } else {
        assert(ms.take(i + 1).drop_last() =~= ms.take(i));
        lemma_bound_pairs_prefix(ms, i + 1);
    }
}

pub open spec fn pair_views(v: Seq<(String, String)>) -> Seq<(Seq<char>, Seq<char>)> {
    v.map_values(|p: (String, String)| (p.0@, p.1@))
}

/// Appends the (variable, field) pairs the matches bind; false where a
/// match lacks either group.
pub fn bound_pairs_of(ms: &Vec<RegexMatch>, out: &mut Vec<(String, String)>) -> (ok: bool)
    ensures
        match bound_pairs(views_of(ms@)) {
            Some(p) => ok && pair_views(final(out)@) == pair_views(old(out)@) + p,
            None => !ok,
        },
{
    let ghost start = pair_views(out@);
    let mut i: usize = 0;
    while i < ms.len()
        invariant
            i <= ms@.len(),
            bound_pairs(views_of(ms@).take(i as int)) == Some(pair_views(out@).skip(start.len() as int)),
            pair_views(out@).len() >= start.len(),
            pair_views(out@).take(start.len() as int) == start,
        decreases ms@.len() - i,
    {
        let ghost mv = views_of(ms@);
        assert(mv.take(i + 1).drop_last() =~= mv.take(i as int));
        assert(mv.take(i + 1).last() == match_view(ms@[i as int]));
        let a = group_text(&ms[i], 1);
        let b = group_text(&ms[i], 2);
        match (a, b) {
            (Some(x), Some(y)) => {
                let ghost before = pair_views(out@);
                out.push((x.clone(), y.clone()));
                assert(pair_views(out@) =~= before.push((x@, y@)));
                assert(pair_views(out@).skip(start.len() as int) =~= before.skip(start.len() as int).push((x@, y@)));
                assert(pair_views(out@).take(start.len() as int) =~= before.take(start.len() as int));
            },
            _ => {
                proof {
                    lemma_bound_pairs_prefix(mv, i + 1);
                }
                return false;
            },
        }
        i = i + 1;
    }
    assert(views_of(ms@).take(i as int) =~= views_of(ms@));
    assert(pair_views(out@) =~= start + pair_views(out@).skip(start.len() as int));
    true
}

/// The field a variable was bound to last.
pub open spec fn var_lookup(pairs: Seq<(Seq<char>, Seq<char>)>, k: Seq<char>) -> Option<Seq<char>>
    decreases pairs.len(),
{
    if pairs.len() == 0 {
        None
    } else if pairs.last().0 == k {
        Some(pairs.last().1)
    } else {
        var_lookup(pairs.drop_last(), k)
    }
}

fn lookup_var<'a>(pairs: &'a Vec<(String, String)>, k: &str) -> (r: Option<&'a String>)
    ensures
        match r {
            Some(v) => var_lookup(pair_views(pairs@), k@) == Some(v@),
            None => var_lookup(pair_views(pairs@), k@).is_none(),
        },
{
    let mut i: usize = pairs.len();
    assert(pair_views(pairs@).take(i as int) =~= pair_views(pairs@));
    while i > 0
        invariant
            i <= pairs@.len(),
            var_lookup(pair_views(pairs@).take(i as int), k@) == var_lookup(pair_views(pairs@), k@),
        decreases i,
    {
        let ghost pv = pair_views(pairs@);
        assert(pv.take(i as int).drop_last() =~= pv.take(i - 1));
        if same_text(pairs[i - 1].0.as_str(), k) {
            return Some(&pairs[i - 1].1);
        }
        i = i - 1;
    }
    None
}

/// The variable bindings of decode pseudocode: those of `let`, then those
/// of `var`; none where a match lacks a group or a pattern is refused.
pub open spec fn spec_var_pairs(decode: Seq<char>) -> Option<Seq<(Seq<char>, Seq<char>)>> {
    match (regex_matches(LET_PATTERN@, decode), regex_matches(VAR_PATTERN@, decode)) {
        (Some(a), Some(b)) => match (bound_pairs(a), bound_pairs(b)) {
            (Some(x), Some(y)) => Some(x + y),
            _ => None,
        },
        _ => None,
    }
}

/// The variable bindings of decode pseudocode (see `spec_var_pairs`).
pub fn decode_var_map(decode_text: &str) -> (r: Option<Vec<(String, String)>>)
    ensures
        match spec_var_pairs(decode_text@) {
            Some(p) => r.is_some() && pair_views(r.unwrap()@) == p,
            None => r.is_none(),
        },
{
    let lets = regex_captures(LET_PATTERN, decode_text);
    let vars = regex_captures(VAR_PATTERN, decode_text);
    match (lets, vars) {
        (Some(a), Some(b)) => {
            let mut out: Vec<(String, String)> = Vec::new();
            assert(pair_views(out@) =~= seq![]);
            proof {
                assert(views_of(a@) == a@.map_values(|m: RegexMatch| match_view(m)));
            }
            let ok = bound_pairs_of(&a, &mut out);
            if !ok {
                return None;
            }
            let ghost after_a = pair_views(out@);
            let ok2 = bound_pairs_of(&b, &mut out);
            if !ok2 {
                proof {
                    assert(bound_pairs(views_of(b@)).is_none());
                }
                return None;
            }
            Some(out)
        },
        _ => None,
    }
}

/// The variable field names of a form, in order.
pub open spec fn variable_names(fs: Seq<FieldSlice>) -> Seq<Seq<char>>
    decreases fs.len(),
{
    if fs.len() == 0 {
        seq![]
    } else if fs.last().variable {
        variable_names(fs.drop_last()).push(fs.last().name@)
    } else {
        variable_names(fs.drop_last())
    }
}

pub open spec fn name_views(v: Seq<String>) -> Seq<Seq<char>> {
    v.map_values(|t: String| t@)
}

fn variable_field_names(fields: &[FieldSlice]) -> (r: Vec<String>)
    ensures
        name_views(r@) == variable_names(fields@),
{
    let mut out: Vec<String> = Vec::new();
    let mut i: usize = 0;
    while i < fields.len()
        invariant
            i <= fields@.len(),
            name_views(out@) == variable_names(fields@.take(i as int)),
        decreases fields@.len() - i,
    {
        assert(fields@.take(i + 1).drop_last() =~= fields@.take(i as int));
        if fields[i].variable {
            out.push(fields[i].name.clone());
        }
        assert(name_views(out@) =~= variable_names(fields@.take(i + 1)));
        i = i + 1;
    }
    assert(fields@.take(i as int) =~= fields@);
    out
}

/// Whether `f` is the least of `names`, in text order, that equals `v` but
/// for the case of ASCII letters.
pub open spec fn is_least_matching(names: Set<Seq<char>>, v: Seq<char>, f: Seq<char>) -> bool {
    &&& names.contains(f)
    &&& same_ignoring_ascii_case(f, v)
    &&& forall|g: Seq<char>| names.contains(g) && same_ignoring_ascii_case(g, v) ==> !text_lt(g, f)
}

/// The least of `names`, in text order, equal to `v` but for the case of
/// ASCII letters.
pub open spec fn least_matching(names: Set<Seq<char>>, v: Seq<char>) -> Option<Seq<char>> {
    if exists|f: Seq<char>| names.contains(f) && same_ignoring_ascii_case(f, v) {
        Some(choose|f: Seq<char>| is_least_matching(names, v, f))
    } else {
        None
    }
}

/// A role's field as the form names it: `30` and `x30` are the link
/// register; otherwise the first of the form's fields (in text order) that
/// equals it but for case, or the name as it stands.
pub open spec fn spec_normalize(v: Seq<char>, names: Set<Seq<char>>) -> Seq<char> {
    if v == "30"@ || v == "x30"@ {
        "x30"@
    } else {
        match least_matching(names, v) {
            Some(f) => f,
            None => v,
        }
    }
}

/// Names a role's field as the form does (see `spec_normalize`).
pub fn normalize_role_field(value: &str, names: &Vec<String>) -> (r: String)
    ensures
        r@ == spec_normalize(value@, name_views(names@).to_set()),
{
    if same_text(value, "30") || same_text(value, "x30") {
        return String::from_str("x30");
    }
    let ghost set = name_views(names@).to_set();
    let mut best: Option<usize> = None;
    let mut i: usize = 0;
    while i < names.len()
        invariant
            i <= names@.len(),
            set == name_views(names@).to_set(),
            match best {
                Some(b) => b < i && same_ignoring_ascii_case(names@[b as int]@, value@) && forall|k: int|
                    0 <= k < i && #[trigger] same_ignoring_ascii_case(names@[k]@, value@) ==> !text_lt(names@[k]@, names@[b as int]@),
                None => forall|k: int| 0 <= k < i ==> !#[trigger] same_ignoring_ascii_case(names@[k]@, value@),
            },
        decreases names@.len() - i,
    {
        if eq_ignore_ascii_case(names[i].as_str(), value) {
            match best {
                None => {
                    best = Some(i);
                    proof {
                        lemma_text_lt_irreflexive(names@[i as int]@);
                    }
                },
                Some(b) => {
                    if let TextOrder::Before = text_order(names[i].as_str(), names[b].as_str()) {
                        proof {
                            assert forall|k: int| 0 <= k < i + 1 && #[trigger] same_ignoring_ascii_case(names@[k]@, value@) implies !text_lt(names@[k]@, names@[i as int]@) by {
                                if k < i && text_lt(names@[k]@, names@[i as int]@) {
                                    lemma_text_lt_transitive(names@[k]@, names@[i as int]@, names@[b as int]@);
                                }
                                if k == i {
                                    lemma_text_lt_irreflexive(names@[i as int]@);
                                }
                            }
                        }
                        best = Some(i);
                    }
                },
            }
        }
        i = i + 1;
    }
    match best {
        Some(b) => {
            proof {
                let nb = names@[b as int]@;
                assert(name_views(names@)[b as int] == nb);
                assert forall|g: Seq<char>| set.contains(g) && same_ignoring_ascii_case(g, value@) implies !text_lt(g, nb) by {
                    let k = choose|k: int| 0 <= k < name_views(names@).len() && name_views(names@)[k] == g;
                    assert(names@[k]@ == g);
                }
                assert(set.contains(nb));
                assert(same_ignoring_ascii_case(nb, value@));
                assert(is_least_matching(set, value@, nb));
                let c = choose|f: Seq<char>| is_least_matching(set, value@, f);
                assert(!text_lt(c, nb));
                assert(!text_lt(nb, c));
                if c != nb {
                    lemma_text_lt_total(c, nb);
                }
                assert(c == nb);
                assert(least_matching(set, value@) == Some(nb));
                assert(value@ != "30"@);
                assert(value@ != "x30"@);
            }
            names[b].clone()
        },
        None => {
            proof {
                assert forall|f: Seq<char>| set.contains(f) implies !same_ignoring_ascii_case(f, value@) by {
                    let k = choose|k: int| 0 <= k < name_views(names@).len() && name_views(names@)[k] == f;
                    assert(names@[k]@ == f);
                }
            }
            String::from_str(value)
        },
    }
}

/// Where the check for an assignment after a match stops: eight bytes on,
/// or at the end of the text.
pub open spec fn assign_window_end(start: usize, text_len: usize) -> usize {
    let e = if start + 8 > usize::MAX {
        usize::MAX
    } else {
        (start + 8) as usize
    };
    if e < text_len {
        e
    } else {
        text_len
    }
}

/// The role an accessor match gives: its captured name (trimmed for the
/// bracket form) through the variable bindings names a field; where the
/// field is one of the form's or the link register, the role reads it, or
/// writes it where `=` follows the match. `Some(None)`: no role; `None`: a
/// group is missing or the check could not be made.
pub open spec fn accessor_role(
    m: (usize, Seq<Option<Seq<char>>>),
    trim_capture: bool,
    pairs: Seq<(Seq<char>, Seq<char>)>,
    names: Set<Seq<char>>,
    width: Seq<char>,
    text: Seq<char>,
    text_len: usize,
) -> Option<Option<(Seq<char>, Seq<char>, Seq<char>)>> {
    match group_of(m, 1) {
        None => None,
        Some(raw) => {
            let cap = if trim_capture {
                trim(raw)
            } else {
                raw
            };
            let field = spec_normalize(
                match var_lookup(pairs, cap) {
                    Some(f) => f,
                    None => cap,
                },
                names,
            );
            if !(names.contains(field) || field == "x30"@) {
                Some(None)
            } else {
                match regex_found_in(ASSIGN_PATTERN@, text, m.0, assign_window_end(m.0, text_len)) {
                    None => None,
                    Some(w) => Some(
                        Some(
                            (
                                if w {
                                    "RegWrite"@
                                } else {
                                    "RegRead"@
                                },
                                field,
                                width,
                            ),
                        ),
                    ),
                }
            }
        },
    }
}

/// The roles the accessor matches give, in order; none as soon as one
/// fails.
pub open spec fn accessor_roles(
    ms: Seq<(usize, Seq<Option<Seq<char>>>)>,
    trim_capture: bool,
    pairs: Seq<(Seq<char>, Seq<char>)>,
    names: Set<Seq<char>>,
    width: Seq<char>,
    text: Seq<char>,
    text_len: usize,
) -> Option<Set<(Seq<char>, Seq<char>, Seq<char>)>>
    decreases ms.len(),
{
    if ms.len() == 0 {
        Some(Set::empty())
    } else {
        match (
            accessor_roles(ms.drop_last(), trim_capture, pairs, names, width, text, text_len),
            accessor_role(ms.last(), trim_capture, pairs, names, width, text, text_len),
        ) {
            (Some(s), Some(None)) => Some(s),
            (Some(s), Some(Some(r))) => Some(s.insert(r)),
            _ => None,
        }
    }
}

proof fn lemma_accessor_roles_prefix(
    ms: Seq<(usize, Seq<Option<Seq<char>>>)>,
    i: int,
    trim_capture: bool,
    pairs: Seq<(Seq<char>, Seq<char>)>,
    names: Set<Seq<char>>,
    width: Seq<char>,
    text: Seq<char>,
    text_len: usize,
)
    requires
        0 <= i <= ms.len(),
        accessor_roles(ms.take(i), trim_capture, pairs, names, width, text, text_len).is_none(),
    ensures
        accessor_roles(ms, trim_capture, pairs, names, width, text, text_len).is_none(),
    decreases ms.len() - i,
{
    if i == ms.len() {
        assert(ms.take(i) =~= ms);
    } else {
        assert(ms.take(i + 1).drop_last() =~= ms.take(i));
        lemma_accessor_roles_prefix(ms, i + 1, trim_capture, pairs, names, width, text, text_len);
    }
}

/// Adds the roles of the accessor matches to `set`; false where they fail.
pub fn add_accessor_roles(
    set: &mut RoleSet,
    ms: &Vec<RegexMatch>,
    trim_capture: bool,
    pairs: &Vec<(String, String)>,
    names: &Vec<String>,
    width: &str,
    text: &str,
) -> (ok: bool)
    requires
        old(set).wf(),
    ensures
        final(set).wf(),
        match accessor_roles(
            views_of(ms@),
            trim_capture,
            pair_views(pairs@),
            name_views(names@).to_set(),
            width@,
            text@,
            text.spec_bytes().len() as usize,
        ) {
            Some(s) => ok && final(set).spec_set() == old(set).spec_set().union(s),
            None => !ok,
        },
{
    let ghost pv = pair_views(pairs@);
    let ghost nv = name_views(names@).to_set();
    let ghost tl = text.spec_bytes().len() as usize;
    let ghost mv = views_of(ms@);
    let text_len = text.len();
    let ghost base = set.spec_set();
    let mut i: usize = 0;
    while i < ms.len()
        invariant
            set.wf(),
            i <= ms@.len(),
            mv == views_of(ms@),
            pv == pair_views(pairs@),
            nv == name_views(names@).to_set(),
            text_len == tl,
            tl == text.spec_bytes().len() as usize,
            match accessor_roles(mv.take(i as int), trim_capture, pv, nv, width@, text@, tl) {
                Some(s) => set.spec_set() == base.union(s),
                None => false,
            },
        decreases ms@.len() - i,
    {
        assert(mv.take(i + 1).drop_last() =~= mv.take(i as int));
        assert(mv.take(i + 1).last() == match_view(ms@[i as int]));
        let ghost prev = accessor_roles(mv.take(i as int), trim_capture, pv, nv, width@, text@, tl).unwrap();
        let m = &ms[i];
        let raw = match group_text(m, 1) {
            Some(t) => t,
            None => {
                proof {
                    lemma_accessor_roles_prefix(mv, i + 1, trim_capture, pv, nv, width@, text@, tl);
                }
                return false;
            },
        };
        let cap = if trim_capture {
            crate::harness::explorer::trimmed(raw.as_str())
        } else {
            raw.clone()
        };
        let field = match lookup_var(pairs, cap.as_str()) {
            Some(f) => normalize_role_field(f.as_str(), names),
            None => normalize_role_field(cap.as_str(), names),
        };
        let known = contains_name(names, field.as_str());
        if known || same_text(field.as_str(), "x30") {
            let end = if m.end > usize::MAX - 8 {
                usize::MAX
            } else {
                m.end + 8
            };
            let end = if end < text_len {
                end
            } else {
                text_len
            };
            match regex_is_match_in(ASSIGN_PATTERN, text, m.end, end) {
                None => {
                    proof {
                        lemma_accessor_roles_prefix(mv, i + 1, trim_capture, pv, nv, width@, text@, tl);
                    }
                    return false;
                },
                Some(w) => {
                    if w {
                        set.insert("RegWrite", field.as_str(), width);
                    } else {
                        set.insert("RegRead", field.as_str(), width);
                    }
                    proof {
                        let r = (if w { "RegWrite"@ } else { "RegRead"@ }, field@, width@);
                        assert(set.spec_set() =~= base.union(prev.insert(r)));
                    }
                },
            }
        }
        i = i + 1;
    }
    assert(mv.take(i as int) =~= mv);
    true
}

/// Whether `names` holds `f`.
fn contains_name(names: &Vec<String>, f: &str) -> (r: bool)
    ensures
        r == name_views(names@).to_set().contains(f@),
{
    let mut i: usize = 0;
    while i < names.len()
        invariant
            i <= names@.len(),
            forall|k: int| 0 <= k < i ==> names@[k]@ != f@,
        decreases names@.len() - i,
    {
        if same_text(names[i].as_str(), f) {
            proof {
                assert(name_views(names@)[i as int] == f@);
            }
            return true;
        }
        i = i + 1;
    }
    proof {
        if name_views(names@).to_set().contains(f@) {
            let k = choose|k: int| 0 <= k < name_views(names@).len() && name_views(names@)[k] == f@;
            assert(names@[k]@ == f@);
        }
    }
    false
}

/// The roles the execute pseudocode shows without a field: reading or
/// writing the flags, changing the flow of control, touching memory.
pub open spec fn flag_roles(text: Seq<char>) -> Set<(Seq<char>, Seq<char>, Seq<char>)> {
    let s0 = Set::<(Seq<char>, Seq<char>, Seq<char>)>::empty();
    let s1 = if has_text(text, "ConditionHolds"@) {
        s0.insert(("FlagsRead"@, ""@, "Unknown"@))
    } else {
        s0
    };
    let s2 = if has_text(text, "PSTATE.NZCV"@) || (has_text(text, "AddWithCarry"@) && has_text(text, "nzcv"@)) {
        s1.insert(("FlagsWrite"@, ""@, "Unknown"@))
    } else {
        s1
    };
    let s3 = if has_text(text, "BranchTo"@) || has_text(text, "BranchNotTaken"@) {
        s2.insert(("ControlFlow"@, ""@, "Unknown"@))
    } else {
        s2
    };
    if has_text(text, "Mem"@) {
        s3.insert(("Memory"@, ""@, "Unknown"@))
    } else {
        s3
    }
}

/// The roles the execute pseudocode shows: those of its register accessors
/// in both forms, and its flag, control-flow and memory roles; none where
/// a pattern or a check fails.
pub open spec fn spec_pseudocode_roles(
    pairs: Seq<(Seq<char>, Seq<char>)>,
    names: Set<Seq<char>>,
    width: Seq<char>,
    text: Seq<char>,
    text_len: usize,
) -> Option<Set<(Seq<char>, Seq<char>, Seq<char>)>> {
    match (regex_matches(ACCESSOR_PATTERN@, text), regex_matches(BRACKET_PATTERN@, text)) {
        (Some(a), Some(b)) => pseudocode_roles_from(a, b, pairs, names, width, text, text_len),
        _ => None,
    }
}

/// Adds the roles the execute pseudocode shows (see
/// `spec_pseudocode_roles`); false where they cannot be found.
fn add_pseudocode_roles(
    set: &mut RoleSet,
    pairs: &Vec<(String, String)>,
    names: &Vec<String>,
    width: &str,
    text: &str,
) -> (ok: bool)
    requires
        old(set).wf(),
    ensures
        final(set).wf(),
        match spec_pseudocode_roles(
            pair_views(pairs@),
            name_views(names@).to_set(),
            width@,
            text@,
            text.spec_bytes().len() as usize,
        ) {
            Some(s) => ok && final(set).spec_set() == old(set).spec_set().union(s),
            None => !ok,
        },
{
    let regs = match regex_captures(ACCESSOR_PATTERN, text) {
        Some(v) => v,
        None => {
            return false;
        },
    };
    let brackets = match regex_captures(BRACKET_PATTERN, text) {
        Some(v) => v,
        None => {
            return false;
        },
    };
    add_pseudocode_roles_from(set, &regs, &brackets, pairs, names, width, text)
}

/// The roles the execute pseudocode shows, given its accessor matches of
/// both forms; none where a match or a check fails.
pub open spec fn pseudocode_roles_from(
    a: Seq<(usize, Seq<Option<Seq<char>>>)>,
    b: Seq<(usize, Seq<Option<Seq<char>>>)>,
    pairs: Seq<(Seq<char>, Seq<char>)>,
    names: Set<Seq<char>>,
    width: Seq<char>,
    text: Seq<char>,
    text_len: usize,
) -> Option<Set<(Seq<char>, Seq<char>, Seq<char>)>> {
    match (
        accessor_roles(a, false, pairs, names, width, text, text_len),
        accessor_roles(b, true, pairs, names, width, text, text_len),
    ) {
        (Some(x), Some(y)) => Some(x.union(y).union(flag_roles(text))),
        _ => None,
    }
}

/// Adds the roles of the pseudocode `text` given the matches of its
/// register accessors (`regs`) and bracketed accessors (`brackets`); false
/// where a match lacks its group or the check for an assignment fails.
pub fn add_pseudocode_roles_from(
    set: &mut RoleSet,
    regs: &Vec<RegexMatch>,
    brackets: &Vec<RegexMatch>,
    pairs: &Vec<(String, String)>,
    names: &Vec<String>,
    width: &str,
    text: &str,
) -> (ok: bool)
    requires
        old(set).wf(),
    ensures
        final(set).wf(),
        match pseudocode_roles_from(
            views_of(regs@),
            views_of(brackets@),
            pair_views(pairs@),
            name_views(names@).to_set(),
            width@,
            text@,
            text.spec_bytes().len() as usize,
        ) {
            Some(s) => ok && final(set).spec_set() == old(set).spec_set().union(s),
            None => !ok,
        },
{
    let ghost base = set.spec_set();
    if !add_accessor_roles(set, &regs, false, pairs, names, width, text) {
        return false;
    }
    let ghost after_regs = set.spec_set();
    if !add_accessor_roles(set, &brackets, true, pairs, names, width, text) {
        return false;
    }
    let ghost after_brackets = set.spec_set();
    if contains_text(text, "ConditionHolds") {
        set.insert("FlagsRead", "", "Unknown");
    }
    if contains_text(text, "PSTATE.NZCV") || (contains_text(text, "AddWithCarry") && contains_text(text, "nzcv")) {
        set.insert("FlagsWrite", "", "Unknown");
    }
    if contains_text(text, "BranchTo") || contains_text(text, "BranchNotTaken") {
        set.insert("ControlFlow", "", "Unknown");
    }
    if contains_text(text, "Mem") {
        set.insert("Memory", "", "Unknown");
    }
    proof {
        assert(set.spec_set() =~= after_brackets.union(flag_roles(text@)));
        let x = accessor_roles(views_of(regs@), false, pair_views(pairs@), name_views(names@).to_set(), width@, text@, text.spec_bytes().len() as usize).unwrap();
        let y = accessor_roles(views_of(brackets@), true, pair_views(pairs@), name_views(names@).to_set(), width@, text@, text.spec_bytes().len() as usize).unwrap();
        assert(set.spec_set() =~= base.union(x.union(y).union(flag_roles(text@))));
    }
    true
}

/// Roles of kind `kind` for every field whose name, in lower case, begins
/// with `imm`.
pub open spec fn imm_roles(names: Seq<Seq<char>>, kind: Seq<char>) -> Set<(Seq<char>, Seq<char>, Seq<char>)>
    decreases names.len(),
{
    if names.len() == 0 {
        Set::empty()
    } else if begins_with(lowercase(names.last()), "imm"@) {
        imm_roles(names.drop_last(), kind).insert((kind, names.last(), "Unknown"@))
    } else {
        imm_roles(names.drop_last(), kind)
    }
}

fn add_imm_roles(set: &mut RoleSet, names: &Vec<String>, kind: &str)
    requires
        old(set).wf(),
    ensures
        final(set).wf(),
        final(set).spec_set() == old(set).spec_set().union(imm_roles(name_views(names@), kind@)),
{
    let ghost base = set.spec_set();
    let mut i: usize = 0;
    while i < names.len()
        invariant
            set.wf(),
            i <= names@.len(),
            set.spec_set() == base.union(imm_roles(name_views(names@).take(i as int), kind@)),
        decreases names@.len() - i,
    {
        let ghost nv = name_views(names@);
        assert(nv.take(i + 1).drop_last() =~= nv.take(i as int));
        assert(nv.take(i + 1).last() == names@[i as int]@);
        let low = to_lowercase(names[i].as_str());
        if starts_with_text(low.as_str(), "imm") {
            set.insert(kind, names[i].as_str(), "Unknown");
        }
        assert(set.spec_set() =~= base.union(imm_roles(nv.take(i + 1), kind@)));
        i = i + 1;
    }
    assert(name_views(names@).take(i as int) =~= name_views(names@));
}

/// The roles an operand's hover text names for the field it is encoded
/// in; `Some` of no roles where it names none, `None` where the pattern is
/// refused or its group is missing.
pub open spec fn operand_roles(
    o: AsmOperand,
    d: Map<Seq<char>, Seq<char>>,
    names: Set<Seq<char>>,
    mnemonic: Seq<char>,
) -> Option<Set<(Seq<char>, Seq<char>, Seq<char>)>> {
    match regex_matches(ENCODED_PATTERN@, lowercase(o.hover@)) {
        None => None,
        Some(ms) => operand_roles_from(ms, o, d, names, mnemonic),
    }
}

/// The roles an operand's hover text names, given the matches of the
/// pattern for its encoding field over that text in lower case.
pub open spec fn operand_roles_from(
    ms: Seq<(usize, Seq<Option<Seq<char>>>)>,
    o: AsmOperand,
    d: Map<Seq<char>, Seq<char>>,
    names: Set<Seq<char>>,
    mnemonic: Seq<char>,
) -> Option<Set<(Seq<char>, Seq<char>, Seq<char>)>> {
    let hover = lowercase(o.hover@);
    {
        if ms.len() == 0 {
            Some(Set::empty())
        } else {
            match group_of(ms[0], 1) {
                None => None,
                Some(g) => {
                    let field = spec_normalize(g, names);
                    let width = spec_operand_width(d, hover, o.text@);
                    let s0 = Set::<(Seq<char>, Seq<char>, Seq<char>)>::empty();
                    let s1 = if has_text(hover, "base register"@) {
                        s0.insert(("MemBase"@, field, "X64"@)).insert(("RegRead"@, field, "X64"@))
                    } else {
                        s0
                    };
                    let s2 = if has_text(hover, "destination register"@) || has_text(hover, "written"@) {
                        s1.insert(("RegWrite"@, field, width))
                    } else {
                        s1
                    };
                    let s3 = if has_text(hover, "source register"@) || has_text(hover, "first operand register"@)
                        || has_text(hover, "second operand register"@) || has_text(hover, "register to be tested"@) {
                        s2.insert(("RegRead"@, field, width))
                    } else {
                        s2
                    };
                    let s4 = if has_text(hover, "register to be transferred"@) {
                        s3.insert(
                            (
                                if mnemonic == "LDR"@ {
                                    "RegWrite"@
                                } else {
                                    "RegRead"@
                                },
                                field,
                                width,
                            ),
                        )
                    } else {
                        s3
                    };
                    Some(
                        if has_text(hover, "program label"@) || has_text(o.text@, "<label>"@) {
                            s4.insert(("BranchTarget"@, field, "Unknown"@))
                        } else {
                            s4
                        },
                    )
                },
            }
        }
    }
}

/// The roles all operands name, in order; none as soon as one fails.
pub open spec fn all_operand_roles(
    ops: Seq<AsmOperand>,
    d: Map<Seq<char>, Seq<char>>,
    names: Set<Seq<char>>,
    mnemonic: Seq<char>,
) -> Option<Set<(Seq<char>, Seq<char>, Seq<char>)>>
    decreases ops.len(),
{
    if ops.len() == 0 {
        Some(Set::empty())
    } else {
        match (all_operand_roles(ops.drop_last(), d, names, mnemonic), operand_roles(ops.last(), d, names, mnemonic)) {
            (Some(a), Some(b)) => Some(a.union(b)),
            _ => None,
        }
    }
}

proof fn lemma_operand_roles_prefix(
    ops: Seq<AsmOperand>,
    i: int,
    d: Map<Seq<char>, Seq<char>>,
    names: Set<Seq<char>>,
    mnemonic: Seq<char>,
)
    requires
        0 <= i <= ops.len(),
        all_operand_roles(ops.take(i), d, names, mnemonic).is_none(),
    ensures
        all_operand_roles(ops, d, names, mnemonic).is_none(),
    decreases ops.len() - i,
{
    if i == ops.len() {
        assert(ops.take(i) =~= ops);
    } else {
        assert(ops.take(i + 1).drop_last() =~= ops.take(i));
        lemma_operand_roles_prefix(ops, i + 1, d, names, mnemonic);
    }
}

fn add_operand_roles(
    set: &mut RoleSet,
    o: &AsmOperand,
    docvars: &indexmap::IndexMap<String, String>,
    names: &Vec<String>,
    mnemonic: &str,
) -> (ok: bool)
    requires
        old(set).wf(),
    ensures
        final(set).wf(),
        match operand_roles(*o, docvar_entries(*docvars), name_views(names@).to_set(), mnemonic@) {
            Some(s) => ok && final(set).spec_set() == old(set).spec_set().union(s),
            None => !ok,
        },
{
    let hover = to_lowercase(o.hover.as_str());
    let ms = match regex_captures(ENCODED_PATTERN, hover.as_str()) {
        Some(v) => v,
        None => {
            return false;
        },
    };
    add_operand_roles_from(set, &ms, o, docvars, names, mnemonic)
}

/// Adds the roles an operand's hover text names, given the matches of the
/// pattern for its encoding field over that text in lower case; false where
/// the first match lacks its group.
pub fn add_operand_roles_from(
    set: &mut RoleSet,
    ms: &Vec<RegexMatch>,
    o: &AsmOperand,
    docvars: &indexmap::IndexMap<String, String>,
    names: &Vec<String>,
    mnemonic: &str,
) -> (ok: bool)
    requires
        old(set).wf(),
    ensures
        final(set).wf(),
        match operand_roles_from(views_of(ms@), *o, docvar_entries(*docvars), name_views(names@).to_set(), mnemonic@) {
            Some(s) => ok && final(set).spec_set() == old(set).spec_set().union(s),
            None => !ok,
        },
{
    let ghost base = set.spec_set();
    let hover = to_lowercase(o.hover.as_str());
    if ms.len() == 0 {
        assert(set.spec_set() =~= base.union(Set::empty()));
        return true;
    }
    proof {
        assert(views_of(ms@)[0] == match_view(ms@[0]));
    }
    let g = match group_text(&ms[0], 1) {
        Some(t) => t,
        None => {
            return false;
        },
    };
    let field = normalize_role_field(g.as_str(), names);
    let width = operand_width(docvars, Some(o));
    let f = field.as_str();
    let h = hover.as_str();
    if contains_text(h, "base register") {
        set.insert("MemBase", f, "X64");
        set.insert("RegRead", f, "X64");
    }
    if contains_text(h, "destination register") || contains_text(h, "written") {
        set.insert("RegWrite", f, width.as_str());
    }
    if contains_text(h, "source register") || contains_text(h, "first operand register") || contains_text(
        h,
        "second operand register",
    ) || contains_text(h, "register to be tested") {
        set.insert("RegRead", f, width.as_str());
    }
    if contains_text(h, "register to be transferred") {
        if same_text(mnemonic, "LDR") {
            set.insert("RegWrite", f, width.as_str());
        } else {
            set.insert("RegRead", f, width.as_str());
        }
    }
    if contains_text(h, "program label") || contains_text(o.text.as_str(), "<label>") {
        set.insert("BranchTarget", f, "Unknown");
    }
    proof {
        let s = operand_roles_from(views_of(ms@), *o, docvar_entries(*docvars), name_views(names@).to_set(), mnemonic@).unwrap();
        assert(set.spec_set() =~= base.union(s));
    }
    true
}

/// The roles the form's documentation variables and its operands' hover
/// texts give (see `imm_roles` and `operand_roles`): branch offsets and the
/// branches `B`, `BL`, `BR`, `BLR`, `RET`, `CBZ`, `CBNZ`, `TBZ`, `TBNZ`,
/// the loads and stores `LDR` and `STR`, and each operand; none where an
/// operand's pattern fails.
pub open spec fn spec_docvar_roles(
    d: Map<Seq<char>, Seq<char>>,
    ops: Seq<AsmOperand>,
    names: Seq<Seq<char>>,
) -> Option<Set<(Seq<char>, Seq<char>, Seq<char>)>> {
    match all_operand_roles(ops, d, names.to_set(), docvar_or_empty(d, "mnemonic"@)) {
        Some(o) => Some(static_docvar_roles(d, names).union(o)),
        None => None,
    }
}

/// The roles of `spec_docvar_roles` that the documentation variables give.
pub open spec fn static_docvar_roles(d: Map<Seq<char>, Seq<char>>, names: Seq<Seq<char>>) -> Set<
    (Seq<char>, Seq<char>, Seq<char>),
> {
    let nset = names.to_set();
    let mn = docvar_or_empty(d, "mnemonic"@);
    let af = docvar_or_empty(d, "address-form"@);
    let w0 = spec_operand_width(d, seq![], seq![]);
    let s0 = Set::<(Seq<char>, Seq<char>, Seq<char>)>::empty();
    let s1 = if d.contains_key("branch-offset"@) {
        s0.union(imm_roles(names, "BranchTarget"@))
    } else {
        s0
    };
    let s2 = if mn == "B"@ || mn == "BL"@ {
        let t = s1.union(imm_roles(names, "BranchTarget"@));
        if mn == "BL"@ {
            t.insert(link_write())
        } else {
            t
        }
    } else {
        s1
    };
    let s3 = if (mn == "BR"@ || mn == "BLR"@ || mn == "RET"@) && nset.contains("Rn"@) {
        let t = s2.insert(("RegRead"@, "Rn"@, "X64"@));
        if mn == "BLR"@ {
            t.insert(link_write())
        } else {
            t
        }
    } else {
        s2
    };
    let s4 = if (mn == "CBZ"@ || mn == "CBNZ"@ || mn == "TBZ"@ || mn == "TBNZ"@) && nset.contains("Rt"@) {
        s3.insert(("RegRead"@, "Rt"@, w0)).union(imm_roles(names, "BranchTarget"@))
    } else {
        s3
    };
    if mn == "LDR"@ || mn == "STR"@ {
        let a = if nset.contains("Rn"@) {
            s4.insert(
                (
                    if af == "pre-indexed"@ || af == "post-indexed"@ {
                        "RegReadWrite"@
                    } else {
                        "RegRead"@
                    },
                    "Rn"@,
                    "X64"@,
                ),
            ).insert(("MemBase"@, "Rn"@, "X64"@))
        } else {
            s4
        };
        let b = if nset.contains("Rt"@) {
            a.insert(
                (
                    if mn == "LDR"@ {
                        "RegWrite"@
                    } else {
                        "RegRead"@
                    },
                    "Rt"@,
                    w0,
                ),
            )
        } else {
            a
        };
        b.union(imm_roles(names, "MemOffset"@))
    } else {
        s4
    }
}

/// Adds the roles of `spec_docvar_roles`; false where an operand's pattern
/// fails.
fn add_docvar_roles(
    set: &mut RoleSet,
    docvars: &indexmap::IndexMap<String, String>,
    operands: &[AsmOperand],
    names: &Vec<String>,
) -> (ok: bool)
    requires
        old(set).wf(),
    ensures
        final(set).wf(),
        match spec_docvar_roles(docvar_entries(*docvars), operands@, name_views(names@)) {
            Some(s) => ok && final(set).spec_set() == old(set).spec_set().union(s),
            None => !ok,
        },
{
    let ghost base = set.spec_set();
    let ghost d = docvar_entries(*docvars);
    let mnemonic = docvar_text(docvars, "mnemonic");
    let address_form = docvar_text(docvars, "address-form");
    let mn = mnemonic.as_str();
    let af = address_form.as_str();
    let w0 = operand_width(docvars, None);
    let has_rn = contains_name(names, "Rn");
    let has_rt = contains_name(names, "Rt");
    if docvar_has(docvars, "branch-offset") {
        add_imm_roles(set, names, "BranchTarget");
    }
    if same_text(mn, "B") || same_text(mn, "BL") {
        add_imm_roles(set, names, "BranchTarget");
        if same_text(mn, "BL") {
            set.insert("ImplicitRegWrite", "x30", "X64");
        }
    }
    if (same_text(mn, "BR") || same_text(mn, "BLR") || same_text(mn, "RET")) && has_rn {
        set.insert("RegRead", "Rn", "X64");
        if same_text(mn, "BLR") {
            set.insert("ImplicitRegWrite", "x30", "X64");
        }
    }
    if (same_text(mn, "CBZ") || same_text(mn, "CBNZ") || same_text(mn, "TBZ") || same_text(mn, "TBNZ")) && has_rt {
        set.insert("RegRead", "Rt", w0.as_str());
        add_imm_roles(set, names, "BranchTarget");
    }
    if same_text(mn, "LDR") || same_text(mn, "STR") {
        if has_rn {
            if same_text(af, "pre-indexed") || same_text(af, "post-indexed") {
                set.insert("RegReadWrite", "Rn", "X64");
            } else {
                set.insert("RegRead", "Rn", "X64");
            }
            set.insert("MemBase", "Rn", "X64");
        }
        if has_rt {
            if same_text(mn, "LDR") {
                set.insert("RegWrite", "Rt", w0.as_str());
            } else {
                set.insert("RegRead", "Rt", w0.as_str());
            }
        }
        add_imm_roles(set, names, "MemOffset");
    }
    let ghost s5 = set.spec_set();
    proof {
        assert(w0@ == spec_operand_width(d, seq![], seq![]));
        assert(s5 =~= base.union(static_docvar_roles(d, name_views(names@))));
    }
    let mut i: usize = 0;
    while i < operands.len()
        invariant
            set.wf(),
            i <= operands@.len(),
            mn@ == mnemonic@,
            mnemonic@ == docvar_or_empty(docvar_entries(*docvars), "mnemonic"@),
            s5 == base.union(static_docvar_roles(docvar_entries(*docvars), name_views(names@))),
            match all_operand_roles(operands@.take(i as int), docvar_entries(*docvars), name_views(names@).to_set(), mnemonic@) {
                Some(o) => set.spec_set() == s5.union(o),
                None => false,
            },
        decreases operands@.len() - i,
    {
        let ghost ops = operands@;
        assert(ops.take(i + 1).drop_last() =~= ops.take(i as int));
        assert(ops.take(i + 1).last() == ops[i as int]);
        let ghost prev = set.spec_set();
        if !add_operand_roles(set, &operands[i], docvars, names, mn) {
            proof {
                lemma_operand_roles_prefix(ops, i + 1, docvar_entries(*docvars), name_views(names@).to_set(), mnemonic@);
            }
            return false;
        }
        proof {
            let a = all_operand_roles(ops.take(i as int), docvar_entries(*docvars), name_views(names@).to_set(), mnemonic@).unwrap();
            let b = operand_roles(ops[i as int], docvar_entries(*docvars), name_views(names@).to_set(), mnemonic@).unwrap();
            assert(set.spec_set() =~= s5.union(a.union(b)));
        }
        i = i + 1;
    }
    assert(operands@.take(i as int) =~= operands@);
    proof {
        let o = all_operand_roles(operands@, d, name_views(names@).to_set(), mnemonic@).unwrap();
        assert(set.spec_set() =~= base.union(spec_docvar_roles(d, operands@, name_views(names@)).unwrap()));
    }
    true
}

/// The roles a form's fields play, as a set: those its documentation
/// variables and operands give and those its pseudocode shows, made
/// consistent; none where a pattern is refused, a match lacks a group, or
/// the text after an accessor cannot be cut at a character boundary.
pub open spec fn spec_inferred_roles(
    d: Map<Seq<char>, Seq<char>>,
    fields: Seq<FieldSlice>,
    ops: Seq<AsmOperand>,
    decode: Seq<char>,
    text: Seq<char>,
    text_len: usize,
) -> Option<Set<(Seq<char>, Seq<char>, Seq<char>)>> {
    let names = variable_names(fields);
    match spec_var_pairs(decode) {
        None => None,
        Some(pairs) => match (
            spec_docvar_roles(d, ops, names),
            spec_pseudocode_roles(pairs, names.to_set(), spec_operand_width(d, seq![], seq![]), text, text_len),
        ) {
            (Some(a), Some(b)) => Some(spec_simplify(a.union(b))),
            _ => None,
        },
    }
}

pub open spec fn role_spec_view(r: OperandRoleSpec) -> (Seq<char>, Seq<char>, Seq<char>) {
    (r.kind@, r.field@, r.width@)
}

pub open spec fn role_spec_views(v: Seq<OperandRoleSpec>) -> Seq<(Seq<char>, Seq<char>, Seq<char>)> {
    v.map_values(|x: OperandRoleSpec| role_spec_view(x))
}

/// The roles a form's fields play, in order of kind, field and width (see
/// `spec_inferred_roles`).
pub fn infer_operand_roles(
    docvars: &indexmap::IndexMap<String, String>,
    fields: &[FieldSlice],
    operands: &[AsmOperand],
    decode_text: &str,
    execute_text: &str,
) -> (r: Option<Vec<OperandRoleSpec>>)
    ensures
        match spec_inferred_roles(
            docvar_entries(*docvars),
            fields@,
            operands@,
            decode_text@,
            execute_text@,
            execute_text.spec_bytes().len() as usize,
        ) {
            Some(s) => r.is_some() && roles_sorted(role_spec_views(r.unwrap()@))
                && role_spec_views(r.unwrap()@).to_set() == s,
            None => r.is_none(),
        },
{
    let names = variable_field_names(fields);
    let pairs = match decode_var_map(decode_text) {
        Some(p) => p,
        None => {
            return None;
        },
    };
    let mut roles = RoleSet::new();
    if !add_docvar_roles(&mut roles, docvars, operands, &names) {
        return None;
    }
    let width = operand_width(docvars, None);
    if !add_pseudocode_roles(&mut roles, &pairs, &names, width.as_str(), execute_text) {
        return None;
    }
    let simplified = simplify_roles(&roles);
    let mut out: Vec<OperandRoleSpec> = Vec::new();
    let mut i: usize = 0;
    while i < simplified.len()
        invariant
            simplified.wf(),
            i <= simplified.seq().len(),
            role_spec_views(out@) == simplified.seq().take(i as int),
        decreases simplified.seq().len() - i,
    {
        let t = simplified.get(i);
        let ghost before = out@;
        let spec = OperandRoleSpec { kind: t.0.clone(), field: t.1.clone(), width: t.2.clone() };
        assert(role_spec_view(spec) == simplified.seq()[i as int]);
        out.push(spec);
        assert(out@ == before.push(spec));
        assert(role_spec_views(out@) =~= role_spec_views(before).push(role_spec_view(spec)));
        assert(simplified.seq().take(i + 1) =~= simplified.seq().take(i as int).push(simplified.seq()[i as int]));
        i = i + 1;
    }
    proof {
        assert(simplified.seq().take(i as int) =~= simplified.seq());
        let a = spec_docvar_roles(docvar_entries(*docvars), operands@, variable_names(fields@)).unwrap();
        let b = spec_pseudocode_roles(
            pair_views(pairs@),
            variable_names(fields@).to_set(),
            spec_operand_width(docvar_entries(*docvars), seq![], seq![]),
            execute_text@,
            execute_text.spec_bytes().len() as usize,
        ).unwrap();
        assert(roles.spec_set() =~= a.union(b));
    }
    Some(out)
}

fn same_role(a: &(String, String, String), k: &str, f: &str, w: &str) -> (r: bool)
    ensures
        r == (role_of(*a) == (k@, f@, w@)),
{
    same_text(a.0.as_str(), k) && same_text(a.1.as_str(), f) && same_text(a.2.as_str(), w)
}

} // verus!
