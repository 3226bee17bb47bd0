//! Which XML file each form of the configured subset comes from.
use vstd::prelude::*;
use vstd::string::StringExecFns;

use super::model::{InstructionSpec, VariantSpec};

verus! {

/// A form key that is not `<section>.<encoding>` with a non-empty section.
#[derive(Clone, Debug, PartialEq, Eq)]
pub enum SubsetError {
    InvalidFormKey { key: String },
    /// Configured forms that no instruction file has, in configured order.
    MissingForms { forms: Vec<String> },
}

/// The lower-case form of a string, as `str::to_lowercase` gives it.
pub uninterp spec fn lowercase(s: Seq<char>) -> Seq<char>;

/// Calls `str::to_lowercase`; its result is named `lowercase` of the
/// input's characters. Nothing more is claimed of it.
#[verifier::external_body]
pub(crate) fn to_lowercase(s: &str) -> (r: String)
    ensures
        r@ == lowercase(s@),
{
    s.to_lowercase()
}

/// The index of the first `c` in `s`.
pub open spec fn first_index_of(s: Seq<char>, c: char) -> Option<int>
    decreases s.len(),
{
    if s.len() == 0 {
        None
    } else if s[0] == c {
        Some(0)
    } else {
        match first_index_of(s.subrange(1, s.len() as int), c) {
            Some(i) => Some(i + 1),
            None => None,
        }
    }
}

/// The file of a form key `<section>.<encoding>`: the section in lower
/// case, then `.xml`; none when the key has no dot or an empty section.
pub open spec fn spec_form_source_file(key: Seq<char>) -> Option<Seq<char>> {
    match first_index_of(key, '.') {
        Some(i) => if i == 0 {
            None
        } else {
            Some(lowercase(key.take(i)) + ".xml"@)
        },
        None => None,
    }
}

fn find_dot(s: &str) -> (r: Option<usize>)
    ensures
        r matches Some(k) ==> first_index_of(s@, '.') == Some(k as int) && k < s@.len(),
        r is None ==> first_index_of(s@, '.') is None,
{
    let n = s.unicode_len();
    let mut i: usize = 0;
    assert(s@.subrange(0, s@.len() as int) =~= s@);
    while i < n
        invariant
            n == s@.len(),
            i <= n,
            forall|k: int| 0 <= k < i ==> s@[k] != '.',
            first_index_of(s@, '.') == match first_index_of(s@.subrange(i as int, n as int), '.') {
                Some(j) => Some(j + i),
                None => None::<int>,
            },
        decreases n - i,
    {
        let ghost rest = s@.subrange(i as int, n as int);
        assert(rest.subrange(1, rest.len() as int) =~= s@.subrange(i as int + 1, n as int));
        if s.get_char(i) == '.' {
            return Some(i);
        }
        i = i + 1;
    }
    assert(s@.subrange(n as int, n as int) =~= Seq::<char>::empty());
    None
}

/// The XML file a form key `<section>.<encoding>` comes from.
pub fn form_source_file(form_key: &str) -> (r: Result<String, SubsetError>)
    ensures
        match spec_form_source_file(form_key@) {
            Some(f) => r matches Ok(s) && s@ == f,
            None => r matches Err(SubsetError::InvalidFormKey { key }) && key@ == form_key@,
        },
{
    let found = find_dot(form_key);
    let dot = match found {
        Some(i) => i,
        None => {
            return Err(SubsetError::InvalidFormKey { key: String::from_str(form_key) });
        },
    };
    if dot == 0 {
        return Err(SubsetError::InvalidFormKey { key: String::from_str(form_key) });
    }
    let section = form_key.substring_char(0, dot);
    let mut file = to_lowercase(section);
    file.append(".xml");
    Ok(file)
}

/// The files of the forms, each once, in order of first use; the first
/// malformed key if any.
pub open spec fn spec_unique_files(forms: Seq<Seq<char>>) -> Result<Seq<Seq<char>>, Seq<char>>
    decreases forms.len(),
{
    if forms.len() == 0 {
        Ok(seq![])
    } else {
        match spec_unique_files(forms.drop_last()) {
            Err(k) => Err(k),
            Ok(acc) => match spec_form_source_file(forms.last()) {
                None => Err(forms.last()),
                Some(f) => if acc.contains(f) {
                    Ok(acc)
                } else {
                    Ok(acc.push(f))
                },
            },
        }
    }
}

/// The keys' characters.
pub open spec fn views(forms: Seq<String>) -> Seq<Seq<char>> {
    forms.map_values(|s: String| s@)
}

/// The XML files the forms come from, each once, in order of first use.
pub fn unique_instruction_files(forms: &[String]) -> (r: Result<Vec<String>, SubsetError>)
    ensures
        match spec_unique_files(views(forms@)) {
            Ok(files) => r matches Ok(v) && v@.map_values(|s: String| s@) == files,
            Err(k) => r matches Err(SubsetError::InvalidFormKey { key }) && key@ == k,
        },
{
    let mut files: Vec<String> = Vec::new();
    let mut i: usize = 0;
    assert(views(forms@).take(0) =~= Seq::<Seq<char>>::empty());
    assert(files@.map_values(|s: String| s@) =~= Seq::<Seq<char>>::empty());
    while i < forms.len()
        invariant
            i <= forms@.len(),
            spec_unique_files(views(forms@).take(i as int)) == Ok::<Seq<Seq<char>>, Seq<char>>(files@.map_values(|s: String| s@)),
        decreases forms@.len() - i,
    {
        let ghost pre = views(forms@).take(i as int);
        let ghost next = views(forms@).take(i as int + 1);
        assert(next.drop_last() =~= pre);
        assert(next.last() == forms@[i as int]@);
        let file = match form_source_file(forms[i].as_str()) {
            Ok(f) => f,
            Err(e) => {
                proof {
                    lemma_unique_files_sticky(views(forms@), i as int + 1);
                    assert(views(forms@).take(forms@.len() as int) =~= views(forms@));
                }
                return Err(e);
            },
        };
        let ghost acc = files@.map_values(|s: String| s@);
        let mut seen = false;
        let mut k: usize = 0;
        while k < files.len()
            invariant
                k <= files@.len(),
                acc == files@.map_values(|s: String| s@),
                seen == (exists|m: int| 0 <= m < k && #[trigger] acc[m] == file@),
            decreases files@.len() - k,
        {
            assert(acc[k as int] == files@[k as int]@);
            if files[k] == file {
                seen = true;
            }
            k = k + 1;
        }
        assert(seen == acc.contains(file@));
        if !seen {
            files.push(file);
            assert(files@.map_values(|s: String| s@) =~= acc.push(file@));
        }
        i = i + 1;
    }
    assert(views(forms@).take(i as int) =~= views(forms@));
    Ok(files)
}

/// A malformed key among the first `n` forms is the answer for all of them.
proof fn lemma_unique_files_sticky(forms: Seq<Seq<char>>, n: int)
    requires
        0 <= n <= forms.len(),
        spec_unique_files(forms.take(n)) is Err,
    ensures
        spec_unique_files(forms) == spec_unique_files(forms.take(n)),
    decreases forms.len(),
{
    if n == forms.len() {
        assert(forms.take(n) =~= forms);
    } else {
        let d = forms.drop_last();
        assert(d.take(n) =~= forms.take(n));
        lemma_unique_files_sticky(d, n);
    }
}

/// The key of a variant: its section and its encoding, joined by a dot.
pub open spec fn variant_key(v: VariantSpec) -> Seq<char> {
    v.section_id@ + "."@ + v.encoding_name@
}

fn key_of(v: &VariantSpec) -> (r: String)
    ensures
        r@ == variant_key(*v),
{
    let mut key = v.section_id.clone();
    key.append(".");
    key.append(v.encoding_name.as_str());
    key
}

/// The variants whose keys are wanted, in order.
pub open spec fn kept_variants(vs: Seq<VariantSpec>, wanted: Set<Seq<char>>) -> Seq<VariantSpec>
    decreases vs.len(),
{
    if vs.len() == 0 {
        seq![]
    } else if wanted.contains(variant_key(vs.last())) {
        kept_variants(vs.drop_last(), wanted).push(vs.last())
    } else {
        kept_variants(vs.drop_last(), wanted)
    }
}

/// Whether `b` is `a` but for its variants.
pub open spec fn same_but_variants(a: InstructionSpec, b: InstructionSpec) -> bool {
    &&& a.source_file == b.source_file
    &&& a.section_id == b.section_id
    &&& a.heading == b.heading
    &&& a.title == b.title
    &&& a.docvars == b.docvars
}

/// Each spec with only its wanted variants, as (spec, variants), leaving
/// out the specs with none.
pub open spec fn filtered_specs(specs: Seq<InstructionSpec>, wanted: Set<Seq<char>>) -> Seq<(InstructionSpec, Seq<VariantSpec>)>
    decreases specs.len(),
{
    if specs.len() == 0 {
        seq![]
    } else {
        let rest = filtered_specs(specs.drop_last(), wanted);
        let kept = kept_variants(specs.last().variants@, wanted);
        if kept.len() > 0 {
            rest.push((specs.last(), kept))
        } else {
            rest
        }
    }
}

/// Whether one of the variants has key `k`.
pub open spec fn variant_keyed(vs: Seq<VariantSpec>, k: Seq<char>) -> bool {
    exists|j: int| 0 <= j < vs.len() && variant_key(vs[j]) == k
}

/// Whether some variant of the specs has key `k`.
pub open spec fn has_variant_key(specs: Seq<InstructionSpec>, k: Seq<char>) -> bool {
    exists|i: int| 0 <= i < specs.len() && #[trigger] variant_keyed(specs[i].variants@, k)
}

/// The forms, in order, that no variant of the specs has.
pub open spec fn missing_forms(forms: Seq<Seq<char>>, specs: Seq<InstructionSpec>) -> Seq<Seq<char>>
    decreases forms.len(),
{
    if forms.len() == 0 {
        seq![]
    } else if has_variant_key(specs, forms.last()) {
        missing_forms(forms.drop_last(), specs)
    } else {
        missing_forms(forms.drop_last(), specs).push(forms.last())
    }
}

/// Whether the output specs are the filtered ones.
pub open spec fn specs_match(out: Seq<InstructionSpec>, expected: Seq<(InstructionSpec, Seq<VariantSpec>)>) -> bool {
    &&& out.len() == expected.len()
    &&& forall|k: int| 0 <= k < out.len() ==> same_but_variants(#[trigger] out[k], expected[k].0) && out[k].variants@ == expected[k].1
}

fn wanted_form(forms: &[String], key: &String) -> (r: bool)
    ensures
        r == views(forms@).to_set().contains(key@),
{
    let mut i: usize = 0;
    while i < forms.len()
        invariant
            i <= forms@.len(),
            forall|k: int| 0 <= k < i ==> forms@[k]@ != key@,
        decreases forms@.len() - i,
    {
        if forms[i] == *key {
            proof {
                assert(views(forms@)[i as int] == key@);
            }
            return true;
        }
        i = i + 1;
    }
    proof {
        if views(forms@).to_set().contains(key@) {
            let k = choose|k: int| 0 <= k < views(forms@).len() && views(forms@)[k] == key@;
            assert(forms@[k]@ == key@);
        }
    }
    false
}

fn keep_wanted(variants: Vec<VariantSpec>, forms: &[String], found: &mut Vec<String>) -> (r: Vec<VariantSpec>)
    ensures
        r@ == kept_variants(variants@, views(forms@).to_set()),
        forall|k: Seq<char>| #[trigger] views(final(found)@).contains(k) <==> (views(old(found)@).contains(k) || (views(forms@).to_set().contains(k) && variant_keyed(variants@, k))),
{
    let ghost all = variants@;
    let ghost wanted = views(forms@).to_set();
    let ghost found0 = views(found@);
    let mut vs = variants;
    let mut kept: Vec<VariantSpec> = Vec::new();
    let mut n: usize = 0;
    assert(all.len() == vs.len());
    while vs.len() > 0
        invariant
            n <= all.len(),
            all.len() <= usize::MAX,
            vs@ == all.skip(n as int),
            kept@ == kept_variants(all.take(n as int), wanted),
            wanted == views(forms@).to_set(),
            forall|k: Seq<char>| views(found@).contains(k) <==> (found0.contains(k) || (wanted.contains(k) && exists|j: int| 0 <= j < n && variant_key(all[j]) == k)),
        decreases vs@.len(),
    {
        assert(all.take(n + 1).drop_last() =~= all.take(n as int));
        assert(all.take(n + 1).last() == all[n as int]);
        let v = vs.remove(0);
        assert(v == all[n as int]);
        let key = key_of(&v);
        let ghost before = views(found@);
        if wanted_form(forms, &key) {
            found.push(key);
            kept.push(v);
            assert(views(found@) =~= before.push(key@));
        }
        proof {
            assert forall|k: Seq<char>| views(found@).contains(k) <==> (found0.contains(k) || (wanted.contains(k) && exists|j: int| 0 <= j < n + 1 && variant_key(all[j]) == k)) by {
                if exists|j: int| 0 <= j < n + 1 && variant_key(all[j]) == k {
                    let j = choose|j: int| 0 <= j < n + 1 && variant_key(all[j]) == k;
                    if j < n {
                        assert(exists|j2: int| 0 <= j2 < n && variant_key(all[j2]) == k);
                    }
                }
                if views(found@).contains(k) && !before.contains(k) {
                    assert(k == key@);
                    assert(0 <= n < n + 1 && variant_key(all[n as int]) == k);
                }
                if wanted.contains(k) && variant_key(all[n as int]) == k {
                    assert(views(found@).contains(k)) by {
                        assert(views(found@)[views(found@).len() - 1] == k);
                    }
                }
                if before.contains(k) {
                    let m = choose|m: int| 0 <= m < before.len() && before[m] == k;
                    assert(views(found@)[m] == k);
                }
            }
        }
        n = n + 1;
        assert(vs@ =~= all.skip(n as int));
    }
    assert(all.take(n as int) =~= all);
    proof {
        assert forall|k: Seq<char>| (exists|j: int| 0 <= j < n && variant_key(all[j]) == k) <==> variant_keyed(all, k) by {}
    }
    kept
}

/// The specs with only the variants of the configured forms, leaving out
/// the specs with none; the forms that no variant has, in order, where there
/// are any.
pub fn filter_specs_by_forms(specs: Vec<InstructionSpec>, forms: &[String]) -> (r: Result<Vec<InstructionSpec>, SubsetError>)
    ensures
        missing_forms(views(forms@), specs@).len() > 0 ==> (r matches Err(SubsetError::MissingForms { forms: m })
            && views(m@) == missing_forms(views(forms@), specs@)),
        missing_forms(views(forms@), specs@).len() == 0 ==> (r matches Ok(out) && specs_match(
            out@,
            filtered_specs(specs@, views(forms@).to_set()),
        )),
{
    let ghost all = specs@;
    let ghost wanted = views(forms@).to_set();
    let mut rest = specs;
    let mut out: Vec<InstructionSpec> = Vec::new();
    let mut found: Vec<String> = Vec::new();
    let mut n: usize = 0;
    assert(all.len() == rest.len());
    while rest.len() > 0
        invariant
            n <= all.len(),
            all.len() <= usize::MAX,
            rest@ == all.skip(n as int),
            wanted == views(forms@).to_set(),
            specs_match(out@, filtered_specs(all.take(n as int), wanted)),
            forall|k: Seq<char>| views(found@).contains(k) <==> (wanted.contains(k) && has_variant_key(all.take(n as int), k)),
        decreases rest@.len(),
    {
        assert(all.take(n + 1).drop_last() =~= all.take(n as int));
        assert(all.take(n + 1).last() == all[n as int]);
        let spec = rest.remove(0);
        assert(spec == all[n as int]);
        let InstructionSpec { source_file, section_id, heading, title, docvars, variants } = spec;
        let ghost vs0 = variants@;
        assert(all[n as int].variants@ == vs0);
        let ghost found_before = views(found@);
        let kept = keep_wanted(variants, forms, &mut found);
        let ghost expected = filtered_specs(all.take(n + 1), wanted);
        if kept.len() > 0 {
            let ghost out_before = out@;
            out.push(InstructionSpec { source_file, section_id, heading, title, docvars, variants: kept });
            assert forall|k: int| 0 <= k < out@.len() implies same_but_variants(#[trigger] out@[k], expected[k].0) && out@[k].variants@ == expected[k].1 by {
                if k < out_before.len() {
                    assert(out@[k] == out_before[k]);
                }
            }
        }
        proof {
            let t = all.take(n + 1);
            let p = all.take(n as int);
            assert(t[n as int].variants@ == vs0);
            assert forall|i: int| 0 <= i < n implies t[i] == p[i] by {}
            assert forall|k: Seq<char>| views(found@).contains(k) <==> (wanted.contains(k) && has_variant_key(t, k)) by {
                assert(found_before.contains(k) <==> (wanted.contains(k) && has_variant_key(p, k)));
                assert(views(found@).contains(k) <==> (found_before.contains(k) || (wanted.contains(k) && variant_keyed(vs0, k))));
                if has_variant_key(t, k) {
                    let i = choose|i: int| 0 <= i < t.len() && #[trigger] variant_keyed(t[i].variants@, k);
                    if i < n {
                        assert(variant_keyed(p[i].variants@, k));
                        assert(has_variant_key(p, k));
                    } else {
                        assert(variant_keyed(vs0, k));
                    }
                }
                if variant_keyed(vs0, k) {
                    assert(variant_keyed(t[n as int].variants@, k));
                    assert(has_variant_key(t, k));
                }
                if has_variant_key(p, k) {
                    let i = choose|i: int| 0 <= i < p.len() && #[trigger] variant_keyed(p[i].variants@, k);
                    assert(variant_keyed(t[i].variants@, k));
                    assert(has_variant_key(t, k));
                }
            }
        }
        n = n + 1;
        assert(rest@ =~= all.skip(n as int));
    }
    assert(all.take(n as int) =~= all);
    let mut missing: Vec<String> = Vec::new();
    let mut i: usize = 0;
    while i < forms.len()
        invariant
            i <= forms@.len(),
            n == all.len(),
            all.take(n as int) == all,
            wanted == views(forms@).to_set(),
            forall|k: Seq<char>| views(found@).contains(k) <==> (wanted.contains(k) && has_variant_key(all, k)),
            views(missing@) == missing_forms(views(forms@).take(i as int), all),
        decreases forms@.len() - i,
    {
        assert(views(forms@).take(i + 1).drop_last() =~= views(forms@).take(i as int));
        assert(views(forms@).take(i + 1).last() == forms@[i as int]@);
        assert(wanted.contains(forms@[i as int]@)) by {
            assert(views(forms@)[i as int] == forms@[i as int]@);
        }
        let ghost before = views(missing@);
        if !contains_string(&found, &forms[i]) {
            missing.push(forms[i].clone());
            assert(views(missing@) =~= before.push(forms@[i as int]@));
        }
        i = i + 1;
    }
    assert(views(forms@).take(i as int) =~= views(forms@));
    if missing.len() > 0 {
        Err(SubsetError::MissingForms { forms: missing })
    } else {
        Ok(out)
    }
}

fn contains_string(v: &Vec<String>, s: &String) -> (r: bool)
    ensures
        r == views(v@).contains(s@),
{
    let mut i: usize = 0;
    while i < v.len()
        invariant
            i <= v@.len(),
            forall|k: int| 0 <= k < i ==> v@[k]@ != s@,
        decreases v@.len() - i,
    {
        if v[i] == *s {
            proof {
                assert(views(v@)[i as int] == s@);
            }
            return true;
        }
        i = i + 1;
    }
    proof {
        if views(v@).contains(s@) {
            let k = choose|k: int| 0 <= k < views(v@).len() && views(v@)[k] == s@;
            assert(v@[k]@ == s@);
        }
    }
    false
}

} // verus!
