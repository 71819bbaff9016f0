//! The availability prober: a dry pass over the catalog that resolves each
//! entry's executable name and plans one path-resolution probe per distinct
//! resolved name, in first-occurrence order.

use vstd::prelude::*;
use crate::catalog::Cmd;
use crate::catalog::CmdView;
use crate::config::BundleView;
use crate::config::Options;
use crate::engine::Invocation;
use crate::engine::InvocationView;
use crate::engine::wrap_command;
use crate::engine::wrapped_invocation_spec;
use crate::render::format_command;
use crate::render::resolved_command_spec;
use crate::text::str_eq;

verus! {

/// Every entry's resolved executable name, in catalog order.
pub open spec fn resolved_names_spec(cs: Seq<CmdView>, o: BundleView) -> Seq<Seq<char>> {
    cs.map_values(|c: CmdView| resolved_command_spec(c.command, o))
}

/// The distinct elements of `s`, each at its first occurrence, in order.
pub open spec fn dedup_spec(s: Seq<Seq<char>>) -> Seq<Seq<char>>
    decreases s.len(),
{
    if s.len() == 0 {
        Seq::empty()
    } else {
        let d = dedup_spec(s.drop_last());
        if s.drop_last().contains(s.last()) {
            d
        } else {
            d.push(s.last())
        }
    }
}

/// Deduplication keeps exactly the elements of the original sequence: a
/// name is probed if and only if some entry resolves to it.
pub proof fn lemma_dedup_complete(s: Seq<Seq<char>>)
    ensures
        forall|x: Seq<char>| s.contains(x) <==> dedup_spec(s).contains(x),
    decreases s.len(),
{
    if s.len() > 0 {
        let t = s.drop_last();
        let d = dedup_spec(s);
        lemma_dedup_complete(t);
        assert forall|x: Seq<char>| s.contains(x) implies d.contains(x) by {
            let i = choose|i: int| 0 <= i < s.len() && s[i] == x;
            if i < s.len() - 1 {
                assert(t[i] == x);
                assert(t.contains(x));
            } else {
                if t.contains(x) {
                    assert(dedup_spec(t).contains(x));
                } else {
                    assert(d == dedup_spec(t).push(x));
                    assert(d[d.len() - 1] == x);
                }
            }
            if dedup_spec(t).contains(x) {
                let j = choose|j: int| 0 <= j < dedup_spec(t).len() && dedup_spec(t)[j] == x;
                assert(d[j] == x);
            }
        }
        assert forall|x: Seq<char>| d.contains(x) implies s.contains(x) by {
            let j = choose|j: int| 0 <= j < d.len() && d[j] == x;
            if t.contains(s.last()) {
                assert(dedup_spec(t)[j] == x);
                assert(t.contains(x));
                let i = choose|i: int| 0 <= i < t.len() && t[i] == x;
                assert(s[i] == x);
            } else {
                if j < dedup_spec(t).len() {
                    assert(dedup_spec(t)[j] == x);
                    assert(t.contains(x));
                    let i = choose|i: int| 0 <= i < t.len() && t[i] == x;
                    assert(s[i] == x);
                } else {
                    assert(x == s.last());
                    assert(s[s.len() - 1] == x);
                }
            }
        }
    }
}

/// Deduplication leaves no duplicates: each distinct resolved name is
/// probed exactly once per run.
pub proof fn lemma_dedup_distinct(s: Seq<Seq<char>>)
    ensures
        forall|i: int, j: int|
            0 <= i < j < dedup_spec(s).len() ==> dedup_spec(s)[i] != dedup_spec(s)[j],
    decreases s.len(),
{
    if s.len() > 0 {
        let t = s.drop_last();
        let d = dedup_spec(s);
        lemma_dedup_distinct(t);
        lemma_dedup_complete(t);
        if !t.contains(s.last()) {
            assert forall|i: int, j: int|
                0 <= i < j < d.len() implies d[i] != d[j] by {
                if j < dedup_spec(t).len() {
                    assert(dedup_spec(t)[i] == d[i]);
                    assert(dedup_spec(t)[j] == d[j]);
                } else {
                    assert(d[j] == s.last());
                    assert(d[i] == dedup_spec(t)[i]);
                    if d[i] == s.last() {
                        assert(dedup_spec(t).contains(s.last()));
                        assert(t.contains(s.last()));
                    }
                }
            }
        }
    }
}

/// The positions of the first occurrences of the elements that `dedup_spec`
/// keeps, in the same order.
pub open spec fn dedup_first_indices_spec(s: Seq<Seq<char>>) -> Seq<int>
    decreases s.len(),
{
    if s.len() == 0 {
        Seq::empty()
    } else {
        let d = dedup_first_indices_spec(s.drop_last());
        if s.drop_last().contains(s.last()) {
            d
        } else {
            d.push(s.len() - 1)
        }
    }
}

/// `ix` is the position of the first element of `s` equal to `name`.
pub open spec fn first_resolution_index(s: Seq<Seq<char>>, ix: int, name: Seq<char>) -> bool {
    &&& 0 <= ix < s.len()
    &&& s[ix] == name
    &&& forall|e: int| 0 <= e < ix ==> #[trigger] s[e] != name
}

/// Each index that deduplication keeps is the first occurrence of the kept
/// name: the name stands there, and at no earlier position.
pub proof fn lemma_dedup_first_occurrences(s: Seq<Seq<char>>)
    ensures
        dedup_first_indices_spec(s).len() == dedup_spec(s).len(),
        forall|k: int|
            0 <= k < dedup_spec(s).len() ==> first_resolution_index(
                s,
                dedup_first_indices_spec(s)[k],
                #[trigger] dedup_spec(s)[k],
            ),
    decreases s.len(),
{
    if s.len() > 0 {
        let t = s.drop_last();
        let d = dedup_spec(s);
        let di = dedup_first_indices_spec(s);
        let dt = dedup_spec(t);
        let dti = dedup_first_indices_spec(t);
        lemma_dedup_first_occurrences(t);
        assert forall|k: int|
            0 <= k < d.len() implies first_resolution_index(s, di[k], #[trigger] d[k]) by {
            if k < dt.len() {
                assert(d[k] == dt[k]);
                assert(di[k] == dti[k]);
                assert(first_resolution_index(t, dti[k], dt[k]));
                assert(s[di[k]] == t[dti[k]]);
                assert forall|e: int| 0 <= e < di[k] implies #[trigger] s[e] != d[k] by {
                    assert(t[e] == s[e]);
                    assert(t[e] != dt[k]);
                }
            } else {
                assert(!t.contains(s.last()));
                assert(d[k] == s.last());
                assert(di[k] == s.len() - 1);
                assert(s[s.len() - 1] == s.last());
                assert forall|e: int| 0 <= e < s.len() - 1 implies #[trigger] s[e]
                    != s.last() by {
                    if s[e] == s.last() {
                        assert(t[e] == s.last());
                        assert(t.contains(s.last()));
                    }
                }
            }
        }
    }
}

/// The planned probe names — what `probe_plan` returns — hold each distinct
/// resolved executable name exactly once: they are pairwise distinct, and
/// every catalog entry's resolved name is among them.
pub proof fn lemma_one_probe_per_distinct_name(cs: Seq<CmdView>, o: BundleView)
    ensures
        forall|i: int, j: int|
            0 <= i < j < dedup_spec(resolved_names_spec(cs, o)).len() ==> dedup_spec(
                resolved_names_spec(cs, o),
            )[i] != dedup_spec(resolved_names_spec(cs, o))[j],
        forall|e: int|
            0 <= e < cs.len() ==> dedup_spec(resolved_names_spec(cs, o)).contains(
                resolved_command_spec((#[trigger] cs[e]).command, o),
            ),
{
    let rn = resolved_names_spec(cs, o);
    lemma_dedup_distinct(rn);
    lemma_dedup_complete(rn);
    assert forall|e: int|
        0 <= e < cs.len() implies dedup_spec(rn).contains(
        resolved_command_spec((#[trigger] cs[e]).command, o),
    ) by {
        assert(rn[e] == resolved_command_spec(cs[e].command, o));
        assert(rn.contains(rn[e]));
    }
}

/// The probe invocation for one entry: the shell's own path resolution of
/// the entry's resolved executable name, wrapped exactly as the entry
/// itself would be.
pub open spec fn probe_invocation_spec(c: CmdView, o: BundleView) -> InvocationView {
    wrapped_invocation_spec(
        c,
        o,
        "sh"@,
        seq!["-c"@, "command -v "@ + resolved_command_spec(c.command, o)],
    )
}

/// Builds the probe invocation for one entry: `sh -c "command -v <name>"`,
/// wrapped per the entry's declarations.  The shell's built-in resolution
/// does the path search; nothing here re-implements it.
pub fn check_command(cmd: &Cmd, options: &Options) -> (inv: Invocation)
    ensures
        inv@ == probe_invocation_spec(cmd@, options@),
{
    let name = format_command(cmd.command.as_str(), options);
    let mut probe = String::from_str("command -v ");
    probe.append(name.as_str());
    let mut extra: Vec<String> = Vec::new();
    extra.push(String::from_str("-c"));
    extra.push(probe);
    proof {
        assert(extra.deep_view() =~= seq![
            "-c"@,
            "command -v "@ + resolved_command_spec(cmd@.command, options@),
        ]);
    }
    wrap_command(cmd, options, String::from_str("sh"), extra)
}

/// The probe pass plan: for each distinct resolved executable name, in
/// first-occurrence order, the name and the index of the first catalog
/// entry that resolves to it.
pub struct ProbePlan {
    pub indices: Vec<usize>,
    pub names: Vec<String>,
}

fn contains_name(names: &Vec<String>, target: &str) -> (r: bool)
    ensures
        r == names.deep_view().contains(target@),
{
    let mut k: usize = 0;
    let mut found = false;
    while k < names.len()
        invariant
            k <= names@.len(),
            found == exists|j: int| 0 <= j < k && names.deep_view()[j] == target@,
        decreases names@.len() - k,
    {
        if str_eq(names[k].as_str(), target) {
            found = true;
            proof {
                assert(names.deep_view()[k as int] == target@);
            }
        }
        k += 1;
    }
    found
}

/// Plans the probe pass: one probe per distinct resolved executable name,
/// deduplicated in first-occurrence order, with the catalog index whose
/// entry first resolved to each name.
pub fn probe_plan(catalog: &Vec<Cmd>, options: &Options) -> (plan: ProbePlan)
    ensures
        plan.names.deep_view() == dedup_spec(
            resolved_names_spec(crate::catalog::catalog_views(catalog@), options@),
        ),
        plan.indices@.len() == plan.names@.len(),
        forall|k: int| 0 <= k < plan.indices@.len() ==> (#[trigger] plan.indices@[k])
            < catalog@.len(),
        plan.indices@.map_values(
            |ix: usize| resolved_command_spec(catalog@[ix as int]@.command, options@),
        ) == plan.names.deep_view(),
        plan.indices@.map_values(|ix: usize| ix as int) == dedup_first_indices_spec(
            resolved_names_spec(crate::catalog::catalog_views(catalog@), options@),
        ),
        forall|k: int|
            0 <= k < plan.names@.len() ==> #[trigger] first_resolution_index(
                resolved_names_spec(crate::catalog::catalog_views(catalog@), options@),
                plan.indices@[k] as int,
                plan.names.deep_view()[k],
            ),
{
    let ghost rn = resolved_names_spec(crate::catalog::catalog_views(catalog@), options@);
    let mut indices: Vec<usize> = Vec::new();
    let mut names: Vec<String> = Vec::new();
    let mut i: usize = 0;
    proof {
        assert(names.deep_view() =~= Seq::<Seq<char>>::empty());
        assert(dedup_spec(rn.take(0)) =~= Seq::<Seq<char>>::empty());
    }
    while i < catalog.len()
        invariant
            i <= catalog@.len(),
            rn == resolved_names_spec(crate::catalog::catalog_views(catalog@), options@),
            rn.len() == catalog@.len(),
            names.deep_view() == dedup_spec(rn.take(i as int)),
            indices@.len() == names@.len(),
            forall|k: int| 0 <= k < indices@.len() ==> (#[trigger] indices@[k]) < i,
            indices@.map_values(|ix: usize| rn[ix as int]) == names.deep_view(),
            indices@.map_values(|ix: usize| ix as int) == dedup_first_indices_spec(
                rn.take(i as int),
            ),
        decreases catalog@.len() - i,
    {
        let c = &catalog[i];
        let name = format_command(c.command.as_str(), options);
        proof {
            assert(rn[i as int] == resolved_command_spec(catalog@[i as int]@.command, options@));
            assert(rn.take(i + 1).drop_last() =~= rn.take(i as int));
            assert(rn.take(i + 1).last() == rn[i as int]);
            lemma_dedup_complete(rn.take(i as int));
        }
        let seen = contains_name(&names, name.as_str());
        let ghost prevn = names.deep_view();
        let ghost previ = indices@;
        if !seen {
            proof {
                assert(!rn.take(i as int).contains(rn[i as int]));
                assert(dedup_spec(rn.take(i + 1)) == prevn.push(rn[i as int]));
            }
            indices.push(i);
            names.push(name);
            proof {
                assert(names.deep_view() =~= prevn.push(rn[i as int]));
                assert(indices@ == previ.push(i));
                assert(indices@.map_values(|ix: usize| rn[ix as int]) =~= previ.map_values(
                    |ix: usize| rn[ix as int],
                ).push(rn[i as int]));
                assert(rn.take(i + 1).len() - 1 == i);
                assert(dedup_first_indices_spec(rn.take(i + 1)) == dedup_first_indices_spec(
                    rn.take(i as int),
                ).push(i as int));
                assert(indices@.map_values(|ix: usize| ix as int) =~= previ.map_values(
                    |ix: usize| ix as int,
                ).push(i as int));
            }
        } else {
            proof {
                assert(rn.take(i as int).contains(rn[i as int]));
                assert(dedup_spec(rn.take(i + 1)) == dedup_spec(rn.take(i as int)));
                assert(dedup_first_indices_spec(rn.take(i + 1)) == dedup_first_indices_spec(
                    rn.take(i as int),
                ));
            }
        }
        i += 1;
    }
    proof {
        assert(rn.take(rn.len() as int) =~= rn);
        assert(indices@.map_values(|ix: usize| rn[ix as int]) =~= indices@.map_values(
            |ix: usize| resolved_command_spec(catalog@[ix as int]@.command, options@),
        ));
        lemma_dedup_first_occurrences(rn);
        assert forall|k: int|
            0 <= k < names@.len() implies #[trigger] first_resolution_index(
            rn,
            indices@[k] as int,
            names.deep_view()[k],
        ) by {
            assert(indices@.map_values(|ix: usize| ix as int)[k] == indices@[k] as int);
            assert(indices@[k] as int == dedup_first_indices_spec(rn)[k]);
            assert(names.deep_view()[k] == dedup_spec(rn)[k]);
            assert(first_resolution_index(
                rn,
                dedup_first_indices_spec(rn)[k],
                dedup_spec(rn)[k],
            ));
        }
    }
    ProbePlan { indices, names }
}

/// Availability lookup for the execution pass: whether the probe pass
/// reported success for this resolved executable name.
pub fn lookup_availability(names: &Vec<String>, results: &Vec<bool>, name: &str) -> (r: bool)
    requires
        names@.len() == results@.len(),
    ensures
        r == exists|k: int|
            0 <= k < names@.len() && names.deep_view()[k] == name@ && results@[k],
{
    let mut k: usize = 0;
    let mut found = false;
    while k < names.len()
        invariant
            k <= names@.len(),
            names@.len() == results@.len(),
            found == exists|j: int|
                0 <= j < k && names.deep_view()[j] == name@ && results@[j],
        decreases names@.len() - k,
    {
        if results[k] && str_eq(names[k].as_str(), name) {
            found = true;
            proof {
                assert(names.deep_view()[k as int] == name@ && results@[k as int]);
            }
        }
        k += 1;
    }
    found
}

} // verus!
