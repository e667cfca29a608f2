//! Install ordering: a dependency-respecting order over a package's plugins.
//!
//! The dependency relation is directed: a plugin definition names, in its
//! `depends_on` list, ids of sibling plugins that must be installed first. An
//! id names the last definition carrying it, as a map keyed by id and filled
//! in declaration order would have it; an id that no definition carries adds
//! no edge. The order is computed by a depth-first traversal in declaration
//! order, which finds every definition's dependencies before the definition
//! itself, and fails exactly when the relation has a cycle.

use vstd::prelude::*;
use vstd::seq_lib::*;
use vstd::set_lib::*;

use crate::error::ErrorKind;
use crate::error::ManifestError;
use crate::package::PackageManifest;
use crate::package::PluginDef;

verus! {

/// The index of the definition that an id names: the last definition with
/// that id, or nothing when no definition carries it.
pub open spec fn spec_find(defs: Seq<PluginDef>, id: Seq<char>) -> Option<int>
    decreases defs.len(),
{
    if defs.len() == 0 {
        None
    } else if defs.last().id@ == id {
        Some(defs.len() - 1)
    } else {
        spec_find(defs.drop_last(), id)
    }
}

/// A found index is in range, carries the id, and is the last index carrying
/// it; nothing is found only when no index carries the id.
pub proof fn lemma_spec_find(defs: Seq<PluginDef>, id: Seq<char>)
    ensures
        match spec_find(defs, id) {
            Some(k) => 0 <= k < defs.len() && defs[k].id@ == id && (forall|j: int|
                k < j < defs.len() ==> (#[trigger] defs[j]).id@ != id),
            None => forall|j: int| 0 <= j < defs.len() ==> (#[trigger] defs[j]).id@ != id,
        },
    decreases defs.len(),
{
    if defs.len() > 0 && defs.last().id@ != id {
        lemma_spec_find(defs.drop_last(), id);
        assert forall|j: int| 0 <= j < defs.len() - 1 implies defs.drop_last()[j] == defs[j] by {}
    }
}

/// Whether index `k` is the definition that its own id names.
pub open spec fn is_canon(defs: Seq<PluginDef>, k: int) -> bool {
    &&& 0 <= k < defs.len()
    &&& spec_find(defs, defs[k].id@) == Some(k)
}

/// Looking up the id of any definition finds a definition.
pub proof fn lemma_find_own_id(defs: Seq<PluginDef>, i: int)
    requires
        0 <= i < defs.len(),
    ensures
        spec_find(defs, defs[i].id@) is Some,
{
    lemma_spec_find(defs, defs[i].id@);
    if spec_find(defs, defs[i].id@) is None {
        assert(defs[i].id@ != defs[i].id@);
    }
}

/// The index found for an id is itself canonical.
pub proof fn lemma_found_is_canon(defs: Seq<PluginDef>, id: Seq<char>)
    requires
        spec_find(defs, id) is Some,
    ensures
        is_canon(defs, spec_find(defs, id)->0),
{
    lemma_spec_find(defs, id);
}

/// A dependency edge: definition `a` names, in its `depends_on` list, the id
/// that definition `b` canonically carries.
pub open spec fn dep_edge(defs: Seq<PluginDef>, a: int, b: int) -> bool {
    &&& 0 <= a < defs.len()
    &&& exists|t: int|
        0 <= t < defs[a].depends_on@.len() && spec_find(
            defs,
            (#[trigger] defs[a].depends_on@[t])@,
        ) == Some(b)
}

/// A dependency cycle: a non-empty index sequence in which each definition
/// depends on the next, and the last on the first.
pub open spec fn is_cycle(defs: Seq<PluginDef>, c: Seq<int>) -> bool {
    &&& c.len() > 0
    &&& forall|k: int|
        0 <= k < c.len() ==> dep_edge(
            defs,
            #[trigger] c[k],
            if k + 1 == c.len() {
                c[0]
            } else {
                c[k + 1]
            },
        )
}

/// Whether the dependency relation has a cycle at all.
pub open spec fn has_cycle(defs: Seq<PluginDef>) -> bool {
    exists|c: Seq<int>| is_cycle(defs, c)
}

/// Whether the dependency relation has a cycle through a definition carrying
/// this id.
pub open spec fn cycle_through(defs: Seq<PluginDef>, id: Seq<char>) -> bool {
    exists|c: Seq<int>|
        is_cycle(defs, c) && 0 <= c[0] < defs.len() && defs[c[0]].id@ == id
}

/// Find the definition that an id names.
fn find_def(defs: &Vec<PluginDef>, id: &String) -> (r: Option<usize>)
    ensures
        match r {
            Some(k) => spec_find(defs@, id@) == Some(k as int),
            None => spec_find(defs@, id@) is None,
        },
{
    let mut j: usize = defs.len();
    proof {
        assert(defs@.take(j as int) =~= defs@);
    }
    while j > 0
        invariant
            0 <= j <= defs@.len(),
            spec_find(defs@, id@) == spec_find(defs@.take(j as int), id@),
        decreases j,
    {
        proof {
            assert(defs@.take(j as int).drop_last() =~= defs@.take(j - 1));
            assert(defs@.take(j as int).last() == defs@[j - 1]);
        }
        if defs[j - 1].id.eq(id) {
            return Some(j - 1);
        }
        j = j - 1;
    }
    None
}

// ---------------------------------------------------------------------------
// Traversal state
// ---------------------------------------------------------------------------

/// Every dependency of an ordered definition stands earlier in the order.
pub open spec fn deps_respected(defs: Seq<PluginDef>, order: Seq<usize>) -> bool {
    forall|p: int, b: int|
        0 <= p < order.len() && #[trigger] dep_edge(defs, order[p] as int, b) ==> exists|q: int|
            0 <= q < p && #[trigger] order[q] as int == b
}

/// The finished part of the traversal: the order lists exactly the finished
/// (visited) definitions, each canonical, at most once, dependencies first.
pub open spec fn state_ok(defs: Seq<PluginDef>, visited: Seq<bool>, order: Seq<usize>) -> bool {
    &&& visited.len() == defs.len()
    &&& forall|p: int|
        0 <= p < order.len() ==> is_canon(defs, #[trigger] order[p] as int) && visited[order[p] as int]
    &&& forall|p: int, q: int| 0 <= p < q < order.len() ==> order[p] != order[q]
    &&& forall|j: int|
        0 <= j < visited.len() && #[trigger] visited[j] ==> exists|p: int|
            0 <= p < order.len() && #[trigger] order[p] as int == j
    &&& deps_respected(defs, order)
}

/// The active part of the traversal: the chain of definitions whose visits
/// have begun and not finished, linked by dependency edges; the in-progress
/// flags mark exactly its members.
pub open spec fn chain_ok(defs: Seq<PluginDef>, chain: Seq<int>, in_prog: Seq<bool>) -> bool {
    &&& in_prog.len() == defs.len()
    &&& forall|x: int| 0 <= x < chain.len() ==> 0 <= #[trigger] chain[x] < defs.len()
    &&& chain.no_duplicates()
    &&& forall|j: int| 0 <= j < defs.len() ==> (#[trigger] in_prog[j] <==> chain.contains(j))
    &&& forall|x: int| 0 <= x < chain.len() - 1 ==> dep_edge(defs, #[trigger] chain[x], chain[x + 1])
}

/// No definition is both finished and in progress.
pub open spec fn flags_disjoint(visited: Seq<bool>, in_prog: Seq<bool>) -> bool {
    forall|j: int| 0 <= j < visited.len() ==> !((#[trigger] visited[j]) && in_prog[j])
}

/// A sequence of distinct integers drawn from `0..n` has at most `n` entries.
proof fn lemma_distinct_bounded(s: Seq<int>, n: int)
    requires
        s.no_duplicates(),
        forall|x: int| 0 <= x < s.len() ==> 0 <= #[trigger] s[x] < n,
        0 <= n,
    ensures
        s.len() <= n,
{
    s.unique_seq_to_set();
    assert(s.to_set().subset_of(set_int_range(0, n))) by {
        assert forall|a: int| s.to_set().contains(a) implies set_int_range(0, n).contains(a) by {
            let x = choose|x: int| 0 <= x < s.len() && s[x] == a;
        }
    }
    lemma_int_range(0, n);
    lemma_len_subset(s.to_set(), set_int_range(0, n));
}

/// Visit one canonical definition: finish its dependencies, then the
/// definition, or report a dependency cycle.
fn visit(
    defs: &Vec<PluginDef>,
    k: usize,
    visited: &mut Vec<bool>,
    in_prog: &mut Vec<bool>,
    order: &mut Vec<usize>,
    chain: Ghost<Seq<int>>,
) -> (r: Result<(), ManifestError>)
    requires
        k < defs@.len(),
        is_canon(defs@, k as int),
        state_ok(defs@, old(visited)@, old(order)@),
        chain_ok(defs@, chain@, old(in_prog)@),
        flags_disjoint(old(visited)@, old(in_prog)@),
        chain@.len() > 0 ==> dep_edge(defs@, chain@.last(), k as int),
    ensures
        state_ok(defs@, final(visited)@, final(order)@),
        final(in_prog)@.len() == defs@.len(),
        flags_disjoint(final(visited)@, final(in_prog)@),
        r matches Ok(u) ==> {
            &&& final(in_prog)@ == old(in_prog)@
            &&& forall|j: int| 0 <= j < defs@.len() && old(visited)@[j] ==> final(visited)@[j]
            &&& old(order)@.is_prefix_of(final(order)@)
            &&& final(visited)@[k as int]
        },
        r matches Err(e) ==> (e@ matches ErrorKind::CircularDependency(id) && cycle_through(
            defs@,
            id,
        )),
    decreases defs@.len() - chain@.len(),
{
    let n = defs.len();
    if visited[k] {
        return Ok(());
    }
    if in_prog[k] {
        proof {
            assert(chain@.contains(k as int));
            let x = choose|x: int| 0 <= x < chain@.len() && chain@[x] == k as int;
            let c = chain@.subrange(x, chain@.len() as int);
            assert(c[0] == k as int);
            assert(c.last() == chain@.last());
            assert forall|kk: int| 0 <= kk < c.len() implies dep_edge(
                defs@,
                #[trigger] c[kk],
                if kk + 1 == c.len() {
                    c[0]
                } else {
                    c[kk + 1]
                },
            ) by {
                if kk + 1 == c.len() {
                    assert(c[kk] == chain@.last());
                    assert(dep_edge(defs@, chain@.last(), k as int));
                } else {
                    assert(c[kk] == chain@[x + kk]);
                    assert(c[kk + 1] == chain@[x + kk + 1]);
                    assert(dep_edge(defs@, chain@[x + kk], chain@[x + kk + 1]));
                }
            }
            assert(is_cycle(defs@, c));
            assert(defs@[c[0]].id@ == defs@[k as int].id@);
            assert(cycle_through(defs@, defs@[k as int].id@));
        }
        return Err(ManifestError::CircularDependency(defs[k].id.clone()));
    }
    in_prog[k] = true;
    let ghost chain2 = chain@.push(k as int);
    proof {
        assert forall|j: int| 0 <= j < defs@.len() implies (in_prog@[j] <==> chain2.contains(
            j,
        )) by {
            if chain2.contains(j) {
                let x = choose|x: int| 0 <= x < chain2.len() && chain2[x] == j;
                if x < chain@.len() {
                    assert(chain@.contains(j));
                }
            }
            if chain@.contains(j) {
                let x = choose|x: int| 0 <= x < chain@.len() && chain@[x] == j;
                assert(chain2[x] == j);
                assert(chain2.contains(j));
            }
            if j == k as int {
                assert(chain2[chain2.len() - 1] == j);
                assert(chain2.contains(j));
            }
        }
        assert(chain_ok(defs@, chain2, in_prog@)) by {
            assert(!chain@.contains(k as int));
            assert forall|x: int| 0 <= x < chain2.len() - 1 implies dep_edge(
                defs@,
                #[trigger] chain2[x],
                chain2[x + 1],
            ) by {
                if x + 1 == chain2.len() - 1 {
                    assert(chain2[x] == chain@.last());
                    assert(chain2[x + 1] == k as int);
                } else {
                    assert(chain2[x] == chain@[x]);
                    assert(chain2[x + 1] == chain@[x + 1]);
                }
            }
        }
        lemma_distinct_bounded(chain2, n as int);
    }
    let num_deps = defs[k].depends_on.len();
    let mut t: usize = 0;
    while t < num_deps
        invariant
            k < defs@.len(),
            is_canon(defs@, k as int),
            n == defs@.len(),
            num_deps == defs@[k as int].depends_on@.len(),
            0 <= t <= num_deps,
            state_ok(defs@, visited@, order@),
            chain_ok(defs@, chain2, in_prog@),
            flags_disjoint(visited@, in_prog@),
            chain2 == chain@.push(k as int),
            chain_ok(defs@, chain@, old(in_prog)@),
            in_prog@ == old(in_prog)@.update(k as int, true),
            forall|j: int| 0 <= j < defs@.len() && old(visited)@[j] ==> visited@[j],
            old(order)@.is_prefix_of(order@),
            forall|s: int|
                0 <= s < t ==> (match spec_find(defs@, (#[trigger] defs@[k as int].depends_on@[s])@) {
                    Some(b) => 0 <= b < defs@.len() && visited@[b],
                    None => true,
                }),
        decreases num_deps - t,
    {
        let dep_found = find_def(defs, &defs[k].depends_on[t]);
        match dep_found {
            Some(b) => {
                proof {
                    lemma_found_is_canon(defs@, defs@[k as int].depends_on@[t as int]@);
                }
                if !visited[b] {
                    proof {
                        assert(dep_edge(defs@, k as int, b as int)) by {
                            assert(spec_find(
                                defs@,
                                (defs@[k as int].depends_on@[t as int])@,
                            ) == Some(b as int));
                        }
                        assert(chain2.last() == k as int);
                        lemma_distinct_bounded(chain2, n as int);
                    }
                    let res = visit(defs, b, visited, in_prog, order, Ghost(chain2));
                    match res {
                        Ok(u) => {},
                        Err(e) => {
                            return Err(e);
                        },
                    }
                }
            },
            None => {},
        }
        t = t + 1;
    }
    proof {
        // k is still in progress here, so it is not yet finished
        assert(in_prog@[k as int]);
        assert(!visited@[k as int]);
    }
    in_prog[k] = false;
    proof {
        assert(in_prog@ =~= old(in_prog)@);
    }
    let ghost visited_mid = visited@;
    let ghost order_before = order@;
    visited[k] = true;
    order.push(k);
    proof {
        assert(visited@ =~= visited_mid.update(k as int, true));
        assert forall|j: int| 0 <= j < visited@.len() && #[trigger] visited@[j] implies exists|
            p: int,
        | 0 <= p < order@.len() && #[trigger] order@[p] as int == j by {
            if j == k as int {
                assert(order@[order@.len() - 1] as int == j);
            } else {
                assert(visited_mid[j]);
                let p = choose|p: int|
                    0 <= p < order_before.len() && #[trigger] order_before[p] as int == j;
                assert(order@[p] as int == j);
            }
        }
        assert forall|p: int, q: int| 0 <= p < q < order@.len() implies order@[p] != order@[q] by {
            if q == order@.len() - 1 {
                // k was not finished before this point, so it is not listed
                assert(visited_mid[order_before[p] as int]);
                assert(!visited_mid[k as int]);
            }
        }
        assert(deps_respected(defs@, order@)) by {
            assert forall|p: int, b: int|
                0 <= p < order@.len() && #[trigger] dep_edge(defs@, order@[p] as int, b) implies exists|
                q: int,
            | 0 <= q < p && #[trigger] order@[q] as int == b by {
                if p < order@.len() - 1 {
                    assert(dep_edge(defs@, order_before[p] as int, b));
                    let q = choose|q: int| 0 <= q < p && #[trigger] order_before[q] as int == b;
                    assert(order@[q] as int == b);
                } else {
                    // each resolved dependency of k is finished, hence
                    // already listed, hence earlier
                    let tt = choose|tt: int|
                        0 <= tt < defs@[k as int].depends_on@.len() && spec_find(
                            defs@,
                            (#[trigger] defs@[k as int].depends_on@[tt])@,
                        ) == Some(b);
                    lemma_found_is_canon(defs@, (defs@[k as int].depends_on@[tt])@);
                    assert(0 <= b < defs@.len() && visited_mid[b]);
                    let q = choose|q: int|
                        0 <= q < order_before.len() && #[trigger] order_before[q] as int == b;
                    assert(order@[q] as int == b);
                    assert(q < p);
                }
            }
        }
    }
    Ok(())
}

// ---------------------------------------------------------------------------
// The public contract
// ---------------------------------------------------------------------------

/// The definitions that a sequence of references points at.
pub open spec fn seq_deref(s: Seq<&PluginDef>) -> Seq<PluginDef> {
    Seq::new(s.len(), |p: int| *s[p])
}

/// A valid install order for a package's definitions: each entry is the
/// definition its id names, ids are pairwise distinct, every declared
/// definition's id appears, and every resolved dependency of an entry stands
/// earlier than the entry.
pub open spec fn install_order_ok(defs: Seq<PluginDef>, out: Seq<PluginDef>) -> bool {
    &&& forall|p: int, q: int| 0 <= p < q < out.len() ==> out[p].id@ != out[q].id@
    &&& forall|p: int|
        0 <= p < out.len() ==> (match spec_find(defs, (#[trigger] out[p]).id@) {
            Some(k) => out[p] == defs[k],
            None => false,
        })
    &&& forall|k: int|
        0 <= k < defs.len() ==> exists|p: int|
            0 <= p < out.len() && (#[trigger] defs[k]).id@ == out[p].id@
    &&& forall|p: int, t: int|
        0 <= p < out.len() && 0 <= t < out[p].depends_on@.len() && spec_find(
            defs,
            (#[trigger] out[p].depends_on@[t])@,
        ) is Some ==> exists|q: int|
            0 <= q < p && (#[trigger] out[q]).id@ == out[p].depends_on@[t]@
}

impl PackageManifest {
    /// Compute the installation order of the package's plugins: every plugin
    /// appears after all plugins it depends on. Succeeds exactly when the
    /// dependency relation is acyclic; on a cycle, the error carries the id
    /// at which the cycle was detected.
    pub fn install_order(&self) -> (r: Result<Vec<&PluginDef>, ManifestError>)
        ensures
            match r {
                Ok(out) => install_order_ok(self.plugins@, seq_deref(out@)) && !has_cycle(
                    self.plugins@,
                ),
                Err(e) => {
                    &&& (e@ matches ErrorKind::CircularDependency(id) && cycle_through(
                        self.plugins@,
                        id,
                    ))
                    &&& has_cycle(self.plugins@)
                },
            },
    {
        let defs = &self.plugins;
        let n = defs.len();
        let mut visited: Vec<bool> = Vec::new();
        let mut in_prog: Vec<bool> = Vec::new();
        let mut fill: usize = 0;
        while fill < n
            invariant
                0 <= fill <= n,
                n == defs@.len(),
                visited@.len() == fill,
                in_prog@.len() == fill,
                forall|j: int| 0 <= j < fill ==> !(#[trigger] visited@[j]),
                forall|j: int| 0 <= j < fill ==> !(#[trigger] in_prog@[j]),
            decreases n - fill,
        {
            visited.push(false);
            in_prog.push(false);
            fill = fill + 1;
        }
        let mut order: Vec<usize> = Vec::new();
        let mut i: usize = 0;
        while i < n
            invariant
                0 <= i <= n,
                n == defs@.len(),
                defs@ == self.plugins@,
                visited@.len() == n,
                in_prog@.len() == n,
                state_ok(defs@, visited@, order@),
                flags_disjoint(visited@, in_prog@),
                forall|j: int| 0 <= j < n ==> !(#[trigger] in_prog@[j]),
                forall|ii: int|
                    0 <= ii < i ==> (match spec_find(defs@, (#[trigger] defs@[ii]).id@) {
                        Some(b) => 0 <= b < defs@.len() && visited@[b],
                        None => false,
                    }),
            decreases n - i,
        {
            let k = match find_def(defs, &defs[i].id) {
                Some(k) => k,
                None => {
                    proof {
                        lemma_find_own_id(defs@, i as int);
                    }
                    proof {
                        assert(false);
                    }
                    0
                },
            };
            proof {
                lemma_found_is_canon(defs@, defs@[i as int].id@);
                assert forall|j: int| 0 <= j < defs@.len() implies (in_prog@[j]
                    <==> Seq::<int>::empty().contains(j)) by {
                    if Seq::<int>::empty().contains(j) {
                        let x = choose|x: int|
                            0 <= x < Seq::<int>::empty().len() && Seq::<int>::empty()[x] == j;
                    }
                }
                assert(chain_ok(defs@, Seq::<int>::empty(), in_prog@));
            }
            let res = visit(defs, k, &mut visited, &mut in_prog, &mut order, Ghost(Seq::empty()));
            match res {
                Ok(u) => {
                    proof {
                        assert(spec_find(defs@, defs@[i as int].id@) == Some(k as int));
                        assert(visited@[k as int]);
                    }
                },
                Err(e) => {
                    return Err(e);
                },
            }
            i = i + 1;
        }
        // every canonical definition is finished; read the order out
        let mut out: Vec<&PluginDef> = Vec::new();
        let mut p: usize = 0;
        while p < order.len()
            invariant
                0 <= p <= order@.len(),
                n == defs@.len(),
                defs@ == self.plugins@,
                out@.len() == p,
                state_ok(defs@, visited@, order@),
                forall|q: int| 0 <= q < p ==> *(#[trigger] out@[q]) == defs@[order@[q] as int],
            decreases order@.len() - p,
        {
            let idx = order[p];
            proof {
                assert(is_canon(defs@, order@[p as int] as int));
            }
            out.push(&defs[idx]);
            p = p + 1;
        }
        proof {
            let ghost outv = seq_deref(out@);
            assert(outv.len() == order@.len());
            assert forall|pp: int| 0 <= pp < outv.len() implies (match spec_find(
                defs@,
                (#[trigger] outv[pp]).id@,
            ) {
                Some(kk) => outv[pp] == defs@[kk],
                None => false,
            }) by {
                assert(outv[pp] == defs@[order@[pp] as int]);
                assert(is_canon(defs@, order@[pp] as int));
            }
            assert forall|pp: int, qq: int| 0 <= pp < qq < outv.len() implies outv[pp].id@
                != outv[qq].id@ by {
                assert(outv[pp] == defs@[order@[pp] as int]);
                assert(outv[qq] == defs@[order@[qq] as int]);
                if outv[pp].id@ == outv[qq].id@ {
                    assert(spec_find(defs@, outv[pp].id@) == Some(order@[pp] as int));
                    assert(spec_find(defs@, outv[qq].id@) == Some(order@[qq] as int));
                }
            }
            assert forall|kk: int| 0 <= kk < defs@.len() implies exists|pp: int|
                0 <= pp < outv.len() && (#[trigger] defs@[kk]).id@ == outv[pp].id@ by {
                let b = spec_find(defs@, defs@[kk].id@)->0;
                lemma_spec_find(defs@, defs@[kk].id@);
                assert(visited@[b]);
                let pp = choose|pp: int|
                    0 <= pp < order@.len() && #[trigger] order@[pp] as int == b;
                assert(outv[pp] == defs@[b]);
                assert(outv[pp].id@ == defs@[kk].id@);
            }
            assert forall|pp: int, tt: int|
                0 <= pp < outv.len() && 0 <= tt < outv[pp].depends_on@.len() && spec_find(
                    defs@,
                    (#[trigger] outv[pp].depends_on@[tt])@,
                ) is Some implies exists|qq: int|
                0 <= qq < pp && (#[trigger] outv[qq]).id@ == outv[pp].depends_on@[tt]@ by {
                let b = spec_find(defs@, outv[pp].depends_on@[tt]@)->0;
                assert(outv[pp] == defs@[order@[pp] as int]);
                assert(dep_edge(defs@, order@[pp] as int, b)) by {
                    assert(spec_find(defs@, (defs@[order@[pp] as int].depends_on@[tt])@) == Some(
                        b,
                    ));
                }
                let qq = choose|qq: int| 0 <= qq < pp && #[trigger] order@[qq] as int == b;
                lemma_spec_find(defs@, outv[pp].depends_on@[tt]@);
                assert(outv[qq] == defs@[b]);
            }
            assert(install_order_ok(defs@, outv));
            lemma_order_excludes_cycle(defs@, outv);
        }
        Ok(out)
    }
}

// ---------------------------------------------------------------------------
// An install order rules cycles out
// ---------------------------------------------------------------------------

/// The position of a definition index in an order.
spec fn pos_of(order: Seq<PluginDef>, defs: Seq<PluginDef>, b: int) -> int {
    choose|p: int| 0 <= p < order.len() && order[p] == defs[b]
}

/// Walking a cycle moves strictly earlier in a valid order at each step: the
/// definition at cycle position `k` stands at least `k` places before the
/// cycle's first definition.
proof fn lemma_cycle_positions(defs: Seq<PluginDef>, out: Seq<PluginDef>, c: Seq<int>, k: int)
    requires
        install_order_ok(defs, out),
        is_cycle(defs, c),
        0 <= k < c.len(),
    ensures
        exists|p: int|
            0 <= p < out.len() && #[trigger] out[p] == defs[cycle_node(defs, c, k)] && p
                <= pos_of(out, defs, cycle_node(defs, c, 0)) - k,
    decreases k,
{
    lemma_cycle_node_canon(defs, c, k);
    let b = cycle_node(defs, c, k);
    if k == 0 {
        lemma_node_listed(defs, out, b);
        let p = pos_of(out, defs, b);
        assert(out[p] == defs[b]);
    } else {
        lemma_cycle_positions(defs, out, c, k - 1);
        let a = cycle_node(defs, c, k - 1);
        lemma_cycle_node_canon(defs, c, k - 1);
        let pa = choose|p: int|
            0 <= p < out.len() && #[trigger] out[p] == defs[a] && p <= pos_of(
                out,
                defs,
                cycle_node(defs, c, 0),
            ) - (k - 1);
        // the edge from a to b places b strictly before a
        assert(dep_edge(defs, a, b)) by {
            assert(is_cycle(defs, c));
            assert(dep_edge(
                defs,
                c[k - 1],
                if k == c.len() {
                    c[0]
                } else {
                    c[k]
                },
            ));
        }
        let tt = choose|tt: int|
            0 <= tt < defs[a].depends_on@.len() && spec_find(
                defs,
                (#[trigger] defs[a].depends_on@[tt])@,
            ) == Some(b);
        assert(out[pa].depends_on@ == defs[a].depends_on@);
        assert(spec_find(defs, (out[pa].depends_on@[tt])@) is Some);
        let q = choose|q: int|
            0 <= q < pa && (#[trigger] out[q]).id@ == out[pa].depends_on@[tt]@;
        lemma_spec_find(defs, (defs[a].depends_on@[tt])@);
        // the entry at q carries b's id, so it is the canonical definition b
        assert(out[q].id@ == defs[b].id@);
        assert(match spec_find(defs, out[q].id@) {
            Some(kk) => out[q] == defs[kk],
            None => false,
        });
        assert(spec_find(defs, out[q].id@) == Some(b));
        assert(out[q] == defs[b]);
        assert(q <= pos_of(out, defs, cycle_node(defs, c, 0)) - k);
    }
}

/// The definition index at position `k` of a cycle.
spec fn cycle_node(defs: Seq<PluginDef>, c: Seq<int>, k: int) -> int {
    c[k]
}

/// Every node of a cycle is a canonical definition: each is the target of
/// the edge reaching it.
proof fn lemma_cycle_node_canon(defs: Seq<PluginDef>, c: Seq<int>, k: int)
    requires
        is_cycle(defs, c),
        0 <= k < c.len(),
    ensures
        is_canon(defs, cycle_node(defs, c, k)),
{
    let prev = if k == 0 {
        c.len() - 1
    } else {
        k - 1
    };
    assert(dep_edge(
        defs,
        c[prev],
        if prev + 1 == c.len() {
            c[0]
        } else {
            c[prev + 1]
        },
    ));
    let tt = choose|tt: int|
        0 <= tt < defs[c[prev]].depends_on@.len() && spec_find(
            defs,
            (#[trigger] defs[c[prev]].depends_on@[tt])@,
        ) == Some(cycle_node(defs, c, k));
    lemma_found_is_canon(defs, (defs[c[prev]].depends_on@[tt])@);
}

/// A canonical definition is listed in a valid order, at `pos_of`.
proof fn lemma_node_listed(defs: Seq<PluginDef>, out: Seq<PluginDef>, b: int)
    requires
        install_order_ok(defs, out),
        is_canon(defs, b),
    ensures
        0 <= pos_of(out, defs, b) < out.len(),
        out[pos_of(out, defs, b)] == defs[b],
{
    let pp = choose|p: int| 0 <= p < out.len() && (#[trigger] defs[b]).id@ == out[p].id@;
    assert(match spec_find(defs, out[pp].id@) {
        Some(kk) => out[pp] == defs[kk],
        None => false,
    });
    assert(spec_find(defs, out[pp].id@) == Some(b));
    assert(out[pp] == defs[b]);
    assert(exists|p: int| 0 <= p < out.len() && out[p] == defs[b]);
    let witness = pos_of(out, defs, b);
    assert(0 <= witness < out.len() && out[witness] == defs[b]);
}

/// A valid install order rules out dependency cycles: dependencies stand
/// strictly earlier than their dependents, and no walk can descend forever.
pub proof fn lemma_order_excludes_cycle(defs: Seq<PluginDef>, out: Seq<PluginDef>)
    requires
        install_order_ok(defs, out),
    ensures
        !has_cycle(defs),
{
    if has_cycle(defs) {
        let c = choose|c: Seq<int>| is_cycle(defs, c);
        let last = c.len() - 1;
        lemma_cycle_positions(defs, out, c, last);
        let p_last = choose|p: int|
            0 <= p < out.len() && #[trigger] out[p] == defs[cycle_node(defs, c, last)] && p
                <= pos_of(out, defs, cycle_node(defs, c, 0)) - last;
        // the closing edge places the cycle's first definition strictly
        // before its last, which the walk already placed no later than it
        lemma_cycle_node_canon(defs, c, last);
        lemma_cycle_node_canon(defs, c, 0);
        let a = cycle_node(defs, c, last);
        let b = cycle_node(defs, c, 0);
        assert(dep_edge(defs, c[last], c[0])) by {
            assert(dep_edge(
                defs,
                c[last],
                if last + 1 == c.len() {
                    c[0]
                } else {
                    c[last + 1]
                },
            ));
        }
        let tt = choose|tt: int|
            0 <= tt < defs[a].depends_on@.len() && spec_find(
                defs,
                (#[trigger] defs[a].depends_on@[tt])@,
            ) == Some(b);
        assert(out[p_last] == defs[a]);
        assert(spec_find(defs, (out[p_last].depends_on@[tt])@) is Some);
        let q = choose|q: int|
            0 <= q < p_last && (#[trigger] out[q]).id@ == out[p_last].depends_on@[tt]@;
        lemma_spec_find(defs, (defs[a].depends_on@[tt])@);
        assert(out[q].id@ == defs[b].id@);
        assert(match spec_find(defs, out[q].id@) {
            Some(kk) => out[q] == defs[kk],
            None => false,
        });
        assert(spec_find(defs, out[q].id@) == Some(b));
        assert(out[q] == defs[b]);
        // a definition has one position only: entries carry distinct ids
        let pb = pos_of(out, defs, b);
        lemma_node_listed(defs, out, b);
        if q != pb {
            assert(out[q].id@ == out[pb].id@);
            if q < pb {
                assert(out[q].id@ != out[pb].id@);
            } else {
                assert(out[pb].id@ != out[q].id@);
            }
        }
        // so pb == q < p_last <= pb - last <= pb: impossible
        assert(pb == q);
        assert(pb < p_last);
        assert(p_last <= pb - last);
        assert(last >= 0);
        assert(false);
    }
}

} // verus!
