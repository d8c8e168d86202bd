//! A model of the backend's merge-apply semantics.
//!
//! The applier submits every child under its deterministic name with
//! server-side merge semantics: the backend keeps one object per name and
//! the submitted specification replaces the fields the controller owns.
//! Modelled as a map from child name to specification, one apply is an
//! insert, and the laws below state why repeating work is safe: applying
//! the same specification a second time changes nothing, and re-running a
//! whole pass over children with distinct names converges to the same
//! backend state.
use vstd::prelude::*;

use crate::types::PodView;

verus! {

/// The backend state the applier can influence: the child objects it has
/// submitted, by name.
pub open spec fn spec_apply(
    store: Map<Seq<char>, PodView>,
    p: PodView,
) -> Map<Seq<char>, PodView> {
    store.insert(p.name, p)
}

/// One pass of the applier: every child submitted in index order.
pub open spec fn spec_apply_all(
    store: Map<Seq<char>, PodView>,
    pods: Seq<PodView>,
) -> Map<Seq<char>, PodView>
    decreases pods.len(),
{
    if pods.len() == 0 {
        store
    } else {
        spec_apply_all(spec_apply(store, pods[0]), pods.drop_first())
    }
}

/// No two of the pods share a name.
pub open spec fn distinct_names(pods: Seq<PodView>) -> bool {
    forall|i: int, j: int|
        0 <= i < pods.len() && 0 <= j < pods.len() && i != j ==> #[trigger] pods[i].name
            != #[trigger] pods[j].name
}

/// Applying the same specification twice produces no change the second
/// time: the diff after "apply, apply" is empty.
pub proof fn lemma_apply_idempotent(store: Map<Seq<char>, PodView>, p: PodView)
    ensures
        spec_apply(spec_apply(store, p), p) == spec_apply(store, p),
{
    assert(spec_apply(spec_apply(store, p), p) =~= spec_apply(store, p));
}

/// A pod whose name no pass member carries is untouched by the pass, so
/// its insert commutes with the pass.
proof fn lemma_apply_all_commutes(
    store: Map<Seq<char>, PodView>,
    pods: Seq<PodView>,
    p: PodView,
)
    requires
        forall|i: int| 0 <= i < pods.len() ==> #[trigger] pods[i].name != p.name,
    ensures
        spec_apply_all(spec_apply(store, p), pods) == spec_apply(spec_apply_all(store, pods), p),
    decreases pods.len(),
{
    if pods.len() > 0 {
        let q = pods[0];
        let rest = pods.drop_first();
        assert(spec_apply(spec_apply(store, p), q) =~= spec_apply(spec_apply(store, q), p));
        lemma_apply_all_commutes(spec_apply(store, q), rest, p);
    }
}

/// Re-running a whole successful pass converges: with pairwise-distinct
/// child names, applying the pass a second time leaves the backend state
/// exactly where the first pass put it.
pub proof fn lemma_apply_all_idempotent(store: Map<Seq<char>, PodView>, pods: Seq<PodView>)
    requires
        distinct_names(pods),
    ensures
        spec_apply_all(spec_apply_all(store, pods), pods) == spec_apply_all(store, pods),
    decreases pods.len(),
{
    if pods.len() > 0 {
        let p = pods[0];
        let rest = pods.drop_first();
        let s0 = spec_apply(store, p);
        assert(forall|i: int| 0 <= i < rest.len() ==> #[trigger] rest[i].name != p.name);
        // The first pass is f(s0, rest); re-applying p to it is a no-op in
        // the end state because the insert commutes back to s0.
        lemma_apply_all_commutes(store, rest, p);
        assert(spec_apply(s0, p) =~= s0);
        assert(spec_apply(spec_apply_all(s0, rest), p) == spec_apply_all(spec_apply(s0, p), rest));
        lemma_apply_all_idempotent(s0, rest);
    }
}

} // verus!
