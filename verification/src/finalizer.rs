//! Finalizer lifecycle management.
//!
//! The deletion protocol is a state machine over the resource metadata.
//! While the resource is active the controller makes sure its own token is
//! in the finalizer list; once the deletion timestamp is set it removes the
//! token, unblocking physical removal by the storage backend. Every write
//! is decided from the observed list, so re-running a decision never
//! duplicates a side effect.
use vstd::prelude::*;

use crate::types::{ObjectMeta, ObjectMetaView};

verus! {

/// The finalizer token owned by this controller.
pub open spec fn spec_finalizer() -> Seq<char> {
    "zookeeper.stackable.de/check-stuff"@
}

/// Returns the controller's finalizer token.
pub fn finalizer_token() -> (t: String)
    ensures
        t@ == spec_finalizer(),
{
    "zookeeper.stackable.de/check-stuff".to_owned()
}

/// The observed finalizer list; an absent list reads as empty.
pub open spec fn spec_finalizer_list(m: ObjectMetaView) -> Seq<Seq<char>> {
    match m.finalizers {
        Some(f) => f,
        None => Seq::empty(),
    }
}

/// Whether the controller's token occurs in the list.
pub open spec fn has_token(fins: Seq<Seq<char>>) -> bool {
    exists|k: int| 0 <= k < fins.len() && #[trigger] fins[k] == spec_finalizer()
}

/// The position of the first occurrence of the token.
pub open spec fn spec_token_index(fins: Seq<Seq<char>>) -> int
    decreases fins.len(),
{
    if fins.len() == 0 {
        0
    } else if fins[0] == spec_finalizer() {
        0
    } else {
        1 + spec_token_index(fins.drop_first())
    }
}

/// How often the token occurs in the list.
pub open spec fn token_count(fins: Seq<Seq<char>>) -> nat
    decreases fins.len(),
{
    if fins.len() == 0 {
        0
    } else {
        token_count(fins.drop_last()) + if fins.last() == spec_finalizer() {
            1nat
        } else {
            0nat
        }
    }
}

/// The single metadata write a finalizer decision may carry: replace the
/// finalizer list with the given one, touching no other field.
pub enum FinalizerAction {
    AddToken { finalizers: Vec<String> },
    RemoveToken { finalizers: Vec<String> },
    NoWrite,
}

#[verifier::ext_equal]
pub enum FinalizerActionView {
    AddToken { finalizers: Seq<Seq<char>> },
    RemoveToken { finalizers: Seq<Seq<char>> },
    NoWrite,
}

impl View for FinalizerAction {
    type V = FinalizerActionView;

    open spec fn view(&self) -> FinalizerActionView {
        match self {
            FinalizerAction::AddToken { finalizers } => FinalizerActionView::AddToken {
                finalizers: finalizers.deep_view(),
            },
            FinalizerAction::RemoveToken { finalizers } => FinalizerActionView::RemoveToken {
                finalizers: finalizers.deep_view(),
            },
            FinalizerAction::NoWrite => FinalizerActionView::NoWrite,
        }
    }
}

/// What one pass of the finalizer manager decides: whether deletion was
/// handled (so the rest of the reconcile must be skipped), and which
/// metadata write, if any, has to be persisted.
pub struct FinalizerDecision {
    pub handled: bool,
    pub action: FinalizerAction,
}

#[verifier::ext_equal]
pub struct FinalizerDecisionView {
    pub handled: bool,
    pub action: FinalizerActionView,
}

impl View for FinalizerDecision {
    type V = FinalizerDecisionView;

    open spec fn view(&self) -> FinalizerDecisionView {
        FinalizerDecisionView { handled: self.handled, action: self.action@ }
    }
}

/// The finalizer state machine, as a function of the observed metadata.
pub open spec fn spec_finalizer_step(m: ObjectMetaView) -> FinalizerDecisionView {
    let fins = spec_finalizer_list(m);
    if m.deletion_timestamp is Some {
        if has_token(fins) {
            FinalizerDecisionView {
                handled: true,
                action: FinalizerActionView::RemoveToken {
                    finalizers: fins.update(spec_token_index(fins), fins.last()).drop_last(),
                },
            }
        } else {
            FinalizerDecisionView { handled: true, action: FinalizerActionView::NoWrite }
        }
    } else {
        if has_token(fins) {
            FinalizerDecisionView { handled: false, action: FinalizerActionView::NoWrite }
        } else {
            FinalizerDecisionView {
                handled: false,
                action: FinalizerActionView::AddToken { finalizers: fins.push(spec_finalizer()) },
            }
        }
    }
}

/// If the token first occurs at `idx`, the spec-level first-occurrence
/// index is `idx`.
proof fn lemma_token_index_of_first(fins: Seq<Seq<char>>, idx: int)
    requires
        0 <= idx < fins.len(),
        fins[idx] == spec_finalizer(),
        forall|k: int| 0 <= k < idx ==> fins[k] != spec_finalizer(),
    ensures
        spec_token_index(fins) == idx,
    decreases fins.len(),
{
    if idx == 0 {
    } else {
        assert(fins[0] != spec_finalizer());
        assert(fins.drop_first()[idx - 1] == fins[idx]);
        lemma_token_index_of_first(fins.drop_first(), idx - 1);
    }
}

fn clone_string_vec(v: &Vec<String>) -> (r: Vec<String>)
    ensures
        r@ == v@,
{
    let mut r: Vec<String> = Vec::new();
    let mut i: usize = 0;
    while i < v.len()
        invariant
            i <= v.len(),
            r@ =~= v@.take(i as int),
        decreases v.len() - i,
    {
        r.push(v[i].clone());
        proof {
            assert(r@ =~= v@.take(i + 1));
        }
        i = i + 1;
    }
    proof {
        assert(r@ =~= v@);
    }
    r
}

/// Finds the first occurrence of the controller's token in the list.
fn find_token(fins: &Vec<String>) -> (r: Option<usize>)
    ensures
        (match r {
            Some(idx) => has_token(fins.deep_view()) && idx < fins.len()
                && idx as int == spec_token_index(fins.deep_view()),
            None => !has_token(fins.deep_view()),
        }),
{
    let token = finalizer_token();
    let n = fins.len();
    let mut idx: usize = 0;
    while idx < n
        invariant
            idx <= n,
            n == fins.len(),
            token@ == spec_finalizer(),
            forall|k: int| 0 <= k < idx ==> #[trigger] fins.deep_view()[k] != spec_finalizer(),
        decreases n - idx,
    {
        if fins[idx] == token {
            proof {
                assert(fins.deep_view()[idx as int] == spec_finalizer());
                lemma_token_index_of_first(fins.deep_view(), idx as int);
            }
            return Some(idx);
        }
        proof {
            assert(fins.deep_view()[idx as int] == fins@[idx as int]@);
        }
        idx = idx + 1;
    }
    None
}

/// One pass of the finalizer lifecycle manager.
///
/// Active resource: append the token if it is absent, otherwise no write;
/// deletion is not handled. Deleting resource: remove the first occurrence
/// of the token if present (the persisted list is the observed one with
/// that occurrence swap-removed), otherwise no write; deletion is handled
/// either way.
pub fn finalizer_step(meta: &ObjectMeta) -> (d: FinalizerDecision)
    ensures
        d@ == spec_finalizer_step(meta@),
{
    let empty: Vec<String> = Vec::new();
    let fins: &Vec<String> = match &meta.finalizers {
        Some(f) => f,
        None => &empty,
    };
    proof {
        assert(fins.deep_view() =~~= spec_finalizer_list(meta@));
    }
    let found = find_token(fins);
    if meta.deletion_timestamp.is_some() {
        match found {
            Some(idx) => {
                let mut new_fins = clone_string_vec(fins);
                let _removed = new_fins.swap_remove(idx);
                proof {
                    let fv = spec_finalizer_list(meta@);
                    assert(new_fins.deep_view() =~~= fv.update(
                        spec_token_index(fv),
                        fv.last(),
                    ).drop_last());
                }
                FinalizerDecision {
                    handled: true,
                    action: FinalizerAction::RemoveToken { finalizers: new_fins },
                }
            },
            None => FinalizerDecision { handled: true, action: FinalizerAction::NoWrite },
        }
    } else {
        match found {
            Some(_) => FinalizerDecision { handled: false, action: FinalizerAction::NoWrite },
            None => {
                let mut new_fins = clone_string_vec(fins);
                new_fins.push(finalizer_token());
                proof {
                    assert(new_fins.deep_view() =~~= spec_finalizer_list(meta@).push(
                        spec_finalizer(),
                    ));
                }
                FinalizerDecision {
                    handled: false,
                    action: FinalizerAction::AddToken { finalizers: new_fins },
                }
            },
        }
    }
}

/// A list that contains the token at some position counts it at least once.
proof fn lemma_count_at_least_one(fins: Seq<Seq<char>>, i: int)
    requires
        0 <= i < fins.len(),
        fins[i] == spec_finalizer(),
    ensures
        token_count(fins) >= 1,
    decreases fins.len(),
{
    if i == fins.len() - 1 {
    } else {
        assert(fins.drop_last()[i] == fins[i]);
        lemma_count_at_least_one(fins.drop_last(), i);
    }
}

/// A list that contains the token at two distinct positions counts it at
/// least twice.
proof fn lemma_count_at_least_two(fins: Seq<Seq<char>>, i: int, j: int)
    requires
        0 <= i < j < fins.len(),
        fins[i] == spec_finalizer(),
        fins[j] == spec_finalizer(),
    ensures
        token_count(fins) >= 2,
    decreases fins.len(),
{
    if j == fins.len() - 1 {
        lemma_count_at_least_one(fins.drop_last(), i);
    } else {
        assert(fins.drop_last()[i] == fins[i]);
        assert(fins.drop_last()[j] == fins[j]);
        lemma_count_at_least_two(fins.drop_last(), i, j);
    }
}

/// Appending one token to a list raises its count by exactly one.
proof fn lemma_count_push_token(fins: Seq<Seq<char>>)
    ensures
        token_count(fins.push(spec_finalizer())) == token_count(fins) + 1,
{
    assert(fins.push(spec_finalizer()).drop_last() =~= fins);
}

/// A token-free list counts the token zero times.
proof fn lemma_count_zero(fins: Seq<Seq<char>>)
    requires
        !has_token(fins),
    ensures
        token_count(fins) == 0,
    decreases fins.len(),
{
    if fins.len() > 0 {
        assert(forall|k: int|
            0 <= k < fins.len() - 1 ==> #[trigger] fins.drop_last()[k] == fins[k]);
        lemma_count_zero(fins.drop_last());
    }
}

/// Finalizer addition is exactly-once: on an active resource whose list
/// lacks the token, one pass decides a write whose list carries the token
/// exactly once, and a second pass on the written-back metadata decides no
/// write at all.
pub proof fn lemma_finalizer_add_exactly_once(m: ObjectMetaView)
    requires
        m.deletion_timestamp is None,
        !has_token(spec_finalizer_list(m)),
    ensures
        !spec_finalizer_step(m).handled,
        spec_finalizer_step(m).action matches FinalizerActionView::AddToken { finalizers }
            && token_count(finalizers) == 1
            && spec_finalizer_step(
                ObjectMetaView { finalizers: Some(finalizers), ..m },
            ) == (FinalizerDecisionView { handled: false, action: FinalizerActionView::NoWrite }),
{
    let fins = spec_finalizer_list(m);
    let written = fins.push(spec_finalizer());
    lemma_count_zero(fins);
    lemma_count_push_token(fins);
    assert(written[written.len() - 1] == spec_finalizer());
    assert(has_token(written));
}

/// Finalizer removal gates deletion: a deleting resource whose list holds
/// the token exactly once transitions to a token-free list and reports
/// deletion handled; a deleting resource without the token is handled with
/// no write.
pub proof fn lemma_finalizer_removal_gates_deletion(m: ObjectMetaView)
    requires
        m.deletion_timestamp is Some,
    ensures
        spec_finalizer_step(m).handled,
        !has_token(spec_finalizer_list(m)) ==> spec_finalizer_step(m).action
            is NoWrite,
        has_token(spec_finalizer_list(m)) && token_count(spec_finalizer_list(m)) == 1
            ==> (spec_finalizer_step(m).action matches FinalizerActionView::RemoveToken {
            finalizers,
        } && !has_token(finalizers)),
{
    let fins = spec_finalizer_list(m);
    if has_token(fins) && token_count(fins) == 1 {
        let idx = choose|k: int| 0 <= k < fins.len() && #[trigger] fins[k] == spec_finalizer();
        lemma_token_index_unique_when_count_one(fins, idx);
        lemma_token_index_of_first(fins, idx);
        let written = fins.update(idx, fins.last()).drop_last();
        assert forall|k: int| 0 <= k < written.len() implies #[trigger] written[k]
            != spec_finalizer() by {
            if written[k] == spec_finalizer() {
                if k == idx {
                    assert(fins[fins.len() - 1] == spec_finalizer());
                    if idx < fins.len() - 1 {
                        lemma_count_at_least_two(fins, idx, fins.len() - 1);
                    }
                } else {
                    assert(fins[k] == spec_finalizer());
                    if k < idx {
                        lemma_count_at_least_two(fins, k, idx);
                    } else {
                        lemma_count_at_least_two(fins, idx, k);
                    }
                }
            }
        }
    }
}

/// With a count of one, any position holding the token is before or at
/// every other one, so the witnessed position satisfies the first-index
/// preconditions.
proof fn lemma_token_index_unique_when_count_one(fins: Seq<Seq<char>>, idx: int)
    requires
        0 <= idx < fins.len(),
        fins[idx] == spec_finalizer(),
        token_count(fins) == 1,
    ensures
        forall|k: int| 0 <= k < idx ==> fins[k] != spec_finalizer(),
{
    assert forall|k: int| 0 <= k < idx implies fins[k] != spec_finalizer() by {
        if fins[k] == spec_finalizer() {
            lemma_count_at_least_two(fins, k, idx);
        }
    }
}

} // verus!
