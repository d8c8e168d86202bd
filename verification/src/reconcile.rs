//! The reconcile dispatcher.
//!
//! One reconcile pass is a fixed sequence of backend writes decided
//! entirely by the observed snapshot: the finalizer write (if one is due),
//! then — unless deletion was handled — the status patch, one apply per
//! child in index order, and the closing scheduling directive. The
//! dispatcher is a step machine over that sequence: the driver asks for
//! the next action, performs the I/O, and advances only on success, so a
//! failure at any step leaves every later action unissued and the whole
//! pass is simply retried.
use vstd::prelude::*;

use crate::children::{desired_children, spec_child_count, spec_children};
use crate::finalizer::{
    finalizer_step, spec_finalizer_step, FinalizerAction, FinalizerActionView, FinalizerDecision,
};
use crate::types::{Pod, PodView, ZooKeeperCluster, ZooKeeperClusterView, ZooKeeperClusterStatus};
use crate::{Error, ReconcilerAction, REQUEUE_SUCCESS_SECS};

verus! {

/// One backend interaction of a reconcile pass.
///
/// `Finish` carries the directive to hand back to the delivery mechanism
/// and whether this pass counts as a handled event.
pub enum Action<'a> {
    PatchFinalizers { finalizers: &'a Vec<String> },
    PatchStatus { status: ZooKeeperClusterStatus },
    ApplyPod { pod: &'a Pod },
    Finish { directive: ReconcilerAction, record: bool },
}

#[verifier::ext_equal]
pub enum ActionView {
    PatchFinalizers { finalizers: Seq<Seq<char>> },
    PatchStatus { status: ZooKeeperClusterStatus },
    ApplyPod { pod: PodView },
    Finish { directive: ReconcilerAction, record: bool },
}

impl<'a> View for Action<'a> {
    type V = ActionView;

    open spec fn view(&self) -> ActionView {
        match self {
            Action::PatchFinalizers { finalizers } => ActionView::PatchFinalizers {
                finalizers: finalizers.deep_view(),
            },
            Action::PatchStatus { status } => ActionView::PatchStatus { status: *status },
            Action::ApplyPod { pod } => ActionView::ApplyPod { pod: pod@ },
            Action::Finish { directive, record } => ActionView::Finish {
                directive: *directive,
                record: *record,
            },
        }
    }
}

/// The metadata write of a finalizer decision, as a (possibly empty)
/// prefix of the action sequence.
pub open spec fn spec_finalizer_writes(c: ZooKeeperClusterView) -> Seq<ActionView> {
    match spec_finalizer_step(c.metadata).action {
        FinalizerActionView::AddToken { finalizers } => seq![
            ActionView::PatchFinalizers { finalizers },
        ],
        FinalizerActionView::RemoveToken { finalizers } => seq![
            ActionView::PatchFinalizers { finalizers },
        ],
        FinalizerActionView::NoWrite => seq![],
    }
}

/// The complete action sequence of one reconcile pass over the snapshot.
pub open spec fn spec_actions(c: ZooKeeperClusterView) -> Seq<ActionView> {
    if spec_finalizer_step(c.metadata).handled {
        spec_finalizer_writes(c) + seq![
            ActionView::Finish {
                directive: ReconcilerAction { requeue_after: None },
                record: false,
            },
        ]
    } else {
        spec_finalizer_writes(c) + seq![
            ActionView::PatchStatus { status: ZooKeeperClusterStatus { is_bad: false } },
        ] + spec_children(c).map_values(|p: PodView| ActionView::ApplyPod { pod: p }) + seq![
            ActionView::Finish {
                directive: ReconcilerAction { requeue_after: Some(REQUEUE_SUCCESS_SECS) },
                record: true,
            },
        ]
    }
}

/// The step machine that walks one reconcile pass through its action
/// sequence.
pub struct ReconcileMachine {
    pub cluster: ZooKeeperCluster,
    pub decision: FinalizerDecision,
    pub children: Vec<Pod>,
    pub pos: usize,
}

impl ReconcileMachine {
    /// The machine tracks its snapshot faithfully: the stored decision and
    /// child set are the ones the snapshot determines, and the cursor
    /// stays inside the action sequence.
    pub open spec fn wf(self) -> bool {
        &&& self.decision@ == spec_finalizer_step(self.cluster@.metadata)
        &&& (!self.decision@.handled ==> self.children.deep_view() == spec_children(
            self.cluster@,
        ))
        &&& (self.decision@.handled ==> self.children@.len() == 0)
        &&& self.children@.len() <= 0x7fff_ffff
        &&& self.pos < spec_actions(self.cluster@).len()
    }

    /// Plans one reconcile pass for the observed snapshot.
    ///
    /// Fails exactly when children must be computed (deletion not in
    /// progress, positive replica count) and the resource lacks the UID
    /// their owner references need.
    pub fn new(zk: ZooKeeperCluster) -> (r: Result<ReconcileMachine, Error>)
        requires
            zk.metadata.name is Some,
            zk.metadata.namespace is Some,
        ensures
            r is Ok <==> (spec_finalizer_step(zk@.metadata).handled || zk.spec.replicas <= 0
                || zk.metadata.uid is Some),
            r is Ok ==> r->Ok_0.wf() && r->Ok_0.pos == 0 && r->Ok_0.cluster == zk,
            r is Err ==> (r matches Err(Error::MissingObjectKey { name })
                && name@ == ".metadata.backtrace"@),
    {
        let decision = finalizer_step(&zk.metadata);
        let children: Vec<Pod> = if decision.handled {
            Vec::new()
        } else {
            match desired_children(&zk) {
                Ok(c) => c,
                Err(e) => {
                    return Err(e);
                },
            }
        };
        proof {
            if !decision@.handled {
                assert(children.deep_view().len() == spec_child_count(zk.spec.replicas));
            }
            assert(spec_actions(zk@).len() > 0);
        }
        Ok(ReconcileMachine { cluster: zk, decision, children, pos: 0 })
    }

    /// The action the pass is at. The driver performs it and, if it
    /// succeeded and was not `Finish`, advances the machine; on failure it
    /// abandons the machine, so no later action of the sequence is ever
    /// issued in this pass.
    pub fn next_action(&self) -> (a: Action)
        requires
            self.wf(),
        ensures
            a@ == spec_actions(self.cluster@)[self.pos as int],
    {
        let mut p = self.pos;
        match &self.decision.action {
            FinalizerAction::AddToken { finalizers }
            | FinalizerAction::RemoveToken { finalizers } => {
                if p == 0 {
                    return Action::PatchFinalizers { finalizers };
                }
                p = p - 1;
            },
            FinalizerAction::NoWrite => {},
        }
        if self.decision.handled {
            return Action::Finish {
                directive: ReconcilerAction { requeue_after: None },
                record: false,
            };
        }
        if p == 0 {
            return Action::PatchStatus { status: ZooKeeperClusterStatus { is_bad: false } };
        }
        let idx = p - 1;
        if idx < self.children.len() {
            return Action::ApplyPod { pod: &self.children[idx] };
        }
        Action::Finish {
            directive: ReconcilerAction { requeue_after: Some(REQUEUE_SUCCESS_SECS) },
            record: true,
        }
    }

    /// Moves past an action that the driver performed successfully.
    pub fn advance(&mut self)
        requires
            old(self).wf(),
            old(self).pos + 1 < spec_actions(old(self).cluster@).len(),
        ensures
            final(self).wf(),
            final(self).cluster == old(self).cluster,
            final(self).pos == old(self).pos + 1,
    {
        self.pos = self.pos + 1;
    }
}

/// The shape of every pass: the sequence closes with exactly one `Finish`,
/// whose directive is the success requeue for an active resource and no
/// requeue once deletion was handled; only the non-deletion pass records a
/// handled event.
pub proof fn lemma_directives(c: ZooKeeperClusterView)
    ensures
        spec_actions(c).len() > 0,
        spec_finalizer_step(c.metadata).handled ==> spec_actions(c).last()
            == (ActionView::Finish {
            directive: ReconcilerAction { requeue_after: None },
            record: false,
        }),
        !spec_finalizer_step(c.metadata).handled ==> spec_actions(c).last()
            == (ActionView::Finish {
            directive: ReconcilerAction { requeue_after: Some(REQUEUE_SUCCESS_SECS) },
            record: true,
        }),
        forall|i: int| 0 <= i < spec_actions(c).len() - 1 ==> !(#[trigger] spec_actions(
            c,
        )[i] is Finish),
{
    let n = spec_children(c).len() as int;
    if !spec_finalizer_step(c.metadata).handled {
        assert forall|i: int| 0 <= i < spec_actions(c).len() - 1 implies !(
        #[trigger] spec_actions(c)[i] is Finish) by {
            let off = spec_finalizer_writes(c).len() as int;
            if i >= off + 1 {
                assert(spec_actions(c)[i] == ActionView::ApplyPod {
                    pod: spec_children(c)[i - off - 1],
                });
            }
        }
    }
}

/// Children are applied in index order, one position each, directly after
/// the status patch: a failed apply therefore leaves every child of a
/// higher index untouched in that pass.
pub proof fn lemma_children_applied_in_order(c: ZooKeeperClusterView)
    requires
        !spec_finalizer_step(c.metadata).handled,
    ensures
        spec_actions(c).len() == spec_finalizer_writes(c).len() + 2 + spec_children(c).len(),
        forall|i: int| 0 <= i < spec_children(c).len()
            ==> #[trigger] spec_actions(c)[spec_finalizer_writes(c).len() + 1 + i]
            == (ActionView::ApplyPod { pod: spec_children(c)[i] }),
{
}

} // verus!
