//! Desired-state compute: the pure derivation of the child pod
//! specifications from one snapshot of the cluster resource.
//!
//! The derivation touches no clock and no network; identical inputs always
//! yield identical specifications, which is what lets the repeated
//! server-side apply converge to a no-op.
use vstd::prelude::*;

use crate::names::{child_name, spec_child_name, lemma_child_name_injective};
use crate::types::{
    Container, ContainerView, ObjectMeta, OwnerReference, OwnerReferenceView, Pod,
    PodAffinityTerm, PodAffinityTermView, PodView, Toleration, TolerationView, ZooKeeperCluster,
    ZooKeeperClusterView, ZooKeeperVersion,
};
use crate::Error;

verus! {

/// The API version of the cluster resource kind.
pub open spec fn spec_api_version() -> Seq<char> {
    "zookeeper.stackable.de/v1"@
}

/// The kind name of the cluster resource.
pub open spec fn spec_kind() -> Seq<char> {
    "ZooKeeperCluster"@
}

/// The label key that selects all children of one resource.
pub open spec fn spec_label_key() -> Seq<char> {
    "zookeeper-name"@
}

/// The fixed scheduling tolerations placed on every child.
pub open spec fn spec_tolerations() -> Seq<TolerationView> {
    seq![
        TolerationView {
            effect: Some("NoExecute"@),
            key: Some("kubernetes.io/arch"@),
            operator: Some("Equal"@),
            toleration_seconds: None,
            value: Some("stackable-linux"@),
        },
        TolerationView {
            effect: Some("NoSchedule"@),
            key: Some("kubernetes.io/arch"@),
            operator: Some("Equal"@),
            toleration_seconds: None,
            value: Some("stackable-linux"@),
        },
        TolerationView {
            effect: Some("NoSchedule"@),
            key: Some("node.kubernetes.io/network-unavailable"@),
            operator: Some("Exists"@),
            toleration_seconds: None,
            value: None,
        },
    ]
}

/// Builds the fixed toleration set.
pub fn create_tolerations() -> (r: Vec<Toleration>)
    ensures
        r.deep_view() == spec_tolerations(),
{
    let r = vec![
        Toleration {
            effect: Some("NoExecute".to_owned()),
            key: Some("kubernetes.io/arch".to_owned()),
            operator: Some("Equal".to_owned()),
            toleration_seconds: None,
            value: Some("stackable-linux".to_owned()),
        },
        Toleration {
            effect: Some("NoSchedule".to_owned()),
            key: Some("kubernetes.io/arch".to_owned()),
            operator: Some("Equal".to_owned()),
            toleration_seconds: None,
            value: Some("stackable-linux".to_owned()),
        },
        Toleration {
            effect: Some("NoSchedule".to_owned()),
            key: Some("node.kubernetes.io/network-unavailable".to_owned()),
            operator: Some("Exists".to_owned()),
            toleration_seconds: None,
            value: None,
        },
    ];
    proof {
        assert(r.deep_view() =~= spec_tolerations());
    }
    r
}

/// The owner reference that an observed resource with the given name and
/// UID induces. The controller flag is left unset here; the child builder
/// marks itself as the controlling owner.
pub open spec fn spec_owner_reference(name: Seq<char>, uid: Seq<char>) -> OwnerReferenceView {
    OwnerReferenceView {
        api_version: spec_api_version(),
        kind: spec_kind(),
        name: name,
        uid: uid,
        controller: None,
        block_owner_deletion: None,
    }
}

/// The same owner reference with the controlling-owner flag set, as it is
/// placed on every child.
pub open spec fn spec_controller_owner_reference(
    name: Seq<char>,
    uid: Seq<char>,
) -> OwnerReferenceView {
    OwnerReferenceView { controller: Some(true), ..spec_owner_reference(name, uid) }
}

/// Derives the owner reference of the cluster resource from its metadata.
///
/// Succeeds exactly when the storage backend has assigned both a name and
/// a UID; a missing identity field is reported as a retryable anomaly.
pub fn object_to_owner_reference(meta: &ObjectMeta) -> (r: Result<OwnerReference, Error>)
    ensures
        r is Ok <==> (meta.name is Some && meta.uid is Some),
        r is Ok ==> r->Ok_0@ == spec_owner_reference(meta.name->0@, meta.uid->0@),
        meta.name is None ==> (r matches Err(Error::MissingObjectKey { name })
            && name@ == ".metadata.name"@),
        meta.name is Some && meta.uid is None ==> (r matches Err(Error::MissingObjectKey { name })
            && name@ == ".metadata.backtrace"@),
{
    let name = match &meta.name {
        Some(n) => n.clone(),
        None => {
            return Err(Error::MissingObjectKey { name: ".metadata.name".to_owned() });
        },
    };
    let uid = match &meta.uid {
        Some(u) => u.clone(),
        None => {
            return Err(Error::MissingObjectKey { name: ".metadata.backtrace".to_owned() });
        },
    };
    Ok(OwnerReference {
        api_version: "zookeeper.stackable.de/v1".to_owned(),
        kind: "ZooKeeperCluster".to_owned(),
        name,
        uid,
        controller: None,
        block_owner_deletion: None,
    })
}

/// The single label pair carried by every child of the named resource.
pub open spec fn spec_labels(name: Seq<char>) -> Seq<(Seq<char>, Seq<char>)> {
    seq![(spec_label_key(), name)]
}

/// The complete specification of the child at the given index.
pub open spec fn spec_child_pod(
    name: Seq<char>,
    uid: Seq<char>,
    version: ZooKeeperVersion,
    i: nat,
) -> PodView {
    PodView {
        name: spec_child_name(name, i),
        owner_references: seq![spec_controller_owner_reference(name, uid)],
        labels: spec_labels(name),
        tolerations: spec_tolerations(),
        containers: seq![ContainerView { name: "zookeeper"@, image: version.spec_image() }],
        anti_affinity: seq![
            PodAffinityTermView {
                match_labels: spec_labels(name),
                topology_key: "kubernetes.io/hostname"@,
            },
        ],
    }
}

/// How many children a replica count asks for: one per index below the
/// count, none for a non-positive count.
pub open spec fn spec_child_count(replicas: i32) -> nat {
    if replicas >= 0 {
        replicas as nat
    } else {
        0
    }
}

/// The full ordered child set that one snapshot of the resource requires.
pub open spec fn spec_children(c: ZooKeeperClusterView) -> Seq<PodView> {
    Seq::new(
        spec_child_count(c.spec.replicas),
        |i: int| spec_child_pod(c.metadata.name->0, c.metadata.uid->0, c.spec.version, i as nat),
    )
}

/// Builds the child specification at one index.
pub fn build_child_pod(
    name: &str,
    owner: &OwnerReference,
    version: &ZooKeeperVersion,
    i: u64,
) -> (p: Pod)
    requires
        owner@ == spec_owner_reference(name@, owner@.uid),
    ensures
        p@ == spec_child_pod(name@, owner@.uid, *version, i as nat),
{
    let pod_name = child_name(name, i);
    let controller_owner = OwnerReference {
        api_version: owner.api_version.clone(),
        kind: owner.kind.clone(),
        name: owner.name.clone(),
        uid: owner.uid.clone(),
        controller: Some(true),
        block_owner_deletion: owner.block_owner_deletion,
    };
    let labels = vec![("zookeeper-name".to_owned(), name.to_owned())];
    let anti_affinity_labels = vec![("zookeeper-name".to_owned(), name.to_owned())];
    let p = Pod {
        name: pod_name,
        owner_references: vec![controller_owner],
        labels,
        tolerations: create_tolerations(),
        containers: vec![
            Container { name: "zookeeper".to_owned(), image: version.image() },
        ],
        anti_affinity: vec![
            PodAffinityTerm {
                match_labels: anti_affinity_labels,
                topology_key: "kubernetes.io/hostname".to_owned(),
            },
        ],
    };
    proof {
        assert(p.owner_references.deep_view() =~~= seq![
            spec_controller_owner_reference(name@, owner@.uid),
        ]);
        assert(p.labels.deep_view() =~~= spec_labels(name@));
        assert(p.containers.deep_view() =~~= seq![
            ContainerView { name: "zookeeper"@, image: version.spec_image() },
        ]);
        assert(p.anti_affinity.deep_view() =~~= seq![
            PodAffinityTermView {
                match_labels: spec_labels(name@),
                topology_key: "kubernetes.io/hostname"@,
            },
        ]);
        assert(p@ =~~= spec_child_pod(name@, owner@.uid, *version, i as nat));
    }
    p
}

/// Computes the ordered child set of one snapshot: one specification per
/// replica index, each owned by the resource through a controlling owner
/// reference.
///
/// Fails exactly when children are required and the resource lacks the UID
/// that their owner references need.
pub fn desired_children(zk: &ZooKeeperCluster) -> (r: Result<Vec<Pod>, Error>)
    requires
        zk.metadata.name is Some,
    ensures
        r is Ok <==> (zk.spec.replicas <= 0 || zk.metadata.uid is Some),
        r is Ok ==> r->Ok_0.deep_view() == spec_children(zk@),
        r is Err ==> (r matches Err(Error::MissingObjectKey { name })
            && name@ == ".metadata.backtrace"@),
{
    let replicas = zk.spec.replicas;
    if replicas <= 0 {
        let out: Vec<Pod> = Vec::new();
        proof {
            assert(out.deep_view() =~= spec_children(zk@));
        }
        return Ok(out);
    }
    let owner = match object_to_owner_reference(&zk.metadata) {
        Ok(o) => o,
        Err(e) => {
            return Err(e);
        },
    };
    let name = match &zk.metadata.name {
        Some(n) => n.as_str(),
        None => {
            return Err(Error::MissingObjectKey { name: ".metadata.name".to_owned() });
        },
    };
    let mut out: Vec<Pod> = Vec::new();
    let mut i: i32 = 0;
    while i < replicas
        invariant
            0 <= i <= replicas,
            0 < replicas,
            replicas == zk.spec.replicas,
            zk.metadata.name is Some,
            zk.metadata.uid is Some,
            owner@ == spec_owner_reference(name@, owner@.uid),
            name@ == zk.metadata.name->0@,
            owner@.uid == zk.metadata.uid->0@,
            out.deep_view() =~= spec_children(zk@).take(i as int),
        decreases replicas - i,
    {
        let pod = build_child_pod(name, &owner, &zk.spec.version, i as u64);
        proof {
            assert(spec_children(zk@).len() == zk.spec.replicas);
            assert(out.deep_view().len() == i as int);
        }
        out.push(pod);
        proof {
            assert(out.deep_view()[i as int] == spec_children(zk@)[i as int]);
            assert forall|k: int| 0 <= k < i implies out.deep_view()[k] == spec_children(zk@)[k]
                by {
                assert(out.deep_view()[k] == spec_children(zk@).take(i as int)[k]);
            }
            assert(out.deep_view() =~= spec_children(zk@).take(i + 1));
        }
        i = i + 1;
    }
    proof {
        assert(spec_children(zk@).take(replicas as int) =~= spec_children(zk@));
    }
    Ok(out)
}

/// The computed child set has exactly one entry per replica index, and the
/// names of any two distinct entries differ.
pub proof fn lemma_children_distinct_names(c: ZooKeeperClusterView)
    ensures
        spec_children(c).len() == spec_child_count(c.spec.replicas),
        forall|i: int, j: int|
            0 <= i < spec_children(c).len() && 0 <= j < spec_children(c).len() && i != j
                ==> #[trigger] spec_children(c)[i].name != #[trigger] spec_children(c)[j].name,
{
    assert forall|i: int, j: int|
        0 <= i < spec_children(c).len() && 0 <= j < spec_children(c).len() && i != j
            implies #[trigger] spec_children(c)[i].name != #[trigger] spec_children(c)[j].name by {
        if spec_children(c)[i].name == spec_children(c)[j].name {
            lemma_child_name_injective(c.metadata.name->0, i as nat, j as nat);
        }
    }
}

/// Desired-state compute is pure: it reads nothing but the resource name,
/// the UID, the version and the replica count, so two snapshots agreeing
/// on those — whenever observed — yield identical child sets.
pub proof fn lemma_children_deterministic(c1: ZooKeeperClusterView, c2: ZooKeeperClusterView)
    requires
        c1.metadata.name == c2.metadata.name,
        c1.metadata.uid == c2.metadata.uid,
        c1.spec == c2.spec,
    ensures
        spec_children(c1) == spec_children(c2),
{
    assert(spec_children(c1) =~= spec_children(c2));
}

} // verus!
