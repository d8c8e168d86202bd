//! Plain data models of the objects the controller works on.
//!
//! The cluster resource, its metadata, and the child pod specifications are
//! held as plain values so every decision about them can be verified. The
//! driver outside the library converts between these models and the wire
//! types of the Kubernetes client.
use vstd::prelude::*;

verus! {

/// The supported workload versions.
#[allow(non_camel_case_types)]
#[derive(Clone, Copy, Debug, PartialEq, Eq, Structural)]
pub enum ZooKeeperVersion {
    v3_6_2,
    v3_5_8,
}

impl ZooKeeperVersion {
    /// The container image reference derived from the version.
    pub open spec fn spec_image(self) -> Seq<char> {
        match self {
            ZooKeeperVersion::v3_6_2 => "stackable/zookeeper:v3_6_2"@,
            ZooKeeperVersion::v3_5_8 => "stackable/zookeeper:v3_5_8"@,
        }
    }

    /// Returns the image reference for this version.
    pub fn image(&self) -> (s: String)
        ensures
            s@ == self.spec_image(),
    {
        match self {
            ZooKeeperVersion::v3_6_2 => "stackable/zookeeper:v3_6_2".to_owned(),
            ZooKeeperVersion::v3_5_8 => "stackable/zookeeper:v3_5_8".to_owned(),
        }
    }
}

/// The user-declared desired state of the cluster.
#[derive(Clone, Copy, Debug, PartialEq, Eq, Structural)]
pub struct ZooKeeperClusterSpec {
    pub version: ZooKeeperVersion,
    pub replicas: i32,
}

/// The controller-owned status sub-object.
#[derive(Clone, Copy, Debug, PartialEq, Eq, Structural, Default)]
pub struct ZooKeeperClusterStatus {
    pub is_bad: bool,
}

/// The lifecycle metadata of the cluster resource, reduced to the fields the
/// controller reads: identity, the deletion mark, and the finalizer list.
/// The deletion timestamp is carried as epoch seconds; only its presence
/// matters to the reconcile logic.
#[derive(Clone, Debug, PartialEq)]
pub struct ObjectMeta {
    pub name: Option<String>,
    pub namespace: Option<String>,
    pub uid: Option<String>,
    pub deletion_timestamp: Option<i64>,
    pub finalizers: Option<Vec<String>>,
}

#[verifier::ext_equal]
pub struct ObjectMetaView {
    pub name: Option<Seq<char>>,
    pub namespace: Option<Seq<char>>,
    pub uid: Option<Seq<char>>,
    pub deletion_timestamp: Option<i64>,
    pub finalizers: Option<Seq<Seq<char>>>,
}

impl View for ObjectMeta {
    type V = ObjectMetaView;

    open spec fn view(&self) -> ObjectMetaView {
        ObjectMetaView {
            name: self.name.deep_view(),
            namespace: self.namespace.deep_view(),
            uid: self.uid.deep_view(),
            deletion_timestamp: self.deletion_timestamp,
            finalizers: self.finalizers.deep_view(),
        }
    }
}

impl DeepView for ObjectMeta {
    type V = ObjectMetaView;

    open spec fn deep_view(&self) -> ObjectMetaView {
        self.view()
    }
}

/// One observed snapshot of the cluster resource.
#[derive(Clone, Debug, PartialEq)]
pub struct ZooKeeperCluster {
    pub metadata: ObjectMeta,
    pub spec: ZooKeeperClusterSpec,
    pub status: Option<ZooKeeperClusterStatus>,
}

#[verifier::ext_equal]
pub struct ZooKeeperClusterView {
    pub metadata: ObjectMetaView,
    pub spec: ZooKeeperClusterSpec,
    pub status: Option<ZooKeeperClusterStatus>,
}

impl View for ZooKeeperCluster {
    type V = ZooKeeperClusterView;

    open spec fn view(&self) -> ZooKeeperClusterView {
        ZooKeeperClusterView {
            metadata: self.metadata@,
            spec: self.spec,
            status: self.status,
        }
    }
}

impl DeepView for ZooKeeperCluster {
    type V = ZooKeeperClusterView;

    open spec fn deep_view(&self) -> ZooKeeperClusterView {
        self.view()
    }
}

/// A back-reference from a child object to the resource that owns it.
#[derive(Clone, Debug, PartialEq)]
pub struct OwnerReference {
    pub api_version: String,
    pub kind: String,
    pub name: String,
    pub uid: String,
    pub controller: Option<bool>,
    pub block_owner_deletion: Option<bool>,
}

#[verifier::ext_equal]
pub struct OwnerReferenceView {
    pub api_version: Seq<char>,
    pub kind: Seq<char>,
    pub name: Seq<char>,
    pub uid: Seq<char>,
    pub controller: Option<bool>,
    pub block_owner_deletion: Option<bool>,
}

impl View for OwnerReference {
    type V = OwnerReferenceView;

    open spec fn view(&self) -> OwnerReferenceView {
        OwnerReferenceView {
            api_version: self.api_version@,
            kind: self.kind@,
            name: self.name@,
            uid: self.uid@,
            controller: self.controller,
            block_owner_deletion: self.block_owner_deletion,
        }
    }
}

impl DeepView for OwnerReference {
    type V = OwnerReferenceView;

    open spec fn deep_view(&self) -> OwnerReferenceView {
        self.view()
    }
}

/// A scheduling toleration placed on every child pod.
#[derive(Clone, Debug, PartialEq)]
pub struct Toleration {
    pub effect: Option<String>,
    pub key: Option<String>,
    pub operator: Option<String>,
    pub toleration_seconds: Option<i64>,
    pub value: Option<String>,
}

#[verifier::ext_equal]
pub struct TolerationView {
    pub effect: Option<Seq<char>>,
    pub key: Option<Seq<char>>,
    pub operator: Option<Seq<char>>,
    pub toleration_seconds: Option<i64>,
    pub value: Option<Seq<char>>,
}

impl View for Toleration {
    type V = TolerationView;

    open spec fn view(&self) -> TolerationView {
        TolerationView {
            effect: self.effect.deep_view(),
            key: self.key.deep_view(),
            operator: self.operator.deep_view(),
            toleration_seconds: self.toleration_seconds,
            value: self.value.deep_view(),
        }
    }
}

impl DeepView for Toleration {
    type V = TolerationView;

    open spec fn deep_view(&self) -> TolerationView {
        self.view()
    }
}

/// One container of a child pod.
#[derive(Clone, Debug, PartialEq)]
pub struct Container {
    pub name: String,
    pub image: String,
}

#[verifier::ext_equal]
pub struct ContainerView {
    pub name: Seq<char>,
    pub image: Seq<char>,
}

impl View for Container {
    type V = ContainerView;

    open spec fn view(&self) -> ContainerView {
        ContainerView { name: self.name@, image: self.image@ }
    }
}

impl DeepView for Container {
    type V = ContainerView;

    open spec fn deep_view(&self) -> ContainerView {
        self.view()
    }
}

/// A required anti-affinity rule: children matching the labels must not be
/// co-scheduled on the node named by the topology key.
#[derive(Clone, Debug, PartialEq)]
pub struct PodAffinityTerm {
    pub match_labels: Vec<(String, String)>,
    pub topology_key: String,
}

#[verifier::ext_equal]
pub struct PodAffinityTermView {
    pub match_labels: Seq<(Seq<char>, Seq<char>)>,
    pub topology_key: Seq<char>,
}

impl View for PodAffinityTerm {
    type V = PodAffinityTermView;

    open spec fn view(&self) -> PodAffinityTermView {
        PodAffinityTermView {
            match_labels: self.match_labels.deep_view(),
            topology_key: self.topology_key@,
        }
    }
}

impl DeepView for PodAffinityTerm {
    type V = PodAffinityTermView;

    open spec fn deep_view(&self) -> PodAffinityTermView {
        self.view()
    }
}

/// One managed child specification: the fields of a pod that the controller
/// owns and applies on every reconcile of an active resource.
#[derive(Clone, Debug, PartialEq)]
pub struct Pod {
    pub name: String,
    pub owner_references: Vec<OwnerReference>,
    pub labels: Vec<(String, String)>,
    pub tolerations: Vec<Toleration>,
    pub containers: Vec<Container>,
    pub anti_affinity: Vec<PodAffinityTerm>,
}

#[verifier::ext_equal]
pub struct PodView {
    pub name: Seq<char>,
    pub owner_references: Seq<OwnerReferenceView>,
    pub labels: Seq<(Seq<char>, Seq<char>)>,
    pub tolerations: Seq<TolerationView>,
    pub containers: Seq<ContainerView>,
    pub anti_affinity: Seq<PodAffinityTermView>,
}

impl View for Pod {
    type V = PodView;

    open spec fn view(&self) -> PodView {
        PodView {
            name: self.name@,
            owner_references: self.owner_references.deep_view(),
            labels: self.labels.deep_view(),
            tolerations: self.tolerations.deep_view(),
            containers: self.containers.deep_view(),
            anti_affinity: self.anti_affinity.deep_view(),
        }
    }
}

impl DeepView for Pod {
    type V = PodView;

    open spec fn deep_view(&self) -> PodView {
        self.view()
    }
}

} // verus!
