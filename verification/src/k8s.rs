//! The parts of the Kubernetes objects that the operator reads and writes.
use crate::strmap::StrMap;
use vstd::prelude::*;

verus! {

/// The view of an optional string.
pub open spec fn opt_str(o: Option<String>) -> Option<Seq<char>> {
    match o {
        Some(s) => Some(s@),
        None => None,
    }
}

/// The view of an optional map.
pub open spec fn opt_map<V: View>(o: Option<StrMap<V>>) -> Option<Map<Seq<char>, V::V>> {
    match o {
        Some(m) => Some(m@),
        None => None,
    }
}

/// A map that is absent counts as empty.
pub open spec fn map_or_empty<V>(o: Option<Map<Seq<char>, V>>) -> Map<Seq<char>, V> {
    match o {
        Some(m) => m,
        None => Map::empty(),
    }
}

/// Copies an optional string.
pub fn clone_opt_string(o: &Option<String>) -> (res: Option<String>)
    ensures
        res == *o,
{
    match o {
        Some(s) => Some(s.clone()),
        None => None,
    }
}

/// Object metadata: name, generated name, namespace, labels and annotations.
pub struct ObjectMeta {
    pub name: Option<String>,
    pub generate_name: Option<String>,
    pub namespace: Option<String>,
    pub labels: Option<StrMap<String>>,
    pub annotations: Option<StrMap<String>>,
}

pub struct ObjectMetaView {
    pub name: Option<Seq<char>>,
    pub generate_name: Option<Seq<char>>,
    pub namespace: Option<Seq<char>>,
    pub labels: Option<Map<Seq<char>, Seq<char>>>,
    pub annotations: Option<Map<Seq<char>, Seq<char>>>,
}

impl ObjectMetaView {
    pub open spec fn empty() -> ObjectMetaView {
        ObjectMetaView {
            name: None,
            generate_name: None,
            namespace: None,
            labels: None,
            annotations: None,
        }
    }

    /// The name if set, else the generated name, else the empty string.
    pub open spec fn name_any(self) -> Seq<char> {
        match self.name {
            Some(n) => n,
            None => match self.generate_name {
                Some(g) => g,
                None => Seq::empty(),
            },
        }
    }
}

impl View for ObjectMeta {
    type V = ObjectMetaView;

    open spec fn view(&self) -> ObjectMetaView {
        ObjectMetaView {
            name: opt_str(self.name),
            generate_name: opt_str(self.generate_name),
            namespace: opt_str(self.namespace),
            labels: opt_map(self.labels),
            annotations: opt_map(self.annotations),
        }
    }
}

impl Default for ObjectMeta {
    fn default() -> (m: Self)
        ensures
            m@ == ObjectMetaView::empty(),
    {
        ObjectMeta { name: None, generate_name: None, namespace: None, labels: None, annotations: None }
    }
}

impl ObjectMeta {
    /// The name if set, else the generated name, else the empty string.
    pub fn name_any(&self) -> (res: String)
        ensures
            res@ == self@.name_any(),
    {
        match &self.name {
            Some(n) => n.clone(),
            None => match &self.generate_name {
                Some(g) => g.clone(),
                None => String::new(),
            },
        }
    }
}

/// A Secret: its metadata, type, binary data and string data.
pub struct Secret {
    pub metadata: ObjectMeta,
    pub type_: Option<String>,
    pub data: Option<StrMap<Vec<u8>>>,
    pub string_data: Option<StrMap<String>>,
}

pub struct SecretView {
    pub metadata: ObjectMetaView,
    pub type_: Option<Seq<char>>,
    pub data: Option<Map<Seq<char>, Seq<u8>>>,
    pub string_data: Option<Map<Seq<char>, Seq<char>>>,
}

impl View for Secret {
    type V = SecretView;

    open spec fn view(&self) -> SecretView {
        SecretView {
            metadata: self.metadata@,
            type_: opt_str(self.type_),
            data: opt_map(self.data),
            string_data: opt_map(self.string_data),
        }
    }
}

/// Selects pods by their labels.
pub struct LabelSelector {
    pub match_labels: Option<StrMap<String>>,
}

/// Mounts a volume into a container.
pub struct VolumeMount {
    pub name: String,
    pub mount_path: String,
    pub sub_path: Option<String>,
    pub read_only: Option<bool>,
}

/// A container of a pod.
pub struct Container {
    pub name: String,
    pub image: Option<String>,
    pub volume_mounts: Option<Vec<VolumeMount>>,
}

/// A volume whose files come from a Secret.
pub struct SecretVolumeSource {
    pub secret_name: Option<String>,
}

/// A volume of a pod.
pub struct Volume {
    pub name: String,
    pub secret: Option<SecretVolumeSource>,
}

/// The containers and volumes of a pod.
pub struct PodSpec {
    pub containers: Vec<Container>,
    pub volumes: Option<Vec<Volume>>,
}

/// The template from which a Deployment makes its pods.
pub struct PodTemplateSpec {
    pub metadata: Option<ObjectMeta>,
    pub spec: Option<PodSpec>,
}

/// The desired state of a Deployment.
pub struct DeploymentSpec {
    pub replicas: Option<i32>,
    pub selector: LabelSelector,
    pub template: PodTemplateSpec,
}

/// A Deployment: its metadata and desired state.
pub struct Deployment {
    pub metadata: ObjectMeta,
    pub spec: Option<DeploymentSpec>,
}

pub struct VolumeMountView {
    pub name: Seq<char>,
    pub mount_path: Seq<char>,
    pub sub_path: Option<Seq<char>>,
    pub read_only: Option<bool>,
}

pub struct ContainerView {
    pub name: Seq<char>,
    pub image: Option<Seq<char>>,
    pub volume_mounts: Option<Seq<VolumeMountView>>,
}

pub struct VolumeView {
    pub name: Seq<char>,
    pub secret: Option<Option<Seq<char>>>,
}

pub struct PodSpecView {
    pub containers: Seq<ContainerView>,
    pub volumes: Option<Seq<VolumeView>>,
}

pub struct PodTemplateSpecView {
    pub metadata: Option<ObjectMetaView>,
    pub spec: Option<PodSpecView>,
}

pub struct DeploymentSpecView {
    pub replicas: Option<i32>,
    pub match_labels: Option<Map<Seq<char>, Seq<char>>>,
    pub template: PodTemplateSpecView,
}

pub struct DeploymentView {
    pub metadata: ObjectMetaView,
    pub spec: Option<DeploymentSpecView>,
}

impl View for VolumeMount {
    type V = VolumeMountView;

    open spec fn view(&self) -> VolumeMountView {
        VolumeMountView {
            name: self.name@,
            mount_path: self.mount_path@,
            sub_path: opt_str(self.sub_path),
            read_only: self.read_only,
        }
    }
}

impl View for Container {
    type V = ContainerView;

    open spec fn view(&self) -> ContainerView {
        ContainerView {
            name: self.name@,
            image: opt_str(self.image),
            volume_mounts: match self.volume_mounts {
                Some(v) => Some(v@.map_values(|m: VolumeMount| m@)),
                None => None,
            },
        }
    }
}

impl View for Volume {
    type V = VolumeView;

    open spec fn view(&self) -> VolumeView {
        VolumeView {
            name: self.name@,
            secret: match self.secret {
                Some(s) => Some(opt_str(s.secret_name)),
                None => None,
            },
        }
    }
}

impl View for PodSpec {
    type V = PodSpecView;

    open spec fn view(&self) -> PodSpecView {
        PodSpecView {
            containers: self.containers@.map_values(|c: Container| c@),
            volumes: match self.volumes {
                Some(v) => Some(v@.map_values(|v: Volume| v@)),
                None => None,
            },
        }
    }
}

impl View for PodTemplateSpec {
    type V = PodTemplateSpecView;

    open spec fn view(&self) -> PodTemplateSpecView {
        PodTemplateSpecView {
            metadata: match self.metadata {
                Some(m) => Some(m@),
                None => None,
            },
            spec: match self.spec {
                Some(s) => Some(s@),
                None => None,
            },
        }
    }
}

impl View for DeploymentSpec {
    type V = DeploymentSpecView;

    open spec fn view(&self) -> DeploymentSpecView {
        DeploymentSpecView {
            replicas: self.replicas,
            match_labels: opt_map(self.selector.match_labels),
            template: self.template@,
        }
    }
}

impl View for Deployment {
    type V = DeploymentView;

    open spec fn view(&self) -> DeploymentView {
        DeploymentView {
            metadata: self.metadata@,
            spec: match self.spec {
                Some(s) => Some(s@),
                None => None,
            },
        }
    }
}

impl DeploymentSpecView {
    pub open spec fn empty() -> DeploymentSpecView {
        DeploymentSpecView {
            replicas: None,
            match_labels: None,
            template: PodTemplateSpecView { metadata: None, spec: None },
        }
    }
}

impl Default for DeploymentSpec {
    fn default() -> (s: Self)
        ensures
            s@ == DeploymentSpecView::empty(),
    {
        DeploymentSpec {
            replicas: None,
            selector: LabelSelector { match_labels: None },
            template: PodTemplateSpec { metadata: None, spec: None },
        }
    }
}

} // verus!
