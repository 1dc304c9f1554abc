//! The Deployment that runs `frpc` for a `Client`.
use crate::k8s::{
    map_or_empty, opt_map, opt_str, Container, ContainerView, Deployment, DeploymentSpec,
    DeploymentSpecView, DeploymentView, LabelSelector, ObjectMeta, ObjectMetaView, PodSpec,
    PodSpecView, PodTemplateSpec, PodTemplateSpecView, SecretVolumeSource, Volume, VolumeMount,
    VolumeMountView, VolumeView,
};
use crate::resources::{
    annotation, make_managed_labels, managed_labels, ManagedClientConfigSecret,
    ANNOTATION_CONFIG_HASH, KEY_FRPC_CONFIG, LABEL_CLIENT,
};
use crate::strmap::StrMap;
use crate::v1alpha1::Client;
use vstd::prelude::*;

verus! {

/// The Deployment before it is tied to a client: one replica of the `frpc`
/// container, with the configuration volume mounted at `/etc/frp/frpc.toml`.
pub open spec fn initial_deployment() -> DeploymentView {
    let labels = managed_labels(Seq::empty());
    DeploymentView {
        metadata: ObjectMetaView { labels: Some(labels), ..ObjectMetaView::empty() },
        spec: Some(
            DeploymentSpecView {
                replicas: Some(1),
                match_labels: Some(labels),
                template: PodTemplateSpecView {
                    metadata: Some(ObjectMetaView { labels: Some(labels), ..ObjectMetaView::empty() }),
                    spec: Some(
                        PodSpecView {
                            containers: seq![
                                ContainerView {
                                    name: "frpc"@,
                                    image: Some("snowdreamtech/frpc"@),
                                    volume_mounts: Some(
                                        seq![
                                            VolumeMountView {
                                                name: "config"@,
                                                mount_path: "/etc/frp/frpc.toml"@,
                                                sub_path: Some(KEY_FRPC_CONFIG@),
                                                read_only: Some(true),
                                            },
                                        ],
                                    ),
                                },
                            ],
                            volumes: Some(seq![VolumeView { name: "config"@, secret: Some(None) }]),
                        },
                    ),
                },
            },
        ),
    }
}

/// The spec of the Deployment, an empty one where it has none.
pub open spec fn spec_or_empty(d: DeploymentView) -> DeploymentSpecView {
    match d.spec {
        Some(s) => s,
        None => DeploymentSpecView::empty(),
    }
}

/// The metadata of a pod template, empty where it has none.
pub open spec fn template_meta_or_empty(s: DeploymentSpecView) -> ObjectMetaView {
    match s.template.metadata {
        Some(m) => m,
        None => ObjectMetaView::empty(),
    }
}

impl DeploymentView {
    /// The Deployment moved to `namespace`.
    pub open spec fn with_namespace(self, namespace: Option<Seq<char>>) -> DeploymentView {
        DeploymentView { metadata: ObjectMetaView { namespace, ..self.metadata }, ..self }
    }

    /// The Deployment named `<client_name>-frpc`, with the client label set to
    /// `client_name` on itself, its selector and its pod template.
    pub open spec fn with_client_name(self, client_name: Seq<char>) -> DeploymentView {
        let spec = spec_or_empty(self);
        let tmeta = template_meta_or_empty(spec);
        DeploymentView {
            metadata: ObjectMetaView {
                name: Some(client_name + "-frpc"@),
                labels: Some(map_or_empty(self.metadata.labels).insert(LABEL_CLIENT@, client_name)),
                ..self.metadata
            },
            spec: Some(
                DeploymentSpecView {
                    match_labels: Some(map_or_empty(spec.match_labels).insert(LABEL_CLIENT@, client_name)),
                    template: PodTemplateSpecView {
                        metadata: Some(
                            ObjectMetaView {
                                labels: Some(map_or_empty(tmeta.labels).insert(LABEL_CLIENT@, client_name)),
                                ..tmeta
                            },
                        ),
                        ..spec.template
                    },
                    ..spec
                },
            ),
        }
    }

    /// The Deployment whose first volume, where it is a Secret volume, takes
    /// its files from the Secret `secret_name`.
    pub open spec fn with_config_secret_name(self, secret_name: Option<Seq<char>>) -> DeploymentView {
        match self.spec {
            Some(s) => match s.template.spec {
                Some(ps) => match ps.volumes {
                    Some(vs) => if vs.len() > 0 && vs[0].secret is Some {
                        DeploymentView {
                            spec: Some(
                                DeploymentSpecView {
                                    template: PodTemplateSpecView {
                                        spec: Some(
                                            PodSpecView {
                                                volumes: Some(
                                                    vs.update(0, VolumeView { secret: Some(secret_name), ..vs[0] }),
                                                ),
                                                ..ps
                                            },
                                        ),
                                        ..s.template
                                    },
                                    ..s
                                },
                            ),
                            ..self
                        }
                    } else {
                        self
                    },
                    None => self,
                },
                None => self,
            },
            None => self,
        }
    }

    /// The Deployment whose config-hash annotation, on itself and on its pod
    /// template, is `hash`.
    pub open spec fn with_config_hash(self, hash: Seq<char>) -> DeploymentView {
        let spec = spec_or_empty(self);
        let tmeta = template_meta_or_empty(spec);
        DeploymentView {
            metadata: ObjectMetaView {
                annotations: Some(map_or_empty(self.metadata.annotations).insert(ANNOTATION_CONFIG_HASH@, hash)),
                ..self.metadata
            },
            spec: Some(
                DeploymentSpecView {
                    template: PodTemplateSpecView {
                        metadata: Some(
                            ObjectMetaView {
                                annotations: Some(
                                    map_or_empty(tmeta.annotations).insert(ANNOTATION_CONFIG_HASH@, hash),
                                ),
                                ..tmeta
                            },
                        ),
                        ..spec.template
                    },
                    ..spec
                },
            ),
        }
    }
}

/// A hash that may be missing counts as the empty string.
pub open spec fn hash_or_empty(h: Option<Seq<char>>) -> Seq<char> {
    match h {
        Some(h) => h,
        None => Seq::empty(),
    }
}

/// The Deployment that the operator wants for a client whose configuration
/// Secret is `secret`.
pub open spec fn desired_deployment(client: ObjectMetaView, secret: crate::k8s::SecretView) -> DeploymentView {
    initial_deployment()
        .with_namespace(client.namespace)
        .with_client_name(client.name_any())
        .with_config_secret_name(secret.metadata.name)
        .with_config_hash(hash_or_empty(annotation(secret.metadata, ANNOTATION_CONFIG_HASH@)))
}

/// The Deployment that runs `frpc` for a client.
pub struct ManagedClientDeployment {
    deployment: Deployment,
}

impl View for ManagedClientDeployment {
    type V = DeploymentView;

    closed spec fn view(&self) -> DeploymentView {
        self.deployment@
    }
}

fn take_map(o: &mut Option<StrMap<String>>) -> (res: StrMap<String>)
    ensures
        res@ == map_or_empty(opt_map(*old(o))),
        *final(o) is None,
{
    match o.take() {
        Some(m) => m,
        None => StrMap::new(),
    }
}

impl ManagedClientDeployment {
    fn new() -> (res: Self)
        ensures
            res@ == initial_deployment(),
    {
        let mut mounts: Vec<VolumeMount> = Vec::new();
        mounts.push(
            VolumeMount {
                name: "config".to_owned(),
                mount_path: "/etc/frp/frpc.toml".to_owned(),
                sub_path: Some(KEY_FRPC_CONFIG.to_owned()),
                read_only: Some(true),
            },
        );
        let mut containers: Vec<Container> = Vec::new();
        containers.push(
            Container {
                name: "frpc".to_owned(),
                image: Some("snowdreamtech/frpc".to_owned()),
                volume_mounts: Some(mounts),
            },
        );
        let mut volumes: Vec<Volume> = Vec::new();
        volumes.push(Volume { name: "config".to_owned(), secret: Some(SecretVolumeSource { secret_name: None }) });
        let res = ManagedClientDeployment {
            deployment: Deployment {
                metadata: ObjectMeta {
                    labels: Some(make_managed_labels(String::new())),
                    ..ObjectMeta::default()
                },
                spec: Some(
                    DeploymentSpec {
                        replicas: Some(1),
                        selector: LabelSelector { match_labels: Some(make_managed_labels(String::new())) },
                        template: PodTemplateSpec {
                            metadata: Some(
                                ObjectMeta {
                                    labels: Some(make_managed_labels(String::new())),
                                    ..ObjectMeta::default()
                                },
                            ),
                            spec: Some(PodSpec { containers, volumes: Some(volumes) }),
                        },
                    },
                ),
            },
        };
        proof {
            assert(res@.spec->0.template.spec->0.containers[0].volume_mounts->0 =~= initial_deployment().spec->0.template.spec->0.containers[0].volume_mounts->0);
            assert(res@.spec->0.template.spec->0.containers =~= initial_deployment().spec->0.template.spec->0.containers);
            assert(res@.spec->0.template.spec->0.volumes->0 =~= initial_deployment().spec->0.template.spec->0.volumes->0);
        }
        res
    }

    fn set_namespace(&mut self, namespace: Option<String>)
        ensures
            final(self)@ == old(self)@.with_namespace(opt_str(namespace)),
    {
        self.deployment.metadata.namespace = namespace;
    }

    fn set_client_name(&mut self, client_name: String)
        ensures
            final(self)@ == old(self)@.with_client_name(client_name@),
    {
        self.deployment.metadata.name = Some(client_name.clone().concat("-frpc"));
        let mut labels = take_map(&mut self.deployment.metadata.labels);
        labels.insert(LABEL_CLIENT.to_owned(), client_name.clone());
        self.deployment.metadata.labels = Some(labels);
        let mut spec = match self.deployment.spec.take() {
            Some(s) => s,
            None => DeploymentSpec::default(),
        };
        let mut match_labels = take_map(&mut spec.selector.match_labels);
        match_labels.insert(LABEL_CLIENT.to_owned(), client_name.clone());
        spec.selector.match_labels = Some(match_labels);
        let mut tmeta = match spec.template.metadata.take() {
            Some(m) => m,
            None => ObjectMeta::default(),
        };
        let mut tlabels = take_map(&mut tmeta.labels);
        tlabels.insert(LABEL_CLIENT.to_owned(), client_name);
        tmeta.labels = Some(tlabels);
        spec.template.metadata = Some(tmeta);
        self.deployment.spec = Some(spec);
    }

    fn set_config_secret_name(&mut self, secret_name: Option<String>)
        ensures
            final(self)@ == old(self)@.with_config_secret_name(opt_str(secret_name)),
    {
        let ghost before = self@;
        match self.deployment.spec.take() {
            Some(mut spec) => {
                match spec.template.spec.take() {
                    Some(mut pod) => {
                        match pod.volumes.take() {
                            Some(mut volumes) => {
                                if volumes.len() > 0 {
                                    let mut first = volumes.remove(0);
                                    let ghost rest = volumes@;
                                    match first.secret.take() {
                                        Some(mut source) => {
                                            source.secret_name = secret_name;
                                            first.secret = Some(source);
                                        },
                                        None => {},
                                    }
                                    volumes.insert(0, first);
                                    proof {
                                        let vs = before.spec->0.template.spec->0.volumes->0;
                                        if vs[0].secret is Some {
                                            assert(volumes@.map_values(|v: Volume| v@) =~= vs.update(
                                                0,
                                                VolumeView { secret: Some(opt_str(secret_name)), ..vs[0] },
                                            ));
                                        } else {
                                            assert(volumes@.map_values(|v: Volume| v@) =~= vs);
                                        }
                                    }
                                }
                                pod.volumes = Some(volumes);
                            },
                            None => {},
                        }
                        spec.template.spec = Some(pod);
                    },
                    None => {},
                }
                self.deployment.spec = Some(spec);
            },
            None => {},
        }
    }

    fn set_config_hash(&mut self, config_hash: Option<&String>)
        ensures
            final(self)@ == old(self)@.with_config_hash(
                match config_hash {
                    Some(h) => h@,
                    None => Seq::empty(),
                },
            ),
    {
        let config_hash = match config_hash {
            Some(h) => h.clone(),
            None => String::new(),
        };
        let mut annotations = take_map(&mut self.deployment.metadata.annotations);
        annotations.insert(ANNOTATION_CONFIG_HASH.to_owned(), config_hash.clone());
        self.deployment.metadata.annotations = Some(annotations);
        let mut spec = match self.deployment.spec.take() {
            Some(s) => s,
            None => DeploymentSpec::default(),
        };
        let mut tmeta = match spec.template.metadata.take() {
            Some(m) => m,
            None => ObjectMeta::default(),
        };
        let mut tannotations = take_map(&mut tmeta.annotations);
        tannotations.insert(ANNOTATION_CONFIG_HASH.to_owned(), config_hash);
        tmeta.annotations = Some(tannotations);
        spec.template.metadata = Some(tmeta);
        self.deployment.spec = Some(spec);
    }

    /// The name of the Deployment.
    pub fn name(&self) -> (res: Option<&String>)
        ensures
            res is Some <==> self@.metadata.name is Some,
            res matches Some(n) ==> n@ == self@.metadata.name->0,
    {
        match &self.deployment.metadata.name {
            Some(n) => Some(n),
            None => None,
        }
    }

    /// The hash of the configuration that the Deployment runs with, from its annotation.
    pub fn config_hash(&self) -> (res: Option<&String>)
        ensures
            res is Some <==> annotation(self@.metadata, ANNOTATION_CONFIG_HASH@) is Some,
            res matches Some(h) ==> h@ == annotation(self@.metadata, ANNOTATION_CONFIG_HASH@)->0,
    {
        match &self.deployment.metadata.annotations {
            Some(a) => {
                let key = ANNOTATION_CONFIG_HASH.to_owned();
                a.get(&key)
            },
            None => None,
        }
    }

    /// The Deployment, to be written to the cluster.
    pub fn as_deployment(&self) -> (res: &Deployment)
        ensures
            res@ == self@,
    {
        &self.deployment
    }

    /// The Deployment for `client` that runs `frpc` with the configuration
    /// held by `config`: in the client's namespace, named after the client,
    /// mounting the Secret `config`, annotated with its config hash.
    pub fn from_client(client: &Client, config: ManagedClientConfigSecret) -> (res: Self)
        ensures
            res@ == desired_deployment(client.metadata@, config@),
    {
        let mut deployment = Self::new();
        deployment.set_namespace(client.namespace());
        deployment.set_client_name(client.name_any());
        let secret_name = match config.name() {
            Some(n) => Some(n.clone()),
            None => None,
        };
        deployment.set_config_secret_name(secret_name);
        deployment.set_config_hash(config.config_hash());
        deployment
    }
}

impl From<Deployment> for ManagedClientDeployment {
    /// Wraps a Deployment read from the cluster.
    fn from(deployment: Deployment) -> (res: Self)
        ensures
            res@ == deployment@,
    {
        ManagedClientDeployment { deployment }
    }
}

impl vstd::std_specs::convert::FromSpecImpl<Deployment> for ManagedClientDeployment {
    open spec fn obeys_from_spec() -> bool {
        true
    }

    closed spec fn from_spec(v: Deployment) -> Self {
        ManagedClientDeployment { deployment: v }
    }
}

impl From<ManagedClientDeployment> for Deployment {
    /// The Deployment to write to the cluster.
    fn from(managed: ManagedClientDeployment) -> (res: Self)
        ensures
            res@ == managed@,
    {
        managed.deployment
    }
}

impl vstd::std_specs::convert::FromSpecImpl<ManagedClientDeployment> for Deployment {
    open spec fn obeys_from_spec() -> bool {
        true
    }

    closed spec fn from_spec(v: ManagedClientDeployment) -> Self {
        v.deployment
    }
}

} // verus!
