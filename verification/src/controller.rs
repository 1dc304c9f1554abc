//! The decisions of the reconciliation of a `Client`. The caller performs each
//! request against the cluster and hands back what came of it, until the
//! reconciliation is done.
use crate::deployment::{desired_deployment, ManagedClientDeployment};
use crate::k8s::{clone_opt_string, DeploymentView, SecretView};
use crate::resources::{annotation, ManagedClientConfigSecret, ANNOTATION_CONFIG_HASH};
use crate::v1alpha1::{namespace_or_empty, Client};
use vstd::prelude::*;

verus! {

/// Where the reconciliation stands.
#[derive(Clone, Copy, Debug, PartialEq, Eq, Structural)]
pub enum ReconcilePhase {
    /// Waiting for the Secret of that name as it is in the cluster.
    AwaitExistingSecret,
    /// Waiting for the Secret to be written.
    AwaitSecretWritten,
    /// Waiting for the Deployment of that name as it is in the cluster.
    AwaitExistingDeployment,
    /// Waiting for the Deployment to be written.
    AwaitDeploymentWritten,
    /// Nothing left to do; wait for the next change.
    Done,
}

/// What the caller is asked to do next.
pub enum ReconcileRequest {
    /// Read the Secret `name` of `namespace`, if it exists.
    GetSecret { namespace: String, name: String },
    /// Create the desired Secret in `namespace`.
    CreateSecret { namespace: String },
    /// Apply the desired Secret over the Secret `name` of `namespace`.
    PatchSecret { namespace: String, name: String },
    /// Read the Deployment `name` of `namespace`, if it exists.
    GetDeployment { namespace: String, name: String },
    /// Create the desired Deployment in `namespace`.
    CreateDeployment { namespace: String },
    /// Apply the desired Deployment over the Deployment `name` of `namespace`.
    PatchDeployment { namespace: String, name: String },
    /// The reconciliation is over: wait for the next change.
    AwaitChange,
}

/// What came of the last request.
pub enum ReconcileEvent {
    /// The Secret as it is in the cluster, or `None` where there is none.
    ExistingSecret(Option<ManagedClientConfigSecret>),
    /// The Deployment as it is in the cluster, or `None` where there is none.
    ExistingDeployment(Option<ManagedClientDeployment>),
    /// The object was written.
    Written,
}

pub enum RequestView {
    GetSecret { namespace: Seq<char>, name: Seq<char> },
    CreateSecret { namespace: Seq<char> },
    PatchSecret { namespace: Seq<char>, name: Seq<char> },
    GetDeployment { namespace: Seq<char>, name: Seq<char> },
    CreateDeployment { namespace: Seq<char> },
    PatchDeployment { namespace: Seq<char>, name: Seq<char> },
    AwaitChange,
}

pub enum EventView {
    ExistingSecret(Option<SecretView>),
    ExistingDeployment(Option<DeploymentView>),
    Written,
}

impl View for ReconcileRequest {
    type V = RequestView;

    open spec fn view(&self) -> RequestView {
        match self {
            ReconcileRequest::GetSecret { namespace, name } => RequestView::GetSecret { namespace: namespace@, name: name@ },
            ReconcileRequest::CreateSecret { namespace } => RequestView::CreateSecret { namespace: namespace@ },
            ReconcileRequest::PatchSecret { namespace, name } => RequestView::PatchSecret { namespace: namespace@, name: name@ },
            ReconcileRequest::GetDeployment { namespace, name } => RequestView::GetDeployment { namespace: namespace@, name: name@ },
            ReconcileRequest::CreateDeployment { namespace } => RequestView::CreateDeployment { namespace: namespace@ },
            ReconcileRequest::PatchDeployment { namespace, name } => RequestView::PatchDeployment { namespace: namespace@, name: name@ },
            ReconcileRequest::AwaitChange => RequestView::AwaitChange,
        }
    }
}

impl View for ReconcileEvent {
    type V = EventView;

    open spec fn view(&self) -> EventView {
        match self {
            ReconcileEvent::ExistingSecret(s) => EventView::ExistingSecret(
                match s {
                    Some(s) => Some(s@),
                    None => None,
                },
            ),
            ReconcileEvent::ExistingDeployment(d) => EventView::ExistingDeployment(
                match d {
                    Some(d) => Some(d@),
                    None => None,
                },
            ),
            ReconcileEvent::Written => EventView::Written,
        }
    }
}

/// The state of the reconciliation of one client.
pub struct ClientReconciliation {
    client: Client,
    namespace: String,
    secret: Option<ManagedClientConfigSecret>,
    deployment: Option<ManagedClientDeployment>,
    phase: ReconcilePhase,
}

pub struct ReconciliationView {
    pub client: crate::k8s::ObjectMetaView,
    pub namespace: Seq<char>,
    pub secret: Option<SecretView>,
    pub deployment: Option<DeploymentView>,
    pub phase: ReconcilePhase,
}

impl View for ClientReconciliation {
    type V = ReconciliationView;

    closed spec fn view(&self) -> ReconciliationView {
        ReconciliationView {
            client: self.client.metadata@,
            namespace: self.namespace@,
            secret: match self.secret {
                Some(s) => Some(s@),
                None => None,
            },
            deployment: match self.deployment {
                Some(d) => Some(d@),
                None => None,
            },
            phase: self.phase,
        }
    }
}

/// The name of an object, the empty string where it has none.
pub open spec fn name_or_empty(name: Option<Seq<char>>) -> Seq<char> {
    match name {
        Some(n) => n,
        None => Seq::empty(),
    }
}

/// The config-hash annotation of an object.
pub open spec fn config_hash_of_meta(meta: crate::k8s::ObjectMetaView) -> Option<Seq<char>> {
    annotation(meta, ANNOTATION_CONFIG_HASH@)
}

/// The phase, the desired objects and the client fit together: the desired
/// Secret is held until the Deployment is built from it.
pub open spec fn well_formed(s: ReconciliationView) -> bool {
    match s.phase {
        ReconcilePhase::AwaitExistingSecret | ReconcilePhase::AwaitSecretWritten => s.secret is Some
            && s.deployment is None,
        ReconcilePhase::AwaitExistingDeployment | ReconcilePhase::AwaitDeploymentWritten => s.secret is None
            && s.deployment is Some,
        ReconcilePhase::Done => true,
    }
}

/// The event answers the request of the phase.
pub open spec fn event_fits(phase: ReconcilePhase, event: EventView) -> bool {
    match phase {
        ReconcilePhase::AwaitExistingSecret => event is ExistingSecret,
        ReconcilePhase::AwaitSecretWritten => event is Written,
        ReconcilePhase::AwaitExistingDeployment => event is ExistingDeployment,
        ReconcilePhase::AwaitDeploymentWritten => event is Written,
        ReconcilePhase::Done => false,
    }
}

/// Turns to the Deployment: builds it from the client and the desired
/// Secret, and looks up the Deployment of that name.
pub open spec fn turn_to_deployment(s: ReconciliationView) -> (ReconciliationView, RequestView) {
    let deployment = desired_deployment(s.client, s.secret->0);
    (
        ReconciliationView {
            secret: None,
            deployment: Some(deployment),
            phase: ReconcilePhase::AwaitExistingDeployment,
            ..s
        },
        RequestView::GetDeployment { namespace: s.namespace, name: name_or_empty(deployment.metadata.name) },
    )
}

/// The state after `event`, and the next request.
pub open spec fn reconcile_next(s: ReconciliationView, event: EventView) -> (ReconciliationView, RequestView) {
    match event {
        EventView::ExistingSecret(existing) => {
            let desired = s.secret->0;
            match existing {
                Some(e) => if config_hash_of_meta(e.metadata) == config_hash_of_meta(desired.metadata) {
                    turn_to_deployment(s)
                } else {
                    (
                        ReconciliationView { phase: ReconcilePhase::AwaitSecretWritten, ..s },
                        RequestView::PatchSecret { namespace: s.namespace, name: name_or_empty(desired.metadata.name) },
                    )
                },
                None => (
                    ReconciliationView { phase: ReconcilePhase::AwaitSecretWritten, ..s },
                    RequestView::CreateSecret { namespace: s.namespace },
                ),
            }
        },
        EventView::ExistingDeployment(existing) => {
            let desired = s.deployment->0;
            match existing {
                Some(e) => if config_hash_of_meta(e.metadata) == config_hash_of_meta(desired.metadata) {
                    (ReconciliationView { phase: ReconcilePhase::Done, ..s }, RequestView::AwaitChange)
                } else {
                    (
                        ReconciliationView { phase: ReconcilePhase::AwaitDeploymentWritten, ..s },
                        RequestView::PatchDeployment { namespace: s.namespace, name: name_or_empty(desired.metadata.name) },
                    )
                },
                None => (
                    ReconciliationView { phase: ReconcilePhase::AwaitDeploymentWritten, ..s },
                    RequestView::CreateDeployment { namespace: s.namespace },
                ),
            }
        },
        EventView::Written => if s.phase == ReconcilePhase::AwaitSecretWritten {
            turn_to_deployment(s)
        } else {
            (ReconciliationView { phase: ReconcilePhase::Done, ..s }, RequestView::AwaitChange)
        },
    }
}

impl ClientReconciliation {
    #[verifier::type_invariant]
    spec fn phase_fits_objects(self) -> bool {
        well_formed(self@)
    }
}

fn hashes_equal(a: Option<&String>, b: Option<&String>) -> (res: bool)
    ensures
        res == (match a {
            Some(x) => Some(x@),
            None => None,
        } == match b {
            Some(y) => Some(y@),
            None => None,
        }),
{
    match (a, b) {
        (Some(x), Some(y)) => *x == *y,
        (None, None) => true,
        _ => false,
    }
}

fn name_or_default(name: Option<&String>) -> (res: String)
    ensures
        res@ == name_or_empty(
            match name {
                Some(n) => Some(n@),
                None => None,
            },
        ),
{
    match name {
        Some(n) => n.clone(),
        None => String::new(),
    }
}

impl ClientReconciliation {
    /// The phase of the reconciliation.
    pub fn phase(&self) -> (res: ReconcilePhase)
        ensures
            res == self@.phase,
    {
        self.phase
    }

    /// The Secret that the reconciliation wants in the cluster, while it still
    /// deals with the Secret.
    pub fn desired_secret(&self) -> (res: Option<&ManagedClientConfigSecret>)
        ensures
            res is Some <==> self@.secret is Some,
            res matches Some(s) ==> s@ == self@.secret->0,
    {
        match &self.secret {
            Some(s) => Some(s),
            None => None,
        }
    }

    /// The Deployment that the reconciliation wants in the cluster, once it
    /// deals with the Deployment.
    pub fn desired_deployment(&self) -> (res: Option<&ManagedClientDeployment>)
        ensures
            res is Some <==> self@.deployment is Some,
            res matches Some(d) ==> d@ == self@.deployment->0,
    {
        match &self.deployment {
            Some(d) => Some(d),
            None => None,
        }
    }

    /// Starts the reconciliation of `client` towards the Secret `secret`
    /// built from its configuration: first look up the Secret of that name in
    /// the client's namespace (the empty one where it has none).
    pub fn start(client: Client, secret: ManagedClientConfigSecret) -> (res: (Self, ReconcileRequest))
        ensures
            res.0@.client == client.metadata@,
            res.0@.namespace == namespace_or_empty(client.metadata@),
            res.0@.secret == Some(secret@),
            res.0@.deployment is None,
            res.0@.phase == ReconcilePhase::AwaitExistingSecret,
            res.1@ == (RequestView::GetSecret {
                namespace: namespace_or_empty(client.metadata@),
                name: name_or_empty(secret@.metadata.name),
            }),
            well_formed(res.0@),
    {
        let namespace = match clone_opt_string(&client.metadata.namespace) {
            Some(ns) => ns,
            None => String::new(),
        };
        let name = name_or_default(secret.name());
        let request = ReconcileRequest::GetSecret { namespace: namespace.clone(), name };
        let state = ClientReconciliation {
            client,
            namespace,
            secret: Some(secret),
            deployment: None,
            phase: ReconcilePhase::AwaitExistingSecret,
        };
        (state, request)
    }

    /// Builds the Deployment from the client and the desired Secret, and asks
    /// for the Deployment of that name.
    fn turn_to_deployment(client: Client, namespace: String, desired_secret: ManagedClientConfigSecret) -> (res: (
        Self,
        ReconcileRequest,
    ))
        ensures
            (res.0@, res.1@) == turn_to_deployment(
                ReconciliationView {
                    client: client.metadata@,
                    namespace: namespace@,
                    secret: Some(desired_secret@),
                    deployment: None,
                    phase: ReconcilePhase::AwaitSecretWritten,
                },
            ),
    {
        let desired = ManagedClientDeployment::from_client(&client, desired_secret);
        let name = name_or_default(desired.name());
        let request = ReconcileRequest::GetDeployment { namespace: namespace.clone(), name };
        let state = ClientReconciliation {
            client,
            namespace,
            secret: None,
            deployment: Some(desired),
            phase: ReconcilePhase::AwaitExistingDeployment,
        };
        (state, request)
    }

    /// Whether `event` answers the last request, so that `step` takes it.
    pub fn accepts(&self, event: &ReconcileEvent) -> (res: bool)
        ensures
            res == event_fits(self@.phase, event@),
    {
        match (self.phase, event) {
            (ReconcilePhase::AwaitExistingSecret, ReconcileEvent::ExistingSecret(_)) => true,
            (ReconcilePhase::AwaitSecretWritten, ReconcileEvent::Written) => true,
            (ReconcilePhase::AwaitExistingDeployment, ReconcileEvent::ExistingDeployment(_)) => true,
            (ReconcilePhase::AwaitDeploymentWritten, ReconcileEvent::Written) => true,
            _ => false,
        }
    }

    /// Takes in what came of the last request and decides the next one.
    pub fn step(self, event: ReconcileEvent) -> (res: (Self, ReconcileRequest))
        requires
            event_fits(self@.phase, event@),
        ensures
            well_formed(self@),
            (res.0@, res.1@) == reconcile_next(self@, event@),
            well_formed(res.0@),
    {
        proof {
            use_type_invariant(&self);
        }
        let ClientReconciliation { client, namespace, secret, deployment, phase } = self;
        match event {
            ReconcileEvent::ExistingSecret(existing) => {
                let desired = secret.unwrap();
                match existing {
                    Some(e) => {
                        if hashes_equal(e.config_hash(), desired.config_hash()) {
                            Self::turn_to_deployment(client, namespace, desired)
                        } else {
                            let name = name_or_default(desired.name());
                            let request = ReconcileRequest::PatchSecret { namespace: namespace.clone(), name };
                            let state = ClientReconciliation {
                                client,
                                namespace,
                                secret: Some(desired),
                                deployment,
                                phase: ReconcilePhase::AwaitSecretWritten,
                            };
                            (state, request)
                        }
                    },
                    None => {
                        let request = ReconcileRequest::CreateSecret { namespace: namespace.clone() };
                        let state = ClientReconciliation {
                            client,
                            namespace,
                            secret: Some(desired),
                            deployment,
                            phase: ReconcilePhase::AwaitSecretWritten,
                        };
                        (state, request)
                    },
                }
            },
            ReconcileEvent::ExistingDeployment(existing) => {
                let desired = deployment.unwrap();
                match existing {
                    Some(e) => {
                        if hashes_equal(e.config_hash(), desired.config_hash()) {
                            let state = ClientReconciliation {
                                client,
                                namespace,
                                secret,
                                deployment: Some(desired),
                                phase: ReconcilePhase::Done,
                            };
                            (state, ReconcileRequest::AwaitChange)
                        } else {
                            let name = name_or_default(desired.name());
                            let request = ReconcileRequest::PatchDeployment { namespace: namespace.clone(), name };
                            let state = ClientReconciliation {
                                client,
                                namespace,
                                secret,
                                deployment: Some(desired),
                                phase: ReconcilePhase::AwaitDeploymentWritten,
                            };
                            (state, request)
                        }
                    },
                    None => {
                        let request = ReconcileRequest::CreateDeployment { namespace: namespace.clone() };
                        let state = ClientReconciliation {
                            client,
                            namespace,
                            secret,
                            deployment: Some(desired),
                            phase: ReconcilePhase::AwaitDeploymentWritten,
                        };
                        (state, request)
                    },
                }
            },
            ReconcileEvent::Written => {
                if phase == ReconcilePhase::AwaitSecretWritten {
                    Self::turn_to_deployment(client, namespace, secret.unwrap())
                } else {
                    let state = ClientReconciliation { client, namespace, secret, deployment, phase: ReconcilePhase::Done };
                    (state, ReconcileRequest::AwaitChange)
                }
            },
        }
    }
}

} // verus!
