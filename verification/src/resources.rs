//! The Kubernetes objects that the operator manages for each `Client`: the
//! Secret holding the rendered `frpc` configuration, and the Deployment
//! running `frpc` with it.
use crate::hash::{config_hash, config_hash_of};
use crate::k8s::{opt_str, ObjectMeta, ObjectMetaView, Secret, SecretView};
use crate::strmap::StrMap;
use crate::v1alpha1::Client;
use vstd::prelude::*;

verus! {

/// The key of the Secret under which the rendered configuration is stored.
pub const KEY_FRPC_CONFIG: &'static str = "frpc.toml";

/// The annotation that carries the hash of the rendered configuration.
pub const ANNOTATION_CONFIG_HASH: &'static str = "frp.parzival.space/config-hash";

/// The label that names the client an object belongs to.
pub const LABEL_CLIENT: &'static str = "frp.parzival.space/client";

/// The labels of every object that the operator manages for the client `client_name`.
pub open spec fn managed_labels(client_name: Seq<char>) -> Map<Seq<char>, Seq<char>> {
    Map::empty()
        .insert("app.kubernetes.io/name"@, "frpc"@)
        .insert("app.kubernetes.io/managed-by"@, "frp-operator"@)
        .insert(LABEL_CLIENT@, client_name)
}

/// The value of an annotation, where it is set.
pub open spec fn annotation(meta: ObjectMetaView, key: Seq<char>) -> Option<Seq<char>> {
    match meta.annotations {
        Some(a) => if a.contains_key(key) {
            Some(a[key])
        } else {
            None
        },
        None => None,
    }
}

pub(crate) fn make_managed_labels(client_name: String) -> (res: StrMap<String>)
    ensures
        res@ == managed_labels(client_name@),
{
    let mut labels = StrMap::new();
    labels.insert("app.kubernetes.io/name".to_owned(), "frpc".to_owned());
    labels.insert("app.kubernetes.io/managed-by".to_owned(), "frp-operator".to_owned());
    labels.insert(LABEL_CLIENT.to_owned(), client_name);
    labels
}

/// Looks up the config-hash annotation.
fn config_hash_annotation(meta: &ObjectMeta) -> (res: Option<&String>)
    ensures
        res is Some <==> annotation(meta@, ANNOTATION_CONFIG_HASH@) is Some,
        res matches Some(h) ==> h@ == annotation(meta@, ANNOTATION_CONFIG_HASH@)->0,
{
    match &meta.annotations {
        Some(a) => {
            let key = ANNOTATION_CONFIG_HASH.to_owned();
            a.get(&key)
        },
        None => None,
    }
}

/// The Secret that the operator wants for a client whose configuration
/// rendered to `rendered` (or failed to render, `None`).
pub open spec fn desired_secret(client: ObjectMetaView, rendered: Option<Seq<char>>) -> SecretView {
    let name = client.name_any();
    SecretView {
        metadata: ObjectMetaView {
            name: Some(name + "-frpc-config"@),
            generate_name: None,
            namespace: client.namespace,
            labels: Some(managed_labels(name)),
            annotations: match rendered {
                Some(r) => Some(Map::empty().insert(ANNOTATION_CONFIG_HASH@, config_hash_of(r))),
                None => None,
            },
        },
        type_: Some("Opaque"@),
        data: None,
        string_data: match rendered {
            Some(r) => Some(Map::empty().insert(KEY_FRPC_CONFIG@, r)),
            None => None,
        },
    }
}

/// The Secret that holds the rendered `frpc` configuration of a client.
pub struct ManagedClientConfigSecret {
    secret: Secret,
}

impl View for ManagedClientConfigSecret {
    type V = SecretView;

    closed spec fn view(&self) -> SecretView {
        self.secret@
    }
}

impl ManagedClientConfigSecret {
    /// The name of the Secret.
    pub fn name(&self) -> (res: Option<&String>)
        ensures
            res is Some <==> self@.metadata.name is Some,
            res matches Some(n) ==> n@ == self@.metadata.name->0,
    {
        match &self.secret.metadata.name {
            Some(n) => Some(n),
            None => None,
        }
    }

    /// The hash of the configuration that the Secret holds, from its annotation.
    pub fn config_hash(&self) -> (res: Option<&String>)
        ensures
            res is Some <==> annotation(self@.metadata, ANNOTATION_CONFIG_HASH@) is Some,
            res matches Some(h) ==> h@ == annotation(self@.metadata, ANNOTATION_CONFIG_HASH@)->0,
    {
        config_hash_annotation(&self.secret.metadata)
    }

    /// The Secret, to be written to the cluster.
    pub fn as_secret(&self) -> (res: &Secret)
        ensures
            res@ == self@,
    {
        &self.secret
    }

    /// The Secret for `client` whose configuration rendered to
    /// `rendered_config`, or failed to render (`None`): named
    /// `<client>-frpc-config` in the client's namespace, labelled as managed,
    /// of type `Opaque`, and, where the configuration rendered, holding it
    /// under `frpc.toml` with its hash in the config-hash annotation.
    pub fn from_rendered_config(client: &Client, rendered_config: Option<String>) -> (res: Self)
        ensures
            res@ == desired_secret(client.metadata@, opt_str(rendered_config)),
    {
        let client_name = client.name_any();
        let name = client_name.clone().concat("-frpc-config");
        let labels = make_managed_labels(client_name);
        let mut secret = Secret {
            metadata: ObjectMeta {
                name: Some(name),
                generate_name: None,
                namespace: client.namespace(),
                labels: Some(labels),
                annotations: None,
            },
            type_: Some("Opaque".to_owned()),
            data: None,
            string_data: None,
        };
        match rendered_config {
            Some(rendered) => {
                let hash = config_hash(&rendered);
                let mut string_data = StrMap::new();
                string_data.insert(KEY_FRPC_CONFIG.to_owned(), rendered);
                secret.string_data = Some(string_data);
                let mut annotations = StrMap::new();
                annotations.insert(ANNOTATION_CONFIG_HASH.to_owned(), hash);
                secret.metadata.annotations = Some(annotations);
            },
            None => {},
        }
        ManagedClientConfigSecret { secret }
    }
}

impl From<Secret> for ManagedClientConfigSecret {
    /// Wraps a Secret read from the cluster.
    fn from(secret: Secret) -> (res: Self)
        ensures
            res@ == secret@,
    {
        ManagedClientConfigSecret { secret }
    }
}

impl vstd::std_specs::convert::FromSpecImpl<Secret> for ManagedClientConfigSecret {
    open spec fn obeys_from_spec() -> bool {
        true
    }

    closed spec fn from_spec(v: Secret) -> Self {
        ManagedClientConfigSecret { secret: v }
    }
}

impl From<ManagedClientConfigSecret> for Secret {
    /// The Secret to write to the cluster.
    fn from(managed: ManagedClientConfigSecret) -> (res: Self)
        ensures
            res@ == managed@,
    {
        managed.secret
    }
}

impl vstd::std_specs::convert::FromSpecImpl<ManagedClientConfigSecret> for Secret {
    open spec fn obeys_from_spec() -> bool {
        true
    }

    closed spec fn from_spec(v: ManagedClientConfigSecret) -> Self {
        v.secret
    }
}

} // verus!
