//! The custom resources of the operator, group `frp.parzival.space`, version `v1alpha1`.
use crate::k8s::{clone_opt_string, ObjectMeta, ObjectMetaView};
use crate::strmap::StrMap;
use vstd::prelude::*;

verus! {

/// How an FRP client authenticates against its server.
#[derive(Clone, Copy, Debug, PartialEq, Eq, Structural)]
pub enum ClientAuthMethod {
    Token,
}

impl Default for ClientAuthMethod {
    fn default() -> (m: Self)
        ensures
            m == ClientAuthMethod::Token,
    {
        ClientAuthMethod::Token
    }
}

/// A key of a Secret in the client's namespace.
pub struct SecretKeyRef {
    pub name: String,
    pub key: String,
}

/// The authentication of an FRP client.
pub struct ClientAuthSpec {
    pub method: ClientAuthMethod,
    pub token_secret_ref: SecretKeyRef,
}

/// The desired state of a `Client`: the FRP server it connects to and how it
/// authenticates there.
pub struct ClientSpec {
    pub server_addr: String,
    pub server_port: u16,
    pub auth: ClientAuthSpec,
    pub metadatas: StrMap<String>,
}

/// The transport protocol of a tunnel.
#[derive(Clone, Copy, Debug, PartialEq, Eq, Structural)]
pub enum TunnelType {
    Tcp,
    Udp,
}

impl Default for TunnelType {
    fn default() -> (t: Self)
        ensures
            t == TunnelType::Tcp,
    {
        TunnelType::Tcp
    }
}

/// The `Client` that a tunnel belongs to.
pub struct ClientRef {
    pub namespace: String,
    pub name: String,
}

/// The desired state of a `Tunnel`: what local address is exposed, on which
/// remote port, through which client.
pub struct TunnelSpec {
    pub type_: TunnelType,
    pub local_address: String,
    pub local_port: u16,
    pub remote_port: u16,
    pub client_ref: ClientRef,
}

/// The `Client` custom resource.
pub struct Client {
    pub metadata: ObjectMeta,
    pub spec: ClientSpec,
}

/// The `Tunnel` custom resource.
pub struct Tunnel {
    pub metadata: ObjectMeta,
    pub spec: TunnelSpec,
}

impl Client {
    /// The name if set, else the generated name, else the empty string.
    pub fn name_any(&self) -> (res: String)
        ensures
            res@ == self.metadata@.name_any(),
    {
        self.metadata.name_any()
    }

    /// The namespace the client lives in.
    pub fn namespace(&self) -> (res: Option<String>)
        ensures
            res == self.metadata.namespace,
    {
        clone_opt_string(&self.metadata.namespace)
    }
}

impl Tunnel {
    /// The name if set, else the generated name, else the empty string.
    pub fn name_any(&self) -> (res: String)
        ensures
            res@ == self.metadata@.name_any(),
    {
        self.metadata.name_any()
    }

    /// The namespace the tunnel lives in.
    pub fn namespace(&self) -> (res: Option<String>)
        ensures
            res == self.metadata.namespace,
    {
        clone_opt_string(&self.metadata.namespace)
    }
}

/// The namespace of an object, or the empty string where it has none.
pub open spec fn namespace_or_empty(meta: ObjectMetaView) -> Seq<char> {
    match meta.namespace {
        Some(ns) => ns,
        None => Seq::empty(),
    }
}

/// The name and namespace of the `Client` that a tunnel refers to.
pub open spec fn watched_ref(tunnel: Tunnel) -> (Seq<char>, Seq<char>) {
    (tunnel.spec.client_ref.name@, tunnel.spec.client_ref.namespace@)
}

/// The name and namespace of the `Client` whose reconciliation a change of
/// `tunnel` triggers.
pub fn watched_client_of(tunnel: &Tunnel) -> (res: ClientRef)
    ensures
        (res.name@, res.namespace@) == watched_ref(*tunnel),
{
    ClientRef {
        namespace: tunnel.spec.client_ref.namespace.clone(),
        name: tunnel.spec.client_ref.name.clone(),
    }
}

} // verus!
